//! The status line of a shard: one fixed label per connection stage, joined
//! with the shard's number.

use crate::text::{decimal, decimal_string, lemma_decimal_roundtrip};
use vstd::prelude::*;

verus! {

/// The state of one shard's link to the gateway.
#[derive(Debug, Clone, Copy, PartialEq, Eq, Structural)]
pub enum ConnectionStage {
    Connecting,
    Handshake,
    Identifying,
    Resuming,
    Connected,
    Disconnected,
    /// Any stage that this library has no name for.
    Unknown,
}

/// What every status line starts with, up to the shard's number.
pub const STATUS_HEAD: &'static str = "\x1b[0;33m[SHARD]\x1b[0m Shard ";

/// What stands between the shard's number and the stage's label.
pub const STATUS_JOINT: &'static str = " is in stage ";

pub const LABEL_CONNECTED: &'static str = "\u{1f7e2} \x1b[0;32mConnected\x1b[0m";

pub const LABEL_CONNECTING: &'static str = "\u{1f7e1} \x1b[0;32mConnecting\x1b[0m";

pub const LABEL_DISCONNECTED: &'static str = "\u{1f525} \x1b[0;31mDisconnected\x1b[0m";

pub const LABEL_HANDSHAKE: &'static str = "\u{1f91d} \x1b[0;32mhandshaking\x1b[0m";

pub const LABEL_IDENTIFYING: &'static str = "\u{1f50e} \x1b[0;32mIdentifying\x1b[0m";

pub const LABEL_RESUMING: &'static str = "\u{1f7e1} \x1b[0;32mResuming\x1b[0m";

pub const LABEL_UNKNOWN: &'static str = "unknown";

/// The label of a stage.
pub open spec fn stage_label(stage: ConnectionStage) -> Seq<char> {
    match stage {
        ConnectionStage::Connected => LABEL_CONNECTED@,
        ConnectionStage::Connecting => LABEL_CONNECTING@,
        ConnectionStage::Disconnected => LABEL_DISCONNECTED@,
        ConnectionStage::Handshake => LABEL_HANDSHAKE@,
        ConnectionStage::Identifying => LABEL_IDENTIFYING@,
        ConnectionStage::Resuming => LABEL_RESUMING@,
        ConnectionStage::Unknown => LABEL_UNKNOWN@,
    }
}

/// The status line of shard `shard_id` in stage `stage`.
pub open spec fn shard_status(stage: ConnectionStage, shard_id: u64) -> Seq<char> {
    STATUS_HEAD@ + decimal(shard_id as nat) + STATUS_JOINT@ + stage_label(stage)
}

/// Whether `needle` occurs in `hay` as a run of neighbouring characters.
pub open spec fn occurs_in(needle: Seq<char>, hay: Seq<char>) -> bool {
    exists|at: int|
        0 <= at && at + needle.len() <= hay.len() && #[trigger] hay.subrange(
            at,
            at + needle.len(),
        ) == needle
}

/// Every status line is non-empty and holds the shard's number in decimal
/// notation, whatever the stage; a stage without a name is labelled
/// `unknown`.
pub proof fn lemma_status_names_shard(stage: ConnectionStage, shard_id: u64)
    ensures
        shard_status(stage, shard_id).len() > 0,
        occurs_in(decimal(shard_id as nat), shard_status(stage, shard_id)),
        shard_status(ConnectionStage::Unknown, shard_id) == STATUS_HEAD@ + decimal(
            shard_id as nat,
        ) + STATUS_JOINT@ + LABEL_UNKNOWN@,
{
    let number = decimal(shard_id as nat);
    let line = shard_status(stage, shard_id);
    lemma_decimal_roundtrip(shard_id as nat);
    let at = STATUS_HEAD@.len() as int;
    assert(line.subrange(at, at + number.len()) =~= number);
}

/// The label of a stage, as text.
pub fn stage_text(stage: ConnectionStage) -> (label: &'static str)
    ensures
        label@ == stage_label(stage),
{
    match stage {
        ConnectionStage::Connected => LABEL_CONNECTED,
        ConnectionStage::Connecting => LABEL_CONNECTING,
        ConnectionStage::Disconnected => LABEL_DISCONNECTED,
        ConnectionStage::Handshake => LABEL_HANDSHAKE,
        ConnectionStage::Identifying => LABEL_IDENTIFYING,
        ConnectionStage::Resuming => LABEL_RESUMING,
        ConnectionStage::Unknown => LABEL_UNKNOWN,
    }
}

/// Writes the status line of shard `shard_id` in stage `stage`.
pub fn resolve_shard_stages(stage: ConnectionStage, shard_id: u64) -> (line: String)
    ensures
        line@ == shard_status(stage, shard_id),
        line@.len() > 0,
        occurs_in(decimal(shard_id as nat), line@),
{
    let mut line = STATUS_HEAD.to_owned();
    let number = decimal_string(shard_id);
    line.append(number.as_str());
    line.append(STATUS_JOINT);
    line.append(stage_text(stage));
    proof {
        lemma_status_names_shard(stage, shard_id);
    }
    line
}

} // verus!
