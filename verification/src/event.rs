//! Classification of gateway events: what, if anything, each event puts in
//! the log.

use crate::shard::{resolve_shard_stages, shard_status, ConnectionStage};
use crate::text::{decimal, decimal_string};
use crate::Data;
use vstd::prelude::*;

verus! {

/// A gateway event, reduced to what the classifier reads.
#[derive(Debug, PartialEq, Eq)]
pub enum Event {
    /// The connection is established.
    Ready { bot_name: String, version: u64, session_id: String },
    /// A shard moved to another connection stage.
    ShardStageUpdate { stage: ConnectionStage, shard_id: u64 },
    /// A guild became available; `is_new` where the bot has just joined it.
    GuildCreate { guild_name: String, is_new: bool },
    /// A guild went away: for a while (`unavailable`) or for good. `full` is
    /// the name in the full guild descriptor, which may be absent.
    GuildDelete { unavailable: bool, full: Option<String> },
    /// Any other event.
    Other,
}

/// Why an event could not be classified.
#[derive(Debug, Clone, Copy, PartialEq, Eq, Structural)]
pub enum EventError {
    /// The bot was removed from a guild whose descriptor the event lacks.
    MissingGuild,
}

pub const INFO_TAG: &'static str = "\x1b[0;34m[INFO]\x1b[0m ";

pub const READY_TAIL: &'static str = " is connected!";

pub const VERSION_HEAD: &'static str = "\x1b[0;34m[INFO]\x1b[0m Using API v";

pub const SESSION_HEAD: &'static str = "\x1b[0;34m[INFO]\x1b[0m Session Id: ";

pub const AVAILABLE_HEAD: &'static str = "\x1b[0;33m[GUILDS]\x1b[0m Guild\x1b[0;31m ";

pub const AVAILABLE_TAIL: &'static str = "\x1b[0m became \x1b[0;32mavailable\x1b[0m";

pub const JOINED_HEAD: &'static str = "\x1b[0;33m[GUILDS]\x1b[0m Joined \x1b[0;31m ";

pub const JOINED_TAIL: &'static str = "\x1b[0m";

pub const REMOVED_HEAD: &'static str =
    "\x1b[0;33m[GUILDS]\x1b[0m Got banned/kicked from guild \x1b[0;31m ";

pub const REMOVED_TAIL: &'static str = "\x1b[0m ";

pub const OUTAGE_HEAD: &'static str = "\x1b[0;33m[GUILDS]\x1b[0m Guild \x1b[0;31m ";

pub const OUTAGE_TAIL: &'static str =
    "\x1b[0m became unavailable, most likely due to a server outage";

/// The name written for a guild whose descriptor is absent.
pub const GUILD_PLACEHOLDER: &'static str = "unknown";

/// The name to write for a guild that may lack its descriptor.
pub open spec fn guild_name_or_placeholder(name: Option<String>) -> Seq<char> {
    match name {
        Some(name) => name@,
        None => GUILD_PLACEHOLDER@,
    }
}

/// The log lines of an event, in order, or the reason why there are none.
///
/// A guild that is merely unavailable is reported under a placeholder name
/// when its descriptor is absent; a removal cannot be reported without the
/// descriptor and is an error. Events of no interest give no line.
pub open spec fn event_log(event: Event) -> Result<Seq<Seq<char>>, EventError> {
    match event {
        Event::Ready { bot_name, version, session_id } => Ok(
            seq![
                INFO_TAG@ + bot_name@ + READY_TAIL@,
                VERSION_HEAD@ + decimal(version as nat),
                SESSION_HEAD@ + session_id@,
            ],
        ),
        Event::ShardStageUpdate { stage, shard_id } => Ok(seq![shard_status(stage, shard_id)]),
        Event::GuildCreate { guild_name, is_new } => if is_new {
            Ok(
                seq![
                    AVAILABLE_HEAD@ + guild_name@ + AVAILABLE_TAIL@,
                    JOINED_HEAD@ + guild_name@ + JOINED_TAIL@,
                ],
            )
        } else {
            Ok(seq![AVAILABLE_HEAD@ + guild_name@ + AVAILABLE_TAIL@])
        },
        Event::GuildDelete { unavailable, full } => if unavailable {
            Ok(seq![OUTAGE_HEAD@ + guild_name_or_placeholder(full) + OUTAGE_TAIL@])
        } else {
            match full {
                Some(name) => Ok(seq![REMOVED_HEAD@ + name@ + REMOVED_TAIL@]),
                None => Err(EventError::MissingGuild),
            }
        },
        Event::Other => Ok(Seq::empty()),
    }
}

/// A guild that became unavailable is always reported, with or without its
/// descriptor; the only event that cannot be classified is a removal
/// without one.
pub proof fn lemma_outage_never_fails(event: Event)
    ensures
        (event matches Event::GuildDelete { unavailable, .. } && unavailable) ==> event_log(
            event,
        ) is Ok,
        event_log(event) is Err <==> event == (Event::GuildDelete {
            unavailable: false,
            full: None,
        }),
{
}

/// `head`, `body` and `tail` in one text.
fn framed(head: &str, body: &str, tail: &str) -> (line: String)
    ensures
        line@ == head@ + body@ + tail@,
{
    let mut line = head.to_owned();
    line.append(body);
    line.append(tail);
    line
}

/// Classifies one gateway event: returns the lines to log for it, in order.
///
/// A guild-delete event that marks the guild unavailable never fails,
/// descriptor or not; the one failure is a removal without a descriptor.
pub fn event_listener(event: &Event, user_data: &Data) -> (r: Result<Vec<String>, EventError>)
    ensures
        match event_log(*event) {
            Ok(lines) => r matches Ok(out) && out.deep_view() == lines,
            Err(e) => r == Err::<Vec<String>, EventError>(e),
        },
        (*event matches Event::GuildDelete { unavailable, .. } && unavailable) ==> r is Ok,
        r is Err <==> *event == (Event::GuildDelete { unavailable: false, full: None }),
{
    let mut out: Vec<String> = Vec::new();
    match event {
        Event::Ready { bot_name, version, session_id } => {
            out.push(framed(INFO_TAG, bot_name.as_str(), READY_TAIL));
            let number = decimal_string(*version);
            out.push(framed(VERSION_HEAD, number.as_str(), ""));
            out.push(framed(SESSION_HEAD, session_id.as_str(), ""));
            proof {
                reveal_strlit("");
                assert(out.deep_view() =~= event_log(*event)->Ok_0);
            }
        },
        Event::ShardStageUpdate { stage, shard_id } => {
            out.push(resolve_shard_stages(*stage, *shard_id));
            assert(out.deep_view() =~= event_log(*event)->Ok_0);
        },
        Event::GuildCreate { guild_name, is_new } => {
            out.push(framed(AVAILABLE_HEAD, guild_name.as_str(), AVAILABLE_TAIL));
            if *is_new {
                out.push(framed(JOINED_HEAD, guild_name.as_str(), JOINED_TAIL));
            }
            assert(out.deep_view() =~= event_log(*event)->Ok_0);
        },
        Event::GuildDelete { unavailable, full } => {
            if *unavailable {
                let line = match full {
                    Some(name) => framed(OUTAGE_HEAD, name.as_str(), OUTAGE_TAIL),
                    None => framed(OUTAGE_HEAD, GUILD_PLACEHOLDER, OUTAGE_TAIL),
                };
                out.push(line);
                assert(out.deep_view() =~= event_log(*event)->Ok_0);
            } else {
                match full {
                    Some(name) => {
                        out.push(framed(REMOVED_HEAD, name.as_str(), REMOVED_TAIL));
                        assert(out.deep_view() =~= event_log(*event)->Ok_0);
                    },
                    None => {
                        return Err(EventError::MissingGuild);
                    },
                }
            }
        },
        Event::Other => {
            assert(out.deep_view() =~= event_log(*event)->Ok_0);
        },
    }
    Ok(out)
}

} // verus!
