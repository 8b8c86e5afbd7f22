//! The command that copies the raw markdown of a message named by its link.
//!
//! The command runs in two steps with a lookup between them. The first step
//! reads and checks the link and either answers at once or asks for the
//! message; the second turns what the lookup returned into the answer.

use crate::link::{link_of_text, parse_message_link, LinkError, LinkReference, LINK_PATTERN};
use crate::markdown::{raw_markdown, raw_markdown_reply, Reply, ReplyView};
use vstd::prelude::*;

verus! {

/// What the user is told when the text is no message link.
pub const INVALID_LINK_NOTICE: &'static str = "Invalid link";

/// What the user is told when the link points into another server.
pub const WRONG_SERVER_NOTICE: &'static str =
    "The server ID in the message link does not match the server ID of the current server.";

/// What the first step of the command decides.
#[derive(Debug, PartialEq, Eq)]
pub enum CopyStep {
    /// Answer the user; nothing is looked up.
    Respond(Reply),
    /// Look the message up in the channel, then go on with
    /// [`copy_markdown_fetched`].
    Fetch { channel_id: u64, message_id: u64 },
}

/// The mathematical content of a [`CopyStep`].
pub enum CopyStepView {
    Respond(ReplyView),
    Fetch { channel_id: u64, message_id: u64 },
}

impl View for CopyStep {
    type V = CopyStepView;

    open spec fn view(&self) -> CopyStepView {
        match self {
            CopyStep::Respond(reply) => CopyStepView::Respond(reply@),
            CopyStep::Fetch { channel_id, message_id } => CopyStepView::Fetch {
                channel_id: *channel_id,
                message_id: *message_id,
            },
        }
    }
}

/// The first step, given what parsing the link gave and the server the
/// command was invoked in: a text that is no link and a link into another
/// server are answered at once; only a link into this server is looked up.
pub open spec fn copy_step(parsed: Result<LinkReference, LinkError>, guild_id: u64) -> CopyStepView {
    match parsed {
        Err(_) => CopyStepView::Respond(ReplyView::Say(INVALID_LINK_NOTICE@)),
        Ok(link) => if link.container != guild_id {
            CopyStepView::Respond(ReplyView::Say(WRONG_SERVER_NOTICE@))
        } else {
            CopyStepView::Fetch { channel_id: link.sub, message_id: link.item }
        },
    }
}

/// Decides the first step from the parsed link.
pub fn copy_markdown_step(parsed: Result<LinkReference, LinkError>, guild_id: u64) -> (step:
    CopyStep)
    ensures
        step@ == copy_step(parsed, guild_id),
        step is Fetch <==> (parsed matches Ok(link) && link.container == guild_id),
{
    match parsed {
        Err(_) => CopyStep::Respond(Reply::Say(INVALID_LINK_NOTICE.to_owned())),
        Ok(link) => {
            if link.container != guild_id {
                CopyStep::Respond(Reply::Say(WRONG_SERVER_NOTICE.to_owned()))
            } else {
                CopyStep::Fetch { channel_id: link.sub, message_id: link.item }
            }
        },
    }
}

/// The first step of the command, invoked in server `guild_id` with the
/// text `message_link`: the step that [`copy_step`] gives for the link that
/// the text holds under [`LINK_PATTERN`]. The message is asked for exactly
/// where that link points into this server, and then by the link's channel
/// and message.
pub fn copy_markdown(message_link: &str, guild_id: u64) -> (step: CopyStep)
    ensures
        step@ == copy_step(link_of_text(LINK_PATTERN@, message_link@), guild_id),
        step is Fetch <==> (link_of_text(LINK_PATTERN@, message_link@) matches Ok(link)
            && link.container == guild_id),
{
    let parsed = parse_message_link(message_link);
    copy_markdown_step(parsed, guild_id)
}

/// The second step: the looked-up message's content is shown as
/// [`raw_markdown`] shows it; a failed lookup is the command's failure, and
/// the lookup's error is handed on as it came.
pub fn copy_markdown_fetched<E>(fetched: Result<String, E>) -> (r: Result<Reply, E>)
    ensures
        match fetched {
            Ok(content) => r matches Ok(reply) && reply@ == raw_markdown_reply(content@),
            Err(cause) => r matches Err(e) && e == cause,
        },
{
    match fetched {
        Ok(content) => Ok(raw_markdown(content.as_str())),
        Err(cause) => Err(cause),
    }
}

/// A link into another server is never looked up, whatever the rest of it
/// says.
pub proof fn lemma_other_server_not_fetched(link: LinkReference, guild_id: u64)
    requires
        link.container != guild_id,
    ensures
        copy_step(Ok(link), guild_id) == CopyStepView::Respond(
            ReplyView::Say(WRONG_SERVER_NOTICE@),
        ),
        !(copy_step(Ok(link), guild_id) is Fetch),
{
}

} // verus!
