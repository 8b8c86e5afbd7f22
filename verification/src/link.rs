//! Message links: the pattern they follow, the search for it with the
//! `regex` crate, and the reading of what the search found.

use crate::text::{parse_u64, parsed_u64};
use vstd::prelude::*;

verus! {

/// The pattern of a message link: the scheme, the host with an optional
/// environment-tier prefix, and the three numeric components, in the syntax
/// of the `regex` crate.
pub const LINK_PATTERN: &'static str =
    r"https://(?:canary.|ptb.)?discord.com/channels/(?P<serverid>\d+)/(?P<channelid>\d+)/(?P<messageid>\d+)";

/// The error of `regex::Regex::new`. It is carried through unopened: the
/// library reads nothing of it.
#[verifier::external_type_specification]
#[verifier::external_body]
pub struct ExRegexError(regex::Error);

/// Whether `regex::Regex::new` accepts `pattern`. The engine refuses a
/// pattern for its syntax, or because the program compiled from it is larger
/// than the engine's fixed size limit; both are decided by the pattern and
/// by the build of the engine, and by nothing else.
pub uninterp spec fn regex_compiles(pattern: Seq<char>) -> bool;

/// What `regex::Regex::captures` returns for the regular expression written
/// as `pattern`, searched in `haystack`: nothing where the pattern occurs
/// nowhere, else the text of each capture group of the leftmost match, by the
/// group's index, with nothing for a group that took no part in the match.
pub uninterp spec fn regex_captures(pattern: Seq<char>, haystack: Seq<char>) -> Option<
    Seq<Option<Seq<char>>>,
>;

/// Compiles `pattern` with `regex::Regex::new` and searches `haystack` with
/// `regex::Regex::captures`. The result is `Ok` exactly where the engine
/// accepts the pattern, and then holds what that search found, each group
/// copied out as text; else it is the error of `Regex::new`.
#[verifier::external_body]
fn search_groups(pattern: &str, haystack: &str) -> (r: Result<
    Option<Vec<Option<String>>>,
    regex::Error,
>)
    ensures
        r is Ok <==> regex_compiles(pattern@),
        r matches Ok(found) ==> found.deep_view() == regex_captures(pattern@, haystack@),
{
    let re = regex::Regex::new(pattern)?;
    Ok(re.captures(haystack).map(|caps| {
        caps.iter().map(|group| group.map(|m| m.as_str().to_string())).collect()
    }))
}

/// The three components of a message link.
#[derive(Debug, Clone, Copy, PartialEq, Eq, Structural)]
pub struct LinkReference {
    /// The server.
    pub container: u64,
    /// The channel within the server.
    pub sub: u64,
    /// The message within the channel.
    pub item: u64,
}

/// Why a text is no message link.
#[derive(Debug, Clone, Copy, PartialEq, Eq, Structural)]
pub enum LinkError {
    /// The pattern itself was refused by the regular-expression engine.
    Pattern,
    /// The pattern occurs nowhere in the text.
    NoMatch,
    /// A component is missing or is no unsigned 64-bit number.
    Component,
}

/// The number that capture group `i` holds, if it holds one.
pub open spec fn group_number(groups: Seq<Option<Seq<char>>>, i: int) -> Option<u64> {
    if 0 <= i < groups.len() {
        match groups[i] {
            Some(text) => parsed_u64(text),
            None => None,
        }
    } else {
        None
    }
}

/// The link that the capture groups of a match spell out: groups one to
/// three must each hold a number.
pub open spec fn link_of_groups(groups: Seq<Option<Seq<char>>>) -> Result<
    LinkReference,
    LinkError,
> {
    match (group_number(groups, 1), group_number(groups, 2), group_number(groups, 3)) {
        (Some(container), Some(sub), Some(item)) => Ok(LinkReference { container, sub, item }),
        _ => Err(LinkError::Component),
    }
}

/// The link that a search result stands for.
pub open spec fn link_of_search(found: Option<Seq<Option<Seq<char>>>>) -> Result<
    LinkReference,
    LinkError,
> {
    match found {
        None => Err(LinkError::NoMatch),
        Some(groups) => link_of_groups(groups),
    }
}

fn number_in_group(groups: &Vec<Option<String>>, i: usize) -> (r: Option<u64>)
    ensures
        r == group_number(groups.deep_view(), i as int),
{
    if i < groups.len() {
        match &groups[i] {
            Some(text) => parse_u64(text.as_str()),
            None => None,
        }
    } else {
        None
    }
}

/// Reads the capture groups of a match as a link.
pub fn link_from_groups(groups: &Vec<Option<String>>) -> (r: Result<LinkReference, LinkError>)
    ensures
        r == link_of_groups(groups.deep_view()),
{
    let container = number_in_group(groups, 1);
    let sub = number_in_group(groups, 2);
    let item = number_in_group(groups, 3);
    match (container, sub, item) {
        (Some(container), Some(sub), Some(item)) => Ok(LinkReference { container, sub, item }),
        _ => Err(LinkError::Component),
    }
}

/// Reads the result of a search for the link pattern as a link.
pub fn link_from_search(found: &Option<Vec<Option<String>>>) -> (r: Result<
    LinkReference,
    LinkError,
>)
    ensures
        r == link_of_search(found.deep_view()),
{
    match found {
        None => Err(LinkError::NoMatch),
        Some(groups) => link_from_groups(groups),
    }
}

/// The link that `text` holds under `pattern`: none where the engine refuses
/// the pattern, else the one that the search for it stands for.
pub open spec fn link_of_text(pattern: Seq<char>, text: Seq<char>) -> Result<
    LinkReference,
    LinkError,
> {
    if regex_compiles(pattern) {
        link_of_search(regex_captures(pattern, text))
    } else {
        Err(LinkError::Pattern)
    }
}

/// Searches `text` for `pattern`, a regular expression with three capture
/// groups that each hold a number, and reads the leftmost match as a link.
/// The search is the `regex` crate's; what it finds is read by
/// [`link_from_search`]. A pattern that the engine refuses, and no other,
/// gives `LinkError::Pattern`.
pub fn find_link(pattern: &str, text: &str) -> (r: Result<LinkReference, LinkError>)
    ensures
        r == link_of_text(pattern@, text@),
        r == Err::<LinkReference, LinkError>(LinkError::Pattern) <==> !regex_compiles(pattern@),
{
    match search_groups(pattern, text) {
        Ok(found) => link_from_search(&found),
        Err(_) => Err(LinkError::Pattern),
    }
}

/// Parses a message link: finds [`LINK_PATTERN`] in `link` and reads the
/// three components.
pub fn parse_message_link(link: &str) -> (r: Result<LinkReference, LinkError>)
    ensures
        r == link_of_text(LINK_PATTERN@, link@),
{
    find_link(LINK_PATTERN, link)
}

/// Reading a search result never gives the pattern error: that one is owed
/// to a refused pattern alone.
pub proof fn lemma_pattern_error_is_the_engines(pattern: Seq<char>, text: Seq<char>)
    ensures
        link_of_text(pattern, text) == Err::<LinkReference, LinkError>(LinkError::Pattern)
            <==> !regex_compiles(pattern),
        link_of_search(regex_captures(pattern, text)) != Err::<LinkReference, LinkError>(
            LinkError::Pattern,
        ),
{
}

/// A link is read from a search result only where groups one to three each
/// hold a number, and then it holds those numbers.
pub proof fn lemma_link_holds_the_groups(groups: Seq<Option<Seq<char>>>, link: LinkReference)
    requires
        link_of_search(Some(groups)) == Ok::<LinkReference, LinkError>(link),
    ensures
        groups.len() >= 4,
        groups[1] matches Some(text) && parsed_u64(text) == Some(link.container),
        groups[2] matches Some(text) && parsed_u64(text) == Some(link.sub),
        groups[3] matches Some(text) && parsed_u64(text) == Some(link.item),
{
}

} // verus!
