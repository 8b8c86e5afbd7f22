//! Redisplay of a message's raw markdown: escaping of the formatting
//! characters, the length ceiling, and the reply that carries the result.

use vstd::prelude::*;

verus! {

/// The character put in front of each formatting character.
pub const ESCAPE: char = '\\';

/// Escaped content of this many characters or more is not displayed.
pub const CONTENT_CEILING: usize = 3999;

/// Title of the embed that shows the escaped content.
pub const EMBED_TITLE: &'static str = "Raw Markdown";

/// What the user is told when the escaped content reaches the ceiling.
pub const OVERSIZE_NOTICE: &'static str =
    "Since this message is over 4000 characters, it cannot be displayed in a non embed message. Sorry :( ";

/// What a command sends back to the user who invoked it.
#[derive(Debug, PartialEq, Eq)]
pub enum Reply {
    /// A plain text message.
    Say(String),
    /// A titled, boxed display unit.
    Embed { title: String, description: String },
}

/// The mathematical content of a [`Reply`].
pub enum ReplyView {
    Say(Seq<char>),
    Embed { title: Seq<char>, description: Seq<char> },
}

impl View for Reply {
    type V = ReplyView;

    open spec fn view(&self) -> ReplyView {
        match self {
            Reply::Say(text) => ReplyView::Say(text@),
            Reply::Embed { title, description } => ReplyView::Embed {
                title: title@,
                description: description@,
            },
        }
    }
}

/// The characters that carry meaning in the display formatting language.
pub open spec fn is_markup(c: char) -> bool {
    c == '`' || c == '*' || c == '_' || c == '~' || c == '>' || c == '|'
}

/// One character after escaping: itself, behind an escape if it is markup.
pub open spec fn escaped_char(c: char) -> Seq<char> {
    if is_markup(c) {
        seq![ESCAPE, c]
    } else {
        seq![c]
    }
}

/// The text after escaping: each character escaped on its own, in order.
pub open spec fn escaped(s: Seq<char>) -> Seq<char>
    decreases s.len(),
{
    if s.len() == 0 {
        Seq::empty()
    } else {
        escaped(s.drop_last()) + escaped_char(s.last())
    }
}

/// The description of the embed: the escaped content on a line of its own.
pub open spec fn boxed(content: Seq<char>) -> Seq<char> {
    seq!['\n'] + content + seq!['\n']
}

/// The reply that shows `content`, or says why it cannot be shown.
pub open spec fn raw_markdown_reply(content: Seq<char>) -> ReplyView {
    if escaped(content).len() >= CONTENT_CEILING {
        ReplyView::Say(OVERSIZE_NOTICE@)
    } else {
        ReplyView::Embed { title: EMBED_TITLE@, description: boxed(escaped(content)) }
    }
}

/// Escaping acts on each character independently: the escaped form of two
/// texts put together is their escaped forms put together.
pub proof fn lemma_escaped_concat(a: Seq<char>, b: Seq<char>)
    ensures
        escaped(a + b) == escaped(a) + escaped(b),
    decreases b.len(),
{
    if b.len() == 0 {
        assert(a + b =~= a);
        assert(escaped(a) + escaped(b) =~= escaped(a));
    } else {
        lemma_escaped_concat(a, b.drop_last());
        assert((a + b).drop_last() =~= a + b.drop_last());
        assert((a + b).last() == b.last());
        assert(escaped(a + b) =~= escaped(a) + escaped(b));
    }
}

/// Escaping never drops a character and adds at most one escape per
/// character.
pub proof fn lemma_escaped_len(s: Seq<char>)
    ensures
        s.len() <= escaped(s).len() <= 2 * s.len(),
    decreases s.len(),
{
    if s.len() > 0 {
        lemma_escaped_len(s.drop_last());
    }
}

/// In escaped text every formatting character stands directly behind an
/// escape.
pub proof fn lemma_escaped_guards_markup(s: Seq<char>, i: int)
    requires
        0 <= i < escaped(s).len(),
        is_markup(escaped(s)[i]),
    ensures
        i > 0,
        escaped(s)[i - 1] == ESCAPE,
    decreases s.len(),
{
    if s.len() > 0 {
        let head = escaped(s.drop_last());
        if i < head.len() {
            lemma_escaped_guards_markup(s.drop_last(), i);
        }
    }
}

/// Text without formatting characters is left as it is.
pub proof fn lemma_escaped_plain(s: Seq<char>)
    requires
        forall|i: int| 0 <= i < s.len() ==> !is_markup(s[i]),
    ensures
        escaped(s) == s,
    decreases s.len(),
{
    if s.len() > 0 {
        lemma_escaped_plain(s.drop_last());
        assert(s.drop_last().push(s.last()) =~= s);
        assert(escaped(s) =~= s);
    } else {
        assert(escaped(s) =~= s);
    }
}

/// The ceiling is exclusive: content whose escaped form has exactly that
/// many characters is rejected, content with one character less is shown.
pub proof fn lemma_ceiling_is_exclusive(content: Seq<char>)
    ensures
        raw_markdown_reply(content) == ReplyView::Say(OVERSIZE_NOTICE@) <==> escaped(
            content,
        ).len() >= CONTENT_CEILING,
        escaped(content).len() == CONTENT_CEILING ==> raw_markdown_reply(content)
            == ReplyView::Say(OVERSIZE_NOTICE@),
        escaped(content).len() == CONTENT_CEILING - 1 ==> raw_markdown_reply(content) == (
        ReplyView::Embed { title: EMBED_TITLE@, description: boxed(escaped(content)) }),
{
}

/// Whether `c` is one of the formatting characters.
pub fn is_markup_char(c: char) -> (r: bool)
    ensures
        r == is_markup(c),
{
    c == '`' || c == '*' || c == '_' || c == '~' || c == '>' || c == '|'
}

/// Escapes the formatting characters of `content` in one pass from left to
/// right.
pub fn escape_markdown(content: &str) -> (out: String)
    ensures
        out@ == escaped(content@),
{
    let mut out = String::new();
    proof {
        assert(content@.take(0) =~= Seq::<char>::empty());
    }
    for c in it: content.chars()
        invariant
            it.seq() == content@,
            out@ == escaped(content@.take(it.index() as int)),
    {
        proof {
            let next = content@.take(it.index() + 1);
            assert(next.drop_last() =~= content@.take(it.index() as int));
            assert(next.last() == c);
        }
        if is_markup_char(c) {
            out.push(ESCAPE);
            out.push(c);
            assert(out@ =~= escaped(content@.take(it.index() as int)) + seq![ESCAPE, c]);
        } else {
            out.push(c);
            assert(out@ =~= escaped(content@.take(it.index() as int)) + seq![c]);
        }
    }
    assert(content@.take(content@.len() as int) =~= content@);
    out
}

/// Answers the request to show the raw markdown of a message whose content
/// is `content`.
pub fn raw_markdown(content: &str) -> (reply: Reply)
    ensures
        reply@ == raw_markdown_reply(content@),
{
    let shown = escape_markdown(content);
    if shown.as_str().unicode_len() >= CONTENT_CEILING {
        Reply::Say(OVERSIZE_NOTICE.to_owned())
    } else {
        let mut description = String::new();
        description.push('\n');
        description.append(shown.as_str());
        description.push('\n');
        assert(description@ =~= boxed(shown@));
        Reply::Embed { title: EMBED_TITLE.to_owned(), description }
    }
}

} // verus!
