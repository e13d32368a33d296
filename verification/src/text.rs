use vstd::prelude::*;
use vstd::string::StringExecFns;

verus! {

/// Whether `text` begins with `prefix`.
pub open spec fn has_prefix(text: Seq<char>, prefix: Seq<char>) -> bool {
    prefix.len() <= text.len() && text.subrange(0, prefix.len() as int) == prefix
}

/// `==` on `str`: the same characters in the same order.
#[verifier::external_body]
pub(crate) fn str_eq(a: &str, b: &str) -> (same: bool)
    ensures
        same == (a@ == b@),
{
    a == b
}

/// `str::strip_prefix` with a string prefix: what follows the prefix, or
/// `None` where the text does not begin with it.
#[verifier::external_body]
pub(crate) fn str_strip_prefix<'a>(text: &'a str, prefix: &str) -> (rest: Option<&'a str>)
    ensures
        rest is Some <==> has_prefix(text@, prefix@),
        rest matches Some(r) ==> r@ == text@.subrange(prefix@.len() as int, text@.len() as int),
{
    text.strip_prefix(prefix)
}

/// Whether `text` ends with `suffix`.
pub open spec fn has_suffix(text: Seq<char>, suffix: Seq<char>) -> bool {
    suffix.len() <= text.len() && text.subrange(text.len() - suffix.len(), text.len() as int)
        == suffix
}

/// `str::strip_suffix` with a string suffix: what stands before the
/// suffix, or `None` where the text does not end with it.
#[verifier::external_body]
pub(crate) fn str_strip_suffix<'a>(text: &'a str, suffix: &str) -> (rest: Option<&'a str>)
    ensures
        rest is Some <==> has_suffix(text@, suffix@),
        rest matches Some(r) ==> r@ == text@.subrange(0, text@.len() - suffix@.len()),
{
    text.strip_suffix(suffix)
}

/// How many characters stand before the first line feed of `text`; the
/// length of `text` where it holds none.
pub open spec fn line_len(text: Seq<char>) -> nat
    decreases text.len(),
{
    if text.len() == 0 || text[0] == '\n' {
        0
    } else {
        1 + line_len(text.drop_first())
    }
}

/// What stands before a line feed, as a line: a carriage return just
/// before the line feed belongs to the line's ending.
pub open spec fn without_cr(line: Seq<char>) -> Seq<char> {
    if line.len() > 0 && line.last() == '\r' {
        line.drop_last()
    } else {
        line
    }
}

/// The lines of a text, in order. A line ends at a line feed; the line
/// feed, and a carriage return just before it, are not part of the line.
/// What follows the last line feed is a line of its own, as it stands,
/// unless nothing follows.
pub open spec fn text_lines(text: Seq<char>) -> Seq<Seq<char>>
    decreases text.len(),
    via text_lines_terminates
{
    if text.len() == 0 {
        Seq::empty()
    } else if line_len(text) == text.len() {
        seq![text]
    } else {
        seq![without_cr(text.take(line_len(text) as int))] + text_lines(
            text.skip(line_len(text) as int + 1),
        )
    }
}

#[via_fn]
proof fn text_lines_terminates(text: Seq<char>) {
    lemma_line_len_bound(text);
}

/// The first line of a text is no longer than the text.
pub proof fn lemma_line_len_bound(text: Seq<char>)
    ensures
        line_len(text) <= text.len(),
    decreases text.len(),
{
    if text.len() > 0 && text[0] != '\n' {
        lemma_line_len_bound(text.drop_first());
    }
}

/// `str::lines`: the lines of the text, in order, without their endings,
/// which are a line feed or a carriage return followed by a line feed. A
/// last line needs no ending, and a text that ends with a line ending has no
/// empty line after it.
#[verifier::external_body]
pub(crate) fn str_lines(text: &str) -> (lines: Vec<String>)
    ensures
        crate::models::texts(lines@) == text_lines(text@),
{
    text.lines().map(String::from).collect()
}

/// A line as it was typed, without its ending: a trailing carriage return
/// is dropped, and then a trailing line feed.
pub open spec fn without_line_end(input: Seq<char>) -> Seq<char> {
    let first = if has_suffix(input, seq!['\r']) {
        input.drop_last()
    } else {
        input
    };
    if has_suffix(first, seq!['\n']) {
        first.drop_last()
    } else {
        first
    }
}

/// Takes the line ending off a line that was read from the terminal.
pub fn trim_line_end(input: &str) -> (line: String)
    ensures
        line@ == without_line_end(input@),
{
    proof {
        reveal_strlit("\r");
        reveal_strlit("\n");
        assert("\r"@ =~= seq!['\r']);
        assert("\n"@ =~= seq!['\n']);
    }
    let first = match str_strip_suffix(input, "\r") {
        Some(rest) => rest,
        None => input,
    };
    let second = match str_strip_suffix(first, "\n") {
        Some(rest) => rest,
        None => first,
    };
    second.to_owned()
}

/// The text of `first` followed by the text of `second`.
pub fn join(first: &str, second: &str) -> (joined: String)
    ensures
        joined@ == first@ + second@,
{
    first.to_owned().concat(second)
}

} // verus!
