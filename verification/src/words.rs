//! Turning one line of text into tokens.

use vstd::prelude::*;
use crate::text::texts;

verus! {

/// Whether `c` has the Unicode property White_Space.
pub open spec fn is_space(c: char) -> bool {
    let n = c as u32;
    ||| 0x09 <= n <= 0x0D
    ||| n == 0x20
    ||| n == 0x85
    ||| n == 0xA0
    ||| n == 0x1680
    ||| 0x2000 <= n <= 0x200A
    ||| n == 0x2028
    ||| n == 0x2029
    ||| n == 0x202F
    ||| n == 0x205F
    ||| n == 0x3000
}

/// `line` without the white space at its end.
pub open spec fn without_trailing_space(line: Seq<char>) -> Seq<char>
    decreases line.len(),
{
    if line.len() > 0 && is_space(line.last()) {
        without_trailing_space(line.drop_last())
    } else {
        line
    }
}

/// The words of a line as the word splitter gives them, or `None` where it
/// refuses the line for a quote that is never closed.
pub uninterp spec fn split_words(line: Seq<char>) -> Option<Seq<Seq<char>>>;

/// The tokens of a line: its words once the white space at its end is
/// dropped, or `None` where its quotes do not match.
pub open spec fn tokens_of(line: Seq<char>) -> Option<Seq<Seq<char>>> {
    split_words(without_trailing_space(line))
}

#[verifier::external_type_specification]
#[verifier::external_body]
pub struct ExMismatchedQuotes(shellwords::MismatchedQuotes);

/// `str::trim_end`: the longest prefix of the line that does not end in
/// white space.
#[verifier::external_body]
fn trim_end(line: &str) -> (r: &str)
    ensures
        r@ == without_trailing_space(line@),
{
    line.trim_end()
}

/// `shellwords::split`: the words of the line under shell quoting rules.
/// Nothing is claimed of the words but that they depend on the line alone.
#[verifier::external_body]
fn split(line: &str) -> (r: Result<Vec<String>, shellwords::MismatchedQuotes>)
    ensures
        r is Ok <==> split_words(line@) is Some,
        r matches Ok(words) ==> texts(words@) == split_words(line@).unwrap(),
{
    shellwords::split(line)
}

/// Splits a line into tokens, honoring quotes. White space at the end of
/// the line is dropped first. Gives `None` exactly where the quotes of the
/// line do not match.
pub fn tokenize(line: &str) -> (r: Option<Vec<String>>)
    ensures
        r is Some <==> tokens_of(line@) is Some,
        r matches Some(tokens) ==> texts(tokens@) == tokens_of(line@).unwrap(),
{
    match split(trim_end(line)) {
        Ok(words) => Some(words),
        Err(_) => None,
    }
}

} // verus!
