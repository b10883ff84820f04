use vstd::prelude::*;
use vstd::string::*;

verus! {

/// Appends one character to a string.
///
/// Trusted: `String::push` from std, documented to append the character at
/// the end of the string.
#[verifier::external_body]
pub fn push_char(s: &mut String, c: char)
    ensures
        final(s)@ == old(s)@.push(c),
{
    s.push(c);
}

/// Appends a string slice to a string.
pub fn push_str(s: &mut String, t: &str)
    ensures
        final(s)@ == old(s)@ + t@,
{
    s.append(t);
}

} // verus!

verus! {

/// The text that std's `Debug` gives a string: the string between double
/// quotes, with characters escaped as `char::escape_debug` does.
pub uninterp spec fn quoted_debug_text(s: Seq<char>) -> Seq<char>;

/// Whether a character is printable ASCII that `Debug` on a string leaves as
/// it is: from space to `~`, but for the double quote, the single quote and
/// the backslash.
pub open spec fn is_plain_debug_char(c: char) -> bool {
    ' ' <= c && c <= '~' && c != '"' && c != '\'' && c != '\\'
}

/// The `Debug` text of a string.
///
/// Trusted: std's `Debug` for `str` through `format!("{:?}", ..)`. The result
/// is named by `quoted_debug_text`; of it, the contract states only that a
/// string of plain printable ASCII comes out between double quotes as it is,
/// which std documents for `escape_debug`.
#[verifier::external_body]
pub fn debug_quoted(s: &str) -> (text: String)
    ensures
        text@ == quoted_debug_text(s@),
        (forall|i: int| 0 <= i < s@.len() ==> is_plain_debug_char(#[trigger] s@[i])) ==> text@
            == seq!['"'] + s@ + seq!['"'],
{
    format!("{:?}", s)
}

} // verus!
