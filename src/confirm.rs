//! The yes/no confirmation: a first answer that starts with `y` takes the
//! default as given; any other answer is followed by a free-text one, whose
//! line feed is dropped.
use vstd::prelude::*;
use vstd::utf8::encode_utf8;

verus! {

/// Whether an answer line takes the default: its first byte is `y`.
pub open spec fn takes_default(line: Seq<char>) -> bool {
    encode_utf8(line).len() > 0 && encode_utf8(line)[0] == 0x79u8
}

/// The text with every line feed taken out.
pub open spec fn without_newlines(s: Seq<char>) -> Seq<char> {
    s.filter(|c: char| c != '\n')
}

/// Relies on `str::replace`, which replaces every match of a pattern with
/// another string: replacing "\n" with "" drops each line feed.
#[verifier::external_body]
fn remove_newlines(s: &str) -> (r: String)
    ensures
        r@ == without_newlines(s@),
{
    s.replace("\n", "")
}

/// Whether the first answer line takes the default.
pub fn accepts_default(line: &str) -> (r: bool)
    ensures
        r == takes_default(line@),
{
    let b = line.as_bytes();
    b.len() > 0 && b[0] == 0x79u8
}

/// The answer of a confirmation once its first line has been read: the
/// default as given when the line starts with `y`; otherwise
/// `None`, and the caller asks for a free-text answer.
pub fn answer_from_first_line(line: &str, default: &str) -> (r: Option<String>)
    ensures
        takes_default(line@) ==> r is Some && r->Some_0@ == default@,
        !takes_default(line@) ==> r is None,
{
    if accepts_default(line) {
        Some(default.to_owned())
    } else {
        None
    }
}

/// The answer of a confirmation from its free-text line, as one line read
/// from the terminal: the line without its line feed. Every line feed is
/// taken out, which for one such line is the trailing one.
pub fn custom_answer(line: &str) -> (r: String)
    ensures
        r@ == without_newlines(line@),
{
    remove_newlines(line)
}

} // verus!
