//! The arguments of a command: the text after the command's name, split
//! into words as the command framework splits it.

use serenity::framework::standard::{Args, Delimiter};
use vstd::prelude::*;

use crate::text::occurs_in;

verus! {

/// The first argument the command framework finds in `message`, the text
/// that follows a command's name, when it splits that text at spaces (with
/// its quoting rules); `None` where there is none.
pub uninterp spec fn first_argument(message: Seq<char>) -> Option<Seq<char>>;

/// The characters of `m` up to, not including, its first space.
pub open spec fn up_to_space(m: Seq<char>) -> Seq<char>
    decreases m.len(),
{
    if m.len() == 0 || m[0] == ' ' {
        Seq::empty()
    } else {
        seq![m[0]] + up_to_space(m.drop_first())
    }
}

/// The first word of `m`: its first non-empty run of characters other than a
/// space, if there is one.
pub open spec fn first_word(m: Seq<char>) -> Option<Seq<char>>
    decreases m.len(),
{
    if m.len() == 0 {
        None
    } else if m[0] == ' ' {
        first_word(m.drop_first())
    } else {
        Some(up_to_space(m))
    }
}

/// Whether `m` holds none of the characters that open a quoted argument: the
/// ASCII double quote and the left double quotation mark.
pub open spec fn quote_free(m: Seq<char>) -> bool {
    !m.contains('"') && !m.contains('\u{201C}')
}

/// Whether `c` is an ASCII letter or digit.
pub open spec fn is_ascii_alphanumeric(c: char) -> bool {
    ('0' <= c && c <= '9') || ('a' <= c && c <= 'z') || ('A' <= c && c <= 'Z')
}

/// What the command framework's source settles about the first argument of
/// `m`: an empty text has none; a text with a space and no opening quote
/// character has its first word as first argument; a text without a space
/// that holds a letter or digit is its own first argument.
pub open spec fn argument_facts(m: Seq<char>) -> bool {
    &&& m.len() == 0 ==> first_argument(m) is None
    &&& m.contains(' ') && quote_free(m) ==> first_argument(m) == first_word(m)
    &&& !m.contains(' ') && (exists|i: int| 0 <= i < m.len() && is_ascii_alphanumeric(#[trigger] m[i]))
        ==> first_argument(m) == Some(m)
}

/// Calls `serenity::framework::standard::Args::new(message, &[Delimiter::Single(' ')])`
/// and takes the first argument with `Args::single::<String>`, as a command
/// does that reads its first argument. Claims that the result is
/// `first_argument` of the message, that an empty message has no argument,
/// and that an argument is a piece of the message, as the crate's source
/// shows (`Args::current` returns a slice of the message). How the message is
/// split is otherwise left to the name; two cases the source settles are
/// stated. A message with a space and no opening quote character is split at
/// spaces, empty pieces dropped, so its first argument is its first word. A
/// message without a space is one argument as a whole, unless it is all
/// white space (a letter or digit rules that out).
#[verifier::external_body]
pub(crate) fn split_first_argument(message: &str) -> (r: Option<String>)
    ensures
        r.deep_view() == first_argument(message@),
        message@.len() == 0 ==> r is None,
        r matches Some(a) ==> occurs_in(message@, a@),
        message@.contains(' ') && quote_free(message@) ==> r.deep_view() == first_word(message@),
        !message@.contains(' ') && (exists|i: int|
            0 <= i < message@.len() && is_ascii_alphanumeric(#[trigger] message@[i]))
            ==> r.deep_view() == Some(message@),
{
    Args::new(message, &[Delimiter::Single(' ')]).single::<String>().ok()
}


/// The text of an optional argument.
pub open spec fn arg_text(arg: Option<&str>) -> Option<Seq<char>> {
    match arg {
        Some(a) => Some(a@),
        None => None,
    }
}

/// Borrows the text of an optional argument.
pub fn as_text(arg: &Option<String>) -> (r: Option<&str>)
    ensures
        arg_text(r) == arg.deep_view(),
{
    match arg {
        Some(t) => Some(t.as_str()),
        None => None,
    }
}

} // verus!
