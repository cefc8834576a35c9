//! Shell-word tokenization: the bridge between the editable argument text
//! and the argument list of a configuration.
//!
//! Splitting and joining follow POSIX-shell word rules and are done by the
//! `shell_words` crate; the two results are named by uninterpreted spec
//! functions, and the one documented relation between them — splitting a
//! joined line gives the words back — is stated where the join is made.

use vstd::prelude::*;

verus! {

/// The word sequence that POSIX-shell word splitting yields for `text`,
/// or `None` where the text is malformed (an unterminated quote).
pub uninterp spec fn shell_split(text: Seq<char>) -> Option<Seq<Seq<char>>>;

/// The single command line that joining `words` with shell quoting yields.
pub uninterp spec fn shell_joined(words: Seq<Seq<char>>) -> Seq<char>;

/// Relies on `shell_words::join`: the result is a function of the words
/// alone, and `shell_words::split` of the result gives the words back
/// (the crate documents the pair as inverses and quotes every
/// metacharacter when joining).
#[verifier::external_body]
pub(crate) fn join_words(words: &Vec<String>) -> (r: String)
    ensures
        r@ == shell_joined(words.deep_view()),
        shell_split(r@) == Some(words.deep_view()),
{
    shell_words::join(words)
}

/// Relies on `shell_words::split`: the result is a function of the text
/// alone; it fails exactly on malformed quoting, and the error carries
/// the tokenizer's own description, for the log.
#[verifier::external_body]
pub(crate) fn split_words(text: &str) -> (r: Result<Vec<String>, String>)
    ensures
        match r {
            Ok(words) => shell_split(text@) == Some(words.deep_view()),
            Err(_) => shell_split(text@) is None,
        },
{
    match shell_words::split(text) {
        Ok(words) => Ok(words),
        Err(e) => Err(e.to_string()),
    }
}

} // verus!
