//! Making the author and committer signature of a commit.

use git2::{Error, Signature};
use vstd::prelude::*;

verus! {

/// `git2::Signature`: a name, an email and a time, held by the Git library.
/// Nothing of its contents is visible here; a value is only passed on.
#[verifier::external_type_specification]
#[verifier::external_body]
pub struct ExSignature<'a>(git2::Signature<'a>);

/// `git2::Error`: the Git library's own error. Only passed on.
#[verifier::external_type_specification]
#[verifier::external_body]
pub struct ExError(git2::Error);

/// True if `text` holds `<` or `>`.
pub open spec fn has_angle_bracket(text: Seq<char>) -> bool {
    text.contains('<') || text.contains('>')
}

/// What holds of every name and email that a signature was made from:
/// neither is empty, and neither holds an angle bracket.
pub open spec fn signable(name: Seq<char>, email: Seq<char>) -> bool {
    &&& name.len() > 0
    &&& email.len() > 0
    &&& !has_angle_bracket(name)
    &&& !has_angle_bracket(email)
}

/// Calls `git2::Signature::now`, which stamps `name` and `email` with the
/// current time.
///
/// Trusted: the Git library refuses a name or an email that holds `<` or `>`,
/// and one that is empty once surrounding blanks and punctuation are cut off;
/// so a signature is only ever returned for a pair that is `signable`.
/// Nothing is claimed about when the call succeeds.
#[verifier::external_body]
pub(crate) fn signature_now(name: &str, email: &str) -> (made: Result<Signature<'static>, Error>)
    ensures
        made is Ok ==> signable(name@, email@),
{
    Signature::now(name, email)
}

} // verus!
