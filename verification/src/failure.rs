//! What a run can fail on, and the words each failure is reported with.

use vstd::prelude::*;
use vstd::string::*;

verus! {

/// The step a run failed on. Every failure ends the run.
#[derive(Clone, Debug, PartialEq, Eq)]
pub enum Failure {
    /// The index could not be opened, or the paths could not be added to it.
    Stage,
    /// The index could not be stored, or no tree could be derived from it.
    TreeWrite,
    /// The tree that was just written could not be loaded.
    TreeLookup,
    /// The repository's configuration could not be loaded.
    Config,
    /// `user.name` is not set.
    UserName,
    /// `user.email` is not set.
    UserEmail,
    /// No signature could be made from the configured name and email.
    Signature { name: String, email: String },
    /// `HEAD` resolves, but not to a commit.
    Head,
    /// The commit on top of `HEAD` could not be written.
    Commit,
    /// The first commit of the repository could not be written.
    InitialCommit,
    /// The remote to push to is not configured.
    Remote,
    /// The push was refused or did not get through.
    Push,
}

/// The kinds of failure.
#[derive(Clone, Copy, Debug, PartialEq, Eq)]
pub enum Kind {
    /// Staging: the index or the tree written from it.
    Index,
    /// The configuration, or the name or email missing from it.
    Configuration,
    /// The signature.
    Signature,
    /// The commit, its parent included.
    Commit,
    /// The push, the remote included.
    Push,
}

impl Failure {
    /// The kind of this failure.
    pub open spec fn spec_kind(&self) -> Kind {
        match self {
            Failure::Stage => Kind::Index,
            Failure::TreeWrite => Kind::Index,
            Failure::TreeLookup => Kind::Index,
            Failure::Config => Kind::Configuration,
            Failure::UserName => Kind::Configuration,
            Failure::UserEmail => Kind::Configuration,
            Failure::Signature { name, email } => Kind::Signature,
            Failure::Head => Kind::Commit,
            Failure::Commit => Kind::Commit,
            Failure::InitialCommit => Kind::Commit,
            Failure::Remote => Kind::Push,
            Failure::Push => Kind::Push,
        }
    }

    /// The text that this failure is reported with, above the repository's
    /// own error. It is fixed for each failure but the signature's, which
    /// holds the name and the email that were refused.
    pub open spec fn context_text(&self) -> Seq<char> {
        match self {
            Failure::Stage => "error while writing the tree to the index"@,
            Failure::TreeWrite => "error while writing the tree to the index"@,
            Failure::TreeLookup => "error while writing the tree to the index"@,
            Failure::Config => "Could not get the config from the repo"@,
            Failure::UserName => "Username is not set in the Git config; Please set username"@,
            Failure::UserEmail => "Email is not set in the Git config; Please set email"@,
            Failure::Signature { name, email } => "Could not generate the signature from "@ + name@
                + " and "@ + email@,
            Failure::Head => "Could not commit changes"@,
            Failure::Commit => "Could not commit changes"@,
            Failure::InitialCommit => "Could not commit the changes to the repository"@,
            Failure::Remote => "error while pushing changes to remote using ssh config"@,
            Failure::Push => "error while pushing changes to remote using ssh config"@,
        }
    }

    /// True for the failures of the push: they come when the commit is made.
    pub open spec fn follows_commit(&self) -> bool {
        self.spec_kind() == Kind::Push
    }

    /// The kind of this failure.
    #[verifier::when_used_as_spec(spec_kind)]
    pub fn kind(&self) -> (kind: Kind)
        ensures
            kind == self.spec_kind(),
    {
        match self {
            Failure::Stage => Kind::Index,
            Failure::TreeWrite => Kind::Index,
            Failure::TreeLookup => Kind::Index,
            Failure::Config => Kind::Configuration,
            Failure::UserName => Kind::Configuration,
            Failure::UserEmail => Kind::Configuration,
            Failure::Signature { .. } => Kind::Signature,
            Failure::Head => Kind::Commit,
            Failure::Commit => Kind::Commit,
            Failure::InitialCommit => Kind::Commit,
            Failure::Remote => Kind::Push,
            Failure::Push => Kind::Push,
        }
    }

    /// The text that this failure is reported with.
    pub fn context(&self) -> (text: String)
        ensures
            text@ == self.context_text(),
    {
        match self {
            Failure::Stage => String::from_str("error while writing the tree to the index"),
            Failure::TreeWrite => String::from_str("error while writing the tree to the index"),
            Failure::TreeLookup => String::from_str("error while writing the tree to the index"),
            Failure::Config => String::from_str("Could not get the config from the repo"),
            Failure::UserName => String::from_str(
                "Username is not set in the Git config; Please set username",
            ),
            Failure::UserEmail => String::from_str(
                "Email is not set in the Git config; Please set email",
            ),
            Failure::Signature { name, email } => {
                let mut text = String::from_str("Could not generate the signature from ");
                text.append(name.as_str());
                text.append(" and ");
                text.append(email.as_str());
                text
            },
            Failure::Head => String::from_str("Could not commit changes"),
            Failure::Commit => String::from_str("Could not commit changes"),
            Failure::InitialCommit => String::from_str(
                "Could not commit the changes to the repository",
            ),
            Failure::Remote => String::from_str(
                "error while pushing changes to remote using ssh config",
            ),
            Failure::Push => String::from_str(
                "error while pushing changes to remote using ssh config",
            ),
        }
    }
}

} // verus!
