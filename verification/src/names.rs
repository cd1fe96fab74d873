//! The fixed names that the requested work goes by.

use vstd::prelude::*;

verus! {

/// The pattern that is staged: it matches every path.
pub const EVERY_PATH: &'static str = "*";

/// The configuration entry that holds the author's name.
pub const USER_NAME: &'static str = "user.name";

/// The configuration entry that holds the author's email.
pub const USER_EMAIL: &'static str = "user.email";

/// The reference that is resolved for the parent and moved to the new commit.
pub const HEAD: &'static str = "HEAD";

/// The remote that is pushed to.
pub const REMOTE: &'static str = "origin";

/// What is pushed: the local `master` branch onto the remote's.
pub const REFSPEC: &'static str = "refs/heads/master:refs/heads/master";

} // verus!
