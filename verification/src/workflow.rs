//! The run of the tool as a state machine.
//!
//! A run starts with [`start`]. The caller performs the work that
//! [`State::request`] names, reports its [`Outcome`] to [`advance`], and goes
//! on with the state that comes back, until the request is [`Action::Stop`].
//! The signature is the one piece of work that `advance` does itself.

use crate::failure::Failure;
use crate::object_id::ObjectId;
use crate::signing::{signable, signature_now};
use git2::{Error, Signature};
use vstd::prelude::*;

verus! {

/// The message of a commit.
#[derive(Clone, Copy, Debug, PartialEq, Eq)]
pub enum Message {
    /// For the first commit of a repository.
    InitialCommit,
    /// For a later commit of a run that does not push.
    NewChanges,
    /// For a later commit of a run that pushes.
    AddedNewFunction,
}

impl Message {
    /// The words of the message.
    pub open spec fn words(self) -> Seq<char> {
        match self {
            Message::InitialCommit => "Initial Commit"@,
            Message::NewChanges => "New Changes"@,
            Message::AddedNewFunction => "Added new function"@,
        }
    }

    /// The message of a commit that is made on top of `HEAD`.
    pub open spec fn on_top(push: bool) -> Message {
        if push {
            Message::AddedNewFunction
        } else {
            Message::NewChanges
        }
    }

    /// The message of a commit with the given parent.
    pub open spec fn of(push: bool, parent: Option<ObjectId>) -> Message {
        match parent {
            Some(_) => Message::on_top(push),
            None => Message::InitialCommit,
        }
    }

    /// The words of the message.
    pub fn text(&self) -> (text: &'static str)
        ensures
            text@ == self.words(),
    {
        match self {
            Message::InitialCommit => "Initial Commit",
            Message::NewChanges => "New Changes",
            Message::AddedNewFunction => "Added new function",
        }
    }
}

/// Work on the repository that the caller does for the run.
#[derive(Clone, Copy, Debug, PartialEq, Eq)]
pub enum Action {
    /// Open the index and add every path that matches
    /// [`crate::names::EVERY_PATH`], with the default options. Answered by
    /// [`Outcome::Done`].
    StageAll,
    /// Store the index, then write it as a tree. Answered by the tree's
    /// [`Outcome::Id`].
    WriteTree,
    /// Load the tree `tree`. Answered by [`Outcome::Done`].
    LoadTree { tree: ObjectId },
    /// Load the repository's configuration. Answered by [`Outcome::Done`].
    LoadConfig,
    /// Read the entry [`crate::names::USER_NAME`] of the configuration.
    /// Answered by its [`Outcome::Text`].
    ReadUserName,
    /// Read the entry [`crate::names::USER_EMAIL`] of the configuration.
    /// Answered by its [`Outcome::Text`].
    ReadUserEmail,
    /// Resolve `HEAD`. Answered by [`Outcome::Done`] if it resolves, by any
    /// other outcome if it does not.
    ResolveHead,
    /// Peel `HEAD` to its commit. Answered by the commit's [`Outcome::Id`].
    PeelHead,
    /// Commit `tree` with the given parent, or with none, and move
    /// [`crate::names::HEAD`] to the new commit; the signature made during
    /// this run is both author and committer. Answered by the new commit's
    /// [`Outcome::Id`].
    Commit { tree: ObjectId, parent: Option<ObjectId>, message: Message },
    /// Print `commit` in hex on a line of its own. Any outcome answers.
    Announce { commit: ObjectId },
    /// Look up the remote [`crate::names::REMOTE`]. Answered by
    /// [`Outcome::Done`].
    FindRemote,
    /// Push [`crate::names::REFSPEC`] to that remote. Answered by
    /// [`Outcome::Done`].
    Push,
    /// Nothing is left to do: the run has finished or failed.
    Stop,
}

/// What the caller reports of the work it was asked for.
///
/// Each piece of work is answered by one kind of outcome. Any other outcome
/// means that the work failed.
#[derive(Clone, Debug, PartialEq, Eq)]
pub enum Outcome {
    /// The work is done and gave nothing back.
    Done,
    /// The work is done and gave back an object's name.
    Id(ObjectId),
    /// The work is done and gave back a configured value.
    Text(String),
    /// The work failed.
    Failed,
}

/// Where a run stands: the work whose outcome it waits for, or how it ended.
#[derive(Clone, Debug, PartialEq, Eq)]
pub enum Stage {
    /// Waits for the paths to be staged.
    Staging,
    /// Waits for the tree to be written.
    WritingTree,
    /// Holds the written tree's name and waits for the tree to be loaded.
    LoadingTree { tree: ObjectId },
    /// Waits for the configuration to be loaded.
    LoadingConfig { tree: ObjectId },
    /// Waits for the author's name.
    ReadingName { tree: ObjectId },
    /// Holds the author's name and waits for the email.
    ReadingEmail { tree: ObjectId, name: String },
    /// Has its signature and waits to hear whether `HEAD` resolves.
    ResolvingHead { tree: ObjectId },
    /// Waits for the commit that `HEAD` points to.
    PeelingHead { tree: ObjectId },
    /// Waits for the commit of `tree` on `parent` to be written.
    Committing { tree: ObjectId, parent: Option<ObjectId> },
    /// Has made `commit` and waits for it to be printed.
    Announcing { commit: ObjectId },
    /// Waits for the remote to be looked up.
    FindingRemote { commit: ObjectId },
    /// Waits for the push to get through.
    Pushing { commit: ObjectId },
    /// The run is over and `commit` is made; `pushed` says whether it was
    /// pushed as well.
    Finished { commit: ObjectId, pushed: bool },
    /// The run is over and failed; `made` is the commit it had made by then,
    /// if any.
    Failed { failure: Failure, made: Option<ObjectId> },
}

/// A run: whether it is to push, and where it stands.
#[derive(Clone, Debug, PartialEq, Eq)]
pub struct State {
    pub push: bool,
    pub stage: Stage,
}

/// What a run has done to the repository so far.
#[derive(Clone, Copy, Debug, PartialEq, Eq)]
pub enum Phase {
    /// Nothing yet.
    Start,
    /// The changes are in the index.
    Staged,
    /// The index is stored and written as a tree.
    TreeWritten,
    /// The commit is made and `HEAD` points to it.
    Committed,
    /// The commit is made and the push is under way.
    PushAttempted,
    /// The commit is made and pushed.
    PushSucceeded,
    /// The commit is made; the push failed.
    PushFailed,
}

impl Phase {
    /// The place of the phase in the order in which a run passes through
    /// them; the two ends of a push share the last place.
    pub open spec fn place(self) -> int {
        match self {
            Phase::Start => 0,
            Phase::Staged => 1,
            Phase::TreeWritten => 2,
            Phase::Committed => 3,
            Phase::PushAttempted => 4,
            Phase::PushSucceeded => 5,
            Phase::PushFailed => 5,
        }
    }
}

/// The stage of a run that failed before it made a commit.
pub open spec fn halted(failure: Failure) -> Stage {
    Stage::Failed { failure, made: None }
}

/// The stage that follows `stage` once `outcome` is reported. `signed` says
/// whether the signature could be made; it matters only where the email
/// arrives.
pub open spec fn next_stage(push: bool, stage: Stage, outcome: Outcome, signed: bool) -> Stage {
    match stage {
        Stage::Staging => match outcome {
            Outcome::Done => Stage::WritingTree,
            _ => halted(Failure::Stage),
        },
        Stage::WritingTree => match outcome {
            Outcome::Id(tree) => Stage::LoadingTree { tree },
            _ => halted(Failure::TreeWrite),
        },
        Stage::LoadingTree { tree } => match outcome {
            Outcome::Done => Stage::LoadingConfig { tree },
            _ => halted(Failure::TreeLookup),
        },
        Stage::LoadingConfig { tree } => match outcome {
            Outcome::Done => Stage::ReadingName { tree },
            _ => halted(Failure::Config),
        },
        Stage::ReadingName { tree } => match outcome {
            Outcome::Text(name) => Stage::ReadingEmail { tree, name },
            _ => halted(Failure::UserName),
        },
        Stage::ReadingEmail { tree, name } => match outcome {
            Outcome::Text(email) => if signed {
                Stage::ResolvingHead { tree }
            } else {
                halted(Failure::Signature { name, email })
            },
            _ => halted(Failure::UserEmail),
        },
        Stage::ResolvingHead { tree } => match outcome {
            Outcome::Done => Stage::PeelingHead { tree },
            _ => Stage::Committing { tree, parent: None },
        },
        Stage::PeelingHead { tree } => match outcome {
            Outcome::Id(head) => Stage::Committing { tree, parent: Some(head) },
            _ => halted(Failure::Head),
        },
        Stage::Committing { tree, parent } => match outcome {
            Outcome::Id(commit) => Stage::Announcing { commit },
            _ => halted(
                if parent is Some {
                    Failure::Commit
                } else {
                    Failure::InitialCommit
                },
            ),
        },
        Stage::Announcing { commit } => if push {
            Stage::FindingRemote { commit }
        } else {
            Stage::Finished { commit, pushed: false }
        },
        Stage::FindingRemote { commit } => match outcome {
            Outcome::Done => Stage::Pushing { commit },
            _ => Stage::Failed { failure: Failure::Remote, made: Some(commit) },
        },
        Stage::Pushing { commit } => match outcome {
            Outcome::Done => Stage::Finished { commit, pushed: true },
            _ => Stage::Failed { failure: Failure::Push, made: Some(commit) },
        },
        Stage::Finished { commit, pushed } => stage,
        Stage::Failed { failure, made } => stage,
    }
}

/// The state that follows `state` once `outcome` is reported.
pub open spec fn next(state: State, outcome: Outcome, signed: bool) -> State {
    State { push: state.push, stage: next_stage(state.push, state.stage, outcome, signed) }
}

/// True where `outcome` brings the email to a run that waits for it: the
/// one moment at which a signature is made.
pub open spec fn signs(state: State, outcome: Outcome) -> bool {
    state.stage is ReadingEmail && outcome is Text
}

impl State {
    /// What holds of every state that a run can be in: only a run that is to
    /// push deals with the remote, and a run has failed with its commit made
    /// exactly if it failed on the push.
    pub open spec fn well_formed(&self) -> bool {
        match self.stage {
            Stage::FindingRemote { commit } => self.push,
            Stage::Pushing { commit } => self.push,
            Stage::Finished { commit, pushed } => pushed == self.push,
            Stage::Failed { failure, made } => {
                &&& made is Some <==> failure.follows_commit()
                &&& made is Some ==> self.push
            },
            _ => true,
        }
    }

    /// The work that a run in this state waits for.
    pub open spec fn spec_request(&self) -> Action {
        match self.stage {
            Stage::Staging => Action::StageAll,
            Stage::WritingTree => Action::WriteTree,
            Stage::LoadingTree { tree } => Action::LoadTree { tree },
            Stage::LoadingConfig { tree } => Action::LoadConfig,
            Stage::ReadingName { tree } => Action::ReadUserName,
            Stage::ReadingEmail { tree, name } => Action::ReadUserEmail,
            Stage::ResolvingHead { tree } => Action::ResolveHead,
            Stage::PeelingHead { tree } => Action::PeelHead,
            Stage::Committing { tree, parent } => Action::Commit {
                tree,
                parent,
                message: Message::of(self.push, parent),
            },
            Stage::Announcing { commit } => Action::Announce { commit },
            Stage::FindingRemote { commit } => Action::FindRemote,
            Stage::Pushing { commit } => Action::Push,
            Stage::Finished { commit, pushed } => Action::Stop,
            Stage::Failed { failure, made } => Action::Stop,
        }
    }

    /// The commit that the run has made so far, if any.
    pub open spec fn spec_commit(&self) -> Option<ObjectId> {
        match self.stage {
            Stage::Announcing { commit } => Some(commit),
            Stage::FindingRemote { commit } => Some(commit),
            Stage::Pushing { commit } => Some(commit),
            Stage::Finished { commit, pushed } => Some(commit),
            Stage::Failed { failure, made } => made,
            _ => None,
        }
    }

    /// True once the run is over.
    pub open spec fn spec_is_over(&self) -> bool {
        self.stage is Finished || self.stage is Failed
    }

    /// What the run has done to the repository so far. A run that failed
    /// stays in the phase it had reached; one that failed with its commit
    /// made is in [`Phase::PushFailed`].
    pub open spec fn spec_phase(&self) -> Phase {
        match self.stage {
            Stage::Staging => Phase::Start,
            Stage::WritingTree => Phase::Staged,
            Stage::Announcing { commit } => Phase::Committed,
            Stage::FindingRemote { commit } => Phase::Committed,
            Stage::Pushing { commit } => Phase::PushAttempted,
            Stage::Finished { commit, pushed } => if pushed {
                Phase::PushSucceeded
            } else {
                Phase::Committed
            },
            Stage::Failed { failure, made } => if made is Some {
                Phase::PushFailed
            } else {
                match failure {
                    Failure::Stage => Phase::Start,
                    Failure::TreeWrite => Phase::Staged,
                    _ => Phase::TreeWritten,
                }
            },
            _ => Phase::TreeWritten,
        }
    }

    /// The work that a run in this state waits for.
    #[verifier::when_used_as_spec(spec_request)]
    pub fn request(&self) -> (action: Action)
        ensures
            action == self.spec_request(),
    {
        match &self.stage {
            Stage::Staging => Action::StageAll,
            Stage::WritingTree => Action::WriteTree,
            Stage::LoadingTree { tree } => Action::LoadTree { tree: *tree },
            Stage::LoadingConfig { .. } => Action::LoadConfig,
            Stage::ReadingName { .. } => Action::ReadUserName,
            Stage::ReadingEmail { .. } => Action::ReadUserEmail,
            Stage::ResolvingHead { .. } => Action::ResolveHead,
            Stage::PeelingHead { .. } => Action::PeelHead,
            Stage::Committing { tree, parent } => {
                let message = match parent {
                    Some(_) => if self.push {
                        Message::AddedNewFunction
                    } else {
                        Message::NewChanges
                    },
                    None => Message::InitialCommit,
                };
                Action::Commit { tree: *tree, parent: *parent, message }
            },
            Stage::Announcing { commit } => Action::Announce { commit: *commit },
            Stage::FindingRemote { .. } => Action::FindRemote,
            Stage::Pushing { .. } => Action::Push,
            Stage::Finished { .. } => Action::Stop,
            Stage::Failed { .. } => Action::Stop,
        }
    }

    /// The commit that the run has made so far, if any.
    #[verifier::when_used_as_spec(spec_commit)]
    pub fn commit(&self) -> (commit: Option<ObjectId>)
        ensures
            commit == self.spec_commit(),
    {
        match &self.stage {
            Stage::Announcing { commit } => Some(*commit),
            Stage::FindingRemote { commit } => Some(*commit),
            Stage::Pushing { commit } => Some(*commit),
            Stage::Finished { commit, .. } => Some(*commit),
            Stage::Failed { made, .. } => *made,
            _ => None,
        }
    }

    /// What the run has done to the repository so far.
    #[verifier::when_used_as_spec(spec_phase)]
    pub fn phase(&self) -> (phase: Phase)
        ensures
            phase == self.spec_phase(),
    {
        match &self.stage {
            Stage::Staging => Phase::Start,
            Stage::WritingTree => Phase::Staged,
            Stage::Announcing { .. } => Phase::Committed,
            Stage::FindingRemote { .. } => Phase::Committed,
            Stage::Pushing { .. } => Phase::PushAttempted,
            Stage::Finished { pushed, .. } => if *pushed {
                Phase::PushSucceeded
            } else {
                Phase::Committed
            },
            Stage::Failed { failure, made } => match made {
                Some(_) => Phase::PushFailed,
                None => match failure {
                    Failure::Stage => Phase::Start,
                    Failure::TreeWrite => Phase::Staged,
                    _ => Phase::TreeWritten,
                },
            },
            _ => Phase::TreeWritten,
        }
    }

    /// True once the run is over.
    #[verifier::when_used_as_spec(spec_is_over)]
    pub fn is_over(&self) -> (over: bool)
        ensures
            over == self.spec_is_over(),
    {
        match &self.stage {
            Stage::Finished { .. } => true,
            Stage::Failed { .. } => true,
            _ => false,
        }
    }
}

/// The state in which every run starts.
pub open spec fn initial(push: bool) -> State {
    State { push, stage: Stage::Staging }
}

/// Starts a run on an open repository; `push` says whether the commit is to
/// be pushed once it is made.
pub fn start(push: bool) -> (state: State)
    ensures
        state == initial(push),
        state.well_formed(),
{
    State { push, stage: Stage::Staging }
}

/// What [`advance`] hands back.
pub struct Advance {
    /// The run after the outcome.
    pub state: State,
    /// What the attempt to make the signature gave, if this step made one.
    /// The caller keeps the signature for the commit.
    pub signing: Option<Result<Signature<'static>, Error>>,
}

fn halt(push: bool, failure: Failure, made: Option<ObjectId>) -> (step: Advance)
    ensures
        step.state == (State { push, stage: Stage::Failed { failure, made } }),
        step.signing is None,
{
    Advance { state: State { push, stage: Stage::Failed { failure, made } }, signing: None }
}

fn proceed(push: bool, stage: Stage) -> (step: Advance)
    ensures
        step.state == (State { push, stage }),
        step.signing is None,
{
    Advance { state: State { push, stage }, signing: None }
}

/// Goes on from the moment the email has arrived, given what the attempt to
/// make the signature returned: on to `HEAD` with a signature, to a failure
/// that names `name` and `email` without.
pub fn after_signing(
    push: bool,
    tree: ObjectId,
    name: String,
    email: String,
    made: Result<Signature<'static>, Error>,
) -> (step: Advance)
    ensures
        step.state == next(
            State { push, stage: Stage::ReadingEmail { tree, name } },
            Outcome::Text(email),
            made is Ok,
        ),
        made is Ok ==> step.state.stage == (Stage::ResolvingHead { tree }),
        made is Err ==> step.state.stage == halted(Failure::Signature { name, email }),
        step.signing == Some(made),
{
    let stage = match &made {
        Ok(_) => Stage::ResolvingHead { tree },
        Err(_) => Stage::Failed { failure: Failure::Signature { name, email }, made: None },
    };
    Advance { state: State { push, stage }, signing: Some(made) }
}

/// Takes the outcome of the work that `state` waited for and returns the run
/// after it.
///
/// Where the outcome is the email, the signature is made from the name and
/// the email with the current time. Whether that succeeds is for the Git
/// library to say; the run goes on if it did and fails if it did not, and a
/// signature is only ever made from a name and an email that are
/// [`signable`].
pub fn advance(state: State, outcome: Outcome) -> (step: Advance)
    ensures
        step.state == next(state, outcome, step.signing matches Some(Ok(_))),
        step.signing is Some <==> signs(state, outcome),
        step.signing matches Some(Ok(_)) ==> signable(
            state.stage->ReadingEmail_name@,
            outcome->Text_0@,
        ),
        state.well_formed() ==> step.state.well_formed(),
{
    let push = state.push;
    match state.stage {
        Stage::Staging => match outcome {
            Outcome::Done => proceed(push, Stage::WritingTree),
            _ => halt(push, Failure::Stage, None),
        },
        Stage::WritingTree => match outcome {
            Outcome::Id(tree) => proceed(push, Stage::LoadingTree { tree }),
            _ => halt(push, Failure::TreeWrite, None),
        },
        Stage::LoadingTree { tree } => match outcome {
            Outcome::Done => proceed(push, Stage::LoadingConfig { tree }),
            _ => halt(push, Failure::TreeLookup, None),
        },
        Stage::LoadingConfig { tree } => match outcome {
            Outcome::Done => proceed(push, Stage::ReadingName { tree }),
            _ => halt(push, Failure::Config, None),
        },
        Stage::ReadingName { tree } => match outcome {
            Outcome::Text(name) => proceed(push, Stage::ReadingEmail { tree, name }),
            _ => halt(push, Failure::UserName, None),
        },
        Stage::ReadingEmail { tree, name } => match outcome {
            Outcome::Text(email) => {
                let made = signature_now(name.as_str(), email.as_str());
                after_signing(push, tree, name, email, made)
            },
            _ => halt(push, Failure::UserEmail, None),
        },
        Stage::ResolvingHead { tree } => match outcome {
            Outcome::Done => proceed(push, Stage::PeelingHead { tree }),
            _ => proceed(push, Stage::Committing { tree, parent: None }),
        },
        Stage::PeelingHead { tree } => match outcome {
            Outcome::Id(head) => proceed(push, Stage::Committing { tree, parent: Some(head) }),
            _ => halt(push, Failure::Head, None),
        },
        Stage::Committing { tree, parent } => match outcome {
            Outcome::Id(commit) => proceed(push, Stage::Announcing { commit }),
            _ => match parent {
                Some(_) => halt(push, Failure::Commit, None),
                None => halt(push, Failure::InitialCommit, None),
            },
        },
        Stage::Announcing { commit } => if push {
            proceed(push, Stage::FindingRemote { commit })
        } else {
            proceed(push, Stage::Finished { commit, pushed: false })
        },
        Stage::FindingRemote { commit } => match outcome {
            Outcome::Done => proceed(push, Stage::Pushing { commit }),
            _ => halt(push, Failure::Remote, Some(commit)),
        },
        Stage::Pushing { commit } => match outcome {
            Outcome::Done => proceed(push, Stage::Finished { commit, pushed: true }),
            _ => halt(push, Failure::Push, Some(commit)),
        },
        Stage::Finished { commit, pushed } => proceed(push, Stage::Finished { commit, pushed }),
        Stage::Failed { failure, made } => proceed(push, Stage::Failed { failure, made }),
    }
}

} // verus!
