//! Whole runs of the tool, and what holds of every one of them.
//!
//! A run is the list of outcomes that the caller reports, one after the
//! other, starting from [`initial`]. `signed` says whether the signature
//! could be made when the email arrived.

use crate::failure::Failure;
use crate::object_id::ObjectId;
use crate::workflow::{initial, next, Action, Message, Outcome, Phase, Stage, State};
use vstd::prelude::*;

verus! {

/// The state of a run after all of `outcomes`.
pub open spec fn state_after(push: bool, outcomes: Seq<Outcome>, signed: bool) -> State
    decreases outcomes.len(),
{
    if outcomes.len() == 0 {
        initial(push)
    } else {
        next(state_after(push, outcomes.drop_last(), signed), outcomes.last(), signed)
    }
}

/// The state of a run after the first `k` of `outcomes`.
pub open spec fn state_at(push: bool, outcomes: Seq<Outcome>, signed: bool, k: int) -> State {
    state_after(push, outcomes.take(k), signed)
}

/// How far a stage is along the run. Every step that does not end the run
/// moves to a later stage.
pub open spec fn rank(stage: Stage) -> int {
    match stage {
        Stage::Staging => 0,
        Stage::WritingTree => 1,
        Stage::LoadingTree { tree } => 2,
        Stage::LoadingConfig { tree } => 3,
        Stage::ReadingName { tree } => 4,
        Stage::ReadingEmail { tree, name } => 5,
        Stage::ResolvingHead { tree } => 6,
        Stage::PeelingHead { tree } => 7,
        Stage::Committing { tree, parent } => 8,
        Stage::Announcing { commit } => 9,
        Stage::FindingRemote { commit } => 10,
        Stage::Pushing { commit } => 11,
        Stage::Finished { commit, pushed } => 12,
        Stage::Failed { failure, made } => 12,
    }
}

/// True of the stages that come before the commit is asked for.
pub open spec fn precedes_commit(stage: Stage) -> bool {
    rank(stage) < 8
}

/// The outcomes of a run on which nothing fails, up to the question
/// whether `HEAD` resolves.
pub open spec fn outcomes_to_head(tree: ObjectId, name: String, email: String) -> Seq<Outcome> {
    seq![
        Outcome::Done,
        Outcome::Id(tree),
        Outcome::Done,
        Outcome::Done,
        Outcome::Text(name),
        Outcome::Text(email),
    ]
}

/// The outcomes of a run on which nothing fails, up to the commit: `head` is
/// the commit that `HEAD` resolves to, if it resolves.
pub open spec fn outcomes_to_commit(
    tree: ObjectId,
    name: String,
    email: String,
    head: Option<ObjectId>,
) -> Seq<Outcome> {
    match head {
        Some(parent) => outcomes_to_head(tree, name, email).push(Outcome::Done).push(
            Outcome::Id(parent),
        ),
        None => outcomes_to_head(tree, name, email).push(Outcome::Failed),
    }
}

/// One more outcome is one more step.
pub proof fn lemma_one_more(push: bool, outcomes: Seq<Outcome>, outcome: Outcome, signed: bool)
    ensures
        state_after(push, outcomes.push(outcome), signed) == next(
            state_after(push, outcomes, signed),
            outcome,
            signed,
        ),
{
    assert(outcomes.push(outcome).drop_last() =~= outcomes);
}

/// The state after `k + 1` outcomes is the step from the state after `k`.
pub proof fn lemma_step(push: bool, outcomes: Seq<Outcome>, signed: bool, k: int)
    requires
        0 <= k < outcomes.len(),
    ensures
        state_at(push, outcomes, signed, k + 1) == next(
            state_at(push, outcomes, signed, k),
            outcomes[k],
            signed,
        ),
{
    assert(outcomes.take(k + 1) =~= outcomes.take(k).push(outcomes[k]));
    lemma_one_more(push, outcomes.take(k), outcomes[k], signed);
}

/// A step keeps the push setting, leaves a run that is over as it is, and
/// moves any other run to a later stage.
pub proof fn lemma_next_moves_on(state: State, outcome: Outcome, signed: bool)
    ensures
        next(state, outcome, signed).push == state.push,
        state.is_over() ==> next(state, outcome, signed) == state,
        !state.is_over() ==> rank(state.stage) < rank(next(state, outcome, signed).stage),
{
}

/// A step leaves a well-formed state well formed.
pub proof fn lemma_next_is_well_formed(state: State, outcome: Outcome, signed: bool)
    requires
        state.well_formed(),
    ensures
        next(state, outcome, signed).well_formed(),
{
}

/// Every state of a run is well formed.
pub proof fn lemma_run_is_well_formed(push: bool, outcomes: Seq<Outcome>, signed: bool, k: int)
    requires
        0 <= k <= outcomes.len(),
    ensures
        state_at(push, outcomes, signed, k).well_formed(),
    decreases k,
{
    if k == 0 {
        assert(outcomes.take(0) =~= Seq::<Outcome>::empty());
    } else {
        lemma_run_is_well_formed(push, outcomes, signed, k - 1);
        lemma_step(push, outcomes, signed, k - 1);
        lemma_next_is_well_formed(state_at(push, outcomes, signed, k - 1), outcomes[k - 1], signed);
    }
}

/// Along a run the stages only move on, and a run that is over stays as it
/// is.
pub proof fn lemma_run_moves_on(push: bool, outcomes: Seq<Outcome>, signed: bool, i: int, j: int)
    requires
        0 <= i <= j <= outcomes.len(),
    ensures
        state_at(push, outcomes, signed, j).push == push,
        rank(state_at(push, outcomes, signed, i).stage) <= rank(
            state_at(push, outcomes, signed, j).stage,
        ),
        state_at(push, outcomes, signed, i).is_over() ==> state_at(push, outcomes, signed, j)
            == state_at(push, outcomes, signed, i),
        i < j && !state_at(push, outcomes, signed, i).is_over() ==> rank(
            state_at(push, outcomes, signed, i).stage,
        ) < rank(state_at(push, outcomes, signed, j).stage),
    decreases j,
{
    if j == 0 {
        assert(outcomes.take(0) =~= Seq::<Outcome>::empty());
    } else if i == j {
        lemma_run_moves_on(push, outcomes, signed, 0, j - 1);
        lemma_step(push, outcomes, signed, j - 1);
        lemma_next_moves_on(state_at(push, outcomes, signed, j - 1), outcomes[j - 1], signed);
    } else {
        lemma_run_moves_on(push, outcomes, signed, i, j - 1);
        lemma_step(push, outcomes, signed, j - 1);
        lemma_next_moves_on(state_at(push, outcomes, signed, j - 1), outcomes[j - 1], signed);
    }
}

/// The whole list of outcomes gives the state at its end.
pub proof fn lemma_at_end(push: bool, outcomes: Seq<Outcome>, signed: bool)
    ensures
        state_at(push, outcomes, signed, outcomes.len() as int) == state_after(
            push,
            outcomes,
            signed,
        ),
{
    assert(outcomes.take(outcomes.len() as int) =~= outcomes);
}

/// A run asks for a commit at most once: if it stands at the commit after
/// `k` outcomes, it asks for none before or after.
pub proof fn lemma_one_commit(push: bool, outcomes: Seq<Outcome>, signed: bool, k: int, j: int)
    requires
        0 <= k <= outcomes.len(),
        0 <= j <= outcomes.len(),
        state_at(push, outcomes, signed, k).stage is Committing,
        state_at(push, outcomes, signed, j).request() is Commit,
    ensures
        j == k,
{
    if j < k {
        lemma_run_moves_on(push, outcomes, signed, j, k);
    } else if k < j {
        lemma_run_moves_on(push, outcomes, signed, k, j);
    }
}

/// A run that failed before the commit never asked for one, and has made
/// none: if some step of it ends in a failure that is not the commit's own
/// and does not follow the commit, no state of the run asks for a commit.
pub proof fn lemma_early_failure_commits_nothing(
    push: bool,
    outcomes: Seq<Outcome>,
    signed: bool,
    k: int,
    j: int,
)
    requires
        0 <= k < outcomes.len(),
        0 <= j <= outcomes.len(),
        precedes_commit(state_at(push, outcomes, signed, k).stage),
        state_at(push, outcomes, signed, k + 1).stage is Failed,
    ensures
        !(state_at(push, outcomes, signed, j).request() is Commit),
        state_at(push, outcomes, signed, j).commit() is None,
        state_after(push, outcomes, signed) == state_at(push, outcomes, signed, k + 1),
{
    lemma_step(push, outcomes, signed, k);
    lemma_at_end(push, outcomes, signed);
    lemma_run_moves_on(push, outcomes, signed, k + 1, outcomes.len() as int);
    if j <= k {
        lemma_run_moves_on(push, outcomes, signed, j, k);
    } else {
        lemma_run_moves_on(push, outcomes, signed, k + 1, j);
    }
}

/// Without `user.name` there is no commit. If the name is asked for and
/// anything but a text comes back, the run ends there as
/// [`Failure::UserName`], whatever is reported afterwards; at no point does
/// it ask for a commit, so no commit is written and `HEAD` stays where it
/// was.
pub proof fn lemma_missing_name_commits_nothing(
    push: bool,
    outcomes: Seq<Outcome>,
    signed: bool,
    k: int,
)
    requires
        0 <= k < outcomes.len(),
        state_at(push, outcomes, signed, k).request() == Action::ReadUserName,
        !(outcomes[k] is Text),
    ensures
        state_after(push, outcomes, signed) == (State {
            push,
            stage: Stage::Failed { failure: Failure::UserName, made: None },
        }),
        forall|j: int|
            0 <= j <= outcomes.len() ==> !(#[trigger] state_at(
                push,
                outcomes,
                signed,
                j,
            ).request() is Commit),
{
    lemma_step(push, outcomes, signed, k);
    lemma_run_moves_on(push, outcomes, signed, 0, k);
    assert forall|j: int| 0 <= j <= outcomes.len() implies !(#[trigger] state_at(
        push,
        outcomes,
        signed,
        j,
    ).request() is Commit) by {
        lemma_early_failure_commits_nothing(push, outcomes, signed, k, j);
    }
    lemma_early_failure_commits_nothing(push, outcomes, signed, k, 0);
}

/// Without `user.email` there is no commit. If the email is asked for and
/// anything but a text comes back, the run ends there as
/// [`Failure::UserEmail`], whatever is reported afterwards; at no point does
/// it ask for a commit, so no commit is written and `HEAD` stays where it
/// was.
pub proof fn lemma_missing_email_commits_nothing(
    push: bool,
    outcomes: Seq<Outcome>,
    signed: bool,
    k: int,
)
    requires
        0 <= k < outcomes.len(),
        state_at(push, outcomes, signed, k).request() == Action::ReadUserEmail,
        !(outcomes[k] is Text),
    ensures
        state_after(push, outcomes, signed) == (State {
            push,
            stage: Stage::Failed { failure: Failure::UserEmail, made: None },
        }),
        forall|j: int|
            0 <= j <= outcomes.len() ==> !(#[trigger] state_at(
                push,
                outcomes,
                signed,
                j,
            ).request() is Commit),
{
    lemma_step(push, outcomes, signed, k);
    lemma_run_moves_on(push, outcomes, signed, 0, k);
    assert forall|j: int| 0 <= j <= outcomes.len() implies !(#[trigger] state_at(
        push,
        outcomes,
        signed,
        j,
    ).request() is Commit) by {
        lemma_early_failure_commits_nothing(push, outcomes, signed, k, j);
    }
    lemma_early_failure_commits_nothing(push, outcomes, signed, k, 0);
}

/// A name and an email that no signature can be made from give no commit.
/// If the email arrives and the signature is refused, the run ends there as
/// a [`Failure::Signature`] that holds both, and never asks for a commit.
pub proof fn lemma_refused_signature_commits_nothing(
    push: bool,
    outcomes: Seq<Outcome>,
    k: int,
)
    requires
        0 <= k < outcomes.len(),
        state_at(push, outcomes, false, k).request() == Action::ReadUserEmail,
        outcomes[k] is Text,
    ensures
        state_after(push, outcomes, false) == (State {
            push,
            stage: Stage::Failed {
                failure: Failure::Signature {
                    name: state_at(push, outcomes, false, k).stage->ReadingEmail_name,
                    email: outcomes[k]->Text_0,
                },
                made: None,
            },
        }),
        forall|j: int|
            0 <= j <= outcomes.len() ==> !(#[trigger] state_at(
                push,
                outcomes,
                false,
                j,
            ).request() is Commit),
{
    lemma_step(push, outcomes, false, k);
    lemma_run_moves_on(push, outcomes, false, 0, k);
    assert forall|j: int| 0 <= j <= outcomes.len() implies !(#[trigger] state_at(
        push,
        outcomes,
        false,
        j,
    ).request() is Commit) by {
        lemma_early_failure_commits_nothing(push, outcomes, false, k, j);
    }
    lemma_early_failure_commits_nothing(push, outcomes, false, k, 0);
}

/// The first commit of a repository has no parent. If `HEAD` is asked for
/// and does not resolve, the run goes straight on to ask for a commit of
/// the tree it wrote, with no parent and the message
/// [`Message::InitialCommit`]; and that is the only commit it ever asks for.
pub proof fn lemma_first_commit_has_no_parent(
    push: bool,
    outcomes: Seq<Outcome>,
    signed: bool,
    k: int,
)
    requires
        0 <= k < outcomes.len(),
        state_at(push, outcomes, signed, k).request() == Action::ResolveHead,
        !(outcomes[k] is Done),
    ensures
        state_at(push, outcomes, signed, k + 1).request() == (Action::Commit {
            tree: state_at(push, outcomes, signed, k).stage->ResolvingHead_tree,
            parent: None,
            message: Message::InitialCommit,
        }),
        forall|j: int|
            0 <= j <= outcomes.len() && (#[trigger] state_at(
                push,
                outcomes,
                signed,
                j,
            ).request()) is Commit ==> j == k + 1,
{
    lemma_step(push, outcomes, signed, k);
    assert forall|j: int|
        0 <= j <= outcomes.len() && (#[trigger] state_at(
            push,
            outcomes,
            signed,
            j,
        ).request()) is Commit implies j == k + 1 by {
        lemma_one_commit(push, outcomes, signed, k + 1, j);
    }
}

/// A later commit has the old `HEAD` as its only parent. If `HEAD` is
/// peeled to the commit `head`, the run goes straight on to ask for a
/// commit of the tree it wrote, with `head` as the parent and the message
/// for a commit on top; and that is the only commit it ever asks for.
pub proof fn lemma_commit_sits_on_head(
    push: bool,
    outcomes: Seq<Outcome>,
    signed: bool,
    k: int,
    head: ObjectId,
)
    requires
        0 <= k < outcomes.len(),
        state_at(push, outcomes, signed, k).request() == Action::PeelHead,
        outcomes[k] == Outcome::Id(head),
    ensures
        state_at(push, outcomes, signed, k + 1).request() == (Action::Commit {
            tree: state_at(push, outcomes, signed, k).stage->PeelingHead_tree,
            parent: Some(head),
            message: Message::on_top(push),
        }),
        forall|j: int|
            0 <= j <= outcomes.len() && (#[trigger] state_at(
                push,
                outcomes,
                signed,
                j,
            ).request()) is Commit ==> j == k + 1,
{
    lemma_step(push, outcomes, signed, k);
    lemma_run_moves_on(push, outcomes, signed, 0, k);
    assert forall|j: int|
        0 <= j <= outcomes.len() && (#[trigger] state_at(
            push,
            outcomes,
            signed,
            j,
        ).request()) is Commit implies j == k + 1 by {
        lemma_one_commit(push, outcomes, signed, k + 1, j);
    }
}

/// The tree that a run has written and not yet committed.
pub open spec fn written_tree(stage: Stage) -> Option<ObjectId> {
    match stage {
        Stage::LoadingTree { tree } => Some(tree),
        Stage::LoadingConfig { tree } => Some(tree),
        Stage::ReadingName { tree } => Some(tree),
        Stage::ReadingEmail { tree, name } => Some(tree),
        Stage::ResolvingHead { tree } => Some(tree),
        Stage::PeelingHead { tree } => Some(tree),
        Stage::Committing { tree, parent } => Some(tree),
        _ => None,
    }
}

/// A run carries the tree it wrote unchanged up to the commit.
pub proof fn lemma_tree_is_carried(
    push: bool,
    outcomes: Seq<Outcome>,
    signed: bool,
    i: int,
    j: int,
)
    requires
        0 <= i <= j <= outcomes.len(),
        written_tree(state_at(push, outcomes, signed, i).stage) is Some,
        written_tree(state_at(push, outcomes, signed, j).stage) is Some,
    ensures
        written_tree(state_at(push, outcomes, signed, j).stage) == written_tree(
            state_at(push, outcomes, signed, i).stage,
        ),
    decreases j - i,
{
    if i < j {
        lemma_step(push, outcomes, signed, j - 1);
        lemma_run_moves_on(push, outcomes, signed, i, j - 1);
        lemma_tree_is_carried(push, outcomes, signed, i, j - 1);
    }
}

/// What is committed is the tree that was written from the index, whatever
/// that tree is. If writing the tree gave `tree`, every commit that the run
/// asks for is a commit of `tree`. No step compares it with the parent's
/// tree, so an unchanged working tree is committed like any other.
pub proof fn lemma_commit_takes_written_tree(
    push: bool,
    outcomes: Seq<Outcome>,
    signed: bool,
    k: int,
    tree: ObjectId,
    j: int,
)
    requires
        0 <= k < outcomes.len(),
        state_at(push, outcomes, signed, k).request() == Action::WriteTree,
        outcomes[k] == Outcome::Id(tree),
        0 <= j <= outcomes.len(),
        state_at(push, outcomes, signed, j).request() is Commit,
    ensures
        state_at(push, outcomes, signed, j).request()->Commit_tree == tree,
{
    lemma_step(push, outcomes, signed, k);
    if j <= k {
        lemma_run_moves_on(push, outcomes, signed, j, k);
    } else {
        lemma_tree_is_carried(push, outcomes, signed, k + 1, j);
    }
}

/// A step never takes back a commit that the run has made.
pub proof fn lemma_next_keeps_commit(state: State, outcome: Outcome, signed: bool)
    requires
        state.commit() is Some,
    ensures
        next(state, outcome, signed).commit() == state.commit(),
{
}

/// Once a run has made a commit, every later state of it holds that commit:
/// nothing that follows undoes it or replaces it.
pub proof fn lemma_commit_is_kept(
    push: bool,
    outcomes: Seq<Outcome>,
    signed: bool,
    i: int,
    j: int,
)
    requires
        0 <= i <= j <= outcomes.len(),
        state_at(push, outcomes, signed, i).commit() is Some,
    ensures
        state_at(push, outcomes, signed, j).commit() == state_at(
            push,
            outcomes,
            signed,
            i,
        ).commit(),
    decreases j - i,
{
    if i < j {
        lemma_commit_is_kept(push, outcomes, signed, i, j - 1);
        lemma_step(push, outcomes, signed, j - 1);
        lemma_next_keeps_commit(state_at(push, outcomes, signed, j - 1), outcomes[j - 1], signed);
    }
}

/// A push that fails leaves the commit in place. If the commit that the run
/// asked for was written as `commit`, and later the remote is not found or
/// the push does not get through, the run ends as [`Failure::Remote`] or
/// [`Failure::Push`] and still names `commit` as made; so does every state
/// after the commit.
pub proof fn lemma_failed_push_keeps_commit(
    push: bool,
    outcomes: Seq<Outcome>,
    signed: bool,
    m: int,
    commit: ObjectId,
    k: int,
)
    requires
        0 <= m < outcomes.len(),
        state_at(push, outcomes, signed, m).request() is Commit,
        outcomes[m] == Outcome::Id(commit),
        0 <= k < outcomes.len(),
        state_at(push, outcomes, signed, k).request() == Action::FindRemote || state_at(
            push,
            outcomes,
            signed,
            k,
        ).request() == Action::Push,
        !(outcomes[k] is Done),
    ensures
        state_after(push, outcomes, signed) == (State {
            push,
            stage: Stage::Failed {
                failure: if state_at(push, outcomes, signed, k).request() == Action::Push {
                    Failure::Push
                } else {
                    Failure::Remote
                },
                made: Some(commit),
            },
        }),
        forall|j: int|
            m < j <= outcomes.len() ==> (#[trigger] state_at(push, outcomes, signed, j)).commit()
                == Some(commit),
{
    lemma_step(push, outcomes, signed, m);
    assert forall|j: int| m < j <= outcomes.len() implies (#[trigger] state_at(
        push,
        outcomes,
        signed,
        j,
    )).commit() == Some(commit) by {
        lemma_commit_is_kept(push, outcomes, signed, m + 1, j);
    }
    if k <= m {
        lemma_run_moves_on(push, outcomes, signed, k, m);
    }
    lemma_step(push, outcomes, signed, k);
    lemma_run_moves_on(push, outcomes, signed, 0, k);
    lemma_run_moves_on(push, outcomes, signed, k + 1, outcomes.len() as int);
    lemma_at_end(push, outcomes, signed);
}

/// A run on which nothing fails comes to ask for the commit: of the tree it
/// wrote, on top of `head` if `HEAD` resolved to it, without a parent if
/// `HEAD` did not resolve.
pub proof fn lemma_smooth_run_commits(
    push: bool,
    tree: ObjectId,
    name: String,
    email: String,
    head: Option<ObjectId>,
)
    ensures
        state_after(push, outcomes_to_commit(tree, name, email, head), true) == (State {
            push,
            stage: Stage::Committing { tree, parent: head },
        }),
        state_after(push, outcomes_to_commit(tree, name, email, head), true).request() == (
        Action::Commit { tree, parent: head, message: Message::of(push, head) }),
{
    let s0 = Seq::<Outcome>::empty();
    let s1 = s0.push(Outcome::Done);
    let s2 = s1.push(Outcome::Id(tree));
    let s3 = s2.push(Outcome::Done);
    let s4 = s3.push(Outcome::Done);
    let s5 = s4.push(Outcome::Text(name));
    let s6 = s5.push(Outcome::Text(email));
    assert(s6 =~= outcomes_to_head(tree, name, email));
    lemma_one_more(push, s0, Outcome::Done, true);
    lemma_one_more(push, s1, Outcome::Id(tree), true);
    lemma_one_more(push, s2, Outcome::Done, true);
    lemma_one_more(push, s3, Outcome::Done, true);
    lemma_one_more(push, s4, Outcome::Text(name), true);
    lemma_one_more(push, s5, Outcome::Text(email), true);
    match head {
        Some(parent) => {
            lemma_one_more(push, s6, Outcome::Done, true);
            lemma_one_more(push, s6.push(Outcome::Done), Outcome::Id(parent), true);
        },
        None => {
            lemma_one_more(push, s6, Outcome::Failed, true);
        },
    }
}

/// A working tree without changes is committed all the same. If the tree
/// written from the index is the very tree of the commit at `HEAD`, a run
/// on which nothing fails still asks for a new commit: of that tree, on top
/// of `HEAD`.
pub proof fn lemma_unchanged_tree_is_committed(
    push: bool,
    tree: ObjectId,
    name: String,
    email: String,
    head: ObjectId,
    head_tree: ObjectId,
)
    requires
        tree == head_tree,
    ensures
        state_after(push, outcomes_to_commit(tree, name, email, Some(head)), true).request() == (
        Action::Commit { tree: head_tree, parent: Some(head), message: Message::on_top(push) }),
{
    lemma_smooth_run_commits(push, tree, name, email, Some(head));
}

/// Running twice commits twice. Let a first run on which nothing fails
/// write its commit as `first`. A second run over the same tree, with
/// `HEAD` now at `first`, does not stop at the unchanged tree: it asks for
/// a further commit, whose parent is `first`.
pub proof fn lemma_second_run_commits_again(
    push: bool,
    tree: ObjectId,
    name: String,
    email: String,
    head: Option<ObjectId>,
    first: ObjectId,
)
    ensures
        state_after(
            push,
            outcomes_to_commit(tree, name, email, head).push(Outcome::Id(first)),
            true,
        ).commit() == Some(first),
        state_after(push, outcomes_to_commit(tree, name, email, Some(first)), true).request() == (
        Action::Commit { tree, parent: Some(first), message: Message::on_top(push) }),
{
    lemma_smooth_run_commits(push, tree, name, email, head);
    lemma_one_more(push, outcomes_to_commit(tree, name, email, head), Outcome::Id(first), true);
    lemma_smooth_run_commits(push, tree, name, email, Some(first));
}

/// A step never takes a run back to an earlier phase, and a commit is made
/// in every phase from [`Phase::Committed`] on.
pub proof fn lemma_next_keeps_phase(state: State, outcome: Outcome, signed: bool)
    ensures
        state.phase().place() <= next(state, outcome, signed).phase().place(),
        state.phase().place() >= Phase::Committed.place() ==> state.commit() is Some,
        state.phase() == Phase::PushFailed ==> next(state, outcome, signed) == state,
        state.phase() == Phase::PushSucceeded ==> next(state, outcome, signed) == state,
{
}

/// A run passes through its phases in order: from the start to the staged
/// index, the written tree, the commit and the push, never back. Once the
/// commit is made it stays made, also where the push fails.
pub proof fn lemma_phases_move_forward(
    push: bool,
    outcomes: Seq<Outcome>,
    signed: bool,
    i: int,
    j: int,
)
    requires
        0 <= i <= j <= outcomes.len(),
    ensures
        state_at(push, outcomes, signed, i).phase().place() <= state_at(
            push,
            outcomes,
            signed,
            j,
        ).phase().place(),
        state_at(push, outcomes, signed, i).phase().place() >= Phase::Committed.place()
            ==> state_at(
            push,
            outcomes,
            signed,
            j,
        ).commit() == state_at(push, outcomes, signed, i).commit() && state_at(
            push,
            outcomes,
            signed,
            i,
        ).commit() is Some,
    decreases j - i,
{
    lemma_next_keeps_phase(state_at(push, outcomes, signed, i), Outcome::Done, signed);
    if i < j {
        lemma_phases_move_forward(push, outcomes, signed, i, j - 1);
        lemma_step(push, outcomes, signed, j - 1);
        lemma_next_keeps_phase(state_at(push, outcomes, signed, j - 1), outcomes[j - 1], signed);
        if state_at(push, outcomes, signed, i).commit() is Some {
            lemma_commit_is_kept(push, outcomes, signed, i, j);
        }
    }
}

} // verus!
