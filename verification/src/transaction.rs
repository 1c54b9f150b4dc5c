//! The transaction scope: what to do next on a connection, given what just
//! happened on it.
//!
//! A scope runs one unit of work inside a database transaction. The caller
//! performs each [`ScopeAction`] on the connection and reports the
//! [`ScopeEvent`] that came of it; [`ScopeState::step`] answers with the next
//! action. The scope commits when the work succeeds and rolls back when it
//! fails, and it finishes with the work's value or with a transaction error.
//! Nested scopes on one connection are the driver's affair: it opens,
//! releases and rolls back a savepoint where a transaction is already open.

use crate::errors::{StoreError, TransactionCause};
use vstd::prelude::*;

verus! {

/// Where a scope stands.
#[derive(Debug, PartialEq, Eq)]
pub enum ScopeState {
    /// The scope was entered and nothing was done yet.
    Entered,
    /// A connection is being acquired from the pool.
    Acquiring,
    /// The transaction is being opened.
    Beginning,
    /// The unit of work is running inside the transaction.
    Working,
    /// The work succeeded and the transaction is being committed.
    Committing,
    /// The work failed with the given error and the transaction is being
    /// rolled back.
    RollingBack(StoreError),
    /// The scope has finished.
    Closed,
}

/// What happened on the connection.
#[derive(Debug, PartialEq, Eq)]
pub enum ScopeEvent {
    /// The scope was entered, with or without a connection of the caller's.
    Start { connection_supplied: bool },
    /// The pool supplied a connection.
    Acquired,
    /// The pool could not supply a connection.
    AcquireFailed,
    /// The transaction was opened.
    Begun,
    /// The storage refused to open the transaction.
    BeginFailed(String),
    /// The unit of work returned its value.
    WorkSucceeded,
    /// The unit of work returned an error.
    WorkFailed(StoreError),
    /// The transaction was committed.
    Committed,
    /// The storage refused to commit; the driver has unwound the transaction.
    CommitFailed(String),
    /// The transaction was rolled back.
    RolledBack,
    /// The rollback failed. `manager_broken` tells that the driver had already
    /// given the transaction up, most likely for what made the work fail.
    RollbackFailed { manager_broken: bool, message: String },
}

/// What to do next on the connection.
#[derive(Debug, PartialEq, Eq)]
pub enum ScopeAction {
    /// Acquire a connection from the pool.
    Acquire,
    /// Open the transaction.
    Begin,
    /// Run the unit of work.
    RunWork,
    /// Commit the transaction.
    Commit,
    /// Roll the transaction back.
    Rollback,
    /// Leave the scope: with the work's value for `Ok`, with the error otherwise.
    Finish(Result<(), StoreError>),
}

/// The transaction error for a unit of work that failed with `error`.
pub open spec fn work_failure(error: StoreError) -> StoreError {
    StoreError::TransactionStoreError(TransactionCause::Work(Box::new(error)))
}

/// The state and the action that follow `event` in `state`; `None` for an
/// event that cannot happen in that state.
pub open spec fn next(state: ScopeState, event: ScopeEvent) -> Option<(ScopeState, ScopeAction)> {
    match (state, event) {
        (ScopeState::Entered, ScopeEvent::Start { connection_supplied }) => Some(
            if connection_supplied {
                (ScopeState::Beginning, ScopeAction::Begin)
            } else {
                (ScopeState::Acquiring, ScopeAction::Acquire)
            },
        ),
        (ScopeState::Acquiring, ScopeEvent::Acquired) => Some(
            (ScopeState::Beginning, ScopeAction::Begin),
        ),
        (ScopeState::Acquiring, ScopeEvent::AcquireFailed) => Some(
            (ScopeState::Closed, ScopeAction::Finish(Err(StoreError::DatabaseConnectionError))),
        ),
        (ScopeState::Beginning, ScopeEvent::Begun) => Some(
            (ScopeState::Working, ScopeAction::RunWork),
        ),
        (ScopeState::Beginning, ScopeEvent::BeginFailed(message)) => Some(
            (
                ScopeState::Closed,
                ScopeAction::Finish(
                    Err(StoreError::TransactionStoreError(TransactionCause::Begin(message))),
                ),
            ),
        ),
        (ScopeState::Working, ScopeEvent::WorkSucceeded) => Some(
            (ScopeState::Committing, ScopeAction::Commit),
        ),
        (ScopeState::Working, ScopeEvent::WorkFailed(error)) => Some(
            (ScopeState::RollingBack(error), ScopeAction::Rollback),
        ),
        (ScopeState::Committing, ScopeEvent::Committed) => Some(
            (ScopeState::Closed, ScopeAction::Finish(Ok(()))),
        ),
        (ScopeState::Committing, ScopeEvent::CommitFailed(message)) => Some(
            (
                ScopeState::Closed,
                ScopeAction::Finish(
                    Err(StoreError::TransactionStoreError(TransactionCause::Commit(message))),
                ),
            ),
        ),
        (ScopeState::RollingBack(error), ScopeEvent::RolledBack) => Some(
            (ScopeState::Closed, ScopeAction::Finish(Err(work_failure(error)))),
        ),
        (ScopeState::RollingBack(error), ScopeEvent::RollbackFailed { manager_broken, message }) => Some(
            (
                ScopeState::Closed,
                ScopeAction::Finish(
                    Err(
                        if manager_broken {
                            work_failure(error)
                        } else {
                            StoreError::TransactionStoreError(TransactionCause::Rollback(message))
                        },
                    ),
                ),
            ),
        ),
        _ => None,
    }
}

impl ScopeState {
    /// The state of a scope that was just entered.
    pub fn new() -> (r: ScopeState)
        ensures
            r == ScopeState::Entered,
    {
        ScopeState::Entered
    }

    /// The scope has asked for the transaction to be opened and has not
    /// finished: whether a transaction is open on the connection is not known
    /// to anyone else. A connection that is given up in such a state, as
    /// when its task is cancelled, must not go back to the idle ones.
    pub open spec fn unsettled(&self) -> bool {
        self is Beginning || self is Working || self is Committing || self is RollingBack
    }

    /// Whether a connection that is given up now must be discarded.
    pub fn discard_on_release(&self) -> (r: bool)
        ensures
            r == self.unsettled(),
    {
        match self {
            ScopeState::Beginning
            | ScopeState::Working
            | ScopeState::Committing
            | ScopeState::RollingBack(_) => true,
            _ => false,
        }
    }

    /// The state and the action that follow `event`; `None` for an event that
    /// cannot happen in this state.
    pub fn step(self, event: ScopeEvent) -> (r: Option<(ScopeState, ScopeAction)>)
        ensures
            r == next(self, event),
    {
        match (self, event) {
            (ScopeState::Entered, ScopeEvent::Start { connection_supplied }) => {
                if connection_supplied {
                    Some((ScopeState::Beginning, ScopeAction::Begin))
                } else {
                    Some((ScopeState::Acquiring, ScopeAction::Acquire))
                }
            },
            (ScopeState::Acquiring, ScopeEvent::Acquired) => Some(
                (ScopeState::Beginning, ScopeAction::Begin),
            ),
            (ScopeState::Acquiring, ScopeEvent::AcquireFailed) => Some(
                (ScopeState::Closed, ScopeAction::Finish(Err(StoreError::DatabaseConnectionError))),
            ),
            (ScopeState::Beginning, ScopeEvent::Begun) => Some(
                (ScopeState::Working, ScopeAction::RunWork),
            ),
            (ScopeState::Beginning, ScopeEvent::BeginFailed(message)) => Some(
                (
                    ScopeState::Closed,
                    ScopeAction::Finish(
                        Err(StoreError::TransactionStoreError(TransactionCause::Begin(message))),
                    ),
                ),
            ),
            (ScopeState::Working, ScopeEvent::WorkSucceeded) => Some(
                (ScopeState::Committing, ScopeAction::Commit),
            ),
            (ScopeState::Working, ScopeEvent::WorkFailed(error)) => Some(
                (ScopeState::RollingBack(error), ScopeAction::Rollback),
            ),
            (ScopeState::Committing, ScopeEvent::Committed) => Some(
                (ScopeState::Closed, ScopeAction::Finish(Ok(()))),
            ),
            (ScopeState::Committing, ScopeEvent::CommitFailed(message)) => Some(
                (
                    ScopeState::Closed,
                    ScopeAction::Finish(
                        Err(StoreError::TransactionStoreError(TransactionCause::Commit(message))),
                    ),
                ),
            ),
            (ScopeState::RollingBack(error), ScopeEvent::RolledBack) => Some(
                (ScopeState::Closed, ScopeAction::Finish(Err(wrap_work_error(error)))),
            ),
            (
                ScopeState::RollingBack(error),
                ScopeEvent::RollbackFailed { manager_broken, message },
            ) => {
                let surfaced = if manager_broken {
                    wrap_work_error(error)
                } else {
                    StoreError::TransactionStoreError(TransactionCause::Rollback(message))
                };
                Some((ScopeState::Closed, ScopeAction::Finish(Err(surfaced))))
            },
            _ => None,
        }
    }
}

/// The transaction error for a unit of work that failed with `error`.
pub fn wrap_work_error(error: StoreError) -> (r: StoreError)
    ensures
        r == work_failure(error),
{
    StoreError::TransactionStoreError(TransactionCause::Work(Box::new(error)))
}

/// A scope is unsettled exactly while it has something to do on the
/// connection after asking for the transaction: the action that opens the
/// transaction unsettles it, the action that finishes the scope closes it,
/// and a closed scope is settled.
pub proof fn lemma_finish_settles(state: ScopeState, event: ScopeEvent)
    requires
        next(state, event) is Some,
    ensures
        ({
            let (after, action) = next(state, event)->Some_0;
            &&& action is Finish <==> after is Closed
            &&& after.unsettled() <==> !(action is Finish) && !(action is Acquire)
        }),
{
}

/// The actions that a scope in `state` answers to `events`, one for each
/// event, up to the first event that cannot happen.
pub open spec fn run(state: ScopeState, events: Seq<ScopeEvent>) -> Seq<ScopeAction>
    decreases events.len(),
{
    if events.len() == 0 {
        Seq::empty()
    } else {
        match next(state, events[0]) {
            Some((after, action)) => seq![action] + run(after, events.drop_first()),
            None => Seq::empty(),
        }
    }
}

/// The action finishes the scope with success.
pub open spec fn succeeds(action: ScopeAction) -> bool {
    action matches ScopeAction::Finish(Ok(_))
}

/// The action finishes the scope with a transaction error, which holds the
/// work's `error` where `event` tells that the rollback went through.
pub open spec fn surfaces(action: ScopeAction, error: StoreError, event: ScopeEvent) -> bool {
    action matches ScopeAction::Finish(Err(surfaced)) && surfaced is TransactionStoreError && (
    event is RolledBack ==> surfaced == work_failure(error))
}

/// The action commits the transaction or finishes the scope with success.
pub open spec fn commits(action: ScopeAction) -> bool {
    action is Commit || succeeds(action)
}

/// How far a state is along the way of a scope.
spec fn rank(state: ScopeState) -> nat {
    match state {
        ScopeState::Entered => 0,
        ScopeState::Acquiring => 1,
        ScopeState::Beginning => 2,
        ScopeState::Working => 3,
        ScopeState::Committing => 4,
        ScopeState::RollingBack(_) => 4,
        ScopeState::Closed => 5,
    }
}

/// What holds of the run of a scope from any state.
proof fn lemma_run(state: ScopeState, events: Seq<ScopeEvent>)
    ensures
        run(state, events).len() <= events.len(),
        forall|i: int|
            0 <= i < run(state, events).len() ==> {
                let action = #[trigger] run(state, events)[i];
                &&& action is Commit <==> events[i] is WorkSucceeded
                &&& action is Rollback <==> events[i] is WorkFailed
                &&& succeeds(action) <==> events[i] is Committed
                &&& action is Finish ==> i == run(state, events).len() - 1
                &&& i == 0 && commits(action) ==> state is Working || state is Committing
                &&& i > 0 && succeeds(action) ==> run(
                    state,
                    events,
                )[i - 1] is Commit
                &&& i > 0 && events[i - 1] is WorkFailed ==> surfaces(
                    action,
                    events[i - 1]->WorkFailed_0,
                    events[i],
                )
            },
        rank(state) >= 4 ==> forall|i: int|
            0 <= i < run(state, events).len() ==> !(#[trigger] run(state, events)[i] is Commit)
                && !(events[i] is WorkFailed),
        !(state is Committing) && rank(state) >= 4 ==> forall|i: int|
            0 <= i < run(state, events).len() ==> !commits(#[trigger] run(state, events)[i]),
        (exists|i: int| 0 <= i < run(state, events).len() && events[i] is WorkFailed) ==> forall|
            j: int,
        | 0 <= j < run(state, events).len() ==> !commits(#[trigger] run(state, events)[j]),
    decreases events.len(),
{
    if events.len() > 0 {
        match next(state, events[0]) {
            Some((after, action)) => {
                let tail = events.drop_first();
                let rest = run(after, tail);
                lemma_run(after, tail);
                let all = run(state, events);
                assert(all == seq![action] + rest);
                assert(all[0] == action);
                assert forall|i: int| 1 <= i < all.len() implies #[trigger] all[i] == rest[i - 1]
                    && events[i] == tail[i - 1] by {}
                assert(rank(after) > rank(state));
                if exists|i: int| 0 <= i < all.len() && events[i] is WorkFailed {
                    let i = choose|i: int| 0 <= i < all.len() && events[i] is WorkFailed;
                    if i > 0 {
                        assert(tail[i - 1] is WorkFailed);
                        assert(rest[i - 1] is Rollback);
                        assert(rank(after) < 4);
                        assert(!commits(action));
                    } else {
                        assert(after is RollingBack);
                    }
                    assert forall|j: int| 0 <= j < all.len() implies !commits(
                        #[trigger] all[j],
                    ) by {
                        if j > 0 {
                            assert(all[j] == rest[j - 1]);
                        }
                    }
                }
            },
            None => {},
        }
    }
}

/// A scope whose unit of work failed never commits: in every run of a scope
/// from its start, if the work fails, then no action of the run commits the
/// transaction or finishes the scope with success, the failure is answered
/// by a rollback, and what is answered after the rollback finishes the scope
/// with a transaction error, which holds the work's error where the rollback
/// went through.
pub proof fn lemma_failed_work_never_commits(events: Seq<ScopeEvent>, i: int)
    requires
        0 <= i < run(ScopeState::Entered, events).len(),
        events[i] is WorkFailed,
    ensures
        run(ScopeState::Entered, events)[i] is Rollback,
        forall|j: int|
            0 <= j < run(ScopeState::Entered, events).len() ==> !commits(
                #[trigger] run(ScopeState::Entered, events)[j],
            ),
        i + 1 < run(ScopeState::Entered, events).len() ==> surfaces(
            run(ScopeState::Entered, events)[i + 1],
            events[i]->WorkFailed_0,
            events[i + 1],
        ),
{
    lemma_run(ScopeState::Entered, events);
}

/// A scope finishes with success only after its work succeeded and the commit
/// went through: in every run of a scope from its start, an action that
/// finishes with success answers the event that the transaction was
/// committed, and the action before it is the commit, which answers the event
/// that the work succeeded.
pub proof fn lemma_success_follows_commit(events: Seq<ScopeEvent>, i: int)
    requires
        0 <= i < run(ScopeState::Entered, events).len(),
        succeeds(run(ScopeState::Entered, events)[i]),
    ensures
        events[i] is Committed,
        i > 0,
        run(ScopeState::Entered, events)[i - 1] is Commit,
        events[i - 1] is WorkSucceeded,
{
    lemma_run(ScopeState::Entered, events);
}

/// A scope commits exactly when its work succeeds and rolls back exactly when
/// it fails: in every run of a scope from its start, an action is the commit
/// where it answers the work's success and nowhere else, it is the rollback
/// where it answers the work's failure and nowhere else, and nothing follows
/// the action that finishes the scope.
pub proof fn lemma_commit_discipline(events: Seq<ScopeEvent>, i: int)
    requires
        0 <= i < run(ScopeState::Entered, events).len(),
    ensures
        run(ScopeState::Entered, events)[i] is Commit <==> events[i] is WorkSucceeded,
        run(ScopeState::Entered, events)[i] is Rollback <==> events[i] is WorkFailed,
        run(ScopeState::Entered, events)[i] is Finish ==> i == run(
            ScopeState::Entered,
            events,
        ).len() - 1,
{
    lemma_run(ScopeState::Entered, events);
}

} // verus!
