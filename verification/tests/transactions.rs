use meteroid_store::errors::{StoreError, TransactionCause};
use meteroid_store::transaction::{wrap_work_error, ScopeAction, ScopeEvent, ScopeState};

fn drive(events: Vec<ScopeEvent>) -> Vec<ScopeAction> {
    let mut state = ScopeState::new();
    let mut actions = Vec::new();
    for event in events {
        match state.step(event) {
            Some((after, action)) => {
                state = after;
                actions.push(action);
            }
            None => break,
        }
    }
    actions
}

fn work_error() -> StoreError {
    StoreError::SerdeError("Failed to serialize coupon discount".to_string(),
        meteroid_store::errors::CodecFault::DecimalOutOfRange)
}

#[test]
fn scope_starts_entered() {
    assert_eq!(ScopeState::new(), ScopeState::Entered);
    assert!(!ScopeState::new().discard_on_release());
}

#[test]
fn successful_work_is_committed() {
    assert_eq!(
        drive(vec![
            ScopeEvent::Start { connection_supplied: false },
            ScopeEvent::Acquired,
            ScopeEvent::Begun,
            ScopeEvent::WorkSucceeded,
            ScopeEvent::Committed,
        ]),
        vec![
            ScopeAction::Acquire,
            ScopeAction::Begin,
            ScopeAction::RunWork,
            ScopeAction::Commit,
            ScopeAction::Finish(Ok(())),
        ]
    );
}

#[test]
fn supplied_connection_is_not_acquired_again() {
    assert_eq!(
        drive(vec![
            ScopeEvent::Start { connection_supplied: true },
            ScopeEvent::Begun,
            ScopeEvent::WorkSucceeded,
            ScopeEvent::Committed,
        ]),
        vec![
            ScopeAction::Begin,
            ScopeAction::RunWork,
            ScopeAction::Commit,
            ScopeAction::Finish(Ok(())),
        ]
    );
}

#[test]
fn failed_work_is_rolled_back_and_wrapped() {
    assert_eq!(
        drive(vec![
            ScopeEvent::Start { connection_supplied: true },
            ScopeEvent::Begun,
            ScopeEvent::WorkFailed(work_error()),
            ScopeEvent::RolledBack,
        ]),
        vec![
            ScopeAction::Begin,
            ScopeAction::RunWork,
            ScopeAction::Rollback,
            ScopeAction::Finish(Err(StoreError::TransactionStoreError(TransactionCause::Work(
                Box::new(work_error())
            )))),
        ]
    );
}

#[test]
fn failed_acquisition_is_a_connection_error() {
    assert_eq!(
        drive(vec![ScopeEvent::Start { connection_supplied: false }, ScopeEvent::AcquireFailed]),
        vec![ScopeAction::Acquire, ScopeAction::Finish(Err(StoreError::DatabaseConnectionError))]
    );
}

#[test]
fn failed_begin_is_a_transaction_error() {
    assert_eq!(
        drive(vec![
            ScopeEvent::Start { connection_supplied: true },
            ScopeEvent::BeginFailed("connection closed".to_string()),
        ]),
        vec![
            ScopeAction::Begin,
            ScopeAction::Finish(Err(StoreError::TransactionStoreError(TransactionCause::Begin(
                "connection closed".to_string()
            )))),
        ]
    );
}

#[test]
fn refused_commit_is_a_transaction_error_of_its_own() {
    assert_eq!(
        drive(vec![
            ScopeEvent::Start { connection_supplied: true },
            ScopeEvent::Begun,
            ScopeEvent::WorkSucceeded,
            ScopeEvent::CommitFailed("serialization failure".to_string()),
        ]),
        vec![
            ScopeAction::Begin,
            ScopeAction::RunWork,
            ScopeAction::Commit,
            ScopeAction::Finish(Err(StoreError::TransactionStoreError(TransactionCause::Commit(
                "serialization failure".to_string()
            )))),
        ]
    );
}

#[test]
fn failed_rollback_surfaces_unless_the_manager_was_broken() {
    let finish = |manager_broken: bool| {
        drive(vec![
            ScopeEvent::Start { connection_supplied: true },
            ScopeEvent::Begun,
            ScopeEvent::WorkFailed(work_error()),
            ScopeEvent::RollbackFailed { manager_broken, message: "lost".to_string() },
        ])
        .pop()
        .unwrap()
    };
    assert_eq!(
        finish(false),
        ScopeAction::Finish(Err(StoreError::TransactionStoreError(TransactionCause::Rollback(
            "lost".to_string()
        ))))
    );
    assert_eq!(
        finish(true),
        ScopeAction::Finish(Err(StoreError::TransactionStoreError(TransactionCause::Work(
            Box::new(work_error())
        ))))
    );
}

#[test]
fn an_event_out_of_turn_is_refused() {
    assert_eq!(ScopeState::Entered.step(ScopeEvent::Begun), None);
    assert_eq!(ScopeState::Acquiring.step(ScopeEvent::WorkSucceeded), None);
    assert_eq!(ScopeState::Beginning.step(ScopeEvent::Committed), None);
    assert_eq!(ScopeState::Working.step(ScopeEvent::Committed), None);
    assert_eq!(ScopeState::Working.step(ScopeEvent::RolledBack), None);
    assert_eq!(ScopeState::Committing.step(ScopeEvent::WorkFailed(work_error())), None);
    assert_eq!(ScopeState::Committing.step(ScopeEvent::RolledBack), None);
    assert_eq!(ScopeState::RollingBack(work_error()).step(ScopeEvent::Committed), None);
    assert_eq!(ScopeState::RollingBack(work_error()).step(ScopeEvent::WorkSucceeded), None);
    assert_eq!(
        ScopeState::Closed.step(ScopeEvent::Start { connection_supplied: true }),
        None
    );
}

#[test]
fn nothing_follows_the_end_of_a_scope() {
    let actions = drive(vec![
        ScopeEvent::Start { connection_supplied: true },
        ScopeEvent::Begun,
        ScopeEvent::WorkSucceeded,
        ScopeEvent::Committed,
        ScopeEvent::Start { connection_supplied: true },
        ScopeEvent::Begun,
    ]);
    assert_eq!(actions.len(), 4);
    assert_eq!(actions[3], ScopeAction::Finish(Ok(())));
}

#[test]
fn a_scope_whose_work_failed_never_commits() {
    let endings = vec![
        vec![ScopeEvent::RolledBack],
        vec![ScopeEvent::RollbackFailed { manager_broken: true, message: "x".to_string() }],
        vec![ScopeEvent::RollbackFailed { manager_broken: false, message: "x".to_string() }],
        vec![ScopeEvent::Committed],
        vec![ScopeEvent::WorkSucceeded, ScopeEvent::Committed],
        vec![],
    ];
    for ending in endings {
        let mut events = vec![
            ScopeEvent::Start { connection_supplied: false },
            ScopeEvent::Acquired,
            ScopeEvent::Begun,
            ScopeEvent::WorkFailed(work_error()),
        ];
        events.extend(ending);
        let actions = drive(events);
        assert_eq!(actions[3], ScopeAction::Rollback);
        for action in actions {
            assert_ne!(action, ScopeAction::Commit);
            assert_ne!(action, ScopeAction::Finish(Ok(())));
        }
    }
}

#[test]
fn a_connection_is_discarded_between_begin_and_the_end() {
    assert!(!ScopeState::Entered.discard_on_release());
    assert!(!ScopeState::Acquiring.discard_on_release());
    assert!(ScopeState::Beginning.discard_on_release());
    assert!(ScopeState::Working.discard_on_release());
    assert!(ScopeState::Committing.discard_on_release());
    assert!(ScopeState::RollingBack(work_error()).discard_on_release());
    assert!(!ScopeState::Closed.discard_on_release());
}

#[test]
fn work_error_is_wrapped_as_a_transaction_error() {
    assert_eq!(
        wrap_work_error(StoreError::DatabaseConnectionError),
        StoreError::TransactionStoreError(TransactionCause::Work(Box::new(
            StoreError::DatabaseConnectionError
        )))
    );
    let nested = wrap_work_error(wrap_work_error(StoreError::InitializationError));
    assert_eq!(
        nested,
        StoreError::TransactionStoreError(TransactionCause::Work(Box::new(
            StoreError::TransactionStoreError(TransactionCause::Work(Box::new(
                StoreError::InitializationError
            )))
        )))
    );
}
