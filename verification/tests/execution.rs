use resonate::durable::{finalize_outcome, race_suspend, ExecutionEnv, Race};
use resonate::error::Error;
use resonate::futures::{created_id, receive, CreationState, HandleMsg, Received};
use resonate::types::Outcome;

// Handles

#[test]
fn durable_future_pending_resolves_via_await() {
    match receive("test-id", Some(HandleMsg::Done(Ok("hello".to_string())))) {
        Received::Ready(Ok(result)) => assert_eq!(result, "hello"),
        _ => panic!("expected a result"),
    }
}

#[test]
fn durable_future_pending_error_via_await() {
    let message: HandleMsg<i32> = HandleMsg::Done(Err(Error::Application {
        message: "task failed".into(),
    }));
    match receive("test-id", Some(message)) {
        Received::Ready(Err(err)) => assert!(matches!(err, Error::Application { .. })),
        _ => panic!("expected an error"),
    }
}

#[test]
fn durable_future_suspended_signals_and_parks() {
    // A suspended handle never hands a value (or an error) back to user code.
    assert!(matches!(
        receive::<i32>("test-id", Some(HandleMsg::Suspended)),
        Received::Park
    ));
}

#[test]
fn remote_future_completed_via_await() {
    match receive("test-id", Some(HandleMsg::Done(Ok("remote-value".to_string())))) {
        Received::Ready(Ok(result)) => assert_eq!(result, "remote-value"),
        _ => panic!("expected a result"),
    }
}

#[test]
fn remote_future_failed_via_await() {
    let message: HandleMsg<i32> = HandleMsg::Done(Err(Error::Application {
        message: "remote error".into(),
    }));
    match receive("test-id", Some(message)) {
        Received::Ready(Err(err)) => assert!(matches!(err, Error::Application { .. })),
        _ => panic!("expected an error"),
    }
}

#[test]
fn dropped_task_is_reported_by_its_id() {
    match receive::<i32>("test-id", None) {
        Received::Ready(Err(Error::JoinError(m))) => assert_eq!(m, "task test-id was dropped"),
        _ => panic!("expected a join error"),
    }
}

#[test]
fn id_returns_after_creation_succeeds() {
    assert!(created_id("p.1", &CreationState::InFlight).is_none());
    let state = CreationState::Created;
    assert_eq!(created_id("p.1", &state).unwrap().unwrap(), "p.1");
    // The id can be asked for more than once.
    assert_eq!(created_id("p.1", &state).unwrap().unwrap(), "p.1");
}

#[test]
fn id_fails_when_creation_failed() {
    let err = created_id("p.1", &CreationState::Failed("boom".into())).unwrap().unwrap_err();
    match err {
        Error::PromiseCreation(m) => assert_eq!(m, "boom"),
        other => panic!("got: {:?}", other),
    }
}

// Driving

#[test]
fn a_ready_completion_wins_a_simultaneous_signal() {
    assert!(matches!(race_suspend(Some(1), true), Race::Completed(1)));
    assert!(matches!(race_suspend(Some(1), false), Race::Completed(1)));
    assert!(matches!(race_suspend::<i32>(None, true), Race::Suspended));
    assert!(matches!(race_suspend::<i32>(None, false), Race::Running));
}

#[test]
fn only_a_clean_completion_is_done() {
    assert!(matches!(finalize_outcome(Some(Ok(7)), Vec::new()), Outcome::Done(Ok(7))));
    let failed: Option<Result<i32, Error>> = Some(Err(Error::Application { message: "x".into() }));
    assert!(matches!(finalize_outcome(failed, Vec::new()), Outcome::Done(Err(_))));
    let todos = vec!["a".to_string()];
    assert!(matches!(
        finalize_outcome(Some(Ok(7)), todos.clone()),
        Outcome::Suspended { remote_todos } if remote_todos == todos
    ));
    assert!(matches!(
        finalize_outcome::<i32>(None, todos.clone()),
        Outcome::Suspended { remote_todos } if remote_todos == todos
    ));
}

#[test]
fn an_environment_holds_info_or_context() {
    let info = "info";
    let context = 5;
    let leaf: ExecutionEnv<'_, &str, i32> = ExecutionEnv::Function(&info);
    let workflow: ExecutionEnv<'_, &str, i32> = ExecutionEnv::Workflow(&context);
    assert_eq!(*leaf.into_info(), "info");
    assert_eq!(*workflow.into_context(), 5);
    assert!(leaf.remote_context().is_none());
    assert_eq!(workflow.remote_context(), Some(&5));
}
