use determinishtic::error::Error;
use determinishtic::permission::{PermissionOption, PermissionOptionKind, PermissionOutcome};
use determinishtic::session::{
    Action, Phase, ReturnResultInput, SessionEvent, SessionUpdate, StopReason, ThinkSession,
};
use determinishtic::ThinkBuilder;

#[derive(Debug, Clone, PartialEq)]
struct FileSummary {
    summary: String,
    topics: Vec<String>,
}

fn running<T>() -> ThinkSession<T> {
    let mut session = ThinkBuilder::<T>::new().text("task").into_session().unwrap();
    assert!(matches!(session.step(SessionEvent::PromptSent), Action::ReadUpdate));
    session
}

fn stop() -> SessionEvent {
    SessionEvent::Update(SessionUpdate::Stop(StopReason::EndTurn))
}

#[test]
fn a_session_starts_by_sending() {
    let session = ThinkBuilder::<u32>::new().into_session().unwrap();
    assert_eq!(session.phase(), Phase::Sending);
    assert!(!session.has_result());
}

#[test]
fn prompt_sent_leads_to_awaiting() {
    let session = running::<u32>();
    assert_eq!(session.phase(), Phase::AwaitingUpdate);
}

#[test]
fn one_invocation_resolves_to_its_value() {
    let mut session = running::<u32>();
    let ack = session.return_result(ReturnResultInput { result: 7 });
    assert!(ack.success);
    assert!(session.has_result());
    match session.step(stop()) {
        Action::Finish(Ok(value)) => assert_eq!(value, 7),
        other => panic!("unexpected action: {other:?}"),
    }
    assert_eq!(session.phase(), Phase::Stopped(StopReason::EndTurn));
    assert!(!session.has_result());
}

#[test]
fn no_invocation_fails_with_no_result() {
    let mut session = running::<u32>();
    assert!(matches!(session.step(stop()), Action::Finish(Err(Error::NoResult))));
    assert_eq!(session.phase(), Phase::Stopped(StopReason::EndTurn));
}

#[test]
fn the_stop_reason_plays_no_part() {
    for reason in [
        StopReason::EndTurn,
        StopReason::MaxTokens,
        StopReason::MaxTurnRequests,
        StopReason::Refusal,
        StopReason::Cancelled,
        StopReason::Other,
    ] {
        let mut with = running::<u32>();
        with.return_result(ReturnResultInput { result: 1 });
        let event = SessionEvent::Update(SessionUpdate::Stop(reason));
        assert!(matches!(with.step(event), Action::Finish(Ok(1))));
        assert_eq!(with.phase(), Phase::Stopped(reason));

        let mut without = running::<u32>();
        let event = SessionEvent::Update(SessionUpdate::Stop(reason));
        assert!(matches!(without.step(event), Action::Finish(Err(Error::NoResult))));
    }
}

#[test]
fn only_the_first_invocation_counts() {
    let mut session = running::<u32>();
    assert!(session.return_result(ReturnResultInput { result: 1 }).success);
    assert!(!session.return_result(ReturnResultInput { result: 2 }).success);
    assert!(matches!(session.step(stop()), Action::Finish(Ok(1))));
}

#[test]
fn an_invocation_after_the_end_is_not_recorded() {
    let mut session = running::<u32>();
    assert!(matches!(session.step(stop()), Action::Finish(Err(Error::NoResult))));
    assert!(!session.return_result(ReturnResultInput { result: 5 }).success);
    assert!(!session.has_result());
    assert!(matches!(session.step(stop()), Action::Ignored));
}

#[test]
fn a_notification_is_noted_and_the_loop_goes_on() {
    let mut session = running::<u32>();
    let action = session.step(SessionEvent::Update(SessionUpdate::Notification));
    assert!(matches!(action, Action::Note));
    assert_eq!(session.phase(), Phase::ProcessingNotification);
    assert!(matches!(session.step(SessionEvent::Done), Action::ReadUpdate));
    assert_eq!(session.phase(), Phase::AwaitingUpdate);
}

#[test]
fn a_permission_request_is_answered_with_the_allowing_option() {
    let mut session = running::<u32>();
    let options = vec![
        PermissionOption::new("reject", PermissionOptionKind::RejectOnce),
        PermissionOption::new("allow", PermissionOptionKind::AllowOnce),
    ];
    match session.step(SessionEvent::Update(SessionUpdate::PermissionRequest(options))) {
        Action::Respond(PermissionOutcome::Selected(id)) => assert_eq!(id, "allow"),
        other => panic!("unexpected action: {other:?}"),
    }
    assert_eq!(session.phase(), Phase::ProcessingRequest);
    assert!(matches!(session.step(SessionEvent::Done), Action::ReadUpdate));
    assert_eq!(session.phase(), Phase::AwaitingUpdate);
}

#[test]
fn a_permission_request_without_allow_is_cancelled() {
    let mut session = running::<u32>();
    let options = vec![
        PermissionOption::new("once", PermissionOptionKind::RejectOnce),
        PermissionOption::new("always", PermissionOptionKind::RejectAlways),
    ];
    let action = session.step(SessionEvent::Update(SessionUpdate::PermissionRequest(options)));
    assert!(matches!(action, Action::Respond(PermissionOutcome::Cancelled)));
}

#[test]
fn other_updates_are_passed_over() {
    let mut session = running::<u32>();
    assert!(matches!(session.step(SessionEvent::Update(SessionUpdate::Other)), Action::ReadUpdate));
    assert_eq!(session.phase(), Phase::AwaitingUpdate);
}

#[test]
fn a_failure_while_sending_is_fatal() {
    let mut session = ThinkBuilder::<u32>::new().into_session().unwrap();
    match session.step(SessionEvent::TransportFailed("refused".to_string())) {
        Action::Finish(Err(Error::Transport(msg))) => assert_eq!(msg, "refused"),
        other => panic!("unexpected action: {other:?}"),
    }
    assert_eq!(session.phase(), Phase::Failed);
}

#[test]
fn a_failure_while_reading_discards_the_result() {
    let mut session = running::<u32>();
    session.return_result(ReturnResultInput { result: 9 });
    let action = session.step(SessionEvent::TransportFailed("closed".to_string()));
    assert!(matches!(action, Action::Finish(Err(Error::Transport(_)))));
    assert_eq!(session.phase(), Phase::Failed);
    assert!(!session.has_result());
    assert!(matches!(session.step(stop()), Action::Ignored));
}

#[test]
fn a_failure_while_answering_is_fatal() {
    let mut session = running::<u32>();
    let options = vec![PermissionOption::new("a", PermissionOptionKind::AllowAlways)];
    session.step(SessionEvent::Update(SessionUpdate::PermissionRequest(options)));
    let action = session.step(SessionEvent::TransportFailed("gone".to_string()));
    assert!(matches!(action, Action::Finish(Err(Error::Transport(_)))));
}

#[test]
fn events_out_of_turn_change_nothing() {
    let mut session = ThinkBuilder::<u32>::new().into_session().unwrap();
    assert!(matches!(session.step(stop()), Action::Ignored));
    assert!(matches!(session.step(SessionEvent::Done), Action::Ignored));
    assert_eq!(session.phase(), Phase::Sending);

    let mut session = running::<u32>();
    assert!(matches!(session.step(SessionEvent::PromptSent), Action::Ignored));
    assert!(matches!(session.step(SessionEvent::Done), Action::Ignored));
    assert_eq!(session.phase(), Phase::AwaitingUpdate);

    session.step(SessionEvent::Update(SessionUpdate::Notification));
    assert!(matches!(session.step(stop()), Action::Ignored));
    assert_eq!(session.phase(), Phase::ProcessingNotification);
}

#[test]
fn terminal_phases() {
    assert!(Phase::Stopped(StopReason::Refusal).is_terminal());
    assert!(Phase::Failed.is_terminal());
    assert!(!Phase::Sending.is_terminal());
    assert!(!Phase::AwaitingUpdate.is_terminal());
    assert!(!Phase::ProcessingNotification.is_terminal());
    assert!(!Phase::ProcessingRequest.is_terminal());
}

#[test]
fn end_to_end_scenario() {
    let mut log: Vec<String> = Vec::new();
    let builder = ThinkBuilder::<FileSummary>::new()
        .text("Summarize the file using")
        .tool("read_file", "Read the file to summarize")
        .text("and list its topics.");
    let mut session = builder.into_session().unwrap();
    assert!(session.prompt().ends_with(
        "Summarize the file using<mcp_tool>read_file</mcp_tool> and list its topics."
    ));
    assert!(session.tools().contains("read_file"));
    assert!(session.tools().contains("return_result"));

    assert!(matches!(session.step(SessionEvent::PromptSent), Action::ReadUpdate));

    assert!(matches!(
        session.step(SessionEvent::Update(SessionUpdate::Notification)),
        Action::Note
    ));
    assert!(matches!(session.step(SessionEvent::Done), Action::ReadUpdate));

    let options = vec![
        PermissionOption::new("deny", PermissionOptionKind::RejectOnce),
        PermissionOption::new("ok", PermissionOptionKind::AllowOnce),
    ];
    match session.step(SessionEvent::Update(SessionUpdate::PermissionRequest(options))) {
        Action::Respond(PermissionOutcome::Selected(id)) => assert_eq!(id, "ok"),
        other => panic!("unexpected action: {other:?}"),
    }
    assert!(matches!(session.step(SessionEvent::Done), Action::ReadUpdate));

    assert!(session.tools().contains("read_file"));
    log.push("read_file".to_string());

    let value = FileSummary { summary: "ok".to_string(), topics: vec!["x".to_string()] };
    assert!(session.return_result(ReturnResultInput { result: value.clone() }).success);

    match session.step(stop()) {
        Action::Finish(Ok(result)) => assert_eq!(result, value),
        other => panic!("unexpected action: {other:?}"),
    }
    assert_eq!(log, vec!["read_file".to_string()]);
}
