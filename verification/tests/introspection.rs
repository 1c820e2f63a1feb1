use signal_terminal::{
    Output, TerminalArchiveReason, TerminalControlSocketPath, TerminalDataSocketPath,
    TerminalDeliveryAttemptObservation, TerminalDeliveryAttemptState, TerminalEventObservation,
    TerminalGeneration, TerminalInputAcceptedReply, TerminalIntrospectionSnapshot, TerminalName,
    TerminalObservationSequence, TerminalOperationKind, TerminalSequence,
    TerminalSessionArchiveObservation, TerminalSessionArchiveState,
    TerminalSessionHealthObservation, TerminalSessionObservation, TerminalSessionState,
    TerminalViewerAttachmentObservation, TerminalViewerAttachmentState, TerminalViewerName,
};

fn terminal() -> TerminalName {
    TerminalName::new("operator".to_string())
}

#[test]
fn terminal_session_observation_is_contract_owned_introspection_record() {
    let observation = TerminalSessionObservation::ready(
        terminal(),
        "/run/persona/engine/terminal.sock".to_string(),
        "/run/persona/engine/terminal-data.sock".to_string(),
    );

    assert_eq!(
        observation.control_socket_path().as_str(),
        "/run/persona/engine/terminal.sock"
    );
    assert_eq!(observation.state(), TerminalSessionState::Ready);
}

#[test]
fn terminal_delivery_attempt_observation_round_trips() {
    let observation = TerminalDeliveryAttemptObservation::started(
        TerminalObservationSequence::new(7),
        terminal(),
        TerminalOperationKind::WriteInjection,
    );

    assert_eq!(observation.sequence().into_u64(), 7);
    assert_eq!(observation.state(), TerminalDeliveryAttemptState::Started);
}

#[test]
fn terminal_event_observation_round_trips() {
    let event = Output::from(TerminalInputAcceptedReply {
        terminal: terminal(),
        generation: TerminalGeneration::new(3),
    });
    let observation =
        TerminalEventObservation::new(TerminalObservationSequence::new(11), terminal(), event);

    assert_eq!(observation.sequence().into_u64(), 11);
}

#[test]
fn terminal_viewer_attachment_observation_round_trips() {
    let observation = TerminalViewerAttachmentObservation::new(
        TerminalObservationSequence::new(13),
        terminal(),
        "ghostty-window".to_string(),
        TerminalViewerAttachmentState::Attached,
    );

    assert_eq!(observation.viewer().as_str(), "ghostty-window");
}

#[test]
fn terminal_session_health_observation_round_trips() {
    let observation = TerminalSessionHealthObservation::new(
        terminal(),
        TerminalSessionState::Ready,
        TerminalGeneration::new(2),
    );

    assert_eq!(observation.generation().into_u64(), 2);
}

#[test]
fn terminal_session_archive_observation_round_trips() {
    let observation =
        TerminalSessionArchiveObservation::archived(terminal(), "session rotated".to_string());

    assert_eq!(observation.reason().as_str(), "session rotated");
    assert_eq!(observation.state(), TerminalSessionArchiveState::Archived);
}

#[test]
fn ready_session_starts_at_first_generation_with_empty_transcript() {
    let observation = TerminalSessionObservation::ready(
        terminal(),
        "/run/persona/engine/terminal.sock".to_string(),
        "/run/persona/terminal/sessions/operator/data.sock".to_string(),
    );

    assert_eq!(observation.terminal().as_str(), "operator");
    assert_eq!(observation.generation().into_u64(), 1);
    assert_eq!(observation.transcript_sequence().into_u64(), 0);
    assert_eq!(
        observation.data_socket_path().as_str(),
        "/run/persona/terminal/sessions/operator/data.sock"
    );
    assert_eq!(*observation.generation(), TerminalGeneration::new(1));
    assert_eq!(*observation.transcript_sequence(), TerminalSequence::new(0));
}

#[test]
fn delivery_attempt_reports_its_terminal_and_operation() {
    let observation = TerminalDeliveryAttemptObservation::started(
        TerminalObservationSequence::new(3),
        terminal(),
        TerminalOperationKind::TerminalResize,
    );

    assert_eq!(observation.terminal().as_str(), "operator");
    assert_eq!(observation.operation(), TerminalOperationKind::TerminalResize);
}

#[test]
fn event_observation_hands_back_the_event_it_recorded() {
    let event = Output::from(TerminalInputAcceptedReply {
        terminal: terminal(),
        generation: TerminalGeneration::new(9),
    });
    let observation = TerminalEventObservation::new(
        TerminalObservationSequence::new(4),
        TerminalName::new("designer".to_string()),
        event.clone(),
    );

    assert_eq!(observation.event(), &event);
    assert_eq!(observation.terminal().as_str(), "designer");
}

#[test]
fn viewer_attachment_records_detachment_state() {
    let observation = TerminalViewerAttachmentObservation::new(
        TerminalObservationSequence::new(14),
        terminal(),
        "ghostty-window".to_string(),
        TerminalViewerAttachmentState::Detached,
    );

    assert_eq!(observation.sequence().into_u64(), 14);
    assert_eq!(observation.terminal().as_str(), "operator");
    assert_eq!(observation.state(), TerminalViewerAttachmentState::Detached);
}

#[test]
fn session_health_reports_exited_state() {
    let observation = TerminalSessionHealthObservation::new(
        terminal(),
        TerminalSessionState::Exited,
        TerminalGeneration::new(5),
    );

    assert_eq!(observation.state(), TerminalSessionState::Exited);
    assert_eq!(observation.terminal().as_str(), "operator");
}

#[test]
fn session_archive_reports_its_terminal() {
    let observation =
        TerminalSessionArchiveObservation::archived(terminal(), "retired".to_string());

    assert_eq!(observation.terminal().as_str(), "operator");
}

#[test]
fn session_state_names_are_lower_case_and_distinct() {
    assert_eq!(TerminalSessionState::Ready.as_str(), "ready");
    assert_eq!(TerminalSessionState::Exited.as_str(), "exited");
    assert_ne!(
        TerminalSessionState::Ready.as_str(),
        TerminalSessionState::Exited.as_str()
    );
}

#[test]
fn empty_snapshot_holds_no_records() {
    let snapshot = TerminalIntrospectionSnapshot::empty();

    assert!(snapshot.sessions.is_empty());
    assert!(snapshot.delivery_attempts.is_empty());
    assert!(snapshot.terminal_events.is_empty());
    assert!(snapshot.viewer_attachments.is_empty());
    assert!(snapshot.session_health.is_empty());
    assert!(snapshot.session_archive.is_empty());
}

#[test]
fn introspection_newtypes_hand_back_their_values() {
    assert_eq!(TerminalObservationSequence::new(42).into_u64(), 42);
    let control = TerminalControlSocketPath::new("/run/a.sock".to_string());
    assert_eq!(control.as_str(), "/run/a.sock");
    assert_eq!(control.into_string(), "/run/a.sock".to_string());
    let data = TerminalDataSocketPath::new("/run/b.sock".to_string());
    assert_eq!(data.as_str(), "/run/b.sock");
    assert_eq!(data.into_string(), "/run/b.sock".to_string());
    assert_eq!(TerminalViewerName::new("v".to_string()).as_str(), "v");
    assert_eq!(TerminalArchiveReason::new("r".to_string()).as_str(), "r");
}
