use signal_terminal::{
    AcquireInputGateRequest, ExitCode, InjectionAckReply, Input, InputGateLease,
    InputGateLeaseIdentifier, InputGateReason, ListPromptPatternsRequest, ListSessionsRequest,
    Output, PromptPattern, PromptPatternBytes, PromptPatternIdentifier, Query,
    RegisterPromptPatternRequest, ReleaseInputGateRequest, ResolveSessionRequest, Response,
    SocketMode, SubscribeTerminalWorkerLifecycleRequest, SubscriptionRetractedReply,
    SystemPrincipal, TerminalByteCount, TerminalCaptureRequest, TerminalColumns,
    TerminalConnectionRequest, TerminalDetachmentReason, TerminalDetachmentRequest, TerminalEvent,
    TerminalGeneration, TerminalInputBytes, TerminalInputRequest, TerminalName,
    TerminalOperationKind, TerminalReadyReply, TerminalResizeRequest, TerminalRows,
    TerminalSequence, TerminalSignalNumber, TerminalTranscriptBytes, TerminalWorkerKind,
    TerminalWorkerLifecycle, TerminalWorkerLifecycleEventPayload, TerminalWorkerLifecycleToken,
    UnixUserIdentifier, UnregisterPromptPatternRequest, WirePath, WorkerFailureDetail,
    WriteInjectionRequest,
};

fn terminal() -> TerminalName {
    TerminalName::new("operator".to_string())
}

fn prompt_pattern_identifier() -> PromptPatternIdentifier {
    PromptPatternIdentifier::new("codex-ready".to_string())
}

fn input_gate_lease() -> InputGateLease {
    InputGateLease {
        input_gate_lease_identifier: InputGateLeaseIdentifier::new(42),
    }
}

fn input_bytes() -> TerminalInputBytes {
    TerminalInputBytes::new(b"hello".iter().map(|byte| u64::from(*byte)).collect())
}

#[test]
fn input_exposes_contract_owned_operation_kind() {
    assert_eq!(
        Input::TerminalConnection(TerminalConnectionRequest { terminal: terminal() })
            .operation_kind(),
        TerminalOperationKind::TerminalConnection
    );
    assert_eq!(
        Input::WriteInjection(WriteInjectionRequest {
            terminal: terminal(),
            lease: input_gate_lease(),
            input_bytes: input_bytes(),
        })
        .operation_kind(),
        TerminalOperationKind::WriteInjection
    );
    assert_eq!(
        Input::TerminalWorkerLifecycleRetraction(TerminalWorkerLifecycleToken {
            terminal: terminal()
        })
        .operation_kind(),
        TerminalOperationKind::TerminalWorkerLifecycleRetraction
    );
    assert_eq!(
        Input::ListSessions(ListSessionsRequest {}).operation_kind(),
        TerminalOperationKind::ListSessions
    );
}

#[test]
fn payload_lift_into_request_uses_generated_from() {
    let payload = TerminalConnectionRequest { terminal: terminal() };
    let request: Input = payload.clone().into();
    assert_eq!(request, Input::TerminalConnection(payload));

    let token = TerminalWorkerLifecycleToken { terminal: terminal() };
    let retraction: Input = token.clone().into();
    assert_eq!(retraction, Input::TerminalWorkerLifecycleRetraction(token));
}

#[test]
fn payload_lift_into_reply_uses_generated_from() {
    let payload = TerminalReadyReply {
        terminal: terminal(),
        generation: TerminalGeneration::new(4),
    };
    let reply: Output = payload.clone().into();
    assert_eq!(reply, Output::TerminalReady(payload));
}

#[test]
fn event_lifts_into_output_and_terminal_event() {
    let payload = TerminalWorkerLifecycleEventPayload {
        terminal: terminal(),
        observation: TerminalWorkerLifecycle::Started(TerminalWorkerKind::SocketAcceptLoop),
    };
    let event: TerminalEvent = payload.clone().into();
    assert_eq!(
        event,
        TerminalEvent::TerminalWorkerLifecycleEvent(payload.clone())
    );

    let output: Output = event.clone().into();
    assert_eq!(output, Output::Event(event));
}

#[test]
fn every_request_names_the_operation_kind_of_its_variant() {
    let cases: Vec<(Query, TerminalOperationKind)> = vec![
        (
            Query::TerminalConnection(TerminalConnectionRequest { terminal: terminal() }),
            TerminalOperationKind::TerminalConnection,
        ),
        (
            Query::TerminalInput(TerminalInputRequest {
                terminal: terminal(),
                input_bytes: input_bytes(),
            }),
            TerminalOperationKind::TerminalInput,
        ),
        (
            Query::TerminalResize(TerminalResizeRequest {
                terminal: terminal(),
                rows: TerminalRows::new(24),
                columns: TerminalColumns::new(80),
            }),
            TerminalOperationKind::TerminalResize,
        ),
        (
            Query::TerminalDetachment(TerminalDetachmentRequest {
                terminal: terminal(),
                terminal_detachment_reason: TerminalDetachmentReason::HarnessStopped,
            }),
            TerminalOperationKind::TerminalDetachment,
        ),
        (
            Query::TerminalCapture(TerminalCaptureRequest { terminal: terminal() }),
            TerminalOperationKind::TerminalCapture,
        ),
        (
            Query::RegisterPromptPattern(RegisterPromptPatternRequest {
                terminal: terminal(),
                pattern: PromptPattern::LiteralSuffix(PromptPatternBytes::new(vec![36, 32])),
            }),
            TerminalOperationKind::RegisterPromptPattern,
        ),
        (
            Query::UnregisterPromptPattern(UnregisterPromptPatternRequest {
                terminal: terminal(),
                pattern_identifier: prompt_pattern_identifier(),
            }),
            TerminalOperationKind::UnregisterPromptPattern,
        ),
        (
            Query::ListPromptPatterns(ListPromptPatternsRequest { terminal: terminal() }),
            TerminalOperationKind::ListPromptPatterns,
        ),
        (
            Query::AcquireInputGate(AcquireInputGateRequest {
                terminal: terminal(),
                input_gate_reason: InputGateReason::new("inject".to_string()),
                prompt_pattern_identifier_selection: Some(prompt_pattern_identifier()),
            }),
            TerminalOperationKind::AcquireInputGate,
        ),
        (
            Query::ReleaseInputGate(ReleaseInputGateRequest {
                terminal: terminal(),
                lease: input_gate_lease(),
            }),
            TerminalOperationKind::ReleaseInputGate,
        ),
        (
            Query::WriteInjection(WriteInjectionRequest {
                terminal: terminal(),
                lease: input_gate_lease(),
                input_bytes: input_bytes(),
            }),
            TerminalOperationKind::WriteInjection,
        ),
        (
            Query::SubscribeTerminalWorkerLifecycle(SubscribeTerminalWorkerLifecycleRequest {
                terminal: terminal(),
            }),
            TerminalOperationKind::SubscribeTerminalWorkerLifecycle,
        ),
        (
            Query::TerminalWorkerLifecycleRetraction(TerminalWorkerLifecycleToken {
                terminal: terminal(),
            }),
            TerminalOperationKind::TerminalWorkerLifecycleRetraction,
        ),
        (
            Query::ListSessions(ListSessionsRequest {}),
            TerminalOperationKind::ListSessions,
        ),
        (
            Query::ResolveSession(ResolveSessionRequest { name: terminal() }),
            TerminalOperationKind::ResolveSession,
        ),
    ];
    assert_eq!(cases.len(), 15);
    for (request, kind) in cases {
        assert_eq!(request.operation_kind(), kind);
    }
}

#[test]
fn lifted_retraction_token_keeps_its_operation_kind() {
    let request = Query::from(TerminalWorkerLifecycleToken { terminal: terminal() });
    assert_eq!(
        request.operation_kind(),
        TerminalOperationKind::TerminalWorkerLifecycleRetraction
    );
}

#[test]
fn lifted_replies_land_in_their_variants() {
    let ack = InjectionAckReply {
        terminal: terminal(),
        generation: TerminalGeneration::new(1),
        sequence: TerminalSequence::new(7),
    };
    assert_eq!(Response::from(ack.clone()), Response::InjectionAck(ack));

    let retracted = SubscriptionRetractedReply {
        token: TerminalWorkerLifecycleToken { terminal: terminal() },
    };
    assert_eq!(
        Response::from(retracted.clone()),
        Response::SubscriptionRetracted(retracted)
    );
}

#[test]
fn string_newtypes_hand_back_their_text() {
    assert_eq!(terminal().as_str(), "operator");
    assert_eq!(prompt_pattern_identifier().as_str(), "codex-ready");
    assert_eq!(InputGateReason::new("inject".to_string()).as_str(), "inject");
    assert_eq!(
        WirePath::new("/run/persona/X/terminal.sock".to_string()).as_str(),
        "/run/persona/X/terminal.sock"
    );
    assert_eq!(SystemPrincipal::new("persona".to_string()).as_str(), "persona");
    assert_eq!(
        WorkerFailureDetail::new("broken pipe".to_string()).as_str(),
        "broken pipe"
    );
}

#[test]
fn integer_newtypes_hand_back_their_values() {
    assert_eq!(TerminalGeneration::new(3).into_u64(), 3);
    assert_eq!(TerminalSequence::new(7).into_u64(), 7);
    assert_eq!(TerminalByteCount::new(12).into_u64(), 12);
    assert_eq!(InputGateLeaseIdentifier::new(42).into_u64(), 42);
    assert_eq!(TerminalRows::new(24).as_u16(), 24);
    assert_eq!(TerminalRows::new(24).into_u16(), 24);
    assert_eq!(TerminalColumns::new(80).as_u16(), 80);
    assert_eq!(TerminalColumns::new(80).into_u16(), 80);
    assert_eq!(SocketMode::new(0o600).into_u32(), 0o600);
    assert_eq!(UnixUserIdentifier::new(1000).as_u32(), 1000);
    assert_eq!(ExitCode::new(0).into_i32(), 0);
    assert_eq!(TerminalSignalNumber::new(9).into_i32(), 9);
}

#[test]
fn narrowing_accessors_keep_the_low_bits() {
    assert_eq!(TerminalRows::new(0x1_0005).as_u16(), 5);
    assert_eq!(TerminalColumns::new(0x2_0050).into_u16(), 0x50);
    assert_eq!(SocketMode::new(0x1_0000_01a4).into_u32(), 0x1a4);
    assert_eq!(UnixUserIdentifier::new(0x1_0000_03e8).as_u32(), 1000);
    assert_eq!(ExitCode::new(0xffff_ffff).into_i32(), -1);
    assert_eq!(TerminalSignalNumber::new(0x1_0000_0009).into_i32(), 9);
}

#[test]
fn byte_newtypes_carry_one_integer_per_byte() {
    assert_eq!(input_bytes().as_slice(), &[104, 101, 108, 108, 111]);
    assert_eq!(input_bytes().into_vec(), vec![104, 101, 108, 108, 111]);
    let transcript = TerminalTranscriptBytes::new(vec![36, 32]);
    assert_eq!(transcript.as_slice(), &[36, 32]);
    assert_eq!(transcript.into_vec(), vec![36, 32]);
    let pattern = PromptPatternBytes::new(vec![36]);
    assert_eq!(pattern.as_slice(), &[36]);
    assert_eq!(pattern.into_vec(), vec![36]);
}
