//! Typed control-plane vocabulary of the Persona terminal transport.
//!
//! The harness asks the terminal daemon for connection, input, resize,
//! detachment and capture; the daemon owns prompt-pattern registration,
//! input-gate leases, write injection and worker-lifecycle observation.
//! Raw viewer bytes are not part of this vocabulary.
//!
//! - `vocabulary`: the primitive newtypes of the wire (names, counters, byte
//!   lists) and their accessors.
//! - `contract`: the records, the `Query` and `Response` roots, payload lifts
//!   and the operation head of each request.
//! - `introspection`: records that describe inspectable terminal state.

pub mod contract;
pub mod introspection;
pub mod vocabulary;

pub use contract::{
    AcquireInputGateRequest, CachedHumanBytes, Columns, CurrentHolder, DataSocketPath, Entries,
    GateAcquiredReply, GateBusyReply, GateReleasedReply, Generation, InjectionAckReply,
    InjectionRejectedReply, InjectionRejectionReason, Input, InputBytes, InputGateLease, Lease,
    ListPromptPatternsRequest, ListSessionsRequest, MetaTerminalSocketMode,
    MetaTerminalSocketPath, Name, Observation, Observations, Output, OwnerIdentity, Pattern,
    PatternIdentifier, PromptPattern, PromptPatternEntry, PromptPatternIdentifierSelection,
    PromptPatternListReply, PromptPatternRegisteredReply, PromptPatternUnregisteredReply,
    PromptState, Query, RegisterPromptPatternRequest, ReleaseInputGateRequest,
    ResolveSessionRequest, Response, Rows, Sequence, SessionEntries, SessionEntry,
    SessionListReply, SessionResolvedReply, StorePath, SubscribeTerminalWorkerLifecycleRequest,
    SubscriptionRetractedReply, SupervisionSocketMode, SupervisionSocketPath, Terminal,
    TerminalCaptureRequest, TerminalCapturedReply, TerminalConnectionRequest,
    TerminalDaemonConfiguration, TerminalDaemonConfigurationArchiveError,
    TerminalDetachedReply, TerminalDetachmentReason, TerminalDetachmentRequest, TerminalEvent,
    TerminalExitStatus, TerminalExitedReply, TerminalInputAcceptedReply, TerminalInputRequest,
    TerminalOperationKind, TerminalReadyReply, TerminalRejectedReply, TerminalRejectionReason,
    TerminalResizeRequest, TerminalResizedReply, TerminalSocketMode, TerminalSocketPath,
    TerminalWorkerKind, TerminalWorkerLifecycle, TerminalWorkerLifecycleEventPayload,
    TerminalWorkerLifecycleSnapshotReply, TerminalWorkerLifecycleToken, TerminalWorkerStop,
    TerminalWorkerStopReason, Token, TranscriptBytes, TranscriptDeltaReply,
    UnregisterPromptPatternRequest, WriteInjectionRequest,
};

pub use introspection::{
    TerminalArchiveReason, TerminalControlSocketPath, TerminalDataSocketPath,
    TerminalDeliveryAttemptObservation, TerminalDeliveryAttemptState, TerminalEventObservation,
    TerminalIntrospectionSnapshot, TerminalObservationSequence,
    TerminalSessionArchiveObservation, TerminalSessionArchiveState,
    TerminalSessionHealthObservation, TerminalSessionObservation, TerminalSessionState,
    TerminalViewerAttachmentObservation, TerminalViewerAttachmentState, TerminalViewerName,
};

pub use vocabulary::{
    ExitCode, InputGateLeaseIdentifier, InputGateReason, PromptPatternBytes,
    PromptPatternIdentifier, SocketMode, SystemPrincipal, TerminalByteCount, TerminalColumns,
    TerminalGeneration, TerminalInputBytes, TerminalName, TerminalRows, TerminalSequence,
    TerminalSignalNumber, TerminalTranscriptBytes, UnixUserIdentifier, WirePath,
    WorkerFailureDetail,
};
