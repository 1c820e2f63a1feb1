//! Records, requests and replies of the terminal contract.
//!
//! `Query` is every request and `Response` every reply; `Input` and `Output`
//! name the same two types. Each payload record lifts into its variant through
//! `From`, and each request names its operation through `operation_kind`.

use vstd::pervasive::arbitrary;
use vstd::prelude::*;
use vstd::std_specs::convert::FromSpec;

use crate::vocabulary::{
    ExitCode, InputGateLeaseIdentifier, InputGateReason, PromptPatternBytes,
    PromptPatternIdentifier, SocketMode, SystemPrincipal, TerminalByteCount, TerminalColumns,
    TerminalGeneration, TerminalInputBytes, TerminalName, TerminalRows, TerminalSequence,
    TerminalSignalNumber, TerminalTranscriptBytes, UnixUserIdentifier, WirePath,
    WorkerFailureDetail,
};

verus! {

/// Terminal named by a request or reply.
pub type Terminal = TerminalName;

/// Row count of a resize.
pub type Rows = TerminalRows;

/// Column count of a resize.
pub type Columns = TerminalColumns;

/// Generation named by a reply.
pub type Generation = TerminalGeneration;

/// Sequence named by a reply.
pub type Sequence = TerminalSequence;

/// Input bytes of a request.
pub type InputBytes = TerminalInputBytes;

/// Transcript bytes of a reply.
pub type TranscriptBytes = TerminalTranscriptBytes;

/// Identifier of a registered prompt pattern.
pub type PatternIdentifier = PromptPatternIdentifier;

/// A prompt pattern.
pub type Pattern = PromptPattern;

/// Optional prompt pattern to check when the input gate is acquired.
pub type PromptPatternIdentifierSelection = Option<PromptPatternIdentifier>;

/// Lease named by a request or reply.
pub type Lease = InputGateLease;

/// Lease that currently holds the input gate.
pub type CurrentHolder = InputGateLeaseIdentifier;

/// Human input bytes the daemon cached while the input gate was held.
pub type CachedHumanBytes = TerminalByteCount;

/// Worker-lifecycle observations of a snapshot.
pub type Observations = Vec<TerminalWorkerLifecycle>;

/// One worker-lifecycle observation.
pub type Observation = TerminalWorkerLifecycle;

/// Token of a worker-lifecycle subscription.
pub type Token = TerminalWorkerLifecycleToken;

/// Registered prompt patterns.
pub type Entries = Vec<PromptPatternEntry>;

/// Sessions of the registry.
pub type SessionEntries = Vec<SessionEntry>;

/// Name of a session.
pub type Name = TerminalName;

/// Data-plane socket of a session.
pub type DataSocketPath = WirePath;

/// Path of the ordinary terminal control socket.
pub type TerminalSocketPath = WirePath;

/// Permission bits of the ordinary terminal control socket.
pub type TerminalSocketMode = SocketMode;

/// Path of the meta terminal control socket.
pub type MetaTerminalSocketPath = WirePath;

/// Permission bits of the meta terminal control socket.
pub type MetaTerminalSocketMode = SocketMode;

/// Path of the supervision socket.
pub type SupervisionSocketPath = WirePath;

/// Permission bits of the supervision socket.
pub type SupervisionSocketMode = SocketMode;

/// Path of the terminal daemon's store.
pub type StorePath = WirePath;

/// Identity that owns the terminal daemon's sockets.
#[derive(Clone, Debug, PartialEq, Eq)]
pub enum OwnerIdentity {
    UnixUser(UnixUserIdentifier),
    System(SystemPrincipal),
}

/// Why a viewer detached from a terminal.
#[derive(Clone, Copy, Debug, PartialEq, Eq, Hash)]
pub enum TerminalDetachmentReason {
    HumanRequested,
    HarnessStopped,
    ViewerReplaced,
}

/// Why the daemon rejected a transport request.
#[derive(Clone, Copy, Debug, PartialEq, Eq, Hash)]
pub enum TerminalRejectionReason {
    NotConnected,
    InputRejected,
    ResizeRejected,
    CaptureRejected,
    TransportFailed,
}

/// Why the daemon rejected a write injection. `UnknownTerminal` and
/// `UnknownLease` are positive rejections of ids that are not in the daemon's
/// state.
#[derive(Clone, Copy, Debug, PartialEq, Eq, Hash)]
pub enum InjectionRejectionReason {
    UnknownTerminal,
    UnknownLease,
    GateNotHeld,
    DirtyPrompt,
    TransportFailed,
}

/// How a terminal child process ended.
#[derive(Clone, Debug, PartialEq, Eq)]
pub enum TerminalExitStatus {
    Exited(ExitCode),
    Signaled(TerminalSignalNumber),
    StatusUnavailable,
}

/// Shape that marks a terminal as ready for injected input.
#[derive(Clone, Debug, PartialEq, Eq)]
pub enum PromptPattern {
    LiteralSuffix(PromptPatternBytes),
    RegexSuffix(PromptPatternBytes),
}

/// State of the prompt when the input gate was acquired.
#[derive(Clone, Debug, PartialEq, Eq)]
pub enum PromptState {
    NotChecked,
    Clean,
    Dirty(TerminalByteCount),
}

/// Exclusive write lease on a terminal's input gate.
#[derive(Clone, Debug, PartialEq, Eq)]
pub struct InputGateLease {
    pub input_gate_lease_identifier: InputGateLeaseIdentifier,
}

/// Kind of a worker inside the terminal daemon.
#[derive(Clone, Copy, Debug, PartialEq, Eq, Hash)]
pub enum TerminalWorkerKind {
    InputWriter,
    ViewerFanout,
    TranscriptScriber,
    OutputReader,
    ChildExitWatcher,
    SocketAcceptLoop,
    AttachConnectionPump,
}

/// Why a terminal worker stopped.
#[derive(Clone, Debug, PartialEq, Eq)]
pub enum TerminalWorkerStopReason {
    InputCommandChannelClosed,
    InputWriteFailed(WorkerFailureDetail),
    OutputCommandChannelClosed,
    TranscriptNoticeChannelClosed,
    OutputReaderFinished,
    OutputReadFailed(WorkerFailureDetail),
    OutputPortClosed,
    ChildExited(WorkerFailureDetail),
    ChildWaitFailed(WorkerFailureDetail),
    SocketAcceptFailed(WorkerFailureDetail),
    AttachConnectionClosed,
    AttachConnectionFailed(WorkerFailureDetail),
}

/// A terminal worker together with the reason it stopped.
#[derive(Clone, Debug, PartialEq, Eq)]
pub struct TerminalWorkerStop {
    pub terminal_worker_kind: TerminalWorkerKind,
    pub terminal_worker_stop_reason: TerminalWorkerStopReason,
}

/// One observation of a terminal worker's lifecycle.
#[derive(Clone, Debug, PartialEq, Eq)]
pub enum TerminalWorkerLifecycle {
    Started(TerminalWorkerKind),
    Stopped(TerminalWorkerStop),
}

/// Contract-local operation head of each request variant.
#[derive(Clone, Copy, Debug, PartialEq, Eq, Hash)]
pub enum TerminalOperationKind {
    TerminalConnection,
    TerminalInput,
    TerminalResize,
    TerminalDetachment,
    TerminalCapture,
    RegisterPromptPattern,
    UnregisterPromptPattern,
    ListPromptPatterns,
    AcquireInputGate,
    ReleaseInputGate,
    WriteInjection,
    SubscribeTerminalWorkerLifecycle,
    TerminalWorkerLifecycleRetraction,
    ListSessions,
    ResolveSession,
}

/// Asks the daemon to connect to a terminal.
#[derive(Clone, Debug, PartialEq, Eq)]
pub struct TerminalConnectionRequest {
    pub terminal: Terminal,
}

/// Sends input bytes to a terminal.
#[derive(Clone, Debug, PartialEq, Eq)]
pub struct TerminalInputRequest {
    pub terminal: Terminal,
    pub input_bytes: InputBytes,
}

/// Asks the daemon to resize a terminal.
#[derive(Clone, Debug, PartialEq, Eq)]
pub struct TerminalResizeRequest {
    pub terminal: Terminal,
    pub rows: Rows,
    pub columns: Columns,
}

/// Asks the daemon to detach from a terminal.
#[derive(Clone, Debug, PartialEq, Eq)]
pub struct TerminalDetachmentRequest {
    pub terminal: Terminal,
    pub terminal_detachment_reason: TerminalDetachmentReason,
}

/// Asks the daemon to capture a terminal's transcript.
#[derive(Clone, Debug, PartialEq, Eq)]
pub struct TerminalCaptureRequest {
    pub terminal: Terminal,
}

/// Registers a prompt pattern for a terminal.
#[derive(Clone, Debug, PartialEq, Eq)]
pub struct RegisterPromptPatternRequest {
    pub terminal: Terminal,
    pub pattern: Pattern,
}

/// Removes a registered prompt pattern.
#[derive(Clone, Debug, PartialEq, Eq)]
pub struct UnregisterPromptPatternRequest {
    pub terminal: Terminal,
    pub pattern_identifier: PatternIdentifier,
}

/// Lists the prompt patterns registered for a terminal.
#[derive(Clone, Debug, PartialEq, Eq)]
pub struct ListPromptPatternsRequest {
    pub terminal: Terminal,
}

/// Asks for the exclusive input-gate lease of a terminal.
#[derive(Clone, Debug, PartialEq, Eq)]
pub struct AcquireInputGateRequest {
    pub terminal: Terminal,
    pub input_gate_reason: InputGateReason,
    pub prompt_pattern_identifier_selection: PromptPatternIdentifierSelection,
}

/// Gives an input-gate lease back.
#[derive(Clone, Debug, PartialEq, Eq)]
pub struct ReleaseInputGateRequest {
    pub terminal: Terminal,
    pub lease: Lease,
}

/// Writes bytes into a terminal under a held lease.
#[derive(Clone, Debug, PartialEq, Eq)]
pub struct WriteInjectionRequest {
    pub terminal: Terminal,
    pub lease: Lease,
    pub input_bytes: InputBytes,
}

/// Opens the worker-lifecycle stream of a terminal.
#[derive(Clone, Debug, PartialEq, Eq)]
pub struct SubscribeTerminalWorkerLifecycleRequest {
    pub terminal: Terminal,
}

/// Per-stream token of a worker-lifecycle subscription. A request-side
/// retraction carries it and the reply-side acknowledgement echoes it.
#[derive(Clone, Debug, PartialEq, Eq)]
pub struct TerminalWorkerLifecycleToken {
    pub terminal: Terminal,
}

/// Reads the session registry.
#[derive(Clone, Debug, PartialEq, Eq)]
pub struct ListSessionsRequest {}

/// Resolves one session of the registry by name.
#[derive(Clone, Debug, PartialEq, Eq)]
pub struct ResolveSessionRequest {
    pub name: Name,
}

/// The terminal is connected and ready.
#[derive(Clone, Debug, PartialEq, Eq)]
pub struct TerminalReadyReply {
    pub terminal: Terminal,
    pub generation: Generation,
}

/// The terminal accepted the input.
#[derive(Clone, Debug, PartialEq, Eq)]
pub struct TerminalInputAcceptedReply {
    pub terminal: Terminal,
    pub generation: Generation,
}

/// New transcript bytes of a terminal.
#[derive(Clone, Debug, PartialEq, Eq)]
pub struct TranscriptDeltaReply {
    pub terminal: Terminal,
    pub sequence: Sequence,
    pub transcript_bytes: TranscriptBytes,
}

/// The terminal now has the given size.
#[derive(Clone, Debug, PartialEq, Eq)]
pub struct TerminalResizedReply {
    pub terminal: Terminal,
    pub rows: Rows,
    pub columns: Columns,
    pub generation: Generation,
}

/// Captured transcript of a terminal.
#[derive(Clone, Debug, PartialEq, Eq)]
pub struct TerminalCapturedReply {
    pub terminal: Terminal,
    pub generation: Generation,
    pub transcript_bytes: TranscriptBytes,
}

/// A viewer detached from the terminal.
#[derive(Clone, Debug, PartialEq, Eq)]
pub struct TerminalDetachedReply {
    pub terminal: Terminal,
    pub generation: Generation,
    pub terminal_detachment_reason: TerminalDetachmentReason,
}

/// The terminal's child process ended.
#[derive(Clone, Debug, PartialEq, Eq)]
pub struct TerminalExitedReply {
    pub terminal: Terminal,
    pub generation: Generation,
    pub terminal_exit_status: TerminalExitStatus,
}

/// The daemon rejected a transport request.
#[derive(Clone, Debug, PartialEq, Eq)]
pub struct TerminalRejectedReply {
    pub terminal: Terminal,
    pub terminal_rejection_reason: TerminalRejectionReason,
}

/// A prompt pattern was registered.
#[derive(Clone, Debug, PartialEq, Eq)]
pub struct PromptPatternRegisteredReply {
    pub terminal: Terminal,
    pub pattern_identifier: PatternIdentifier,
}

/// A prompt pattern was removed.
#[derive(Clone, Debug, PartialEq, Eq)]
pub struct PromptPatternUnregisteredReply {
    pub terminal: Terminal,
    pub pattern_identifier: PatternIdentifier,
}

/// One registered prompt pattern.
#[derive(Clone, Debug, PartialEq, Eq)]
pub struct PromptPatternEntry {
    pub pattern_identifier: PatternIdentifier,
    pub pattern: Pattern,
}

/// The prompt patterns registered for a terminal.
#[derive(Clone, Debug, PartialEq, Eq)]
pub struct PromptPatternListReply {
    pub terminal: Terminal,
    pub entries: Entries,
}

/// The input gate was acquired under the given lease.
#[derive(Clone, Debug, PartialEq, Eq)]
pub struct GateAcquiredReply {
    pub terminal: Terminal,
    pub lease: Lease,
    pub prompt_state: PromptState,
}

/// The input gate is held by another lease.
#[derive(Clone, Debug, PartialEq, Eq)]
pub struct GateBusyReply {
    pub terminal: Terminal,
    pub current_holder: CurrentHolder,
}

/// The input gate was released.
#[derive(Clone, Debug, PartialEq, Eq)]
pub struct GateReleasedReply {
    pub terminal: Terminal,
    pub lease: Lease,
    pub cached_human_bytes: CachedHumanBytes,
}

/// The daemon accepted a write injection and minted its generation and sequence.
#[derive(Clone, Debug, PartialEq, Eq)]
pub struct InjectionAckReply {
    pub terminal: Terminal,
    pub generation: Generation,
    pub sequence: Sequence,
}

/// The daemon rejected a write injection.
#[derive(Clone, Debug, PartialEq, Eq)]
pub struct InjectionRejectedReply {
    pub terminal: Terminal,
    pub injection_rejection_reason: InjectionRejectionReason,
}

/// Snapshot of worker-lifecycle observations that opens a subscription.
#[derive(Clone, Debug, PartialEq, Eq)]
pub struct TerminalWorkerLifecycleSnapshotReply {
    pub terminal: Terminal,
    pub observations: Observations,
}

/// One pushed worker-lifecycle observation.
#[derive(Clone, Debug, PartialEq, Eq)]
pub struct TerminalWorkerLifecycleEventPayload {
    pub terminal: Terminal,
    pub observation: Observation,
}

/// Acknowledgement that closes a worker-lifecycle subscription, echoing its token.
#[derive(Clone, Debug, PartialEq, Eq)]
pub struct SubscriptionRetractedReply {
    pub token: Token,
}

/// One session of the registry.
#[derive(Clone, Debug, PartialEq, Eq)]
pub struct SessionEntry {
    pub name: Name,
    pub data_socket_path: DataSocketPath,
}

/// All sessions of the registry.
#[derive(Clone, Debug, PartialEq, Eq)]
pub struct SessionListReply {
    pub session_entries: SessionEntries,
}

/// The session that a name resolved to.
#[derive(Clone, Debug, PartialEq, Eq)]
pub struct SessionResolvedReply {
    pub name: Name,
    pub data_socket_path: DataSocketPath,
}

/// Event pushed on the worker-lifecycle stream.
#[derive(Clone, Debug, PartialEq, Eq)]
pub enum TerminalEvent {
    TerminalWorkerLifecycleEvent(TerminalWorkerLifecycleEventPayload),
}

/// Launch configuration of the terminal daemon.
#[derive(Clone, Debug, PartialEq, Eq)]
pub struct TerminalDaemonConfiguration {
    pub terminal_socket_path: TerminalSocketPath,
    pub terminal_socket_mode: TerminalSocketMode,
    pub meta_terminal_socket_path: MetaTerminalSocketPath,
    pub meta_terminal_socket_mode: MetaTerminalSocketMode,
    pub supervision_socket_path: SupervisionSocketPath,
    pub supervision_socket_mode: SupervisionSocketMode,
    pub store_path: StorePath,
    pub owner_identity: OwnerIdentity,
}

/// Every request of the ordinary terminal contract.
#[derive(Clone, Debug, PartialEq, Eq)]
pub enum Query {
    TerminalConnection(TerminalConnectionRequest),
    TerminalInput(TerminalInputRequest),
    TerminalResize(TerminalResizeRequest),
    TerminalDetachment(TerminalDetachmentRequest),
    TerminalCapture(TerminalCaptureRequest),
    RegisterPromptPattern(RegisterPromptPatternRequest),
    UnregisterPromptPattern(UnregisterPromptPatternRequest),
    ListPromptPatterns(ListPromptPatternsRequest),
    AcquireInputGate(AcquireInputGateRequest),
    ReleaseInputGate(ReleaseInputGateRequest),
    WriteInjection(WriteInjectionRequest),
    SubscribeTerminalWorkerLifecycle(SubscribeTerminalWorkerLifecycleRequest),
    TerminalWorkerLifecycleRetraction(TerminalWorkerLifecycleToken),
    ListSessions(ListSessionsRequest),
    ResolveSession(ResolveSessionRequest),
}

/// Every reply of the ordinary terminal contract, plus pushed events.
#[derive(Clone, Debug, PartialEq, Eq)]
pub enum Response {
    TerminalReady(TerminalReadyReply),
    TerminalInputAccepted(TerminalInputAcceptedReply),
    TranscriptDelta(TranscriptDeltaReply),
    TerminalResized(TerminalResizedReply),
    TerminalCaptured(TerminalCapturedReply),
    TerminalDetached(TerminalDetachedReply),
    TerminalExited(TerminalExitedReply),
    TerminalRejected(TerminalRejectedReply),
    PromptPatternRegistered(PromptPatternRegisteredReply),
    PromptPatternUnregistered(PromptPatternUnregisteredReply),
    PromptPatternList(PromptPatternListReply),
    GateAcquired(GateAcquiredReply),
    GateBusy(GateBusyReply),
    GateReleased(GateReleasedReply),
    InjectionAck(InjectionAckReply),
    InjectionRejected(InjectionRejectedReply),
    TerminalWorkerLifecycleSnapshot(TerminalWorkerLifecycleSnapshotReply),
    SubscriptionRetracted(SubscriptionRetractedReply),
    SessionList(SessionListReply),
    SessionResolved(SessionResolvedReply),
    Event(TerminalEvent),
}

/// Name under which the requests of this contract travel.
pub type Input = Query;

/// Name under which the replies and events of this contract travel.
pub type Output = Response;

/// The operation head that a request declares: each request variant names the
/// operation kind of the same name.
pub open spec fn operation_kind_of(request: Query) -> TerminalOperationKind {
    match request {
        Query::TerminalConnection(_) => TerminalOperationKind::TerminalConnection,
        Query::TerminalInput(_) => TerminalOperationKind::TerminalInput,
        Query::TerminalResize(_) => TerminalOperationKind::TerminalResize,
        Query::TerminalDetachment(_) => TerminalOperationKind::TerminalDetachment,
        Query::TerminalCapture(_) => TerminalOperationKind::TerminalCapture,
        Query::RegisterPromptPattern(_) => TerminalOperationKind::RegisterPromptPattern,
        Query::UnregisterPromptPattern(_) => TerminalOperationKind::UnregisterPromptPattern,
        Query::ListPromptPatterns(_) => TerminalOperationKind::ListPromptPatterns,
        Query::AcquireInputGate(_) => TerminalOperationKind::AcquireInputGate,
        Query::ReleaseInputGate(_) => TerminalOperationKind::ReleaseInputGate,
        Query::WriteInjection(_) => TerminalOperationKind::WriteInjection,
        Query::SubscribeTerminalWorkerLifecycle(_) => {
            TerminalOperationKind::SubscribeTerminalWorkerLifecycle
        },
        Query::TerminalWorkerLifecycleRetraction(_) => {
            TerminalOperationKind::TerminalWorkerLifecycleRetraction
        },
        Query::ListSessions(_) => TerminalOperationKind::ListSessions,
        Query::ResolveSession(_) => TerminalOperationKind::ResolveSession,
    }
}

impl Input {
    /// The contract-owned operation kind of this request.
    pub fn operation_kind(&self) -> (kind: TerminalOperationKind)
        ensures
            kind == operation_kind_of(*self),
    {
        match self {
            Self::TerminalConnection(_) => TerminalOperationKind::TerminalConnection,
            Self::TerminalInput(_) => TerminalOperationKind::TerminalInput,
            Self::TerminalResize(_) => TerminalOperationKind::TerminalResize,
            Self::TerminalDetachment(_) => TerminalOperationKind::TerminalDetachment,
            Self::TerminalCapture(_) => TerminalOperationKind::TerminalCapture,
            Self::RegisterPromptPattern(_) => TerminalOperationKind::RegisterPromptPattern,
            Self::UnregisterPromptPattern(_) => TerminalOperationKind::UnregisterPromptPattern,
            Self::ListPromptPatterns(_) => TerminalOperationKind::ListPromptPatterns,
            Self::AcquireInputGate(_) => TerminalOperationKind::AcquireInputGate,
            Self::ReleaseInputGate(_) => TerminalOperationKind::ReleaseInputGate,
            Self::WriteInjection(_) => TerminalOperationKind::WriteInjection,
            Self::SubscribeTerminalWorkerLifecycle(_) => {
                TerminalOperationKind::SubscribeTerminalWorkerLifecycle
            },
            Self::TerminalWorkerLifecycleRetraction(_) => {
                TerminalOperationKind::TerminalWorkerLifecycleRetraction
            },
            Self::ListSessions(_) => TerminalOperationKind::ListSessions,
            Self::ResolveSession(_) => TerminalOperationKind::ResolveSession,
        }
    }
}

/// Every operation kind is the head of some request: no kind is left without a
/// request variant.
pub proof fn lemma_every_operation_kind_has_a_request(kind: TerminalOperationKind)
    ensures
        exists|request: Query| operation_kind_of(request) == kind,
{
    match kind {
        TerminalOperationKind::TerminalConnection => {
            let request = Query::TerminalConnection(arbitrary());
            assert(operation_kind_of(request) == kind);
        },
        TerminalOperationKind::TerminalInput => {
            let request = Query::TerminalInput(arbitrary());
            assert(operation_kind_of(request) == kind);
        },
        TerminalOperationKind::TerminalResize => {
            let request = Query::TerminalResize(arbitrary());
            assert(operation_kind_of(request) == kind);
        },
        TerminalOperationKind::TerminalDetachment => {
            let request = Query::TerminalDetachment(arbitrary());
            assert(operation_kind_of(request) == kind);
        },
        TerminalOperationKind::TerminalCapture => {
            let request = Query::TerminalCapture(arbitrary());
            assert(operation_kind_of(request) == kind);
        },
        TerminalOperationKind::RegisterPromptPattern => {
            let request = Query::RegisterPromptPattern(arbitrary());
            assert(operation_kind_of(request) == kind);
        },
        TerminalOperationKind::UnregisterPromptPattern => {
            let request = Query::UnregisterPromptPattern(arbitrary());
            assert(operation_kind_of(request) == kind);
        },
        TerminalOperationKind::ListPromptPatterns => {
            let request = Query::ListPromptPatterns(arbitrary());
            assert(operation_kind_of(request) == kind);
        },
        TerminalOperationKind::AcquireInputGate => {
            let request = Query::AcquireInputGate(arbitrary());
            assert(operation_kind_of(request) == kind);
        },
        TerminalOperationKind::ReleaseInputGate => {
            let request = Query::ReleaseInputGate(arbitrary());
            assert(operation_kind_of(request) == kind);
        },
        TerminalOperationKind::WriteInjection => {
            let request = Query::WriteInjection(arbitrary());
            assert(operation_kind_of(request) == kind);
        },
        TerminalOperationKind::SubscribeTerminalWorkerLifecycle => {
            let request = Query::SubscribeTerminalWorkerLifecycle(arbitrary());
            assert(operation_kind_of(request) == kind);
        },
        TerminalOperationKind::TerminalWorkerLifecycleRetraction => {
            let request = Query::TerminalWorkerLifecycleRetraction(arbitrary());
            assert(operation_kind_of(request) == kind);
        },
        TerminalOperationKind::ListSessions => {
            let request = Query::ListSessions(arbitrary());
            assert(operation_kind_of(request) == kind);
        },
        TerminalOperationKind::ResolveSession => {
            let request = Query::ResolveSession(arbitrary());
            assert(operation_kind_of(request) == kind);
        },
    }
}

/// The operation kind of a request determines its variant: two requests with
/// the same kind are built by the same constructor.
pub proof fn lemma_operation_kind_determines_variant(a: Query, b: Query)
    requires
        operation_kind_of(a) == operation_kind_of(b),
    ensures
        a is TerminalConnection <==> b is TerminalConnection,
        a is TerminalInput <==> b is TerminalInput,
        a is TerminalResize <==> b is TerminalResize,
        a is TerminalDetachment <==> b is TerminalDetachment,
        a is TerminalCapture <==> b is TerminalCapture,
        a is RegisterPromptPattern <==> b is RegisterPromptPattern,
        a is UnregisterPromptPattern <==> b is UnregisterPromptPattern,
        a is ListPromptPatterns <==> b is ListPromptPatterns,
        a is AcquireInputGate <==> b is AcquireInputGate,
        a is ReleaseInputGate <==> b is ReleaseInputGate,
        a is WriteInjection <==> b is WriteInjection,
        a is SubscribeTerminalWorkerLifecycle <==> b is SubscribeTerminalWorkerLifecycle,
        a is TerminalWorkerLifecycleRetraction <==> b is TerminalWorkerLifecycleRetraction,
        a is ListSessions <==> b is ListSessions,
        a is ResolveSession <==> b is ResolveSession,
{
}


// Laws on lifting payloads into the request and reply roots, by concern group.

/// Terminal transport control: connect, input, resize, detach and capture requests lift into
/// requests of their own operation, and the transport replies lift into replies of their own
/// kind, each carrying its payload unchanged.
pub proof fn lemma_transport_lifts(
    terminal_connection_request: TerminalConnectionRequest,
    terminal_input_request: TerminalInputRequest,
    terminal_resize_request: TerminalResizeRequest,
    terminal_detachment_request: TerminalDetachmentRequest,
    terminal_capture_request: TerminalCaptureRequest,
    terminal_ready_reply: TerminalReadyReply,
    terminal_input_accepted_reply: TerminalInputAcceptedReply,
    transcript_delta_reply: TranscriptDeltaReply,
    terminal_resized_reply: TerminalResizedReply,
    terminal_captured_reply: TerminalCapturedReply,
    terminal_detached_reply: TerminalDetachedReply,
    terminal_exited_reply: TerminalExitedReply,
    terminal_rejected_reply: TerminalRejectedReply,
)
    ensures
        operation_kind_of(<Query as FromSpec<TerminalConnectionRequest>>::from_spec(terminal_connection_request)) == TerminalOperationKind::TerminalConnection,
        <Query as FromSpec<TerminalConnectionRequest>>::from_spec(terminal_connection_request) matches Query::TerminalConnection(carried) && carried == terminal_connection_request,
        operation_kind_of(<Query as FromSpec<TerminalInputRequest>>::from_spec(terminal_input_request)) == TerminalOperationKind::TerminalInput,
        <Query as FromSpec<TerminalInputRequest>>::from_spec(terminal_input_request) matches Query::TerminalInput(carried) && carried == terminal_input_request,
        operation_kind_of(<Query as FromSpec<TerminalResizeRequest>>::from_spec(terminal_resize_request)) == TerminalOperationKind::TerminalResize,
        <Query as FromSpec<TerminalResizeRequest>>::from_spec(terminal_resize_request) matches Query::TerminalResize(carried) && carried == terminal_resize_request,
        operation_kind_of(<Query as FromSpec<TerminalDetachmentRequest>>::from_spec(terminal_detachment_request)) == TerminalOperationKind::TerminalDetachment,
        <Query as FromSpec<TerminalDetachmentRequest>>::from_spec(terminal_detachment_request) matches Query::TerminalDetachment(carried) && carried == terminal_detachment_request,
        operation_kind_of(<Query as FromSpec<TerminalCaptureRequest>>::from_spec(terminal_capture_request)) == TerminalOperationKind::TerminalCapture,
        <Query as FromSpec<TerminalCaptureRequest>>::from_spec(terminal_capture_request) matches Query::TerminalCapture(carried) && carried == terminal_capture_request,
        <Response as FromSpec<TerminalReadyReply>>::from_spec(terminal_ready_reply) matches Response::TerminalReady(carried) && carried == terminal_ready_reply,
        <Response as FromSpec<TerminalInputAcceptedReply>>::from_spec(terminal_input_accepted_reply) matches Response::TerminalInputAccepted(carried) && carried == terminal_input_accepted_reply,
        <Response as FromSpec<TranscriptDeltaReply>>::from_spec(transcript_delta_reply) matches Response::TranscriptDelta(carried) && carried == transcript_delta_reply,
        <Response as FromSpec<TerminalResizedReply>>::from_spec(terminal_resized_reply) matches Response::TerminalResized(carried) && carried == terminal_resized_reply,
        <Response as FromSpec<TerminalCapturedReply>>::from_spec(terminal_captured_reply) matches Response::TerminalCaptured(carried) && carried == terminal_captured_reply,
        <Response as FromSpec<TerminalDetachedReply>>::from_spec(terminal_detached_reply) matches Response::TerminalDetached(carried) && carried == terminal_detached_reply,
        <Response as FromSpec<TerminalExitedReply>>::from_spec(terminal_exited_reply) matches Response::TerminalExited(carried) && carried == terminal_exited_reply,
        <Response as FromSpec<TerminalRejectedReply>>::from_spec(terminal_rejected_reply) matches Response::TerminalRejected(carried) && carried == terminal_rejected_reply,
{
}

/// Prompt-pattern registry: register, unregister and list requests lift into requests of their
/// own operation, and a registration, a removal and a listing lift into replies of their own
/// kind, each carrying its payload unchanged; a registration is never reported as a removal.
pub proof fn lemma_prompt_registry_lifts(
    register_prompt_pattern_request: RegisterPromptPatternRequest,
    unregister_prompt_pattern_request: UnregisterPromptPatternRequest,
    list_prompt_patterns_request: ListPromptPatternsRequest,
    prompt_pattern_registered_reply: PromptPatternRegisteredReply,
    prompt_pattern_unregistered_reply: PromptPatternUnregisteredReply,
    prompt_pattern_list_reply: PromptPatternListReply,
)
    ensures
        operation_kind_of(<Query as FromSpec<RegisterPromptPatternRequest>>::from_spec(register_prompt_pattern_request)) == TerminalOperationKind::RegisterPromptPattern,
        <Query as FromSpec<RegisterPromptPatternRequest>>::from_spec(register_prompt_pattern_request) matches Query::RegisterPromptPattern(carried) && carried == register_prompt_pattern_request,
        operation_kind_of(<Query as FromSpec<UnregisterPromptPatternRequest>>::from_spec(unregister_prompt_pattern_request)) == TerminalOperationKind::UnregisterPromptPattern,
        <Query as FromSpec<UnregisterPromptPatternRequest>>::from_spec(unregister_prompt_pattern_request) matches Query::UnregisterPromptPattern(carried) && carried == unregister_prompt_pattern_request,
        operation_kind_of(<Query as FromSpec<ListPromptPatternsRequest>>::from_spec(list_prompt_patterns_request)) == TerminalOperationKind::ListPromptPatterns,
        <Query as FromSpec<ListPromptPatternsRequest>>::from_spec(list_prompt_patterns_request) matches Query::ListPromptPatterns(carried) && carried == list_prompt_patterns_request,
        <Response as FromSpec<PromptPatternRegisteredReply>>::from_spec(prompt_pattern_registered_reply) matches Response::PromptPatternRegistered(carried) && carried == prompt_pattern_registered_reply,
        <Response as FromSpec<PromptPatternUnregisteredReply>>::from_spec(prompt_pattern_unregistered_reply) matches Response::PromptPatternUnregistered(carried) && carried == prompt_pattern_unregistered_reply,
        <Response as FromSpec<PromptPatternListReply>>::from_spec(prompt_pattern_list_reply) matches Response::PromptPatternList(carried) && carried == prompt_pattern_list_reply,
        !(<Response as FromSpec<PromptPatternRegisteredReply>>::from_spec(prompt_pattern_registered_reply) is PromptPatternUnregistered),
{
}

/// Input-gate leases and write injection: acquire, release and inject requests lift into
/// requests of their own operation, and the input-gate and injection replies lift into
/// replies of their own kind, each carrying its payload unchanged; a busy input gate is never
/// reported as acquired, nor an acquisition as busy.
pub proof fn lemma_input_gate_lifts(
    acquire_input_gate_request: AcquireInputGateRequest,
    release_input_gate_request: ReleaseInputGateRequest,
    write_injection_request: WriteInjectionRequest,
    gate_acquired_reply: GateAcquiredReply,
    gate_busy_reply: GateBusyReply,
    gate_released_reply: GateReleasedReply,
    injection_ack_reply: InjectionAckReply,
    injection_rejected_reply: InjectionRejectedReply,
)
    ensures
        operation_kind_of(<Query as FromSpec<AcquireInputGateRequest>>::from_spec(acquire_input_gate_request)) == TerminalOperationKind::AcquireInputGate,
        <Query as FromSpec<AcquireInputGateRequest>>::from_spec(acquire_input_gate_request) matches Query::AcquireInputGate(carried) && carried == acquire_input_gate_request,
        operation_kind_of(<Query as FromSpec<ReleaseInputGateRequest>>::from_spec(release_input_gate_request)) == TerminalOperationKind::ReleaseInputGate,
        <Query as FromSpec<ReleaseInputGateRequest>>::from_spec(release_input_gate_request) matches Query::ReleaseInputGate(carried) && carried == release_input_gate_request,
        operation_kind_of(<Query as FromSpec<WriteInjectionRequest>>::from_spec(write_injection_request)) == TerminalOperationKind::WriteInjection,
        <Query as FromSpec<WriteInjectionRequest>>::from_spec(write_injection_request) matches Query::WriteInjection(carried) && carried == write_injection_request,
        <Response as FromSpec<GateAcquiredReply>>::from_spec(gate_acquired_reply) matches Response::GateAcquired(carried) && carried == gate_acquired_reply,
        <Response as FromSpec<GateBusyReply>>::from_spec(gate_busy_reply) matches Response::GateBusy(carried) && carried == gate_busy_reply,
        <Response as FromSpec<GateReleasedReply>>::from_spec(gate_released_reply) matches Response::GateReleased(carried) && carried == gate_released_reply,
        <Response as FromSpec<InjectionAckReply>>::from_spec(injection_ack_reply) matches Response::InjectionAck(carried) && carried == injection_ack_reply,
        <Response as FromSpec<InjectionRejectedReply>>::from_spec(injection_rejected_reply) matches Response::InjectionRejected(carried) && carried == injection_rejected_reply,
        !(<Response as FromSpec<GateBusyReply>>::from_spec(gate_busy_reply) is GateAcquired),
        !(<Response as FromSpec<GateAcquiredReply>>::from_spec(gate_acquired_reply) is GateBusy),
{
}

/// Worker-lifecycle subscription: the subscribe request and the retraction token lift into two
/// different requests of their own operation, the snapshot and the retraction acknowledgement
/// lift into replies of their own kind, and a worker observation lifts into an event that the
/// reply root pushes as `Event`; each carries its payload unchanged.
pub proof fn lemma_worker_lifecycle_lifts(
    subscribe_terminal_worker_lifecycle_request: SubscribeTerminalWorkerLifecycleRequest,
    terminal_worker_lifecycle_retraction_request: TerminalWorkerLifecycleToken,
    terminal_worker_lifecycle_snapshot_reply: TerminalWorkerLifecycleSnapshotReply,
    subscription_retracted_reply: SubscriptionRetractedReply,
    observation: TerminalWorkerLifecycleEventPayload,
)
    ensures
        operation_kind_of(<Query as FromSpec<SubscribeTerminalWorkerLifecycleRequest>>::from_spec(subscribe_terminal_worker_lifecycle_request)) == TerminalOperationKind::SubscribeTerminalWorkerLifecycle,
        <Query as FromSpec<SubscribeTerminalWorkerLifecycleRequest>>::from_spec(subscribe_terminal_worker_lifecycle_request) matches Query::SubscribeTerminalWorkerLifecycle(carried) && carried == subscribe_terminal_worker_lifecycle_request,
        operation_kind_of(<Query as FromSpec<TerminalWorkerLifecycleToken>>::from_spec(terminal_worker_lifecycle_retraction_request)) == TerminalOperationKind::TerminalWorkerLifecycleRetraction,
        <Query as FromSpec<TerminalWorkerLifecycleToken>>::from_spec(terminal_worker_lifecycle_retraction_request) matches Query::TerminalWorkerLifecycleRetraction(carried) && carried == terminal_worker_lifecycle_retraction_request,
        <Response as FromSpec<TerminalWorkerLifecycleSnapshotReply>>::from_spec(terminal_worker_lifecycle_snapshot_reply) matches Response::TerminalWorkerLifecycleSnapshot(carried) && carried == terminal_worker_lifecycle_snapshot_reply,
        <Response as FromSpec<SubscriptionRetractedReply>>::from_spec(subscription_retracted_reply) matches Response::SubscriptionRetracted(carried) && carried == subscription_retracted_reply,
        <TerminalEvent as FromSpec<TerminalWorkerLifecycleEventPayload>>::from_spec(observation) matches TerminalEvent::TerminalWorkerLifecycleEvent(carried) && carried == observation,
        <Response as FromSpec<TerminalEvent>>::from_spec(<TerminalEvent as FromSpec<TerminalWorkerLifecycleEventPayload>>::from_spec(observation)) matches Response::Event(pushed)
            && pushed matches TerminalEvent::TerminalWorkerLifecycleEvent(carried) && carried == observation,
        operation_kind_of(<Query as FromSpec<SubscribeTerminalWorkerLifecycleRequest>>::from_spec(subscribe_terminal_worker_lifecycle_request))
            != operation_kind_of(<Query as FromSpec<TerminalWorkerLifecycleToken>>::from_spec(terminal_worker_lifecycle_retraction_request)),
{
}

/// Session discovery: list and resolve requests lift into requests of their own operation, the
/// resolved name carried unchanged, and the list and resolved replies lift into replies of
/// their own kind, each carrying its payload unchanged.
pub proof fn lemma_session_discovery_lifts(
    list_sessions_request: ListSessionsRequest,
    resolve_session_request: ResolveSessionRequest,
    session_list_reply: SessionListReply,
    session_resolved_reply: SessionResolvedReply,
)
    ensures
        operation_kind_of(<Query as FromSpec<ListSessionsRequest>>::from_spec(list_sessions_request)) == TerminalOperationKind::ListSessions,
        <Query as FromSpec<ListSessionsRequest>>::from_spec(list_sessions_request) matches Query::ListSessions(carried) && carried == list_sessions_request,
        operation_kind_of(<Query as FromSpec<ResolveSessionRequest>>::from_spec(resolve_session_request)) == TerminalOperationKind::ResolveSession,
        <Query as FromSpec<ResolveSessionRequest>>::from_spec(resolve_session_request) matches Query::ResolveSession(carried) && carried == resolve_session_request,
        <Response as FromSpec<SessionListReply>>::from_spec(session_list_reply) matches Response::SessionList(carried) && carried == session_list_reply,
        <Response as FromSpec<SessionResolvedReply>>::from_spec(session_resolved_reply) matches Response::SessionResolved(carried) && carried == session_resolved_reply,
{
}

// Each payload record lifts into the variant that carries it.

impl From<TerminalConnectionRequest> for Query {
    fn from(payload: TerminalConnectionRequest) -> (lifted: Self)
        ensures
            operation_kind_of(lifted) == TerminalOperationKind::TerminalConnection,
            lifted matches Query::TerminalConnection(carried) && carried == payload,
    {
        Query::TerminalConnection(payload)
    }
}

impl vstd::std_specs::convert::FromSpecImpl<TerminalConnectionRequest> for Query {
    open spec fn obeys_from_spec() -> bool {
        true
    }

    open spec fn from_spec(payload: TerminalConnectionRequest) -> Self {
        Query::TerminalConnection(payload)
    }
}

impl From<TerminalInputRequest> for Query {
    fn from(payload: TerminalInputRequest) -> (lifted: Self)
        ensures
            operation_kind_of(lifted) == TerminalOperationKind::TerminalInput,
            lifted matches Query::TerminalInput(carried) && carried == payload,
    {
        Query::TerminalInput(payload)
    }
}

impl vstd::std_specs::convert::FromSpecImpl<TerminalInputRequest> for Query {
    open spec fn obeys_from_spec() -> bool {
        true
    }

    open spec fn from_spec(payload: TerminalInputRequest) -> Self {
        Query::TerminalInput(payload)
    }
}

impl From<TerminalResizeRequest> for Query {
    fn from(payload: TerminalResizeRequest) -> (lifted: Self)
        ensures
            operation_kind_of(lifted) == TerminalOperationKind::TerminalResize,
            lifted matches Query::TerminalResize(carried) && carried == payload,
    {
        Query::TerminalResize(payload)
    }
}

impl vstd::std_specs::convert::FromSpecImpl<TerminalResizeRequest> for Query {
    open spec fn obeys_from_spec() -> bool {
        true
    }

    open spec fn from_spec(payload: TerminalResizeRequest) -> Self {
        Query::TerminalResize(payload)
    }
}

impl From<TerminalDetachmentRequest> for Query {
    fn from(payload: TerminalDetachmentRequest) -> (lifted: Self)
        ensures
            operation_kind_of(lifted) == TerminalOperationKind::TerminalDetachment,
            lifted matches Query::TerminalDetachment(carried) && carried == payload,
    {
        Query::TerminalDetachment(payload)
    }
}

impl vstd::std_specs::convert::FromSpecImpl<TerminalDetachmentRequest> for Query {
    open spec fn obeys_from_spec() -> bool {
        true
    }

    open spec fn from_spec(payload: TerminalDetachmentRequest) -> Self {
        Query::TerminalDetachment(payload)
    }
}

impl From<TerminalCaptureRequest> for Query {
    fn from(payload: TerminalCaptureRequest) -> (lifted: Self)
        ensures
            operation_kind_of(lifted) == TerminalOperationKind::TerminalCapture,
            lifted matches Query::TerminalCapture(carried) && carried == payload,
    {
        Query::TerminalCapture(payload)
    }
}

impl vstd::std_specs::convert::FromSpecImpl<TerminalCaptureRequest> for Query {
    open spec fn obeys_from_spec() -> bool {
        true
    }

    open spec fn from_spec(payload: TerminalCaptureRequest) -> Self {
        Query::TerminalCapture(payload)
    }
}

impl From<RegisterPromptPatternRequest> for Query {
    fn from(payload: RegisterPromptPatternRequest) -> (lifted: Self)
        ensures
            operation_kind_of(lifted) == TerminalOperationKind::RegisterPromptPattern,
            lifted matches Query::RegisterPromptPattern(carried) && carried == payload,
    {
        Query::RegisterPromptPattern(payload)
    }
}

impl vstd::std_specs::convert::FromSpecImpl<RegisterPromptPatternRequest> for Query {
    open spec fn obeys_from_spec() -> bool {
        true
    }

    open spec fn from_spec(payload: RegisterPromptPatternRequest) -> Self {
        Query::RegisterPromptPattern(payload)
    }
}

impl From<UnregisterPromptPatternRequest> for Query {
    fn from(payload: UnregisterPromptPatternRequest) -> (lifted: Self)
        ensures
            operation_kind_of(lifted) == TerminalOperationKind::UnregisterPromptPattern,
            lifted matches Query::UnregisterPromptPattern(carried) && carried == payload,
    {
        Query::UnregisterPromptPattern(payload)
    }
}

impl vstd::std_specs::convert::FromSpecImpl<UnregisterPromptPatternRequest> for Query {
    open spec fn obeys_from_spec() -> bool {
        true
    }

    open spec fn from_spec(payload: UnregisterPromptPatternRequest) -> Self {
        Query::UnregisterPromptPattern(payload)
    }
}

impl From<ListPromptPatternsRequest> for Query {
    fn from(payload: ListPromptPatternsRequest) -> (lifted: Self)
        ensures
            operation_kind_of(lifted) == TerminalOperationKind::ListPromptPatterns,
            lifted matches Query::ListPromptPatterns(carried) && carried == payload,
    {
        Query::ListPromptPatterns(payload)
    }
}

impl vstd::std_specs::convert::FromSpecImpl<ListPromptPatternsRequest> for Query {
    open spec fn obeys_from_spec() -> bool {
        true
    }

    open spec fn from_spec(payload: ListPromptPatternsRequest) -> Self {
        Query::ListPromptPatterns(payload)
    }
}

impl From<AcquireInputGateRequest> for Query {
    fn from(payload: AcquireInputGateRequest) -> (lifted: Self)
        ensures
            operation_kind_of(lifted) == TerminalOperationKind::AcquireInputGate,
            lifted matches Query::AcquireInputGate(carried) && carried == payload,
    {
        Query::AcquireInputGate(payload)
    }
}

impl vstd::std_specs::convert::FromSpecImpl<AcquireInputGateRequest> for Query {
    open spec fn obeys_from_spec() -> bool {
        true
    }

    open spec fn from_spec(payload: AcquireInputGateRequest) -> Self {
        Query::AcquireInputGate(payload)
    }
}

impl From<ReleaseInputGateRequest> for Query {
    fn from(payload: ReleaseInputGateRequest) -> (lifted: Self)
        ensures
            operation_kind_of(lifted) == TerminalOperationKind::ReleaseInputGate,
            lifted matches Query::ReleaseInputGate(carried) && carried == payload,
    {
        Query::ReleaseInputGate(payload)
    }
}

impl vstd::std_specs::convert::FromSpecImpl<ReleaseInputGateRequest> for Query {
    open spec fn obeys_from_spec() -> bool {
        true
    }

    open spec fn from_spec(payload: ReleaseInputGateRequest) -> Self {
        Query::ReleaseInputGate(payload)
    }
}

impl From<WriteInjectionRequest> for Query {
    fn from(payload: WriteInjectionRequest) -> (lifted: Self)
        ensures
            operation_kind_of(lifted) == TerminalOperationKind::WriteInjection,
            lifted matches Query::WriteInjection(carried) && carried == payload,
    {
        Query::WriteInjection(payload)
    }
}

impl vstd::std_specs::convert::FromSpecImpl<WriteInjectionRequest> for Query {
    open spec fn obeys_from_spec() -> bool {
        true
    }

    open spec fn from_spec(payload: WriteInjectionRequest) -> Self {
        Query::WriteInjection(payload)
    }
}

impl From<SubscribeTerminalWorkerLifecycleRequest> for Query {
    fn from(payload: SubscribeTerminalWorkerLifecycleRequest) -> (lifted: Self)
        ensures
            operation_kind_of(lifted) == TerminalOperationKind::SubscribeTerminalWorkerLifecycle,
            lifted matches Query::SubscribeTerminalWorkerLifecycle(carried) && carried == payload,
    {
        Query::SubscribeTerminalWorkerLifecycle(payload)
    }
}

impl vstd::std_specs::convert::FromSpecImpl<SubscribeTerminalWorkerLifecycleRequest> for Query {
    open spec fn obeys_from_spec() -> bool {
        true
    }

    open spec fn from_spec(payload: SubscribeTerminalWorkerLifecycleRequest) -> Self {
        Query::SubscribeTerminalWorkerLifecycle(payload)
    }
}

impl From<TerminalWorkerLifecycleToken> for Query {
    fn from(payload: TerminalWorkerLifecycleToken) -> (lifted: Self)
        ensures
            operation_kind_of(lifted) == TerminalOperationKind::TerminalWorkerLifecycleRetraction,
            lifted matches Query::TerminalWorkerLifecycleRetraction(carried) && carried == payload,
    {
        Query::TerminalWorkerLifecycleRetraction(payload)
    }
}

impl vstd::std_specs::convert::FromSpecImpl<TerminalWorkerLifecycleToken> for Query {
    open spec fn obeys_from_spec() -> bool {
        true
    }

    open spec fn from_spec(payload: TerminalWorkerLifecycleToken) -> Self {
        Query::TerminalWorkerLifecycleRetraction(payload)
    }
}

impl From<ListSessionsRequest> for Query {
    fn from(payload: ListSessionsRequest) -> (lifted: Self)
        ensures
            operation_kind_of(lifted) == TerminalOperationKind::ListSessions,
            lifted matches Query::ListSessions(carried) && carried == payload,
    {
        Query::ListSessions(payload)
    }
}

impl vstd::std_specs::convert::FromSpecImpl<ListSessionsRequest> for Query {
    open spec fn obeys_from_spec() -> bool {
        true
    }

    open spec fn from_spec(payload: ListSessionsRequest) -> Self {
        Query::ListSessions(payload)
    }
}

impl From<ResolveSessionRequest> for Query {
    fn from(payload: ResolveSessionRequest) -> (lifted: Self)
        ensures
            operation_kind_of(lifted) == TerminalOperationKind::ResolveSession,
            lifted matches Query::ResolveSession(carried) && carried == payload,
    {
        Query::ResolveSession(payload)
    }
}

impl vstd::std_specs::convert::FromSpecImpl<ResolveSessionRequest> for Query {
    open spec fn obeys_from_spec() -> bool {
        true
    }

    open spec fn from_spec(payload: ResolveSessionRequest) -> Self {
        Query::ResolveSession(payload)
    }
}

impl From<TerminalReadyReply> for Response {
    fn from(payload: TerminalReadyReply) -> (lifted: Self)
        ensures
            lifted matches Response::TerminalReady(carried) && carried == payload,
    {
        Response::TerminalReady(payload)
    }
}

impl vstd::std_specs::convert::FromSpecImpl<TerminalReadyReply> for Response {
    open spec fn obeys_from_spec() -> bool {
        true
    }

    open spec fn from_spec(payload: TerminalReadyReply) -> Self {
        Response::TerminalReady(payload)
    }
}

impl From<TerminalInputAcceptedReply> for Response {
    fn from(payload: TerminalInputAcceptedReply) -> (lifted: Self)
        ensures
            lifted matches Response::TerminalInputAccepted(carried) && carried == payload,
    {
        Response::TerminalInputAccepted(payload)
    }
}

impl vstd::std_specs::convert::FromSpecImpl<TerminalInputAcceptedReply> for Response {
    open spec fn obeys_from_spec() -> bool {
        true
    }

    open spec fn from_spec(payload: TerminalInputAcceptedReply) -> Self {
        Response::TerminalInputAccepted(payload)
    }
}

impl From<TranscriptDeltaReply> for Response {
    fn from(payload: TranscriptDeltaReply) -> (lifted: Self)
        ensures
            lifted matches Response::TranscriptDelta(carried) && carried == payload,
    {
        Response::TranscriptDelta(payload)
    }
}

impl vstd::std_specs::convert::FromSpecImpl<TranscriptDeltaReply> for Response {
    open spec fn obeys_from_spec() -> bool {
        true
    }

    open spec fn from_spec(payload: TranscriptDeltaReply) -> Self {
        Response::TranscriptDelta(payload)
    }
}

impl From<TerminalResizedReply> for Response {
    fn from(payload: TerminalResizedReply) -> (lifted: Self)
        ensures
            lifted matches Response::TerminalResized(carried) && carried == payload,
    {
        Response::TerminalResized(payload)
    }
}

impl vstd::std_specs::convert::FromSpecImpl<TerminalResizedReply> for Response {
    open spec fn obeys_from_spec() -> bool {
        true
    }

    open spec fn from_spec(payload: TerminalResizedReply) -> Self {
        Response::TerminalResized(payload)
    }
}

impl From<TerminalCapturedReply> for Response {
    fn from(payload: TerminalCapturedReply) -> (lifted: Self)
        ensures
            lifted matches Response::TerminalCaptured(carried) && carried == payload,
    {
        Response::TerminalCaptured(payload)
    }
}

impl vstd::std_specs::convert::FromSpecImpl<TerminalCapturedReply> for Response {
    open spec fn obeys_from_spec() -> bool {
        true
    }

    open spec fn from_spec(payload: TerminalCapturedReply) -> Self {
        Response::TerminalCaptured(payload)
    }
}

impl From<TerminalDetachedReply> for Response {
    fn from(payload: TerminalDetachedReply) -> (lifted: Self)
        ensures
            lifted matches Response::TerminalDetached(carried) && carried == payload,
    {
        Response::TerminalDetached(payload)
    }
}

impl vstd::std_specs::convert::FromSpecImpl<TerminalDetachedReply> for Response {
    open spec fn obeys_from_spec() -> bool {
        true
    }

    open spec fn from_spec(payload: TerminalDetachedReply) -> Self {
        Response::TerminalDetached(payload)
    }
}

impl From<TerminalExitedReply> for Response {
    fn from(payload: TerminalExitedReply) -> (lifted: Self)
        ensures
            lifted matches Response::TerminalExited(carried) && carried == payload,
    {
        Response::TerminalExited(payload)
    }
}

impl vstd::std_specs::convert::FromSpecImpl<TerminalExitedReply> for Response {
    open spec fn obeys_from_spec() -> bool {
        true
    }

    open spec fn from_spec(payload: TerminalExitedReply) -> Self {
        Response::TerminalExited(payload)
    }
}

impl From<TerminalRejectedReply> for Response {
    fn from(payload: TerminalRejectedReply) -> (lifted: Self)
        ensures
            lifted matches Response::TerminalRejected(carried) && carried == payload,
    {
        Response::TerminalRejected(payload)
    }
}

impl vstd::std_specs::convert::FromSpecImpl<TerminalRejectedReply> for Response {
    open spec fn obeys_from_spec() -> bool {
        true
    }

    open spec fn from_spec(payload: TerminalRejectedReply) -> Self {
        Response::TerminalRejected(payload)
    }
}

impl From<PromptPatternRegisteredReply> for Response {
    fn from(payload: PromptPatternRegisteredReply) -> (lifted: Self)
        ensures
            lifted matches Response::PromptPatternRegistered(carried) && carried == payload,
    {
        Response::PromptPatternRegistered(payload)
    }
}

impl vstd::std_specs::convert::FromSpecImpl<PromptPatternRegisteredReply> for Response {
    open spec fn obeys_from_spec() -> bool {
        true
    }

    open spec fn from_spec(payload: PromptPatternRegisteredReply) -> Self {
        Response::PromptPatternRegistered(payload)
    }
}

impl From<PromptPatternUnregisteredReply> for Response {
    fn from(payload: PromptPatternUnregisteredReply) -> (lifted: Self)
        ensures
            lifted matches Response::PromptPatternUnregistered(carried) && carried == payload,
    {
        Response::PromptPatternUnregistered(payload)
    }
}

impl vstd::std_specs::convert::FromSpecImpl<PromptPatternUnregisteredReply> for Response {
    open spec fn obeys_from_spec() -> bool {
        true
    }

    open spec fn from_spec(payload: PromptPatternUnregisteredReply) -> Self {
        Response::PromptPatternUnregistered(payload)
    }
}

impl From<PromptPatternListReply> for Response {
    fn from(payload: PromptPatternListReply) -> (lifted: Self)
        ensures
            lifted matches Response::PromptPatternList(carried) && carried == payload,
    {
        Response::PromptPatternList(payload)
    }
}

impl vstd::std_specs::convert::FromSpecImpl<PromptPatternListReply> for Response {
    open spec fn obeys_from_spec() -> bool {
        true
    }

    open spec fn from_spec(payload: PromptPatternListReply) -> Self {
        Response::PromptPatternList(payload)
    }
}

impl From<GateAcquiredReply> for Response {
    fn from(payload: GateAcquiredReply) -> (lifted: Self)
        ensures
            lifted matches Response::GateAcquired(carried) && carried == payload,
    {
        Response::GateAcquired(payload)
    }
}

impl vstd::std_specs::convert::FromSpecImpl<GateAcquiredReply> for Response {
    open spec fn obeys_from_spec() -> bool {
        true
    }

    open spec fn from_spec(payload: GateAcquiredReply) -> Self {
        Response::GateAcquired(payload)
    }
}

impl From<GateBusyReply> for Response {
    fn from(payload: GateBusyReply) -> (lifted: Self)
        ensures
            lifted matches Response::GateBusy(carried) && carried == payload,
    {
        Response::GateBusy(payload)
    }
}

impl vstd::std_specs::convert::FromSpecImpl<GateBusyReply> for Response {
    open spec fn obeys_from_spec() -> bool {
        true
    }

    open spec fn from_spec(payload: GateBusyReply) -> Self {
        Response::GateBusy(payload)
    }
}

impl From<GateReleasedReply> for Response {
    fn from(payload: GateReleasedReply) -> (lifted: Self)
        ensures
            lifted matches Response::GateReleased(carried) && carried == payload,
    {
        Response::GateReleased(payload)
    }
}

impl vstd::std_specs::convert::FromSpecImpl<GateReleasedReply> for Response {
    open spec fn obeys_from_spec() -> bool {
        true
    }

    open spec fn from_spec(payload: GateReleasedReply) -> Self {
        Response::GateReleased(payload)
    }
}

impl From<InjectionAckReply> for Response {
    fn from(payload: InjectionAckReply) -> (lifted: Self)
        ensures
            lifted matches Response::InjectionAck(carried) && carried == payload,
    {
        Response::InjectionAck(payload)
    }
}

impl vstd::std_specs::convert::FromSpecImpl<InjectionAckReply> for Response {
    open spec fn obeys_from_spec() -> bool {
        true
    }

    open spec fn from_spec(payload: InjectionAckReply) -> Self {
        Response::InjectionAck(payload)
    }
}

impl From<InjectionRejectedReply> for Response {
    fn from(payload: InjectionRejectedReply) -> (lifted: Self)
        ensures
            lifted matches Response::InjectionRejected(carried) && carried == payload,
    {
        Response::InjectionRejected(payload)
    }
}

impl vstd::std_specs::convert::FromSpecImpl<InjectionRejectedReply> for Response {
    open spec fn obeys_from_spec() -> bool {
        true
    }

    open spec fn from_spec(payload: InjectionRejectedReply) -> Self {
        Response::InjectionRejected(payload)
    }
}

impl From<TerminalWorkerLifecycleSnapshotReply> for Response {
    fn from(payload: TerminalWorkerLifecycleSnapshotReply) -> (lifted: Self)
        ensures
            lifted matches Response::TerminalWorkerLifecycleSnapshot(carried) && carried == payload,
    {
        Response::TerminalWorkerLifecycleSnapshot(payload)
    }
}

impl vstd::std_specs::convert::FromSpecImpl<TerminalWorkerLifecycleSnapshotReply> for Response {
    open spec fn obeys_from_spec() -> bool {
        true
    }

    open spec fn from_spec(payload: TerminalWorkerLifecycleSnapshotReply) -> Self {
        Response::TerminalWorkerLifecycleSnapshot(payload)
    }
}

impl From<SubscriptionRetractedReply> for Response {
    fn from(payload: SubscriptionRetractedReply) -> (lifted: Self)
        ensures
            lifted matches Response::SubscriptionRetracted(carried) && carried == payload,
    {
        Response::SubscriptionRetracted(payload)
    }
}

impl vstd::std_specs::convert::FromSpecImpl<SubscriptionRetractedReply> for Response {
    open spec fn obeys_from_spec() -> bool {
        true
    }

    open spec fn from_spec(payload: SubscriptionRetractedReply) -> Self {
        Response::SubscriptionRetracted(payload)
    }
}

impl From<SessionListReply> for Response {
    fn from(payload: SessionListReply) -> (lifted: Self)
        ensures
            lifted matches Response::SessionList(carried) && carried == payload,
    {
        Response::SessionList(payload)
    }
}

impl vstd::std_specs::convert::FromSpecImpl<SessionListReply> for Response {
    open spec fn obeys_from_spec() -> bool {
        true
    }

    open spec fn from_spec(payload: SessionListReply) -> Self {
        Response::SessionList(payload)
    }
}

impl From<SessionResolvedReply> for Response {
    fn from(payload: SessionResolvedReply) -> (lifted: Self)
        ensures
            lifted matches Response::SessionResolved(carried) && carried == payload,
    {
        Response::SessionResolved(payload)
    }
}

impl vstd::std_specs::convert::FromSpecImpl<SessionResolvedReply> for Response {
    open spec fn obeys_from_spec() -> bool {
        true
    }

    open spec fn from_spec(payload: SessionResolvedReply) -> Self {
        Response::SessionResolved(payload)
    }
}

impl From<TerminalEvent> for Response {
    fn from(payload: TerminalEvent) -> (lifted: Self)
        ensures
            lifted matches Response::Event(carried) && carried == payload,
    {
        Response::Event(payload)
    }
}

impl vstd::std_specs::convert::FromSpecImpl<TerminalEvent> for Response {
    open spec fn obeys_from_spec() -> bool {
        true
    }

    open spec fn from_spec(payload: TerminalEvent) -> Self {
        Response::Event(payload)
    }
}

impl From<TerminalWorkerLifecycleEventPayload> for TerminalEvent {
    fn from(payload: TerminalWorkerLifecycleEventPayload) -> (lifted: Self)
        ensures
            lifted matches TerminalEvent::TerminalWorkerLifecycleEvent(carried) && carried == payload,
    {
        TerminalEvent::TerminalWorkerLifecycleEvent(payload)
    }
}

impl vstd::std_specs::convert::FromSpecImpl<TerminalWorkerLifecycleEventPayload> for TerminalEvent {
    open spec fn obeys_from_spec() -> bool {
        true
    }

    open spec fn from_spec(payload: TerminalWorkerLifecycleEventPayload) -> Self {
        TerminalEvent::TerminalWorkerLifecycleEvent(payload)
    }
}

/// Failure of the binary archive of a `TerminalDaemonConfiguration`.
#[derive(Clone, Copy, Debug, PartialEq, Eq, Hash)]
pub enum TerminalDaemonConfigurationArchiveError {
    /// The configuration could not be encoded.
    Encode,
    /// The bytes could not be decoded into a configuration.
    Decode,
}

} // verus!
