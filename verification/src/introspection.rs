//! Terminal-owned introspection records.
//!
//! These records describe inspectable terminal state. The terminal daemon
//! stays the owner of its store and reducers; this module owns only the typed
//! shape that observers can name. Every constructor records its arguments and
//! fixes the state it names, and every getter hands back the field it reads.

use vstd::prelude::*;

use crate::contract::{Output, TerminalOperationKind};
use crate::vocabulary::{TerminalGeneration, TerminalName, TerminalSequence};

verus! {

/// Sequence number of an introspection observation.
#[derive(Clone, Copy, Debug, PartialEq, Eq, Hash)]
pub struct TerminalObservationSequence(u64);

impl View for TerminalObservationSequence {
    type V = u64;

    closed spec fn view(&self) -> u64 {
        self.0
    }
}

impl TerminalObservationSequence {
    /// Wraps the given sequence number.
    pub fn new(value: u64) -> (r: Self)
        ensures
            r@ == value,
    {
        Self(value)
    }

    /// Returns the sequence number as a plain integer.
    pub fn into_u64(self) -> (r: u64)
        ensures
            r == self@,
    {
        self.0
    }
}

/// Path of a terminal's control socket.
#[derive(Clone, Debug, PartialEq, Eq, Hash)]
pub struct TerminalControlSocketPath(String);

impl View for TerminalControlSocketPath {
    type V = Seq<char>;

    closed spec fn view(&self) -> Seq<char> {
        self.0@
    }
}

impl TerminalControlSocketPath {
    /// Wraps the given path.
    pub fn new(value: String) -> (r: Self)
        ensures
            r@ == value@,
    {
        Self(value)
    }

    /// Borrows the path.
    pub fn as_str(&self) -> (r: &str)
        ensures
            r@ == self@,
    {
        self.0.as_str()
    }

    /// Consumes the newtype and returns the path.
    pub fn into_string(self) -> (r: String)
        ensures
            r@ == self@,
    {
        self.0
    }
}

/// Path of a terminal's data-plane socket.
#[derive(Clone, Debug, PartialEq, Eq, Hash)]
pub struct TerminalDataSocketPath(String);

impl View for TerminalDataSocketPath {
    type V = Seq<char>;

    closed spec fn view(&self) -> Seq<char> {
        self.0@
    }
}

impl TerminalDataSocketPath {
    /// Wraps the given path.
    pub fn new(value: String) -> (r: Self)
        ensures
            r@ == value@,
    {
        Self(value)
    }

    /// Borrows the path.
    pub fn as_str(&self) -> (r: &str)
        ensures
            r@ == self@,
    {
        self.0.as_str()
    }

    /// Consumes the newtype and returns the path.
    pub fn into_string(self) -> (r: String)
        ensures
            r@ == self@,
    {
        self.0
    }
}

/// Name of a viewer attached to a terminal.
#[derive(Clone, Debug, PartialEq, Eq, Hash)]
pub struct TerminalViewerName(String);

impl View for TerminalViewerName {
    type V = Seq<char>;

    closed spec fn view(&self) -> Seq<char> {
        self.0@
    }
}

impl TerminalViewerName {
    /// Wraps the given viewer name.
    pub fn new(value: String) -> (r: Self)
        ensures
            r@ == value@,
    {
        Self(value)
    }

    /// Borrows the viewer name.
    pub fn as_str(&self) -> (r: &str)
        ensures
            r@ == self@,
    {
        self.0.as_str()
    }
}

/// Reason a terminal session was archived.
#[derive(Clone, Debug, PartialEq, Eq, Hash)]
pub struct TerminalArchiveReason(String);

impl View for TerminalArchiveReason {
    type V = Seq<char>;

    closed spec fn view(&self) -> Seq<char> {
        self.0@
    }
}

impl TerminalArchiveReason {
    /// Wraps the given reason.
    pub fn new(value: String) -> (r: Self)
        ensures
            r@ == value@,
    {
        Self(value)
    }

    /// Borrows the reason.
    pub fn as_str(&self) -> (r: &str)
        ensures
            r@ == self@,
    {
        self.0.as_str()
    }
}

/// Liveness of a terminal session.
#[derive(Clone, Copy, Debug, PartialEq, Eq)]
pub enum TerminalSessionState {
    Ready,
    Exited,
}

/// The lower-case name of a session state: `ready` or `exited`.
pub open spec fn session_state_name(state: TerminalSessionState) -> Seq<char> {
    match state {
        TerminalSessionState::Ready => "ready"@,
        TerminalSessionState::Exited => "exited"@,
    }
}

impl TerminalSessionState {
    /// The lower-case name of this state.
    pub fn as_str(self) -> (r: &'static str)
        ensures
            r@ == session_state_name(self),
    {
        match self {
            Self::Ready => "ready",
            Self::Exited => "exited",
        }
    }
}

/// Distinct session states have distinct names, so a name read back
/// identifies the state it was printed from.
pub proof fn lemma_session_state_names_are_distinct(
    a: TerminalSessionState,
    b: TerminalSessionState,
)
    ensures
        session_state_name(a) == session_state_name(b) <==> a == b,
{
    reveal_strlit("ready");
    reveal_strlit("exited");
    if a != b {
        assert(session_state_name(a).len() != session_state_name(b).len());
    }
}

/// Observed state of one terminal session.
#[derive(Clone, Debug, PartialEq, Eq)]
pub struct TerminalSessionObservation {
    pub terminal: TerminalName,
    pub control_socket_path: TerminalControlSocketPath,
    pub data_socket_path: TerminalDataSocketPath,
    pub generation: TerminalGeneration,
    pub transcript_sequence: TerminalSequence,
    pub state: TerminalSessionState,
}

impl TerminalSessionObservation {
    /// A freshly ready session: first generation, empty transcript.
    pub fn ready(
        terminal: TerminalName,
        control_socket_path: String,
        data_socket_path: String,
    ) -> (r: Self)
        ensures
            r.terminal == terminal,
            r.control_socket_path@ == control_socket_path@,
            r.data_socket_path@ == data_socket_path@,
            r.generation@ == 1,
            r.transcript_sequence@ == 0,
            r.state == TerminalSessionState::Ready,
    {
        Self {
            terminal,
            control_socket_path: TerminalControlSocketPath::new(control_socket_path),
            data_socket_path: TerminalDataSocketPath::new(data_socket_path),
            generation: TerminalGeneration::new(1),
            transcript_sequence: TerminalSequence::new(0),
            state: TerminalSessionState::Ready,
        }
    }

    /// The observed terminal.
    pub fn terminal(&self) -> (r: &TerminalName)
        ensures
            *r == self.terminal,
    {
        &self.terminal
    }

    /// The session's control socket.
    pub fn control_socket_path(&self) -> (r: &TerminalControlSocketPath)
        ensures
            *r == self.control_socket_path,
    {
        &self.control_socket_path
    }

    /// The session's data-plane socket.
    pub fn data_socket_path(&self) -> (r: &TerminalDataSocketPath)
        ensures
            *r == self.data_socket_path,
    {
        &self.data_socket_path
    }

    /// The session's generation.
    pub fn generation(&self) -> (r: &TerminalGeneration)
        ensures
            *r == self.generation,
    {
        &self.generation
    }

    /// The session's transcript sequence.
    pub fn transcript_sequence(&self) -> (r: &TerminalSequence)
        ensures
            *r == self.transcript_sequence,
    {
        &self.transcript_sequence
    }

    /// The session's state.
    pub fn state(&self) -> (r: TerminalSessionState)
        ensures
            r == self.state,
    {
        self.state
    }
}

/// State of a delivery attempt.
#[derive(Clone, Copy, Debug, PartialEq, Eq)]
pub enum TerminalDeliveryAttemptState {
    Started,
}

/// Observation that the daemon started delivering an operation to a terminal.
#[derive(Clone, Debug, PartialEq, Eq)]
pub struct TerminalDeliveryAttemptObservation {
    pub sequence: TerminalObservationSequence,
    pub terminal: TerminalName,
    pub operation: TerminalOperationKind,
    pub state: TerminalDeliveryAttemptState,
}

impl TerminalDeliveryAttemptObservation {
    /// A delivery attempt that has just started.
    pub fn started(
        sequence: TerminalObservationSequence,
        terminal: TerminalName,
        operation: TerminalOperationKind,
    ) -> (r: Self)
        ensures
            r.sequence == sequence,
            r.terminal == terminal,
            r.operation == operation,
            r.state == TerminalDeliveryAttemptState::Started,
    {
        Self { sequence, terminal, operation, state: TerminalDeliveryAttemptState::Started }
    }

    /// The observation's sequence number.
    pub fn sequence(&self) -> (r: TerminalObservationSequence)
        ensures
            r == self.sequence,
    {
        self.sequence
    }

    /// The terminal delivered to.
    pub fn terminal(&self) -> (r: &TerminalName)
        ensures
            *r == self.terminal,
    {
        &self.terminal
    }

    /// The operation being delivered.
    pub fn operation(&self) -> (r: TerminalOperationKind)
        ensures
            r == self.operation,
    {
        self.operation
    }

    /// The attempt's state.
    pub fn state(&self) -> (r: TerminalDeliveryAttemptState)
        ensures
            r == self.state,
    {
        self.state
    }
}

/// Observation of a reply or event that a terminal produced.
#[derive(Clone, Debug, PartialEq, Eq)]
pub struct TerminalEventObservation {
    pub sequence: TerminalObservationSequence,
    pub terminal: TerminalName,
    pub event: Output,
}

impl TerminalEventObservation {
    /// Records the given event under the given sequence number.
    pub fn new(
        sequence: TerminalObservationSequence,
        terminal: TerminalName,
        event: Output,
    ) -> (r: Self)
        ensures
            r.sequence == sequence,
            r.terminal == terminal,
            r.event == event,
    {
        Self { sequence, terminal, event }
    }

    /// The observation's sequence number.
    pub fn sequence(&self) -> (r: TerminalObservationSequence)
        ensures
            r == self.sequence,
    {
        self.sequence
    }

    /// The terminal that produced the event.
    pub fn terminal(&self) -> (r: &TerminalName)
        ensures
            *r == self.terminal,
    {
        &self.terminal
    }

    /// The observed event.
    pub fn event(&self) -> (r: &Output)
        ensures
            *r == self.event,
    {
        &self.event
    }
}

/// Whether a viewer is attached to a terminal.
#[derive(Clone, Copy, Debug, PartialEq, Eq)]
pub enum TerminalViewerAttachmentState {
    Attached,
    Detached,
}

/// Observation of a viewer attaching to or detaching from a terminal.
#[derive(Clone, Debug, PartialEq, Eq)]
pub struct TerminalViewerAttachmentObservation {
    pub sequence: TerminalObservationSequence,
    pub terminal: TerminalName,
    pub viewer: TerminalViewerName,
    pub state: TerminalViewerAttachmentState,
}

impl TerminalViewerAttachmentObservation {
    /// Records the given viewer in the given attachment state.
    pub fn new(
        sequence: TerminalObservationSequence,
        terminal: TerminalName,
        viewer: String,
        state: TerminalViewerAttachmentState,
    ) -> (r: Self)
        ensures
            r.sequence == sequence,
            r.terminal == terminal,
            r.viewer@ == viewer@,
            r.state == state,
    {
        Self { sequence, terminal, viewer: TerminalViewerName::new(viewer), state }
    }

    /// The observation's sequence number.
    pub fn sequence(&self) -> (r: TerminalObservationSequence)
        ensures
            r == self.sequence,
    {
        self.sequence
    }

    /// The terminal the viewer belongs to.
    pub fn terminal(&self) -> (r: &TerminalName)
        ensures
            *r == self.terminal,
    {
        &self.terminal
    }

    /// The viewer.
    pub fn viewer(&self) -> (r: &TerminalViewerName)
        ensures
            *r == self.viewer,
    {
        &self.viewer
    }

    /// The attachment state.
    pub fn state(&self) -> (r: TerminalViewerAttachmentState)
        ensures
            r == self.state,
    {
        self.state
    }
}

/// Observed health of a terminal session.
#[derive(Clone, Debug, PartialEq, Eq)]
pub struct TerminalSessionHealthObservation {
    pub terminal: TerminalName,
    pub state: TerminalSessionState,
    pub generation: TerminalGeneration,
}

impl TerminalSessionHealthObservation {
    /// Records the given session health.
    pub fn new(
        terminal: TerminalName,
        state: TerminalSessionState,
        generation: TerminalGeneration,
    ) -> (r: Self)
        ensures
            r.terminal == terminal,
            r.state == state,
            r.generation == generation,
    {
        Self { terminal, state, generation }
    }

    /// The observed terminal.
    pub fn terminal(&self) -> (r: &TerminalName)
        ensures
            *r == self.terminal,
    {
        &self.terminal
    }

    /// The session's state.
    pub fn state(&self) -> (r: TerminalSessionState)
        ensures
            r == self.state,
    {
        self.state
    }

    /// The session's generation.
    pub fn generation(&self) -> (r: &TerminalGeneration)
        ensures
            *r == self.generation,
    {
        &self.generation
    }
}

/// Archive state of a terminal session.
#[derive(Clone, Copy, Debug, PartialEq, Eq)]
pub enum TerminalSessionArchiveState {
    Archived,
}

/// Observation that a terminal session was archived.
#[derive(Clone, Debug, PartialEq, Eq)]
pub struct TerminalSessionArchiveObservation {
    pub terminal: TerminalName,
    pub reason: TerminalArchiveReason,
    pub state: TerminalSessionArchiveState,
}

impl TerminalSessionArchiveObservation {
    /// A session archived for the given reason.
    pub fn archived(terminal: TerminalName, reason: String) -> (r: Self)
        ensures
            r.terminal == terminal,
            r.reason@ == reason@,
            r.state == TerminalSessionArchiveState::Archived,
    {
        Self {
            terminal,
            reason: TerminalArchiveReason::new(reason),
            state: TerminalSessionArchiveState::Archived,
        }
    }

    /// The archived terminal.
    pub fn terminal(&self) -> (r: &TerminalName)
        ensures
            *r == self.terminal,
    {
        &self.terminal
    }

    /// Why the session was archived.
    pub fn reason(&self) -> (r: &TerminalArchiveReason)
        ensures
            *r == self.reason,
    {
        &self.reason
    }

    /// The archive state.
    pub fn state(&self) -> (r: TerminalSessionArchiveState)
        ensures
            r == self.state,
    {
        self.state
    }
}

/// Every kind of introspection record the terminal exposes, at one moment.
#[derive(Clone, Debug, PartialEq, Eq)]
pub struct TerminalIntrospectionSnapshot {
    pub sessions: Vec<TerminalSessionObservation>,
    pub delivery_attempts: Vec<TerminalDeliveryAttemptObservation>,
    pub terminal_events: Vec<TerminalEventObservation>,
    pub viewer_attachments: Vec<TerminalViewerAttachmentObservation>,
    pub session_health: Vec<TerminalSessionHealthObservation>,
    pub session_archive: Vec<TerminalSessionArchiveObservation>,
}

impl TerminalIntrospectionSnapshot {
    /// A snapshot with no records of any kind.
    pub fn empty() -> (r: Self)
        ensures
            r.sessions@ == Seq::<TerminalSessionObservation>::empty(),
            r.delivery_attempts@ == Seq::<TerminalDeliveryAttemptObservation>::empty(),
            r.terminal_events@ == Seq::<TerminalEventObservation>::empty(),
            r.viewer_attachments@ == Seq::<TerminalViewerAttachmentObservation>::empty(),
            r.session_health@ == Seq::<TerminalSessionHealthObservation>::empty(),
            r.session_archive@ == Seq::<TerminalSessionArchiveObservation>::empty(),
    {
        Self {
            sessions: Vec::new(),
            delivery_attempts: Vec::new(),
            terminal_events: Vec::new(),
            viewer_attachments: Vec::new(),
            session_health: Vec::new(),
            session_archive: Vec::new(),
        }
    }
}

} // verus!
