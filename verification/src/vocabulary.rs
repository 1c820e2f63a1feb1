//! Primitive wire vocabulary of the terminal contract.
//!
//! Every schema primitive travels as a newtype over a `String`, an integer or
//! a list of integers (one integer per byte). Each newtype is viewed as the
//! value it carries, and its accessors hand that value back unchanged or, for
//! the narrowing accessors, truncated to the narrower integer type.

use vstd::prelude::*;

verus! {

/// Name of a terminal session, as the harness and the daemon both spell it.
#[derive(Clone, Debug, PartialEq, Eq, Hash)]
pub struct TerminalName(String);

impl View for TerminalName {
    type V = Seq<char>;

    closed spec fn view(&self) -> Seq<char> {
        self.0@
    }
}

impl TerminalName {
    /// Wraps the given text.
    pub fn new(value: String) -> (r: Self)
        ensures
            r@ == value@,
    {
        Self(value)
    }

    /// Borrows the carried text.
    pub fn as_str(&self) -> (r: &str)
        ensures
            r@ == self@,
    {
        self.0.as_str()
    }
}

/// Identifier under which a prompt pattern is registered for a terminal.
#[derive(Clone, Debug, PartialEq, Eq, Hash)]
pub struct PromptPatternIdentifier(String);

impl View for PromptPatternIdentifier {
    type V = Seq<char>;

    closed spec fn view(&self) -> Seq<char> {
        self.0@
    }
}

impl PromptPatternIdentifier {
    /// Wraps the given text.
    pub fn new(value: String) -> (r: Self)
        ensures
            r@ == value@,
    {
        Self(value)
    }

    /// Borrows the carried text.
    pub fn as_str(&self) -> (r: &str)
        ensures
            r@ == self@,
    {
        self.0.as_str()
    }
}

/// Free-text reason a client gives when it asks for the input gate.
#[derive(Clone, Debug, PartialEq, Eq, Hash)]
pub struct InputGateReason(String);

impl View for InputGateReason {
    type V = Seq<char>;

    closed spec fn view(&self) -> Seq<char> {
        self.0@
    }
}

impl InputGateReason {
    /// Wraps the given text.
    pub fn new(value: String) -> (r: Self)
        ensures
            r@ == value@,
    {
        Self(value)
    }

    /// Borrows the carried text.
    pub fn as_str(&self) -> (r: &str)
        ensures
            r@ == self@,
    {
        self.0.as_str()
    }
}

/// Filesystem path carried on the wire (socket or store locations).
#[derive(Clone, Debug, PartialEq, Eq, Hash)]
pub struct WirePath(String);

impl View for WirePath {
    type V = Seq<char>;

    closed spec fn view(&self) -> Seq<char> {
        self.0@
    }
}

impl WirePath {
    /// Wraps the given text.
    pub fn new(value: String) -> (r: Self)
        ensures
            r@ == value@,
    {
        Self(value)
    }

    /// Borrows the carried text.
    pub fn as_str(&self) -> (r: &str)
        ensures
            r@ == self@,
    {
        self.0.as_str()
    }
}

/// Name of a system principal that may own the terminal daemon.
#[derive(Clone, Debug, PartialEq, Eq, Hash)]
pub struct SystemPrincipal(String);

impl View for SystemPrincipal {
    type V = Seq<char>;

    closed spec fn view(&self) -> Seq<char> {
        self.0@
    }
}

impl SystemPrincipal {
    /// Wraps the given text.
    pub fn new(value: String) -> (r: Self)
        ensures
            r@ == value@,
    {
        Self(value)
    }

    /// Borrows the carried text.
    pub fn as_str(&self) -> (r: &str)
        ensures
            r@ == self@,
    {
        self.0.as_str()
    }
}

/// Human-readable detail attached to a terminal worker failure.
#[derive(Clone, Debug, PartialEq, Eq, Hash)]
pub struct WorkerFailureDetail(String);

impl View for WorkerFailureDetail {
    type V = Seq<char>;

    closed spec fn view(&self) -> Seq<char> {
        self.0@
    }
}

impl WorkerFailureDetail {
    /// Wraps the given text.
    pub fn new(value: String) -> (r: Self)
        ensures
            r@ == value@,
    {
        Self(value)
    }

    /// Borrows the carried text.
    pub fn as_str(&self) -> (r: &str)
        ensures
            r@ == self@,
    {
        self.0.as_str()
    }
}

/// Generation of a terminal session, minted by the daemon.
#[derive(Clone, Copy, Debug, PartialEq, Eq, Hash)]
pub struct TerminalGeneration(u64);

impl View for TerminalGeneration {
    type V = u64;

    closed spec fn view(&self) -> u64 {
        self.0
    }
}

impl TerminalGeneration {
    /// Wraps the given integer.
    pub fn new(value: u64) -> (r: Self)
        ensures
            r@ == value,
    {
        Self(value)
    }

    /// Returns the generation as a plain integer.
    pub fn into_u64(self) -> (r: u64)
        ensures
            r == self@,
    {
        self.0
    }
}

/// Transcript sequence number of a terminal, minted by the daemon.
#[derive(Clone, Copy, Debug, PartialEq, Eq, Hash)]
pub struct TerminalSequence(u64);

impl View for TerminalSequence {
    type V = u64;

    closed spec fn view(&self) -> u64 {
        self.0
    }
}

impl TerminalSequence {
    /// Wraps the given integer.
    pub fn new(value: u64) -> (r: Self)
        ensures
            r@ == value,
    {
        Self(value)
    }

    /// Returns the sequence number as a plain integer.
    pub fn into_u64(self) -> (r: u64)
        ensures
            r == self@,
    {
        self.0
    }
}

/// Count of bytes held by the terminal (for example cached human input).
#[derive(Clone, Copy, Debug, PartialEq, Eq, Hash)]
pub struct TerminalByteCount(u64);

impl View for TerminalByteCount {
    type V = u64;

    closed spec fn view(&self) -> u64 {
        self.0
    }
}

impl TerminalByteCount {
    /// Wraps the given integer.
    pub fn new(value: u64) -> (r: Self)
        ensures
            r@ == value,
    {
        Self(value)
    }

    /// Returns the byte count as a plain integer.
    pub fn into_u64(self) -> (r: u64)
        ensures
            r == self@,
    {
        self.0
    }
}

/// Number of terminal rows.
#[derive(Clone, Copy, Debug, PartialEq, Eq, Hash)]
pub struct TerminalRows(u64);

impl View for TerminalRows {
    type V = u64;

    closed spec fn view(&self) -> u64 {
        self.0
    }
}

impl TerminalRows {
    /// Wraps the given integer.
    pub fn new(value: u64) -> (r: Self)
        ensures
            r@ == value,
    {
        Self(value)
    }

    /// Returns the row count narrowed to `u16`; values above `u16::MAX` keep their low 16 bits.
    pub fn as_u16(&self) -> (r: u16)
        ensures
            r == self@ as u16,
            self@ <= 0xffff ==> r == self@,
    {
        let r = self.0 as u16;
        proof {
            let v = self.0;
            assert(v <= 0xffff ==> (v as u16) == v) by (bit_vector);
        }
        r
    }

    /// Consumes the row count and narrows it to `u16`, keeping the low 16 bits.
    pub fn into_u16(self) -> (r: u16)
        ensures
            r == self@ as u16,
            self@ <= 0xffff ==> r == self@,
    {
        let r = self.0 as u16;
        proof {
            let v = self.0;
            assert(v <= 0xffff ==> (v as u16) == v) by (bit_vector);
        }
        r
    }
}

/// Number of terminal columns.
#[derive(Clone, Copy, Debug, PartialEq, Eq, Hash)]
pub struct TerminalColumns(u64);

impl View for TerminalColumns {
    type V = u64;

    closed spec fn view(&self) -> u64 {
        self.0
    }
}

impl TerminalColumns {
    /// Wraps the given integer.
    pub fn new(value: u64) -> (r: Self)
        ensures
            r@ == value,
    {
        Self(value)
    }

    /// Returns the column count narrowed to `u16`; values above `u16::MAX` keep their low 16 bits.
    pub fn as_u16(&self) -> (r: u16)
        ensures
            r == self@ as u16,
            self@ <= 0xffff ==> r == self@,
    {
        let r = self.0 as u16;
        proof {
            let v = self.0;
            assert(v <= 0xffff ==> (v as u16) == v) by (bit_vector);
        }
        r
    }

    /// Consumes the column count and narrows it to `u16`, keeping the low 16 bits.
    pub fn into_u16(self) -> (r: u16)
        ensures
            r == self@ as u16,
            self@ <= 0xffff ==> r == self@,
    {
        let r = self.0 as u16;
        proof {
            let v = self.0;
            assert(v <= 0xffff ==> (v as u16) == v) by (bit_vector);
        }
        r
    }
}

/// Identifier of an input-gate lease, minted by the daemon.
#[derive(Clone, Copy, Debug, PartialEq, Eq, Hash)]
pub struct InputGateLeaseIdentifier(u64);

impl View for InputGateLeaseIdentifier {
    type V = u64;

    closed spec fn view(&self) -> u64 {
        self.0
    }
}

impl InputGateLeaseIdentifier {
    /// Wraps the given integer.
    pub fn new(value: u64) -> (r: Self)
        ensures
            r@ == value,
    {
        Self(value)
    }

    /// Returns the lease identifier as a plain integer.
    pub fn into_u64(self) -> (r: u64)
        ensures
            r == self@,
    {
        self.0
    }
}

/// Unix permission bits for a socket.
#[derive(Clone, Copy, Debug, PartialEq, Eq, Hash)]
pub struct SocketMode(u64);

impl View for SocketMode {
    type V = u64;

    closed spec fn view(&self) -> u64 {
        self.0
    }
}

impl SocketMode {
    /// Wraps the given integer.
    pub fn new(value: u64) -> (r: Self)
        ensures
            r@ == value,
    {
        Self(value)
    }

    /// Consumes the newtype and returns the full carried mode.
    pub fn into_payload(self) -> (r: u64)
        ensures
            r == self@,
    {
        self.0
    }

    /// Returns the mode narrowed to `u32`, keeping the low 32 bits.
    pub fn into_u32(self) -> (r: u32)
        ensures
            r == self@ as u32,
            self@ <= 0xffff_ffff ==> r == self@,
    {
        let r = self.0 as u32;
        proof {
            let v = self.0;
            assert(v <= 0xffff_ffff ==> (v as u32) == v) by (bit_vector);
        }
        r
    }
}

/// Unix user id of a daemon owner.
#[derive(Clone, Copy, Debug, PartialEq, Eq, Hash)]
pub struct UnixUserIdentifier(u64);

impl View for UnixUserIdentifier {
    type V = u64;

    closed spec fn view(&self) -> u64 {
        self.0
    }
}

impl UnixUserIdentifier {
    /// Wraps the given integer.
    pub fn new(value: u64) -> (r: Self)
        ensures
            r@ == value,
    {
        Self(value)
    }

    /// Consumes the newtype and returns the full carried user id.
    pub fn into_payload(self) -> (r: u64)
        ensures
            r == self@,
    {
        self.0
    }

    /// Returns the user id narrowed to `u32`, keeping the low 32 bits.
    pub fn as_u32(&self) -> (r: u32)
        ensures
            r == self@ as u32,
            self@ <= 0xffff_ffff ==> r == self@,
    {
        let r = self.0 as u32;
        proof {
            let v = self.0;
            assert(v <= 0xffff_ffff ==> (v as u32) == v) by (bit_vector);
        }
        r
    }
}

/// Exit code of a terminal child process.
#[derive(Clone, Copy, Debug, PartialEq, Eq, Hash)]
pub struct ExitCode(u64);

impl View for ExitCode {
    type V = u64;

    closed spec fn view(&self) -> u64 {
        self.0
    }
}

impl ExitCode {
    /// Wraps the given integer.
    pub fn new(value: u64) -> (r: Self)
        ensures
            r@ == value,
    {
        Self(value)
    }

    /// Returns the exit code as an `i32`, taking the low 32 bits as two's complement.
    pub fn into_i32(self) -> (r: i32)
        ensures
            r == self@ as i32,
            self@ <= 0x7fff_ffff ==> r == self@,
    {
        let r = self.0 as i32;
        proof {
            let v = self.0;
            assert(v <= 0x7fff_ffff ==> (v as i32) == v) by (bit_vector);
        }
        r
    }
}

/// Number of the signal that ended a terminal child process.
#[derive(Clone, Copy, Debug, PartialEq, Eq, Hash)]
pub struct TerminalSignalNumber(u64);

impl View for TerminalSignalNumber {
    type V = u64;

    closed spec fn view(&self) -> u64 {
        self.0
    }
}

impl TerminalSignalNumber {
    /// Wraps the given integer.
    pub fn new(value: u64) -> (r: Self)
        ensures
            r@ == value,
    {
        Self(value)
    }

    /// Returns the signal number as an `i32`, taking the low 32 bits as two's complement.
    pub fn into_i32(self) -> (r: i32)
        ensures
            r == self@ as i32,
            self@ <= 0x7fff_ffff ==> r == self@,
    {
        let r = self.0 as i32;
        proof {
            let v = self.0;
            assert(v <= 0x7fff_ffff ==> (v as i32) == v) by (bit_vector);
        }
        r
    }
}

/// Bytes of terminal input, one integer per byte as the schema carries them.
#[derive(Clone, Debug, PartialEq, Eq, Hash)]
pub struct TerminalInputBytes(Vec<u64>);

impl View for TerminalInputBytes {
    type V = Seq<u64>;

    closed spec fn view(&self) -> Seq<u64> {
        self.0@
    }
}

impl TerminalInputBytes {
    /// Wraps the given byte integers.
    pub fn new(value: Vec<u64>) -> (r: Self)
        ensures
            r@ == value@,
    {
        Self(value)
    }

    /// Borrows the carried byte integers.
    pub fn as_slice(&self) -> (r: &[u64])
        ensures
            r@ == self@,
    {
        self.0.as_slice()
    }

    /// Consumes the newtype and returns the carried byte integers.
    pub fn into_vec(self) -> (r: Vec<u64>)
        ensures
            r@ == self@,
    {
        self.0
    }
}

/// Bytes of terminal transcript, one integer per byte as the schema carries them.
#[derive(Clone, Debug, PartialEq, Eq, Hash)]
pub struct TerminalTranscriptBytes(Vec<u64>);

impl View for TerminalTranscriptBytes {
    type V = Seq<u64>;

    closed spec fn view(&self) -> Seq<u64> {
        self.0@
    }
}

impl TerminalTranscriptBytes {
    /// Wraps the given byte integers.
    pub fn new(value: Vec<u64>) -> (r: Self)
        ensures
            r@ == value@,
    {
        Self(value)
    }

    /// Borrows the carried byte integers.
    pub fn as_slice(&self) -> (r: &[u64])
        ensures
            r@ == self@,
    {
        self.0.as_slice()
    }

    /// Consumes the newtype and returns the carried byte integers.
    pub fn into_vec(self) -> (r: Vec<u64>)
        ensures
            r@ == self@,
    {
        self.0
    }
}

/// Bytes of a prompt pattern, one integer per byte as the schema carries them.
#[derive(Clone, Debug, PartialEq, Eq, Hash)]
pub struct PromptPatternBytes(Vec<u64>);

impl View for PromptPatternBytes {
    type V = Seq<u64>;

    closed spec fn view(&self) -> Seq<u64> {
        self.0@
    }
}

impl PromptPatternBytes {
    /// Wraps the given byte integers.
    pub fn new(value: Vec<u64>) -> (r: Self)
        ensures
            r@ == value@,
    {
        Self(value)
    }

    /// Borrows the carried byte integers.
    pub fn as_slice(&self) -> (r: &[u64])
        ensures
            r@ == self@,
    {
        self.0.as_slice()
    }

    /// Consumes the newtype and returns the carried byte integers.
    pub fn into_vec(self) -> (r: Vec<u64>)
        ensures
            r@ == self@,
    {
        self.0
    }
}

} // verus!
