//! Error taxonomy of the protocol engine.
//!
//! Decode failures carry the offending raw code or bytes; validation
//! failures are raised before any transport I/O; `CommandError` is a
//! device-reported failure, distinct from decode failures; `WaitTimeout`
//! is raised once the per-call deadline elapses.

use vstd::prelude::*;

verus! {

/// Everything an operation of this crate can fail with.
#[derive(Clone, Debug, PartialEq, Eq)]
pub enum ErrorKind {
    /// An argument is outside its documented range.
    OutOfRange,
    /// The device reported that it could not execute the command.
    CommandError,
    /// No matching message arrived before the deadline.
    WaitTimeout,
    /// The transport failed to read or write.
    Transport,
    /// Writing a command frame to the transport failed; carries the command name.
    CommandWrite(&'static str),
    /// A message payload is shorter than its declared shape requires.
    TruncatedMessage,
    /// A packed date/time does not name a real calendar date/time;
    /// carries all six decoded components.
    InvalidDateTime { year: u16, month: u8, day: u8, hour: u8, minute: u8, second: u8 },
    /// A reply frame carried an unknown 16-bit reply code.
    UnknownReplyCode(u16),
    /// A payload's leading tag byte selects no known message shape.
    UnknownMessageFormat(u8),
    /// A measurement's tag byte selects no known measurement kind.
    UnknownMeasurementKind(u8),
    /// A 16-bit mode code is not in the mode table.
    UnknownMeasurementMode(u16),
    /// A range byte is not in the range table.
    UnknownMeasurementRange(u8),
    /// A unit string is not in the unit dictionary; carries the decoded
    /// text and the raw bytes.
    UnknownMeasurementUnit { text: String, raw: Vec<u8> },
    /// A record name contains a character outside printable ASCII.
    InvalidRecordName(String),
    /// A record name is longer than ten bytes.
    RecordNameTooLong(String),
    /// A recording interval is outside 1..=3600 seconds.
    RecordIntervalIsOutOfRange(u16),
    /// A recording duration is outside 1..=143999 minutes.
    RecordDurationIsOutOfRange(u32),
}

/// An opaque transport-level failure: the byte stream could not be read or
/// written. The engine maps it to [`ErrorKind::Transport`] or, for command
/// writes, to [`ErrorKind::CommandWrite`]; keeping it a distinct type keeps
/// the engine's error set closed, whatever a transport implementation does.
#[derive(Clone, Copy, Debug, PartialEq, Eq, Structural)]
pub struct TransportError;

/// An error produced by decoding a message: a truncation or an unknown-code
/// diagnostic, as opposed to validation, transport, device-reported or
/// deadline failures.
pub open spec fn is_decode_error(e: ErrorKind) -> bool {
    ||| e == ErrorKind::TruncatedMessage
    ||| e matches ErrorKind::InvalidDateTime { .. }
    ||| e matches ErrorKind::UnknownReplyCode(_)
    ||| e matches ErrorKind::UnknownMessageFormat(_)
    ||| e matches ErrorKind::UnknownMeasurementKind(_)
    ||| e matches ErrorKind::UnknownMeasurementMode(_)
    ||| e matches ErrorKind::UnknownMeasurementRange(_)
    ||| e matches ErrorKind::UnknownMeasurementUnit { .. }
}

/// An error an issued command can surface once its inputs have passed
/// validation: a command-write failure, a device-reported failure, the
/// deadline, a transport failure, or a decode diagnostic — never an
/// input-validation error such as `OutOfRange` or a record-argument error.
pub open spec fn is_command_error(e: ErrorKind) -> bool {
    ||| e matches ErrorKind::CommandWrite(_)
    ||| e == ErrorKind::CommandError
    ||| e == ErrorKind::WaitTimeout
    ||| e == ErrorKind::Transport
    ||| is_decode_error(e)
}

/// Specification-level model of a decode failure. Mirrors the decode-related
/// variants of [`ErrorKind`], with the unit diagnostic as a byte sequence so
/// that decode specifications can be written as total functions.
pub enum DecodeErr {
    Truncated,
    InvalidDateTime { year: u16, month: u8, day: u8, hour: u8, minute: u8, second: u8 },
    UnknownReplyCode(u16),
    UnknownMessageFormat(u8),
    UnknownMeasurementKind(u8),
    UnknownMeasurementMode(u16),
    UnknownMeasurementRange(u8),
    /// Carries the raw bytes of the unrecognised unit string.
    UnknownMeasurementUnit(Seq<u8>),
}

/// How a runtime [`ErrorKind`] realises a specification-level [`DecodeErr`].
pub open spec fn err_models(e: ErrorKind, m: DecodeErr) -> bool {
    match m {
        DecodeErr::Truncated => e == ErrorKind::TruncatedMessage,
        DecodeErr::InvalidDateTime { year, month, day, hour, minute, second } => e
            == (ErrorKind::InvalidDateTime { year, month, day, hour, minute, second }),
        DecodeErr::UnknownReplyCode(c) => e == ErrorKind::UnknownReplyCode(c),
        DecodeErr::UnknownMessageFormat(t) => e == ErrorKind::UnknownMessageFormat(t),
        DecodeErr::UnknownMeasurementKind(k) => e == ErrorKind::UnknownMeasurementKind(k),
        DecodeErr::UnknownMeasurementMode(c) => e == ErrorKind::UnknownMeasurementMode(c),
        DecodeErr::UnknownMeasurementRange(b) => e == ErrorKind::UnknownMeasurementRange(b),
        DecodeErr::UnknownMeasurementUnit(z) => e matches ErrorKind::UnknownMeasurementUnit {
            text,
            raw,
        } && text@ == crate::utils::lossy_text_of(z) && raw@ == z,
    }
}

/// An error that realises a decode-failure model is a decode error.
pub proof fn lemma_err_models_is_decode_error(e: ErrorKind, m: DecodeErr)
    requires
        err_models(e, m),
    ensures
        is_decode_error(e),
{
}

/// A runtime decode result realises a specification-level decode result:
/// equal on success, related by [`err_models`] on failure.
pub open spec fn decode_obeys<T>(r: Result<T, ErrorKind>, s: Result<T, DecodeErr>) -> bool {
    match s {
        Ok(v) => r == Ok::<T, ErrorKind>(v),
        Err(m) => r matches Err(e) && err_models(e, m),
    }
}

} // verus!
