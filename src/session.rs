//! The two kinds of session run against one open port, as state machines:
//! the caller performs each action on the port and hands back its outcome.

use vstd::prelude::*;
use vstd::slice::slice_to_vec;
use vstd::string::StringSliceAdditionalSpecFns;
use vstd::utf8::{decode_utf8, valid_utf8};
use crate::codec::{format_hex, hex_decoding, hex_error_for, hex_text, parse_hex};
use crate::error::SessionError;

verus! {

/// Bytes asked for by each read of a monitor session.
pub const READ_BUFFER_LEN: usize = 256;

/// The bytes that a send session writes for `message`, or `None` when the
/// message, read as hex, is not valid.
pub open spec fn send_payload(message: &str, hex_mode: bool) -> Option<Seq<u8>> {
    if hex_mode {
        hex_decoding(message@)
    } else {
        Some(message.spec_bytes())
    }
}

/// The outcome of a write or a flush on the port.
#[derive(Debug, PartialEq, Eq)]
pub enum IoOutcome {
    Completed,
    Failed(String),
}

/// What a send session asks the caller to do next.
#[derive(Debug, PartialEq, Eq)]
pub enum SendAction {
    /// Write all of these bytes to the port.
    WriteAll(Vec<u8>),
    /// Flush the port.
    Flush,
    /// The session is over, with this result.
    Finish(Result<(), SessionError>),
}

#[derive(Debug, Clone, Copy, PartialEq, Eq, Structural)]
pub enum SendPhase {
    Writing,
    Flushing,
    Finished,
}

/// One message sent over the port: write the payload, then flush.
#[derive(Debug)]
pub struct SendSession {
    pub phase: SendPhase,
}

impl SendSession {
    /// Starts sending `message`: its UTF-8 bytes as they are, or in hex mode
    /// the bytes that it denotes as hex text.
    pub fn begin(message: &str, hex_mode: bool) -> (r: (SendSession, SendAction))
        ensures
            match send_payload(message, hex_mode) {
                Some(p) => {
                    &&& r.0.phase == SendPhase::Writing
                    &&& r.1 matches SendAction::WriteAll(v) && v@ == p
                },
                None => {
                    &&& r.0.phase == SendPhase::Finished
                    &&& r.1 matches SendAction::Finish(Err(SessionError::InvalidHexInput(e)))
                        && hex_error_for(message@, e)
                },
            },
    {
        if hex_mode {
            match parse_hex(message) {
                Ok(bytes) => (SendSession { phase: SendPhase::Writing }, SendAction::WriteAll(bytes)),
                Err(e) => (
                    SendSession { phase: SendPhase::Finished },
                    SendAction::Finish(Err(SessionError::InvalidHexInput(e))),
                ),
            }
        } else {
            let bytes = slice_to_vec(message.as_bytes());
            (SendSession { phase: SendPhase::Writing }, SendAction::WriteAll(bytes))
        }
    }

    /// Takes the outcome of the last action: a completed write is followed by
    /// a flush, a completed flush ends the session with success, and a failed
    /// write or flush ends it with that failure.
    pub fn advance(&mut self, outcome: IoOutcome) -> (r: SendAction)
        requires
            old(self).phase != SendPhase::Finished,
        ensures
            old(self).phase == SendPhase::Writing ==> match outcome {
                IoOutcome::Completed => {
                    &&& r == SendAction::Flush
                    &&& final(self).phase == SendPhase::Flushing
                },
                IoOutcome::Failed(m) => {
                    &&& r == SendAction::Finish(Err(SessionError::WriteFailure(m)))
                    &&& final(self).phase == SendPhase::Finished
                },
            },
            old(self).phase == SendPhase::Flushing ==> match outcome {
                IoOutcome::Completed => {
                    &&& r == SendAction::Finish(Ok(()))
                    &&& final(self).phase == SendPhase::Finished
                },
                IoOutcome::Failed(m) => {
                    &&& r == SendAction::Finish(Err(SessionError::FlushFailure(m)))
                    &&& final(self).phase == SendPhase::Finished
                },
            },
    {
        match (self.phase, outcome) {
            (SendPhase::Writing, IoOutcome::Completed) => {
                self.phase = SendPhase::Flushing;
                SendAction::Flush
            },
            (SendPhase::Writing, IoOutcome::Failed(m)) => {
                self.phase = SendPhase::Finished;
                SendAction::Finish(Err(SessionError::WriteFailure(m)))
            },
            (_, IoOutcome::Completed) => {
                self.phase = SendPhase::Finished;
                SendAction::Finish(Ok(()))
            },
            (_, IoOutcome::Failed(m)) => {
                self.phase = SendPhase::Finished;
                SendAction::Finish(Err(SessionError::FlushFailure(m)))
            },
        }
    }
}

/// What `String::from_utf8_lossy` makes of a byte sequence.
pub uninterp spec fn utf8_lossy_text(b: Seq<u8>) -> Seq<char>;

/// Relies on String::from_utf8_lossy: decodes UTF-8, putting U+FFFD in place
/// of each invalid sequence, so that valid UTF-8 decodes to its characters.
#[verifier::external_body]
fn decode_lossy(b: &[u8]) -> (r: String)
    ensures
        r@ == utf8_lossy_text(b@),
        valid_utf8(b@) ==> r@ == decode_utf8(b@),
{
    String::from_utf8_lossy(b).into_owned()
}

/// The line printed for one received chunk.
pub open spec fn chunk_line(hex_mode: bool, chunk: Seq<u8>) -> Seq<char> {
    if hex_mode {
        hex_text(chunk)
    } else {
        utf8_lossy_text(chunk)
    }
}

/// Renders a received chunk as one line: hex text in hex mode, else its bytes
/// decoded as UTF-8 with invalid sequences replaced.
pub fn render_chunk(chunk: &[u8], hex_mode: bool) -> (r: String)
    ensures
        r@ == chunk_line(hex_mode, chunk@),
{
    if hex_mode {
        format_hex(chunk)
    } else {
        decode_lossy(chunk)
    }
}

/// The outcome of one read from the port.
#[derive(Debug, PartialEq, Eq)]
pub enum ReadOutcome {
    /// The read returned these bytes.
    Received(Vec<u8>),
    /// No data arrived before the read timed out.
    TimedOut,
    /// The read failed for another reason.
    Failed(String),
}

/// What a monitor session asks the caller to do after a read.
#[derive(Debug, PartialEq, Eq)]
pub enum MonitorAction {
    /// Print this line, then read again.
    Emit(String),
    /// Print nothing and read again.
    Wait,
    /// The session is over, with this failure.
    Stop(SessionError),
}

#[derive(Debug, Clone, Copy, PartialEq, Eq, Structural)]
pub enum MonitorPhase {
    Polling,
    Terminated,
}

/// Reading the port until a read fails; every chunk received becomes one line.
#[derive(Debug)]
pub struct MonitorSession {
    pub hex_mode: bool,
    pub phase: MonitorPhase,
}

impl MonitorSession {
    pub fn new(hex_mode: bool) -> (r: MonitorSession)
        ensures
            r.hex_mode == hex_mode,
            r.phase == MonitorPhase::Polling,
    {
        MonitorSession { hex_mode, phase: MonitorPhase::Polling }
    }

    /// Takes the outcome of one read (the caller asks for `READ_BUFFER_LEN`
    /// bytes at a time). Bytes received give exactly one line; a timeout or
    /// an empty read gives none; both keep polling. Any other failure ends
    /// the session.
    pub fn on_read(&mut self, outcome: ReadOutcome) -> (r: MonitorAction)
        requires
            old(self).phase == MonitorPhase::Polling,
        ensures
            final(self).hex_mode == old(self).hex_mode,
            match outcome {
                ReadOutcome::Received(b) => {
                    &&& final(self).phase == MonitorPhase::Polling
                    &&& if b@.len() > 0 {
                        r matches MonitorAction::Emit(line) && line@ == chunk_line(
                            old(self).hex_mode,
                            b@,
                        )
                    } else {
                        r == MonitorAction::Wait
                    }
                },
                ReadOutcome::TimedOut => {
                    &&& final(self).phase == MonitorPhase::Polling
                    &&& r == MonitorAction::Wait
                },
                ReadOutcome::Failed(m) => {
                    &&& final(self).phase == MonitorPhase::Terminated
                    &&& r == MonitorAction::Stop(SessionError::ReadFailure(m))
                },
            },
    {
        match outcome {
            ReadOutcome::Received(b) => {
                if b.len() > 0 {
                    MonitorAction::Emit(render_chunk(b.as_slice(), self.hex_mode))
                } else {
                    MonitorAction::Wait
                }
            },
            ReadOutcome::TimedOut => MonitorAction::Wait,
            ReadOutcome::Failed(m) => {
                self.phase = MonitorPhase::Terminated;
                MonitorAction::Stop(SessionError::ReadFailure(m))
            },
        }
    }
}

} // verus!
