//! Serial session engine: a hexadecimal codec, the rules that decide whether
//! and how a serial device is opened, and the state machines that drive one
//! send or one monitor session over an open port.

pub mod codec;
pub mod error;
pub mod gateway;
pub mod session;

pub use codec::{format_hex, parse_hex, HexError};
pub use error::SessionError;
pub use gateway::{open_settings, port_exists, PortSettings, READ_TIMEOUT_MS};
pub use session::{
    render_chunk, IoOutcome, MonitorAction, MonitorPhase, MonitorSession, ReadOutcome, SendAction,
    SendPhase, SendSession, READ_BUFFER_LEN,
};
