//! Deciding whether a serial device may be opened, and with which settings.
//! The host's device listing and the opening itself are done by the caller.

use vstd::prelude::*;
use crate::error::SessionError;

verus! {

/// Milliseconds after which a read with no data returns.
pub const READ_TIMEOUT_MS: u64 = 100;

/// The names of a device listing; a listing that failed names no device.
pub open spec fn listed_names(listing: Option<Vec<String>>) -> Seq<Seq<char>> {
    match listing {
        Some(v) => v@.map_values(|n: String| n@),
        None => Seq::empty(),
    }
}

/// Whether `name` is one of the names of the listing.
pub open spec fn is_listed(listing: Option<Vec<String>>, name: Seq<char>) -> bool {
    listed_names(listing).contains(name)
}

/// How a device is opened: fixed 8N1 framing and a bounded read timeout.
#[derive(Debug, PartialEq, Eq)]
pub struct PortSettings {
    pub port_name: String,
    pub baud_rate: u32,
    pub data_bits: u8,
    pub stop_bits: u8,
    pub parity: bool,
    pub timeout_ms: u64,
}

/// Whether `port_name` is among the devices of `listing`, the host's device
/// names, or `None` where listing them failed: then no device exists.
pub fn port_exists(listing: &Option<Vec<String>>, port_name: &str) -> (r: bool)
    ensures
        r == is_listed(*listing, port_name@),
{
    match listing {
        None => false,
        Some(names) => {
            let target = port_name.to_owned();
            let mut i: usize = 0;
            while i < names.len()
                invariant
                    *listing == Some(*names),
                    target@ == port_name@,
                    i <= names@.len(),
                    forall|j: int| 0 <= j < i ==> names@[j]@ != port_name@,
                decreases names@.len() - i,
            {
                if names[i] == target {
                    assert(listed_names(*listing)[i as int] == port_name@);
                    return true;
                }
                i = i + 1;
            }
            assert(!listed_names(*listing).contains(port_name@));
            false
        },
    }
}

/// The settings to open `port_name` with, where the host lists it; else
/// `PortNotFound`, carrying the names that the host does list.
pub fn open_settings(port_name: &str, baud_rate: u32, listing: Option<Vec<String>>) -> (r: Result<
    PortSettings,
    SessionError,
>)
    ensures
        r is Ok <==> is_listed(listing, port_name@),
        match r {
            Ok(s) => {
                &&& s.port_name@ == port_name@
                &&& s.baud_rate == baud_rate
                &&& s.data_bits == 8
                &&& s.stop_bits == 1
                &&& !s.parity
                &&& s.timeout_ms == READ_TIMEOUT_MS
            },
            Err(SessionError::PortNotFound { port, available }) => {
                &&& port@ == port_name@
                &&& available@.map_values(|n: String| n@) == listed_names(listing)
            },
            Err(_) => false,
        },
{
    if port_exists(&listing, port_name) {
        Ok(
            PortSettings {
                port_name: port_name.to_owned(),
                baud_rate,
                data_bits: 8,
                stop_bits: 1,
                parity: false,
                timeout_ms: READ_TIMEOUT_MS,
            },
        )
    } else {
        let available = match listing {
            Some(v) => v,
            None => Vec::new(),
        };
        proof {
            assert(available@.map_values(|n: String| n@) =~= listed_names(listing));
        }
        Err(SessionError::PortNotFound { port: port_name.to_owned(), available })
    }
}

} // verus!
