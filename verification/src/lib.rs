//! Reading and writing the host name of the machine, without the system calls.
//!
//! The operating system is asked by the caller. This crate holds what is
//! decided around those calls: how large the transfer buffer is, where the name
//! ends inside it, and which outcome a call's status stands for.

use vstd::prelude::*;
use vstd::utf8::{decode_utf8, valid_utf8};

pub mod bounds;
pub mod error;
pub mod nix;
pub mod text;
pub mod value;
pub mod windows;

pub use crate::bounds::{slice_reported, wrap_buffer};
pub use crate::error::SystemError;
pub use crate::value::{HostnameValue, NameUnits};

use crate::text::{lossy_text, text_of_bytes, text_of_units};

verus! {

/// The outcome of a query as text, for callers that want neither the error
/// nor the platform's encoding.
///
/// A failed query gives `None`. A name is read lossily: what is not valid in
/// its encoding becomes U+FFFD. Prefer the query's own outcome, which keeps
/// both the error and every unit of the name.
pub fn get_hostname(queried: Result<HostnameValue, SystemError>) -> (name: Option<String>)
    ensures
        match queried {
            Ok(value) => name matches Some(text) && text@ == lossy_text(value@),
            Err(_) => name is None,
        },
        queried matches Ok(HostnameValue::Bytes(bytes)) ==> (valid_utf8(bytes@) ==> (name
            matches Some(text) && text@ == decode_utf8(bytes@))),
{
    match queried {
        Ok(HostnameValue::Bytes(bytes)) => Some(text_of_bytes(&bytes)),
        Ok(HostnameValue::Wide(units)) => Some(text_of_units(&units)),
        Err(_) => None,
    }
}

} // verus!
