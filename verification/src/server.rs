//! Settings of the web server that are fixed in the code.

use vstd::prelude::*;

use crate::decimal::{decimal_digits, decimal_text};

verus! {

/// Seconds between two runs of the clean-up of old files.
pub const CLEANUP_INTERVAL_SECS: u64 = 3600u64;

/// How many videos are converted at the same time.
pub const PROCESSING_SLOTS: usize = 4usize;

/// The address the server listens on: `<host>:<port>`.
pub fn listen_address(host: &str, port: u16) -> (res: String)
    ensures
        res@ == host@ + ":"@ + decimal_digits(port as nat),
{
    let mut address = host.to_owned();
    address.append(":");
    let digits = decimal_text(port as u64);
    address.append(digits.as_str());
    address
}

} // verus!
