//! Reading the command line's values.
use vstd::prelude::*;

use crate::text::{parse_u64, parse_unsigned_spec};

verus! {

/// The timeout in seconds given on the command line: the argument read as a `u64`,
/// or 300 when it does not read as one.
pub fn parse_timeout(arg: &str) -> (secs: u64)
    ensures
        secs as int == match parse_unsigned_spec(arg@, u64::MAX as int) {
            Some(v) => v,
            None => 300,
        },
{
    match parse_u64(arg) {
        Some(v) => v,
        None => 300,
    }
}

} // verus!
