//! The two closed tables: stake by size code, window by duration code.

use vstd::prelude::*;
use crate::error::TradeError;

verus! {

/// The stake that each party locks, by size code: a tenth of a unit, one
/// unit, five units, a unit being 1 000 000 000 lamports.
pub open spec fn spec_escrow_amount(code: u8) -> Option<u64> {
    if code == 0 {
        Some(100_000_000u64)
    } else if code == 1 {
        Some(1_000_000_000u64)
    } else if code == 2 {
        Some(5_000_000_000u64)
    } else {
        None
    }
}

/// The length of the window in seconds, by duration code: five minutes, one
/// hour, one day.
pub open spec fn spec_duration_window(code: u8) -> Option<u32> {
    if code == 0 {
        Some(300u32)
    } else if code == 1 {
        Some(3_600u32)
    } else if code == 2 {
        Some(86_400u32)
    } else {
        None
    }
}

/// The longest window of the duration table, in seconds: one day.
pub const MAX_WINDOW: u32 = 86_400;

/// Looks a size code up. Codes other than 0, 1 and 2 are unknown.
pub fn escrow_amount(code: u8) -> (r: Result<u64, TradeError>)
    ensures
        match spec_escrow_amount(code) {
            Some(amount) => r == Ok::<u64, TradeError>(amount),
            None => r == Err::<u64, TradeError>(TradeError::InvalidContractSize),
        },
{
    match code {
        0 => Ok(100_000_000),
        1 => Ok(1_000_000_000),
        2 => Ok(5_000_000_000),
        _ => Err(TradeError::InvalidContractSize),
    }
}

/// Looks a duration code up. Codes other than 0, 1 and 2 are unknown.
pub fn duration_window(code: u8) -> (r: Result<u32, TradeError>)
    ensures
        match spec_duration_window(code) {
            Some(window) => r == Ok::<u32, TradeError>(window),
            None => r == Err::<u32, TradeError>(TradeError::InvalidDuration),
        },
{
    match code {
        0 => Ok(300),
        1 => Ok(3_600),
        2 => Ok(86_400),
        _ => Err(TradeError::InvalidDuration),
    }
}

} // verus!
