//! Verbosity of the C library's log.
//!
//! The level is global to the process and not thread-safe.

use vstd::prelude::*;

use crate::call::Call;

pub use crate::ffi::cuvsLogLevel_t as LogLevel;

verus! {

/// Asks for the current log level.
pub fn get_log_level() -> (r: Call<'static>)
    ensures
        r == Call::LogLevelGet,
{
    Call::LogLevelGet
}

/// Sets the log level.
pub fn set_log_level(level: LogLevel) -> (r: Call<'static>)
    ensures
        r == (Call::LogLevelSet { level }),
{
    Call::LogLevelSet { level }
}

} // verus!
