//! How much the helper logs.
use vstd::prelude::*;

verus! {

/// The most detailed kind of record that is logged.
#[derive(Debug, Clone, Copy, PartialEq, Eq, Structural)]
pub enum LogLevel {
    Info,
    Debug,
    Trace,
}

/// The level for a verbosity flag given `v` times: none or one gives
/// `Info`, two give `Debug`, more give `Trace`.
pub fn log_level(v: u32) -> (r: LogLevel)
    ensures
        v <= 1 ==> r == LogLevel::Info,
        v == 2 ==> r == LogLevel::Debug,
        v > 2 ==> r == LogLevel::Trace,
{
    if v <= 1 {
        LogLevel::Info
    } else if v == 2 {
        LogLevel::Debug
    } else {
        LogLevel::Trace
    }
}

} // verus!
