use vstd::prelude::*;
use crate::events::{LogLevel, LogMode, SentinelEvent};

verus! {

/// The two process-wide logging settings, held as their numeric codes.
/// Starts at info level in compact mode.
#[derive(Debug, Clone, Copy)]
pub struct LogCells {
    pub level: u8,
    pub mode: u8,
}

impl LogCells {
    pub fn new() -> (r: LogCells)
        ensures
            r.level == 3,
            r.mode == 0,
    {
        LogCells { level: 3, mode: 0 }
    }
}

pub fn set_logging_level(cells: &mut LogCells, l: LogLevel)
    ensures
        final(cells).level == l.spec_code(),
        final(cells).mode == old(cells).mode,
{
    cells.level = l.code();
}

pub fn set_logging_mode(cells: &mut LogCells, m: LogMode)
    ensures
        final(cells).mode == m.spec_code(),
        final(cells).level == old(cells).level,
{
    cells.mode = m.code();
}

pub fn get_log_level(cells: &LogCells) -> (r: LogLevel)
    ensures
        r == LogLevel::spec_from_u8(cells.level),
{
    LogLevel::from_u8(cells.level)
}

pub fn get_log_mode(cells: &LogCells) -> (r: LogMode)
    ensures
        r == (if cells.mode == 1 {
            LogMode::Json
        } else {
            LogMode::Compact
        }),
{
    LogMode::from_u8(cells.mode)
}

/// Whether an event passes the configured level: its severity is no more
/// verbose than the level.
pub fn should_emit(event: &SentinelEvent, level: LogLevel) -> (r: bool)
    ensures
        r == (event.spec_severity().spec_code() <= level.spec_code()),
{
    event.severity().code() <= level.code()
}

/// Whether an event is also sent as a desktop notification: the warnings,
/// kill verdicts and executions, and messages at error level.
pub fn notifies(event: &SentinelEvent) -> (r: bool)
    ensures
        r == match event {
            SentinelEvent::LowMemoryWarn { .. }
            | SentinelEvent::LowSwapWarn { .. }
            | SentinelEvent::PsiPressureWarn { .. }
            | SentinelEvent::KillExecuted { .. }
            | SentinelEvent::KillTriggered { .. } => true,
            SentinelEvent::Message { level, .. } => *level == LogLevel::Error,
            _ => false,
        },
{
    match event {
        SentinelEvent::LowMemoryWarn { .. }
        | SentinelEvent::LowSwapWarn { .. }
        | SentinelEvent::PsiPressureWarn { .. }
        | SentinelEvent::KillExecuted { .. }
        | SentinelEvent::KillTriggered { .. } => true,
        SentinelEvent::Message { level, .. } => match level {
            LogLevel::Error => true,
            _ => false,
        },
        _ => false,
    }
}

} // verus!
