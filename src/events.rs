use vstd::prelude::*;

verus! {

/// Severity of an event; a larger code is more verbose.
#[derive(Debug, Clone, Copy, PartialEq, Eq, Structural)]
pub enum LogLevel {
    Error,
    Warn,
    Info,
    Debug,
}

/// Output format of the event stream.
#[derive(Debug, Clone, Copy, PartialEq, Eq, Structural)]
pub enum LogMode {
    Compact,
    Json,
}

impl LogLevel {
    /// The numeric code of the level: 1 (error) through 4 (debug).
    pub open spec fn spec_code(self) -> u8 {
        match self {
            LogLevel::Error => 1,
            LogLevel::Warn => 2,
            LogLevel::Info => 3,
            LogLevel::Debug => 4,
        }
    }

    pub open spec fn spec_from_u8(v: u8) -> LogLevel {
        if v == 1 {
            LogLevel::Error
        } else if v == 2 {
            LogLevel::Warn
        } else if v == 4 {
            LogLevel::Debug
        } else {
            LogLevel::Info
        }
    }

    pub fn code(&self) -> (r: u8)
        ensures
            r == self.spec_code(),
    {
        match self {
            LogLevel::Error => 1,
            LogLevel::Warn => 2,
            LogLevel::Info => 3,
            LogLevel::Debug => 4,
        }
    }

    /// Decodes a stored level; an unknown code falls back to `Info`.
    pub fn from_u8(v: u8) -> (r: LogLevel)
        ensures
            r == LogLevel::spec_from_u8(v),
            1 <= v <= 4 ==> r.spec_code() == v,
    {
        match v {
            1 => LogLevel::Error,
            2 => LogLevel::Warn,
            3 => LogLevel::Info,
            4 => LogLevel::Debug,
            _ => LogLevel::Info,
        }
    }

    pub open spec fn spec_as_str(self) -> Seq<char> {
        match self {
            LogLevel::Error => "ERROR"@,
            LogLevel::Warn => "WARN"@,
            LogLevel::Info => "INFO"@,
            LogLevel::Debug => "DEBUG"@,
        }
    }

    /// The upper-case name used in log lines.
    pub fn as_str(&self) -> (r: &'static str)
        ensures
            r@ == self.spec_as_str(),
    {
        match self {
            LogLevel::Error => "ERROR",
            LogLevel::Warn => "WARN",
            LogLevel::Info => "INFO",
            LogLevel::Debug => "DEBUG",
        }
    }
}

impl LogMode {
    pub open spec fn spec_code(self) -> u8 {
        match self {
            LogMode::Compact => 0,
            LogMode::Json => 1,
        }
    }

    pub fn code(&self) -> (r: u8)
        ensures
            r == self.spec_code(),
    {
        match self {
            LogMode::Compact => 0,
            LogMode::Json => 1,
        }
    }

    /// Decodes a stored mode; anything but 1 is `Compact`.
    pub fn from_u8(v: u8) -> (r: LogMode)
        ensures
            r == (if v == 1 {
                LogMode::Json
            } else {
                LogMode::Compact
            }),
    {
        match v {
            1 => LogMode::Json,
            _ => LogMode::Compact,
        }
    }
}

/// Which gauge tripped a kill verdict.
#[derive(Debug, Clone, Copy, PartialEq, Eq, Structural)]
pub enum Trigger {
    LowMemory,
    LowSwap,
    PsiPressure,
}

/// Whether a threshold was given in bytes or as a percentage.
#[derive(Debug, Clone, Copy, PartialEq, Eq, Structural)]
pub enum ThresholdKind {
    Bytes,
    Percent,
}

/// Which signal ended a victim.
#[derive(Debug, Clone, Copy, PartialEq, Eq, Structural)]
pub enum KillSignal {
    SigTerm,
    SigKill,
}

/// The event stream. Every percentage is in hundredths of a percent
/// (`525` is 5.25%).
#[derive(Debug, Clone)]
pub enum SentinelEvent {
    Message { level: LogLevel, text: String },
    Startup { interval_ms: u64 },
    Monitor {
        memory_available_bytes: Option<u64>,
        memory_available_percent: Option<u64>,
        swap_free_bytes: Option<u64>,
        swap_free_percent: Option<u64>,
        psi_pressure: Option<u64>,
    },
    LowMemoryWarn {
        available_bytes: u64,
        available_percent: u64,
        threshold_type: ThresholdKind,
        threshold_value: u64,
    },
    LowSwapWarn {
        free_bytes: u64,
        free_percent: u64,
        threshold_type: ThresholdKind,
        threshold_value: u64,
    },
    PsiPressureWarn { pressure_curr: u64, threshold: u64 },
    KillTriggered {
        trigger: Trigger,
        observed_value: u64,
        threshold_value: u64,
        threshold_type: ThresholdKind,
        amount_needed: Option<u64>,
    },
    KillCandidateSelected {
        pid: u32,
        process_name: String,
        score: u64,
        rss: u64,
        match_index: usize,
    },
    KillExecuted { pid: u32, process_name: String, strategy: KillSignal, rss_freed: u64 },
    KillSequenceAborted { reason: String },
    KillCandidateIgnored { pid: u32, reason: String },
}

impl SentinelEvent {
    pub open spec fn spec_severity(&self) -> LogLevel {
        match self {
            SentinelEvent::Message { level, .. } => *level,
            SentinelEvent::Monitor { .. } => LogLevel::Debug,
            SentinelEvent::LowMemoryWarn { .. }
            | SentinelEvent::LowSwapWarn { .. }
            | SentinelEvent::PsiPressureWarn { .. } => LogLevel::Warn,
            SentinelEvent::KillTriggered { .. } => LogLevel::Error,
            _ => LogLevel::Info,
        }
    }

    /// The log severity of the event: debug for the heartbeat, warn for the
    /// warnings, error for a kill verdict, info for the rest; a message
    /// carries its own.
    pub fn severity(&self) -> (r: LogLevel)
        ensures
            r == self.spec_severity(),
    {
        match self {
            SentinelEvent::Message { level, .. } => *level,
            SentinelEvent::Monitor { .. } => LogLevel::Debug,
            SentinelEvent::Startup { .. }
            | SentinelEvent::KillCandidateSelected { .. }
            | SentinelEvent::KillExecuted { .. }
            | SentinelEvent::KillSequenceAborted { .. }
            | SentinelEvent::KillCandidateIgnored { .. } => LogLevel::Info,
            SentinelEvent::LowMemoryWarn { .. }
            | SentinelEvent::LowSwapWarn { .. }
            | SentinelEvent::PsiPressureWarn { .. } => LogLevel::Warn,
            SentinelEvent::KillTriggered { .. } => LogLevel::Error,
        }
    }
}

} // verus!
