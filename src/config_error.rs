use vstd::prelude::*;
use crate::psi::PsiError;

verus! {

/// The configuration key that an error is about.
#[derive(Debug, Clone, Copy, PartialEq, Eq, Structural)]
pub enum ConfigField {
    WarnMinFreeBytes,
    KillMinFreeBytes,
    WarnMinFreePercent,
    KillMinFreePercent,
    IgnoreNames,
    KillTargets,
}

impl ConfigField {
    pub open spec fn spec_name(self) -> Seq<char> {
        match self {
            ConfigField::WarnMinFreeBytes => "warnMinFreeBytes"@,
            ConfigField::KillMinFreeBytes => "killMinFreeBytes"@,
            ConfigField::WarnMinFreePercent => "warnMinFreePercent"@,
            ConfigField::KillMinFreePercent => "killMinFreePercent"@,
            ConfigField::IgnoreNames => "ignore_names"@,
            ConfigField::KillTargets => "kill_targets"@,
        }
    }

    /// The key as it is written in messages.
    pub fn name(&self) -> (r: &'static str)
        ensures
            r@ == self.spec_name(),
    {
        let r = match self {
            ConfigField::WarnMinFreeBytes => "warnMinFreeBytes",
            ConfigField::KillMinFreeBytes => "killMinFreeBytes",
            ConfigField::WarnMinFreePercent => "warnMinFreePercent",
            ConfigField::KillMinFreePercent => "killMinFreePercent",
            ConfigField::IgnoreNames => "ignore_names",
            ConfigField::KillTargets => "kill_targets",
        };
        r
    }
}

/// Why a configuration was refused. Paths are held as text; percentages in
/// hundredths of a percent.
#[derive(Debug, Clone)]
pub enum ConfigError {
    /// The file and the reason it could not be read.
    FileRead(String, String),
    /// The file and the parser's message.
    FileParse(String, String),
    ConfigFileNotFound(String),
    EffectiveEmpty,
    IntervalTooHigh(u64),
    IntervalTooLow(u64),
    PsiConfig(PsiError),
    PsiUnavailable(PsiError),
    /// The list, the entry's index, the entry, and the regex engine's message.
    RegexError(ConfigField, usize, String, String),
    InvalidSize(ConfigField, String),
    InvalidPercent(ConfigField, i64),
}

impl ConfigError {
    pub open spec fn spec_exit_code(&self) -> i32 {
        match self {
            ConfigError::FileRead(..) => 2,
            ConfigError::ConfigFileNotFound(_) => 2,
            ConfigError::FileParse(..) => 3,
            ConfigError::EffectiveEmpty => 4,
            ConfigError::IntervalTooHigh(_) => 5,
            ConfigError::IntervalTooLow(_) => 6,
            ConfigError::PsiConfig(_) => 7,
            ConfigError::PsiUnavailable(_) => 8,
            ConfigError::RegexError(..) => 9,
            ConfigError::InvalidSize(..) => 10,
            ConfigError::InvalidPercent(..) => 11,
        }
    }

    /// The process exit code for the error, 2 through 11.
    pub fn exit_code(&self) -> (r: i32)
        ensures
            r == self.spec_exit_code(),
            2 <= r <= 11,
    {
        match self {
            ConfigError::FileRead(..) => 2,
            ConfigError::ConfigFileNotFound(_) => 2,
            ConfigError::FileParse(..) => 3,
            ConfigError::EffectiveEmpty => 4,
            ConfigError::IntervalTooHigh(_) => 5,
            ConfigError::IntervalTooLow(_) => 6,
            ConfigError::PsiConfig(_) => 7,
            ConfigError::PsiUnavailable(_) => 8,
            ConfigError::RegexError(..) => 9,
            ConfigError::InvalidSize(..) => 10,
            ConfigError::InvalidPercent(..) => 11,
        }
    }
}

} // verus!
