use vstd::prelude::*;
use crate::config_error::{ConfigError, ConfigField};
use crate::psi::{
    percent_in_range, percent_u64, spec_psi_parse, PsiConfig, PsiConfigParsed, PsiError,
    FULL_PERCENT, MAX_INTERVAL_MS, MIN_INTERVAL_MS,
};
use crate::text::{is_prefix_of, is_suffix_of, occurs_in, str_contains, str_strip_prefix, str_strip_suffix};
use crate::utils::{parse_size, size_value};

verus! {

#[verifier::external_type_specification]
#[verifier::external_body]
pub struct ExRegex(regex::Regex);

/// Whether the regex engine accepts `src` as a pattern.
pub uninterp spec fn regex_compiles(src: Seq<char>) -> bool;

/// Whether the regex compiled from `src` matches somewhere in `text`.
pub uninterp spec fn regex_finds(src: Seq<char>, text: Seq<char>) -> bool;

/// Relies on `regex::Regex::new`: whether it succeeds depends on the
/// pattern text alone; the error is kept as its message.
#[verifier::external_body]
fn compile_regex(src: &str) -> (r: Result<regex::Regex, String>)
    ensures
        r is Ok <==> regex_compiles(src@),
{
    match regex::Regex::new(src) {
        Ok(re) => Ok(re),
        Err(e) => Err(e.to_string()),
    }
}

/// A compiled regular expression together with the text it was compiled
/// from. Only `RegexMatcher::new` builds one, so the two always agree.
#[derive(Debug)]
pub struct RegexMatcher {
    source: String,
    compiled: regex::Regex,
}

/// Relies on `regex::Regex::is_match`: the answer depends on the pattern
/// the regex was compiled from and on the text alone.
#[verifier::external_body]
fn regex_is_match(m: &RegexMatcher, text: &str) -> (r: bool)
    ensures
        r == regex_finds(m.source_view(), text@),
{
    m.compiled.is_match(text)
}

impl RegexMatcher {
    pub closed spec fn source_view(&self) -> Seq<char> {
        self.source@
    }

    /// Compiles `src`; the error is the regex engine's message.
    pub fn new(src: &str) -> (r: Result<RegexMatcher, String>)
        ensures
            r is Ok <==> regex_compiles(src@),
            r matches Ok(m) ==> m.source_view() == src@,
    {
        match compile_regex(src) {
            Ok(compiled) => Ok(RegexMatcher { source: src.to_owned(), compiled }),
            Err(e) => Err(e),
        }
    }

    /// The text the expression was compiled from.
    pub fn source(&self) -> (r: &str)
        ensures
            r@ == self.source_view(),
    {
        self.source.as_str()
    }

    pub fn is_match(&self, text: &str) -> (r: bool)
        ensures
            r == regex_finds(self.source_view(), text@),
    {
        regex_is_match(self, text)
    }
}

/// How candidates are scored within one preference class.
#[derive(Debug, Clone, Copy, PartialEq, Eq, Structural)]
pub enum KillStrategy {
    LargestRss,
    HighestOomScore,
}

/// A matcher against a process command line.
#[derive(Debug)]
pub enum Pattern {
    /// Substring containment.
    Literal(String),
    Regex(RegexMatcher),
    /// Prefix match.
    StartsWith(String),
}

pub open spec fn pattern_matches(p: Pattern, s: Seq<char>) -> bool {
    match p {
        Pattern::Literal(lit) => occurs_in(lit@, s),
        Pattern::Regex(m) => regex_finds(m.source_view(), s),
        Pattern::StartsWith(prefix) => is_prefix_of(prefix@, s),
    }
}

impl Pattern {
    pub fn matches(&self, s: &str) -> (r: bool)
        ensures
            r == pattern_matches(*self, s@),
    {
        match self {
            Pattern::Literal(lit) => str_contains(s, lit.as_str()),
            Pattern::Regex(re) => re.is_match(s),
            Pattern::StartsWith(prefix) => str_strip_prefix(s, prefix.as_str()).is_some(),
        }
    }
}

/// The body of a `/…/` entry: text between a leading and a trailing slash,
/// when it is not empty.
pub open spec fn regex_body(raw: Seq<char>) -> Option<Seq<char>> {
    if raw.len() > 2 && raw[0] == '/' && raw[raw.len() - 1] == '/' {
        Some(raw.subrange(1, raw.len() - 1))
    } else {
        None
    }
}

/// The prefix of a `^…` entry: the rest of the entry, possibly empty.
pub open spec fn prefix_body(raw: Seq<char>) -> Option<Seq<char>> {
    if raw.len() >= 1 && raw[0] == '^' {
        Some(raw.skip(1))
    } else {
        None
    }
}

/// `p` is what the entry `raw` denotes: `/x/` a regex of `x`, `^x` a prefix
/// `x` (a lone `^` the empty prefix), anything else a literal of itself.
pub open spec fn has_shape(raw: Seq<char>, p: Pattern) -> bool {
    match regex_body(raw) {
        Some(b) => p matches Pattern::Regex(m) && m.source_view() == b,
        None => match prefix_body(raw) {
            Some(b) => p matches Pattern::StartsWith(t) && t@ == b,
            None => p matches Pattern::Literal(t) && t@ == raw,
        },
    }
}

/// A pattern's behaviour is fixed by its entry text: two patterns built
/// from the same entry match the same command lines. A configuration that
/// keeps its entries as text through serialization therefore keeps what
/// they match.
pub proof fn lemma_shape_fixes_behaviour(raw: Seq<char>, p: Pattern, q: Pattern, s: Seq<char>)
    requires
        has_shape(raw, p),
        has_shape(raw, q),
    ensures
        pattern_matches(p, s) == pattern_matches(q, s),
{
}

/// An entry that asks for a regex the engine refuses.
pub open spec fn regex_rejects(raw: Seq<char>) -> bool {
    regex_body(raw) matches Some(b) && !regex_compiles(b)
}

/// Turns one configuration entry into a pattern; the error is the regex
/// engine's message.
pub fn compile_pattern(raw: &str) -> (r: Result<Pattern, String>)
    ensures
        r is Ok <==> !regex_rejects(raw@),
        r matches Ok(p) ==> has_shape(raw@, p),
{
    proof {
        reveal_strlit("/");
        reveal_strlit("^");
    }
    let ghost s = raw@;
    if let Some(rest) = str_strip_prefix(raw, "/") {
        assert(s.subrange(0, 1)[0] == s[0]);
        if let Some(b) = str_strip_suffix(rest, "/") {
            assert(b@ =~= s.subrange(1, s.len() - 1));
            assert(s[s.len() - 1] == s.skip(1).subrange(s.len() - 2, s.len() - 1)[0]);
            if !b.is_empty() {
                assert(regex_body(s) == Some(b@));
                return match RegexMatcher::new(b) {
                    Ok(m) => Ok(Pattern::Regex(m)),
                    Err(e) => Err(e),
                };
            }
        } else {
            proof {
                if s.len() > 2 && s[s.len() - 1] == '/' {
                    assert(s.skip(1).subrange(s.len() - 2, s.len() - 1) =~= "/"@);
                }
            }
        }
    } else {
        proof {
            if s.len() > 2 && s[0] == '/' {
                assert(s.subrange(0, 1) =~= "/"@);
            }
        }
    }
    assert(regex_body(s) is None);
    if let Some(rest) = str_strip_prefix(raw, "^") {
        assert(s.subrange(0, 1)[0] == s[0]);
        assert(prefix_body(s) == Some(rest@));
        return Ok(Pattern::StartsWith(rest.to_owned()));
    } else {
        proof {
            if s.len() >= 1 && s[0] == '^' {
                assert(s.subrange(0, 1) =~= "^"@);
            }
        }
    }
    Ok(Pattern::Literal(raw.to_owned()))
}

/// Compiles a list of entries in order; the first entry whose regex is
/// refused makes the whole list fail.
pub fn compile_patterns(raw: &Vec<String>, field: ConfigField) -> (r: Result<Vec<Pattern>, ConfigError>)
    ensures
        match r {
            Ok(ps) => {
                &&& ps@.len() == raw@.len()
                &&& forall|i: int| 0 <= i < raw@.len() ==> has_shape(raw@[i]@, #[trigger] ps@[i])
                &&& forall|i: int| 0 <= i < raw@.len() ==> !regex_rejects(#[trigger] raw@[i]@)
            },
            Err(e) => e matches ConfigError::RegexError(f, j, pat, _) && f == field && j
                < raw@.len() && pat@ == raw@[j as int]@ && regex_rejects(raw@[j as int]@) && forall|
                k: int,
            | 0 <= k < j ==> !regex_rejects(#[trigger] raw@[k]@),
        },
{
    let mut patterns: Vec<Pattern> = Vec::new();
    let mut i: usize = 0;
    while i < raw.len()
        invariant
            i <= raw@.len(),
            patterns@.len() == i,
            forall|k: int| 0 <= k < i ==> has_shape(raw@[k]@, #[trigger] patterns@[k]),
            forall|k: int| 0 <= k < i ==> !regex_rejects(#[trigger] raw@[k]@),
        decreases raw@.len() - i,
    {
        match compile_pattern(raw[i].as_str()) {
            Ok(p) => patterns.push(p),
            Err(msg) => {
                return Err(ConfigError::RegexError(field, i, raw[i].clone(), msg));
            },
        }
        i = i + 1;
    }
    Ok(patterns)
}


/// One memory gauge's thresholds as written in the configuration file.
/// Byte thresholds are size strings; percentages are in hundredths of a
/// percent (`500` is 5%).
#[derive(Debug, Clone)]
pub struct MemoryConfig {
    pub warn_min_free_bytes: Option<String>,
    pub warn_min_free_percent: Option<i64>,
    pub kill_min_free_bytes: Option<String>,
    pub kill_min_free_percent: Option<i64>,
}

/// One memory gauge's validated thresholds. Percentages are in hundredths
/// of a percent. A byte threshold, when set, overrides the percentage of
/// the same tier.
#[derive(Debug, Clone, Copy)]
pub struct MemoryConfigParsed {
    pub warn_min_free_bytes: Option<u64>,
    pub warn_min_free_percent: Option<u64>,
    pub kill_min_free_bytes: Option<u64>,
    pub kill_min_free_percent: Option<u64>,
}

impl MemoryConfig {
    pub open spec fn spec_is_effectively_empty(&self) -> bool {
        &&& self.warn_min_free_bytes is None
        &&& self.warn_min_free_percent is None
        &&& self.kill_min_free_bytes is None
        &&& self.kill_min_free_percent is None
    }

    /// No threshold is set.
    pub fn is_effectively_empty(&self) -> (r: bool)
        ensures
            r == self.spec_is_effectively_empty(),
    {
        self.warn_min_free_bytes.is_none() && self.warn_min_free_percent.is_none()
            && self.kill_min_free_bytes.is_none() && self.kill_min_free_percent.is_none()
    }
}

pub open spec fn size_unparsable(s: Option<String>) -> bool {
    s matches Some(t) && size_value(t@) is None
}

pub open spec fn parsed_size(s: Option<String>) -> Option<u64> {
    match s {
        Some(t) => size_value(t@),
        None => None,
    }
}

/// The checks of a memory section in order: the warn and then the kill
/// size string must parse, then the warn and then the kill percentage must
/// lie within 0..=100%.
pub open spec fn spec_memory_parse(c: MemoryConfig) -> Result<MemoryConfigParsed, ConfigError> {
    if size_unparsable(c.warn_min_free_bytes) {
        Err(ConfigError::InvalidSize(ConfigField::WarnMinFreeBytes, c.warn_min_free_bytes->0))
    } else if size_unparsable(c.kill_min_free_bytes) {
        Err(ConfigError::InvalidSize(ConfigField::KillMinFreeBytes, c.kill_min_free_bytes->0))
    } else if c.warn_min_free_percent is Some && !percent_in_range(c.warn_min_free_percent->0) {
        Err(ConfigError::InvalidPercent(ConfigField::WarnMinFreePercent, c.warn_min_free_percent->0))
    } else if c.kill_min_free_percent is Some && !percent_in_range(c.kill_min_free_percent->0) {
        Err(ConfigError::InvalidPercent(ConfigField::KillMinFreePercent, c.kill_min_free_percent->0))
    } else {
        Ok(
            MemoryConfigParsed {
                warn_min_free_bytes: parsed_size(c.warn_min_free_bytes),
                warn_min_free_percent: percent_u64(c.warn_min_free_percent),
                kill_min_free_bytes: parsed_size(c.kill_min_free_bytes),
                kill_min_free_percent: percent_u64(c.kill_min_free_percent),
            },
        )
    }
}

fn parse_threshold_size(s: &Option<String>, field: ConfigField) -> (r: Result<Option<u64>, ConfigError>)
    ensures
        size_unparsable(*s) ==> r == Err::<Option<u64>, ConfigError>(
            ConfigError::InvalidSize(field, s->0),
        ),
        !size_unparsable(*s) ==> r == Ok::<Option<u64>, ConfigError>(parsed_size(*s)),
{
    match s {
        None => Ok(None),
        Some(t) => match parse_size(t.as_str()) {
            Some(v) => Ok(Some(v)),
            None => Err(ConfigError::InvalidSize(field, t.clone())),
        },
    }
}

impl MemoryConfigParsed {
    pub open spec fn wf(&self) -> bool {
        &&& self.warn_min_free_percent matches Some(p) ==> p <= FULL_PERCENT
        &&& self.kill_min_free_percent matches Some(p) ==> p <= FULL_PERCENT
    }

    pub open spec fn spec_is_effectively_empty(&self) -> bool {
        &&& self.warn_min_free_bytes is None
        &&& self.warn_min_free_percent is None
        &&& self.kill_min_free_bytes is None
        &&& self.kill_min_free_percent is None
    }

    /// Parses the size strings and checks the percentages of a memory section.
    pub fn try_from_config(config: MemoryConfig) -> (r: Result<Self, ConfigError>)
        ensures
            r == spec_memory_parse(config),
            r matches Ok(m) ==> m.wf() && (m.spec_is_effectively_empty()
                <==> config.spec_is_effectively_empty()),
    {
        let warn_min_free_bytes = match parse_threshold_size(
            &config.warn_min_free_bytes,
            ConfigField::WarnMinFreeBytes,
        ) {
            Ok(v) => v,
            Err(e) => {
                return Err(e);
            },
        };
        let kill_min_free_bytes = match parse_threshold_size(
            &config.kill_min_free_bytes,
            ConfigField::KillMinFreeBytes,
        ) {
            Ok(v) => v,
            Err(e) => {
                return Err(e);
            },
        };
        if let Some(p) = config.warn_min_free_percent {
            if p < 0 || p > 10000 {
                return Err(ConfigError::InvalidPercent(ConfigField::WarnMinFreePercent, p));
            }
        }
        if let Some(p) = config.kill_min_free_percent {
            if p < 0 || p > 10000 {
                return Err(ConfigError::InvalidPercent(ConfigField::KillMinFreePercent, p));
            }
        }
        let warn_min_free_percent = match config.warn_min_free_percent {
            Some(p) => Some(p as u64),
            None => None,
        };
        let kill_min_free_percent = match config.kill_min_free_percent {
            Some(p) => Some(p as u64),
            None => None,
        };
        Ok(MemoryConfigParsed {
            warn_min_free_bytes,
            warn_min_free_percent,
            kill_min_free_bytes,
            kill_min_free_percent,
        })
    }
}

pub fn default_interval() -> (r: u64)
    ensures
        r == 1000,
{
    1000
}

pub fn warn_interval() -> (r: u64)
    ensures
        r == 30000,
{
    30000
}

pub fn sigterm_wait_ms() -> (r: u64)
    ensures
        r == 5000,
{
    5000
}

pub fn default_strategy() -> (r: KillStrategy)
    ensures
        r == KillStrategy::HighestOomScore,
{
    KillStrategy::HighestOomScore
}

pub fn default_kill_targets() -> (r: Vec<String>)
    ensures
        r@.len() == 2,
        r@[0]@ == "type=renderer"@,
        r@[1]@ == "-contentproc"@,
{
    let mut v: Vec<String> = Vec::new();
    v.push("type=renderer".to_owned());
    v.push("-contentproc".to_owned());
    v
}

/// The configuration as written in the file, before validation.
#[derive(Debug, Clone)]
pub struct Config {
    pub psi: Option<PsiConfig>,
    pub ram: Option<MemoryConfig>,
    pub swap: Option<MemoryConfig>,
    pub check_interval_ms: u64,
    pub warn_reset_ms: u64,
    pub sigterm_wait_ms: u64,
    pub ignore_names: Vec<String>,
    pub kill_targets: Vec<String>,
    pub kill_strategy: KillStrategy,
}

/// The validated configuration that the sampler and the kill engine read.
#[derive(Debug)]
pub struct RuntimeContext {
    pub psi: Option<PsiConfigParsed>,
    pub ram: Option<MemoryConfigParsed>,
    pub swap: Option<MemoryConfigParsed>,
    pub check_interval_ms: u64,
    pub warn_reset_ms: u64,
    pub sigterm_wait_ms: u64,
    pub kill_strategy: KillStrategy,
    pub ignore_names_regex: Vec<Pattern>,
    pub kill_targets_regex: Vec<Pattern>,
}

pub open spec fn psi_section_empty(p: Option<PsiConfig>) -> bool {
    p matches Some(c) ==> c.spec_is_effectively_empty()
}

pub open spec fn memory_section_empty(m: Option<MemoryConfig>) -> bool {
    m matches Some(c) ==> c.spec_is_effectively_empty()
}

/// The checks on a whole configuration in order: some tier holds a
/// threshold, and the interval lies within 100..=300000 ms.
pub open spec fn spec_validate(c: Config) -> Result<(), ConfigError> {
    if psi_section_empty(c.psi) && memory_section_empty(c.ram) && memory_section_empty(c.swap) {
        Err(ConfigError::EffectiveEmpty)
    } else if c.check_interval_ms > MAX_INTERVAL_MS {
        Err(ConfigError::IntervalTooHigh(c.check_interval_ms))
    } else if c.check_interval_ms < MIN_INTERVAL_MS {
        Err(ConfigError::IntervalTooLow(c.check_interval_ms))
    } else {
        Ok(())
    }
}

/// With some tier enabled, validation accepts exactly the intervals in
/// 100..=300000 ms; a shorter one is refused with exit code 6 and a longer
/// one with exit code 5.
pub proof fn lemma_interval_bounds(c: Config)
    requires
        !(psi_section_empty(c.psi) && memory_section_empty(c.ram) && memory_section_empty(c.swap)),
    ensures
        spec_validate(c) is Ok <==> MIN_INTERVAL_MS <= c.check_interval_ms <= MAX_INTERVAL_MS,
        c.check_interval_ms < MIN_INTERVAL_MS ==> spec_validate(c) == Err::<(), ConfigError>(
            ConfigError::IntervalTooLow(c.check_interval_ms),
        ) && ConfigError::IntervalTooLow(c.check_interval_ms).spec_exit_code() == 6,
        c.check_interval_ms > MAX_INTERVAL_MS ==> spec_validate(c) == Err::<(), ConfigError>(
            ConfigError::IntervalTooHigh(c.check_interval_ms),
        ) && ConfigError::IntervalTooHigh(c.check_interval_ms).spec_exit_code() == 5,
{
}

/// Every entry of a list compiles.
pub open spec fn entries_compile(raw: Seq<String>) -> bool {
    forall|i: int| 0 <= i < raw.len() ==> !regex_rejects(#[trigger] raw[i]@)
}

/// The PSI tier after validation and the availability probe. A section
/// is validated whenever present, but only one with a threshold enables the
/// tier and needs the pressure file.
pub open spec fn psi_stage(c: Config, total_ram: u64, probe: Result<(), PsiError>) -> Result<
    Option<PsiConfigParsed>,
    ConfigError,
> {
    match c.psi {
        None => Ok(None),
        Some(p) => match spec_psi_parse(p, c.check_interval_ms, total_ram) {
            Err(e) => Err(ConfigError::PsiConfig(e)),
            Ok(parsed) => if p.spec_is_effectively_empty() {
                Ok(None)
            } else {
                match probe {
                    Err(e) => Err(ConfigError::PsiUnavailable(e)),
                    Ok(_) => Ok(Some(parsed)),
                }
            },
        },
    }
}

/// Whether a configuration enables the PSI tier, and so needs the
/// pressure file.
pub open spec fn spec_needs_psi(c: Config) -> bool {
    c.psi matches Some(p) && !p.spec_is_effectively_empty()
}

pub open spec fn memory_stage(m: Option<MemoryConfig>) -> Result<Option<MemoryConfigParsed>, ConfigError> {
    match m {
        None => Ok(None),
        Some(c) => match spec_memory_parse(c) {
            Err(e) => Err(e),
            Ok(p) => Ok(Some(p)),
        },
    }
}

pub open spec fn memory_tier_set(m: Option<MemoryConfigParsed>) -> bool {
    m matches Some(c) && !c.spec_is_effectively_empty()
}

pub open spec fn psi_tier_set(p: Option<PsiConfigParsed>) -> bool {
    p matches Some(c) && (c.warn_max_percent is Some || c.kill_max_percent is Some)
}

impl RuntimeContext {
    /// What every context that the loader hands out satisfies.
    pub open spec fn wf(&self, total_ram: u64) -> bool {
        &&& psi_tier_set(self.psi) || memory_tier_set(self.ram) || memory_tier_set(self.swap)
        &&& MIN_INTERVAL_MS <= self.check_interval_ms <= MAX_INTERVAL_MS
        &&& self.psi matches Some(p) ==> p.wf(total_ram)
        &&& self.ram matches Some(m) ==> m.wf()
        &&& self.swap matches Some(m) ==> m.wf()
    }

    /// Every compiled pattern has the shape its entry in `c` asks for.
    pub open spec fn compiled_from(&self, c: Config) -> bool {
        &&& self.ignore_names_regex@.len() == c.ignore_names@.len()
        &&& forall|i: int|
            0 <= i < c.ignore_names@.len() ==> has_shape(
                c.ignore_names@[i]@,
                #[trigger] self.ignore_names_regex@[i],
            )
        &&& self.kill_targets_regex@.len() == c.kill_targets@.len()
        &&& forall|i: int|
            0 <= i < c.kill_targets@.len() ==> has_shape(
                c.kill_targets@[i]@,
                #[trigger] self.kill_targets_regex@[i],
            )
    }
}

impl Config {
    /// Whether the PSI tier is enabled: a PSI section with a threshold.
    /// Only then does loading consult the pressure file.
    pub fn needs_psi(&self) -> (r: bool)
        ensures
            r == spec_needs_psi(*self),
    {
        match &self.psi {
            Some(p) => !p.is_effectively_empty(),
            None => false,
        }
    }

    /// Checks that some tier is enabled and that the interval is in range.
    pub fn validate(&self) -> (r: Result<(), ConfigError>)
        ensures
            r == spec_validate(*self),
    {
        let psi_empty = match &self.psi {
            None => true,
            Some(p) => p.is_effectively_empty(),
        };
        let ram_empty = match &self.ram {
            None => true,
            Some(m) => m.is_effectively_empty(),
        };
        let swap_empty = match &self.swap {
            None => true,
            Some(m) => m.is_effectively_empty(),
        };
        if psi_empty && ram_empty && swap_empty {
            return Err(ConfigError::EffectiveEmpty);
        }
        if self.check_interval_ms > 300000 {
            return Err(ConfigError::IntervalTooHigh(self.check_interval_ms));
        }
        if self.check_interval_ms < 100 {
            return Err(ConfigError::IntervalTooLow(self.check_interval_ms));
        }
        Ok(())
    }

    /// The configuration used when no file is found: warn below 10% free
    /// RAM, kill below 5%, empty PSI and swap sections, and the defaults
    /// for every other setting.
    pub fn sane_defaults() -> (r: Config)
        ensures
            r.psi matches Some(p) && p.spec_is_effectively_empty() && p.amount_to_free is None
                && p.check_interval_ms is None,
            r.ram matches Some(m) && m.warn_min_free_percent == Some(1000i64)
                && m.kill_min_free_percent == Some(500i64) && m.warn_min_free_bytes is None
                && m.kill_min_free_bytes is None,
            r.swap matches Some(m) && m.spec_is_effectively_empty(),
            r.check_interval_ms == 1000,
            r.warn_reset_ms == 30000,
            r.sigterm_wait_ms == 5000,
            r.ignore_names@.len() == 0,
            r.kill_targets@.len() == 2,
            r.kill_targets@[0]@ == "type=renderer"@,
            r.kill_targets@[1]@ == "-contentproc"@,
            r.kill_strategy == KillStrategy::HighestOomScore,
    {
        Config {
            psi: Some(
                PsiConfig {
                    warn_max_percent: None,
                    kill_max_percent: None,
                    amount_to_free: None,
                    check_interval_ms: None,
                },
            ),
            ram: Some(
                MemoryConfig {
                    warn_min_free_bytes: None,
                    warn_min_free_percent: Some(1000),
                    kill_min_free_bytes: None,
                    kill_min_free_percent: Some(500),
                },
            ),
            swap: Some(
                MemoryConfig {
                    warn_min_free_bytes: None,
                    warn_min_free_percent: None,
                    kill_min_free_bytes: None,
                    kill_min_free_percent: None,
                },
            ),
            check_interval_ms: default_interval(),
            warn_reset_ms: warn_interval(),
            sigterm_wait_ms: sigterm_wait_ms(),
            ignore_names: Vec::new(),
            kill_targets: default_kill_targets(),
            kill_strategy: default_strategy(),
        }
    }

    /// Validates a configuration that was read from a file (or the defaults)
    /// and builds the runtime context. `total_ram` is the machine's RAM in
    /// bytes; `psi_probe` is the outcome of reading the pressure file, which
    /// matters only when the PSI tier is enabled (see `needs_psi`).
    pub fn load(config: Config, total_ram: u64, psi_probe: Result<(), PsiError>) -> (r: Result<
        RuntimeContext,
        ConfigError,
    >)
        ensures
            spec_validate(config) matches Err(e) ==> r == Err::<RuntimeContext, ConfigError>(e),
            spec_validate(config) is Ok && !entries_compile(config.ignore_names@) ==> (r matches Err(
                ConfigError::RegexError(f, j, pat, _),
            ) && f == ConfigField::IgnoreNames && j < config.ignore_names@.len() && pat@
                == config.ignore_names@[j as int]@ && regex_rejects(config.ignore_names@[j as int]@)
                && forall|k: int|
                0 <= k < j ==> !regex_rejects(#[trigger] config.ignore_names@[k]@)),
            spec_validate(config) is Ok && entries_compile(config.ignore_names@)
                && !entries_compile(config.kill_targets@) ==> (r matches Err(
                ConfigError::RegexError(f, j, pat, _),
            ) && f == ConfigField::KillTargets && j < config.kill_targets@.len() && pat@
                == config.kill_targets@[j as int]@ && regex_rejects(config.kill_targets@[j as int]@)
                && forall|k: int|
                0 <= k < j ==> !regex_rejects(#[trigger] config.kill_targets@[k]@)),
            spec_validate(config) is Ok && entries_compile(config.ignore_names@) && entries_compile(
                config.kill_targets@,
            ) ==> match (
                psi_stage(config, total_ram, psi_probe),
                memory_stage(config.ram),
                memory_stage(config.swap),
            ) {
                (Err(e), _, _) => r == Err::<RuntimeContext, ConfigError>(e),
                (Ok(_), Err(e), _) => r == Err::<RuntimeContext, ConfigError>(e),
                (Ok(_), Ok(_), Err(e)) => r == Err::<RuntimeContext, ConfigError>(e),
                (Ok(p), Ok(m), Ok(s)) => r matches Ok(ctx) && ctx.psi == p && ctx.ram == m
                    && ctx.swap == s && ctx.check_interval_ms == config.check_interval_ms
                    && ctx.warn_reset_ms == config.warn_reset_ms && ctx.sigterm_wait_ms
                    == config.sigterm_wait_ms && ctx.kill_strategy == config.kill_strategy
                    && ctx.compiled_from(config),
            },
            r matches Ok(ctx) ==> ctx.wf(total_ram) && ctx.compiled_from(config),
    {
        match config.validate() {
            Ok(()) => {},
            Err(e) => {
                return Err(e);
            },
        }
        let ignore_names_regex = match compile_patterns(&config.ignore_names, ConfigField::IgnoreNames) {
            Ok(v) => v,
            Err(e) => {
                return Err(e);
            },
        };
        let kill_targets_regex = match compile_patterns(&config.kill_targets, ConfigField::KillTargets) {
            Ok(v) => v,
            Err(e) => {
                return Err(e);
            },
        };
        let psi = match config.psi {
            None => None,
            Some(p) => {
                let empty = p.is_effectively_empty();
                match PsiConfigParsed::try_from_config(p, config.check_interval_ms, total_ram) {
                    Err(e) => {
                        return Err(ConfigError::PsiConfig(e));
                    },
                    Ok(parsed) => if empty {
                        None
                    } else {
                        match psi_probe {
                            Err(e) => {
                                return Err(ConfigError::PsiUnavailable(e));
                            },
                            Ok(()) => Some(parsed),
                        }
                    },
                }
            },
        };
        let ram = match config.ram {
            None => None,
            Some(m) => match MemoryConfigParsed::try_from_config(m) {
                Err(e) => {
                    return Err(e);
                },
                Ok(parsed) => Some(parsed),
            },
        };
        let swap = match config.swap {
            None => None,
            Some(m) => match MemoryConfigParsed::try_from_config(m) {
                Err(e) => {
                    return Err(e);
                },
                Ok(parsed) => Some(parsed),
            },
        };
        Ok(RuntimeContext {
            psi,
            ram,
            swap,
            check_interval_ms: config.check_interval_ms,
            warn_reset_ms: config.warn_reset_ms,
            sigterm_wait_ms: config.sigterm_wait_ms,
            kill_strategy: config.kill_strategy,
            ignore_names_regex,
            kill_targets_regex,
        })
    }
}

} // verus!
