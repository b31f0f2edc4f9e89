use vstd::prelude::*;
use crate::text::{
    decimal_u64, is_ws, parse_u64, skip_token, skip_ws, token_end, token_start,
    lemma_token_bounds,
};
use crate::utils::{parse_size, size_value};

verus! {

/// Why a PSI threshold section was refused. Percentages are in hundredths
/// of a percent.
#[derive(Debug, Clone)]
pub enum PsiInvalid {
    WarnPercentOutOfRange(i64),
    KillPercentOutOfRange(i64),
    AmountMissing,
    AmountUnparsable(String),
    AmountZero,
    /// The amount and the total RAM it was held against.
    AmountTooLarge(u64, u64),
    IntervalOutOfRange(u64),
}

#[derive(Debug, Clone)]
pub enum PsiError {
    /// The pressure file could not be read; the text says why.
    Io(String),
    /// No `total=` token on a line that starts with `some`.
    FieldNotFound,
    /// The `total=` value is not a 64-bit unsigned integer.
    Parse,
    ValidationError(PsiInvalid),
}

/// The PSI section as written in the configuration file. Percentages are in
/// hundredths of a percent (`2000` is 20%).
#[derive(Debug, Clone)]
pub struct PsiConfig {
    pub warn_max_percent: Option<i64>,
    pub kill_max_percent: Option<i64>,
    pub amount_to_free: Option<String>,
    pub check_interval_ms: Option<u64>,
}

/// The validated PSI thresholds. Percentages are in hundredths of a percent.
#[derive(Debug, Clone)]
pub struct PsiConfigParsed {
    pub warn_max_percent: Option<u64>,
    pub kill_max_percent: Option<u64>,
    pub amount_to_free: Option<u64>,
    pub check_interval_ms: u64,
}

pub const MIN_INTERVAL_MS: u64 = 100;
pub const MAX_INTERVAL_MS: u64 = 300000;
/// One hundred percent, in hundredths of a percent.
pub const FULL_PERCENT: u64 = 10000;

impl PsiConfig {
    pub open spec fn spec_is_effectively_empty(&self) -> bool {
        self.warn_max_percent is None && self.kill_max_percent is None
    }

    /// No PSI threshold is set.
    pub fn is_effectively_empty(&self) -> (r: bool)
        ensures
            r == self.spec_is_effectively_empty(),
    {
        self.warn_max_percent.is_none() && self.kill_max_percent.is_none()
    }
}

pub open spec fn percent_in_range(p: i64) -> bool {
    0 <= p <= FULL_PERCENT
}

pub open spec fn percent_u64(p: Option<i64>) -> Option<u64> {
    match p {
        Some(v) => Some(v as u64),
        None => None,
    }
}

/// The PSI sampling interval: the configured one, else ten times the
/// global interval (saturating).
pub open spec fn psi_interval(c: PsiConfig, global_interval: u64) -> u64 {
    match c.check_interval_ms {
        Some(v) => v,
        None => if global_interval * 10 <= u64::MAX {
            (global_interval * 10) as u64
        } else {
            u64::MAX
        },
    }
}

/// What the configured amount to free becomes, or why it is refused.
pub open spec fn psi_amount(c: PsiConfig, total_ram: u64) -> Result<Option<u64>, PsiError> {
    match c.amount_to_free {
        None => Ok(None),
        Some(s) => match size_value(s@) {
            None => Err(PsiError::ValidationError(PsiInvalid::AmountUnparsable(s))),
            Some(v) => if v == 0 {
                Err(PsiError::ValidationError(PsiInvalid::AmountZero))
            } else if v > total_ram / 2 {
                Err(PsiError::ValidationError(PsiInvalid::AmountTooLarge(v, total_ram)))
            } else {
                Ok(Some(v))
            },
        },
    }
}

/// The checks of a PSI section in order: each percentage within 0..=100%, an
/// amount to free whenever a kill threshold is set, an amount that parses,
/// is not zero and is at most half the RAM, and an interval within
/// 100..=300000 ms.
pub open spec fn spec_psi_parse(c: PsiConfig, global_interval: u64, total_ram: u64) -> Result<
    PsiConfigParsed,
    PsiError,
> {
    if c.warn_max_percent is Some && !percent_in_range(c.warn_max_percent->0) {
        Err(
            PsiError::ValidationError(
                PsiInvalid::WarnPercentOutOfRange(c.warn_max_percent->0),
            ),
        )
    } else if c.kill_max_percent is Some && !percent_in_range(c.kill_max_percent->0) {
        Err(
            PsiError::ValidationError(
                PsiInvalid::KillPercentOutOfRange(c.kill_max_percent->0),
            ),
        )
    } else if c.kill_max_percent is Some && c.amount_to_free is None {
        Err(PsiError::ValidationError(PsiInvalid::AmountMissing))
    } else {
        match psi_amount(c, total_ram) {
            Err(e) => Err(e),
            Ok(amount) => {
                let iv = psi_interval(c, global_interval);
                if iv < MIN_INTERVAL_MS || iv > MAX_INTERVAL_MS {
                    Err(PsiError::ValidationError(PsiInvalid::IntervalOutOfRange(iv)))
                } else {
                    Ok(
                        PsiConfigParsed {
                            warn_max_percent: percent_u64(c.warn_max_percent),
                            kill_max_percent: percent_u64(c.kill_max_percent),
                            amount_to_free: amount,
                            check_interval_ms: iv,
                        },
                    )
                }
            },
        }
    }
}

impl PsiConfigParsed {
    /// What every accepted PSI section satisfies.
    pub open spec fn wf(&self, total_ram: u64) -> bool {
        &&& self.warn_max_percent matches Some(w) ==> w <= FULL_PERCENT
        &&& self.kill_max_percent matches Some(k) ==> k <= FULL_PERCENT
        &&& self.kill_max_percent is Some ==> self.amount_to_free is Some
        &&& self.amount_to_free matches Some(a) ==> 0 < a <= total_ram / 2
        &&& MIN_INTERVAL_MS <= self.check_interval_ms <= MAX_INTERVAL_MS
    }

    /// Validates a PSI section against the global interval and the total RAM.
    pub fn try_from_config(config: PsiConfig, global_interval: u64, total_ram: u64) -> (r: Result<
        Self,
        PsiError,
    >)
        ensures
            r == spec_psi_parse(config, global_interval, total_ram),
            r matches Ok(p) ==> p.wf(total_ram),
    {
        if let Some(warn) = config.warn_max_percent {
            if warn < 0 || warn > 10000 {
                return Err(
                    PsiError::ValidationError(PsiInvalid::WarnPercentOutOfRange(warn)),
                );
            }
        }
        if let Some(kill) = config.kill_max_percent {
            if kill < 0 || kill > 10000 {
                return Err(
                    PsiError::ValidationError(PsiInvalid::KillPercentOutOfRange(kill)),
                );
            }
        }
        if config.kill_max_percent.is_some() && config.amount_to_free.is_none() {
            return Err(PsiError::ValidationError(PsiInvalid::AmountMissing));
        }
        let amount_to_free = match &config.amount_to_free {
            None => None,
            Some(amt_str) => {
                let parsed = parse_size(amt_str.as_str());
                match parsed {
                    None => {
                        return Err(
                            PsiError::ValidationError(
                                PsiInvalid::AmountUnparsable(amt_str.clone()),
                            ),
                        );
                    },
                    Some(v) => {
                        if v == 0 {
                            return Err(PsiError::ValidationError(PsiInvalid::AmountZero));
                        }
                        if v > total_ram / 2 {
                            return Err(
                                PsiError::ValidationError(
                                    PsiInvalid::AmountTooLarge(v, total_ram),
                                ),
                            );
                        }
                        Some(v)
                    },
                }
            },
        };
        let check_interval_ms = match config.check_interval_ms {
            Some(v) => v,
            None => if global_interval <= u64::MAX / 10 {
                global_interval * 10
            } else {
                u64::MAX
            },
        };
        if check_interval_ms < 100 || check_interval_ms > 300000 {
            return Err(
                PsiError::ValidationError(PsiInvalid::IntervalOutOfRange(check_interval_ms)),
            );
        }
        let warn_max_percent = match config.warn_max_percent {
            Some(w) => Some(w as u64),
            None => None,
        };
        let kill_max_percent = match config.kill_max_percent {
            Some(k) => Some(k as u64),
            None => None,
        };
        Ok(PsiConfigParsed { warn_max_percent, kill_max_percent, amount_to_free, check_interval_ms })
    }
}


/// The end of the line that starts at `i`: the next line feed, or the end.
pub open spec fn line_end(s: Seq<u8>, i: int) -> int
    decreases s.len() - i,
{
    if 0 <= i < s.len() && s[i] != 10 {
        line_end(s, i + 1)
    } else {
        i
    }
}

pub open spec fn bytes_at(s: Seq<u8>, i: int, end: int, p: Seq<u8>) -> bool {
    0 <= i && i + p.len() <= end && s.subrange(i, i + p.len()) == p
}

/// The bytes `some`.
pub open spec fn some_tag() -> Seq<u8> {
    seq![115u8, 111, 109, 101]
}

/// The bytes `total=`.
pub open spec fn total_tag() -> Seq<u8> {
    seq![116u8, 111, 116, 97, 108, 61]
}

/// Among the whitespace-separated tokens of `s[i..end]`, the first one that
/// starts with `total=`: `None` when there is none, else what the rest of the
/// token parses to.
pub open spec fn total_in_tokens(s: Seq<u8>, i: int, end: int) -> Option<Option<u64>>
    decreases end - i,
{
    let a = token_start(s, i, end);
    if a >= end {
        None
    } else {
        let b = token_end(s, a, end);
        proof {
            if i <= end {
                lemma_token_bounds(s, i, end);
                lemma_token_bounds(s, a + 1, end);
            }
        }
        if bytes_at(s, a, b, total_tag()) {
            Some(decimal_u64(s.subrange(a + 6, b)))
        } else if b > i {
            total_in_tokens(s, b, end)
        } else {
            None
        }
    }
}

/// The `some total=` counter of the pressure file, read from the line that
/// starts at `i` onward: the first line that starts with `some` and holds a
/// `total=` token decides.
pub open spec fn psi_total_from(s: Seq<u8>, i: int) -> Result<u64, PsiError>
    decreases s.len() + 1 - i,
    via psi_total_from_decreases
{
    if i < 0 || i >= s.len() {
        Err(PsiError::FieldNotFound)
    } else {
        let e = line_end(s, i);
        let found = if bytes_at(s, i, e, some_tag()) {
            total_in_tokens(s, i, e)
        } else {
            None
        };
        match found {
            Some(Some(v)) => Ok(v),
            Some(None) => Err(PsiError::Parse),
            None => psi_total_from(s, e + 1),
        }
    }
}

#[via_fn]
proof fn psi_total_from_decreases(s: Seq<u8>, i: int) {
    if 0 <= i < s.len() {
        lemma_line_end(s, i);
    }
}

pub proof fn lemma_line_end(s: Seq<u8>, i: int)
    requires
        0 <= i <= s.len(),
    ensures
        i <= line_end(s, i) <= s.len(),
    decreases s.len() - i,
{
    if i < s.len() && s[i] != 10 {
        lemma_line_end(s, i + 1);
    }
}

fn some_at(s: &[u8], i: usize, end: usize) -> (r: bool)
    requires
        i <= end <= s@.len(),
    ensures
        r == bytes_at(s@, i as int, end as int, some_tag()),
{
    if end - i < 4 {
        return false;
    }
    let r = s[i] == 115 && s[i + 1] == 111 && s[i + 2] == 109 && s[i + 3] == 101;
    proof {
        let w = s@.subrange(i as int, i + 4);
        if r {
            assert(w =~= some_tag());
        } else {
            assert(w[0] != some_tag()[0] || w[1] != some_tag()[1] || w[2] != some_tag()[2]
                || w[3] != some_tag()[3]);
        }
    }
    r
}

fn total_at(s: &[u8], i: usize, end: usize) -> (r: bool)
    requires
        i <= end <= s@.len(),
    ensures
        r == bytes_at(s@, i as int, end as int, total_tag()),
{
    if end - i < 6 {
        return false;
    }
    let r = s[i] == 116 && s[i + 1] == 111 && s[i + 2] == 116 && s[i + 3] == 97 && s[i + 4]
        == 108 && s[i + 5] == 61;
    proof {
        let w = s@.subrange(i as int, i + 6);
        let t = total_tag();
        if r {
            assert(w =~= t);
        } else {
            assert(w[0] != t[0] || w[1] != t[1] || w[2] != t[2] || w[3] != t[3] || w[4] != t[4]
                || w[5] != t[5]);
        }
    }
    r
}

/// Reads the `some total=` stall counter, in microseconds, out of the text
/// of `/proc/pressure/memory`.
pub fn parse_psi_total(content: &[u8]) -> (r: Result<u64, PsiError>)
    ensures
        r == psi_total_from(content@, 0),
{
    let n = content.len();
    let mut i: usize = 0;
    while i < n
        invariant
            i <= n == content@.len(),
            psi_total_from(content@, i as int) == psi_total_from(content@, 0),
        decreases n - i,
    {
        let mut e = i;
        while e < n && content[e] != 10
            invariant
                i <= e <= n == content@.len(),
                line_end(content@, e as int) == line_end(content@, i as int),
            decreases n - e,
        {
            e = e + 1;
        }
        assert(line_end(content@, e as int) == e);
        assert(line_end(content@, i as int) == e);
        let is_some = some_at(content, i, e);

        if is_some {
            let mut pos = i;
            loop
                invariant
                    i <= pos <= e <= n == content@.len(),
                    e == line_end(content@, i as int),
                    bytes_at(content@, i as int, e as int, some_tag()),
                    psi_total_from(content@, i as int) == psi_total_from(content@, 0),
                    total_in_tokens(content@, pos as int, e as int) == total_in_tokens(
                        content@,
                        i as int,
                        e as int,
                    ),
                ensures
                    total_in_tokens(content@, i as int, e as int) is None,
                decreases e - pos,
            {
                let a = skip_ws(content, pos, e);
                proof {
                    lemma_token_bounds(content@, pos as int, e as int);
                }
                if a >= e {
                    assert(total_in_tokens(content@, pos as int, e as int) is None);
                    break;
                }
                let b = skip_token(content, a, e);
                proof {
                    lemma_token_bounds(content@, a as int, e as int);
                    lemma_token_bounds(content@, a as int + 1, e as int);
                    assert(token_end(content@, a as int, e as int) == token_end(
                        content@,
                        a as int + 1,
                        e as int,
                    ));
                }
                if total_at(content, a, b) {
                    return match parse_u64(content, a + 6, b) {
                        Some(v) => Ok(v),
                        None => Err(PsiError::Parse),
                    };
                }
                pos = b;
            }
        }
        assert(psi_total_from(content@, i as int) == psi_total_from(content@, e + 1));
        if e >= n {
            return Err(PsiError::FieldNotFound);
        }
        i = e + 1;
    }
    Err(PsiError::FieldNotFound)
}

/// Checks at startup that the pressure file was read and holds the counter.
/// `content` is the file's bytes, or why it could not be read.
pub fn validate_psi_availability(content: &Result<Vec<u8>, String>) -> (r: Result<(), PsiError>)
    ensures
        match content {
            Err(m) => r == Err::<(), PsiError>(PsiError::Io(*m)),
            Ok(b) => match psi_total_from(b@, 0) {
                Ok(_) => r == Ok::<(), PsiError>(()),
                Err(e) => r == Err::<(), PsiError>(e),
            },
        },
{
    match content {
        Err(m) => Err(PsiError::Io(m.clone())),
        Ok(b) => match parse_psi_total(b.as_slice()) {
            Ok(_) => Ok(()),
            Err(e) => Err(e),
        },
    }
}

/// Stall time accumulated between two counter readings; a counter that went
/// backwards counts as no stall.
pub open spec fn stall_delta(prev: u64, curr: u64) -> nat {
    if curr >= prev {
        (curr - prev) as nat
    } else {
        0
    }
}

/// Memory pressure over an interval of `elapsed_us` microseconds, in
/// hundredths of a percent: stall time over elapsed time; zero for an empty
/// interval.
pub open spec fn pressure_of(prev: u64, curr: u64, elapsed_us: u64) -> nat {
    if elapsed_us == 0 {
        0
    } else {
        stall_delta(prev, curr) * 10000 / (elapsed_us as nat)
    }
}

/// Pressure strictly above `limit` (hundredths of a percent), compared
/// exactly rather than after rounding.
pub open spec fn pressure_exceeds(prev: u64, curr: u64, elapsed_us: u64, limit: u64) -> bool {
    elapsed_us > 0 && stall_delta(prev, curr) * 10000 > limit * elapsed_us
}

/// The pressure between two readings, in hundredths of a percent, capped
/// at `u64::MAX`.
pub fn compute_pressure(prev: u64, curr: u64, elapsed_us: u64) -> (r: u64)
    ensures
        r == (if pressure_of(prev, curr, elapsed_us) <= u64::MAX {
            pressure_of(prev, curr, elapsed_us)
        } else {
            u64::MAX as nat
        }),
{
    if elapsed_us == 0 {
        return 0;
    }
    let delta: u64 = if curr >= prev {
        curr - prev
    } else {
        0
    };
    let p: u128 = (delta as u128) * 10000 / (elapsed_us as u128);
    if p > u64::MAX as u128 {
        u64::MAX
    } else {
        p as u64
    }
}

/// Whether the pressure between two readings is strictly above `limit`.
pub fn exceeds(prev: u64, curr: u64, elapsed_us: u64, limit: u64) -> (r: bool)
    ensures
        r == pressure_exceeds(prev, curr, elapsed_us, limit),
{
    if elapsed_us == 0 {
        return false;
    }
    let delta: u64 = if curr >= prev {
        curr - prev
    } else {
        0
    };
    let l: u128 = limit as u128;
    let t: u128 = elapsed_us as u128;
    assert(l * t <= 0xffff_ffff_ffff_ffffu128 * 0xffff_ffff_ffff_ffffu128) by (nonlinear_arith)
        requires
            l <= 0xffff_ffff_ffff_ffffu128,
            t <= 0xffff_ffff_ffff_ffffu128,
    ;
    (delta as u128) * 10000 > l * t
}

/// An unchanged counter means no pressure, however long the interval, and
/// no threshold is exceeded.
pub proof fn lemma_no_stall_no_pressure(t: u64, elapsed_us: u64, limit: u64)
    requires
        elapsed_us > 0,
    ensures
        pressure_of(t, t, elapsed_us) == 0,
        !pressure_exceeds(t, t, elapsed_us, limit),
{
    assert(stall_delta(t, t) == 0);
    assert(0nat * 10000 == 0);
    assert(0 <= limit * elapsed_us) by (nonlinear_arith);
}

} // verus!
