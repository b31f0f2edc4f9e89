use vstd::prelude::*;
use crate::config::{MemoryConfigParsed, RuntimeContext};
use crate::events::{SentinelEvent, ThresholdKind, Trigger};
use crate::psi::{compute_pressure, exceeds, pressure_exceeds, pressure_of, PsiConfigParsed, FULL_PERCENT};

verus! {

/// One tick's readings of the gauges. `now_us` is a monotonic clock in
/// microseconds; `psi_total` is the pressure counter when it was read.
#[derive(Debug, Clone, Copy)]
pub struct Readings {
    pub now_us: u64,
    pub ram_available: u64,
    pub ram_total: u64,
    pub swap_free: u64,
    pub swap_total: u64,
    pub psi_total: Option<u64>,
}

/// The sampler's state between ticks, and the most recent gauge snapshot.
/// Percentages are in hundredths of a percent.
#[derive(Debug, Clone, Copy)]
pub struct Monitor {
    pub last_psi_total: Option<u64>,
    pub last_psi_time_us: u64,
    pub last_warn_time_us: Option<u64>,
    pub ram_bytes: Option<u64>,
    pub ram_percent: Option<u64>,
    pub swap_bytes: Option<u64>,
    pub swap_percent: Option<u64>,
    pub psi_pressure: Option<u64>,
}

/// The verdict of one tick.
#[derive(Debug, Clone)]
pub enum MonitorStatus {
    Normal,
    /// A warning to emit; the rate limit has already let it through.
    Warn(SentinelEvent),
    /// A `KillTriggered` event for the kill engine.
    Kill(SentinelEvent),
}

/// `free / total` is strictly below `limit` hundredths of a percent,
/// compared exactly.
pub open spec fn below_percent(free: u64, total: u64, limit: u64) -> bool {
    (free as nat) * 10000 < (limit as nat) * (total as nat)
}

/// `free / total` in hundredths of a percent, rounded down and capped.
pub open spec fn percent_of(free: u64, total: u64) -> u64 {
    if total == 0 {
        0
    } else if (free as nat) * 10000 / (total as nat) <= u64::MAX {
        ((free as nat) * 10000 / (total as nat)) as u64
    } else {
        u64::MAX
    }
}

/// Whether a gauge crosses a threshold pair: below the byte limit when one
/// is set (the percentage is then ignored), else below the percentage.
pub open spec fn crossing(bytes: Option<u64>, percent: Option<u64>, free: u64, total: u64) -> Option<
    (u64, ThresholdKind),
> {
    match bytes {
        Some(l) => if free < l {
            Some((l, ThresholdKind::Bytes))
        } else {
            None
        },
        None => match percent {
            Some(p) => if below_percent(free, total, p) {
                Some((p, ThresholdKind::Percent))
            } else {
                None
            },
            None => None,
        },
    }
}

pub open spec fn spec_check_kill(c: MemoryConfigParsed, free: u64, total: u64) -> Option<(u64, ThresholdKind)> {
    crossing(c.kill_min_free_bytes, c.kill_min_free_percent, free, total)
}

pub open spec fn spec_check_warn(c: MemoryConfigParsed, free: u64, total: u64) -> Option<(u64, ThresholdKind)> {
    crossing(c.warn_min_free_bytes, c.warn_min_free_percent, free, total)
}

/// The free bytes a kill threshold asks for: the byte threshold, else that
/// percentage of the total (rounded down), else nothing.
pub open spec fn kill_target(c: MemoryConfigParsed, total: u64) -> nat {
    match c.kill_min_free_bytes {
        Some(b) => b as nat,
        None => match c.kill_min_free_percent {
            Some(p) => (total as nat) * (p as nat) / 10000,
            None => 0,
        },
    }
}

/// How far the free bytes fall short of the kill target; `None` when they
/// do not.
pub open spec fn spec_calc_needed(c: MemoryConfigParsed, free: u64, total: u64) -> Option<u64> {
    if kill_target(c, total) > free {
        Some((kill_target(c, total) - free) as u64)
    } else {
        None
    }
}

/// Whether `interval_ms` whole milliseconds have passed since `since_us`.
pub open spec fn elapsed_ms_at_least(now_us: u64, since_us: u64, interval_ms: u64) -> bool {
    (if now_us >= since_us {
        (now_us - since_us) as nat
    } else {
        0nat
    }) / 1000 >= interval_ms
}

pub open spec fn elapsed_us(now_us: u64, since_us: u64) -> u64 {
    if now_us >= since_us {
        (now_us - since_us) as u64
    } else {
        0
    }
}

/// Where a tick stands after a tier: a kill verdict ends it, else a warning
/// may be pending.
pub enum Tally {
    Killed(Monitor, SentinelEvent),
    Pending(Monitor, Option<SentinelEvent>),
}

pub open spec fn kill_event(
    trigger: Trigger,
    free: u64,
    pct: u64,
    hit: (u64, ThresholdKind),
    needed: Option<u64>,
) -> SentinelEvent {
    SentinelEvent::KillTriggered {
        trigger,
        observed_value: if hit.1 == ThresholdKind::Bytes {
            free
        } else {
            pct
        },
        threshold_value: hit.0,
        threshold_type: hit.1,
        amount_needed: needed,
    }
}

/// The RAM tier, evaluated when configured and the total is not zero.
pub open spec fn after_ram(m: Monitor, ctx: RuntimeContext, r: Readings) -> Tally {
    if ctx.ram is Some && r.ram_total > 0 {
        let c = ctx.ram->0;
        let pct = percent_of(r.ram_available, r.ram_total);
        let m1 = Monitor { ram_bytes: Some(r.ram_available), ram_percent: Some(pct), ..m };
        match spec_check_kill(c, r.ram_available, r.ram_total) {
            Some(hit) => Tally::Killed(
                m1,
                kill_event(
                    Trigger::LowMemory,
                    r.ram_available,
                    pct,
                    hit,
                    spec_calc_needed(c, r.ram_available, r.ram_total),
                ),
            ),
            None => Tally::Pending(
                m1,
                match spec_check_warn(c, r.ram_available, r.ram_total) {
                    Some(hit) => Some(
                        SentinelEvent::LowMemoryWarn {
                            available_bytes: r.ram_available,
                            available_percent: pct,
                            threshold_type: hit.1,
                            threshold_value: hit.0,
                        },
                    ),
                    None => None,
                },
            ),
        }
    } else {
        Tally::Pending(m, None)
    }
}

/// The swap tier, evaluated when configured and the swap total is not
/// zero; a warning already pending is kept.
pub open spec fn after_swap(t: Tally, ctx: RuntimeContext, r: Readings) -> Tally {
    match t {
        Tally::Killed(m, e) => Tally::Killed(m, e),
        Tally::Pending(m, w) => if ctx.swap is Some && r.swap_total > 0 {
            let c = ctx.swap->0;
            let pct = percent_of(r.swap_free, r.swap_total);
            let m1 = Monitor { swap_bytes: Some(r.swap_free), swap_percent: Some(pct), ..m };
            match spec_check_kill(c, r.swap_free, r.swap_total) {
                Some(hit) => Tally::Killed(
                    m1,
                    kill_event(
                        Trigger::LowSwap,
                        r.swap_free,
                        pct,
                        hit,
                        spec_calc_needed(c, r.swap_free, r.swap_total),
                    ),
                ),
                None => Tally::Pending(
                    m1,
                    if w is Some {
                        w
                    } else {
                        match spec_check_warn(c, r.swap_free, r.swap_total) {
                            Some(hit) => Some(
                                SentinelEvent::LowSwapWarn {
                                    free_bytes: r.swap_free,
                                    free_percent: pct,
                                    threshold_type: hit.1,
                                    threshold_value: hit.0,
                                },
                            ),
                            None => None,
                        }
                    },
                ),
            }
        } else {
            Tally::Pending(m, w)
        },
    }
}

/// The PSI sample is due: its interval has passed since the last one.
pub open spec fn spec_psi_due(m: Monitor, p: PsiConfigParsed, now_us: u64) -> bool {
    elapsed_ms_at_least(now_us, m.last_psi_time_us, p.check_interval_ms)
}

/// The PSI tier, evaluated when configured, due and read. The first sample
/// only sets the baseline.
pub open spec fn after_psi(t: Tally, ctx: RuntimeContext, r: Readings) -> Tally {
    match t {
        Tally::Killed(m, e) => Tally::Killed(m, e),
        Tally::Pending(m, w) => if ctx.psi is Some && spec_psi_due(m, ctx.psi->0, r.now_us)
            && r.psi_total is Some {
            let p = ctx.psi->0;
            let curr = r.psi_total->0;
            match m.last_psi_total {
                None => Tally::Pending(
                    Monitor { last_psi_total: Some(curr), last_psi_time_us: r.now_us, ..m },
                    w,
                ),
                Some(prev) => {
                    let dt = elapsed_us(r.now_us, m.last_psi_time_us);
                    let pressure = if pressure_of(prev, curr, dt) <= u64::MAX {
                        pressure_of(prev, curr, dt) as u64
                    } else {
                        u64::MAX
                    };
                    let m1 = Monitor {
                        last_psi_total: Some(curr),
                        last_psi_time_us: r.now_us,
                        psi_pressure: Some(pressure),
                        ..m
                    };
                    if p.kill_max_percent is Some && pressure_exceeds(
                        prev,
                        curr,
                        dt,
                        p.kill_max_percent->0,
                    ) {
                        Tally::Killed(
                            m1,
                            SentinelEvent::KillTriggered {
                                trigger: Trigger::PsiPressure,
                                observed_value: pressure,
                                threshold_value: p.kill_max_percent->0,
                                threshold_type: ThresholdKind::Percent,
                                amount_needed: p.amount_to_free,
                            },
                        )
                    } else if w is None && p.warn_max_percent is Some && pressure_exceeds(
                        prev,
                        curr,
                        dt,
                        p.warn_max_percent->0,
                    ) {
                        Tally::Pending(
                            m1,
                            Some(
                                SentinelEvent::PsiPressureWarn {
                                    pressure_curr: pressure,
                                    threshold: p.warn_max_percent->0,
                                },
                            ),
                        )
                    } else {
                        Tally::Pending(m1, w)
                    }
                },
            }
        } else {
            Tally::Pending(m, w)
        },
    }
}

/// A warning may go out: none went out before, or `warn_reset_ms` have
/// passed since the last one.
pub open spec fn spec_can_warn(m: Monitor, ctx: RuntimeContext, now_us: u64) -> bool {
    match m.last_warn_time_us {
        None => true,
        Some(last) => elapsed_ms_at_least(now_us, last, ctx.warn_reset_ms),
    }
}

/// The whole tick: RAM, then swap, then PSI, the first kill verdict ending
/// it; then a pending warning goes out if the rate limit allows.
pub open spec fn spec_tick(m: Monitor, ctx: RuntimeContext, r: Readings) -> (Monitor, MonitorStatus) {
    match after_psi(after_swap(after_ram(m, ctx, r), ctx, r), ctx, r) {
        Tally::Killed(m1, e) => (m1, MonitorStatus::Kill(e)),
        Tally::Pending(m1, Some(e)) => if spec_can_warn(m, ctx, r.now_us) {
            (Monitor { last_warn_time_us: Some(r.now_us), ..m1 }, MonitorStatus::Warn(e))
        } else {
            (m1, MonitorStatus::Normal)
        },
        Tally::Pending(m1, None) => (m1, MonitorStatus::Normal),
    }
}

/// What `check` needs of the context: percentages within 0..=100%, and an
/// amount to free beside every PSI kill threshold.
pub open spec fn thresholds_sane(ctx: RuntimeContext) -> bool {
    &&& ctx.ram matches Some(c) ==> c.wf()
    &&& ctx.swap matches Some(c) ==> c.wf()
    &&& ctx.psi matches Some(p) ==> (p.kill_max_percent is Some ==> p.amount_to_free is Some)
}

fn percent_u(free: u64, total: u64) -> (r: u64)
    ensures
        r == percent_of(free, total),
{
    if total == 0 {
        return 0;
    }
    let p: u128 = (free as u128) * 10000 / (total as u128);
    if p > 0xffff_ffff_ffff_ffffu128 {
        u64::MAX
    } else {
        p as u64
    }
}

fn below(free: u64, total: u64, limit: u64) -> (r: bool)
    ensures
        r == below_percent(free, total, limit),
{
    let l: u128 = limit as u128;
    let t: u128 = total as u128;
    assert(l * t <= 0xffff_ffff_ffff_ffffu128 * 0xffff_ffff_ffff_ffffu128) by (nonlinear_arith)
        requires
            l <= 0xffff_ffff_ffff_ffffu128,
            t <= 0xffff_ffff_ffff_ffffu128,
    ;
    (free as u128) * 10000 < l * t
}

fn crossing_exec(bytes: Option<u64>, percent: Option<u64>, free: u64, total: u64) -> (r: Option<
    (u64, ThresholdKind),
>)
    ensures
        r == crossing(bytes, percent, free, total),
{
    match bytes {
        Some(l) => if free < l {
            Some((l, ThresholdKind::Bytes))
        } else {
            None
        },
        None => match percent {
            Some(p) => if below(free, total, p) {
                Some((p, ThresholdKind::Percent))
            } else {
                None
            },
            None => None,
        },
    }
}

/// The kill threshold that a gauge crosses, with its kind.
pub fn check_kill(c: &MemoryConfigParsed, free: u64, total: u64) -> (r: Option<(u64, ThresholdKind)>)
    ensures
        r == spec_check_kill(*c, free, total),
{
    crossing_exec(c.kill_min_free_bytes, c.kill_min_free_percent, free, total)
}

/// The warn threshold that a gauge crosses, with its kind.
pub fn check_warn(c: &MemoryConfigParsed, free: u64, total: u64) -> (r: Option<(u64, ThresholdKind)>)
    ensures
        r == spec_check_warn(*c, free, total),
{
    crossing_exec(c.warn_min_free_bytes, c.warn_min_free_percent, free, total)
}

/// The bytes to free to bring a gauge back to its kill target.
pub fn calc_needed(c: &MemoryConfigParsed, free: u64, total: u64) -> (r: Option<u64>)
    requires
        c.wf(),
    ensures
        r == spec_calc_needed(*c, free, total),
{
    let target: u64 = match c.kill_min_free_bytes {
        Some(b) => b,
        None => match c.kill_min_free_percent {
            Some(p) => {
                let t: u128 = total as u128;
                let q: u128 = p as u128;
                assert(t * q / 10000 <= t) by (nonlinear_arith)
                    requires
                        q <= 10000,
                ;
                assert(t * q <= 0xffff_ffff_ffff_ffffu128 * 10000) by (nonlinear_arith)
                    requires
                        q <= 10000,
                        t <= 0xffff_ffff_ffff_ffffu128,
                ;
                (t * q / 10000) as u64
            },
            None => 0,
        },
    };
    if target > free {
        Some(target - free)
    } else {
        None
    }
}


fn elapsed_ms_reached(now_us: u64, since_us: u64, interval_ms: u64) -> (r: bool)
    ensures
        r == elapsed_ms_at_least(now_us, since_us, interval_ms),
{
    let d: u64 = if now_us >= since_us {
        now_us - since_us
    } else {
        0
    };
    d / 1000 >= interval_ms
}

impl Monitor {
    /// A sampler whose PSI baseline is `psi_total` taken at `now_us`, with
    /// no warning sent yet and no gauge read.
    pub fn new(psi_total: Option<u64>, now_us: u64) -> (r: Monitor)
        ensures
            r.last_psi_total == psi_total,
            r.last_psi_time_us == now_us,
            r.last_warn_time_us is None,
            r.ram_bytes is None && r.ram_percent is None,
            r.swap_bytes is None && r.swap_percent is None,
            r.psi_pressure is None,
    {
        Monitor {
            last_psi_total: psi_total,
            last_psi_time_us: now_us,
            last_warn_time_us: None,
            ram_bytes: None,
            ram_percent: None,
            swap_bytes: None,
            swap_percent: None,
            psi_pressure: None,
        }
    }

    /// Whether this tick should read the pressure counter: PSI is configured
    /// and its interval has passed.
    pub fn psi_due(&self, ctx: &RuntimeContext, now_us: u64) -> (r: bool)
        ensures
            r == (ctx.psi is Some && spec_psi_due(*self, ctx.psi->0, now_us)),
    {
        match &ctx.psi {
            Some(p) => elapsed_ms_reached(now_us, self.last_psi_time_us, p.check_interval_ms),
            None => false,
        }
    }

    /// Whether the warn rate limit lets a warning out at `now_us`.
    pub fn can_warn(&self, ctx: &RuntimeContext, now_us: u64) -> (r: bool)
        ensures
            r == spec_can_warn(*self, *ctx, now_us),
    {
        match self.last_warn_time_us {
            Some(last) => elapsed_ms_reached(now_us, last, ctx.warn_reset_ms),
            None => true,
        }
    }

    /// One tick of the sampler and decision engine over `r`.
    pub fn check(&mut self, ctx: &RuntimeContext, r: &Readings) -> (status: MonitorStatus)
        requires
            thresholds_sane(*ctx),
        ensures
            (*final(self), status) == spec_tick(*old(self), *ctx, *r),
            status is Warn ==> spec_can_warn(*old(self), *ctx, r.now_us),
    {
        let start = *self;
        let mut pending: Option<SentinelEvent> = None;

        if let Some(c) = &ctx.ram {
            if r.ram_total > 0 {
                let pct = percent_u(r.ram_available, r.ram_total);
                self.ram_bytes = Some(r.ram_available);
                self.ram_percent = Some(pct);
                if let Some(hit) = check_kill(c, r.ram_available, r.ram_total) {
                    let amount_needed = calc_needed(c, r.ram_available, r.ram_total);
                    let observed_value = match hit.1 {
                        ThresholdKind::Bytes => r.ram_available,
                        ThresholdKind::Percent => pct,
                    };
                    return MonitorStatus::Kill(
                        SentinelEvent::KillTriggered {
                            trigger: Trigger::LowMemory,
                            observed_value,
                            threshold_value: hit.0,
                            threshold_type: hit.1,
                            amount_needed,
                        },
                    );
                }
                if let Some(hit) = check_warn(c, r.ram_available, r.ram_total) {
                    pending = Some(
                        SentinelEvent::LowMemoryWarn {
                            available_bytes: r.ram_available,
                            available_percent: pct,
                            threshold_type: hit.1,
                            threshold_value: hit.0,
                        },
                    );
                }
            }
        }
        assert(after_ram(start, *ctx, *r) == Tally::Pending(*self, pending));

        let ghost t1 = Tally::Pending(*self, pending);
        if let Some(c) = &ctx.swap {
            if r.swap_total > 0 {
                let pct = percent_u(r.swap_free, r.swap_total);
                self.swap_bytes = Some(r.swap_free);
                self.swap_percent = Some(pct);
                if let Some(hit) = check_kill(c, r.swap_free, r.swap_total) {
                    let amount_needed = calc_needed(c, r.swap_free, r.swap_total);
                    let observed_value = match hit.1 {
                        ThresholdKind::Bytes => r.swap_free,
                        ThresholdKind::Percent => pct,
                    };
                    return MonitorStatus::Kill(
                        SentinelEvent::KillTriggered {
                            trigger: Trigger::LowSwap,
                            observed_value,
                            threshold_value: hit.0,
                            threshold_type: hit.1,
                            amount_needed,
                        },
                    );
                }
                if pending.is_none() {
                    if let Some(hit) = check_warn(c, r.swap_free, r.swap_total) {
                        pending = Some(
                            SentinelEvent::LowSwapWarn {
                                free_bytes: r.swap_free,
                                free_percent: pct,
                                threshold_type: hit.1,
                                threshold_value: hit.0,
                            },
                        );
                    }
                }
            }
        }
        assert(after_swap(t1, *ctx, *r) == Tally::Pending(*self, pending));

        let ghost t2 = Tally::Pending(*self, pending);
        if let Some(p) = &ctx.psi {
            if elapsed_ms_reached(r.now_us, self.last_psi_time_us, p.check_interval_ms) {
                if let Some(curr) = r.psi_total {
                    match self.last_psi_total {
                        None => {
                            self.last_psi_total = Some(curr);
                            self.last_psi_time_us = r.now_us;
                        },
                        Some(prev) => {
                            let dt: u64 = if r.now_us >= self.last_psi_time_us {
                                r.now_us - self.last_psi_time_us
                            } else {
                                0
                            };
                            let pressure = compute_pressure(prev, curr, dt);
                            self.last_psi_total = Some(curr);
                            self.last_psi_time_us = r.now_us;
                            self.psi_pressure = Some(pressure);
                            if let Some(kill_max) = p.kill_max_percent {
                                if exceeds(prev, curr, dt, kill_max) {
                                    return MonitorStatus::Kill(
                                        SentinelEvent::KillTriggered {
                                            trigger: Trigger::PsiPressure,
                                            observed_value: pressure,
                                            threshold_value: kill_max,
                                            threshold_type: ThresholdKind::Percent,
                                            amount_needed: p.amount_to_free,
                                        },
                                    );
                                }
                            }
                            if pending.is_none() {
                                if let Some(warn_max) = p.warn_max_percent {
                                    if exceeds(prev, curr, dt, warn_max) {
                                        pending = Some(
                                            SentinelEvent::PsiPressureWarn {
                                                pressure_curr: pressure,
                                                threshold: warn_max,
                                            },
                                        );
                                    }
                                }
                            }
                        },
                    }
                }
            }
        }
        assert(after_psi(t2, *ctx, *r) == Tally::Pending(*self, pending));

        if let Some(event) = pending {
            if start.can_warn(ctx, r.now_us) {
                self.last_warn_time_us = Some(r.now_us);
                return MonitorStatus::Warn(event);
            }
        }
        MonitorStatus::Normal
    }
}

/// A tick returns `Warn` only when the rate limit allows it: with a warning
/// pending and the limit not yet expired, the tick is `Normal`.
pub proof fn lemma_suppressed_warn_is_normal(m: Monitor, ctx: RuntimeContext, r: Readings)
    requires
        after_psi(after_swap(after_ram(m, ctx, r), ctx, r), ctx, r) matches Tally::Pending(_, Some(_)),
        !spec_can_warn(m, ctx, r.now_us),
    ensures
        spec_tick(m, ctx, r).1 is Normal,
{
}


/// With no swap configured, or none present on the machine, the swap tier
/// changes nothing.
pub proof fn lemma_empty_swap_skipped(t: Tally, ctx: RuntimeContext, r: Readings)
    requires
        ctx.swap is None || r.swap_total == 0,
    ensures
        after_swap(t, ctx, r) == t,
{
}

/// What the main loop does with a tick's verdict.
#[derive(Debug, Clone, Copy, PartialEq, Eq, Structural)]
pub enum LoopAction {
    /// Nothing beyond what the tick already reported.
    Idle,
    /// Dry run: the verdict is logged and no signal is sent.
    DryRun,
    /// Run the kill engine for this many bytes.
    RunKill(u64),
    /// A kill verdict without an amount: nothing to free.
    NoAmount,
    /// A kill verdict that is not a `KillTriggered` event.
    NotATrigger,
}

/// Dispatches a verdict. Only a `Kill` verdict leads anywhere, and with
/// `no_kill` set it never reaches the kill engine.
pub fn loop_action(status: &MonitorStatus, no_kill: bool) -> (r: LoopAction)
    ensures
        r == match status {
            MonitorStatus::Kill(e) => if no_kill {
                LoopAction::DryRun
            } else {
                match e {
                    SentinelEvent::KillTriggered { amount_needed, .. } => match amount_needed {
                        Some(n) => LoopAction::RunKill(*n),
                        None => LoopAction::NoAmount,
                    },
                    _ => LoopAction::NotATrigger,
                }
            },
            _ => LoopAction::Idle,
        },
        no_kill ==> !(r is RunKill),
{
    match status {
        MonitorStatus::Kill(e) => {
            if no_kill {
                LoopAction::DryRun
            } else {
                match e {
                    SentinelEvent::KillTriggered { amount_needed, .. } => match amount_needed {
                        Some(n) => LoopAction::RunKill(*n),
                        None => LoopAction::NoAmount,
                    },
                    _ => LoopAction::NotATrigger,
                }
            }
        },
        _ => LoopAction::Idle,
    }
}

} // verus!
