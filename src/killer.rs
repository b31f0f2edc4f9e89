use vstd::prelude::*;
use crate::config::{pattern_matches, KillStrategy, Pattern, RuntimeContext};
use crate::text::{decimal_u64, find_token, nth_token, parse_u64, lemma_nth_token_bounds};

verus! {

/// The best kill candidate found so far in a scan of `/proc`.
#[derive(Debug, Clone, Copy, PartialEq, Eq, Structural)]
pub struct Champion {
    pub pid: u32,
    /// The ranking metric within a preference class: RSS or OOM score.
    pub score: u64,
    /// Resident set size in bytes.
    pub rss: u64,
    /// The first kill-target pattern that matches, or `usize::MAX`.
    pub match_index: usize,
    /// Field 22 of `/proc/<pid>/stat`, the witness against PID reuse.
    pub start_time: u64,
}

/// A process may be chosen: it is not the daemon itself, and when the
/// daemon is not root it belongs to the daemon's user. `owner_uid` is
/// `None` when the owner could not be read.
pub fn is_eligible(pid: u32, my_pid: u32, is_root: bool, owner_uid: Option<u32>, my_uid: u32) -> (r: bool)
    ensures
        r == (pid != my_pid && (is_root || owner_uid == Some(my_uid))),
        r && !is_root ==> owner_uid == Some(my_uid),
{
    if pid == my_pid {
        return false;
    }
    if is_root {
        return true;
    }
    match owner_uid {
        Some(u) => u == my_uid,
        None => false,
    }
}

/// A `/proc` entry name as a PID: decimal digits (an optional `+`) whose
/// value fits in 32 bits.
pub fn parse_pid(name: &[u8]) -> (r: Option<u32>)
    ensures
        match decimal_u64(name@) {
            Some(v) => if v <= u32::MAX {
                r == Some(v as u32)
            } else {
                r is None
            },
            None => r is None,
        },
{
    assert(name@.subrange(0, name@.len() as int) =~= name@);
    match parse_u64(name, 0, name.len()) {
        Some(v) => if v <= 0xffff_ffff {
            Some(v as u32)
        } else {
            None
        },
        None => None,
    }
}

/// Replaces the NUL separators of a command line with spaces.
pub fn replace_nuls(buf: &mut Vec<u8>)
    ensures
        final(buf)@.len() == old(buf)@.len(),
        forall|i: int|
            0 <= i < old(buf)@.len() ==> #[trigger] final(buf)@[i] == (if old(buf)@[i] == 0 {
                32u8
            } else {
                old(buf)@[i]
            }),
{
    let ghost orig = buf@;
    let mut i: usize = 0;
    while i < buf.len()
        invariant
            buf@.len() == orig.len(),
            i <= orig.len(),
            forall|k: int| 0 <= k < i ==> #[trigger] buf@[k] == (if orig[k] == 0 {
                32u8
            } else {
                orig[k]
            }),
            forall|k: int| i <= k < orig.len() ==> #[trigger] buf@[k] == orig[k],
        decreases orig.len() - i,
    {
        if buf[i] == 0 {
            buf.set(i, 32);
        }
        i = i + 1;
    }
}

/// Some ignore pattern matches the command line.
pub open spec fn is_ignored(ctx: RuntimeContext, s: Seq<char>) -> bool {
    exists|i: int|
        0 <= i < ctx.ignore_names_regex@.len() && pattern_matches(
            #[trigger] ctx.ignore_names_regex@[i],
            s,
        )
}

/// `idx` is the first kill-target pattern that matches, or `usize::MAX`
/// when none does.
pub open spec fn is_match_index(pats: Seq<Pattern>, s: Seq<char>, idx: usize) -> bool {
    &&& forall|j: int| 0 <= j < idx && j < pats.len() ==> !pattern_matches(#[trigger] pats[j], s)
    &&& (idx < pats.len() ==> pattern_matches(pats[idx as int], s))
    &&& (idx >= pats.len() ==> idx == usize::MAX)
}

/// Classifies a command line: `None` when an ignore pattern matches, else
/// its match index among the kill targets.
pub fn classify(ctx: &RuntimeContext, cmdline: &str) -> (r: Option<usize>)
    ensures
        r is None <==> is_ignored(*ctx, cmdline@),
        r matches Some(idx) ==> is_match_index(ctx.kill_targets_regex@, cmdline@, idx),
{
    let mut i: usize = 0;
    while i < ctx.ignore_names_regex.len()
        invariant
            i <= ctx.ignore_names_regex@.len(),
            forall|k: int|
                0 <= k < i ==> !pattern_matches(#[trigger] ctx.ignore_names_regex@[k], cmdline@),
        decreases ctx.ignore_names_regex@.len() - i,
    {
        if ctx.ignore_names_regex[i].matches(cmdline) {
            return None;
        }
        i = i + 1;
    }
    assert(!is_ignored(*ctx, cmdline@));
    let mut j: usize = 0;
    while j < ctx.kill_targets_regex.len()
        invariant
            j <= ctx.kill_targets_regex@.len(),
            !is_ignored(*ctx, cmdline@),
            forall|k: int|
                0 <= k < j ==> !pattern_matches(#[trigger] ctx.kill_targets_regex@[k], cmdline@),
        decreases ctx.kill_targets_regex@.len() - j,
    {
        if ctx.kill_targets_regex[j].matches(cmdline) {
            return Some(j);
        }
        j = j + 1;
    }
    Some(usize::MAX)
}

/// The resident pages of a `statm` record (its second field), or `None`.
pub open spec fn statm_pages(s: Seq<u8>) -> Option<u64> {
    match nth_token(s, 0, s.len() as int, 1) {
        Some((a, b)) => decimal_u64(s.subrange(a, b)),
        None => None,
    }
}

/// The RSS in bytes that a `statm` record gives: resident pages times the
/// page size, saturating; 0 when the record cannot be read.
pub open spec fn spec_rss_from_statm(s: Seq<u8>, page_size: u64) -> u64 {
    match statm_pages(s) {
        Some(p) => if p * page_size <= u64::MAX {
            (p * page_size) as u64
        } else {
            u64::MAX
        },
        None => 0,
    }
}

pub fn rss_from_statm(content: &[u8], page_size: u64) -> (r: u64)
    ensures
        r == spec_rss_from_statm(content@, page_size),
{
    match find_token(content, 0, content.len(), 1) {
        Some((a, b)) => {
            proof {
                lemma_nth_token_bounds(content@, 0, content@.len() as int, 1);
            }
            match parse_u64(content, a, b) {
                Some(p) => {
                    let pu: u128 = p as u128;
                    let su: u128 = page_size as u128;
                    assert(pu * su <= 0xffff_ffff_ffff_ffffu128 * 0xffff_ffff_ffff_ffffu128)
                        by (nonlinear_arith)
                        requires
                            pu <= 0xffff_ffff_ffff_ffffu128,
                            su <= 0xffff_ffff_ffff_ffffu128,
                    ;
                    let x: u128 = pu * su;
                    if x > 0xffff_ffff_ffff_ffffu128 {
                        u64::MAX
                    } else {
                        x as u64
                    }
                },
                None => 0,
            }
        },
        None => 0,
    }
}

/// The score an `oom_score` record gives: its only token as a number up
/// to `i32::MAX`; 0 when the record cannot be read.
pub open spec fn spec_oom_score(s: Seq<u8>) -> u64 {
    match nth_token(s, 0, s.len() as int, 0) {
        Some((a, b)) => if nth_token(s, 0, s.len() as int, 1) is None {
            match decimal_u64(s.subrange(a, b)) {
                Some(v) => if v <= i32::MAX {
                    v
                } else {
                    0
                },
                None => 0,
            }
        } else {
            0
        },
        None => 0,
    }
}

pub fn oom_score_from(content: &[u8]) -> (r: u64)
    ensures
        r == spec_oom_score(content@),
{
    match find_token(content, 0, content.len(), 0) {
        Some((a, b)) => {
            proof {
                lemma_nth_token_bounds(content@, 0, content@.len() as int, 0);
            }
            if find_token(content, 0, content.len(), 1).is_some() {
                return 0;
            }
            match parse_u64(content, a, b) {
                Some(v) => if v <= 0x7fff_ffff {
                    v
                } else {
                    0
                },
                None => 0,
            }
        },
        None => 0,
    }
}

/// The first index `k >= i` where `) ` starts, if any.
pub open spec fn close_paren_from(s: Seq<u8>, i: int) -> Option<int>
    decreases s.len() - i,
{
    if i < 0 || i + 1 >= s.len() {
        None
    } else if s[i] == 41 && s[i + 1] == 32 {
        Some(i)
    } else {
        close_paren_from(s, i + 1)
    }
}

/// The start time of a `stat` record: after the first `) `, the twentieth
/// whitespace-separated field (field 22 of the record).
pub open spec fn spec_start_time(s: Seq<u8>) -> Option<u64> {
    match close_paren_from(s, 0) {
        Some(k) => match nth_token(s, k + 2, s.len() as int, 19) {
            Some((a, b)) => decimal_u64(s.subrange(a, b)),
            None => None,
        },
        None => None,
    }
}

pub proof fn lemma_close_paren_bounds(s: Seq<u8>, i: int)
    requires
        0 <= i,
    ensures
        close_paren_from(s, i) matches Some(k) ==> i <= k && k + 2 <= s.len(),
    decreases s.len() - i,
{
    if i + 1 < s.len() && !(s[i] == 41 && s[i + 1] == 32) {
        lemma_close_paren_bounds(s, i + 1);
    }
}

pub fn start_time_from_stat(content: &[u8]) -> (r: Option<u64>)
    ensures
        r == spec_start_time(content@),
{
    let n = content.len();
    let mut i: usize = 0;
    while i < n && i + 1 < n
        invariant
            i <= n == content@.len(),
            close_paren_from(content@, i as int) == close_paren_from(content@, 0),
        decreases n - i,
    {
        if content[i] == 41 && content[i + 1] == 32 {
            proof {
                lemma_close_paren_bounds(content@, 0);
            }
            return match find_token(content, i + 2, n, 19) {
                Some((a, b)) => {
                    proof {
                        lemma_nth_token_bounds(content@, i + 2, n as int, 19);
                    }
                    parse_u64(content, a, b)
                },
                None => None,
            };
        }
        i = i + 1;
    }
    None
}


/// A candidate with match index `idx` and score `score` ranks above the
/// champion `c`: a lower index, or the same index and a higher score.
pub open spec fn outranks(idx: usize, score: u64, c: Champion) -> bool {
    idx < c.match_index || (idx == c.match_index && score > c.score)
}

/// The running state of one scan of `/proc`: the champion so far, and
/// (as ghost state) the match index and score of every candidate offered,
/// and the match index of every candidate passed over unscored.
pub struct ChampionScan {
    pub champion: Option<Champion>,
    pub offered: Ghost<Seq<(usize, u64)>>,
    pub passed_over: Ghost<Seq<usize>>,
    /// Where the champion stands among the offered candidates.
    pub champion_at: Ghost<int>,
}

impl ChampionScan {
    /// The champion ranks at least as high as every candidate offered: its
    /// match index is the least, and its score the greatest among those of
    /// that index.
    pub open spec fn wf(&self) -> bool {
        match self.champion {
            None => self.offered@.len() == 0 && self.passed_over@.len() == 0,
            Some(c) => {
                &&& 0 <= self.champion_at@ < self.offered@.len()
                &&& self.offered@[self.champion_at@] == (c.match_index, c.score)
                &&& forall|j: int|
                    0 <= j < self.champion_at@ ==> (#[trigger] self.offered@[j]).0 == c.match_index
                        ==> self.offered@[j].1 < c.score
                &&& forall|i: int|
                    0 <= i < self.passed_over@.len() ==> #[trigger] self.passed_over@[i]
                        > c.match_index
                &&& forall|i: int|
                    0 <= i < self.offered@.len() ==> !outranks(
                        (#[trigger] self.offered@[i]).0,
                        self.offered@[i].1,
                        c,
                    )
            },
        }
    }

    pub open spec fn spec_beats(&self, idx: usize, score: u64) -> bool {
        match self.champion {
            None => true,
            Some(c) => outranks(idx, score, c),
        }
    }

    pub fn new() -> (r: ChampionScan)
        ensures
            r.wf(),
            r.champion is None,
    {
        ChampionScan {
            champion: None,
            offered: Ghost(Seq::empty()),
            passed_over: Ghost(Seq::empty()),
            champion_at: Ghost(0),
        }
    }

    /// Whether a candidate with this match index is worth scoring at all.
    /// One that is not has a higher index than the champion and cannot win.
    pub fn worth_scoring(&self, match_index: usize) -> (r: bool)
        ensures
            r == (match self.champion {
                None => true,
                Some(c) => match_index <= c.match_index,
            }),
            !r ==> forall|score: u64| !self.spec_beats(match_index, score),
    {
        match &self.champion {
            None => true,
            Some(c) => match_index <= c.match_index,
        }
    }

    /// Whether a scored candidate would replace the champion.
    pub fn beats(&self, match_index: usize, score: u64) -> (r: bool)
        ensures
            r == self.spec_beats(match_index, score),
    {
        match &self.champion {
            None => true,
            Some(c) => match_index < c.match_index || (match_index == c.match_index && score
                > c.score),
        }
    }

    /// Offers a scored candidate. One that ranks above the champion takes
    /// its place when its start time could be read (`start_time`); without
    /// it the process is taken to be gone and the offer is void. Ties keep
    /// the earlier champion.
    pub fn offer(&mut self, pid: u32, match_index: usize, score: u64, rss: u64, start_time: Option<u64>)
        requires
            old(self).wf(),
        ensures
            final(self).wf(),
            final(self).passed_over == old(self).passed_over,
            final(self).champion != old(self).champion ==> final(self).champion_at@
                == old(self).offered@.len(),
            old(self).spec_beats(match_index, score) && start_time is None ==> *final(self)
                == *old(self),
            old(self).spec_beats(match_index, score) && start_time is Some ==> final(self).champion
                == Some(
                Champion { pid, score, rss, match_index, start_time: start_time->0 },
            ) && final(self).offered@ == old(self).offered@.push((match_index, score)),
            !old(self).spec_beats(match_index, score) ==> final(self).champion
                == old(self).champion && final(self).offered@ == old(self).offered@.push(
                (match_index, score),
            ),
    {
        let wins = self.beats(match_index, score);
        if wins {
            match start_time {
                None => {},
                Some(st) => {
                    let ghost before = self.offered@;
                    self.champion = Some(
                        Champion { pid, score, rss, match_index, start_time: st },
                    );
                    self.offered = Ghost(before.push((match_index, score)));
                    self.champion_at = Ghost(before.len() as int);
                    proof {
                        let c = self.champion->0;
                        assert forall|j: int| 0 <= j < self.champion_at@ implies (#[trigger] self.offered@[j]).0
                            == c.match_index ==> self.offered@[j].1 < c.score by {
                            assert(self.offered@[j] == before[j]);
                            if old(self).champion is Some {
                                assert(!outranks(before[j].0, before[j].1, old(self).champion->0));
                            }
                        }
                        assert forall|i: int| 0 <= i < self.passed_over@.len() implies #[trigger] self.passed_over@[i]
                            > c.match_index by {
                            if old(self).champion is Some {
                                assert(self.passed_over@[i] > old(self).champion->0.match_index);
                            }
                        }
                        assert(self.offered@[before.len() as int] == (match_index, score));
                        assert forall|i: int| 0 <= i < self.offered@.len() implies !outranks(
                            (#[trigger] self.offered@[i]).0,
                            self.offered@[i].1,
                            c,
                        ) by {
                            if i < before.len() {
                                assert(self.offered@[i] == before[i]);
                            }
                        }
                    }
                },
            }
        } else {
            let ghost before = self.offered@;
            self.offered = Ghost(before.push((match_index, score)));
            proof {
                let c = self.champion->0;
                assert(self.offered@[self.champion_at@] == before[self.champion_at@]);
                assert forall|j: int| 0 <= j < self.champion_at@ implies (#[trigger] self.offered@[j]).0
                    == c.match_index ==> self.offered@[j].1 < c.score by {
                    assert(self.offered@[j] == before[j]);
                }
                assert forall|i: int| 0 <= i < self.offered@.len() implies !outranks(
                    (#[trigger] self.offered@[i]).0,
                    self.offered@[i].1,
                    c,
                ) by {
                    if i < before.len() {
                        assert(self.offered@[i] == before[i]);
                    }
                }
            }
        }
    }
}

impl ChampionScan {
    /// Records a candidate that was not worth scoring.
    pub fn pass_over(&mut self, match_index: usize)
        requires
            old(self).wf(),
            old(self).champion matches Some(c) && match_index > c.match_index,
        ensures
            final(self).wf(),
            final(self).champion == old(self).champion,
            final(self).offered == old(self).offered,
            final(self).champion_at == old(self).champion_at,
            final(self).passed_over@ == old(self).passed_over@.push(match_index),
    {
        let ghost before = self.passed_over@;
        self.passed_over = Ghost(before.push(match_index));
        proof {
            let c = self.champion->0;
            assert forall|i: int| 0 <= i < self.passed_over@.len() implies #[trigger] self.passed_over@[i]
                > c.match_index by {
                if i < before.len() {
                    assert(self.passed_over@[i] == before[i]);
                }
            }
        }
    }
}

/// The champion of a scan ranks first among the candidates seen: none
/// offered or passed over has a lower match index, none offered with the
/// same index has a higher score, and it is the first offered of its index
/// and score (ties keep the earliest).
pub proof fn lemma_champion_is_best(scan: ChampionScan)
    requires
        scan.wf(),
        scan.champion is Some,
    ensures
        forall|i: int|
            0 <= i < scan.offered@.len() ==> (#[trigger] scan.offered@[i]).0
                >= scan.champion->0.match_index && (scan.offered@[i].0
                == scan.champion->0.match_index ==> scan.offered@[i].1 <= scan.champion->0.score),
        forall|i: int|
            0 <= i < scan.passed_over@.len() ==> #[trigger] scan.passed_over@[i]
                > scan.champion->0.match_index,
        0 <= scan.champion_at@ < scan.offered@.len(),
        scan.offered@[scan.champion_at@] == (scan.champion->0.match_index, scan.champion->0.score),
        forall|j: int|
            0 <= j < scan.champion_at@ && (#[trigger] scan.offered@[j]).0
                == scan.champion->0.match_index ==> scan.offered@[j].1 < scan.champion->0.score,
{
    assert forall|i: int| 0 <= i < scan.offered@.len() implies (#[trigger] scan.offered@[i]).0
        >= scan.champion->0.match_index && (scan.offered@[i].0 == scan.champion->0.match_index
        ==> scan.offered@[i].1 <= scan.champion->0.score) by {
        assert(!outranks(scan.offered@[i].0, scan.offered@[i].1, scan.champion->0));
    }
}

/// The outcome of sending a signal.
#[derive(Debug, Clone, Copy, PartialEq, Eq, Structural)]
pub enum SignalOutcome {
    Delivered,
    /// `ESRCH`: no such process.
    NoSuchProcess,
    Failed,
}

/// What the termination protocol does after SIGTERM was sent.
#[derive(Debug, Clone, Copy, PartialEq, Eq, Structural)]
pub enum TermStep {
    /// The victim is already gone: credit its RSS.
    Credit,
    /// Wait `sigterm_wait_ms`, then verify.
    Wait,
    /// Abort the kill sequence.
    Abort,
}

pub fn after_sigterm(o: SignalOutcome) -> (r: TermStep)
    ensures
        r == match o {
            SignalOutcome::Delivered => TermStep::Wait,
            SignalOutcome::NoSuchProcess => TermStep::Credit,
            SignalOutcome::Failed => TermStep::Abort,
        },
{
    match o {
        SignalOutcome::Delivered => TermStep::Wait,
        SignalOutcome::NoSuchProcess => TermStep::Credit,
        SignalOutcome::Failed => TermStep::Abort,
    }
}

/// What the check after the SIGTERM wait found.
#[derive(Debug, Clone, Copy, PartialEq, Eq, Structural)]
pub enum Verification {
    /// The stat record is unreadable: the victim exited.
    Gone,
    /// The PID now belongs to a process with another start time.
    Reused,
    /// The victim is still there (or its start time cannot be told): send
    /// SIGKILL.
    Escalate,
}

/// Verifies the victim after the wait. `stat` is its stat record, or
/// `None` when it could not be read. SIGKILL is called for only when the
/// record shows the captured start time or none can be read from it.
pub fn verify_victim(captured_start_time: u64, stat: Option<&[u8]>) -> (r: Verification)
    ensures
        r == match stat {
            None => Verification::Gone,
            Some(b) => match spec_start_time(b@) {
                Some(st) => if st != captured_start_time {
                    Verification::Reused
                } else {
                    Verification::Escalate
                },
                None => Verification::Escalate,
            },
        },
        r == Verification::Escalate ==> (stat matches Some(b) && (spec_start_time(b@) is None
            || spec_start_time(b@) == Some(captured_start_time))),
{
    match stat {
        None => Verification::Gone,
        Some(b) => match start_time_from_stat(b) {
            Some(st) => if st != captured_start_time {
                Verification::Reused
            } else {
                Verification::Escalate
            },
            None => Verification::Escalate,
        },
    }
}

/// After SIGKILL: credit the victim when it was delivered, else abort.
pub fn sigkill_credits(o: SignalOutcome) -> (r: bool)
    ensures
        r == (o == SignalOutcome::Delivered),
{
    match o {
        SignalOutcome::Delivered => true,
        _ => false,
    }
}

/// The next step of the termination protocol for a victim with `rss`
/// resident bytes.
#[derive(Debug, Clone, Copy, PartialEq, Eq, Structural)]
pub enum VictimStep {
    /// The victim is gone: credit these bytes toward the amount needed.
    Credit(u64),
    /// Send SIGKILL.
    Escalate,
    /// Abort the kill sequence; nothing is credited.
    Abort,
}

/// After the check that follows the wait: a victim that exited, or whose
/// PID now belongs to another process, counts as killed and its RSS is
/// credited; otherwise SIGKILL follows.
pub fn after_verification(v: Verification, rss: u64) -> (r: VictimStep)
    ensures
        r == match v {
            Verification::Gone | Verification::Reused => VictimStep::Credit(rss),
            Verification::Escalate => VictimStep::Escalate,
        },
{
    match v {
        Verification::Gone | Verification::Reused => VictimStep::Credit(rss),
        Verification::Escalate => VictimStep::Escalate,
    }
}

/// After SIGKILL: a delivered signal credits the victim's RSS; any error
/// aborts the sequence.
pub fn after_sigkill(o: SignalOutcome, rss: u64) -> (r: VictimStep)
    ensures
        r == (if o == SignalOutcome::Delivered {
            VictimStep::Credit(rss)
        } else {
            VictimStep::Abort
        }),
{
    if sigkill_credits(o) {
        VictimStep::Credit(rss)
    } else {
        VictimStep::Abort
    }
}

/// After SIGTERM: a victim that is already gone is credited, a failed send
/// aborts, and a delivered signal means waiting and then verifying.
pub fn after_sigterm_credit(o: SignalOutcome, rss: u64) -> (r: Option<VictimStep>)
    ensures
        r == match o {
            SignalOutcome::Delivered => None::<VictimStep>,
            SignalOutcome::NoSuchProcess => Some(VictimStep::Credit(rss)),
            SignalOutcome::Failed => Some(VictimStep::Abort),
        },
{
    match after_sigterm(o) {
        TermStep::Wait => None,
        TermStep::Credit => Some(VictimStep::Credit(rss)),
        TermStep::Abort => Some(VictimStep::Abort),
    }
}

/// Why a kill sequence ended.
#[derive(Debug, Clone, Copy, PartialEq, Eq, Structural)]
pub enum StopReason {
    /// Nothing was needed on entry; no scan was made.
    NothingNeeded,
    /// The credited RSS reached the amount needed.
    TargetReached,
    /// No amount was given, and one victim was killed.
    SingleKill,
    /// The scan found no eligible candidate.
    NoCandidates,
    /// The termination protocol failed.
    KillFailed,
}

impl StopReason {
    /// The sequence ended by a `KillSequenceAborted` of failure.
    pub open spec fn is_abort(self) -> bool {
        self == StopReason::NoCandidates || self == StopReason::KillFailed
    }
}

/// The kill loop's bookkeeping: what is still needed, what was credited,
/// and why it stopped once it has.
pub struct KillSequence {
    pub requested: Ghost<Option<u64>>,
    pub credited: Ghost<nat>,
    pub remaining: Option<u64>,
    pub stopped: Option<StopReason>,
}

impl KillSequence {
    pub open spec fn wf(&self) -> bool {
        &&& self.requested@ is None <==> self.remaining is None
        &&& self.requested@ matches Some(n) ==> match self.stopped {
            None => self.credited@ < n && self.remaining == Some((n - self.credited@) as u64),
            Some(StopReason::TargetReached) => self.credited@ >= n,
            Some(StopReason::NothingNeeded) => n == 0,
            Some(StopReason::SingleKill) => false,
            _ => true,
        }
    }

    /// A sequence asked to free `amount_needed` bytes (`None`: one victim).
    /// Asked for nothing, it is over before any scan.
    pub fn start(amount_needed: Option<u64>) -> (r: KillSequence)
        ensures
            r.wf(),
            r.requested@ == amount_needed,
            r.credited@ == 0,
            r.stopped == (if amount_needed == Some(0u64) {
                Some(StopReason::NothingNeeded)
            } else {
                None
            }),
    {
        let stopped = match amount_needed {
            Some(0) => Some(StopReason::NothingNeeded),
            _ => None,
        };
        KillSequence {
            requested: Ghost(amount_needed),
            credited: Ghost(0),
            remaining: amount_needed,
            stopped,
        }
    }

    /// Whether the engine should scan `/proc` for another victim.
    pub fn wants_scan(&self) -> (r: bool)
        ensures
            r == (self.stopped is None),
    {
        self.stopped.is_none()
    }

    /// The scan found no candidate.
    pub fn no_candidate(&mut self)
        requires
            old(self).wf(),
            old(self).stopped is None,
        ensures
            final(self).wf(),
            final(self).stopped == Some(StopReason::NoCandidates),
            final(self).credited == old(self).credited,
            final(self).requested == old(self).requested,
    {
        self.stopped = Some(StopReason::NoCandidates);
    }

    /// The termination protocol ended: `Some(rss)` credits the victim's
    /// RSS, `None` is a failure.
    pub fn record_kill(&mut self, freed: Option<u64>)
        requires
            old(self).wf(),
            old(self).stopped is None,
        ensures
            final(self).wf(),
            final(self).requested == old(self).requested,
            freed is None ==> final(self).stopped == Some(StopReason::KillFailed)
                && final(self).credited == old(self).credited,
            freed matches Some(f) ==> final(self).credited@ == old(self).credited@ + f && match old(
                self,
            ).remaining {
                None => final(self).stopped == Some(StopReason::SingleKill),
                Some(n) => if f >= n {
                    final(self).stopped == Some(StopReason::TargetReached)
                } else {
                    final(self).stopped is None && final(self).remaining == Some((n - f) as u64)
                },
            },
    {
        match freed {
            None => {
                self.stopped = Some(StopReason::KillFailed);
            },
            Some(f) => {
                self.credited = Ghost((self.credited@ + f) as nat);
                match self.remaining {
                    None => {
                        self.stopped = Some(StopReason::SingleKill);
                    },
                    Some(n) => {
                        if f >= n {
                            self.stopped = Some(StopReason::TargetReached);
                        } else {
                            self.remaining = Some(n - f);
                        }
                    },
                }
            },
        }
    }
}

/// However a kill sequence for `n` bytes ends, either the credited RSS
/// reaches `n` or it ended in an abort.
pub proof fn lemma_sequence_covers_or_aborts(s: KillSequence, n: u64)
    requires
        s.wf(),
        s.requested@ == Some(n),
        s.stopped is Some,
    ensures
        s.credited@ >= n || s.stopped->0.is_abort(),
{
}


/// Relies on `nix::unistd::sysconf` with `PAGE_SIZE`: the page size when
/// the system reports one. Nothing is assumed of the value.
#[verifier::external_body]
fn system_page_size() -> (r: Option<u64>) {
    match nix::unistd::sysconf(nix::unistd::SysconfVar::PAGE_SIZE) {
        Ok(Some(v)) => Some(v as u64),
        _ => None,
    }
}

/// The per-process file that a strategy scores by.
#[derive(Debug, Clone, Copy, PartialEq, Eq, Structural)]
pub enum ScoreFile {
    Statm,
    OomScore,
}

pub fn score_file(strategy: KillStrategy) -> (r: ScoreFile)
    ensures
        r == (if strategy == KillStrategy::LargestRss {
            ScoreFile::Statm
        } else {
            ScoreFile::OomScore
        }),
{
    match strategy {
        KillStrategy::LargestRss => ScoreFile::Statm,
        KillStrategy::HighestOomScore => ScoreFile::OomScore,
    }
}

/// The kill engine's fixed parameters.
#[derive(Debug, Clone, Copy)]
pub struct Killer {
    page_size: u64,
}

impl Killer {
    pub closed spec fn spec_page_size(&self) -> u64 {
        self.page_size
    }

    /// An engine with the system's page size, or 4096 bytes when the system
    /// reports none (see `with_page_size`, which fixes that mapping).
    pub fn new() -> (r: Killer)
        ensures
            r.spec_page_size() > 0,
    {
        let reported = match system_page_size() {
            Some(v) => v,
            None => 0,
        };
        Killer::with_page_size(reported)
    }

    /// An engine with a given page size; zero stands for 4096 bytes.
    pub fn with_page_size(page_size: u64) -> (r: Killer)
        ensures
            r.spec_page_size() == (if page_size == 0 {
                4096
            } else {
                page_size
            }),
    {
        Killer { page_size: if page_size == 0 { 4096 } else { page_size } }
    }

    pub fn page_size(&self) -> (r: u64)
        ensures
            r == self.spec_page_size(),
    {
        self.page_size
    }

    /// Scores a candidate from the file its strategy reads (`None` when it
    /// could not be read): `(score, rss)`. By RSS the score is the RSS; by
    /// OOM score the RSS is left 0, to be filled for the champion alone.
    pub fn score(&self, strategy: KillStrategy, content: Option<&[u8]>) -> (r: (u64, u64))
        ensures
            strategy == KillStrategy::LargestRss ==> r.0 == r.1 && r.1 == match content {
                Some(b) => spec_rss_from_statm(b@, self.spec_page_size()),
                None => 0,
            },
            strategy == KillStrategy::HighestOomScore ==> r.1 == 0 && r.0 == match content {
                Some(b) => spec_oom_score(b@),
                None => 0,
            },
    {
        match strategy {
            KillStrategy::LargestRss => {
                let rss = match content {
                    Some(b) => rss_from_statm(b, self.page_size),
                    None => 0,
                };
                (rss, rss)
            },
            KillStrategy::HighestOomScore => {
                let score = match content {
                    Some(b) => oom_score_from(b),
                    None => 0,
                };
                (score, 0)
            },
        }
    }

    /// Fills a champion's RSS from its `statm` record when the scan left
    /// it 0.
    pub fn fill_rss(&self, champion: &mut Champion, statm: Option<&[u8]>)
        ensures
            old(champion).rss != 0 ==> *final(champion) == *old(champion),
            old(champion).rss == 0 ==> *final(champion) == (Champion {
                rss: match statm {
                    Some(b) => spec_rss_from_statm(b@, self.spec_page_size()),
                    None => 0,
                },
                ..*old(champion)
            }),
    {
        if champion.rss == 0 {
            if let Some(b) = statm {
                champion.rss = rss_from_statm(b, self.page_size);
            }
        }
    }
}


/// A sequence asked to free nothing is never running: it makes no scan.
pub proof fn lemma_nothing_needed_no_scan(s: KillSequence)
    requires
        s.wf(),
        s.requested@ == Some(0u64),
    ensures
        s.stopped is Some,
{
}

/// A process that no ignore pattern and no kill target matches stays
/// eligible, with the match index `usize::MAX`.
pub proof fn lemma_unmatched_is_last(pats: Seq<Pattern>, s: Seq<char>, idx: usize)
    requires
        is_match_index(pats, s, idx),
        forall|j: int| 0 <= j < pats.len() ==> !pattern_matches(#[trigger] pats[j], s),
    ensures
        idx == usize::MAX,
{
    if idx < pats.len() {
        assert(pattern_matches(pats[idx as int], s));
    }
}

} // verus!
