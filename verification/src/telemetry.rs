//! Where the time of an inference goes: per-command time inside the driver, gaps between
//! driver calls, bursts of submissions, and the CPU clock.
use crate::command::{RknpuCmd, RKNPU_CMD_KINDS};
use vstd::prelude::*;

verus! {

/// A summary is due after this many driver ioctls.
pub const RKNPU_IOCTL_SUMMARY_EVERY: u64 = 4096;

/// More idle time than this between two submissions ends a burst.
pub const BURST_GAP_NS: u64 = 30_000_000;

/// A burst with fewer submissions than this is not reported.
pub const BURST_MIN_SUBMITS: u64 = 10;

/// The CPU clusters are raised once this many submissions have been seen.
pub const RAISE_AFTER_SUBMITS: u64 = 60;

/// How many times the CPU probe goes round its loop.
pub const CPU_PROBE_ITERS: u64 = 200_000_000;

/// `x` as a 64-bit counter shows it.
pub open spec fn counter(x: int) -> u64 {
    (x % 0x1_0000_0000_0000_0000) as u64
}

/// The time from `start` to `end`, zero where `end` comes first.
pub open spec fn elapsed(start: u64, end: u64) -> u64 {
    if end > start {
        (end - start) as u64
    } else {
        0
    }
}

/// The microseconds from `start_ns` to `end_ns`, zero where the end comes first.
pub fn elapsed_us(start_ns: u64, end_ns: u64) -> (us: u64)
    ensures
        us == elapsed(start_ns, end_ns) / 1000,
{
    end_ns.saturating_sub(start_ns) / 1000
}

/// What one run of the CPU clock probe has shown.
#[derive(Debug, Clone, Copy, PartialEq, Eq)]
pub struct CpuProbe {
    /// Loop rounds, each about one cycle long.
    pub iters: u64,
    /// The time that they took, at least one nanosecond.
    pub dt_ns: u64,
    /// The clock that this amounts to.
    pub mhz: u64,
}

/// Evaluates a run of the probe loop that began at `t0_ns` and ended at `t1_ns`.
pub fn measure_and_log_cpu_mhz(t0_ns: u64, t1_ns: u64) -> (probe: CpuProbe)
    ensures
        probe.iters == CPU_PROBE_ITERS,
        probe.dt_ns == if t1_ns > t0_ns {
            t1_ns - t0_ns
        } else {
            1
        },
        probe.mhz == CPU_PROBE_ITERS * 1000 / (probe.dt_ns as int),
{
    let elapsed_ns: u64 = t1_ns.saturating_sub(t0_ns);
    let dt_ns: u64 = if elapsed_ns < 1 {
        1
    } else {
        elapsed_ns
    };
    CpuProbe { iters: CPU_PROBE_ITERS, dt_ns, mhz: CPU_PROBE_ITERS * 1000 / dt_ns }
}

/// The submissions of one inference, seen as a cluster.
#[derive(Debug, Clone, Copy, PartialEq, Eq)]
pub struct BurstReport {
    /// Submissions in the burst.
    pub submits: u64,
    /// Time from its first submission to its last.
    pub span_us: u64,
    /// That time per submission.
    pub us_per_submit: u64,
}

/// The submissions seen so far.
#[derive(Debug, Clone, Copy, PartialEq, Eq)]
pub struct SubmitBursts {
    /// When the latest submission came in, zero before the first.
    pub last_ns: u64,
    /// When the first submission of the current burst came in.
    pub start_ns: u64,
    /// Submissions in the current burst.
    pub count: u64,
    /// Submissions altogether.
    pub total: u64,
    /// Whether the CPU clusters have been raised.
    pub raised: bool,
}

impl SubmitBursts {
    /// Whether a submission at `entry_ns` is the first one of all, or comes so late that the
    /// burst before it is over.
    pub open spec fn opens_burst(self, entry_ns: u64) -> bool {
        self.last_ns == 0 || elapsed(self.last_ns, entry_ns) > BURST_GAP_NS
    }

    /// The state after a submission at `entry_ns`.
    pub open spec fn after(self, entry_ns: u64) -> SubmitBursts {
        SubmitBursts {
            last_ns: entry_ns,
            start_ns: if self.opens_burst(entry_ns) {
                entry_ns
            } else {
                self.start_ns
            },
            count: if self.opens_burst(entry_ns) {
                1
            } else {
                counter(self.count + 1)
            },
            total: counter(self.total + 1),
            raised: self.raised || self.raises(),
        }
    }

    /// Whether the next submission is the one on which the CPU clusters are raised.
    pub open spec fn raises(self) -> bool {
        !self.raised && counter(self.total + 1) >= RAISE_AFTER_SUBMITS
    }

    /// What a submission at `entry_ns` makes known of the burst before it.
    pub open spec fn report(self, entry_ns: u64) -> Option<BurstReport> {
        if self.last_ns != 0 && self.opens_burst(entry_ns) && self.count >= BURST_MIN_SUBMITS {
            let span_us = elapsed(self.start_ns, self.last_ns) / 1000;
            Some(
                BurstReport {
                    submits: self.count,
                    span_us,
                    us_per_submit: span_us / self.count,
                },
            )
        } else {
            None
        }
    }

    /// Takes note of a submission. Gives the report on the burst that it ends, and whether the
    /// CPU clusters are to be raised now.
    pub fn note(&mut self, entry_ns: u64) -> (r: (Option<BurstReport>, bool))
        ensures
            *final(self) == old(self).after(entry_ns),
            r.0 == old(self).report(entry_ns),
            r.1 == old(self).raises(),
    {
        let last: u64 = self.last_ns;
        let mut report: Option<BurstReport> = None;
        self.last_ns = entry_ns;
        if last == 0 {
            self.start_ns = entry_ns;
            self.count = 1;
        } else if entry_ns.saturating_sub(last) > BURST_GAP_NS {
            let cnt: u64 = self.count;
            let start: u64 = self.start_ns;
            self.count = 1;
            self.start_ns = entry_ns;
            if cnt >= BURST_MIN_SUBMITS {
                let span_us: u64 = last.saturating_sub(start) / 1000;
                report = Some(BurstReport { submits: cnt, span_us, us_per_submit: span_us / cnt });
            }
        } else {
            self.count = self.count.wrapping_add(1);
        }
        self.total = self.total.wrapping_add(1);
        let mut raise: bool = false;
        if self.total >= RAISE_AFTER_SUBMITS && !self.raised {
            self.raised = true;
            raise = true;
        }
        (report, raise)
    }
}

/// The CPU clusters are raised at most once: after the submission that raises them, no later
/// one does, whenever the submissions come in.
pub proof fn law_raised_at_most_once(before: SubmitBursts, entries: Seq<u64>)
    requires
        before.raised,
    ensures
        after_all(before, entries).raised,
        !after_all(before, entries).raises(),
    decreases entries.len(),
{
    if entries.len() > 0 {
        law_raised_at_most_once(before, entries.drop_last());
    }
}

/// The state after submissions at each of `entries`, in turn.
pub open spec fn after_all(before: SubmitBursts, entries: Seq<u64>) -> SubmitBursts
    decreases entries.len(),
{
    if entries.len() == 0 {
        before
    } else {
        after_all(before, entries.drop_last()).after(entries.last())
    }
}

/// One command's line of a summary.
#[derive(Debug, Clone, Copy, PartialEq, Eq)]
pub struct PartRow {
    /// The command's number.
    pub kind: usize,
    /// How often it was called.
    pub count: u64,
    /// The time spent in it.
    pub total_us: u64,
    /// That time per call.
    pub avg_us: u64,
}

/// A share in percent.
#[derive(Debug, Clone, Copy, PartialEq, Eq)]
pub struct Percent {
    /// Whole percent.
    pub whole: u64,
    /// Tenths of a percent.
    pub tenths: u64,
}

/// A cumulative account of the driver's ioctls.
#[derive(Debug, PartialEq, Eq)]
pub struct Summary {
    /// One line per command that was called, in the order of their numbers.
    pub rows: Vec<PartRow>,
    /// Driver ioctls altogether.
    pub ioctls: u64,
    /// Time inside the driver, over all commands.
    pub kernel_us: u64,
    /// Time between driver ioctls.
    pub gap_us: u64,
    /// How many such gaps there were.
    pub gap_count: u64,
    /// Their mean length.
    pub gap_avg_us: u64,
    /// Time inside and between.
    pub wall_us: u64,
    /// The share of the time inside.
    pub kernel_share: Percent,
    /// The share of the time between.
    pub gap_share: Percent,
}

/// The line of command `i`.
pub open spec fn row_of(counts: Seq<u64>, ns: Seq<u64>, i: int) -> PartRow {
    PartRow {
        kind: i as usize,
        count: counts[i],
        total_us: ns[i] / 1000,
        avg_us: ns[i] / 1000 / counts[i],
    }
}

/// The lines of those of the first `n` commands that were called.
pub open spec fn rows_of(counts: Seq<u64>, ns: Seq<u64>, n: nat) -> Seq<PartRow>
    decreases n,
{
    if n == 0 {
        Seq::empty()
    } else if counts[n - 1] == 0 {
        rows_of(counts, ns, (n - 1) as nat)
    } else {
        rows_of(counts, ns, (n - 1) as nat).push(row_of(counts, ns, n - 1))
    }
}

/// The sum of the time that the lines show.
pub open spec fn total_of(rows: Seq<PartRow>) -> int
    decreases rows.len(),
{
    if rows.len() == 0 {
        0
    } else {
        total_of(rows.drop_last()) + rows.last().total_us
    }
}

/// `part` of `whole` in thousandths, where the product is capped at the largest 64-bit number.
pub open spec fn permille(part: u64, whole: u64) -> u64 {
    if whole == 0 {
        0
    } else if part * 1000 > u64::MAX {
        u64::MAX / whole
    } else {
        (part * 1000 / (whole as int)) as u64
    }
}

/// `permille` thousandths as a share in percent.
pub open spec fn percent(permille: int) -> Percent {
    Percent { whole: (permille / 10) as u64, tenths: (permille % 10) as u64 }
}

/// What the driver's ioctls have taken so far.
#[derive(Debug, Clone, Copy, PartialEq, Eq)]
pub struct IoctlStats {
    /// Calls per command.
    pub cmd_count: [u64; 6],
    /// Time inside the driver per command.
    pub cmd_ns: [u64; 6],
    /// When the latest ioctl was left, zero before the first.
    pub last_exit_ns: u64,
    /// Time between ioctls.
    pub gap_ns: u64,
    /// How many gaps that was.
    pub gap_count: u64,
    /// Ioctls altogether.
    pub total: u64,
    /// The submissions among them.
    pub bursts: SubmitBursts,
    /// Whether the CPU clock has been probed.
    pub cpu_mhz_probed: bool,
}

/// What is to be done once an ioctl has been accounted for, in this order.
#[derive(Debug, PartialEq, Eq)]
pub struct AccountReport {
    /// Print a burst.
    pub burst: Option<BurstReport>,
    /// Raise the CPU clusters, and probe their clock again.
    pub raise_clocks: bool,
    /// Print a summary.
    pub summary: Option<Summary>,
}

impl Summary {
    /// Whether this is the summary of `stats` after `stats.total` ioctls.
    pub open spec fn is_of(self, stats: IoctlStats) -> bool {
        let kernel = permille(self.kernel_us, self.wall_us);
        &&& self.rows@ == rows_of(stats.cmd_count@, stats.cmd_ns@, RKNPU_CMD_KINDS as nat)
        &&& self.ioctls == stats.total
        &&& self.kernel_us == total_of(self.rows@)
        &&& self.gap_us == stats.gap_ns / 1000
        &&& self.gap_count == stats.gap_count
        &&& self.gap_avg_us == if stats.gap_count > 0 {
            self.gap_us / stats.gap_count
        } else {
            0
        }
        &&& self.wall_us == self.kernel_us + self.gap_us
        &&& self.kernel_share == percent(kernel as int)
        &&& self.gap_share == percent(1000 - kernel)
    }
}

proof fn lemma_permille(part: u64, whole: u64)
    requires
        part <= whole,
    ensures
        permille(part, whole) <= 1000,
{
    if whole > 0 {
        assert(part * 1000 / (whole as int) <= 1000) by (nonlinear_arith)
            requires
                part <= whole,
                whole > 0,
        ;
        if part * 1000 > u64::MAX {
            assert(u64::MAX as int / (whole as int) <= 1000) by (nonlinear_arith)
                requires
                    u64::MAX <= part * 1000,
                    part <= whole,
                    whole > 0,
            ;
        }
    }
}

/// The two shares of a summary make up the whole: they add to a hundred percent.
pub proof fn law_shares_add_up(summary: Summary, stats: IoctlStats)
    requires
        summary.is_of(stats),
    ensures
        summary.kernel_share.whole * 10 + summary.kernel_share.tenths + summary.gap_share.whole * 10
            + summary.gap_share.tenths == 1000,
        summary.kernel_share.tenths < 10,
        summary.gap_share.tenths < 10,
{
    lemma_permille(summary.kernel_us, summary.wall_us);
}

/// The sum of what there is per command, over all commands.
pub open spec fn over_commands(each: Seq<u64>) -> int {
    each[0] + each[1] + each[2] + each[3] + each[4] + each[5]
}

proof fn lemma_one_more_call(counts: Seq<u64>, i: int, total: u64)
    requires
        counts.len() == RKNPU_CMD_KINDS,
        0 <= i < RKNPU_CMD_KINDS,
        total == counter(over_commands(counts)),
    ensures
        counter(total + 1) == counter(over_commands(counts.update(i, counter(counts[i] + 1)))),
{
    let one_more = counts.update(i, counter(counts[i] + 1));
    let cap: int = 0x1_0000_0000_0000_0000;
    if counts[i] == u64::MAX {
        assert(over_commands(one_more) == over_commands(counts) + 1 - cap);
    } else {
        assert(over_commands(one_more) == over_commands(counts) + 1);
    }
    assert((over_commands(counts) % cap + 1) % cap == (over_commands(counts) + 1) % cap);
    assert((over_commands(counts) + 1 - cap) % cap == (over_commands(counts) + 1) % cap);
}

impl IoctlStats {
    /// Whether no ioctl has been accounted for.
    pub open spec fn is_empty(self) -> bool {
        &&& self.cmd_count@ =~= Seq::new(RKNPU_CMD_KINDS as nat, |i: int| 0u64)
        &&& self.cmd_ns@ =~= Seq::new(RKNPU_CMD_KINDS as nat, |i: int| 0u64)
        &&& self.last_exit_ns == 0
        &&& self.gap_ns == 0
        &&& self.gap_count == 0
        &&& self.total == 0
        &&& self.bursts == SubmitBursts {
            last_ns: 0,
            start_ns: 0,
            count: 0,
            total: 0,
            raised: false,
        }
    }

    /// Nothing seen yet.
    pub fn new() -> (r: Self)
        ensures
            r.is_empty(),
            !r.cpu_mhz_probed,
            r.consistent(),
    {
        IoctlStats {
            cmd_count: [0, 0, 0, 0, 0, 0],
            cmd_ns: [0, 0, 0, 0, 0, 0],
            last_exit_ns: 0,
            gap_ns: 0,
            gap_count: 0,
            total: 0,
            bursts: SubmitBursts { last_ns: 0, start_ns: 0, count: 0, total: 0, raised: false },
            cpu_mhz_probed: false,
        }
    }

    /// The summary of what has been seen.
    pub fn summary(&self) -> (r: Summary)
        ensures
            r.is_of(*self),
    {
        let mut rows: Vec<PartRow> = Vec::new();
        let mut kernel_us: u64 = 0;
        let mut i: usize = 0;
        while i < RKNPU_CMD_KINDS
            invariant
                i <= RKNPU_CMD_KINDS,
                rows@ == rows_of(self.cmd_count@, self.cmd_ns@, i as nat),
                kernel_us == total_of(rows@),
                kernel_us <= i * (u64::MAX / 1000),
            decreases RKNPU_CMD_KINDS - i,
        {
            let cnt: u64 = self.cmd_count[i];
            if cnt != 0 {
                let total_us: u64 = self.cmd_ns[i] / 1000;
                kernel_us = kernel_us + total_us;
                let row = PartRow { kind: i, count: cnt, total_us, avg_us: total_us / cnt };
                let ghost before = rows@;
                rows.push(row);
                assert(rows@.drop_last() == before);
            }
            i = i + 1;
        }
        let gap_us: u64 = self.gap_ns / 1000;
        let wall_us: u64 = kernel_us + gap_us;
        let kernel_permille: u64 = if wall_us > 0 {
            let scaled: u64 = match kernel_us.checked_mul(1000) {
                Some(product) => product,
                None => u64::MAX,
            };
            scaled / wall_us
        } else {
            0
        };
        proof {
            lemma_permille(kernel_us, wall_us);
        }
        Summary {
            rows,
            ioctls: self.total,
            kernel_us,
            gap_us,
            gap_count: self.gap_count,
            gap_avg_us: if self.gap_count > 0 {
                gap_us / self.gap_count
            } else {
                0
            },
            wall_us,
            kernel_share: Percent { whole: kernel_permille / 10, tenths: kernel_permille % 10 },
            gap_share: Percent {
                whole: (1000 - kernel_permille) / 10,
                tenths: (1000 - kernel_permille) % 10,
            },
        }
    }

    /// Whether the counters agree: the calls per command add to the ioctls altogether, and the
    /// submissions are the calls of the submit command, as far as 64-bit counters show them.
    pub open spec fn consistent(self) -> bool {
        &&& self.total == counter(over_commands(self.cmd_count@))
        &&& self.bursts.total == self.cmd_count@[RknpuCmd::Submit.number()]
    }

    /// Whether a gap lies between the latest ioctl and one that is entered at `entry_ns`.
    pub open spec fn has_gap(self, entry_ns: u64) -> bool {
        self.last_exit_ns != 0 && entry_ns > self.last_exit_ns
    }

    /// Whether `after` is this account with one more ioctl in it, and `report` what is to be
    /// reported then: the ioctl `op`, entered at `entry_ns` and left at `exit_ns`.
    pub open spec fn accounts_for(
        self,
        op: RknpuCmd,
        entry_ns: u64,
        exit_ns: u64,
        after: IoctlStats,
        report: AccountReport,
    ) -> bool {
        let i = op.number();
        let submit = op == RknpuCmd::Submit;
        let gap = self.has_gap(entry_ns);
        &&& after.cmd_count@ == self.cmd_count@.update(i, counter(self.cmd_count@[i] + 1))
        &&& after.cmd_ns@ == self.cmd_ns@.update(
            i,
            counter(self.cmd_ns@[i] + elapsed(entry_ns, exit_ns)),
        )
        &&& after.last_exit_ns == exit_ns
        &&& after.gap_ns == if gap {
            counter(self.gap_ns + (entry_ns - self.last_exit_ns))
        } else {
            self.gap_ns
        }
        &&& after.gap_count == if gap {
            counter(self.gap_count + 1)
        } else {
            self.gap_count
        }
        &&& after.total == counter(self.total + 1)
        &&& after.bursts == if submit {
            self.bursts.after(entry_ns)
        } else {
            self.bursts
        }
        &&& after.cpu_mhz_probed == self.cpu_mhz_probed
        &&& report.burst == if submit {
            self.bursts.report(entry_ns)
        } else {
            None
        }
        &&& report.raise_clocks == (submit && self.bursts.raises())
        &&& report.summary is Some <==> after.total % RKNPU_IOCTL_SUMMARY_EVERY == 0
        &&& report.summary matches Some(summary) ==> summary.is_of(after)
    }

    /// Folds one completed driver ioctl into the account, and says what is to be reported.
    #[verifier::rlimit(40)]
    pub fn account_rknpu_ioctl(&mut self, op: RknpuCmd, entry_ns: u64, exit_ns: u64) -> (r:
        AccountReport)
        ensures
            old(self).accounts_for(op, entry_ns, exit_ns, *final(self), r),
    {
        let idx: usize = op.index();
        let count: u64 = self.cmd_count[idx];
        let ns: u64 = self.cmd_ns[idx];
        self.cmd_count[idx] = count.wrapping_add(1);
        self.cmd_ns[idx] = ns.wrapping_add(exit_ns.saturating_sub(entry_ns));

        let last_exit: u64 = self.last_exit_ns;
        self.last_exit_ns = exit_ns;
        if last_exit != 0 && entry_ns > last_exit {
            self.gap_ns = self.gap_ns.wrapping_add(entry_ns - last_exit);
            self.gap_count = self.gap_count.wrapping_add(1);
        }
        let mut burst: Option<BurstReport> = None;
        let mut raise_clocks: bool = false;
        if op == RknpuCmd::Submit {
            let noted = self.bursts.note(entry_ns);
            burst = noted.0;
            raise_clocks = noted.1;
        }
        self.total = self.total.wrapping_add(1);
        let summary: Option<Summary> = if self.total % RKNPU_IOCTL_SUMMARY_EVERY == 0 {
            Some(self.summary())
        } else {
            None
        };
        AccountReport { burst, raise_clocks, summary }
    }

    /// Marks the CPU clock as probed. True on the first call only.
    pub fn claim_cpu_probe(&mut self) -> (first: bool)
        ensures
            first == !old(self).cpu_mhz_probed,
            *final(self) == (IoctlStats { cpu_mhz_probed: true, ..*old(self) }),
    {
        let first: bool = !self.cpu_mhz_probed;
        self.cpu_mhz_probed = true;
        first
    }
}

/// The counters keep agreeing: where they do, they still do after one more ioctl.
pub proof fn law_counters_agree(
    before: IoctlStats,
    op: RknpuCmd,
    entry_ns: u64,
    exit_ns: u64,
    after: IoctlStats,
    report: AccountReport,
)
    requires
        before.consistent(),
        before.accounts_for(op, entry_ns, exit_ns, after, report),
    ensures
        after.consistent(),
{
    lemma_one_more_call(before.cmd_count@, op.number(), before.total);
}

/// A completed driver ioctl.
pub struct DriverCall {
    pub op: RknpuCmd,
    pub entry_ns: u64,
    pub exit_ns: u64,
}

/// Whether `after` is the account `before` with one more call in it, and `report` what was
/// reported of the call. The CPU clock may have been marked as probed in the meantime.
#[verifier::opaque]
pub open spec fn is_accounted_for(
    call: DriverCall,
    before: IoctlStats,
    after: IoctlStats,
    report: AccountReport,
) -> bool {
    before.accounts_for(
        call.op,
        call.entry_ns,
        call.exit_ns,
        IoctlStats { cpu_mhz_probed: before.cpu_mhz_probed, ..after },
        report,
    )
}

/// Whether `states` is the account before the first of `calls` and after each of them, kept from
/// the start, and `reports` is what was reported of each.
pub open spec fn is_history(
    calls: Seq<DriverCall>,
    states: Seq<IoctlStats>,
    reports: Seq<AccountReport>,
) -> bool {
    &&& states.len() == calls.len() + 1
    &&& reports.len() == calls.len()
    &&& states[0].is_empty()
    &&& forall|i: int|
        #![trigger calls[i]]
        0 <= i < calls.len() ==> is_accounted_for(calls[i], states[i], states[i + 1], reports[i])
}

/// Whether the calls follow each other: each is left no earlier than it is entered, and entered
/// no earlier than those before it are left.
pub open spec fn in_order(calls: Seq<DriverCall>) -> bool {
    &&& forall|i: int|
        0 <= i < calls.len() ==> (#[trigger] calls[i]).entry_ns <= calls[i].exit_ns
    &&& forall|i: int, j: int|
        0 <= i < j < calls.len() ==> (#[trigger] calls[i]).exit_ns <= (
        #[trigger] calls[j]).entry_ns
}

/// How many of the calls are submissions.
pub open spec fn submissions(calls: Seq<DriverCall>) -> nat
    decreases calls.len(),
{
    if calls.len() == 0 {
        0
    } else {
        submissions(calls.drop_last()) + if calls.last().op == RknpuCmd::Submit {
            1nat
        } else {
            0
        }
    }
}

proof fn lemma_earlier_history(
    calls: Seq<DriverCall>,
    states: Seq<IoctlStats>,
    reports: Seq<AccountReport>,
)
    requires
        is_history(calls, states, reports),
        calls.len() > 0,
    ensures
        is_history(calls.drop_last(), states.drop_last(), reports.drop_last()),
        is_accounted_for(
            calls.last(),
            states.drop_last().last(),
            states.last(),
            reports.last(),
        ),
{
    let n = calls.len() - 1;
    let rest = calls.drop_last();
    let earlier = states.drop_last();
    assert(is_accounted_for(calls[n], states[n], states[n + 1], reports[n]));
    assert forall|i: int| #![trigger rest[i]] 0 <= i < n implies is_accounted_for(
        rest[i],
        earlier[i],
        earlier[i + 1],
        reports.drop_last()[i],
    ) by {
        assert(is_accounted_for(calls[i], states[i], states[i + 1], reports[i]));
    }
}

proof fn lemma_time_added(each: Seq<u64>, i: int, more: u64)
    requires
        each.len() == RKNPU_CMD_KINDS,
        0 <= i < RKNPU_CMD_KINDS,
        each[i] + more <= u64::MAX,
    ensures
        over_commands(each.update(i, counter(each[i] + more))) == over_commands(each) + more,
{
}

proof fn lemma_first_call_time(
    call: DriverCall,
    before: IoctlStats,
    after: IoctlStats,
    report: AccountReport,
)
    requires
        is_accounted_for(call, before, after, report),
        before.is_empty(),
        call.entry_ns <= call.exit_ns,
    ensures
        after.last_exit_ns == call.exit_ns,
        over_commands(after.cmd_ns@) + after.gap_ns == call.exit_ns - call.entry_ns,
{
    reveal(is_accounted_for);
    lemma_time_added(before.cmd_ns@, call.op.number(), elapsed(call.entry_ns, call.exit_ns));
}

proof fn lemma_next_call_time(
    call: DriverCall,
    before: IoctlStats,
    after: IoctlStats,
    report: AccountReport,
    first: u64,
)
    requires
        is_accounted_for(call, before, after, report),
        first <= before.last_exit_ns <= call.entry_ns <= call.exit_ns,
        before.last_exit_ns > 0,
        over_commands(before.cmd_ns@) + before.gap_ns == before.last_exit_ns - first,
    ensures
        after.last_exit_ns == call.exit_ns,
        over_commands(after.cmd_ns@) + after.gap_ns == call.exit_ns - first,
{
    reveal(is_accounted_for);
    lemma_time_added(before.cmd_ns@, call.op.number(), elapsed(call.entry_ns, call.exit_ns));
}

/// No time is lost: where the calls follow each other, the time inside the driver, over all
/// commands, and the time between the calls make up the time from the first entry to the last
/// exit. The clock must have left zero by the first exit, as an exit at zero counts as none.
pub proof fn law_all_time_is_accounted_for(
    calls: Seq<DriverCall>,
    states: Seq<IoctlStats>,
    reports: Seq<AccountReport>,
)
    requires
        is_history(calls, states, reports),
        in_order(calls),
        calls.len() > 0,
        calls[0].exit_ns > 0,
    ensures
        over_commands(states.last().cmd_ns@) + states.last().gap_ns == calls.last().exit_ns
            - calls[0].entry_ns,
        states.last().last_exit_ns == calls.last().exit_ns,
    decreases calls.len(),
{
    let before = states.drop_last().last();
    lemma_earlier_history(calls, states, reports);
    if calls.len() > 1 {
        let rest = calls.drop_last();
        assert(forall|i: int| 0 <= i < rest.len() ==> #[trigger] rest[i] == calls[i]);
        law_all_time_is_accounted_for(rest, states.drop_last(), reports.drop_last());
        assert(calls[calls.len() - 2].exit_ns <= calls[calls.len() - 1].entry_ns);
        assert(calls[0].entry_ns <= calls[0].exit_ns <= calls[calls.len() - 2].exit_ns) by {
            if calls.len() > 2 {
                assert(calls[0].exit_ns <= calls[calls.len() - 2].entry_ns);
            }
        }
        lemma_next_call_time(
            calls.last(),
            before,
            states.last(),
            reports.last(),
            calls[0].entry_ns,
        );
    } else {
        assert(before == states[0]);
        lemma_first_call_time(calls.last(), before, states.last(), reports.last());
    }
}

proof fn lemma_one_more_submission(
    call: DriverCall,
    before: IoctlStats,
    after: IoctlStats,
    report: AccountReport,
    n: nat,
)
    requires
        is_accounted_for(call, before, after, report),
        before.bursts.total == counter(n as int),
        before.bursts.raised == (n >= RAISE_AFTER_SUBMITS),
    ensures
        ({
            let submit = call.op == RknpuCmd::Submit;
            let now = if submit {
                n + 1
            } else {
                n
            };
            &&& after.bursts.total == counter(now as int)
            &&& after.bursts.raised == (now >= RAISE_AFTER_SUBMITS)
            &&& report.raise_clocks <==> submit && now == RAISE_AFTER_SUBMITS
        }),
{
    reveal(is_accounted_for);
}

proof fn lemma_submissions(
    calls: Seq<DriverCall>,
    states: Seq<IoctlStats>,
    reports: Seq<AccountReport>,
)
    requires
        is_history(calls, states, reports),
    ensures
        states.last().bursts.total == counter(submissions(calls) as int),
        states.last().bursts.raised == (submissions(calls) >= RAISE_AFTER_SUBMITS),
        calls.len() > 0 ==> (reports.last().raise_clocks <==> calls.last().op == RknpuCmd::Submit
            && submissions(calls) == RAISE_AFTER_SUBMITS),
    decreases calls.len(),
{
    if calls.len() > 0 {
        lemma_earlier_history(calls, states, reports);
        lemma_submissions(calls.drop_last(), states.drop_last(), reports.drop_last());
        lemma_one_more_submission(
            calls.last(),
            states.drop_last().last(),
            states.last(),
            reports.last(),
            submissions(calls.drop_last()),
        );
    } else {
        assert(states.last() == states[0]);
    }
}

/// The CPU clusters are raised on the submission that completes `RAISE_AFTER_SUBMITS` of them,
/// and on no other call.
pub proof fn law_raised_on_one_submission(
    calls: Seq<DriverCall>,
    states: Seq<IoctlStats>,
    reports: Seq<AccountReport>,
    i: int,
)
    requires
        is_history(calls, states, reports),
        0 <= i < calls.len(),
    ensures
        reports[i].raise_clocks <==> calls[i].op == RknpuCmd::Submit && submissions(
            calls.take(i + 1),
        ) == RAISE_AFTER_SUBMITS,
    decreases calls.len(),
{
    if i < calls.len() - 1 {
        let rest = calls.drop_last();
        lemma_earlier_history(calls, states, reports);
        law_raised_on_one_submission(rest, states.drop_last(), reports.drop_last(), i);
        assert(rest.take(i + 1) == calls.take(i + 1));
    } else {
        lemma_submissions(calls, states, reports);
        assert(calls.take(i + 1) == calls);
    }
}

/// The times at which the submissions among the calls were entered, in order.
pub open spec fn submission_entries(calls: Seq<DriverCall>) -> Seq<u64>
    decreases calls.len(),
{
    if calls.len() == 0 {
        Seq::empty()
    } else if calls.last().op == RknpuCmd::Submit {
        submission_entries(calls.drop_last()).push(calls.last().entry_ns)
    } else {
        submission_entries(calls.drop_last())
    }
}

/// Whether submission `k` opens a burst: it is the first one, or comes too long after the one
/// before it. A submission at zero counts as none.
pub open spec fn opens_at(entries: Seq<u64>, k: int) -> bool {
    k == 0 || entries[k - 1] == 0 || elapsed(entries[k - 1], entries[k]) > BURST_GAP_NS
}

/// Whether submission `first` is the one that opened the burst that the last submission is in.
pub open spec fn is_opener(entries: Seq<u64>, first: int) -> bool {
    &&& 0 <= first < entries.len()
    &&& opens_at(entries, first)
    &&& forall|k: int| first < k < entries.len() ==> !#[trigger] opens_at(entries, k)
}

/// The report on the burst from submission `first` to the last one: how many submissions it
/// holds, as a 64-bit counter shows them, and the time from its first entry to its last.
pub open spec fn burst_report(entries: Seq<u64>, first: int) -> BurstReport {
    let submits = counter(entries.len() - first);
    let span_us = elapsed(entries[first], entries.last()) / 1000;
    BurstReport { submits, span_us, us_per_submit: span_us / submits }
}

proof fn lemma_burst_step(
    call: DriverCall,
    before: IoctlStats,
    after: IoctlStats,
    report: AccountReport,
)
    requires
        is_accounted_for(call, before, after, report),
    ensures
        call.op == RknpuCmd::Submit ==> after.bursts == before.bursts.after(call.entry_ns)
            && report.burst == before.bursts.report(call.entry_ns),
        call.op != RknpuCmd::Submit ==> after.bursts == before.bursts && report.burst is None,
{
    reveal(is_accounted_for);
}

proof fn lemma_last_submission(
    calls: Seq<DriverCall>,
    states: Seq<IoctlStats>,
    reports: Seq<AccountReport>,
)
    requires
        is_history(calls, states, reports),
    ensures
        submission_entries(calls).len() == submissions(calls),
        states.last().bursts.last_ns == if submission_entries(calls).len() > 0 {
            submission_entries(calls).last()
        } else {
            0
        },
    decreases calls.len(),
{
    if calls.len() > 0 {
        lemma_earlier_history(calls, states, reports);
        lemma_last_submission(calls.drop_last(), states.drop_last(), reports.drop_last());
        lemma_burst_step(
            calls.last(),
            states.drop_last().last(),
            states.last(),
            reports.last(),
        );
    } else {
        assert(states.last() == states[0]);
    }
}

proof fn lemma_current_burst(
    calls: Seq<DriverCall>,
    states: Seq<IoctlStats>,
    reports: Seq<AccountReport>,
    first: int,
)
    requires
        is_history(calls, states, reports),
        is_opener(submission_entries(calls), first),
    ensures
        states.last().bursts.start_ns == submission_entries(calls)[first],
        states.last().bursts.count == counter(submission_entries(calls).len() - first),
    decreases calls.len(),
{
    let rest = calls.drop_last();
    let entries = submission_entries(calls);
    let earlier = submission_entries(rest);
    let before = states.drop_last().last();
    lemma_earlier_history(calls, states, reports);
    lemma_last_submission(rest, states.drop_last(), reports.drop_last());
    lemma_burst_step(calls.last(), before, states.last(), reports.last());
    if calls.last().op != RknpuCmd::Submit {
        lemma_current_burst(rest, states.drop_last(), reports.drop_last(), first);
    } else {
        let last = entries.len() - 1;
        assert(last > 0 ==> entries[last - 1] == earlier.last());
        assert(before.bursts.opens_burst(calls.last().entry_ns) == opens_at(entries, last));
        if first < last {
            assert(!opens_at(entries, last));
            assert forall|k: int| first < k < earlier.len() implies !#[trigger] opens_at(
                earlier,
                k,
            ) by {
                assert(!opens_at(entries, k));
            }
            assert(opens_at(earlier, first));
            lemma_current_burst(rest, states.drop_last(), reports.drop_last(), first);
        }
    }
}

/// A call reports a burst exactly if it is a submission that comes too long after the one before
/// it, and that one was in a burst of at least `BURST_MIN_SUBMITS`. The report then gives the
/// submissions from the one that opened the burst, `first`, to that one, and the time between
/// the entries of these two.
pub proof fn law_reports_give_whole_bursts(
    calls: Seq<DriverCall>,
    states: Seq<IoctlStats>,
    reports: Seq<AccountReport>,
    i: int,
    first: int,
)
    requires
        is_history(calls, states, reports),
        0 <= i < calls.len(),
        submission_entries(calls.take(i)).len() > 0 ==> is_opener(
            submission_entries(calls.take(i)),
            first,
        ),
    ensures
        ({
            let entries = submission_entries(calls.take(i));
            reports[i].burst == if calls[i].op == RknpuCmd::Submit && entries.len() > 0
                && entries.last() != 0 && elapsed(entries.last(), calls[i].entry_ns) > BURST_GAP_NS
                && counter(entries.len() - first) >= BURST_MIN_SUBMITS {
                Some(burst_report(entries, first))
            } else {
                None
            }
        }),
    decreases calls.len(),
{
    let rest = calls.drop_last();
    lemma_earlier_history(calls, states, reports);
    if i < calls.len() - 1 {
        assert(rest.take(i) == calls.take(i));
        law_reports_give_whole_bursts(rest, states.drop_last(), reports.drop_last(), i, first);
    } else {
        assert(calls.take(i) == rest);
        lemma_last_submission(rest, states.drop_last(), reports.drop_last());
        lemma_burst_step(
            calls.last(),
            states.drop_last().last(),
            states.last(),
            reports.last(),
        );
        if submission_entries(rest).len() > 0 {
            lemma_current_burst(rest, states.drop_last(), reports.drop_last(), first);
        }
    }
}

/// Of every history with a submission in it, one submission opened the burst that the last one is
/// in.
pub proof fn law_every_burst_has_one_opener(entries: Seq<u64>) -> (first: int)
    requires
        entries.len() > 0,
    ensures
        is_opener(entries, first),
        forall|other: int| #[trigger] is_opener(entries, other) ==> other == first,
    decreases entries.len(),
{
    let last = entries.len() - 1;
    if opens_at(entries, last) {
        last
    } else {
        let rest = entries.drop_last();
        let first = law_every_burst_has_one_opener(rest);
        assert(opens_at(entries, first) == opens_at(rest, first));
        assert forall|k: int| first < k < entries.len() implies !#[trigger] opens_at(entries, k) by {
            if k < last {
                assert(!opens_at(rest, k));
            }
        }
        first
    }
}

proof fn lemma_bounds_kept(
    call: DriverCall,
    before: IoctlStats,
    after: IoctlStats,
    report: AccountReport,
    n: nat,
)
    requires
        is_accounted_for(call, before, after, report),
        n < u64::MAX,
        before.total == n,
        before.is_empty() || before.gap_count < before.total,
        before.bursts.count <= before.bursts.total <= n,
    ensures
        after.total == n + 1,
        after.gap_count < after.total,
        after.bursts.count <= after.bursts.total <= n + 1,
{
    reveal(is_accounted_for);
}

/// How the counters bound each other, as long as none of them can have wrapped: every call has at
/// most one gap before it, and the first has none; a burst holds no more submissions than there
/// were; and the CPU clusters are raised once there were enough of them.
pub proof fn law_counters_bound_each_other(
    calls: Seq<DriverCall>,
    states: Seq<IoctlStats>,
    reports: Seq<AccountReport>,
)
    requires
        is_history(calls, states, reports),
        calls.len() <= u64::MAX,
    ensures
        states.last().total == calls.len(),
        states.last().bursts.total == submissions(calls),
        submissions(calls) <= calls.len(),
        calls.len() > 0 ==> states.last().gap_count < states.last().total,
        states.last().bursts.count <= states.last().bursts.total,
        states.last().bursts.raised == (states.last().bursts.total >= RAISE_AFTER_SUBMITS),
    decreases calls.len(),
{
    lemma_submissions(calls, states, reports);
    if calls.len() > 0 {
        lemma_earlier_history(calls, states, reports);
        law_counters_bound_each_other(calls.drop_last(), states.drop_last(), reports.drop_last());
        if calls.len() == 1 {
            assert(states.drop_last().last() == states[0]);
        }
        lemma_bounds_kept(
            calls.last(),
            states.drop_last().last(),
            states.last(),
            reports.last(),
            (calls.len() - 1) as nat,
        );
    } else {
        assert(states.last() == states[0]);
    }
}

/// How often each command has been called, as far as the log is concerned.
#[derive(Debug, Clone, Copy, PartialEq, Eq)]
pub struct LogCounters {
    /// Calls of each command so far.
    pub seen: [usize; 6],
}

/// How many calls of a command are logged.
pub open spec fn log_limit(op: RknpuCmd) -> int {
    match op {
        RknpuCmd::Action => 16,
        RknpuCmd::Submit => 16,
        RknpuCmd::MemCreate => 16,
        RknpuCmd::MemSync => 32,
        RknpuCmd::MemMap => 0,
        RknpuCmd::MemDestroy => 0,
    }
}

impl LogCounters {
    /// Nothing logged yet.
    pub fn new() -> (r: Self)
        ensures
            r.seen@ == Seq::new(RKNPU_CMD_KINDS as nat, |i: int| 0usize),
    {
        LogCounters { seen: [0, 0, 0, 0, 0, 0] }
    }

    /// Counts one call of `op`. Gives its index among the calls of `op`, where that index is
    /// within the limit of calls that are logged.
    pub fn next(&mut self, op: RknpuCmd) -> (index: Option<usize>)
        ensures
            index == if old(self).seen@[op.number()] < log_limit(op) {
                Some(old(self).seen@[op.number()])
            } else {
                None
            },
            final(self).seen@ == old(self).seen@.update(
                op.number(),
                if old(self).seen@[op.number()] == usize::MAX {
                    0
                } else {
                    (old(self).seen@[op.number()] + 1) as usize
                },
            ),
    {
        let limit: usize = match op {
            RknpuCmd::Action => 16,
            RknpuCmd::Submit => 16,
            RknpuCmd::MemCreate => 16,
            RknpuCmd::MemSync => 32,
            RknpuCmd::MemMap => 0,
            RknpuCmd::MemDestroy => 0,
        };
        let idx: usize = op.index();
        let index: usize = self.seen[idx];
        self.seen[idx] = index.wrapping_add(1);
        if index < limit {
            Some(index)
        } else {
            None
        }
    }
}

/// The time of an interval is what has to be added to its start to reach its end, and none where
/// the end does not come later.
pub proof fn law_elapsed_time(start: u64, end: u64)
    ensures
        start <= end ==> start + elapsed(start, end) == end,
        end <= start ==> elapsed(start, end) == 0,
{
}

/// A counter shows a number as it is as long as the number fits, and starts over at zero after
/// the largest one.
pub proof fn law_counters_start_over(x: int)
    ensures
        0 <= x <= u64::MAX ==> counter(x) == x,
        counter(u64::MAX + 1) == 0,
        counter(x + 0x1_0000_0000_0000_0000) == counter(x),
{
}

/// How often a command was called.
pub open spec fn calls_of(calls: Seq<DriverCall>, op: RknpuCmd) -> int
    decreases calls.len(),
{
    if calls.len() == 0 {
        0
    } else {
        calls_of(calls.drop_last(), op) + if calls.last().op == op {
            1int
        } else {
            0
        }
    }
}

/// The time from entry to exit over the calls of a command; a call that is left before it is
/// entered took none.
pub open spec fn time_of(calls: Seq<DriverCall>, op: RknpuCmd) -> int
    decreases calls.len(),
{
    if calls.len() == 0 {
        0
    } else {
        let call = calls.last();
        time_of(calls.drop_last(), op) + if call.op == op && call.exit_ns > call.entry_ns {
            call.exit_ns - call.entry_ns
        } else {
            0
        }
    }
}

/// Whether there is a gap before call `i`: it was entered later than the one before it was left.
/// An exit at zero counts as none.
pub open spec fn gap_before(calls: Seq<DriverCall>, i: int) -> bool {
    i > 0 && calls[i - 1].exit_ns != 0 && calls[i].entry_ns > calls[i - 1].exit_ns
}

/// How many gaps there are between the calls.
pub open spec fn gaps(calls: Seq<DriverCall>) -> int
    decreases calls.len(),
{
    if calls.len() == 0 {
        0
    } else {
        gaps(calls.drop_last()) + if gap_before(calls, calls.len() - 1) {
            1int
        } else {
            0
        }
    }
}

/// The time of the gaps between the calls.
pub open spec fn gap_time(calls: Seq<DriverCall>) -> int
    decreases calls.len(),
{
    if calls.len() == 0 {
        0
    } else {
        let i = calls.len() - 1;
        gap_time(calls.drop_last()) + if gap_before(calls, i) {
            calls[i].entry_ns - calls[i - 1].exit_ns
        } else {
            0
        }
    }
}

proof fn lemma_counter_adds(x: int, y: int)
    ensures
        counter(counter(x) + y) == counter(x + y),
{
}

proof fn lemma_command_step(
    call: DriverCall,
    before: IoctlStats,
    after: IoctlStats,
    report: AccountReport,
    op: RknpuCmd,
    count: int,
    time: int,
)
    requires
        is_accounted_for(call, before, after, report),
        before.cmd_count@[op.number()] == counter(count),
        before.cmd_ns@[op.number()] == counter(time),
    ensures
        after.cmd_count@[op.number()] == counter(
            count + if call.op == op {
                1int
            } else {
                0
            },
        ),
        after.cmd_ns@[op.number()] == counter(
            time + if call.op == op && call.exit_ns > call.entry_ns {
                call.exit_ns - call.entry_ns
            } else {
                0
            },
        ),
{
    reveal(is_accounted_for);
    lemma_counter_adds(count, 1);
    lemma_counter_adds(time, elapsed(call.entry_ns, call.exit_ns) as int);
}

/// Every command has its own calls and its own time: what is kept for a command is, as a 64-bit
/// counter shows it, how often that command was called and how long those calls took, and the
/// calls of other commands make no difference.
pub proof fn law_each_command_has_its_own_time(
    calls: Seq<DriverCall>,
    states: Seq<IoctlStats>,
    reports: Seq<AccountReport>,
    op: RknpuCmd,
)
    requires
        is_history(calls, states, reports),
    ensures
        states.last().cmd_count@[op.number()] == counter(calls_of(calls, op)),
        states.last().cmd_ns@[op.number()] == counter(time_of(calls, op)),
    decreases calls.len(),
{
    if calls.len() > 0 {
        let rest = calls.drop_last();
        lemma_earlier_history(calls, states, reports);
        law_each_command_has_its_own_time(rest, states.drop_last(), reports.drop_last(), op);
        lemma_command_step(
            calls.last(),
            states.drop_last().last(),
            states.last(),
            reports.last(),
            op,
            calls_of(rest, op),
            time_of(rest, op),
        );
    } else {
        assert(states.last() == states[0]);
    }
}

proof fn lemma_gap_step(
    call: DriverCall,
    before: IoctlStats,
    after: IoctlStats,
    report: AccountReport,
    count: int,
    time: int,
)
    requires
        is_accounted_for(call, before, after, report),
        before.gap_count == counter(count),
        before.gap_ns == counter(time),
    ensures
        ({
            let gap = before.last_exit_ns != 0 && call.entry_ns > before.last_exit_ns;
            &&& after.last_exit_ns == call.exit_ns
            &&& after.gap_count == counter(
                count + if gap {
                    1int
                } else {
                    0
                },
            )
            &&& after.gap_ns == counter(
                time + if gap {
                    call.entry_ns - before.last_exit_ns
                } else {
                    0
                },
            )
        }),
{
    reveal(is_accounted_for);
    lemma_counter_adds(count, 1);
    lemma_counter_adds(time, call.entry_ns - before.last_exit_ns);
}

/// The gaps that are kept are those between the calls, and their time is the time from one exit
/// to the next entry, as 64-bit counters show them. Which commands the calls were makes no
/// difference.
pub proof fn law_gaps_lie_between_calls(
    calls: Seq<DriverCall>,
    states: Seq<IoctlStats>,
    reports: Seq<AccountReport>,
)
    requires
        is_history(calls, states, reports),
    ensures
        states.last().gap_count == counter(gaps(calls)),
        states.last().gap_ns == counter(gap_time(calls)),
        states.last().last_exit_ns == if calls.len() > 0 {
            calls.last().exit_ns
        } else {
            0
        },
    decreases calls.len(),
{
    if calls.len() > 0 {
        let rest = calls.drop_last();
        lemma_earlier_history(calls, states, reports);
        law_gaps_lie_between_calls(rest, states.drop_last(), reports.drop_last());
        lemma_gap_step(
            calls.last(),
            states.drop_last().last(),
            states.last(),
            reports.last(),
            gaps(rest),
            gap_time(rest),
        );
    } else {
        assert(states.last() == states[0]);
    }
}

proof fn lemma_summary_step(
    call: DriverCall,
    before: IoctlStats,
    after: IoctlStats,
    report: AccountReport,
    n: int,
)
    requires
        is_accounted_for(call, before, after, report),
        before.total == counter(n),
    ensures
        after.total == counter(n + 1),
        report.summary is Some <==> (n + 1) % 4096 == 0,
        report.summary matches Some(summary) ==> summary.is_of(after),
{
    reveal(is_accounted_for);
    lemma_counter_adds(n, 1);
    assert(counter(n + 1) % 4096 == (n + 1) % 4096);
}

/// A summary is given after every 4096th call and after no other, and it is the summary of the
/// account after that call.
pub proof fn law_summaries_come_every_4096_calls(
    calls: Seq<DriverCall>,
    states: Seq<IoctlStats>,
    reports: Seq<AccountReport>,
)
    requires
        is_history(calls, states, reports),
    ensures
        states.last().total == counter(calls.len() as int),
        calls.len() > 0 ==> {
            &&& reports.last().summary is Some <==> calls.len() % 4096 == 0
            &&& reports.last().summary matches Some(summary) ==> summary.is_of(states.last())
        },
    decreases calls.len(),
{
    if calls.len() > 0 {
        lemma_earlier_history(calls, states, reports);
        law_summaries_come_every_4096_calls(
            calls.drop_last(),
            states.drop_last(),
            reports.drop_last(),
        );
        lemma_summary_step(
            calls.last(),
            states.drop_last().last(),
            states.last(),
            reports.last(),
            calls.len() - 1,
        );
    } else {
        assert(states.last() == states[0]);
    }
}

proof fn lemma_rows(counts: Seq<u64>, ns: Seq<u64>, n: nat)
    requires
        n <= 6,
    ensures
        forall|k: int|
            0 <= k < rows_of(counts, ns, n).len() ==> {
                let row = #[trigger] rows_of(counts, ns, n)[k];
                &&& row.kind < n
                &&& counts[row.kind as int] != 0
                &&& row.count == counts[row.kind as int]
                &&& row.total_us == ns[row.kind as int] / 1000
                &&& row.avg_us == row.total_us / row.count
            },
        forall|j: int, k: int|
            0 <= j < k < rows_of(counts, ns, n).len() ==> (#[trigger] rows_of(counts, ns, n)[j]).kind
                < (#[trigger] rows_of(counts, ns, n)[k]).kind,
        forall|i: int|
            0 <= i < n && counts[i] != 0 ==> exists|k: int|
                0 <= k < rows_of(counts, ns, n).len() && (#[trigger] rows_of(counts, ns, n)[k]).kind
                    == i,
        total_of(rows_of(counts, ns, n)) == shown_us(counts, ns, n),
    decreases n,
{
    if n > 0 {
        let before = rows_of(counts, ns, (n - 1) as nat);
        let rows = rows_of(counts, ns, n);
        lemma_rows(counts, ns, (n - 1) as nat);
        assert(counts[n - 1] != 0 ==> rows.drop_last() == before);
        assert forall|i: int| 0 <= i < n && counts[i] != 0 implies exists|k: int|
            0 <= k < rows.len() && (#[trigger] rows[k]).kind == i by {
            if i == n - 1 {
                assert(rows[rows.len() - 1].kind == i);
            } else {
                let k = choose|k: int| 0 <= k < before.len() && (#[trigger] before[k]).kind == i;
                assert(rows[k].kind == i);
            }
        }
    }
}

/// The microseconds of those of the first `n` commands that were called.
pub open spec fn shown_us(counts: Seq<u64>, ns: Seq<u64>, n: nat) -> int
    decreases n,
{
    if n == 0 {
        0
    } else {
        shown_us(counts, ns, (n - 1) as nat) + if counts[n - 1] > 0 {
            ns[n - 1] / 1000
        } else {
            0
        }
    }
}

/// A summary has one line for each command that was called and none for the others, in the order
/// of their numbers; a line shows how often the command was called, its time in microseconds, and
/// that time per call.
pub proof fn law_lines_of_a_summary(summary: Summary, stats: IoctlStats, i: int)
    requires
        summary.is_of(stats),
        0 <= i < 6,
    ensures
        stats.cmd_count@[i] != 0 <==> exists|k: int|
            0 <= k < summary.rows@.len() && (#[trigger] summary.rows@[k]).kind == i,
        forall|k: int|
            0 <= k < summary.rows@.len() && (#[trigger] summary.rows@[k]).kind == i ==> {
                let row = summary.rows@[k];
                &&& row.count == stats.cmd_count@[i]
                &&& row.total_us == stats.cmd_ns@[i] / 1000
                &&& row.avg_us == stats.cmd_ns@[i] / 1000 / stats.cmd_count@[i]
            },
        forall|j: int, k: int|
            0 <= j < k < summary.rows@.len() ==> (#[trigger] summary.rows@[j]).kind < (
            #[trigger] summary.rows@[k]).kind,
{
    lemma_rows(stats.cmd_count@, stats.cmd_ns@, 6);
    assert(summary.rows@ == rows_of(stats.cmd_count@, stats.cmd_ns@, 6));
}

/// The totals of a summary: the time inside the driver is that of all lines, the time between is
/// that of the gaps, the wall time is both, and the share of the time inside is the largest
/// number of thousandths that does not exceed it. Where a thousand times the time inside passes
/// the largest 64-bit number, that number stands for it.
pub proof fn law_totals_of_a_summary(summary: Summary, stats: IoctlStats)
    requires
        summary.is_of(stats),
    ensures
        summary.ioctls == stats.total,
        summary.kernel_us == shown_us(stats.cmd_count@, stats.cmd_ns@, 6),
        summary.gap_us == stats.gap_ns / 1000,
        summary.gap_count == stats.gap_count,
        stats.gap_count == 0 ==> summary.gap_avg_us == 0,
        stats.gap_count > 0 ==> summary.gap_avg_us == summary.gap_us / stats.gap_count,
        summary.wall_us == summary.kernel_us + summary.gap_us,
        ({
            let share = summary.kernel_share.whole * 10 + summary.kernel_share.tenths;
            let scaled = if summary.kernel_us * 1000 > u64::MAX {
                u64::MAX as int
            } else {
                summary.kernel_us * 1000
            };
            &&& summary.kernel_share.tenths < 10
            &&& summary.wall_us == 0 ==> share == 0
            &&& summary.wall_us > 0 ==> share * summary.wall_us <= scaled < (share + 1)
                * summary.wall_us
        }),
{
    lemma_rows(stats.cmd_count@, stats.cmd_ns@, 6);
    lemma_permille(summary.kernel_us, summary.wall_us);
    let wall = summary.wall_us as int;
    let scaled = if summary.kernel_us * 1000 > u64::MAX {
        u64::MAX as int
    } else {
        summary.kernel_us * 1000
    };
    if wall > 0 {
        vstd::arithmetic::div_mod::lemma_fundamental_div_mod(scaled, wall);
        let share = scaled / wall;
        assert(share * wall <= scaled < (share + 1) * wall) by (nonlinear_arith)
            requires
                scaled == wall * share + scaled % wall,
                0 <= scaled % wall < wall,
        ;
        assert(permille(summary.kernel_us, summary.wall_us) == share);
    }
}

/// When the CPU clusters are raised, when a burst is over, and which bursts are worth a report.
pub proof fn law_limits()
    ensures
        RAISE_AFTER_SUBMITS == 60,
        BURST_GAP_NS == 30_000_000,
        BURST_MIN_SUBMITS == 10,
        RKNPU_IOCTL_SUMMARY_EVERY == 4096,
        CPU_PROBE_ITERS == 200_000_000,
{
}

/// Of actions, submissions and creations the first 16 are logged, of synchronizations twice as
/// many, and of the rest none.
pub proof fn law_log_limits(op: RknpuCmd)
    ensures
        op == RknpuCmd::Action || op == RknpuCmd::Submit || op == RknpuCmd::MemCreate <==> log_limit(
            op,
        ) == 16,
        op == RknpuCmd::MemSync <==> log_limit(op) == 32,
        op == RknpuCmd::MemMap || op == RknpuCmd::MemDestroy <==> log_limit(op) == 0,
{
}

} // verus!
