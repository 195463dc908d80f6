//! Per-CPU counters and the telemetry computed from them.

use vstd::prelude::*;
use vstd::arithmetic::div_mod;
use crate::common::sizes::NCPU;

verus! {

/// The capture engine's counters.
#[derive(Clone, Copy, Debug)]
pub struct Metrics {
    /// Frames validated and dispatched, per CPU.
    pub frames_ok: [u64; NCPU],
    /// Frames that failed validation, per CPU.
    pub frames_dropped: [u64; NCPU],
    /// Frames discarded because the dispatch channel was full, per CPU.
    pub channel_full: [u64; NCPU],
}

/// The counters as sequences, indexed by CPU.
#[verifier::ext_equal]
pub struct Counts {
    pub ok: Seq<u64>,
    pub dropped: Seq<u64>,
    pub full: Seq<u64>,
}

/// Two to the number of bits of a counter.
pub open spec fn counter_range() -> nat {
    0x1_0000_0000_0000_0000
}

/// `counters` with one more event on `cpu_id`; a CPU outside the table counts
/// nothing.
pub open spec fn bumped(counters: Seq<u64>, cpu_id: int) -> Seq<u64> {
    if 0 <= cpu_id < counters.len() {
        counters.update(cpu_id, counters[cpu_id].wrapping_add(1))
    } else {
        counters
    }
}

/// The sum of all counters.
pub open spec fn sum_of(counters: Seq<u64>) -> nat
    decreases counters.len(),
{
    if counters.len() == 0 {
        0
    } else {
        sum_of(counters.drop_last()) + counters.last() as nat
    }
}

/// The share of `drop` in `ok + drop`, in basis points, rounded down; zero if
/// there is nothing to share.
pub open spec fn basis_points(ok: nat, drop: nat) -> nat {
    if ok + drop == 0 {
        0
    } else {
        drop * 10_000 / (ok + drop)
    }
}

impl View for Metrics {
    type V = Counts;

    open spec fn view(&self) -> Counts {
        Counts {
            ok: self.frames_ok@,
            dropped: self.frames_dropped@,
            full: self.channel_full@,
        }
    }
}

/// The sum of a counter table, wrapped to a counter.
fn wrapping_sum(counters: &[u64; NCPU]) -> (total: u64)
    ensures
        total == sum_of(counters@) % counter_range(),
{
    let mut total: u64 = 0;
    let mut i: usize = 0;
    while i < NCPU
        invariant
            i <= NCPU,
            counters@.len() == NCPU,
            total == sum_of(counters@.take(i as int)) % counter_range(),
        decreases NCPU - i,
    {
        proof {
            let seen = counters@.take(i as int + 1);
            assert(seen.drop_last() =~= counters@.take(i as int));
            let before = sum_of(counters@.take(i as int)) as int;
            let range = counter_range() as int;
            div_mod::lemma_add_mod_noop(before, counters@[i as int] as int, range);
            div_mod::lemma_small_mod(counters@[i as int] as nat, counter_range());
            let joined = total + counters@[i as int];
            if joined < range {
                div_mod::lemma_small_mod(joined as nat, counter_range());
            } else {
                div_mod::lemma_small_mod((joined - range) as nat, counter_range());
                div_mod::lemma_mod_add_multiples_vanish(joined - range, range);
            }
        }
        total = total.wrapping_add(counters[i]);
        i = i + 1;
    }
    assert(counters@.take(NCPU as int) =~= counters@);
    total
}

impl Metrics {
    /// All counters at zero.
    pub fn new() -> (metrics: Metrics)
        ensures
            metrics@.ok == Seq::new(NCPU as nat, |i: int| 0u64),
            metrics@.dropped == Seq::new(NCPU as nat, |i: int| 0u64),
            metrics@.full == Seq::new(NCPU as nat, |i: int| 0u64),
    {
        Metrics {
            frames_ok: [0u64; NCPU],
            frames_dropped: [0u64; NCPU],
            channel_full: [0u64; NCPU],
        }
    }

    /// Counts a dispatched frame on `cpu_id`.
    pub fn record_ok(&mut self, cpu_id: usize)
        ensures
            final(self)@ == (Counts { ok: bumped(old(self)@.ok, cpu_id as int), ..old(self)@ }),
    {
        if cpu_id < NCPU {
            let count: u64 = self.frames_ok[cpu_id];
            self.frames_ok[cpu_id] = count.wrapping_add(1);
        }
    }

    /// Counts a frame that failed validation on `cpu_id`.
    pub fn record_drop(&mut self, cpu_id: usize)
        ensures
            final(self)@ == (Counts {
                dropped: bumped(old(self)@.dropped, cpu_id as int),
                ..old(self)@
            }),
    {
        if cpu_id < NCPU {
            let count: u64 = self.frames_dropped[cpu_id];
            self.frames_dropped[cpu_id] = count.wrapping_add(1);
        }
    }

    /// Counts a frame that found the dispatch channel full on `cpu_id`.
    pub fn record_channel_full(&mut self, cpu_id: usize)
        ensures
            final(self)@ == (Counts { full: bumped(old(self)@.full, cpu_id as int), ..old(self)@ }),
    {
        if cpu_id < NCPU {
            let count: u64 = self.channel_full[cpu_id];
            self.channel_full[cpu_id] = count.wrapping_add(1);
        }
    }

    /// Dispatched, dropped and channel-full frames over all CPUs.
    pub fn totals(&self) -> (totals: (u64, u64, u64))
        ensures
            totals.0 == sum_of(self@.ok) % counter_range(),
            totals.1 == sum_of(self@.dropped) % counter_range(),
            totals.2 == sum_of(self@.full) % counter_range(),
    {
        (
            wrapping_sum(&self.frames_ok),
            wrapping_sum(&self.frames_dropped),
            wrapping_sum(&self.channel_full),
        )
    }

    /// The drop rate in basis points; zero if no frame was seen.
    pub fn drop_rate_bps(ok: u64, drop: u64) -> (bps: u64)
        ensures
            bps == basis_points(ok as nat, drop as nat),
    {
        let total: u128 = ok as u128 + drop as u128;
        if total == 0 {
            return 0;
        }
        proof {
            drop_rate_is_a_share(ok as nat, drop as nat);
        }
        (drop as u128 * 10_000 / total) as u64
    }
}

/// One line of telemetry.
#[derive(Clone, Copy, Debug, PartialEq, Eq)]
pub struct Report {
    /// Frames dispatched since the last report.
    pub frames: u64,
    /// Frames dropped since the last report.
    pub drops: u64,
    /// Whole percents of the drop rate.
    pub rate_percent: u64,
    /// Hundredths of a percent of the drop rate.
    pub rate_hundredths: u64,
    /// Frames that ever found the dispatch channel full.
    pub channel_full: u64,
}

/// `now` less `before`, and zero if it went back.
pub open spec fn growth(now: u64, before: u64) -> nat {
    if now >= before {
        (now - before) as nat
    } else {
        0
    }
}

/// The telemetry reporter's memory: the totals at its last report.
#[derive(Clone, Copy, Debug)]
pub struct Reporter {
    pub prev_ok: u64,
    pub prev_drop: u64,
}

impl Reporter {
    /// A reporter that has seen nothing.
    pub fn new() -> (reporter: Reporter)
        ensures
            reporter.prev_ok == 0,
            reporter.prev_drop == 0,
    {
        Reporter { prev_ok: 0, prev_drop: 0 }
    }

    /// The report on the time since the last one, given the totals now.
    pub fn tick(&mut self, ok: u64, drop: u64, full: u64) -> (report: Report)
        ensures
            final(self).prev_ok == ok,
            final(self).prev_drop == drop,
            report.frames == growth(ok, old(self).prev_ok),
            report.drops == growth(drop, old(self).prev_drop),
            report.rate_percent == basis_points(report.frames as nat, report.drops as nat) / 100,
            report.rate_hundredths == basis_points(report.frames as nat, report.drops as nat) % 100,
            report.channel_full == full,
    {
        let frames: u64 = ok.saturating_sub(self.prev_ok);
        let drops: u64 = drop.saturating_sub(self.prev_drop);
        let bps: u64 = Metrics::drop_rate_bps(frames, drops);
        self.prev_ok = ok;
        self.prev_drop = drop;
        Report {
            frames,
            drops,
            rate_percent: bps / 100,
            rate_hundredths: bps % 100,
            channel_full: full,
        }
    }

    /// The report on the time since the last one.
    pub fn report(&mut self, metrics: &Metrics) -> (report: Report)
        ensures
            final(self).prev_ok == sum_of(metrics@.ok) % counter_range(),
            final(self).prev_drop == sum_of(metrics@.dropped) % counter_range(),
            report.frames == growth(final(self).prev_ok, old(self).prev_ok),
            report.drops == growth(final(self).prev_drop, old(self).prev_drop),
            report.rate_percent == basis_points(report.frames as nat, report.drops as nat) / 100,
            report.rate_hundredths == basis_points(report.frames as nat, report.drops as nat) % 100,
            report.channel_full == sum_of(metrics@.full) % counter_range(),
    {
        let (ok, drop, full) = metrics.totals();
        self.tick(ok, drop, full)
    }
}

/// Whether the reporter stops: it was told to, or nobody is left to tell it.
pub fn reporter_stops(told: bool, closed: bool) -> (stop: bool)
    ensures
        stop == (told || closed),
{
    told || closed
}

/// The drop rate is a share: never more than the whole, and the whole if
/// every frame is dropped.
pub proof fn drop_rate_is_a_share(ok: nat, drop: nat)
    ensures
        basis_points(ok, drop) <= 10_000,
        ok == 0 && drop > 0 ==> basis_points(ok, drop) == 10_000,
{
    let total = ok + drop;
    if total > 0 {
        assert(drop * 10_000 / total <= 10_000) by (nonlinear_arith)
            requires
                total > 0,
                drop <= total,
        ;
        if ok == 0 {
            assert(drop * 10_000 / drop == 10_000) by (nonlinear_arith)
                requires
                    drop > 0,
            ;
        }
    }
}

/// Counting an event raises the sum by one, as long as the CPU's counter is
/// not at its end, and the CPU is in the table.
pub proof fn counting_adds_one(counters: Seq<u64>, cpu_id: int)
    requires
        0 <= cpu_id < counters.len(),
        counters[cpu_id] < u64::MAX,
    ensures
        sum_of(bumped(counters, cpu_id)) == sum_of(counters) + 1,
    decreases counters.len(),
{
    let after = bumped(counters, cpu_id);
    if cpu_id == counters.len() - 1 {
        assert(after.drop_last() =~= counters.drop_last());
    } else {
        counting_adds_one(counters.drop_last(), cpu_id);
        assert(after.drop_last() =~= bumped(counters.drop_last(), cpu_id));
    }
}

/// Counting a dispatched frame raises the counter of its own CPU by one,
/// around the end to zero, and touches nothing else. A CPU outside the table
/// changes nothing.
pub proof fn ok_frames_count_on_their_cpu(metrics: &mut Metrics, cpu_id: usize, i: int)
    requires
        call_ensures(Metrics::record_ok, (metrics, cpu_id), ()),
        0 <= i < 32,
    ensures
        final(metrics).frames_ok@[i] == one_up(old(metrics).frames_ok@[i], i == cpu_id),
        final(metrics).frames_dropped@[i] == old(metrics).frames_dropped@[i],
        final(metrics).channel_full@[i] == old(metrics).channel_full@[i],
{
}

/// Counting a frame that failed validation raises the counter of its own CPU
/// by one, around the end to zero, and touches nothing else. A CPU outside the
/// table changes nothing.
pub proof fn dropped_frames_count_on_their_cpu(metrics: &mut Metrics, cpu_id: usize, i: int)
    requires
        call_ensures(Metrics::record_drop, (metrics, cpu_id), ()),
        0 <= i < 32,
    ensures
        final(metrics).frames_ok@[i] == old(metrics).frames_ok@[i],
        final(metrics).frames_dropped@[i] == one_up(old(metrics).frames_dropped@[i], i == cpu_id),
        final(metrics).channel_full@[i] == old(metrics).channel_full@[i],
{
}

/// Counting a frame that found the channel full raises the counter of its own
/// CPU by one, around the end to zero, and touches nothing else. A CPU outside
/// the table changes nothing.
pub proof fn refused_frames_count_on_their_cpu(metrics: &mut Metrics, cpu_id: usize, i: int)
    requires
        call_ensures(Metrics::record_channel_full, (metrics, cpu_id), ()),
        0 <= i < 32,
    ensures
        final(metrics).frames_ok@[i] == old(metrics).frames_ok@[i],
        final(metrics).frames_dropped@[i] == old(metrics).frames_dropped@[i],
        final(metrics).channel_full@[i] == one_up(old(metrics).channel_full@[i], i == cpu_id),
{
}

/// `count`, or one more if `hit`; past the end comes zero.
pub open spec fn one_up(count: u64, hit: bool) -> int {
    if !hit {
        count as int
    } else if count == 0xffff_ffff_ffff_ffff {
        0
    } else {
        count + 1
    }
}

proof fn sum_after_update(counters: Seq<u64>, i: int, value: u64)
    requires
        0 <= i < counters.len(),
    ensures
        sum_of(counters.update(i, value)) == sum_of(counters) - counters[i] + value,
    decreases counters.len(),
{
    let after = counters.update(i, value);
    if i == counters.len() - 1 {
        assert(after.drop_last() =~= counters.drop_last());
    } else {
        sum_after_update(counters.drop_last(), i, value);
        assert(after.drop_last() =~= counters.drop_last().update(i, value));
    }
}

proof fn bumped_sum(counters: Seq<u64>, cpu_id: int)
    requires
        0 <= cpu_id < counters.len(),
    ensures
        sum_of(bumped(counters, cpu_id)) % counter_range() == one_up(
            (sum_of(counters) % counter_range()) as u64,
            true,
        ),
{
    let range = counter_range() as int;
    let sum = sum_of(counters) as int;
    sum_after_update(counters, cpu_id, counters[cpu_id].wrapping_add(1));
    let after = sum_of(bumped(counters, cpu_id)) as int;
    if counters[cpu_id] == u64::MAX {
        assert(after + range == sum + 1);
        div_mod::lemma_mod_add_multiples_vanish(after, range);
    }
    assert(after % range == (sum + 1) % range);
    div_mod::lemma_add_mod_noop(sum, 1, range);
    div_mod::lemma_small_mod(1, counter_range());
    let low = sum % range;
    if low + 1 < range {
        div_mod::lemma_small_mod((low + 1) as nat, counter_range());
    } else {
        div_mod::lemma_mod_self_0(range);
    }
}

/// The totals follow the counting: a frame that is counted on a CPU of the
/// table raises the total of its kind by one, around the end to zero, and
/// neither of the others; on a CPU outside the table, none. A fresh table's
/// totals are zero.
pub proof fn totals_follow_the_counting(
    fresh: Metrics,
    of_fresh: (u64, u64, u64),
    ok: &mut Metrics,
    drop: &mut Metrics,
    full: &mut Metrics,
    cpu_id: usize,
    before: (u64, u64, u64),
    after_ok: (u64, u64, u64),
    after_drop: (u64, u64, u64),
    after_full: (u64, u64, u64),
)
    requires
        call_ensures(Metrics::new, (), fresh),
        call_ensures(Metrics::totals, (&fresh,), of_fresh),
        *old(ok) == *old(drop),
        *old(ok) == *old(full),
        call_ensures(Metrics::totals, (&*old(ok),), before),
        call_ensures(Metrics::record_ok, (ok, cpu_id), ()),
        call_ensures(Metrics::record_drop, (drop, cpu_id), ()),
        call_ensures(Metrics::record_channel_full, (full, cpu_id), ()),
        call_ensures(Metrics::totals, (&*final(ok),), after_ok),
        call_ensures(Metrics::totals, (&*final(drop),), after_drop),
        call_ensures(Metrics::totals, (&*final(full),), after_full),
    ensures
        of_fresh == (0u64, 0u64, 0u64),
        after_ok.0 == one_up(before.0, cpu_id < 32),
        after_ok.1 == before.1,
        after_ok.2 == before.2,
        after_drop.0 == before.0,
        after_drop.1 == one_up(before.1, cpu_id < 32),
        after_drop.2 == before.2,
        after_full.0 == before.0,
        after_full.1 == before.1,
        after_full.2 == one_up(before.2, cpu_id < 32),
{
    zeros_sum_to_zero(fresh@.ok);
    zeros_sum_to_zero(fresh@.dropped);
    zeros_sum_to_zero(fresh@.full);
    div_mod::lemma_small_mod(0, counter_range());
    if cpu_id < 32 {
        bumped_sum(old(ok)@.ok, cpu_id as int);
        bumped_sum(old(ok)@.dropped, cpu_id as int);
        bumped_sum(old(ok)@.full, cpu_id as int);
    }
}

proof fn zeros_sum_to_zero(counters: Seq<u64>)
    requires
        forall|i: int| 0 <= i < counters.len() ==> counters[i] == 0,
    ensures
        sum_of(counters) == 0,
    decreases counters.len(),
{
    if counters.len() > 0 {
        zeros_sum_to_zero(counters.drop_last());
    }
}

/// The drop rate is the largest number of ten-thousandths of all frames that
/// is not more than the dropped ones; of no frames it is zero.
pub proof fn drop_rate_is_the_rounded_share(ok: u64, drop: u64, bps: u64)
    requires
        call_ensures(Metrics::drop_rate_bps, (ok, drop), bps),
    ensures
        bps * (ok + drop) <= drop * 10_000,
        ok + drop > 0 ==> drop * 10_000 < (bps + 1) * (ok + drop),
        ok + drop == 0 ==> bps == 0,
        bps <= 10_000,
{
    let total = ok + drop;
    drop_rate_is_a_share(ok as nat, drop as nat);
    if total > 0 {
        div_mod::lemma_fundamental_div_mod(drop * 10_000, total);
        div_mod::lemma_mod_bound(drop * 10_000, total);
        assert(bps * total == total * bps) by (nonlinear_arith);
        assert((bps + 1) * total == total * bps + total) by (nonlinear_arith);
    }
}

/// A report covers what was counted since the one before it: two reports in a
/// row cover together what one report in their place would have covered, as
/// long as the totals do not go back. Totals that go back count as nothing.
pub proof fn reports_cover_what_was_counted_since(
    first: &mut Reporter,
    second: &mut Reporter,
    ok: u64,
    drop: u64,
    full: u64,
    later_ok: u64,
    later_drop: u64,
    later_full: u64,
    one: Report,
    two: Report,
)
    requires
        call_ensures(Reporter::tick, (first, ok, drop, full), one),
        *old(second) == *final(first),
        call_ensures(Reporter::tick, (second, later_ok, later_drop, later_full), two),
    ensures
        old(first).prev_ok <= ok ==> old(first).prev_ok + one.frames == ok,
        old(first).prev_drop <= drop ==> old(first).prev_drop + one.drops == drop,
        old(first).prev_ok > ok ==> one.frames == 0,
        old(first).prev_drop > drop ==> one.drops == 0,
        old(first).prev_ok <= ok <= later_ok ==> old(first).prev_ok + one.frames + two.frames
            == later_ok,
        old(first).prev_drop <= drop <= later_drop ==> old(first).prev_drop + one.drops + two.drops
            == later_drop,
        one.channel_full == full,
        two.channel_full == later_full,
{
}

/// A report's percents and hundredths are the drop rate of the frames that it
/// covers, cut in two.
pub proof fn reports_spell_the_drop_rate(
    reporter: &mut Reporter,
    ok: u64,
    drop: u64,
    full: u64,
    report: Report,
    bps: u64,
)
    requires
        call_ensures(Reporter::tick, (reporter, ok, drop, full), report),
        call_ensures(Metrics::drop_rate_bps, (report.frames, report.drops), bps),
    ensures
        100 * report.rate_percent + report.rate_hundredths == bps,
        report.rate_hundredths < 100,
{
}

/// A report on the counters is a report on their totals.
pub proof fn reports_go_by_the_totals(
    by_counters: &mut Reporter,
    by_totals: &mut Reporter,
    metrics: Metrics,
    totals: (u64, u64, u64),
    one: Report,
    other: Report,
)
    requires
        *old(by_counters) == *old(by_totals),
        call_ensures(Metrics::totals, (&metrics,), totals),
        call_ensures(Reporter::report, (by_counters, &metrics), one),
        call_ensures(Reporter::tick, (by_totals, totals.0, totals.1, totals.2), other),
    ensures
        one == other,
        *final(by_counters) == *final(by_totals),
{
}

/// The reporter goes on exactly as long as it is neither told to stop nor
/// left alone.
pub proof fn the_reporter_goes_on_iff(told: bool, closed: bool, stop: bool)
    requires
        call_ensures(reporter_stops, (told, closed), stop),
    ensures
        !stop <==> !told && !closed,
{
}

/// A reporter's first report covers everything counted so far.
pub proof fn the_first_report_covers_everything(
    fresh: Reporter,
    reporter: &mut Reporter,
    ok: u64,
    drop: u64,
    full: u64,
    report: Report,
)
    requires
        call_ensures(Reporter::new, (), fresh),
        *old(reporter) == fresh,
        call_ensures(Reporter::tick, (reporter, ok, drop, full), report),
    ensures
        report.frames == ok,
        report.drops == drop,
        report.channel_full == full,
{
}

} // verus!
