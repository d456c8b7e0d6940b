//! The progress engine: a pure view over `(now, mode, period, trigger)`.

use vstd::prelude::*;
use crate::event::Event;
use crate::event::merge_opt;
use crate::progress::Progress;
use crate::scatter::scatter_word;

verus! {

/// A fractional target in `[0, 1]` denotes a tick offset within `[0, period]`.
proof fn lemma_target_offset_in_period(p: i32, t: Progress)
    requires
        0 < p,
        t.wf(),
    ensures
        0 <= (p * t.num) / (t.den as int) <= p,
{
    assert(0 <= (p * t.num) / (t.den as int) <= p) by (nonlinear_arith)
        requires
            0 < p,
            0 < t.den,
            0 <= t.num <= t.den,
    ;
}

/// The offset of the `i`-th entry of an `n`-entry lattice lies within the
/// period.
proof fn lemma_seq_offset_in_period(p: i32, i: int, n: int)
    requires
        0 < p,
        0 <= i < n <= 0x1_0000_0000_0000_0000,
    ensures
        0 <= (p * i) / n < p,
        p * i <= u128::MAX,
{
    assert(0 <= (p * i) / n < p && p * i <= u128::MAX) by (nonlinear_arith)
        requires
            0 < p <= i32::MAX,
            0 <= i < n <= 0x1_0000_0000_0000_0000,
    ;
}

/// A progress fraction scales a table of `n` entries to an index in `[0, n]`,
/// and the product computed on the way there fits the wide unsigned type.
proof fn lemma_wave_index_bounds(num: i32, den: i32, n: int)
    requires
        0 < den,
        0 <= num <= den,
        0 < n <= 0x1_0000_0000_0000_0000,
    ensures
        0 <= (num * n) / (den as int) <= n,
        num * n <= u128::MAX,
{
    assert(0 <= (num * n) / (den as int) <= n && num * n <= u128::MAX) by (nonlinear_arith)
        requires
            0 < den,
            0 <= num <= den <= i32::MAX,
            0 < n <= 0x1_0000_0000_0000_0000,
    ;
}

/// A scatter word maps to an offset strictly within the period, and the
/// product computed on the way there fits the wide unsigned type.
proof fn lemma_scatter_offset_in_period(p: i32, w: u32)
    requires
        0 < p,
    ensures
        0 <= (p * w) / 0x1_0000_0000 < p,
        0 <= p * w <= u64::MAX,
{
    assert(0 <= (p * w) / 0x1_0000_0000 < p && 0 <= p * w <= u64::MAX) by (nonlinear_arith)
        requires
            0 < p <= i32::MAX,
            0 <= w < 0x1_0000_0000,
    ;
}

/// Selects one-shot or repeating semantics for a timebase.
#[derive(Debug, Clone, Copy, PartialEq, Eq, Structural)]
pub enum TimebaseMode {
    /// Active once at the trigger, saturating at full progress.
    OneShot,
    /// Cycles indefinitely with the period length, wrapping modulo the period.
    Repeat,
}

/// A pure value describing one span or cycle of time: never mutated after
/// construction. `period` must be strictly positive (`wf`).
#[derive(Debug, Clone, Copy, PartialEq, Eq, Structural)]
pub struct Timebase {
    pub now: i32,
    pub mode: TimebaseMode,
    pub period: i32,
    pub trigger: Event,
}

impl Timebase {
    /// The period invariant: a timebase only makes sense for a strictly
    /// positive period.
    pub open spec fn wf(self) -> bool {
        0 < self.period
    }

    /// The timebase is active: its trigger occurred at or before `now`.
    pub open spec fn active(self) -> bool {
        match self.trigger {
            Event::Occurred(e) => e <= self.now,
            Event::Never => false,
        }
    }

    /// The trigger's tick. Only meaningful when the trigger occurred; the
    /// value for `Never` is an unused placeholder.
    pub open spec fn epoch(self) -> int {
        match self.trigger {
            Event::Occurred(e) => e as int,
            Event::Never => 0,
        }
    }

    /// Ticks elapsed since the trigger; non-negative whenever active.
    pub open spec fn elapsed(self) -> int {
        self.now - self.epoch()
    }

    /// The numerator of the current progress over denominator `period`:
    /// 0 when inactive; elapsed ticks clamped to the period for `OneShot`;
    /// elapsed ticks modulo the period for `Repeat`.
    pub open spec fn progress_num(self) -> int {
        if !self.active() {
            0
        } else {
            match self.mode {
                TimebaseMode::OneShot => if self.elapsed() >= self.period {
                    self.period as int
                } else {
                    self.elapsed()
                },
                TimebaseMode::Repeat => self.elapsed() % (self.period as int),
            }
        }
    }

    /// Lookback arithmetic stays within tick range: when a repeating timebase
    /// is active, one period before its epoch must not underflow the tick
    /// type. This is a machine limit only; the model itself has no bound.
    pub open spec fn lookback_in_range(self) -> bool {
        self.mode is Repeat && self.active() ==> i32::MIN + self.period <= self.epoch()
    }

    /// The absolute timestamp `at` resolves for a target offset of `off`
    /// ticks into the span or cycle: `None` when inactive; for `OneShot` the
    /// epoch plus the offset, unless that lies in the future; for `Repeat`
    /// the most recent occurrence of the offset at or before `now`, which
    /// falls either in the current cycle or in the previous one.
    pub open spec fn at_spec(self, off: int) -> Option<int> {
        if !self.active() {
            None
        } else {
            match self.mode {
                TimebaseMode::OneShot => {
                    let c = self.epoch() + off;
                    if c <= self.now {
                        Some(c)
                    } else {
                        None
                    }
                },
                TimebaseMode::Repeat => {
                    let t = self.elapsed();
                    let tic = t % (self.period as int);
                    let cs = t - tic;
                    if tic >= off {
                        Some(self.epoch() + cs + off)
                    } else {
                        Some(self.epoch() + cs - self.period + off)
                    }
                },
            }
        }
    }

    /// The tick offset a fractional target denotes: the fraction of the
    /// period, truncated toward zero.
    pub open spec fn target_offset(self, target: Progress) -> int {
        (self.period * target.num) / (target.den as int)
    }

    /// The tick offset of the `i`-th entry of an evenly spaced `n`-entry
    /// lattice across one span or cycle: the fraction `i / n` of the period,
    /// truncated toward zero.
    pub open spec fn seq_offset(self, i: int, n: int) -> int {
        (self.period * i) / n
    }

    /// The tick offset that the `k`-th scatter word of `seed` denotes: the
    /// word maps the period uniformly, truncated toward zero, so the offset
    /// lies in `[0, period)`.
    pub open spec fn scatter_offset(self, seed: u64, k: nat) -> int {
        (self.period * scatter_word(seed, k)) / 0x1_0000_0000
    }

    /// The merge of the first `j` samples of bin `b` of a scatter of `seed`
    /// with `excite` samples per bin, over the optional-tick view of events.
    pub open spec fn fountain_fold(self, seed: u64, excite: nat, b: int, j: nat) -> Option<int>
        decreases j,
    {
        if j == 0 {
            None
        } else {
            merge_opt(
                self.fountain_fold(seed, excite, b, (j - 1) as nat),
                self.at_spec(self.scatter_offset(seed, (b * excite + j - 1) as nat)),
            )
        }
    }

    /// The final value of bin `b` of a scatter of `seed` with `excite`
    /// samples per bin: the merge of all its samples.
    pub open spec fn fountain_bin(self, seed: u64, excite: nat, b: int) -> Option<int> {
        self.fountain_fold(seed, excite, b, excite)
    }

    /// The table index the current progress selects: the progress scaled to
    /// `[0, n]`, truncated toward zero, clamped to the last entry.
    pub open spec fn wave_index(self, n: int) -> int {
        let idx = (self.progress_num() * n) / (self.period as int);
        if idx >= n - 1 {
            n - 1
        } else {
            idx
        }
    }

    /// The trigger's tick if it lies at or before `now`, else `None`.
    pub open spec fn trigger_happened_spec(self) -> Option<i32> {
        match self.trigger {
            Event::Occurred(e) => if e <= self.now {
                Some(e)
            } else {
                None
            },
            Event::Never => None,
        }
    }

    /// A trigger in the past: the epoch of an active timebase.
    pub fn trigger_happened(&self) -> (r: Option<i32>)
        ensures
            r == self.trigger_happened_spec(),
            r is Some <==> self.active(),
            r is Some ==> r->0 as int == self.epoch(),
    {
        match self.trigger {
            Event::Occurred(e) => if e <= self.now {
                Some(e)
            } else {
                None
            },
            Event::Never => None,
        }
    }

    /// Resolves the absolute timestamp of the most recent occurrence, at or
    /// before `now`, of the phase that lies `off` ticks into the span or
    /// cycle; `Never` when inactive, or when a one-shot offset has not been
    /// reached yet. The result never lies in the future of `now`.
    pub fn at_offset(&self, off: i32) -> (r: Event)
        requires
            self.wf(),
            0 <= off <= self.period,
            self.lookback_in_range(),
        ensures
            r@ == self.at_spec(off as int),
            r is Occurred ==> r@->0 <= self.now,
    {
        match self.trigger_happened() {
            None => Event::Never,
            Some(e) => {
                match self.mode {
                    TimebaseMode::OneShot => {
                        let c: i64 = e as i64 + off as i64;
                        if c <= self.now as i64 {
                            Event::Occurred(c as i32)
                        } else {
                            Event::Never
                        }
                    },
                    TimebaseMode::Repeat => {
                        let t: i64 = self.now as i64 - e as i64;
                        let tic: i64 = t % (self.period as i64);
                        let cs: i64 = t - tic;
                        if tic >= off as i64 {
                            Event::Occurred((e as i64 + cs + off as i64) as i32)
                        } else {
                            Event::Occurred((e as i64 + cs - self.period as i64 + off as i64) as i32)
                        }
                    },
                }
            },
        }
    }

    /// Resolves the absolute timestamp of the most recent occurrence, at or
    /// before `now`, where progress would equal `target`; `Never` when
    /// inactive or when no such occurrence has happened yet. The fractional
    /// target denotes the tick offset `period * target`, truncated toward
    /// zero.
    pub fn at(&self, target: Progress) -> (r: Event)
        requires
            self.wf(),
            target.wf(),
            self.lookback_in_range(),
        ensures
            r@ == self.at_spec(self.target_offset(target)),
            r is Occurred ==> r@->0 <= self.now,
    {
        proof {
            lemma_target_offset_in_period(self.period, target);
            crate::progress::lemma_i32_prod_fits(self.period, target.num);
        }
        let off: i64 = (self.period as i64 * target.num as i64) / (target.den as i64);
        self.at_offset(off as i32)
    }

    /// Start of the current cycle, or the activation instant for `OneShot`:
    /// the same as resolving a zero target.
    pub fn sync(&self) -> (r: Event)
        requires
            self.wf(),
            self.lookback_in_range(),
        ensures
            r@ == self.at_spec(0),
            r is Occurred ==> r@->0 <= self.now,
    {
        self.at_offset(0)
    }

    /// A copy of this timebase whose trigger, if it occurred, is offset by
    /// `delta` ticks; used to stagger descendants without rebuilding inputs.
    pub fn shift(&self, delta: i32) -> (r: Timebase)
        requires
            self.trigger matches Event::Occurred(e) ==> i32::MIN <= e + delta <= i32::MAX,
        ensures
            r.now == self.now,
            r.mode == self.mode,
            r.period == self.period,
            r.trigger == (match self.trigger {
                Event::Occurred(e) => Event::Occurred((e + delta) as i32),
                Event::Never => Event::Never,
            }),
    {
        Timebase {
            now: self.now,
            mode: self.mode,
            period: self.period,
            trigger: match self.trigger {
                Event::Occurred(e) => Event::Occurred(e + delta),
                Event::Never => Event::Never,
            },
        }
    }

    /// Whether the current progress lies in `[lo, hi)`, compared exactly as
    /// rationals. The bounds need not lie in `[0, 1]`, but their denominators
    /// must be positive for the comparison to read as a rational one.
    pub fn between(&self, lo: Progress, hi: Progress) -> (r: bool)
        requires
            self.wf(),
            0 < lo.den,
            0 < hi.den,
        ensures
            r == {
                let p = (Progress { num: self.progress_num() as i32, den: self.period });
                lo.le_spec(p) && p.lt_spec(hi)
            },
    {
        let p = self.get();
        lo.le(p) && p.lt(hi)
    }

    /// Whether progress lies in the top half of the span or cycle: `[1/2, 1)`.
    pub fn top_half(&self) -> (r: bool)
        requires
            self.wf(),
        ensures
            r == (self.period <= 2 * self.progress_num() && self.progress_num() < self.period),
    {
        self.between(Progress { num: 1, den: 2 }, Progress { num: 1, den: 1 })
    }

    /// An evenly spaced lattice of `n` sub-phase events across one span or
    /// cycle: the `i`-th entry resolves the fraction `i / n` of the period.
    pub fn seq(&self, n: usize) -> (r: Vec<Event>)
        requires
            self.wf(),
            self.lookback_in_range(),
        ensures
            r@.len() == n,
            forall|i: int| 0 <= i < n ==> #[trigger] r@[i]@ == self.at_spec(self.seq_offset(i, n as int)),
    {
        let mut r: Vec<Event> = Vec::new();
        for i in 0..n
            invariant
                r@.len() == i,
                forall|j: int| 0 <= j < i ==> #[trigger] r@[j]@ == self.at_spec(self.seq_offset(j, n as int)),
                self.wf(),
                self.lookback_in_range(),
        {
            proof {
                lemma_seq_offset_in_period(self.period, i as int, n as int);
            }
            let off: u128 = (self.period as u128 * i as u128) / (n as u128);
            let ev = self.at_offset(off as i32);
            r.push(ev);
        }
        r
    }

    /// A reproducible pseudo-random burst pattern: `n` bins, each the merge
    /// of `excite` samples drawn uniformly across the span or cycle from a
    /// generator seeded with `seed`; a bin holds the most recent of its
    /// samples that has already fired, or `Never` while none has. Identical
    /// arguments and timebase always reproduce identical output.
    pub fn fountain(&self, n: usize, seed: u64, excite: usize) -> (r: Vec<Event>)
        requires
            self.wf(),
            self.lookback_in_range(),
        ensures
            r@.len() == n,
            forall|b: int| 0 <= b < n ==> #[trigger] r@[b]@ == self.fountain_bin(seed, excite as nat, b),
    {
        let mut sc = crate::scatter::scatter_new(seed);
        let mut r: Vec<Event> = Vec::new();
        for b in 0..n
            invariant
                r@.len() == b,
                forall|x: int| 0 <= x < b ==> #[trigger] r@[x]@ == self.fountain_bin(seed, excite as nat, x),
                sc.seed@ == seed,
                sc.drawn@ == b * excite,
                self.wf(),
                self.lookback_in_range(),
        {
            let mut acc = Event::Never;
            for j in 0..excite
                invariant
                    acc@ == self.fountain_fold(seed, excite as nat, b as int, j as nat),
                    sc.seed@ == seed,
                    sc.drawn@ == b * excite + j,
                    self.wf(),
                    self.lookback_in_range(),
            {
                let w: u32 = crate::scatter::scatter_next(&mut sc);
                proof {
                    lemma_scatter_offset_in_period(self.period, w);
                }
                let off: u64 = (self.period as u64 * w as u64) / 0x1_0000_0000u64;
                let ev = self.at_offset(off as i32);
                proof {
                    crate::event::lemma_merge_view(acc, ev);
                }
                acc = acc.merge(ev);
            }
            proof {
                assert((b + 1) * excite == b * excite + excite) by (nonlinear_arith);
            }
            r.push(acc);
        }
        r
    }

    /// A piecewise-constant sequencer driven by progress: selects the table
    /// entry the current progress scales to, clamped to the last entry.
    pub fn wave<T: Copy>(&self, w: &Vec<T>) -> (r: T)
        requires
            self.wf(),
            w@.len() > 0,
        ensures
            r == w@[self.wave_index(w@.len() as int)],
    {
        let p = self.get();
        let len: usize = w.len();
        proof {
            lemma_wave_index_bounds(p.num, p.den, len as int);
        }
        let idx: u128 = (p.num as u128 * len as u128) / (p.den as u128);
        let last: usize = len - 1;
        if idx >= last as u128 {
            w[last]
        } else {
            w[idx as usize]
        }
    }

    /// Current progress through the span or cycle, as an exact fraction of
    /// the period: 0 when inactive; saturating at 1 for `OneShot`; wrapping
    /// modulo the period for `Repeat`.
    pub fn get(&self) -> (p: Progress)
        requires
            self.wf(),
        ensures
            p.den == self.period,
            p.num as int == self.progress_num(),
            p.wf(),
            !self.active() ==> p.num == 0,
    {
        match self.trigger_happened() {
            None => Progress { num: 0, den: self.period },
            Some(e) => {
                let t: i64 = self.now as i64 - e as i64;
                match self.mode {
                    TimebaseMode::OneShot => {
                        if t >= self.period as i64 {
                            Progress { num: self.period, den: self.period }
                        } else {
                            Progress { num: t as i32, den: self.period }
                        }
                    },
                    TimebaseMode::Repeat => {
                        let m: i64 = t % (self.period as i64);
                        Progress { num: m as i32, den: self.period }
                    },
                }
            },
        }
    }
}

/// One-shot progress is non-decreasing in `now`, over timebases that differ
/// only in their instant, and reaches exactly full progress once a whole
/// period has elapsed since the trigger.
pub proof fn lemma_oneshot_monotone(a: Timebase, b: Timebase)
    requires
        a.wf(),
        a.mode is OneShot,
        b.mode is OneShot,
        a.period == b.period,
        a.trigger == b.trigger,
        a.now <= b.now,
    ensures
        a.progress_num() <= b.progress_num(),
        b.active() && b.elapsed() >= b.period ==> b.progress_num() == b.period,
{
}

/// Repeating progress is periodic: the same trigger seen one period later
/// yields the same progress. A trigger that fires between the two instants
/// is excluded: the timebase would be inactive at the first instant and
/// active at the second.
pub proof fn lemma_repeat_periodic(a: Timebase, b: Timebase)
    requires
        a.wf(),
        a.mode is Repeat,
        b.mode is Repeat,
        a.period == b.period,
        a.trigger == b.trigger,
        b.now == a.now + a.period,
        a.active() || a.trigger is Never,
    ensures
        a.progress_num() == b.progress_num(),
{
    if a.active() {
        vstd::arithmetic::div_mod::lemma_mod_add_multiples_vanish(a.elapsed(), a.period as int);
    }
}

/// A zero fractional target denotes a zero tick offset, so resolving it is
/// the same as `sync`.
pub proof fn lemma_at_zero_is_sync(tb: Timebase, target: Progress)
    requires
        tb.wf(),
        target.wf(),
        target.num == 0,
    ensures
        tb.target_offset(target) == 0,
{
    vstd::arithmetic::div_mod::lemma_div_of0(target.den as int);
}

/// The first lattice entry denotes a zero offset: it resolves the same event
/// as `sync` and as a zero target.
pub proof fn lemma_seq_first(tb: Timebase, n: int)
    requires
        tb.wf(),
        0 < n,
    ensures
        tb.seq_offset(0, n) == 0,
{
    vstd::arithmetic::div_mod::lemma_div_of0(n);
}

/// Within one un-wrapped repeat cycle — the time already spent in the current
/// cycle covers the lattice offsets in question — lattice timestamps are
/// non-decreasing in the entry index.
pub proof fn lemma_seq_monotone(tb: Timebase, n: int, i: int, j: int)
    requires
        tb.wf(),
        tb.mode is Repeat,
        tb.active(),
        0 <= i <= j < n,
        tb.elapsed() % (tb.period as int) >= tb.seq_offset(j, n),
    ensures
        tb.at_spec(tb.seq_offset(i, n)) is Some,
        tb.at_spec(tb.seq_offset(j, n)) is Some,
        tb.at_spec(tb.seq_offset(i, n))->0 <= tb.at_spec(tb.seq_offset(j, n))->0,
{
    assert(0 <= tb.period * i <= tb.period * j) by (nonlinear_arith)
        requires
            0 < tb.period && 0 <= i <= j,
    ;
    vstd::arithmetic::div_mod::lemma_div_is_ordered(
        tb.period * i,
        tb.period * j,
        n,
    );
    vstd::arithmetic::div_mod::lemma_div_pos_is_pos(tb.period * i, n);
}

/// A wave selects the first table entry at zero progress and the last one at
/// full progress.
pub proof fn lemma_wave_ends(tb: Timebase, n: int)
    requires
        tb.wf(),
        0 < n,
    ensures
        tb.progress_num() == 0 ==> tb.wave_index(n) == 0,
        tb.progress_num() == tb.period ==> tb.wave_index(n) == n - 1,
{
    vstd::arithmetic::div_mod::lemma_div_of0(tb.period as int);
    vstd::arithmetic::div_mod::lemma_div_multiples_vanish(n, tb.period as int);
}

/// An inactive timebase — its trigger `Never` or in the future of `now` —
/// reports zero progress and resolves no event, whatever the mode, the
/// period, or the target offset.
pub proof fn lemma_inactive(tb: Timebase, off: int)
    requires
        !tb.active(),
    ensures
        tb.progress_num() == 0,
        tb.at_spec(off) is None,
{
}

} // verus!
