use timebase::event::Event;
use timebase::frame::{Frame, Input};
use timebase::progress::Progress;
use timebase::timebase::{Timebase, TimebaseMode};

fn repeat_at(now: i32, period: i32, trigger: Event) -> Timebase {
    Frame::new(now).timebase(TimebaseMode::Repeat, period, trigger)
}

fn oneshot_at(now: i32, period: i32, trigger: Event) -> Timebase {
    Frame::new(now).timebase(TimebaseMode::OneShot, period, trigger)
}

fn as_f32(p: Progress) -> f32 {
    p.num as f32 / p.den as f32
}

#[test]
fn repeat_progress_scenario() {
    let trig = Event::Occurred(0);
    assert_eq!(as_f32(repeat_at(150, 200, trig).get()), 0.75);
    assert_eq!(as_f32(repeat_at(200, 200, trig).get()), 0.0);
    assert_eq!(as_f32(repeat_at(250, 200, trig).get()), 0.25);
}

#[test]
fn oneshot_progress_scenario() {
    let trig = Event::Occurred(0);
    assert_eq!(as_f32(oneshot_at(500, 2000, trig).get()), 0.25);
    assert_eq!(as_f32(oneshot_at(2500, 2000, trig).get()), 1.0);
}

#[test]
fn oneshot_progress_is_monotone_and_saturates() {
    let trig = Event::Occurred(100);
    let mut last = -1.0f32;
    for now in [0, 50, 100, 600, 1100, 2100, 2101, 5000] {
        let v = as_f32(oneshot_at(now, 2000, trig).get());
        assert!(v >= last);
        last = v;
    }
    assert_eq!(as_f32(oneshot_at(2100, 2000, trig).get()), 1.0);
    assert_eq!(as_f32(oneshot_at(5000, 2000, trig).get()), 1.0);
}

#[test]
fn repeat_progress_is_periodic() {
    let trig = Event::Occurred(40);
    for now in [40, 75, 139, 200, 1000] {
        let a = repeat_at(now, 77, trig).get();
        let b = repeat_at(now + 77, 77, trig).get();
        assert_eq!(a, b);
    }
}

#[test]
fn inactive_timebase_is_inert() {
    // A trigger that never fired, or fired in the future of `now`.
    for trig in [Event::Never, Event::Occurred(500)] {
        for mode in [TimebaseMode::OneShot, TimebaseMode::Repeat] {
            let tb = Frame::new(100).timebase(mode, 200, trig);
            assert_eq!(as_f32(tb.get()), 0.0);
            assert_eq!(tb.at(Progress::new(0, 1)), Event::Never);
            assert_eq!(tb.at(Progress::new(1, 2)), Event::Never);
            assert_eq!(tb.at(Progress::new(1, 1)), Event::Never);
            assert_eq!(tb.sync(), Event::Never);
            assert_eq!(tb.trigger_happened(), None);
        }
    }
}

#[test]
fn merge_laws_on_values() {
    let a = Event::Occurred(10);
    let b = Event::Occurred(20);
    let n = Event::Never;
    assert_eq!(n.merge(n), Event::Never);
    assert_eq!(a.merge(n), a);
    assert_eq!(n.merge(b), b);
    assert_eq!(a.merge(b), Event::Occurred(20));
    assert_eq!(b.merge(a), Event::Occurred(20));
    assert_eq!(a.merge(a), a);
    assert_eq!(a.merge(b.merge(n)), a.merge(b).merge(n));
}

#[test]
fn at_resolves_lookback_only() {
    // Repeat, period 200, epoch 0, now 250: a quarter target resolves to the
    // occurrence at 250 (current cycle), a three-quarter one to 150
    // (previous cycle).
    let tb = repeat_at(250, 200, Event::Occurred(0));
    assert_eq!(tb.at(Progress::new(1, 4)), Event::Occurred(250));
    assert_eq!(tb.at(Progress::new(3, 4)), Event::Occurred(150));
    assert_eq!(tb.sync(), Event::Occurred(200));

    // OneShot: the candidate must not lie in the future.
    let os = oneshot_at(500, 2000, Event::Occurred(0));
    assert_eq!(os.at(Progress::new(1, 4)), Event::Occurred(500));
    assert_eq!(os.at(Progress::new(1, 2)), Event::Never);
    assert_eq!(os.sync(), Event::Occurred(0));
}

#[test]
fn at_zero_equals_sync() {
    let zero = Progress::new(0, 1);
    for now in [0, 150, 199, 200, 250, 1000] {
        for mode in [TimebaseMode::OneShot, TimebaseMode::Repeat] {
            for trig in [Event::Never, Event::Occurred(0), Event::Occurred(170)] {
                let tb = Frame::new(now).timebase(mode, 200, trig);
                assert_eq!(tb.at(zero), tb.sync());
            }
        }
    }
}

#[test]
fn seq_lattice() {
    let tb = repeat_at(399, 400, Event::Occurred(0));
    let evs = tb.seq(4);
    assert_eq!(evs.len(), 4);
    // First entry is the cycle start.
    assert_eq!(evs[0], tb.sync());
    assert_eq!(evs[0], Event::Occurred(0));
    // Within one un-wrapped cycle the timestamps are non-decreasing.
    assert_eq!(evs[1], Event::Occurred(100));
    assert_eq!(evs[2], Event::Occurred(200));
    assert_eq!(evs[3], Event::Occurred(300));

    let os = oneshot_at(1000, 2000, Event::Occurred(0));
    let evs = os.seq(4);
    assert_eq!(evs[0], Event::Occurred(0));
    assert_eq!(evs[1], Event::Occurred(500));
    assert_eq!(evs[2], Event::Occurred(1000));
    assert_eq!(evs[3], Event::Never); // 1500 has not happened yet
}

#[test]
fn seq_of_zero_entries_is_empty() {
    let tb = repeat_at(100, 200, Event::Occurred(0));
    assert!(tb.seq(0).is_empty());
}

#[test]
fn fountain_is_deterministic() {
    let tb = oneshot_at(900, 2000, Event::Occurred(0));
    let a = tb.fountain(10, 42, 8);
    let b = tb.fountain(10, 42, 8);
    assert_eq!(a.len(), 10);
    assert_eq!(a, b);

    let rep = repeat_at(123456, 777, Event::Occurred(3));
    assert_eq!(rep.fountain(5, 7, 3), rep.fountain(5, 7, 3));
}

#[test]
fn fountain_bins_hold_past_events() {
    // On an active repeating timebase every sample resolves to a past
    // occurrence, so with at least one sample per bin no bin stays `Never`,
    // and every tick lies within one period before `now`.
    let tb = repeat_at(1000, 300, Event::Occurred(10));
    let bins = tb.fountain(6, 99, 4);
    assert_eq!(bins.len(), 6);
    for b in bins {
        match b {
            Event::Occurred(t) => {
                assert!(t <= 1000);
                assert!(t > 1000 - 300);
            }
            Event::Never => panic!("bin of an active repeating timebase stayed Never"),
        }
    }
}

#[test]
fn fountain_follows_the_seeded_stream() {
    // The first wyrand words for seed 0 map a 2000-tick period to the offsets
    // 1104, 192, 1186, 308, 755 and 1958. At `now` 900 only offsets up to 900
    // have fired, so each pair of samples merges to the later fired one.
    let tb = oneshot_at(900, 2000, Event::Occurred(0));
    let bins = tb.fountain(3, 0, 2);
    assert_eq!(
        bins,
        vec![Event::Occurred(192), Event::Occurred(308), Event::Occurred(755)]
    );
}

#[test]
fn fountain_inactive_is_all_never() {
    let tb = oneshot_at(100, 2000, Event::Never);
    for b in tb.fountain(10, 0, 8) {
        assert_eq!(b, Event::Never);
    }
}

#[test]
fn wave_selects_by_progress() {
    let table: Vec<i32> = vec![10, 20, 30, 80];
    // Zero progress selects the first entry.
    let tb = oneshot_at(0, 2000, Event::Occurred(0));
    assert_eq!(tb.wave(&table), 10);
    // Full progress (clamped) selects the last entry.
    let tb = oneshot_at(2000, 2000, Event::Occurred(0));
    assert_eq!(tb.wave(&table), 80);
    let tb = oneshot_at(9999, 2000, Event::Occurred(0));
    assert_eq!(tb.wave(&table), 80);
    // Mid-span progress walks the table.
    let tb = oneshot_at(600, 2000, Event::Occurred(0));
    assert_eq!(tb.wave(&table), 20);
}

#[test]
fn between_and_top_half() {
    let trig = Event::Occurred(0);
    let lo = Progress::new(1, 2);
    let hi = Progress::new(1, 1);
    assert!(!repeat_at(99, 200, trig).between(lo, hi));
    assert!(repeat_at(100, 200, trig).between(lo, hi));
    assert!(repeat_at(199, 200, trig).between(lo, hi));
    assert!(!repeat_at(200, 200, trig).between(lo, hi));
    assert!(!repeat_at(99, 200, trig).top_half());
    assert!(repeat_at(150, 200, trig).top_half());
    // OneShot saturates at 1, which lies outside [1/2, 1).
    assert!(oneshot_at(150, 200, trig).top_half());
    assert!(!oneshot_at(200, 200, trig).top_half());
}

#[test]
fn shift_staggers_the_trigger() {
    let tb = repeat_at(500, 200, Event::Occurred(100));
    let sh = tb.shift(50);
    assert_eq!(sh.trigger, Event::Occurred(150));
    assert_eq!(sh.now, tb.now);
    assert_eq!(sh.period, tb.period);
    assert_eq!(tb.shift(-30).trigger, Event::Occurred(70));
    // Shifting a never-fired trigger changes nothing.
    let inert = repeat_at(500, 200, Event::Never);
    assert_eq!(inert.shift(50).trigger, Event::Never);
}

#[test]
fn input_stamping() {
    let mut inp = Input::default();
    assert_eq!(Event::from(inp), Event::Never);
    assert_eq!(Input::new(), inp);
    let f = Frame::new(77);
    f.trigger(&mut inp);
    assert_eq!(Event::from(inp), Event::Occurred(77));
    // Last write wins.
    let f2 = Frame::new(99);
    f2.trigger(&mut inp);
    let ev: Event = inp.into();
    assert_eq!(ev, Event::Occurred(99));
}

#[test]
fn event_constructors() {
    assert_eq!(Event::zero(), Event::Occurred(0));
    assert_eq!(Event::never(), Event::Never);
}

#[test]
fn progress_comparisons_are_exact() {
    let half = Progress::new(1, 2);
    let three_sixths = Progress::new(3, 6);
    assert!(half.le(three_sixths));
    assert!(three_sixths.le(half));
    assert!(!half.lt(three_sixths));
    assert!(half.lt(Progress::new(2, 3)));
}
