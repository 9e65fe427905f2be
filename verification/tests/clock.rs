use hlc::{HLTimespec, PhysicalClock, ScriptedClock, State, Wall};

fn ts(s: i64, ns: i32) -> Wall {
    Wall { sec: s, nsec: ns }
}

fn hlts(s: i64, ns: i32, l: u16) -> HLTimespec {
    HLTimespec { wall: ts(s, ns), logical: l }
}

#[test]
fn it_works() {
    let zero = hlts(0, 0, 0);
    let ops = vec![
        // Each entry is (wall, event_ts, outcome). An event_ts of zero stands
        // for a call of `get_time`, any other for a call of `update`.
        (ts(1, 0), zero, hlts(1, 0, 0)),
        (ts(1, 0), zero, hlts(1, 0, 1)), // clock didn't move
        (ts(0, 9), zero, hlts(1, 0, 2)), // clock moved back
        (ts(2, 0), zero, hlts(2, 0, 0)), // finally ahead again
        (ts(3, 0), hlts(1, 2, 3), hlts(3, 0, 0)), // event happens, but wall ahead
        (ts(3, 0), hlts(1, 2, 3), hlts(3, 0, 1)), // event happens, wall ahead but unchanged
        (ts(3, 0), hlts(3, 0, 1), hlts(3, 0, 2)), // event happens at wall, which is still unchanged
        (ts(3, 0), hlts(3, 0, 99), hlts(3, 0, 100)), // event with larger logical, wall unchanged
        (ts(3, 5), hlts(4, 4, 100), hlts(4, 4, 101)), // event with larger wall than state, wall behind
        (ts(5, 0), hlts(4, 5, 0), hlts(5, 0, 0)), // event behind wall, but ahead of previous state
        (ts(4, 9), hlts(5, 0, 99), hlts(5, 0, 100)),
        (ts(0, 0), hlts(5, 0, 50), hlts(5, 0, 101)), // event at state, lower logical than state
    ];

    // Prepare fake clock.
    let times = ops.iter().map(|op| op.0).collect::<Vec<Wall>>();
    let mut s = State::with_source(ScriptedClock::new(times));

    for op in &ops {
        let t = if op.1 == zero { s.get_time() } else { s.update(op.1.clone()) };
        assert_eq!(t, op.2);
    }
    assert_eq!(s.source().remaining(), 0);
}

#[test]
fn generate_follows_wall_only_script() {
    let script = vec![ts(1, 0), ts(1, 0), ts(0, 9), ts(2, 0)];
    let mut s = State::with_source(ScriptedClock::new(script));
    assert_eq!(s.get_time(), hlts(1, 0, 0));
    assert_eq!(s.get_time(), hlts(1, 0, 1));
    assert_eq!(s.get_time(), hlts(1, 0, 2));
    assert_eq!(s.get_time(), hlts(2, 0, 0));
}

#[test]
fn merge_keeps_wall_when_state_is_ahead_of_event() {
    // Bring the clock to (3,0,1), then merge (1,2,3) while the source reads (3,0).
    let script = vec![ts(3, 0), ts(3, 0), ts(3, 0)];
    let mut s = State::with_source(ScriptedClock::new(script));
    assert_eq!(s.get_time(), hlts(3, 0, 0));
    assert_eq!(s.get_time(), hlts(3, 0, 1));
    assert_eq!(s.update(hlts(1, 2, 3)), hlts(3, 0, 2));
    // The same step on plain values.
    assert_eq!(hlts(3, 0, 1).merge(hlts(1, 2, 3), ts(3, 0)), hlts(3, 0, 2));
}

#[test]
fn successive_generates_increase() {
    let script = vec![ts(7, 1), ts(7, 1), ts(6, 0), ts(7, 2), ts(-3, 5), ts(9, 0)];
    let n = script.len();
    let mut s = State::with_source(ScriptedClock::new(script));
    let mut prev = s.get_time();
    for _ in 1..n {
        let next = s.get_time();
        assert!(next > prev);
        assert_ne!(next, prev);
        prev = next;
    }
}

#[test]
fn merge_result_exceeds_state_and_event() {
    let states = [hlts(0, 0, 0), hlts(3, 0, 1), hlts(3, 5, 100), hlts(-1, 7, 9)];
    let events = [hlts(1, 2, 3), hlts(3, 0, 1), hlts(3, 0, 99), hlts(4, 4, 100), hlts(-2, 0, 0)];
    let walls = [ts(0, 0), ts(3, 0), ts(3, 5), ts(5, 0), ts(-5, 0)];
    for s in states {
        for e in events {
            for w in walls {
                let r = s.merge(e, w);
                assert!(r > s, "{:?} merged with {:?} at {:?}", s, e, w);
                assert!(r > e, "{:?} merged with {:?} at {:?}", s, e, w);
            }
        }
    }
}

#[test]
fn generate_resets_counter_when_time_advances() {
    assert_eq!(hlts(4, 10, 77).tick(ts(4, 11)), hlts(4, 11, 0));
    assert_eq!(hlts(4, 10, 77).tick(ts(5, 0)), hlts(5, 0, 0));
    assert_eq!(hlts(4, 10, u16::MAX).tick(ts(5, 0)), hlts(5, 0, 0));
}

#[test]
fn generate_bumps_counter_when_time_stands_or_falls_back() {
    assert_eq!(hlts(4, 10, 77).tick(ts(4, 10)), hlts(4, 10, 78));
    assert_eq!(hlts(4, 10, 77).tick(ts(4, 9)), hlts(4, 10, 78));
    assert_eq!(hlts(4, 10, 77).tick(ts(3, 999)), hlts(4, 10, 78));
    assert_eq!(hlts(4, 10, 0).tick(ts(-1, 0)), hlts(4, 10, 1));
}

#[test]
fn merge_covers_each_branch() {
    // Physical time is past both.
    assert_eq!(hlts(2, 0, 5).merge(hlts(3, 0, 9), ts(3, 1)), hlts(3, 1, 0));
    // The event's wall leads.
    assert_eq!(hlts(2, 0, 5).merge(hlts(3, 0, 9), ts(3, 0)), hlts(3, 0, 10));
    assert_eq!(hlts(2, 0, 5).merge(hlts(3, 0, 9), ts(2, 5)), hlts(3, 0, 10));
    // The state's wall leads.
    assert_eq!(hlts(3, 0, 5).merge(hlts(2, 0, 9), ts(3, 0)), hlts(3, 0, 6));
    assert_eq!(hlts(3, 0, 5).merge(hlts(2, 0, 9), ts(2, 5)), hlts(3, 0, 6));
    // Equal walls: the larger counter is bumped.
    assert_eq!(hlts(3, 0, 5).merge(hlts(3, 0, 9), ts(3, 0)), hlts(3, 0, 10));
    assert_eq!(hlts(3, 0, 9).merge(hlts(3, 0, 5), ts(3, 0)), hlts(3, 0, 10));
    assert_eq!(hlts(3, 0, 9).merge(hlts(3, 0, 9), ts(0, 0)), hlts(3, 0, 10));
}

#[test]
fn merge_is_not_commutative() {
    let s = hlts(0, 0, 0);
    let e1 = hlts(5, 0, 1);
    let e2 = hlts(5, 0, 7);
    let now = ts(0, 0);
    let one_then_two = s.merge(e1, now).merge(e2, now);
    let two_then_one = s.merge(e2, now).merge(e1, now);
    assert_eq!(one_then_two, hlts(5, 0, 8));
    assert_eq!(two_then_one, hlts(5, 0, 9));
    assert_ne!(one_then_two, two_then_one);
    for end in [one_then_two, two_then_one] {
        assert!(end > s);
        assert!(end > e1);
        assert!(end > e2);
    }
}

#[test]
fn tick_equals_merge_of_own_state() {
    for s in [hlts(0, 0, 0), hlts(3, 4, 5), hlts(3, 4, u16::MAX)] {
        for w in [ts(0, 0), ts(3, 4), ts(3, 5), ts(9, 9)] {
            assert_eq!(s.tick(w), s.merge(s, w));
        }
    }
}

#[test]
fn counter_wraps_to_zero() {
    let full = hlts(8, 0, u16::MAX);
    // A tick without progress of physical time wraps and falls behind.
    let t = full.tick(ts(8, 0));
    assert_eq!(t, hlts(8, 0, 0));
    assert!(t < full);
    // So does a merge, whichever side carries the full counter.
    assert_eq!(full.merge(hlts(1, 0, 0), ts(8, 0)), hlts(8, 0, 0));
    assert_eq!(hlts(1, 0, 0).merge(full, ts(8, 0)), hlts(8, 0, 0));
    assert_eq!(full.merge(hlts(8, 0, 3), ts(2, 0)), hlts(8, 0, 0));
    // Progress of physical time opens a new wall and no counter is bumped.
    assert_eq!(full.tick(ts(8, 1)), hlts(8, 1, 0));
    assert_eq!(full.merge(full, ts(8, 1)), hlts(8, 1, 0));
}

#[test]
fn new_clock_starts_at_zero() {
    assert_eq!(HLTimespec::zero(), hlts(0, 0, 0));
    let mut s = State::with_source(ScriptedClock::new(vec![ts(0, 0)]));
    // The source has not moved past the epoch, so the first tick bumps the counter.
    assert_eq!(s.get_time(), hlts(0, 0, 1));
}

#[test]
fn scripted_clock_gives_readings_in_order() {
    let mut c = ScriptedClock::new(vec![ts(1, 2), ts(0, 9), ts(5, 0)]);
    assert_eq!(c.remaining(), 3);
    assert!(c.ready());
    assert_eq!(c.now(), ts(1, 2));
    assert_eq!(c.now(), ts(0, 9));
    assert_eq!(c.remaining(), 1);
    assert_eq!(c.now(), ts(5, 0));
    assert_eq!(c.remaining(), 0);
    assert!(!c.ready());
}

#[test]
fn exhausted_script_is_detected() {
    let mut s = State::with_source(ScriptedClock::new(vec![ts(1, 0)]));
    assert!(s.source().ready());
    s.get_time();
    assert!(!s.source().ready());
    assert_eq!(s.source().remaining(), 0);
}

#[test]
fn system_clock_drives_the_state() {
    let mut s = State::new();
    let a = s.get_time();
    // The system's time is past the epoch, so the first timestamp opens it.
    assert!(a.wall > ts(0, 0));
    assert_eq!(a.logical, 0);
    assert!(a.wall.nsec >= 0 && a.wall.nsec < 1_000_000_000);
    let b = s.get_time();
    assert!(b > a);
    let far = hlts(i64::MAX, 0, 41);
    let c = s.update(far);
    assert_eq!(c, hlts(i64::MAX, 0, 42));
    let d = s.get_time();
    assert_eq!(d, hlts(i64::MAX, 0, 43));
}

#[test]
fn many_generates_are_distinct_and_ordered() {
    let mut s = State::new();
    let mut issued = Vec::new();
    for _ in 0..2000 {
        issued.push(s.get_time());
    }
    // In order of completion each timestamp exceeds the one before, so no
    // two are equal and sorting them changes nothing.
    for pair in issued.windows(2) {
        assert!(pair[0] < pair[1]);
    }
    let mut sorted = issued.clone();
    sorted.sort();
    sorted.dedup();
    assert_eq!(sorted, issued);
}
