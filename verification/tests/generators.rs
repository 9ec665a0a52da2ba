use siggen::SignalError;
use siggen::basic::{make_one, make_zero, AllInSlice, AllInVec, Incrementing, Ones, SingleNumbers, Take, Zeros};
use siggen::cycle::make_cycle_on_ping;
use siggen::entity::{closest_entity, distance_to_entity, Entity, Kind};
use siggen::pair::{pair, BinOp};
use siggen::ramp::{make_ramp_down, RampTemplate};
use siggen::source::Source;
use siggen::toggle::{make_toggle, ToggleStart};

#[test]
fn test_zeros() {
    let mut zeros = Zeros {};
    assert_eq!(zeros.next(), Some(0));
    assert_eq!(zeros.next(), Some(0));
    assert_eq!(zeros.next(), Some(0));
    assert_eq!(zeros.next(), Some(0));
}

#[test]
fn test_ones() {
    let mut ones = Ones {};
    assert_eq!(ones.next(), Some(1));
    assert_eq!(ones.next(), Some(1));
    assert_eq!(ones.next(), Some(1));
}

#[test]
fn test_numbers() {
    let mut numbers = SingleNumbers { ret: 5 };
    assert_eq!(numbers.next(), Some(5));
    assert_eq!(numbers.next(), Some(5));
    assert_eq!(numbers.next(), Some(5));

    let mut numbers = SingleNumbers { ret: 8 };
    assert_eq!(numbers.next(), Some(8));
    assert_eq!(numbers.next(), Some(8));
}

#[test]
fn test_incrementing() {
    let mut incr = Incrementing { ret: 0 };
    assert_eq!(incr.next(), Some(0));
    assert_eq!(incr.next(), Some(1));
    assert_eq!(incr.next(), Some(2));
    assert_eq!(incr.next(), Some(3));

    let mut incr = Incrementing {
        ret: std::i32::MAX - 1,
    };
    assert_eq!(incr.next(), Some(std::i32::MAX - 1));
    assert_eq!(incr.next(), Some(std::i32::MAX));
    assert_eq!(incr.next(), Some(std::i32::MIN));
}

#[test]
fn test_for_loop() {
    let mut incr = Incrementing::new(0);

    let mut expected = 0;
    loop {
        let value = incr.next().unwrap();
        assert_eq!(expected, value);
        expected += 1;
        if value == 10 {
            break;
        }
    }
}

#[test]
fn test_take() {
    let mut take = Take {
        iter: Zeros {},
        count: 3,
    };
    assert!(take.next().is_some());
    assert!(take.next().is_some());
    assert!(take.next().is_some());
    assert!(take.next().is_none());
}

#[test]
fn test_vec() {
    let mut iter = AllInVec::new(vec![1, 2, 3]);
    assert_eq!(iter.next(), Some(1));
    assert_eq!(iter.next(), Some(2));
    assert_eq!(iter.next(), Some(3));
    assert_eq!(iter.next(), None);
}

#[test]
fn test_slice() {
    let v = vec![1, 2, 3];
    let mut iter = AllInSlice::new(v.as_slice());
    assert_eq!(iter.next(), Some(&1));
    assert_eq!(iter.next(), Some(&2));
    assert_eq!(iter.next(), Some(&3));
    assert_eq!(iter.next(), None);

    let v = vec![1.0, 2.0, 3.0];
    let mut iter = AllInSlice::new(v.as_slice());
    assert_eq!(iter.next(), Some(&1.0));
    assert_eq!(iter.next(), Some(&2.0));
    assert_eq!(iter.next(), Some(&3.0));
    assert_eq!(iter.next(), None);
}

#[test]
fn constant_streams() {
    let mut z = make_zero();
    let mut o = make_one();
    for _ in 0..5 {
        assert_eq!(z.next(), Some(0));
        assert_eq!(o.next(), Some(1));
    }
}

#[test]
fn toggle_one_first() {
    let mut t = make_toggle(ToggleStart::OneFirst);
    for _ in 0..4 {
        assert_eq!(t.next(), Some(1));
        assert_eq!(t.next(), Some(0));
    }
}

#[test]
fn toggle_zero_first() {
    let mut t = make_toggle(ToggleStart::ZeroFirst);
    for _ in 0..4 {
        assert_eq!(t.next(), Some(0));
        assert_eq!(t.next(), Some(1));
    }
}

#[test]
fn ramp_rejects_bad_parameters() {
    assert_eq!(make_ramp_down(0, 44100), Err(SignalError::InvalidParameter));
    assert_eq!(make_ramp_down(1, 0), Err(SignalError::InvalidParameter));
    assert_eq!(make_ramp_down(0, 0), Err(SignalError::InvalidParameter));
    assert!(RampTemplate::new(5, 0).is_err());
    assert!(RampTemplate::new(2, 3).is_ok());
}

#[test]
fn ramp_small_exact_values() {
    // Two seconds at three samples per second: six numerators over six.
    let t = make_ramp_down(2, 3).unwrap();
    let mut w = t.fresh();
    assert_eq!(w.next(), Some(5));
    assert_eq!(w.next(), Some(4));
    assert_eq!(w.next(), Some(3));
    assert_eq!(w.next(), Some(2));
    assert_eq!(w.next(), Some(1));
    assert_eq!(w.next(), Some(0));
    assert_eq!(w.next(), None);
}

#[test]
fn ramp_one_second_at_44100() {
    let t = make_ramp_down(1, 44100).unwrap();
    let mut w = t.fresh();
    let mut count = 0u32;
    let mut prev: Option<i32> = None;
    let mut last = 0i32;
    while let Some(v) = w.next() {
        if let Some(p) = prev {
            assert!(v < p, "samples must be strictly decreasing");
        }
        prev = Some(v);
        last = v;
        count += 1;
    }
    assert_eq!(count, 44100);
    let last_value = last as f64 / 44100.0;
    assert!(last_value < 1e-11);
    // The pull immediately after exhaustion reports exhaustion again.
    assert_eq!(w.next(), None);
}

#[test]
fn exhausted_generator_stays_exhausted() {
    let mut iter = AllInVec::new(vec![7]);
    assert_eq!(iter.next(), Some(7));
    for _ in 0..10 {
        assert_eq!(iter.next(), None);
    }

    let t = make_ramp_down(1, 2).unwrap();
    let mut w = t.fresh();
    assert_eq!(w.next(), Some(1));
    assert_eq!(w.next(), Some(0));
    for _ in 0..10 {
        assert_eq!(w.next(), None);
    }
}

#[test]
fn cycle_on_ping_cycles() {
    let t = make_ramp_down(1, 44100).unwrap();
    let (mut c, handle) = make_cycle_on_ping(t, make_zero());

    // Three full ping cycles: the ramp decreases to zero, the fallback then
    // holds at zero, and the external handle restarts the ramp.
    for _ in 0..3 {
        let mut prev = i32::MAX;
        for _ in 0..44100 {
            let v = c.pull().unwrap();
            assert!(v < prev, "ramp samples must strictly decrease");
            prev = v;
        }
        assert_eq!(prev, 0);
        for _ in 0..100 {
            assert_eq!(c.pull(), Some(0), "fallback holds at zero");
        }
        handle.invoke();
    }
    // After the final invocation the next pull resumes from the top.
    assert_eq!(c.pull(), Some(44099));
}

#[test]
fn cycle_handle_requests_coalesce() {
    let t = make_ramp_down(1, 4).unwrap();
    let (mut c, handle) = make_cycle_on_ping(t, make_zero());
    assert_eq!(c.pull(), Some(3));
    // Two requests before the next pull act as one restart.
    handle.invoke();
    handle.invoke();
    assert_eq!(c.pull(), Some(3));
    assert_eq!(c.pull(), Some(2));
}

#[test]
fn cycle_ping_restarts_immediately() {
    let t = make_ramp_down(1, 4).unwrap();
    let (mut c, _handle) = make_cycle_on_ping(t, make_zero());
    assert_eq!(c.pull(), Some(3));
    assert_eq!(c.pull(), Some(2));
    c.ping();
    assert_eq!(c.pull(), Some(3));
}

#[test]
fn cycle_step_is_the_pull_transition() {
    let t = make_ramp_down(1, 2).unwrap();
    let (mut c, _handle) = make_cycle_on_ping(t, make_zero());
    assert_eq!(c.step(false), Some(1));
    assert_eq!(c.step(false), Some(0));
    // Exhausted: the fallback answers until a restart is applied.
    assert_eq!(c.step(false), Some(0));
    assert_eq!(c.step(false), Some(0));
    assert_eq!(c.step(true), Some(1));
}

#[test]
fn pair_shorter_side_wins() {
    let left = AllInVec::new(vec![1, 2, 3]);
    let right = AllInVec::new(vec![10, 20]);
    let mut p = pair(left, right, BinOp::Multiply);
    assert_eq!(p.next(), Some(10));
    assert_eq!(p.next(), Some(40));
    assert_eq!(p.next(), None);
    assert_eq!(p.next(), None);
}

#[test]
fn pair_adds_pointwise() {
    let left = AllInVec::new(vec![1, 2]);
    let right = AllInVec::new(vec![30, 40]);
    let mut p = pair(left, right, BinOp::Add);
    assert_eq!(p.next(), Some(31));
    assert_eq!(p.next(), Some(42));
    assert_eq!(p.next(), None);
}

#[test]
fn pair_never_overflows_on_extremes() {
    let left = AllInVec::new(vec![i32::MIN, i32::MAX]);
    let right = AllInVec::new(vec![i32::MIN, i32::MAX]);
    let mut p = pair(left, right, BinOp::Multiply);
    assert_eq!(p.next(), Some((i32::MIN as i64) * (i32::MIN as i64)));
    assert_eq!(p.next(), Some((i32::MAX as i64) * (i32::MAX as i64)));
    assert_eq!(p.next(), None);
}

#[test]
fn take_truncates_a_vector_walker() {
    let inner = AllInVec::new(vec![4, 5, 6]);
    let mut take = Take::new(inner, 2);
    assert_eq!(take.next(), Some(4));
    assert_eq!(take.next(), Some(5));
    assert_eq!(take.next(), None);
}

#[test]
fn manhattan_distance_exact() {
    let e = Entity {
        kind: Kind::Enemy,
        position: (3, -4),
    };
    assert_eq!(distance_to_entity(&e, (0, 0)), 7);
    assert_eq!(distance_to_entity(&e, (3, -4)), 0);
    assert_eq!(distance_to_entity(&e, (-2, 6)), 15);
}

#[test]
fn closest_entity_picks_nearest() {
    let entities = vec![
        Entity {
            kind: Kind::Enemy,
            position: (1, 1),
        },
        Entity {
            kind: Kind::Enemy,
            position: (2, 2),
        },
    ];
    assert_eq!(closest_entity(entities.as_slice(), (0, 0)), Some(0));
    assert_eq!(closest_entity(entities.as_slice(), (3, 3)), Some(1));
    assert_eq!(closest_entity(&[], (0, 0)), None);
}

#[test]
fn closest_entity_first_of_ties() {
    let entities = vec![
        Entity {
            kind: Kind::Player,
            position: (1, 0),
        },
        Entity {
            kind: Kind::Enemy,
            position: (0, 1),
        },
    ];
    // Both are at distance one; the first is picked.
    assert_eq!(closest_entity(entities.as_slice(), (0, 0)), Some(0));
}
