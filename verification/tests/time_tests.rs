use pjproject::pj::os::PjTimestamp;
use pjproject::pj::pj_types::PjTimeVal;

#[test]
fn normalize_carries_whole_seconds() {
    let mut t = PjTimeVal::new(1, 2500);
    t.normalize();
    assert_eq!((t.sec(), t.msec()), (3, 500));
}

#[test]
fn normalize_carries_negative_milliseconds() {
    let mut t = PjTimeVal::new(5, -2500);
    t.normalize();
    assert_eq!((t.sec(), t.msec()), (2, 500));
}

#[test]
fn normalize_gives_both_parts_one_sign() {
    let mut t = PjTimeVal::new(-1, 300);
    t.normalize();
    assert_eq!((t.sec(), t.msec()), (0, -700));

    let mut u = PjTimeVal::new(2, -300);
    u.normalize();
    assert_eq!((u.sec(), u.msec()), (1, 700));
}

#[test]
fn normalize_keeps_normalized_values() {
    for (s, m) in [(0i64, 0i64), (3, 999), (-3, -999), (0, -5), (0, 5)] {
        let mut t = PjTimeVal::new(s, m);
        t.normalize();
        assert_eq!(t, PjTimeVal::new(s, m));
    }
}

#[test]
fn normalize_is_idempotent() {
    let mut t = PjTimeVal::new(-7, 12345);
    t.normalize();
    let once = t;
    t.normalize();
    assert_eq!(t, once);
    assert_eq!(t.in_msec(), -7000 + 12345);
}

#[test]
fn set_sec_and_set_msec_normalize() {
    let mut t = PjTimeVal::default();
    assert_eq!((t.sec(), t.msec()), (0, 0));
    t.set(1, 1500);
    assert_eq!((t.sec(), t.msec()), (2, 500));
    t.set_sec(10);
    assert_eq!((t.sec(), t.msec()), (10, 500));
    t.set_msec(-2000);
    assert_eq!((t.sec(), t.msec()), (8, 0));
    t.clear();
    assert_eq!((t.sec(), t.msec()), (0, 0));
}

#[test]
fn in_sec_rounds_toward_zero() {
    assert_eq!(PjTimeVal::new(3, 1999).in_sec(), 4);
    assert_eq!(PjTimeVal::new(3, -1999).in_sec(), 2);
    assert_eq!(PjTimeVal::new(0, -999).in_sec(), 0);
}

#[test]
fn in_msec_is_the_whole_time() {
    assert_eq!(PjTimeVal::new(2, 345).in_msec(), 2345);
    assert_eq!(PjTimeVal::new(-2, -345).in_msec(), -2345);
}

#[test]
fn add_and_sub_normalize() {
    let a = PjTimeVal::new(1, 700);
    let b = PjTimeVal::new(0, 600);
    assert_eq!(a.add(b), PjTimeVal::new(2, 300));
    assert_eq!(a.sub(b), PjTimeVal::new(1, 100));
    assert_eq!(b.sub(a), PjTimeVal::new(-1, -100));
}

#[test]
fn add_then_sub_gives_back_the_start() {
    let a = PjTimeVal::new(4, 250);
    let b = PjTimeVal::new(7, 900);
    assert_eq!(a.add(b).sub(b), a);
}

#[test]
fn timestamp_set_and_read() {
    let mut ts = PjTimestamp(5);
    assert_eq!(ts.ts(), 5);
    ts.set_ts(u64::MAX);
    assert_eq!(ts.ts(), u64::MAX);
}
