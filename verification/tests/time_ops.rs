use tantraos::time::{sleep_continues, unix_epoch, Duration, Instant, SystemTime};

#[test]
fn duration_parts() {
    let d = Duration::new(3, 250);
    assert_eq!(d.as_nanos(), 3_000_000_250);
    assert_eq!(d.as_secs(), 3);
    assert_eq!(d.subsec_nanos(), 250);
    let m = Duration::new(u64::MAX, 999_999_999);
    assert_eq!(m.as_secs(), u64::MAX);
    assert_eq!(m.subsec_nanos(), 999_999_999);
    assert_eq!(Duration::from_nanos(1_500_000_000).as_secs(), 1);
    let carried = Duration::new(1, 2_500_000_000);
    assert_eq!(carried.as_secs(), 3);
    assert_eq!(carried.subsec_nanos(), 500_000_000);
}

#[test]
fn instant_now_and_differences() {
    let start = Instant::now();
    let later = start.checked_add(&Duration::from_nanos(500)).unwrap();
    assert_eq!(later.checked_sub(&start).unwrap().as_nanos(), 500);
    assert!(start.checked_sub(&later).is_none());
    assert_eq!(later.checked_sub_instant(&start), later.checked_sub(&start));
    assert_eq!(start.checked_sub_instant(&later), start.checked_sub(&later));
    assert_eq!(start.checked_sub(&start).unwrap().as_nanos(), 0);
}

#[test]
fn instant_add_then_sub_round_trip() {
    let t = Instant::now().checked_add(&Duration::from_nanos(1000)).unwrap();
    let d = Duration::from_nanos(250);
    let u = t.checked_add_duration(&d).unwrap();
    assert_eq!(u.checked_sub_duration(&d).unwrap(), t);
    assert!(t.checked_sub_duration(&Duration::from_nanos(1001)).is_none());
}

#[test]
fn instant_sub_then_add_round_trip() {
    let t = Instant::now().checked_add(&Duration::from_nanos(1000)).unwrap();
    let d = Duration::from_nanos(400);
    let u = t.checked_sub_duration(&d).unwrap();
    assert_eq!(u.checked_add(&d).unwrap(), t);
    let s = SystemTime::now().checked_add(&Duration::from_nanos(9)).unwrap();
    assert_eq!(s.checked_sub(&d), None);
    let back = s.checked_sub(&Duration::from_nanos(9)).unwrap();
    assert_eq!(back.checked_add(&Duration::from_nanos(9)).unwrap(), s);
}

#[test]
fn instant_overflow() {
    let near_end = Instant::now().checked_add(&Duration::from_nanos(u64::MAX)).unwrap();
    assert!(near_end.checked_add(&Duration::from_nanos(1)).is_none());
    assert_eq!(near_end.checked_add(&Duration::from_nanos(0)).unwrap(), near_end);
}

#[test]
fn long_spans_are_taken_modulo_two_to_the_64() {
    // 2^64 + 5 nanoseconds: 18446744073 s and 709551621 ns.
    let d = Duration::new(18_446_744_073, 709_551_621);
    assert_eq!(d.as_nanos(), (1u128 << 64) + 5);
    let t = Instant::now().checked_add(&d).unwrap();
    assert_eq!(t.checked_sub(&Instant::now()).unwrap().as_nanos(), 5);
}

#[test]
fn system_time_arithmetic() {
    let epoch = unix_epoch();
    assert_eq!(SystemTime::now(), epoch);
    let a = epoch.checked_add(&Duration::from_nanos(10)).unwrap();
    let b = epoch.checked_add_duration(&Duration::from_nanos(3)).unwrap();
    assert_eq!(a.sub_time(&b).ok().unwrap().as_nanos(), 7);
    assert_eq!(b.sub_time(&a).err().unwrap().as_nanos(), 7);
    assert_eq!(a.sub_time(&a).ok().unwrap().as_nanos(), 0);
    assert_eq!(a.checked_sub(&Duration::from_nanos(10)).unwrap(), epoch);
    assert!(a.checked_sub_duration(&Duration::from_nanos(11)).is_none());
}

#[test]
fn sleeping_decisions() {
    let start = Instant::now();
    let d = Duration::from_nanos(100);
    assert!(sleep_continues(&start, &d, &start));
    let at_end = start.checked_add(&d).unwrap();
    assert!(!sleep_continues(&start, &d, &at_end));
    assert!(!sleep_continues(&start, &Duration::from_nanos(0), &start));
    let far = start.checked_add(&Duration::from_nanos(u64::MAX)).unwrap();
    assert!(!sleep_continues(&far, &d, &start));
}
