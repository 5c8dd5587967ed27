use aiondb::hlc::{HLCError, HLCTimestamp, HLC};

#[test]
fn test_hlc_timestamp_displays_correctly() {
    let timestamp = HLCTimestamp::new(1773167264000, 3);
    assert_eq!(timestamp.to_string(), "2026-03-10T18:27:44.000Z.3")
}

#[test]
fn test_hlc_timestamp_displays_error() {
    let timestamp = HLCTimestamp::new(977316726400000999, 1);
    assert_eq!(timestamp.to_string(), "Invalid time: 977316726400000999.1")
}

#[test]
fn test_hlc_now_increments_logical_for_clock_frozen() {
    let clock = || 1u64;
    let mut hlc = HLC::new();

    let res1 = hlc.now(clock()).unwrap();
    let res2 = hlc.now(clock()).unwrap();

    assert!(res2 > res1);
}

#[test]
fn test_hlc_now_increments_logical_from_a_set_state() {
    let clock = || 1u64;
    let mut hlc = HLC::new();

    hlc.set_time(HLCTimestamp::new(1, 1));
    let res3 = hlc.now(clock()).unwrap();

    assert!(res3 > HLCTimestamp::new(1, 1))
}

#[test]
fn test_hlc_now_increasing_monotonically() {
    let mut clock_state: u64 = 1_000_000;
    let mut clock = move || {
        clock_state += 1000;
        clock_state
    };
    let mut hlc = HLC::new();

    let res1 = hlc.now(clock()).unwrap();
    let res2 = hlc.now(clock()).unwrap();

    assert!(res2 > res1);

    let mut clock_state: u64 = 1_000_000;
    let mut clock = move || {
        clock_state -= 1000;
        clock_state
    };
    let mut hlc = HLC::new();

    let res1 = hlc.now(clock()).unwrap();
    let res2 = hlc.now(clock()).unwrap();

    assert!(res2 > res1);
}

#[test]
fn test_hlc_now_handles_overflow() {
    let clock = || 1u64;
    let mut hlc = HLC::new();

    hlc.set_time(HLCTimestamp::new(1, u16::MAX));

    let res = hlc.now(clock());

    assert!(res.is_err());
}

#[test]
fn test_hlc_observe_increases_monotonically() {
    let clock = || 1000u64;
    let mut hlc = HLC::new();

    hlc.set_time(HLCTimestamp::new(991, 2));
    let res = hlc.observe(clock(), HLCTimestamp::new(998, 1));
    let r_unwrapped = res.unwrap();
    assert_eq!(r_unwrapped, HLCTimestamp::new(1000, 0));
    assert!(hlc.now(clock()).unwrap() > r_unwrapped);

    hlc.set_time(HLCTimestamp::new(991, 2));
    let res = hlc.observe(clock(), HLCTimestamp::new(1001, 1));
    let r_unwrapped = res.unwrap();
    assert_eq!(r_unwrapped, HLCTimestamp::new(1001, 2));
    assert!(hlc.now(clock()).unwrap() > r_unwrapped);

    hlc.set_time(HLCTimestamp::new(1010, 2));
    let res = hlc.observe(clock(), HLCTimestamp::new(1001, 1));
    let r_unwrapped = res.unwrap();
    assert_eq!(r_unwrapped, HLCTimestamp::new(1010, 3));
    assert!(hlc.now(clock()).unwrap() > r_unwrapped);

    hlc.set_time(HLCTimestamp::new(1000, 2));
    let res = hlc.observe(clock(), HLCTimestamp::new(1001, 1));
    let r_unwrapped = res.unwrap();
    assert_eq!(r_unwrapped, HLCTimestamp::new(1001, 2));
    assert!(hlc.now(clock()).unwrap() > r_unwrapped);

    hlc.set_time(HLCTimestamp::new(1000, 2));
    let res = hlc.observe(clock(), HLCTimestamp::new(998, 1));
    let r_unwrapped = res.unwrap();
    assert_eq!(r_unwrapped, HLCTimestamp::new(1000, 3));
    assert!(hlc.now(clock()).unwrap() > r_unwrapped);

    hlc.set_time(HLCTimestamp::new(1000, 2));
    let res = hlc.observe(clock(), HLCTimestamp::new(1000, 5));
    let r_unwrapped = res.unwrap();
    assert_eq!(r_unwrapped, HLCTimestamp::new(1000, 6));
    assert!(hlc.now(clock()).unwrap() > r_unwrapped);

    let clock = || 500u64;
    let mut hlc = HLC::new();
    hlc.set_time(HLCTimestamp::new(1000, 2));
    let res = hlc.observe(clock(), HLCTimestamp::new(1000, 5));
    let r_unwrapped = res.unwrap();
    assert_eq!(r_unwrapped, HLCTimestamp::new(1000, 6));
    assert!(hlc.now(clock()).unwrap() > r_unwrapped);
}

#[test]
fn test_hlc_observer_handles_logical_overflow() {
    let clock = || 1000u64;
    let mut hlc = HLC::new();

    hlc.set_time(HLCTimestamp::new(1010, u16::MAX));
    let res = hlc.observe(clock(), HLCTimestamp::new(1001, 1));
    assert!(res.is_err());

    hlc.set_time(HLCTimestamp::new(991, 2));
    let res = hlc.observe(clock(), HLCTimestamp::new(1001, u16::MAX));
    assert!(res.is_err());

    hlc.set_time(HLCTimestamp::new(1000, u16::MAX));
    let res = hlc.observe(clock(), HLCTimestamp::new(1000, u16::MAX));
    assert!(res.is_err());

    hlc.set_time(HLCTimestamp::new(1000, u16::MAX));
    let res = hlc.observe(clock(), HLCTimestamp::new(998, 1));
    assert!(res.is_err());

    let clock = || 500u64;
    let mut hlc = HLC::new();
    hlc.set_time(HLCTimestamp::new(1000, u16::MAX));
    let res = hlc.observe(clock(), HLCTimestamp::new(1000, u16::MAX));
    assert!(res.is_err());
}

#[test]
fn new_clock_starts_at_zero_and_first_tick_takes_wall_clock() {
    let mut hlc = HLC::new();
    assert_eq!(hlc.last(), HLCTimestamp::min_value());
    let t = hlc.now(42).unwrap();
    assert_eq!(t, HLCTimestamp::new(42, 0));
    assert_eq!(hlc.last(), t);
}

#[test]
fn failed_tick_carries_last_timestamp_and_keeps_clock() {
    let mut hlc = HLC::new();
    hlc.set_time(HLCTimestamp::new(7, u16::MAX));
    match hlc.now(7) {
        Err(HLCError::LogicalOverflow(t)) => assert_eq!(t, HLCTimestamp::new(7, u16::MAX)),
        other => panic!("unexpected {:?}", other),
    }
    assert_eq!(hlc.last(), HLCTimestamp::new(7, u16::MAX));
    // once the wall clock passes, the clock moves on
    assert_eq!(hlc.now(8).unwrap(), HLCTimestamp::new(8, 0));
}

#[test]
fn overflow_errors_carry_the_exhausted_timestamp() {
    let mut hlc = HLC::new();
    hlc.set_time(HLCTimestamp::new(991, 2));
    match hlc.observe(1000, HLCTimestamp::new(1001, u16::MAX)) {
        Err(HLCError::LogicalOverflow(t)) => assert_eq!(t, HLCTimestamp::new(1001, u16::MAX)),
        other => panic!("unexpected {:?}", other),
    }
    hlc.set_time(HLCTimestamp::new(1000, 3));
    match hlc.observe(1000, HLCTimestamp::new(1000, u16::MAX)) {
        Err(HLCError::LogicalOverflow(t)) => assert_eq!(t, HLCTimestamp::new(1000, u16::MAX)),
        other => panic!("unexpected {:?}", other),
    }
    assert_eq!(hlc.last(), HLCTimestamp::new(1000, 3));
}

#[test]
fn observe_takes_the_larger_logical_on_a_tie() {
    let mut hlc = HLC::new();
    hlc.set_time(HLCTimestamp::new(1000, 9));
    let t = hlc.observe(999, HLCTimestamp::new(1000, 4)).unwrap();
    assert_eq!(t, HLCTimestamp::new(1000, 10));
}

#[test]
fn issued_timestamps_strictly_increase_over_mixed_events() {
    let mut hlc = HLC::new();
    let mut issued = Vec::new();
    issued.push(hlc.now(100).unwrap());
    issued.push(hlc.observe(90, HLCTimestamp::new(150, 7)).unwrap());
    issued.push(hlc.now(120).unwrap());
    issued.push(hlc.observe(200, HLCTimestamp::new(10, 1)).unwrap());
    issued.push(hlc.now(200).unwrap());
    for w in issued.windows(2) {
        assert!(w[0] < w[1]);
    }
    assert_eq!(issued[1], HLCTimestamp::new(150, 8));
    assert_eq!(issued[2], HLCTimestamp::new(150, 9));
    assert_eq!(issued[3], HLCTimestamp::new(200, 0));
    assert_eq!(issued[4], HLCTimestamp::new(200, 1));
}

#[test]
fn timestamp_order_is_physical_then_logical() {
    assert!(HLCTimestamp::new(1, u16::MAX) < HLCTimestamp::new(2, 0));
    assert!(HLCTimestamp::new(2, 0) < HLCTimestamp::new(2, 1));
    assert!(HLCTimestamp::new(1, 5) < HLCTimestamp::new(2, 0));
    assert!(!(HLCTimestamp::new(2, 1) < HLCTimestamp::new(2, 1)));
    assert!(HLCTimestamp::new(2, 1) <= HLCTimestamp::new(2, 1));
    assert_eq!(
        HLCTimestamp::new(3, 0).cmp(&HLCTimestamp::new(2, 9)),
        std::cmp::Ordering::Greater
    );
    assert_eq!(HLCTimestamp::default(), HLCTimestamp::min_value());
    assert!(HLCTimestamp::min_value() < HLCTimestamp::new(0, 1));
    assert_eq!(HLCTimestamp::max_value(), HLCTimestamp::new(u64::MAX, u16::MAX));
}

#[test]
fn timestamp_rendering_edges() {
    assert_eq!(HLCTimestamp::new(0, 0).to_string(), "1970-01-01T00:00:00.000Z.0");
    assert_eq!(
        HLCTimestamp::max_value().to_string(),
        "Invalid time: 18446744073709551615.65535"
    );
    assert_eq!(
        HLCTimestamp::new(1, 2).render(Some("X".to_string())),
        "X.2"
    );
    assert_eq!(HLCTimestamp::new(10, 2).render(None), "Invalid time: 10.2");
}

#[test]
fn calendar_range_ends_at_chronos_last_millisecond() {
    let last = HLCTimestamp::new(8_210_266_876_799_999, 4).to_string();
    assert!(!last.starts_with("Invalid time"));
    assert!(last.ends_with("12-31T23:59:59.999Z.4"));
    assert_eq!(
        HLCTimestamp::new(8_210_266_876_800_000, 4).to_string(),
        "Invalid time: 8210266876800000.4"
    );
}
