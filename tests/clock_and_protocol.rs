use netclock::indicator::{indicator_level, is_prime};
use netclock::join::{JoinAction, JoinEvent, JoinState, NetworkJoin};
use netclock::ntp::{
    ntp_request, reference_timestamp, unix_time_from_response, NTP_SANITY_BOUND,
    NTP_TO_UNIX_EPOCH_OFFSET,
};
use netclock::sync::{Ipv4Address, NtpSync, SyncAction, SyncEvent, SyncState};
use netclock::wallclock::PLACEHOLDER_BOOT_TIME;
use netclock::WallClock;

fn reply_with_timestamp(len: usize, ts: u32) -> Vec<u8> {
    let mut v = vec![0u8; len];
    v[0] = 0x24;
    v[16..20].copy_from_slice(&ts.to_be_bytes());
    v
}

#[test]
fn predicate_rejects_four_and_nine() {
    assert!(!is_prime(4));
    assert!(!is_prime(9));
}

#[test]
fn predicate_accepts_seven() {
    assert!(is_prime(7));
    assert!(is_prime(3));
    assert!(is_prime(1_000_000_007));
}

#[test]
fn predicate_rejects_even_numbers_including_two() {
    assert!(!is_prime(2));
    assert!(!is_prime(0));
    assert!(!is_prime(1_000_000_000));
}

#[test]
fn predicate_rejects_one() {
    assert!(!is_prime(1));
}

#[test]
fn predicate_accepts_fermat_pseudoprime() {
    // 341 = 11 * 31, yet 2^340 mod 341 == 1.
    assert!(is_prime(341));
    assert!(is_prime(561));
}

#[test]
fn predicate_at_the_top_of_u32() {
    assert!(is_prime(4_294_967_291));
    assert!(!is_prime(u32::MAX));
}

#[test]
fn indicator_truncates_to_low_32_bits() {
    assert!(indicator_level(7));
    assert!(indicator_level((1u64 << 32) + 7));
    assert!(!indicator_level((1u64 << 32) + 9));
    assert!(!indicator_level(1u64 << 32));
}

#[test]
fn request_is_version_four_client() {
    let r = ntp_request();
    assert_eq!(r.len(), 48);
    assert_eq!(r[0], 0b00_100_011);
    assert!(r[1..].iter().all(|b| *b == 0));
}

#[test]
fn reference_timestamp_is_big_endian() {
    let mut v = vec![0u8; 48];
    v[16] = 0x12;
    v[17] = 0x34;
    v[18] = 0x56;
    v[19] = 0x78;
    v[20] = 0xff;
    v[15] = 0xff;
    assert_eq!(reference_timestamp(&v), 0x1234_5678);
}

#[test]
fn epoch_conversion_is_exact() {
    let ts = (2_208_988_800u64 + 1_700_000_000u64) as u32;
    let v = reply_with_timestamp(48, ts);
    assert_eq!(unix_time_from_response(&v), Some(1_700_000_000));
    assert_eq!(NTP_TO_UNIX_EPOCH_OFFSET, 2_208_988_800);
}

#[test]
fn reply_of_46_bytes_is_rejected() {
    let ts = (2_208_988_800u64 + 1_700_000_000u64) as u32;
    let v = reply_with_timestamp(46, ts);
    assert_eq!(unix_time_from_response(&v), None);
    assert_eq!(unix_time_from_response(&[]), None);
}

#[test]
fn reply_of_47_bytes_is_accepted() {
    let ts = (2_208_988_800u64 + 1_700_000_000u64) as u32;
    let v = reply_with_timestamp(47, ts);
    assert_eq!(unix_time_from_response(&v), Some(1_700_000_000));
}

#[test]
fn timestamp_at_sanity_bound_is_rejected() {
    let v = reply_with_timestamp(48, NTP_SANITY_BOUND);
    assert_eq!(unix_time_from_response(&v), None);
    let v = reply_with_timestamp(48, 0);
    assert_eq!(unix_time_from_response(&v), None);
    let v = reply_with_timestamp(48, NTP_SANITY_BOUND + 1);
    assert_eq!(unix_time_from_response(&v), Some(3_908_215_873 - 2_208_988_800));
    let v = reply_with_timestamp(48, u32::MAX);
    assert_eq!(unix_time_from_response(&v), Some(4_294_967_295 - 2_208_988_800));
}

#[test]
fn clock_starts_at_placeholder() {
    let c = WallClock::new();
    assert_eq!(c.get_time_at(0), PLACEHOLDER_BOOT_TIME);
    assert_eq!(c.get_time_at(100), 1_699_321_595);
}

#[test]
fn clock_readings_track_local_time() {
    let mut c = WallClock::new();
    c.set_time_from_unix_at(1_700_000_000, 50);
    let mut last = c.get_time_at(50);
    for now in 51..200u64 {
        let t = c.get_time_at(now);
        assert!(t >= last);
        assert_eq!(t - last, 1);
        last = t;
    }
    assert_eq!(c.get_time_at(1_050), 1_700_001_000);
}

#[test]
fn clock_read_right_after_set_returns_set_time() {
    let mut c = WallClock::new();
    c.set_time_from_unix_at(1_700_000_500, 12_345);
    assert_eq!(c.get_time_at(12_345), 1_700_000_500);
    c.set_time_from_unix_at(0, 0);
    assert_eq!(c.get_time_at(0), 0);
}

#[test]
fn clock_set_below_local_time_still_reads_back() {
    let mut c = WallClock::new();
    c.set_time_from_unix_at(5, 10);
    assert_eq!(c.get_time_at(10), 5);
    assert_eq!(c.get_time_at(12), 7);
}

#[test]
fn clock_against_the_local_counter() {
    let mut c = WallClock::new();
    c.set_time_from_unix(1_700_000_500);
    let t = c.get_time();
    assert!(t >= 1_700_000_500 && t <= 1_700_000_502, "read {}", t);
}

#[test]
fn join_retries_until_success_then_releases_once() {
    let n = 5;
    let mut j = NetworkJoin::new();
    let mut attempts = 0;
    let mut releases = 0;
    let mut events = vec![JoinEvent::LinkUp];
    for i in 0..n {
        events.push(JoinEvent::AttemptFailed { status: i + 1 });
    }
    events.push(JoinEvent::AttemptSucceeded);
    events.push(JoinEvent::AttemptFailed { status: 9 });
    events.push(JoinEvent::AttemptSucceeded);
    events.push(JoinEvent::LinkUp);
    for e in events {
        match j.handle(e) {
            JoinAction::Attempt => attempts += 1,
            JoinAction::ReleaseRoutines => releases += 1,
            JoinAction::Nothing => {}
        }
    }
    assert_eq!(attempts, n + 1);
    assert_eq!(releases, 1);
    assert_eq!(j.state, JoinState::Joined);
    assert!(j.is_joined());
}

#[test]
fn join_ignores_results_before_link_up() {
    let mut j = NetworkJoin::new();
    assert_eq!(j.handle(JoinEvent::AttemptSucceeded), JoinAction::Nothing);
    assert_eq!(j.state, JoinState::LinkDown);
    assert!(!j.is_joined());
    assert_eq!(j.handle(JoinEvent::LinkUp), JoinAction::Attempt);
    assert_eq!(j.state, JoinState::Joining);
    assert_eq!(j.handle(JoinEvent::LinkUp), JoinAction::Nothing);
}

fn run_to_bind(s: &mut NtpSync, dns: SyncEvent) {
    assert!(matches!(s.handle(SyncEvent::CycleStart), SyncAction::WaitForConfig));
    assert!(matches!(s.handle(SyncEvent::ConfigUp), SyncAction::Resolve));
    assert!(matches!(s.handle(dns), SyncAction::Bind));
}

#[test]
fn sync_uses_first_resolved_address() {
    let mut s = NtpSync::new();
    let first = Ipv4Address { a: 10, b: 0, c: 0, d: 1 };
    let second = Ipv4Address { a: 10, b: 0, c: 0, d: 2 };
    run_to_bind(&mut s, SyncEvent::Resolved { addresses: vec![first, second] });
    assert_eq!(s.state, SyncState::Binding { server: first });
    match s.handle(SyncEvent::Bound) {
        SyncAction::Send { request, server, port } => {
            assert_eq!(request, ntp_request());
            assert_eq!(server, first);
            assert_eq!(port, 123);
        }
        other => panic!("unexpected {:?}", other),
    }
}

#[test]
fn sync_falls_back_when_resolution_is_empty_or_fails() {
    let fallback = Ipv4Address { a: 216, b: 239, c: 35, d: 0 };
    let mut s = NtpSync::new();
    run_to_bind(&mut s, SyncEvent::Resolved { addresses: vec![] });
    assert_eq!(s.state, SyncState::Binding { server: fallback });
    let mut s = NtpSync::new();
    run_to_bind(&mut s, SyncEvent::ResolveFailed);
    assert_eq!(s.state, SyncState::Binding { server: fallback });
}

#[test]
fn sync_bind_failure_restarts_without_sleeping() {
    let mut s = NtpSync::new();
    run_to_bind(&mut s, SyncEvent::ResolveFailed);
    assert!(matches!(s.handle(SyncEvent::BindFailed), SyncAction::WaitForConfig));
    assert_eq!(s.state, SyncState::AwaitingConfig);
}

#[test]
fn sync_short_reply_sleeps_without_correction() {
    let mut s = NtpSync::new();
    run_to_bind(&mut s, SyncEvent::ResolveFailed);
    assert!(matches!(s.handle(SyncEvent::Bound), SyncAction::Send { .. }));
    let bytes = reply_with_timestamp(46, 3_908_988_800);
    match s.handle(SyncEvent::Response { bytes }) {
        SyncAction::Sleep { correction, secs } => {
            assert_eq!(correction, None);
            assert_eq!(secs, 3600);
        }
        other => panic!("unexpected {:?}", other),
    }
    assert_eq!(s.state, SyncState::Idle);
}

#[test]
fn sync_ignores_out_of_order_events() {
    let mut s = NtpSync::new();
    assert!(matches!(s.handle(SyncEvent::Bound), SyncAction::Ignore));
    assert_eq!(s.state, SyncState::Idle);
    assert!(matches!(
        s.handle(SyncEvent::Response { bytes: vec![0u8; 48] }),
        SyncAction::Ignore
    ));
    assert!(matches!(s.handle(SyncEvent::CycleStart), SyncAction::WaitForConfig));
    assert!(matches!(s.handle(SyncEvent::CycleStart), SyncAction::Ignore));
    assert_eq!(s.state, SyncState::AwaitingConfig);
}

#[test]
fn end_to_end_join_then_sync_then_indicator() {
    let mut j = NetworkJoin::new();
    let mut attempts = 0;
    let mut action = j.handle(JoinEvent::LinkUp);
    let mut outcomes = vec![
        JoinEvent::AttemptFailed { status: 2 },
        JoinEvent::AttemptFailed { status: 2 },
        JoinEvent::AttemptFailed { status: 2 },
        JoinEvent::AttemptSucceeded,
    ]
    .into_iter();
    while action == JoinAction::Attempt {
        attempts += 1;
        action = j.handle(outcomes.next().unwrap());
    }
    assert_eq!(attempts, 4);
    assert_eq!(action, JoinAction::ReleaseRoutines);

    let mut clock = WallClock::new();
    let mut s = NtpSync::new();
    run_to_bind(&mut s, SyncEvent::ResolveFailed);
    assert!(matches!(s.handle(SyncEvent::Bound), SyncAction::Send { .. }));
    let bytes = reply_with_timestamp(48, (2_208_988_800u64 + 1_700_000_500u64) as u32);
    let local_at_sync = 37;
    match s.handle(SyncEvent::Response { bytes }) {
        SyncAction::Sleep { correction: Some(unix), secs: 3600 } => {
            clock.set_time_from_unix_at(unix, local_at_sync);
        }
        other => panic!("unexpected {:?}", other),
    }
    for elapsed in [0u64, 1, 59, 3600] {
        assert_eq!(clock.get_time_at(local_at_sync + elapsed), 1_700_000_500 + elapsed);
    }
}
