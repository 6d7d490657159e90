use std::sync::atomic::AtomicBool;

use signal_hook::consts::{SI_QUEUE, SI_USER};
use signal_hook::exfiltrator::{
    has_sender, Exfiltrator, OriginStorage, OriginType, SigInfo, SignalOnly, WithOrigin,
};

fn info(code: i32, pid: i32, uid: u32) -> SigInfo {
    SigInfo { code, pid, uid }
}

fn process(pid: i32, uid: u32) -> OriginType {
    OriginType::Process { pid, uid }
}

#[test]
fn constants_match_platform_headers() {
    assert_eq!(SI_USER, libc::SI_USER);
    assert_eq!(SI_QUEUE, libc::SI_QUEUE);
}

#[test]
fn signal_only_fresh_slot_loads_nothing() {
    let slot = AtomicBool::default();
    assert_eq!(SignalOnly.load(&slot, 2), None);
}

#[test]
fn signal_only_coalesces_deliveries() {
    let slot = AtomicBool::default();
    for _ in 0..5 {
        SignalOnly.store(&slot, 15, &info(SI_USER, 1, 1));
    }
    assert_eq!(SignalOnly.load(&slot, 15), Some(15));
    assert_eq!(SignalOnly.load(&slot, 15), None);
}

#[test]
fn signal_only_single_delivery() {
    let slot = AtomicBool::default();
    SignalOnly.store(&slot, 2, &info(128, 0, 0));
    assert_eq!(SignalOnly.load(&slot, 2), Some(2));
    assert_eq!(SignalOnly.load(&slot, 2), None);
    SignalOnly.store(&slot, 2, &info(128, 0, 0));
    assert_eq!(SignalOnly.load(&slot, 2), Some(2));
}

#[test]
fn every_signal_is_supported() {
    assert!(SignalOnly.supports_signal(9));
    assert!(WithOrigin.supports_signal(9));
    assert!(WithOrigin.supports_signal(-3));
}

#[test]
fn with_origin_default_slot_loads_nothing() {
    let slot = OriginStorage::default();
    assert_eq!(WithOrigin.load(&slot, 10), None);
    assert_eq!(WithOrigin.load(&slot, 10), None);
}

#[test]
fn with_origin_user_raised_scenario() {
    let slot = OriginStorage::default();
    WithOrigin.store(&slot, 10, &info(SI_USER, 4242, 7));
    let origin = WithOrigin.load(&slot, 10).unwrap();
    assert_eq!(origin.signal, 10);
    assert_eq!(origin.origin_type, process(4242, 7));
    assert_eq!(WithOrigin.load(&slot, 10), None);
}

#[test]
fn with_origin_queued_delivery() {
    let slot = OriginStorage::default();
    WithOrigin.store(&slot, 12, &info(SI_QUEUE, 100, 1000));
    let origin = WithOrigin.load(&slot, 12).unwrap();
    assert_eq!(origin.signal, 12);
    assert_eq!(origin.origin_type, process(100, 1000));
}

#[test]
fn with_origin_unrecognized_code_scenario() {
    let slot = OriginStorage::default();
    WithOrigin.store(&slot, 10, &info(128, 4242, 7));
    let origin = WithOrigin.load(&slot, 10).unwrap();
    assert_eq!(origin.signal, 10);
    assert_eq!(origin.origin_type, OriginType::Unknown);
    assert_eq!(WithOrigin.load(&slot, 10), None);
}

#[test]
fn with_origin_round_trips_extreme_values() {
    let pairs = [
        (0, 0),
        (1, 1),
        (-1, 0),
        (-1, 3),
        (i32::MIN, u32::MAX),
        (i32::MAX, 0),
        (-4242, 65534),
    ];
    for (pid, uid) in pairs {
        let slot = OriginStorage::default();
        WithOrigin.store(&slot, 1, &info(SI_USER, pid, uid));
        let origin = WithOrigin.load(&slot, 1).unwrap();
        assert_eq!(origin.origin_type, process(pid, uid));
    }
}

#[test]
fn with_origin_last_store_wins() {
    let slot = OriginStorage::default();
    WithOrigin.store(&slot, 3, &info(SI_USER, 10, 20));
    WithOrigin.store(&slot, 3, &info(SI_QUEUE, 30, 40));
    assert_eq!(WithOrigin.load(&slot, 3).unwrap().origin_type, process(30, 40));

    WithOrigin.store(&slot, 3, &info(SI_USER, 10, 20));
    WithOrigin.store(&slot, 3, &info(-6, 10, 20));
    assert_eq!(WithOrigin.load(&slot, 3).unwrap().origin_type, OriginType::Unknown);

    WithOrigin.store(&slot, 3, &info(-6, 10, 20));
    WithOrigin.store(&slot, 3, &info(SI_USER, 50, 60));
    assert_eq!(WithOrigin.load(&slot, 3).unwrap().origin_type, process(50, 60));
    assert_eq!(WithOrigin.load(&slot, 3), None);
}

#[test]
fn with_origin_reserved_pairs_collide() {
    let slot = OriginStorage::default();
    WithOrigin.store(&slot, 4, &info(SI_USER, -1, 1));
    assert_eq!(WithOrigin.load(&slot, 4), None);
    WithOrigin.store(&slot, 4, &info(SI_USER, -1, 2));
    assert_eq!(WithOrigin.load(&slot, 4).unwrap().origin_type, OriginType::Unknown);
}

#[test]
fn with_origin_reserved_words() {
    assert_eq!(WithOrigin::EMPTY, 0xFFFF_FFFF_0000_0001);
    assert_eq!(WithOrigin::UNKNOWN, 0xFFFF_FFFF_0000_0002);
}

#[test]
fn sender_codes() {
    assert!(has_sender(SI_USER));
    assert!(has_sender(SI_QUEUE));
    assert!(!has_sender(128));
    assert!(!has_sender(1));
}

#[test]
fn compose_packs_pid_high_and_uid_low() {
    assert_eq!(WithOrigin::compose(4242, 7), (4242u64 << 32) | 7);
    assert_eq!(WithOrigin::compose(-1, 1), WithOrigin::EMPTY);
    assert_eq!(WithOrigin::compose(-1, 2), WithOrigin::UNKNOWN);
    assert_eq!(WithOrigin::compose(i32::MIN, u32::MAX), 0x8000_0000_FFFF_FFFF);
}

#[test]
fn encode_words() {
    assert_eq!(WithOrigin::encode(&info(SI_USER, 4242, 7)), (4242u64 << 32) | 7);
    assert_eq!(WithOrigin::encode(&info(SI_QUEUE, -2, 9)), 0xFFFF_FFFE_0000_0009);
    assert_eq!(WithOrigin::encode(&info(128, 4242, 7)), WithOrigin::UNKNOWN);
}

#[test]
fn decode_words() {
    assert_eq!(WithOrigin::decode(WithOrigin::EMPTY, 10), None);
    let unknown = WithOrigin::decode(WithOrigin::UNKNOWN, 10).unwrap();
    assert_eq!(unknown.signal, 10);
    assert_eq!(unknown.origin_type, OriginType::Unknown);
    let sent = WithOrigin::decode(0xFFFF_FFFE_0000_0009, 11).unwrap();
    assert_eq!(sent.signal, 11);
    assert_eq!(sent.origin_type, process(-2, 9));
}

#[test]
fn compose_then_decode_round_trips() {
    for (pid, uid) in [(0, 0), (-1, 0), (-1, 3), (i32::MIN, 0), (i32::MAX, u32::MAX), (77, 2)] {
        let origin = WithOrigin::decode(WithOrigin::compose(pid, uid), 5).unwrap();
        assert_eq!(origin.origin_type, process(pid, uid));
    }
}
