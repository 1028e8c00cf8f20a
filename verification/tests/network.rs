use bigherox_robocup::data_legacy::{DecodeError, LegacyCtrl, LegacyPackFromCoach, PackField};
use bigherox_robocup::robot::test_network_legacy::{
    coach_port, gather, BIND_IP_ADDRESS, BIND_PORT, COACH_IP_ADDRESS, COACH_PORT_AGENT,
    COACH_PORT_STARTUP, HEADER_LEN,
};

#[test]
fn gather_waits_for_the_length_byte() {
    let cache = [0u8; 64];
    let g = gather(&cache, 0, 0);
    assert_eq!((g.loaded, g.pack), (0, None));
    let g = gather(&cache, 0, 2);
    assert_eq!((g.loaded, g.pack), (2, None));
    let g = gather(&cache, 1, 1);
    assert_eq!((g.loaded, g.pack), (2, None));
}

#[test]
fn gather_waits_for_the_declared_bytes() {
    let mut cache = [0u8; 1024];
    let mut pack = LegacyPackFromCoach::default();
    pack.ctrl = LegacyCtrl::MoveTo;
    cache[..205].copy_from_slice(&pack.to_bytes());
    let g = gather(&cache, 0, 3);
    assert_eq!((g.loaded, g.pack), (3, None));
    let g = gather(&cache, 3, 201);
    assert_eq!((g.loaded, g.pack), (204, None));
    let g = gather(&cache, 204, 1);
    assert_eq!((g.loaded, g.pack), (0, Some(Ok(pack))));
    let g = gather(&cache, 0, 300);
    assert_eq!((g.loaded, g.pack), (0, Some(Ok(pack))));
}

#[test]
fn gather_hands_on_what_the_decode_refused() {
    let mut cache = [0u8; 1024];
    cache[..205].copy_from_slice(&LegacyPackFromCoach::default().to_bytes());
    cache[10] ^= 1;
    let g = gather(&cache, 100, 105);
    assert_eq!(g.loaded, 0);
    assert!(matches!(g.pack, Some(Err(DecodeError::ChecksumMismatch { .. }))));
    cache[2] = 0;
    let g = gather(&cache, 0, 3);
    assert_eq!(g.loaded, 0);
    assert_eq!(g.pack, Some(Err(DecodeError::TruncatedField(PackField::SetLen))));
    cache[2] = 50;
    let g = gather(&cache, 0, 50);
    assert_eq!(g.pack, Some(Err(DecodeError::TruncatedField(PackField::BarrierSize))));
}

#[test]
fn network_addresses() {
    assert_eq!(HEADER_LEN, 3);
    assert_eq!(BIND_IP_ADDRESS, [10, 31, 3, 124]);
    assert_eq!(BIND_PORT, 20091);
    assert_eq!(COACH_IP_ADDRESS, [10, 31, 1, 2]);
    assert_eq!(coach_port(true), COACH_PORT_STARTUP);
    assert_eq!(coach_port(false), COACH_PORT_AGENT);
    assert_eq!(coach_port(true), 20090);
}
