use libmv::peers::{color_hash, stale, PeerRecord, PeerRegistry, STALE_AFTER, UNKNOWN_COLOR};
use libmv::relay::forward;
use libmv::wire::{encode_forwarded, encode_identity, encode_position, Decoded, Position};

const SECOND: u64 = 1_000_000_000;

fn pos(x: f32, y: f32, z: f32) -> Position {
    Position { x: x.to_bits(), y: y.to_bits(), z: z.to_bits() }
}

fn reference_hash(key: &[u8]) -> u32 {
    let mut hash: u32 = 5381;
    for b in key {
        hash = ((hash << 5).wrapping_add(hash)).wrapping_add(*b as u32);
    }
    hash
}

#[test]
fn color_hash_of_ones_has_the_exact_value() {
    // 5381 * 33^32 + (33^32 - 1) / 32, kept to 32 bits.
    let mut expected: u64 = 5381;
    for _ in 0..32 {
        expected = (expected * 33 + 1) % (1u64 << 32);
    }
    assert_eq!(color_hash(&[1u8; 32]) as u64, expected);
    assert_eq!(color_hash(&[1u8; 32]), 0xf9b4_a725);
    assert_eq!(color_hash(&[1u8; 32]), reference_hash(&[1u8; 32]));
}

#[test]
fn color_hash_of_zeroes_is_seed_times_power() {
    let mut expected: u32 = 5381;
    for _ in 0..32 {
        expected = expected.wrapping_mul(33);
    }
    assert_eq!(color_hash(&[0u8; 32]), expected);
    assert_eq!(color_hash(&[0u8; 32]), 0xe92a_e905);
}

#[test]
fn color_hash_of_a_counting_key() {
    let mut key = [0u8; 32];
    for i in 0..32 {
        key[i] = i as u8;
    }
    assert_eq!(color_hash(&key), 0x71af_36f5);
}

#[test]
fn color_hash_is_the_same_on_repeated_calls() {
    let mut key = [0u8; 32];
    for i in 0..32 {
        key[i] = 255 - (i as u8) * 5;
    }
    let first = color_hash(&key);
    assert_eq!(first, color_hash(&key));
    assert_eq!(first, reference_hash(&key));
    assert_eq!(color_hash(&[0xff; 32]), reference_hash(&[0xff; 32]));
}

#[test]
fn stale_at_five_seconds_and_not_before() {
    let t = 17 * SECOND;
    assert!(!stale(t, t));
    assert!(!stale(t, t + 4_900_000_000));
    assert!(!stale(t, t + STALE_AFTER - 1));
    assert!(stale(t, t + STALE_AFTER));
    assert!(stale(t, t + 5_100_000_000));
    assert!(!stale(t, t - 1));
    assert!(!stale(u64::MAX, 0));
    assert!(stale(0, u64::MAX));
}

#[test]
fn peer_is_present_at_4_9_seconds_and_absent_at_5_1() {
    let t = 40 * SECOND;
    let mut registry = PeerRegistry::new();
    registry.receive(&encode_forwarded(3, &encode_position(1, 2, 3)), t);
    registry.evict(t + 4_900_000_000);
    assert!(registry.contains(3));
    registry.evict(t + 5_100_000_000);
    assert!(!registry.contains(3));
    assert_eq!(registry.len(), 0);
}

#[test]
fn position_from_a_updates_b_and_times_out() {
    let t = 100 * SECOND;
    let mut registry = PeerRegistry::new();
    let packet = encode_position(1.0f32.to_bits(), 2.0f32.to_bits(), 3.0f32.to_bits());
    let frame = forward(2, 1, &packet).unwrap();
    registry.receive(&frame, t);
    let record = registry.get(1).unwrap();
    assert_eq!(f32::from_bits(record.position.x), 1.0);
    assert_eq!(f32::from_bits(record.position.y), 2.0);
    assert_eq!(f32::from_bits(record.position.z), 3.0);
    assert_eq!(record.last_update, t);
    assert_eq!(record.color_hash, UNKNOWN_COLOR);
    registry.evict(t + 5 * SECOND);
    assert_eq!(registry.get(1), None);
}

#[test]
fn identity_first_puts_peer_at_origin() {
    let mut registry = PeerRegistry::new();
    registry.receive(&encode_forwarded(9, &encode_identity(&[1u8; 32])), 5);
    assert_eq!(
        registry.get(9),
        Some(PeerRecord {
            position: pos(0.0, 0.0, 0.0),
            color_hash: reference_hash(&[1u8; 32]),
            last_update: 5,
        })
    );
}

#[test]
fn each_packet_type_updates_its_own_field() {
    let mut registry = PeerRegistry::new();
    registry.apply(4, &Decoded::Position(pos(1.0, 2.0, 3.0)), 10);
    registry.apply(4, &Decoded::Identity([7u8; 32]), 20);
    assert_eq!(
        registry.get(4),
        Some(PeerRecord {
            position: pos(1.0, 2.0, 3.0),
            color_hash: reference_hash(&[7u8; 32]),
            last_update: 20,
        })
    );
    registry.apply(4, &Decoded::Position(pos(-1.0, 0.5, 9.0)), 30);
    assert_eq!(
        registry.get(4),
        Some(PeerRecord {
            position: pos(-1.0, 0.5, 9.0),
            color_hash: reference_hash(&[7u8; 32]),
            last_update: 30,
        })
    );
}

#[test]
fn last_processed_position_wins() {
    let first = Decoded::Position(pos(1.0, 1.0, 1.0));
    let second = Decoded::Position(pos(2.0, 2.0, 2.0));
    let mut in_order = PeerRegistry::new();
    in_order.apply(1, &first, 10);
    in_order.apply(1, &second, 11);
    assert_eq!(in_order.get(1).unwrap().position, pos(2.0, 2.0, 2.0));
    let mut swapped = PeerRegistry::new();
    swapped.apply(1, &second, 10);
    swapped.apply(1, &first, 11);
    assert_eq!(swapped.get(1).unwrap().position, pos(1.0, 1.0, 1.0));
    assert_eq!(swapped.get(1).unwrap().last_update, 11);
}

#[test]
fn bad_packets_change_nothing() {
    let mut registry = PeerRegistry::new();
    registry.receive(&[1, 0, 0], 1);
    registry.receive(&[1, 0, 0, 0], 1);
    registry.receive(&encode_forwarded(1, &[1, 2, 3]), 1);
    registry.receive(&encode_forwarded(1, &[2; 32]), 1);
    registry.receive(&encode_forwarded(1, &[9; 40]), 1);
    registry.apply(1, &Decoded::Malformed, 1);
    registry.apply(1, &Decoded::UnknownType(9), 1);
    assert_eq!(registry.len(), 0);
    registry.apply(1, &Decoded::Position(pos(1.0, 2.0, 3.0)), 2);
    registry.apply(1, &Decoded::Malformed, 3);
    registry.receive(&encode_forwarded(1, &[7, 7, 7]), 4);
    assert_eq!(registry.get(1).unwrap().last_update, 2);
}

#[test]
fn eviction_keeps_the_fresh_and_drops_the_stale() {
    let mut registry = PeerRegistry::new();
    for id in 1..=20u32 {
        registry.apply(id, &Decoded::Position(pos(id as f32, 0.0, 0.0)), (id as u64) * SECOND);
    }
    registry.evict(15 * SECOND);
    assert_eq!(registry.len(), 10);
    for id in 1..=20u32 {
        assert_eq!(registry.contains(id), id > 10, "peer {}", id);
    }
    assert_eq!(registry.get(11).unwrap().position, pos(11.0, 0.0, 0.0));
}

#[test]
fn ids_lists_each_peer_once() {
    let mut registry = PeerRegistry::new();
    for id in [5u32, 1, 9, 5, 1] {
        registry.apply(id, &Decoded::Position(pos(0.0, 0.0, 0.0)), 0);
    }
    let mut ids = registry.ids();
    ids.sort();
    assert_eq!(ids, vec![1, 5, 9]);
    assert_eq!(registry.ids_up_to(0), Vec::<u32>::new());
    let two = registry.ids_up_to(2);
    assert_eq!(two.len(), 2);
    assert!(two[0] != two[1]);
    assert!(two.iter().all(|id| registry.contains(*id)));
    let mut all = registry.ids_up_to(10);
    all.sort();
    assert_eq!(all, vec![1, 5, 9]);
}
