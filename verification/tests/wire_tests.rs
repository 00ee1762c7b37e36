use libmv::wire::{
    decode, encode_forwarded, encode_identity, encode_position, split_forwarded, Decoded, Position,
    IDENTITY_PACKET_LEN, POSITION_PACKET_LEN,
};

fn bits(x: f32, y: f32, z: f32) -> Position {
    Position { x: x.to_bits(), y: y.to_bits(), z: z.to_bits() }
}

#[test]
fn position_packet_has_the_documented_bytes() {
    let packet = encode_position(1.0f32.to_bits(), 2.0f32.to_bits(), 3.0f32.to_bits());
    assert_eq!(packet.len(), POSITION_PACKET_LEN);
    assert_eq!(
        packet,
        vec![0x01, 0x00, 0x00, 0x80, 0x3f, 0x00, 0x00, 0x00, 0x40, 0x00, 0x00, 0x40, 0x40]
    );
}

#[test]
fn position_bytes_are_those_of_the_floats() {
    let (x, y, z) = (-12.75f32, 0.1f32, 1.0e-30f32);
    let packet = encode_position(x.to_bits(), y.to_bits(), z.to_bits());
    let mut expected = vec![1u8];
    expected.extend_from_slice(&x.to_le_bytes());
    expected.extend_from_slice(&y.to_le_bytes());
    expected.extend_from_slice(&z.to_le_bytes());
    assert_eq!(packet, expected);
}

#[test]
fn position_round_trip_keeps_every_bit() {
    let samples = [
        0.0f32,
        -0.0,
        1.0,
        -1.5,
        f32::MIN_POSITIVE,
        f32::MAX,
        f32::INFINITY,
        f32::NEG_INFINITY,
        f32::from_bits(0x7fc0_0001),
        f32::from_bits(0xffff_ffff),
        f32::from_bits(0x0000_0001),
    ];
    for &x in samples.iter() {
        for &y in samples.iter() {
            for &z in samples.iter() {
                let packet = encode_position(x.to_bits(), y.to_bits(), z.to_bits());
                assert_eq!(decode(&packet), Decoded::Position(bits(x, y, z)));
            }
        }
    }
}

#[test]
fn identity_packet_is_type_byte_and_key() {
    let key = [0x01u8; 32];
    let packet = encode_identity(&key);
    assert_eq!(packet.len(), IDENTITY_PACKET_LEN);
    assert_eq!(packet[0], 0x02);
    assert_eq!(&packet[1..], &key[..]);
    assert_eq!(decode(&packet), Decoded::Identity(key));
}

#[test]
fn identity_round_trip_keeps_distinct_bytes() {
    let mut key = [0u8; 32];
    for i in 0..32 {
        key[i] = (i as u8) * 7 + 3;
    }
    assert_eq!(decode(&encode_identity(&key)), Decoded::Identity(key));
}

#[test]
fn empty_packet_is_malformed() {
    assert_eq!(decode(&[]), Decoded::Malformed);
}

#[test]
fn every_short_position_is_malformed() {
    let full = encode_position(1, 2, 3);
    for len in 1..POSITION_PACKET_LEN {
        assert_eq!(decode(&full[..len]), Decoded::Malformed, "length {}", len);
    }
}

#[test]
fn every_short_identity_is_malformed() {
    let full = encode_identity(&[9u8; 32]);
    for len in 1..IDENTITY_PACKET_LEN {
        assert_eq!(decode(&full[..len]), Decoded::Malformed, "length {}", len);
    }
}

#[test]
fn unknown_type_is_reported_with_its_byte() {
    assert_eq!(decode(&[0x00]), Decoded::UnknownType(0));
    assert_eq!(decode(&[0x03, 1, 2, 3]), Decoded::UnknownType(3));
    assert_eq!(decode(&[0xff]), Decoded::UnknownType(0xff));
}

#[test]
fn bytes_beyond_the_packet_are_ignored() {
    let mut packet = encode_position(10, 20, 30);
    packet.extend_from_slice(&[0xaa, 0xbb]);
    assert_eq!(decode(&packet), Decoded::Position(Position { x: 10, y: 20, z: 30 }));
}

#[test]
fn forwarded_frame_starts_with_little_endian_sender() {
    let frame = encode_forwarded(0x0403_0201, &[0xaa, 0xbb]);
    assert_eq!(frame, vec![0x01, 0x02, 0x03, 0x04, 0xaa, 0xbb]);
}

#[test]
fn forwarded_frame_matches_std_encoding() {
    for &sender in [0u32, 1, 255, 256, 65_535, 65_536, 0x7fff_ffff, u32::MAX].iter() {
        let frame = encode_forwarded(sender, &[7]);
        assert_eq!(&frame[..4], &sender.to_le_bytes()[..]);
        assert_eq!(split_forwarded(&frame), Some((sender, &[7u8][..])));
    }
}

#[test]
fn split_needs_four_bytes() {
    assert_eq!(split_forwarded(&[]), None);
    assert_eq!(split_forwarded(&[1, 0, 0]), None);
    assert_eq!(split_forwarded(&[1, 0, 0, 0]), Some((1, &[][..])));
}

#[test]
fn forwarded_lengths_are_seventeen_and_thirty_seven() {
    assert_eq!(encode_forwarded(1, &encode_position(0, 0, 0)).len(), 17);
    assert_eq!(encode_forwarded(1, &encode_identity(&[0u8; 32])).len(), 37);
}
