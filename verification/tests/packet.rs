use a7105::packet::{
    BindPacket, DecodeMismatch, SticksPacket, TransmitterPacket, BIND_LEN, NUM_CONTROL_CHANNELS,
    PACKET_ID_BIND1, PACKET_ID_BIND2, PACKET_ID_STICKS, STICKS_LEN,
};

fn sample_sticks() -> SticksPacket {
    let mut sticks = [0u16; 14];
    for (i, value) in sticks.iter_mut().enumerate() {
        *value = 1000 + i as u16;
    }
    SticksPacket { transmitter_id: 0x01020304, receiver_id: 0x05060708, sticks }
}

fn sample_sticks_bytes() -> Vec<u8> {
    let mut bytes = vec![0x58, 0x04, 0x03, 0x02, 0x01, 0x08, 0x07, 0x06, 0x05];
    for i in 0..14u16 {
        let value = 1000 + i;
        bytes.push((value & 0xFF) as u8);
        bytes.push((value >> 8) as u8);
    }
    bytes
}

#[test]
fn sticks_round_trip() {
    let packet = sample_sticks();
    let bytes = packet.to_bytes();
    assert_eq!(bytes.len(), 37);
    assert_eq!(bytes, sample_sticks_bytes());
    let (rest, decoded) = TransmitterPacket::from_bytes(&bytes).unwrap();
    assert_eq!(rest.len(), 0);
    assert_eq!(decoded, TransmitterPacket::Sticks(packet.clone()));
    let (rest, decoded) = SticksPacket::from_bytes(&bytes).unwrap();
    assert!(rest.is_empty());
    assert_eq!(decoded, TransmitterPacket::Sticks(packet));
}

#[test]
fn sticks_bytes_are_little_endian() {
    let bytes = sample_sticks().to_bytes();
    assert_eq!(bytes[0], PACKET_ID_STICKS);
    assert_eq!(&bytes[1..5], &[0x04, 0x03, 0x02, 0x01]);
    assert_eq!(&bytes[5..9], &[0x08, 0x07, 0x06, 0x05]);
    assert_eq!(&bytes[9..11], &[0xE8, 0x03]);
    assert_eq!(&bytes[35..37], &[0xF5, 0x03]);
    assert_eq!(STICKS_LEN, 37);
    assert_eq!(NUM_CONTROL_CHANNELS, 14);
}

#[test]
fn sticks_decode_leaves_the_trailing_bytes() {
    let mut bytes = sample_sticks_bytes();
    bytes.extend_from_slice(&[0xAA, 0xBB, 0xCC]);
    let (rest, decoded) = TransmitterPacket::from_bytes(&bytes).unwrap();
    assert_eq!(rest, &[0xAA, 0xBB, 0xCC]);
    assert_eq!(decoded, TransmitterPacket::Sticks(sample_sticks()));
}

#[test]
fn sticks_with_extreme_values() {
    let packet = SticksPacket {
        transmitter_id: u32::MAX,
        receiver_id: 0,
        sticks: [0xFFFF, 0, 0x00FF, 0xFF00, 1, 256, 0x1234, 0xABCD, 2, 3, 4, 5, 6, 0x8000],
    };
    let bytes = packet.to_bytes();
    assert_eq!(&bytes[1..9], &[0xFF, 0xFF, 0xFF, 0xFF, 0, 0, 0, 0]);
    assert_eq!(&bytes[9..17], &[0xFF, 0xFF, 0, 0, 0xFF, 0x00, 0x00, 0xFF]);
    assert_eq!(&bytes[21..25], &[0x34, 0x12, 0xCD, 0xAB]);
    let (rest, decoded) = SticksPacket::from_bytes(&bytes).unwrap();
    assert!(rest.is_empty());
    assert_eq!(decoded, TransmitterPacket::Sticks(packet));
}

#[test]
fn short_sticks_buffer_is_a_mismatch() {
    let bytes = sample_sticks_bytes();
    for len in 0..37 {
        assert_eq!(SticksPacket::from_bytes(&bytes[..len]), Err(DecodeMismatch));
        assert_eq!(TransmitterPacket::from_bytes(&bytes[..len]), Err(DecodeMismatch));
    }
    assert!(SticksPacket::from_bytes(&bytes[..37]).is_ok());
}

#[test]
fn bind_packet_decodes_with_either_tag() {
    for tag in [0xBBu8, 0xBC] {
        for stage in [0u8, 1, 2, 0x7F, 0xFF] {
            let bytes = [tag, 0x2A, 0xC5, 0x75, 0x54, 0x78, 0x56, 0x34, 0x12, stage];
            let expected = TransmitterPacket::Bind(BindPacket {
                transmitter_id: 0x5475C52A,
                receiver_id: 0x12345678,
                stage,
            });
            let (rest, decoded) = TransmitterPacket::from_bytes(&bytes).unwrap();
            assert!(rest.is_empty());
            assert_eq!(decoded, expected);
            let (rest, decoded) = BindPacket::from_bytes(&bytes).unwrap();
            assert!(rest.is_empty());
            assert_eq!(decoded, expected);
            assert_eq!(SticksPacket::from_bytes(&bytes), Err(DecodeMismatch));
        }
    }
    assert_eq!(PACKET_ID_BIND1, 0xBB);
    assert_eq!(PACKET_ID_BIND2, 0xBC);
    assert_eq!(BIND_LEN, 10);
}

#[test]
fn bind_packet_in_a_full_frame() {
    let mut frame = [0u8; 37];
    frame[..10].copy_from_slice(&[0xBC, 1, 0, 0, 0, 2, 0, 0, 0, 9]);
    frame[10] = 0x77;
    let (rest, decoded) = TransmitterPacket::from_bytes(&frame).unwrap();
    assert_eq!(rest.len(), 27);
    assert_eq!(rest[0], 0x77);
    assert_eq!(
        decoded,
        TransmitterPacket::Bind(BindPacket { transmitter_id: 1, receiver_id: 2, stage: 9 })
    );
}

#[test]
fn bind_round_trip() {
    let packet = BindPacket { transmitter_id: 0xDEADBEEF, receiver_id: 0x00C0FFEE, stage: 3 };
    let bytes = packet.to_bytes();
    assert_eq!(bytes, vec![0xBB, 0xEF, 0xBE, 0xAD, 0xDE, 0xEE, 0xFF, 0xC0, 0x00, 3]);
    let (rest, decoded) = TransmitterPacket::from_bytes(&bytes).unwrap();
    assert!(rest.is_empty());
    assert_eq!(decoded, TransmitterPacket::Bind(packet.clone()));
    assert_eq!(TransmitterPacket::Bind(packet).to_bytes(), bytes);
    assert_eq!(TransmitterPacket::Sticks(sample_sticks()).to_bytes(), sample_sticks_bytes());
}

#[test]
fn short_bind_buffer_is_a_mismatch() {
    let bytes = [0xBB, 1, 2, 3, 4, 5, 6, 7, 8, 9];
    for len in 0..10 {
        assert_eq!(BindPacket::from_bytes(&bytes[..len]), Err(DecodeMismatch));
        assert_eq!(TransmitterPacket::from_bytes(&bytes[..len]), Err(DecodeMismatch));
    }
}

#[test]
fn unknown_tag_is_a_mismatch_for_both_shapes() {
    let mut frame = sample_sticks_bytes();
    for tag in 0u8..=255 {
        frame[0] = tag;
        let sticks = SticksPacket::from_bytes(&frame);
        let bind = BindPacket::from_bytes(&frame);
        let any = TransmitterPacket::from_bytes(&frame);
        assert_eq!(sticks.is_ok(), tag == 0x58);
        assert_eq!(bind.is_ok(), tag == 0xBB || tag == 0xBC);
        assert_eq!(any.is_ok(), tag == 0x58 || tag == 0xBB || tag == 0xBC);
        if tag != 0x58 && tag != 0xBB && tag != 0xBC {
            assert_eq!(sticks, Err(DecodeMismatch));
            assert_eq!(bind, Err(DecodeMismatch));
            assert_eq!(any, Err(DecodeMismatch));
        }
    }
    assert_eq!(TransmitterPacket::from_bytes(&[0x56; 37]), Err(DecodeMismatch));
}
