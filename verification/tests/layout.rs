use snowflake::layout::{decode, encode, IdParts, MAX_17_BITS, MAX_2_BITS, MAX_44_BITS};

#[test]
fn encode_packs_the_three_fields() {
    assert_eq!(encode(5, 1, 1), 2_621_445);
    assert_eq!(encode(5, 1, 1), (5 << 19) | (1 << 2) | 1);
    assert_eq!(encode(1, 0, 0), 524_288);
    assert_eq!(encode(0, 1, 0), 4);
    assert_eq!(encode(0, 0, 1), 1);
    assert_eq!(encode(0, 0, 0), 0);
}

#[test]
fn encode_of_the_largest_fields_is_the_largest_i64() {
    assert_eq!(encode(MAX_44_BITS, MAX_17_BITS, MAX_2_BITS), i64::MAX);
    assert_eq!(encode(MAX_44_BITS, 0, 0), 0x7FFF_FFFF_FFF8_0000);
    assert_eq!(encode(0, MAX_17_BITS, 0), 0x7_FFFC);
    assert_eq!(encode(0, 0, MAX_2_BITS), 3);
}

#[test]
fn field_limits_have_their_bit_widths() {
    assert_eq!(MAX_44_BITS, (1i64 << 44) - 1);
    assert_eq!(MAX_17_BITS, (1u32 << 17) - 1);
    assert_eq!(MAX_2_BITS, 3);
}

#[test]
fn decode_unpacks_the_three_fields() {
    assert_eq!(decode(2_621_445), IdParts { millis: 5, seq: 1, service_id: 1 });
    assert_eq!(decode(0), IdParts { millis: 0, seq: 0, service_id: 0 });
    assert_eq!(
        decode(i64::MAX),
        IdParts { millis: MAX_44_BITS, seq: MAX_17_BITS, service_id: MAX_2_BITS }
    );
    let id: i64 = 1_700_000_000_000 * 524_288 + 77 * 4 + 2;
    assert_eq!(decode(id), IdParts { millis: 1_700_000_000_000, seq: 77, service_id: 2 });
}

#[test]
fn decode_follows_the_bit_formulas_on_a_negative_number() {
    let parts = decode(-1);
    assert_eq!(parts.service_id, 3);
    assert_eq!(parts.seq, 131_071);
    assert_eq!(parts.millis, -1);
}

#[test]
fn decode_inverts_encode() {
    let millis_values: Vec<i64> = vec![0, 1, 2, 1_000, 1_700_000_000_000, MAX_44_BITS];
    let seq_values: Vec<u32> = vec![0, 1, 2, 65_536, MAX_17_BITS];
    for millis in millis_values.iter() {
        for seq in seq_values.iter() {
            for service_id in 0..=MAX_2_BITS {
                let id = encode(*millis, *seq, service_id);
                assert!(id >= 0);
                assert_eq!(decode(id), IdParts { millis: *millis, seq: *seq, service_id });
            }
        }
    }
}

#[test]
fn encode_orders_by_time_then_sequence() {
    assert!(encode(7, MAX_17_BITS, 3) < encode(8, 0, 0));
    assert!(encode(7, 5, 1) < encode(7, 6, 1));
    assert!(encode(7, 5, 0) < encode(7, 5, 1));
    assert!(encode(0, MAX_17_BITS, 2) < encode(1, 0, 2));
}
