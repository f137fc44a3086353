use cid_proof_lib::{extract_public_values, PublicValuesStruct};

#[test]
fn all_zero_buffer_has_length_zero() {
    let values = extract_public_values([0u8; 48]);
    assert_eq!(
        values,
        PublicValuesStruct { cid_bytes: [0u8; 32], cid_bytes_remainder: [0u8; 16], cid_length: 0 }
    );
}

#[test]
fn full_buffer_has_length_48() {
    let values = extract_public_values([0xffu8; 48]);
    assert_eq!(values.cid_bytes, [0xffu8; 32]);
    assert_eq!(values.cid_bytes_remainder, [0xffu8; 16]);
    assert_eq!(values.cid_length, 48);
}

#[test]
fn only_first_byte_set_has_length_one() {
    let mut buffer = [0u8; 48];
    buffer[0] = 1;
    assert_eq!(extract_public_values(buffer).cid_length, 1);
}

#[test]
fn only_last_byte_set_has_length_48() {
    let mut buffer = [0u8; 48];
    buffer[47] = 1;
    let values = extract_public_values(buffer);
    assert_eq!(values.cid_length, 48);
    assert_eq!(values.cid_bytes, [0u8; 32]);
    assert_eq!(values.cid_bytes_remainder[15], 1);
}

#[test]
fn the_last_non_zero_byte_decides() {
    let mut buffer = [0u8; 48];
    buffer[0] = 7;
    buffer[10] = 7;
    buffer[33] = 7;
    assert_eq!(extract_public_values(buffer).cid_length, 34);
    buffer[33] = 0;
    assert_eq!(extract_public_values(buffer).cid_length, 11);
    buffer[10] = 0;
    assert_eq!(extract_public_values(buffer).cid_length, 1);
    buffer[0] = 0;
    assert_eq!(extract_public_values(buffer).cid_length, 0);
}

#[test]
fn length_at_the_segment_boundary() {
    let mut buffer = [0u8; 48];
    buffer[31] = 9;
    assert_eq!(extract_public_values(buffer).cid_length, 32);
    buffer[32] = 9;
    assert_eq!(extract_public_values(buffer).cid_length, 33);
}

#[test]
fn segments_are_the_two_parts_of_the_buffer() {
    let mut buffer = [0u8; 48];
    for (i, b) in buffer.iter_mut().enumerate() {
        *b = 200 - i as u8;
    }
    let values = extract_public_values(buffer);
    assert_eq!(&values.cid_bytes[..], &buffer[..32]);
    assert_eq!(&values.cid_bytes_remainder[..], &buffer[32..]);
}

#[test]
fn segments_concatenate_to_the_buffer() {
    let buffers: [[u8; 48]; 3] = [[0u8; 48], [0xa5u8; 48], {
        let mut b = [0u8; 48];
        for (i, x) in b.iter_mut().enumerate() {
            *x = (i * 5) as u8;
        }
        b
    }];
    for buffer in buffers {
        let values = extract_public_values(buffer);
        let mut joined = Vec::new();
        joined.extend_from_slice(&values.cid_bytes);
        joined.extend_from_slice(&values.cid_bytes_remainder);
        assert_eq!(&joined[..], &buffer[..]);
    }
}

#[test]
fn extraction_is_repeatable() {
    let mut buffer = [0u8; 48];
    buffer[5] = 1;
    assert_eq!(extract_public_values(buffer), extract_public_values(buffer));
}

#[test]
fn cid_hex_of_zeros() {
    let values = extract_public_values([0u8; 48]);
    let mut expected = String::from("0x");
    for _ in 0..96 {
        expected.push('0');
    }
    assert_eq!(values.cid_hex(), expected);
}

#[test]
fn cid_hex_joins_both_segments() {
    let mut buffer = [0u8; 48];
    buffer[0] = 0x01;
    buffer[1] = 0x55;
    buffer[31] = 0xab;
    buffer[32] = 0xcd;
    buffer[47] = 0x0f;
    let values = extract_public_values(buffer);
    assert_eq!(
        values.cid_hex(),
        "0x01550000000000000000000000000000000000000000000000000000000000ab\
         cd00000000000000000000000000000f"
    );
}
