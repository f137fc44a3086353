use cid_proof_lib::{
    calculate_cid, create_proof_fixture, extract_public_values, fixture_file_name,
    hex_with_prefix, AbiDecodeError, CIDProofFixture, ProofSystem, PublicValuesStruct,
};

#[test]
fn hex_of_nothing_is_the_prefix() {
    assert_eq!(hex_with_prefix(&[]), "0x");
}

#[test]
fn hex_has_two_lower_case_digits_per_byte() {
    assert_eq!(hex_with_prefix(&[0x00, 0x0f, 0xa5, 0xff, 0x10]), "0x000fa5ff10");
}

#[test]
fn hex_covers_every_digit() {
    assert_eq!(
        hex_with_prefix(&[0x01, 0x23, 0x45, 0x67, 0x89, 0xab, 0xcd, 0xef]),
        "0x0123456789abcdef"
    );
}

#[test]
fn hex_of_text_is_not_the_text() {
    assert_eq!(hex_with_prefix(b"abc"), "0x616263");
}

#[test]
fn fixture_files_are_named_after_the_system() {
    assert_eq!(fixture_file_name(ProofSystem::Plonk), "plonk-fixture.json");
    assert_eq!(fixture_file_name(ProofSystem::Groth16), "groth16-fixture.json");
}

#[test]
fn fixture_holds_every_field() {
    let mut head = [0u8; 32];
    head[0] = 0x01;
    head[31] = 0xfe;
    let mut tail = [0u8; 16];
    tail[3] = 0xad;
    let values =
        PublicValuesStruct { cid_bytes: head, cid_bytes_remainder: tail, cid_length: 36 };
    let committed = values.abi_encode();
    let fixture =
        create_proof_fixture(&committed, String::from("0x00aa"), &[0xbe, 0xef, 0x00]).unwrap();
    assert_eq!(
        fixture,
        CIDProofFixture {
            cid_bytes: String::from(
                "0x01000000000000000000000000000000000000000000000000000000000000fe"
            ),
            cid_bytes_remainder: String::from("0x000000ad000000000000000000000000"),
            cid_length: 36,
            vkey: String::from("0x00aa"),
            public_values: String::from(
                "0x01000000000000000000000000000000000000000000000000000000000000fe\
                 000000ad00000000000000000000000000000000000000000000000000000000\
                 0000000000000000000000000000000000000000000000000000000000000024"
            ),
            proof: String::from("0xbeef00"),
        }
    );
}

#[test]
fn fixture_of_abc() {
    let (_, buffer) = calculate_cid(b"abc");
    let committed = extract_public_values(buffer).abi_encode();
    let fixture = create_proof_fixture(&committed, String::new(), &[]).unwrap();
    assert_eq!(
        fixture.cid_bytes,
        "0x01551220ba7816bf8f01cfea414140de5dae2223b00361a396177a9cb410ff61"
    );
    assert_eq!(fixture.cid_bytes_remainder, "0xf20015ad000000000000000000000000");
    assert_eq!(fixture.cid_length, 36);
    assert_eq!(fixture.vkey, "");
    assert_eq!(fixture.public_values.len(), 2 + 2 * 96);
    assert_eq!(fixture.proof, "0x");
}

#[test]
fn fixture_passes_over_padding_and_trailing_bytes() {
    let mut committed = vec![0u8; 100];
    committed[0] = 0x11;
    committed[32] = 0x22;
    committed[50] = 0x33;
    committed[70] = 0x44;
    committed[95] = 7;
    committed[99] = 0x55;
    let fixture = create_proof_fixture(&committed, String::from("k"), &[1]).unwrap();
    assert_eq!(
        fixture.cid_bytes,
        "0x1100000000000000000000000000000000000000000000000000000000000000"
    );
    assert_eq!(fixture.cid_bytes_remainder, "0x22000000000000000000000000000000");
    assert_eq!(fixture.cid_length, 7);
    assert_eq!(fixture.vkey, "k");
    assert_eq!(fixture.public_values.len(), 2 + 2 * 100);
    assert_eq!(fixture.proof, "0x01");
}

#[test]
fn fixture_needs_three_words() {
    assert_eq!(
        create_proof_fixture(&[0u8; 95], String::new(), &[]),
        Err(AbiDecodeError::TooShort)
    );
    assert_eq!(create_proof_fixture(&[], String::new(), &[]), Err(AbiDecodeError::TooShort));
    assert!(create_proof_fixture(&[0u8; 96], String::new(), &[]).is_ok());
}
