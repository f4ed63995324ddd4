use tx_provenance::address::{accept_address, decode_address};
use tx_provenance::error::ReportError;

fn address_p2wpkh(program: [u8; 20]) -> Vec<u8> {
    let mut script = vec![0x00, 0x14];
    script.extend_from_slice(&program);
    script
}

fn address_p2pkh(hash: [u8; 20]) -> Vec<u8> {
    let mut script = vec![0x76, 0xa9, 0x14];
    script.extend_from_slice(&hash);
    script.push(0x88);
    script.push(0xac);
    script
}

fn address_p2sh(hash: [u8; 20]) -> Vec<u8> {
    let mut script = vec![0xa9, 0x14];
    script.extend_from_slice(&hash);
    script.push(0x87);
    script
}

const WITNESS_PROGRAM: [u8; 20] = [
    0x75, 0x1e, 0x76, 0xe8, 0x19, 0x91, 0x96, 0xd4, 0x54, 0x94, 0x1c, 0x45, 0xd1, 0xb3, 0xa3,
    0x23, 0xf1, 0x43, 0x3b, 0xd6,
];

#[test]
fn decodes_witness_key_hash_script_to_regtest_address() {
    let decoded = decode_address(&address_p2wpkh(WITNESS_PROGRAM));
    assert_eq!(decoded, Ok("bcrt1qw508d6qejxtdg4y5r3zarvary0c5xw7kygt080".to_string()));
}

#[test]
fn decoded_address_is_not_the_script() {
    let script = address_p2wpkh([0x11; 20]);
    let decoded = decode_address(&script).unwrap();
    assert!(decoded.starts_with("bcrt1q"));
    assert_ne!(decoded.as_bytes(), script.as_slice());
    assert_eq!(decoded.len(), 44);
}

#[test]
fn decodes_key_hash_script_as_the_crate_renders_it() {
    let hash = [0x42u8; 20];
    let expected = bitcoin::Address::p2pkh(
        <bitcoin::PubkeyHash as bitcoin::hashes::Hash>::from_byte_array(hash),
        bitcoin::Network::Regtest,
    )
    .to_string();
    let decoded = decode_address(&address_p2pkh(hash)).unwrap();
    assert_eq!(decoded, expected);
    assert!(decoded.starts_with('m') || decoded.starts_with('n'));
}

#[test]
fn decodes_script_hash_script() {
    let decoded = decode_address(&address_p2sh([0x07; 20])).unwrap();
    assert!(decoded.starts_with('2'));
}

#[test]
fn decodes_taproot_script() {
    let mut script = vec![0x51, 0x20];
    script.extend_from_slice(&[0x99; 32]);
    let decoded = decode_address(&script).unwrap();
    assert!(decoded.starts_with("bcrt1p"));
}

#[test]
fn different_programs_decode_to_different_addresses() {
    let first = decode_address(&address_p2wpkh([0x01; 20])).unwrap();
    let second = decode_address(&address_p2wpkh([0x02; 20])).unwrap();
    assert_ne!(first, second);
}

#[test]
fn data_carrier_script_does_not_decode() {
    let script = vec![0x6a, 0x04, 0xde, 0xad, 0xbe, 0xef];
    assert_eq!(decode_address(&script), Err(ReportError::AddressDecodeFailure));
}

#[test]
fn empty_script_does_not_decode() {
    assert_eq!(decode_address(&Vec::new()), Err(ReportError::AddressDecodeFailure));
}

#[test]
fn bare_public_key_script_does_not_decode() {
    let mut script = vec![0x21];
    script.extend_from_slice(&[0x02; 33]);
    script.push(0xac);
    assert_eq!(decode_address(&script), Err(ReportError::AddressDecodeFailure));
}

#[test]
fn witness_program_of_wrong_length_does_not_decode() {
    let mut script = vec![0x00, 0x15];
    script.extend_from_slice(&[0x33; 21]);
    assert_eq!(decode_address(&script), Err(ReportError::AddressDecodeFailure));
}

#[test]
fn accept_address_keeps_a_text() {
    assert_eq!(accept_address(Some("bcrt1qexample".to_string())), Ok("bcrt1qexample".to_string()));
}

#[test]
fn accept_address_refuses_nothing() {
    assert_eq!(accept_address(None), Err(ReportError::AddressDecodeFailure));
}

#[test]
fn accept_address_refuses_the_empty_text() {
    assert_eq!(accept_address(Some(String::new())), Err(ReportError::AddressDecodeFailure));
}
