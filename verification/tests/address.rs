use hd_keys::address::{to_address, CompressedPublicKey, NetworkTag};

fn hex(text: &str) -> Vec<u8> {
    (0..text.len() / 2).map(|i| u8::from_str_radix(&text[2 * i..2 * i + 2], 16).unwrap()).collect()
}

fn key(text: &str) -> [u8; 33] {
    let mut bytes = [0u8; 33];
    bytes.copy_from_slice(&hex(text));
    bytes
}

const GENERATOR: &str = "0279be667ef9dcbbac55a06295ce870b07029bfcdb2dce28d959f2815b16f81798";
const BIP84_FIRST: &str = "0330d54fd0dd420a6e5f8d3624f5f3482cae350f79d5f0753bf5beef9c2d91af3c";

#[test]
fn address_of_the_generator_point_on_each_network() {
    let pubkey = CompressedPublicKey::from_bytes(key(GENERATOR)).unwrap();
    assert_eq!(to_address(&pubkey, NetworkTag::Mainnet), "bc1qw508d6qejxtdg4y5r3zarvary0c5xw7kv8f3t4");
    assert_eq!(to_address(&pubkey, NetworkTag::Testnets), "tb1qw508d6qejxtdg4y5r3zarvary0c5xw7kxpjzsx");
    assert_eq!(to_address(&pubkey, NetworkTag::Regtest), "bcrt1qw508d6qejxtdg4y5r3zarvary0c5xw7kygt080");
}

#[test]
fn address_of_the_bip84_first_receive_key() {
    let pubkey = CompressedPublicKey::from_bytes(key(BIP84_FIRST)).unwrap();
    assert_eq!(to_address(&pubkey, NetworkTag::Mainnet), "bc1qcr8te4kr609gcawutmrza0j4xv80jy8z306fyu");
}

#[test]
fn to_address_agrees_with_the_bitcoin_crate() {
    let bytes = key(BIP84_FIRST);
    let theirs = bitcoin::CompressedPublicKey::from_slice(&bytes).unwrap();
    let want = bitcoin::Address::p2wpkh(&theirs, bitcoin::address::KnownHrp::Testnets).to_string();
    let ours = CompressedPublicKey::from_bytes(bytes).unwrap();
    assert_eq!(to_address(&ours, NetworkTag::Testnets), want);
}

#[test]
fn from_bytes_keeps_the_bytes() {
    let bytes = key(GENERATOR);
    assert_eq!(CompressedPublicKey::from_bytes(bytes).unwrap().to_bytes(), bytes);
}

#[test]
fn from_bytes_refuses_what_is_no_point() {
    assert_eq!(CompressedPublicKey::from_bytes([0u8; 33]), None);
    assert_eq!(CompressedPublicKey::from_bytes([0xff; 33]), None);
    // The right x with a prefix that is neither 02 nor 03.
    let mut wrong_prefix = key(GENERATOR);
    wrong_prefix[0] = 0x04;
    assert_eq!(CompressedPublicKey::from_bytes(wrong_prefix), None);
    // x = 5 has no point on the curve.
    let mut off_curve = [0u8; 33];
    off_curve[0] = 0x02;
    off_curve[32] = 5;
    assert_eq!(CompressedPublicKey::from_bytes(off_curve), None);
}

#[test]
fn both_parities_are_points_with_different_addresses() {
    let even = key(GENERATOR);
    let mut odd = even;
    odd[0] = 0x03;
    let even = CompressedPublicKey::from_bytes(even).unwrap();
    let odd = CompressedPublicKey::from_bytes(odd).unwrap();
    assert_ne!(to_address(&even, NetworkTag::Mainnet), to_address(&odd, NetworkTag::Mainnet));
}
