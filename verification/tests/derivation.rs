use hd_keys::addresses::parse_account_key;
use hd_keys::derivation::{account_path, child_number, derive_child, derive_public, ChildIndex};
use hd_keys::error::KeyError;
use hd_keys::extended_key::ExtendedKey;
use std::str::FromStr;

const V1_M_0H: &str = "xpub68Gmy5EdvgibQVfPdqkBBCHxA5htiqg55crXYuXoQRKfDBFA1WEjWgP6LHhwBZeNK1VTsfTFUHCdrfp1bgwQ9xv5ski8PX9rL2dZXvgGDnw";
const V1_M_0H_1: &str = "xpub6ASuArnXKPbfEwhqN6e3mwBcDTgzisQN1wXN9BJcM47sSikHjJf3UFHKkNAWbWMiGj7Wf5uMash7SyYq527Hqck2AxYysAA7xmALppuCkwQ";
const V2_M: &str = "xpub661MyMwAqRbcFW31YEwpkMuc5THy2PSt5bDMsktWQcFF8syAmRUapSCGu8ED9W6oDMSgv6Zz8idoc4a6mr8BDzTJY47LJhkJ8UB7WEGuduB";
const V2_M_0: &str = "xpub69H7F5d8KSRgmmdJg2KhpAK8SR3DjMwAdkxj3ZuxV27CprR9LgpeyGmXUbC6wb7ERfvrnKZjXoUmmDznezpbZb7ap6r1D3tgFxHmwMkQTPH";
const ACCOUNT_ZPUB: &str = "zpub6rFR7y4Q2AijBEqTUquhVz398htDFrtymD9xYYfG1m4wAcvPhXNfE3EfH1r1ADqtfSdVCToUG868RvUUkgDKf31mGDtKsAYz2oz2AGutZYs";

fn normal(index: u32) -> ChildIndex {
    ChildIndex::Normal { index }
}

fn hardened(index: u32) -> ChildIndex {
    ChildIndex::Hardened { index }
}

#[test]
fn empty_path_returns_the_parent_unchanged() {
    let parent = parse_account_key(V2_M).unwrap();
    let same = derive_public(&parent, &[]).unwrap();
    assert_eq!(same, parent);
    assert_eq!(same.to_bytes(), parent.to_bytes());
}

#[test]
fn deriving_twice_gives_identical_bytes() {
    let parent = parse_account_key(ACCOUNT_ZPUB).unwrap();
    let path = [normal(0), normal(7)];
    let first = derive_public(&parent, &path).unwrap();
    let second = derive_public(&parent, &path).unwrap();
    assert_eq!(first.to_bytes(), second.to_bytes());
    assert_eq!(first.to_text(), second.to_text());
}

#[test]
fn bip32_vector_two_first_child() {
    let parent = parse_account_key(V2_M).unwrap();
    let child = derive_public(&parent, &[normal(0)]).unwrap();
    assert_eq!(child.to_text(), V2_M_0);
}

#[test]
fn bip32_vector_one_normal_child_of_hardened_key() {
    let parent = parse_account_key(V1_M_0H).unwrap();
    let child = derive_child(&parent, normal(1)).unwrap();
    assert_eq!(child.to_text(), V1_M_0H_1);
}

#[test]
fn child_fields() {
    let parent = parse_account_key(V1_M_0H).unwrap();
    let child = derive_child(&parent, normal(1)).unwrap();
    assert_eq!(child.version, parent.version);
    assert_eq!(child.depth, parent.depth + 1);
    assert_eq!(child.child_number, 1);
    let theirs = bitcoin::bip32::Xpub::from_str(V1_M_0H).unwrap();
    assert_eq!(child.parent_fingerprint, theirs.fingerprint().to_bytes());
    assert_ne!(child.chain_code, parent.chain_code);
    assert_ne!(child.key_data, parent.key_data);
}

#[test]
fn path_is_walked_left_to_right() {
    let parent = parse_account_key(ACCOUNT_ZPUB).unwrap();
    let step = derive_child(&parent, normal(0)).unwrap();
    let two_calls = derive_child(&step, normal(5)).unwrap();
    let one_call = derive_public(&parent, &[normal(0), normal(5)]).unwrap();
    assert_eq!(one_call, two_calls);
    assert_eq!(one_call.depth, parent.depth + 2);
    let reversed = derive_public(&parent, &[normal(5), normal(0)]).unwrap();
    assert_ne!(one_call, reversed);
}

#[test]
fn derive_public_agrees_with_the_bitcoin_crate() {
    let secp = bitcoin::secp256k1::Secp256k1::new();
    let theirs = bitcoin::bip32::Xpub::from_str(V2_M).unwrap();
    let ours = parse_account_key(V2_M).unwrap();
    for i in [0u32, 1, 2, 1000, 0x7fff_ffff] {
        let path = vec![
            bitcoin::bip32::ChildNumber::Normal { index: 0 },
            bitcoin::bip32::ChildNumber::Normal { index: i },
        ];
        let want = theirs.derive_pub(&secp, &path).unwrap();
        let got = derive_public(&ours, &[normal(0), normal(i)]).unwrap();
        assert_eq!(got.to_bytes(), want.encode());
    }
}

#[test]
fn zpub_version_is_kept_by_derivation() {
    let mut parent = parse_account_key(ACCOUNT_ZPUB).unwrap();
    parent.version = [0x04, 0xb2, 0x47, 0x46];
    let child = derive_public(&parent, &[normal(0), normal(0)]).unwrap();
    assert_eq!(child.version, [0x04, 0xb2, 0x47, 0x46]);
    assert!(child.to_text().starts_with("zpub"));
}

#[test]
fn hardened_index_is_refused() {
    let parent = parse_account_key(ACCOUNT_ZPUB).unwrap();
    let refused = Err(KeyError::HardenedDerivationUnsupported);
    assert_eq!(derive_child(&parent, hardened(0)), refused);
    assert_eq!(derive_public(&parent, &[hardened(84)]), refused);
    assert_eq!(derive_public(&parent, &[normal(0), hardened(1)]), refused);
    assert_eq!(derive_public(&parent, &[hardened(0), normal(1)]), refused);
    assert_eq!(derive_public(&parent, &account_path()), refused);
}

#[test]
fn invalid_key_data_is_a_curve_error() {
    let mut parent = parse_account_key(ACCOUNT_ZPUB).unwrap();
    parent.key_data = [0u8; 33];
    assert_eq!(derive_child(&parent, normal(0)), Err(KeyError::CurveError));
    assert_eq!(derive_public(&parent, &[normal(0), normal(1)]), Err(KeyError::CurveError));
    assert_eq!(derive_public(&parent, &[]), Ok(parent));
    parent.key_data = [0xff; 33];
    assert_eq!(derive_child(&parent, normal(0)), Err(KeyError::CurveError));
}

#[test]
fn depth_255_cannot_go_deeper() {
    let mut parent = parse_account_key(ACCOUNT_ZPUB).unwrap();
    parent.depth = 254;
    let child = derive_child(&parent, normal(0)).unwrap();
    assert_eq!(child.depth, 255);
    assert_eq!(derive_child(&child, normal(0)), Err(KeyError::MaximumDepthExceeded));
    assert_eq!(
        derive_public(&parent, &[normal(0), normal(0)]),
        Err(KeyError::MaximumDepthExceeded)
    );
    assert_eq!(derive_child(&child, hardened(0)), Err(KeyError::HardenedDerivationUnsupported));
}

#[test]
fn first_failing_step_gives_the_error() {
    let mut parent = parse_account_key(ACCOUNT_ZPUB).unwrap();
    parent.depth = 255;
    assert_eq!(
        derive_public(&parent, &[normal(0), hardened(0)]),
        Err(KeyError::MaximumDepthExceeded)
    );
    assert_eq!(
        derive_public(&parent, &[hardened(0), normal(0)]),
        Err(KeyError::HardenedDerivationUnsupported)
    );
}

#[test]
fn child_numbers() {
    assert_eq!(child_number(normal(0)), 0);
    assert_eq!(child_number(normal(5)), 5);
    assert_eq!(child_number(hardened(0)), 0x8000_0000);
    assert_eq!(child_number(hardened(84)), 0x8000_0054);
    assert_eq!(
        child_number(hardened(84)),
        u32::from(bitcoin::bip32::ChildNumber::Hardened { index: 84 })
    );
}

#[test]
fn account_path_is_bip84() {
    assert_eq!(account_path(), vec![hardened(84), hardened(0), hardened(0)]);
    let theirs = bitcoin::bip32::DerivationPath::from_str("m/84'/0'/0'").unwrap();
    let numbers: Vec<u32> = account_path().iter().map(|step| child_number(*step)).collect();
    assert_eq!(numbers, theirs.to_u32_vec());
}

#[test]
fn key_with_plain_fields_can_be_written_by_hand() {
    let parent = parse_account_key(V2_M).unwrap();
    let by_hand = ExtendedKey {
        version: parent.version,
        depth: 0,
        parent_fingerprint: [0; 4],
        child_number: 0,
        chain_code: parent.chain_code,
        key_data: parent.key_data,
    };
    assert_eq!(by_hand, parent);
}

#[test]
fn derived_key_data_is_a_curve_point() {
    let parent = parse_account_key(ACCOUNT_ZPUB).unwrap();
    for i in [0u32, 1, 99] {
        let child = derive_public(&parent, &[normal(0), normal(i)]).unwrap();
        assert!(child.public_key().is_some());
        assert!(bitcoin::secp256k1::PublicKey::from_slice(&child.key_data).is_ok());
    }
}
