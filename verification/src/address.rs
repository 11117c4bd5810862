use vstd::prelude::*;
use bitcoin::address::{Address, KnownHrp};

verus! {

/// The network an address is written for; it decides the human-readable
/// part: `bc`, `tb` or `bcrt`.
#[derive(Clone, Copy, Debug, PartialEq, Eq, Structural)]
pub enum NetworkTag {
    Mainnet,
    Testnets,
    Regtest,
}

/// Whether 33 bytes are the compressed encoding of a point on secp256k1, as
/// the curve library judges it.
pub uninterp spec fn is_curve_point(key_data: Seq<u8>) -> bool;

/// The native-segwit (P2WPKH, bech32) address of a compressed public key on
/// a network, as the `bitcoin` crate writes it.
pub uninterp spec fn p2wpkh_address(key_data: Seq<u8>, network: NetworkTag) -> Seq<char>;

/// A compressed public key: 33 bytes that the curve library accepts as a
/// point.
#[derive(Clone, Copy, Debug, PartialEq, Eq)]
pub struct CompressedPublicKey {
    bytes: [u8; 33],
}

/// Calls `bitcoin::CompressedPublicKey::from_slice` and keeps whether it
/// succeeded. Trusted: the outcome is a function of the 33 bytes alone.
#[verifier::external_body]
fn point_is_valid(key_data: &[u8; 33]) -> (valid: bool)
    ensures
        valid == is_curve_point(key_data@),
{
    bitcoin::CompressedPublicKey::from_slice(key_data).is_ok()
}

/// Calls `bitcoin::Address::p2wpkh` and writes the address with
/// `to_string`. Trusted: the text is a function of the key bytes and the
/// network alone. The key is read with
/// `bitcoin::CompressedPublicKey::from_slice`, which `requires` has succeed.
#[verifier::external_body]
fn p2wpkh(key_data: &[u8; 33], network: NetworkTag) -> (text: String)
    requires
        is_curve_point(key_data@),
    ensures
        text@ == p2wpkh_address(key_data@, network),
{
    let key = bitcoin::CompressedPublicKey::from_slice(key_data).expect("a curve point");
    let hrp = match network {
        NetworkTag::Mainnet => KnownHrp::Mainnet,
        NetworkTag::Testnets => KnownHrp::Testnets,
        NetworkTag::Regtest => KnownHrp::Regtest,
    };
    Address::p2wpkh(&key, hrp).to_string()
}

impl View for CompressedPublicKey {
    type V = Seq<u8>;

    /// The 33 bytes of the key.
    closed spec fn view(&self) -> Seq<u8> {
        self.bytes@
    }
}

impl CompressedPublicKey {
    #[verifier::type_invariant]
    spec fn is_point(self) -> bool {
        is_curve_point(self.bytes@)
    }

    /// Accepts 33 bytes as a key where they encode a curve point.
    pub fn from_bytes(key_data: [u8; 33]) -> (key: Option<CompressedPublicKey>)
        ensures
            key is Some <==> is_curve_point(key_data@),
            key matches Some(k) ==> k@ == key_data@,
    {
        if point_is_valid(&key_data) {
            Some(CompressedPublicKey { bytes: key_data })
        } else {
            None
        }
    }

    /// Takes 33 bytes that are known to encode a curve point as a key.
    pub(crate) fn from_point(key_data: [u8; 33]) -> (key: CompressedPublicKey)
        requires
            is_curve_point(key_data@),
        ensures
            key@ == key_data@,
    {
        CompressedPublicKey { bytes: key_data }
    }

    /// The 33 bytes of the key.
    pub fn to_bytes(&self) -> (key_data: [u8; 33])
        ensures
            key_data@ == self@,
            is_curve_point(key_data@),
    {
        proof {
            use_type_invariant(self);
        }
        self.bytes
    }
}

/// The native-segwit address of `pubkey` on `network`: the witness program
/// of the key, bech32-encoded at witness version 0 under the network's
/// human-readable part.
pub fn to_address(pubkey: &CompressedPublicKey, network: NetworkTag) -> (address: String)
    ensures
        address@ == p2wpkh_address(pubkey@, network),
{
    proof {
        use_type_invariant(pubkey);
    }
    p2wpkh(&pubkey.bytes, network)
}

} // verus!
