use vstd::prelude::*;
use vstd::slice::slice_subrange;
use crate::address::{is_curve_point, p2wpkh_address, to_address, CompressedPublicKey, NetworkTag};
use crate::base58check::{
    base58_payload, checked_key_reads_back, decode, decoded, has_valid_checksum,
    is_base58_text, length_guard, verify_checksum, with_checksum, BODY_LEN, KEY_LEN,
};
use crate::derivation::{derivation_errors, derive_public, derived, ChildIndex};
use crate::error::KeyError;
use crate::extended_key::{key_data_of, serialize_layout, ExtendedKey};
use crate::retag::{relabeled_body, retag};
use crate::version::{prefix_round_trip, tag_of, version_tag, VersionTag};

verus! {

/// The path of the receive address number `index`: the external chain, then
/// the index.
pub open spec fn receive_path(index: u32) -> Seq<ChildIndex> {
    seq![ChildIndex::Normal { index: 0 }, ChildIndex::Normal { index }]
}

/// The body of the key that derivation starts from, for the text of an
/// extended public key in either recognized form. In this order: the text
/// decoded, its length held to 82 bytes, its version prefix recognized, its
/// checksum held to the body, the body relabeled to the generic version, the
/// key data a curve point.
pub open spec fn account_key(text: Seq<char>) -> Result<Seq<u8>, KeyError> {
    match decoded(text) {
        Err(e) => Err(e),
        Ok(bytes) => match tag_of(bytes.subrange(0, 4)) {
            None => Err(KeyError::UnsupportedKeyType),
            Some(_) => if !has_valid_checksum(bytes) {
                Err(KeyError::ChecksumMismatch)
            } else {
                let body = relabeled_body(bytes, VersionTag::MainnetBip44Public);
                if is_curve_point(key_data_of(body)) {
                    Ok(body)
                } else {
                    Err(KeyError::CurveError)
                }
            },
        },
    }
}

/// The mainnet receive address number `index` under the key with body
/// `parent`.
pub open spec fn address_at(parent: Seq<u8>, index: u32) -> Result<Seq<char>, KeyError> {
    match derived(parent, receive_path(index)) {
        Err(e) => Err(e),
        Ok(child) => Ok(p2wpkh_address(key_data_of(child), NetworkTag::Mainnet)),
    }
}

/// The first `count` receive addresses under `parent`, in index order; the
/// error of the lowest index that fails, if one does.
pub open spec fn addresses_of(parent: Seq<u8>, count: nat) -> Result<Seq<Seq<char>>, KeyError>
    decreases count,
{
    if count == 0 {
        Ok(Seq::empty())
    } else {
        match addresses_of(parent, (count - 1) as nat) {
            Err(e) => Err(e),
            Ok(list) => match address_at(parent, (count - 1) as u32) {
                Err(e) => Err(e),
                Ok(address) => Ok(list.push(address)),
            },
        }
    }
}

/// What `generate_addresses` yields.
pub open spec fn generated(text: Seq<char>, count: u32) -> Result<Seq<Seq<char>>, KeyError> {
    match account_key(text) {
        Err(e) => Err(e),
        Ok(parent) => addresses_of(parent, count as nat),
    }
}

/// Reads the text of an extended public key, `xpub` or `zpub`, into the key
/// that derivation starts from. In this order: a character outside the
/// Base58 alphabet gives `EncodingError`, a decoded length other than 82
/// `LengthError`, a version prefix that is neither of the two
/// `UnsupportedKeyType`, a wrong checksum `ChecksumMismatch`, key data that
/// is no curve point `CurveError`. The key comes out under the generic
/// version.
pub fn parse_account_key(text: &str) -> (result: Result<ExtendedKey, KeyError>)
    ensures
        match result {
            Ok(key) => account_key(text@) == Ok::<Seq<u8>, KeyError>(key.serialize()),
            Err(e) => account_key(text@) == Err::<Seq<u8>, KeyError>(e),
        },
        result is Err && result->Err_0 == KeyError::EncodingError <==> !is_base58_text(text@),
{
    let bytes = match decode(text) {
        Err(e) => {
            return Err(e);
        },
        Ok(bytes) => bytes,
    };
    let tag = match version_tag(bytes.as_slice()) {
        None => {
            return Err(KeyError::UnsupportedKeyType);
        },
        Some(tag) => tag,
    };
    if !verify_checksum(bytes.as_slice()) {
        return Err(KeyError::ChecksumMismatch);
    }
    let generic = match tag {
        VersionTag::MainnetBip44Public => bytes,
        VersionTag::MainnetBip84Public => {
            match retag(
                bytes.as_slice(),
                VersionTag::MainnetBip84Public,
                VersionTag::MainnetBip44Public,
            ) {
                Err(e) => {
                    return Err(e);
                },
                Ok(out) => out,
            }
        },
    };
    let ghost want = relabeled_body(bytes@, VersionTag::MainnetBip44Public);
    assert(generic@.subrange(0, BODY_LEN as int) =~= want) by {
        assert(generic@.subrange(0, BODY_LEN as int) =~= generic@.subrange(0, 4)
            + generic@.subrange(4, BODY_LEN as int));
    }
    let body = slice_subrange(generic.as_slice(), 0, BODY_LEN);
    let key = match ExtendedKey::from_bytes(body) {
        Err(e) => {
            return Err(e);
        },
        Ok(key) => key,
    };
    proof {
        serialize_layout(key);
    }
    match CompressedPublicKey::from_bytes(key.key_data) {
        None => Err(KeyError::CurveError),
        Some(_) => Ok(key),
    }
}

/// The mainnet receive address number `index` under `parent`: the child at
/// path {0, index}, its public key written as a native-segwit address.
pub fn receive_address(parent: &ExtendedKey, index: u32) -> (result: Result<String, KeyError>)
    ensures
        match result {
            Ok(address) => address_at(parent.serialize(), index) == Ok::<Seq<char>, KeyError>(
                address@,
            ),
            Err(e) => address_at(parent.serialize(), index) == Err::<Seq<char>, KeyError>(e),
        },
{
    let path: [ChildIndex; 2] = [ChildIndex::Normal { index: 0 }, ChildIndex::Normal { index }];
    assert(path@ =~= receive_path(index));
    let child = match derive_public(parent, path.as_slice()) {
        Err(e) => {
            return Err(e);
        },
        Ok(child) => child,
    };
    proof {
        serialize_layout(child);
    }
    let pubkey = CompressedPublicKey::from_point(child.key_data);
    Ok(to_address(&pubkey, NetworkTag::Mainnet))
}

/// The first `num_addresses` mainnet receive addresses of an extended public
/// key given as text, `xpub` or `zpub`: address number `i` stands at place
/// `i`. The first failure ends the batch with its error; no shorter list is
/// ever returned.
pub fn generate_addresses(extended_key: &str, num_addresses: u32) -> (result: Result<
    Vec<String>,
    KeyError,
>)
    ensures
        match result {
            Ok(list) => {
                &&& generated(extended_key@, num_addresses) matches Ok(want)
                &&& list@.len() == want.len()
                &&& forall|i: int| 0 <= i < list@.len() ==> (#[trigger] list@[i])@ == want[i]
            },
            Err(e) => generated(extended_key@, num_addresses) == Err::<Seq<Seq<char>>, KeyError>(
                e,
            ),
        },
        result matches Ok(list) ==> list@.len() == num_addresses,
        result is Err && result->Err_0 == KeyError::EncodingError <==> !is_base58_text(
            extended_key@,
        ),
{
    let parent = match parse_account_key(extended_key) {
        Err(e) => {
            return Err(e);
        },
        Ok(parent) => parent,
    };
    let mut list: Vec<String> = Vec::new();
    let mut i: u32 = 0;
    while i < num_addresses
        invariant
            i <= num_addresses,
            list@.len() == i,
            account_key(extended_key@) == Ok::<Seq<u8>, KeyError>(parent.serialize()),
            is_base58_text(extended_key@),
            addresses_of(parent.serialize(), i as nat) matches Ok(want) && want.len() == i
                && forall|j: int| 0 <= j < i ==> (#[trigger] list@[j])@ == want[j],
        decreases num_addresses - i,
    {
        match receive_address(&parent, i) {
            Err(e) => {
                proof {
                    if derived(parent.serialize(), receive_path(i)) is Err {
                        derivation_errors(parent.serialize(), receive_path(i));
                    }
                    let failed = (i + 1) as nat;
                    assert(addresses_of(parent.serialize(), (failed - 1) as nat) is Ok);
                    assert(addresses_of(parent.serialize(), failed) == Err::<
                        Seq<Seq<char>>,
                        KeyError,
                    >(e));
                    addresses_keep_failing(parent.serialize(), failed, num_addresses as nat);
                }
                return Err(e);
            },
            Ok(address) => {
                list.push(address);
            },
        }
        i = i + 1;
    }
    Ok(list)
}

/// Once the first `n` addresses cannot be had, no greater count can be had
/// either, and the error is the same.
pub proof fn addresses_keep_failing(parent: Seq<u8>, n: nat, count: nat)
    requires
        n <= count,
        addresses_of(parent, n) is Err,
    ensures
        addresses_of(parent, count) == addresses_of(parent, n),
    decreases count - n,
{
    if n < count {
        addresses_keep_failing(parent, n, (count - 1) as nat);
    }
}

/// A batch that succeeds holds exactly `count` addresses, and address number
/// `i` stands at place `i`; a batch succeeds only where every single
/// address can be had.
pub proof fn addresses_in_index_order(parent: Seq<u8>, count: nat)
    requires
        count <= u32::MAX,
    ensures
        addresses_of(parent, count) matches Ok(list) ==> {
            &&& list.len() == count
            &&& forall|i: int|
                0 <= i < count ==> address_at(parent, i as u32) == Ok::<Seq<char>, KeyError>(
                    #[trigger] list[i],
                )
        },
        addresses_of(parent, count) is Ok <==> forall|i: int|
            0 <= i < count ==> (#[trigger] address_at(parent, i as u32)) is Ok,
    decreases count,
{
    if count > 0 {
        addresses_in_index_order(parent, (count - 1) as nat);
        if addresses_of(parent, count) is Err {
            if addresses_of(parent, (count - 1) as nat) is Ok {
                assert(address_at(parent, (count - 1) as u32) is Err);
            }
        }
    }
}

/// An address stands twice in a batch only where the address text of the
/// two child keys is the same: whether the addresses of a batch differ is
/// decided by the hash and the curve arithmetic behind the keys, and by
/// nothing the batch adds.
pub proof fn repeated_address_means_colliding_keys(parent: Seq<u8>, count: nat, i: int, j: int)
    requires
        count <= u32::MAX,
        addresses_of(parent, count) is Ok,
        0 <= i < j < count,
    ensures
        derived(parent, receive_path(i as u32)) is Ok,
        derived(parent, receive_path(j as u32)) is Ok,
        addresses_of(parent, count)->Ok_0[i] == addresses_of(parent, count)->Ok_0[j]
            <==> p2wpkh_address(
            key_data_of(derived(parent, receive_path(i as u32))->Ok_0),
            NetworkTag::Mainnet,
        ) == p2wpkh_address(
            key_data_of(derived(parent, receive_path(j as u32))->Ok_0),
            NetworkTag::Mainnet,
        ),
{
    addresses_in_index_order(parent, count);
    let list = addresses_of(parent, count)->Ok_0;
    assert(address_at(parent, i as u32) == Ok::<Seq<char>, KeyError>(list[i]));
    assert(address_at(parent, j as u32) == Ok::<Seq<char>, KeyError>(list[j]));
}

/// A text that decodes to 81, 83 or any other number of bytes than 82 gives
/// `LengthError`, for every count and before version or checksum are looked
/// at.
pub proof fn wrong_length_is_refused(text: Seq<char>, count: u32)
    requires
        base58_payload(text) is Some,
        base58_payload(text)->Some_0.len() != KEY_LEN,
    ensures
        account_key(text) == Err::<Seq<u8>, KeyError>(KeyError::LengthError),
        generated(text, count) == Err::<Seq<Seq<char>>, KeyError>(KeyError::LengthError),
{
    length_guard(text);
}

/// A key of the right length under a recognized version whose checksum
/// does not fit is refused with `ChecksumMismatch`, for every count.
pub proof fn wrong_checksum_is_refused(text: Seq<char>, count: u32)
    requires
        decoded(text) is Ok,
        tag_of(decoded(text)->Ok_0.subrange(0, 4)) is Some,
        !has_valid_checksum(decoded(text)->Ok_0),
    ensures
        account_key(text) == Err::<Seq<u8>, KeyError>(KeyError::ChecksumMismatch),
        generated(text, count) == Err::<Seq<Seq<char>>, KeyError>(KeyError::ChecksumMismatch),
{
}

/// A key of the right length whose version prefix is neither of the
/// recognized ones gives `UnsupportedKeyType`, for every count, zero
/// included, and whatever its checksum: no address is ever made from it.
pub proof fn unknown_version_is_refused(text: Seq<char>, count: u32)
    requires
        decoded(text) is Ok,
        tag_of(decoded(text)->Ok_0.subrange(0, 4)) is None,
    ensures
        account_key(text) == Err::<Seq<u8>, KeyError>(KeyError::UnsupportedKeyType),
        generated(text, count) == Err::<Seq<Seq<char>>, KeyError>(
            KeyError::UnsupportedKeyType,
        ),
{
}

/// The two forms of a key name one account: a text that reads back as the
/// key of `text` relabeled to a recognized version gives the same key to
/// derive from, and so the same addresses or the same error, for every
/// count.
pub proof fn both_forms_name_one_account(
    text: Seq<char>,
    relabeled: Seq<char>,
    to: VersionTag,
    count: u32,
)
    requires
        decoded(text) is Ok,
        tag_of(decoded(text)->Ok_0.subrange(0, 4)) is Some,
        has_valid_checksum(decoded(text)->Ok_0),
        base58_payload(relabeled) == Some(
            with_checksum(relabeled_body(decoded(text)->Ok_0, to)),
        ),
    ensures
        account_key(relabeled) == account_key(text),
        generated(relabeled, count) == generated(text, count),
{
    let key = decoded(text)->Ok_0;
    let body = relabeled_body(key, to);
    let other = with_checksum(body);
    checked_key_reads_back(relabeled, body);
    prefix_round_trip(to, to.prefix());
    assert(other.subrange(0, 4) =~= to.prefix());
    assert(other.subrange(4, BODY_LEN as int) =~= key.subrange(4, BODY_LEN as int));
}

} // verus!
