use vstd::prelude::*;
use bitcoin::bip32::{ChainCode, ChildNumber, Fingerprint, Xpub};
use bitcoin::secp256k1::{PublicKey, Secp256k1};
use bitcoin::NetworkKind;
use crate::address::is_curve_point;
use crate::error::KeyError;
use crate::extended_key::{
    be_bytes, be_round_trip_value, chain_code_of, child_number_of, depth_of, key_data_of,
    parent_fingerprint_of, serialize_is_injective, serialize_layout, version_of, ExtendedKey,
};

verus! {

/// One step of a derivation path.
#[derive(Clone, Copy, Debug, PartialEq, Eq, Structural)]
pub enum ChildIndex {
    /// A step that the public key alone can take.
    Normal { index: u32 },
    /// A step that needs the private key.
    Hardened { index: u32 },
}

impl ChildIndex {
    /// The child number as a serialized key records it: the index, with the
    /// top bit set for a hardened step.
    pub open spec fn number(self) -> u32 {
        match self {
            ChildIndex::Normal { index } => index,
            ChildIndex::Hardened { index } => index | 0x8000_0000u32,
        }
    }
}

/// The path of a native-segwit account, m/84'/0'/0': purpose 84, coin type 0
/// (mainnet), account 0, each hardened.
pub open spec fn bip84_account_path() -> Seq<ChildIndex> {
    seq![
        ChildIndex::Hardened { index: 84 },
        ChildIndex::Hardened { index: 0 },
        ChildIndex::Hardened { index: 0 },
    ]
}

/// What BIP-32 public derivation makes of a parent's chain code and key data
/// at a normal index, as the `bitcoin` crate computes it: the fingerprint of
/// the parent key, the child's chain code and the child's key data. `None`
/// where the key data is no curve point or the point arithmetic fails.
pub uninterp spec fn public_child(chain_code: Seq<u8>, key_data: Seq<u8>, index: u32) -> Option<
    ([u8; 4], [u8; 32], [u8; 33]),
>;

/// Calls `bitcoin::bip32::Xpub::ckd_pub` at a normal index, on a parent made
/// of the given chain code and key data. Trusted: of the child that comes
/// back, the parent fingerprint, the chain code and the serialized public
/// key (in this order) are a function of the chain code, the key data and
/// the index alone; the call fails where `secp256k1::PublicKey::from_slice`
/// refuses the key data or the tweak cannot be applied. The parent is given
/// depth 0, so the call's own depth limit is never met. Where a child comes
/// back, the key data was accepted as a curve point, and the child's key
/// data, being the serialization of a public key, is one as well.
#[verifier::external_body]
fn ckd_pub(chain_code: &[u8; 32], key_data: &[u8; 33], index: u32) -> (child: Option<
    ([u8; 4], [u8; 32], [u8; 33]),
>)
    ensures
        child == public_child(chain_code@, key_data@, index),
        child matches Some(c) ==> is_curve_point(key_data@) && is_curve_point(c.2@),
{
    let parent = Xpub {
        network: NetworkKind::Main,
        depth: 0,
        parent_fingerprint: Fingerprint::default(),
        child_number: ChildNumber::Normal { index: 0 },
        public_key: PublicKey::from_slice(key_data).ok()?,
        chain_code: ChainCode::from(*chain_code),
    };
    let child = parent.ckd_pub(&Secp256k1::verification_only(), ChildNumber::Normal { index }).ok()?;
    Some((child.parent_fingerprint.to_bytes(), child.chain_code.to_bytes(), child.public_key.serialize()))
}

/// The body of the child of `parent` at `index`: the parent's version, its
/// depth plus one, the fingerprint of the parent key, the index, and the
/// chain code and key data that the curve arithmetic yields.
pub open spec fn child_of(parent: Seq<u8>, index: ChildIndex) -> Result<Seq<u8>, KeyError> {
    match index {
        ChildIndex::Hardened { .. } => Err(KeyError::HardenedDerivationUnsupported),
        ChildIndex::Normal { index } => match public_child(
            chain_code_of(parent),
            key_data_of(parent),
            index,
        ) {
            None => Err(KeyError::CurveError),
            Some(material) => if depth_of(parent) == u8::MAX {
                Err(KeyError::MaximumDepthExceeded)
            } else {
                Ok(
                    version_of(parent) + seq![(depth_of(parent) + 1) as u8] + material.0@
                        + be_bytes(index) + material.1@ + material.2@,
                )
            },
        },
    }
}

/// The body of the descendant of `parent` along `path`, the steps taken from
/// left to right; the first step that fails gives the error.
pub open spec fn derived(parent: Seq<u8>, path: Seq<ChildIndex>) -> Result<Seq<u8>, KeyError>
    decreases path.len(),
{
    if path.len() == 0 {
        Ok(parent)
    } else {
        match derived(parent, path.drop_last()) {
            Err(e) => Err(e),
            Ok(key) => child_of(key, path.last()),
        }
    }
}

/// The child number of `index` as a serialized key records it.
pub fn child_number(index: ChildIndex) -> (number: u32)
    ensures
        number == index.number(),
{
    match index {
        ChildIndex::Normal { index } => index,
        ChildIndex::Hardened { index } => index | 0x8000_0000u32,
    }
}

/// The path m/84'/0'/0' from the master key to the first native-segwit
/// account. Every step is hardened: only the private key can walk it.
pub fn account_path() -> (path: Vec<ChildIndex>)
    ensures
        path@ == bip84_account_path(),
{
    let mut path: Vec<ChildIndex> = Vec::new();
    path.push(ChildIndex::Hardened { index: 84 });
    path.push(ChildIndex::Hardened { index: 0 });
    path.push(ChildIndex::Hardened { index: 0 });
    assert(path@ =~= bip84_account_path());
    path
}

/// Derives the child of `parent` at `index`. A hardened index gives
/// `HardenedDerivationUnsupported`; key data that is no curve point, or a
/// failure of the point arithmetic, gives `CurveError`; a parent at depth 255
/// gives `MaximumDepthExceeded`.
pub fn derive_child(parent: &ExtendedKey, index: ChildIndex) -> (result: Result<
    ExtendedKey,
    KeyError,
>)
    ensures
        match result {
            Ok(child) => child_of(parent.serialize(), index) == Ok::<Seq<u8>, KeyError>(
                child.serialize(),
            ),
            Err(e) => child_of(parent.serialize(), index) == Err::<Seq<u8>, KeyError>(e),
        },
        result matches Ok(child) ==> is_curve_point(parent.key_data@) && is_curve_point(
            child.key_data@,
        ),
        index is Normal && !is_curve_point(parent.key_data@) ==> result == Err::<
            ExtendedKey,
            KeyError,
        >(KeyError::CurveError),
{
    proof {
        serialize_layout(*parent);
    }
    match index {
        ChildIndex::Hardened { .. } => Err(KeyError::HardenedDerivationUnsupported),
        ChildIndex::Normal { index } => match ckd_pub(&parent.chain_code, &parent.key_data, index) {
            None => Err(KeyError::CurveError),
            Some(material) => {
                if parent.depth == u8::MAX {
                    Err(KeyError::MaximumDepthExceeded)
                } else {
                    let child = ExtendedKey {
                        version: parent.version,
                        depth: parent.depth + 1,
                        parent_fingerprint: material.0,
                        child_number: index,
                        chain_code: material.1,
                        key_data: material.2,
                    };
                    assert(child.serialize() =~= child_of(
                        parent.serialize(),
                        ChildIndex::Normal { index },
                    )->Ok_0);
                    Ok(child)
                }
            },
        },
    }
}

/// Derives the descendant of `parent` along `path`, one step after the
/// other from left to right. The empty path gives the parent itself. The
/// first step that fails ends the derivation with its error.
pub fn derive_public(parent: &ExtendedKey, path: &[ChildIndex]) -> (result: Result<
    ExtendedKey,
    KeyError,
>)
    ensures
        match result {
            Ok(key) => derived(parent.serialize(), path@) == Ok::<Seq<u8>, KeyError>(
                key.serialize(),
            ),
            Err(e) => derived(parent.serialize(), path@) == Err::<Seq<u8>, KeyError>(e),
        },
        result matches Ok(key) ==> path@.len() > 0 ==> is_curve_point(key.key_data@),
{
    let mut key = *parent;
    let mut i: usize = 0;
    assert(path@.take(0) =~= Seq::<ChildIndex>::empty());
    while i < path.len()
        invariant
            i <= path.len(),
            derived(parent.serialize(), path@.take(i as int)) == Ok::<Seq<u8>, KeyError>(
                key.serialize(),
            ),
            i > 0 ==> is_curve_point(key.key_data@),
        decreases path.len() - i,
    {
        let ghost before = path@.take(i as int);
        let ghost upto = path@.take(i + 1);
        proof {
            assert(upto.drop_last() =~= before);
            assert(upto.last() == path@[i as int]);
        }
        match derive_child(&key, path[i]) {
            Err(e) => {
                proof {
                    derived_keeps_failing(parent.serialize(), path@, i + 1);
                }
                return Err(e);
            },
            Ok(child) => {
                key = child;
            },
        }
        i = i + 1;
    }
    assert(path@.take(i as int) =~= path@);
    Ok(key)
}

/// Once a prefix of the path has failed, the whole path fails with the same
/// error: no later step is taken.
pub proof fn derived_keeps_failing(parent: Seq<u8>, path: Seq<ChildIndex>, n: int)
    requires
        0 <= n <= path.len(),
        derived(parent, path.take(n)) is Err,
    ensures
        derived(parent, path) == derived(parent, path.take(n)),
    decreases path.len() - n,
{
    if n == path.len() {
        assert(path.take(n) =~= path);
    } else {
        assert(path.take(n + 1).drop_last() =~= path.take(n));
        derived_keeps_failing(parent, path, n + 1);
    }
}

/// Derivation fails in three ways only: at a hardened index, in the curve
/// arithmetic, or at the depth limit.
pub proof fn derivation_errors(parent: Seq<u8>, path: Seq<ChildIndex>)
    requires
        derived(parent, path) is Err,
    ensures
        ({
            let e = derived(parent, path)->Err_0;
            ||| e == KeyError::HardenedDerivationUnsupported
            ||| e == KeyError::CurveError
            ||| e == KeyError::MaximumDepthExceeded
        }),
    decreases path.len(),
{
    if path.len() > 0 && derived(parent, path.drop_last()) is Err {
        derivation_errors(parent, path.drop_last());
    }
}

/// The empty path derives the key itself, unchanged.
pub proof fn derive_identity(parent: Seq<u8>)
    ensures
        derived(parent, Seq::<ChildIndex>::empty()) == Ok::<Seq<u8>, KeyError>(parent),
{
}

/// Derivation has no freedom: two outcomes that both are what `derive_public`
/// promises for one parent and one path are the same outcome, the same key
/// byte for byte or the same error.
pub proof fn derive_public_is_deterministic(
    parent: ExtendedKey,
    path: Seq<ChildIndex>,
    first: Result<ExtendedKey, KeyError>,
    second: Result<ExtendedKey, KeyError>,
)
    requires
        match first {
            Ok(key) => derived(parent.serialize(), path) == Ok::<Seq<u8>, KeyError>(
                key.serialize(),
            ),
            Err(e) => derived(parent.serialize(), path) == Err::<Seq<u8>, KeyError>(e),
        },
        match second {
            Ok(key) => derived(parent.serialize(), path) == Ok::<Seq<u8>, KeyError>(
                key.serialize(),
            ),
            Err(e) => derived(parent.serialize(), path) == Err::<Seq<u8>, KeyError>(e),
        },
    ensures
        first == second,
{
    if first is Ok && second is Ok {
        serialize_is_injective(first->Ok_0, second->Ok_0);
    }
}

/// A path is walked from left to right: deriving along `head + tail` is
/// deriving along `head` and then, from the key reached, along `tail`.
pub proof fn derive_composes(parent: Seq<u8>, head: Seq<ChildIndex>, tail: Seq<ChildIndex>)
    ensures
        derived(parent, head + tail) == match derived(parent, head) {
            Err(e) => Err(e),
            Ok(key) => derived(key, tail),
        },
    decreases tail.len(),
{
    if tail.len() == 0 {
        assert(head + tail =~= head);
    } else {
        assert((head + tail).drop_last() =~= head + tail.drop_last());
        assert((head + tail).last() == tail.last());
        derive_composes(parent, head, tail.drop_last());
    }
}

/// Public derivation crosses no hardened boundary: a path that derives a key
/// holds normal indices only, and a hardened index reached after steps that
/// succeeded gives `HardenedDerivationUnsupported`.
pub proof fn hardened_step_is_refused(parent: Seq<u8>, path: Seq<ChildIndex>, at: int)
    requires
        0 <= at < path.len(),
        path[at] is Hardened,
    ensures
        derived(parent, path) is Err,
        derived(parent, path.take(at)) is Ok ==> derived(parent, path) == Err::<
            Seq<u8>,
            KeyError,
        >(KeyError::HardenedDerivationUnsupported),
{
    let upto = path.take(at + 1);
    assert(upto.drop_last() =~= path.take(at));
    assert(upto.last() == path[at]);
    assert(derived(parent, upto) is Err);
    derived_keeps_failing(parent, path, at + 1);
}

/// The child of a 78-byte parent at a normal index is a 78-byte body: the
/// version is the parent's, the depth one more, the child number the index,
/// and fingerprint, chain code and key data are those that the curve
/// arithmetic gave.
pub proof fn child_layout(parent: Seq<u8>, index: u32)
    requires
        parent.len() == 78,
        child_of(parent, ChildIndex::Normal { index }) is Ok,
    ensures
        ({
            let child = child_of(parent, ChildIndex::Normal { index })->Ok_0;
            let material = public_child(chain_code_of(parent), key_data_of(parent), index)->Some_0;
            &&& child.len() == 78
            &&& version_of(child) == version_of(parent)
            &&& depth_of(child) == depth_of(parent) + 1
            &&& parent_fingerprint_of(child) == material.0@
            &&& child_number_of(child) == index
            &&& chain_code_of(child) == material.1@
            &&& key_data_of(child) == material.2@
        }),
{
    let child = child_of(parent, ChildIndex::Normal { index })->Ok_0;
    let material = public_child(chain_code_of(parent), key_data_of(parent), index)->Some_0;
    be_round_trip_value(index);
    assert(version_of(child) =~= version_of(parent));
    assert(parent_fingerprint_of(child) =~= material.0@);
    assert(chain_code_of(child) =~= material.1@);
    assert(key_data_of(child) =~= material.2@);
    assert(child[9] == be_bytes(index)[0]);
    assert(child[10] == be_bytes(index)[1]);
    assert(child[11] == be_bytes(index)[2]);
    assert(child[12] == be_bytes(index)[3]);
}

/// Each step goes one level down and keeps the version: the key at the end
/// of a path stands as many levels below the parent as the path has steps.
pub proof fn derived_depth(parent: Seq<u8>, path: Seq<ChildIndex>)
    requires
        parent.len() == 78,
        derived(parent, path) is Ok,
    ensures
        derived(parent, path)->Ok_0.len() == 78,
        version_of(derived(parent, path)->Ok_0) == version_of(parent),
        depth_of(derived(parent, path)->Ok_0) == depth_of(parent) + path.len(),
    decreases path.len(),
{
    if path.len() > 0 {
        derived_depth(parent, path.drop_last());
        let before = derived(parent, path.drop_last())->Ok_0;
        match path.last() {
            ChildIndex::Normal { index } => {
                child_layout(before, index);
            },
            ChildIndex::Hardened { .. } => {},
        }
    }
}

} // verus!
