use vstd::prelude::*;
use crate::address::{is_curve_point, CompressedPublicKey};
use crate::base58check::{base58_payload, base58_text, encode_check, with_checksum, BODY_LEN};
use crate::error::KeyError;

verus! {

/// An extended public key: a key, its chain code, and where it stands in the
/// tree. Serialized, it is a body of 78 bytes: version (4), depth (1), parent
/// fingerprint (4), child number (4, big-endian), chain code (32), key data
/// (33).
#[derive(Clone, Copy, Debug, PartialEq, Eq)]
pub struct ExtendedKey {
    pub version: [u8; 4],
    pub depth: u8,
    pub parent_fingerprint: [u8; 4],
    pub child_number: u32,
    pub chain_code: [u8; 32],
    pub key_data: [u8; 33],
}

/// The four bytes of `n`, most significant first.
pub open spec fn be_bytes(n: u32) -> Seq<u8> {
    seq![
        ((n >> 24) & 0xff) as u8,
        ((n >> 16) & 0xff) as u8,
        ((n >> 8) & 0xff) as u8,
        (n & 0xff) as u8,
    ]
}

/// The number whose big-endian bytes are `b0`, `b1`, `b2`, `b3`.
pub open spec fn be_value(b0: u8, b1: u8, b2: u8, b3: u8) -> u32 {
    ((b0 as u32) << 24) | ((b1 as u32) << 16) | ((b2 as u32) << 8) | (b3 as u32)
}

/// The version prefix in a body.
pub open spec fn version_of(body: Seq<u8>) -> Seq<u8> {
    body.subrange(0, 4)
}

/// The depth recorded in a body.
pub open spec fn depth_of(body: Seq<u8>) -> u8 {
    body[4]
}

/// The parent fingerprint in a body.
pub open spec fn parent_fingerprint_of(body: Seq<u8>) -> Seq<u8> {
    body.subrange(5, 9)
}

/// The child number recorded in a body.
pub open spec fn child_number_of(body: Seq<u8>) -> u32 {
    be_value(body[9], body[10], body[11], body[12])
}

/// The chain code in a body.
pub open spec fn chain_code_of(body: Seq<u8>) -> Seq<u8> {
    body.subrange(13, 45)
}

/// The key data in a body.
pub open spec fn key_data_of(body: Seq<u8>) -> Seq<u8> {
    body.subrange(45, 78)
}

impl ExtendedKey {
    /// The 78-byte body of this key.
    pub open spec fn serialize(self) -> Seq<u8> {
        self.version@ + seq![self.depth] + self.parent_fingerprint@ + be_bytes(self.child_number)
            + self.chain_code@ + self.key_data@
    }

    /// Writes the key as its 78-byte body.
    pub fn to_bytes(&self) -> (body: [u8; 78])
        ensures
            body@ == self.serialize(),
    {
        let number = u32_to_be(self.child_number);
        let mut body: [u8; 78] = [0u8; 78];
        body[4] = self.depth;
        let mut i: usize = 0;
        while i < 4
            invariant
                i <= 4,
                body@.len() == 78,
                body@[4] == self.depth,
                forall|j: int| 0 <= j < i ==> body@[j] == self.version@[j],
                forall|j: int| 0 <= j < i ==> body@[5 + j] == self.parent_fingerprint@[j],
                forall|j: int| 0 <= j < i ==> body@[9 + j] == number@[j],
            decreases 4 - i,
        {
            body[i] = self.version[i];
            body[5 + i] = self.parent_fingerprint[i];
            body[9 + i] = number[i];
            i = i + 1;
        }
        let mut i: usize = 0;
        while i < 32
            invariant
                i <= 32,
                body@.len() == 78,
                body@[4] == self.depth,
                forall|j: int| 0 <= j < 4 ==> body@[j] == self.version@[j],
                forall|j: int| 0 <= j < 4 ==> body@[5 + j] == self.parent_fingerprint@[j],
                forall|j: int| 0 <= j < 4 ==> body@[9 + j] == number@[j],
                forall|j: int| 0 <= j < i ==> body@[13 + j] == self.chain_code@[j],
            decreases 32 - i,
        {
            body[13 + i] = self.chain_code[i];
            i = i + 1;
        }
        let mut i: usize = 0;
        while i < 33
            invariant
                i <= 33,
                body@.len() == 78,
                body@[4] == self.depth,
                forall|j: int| 0 <= j < 4 ==> body@[j] == self.version@[j],
                forall|j: int| 0 <= j < 4 ==> body@[5 + j] == self.parent_fingerprint@[j],
                forall|j: int| 0 <= j < 4 ==> body@[9 + j] == number@[j],
                forall|j: int| 0 <= j < 32 ==> body@[13 + j] == self.chain_code@[j],
                forall|j: int| 0 <= j < i ==> body@[45 + j] == self.key_data@[j],
            decreases 33 - i,
        {
            body[45 + i] = self.key_data[i];
            i = i + 1;
        }
        proof {
            let want = self.serialize();
            assert(want.len() == 78);
            assert forall|k: int| 0 <= k < 78 implies body@[k] == want[k] by {
                if k < 4 {
                    assert(body@[k] == self.version@[k]);
                } else if k == 4 {
                } else if k < 9 {
                    assert(body@[5 + (k - 5)] == self.parent_fingerprint@[k - 5]);
                } else if k < 13 {
                    assert(body@[9 + (k - 9)] == number@[k - 9]);
                } else if k < 45 {
                    assert(body@[13 + (k - 13)] == self.chain_code@[k - 13]);
                } else {
                    assert(body@[45 + (k - 45)] == self.key_data@[k - 45]);
                }
            }
            assert(body@ =~= want);
        }
        body
    }

    /// Reads a key from its body. Any 78 bytes are a body; another length
    /// gives `LengthError`. Whether the key data is a curve point is asked
    /// where the key is used.
    pub fn from_bytes(body: &[u8]) -> (result: Result<ExtendedKey, KeyError>)
        ensures
            body@.len() == BODY_LEN ==> result is Ok && result->Ok_0.serialize() == body@,
            body@.len() != BODY_LEN ==> result == Err::<ExtendedKey, KeyError>(
                KeyError::LengthError,
            ),
    {
        if body.len() != BODY_LEN {
            return Err(KeyError::LengthError);
        }
        let mut version: [u8; 4] = [0u8; 4];
        let mut parent_fingerprint: [u8; 4] = [0u8; 4];
        let mut chain_code: [u8; 32] = [0u8; 32];
        let mut key_data: [u8; 33] = [0u8; 33];
        let mut i: usize = 0;
        while i < 4
            invariant
                i <= 4,
                body@.len() == 78,
                forall|j: int| 0 <= j < i ==> version@[j] == body@[j],
                forall|j: int| 0 <= j < i ==> parent_fingerprint@[j] == body@[5 + j],
            decreases 4 - i,
        {
            version[i] = body[i];
            parent_fingerprint[i] = body[5 + i];
            i = i + 1;
        }
        let mut i: usize = 0;
        while i < 32
            invariant
                i <= 32,
                body@.len() == 78,
                forall|j: int| 0 <= j < i ==> chain_code@[j] == body@[13 + j],
            decreases 32 - i,
        {
            chain_code[i] = body[13 + i];
            i = i + 1;
        }
        let mut i: usize = 0;
        while i < 33
            invariant
                i <= 33,
                body@.len() == 78,
                forall|j: int| 0 <= j < i ==> key_data@[j] == body@[45 + j],
            decreases 33 - i,
        {
            key_data[i] = body[45 + i];
            i = i + 1;
        }
        let child_number = u32_from_be(body[9], body[10], body[11], body[12]);
        let key = ExtendedKey {
            version,
            depth: body[4],
            parent_fingerprint,
            child_number,
            chain_code,
            key_data,
        };
        proof {
            be_round_trip_bytes(body@[9], body@[10], body@[11], body@[12]);
            let got = key.serialize();
            assert(got.len() == 78);
            assert forall|k: int| 0 <= k < 78 implies got[k] == body@[k] by {
                if k < 4 {
                    assert(got[k] == version@[k]);
                } else if k == 4 {
                } else if k < 9 {
                    assert(got[k] == parent_fingerprint@[k - 5]);
                } else if k < 13 {
                    assert(got[k] == be_bytes(child_number)[k - 9]);
                } else if k < 45 {
                    assert(got[k] == chain_code@[k - 13]);
                } else {
                    assert(got[k] == key_data@[k - 45]);
                }
            }
            assert(got =~= body@);
        }
        Ok(key)
    }

    /// The key as text: the body with its checksum, in Base58. The text
    /// reads back as the body and its checksum.
    pub fn to_text(&self) -> (text: String)
        ensures
            text@ == base58_text(with_checksum(self.serialize())),
            base58_payload(text@) == Some(with_checksum(self.serialize())),
    {
        let body = self.to_bytes();
        encode_check(body.as_slice())
    }

    /// The public key that the key data encodes; `None` where the 33 bytes
    /// are no curve point.
    pub fn public_key(&self) -> (key: Option<CompressedPublicKey>)
        ensures
            key is Some <==> is_curve_point(self.key_data@),
            key matches Some(k) ==> k@ == self.key_data@,
    {
        CompressedPublicKey::from_bytes(self.key_data)
    }
}

/// The body of a key has 78 bytes, and each field stands at its fixed place.
pub proof fn serialize_layout(key: ExtendedKey)
    ensures
        key.serialize().len() == BODY_LEN,
        version_of(key.serialize()) == key.version@,
        depth_of(key.serialize()) == key.depth,
        parent_fingerprint_of(key.serialize()) == key.parent_fingerprint@,
        child_number_of(key.serialize()) == key.child_number,
        chain_code_of(key.serialize()) == key.chain_code@,
        key_data_of(key.serialize()) == key.key_data@,
{
    let body = key.serialize();
    be_round_trip_value(key.child_number);
    assert(version_of(body) =~= key.version@);
    assert(parent_fingerprint_of(body) =~= key.parent_fingerprint@);
    assert(chain_code_of(body) =~= key.chain_code@);
    assert(key_data_of(body) =~= key.key_data@);
    assert(body[9] == be_bytes(key.child_number)[0]);
    assert(body[10] == be_bytes(key.child_number)[1]);
    assert(body[11] == be_bytes(key.child_number)[2]);
    assert(body[12] == be_bytes(key.child_number)[3]);
}

/// Two keys with the same body are the same key: the layout loses nothing.
pub proof fn serialize_is_injective(a: ExtendedKey, b: ExtendedKey)
    requires
        a.serialize() == b.serialize(),
    ensures
        a == b,
{
    serialize_layout(a);
    serialize_layout(b);
    assert(a.version =~= b.version);
    assert(a.parent_fingerprint =~= b.parent_fingerprint);
    assert(a.chain_code =~= b.chain_code);
    assert(a.key_data =~= b.key_data);
}

/// The big-endian bytes of `n`.
pub fn u32_to_be(n: u32) -> (bytes: [u8; 4])
    ensures
        bytes@ == be_bytes(n),
{
    let b0: u8 = ((n >> 24) & 0xff) as u8;
    let b1: u8 = ((n >> 16) & 0xff) as u8;
    let b2: u8 = ((n >> 8) & 0xff) as u8;
    let b3: u8 = (n & 0xff) as u8;
    let bytes: [u8; 4] = [b0, b1, b2, b3];
    assert(bytes@ =~= be_bytes(n));
    bytes
}

/// The number that four big-endian bytes stand for.
pub fn u32_from_be(b0: u8, b1: u8, b2: u8, b3: u8) -> (n: u32)
    ensures
        n == be_value(b0, b1, b2, b3),
{
    ((b0 as u32) << 24) | ((b1 as u32) << 16) | ((b2 as u32) << 8) | (b3 as u32)
}

/// Four bytes read as a number and written again are the same four bytes.
pub proof fn be_round_trip_bytes(b0: u8, b1: u8, b2: u8, b3: u8)
    ensures
        be_bytes(be_value(b0, b1, b2, b3)) == seq![b0, b1, b2, b3],
{
    let n = be_value(b0, b1, b2, b3);
    assert(((n >> 24) & 0xff) as u8 == b0 && ((n >> 16) & 0xff) as u8 == b1 && ((n >> 8) & 0xff) as u8
        == b2 && (n & 0xff) as u8 == b3) by (bit_vector)
        requires
            n == ((b0 as u32) << 24) | ((b1 as u32) << 16) | ((b2 as u32) << 8) | (b3 as u32),
    ;
    assert(be_bytes(n) =~= seq![b0, b1, b2, b3]);
}

/// A number written as four bytes and read again is the same number.
pub proof fn be_round_trip_value(n: u32)
    ensures
        be_bytes(n).len() == 4,
        be_value(be_bytes(n)[0], be_bytes(n)[1], be_bytes(n)[2], be_bytes(n)[3]) == n,
{
    let b0 = ((n >> 24) & 0xff) as u8;
    let b1 = ((n >> 16) & 0xff) as u8;
    let b2 = ((n >> 8) & 0xff) as u8;
    let b3 = (n & 0xff) as u8;
    assert(((b0 as u32) << 24) | ((b1 as u32) << 16) | ((b2 as u32) << 8) | (b3 as u32) == n)
        by (bit_vector)
        requires
            b0 == ((n >> 24) & 0xff) as u8,
            b1 == ((n >> 16) & 0xff) as u8,
            b2 == ((n >> 8) & 0xff) as u8,
            b3 == (n & 0xff) as u8,
    ;
}

} // verus!
