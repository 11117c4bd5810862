use vstd::prelude::*;
use crate::base58check::{
    base58_encode, base58_payload, base58_text, checksum, checksum_of, decode, decoded,
    encode_check,
    has_valid_checksum, is_base58_text, verify_checksum, with_checksum, BODY_LEN, KEY_LEN,
};
use crate::error::KeyError;
use crate::version::{has_version, version_bytes, VersionTag};

verus! {

/// The body of `key` (its first 78 bytes) with the version prefix replaced
/// by that of `to`.
pub open spec fn relabeled_body(key: Seq<u8>, to: VersionTag) -> Seq<u8> {
    to.prefix() + key.subrange(4, BODY_LEN as int)
}

/// What `retag` yields for `key`.
pub open spec fn retagged(key: Seq<u8>, from: VersionTag, to: VersionTag) -> Result<
    Seq<u8>,
    KeyError,
> {
    if key.len() != KEY_LEN {
        Err(KeyError::LengthError)
    } else if key.subrange(0, 4) != from.prefix() {
        Err(KeyError::WrongVersion)
    } else {
        Ok(with_checksum(relabeled_body(key, to)))
    }
}

/// What `convert_key` yields for `text`: the text decoded, its length held
/// to 82 bytes, its version prefix to that of `from`, its checksum to the
/// body, in this order; then the relabeled key as text.
pub open spec fn converted(text: Seq<char>, from: VersionTag, to: VersionTag) -> Result<
    Seq<char>,
    KeyError,
> {
    match decoded(text) {
        Err(e) => Err(e),
        Ok(key) => if key.subrange(0, 4) != from.prefix() {
            Err(KeyError::WrongVersion)
        } else if !has_valid_checksum(key) {
            Err(KeyError::ChecksumMismatch)
        } else {
            Ok(base58_text(with_checksum(relabeled_body(key, to))))
        },
    }
}

/// The first 78 bytes of `bytes` with the version prefix of `to` in place of
/// the first four.
fn relabel(bytes: &[u8], to: VersionTag) -> (out: Vec<u8>)
    requires
        bytes@.len() >= BODY_LEN,
    ensures
        out@ == relabeled_body(bytes@, to),
{
    let prefix = version_bytes(to);
    let mut out: Vec<u8> = Vec::new();
    out.push(prefix[0]);
    out.push(prefix[1]);
    out.push(prefix[2]);
    out.push(prefix[3]);
    assert(out@ =~= to.prefix());
    let mut i: usize = 4;
    while i < BODY_LEN
        invariant
            4 <= i <= BODY_LEN,
            bytes@.len() >= BODY_LEN,
            out@ == to.prefix() + bytes@.subrange(4, i as int),
        decreases BODY_LEN - i,
    {
        out.push(bytes[i]);
        i = i + 1;
        assert(out@ =~= to.prefix() + bytes@.subrange(4, i as int));
    }
    out
}

/// Relabels a serialized extended key: the version prefix `from` gives way
/// to `to`, and the checksum is computed anew over the first 78 bytes.
/// A buffer of another length than 82 gives `LengthError`, one that does not
/// open with the prefix of `from` gives `WrongVersion`. Depth, fingerprint,
/// child number, chain code and key data come out as they went in.
pub fn retag(key_bytes: &[u8], from: VersionTag, to: VersionTag) -> (result: Result<
    Vec<u8>,
    KeyError,
>)
    ensures
        match result {
            Ok(out) => retagged(key_bytes@, from, to) == Ok::<Seq<u8>, KeyError>(out@),
            Err(e) => retagged(key_bytes@, from, to) == Err::<Seq<u8>, KeyError>(e),
        },
        result matches Ok(out) ==> {
            &&& out@.len() == KEY_LEN
            &&& out@.subrange(0, 4) == to.prefix()
            &&& out@.subrange(4, BODY_LEN as int) == key_bytes@.subrange(4, BODY_LEN as int)
            &&& has_valid_checksum(out@)
        },
{
    if key_bytes.len() != KEY_LEN {
        return Err(KeyError::LengthError);
    }
    if !has_version(key_bytes, from) {
        return Err(KeyError::WrongVersion);
    }
    let mut out = relabel(key_bytes, to);
    let ghost body = out@;
    let sum = checksum_of(out.as_slice());
    out.push(sum[0]);
    out.push(sum[1]);
    out.push(sum[2]);
    out.push(sum[3]);
    proof {
        assert(out@ =~= with_checksum(body));
        retagged_shape(key_bytes@, from, to);
    }
    Ok(out)
}

/// Writes the 78-byte body of an extended key as text under the version of
/// `tag`: the first four bytes give way to the prefix of `tag`, the checksum
/// is appended, and the whole is encoded in Base58. A body of another length
/// gives `LengthError`.
pub fn encode_as(body: &[u8], tag: VersionTag) -> (result: Result<String, KeyError>)
    ensures
        body@.len() != BODY_LEN ==> result == Err::<String, KeyError>(KeyError::LengthError),
        body@.len() == BODY_LEN ==> result is Ok && result->Ok_0@ == base58_text(
            with_checksum(relabeled_body(body@, tag)),
        ) && base58_payload(result->Ok_0@) == Some(with_checksum(relabeled_body(body@, tag))),
{
    if body.len() != BODY_LEN {
        return Err(KeyError::LengthError);
    }
    let labeled = relabel(body, tag);
    Ok(encode_check(labeled.as_slice()))
}

/// Decodes a Base58 extended key, relabels it from `from` to `to` and
/// encodes the outcome again. In this order: a character outside the
/// alphabet gives `EncodingError`, a decoded length other than 82
/// `LengthError`, a prefix other than that of `from` `WrongVersion`, a
/// checksum that does not fit `ChecksumMismatch`.
pub fn convert_key(text: &str, from: VersionTag, to: VersionTag) -> (result: Result<
    String,
    KeyError,
>)
    ensures
        match result {
            Ok(out) => converted(text@, from, to) == Ok::<Seq<char>, KeyError>(out@),
            Err(e) => converted(text@, from, to) == Err::<Seq<char>, KeyError>(e),
        },
        result is Err && result->Err_0 == KeyError::EncodingError <==> !is_base58_text(text@),
        result matches Ok(out) ==> base58_payload(out@) == Some(
            with_checksum(relabeled_body(decoded(text@)->Ok_0, to)),
        ),
{
    let key = match decode(text) {
        Err(e) => {
            return Err(e);
        },
        Ok(key) => key,
    };
    if !has_version(key.as_slice(), from) {
        return Err(KeyError::WrongVersion);
    }
    if !verify_checksum(key.as_slice()) {
        return Err(KeyError::ChecksumMismatch);
    }
    match retag(key.as_slice(), from, to) {
        Err(e) => Err(e),
        Ok(out) => Ok(base58_encode(out.as_slice())),
    }
}

/// Turns the display form of a native-segwit account key (`zpub`) into the
/// generic form (`xpub`) of the same key.
pub fn convert_zpub_to_xpub(zpub: &str) -> (result: Result<String, KeyError>)
    ensures
        match result {
            Ok(out) => converted(
                zpub@,
                VersionTag::MainnetBip84Public,
                VersionTag::MainnetBip44Public,
            ) == Ok::<Seq<char>, KeyError>(out@),
            Err(e) => converted(
                zpub@,
                VersionTag::MainnetBip84Public,
                VersionTag::MainnetBip44Public,
            ) == Err::<Seq<char>, KeyError>(e),
        },
        result is Err && result->Err_0 == KeyError::EncodingError <==> !is_base58_text(zpub@),
        result matches Ok(out) ==> base58_payload(out@) == Some(
            with_checksum(relabeled_body(decoded(zpub@)->Ok_0, VersionTag::MainnetBip44Public)),
        ),
{
    convert_key(zpub, VersionTag::MainnetBip84Public, VersionTag::MainnetBip44Public)
}

/// A relabeled key has the full length, opens with the new prefix, carries a
/// valid checksum, and holds bytes 4 to 78 of the key it came from.
pub proof fn retagged_shape(key: Seq<u8>, from: VersionTag, to: VersionTag)
    requires
        retagged(key, from, to) is Ok,
    ensures
        retagged(key, from, to)->Ok_0.len() == KEY_LEN,
        retagged(key, from, to)->Ok_0.subrange(0, 4) == to.prefix(),
        retagged(key, from, to)->Ok_0.subrange(4, BODY_LEN as int) == key.subrange(
            4,
            BODY_LEN as int,
        ),
        has_valid_checksum(retagged(key, from, to)->Ok_0),
{
    let body = relabeled_body(key, to);
    let out = with_checksum(body);
    assert(checksum(body).len() == 4);
    assert(out.subrange(0, 4) =~= to.prefix());
    assert(out.subrange(4, BODY_LEN as int) =~= key.subrange(4, BODY_LEN as int));
    assert(out.subrange(0, out.len() - 4) =~= body);
    assert(out.subrange(out.len() - 4, out.len() as int) =~= checksum(body));
}

/// Relabeling a valid key to another version and back gives the key again,
/// byte for byte.
pub proof fn retag_round_trip(key: Seq<u8>, from: VersionTag, to: VersionTag)
    requires
        key.len() == KEY_LEN,
        key.subrange(0, 4) == from.prefix(),
        has_valid_checksum(key),
    ensures
        retagged(key, from, to) is Ok,
        retagged(retagged(key, from, to)->Ok_0, to, from) == Ok::<Seq<u8>, KeyError>(key),
{
    retagged_shape(key, from, to);
    let there = retagged(key, from, to)->Ok_0;
    let body = relabeled_body(there, from);
    assert(body =~= key.subrange(0, BODY_LEN as int)) by {
        assert(there.subrange(4, BODY_LEN as int) == key.subrange(4, BODY_LEN as int));
        assert(key.subrange(0, BODY_LEN as int) =~= key.subrange(0, 4) + key.subrange(
            4,
            BODY_LEN as int,
        ));
    }
    assert(with_checksum(body) =~= key) by {
        assert(key.subrange(key.len() - 4, key.len() as int) == checksum(body));
        assert(key =~= key.subrange(0, BODY_LEN as int) + key.subrange(
            BODY_LEN as int,
            KEY_LEN as int,
        ));
    }
}

} // verus!
