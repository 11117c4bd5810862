use vstd::prelude::*;
use sha2::Digest;
use vstd::slice::slice_subrange;
use crate::error::KeyError;

verus! {

/// The SHA-256 digest of `data`, as the `sha2` crate computes it.
pub uninterp spec fn sha256_digest(data: Seq<u8>) -> Seq<u8>;

/// The Base58 text of `bytes` in the Bitcoin alphabet, as the `bs58` crate writes it.
pub uninterp spec fn base58_text(bytes: Seq<u8>) -> Seq<char>;

/// The bytes that a Base58 text stands for, as the `bs58` crate reads it;
/// `None` where the text cannot be read.
pub uninterp spec fn base58_payload(text: Seq<char>) -> Option<Seq<u8>>;

/// Length of the checksum that closes a Base58Check buffer.
pub const CHECKSUM_LEN: usize = 4;

/// Length of the body of a serialized extended key.
pub const BODY_LEN: usize = 78;

/// Length of a serialized extended key: the body and its checksum.
pub const KEY_LEN: usize = 82;

/// Whether `c` belongs to the Bitcoin Base58 alphabet: the digits and letters
/// without `0`, `O`, `I` and `l`.
pub open spec fn is_base58_char(c: char) -> bool {
    ||| '1' <= c <= '9'
    ||| 'A' <= c <= 'H'
    ||| 'J' <= c <= 'N'
    ||| 'P' <= c <= 'Z'
    ||| 'a' <= c <= 'k'
    ||| 'm' <= c <= 'z'
}

/// Whether every character of `text` belongs to the Base58 alphabet.
pub open spec fn is_base58_text(text: Seq<char>) -> bool {
    forall|i: int| 0 <= i < text.len() ==> is_base58_char(#[trigger] text[i])
}

/// SHA-256 applied twice.
pub open spec fn double_sha256(data: Seq<u8>) -> Seq<u8> {
    sha256_digest(sha256_digest(data))
}

/// The four-byte checksum of `body`: the head of its double SHA-256.
pub open spec fn checksum(body: Seq<u8>) -> Seq<u8> {
    let digest = double_sha256(body);
    seq![digest[0], digest[1], digest[2], digest[3]]
}

/// `body` followed by its checksum.
pub open spec fn with_checksum(body: Seq<u8>) -> Seq<u8> {
    body + checksum(body)
}

/// Whether `bytes` ends in the checksum of what precedes it.
pub open spec fn has_valid_checksum(bytes: Seq<u8>) -> bool {
    &&& bytes.len() >= 4
    &&& bytes.subrange(bytes.len() - 4, bytes.len() as int) == checksum(
        bytes.subrange(0, bytes.len() - 4),
    )
}

/// What `decode` yields for `text`.
pub open spec fn decoded(text: Seq<char>) -> Result<Seq<u8>, KeyError> {
    match base58_payload(text) {
        None => Err(KeyError::EncodingError),
        Some(bytes) => if bytes.len() == KEY_LEN {
            Ok(bytes)
        } else {
            Err(KeyError::LengthError)
        },
    }
}

/// What `decode_check` yields for `text`.
pub open spec fn decoded_checked(text: Seq<char>) -> Result<Seq<u8>, KeyError> {
    match decoded(text) {
        Err(e) => Err(e),
        Ok(bytes) => if has_valid_checksum(bytes) {
            Ok(bytes)
        } else {
            Err(KeyError::ChecksumMismatch)
        },
    }
}

/// Calls `sha2::Sha256::digest`. Trusted: the result is the 32-byte SHA-256
/// digest of `data`, a function of `data` alone.
#[verifier::external_body]
fn sha256(data: &[u8]) -> (digest: [u8; 32])
    ensures
        digest@ == sha256_digest(data@),
{
    sha2::Sha256::digest(data).into()
}

/// Calls `bs58::encode(..).into_string()`. Trusted: the result is the Base58
/// text of `bytes` in the default (Bitcoin) alphabet, a function of `bytes`
/// alone; the call has no failure path; and the text is one that
/// `bs58::decode` reads back as the same bytes.
#[verifier::external_body]
pub(crate) fn base58_encode(bytes: &[u8]) -> (text: String)
    ensures
        text@ == base58_text(bytes@),
        base58_payload(text@) == Some(bytes@),
{
    bs58::encode(bytes).into_string()
}

/// Calls `bs58::decode(..).into_vec()`. Trusted: the call fails exactly when
/// some character of `text` lies outside the default (Bitcoin) alphabet, and
/// otherwise returns the bytes that the text stands for, a function of the
/// text alone.
#[verifier::external_body]
fn base58_decode(text: &str) -> (bytes: Option<Vec<u8>>)
    ensures
        bytes is Some <==> is_base58_text(text@),
        match bytes {
            Some(v) => base58_payload(text@) == Some(v@),
            None => base58_payload(text@) is None,
        },
{
    bs58::decode(text).into_vec().ok()
}

/// The double SHA-256 checksum of `body`.
pub fn checksum_of(body: &[u8]) -> (sum: [u8; 4])
    ensures
        sum@ == checksum(body@),
{
    let first = sha256(body);
    let second = sha256(first.as_slice());
    let sum: [u8; 4] = [second[0], second[1], second[2], second[3]];
    assert(sum@ =~= checksum(body@));
    sum
}

/// Whether `bytes` carries the checksum of its own body.
pub fn verify_checksum(bytes: &[u8]) -> (ok: bool)
    ensures
        ok == has_valid_checksum(bytes@),
{
    let n = bytes.len();
    if n < CHECKSUM_LEN {
        return false;
    }
    let body = slice_subrange(bytes, 0, n - CHECKSUM_LEN);
    let sum = checksum_of(body);
    let ghost tail = bytes@.subrange(n - 4, n as int);
    let ok = bytes[n - 4] == sum[0] && bytes[n - 3] == sum[1] && bytes[n - 2] == sum[2]
        && bytes[n - 1] == sum[3];
    proof {
        assert(tail.len() == 4);
        assert(tail[0] == bytes@[n - 4]);
        assert(tail[1] == bytes@[n - 3]);
        assert(tail[2] == bytes@[n - 2]);
        assert(tail[3] == bytes@[n - 1]);
        if ok {
            assert(tail =~= sum@);
        }
    }
    ok
}

/// Appends the checksum of `body` to it and writes the whole in Base58. The
/// text reads back as the body and its checksum.
pub fn encode_check(body: &[u8]) -> (text: String)
    ensures
        text@ == base58_text(with_checksum(body@)),
        base58_payload(text@) == Some(with_checksum(body@)),
{
    let sum = checksum_of(body);
    let mut buffer: Vec<u8> = Vec::new();
    let mut i: usize = 0;
    while i < body.len()
        invariant
            i <= body.len(),
            buffer@ == body@.subrange(0, i as int),
        decreases body.len() - i,
    {
        buffer.push(body[i]);
        i = i + 1;
    }
    buffer.push(sum[0]);
    buffer.push(sum[1]);
    buffer.push(sum[2]);
    buffer.push(sum[3]);
    assert(buffer@ =~= with_checksum(body@));
    base58_encode(buffer.as_slice())
}

/// Reads a Base58 text that must hold a serialized extended key: 82 bytes.
/// A character outside the alphabet gives `EncodingError`, any other length
/// `LengthError`. The checksum is not looked at.
pub fn decode(text: &str) -> (result: Result<Vec<u8>, KeyError>)
    ensures
        match result {
            Ok(bytes) => decoded(text@) == Ok::<Seq<u8>, KeyError>(bytes@),
            Err(e) => decoded(text@) == Err::<Seq<u8>, KeyError>(e),
        },
        result is Err && result->Err_0 == KeyError::EncodingError <==> !is_base58_text(text@),
{
    match base58_decode(text) {
        None => Err(KeyError::EncodingError),
        Some(bytes) => {
            if bytes.len() == KEY_LEN {
                Ok(bytes)
            } else {
                Err(KeyError::LengthError)
            }
        },
    }
}

/// Reads a Base58 text as `decode` does, then holds the 82 bytes to their
/// checksum: a buffer whose last four bytes are not the checksum of the first
/// 78 gives `ChecksumMismatch`.
pub fn decode_check(text: &str) -> (result: Result<Vec<u8>, KeyError>)
    ensures
        match result {
            Ok(bytes) => decoded_checked(text@) == Ok::<Seq<u8>, KeyError>(bytes@),
            Err(e) => decoded_checked(text@) == Err::<Seq<u8>, KeyError>(e),
        },
        result is Err && result->Err_0 == KeyError::EncodingError <==> !is_base58_text(text@),
{
    match decode(text) {
        Err(e) => Err(e),
        Ok(bytes) => {
            if verify_checksum(bytes.as_slice()) {
                Ok(bytes)
            } else {
                Err(KeyError::ChecksumMismatch)
            }
        },
    }
}

/// A text that decodes to any other number of bytes than 82 is refused for
/// its length, whatever the bytes hold: neither version nor checksum is
/// looked at.
pub proof fn length_guard(text: Seq<char>)
    requires
        base58_payload(text) is Some,
        base58_payload(text)->Some_0.len() != KEY_LEN,
    ensures
        decoded(text) == Err::<Seq<u8>, KeyError>(KeyError::LengthError),
        decoded_checked(text) == Err::<Seq<u8>, KeyError>(KeyError::LengthError),
{
}

/// A body followed by its checksum passes the check.
pub proof fn fresh_checksum_is_valid(body: Seq<u8>)
    ensures
        has_valid_checksum(with_checksum(body)),
        with_checksum(body).len() == body.len() + 4,
{
    let bytes = with_checksum(body);
    assert(bytes.subrange(0, bytes.len() - 4) =~= body);
    assert(bytes.subrange(bytes.len() - 4, bytes.len() as int) =~= checksum(body));
}

/// A text that reads back as a 78-byte body and its checksum passes
/// `decode_check`, and gives just these 82 bytes.
pub proof fn checked_key_reads_back(text: Seq<char>, body: Seq<u8>)
    requires
        body.len() == BODY_LEN,
        base58_payload(text) == Some(with_checksum(body)),
    ensures
        decoded(text) == Ok::<Seq<u8>, KeyError>(with_checksum(body)),
        decoded_checked(text) == Ok::<Seq<u8>, KeyError>(with_checksum(body)),
{
    fresh_checksum_is_valid(body);
}

/// A key whose body was changed while the old checksum stayed behind is
/// refused with `ChecksumMismatch`, wherever the changed body has another
/// checksum than the old one. (Four bytes of checksum cannot tell all bodies
/// apart; a changed body that happens to share the checksum passes.)
pub proof fn tampered_key_is_rejected(text: Seq<char>, key: Seq<u8>, tampered: Seq<u8>)
    requires
        key.len() == KEY_LEN,
        has_valid_checksum(key),
        tampered.len() == KEY_LEN,
        tampered.subrange(BODY_LEN as int, KEY_LEN as int) == key.subrange(
            BODY_LEN as int,
            KEY_LEN as int,
        ),
        checksum(tampered.subrange(0, BODY_LEN as int)) != checksum(
            key.subrange(0, BODY_LEN as int),
        ),
        base58_payload(text) == Some(tampered),
    ensures
        !has_valid_checksum(tampered),
        decoded_checked(text) == Err::<Seq<u8>, KeyError>(KeyError::ChecksumMismatch),
{
}

} // verus!
