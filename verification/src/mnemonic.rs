use vstd::prelude::*;
use vstd::string::StrSliceExecFns;
use bdk::keys::bip39::{Language, Mnemonic};
use rand::RngCore;

verus! {

/// The English BIP-39 phrase that stands for `entropy`, as the `bip39` crate
/// writes it: the words in order, one space between two.
pub uninterp spec fn mnemonic_phrase(entropy: Seq<u8>) -> Seq<char>;

/// The 64-byte seed of an English BIP-39 phrase under the empty passphrase,
/// as the `bip39` crate computes it; `None` where the crate refuses the
/// phrase.
pub uninterp spec fn mnemonic_seed(phrase: Seq<char>) -> Option<[u8; 64]>;

/// Whether a phrase can be made of `len` bytes of entropy: 128 to 256 bits,
/// in steps of 32.
pub open spec fn is_entropy_len(len: nat) -> bool {
    len == 16 || len == 20 || len == 24 || len == 28 || len == 32
}

/// The bytes of entropy behind a phrase of as many words as `word_count`
/// says, for the two sizes on offer: 16 bytes for "12", 32 bytes for "24".
pub open spec fn entropy_size_for(word_count: Seq<char>) -> Option<usize> {
    if word_count == seq!['1', '2'] {
        Some(16usize)
    } else if word_count == seq!['2', '4'] {
        Some(32usize)
    } else {
        None
    }
}

/// Calls `rand::rng()` and `RngCore::fill_bytes` on a buffer of `len` zero
/// bytes. Trusted: the buffer keeps its length. Nothing is said of what it
/// holds: that is random.
#[verifier::external_body]
fn random_bytes(len: usize) -> (bytes: Vec<u8>)
    ensures
        bytes@.len() == len,
{
    let mut bytes = vec![0u8; len];
    rand::rng().fill_bytes(&mut bytes);
    bytes
}

/// Calls `Mnemonic::from_entropy_in` for English and writes the phrase with
/// `to_string`. Trusted: the call succeeds exactly on 16, 20, 24, 28 or 32
/// bytes, and the phrase is a function of the bytes alone.
#[verifier::external_body]
fn phrase_of(entropy: &[u8]) -> (phrase: Option<String>)
    ensures
        phrase is Some <==> is_entropy_len(entropy@.len()),
        phrase matches Some(p) ==> p@ == mnemonic_phrase(entropy@),
{
    Some(Mnemonic::from_entropy_in(Language::English, entropy).ok()?.to_string())
}

/// Calls `Mnemonic::parse_in` for English and `Mnemonic::to_seed` with the
/// empty passphrase. Trusted: whether the phrase is accepted and the seed
/// that comes out are a function of the phrase alone.
#[verifier::external_body]
fn seed_of(phrase: &str) -> (seed: Option<[u8; 64]>)
    ensures
        seed == mnemonic_seed(phrase@),
{
    Some(Mnemonic::parse_in(Language::English, phrase).ok()?.to_seed(""))
}

/// How many bytes of entropy a phrase of `word_count` words takes, where
/// `word_count` is the text "12" or "24"; `None` for any other text.
pub fn entropy_size(word_count: &str) -> (size: Option<usize>)
    ensures
        size == entropy_size_for(word_count@),
{
    if word_count.unicode_len() != 2 {
        return None;
    }
    let tens = word_count.get_char(0);
    let ones = word_count.get_char(1);
    if tens == '1' && ones == '2' {
        assert(word_count@ =~= seq!['1', '2']);
        Some(16)
    } else if tens == '2' && ones == '4' {
        assert(word_count@ =~= seq!['2', '4']);
        Some(32)
    } else {
        None
    }
}

/// The English phrase for `entropy`; `None` unless 16, 20, 24, 28 or 32
/// bytes are given.
pub fn mnemonic_from_entropy(entropy: &[u8]) -> (phrase: Option<String>)
    ensures
        phrase is Some <==> is_entropy_len(entropy@.len()),
        phrase matches Some(p) ==> p@ == mnemonic_phrase(entropy@),
{
    phrase_of(entropy)
}

/// A fresh English phrase of 12 or 24 words, from as many random bytes as
/// `word_count` asks for. `None` where `word_count` is neither "12" nor
/// "24"; otherwise the phrase of some entropy of the right size.
pub fn generate_mnemonic(word_count: &str) -> (phrase: Option<String>)
    ensures
        phrase is Some <==> entropy_size_for(word_count@) is Some,
        phrase matches Some(p) ==> exists|entropy: Seq<u8>|
            entropy.len() == entropy_size_for(word_count@)->Some_0 && p@ == #[trigger] mnemonic_phrase(entropy),
{
    match entropy_size(word_count) {
        None => None,
        Some(size) => {
            let entropy = random_bytes(size);
            mnemonic_from_entropy(entropy.as_slice())
        },
    }
}

/// The seed of an English phrase under the empty passphrase; `None` where
/// the phrase is refused.
pub fn seed_from_mnemonic(phrase: &str) -> (seed: Option<[u8; 64]>)
    ensures
        seed == mnemonic_seed(phrase@),
{
    seed_of(phrase)
}

} // verus!
