//! Mnemonic generation and key derivation.
//!
//! Entropy, seed stretching and elliptic-curve arithmetic come from the
//! bip0039, tiny-hderive and libsecp256k1 crates.  Each outside call sits
//! behind a trusted wrapper whose contract speaks over named results, so
//! that everything downstream of the calls is verified against those
//! names.

use vstd::prelude::*;

verus! {

/// Whether a phrase is a valid BIP39 mnemonic: the verdict of
/// `bip0039::Mnemonic::from_phrase`, a function of the phrase alone.
pub uninterp spec fn phrase_valid(phrase: Seq<char>) -> bool;

/// The 64-byte seed that BIP39 PBKDF2 stretching yields for a valid
/// phrase and a passphrase: the result of `bip0039::Mnemonic::to_seed`,
/// a function of the two strings alone.
pub uninterp spec fn seed_of(phrase: Seq<char>, passphrase: Seq<char>) -> Seq<u8>;

/// The raw 32-byte secret that BIP32 derivation yields at a path, or
/// `None` where derivation fails: the result of
/// `tiny_hderive::bip32::ExtendedPrivKey::derive`, a function of seed and
/// path alone.
pub uninterp spec fn hd_secret_of(seed: Seq<u8>, path: Seq<char>) -> Option<Seq<u8>>;

/// The 65-byte uncompressed secp256k1 public key of a 32-byte secret, or
/// `None` where the bytes are not a valid scalar: the result of
/// `libsecp256k1::SecretKey::parse` followed by
/// `PublicKey::from_secret_key`, a function of the secret bytes alone.
pub uninterp spec fn secp_pubkey_of(secret: Seq<u8>) -> Option<Seq<u8>>;

/// Number of space-separated words in a phrase, counting maximal runs of
/// non-space characters; `in_word` says whether the position before the
/// sequence lies inside a word.
pub open spec fn words_from(s: Seq<char>, in_word: bool) -> nat
    decreases s.len(),
{
    if s.len() == 0 {
        0
    } else if s[0] == ' ' {
        words_from(s.drop_first(), false)
    } else {
        (if in_word {
            0nat
        } else {
            1nat
        }) + words_from(s.drop_first(), true)
    }
}

/// Number of space-separated words in a phrase.
pub open spec fn word_count_of(s: Seq<char>) -> nat {
    words_from(s, false)
}

/// Relies on `bip0039::Mnemonic::generate` and `into_phrase`: a freshly
/// generated mnemonic has the requested number of words, joined by single
/// spaces, and parses back with `from_phrase`.  The phrase itself is
/// random, so nothing more is stated of it.
#[verifier::external_body]
pub(crate) fn generate_phrase(word_count: u32) -> (phrase: String)
    requires
        word_count == 12 || word_count == 24,
    ensures
        phrase_valid(phrase@),
        word_count_of(phrase@) == word_count,
{
    let count = if word_count == 12 {
        bip0039::Count::Words12
    } else {
        bip0039::Count::Words24
    };
    <bip0039::Mnemonic>::generate(count).into_phrase()
}

/// Relies on `bip0039::Mnemonic::from_phrase` and `to_seed`: `from_phrase`
/// accepts exactly the valid phrases, and the seed is PBKDF2 over the
/// phrase and the passphrase, deterministic in both.
#[verifier::external_body]
pub(crate) fn phrase_to_seed(phrase: &str, passphrase: &str) -> (r: Option<[u8; 64]>)
    ensures
        r is Some <==> phrase_valid(phrase@),
        r is Some ==> r.unwrap()@ == seed_of(phrase@, passphrase@),
{
    match <bip0039::Mnemonic>::from_phrase(phrase) {
        Ok(m) => Some(m.to_seed(passphrase)),
        Err(_) => None,
    }
}

/// Relies on `tiny_hderive::bip32::ExtendedPrivKey::derive` and `secret`:
/// derivation is deterministic in seed and path, and yields a 32-byte
/// secret where it succeeds.
#[verifier::external_body]
pub(crate) fn hd_derive_secret(seed: &[u8], path: &str) -> (r: Option<[u8; 32]>)
    ensures
        r is Some <==> hd_secret_of(seed@, path@) is Some,
        r is Some ==> r.unwrap()@ == hd_secret_of(seed@, path@).unwrap(),
{
    match tiny_hderive::bip32::ExtendedPrivKey::derive(seed, path) {
        Ok(key) => Some(key.secret()),
        Err(_) => None,
    }
}

/// Relies on `libsecp256k1::SecretKey::parse` and
/// `PublicKey::from_secret_key` with `serialize`: parsing accepts exactly
/// the valid scalars, the public key is a function of the secret, and its
/// uncompressed serialization is 65 bytes.
#[verifier::external_body]
pub(crate) fn secret_to_public_uncompressed(secret: &[u8; 32]) -> (r: Option<[u8; 65]>)
    ensures
        r is Some <==> secp_pubkey_of(secret@) is Some,
        r is Some ==> r.unwrap()@ == secp_pubkey_of(secret@).unwrap(),
{
    match libsecp256k1::SecretKey::parse(secret) {
        Ok(sk) => Some(libsecp256k1::PublicKey::from_secret_key(&sk).serialize()),
        Err(_) => None,
    }
}

} // verus!
