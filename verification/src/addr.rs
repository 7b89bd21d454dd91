//! From a mnemonic phrase to a 20-byte address.
//!
//! The address is the low 20 bytes of the Keccak-256 digest of the
//! 64-byte (X‖Y) encoding of the public key derived at the fixed path
//! `m/44'/60'/0'/0/0` with an empty passphrase.

use tiny_keccak::Hasher;
use vstd::prelude::*;
use vstd::slice::slice_to_vec;
use crate::keys::{
    generate_phrase, hd_derive_secret, hd_secret_of, phrase_to_seed, phrase_valid,
    secp_pubkey_of, secret_to_public_uncompressed, seed_of, word_count_of,
};

verus! {

/// The Keccak-256 digest (the pre-standardization permutation, not
/// SHA3-256) of a byte sequence: the result of `tiny_keccak::Keccak::v256`,
/// a function of the input alone.
pub uninterp spec fn keccak256_of(input: Seq<u8>) -> Seq<u8>;

/// Lowercase hex character for a value below 16.
pub open spec fn hex_char(d: u8) -> char {
    if d == 0 {
        '0'
    } else if d == 1 {
        '1'
    } else if d == 2 {
        '2'
    } else if d == 3 {
        '3'
    } else if d == 4 {
        '4'
    } else if d == 5 {
        '5'
    } else if d == 6 {
        '6'
    } else if d == 7 {
        '7'
    } else if d == 8 {
        '8'
    } else if d == 9 {
        '9'
    } else if d == 10 {
        'a'
    } else if d == 11 {
        'b'
    } else if d == 12 {
        'c'
    } else if d == 13 {
        'd'
    } else if d == 14 {
        'e'
    } else {
        'f'
    }
}

/// Lowercase hex rendering of a byte sequence, high nibble first.
pub open spec fn hex_of(bytes: Seq<u8>) -> Seq<char> {
    Seq::new(
        bytes.len() * 2,
        |i: int|
            if i % 2 == 0 {
                hex_char((bytes[i / 2] / 16) as u8)
            } else {
                hex_char((bytes[i / 2] % 16) as u8)
            },
    )
}

/// Relies on `tiny_keccak::Keccak::v256` with `update` and `finalize`:
/// the digest is a function of the input bytes alone and fills the whole
/// 32-byte output.
#[verifier::external_body]
pub(crate) fn keccak256(input: &[u8]) -> (digest: [u8; 32])
    ensures
        digest@ == keccak256_of(input@),
{
    let mut hasher = tiny_keccak::Keccak::v256();
    hasher.update(input);
    let mut output = [0u8; 32];
    hasher.finalize(&mut output);
    output
}

/// Relies on `hex::encode`: two lowercase hex digits per byte, high
/// nibble first.
#[verifier::external_body]
pub(crate) fn hex_encode(bytes: &[u8]) -> (r: String)
    ensures
        r@ == hex_of(bytes@),
{
    hex::encode(bytes)
}

/// The fixed BIP44 derivation path for coin type 60, account 0, change 0,
/// index 0.
pub open spec fn spec_derivation_path() -> Seq<char> {
    "m/44'/60'/0'/0/0"@
}

/// The passphrase is fixed empty.
pub open spec fn spec_passphrase() -> Seq<char> {
    ""@
}

/// The seed a phrase stretches to, with the empty passphrase.
pub open spec fn spec_seed(phrase: Seq<char>) -> Seq<u8> {
    seed_of(phrase, spec_passphrase())
}

/// The raw secret derived from a phrase at the fixed path.
pub open spec fn spec_secret(phrase: Seq<char>) -> Option<Seq<u8>> {
    hd_secret_of(spec_seed(phrase), spec_derivation_path())
}

/// The uncompressed public key derived from a phrase.
pub open spec fn spec_pubkey(phrase: Seq<char>) -> Option<Seq<u8>> {
    match spec_secret(phrase) {
        Some(secret) => secp_pubkey_of(secret),
        None => None,
    }
}

/// Whether every derivation stage succeeds on a phrase.
pub open spec fn derivation_ok(phrase: Seq<char>) -> bool {
    &&& phrase_valid(phrase)
    &&& spec_secret(phrase) is Some
    &&& spec_pubkey(phrase) is Some
}

/// The 20 address bytes of a phrase: the Keccak-256 digest of the public
/// key without its 1-byte prefix, keeping the low 20 bytes.
pub open spec fn spec_address(phrase: Seq<char>) -> Seq<u8> {
    keccak256_of(spec_pubkey(phrase).unwrap().skip(1)).skip(12)
}

/// A 20-byte address.
#[derive(Debug)]
pub struct Address {
    bytes: Vec<u8>,
}

/// Why derivation of an address failed.  Failure past the phrase check
/// signals a derivation bug, not bad luck, and callers are expected to
/// abort on it.
#[derive(Clone, Copy, Debug, PartialEq, Eq, Structural)]
pub enum DeriveError {
    /// The phrase is not a valid BIP39 mnemonic.
    InvalidPhrase,
    /// Hierarchical derivation failed on the seed.
    KeyDerivation,
    /// The derived bytes are not a valid secp256k1 scalar.
    InvalidScalar,
}

impl Address {
    /// The address bytes, as a sequence.
    pub closed spec fn view(&self) -> Seq<u8> {
        self.bytes@
    }

    /// An address holds exactly 20 bytes.
    pub open spec fn wf(&self) -> bool {
        self@.len() == 20
    }

    /// The address bytes.
    pub fn bytes(&self) -> (b: &[u8])
        ensures
            b@ == self@,
    {
        self.bytes.as_slice()
    }

    /// Lowercase hex rendering of the address, without a "0x" prefix.
    pub fn to_hex(&self) -> (s: String)
        ensures
            s@ == hex_of(self@),
    {
        hex_encode(self.bytes.as_slice())
    }
}

/// Determinism of derivation: the whole derive → hash → address chain is
/// a function of the phrase alone, so any two addresses that meet
/// `derive_address`'s contract for the same phrase are the same address,
/// across calls and across runs.
pub proof fn lemma_derive_deterministic(phrase: Seq<char>, first: Seq<u8>, second: Seq<u8>)
    requires
        first == spec_address(phrase),
        second == spec_address(phrase),
    ensures
        first == second,
{
}

/// Derives the address of a mnemonic phrase: seed with empty passphrase,
/// BIP32 derivation at `m/44'/60'/0'/0/0`, uncompressed public key,
/// Keccak-256 of its 64-byte body, low 20 bytes of the digest.
pub fn derive_address(phrase: &str) -> (r: Result<Address, DeriveError>)
    ensures
        r is Ok <==> derivation_ok(phrase@),
        r is Ok ==> r.unwrap().wf() && r.unwrap()@ == spec_address(phrase@),
        r == Err::<Address, DeriveError>(DeriveError::InvalidPhrase) <==> !phrase_valid(phrase@),
        r == Err::<Address, DeriveError>(DeriveError::KeyDerivation) <==> phrase_valid(phrase@)
            && spec_secret(phrase@) is None,
        r == Err::<Address, DeriveError>(DeriveError::InvalidScalar) <==> phrase_valid(phrase@)
            && spec_secret(phrase@) is Some && spec_pubkey(phrase@) is None,
{
    let path = "m/44'/60'/0'/0/0";
    let passphrase = "";

    let seed = match phrase_to_seed(phrase, passphrase) {
        Some(seed) => seed,
        None => {
            return Err(DeriveError::InvalidPhrase);
        },
    };

    let secret = match hd_derive_secret(seed.as_slice(), path) {
        Some(secret) => secret,
        None => {
            return Err(DeriveError::KeyDerivation);
        },
    };

    let public = match secret_to_public_uncompressed(&secret) {
        Some(public) => public,
        None => {
            return Err(DeriveError::InvalidScalar);
        },
    };

    let body: &[u8] = &public[1..65];
    proof {
        assert(body@ =~= spec_pubkey(phrase@).unwrap().skip(1));
    }

    let digest = keccak256(body);
    let tail: &[u8] = &digest[12..32];
    proof {
        assert(tail@ =~= spec_address(phrase@));
    }

    Ok(Address { bytes: slice_to_vec(tail) })
}

/// Generates a fresh mnemonic of the requested word count and derives its
/// address.  The phrase is random; the address is pinned to the phrase
/// that comes back.  An error past phrase generation signals a derivation
/// bug and never an invalid phrase.
pub fn generate_address(word_count: u32) -> (r: Result<(String, Address), DeriveError>)
    requires
        word_count == 12 || word_count == 24,
    ensures
        r is Ok ==> {
            &&& phrase_valid(r.unwrap().0@)
            &&& word_count_of(r.unwrap().0@) == word_count
            &&& derivation_ok(r.unwrap().0@)
            &&& r.unwrap().1.wf()
            &&& r.unwrap().1@ == spec_address(r.unwrap().0@)
        },
        r is Err ==> r.unwrap_err() != DeriveError::InvalidPhrase,
{
    let phrase = generate_phrase(word_count);
    match derive_address(phrase.as_str()) {
        Ok(address) => Ok((phrase, address)),
        Err(e) => Err(e),
    }
}

} // verus!
