//! Fresh secrets for one login attempt: the state nonce and the PKCE pair.
//!
//! Randomness, base64 and SHA-256 come from the `rand`, `base64` and `sha2`
//! crates. What is proved here is how they are put together and what that
//! gives: the lengths, the alphabet, and that the challenge is the encoded
//! digest of the verifier. The operating system may fail to supply random
//! bytes; every draw says so by giving `None`.

use vstd::prelude::*;
use base64::Engine;
use sha2::Digest;
use rand::RngCore;

verus! {

/// How many random bytes make a PKCE verifier.
pub const VERIFIER_BYTES: usize = 64;

/// How many random bytes make a state nonce.
pub const STATE_BYTES: usize = 18;

/// Whether `c` belongs to the URL-safe base64 alphabet.
pub open spec fn is_url_safe(c: char) -> bool {
    ||| 'A' <= c <= 'Z'
    ||| 'a' <= c <= 'z'
    ||| '0' <= c <= '9'
    ||| c == '-'
    ||| c == '_'
}

/// Whether every character of `s` belongs to the URL-safe base64 alphabet.
pub open spec fn all_url_safe(s: Seq<char>) -> bool {
    forall|i: int| 0 <= i < s.len() ==> is_url_safe(#[trigger] s[i])
}

/// The URL-safe alphabet is part of ASCII.
pub proof fn lemma_url_safe_is_ascii(s: Seq<char>)
    requires
        all_url_safe(s),
    ensures
        vstd::utf8::is_ascii_chars(s),
{
    assert forall|i: int| 0 <= i < s.len() implies '\0' <= #[trigger] s[i] <= '\u{7f}' by {
        assert(is_url_safe(s[i]));
    }
}

/// The length of the unpadded base64 encoding of `n` bytes.
pub open spec fn base64_len(n: nat) -> nat {
    n / 3 * 4 + if n % 3 == 0 {
        0nat
    } else if n % 3 == 1 {
        2nat
    } else {
        3nat
    }
}

/// The URL-safe base64 encoding of `bytes`, without padding.
pub uninterp spec fn base64url(bytes: Seq<u8>) -> Seq<char>;

/// The SHA-256 digest of `bytes`.
pub uninterp spec fn sha256(bytes: Seq<u8>) -> Seq<u8>;

/// Whether `text` is the encoding of `bytes`, and of no other bytes.
pub open spec fn encodes_only(text: Seq<char>, bytes: Seq<u8>) -> bool {
    &&& text == base64url(bytes)
    &&& forall|other: Seq<u8>| #[trigger] base64url(other) == text ==> other == bytes
}

/// Whether `text` is the encoding of some `n` bytes.
pub open spec fn encodes_bytes(text: Seq<char>, n: nat) -> bool {
    exists|bytes: Seq<u8>| bytes.len() == n && #[trigger] encodes_only(text, bytes)
}

/// Texts that encode different bytes are different texts: two draws give
/// the same secret only where they gave the same bytes.
pub proof fn lemma_different_bytes_different_texts(
    first: Seq<char>,
    second: Seq<char>,
    first_bytes: Seq<u8>,
    second_bytes: Seq<u8>,
)
    requires
        encodes_only(first, first_bytes),
        encodes_only(second, second_bytes),
        first_bytes != second_bytes,
    ensures
        first != second,
{
}

/// `URL_SAFE_NO_PAD.encode` of the `base64` crate: the encoding of the
/// input in the alphabet `A-Z a-z 0-9 - _`, four characters for each three
/// bytes, two or three for a rest of one or two bytes, and no padding. It
/// panics where that length does not fit in `usize`. Each character
/// stands for six bits of the input, in a table of 64 different
/// characters, and the length of the text gives the number of bytes: so
/// no other bytes have the same encoding. Believed of the crate, not
/// proved: the length, the alphabet and that the encoding is one-to-one
/// are stated, the characters themselves are only named.
#[verifier::external_body]
fn encode_base64url(bytes: &[u8]) -> (text: String)
    requires
        base64_len(bytes@.len()) <= usize::MAX,
    ensures
        text@ == base64url(bytes@),
        encodes_only(text@, bytes@),
        text@.len() == base64_len(bytes@.len()),
        all_url_safe(text@),
{
    base64::engine::general_purpose::URL_SAFE_NO_PAD.encode(bytes)
}

/// `Sha256::digest` of the `sha2` crate: the SHA-256 digest of the input,
/// which is 32 bytes long. Believed of the crate, not proved: the digest
/// is only named.
#[verifier::external_body]
fn sha256_digest(bytes: &[u8]) -> (digest: Vec<u8>)
    ensures
        digest@ == sha256(bytes@),
        digest@.len() == 32,
{
    sha2::Sha256::digest(bytes).to_vec()
}

/// `OsRng.try_fill_bytes` of the `rand` crate overwrites the buffer with
/// bytes from the operating system's random source and says whether the
/// operating system supplied them. The buffer keeps its length either way.
/// Believed of the crate, not proved; nothing is claimed of the bytes, nor
/// of when the source fails.
#[verifier::external_body]
fn fill_random(buf: &mut Vec<u8>) -> (ok: bool)
    ensures
        final(buf)@.len() == old(buf)@.len(),
{
    rand::rngs::OsRng.try_fill_bytes(buf.as_mut_slice()).is_ok()
}

/// Draws `n_bytes` random bytes and encodes them in URL-safe base64
/// without padding, or gives `None` where the operating system supplied
/// no random bytes. The bytes and their encoding must fit in memory.
pub fn random_base64url(n_bytes: usize) -> (drawn: Option<String>)
    requires
        n_bytes <= isize::MAX,
        base64_len(n_bytes as nat) <= usize::MAX,
    ensures
        drawn matches Some(text) ==> {
            &&& encodes_bytes(text@, n_bytes as nat)
            &&& text@.len() == base64_len(n_bytes as nat)
            &&& all_url_safe(text@)
        },
{
    let mut buf: Vec<u8> = vec![0u8; n_bytes];
    if fill_random(&mut buf) {
        Some(encode_base64url(buf.as_slice()))
    } else {
        None
    }
}

/// A fresh PKCE verifier: 64 random bytes, encoded, which gives 86
/// characters; `None` where the operating system supplied no random bytes.
pub fn pkce_verifier() -> (drawn: Option<String>)
    ensures
        drawn matches Some(verifier) ==> {
            &&& encodes_bytes(verifier@, VERIFIER_BYTES as nat)
            &&& verifier@.len() == 86
            &&& all_url_safe(verifier@)
        },
{
    random_base64url(VERIFIER_BYTES)
}

/// A fresh state nonce: 18 random bytes, encoded, which gives 24
/// characters; `None` where the operating system supplied no random bytes.
pub fn state_nonce() -> (drawn: Option<String>)
    ensures
        drawn matches Some(state) ==> {
            &&& encodes_bytes(state@, STATE_BYTES as nat)
            &&& state@.len() == 24
            &&& all_url_safe(state@)
        },
{
    random_base64url(STATE_BYTES)
}

/// The S256 challenge of `verifier`: the encoded digest of its bytes.
pub open spec fn challenge_of(verifier: Seq<char>) -> Seq<char> {
    base64url(sha256(vstd::utf8::encode_utf8(verifier)))
}

/// Computes the S256 challenge of `verifier`, which is 43 characters long.
pub fn pkce_challenge_s256(verifier: &str) -> (challenge: String)
    ensures
        challenge@ == challenge_of(verifier@),
        challenge@.len() == 43,
        all_url_safe(challenge@),
{
    let digest = sha256_digest(verifier.as_bytes());
    encode_base64url(digest.as_slice())
}

/// A PKCE verifier with its challenge.
pub struct PkcePair {
    pub verifier: String,
    pub challenge: String,
}

impl PkcePair {
    /// Whether the pair is one that a server accepts for the S256 method:
    /// the verifier has 43 to 128 characters of the URL-safe alphabet, and
    /// the challenge is the one that belongs to it, which has 43.
    pub open spec fn wf(&self) -> bool {
        &&& 43 <= self.verifier@.len() <= 128
        &&& all_url_safe(self.verifier@)
        &&& self.challenge@ == challenge_of(self.verifier@)
        &&& self.challenge@.len() == 43
        &&& all_url_safe(self.challenge@)
    }

    /// Whether the pair is as `build_pkce_pair` makes one: well formed,
    /// with a verifier that is the encoding of 64 bytes.
    pub open spec fn drawn(&self) -> bool {
        &&& self.wf()
        &&& encodes_bytes(self.verifier@, VERIFIER_BYTES as nat)
        &&& self.verifier@.len() == 86
    }

    /// The pair for `verifier`: the verifier with the challenge that
    /// belongs to it.
    pub fn for_verifier(verifier: String) -> (pair: PkcePair)
        ensures
            pair.verifier == verifier,
            pair.challenge@ == challenge_of(verifier@),
            pair.challenge@.len() == 43,
            all_url_safe(pair.challenge@),
    {
        let challenge = pkce_challenge_s256(verifier.as_str());
        PkcePair { verifier, challenge }
    }

    /// The name of the challenge method, which is always S256.
    pub fn method(&self) -> (name: &'static str)
        ensures
            name@ == "S256"@,
    {
        "S256"
    }
}

/// Builds a fresh pair, or gives `None` where the operating system
/// supplied no random bytes.
pub fn build_pkce_pair() -> (built: Option<PkcePair>)
    ensures
        built matches Some(pair) ==> pair.drawn(),
{
    match pkce_verifier() {
        Some(verifier) => Some(PkcePair::for_verifier(verifier)),
        None => None,
    }
}

} // verus!
