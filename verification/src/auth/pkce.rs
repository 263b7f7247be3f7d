//! PKCE (Proof Key for Code Exchange) verifier and challenge pairs.
use base64::engine::general_purpose::URL_SAFE_NO_PAD;
use base64::Engine;
use rand::Rng;
use sha2::{Digest, Sha256};
use vstd::prelude::*;
use vstd::string::StrSliceExecFns;
use vstd::utf8::{encode_utf8, is_ascii_chars, is_ascii_chars_encode_utf8};

verus! {

/// The SHA-256 digest of `data`, as sha2 computes it.
pub uninterp spec fn sha256_digest(data: Seq<u8>) -> Seq<u8>;

/// The URL-safe base64 encoding of `data` without padding, as base64 computes it.
pub uninterp spec fn base64_url_nopad(data: Seq<u8>) -> Seq<char>;

/// The characters of the URL-safe base64 alphabet.
pub open spec fn is_url_safe(c: char) -> bool {
    ('a' <= c && c <= 'z') || ('A' <= c && c <= 'Z') || ('0' <= c && c <= '9') || c == '-' || c
        == '_'
}

/// Whether every character of `s` is in the URL-safe base64 alphabet.
pub open spec fn all_url_safe(s: Seq<char>) -> bool {
    forall|i: int| 0 <= i < s.len() ==> is_url_safe(#[trigger] s[i])
}

/// The length of the unpadded base64 encoding of `n` bytes.
pub open spec fn unpadded_len(n: nat) -> nat {
    4 * (n / 3) + if n % 3 == 1 {
        2nat
    } else if n % 3 == 2 {
        3nat
    } else {
        0nat
    }
}

/// The challenge that belongs to a verifier: the URL-safe, unpadded base64 encoding of
/// the SHA-256 digest of the verifier's UTF-8 bytes.
pub open spec fn challenge_for(verifier: Seq<char>) -> Seq<char> {
    base64_url_nopad(sha256_digest(encode_utf8(verifier)))
}

/// A valid verifier: 43 to 128 bytes, all from the URL-safe base64 alphabet.
pub open spec fn valid_verifier(verifier: Seq<char>) -> bool {
    &&& 43 <= encode_utf8(verifier).len() <= 128
    &&& all_url_safe(verifier)
}

/// Calls `sha2::Sha256::digest`. The result is named by `sha256_digest`; sha2 gives
/// a 32-byte digest.
#[verifier::external_body]
fn sha256(data: &[u8]) -> (r: Vec<u8>)
    ensures
        r@ == sha256_digest(data@),
        r@.len() == 32,
{
    Sha256::digest(data).to_vec()
}

/// Calls `URL_SAFE_NO_PAD.encode` of base64. The result is named by
/// `base64_url_nopad`; base64 documents its length and its alphabet
/// (`A`-`Z`, `a`-`z`, `0`-`9`, `-`, `_`, no padding). The encoder panics when the
/// output length overflows, which `requires` rules out.
#[verifier::external_body]
fn encode_url_safe(data: &[u8]) -> (r: String)
    requires
        4 * (data@.len() / 3) + 3 <= usize::MAX,
    ensures
        r@ == base64_url_nopad(data@),
        r@.len() == unpadded_len(data@.len()),
        all_url_safe(r@),
{
    URL_SAFE_NO_PAD.encode(data)
}

/// `rand::rngs::ThreadRng`, the thread-local random generator, carried as an opaque value.
#[verifier::external_type_specification]
#[verifier::external_body]
pub struct ExThreadRng(rand::rngs::ThreadRng);

/// Calls `rand::thread_rng`, a handle to the thread-local generator. Nothing is stated
/// of it.
#[verifier::external_body]
fn thread_rng() -> (r: rand::rngs::ThreadRng) {
    rand::thread_rng()
}

/// Calls `Rng::gen` for a `u8` on `rng`. Nothing is stated of the byte, which is random.
#[verifier::external_body]
fn random_byte(rng: &mut rand::rngs::ThreadRng) -> (r: u8) {
    rng.gen::<u8>()
}

/// Draws `n` random bytes, one at a time, from the thread-local generator.
fn random_bytes(n: usize) -> (r: Vec<u8>)
    ensures
        r@.len() == n,
{
    let mut rng = thread_rng();
    let mut bytes: Vec<u8> = Vec::new();
    let mut i: usize = 0;
    while i < n
        invariant
            i <= n,
            bytes@.len() == i,
        decreases n - i,
    {
        bytes.push(random_byte(&mut rng));
        i = i + 1;
    }
    bytes
}

/// Characters of the URL-safe alphabet are ASCII.
proof fn lemma_url_safe_is_ascii(s: Seq<char>)
    requires
        all_url_safe(s),
    ensures
        is_ascii_chars(s),
        encode_utf8(s).len() == s.len(),
{
    assert forall|i: int| 0 <= i < s.len() implies '\0' <= #[trigger] s[i] <= '\u{7f}' by {
        assert(is_url_safe(s[i]));
    }
    is_ascii_chars_encode_utf8(s);
}

/// Whether `c` is in the URL-safe base64 alphabet.
fn url_safe_char(c: char) -> (r: bool)
    ensures
        r == is_url_safe(c),
{
    ('a' <= c && c <= 'z') || ('A' <= c && c <= 'Z') || ('0' <= c && c <= '9') || c == '-' || c
        == '_'
}

/// Whether every character of `s` is in the URL-safe base64 alphabet.
fn url_safe_text(s: &str) -> (r: bool)
    ensures
        r == all_url_safe(s@),
{
    let n = s.unicode_len();
    let mut i: usize = 0;
    while i < n
        invariant
            i <= n,
            n == s@.len(),
            forall|k: int| 0 <= k < i ==> is_url_safe(#[trigger] s@[k]),
        decreases n - i,
    {
        if !url_safe_char(s.get_char(i)) {
            return false;
        }
        i = i + 1;
    }
    true
}

/// The challenge of a verifier, computed.
fn compute_challenge(verifier: &str) -> (r: String)
    requires
        4 * (32nat / 3) + 3 <= usize::MAX,
    ensures
        r@ == challenge_for(verifier@),
        r@.len() == 43,
        all_url_safe(r@),
{
    let hash = sha256(verifier.as_bytes());
    encode_url_safe(hash.as_slice())
}

/// Whether the verifier of `p` accepts `challenge`: it is the challenge derived from the
/// verifier.
pub open spec fn accepts(p: PkceChallenge, challenge: Seq<char>) -> bool {
    challenge_for(p.code_verifier@) == challenge
}

/// A PKCE verifier and its challenge.
#[derive(Debug, Clone)]
pub struct PkceChallenge {
    pub code_verifier: String,
    pub code_challenge: String,
}

impl PkceChallenge {
    /// The pair whose verifier encodes `bytes` in URL-safe base64 without padding, with
    /// the challenge derived from that verifier.
    pub fn from_bytes(bytes: &[u8]) -> (r: Self)
        requires
            4 * (bytes@.len() / 3) + 3 <= usize::MAX,
        ensures
            r.code_verifier@ == base64_url_nopad(bytes@),
            r.code_verifier@.len() == unpadded_len(bytes@.len()),
            all_url_safe(r.code_verifier@),
            r.code_challenge@ == challenge_for(r.code_verifier@),
            r.code_challenge@.len() == 43,
            all_url_safe(r.code_challenge@),
    {
        let code_verifier = encode_url_safe(bytes);
        let code_challenge = compute_challenge(code_verifier.as_str());
        PkceChallenge { code_verifier, code_challenge }
    }

    /// A new pair: the verifier encodes 32 random bytes in URL-safe base64 without
    /// padding (43 characters), and the challenge is derived from it.
    pub fn generate() -> (r: Self)
        ensures
            exists|b: Seq<u8>| b.len() == 32 && r.code_verifier@ == base64_url_nopad(b),
            r.code_challenge@ == challenge_for(r.code_verifier@),
            r.code_verifier@.len() == 43,
            r.code_challenge@.len() == 43,
            valid_verifier(r.code_verifier@),
            all_url_safe(r.code_challenge@),
    {
        let bytes = random_bytes(32);
        let r = Self::from_bytes(bytes.as_slice());
        proof {
            lemma_url_safe_is_ascii(r.code_verifier@);
            assert(bytes@.len() == 32 && r.code_verifier@ == base64_url_nopad(bytes@));
        }
        r
    }

    /// Whether `challenge` is the challenge that belongs to this verifier. The stored
    /// challenge plays no part; a derived challenge is always 43 characters long, so a
    /// text of another length is refused.
    pub fn verify(&self, challenge: &str) -> (r: bool)
        ensures
            r == accepts(*self, challenge@),
            challenge@.len() != 43 ==> !r,
    {
        let computed = compute_challenge(self.code_verifier.as_str());
        computed == challenge.to_owned()
    }

    /// Whether the verifier is valid: 43 to 128 bytes, all URL-safe.
    pub fn is_valid_verifier(&self) -> (r: bool)
        ensures
            r == valid_verifier(self.code_verifier@),
    {
        if !url_safe_text(self.code_verifier.as_str()) {
            return false;
        }
        proof {
            lemma_url_safe_is_ascii(self.code_verifier@);
        }
        let len = self.code_verifier.as_str().unicode_len();
        len >= 43 && len <= 128
    }

    /// Whether the challenge consists of URL-safe characters only.
    pub fn is_valid_challenge(&self) -> (r: bool)
        ensures
            r == all_url_safe(self.code_challenge@),
    {
        url_safe_text(self.code_challenge.as_str())
    }
}

/// A pair whose challenge is derived from a 43-character URL-safe verifier, as
/// `generate` makes it, is valid on both sides, and its `verify` accepts its own
/// challenge and no other text.
pub proof fn law_pair_consistency(p: PkceChallenge, other: Seq<char>)
    requires
        p.code_challenge@ == challenge_for(p.code_verifier@),
        p.code_verifier@.len() == 43,
        all_url_safe(p.code_verifier@),
    ensures
        valid_verifier(p.code_verifier@),
        accepts(p, p.code_challenge@),
        other != p.code_challenge@ ==> !accepts(p, other),
{
    lemma_url_safe_is_ascii(p.code_verifier@);
}

} // verus!
