//! SHA-256 digests of model files: their hexadecimal form and how a file's
//! digest is held against the catalog's.

use vstd::prelude::*;
use vstd::string::StringSliceAdditionalSpecFns;
use crate::text::{eq_ignore_ascii_case, eq_ignoring_ascii_case};

verus! {

/// The lower-case hexadecimal digit for a value below sixteen.
pub open spec fn hex_digit(v: int) -> char {
    if v < 10 {
        (('0' as int) + v) as char
    } else {
        (('a' as int) + v - 10) as char
    }
}

/// Bytes in lower-case hexadecimal: two digits per byte, high half first.
pub open spec fn hex_lower(data: Seq<u8>) -> Seq<char> {
    Seq::new(
        2 * data.len(),
        |i: int|
            if i % 2 == 0 {
                hex_digit(data[i / 2] as int / 16)
            } else {
                hex_digit(data[i / 2] as int % 16)
            },
    )
}

/// `hex::encode`: each byte as two lower-case hexadecimal digits, the high
/// half first, in the order of the bytes.
#[verifier::external_body]
fn hex_encode(data: &[u8]) -> (r: String)
    ensures
        r@ == hex_lower(data@),
{
    hex::encode(data)
}

/// A digest in the form the catalog writes it: lower-case hexadecimal.
pub fn digest_hex(digest: &[u8]) -> (r: String)
    ensures
        r@ == hex_lower(digest@),
        r@.len() == 2 * digest@.len(),
{
    hex_encode(digest)
}

/// The SHA-256 digest of `data`, as `sha2::Sha256` computes it.
pub uninterp spec fn sha256_of(data: Seq<u8>) -> Seq<u8>;

/// A SHA-256 computation in progress: a `sha2::Sha256` hasher that is fed
/// the input piece by piece, so that a large file never has to be held in
/// memory at once.
#[verifier::external_body]
pub struct Sha256State {
    inner: sha2::Sha256,
}

/// The bytes fed so far to a SHA-256 computation, in order.
pub uninterp spec fn hashed_input(state: Sha256State) -> Seq<u8>;

/// `Digest::new` for `sha2::Sha256`: a hasher that has been fed nothing.
#[verifier::external_body]
fn sha256_start() -> (s: Sha256State)
    ensures
        hashed_input(s) == Seq::<u8>::empty(),
{
    let inner: sha2::Sha256 = sha2::Digest::new();
    Sha256State { inner }
}

/// `Digest::update` for `sha2::Sha256`: the hasher has now been fed `chunk`
/// after everything it was fed before.
#[verifier::external_body]
fn sha256_feed(s: &mut Sha256State, chunk: &[u8])
    ensures
        hashed_input(*final(s)) == hashed_input(*old(s)) + chunk@,
{
    sha2::Digest::update(&mut s.inner, chunk)
}

/// `Digest::finalize` for `sha2::Sha256`: the digest of everything fed, the
/// same as hashing those bytes in one piece.
#[verifier::external_body]
fn sha256_finish(s: Sha256State) -> (d: Vec<u8>)
    ensures
        d@ == sha256_of(hashed_input(s)),
{
    sha2::Digest::finalize(s.inner).to_vec()
}

impl Sha256State {
    /// A new SHA-256 computation with nothing fed yet.
    pub fn new() -> (s: Sha256State)
        ensures
            hashed_input(s) == Seq::<u8>::empty(),
    {
        sha256_start()
    }

    /// Feeds the next piece of the input.
    pub fn feed(&mut self, chunk: &[u8])
        ensures
            hashed_input(*final(self)) == hashed_input(*old(self)) + chunk@,
    {
        sha256_feed(self, chunk)
    }
}

/// The SHA-256 of everything fed, in the form the catalog writes it:
/// lower-case hexadecimal.
pub fn digest_hex_of(s: Sha256State) -> (r: String)
    ensures
        r@ == hex_lower(sha256_of(hashed_input(s))),
{
    let d = sha256_finish(s);
    digest_hex(d.as_slice())
}

/// The catalog's SHA-256 is a placeholder: not 64 bytes long, or nothing
/// but zeros.
pub open spec fn is_placeholder(sha256: Seq<u8>) -> bool {
    sha256.len() != 64 || forall|i: int| 0 <= i < sha256.len() ==> sha256[i] == 0x30u8
}

/// Whether the catalog's SHA-256 for a model is a placeholder rather than a
/// real digest; downloads are refused for placeholders.
pub fn is_placeholder_digest(sha256: &str) -> (r: bool)
    ensures
        r == is_placeholder(sha256.spec_bytes()),
{
    let b = sha256.as_bytes();
    if b.len() != 64 {
        return true;
    }
    let mut i: usize = 0;
    while i < b.len()
        invariant
            b@ == sha256.spec_bytes(),
            b.len() == 64,
            i <= b.len(),
            forall|j: int| 0 <= j < i ==> b@[j] == 0x30u8,
        decreases b.len() - i,
    {
        if b[i] != 0x30u8 {
            assert(sha256.spec_bytes()[i as int] != 0x30u8);
            return false;
        }
        i = i + 1;
    }
    true
}

/// Two digests in text agree when their UTF-8 bytes are equal up to the
/// case of ASCII letters.
pub open spec fn digests_agree(actual: Seq<char>, expected: Seq<char>) -> bool {
    eq_ignoring_ascii_case(vstd::utf8::encode_utf8(actual), vstd::utf8::encode_utf8(expected))
}

/// A computed digest matches the catalog's when they agree up to the case
/// of ASCII letters.
pub fn digest_matches(actual: &str, expected: &str) -> (r: bool)
    ensures
        r == digests_agree(actual@, expected@),
{
    eq_ignore_ascii_case(actual, expected)
}

} // verus!
