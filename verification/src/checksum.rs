use vstd::prelude::*;

verus! {

/// The SHA-512 digest of a byte string.
pub uninterp spec fn sha512_digest(data: Seq<u8>) -> Seq<u8>;

/// The lower-case hexadecimal digit for a value below sixteen.
pub open spec fn hex_digit(v: nat) -> char {
    if v < 10 {
        crate::text::digit(v)
    } else if v == 10 {
        'a'
    } else if v == 11 {
        'b'
    } else if v == 12 {
        'c'
    } else if v == 13 {
        'd'
    } else if v == 14 {
        'e'
    } else {
        'f'
    }
}

/// Two lower-case hexadecimal digits for each byte, the high one first.
pub open spec fn hex_text(data: Seq<u8>) -> Seq<char> {
    Seq::new(
        2 * data.len(),
        |i: int|
            if i % 2 == 0 {
                hex_digit((data[i / 2] / 16) as nat)
            } else {
                hex_digit((data[i / 2] % 16) as nat)
            },
    )
}

/// The checksum of an uploaded archive: its SHA-512 digest in hexadecimal.
pub open spec fn checksum_text(data: Seq<u8>) -> Seq<char> {
    hex_text(sha512_digest(data))
}

/// `sha2::Sha512::digest`: the SHA-512 digest of the bytes, which is 64 bytes
/// long. Trusted.
#[verifier::external_body]
fn sha512(data: &[u8]) -> (digest: Vec<u8>)
    ensures
        digest@ == sha512_digest(data@),
        digest@.len() == 64,
{
    <sha2::Sha512 as sha2::Digest>::digest(data).to_vec()
}

/// `hex::encode`: each byte written as two lower-case hexadecimal digits, in
/// order. Trusted.
#[verifier::external_body]
fn hex_encode(data: &[u8]) -> (text: String)
    ensures
        text@ == hex_text(data@),
{
    hex::encode(data)
}

/// The checksum that identifies an uploaded archive.
pub fn checksum(data: &[u8]) -> (text: String)
    ensures
        text@ == checksum_text(data@),
        text@.len() == 128,
{
    let digest = sha512(data);
    hex_encode(digest.as_slice())
}

/// Hexadecimal text determines the bytes it was made from: two byte strings
/// with the same text are the same byte string.
pub proof fn lemma_hex_text_injective(a: Seq<u8>, b: Seq<u8>)
    requires
        hex_text(a) == hex_text(b),
    ensures
        a == b,
{
    assert(hex_text(a).len() == 2 * a.len());
    assert(hex_text(b).len() == 2 * b.len());
    assert(a.len() == b.len());
    assert forall|k: int| 0 <= k < a.len() implies a[k] == b[k] by {
        let hi = hex_text(a)[2 * k];
        let lo = hex_text(a)[2 * k + 1];
        assert(hi == hex_text(b)[2 * k]);
        assert(lo == hex_text(b)[2 * k + 1]);
        assert((2 * k) / 2 == k && (2 * k + 1) / 2 == k);
        lemma_hex_digit_injective((a[k] / 16) as nat, (b[k] / 16) as nat);
        lemma_hex_digit_injective((a[k] % 16) as nat, (b[k] % 16) as nat);
    }
    assert(a =~= b);
}

/// Distinct values below sixteen have distinct hexadecimal digits.
pub proof fn lemma_hex_digit_injective(x: nat, y: nat)
    requires
        x < 16,
        y < 16,
        hex_digit(x) == hex_digit(y),
    ensures
        x == y,
{
}

/// Equal archives have equal checksums, and archives with distinct digests
/// have distinct checksums.
pub proof fn lemma_checksum_deterministic(a: Seq<u8>, b: Seq<u8>)
    ensures
        a == b ==> checksum_text(a) == checksum_text(b),
        sha512_digest(a) != sha512_digest(b) ==> checksum_text(a) != checksum_text(b),
{
    if checksum_text(a) == checksum_text(b) {
        lemma_hex_text_injective(sha512_digest(a), sha512_digest(b));
    }
}

} // verus!
