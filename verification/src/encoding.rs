//! Byte encodings used by the signer: standard base64 and the certificate
//! fingerprint derived from it.

use vstd::prelude::*;

use crate::outside::{base64_encode_standard, sha256, sha256_digest};

verus! {

/// The character of the standard base64 alphabet for a 6-bit value.
pub open spec fn base64_char(v: int) -> char {
    if v < 26 {
        (65 + v) as char
    } else if v < 52 {
        (97 + (v - 26)) as char
    } else if v < 62 {
        (48 + (v - 52)) as char
    } else if v == 62 {
        '+'
    } else {
        '/'
    }
}

/// Standard base64 (RFC 4648 alphabet, `=` padding): every group of three
/// bytes becomes four characters; a final group of one or two bytes is
/// padded to four characters with `=`.
pub open spec fn base64_standard(s: Seq<u8>) -> Seq<char>
    decreases s.len(),
{
    if s.len() == 0 {
        seq![]
    } else {
        let a = s[0] as int;
        let b = if s.len() > 1 { s[1] as int } else { 0 };
        let c = if s.len() > 2 { s[2] as int } else { 0 };
        if s.len() == 1 {
            seq![base64_char(a / 4), base64_char((a % 4) * 16), '=', '=']
        } else if s.len() == 2 {
            seq![base64_char(a / 4), base64_char((a % 4) * 16 + b / 16), base64_char((b % 16) * 4), '=']
        } else {
            seq![
                base64_char(a / 4),
                base64_char((a % 4) * 16 + b / 16),
                base64_char((b % 16) * 4 + c / 64),
                base64_char(c % 64),
            ] + base64_standard(s.subrange(3, s.len() as int))
        }
    }
}

/// The fingerprint of a signing certificate that the signing tool expects:
/// the base64 encoding of the first 16 bytes of the certificate's SHA-256
/// digest.
pub open spec fn cert_fingerprint(cert: Seq<u8>) -> Seq<char> {
    base64_standard(sha256(cert).take(16))
}

/// The fingerprint covers the whole certificate: it is the base64 text of
/// the first 16 bytes of the SHA-256 digest of every byte of `cert`, so two
/// certificates with the same digest have the same fingerprint and a
/// certificate's fingerprint never depends on a part of it alone.
pub proof fn law_fingerprint_of_whole_certificate(cert: Seq<u8>, other: Seq<u8>)
    ensures
        cert_fingerprint(cert) == base64_standard(sha256(cert).take(16)),
        sha256(cert) == sha256(other) ==> cert_fingerprint(cert) == cert_fingerprint(other),
{
}

/// The length of a padded base64 text: four characters per started group of
/// three bytes.
pub proof fn law_base64_length(s: Seq<u8>)
    ensures
        base64_standard(s).len() == 4 * ((s.len() + 2) / 3),
    decreases s.len(),
{
    if s.len() > 2 {
        law_base64_length(s.subrange(3, s.len() as int));
    }
}

/// The fingerprint of a certificate from its SHA-256 digest: base64 of the
/// digest's first 16 bytes, always 24 characters long.
pub fn fingerprint_from_digest(digest: &[u8]) -> (fingerprint: String)
    requires
        digest@.len() >= 16,
    ensures
        fingerprint@ == base64_standard(digest@.take(16)),
        fingerprint_shape(fingerprint@),
{
    let mut prefix: Vec<u8> = Vec::new();
    let mut i: usize = 0;
    while i < 16
        invariant
            i <= 16,
            digest@.len() >= 16,
            prefix@ == digest@.take(i as int),
        decreases 16 - i,
    {
        prefix.push(digest[i]);
        i = i + 1;
        assert(prefix@ =~= digest@.take(i as int));
    }
    let fingerprint = base64_encode_standard(prefix.as_slice());
    proof {
        law_base64_length(prefix@);
        law_base64_one_byte_tail(prefix@);
    }
    fingerprint
}

/// Whether `c` belongs to the standard base64 alphabet (padding excluded).
pub open spec fn is_base64_symbol(c: char) -> bool {
    ('A' <= c && c <= 'Z') || ('a' <= c && c <= 'z') || ('0' <= c && c <= '9') || c == '+' || c
        == '/'
}

/// The shape of the base64 text of 16 bytes: 22 alphabet characters
/// followed by `==`.
pub open spec fn fingerprint_shape(t: Seq<char>) -> bool {
    &&& t.len() == 24
    &&& t[22] == '='
    &&& t[23] == '='
    &&& forall|i: int| 0 <= i < 22 ==> is_base64_symbol(#[trigger] t[i])
}

proof fn lemma_base64_char_symbol(v: int)
    requires
        0 <= v < 64,
    ensures
        is_base64_symbol(base64_char(v)),
{
}

/// The base64 text of a byte string whose length leaves one byte over a
/// multiple of three ends in `==`, and every character before the padding
/// is from the alphabet.
pub proof fn law_base64_one_byte_tail(s: Seq<u8>)
    requires
        s.len() % 3 == 1,
    ensures
        ({
            let t = base64_standard(s);
            &&& t.len() >= 4
            &&& t[t.len() - 1] == '='
            &&& t[t.len() - 2] == '='
            &&& forall|i: int| 0 <= i < t.len() - 2 ==> is_base64_symbol(#[trigger] t[i])
        }),
    decreases s.len(),
{
    let t = base64_standard(s);
    let a = s[0] as int;
    if s.len() == 1 {
        lemma_base64_char_symbol(a / 4);
        lemma_base64_char_symbol((a % 4) * 16);
    } else {
        let b = s[1] as int;
        let c = s[2] as int;
        let rest = s.subrange(3, s.len() as int);
        law_base64_one_byte_tail(rest);
        let r = base64_standard(rest);
        let p = seq![
            base64_char(a / 4),
            base64_char((a % 4) * 16 + b / 16),
            base64_char((b % 16) * 4 + c / 64),
            base64_char(c % 64),
        ];
        assert(t == p + r);
        lemma_base64_char_symbol(a / 4);
        lemma_base64_char_symbol((a % 4) * 16 + b / 16);
        lemma_base64_char_symbol((b % 16) * 4 + c / 64);
        lemma_base64_char_symbol(c % 64);
        assert forall|i: int| 0 <= i < t.len() - 2 implies is_base64_symbol(#[trigger] t[i]) by {
            if i < 4 {
                assert(t[i] == p[i]);
            } else {
                assert(t[i] == r[i - 4]);
            }
        }
        assert(t[t.len() - 1] == r[r.len() - 1]);
        assert(t[t.len() - 2] == r[r.len() - 2]);
    }
}

/// Computes the certificate fingerprint: base64 of the first 16 bytes of the
/// SHA-256 digest of `cert`. The fingerprint is always 24 characters long.
pub fn cert_hash_b64(cert: &[u8]) -> (fingerprint: String)
    ensures
        fingerprint@ == cert_fingerprint(cert@),
        fingerprint@ == base64_standard(sha256(cert@).take(16)),
        fingerprint_shape(fingerprint@),
{
    let digest = sha256_digest(cert);
    fingerprint_from_digest(digest.as_slice())
}

} // verus!
