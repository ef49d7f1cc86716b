//! Shared-secret HMAC-SHA256 authentication of webhook bodies.

use vstd::prelude::*;
use hmac::Mac;

verus! {

/// The HMAC-SHA256 digest of `msg` keyed by the UTF-8 encoding of `key`.
pub uninterp spec fn hmac_sha256_of(key: Seq<char>, msg: Seq<u8>) -> Seq<u8>;

/// Number of bytes in a SHA-256 based digest.
pub const DIGEST_LEN: usize = 32;

/// The lowercase hexadecimal digit for a value below 16.
pub open spec fn hex_digit(v: u8) -> char {
    if v < 10 {
        (('0' as u8) + v) as char
    } else {
        (('a' as u8) + (v - 10)) as char
    }
}

/// Lowercase hexadecimal text of a byte string: two digits per byte, high nibble first.
pub open spec fn hex_of(b: Seq<u8>) -> Seq<char> {
    Seq::new(
        2 * b.len(),
        |i: int|
            if i % 2 == 0 {
                hex_digit(b[i / 2] / 16)
            } else {
                hex_digit(b[i / 2] % 16)
            },
    )
}

/// The literal prefix a signature header may carry.
pub open spec fn sig_prefix() -> Seq<char> {
    seq!['s', 'h', 'a', '2', '5', '6', '=']
}

/// A header value with one leading `sha256=` removed, if present.
pub open spec fn strip_sig_prefix(h: Seq<char>) -> Seq<char> {
    if h.len() >= 7 && h.subrange(0, 7) == sig_prefix() {
        h.subrange(7, h.len() as int)
    } else {
        h
    }
}

/// Whether `header` authenticates a body whose HMAC digest is `digest`.
pub open spec fn header_matches_digest(digest: Seq<u8>, header: Seq<char>) -> bool {
    header.len() > 0 && strip_sig_prefix(header) == hex_of(digest)
}

/// Whether `header` authenticates `body` under `secret`.
pub open spec fn signature_valid(secret: Seq<char>, body: Seq<u8>, header: Seq<char>) -> bool {
    header_matches_digest(hmac_sha256_of(secret, body), header)
}

/// Relies on hmac's `Hmac<Sha256>` (`new_from_slice`, `update`, `finalize`):
/// the MAC of `msg` under the key bytes, a 32-byte digest. Any key length is
/// accepted by `new_from_slice` for HMAC.
#[verifier::external_body]
fn hmac_sha256(key: &str, msg: &[u8]) -> (r: Vec<u8>)
    ensures
        r@ == hmac_sha256_of(key@, msg@),
        r@.len() == DIGEST_LEN,
{
    let mut mac = <hmac::Hmac<sha2::Sha256> as Mac>::new_from_slice(key.as_bytes())
        .expect("HMAC accepts keys of any length");
    mac.update(msg);
    mac.finalize().into_bytes().to_vec()
}

/// Relies on hex::encode: two lowercase digits per byte, high nibble first.
#[verifier::external_body]
fn hex_encode(b: &[u8]) -> (r: String)
    ensures
        r@ == hex_of(b@),
{
    hex::encode(b)
}

proof fn lemma_hex_digit_ascii(v: u8)
    requires
        v < 16,
    ensures
        (hex_digit(v) as u32) < 128,
        hex_digit(v) != '=',
{
}

proof fn lemma_hex_ascii(b: Seq<u8>)
    ensures
        vstd::utf8::is_ascii_chars(hex_of(b)),
{
    assert forall|i: int| 0 <= i < hex_of(b).len() implies (#[trigger] hex_of(b)[i] as u32) < 128 by {
        lemma_hex_digit_ascii(b[i / 2] / 16);
        lemma_hex_digit_ascii(b[i / 2] % 16);
    }
}

/// Compares two byte strings in time that depends only on their lengths:
/// every position is examined, whatever the first difference.
pub fn constant_time_eq(a: &[u8], b: &[u8]) -> (r: bool)
    ensures
        r == (a@ == b@),
{
    if a.len() != b.len() {
        return false;
    }
    let mut diff: u8 = 0;
    let mut i: usize = 0;
    while i < a.len()
        invariant
            a@.len() == b@.len(),
            0 <= i <= a@.len(),
            (diff == 0) == (forall|j: int| 0 <= j < i ==> a@[j] == b@[j]),
        decreases a@.len() - i,
    {
        let x = a[i];
        let y = b[i];
        let next = diff | (x ^ y);
        assert((next == 0) == (diff == 0 && x == y)) by (bit_vector)
            requires
                next == diff | (x ^ y),
        ;
        diff = next;
        i = i + 1;
    }
    assert(diff == 0 ==> a@ =~= b@);
    diff == 0
}

/// The bytes of the `sha256=` prefix.
spec fn sig_prefix_bytes() -> Seq<u8> {
    seq![115u8, 104u8, 97u8, 50u8, 53u8, 54u8, 61u8]
}

fn has_sig_prefix(h: &[u8]) -> (r: bool)
    ensures
        r == (h@.len() >= 7 && h@.subrange(0, 7) == sig_prefix_bytes()),
{
    let r = h.len() >= 7 && h[0] == 115u8 && h[1] == 104u8 && h[2] == 97u8 && h[3] == 50u8
        && h[4] == 53u8 && h[5] == 54u8 && h[6] == 61u8;
    if h.len() >= 7 {
        assert(r == (h@.subrange(0, 7) =~= sig_prefix_bytes()));
    }
    r
}

proof fn lemma_ascii_bytes_eq(x: Seq<char>, y: Seq<char>)
    requires
        vstd::utf8::is_ascii_chars(x),
        vstd::utf8::is_ascii_chars(y),
        Seq::new(x.len(), |i: int| x[i] as u8) == Seq::new(y.len(), |i: int| y[i] as u8),
    ensures
        x == y,
{
    let bx = Seq::new(x.len(), |i: int| x[i] as u8);
    let by = Seq::new(y.len(), |i: int| y[i] as u8);
    assert(bx.len() == by.len());
    assert forall|i: int| 0 <= i < x.len() implies x[i] == y[i] by {
        assert(bx[i] == by[i]);
        assert((x[i] as u32) < 128);
        assert((y[i] as u32) < 128);
    }
    assert(x =~= y);
}

/// Checks a signature header against an already computed body digest.
/// The header may carry one `sha256=` prefix; the remainder must be the
/// lowercase hex text of the digest. The final comparison is constant-time.
pub fn signature_matches(digest: &[u8], header: &str) -> (r: bool)
    ensures
        r == header_matches_digest(digest@, header@),
{
    if header.is_empty() {
        return false;
    }
    let expected = hex_encode(digest);
    proof {
        lemma_hex_ascii(digest@);
    }
    if !header.is_ascii() {
        proof {
            let h = header@;
            if strip_sig_prefix(h) == hex_of(digest@) {
                assert forall|i: int| 0 <= i < h.len() implies '\0' <= #[trigger] h[i] <= '\u{7f}' by {
                    if h.len() >= 7 && h.subrange(0, 7) == sig_prefix() {
                        if i < 7 {
                            assert(h[i] == h.subrange(0, 7)[i]);
                        } else {
                            assert(h[i] == strip_sig_prefix(h)[i - 7]);
                        }
                    } else {
                        assert(h[i] == strip_sig_prefix(h)[i]);
                    }
                }
            }
        }
        return false;
    }
    let hb = header.as_bytes();
    proof {
        vstd::string::is_ascii_spec_bytes(header);
    }
    let rest: &str = if has_sig_prefix(hb) {
        proof {
            let h = header@;
            assert(h.subrange(0, 7) =~= sig_prefix()) by {
                assert forall|i: int| 0 <= i < 7 implies h[i] as u8 == sig_prefix_bytes()[i] by {
                    assert(hb@[i] == h[i] as u8);
                    assert(h.subrange(0, 7)[i] == h[i]);
                }
                assert forall|i: int| 0 <= i < 7 implies h.subrange(0, 7)[i] == sig_prefix()[i] by {
                    assert(hb@[i] == h[i] as u8);
                    assert((h[i] as u32) < 128);
                }
            }
        }
        header.substring_ascii(7, hb.len())
    } else {
        proof {
            let h = header@;
            if h.len() >= 7 && h.subrange(0, 7) == sig_prefix() {
                assert(hb@.subrange(0, 7) =~= sig_prefix_bytes()) by {
                    assert forall|i: int| 0 <= i < 7 implies hb@[i] == sig_prefix_bytes()[i] by {
                        assert(h.subrange(0, 7)[i] == h[i]);
                    }
                }
            }
        }
        header
    };
    assert(rest@ == strip_sig_prefix(header@));
    let es: &str = expected.as_str();
    let eb = es.as_bytes();
    let rb = rest.as_bytes();
    proof {
        vstd::string::is_ascii_spec_bytes(es);
        vstd::string::is_ascii_spec_bytes(rest);
    }
    let same = constant_time_eq(eb, rb);
    proof {
        if same {
            lemma_ascii_bytes_eq(expected@, rest@);
        }
    }
    same
}

/// Authenticates a webhook body: true exactly when the header is non-empty and,
/// after removing one optional `sha256=` prefix, equals the lowercase hex
/// HMAC-SHA256 of `body` keyed by `secret`.
pub fn verify_signature(secret: &str, body: &[u8], signature_header: &str) -> (r: bool)
    ensures
        r == signature_valid(secret@, body@, signature_header@),
{
    if signature_header.is_empty() {
        return false;
    }
    let digest = hmac_sha256(secret, body);
    signature_matches(digest.as_slice(), signature_header)
}

proof fn lemma_hex_digit_injective(x: u8, y: u8)
    requires
        x < 16,
        y < 16,
        hex_digit(x) == hex_digit(y),
    ensures
        x == y,
{
}

proof fn lemma_prefixed_strip(t: Seq<char>)
    ensures
        strip_sig_prefix(sig_prefix() + t) == t,
        (sig_prefix() + t).len() > 0,
{
    let h = sig_prefix() + t;
    assert(h.subrange(0, 7) =~= sig_prefix());
    assert(h.subrange(7, h.len() as int) =~= t);
}

/// A header made of `sha256=` followed by the hex HMAC-SHA256 of the body
/// under the secret always authenticates that body.
pub proof fn correct_signature_accepted(secret: Seq<char>, body: Seq<u8>)
    ensures
        signature_valid(secret, body, sig_prefix() + hex_of(hmac_sha256_of(secret, body))),
{
    lemma_prefixed_strip(hex_of(hmac_sha256_of(secret, body)));
}

/// Flipping any single bit of the correct digest makes the header be rejected.
pub proof fn flipped_signature_rejected(secret: Seq<char>, body: Seq<u8>, k: int, bit: u8)
    requires
        0 <= k < hmac_sha256_of(secret, body).len(),
        bit < 8,
    ensures
        !signature_valid(
            secret,
            body,
            sig_prefix() + hex_of(
                hmac_sha256_of(secret, body).update(
                    k,
                    hmac_sha256_of(secret, body)[k] ^ (1u8 << bit),
                ),
            ),
        ),
{
    let d = hmac_sha256_of(secret, body);
    let x = d[k];
    let y = (x ^ (1u8 << bit)) as u8;
    let d2 = d.update(k, y);
    assert(x != y) by (bit_vector)
        requires
            bit < 8,
            y == x ^ (1u8 << bit),
    ;
    lemma_prefixed_strip(hex_of(d2));
    if hex_of(d2) == hex_of(d) {
        assert(hex_of(d2)[2 * k] == hex_of(d)[2 * k]);
        assert(hex_of(d2)[2 * k + 1] == hex_of(d)[2 * k + 1]);
        assert((2 * k) / 2 == k);
        assert((2 * k + 1) / 2 == k);
        assert(d2[k] == y);
        lemma_hex_digit_injective(x / 16, y / 16);
        lemma_hex_digit_injective(x % 16, y % 16);
        assert(false);
    }
}

} // verus!
