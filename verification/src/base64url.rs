//! Base64 with the URL-safe alphabet and without padding.
use base64::Engine;
use vstd::prelude::*;

verus! {

/// The symbol that stands for the six-bit value `v`.
pub open spec fn symbol(v: int) -> char {
    if v < 26 {
        ('A' as int + v) as char
    } else if v < 52 {
        ('a' as int + v - 26) as char
    } else if v < 62 {
        ('0' as int + v - 52) as char
    } else if v == 62 {
        '-'
    } else {
        '_'
    }
}

/// What a two-byte window is divided by to drop the bits behind six bits that start at bit
/// `offset` of it.
pub open spec fn window_divisor(offset: int) -> int {
    if offset == 0 {
        1024
    } else if offset == 2 {
        256
    } else if offset == 4 {
        64
    } else {
        16
    }
}

/// The `i`-th run of six bits of `bytes`, with zero bits behind the last byte.
pub open spec fn sextet(bytes: Seq<u8>, i: int) -> int {
    let at = i * 6 / 8;
    let next = if at + 1 < bytes.len() {
        bytes[at + 1] as int
    } else {
        0
    };
    (bytes[at] as int * 256 + next) / window_divisor(i * 6 % 8) % 64
}

/// The encoding of `bytes`: one symbol for each run of six bits.
pub open spec fn base64_url(bytes: Seq<u8>) -> Seq<char> {
    Seq::new(((bytes.len() * 4 + 2) / 3) as nat, |i: int| symbol(sextet(bytes, i)))
}

/// The bytes whose encoding `text` is, where it is one.
pub open spec fn decoded(text: Seq<char>) -> Option<Seq<u8>> {
    if exists|bytes: Seq<u8>| base64_url(bytes) == text {
        Some(choose|bytes: Seq<u8>| base64_url(bytes) == text)
    } else {
        None
    }
}

/// `base64::Engine::decode` with the engine `URL_SAFE_NO_PAD`.
///
/// The engine takes no padding, rejects a last symbol with unused bits that are not zero and
/// knows no symbol but those of the alphabet. So it accepts a text exactly where the text is
/// the encoding of some bytes, and gives those bytes back.
#[verifier::external_body]
fn engine_decode(text: &str) -> (res: Option<Vec<u8>>)
    ensures
        match res {
            Some(bytes) => base64_url(bytes@) == text@,
            None => forall|bytes: Seq<u8>| #[trigger] base64_url(bytes) != text@,
        },
{
    base64::engine::general_purpose::URL_SAFE_NO_PAD.decode(text).ok()
}

/// The bytes that `text` encodes, where it encodes any.
pub fn decode(text: &str) -> (res: Option<Vec<u8>>)
    ensures
        match res {
            Some(bytes) => decoded(text@) == Some(bytes@),
            None => decoded(text@) is None,
        },
{
    let res = engine_decode(text);
    proof {
        if res is Some {
            lemma_decoded_gives_back(res->0@);
        }
    }
    res
}

/// Two six-bit values with one symbol are one value.
proof fn lemma_symbol_injective(v: int, w: int)
    requires
        0 <= v < 64,
        0 <= w < 64,
        symbol(v) == symbol(w),
    ensures
        v == w,
{
}

/// The byte at place `k`, or zero behind the last one.
spec fn byte_or_zero(bytes: Seq<u8>, k: int) -> u8 {
    if k < bytes.len() {
        bytes[k]
    } else {
        0
    }
}

/// The six bits at each of the four offsets of a two-byte window.
proof fn lemma_window(high: u8, low: u8)
    by (bit_vector)
    ensures
        (high * 256 + low) / 1024 % 64 == high / 4,
        (high * 256 + low) / 256 % 64 == high % 64,
        (high * 256 + low) / 64 % 64 == high % 16 * 4 + low / 64,
        (high * 256 + low) / 16 % 64 == high % 4 * 16 + low / 16,
{
}

/// The runs of six bits that the `q`-th group of three bytes falls into.
proof fn lemma_sextets_of_group(bytes: Seq<u8>, q: int)
    requires
        0 <= q,
        3 * q < bytes.len(),
    ensures
        sextet(bytes, 4 * q) == byte_or_zero(bytes, 3 * q) / 4,
        sextet(bytes, 4 * q + 1) == byte_or_zero(bytes, 3 * q) % 4 * 16 + byte_or_zero(
            bytes,
            3 * q + 1,
        ) / 16,
        3 * q + 1 < bytes.len() ==> sextet(bytes, 4 * q + 2) == byte_or_zero(bytes, 3 * q + 1) % 16
            * 4 + byte_or_zero(bytes, 3 * q + 2) / 64,
        3 * q + 2 < bytes.len() ==> sextet(bytes, 4 * q + 3) == byte_or_zero(bytes, 3 * q + 2) % 64,
{
    let b0 = byte_or_zero(bytes, 3 * q);
    let b1 = byte_or_zero(bytes, 3 * q + 1);
    let b2 = byte_or_zero(bytes, 3 * q + 2);
    let b3 = byte_or_zero(bytes, 3 * q + 3);
    lemma_window(b0, b1);
    lemma_window(b1, b2);
    lemma_window(b2, b3);
    assert((4 * q) * 6 / 8 == 3 * q && (4 * q) * 6 % 8 == 0);
    assert((4 * q + 1) * 6 / 8 == 3 * q && (4 * q + 1) * 6 % 8 == 6);
    assert((4 * q + 2) * 6 / 8 == 3 * q + 1 && (4 * q + 2) * 6 % 8 == 4);
    assert((4 * q + 3) * 6 / 8 == 3 * q + 2 && (4 * q + 3) * 6 % 8 == 2);
}

/// Bytes of one number whose runs of six bits agree are the same bytes.
proof fn lemma_bytes_from_sextets(a: Seq<u8>, b: Seq<u8>, k: int)
    requires
        a.len() == b.len(),
        0 <= k < a.len(),
        forall|i: int| 0 <= i < (a.len() * 4 + 2) / 3 ==> sextet(a, i) == #[trigger] sextet(b, i),
    ensures
        a[k] == b[k],
{
    let q = k / 3;
    lemma_sextets_of_group(a, q);
    lemma_sextets_of_group(b, q);
    assert(3 * q <= k <= 3 * q + 2);
    assert(4 * q + 1 < (a.len() * 4 + 2) / 3);
    assert(sextet(a, 4 * q) == sextet(b, 4 * q));
    assert(sextet(a, 4 * q + 1) == sextet(b, 4 * q + 1));
    if k > 3 * q {
        assert(4 * q + 2 < (a.len() * 4 + 2) / 3);
        assert(sextet(a, 4 * q + 2) == sextet(b, 4 * q + 2));
    }
    if k > 3 * q + 1 {
        assert(4 * q + 3 < (a.len() * 4 + 2) / 3);
        assert(sextet(a, 4 * q + 3) == sextet(b, 4 * q + 3));
    }
}

/// Different bytes have different encodings.
pub proof fn lemma_base64_url_injective(a: Seq<u8>, b: Seq<u8>)
    requires
        base64_url(a) == base64_url(b),
    ensures
        a == b,
{
    assert(base64_url(a).len() == (a.len() * 4 + 2) / 3);
    assert(base64_url(b).len() == (b.len() * 4 + 2) / 3);
    assert(a.len() == b.len());
    assert forall|i: int| 0 <= i < (a.len() * 4 + 2) / 3 implies sextet(a, i) == #[trigger] sextet(
        b,
        i,
    ) by {
        assert(base64_url(a)[i] == symbol(sextet(a, i)));
        assert(base64_url(b)[i] == symbol(sextet(b, i)));
        lemma_symbol_injective(sextet(a, i), sextet(b, i));
    }
    assert forall|k: int| 0 <= k < a.len() implies a[k] == b[k] by {
        lemma_bytes_from_sextets(a, b, k);
    }
    assert(a =~= b);
}

/// Decoding gives back what was encoded.
pub proof fn lemma_decoded_gives_back(bytes: Seq<u8>)
    ensures
        decoded(base64_url(bytes)) == Some(bytes),
{
    let text = base64_url(bytes);
    let found = choose|found: Seq<u8>| base64_url(found) == text;
    lemma_base64_url_injective(found, bytes);
}

/// No symbol is a dot.
pub proof fn lemma_base64_url_has_no_dot(bytes: Seq<u8>)
    ensures
        forall|i: int| 0 <= i < base64_url(bytes).len() ==> #[trigger] base64_url(bytes)[i] != '.',
{
    assert forall|i: int| 0 <= i < base64_url(bytes).len() implies #[trigger] base64_url(bytes)[i]
        != '.' by {
        assert(0 <= sextet(bytes, i) < 64);
    }
}

} // verus!
