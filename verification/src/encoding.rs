//! Content hashes and the two text encodings that object keys are made of.
use base64::Engine as _;
use vstd::prelude::*;

verus! {

/// The BLAKE3 digest of `data`.
pub uninterp spec fn blake3_digest(data: Seq<u8>) -> Seq<u8>;

/// The digit of a number below sixteen, in lower case.
pub open spec fn hex_digit(v: nat) -> char {
    if v < 10 {
        ('0' as nat + v) as char
    } else {
        ('a' as nat + (v - 10)) as char
    }
}

/// Two lower-case hexadecimal digits for each byte, the high half first.
pub open spec fn hex_lower(data: Seq<u8>) -> Seq<char> {
    Seq::new(
        2 * data.len(),
        |i: int|
            hex_digit(
                if i % 2 == 0 {
                    (data[i / 2] / 16) as nat
                } else {
                    (data[i / 2] % 16) as nat
                },
            ),
    )
}

/// The character that the URL-safe base64 alphabet has for a number below 64:
/// `A` to `Z`, `a` to `z`, `0` to `9`, `-` and `_`, in this order.
pub open spec fn base64url_char(v: nat) -> char {
    if v < 26 {
        ('A' as nat + v) as char
    } else if v < 52 {
        ('a' as nat + (v - 26)) as char
    } else if v < 62 {
        ('0' as nat + (v - 52)) as char
    } else if v == 62 {
        '-'
    } else {
        '_'
    }
}

/// The byte of `data` at `i`, and zero behind its end.
pub open spec fn byte_or_zero(data: Seq<u8>, i: int) -> nat {
    if 0 <= i < data.len() {
        data[i] as nat
    } else {
        0
    }
}

/// The `i`-th group of six bits of `data`, the high bits first.
pub open spec fn sextet(data: Seq<u8>, i: int) -> nat {
    let k = i / 4 * 3;
    if i % 4 == 0 {
        byte_or_zero(data, k) / 4
    } else if i % 4 == 1 {
        byte_or_zero(data, k) % 4 * 16 + byte_or_zero(data, k + 1) / 16
    } else if i % 4 == 2 {
        byte_or_zero(data, k + 1) % 16 * 4 + byte_or_zero(data, k + 2) / 64
    } else {
        byte_or_zero(data, k + 2) % 64
    }
}

/// The URL-safe base64 text of `data` without padding: one character for each group of six bits
/// that begins within `data`.
pub open spec fn base64url(data: Seq<u8>) -> Seq<char> {
    Seq::new((4 * data.len() + 2) / 3, |i: int| base64url_char(sextet(data, i)))
}

/// The URL-safe base64 text, without padding, of the UTF-8 bytes of `text`.
pub open spec fn base64url_of_text(text: Seq<char>) -> Seq<char> {
    base64url(vstd::utf8::encode_utf8(text))
}

/// Calls `blake3::hash`. The result is the digest of the argument, a function of its bytes alone;
/// which function that is, is not said here.
#[verifier::external_body]
pub(crate) fn blake3_hash(data: &[u8]) -> (r: [u8; 32])
    ensures
        r@ == blake3_digest(data@),
{
    *blake3::hash(data).as_bytes()
}

/// Calls `hex::encode`, which writes each byte as two lower-case hexadecimal digits.
#[verifier::external_body]
pub(crate) fn hex_encode(data: &[u8]) -> (r: String)
    ensures
        r@ == hex_lower(data@),
{
    hex::encode(data)
}

/// Calls `encode` of base64's `URL_SAFE_NO_PAD` engine on the UTF-8 bytes of the argument. The
/// engine writes base64 as RFC 4648 has it, with the URL-safe alphabet and without padding.
#[verifier::external_body]
pub(crate) fn base64url_encode(text: &str) -> (r: String)
    ensures
        r@ == base64url_of_text(text@),
{
    base64::engine::general_purpose::URL_SAFE_NO_PAD.encode(text)
}

/// The bytes can be told from the six-bit groups that begin within them.
proof fn lemma_sextets_determine_byte(a: Seq<u8>, b: Seq<u8>, i: int)
    requires
        a.len() == b.len(),
        0 <= i < a.len(),
        forall|j: int|
            0 <= j < (4 * a.len() + 2) / 3 ==> #[trigger] sextet(a, j) == sextet(b, j),
    ensures
        a[i] == b[i],
{
    let j = i / 3 * 4 + i % 3;
    assert(sextet(a, j) == sextet(b, j));
    assert(sextet(a, j + 1) == sextet(b, j + 1));
}

/// Different characters of the alphabet stand for different numbers.
proof fn lemma_base64url_char_injective(u: nat, v: nat)
    requires
        u < 64,
        v < 64,
        base64url_char(u) == base64url_char(v),
    ensures
        u == v,
{
}

/// Base64 text can be read back: different bytes never have the same text.
pub proof fn lemma_base64url_injective(a: Seq<u8>, b: Seq<u8>)
    requires
        base64url(a) == base64url(b),
    ensures
        a == b,
{
    assert(base64url(a).len() == (4 * a.len() + 2) / 3);
    assert(base64url(b).len() == (4 * b.len() + 2) / 3);
    assert(a.len() == b.len());
    assert forall|j: int| 0 <= j < (4 * a.len() + 2) / 3 implies #[trigger] sextet(a, j) == sextet(
        b,
        j,
    ) by {
        assert(base64url(a)[j] == base64url_char(sextet(a, j)));
        assert(base64url(b)[j] == base64url_char(sextet(b, j)));
        lemma_base64url_char_injective(sextet(a, j), sextet(b, j));
    }
    assert forall|i: int| 0 <= i < a.len() implies a[i] == b[i] by {
        lemma_sextets_determine_byte(a, b, i);
    }
    assert(a =~= b);
}

/// The base64 text of a text can be read back: different texts never have the same.
pub proof fn lemma_base64url_of_text_injective(a: Seq<char>, b: Seq<char>)
    requires
        base64url_of_text(a) == base64url_of_text(b),
    ensures
        a == b,
{
    lemma_base64url_injective(vstd::utf8::encode_utf8(a), vstd::utf8::encode_utf8(b));
    vstd::utf8::encode_utf8_decode_utf8(a);
    vstd::utf8::encode_utf8_decode_utf8(b);
}

/// Base64 text holds no slash, so that it never adds a level to an object key.
pub proof fn lemma_base64url_has_no_slash(data: Seq<u8>)
    ensures
        !base64url(data).contains('/'),
{
    assert forall|i: int| 0 <= i < base64url(data).len() implies base64url(data)[i] != '/' by {
        assert(sextet(data, i) < 64);
    }
}

/// Every character of a hexadecimal text is a hexadecimal digit.
pub proof fn lemma_hex_lower_digits(data: Seq<u8>)
    ensures
        forall|i: int|
            0 <= i < hex_lower(data).len() ==> crate::text::is_hex_digit(
                #[trigger] hex_lower(data)[i],
            ),
{
    assert forall|i: int| 0 <= i < hex_lower(data).len() implies crate::text::is_hex_digit(
        #[trigger] hex_lower(data)[i],
    ) by {
        assert(data[i / 2] / 16 < 16);
    }
}

/// Different hexadecimal digits stand for different numbers.
proof fn lemma_hex_digit_injective(u: nat, v: nat)
    requires
        u < 16,
        v < 16,
        hex_digit(u) == hex_digit(v),
    ensures
        u == v,
{
}

/// Hexadecimal text can be read back: different bytes never have the same text.
pub proof fn lemma_hex_lower_injective(a: Seq<u8>, b: Seq<u8>)
    requires
        hex_lower(a) == hex_lower(b),
    ensures
        a == b,
{
    assert(hex_lower(a).len() == 2 * a.len());
    assert(hex_lower(b).len() == 2 * b.len());
    assert forall|i: int| 0 <= i < a.len() implies a[i] == b[i] by {
        assert(hex_lower(a)[2 * i] == hex_digit((a[i] / 16) as nat));
        assert(hex_lower(b)[2 * i] == hex_digit((b[i] / 16) as nat));
        assert(hex_lower(a)[2 * i + 1] == hex_digit((a[i] % 16) as nat));
        assert(hex_lower(b)[2 * i + 1] == hex_digit((b[i] % 16) as nat));
        lemma_hex_digit_injective((a[i] / 16) as nat, (b[i] / 16) as nat);
        lemma_hex_digit_injective((a[i] % 16) as nat, (b[i] % 16) as nat);
    }
    assert(a =~= b);
}

} // verus!
