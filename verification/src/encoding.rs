//! The text-safe rendering of binary artifacts: unpadded base64 over the
//! URL-safe alphabet, as bytes of ASCII text.

use vstd::prelude::*;
use crate::status::OpaqueError;

verus! {

/// The alphabet's symbol for a six-bit value.
pub open spec fn symbol(v: int) -> u8 {
    if v < 26 {
        (65 + v) as u8
    } else if v < 52 {
        (71 + v) as u8
    } else if v < 62 {
        (v - 4) as u8
    } else if v == 62 {
        45u8
    } else {
        95u8
    }
}

/// Whether a byte of text is one of the alphabet's 64 symbols:
/// a letter, a digit, `-` or `_`. The padding character `=` is none.
pub open spec fn is_symbol(c: u8) -> bool {
    (65 <= c <= 90) || (97 <= c <= 122) || (48 <= c <= 57) || c == 45 || c == 95
}

/// Whether every byte of a text is a symbol of the alphabet.
pub open spec fn all_symbols(text: Seq<u8>) -> bool {
    forall|i: int| 0 <= i < text.len() ==> is_symbol(#[trigger] text[i])
}

/// The symbols for a group of one, two or three bytes: two, three or four of
/// them, the bits taken from the most significant down, the last symbol filled
/// with zero bits.
pub open spec fn encode_group(g: Seq<u8>) -> Seq<u8>
    recommends
        1 <= g.len() <= 3,
{
    let a = g[0] as int;
    let b = g[1] as int;
    let c = g[2] as int;
    if g.len() == 1 {
        seq![symbol(a / 4), symbol((a % 4) * 16)]
    } else if g.len() == 2 {
        seq![symbol(a / 4), symbol((a % 4) * 16 + b / 16), symbol((b % 16) * 4)]
    } else {
        seq![
            symbol(a / 4),
            symbol((a % 4) * 16 + b / 16),
            symbol((b % 16) * 4 + c / 64),
            symbol(c % 64),
        ]
    }
}

/// The encoded text of a byte sequence.
pub open spec fn encode_spec(bytes: Seq<u8>) -> Seq<u8>
    decreases bytes.len(),
{
    if bytes.len() == 0 {
        Seq::empty()
    } else if bytes.len() <= 3 {
        encode_group(bytes)
    } else {
        encode_group(bytes.take(3)) + encode_spec(bytes.skip(3))
    }
}

/// The length of the encoded text of `n` bytes.
pub open spec fn encoded_len(n: int) -> int {
    (n / 3) * 4 + if n % 3 == 0 {
        0int
    } else {
        n % 3 + 1
    }
}

/// Whether a text is the encoding of some byte sequence.
pub open spec fn encodable(text: Seq<u8>) -> bool {
    exists|bytes: Seq<u8>| encode_spec(bytes) == text
}

/// The byte sequence that a text encodes, if it encodes one.
pub open spec fn decode_spec(text: Seq<u8>) -> Option<Seq<u8>> {
    if encodable(text) {
        Some(choose|bytes: Seq<u8>| encode_spec(bytes) == text)
    } else {
        None
    }
}

/// A text of `n` bytes is `encoded_len(n)` symbols long.
pub proof fn lemma_encode_len(bytes: Seq<u8>)
    ensures
        encode_spec(bytes).len() == encoded_len(bytes.len() as int),
    decreases bytes.len(),
{
    if bytes.len() > 3 {
        lemma_encode_len(bytes.skip(3));
    }
}

/// Encoded text holds symbols of the alphabet only, so never the padding
/// character.
pub proof fn lemma_encode_symbols(bytes: Seq<u8>)
    ensures
        all_symbols(encode_spec(bytes)),
        forall|i: int| 0 <= i < encode_spec(bytes).len() ==> encode_spec(bytes)[i] != 61,
    decreases bytes.len(),
{
    if bytes.len() > 3 {
        lemma_encode_symbols(bytes.skip(3));
        lemma_group_symbols(bytes.take(3));
    } else if bytes.len() > 0 {
        lemma_group_symbols(bytes);
    }
}

proof fn lemma_symbol_range(v: int)
    requires
        0 <= v < 64,
    ensures
        is_symbol(symbol(v)),
{
}

proof fn lemma_group_symbols(g: Seq<u8>)
    requires
        1 <= g.len() <= 3,
    ensures
        all_symbols(encode_group(g)),
{
    lemma_symbol_range(g[0] as int / 4);
    if g.len() == 1 {
        lemma_symbol_range((g[0] as int % 4) * 16);
    } else {
        lemma_symbol_range((g[0] as int % 4) * 16 + g[1] as int / 16);
        if g.len() == 2 {
            lemma_symbol_range((g[1] as int % 16) * 4);
        } else {
            lemma_symbol_range((g[1] as int % 16) * 4 + g[2] as int / 64);
            lemma_symbol_range(g[2] as int % 64);
        }
    }
}

proof fn lemma_symbol_injective(v: int, w: int)
    requires
        0 <= v < 64,
        0 <= w < 64,
        symbol(v) == symbol(w),
    ensures
        v == w,
{
}

proof fn lemma_group_injective(g: Seq<u8>, h: Seq<u8>)
    requires
        1 <= g.len() <= 3,
        g.len() == h.len(),
        encode_group(g) == encode_group(h),
    ensures
        g == h,
{
    let s = encode_group(g);
    let t = encode_group(h);
    assert(s[0] == t[0] && s[1] == t[1]);
    lemma_symbol_injective(g[0] as int / 4, h[0] as int / 4);
    if g.len() == 1 {
        lemma_symbol_injective((g[0] as int % 4) * 16, (h[0] as int % 4) * 16);
    } else {
        assert(s[2] == t[2]);
        lemma_symbol_injective(
            (g[0] as int % 4) * 16 + g[1] as int / 16,
            (h[0] as int % 4) * 16 + h[1] as int / 16,
        );
        if g.len() == 2 {
            lemma_symbol_injective((g[1] as int % 16) * 4, (h[1] as int % 16) * 4);
        } else {
            assert(s[3] == t[3]);
            lemma_symbol_injective(
                (g[1] as int % 16) * 4 + g[2] as int / 64,
                (h[1] as int % 16) * 4 + h[2] as int / 64,
            );
            lemma_symbol_injective(g[2] as int % 64, h[2] as int % 64);
        }
    }
    assert(g =~= h);
}

/// Two byte sequences with the same encoded text are the same sequence.
pub proof fn lemma_encode_injective(a: Seq<u8>, b: Seq<u8>)
    requires
        encode_spec(a) == encode_spec(b),
    ensures
        a == b,
    decreases a.len(),
{
    lemma_encode_len(a);
    lemma_encode_len(b);
    assert(a.len() == b.len());
    if a.len() == 0 {
        assert(a =~= b);
    } else if a.len() <= 3 {
        lemma_group_injective(a, b);
    } else {
        let ga = encode_group(a.take(3));
        let gb = encode_group(b.take(3));
        let ra = encode_spec(a.skip(3));
        let rb = encode_spec(b.skip(3));
        assert(ga =~= (ga + ra).take(4));
        assert(gb =~= (gb + rb).take(4));
        assert(ra =~= (ga + ra).skip(4));
        assert(rb =~= (gb + rb).skip(4));
        lemma_group_injective(a.take(3), b.take(3));
        lemma_encode_injective(a.skip(3), b.skip(3));
        assert(a =~= a.take(3) + a.skip(3));
        assert(b =~= b.take(3) + b.skip(3));
    }
}

/// Decoding is the inverse of encoding: the text of any byte sequence decodes,
/// and to that sequence.
pub proof fn lemma_round_trip(bytes: Seq<u8>)
    ensures
        decode_spec(encode_spec(bytes)) == Some(bytes),
{
    let text = encode_spec(bytes);
    assert(encodable(text));
    let found = choose|b: Seq<u8>| encode_spec(b) == text;
    lemma_encode_injective(found, bytes);
}

/// A text decodes to exactly the byte sequences that it encodes.
pub proof fn lemma_decode_of(text: Seq<u8>, bytes: Seq<u8>)
    ensures
        decode_spec(text) == Some(bytes) <==> encode_spec(bytes) == text,
{
    if encode_spec(bytes) == text {
        lemma_round_trip(bytes);
    }
}

/// A text with a byte outside the alphabet encodes nothing.
pub proof fn lemma_outside_alphabet_undecodable(text: Seq<u8>, i: int)
    requires
        0 <= i < text.len(),
        !is_symbol(text[i]),
    ensures
        decode_spec(text) is None,
{
    if encodable(text) {
        let bytes = choose|bytes: Seq<u8>| encode_spec(bytes) == text;
        lemma_encode_symbols(bytes);
    }
}

/// A text whose length leaves one symbol over a multiple of four encodes
/// nothing.
pub proof fn lemma_invalid_length_undecodable(text: Seq<u8>)
    requires
        text.len() % 4 == 1,
    ensures
        decode_spec(text) is None,
{
    if encodable(text) {
        let bytes = choose|bytes: Seq<u8>| encode_spec(bytes) == text;
        lemma_encode_len(bytes);
    }
}

/// `base64::encode_config` with `URL_SAFE_NO_PAD`, the `String` it returns
/// taken as its bytes: the unpadded URL-safe base64 text of the input. The
/// crate panics only where the encoded size overflows `usize`, which takes an
/// input longer than any slice in memory.
#[verifier::external_body]
fn base64_encode(bytes: &[u8]) -> (text: Vec<u8>)
    ensures
        text@ == encode_spec(bytes@),
{
    base64::encode_config(bytes, base64::URL_SAFE_NO_PAD).into_bytes()
}

/// `base64::decode_config` with `URL_SAFE_NO_PAD`, on text made of the
/// alphabet's symbols alone. It returns the bytes whose unpadded encoding the
/// text is, and fails where there are none: on a length that leaves one symbol
/// over, or on a last symbol with bits set that no byte takes up.
#[verifier::external_body]
fn base64_decode(text: &[u8]) -> (bytes: Option<Vec<u8>>)
    requires
        all_symbols(text@),
    ensures
        bytes matches Some(v) ==> encode_spec(v@) == text@,
        bytes is None ==> !encodable(text@),
{
    base64::decode_config(text, base64::URL_SAFE_NO_PAD).ok()
}

/// Renders bytes as text.
pub fn encode(bytes: &[u8]) -> (text: Vec<u8>)
    ensures
        text@ == encode_spec(bytes@),
        text@.len() == encoded_len(bytes@.len() as int),
        all_symbols(text@),
        decode_spec(text@) == Some(bytes@),
{
    proof {
        lemma_encode_len(bytes@);
        lemma_encode_symbols(bytes@);
        lemma_round_trip(bytes@);
    }
    base64_encode(bytes)
}

/// Whether a byte of text is a symbol of the alphabet.
pub fn symbol_check(c: u8) -> (ok: bool)
    ensures
        ok == is_symbol(c),
{
    (65 <= c && c <= 90) || (97 <= c && c <= 122) || (48 <= c && c <= 57) || c == 45 || c == 95
}

/// Reads text back into the bytes it encodes. Text with a byte outside the
/// alphabet (the padding character too), of a length that no encoding has, or
/// with stray bits in its last symbol is refused.
pub fn decode(text: &[u8]) -> (r: Result<Vec<u8>, OpaqueError>)
    ensures
        match r {
            Ok(bytes) => decode_spec(text@) == Some(bytes@),
            Err(e) => e == OpaqueError::MalformedEncoding && decode_spec(text@) is None,
        },
{
    let mut i: usize = 0;
    while i < text.len()
        invariant
            i <= text.len(),
            forall|j: int| 0 <= j < i ==> is_symbol(#[trigger] text@[j]),
        decreases text.len() - i,
    {
        if !symbol_check(text[i]) {
            proof {
                lemma_outside_alphabet_undecodable(text@, i as int);
            }
            return Err(OpaqueError::MalformedEncoding);
        }
        i += 1;
    }
    match base64_decode(text) {
        Some(bytes) => {
            proof {
                lemma_decode_of(text@, bytes@);
            }
            Ok(bytes)
        },
        None => Err(OpaqueError::MalformedEncoding),
    }
}

} // verus!
