//! Padded standard base64 (RFC 4648, section 4), as the base64 crate's `STANDARD` engine writes
//! it, and its decoding.

use vstd::prelude::*;

verus! {

/// The symbol of the standard base64 alphabet for a six-bit value:
/// `A`–`Z`, `a`–`z`, `0`–`9`, `+`, `/`.
pub open spec fn base64_symbol(v: int) -> char {
    if v < 26 {
        (v + 65) as char
    } else if v < 52 {
        (v - 26 + 97) as char
    } else if v < 62 {
        (v - 52 + 48) as char
    } else if v == 62 {
        '+'
    } else {
        '/'
    }
}

/// The six-bit value of a symbol of the standard alphabet, or `-1` for any other character.
pub open spec fn base64_value(c: char) -> int {
    if 'A' <= c && c <= 'Z' {
        c as int - 65
    } else if 'a' <= c && c <= 'z' {
        c as int - 97 + 26
    } else if '0' <= c && c <= '9' {
        c as int - 48 + 52
    } else if c == '+' {
        62
    } else if c == '/' {
        63
    } else {
        -1
    }
}

/// A symbol of the standard base64 alphabet, or the padding `=`.
pub open spec fn is_base64_symbol(c: char) -> bool {
    base64_value(c) >= 0 || c == '='
}

/// Padded standard base64 of `bytes`: each group of three bytes becomes four symbols of six
/// bits each; a last group of one or two bytes is filled with zero bits and padded with `=`.
pub open spec fn base64_encoding(bytes: Seq<u8>) -> Seq<char>
    decreases bytes.len(),
{
    if bytes.len() == 0 {
        Seq::empty()
    } else {
        let x = bytes[0] as int;
        let y = if bytes.len() > 1 { bytes[1] as int } else { 0 };
        let z = if bytes.len() > 2 { bytes[2] as int } else { 0 };
        let first = base64_symbol(x / 4);
        let second = base64_symbol((x % 4) * 16 + y / 16);
        let third = if bytes.len() > 1 { base64_symbol((y % 16) * 4 + z / 64) } else { '=' };
        let fourth = if bytes.len() > 2 { base64_symbol(z % 64) } else { '=' };
        seq![first, second, third, fourth] + if bytes.len() > 3 {
            base64_encoding(bytes.skip(3))
        } else {
            Seq::empty()
        }
    }
}

/// The bytes of one group of four symbols, or `None` when the group is not canonical padded
/// base64: a wrong symbol, padding in the wrong place, or non-zero fill bits.
pub open spec fn base64_decode_group(a: char, b: char, c: char, d: char) -> Option<Seq<u8>> {
    let va = base64_value(a);
    let vb = base64_value(b);
    let vc = base64_value(c);
    let vd = base64_value(d);
    if va < 0 || vb < 0 {
        None
    } else if c == '=' && d == '=' {
        if vb % 16 == 0 {
            Some(seq![(va * 4 + vb / 16) as u8])
        } else {
            None
        }
    } else if d == '=' {
        if vc >= 0 && vc % 4 == 0 {
            Some(seq![(va * 4 + vb / 16) as u8, ((vb % 16) * 16 + vc / 4) as u8])
        } else {
            None
        }
    } else if vc >= 0 && vd >= 0 {
        Some(
            seq![
                (va * 4 + vb / 16) as u8,
                ((vb % 16) * 16 + vc / 4) as u8,
                ((vc % 4) * 64 + vd) as u8,
            ],
        )
    } else {
        None
    }
}

/// Decoding of padded standard base64: groups of four symbols, padding only in the last one.
pub open spec fn base64_decoding(text: Seq<char>) -> Option<Seq<u8>>
    decreases text.len(),
{
    if text.len() == 0 {
        Some(Seq::empty())
    } else if text.len() < 4 {
        None
    } else {
        match base64_decode_group(text[0], text[1], text[2], text[3]) {
            None => None,
            Some(group) => if group.len() < 3 {
                if text.len() == 4 {
                    Some(group)
                } else {
                    None
                }
            } else {
                match base64_decoding(text.skip(4)) {
                    None => None,
                    Some(rest) => Some(group + rest),
                }
            },
        }
    }
}

/// Length of a padded base64 text for `n` input bytes: four symbols per started group of three.
pub open spec fn base64_encoded_len(n: nat) -> nat {
    ((n + 2) / 3 * 4) as nat
}

/// The encoder allocates its output up front and panics when that length overflows `usize`.
pub open spec fn base64_fits(n: nat) -> bool {
    base64_encoded_len(n) <= usize::MAX
}

/// Whether the encoder can produce the text for `n` input bytes without its length overflowing.
pub fn base64_encoded_len_fits(n: usize) -> (fits: bool)
    ensures
        fits == base64_fits(n as nat),
{
    let groups: usize = if n % 3 > 0 { n / 3 + 1 } else { n / 3 };
    assert(groups == (n + 2) / 3) by (nonlinear_arith)
        requires
            n % 3 > 0 ==> groups == n / 3 + 1,
            n % 3 == 0 ==> groups == n / 3,
    ;
    groups <= usize::MAX / 4
}

/// Calls `base64::encode`, which encodes with the padded `STANDARD` engine. Trusted: the text is
/// the padded standard base64 of the bytes, symbol for symbol, as `base64_encoding` states it
/// (the engine's `internal_encode` and `add_padding` in the crate's `engine` and `encode.rs`).
#[verifier::external_body]
#[allow(deprecated)]
pub(crate) fn base64_encode(bytes: &[u8]) -> (encoded: String)
    requires
        base64_fits(bytes@.len()),
    ensures
        encoded@ == base64_encoding(bytes@),
{
    base64::encode(bytes)
}

proof fn lemma_symbol_value(v: int)
    requires
        0 <= v < 64,
    ensures
        base64_value(base64_symbol(v)) == v,
        base64_symbol(v) != '=',
{
}

proof fn lemma_group_arith(x: int, y: int, z: int)
    requires
        0 <= x < 256,
        0 <= y < 256,
        0 <= z < 256,
    ensures
        0 <= x / 4 < 64,
        0 <= (x % 4) * 16 + y / 16 < 64,
        0 <= (y % 16) * 4 + z / 64 < 64,
        0 <= z % 64 < 64,
        (x / 4) * 4 + ((x % 4) * 16 + y / 16) / 16 == x,
        (((x % 4) * 16 + y / 16) % 16) * 16 + ((y % 16) * 4 + z / 64) / 4 == y,
        (((y % 16) * 4 + z / 64) % 4) * 64 + z % 64 == z,
        ((x % 4) * 16) % 16 == 0,
        ((y % 16) * 4) % 4 == 0,
{
}

/// The encoding has four symbols for every started group of three bytes.
pub proof fn lemma_encoding_len(bytes: Seq<u8>)
    ensures
        base64_encoding(bytes).len() == base64_encoded_len(bytes.len()),
    decreases bytes.len(),
{
    if bytes.len() > 3 {
        lemma_encoding_len(bytes.skip(3));
    }
}

/// The encoding uses the standard alphabet and `=` only.
pub proof fn lemma_encoding_symbols(bytes: Seq<u8>)
    ensures
        forall|i: int|
            0 <= i < base64_encoding(bytes).len() ==> is_base64_symbol(
                #[trigger] base64_encoding(bytes)[i],
            ),
    decreases bytes.len(),
{
    if bytes.len() > 0 {
        let x = bytes[0] as int;
        let y = if bytes.len() > 1 { bytes[1] as int } else { 0 };
        let z = if bytes.len() > 2 { bytes[2] as int } else { 0 };
        lemma_group_arith(x, y, z);
        lemma_symbol_value(x / 4);
        lemma_symbol_value((x % 4) * 16 + y / 16);
        lemma_symbol_value((y % 16) * 4 + z / 64);
        lemma_symbol_value(z % 64);
        if bytes.len() > 3 {
            lemma_encoding_symbols(bytes.skip(3));
            let enc = base64_encoding(bytes);
            let rest = base64_encoding(bytes.skip(3));
            assert forall|i: int| 0 <= i < enc.len() implies is_base64_symbol(#[trigger] enc[i]) by {
                if i >= 4 {
                    assert(enc[i] == rest[i - 4]);
                }
            }
        }
    }
}

/// Decoding undoes encoding: the padded base64 of any bytes decodes back to exactly those bytes.
pub proof fn law_base64_round_trip(bytes: Seq<u8>)
    ensures
        base64_decoding(base64_encoding(bytes)) == Some(bytes),
    decreases bytes.len(),
{
    let enc = base64_encoding(bytes);
    if bytes.len() > 0 {
        let x = bytes[0] as int;
        let y = if bytes.len() > 1 { bytes[1] as int } else { 0 };
        let z = if bytes.len() > 2 { bytes[2] as int } else { 0 };
        lemma_group_arith(x, y, z);
        lemma_symbol_value(x / 4);
        lemma_symbol_value((x % 4) * 16 + y / 16);
        lemma_symbol_value((y % 16) * 4 + z / 64);
        lemma_symbol_value(z % 64);
        let group = base64_decode_group(enc[0], enc[1], enc[2], enc[3]);
        if bytes.len() == 1 {
            assert(group == Some(seq![bytes[0]]));
            assert(seq![bytes[0]] =~= bytes);
        } else if bytes.len() == 2 {
            assert(group == Some(seq![bytes[0], bytes[1]]));
            assert(seq![bytes[0], bytes[1]] =~= bytes);
        } else {
            assert(group == Some(seq![bytes[0], bytes[1], bytes[2]]));
            if bytes.len() == 3 {
                assert(enc.skip(4) =~= Seq::<char>::empty());
                assert(seq![bytes[0], bytes[1], bytes[2]] + Seq::<u8>::empty() =~= bytes);
            } else {
                law_base64_round_trip(bytes.skip(3));
                assert(enc.skip(4) =~= base64_encoding(bytes.skip(3)));
                assert(seq![bytes[0], bytes[1], bytes[2]] + bytes.skip(3) =~= bytes);
            }
        }
    }
}

} // verus!
