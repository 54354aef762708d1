//! Model of lowercase hexadecimal strings and of the byte-order reversal
//! that turns a display-order hash into its protocol-order wire form.

use vstd::prelude::*;

verus! {

/// Numeric value of a lowercase hexadecimal digit; 16 for any other character.
pub open spec fn hex_val(c: char) -> int {
    if c == '0' {
        0
    } else if c == '1' {
        1
    } else if c == '2' {
        2
    } else if c == '3' {
        3
    } else if c == '4' {
        4
    } else if c == '5' {
        5
    } else if c == '6' {
        6
    } else if c == '7' {
        7
    } else if c == '8' {
        8
    } else if c == '9' {
        9
    } else if c == 'a' {
        10
    } else if c == 'b' {
        11
    } else if c == 'c' {
        12
    } else if c == 'd' {
        13
    } else if c == 'e' {
        14
    } else if c == 'f' {
        15
    } else {
        16
    }
}

pub open spec fn is_hex_digit(c: char) -> bool {
    hex_val(c) < 16
}

/// The lowercase hexadecimal digit for a value in `0..16`.
pub open spec fn hex_digit(v: int) -> char {
    if v == 0 {
        '0'
    } else if v == 1 {
        '1'
    } else if v == 2 {
        '2'
    } else if v == 3 {
        '3'
    } else if v == 4 {
        '4'
    } else if v == 5 {
        '5'
    } else if v == 6 {
        '6'
    } else if v == 7 {
        '7'
    } else if v == 8 {
        '8'
    } else if v == 9 {
        '9'
    } else if v == 10 {
        'a'
    } else if v == 11 {
        'b'
    } else if v == 12 {
        'c'
    } else if v == 13 {
        'd'
    } else if v == 14 {
        'e'
    } else if v == 15 {
        'f'
    } else {
        '0'
    }
}

/// A well-formed hex string: even length, lowercase hex digits only.
pub open spec fn is_hex_str(s: Seq<char>) -> bool {
    &&& s.len() % 2 == 0
    &&& forall|i: int| 0 <= i < s.len() ==> is_hex_digit(#[trigger] s[i])
}

/// The bytes a hex string denotes, two digits per byte, big end first.
pub open spec fn bytes_of_hex(s: Seq<char>) -> Seq<u8>
    decreases s.len(),
{
    if s.len() < 2 {
        Seq::empty()
    } else {
        seq![(hex_val(s[0]) * 16 + hex_val(s[1])) as u8] + bytes_of_hex(s.skip(2))
    }
}

/// The lowercase hex string that encodes a byte sequence.
pub open spec fn hex_of_bytes(b: Seq<u8>) -> Seq<char>
    decreases b.len(),
{
    if b.len() == 0 {
        Seq::empty()
    } else {
        seq![hex_digit(b[0] as int / 16), hex_digit(b[0] as int % 16)] + hex_of_bytes(b.skip(1))
    }
}

/// A hex string re-encoded with its underlying bytes in reverse order:
/// the protocol-order form of a display-order hash.
pub open spec fn spec_reverse_hex(s: Seq<char>) -> Seq<char> {
    hex_of_bytes(bytes_of_hex(s).reverse())
}

pub proof fn lemma_hex_digit_val(v: int)
    requires
        0 <= v < 16,
    ensures
        hex_val(hex_digit(v)) == v,
        is_hex_digit(hex_digit(v)),
{
}

pub proof fn lemma_hex_val_digit(c: char)
    requires
        is_hex_digit(c),
    ensures
        hex_digit(hex_val(c)) == c,
{
}

pub proof fn lemma_hex_of_bytes_len(b: Seq<u8>)
    ensures
        hex_of_bytes(b).len() == 2 * b.len(),
    decreases b.len(),
{
    if b.len() > 0 {
        lemma_hex_of_bytes_len(b.skip(1));
    }
}

pub proof fn lemma_hex_of_bytes_is_hex_str(b: Seq<u8>)
    ensures
        is_hex_str(hex_of_bytes(b)),
    decreases b.len(),
{
    lemma_hex_of_bytes_len(b);
    if b.len() == 0 {
    } else {
        lemma_hex_of_bytes_is_hex_str(b.skip(1));
        let h = hex_of_bytes(b);
        let b0 = b[0] as int;
        lemma_hex_digit_val(b0 / 16);
        lemma_hex_digit_val(b0 % 16);
        assert forall|i: int| 0 <= i < h.len() implies is_hex_digit(#[trigger] h[i]) by {
            if i >= 2 {
                assert(h[i] == hex_of_bytes(b.skip(1))[i - 2]);
            }
        }
    }
}

/// Decoding the hex encoding of a byte sequence gives the bytes back.
pub proof fn lemma_bytes_of_hex_of_bytes(b: Seq<u8>)
    ensures
        bytes_of_hex(hex_of_bytes(b)) == b,
    decreases b.len(),
{
    if b.len() == 0 {
        assert(bytes_of_hex(hex_of_bytes(b)) =~= b);
    } else {
        lemma_bytes_of_hex_of_bytes(b.skip(1));
        let b0 = b[0] as int;
        let h = hex_of_bytes(b);
        lemma_hex_of_bytes_len(b.skip(1));
        lemma_hex_digit_val(b0 / 16);
        lemma_hex_digit_val(b0 % 16);
        assert(h.skip(2) =~= hex_of_bytes(b.skip(1)));
        assert(hex_val(h[0]) * 16 + hex_val(h[1]) == (b0 / 16) * 16 + b0 % 16);
        assert((b0 / 16) * 16 + b0 % 16 == b0) by (nonlinear_arith)
            requires
                0 <= b0 < 256,
        ;
        assert(bytes_of_hex(h) =~= b);
    }
}

/// Re-encoding the bytes a well-formed hex string denotes gives the string back.
pub proof fn lemma_hex_of_bytes_of_hex(s: Seq<char>)
    requires
        is_hex_str(s),
    ensures
        hex_of_bytes(bytes_of_hex(s)) == s,
    decreases s.len(),
{
    if s.len() == 0 {
        assert(hex_of_bytes(bytes_of_hex(s)) =~= s);
    } else {
        let hi = hex_val(s[0]);
        let lo = hex_val(s[1]);
        let v = hi * 16 + lo;
        let rest = s.skip(2);
        assert(is_hex_str(rest)) by {
            assert forall|i: int| 0 <= i < rest.len() implies is_hex_digit(#[trigger] rest[i]) by {
                assert(rest[i] == s[i + 2]);
            }
        }
        lemma_hex_of_bytes_of_hex(rest);
        let bs = bytes_of_hex(s);
        assert(0 <= v < 256);
        assert(bs[0] == v as u8);
        assert(bs.skip(1) =~= bytes_of_hex(rest));
        assert(v / 16 == hi && v % 16 == lo) by (nonlinear_arith)
            requires
                0 <= hi < 16,
                0 <= lo < 16,
                v == hi * 16 + lo,
        ;
        lemma_hex_val_digit(s[0]);
        lemma_hex_val_digit(s[1]);
        assert(hex_of_bytes(bs) =~= s);
    }
}

pub proof fn lemma_bytes_of_hex_len(s: Seq<char>)
    requires
        s.len() % 2 == 0,
    ensures
        bytes_of_hex(s).len() == s.len() / 2,
    decreases s.len(),
{
    if s.len() >= 2 {
        lemma_bytes_of_hex_len(s.skip(2));
    }
}

/// A hex string remains well formed under concatenation.
pub proof fn lemma_hex_str_concat(a: Seq<char>, b: Seq<char>)
    requires
        is_hex_str(a),
        is_hex_str(b),
    ensures
        is_hex_str(a + b),
{
    assert forall|i: int| 0 <= i < (a + b).len() implies is_hex_digit(#[trigger] (a + b)[i]) by {
        if i < a.len() {
            assert((a + b)[i] == a[i]);
        } else {
            assert((a + b)[i] == b[i - a.len()]);
        }
    }
}

/// Reversing a hex string's byte order is its own inverse: applied twice,
/// it returns the original string.
pub proof fn lemma_reverse_hex_involutive(s: Seq<char>)
    requires
        is_hex_str(s),
    ensures
        spec_reverse_hex(spec_reverse_hex(s)) == s,
{
    let b = bytes_of_hex(s);
    lemma_bytes_of_hex_of_bytes(b.reverse());
    assert(b.reverse().reverse() =~= b);
    lemma_hex_of_bytes_of_hex(s);
}

/// The byte-order reversal of a well-formed hex string is itself one,
/// of the same length.
pub proof fn lemma_reverse_hex_wf(s: Seq<char>)
    requires
        is_hex_str(s),
    ensures
        is_hex_str(spec_reverse_hex(s)),
        spec_reverse_hex(s).len() == s.len(),
{
    let b = bytes_of_hex(s);
    lemma_hex_of_bytes_is_hex_str(b.reverse());
    lemma_hex_of_bytes_len(b.reverse());
    lemma_bytes_of_hex_len(s);
}

} // verus!
