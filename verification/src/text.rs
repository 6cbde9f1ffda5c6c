//! UTF-16 conversion for the native windowing API.
//!
//! The API takes text as null-terminated sequences of 16-bit code units. The
//! conversion encodes each character as one unit, or as a surrogate pair for
//! characters beyond the basic plane, and appends a single zero terminator.
//! Decoding inverts the encoding exactly.

use vstd::prelude::*;
use vstd::arithmetic::div_mod::lemma_fundamental_div_mod;
use vstd::string::StrSliceExecFns;

verus! {

/// The UTF-16 code units of one character: itself when it is below the
/// supplementary planes, else the high and low surrogate of its offset.
pub open spec fn wide_units_of_char(c: char) -> Seq<u16> {
    if (c as int) < 0x10000 {
        seq![c as u16]
    } else {
        seq![
            (0xD800 + ((c as int) - 0x10000) / 0x400) as u16,
            (0xDC00 + ((c as int) - 0x10000) % 0x400) as u16,
        ]
    }
}

/// The UTF-16 encoding of a text: the units of each character in order,
/// without a terminator.
pub open spec fn utf16_encode(s: Seq<char>) -> Seq<u16>
    decreases s.len(),
{
    if s.len() == 0 {
        Seq::empty()
    } else {
        wide_units_of_char(s[0]) + utf16_encode(s.drop_first())
    }
}

/// Whether a unit is a high (leading) surrogate.
pub open spec fn is_high_surrogate(u: u16) -> bool {
    0xD800 <= u && u < 0xDC00
}

/// Whether a unit is a low (trailing) surrogate.
pub open spec fn is_low_surrogate(u: u16) -> bool {
    0xDC00 <= u && u < 0xE000
}

/// The character a well-formed surrogate pair encodes.
pub open spec fn combine_surrogates(h: u16, l: u16) -> char {
    (0x10000 + (h - 0xD800) * 0x400 + (l - 0xDC00)) as char
}

/// Decode a UTF-16 unit sequence. A lone or misplaced surrogate makes the
/// sequence ill-formed; decoding stops there and yields nothing for it.
pub open spec fn utf16_decode(units: Seq<u16>) -> Seq<char>
    decreases units.len(),
{
    if units.len() == 0 {
        Seq::empty()
    } else if is_high_surrogate(units[0]) {
        if units.len() >= 2 && is_low_surrogate(units[1]) {
            seq![combine_surrogates(units[0], units[1])] + utf16_decode(units.skip(2))
        } else {
            Seq::empty()
        }
    } else if is_low_surrogate(units[0]) {
        Seq::empty()
    } else {
        seq![units[0] as char] + utf16_decode(units.drop_first())
    }
}

/// The value of a character is a Unicode scalar: in range and no surrogate.
/// This is the validity every `char` carries; a `Seq<char>` does not state it
/// of its elements by itself, so laws over such sequences take it as a
/// hypothesis.
pub open spec fn is_unicode_scalar(c: char) -> bool {
    0 <= c as int <= 0x10FFFF && !(0xD800 <= c as int <= 0xDFFF)
}

/// Encoding one more character appends its units.
pub proof fn lemma_utf16_encode_push(s: Seq<char>, c: char)
    ensures
        utf16_encode(s.push(c)) == utf16_encode(s) + wide_units_of_char(c),
    decreases s.len(),
{
    let p = s.push(c);
    if s.len() == 0 {
        assert(p[0] == c);
        assert(p.drop_first() =~= Seq::<char>::empty());
        assert(utf16_encode(p.drop_first()) =~= Seq::<u16>::empty());
        assert(utf16_encode(s) =~= Seq::<u16>::empty());
        assert(utf16_encode(p) =~= utf16_encode(s) + wide_units_of_char(c));
    } else {
        lemma_utf16_encode_push(s.drop_first(), c);
        assert(p[0] == s[0]);
        assert(p.drop_first() =~= s.drop_first().push(c));
        assert(utf16_encode(p) == wide_units_of_char(s[0]) + utf16_encode(
            s.drop_first().push(c),
        ));
        assert(utf16_encode(p) =~= utf16_encode(s) + wide_units_of_char(c));
    }
}

/// Law: encoding then decoding is the identity on texts without the null
/// character (the terminator is not part of the encoded units).
pub proof fn lemma_utf16_round_trip(s: Seq<char>)
    requires
        forall|i: int| 0 <= i < s.len() ==> s[i] != '\0',
        forall|i: int| 0 <= i < s.len() ==> is_unicode_scalar(#[trigger] s[i]),
    ensures
        utf16_decode(utf16_encode(s)) == s,
    decreases s.len(),
{
    if s.len() == 0 {
        assert(utf16_decode(utf16_encode(s)) =~= s);
    } else {
        let c = s[0];
        let rest = s.drop_first();
        assert(forall|i: int| 0 <= i < rest.len() ==> rest[i] == s[i + 1]);
        lemma_utf16_round_trip(rest);
        let tail = utf16_encode(rest);
        if (c as int) < 0x10000 {
            let u = c as u16;
            assert(u as int == c as int);
            assert(!is_high_surrogate(u));
            assert(!is_low_surrogate(u));
            let units = seq![u] + tail;
            assert(utf16_encode(s) == units);
            assert(units[0] == u);
            assert(units.drop_first() =~= tail);
            assert(u as char == c);
            assert(utf16_decode(units) =~= s);
        } else {
            let off = (c as int) - 0x10000;
            assert(0 <= off <= 0xFFFFF);
            lemma_fundamental_div_mod(off, 0x400);
            assert(0 <= off % 0x400 < 0x400);
            assert(0 <= off / 0x400 <= 0x3FF) by {
                assert(off == 0x400 * (off / 0x400) + off % 0x400);
            }
            let h = (0xD800 + off / 0x400) as u16;
            let l = (0xDC00 + off % 0x400) as u16;
            assert(h as int == 0xD800 + off / 0x400);
            assert(l as int == 0xDC00 + off % 0x400);
            assert(is_high_surrogate(h));
            assert(is_low_surrogate(l));
            let units = seq![h, l] + tail;
            assert(utf16_encode(s) == units);
            assert(units[0] == h && units[1] == l);
            assert(units.skip(2) =~= tail);
            assert(0x10000 + (h - 0xD800) * 0x400 + (l - 0xDC00) == c as int) by {
                assert(off == 0x400 * (off / 0x400) + off % 0x400);
            }
            assert(combine_surrogates(h, l) == c);
            assert(utf16_decode(units) =~= s);
        }
    }
}

/// Convert a text into the null-terminated wide form the native API takes:
/// its UTF-16 encoding followed by a single zero unit. Empty input yields
/// only the terminator.
pub fn utf_16_null_terminiated(x: &str) -> (r: Vec<u16>)
    ensures
        r@ == utf16_encode(x@).push(0u16),
        r@.len() >= 1,
        r@.last() == 0u16,
{
    let mut out: Vec<u16> = Vec::new();
    let n: usize = x.unicode_len();
    let mut i: usize = 0;
    while i < n
        invariant
            n == x@.len(),
            i <= n,
            out@ == utf16_encode(x@.take(i as int)),
        decreases n - i,
    {
        let c: char = x.get_char(i);
        proof {
            assert(x@.take(i as int).push(c) =~= x@.take(i + 1 as int));
            lemma_utf16_encode_push(x@.take(i as int), c);
        }
        let v: u32 = c as u32;
        if v < 0x10000 {
            out.push(v as u16);
        } else {
            let off: u32 = v - 0x10000;
            out.push((0xD800 + off / 0x400) as u16);
            out.push((0xDC00 + off % 0x400) as u16);
        }
        i += 1;
    }
    proof {
        assert(x@.take(n as int) =~= x@);
    }
    out.push(0);
    out
}

} // verus!
