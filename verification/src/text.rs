//! Text as Windows hands it over, and the order of names.

use vstd::prelude::*;
use vstd::utf8::encode_utf8;
use widestring::U16Str;

verus! {

pub open spec fn is_high_surrogate(unit: u16) -> bool {
    0xD800 <= unit <= 0xDBFF
}

pub open spec fn is_low_surrogate(unit: u16) -> bool {
    0xDC00 <= unit <= 0xDFFF
}

/// The character that a surrogate pair stands for.
pub open spec fn surrogate_pair(high: u16, low: u16) -> char {
    (0x10000 + (high - 0xD800) * 0x400 + (low - 0xDC00)) as char
}

/// The text of UTF-16 code units, in which each surrogate that has no partner reads as the
/// replacement character.
pub open spec fn decode_utf16_lossy(units: Seq<u16>) -> Seq<char>
    decreases units.len(),
{
    if units.len() == 0 {
        Seq::empty()
    } else if !is_high_surrogate(units[0]) && !is_low_surrogate(units[0]) {
        seq![units[0] as char] + decode_utf16_lossy(units.skip(1))
    } else if is_high_surrogate(units[0]) && units.len() > 1 && is_low_surrogate(units[1]) {
        seq![surrogate_pair(units[0], units[1])] + decode_utf16_lossy(units.skip(2))
    } else {
        seq!['\u{FFFD}'] + decode_utf16_lossy(units.skip(1))
    }
}

/// The UTF-16 code units of a character.
pub open spec fn utf16_units(c: char) -> Seq<u16> {
    let code = c as int;
    if code < 0x10000 {
        seq![code as u16]
    } else {
        seq![
            (0xD800 + (code - 0x10000) / 0x400) as u16,
            (0xDC00 + (code - 0x10000) % 0x400) as u16,
        ]
    }
}

/// The UTF-16 code units of a text.
pub open spec fn encode_utf16(text: Seq<char>) -> Seq<u16>
    decreases text.len(),
{
    if text.len() == 0 {
        Seq::empty()
    } else {
        utf16_units(text[0]) + encode_utf16(text.skip(1))
    }
}

/// Calls [`widestring::U16Str::to_string_lossy`]. Trusted: the units are read as UTF-16, and each
/// surrogate without a partner becomes the replacement character.
#[verifier::external_body]
pub(crate) fn wide_to_string_lossy(units: &[u16]) -> (text: String)
    ensures
        text@ == decode_utf16_lossy(units@),
{
    U16Str::from_slice(units).to_string_lossy()
}

/// Calls [`String::from_utf16_lossy`]. Trusted: the units are read as UTF-16, and each surrogate
/// without a partner becomes the replacement character.
#[verifier::external_body]
pub(crate) fn string_from_utf16_lossy(units: &[u16]) -> (text: String)
    ensures
        text@ == decode_utf16_lossy(units@),
{
    String::from_utf16_lossy(units)
}

/// The units of a character followed by others are read back as that character.
proof fn utf16_units_decode(c: char, rest: Seq<u16>)
    ensures
        decode_utf16_lossy(utf16_units(c) + rest) == seq![c] + decode_utf16_lossy(rest),
{
    let units = utf16_units(c) + rest;
    if (c as int) < 0x10000 {
        assert(units.skip(1) =~= rest);
    } else {
        assert(surrogate_pair(units[0], units[1]) == c);
        assert(units.skip(2) =~= rest);
    }
}

/// Text that was encoded as UTF-16 is read back unchanged.
pub proof fn utf16_round_trip(text: Seq<char>)
    ensures
        decode_utf16_lossy(encode_utf16(text)) == text,
    decreases text.len(),
{
    if text.len() > 0 {
        utf16_round_trip(text.skip(1));
        utf16_units_decode(text[0], encode_utf16(text.skip(1)));
        assert(text =~= seq![text[0]] + text.skip(1));
    }
}

/// One sequence of bytes comes strictly before another in lexicographic order.
pub open spec fn bytes_before(a: Seq<u8>, b: Seq<u8>) -> bool
    decreases b.len(),
{
    if b.len() == 0 {
        false
    } else if a.len() == 0 {
        true
    } else if a[0] != b[0] {
        a[0] < b[0]
    } else {
        bytes_before(a.skip(1), b.skip(1))
    }
}

/// One name comes strictly before another: by the bytes of their UTF-8 form.
pub open spec fn name_before(a: Seq<char>, b: Seq<char>) -> bool {
    bytes_before(encode_utf8(a), encode_utf8(b))
}

proof fn bytes_before_transitive(a: Seq<u8>, b: Seq<u8>, c: Seq<u8>)
    requires
        bytes_before(a, b),
        bytes_before(b, c),
    ensures
        bytes_before(a, c),
    decreases c.len(),
{
    if a.len() > 0 && a[0] == b[0] && b[0] == c[0] {
        bytes_before_transitive(a.skip(1), b.skip(1), c.skip(1));
    }
}

proof fn bytes_before_total(a: Seq<u8>, b: Seq<u8>)
    ensures
        bytes_before(a, b) || bytes_before(b, a) || a == b,
        !(bytes_before(a, b) && bytes_before(b, a)),
        a == b ==> !bytes_before(a, b),
    decreases b.len(),
{
    if a.len() > 0 && b.len() > 0 && a[0] == b[0] {
        bytes_before_total(a.skip(1), b.skip(1));
        if a.skip(1) == b.skip(1) {
            assert(a =~= seq![a[0]] + a.skip(1));
            assert(b =~= seq![b[0]] + b.skip(1));
        }
    } else if a.len() == 0 && b.len() == 0 {
        assert(a =~= b);
    }
}

/// The order of names is transitive.
pub proof fn name_order_is_transitive(a: Seq<char>, b: Seq<char>, c: Seq<char>)
    requires
        name_before(a, b),
        name_before(b, c),
    ensures
        name_before(a, c),
{
    bytes_before_transitive(encode_utf8(a), encode_utf8(b), encode_utf8(c));
}

/// Of two different names exactly one comes before the other, and no name before itself.
pub proof fn name_order_is_total(a: Seq<char>, b: Seq<char>)
    ensures
        name_before(a, b) || name_before(b, a) || a == b,
        !(name_before(a, b) && name_before(b, a)),
        !name_before(a, a),
{
    bytes_before_total(encode_utf8(a), encode_utf8(b));
    bytes_before_total(encode_utf8(a), encode_utf8(a));
    vstd::utf8::encode_utf8_decode_utf8(a);
    vstd::utf8::encode_utf8_decode_utf8(b);
}

/// Whether one name comes strictly before another.
pub fn is_before(a: &str, b: &str) -> (before: bool)
    ensures
        before == name_before(a@, b@),
{
    let x: &[u8] = a.as_bytes();
    let y: &[u8] = b.as_bytes();
    let mut i: usize = 0;
    assert(x@.skip(0) =~= x@);
    assert(y@.skip(0) =~= y@);
    while i < x.len() && i < y.len() && x[i] == y[i]
        invariant
            i <= x.len(),
            i <= y.len(),
            bytes_before(x@, y@) == bytes_before(x@.skip(i as int), y@.skip(i as int)),
        decreases x.len() - i,
    {
        assert(x@.skip(i as int).skip(1) =~= x@.skip(i + 1));
        assert(y@.skip(i as int).skip(1) =~= y@.skip(i + 1));
        i += 1;
    }
    i < y.len() && (i == x.len() || x[i] < y[i])
}

proof fn bytes_before_at_difference(a: Seq<u8>, b: Seq<u8>, k: int)
    requires
        0 <= k <= a.len(),
        k <= b.len(),
        a.take(k) == b.take(k),
        k < a.len() && k < b.len() ==> a[k] != b[k],
        k == a.len() || k == b.len() || a[k] != b[k],
    ensures
        bytes_before(a, b) == (k < b.len() && (k == a.len() || a[k] < b[k])),
    decreases k,
{
    if k > 0 {
        assert(a[0] == a.take(k)[0]);
        assert(b[0] == b.take(k)[0]);
        assert(a.skip(1).take(k - 1) =~= a.take(k).skip(1));
        assert(b.skip(1).take(k - 1) =~= b.take(k).skip(1));
        bytes_before_at_difference(a.skip(1), b.skip(1), k - 1);
    }
}

/// Names are ordered at the first byte at which their UTF-8 forms differ, a name that ends there
/// first. How far into the names that is makes no difference.
pub proof fn names_are_ordered_at_first_difference(a: Seq<char>, b: Seq<char>, k: int)
    requires
        0 <= k <= encode_utf8(a).len(),
        k <= encode_utf8(b).len(),
        encode_utf8(a).take(k) == encode_utf8(b).take(k),
        k == encode_utf8(a).len() || k == encode_utf8(b).len() || encode_utf8(a)[k] != encode_utf8(
            b,
        )[k],
    ensures
        name_before(a, b) <==> {
            ||| k == encode_utf8(a).len() && k < encode_utf8(b).len()
            ||| k < encode_utf8(a).len() && k < encode_utf8(b).len() && encode_utf8(a)[k]
                < encode_utf8(b)[k]
        },
{
    bytes_before_at_difference(encode_utf8(a), encode_utf8(b), k);
}

/// Text is read one unit or pair at a time: a unit outside the surrogates is the character with
/// that number, a high surrogate before a low one the character of the pair, and any other
/// surrogate the replacement character.
pub proof fn units_are_read_in_turn(unit: u16, next: u16, rest: Seq<u16>)
    ensures
        decode_utf16_lossy(Seq::empty()) == Seq::<char>::empty(),
        (unit < 0xD800 || unit > 0xDFFF) ==> decode_utf16_lossy(seq![unit] + rest) == seq![
            unit as char,
        ] + decode_utf16_lossy(rest),
        (0xD800 <= unit <= 0xDBFF && 0xDC00 <= next <= 0xDFFF) ==> decode_utf16_lossy(
            seq![unit, next] + rest,
        ) == seq![(0x10000 + (unit - 0xD800) * 0x400 + (next - 0xDC00)) as char]
            + decode_utf16_lossy(rest),
        0xDC00 <= unit <= 0xDFFF ==> decode_utf16_lossy(seq![unit] + rest) == seq!['\u{FFFD}']
            + decode_utf16_lossy(rest),
        (0xD800 <= unit <= 0xDBFF && (next < 0xDC00 || next > 0xDFFF)) ==> decode_utf16_lossy(
            seq![unit, next] + rest,
        ) == seq!['\u{FFFD}'] + decode_utf16_lossy(seq![next] + rest),
        0xD800 <= unit <= 0xDBFF ==> decode_utf16_lossy(seq![unit]) == seq!['\u{FFFD}'],
{
    assert((seq![unit] + rest).skip(1) =~= rest);
    assert((seq![unit, next] + rest).skip(2) =~= rest);
    assert((seq![unit, next] + rest).skip(1) =~= seq![next] + rest);
    assert(seq![unit].skip(1) =~= Seq::<u16>::empty());
    reveal_with_fuel(decode_utf16_lossy, 2);
    assert(seq!['\u{FFFD}'] + Seq::<char>::empty() =~= seq!['\u{FFFD}']);
}

} // verus!
