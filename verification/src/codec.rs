//! Conversion between host strings and the null-terminated UTF-16 buffers
//! that the clipboard protocol carries.
//!
//! `Lpwstr` owns such a buffer: the UTF-16 code units of a string followed by
//! a terminating zero unit.  Encoding is total; decoding reads units up to the
//! first zero and is lenient, substituting the replacement character for
//! unpaired surrogates.

use vstd::prelude::*;
use vstd::arithmetic::div_mod::lemma_fundamental_div_mod;

verus! {

/// A code unit that opens a surrogate pair.
pub open spec fn is_high_surrogate(u: u16) -> bool {
    0xD800 <= u <= 0xDBFF
}

/// A code unit that closes a surrogate pair.
pub open spec fn is_low_surrogate(u: u16) -> bool {
    0xDC00 <= u <= 0xDFFF
}

/// A code unit in the surrogate range, which never stands for a character on
/// its own.
pub open spec fn is_surrogate(u: u16) -> bool {
    0xD800 <= u <= 0xDFFF
}

/// The UTF-16 code units of one character: the character itself when it lies
/// in the basic plane, a surrogate pair otherwise.
pub open spec fn wide_units(c: char) -> Seq<u16> {
    if (c as u32) < 0x10000 {
        seq![(c as u32) as u16]
    } else {
        let v = c as int - 0x10000;
        seq![(0xD800 + v / 0x400) as u16, (0xDC00 + v % 0x400) as u16]
    }
}

/// The UTF-16 encoding of a string, without a terminator.
pub open spec fn encode_wide(s: Seq<char>) -> Seq<u16>
    decreases s.len(),
{
    if s.len() == 0 {
        Seq::empty()
    } else {
        wide_units(s[0]) + encode_wide(s.skip(1))
    }
}

/// The character a surrogate pair stands for.
pub open spec fn combine_surrogates(hi: u16, lo: u16) -> char {
    (0x10000 + (hi - 0xD800) * 0x400 + (lo - 0xDC00)) as char
}

/// Lenient UTF-16 decoding: a well-formed surrogate pair becomes the
/// character it stands for, an unpaired surrogate becomes the replacement
/// character, and every other unit stands for itself.
pub open spec fn decode_wide(u: Seq<u16>) -> Seq<char>
    decreases u.len(),
{
    if u.len() == 0 {
        Seq::empty()
    } else if is_high_surrogate(u[0]) && u.len() >= 2 && is_low_surrogate(u[1]) {
        seq![combine_surrogates(u[0], u[1])] + decode_wide(u.skip(2))
    } else if is_surrogate(u[0]) {
        seq!['\u{FFFD}'] + decode_wide(u.skip(1))
    } else {
        seq![(u[0] as u32) as char] + decode_wide(u.skip(1))
    }
}

/// The units before the first zero unit: what decoding reads of a
/// null-terminated buffer.
pub open spec fn until_nul(u: Seq<u16>) -> Seq<u16>
    decreases u.len(),
{
    if u.len() == 0 || u[0] == 0 {
        Seq::empty()
    } else {
        seq![u[0]] + until_nul(u.skip(1))
    }
}

/// Relies on `char::from_u32`: returns the character with the given code
/// point, or `None` when the value is a surrogate code point or lies beyond
/// the last code point.
pub assume_specification[ char::from_u32 ](v: u32) -> (r: Option<char>)
    ensures
        (0xD800 <= v < 0xE000 || v > 0x10FFFF) <==> r is None,
        r matches Some(c) ==> c == (v as char) && c as u32 == v,
;

/// Relies on `String::push`: appends one character at the end of the string.
#[verifier::external_body]
pub(crate) fn push_char(s: &mut String, c: char)
    ensures
        final(s)@ == old(s)@.push(c),
{
    s.push(c)
}

/// Appends the UTF-16 units of one character to a unit buffer.
fn push_wide(units: &mut Vec<u16>, c: char)
    ensures
        final(units)@ == old(units)@ + wide_units(c),
{
    let v = c as u32;
    if v < 0x10000 {
        units.push(v as u16);
        proof {
            assert(units@ =~= old(units)@ + wide_units(c));
        }
    } else {
        let w = v - 0x10000;
        let hi_part = w / 0x400;
        let lo_part = w % 0x400;
        proof {
            assert(w / 0x400 < 0x400) by (nonlinear_arith)
                requires
                    w < 0x100000,
            ;
            assert(w as int / 0x400 == (w / 0x400) as int);
            assert(w as int % 0x400 == (w % 0x400) as int);
        }
        let hi = 0xD800 + hi_part;
        let lo = 0xDC00 + lo_part;
        units.push(hi as u16);
        units.push(lo as u16);
        proof {
            assert(units@ =~= old(units)@ + wide_units(c));
        }
    }
}

/// An owned null-terminated UTF-16 buffer, the shape in which text crosses
/// the clipboard boundary.
pub struct Lpwstr {
    units: Vec<u16>,
}

impl View for Lpwstr {
    type V = Seq<u16>;

    closed spec fn view(&self) -> Seq<u16> {
        self.units@
    }
}

impl Lpwstr {
    /// Encodes a string as UTF-16 and appends the terminating zero unit.
    /// Total: every host string encodes.
    pub fn from_str(s: &str) -> (r: Lpwstr)
        ensures
            r@ == encode_wide(s@) + seq![0u16],
    {
        let n = s.unicode_len();
        let mut units: Vec<u16> = Vec::new();
        let mut i: usize = 0;
        while i < n
            invariant
                i <= n,
                n == s@.len(),
                units@ == encode_wide(s@.take(i as int)),
            decreases n - i,
        {
            let c = s.get_char(i);
            push_wide(&mut units, c);
            proof {
                lemma_encode_wide_snoc(s@.take(i as int), c);
                assert(s@.take(i as int + 1) =~= s@.take(i as int).push(c));
            }
            i = i + 1;
        }
        proof {
            assert(s@.take(n as int) =~= s@);
        }
        units.push(0u16);
        proof {
            assert(units@ =~= encode_wide(s@) + seq![0u16]);
        }
        Lpwstr { units }
    }

    /// Wraps a raw unit buffer, as handed over by an outside producer.
    pub fn from_units(units: Vec<u16>) -> (r: Lpwstr)
        ensures
            r@ == units@,
    {
        Lpwstr { units }
    }

    /// Gives the buffer up as a plain vector of code units.
    pub fn into_inner(self) -> (r: Vec<u16>)
        ensures
            r@ == self@,
    {
        self.units
    }

    /// Decodes the buffer back into a string: units up to the first zero,
    /// read leniently as UTF-16.  An empty buffer decodes to the empty
    /// string.
    pub fn to_text(&self) -> (r: String)
        ensures
            r@ == decode_wide(until_nul(self@)),
    {
        let n = self.units.len();

        // Where the terminator is: the first zero unit, or the end.
        let mut end: usize = 0;
        while end < n && self.units[end] != 0
            invariant
                end <= n,
                n == self@.len(),
                forall|k: int| 0 <= k < end ==> self@[k] != 0,
            decreases n - end,
        {
            end = end + 1;
        }
        proof {
            lemma_until_nul_is_clean_prefix(self@, end as int);
        }
        let ghost p = self@.take(end as int);

        let mut out = String::new();
        proof {
            assert(p.skip(0) =~= p);
            assert(out@ + decode_wide(p) =~= decode_wide(p));
        }
        let mut i: usize = 0;
        while i < end
            invariant
                i <= end,
                end <= n,
                n == self@.len(),
                p == self@.take(end as int),
                decode_wide(p) == out@ + decode_wide(p.skip(i as int)),
            decreases end - i,
        {
            let u0 = self.units[i];
            proof {
                assert(p.skip(i as int)[0] == p[i as int]);
            }
            if 0xD800 <= u0 && u0 <= 0xDBFF && i + 1 < end && 0xDC00 <= self.units[i + 1]
                && self.units[i + 1] <= 0xDFFF {
                let u1 = self.units[i + 1];
                let cp: u32 = 0x10000 + (u0 as u32 - 0xD800) * 0x400 + (u1 as u32 - 0xDC00);
                proof {
                    assert(p.skip(i as int)[1] == p[i as int + 1]);
                    assert(p.skip(i as int).skip(2) =~= p.skip(i as int + 2));
                }
                if let Some(c) = char::from_u32(cp) {
                    proof {
                        assert(c == combine_surrogates(u0, u1));
                        assert(decode_wide(p.skip(i as int)) == seq![c] + decode_wide(
                            p.skip(i as int + 2),
                        ));
                    }
                    push_char(&mut out, c);
                    proof {
                        assert(decode_wide(p) =~= out@ + decode_wide(p.skip(i as int + 2)));
                    }
                } else {
                    proof {
                        assert(false);
                    }
                }
                i = i + 2;
            } else if 0xD800 <= u0 && u0 <= 0xDFFF {
                proof {
                    assert(p.skip(i as int).skip(1) =~= p.skip(i as int + 1));
                    assert(decode_wide(p.skip(i as int)) == seq!['\u{FFFD}'] + decode_wide(
                        p.skip(i as int + 1),
                    ));
                }
                push_char(&mut out, '\u{FFFD}');
                proof {
                    assert(decode_wide(p) =~= out@ + decode_wide(p.skip(i as int + 1)));
                }
                i = i + 1;
            } else {
                proof {
                    assert(p.skip(i as int).skip(1) =~= p.skip(i as int + 1));
                    assert(decode_wide(p.skip(i as int)) == seq![((u0 as u32) as char)]
                        + decode_wide(p.skip(i as int + 1)));
                }
                if let Some(c) = char::from_u32(u0 as u32) {
                    push_char(&mut out, c);
                    proof {
                        assert(decode_wide(p) =~= out@ + decode_wide(p.skip(i as int + 1)));
                    }
                } else {
                    proof {
                        assert(false);
                    }
                }
                i = i + 1;
            }
        }
        proof {
            assert(p.skip(end as int) =~= Seq::<u16>::empty());
            assert(out@ =~= decode_wide(p));
        }
        out
    }
}

/// Encoding a string one character longer appends that character's units.
pub proof fn lemma_encode_wide_snoc(t: Seq<char>, c: char)
    ensures
        encode_wide(t.push(c)) == encode_wide(t) + wide_units(c),
    decreases t.len(),
{
    if t.len() == 0 {
        assert(t.push(c)[0] == c);
        assert(t.push(c).skip(1) =~= Seq::<char>::empty());
        assert(encode_wide(t.push(c).skip(1)) == Seq::<u16>::empty());
        assert(encode_wide(t.push(c)) =~= encode_wide(t) + wide_units(c));
    } else {
        lemma_encode_wide_snoc(t.skip(1), c);
        assert(t.push(c).skip(1) =~= t.skip(1).push(c));
        assert(t.push(c)[0] == t[0]);
        assert(encode_wide(t.push(c)) == wide_units(t[0]) + (encode_wide(t.skip(1)) + wide_units(
            c,
        )));
        assert(wide_units(t[0]) + (encode_wide(t.skip(1)) + wide_units(c)) =~= (wide_units(t[0])
            + encode_wide(t.skip(1))) + wide_units(c));
        assert(encode_wide(t) + wide_units(c) == (wide_units(t[0]) + encode_wide(t.skip(1)))
            + wide_units(c));
    }
}

/// Every `char` is a Unicode scalar value.  Calling this for a character
/// taken out of a sequence puts that typing fact at the solver's hand.
proof fn lemma_char_in_range(c: char)
    ensures
        (c as u32) <= 0x10FFFF,
        !(0xD800 <= (c as u32) && (c as u32) < 0xE000),
        c as int == (c as u32) as int,
{
}

/// The encoding of a string without embedded null characters holds no zero
/// unit.
pub proof fn lemma_encode_wide_no_nul(s: Seq<char>)
    requires
        forall|i: int| 0 <= i < s.len() ==> s[i] != '\0',
    ensures
        forall|k: int| 0 <= k < encode_wide(s).len() ==> encode_wide(s)[k] != 0,
    decreases s.len(),
{
    if s.len() == 0 {
    } else {
        assert forall|i: int| 0 <= i < s.skip(1).len() implies s.skip(1)[i] != '\0' by {
            assert(s.skip(1)[i] == s[i + 1]);
        }
        lemma_encode_wide_no_nul(s.skip(1));
        let c = s[0];
        lemma_char_in_range(c);
        assert(c != '\0');
        assert('\0' as u32 == 0);
        assert(c as u32 != 0);
        assert forall|k: int| 0 <= k < wide_units(c).len() implies wide_units(c)[k] != 0 by {
            if (c as u32) < 0x10000 {
                assert(wide_units(c)[0] == (c as u32) as u16);
            }
        }
        assert forall|k: int| 0 <= k < encode_wide(s).len() implies encode_wide(s)[k] != 0 by {
            if k < wide_units(c).len() {
                assert(encode_wide(s)[k] == wide_units(c)[k]);
            } else {
                assert(encode_wide(s)[k] == encode_wide(s.skip(1))[k - wide_units(c).len()]);
            }
        }
    }
}

/// Decoding undoes encoding: the UTF-16 units of a string read back as that
/// string, character for character.
pub proof fn lemma_decode_encode(s: Seq<char>)
    ensures
        decode_wide(encode_wide(s)) == s,
    decreases s.len(),
{
    if s.len() == 0 {
        assert(decode_wide(encode_wide(s)) =~= s);
    } else {
        lemma_decode_encode(s.skip(1));
        let c = s[0];
        lemma_char_in_range(c);
        let whole = encode_wide(s);
        let tail = encode_wide(s.skip(1));
        if (c as u32) < 0x10000 {
            let u0 = (c as u32) as u16;
            assert(u0 as u32 == c as u32);
            assert(!(0xD800 <= (c as u32) && (c as u32) < 0xE000));
            assert(!is_surrogate(u0));
            assert(whole == seq![u0] + tail);
            assert(whole[0] == u0);
            assert(whole.skip(1) =~= tail);
            assert((u0 as u32) as char == c);
            assert(decode_wide(whole) == seq![c] + s.skip(1));
            assert(seq![c] + s.skip(1) =~= s);
        } else {
            let v = c as int - 0x10000;
            assert(0 <= v < 0x100000);
            assert(v / 0x400 < 0x400 && v / 0x400 >= 0) by (nonlinear_arith)
                requires
                    0 <= v < 0x100000,
            ;
            let hi = (0xD800 + v / 0x400) as u16;
            let lo = (0xDC00 + v % 0x400) as u16;
            assert(is_high_surrogate(hi));
            assert(is_low_surrogate(lo));
            assert(whole == seq![hi, lo] + tail);
            assert(whole[0] == hi && whole[1] == lo);
            assert(whole.len() >= 2);
            assert(whole.skip(2) =~= tail);
            lemma_fundamental_div_mod(v, 0x400);
            assert((hi - 0xD800) * 0x400 + (lo - 0xDC00) == v);
            assert(combine_surrogates(hi, lo) == c);
            assert(decode_wide(whole) == seq![c] + s.skip(1));
            assert(seq![c] + s.skip(1) =~= s);
        }
    }
}

/// Round trip: a string without embedded null characters survives encoding
/// into a null-terminated UTF-16 buffer and lenient decoding unchanged.
pub proof fn lemma_round_trip(s: Seq<char>)
    requires
        forall|i: int| 0 <= i < s.len() ==> s[i] != '\0',
    ensures
        decode_wide(until_nul(encode_wide(s) + seq![0u16])) == s,
{
    let e = encode_wide(s);
    lemma_encode_wide_no_nul(s);
    assert forall|k: int| 0 <= k < e.len() implies (e + seq![0u16])[k] != 0 by {
        assert((e + seq![0u16])[k] == e[k]);
    }
    assert((e + seq![0u16])[e.len() as int] == 0);
    lemma_until_nul_is_clean_prefix(e + seq![0u16], e.len() as int);
    assert((e + seq![0u16]).take(e.len() as int) =~= e);
    lemma_decode_encode(s);
}

/// When no unit before `end` is zero, and `end` is the buffer's length or
/// the place of a zero unit, the prefix before the terminator is exactly
/// `u.take(end)`.
pub proof fn lemma_until_nul_is_clean_prefix(u: Seq<u16>, end: int)
    requires
        0 <= end <= u.len(),
        forall|k: int| 0 <= k < end ==> u[k] != 0,
        end == u.len() || u[end] == 0,
    ensures
        until_nul(u) == u.take(end),
    decreases u.len(),
{
    if u.len() == 0 || u[0] == 0 {
        assert(u.take(end) =~= Seq::<u16>::empty());
    } else {
        assert(u[0] != 0);
        assert forall|k: int| 0 <= k < end - 1 implies u.skip(1)[k] != 0 by {
            assert(u.skip(1)[k] == u[k + 1]);
        }
        lemma_until_nul_is_clean_prefix(u.skip(1), end - 1);
        assert(u.skip(1).take(end - 1) =~= u.take(end).skip(1));
        assert(until_nul(u) =~= u.take(end));
    }
}

} // verus!
