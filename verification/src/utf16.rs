//! UTF-16 encoding and decoding of character sequences.
//!
//! PTP strings travel on the wire as little-endian UTF-16 code units.  This
//! module gives the mathematical encoding ([`utf16`]) and decoding
//! ([`utf16_to_chars`]) of a character sequence, executable conversions
//! between `String` and code-unit vectors verified against them, and the
//! round-trip law [`lemma_utf16_round_trip`].

use vstd::prelude::*;

verus! {

/// The UTF-16 code units of one character: scalar values below 0x10000 are
/// a single unit, larger ones a surrogate pair.
pub open spec fn utf16_char(c: char) -> Seq<u16> {
    let v = c as u32;
    if v < 0x10000 {
        seq![v as u16]
    } else {
        seq![
            (0xD800 + (v - 0x10000) / 0x400) as u16,
            (0xDC00 + (v - 0x10000) % 0x400) as u16,
        ]
    }
}

/// The UTF-16 code units of a character sequence.
pub open spec fn utf16(s: Seq<char>) -> Seq<u16>
    decreases s.len(),
{
    if s.len() == 0 {
        Seq::<u16>::empty()
    } else {
        utf16_char(s[0]) + utf16(s.drop_first())
    }
}

/// True of the leading unit of a surrogate pair.
pub open spec fn is_high_surrogate(u: u16) -> bool {
    0xD800 <= u <= 0xDBFF
}

/// True of the trailing unit of a surrogate pair.
pub open spec fn is_low_surrogate(u: u16) -> bool {
    0xDC00 <= u <= 0xDFFF
}

/// The scalar value encoded by a surrogate pair.
pub open spec fn surrogate_value(hi: u16, lo: u16) -> u32 {
    (0x10000 + (hi - 0xD800) * 0x400 + (lo - 0xDC00)) as u32
}

/// Decode a sequence of UTF-16 code units into characters; `None` when the
/// units are not valid UTF-16 (an unpaired surrogate).
pub open spec fn utf16_to_chars(u: Seq<u16>) -> Option<Seq<char>>
    decreases u.len(),
{
    if u.len() == 0 {
        Some(Seq::<char>::empty())
    } else if is_high_surrogate(u[0]) {
        if u.len() >= 2 && is_low_surrogate(u[1]) {
            match utf16_to_chars(u.skip(2)) {
                Some(rest) => Some(seq![surrogate_value(u[0], u[1]) as char] + rest),
                None => None,
            }
        } else {
            None
        }
    } else if is_low_surrogate(u[0]) {
        None
    } else {
        match utf16_to_chars(u.drop_first()) {
            Some(rest) => Some(seq![(u[0] as u32) as char] + rest),
            None => None,
        }
    }
}

/// Appending one character appends its code units.
pub proof fn lemma_utf16_push(s: Seq<char>, c: char)
    ensures
        utf16(s.push(c)) == utf16(s) + utf16_char(c),
    decreases s.len(),
{
    if s.len() == 0 {
        assert(s.push(c)[0] == c);
        assert(s.push(c).drop_first() =~= Seq::<char>::empty());
        assert(utf16(Seq::<char>::empty()) =~= Seq::<u16>::empty());
        assert(utf16(s.push(c)) =~= utf16(s) + utf16_char(c));
    } else {
        assert(s.push(c)[0] == s[0]);
        assert(s.push(c).drop_first() =~= s.drop_first().push(c));
        lemma_utf16_push(s.drop_first(), c);
        assert(utf16(s.push(c)) =~= utf16(s) + utf16_char(c));
    }
}

/// The UTF-16 encoding of a sequence is empty exactly when the sequence is.
pub proof fn lemma_utf16_empty(s: Seq<char>)
    ensures
        utf16(s).len() == 0 <==> s.len() == 0,
{
    if s.len() > 0 {
        assert(utf16(s).len() >= utf16_char(s[0]).len());
    }
}

/// Decoding the UTF-16 encoding of a character sequence gives the sequence
/// back.
pub proof fn lemma_utf16_round_trip(s: Seq<char>)
    ensures
        utf16_to_chars(utf16(s)) == Some(s),
    decreases s.len(),
{
    broadcast use vstd::utf8::char_is_scalar, vstd::utf8::char_u32_cast;

    if s.len() == 0 {
        assert(utf16_to_chars(utf16(s)) =~= Some(Seq::<char>::empty()));
        assert(Seq::<char>::empty() =~= s);
    } else {
        let c = s[0];
        let v = c as u32;
        let rest = s.drop_first();
        lemma_utf16_round_trip(rest);
        let u = utf16(s);
        assert(u =~= utf16_char(c) + utf16(rest));
        vstd::utf8::char_is_scalar(c);
        if v < 0x10000 {
            assert(u[0] == v as u16);
            assert(!is_high_surrogate(u[0]) && !is_low_surrogate(u[0]));
            assert(u.drop_first() =~= utf16(rest));
            assert((u[0] as u32) == v);
            vstd::utf8::char_u32_cast(c, u[0] as u32);
            assert(((u[0] as u32) as char) == c);
            assert(seq![c] + rest =~= s);
        } else {
            let hi = (0xD800 + (v - 0x10000) / 0x400) as u16;
            let lo = (0xDC00 + (v - 0x10000) % 0x400) as u16;
            assert((v - 0x10000) / 0x400 <= 0x3FF && (v - 0x10000) / 0x400 >= 0)
                by (nonlinear_arith)
                requires
                    0x10000 <= v <= 0x10FFFF,
            ;
            assert(0 <= (v - 0x10000) % 0x400 < 0x400);
            assert(u[0] == hi && u[1] == lo);
            assert(is_high_surrogate(hi) && is_low_surrogate(lo));
            assert(u.skip(2) =~= utf16(rest));
            vstd::arithmetic::div_mod::lemma_fundamental_div_mod((v - 0x10000) as int, 0x400);
            assert(surrogate_value(hi, lo) == v);
            vstd::utf8::char_u32_cast(c, surrogate_value(hi, lo));
            assert((surrogate_value(hi, lo) as char) == c);
            assert(seq![c] + rest =~= s);
        }
    }
}

/// Relies on `char::from_u32` of std: it returns `Some` exactly for Unicode
/// scalar values (at most 0x10FFFF and not a surrogate), and the character
/// returned has the given value.
#[verifier::external_body]
fn char_from_u32(v: u32) -> (r: Option<char>)
    ensures
        r is Some <==> vstd::utf8::is_scalar(v),
        r matches Some(c) ==> c as u32 == v,
{
    char::from_u32(v)
}

/// Relies on `String::push` of std: it appends the given character to the
/// end of the string.
#[verifier::external_body]
pub(crate) fn push_char(s: &mut String, c: char)
    ensures
        final(s)@ == old(s)@.push(c),
{
    s.push(c);
}

/// The UTF-16 code units of a string, in order.
pub fn utf16_units(s: &str) -> (r: Vec<u16>)
    ensures
        r@ == utf16(s@),
{
    broadcast use vstd::utf8::char_is_scalar;

    let n = s.unicode_len();
    let mut units: Vec<u16> = Vec::new();
    let mut i: usize = 0;
    while i < n
        invariant
            n == s@.len(),
            0 <= i <= n,
            units@ == utf16(s@.take(i as int)),
        decreases n - i,
    {
        let c = s.get_char(i);
        let v = c as u32;
        proof {
            lemma_utf16_push(s@.take(i as int), c);
            assert(s@.take(i as int).push(c) =~= s@.take(i as int + 1));
        }
        if v < 0x10000 {
            units.push(v as u16);
            proof {
                assert(units@ =~= utf16(s@.take(i as int + 1)));
            }
        } else {
            assert((v - 0x10000) / 0x400 <= 0x3FF && (v - 0x10000) / 0x400 >= 0)
                by (nonlinear_arith)
                requires
                    0x10000 <= v <= 0x10FFFF,
            ;
            units.push((0xD800 + (v - 0x10000) / 0x400) as u16);
            units.push((0xDC00 + (v - 0x10000) % 0x400) as u16);
            proof {
                assert(units@ =~= utf16(s@.take(i as int + 1)));
            }
        }
        i = i + 1;
    }
    proof {
        assert(s@.take(n as int) =~= s@);
    }
    units
}

/// Decode UTF-16 code units into a string; fails exactly when the units are
/// not valid UTF-16.
pub fn string_from_utf16(units: &[u16]) -> (r: Option<String>)
    ensures
        match r {
            Some(s) => utf16_to_chars(units@) == Some(s@),
            None => utf16_to_chars(units@) is None,
        },
{
    broadcast use vstd::utf8::char_u32_cast;

    let n = units.len();
    let mut out = String::new();
    let mut i: usize = 0;
    proof {
        assert(units@.skip(0) =~= units@);
        if let Some(rest) = utf16_to_chars(units@) {
            assert(Seq::<char>::empty() + rest =~= rest);
        }
    }
    while i < n
        invariant
            n == units@.len(),
            0 <= i <= n,
            (match utf16_to_chars(units@.skip(i as int)) {
                Some(rest) => utf16_to_chars(units@) == Some(out@ + rest),
                None => utf16_to_chars(units@) is None,
            }),
        decreases n - i,
    {
        let ghost tail = units@.skip(i as int);
        proof {
            assert(tail.len() == n - i);
            assert(tail[0] == units@[i as int]);
            assert(tail.drop_first() =~= units@.skip(i as int + 1));
            if n - i >= 2 {
                assert(tail[1] == units@[i as int + 1]);
                assert(tail.skip(2) =~= units@.skip(i as int + 2));
            }
        }
        let u = units[i];
        if 0xD800 <= u && u <= 0xDBFF {
            if i + 1 < n && 0xDC00 <= units[i + 1] && units[i + 1] <= 0xDFFF {
                let lo = units[i + 1];
                assert((u as u32 - 0xD800) * 0x400 <= 0x3FF * 0x400) by (nonlinear_arith)
                    requires
                        u as u32 - 0xD800 <= 0x3FF,
                ;
                let v: u32 = 0x10000 + (u as u32 - 0xD800) * 0x400 + (lo as u32 - 0xDC00);
                assert(vstd::utf8::is_scalar(v));
                let c = match char_from_u32(v) {
                    Some(c) => c,
                    None => {
                        return None;
                    },
                };
                let ghost prev = out@;
                push_char(&mut out, c);
                proof {
                    assert(surrogate_value(u, lo) == v);
                    vstd::utf8::char_u32_cast(c, surrogate_value(tail[0], tail[1]));
                    assert((surrogate_value(tail[0], tail[1]) as char) == c);
                    match utf16_to_chars(units@.skip(i as int + 2)) {
                        Some(rest2) => {
                            assert(utf16_to_chars(tail) == Some(seq![c] + rest2));
                            assert(prev + (seq![c] + rest2) =~= out@ + rest2);
                        },
                        None => {
                            assert(utf16_to_chars(tail) is None);
                        },
                    }
                }
                i = i + 2;
            } else {
                proof {
                    assert(utf16_to_chars(tail) is None);
                }
                return None;
            }
        } else if 0xDC00 <= u && u <= 0xDFFF {
            proof {
                assert(utf16_to_chars(tail) is None);
            }
            return None;
        } else {
            let v = u as u32;
            assert(vstd::utf8::is_scalar(v));
            let c = match char_from_u32(v) {
                Some(c) => c,
                None => {
                    return None;
                },
            };
            let ghost prev = out@;
            push_char(&mut out, c);
            proof {
                vstd::utf8::char_u32_cast(c, tail[0] as u32);
                assert(((tail[0] as u32) as char) == c);
                match utf16_to_chars(units@.skip(i as int + 1)) {
                    Some(rest2) => {
                        assert(utf16_to_chars(tail) == Some(seq![c] + rest2));
                        assert(prev + (seq![c] + rest2) =~= out@ + rest2);
                    },
                    None => {
                        assert(utf16_to_chars(tail) is None);
                    },
                }
            }
            i = i + 1;
        }
    }
    proof {
        assert(units@.skip(n as int) =~= Seq::<u16>::empty());
        if let Some(rest) = utf16_to_chars(units@.skip(n as int)) {
            assert(out@ + rest =~= out@);
        }
    }
    Some(out)
}

} // verus!
