//! Text decoding and rendering helpers.
//!
//! String-pool entries arrive either as UTF-8 bytes or as UTF-16 code
//! units.  UTF-8 is handed to the standard library and specified through
//! vstd's UTF-8 model; UTF-16 is decoded here, against the spec function
//! [`utf16_decode`].  The module also renders integers as decimal and
//! lowercase hexadecimal text for typed attribute values.

use vstd::prelude::*;

use crate::error::FormatError;

verus! {

use vstd::utf8::{valid_utf8, decode_utf8, char_u32_cast};

/// Turn a byte vector into a string, or fail on invalid UTF-8.
///
/// Relies on `String::from_utf8`: it returns `Ok` exactly on valid UTF-8
/// and then decodes the bytes; vstd's `valid_utf8` and `decode_utf8` state
/// the same encoding.
#[verifier::external_body]
pub fn string_from_utf8(bytes: Vec<u8>) -> (r: Result<String, FormatError>)
    ensures
        r matches Ok(s) ==> valid_utf8(bytes@) && s@ == decode_utf8(bytes@),
        r matches Err(e) ==> !valid_utf8(bytes@) && e == FormatError::InvalidTextEncoding,
{
    match String::from_utf8(bytes) {
        Ok(s) => Ok(s),
        Err(_) => Err(FormatError::InvalidTextEncoding),
    }
}

/// Append one character to a string.
///
/// Relies on `String::push`: it appends the given character to the end of
/// the string.
#[verifier::external_body]
pub fn push_char(s: &mut String, c: char)
    ensures
        final(s)@ == old(s)@.push(c),
{
    s.push(c);
}

/// Turn a code point into a `char` when one exists.
///
/// Relies on `char::from_u32`: it returns `Some` exactly for values that
/// are Unicode scalar values (at most 0x10FFFF and not a surrogate), and
/// the resulting `char` has the given value as its code point.
#[verifier::external_body]
pub fn char_from_u32(v: u32) -> (r: Option<char>)
    ensures
        r is Some <==> (v <= 0x10FFFF && !(0xD800 <= v <= 0xDFFF)),
        r matches Some(c) ==> c as u32 == v,
{
    char::from_u32(v)
}

/// A UTF-16 code unit that opens a surrogate pair.
pub open spec fn is_high_surrogate(u: int) -> bool {
    0xD800 <= u < 0xDC00
}

/// A UTF-16 code unit that closes a surrogate pair.
pub open spec fn is_low_surrogate(u: int) -> bool {
    0xDC00 <= u < 0xE000
}

/// The characters a UTF-16 code-unit sequence stands for, or `None` when
/// a lone or misplaced surrogate makes it invalid.
pub open spec fn utf16_decode(units: Seq<u16>) -> Option<Seq<char>>
    decreases units.len(),
{
    if units.len() == 0 {
        Some(seq![])
    } else if !is_high_surrogate(units[0] as int) && !is_low_surrogate(units[0] as int) {
        match utf16_decode(units.drop_first()) {
            Some(rest) => Some(seq![(units[0] as u32) as char] + rest),
            None => None,
        }
    } else if is_high_surrogate(units[0] as int) && units.len() >= 2 && is_low_surrogate(
        units[1] as int,
    ) {
        let cp = 0x10000 + (units[0] - 0xD800) * 0x400 + (units[1] - 0xDC00);
        match utf16_decode(units.skip(2)) {
            Some(rest) => Some(seq![(cp as u32) as char] + rest),
            None => None,
        }
    } else {
        None
    }
}

/// Decode a UTF-16 code-unit sequence into a string, or fail with
/// `InvalidTextEncoding` exactly when the sequence is not valid UTF-16.
pub fn utf16_to_string(units: &Vec<u16>) -> (r: Result<String, FormatError>)
    ensures
        match utf16_decode(units@) {
            Some(cs) => r matches Ok(s) && s@ == cs,
            None => r == Err::<String, FormatError>(FormatError::InvalidTextEncoding),
        },
{
    let mut out: String = String::new();
    let mut i: usize = 0;
    proof {
        assert(units@.skip(0) =~= units@);
        let t = utf16_decode(units@);
        if t is Some {
            assert(Seq::<char>::empty() + t.unwrap() =~= t.unwrap());
        }
    }
    while i < units.len()
        invariant
            i <= units@.len(),
            match utf16_decode(units@.skip(i as int)) {
                Some(rest) => utf16_decode(units@) == Some(out@ + rest),
                None => utf16_decode(units@) is None,
            },
        decreases units@.len() - i,
    {
        let u: u16 = units[i];
        if u < 0xD800 || u >= 0xE000 {
            let c: char = char_from_u32(u as u32).unwrap();
            proof {
                char_u32_cast(c, u as u32);
                assert(units@.skip(i as int).drop_first() =~= units@.skip(i + 1));
                assert(units@.skip(i as int)[0] == units@[i as int]);
            }
            let ghost prev = out@;
            push_char(&mut out, c);
            proof {
                assert(units@.skip(i as int)[0] == units@[i as int]);
                assert(units@.skip(i as int).drop_first() =~= units@.skip(i + 1));
                let tail = utf16_decode(units@.skip(i + 1));
                if tail is Some {
                    assert(prev + (seq![c] + tail.unwrap()) =~= out@ + tail.unwrap());
                }
            }
            i = i + 1;
        } else if u < 0xDC00 {
            if i + 1 < units.len() {
                let u2: u16 = units[i + 1];
                if 0xDC00 <= u2 && u2 < 0xE000 {
                    let cp: u32 = 0x10000 + ((u as u32) - 0xD800) * 0x400 + ((u2 as u32) - 0xDC00);
                    let c: char = char_from_u32(cp).unwrap();
                    proof {
                        char_u32_cast(c, cp);
                        assert(units@.skip(i as int)[0] == units@[i as int]);
                        assert(units@.skip(i as int)[1] == units@[i + 1]);
                        assert(units@.skip(i as int).skip(2) =~= units@.skip(i + 2));
                    }
                    let ghost prev = out@;
                    push_char(&mut out, c);
                    proof {
                        assert(units@.skip(i as int)[0] == units@[i as int]);
                        assert(units@.skip(i as int)[1] == units@[i + 1]);
                        assert(units@.skip(i as int).skip(2) =~= units@.skip(i + 2));
                        let tail = utf16_decode(units@.skip(i + 2));
                        if tail is Some {
                            assert(prev + (seq![c] + tail.unwrap()) =~= out@ + tail.unwrap());
                        }
                    }
                    i = i + 2;
                } else {
                    proof {
                        assert(units@.skip(i as int)[0] == units@[i as int]);
                        assert(units@.skip(i as int)[1] == units@[i + 1]);
                    }
                    return Err(FormatError::InvalidTextEncoding);
                }
            } else {
                proof {
                    assert(units@.skip(i as int)[0] == units@[i as int]);
                    assert(units@.skip(i as int).len() == units@.len() - i);
                }
                return Err(FormatError::InvalidTextEncoding);
            }
        } else {
            proof {
                assert(units@.skip(i as int)[0] == units@[i as int]);
            }
            return Err(FormatError::InvalidTextEncoding);
        }
    }
    proof {
        assert(units@.skip(i as int) =~= Seq::<u16>::empty());
        assert(out@ + Seq::<char>::empty() =~= out@);
    }
    Ok(out)
}

/// The character for one digit value below sixteen.
pub open spec fn digit_char(d: int) -> char {
    if d == 0 {
        '0'
    } else if d == 1 {
        '1'
    } else if d == 2 {
        '2'
    } else if d == 3 {
        '3'
    } else if d == 4 {
        '4'
    } else if d == 5 {
        '5'
    } else if d == 6 {
        '6'
    } else if d == 7 {
        '7'
    } else if d == 8 {
        '8'
    } else if d == 9 {
        '9'
    } else if d == 10 {
        'a'
    } else if d == 11 {
        'b'
    } else if d == 12 {
        'c'
    } else if d == 13 {
        'd'
    } else if d == 14 {
        'e'
    } else {
        'f'
    }
}

/// Decimal rendering of a non-negative number, with no leading zeros.
pub open spec fn spec_dec_digits(n: int) -> Seq<char>
    decreases n,
{
    if n < 10 {
        seq![digit_char(n)]
    } else {
        spec_dec_digits(n / 10) + seq![digit_char(n % 10)]
    }
}

/// Lowercase hexadecimal rendering of a non-negative number, with no
/// leading zeros.
pub open spec fn spec_hex_digits(n: int) -> Seq<char>
    decreases n,
{
    if n < 16 {
        seq![digit_char(n)]
    } else {
        spec_hex_digits(n / 16) + seq![digit_char(n % 16)]
    }
}

/// The character for one digit value below sixteen.
pub fn digit_char_exec(d: u8) -> (c: char)
    requires
        d < 16,
    ensures
        c == digit_char(d as int),
{
    if d == 0 {
        '0'
    } else if d == 1 {
        '1'
    } else if d == 2 {
        '2'
    } else if d == 3 {
        '3'
    } else if d == 4 {
        '4'
    } else if d == 5 {
        '5'
    } else if d == 6 {
        '6'
    } else if d == 7 {
        '7'
    } else if d == 8 {
        '8'
    } else if d == 9 {
        '9'
    } else if d == 10 {
        'a'
    } else if d == 11 {
        'b'
    } else if d == 12 {
        'c'
    } else if d == 13 {
        'd'
    } else if d == 14 {
        'e'
    } else {
        'f'
    }
}

/// Append the decimal rendering of `n`.
pub fn push_dec(out: &mut String, n: u32)
    ensures
        final(out)@ == old(out)@ + spec_dec_digits(n as int),
    decreases n,
{
    if n >= 10 {
        proof {
            assert(n as int / 10 < n as int) by (nonlinear_arith)
                requires
                    n >= 10,
            ;
        }
        push_dec(out, n / 10);
    }
    push_char(out, digit_char_exec((n % 10) as u8));
    proof {
        if n >= 10 {
            assert(old(out)@ + spec_dec_digits(n as int / 10) + seq![
                digit_char((n % 10) as int),
            ] =~= old(out)@ + spec_dec_digits(n as int));
        } else {
            assert(old(out)@.push(digit_char(n as int)) =~= old(out)@ + spec_dec_digits(n as int));
        }
    }
}

/// Append the lowercase hexadecimal rendering of `n`.
pub fn push_hex(out: &mut String, n: u32)
    ensures
        final(out)@ == old(out)@ + spec_hex_digits(n as int),
    decreases n,
{
    if n >= 16 {
        proof {
            assert(n as int / 16 < n as int) by (nonlinear_arith)
                requires
                    n >= 16,
            ;
        }
        push_hex(out, n / 16);
    }
    push_char(out, digit_char_exec((n % 16) as u8));
    proof {
        if n >= 16 {
            assert(old(out)@ + spec_hex_digits(n as int / 16) + seq![
                digit_char((n % 16) as int),
            ] =~= old(out)@ + spec_hex_digits(n as int));
        } else {
            assert(old(out)@.push(digit_char(n as int)) =~= old(out)@ + spec_hex_digits(n as int));
        }
    }
}

} // verus!
