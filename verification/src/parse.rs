//! Parsing of signed decimal integer text.

use vstd::prelude::*;

use crate::digits::is_digit_char;

verus! {

/// The numeric value of a decimal digit character.
pub open spec fn digit_value(c: char) -> nat
    recommends
        is_digit_char(c),
{
    (c as u32 - 48) as nat
}

/// Whether every character of `s` is a decimal digit.
pub open spec fn all_digit_chars(s: Seq<char>) -> bool {
    forall|i: int| 0 <= i < s.len() ==> is_digit_char(#[trigger] s[i])
}

/// The value of a digit string read in base ten, most significant digit
/// first.
pub open spec fn digits_value(s: Seq<char>) -> nat
    decreases s.len(),
{
    if s.len() == 0 {
        0
    } else {
        digits_value(s.drop_last()) * 10 + digit_value(s.last())
    }
}

/// Whether the text has the shape of a signed decimal integer: an
/// optional sign followed by one or more digits and nothing else.
pub open spec fn int_text_shape(s: Seq<char>) -> bool {
    if s.len() == 0 {
        false
    } else if s[0] == '+' || s[0] == '-' {
        s.len() >= 2 && all_digit_chars(s.drop_first())
    } else {
        all_digit_chars(s)
    }
}

/// The signed value that a well-shaped integer text denotes.
pub open spec fn int_text_value(s: Seq<char>) -> int
    recommends
        int_text_shape(s),
{
    if s.len() > 0 && s[0] == '-' {
        -(digits_value(s.drop_first()) as int)
    } else if s.len() > 0 && s[0] == '+' {
        digits_value(s.drop_first()) as int
    } else {
        digits_value(s) as int
    }
}

/// Whether the text denotes an integer in the range of `i32`.
pub open spec fn parses_to_i32(s: Seq<char>) -> bool {
    &&& int_text_shape(s)
    &&& i32::MIN <= int_text_value(s) <= i32::MAX
}

/// Reads the magnitude of the digit text `s[start..]`.  Returns the value
/// when every character is a digit and the value stays below `2^32`;
/// reports a bad digit or an overflow otherwise.
fn scan_magnitude(s: &str, start: usize) -> (r: Result<u64, ()>)
    requires
        start <= s@.len(),
    ensures
        r matches Ok(m) ==> all_digit_chars(s@.skip(start as int)) && m == digits_value(
            s@.skip(start as int),
        ) && m <= u32::MAX,
        r is Err ==> !all_digit_chars(s@.skip(start as int)) || digits_value(
            s@.skip(start as int),
        ) > u32::MAX,
{
    let n = s.unicode_len();
    let mut mag: u64 = 0;
    let mut i: usize = start;
    let mut over = false;
    proof {
        assert(s@.subrange(start as int, start as int) =~= Seq::<char>::empty());
    }
    while i < n
        invariant
            n == s@.len(),
            start <= i <= n,
            all_digit_chars(s@.subrange(start as int, i as int)),
            !over ==> mag == digits_value(s@.subrange(start as int, i as int)) && mag
                <= u32::MAX,
            over ==> digits_value(s@.subrange(start as int, i as int)) > u32::MAX,
        decreases n - i,
    {
        let c = s.get_char(i);
        let u = c as u32;
        if u < 48 || u > 57 {
            proof {
                assert(s@.skip(start as int)[i - start] == s@[i as int]);
            }
            return Err(());
        }
        let d = (u - 48) as u64;
        proof {
            let pre = s@.subrange(start as int, i as int);
            let ext = s@.subrange(start as int, i + 1);
            assert(ext.drop_last() =~= pre);
            assert(ext.last() == s@[i as int]);
        }
        if over {
            proof {
                let pre = s@.subrange(start as int, i as int);
                let ext = s@.subrange(start as int, i + 1);
                assert(digits_value(ext) == digits_value(pre) * 10 + digit_value(ext.last()));
                assert(digits_value(pre) * 10 >= digits_value(pre)) by (nonlinear_arith)
                    requires
                        digits_value(pre) >= 0,
                ;
            }
        } else {
            let next = mag * 10 + d;
            if next > 0xFFFF_FFFF {
                over = true;
                mag = 0;
            } else {
                mag = next;
            }
        }
        i = i + 1;
    }
    proof {
        assert(s@.subrange(start as int, n as int) =~= s@.skip(start as int));
    }
    if over {
        Err(())
    } else {
        Ok(mag)
    }
}

/// Parses the text as a signed decimal integer.  Succeeds exactly on an
/// optional sign followed by digits whose value fits `i32`; anything
/// else, fractions included, is an error.
pub fn safe_parse_int(input: &str) -> (r: Result<i32, String>)
    ensures
        parses_to_i32(input@) ==> (r matches Ok(n) && n == int_text_value(input@)),
        !parses_to_i32(input@) ==> (r matches Err(m) && m@ == "Cannot parse '"@ + input@
            + "' as integer"@),
{
    let n = input.unicode_len();
    let mut negative = false;
    let mut start: usize = 0;
    if n > 0 {
        let c0 = input.get_char(0);
        if c0 == '-' {
            negative = true;
            start = 1;
        } else if c0 == '+' {
            start = 1;
        }
    }
    let ok: Option<i32> = if n == 0 || n == start {
        None
    } else {
        match scan_magnitude(input, start) {
            Err(()) => None,
            Ok(mag) => {
                proof {
                    if start == 1 {
                        assert(input@.skip(1) =~= input@.drop_first());
                    } else {
                        assert(input@.skip(0) =~= input@);
                    }
                }
                if negative {
                    if mag <= 0x8000_0000u64 {
                        Some((-(mag as i64)) as i32)
                    } else {
                        None
                    }
                } else {
                    if mag <= 0x7FFF_FFFFu64 {
                        Some(mag as i32)
                    } else {
                        None
                    }
                }
            },
        }
    };
    proof {
        if input@.len() > 0 && input@[0] != '+' && input@[0] != '-' && ok is None {
            assert(input@.skip(0) =~= input@);
        }
        if input@.len() >= 2 && (input@[0] == '+' || input@[0] == '-') && ok is None {
            assert(input@.skip(1) =~= input@.drop_first());
        }
    }
    match ok {
        Some(v) => Ok(v),
        None => {
            let mut m = String::from_str("Cannot parse '");
            m.append(input);
            m.append("' as integer");
            proof {
                assert(m@ =~= "Cannot parse '"@ + input@ + "' as integer"@);
            }
            Err(m)
        },
    }
}

} // verus!
