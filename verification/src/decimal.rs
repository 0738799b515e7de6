//! Parsing of attribute values as signed 16-bit decimal integers.
//!
//! The directory pipeline accepts a member's `uid` attribute only when its
//! single value is an optionally signed decimal numeral in `i16` range; the
//! parser here is written and proved against that statement directly.

use vstd::prelude::*;

verus! {

pub open spec fn is_digit(c: char) -> bool {
    '0' <= c && c <= '9'
}

pub open spec fn digit_val(c: char) -> int {
    c as int - '0' as int
}

pub open spec fn all_digits(s: Seq<char>) -> bool {
    forall|i: int| 0 <= i < s.len() ==> is_digit(#[trigger] s[i])
}

/// The integer a sequence of decimal digits denotes, most significant first.
pub open spec fn digits_val(s: Seq<char>) -> int
    decreases s.len(),
{
    if s.len() == 0 {
        0
    } else {
        digits_val(s.drop_last()) * 10 + digit_val(s.last())
    }
}

/// The value `s` denotes as an optionally signed decimal numeral, when that
/// value lies in `i16` range; `None` on every other string.
pub open spec fn spec_parse_i16(s: Seq<char>) -> Option<i16> {
    let negative = s.len() > 0 && s[0] == '-';
    let digits = if s.len() > 0 && (s[0] == '-' || s[0] == '+') {
        s.skip(1)
    } else {
        s
    };
    if digits.len() == 0 || !all_digits(digits) {
        None
    } else {
        let v = if negative {
            -digits_val(digits)
        } else {
            digits_val(digits)
        };
        if i16::MIN <= v && v <= i16::MAX {
            Some(v as i16)
        } else {
            None
        }
    }
}

proof fn lemma_digits_val_nonneg(s: Seq<char>)
    requires
        all_digits(s),
    ensures
        digits_val(s) >= 0,
    decreases s.len(),
{
    if s.len() > 0 {
        assert(all_digits(s.drop_last()));
        lemma_digits_val_nonneg(s.drop_last());
    }
}

/// Parse `s` as a signed 16-bit decimal integer, exactly as
/// [`spec_parse_i16`] describes.
pub fn parse_i16(s: &str) -> (r: Option<i16>)
    ensures
        r == spec_parse_i16(s@),
{
    let len = s.unicode_len();
    let mut i: usize = 0;
    let mut negative = false;
    if len > 0 {
        let c0 = s.get_char(0);
        if c0 == '-' {
            negative = true;
            i = 1;
        } else if c0 == '+' {
            i = 1;
        }
    }
    let ghost digits: Seq<char> = if i == 1 {
        s@.skip(1)
    } else {
        s@
    };
    if i >= len {
        assert(digits.len() == 0);
        return None;
    }
    let mut val: u32 = 0;
    let mut over = false;
    let mut j = i;
    while j < len
        invariant
            i <= j <= len,
            len == s@.len(),
            i == 0 || i == 1,
            i == 1 ==> s@.len() > 0 && (s@[0] == '-' || s@[0] == '+'),
            i == 0 ==> s@.len() == 0 || (s@[0] != '-' && s@[0] != '+'),
            negative <==> (s@.len() > 0 && s@[0] == '-'),
            digits == s@.skip(i as int),
            all_digits(s@.subrange(i as int, j as int)),
            !over ==> val == digits_val(s@.subrange(i as int, j as int)) && val <= 32768,
            over ==> digits_val(s@.subrange(i as int, j as int)) > 32768,
        decreases len - j,
    {
        let c = s.get_char(j);
        if !(c >= '0' && c <= '9') {
            assert(!all_digits(digits)) by {
                assert(digits[j - i] == s@[j as int]);
            }
            return None;
        }
        let d = (c as u32) - 48;
        proof {
            assert(s@.subrange(i as int, j + 1).drop_last() =~= s@.subrange(i as int, j as int));
            assert(s@.subrange(i as int, j + 1).last() == s@[j as int]);
            if over {
                lemma_digits_val_nonneg(s@.subrange(i as int, j as int));
            }
        }
        if !over {
            let next = val * 10 + d;
            if next > 32768 {
                over = true;
            } else {
                val = next;
            }
        }
        j = j + 1;
    }
    proof {
        assert(s@.subrange(i as int, len as int) =~= digits);
    }
    if over {
        return None;
    }
    if negative {
        if val == 32768 {
            Some(i16::MIN)
        } else {
            Some(-(val as i16))
        }
    } else {
        if val >= 32768 {
            None
        } else {
            Some(val as i16)
        }
    }
}

} // verus!
