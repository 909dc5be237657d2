use vstd::prelude::*;
use vstd::string::StrSliceExecFns;

verus! {

/// A decimal digit.
pub open spec fn is_digit_char(c: char) -> bool {
    48 <= (c as u32) <= 57
}

/// The numeric value of a decimal digit.
pub open spec fn digit_val(c: char) -> int {
    (c as u32) - 48
}

/// The value of the digits of `s` from index `i` on, appended to a prefix
/// whose value is `acc`; `None` when a non-digit occurs at or after `i`.
pub open spec fn digits_val_from(s: Seq<char>, i: int, acc: int) -> Option<int>
    decreases s.len() - i,
{
    if i >= s.len() {
        Some(acc)
    } else if is_digit_char(s[i]) {
        digits_val_from(s, i + 1, acc * 10 + digit_val(s[i]))
    } else {
        None
    }
}

pub proof fn lemma_digits_val_lower_bound(s: Seq<char>, i: int, acc: int)
    requires
        acc >= 0,
        digits_val_from(s, i, acc) is Some,
    ensures
        digits_val_from(s, i, acc)->Some_0 >= acc,
    decreases s.len() - i,
{
    if i < s.len() && is_digit_char(s[i]) {
        lemma_digits_val_lower_bound(s, i + 1, acc * 10 + digit_val(s[i]));
    }
}

/// The value of `s` read the way `str::parse::<u32>` reads it: an optional
/// leading '+', then one or more decimal digits, the value fitting in `u32`.
pub open spec fn spec_parse_u32(s: Seq<char>) -> Option<u32> {
    let start: int = if s.len() > 0 && s[0] == '+' {
        1
    } else {
        0
    };
    if s.len() <= start {
        None
    } else {
        match digits_val_from(s, start, 0) {
            Some(v) => if v <= u32::MAX {
                Some(v as u32)
            } else {
                None
            },
            None => None,
        }
    }
}

/// The value of `s` read the way `str::parse::<i32>` reads it: an optional
/// leading sign, then one or more decimal digits, the value fitting in `i32`.
pub open spec fn spec_parse_i32(s: Seq<char>) -> Option<i32> {
    let neg = s.len() > 0 && s[0] == '-';
    let start: int = if s.len() > 0 && (s[0] == '-' || s[0] == '+') {
        1
    } else {
        0
    };
    if s.len() <= start {
        None
    } else {
        match digits_val_from(s, start, 0) {
            Some(v) => if neg {
                if v <= 0x8000_0000 {
                    Some((-v) as i32)
                } else {
                    None
                }
            } else {
                if v <= 0x7FFF_FFFF {
                    Some(v as i32)
                } else {
                    None
                }
            },
            None => None,
        }
    }
}

/// Parses `s` as a decimal `u32`.
pub fn parse_u32_str(s: &str) -> (r: Option<u32>)
    ensures
        r == spec_parse_u32(s@),
{
    let n = s.unicode_len();
    let mut i: usize = 0;
    if n > 0 && s.get_char(0) == '+' {
        i = 1;
    }
    let ghost start = i as int;
    if i == n {
        return None;
    }
    let mut acc: u64 = 0;
    while i < n
        invariant
            n == s@.len(),
            start <= i <= n,
            0 <= acc <= u32::MAX,
            digits_val_from(s@, i as int, acc as int) == digits_val_from(s@, start, 0),
            spec_parse_u32(s@) == (match digits_val_from(s@, start, 0) {
                Some(v) => if v <= u32::MAX {
                    Some(v as u32)
                } else {
                    None::<u32>
                },
                None => None::<u32>,
            }),
        decreases n - i,
    {
        let c = s.get_char(i);
        let u = c as u32;
        if u < 48 || u > 57 {
            return None;
        }
        acc = acc * 10 + ((u - 48) as u64);
        i += 1;
        if acc > 0xFFFF_FFFF {
            proof {
                if digits_val_from(s@, i as int, acc as int) is Some {
                    lemma_digits_val_lower_bound(s@, i as int, acc as int);
                }
            }
            return None;
        }
    }
    Some(acc as u32)
}

/// Parses `s` as a decimal `i32`.
pub fn parse_i32_str(s: &str) -> (r: Option<i32>)
    ensures
        r == spec_parse_i32(s@),
{
    let n = s.unicode_len();
    let mut i: usize = 0;
    let mut neg = false;
    if n > 0 {
        let c0 = s.get_char(0);
        if c0 == '-' {
            neg = true;
            i = 1;
        } else if c0 == '+' {
            i = 1;
        }
    }
    let ghost start = i as int;
    if i == n {
        return None;
    }
    let mut acc: u64 = 0;
    while i < n
        invariant
            n == s@.len(),
            start <= i <= n,
            0 <= acc <= 0x8000_0000u64,
            neg == (s@.len() > 0 && s@[0] == '-'),
            digits_val_from(s@, i as int, acc as int) == digits_val_from(s@, start, 0),
            spec_parse_i32(s@) == (match digits_val_from(s@, start, 0) {
                Some(v) => if neg {
                    if v <= 0x8000_0000 {
                        Some((-v) as i32)
                    } else {
                        None::<i32>
                    }
                } else {
                    if v <= 0x7FFF_FFFF {
                        Some(v as i32)
                    } else {
                        None::<i32>
                    }
                },
                None => None::<i32>,
            }),
        decreases n - i,
    {
        let c = s.get_char(i);
        let u = c as u32;
        if u < 48 || u > 57 {
            return None;
        }
        acc = acc * 10 + ((u - 48) as u64);
        i += 1;
        if acc > 0x8000_0000 {
            proof {
                if digits_val_from(s@, i as int, acc as int) is Some {
                    lemma_digits_val_lower_bound(s@, i as int, acc as int);
                }
            }
            return None;
        }
    }
    if neg {
        let v: i64 = -(acc as i64);
        Some(v as i32)
    } else {
        if acc > 0x7FFF_FFFF {
            None
        } else {
            Some(acc as i32)
        }
    }
}

} // verus!
