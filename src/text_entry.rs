//! Parsing of the operator's text entries into unsigned integers.
use vstd::prelude::*;
use vstd::string::*;

verus! {

/// The value of `c` as a digit in `radix` (10 or 16, letters in either case).
pub open spec fn digit_of(c: char, radix: nat) -> Option<nat> {
    let u = c as u32;
    if '0' as u32 <= u && u <= '9' as u32 {
        Some((u - '0' as u32) as nat)
    } else if radix == 16 && 'a' as u32 <= u && u <= 'f' as u32 {
        Some((u - 'a' as u32 + 10) as nat)
    } else if radix == 16 && 'A' as u32 <= u && u <= 'F' as u32 {
        Some((u - 'A' as u32 + 10) as nat)
    } else {
        None
    }
}

/// Every character of `s` is a digit in `radix`.
pub open spec fn all_digits(s: Seq<char>, radix: nat) -> bool {
    forall|i: int| 0 <= i < s.len() ==> (#[trigger] digit_of(s[i], radix)).is_some()
}

/// The number that the digits of `s` write in `radix`, most significant first.
pub open spec fn digits_value(s: Seq<char>, radix: nat) -> nat
    decreases s.len(),
{
    if s.len() == 0 {
        0
    } else {
        digits_value(s.drop_last(), radix) * radix + digit_of(s.last(), radix).unwrap_or(0)
    }
}

/// The digits of an unsigned number as written: `s` without one leading `+`.
pub open spec fn unsigned_digits(s: Seq<char>) -> Seq<char> {
    if s.len() > 0 && s[0] == '+' {
        s.subrange(1, s.len() as int)
    } else {
        s
    }
}

/// The unsigned number that `s` writes in `radix`, if it is at most `max`:
/// an optional `+`, then one or more digits and nothing else.
pub open spec fn parse_unsigned(s: Seq<char>, radix: nat, max: nat) -> Option<nat> {
    let d = unsigned_digits(s);
    if d.len() > 0 && all_digits(d, radix) && digits_value(d, radix) <= max {
        Some(digits_value(d, radix))
    } else {
        None
    }
}

/// A source line number typed in decimal.
pub open spec fn parse_line_number(s: Seq<char>) -> Option<nat> {
    parse_unsigned(s, 10, usize::MAX as nat)
}

/// A 16-bit memory address typed in hexadecimal.
pub open spec fn parse_address(s: Seq<char>) -> Option<nat> {
    parse_unsigned(s, 16, u16::MAX as nat)
}

fn digit(c: char, radix: u32) -> (r: Option<u32>)
    requires
        radix == 10 || radix == 16,
    ensures
        r.is_some() == digit_of(c, radix as nat).is_some(),
        r.is_some() ==> r.unwrap() as nat == digit_of(c, radix as nat).unwrap(),
        r.is_some() ==> r.unwrap() < radix,
{
    let u = c as u32;
    if '0' as u32 <= u && u <= '9' as u32 {
        Some(u - '0' as u32)
    } else if radix == 16 && 'a' as u32 <= u && u <= 'f' as u32 {
        Some(u - 'a' as u32 + 10)
    } else if radix == 16 && 'A' as u32 <= u && u <= 'F' as u32 {
        Some(u - 'A' as u32 + 10)
    } else {
        None
    }
}

/// Reads `s` as an unsigned number in `radix` that is at most `max`.
pub fn parse_unsigned_text(s: &str, radix: u32, max: u64) -> (r: Option<u64>)
    requires
        radix == 10 || radix == 16,
    ensures
        r.is_some() == parse_unsigned(s@, radix as nat, max as nat).is_some(),
        r.is_some() ==> r.unwrap() as nat == parse_unsigned(s@, radix as nat, max as nat).unwrap(),
{
    let n = s.unicode_len();
    let ghost d = unsigned_digits(s@);
    let start: usize = if n > 0 && s.get_char(0) == '+' { 1 } else { 0 };
    assert(d =~= s@.subrange(start as int, n as int));
    if start >= n {
        return None;
    }
    let mut acc: u128 = 0;
    let mut too_big = false;
    let mut i: usize = start;
    while i < n
        invariant
            start <= i <= n,
            n == s@.len(),
            radix == 10 || radix == 16,
            d == unsigned_digits(s@),
            d =~= s@.subrange(start as int, n as int),
            all_digits(s@.subrange(start as int, i as int), radix as nat),
            !too_big ==> acc as nat == digits_value(s@.subrange(start as int, i as int), radix as nat),
            !too_big ==> acc <= max,
            too_big ==> digits_value(s@.subrange(start as int, i as int), radix as nat) > max,
        decreases n - i,
    {
        let c = s.get_char(i);
        let ghost pre = s@.subrange(start as int, i as int);
        let ghost next = s@.subrange(start as int, i + 1);
        assert(next.drop_last() =~= pre);
        assert(next.last() == c);
        match digit(c, radix) {
            None => {
                assert(!all_digits(d, radix as nat)) by {
                    assert(d[i - start] == c);
                    assert(digit_of(d[i - start], radix as nat).is_none());
                }
                return None;
            },
            Some(v) => {
                assert(all_digits(next, radix as nat)) by {
                    assert forall|k: int| 0 <= k < next.len() implies (#[trigger] digit_of(next[k], radix as nat)).is_some() by {
                        if k < pre.len() {
                            assert(next[k] == pre[k]);
                        }
                    }
                }
                let ghost pv = digits_value(pre, radix as nat);
                assert(digits_value(next, radix as nat) == pv * radix + v);
                if !too_big {
                    acc = acc * (radix as u128) + (v as u128);
                    if acc > max as u128 {
                        too_big = true;
                    }
                } else {
                    assert(pv * radix + v >= pv) by (nonlinear_arith)
                        requires radix >= 1;
                }
            },
        }
        i = i + 1;
    }
    assert(s@.subrange(start as int, i as int) =~= d);
    if too_big {
        None
    } else {
        Some(acc as u64)
    }
}

/// Reads a line number typed in decimal.
pub fn parse_line_number_text(s: &str) -> (r: Option<usize>)
    ensures
        r.is_some() == parse_line_number(s@).is_some(),
        r.is_some() ==> r.unwrap() as nat == parse_line_number(s@).unwrap(),
{
    match parse_unsigned_text(s, 10, usize::MAX as u64) {
        Some(v) => Some(v as usize),
        None => None,
    }
}

/// Reads a memory address typed in hexadecimal, in either case.
pub fn parse_address_text(s: &str) -> (r: Option<u16>)
    ensures
        r.is_some() == parse_address(s@).is_some(),
        r.is_some() ==> r.unwrap() as nat == parse_address(s@).unwrap(),
{
    match parse_unsigned_text(s, 16, u16::MAX as u64) {
        Some(v) => Some(v as u16),
        None => None,
    }
}

} // verus!
