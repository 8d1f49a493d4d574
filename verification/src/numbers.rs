//! Decimal numbers and dotted IPv4 addresses in text.
use vstd::prelude::*;

use crate::text::{split_chars, split_on, texts};

verus! {

/// `c` is an ASCII decimal digit.
pub open spec fn is_digit(c: char) -> bool {
    '0' <= c && c <= '9'
}

/// Every character of `s` is an ASCII decimal digit.
pub open spec fn all_digits(s: Seq<char>) -> bool {
    forall|i: int| 0 <= i < s.len() ==> #[trigger] is_digit(s[i])
}

/// The number that the decimal digits `s` write.
pub open spec fn decimal_value(s: Seq<char>) -> nat
    decreases s.len(),
{
    if s.len() == 0 {
        0
    } else {
        decimal_value(s.drop_last()) * 10 + (s.last() as nat - '0' as nat) as nat
    }
}

/// What `str::parse::<u8>` makes of `s`: an optional `+`, then one or more
/// decimal digits writing a number no greater than 255.
pub open spec fn parse_u8_text(s: Seq<char>) -> Option<u8> {
    let d = if s.len() > 0 && s[0] == '+' {
        s.drop_first()
    } else {
        s
    };
    if d.len() > 0 && all_digits(d) && decimal_value(d) <= 255 {
        Some(decimal_value(d) as u8)
    } else {
        None
    }
}

/// The digit that writes `d`.
pub open spec fn digit_char(d: nat) -> char {
    ((d + '0' as nat) as u32) as char
}

/// The decimal digits of `n`, without leading zeros (`n.to_string()`).
pub open spec fn decimal_text(n: nat) -> Seq<char>
    decreases n,
{
    if n < 10 {
        seq![digit_char(n)]
    } else {
        decimal_text(n / 10).push(digit_char(n % 10))
    }
}

/// One part of a dotted IPv4 address: one to three decimal digits, no
/// leading zero, at most 255.
pub open spec fn is_octet_text(s: Seq<char>) -> bool {
    &&& 1 <= s.len() <= 3
    &&& all_digits(s)
    &&& (s.len() == 1 || s[0] != '0')
    &&& decimal_value(s) <= 255
}

/// `s` is an IPv4 address in dot-decimal notation: four octets separated
/// by dots, with neither octal nor hexadecimal parts (`Ipv4Addr::from_str`).
pub open spec fn is_ipv4_text(s: Seq<char>) -> bool {
    let parts = split_on(s, '.');
    parts.len() == 4 && forall|i: int| 0 <= i < 4 ==> #[trigger] is_octet_text(parts[i])
}

proof fn lemma_decimal_value_grows(s: Seq<char>, k: int)
    requires
        0 <= k <= s.len(),
        all_digits(s),
    ensures
        decimal_value(s.take(k)) <= decimal_value(s),
    decreases s.len() - k,
{
    if k < s.len() {
        lemma_decimal_value_grows(s, k + 1);
        assert(s.take(k + 1).drop_last() =~= s.take(k));
        assert(s.take(k + 1).last() == s[k]);
        assert(is_digit(s[k]));
    } else {
        assert(s.take(k) =~= s);
    }
}

/// What `str::parse::<u8>` makes of `s`.
pub fn parse_u8(s: &Vec<char>) -> (r: Option<u8>)
    ensures
        r == parse_u8_text(s@),
{
    let start: usize = if s.len() > 0 && s[0] == '+' {
        1
    } else {
        0
    };
    let ghost d = if s@.len() > 0 && s@[0] == '+' {
        s@.drop_first()
    } else {
        s@
    };
    assert(d =~= s@.skip(start as int));
    if start >= s.len() {
        return None;
    }
    let mut value: u32 = 0;
    let mut i = start;
    while i < s.len()
        invariant
            start <= i <= s.len(),
            start < s.len(),
            d =~= s@.skip(start as int),
            parse_u8_text(s@) == (if all_digits(d) && decimal_value(d) <= 255 {
                Some(decimal_value(d) as u8)
            } else {
                None
            }),
            all_digits(d.take(i - start)),
            value == decimal_value(d.take(i - start)),
            value <= 255,
        decreases s.len() - i,
    {
        let c = s[i];
        assert(d[i - start] == c);
        if c < '0' || c > '9' {
            assert(!is_digit(d[i - start]));
            return None;
        }
        let digit = (c as u32) - ('0' as u32);
        assert(d.take(i - start + 1).drop_last() =~= d.take(i - start));
        assert(d.take(i - start + 1).last() == c);
        let next = value * 10 + digit;
        assert(next == decimal_value(d.take(i - start + 1)));
        assert(forall|j: int|
            0 <= j < i - start + 1 ==> #[trigger] d.take(i - start + 1)[j] == d[j]);
        if next > 255 {
            proof {
                if all_digits(d) {
                    lemma_decimal_value_grows(d, i - start + 1);
                }
            }
            return None;
        }
        value = next;
        i = i + 1;
    }
    assert(d.take(i - start) =~= d);
    Some(value as u8)
}

/// The decimal digits of `n`.
pub fn u8_text(n: u8) -> (r: Vec<char>)
    ensures
        r@ == decimal_text(n as nat),
{
    let mut r: Vec<char> = Vec::new();
    proof {
        reveal_with_fuel(decimal_text, 3);
    }
    if n >= 100 {
        assert((n / 10) / 10 == n / 100);
        r.push(char_of_digit(n / 100));
        r.push(char_of_digit((n / 10) % 10));
        r.push(char_of_digit(n % 10));
        assert(decimal_text((n / 10) as nat) == decimal_text((n / 100) as nat).push(
            digit_char(((n / 10) % 10) as nat),
        ));
    } else if n >= 10 {
        r.push(char_of_digit(n / 10));
        r.push(char_of_digit(n % 10));
    } else {
        r.push(char_of_digit(n));
    }
    assert(r@ =~= decimal_text(n as nat));
    r
}

fn char_of_digit(d: u8) -> (c: char)
    requires
        d < 10,
    ensures
        c == digit_char(d as nat),
{
    if d == 0 {
        '0'
    } else if d == 1 {
        '1'
    } else if d == 2 {
        '2'
    } else if d == 3 {
        '3'
    } else if d == 4 {
        '4'
    } else if d == 5 {
        '5'
    } else if d == 6 {
        '6'
    } else if d == 7 {
        '7'
    } else if d == 8 {
        '8'
    } else {
        '9'
    }
}

fn octet(s: &Vec<char>) -> (b: bool)
    ensures
        b == is_octet_text(s@),
{
    if s.len() < 1 || s.len() > 3 {
        return false;
    }
    if s.len() > 1 && s[0] == '0' {
        return false;
    }
    match parse_u8(s) {
        Some(_) => {
            if s[0] == '+' {
                assert(!is_digit(s@[0]));
                return false;
            }
            assert(s@.drop_first() =~= s@.skip(1));
            true
        },
        None => {
            proof {
                if is_octet_text(s@) {
                    assert(is_digit(s@[0]));
                }
            }
            false
        },
    }
}

/// Whether `s` is an IPv4 address in dot-decimal notation.
pub fn ipv4_text(s: &Vec<char>) -> (b: bool)
    ensures
        b == is_ipv4_text(s@),
{
    let parts = split_chars(s, '.');
    if parts.len() != 4 {
        return false;
    }
    let ghost pv = texts(parts@);
    let mut i: usize = 0;
    while i < 4
        invariant
            parts.len() == 4,
            pv == texts(parts@),
            pv == split_on(s@, '.'),
            i <= 4,
            forall|j: int| 0 <= j < i ==> #[trigger] is_octet_text(pv[j]),
        decreases 4 - i,
    {
        assert(pv[i as int] == parts[i as int]@);
        if !octet(&parts[i]) {
            return false;
        }
        i = i + 1;
    }
    true
}

/// The decimal digits of `n`.
pub fn u128_text(n: u128) -> (r: Vec<char>)
    ensures
        r@ == decimal_text(n as nat),
{
    let mut out: Vec<char> = Vec::new();
    let mut q = n;
    loop
        invariant
            decimal_text(n as nat) == decimal_text(q as nat) + out@,
        decreases q,
    {
        let d = (q % 10) as u8;
        let c = char_of_digit(d);
        let ghost before = out@;
        out.insert(0, c);
        assert(out@ =~= seq![c] + before);
        if q < 10 {
            assert(decimal_text(q as nat) =~= seq![c]);
            return out;
        }
        assert(decimal_text(q as nat) == decimal_text((q / 10) as nat).push(digit_char(
            (q % 10) as nat,
        )));
        assert(decimal_text(q as nat) + before =~= decimal_text((q / 10) as nat) + out@);
        q = q / 10;
    }
}

/// The decimal digits of `n` are digits that write `n`, the first of them
/// no zero unless `n` is zero, and a number up to 255 takes one to three.
pub proof fn lemma_decimal_text_writes(n: nat)
    ensures
        all_digits(decimal_text(n)),
        decimal_value(decimal_text(n)) == n,
        decimal_text(n).len() >= 1,
        n >= 10 ==> decimal_text(n)[0] != '0',
        n <= 255 ==> decimal_text(n).len() <= 3,
        n < 10 ==> decimal_text(n).len() == 1,
        10 <= n < 100 ==> decimal_text(n).len() == 2,
    decreases n,
{
    if n < 10 {
        let c = digit_char(n);
        assert(c as nat == n + 48);
        assert(is_digit(c));
        assert(decimal_text(n).drop_last() =~= Seq::<char>::empty());
        assert(decimal_value(decimal_text(n)) == decimal_value(Seq::<char>::empty()) * 10 + (c as nat
            - '0' as nat) as nat);
    } else {
        let q = n / 10;
        let d = n % 10;
        lemma_decimal_text_writes(q);
        let t = decimal_text(n);
        let c = digit_char(d);
        assert(c as nat == d + 48);
        assert(t.drop_last() =~= decimal_text(q));
        assert(t.last() == c);
        assert forall|i: int| 0 <= i < t.len() implies #[trigger] is_digit(t[i]) by {
            if i < t.len() - 1 {
                assert(t[i] == decimal_text(q)[i]);
            }
        }
        assert(n == q * 10 + d);
        assert(t[0] == decimal_text(q)[0]);
        if q < 10 {
            assert(decimal_text(q)[0] == digit_char(q));
            assert(digit_char(q) as nat == q + 48);
        }
        if n <= 255 {
            assert(q <= 25);
        }
    }
}

/// Every number up to 255 written in decimal is read back by
/// `str::parse::<u8>` as that number, and is an octet of an IPv4 address.
pub proof fn lemma_octets_read_back(a: nat)
    requires
        a <= 255,
    ensures
        parse_u8_text(decimal_text(a)) == Some(a as u8),
        is_octet_text(decimal_text(a)),
{
    lemma_decimal_text_writes(a);
    if decimal_text(a).len() > 0 {
        assert(decimal_text(a)[0] != '+') by {
            assert(is_digit(decimal_text(a)[0]));
        }
    }
    if a < 10 {
    } else {
        assert(decimal_text(a)[0] != '0');
    }
}

} // verus!
