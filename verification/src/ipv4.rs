//! IPv4 addresses as plain octets, and the dotted-quad text form.
//!
//! An address-typed column constraint is only installed when its quoted
//! literal is a well-formed dotted quad: four decimal octets separated by
//! dots, each one to three digits, no leading zero, value at most 255.

use vstd::prelude::*;
use vstd::string::StrSliceExecFns;

verus! {

/// An IPv4 address held as its four dotted-quad octets.
#[derive(Clone, Copy, Debug, PartialEq, Eq)]
pub struct Ipv4Addr {
    pub a: u8,
    pub b: u8,
    pub c: u8,
    pub d: u8,
}

impl Ipv4Addr {
    pub fn new(a: u8, b: u8, c: u8, d: u8) -> (r: Ipv4Addr)
        ensures
            r == (Ipv4Addr { a, b, c, d }),
    {
        Ipv4Addr { a, b, c, d }
    }
}

pub open spec fn is_ascii_digit(c: char) -> bool {
    48 <= c as int <= 57
}

pub open spec fn digit_val(c: char) -> int {
    c as int - 48
}

/// The number written by a sequence of decimal digits, most significant first.
pub open spec fn digits_value(s: Seq<char>) -> int
    decreases s.len(),
{
    if s.len() == 0 {
        0
    } else {
        digits_value(s.drop_last()) * 10 + digit_val(s.last())
    }
}

/// One octet of a dotted quad: one to three decimal digits, no leading zero,
/// value at most 255.
pub open spec fn is_octet_text(s: Seq<char>) -> bool {
    &&& 1 <= s.len() <= 3
    &&& (forall|i: int| 0 <= i < s.len() ==> is_ascii_digit(s[i]))
    &&& (s.len() > 1 ==> s[0] != '0')
    &&& digits_value(s) <= 255
}

/// The index of the first `'.'` at or after `i`, or the length when there is none.
pub open spec fn dot_from(s: Seq<char>, i: int) -> int
    decreases s.len() - i,
{
    if 0 <= i < s.len() {
        if s[i] == '.' {
            i
        } else {
            dot_from(s, i + 1)
        }
    } else {
        s.len() as int
    }
}

/// The address written by `s` as a dotted quad, or `None` when `s` is not one.
pub open spec fn spec_parse_ipv4(s: Seq<char>) -> Option<Ipv4Addr> {
    let i1 = dot_from(s, 0);
    let i2 = dot_from(s, i1 + 1);
    let i3 = dot_from(s, i2 + 1);
    if i3 < s.len() && is_octet_text(s.subrange(0, i1)) && is_octet_text(
        s.subrange(i1 + 1, i2),
    ) && is_octet_text(s.subrange(i2 + 1, i3)) && is_octet_text(
        s.subrange(i3 + 1, s.len() as int),
    ) {
        Some(
            Ipv4Addr {
                a: digits_value(s.subrange(0, i1)) as u8,
                b: digits_value(s.subrange(i1 + 1, i2)) as u8,
                c: digits_value(s.subrange(i2 + 1, i3)) as u8,
                d: digits_value(s.subrange(i3 + 1, s.len() as int)) as u8,
            },
        )
    } else {
        None
    }
}

proof fn lemma_digits_value_small(s: Seq<char>)
    requires
        s.len() <= 3,
        forall|i: int| 0 <= i < s.len() ==> is_ascii_digit(s[i]),
    ensures
        0 <= digits_value(s),
        s.len() == 0 ==> digits_value(s) == 0,
        s.len() <= 1 ==> digits_value(s) < 10,
        s.len() <= 2 ==> digits_value(s) < 100,
        digits_value(s) < 1000,
    decreases s.len(),
{
    if s.len() > 0 {
        assert(forall|i: int|
            0 <= i < s.drop_last().len() ==> is_ascii_digit(#[trigger] s.drop_last()[i]));
        lemma_digits_value_small(s.drop_last());
        assert(is_ascii_digit(s.last()));
    }
}

fn find_dot(s: &str, from: usize) -> (r: usize)
    requires
        from <= s@.len(),
    ensures
        r == dot_from(s@, from as int),
        from <= r <= s@.len(),
{
    let n: usize = s.unicode_len();
    let mut i: usize = from;
    while i < n
        invariant
            from <= i <= n,
            n == s@.len(),
            dot_from(s@, from as int) == dot_from(s@, i as int),
        decreases n - i,
    {
        let c = s.get_char(i);
        if c == '.' {
            assert(dot_from(s@, i as int) == i as int);
            return i;
        }
        assert(dot_from(s@, i as int) == dot_from(s@, i as int + 1));
        i = i + 1;
    }
    assert(dot_from(s@, n as int) == n as int);
    n
}

fn parse_octet(s: &str, start: usize, end: usize) -> (r: Option<u8>)
    requires
        start <= end <= s@.len(),
    ensures
        r is Some <==> is_octet_text(s@.subrange(start as int, end as int)),
        r matches Some(v) ==> v as int == digits_value(s@.subrange(start as int, end as int)),
{
    let ghost whole: Seq<char> = s@.subrange(start as int, end as int);
    let len: usize = end - start;
    if len == 0 || len > 3 {
        return None;
    }
    let mut i: usize = start;
    let mut val: u32 = 0;
    while i < end
        invariant
            start <= i <= end,
            end <= s@.len(),
            end - start <= 3,
            whole == s@.subrange(start as int, end as int),
            forall|j: int| start <= j < i ==> is_ascii_digit(s@[j]),
            val as int == digits_value(s@.subrange(start as int, i as int)),
        decreases end - i,
    {
        let c = s.get_char(i);
        let code: u32 = c as u32;
        if code < 48 || code > 57 {
            proof {
                assert(whole[i - start as int] == s@[i as int]);
                assert(!is_ascii_digit(whole[i - start as int]));
            }
            return None;
        }
        proof {
            let prefix = s@.subrange(start as int, i as int);
            let next = s@.subrange(start as int, i as int + 1);
            assert(next.drop_last() =~= prefix);
            assert(next.last() == s@[i as int]);
            assert(forall|j: int| start <= j < i + 1 ==> is_ascii_digit(s@[j]));
            assert(forall|j: int| 0 <= j < prefix.len() ==> is_ascii_digit(#[trigger] prefix[j]));
            lemma_digits_value_small(prefix);
        }
        val = val * 10 + (code - 48);
        i = i + 1;
    }
    assert(forall|j: int| 0 <= j < whole.len() ==> is_ascii_digit(#[trigger] whole[j]));
    proof {
        lemma_digits_value_small(whole);
    }
    if len > 1 {
        let first = s.get_char(start);
        if first == '0' {
            assert(whole[0] == '0');
            return None;
        }
    }
    if val > 255 {
        return None;
    }
    assert(is_octet_text(whole));
    Some(val as u8)
}

/// Reads a dotted-quad IPv4 address, exactly as [`spec_parse_ipv4`] states it.
pub fn parse_ipv4(s: &str) -> (r: Option<Ipv4Addr>)
    ensures
        r == spec_parse_ipv4(s@),
{
    let n: usize = s.unicode_len();
    let i1 = find_dot(s, 0);
    if i1 == n {
        return None;
    }
    let i2 = find_dot(s, i1 + 1);
    if i2 == n {
        return None;
    }
    let i3 = find_dot(s, i2 + 1);
    if i3 == n {
        return None;
    }
    let a = parse_octet(s, 0, i1);
    let b = parse_octet(s, i1 + 1, i2);
    let c = parse_octet(s, i2 + 1, i3);
    let d = parse_octet(s, i3 + 1, n);
    match (a, b, c, d) {
        (Some(a), Some(b), Some(c), Some(d)) => {
            proof {
                lemma_digits_value_small(s@.subrange(0, i1 as int));
                lemma_digits_value_small(s@.subrange(i1 as int + 1, i2 as int));
                lemma_digits_value_small(s@.subrange(i2 as int + 1, i3 as int));
                lemma_digits_value_small(s@.subrange(i3 as int + 1, n as int));
            }
            Some(Ipv4Addr { a, b, c, d })
        },
        _ => None,
    }
}

} // verus!
