use vstd::prelude::*;
use vstd::string::*;

use crate::errors::LoadGenError;

verus! {

/// Index of the first `:` in `a`, or `a.len()` when there is none.
pub open spec fn colon_index(a: Seq<char>) -> nat
    decreases a.len(),
{
    if a.len() == 0 {
        0
    } else if a[0] == ':' {
        0
    } else {
        1 + colon_index(a.drop_first())
    }
}

/// The second `:`-separated segment of `a`, or empty when `a` has no `:`.
pub open spec fn port_segment(a: Seq<char>) -> Seq<char> {
    let i = colon_index(a) as int;
    if i < a.len() {
        let rest = a.subrange(i + 1int, a.len() as int);
        rest.subrange(0, colon_index(rest) as int)
    } else {
        Seq::empty()
    }
}

pub open spec fn is_digit(c: char) -> bool {
    '0' <= c && c <= '9'
}

/// Decimal value of a string of digits.
pub open spec fn digits_value(s: Seq<char>) -> nat
    decreases s.len(),
{
    if s.len() == 0 {
        0
    } else {
        digits_value(s.drop_last()) * 10 + ((s.last() as int) - ('0' as int)) as nat
    }
}

/// `s` without one leading `+`.
pub open spec fn unsigned_digits(s: Seq<char>) -> Seq<char> {
    if s.len() > 0 && s[0] == '+' {
        s.drop_first()
    } else {
        s
    }
}

/// Text that `u32::from_str` accepts: an optional `+`, then one or more
/// decimal digits whose value fits in 32 bits.
pub open spec fn parses_as_u32(s: Seq<char>) -> bool {
    let d = unsigned_digits(s);
    &&& d.len() > 0
    &&& forall|i: int| 0 <= i < d.len() ==> is_digit(#[trigger] d[i])
    &&& digits_value(d) <= u32::MAX
}

/// Relies on `u32::from_str`: it accepts an optional `+` followed by decimal
/// digits whose value fits in 32 bits, and yields that value.
#[verifier::external_body]
fn parse_u32(s: &str) -> (r: Option<u32>)
    ensures
        r is Some <==> parses_as_u32(s@),
        r matches Some(v) ==> v == digits_value(unsigned_digits(s@)),
{
    s.parse::<u32>().ok()
}

proof fn lemma_colon_index(a: Seq<char>, i: int)
    requires
        0 <= i <= a.len(),
        i == a.len() || a[i] == ':',
        forall|j: int| 0 <= j < i ==> a[j] != ':',
    ensures
        colon_index(a) == i,
    decreases i,
{
    if i > 0 {
        lemma_colon_index(a.drop_first(), i - 1);
    }
}

/// Position of the first `:` in `s`, or its length in characters.
fn colon_position(s: &str) -> (p: usize)
    ensures
        p == colon_index(s@),
        p <= s@.len(),
{
    let n = s.unicode_len();
    let mut i: usize = 0;
    while i < n && s.get_char(i) != ':'
        invariant
            n == s@.len(),
            i <= n,
            forall|j: int| 0 <= j < i ==> s@[j] != ':',
        decreases n - i,
    {
        i = i + 1;
    }
    proof {
        lemma_colon_index(s@, i as int);
    }
    i
}

/// Checks that the port segment of a `host:port` address (the text after
/// the first `:`, up to any further `:`) is an unsigned 32-bit number.
pub fn validate_address(address: &str) -> (r: Result<(), LoadGenError>)
    ensures
        parses_as_u32(port_segment(address@)) ==> r is Ok,
        !parses_as_u32(port_segment(address@)) ==> (r matches Err(
            LoadGenError::InvalidPortError(p),
        ) && p@ == port_segment(address@)),
{
    let n = address.unicode_len();
    let i = colon_position(address);
    let port = if i < n {
        let rest = address.substring_char(i + 1, n);
        let j = colon_position(rest);
        rest.substring_char(0, j)
    } else {
        address.substring_char(n, n)
    };
    proof {
        assert(i >= n ==> port@ =~= Seq::<char>::empty());
    }
    match parse_u32(port) {
        Some(_) => Ok(()),
        None => Err(LoadGenError::InvalidPortError(String::from_str(port))),
    }
}

} // verus!
