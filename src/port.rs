use vstd::prelude::*;
use vstd::string::StringSliceAdditionalSpecFns;
use crate::digits::{decimal_within, digits_value, parse_decimal};

verus! {

/// The bytes after the last `:` of `s` (all of `s` when it holds no `:`).
pub open spec fn last_segment(s: Seq<u8>) -> Seq<u8>
    decreases s.len(),
{
    if s.len() == 0 {
        s
    } else if s.last() == 0x3a {
        Seq::empty()
    } else {
        last_segment(s.drop_last()).push(s.last())
    }
}

/// A `u16` written in decimal: an optional `+`, then at least one digit,
/// denoting a value that fits in 16 bits (leading zeros allowed).
pub open spec fn parse_u16(t: Seq<u8>) -> Option<u16> {
    let d = if t.len() > 0 && t[0] == 0x2b { t.drop_first() } else { t };
    if decimal_within(d, 0xffff) {
        Some(digits_value(d) as u16)
    } else {
        None
    }
}

/// The port an address names: its last `:`-separated segment read as a `u16`.
pub open spec fn port_of(addr: Seq<u8>) -> Option<u16> {
    parse_u16(last_segment(addr))
}

/// Reads the port from an address such as `":9000"` or `"localhost:8081"`;
/// `None` when the last segment is not a decimal `u16`.
pub fn extract_port(addr: &str) -> (r: Option<u16>)
    ensures
        r == port_of(addr.spec_bytes()),
{
    let b = addr.as_bytes();
    let n = b.len();
    let mut start: usize = 0;
    let mut i: usize = 0;
    while i < n
        invariant
            b@ == addr.spec_bytes(),
            n == b@.len(),
            0 <= start <= i <= n,
            last_segment(b@.subrange(0, i as int)) == b@.subrange(start as int, i as int),
        decreases n - i,
    {
        assert(b@.subrange(0, i + 1).drop_last() =~= b@.subrange(0, i as int));
        if b[i] == 0x3a {
            start = i + 1;
            assert(b@.subrange(start as int, i + 1) =~= Seq::<u8>::empty());
        } else {
            assert(b@.subrange(start as int, i + 1) =~= b@.subrange(start as int, i as int).push(
                b@[i as int],
            ));
        }
        i = i + 1;
    }
    assert(b@.subrange(0, n as int) =~= b@);
    let ghost t = b@.subrange(start as int, n as int);
    let mut k: usize = start;
    if k < n && b[k] == 0x2b {
        k = k + 1;
    }
    assert(b@.subrange(k as int, n as int) =~= (if t.len() > 0 && t[0] == 0x2b {
        t.drop_first()
    } else {
        t
    }));
    match parse_decimal(b, k, n, 0xffff) {
        Some(v) => Some(v as u16),
        None => None,
    }
}

} // verus!
