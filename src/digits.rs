use vstd::prelude::*;

verus! {

pub open spec fn is_digit(c: u8) -> bool {
    0x30 <= c && c <= 0x39
}

pub open spec fn all_digits(d: Seq<u8>) -> bool {
    forall|i: int| 0 <= i < d.len() ==> is_digit(#[trigger] d[i])
}

/// The number that the decimal digits `d` denote.
pub open spec fn digits_value(d: Seq<u8>) -> nat
    decreases d.len(),
{
    if d.len() == 0 {
        0
    } else {
        digits_value(d.drop_last()) * 10 + (d.last() - 0x30) as nat
    }
}

/// `d` is a non-empty run of decimal digits whose value is at most `max`.
pub open spec fn decimal_within(d: Seq<u8>, max: nat) -> bool {
    d.len() > 0 && all_digits(d) && digits_value(d) <= max
}

proof fn lemma_prefix_value_le(d: Seq<u8>, k: int)
    requires
        all_digits(d),
        0 <= k <= d.len(),
    ensures
        digits_value(d.subrange(0, k)) <= digits_value(d),
    decreases d.len(),
{
    if k < d.len() {
        let p = d.drop_last();
        assert(d.subrange(0, k) =~= p.subrange(0, k));
        lemma_prefix_value_le(p, k);
    } else {
        assert(d.subrange(0, k) =~= d);
    }
}

/// Reads `b[lo..hi]` as a decimal number no greater than `max`.
pub fn parse_decimal(b: &[u8], lo: usize, hi: usize, max: u32) -> (r: Option<u32>)
    requires
        lo <= hi <= b@.len(),
    ensures
        r == (if decimal_within(b@.subrange(lo as int, hi as int), max as nat) {
            Some(digits_value(b@.subrange(lo as int, hi as int)) as u32)
        } else {
            None::<u32>
        }),
{
    let ghost d = b@.subrange(lo as int, hi as int);
    if lo == hi {
        return None;
    }
    let mut value: u64 = 0;
    let mut j: usize = lo;
    while j < hi
        invariant
            lo <= j <= hi <= b@.len(),
            d == b@.subrange(lo as int, hi as int),
            all_digits(d.subrange(0, j - lo)),
            value as nat == digits_value(d.subrange(0, j - lo)),
            value <= max,
        decreases hi - j,
    {
        let c = b[j];
        assert(d.subrange(0, j + 1 - lo).drop_last() =~= d.subrange(0, j - lo));
        if c < 0x30 || c > 0x39 {
            assert(d[j - lo] == c);
            return None;
        }
        value = value * 10 + (c - 0x30) as u64;
        if value > max as u64 {
            proof {
                assert(d.subrange(0, j + 1 - lo).last() == c);
                if all_digits(d) {
                    lemma_prefix_value_le(d, j + 1 - lo);
                }
            }
            return None;
        }
        j = j + 1;
    }
    assert(d.subrange(0, j - lo) =~= d);
    Some(value as u32)
}

} // verus!
