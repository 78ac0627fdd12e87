use vstd::prelude::*;
use vstd::string::StringSliceAdditionalSpecFns;
use crate::digits::{decimal_within, digits_value, parse_decimal};

verus! {

/// The largest process id: the greatest positive `i32`.
pub const MAX_PID: u32 = 0x7fff_ffff;

pub open spec fn is_space(c: u8) -> bool {
    c == 0x20 || c == 0x09 || c == 0x0a || c == 0x0b || c == 0x0c || c == 0x0d
}

pub open spec fn trim_start(s: Seq<u8>) -> Seq<u8>
    decreases s.len(),
{
    if s.len() > 0 && is_space(s[0]) {
        trim_start(s.drop_first())
    } else {
        s
    }
}

pub open spec fn trim_end(s: Seq<u8>) -> Seq<u8>
    decreases s.len(),
{
    if s.len() > 0 && is_space(s.last()) {
        trim_end(s.drop_last())
    } else {
        s
    }
}

/// A line of the port listing names a process when, without surrounding
/// whitespace, it is a positive decimal process id.
pub open spec fn pid_of_line(line: Seq<u8>) -> Option<u32> {
    let t = trim_end(trim_start(line));
    if decimal_within(t, MAX_PID as nat) && digits_value(t) > 0 {
        Some(digits_value(t) as u32)
    } else {
        None
    }
}

pub open spec fn pids_of_line(line: Seq<u8>) -> Seq<u32> {
    match pid_of_line(line) {
        Some(p) => seq![p],
        None => Seq::empty(),
    }
}

/// The lines of `s`: the runs of bytes between newlines (one empty line
/// for empty `s`, and an empty last line after a final newline).
pub open spec fn lines(s: Seq<u8>) -> Seq<Seq<u8>>
    decreases s.len(),
{
    if s.len() == 0 {
        seq![Seq::empty()]
    } else {
        let l = lines(s.drop_last());
        if s.last() == 0x0a {
            l.push(Seq::empty())
        } else {
            l.update(l.len() - 1, l.last().push(s.last()))
        }
    }
}

/// The process ids of the given lines, in order.
pub open spec fn pids_in(ls: Seq<Seq<u8>>) -> Seq<u32>
    decreases ls.len(),
{
    if ls.len() == 0 {
        Seq::empty()
    } else {
        pids_in(ls.drop_last()) + pids_of_line(ls.last())
    }
}

/// The process ids listed one per line in `s`, in order; lines that hold no
/// process id are skipped.
pub open spec fn listed_pids(s: Seq<u8>) -> Seq<u32> {
    pids_in(lines(s))
}

fn pid_in_line(b: &[u8], lo: usize, hi: usize) -> (r: Option<u32>)
    requires
        lo <= hi <= b@.len(),
    ensures
        r == pid_of_line(b@.subrange(lo as int, hi as int)),
{
    let mut a: usize = lo;
    while a < hi && (b[a] == 0x20 || b[a] == 0x09 || b[a] == 0x0a || b[a] == 0x0b || b[a] == 0x0c
        || b[a] == 0x0d)
        invariant
            lo <= a <= hi <= b@.len(),
            trim_start(b@.subrange(lo as int, hi as int)) == trim_start(
                b@.subrange(a as int, hi as int),
            ),
        decreases hi - a,
    {
        assert(b@.subrange(a as int, hi as int).drop_first() =~= b@.subrange(a + 1, hi as int));
        a = a + 1;
    }
    let ghost ts = b@.subrange(a as int, hi as int);
    assert(trim_start(ts) == ts);
    let mut z: usize = hi;
    while z > a && (b[z - 1] == 0x20 || b[z - 1] == 0x09 || b[z - 1] == 0x0a || b[z - 1] == 0x0b
        || b[z - 1] == 0x0c || b[z - 1] == 0x0d)
        invariant
            lo <= a <= z <= hi <= b@.len(),
            trim_end(ts) == trim_end(b@.subrange(a as int, z as int)),
            ts == b@.subrange(a as int, hi as int),
        decreases z - a,
    {
        assert(b@.subrange(a as int, z as int).drop_last() =~= b@.subrange(a as int, z - 1));
        z = z - 1;
    }
    assert(trim_end(b@.subrange(a as int, z as int)) == b@.subrange(a as int, z as int));
    match parse_decimal(b, a, z, MAX_PID) {
        Some(v) => if v > 0 {
            Some(v)
        } else {
            None
        },
        None => None,
    }
}

/// The process ids that a port listing (one id per line, as `lsof -t`
/// prints them) holds, in order.
pub fn parse_pid_list(output: &str) -> (r: Vec<u32>)
    ensures
        r@ == listed_pids(output.spec_bytes()),
{
    let b = output.as_bytes();
    let n = b.len();
    let mut r: Vec<u32> = Vec::new();
    let mut start: usize = 0;
    let mut i: usize = 0;
    proof {
        assert(b@.subrange(0, 0) =~= Seq::<u8>::empty());
    }
    while i < n
        invariant
            n == b@.len(),
            start <= i <= n,
            lines(b@.subrange(0, i as int)).len() >= 1,
            lines(b@.subrange(0, i as int)).last() == b@.subrange(start as int, i as int),
            r@ == pids_in(lines(b@.subrange(0, i as int)).drop_last()),
        decreases n - i,
    {
        let ghost l = lines(b@.subrange(0, i as int));
        assert(b@.subrange(0, i + 1).drop_last() =~= b@.subrange(0, i as int));
        if b[i] == 0x0a {
            let found = pid_in_line(b, start, i);
            let ghost l2 = lines(b@.subrange(0, i + 1));
            assert(l2 == l.push(Seq::<u8>::empty()));
            assert(l2.drop_last() =~= l);
            assert(l.drop_last() + seq![l.last()] =~= l) by {
                assert(l.drop_last().push(l.last()) =~= l);
            }
            assert(pids_in(l) == pids_in(l.drop_last()) + pids_of_line(l.last()));
            match found {
                Some(p) => {
                    r.push(p);
                },
                None => {
                    assert(r@ + Seq::<u32>::empty() =~= r@);
                },
            }
            start = i + 1;
            assert(l2.last() =~= b@.subrange(start as int, i + 1));
        } else {
            let ghost l2 = lines(b@.subrange(0, i + 1));
            assert(l2.drop_last() =~= l.drop_last());
            assert(l2.last() =~= b@.subrange(start as int, i + 1));
        }
        i = i + 1;
    }
    assert(b@.subrange(0, n as int) =~= b@);
    let last = pid_in_line(b, start, n);
    match last {
        Some(p) => {
            r.push(p);
        },
        None => {
            assert(r@ + Seq::<u32>::empty() =~= r@);
        },
    }
    r
}

} // verus!
