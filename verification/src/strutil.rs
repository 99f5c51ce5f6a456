//! Verified building blocks for the path and name handling the rpmsg
//! client does: decimal rendering of indices, byte-sequence equality,
//! and substring search.

use vstd::prelude::*;
use vstd::string::{StringExecFns, StringSliceAdditionalSpecFns};

verus! {

/// The character for one decimal digit.
pub open spec fn digit_char(d: int) -> char {
    if d == 0 {
        '0'
    } else if d == 1 {
        '1'
    } else if d == 2 {
        '2'
    } else if d == 3 {
        '3'
    } else if d == 4 {
        '4'
    } else if d == 5 {
        '5'
    } else if d == 6 {
        '6'
    } else if d == 7 {
        '7'
    } else if d == 8 {
        '8'
    } else {
        '9'
    }
}

/// The usual decimal rendering of a natural number, most significant
/// digit first, with no leading zeroes (zero itself is "0").
pub open spec fn spec_decimal(n: nat) -> Seq<char>
    decreases n,
{
    if n < 10 {
        seq![digit_char(n as int)]
    } else {
        spec_decimal(n / 10) + seq![digit_char((n % 10) as int)]
    }
}

fn digit_str(d: u8) -> (r: &'static str)
    requires
        d < 10,
    ensures
        r@ == seq![digit_char(d as int)],
{
    proof {
        reveal_strlit("0");
        reveal_strlit("1");
        reveal_strlit("2");
        reveal_strlit("3");
        reveal_strlit("4");
        reveal_strlit("5");
        reveal_strlit("6");
        reveal_strlit("7");
        reveal_strlit("8");
        reveal_strlit("9");
    }
    let r = if d == 0 {
        "0"
    } else if d == 1 {
        "1"
    } else if d == 2 {
        "2"
    } else if d == 3 {
        "3"
    } else if d == 4 {
        "4"
    } else if d == 5 {
        "5"
    } else if d == 6 {
        "6"
    } else if d == 7 {
        "7"
    } else if d == 8 {
        "8"
    } else {
        "9"
    };
    proof {
        assert(r@ =~= seq![digit_char(d as int)]);
    }
    r
}

/// Render an index as its decimal digits.
pub fn usize_to_decimal(n: usize) -> (r: String)
    ensures
        r@ == spec_decimal(n as nat),
    decreases n,
{
    if n < 10 {
        String::from_str(digit_str(n as u8))
    } else {
        let mut s = usize_to_decimal(n / 10);
        s.append(digit_str((n % 10) as u8));
        proof {
            assert(s@ =~= spec_decimal(n as nat));
        }
        s
    }
}

/// Render a 64-bit quantity (a latency in microseconds, a sample
/// count) as its decimal digits.
pub fn u64_to_decimal(n: u64) -> (r: String)
    ensures
        r@ == spec_decimal(n as nat),
    decreases n,
{
    if n < 10 {
        String::from_str(digit_str(n as u8))
    } else {
        let mut s = u64_to_decimal(n / 10);
        s.append(digit_str((n % 10) as u8));
        proof {
            assert(s@ =~= spec_decimal(n as nat));
        }
        s
    }
}

/// Whether the byte sequence `n` occurs contiguously inside `h`.
pub open spec fn spec_contains_seq(h: Seq<u8>, n: Seq<u8>) -> bool {
    exists|i: int|
        0 <= i && i + n.len() <= h.len() && #[trigger] h.subrange(i, i + n.len() as int) == n
}

/// Byte-for-byte equality of two slices.
pub fn slice_eq(a: &[u8], b: &[u8]) -> (r: bool)
    ensures
        r == (a@ == b@),
{
    if a.len() != b.len() {
        proof {
            assert(a@.len() != b@.len());
        }
        return false;
    }
    let mut i: usize = 0;
    while i < a.len()
        invariant
            i <= a@.len(),
            a@.len() == b@.len(),
            forall|j: int| 0 <= j < i ==> a@[j] == b@[j],
        decreases a@.len() - i,
    {
        if a[i] != b[i] {
            return false;
        }
        i = i + 1;
    }
    proof {
        assert(a@ =~= b@);
    }
    true
}

/// Whether `n` occurs as a contiguous run of bytes inside `h`, as the
/// substring filter of the control-interface search asks.
pub fn contains_subslice(h: &[u8], n: &[u8]) -> (r: bool)
    ensures
        r == spec_contains_seq(h@, n@),
{
    if n.len() > h.len() {
        return false;
    }
    if n.len() == 0 {
        proof {
            assert(h@.subrange(0, 0 + n@.len() as int) =~= n@);
        }
        return true;
    }
    let bound = h.len() - n.len();
    let mut i: usize = 0;
    while i <= bound
        invariant
            h@.len() <= usize::MAX,
            1 <= n@.len() <= h@.len(),
            bound == h@.len() - n@.len(),
            i <= bound + 1,
            forall|k: int|
                0 <= k < i ==> #[trigger] h@.subrange(k, k + n@.len() as int) != n@,
        decreases bound + 1 - i,
    {
        let mut j: usize = 0;
        let mut mismatch = false;
        while j < n.len()
            invariant
                h@.len() <= usize::MAX,
                0 <= i,
                i + n@.len() <= h@.len(),
                j <= n@.len(),
                !mismatch ==> forall|t: int| 0 <= t < j ==> h@[i + t] == n@[t],
                mismatch ==> h@.subrange(i as int, i + n@.len() as int) != n@,
            decreases n@.len() - j,
        {
            if h[i + j] != n[j] {
                proof {
                    assert(h@.subrange(i as int, i + n@.len() as int)[j as int] == h@[i + j]);
                }
                mismatch = true;
                j = n.len();
            } else {
                j = j + 1;
            }
        }
        if !mismatch {
            proof {
                assert(h@.subrange(i as int, i + n@.len() as int) =~= n@);
            }
            return true;
        }
        i = i + 1;
    }
    proof {
        assert(forall|k: int|
            0 <= k && k + n@.len() <= h@.len() ==> #[trigger] h@.subrange(k, k + n@.len() as int)
                != n@);
    }
    false
}

/// A candidate name read from sysfs, with the single trailing newline
/// the kernel appends stripped off.
pub open spec fn spec_stripped(s: Seq<u8>) -> Seq<u8> {
    if s.len() > 0 && s.last() == 10u8 {
        s.drop_last()
    } else {
        s
    }
}

/// Whether `content`, once a single trailing newline is stripped,
/// equals `name` byte for byte.
pub fn matches_stripped(content: &Vec<u8>, name: &[u8]) -> (r: bool)
    ensures
        r == (spec_stripped(content@) == name@),
{
    let len = content.len();
    if len > 0 && content[len - 1] == 10u8 {
        let mut i: usize = 0;
        if len - 1 != name.len() {
            proof {
                assert(spec_stripped(content@).len() != name@.len());
            }
            return false;
        }
        while i < len - 1
            invariant
                len == content@.len(),
                len >= 1,
                len - 1 == name@.len(),
                i <= name@.len(),
                content@.last() == 10u8,
                forall|j: int| 0 <= j < i ==> content@[j] == name@[j],
            decreases name@.len() - i,
        {
            if content[i] != name[i] {
                proof {
                    assert(spec_stripped(content@)[i as int] == content@[i as int]);
                }
                return false;
            }
            i = i + 1;
        }
        proof {
            assert(spec_stripped(content@) =~= name@);
        }
        true
    } else {
        slice_eq(content.as_slice(), name)
    }
}

/// Copy a string's bytes into an owned buffer, as the sysfs writer
/// wants them.
pub fn str_bytes_to_vec(s: &str) -> (r: Vec<u8>)
    ensures
        r@ == s.spec_bytes(),
{
    let b = s.as_bytes();
    let mut r: Vec<u8> = Vec::new();
    let mut i: usize = 0;
    while i < b.len()
        invariant
            i <= b@.len(),
            r@ == b@.subrange(0, i as int),
        decreases b@.len() - i,
    {
        r.push(b[i]);
        proof {
            assert(r@ =~= b@.subrange(0, i + 1 as int));
        }
        i = i + 1;
    }
    proof {
        assert(r@ =~= b@);
    }
    r
}

} // verus!
