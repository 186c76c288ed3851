//! Byte-string helpers: comparison, slicing, concatenation and big-endian integers.
use vstd::prelude::*;

verus! {

/// Every byte of `s` is zero.
pub open spec fn all_zero(s: Seq<u8>) -> bool {
    forall|i: int| 0 <= i < s.len() ==> s[i] == 0
}

/// `a` is greater than `b` in byte-wise (lexicographic) order; both have the same length.
pub open spec fn bytes_greater(a: Seq<u8>, b: Seq<u8>) -> bool {
    exists|i: int|
        0 <= i < a.len() && i < b.len() && a.subrange(0, i) == b.subrange(0, i) && a[i] > b[i]
}

/// The first index from `i` on where `a` and `b` differ, when the two agree before `i`.
proof fn lemma_first_difference(a: Seq<u8>, b: Seq<u8>, i: int) -> (k: int)
    requires
        a.len() == b.len(),
        0 <= i <= a.len(),
        a.subrange(0, i) == b.subrange(0, i),
        exists|j: int| i <= j < a.len() && a[j] != b[j],
    ensures
        i <= k < a.len(),
        a.subrange(0, k) == b.subrange(0, k),
        a[k] != b[k],
    decreases a.len() - i,
{
    if a[i] != b[i] {
        i
    } else {
        assert(a.subrange(0, i + 1) =~= a.subrange(0, i).push(a[i]));
        assert(b.subrange(0, i + 1) =~= b.subrange(0, i).push(b[i]));
        lemma_first_difference(a, b, i + 1)
    }
}

/// Of two different strings of the same length, exactly one is the greater.
pub proof fn lemma_greater_total(a: Seq<u8>, b: Seq<u8>)
    requires
        a.len() == b.len(),
        a != b,
    ensures
        bytes_greater(a, b) != bytes_greater(b, a),
{
    assert(exists|j: int| 0 <= j < a.len() && a[j] != b[j]) by {
        if forall|j: int| 0 <= j < a.len() ==> a[j] == b[j] {
            assert(a =~= b);
        }
    }
    assert(a.subrange(0, 0) =~= b.subrange(0, 0));
    let k = lemma_first_difference(a, b, 0);
    assert forall|j: int|
        0 <= j < a.len() && j != k && a.subrange(0, j) == b.subrange(0, j) implies a[j] == b[j] by {
        if j > k {
            assert(a[k] == a.subrange(0, j)[k]);
            assert(b[k] == b.subrange(0, j)[k]);
        } else {
            assert(a[j] == a.subrange(0, k)[j]);
            assert(b[j] == b.subrange(0, k)[j]);
        }
    }
    if a[k] > b[k] {
        assert(bytes_greater(a, b));
    } else {
        assert(bytes_greater(b, a));
    }
}

/// The four big-endian bytes of `x`.
pub open spec fn be32_bytes(x: u32) -> Seq<u8> {
    seq![
        (x / 0x1000000) as u8,
        ((x / 0x10000) % 0x100) as u8,
        ((x / 0x100) % 0x100) as u8,
        (x % 0x100) as u8,
    ]
}

/// The four little-endian bytes of `x`.
pub open spec fn le32_bytes(x: u32) -> Seq<u8> {
    be32_bytes(x).reverse()
}

/// The big-endian value of the first four bytes of `b`.
pub open spec fn be32_value(b: Seq<u8>) -> u32 {
    (b[0] as int * 0x1000000 + b[1] as int * 0x10000 + b[2] as int * 0x100 + b[3] as int) as u32
}

/// The two big-endian bytes of `x`.
pub open spec fn be16_bytes(x: u16) -> Seq<u8> {
    seq![(x / 0x100) as u8, (x % 0x100) as u8]
}

pub fn is_zero(a: &[u8]) -> (r: bool)
    ensures
        r == all_zero(a@),
{
    let mut i: usize = 0;
    while i < a.len()
        invariant
            0 <= i <= a@.len(),
            forall|j: int| 0 <= j < i ==> a@[j] == 0,
        decreases a@.len() - i,
    {
        if a[i] != 0 {
            return false;
        }
        i = i + 1;
    }
    true
}

pub fn bytes_eq(a: &[u8], b: &[u8]) -> (r: bool)
    ensures
        r == (a@ == b@),
{
    if a.len() != b.len() {
        return false;
    }
    let mut i: usize = 0;
    while i < a.len()
        invariant
            0 <= i <= a@.len(),
            a@.len() == b@.len(),
            forall|j: int| 0 <= j < i ==> a@[j] == b@[j],
        decreases a@.len() - i,
    {
        if a[i] != b[i] {
            return false;
        }
        i = i + 1;
    }
    assert(a@ =~= b@);
    true
}

/// Byte-wise comparison of two strings of equal length.
pub fn greater(a: &[u8], b: &[u8]) -> (r: bool)
    requires
        a@.len() == b@.len(),
    ensures
        r == bytes_greater(a@, b@),
{
    let mut i: usize = 0;
    while i < a.len()
        invariant
            0 <= i <= a@.len(),
            a@.len() == b@.len(),
            a@.subrange(0, i as int) == b@.subrange(0, i as int),
        decreases a@.len() - i,
    {
        if a[i] != b[i] {
            if a[i] > b[i] {
                return true;
            }
            assert forall|k: int|
                0 <= k < a@.len() && a@.subrange(0, k) == b@.subrange(0, k) implies !(a@[k]
                > b@[k]) by {
                if k < i {
                    assert(a@[k] == a@.subrange(0, i as int)[k]);
                    assert(b@[k] == b@.subrange(0, i as int)[k]);
                } else if k > i {
                    assert(a@[i as int] == a@.subrange(0, k)[i as int]);
                    assert(b@[i as int] == b@.subrange(0, k)[i as int]);
                }
            }
            return false;
        }
        assert(a@.subrange(0, i + 1) =~= a@.subrange(0, i as int).push(a@[i as int]));
        assert(b@.subrange(0, i + 1) =~= b@.subrange(0, i as int).push(b@[i as int]));
        i = i + 1;
    }
    assert forall|k: int|
        0 <= k < a@.len() && a@.subrange(0, k) == b@.subrange(0, k) implies !(a@[k] > b@[k]) by {
        assert(a@[k] == a@.subrange(0, a@.len() as int)[k]);
        assert(b@[k] == b@.subrange(0, a@.len() as int)[k]);
    }
    false
}

/// The bytes `s[lo..hi]` as a new vector.
pub fn slice_to_vec(s: &[u8], lo: usize, hi: usize) -> (r: Vec<u8>)
    requires
        lo <= hi <= s@.len(),
    ensures
        r@ == s@.subrange(lo as int, hi as int),
{
    let mut r: Vec<u8> = Vec::with_capacity(hi - lo);
    let mut i: usize = lo;
    while i < hi
        invariant
            lo <= i <= hi <= s@.len(),
            r@ == s@.subrange(lo as int, i as int),
        decreases hi - i,
    {
        r.push(s[i]);
        assert(r@ =~= s@.subrange(lo as int, i + 1));
        i = i + 1;
    }
    r
}

/// The `N` bytes of `s` that start at `at`.
pub fn take_array<const N: usize>(s: &[u8], at: usize) -> (r: [u8; N])
    requires
        at + N <= s@.len(),
    ensures
        r@ == s@.subrange(at as int, at + N),
{
    let mut r: [u8; N] = [0u8; N];
    let len = s.len();
    let mut i: usize = 0;
    while i < N
        invariant
            0 <= i <= N,
            at + N <= s@.len() == len,
            r@.len() == N,
            forall|j: int| 0 <= j < i ==> r@[j] == s@[at + j],
        decreases N - i,
    {
        r[i] = s[at + i];
        i = i + 1;
    }
    assert(r@ =~= s@.subrange(at as int, at + N));
    r
}

/// `a` followed by `b`.
pub fn concat(a: &[u8], b: &[u8]) -> (r: Vec<u8>)
    requires
        a@.len() + b@.len() <= usize::MAX,
    ensures
        r@ == a@ + b@,
{
    let mut r: Vec<u8> = Vec::with_capacity(a.len() + b.len());
    let mut i: usize = 0;
    while i < a.len()
        invariant
            0 <= i <= a@.len(),
            r@ == a@.subrange(0, i as int),
        decreases a@.len() - i,
    {
        r.push(a[i]);
        assert(r@ =~= a@.subrange(0, i + 1));
        i = i + 1;
    }
    let mut j: usize = 0;
    while j < b.len()
        invariant
            0 <= j <= b@.len(),
            i == a@.len(),
            r@ == a@ + b@.subrange(0, j as int),
        decreases b@.len() - j,
    {
        r.push(b[j]);
        assert(r@ =~= a@ + b@.subrange(0, j + 1));
        j = j + 1;
    }
    assert(b@.subrange(0, b@.len() as int) =~= b@);
    r
}

pub fn be32(x: u32) -> (r: [u8; 4])
    ensures
        r@ == be32_bytes(x),
{
    let r: [u8; 4] = [
        (x / 0x1000000) as u8,
        ((x / 0x10000) % 0x100) as u8,
        ((x / 0x100) % 0x100) as u8,
        (x % 0x100) as u8,
    ];
    assert(r@ =~= be32_bytes(x));
    r
}

pub fn read_be32(b: &[u8]) -> (r: u32)
    requires
        b@.len() >= 4,
    ensures
        r == be32_value(b@),
{
    let v: u64 = b[0] as u64 * 0x1000000 + b[1] as u64 * 0x10000 + b[2] as u64 * 0x100
        + b[3] as u64;
    assert(v < 0x1_0000_0000);
    v as u32
}

} // verus!
