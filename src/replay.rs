//! Replay protection: a sliding window of 64 packet counters.
use vstd::prelude::*;

verus! {

/// Bit `i` of `b` is set.
pub open spec fn bit(b: u64, i: u64) -> bool {
    (b >> i) & 1 == 1
}

/// How many of the lowest `k` bits of `b` are clear.
pub open spec fn zeros_below(b: u64, k: nat) -> nat
    decreases k,
{
    if k == 0 {
        0
    } else {
        zeros_below(b, (k - 1) as nat) + if bit(b, (k - 1) as u64) {
            0nat
        } else {
            1nat
        }
    }
}

/// How many counters leave the window unseen when it slides up by `shift`.
pub open spec fn lost_in_shift(b: u64, shift: nat) -> nat {
    if shift >= 64 {
        zeros_below(b, 64) + (shift - 64) as nat
    } else {
        zeros_below(b, shift)
    }
}

proof fn lemma_bit_test(b: u64, i: u64)
    requires
        i < 64,
    ensures
        (b & (1u64 << i) != 0) == bit(b, i),
{
    assert((b & (1u64 << i) != 0) == ((b >> i) & 1 == 1)) by (bit_vector)
        requires
            i < 64,
    ;
}

proof fn lemma_bit_set(b: u64, i: u64, j: u64)
    requires
        i < 64,
        j < 64,
    ensures
        bit(b | (1u64 << i), j) == (bit(b, j) || i == j),
{
    assert(((b | (1u64 << i)) >> j) & 1 == 1 <==> ((b >> j) & 1 == 1 || i == j)) by (bit_vector)
        requires
            i < 64,
            j < 64,
    ;
}

proof fn lemma_bit_shift(b: u64, s: u64, j: u64)
    requires
        s < 64,
        j < 64,
    ensures
        bit(b >> s, j) == (j + s < 64 && bit(b, (j + s) as u64)),
{
    assert(((b >> s) >> j) & 1 == 1 <==> (j + s < 64 && (b >> ((j + s) as u64)) & 1 == 1))
        by (bit_vector)
        requires
            s < 64,
            j < 64,
    ;
}

proof fn lemma_bit_zero(j: u64)
    ensures
        !bit(0u64, j),
{
    assert((0u64 >> j) & 1 != 1) by (bit_vector);
}

/// Counts the clear bits among the lowest `k` bits of `b`.
fn count_zeros_below(b: u64, k: u64) -> (r: u64)
    requires
        k <= 64,
    ensures
        r == zeros_below(b, k as nat),
        r <= k,
{
    let mut i: u64 = 0;
    let mut n: u64 = 0;
    while i < k
        invariant
            i <= k <= 64,
            n == zeros_below(b, i as nat),
            n <= i,
        decreases k - i,
    {
        if (b >> i) & 1 != 1 {
            n = n + 1;
        }
        i = i + 1;
    }
    n
}

/// Counters of what the protector has seen.
#[derive(Debug, Clone, Copy, PartialEq, Eq, Structural)]
pub struct ReplayStats {
    pub received_packets: u32,
    pub duplicate_packets: u32,
    pub received_unexpected: u32,
    pub lost_packets: u32,
}

/// A window of 64 packet counters from `base_offset` up: bit `i` of `bitfield` is set when
/// counter `base_offset + i` has been accepted.
pub struct ReplayProtector {
    pub bitfield: u64,
    pub base_offset: u32,
    pub received_packets: u32,
    pub duplicate_packets: u32,
    pub received_unexpected: u32,
    pub lost_packets: u32,
}

impl ReplayProtector {
    /// Counter `n` has been accepted and is still inside the window.
    pub open spec fn seen(&self, n: u32) -> bool {
        self.base_offset <= n < self.base_offset + 64 && bit(
            self.bitfield,
            (n - self.base_offset) as u64,
        )
    }

    /// Counter `n` would be accepted now: it is not below the window and not seen.
    pub open spec fn accepts(&self, n: u32) -> bool {
        n >= self.base_offset && !self.seen(n)
    }

    /// Where the window starts after counter `n` is taken in.
    pub open spec fn base_after(&self, n: u32) -> u32 {
        if n >= self.base_offset + 64 {
            (n - 63) as u32
        } else {
            self.base_offset
        }
    }

    pub fn new() -> (r: ReplayProtector)
        ensures
            r.base_offset == 0,
            forall|n: u32| r.accepts(n),
            r.received_packets == 0 && r.duplicate_packets == 0 && r.received_unexpected == 0
                && r.lost_packets == 0,
    {
        let r = ReplayProtector {
            bitfield: 0,
            base_offset: 0,
            received_packets: 0,
            duplicate_packets: 0,
            received_unexpected: 0,
            lost_packets: 0,
        };
        assert forall|n: u32| r.accepts(n) by {
            lemma_bit_zero((n - 0) as u64);
        }
        r
    }

    /// Takes in packet counter `n`: returns whether it is new, and marks it seen.
    /// A counter below the window, or one already seen, is refused; a counter above
    /// the window slides the window up so that it is the highest slot.
    pub fn check_nonce(&mut self, n: u32) -> (r: bool)
        ensures
            checked(*old(self), *final(self), n, r),
    {
        if n < self.base_offset {
            self.received_unexpected = self.received_unexpected.wrapping_add(1);
            return false;
        }
        let mut offset: u32 = n - self.base_offset;
        if offset > 63 {
            let shift: u32 = offset - 63;
            if shift >= 64 {
                let z = count_zeros_below(self.bitfield, 64);
                let lost: u64 = z + (shift as u64 - 64);
                self.lost_packets = ((self.lost_packets as u64 + lost) % 0x1_0000_0000) as u32;
                proof {
                    assert forall|m: u32| !old(self).seen(m) || m < n - 63 by {}
                    assert forall|j: u64| j < 64 implies !bit(0u64, j) by {
                        lemma_bit_zero(j);
                    }
                }
                self.bitfield = 0;
            } else {
                let z = count_zeros_below(self.bitfield, shift as u64);
                self.lost_packets = ((self.lost_packets as u64 + z) % 0x1_0000_0000) as u32;
                let old_bits = self.bitfield;
                self.bitfield = self.bitfield >> shift;
                proof {
                    assert forall|j: u64| j < 64 implies bit(self.bitfield, j) == (j + shift < 64
                        && bit(old_bits, (j + shift) as u64)) by {
                        lemma_bit_shift(old_bits, shift as u64, j);
                    }
                }
            }
            self.base_offset = self.base_offset + shift;
            offset = 63;
        }
        assert forall|m: u32| #![trigger self.seen(m)]
            self.seen(m) == (old(self).seen(m) && m >= self.base_offset) by {
            if self.base_offset != old(self).base_offset && self.base_offset <= m
                < self.base_offset + 64 {
                let j = (m - self.base_offset) as u64;
                assert(bit(self.bitfield, j) == (j + (self.base_offset - old(self).base_offset)
                    < 64 && bit(old(self).bitfield, (j + (self.base_offset - old(
                    self).base_offset)) as u64)));
            }
        }
        assert(offset as int == n - self.base_offset);
        let mask: u64 = 1u64 << offset;
        proof {
            lemma_bit_test(self.bitfield, offset as u64);
        }
        if self.bitfield & mask != 0 {
            self.duplicate_packets = self.duplicate_packets.wrapping_add(1);
            return false;
        }
        self.received_packets = self.received_packets.wrapping_add(1);
        let before = self.bitfield;
        self.bitfield = self.bitfield | mask;
        proof {
            assert forall|j: u64| j < 64 implies bit(self.bitfield, j) == (bit(before, j) || j
                == offset) by {
                lemma_bit_set(before, offset as u64, j);
            }
            assert forall|m: u32| #![trigger self.seen(m)]
                self.seen(m) == (m == n || (old(self).seen(m) && m >= self.base_offset)) by {
                if self.base_offset <= m < self.base_offset + 64 {
                    let j = (m - self.base_offset) as u64;
                    assert(bit(self.bitfield, j) == (bit(before, j) || j == offset));
                }
            }
        }
        true
    }

    /// Starts the window at `n`, with nothing seen.
    pub fn init(&mut self, n: u32)
        ensures
            final(self).base_offset == n,
            forall|m: u32| #![trigger final(self).seen(m)] !final(self).seen(m),
            final(self).stats() == old(self).stats(),
    {
        self.bitfield = 0;
        self.base_offset = n;
        assert forall|m: u32| !self.seen(m) by {
            if n <= m < n + 64 {
                lemma_bit_zero((m - n) as u64);
            }
        }
    }

    /// Clears the window: every counter is accepted again.
    pub fn reset(&mut self)
        ensures
            final(self).base_offset == 0,
            forall|m: u32| #![trigger final(self).accepts(m)] final(self).accepts(m),
            final(self).stats() == old(self).stats(),
    {
        self.init(0);
    }

    pub open spec fn stats(&self) -> ReplayStats {
        ReplayStats {
            received_packets: self.received_packets,
            duplicate_packets: self.duplicate_packets,
            received_unexpected: self.received_unexpected,
            lost_packets: self.lost_packets,
        }
    }

    /// A snapshot of the counters.
    pub fn get_stats(&self) -> (r: ReplayStats)
        ensures
            r == self.stats(),
    {
        ReplayStats {
            received_packets: self.received_packets,
            duplicate_packets: self.duplicate_packets,
            received_unexpected: self.received_unexpected,
            lost_packets: self.lost_packets,
        }
    }
}

/// What taking in counter `n` does: `r` tells whether it was new; `after` has it seen,
/// and keeps of what `before` had seen what is still inside the window.
pub open spec fn checked(before: ReplayProtector, after: ReplayProtector, n: u32, r: bool) -> bool {
    &&& r == before.accepts(n)
    &&& r ==> after.base_offset == before.base_after(n)
    &&& r ==> forall|m: u32|
        #![trigger after.seen(m)]
        after.seen(m) == (m == n || (before.seen(m) && m >= after.base_offset))
    &&& !r ==> after.base_offset == before.base_offset && after.bitfield == before.bitfield
    &&& after.received_packets == if r {
        before.received_packets.wrapping_add(1)
    } else {
        before.received_packets
    }
    &&& after.duplicate_packets == if !r && n >= before.base_offset {
        before.duplicate_packets.wrapping_add(1)
    } else {
        before.duplicate_packets
    }
    &&& after.received_unexpected == if n < before.base_offset {
        before.received_unexpected.wrapping_add(1)
    } else {
        before.received_unexpected
    }
    &&& after.lost_packets == if r && n >= before.base_offset + 64 {
        ((before.lost_packets + lost_in_shift(
            before.bitfield,
            (n - 63 - before.base_offset) as nat,
        )) % 0x1_0000_0000) as u32
    } else {
        before.lost_packets
    }
}

/// A counter that was accepted once is refused when it comes again.
pub proof fn lemma_no_replay(before: ReplayProtector, after: ReplayProtector, n: u32)
    requires
        before.accepts(n),
        after.seen(n),
    ensures
        !after.accepts(n),
{
}

} // verus!
