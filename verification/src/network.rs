//! Identity allocation and wire time conversions of the dedicated server's peers.
//!
//! Durations are given in nanoseconds, as `Duration::as_nanos` reports them.
use vstd::prelude::*;

verus! {

/// Whole milliseconds from `now` until `expiry` (zero once expired), saturated to `u32`.
pub open spec fn spec_millis_until(now_nanos: u128, expiry_nanos: u128) -> nat {
    let remaining = if expiry_nanos > now_nanos {
        (expiry_nanos - now_nanos) as nat
    } else {
        0
    };
    let millis = remaining / 1_000_000;
    if millis > u32::MAX {
        u32::MAX as nat
    } else {
        millis
    }
}

/// Milliseconds a resume credential remains valid, as announced to the client.
pub fn millis_until(now_nanos: u128, expiry_nanos: u128) -> (millis: u32)
    ensures
        millis == spec_millis_until(now_nanos, expiry_nanos),
{
    let remaining = expiry_nanos.saturating_sub(now_nanos);
    let millis = remaining / 1_000_000;
    if millis > u32::MAX as u128 {
        u32::MAX
    } else {
        millis as u32
    }
}

/// Whole microseconds of a duration, saturated to `u64`.
pub fn duration_micros(nanos: u128) -> (micros: u64)
    ensures
        micros == (if nanos / 1000 > u64::MAX {
            u64::MAX as nat
        } else {
            (nanos / 1000) as nat
        }),
{
    let micros = nanos / 1000;
    if micros > u64::MAX as u128 {
        u64::MAX
    } else {
        micros as u64
    }
}

/// Issuer of consecutive 32-bit identities: connection epochs and flow sequences.
///
/// The largest value is never issued: allocation fails instead of wrapping.
#[derive(Debug, Clone, Copy, PartialEq, Eq)]
pub struct SequenceAllocator32 {
    next: u32,
}

impl View for SequenceAllocator32 {
    type V = u32;

    closed spec fn view(&self) -> u32 {
        self.next
    }
}

impl SequenceAllocator32 {
    /// An allocator whose first identity is `first`.
    pub fn starting_at(first: u32) -> (allocator: Self)
        ensures
            allocator@ == first,
    {
        SequenceAllocator32 { next: first }
    }

    /// Issue the next identity, or `None` when the domain is exhausted.
    pub fn allocate(&mut self) -> (issued: Option<u32>)
        ensures
            old(self)@ < u32::MAX ==> issued == Some(old(self)@) && final(self)@ == old(self)@ + 1,
            old(self)@ == u32::MAX ==> issued is None && final(self)@ == old(self)@,
    {
        let value = self.next;
        match value.checked_add(1) {
            Some(next) => {
                self.next = next;
                Some(value)
            },
            None => None,
        }
    }
}

/// Issuer of consecutive 64-bit identities: state-bootstrap transfers.
///
/// The largest value is never issued: allocation fails instead of wrapping.
#[derive(Debug, Clone, Copy, PartialEq, Eq)]
pub struct SequenceAllocator64 {
    next: u64,
}

impl View for SequenceAllocator64 {
    type V = u64;

    closed spec fn view(&self) -> u64 {
        self.next
    }
}

impl SequenceAllocator64 {
    /// An allocator whose first identity is `first`.
    pub fn starting_at(first: u64) -> (allocator: Self)
        ensures
            allocator@ == first,
    {
        SequenceAllocator64 { next: first }
    }

    /// Issue the next identity, or `None` when the domain is exhausted.
    pub fn allocate(&mut self) -> (issued: Option<u64>)
        ensures
            old(self)@ < u64::MAX ==> issued == Some(old(self)@) && final(self)@ == old(self)@ + 1,
            old(self)@ == u64::MAX ==> issued is None && final(self)@ == old(self)@,
    {
        let value = self.next;
        match value.checked_add(1) {
            Some(next) => {
                self.next = next;
                Some(value)
            },
            None => None,
        }
    }
}

/// Identities issued by `k` allocations from an allocator whose next identity is `next`.
pub open spec fn issued_identities(next: nat, k: nat) -> Seq<nat>
    decreases k,
{
    if k == 0 || next >= u32::MAX {
        Seq::empty()
    } else {
        seq![next] + issued_identities(next + 1, (k - 1) as nat)
    }
}

/// Identities are never reused: any run of allocations issues strictly increasing
/// identities, each below the domain's largest value.
pub proof fn lemma_identities_strictly_increase(next: nat, k: nat)
    ensures
        forall|i: int, j: int|
            0 <= i < j < issued_identities(next, k).len() ==> #[trigger] issued_identities(
                next,
                k,
            )[i] < #[trigger] issued_identities(next, k)[j],
        forall|i: int|
            0 <= i < issued_identities(next, k).len() ==> next <= #[trigger] issued_identities(
                next,
                k,
            )[i] < u32::MAX,
    decreases k,
{
    if k > 0 && next < u32::MAX {
        lemma_identities_strictly_increase(next + 1, (k - 1) as nat);
        let rest = issued_identities(next + 1, (k - 1) as nat);
        let all = issued_identities(next, k);
        assert(all == seq![next] + rest);
        assert forall|i: int, j: int| 0 <= i < j < all.len() implies #[trigger] all[i] < #[trigger] all[j] by {
            if i > 0 {
                assert(all[i] == rest[i - 1]);
            }
            assert(all[j] == rest[j - 1]);
        }
        assert forall|i: int| 0 <= i < all.len() implies next <= #[trigger] all[i] < u32::MAX by {
            if i > 0 {
                assert(all[i] == rest[i - 1]);
            }
        }
    }
}

} // verus!
