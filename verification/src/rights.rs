//! The capability bitmask attached to a handle.
//!
//! Rights are independent bits, not a hierarchy: any subset of
//! {duplicate, transfer, read, write} is a valid grant, including the empty
//! one (a handle usable for nothing but identity and closing). The bit layout
//! is stable and must never be renumbered.

use vstd::prelude::*;

use crate::error::Error;
use crate::error::ERR_ACCESS_DENIED;

verus! {

/// The right to duplicate a handle.
pub const RIGHT_DUPLICATE: u32 = 1 << 0;

/// The right to transfer a handle to another process.
pub const RIGHT_TRANSFER: u32 = 1 << 1;

/// The right to read the object referred to by a handle.
pub const RIGHT_READ: u32 = 1 << 2;

/// The right to write the object referred to by a handle.
pub const RIGHT_WRITE: u32 = 1 << 3;

/// An immutable bitmask of capability bits granted with a handle.
#[derive(Clone, Copy, PartialEq, Eq, Structural, Debug, Hash)]
pub struct HandleRights {
    bits: u32,
}

impl HandleRights {
    /// The raw bits of the mask.
    pub closed spec fn spec_bits(self) -> u32 {
        self.bits
    }

    /// Every bit set in `other` is also set in `self`: `other` is a subset
    /// of the rights granted by `self`.
    pub open spec fn spec_contains(self, other: HandleRights) -> bool {
        self.spec_bits() & other.spec_bits() == other.spec_bits()
    }

    /// Build a mask from raw bits.
    pub fn new(bits: u32) -> (r: HandleRights)
        ensures
            r.spec_bits() == bits,
    {
        HandleRights { bits }
    }

    /// The raw bits of the mask.
    pub fn bits(&self) -> (r: u32)
        ensures
            r == self.spec_bits(),
    {
        self.bits
    }

    /// Does this mask grant every bit of `other`?
    pub fn contains(&self, other: HandleRights) -> (r: bool)
        ensures
            r == self.spec_contains(other),
    {
        self.bits & other.bits == other.bits
    }

    /// The containment check as a fallible operation: succeeds exactly when
    /// every requested bit is granted, and fails with `ERR_ACCESS_DENIED`
    /// otherwise. Pure: no side effects on either mask.
    pub fn has(&self, rights: HandleRights) -> (r: Result<(), Error>)
        ensures
            self.spec_contains(rights) ==> r == Ok::<(), Error>(()),
            !self.spec_contains(rights) ==> (r matches Err(e) && e.errno == ERR_ACCESS_DENIED),
    {
        if self.contains(rights) {
            Ok(())
        } else {
            Err(Error::new(ERR_ACCESS_DENIED))
        }
    }
}

/// The bits of `x & y` and of `y` agree from position `n` upward whenever
/// every bit set in `y` is also set in `x`. Downward induction on `n`: the
/// base case is the empty tail above the top bit, and each step adjoins bit
/// `n` itself, for which the hypothesis supplies the missing half.
proof fn lemma_subset_bits_upward(x: u32, y: u32, n: u32)
    requires
        n <= 32,
        forall|i: u32| i < 32 && #[trigger] ((y >> i) & 1) == 1 ==> (x >> i) & 1 == 1,
    ensures
        (x & y) >> n == y >> n,
    decreases 32 - n,
{
    if n >= 32 {
        assert((x & y) >> n == y >> n) by (bit_vector)
            requires
                n >= 32,
        ;
    } else {
        lemma_subset_bits_upward(x, y, (n + 1) as u32);
        assert((x & y) >> n == y >> n) by (bit_vector)
            requires
                n < 32,
                (x & y) >> ((n + 1) as u32) == y >> ((n + 1) as u32),
                ((y >> n) & 1 == 1) ==> ((x >> n) & 1 == 1),
        ;
    }
}

/// Containment really is bitwise subset: `a` contains `b` exactly when every
/// individual bit position set in `b` is also set in `a`.
pub proof fn lemma_contains_is_subset(a: HandleRights, b: HandleRights)
    ensures
        a.spec_contains(b) <==> (forall|i: u32|
            i < 32 && #[trigger] ((b.spec_bits() >> i) & 1) == 1 ==> (a.spec_bits() >> i) & 1
                == 1),
{
    let x = a.spec_bits();
    let y = b.spec_bits();
    assert(x & y == y ==> (forall|i: u32|
        i < 32 && #[trigger] ((y >> i) & 1) == 1 ==> (x >> i) & 1 == 1)) by (bit_vector);
    if forall|i: u32| i < 32 && #[trigger] ((y >> i) & 1) == 1 ==> (x >> i) & 1 == 1 {
        lemma_subset_bits_upward(x, y, 0);
        assert((x & y) >> 0 == x & y) by (bit_vector);
        assert(y >> 0 == y) by (bit_vector);
    }
}

} // verus!
