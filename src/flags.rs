//! Initialization options: a set of independent capability bits.

use vstd::prelude::*;

verus! {

/// Bit that asks the native library to consider every GPU, not only AMD ones.
pub const INIT_FLAG_ALL_GPUS: u64 = 0x1;
/// Bit reserved by the native library for its own tests.
pub const INIT_FLAG_RESRV_TEST1: u64 = 0x800_0000_0000_0000;

/// Options handed to the native init entry point, combined by bitwise OR.
///
/// Only the bits of the named options are ever set.
#[derive(Clone, Copy, PartialEq, Eq, Structural, Debug)]
pub struct InitFlags {
    bits: u64,
}

/// The bits that some named option occupies.
pub open spec fn known_bits() -> u64 {
    INIT_FLAG_ALL_GPUS | INIT_FLAG_RESRV_TEST1
}

impl View for InitFlags {
    type V = u64;

    closed spec fn view(&self) -> u64 {
        self.bits
    }
}

impl InitFlags {
    /// Every set bit belongs to a named option.
    pub open spec fn wf(self) -> bool {
        self@ & !known_bits() == 0
    }

    /// Consider every GPU.
    pub fn all_gpus() -> (r: InitFlags)
        ensures
            r@ == INIT_FLAG_ALL_GPUS,
            r.wf(),
    {
        proof {
            assert(0x1u64 & !(0x1u64 | 0x800_0000_0000_0000u64) == 0) by (bit_vector);
        }
        InitFlags { bits: INIT_FLAG_ALL_GPUS }
    }

    /// Reserved test mode.
    pub fn reserved_test1() -> (r: InitFlags)
        ensures
            r@ == INIT_FLAG_RESRV_TEST1,
            r.wf(),
    {
        proof {
            assert(0x800_0000_0000_0000u64 & !(0x1u64 | 0x800_0000_0000_0000u64) == 0)
                by (bit_vector);
        }
        InitFlags { bits: INIT_FLAG_RESRV_TEST1 }
    }

    /// No option: the native library's default behaviour.
    pub fn empty() -> (r: InitFlags)
        ensures
            r@ == 0,
            r.wf(),
    {
        proof {
            assert(0u64 & !(0x1u64 | 0x800_0000_0000_0000u64) == 0) by (bit_vector);
        }
        InitFlags { bits: 0 }
    }

    /// Every named option.
    pub fn all() -> (r: InitFlags)
        ensures
            r@ == known_bits(),
            r.wf(),
    {
        proof {
            let k: u64 = 0x1u64 | 0x800_0000_0000_0000u64;
            assert(k & !k == 0) by (bit_vector);
        }
        InitFlags { bits: INIT_FLAG_ALL_GPUS | INIT_FLAG_RESRV_TEST1 }
    }

    /// The raw bits handed to the native init entry point.
    pub fn bits(&self) -> (r: u64)
        ensures
            r == self@,
    {
        self.bits
    }

    /// The options whose bits are set in `bits`; other bits are dropped.
    pub fn from_bits_truncate(bits: u64) -> (r: InitFlags)
        ensures
            r@ == bits & known_bits(),
            r.wf(),
    {
        let k: u64 = INIT_FLAG_ALL_GPUS | INIT_FLAG_RESRV_TEST1;
        proof {
            assert((bits & k) & !k == 0) by (bit_vector);
        }
        InitFlags { bits: bits & k }
    }

    /// Whether no option is set.
    pub fn is_empty(&self) -> (r: bool)
        ensures
            r == (self@ == 0),
    {
        self.bits == 0
    }

    /// Whether every option of `other` is set in `self`.
    pub fn contains(&self, other: InitFlags) -> (r: bool)
        ensures
            r == (self@ & other@ == other@),
    {
        self.bits & other.bits == other.bits
    }

    /// The options set in either value.
    pub fn union(self, other: InitFlags) -> (r: InitFlags)
        requires
            self.wf(),
            other.wf(),
        ensures
            r@ == self@ | other@,
            r.wf(),
    {
        let (a, b) = (self.bits, other.bits);
        proof {
            let k: u64 = 0x1u64 | 0x800_0000_0000_0000u64;
            assert(a & !k == 0 && b & !k == 0 ==> (a | b) & !k == 0) by (bit_vector);
        }
        InitFlags { bits: a | b }
    }

    /// Adds the options of `other` to `self`.
    pub fn insert(&mut self, other: InitFlags)
        requires
            old(self).wf(),
            other.wf(),
        ensures
            final(self)@ == old(self)@ | other@,
            final(self).wf(),
    {
        *self = self.union(other);
    }
}

/// Adding an option that is already there changes nothing: combining the same
/// options twice gives the value that combining them once gives.
pub proof fn lemma_union_idempotent(a: InitFlags, f: InitFlags)
    ensures
        (a@ | f@) | f@ == a@ | f@,
        f@ | f@ == f@,
{
    let (x, y) = (a@, f@);
    assert((x | y) | y == x | y) by (bit_vector);
    assert(y | y == y) by (bit_vector);
}

/// The order in which options are combined does not matter.
pub proof fn lemma_union_commutative(a: InitFlags, b: InitFlags)
    ensures
        a@ | b@ == b@ | a@,
{
    let (x, y) = (a@, b@);
    assert(x | y == y | x) by (bit_vector);
}

/// The named options occupy disjoint bits.
pub proof fn lemma_named_options_disjoint()
    ensures
        INIT_FLAG_ALL_GPUS & INIT_FLAG_RESRV_TEST1 == 0,
{
    assert(0x1u64 & 0x800_0000_0000_0000u64 == 0) by (bit_vector);
}

} // verus!
