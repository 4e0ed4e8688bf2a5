//! Execution flags of a thread control structure.

use vstd::prelude::*;

verus! {

/// A set of execution flags, held as a 64-bit word.
///
/// Bit 0 is the only flag defined: the debug opt-in. Every other bit is
/// reserved, and no value of this type has a reserved bit set.
#[derive(Debug, Clone, Copy, PartialEq, Eq, Structural)]
pub struct Flags {
    bits: u64,
}

impl View for Flags {
    type V = u64;

    /// The word that holds the flags.
    closed spec fn view(&self) -> u64 {
        self.bits
    }
}

impl Flags {
    /// The word of the debug opt-in flag: a debugger may attach to the
    /// enclave thread.
    pub const DBGOPTIN_BITS: u64 = 0x1;

    /// The word with every defined flag set.
    pub const ALL_BITS: u64 = 0x1;

    /// No reserved bit is set.
    #[verifier::type_invariant]
    pub open spec fn wf(&self) -> bool {
        self@ & !Self::ALL_BITS == 0
    }

    /// Every bit of `mask` is set in this word.
    pub open spec fn has(&self, mask: u64) -> bool {
        self@ & mask == mask
    }

    /// The words without a reserved bit are 0 and the word of the debug
    /// opt-in flag.
    pub proof fn lemma_defined_words(bits: u64)
        ensures
            bits & !Self::ALL_BITS == 0 <==> bits == 0 || bits == Self::DBGOPTIN_BITS,
    {
        assert(bits & !0x1u64 == 0 <==> bits == 0 || bits == 0x1u64) by (bit_vector);
    }

    /// Two sets of flags with the same word are the same set.
    pub proof fn lemma_view_injective(a: Flags, b: Flags)
        ensures
            a@ == b@ <==> a == b,
    {
    }

    /// The set without any flag.
    pub fn empty() -> (r: Flags)
        ensures
            r@ == 0,
            r.wf(),
    {
        assert(0u64 & !0x1u64 == 0) by (bit_vector);
        Flags { bits: 0 }
    }

    /// The set of every defined flag.
    pub fn all() -> (r: Flags)
        ensures
            r@ == Self::ALL_BITS,
            r.wf(),
    {
        assert(0x1u64 & !0x1u64 == 0) by (bit_vector);
        Flags { bits: Self::ALL_BITS }
    }

    /// The set that holds the debug opt-in flag alone.
    pub fn dbgoptin() -> (r: Flags)
        ensures
            r@ == Self::DBGOPTIN_BITS,
            r.wf(),
    {
        assert(0x1u64 & !0x1u64 == 0) by (bit_vector);
        Flags { bits: Self::DBGOPTIN_BITS }
    }

    /// The word that holds the flags.
    pub fn bits(&self) -> (r: u64)
        ensures
            r == self@,
            r & !Self::ALL_BITS == 0,
    {
        proof {
            use_type_invariant(self);
        }
        self.bits
    }

    /// The set held by the word `bits`, unless `bits` has a reserved bit set.
    pub fn from_bits(bits: u64) -> (r: Option<Flags>)
        ensures
            r.is_some() <==> bits & !Self::ALL_BITS == 0,
            r matches Some(f) ==> f@ == bits && f.wf(),
    {
        if bits & !Self::ALL_BITS == 0 {
            Some(Flags { bits })
        } else {
            None
        }
    }

    /// The set held by the word `bits` once its reserved bits are cleared.
    pub fn from_bits_truncate(bits: u64) -> (r: Flags)
        ensures
            r@ == bits & Self::ALL_BITS,
            r.wf(),
    {
        assert((bits & 0x1u64) & !0x1u64 == 0) by (bit_vector);
        Flags { bits: bits & Self::ALL_BITS }
    }

    /// Whether no flag is set.
    pub fn is_empty(&self) -> (b: bool)
        ensures
            b == (self@ == 0),
    {
        self.bits == 0
    }

    /// Whether every flag of `other` is set in `self`.
    pub fn contains(&self, other: Flags) -> (b: bool)
        ensures
            b == self.has(other@),
    {
        self.bits & other.bits == other.bits
    }

    /// Sets every flag of `other` in `self`.
    pub fn insert(&mut self, other: Flags)
        ensures
            final(self)@ == old(self)@ | other@,
            final(self).wf(),
    {
        proof {
            use_type_invariant(&*self);
            use_type_invariant(&other);
        }
        let a = self.bits;
        let b = other.bits;
        assert((a | b) & !0x1u64 == 0) by (bit_vector)
            requires
                a & !0x1u64 == 0,
                b & !0x1u64 == 0,
        ;
        self.bits = a | b;
    }

    /// Clears every flag of `other` in `self`.
    pub fn remove(&mut self, other: Flags)
        ensures
            final(self)@ == old(self)@ & !other@,
            final(self).wf(),
    {
        proof {
            use_type_invariant(&*self);
        }
        let a = self.bits;
        let b = other.bits;
        assert((a & !b) & !0x1u64 == 0) by (bit_vector)
            requires
                a & !0x1u64 == 0,
        ;
        self.bits = a & !b;
    }

    /// The empty set answers no to every query but the empty one.
    pub proof fn lemma_empty_has_nothing(f: Flags, mask: u64)
        requires
            f@ == 0,
            mask != 0,
        ensures
            !f.has(mask),
    {
        assert(0u64 & mask == 0) by (bit_vector);
    }

    /// A set with bit 0 set holds the debug opt-in flag and nothing else: a
    /// query that names any other bit is answered no.
    pub proof fn lemma_bit_zero_is_debug_opt_in(f: Flags, mask: u64)
        requires
            f.wf(),
            f.has(0x1),
        ensures
            f@ == Self::DBGOPTIN_BITS,
            f.has(Self::DBGOPTIN_BITS),
            mask & !Self::DBGOPTIN_BITS != 0 ==> !f.has(mask),
    {
        let w = f@;
        assert(w == 0x1u64) by (bit_vector)
            requires
                w & !0x1u64 == 0,
                w & 0x1u64 == 0x1u64,
        ;
        assert(mask & !0x1u64 != 0 ==> 0x1u64 & mask != mask) by (bit_vector);
    }
}

} // verus!
