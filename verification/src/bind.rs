use vstd::prelude::*;

verus! {

/// The bit that marks the vertex stage.
pub const VERTEX_BIT: u16 = 2;

/// The bit that marks the fragment stage.
pub const FRAGMENT_BIT: u16 = 4;

/// The bits of every known stage.
pub const ALL_BITS: u16 = 6;

/// The set of shader stages a binding is visible to, as a set of bits.
#[derive(Clone, Copy, PartialEq, Eq, Debug, Structural)]
pub struct ShaderStage {
    bits: u16,
}

impl ShaderStage {
    /// The bits of the set.
    pub closed spec fn spec_bits(self) -> u16 {
        self.bits
    }

    /// The vertex stage alone.
    pub fn vertex() -> (s: ShaderStage)
        ensures
            s.spec_bits() == VERTEX_BIT,
    {
        ShaderStage { bits: VERTEX_BIT }
    }

    /// The fragment stage alone.
    pub fn fragment() -> (s: ShaderStage)
        ensures
            s.spec_bits() == FRAGMENT_BIT,
    {
        ShaderStage { bits: FRAGMENT_BIT }
    }

    /// No stage.
    pub fn empty() -> (s: ShaderStage)
        ensures
            s.spec_bits() == 0,
    {
        ShaderStage { bits: 0 }
    }

    /// Every known stage.
    pub fn all() -> (s: ShaderStage)
        ensures
            s.spec_bits() == ALL_BITS,
    {
        ShaderStage { bits: ALL_BITS }
    }

    /// The set with exactly the given bits, if they are all known stages.
    pub fn from_bits(bits: u16) -> (s: Option<ShaderStage>)
        ensures
            bits & !ALL_BITS == 0 ==> (s matches Some(t) && t.spec_bits() == bits),
            bits & !ALL_BITS != 0 ==> s is None,
    {
        if bits & !ALL_BITS == 0 {
            Some(ShaderStage { bits })
        } else {
            None
        }
    }

    /// The set of the known stages among the given bits; unknown bits are dropped.
    pub fn from_bits_truncate(bits: u16) -> (s: ShaderStage)
        ensures
            s.spec_bits() == bits & ALL_BITS,
    {
        ShaderStage { bits: bits & ALL_BITS }
    }

    /// The bits of the set.
    pub fn bits(&self) -> (b: u16)
        ensures
            b == self.spec_bits(),
    {
        self.bits
    }

    /// Whether the set holds no stage.
    pub fn is_empty(&self) -> (b: bool)
        ensures
            b == (self.spec_bits() == 0),
    {
        self.bits == 0
    }

    /// Whether the set holds every known stage.
    pub fn is_all(&self) -> (b: bool)
        ensures
            b == (self.spec_bits() & ALL_BITS == ALL_BITS),
    {
        self.bits & ALL_BITS == ALL_BITS
    }

    /// Whether every stage of `other` is in `self`.
    pub fn contains(&self, other: ShaderStage) -> (b: bool)
        ensures
            b == (self.spec_bits() & other.spec_bits() == other.spec_bits()),
    {
        self.bits & other.bits == other.bits
    }

    /// Whether the two sets share a stage.
    pub fn intersects(&self, other: ShaderStage) -> (b: bool)
        ensures
            b == (self.spec_bits() & other.spec_bits() != 0),
    {
        self.bits & other.bits != 0
    }

    /// The stages of either set.
    pub fn union(self, other: ShaderStage) -> (s: ShaderStage)
        ensures
            s.spec_bits() == self.spec_bits() | other.spec_bits(),
    {
        ShaderStage { bits: self.bits | other.bits }
    }

    /// The stages of both sets.
    pub fn intersection(self, other: ShaderStage) -> (s: ShaderStage)
        ensures
            s.spec_bits() == self.spec_bits() & other.spec_bits(),
    {
        ShaderStage { bits: self.bits & other.bits }
    }

    /// The stages of `self` that are not in `other`.
    pub fn difference(self, other: ShaderStage) -> (s: ShaderStage)
        ensures
            s.spec_bits() == self.spec_bits() & !other.spec_bits(),
    {
        ShaderStage { bits: self.bits & !other.bits }
    }

    /// Adds the stages of `other`.
    pub fn insert(&mut self, other: ShaderStage)
        ensures
            final(self).spec_bits() == old(self).spec_bits() | other.spec_bits(),
    {
        self.bits = self.bits | other.bits;
    }

    /// Removes the stages of `other`.
    pub fn remove(&mut self, other: ShaderStage)
        ensures
            final(self).spec_bits() == old(self).spec_bits() & !other.spec_bits(),
    {
        self.bits = self.bits & !other.bits;
    }

    /// Adds the stages of `other` when `value` is true, removes them otherwise.
    pub fn set(&mut self, other: ShaderStage, value: bool)
        ensures
            value ==> final(self).spec_bits() == old(self).spec_bits() | other.spec_bits(),
            !value ==> final(self).spec_bits() == old(self).spec_bits() & !other.spec_bits(),
    {
        if value {
            self.insert(other);
        } else {
            self.remove(other);
        }
    }
}

impl core::ops::BitOr for ShaderStage {
    type Output = ShaderStage;

    fn bitor(self, other: ShaderStage) -> (s: ShaderStage)
        ensures
            s.spec_bits() == self.spec_bits() | other.spec_bits(),
    {
        self.union(other)
    }
}

impl vstd::std_specs::ops::BitOrSpecImpl for ShaderStage {
    open spec fn obeys_bitor_spec() -> bool {
        true
    }

    open spec fn bitor_req(self, rhs: ShaderStage) -> bool {
        true
    }

    closed spec fn bitor_spec(self, rhs: ShaderStage) -> ShaderStage {
        ShaderStage { bits: self.bits | rhs.bits }
    }
}

/// A union holds every stage of both sets, and the vertex and fragment stages are different and
/// together make up all stages.
pub proof fn lemma_union_contains(a: u16, b: u16)
    ensures
        (a | b) & a == a,
        (a | b) & b == b,
        VERTEX_BIT & FRAGMENT_BIT == 0,
        VERTEX_BIT | FRAGMENT_BIT == ALL_BITS,
{
    assert((a | b) & a == a) by (bit_vector);
    assert((a | b) & b == b) by (bit_vector);
    assert(2u16 & 4u16 == 0u16) by (bit_vector);
    assert(2u16 | 4u16 == 6u16) by (bit_vector);
}

/// Removing a set's stages leaves none of them, and inserting them back holds them all.
pub proof fn lemma_remove_insert(a: u16, b: u16)
    ensures
        (a & !b) & b == 0,
        ((a & !b) | b) & b == b,
{
    assert((a & !b) & b == 0) by (bit_vector);
    assert(((a & !b) | b) & b == b) by (bit_vector);
}

} // verus!
