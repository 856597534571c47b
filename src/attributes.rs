//! A portable description of what a context was, or should be, created with.

use vstd::prelude::*;

verus! {

/// One capability of a context.
#[derive(Clone, Copy, Debug, PartialEq, Eq, Hash, Structural)]
pub enum ContextAttributeFlag {
    /// Surfaces have an alpha channel (four 8-bit channels). Without it they are
    /// RGBX or BGRX.
    Alpha,
    /// Surfaces have a 24-bit depth buffer.
    Depth,
    /// Surfaces have an 8-bit stencil buffer, possibly packed with depth.
    Stencil,
    /// The OpenGL compatibility profile is used. Without it, the core profile is.
    CompatibilityProfile,
}

impl ContextAttributeFlag {
    /// The bit that stands for this flag in the one-byte mask.
    pub open spec fn mask(self) -> u8 {
        match self {
            ContextAttributeFlag::Alpha => 0x01u8,
            ContextAttributeFlag::Depth => 0x02u8,
            ContextAttributeFlag::Stencil => 0x04u8,
            ContextAttributeFlag::CompatibilityProfile => 0x08u8,
        }
    }
}

/// The flags whose bits are set in `bits`.
pub open spec fn flags_in(bits: u8) -> Set<ContextAttributeFlag> {
    Set::new(|f: ContextAttributeFlag| bits & f.mask() != 0)
}

/// The one-byte mask of a set of flags.
pub open spec fn mask_of(s: Set<ContextAttributeFlag>) -> u8 {
    (if s.contains(ContextAttributeFlag::Alpha) { 0x01u8 } else { 0u8 })
        | (if s.contains(ContextAttributeFlag::Depth) { 0x02u8 } else { 0u8 })
        | (if s.contains(ContextAttributeFlag::Stencil) { 0x04u8 } else { 0u8 })
        | (if s.contains(ContextAttributeFlag::CompatibilityProfile) { 0x08u8 } else { 0u8 })
}

/// A set of context capabilities, held as a one-byte mask.
///
/// Any subset of the four flags is a valid value; bits outside them are never set.
#[derive(Clone, Copy, Debug, PartialEq, Eq, Hash, Structural)]
pub struct ContextAttributeFlags {
    bits: u8,
}

/// The bits that stand for some flag.
const KNOWN_BITS: u8 = 0x0f;

/// How the bit of one flag behaves under the set operations on masks.
proof fn lemma_flag_bit(x: u8, y: u8, m: u8)
    by (bit_vector)
    requires
        m == 1u8 || m == 2u8 || m == 4u8 || m == 8u8,
    ensures
        (x | y) & m != 0 <==> (x & m != 0 || y & m != 0),
        (x & y) & m != 0 <==> (x & m != 0 && y & m != 0),
        (x & !y) & m != 0 <==> (x & m != 0 && y & m == 0),
        (x & 0x0fu8) & m != 0 <==> x & m != 0,
        x == 0 ==> x & m == 0,
        x == 0x0fu8 ==> x & m != 0,
{
}

/// A mask without unknown bits is the mask of its own flags.
proof fn lemma_mask_of_flags_in(x: u8)
    requires
        x <= 0x0f,
    ensures
        mask_of(flags_in(x)) == x,
{
    assert(x == ((if x & 1u8 != 0 { 0x01u8 } else { 0u8 }) | (if x & 2u8 != 0 { 0x02u8 } else { 0u8 }) | (if x
        & 4u8 != 0 { 0x04u8 } else { 0u8 }) | (if x & 8u8 != 0 { 0x08u8 } else { 0u8 }))) by (bit_vector)
        requires
            x <= 0x0fu8,
    ;
    assert(flags_in(x).contains(ContextAttributeFlag::Alpha) == (x & 1u8 != 0));
    assert(flags_in(x).contains(ContextAttributeFlag::Depth) == (x & 2u8 != 0));
    assert(flags_in(x).contains(ContextAttributeFlag::Stencil) == (x & 4u8 != 0));
    assert(flags_in(x).contains(ContextAttributeFlag::CompatibilityProfile) == (x & 8u8 != 0));
}

impl View for ContextAttributeFlags {
    type V = Set<ContextAttributeFlag>;

    closed spec fn view(&self) -> Set<ContextAttributeFlag> {
        flags_in(self.bits)
    }
}

impl ContextAttributeFlags {
    #[verifier::type_invariant]
    closed spec fn only_known_bits(self) -> bool {
        self.bits <= KNOWN_BITS
    }

    /// The empty set, as a value.
    pub closed spec fn spec_empty() -> ContextAttributeFlags {
        ContextAttributeFlags { bits: 0 }
    }

    /// The union of two sets, as a value.
    pub closed spec fn spec_union(self, other: ContextAttributeFlags) -> ContextAttributeFlags {
        ContextAttributeFlags { bits: self.bits | other.bits }
    }

    /// The intersection of two sets, as a value.
    pub closed spec fn spec_intersection(self, other: ContextAttributeFlags) -> ContextAttributeFlags {
        ContextAttributeFlags { bits: self.bits & other.bits }
    }

    /// The flags of `self` that are not in `other`, as a value.
    pub closed spec fn spec_difference(self, other: ContextAttributeFlags) -> ContextAttributeFlags {
        ContextAttributeFlags { bits: self.bits & !other.bits }
    }

    /// The set with no flag.
    pub fn empty() -> (r: ContextAttributeFlags)
        ensures
            r == ContextAttributeFlags::spec_empty(),
            r@ == Set::<ContextAttributeFlag>::empty(),
    {
        let r = ContextAttributeFlags { bits: 0 };
        assert forall|f: ContextAttributeFlag| !r@.contains(f) by {
            lemma_flag_bit(0u8, 0u8, f.mask());
        }
        assert(r@ =~= Set::<ContextAttributeFlag>::empty());
        r
    }

    /// The set with every flag.
    pub fn all() -> (r: ContextAttributeFlags)
        ensures
            r@ == Set::<ContextAttributeFlag>::full(),
    {
        let r = ContextAttributeFlags { bits: KNOWN_BITS };
        assert forall|f: ContextAttributeFlag| r@.contains(f) by {
            lemma_flag_bit(KNOWN_BITS, 0u8, f.mask());
        }
        assert(r@ =~= Set::<ContextAttributeFlag>::full());
        r
    }

    /// The set that holds `flag` alone.
    pub fn single(flag: ContextAttributeFlag) -> (r: ContextAttributeFlags)
        ensures
            r@ == set![flag],
    {
        let bits: u8 = match flag {
            ContextAttributeFlag::Alpha => 0x01,
            ContextAttributeFlag::Depth => 0x02,
            ContextAttributeFlag::Stencil => 0x04,
            ContextAttributeFlag::CompatibilityProfile => 0x08,
        };
        let r = ContextAttributeFlags { bits };
        assert forall|f: ContextAttributeFlag| r@.contains(f) <==> f == flag by {
            let m = f.mask();
            assert(bits & m != 0 <==> bits == m) by (bit_vector)
                requires
                    bits == 1u8 || bits == 2u8 || bits == 4u8 || bits == 8u8,
                    m == 1u8 || m == 2u8 || m == 4u8 || m == 8u8,
            ;
        }
        assert(r@ =~= set![flag]);
        r
    }

    /// The set that holds the alpha flag alone.
    pub fn alpha() -> (r: ContextAttributeFlags)
        ensures
            r@ == set![ContextAttributeFlag::Alpha],
    {
        ContextAttributeFlags::single(ContextAttributeFlag::Alpha)
    }

    /// The set that holds the depth flag alone.
    pub fn depth() -> (r: ContextAttributeFlags)
        ensures
            r@ == set![ContextAttributeFlag::Depth],
    {
        ContextAttributeFlags::single(ContextAttributeFlag::Depth)
    }

    /// The set that holds the stencil flag alone.
    pub fn stencil() -> (r: ContextAttributeFlags)
        ensures
            r@ == set![ContextAttributeFlag::Stencil],
    {
        ContextAttributeFlags::single(ContextAttributeFlag::Stencil)
    }

    /// The set that holds the compatibility-profile flag alone.
    pub fn compatibility_profile() -> (r: ContextAttributeFlags)
        ensures
            r@ == set![ContextAttributeFlag::CompatibilityProfile],
    {
        ContextAttributeFlags::single(ContextAttributeFlag::CompatibilityProfile)
    }

    /// The one-byte mask: alpha 0x01, depth 0x02, stencil 0x04,
    /// compatibility profile 0x08.
    pub fn bits(&self) -> (r: u8)
        ensures
            r == mask_of(self@),
            flags_in(r) == self@,
    {
        proof {
            use_type_invariant(self);
            lemma_mask_of_flags_in(self.bits);
        }
        self.bits
    }

    /// The set whose mask is `bits`, or `None` where `bits` has a bit that
    /// stands for no flag.
    pub fn from_bits(bits: u8) -> (r: Option<ContextAttributeFlags>)
        ensures
            r is Some <==> bits <= 0x0f,
            r matches Some(v) ==> v@ == flags_in(bits) && mask_of(v@) == bits,
    {
        if bits <= KNOWN_BITS {
            proof {
                lemma_mask_of_flags_in(bits);
            }
            Some(ContextAttributeFlags { bits })
        } else {
            None
        }
    }

    /// The set of the flags whose bits are set in `bits`; other bits are dropped.
    pub fn from_bits_truncate(bits: u8) -> (r: ContextAttributeFlags)
        ensures
            r@ == flags_in(bits),
    {
        let b = bits & KNOWN_BITS;
        assert(b <= 0x0fu8) by (bit_vector)
            requires
                b == bits & 0x0fu8,
        ;
        let r = ContextAttributeFlags { bits: b };
        assert forall|f: ContextAttributeFlag| r@.contains(f) == flags_in(bits).contains(f) by {
            lemma_flag_bit(bits, 0u8, f.mask());
        }
        assert(r@ =~= flags_in(bits));
        r
    }

    /// Whether the set holds no flag.
    pub fn is_empty(&self) -> (r: bool)
        ensures
            r == (self@ == Set::<ContextAttributeFlag>::empty()),
    {
        proof {
            use_type_invariant(self);
            let x = self.bits;
            if x == 0 {
                assert forall|f: ContextAttributeFlag| !self@.contains(f) by {
                    lemma_flag_bit(x, 0u8, f.mask());
                }
                assert(self@ =~= Set::<ContextAttributeFlag>::empty());
            } else {
                assert(x & 1u8 != 0 || x & 2u8 != 0 || x & 4u8 != 0 || x & 8u8 != 0) by (bit_vector)
                    requires
                        x <= 0x0fu8,
                        x != 0,
                ;
                assert(self@.contains(ContextAttributeFlag::Alpha) || self@.contains(ContextAttributeFlag::Depth)
                    || self@.contains(ContextAttributeFlag::Stencil)
                    || self@.contains(ContextAttributeFlag::CompatibilityProfile));
            }
        }
        self.bits == 0
    }

    /// Whether every flag of `other` is in `self`.
    pub fn contains(&self, other: ContextAttributeFlags) -> (r: bool)
        ensures
            r == other@.subset_of(self@),
    {
        proof {
            use_type_invariant(self);
            use_type_invariant(other);
            let (x, y) = (self.bits, other.bits);
            if x & y == y {
                assert forall|f: ContextAttributeFlag| other@.contains(f) implies self@.contains(f) by {
                    lemma_flag_bit(x, y, f.mask());
                }
            } else {
                assert(exists|m: u8| (m == 1u8 || m == 2u8 || m == 4u8 || m == 8u8) && y & m != 0 && x & m == 0)
                    by {
                    assert((y & 1u8 != 0 && x & 1u8 == 0) || (y & 2u8 != 0 && x & 2u8 == 0)
                        || (y & 4u8 != 0 && x & 4u8 == 0) || (y & 8u8 != 0 && x & 8u8 == 0)) by (bit_vector)
                        requires
                            x & y != y,
                            y <= 0x0fu8,
                    ;
                }
                let m = choose|m: u8| (m == 1u8 || m == 2u8 || m == 4u8 || m == 8u8) && y & m != 0 && x & m == 0;
                let f = if m == 1u8 {
                    ContextAttributeFlag::Alpha
                } else if m == 2u8 {
                    ContextAttributeFlag::Depth
                } else if m == 4u8 {
                    ContextAttributeFlag::Stencil
                } else {
                    ContextAttributeFlag::CompatibilityProfile
                };
                assert(other@.contains(f) && !self@.contains(f));
            }
        }
        self.bits & other.bits == other.bits
    }

    /// The flags in either set.
    pub fn union(self, other: ContextAttributeFlags) -> (r: ContextAttributeFlags)
        ensures
            r == self.spec_union(other),
            r@ == self@.union(other@),
    {
        proof {
            use_type_invariant(self);
            use_type_invariant(other);
            let (x, y) = (self.bits, other.bits);
            assert(x | y <= 0x0fu8) by (bit_vector)
                requires
                    x <= 0x0fu8,
                    y <= 0x0fu8,
            ;
        }
        let r = ContextAttributeFlags { bits: self.bits | other.bits };
        assert forall|f: ContextAttributeFlag| r@.contains(f) == self@.union(other@).contains(f) by {
            lemma_flag_bit(self.bits, other.bits, f.mask());
        }
        assert(r@ =~= self@.union(other@));
        r
    }

    /// The flags in both sets.
    pub fn intersection(self, other: ContextAttributeFlags) -> (r: ContextAttributeFlags)
        ensures
            r == self.spec_intersection(other),
            r@ == self@.intersect(other@),
    {
        proof {
            use_type_invariant(self);
            let (x, y) = (self.bits, other.bits);
            assert(x & y <= 0x0fu8) by (bit_vector)
                requires
                    x <= 0x0fu8,
            ;
        }
        let r = ContextAttributeFlags { bits: self.bits & other.bits };
        assert forall|f: ContextAttributeFlag| r@.contains(f) == self@.intersect(other@).contains(f) by {
            lemma_flag_bit(self.bits, other.bits, f.mask());
        }
        assert(r@ =~= self@.intersect(other@));
        r
    }

    /// The flags of `self` that are not in `other`.
    pub fn difference(self, other: ContextAttributeFlags) -> (r: ContextAttributeFlags)
        ensures
            r == self.spec_difference(other),
            r@ == self@.difference(other@),
    {
        proof {
            use_type_invariant(self);
            let (x, y) = (self.bits, other.bits);
            assert(x & !y <= 0x0fu8) by (bit_vector)
                requires
                    x <= 0x0fu8,
            ;
        }
        let r = ContextAttributeFlags { bits: self.bits & !other.bits };
        assert forall|f: ContextAttributeFlag| r@.contains(f) == self@.difference(other@).contains(f) by {
            lemma_flag_bit(self.bits, other.bits, f.mask());
        }
        assert(r@ =~= self@.difference(other@));
        r
    }

    /// Adds the flags of `other`.
    pub fn insert(&mut self, other: ContextAttributeFlags)
        ensures
            *final(self) == old(self).spec_union(other),
            final(self)@ == old(self)@.union(other@),
    {
        *self = self.union(other);
    }

    /// Takes out the flags of `other`.
    pub fn remove(&mut self, other: ContextAttributeFlags)
        ensures
            *final(self) == old(self).spec_difference(other),
            final(self)@ == old(self)@.difference(other@),
    {
        *self = self.difference(other);
    }
}

} // verus!

verus! {

/// Union is associative: `(a | b) | c == a | (b | c)`.
pub proof fn lemma_union_associative(a: ContextAttributeFlags, b: ContextAttributeFlags, c: ContextAttributeFlags)
    ensures
        a.spec_union(b).spec_union(c) == a.spec_union(b.spec_union(c)),
{
    let (x, y, z) = (a.bits, b.bits, c.bits);
    assert((x | y) | z == x | (y | z)) by (bit_vector);
}

/// Union is commutative: `a | b == b | a`.
pub proof fn lemma_union_commutative(a: ContextAttributeFlags, b: ContextAttributeFlags)
    ensures
        a.spec_union(b) == b.spec_union(a),
{
    let (x, y) = (a.bits, b.bits);
    assert(x | y == y | x) by (bit_vector);
}

/// The empty set is the identity of union: `empty | a == a`.
pub proof fn lemma_union_empty(a: ContextAttributeFlags)
    ensures
        ContextAttributeFlags::spec_empty().spec_union(a) == a,
        a.spec_union(ContextAttributeFlags::spec_empty()) == a,
{
    let x = a.bits;
    assert(0u8 | x == x && x | 0u8 == x) by (bit_vector);
}

/// Intersection is associative and commutative.
pub proof fn lemma_intersection_associative_commutative(
    a: ContextAttributeFlags,
    b: ContextAttributeFlags,
    c: ContextAttributeFlags,
)
    ensures
        a.spec_intersection(b).spec_intersection(c) == a.spec_intersection(b.spec_intersection(c)),
        a.spec_intersection(b) == b.spec_intersection(a),
{
    let (x, y, z) = (a.bits, b.bits, c.bits);
    assert((x & y) & z == x & (y & z) && x & y == y & x) by (bit_vector);
}

/// Intersection and union distribute over each other:
/// `a & (b | c) == (a & b) | (a & c)` and `a | (b & c) == (a | b) & (a | c)`.
pub proof fn lemma_distributive(a: ContextAttributeFlags, b: ContextAttributeFlags, c: ContextAttributeFlags)
    ensures
        a.spec_intersection(b.spec_union(c)) == a.spec_intersection(b).spec_union(a.spec_intersection(c)),
        a.spec_union(b.spec_intersection(c)) == a.spec_union(b).spec_intersection(a.spec_union(c)),
{
    let (x, y, z) = (a.bits, b.bits, c.bits);
    assert(x & (y | z) == (x & y) | (x & z) && x | (y & z) == (x | y) & (x | z)) by (bit_vector);
}

/// Difference splits a set: `a - b` shares nothing with `b`, and together with
/// `a & b` it makes up `a`. Taking away the empty set leaves `a`, and `a - a` is empty.
pub proof fn lemma_difference(a: ContextAttributeFlags, b: ContextAttributeFlags)
    ensures
        a.spec_difference(b).spec_intersection(b) == ContextAttributeFlags::spec_empty(),
        a.spec_difference(b).spec_union(a.spec_intersection(b)) == a,
        a.spec_difference(ContextAttributeFlags::spec_empty()) == a,
        a.spec_difference(a) == ContextAttributeFlags::spec_empty(),
{
    let (x, y) = (a.bits, b.bits);
    assert((x & !y) & y == 0 && (x & !y) | (x & y) == x && x & !0u8 == x && x & !x == 0) by (bit_vector);
}

/// An OpenGL or OpenGL ES version.
///
/// The two APIs number their versions differently; which one a version belongs
/// to is known from the device the context lives on.
#[derive(Clone, Copy, Debug, PartialEq, Eq, Hash, Structural)]
pub struct GLVersion {
    /// The major version.
    pub major: u8,
    /// The minor version.
    pub minor: u8,
}

impl GLVersion {
    /// The version `major.minor`.
    pub fn new(major: u8, minor: u8) -> (r: GLVersion)
        ensures
            r.major == major,
            r.minor == minor,
    {
        GLVersion { major, minor }
    }
}

/// Attributes that control aspects of a context and of the surfaces created
/// from it.
#[derive(Clone, Copy, Debug, PartialEq, Eq, Structural)]
pub struct ContextAttributes {
    /// The OpenGL or OpenGL ES version that the context supports.
    pub version: GLVersion,
    /// The context's capabilities.
    pub flags: ContextAttributeFlags,
}

impl ContextAttributes {
    /// The sentinel for attributes not yet known: version 0.0 and no flag.
    pub open spec fn spec_zeroed() -> ContextAttributes {
        ContextAttributes {
            version: GLVersion { major: 0, minor: 0 },
            flags: ContextAttributeFlags::spec_empty(),
        }
    }

    /// The sentinel for attributes not yet known, or of a platform that has
    /// none: version 0.0 and no flag. It never describes a real context.
    pub fn zeroed() -> (r: ContextAttributes)
        ensures
            r == ContextAttributes::spec_zeroed(),
            r.version.major == 0,
            r.version.minor == 0,
            r.flags@ == Set::<ContextAttributeFlag>::empty(),
    {
        ContextAttributes { version: GLVersion::new(0, 0), flags: ContextAttributeFlags::empty() }
    }

    /// Whether these are the zeroed sentinel.
    pub fn is_zeroed(&self) -> (r: bool)
        ensures
            r == (*self == ContextAttributes::spec_zeroed()),
    {
        self.version.major == 0 && self.version.minor == 0 && self.flags.bits == 0
    }
}

/// The zeroed sentinel has version 0.0 and no flag, and differs from all
/// attributes whose version is not 0.0.
pub proof fn lemma_zeroed_distinct(a: ContextAttributes)
    requires
        a.version.major != 0 || a.version.minor != 0,
    ensures
        ContextAttributes::spec_zeroed().version == (GLVersion { major: 0, minor: 0 }),
        ContextAttributes::spec_zeroed().flags@ == Set::<ContextAttributeFlag>::empty(),
        a != ContextAttributes::spec_zeroed(),
{
    assert forall|f: ContextAttributeFlag| !ContextAttributes::spec_zeroed().flags@.contains(f) by {
        lemma_flag_bit(0u8, 0u8, f.mask());
    }
    assert(ContextAttributes::spec_zeroed().flags@ =~= Set::<ContextAttributeFlag>::empty());
}

} // verus!
