//! The members of a class, its version and its access flags.

use crate::attributes::{Attribute, AttributeView};
use crate::const_pool::{ClassInfo, Utf8Info};
use crate::flags::only_bits;
use vstd::prelude::*;

verus! {

/// A flag of a field or a method.
#[derive(Copy, Clone, Debug, PartialEq, Eq)]
pub enum AccessSpecifier {
    Public,
    Private,
    Protected,
    Static,
    Final,
    Volatile,
    Transient,
}

/// The bits that an [`AccessSpecifierFlags`] may hold.
pub const ACCESS_SPECIFIER_MASK: u16 = 0x00df;

impl AccessSpecifier {
    /// The bit that stands for this flag.
    pub open spec fn spec_bit(self) -> u16 {
        match self {
            AccessSpecifier::Public => 0x0001,
            AccessSpecifier::Private => 0x0002,
            AccessSpecifier::Protected => 0x0004,
            AccessSpecifier::Static => 0x0008,
            AccessSpecifier::Final => 0x0010,
            AccessSpecifier::Volatile => 0x0040,
            AccessSpecifier::Transient => 0x0080,
        }
    }

    /// The bit that stands for this flag.
    #[verifier::when_used_as_spec(spec_bit)]
    pub fn bit(self) -> (b: u16)
        ensures
            b == self.spec_bit(),
            only_bits(b, ACCESS_SPECIFIER_MASK),
            b != 0,
    {
        let b: u16 = match self {
            AccessSpecifier::Public => 0x0001,
            AccessSpecifier::Private => 0x0002,
            AccessSpecifier::Protected => 0x0004,
            AccessSpecifier::Static => 0x0008,
            AccessSpecifier::Final => 0x0010,
            AccessSpecifier::Volatile => 0x0040,
            AccessSpecifier::Transient => 0x0080,
        };
        assert(only_bits(b, ACCESS_SPECIFIER_MASK)) by {
            lemma_member_bits();
        }
        b
    }
}

/// Each flag is a bit of the mask.
proof fn lemma_member_bits()
    by (bit_vector)
    ensures
        0x0001u16 & !ACCESS_SPECIFIER_MASK == 0,
        0x0002u16 & !ACCESS_SPECIFIER_MASK == 0,
        0x0004u16 & !ACCESS_SPECIFIER_MASK == 0,
        0x0008u16 & !ACCESS_SPECIFIER_MASK == 0,
        0x0010u16 & !ACCESS_SPECIFIER_MASK == 0,
        0x0040u16 & !ACCESS_SPECIFIER_MASK == 0,
        0x0080u16 & !ACCESS_SPECIFIER_MASK == 0,
{
}

/// The flags of a field or a method. A set holds no bit outside the seven flags.
#[derive(Copy, Clone, Debug, PartialEq, Eq)]
pub struct AccessSpecifierFlags {
    bits: u16,
}

impl DeepView for AccessSpecifierFlags {
    type V = u16;

    closed spec fn deep_view(&self) -> u16 {
        self.bits
    }
}

impl AccessSpecifierFlags {
    #[verifier::type_invariant]
    spec fn known_bits_only(&self) -> bool {
        only_bits(self.bits, ACCESS_SPECIFIER_MASK)
    }

    /// Whether `flag` is in the set.
    pub open spec fn spec_contains(&self, flag: AccessSpecifier) -> bool {
        self.deep_view() & flag.spec_bit() != 0
    }

    /// The set with no flag in it.
    pub fn empty() -> (set: Self)
        ensures
            set.deep_view() == 0,
    {
        assert(0u16 & !ACCESS_SPECIFIER_MASK == 0) by (bit_vector);
        AccessSpecifierFlags { bits: 0 }
    }

    /// The set that `bits` spells, or nothing where a bit of `bits` stands
    /// for no flag.
    pub fn from_bits(bits: u16) -> (set: Option<Self>)
        ensures
            set is Some <==> only_bits(bits, ACCESS_SPECIFIER_MASK),
            set matches Some(flags) ==> flags.deep_view() == bits,
    {
        if bits & !ACCESS_SPECIFIER_MASK == 0 {
            Some(AccessSpecifierFlags { bits })
        } else {
            None
        }
    }

    /// The bits of the flags in the set. No other bit is ever set.
    pub fn bits(&self) -> (bits: u16)
        ensures
            bits == self.deep_view(),
            only_bits(bits, ACCESS_SPECIFIER_MASK),
    {
        proof {
            use_type_invariant(self);
        }
        self.bits
    }

    /// Whether `flag` is in the set.
    #[verifier::when_used_as_spec(spec_contains)]
    pub fn contains(&self, flag: AccessSpecifier) -> (held: bool)
        ensures
            held == self.spec_contains(flag),
    {
        self.bits & flag.bit() != 0
    }

    /// The set with `flag` added.
    pub fn with(self, flag: AccessSpecifier) -> (set: Self)
        ensures
            set.deep_view() == self.deep_view() | flag.spec_bit(),
    {
        proof {
            use_type_invariant(&self);
        }
        let old_bits = self.bits;
        let bit = flag.bit();
        assert((old_bits | bit) & !ACCESS_SPECIFIER_MASK == 0) by (bit_vector)
            requires
                old_bits & !ACCESS_SPECIFIER_MASK == 0,
                bit & !ACCESS_SPECIFIER_MASK == 0,
        ;
        AccessSpecifierFlags { bits: old_bits | bit }
    }
}

/// A field or a method. The two have one shape; which of them a record is
/// follows from the table it stands in.
#[derive(Debug, PartialEq, Eq)]
pub struct ComponentInfo {
    pub access: AccessSpecifierFlags,
    pub name: Utf8Info,
    pub descriptor: Utf8Info,
    pub attributes: Vec<Attribute>,
}

/// Mathematical model of a [`ComponentInfo`].
pub struct ComponentInfoView {
    pub access: u16,
    pub name: Seq<char>,
    pub descriptor: Seq<char>,
    pub attributes: Seq<AttributeView>,
}

impl DeepView for ComponentInfo {
    type V = ComponentInfoView;

    open spec fn deep_view(&self) -> ComponentInfoView {
        ComponentInfoView {
            access: self.access.deep_view(),
            name: self.name@,
            descriptor: self.descriptor@,
            attributes: self.attributes.deep_view(),
        }
    }
}

/// An interface that a class implements.
pub type Interface = ClassInfo;

/// A field.
pub type FieldInfo = ComponentInfo;

/// A method.
pub type MethodInfo = ComponentInfo;

/// The version of the format that a class file is written in.
#[derive(Copy, Clone, Debug, PartialEq, Eq)]
pub struct ClassVersion {
    pub minor: u16,
    pub major: u16,
}

impl DeepView for ClassVersion {
    type V = ClassVersion;

    open spec fn deep_view(&self) -> ClassVersion {
        *self
    }
}

/// A flag of a class.
#[derive(Copy, Clone, Debug, PartialEq, Eq)]
pub enum ClassAccess {
    Public,
    Final,
    Super,
    Interface,
    Abstract,
}

/// The bits that a [`ClassAccessFlags`] may hold.
pub const CLASS_ACCESS_MASK: u16 = 0x0631;

impl ClassAccess {
    /// The bit that stands for this flag.
    pub open spec fn spec_bit(self) -> u16 {
        match self {
            ClassAccess::Public => 0x0001,
            ClassAccess::Final => 0x0010,
            ClassAccess::Super => 0x0020,
            ClassAccess::Interface => 0x0200,
            ClassAccess::Abstract => 0x0400,
        }
    }

    /// The bit that stands for this flag.
    #[verifier::when_used_as_spec(spec_bit)]
    pub fn bit(self) -> (b: u16)
        ensures
            b == self.spec_bit(),
            only_bits(b, CLASS_ACCESS_MASK),
            b != 0,
    {
        let b: u16 = match self {
            ClassAccess::Public => 0x0001,
            ClassAccess::Final => 0x0010,
            ClassAccess::Super => 0x0020,
            ClassAccess::Interface => 0x0200,
            ClassAccess::Abstract => 0x0400,
        };
        assert(only_bits(b, CLASS_ACCESS_MASK)) by {
            lemma_class_bits();
        }
        b
    }
}

/// Each flag is a bit of the mask.
proof fn lemma_class_bits()
    by (bit_vector)
    ensures
        0x0001u16 & !CLASS_ACCESS_MASK == 0,
        0x0010u16 & !CLASS_ACCESS_MASK == 0,
        0x0020u16 & !CLASS_ACCESS_MASK == 0,
        0x0200u16 & !CLASS_ACCESS_MASK == 0,
        0x0400u16 & !CLASS_ACCESS_MASK == 0,
{
}

/// The flags of a class. A set holds no bit outside the five flags.
#[derive(Copy, Clone, Debug, PartialEq, Eq)]
pub struct ClassAccessFlags {
    bits: u16,
}

impl DeepView for ClassAccessFlags {
    type V = u16;

    closed spec fn deep_view(&self) -> u16 {
        self.bits
    }
}

impl ClassAccessFlags {
    #[verifier::type_invariant]
    spec fn known_bits_only(&self) -> bool {
        only_bits(self.bits, CLASS_ACCESS_MASK)
    }

    /// Whether `flag` is in the set.
    pub open spec fn spec_contains(&self, flag: ClassAccess) -> bool {
        self.deep_view() & flag.spec_bit() != 0
    }

    /// The set with no flag in it.
    pub fn empty() -> (set: Self)
        ensures
            set.deep_view() == 0,
    {
        assert(0u16 & !CLASS_ACCESS_MASK == 0) by (bit_vector);
        ClassAccessFlags { bits: 0 }
    }

    /// The set that `bits` spells, or nothing where a bit of `bits` stands
    /// for no flag.
    pub fn from_bits(bits: u16) -> (set: Option<Self>)
        ensures
            set is Some <==> only_bits(bits, CLASS_ACCESS_MASK),
            set matches Some(flags) ==> flags.deep_view() == bits,
    {
        if bits & !CLASS_ACCESS_MASK == 0 {
            Some(ClassAccessFlags { bits })
        } else {
            None
        }
    }

    /// The bits of the flags in the set. No other bit is ever set.
    pub fn bits(&self) -> (bits: u16)
        ensures
            bits == self.deep_view(),
            only_bits(bits, CLASS_ACCESS_MASK),
    {
        proof {
            use_type_invariant(self);
        }
        self.bits
    }

    /// Whether `flag` is in the set.
    #[verifier::when_used_as_spec(spec_contains)]
    pub fn contains(&self, flag: ClassAccess) -> (held: bool)
        ensures
            held == self.spec_contains(flag),
    {
        self.bits & flag.bit() != 0
    }

    /// The set with `flag` added.
    pub fn with(self, flag: ClassAccess) -> (set: Self)
        ensures
            set.deep_view() == self.deep_view() | flag.spec_bit(),
    {
        proof {
            use_type_invariant(&self);
        }
        let old_bits = self.bits;
        let bit = flag.bit();
        assert((old_bits | bit) & !CLASS_ACCESS_MASK == 0) by (bit_vector)
            requires
                old_bits & !CLASS_ACCESS_MASK == 0,
                bit & !CLASS_ACCESS_MASK == 0,
        ;
        ClassAccessFlags { bits: old_bits | bit }
    }
}

} // verus!
