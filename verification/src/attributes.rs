//! The attributes of a class, of a member and of a `Code` attribute.

use crate::const_pool::{ClassInfo, DoubleInfo, FloatInfo, IntInfo, LongInfo, StringInfo, Utf8Info};
use crate::flags::only_bits;
use vstd::prelude::*;

verus! {

/// The constant that a `ConstantValue` attribute gives a field.
#[derive(Debug, PartialEq, Eq)]
pub enum ConstValueType {
    Float(FloatInfo),
    Double(DoubleInfo),
    Int(IntInfo),
    Long(LongInfo),
    String(StringInfo),
}

/// Mathematical model of a [`ConstValueType`].
pub enum ConstValueView {
    Float(u32),
    Double(u64),
    Int(i32),
    Long(i64),
    String(Seq<char>),
}

impl DeepView for ConstValueType {
    type V = ConstValueView;

    open spec fn deep_view(&self) -> ConstValueView {
        match self {
            ConstValueType::Float(bits) => ConstValueView::Float(*bits),
            ConstValueType::Double(bits) => ConstValueView::Double(*bits),
            ConstValueType::Int(value) => ConstValueView::Int(*value),
            ConstValueType::Long(value) => ConstValueView::Long(*value),
            ConstValueType::String(text) => ConstValueView::String(text@),
        }
    }
}

/// The constant value of a field.
#[derive(Debug, PartialEq, Eq)]
pub struct ConstantValueAttribute {
    pub value: ConstValueType,
}

impl DeepView for ConstantValueAttribute {
    type V = ConstValueView;

    open spec fn deep_view(&self) -> ConstValueView {
        self.value.deep_view()
    }
}

/// One handler of a method body. Without a `catch_type` it catches
/// everything.
#[derive(Debug, PartialEq, Eq)]
pub struct ExceptionEntry {
    pub start_pc: u16,
    pub end_pc: u16,
    pub handler_pc: u16,
    pub catch_type: Option<ClassInfo>,
}

/// Mathematical model of an [`ExceptionEntry`].
pub struct ExceptionEntryView {
    pub start_pc: u16,
    pub end_pc: u16,
    pub handler_pc: u16,
    pub catch_type: Option<Seq<char>>,
}

impl DeepView for ExceptionEntry {
    type V = ExceptionEntryView;

    open spec fn deep_view(&self) -> ExceptionEntryView {
        ExceptionEntryView {
            start_pc: self.start_pc,
            end_pc: self.end_pc,
            handler_pc: self.handler_pc,
            catch_type: self.catch_type.deep_view(),
        }
    }
}

/// An attribute of a `Code` attribute. Whatever is neither a line number
/// table nor a local variable table is kept as `Unknown`.
#[derive(Debug, PartialEq, Eq)]
pub enum CodeAttributes {
    LineNumberTable(LineNumberTableAttribute),
    LocalVariableTable(LocalVariableTableAttribute),
    Unknown(UnknownAttribute),
}

/// Mathematical model of a [`CodeAttributes`].
pub enum CodeAttributesView {
    LineNumberTable(Seq<LineNumberEntry>),
    LocalVariableTable(Seq<LocalVariableEntryView>),
    Unknown(UnknownAttribute),
}

impl DeepView for CodeAttributes {
    type V = CodeAttributesView;

    open spec fn deep_view(&self) -> CodeAttributesView {
        match self {
            CodeAttributes::LineNumberTable(table) => CodeAttributesView::LineNumberTable(
                table.deep_view(),
            ),
            CodeAttributes::LocalVariableTable(table) => CodeAttributesView::LocalVariableTable(
                table.deep_view(),
            ),
            CodeAttributes::Unknown(other) => CodeAttributesView::Unknown(*other),
        }
    }
}

/// The body of a method. The code is kept as it stands in the file.
#[derive(Debug, PartialEq, Eq)]
pub struct CodeAttribute {
    pub max_stack: u16,
    pub max_local: u16,
    pub code: Vec<u8>,
    pub exceptions: Vec<ExceptionEntry>,
    pub attributes: Vec<CodeAttributes>,
}

/// Mathematical model of a [`CodeAttribute`].
pub struct CodeAttributeView {
    pub max_stack: u16,
    pub max_local: u16,
    pub code: Seq<u8>,
    pub exceptions: Seq<ExceptionEntryView>,
    pub attributes: Seq<CodeAttributesView>,
}

impl DeepView for CodeAttribute {
    type V = CodeAttributeView;

    open spec fn deep_view(&self) -> CodeAttributeView {
        CodeAttributeView {
            max_stack: self.max_stack,
            max_local: self.max_local,
            code: self.code.deep_view(),
            exceptions: self.exceptions.deep_view(),
            attributes: self.attributes.deep_view(),
        }
    }
}

/// The classes that a method may throw.
#[derive(Debug, PartialEq, Eq)]
pub struct ExceptionsAttribute {
    pub exceptions_classes: Vec<ClassInfo>,
}

impl DeepView for ExceptionsAttribute {
    type V = Seq<Seq<char>>;

    open spec fn deep_view(&self) -> Seq<Seq<char>> {
        self.exceptions_classes.deep_view()
    }
}

/// A flag of an inner class.
#[derive(Copy, Clone, Debug, PartialEq, Eq)]
pub enum ClassAccessSpecifier {
    Public,
    Private,
    Protected,
    Static,
    Final,
    Interface,
    Abstract,
}

/// The bits that a [`ClassAccessSpecifierFlags`] may hold.
pub const CLASS_ACCESS_SPECIFIER_MASK: u16 = 0x00df;

impl ClassAccessSpecifier {
    /// The bit that stands for this flag.
    pub open spec fn spec_bit(self) -> u16 {
        match self {
            ClassAccessSpecifier::Public => 0x0001,
            ClassAccessSpecifier::Private => 0x0002,
            ClassAccessSpecifier::Protected => 0x0004,
            ClassAccessSpecifier::Static => 0x0008,
            ClassAccessSpecifier::Final => 0x0010,
            ClassAccessSpecifier::Interface => 0x0040,
            ClassAccessSpecifier::Abstract => 0x0080,
        }
    }

    /// The bit that stands for this flag.
    #[verifier::when_used_as_spec(spec_bit)]
    pub fn bit(self) -> (b: u16)
        ensures
            b == self.spec_bit(),
            only_bits(b, CLASS_ACCESS_SPECIFIER_MASK),
            b != 0,
    {
        let b: u16 = match self {
            ClassAccessSpecifier::Public => 0x0001,
            ClassAccessSpecifier::Private => 0x0002,
            ClassAccessSpecifier::Protected => 0x0004,
            ClassAccessSpecifier::Static => 0x0008,
            ClassAccessSpecifier::Final => 0x0010,
            ClassAccessSpecifier::Interface => 0x0040,
            ClassAccessSpecifier::Abstract => 0x0080,
        };
        assert(only_bits(b, CLASS_ACCESS_SPECIFIER_MASK)) by {
            lemma_inner_class_bits();
        }
        b
    }
}

/// Each flag is a bit of the mask.
proof fn lemma_inner_class_bits()
    by (bit_vector)
    ensures
        0x0001u16 & !CLASS_ACCESS_SPECIFIER_MASK == 0,
        0x0002u16 & !CLASS_ACCESS_SPECIFIER_MASK == 0,
        0x0004u16 & !CLASS_ACCESS_SPECIFIER_MASK == 0,
        0x0008u16 & !CLASS_ACCESS_SPECIFIER_MASK == 0,
        0x0010u16 & !CLASS_ACCESS_SPECIFIER_MASK == 0,
        0x0040u16 & !CLASS_ACCESS_SPECIFIER_MASK == 0,
        0x0080u16 & !CLASS_ACCESS_SPECIFIER_MASK == 0,
{
}

/// The flags of an inner class. A set holds no bit outside the seven flags.
#[derive(Copy, Clone, Debug, PartialEq, Eq)]
pub struct ClassAccessSpecifierFlags {
    bits: u16,
}

impl DeepView for ClassAccessSpecifierFlags {
    type V = u16;

    closed spec fn deep_view(&self) -> u16 {
        self.bits
    }
}

impl ClassAccessSpecifierFlags {
    #[verifier::type_invariant]
    spec fn known_bits_only(&self) -> bool {
        only_bits(self.bits, CLASS_ACCESS_SPECIFIER_MASK)
    }

    /// Whether `flag` is in the set.
    pub open spec fn spec_contains(&self, flag: ClassAccessSpecifier) -> bool {
        self.deep_view() & flag.spec_bit() != 0
    }

    /// The set with no flag in it.
    pub fn empty() -> (set: Self)
        ensures
            set.deep_view() == 0,
    {
        assert(0u16 & !CLASS_ACCESS_SPECIFIER_MASK == 0) by (bit_vector);
        ClassAccessSpecifierFlags { bits: 0 }
    }

    /// The set that `bits` spells, or nothing where a bit of `bits` stands
    /// for no flag.
    pub fn from_bits(bits: u16) -> (set: Option<Self>)
        ensures
            set is Some <==> only_bits(bits, CLASS_ACCESS_SPECIFIER_MASK),
            set matches Some(flags) ==> flags.deep_view() == bits,
    {
        if bits & !CLASS_ACCESS_SPECIFIER_MASK == 0 {
            Some(ClassAccessSpecifierFlags { bits })
        } else {
            None
        }
    }

    /// The bits of the flags in the set. No other bit is ever set.
    pub fn bits(&self) -> (bits: u16)
        ensures
            bits == self.deep_view(),
            only_bits(bits, CLASS_ACCESS_SPECIFIER_MASK),
    {
        proof {
            use_type_invariant(self);
        }
        self.bits
    }

    /// Whether `flag` is in the set.
    #[verifier::when_used_as_spec(spec_contains)]
    pub fn contains(&self, flag: ClassAccessSpecifier) -> (held: bool)
        ensures
            held == self.spec_contains(flag),
    {
        self.bits & flag.bit() != 0
    }

    /// The set with `flag` added.
    pub fn with(self, flag: ClassAccessSpecifier) -> (set: Self)
        ensures
            set.deep_view() == self.deep_view() | flag.spec_bit(),
    {
        proof {
            use_type_invariant(&self);
        }
        let old_bits = self.bits;
        let bit = flag.bit();
        assert((old_bits | bit) & !CLASS_ACCESS_SPECIFIER_MASK == 0) by (bit_vector)
            requires
                old_bits & !CLASS_ACCESS_SPECIFIER_MASK == 0,
                bit & !CLASS_ACCESS_SPECIFIER_MASK == 0,
        ;
        ClassAccessSpecifierFlags { bits: old_bits | bit }
    }
}

/// One entry of an `InnerClasses` attribute.
#[derive(Debug, PartialEq, Eq)]
pub struct ClassEntry {
    pub inner_class_info: Option<ClassInfo>,
    pub outer_class_info: Option<ClassInfo>,
    pub name: Utf8Info,
    pub access: ClassAccessSpecifierFlags,
}

/// Mathematical model of a [`ClassEntry`].
pub struct ClassEntryView {
    pub inner_class_info: Option<Seq<char>>,
    pub outer_class_info: Option<Seq<char>>,
    pub name: Seq<char>,
    pub access: u16,
}

impl DeepView for ClassEntry {
    type V = ClassEntryView;

    open spec fn deep_view(&self) -> ClassEntryView {
        ClassEntryView {
            inner_class_info: self.inner_class_info.deep_view(),
            outer_class_info: self.outer_class_info.deep_view(),
            name: self.name@,
            access: self.access.deep_view(),
        }
    }
}

/// The inner classes that a class file speaks of.
#[derive(Debug, PartialEq, Eq)]
pub struct InnerClassesAttribute {
    pub classes: Vec<ClassEntry>,
}

impl DeepView for InnerClassesAttribute {
    type V = Seq<ClassEntryView>;

    open spec fn deep_view(&self) -> Seq<ClassEntryView> {
        self.classes.deep_view()
    }
}

/// The name of the file that a class was compiled from.
#[derive(Debug, PartialEq, Eq)]
pub struct SourceFileAttribute {
    pub file: Utf8Info,
}

impl DeepView for SourceFileAttribute {
    type V = Seq<char>;

    open spec fn deep_view(&self) -> Seq<char> {
        self.file@
    }
}

/// The line of the source at which the code at `start_pc` begins.
#[derive(Copy, Clone, Debug, PartialEq, Eq)]
pub struct LineNumberEntry {
    pub start_pc: u16,
    pub line: u16,
}

impl DeepView for LineNumberEntry {
    type V = LineNumberEntry;

    open spec fn deep_view(&self) -> LineNumberEntry {
        *self
    }
}

/// The lines of the source that the code of a method comes from.
#[derive(Debug, PartialEq, Eq)]
pub struct LineNumberTableAttribute {
    pub lines: Vec<LineNumberEntry>,
}

impl DeepView for LineNumberTableAttribute {
    type V = Seq<LineNumberEntry>;

    open spec fn deep_view(&self) -> Seq<LineNumberEntry> {
        self.lines.deep_view()
    }
}

/// A local variable and the stretch of code in which it has a value.
#[derive(Debug, PartialEq, Eq)]
pub struct LocalVariableEntry {
    pub start_pc: u16,
    pub length: u16,
    pub name: Utf8Info,
    pub descriptor: Utf8Info,
    pub index: u16,
}

/// Mathematical model of a [`LocalVariableEntry`].
pub struct LocalVariableEntryView {
    pub start_pc: u16,
    pub length: u16,
    pub name: Seq<char>,
    pub descriptor: Seq<char>,
    pub index: u16,
}

impl DeepView for LocalVariableEntry {
    type V = LocalVariableEntryView;

    open spec fn deep_view(&self) -> LocalVariableEntryView {
        LocalVariableEntryView {
            start_pc: self.start_pc,
            length: self.length,
            name: self.name@,
            descriptor: self.descriptor@,
            index: self.index,
        }
    }
}

/// The local variables of a method.
#[derive(Debug, PartialEq, Eq)]
pub struct LocalVariableTableAttribute {
    pub variables: Vec<LocalVariableEntry>,
}

impl DeepView for LocalVariableTableAttribute {
    type V = Seq<LocalVariableEntryView>;

    open spec fn deep_view(&self) -> Seq<LocalVariableEntryView> {
        self.variables.deep_view()
    }
}

/// The mark of a class or a member that is no longer to be used.
#[derive(Copy, Clone, Debug, PartialEq, Eq)]
pub struct DeprecatedAttribute {
}

impl DeepView for DeprecatedAttribute {
    type V = DeprecatedAttribute;

    open spec fn deep_view(&self) -> DeprecatedAttribute {
        *self
    }
}

/// An attribute that the decoder does not know. Only the length that the
/// file declares for it is kept.
#[derive(Copy, Clone, Debug, PartialEq, Eq)]
pub struct UnknownAttribute {
    pub size: u32,
}

impl DeepView for UnknownAttribute {
    type V = UnknownAttribute;

    open spec fn deep_view(&self) -> UnknownAttribute {
        *self
    }
}

/// The mark of a member that does not stand in the source.
#[derive(Copy, Clone, Debug, PartialEq, Eq)]
pub struct SyntheticAttribute {
}

impl DeepView for SyntheticAttribute {
    type V = SyntheticAttribute;

    open spec fn deep_view(&self) -> SyntheticAttribute {
        *self
    }
}

/// An attribute of a class, a field or a method.
#[derive(Debug, PartialEq, Eq)]
pub enum Attribute {
    Code(CodeAttribute),
    Exceptions(ExceptionsAttribute),
    InnerClasses(InnerClassesAttribute),
    SourceFile(SourceFileAttribute),
    LineNumberTable(LineNumberTableAttribute),
    LocalVariableTable(LocalVariableTableAttribute),
    Deprecated(DeprecatedAttribute),
    ConstantValue(ConstantValueAttribute),
    Synthetic(SyntheticAttribute),
    Unknown(UnknownAttribute),
}

/// Mathematical model of an [`Attribute`].
pub enum AttributeView {
    Code(CodeAttributeView),
    Exceptions(Seq<Seq<char>>),
    InnerClasses(Seq<ClassEntryView>),
    SourceFile(Seq<char>),
    LineNumberTable(Seq<LineNumberEntry>),
    LocalVariableTable(Seq<LocalVariableEntryView>),
    Deprecated,
    ConstantValue(ConstValueView),
    Synthetic,
    Unknown(UnknownAttribute),
}

impl DeepView for Attribute {
    type V = AttributeView;

    open spec fn deep_view(&self) -> AttributeView {
        match self {
            Attribute::Code(code) => AttributeView::Code(code.deep_view()),
            Attribute::Exceptions(thrown) => AttributeView::Exceptions(thrown.deep_view()),
            Attribute::InnerClasses(inner) => AttributeView::InnerClasses(inner.deep_view()),
            Attribute::SourceFile(source) => AttributeView::SourceFile(source.deep_view()),
            Attribute::LineNumberTable(table) => AttributeView::LineNumberTable(table.deep_view()),
            Attribute::LocalVariableTable(table) => AttributeView::LocalVariableTable(
                table.deep_view(),
            ),
            Attribute::Deprecated(_) => AttributeView::Deprecated,
            Attribute::ConstantValue(constant) => AttributeView::ConstantValue(
                constant.deep_view(),
            ),
            Attribute::Synthetic(_) => AttributeView::Synthetic,
            Attribute::Unknown(other) => AttributeView::Unknown(*other),
        }
    }
}

} // verus!
