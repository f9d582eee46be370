//! The entries of a linked constant pool.
//!
//! After linking no entry holds an index: every reference is a handle to
//! the payload it named. `Utf8` payloads are shared between the entries
//! that name them.

use crate::reader::share;
use std::rc::Rc;
use vstd::prelude::*;

verus! {

/// An immutable shared string.
pub type Utf8Info = Rc<String>;

/// The bit pattern of an IEEE-754 single.
pub type FloatInfo = u32;

/// The bit pattern of an IEEE-754 double.
pub type DoubleInfo = u64;

/// A 32-bit number.
pub type IntInfo = i32;

/// A 64-bit number.
pub type LongInfo = i64;

/// The text of a string constant.
pub type StringInfo = Utf8Info;

/// A class, named by its internal (`/`-separated) name.
#[derive(Debug, PartialEq, Eq)]
pub struct ClassInfo(pub Utf8Info);

impl DeepView for ClassInfo {
    type V = Seq<char>;

    open spec fn deep_view(&self) -> Seq<char> {
        self.0@
    }
}

impl Clone for ClassInfo {
    fn clone(&self) -> (other: Self)
        ensures
            other == *self,
    {
        ClassInfo(share(&self.0))
    }
}

/// A name together with a descriptor.
#[derive(Debug, PartialEq, Eq)]
pub struct NameAndTypeInfoStruct {
    pub name: Utf8Info,
    pub descriptor: Utf8Info,
}

/// Mathematical model of a [`NameAndTypeInfoStruct`].
pub struct NameAndTypeView {
    pub name: Seq<char>,
    pub descriptor: Seq<char>,
}

impl DeepView for NameAndTypeInfoStruct {
    type V = NameAndTypeView;

    open spec fn deep_view(&self) -> NameAndTypeView {
        NameAndTypeView { name: self.name@, descriptor: self.descriptor@ }
    }
}

impl Clone for NameAndTypeInfoStruct {
    fn clone(&self) -> (other: Self)
        ensures
            other == *self,
    {
        NameAndTypeInfoStruct { name: share(&self.name), descriptor: share(&self.descriptor) }
    }
}

/// A shared name and descriptor.
pub type NameAndTypeInfo = Rc<NameAndTypeInfoStruct>;

/// A member of a class: the class, and the member's name and descriptor.
#[derive(Debug, PartialEq, Eq)]
pub struct ComponentRef {
    pub class: ClassInfo,
    pub name_and_type: NameAndTypeInfo,
}

/// Mathematical model of a [`ComponentRef`].
pub struct ComponentRefView {
    pub class: Seq<char>,
    pub name_and_type: NameAndTypeView,
}

impl DeepView for ComponentRef {
    type V = ComponentRefView;

    open spec fn deep_view(&self) -> ComponentRefView {
        ComponentRefView {
            class: self.class.deep_view(),
            name_and_type: self.name_and_type.deep_view(),
        }
    }
}

impl Clone for ComponentRef {
    fn clone(&self) -> (other: Self)
        ensures
            other == *self,
    {
        ComponentRef { class: self.class.clone(), name_and_type: share(&self.name_and_type) }
    }
}

/// A reference to a field.
pub type FieldRefInfo = ComponentRef;

/// A reference to a method of a class.
pub type MethodRefInfo = ComponentRef;

/// A reference to a method of an interface.
pub type InterfaceMethodRefInfo = ComponentRef;

/// One slot of a linked constant pool.
#[derive(Debug, PartialEq, Eq)]
pub enum ConstPoolType {
    Utf8(Utf8Info),
    Float(FloatInfo),
    Double(DoubleInfo),
    Int(IntInfo),
    Long(LongInfo),
    String(StringInfo),
    Class(ClassInfo),
    NameAndType(NameAndTypeInfo),
    Field(FieldRefInfo),
    MethodRef(MethodRefInfo),
    InterfaceMethodRef(InterfaceMethodRefInfo),
    /// The slot behind a `Long` or a `Double`. It keeps the positions of
    /// the later slots and can never be referred to.
    Reserved,
}

/// Mathematical model of a [`ConstPoolType`].
pub enum ConstPoolView {
    Utf8(Seq<char>),
    Float(u32),
    Double(u64),
    Int(i32),
    Long(i64),
    String(Seq<char>),
    Class(Seq<char>),
    NameAndType(NameAndTypeView),
    Field(ComponentRefView),
    MethodRef(ComponentRefView),
    InterfaceMethodRef(ComponentRefView),
    Reserved,
}

impl DeepView for ConstPoolType {
    type V = ConstPoolView;

    open spec fn deep_view(&self) -> ConstPoolView {
        match self {
            ConstPoolType::Utf8(text) => ConstPoolView::Utf8(text@),
            ConstPoolType::Float(bits) => ConstPoolView::Float(*bits),
            ConstPoolType::Double(bits) => ConstPoolView::Double(*bits),
            ConstPoolType::Int(value) => ConstPoolView::Int(*value),
            ConstPoolType::Long(value) => ConstPoolView::Long(*value),
            ConstPoolType::String(text) => ConstPoolView::String(text@),
            ConstPoolType::Class(class) => ConstPoolView::Class(class.deep_view()),
            ConstPoolType::NameAndType(pair) => ConstPoolView::NameAndType(pair.deep_view()),
            ConstPoolType::Field(member) => ConstPoolView::Field(member.deep_view()),
            ConstPoolType::MethodRef(member) => ConstPoolView::MethodRef(member.deep_view()),
            ConstPoolType::InterfaceMethodRef(member) => ConstPoolView::InterfaceMethodRef(
                member.deep_view(),
            ),
            ConstPoolType::Reserved => ConstPoolView::Reserved,
        }
    }
}

impl Clone for ConstPoolType {
    fn clone(&self) -> (other: Self)
        ensures
            other == *self,
    {
        match self {
            ConstPoolType::Utf8(text) => ConstPoolType::Utf8(share(text)),
            ConstPoolType::Float(bits) => ConstPoolType::Float(*bits),
            ConstPoolType::Double(bits) => ConstPoolType::Double(*bits),
            ConstPoolType::Int(value) => ConstPoolType::Int(*value),
            ConstPoolType::Long(value) => ConstPoolType::Long(*value),
            ConstPoolType::String(text) => ConstPoolType::String(share(text)),
            ConstPoolType::Class(class) => ConstPoolType::Class(class.clone()),
            ConstPoolType::NameAndType(pair) => ConstPoolType::NameAndType(share(pair)),
            ConstPoolType::Field(member) => ConstPoolType::Field(member.clone()),
            ConstPoolType::MethodRef(member) => ConstPoolType::MethodRef(member.clone()),
            ConstPoolType::InterfaceMethodRef(member) => ConstPoolType::InterfaceMethodRef(
                member.clone(),
            ),
            ConstPoolType::Reserved => ConstPoolType::Reserved,
        }
    }
}

impl ConstPoolView {
    /// Whether the entry takes two slots of the pool.
    pub open spec fn is_wide(self) -> bool {
        self is Long || self is Double
    }
}

impl ConstPoolType {
    /// Whether the entry takes two slots of the pool.
    pub fn is_wide(&self) -> (wide: bool)
        ensures
            wide == self.deep_view().is_wide(),
    {
        match self {
            ConstPoolType::Long(_) => true,
            ConstPoolType::Double(_) => true,
            _ => false,
        }
    }
}

} // verus!
