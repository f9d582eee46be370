//! A decoded class.

use crate::attributes::{Attribute, AttributeView};
use crate::components::{
    ClassAccessFlags, ClassVersion, ComponentInfoView, FieldInfo, Interface, MethodInfo,
};
use crate::const_pool::{ClassInfo, ConstPoolType, ConstPoolView};
use vstd::prelude::*;

verus! {

/// A class as its file describes it. The slot of the constant pool that the
/// file numbers `i` stands at `const_pool[i - 1]`.
#[derive(Debug, PartialEq, Eq)]
pub struct Class {
    pub version: ClassVersion,
    pub const_pool: Vec<ConstPoolType>,
    pub access: ClassAccessFlags,
    pub this_class: ClassInfo,
    /// Absent only for the class at the root of the hierarchy.
    pub super_class: Option<ClassInfo>,
    pub interfaces: Vec<Interface>,
    pub fields: Vec<FieldInfo>,
    pub methods: Vec<MethodInfo>,
    pub attributes: Vec<Attribute>,
}

/// Mathematical model of a [`Class`].
pub struct ClassView {
    pub version: ClassVersion,
    pub const_pool: Seq<ConstPoolView>,
    pub access: u16,
    pub this_class: Seq<char>,
    pub super_class: Option<Seq<char>>,
    pub interfaces: Seq<Seq<char>>,
    pub fields: Seq<ComponentInfoView>,
    pub methods: Seq<ComponentInfoView>,
    pub attributes: Seq<AttributeView>,
}

impl DeepView for Class {
    type V = ClassView;

    open spec fn deep_view(&self) -> ClassView {
        ClassView {
            version: self.version,
            const_pool: self.const_pool.deep_view(),
            access: self.access.deep_view(),
            this_class: self.this_class.deep_view(),
            super_class: self.super_class.deep_view(),
            interfaces: self.interfaces.deep_view(),
            fields: self.fields.deep_view(),
            methods: self.methods.deep_view(),
            attributes: self.attributes.deep_view(),
        }
    }
}

} // verus!
