//! Access flags: a decoded class holds no flag outside the set of its
//! place, and a bit outside the set fails the decode.

use crate::attributes::{
    Attribute, AttributeView, ClassEntry, ClassEntryView, CLASS_ACCESS_SPECIFIER_MASK,
};
use crate::class::{Class, ClassView};
use crate::components::{
    ClassVersion, ComponentInfo, ComponentInfoView, ACCESS_SPECIFIER_MASK, CLASS_ACCESS_MASK,
};
use crate::const_pool::{ClassInfo, ConstPoolView, Utf8Info};
use crate::deserialization::attribute::{spec_flag_text, spec_flags};
use crate::deserialization::pool::{spec_const_pool, spec_super_class};
use crate::deserialization::{spec_class, spec_class_body};
use crate::error::ErrorView;
use crate::flags::only_bits;
use crate::grammar::{linked_item, spec_table, Deserializable, DeserializableLinked};
use crate::reader::{spec_read_u16, spec_read_u32};
use crate::theorems::runs::lemma_table_all;
use vstd::prelude::*;

verus! {

/// Flags with a bit outside `mask` fail with a parsing error, whatever
/// follows them.
pub proof fn lemma_stray_flag_is_rejected(s: Seq<u8>, pos: int, mask: u16)
    requires
        spec_read_u16(s, pos) matches Ok((bits, _)) && !only_bits(bits, mask),
    ensures
        spec_flags(s, pos, mask) == Err::<(u16, int), ErrorView>(
            ErrorView::Parsing(spec_flag_text()),
        ),
{
}

/// Whether the inner classes that an attribute lists hold only flags of
/// inner classes.
pub open spec fn attribute_flags_known(attribute: AttributeView) -> bool {
    attribute matches AttributeView::InnerClasses(classes) ==> forall|i: int|
        0 <= i < classes.len() ==> only_bits(
            (#[trigger] classes[i]).access,
            CLASS_ACCESS_SPECIFIER_MASK,
        )
}

/// Whether a field or a method holds only flags of members, and its
/// attributes only flags of inner classes.
pub open spec fn member_flags_known(member: ComponentInfoView) -> bool {
    &&& only_bits(member.access, ACCESS_SPECIFIER_MASK)
    &&& forall|i: int|
        0 <= i < member.attributes.len() ==> attribute_flags_known(#[trigger] member.attributes[i])
}

/// Whether every set of flags in a class holds only flags of its place.
pub open spec fn class_flags_known(class: ClassView) -> bool {
    &&& only_bits(class.access, CLASS_ACCESS_MASK)
    &&& forall|i: int|
        0 <= i < class.fields.len() ==> member_flags_known(#[trigger] class.fields[i])
    &&& forall|i: int|
        0 <= i < class.methods.len() ==> member_flags_known(#[trigger] class.methods[i])
    &&& forall|i: int|
        0 <= i < class.attributes.len() ==> attribute_flags_known(#[trigger] class.attributes[i])
}

/// An entry of an `InnerClasses` attribute that decodes holds only flags
/// of inner classes.
pub proof fn lemma_class_entry_flags(s: Seq<u8>, pos: int, pool: Seq<ConstPoolView>)
    ensures
        ClassEntry::linked_grammar(s, pos, pool) matches Ok((entry, _)) ==> only_bits(
            entry.access,
            CLASS_ACCESS_SPECIFIER_MASK,
        ),
{
}

/// An attribute that decodes holds only flags of inner classes.
pub proof fn lemma_attribute_flags(s: Seq<u8>, pos: int, pool: Seq<ConstPoolView>)
    ensures
        Attribute::linked_grammar(s, pos, pool) matches Ok((attribute, _))
            ==> attribute_flags_known(attribute),
{
    match Attribute::linked_grammar(s, pos, pool) {
        Ok((AttributeView::InnerClasses(classes), _)) => {
            let p = Utf8Info::linked_grammar(s, pos, pool)->Ok_0.1;
            let q = spec_read_u32(s, p)->Ok_0.1;
            let item = linked_item::<ClassEntry>(s, pool);
            let good = |entry: ClassEntryView| only_bits(entry.access, CLASS_ACCESS_SPECIFIER_MASK);
            assert forall|at: int| (#[trigger] item(at)) is Ok implies good(item(at)->Ok_0.0) by {
                lemma_class_entry_flags(s, at, pool);
            }
            lemma_table_all(item, s, q, good);
        },
        _ => {},
    }
}

/// A field or a method that decodes holds only flags of its place.
pub proof fn lemma_member_flags(s: Seq<u8>, pos: int, pool: Seq<ConstPoolView>)
    ensures
        ComponentInfo::linked_grammar(s, pos, pool) matches Ok((member, _)) ==> member_flags_known(
            member,
        ),
{
    match ComponentInfo::linked_grammar(s, pos, pool) {
        Ok((member, _)) => {
            let at1 = spec_flags(s, pos, ACCESS_SPECIFIER_MASK)->Ok_0.1;
            let at2 = Utf8Info::linked_grammar(s, at1, pool)->Ok_0.1;
            let at3 = Utf8Info::linked_grammar(s, at2, pool)->Ok_0.1;
            lemma_attributes_flags(s, at3, pool);
        },
        _ => {},
    }
}

/// The attributes of a table that decodes hold only flags of inner
/// classes.
pub proof fn lemma_attributes_flags(s: Seq<u8>, pos: int, pool: Seq<ConstPoolView>)
    ensures
        spec_table(linked_item::<Attribute>(s, pool), s, pos) matches Ok((attributes, _))
            ==> forall|i: int|
            0 <= i < attributes.len() ==> attribute_flags_known(#[trigger] attributes[i]),
{
    let item = linked_item::<Attribute>(s, pool);
    let good = |attribute: AttributeView| attribute_flags_known(attribute);
    assert forall|at: int| (#[trigger] item(at)) is Ok implies good(item(at)->Ok_0.0) by {
        lemma_attribute_flags(s, at, pool);
    }
    lemma_table_all(item, s, pos, good);
}

/// The members of a table that decodes hold only flags of their place.
pub proof fn lemma_members_flags(s: Seq<u8>, pos: int, pool: Seq<ConstPoolView>)
    ensures
        spec_table(linked_item::<ComponentInfo>(s, pool), s, pos) matches Ok((members, _))
            ==> forall|i: int| 0 <= i < members.len() ==> member_flags_known(#[trigger] members[i]),
{
    let item = linked_item::<ComponentInfo>(s, pool);
    let good = |member: ComponentInfoView| member_flags_known(member);
    assert forall|at: int| (#[trigger] item(at)) is Ok implies good(item(at)->Ok_0.0) by {
        lemma_member_flags(s, at, pool);
    }
    lemma_table_all(item, s, pos, good);
}

/// Every set of flags in a decoded class holds only flags of its place:
/// the class those of classes, fields and methods those of members, and
/// the entries of `InnerClasses` attributes those of inner classes.
pub proof fn lemma_decoded_flags_are_known(s: Seq<u8>)
    ensures
        spec_class(s) matches Ok(class) ==> class_flags_known(class),
{
    match Class::grammar(s, 0) {
        Ok((class, _)) => {
            let at1 = spec_read_u32(s, 0)->Ok_0.1;
            let at2 = ClassVersion::grammar(s, at1)->Ok_0.1;
            let (pool, at3) = spec_const_pool(s, at2)->Ok_0;
            assert(spec_class_body(s, at3, class.version, pool) is Ok);
            let b1 = spec_flags(s, at3, CLASS_ACCESS_MASK)->Ok_0.1;
            let b2 = ClassInfo::linked_grammar(s, b1, pool)->Ok_0.1;
            let b3 = spec_super_class(s, b2, pool)->Ok_0.1;
            let b4 = spec_table(linked_item::<ClassInfo>(s, pool), s, b3)->Ok_0.1;
            let b5 = spec_table(linked_item::<ComponentInfo>(s, pool), s, b4)->Ok_0.1;
            let b6 = spec_table(linked_item::<ComponentInfo>(s, pool), s, b5)->Ok_0.1;
            lemma_members_flags(s, b4, pool);
            lemma_members_flags(s, b5, pool);
            lemma_attributes_flags(s, b6, pool);
        },
        _ => {},
    }
}

} // verus!
