//! Handles: whatever a decoded class refers to is the payload of a slot of
//! its constant pool, and that slot has the variant that the reference
//! requires.

use crate::attributes::{
    Attribute, AttributeView, ClassEntry, ClassEntryView, CodeAttribute, CodeAttributeView,
    CodeAttributes, CodeAttributesView, ConstValueType, ConstValueView, ExceptionEntry,
    ExceptionEntryView, LocalVariableEntry, LocalVariableEntryView, LocalVariableTableAttribute,
};
use crate::class::{Class, ClassView};
use crate::components::{
    ClassVersion, ComponentInfo, ComponentInfoView, ACCESS_SPECIFIER_MASK, CLASS_ACCESS_MASK,
};
use crate::const_pool::{ClassInfo, ConstPoolView, Utf8Info};
use crate::deserialization::attribute::spec_flags;
use crate::deserialization::pool::{
    reserved_slot, spec_class_if_any, spec_const_pool, spec_find, spec_pool_slots, spec_super_class,
};
use crate::deserialization::{spec_class, spec_class_body};
use crate::grammar::{linked_item, spec_table, Deserializable, DeserializableLinked};
use crate::proxy::{
    class_at, link_component, link_name_and_type, name_and_type_at, spec_link, spec_link_all,
    utf8_at, ProxyConstPoolType, ProxyView,
};
use crate::reader::{spec_read_bytes, spec_read_u16, spec_read_u32};
use crate::theorems::runs::lemma_table_all;
use vstd::prelude::*;

verus! {

/// Whether `text` is the payload of a `Utf8` slot of `pool`.
pub open spec fn is_utf8_of(pool: Seq<ConstPoolView>, text: Seq<char>) -> bool {
    pool.contains(ConstPoolView::Utf8(text))
}

/// Whether `name` is the payload of a `Class` slot of `pool`.
pub open spec fn is_class_of(pool: Seq<ConstPoolView>, name: Seq<char>) -> bool {
    pool.contains(ConstPoolView::Class(name))
}

/// Whether what a slot refers to is the payload of slots of `pool` of the
/// required variants: a `Utf8` for a `String`, a `Class` and each half of a
/// `NameAndType`; a `Class` and a `NameAndType` for a reference to a field
/// or a method.
pub open spec fn slot_is_linked(pool: Seq<ConstPoolView>, slot: ConstPoolView) -> bool {
    match slot {
        ConstPoolView::String(text) => is_utf8_of(pool, text),
        ConstPoolView::Class(name) => is_utf8_of(pool, name),
        ConstPoolView::NameAndType(pair) => is_utf8_of(pool, pair.name) && is_utf8_of(
            pool,
            pair.descriptor,
        ),
        ConstPoolView::Field(member) => is_class_of(pool, member.class) && pool.contains(
            ConstPoolView::NameAndType(member.name_and_type),
        ),
        ConstPoolView::MethodRef(member) => is_class_of(pool, member.class) && pool.contains(
            ConstPoolView::NameAndType(member.name_and_type),
        ),
        ConstPoolView::InterfaceMethodRef(member) => is_class_of(pool, member.class)
            && pool.contains(ConstPoolView::NameAndType(member.name_and_type)),
        _ => true,
    }
}

/// Whether every slot of `pool` is linked within `pool`.
pub open spec fn pool_is_linked(pool: Seq<ConstPoolView>) -> bool {
    forall|i: int| 0 <= i < pool.len() ==> slot_is_linked(pool, #[trigger] pool[i])
}

/// Whether a constant is the payload of a slot of `pool` of its variant.
pub open spec fn constant_is_linked(pool: Seq<ConstPoolView>, value: ConstValueView) -> bool {
    match value {
        ConstValueView::Float(bits) => pool.contains(ConstPoolView::Float(bits)),
        ConstValueView::Double(bits) => pool.contains(ConstPoolView::Double(bits)),
        ConstValueView::Int(value) => pool.contains(ConstPoolView::Int(value)),
        ConstValueView::Long(value) => pool.contains(ConstPoolView::Long(value)),
        ConstValueView::String(text) => pool.contains(ConstPoolView::String(text)),
    }
}

/// Whether a class that may be absent is, where it is there, the payload
/// of a `Class` slot of `pool`.
pub open spec fn optional_class_is_linked(
    pool: Seq<ConstPoolView>,
    class: Option<Seq<char>>,
) -> bool {
    class matches Some(name) ==> is_class_of(pool, name)
}

/// Whether the class that a handler catches, where it names one, is the
/// payload of a `Class` slot of `pool`.
pub open spec fn handler_is_linked(pool: Seq<ConstPoolView>, handler: ExceptionEntryView) -> bool {
    optional_class_is_linked(pool, handler.catch_type)
}

/// Whether the name and the descriptor of a local variable are payloads of
/// `Utf8` slots of `pool`.
pub open spec fn variable_is_linked(
    pool: Seq<ConstPoolView>,
    variable: LocalVariableEntryView,
) -> bool {
    is_utf8_of(pool, variable.name) && is_utf8_of(pool, variable.descriptor)
}

/// Whether every local variable of a table is linked.
pub open spec fn variables_are_linked(
    pool: Seq<ConstPoolView>,
    variables: Seq<LocalVariableEntryView>,
) -> bool {
    forall|i: int| 0 <= i < variables.len() ==> variable_is_linked(pool, #[trigger] variables[i])
}

/// Whether the classes, where they are there, and the name of an entry of
/// an `InnerClasses` attribute are payloads of slots of `pool` of the
/// required variants.
pub open spec fn inner_class_is_linked(pool: Seq<ConstPoolView>, entry: ClassEntryView) -> bool {
    &&& optional_class_is_linked(pool, entry.inner_class_info)
    &&& optional_class_is_linked(pool, entry.outer_class_info)
    &&& is_utf8_of(pool, entry.name)
}

/// Whether every handle in an attribute of a `Code` attribute is the
/// payload of a slot of `pool` of the required variant.
pub open spec fn code_attribute_is_linked(
    pool: Seq<ConstPoolView>,
    attribute: CodeAttributesView,
) -> bool {
    attribute matches CodeAttributesView::LocalVariableTable(variables) ==> variables_are_linked(
        pool,
        variables,
    )
}

/// Whether every handle in a `Code` attribute is the payload of a slot of
/// `pool` of the required variant.
pub open spec fn code_is_linked(pool: Seq<ConstPoolView>, code: CodeAttributeView) -> bool {
    &&& forall|i: int|
        0 <= i < code.exceptions.len() ==> handler_is_linked(pool, #[trigger] code.exceptions[i])
    &&& forall|i: int|
        0 <= i < code.attributes.len() ==> code_attribute_is_linked(
            pool,
            #[trigger] code.attributes[i],
        )
}

/// Whether every handle in an attribute is the payload of a slot of `pool`
/// of the required variant.
pub open spec fn attribute_is_linked(pool: Seq<ConstPoolView>, attribute: AttributeView) -> bool {
    match attribute {
        AttributeView::Code(code) => code_is_linked(pool, code),
        AttributeView::Exceptions(classes) => forall|i: int|
            0 <= i < classes.len() ==> is_class_of(pool, #[trigger] classes[i]),
        AttributeView::InnerClasses(classes) => forall|i: int|
            0 <= i < classes.len() ==> inner_class_is_linked(pool, #[trigger] classes[i]),
        AttributeView::SourceFile(file) => is_utf8_of(pool, file),
        AttributeView::LocalVariableTable(variables) => variables_are_linked(pool, variables),
        AttributeView::ConstantValue(value) => constant_is_linked(pool, value),
        _ => true,
    }
}

/// Whether every attribute of a table is linked.
pub open spec fn attributes_are_linked(
    pool: Seq<ConstPoolView>,
    attributes: Seq<AttributeView>,
) -> bool {
    forall|i: int| 0 <= i < attributes.len() ==> attribute_is_linked(pool, #[trigger] attributes[i])
}

/// Whether every handle in a field or a method is the payload of a slot of
/// `pool` of the required variant.
pub open spec fn member_is_linked(pool: Seq<ConstPoolView>, member: ComponentInfoView) -> bool {
    &&& is_utf8_of(pool, member.name)
    &&& is_utf8_of(pool, member.descriptor)
    &&& attributes_are_linked(pool, member.attributes)
}

/// Whether every member of a table is linked.
pub open spec fn members_are_linked(
    pool: Seq<ConstPoolView>,
    members: Seq<ComponentInfoView>,
) -> bool {
    forall|i: int| 0 <= i < members.len() ==> member_is_linked(pool, #[trigger] members[i])
}

/// Whether every handle in a class, those of its pool included, is the
/// payload of a slot of its pool of the required variant.
pub open spec fn class_is_linked(class: ClassView) -> bool {
    let pool = class.const_pool;
    &&& pool_is_linked(pool)
    &&& is_class_of(pool, class.this_class)
    &&& optional_class_is_linked(pool, class.super_class)
    &&& forall|i: int|
        0 <= i < class.interfaces.len() ==> is_class_of(pool, #[trigger] class.interfaces[i])
    &&& members_are_linked(pool, class.fields)
    &&& members_are_linked(pool, class.methods)
    &&& attributes_are_linked(pool, class.attributes)
}

/// Whether a slot as it is read holds, where it holds a value, one that
/// refers to nothing: a `Utf8`, a number or a reserved slot.
pub open spec fn is_as_read(slot: ProxyView) -> bool {
    slot matches ProxyView::Value(value) ==> (value is Utf8 || value is Int || value is Float
        || value is Long || value is Double || value is Reserved)
}

/// Whether every slot of a pool is as the grammar reads it.
pub open spec fn pool_is_as_read(raw: Seq<ProxyView>) -> bool {
    forall|i: int| 0 <= i < raw.len() ==> is_as_read(#[trigger] raw[i])
}

/// The slots that are read for a pool hold no value that refers to
/// another slot.
pub proof fn lemma_slots_are_as_read(s: Seq<u8>, pos: int, slots: nat)
    ensures
        spec_pool_slots(s, pos, slots) matches Ok((raw, _)) ==> pool_is_as_read(raw),
    decreases slots,
{
    if slots > 0 {
        match ProxyConstPoolType::grammar(s, pos) {
            Err(_) => {},
            Ok((entry, next)) => {
                assert(is_as_read(entry));
                if !entry.is_wide() {
                    lemma_slots_are_as_read(s, next, (slots - 1) as nat);
                    match spec_pool_slots(s, next, (slots - 1) as nat) {
                        Err(_) => {},
                        Ok((rest, _)) => {
                            let raw = seq![entry] + rest;
                            assert forall|i: int| 0 <= i < raw.len() implies is_as_read(
                                #[trigger] raw[i],
                            ) by {
                                if i > 0 {
                                    assert(raw[i] == rest[i - 1]);
                                }
                            }
                        },
                    }
                } else if slots > 1 {
                    lemma_slots_are_as_read(s, next, (slots - 2) as nat);
                    match spec_pool_slots(s, next, (slots - 2) as nat) {
                        Err(_) => {},
                        Ok((rest, _)) => {
                            let raw = seq![entry] + (seq![reserved_slot()] + rest);
                            assert forall|i: int| 0 <= i < raw.len() implies is_as_read(
                                #[trigger] raw[i],
                            ) by {
                                if i > 1 {
                                    assert(raw[i] == rest[i - 2]);
                                }
                            }
                        },
                    }
                }
            },
        }
    }
}

/// A pool that links is linked within itself.
pub proof fn lemma_linked_pool(raw: Seq<ProxyView>)
    requires
        pool_is_as_read(raw),
    ensures
        spec_link_all(raw) matches Some(pool) ==> pool_is_linked(pool),
{
    match spec_link_all(raw) {
        None => {},
        Some(pool) => {
            assert forall|i: int| 0 <= i < pool.len() implies slot_is_linked(
                pool,
                #[trigger] pool[i],
            ) by {
                assert(spec_link(raw[i], raw) == Some(pool[i]));
                assert(is_as_read(raw[i]));
                match raw[i] {
                    ProxyView::Value(_) => {},
                    ProxyView::String(proxy) => {
                        lemma_utf8_target(raw, proxy.0.0);
                        assert(pool[i] == ConstPoolView::String(utf8_at(raw, proxy.0.0)->0));
                    },
                    ProxyView::Class(proxy) => {
                        lemma_utf8_target(raw, proxy.0.0);
                        assert(pool[i] == ConstPoolView::Class(utf8_at(raw, proxy.0.0)->0));
                    },
                    ProxyView::NameAndType(proxy) => {
                        lemma_utf8_target(raw, proxy.name.0);
                        lemma_utf8_target(raw, proxy.descriptor.0);
                        assert(pool[i] == ConstPoolView::NameAndType(
                            link_name_and_type(raw, proxy)->0,
                        ));
                    },
                    ProxyView::FieldRef(proxy) => {
                        lemma_class_target(raw, proxy.0.class.0);
                        lemma_name_and_type_target(raw, proxy.0.name_and_type.0);
                        assert(pool[i] == ConstPoolView::Field(link_component(raw, proxy.0)->0));
                    },
                    ProxyView::MethodRef(proxy) => {
                        lemma_class_target(raw, proxy.0.class.0);
                        lemma_name_and_type_target(raw, proxy.0.name_and_type.0);
                        assert(pool[i] == ConstPoolView::MethodRef(
                            link_component(raw, proxy.0)->0,
                        ));
                    },
                    ProxyView::InterfaceMethodRef(proxy) => {
                        lemma_class_target(raw, proxy.0.class.0);
                        lemma_name_and_type_target(raw, proxy.0.name_and_type.0);
                        assert(pool[i] == ConstPoolView::InterfaceMethodRef(
                            link_component(raw, proxy.0)->0,
                        ));
                    },
                }
            }
        },
    }
}

proof fn lemma_utf8_target(raw: Seq<ProxyView>, index: u16)
    requires
        spec_link_all(raw) is Some,
    ensures
        utf8_at(raw, index) matches Some(text) ==> is_utf8_of(
            spec_link_all(raw)->0,
            text,
        ),
{
    let pool = spec_link_all(raw)->0;
    if let Some(text) = utf8_at(raw, index) {
        assert(spec_link(raw[index - 1], raw) == Some(pool[index - 1]));
        assert(pool[index - 1] == ConstPoolView::Utf8(text));
    }
}

proof fn lemma_class_target(raw: Seq<ProxyView>, index: u16)
    requires
        spec_link_all(raw) is Some,
    ensures
        class_at(raw, index) matches Some(name) ==> is_class_of(
            spec_link_all(raw)->0,
            name,
        ),
{
    let pool = spec_link_all(raw)->0;
    if let Some(name) = class_at(raw, index) {
        assert(spec_link(raw[index - 1], raw) == Some(pool[index - 1]));
        assert(pool[index - 1] == ConstPoolView::Class(name));
    }
}

proof fn lemma_name_and_type_target(raw: Seq<ProxyView>, index: u16)
    requires
        spec_link_all(raw) is Some,
    ensures
        name_and_type_at(raw, index) matches Some(pair) ==> (spec_link_all(
            raw,
        )->0).contains(ConstPoolView::NameAndType(pair)),
{
    let pool = spec_link_all(raw)->0;
    if let Some(pair) = name_and_type_at(raw, index) {
        assert(spec_link(raw[index - 1], raw) == Some(pool[index - 1]));
        assert(pool[index - 1] == ConstPoolView::NameAndType(pair));
    }
}

/// A constant pool that decodes is linked within itself.
pub proof fn lemma_const_pool_linked(s: Seq<u8>, pos: int)
    ensures
        spec_const_pool(s, pos) matches Ok((pool, _)) ==> pool_is_linked(pool),
{
    match spec_const_pool(s, pos) {
        Err(_) => {},
        Ok((pool, _)) => {
            let (count, p) = spec_read_u16(s, pos)->Ok_0;
            let raw = spec_pool_slots(s, p, (count - 1) as nat)->Ok_0.0;
            lemma_slots_are_as_read(s, p, (count - 1) as nat);
            lemma_linked_pool(raw);
        },
    }
}

/// An entry that an index finds is a slot of the pool.
pub proof fn lemma_found(s: Seq<u8>, pos: int, pool: Seq<ConstPoolView>)
    ensures
        spec_find(s, pos, pool) matches Ok((Some(entry), _)) ==> pool.contains(entry),
        Utf8Info::linked_grammar(s, pos, pool) matches Ok((text, _)) ==> is_utf8_of(pool, text),
        ClassInfo::linked_grammar(s, pos, pool) matches Ok((name, _)) ==> is_class_of(pool, name),
        ConstValueType::linked_grammar(s, pos, pool) matches Ok((value, _)) ==> constant_is_linked(
            pool,
            value,
        ),
        spec_class_if_any(s, pos, pool) matches Ok((class, _)) ==> optional_class_is_linked(
            pool,
            class,
        ),
        spec_super_class(s, pos, pool) matches Ok((class, _)) ==> optional_class_is_linked(
            pool,
            class,
        ),
{
    match spec_read_u16(s, pos) {
        Err(_) => {},
        Ok((index, _)) => {
            if 1 <= index <= pool.len() {
                assert(pool.contains(pool[index - 1]));
            }
        },
    }
}

/// The class that a handler that decodes catches is a class of the pool.
pub proof fn lemma_handler_linked(s: Seq<u8>, pos: int, pool: Seq<ConstPoolView>)
    ensures
        ExceptionEntry::linked_grammar(s, pos, pool) matches Ok((handler, _)) ==> handler_is_linked(
            pool,
            handler,
        ),
{
    match ExceptionEntry::linked_grammar(s, pos, pool) {
        Err(_) => {},
        Ok(_) => {
            let at1 = spec_read_u16(s, pos)->Ok_0.1;
            let at2 = spec_read_u16(s, at1)->Ok_0.1;
            let at3 = spec_read_u16(s, at2)->Ok_0.1;
            lemma_found(s, at3, pool);
        },
    }
}

/// The name and the descriptor of a local variable that decodes are texts
/// of the pool.
pub proof fn lemma_variable_linked(s: Seq<u8>, pos: int, pool: Seq<ConstPoolView>)
    ensures
        LocalVariableEntry::linked_grammar(s, pos, pool) matches Ok((variable, _))
            ==> variable_is_linked(pool, variable),
{
    match LocalVariableEntry::linked_grammar(s, pos, pool) {
        Err(_) => {},
        Ok(_) => {
            let at1 = spec_read_u16(s, pos)->Ok_0.1;
            let at2 = spec_read_u16(s, at1)->Ok_0.1;
            let at3 = Utf8Info::linked_grammar(s, at2, pool)->Ok_0.1;
            lemma_found(s, at2, pool);
            lemma_found(s, at3, pool);
        },
    }
}

/// Every local variable of a table that decodes is linked.
pub proof fn lemma_variables_linked(s: Seq<u8>, pos: int, pool: Seq<ConstPoolView>)
    ensures
        LocalVariableTableAttribute::linked_grammar(s, pos, pool) matches Ok((variables, _))
            ==> variables_are_linked(pool, variables),
{
    match spec_read_u32(s, pos) {
        Err(_) => {},
        Ok((_, p)) => {
            let item = linked_item::<LocalVariableEntry>(s, pool);
            let good = |variable: LocalVariableEntryView| variable_is_linked(pool, variable);
            assert forall|at: int| (#[trigger] item(at)) is Ok implies good(item(at)->Ok_0.0) by {
                lemma_variable_linked(s, at, pool);
            }
            lemma_table_all(item, s, p, good);
        },
    }
}

/// An entry of an `InnerClasses` attribute that decodes is linked.
pub proof fn lemma_inner_class_linked(s: Seq<u8>, pos: int, pool: Seq<ConstPoolView>)
    ensures
        ClassEntry::linked_grammar(s, pos, pool) matches Ok((entry, _)) ==> inner_class_is_linked(
            pool,
            entry,
        ),
{
    match ClassEntry::linked_grammar(s, pos, pool) {
        Err(_) => {},
        Ok(_) => {
            let at1 = spec_class_if_any(s, pos, pool)->Ok_0.1;
            let at2 = spec_class_if_any(s, at1, pool)->Ok_0.1;
            lemma_found(s, pos, pool);
            lemma_found(s, at1, pool);
            lemma_found(s, at2, pool);
        },
    }
}

/// An attribute of a `Code` attribute that decodes is linked.
pub proof fn lemma_code_attribute_linked(s: Seq<u8>, pos: int, pool: Seq<ConstPoolView>)
    ensures
        CodeAttributes::linked_grammar(s, pos, pool) matches Ok((attribute, _))
            ==> code_attribute_is_linked(pool, attribute),
{
    match Utf8Info::linked_grammar(s, pos, pool) {
        Err(_) => {},
        Ok((_, p)) => {
            lemma_variables_linked(s, p, pool);
        },
    }
}

/// A `Code` attribute that decodes is linked.
pub proof fn lemma_code_linked(s: Seq<u8>, pos: int, pool: Seq<ConstPoolView>)
    ensures
        CodeAttribute::linked_grammar(s, pos, pool) matches Ok((code, _)) ==> code_is_linked(
            pool,
            code,
        ),
{
    match CodeAttribute::linked_grammar(s, pos, pool) {
        Err(_) => {},
        Ok(_) => {
            let at1 = spec_read_u32(s, pos)->Ok_0.1;
            let at2 = spec_read_u16(s, at1)->Ok_0.1;
            let at3 = spec_read_u16(s, at2)->Ok_0.1;
            let (code_length, at4) = spec_read_u32(s, at3)->Ok_0;
            let at5 = spec_read_bytes(s, at4, code_length as int)->Ok_0.1;
            let handlers = linked_item::<ExceptionEntry>(s, pool);
            let at6 = spec_table(handlers, s, at5)->Ok_0.1;
            let good_handler = |handler: ExceptionEntryView| handler_is_linked(pool, handler);
            assert forall|at: int| (#[trigger] handlers(at)) is Ok implies good_handler(
                handlers(at)->Ok_0.0,
            ) by {
                lemma_handler_linked(s, at, pool);
            }
            lemma_table_all(handlers, s, at5, good_handler);
            let nested = linked_item::<CodeAttributes>(s, pool);
            let good_nested = |attribute: CodeAttributesView|
                code_attribute_is_linked(pool, attribute);
            assert forall|at: int| (#[trigger] nested(at)) is Ok implies good_nested(
                nested(at)->Ok_0.0,
            ) by {
                lemma_code_attribute_linked(s, at, pool);
            }
            lemma_table_all(nested, s, at6, good_nested);
        },
    }
}

/// Every handle in an attribute that decodes is the payload of a slot of
/// the pool of the required variant.
pub proof fn lemma_attribute_linked(s: Seq<u8>, pos: int, pool: Seq<ConstPoolView>)
    ensures
        Attribute::linked_grammar(s, pos, pool) matches Ok((attribute, _)) ==> attribute_is_linked(
            pool,
            attribute,
        ),
{
    match Attribute::linked_grammar(s, pos, pool) {
        Err(_) => {},
        Ok((attribute, _)) => {
            let p = Utf8Info::linked_grammar(s, pos, pool)->Ok_0.1;
            match attribute {
                AttributeView::Code(_) => {
                    lemma_code_linked(s, p, pool);
                },
                AttributeView::Exceptions(_) => {
                    let q = spec_read_u32(s, p)->Ok_0.1;
                    let item = linked_item::<ClassInfo>(s, pool);
                    let good = |name: Seq<char>| is_class_of(pool, name);
                    assert forall|at: int| (#[trigger] item(at)) is Ok implies good(
                        item(at)->Ok_0.0,
                    ) by {
                        lemma_found(s, at, pool);
                    }
                    lemma_table_all(item, s, q, good);
                },
                AttributeView::InnerClasses(_) => {
                    let q = spec_read_u32(s, p)->Ok_0.1;
                    let item = linked_item::<ClassEntry>(s, pool);
                    let good = |entry: ClassEntryView| inner_class_is_linked(pool, entry);
                    assert forall|at: int| (#[trigger] item(at)) is Ok implies good(
                        item(at)->Ok_0.0,
                    ) by {
                        lemma_inner_class_linked(s, at, pool);
                    }
                    lemma_table_all(item, s, q, good);
                },
                AttributeView::SourceFile(_) => {
                    let q = spec_read_u32(s, p)->Ok_0.1;
                    lemma_found(s, q, pool);
                },
                AttributeView::LocalVariableTable(_) => {
                    lemma_variables_linked(s, p, pool);
                },
                AttributeView::ConstantValue(_) => {
                    let q = spec_read_u32(s, p)->Ok_0.1;
                    lemma_found(s, q, pool);
                },
                _ => {},
            }
        },
    }
}

/// Every attribute of a table that decodes is linked.
pub proof fn lemma_attributes_linked(s: Seq<u8>, pos: int, pool: Seq<ConstPoolView>)
    ensures
        spec_table(linked_item::<Attribute>(s, pool), s, pos) matches Ok((attributes, _))
            ==> attributes_are_linked(pool, attributes),
{
    let item = linked_item::<Attribute>(s, pool);
    let good = |attribute: AttributeView| attribute_is_linked(pool, attribute);
    assert forall|at: int| (#[trigger] item(at)) is Ok implies good(item(at)->Ok_0.0) by {
        lemma_attribute_linked(s, at, pool);
    }
    lemma_table_all(item, s, pos, good);
}

/// Every handle in a field or a method that decodes is the payload of a
/// slot of the pool of the required variant.
pub proof fn lemma_member_linked(s: Seq<u8>, pos: int, pool: Seq<ConstPoolView>)
    ensures
        ComponentInfo::linked_grammar(s, pos, pool) matches Ok((member, _)) ==> member_is_linked(
            pool,
            member,
        ),
{
    match ComponentInfo::linked_grammar(s, pos, pool) {
        Err(_) => {},
        Ok(_) => {
            let at1 = spec_flags(s, pos, ACCESS_SPECIFIER_MASK)->Ok_0.1;
            let at2 = Utf8Info::linked_grammar(s, at1, pool)->Ok_0.1;
            let at3 = Utf8Info::linked_grammar(s, at2, pool)->Ok_0.1;
            lemma_found(s, at1, pool);
            lemma_found(s, at2, pool);
            lemma_attributes_linked(s, at3, pool);
        },
    }
}

/// Every member of a table that decodes is linked.
pub proof fn lemma_members_linked(s: Seq<u8>, pos: int, pool: Seq<ConstPoolView>)
    ensures
        spec_table(linked_item::<ComponentInfo>(s, pool), s, pos) matches Ok((members, _))
            ==> members_are_linked(pool, members),
{
    let item = linked_item::<ComponentInfo>(s, pool);
    let good = |member: ComponentInfoView| member_is_linked(pool, member);
    assert forall|at: int| (#[trigger] item(at)) is Ok implies good(item(at)->Ok_0.0) by {
        lemma_member_linked(s, at, pool);
    }
    lemma_table_all(item, s, pos, good);
}

/// In a decoded class every handle, be it held by a slot of the pool, by
/// the class, by a member or by an attribute, is the payload of a slot of
/// the pool, and that slot has the variant that the handle requires.
pub proof fn lemma_decoded_class_is_linked(s: Seq<u8>)
    ensures
        spec_class(s) matches Ok(class) ==> class_is_linked(class),
{
    match Class::grammar(s, 0) {
        Err(_) => {},
        Ok((class, _)) => {
            let at1 = spec_read_u32(s, 0)->Ok_0.1;
            let (version, at2) = ClassVersion::grammar(s, at1)->Ok_0;
            let (pool, at3) = spec_const_pool(s, at2)->Ok_0;
            lemma_const_pool_linked(s, at2);
            assert(spec_class_body(s, at3, version, pool) is Ok);
            let b1 = spec_flags(s, at3, CLASS_ACCESS_MASK)->Ok_0.1;
            let b2 = ClassInfo::linked_grammar(s, b1, pool)->Ok_0.1;
            let b3 = spec_super_class(s, b2, pool)->Ok_0.1;
            let interfaces = linked_item::<ClassInfo>(s, pool);
            let b4 = spec_table(interfaces, s, b3)->Ok_0.1;
            let b5 = spec_table(linked_item::<ComponentInfo>(s, pool), s, b4)->Ok_0.1;
            let b6 = spec_table(linked_item::<ComponentInfo>(s, pool), s, b5)->Ok_0.1;
            lemma_found(s, b1, pool);
            lemma_found(s, b2, pool);
            let good = |name: Seq<char>| is_class_of(pool, name);
            assert forall|at: int| (#[trigger] interfaces(at)) is Ok implies good(
                interfaces(at)->Ok_0.0,
            ) by {
                lemma_found(s, at, pool);
            }
            lemma_table_all(interfaces, s, b3, good);
            lemma_members_linked(s, b4, pool);
            lemma_members_linked(s, b5, pool);
            lemma_attributes_linked(s, b6, pool);
        },
    }
}

} // verus!
