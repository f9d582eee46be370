//! The slot behind a `Long` or a `Double`: it is always there, and nothing
//! can refer to it.

use crate::attributes::{ConstValueType, ConstValueView};
use crate::class::Class;
use crate::components::ClassVersion;
use crate::const_pool::{ClassInfo, ConstPoolView, Utf8Info};
use crate::deserialization::pool::{
    reserved_slot, spec_class_if_any, spec_const_pool, spec_find, spec_pool_slots, spec_super_class,
};
use crate::deserialization::{spec_class, spec_class_body};
use crate::error::ErrorView;
use crate::grammar::{Deserializable, DeserializableLinked};
use crate::proxy::{
    class_at, name_and_type_at, names_slot, spec_link,
    spec_link_all, utf8_at, ProxyConstPoolType, ProxyView,
};
use crate::reader::{spec_read_u16, spec_read_u32};
use vstd::prelude::*;

verus! {

/// Whether every two-slot entry of a pool as it is read is followed by a
/// reserved slot of the same pool.
pub open spec fn reserves_raw(raw: Seq<ProxyView>) -> bool {
    forall|i: int|
        0 <= i < raw.len() && (#[trigger] raw[i]).is_wide() ==> i + 1 < raw.len() && raw[i + 1]
            == reserved_slot()
}

/// Whether every `Long` and every `Double` of a linked pool is followed by
/// a reserved slot of the same pool.
pub open spec fn reserves(pool: Seq<ConstPoolView>) -> bool {
    forall|i: int|
        0 <= i < pool.len() && (#[trigger] pool[i]).is_wide() ==> i + 1 < pool.len() && pool[i
            + 1] is Reserved
}

/// The slots that are read for a pool of `slots` slots are exactly that
/// many, and each two-slot entry among them is followed by a reserved
/// slot.
pub proof fn lemma_slots_reserve(s: Seq<u8>, pos: int, slots: nat)
    ensures
        spec_pool_slots(s, pos, slots) matches Ok((raw, _)) ==> raw.len() == slots && reserves_raw(
            raw,
        ),
    decreases slots,
{
    if slots > 0 {
        match ProxyConstPoolType::grammar(s, pos) {
            Err(_) => {},
            Ok((entry, next)) => {
                if !entry.is_wide() {
                    lemma_slots_reserve(s, next, (slots - 1) as nat);
                    match spec_pool_slots(s, next, (slots - 1) as nat) {
                        Err(_) => {},
                        Ok((rest, _)) => {
                            let raw = seq![entry] + rest;
                            assert forall|i: int|
                                0 <= i < raw.len() && (#[trigger] raw[i]).is_wide() implies i + 1
                                < raw.len() && raw[i + 1] == reserved_slot() by {
                                assert(rest[i - 1].is_wide());
                                assert(raw[i + 1] == rest[i]);
                            }
                        },
                    }
                } else if slots > 1 {
                    lemma_slots_reserve(s, next, (slots - 2) as nat);
                    match spec_pool_slots(s, next, (slots - 2) as nat) {
                        Err(_) => {},
                        Ok((rest, _)) => {
                            let raw = seq![entry] + (seq![reserved_slot()] + rest);
                            assert forall|i: int|
                                0 <= i < raw.len() && (#[trigger] raw[i]).is_wide() implies i + 1
                                < raw.len() && raw[i + 1] == reserved_slot() by {
                                if i >= 2 {
                                    assert(rest[i - 2].is_wide());
                                    assert(raw[i + 1] == rest[i - 1]);
                                }
                            }
                        },
                    }
                }
            },
        }
    }
}

/// Linking keeps the shape of a pool: as many slots, the two-slot entries
/// and the reserved slots where they were.
pub proof fn lemma_link_keeps_shape(raw: Seq<ProxyView>)
    ensures
        spec_link_all(raw) matches Some(pool) ==> pool.len() == raw.len() && forall|i: int|
            0 <= i < raw.len() ==> (#[trigger] pool[i]).is_wide() == raw[i].is_wide() && (pool[i]
                is Reserved) == (raw[i] == reserved_slot()),
{
    match spec_link_all(raw) {
        None => {},
        Some(pool) => {
            assert forall|i: int| 0 <= i < raw.len() implies (#[trigger] pool[i]).is_wide()
                == raw[i].is_wide() && (pool[i] is Reserved) == (raw[i] == reserved_slot()) by {
                assert(spec_link(raw[i], raw) == Some(pool[i]));
            }
        },
    }
}

/// In a constant pool that decodes, every `Long` and every `Double` is
/// followed by a reserved slot.
pub proof fn lemma_const_pool_reserves(s: Seq<u8>, pos: int)
    ensures
        spec_const_pool(s, pos) matches Ok((pool, _)) ==> reserves(pool) && pool.len() + 1
            == spec_read_u16(s, pos)->Ok_0.0,
{
    match spec_const_pool(s, pos) {
        Err(_) => {},
        Ok((pool, _)) => {
            let (count, p) = spec_read_u16(s, pos)->Ok_0;
            let raw = spec_pool_slots(s, p, (count - 1) as nat)->Ok_0.0;
            lemma_slots_reserve(s, p, (count - 1) as nat);
            lemma_link_keeps_shape(raw);
            assert forall|i: int| 0 <= i < pool.len() && (#[trigger] pool[i]).is_wide() implies i
                + 1 < pool.len() && pool[i + 1] is Reserved by {
                assert(raw[i].is_wide());
                assert(pool[i + 1] is Reserved == (raw[i + 1] == reserved_slot()));
            }
        },
    }
}

/// In the pool of a decoded class, every `Long` and every `Double` is
/// followed by a reserved slot.
pub proof fn lemma_decoded_pool_reserves(s: Seq<u8>)
    ensures
        spec_class(s) matches Ok(class) ==> reserves(class.const_pool),
{
    match Class::grammar(s, 0) {
        Err(_) => {},
        Ok((class, _)) => {
            let at1 = spec_read_u32(s, 0)->Ok_0.1;
            let (version, at2) = ClassVersion::grammar(s, at1)->Ok_0;
            let (pool, at3) = spec_const_pool(s, at2)->Ok_0;
            lemma_const_pool_reserves(s, at2);
            assert(spec_class_body(s, at3, version, pool) is Ok);
            assert(class.const_pool == pool);
        },
    }
}

/// Whether a slot as it is read holds the index `index`.
pub open spec fn refers_to(entry: ProxyView, index: u16) -> bool {
    match entry {
        ProxyView::Value(_) => false,
        ProxyView::String(proxy) => proxy.0.0 == index,
        ProxyView::Class(proxy) => proxy.0.0 == index,
        ProxyView::NameAndType(proxy) => proxy.name.0 == index || proxy.descriptor.0 == index,
        ProxyView::FieldRef(proxy) => proxy.0.class.0 == index || proxy.0.name_and_type.0 == index,
        ProxyView::MethodRef(proxy) => proxy.0.class.0 == index || proxy.0.name_and_type.0
            == index,
        ProxyView::InterfaceMethodRef(proxy) => proxy.0.class.0 == index
            || proxy.0.name_and_type.0 == index,
    }
}

/// A slot that holds the index of a reserved slot does not link, and so
/// the pool does not link.
pub proof fn lemma_reserved_is_not_linked_to(raw: Seq<ProxyView>, i: int, index: u16)
    requires
        0 <= i < raw.len(),
        refers_to(raw[i], index),
        names_slot(index, raw.len()),
        raw[index - 1] == reserved_slot(),
    ensures
        spec_link(raw[i], raw) is None,
        spec_link_all(raw) is None,
{
    assert(utf8_at(raw, index) is None);
    assert(class_at(raw, index) is None);
    assert(name_and_type_at(raw, index) is None);
}

/// A constant pool in which a slot holds the index of a reserved slot
/// fails to decode with a link error.
pub proof fn lemma_reference_to_reserved_fails(s: Seq<u8>, pos: int, i: int, index: u16)
    requires
        ({
            &&& spec_read_u16(s, pos) matches Ok((count, first))
            &&& count > 0
            &&& spec_pool_slots(s, first, (count - 1) as nat) matches Ok((raw, _))
            &&& 0 <= i < raw.len()
            &&& refers_to(raw[i], index)
            &&& names_slot(index, raw.len())
            &&& raw[index - 1] == reserved_slot()
        }),
    ensures
        spec_const_pool(s, pos) == Err::<(Seq<ConstPoolView>, int), ErrorView>(ErrorView::Link),
{
    let (count, first) = spec_read_u16(s, pos)->Ok_0;
    let raw = spec_pool_slots(s, first, (count - 1) as nat)->Ok_0.0;
    lemma_reserved_is_not_linked_to(raw, i, index);
}

/// An index in the body of a class file that names a reserved slot fails
/// with a link error wherever a `Utf8` entry, a class or a constant is
/// required, also where the class may be absent, and gives no superclass
/// where it stands for the superclass.
pub proof fn lemma_reserved_is_not_found(s: Seq<u8>, pos: int, pool: Seq<ConstPoolView>)
    requires
        ({
            &&& spec_read_u16(s, pos) matches Ok((index, _))
            &&& names_slot(index, pool.len())
            &&& pool[index - 1] is Reserved
        }),
    ensures
        Utf8Info::linked_grammar(s, pos, pool) == Err::<(Seq<char>, int), ErrorView>(
            ErrorView::Link,
        ),
        ClassInfo::linked_grammar(s, pos, pool) == Err::<(Seq<char>, int), ErrorView>(
            ErrorView::Link,
        ),
        ConstValueType::linked_grammar(s, pos, pool) == Err::<(ConstValueView, int), ErrorView>(
            ErrorView::Link,
        ),
        spec_class_if_any(s, pos, pool) == Err::<(Option<Seq<char>>, int), ErrorView>(
            ErrorView::Link,
        ),
        spec_super_class(s, pos, pool) matches Ok((class, _)) && class is None,
{
    let index = spec_read_u16(s, pos)->Ok_0.0;
    assert(spec_find(s, pos, pool)->Ok_0.0 == Some(pool[index - 1]));
}

} // verus!
