//! Indices: the index 0 names no slot. An entry of the pool that holds it
//! is a link error where the entry is read, and in the body of the class
//! file it stands for nothing only where the format lets it.

use crate::const_pool::ConstPoolView;
use crate::deserialization::pool::{
    reserved_slot, spec_class_if_any, spec_index, spec_pool_slots,
};
use crate::error::ErrorView;
use crate::grammar::Deserializable;
use crate::proxy::{names_slot, ProxyConstPoolType, ProxyView};
use crate::reader::{spec_read_u16, spec_read_u8};
use crate::theorems::reserved::refers_to;
use vstd::prelude::*;

verus! {

/// Whether an entry with this tag holds one index or two.
pub open spec fn tag_holds_indices(tag: u8) -> bool {
    7 <= tag <= 12
}

/// Whether an entry with this tag holds two indices.
pub open spec fn tag_holds_two_indices(tag: u8) -> bool {
    9 <= tag <= 12
}

/// An entry of the pool whose first index is 0 is a link error, whatever
/// follows the index in the input.
pub proof fn lemma_first_index_zero(s: Seq<u8>, pos: int)
    requires
        ({
            &&& spec_read_u8(s, pos) matches Ok((tag, at))
            &&& tag_holds_indices(tag)
            &&& spec_read_u16(s, at) matches Ok((index, _))
            &&& index == 0
        }),
    ensures
        ProxyConstPoolType::grammar(s, pos) == Err::<(ProxyView, int), ErrorView>(ErrorView::Link),
{
    let at = spec_read_u8(s, pos)->Ok_0.1;
    assert(spec_index(s, at) == Err::<(u16, int), ErrorView>(ErrorView::Link));
}

/// An entry of the pool whose second index is 0 is a link error, whatever
/// follows the index in the input.
pub proof fn lemma_second_index_zero(s: Seq<u8>, pos: int)
    requires
        ({
            &&& spec_read_u8(s, pos) matches Ok((tag, at))
            &&& tag_holds_two_indices(tag)
            &&& spec_read_u16(s, at) matches Ok((first, behind))
            &&& first != 0
            &&& spec_read_u16(s, behind) matches Ok((second, _))
            &&& second == 0
        }),
    ensures
        ProxyConstPoolType::grammar(s, pos) == Err::<(ProxyView, int), ErrorView>(ErrorView::Link),
{
    let at = spec_read_u8(s, pos)->Ok_0.1;
    let behind = spec_read_u16(s, at)->Ok_0.1;
    assert(spec_index(s, at) is Ok);
    assert(spec_index(s, behind) == Err::<(u16, int), ErrorView>(ErrorView::Link));
}

/// An entry that is read holds no index 0.
pub proof fn lemma_entry_holds_no_zero(s: Seq<u8>, pos: int)
    ensures
        ProxyConstPoolType::grammar(s, pos) matches Ok((entry, _)) ==> !refers_to(entry, 0),
{
}

/// No slot of a pool that is read holds the index 0.
pub proof fn lemma_slots_hold_no_zero(s: Seq<u8>, pos: int, slots: nat)
    ensures
        spec_pool_slots(s, pos, slots) matches Ok((raw, _)) ==> forall|i: int|
            0 <= i < raw.len() ==> !refers_to(#[trigger] raw[i], 0),
    decreases slots,
{
    if slots > 0 {
        lemma_entry_holds_no_zero(s, pos);
        match ProxyConstPoolType::grammar(s, pos) {
            Err(_) => {},
            Ok((entry, next)) => {
                if !entry.is_wide() {
                    lemma_slots_hold_no_zero(s, next, (slots - 1) as nat);
                    match spec_pool_slots(s, next, (slots - 1) as nat) {
                        Err(_) => {},
                        Ok((rest, _)) => {
                            let raw = seq![entry] + rest;
                            assert forall|i: int| 0 <= i < raw.len() implies !refers_to(
                                #[trigger] raw[i],
                                0,
                            ) by {
                                if i > 0 {
                                    assert(raw[i] == rest[i - 1]);
                                }
                            }
                        },
                    }
                } else if slots > 1 {
                    lemma_slots_hold_no_zero(s, next, (slots - 2) as nat);
                    match spec_pool_slots(s, next, (slots - 2) as nat) {
                        Err(_) => {},
                        Ok((rest, _)) => {
                            let raw = seq![entry] + (seq![reserved_slot()] + rest);
                            assert forall|i: int| 0 <= i < raw.len() implies !refers_to(
                                #[trigger] raw[i],
                                0,
                            ) by {
                                if i > 1 {
                                    assert(raw[i] == rest[i - 2]);
                                }
                            }
                        },
                    }
                }
            },
        }
    }
}

/// The index of a class that may be absent, as a handler and an entry of
/// an `InnerClasses` attribute hold it: the index 0 stands for no class,
/// the index of a `Class` slot for its class, and every other index is a
/// link error.
pub proof fn lemma_class_if_any(s: Seq<u8>, pos: int, pool: Seq<ConstPoolView>)
    requires
        spec_read_u16(s, pos) is Ok,
    ensures
        ({
            let (index, next) = spec_read_u16(s, pos)->Ok_0;
            spec_class_if_any(s, pos, pool) == if index == 0 {
                Ok::<(Option<Seq<char>>, int), ErrorView>((None, next))
            } else if names_slot(index, pool.len()) && pool[index - 1] is Class {
                Ok((Some(pool[index - 1]->Class_0), next))
            } else {
                Err(ErrorView::Link)
            }
        }),
{
}

} // verus!
