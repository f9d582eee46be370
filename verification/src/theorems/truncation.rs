//! Truncation: an input that is cut short decodes as the whole input does
//! as long as the cut lies behind what the decode reads, and fails with
//! `CannotRead` where the cut lies inside it. No other error comes of a
//! cut.

use crate::attributes::{
    Attribute, ClassEntry, CodeAttribute, CodeAttributes, ConstValueType,
    ConstantValueAttribute, DeprecatedAttribute, ExceptionEntry, ExceptionsAttribute,
    InnerClassesAttribute, LineNumberEntry, LineNumberTableAttribute, LocalVariableEntry,
    LocalVariableTableAttribute, SourceFileAttribute, SyntheticAttribute, UnknownAttribute,
};
use crate::class::{Class, ClassView};
use crate::components::{
    ClassVersion, ComponentInfo, ACCESS_SPECIFIER_MASK, CLASS_ACCESS_MASK,
};
use crate::const_pool::{ClassInfo, ConstPoolView, Utf8Info};
use crate::deserialization::attribute::{spec_attribute_body, spec_flags};
use crate::deserialization::pool::{
    spec_class_if_any, spec_const_pool, spec_find, spec_pool_slots, spec_super_class,
};
use crate::deserialization::{spec_class, spec_class_body};
use crate::error::{ErrorView, Parsed};
use crate::grammar::{
    item, linked_item, spec_repeat, spec_table, Deserializable, DeserializableLinked,
};
use crate::proxy::{DoubleProxy, NameAndTypeProxy, Proxy, ProxyConstPoolType};
use crate::reader::{
    available, spec_read_bytes, spec_read_i32, spec_read_i64, spec_read_u16, spec_read_u32,
    spec_read_u64, spec_read_u8, spec_read_utf8, spec_skip,
};
use vstd::prelude::*;

verus! {

/// Whether `t` is the first `k` bytes of `s`.
pub open spec fn is_cut(s: Seq<u8>, t: Seq<u8>, k: int) -> bool {
    0 <= k <= s.len() && t == s.take(k)
}

/// The outcome `short` of a decode at `pos` of an input cut to `k` bytes,
/// held against the outcome `full` of the same decode of the whole input.
/// No value ends before it starts. Where the decode starts within the
/// first `k` bytes, a value that ends within them is decoded all the same;
/// one that ends behind them cannot be read; and an error stays as it is
/// or becomes `CannotRead`.
pub open spec fn cut_of<T>(full: Parsed<T>, short: Parsed<T>, pos: int, k: int) -> bool {
    &&& full matches Ok((_, end)) ==> pos <= end
    &&& pos <= k ==> match full {
        Ok((_, end)) => if end <= k {
            short == full
        } else {
            short == Err::<(T, int), ErrorView>(ErrorView::CannotRead)
        },
        Err(_) => short == full || short == Err::<(T, int), ErrorView>(ErrorView::CannotRead),
    }
}

/// Whether the grammar `short` is, at every position, the cut of the
/// grammar `full`.
pub open spec fn cuts<T>(
    full: spec_fn(int) -> Parsed<T>,
    short: spec_fn(int) -> Parsed<T>,
    k: int,
) -> bool {
    forall|pos: int|
        #![trigger full(pos)]
        #![trigger short(pos)]
        cut_of(full(pos), short(pos), pos, k)
}

/// The numbers and byte runs of the primitive reader.
pub proof fn lemma_cut_primitives(s: Seq<u8>, t: Seq<u8>, k: int)
    requires
        is_cut(s, t, k),
    ensures
        forall|pos: int|
            #![trigger spec_read_u8(s, pos)]
            #![trigger spec_read_u8(t, pos)]
            cut_of(spec_read_u8(s, pos), spec_read_u8(t, pos), pos, k),
        forall|pos: int|
            #![trigger spec_read_u16(s, pos)]
            #![trigger spec_read_u16(t, pos)]
            cut_of(spec_read_u16(s, pos), spec_read_u16(t, pos), pos, k),
        forall|pos: int|
            #![trigger spec_read_u32(s, pos)]
            #![trigger spec_read_u32(t, pos)]
            cut_of(spec_read_u32(s, pos), spec_read_u32(t, pos), pos, k),
        forall|pos: int|
            #![trigger spec_read_u64(s, pos)]
            #![trigger spec_read_u64(t, pos)]
            cut_of(spec_read_u64(s, pos), spec_read_u64(t, pos), pos, k),
        forall|pos: int|
            #![trigger spec_read_i32(s, pos)]
            #![trigger spec_read_i32(t, pos)]
            cut_of(spec_read_i32(s, pos), spec_read_i32(t, pos), pos, k),
        forall|pos: int|
            #![trigger spec_read_i64(s, pos)]
            #![trigger spec_read_i64(t, pos)]
            cut_of(spec_read_i64(s, pos), spec_read_i64(t, pos), pos, k),
        forall|pos: int, n: int|
            #![trigger spec_read_bytes(s, pos, n)]
            #![trigger spec_read_bytes(t, pos, n)]
            cut_of(spec_read_bytes(s, pos, n), spec_read_bytes(t, pos, n), pos, k),
        forall|pos: int, n: int|
            #![trigger spec_skip(s, pos, n)]
            #![trigger spec_skip(t, pos, n)]
            cut_of(spec_skip(s, pos, n), spec_skip(t, pos, n), pos, k),
        forall|pos: int|
            #![trigger spec_read_utf8(s, pos)]
            #![trigger spec_read_utf8(t, pos)]
            cut_of(spec_read_utf8(s, pos), spec_read_utf8(t, pos), pos, k),
{
    assert forall|pos: int, n: int| available(t, pos, n) implies #[trigger] t.subrange(pos, pos + n)
        == s.subrange(pos, pos + n) by {
        assert(t.subrange(pos, pos + n) =~= s.subrange(pos, pos + n));
    }
    assert forall|pos: int|
        #![trigger spec_read_u8(s, pos)]
        #![trigger spec_read_u8(t, pos)]
        cut_of(spec_read_u8(s, pos), spec_read_u8(t, pos), pos, k) by {}
    assert forall|pos: int|
        #![trigger spec_read_u16(s, pos)]
        #![trigger spec_read_u16(t, pos)]
        cut_of(spec_read_u16(s, pos), spec_read_u16(t, pos), pos, k) by {
        if available(t, pos, 2) {
            assert(t.subrange(pos, pos + 2) == s.subrange(pos, pos + 2));
        }
    }
    assert forall|pos: int|
        #![trigger spec_read_u32(s, pos)]
        #![trigger spec_read_u32(t, pos)]
        cut_of(spec_read_u32(s, pos), spec_read_u32(t, pos), pos, k) by {
        if available(t, pos, 4) {
            assert(t.subrange(pos, pos + 4) == s.subrange(pos, pos + 4));
        }
    }
    assert forall|pos: int|
        #![trigger spec_read_u64(s, pos)]
        #![trigger spec_read_u64(t, pos)]
        cut_of(spec_read_u64(s, pos), spec_read_u64(t, pos), pos, k) by {
        if available(t, pos, 8) {
            assert(t.subrange(pos, pos + 8) == s.subrange(pos, pos + 8));
        }
    }
    assert forall|pos: int|
        #![trigger spec_read_i32(s, pos)]
        #![trigger spec_read_i32(t, pos)]
        cut_of(spec_read_i32(s, pos), spec_read_i32(t, pos), pos, k) by {
        if available(t, pos, 4) {
            assert(t.subrange(pos, pos + 4) == s.subrange(pos, pos + 4));
        }
    }
    assert forall|pos: int|
        #![trigger spec_read_i64(s, pos)]
        #![trigger spec_read_i64(t, pos)]
        cut_of(spec_read_i64(s, pos), spec_read_i64(t, pos), pos, k) by {
        if available(t, pos, 8) {
            assert(t.subrange(pos, pos + 8) == s.subrange(pos, pos + 8));
        }
    }
    assert forall|pos: int, n: int|
        #![trigger spec_read_bytes(s, pos, n)]
        #![trigger spec_read_bytes(t, pos, n)]
        cut_of(spec_read_bytes(s, pos, n), spec_read_bytes(t, pos, n), pos, k) by {
        if available(t, pos, n) {
            assert(t.subrange(pos, pos + n) == s.subrange(pos, pos + n));
        }
    }
    assert forall|pos: int|
        #![trigger spec_read_utf8(s, pos)]
        #![trigger spec_read_utf8(t, pos)]
        cut_of(spec_read_utf8(s, pos), spec_read_utf8(t, pos), pos, k) by {
        assert(cut_of(spec_read_u16(s, pos), spec_read_u16(t, pos), pos, k));
        match spec_read_u16(s, pos) {
            Err(_) => {},
            Ok((n, p)) => {
                assert(cut_of(
                    spec_read_bytes(s, p, n as int),
                    spec_read_bytes(t, p, n as int),
                    p,
                    k,
                ));
            },
        }
    }
}

/// A run of values whose grammar is cut is cut.
pub proof fn lemma_cut_repeat<T>(
    full: spec_fn(int) -> Parsed<T>,
    short: spec_fn(int) -> Parsed<T>,
    k: int,
    pos: int,
    n: nat,
)
    requires
        cuts(full, short, k),
    ensures
        cut_of(spec_repeat(full, pos, n), spec_repeat(short, pos, n), pos, k),
    decreases n,
{
    if n > 0 {
        assert(cut_of(full(pos), short(pos), pos, k));
        match full(pos) {
            Err(_) => {},
            Ok((_, next)) => {
                lemma_cut_repeat(full, short, k, next, (n - 1) as nat);
            },
        }
    }
}

/// A table of values whose grammar is cut is cut.
pub proof fn lemma_cut_table<T>(
    full: spec_fn(int) -> Parsed<T>,
    short: spec_fn(int) -> Parsed<T>,
    s: Seq<u8>,
    t: Seq<u8>,
    k: int,
    pos: int,
)
    requires
        is_cut(s, t, k),
        cuts(full, short, k),
    ensures
        cut_of(spec_table(full, s, pos), spec_table(short, t, pos), pos, k),
{
    lemma_cut_primitives(s, t, k);
    assert(cut_of(spec_read_u16(s, pos), spec_read_u16(t, pos), pos, k));
    match spec_read_u16(s, pos) {
        Err(_) => {},
        Ok((n, next)) => {
            lemma_cut_repeat(full, short, k, next, n as nat);
        },
    }
}

/// The slots of a constant pool as they are read.
pub proof fn lemma_cut_pool_entries(s: Seq<u8>, t: Seq<u8>, k: int)
    requires
        is_cut(s, t, k),
    ensures
        forall|pos: int|
            #![trigger Proxy::grammar(s, pos)]
            #![trigger Proxy::grammar(t, pos)]
            cut_of(Proxy::grammar(s, pos), Proxy::grammar(t, pos), pos, k),
        forall|pos: int|
            #![trigger NameAndTypeProxy::grammar(s, pos)]
            #![trigger NameAndTypeProxy::grammar(t, pos)]
            cut_of(NameAndTypeProxy::grammar(s, pos), NameAndTypeProxy::grammar(t, pos), pos, k),
        forall|pos: int|
            #![trigger DoubleProxy::grammar(s, pos)]
            #![trigger DoubleProxy::grammar(t, pos)]
            cut_of(DoubleProxy::grammar(s, pos), DoubleProxy::grammar(t, pos), pos, k),
        forall|pos: int|
            #![trigger ProxyConstPoolType::grammar(s, pos)]
            #![trigger ProxyConstPoolType::grammar(t, pos)]
            cut_of(
                ProxyConstPoolType::grammar(s, pos),
                ProxyConstPoolType::grammar(t, pos),
                pos,
                k,
            ),
{
    lemma_cut_primitives(s, t, k);
    assert forall|pos: int|
        #![trigger Proxy::grammar(s, pos)]
        #![trigger Proxy::grammar(t, pos)]
        cut_of(Proxy::grammar(s, pos), Proxy::grammar(t, pos), pos, k) by {
        assert(cut_of(spec_read_u16(s, pos), spec_read_u16(t, pos), pos, k));
    }
    assert forall|pos: int|
        #![trigger NameAndTypeProxy::grammar(s, pos)]
        #![trigger NameAndTypeProxy::grammar(t, pos)]
        cut_of(NameAndTypeProxy::grammar(s, pos), NameAndTypeProxy::grammar(t, pos), pos, k) by {
        assert(cut_of(spec_read_u16(s, pos), spec_read_u16(t, pos), pos, k));
    }
    assert forall|pos: int|
        #![trigger DoubleProxy::grammar(s, pos)]
        #![trigger DoubleProxy::grammar(t, pos)]
        cut_of(DoubleProxy::grammar(s, pos), DoubleProxy::grammar(t, pos), pos, k) by {
        assert(cut_of(spec_read_u16(s, pos), spec_read_u16(t, pos), pos, k));
    }
    assert forall|pos: int|
        #![trigger ProxyConstPoolType::grammar(s, pos)]
        #![trigger ProxyConstPoolType::grammar(t, pos)]
        cut_of(
            ProxyConstPoolType::grammar(s, pos),
            ProxyConstPoolType::grammar(t, pos),
            pos,
            k,
        ) by {
        assert(cut_of(spec_read_u8(s, pos), spec_read_u8(t, pos), pos, k));
    }
}

/// The slots of a constant pool, one after the other.
pub proof fn lemma_cut_pool_slots(s: Seq<u8>, t: Seq<u8>, k: int, pos: int, slots: nat)
    requires
        is_cut(s, t, k),
    ensures
        cut_of(spec_pool_slots(s, pos, slots), spec_pool_slots(t, pos, slots), pos, k),
    decreases slots,
{
    lemma_cut_pool_entries(s, t, k);
    if slots > 0 {
        assert(cut_of(
            ProxyConstPoolType::grammar(s, pos),
            ProxyConstPoolType::grammar(t, pos),
            pos,
            k,
        ));
        match ProxyConstPoolType::grammar(s, pos) {
            Err(_) => {},
            Ok((entry, next)) => {
                if !entry.is_wide() {
                    lemma_cut_pool_slots(s, t, k, next, (slots - 1) as nat);
                } else if slots > 1 {
                    lemma_cut_pool_slots(s, t, k, next, (slots - 2) as nat);
                }
            },
        }
    }
}

/// The constant pool.
pub proof fn lemma_cut_const_pool(s: Seq<u8>, t: Seq<u8>, k: int, pos: int)
    requires
        is_cut(s, t, k),
    ensures
        cut_of(spec_const_pool(s, pos), spec_const_pool(t, pos), pos, k),
{
    lemma_cut_primitives(s, t, k);
    assert(cut_of(spec_read_u16(s, pos), spec_read_u16(t, pos), pos, k));
    match spec_read_u16(s, pos) {
        Err(_) => {},
        Ok((count, p)) => {
            if count > 0 {
                lemma_cut_pool_slots(s, t, k, p, (count - 1) as nat);
            }
        },
    }
}

/// The indices into the constant pool that stand in the body of a class
/// file.
pub proof fn lemma_cut_lookups(s: Seq<u8>, t: Seq<u8>, k: int, pool: Seq<ConstPoolView>)
    requires
        is_cut(s, t, k),
    ensures
        forall|pos: int|
            #![trigger spec_find(s, pos, pool)]
            #![trigger spec_find(t, pos, pool)]
            cut_of(spec_find(s, pos, pool), spec_find(t, pos, pool), pos, k),
        forall|pos: int|
            #![trigger Utf8Info::linked_grammar(s, pos, pool)]
            #![trigger Utf8Info::linked_grammar(t, pos, pool)]
            cut_of(
                Utf8Info::linked_grammar(s, pos, pool),
                Utf8Info::linked_grammar(t, pos, pool),
                pos,
                k,
            ),
        forall|pos: int|
            #![trigger ClassInfo::linked_grammar(s, pos, pool)]
            #![trigger ClassInfo::linked_grammar(t, pos, pool)]
            cut_of(
                ClassInfo::linked_grammar(s, pos, pool),
                ClassInfo::linked_grammar(t, pos, pool),
                pos,
                k,
            ),
        forall|pos: int|
            #![trigger ConstValueType::linked_grammar(s, pos, pool)]
            #![trigger ConstValueType::linked_grammar(t, pos, pool)]
            cut_of(
                ConstValueType::linked_grammar(s, pos, pool),
                ConstValueType::linked_grammar(t, pos, pool),
                pos,
                k,
            ),
        forall|pos: int|
            #![trigger spec_class_if_any(s, pos, pool)]
            #![trigger spec_class_if_any(t, pos, pool)]
            cut_of(spec_class_if_any(s, pos, pool), spec_class_if_any(t, pos, pool), pos, k),
        forall|pos: int|
            #![trigger spec_super_class(s, pos, pool)]
            #![trigger spec_super_class(t, pos, pool)]
            cut_of(spec_super_class(s, pos, pool), spec_super_class(t, pos, pool), pos, k),
        forall|pos: int, mask: u16|
            #![trigger spec_flags(s, pos, mask)]
            #![trigger spec_flags(t, pos, mask)]
            cut_of(spec_flags(s, pos, mask), spec_flags(t, pos, mask), pos, k),
{
    lemma_cut_primitives(s, t, k);
    assert forall|pos: int|
        #![trigger spec_find(s, pos, pool)]
        #![trigger spec_find(t, pos, pool)]
        cut_of(spec_find(s, pos, pool), spec_find(t, pos, pool), pos, k) by {
        assert(cut_of(spec_read_u16(s, pos), spec_read_u16(t, pos), pos, k));
    }
    assert forall|pos: int|
        #![trigger Utf8Info::linked_grammar(s, pos, pool)]
        #![trigger Utf8Info::linked_grammar(t, pos, pool)]
        cut_of(
            Utf8Info::linked_grammar(s, pos, pool),
            Utf8Info::linked_grammar(t, pos, pool),
            pos,
            k,
        ) by {
        assert(cut_of(spec_find(s, pos, pool), spec_find(t, pos, pool), pos, k));
    }
    assert forall|pos: int|
        #![trigger ClassInfo::linked_grammar(s, pos, pool)]
        #![trigger ClassInfo::linked_grammar(t, pos, pool)]
        cut_of(
            ClassInfo::linked_grammar(s, pos, pool),
            ClassInfo::linked_grammar(t, pos, pool),
            pos,
            k,
        ) by {
        assert(cut_of(spec_find(s, pos, pool), spec_find(t, pos, pool), pos, k));
    }
    assert forall|pos: int|
        #![trigger ConstValueType::linked_grammar(s, pos, pool)]
        #![trigger ConstValueType::linked_grammar(t, pos, pool)]
        cut_of(
            ConstValueType::linked_grammar(s, pos, pool),
            ConstValueType::linked_grammar(t, pos, pool),
            pos,
            k,
        ) by {
        assert(cut_of(spec_find(s, pos, pool), spec_find(t, pos, pool), pos, k));
    }
    assert forall|pos: int|
        #![trigger spec_class_if_any(s, pos, pool)]
        #![trigger spec_class_if_any(t, pos, pool)]
        cut_of(spec_class_if_any(s, pos, pool), spec_class_if_any(t, pos, pool), pos, k) by {
        assert(cut_of(spec_find(s, pos, pool), spec_find(t, pos, pool), pos, k));
    }
    assert forall|pos: int|
        #![trigger spec_super_class(s, pos, pool)]
        #![trigger spec_super_class(t, pos, pool)]
        cut_of(spec_super_class(s, pos, pool), spec_super_class(t, pos, pool), pos, k) by {
        assert(cut_of(spec_read_u16(s, pos), spec_read_u16(t, pos), pos, k));
    }
    assert forall|pos: int, mask: u16|
        #![trigger spec_flags(s, pos, mask)]
        #![trigger spec_flags(t, pos, mask)]
        cut_of(spec_flags(s, pos, mask), spec_flags(t, pos, mask), pos, k) by {
        assert(cut_of(spec_read_u16(s, pos), spec_read_u16(t, pos), pos, k));
    }
}

/// The table of line numbers.
pub proof fn lemma_cut_line_numbers(s: Seq<u8>, t: Seq<u8>, k: int)
    requires
        is_cut(s, t, k),
    ensures
        forall|pos: int|
            #![trigger LineNumberEntry::grammar(s, pos)]
            #![trigger LineNumberEntry::grammar(t, pos)]
            cut_of(LineNumberEntry::grammar(s, pos), LineNumberEntry::grammar(t, pos), pos, k),
        forall|pos: int|
            #![trigger LineNumberTableAttribute::grammar(s, pos)]
            #![trigger LineNumberTableAttribute::grammar(t, pos)]
            cut_of(
                LineNumberTableAttribute::grammar(s, pos),
                LineNumberTableAttribute::grammar(t, pos),
                pos,
                k,
            ),
{
    lemma_cut_primitives(s, t, k);
    assert forall|pos: int|
        #![trigger LineNumberEntry::grammar(s, pos)]
        #![trigger LineNumberEntry::grammar(t, pos)]
        cut_of(LineNumberEntry::grammar(s, pos), LineNumberEntry::grammar(t, pos), pos, k) by {
        assert(cut_of(spec_read_u16(s, pos), spec_read_u16(t, pos), pos, k));
    }
    assert forall|pos: int|
        #![trigger LineNumberTableAttribute::grammar(s, pos)]
        #![trigger LineNumberTableAttribute::grammar(t, pos)]
        cut_of(
            LineNumberTableAttribute::grammar(s, pos),
            LineNumberTableAttribute::grammar(t, pos),
            pos,
            k,
        ) by {
        assert(cut_of(spec_read_u32(s, pos), spec_read_u32(t, pos), pos, k));
        assert(cuts(item::<LineNumberEntry>(s), item::<LineNumberEntry>(t), k));
        lemma_cut_table(item::<LineNumberEntry>(s), item::<LineNumberEntry>(t), s, t, k, pos + 4);
    }
}

/// The table of local variables.
pub proof fn lemma_cut_variables(s: Seq<u8>, t: Seq<u8>, k: int, pool: Seq<ConstPoolView>)
    requires
        is_cut(s, t, k),
    ensures
        forall|pos: int|
            #![trigger LocalVariableEntry::linked_grammar(s, pos, pool)]
            #![trigger LocalVariableEntry::linked_grammar(t, pos, pool)]
            cut_of(
                LocalVariableEntry::linked_grammar(s, pos, pool),
                LocalVariableEntry::linked_grammar(t, pos, pool),
                pos,
                k,
            ),
        forall|pos: int|
            #![trigger LocalVariableTableAttribute::linked_grammar(s, pos, pool)]
            #![trigger LocalVariableTableAttribute::linked_grammar(t, pos, pool)]
            cut_of(
                LocalVariableTableAttribute::linked_grammar(s, pos, pool),
                LocalVariableTableAttribute::linked_grammar(t, pos, pool),
                pos,
                k,
            ),
{
    lemma_cut_primitives(s, t, k);
    lemma_cut_lookups(s, t, k, pool);
    assert forall|pos: int|
        #![trigger LocalVariableEntry::linked_grammar(s, pos, pool)]
        #![trigger LocalVariableEntry::linked_grammar(t, pos, pool)]
        cut_of(
            LocalVariableEntry::linked_grammar(s, pos, pool),
            LocalVariableEntry::linked_grammar(t, pos, pool),
            pos,
            k,
        ) by {
        assert(cut_of(spec_read_u16(s, pos), spec_read_u16(t, pos), pos, k));
    }
    assert forall|pos: int|
        #![trigger LocalVariableTableAttribute::linked_grammar(s, pos, pool)]
        #![trigger LocalVariableTableAttribute::linked_grammar(t, pos, pool)]
        cut_of(
            LocalVariableTableAttribute::linked_grammar(s, pos, pool),
            LocalVariableTableAttribute::linked_grammar(t, pos, pool),
            pos,
            k,
        ) by {
        assert(cut_of(spec_read_u32(s, pos), spec_read_u32(t, pos), pos, k));
        assert(cuts(
            linked_item::<LocalVariableEntry>(s, pool),
            linked_item::<LocalVariableEntry>(t, pool),
            k,
        ));
        lemma_cut_table(
            linked_item::<LocalVariableEntry>(s, pool),
            linked_item::<LocalVariableEntry>(t, pool),
            s,
            t,
            k,
            pos + 4,
        );
    }
}

/// The attributes that hold no table.
pub proof fn lemma_cut_plain_attributes(s: Seq<u8>, t: Seq<u8>, k: int, pool: Seq<ConstPoolView>)
    requires
        is_cut(s, t, k),
    ensures
        forall|pos: int|
            #![trigger ConstantValueAttribute::linked_grammar(s, pos, pool)]
            #![trigger ConstantValueAttribute::linked_grammar(t, pos, pool)]
            cut_of(
                ConstantValueAttribute::linked_grammar(s, pos, pool),
                ConstantValueAttribute::linked_grammar(t, pos, pool),
                pos,
                k,
            ),
        forall|pos: int|
            #![trigger SourceFileAttribute::linked_grammar(s, pos, pool)]
            #![trigger SourceFileAttribute::linked_grammar(t, pos, pool)]
            cut_of(
                SourceFileAttribute::linked_grammar(s, pos, pool),
                SourceFileAttribute::linked_grammar(t, pos, pool),
                pos,
                k,
            ),
        forall|pos: int|
            #![trigger UnknownAttribute::grammar(s, pos)]
            #![trigger UnknownAttribute::grammar(t, pos)]
            cut_of(UnknownAttribute::grammar(s, pos), UnknownAttribute::grammar(t, pos), pos, k),
        forall|pos: int|
            #![trigger SyntheticAttribute::grammar(s, pos)]
            #![trigger SyntheticAttribute::grammar(t, pos)]
            cut_of(
                SyntheticAttribute::grammar(s, pos),
                SyntheticAttribute::grammar(t, pos),
                pos,
                k,
            ),
        forall|pos: int|
            #![trigger DeprecatedAttribute::grammar(s, pos)]
            #![trigger DeprecatedAttribute::grammar(t, pos)]
            cut_of(
                DeprecatedAttribute::grammar(s, pos),
                DeprecatedAttribute::grammar(t, pos),
                pos,
                k,
            ),
{
    lemma_cut_primitives(s, t, k);
    lemma_cut_lookups(s, t, k, pool);
    assert forall|pos: int|
        #![trigger ConstantValueAttribute::linked_grammar(s, pos, pool)]
        #![trigger ConstantValueAttribute::linked_grammar(t, pos, pool)]
        cut_of(
            ConstantValueAttribute::linked_grammar(s, pos, pool),
            ConstantValueAttribute::linked_grammar(t, pos, pool),
            pos,
            k,
        ) by {
        assert(cut_of(spec_read_u32(s, pos), spec_read_u32(t, pos), pos, k));
    }
    assert forall|pos: int|
        #![trigger SourceFileAttribute::linked_grammar(s, pos, pool)]
        #![trigger SourceFileAttribute::linked_grammar(t, pos, pool)]
        cut_of(
            SourceFileAttribute::linked_grammar(s, pos, pool),
            SourceFileAttribute::linked_grammar(t, pos, pool),
            pos,
            k,
        ) by {
        assert(cut_of(spec_read_u32(s, pos), spec_read_u32(t, pos), pos, k));
    }
    assert forall|pos: int|
        #![trigger UnknownAttribute::grammar(s, pos)]
        #![trigger UnknownAttribute::grammar(t, pos)]
        cut_of(UnknownAttribute::grammar(s, pos), UnknownAttribute::grammar(t, pos), pos, k) by {
        assert(cut_of(spec_read_u32(s, pos), spec_read_u32(t, pos), pos, k));
    }
    assert forall|pos: int|
        #![trigger SyntheticAttribute::grammar(s, pos)]
        #![trigger SyntheticAttribute::grammar(t, pos)]
        cut_of(
            SyntheticAttribute::grammar(s, pos),
            SyntheticAttribute::grammar(t, pos),
            pos,
            k,
        ) by {
        assert(cut_of(spec_read_u32(s, pos), spec_read_u32(t, pos), pos, k));
    }
    assert forall|pos: int|
        #![trigger DeprecatedAttribute::grammar(s, pos)]
        #![trigger DeprecatedAttribute::grammar(t, pos)]
        cut_of(
            DeprecatedAttribute::grammar(s, pos),
            DeprecatedAttribute::grammar(t, pos),
            pos,
            k,
        ) by {
        assert(cut_of(spec_read_u32(s, pos), spec_read_u32(t, pos), pos, k));
    }
}

/// The classes that a method throws and the inner classes.
pub proof fn lemma_cut_class_tables(s: Seq<u8>, t: Seq<u8>, k: int, pool: Seq<ConstPoolView>)
    requires
        is_cut(s, t, k),
    ensures
        forall|pos: int|
            #![trigger ExceptionsAttribute::linked_grammar(s, pos, pool)]
            #![trigger ExceptionsAttribute::linked_grammar(t, pos, pool)]
            cut_of(
                ExceptionsAttribute::linked_grammar(s, pos, pool),
                ExceptionsAttribute::linked_grammar(t, pos, pool),
                pos,
                k,
            ),
        forall|pos: int|
            #![trigger ClassEntry::linked_grammar(s, pos, pool)]
            #![trigger ClassEntry::linked_grammar(t, pos, pool)]
            cut_of(
                ClassEntry::linked_grammar(s, pos, pool),
                ClassEntry::linked_grammar(t, pos, pool),
                pos,
                k,
            ),
        forall|pos: int|
            #![trigger InnerClassesAttribute::linked_grammar(s, pos, pool)]
            #![trigger InnerClassesAttribute::linked_grammar(t, pos, pool)]
            cut_of(
                InnerClassesAttribute::linked_grammar(s, pos, pool),
                InnerClassesAttribute::linked_grammar(t, pos, pool),
                pos,
                k,
            ),
{
    lemma_cut_primitives(s, t, k);
    lemma_cut_lookups(s, t, k, pool);
    assert forall|pos: int|
        #![trigger ExceptionsAttribute::linked_grammar(s, pos, pool)]
        #![trigger ExceptionsAttribute::linked_grammar(t, pos, pool)]
        cut_of(
            ExceptionsAttribute::linked_grammar(s, pos, pool),
            ExceptionsAttribute::linked_grammar(t, pos, pool),
            pos,
            k,
        ) by {
        assert(cut_of(spec_read_u32(s, pos), spec_read_u32(t, pos), pos, k));
        assert(cuts(linked_item::<ClassInfo>(s, pool), linked_item::<ClassInfo>(t, pool), k));
        lemma_cut_table(
            linked_item::<ClassInfo>(s, pool),
            linked_item::<ClassInfo>(t, pool),
            s,
            t,
            k,
            pos + 4,
        );
    }
    assert forall|pos: int|
        #![trigger ClassEntry::linked_grammar(s, pos, pool)]
        #![trigger ClassEntry::linked_grammar(t, pos, pool)]
        cut_of(
            ClassEntry::linked_grammar(s, pos, pool),
            ClassEntry::linked_grammar(t, pos, pool),
            pos,
            k,
        ) by {
        assert(cut_of(
            spec_class_if_any(s, pos, pool),
            spec_class_if_any(t, pos, pool),
            pos,
            k,
        ));
    }
    assert forall|pos: int|
        #![trigger InnerClassesAttribute::linked_grammar(s, pos, pool)]
        #![trigger InnerClassesAttribute::linked_grammar(t, pos, pool)]
        cut_of(
            InnerClassesAttribute::linked_grammar(s, pos, pool),
            InnerClassesAttribute::linked_grammar(t, pos, pool),
            pos,
            k,
        ) by {
        assert(cut_of(spec_read_u32(s, pos), spec_read_u32(t, pos), pos, k));
        assert(cuts(linked_item::<ClassEntry>(s, pool), linked_item::<ClassEntry>(t, pool), k));
        lemma_cut_table(
            linked_item::<ClassEntry>(s, pool),
            linked_item::<ClassEntry>(t, pool),
            s,
            t,
            k,
            pos + 4,
        );
    }
}

/// The handlers of a `Code` attribute.
pub proof fn lemma_cut_handlers(s: Seq<u8>, t: Seq<u8>, k: int, pool: Seq<ConstPoolView>)
    requires
        is_cut(s, t, k),
    ensures
        forall|pos: int|
            #![trigger ExceptionEntry::linked_grammar(s, pos, pool)]
            #![trigger ExceptionEntry::linked_grammar(t, pos, pool)]
            cut_of(
                ExceptionEntry::linked_grammar(s, pos, pool),
                ExceptionEntry::linked_grammar(t, pos, pool),
                pos,
                k,
            ),
{
    lemma_cut_primitives(s, t, k);
    lemma_cut_lookups(s, t, k, pool);
    assert forall|pos: int|
        #![trigger ExceptionEntry::linked_grammar(s, pos, pool)]
        #![trigger ExceptionEntry::linked_grammar(t, pos, pool)]
        cut_of(
            ExceptionEntry::linked_grammar(s, pos, pool),
            ExceptionEntry::linked_grammar(t, pos, pool),
            pos,
            k,
        ) by {
        assert(cut_of(spec_read_u16(s, pos), spec_read_u16(t, pos), pos, k));
    }
}

/// The attributes of a `Code` attribute.
pub proof fn lemma_cut_code_attributes(s: Seq<u8>, t: Seq<u8>, k: int, pool: Seq<ConstPoolView>)
    requires
        is_cut(s, t, k),
    ensures
        forall|pos: int|
            #![trigger CodeAttributes::linked_grammar(s, pos, pool)]
            #![trigger CodeAttributes::linked_grammar(t, pos, pool)]
            cut_of(
                CodeAttributes::linked_grammar(s, pos, pool),
                CodeAttributes::linked_grammar(t, pos, pool),
                pos,
                k,
            ),
{
    lemma_cut_lookups(s, t, k, pool);
    lemma_cut_line_numbers(s, t, k);
    lemma_cut_variables(s, t, k, pool);
    lemma_cut_plain_attributes(s, t, k, pool);
    assert forall|pos: int|
        #![trigger CodeAttributes::linked_grammar(s, pos, pool)]
        #![trigger CodeAttributes::linked_grammar(t, pos, pool)]
        cut_of(
            CodeAttributes::linked_grammar(s, pos, pool),
            CodeAttributes::linked_grammar(t, pos, pool),
            pos,
            k,
        ) by {
        assert(cut_of(
            Utf8Info::linked_grammar(s, pos, pool),
            Utf8Info::linked_grammar(t, pos, pool),
            pos,
            k,
        ));
    }
}

/// The `Code` attribute.
pub proof fn lemma_cut_code(s: Seq<u8>, t: Seq<u8>, k: int, pool: Seq<ConstPoolView>)
    requires
        is_cut(s, t, k),
    ensures
        forall|pos: int|
            #![trigger CodeAttribute::linked_grammar(s, pos, pool)]
            #![trigger CodeAttribute::linked_grammar(t, pos, pool)]
            cut_of(
                CodeAttribute::linked_grammar(s, pos, pool),
                CodeAttribute::linked_grammar(t, pos, pool),
                pos,
                k,
            ),
{
    lemma_cut_primitives(s, t, k);
    lemma_cut_handlers(s, t, k, pool);
    lemma_cut_code_attributes(s, t, k, pool);
    assert forall|pos: int|
        #![trigger CodeAttribute::linked_grammar(s, pos, pool)]
        #![trigger CodeAttribute::linked_grammar(t, pos, pool)]
        cut_of(
            CodeAttribute::linked_grammar(s, pos, pool),
            CodeAttribute::linked_grammar(t, pos, pool),
            pos,
            k,
        ) by {
        assert(cut_of(spec_read_u32(s, pos), spec_read_u32(t, pos), pos, k));
        assert(cuts(
            linked_item::<ExceptionEntry>(s, pool),
            linked_item::<ExceptionEntry>(t, pool),
            k,
        ));
        assert forall|at: int|
            cut_of(
                #[trigger] spec_table(linked_item::<ExceptionEntry>(s, pool), s, at),
                spec_table(linked_item::<ExceptionEntry>(t, pool), t, at),
                at,
                k,
            ) by {
            lemma_cut_table(
                linked_item::<ExceptionEntry>(s, pool),
                linked_item::<ExceptionEntry>(t, pool),
                s,
                t,
                k,
                at,
            );
        }
        assert(cuts(
            linked_item::<CodeAttributes>(s, pool),
            linked_item::<CodeAttributes>(t, pool),
            k,
        ));
        assert forall|at: int|
            cut_of(
                #[trigger] spec_table(linked_item::<CodeAttributes>(s, pool), s, at),
                spec_table(linked_item::<CodeAttributes>(t, pool), t, at),
                at,
                k,
            ) by {
            lemma_cut_table(
                linked_item::<CodeAttributes>(s, pool),
                linked_item::<CodeAttributes>(t, pool),
                s,
                t,
                k,
                at,
            );
        }
    }
}

/// The body of an attribute of a class or a member.
pub proof fn lemma_cut_attribute_body(
    s: Seq<u8>,
    t: Seq<u8>,
    k: int,
    pool: Seq<ConstPoolView>,
    name: Seq<char>,
    p: int,
)
    requires
        is_cut(s, t, k),
    ensures
        cut_of(spec_attribute_body(name, s, p, pool), spec_attribute_body(name, t, p, pool), p, k),
{
    if name == "Synthetic"@ {
        lemma_cut_plain_attributes(s, t, k, pool);
        assert(cut_of(SyntheticAttribute::grammar(s, p), SyntheticAttribute::grammar(t, p), p, k));
    } else if name == "SourceFile"@ {
        lemma_cut_plain_attributes(s, t, k, pool);
        assert(cut_of(
            SourceFileAttribute::linked_grammar(s, p, pool),
            SourceFileAttribute::linked_grammar(t, p, pool),
            p,
            k,
        ));
    } else if name == "LineNumberTable"@ {
        lemma_cut_line_numbers(s, t, k);
        assert(cut_of(
            LineNumberTableAttribute::grammar(s, p),
            LineNumberTableAttribute::grammar(t, p),
            p,
            k,
        ));
    } else if name == "LocalVariableTable"@ {
        lemma_cut_variables(s, t, k, pool);
        assert(cut_of(
            LocalVariableTableAttribute::linked_grammar(s, p, pool),
            LocalVariableTableAttribute::linked_grammar(t, p, pool),
            p,
            k,
        ));
    } else if name == "Deprecated"@ {
        lemma_cut_plain_attributes(s, t, k, pool);
        assert(cut_of(
            DeprecatedAttribute::grammar(s, p),
            DeprecatedAttribute::grammar(t, p),
            p,
            k,
        ));
    } else if name == "InnerClasses"@ {
        lemma_cut_class_tables(s, t, k, pool);
        assert(cut_of(
            InnerClassesAttribute::linked_grammar(s, p, pool),
            InnerClassesAttribute::linked_grammar(t, p, pool),
            p,
            k,
        ));
    } else if name == "Exceptions"@ {
        lemma_cut_class_tables(s, t, k, pool);
        assert(cut_of(
            ExceptionsAttribute::linked_grammar(s, p, pool),
            ExceptionsAttribute::linked_grammar(t, p, pool),
            p,
            k,
        ));
    } else if name == "Code"@ {
        lemma_cut_code(s, t, k, pool);
        assert(cut_of(
            CodeAttribute::linked_grammar(s, p, pool),
            CodeAttribute::linked_grammar(t, p, pool),
            p,
            k,
        ));
    } else if name == "ConstantValue"@ {
        lemma_cut_plain_attributes(s, t, k, pool);
        assert(cut_of(
            ConstantValueAttribute::linked_grammar(s, p, pool),
            ConstantValueAttribute::linked_grammar(t, p, pool),
            p,
            k,
        ));
    } else {
        lemma_cut_plain_attributes(s, t, k, pool);
        assert(cut_of(UnknownAttribute::grammar(s, p), UnknownAttribute::grammar(t, p), p, k));
    }
}

/// An attribute of a class or a member.
pub proof fn lemma_cut_attribute(s: Seq<u8>, t: Seq<u8>, k: int, pool: Seq<ConstPoolView>)
    requires
        is_cut(s, t, k),
    ensures
        forall|pos: int|
            #![trigger Attribute::linked_grammar(s, pos, pool)]
            #![trigger Attribute::linked_grammar(t, pos, pool)]
            cut_of(
                Attribute::linked_grammar(s, pos, pool),
                Attribute::linked_grammar(t, pos, pool),
                pos,
                k,
            ),
        cuts(linked_item::<Attribute>(s, pool), linked_item::<Attribute>(t, pool), k),
{
    lemma_cut_lookups(s, t, k, pool);
    assert forall|pos: int|
        #![trigger Attribute::linked_grammar(s, pos, pool)]
        #![trigger Attribute::linked_grammar(t, pos, pool)]
        cut_of(
            Attribute::linked_grammar(s, pos, pool),
            Attribute::linked_grammar(t, pos, pool),
            pos,
            k,
        ) by {
        assert(cut_of(
            Utf8Info::linked_grammar(s, pos, pool),
            Utf8Info::linked_grammar(t, pos, pool),
            pos,
            k,
        ));
        match Utf8Info::linked_grammar(s, pos, pool) {
            Err(_) => {},
            Ok((name, p)) => {
                lemma_cut_attribute_body(s, t, k, pool, name, p);
            },
        }
    }
}

/// A field or a method.
pub proof fn lemma_cut_member(s: Seq<u8>, t: Seq<u8>, k: int, pool: Seq<ConstPoolView>)
    requires
        is_cut(s, t, k),
    ensures
        forall|pos: int|
            #![trigger ComponentInfo::linked_grammar(s, pos, pool)]
            #![trigger ComponentInfo::linked_grammar(t, pos, pool)]
            cut_of(
                ComponentInfo::linked_grammar(s, pos, pool),
                ComponentInfo::linked_grammar(t, pos, pool),
                pos,
                k,
            ),
        cuts(linked_item::<ComponentInfo>(s, pool), linked_item::<ComponentInfo>(t, pool), k),
{
    lemma_cut_lookups(s, t, k, pool);
    lemma_cut_attribute(s, t, k, pool);
    assert forall|pos: int|
        #![trigger ComponentInfo::linked_grammar(s, pos, pool)]
        #![trigger ComponentInfo::linked_grammar(t, pos, pool)]
        cut_of(
            ComponentInfo::linked_grammar(s, pos, pool),
            ComponentInfo::linked_grammar(t, pos, pool),
            pos,
            k,
        ) by {
        assert(cut_of(
            spec_flags(s, pos, ACCESS_SPECIFIER_MASK),
            spec_flags(t, pos, ACCESS_SPECIFIER_MASK),
            pos,
            k,
        ));
        assert(cuts(linked_item::<Attribute>(s, pool), linked_item::<Attribute>(t, pool), k));
        assert forall|at: int|
            cut_of(
                #[trigger] spec_table(linked_item::<Attribute>(s, pool), s, at),
                spec_table(linked_item::<Attribute>(t, pool), t, at),
                at,
                k,
            ) by {
            lemma_cut_table(
                linked_item::<Attribute>(s, pool),
                linked_item::<Attribute>(t, pool),
                s,
                t,
                k,
                at,
            );
        }
    }
}

/// What follows the constant pool in a class file.
pub proof fn lemma_cut_class_body(
    s: Seq<u8>,
    t: Seq<u8>,
    k: int,
    pos: int,
    version: ClassVersion,
    pool: Seq<ConstPoolView>,
)
    requires
        is_cut(s, t, k),
    ensures
        cut_of(
            spec_class_body(s, pos, version, pool),
            spec_class_body(t, pos, version, pool),
            pos,
            k,
        ),
{
    lemma_cut_lookups(s, t, k, pool);
    lemma_cut_attribute(s, t, k, pool);
    lemma_cut_member(s, t, k, pool);
    assert(cuts(linked_item::<ClassInfo>(s, pool), linked_item::<ClassInfo>(t, pool), k));
    assert forall|at: int|
        cut_of(
            #[trigger] spec_table(linked_item::<ClassInfo>(s, pool), s, at),
            spec_table(linked_item::<ClassInfo>(t, pool), t, at),
            at,
            k,
        ) by {
        lemma_cut_table(
            linked_item::<ClassInfo>(s, pool),
            linked_item::<ClassInfo>(t, pool),
            s,
            t,
            k,
            at,
        );
    }
    assert forall|at: int|
        cut_of(
            #[trigger] spec_table(linked_item::<ComponentInfo>(s, pool), s, at),
            spec_table(linked_item::<ComponentInfo>(t, pool), t, at),
            at,
            k,
        ) by {
        lemma_cut_table(
            linked_item::<ComponentInfo>(s, pool),
            linked_item::<ComponentInfo>(t, pool),
            s,
            t,
            k,
            at,
        );
    }
    assert forall|at: int|
        cut_of(
            #[trigger] spec_table(linked_item::<Attribute>(s, pool), s, at),
            spec_table(linked_item::<Attribute>(t, pool), t, at),
            at,
            k,
        ) by {
        lemma_cut_table(
            linked_item::<Attribute>(s, pool),
            linked_item::<Attribute>(t, pool),
            s,
            t,
            k,
            at,
        );
    }
    assert(cut_of(
        spec_flags(s, pos, CLASS_ACCESS_MASK),
        spec_flags(t, pos, CLASS_ACCESS_MASK),
        pos,
        k,
    ));
}

/// A class file that is cut to its first `k` bytes decodes as the whole
/// file does where the class ends within them, cannot be read where the
/// class ends behind them, and otherwise fails as the whole file does or
/// cannot be read.
pub proof fn lemma_cut_class(s: Seq<u8>, k: int)
    requires
        0 <= k <= s.len(),
    ensures
        cut_of(Class::grammar(s, 0), Class::grammar(s.take(k), 0), 0, k),
{
    let t = s.take(k);
    lemma_cut_primitives(s, t, k);
    assert(cut_of(spec_read_u32(s, 0), spec_read_u32(t, 0), 0, k));
    match spec_read_u32(s, 0) {
        Err(_) => {},
        Ok((magic, at1)) => {
            assert(cut_of(spec_read_u16(s, at1), spec_read_u16(t, at1), at1, k));
            assert(cut_of(ClassVersion::grammar(s, at1), ClassVersion::grammar(t, at1), at1, k));
            match ClassVersion::grammar(s, at1) {
                Err(_) => {},
                Ok((version, at2)) => {
                    lemma_cut_const_pool(s, t, k, at2);
                    match spec_const_pool(s, at2) {
                        Err(_) => {},
                        Ok((pool, at3)) => {
                            lemma_cut_class_body(s, t, k, at3, version, pool);
                        },
                    }
                },
            }
        },
    }
}

/// Cutting a class file short changes the outcome of decoding it to
/// `CannotRead` or not at all.
pub proof fn lemma_truncation(s: Seq<u8>, k: int)
    requires
        0 <= k <= s.len(),
    ensures
        spec_class(s.take(k)) == spec_class(s) || spec_class(s.take(k)) == Err::<
            ClassView,
            ErrorView,
        >(ErrorView::CannotRead),
        Class::grammar(s, 0) matches Ok((_, end)) && k < end ==> spec_class(s.take(k)) == Err::<
            ClassView,
            ErrorView,
        >(ErrorView::CannotRead),
{
    lemma_cut_class(s, k);
}

/// What the first `k` bytes of an input decide, the whole input confirms:
/// where they decode to a class, or fail with another error than
/// `CannotRead`, the whole input decodes to the same class, ending at the
/// same position, or fails with the same error.
pub proof fn lemma_prefix_decides(s: Seq<u8>, k: int)
    requires
        0 <= k <= s.len(),
    ensures
        Class::grammar(s.take(k), 0) != Err::<(ClassView, int), ErrorView>(ErrorView::CannotRead)
            ==> Class::grammar(s, 0) == Class::grammar(s.take(k), 0),
{
    lemma_cut_class(s, k);
}

} // verus!
