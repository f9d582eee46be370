//! The constant pool: reading its slots, linking them, and looking entries
//! up by the indices that the rest of the file holds.

use crate::attributes::{ConstValueType, ConstValueView};
use crate::const_pool::{ClassInfo, ConstPoolType, ConstPoolView, Utf8Info};
use crate::error::{DeserializationError, ErrorView, Parsed};
use crate::grammar::{
    cons, lemma_prepend_cons, lemma_prepend_nothing, lemma_push_deep_view, prepend, Deserializable,
    DeserializableLinked,
};
use crate::proxy::{
    get_real_index, names_slot, resolve_all, spec_link_all, ClassProxy, DoubleProxy, FieldRefProxy,
    InterfaceMethodRefProxy, MethodRefProxy, NameAndTypeProxy, Proxy, ProxyConstPoolType,
    ProxyToProxyClass, ProxyToProxyNameAndType, ProxyView, StringProxy,
};
use crate::reader::{
    parsed, share, spec_read_i32, spec_read_i64, spec_read_u16, spec_read_u32, spec_read_u64,
    spec_read_u8, spec_read_utf8, ByteCursor,
};
use crate::text::{append_decimal, spec_decimal};
use vstd::prelude::*;

verus! {

impl Deserializable for Utf8Info {
    open spec fn grammar(s: Seq<u8>, pos: int) -> Parsed<Seq<char>> {
        spec_read_utf8(s, pos)
    }

    fn deserialize(cursor: &mut ByteCursor) -> (r: Result<Utf8Info, DeserializationError>) {
        cursor.read_utf8()
    }
}

/// A `u16` index of a slot of the pool, as an entry of the pool holds it.
/// It is kept as it is read; the index 0, which names no slot, is a link
/// error at once.
pub open spec fn spec_index(s: Seq<u8>, pos: int) -> Parsed<u16> {
    match spec_read_u16(s, pos) {
        Err(e) => Err(e),
        Ok((index, next)) => if index == 0 {
            Err(ErrorView::Link)
        } else {
            Ok((index, next))
        },
    }
}

/// Reads the index that an entry of the pool holds.
pub fn deserialize_index(cursor: &mut ByteCursor) -> (r: Result<u16, DeserializationError>)
    ensures
        parsed(
            r,
            *old(cursor),
            *final(cursor),
            spec_index(old(cursor).bytes(), old(cursor).position()),
        ),
{
    let index = cursor.read_u16()?;
    get_real_index(index)?;
    Ok(index)
}

impl Deserializable for Proxy {
    open spec fn grammar(s: Seq<u8>, pos: int) -> Parsed<Proxy> {
        match spec_index(s, pos) {
            Err(e) => Err(e),
            Ok((index, next)) => Ok((Proxy(index), next)),
        }
    }

    fn deserialize(cursor: &mut ByteCursor) -> (r: Result<Proxy, DeserializationError>) {
        Ok(Proxy(deserialize_index(cursor)?))
    }
}

impl Deserializable for NameAndTypeProxy {
    open spec fn grammar(s: Seq<u8>, pos: int) -> Parsed<NameAndTypeProxy> {
        match spec_index(s, pos) {
            Err(e) => Err(e),
            Ok((name, at1)) => match spec_index(s, at1) {
                Err(e) => Err(e),
                Ok((descriptor, at2)) => Ok(
                    (NameAndTypeProxy { name: Proxy(name), descriptor: Proxy(descriptor) }, at2),
                ),
            },
        }
    }

    fn deserialize(cursor: &mut ByteCursor) -> (r: Result<NameAndTypeProxy, DeserializationError>) {
        let name = deserialize_index(cursor)?;
        let descriptor = deserialize_index(cursor)?;
        Ok(NameAndTypeProxy { name: Proxy(name), descriptor: Proxy(descriptor) })
    }
}

impl Deserializable for DoubleProxy {
    open spec fn grammar(s: Seq<u8>, pos: int) -> Parsed<DoubleProxy> {
        match spec_index(s, pos) {
            Err(e) => Err(e),
            Ok((class, at1)) => match spec_index(s, at1) {
                Err(e) => Err(e),
                Ok((name_and_type, at2)) => Ok(
                    (
                        DoubleProxy {
                            class: ProxyToProxyClass(class),
                            name_and_type: ProxyToProxyNameAndType(name_and_type),
                        },
                        at2,
                    ),
                ),
            },
        }
    }

    fn deserialize(cursor: &mut ByteCursor) -> (r: Result<DoubleProxy, DeserializationError>) {
        let class = deserialize_index(cursor)?;
        let name_and_type = deserialize_index(cursor)?;
        Ok(
            DoubleProxy {
                class: ProxyToProxyClass(class),
                name_and_type: ProxyToProxyNameAndType(name_and_type),
            },
        )
    }
}

/// The text of the error for a tag that stands for no kind of entry.
pub open spec fn spec_invalid_tag_text(tag: u8) -> Seq<char> {
    "Invalid const pool type id: "@ + spec_decimal(tag as nat)
}

fn invalid_tag(tag: u8) -> (e: DeserializationError)
    ensures
        e.deep_view() == ErrorView::Parsing(spec_invalid_tag_text(tag)),
{
    let mut text = "Invalid const pool type id: ".to_owned();
    append_decimal(&mut text, tag);
    DeserializationError::Parsing(text)
}

impl Deserializable for ProxyConstPoolType {
    /// A tag byte and the payload that the tag announces.
    open spec fn grammar(s: Seq<u8>, pos: int) -> Parsed<ProxyView> {
        match spec_read_u8(s, pos) {
            Err(e) => Err(e),
            Ok((tag, p)) => if tag == 1 {
                match spec_read_utf8(s, p) {
                    Err(e) => Err(e),
                    Ok((text, q)) => Ok((ProxyView::Value(ConstPoolView::Utf8(text)), q)),
                }
            } else if tag == 3 {
                match spec_read_i32(s, p) {
                    Err(e) => Err(e),
                    Ok((value, q)) => Ok((ProxyView::Value(ConstPoolView::Int(value)), q)),
                }
            } else if tag == 4 {
                match spec_read_u32(s, p) {
                    Err(e) => Err(e),
                    Ok((bits, q)) => Ok((ProxyView::Value(ConstPoolView::Float(bits)), q)),
                }
            } else if tag == 5 {
                match spec_read_i64(s, p) {
                    Err(e) => Err(e),
                    Ok((value, q)) => Ok((ProxyView::Value(ConstPoolView::Long(value)), q)),
                }
            } else if tag == 6 {
                match spec_read_u64(s, p) {
                    Err(e) => Err(e),
                    Ok((bits, q)) => Ok((ProxyView::Value(ConstPoolView::Double(bits)), q)),
                }
            } else if tag == 7 {
                match Proxy::grammar(s, p) {
                    Err(e) => Err(e),
                    Ok((proxy, q)) => Ok((ProxyView::Class(ClassProxy(proxy)), q)),
                }
            } else if tag == 8 {
                match Proxy::grammar(s, p) {
                    Err(e) => Err(e),
                    Ok((proxy, q)) => Ok((ProxyView::String(StringProxy(proxy)), q)),
                }
            } else if tag == 9 {
                match DoubleProxy::grammar(s, p) {
                    Err(e) => Err(e),
                    Ok((proxy, q)) => Ok((ProxyView::FieldRef(FieldRefProxy(proxy)), q)),
                }
            } else if tag == 10 {
                match DoubleProxy::grammar(s, p) {
                    Err(e) => Err(e),
                    Ok((proxy, q)) => Ok((ProxyView::MethodRef(MethodRefProxy(proxy)), q)),
                }
            } else if tag == 11 {
                match DoubleProxy::grammar(s, p) {
                    Err(e) => Err(e),
                    Ok((proxy, q)) => Ok(
                        (ProxyView::InterfaceMethodRef(InterfaceMethodRefProxy(proxy)), q),
                    ),
                }
            } else if tag == 12 {
                match NameAndTypeProxy::grammar(s, p) {
                    Err(e) => Err(e),
                    Ok((proxy, q)) => Ok((ProxyView::NameAndType(proxy), q)),
                }
            } else {
                Err(ErrorView::Parsing(spec_invalid_tag_text(tag)))
            },
        }
    }

    fn deserialize(cursor: &mut ByteCursor) -> (r: Result<
        ProxyConstPoolType,
        DeserializationError,
    >) {
        let tag = cursor.read_u8()?;
        if tag == 1 {
            Ok(ProxyConstPoolType::Value(ConstPoolType::Utf8(Utf8Info::deserialize(cursor)?)))
        } else if tag == 3 {
            Ok(ProxyConstPoolType::Value(ConstPoolType::Int(cursor.read_i32()?)))
        } else if tag == 4 {
            Ok(ProxyConstPoolType::Value(ConstPoolType::Float(cursor.read_f32()?)))
        } else if tag == 5 {
            Ok(ProxyConstPoolType::Value(ConstPoolType::Long(cursor.read_i64()?)))
        } else if tag == 6 {
            Ok(ProxyConstPoolType::Value(ConstPoolType::Double(cursor.read_f64()?)))
        } else if tag == 7 {
            Ok(ProxyConstPoolType::Class(ClassProxy(Proxy::deserialize(cursor)?)))
        } else if tag == 8 {
            Ok(ProxyConstPoolType::String(StringProxy(Proxy::deserialize(cursor)?)))
        } else if tag == 9 {
            Ok(ProxyConstPoolType::FieldRef(FieldRefProxy(DoubleProxy::deserialize(cursor)?)))
        } else if tag == 10 {
            Ok(ProxyConstPoolType::MethodRef(MethodRefProxy(DoubleProxy::deserialize(cursor)?)))
        } else if tag == 11 {
            Ok(
                ProxyConstPoolType::InterfaceMethodRef(
                    InterfaceMethodRefProxy(DoubleProxy::deserialize(cursor)?),
                ),
            )
        } else if tag == 12 {
            Ok(ProxyConstPoolType::NameAndType(NameAndTypeProxy::deserialize(cursor)?))
        } else {
            Err(invalid_tag(tag))
        }
    }
}

/// The text of the error for a `Long` or a `Double` in the last slot of
/// the pool, where no slot is left for it to reserve.
pub open spec fn spec_wide_at_end_text() -> Seq<char> {
    "Const pool ends inside a two-slot entry."@
}

/// The text of the error for a pool that the file gives the count zero.
pub open spec fn spec_empty_count_text() -> Seq<char> {
    "Const pool count must not be zero."@
}

/// The slot that follows a `Long` or a `Double`.
pub open spec fn reserved_slot() -> ProxyView {
    ProxyView::Value(ConstPoolView::Reserved)
}

/// The slots of a pool of `slots` slots, as far as they are left to read
/// at `pos`. A `Long` or a `Double` fills its own slot and reserves the
/// next one, which must still belong to the pool.
pub open spec fn spec_pool_slots(s: Seq<u8>, pos: int, slots: nat) -> Parsed<Seq<ProxyView>>
    decreases slots,
{
    if slots == 0 {
        Ok((Seq::empty(), pos))
    } else {
        match ProxyConstPoolType::grammar(s, pos) {
            Err(e) => Err(e),
            Ok((entry, next)) => if !entry.is_wide() {
                cons(entry, spec_pool_slots(s, next, (slots - 1) as nat))
            } else if slots == 1 {
                Err(ErrorView::Parsing(spec_wide_at_end_text()))
            } else {
                cons(entry, cons(reserved_slot(), spec_pool_slots(s, next, (slots - 2) as nat)))
            },
        }
    }
}

/// The constant pool: a `u16` count, which is one more than the number of
/// slots, the slots, and then the linking of every slot against all of
/// them.
pub open spec fn spec_const_pool(s: Seq<u8>, pos: int) -> Parsed<Seq<ConstPoolView>> {
    match spec_read_u16(s, pos) {
        Err(e) => Err(e),
        Ok((count, p)) => if count == 0 {
            Err(ErrorView::Parsing(spec_empty_count_text()))
        } else {
            match spec_pool_slots(s, p, (count - 1) as nat) {
                Err(e) => Err(e),
                Ok((raw, q)) => match spec_link_all(raw) {
                    None => Err(ErrorView::Link),
                    Some(pool) => Ok((pool, q)),
                },
            }
        },
    }
}

/// Reads the slots of a pool of `slots` slots.
pub fn deserialize_pool_slots(cursor: &mut ByteCursor, slots: u16) -> (r: Result<
    Vec<ProxyConstPoolType>,
    DeserializationError,
>)
    ensures
        parsed(
            r,
            *old(cursor),
            *final(cursor),
            spec_pool_slots(old(cursor).bytes(), old(cursor).position(), slots as nat),
        ),
{
    let ghost s = cursor.bytes();
    let ghost whole = spec_pool_slots(s, cursor.position(), slots as nat);
    let mut raw: Vec<ProxyConstPoolType> = Vec::new();
    proof {
        assert(raw.deep_view() =~= Seq::empty());
        assert(Seq::<ProxyView>::empty() + Seq::<ProxyView>::empty() =~= Seq::empty());
    }
    while raw.len() < slots as usize
        invariant
            raw.len() <= slots,
            cursor.bytes() == s,
            s == old(cursor).bytes(),
            whole == spec_pool_slots(s, old(cursor).position(), slots as nat),
            whole == prepend(
                raw.deep_view(),
                spec_pool_slots(s, cursor.position(), (slots - raw.len()) as nat),
            ),
        decreases slots - raw.len(),
    {
        let ghost before = raw@;
        let ghost left = (slots - raw.len()) as nat;
        let entry = ProxyConstPoolType::deserialize(cursor)?;
        let wide = entry.is_wide();
        if wide && slots as usize - raw.len() < 2 {
            let text = "Const pool ends inside a two-slot entry.".to_owned();
            return Err(DeserializationError::Parsing(text));
        }
        proof {
            lemma_push_deep_view(before, entry, before.push(entry));
            if wide {
                let tail = spec_pool_slots(s, cursor.position(), (left - 2) as nat);
                lemma_prepend_cons(raw.deep_view(), entry.deep_view(), cons(reserved_slot(), tail));
                lemma_prepend_cons(raw.deep_view().push(entry.deep_view()), reserved_slot(), tail);
            } else {
                let tail = spec_pool_slots(s, cursor.position(), (left - 1) as nat);
                lemma_prepend_cons(raw.deep_view(), entry.deep_view(), tail);
            }
        }
        raw.push(entry);
        if wide {
            let ghost middle = raw@;
            let reserved = ProxyConstPoolType::Value(ConstPoolType::Reserved);
            proof {
                lemma_push_deep_view(middle, reserved, middle.push(reserved));
            }
            raw.push(reserved);
        }
    }
    proof {
        lemma_prepend_nothing(raw.deep_view(), cursor.position());
    }
    Ok(raw)
}

/// Reads the constant pool and links it.
pub fn deserialize_const_pool(cursor: &mut ByteCursor) -> (r: Result<
    Vec<ConstPoolType>,
    DeserializationError,
>)
    ensures
        parsed(
            r,
            *old(cursor),
            *final(cursor),
            spec_const_pool(old(cursor).bytes(), old(cursor).position()),
        ),
{
    let count = cursor.read_u16()?;
    if count == 0 {
        return Err(DeserializationError::Parsing("Const pool count must not be zero.".to_owned()));
    }
    let raw = deserialize_pool_slots(cursor, count - 1)?;
    let pool = resolve_all(raw.as_slice())?;
    Ok(pool)
}

/// The entry that a `u16` index at `pos` names in `pool`: nothing for the
/// index 0, and a link error for an index behind the last slot.
pub open spec fn spec_find(s: Seq<u8>, pos: int, pool: Seq<ConstPoolView>) -> Parsed<
    Option<ConstPoolView>,
> {
    match spec_read_u16(s, pos) {
        Err(e) => Err(e),
        Ok((index, next)) => if index == 0 {
            Ok((None, next))
        } else if index <= pool.len() {
            Ok((Some(pool[index - 1]), next))
        } else {
            Err(ErrorView::Link)
        },
    }
}

/// Reads a `u16` index and looks it up in `pool`.
pub fn find_const_pool_element<'a>(cursor: &mut ByteCursor, pool: &'a [ConstPoolType]) -> (r:
    Result<Option<&'a ConstPoolType>, DeserializationError>)
    ensures
        parsed(
            r,
            *old(cursor),
            *final(cursor),
            spec_find(old(cursor).bytes(), old(cursor).position(), pool.deep_view()),
        ),
{
    let index = cursor.read_u16()?;
    if index == 0 {
        Ok(None)
    } else if index as usize <= pool.len() {
        Ok(Some(&pool[index as usize - 1]))
    } else {
        Err(DeserializationError::Link)
    }
}

impl DeserializableLinked for Utf8Info {
    /// A `u16` index that must name a `Utf8` entry.
    open spec fn linked_grammar(s: Seq<u8>, pos: int, pool: Seq<ConstPoolView>) -> Parsed<
        Seq<char>,
    > {
        match spec_find(s, pos, pool) {
            Err(e) => Err(e),
            Ok((Some(ConstPoolView::Utf8(text)), next)) => Ok((text, next)),
            Ok(_) => Err(ErrorView::Link),
        }
    }

    fn deserialize_link(cursor: &mut ByteCursor, pool: &[ConstPoolType]) -> (r: Result<
        Utf8Info,
        DeserializationError,
    >) {
        match find_const_pool_element(cursor, pool)? {
            Some(ConstPoolType::Utf8(info)) => Ok(share(info)),
            _ => Err(DeserializationError::Link),
        }
    }
}

impl DeserializableLinked for ClassInfo {
    /// A `u16` index that must name a `Class` entry.
    open spec fn linked_grammar(s: Seq<u8>, pos: int, pool: Seq<ConstPoolView>) -> Parsed<
        Seq<char>,
    > {
        match spec_find(s, pos, pool) {
            Err(e) => Err(e),
            Ok((Some(ConstPoolView::Class(name)), next)) => Ok((name, next)),
            Ok(_) => Err(ErrorView::Link),
        }
    }

    fn deserialize_link(cursor: &mut ByteCursor, pool: &[ConstPoolType]) -> (r: Result<
        ClassInfo,
        DeserializationError,
    >) {
        match find_const_pool_element(cursor, pool)? {
            Some(ConstPoolType::Class(info)) => Ok(info.clone()),
            _ => Err(DeserializationError::Link),
        }
    }
}

/// A `u16` index that names a class or stands for none: the index 0
/// stands for no class, and any other index must name a `Class` entry.
pub open spec fn spec_class_if_any(s: Seq<u8>, pos: int, pool: Seq<ConstPoolView>) -> Parsed<
    Option<Seq<char>>,
> {
    match spec_find(s, pos, pool) {
        Err(e) => Err(e),
        Ok((None, next)) => Ok((None, next)),
        Ok((Some(ConstPoolView::Class(name)), next)) => Ok((Some(name), next)),
        Ok(_) => Err(ErrorView::Link),
    }
}

/// Reads a `u16` index that names a class or stands for none.
pub fn deserialize_class_if_any(cursor: &mut ByteCursor, pool: &[ConstPoolType]) -> (r: Result<
    Option<ClassInfo>,
    DeserializationError,
>)
    ensures
        parsed(
            r,
            *old(cursor),
            *final(cursor),
            spec_class_if_any(old(cursor).bytes(), old(cursor).position(), pool.deep_view()),
        ),
{
    match find_const_pool_element(cursor, pool)? {
        None => Ok(None),
        Some(ConstPoolType::Class(info)) => Ok(Some(info.clone())),
        Some(_) => Err(DeserializationError::Link),
    }
}

/// The `u16` index of the superclass. Here alone an index that names no
/// `Class` entry, be it 0, behind the last slot or the index of a slot of
/// another variant, is no error: the class then has no superclass.
pub open spec fn spec_super_class(s: Seq<u8>, pos: int, pool: Seq<ConstPoolView>) -> Parsed<
    Option<Seq<char>>,
> {
    match spec_read_u16(s, pos) {
        Err(e) => Err(e),
        Ok((index, next)) => if names_slot(index, pool.len()) {
            match pool[index - 1] {
                ConstPoolView::Class(name) => Ok((Some(name), next)),
                _ => Ok((None, next)),
            }
        } else {
            Ok((None, next))
        },
    }
}

/// Reads the index of the superclass.
pub fn deserialize_super_class(cursor: &mut ByteCursor, pool: &[ConstPoolType]) -> (r: Result<
    Option<ClassInfo>,
    DeserializationError,
>)
    ensures
        parsed(
            r,
            *old(cursor),
            *final(cursor),
            spec_super_class(old(cursor).bytes(), old(cursor).position(), pool.deep_view()),
        ),
{
    let index = cursor.read_u16()?;
    if index == 0 || index as usize > pool.len() {
        return Ok(None);
    }
    match &pool[index as usize - 1] {
        ConstPoolType::Class(info) => Ok(Some(info.clone())),
        _ => Ok(None),
    }
}

impl DeserializableLinked for ConstValueType {
    /// A `u16` index that must name a number or a `String` entry.
    open spec fn linked_grammar(s: Seq<u8>, pos: int, pool: Seq<ConstPoolView>) -> Parsed<
        ConstValueView,
    > {
        match spec_find(s, pos, pool) {
            Err(e) => Err(e),
            Ok((Some(ConstPoolView::Long(value)), next)) => Ok((ConstValueView::Long(value), next)),
            Ok((Some(ConstPoolView::Int(value)), next)) => Ok((ConstValueView::Int(value), next)),
            Ok((Some(ConstPoolView::Float(bits)), next)) => Ok((ConstValueView::Float(bits), next)),
            Ok((Some(ConstPoolView::Double(bits)), next)) => Ok(
                (ConstValueView::Double(bits), next),
            ),
            Ok((Some(ConstPoolView::String(text)), next)) => Ok(
                (ConstValueView::String(text), next),
            ),
            Ok(_) => Err(ErrorView::Link),
        }
    }

    fn deserialize_link(cursor: &mut ByteCursor, pool: &[ConstPoolType]) -> (r: Result<
        ConstValueType,
        DeserializationError,
    >) {
        match find_const_pool_element(cursor, pool)? {
            Some(ConstPoolType::Long(data)) => Ok(ConstValueType::Long(*data)),
            Some(ConstPoolType::Int(data)) => Ok(ConstValueType::Int(*data)),
            Some(ConstPoolType::Float(data)) => Ok(ConstValueType::Float(*data)),
            Some(ConstPoolType::Double(data)) => Ok(ConstValueType::Double(*data)),
            Some(ConstPoolType::String(data)) => Ok(ConstValueType::String(share(data))),
            _ => Err(DeserializationError::Link),
        }
    }
}

} // verus!
