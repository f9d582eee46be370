//! The building blocks that the grammar of a class file is put together
//! from: what it means to decode a value at a position of the input, and
//! how runs of values follow one another.

use crate::const_pool::{ConstPoolType, ConstPoolView};
use crate::error::{DeserializationError, Parsed};
use crate::reader::{parsed, spec_read_u16, ByteCursor};
use vstd::prelude::*;

verus! {

/// `x` put in front of what `rest` yields.
pub open spec fn cons<T>(x: T, rest: Parsed<Seq<T>>) -> Parsed<Seq<T>> {
    match rest {
        Err(e) => Err(e),
        Ok((items, end)) => Ok((seq![x] + items, end)),
    }
}

/// `front` put in front of what `rest` yields.
pub open spec fn prepend<T>(front: Seq<T>, rest: Parsed<Seq<T>>) -> Parsed<Seq<T>> {
    match rest {
        Err(e) => Err(e),
        Ok((items, end)) => Ok((front + items, end)),
    }
}

/// `n` values one after the other, each decoded by `item` where the one
/// before it ended. The first error ends the run.
pub open spec fn spec_repeat<T>(item: spec_fn(int) -> Parsed<T>, pos: int, n: nat) -> Parsed<
    Seq<T>,
>
    decreases n,
{
    if n == 0 {
        Ok((Seq::empty(), pos))
    } else {
        match item(pos) {
            Err(e) => Err(e),
            Ok((x, next)) => cons(x, spec_repeat(item, next, (n - 1) as nat)),
        }
    }
}

/// A `u16` count followed by that many values.
pub open spec fn spec_table<T>(item: spec_fn(int) -> Parsed<T>, s: Seq<u8>, pos: int) -> Parsed<
    Seq<T>,
> {
    match spec_read_u16(s, pos) {
        Err(e) => Err(e),
        Ok((n, next)) => spec_repeat(item, next, n as nat),
    }
}

/// Putting `x` behind `front` and then going on is the same as going on
/// from `x`.
pub proof fn lemma_prepend_cons<T>(front: Seq<T>, x: T, rest: Parsed<Seq<T>>)
    ensures
        prepend(front, cons(x, rest)) == prepend(front.push(x), rest),
{
    match rest {
        Err(e) => {},
        Ok((items, end)) => {
            assert(front + (seq![x] + items) =~= front.push(x) + items);
        },
    }
}

/// A run of no values adds nothing.
pub proof fn lemma_prepend_nothing<T>(front: Seq<T>, end: int)
    ensures
        prepend(front, Ok((Seq::empty(), end))) == Ok::<(Seq<T>, int), crate::error::ErrorView>(
            (front, end),
        ),
{
    assert(front + Seq::<T>::empty() =~= front);
}

/// The model of a vector with one more element.
pub proof fn lemma_push_deep_view<T: DeepView>(before: Seq<T>, x: T, after: Seq<T>)
    requires
        after == before.push(x),
    ensures
        Seq::new(after.len(), |i: int| after[i].deep_view()) == Seq::new(
            before.len(),
            |i: int| before[i].deep_view(),
        ).push(x.deep_view()),
{
    assert(Seq::new(after.len(), |i: int| after[i].deep_view()) =~= Seq::new(
        before.len(),
        |i: int| before[i].deep_view(),
    ).push(x.deep_view()));
}

/// A value that is decoded from the input alone.
pub trait Deserializable: Sized + DeepView {
    /// What the input holds at `pos`.
    spec fn grammar(s: Seq<u8>, pos: int) -> Parsed<<Self as DeepView>::V>;

    /// Decodes the value at the cursor and leaves the cursor behind it.
    fn deserialize(cursor: &mut ByteCursor) -> (r: Result<Self, DeserializationError>)
        ensures
            parsed(
                r,
                *old(cursor),
                *final(cursor),
                Self::grammar(old(cursor).bytes(), old(cursor).position()),
            ),
    ;
}

/// A value that is decoded from the input and a linked constant pool.
pub trait DeserializableLinked: Sized + DeepView {
    /// What the input holds at `pos`, read against `pool`.
    spec fn linked_grammar(s: Seq<u8>, pos: int, pool: Seq<ConstPoolView>) -> Parsed<
        <Self as DeepView>::V,
    >;

    /// Decodes the value at the cursor and leaves the cursor behind it.
    fn deserialize_link(cursor: &mut ByteCursor, pool: &[ConstPoolType]) -> (r: Result<
        Self,
        DeserializationError,
    >)
        ensures
            parsed(
                r,
                *old(cursor),
                *final(cursor),
                Self::linked_grammar(old(cursor).bytes(), old(cursor).position(), pool.deep_view()),
            ),
    ;
}

/// The grammar of `T` on the input `s`, as a function of the position.
pub open spec fn item<T: Deserializable>(s: Seq<u8>) -> spec_fn(int) -> Parsed<
    <T as DeepView>::V,
> {
    |pos: int| T::grammar(s, pos)
}

/// The grammar of `T` on the input `s` and the pool `pool`, as a function
/// of the position.
pub open spec fn linked_item<T: DeserializableLinked>(
    s: Seq<u8>,
    pool: Seq<ConstPoolView>,
) -> spec_fn(int) -> Parsed<<T as DeepView>::V> {
    |pos: int| T::linked_grammar(s, pos, pool)
}

/// Decodes `n` values one after the other.
pub fn deserialize_items<T: Deserializable>(cursor: &mut ByteCursor, n: u16) -> (r: Result<
    Vec<T>,
    DeserializationError,
>)
    ensures
        parsed(
            r,
            *old(cursor),
            *final(cursor),
            spec_repeat(item::<T>(old(cursor).bytes()), old(cursor).position(), n as nat),
        ),
{
    let ghost s = cursor.bytes();
    let ghost whole = spec_repeat(item::<T>(s), cursor.position(), n as nat);
    let mut items: Vec<T> = Vec::new();
    let mut i: u16 = 0;
    proof {
        assert(items.deep_view() =~= Seq::empty());
        assert(Seq::<<T as DeepView>::V>::empty() + Seq::<<T as DeepView>::V>::empty()
            =~= Seq::empty());
    }
    while i < n
        invariant
            i <= n,
            cursor.bytes() == s,
            s == old(cursor).bytes(),
            whole == spec_repeat(item::<T>(s), old(cursor).position(), n as nat),
            items.len() == i,
            whole == prepend(
                items.deep_view(),
                spec_repeat(item::<T>(s), cursor.position(), (n - i) as nat),
            ),
        decreases n - i,
    {
        let ghost before = items@;
        match T::deserialize(cursor) {
            Err(e) => {
                return Err(e);
            },
            Ok(x) => {
                proof {
                    lemma_prepend_cons(
                        items.deep_view(),
                        x.deep_view(),
                        spec_repeat(item::<T>(s), cursor.position(), (n - i - 1) as nat),
                    );
                    lemma_push_deep_view(before, x, before.push(x));
                }
                items.push(x);
            },
        }
        i = i + 1;
    }
    proof {
        lemma_prepend_nothing(items.deep_view(), cursor.position());
    }
    Ok(items)
}

/// Decodes `n` values one after the other against `pool`.
pub fn deserialize_linked_items<T: DeserializableLinked>(
    cursor: &mut ByteCursor,
    pool: &[ConstPoolType],
    n: u16,
) -> (r: Result<Vec<T>, DeserializationError>)
    ensures
        parsed(
            r,
            *old(cursor),
            *final(cursor),
            spec_repeat(
                linked_item::<T>(old(cursor).bytes(), pool.deep_view()),
                old(cursor).position(),
                n as nat,
            ),
        ),
{
    let ghost s = cursor.bytes();
    let ghost linked = pool.deep_view();
    let ghost whole = spec_repeat(linked_item::<T>(s, linked), cursor.position(), n as nat);
    let mut items: Vec<T> = Vec::new();
    let mut i: u16 = 0;
    proof {
        assert(items.deep_view() =~= Seq::empty());
        assert(Seq::<<T as DeepView>::V>::empty() + Seq::<<T as DeepView>::V>::empty()
            =~= Seq::empty());
    }
    while i < n
        invariant
            i <= n,
            cursor.bytes() == s,
            s == old(cursor).bytes(),
            linked == pool.deep_view(),
            whole == spec_repeat(linked_item::<T>(s, linked), old(cursor).position(), n as nat),
            items.len() == i,
            whole == prepend(
                items.deep_view(),
                spec_repeat(linked_item::<T>(s, linked), cursor.position(), (n - i) as nat),
            ),
        decreases n - i,
    {
        let ghost before = items@;
        match T::deserialize_link(cursor, pool) {
            Err(e) => {
                return Err(e);
            },
            Ok(x) => {
                proof {
                    lemma_prepend_cons(
                        items.deep_view(),
                        x.deep_view(),
                        spec_repeat(
                            linked_item::<T>(s, linked),
                            cursor.position(),
                            (n - i - 1) as nat,
                        ),
                    );
                    lemma_push_deep_view(before, x, before.push(x));
                }
                items.push(x);
            },
        }
        i = i + 1;
    }
    proof {
        lemma_prepend_nothing(items.deep_view(), cursor.position());
    }
    Ok(items)
}

/// Decodes a `u16` count and that many values.
pub fn deserialize_table<T: Deserializable>(cursor: &mut ByteCursor) -> (r: Result<
    Vec<T>,
    DeserializationError,
>)
    ensures
        parsed(
            r,
            *old(cursor),
            *final(cursor),
            spec_table(item::<T>(old(cursor).bytes()), old(cursor).bytes(), old(cursor).position()),
        ),
{
    let n = cursor.read_u16()?;
    deserialize_items(cursor, n)
}

/// Decodes a `u16` count and that many values against `pool`.
pub fn deserialize_linked_table<T: DeserializableLinked>(
    cursor: &mut ByteCursor,
    pool: &[ConstPoolType],
) -> (r: Result<Vec<T>, DeserializationError>)
    ensures
        parsed(
            r,
            *old(cursor),
            *final(cursor),
            spec_table(
                linked_item::<T>(old(cursor).bytes(), pool.deep_view()),
                old(cursor).bytes(),
                old(cursor).position(),
            ),
        ),
{
    let n = cursor.read_u16()?;
    deserialize_linked_items(cursor, pool, n)
}

} // verus!
