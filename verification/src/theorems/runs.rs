//! Runs of values: where each value of a run stands, and what holds of
//! every value of a run.

use crate::error::{ErrorView, Parsed};
use crate::grammar::{spec_repeat, spec_table};
use crate::reader::spec_read_u16;
use vstd::prelude::*;

verus! {

/// Whether every value that `item` yields, at whatever position, is
/// `good`.
pub open spec fn yields_only<T>(item: spec_fn(int) -> Parsed<T>, good: spec_fn(T) -> bool) -> bool {
    forall|p: int| (#[trigger] item(p)) is Ok ==> good(item(p)->Ok_0.0)
}

/// A run that decodes has the length that was asked for, ends no earlier
/// than it starts where no value does, and holds only values that `item`
/// yields somewhere.
pub proof fn lemma_repeat_all<T>(
    item: spec_fn(int) -> Parsed<T>,
    pos: int,
    n: nat,
    good: spec_fn(T) -> bool,
)
    requires
        yields_only(item, good),
    ensures
        spec_repeat(item, pos, n) matches Ok((items, _)) ==> items.len() == n && forall|i: int|
            0 <= i < items.len() ==> good(#[trigger] items[i]),
    decreases n,
{
    if n > 0 {
        match item(pos) {
            Err(_) => {},
            Ok((x, next)) => {
                lemma_repeat_all(item, next, (n - 1) as nat, good);
                match spec_repeat(item, next, (n - 1) as nat) {
                    Err(_) => {},
                    Ok((rest, _)) => {
                        let items = seq![x] + rest;
                        assert forall|i: int| 0 <= i < items.len() implies good(
                            #[trigger] items[i],
                        ) by {
                            if i > 0 {
                                assert(items[i] == rest[i - 1]);
                            }
                        }
                    },
                }
            },
        }
    }
}

/// The same of a table, which is a count and a run.
pub proof fn lemma_table_all<T>(
    item: spec_fn(int) -> Parsed<T>,
    s: Seq<u8>,
    pos: int,
    good: spec_fn(T) -> bool,
)
    requires
        yields_only(item, good),
    ensures
        spec_table(item, s, pos) matches Ok((items, _)) ==> forall|i: int|
            0 <= i < items.len() ==> good(#[trigger] items[i]),
{
    match spec_read_u16(s, pos) {
        Err(_) => {},
        Ok((n, next)) => {
            lemma_repeat_all(item, next, n as nat, good);
        },
    }
}

/// The position at which the value with number `i` of a run starts: the
/// start of the run for the first, and for each other the position at
/// which the one before it ends.
pub open spec fn spec_item_start<T>(item: spec_fn(int) -> Parsed<T>, pos: int, i: nat) -> int
    decreases i,
{
    if i == 0 {
        pos
    } else {
        match item(pos) {
            Err(_) => pos,
            Ok((_, next)) => spec_item_start(item, next, (i - 1) as nat),
        }
    }
}

/// Each value of a run that decodes is what `item` yields at the position
/// where the value before it ends, and the run ends where its last value
/// does.
pub proof fn lemma_run_items<T>(item: spec_fn(int) -> Parsed<T>, pos: int, n: nat, i: int)
    requires
        spec_repeat(item, pos, n) is Ok,
        0 <= i < n,
    ensures
        ({
            let (items, end) = spec_repeat(item, pos, n)->Ok_0;
            &&& items.len() == n
            &&& end == spec_item_start(item, pos, n)
            &&& item(spec_item_start(item, pos, i as nat)) == Ok::<(T, int), ErrorView>(
                (items[i], spec_item_start(item, pos, (i + 1) as nat)),
            )
        }),
    decreases n,
{
    let (x, next) = item(pos)->Ok_0;
    let (rest, end) = spec_repeat(item, next, (n - 1) as nat)->Ok_0;
    let items = seq![x] + rest;
    lemma_repeat_all(item, next, (n - 1) as nat, |x: T| true);
    if n > 1 {
        lemma_run_items(item, next, (n - 1) as nat, if i == 0 { 0 } else { i - 1 });
    }
    if i > 0 {
        assert(items[i] == rest[i - 1]);
    }
}

} // verus!
