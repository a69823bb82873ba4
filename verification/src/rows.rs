//! Packing controls into rows.
//!
//! Controls are taken in order into a row. A row is closed when it holds
//! five controls, when a separator comes after at least one control, and at
//! the end where it is not empty. Separators that come with an empty row
//! change nothing.

use crate::component::{component_views, Component, ComponentView};
use vstd::prelude::*;

verus! {

/// How many controls a row holds at most.
pub const ROW_CAPACITY: usize = 5;

/// The rows that are closed and the row that is open.
pub struct Packing {
    pub rows: Seq<Seq<ComponentView>>,
    pub current: Seq<ComponentView>,
}

/// The packing after one more item.
pub open spec fn pack_step(state: Packing, item: ComponentView) -> Packing {
    if item is Row {
        if state.current.len() > 0 {
            Packing { rows: state.rows.push(state.current), current: seq![] }
        } else {
            state
        }
    } else {
        let row = state.current.push(item);
        if row.len() == ROW_CAPACITY {
            Packing { rows: state.rows.push(row), current: seq![] }
        } else {
            Packing { rows: state.rows, current: row }
        }
    }
}

/// The packing that `start` becomes after the first `n` of `items`.
pub open spec fn pack_from(start: Packing, items: Seq<ComponentView>, n: nat) -> Packing
    decreases n,
{
    if n == 0 || n > items.len() {
        start
    } else {
        pack_step(pack_from(start, items, (n - 1) as nat), items[n - 1])
    }
}

/// The packing before any item.
pub open spec fn nothing_packed() -> Packing {
    Packing { rows: seq![], current: seq![] }
}

/// The packing after the first `n` items.
pub open spec fn pack_prefix(items: Seq<ComponentView>, n: nat) -> Packing {
    pack_from(nothing_packed(), items, n)
}

/// The rows of a packing, the open row closed if it holds anything.
pub open spec fn close(state: Packing) -> Seq<Seq<ComponentView>> {
    if state.current.len() > 0 {
        state.rows.push(state.current)
    } else {
        state.rows
    }
}

/// The rows that a sequence of components is packed into.
pub open spec fn packed(items: Seq<ComponentView>) -> Seq<Seq<ComponentView>> {
    close(pack_prefix(items, items.len()))
}

/// A row of controls: at least one, at most five, no separator among them.
pub open spec fn is_row(row: Seq<ComponentView>) -> bool {
    &&& 1 <= row.len() <= ROW_CAPACITY
    &&& forall|i: int| 0 <= i < row.len() ==> !((#[trigger] row[i]) is Row)
}

/// All the controls of a row are of one kind.
pub open spec fn row_uniform(row: Seq<ComponentView>) -> bool {
    forall|i: int| 0 <= i < row.len() ==> (#[trigger] row[i]).ordinal() == row[0].ordinal()
}

/// Every row holds controls of one kind only.
pub open spec fn rows_uniform(rows: Seq<Seq<ComponentView>>) -> bool {
    forall|r: int| 0 <= r < rows.len() ==> row_uniform(#[trigger] rows[r])
}

/// The values of a sequence of rows, one for one.
pub open spec fn row_views(rows: Seq<Vec<Component>>) -> Seq<Seq<ComponentView>> {
    Seq::new(rows.len(), |r: int| component_views(rows[r]@))
}

/// Every closed row is a row, and the open one is short of five controls
/// and holds no separator.
pub open spec fn orderly(state: Packing) -> bool {
    &&& forall|r: int| 0 <= r < state.rows.len() ==> is_row(#[trigger] state.rows[r])
    &&& state.current.len() < ROW_CAPACITY
    &&& forall|i: int| 0 <= i < state.current.len() ==> !((#[trigger] state.current[i]) is Row)
}

/// Packing keeps a packing orderly.
pub proof fn lemma_pack_orderly(start: Packing, items: Seq<ComponentView>, n: nat)
    requires
        orderly(start),
    ensures
        orderly(pack_from(start, items, n)),
    decreases n,
{
    if n > 0 && n <= items.len() {
        lemma_pack_orderly(start, items, (n - 1) as nat);
    }
}

/// No packed row holds more than five controls, none is empty, and none
/// holds a separator.
pub proof fn law_rows_are_rows(items: Seq<ComponentView>)
    ensures
        forall|r: int| 0 <= r < packed(items).len() ==> is_row(#[trigger] packed(items)[r]),
{
    lemma_pack_orderly(nothing_packed(), items, items.len());
}

/// The controls among components, in order: everything but the separators.
pub open spec fn controls(items: Seq<ComponentView>) -> Seq<ComponentView> {
    items.filter(|c: ComponentView| !(c is Row))
}

/// The controls of a packing, in order: those of its closed rows, then
/// those of the open one.
pub open spec fn packed_controls(state: Packing) -> Seq<ComponentView> {
    state.rows.flatten() + state.current
}

/// One more item adds itself to the controls of a packing if it is a
/// control, and nothing if it is a separator.
pub proof fn lemma_step_order(state: Packing, item: ComponentView)
    ensures
        packed_controls(pack_step(state, item)) == if item is Row {
            packed_controls(state)
        } else {
            packed_controls(state).push(item)
        },
{
    broadcast use Seq::lemma_flatten_push;
}

/// The controls of the packing after `n` items are the controls among those
/// items.
pub proof fn lemma_prefix_order(items: Seq<ComponentView>, n: nat)
    requires
        n <= items.len(),
    ensures
        packed_controls(pack_prefix(items, n)) == controls(items.take(n as int)),
    decreases n,
{
    reveal(Seq::filter);
    if n > 0 {
        let before = (n - 1) as nat;
        lemma_prefix_order(items, before);
        lemma_step_order(pack_prefix(items, before), items[n - 1]);
        assert(items.take(n as int).drop_last() =~= items.take(before as int));
    }
}

/// Order is kept: the packed rows, read one after another, hold the
/// controls of the input in the order of the input.
pub proof fn law_order_preserved(items: Seq<ComponentView>)
    ensures
        packed(items).flatten() == controls(items),
{
    broadcast use Seq::lemma_flatten_push;

    lemma_prefix_order(items, items.len());
    assert(items.take(items.len() as int) =~= items);
}

/// Packing `a` and then `b` is packing `a + b`.
pub proof fn lemma_pack_add(start: Packing, a: Seq<ComponentView>, b: Seq<ComponentView>, n: nat)
    requires
        n <= b.len(),
    ensures
        pack_from(start, a + b, a.len() + n) == pack_from(
            pack_from(start, a, a.len()),
            b,
            n,
        ),
    decreases n,
{
    if n == 0 {
        lemma_pack_same(start, a + b, a, a.len());
    } else {
        lemma_pack_add(start, a, b, (n - 1) as nat);
    }
}

/// Packing reads only the items that it is given the count of.
pub proof fn lemma_pack_same(
    start: Packing,
    a: Seq<ComponentView>,
    b: Seq<ComponentView>,
    n: nat,
)
    requires
        n <= a.len(),
        n <= b.len(),
        forall|i: int| 0 <= i < n ==> a[i] == b[i],
    ensures
        pack_from(start, a, n) == pack_from(start, b, n),
    decreases n,
{
    if n > 0 {
        lemma_pack_same(start, a, b, (n - 1) as nat);
    }
}

/// A run of `count` separators.
pub open spec fn separators(count: nat) -> Seq<ComponentView> {
    Seq::new(count, |i: int| ComponentView::Row)
}

/// A run of separators does to a packing what one separator does, and an
/// empty run does nothing.
pub proof fn lemma_pack_separators(start: Packing, count: nat)
    ensures
        pack_from(start, separators(count), count) == if count == 0 {
            start
        } else {
            pack_step(start, ComponentView::Row)
        },
    decreases count,
{
    if count > 0 {
        let shorter = (count - 1) as nat;
        lemma_pack_separators(start, shorter);
        lemma_pack_same(start, separators(count), separators(shorter), shorter);
    }
}

/// Packing `a`, then `b`, then `c` is packing `a + b + c`.
proof fn lemma_pack_three(a: Seq<ComponentView>, b: Seq<ComponentView>, c: Seq<ComponentView>)
    ensures
        pack_prefix(a + b + c, (a + b + c).len()) == pack_from(
            pack_from(pack_prefix(a, a.len()), b, b.len()),
            c,
            c.len(),
        ),
{
    lemma_pack_add(nothing_packed(), a + b, c, c.len());
    lemma_pack_add(nothing_packed(), a, b, b.len());
}

/// Separators collapse: a run of one or more separators between two
/// stretches of components packs as a single separator does.
pub proof fn law_separators_collapse(
    before: Seq<ComponentView>,
    count: nat,
    after: Seq<ComponentView>,
)
    requires
        count >= 1,
    ensures
        packed(before + separators(count) + after) == packed(
            before + separators(1) + after,
        ),
{
    let start = pack_prefix(before, before.len());
    lemma_pack_three(before, separators(count), after);
    lemma_pack_three(before, separators(1), after);
    lemma_pack_separators(start, count);
    lemma_pack_separators(start, 1);
}

/// Separators before the first component are absorbed.
pub proof fn law_leading_separators(count: nat, after: Seq<ComponentView>)
    ensures
        packed(separators(count) + after) == packed(after),
{
    let none = Seq::<ComponentView>::empty();
    lemma_pack_three(none, separators(count), after);
    lemma_pack_separators(nothing_packed(), count);
}

/// Separators after the last component are absorbed.
pub proof fn law_trailing_separators(before: Seq<ComponentView>, count: nat)
    ensures
        packed(before + separators(count)) == packed(before),
{
    let start = pack_prefix(before, before.len());
    lemma_pack_add(nothing_packed(), before, separators(count), count);
    lemma_pack_separators(start, count);
}

/// Packs components into rows.
pub fn pack(components: Vec<Component>) -> (rows: Vec<Vec<Component>>)
    ensures
        row_views(rows@) == packed(component_views(components@)),
{
    let ghost all = component_views(components@);
    let ghost items = components@;
    let mut rows: Vec<Vec<Component>> = Vec::new();
    let mut row: Vec<Component> = Vec::new();
    for component in it: components
        invariant
            it.seq() == items,
            all == component_views(items),
            row_views(rows@) == pack_prefix(all, it.index() as nat).rows,
            component_views(row@) == pack_prefix(all, it.index() as nat).current,
    {
        let ghost old_rows = rows@;
        let ghost old_row = row@;
        proof {
            lemma_pack_orderly(nothing_packed(), all, it.index() as nat);
        }
        match component {
            Component::Row => {
                if row.len() > 0 {
                    rows.push(row);
                    row = Vec::new();
                    assert(row_views(rows@) =~= row_views(old_rows).push(
                        component_views(old_row),
                    ));
                }
            },
            _ => {
                row.push(component);
                assert(component_views(row@) =~= component_views(old_row).push(component@));
                if row.len() == ROW_CAPACITY {
                    rows.push(row);
                    row = Vec::new();
                }
            },
        }
    }
    if row.len() > 0 {
        rows.push(row);
    }
    rows
}

} // verus!
