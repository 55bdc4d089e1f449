use vstd::prelude::*;

use crate::cell::CellView;

verus! {

/// A cell made from `v` holds `v` as its current value and has no previous value.
pub proof fn law_construction<T>(v: T)
    ensures
        CellView::fresh(v).current == v,
        CellView::fresh(v).last.is_none(),
        !CellView::fresh(v).has_previous(),
{
}

/// Making a cell from `v1` and updating it with `v2` leaves `v2` current
/// and `v1` as the previous value.
pub proof fn law_single_update<T>(v1: T, v2: T)
    ensures
        CellView::fresh(v1).updated(v2).current == v2,
        CellView::fresh(v1).updated(v2).last == Some(v1),
{
}

/// After one or more updates `vs` applied to a cell made from `v0`, the
/// current value is the last of `vs` and the previous value is the one
/// before it (`v0` when there was a single update); nothing older is kept.
pub proof fn law_shift<T>(v0: T, vs: Seq<T>)
    requires
        vs.len() >= 1,
    ensures
        CellView::fresh(v0).after(vs).current == vs.last(),
        CellView::fresh(v0).after(vs).last == Some(
            if vs.len() == 1 { v0 } else { vs[vs.len() - 2] },
        ),
{
    let init = vs.drop_last();
    if vs.len() >= 2 {
        assert(init.last() == vs[vs.len() - 2]);
        assert(CellView::fresh(v0).after(init) == CellView::fresh(v0).after(
            init.drop_last(),
        ).updated(init.last()));
    } else {
        assert(init.len() == 0);
    }
}

/// In every state a cell reports a previous value exactly when it holds one,
/// and after any non-empty run of updates, from any state, it holds one.
pub proof fn law_has_previous<T>(start: CellView<T>, vs: Seq<T>)
    ensures
        start.after(vs).has_previous() == start.after(vs).last.is_some(),
        vs.len() >= 1 ==> start.after(vs).has_previous(),
{
}

/// A cell made from `c` and an explicit previous `p` reports both; one made
/// from `c` and no previous value is the same as one made from `c` alone.
pub proof fn law_with_previous<T>(c: T, p: T)
    ensures
        (CellView { current: c, last: Some(p) }).current == c,
        (CellView { current: c, last: Some(p) }).last == Some(p),
        (CellView { current: c, last: Some(p) }).has_previous(),
        (CellView { current: c, last: None }) == CellView::fresh(c),
{
}

} // verus!
