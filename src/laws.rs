//! Properties that hold across calls: suppression, row counting,
//! idempotence of reparenting, the floating round trip and teardown.
use vstd::prelude::*;

use crate::geometry::{abs, Px};
use crate::msg::{FrameOp, GridView, MsgWindow};
use crate::scroll::{lemma_row_delta_bound, row_delta, Adjustment, ScrollSync};
use crate::window::{
    lemma_run2,
    lemma_run_empty,
    lemma_set_external_keeps,
    lemma_set_position_keeps,
    Host,
    Scene,
    Window,
    run,
};

verus! {

/// The bridge after the scrollbar passed through `values`, in order.
pub open spec fn after_moves(s: ScrollSync, values: Seq<Px>) -> ScrollSync
    decreases values.len(),
{
    if values.len() == 0 {
        s
    } else {
        after_moves(s, values.drop_last()).moved(values.last())
    }
}

/// Applying the editor's state emits no command: while it is applied, no
/// move of the scrollbar, to any value, produces one.
pub proof fn lemma_configure_emits_nothing(s: ScrollSync, adjustment: Adjustment, cell_height: Px, value: Px)
    ensures
        s.configured(adjustment, cell_height).command_spec(value) is None,
{
}

proof fn lemma_moves_keep_baseline(s: ScrollSync, values: Seq<Px>)
    ensures
        after_moves(s, values).last_value == s.last_value,
        after_moves(s, values).cell_height == s.cell_height,
        after_moves(s, values).suppressed == s.suppressed,
    decreases values.len(),
{
    if values.len() > 0 {
        lemma_moves_keep_baseline(s, values.drop_last());
    }
}

/// Through any run of user moves away from committed value `L`, with cells
/// `ch > 0` high, each move to `N` asks for `|ceil((L - N) / ch)|` rows,
/// forward exactly when that ceiling is negative: the baseline stays `L`.
pub proof fn lemma_moves_count_rows(s: ScrollSync, values: Seq<Px>, i: int)
    requires
        s.last_value.wf(),
        s.cell_height.wf(),
        s.cell_height.is_positive(),
        !s.suppressed,
        0 <= i < values.len(),
        values[i].wf(),
    ensures
        after_moves(s, values.take(i)).command_spec(values[i]) matches Some(c) && {
            let d = row_delta(s.last_value, values[i], s.cell_height);
            &&& c.rows as int == abs(d)
            &&& (c.direction is Forward <==> d < 0)
        },
{
    lemma_moves_keep_baseline(s, values.take(i));
    lemma_row_delta_bound(s.last_value, values[i], s.cell_height);
}

/// Moving a window to the canvas it is on does nothing: a second
/// `set_parent` with the same canvas attaches nothing again.
pub proof fn lemma_set_parent_idempotent(w: Window, canvas: u64)
    ensures
        ({
            let (w1, ops1) = w.set_parent_spec(canvas);
            let (w2, ops2) = w1.set_parent_spec(canvas);
            &&& w2 == w1
            &&& ops2 == Seq::<crate::window::Op>::empty()
            &&& w1.canvas == canvas
        }),
{
}

/// Floating a window twice opens one floating surface, not two.
pub proof fn lemma_set_external_idempotent(w: Window, size1: (i32, i32), size2: (i32, i32), s: Scene)
    requires
        w.consistent(s),
    ensures
        ({
            let (w1, ops1) = w.set_external_spec(size1);
            let (w2, ops2) = w1.set_external_spec(size2);
            &&& w2 == w1
            &&& ops2 == Seq::<crate::window::Op>::empty()
            &&& w2.mode is Floating
            &&& run(run(s, ops1), ops2).surfaces == 1
        }),
{
    let (w1, ops1) = w.set_external_spec(size1);
    lemma_set_external_keeps(w, size1);
    assert(w.consistent(s));
    lemma_run_empty(run(s, ops1));
}

/// Floating a window and then positioning it leaves it attached: its
/// overlay is the canvas's child again and no floating surface is open.
pub proof fn lemma_float_then_position(
    w: Window,
    size: (i32, i32),
    x: Px,
    y: Px,
    width: Px,
    height: Px,
    s: Scene,
)
    requires
        w.consistent(s),
    ensures
        ({
            let (w1, ops1) = w.set_external_spec(size);
            let (w2, ops2) = w1.set_position_spec(x, y, width, height);
            let end = run(run(s, ops1), ops2);
            &&& w2.mode is Attached
            &&& end.host == Host::Canvas(w.canvas)
            &&& end.surfaces == 0
            &&& end.content
        }),
{
    let (w1, ops1) = w.set_external_spec(size);
    lemma_set_external_keeps(w, size);
    assert(w.consistent(s));
    let s1 = run(s, ops1);
    assert(w1.consistent(s1));
    lemma_set_position_keeps(w1, x, y, width, height);
}

/// Tearing a window down closes every floating surface it had, takes its
/// overlay off the canvas, and hands the grid's surface back unharmed
/// (detached, free for another window of the same grid).
pub proof fn lemma_destroy_releases(w: Window, s: Scene)
    requires
        w.consistent(s),
    ensures
        run(s, w.destroy_spec()).surfaces == 0,
        run(s, w.destroy_spec()).host is Nowhere,
        !run(s, w.destroy_spec()).content,
{
    lemma_run2(s, w.destroy_spec());
}

/// Showing the same grid twice reparents nothing the second time.
pub proof fn lemma_set_pos_same_grid(
    m: MsgWindow,
    grid: GridView,
    row1: Px,
    h1: Px,
    scrolled1: bool,
    row2: Px,
    h2: Px,
    scrolled2: bool,
)
    ensures
        ({
            let (m1, ops1) = m.set_pos_spec(grid, row1, h1, scrolled1);
            let ops2 = m1.set_pos_spec(grid, row2, h2, scrolled2).1;
            &&& m1.reparent_spec(grid.widget) == Seq::<FrameOp>::empty()
            &&& !ops2.contains(FrameOp::RemoveChild)
            &&& !ops2.contains(FrameOp::UnparentGrid)
            &&& !ops2.contains(FrameOp::AddGrid)
        }),
{
    let (m1, ops1) = m.set_pos_spec(grid, row1, h1, scrolled1);
    let ops2 = m1.set_pos_spec(grid, row2, h2, scrolled2).1;
    assert(Seq::<FrameOp>::empty() + ops2.subrange(0, 4) =~= ops2);
    assert(!ops2.contains(FrameOp::RemoveChild)) by {
        if ops2.contains(FrameOp::RemoveChild) {
            let k = choose|k: int| 0 <= k < ops2.len() && ops2[k] == FrameOp::RemoveChild;
        }
    }
    assert(!ops2.contains(FrameOp::UnparentGrid)) by {
        if ops2.contains(FrameOp::UnparentGrid) {
            let k = choose|k: int| 0 <= k < ops2.len() && ops2[k] == FrameOp::UnparentGrid;
        }
    }
    assert(!ops2.contains(FrameOp::AddGrid)) by {
        if ops2.contains(FrameOp::AddGrid) {
            let k = choose|k: int| 0 <= k < ops2.len() && ops2[k] == FrameOp::AddGrid;
        }
    }
}

} // verus!
