//! A window's placement: attached to a canvas, or floating on its own surface.
use vstd::prelude::*;

use crate::geometry::{clamp_size, size_of, Px};
use crate::scroll::{Adjustment, ScrollCommand, ScrollSync};

verus! {

/// Where a window's content lives.
#[derive(Clone, Copy, Debug, PartialEq, Eq)]
pub enum Mode {
    /// A child of the shared canvas.
    Attached,
    /// The sole child of a top-level surface of its own.
    Floating,
}

/// One operation for the toolkit layer to carry out on the window's overlay.
#[derive(Clone, Copy, Debug, PartialEq, Eq)]
pub enum Op {
    /// Place the overlay on `canvas` at `(x, y)`.
    CanvasPut { canvas: u64, x: i64, y: i64 },
    /// Move the overlay, already on `canvas`, to `(x, y)`.
    CanvasMove { canvas: u64, x: i64, y: i64 },
    /// Take the overlay off `canvas`.
    CanvasRemove { canvas: u64 },
    /// Ask for the overlay to be `w` by `h` pixels.
    SizeRequest { w: i64, h: i64 },
    /// Create the floating surface (no focus, not closable, not resizable,
    /// attached to the anchor), put the overlay in it and show it.
    OpenFloating,
    /// Take the overlay out of the floating surface and close that surface.
    CloseFloating,
    /// Take the grid's surface out of the overlay without destroying it.
    DetachContent,
    /// Show the overlay and all it holds.
    Show,
    /// Hide the overlay.
    Hide,
    /// Show the scrollbar.
    ShowScrollbar,
    /// Hide the scrollbar.
    HideScrollbar,
}

/// Where the overlay hangs in the toolkit's widget tree.
pub enum Host {
    Nowhere,
    Canvas(u64),
    Floating,
}

/// What the toolkit holds of one window: the overlay's parent, how many
/// floating surfaces are open for it, and whether the grid's surface is in it.
pub struct Scene {
    pub host: Host,
    pub surfaces: nat,
    pub content: bool,
}

/// The effect of one operation on the scene.
pub open spec fn apply(s: Scene, op: Op) -> Scene {
    match op {
        Op::CanvasPut { canvas, .. } => if s.host is Nowhere {
            Scene { host: Host::Canvas(canvas), ..s }
        } else {
            s
        },
        Op::CanvasRemove { canvas } => if s.host == Host::Canvas(canvas) {
            Scene { host: Host::Nowhere, ..s }
        } else {
            s
        },
        Op::OpenFloating => Scene {
            host: if s.host is Nowhere { Host::Floating } else { s.host },
            surfaces: s.surfaces + 1,
            ..s
        },
        Op::CloseFloating => Scene {
            host: if s.host is Floating { Host::Nowhere } else { s.host },
            surfaces: if s.surfaces > 0 { (s.surfaces - 1) as nat } else { 0 },
            ..s
        },
        Op::DetachContent => Scene { content: false, ..s },
        _ => s,
    }
}

/// The effect of a list of operations, in order.
pub open spec fn run(s: Scene, ops: Seq<Op>) -> Scene
    decreases ops.len(),
{
    if ops.len() == 0 {
        s
    } else {
        apply(run(s, ops.drop_last()), ops.last())
    }
}

pub(crate) proof fn lemma_run_push(s: Scene, ops: Seq<Op>, op: Op)
    ensures
        run(s, ops.push(op)) == apply(run(s, ops), op),
{
    assert(ops.push(op).drop_last() =~= ops);
}

pub(crate) proof fn lemma_run_empty(s: Scene)
    ensures
        run(s, Seq::empty()) == s,
{
}

/// The window bound to one grid: its placement and its scroll bridge.
#[derive(Clone, Copy, Debug, PartialEq, Eq)]
pub struct Window {
    /// The canvas the window belongs to (and returns to from floating).
    pub canvas: u64,
    pub mode: Mode,
    /// Top-left corner on the canvas, in whole pixels.
    pub x: i64,
    pub y: i64,
    /// The grid shown.
    pub grid_id: i64,
    pub scroll: ScrollSync,
}

impl Window {
    pub open spec fn wf(self) -> bool {
        self.scroll.wf()
    }

    /// The scene holds the window exactly as its mode says: attached, it is
    /// the canvas's child and no surface is open; floating, it is in the one
    /// open surface and not on the canvas. The grid's surface is inside.
    pub open spec fn consistent(self, s: Scene) -> bool {
        &&& s.content
        &&& match self.mode {
            Mode::Attached => s.host == Host::Canvas(self.canvas) && s.surfaces == 0,
            Mode::Floating => s.host is Floating && s.surfaces == 1,
        }
    }

    /// Every operation sequence `ops` carries a consistent scene of `self`
    /// to a consistent scene of `next`.
    pub open spec fn keeps_consistent(self, next: Window, ops: Seq<Op>) -> bool {
        forall|s: Scene| #[trigger] self.consistent(s) ==> next.consistent(run(s, ops))
    }

    pub open spec fn set_parent_spec(self, canvas: u64) -> (Window, Seq<Op>) {
        if self.canvas == canvas {
            (self, seq![])
        } else if self.mode is Floating {
            (Window { canvas, ..self }, seq![])
        } else {
            (
                Window { canvas, ..self },
                seq![Op::CanvasRemove { canvas: self.canvas }, Op::CanvasPut { canvas, x: 0, y: 0 }],
            )
        }
    }

    pub open spec fn set_external_spec(self, size: (i32, i32)) -> (Window, Seq<Op>) {
        if self.mode is Floating {
            (self, seq![])
        } else {
            (
                Window { mode: Mode::Floating, ..self },
                seq![
                    Op::SizeRequest { w: clamp_size(size.0 as int) as i64, h: clamp_size(size.1 as int) as i64 },
                    Op::CanvasRemove { canvas: self.canvas },
                    Op::OpenFloating,
                ],
            )
        }
    }

    pub open spec fn set_position_spec(self, x: Px, y: Px, w: Px, h: Px) -> (Window, Seq<Op>) {
        let (px, py) = (x.floor_spec() as i64, y.floor_spec() as i64);
        let place = Op::CanvasMove { canvas: self.canvas, x: px, y: py };
        let size = Op::SizeRequest {
            w: clamp_size(w.ceil_spec()) as i64,
            h: clamp_size(h.ceil_spec()) as i64,
        };
        let next = Window { mode: Mode::Attached, x: px, y: py, ..self };
        if self.mode is Floating {
            (
                next,
                seq![Op::CloseFloating, Op::CanvasPut { canvas: self.canvas, x: 0, y: 0 }, place, size],
            )
        } else {
            (next, seq![place, size])
        }
    }

    pub open spec fn destroy_spec(self) -> Seq<Op> {
        match self.mode {
            Mode::Attached => seq![Op::DetachContent, Op::CanvasRemove { canvas: self.canvas }],
            Mode::Floating => seq![Op::DetachContent, Op::CloseFloating],
        }
    }

    /// A window for grid `grid_id` on `canvas`, attached at the origin with
    /// its scroll bridge zeroed; the operations put it on the canvas.
    pub fn new(canvas: u64, grid_id: i64) -> (r: (Window, Vec<Op>))
        ensures
            r.0.wf(),
            r.0.canvas == canvas,
            r.0.grid_id == grid_id,
            r.0.mode is Attached,
            r.0.x == 0 && r.0.y == 0,
            r.0.scroll == ScrollSync::new_spec(),
            r.1@ == seq![Op::CanvasPut { canvas, x: 0, y: 0 }],
            r.0.consistent(run(Scene { host: Host::Nowhere, surfaces: 0, content: true }, r.1@)),
    {
        let w = Window {
            canvas,
            mode: Mode::Attached,
            x: 0,
            y: 0,
            grid_id,
            scroll: ScrollSync::new(),
        };
        let mut ops: Vec<Op> = Vec::new();
        ops.push(Op::CanvasPut { canvas, x: 0, y: 0 });
        proof {
            lemma_run_push(Scene { host: Host::Nowhere, surfaces: 0, content: true }, Seq::empty(), ops@[0]);
            assert(ops@ == Seq::<Op>::empty().push(ops@[0]));
        }
        (w, ops)
    }

    /// Applies the editor's scroll state. Until `adjustment_applied`, moves
    /// of the scrollbar emit nothing.
    pub fn set_adjustment(
        &mut self,
        value: Px,
        lower: Px,
        upper: Px,
        step_increment: Px,
        page_increment: Px,
        page_size: Px,
        cell_height: Px,
    )
        requires
            old(self).wf(),
            value.wf() && lower.wf() && upper.wf(),
            step_increment.wf() && page_increment.wf() && page_size.wf(),
            cell_height.wf(),
        ensures
            final(self).wf(),
            final(self).scroll == old(self).scroll.configured(
                (Adjustment { value, lower, upper, step_increment, page_increment, page_size }),
                cell_height,
            ),
            final(self).canvas == old(self).canvas,
            final(self).mode == old(self).mode,
            final(self).x == old(self).x && final(self).y == old(self).y,
            final(self).grid_id == old(self).grid_id,
    {
        let adj = Adjustment { value, lower, upper, step_increment, page_increment, page_size };
        self.scroll.configure(adj, cell_height);
    }

    /// Ends the suppression that `set_adjustment` began.
    pub fn adjustment_applied(&mut self)
        ensures
            *final(self) == (Window { scroll: old(self).scroll.released(), ..*old(self) }),
    {
        self.scroll.release();
    }

    /// The scrollbar moved to `value`: the command to send, if any.
    pub fn scroll_changed(&mut self, value: Px) -> (r: Option<ScrollCommand>)
        requires
            old(self).wf(),
            value.wf(),
        ensures
            r == old(self).scroll.command_spec(value),
            *final(self) == (Window { scroll: old(self).scroll.moved(value), ..*old(self) }),
            final(self).wf(),
    {
        self.scroll.value_changed(value)
    }

    pub fn hide_scrollbar(&self) -> (r: Vec<Op>)
        ensures
            r@ == seq![Op::HideScrollbar],
    {
        let mut ops: Vec<Op> = Vec::new();
        ops.push(Op::HideScrollbar);
        ops
    }

    pub fn show_scrollbar(&self) -> (r: Vec<Op>)
        ensures
            r@ == seq![Op::ShowScrollbar],
    {
        let mut ops: Vec<Op> = Vec::new();
        ops.push(Op::ShowScrollbar);
        ops
    }

    pub fn show(&self) -> (r: Vec<Op>)
        ensures
            r@ == seq![Op::Show],
    {
        let mut ops: Vec<Op> = Vec::new();
        ops.push(Op::Show);
        ops
    }

    pub fn hide_window(&self) -> (r: Vec<Op>)
        ensures
            r@ == seq![Op::Hide],
    {
        let mut ops: Vec<Op> = Vec::new();
        ops.push(Op::Hide);
        ops
    }

    /// Asks for a new size (a negative side counts as zero); position and
    /// mode stay.
    pub fn resize(&self, size: (i32, i32)) -> (r: Vec<Op>)
        ensures
            r@ == seq![Op::SizeRequest { w: clamp_size(size.0 as int) as i64, h: clamp_size(size.1 as int) as i64 }],
    {
        let mut ops: Vec<Op> = Vec::new();
        ops.push(Op::SizeRequest { w: size_of(size.0 as i64), h: size_of(size.1 as i64) });
        ops
    }
    /// Moves the window to `canvas` at the origin; nothing happens when it is
    /// already there. A floating window only records the canvas it will
    /// return to.
    pub fn set_parent(&mut self, canvas: u64) -> (r: Vec<Op>)
        ensures
            (*final(self), r@) == old(self).set_parent_spec(canvas),
            old(self).keeps_consistent(*final(self), r@),
    {
        let mut ops: Vec<Op> = Vec::new();
        if self.canvas != canvas {
            if let Mode::Attached = self.mode {
                ops.push(Op::CanvasRemove { canvas: self.canvas });
                ops.push(Op::CanvasPut { canvas, x: 0, y: 0 });
            }
            self.canvas = canvas;
        }
        proof {
            let ghost v = old(self).set_parent_spec(canvas);
            assert(ops@ =~= v.1);
            lemma_set_parent_keeps(*old(self), canvas);
        }
        ops
    }

    /// Detaches the window into a floating surface of `size`; nothing
    /// happens when it already floats.
    pub fn set_external(&mut self, size: (i32, i32)) -> (r: Vec<Op>)
        ensures
            (*final(self), r@) == old(self).set_external_spec(size),
            old(self).keeps_consistent(*final(self), r@),
    {
        let mut ops: Vec<Op> = Vec::new();
        if let Mode::Floating = self.mode {
            proof {
                assert(ops@ =~= seq![]);
                lemma_set_external_keeps(*old(self), size);
            }
            return ops;
        }
        ops.push(Op::SizeRequest { w: size_of(size.0 as i64), h: size_of(size.1 as i64) });
        ops.push(Op::CanvasRemove { canvas: self.canvas });
        ops.push(Op::OpenFloating);
        self.mode = Mode::Floating;
        proof {
            assert(ops@ =~= old(self).set_external_spec(size).1);
            lemma_set_external_keeps(*old(self), size);
        }
        ops
    }

    /// Attaches the window again if it floats, then places it at
    /// `(floor(x), floor(y))` and asks for `(ceil(w), ceil(h))`, a negative
    /// side counting as zero: the position
    /// rounds toward the origin so that no gap opens, the size outward so
    /// that nothing is clipped.
    pub fn set_position(&mut self, x: Px, y: Px, w: Px, h: Px) -> (r: Vec<Op>)
        requires
            x.wf() && y.wf() && w.wf() && h.wf(),
        ensures
            (*final(self), r@) == old(self).set_position_spec(x, y, w, h),
            old(self).keeps_consistent(*final(self), r@),
    {
        let mut ops: Vec<Op> = Vec::new();
        if let Mode::Floating = self.mode {
            ops.push(Op::CloseFloating);
            ops.push(Op::CanvasPut { canvas: self.canvas, x: 0, y: 0 });
            self.mode = Mode::Attached;
        }
        self.x = x.floor();
        self.y = y.floor();
        ops.push(Op::CanvasMove { canvas: self.canvas, x: self.x, y: self.y });
        ops.push(Op::SizeRequest { w: size_of(w.ceil()), h: size_of(h.ceil()) });
        proof {
            let ghost v = old(self).set_position_spec(x, y, w, h);
            assert(ops@ =~= v.1);
            lemma_set_position_keeps(*old(self), x, y, w, h);
        }
        ops
    }

    /// Tears the window down: the grid's surface leaves the overlay intact,
    /// the overlay leaves the canvas, and a floating surface is closed.
    pub fn destroy(self) -> (r: Vec<Op>)
        ensures
            r@ == self.destroy_spec(),
    {
        let mut ops: Vec<Op> = Vec::new();
        ops.push(Op::DetachContent);
        match self.mode {
            Mode::Attached => ops.push(Op::CanvasRemove { canvas: self.canvas }),
            Mode::Floating => ops.push(Op::CloseFloating),
        }
        proof {
            assert(ops@ =~= self.destroy_spec());
        }
        ops
    }
}

pub(crate) proof fn lemma_set_parent_keeps(w: Window, canvas: u64)
    ensures
        w.keeps_consistent(w.set_parent_spec(canvas).0, w.set_parent_spec(canvas).1),
{
    let (next, ops) = w.set_parent_spec(canvas);
    assert forall|s: Scene| #[trigger] w.consistent(s) implies next.consistent(run(s, ops)) by {
        lemma_run_empty(s);
        if ops.len() > 0 {
            lemma_run2(s, ops);
        }
    }
}

pub(crate) proof fn lemma_set_external_keeps(w: Window, size: (i32, i32))
    ensures
        w.keeps_consistent(w.set_external_spec(size).0, w.set_external_spec(size).1),
{
    let (next, ops) = w.set_external_spec(size);
    assert forall|s: Scene| #[trigger] w.consistent(s) implies next.consistent(run(s, ops)) by {
        lemma_run_empty(s);
        if ops.len() > 0 {
            lemma_run3(s, ops);
        }
    }
}

pub(crate) proof fn lemma_set_position_keeps(w: Window, x: Px, y: Px, width: Px, height: Px)
    ensures
        w.keeps_consistent(
            w.set_position_spec(x, y, width, height).0,
            w.set_position_spec(x, y, width, height).1,
        ),
{
    let (next, ops) = w.set_position_spec(x, y, width, height);
    assert forall|s: Scene| #[trigger] w.consistent(s) implies next.consistent(run(s, ops)) by {
        if ops.len() == 4 {
            lemma_run4(s, ops);
        } else {
            lemma_run2(s, ops);
        }
    }
}

pub(crate) proof fn lemma_run2(s: Scene, ops: Seq<Op>)
    requires
        ops.len() == 2,
    ensures
        run(s, ops) == apply(apply(s, ops[0]), ops[1]),
{
    lemma_run_empty(s);
    lemma_run_push(s, Seq::empty(), ops[0]);
    lemma_run_push(s, seq![ops[0]], ops[1]);
    assert(seq![ops[0]] =~= Seq::<Op>::empty().push(ops[0]));
    assert(ops =~= seq![ops[0]].push(ops[1]));
}

pub(crate) proof fn lemma_run3(s: Scene, ops: Seq<Op>)
    requires
        ops.len() == 3,
    ensures
        run(s, ops) == apply(apply(apply(s, ops[0]), ops[1]), ops[2]),
{
    lemma_run2(s, ops.drop_last());
    lemma_run_push(s, ops.drop_last(), ops[2]);
    assert(ops =~= ops.drop_last().push(ops[2]));
}

pub(crate) proof fn lemma_run4(s: Scene, ops: Seq<Op>)
    requires
        ops.len() == 4,
    ensures
        run(s, ops) == apply(apply(apply(apply(s, ops[0]), ops[1]), ops[2]), ops[3]),
{
    lemma_run3(s, ops.drop_last());
    lemma_run_push(s, ops.drop_last(), ops[3]);
    assert(ops =~= ops.drop_last().push(ops[3]));
}

} // verus!
