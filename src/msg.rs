//! The overlay frame that shows message and command-line grids.
use vstd::prelude::*;

use crate::geometry::{ceil_div, ceil_of, clamp_size, floor_div, floor_of, size_of, Px};

verus! {

/// What placement needs to know of a grid.
#[derive(Clone, Copy, Debug, PartialEq, Eq)]
pub struct GridView {
    /// Identifies the grid's drawable surface.
    pub widget: u64,
    pub cols: u32,
    pub cell_width: Px,
    pub cell_height: Px,
}

impl GridView {
    pub open spec fn wf(self) -> bool {
        self.cell_width.wf() && self.cell_height.wf()
    }

    /// `ceil(cols * cell_width)`.
    pub open spec fn width_spec(self) -> int {
        ceil_div(self.cols * self.cell_width.num, self.cell_width.den as int)
    }

    /// `floor(row * cell_height)`.
    pub open spec fn row_offset_spec(self, row: Px) -> int {
        floor_div(row.num * self.cell_height.num, row.den * self.cell_height.den)
    }
}

/// One operation for the toolkit layer to carry out on the frame.
#[derive(Clone, Copy, Debug, PartialEq, Eq)]
pub enum FrameOp {
    /// Take the current child out of the frame.
    RemoveChild,
    /// Take the grid's surface away from wherever it lives now.
    UnparentGrid,
    /// Make the grid's surface the frame's child.
    AddGrid,
    /// Add the "scrolled" style class.
    AddScrolledClass,
    /// Remove the "scrolled" style class.
    RemoveScrolledClass,
    /// Ask for the frame to be `w` by `h` pixels.
    SizeRequest { w: i64, h: i64 },
    /// Move the frame on the canvas to `(x, y)`.
    Move { x: i64, y: i64 },
    /// Show the canvas and everything on it.
    ShowAll,
}

/// The message frame: which grid surface it holds, and where it stands.
#[derive(Clone, Copy, Debug, PartialEq, Eq)]
pub struct MsgWindow {
    pub canvas: u64,
    pub child: Option<u64>,
    pub scrolled: bool,
    pub x: i64,
    pub y: i64,
    pub width: i64,
    pub height: i64,
}

impl MsgWindow {
    /// The operations that make `widget` the frame's child.
    pub open spec fn reparent_spec(self, widget: u64) -> Seq<FrameOp> {
        match self.child {
            Some(c) => if c == widget {
                seq![]
            } else {
                seq![FrameOp::RemoveChild, FrameOp::UnparentGrid, FrameOp::AddGrid]
            },
            None => seq![FrameOp::AddGrid],
        }
    }

    pub open spec fn set_pos_spec(self, grid: GridView, row: Px, h: Px, scrolled: bool) -> (MsgWindow, Seq<FrameOp>) {
        let width = clamp_size(grid.width_spec()) as i64;
        let height = clamp_size(h.ceil_spec()) as i64;
        let y = grid.row_offset_spec(row) as i64;
        let class = if scrolled { FrameOp::AddScrolledClass } else { FrameOp::RemoveScrolledClass };
        (
            MsgWindow { child: Some(grid.widget), scrolled, x: 0, y, width, height, ..self },
            self.reparent_spec(grid.widget) + seq![
                class,
                FrameOp::SizeRequest { w: width, h: height },
                FrameOp::Move { x: 0, y },
                FrameOp::ShowAll,
            ],
        )
    }

    /// An empty frame at the origin of `canvas`.
    pub fn new(canvas: u64) -> (r: MsgWindow)
        ensures
            r == (MsgWindow { canvas, child: None, scrolled: false, x: 0, y: 0, width: 0, height: 0 }),
    {
        MsgWindow { canvas, child: None, scrolled: false, x: 0, y: 0, width: 0, height: 0 }
    }

    /// Shows `grid` in the frame from `row` of the canvas down, `h` high
    /// (a negative size counts as zero).
    /// The grid's surface is moved into the frame only when the frame holds
    /// another one (or none).
    pub fn set_pos(&mut self, grid: &GridView, row: Px, h: Px, scrolled: bool) -> (r: Vec<FrameOp>)
        requires
            grid.wf(),
            row.wf(),
            h.wf(),
        ensures
            (*final(self), r@) == old(self).set_pos_spec(*grid, row, h, scrolled),
    {
        let mut ops: Vec<FrameOp> = Vec::new();
        match self.child {
            Some(c) => {
                if c != grid.widget {
                    ops.push(FrameOp::RemoveChild);
                    ops.push(FrameOp::UnparentGrid);
                    ops.push(FrameOp::AddGrid);
                }
            },
            None => ops.push(FrameOp::AddGrid),
        }
        self.child = Some(grid.widget);
        if scrolled {
            ops.push(FrameOp::AddScrolledClass);
        } else {
            ops.push(FrameOp::RemoveScrolledClass);
        }
        self.scrolled = scrolled;

        let cw = grid.cell_width;
        assert(-0xffff_ffff * 0x8000_0000 <= grid.cols * cw.num <= 0xffff_ffff * 0x8000_0000)
            by (nonlinear_arith)
            requires
                0 <= grid.cols <= 0xffff_ffff,
                -0x8000_0000 <= cw.num <= 0x8000_0000,
        ;
        let width = size_of(ceil_of(grid.cols as i64 * cw.num as i64, cw.den as u64));
        let height = size_of(h.ceil());

        let ch = grid.cell_height;
        assert(-0x8000_0000 * 0x8000_0000 <= row.num * ch.num <= 0x8000_0000 * 0x8000_0000)
            by (nonlinear_arith)
            requires
                -0x8000_0000 <= row.num <= 0x8000_0000,
                -0x8000_0000 <= ch.num <= 0x8000_0000,
        ;
        assert(0 < row.den * ch.den <= 0xffff_ffff * 0xffff_ffff) by (nonlinear_arith)
            requires
                0 < row.den <= 0xffff_ffff,
                0 < ch.den <= 0xffff_ffff,
        ;
        let y = floor_of(row.num as i64 * ch.num as i64, row.den as u64 * ch.den as u64);

        ops.push(FrameOp::SizeRequest { w: width, h: height });
        ops.push(FrameOp::Move { x: 0, y });
        ops.push(FrameOp::ShowAll);
        self.x = 0;
        self.y = y;
        self.width = width;
        self.height = height;
        proof {
            let ghost v = old(self).set_pos_spec(*grid, row, h, scrolled);
            assert(ops@ =~= v.1);
        }
        ops
    }
}

} // verus!
