//! Turning continuous scrollbar movement into discrete row-scroll commands.
use vstd::prelude::*;

use crate::geometry::{abs, ceil_div, lemma_ceil_bound, lemma_floor_nonneg, Px};

verus! {

/// A range-adjustment model, in pixels.
#[derive(Clone, Copy, Debug, PartialEq, Eq)]
pub struct Adjustment {
    pub value: Px,
    pub lower: Px,
    pub upper: Px,
    pub step_increment: Px,
    pub page_increment: Px,
    pub page_size: Px,
}

impl Adjustment {
    pub open spec fn wf(self) -> bool {
        &&& self.value.wf()
        &&& self.lower.wf()
        &&& self.upper.wf()
        &&& self.step_increment.wf()
        &&& self.page_increment.wf()
        &&& self.page_size.wf()
    }
}

/// Which single-row primitive a command repeats.
#[derive(Clone, Copy, Debug, PartialEq, Eq)]
pub enum Direction {
    /// Scroll the view down by one row (`<C-e>`).
    Forward,
    /// Scroll the view up by one row (`<C-y>`).
    Backward,
}

/// A run of identical single-row scroll primitives.
#[derive(Clone, Copy, Debug, PartialEq, Eq)]
pub struct ScrollCommand {
    pub direction: Direction,
    pub rows: u128,
}

/// The editor key sequence of one row of scrolling in `d`.
pub open spec fn primitive(d: Direction) -> Seq<char> {
    match d {
        Direction::Forward => "<C-e>"@,
        Direction::Backward => "<C-y>"@,
    }
}

/// `s` written `n` times in a row.
pub open spec fn repeat_seq(s: Seq<char>, n: nat) -> Seq<char>
    decreases n,
{
    if n == 0 {
        Seq::empty()
    } else {
        repeat_seq(s, (n - 1) as nat) + s
    }
}

/// Rows between the committed value `last` and `new`, with cells `ch` high:
/// `ceil((last - new) / ch)`. Positive means the view moved back (up).
pub open spec fn row_delta(last: Px, new: Px, ch: Px) -> int {
    ceil_div(
        (last.num * new.den - new.num * last.den) * ch.den,
        last.den * new.den * ch.num,
    )
}

/// The command that a delta of `d` rows calls for.
pub open spec fn command_of(d: int) -> ScrollCommand {
    if d < 0 {
        ScrollCommand { direction: Direction::Forward, rows: (-d) as u128 }
    } else {
        ScrollCommand { direction: Direction::Backward, rows: d as u128 }
    }
}

impl ScrollCommand {
    /// The key sequence sent to the editor.
    pub open spec fn input_spec(self) -> Seq<char> {
        repeat_seq(primitive(self.direction), self.rows as nat)
    }

    /// Builds the key sequence: the primitive repeated `rows` times.
    pub fn input(&self) -> (r: String)
        ensures
            r@ == self.input_spec(),
    {
        let prim: &str = match self.direction {
            Direction::Forward => "<C-e>",
            Direction::Backward => "<C-y>",
        };
        let mut out = String::new();
        let mut i: u128 = 0;
        while i < self.rows
            invariant
                i <= self.rows,
                prim@ == primitive(self.direction),
                out@ == repeat_seq(prim@, i as nat),
            decreases self.rows - i,
        {
            out.append(prim);
            i = i + 1;
        }
        out
    }
}

/// The bridge between the scrollbar and the editor's scroll commands.
///
/// `last_value` is the value the editor last confirmed; only `configure`
/// moves it. While `suppressed`, value changes are the editor's own update
/// being applied and emit nothing.
#[derive(Clone, Copy, Debug, PartialEq, Eq)]
pub struct ScrollSync {
    pub adjustment: Adjustment,
    pub last_value: Px,
    pub cell_height: Px,
    pub suppressed: bool,
}

impl ScrollSync {
    pub open spec fn wf(self) -> bool {
        &&& self.adjustment.wf()
        &&& self.last_value.wf()
        &&& self.cell_height.wf()
    }

    /// What a change of the scrollbar to `new` emits.
    pub open spec fn command_spec(self, new: Px) -> Option<ScrollCommand> {
        if self.suppressed || !self.cell_height.is_positive() {
            None
        } else {
            Some(command_of(row_delta(self.last_value, new, self.cell_height)))
        }
    }

    /// The state after the scrollbar moved to `new`.
    pub open spec fn moved(self, new: Px) -> ScrollSync {
        ScrollSync { adjustment: Adjustment { value: new, ..self.adjustment }, ..self }
    }

    /// The state while the editor's authoritative values are applied.
    pub open spec fn configured(self, adjustment: Adjustment, cell_height: Px) -> ScrollSync {
        ScrollSync {
            adjustment,
            last_value: adjustment.value,
            cell_height,
            suppressed: true,
        }
    }

    /// The state once that application is over.
    pub open spec fn released(self) -> ScrollSync {
        ScrollSync { suppressed: false, ..self }
    }

    /// Everything zero, nothing suppressed.
    pub open spec fn new_spec() -> ScrollSync {
        let z = Px::whole_spec(0);
        ScrollSync {
            adjustment: Adjustment {
                value: z,
                lower: z,
                upper: z,
                step_increment: z,
                page_increment: z,
                page_size: z,
            },
            last_value: z,
            cell_height: z,
            suppressed: false,
        }
    }

    /// A fresh bridge: everything zero, nothing suppressed.
    pub fn new() -> (r: ScrollSync)
        ensures
            r.wf(),
            r == ScrollSync::new_spec(),
    {
        let z = Px::whole(0);
        ScrollSync {
            adjustment: Adjustment {
                value: z,
                lower: z,
                upper: z,
                step_increment: z,
                page_increment: z,
                page_size: z,
            },
            last_value: z,
            cell_height: z,
            suppressed: false,
        }
    }

    /// Applies the editor's authoritative state and starts suppression.
    pub fn configure(&mut self, adjustment: Adjustment, cell_height: Px)
        requires
            adjustment.wf(),
            cell_height.wf(),
        ensures
            *final(self) == old(self).configured(adjustment, cell_height),
            final(self).wf(),
    {
        self.adjustment = adjustment;
        self.last_value = adjustment.value;
        self.cell_height = cell_height;
        self.suppressed = true;
    }

    /// Ends the suppression that `configure` started.
    pub fn release(&mut self)
        ensures
            *final(self) == old(self).released(),
    {
        self.suppressed = false;
    }

    /// The scrollbar moved to `new`: the command to send, if any.
    pub fn value_changed(&mut self, new: Px) -> (r: Option<ScrollCommand>)
        requires
            old(self).wf(),
            new.wf(),
        ensures
            r == old(self).command_spec(new),
            *final(self) == old(self).moved(new),
            final(self).wf(),
    {
        self.adjustment.value = new;
        if self.suppressed || self.cell_height.num <= 0 {
            None
        } else {
            Some(scroll_command(self.last_value, new, self.cell_height))
        }
    }
}

/// A move never asks for more rows than a `u128` holds.
pub(crate) proof fn lemma_row_delta_bound(last: Px, new: Px, ch: Px)
    requires
        last.wf(),
        new.wf(),
        ch.wf(),
        ch.is_positive(),
    ensures
        abs(row_delta(last, new, ch)) <= 0x4_0000_0000_0000_0000_0000_0000,
{
    let lim: int = 0x1_0000_0000int;
    let diff = last.num * new.den - new.num * last.den;
    assert(-2 * lim * lim <= diff <= 2 * lim * lim) by (nonlinear_arith)
        requires
            diff == last.num * new.den - new.num * last.den,
            -lim <= last.num <= lim,
            0 <= new.den <= lim,
            -lim <= new.num <= lim,
            0 <= last.den <= lim,
    ;
    let n = diff * ch.den;
    assert(-2 * lim * lim * lim <= n <= 2 * lim * lim * lim) by (nonlinear_arith)
        requires
            n == diff * ch.den,
            -2 * lim * lim <= diff <= 2 * lim * lim,
            0 <= ch.den <= lim,
    ;
    let d = last.den * new.den * ch.num;
    assert(d > 0) by (nonlinear_arith)
        requires
            d == last.den * new.den * ch.num,
            last.den > 0,
            new.den > 0,
            ch.num > 0,
    ;
    if n >= 0 {
        lemma_floor_nonneg(n, d);
        if n >= 1 {
            lemma_ceil_bound(n, d);
        } else {
            assert((d - 1) / d == 0) by {
                vstd::arithmetic::div_mod::lemma_basic_div(d - 1, d);
            }
        }
    } else {
        lemma_floor_nonneg(-n, d);
    }
}

/// The command for a move from `last` to `new` with cells `ch` high.
fn scroll_command(last: Px, new: Px, ch: Px) -> (r: ScrollCommand)
    requires
        last.wf(),
        new.wf(),
        ch.wf(),
        ch.is_positive(),
    ensures
        r == command_of(row_delta(last, new, ch)),
{
    let ghost lim: int = 0x1_0000_0000int;
    assert(-lim * lim <= last.num * new.den <= lim * lim) by (nonlinear_arith)
        requires
            -lim <= last.num <= lim,
            0 <= new.den <= lim,
    ;
    assert(-lim * lim <= new.num * last.den <= lim * lim) by (nonlinear_arith)
        requires
            -lim <= new.num <= lim,
            0 <= last.den <= lim,
    ;
    let a: i128 = last.num as i128 * new.den as i128;
    let b: i128 = new.num as i128 * last.den as i128;
    let diff: i128 = a - b;
    assert(-2 * lim * lim * lim <= diff * ch.den <= 2 * lim * lim * lim) by (nonlinear_arith)
        requires
            -2 * lim * lim <= diff <= 2 * lim * lim,
            0 <= ch.den <= lim,
    ;
    let n: i128 = diff * ch.den as i128;
    assert(0 < last.den * new.den <= lim * lim) by (nonlinear_arith)
        requires
            0 < last.den <= lim,
            0 < new.den <= lim,
    ;
    let dd0: i128 = last.den as i128 * new.den as i128;
    assert(0 < dd0 * ch.num <= lim * lim * lim) by (nonlinear_arith)
        requires
            0 < dd0 <= lim * lim,
            0 < ch.num <= lim,
    ;
    let dd: i128 = dd0 * ch.num as i128;
    assert(n == (last.num * new.den - new.num * last.den) * ch.den);
    assert(dd == last.den * new.den * ch.num);
    if n >= 0 {
        let q: u128 = (n as u128 + dd as u128 - 1) / dd as u128;
        proof {
            crate::geometry::lemma_floor_nonneg(n as int, dd as int);
        }
        ScrollCommand { direction: Direction::Backward, rows: q }
    } else {
        let q: u128 = (-n) as u128 / dd as u128;
        proof {
            crate::geometry::lemma_floor_nonneg(-n as int, dd as int);
        }
        if q == 0 {
            ScrollCommand { direction: Direction::Backward, rows: 0 }
        } else {
            ScrollCommand { direction: Direction::Forward, rows: q }
        }
    }
}

} // verus!
