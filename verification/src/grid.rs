//! A toroidal Game of Life grid: cell state, staged manual toggles, one-step
//! evolution under the standard rule, and a textual rendering.

use vstd::prelude::*;
use vstd::arithmetic::div_mod::lemma_fundamental_div_mod_converse;
use vstd::string::StringExecFns;
use fixedbitset::FixedBitSet;
use crate::bits::{bit_seq, bits_new, bits_set, bits_get, bits_words};
use crate::rng::random_cell;

verus! {

/// A cell's row-major index lies within the grid, and the row and column
/// can be recovered from it by division and remainder.
pub proof fn lemma_cell_idx_in_range(g: GridView, row: int, col: int)
    requires
        g.wf(),
        0 <= row < g.height,
        0 <= col < g.width,
    ensures
        0 <= g.cell_idx(row, col) < g.size(),
        g.cell_idx(row, col) / g.width == row,
        g.cell_idx(row, col) % g.width == col,
{
    assert(row * g.width + col < g.width * g.height) by (nonlinear_arith)
        requires
            row <= g.height - 1,
            1 <= g.width,
            0 <= col < g.width,
    ;
    lemma_fundamental_div_mod_converse(g.cell_idx(row, col), g.width, row, col);
}

/// The reasons an operation can refuse its arguments.
#[derive(Clone, Copy, PartialEq, Eq, Structural, Debug)]
pub enum GridError {
    /// A zero width or height on construction or resize.
    InvalidDimension,
    /// A row or column at or beyond the corresponding dimension.
    OutOfRange,
}

/// The mathematical state of a grid: its dimensions, the liveness of each
/// cell in row-major order, and the staged manual toggles.
#[verifier::ext_equal]
pub ghost struct GridView {
    pub width: int,
    pub height: int,
    pub cells: Seq<bool>,
    pub pending: Seq<bool>,
}

impl GridView {
    /// The number of cells.
    pub open spec fn size(self) -> int {
        self.width * self.height
    }

    /// Well-formedness: positive dimensions that fit the machine, and both
    /// bit sequences exactly one bit per cell.
    pub open spec fn wf(self) -> bool {
        &&& 1 <= self.width
        &&& 1 <= self.height
        &&& self.width * self.height <= u32::MAX
        &&& self.cells.len() == self.size()
        &&& self.pending.len() == self.size()
    }

    /// Row-major index of a cell; the coordinates must already be wrapped.
    pub open spec fn cell_idx(self, row: int, col: int) -> int {
        row * self.width + col
    }

    /// One if the cell at the (already wrapped) coordinates is alive.
    pub open spec fn live_at(self, row: int, col: int) -> int {
        if self.cells[self.cell_idx(row, col)] {
            1int
        } else {
            0int
        }
    }

    /// One if the neighbour at the given offsets, wrapped toroidally, is
    /// alive. Offsets of `height - 1` and `width - 1` reach the previous row
    /// and column. The zero offset pair is skipped by value, so with a
    /// single row or column the offsets that coincide with zero contribute
    /// nothing.
    pub open spec fn nbr(self, row: int, col: int, dr: int, dc: int) -> int {
        if dr == 0 && dc == 0 {
            0int
        } else {
            self.live_at((row + dr) % self.height, (col + dc) % self.width)
        }
    }

    /// The number of live cells among the eight toroidally wrapped
    /// neighbours. With a single row or column the wrapping revisits the
    /// same cell from several distinct offsets, and it is counted once per
    /// offset.
    pub open spec fn live_neighbour_count(self, row: int, col: int) -> int {
        self.nbr(row, col, self.height - 1, self.width - 1) + self.nbr(row, col, self.height - 1, 0)
            + self.nbr(row, col, self.height - 1, 1) + self.nbr(row, col, 0, self.width - 1)
            + self.nbr(row, col, 0, 1) + self.nbr(row, col, 1, self.width - 1) + self.nbr(
            row,
            col,
            1,
            0,
        ) + self.nbr(row, col, 1, 1)
    }

    /// The standard Game of Life rule: a live cell survives with two or
    /// three live neighbours, a dead cell is born with exactly three.
    pub open spec fn rule(alive: bool, n: int) -> bool {
        if alive {
            n == 2 || n == 3
        } else {
            n == 3
        }
    }

    /// The liveness of cell `i` after one generation: a staged toggle forces
    /// it alive, otherwise the rule is applied to the previous generation.
    pub open spec fn next_cell(self, i: int) -> bool {
        if self.pending[i] {
            true
        } else {
            Self::rule(self.cells[i], self.live_neighbour_count(i / self.width, i % self.width))
        }
    }

    /// The whole grid after one generation: every cell advanced from the
    /// previous snapshot, every staged toggle consumed.
    pub open spec fn stepped(self) -> GridView {
        GridView {
            width: self.width,
            height: self.height,
            cells: Seq::new(self.size() as nat, |i: int| self.next_cell(i)),
            pending: Seq::new(self.size() as nat, |i: int| false),
        }
    }

    /// A grid of the given dimensions with every cell dead and nothing
    /// pending.
    pub open spec fn cleared(width: int, height: int) -> GridView {
        GridView {
            width,
            height,
            cells: Seq::new((width * height) as nat, |i: int| false),
            pending: Seq::new((width * height) as nat, |i: int| false),
        }
    }

    /// The grid with one more staged toggle.
    pub open spec fn with_pending(self, row: int, col: int) -> GridView {
        GridView { pending: self.pending.update(self.cell_idx(row, col), true), ..self }
    }

    /// The glyph a cell is drawn as.
    pub open spec fn glyph(alive: bool) -> char {
        if alive {
            '◼'
        } else {
            '◻'
        }
    }

    /// The characters of one rendered row: one glyph per cell, then a
    /// newline.
    pub open spec fn row_chars(self, row: int) -> Seq<char> {
        Seq::new(self.width as nat, |c: int| Self::glyph(self.cells[self.cell_idx(row, c)]))
            + seq!['\n']
    }

    /// The rendered rows before `row`, concatenated.
    pub open spec fn render_upto(self, row: int) -> Seq<char>
        decreases row,
    {
        if row <= 0 {
            Seq::empty()
        } else {
            self.render_upto(row - 1) + self.row_chars(row - 1)
        }
    }

    /// The full rendering: `height` newline-terminated rows in row-major
    /// order.
    pub open spec fn render_spec(self) -> Seq<char> {
        self.render_upto(self.height)
    }
}

/// A Game of Life grid on a torus, with a staged-toggle overlay applied on
/// the next generation advance.
pub struct Universe {
    width: u32,
    height: u32,
    cells: FixedBitSet,
    new_cells: FixedBitSet,
}

impl View for Universe {
    type V = GridView;

    closed spec fn view(&self) -> GridView {
        GridView {
            width: self.width as int,
            height: self.height as int,
            cells: bit_seq(self.cells),
            pending: bit_seq(self.new_cells),
        }
    }
}

impl Universe {
    /// A fresh grid of the given dimensions, each cell independently
    /// randomized and no toggle pending. Zero dimensions are refused.
    pub fn new(width: u32, height: u32) -> (r: Result<Universe, GridError>)
        requires
            width as int * height as int <= u32::MAX as int,
        ensures
            r is Err <==> (width == 0 || height == 0),
            r is Err ==> r->Err_0 == GridError::InvalidDimension,
            r is Ok ==> {
                let u = r->Ok_0;
                &&& u@.wf()
                &&& u@.width == width as int
                &&& u@.height == height as int
                &&& u@.pending == Seq::new((width * height) as nat, |i: int| false)
            },
    {
        if width == 0 || height == 0 {
            return Err(GridError::InvalidDimension);
        }
        let size = (width * height) as usize;
        let mut cells = bits_new(size);
        let new_cells = bits_new(size);
        let mut i: usize = 0;
        while i < size
            invariant
                i <= size,
                bit_seq(cells).len() == size,
            decreases size - i,
        {
            bits_set(&mut cells, i, random_cell());
            i += 1;
        }
        let u = Universe { width, height, cells, new_cells };
        proof {
            assert(u@.pending =~= Seq::new((width * height) as nat, |i: int| false));
        }
        Ok(u)
    }

    /// The row-major index of a cell; the coordinates must already be in
    /// range.
    fn get_index(&self, row: u32, col: u32) -> (r: usize)
        requires
            self@.wf(),
            (row as int) < self@.height,
            (col as int) < self@.width,
        ensures
            r as int == self@.cell_idx(row as int, col as int),
            r < self@.size(),
    {
        proof {
            lemma_cell_idx_in_range(self@, row as int, col as int);
        }
        (row * self.width + col) as usize
    }

    /// Whether the neighbour at the given offsets, wrapped toroidally, is
    /// alive, as zero or one.
    fn neighbour(&self, row: u32, col: u32, dr: u32, dc: u32) -> (b: u8)
        requires
            self@.wf(),
            (row as int) < self@.height,
            (col as int) < self@.width,
            dr as int <= self@.height,
            dc as int <= self@.width,
        ensures
            b as int == self@.nbr(row as int, col as int, dr as int, dc as int),
    {
        if dr == 0 && dc == 0 {
            return 0;
        }
        let nr = ((row as u64 + dr as u64) % self.height as u64) as u32;
        let nc = ((col as u64 + dc as u64) % self.width as u64) as u32;
        let id = self.get_index(nr, nc);
        if bits_get(&self.cells, id) {
            1
        } else {
            0
        }
    }

    /// The number of live cells among the eight toroidally wrapped
    /// neighbours of the cell, between zero and eight.
    pub fn live_neighbours(&self, row: u32, col: u32) -> (n: u8)
        requires
            self@.wf(),
            (row as int) < self@.height,
            (col as int) < self@.width,
        ensures
            n as int == self@.live_neighbour_count(row as int, col as int),
            n <= 8,
    {
        let mut count: u8 = 0;
        count += self.neighbour(row, col, self.height - 1, self.width - 1);
        count += self.neighbour(row, col, self.height - 1, 0);
        count += self.neighbour(row, col, self.height - 1, 1);
        count += self.neighbour(row, col, 0, self.width - 1);
        count += self.neighbour(row, col, 0, 1);
        count += self.neighbour(row, col, 1, self.width - 1);
        count += self.neighbour(row, col, 1, 0);
        count += self.neighbour(row, col, 1, 1);
        count
    }

    /// Stages the cell at the given coordinates to be forced alive on the
    /// next advance. Coordinates at or beyond the dimensions are refused.
    pub fn toggle_cell(&mut self, row: u32, col: u32) -> (r: Result<(), GridError>)
        requires
            old(self)@.wf(),
        ensures
            r is Err <==> ((row as int) >= old(self)@.height || (col as int) >= old(self)@.width),
            r is Err ==> r->Err_0 == GridError::OutOfRange && final(self)@ == old(self)@,
            r is Ok ==> final(self)@ == old(self)@.with_pending(row as int, col as int),
            final(self)@.wf(),
    {
        if row >= self.height || col >= self.width {
            return Err(GridError::OutOfRange);
        }
        let id = self.get_index(row, col);
        bits_set(&mut self.new_cells, id, true);
        Ok(())
    }

    /// Replaces the grid with a fresh one of the given dimensions: every
    /// cell dead, no toggle pending, the prior state destroyed. Zero
    /// dimensions are refused and leave the grid unchanged.
    pub fn set_size(&mut self, width: u32, height: u32) -> (r: Result<(), GridError>)
        requires
            width as int * height as int <= u32::MAX as int,
        ensures
            r is Err <==> (width == 0 || height == 0),
            r is Err ==> r->Err_0 == GridError::InvalidDimension && final(self)@ == old(self)@,
            r is Ok ==> final(self)@ == GridView::cleared(width as int, height as int)
                && final(self)@.wf(),
    {
        if width == 0 || height == 0 {
            return Err(GridError::InvalidDimension);
        }
        self.width = width;
        self.height = height;
        let size = (width * height) as usize;
        self.cells = bits_new(size);
        self.new_cells = bits_new(size);
        proof {
            assert(self@.cells =~= GridView::cleared(width as int, height as int).cells);
            assert(self@.pending =~= GridView::cleared(width as int, height as int).pending);
            assert(self@ =~= GridView::cleared(width as int, height as int));
        }
        Ok(())
    }

    /// Advances the grid by one generation. The next state is computed into
    /// a fresh buffer from a snapshot of the current one, so no in-place
    /// update can corrupt a neighbour count. A cell with a staged toggle is
    /// forced alive and the toggle consumed; every other cell follows the
    /// standard rule. Afterwards no toggle is pending.
    pub fn tick(&mut self)
        requires
            old(self)@.wf(),
        ensures
            final(self)@ == old(self)@.stepped(),
            final(self)@.wf(),
    {
        let ghost g = self@;
        let size = (self.width * self.height) as usize;
        let mut next = bits_new(size);
        let mut row: u32 = 0;
        while row < self.height
            invariant
                self@.wf(),
                g.wf(),
                self@.width == g.width,
                self@.height == g.height,
                self@.cells == g.cells,
                (row as int) <= g.height,
                size == g.size(),
                bit_seq(next).len() == size,
                forall|j: int| 0 <= j < row as int * g.width ==> bit_seq(next)[j] == g.next_cell(j),
                forall|j: int| 0 <= j < row as int * g.width ==> !self@.pending[j],
                forall|j: int|
                    row as int * g.width <= j < size ==> self@.pending[j] == g.pending[j],
            decreases g.height - row as int,
        {
            let mut col: u32 = 0;
            while col < self.width
                invariant
                    self@.wf(),
                    g.wf(),
                    self@.width == g.width,
                    self@.height == g.height,
                    self@.cells == g.cells,
                    (row as int) < g.height,
                    (col as int) <= g.width,
                    size == g.size(),
                    bit_seq(next).len() == size,
                    forall|j: int|
                        0 <= j < row as int * g.width + col as int ==> bit_seq(next)[j]
                            == g.next_cell(j),
                    forall|j: int|
                        0 <= j < row as int * g.width + col as int ==> !self@.pending[j],
                    forall|j: int|
                        row as int * g.width + col as int <= j < size ==> self@.pending[j]
                            == g.pending[j],
                decreases g.width - col as int,
            {
                let id = self.get_index(row, col);
                proof {
                    lemma_cell_idx_in_range(g, row as int, col as int);
                }
                if bits_get(&self.new_cells, id) {
                    bits_set(&mut next, id, true);
                    bits_set(&mut self.new_cells, id, false);
                } else {
                    let cell = bits_get(&self.cells, id);
                    let n = self.live_neighbours(row, col);
                    let alive_next = if cell {
                        n == 2 || n == 3
                    } else {
                        n == 3
                    };
                    bits_set(&mut next, id, alive_next);
                }
                col += 1;
            }
            proof {
                assert((row as int + 1) * g.width == row as int * g.width + g.width)
                    by (nonlinear_arith);
            }
            row += 1;
        }
        self.cells = next;
        proof {
            assert(row as int * g.width == g.size()) by (nonlinear_arith)
                requires
                    row as int == g.height,
            ;
            assert(self@.cells =~= g.stepped().cells);
            assert(self@.pending =~= g.stepped().pending);
            assert(self@ =~= g.stepped());
        }
    }

    /// The textual rendering: `height` newline-terminated lines of `width`
    /// glyphs each, in row-major order, a filled square for a live cell and
    /// an empty one for a dead cell. A pure projection of the state, so the
    /// same state always renders to the same text.
    pub fn render(&self) -> (s: String)
        requires
            self@.wf(),
        ensures
            s@ == self@.render_spec(),
    {
        let ghost g = self@;
        proof {
            reveal_strlit("◼");
            reveal_strlit("◻");
            reveal_strlit("\n");
        }
        let mut s = String::new();
        let mut row: u32 = 0;
        while row < self.height
            invariant
                self@.wf(),
                self@ == g,
                (row as int) <= g.height,
                s@ == g.render_upto(row as int),
            decreases g.height - row as int,
        {
            let mut col: u32 = 0;
            while col < self.width
                invariant
                    self@.wf(),
                    self@ == g,
                    (row as int) < g.height,
                    (col as int) <= g.width,
                    s@ == g.render_upto(row as int) + Seq::new(
                        col as nat,
                        |c: int| GridView::glyph(g.cells[g.cell_idx(row as int, c)]),
                    ),
                decreases g.width - col as int,
            {
                let id = self.get_index(row, col);
                if bits_get(&self.cells, id) {
                    s.append("◼");
                } else {
                    s.append("◻");
                }
                proof {
                    reveal_strlit("◼");
                    reveal_strlit("◻");
                    assert(s@ =~= g.render_upto(row as int) + Seq::new(
                        (col + 1) as nat,
                        |c: int| GridView::glyph(g.cells[g.cell_idx(row as int, c)]),
                    ));
                }
                col += 1;
            }
            s.append("\n");
            proof {
                reveal_strlit("\n");
                assert(s@ =~= g.render_upto(row as int + 1));
            }
            row += 1;
        }
        s
    }

    /// The grid's width in cells.
    pub fn width(&self) -> (r: u32)
        ensures
            r as int == self@.width,
    {
        self.width
    }

    /// The grid's height in cells.
    pub fn height(&self) -> (r: u32)
        ensures
            r as int == self@.height,
    {
        self.height
    }

    /// A borrowed read-only view of the packed cell bits, for a host
    /// display layer.
    pub fn get_cells(&self) -> (r: &FixedBitSet)
        ensures
            bit_seq(*r) == self@.cells,
    {
        &self.cells
    }

    /// A copy of the packed cell words: one `u32` per 32 cells, rounded up,
    /// cell `i` stored least-significant-first as bit `i % 32` of word
    /// `i / 32`.
    pub fn cells(&self) -> (r: Vec<u32>)
        ensures
            r@.len() == (self@.cells.len() + 31) / 32,
            forall|i: int|
                0 <= i < self@.cells.len() ==> self@.cells[i] == ((r@[i / 32] >> ((i % 32) as u32))
                    & 1 == 1),
    {
        bits_words(&self.cells)
    }
}

} // verus!
