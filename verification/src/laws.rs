//! General laws of the grid, stated over `GridView` and proved once for all
//! states that the contracts of `Universe` can produce.

use vstd::prelude::*;
use vstd::arithmetic::div_mod::{lemma_fundamental_div_mod, lemma_fundamental_div_mod_converse, lemma_mod_pos_bound};
use crate::grid::{GridView, lemma_cell_idx_in_range};

verus! {

/// A neighbour count is the sum of eight zero-or-one terms, so it lies
/// between zero and eight.
pub proof fn lemma_neighbour_count_range(g: GridView, row: int, col: int)
    requires
        g.wf(),
        0 <= row < g.height,
        0 <= col < g.width,
    ensures
        0 <= g.live_neighbour_count(row, col) <= 8,
{
}

/// One neighbour term never shrinks when a single dead cell is made alive.
proof fn lemma_term_monotone(g0: GridView, g1: GridView, row: int, col: int, dr: int, dc: int, k: int)
    requires
        g0.wf(),
        g1.wf(),
        g1.width == g0.width,
        g1.height == g0.height,
        0 <= k < g0.size(),
        !g0.cells[k],
        g1.cells == g0.cells.update(k, true),
        0 <= row < g0.height,
        0 <= col < g0.width,
        0 <= dr,
        0 <= dc,
    ensures
        g0.nbr(row, col, dr, dc) <= g1.nbr(row, col, dr, dc),
        (dr != 0 || dc != 0) && ((row + dr) % g0.height) * g0.width + (col + dc) % g0.width == k
            ==> g1.nbr(
            row,
            col,
            dr,
            dc,
        ) == 1,
{
    lemma_mod_pos_bound(row + dr, g0.height);
    lemma_mod_pos_bound(col + dc, g0.width);
    lemma_cell_idx_in_range(g0, (row + dr) % g0.height, (col + dc) % g0.width);
}

/// Toroidal wraparound: making the corner cell at row zero, column zero
/// alive strictly raises the neighbour count of the diagonally opposite
/// corner, as if the two were adjacent.
pub proof fn lemma_toroidal_wraparound(g0: GridView, g1: GridView)
    requires
        g0.wf(),
        g1.wf(),
        g1.width == g0.width,
        g1.height == g0.height,
        !g0.cells[0],
        g1.cells == g0.cells.update(0, true),
    ensures
        g0.live_neighbour_count(g0.height - 1, g0.width - 1) < g1.live_neighbour_count(
            g1.height - 1,
            g1.width - 1,
        ),
{
    let h = g0.height;
    let w = g0.width;
    let row = h - 1;
    let col = w - 1;
    assert(1 <= g0.size()) by (nonlinear_arith)
        requires
            1 <= g0.width,
            1 <= g0.height,
    ;
    lemma_term_monotone(g0, g1, row, col, h - 1, w - 1, 0);
    lemma_term_monotone(g0, g1, row, col, h - 1, 0, 0);
    lemma_term_monotone(g0, g1, row, col, h - 1, 1, 0);
    lemma_term_monotone(g0, g1, row, col, 0, w - 1, 0);
    lemma_term_monotone(g0, g1, row, col, 0, 1, 0);
    lemma_term_monotone(g0, g1, row, col, 1, w - 1, 0);
    lemma_term_monotone(g0, g1, row, col, 1, 0, 0);
    lemma_term_monotone(g0, g1, row, col, 1, 1, 0);
    lemma_fundamental_div_mod_converse(row + 1, h, 1, 0);
    lemma_fundamental_div_mod_converse(col + 1, w, 1, 0);
    assert(((row + 1) % h) * w + (col + 1) % w == 0);
    assert(g1.nbr(row, col, 1, 1) == 1);
    assert(g0.nbr(row, col, 1, 1) == 0);
}

/// Toggle priority: staging a toggle on a dead cell makes the next advance
/// force that cell alive, whatever the rule alone would compute; the toggle
/// is consumed by that advance, so the advance after it applies the plain
/// rule to the cell again.
pub proof fn lemma_toggle_priority(g: GridView, row: int, col: int)
    requires
        g.wf(),
        0 <= row < g.height,
        0 <= col < g.width,
        !g.cells[g.cell_idx(row, col)],
    ensures
        ({
            let after = g.with_pending(row, col).stepped();
            &&& after.cells[g.cell_idx(row, col)]
            &&& !after.pending[g.cell_idx(row, col)]
            &&& after.stepped().cells[g.cell_idx(row, col)] == GridView::rule(
                after.cells[g.cell_idx(row, col)],
                after.live_neighbour_count(row, col),
            )
        }),
{
    lemma_cell_idx_in_range(g, row, col);
    let i = g.cell_idx(row, col);
    let staged = g.with_pending(row, col);
    let after = staged.stepped();
    assert(after.cells[i]);
    assert(!after.pending[i]);
    assert(after.stepped().cells[i] == after.next_cell(i));
}

/// Whether the cell at row-major index `i` of a `width`-wide grid belongs to
/// the two-by-two block at rows one and two, columns one and two.
pub open spec fn block_cell(width: int, i: int) -> bool {
    &&& 1 <= i / width <= 2
    &&& 1 <= i % width <= 2
}

/// The value of the cell at already-wrapped coordinates on a grid that
/// holds exactly the two-by-two block.
proof fn lemma_block_cell_value(g: GridView, vr: int, vc: int)
    requires
        g.wf(),
        forall|i: int| 0 <= i < g.size() ==> (g.cells[i] <==> block_cell(g.width, i)),
        0 <= vr < g.height,
        0 <= vc < g.width,
    ensures
        g.cells[g.cell_idx(vr, vc)] <==> (1 <= vr <= 2 && 1 <= vc <= 2),
{
    lemma_cell_idx_in_range(g, vr, vc);
}

/// A wrapped step backwards: to the previous row or column, or around to
/// the far edge.
proof fn lemma_wrap_prev(x: int, m: int)
    requires
        0 <= x < m,
    ensures
        (x + (m - 1)) % m == if x == 0 {
            m - 1
        } else {
            x - 1
        },
{
    if x == 0 {
        lemma_fundamental_div_mod_converse(x + (m - 1), m, 0, m - 1);
    } else {
        lemma_fundamental_div_mod_converse(x + (m - 1), m, 1, x - 1);
    }
}

/// A wrapped step forwards: to the next row or column, or around to zero.
proof fn lemma_wrap_next(x: int, m: int)
    requires
        0 <= x < m,
    ensures
        (x + 1) % m == if x == m - 1 {
            0
        } else {
            x + 1
        },
        (x + 0) % m == x,
{
    if x == m - 1 {
        lemma_fundamental_div_mod_converse(x + 1, m, 1, 0);
    } else {
        lemma_fundamental_div_mod_converse(x + 1, m, 0, x + 1);
    }
    lemma_fundamental_div_mod_converse(x, m, 0, x);
}

/// On a grid that holds exactly the two-by-two block, one advance leaves
/// each cell as it was: the block cells each have three live neighbours and
/// survive, every other cell has fewer than three and stays dead.
proof fn lemma_block_next_cell(g: GridView, i: int)
    requires
        g.wf(),
        g.width >= 4,
        g.height >= 4,
        forall|j: int| 0 <= j < g.size() ==> (g.cells[j] <==> block_cell(g.width, j)),
        forall|j: int| 0 <= j < g.size() ==> !g.pending[j],
        0 <= i < g.size(),
    ensures
        g.next_cell(i) == g.cells[i],
{
    let w = g.width;
    let h = g.height;
    let row = i / w;
    let col = i % w;
    lemma_mod_pos_bound(i, w);
    assert(0 <= row < h) by (nonlinear_arith)
        requires
            0 <= i < w * h,
            w >= 1,
            row == i / w,
    ;
    lemma_fundamental_div_mod(i, w);
    assert(i == g.cell_idx(row, col));
    lemma_wrap_prev(row, h);
    lemma_wrap_next(row, h);
    lemma_wrap_prev(col, w);
    lemma_wrap_next(col, w);
    let rm = (row + (h - 1)) % h;
    let rz = (row + 0) % h;
    let rp = (row + 1) % h;
    let cm = (col + (w - 1)) % w;
    let cz = (col + 0) % w;
    let cp = (col + 1) % w;
    lemma_block_cell_value(g, rm, cm);
    lemma_block_cell_value(g, rm, cz);
    lemma_block_cell_value(g, rm, cp);
    lemma_block_cell_value(g, rz, cm);
    lemma_block_cell_value(g, rz, cz);
    lemma_block_cell_value(g, rz, cp);
    lemma_block_cell_value(g, rp, cm);
    lemma_block_cell_value(g, rp, cz);
    lemma_block_cell_value(g, rp, cp);
}

/// Still life: a two-by-two block of live cells at rows one and two,
/// columns one and two, with every other cell dead and nothing pending, is
/// unchanged by one generation advance, on any grid at least four wide and
/// four high.
pub proof fn lemma_block_still_life(g: GridView)
    requires
        g.wf(),
        g.width >= 4,
        g.height >= 4,
        forall|i: int| 0 <= i < g.size() ==> (g.cells[i] <==> block_cell(g.width, i)),
        forall|i: int| 0 <= i < g.size() ==> !g.pending[i],
    ensures
        g.stepped() == g,
{
    assert forall|i: int| 0 <= i < g.size() implies g.stepped().cells[i] == g.cells[i] by {
        lemma_block_next_cell(g, i);
    }
    assert(g.stepped().cells =~= g.cells);
    assert(g.stepped().pending =~= g.pending);
    assert(g.stepped() =~= g);
}

/// Rendering is a pure function of the grid state: two renders of one and
/// the same state are identical.
pub proof fn lemma_render_deterministic(g0: GridView, g1: GridView)
    requires
        g0 == g1,
    ensures
        g0.render_spec() == g1.render_spec(),
{
}

} // verus!
