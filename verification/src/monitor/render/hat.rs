use vstd::prelude::*;

use crate::monitor::config::{HAT_BLOCKS, HAT_PADDING, HAT_THICKNESS, JOYSTICK_ASPECT_RATIO};
use crate::monitor::render::geometry::{
    fit_centered_aspect_rect, inset_rect, spec_fit_centered_aspect_rect, spec_inset_rect,
};
use crate::monitor::view_model::HatState;
use crate::rect::Rect;

verus! {

/// Which end of a line of cells.
#[derive(Clone, Copy, Debug, PartialEq, Eq)]
pub enum Edge {
    Start,
    End,
}

pub open spec fn spec_edge_indices(total: usize, count: usize, edge: Edge) -> Seq<usize> {
    let n: int = if count < total { count as int } else { total as int };
    let start: int = match edge {
        Edge::Start => 0,
        Edge::End => total - n,
    };
    Seq::new(n as nat, |i: int| (start + i) as usize)
}

/// The first or last `count` of `total` cell indices (all of them where
/// there are fewer).
pub fn edge_indices(total: usize, count: usize, edge: Edge) -> (v: Vec<usize>)
    ensures
        v@ == spec_edge_indices(total, count, edge),
        forall|i: int| 0 <= i < v@.len() ==> #[trigger] v@[i] < total,
{
    let n = if count < total { count } else { total };
    let start = match edge {
        Edge::Start => 0,
        Edge::End => total - n,
    };
    let mut v: Vec<usize> = Vec::new();
    let mut i: usize = 0;
    while i < n
        invariant
            i <= n,
            n == (if count < total { count } else { total }),
            start + n <= total,
            start == (match edge {
                Edge::Start => 0,
                Edge::End => total - n,
            }),
            v@ == spec_edge_indices(total, count, edge).take(i as int),
        decreases n - i,
    {
        v.push(start + i);
        assert(v@ =~= spec_edge_indices(total, count, edge).take(i + 1));
        i = i + 1;
    }
    assert(v@ =~= spec_edge_indices(total, count, edge));
    v
}

pub open spec fn spec_centered_indices(total: usize, count: usize) -> Seq<usize> {
    let capped: int = if count < total { count as int } else { total as int };
    let n: int = if capped < 1 { 1 } else { capped };
    let start: int = (if total >= n { total - n } else { 0 }) / 2;
    Seq::new(n as nat, |i: int| (start + i) as usize)
}

/// `count` consecutive cell indices (at least one, at most `total`)
/// centered among `total`.
pub fn centered_indices(total: usize, count: usize) -> (v: Vec<usize>)
    ensures
        v@ == spec_centered_indices(total, count),
{
    let capped = if count < total { count } else { total };
    let n: usize = if capped < 1 { 1 } else { capped };
    let start = (if total >= n { total - n } else { 0 }) / 2;
    let mut v: Vec<usize> = Vec::new();
    let mut i: usize = 0;
    while i < n
        invariant
            i <= n,
            1 <= n,
            n <= total || n == 1,
            start == (if total >= n { total - n } else { 0 }) / 2,
            n == (if capped < 1 { 1 } else { capped as int }),
            capped == (if count < total { count } else { total }),
            v@ == spec_centered_indices(total, count).take(i as int),
        decreases n - i,
    {
        v.push(start + i);
        assert(v@ =~= spec_centered_indices(total, count).take(i + 1));
        i = i + 1;
    }
    assert(v@ =~= spec_centered_indices(total, count));
    v
}

/// Each column of `xs` crossed with the rows of `ys`, column by column.
pub open spec fn cells_by_column(xs: Seq<usize>, ys: Seq<usize>) -> Seq<(usize, usize)>
    decreases xs.len(),
{
    if xs.len() == 0 {
        seq![]
    } else {
        cells_by_column(xs.drop_last(), ys) + ys.map_values(|y: usize| (xs.last(), y))
    }
}

/// Each row of `ys` crossed with the columns of `xs`, row by row.
pub open spec fn cells_by_row(ys: Seq<usize>, xs: Seq<usize>) -> Seq<(usize, usize)>
    decreases ys.len(),
{
    if ys.len() == 0 {
        seq![]
    } else {
        cells_by_row(ys.drop_last(), xs) + xs.map_values(|x: usize| (x, ys.last()))
    }
}

/// Appends `cells_by_column(xs, ys)` (or, with `by_row`, `cells_by_row(xs, ys)`,
/// the first argument then naming rows) to `out`.
fn push_cells(out: &mut Vec<(usize, usize)>, outer: &Vec<usize>, inner: &Vec<usize>, by_row: bool)
    ensures
        final(out)@ == old(out)@ + (if by_row {
            cells_by_row(outer@, inner@)
        } else {
            cells_by_column(outer@, inner@)
        }),
{
    let ghost start = out@;
    let mut i: usize = 0;
    while i < outer.len()
        invariant
            i <= outer@.len(),
            out@ == start + (if by_row {
                cells_by_row(outer@.take(i as int), inner@)
            } else {
                cells_by_column(outer@.take(i as int), inner@)
            }),
        decreases outer@.len() - i,
    {
        let o = outer[i];
        let ghost mid = out@;
        let mut j: usize = 0;
        while j < inner.len()
            invariant
                j <= inner@.len(),
                o == outer@[i as int],
                i < outer@.len(),
                out@ == mid + (if by_row {
                    inner@.take(j as int).map_values(|x: usize| (x, o))
                } else {
                    inner@.take(j as int).map_values(|y: usize| (o, y))
                }),
            decreases inner@.len() - j,
        {
            let c = if by_row { (inner[j], o) } else { (o, inner[j]) };
            out.push(c);
            proof {
                if by_row {
                    assert(out@ =~= mid + inner@.take(j + 1).map_values(|x: usize| (x, o)));
                } else {
                    assert(out@ =~= mid + inner@.take(j + 1).map_values(|y: usize| (o, y)));
                }
            }
            j = j + 1;
        }
        proof {
            assert(inner@.take(inner@.len() as int) =~= inner@);
            assert(outer@.take(i + 1).drop_last() =~= outer@.take(i as int));
            assert(outer@.take(i + 1).last() == o);
            if by_row {
                assert(out@ =~= start + cells_by_row(outer@.take(i + 1), inner@));
            } else {
                assert(out@ =~= start + cells_by_column(outer@.take(i + 1), inner@));
            }
        }
        i = i + 1;
    }
    assert(outer@.take(outer@.len() as int) =~= outer@);
}

pub open spec fn min_usize(a: usize, b: usize) -> usize {
    if a < b { a } else { b }
}

/// The cells of the hat's outline: thick blocks at the middle of each of
/// the four edges of a `grid_width` by `grid_height` grid (rows counted
/// from the bottom).
pub open spec fn spec_base_cells(grid_width: usize, grid_height: usize, blocks: usize, thickness: usize) -> Seq<
    (usize, usize),
> {
    let bx = min_usize(blocks, grid_width);
    let by = min_usize(blocks, grid_height);
    let ty = spec_centered_indices(grid_height, min_usize(thickness, grid_height));
    let tx = spec_centered_indices(grid_width, min_usize(thickness, grid_width));
    cells_by_column(spec_edge_indices(grid_width, bx, Edge::Start), ty) + cells_by_column(
        spec_edge_indices(grid_width, bx, Edge::End),
        ty,
    ) + cells_by_row(spec_edge_indices(grid_height, by, Edge::End), tx) + cells_by_row(
        spec_edge_indices(grid_height, by, Edge::Start),
        tx,
    )
}

pub fn base_cells(grid_width: usize, grid_height: usize, blocks: usize, thickness: usize) -> (v: Vec<(usize, usize)>)
    ensures
        v@ == spec_base_cells(grid_width, grid_height, blocks, thickness),
{
    let bx = if blocks < grid_width { blocks } else { grid_width };
    let by = if blocks < grid_height { blocks } else { grid_height };
    let ty = centered_indices(grid_height, if thickness < grid_height { thickness } else { grid_height });
    let tx = centered_indices(grid_width, if thickness < grid_width { thickness } else { grid_width });
    let mut v: Vec<(usize, usize)> = Vec::new();
    push_cells(&mut v, &edge_indices(grid_width, bx, Edge::Start), &ty, false);
    push_cells(&mut v, &edge_indices(grid_width, bx, Edge::End), &ty, false);
    push_cells(&mut v, &edge_indices(grid_height, by, Edge::End), &tx, true);
    push_cells(&mut v, &edge_indices(grid_height, by, Edge::Start), &tx, true);
    assert(v@ =~= spec_base_cells(grid_width, grid_height, blocks, thickness));
    v
}

/// The cells lit for a hat direction: the block on the side the hat
/// points to, horizontally and vertically; none at rest.
pub open spec fn spec_active_cells(
    state: HatState,
    grid_width: usize,
    grid_height: usize,
    blocks: usize,
    thickness: usize,
) -> Seq<(usize, usize)> {
    let bx = min_usize(blocks, grid_width);
    let by = min_usize(blocks, grid_height);
    let ty = spec_centered_indices(grid_height, min_usize(thickness, grid_height));
    let tx = spec_centered_indices(grid_width, min_usize(thickness, grid_width));
    let horizontal = if state.x != 0 {
        cells_by_column(
            spec_edge_indices(grid_width, bx, if state.x < 0 { Edge::Start } else { Edge::End }),
            ty,
        )
    } else {
        seq![]
    };
    let vertical = if state.y != 0 {
        cells_by_row(spec_edge_indices(grid_height, by, if state.y > 0 { Edge::End } else { Edge::Start }), tx)
    } else {
        seq![]
    };
    horizontal + vertical
}

pub fn active_cells(
    state: HatState,
    grid_width: usize,
    grid_height: usize,
    blocks: usize,
    thickness: usize,
) -> (v: Vec<(usize, usize)>)
    ensures
        v@ == spec_active_cells(state, grid_width, grid_height, blocks, thickness),
{
    let mut v: Vec<(usize, usize)> = Vec::new();
    if state.x == 0 && state.y == 0 {
        assert(v@ =~= spec_active_cells(state, grid_width, grid_height, blocks, thickness));
        return v;
    }
    let bx = if blocks < grid_width { blocks } else { grid_width };
    let by = if blocks < grid_height { blocks } else { grid_height };
    let ty = centered_indices(grid_height, if thickness < grid_height { thickness } else { grid_height });
    let tx = centered_indices(grid_width, if thickness < grid_width { thickness } else { grid_width });
    if state.x != 0 {
        let edge = if state.x < 0 { Edge::Start } else { Edge::End };
        push_cells(&mut v, &edge_indices(grid_width, bx, edge), &ty, false);
    }
    if state.y != 0 {
        let edge = if state.y > 0 { Edge::End } else { Edge::Start };
        push_cells(&mut v, &edge_indices(grid_height, by, edge), &tx, true);
    }
    assert(v@ =~= spec_active_cells(state, grid_width, grid_height, blocks, thickness));
    v
}

/// The grid a hat is drawn on within `area`: the square it fills, and the
/// grid's width and height in half-block cells; `None` where it is too
/// small to draw.
pub open spec fn spec_hat_grid(area: Rect) -> Option<(Rect, usize, usize)> {
    match spec_fit_centered_aspect_rect(area, JOYSTICK_ASPECT_RATIO) {
        Some(fit) => {
            let square = spec_inset_rect(fit, HAT_PADDING);
            if square.width < 2 || square.height < 2 {
                None
            } else {
                Some((square, square.width as usize, (square.height * 2) as usize))
            }
        },
        None => None,
    }
}

pub fn hat_grid(area: Rect) -> (g: Option<(Rect, usize, usize)>)
    requires
        area.wf(),
    ensures
        g == spec_hat_grid(area),
{
    let fit = match fit_centered_aspect_rect(area, JOYSTICK_ASPECT_RATIO) {
        Some(f) => f,
        None => return None,
    };
    let square = inset_rect(fit, HAT_PADDING);
    if square.width < 2 || square.height < 2 {
        return None;
    }
    Some((square, square.width as usize, square.height as usize * 2))
}

/// The number of blocks along each edge of the hat's outline.
pub fn hat_blocks() -> (n: usize)
    ensures
        n == (if HAT_BLOCKS < 1 { 1 } else { HAT_BLOCKS }),
{
    if HAT_BLOCKS < 1 { 1 } else { HAT_BLOCKS }
}

/// The thickness of the hat's outline blocks.
pub fn hat_thickness() -> (n: usize)
    ensures
        n == (if HAT_THICKNESS < 1 { 1 } else { HAT_THICKNESS }),
{
    if HAT_THICKNESS < 1 { 1 } else { HAT_THICKNESS }
}

proof fn lemma_cells_by_row_members(ys: Seq<usize>, xs: Seq<usize>)
    ensures
        forall|i: int|
            0 <= i < cells_by_row(ys, xs).len() ==> ys.contains((#[trigger] cells_by_row(ys, xs)[i]).1)
                && xs.contains(cells_by_row(ys, xs)[i].0),
        ys.len() > 0 && xs.len() > 0 ==> cells_by_row(ys, xs).len() > 0,
    decreases ys.len(),
{
    if ys.len() > 0 {
        let rest = ys.drop_last();
        lemma_cells_by_row_members(rest, xs);
        let tail = xs.map_values(|x: usize| (x, ys.last()));
        assert forall|i: int| 0 <= i < cells_by_row(ys, xs).len() implies ys.contains(
            (#[trigger] cells_by_row(ys, xs)[i]).1,
        ) && xs.contains(cells_by_row(ys, xs)[i].0) by {
            let head = cells_by_row(rest, xs);
            if i < head.len() {
                assert(cells_by_row(ys, xs)[i] == head[i]);
                let j = choose|j: int| 0 <= j < rest.len() && rest[j] == head[i].1;
                assert(ys[j] == rest[j]);
            } else {
                let k = i - head.len();
                assert(cells_by_row(ys, xs)[i] == tail[k]);
                assert(ys[ys.len() - 1] == ys.last());
                assert(xs[k] == tail[k].0);
            }
        }
    }
}

proof fn lemma_cells_by_column_members(xs: Seq<usize>, ys: Seq<usize>)
    ensures
        forall|i: int|
            0 <= i < cells_by_column(xs, ys).len() ==> xs.contains((#[trigger] cells_by_column(xs, ys)[i]).0)
                && ys.contains(cells_by_column(xs, ys)[i].1),
        xs.len() > 0 && ys.len() > 0 ==> cells_by_column(xs, ys).len() > 0,
    decreases xs.len(),
{
    if xs.len() > 0 {
        let rest = xs.drop_last();
        lemma_cells_by_column_members(rest, ys);
        let tail = ys.map_values(|y: usize| (xs.last(), y));
        assert forall|i: int| 0 <= i < cells_by_column(xs, ys).len() implies xs.contains(
            (#[trigger] cells_by_column(xs, ys)[i]).0,
        ) && ys.contains(cells_by_column(xs, ys)[i].1) by {
            let head = cells_by_column(rest, ys);
            if i < head.len() {
                assert(cells_by_column(xs, ys)[i] == head[i]);
                let j = choose|j: int| 0 <= j < rest.len() && rest[j] == head[i].0;
                assert(xs[j] == rest[j]);
            } else {
                let k = i - head.len();
                assert(cells_by_column(xs, ys)[i] == tail[k]);
                assert(xs[xs.len() - 1] == xs.last());
                assert(ys[k] == tail[k].1);
            }
        }
    }
}

/// The hat lights the side it is pushed to. Pushed only up or down, it
/// lights cells of the first `min(blocks, grid_height)` rows for a negative
/// `y` and of the last that many rows for a positive `y`; pushed only left
/// or right, likewise the first or last `min(blocks, grid_width)` columns
/// for a negative or positive `x`. A centred hat lights nothing, and a
/// pushed hat on a grid with room for a block lights something.
pub proof fn law_hat_lights_the_pressed_side(
    state: HatState,
    grid_width: usize,
    grid_height: usize,
    blocks: usize,
    thickness: usize,
)
    ensures
        state.x == 0 && state.y == 0 ==> spec_active_cells(state, grid_width, grid_height, blocks, thickness).len()
            == 0,
        (state.x != 0 || state.y != 0) && grid_width > 0 && grid_height > 0 && blocks > 0 ==> spec_active_cells(
            state,
            grid_width,
            grid_height,
            blocks,
            thickness,
        ).len() > 0,
        forall|i: int|
            0 <= i < spec_active_cells(state, grid_width, grid_height, blocks, thickness).len() && state.x == 0
                ==> {
                let row = (#[trigger] spec_active_cells(state, grid_width, grid_height, blocks, thickness)[i]).1;
                let depth: int = if blocks < grid_height { blocks as int } else { grid_height as int };
                &&& (state.y < 0 ==> row < depth)
                &&& (state.y > 0 ==> grid_height - depth <= row < grid_height)
            },
        forall|i: int|
            0 <= i < spec_active_cells(state, grid_width, grid_height, blocks, thickness).len() && state.y == 0
                ==> {
                let column = (#[trigger] spec_active_cells(state, grid_width, grid_height, blocks, thickness)[i]).0;
                let depth: int = if blocks < grid_width { blocks as int } else { grid_width as int };
                &&& (state.x < 0 ==> column < depth)
                &&& (state.x > 0 ==> grid_width - depth <= column < grid_width)
            },
{
    let bx = min_usize(blocks, grid_width);
    let by = min_usize(blocks, grid_height);
    let ty = spec_centered_indices(grid_height, min_usize(thickness, grid_height));
    let tx = spec_centered_indices(grid_width, min_usize(thickness, grid_width));
    let cells = spec_active_cells(state, grid_width, grid_height, blocks, thickness);
    assert(ty.len() > 0 && tx.len() > 0);
    if state.x == 0 && state.y != 0 {
        let ys = spec_edge_indices(grid_height, by, if state.y > 0 { Edge::End } else { Edge::Start });
        lemma_cells_by_row_members(ys, tx);
        assert(cells =~= seq![] + cells_by_row(ys, tx));
        assert forall|i: int| 0 <= i < cells.len() implies {
            let row = (#[trigger] cells[i]).1;
            &&& (state.y < 0 ==> row < by)
            &&& (state.y > 0 ==> grid_height - by <= row < grid_height)
        } by {
            assert(cells[i] == cells_by_row(ys, tx)[i]);
            let j = choose|j: int| 0 <= j < ys.len() && ys[j] == cells[i].1;
        }
    }
    if state.y == 0 && state.x != 0 {
        let xs = spec_edge_indices(grid_width, bx, if state.x < 0 { Edge::Start } else { Edge::End });
        lemma_cells_by_column_members(xs, ty);
        assert(cells =~= cells_by_column(xs, ty) + seq![]);
        assert forall|i: int| 0 <= i < cells.len() implies {
            let column = (#[trigger] cells[i]).0;
            &&& (state.x < 0 ==> column < bx)
            &&& (state.x > 0 ==> grid_width - bx <= column < grid_width)
        } by {
            assert(cells[i] == cells_by_column(xs, ty)[i]);
            let j = choose|j: int| 0 <= j < xs.len() && xs[j] == cells[i].0;
        }
    }
    if state.x != 0 && state.y != 0 {
        let xs = spec_edge_indices(grid_width, bx, if state.x < 0 { Edge::Start } else { Edge::End });
        lemma_cells_by_column_members(xs, ty);
    }
}

} // verus!
