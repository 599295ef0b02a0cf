//! Placement of the cells of a container in its 12 x 12 grid. The cells of
//! a row are placed left to right, each after the columns of the ones
//! before it; the next row starts below the shortest cell of the row above
//! (at row 255 after an empty row).
use crate::ui::protocol::{input_position, UIInput, UIPos};
use vstd::prelude::*;

verus! {

/// The `(row, column)` grid offsets of the cells of `row`, starting at row
/// `row_offs` and column `col_offs`.
pub open spec fn row_layout(row: Seq<UIPos>, row_offs: int, col_offs: int) -> Seq<(int, int)>
    decreases row.len(),
{
    if row.len() == 0 {
        Seq::empty()
    } else {
        seq![(row_offs, col_offs)] + row_layout(
            row.drop_first(),
            row_offs,
            col_offs + row[0].col_size,
        )
    }
}

/// The row offset of the row after `row`: the smallest bottom of its cells,
/// or 255 for an empty row.
pub open spec fn row_next_offs(row: Seq<UIPos>, row_offs: int) -> int
    decreases row.len(),
{
    if row.len() == 0 {
        255
    } else {
        let rest = row_next_offs(row.drop_first(), row_offs);
        if row_offs + row[0].row_size < rest {
            row_offs + row[0].row_size
        } else {
            rest
        }
    }
}

/// The row after any row starts at row 255 or above it.
pub proof fn lemma_row_next_offs_bound(row: Seq<UIPos>, row_offs: int)
    ensures
        row_next_offs(row, row_offs) <= 255,
    decreases row.len(),
{
    if row.len() > 0 {
        lemma_row_next_offs_bound(row.drop_first(), row_offs);
    }
}

/// The cells of a row are placed side by side: each gets its own column
/// offset at the row's row offset, the first at `col_offs`, and each next
/// one right after the columns of the one before it.
pub proof fn lemma_row_layout_side_by_side(row: Seq<UIPos>, row_offs: int, col_offs: int)
    ensures
        row_layout(row, row_offs, col_offs).len() == row.len(),
        row.len() > 0 ==> row_layout(row, row_offs, col_offs)[0] == (row_offs, col_offs),
        forall|i: int|
            0 <= i < row.len() ==> (#[trigger] row_layout(row, row_offs, col_offs)[i]).0 == row_offs,
        forall|i: int|
            0 <= i < row.len() - 1 ==> (#[trigger] row_layout(row, row_offs, col_offs)[i + 1]).1
                == row_layout(row, row_offs, col_offs)[i].1 + row[i].col_size,
    decreases row.len(),
{
    if row.len() > 0 {
        let rest = row.drop_first();
        let c2 = col_offs + row[0].col_size;
        lemma_row_layout_side_by_side(rest, row_offs, c2);
        let l = row_layout(row, row_offs, col_offs);
        let lr = row_layout(rest, row_offs, c2);
        assert(l == seq![(row_offs, col_offs)] + lr);
        assert forall|i: int| 0 <= i < row.len() implies (#[trigger] l[i]).0 == row_offs by {
            if i > 0 {
                assert(l[i] == lr[i - 1]);
            }
        }
        assert forall|i: int| 0 <= i < row.len() - 1 implies (#[trigger] l[i + 1]).1 == l[i].1
            + row[i].col_size by {
            assert(l[i + 1] == lr[i]);
            if i > 0 {
                assert(l[i] == lr[i - 1]);
                assert(rest[i - 1] == row[i]);
            }
        }
    }
}

/// The grid offsets of the cells of `rows`, the first row starting at row
/// `row_offs`.
pub open spec fn grid_layout(rows: Seq<Seq<UIPos>>, row_offs: int) -> Seq<Seq<(int, int)>>
    decreases rows.len(),
{
    if rows.len() == 0 {
        Seq::empty()
    } else {
        seq![row_layout(rows[0], row_offs, 0)] + grid_layout(
            rows.drop_first(),
            row_next_offs(rows[0], row_offs),
        )
    }
}

/// Whether no cell of `row` reaches past row or column 255.
pub open spec fn row_fits(row: Seq<UIPos>, row_offs: int, col_offs: int) -> bool
    decreases row.len(),
{
    row.len() == 0 || (row_offs + row[0].row_size <= 255 && col_offs + row[0].col_size <= 255
        && row_fits(row.drop_first(), row_offs, col_offs + row[0].col_size))
}

/// Whether no cell of `rows` reaches past row or column 255.
pub open spec fn grid_fits(rows: Seq<Seq<UIPos>>, row_offs: int) -> bool
    decreases rows.len(),
{
    rows.len() == 0 || (row_fits(rows[0], row_offs, 0) && grid_fits(
        rows.drop_first(),
        row_next_offs(rows[0], row_offs),
    ))
}

/// The grid positions of the cells of `rows`.
pub open spec fn cell_positions(rows: Seq<Vec<UIInput>>) -> Seq<Seq<UIPos>> {
    rows.map_values(|r: Vec<UIInput>| r@.map_values(|c: UIInput| input_position(c)))
}

/// The offsets as numbers.
pub open spec fn offsets_view(cells: Seq<Vec<(u8, u8)>>) -> Seq<Seq<(int, int)>> {
    cells.map_values(|r: Vec<(u8, u8)>| r@.map_values(|c: (u8, u8)| (c.0 as int, c.1 as int)))
}

/// The offsets of the cells of one row, and the row offset after it.
fn row_cells(row: &Vec<UIInput>, row_offs: u8) -> (r: (Vec<(u8, u8)>, u8))
    requires
        row_fits(row@.map_values(|c: UIInput| input_position(c)), row_offs as int, 0),
    ensures
        r.0@.map_values(|c: (u8, u8)| (c.0 as int, c.1 as int)) == row_layout(
            row@.map_values(|c: UIInput| input_position(c)),
            row_offs as int,
            0,
        ),
        r.1 == row_next_offs(row@.map_values(|c: UIInput| input_position(c)), row_offs as int),
{
    let ghost ps = row@.map_values(|c: UIInput| input_position(c));
    let mut cells: Vec<(u8, u8)> = Vec::new();
    let mut col_offs: u8 = 0;
    let mut min_row_offs: u8 = 255;
    let mut j: usize = 0;
    assert(ps.skip(0) =~= ps);
    proof {
        lemma_row_next_offs_bound(ps, row_offs as int);
    }
    assert(cells@.map_values(|c: (u8, u8)| (c.0 as int, c.1 as int)) =~= Seq::<(int, int)>::empty());
    while j < row.len()
        invariant
            j <= row.len(),
            ps == row@.map_values(|c: UIInput| input_position(c)),
            row_fits(ps.skip(j as int), row_offs as int, col_offs as int),
            cells@.map_values(|c: (u8, u8)| (c.0 as int, c.1 as int)) + row_layout(
                ps.skip(j as int),
                row_offs as int,
                col_offs as int,
            ) == row_layout(ps, row_offs as int, 0),
            row_next_offs(ps, row_offs as int) == (if min_row_offs < row_next_offs(
                ps.skip(j as int),
                row_offs as int,
            ) {
                min_row_offs as int
            } else {
                row_next_offs(ps.skip(j as int), row_offs as int)
            }),
        decreases row.len() - j,
    {
        let pos = row[j].position();
        let ghost before = cells@.map_values(|c: (u8, u8)| (c.0 as int, c.1 as int));
        assert(ps.skip(j as int)[0] == pos);
        assert(ps.skip(j as int).drop_first() =~= ps.skip(j + 1));
        let ro = row_offs + pos.row_size;
        let co = col_offs + pos.col_size;
        cells.push((row_offs, col_offs));
        assert(cells@.map_values(|c: (u8, u8)| (c.0 as int, c.1 as int)) =~= before.push(
            (row_offs as int, col_offs as int),
        ));
        assert(before.push((row_offs as int, col_offs as int)) + row_layout(
            ps.skip(j + 1),
            row_offs as int,
            co as int,
        ) =~= before + row_layout(ps.skip(j as int), row_offs as int, col_offs as int));
        col_offs = co;
        if ro < min_row_offs {
            min_row_offs = ro;
        }
        j = j + 1;
    }
    assert(ps.skip(row.len() as int) =~= Seq::<UIPos>::empty());
    assert(cells@.map_values(|c: (u8, u8)| (c.0 as int, c.1 as int)) =~= row_layout(
        ps,
        row_offs as int,
        0,
    ));
    (cells, min_row_offs)
}

/// The `(row, column)` grid offsets of the cells of `rows` (see
/// [`grid_layout`]).
pub fn layout_cells(rows: &Vec<Vec<UIInput>>) -> (r: Vec<Vec<(u8, u8)>>)
    requires
        grid_fits(cell_positions(rows@), 0),
    ensures
        offsets_view(r@) == grid_layout(cell_positions(rows@), 0),
{
    let ghost ps = cell_positions(rows@);
    let mut out: Vec<Vec<(u8, u8)>> = Vec::new();
    let mut row_offs: u8 = 0;
    let mut i: usize = 0;
    assert(ps.skip(0) =~= ps);
    assert(offsets_view(out@) =~= Seq::<Seq<(int, int)>>::empty());
    while i < rows.len()
        invariant
            i <= rows.len(),
            ps == cell_positions(rows@),
            grid_fits(ps.skip(i as int), row_offs as int),
            offsets_view(out@) + grid_layout(ps.skip(i as int), row_offs as int) == grid_layout(
                ps,
                0,
            ),
        decreases rows.len() - i,
    {
        let ghost before = offsets_view(out@);
        assert(ps.skip(i as int)[0] == rows@[i as int]@.map_values(
            |c: UIInput| input_position(c),
        ));
        assert(ps.skip(i as int).drop_first() =~= ps.skip(i + 1));
        let (cells, next) = row_cells(&rows[i], row_offs);
        out.push(cells);
        assert(offsets_view(out@) =~= before.push(
            row_layout(ps.skip(i as int)[0], row_offs as int, 0),
        ));
        assert(before.push(row_layout(ps.skip(i as int)[0], row_offs as int, 0)) + grid_layout(
            ps.skip(i + 1),
            next as int,
        ) =~= before + grid_layout(ps.skip(i as int), row_offs as int));
        row_offs = next;
        i = i + 1;
    }
    assert(ps.skip(rows.len() as int) =~= Seq::<Seq<UIPos>>::empty());
    assert(offsets_view(out@) =~= grid_layout(ps, 0));
    out
}

/// Whether the cells of one row stay within row and column 255.
fn row_cells_fit(row: &Vec<UIInput>, row_offs: u8) -> (r: (bool, u8))
    ensures
        r.0 == row_fits(row@.map_values(|c: UIInput| input_position(c)), row_offs as int, 0),
        r.0 ==> r.1 == row_next_offs(
            row@.map_values(|c: UIInput| input_position(c)),
            row_offs as int,
        ),
{
    let ghost ps = row@.map_values(|c: UIInput| input_position(c));
    let mut col_offs: u16 = 0;
    let mut min_row_offs: u8 = 255;
    let mut j: usize = 0;
    assert(ps.skip(0) =~= ps);
    proof {
        lemma_row_next_offs_bound(ps, row_offs as int);
    }
    while j < row.len()
        invariant
            j <= row.len(),
            col_offs <= 255,
            ps == row@.map_values(|c: UIInput| input_position(c)),
            row_fits(ps, row_offs as int, 0) == row_fits(
                ps.skip(j as int),
                row_offs as int,
                col_offs as int,
            ),
            row_next_offs(ps, row_offs as int) == (if min_row_offs < row_next_offs(
                ps.skip(j as int),
                row_offs as int,
            ) {
                min_row_offs as int
            } else {
                row_next_offs(ps.skip(j as int), row_offs as int)
            }),
        decreases row.len() - j,
    {
        let pos = row[j].position();
        assert(ps.skip(j as int)[0] == pos);
        assert(ps.skip(j as int).drop_first() =~= ps.skip(j + 1));
        let ro = row_offs as u16 + pos.row_size as u16;
        let co = col_offs + pos.col_size as u16;
        if ro > 255 || co > 255 {
            return (false, 0);
        }
        col_offs = co;
        if (ro as u8) < min_row_offs {
            min_row_offs = ro as u8;
        }
        j = j + 1;
    }
    assert(ps.skip(row.len() as int) =~= Seq::<UIPos>::empty());
    (true, min_row_offs)
}

/// Whether the cells of `rows` stay within row and column 255 (see
/// [`grid_fits`]); [`layout_cells`] takes only such rows.
pub fn layout_fits(rows: &Vec<Vec<UIInput>>) -> (r: bool)
    ensures
        r == grid_fits(cell_positions(rows@), 0),
{
    let ghost ps = cell_positions(rows@);
    let mut row_offs: u8 = 0;
    let mut i: usize = 0;
    assert(ps.skip(0) =~= ps);
    while i < rows.len()
        invariant
            i <= rows.len(),
            ps == cell_positions(rows@),
            grid_fits(ps, 0) == grid_fits(ps.skip(i as int), row_offs as int),
        decreases rows.len() - i,
    {
        assert(ps.skip(i as int)[0] == rows@[i as int]@.map_values(
            |c: UIInput| input_position(c),
        ));
        assert(ps.skip(i as int).drop_first() =~= ps.skip(i + 1));
        let (ok, next) = row_cells_fit(&rows[i], row_offs);
        if !ok {
            return false;
        }
        row_offs = next;
        i = i + 1;
    }
    assert(ps.skip(rows.len() as int) =~= Seq::<Seq<UIPos>>::empty());
    true
}

} // verus!
