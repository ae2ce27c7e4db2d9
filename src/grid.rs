//! Markup for one grid: a CSS grid of coloured cells, and its size label.
use crate::text::{decimal, decimal_text, signed_decimal, signed_decimal_text};
use vstd::prelude::*;

verus! {

/// Side length, in pixels, of one rendered cell.
pub const CELL_SIZE: u32 = 10;

/// The style class that colours a cell holding `v`.
pub open spec fn color_class(v: int) -> Seq<char> {
    "color-"@ + signed_decimal(v)
}

/// Markup of one cell holding `v`.
pub open spec fn cell_markup(v: int) -> Seq<char> {
    "<div class=\"cell "@ + color_class(v) + "\"></div>"@
}

/// Markup of the cells of one row, left to right.
pub open spec fn row_markup(row: Seq<i64>) -> Seq<char>
    decreases row.len(),
{
    if row.len() == 0 {
        Seq::empty()
    } else {
        row_markup(row.drop_last()) + cell_markup(row.last() as int)
    }
}

/// Markup of the cells of all rows, top to bottom.
pub open spec fn rows_markup(rows: Seq<Vec<i64>>) -> Seq<char>
    decreases rows.len(),
{
    if rows.len() == 0 {
        Seq::empty()
    } else {
        rows_markup(rows.drop_last()) + row_markup(rows.last()@)
    }
}

/// Opening tag of a grid laid out in `cols` columns of fixed-size cells.
pub open spec fn grid_open(cols: nat) -> Seq<char> {
    "<div class=\"grid\" style=\"grid-template-columns: repeat("@ + decimal(cols) + ", "@
        + decimal(CELL_SIZE as nat) + "px);\">"@
}

/// Markup of a whole grid; its column count is the first row's length.
pub open spec fn grid_markup(g: Seq<Vec<i64>>) -> Seq<char>
    recommends
        g.len() > 0,
{
    grid_open(g[0]@.len()) + rows_markup(g) + "</div>"@
}

/// The size label of a grid: rows, a multiplication sign, columns.
pub open spec fn size_label(g: Seq<Vec<i64>>) -> Seq<char>
    recommends
        g.len() > 0,
{
    decimal(g.len()) + "×"@ + decimal(g[0]@.len())
}

/// The style class of a cell value.
pub fn color_class_text(v: i64) -> (r: String)
    ensures
        r@ == color_class(v as int),
{
    let mut r = String::from_str("color-");
    let digits = signed_decimal_text(v);
    r.append(digits.as_str());
    r
}

/// Markup of one cell.
pub fn cell_html(v: i64) -> (r: String)
    ensures
        r@ == cell_markup(v as int),
{
    let mut r = String::from_str("<div class=\"cell ");
    let class = color_class_text(v);
    r.append(class.as_str());
    r.append("\"></div>");
    r
}

fn cells_html(data: &[Vec<i64>]) -> (r: String)
    ensures
        r@ == rows_markup(data@),
{
    let mut cells = String::new();
    let mut i: usize = 0;
    while i < data.len()
        invariant
            i <= data@.len(),
            cells@ == rows_markup(data@.subrange(0, i as int)),
        decreases data@.len() - i,
    {
        let row = &data[i];
        let mut line = String::new();
        let mut j: usize = 0;
        while j < row.len()
            invariant
                j <= row@.len(),
                line@ == row_markup(row@.subrange(0, j as int)),
            decreases row@.len() - j,
        {
            let cell = cell_html(row[j]);
            line.append(cell.as_str());
            assert(row@.subrange(0, j + 1).drop_last() =~= row@.subrange(0, j as int));
            j = j + 1;
        }
        assert(row@.subrange(0, j as int) =~= row@);
        cells.append(line.as_str());
        assert(data@.subrange(0, i + 1).drop_last() =~= data@.subrange(0, i as int));
        i = i + 1;
    }
    assert(data@.subrange(0, i as int) =~= data@);
    cells
}

/// Markup of a grid: one cell per value, row by row, in as many columns as
/// the first row has values.
pub fn create_2d_grid_html(data: &[Vec<i64>]) -> (r: String)
    requires
        data@.len() > 0,
    ensures
        r@ == grid_markup(data@),
{
    let columns = data[0].len();
    let mut grid = String::from_str("<div class=\"grid\" style=\"grid-template-columns: repeat(");
    let cols = decimal_text(columns as u64);
    grid.append(cols.as_str());
    grid.append(", ");
    let cell = decimal_text(CELL_SIZE as u64);
    grid.append(cell.as_str());
    grid.append("px);\">");
    let cells = cells_html(data);
    grid.append(cells.as_str());
    grid.append("</div>");
    grid
}

/// The size label of a grid, such as `3×4` for three rows of four values.
pub fn get_size_string(data: &[Vec<i64>]) -> (r: String)
    requires
        data@.len() > 0,
    ensures
        r@ == size_label(data@),
{
    let mut r = decimal_text(data.len() as u64);
    r.append("×");
    let cols = decimal_text(data[0].len() as u64);
    r.append(cols.as_str());
    r
}

} // verus!
