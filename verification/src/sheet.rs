//! Sheets and their cells.

use vstd::prelude::*;
use std::collections::BTreeMap;
use crate::strs::{copy_opt_text, opt_text};
use crate::value::{Value, ValueView};

verus! {

broadcast use vstd::std_specs::btree::group_btree_axioms;

/// A cell: its value, its style, its formula, and how many rows and columns
/// it spans. Only the cell that anchors a merged area carries the spans.
#[derive(Debug, Clone)]
pub struct SCell {
    pub value: Value,
    pub style: Option<String>,
    /// The formula as the document writes it; it is never evaluated.
    pub formula: Option<String>,
    pub row_span: u32,
    pub col_span: u32,
}

/// The model of an [`SCell`].
pub ghost struct SCellView {
    pub value: ValueView,
    pub style: Option<Seq<char>>,
    pub formula: Option<Seq<char>>,
    pub row_span: u32,
    pub col_span: u32,
}

impl View for SCell {
    type V = SCellView;

    open spec fn view(&self) -> SCellView {
        SCellView {
            value: self.value@,
            style: opt_text(self.style),
            formula: opt_text(self.formula),
            row_span: self.row_span,
            col_span: self.col_span,
        }
    }
}

/// The empty cell: no value, style or formula, and no merge.
pub open spec fn empty_cell() -> SCellView {
    SCellView { value: ValueView::Empty, style: None, formula: None, row_span: 1, col_span: 1 }
}

impl SCell {
    /// An empty cell.
    pub fn new() -> (r: Self)
        ensures
            r@ == empty_cell(),
    {
        SCell { value: Value::Empty, style: None, formula: None, row_span: 1, col_span: 1 }
    }

    /// A copy of the cell.
    pub fn copy(&self) -> (r: Self)
        ensures
            r@ == self@,
    {
        SCell {
            value: self.value.copy(),
            style: copy_opt_text(&self.style),
            formula: copy_opt_text(&self.formula),
            row_span: self.row_span,
            col_span: self.col_span,
        }
    }
}

/// A range of rows, both ends included.
#[derive(Debug, Clone, Copy, PartialEq, Eq, Structural)]
pub struct RowRange {
    pub from: u32,
    pub to: u32,
}

/// A range of columns, both ends included.
#[derive(Debug, Clone, Copy, PartialEq, Eq, Structural)]
pub struct ColRange {
    pub from: u32,
    pub to: u32,
}

/// A sheet: its cells by row and column, both counted from zero, and what
/// is declared for its columns and for printing. A position without a cell
/// is an empty cell.
#[derive(Debug, Clone)]
pub struct Sheet {
    name: String,
    style: Option<String>,
    data: BTreeMap<u64, SCell>,
    col_style: BTreeMap<u32, String>,
    col_cell_style: BTreeMap<u32, String>,
    header_rows: Option<RowRange>,
    header_cols: Option<ColRange>,
    print_ranges: Vec<String>,
}

/// The model of a [`Sheet`].
pub ghost struct SheetView {
    pub name: Seq<char>,
    pub style: Option<Seq<char>>,
    /// The cells by (row, column).
    pub cells: Map<(u32, u32), SCellView>,
    /// The style of each column that has one.
    pub col_style: Map<u32, Seq<char>>,
    /// The default cell style of each column that has one.
    pub col_cell_style: Map<u32, Seq<char>>,
    pub header_rows: Option<RowRange>,
    pub header_cols: Option<ColRange>,
    pub print_ranges: Seq<Seq<char>>,
}

/// The sheet without a name and without content.
pub open spec fn empty_sheet() -> SheetView {
    SheetView {
        name: Seq::empty(),
        style: None,
        cells: Map::empty(),
        col_style: Map::empty(),
        col_cell_style: Map::empty(),
        header_rows: None,
        header_cols: None,
        print_ranges: Seq::empty(),
    }
}

/// The number under which the cell at (`row`, `col`) is stored. Cells are
/// ordered by row, then by column.
pub open spec fn key_of(row: u32, col: u32) -> u64 {
    (row as u64 * 0x1_0000_0000 + col as u64) as u64
}

/// The number under which the cell at (`row`, `col`) is stored.
pub fn cell_key(row: u32, col: u32) -> (k: u64)
    ensures
        k == key_of(row, col),
{
    row as u64 * 0x1_0000_0000 + col as u64
}

/// The map `m` with `v` for each of the `n` columns that begin at `col`.
pub open spec fn fill_columns(m: Map<u32, Seq<char>>, col: u32, n: nat, v: Seq<char>) -> Map<
    u32,
    Seq<char>,
> {
    Map::new(
        |c: u32| m.contains_key(c) || col <= c < col + n,
        |c: u32|
            if col <= c < col + n {
                v
            } else {
                m[c]
            },
    )
}

impl SheetView {
    /// The cell at (`row`, `col`), the empty cell where none is stored.
    pub open spec fn cell_or_empty(self, row: u32, col: u32) -> SCellView {
        if self.cells.contains_key((row, col)) {
            self.cells[(row, col)]
        } else {
            empty_cell()
        }
    }

    /// This sheet with `cell` at (`row`, `col`).
    pub open spec fn with_cell(self, row: u32, col: u32, cell: SCellView) -> SheetView {
        SheetView { cells: self.cells.insert((row, col), cell), ..self }
    }

    /// This sheet with `cell` at each of the `n` positions of the row `row`
    /// that begin at the column `col`.
    pub open spec fn with_cells(self, row: u32, col: u32, n: nat, cell: SCellView) -> SheetView {
        SheetView {
            cells: Map::new(
                |k: (u32, u32)| self.cells.contains_key(k) || (k.0 == row && col <= k.1 < col + n),
                |k: (u32, u32)|
                    if k.0 == row && col <= k.1 < col + n {
                        cell
                    } else {
                        self.cells[k]
                    },
            ),
            ..self
        }
    }

    /// This sheet with the style `style` for each of the `n` columns that
    /// begin at `col`.
    pub open spec fn with_column_styles(self, col: u32, n: nat, style: Seq<char>) -> SheetView {
        SheetView { col_style: fill_columns(self.col_style, col, n, style), ..self }
    }

    /// This sheet with the default cell style `style` for each of the `n`
    /// columns that begin at `col`.
    pub open spec fn with_column_cell_styles(
        self,
        col: u32,
        n: nat,
        style: Seq<char>,
    ) -> SheetView {
        SheetView { col_cell_style: fill_columns(self.col_cell_style, col, n, style), ..self }
    }

    /// This sheet with the value of the cell at (`row`, `col`) set.
    pub open spec fn with_value(self, row: u32, col: u32, value: ValueView) -> SheetView {
        self.with_cell(row, col, SCellView { value, ..self.cell_or_empty(row, col) })
    }

    /// This sheet with the cell at (`row`, `col`) spanning `span` columns.
    pub open spec fn with_col_span(self, row: u32, col: u32, span: u32) -> SheetView {
        self.with_cell(row, col, SCellView { col_span: span, ..self.cell_or_empty(row, col) })
    }

    /// This sheet with the cell at (`row`, `col`) spanning `span` rows.
    pub open spec fn with_row_span(self, row: u32, col: u32, span: u32) -> SheetView {
        self.with_cell(row, col, SCellView { row_span: span, ..self.cell_or_empty(row, col) })
    }
}

impl View for Sheet {
    type V = SheetView;

    closed spec fn view(&self) -> SheetView {
        SheetView {
            name: self.name@,
            style: opt_text(self.style),
            cells: Map::new(
                |p: (u32, u32)| self.data@.contains_key(key_of(p.0, p.1)),
                |p: (u32, u32)| self.data@[key_of(p.0, p.1)]@,
            ),
            col_style: Map::new(
                |c: u32| self.col_style@.contains_key(c),
                |c: u32| self.col_style@[c]@,
            ),
            col_cell_style: Map::new(
                |c: u32| self.col_cell_style@.contains_key(c),
                |c: u32| self.col_cell_style@[c]@,
            ),
            header_rows: self.header_rows,
            header_cols: self.header_cols,
            print_ranges: self.print_ranges@.map_values(|s: String| s@),
        }
    }
}

impl Sheet {
    /// A sheet without a name and without content.
    pub fn new() -> (r: Self)
        ensures
            r@ == empty_sheet(),
    {
        let r = Sheet {
            name: String::new(),
            style: None,
            data: BTreeMap::new(),
            col_style: BTreeMap::new(),
            col_cell_style: BTreeMap::new(),
            header_rows: None,
            header_cols: None,
            print_ranges: Vec::new(),
        };
        assert(r@.cells =~= Map::<(u32, u32), SCellView>::empty());
        assert(r@.col_style =~= Map::<u32, Seq<char>>::empty());
        assert(r@.col_cell_style =~= Map::<u32, Seq<char>>::empty());
        assert(r@.print_ranges =~= Seq::<Seq<char>>::empty());
        r
    }

    /// A sheet named `name` without content.
    pub fn new_with_name(name: &str) -> (r: Self)
        ensures
            r@ == (SheetView { name: name@, ..empty_sheet() }),
    {
        let mut r = Sheet::new();
        r.set_name(name.to_owned());
        r
    }

    /// Names the sheet.
    pub fn set_name(&mut self, name: String)
        ensures
            final(self)@ == (SheetView { name: name@, ..old(self)@ }),
    {
        self.name = name;
        assert(self@.cells =~= old(self)@.cells);
        assert(self@.col_style =~= old(self)@.col_style);
        assert(self@.col_cell_style =~= old(self)@.col_cell_style);
    }

    /// The sheet's name.
    pub fn name(&self) -> (r: &String)
        ensures
            r@ == self@.name,
    {
        &self.name
    }

    /// Sets the sheet's style.
    pub fn set_style(&mut self, style: String)
        ensures
            final(self)@ == (SheetView { style: Some(style@), ..old(self)@ }),
    {
        self.style = Some(style);
        assert(self@.cells =~= old(self)@.cells);
        assert(self@.col_style =~= old(self)@.col_style);
        assert(self@.col_cell_style =~= old(self)@.col_cell_style);
    }

    /// The sheet's style.
    pub fn style(&self) -> (r: &Option<String>)
        ensures
            opt_text(*r) == self@.style,
    {
        &self.style
    }

    /// Puts `cell` at (`row`, `col`), in place of the cell that was there.
    pub fn add_cell(&mut self, row: u32, col: u32, cell: SCell)
        ensures
            final(self)@ == old(self)@.with_cell(row, col, cell@),
    {
        let k = cell_key(row, col);
        self.data.insert(k, cell);
        assert(self@.cells =~= old(self)@.cells.insert((row, col), cell@));
        assert(self@.col_style =~= old(self)@.col_style);
        assert(self@.col_cell_style =~= old(self)@.col_cell_style);
    }

    /// Puts a copy of `cell` at each of the `n` positions of the row `row`
    /// that begin at the column `col`.
    pub fn add_cells(&mut self, row: u32, col: u32, n: u32, cell: &SCell)
        requires
            col + n <= u32::MAX,
        ensures
            final(self)@ == old(self)@.with_cells(row, col, n as nat, cell@),
    {
        let mut i: u32 = 0;
        assert(self@.cells =~= old(self)@.with_cells(row, col, 0, cell@).cells);
        while i < n
            invariant
                col + n <= u32::MAX,
                0 <= i <= n,
                self@ == old(self)@.with_cells(row, col, i as nat, cell@),
            decreases n - i,
        {
            self.add_cell(row, col + i, cell.copy());
            i += 1;
            assert(self@.cells =~= old(self)@.with_cells(row, col, i as nat, cell@).cells);
        }
    }

    /// The cell at (`row`, `col`), if one is stored there.
    pub fn cell(&self, row: u32, col: u32) -> (r: Option<&SCell>)
        ensures
            match r {
                Some(c) => self@.cells.contains_key((row, col)) && self@.cells[(row, col)] == c@,
                None => !self@.cells.contains_key((row, col)),
            },
    {
        let k = cell_key(row, col);
        self.data.get(&k)
    }

    /// A copy of the cell at (`row`, `col`), the empty cell where none is
    /// stored.
    pub fn cell_or_empty(&self, row: u32, col: u32) -> (r: SCell)
        ensures
            r@ == self@.cell_or_empty(row, col),
    {
        match self.cell(row, col) {
            Some(c) => c.copy(),
            None => SCell::new(),
        }
    }

    /// The value at (`row`, `col`), the empty value where no cell is stored.
    pub fn value(&self, row: u32, col: u32) -> (r: Value)
        ensures
            r@ == self@.cell_or_empty(row, col).value,
    {
        match self.cell(row, col) {
            Some(c) => c.value.copy(),
            None => Value::Empty,
        }
    }

    /// Sets the value at (`row`, `col`); the rest of the cell stays.
    pub fn set_value(&mut self, row: u32, col: u32, value: Value)
        ensures
            final(self)@ == old(self)@.with_value(row, col, value@),
    {
        let mut c = self.cell_or_empty(row, col);
        c.value = value;
        self.add_cell(row, col, c);
    }

    /// The number of columns that the cell at (`row`, `col`) spans.
    pub fn col_span(&self, row: u32, col: u32) -> (r: u32)
        ensures
            r == self@.cell_or_empty(row, col).col_span,
    {
        match self.cell(row, col) {
            Some(c) => c.col_span,
            None => 1,
        }
    }

    /// The number of rows that the cell at (`row`, `col`) spans.
    pub fn row_span(&self, row: u32, col: u32) -> (r: u32)
        ensures
            r == self@.cell_or_empty(row, col).row_span,
    {
        match self.cell(row, col) {
            Some(c) => c.row_span,
            None => 1,
        }
    }

    /// Lets the cell at (`row`, `col`) span `span` columns.
    pub fn set_col_span(&mut self, row: u32, col: u32, span: u32)
        ensures
            final(self)@ == old(self)@.with_col_span(row, col, span),
    {
        let mut c = self.cell_or_empty(row, col);
        c.col_span = span;
        self.add_cell(row, col, c);
    }

    /// Lets the cell at (`row`, `col`) span `span` rows.
    pub fn set_row_span(&mut self, row: u32, col: u32, span: u32)
        ensures
            final(self)@ == old(self)@.with_row_span(row, col, span),
    {
        let mut c = self.cell_or_empty(row, col);
        c.row_span = span;
        self.add_cell(row, col, c);
    }

    /// Sets the style of the column `col`.
    pub fn set_column_style(&mut self, col: u32, style: String)
        ensures
            final(self)@ == (SheetView {
                col_style: old(self)@.col_style.insert(col, style@),
                ..old(self)@
            }),
    {
        self.col_style.insert(col, style);
        assert(self@.col_style =~= old(self)@.col_style.insert(col, style@));
        assert(self@.cells =~= old(self)@.cells);
        assert(self@.col_cell_style =~= old(self)@.col_cell_style);
    }

    /// Sets the style of each of the `n` columns that begin at `col`.
    pub fn set_column_styles(&mut self, col: u32, n: u32, style: &str)
        requires
            col + n <= u32::MAX,
        ensures
            final(self)@ == old(self)@.with_column_styles(col, n as nat, style@),
    {
        let mut i: u32 = 0;
        assert(self@.col_style =~= fill_columns(old(self)@.col_style, col, 0, style@));
        while i < n
            invariant
                col + n <= u32::MAX,
                0 <= i <= n,
                self@ == old(self)@.with_column_styles(col, i as nat, style@),
            decreases n - i,
        {
            self.set_column_style(col + i, style.to_owned());
            i += 1;
            assert(self@.col_style =~= fill_columns(old(self)@.col_style, col, i as nat, style@));
        }
    }

    /// The style of the column `col`.
    pub fn column_style(&self, col: u32) -> (r: Option<&String>)
        ensures
            match r {
                Some(s) => self@.col_style.contains_key(col) && self@.col_style[col] == s@,
                None => !self@.col_style.contains_key(col),
            },
    {
        self.col_style.get(&col)
    }

    /// Sets the default style of the cells in the column `col`.
    pub fn set_column_cell_style(&mut self, col: u32, style: String)
        ensures
            final(self)@ == (SheetView {
                col_cell_style: old(self)@.col_cell_style.insert(col, style@),
                ..old(self)@
            }),
    {
        self.col_cell_style.insert(col, style);
        assert(self@.col_cell_style =~= old(self)@.col_cell_style.insert(col, style@));
        assert(self@.cells =~= old(self)@.cells);
        assert(self@.col_style =~= old(self)@.col_style);
    }

    /// Sets the default cell style of each of the `n` columns that begin at
    /// `col`.
    pub fn set_column_cell_styles(&mut self, col: u32, n: u32, style: &str)
        requires
            col + n <= u32::MAX,
        ensures
            final(self)@ == old(self)@.with_column_cell_styles(col, n as nat, style@),
    {
        let mut i: u32 = 0;
        assert(self@.col_cell_style =~= fill_columns(old(self)@.col_cell_style, col, 0, style@));
        while i < n
            invariant
                col + n <= u32::MAX,
                0 <= i <= n,
                self@ == old(self)@.with_column_cell_styles(col, i as nat, style@),
            decreases n - i,
        {
            self.set_column_cell_style(col + i, style.to_owned());
            i += 1;
            assert(self@.col_cell_style =~= fill_columns(
                old(self)@.col_cell_style,
                col,
                i as nat,
                style@,
            ));
        }
    }

    /// The default style of the cells in the column `col`.
    pub fn column_cell_style(&self, col: u32) -> (r: Option<&String>)
        ensures
            match r {
                Some(s) => self@.col_cell_style.contains_key(col) && self@.col_cell_style[col]
                    == s@,
                None => !self@.col_cell_style.contains_key(col),
            },
    {
        self.col_cell_style.get(&col)
    }

    /// Sets the rows that are repeated as a header on each printed page.
    pub fn set_header_rows(&mut self, range: RowRange)
        ensures
            final(self)@ == (SheetView { header_rows: Some(range), ..old(self)@ }),
    {
        self.header_rows = Some(range);
        assert(self@.cells =~= old(self)@.cells);
        assert(self@.col_style =~= old(self)@.col_style);
        assert(self@.col_cell_style =~= old(self)@.col_cell_style);
    }

    /// The rows that are repeated as a header on each printed page.
    pub fn header_rows(&self) -> (r: Option<RowRange>)
        ensures
            r == self@.header_rows,
    {
        self.header_rows
    }

    /// Sets the columns that are repeated as a header on each printed page.
    pub fn set_header_cols(&mut self, range: ColRange)
        ensures
            final(self)@ == (SheetView { header_cols: Some(range), ..old(self)@ }),
    {
        self.header_cols = Some(range);
        assert(self@.cells =~= old(self)@.cells);
        assert(self@.col_style =~= old(self)@.col_style);
        assert(self@.col_cell_style =~= old(self)@.col_cell_style);
    }

    /// The columns that are repeated as a header on each printed page.
    pub fn header_cols(&self) -> (r: Option<ColRange>)
        ensures
            r == self@.header_cols,
    {
        self.header_cols
    }

    /// Sets the ranges that are printed.
    pub fn set_print_ranges(&mut self, ranges: Vec<String>)
        ensures
            final(self)@ == (SheetView {
                print_ranges: ranges@.map_values(|s: String| s@),
                ..old(self)@
            }),
    {
        self.print_ranges = ranges;
        assert(self@.cells =~= old(self)@.cells);
        assert(self@.col_style =~= old(self)@.col_style);
        assert(self@.col_cell_style =~= old(self)@.col_cell_style);
    }

    /// The ranges that are printed.
    pub fn print_ranges(&self) -> (r: &Vec<String>)
        ensures
            r@.map_values(|s: String| s@) == self@.print_ranges,
    {
        &self.print_ranges
    }
}

/// A span set on a cell is what a query at that cell reports, and setting it
/// stores no cell anywhere else: the positions that the merged area covers
/// hold what they held before.
pub proof fn lemma_span_is_anchored(sheet: SheetView, row: u32, col: u32, span: u32)
    ensures
        sheet.with_col_span(row, col, span).cell_or_empty(row, col).col_span == span,
        sheet.with_row_span(row, col, span).cell_or_empty(row, col).row_span == span,
        forall|r: u32, c: u32|
            (r, c) != (row, col) ==> {
                &&& sheet.with_col_span(row, col, span).cells.contains_key((r, c))
                    == sheet.cells.contains_key((r, c))
                &&& #[trigger] sheet.with_col_span(row, col, span).cell_or_empty(r, c)
                    == sheet.cell_or_empty(r, c)
            },
        forall|r: u32, c: u32|
            (r, c) != (row, col) ==> {
                &&& sheet.with_row_span(row, col, span).cells.contains_key((r, c))
                    == sheet.cells.contains_key((r, c))
                &&& #[trigger] sheet.with_row_span(row, col, span).cell_or_empty(r, c)
                    == sheet.cell_or_empty(r, c)
            },
{
}

} // verus!
