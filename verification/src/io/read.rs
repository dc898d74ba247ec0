//! Reading a whole document: the content part, the styles part, and the
//! archive that holds both.

use vstd::prelude::*;
use crate::archive::{check_offsets, offsets_fit, zip_member, zip_member_bytes};
use crate::error::{OdsError, OdsErrorView};
use crate::io::layout::{lemma_master_styles_scan_pos, master_styles_scan, read_master_styles};
use crate::io::styles::{
    auto_styles_scan, fonts_scan, lemma_fonts_scan_pos, lemma_styles_scan_pos, named_styles_scan,
    read_auto_styles, read_fonts, read_styles_tag,
};
use crate::io::table::{
    cell_element, column_element, count_attr, empty_cell_element, lemma_cell_content_scan_pos,
    read_empty_table_cell, read_table_attr, read_table_cell, read_table_column,
    read_table_row_attr,
    row_overflow_message, table_with_attrs,
};
use crate::sheet::{empty_sheet, ColRange, RowRange, Sheet, SheetView};
use crate::strs::{lemma_differ_by_length, str_eq};
use crate::style::{StyleOrigin, StyleUse};
use crate::workbook::{empty_workbook, WorkBook, WorkBookView};
use crate::xml::{
    document_events, events_view, tokenize, XmlEvent, XmlEventView, XmlTag, XmlTagView,
};

verus! {

/// Where the reader of the content part stands within a table.
pub struct ContentState {
    /// The sheet being read.
    pub sheet: Sheet,
    /// The next column to be declared. Columns are counted apart from cells:
    /// they are declared once for the sheet, cells come with every row.
    pub tcol: u32,
    /// The row of the next cell.
    pub row: u32,
    /// The column of the next cell.
    pub col: u32,
    /// How often the row being read is repeated.
    pub row_repeat: u32,
    /// The column at which the header columns began.
    pub col_range_from: u32,
    /// The row at which the header rows began.
    pub row_range_from: u32,
}

/// The model of a [`ContentState`].
pub ghost struct ContentStateView {
    pub sheet: SheetView,
    pub tcol: u32,
    pub row: u32,
    pub col: u32,
    pub row_repeat: u32,
    pub col_range_from: u32,
    pub row_range_from: u32,
}

impl View for ContentState {
    type V = ContentStateView;

    open spec fn view(&self) -> ContentStateView {
        ContentStateView {
            sheet: self.sheet@,
            tcol: self.tcol,
            row: self.row,
            col: self.col,
            row_repeat: self.row_repeat,
            col_range_from: self.col_range_from,
            row_range_from: self.row_range_from,
        }
    }
}

/// The state at the start of a table: an empty sheet, and every counter at
/// its beginning.
pub open spec fn content_start() -> ContentStateView {
    ContentStateView {
        sheet: empty_sheet(),
        tcol: 0,
        row: 0,
        col: 0,
        row_repeat: 1,
        col_range_from: 0,
        row_range_from: 0,
    }
}

impl ContentState {
    /// The state at the start of a table.
    pub fn new() -> (r: Self)
        ensures
            r@ == content_start(),
    {
        ContentState {
            sheet: Sheet::new(),
            tcol: 0,
            row: 0,
            col: 0,
            row_repeat: 1,
            col_range_from: 0,
            row_range_from: 0,
        }
    }
}

/// Whether `name` names a cell, covered by a merged area or not.
pub open spec fn is_cell(name: Seq<char>) -> bool {
    name == "table:table-cell"@ || name == "table:covered-table-cell"@
}

/// The workbook, the state and the position after an opening tag `t` in the
/// content part. `pos` is the position behind the tag. A table tag names the
/// sheet, the header brackets note where they begin, a row tag gives the
/// repeat count of its row, the declarations of fonts and styles are read
/// into the workbook, and a cell is read into the sheet. Every other tag is
/// passed over.
pub open spec fn content_open(
    book: WorkBookView,
    st: ContentStateView,
    events: Seq<XmlEventView>,
    pos: int,
    t: XmlTagView,
) -> Result<(WorkBookView, ContentStateView, int), OdsErrorView> {
    if t.name == "table:table"@ {
        Ok((book, ContentStateView { sheet: table_with_attrs(st.sheet, t), ..st }, pos))
    } else if t.name == "table:table-header-columns"@ {
        Ok((book, ContentStateView { col_range_from: st.tcol, ..st }, pos))
    } else if t.name == "table:table-header-rows"@ {
        Ok((book, ContentStateView { row_range_from: st.row, ..st }, pos))
    } else if t.name == "table:table-row"@ {
        match count_attr(t, "table:number-rows-repeated"@) {
            Err(e) => Err(e),
            Ok(n) => Ok((book, ContentStateView { row_repeat: n, ..st }, pos)),
        }
    } else if t.name == "office:font-face-decls"@ {
        let (b, p) = fonts_scan(book, StyleOrigin::Content, events, pos);
        Ok((b, st, p))
    } else if t.name == "office:styles"@ {
        let (b, p) = named_styles_scan(book, StyleOrigin::Content, events, pos);
        Ok((b, st, p))
    } else if t.name == "office:automatic-styles"@ {
        let (b, p) = auto_styles_scan(book, StyleOrigin::Content, events, pos);
        Ok((b, st, p))
    } else if t.name == "office:master-styles"@ {
        let (b, p) = master_styles_scan(book, events, pos);
        Ok((b, st, p))
    } else if is_cell(t.name) {
        match cell_element(st.sheet, events, pos, t, st.row, st.col) {
            Err(e) => Err(e),
            Ok((sheet, col, p)) => Ok((book, ContentStateView { sheet, col, ..st }, p)),
        }
    } else {
        Ok((book, st, pos))
    }
}

/// The state after a tag `t` without content in the content part: a column
/// declaration is expanded, a cell is read into the sheet.
pub open spec fn content_empty(st: ContentStateView, t: XmlTagView) -> Result<
    ContentStateView,
    OdsErrorView,
> {
    if t.name == "table:table-column"@ {
        match column_element(st.sheet, t, st.tcol) {
            Err(e) => Err(e),
            Ok((sheet, tcol)) => Ok(ContentStateView { sheet, tcol, ..st }),
        }
    } else if is_cell(t.name) {
        match empty_cell_element(st.sheet, t, st.row, st.col) {
            Err(e) => Err(e),
            Ok((sheet, col)) => Ok(ContentStateView { sheet, col, ..st }),
        }
    } else {
        Ok(st)
    }
}

/// The workbook and the state after a closing tag named `n` in the content
/// part. The end of a table appends the sheet to the workbook and starts
/// afresh. The end of a header bracket records the range it spans, if it
/// spans any column or row. The end of a row moves down by the repeat count
/// of the row and back to the first column.
pub open spec fn content_close(book: WorkBookView, st: ContentStateView, n: Seq<char>) -> Result<
    (WorkBookView, ContentStateView),
    OdsErrorView,
> {
    if n == "table:table"@ {
        Ok((book.with_sheet(st.sheet), content_start()))
    } else if n == "table:table-header-columns"@ {
        if st.tcol > st.col_range_from {
            Ok(
                (
                    book,
                    ContentStateView {
                        sheet: SheetView {
                            header_cols: Some(
                                ColRange { from: st.col_range_from, to: (st.tcol - 1) as u32 },
                            ),
                            ..st.sheet
                        },
                        ..st
                    },
                ),
            )
        } else {
            Ok((book, st))
        }
    } else if n == "table:table-header-rows"@ {
        if st.row > st.row_range_from {
            Ok(
                (
                    book,
                    ContentStateView {
                        sheet: SheetView {
                            header_rows: Some(
                                RowRange { from: st.row_range_from, to: (st.row - 1) as u32 },
                            ),
                            ..st.sheet
                        },
                        ..st
                    },
                ),
            )
        } else {
            Ok((book, st))
        }
    } else if n == "table:table-row"@ {
        if st.row + st.row_repeat > u32::MAX {
            Err(OdsErrorView::Ods(row_overflow_message()))
        } else {
            Ok(
                (
                    book,
                    ContentStateView {
                        row: (st.row + st.row_repeat) as u32,
                        col: 0,
                        row_repeat: 1,
                        ..st
                    },
                ),
            )
        }
    } else {
        Ok((book, st))
    }
}

/// A row that is repeated `n` times moves the row of the next cell down by
/// exactly `n`: its opening tag notes the count, and its closing tag moves
/// on by it and back to the first column.
pub proof fn lemma_row_repeat_advances(
    book: WorkBookView,
    st: ContentStateView,
    events: Seq<XmlEventView>,
    pos: int,
    t: XmlTagView,
    n: u32,
)
    requires
        t.name == "table:table-row"@,
        count_attr(t, "table:number-rows-repeated"@) == Ok::<u32, OdsErrorView>(n),
        st.row + n <= u32::MAX,
    ensures
        content_open(book, st, events, pos, t) == Ok::<
            (WorkBookView, ContentStateView, int),
            OdsErrorView,
        >((book, ContentStateView { row_repeat: n, ..st }, pos)),
        content_close(book, ContentStateView { row_repeat: n, ..st }, "table:table-row"@) == Ok::<
            (WorkBookView, ContentStateView),
            OdsErrorView,
        >((book, ContentStateView { row: (st.row + n) as u32, col: 0, row_repeat: 1, ..st })),
{
    reveal_strlit("table:table-row");
    reveal_strlit("table:table");
    reveal_strlit("table:table-header-columns");
    reveal_strlit("table:table-header-rows");
    lemma_differ_by_length("table:table-row"@, "table:table"@);
    lemma_differ_by_length("table:table-row"@, "table:table-header-columns"@);
    lemma_differ_by_length("table:table-row"@, "table:table-header-rows"@);
}

/// The cells of a row leave the row where it is: reading a cell changes the
/// sheet and the column of the next cell, and neither the row nor the
/// repeat count of the row nor the next column to be declared.
pub proof fn lemma_cells_keep_row(
    book: WorkBookView,
    st: ContentStateView,
    events: Seq<XmlEventView>,
    pos: int,
)
    requires
        0 <= pos < events.len(),
        match events[pos] {
            XmlEventView::Start(t) => is_cell(t.name),
            XmlEventView::Empty(t) => is_cell(t.name),
            _ => false,
        },
    ensures
        match content_step(book, st, events, pos) {
            Ok((b, s, _)) => b == book && s.row == st.row && s.row_repeat == st.row_repeat
                && s.tcol == st.tcol,
            Err(_) => true,
        },
{
    reveal_strlit("table:table-cell");
    reveal_strlit("table:covered-table-cell");
    reveal_strlit("table:table");
    reveal_strlit("table:table-header-columns");
    reveal_strlit("table:table-header-rows");
    reveal_strlit("table:table-row");
    reveal_strlit("table:table-column");
    reveal_strlit("office:font-face-decls");
    reveal_strlit("office:styles");
    reveal_strlit("office:automatic-styles");
    reveal_strlit("office:master-styles");
    let n = match events[pos] {
        XmlEventView::Start(t) => t.name,
        XmlEventView::Empty(t) => t.name,
        _ => Seq::empty(),
    };
    lemma_differ_by_length(n, "table:table"@);
    lemma_differ_by_length(n, "table:table-header-columns"@);
    lemma_differ_by_length(n, "table:table-header-rows"@);
    lemma_differ_by_length(n, "table:table-row"@);
    lemma_differ_by_length(n, "table:table-column"@);
    lemma_differ_by_length(n, "office:font-face-decls"@);
    lemma_differ_by_length(n, "office:styles"@);
    lemma_differ_by_length(n, "office:automatic-styles"@);
    lemma_differ_by_length(n, "office:master-styles"@);
}

/// The workbook, the state and the position after the event at `pos` of the
/// content part.
pub open spec fn content_step(
    book: WorkBookView,
    st: ContentStateView,
    events: Seq<XmlEventView>,
    pos: int,
) -> Result<(WorkBookView, ContentStateView, int), OdsErrorView>
    recommends
        0 <= pos < events.len(),
{
    match events[pos] {
        XmlEventView::Start(t) => content_open(book, st, events, pos + 1, t),
        XmlEventView::Empty(t) => match content_empty(st, t) {
            Err(e) => Err(e),
            Ok(s) => Ok((book, s, pos + 1)),
        },
        XmlEventView::End(n) => match content_close(book, st, n) {
            Err(e) => Err(e),
            Ok((b, s)) => Ok((b, s, pos + 1)),
        },
        XmlEventView::Text(_) => Ok((book, st, pos + 1)),
    }
}

/// Every step through the content part moves forward and stays within the
/// events.
pub proof fn lemma_content_step_pos(
    book: WorkBookView,
    st: ContentStateView,
    events: Seq<XmlEventView>,
    pos: int,
)
    requires
        0 <= pos < events.len(),
    ensures
        match content_step(book, st, events, pos) {
            Ok((_, _, p)) => pos < p <= events.len(),
            Err(_) => true,
        },
{
    match events[pos] {
        XmlEventView::Start(t) => {
            lemma_fonts_scan_pos(book, StyleOrigin::Content, events, pos + 1);
            lemma_styles_scan_pos(
                book,
                StyleOrigin::Content,
                StyleUse::Named,
                false,
                "office:styles"@,
                events,
                pos + 1,
            );
            lemma_styles_scan_pos(
                book,
                StyleOrigin::Content,
                StyleUse::Automatic,
                true,
                "office:automatic-styles"@,
                events,
                pos + 1,
            );
            lemma_master_styles_scan_pos(book, events, pos + 1);
            lemma_cell_content_scan_pos(events, pos + 1, t.name, None);
        },
        _ => {},
    }
}

/// The workbook after the content part from `pos` on, or the first error.
/// A sheet whose table is not closed when the events end is not part of the
/// workbook.
pub open spec fn content_scan(
    book: WorkBookView,
    st: ContentStateView,
    events: Seq<XmlEventView>,
    pos: int,
) -> Result<WorkBookView, OdsErrorView>
    decreases events.len() - pos,
{
    if pos < 0 || pos >= events.len() {
        Ok(book)
    } else {
        match content_step(book, st, events, pos) {
            Err(e) => Err(e),
            Ok((b, s, p)) => {
                proof {
                    lemma_content_step_pos(book, st, events, pos);
                }
                content_scan(b, s, events, p)
            },
        }
    }
}

/// The workbook that reading the content part from `pos` on leaves behind:
/// the workbook after the last event, or, where an event fails, the
/// workbook as it was before that event.
pub open spec fn content_reached(
    book: WorkBookView,
    st: ContentStateView,
    events: Seq<XmlEventView>,
    pos: int,
) -> WorkBookView
    decreases events.len() - pos,
{
    if pos < 0 || pos >= events.len() {
        book
    } else {
        match content_step(book, st, events, pos) {
            Err(_) => book,
            Ok((b, s, p)) => {
                proof {
                    lemma_content_step_pos(book, st, events, pos);
                }
                content_reached(b, s, events, p)
            },
        }
    }
}

/// Where the content part is read without an error, the workbook that is
/// left behind is the workbook that was read.
pub proof fn lemma_content_reached(
    book: WorkBookView,
    st: ContentStateView,
    events: Seq<XmlEventView>,
    pos: int,
)
    ensures
        content_scan(book, st, events, pos) matches Ok(b) ==> content_reached(
            book,
            st,
            events,
            pos,
        ) == b,
    decreases events.len() - pos,
{
    if 0 <= pos < events.len() {
        match content_step(book, st, events, pos) {
            Err(_) => {},
            Ok((b, s, p)) => {
                lemma_content_step_pos(book, st, events, pos);
                lemma_content_reached(b, s, events, p);
            },
        }
    }
}

/// Reads one opening tag of the content part.
fn read_content_open(
    book: &mut WorkBook,
    st: &mut ContentState,
    events: &Vec<XmlEvent>,
    pos: usize,
    t: &XmlTag,
) -> (r: Result<usize, OdsError>)
    requires
        pos <= events@.len(),
    ensures
        match r {
            Ok(p) => content_open(old(book)@, old(st)@, events_view(events@), pos as int, t@)
                == Ok::<(WorkBookView, ContentStateView, int), OdsErrorView>(
                (final(book)@, final(st)@, p as int),
            ) && pos <= p <= events@.len(),
            Err(e) => content_open(old(book)@, old(st)@, events_view(events@), pos as int, t@)
                == Err::<(WorkBookView, ContentStateView, int), OdsErrorView>(e@) && final(book)@
                == old(book)@ && final(st)@ == old(st)@,
        },
{
    let name = t.name.as_str();
    if str_eq(name, "table:table") {
        read_table_attr(t, &mut st.sheet);
        Ok(pos)
    } else if str_eq(name, "table:table-header-columns") {
        st.col_range_from = st.tcol;
        Ok(pos)
    } else if str_eq(name, "table:table-header-rows") {
        st.row_range_from = st.row;
        Ok(pos)
    } else if str_eq(name, "table:table-row") {
        // The style of the row is read and not applied: a row may be
        // repeated up to the end of the sheet.
        let (row_repeat, _row_style) = read_table_row_attr(t)?;
        st.row_repeat = row_repeat;
        Ok(pos)
    } else if str_eq(name, "office:font-face-decls") {
        Ok(read_fonts(book, StyleOrigin::Content, events, pos))
    } else if str_eq(name, "office:styles") {
        Ok(read_styles_tag(book, StyleOrigin::Content, events, pos))
    } else if str_eq(name, "office:automatic-styles") {
        Ok(read_auto_styles(book, StyleOrigin::Content, events, pos))
    } else if str_eq(name, "office:master-styles") {
        Ok(read_master_styles(book, events, pos))
    } else if str_eq(name, "table:table-cell") || str_eq(name, "table:covered-table-cell") {
        let (col, p) = read_table_cell(&mut st.sheet, events, pos, t, st.row, st.col)?;
        st.col = col;
        Ok(p)
    } else {
        Ok(pos)
    }
}

/// Reads one tag without content of the content part.
fn read_content_empty(st: &mut ContentState, t: &XmlTag) -> (r: Result<(), OdsError>)
    ensures
        match r {
            Ok(_) => content_empty(old(st)@, t@) == Ok::<ContentStateView, OdsErrorView>(
                final(st)@,
            ),
            Err(e) => content_empty(old(st)@, t@) == Err::<ContentStateView, OdsErrorView>(e@)
                && final(st)@ == old(st)@,
        },
{
    let name = t.name.as_str();
    if str_eq(name, "table:table-column") {
        st.tcol = read_table_column(t, st.tcol, &mut st.sheet)?;
    } else if str_eq(name, "table:table-cell") || str_eq(name, "table:covered-table-cell") {
        st.col = read_empty_table_cell(&mut st.sheet, t, st.row, st.col)?;
    }
    Ok(())
}

/// Reads one closing tag of the content part.
fn read_content_close(book: &mut WorkBook, st: &mut ContentState, n: &str) -> (r: Result<
    (),
    OdsError,
>)
    ensures
        match r {
            Ok(_) => content_close(old(book)@, old(st)@, n@) == Ok::<
                (WorkBookView, ContentStateView),
                OdsErrorView,
            >((final(book)@, final(st)@)),
            Err(e) => content_close(old(book)@, old(st)@, n@) == Err::<
                (WorkBookView, ContentStateView),
                OdsErrorView,
            >(e@) && final(book)@ == old(book)@ && final(st)@ == old(st)@,
        },
{
    if str_eq(n, "table:table") {
        let mut done = ContentState::new();
        core::mem::swap(st, &mut done);
        book.push_sheet(done.sheet);
    } else if str_eq(n, "table:table-header-columns") {
        if st.tcol > st.col_range_from {
            st.sheet.set_header_cols(ColRange { from: st.col_range_from, to: st.tcol - 1 });
        }
    } else if str_eq(n, "table:table-header-rows") {
        if st.row > st.row_range_from {
            st.sheet.set_header_rows(RowRange { from: st.row_range_from, to: st.row - 1 });
        }
    } else if str_eq(n, "table:table-row") {
        if st.row_repeat > u32::MAX - st.row {
            return Err(OdsError::Ods("Row index out of range".to_owned()));
        }
        st.row = st.row + st.row_repeat;
        st.col = 0;
        st.row_repeat = 1;
    }
    Ok(())
}

/// Reads the content part of a document into the workbook: its sheets with
/// their cells, and the fonts and styles that the part declares. The first
/// event that fails ends the reading; the workbook then holds what was read
/// before that event, and nothing of the sheet that was being read.
pub fn read_content(book: &mut WorkBook, events: &Vec<XmlEvent>) -> (r: Result<(), OdsError>)
    ensures
        final(book)@ == content_reached(old(book)@, content_start(), events_view(events@), 0),
        match r {
            Ok(_) => content_scan(old(book)@, content_start(), events_view(events@), 0) == Ok::<
                WorkBookView,
                OdsErrorView,
            >(final(book)@),
            Err(e) => content_scan(old(book)@, content_start(), events_view(events@), 0) == Err::<
                WorkBookView,
                OdsErrorView,
            >(e@),
        },
{
    let ghost ev = events_view(events@);
    let mut st = ContentState::new();
    let mut p: usize = 0;
    while p < events.len()
        invariant
            ev == events_view(events@),
            0 <= p <= events@.len(),
            content_scan(old(book)@, content_start(), ev, 0) == content_scan(
                book@,
                st@,
                ev,
                p as int,
            ),
            content_reached(old(book)@, content_start(), ev, 0) == content_reached(
                book@,
                st@,
                ev,
                p as int,
            ),
        decreases events@.len() - p,
    {
        assert(ev[p as int] == events@[p as int]@);
        proof {
            lemma_content_step_pos(book@, st@, ev, p as int);
        }
        match &events[p] {
            XmlEvent::Start(t) => {
                p = read_content_open(book, &mut st, events, p + 1, t)?;
            },
            XmlEvent::Empty(t) => {
                read_content_empty(&mut st, t)?;
                p += 1;
            },
            XmlEvent::End(n) => {
                read_content_close(book, &mut st, n.as_str())?;
                p += 1;
            },
            XmlEvent::Text(_) => {
                p += 1;
            },
        }
    }
    Ok(())
}

/// The workbook and the position after an opening tag `t` in the styles
/// part: the declarations of fonts, styles and master pages are read into
/// the workbook. `pos` is the position behind the tag.
pub open spec fn styles_open(
    book: WorkBookView,
    events: Seq<XmlEventView>,
    pos: int,
    t: XmlTagView,
) -> (WorkBookView, int) {
    if t.name == "office:font-face-decls"@ {
        fonts_scan(book, StyleOrigin::Styles, events, pos)
    } else if t.name == "office:styles"@ {
        named_styles_scan(book, StyleOrigin::Styles, events, pos)
    } else if t.name == "office:automatic-styles"@ {
        auto_styles_scan(book, StyleOrigin::Styles, events, pos)
    } else if t.name == "office:master-styles"@ {
        master_styles_scan(book, events, pos)
    } else {
        (book, pos)
    }
}

/// Reading a declaration of the styles part does not move backward and
/// stays within the events.
pub proof fn lemma_styles_open_pos(
    book: WorkBookView,
    events: Seq<XmlEventView>,
    pos: int,
    t: XmlTagView,
)
    requires
        0 <= pos <= events.len(),
    ensures
        pos <= styles_open(book, events, pos, t).1 <= events.len(),
{
    lemma_fonts_scan_pos(book, StyleOrigin::Styles, events, pos);
    lemma_styles_scan_pos(
        book,
        StyleOrigin::Styles,
        StyleUse::Named,
        false,
        "office:styles"@,
        events,
        pos,
    );
    lemma_styles_scan_pos(
        book,
        StyleOrigin::Styles,
        StyleUse::Automatic,
        true,
        "office:automatic-styles"@,
        events,
        pos,
    );
    lemma_master_styles_scan_pos(book, events, pos);
}

/// The workbook after the styles part from `pos` on.
pub open spec fn styles_part_scan(
    book: WorkBookView,
    events: Seq<XmlEventView>,
    pos: int,
) -> WorkBookView
    decreases events.len() - pos,
{
    if pos < 0 || pos >= events.len() {
        book
    } else {
        match events[pos] {
            XmlEventView::Start(t) => {
                let (b, p) = styles_open(book, events, pos + 1, t);
                proof {
                    lemma_styles_open_pos(book, events, pos + 1, t);
                }
                styles_part_scan(b, events, p)
            },
            _ => styles_part_scan(book, events, pos + 1),
        }
    }
}

/// Reads one opening tag of the styles part.
fn read_styles_open(
    book: &mut WorkBook,
    events: &Vec<XmlEvent>,
    pos: usize,
    t: &XmlTag,
) -> (r: usize)
    requires
        pos <= events@.len(),
    ensures
        (final(book)@, r as int) == styles_open(old(book)@, events_view(events@), pos as int, t@),
        pos <= r <= events@.len(),
{
    let name = t.name.as_str();
    if str_eq(name, "office:font-face-decls") {
        read_fonts(book, StyleOrigin::Styles, events, pos)
    } else if str_eq(name, "office:styles") {
        read_styles_tag(book, StyleOrigin::Styles, events, pos)
    } else if str_eq(name, "office:automatic-styles") {
        read_auto_styles(book, StyleOrigin::Styles, events, pos)
    } else if str_eq(name, "office:master-styles") {
        read_master_styles(book, events, pos)
    } else {
        pos
    }
}

/// Reads the styles part of a document into the workbook: the fonts, styles,
/// value formats, page layouts and master pages that the part declares.
pub fn read_styles(book: &mut WorkBook, events: &Vec<XmlEvent>)
    ensures
        final(book)@ == styles_part_scan(old(book)@, events_view(events@), 0),
{
    let ghost ev = events_view(events@);
    let mut p: usize = 0;
    while p < events.len()
        invariant
            ev == events_view(events@),
            0 <= p <= events@.len(),
            styles_part_scan(old(book)@, ev, 0) == styles_part_scan(book@, ev, p as int),
        decreases events@.len() - p,
    {
        assert(ev[p as int] == events@[p as int]@);
        match &events[p] {
            XmlEvent::Start(t) => {
                p = read_styles_open(book, events, p + 1, t);
            },
            _ => {
                p += 1;
            },
        }
    }
}

/// The workbook that the events of the two parts of a document stand for, or
/// the first error: the content part is read first, into an empty workbook,
/// the styles part behind it.
pub open spec fn workbook_of(content: Seq<XmlEventView>, styles: Seq<XmlEventView>) -> Result<
    WorkBookView,
    OdsErrorView,
> {
    match content_scan(empty_workbook(), content_start(), content, 0) {
        Err(e) => Err(e),
        Ok(book) => Ok(styles_part_scan(book, styles, 0)),
    }
}

/// Builds the workbook from the events of the content part and of the
/// styles part of a document.
pub fn read_workbook(content: &Vec<XmlEvent>, styles: &Vec<XmlEvent>) -> (r: Result<
    WorkBook,
    OdsError,
>)
    ensures
        match r {
            Ok(book) => workbook_of(events_view(content@), events_view(styles@)) == Ok::<
                WorkBookView,
                OdsErrorView,
            >(book@),
            Err(e) => workbook_of(events_view(content@), events_view(styles@)) == Err::<
                WorkBookView,
                OdsErrorView,
            >(e@),
        },
{
    let mut book = WorkBook::new();
    read_content(&mut book, content)?;
    read_styles(&mut book, styles);
    Ok(book)
}

/// The name of the member that holds the content part.
pub open spec fn content_member() -> Seq<char> {
    "content.xml"@
}

/// The name of the member that holds the styles part.
pub open spec fn styles_member() -> Seq<char> {
    "styles.xml"@
}

/// The text of the error for an archive whose offsets could pass 64 bits.
pub open spec fn archive_message() -> Seq<char> {
    "Archive offsets out of range"@
}

/// The workbook that the bytes of an archive stand for, or the first error.
///
/// The member `content.xml` is taken from the archive, read into its
/// events as a whole, and read into an empty workbook; then the same is
/// done with `styles.xml`, into the workbook that the content gave. So an
/// error of the XML anywhere in a member comes before an error of a cell
/// in it, and every error of the content part comes before any of the
/// styles part, a missing member included.
pub open spec fn ods_workbook(archive: Seq<u8>) -> Result<WorkBookView, OdsErrorView> {
    if !offsets_fit(archive) {
        Err(OdsErrorView::Ods(archive_message()))
    } else {
        match zip_member_bytes(archive, content_member()) {
            None => Err(OdsErrorView::Zip),
            Some(content_xml) => match document_events(content_xml) {
                None => Err(OdsErrorView::Xml),
                Some(content) => match content_scan(
                    empty_workbook(),
                    content_start(),
                    content,
                    0,
                ) {
                    Err(e) => Err(e),
                    Ok(book) => match zip_member_bytes(archive, styles_member()) {
                        None => Err(OdsErrorView::Zip),
                        Some(styles_xml) => match document_events(styles_xml) {
                            None => Err(OdsErrorView::Xml),
                            Some(styles) => Ok(styles_part_scan(book, styles, 0)),
                        },
                    },
                },
            },
        }
    }
}

/// Reads a spreadsheet from the bytes of its archive. Either the whole
/// workbook is returned or the first error, never a workbook that is partly
/// filled.
pub fn read_ods(archive: &[u8]) -> (r: Result<WorkBook, OdsError>)
    ensures
        match r {
            Ok(book) => ods_workbook(archive@) == Ok::<WorkBookView, OdsErrorView>(book@),
            Err(e) => ods_workbook(archive@) == Err::<WorkBookView, OdsErrorView>(e@),
        },
{
    if !check_offsets(archive) {
        return Err(OdsError::Ods("Archive offsets out of range".to_owned()));
    }
    let content_xml = match zip_member(archive, "content.xml") {
        Ok(bytes) => bytes,
        Err(e) => {
            return Err(OdsError::Zip(e));
        },
    };
    let content = tokenize(content_xml.as_slice())?;
    let mut book = WorkBook::new();
    read_content(&mut book, &content)?;
    let styles_xml = match zip_member(archive, "styles.xml") {
        Ok(bytes) => bytes,
        Err(e) => {
            return Err(OdsError::Zip(e));
        },
    };
    let styles = tokenize(styles_xml.as_slice())?;
    read_styles(&mut book, &styles);
    Ok(book)
}

} // verus!
