//! Readers for the parts of a table: its attributes, columns, rows and
//! cells.

use vstd::prelude::*;
use vstd::string::*;
use crate::error::{OdsError, OdsErrorView};
use crate::namemap::{NameMap, Pairs};
use crate::refs::{cellranges_of, parse_cellranges};
use crate::sheet::{SCell, SCellView, Sheet, SheetView};
use crate::strs::{decimal_u32, opt_text, parse_u32, str_eq};
use crate::value::{
    decode_value_type, decoded_value, parse_value, unknown_type_message, value_type_of, Value,
    ValueType, ValueView,
};
use crate::xml::{events_view, XmlEvent, XmlEventView, XmlTag, XmlTagView};

verus! {

/// The sheet `sheet` with what the attributes of its table tag declare: its
/// name, its style and its print ranges.
pub open spec fn table_with_attrs(sheet: SheetView, t: XmlTagView) -> SheetView {
    SheetView {
        name: match t.attr("table:name"@) {
            Some(v) => v,
            None => sheet.name,
        },
        style: match t.attr("table:style-name"@) {
            Some(v) => Some(v),
            None => sheet.style,
        },
        print_ranges: match t.attr("table:print-ranges"@) {
            Some(v) => cellranges_of(v),
            None => sheet.print_ranges,
        },
        ..sheet
    }
}

/// Reads the attributes of a table tag into the sheet.
pub fn read_table_attr(xml_tag: &XmlTag, sheet: &mut Sheet)
    ensures
        final(sheet)@ == table_with_attrs(old(sheet)@, xml_tag@),
{
    match xml_tag.attr("table:name") {
        Some(v) => {
            sheet.set_name(v.clone());
        },
        None => {},
    }
    match xml_tag.attr("table:style-name") {
        Some(v) => {
            sheet.set_style(v.clone());
        },
        None => {},
    }
    match xml_tag.attr("table:print-ranges") {
        Some(v) => {
            sheet.set_print_ranges(parse_cellranges(v.as_str()));
        },
        None => {},
    }
}

/// The count that the attribute `name` of a tag gives: one where the tag has
/// no such attribute, an error where its value is no number.
pub open spec fn count_attr(t: XmlTagView, name: Seq<char>) -> Result<u32, OdsErrorView> {
    match t.attr(name) {
        Some(v) => match decimal_u32(v) {
            Some(n) => Ok(n),
            None => Err(OdsErrorView::ParseInt(v)),
        },
        None => Ok(1),
    }
}

/// Reads the count that the attribute `name` of a tag gives.
pub fn read_count(xml_tag: &XmlTag, name: &str) -> (r: Result<u32, OdsError>)
    ensures
        match r {
            Ok(n) => count_attr(xml_tag@, name@) == Ok::<u32, OdsErrorView>(n),
            Err(e) => count_attr(xml_tag@, name@) == Err::<u32, OdsErrorView>(e@),
        },
{
    match xml_tag.attr(name) {
        Some(v) => match parse_u32(v.as_str()) {
            Some(n) => Ok(n),
            None => Err(OdsError::ParseInt(v.clone())),
        },
        None => Ok(1),
    }
}

/// Reads the attributes of a row tag. Returns how often the row is repeated,
/// and the style of the row.
pub fn read_table_row_attr(xml_tag: &XmlTag) -> (r: Result<(u32, Option<String>), OdsError>)
    ensures
        match r {
            Ok(p) => count_attr(xml_tag@, "table:number-rows-repeated"@) == Ok::<
                u32,
                OdsErrorView,
            >(p.0) && opt_text(p.1) == xml_tag@.attr("table:style-name"@),
            Err(e) => count_attr(xml_tag@, "table:number-rows-repeated"@) == Err::<
                u32,
                OdsErrorView,
            >(e@),
        },
{
    let row_repeat = read_count(xml_tag, "table:number-rows-repeated")?;
    let row_style = match xml_tag.attr("table:style-name") {
        Some(v) => Some(v.clone()),
        None => None,
    };
    Ok((row_repeat, row_style))
}

/// The text of the error for a column beyond the last column that can be
/// counted.
pub open spec fn col_overflow_message() -> Seq<char> {
    "Column index out of range"@
}

/// The text of the error for a row beyond the last row that can be counted.
pub open spec fn row_overflow_message() -> Seq<char> {
    "Row index out of range"@
}

/// The sheet after a column declaration at the column `tcol`, and the column
/// behind the declared ones. A declaration that is repeated `n` times stands
/// for `n` columns side by side, and each of them takes the declared style
/// and default cell style.
pub open spec fn column_element(sheet: SheetView, t: XmlTagView, tcol: u32) -> Result<
    (SheetView, u32),
    OdsErrorView,
> {
    match count_attr(t, "table:number-columns-repeated"@) {
        Err(e) => Err(e),
        Ok(repeat) => if tcol + repeat > u32::MAX {
            Err(OdsErrorView::Ods(col_overflow_message()))
        } else {
            let s1 = match t.attr("table:style-name"@) {
                Some(v) => sheet.with_column_styles(tcol, repeat as nat, v),
                None => sheet,
            };
            let s2 = match t.attr("table:default-cell-style-name"@) {
                Some(v) => s1.with_column_cell_styles(tcol, repeat as nat, v),
                None => s1,
            };
            Ok((s2, (tcol + repeat) as u32))
        },
    }
}

/// Reads a column declaration at the column `tcol` into the sheet. Returns
/// the column behind the declared ones. Where it fails, the sheet stays as
/// it was.
pub fn read_table_column(xml_tag: &XmlTag, tcol: u32, sheet: &mut Sheet) -> (r: Result<
    u32,
    OdsError,
>)
    ensures
        match r {
            Ok(c) => column_element(old(sheet)@, xml_tag@, tcol) == Ok::<
                (SheetView, u32),
                OdsErrorView,
            >((final(sheet)@, c)),
            Err(e) => column_element(old(sheet)@, xml_tag@, tcol) == Err::<
                (SheetView, u32),
                OdsErrorView,
            >(e@) && final(sheet)@ == old(sheet)@,
        },
{
    let repeat = read_count(xml_tag, "table:number-columns-repeated")?;
    if repeat > u32::MAX - tcol {
        return Err(OdsError::Ods("Column index out of range".to_owned()));
    }
    match xml_tag.attr("table:style-name") {
        Some(v) => {
            sheet.set_column_styles(tcol, repeat, v.as_str());
        },
        None => {},
    }
    match xml_tag.attr("table:default-cell-style-name") {
        Some(v) => {
            sheet.set_column_cell_styles(tcol, repeat, v.as_str());
        },
        None => {},
    }
    Ok(tcol + repeat)
}

/// The text `text` with `append` behind it; `default` where there is no text
/// yet.
pub open spec fn appended_or(
    text: Option<Seq<char>>,
    append: Seq<char>,
    default: Seq<char>,
) -> Option<Seq<char>> {
    match text {
        Some(s) => Some(s + append),
        None => Some(default),
    }
}

/// The text `text` with `append` behind it; `append` where there is no text
/// yet.
pub open spec fn appended(text: Option<Seq<char>>, append: Seq<char>) -> Option<Seq<char>> {
    appended_or(text, append, append)
}

/// Appends `append` to the text, or starts the text with `default`.
pub fn text_append_or(text: Option<String>, append: &str, default: &str) -> (r: Option<String>)
    ensures
        opt_text(r) == appended_or(opt_text(text), append@, default@),
{
    match text {
        Some(s) => Some(s.concat(append)),
        None => Some(default.to_owned()),
    }
}

/// Appends `append` to the text, or starts the text with it.
pub fn text_append(text: Option<String>, append: &str) -> (r: Option<String>)
    ensures
        opt_text(r) == appended(opt_text(text), append@),
{
    match text {
        Some(s) => Some(s.concat(append)),
        None => Some(append.to_owned()),
    }
}

/// Whether `name` names one of the attributes that carry the value of a
/// cell.
pub open spec fn is_value_attr(name: Seq<char>) -> bool {
    name == "office:date-value"@ || name == "office:time-value"@ || name == "office:value"@
        || name == "office:boolean-value"@
}

/// The value attribute of a cell: the value of the last attribute that
/// carries a value.
pub open spec fn value_attr(attrs: Pairs<Seq<char>>) -> Option<Seq<char>>
    decreases attrs.len(),
{
    if attrs.len() == 0 {
        None
    } else if is_value_attr(attrs.last().0) {
        Some(attrs.last().1)
    } else {
        value_attr(attrs.drop_last())
    }
}

/// Reads the value attribute of a cell.
pub fn read_value_attr(attrs: &NameMap<String>) -> (r: Option<String>)
    ensures
        opt_text(r) == value_attr(attrs@),
{
    let mut i: usize = attrs.len();
    assert(attrs@.take(i as int) =~= attrs@);
    while i > 0
        invariant
            0 <= i <= attrs@.len(),
            value_attr(attrs@) == value_attr(attrs@.take(i as int)),
        decreases i,
    {
        i -= 1;
        let ghost prefix = attrs@.take(i + 1);
        assert(prefix.last() == attrs@[i as int]);
        assert(prefix.drop_last() =~= attrs@.take(i as int));
        let name = attrs.name_at(i).as_str();
        if str_eq(name, "office:date-value") || str_eq(name, "office:time-value") || str_eq(
            name,
            "office:value",
        ) || str_eq(name, "office:boolean-value") {
            return Some(attrs.value_at(i).clone());
        }
    }
    None
}

/// What the tag of a cell declares.
pub struct CellStart {
    /// The cell, still without its value.
    pub cell: SCell,
    /// How often the cell is repeated.
    pub repeat: u32,
    pub value_type: Option<ValueType>,
    pub value: Option<String>,
    pub currency: Option<String>,
}

/// The model of a [`CellStart`].
pub ghost struct CellStartView {
    pub cell: SCellView,
    pub repeat: u32,
    pub value_type: Option<ValueType>,
    pub value: Option<Seq<char>>,
    pub currency: Option<Seq<char>>,
}

impl View for CellStart {
    type V = CellStartView;

    open spec fn view(&self) -> CellStartView {
        CellStartView {
            cell: self.cell@,
            repeat: self.repeat,
            value_type: self.value_type,
            value: opt_text(self.value),
            currency: opt_text(self.currency),
        }
    }
}

/// The value type that the tag of a cell declares, an error where the tag
/// names a type that is not known.
pub open spec fn cell_value_type(t: XmlTagView) -> Result<Option<ValueType>, OdsErrorView> {
    match t.attr("office:value-type"@) {
        Some(v) => match value_type_of(v) {
            Some(ty) => Ok(Some(ty)),
            None => Err(OdsErrorView::Ods(unknown_type_message(v))),
        },
        None => Ok(None),
    }
}

/// What the tag of a cell declares: the repeat count, the spans, the value
/// type, the attributes that the value is decoded from, the formula and the
/// style.
pub open spec fn cell_start(t: XmlTagView) -> Result<CellStartView, OdsErrorView> {
    match count_attr(t, "table:number-columns-repeated"@) {
        Err(e) => Err(e),
        Ok(repeat) => match count_attr(t, "table:number-rows-spanned"@) {
            Err(e) => Err(e),
            Ok(row_span) => match count_attr(t, "table:number-columns-spanned"@) {
                Err(e) => Err(e),
                Ok(col_span) => match cell_value_type(t) {
                    Err(e) => Err(e),
                    Ok(value_type) => Ok(
                        CellStartView {
                            cell: SCellView {
                                value: ValueView::Empty,
                                style: t.attr("table:style-name"@),
                                formula: t.attr("table:formula"@),
                                row_span,
                                col_span,
                            },
                            repeat,
                            value_type,
                            value: value_attr(t.attrs),
                            currency: t.attr("office:currency"@),
                        },
                    ),
                },
            },
        },
    }
}

/// A copy of the value of the attribute `name`.
fn copy_attr(xml_tag: &XmlTag, name: &str) -> (r: Option<String>)
    ensures
        opt_text(r) == xml_tag@.attr(name@),
{
    match xml_tag.attr(name) {
        Some(v) => Some(v.clone()),
        None => None,
    }
}

/// Reads what the tag of a cell declares.
pub fn read_cell_start(xml_tag: &XmlTag) -> (r: Result<CellStart, OdsError>)
    ensures
        match r {
            Ok(c) => cell_start(xml_tag@) == Ok::<CellStartView, OdsErrorView>(c@),
            Err(e) => cell_start(xml_tag@) == Err::<CellStartView, OdsErrorView>(e@),
        },
{
    let repeat = read_count(xml_tag, "table:number-columns-repeated")?;
    let row_span = read_count(xml_tag, "table:number-rows-spanned")?;
    let col_span = read_count(xml_tag, "table:number-columns-spanned")?;
    let value_type = match xml_tag.attr("office:value-type") {
        Some(v) => match decode_value_type(v.as_str()) {
            Ok(ty) => Some(ty),
            Err(e) => {
                return Err(e);
            },
        },
        None => None,
    };
    let cell = SCell {
        value: Value::Empty,
        style: copy_attr(xml_tag, "table:style-name"),
        formula: copy_attr(xml_tag, "table:formula"),
        row_span,
        col_span,
    };
    Ok(
        CellStart {
            cell,
            repeat,
            value_type,
            value: read_value_attr(&xml_tag.attrs),
            currency: copy_attr(xml_tag, "office:currency"),
        },
    )
}

/// The text content of a cell read from `pos` up to the closing tag named
/// `tag_name`, behind the content `content`, and the position behind that
/// tag. Text is appended as it comes; a paragraph that begins behind
/// content that is there already begins a new line, and a space tag gives
/// one space. `None` where the events end before the closing tag.
pub open spec fn cell_content_scan(
    events: Seq<XmlEventView>,
    pos: int,
    tag_name: Seq<char>,
    content: Option<Seq<char>>,
) -> (Option<Option<Seq<char>>>, int)
    decreases events.len() - pos,
{
    if pos < 0 || pos >= events.len() {
        (None, pos)
    } else {
        match events[pos] {
            XmlEventView::Text(s) => cell_content_scan(
                events,
                pos + 1,
                tag_name,
                appended(content, s),
            ),
            XmlEventView::Start(t) => cell_content_scan(
                events,
                pos + 1,
                tag_name,
                if t.name == "text:p"@ {
                    appended_or(content, "\n"@, ""@)
                } else {
                    content
                },
            ),
            XmlEventView::Empty(t) => cell_content_scan(
                events,
                pos + 1,
                tag_name,
                if t.name == "text:s"@ {
                    appended(content, " "@)
                } else {
                    content
                },
            ),
            XmlEventView::End(n) => if n == tag_name {
                (Some(content), pos + 1)
            } else {
                cell_content_scan(events, pos + 1, tag_name, content)
            },
        }
    }
}

/// Reading the content of a cell moves forward and stays within the events.
pub proof fn lemma_cell_content_scan_pos(
    events: Seq<XmlEventView>,
    pos: int,
    tag_name: Seq<char>,
    content: Option<Seq<char>>,
)
    requires
        0 <= pos <= events.len(),
    ensures
        pos <= cell_content_scan(events, pos, tag_name, content).1 <= events.len(),
    decreases events.len() - pos,
{
    if pos < events.len() {
        match events[pos] {
            XmlEventView::Text(s) => lemma_cell_content_scan_pos(
                events,
                pos + 1,
                tag_name,
                appended(content, s),
            ),
            XmlEventView::Start(t) => lemma_cell_content_scan_pos(
                events,
                pos + 1,
                tag_name,
                if t.name == "text:p"@ {
                    appended_or(content, "\n"@, ""@)
                } else {
                    content
                },
            ),
            XmlEventView::Empty(t) => lemma_cell_content_scan_pos(
                events,
                pos + 1,
                tag_name,
                if t.name == "text:s"@ {
                    appended(content, " "@)
                } else {
                    content
                },
            ),
            XmlEventView::End(n) => if n != tag_name {
                lemma_cell_content_scan_pos(events, pos + 1, tag_name, content)
            },
        }
    }
}

/// How many positions a cell takes that is repeated `repeat` times: at least
/// one.
pub open spec fn cell_count(repeat: u32) -> u32 {
    if repeat > 1 {
        repeat
    } else {
        1
    }
}

/// The sheet with the cell `cell` stored `repeat` times from (`row`, `col`)
/// on, at least once, and the column behind the last copy.
pub open spec fn place_cell(
    sheet: SheetView,
    row: u32,
    col: u32,
    repeat: u32,
    cell: SCellView,
) -> Result<
    (SheetView, u32),
    OdsErrorView,
> {
    if col + cell_count(repeat) > u32::MAX {
        Err(OdsErrorView::Ods(col_overflow_message()))
    } else {
        Ok(
            (
                sheet.with_cells(row, col, cell_count(repeat) as nat, cell),
                (col + cell_count(repeat)) as u32,
            ),
        )
    }
}

/// Stores `cell` in the sheet `repeat` times from (`row`, `col`) on, at
/// least once. Returns the column behind the last copy.
fn store_cell(sheet: &mut Sheet, row: u32, col: u32, repeat: u32, cell: &SCell) -> (r: Result<
    u32,
    OdsError,
>)
    ensures
        match r {
            Ok(c) => place_cell(old(sheet)@, row, col, repeat, cell@) == Ok::<
                (SheetView, u32),
                OdsErrorView,
            >((final(sheet)@, c)),
            Err(e) => place_cell(old(sheet)@, row, col, repeat, cell@) == Err::<
                (SheetView, u32),
                OdsErrorView,
            >(e@) && final(sheet)@ == old(sheet)@,
        },
{
    let n: u32 = if repeat > 1 {
        repeat
    } else {
        1
    };
    if n > u32::MAX - col {
        return Err(OdsError::Ods("Column index out of range".to_owned()));
    }
    sheet.add_cells(row, col, n, cell);
    Ok(col + n)
}

/// The sheet after a cell with content whose tag `tag` stands before `pos`,
/// at (`row`, `col`): the sheet, the column behind the cell, and the
/// position behind the cell's closing tag. The value is decoded when the
/// closing tag is met. A cell whose closing tag is missing is not stored.
pub open spec fn cell_element(
    sheet: SheetView,
    events: Seq<XmlEventView>,
    pos: int,
    tag: XmlTagView,
    row: u32,
    col: u32,
) -> Result<(SheetView, u32, int), OdsErrorView> {
    match cell_start(tag) {
        Err(e) => Err(e),
        Ok(start) => match cell_content_scan(events, pos, tag.name, None) {
            (None, p) => Ok((sheet, col, p)),
            (Some(content), p) => match decoded_value(
                start.value_type,
                start.value,
                content,
                start.currency,
                row,
                col,
            ) {
                Err(e) => Err(e),
                Ok(value) => match place_cell(
                    sheet,
                    row,
                    col,
                    start.repeat,
                    SCellView { value, ..start.cell },
                ) {
                    Err(e) => Err(e),
                    Ok((s, c)) => Ok((s, c, p)),
                },
            },
        },
    }
}

/// Reads a cell with content whose tag `xml_tag` stands before `pos`, at
/// (`row`, `col`), into the sheet. Returns the column behind the cell and
/// the position behind the cell's closing tag. Where it fails, the sheet
/// stays as it was.
pub fn read_table_cell(
    sheet: &mut Sheet,
    events: &Vec<XmlEvent>,
    pos: usize,
    xml_tag: &XmlTag,
    row: u32,
    col: u32,
) -> (r: Result<(u32, usize), OdsError>)
    requires
        pos <= events@.len(),
    ensures
        match r {
            Ok(x) => cell_element(
                old(sheet)@,
                events_view(events@),
                pos as int,
                xml_tag@,
                row,
                col,
            ) == Ok::<(SheetView, u32, int), OdsErrorView>((final(sheet)@, x.0, x.1 as int))
                && pos <= x.1 <= events@.len(),
            Err(e) => cell_element(
                old(sheet)@,
                events_view(events@),
                pos as int,
                xml_tag@,
                row,
                col,
            ) == Err::<(SheetView, u32, int), OdsErrorView>(e@) && final(sheet)@ == old(sheet)@,
        },
{
    let ghost ev = events_view(events@);
    let start = read_cell_start(xml_tag)?;
    let ghost start0 = start@;
    let CellStart { cell, repeat, value_type, value, currency } = start;
    let mut cell = cell;
    let mut cell_content: Option<String> = None;
    let mut p = pos;
    let mut closed = false;
    while !closed && p < events.len()
        invariant
            ev == events_view(events@),
            pos <= p <= events@.len(),
            cell_content_scan(ev, pos as int, xml_tag@.name, None) == (if closed {
                (Some(opt_text(cell_content)), p as int)
            } else {
                cell_content_scan(ev, p as int, xml_tag@.name, opt_text(cell_content))
            }),
        decreases events@.len() - p + (if closed { 0int } else { 1int }),
    {
        assert(ev[p as int] == events@[p as int]@);
        match &events[p] {
            XmlEvent::Text(s) => {
                cell_content = text_append(cell_content, s.as_str());
            },
            XmlEvent::Start(t) => {
                if str_eq(t.name.as_str(), "text:p") {
                    cell_content = text_append_or(cell_content, "\n", "");
                }
            },
            XmlEvent::Empty(t) => {
                if str_eq(t.name.as_str(), "text:s") {
                    cell_content = text_append(cell_content, " ");
                }
            },
            XmlEvent::End(n) => {
                closed = str_eq(n.as_str(), xml_tag.name.as_str());
            },
        }
        p += 1;
    }
    if !closed {
        return Ok((col, p));
    }
    cell.value = parse_value(value_type, value, cell_content, currency, row, col)?;
    let next = store_cell(sheet, row, col, repeat, &cell)?;
    Ok((next, p))
}

/// Whether the tag of a cell without content declares anything that makes a
/// cell: a formula, a style or a span.
pub open spec fn declares_cell(t: XmlTagView) -> bool {
    t.attr("table:formula"@) is Some || t.attr("table:style-name"@) is Some || t.attr(
        "table:number-rows-spanned"@,
    ) is Some || t.attr("table:number-columns-spanned"@) is Some
}

/// The sheet after a cell without content at (`row`, `col`), and the column
/// behind it. A tag that declares a formula, a style or a span stores a
/// cell, as often as it is repeated. Any other tag stores nothing and only
/// moves on by its repeat count.
pub open spec fn empty_cell_element(sheet: SheetView, t: XmlTagView, row: u32, col: u32) -> Result<
    (SheetView, u32),
    OdsErrorView,
> {
    match count_attr(t, "table:number-columns-repeated"@) {
        Err(e) => Err(e),
        Ok(repeat) => if declares_cell(t) {
            match count_attr(t, "table:number-rows-spanned"@) {
                Err(e) => Err(e),
                Ok(row_span) => match count_attr(t, "table:number-columns-spanned"@) {
                    Err(e) => Err(e),
                    Ok(col_span) => place_cell(
                        sheet,
                        row,
                        col,
                        repeat,
                        SCellView {
                            value: ValueView::Empty,
                            style: t.attr("table:style-name"@),
                            formula: t.attr("table:formula"@),
                            row_span,
                            col_span,
                        },
                    ),
                },
            }
        } else if col + repeat > u32::MAX {
            Err(OdsErrorView::Ods(col_overflow_message()))
        } else {
            Ok((sheet, (col + repeat) as u32))
        },
    }
}

/// Reads a cell without content at (`row`, `col`) into the sheet. Returns
/// the column behind it. Where it fails, the sheet stays as it was.
pub fn read_empty_table_cell(sheet: &mut Sheet, xml_tag: &XmlTag, row: u32, col: u32) -> (r: Result<
    u32,
    OdsError,
>)
    ensures
        match r {
            Ok(c) => empty_cell_element(old(sheet)@, xml_tag@, row, col) == Ok::<
                (SheetView, u32),
                OdsErrorView,
            >((final(sheet)@, c)),
            Err(e) => empty_cell_element(old(sheet)@, xml_tag@, row, col) == Err::<
                (SheetView, u32),
                OdsErrorView,
            >(e@) && final(sheet)@ == old(sheet)@,
        },
{
    let cell_repeat = read_count(xml_tag, "table:number-columns-repeated")?;
    let formula = copy_attr(xml_tag, "table:formula");
    let style = copy_attr(xml_tag, "table:style-name");
    let has_spans = xml_tag.attr("table:number-rows-spanned").is_some() || xml_tag.attr(
        "table:number-columns-spanned",
    ).is_some();
    if formula.is_some() || style.is_some() || has_spans {
        let row_span = read_count(xml_tag, "table:number-rows-spanned")?;
        let col_span = read_count(xml_tag, "table:number-columns-spanned")?;
        let cell = SCell { value: Value::Empty, style, formula, row_span, col_span };
        store_cell(sheet, row, col, cell_repeat, &cell)
    } else if cell_repeat > u32::MAX - col {
        Err(OdsError::Ods("Column index out of range".to_owned()))
    } else {
        Ok(col + cell_repeat)
    }
}

/// A column declaration that is repeated `n` times gives `n` columns side by
/// side: every one of them carries the declared style and default cell
/// style, no other column is touched, and the next column to be declared
/// lies `n` further on.
pub proof fn lemma_column_repeat(sheet: SheetView, t: XmlTagView, tcol: u32, n: u32)
    requires
        count_attr(t, "table:number-columns-repeated"@) == Ok::<u32, OdsErrorView>(n),
        tcol + n <= u32::MAX,
    ensures
        column_element(sheet, t, tcol) matches Ok((after, next)) && {
            &&& next == tcol + n
            &&& after.cells == sheet.cells
            &&& forall|c: u32|
                #![trigger after.col_style[c]]
                #![trigger after.col_cell_style[c]]
                tcol <= c < tcol + n ==> {
                    &&& t.attr("table:style-name"@) matches Some(v)
                        ==> after.col_style.contains_key(c) && after.col_style[c] == v
                    &&& t.attr("table:default-cell-style-name"@) matches Some(v)
                        ==> after.col_cell_style.contains_key(c) && after.col_cell_style[c] == v
                }
            &&& forall|c: u32|
                #![trigger after.col_style[c]]
                #![trigger after.col_cell_style[c]]
                !(tcol <= c < tcol + n) ==> {
                    &&& after.col_style.contains_key(c) == sheet.col_style.contains_key(c)
                    &&& after.col_cell_style.contains_key(c) == sheet.col_cell_style.contains_key(
                        c,
                    )
                    &&& sheet.col_style.contains_key(c) ==> after.col_style[c]
                        == sheet.col_style[c]
                    &&& sheet.col_cell_style.contains_key(c) ==> after.col_cell_style[c]
                        == sheet.col_cell_style[c]
                }
        },
{
}

/// A cell without content that declares no formula, style or span and is
/// repeated `n` times stores no cell: the sheet stays as it is, and the next
/// cell lies `n` columns further on.
pub proof fn lemma_empty_cell_economy(sheet: SheetView, t: XmlTagView, row: u32, col: u32, n: u32)
    requires
        !declares_cell(t),
        count_attr(t, "table:number-columns-repeated"@) == Ok::<u32, OdsErrorView>(n),
        col + n <= u32::MAX,
    ensures
        empty_cell_element(sheet, t, row, col) == Ok::<(SheetView, u32), OdsErrorView>(
            (sheet, (col + n) as u32),
        ),
{
}

/// A cell that is stored once carries its spans at its own position, and
/// nothing is stored at any other position: the positions that the merged
/// area covers hold what they held before.
pub proof fn lemma_stored_span_is_anchored(
    sheet: SheetView,
    row: u32,
    col: u32,
    repeat: u32,
    cell: SCellView,
)
    requires
        repeat <= 1,
        col + 1 <= u32::MAX,
    ensures
        place_cell(sheet, row, col, repeat, cell) matches Ok((after, next)) && {
            &&& next == col + 1
            &&& after.cell_or_empty(row, col) == cell
            &&& forall|r: u32, c: u32|
                #![trigger after.cell_or_empty(r, c)]
                (r, c) != (row, col) ==> {
                    &&& after.cells.contains_key((r, c)) == sheet.cells.contains_key((r, c))
                    &&& after.cell_or_empty(r, c) == sheet.cell_or_empty(r, c)
                }
        },
{
}

/// A cell that is repeated `n` times, at least once, is stored at `n`
/// positions side by side, each copy equal to the cell, and nowhere else.
pub proof fn lemma_repeated_cell(
    sheet: SheetView,
    row: u32,
    col: u32,
    repeat: u32,
    cell: SCellView,
)
    requires
        col + cell_count(repeat) <= u32::MAX,
    ensures
        place_cell(sheet, row, col, repeat, cell) matches Ok((after, next)) && {
            &&& next == col + cell_count(repeat)
            &&& forall|c: u32|
                #![trigger after.cell_or_empty(row, c)]
                col <= c < col + cell_count(repeat) ==> after.cell_or_empty(row, c) == cell
            &&& forall|r: u32, c: u32|
                #![trigger after.cell_or_empty(r, c)]
                !(r == row && col <= c < col + cell_count(repeat)) ==> after.cell_or_empty(r, c)
                    == sheet.cell_or_empty(r, c)
        },
{
}

} // verus!
