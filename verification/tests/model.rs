use spreadsheet_ods::composit::{Composit, CompositTag, CompositVec};
use spreadsheet_ods::format::{FormatPart, FormatPartType, ValueFormat};
use spreadsheet_ods::io::markup::{read_composit, read_headerfooter};
use spreadsheet_ods::namemap::NameMap;
use spreadsheet_ods::refs::parse_cellranges;
use spreadsheet_ods::sheet::{ColRange, RowRange, SCell, Sheet};
use spreadsheet_ods::style::{
    FontDecl, OriginMap, PageLayout, Style, StyleFor, StyleOrigin, StyleUse,
};
use spreadsheet_ods::text::TextTag;
use spreadsheet_ods::value::{Value, ValueType};
use spreadsheet_ods::workbook::WorkBook;
use spreadsheet_ods::xml::{tokenize, XmlEvent};

#[test]
fn name_map_keeps_order_and_replaces() {
    let mut m: NameMap<String> = NameMap::new();
    assert_eq!(m.len(), 0);
    assert!(!m.contains("a"));
    m.insert(String::from("a"), String::from("1"));
    m.insert(String::from("b"), String::from("2"));
    m.insert(String::from("c"), String::from("3"));
    m.insert(String::from("b"), String::from("4"));
    assert_eq!(m.len(), 3);
    assert_eq!(m.name_at(0), "a");
    assert_eq!(m.name_at(1), "b");
    assert_eq!(m.name_at(2), "c");
    assert_eq!(m.value_at(1), "4");
    assert_eq!(m.get("b"), Some(&String::from("4")));
    assert_eq!(m.get("d"), None);
    assert_eq!(m.position("c"), Some(2));
    assert_eq!(m.position("x"), None);
    assert!(m.contains("a"));
    let old = m.replace_at(0, String::from("9"));
    assert_eq!(old, "1");
    assert_eq!(m.get("a"), Some(&String::from("9")));
    assert_eq!(m.name_at(0), "a");
    assert_eq!(m.len(), 3);
}

#[test]
fn name_map_bulk_inserts() {
    let mut more: NameMap<String> = NameMap::new();
    more.insert(String::from("x"), String::from("1"));
    more.insert(String::from("skip"), String::from("2"));
    more.insert(String::from("y"), String::from("3"));
    let mut all: NameMap<String> = NameMap::new();
    all.insert(String::from("y"), String::from("0"));
    all.insert_all(&more);
    assert_eq!(all.len(), 3);
    assert_eq!(all.name_at(0), "y");
    assert_eq!(all.get("y"), Some(&String::from("3")));
    assert_eq!(all.get("skip"), Some(&String::from("2")));
    let mut others: NameMap<String> = NameMap::new();
    others.insert_others(&more, "skip");
    assert_eq!(others.len(), 2);
    assert_eq!(others.get("skip"), None);
    assert_eq!(others.get("x"), Some(&String::from("1")));
}

#[test]
fn text_tag_attributes_in_place() {
    let mut tag = TextTag::new("text:span");
    tag.attr_map_mut().insert(String::from("text:style-name"), String::from("T1"));
    assert_eq!(tag.attr("text:style-name"), Some(&String::from("T1")));
    assert_eq!(tag.attr_map().len(), 1);
    assert_eq!(tag.tag(), "text:span");
}

#[test]
fn sheet_cells_are_sparse() {
    let mut sh = Sheet::new_with_name("s");
    assert_eq!(sh.name(), "s");
    assert!(sh.cell(0, 0).is_none());
    assert_eq!(sh.value(0, 0), Value::Empty);
    assert_eq!(sh.col_span(0, 0), 1);
    assert_eq!(sh.row_span(0, 0), 1);
    sh.set_value(0, 0, Value::Text(String::from("A")));
    sh.set_value(4294967295, 4294967295, Value::Boolean(true));
    sh.set_value(0, 1, Value::Text(String::from("B")));
    sh.set_value(1, 0, Value::Text(String::from("C")));
    assert_eq!(sh.value(0, 0), Value::Text(String::from("A")));
    assert_eq!(sh.value(0, 1), Value::Text(String::from("B")));
    assert_eq!(sh.value(1, 0), Value::Text(String::from("C")));
    assert_eq!(sh.value(4294967295, 4294967295), Value::Boolean(true));
    assert!(sh.cell(1, 1).is_none());
    assert!(sh.cell(4294967295, 0).is_none());
    sh.set_value(0, 0, Value::Text(String::from("Z")));
    assert_eq!(sh.value(0, 0), Value::Text(String::from("Z")));
}

#[test]
fn span_is_anchored() {
    let mut sh = Sheet::new();
    sh.set_value(2, 3, Value::Text(String::from("A")));
    sh.set_value(2, 4, Value::Text(String::from("B")));
    sh.set_col_span(2, 3, 4);
    assert_eq!(sh.col_span(2, 3), 4);
    assert_eq!(sh.row_span(2, 3), 1);
    assert_eq!(sh.value(2, 3), Value::Text(String::from("A")));
    // the covered positions hold what they held
    assert_eq!(sh.value(2, 4), Value::Text(String::from("B")));
    assert_eq!(sh.col_span(2, 4), 1);
    assert!(sh.cell(2, 5).is_none());
    assert!(sh.cell(2, 6).is_none());
    sh.set_row_span(7, 7, 3);
    assert_eq!(sh.row_span(7, 7), 3);
    assert_eq!(sh.value(7, 7), Value::Empty);
    assert!(sh.cell(8, 7).is_none());
    assert!(sh.cell(9, 7).is_none());
}

#[test]
fn sheet_cell_ranges() {
    let mut sh = Sheet::new();
    let mut cell = SCell::new();
    cell.style = Some(String::from("ce"));
    sh.add_cell(0, 5, SCell::new());
    sh.add_cells(0, 2, 3, &cell);
    for c in 2..5 {
        assert_eq!(sh.cell(0, c).unwrap().style, Some(String::from("ce")));
    }
    assert!(sh.cell(0, 1).is_none());
    assert_eq!(sh.cell(0, 5).unwrap().style, None);
    sh.add_cells(1, 0, 0, &cell);
    assert!(sh.cell(1, 0).is_none());
    let copy = sh.cell_or_empty(0, 2);
    assert_eq!(copy.style, Some(String::from("ce")));
    assert_eq!(sh.cell_or_empty(9, 9).value, Value::Empty);
    let again = copy.copy();
    assert_eq!(again.style, copy.style);
    assert_eq!((again.row_span, again.col_span), (1, 1));
}

#[test]
fn sheet_declarations() {
    let mut sh = Sheet::new();
    sh.set_style(String::from("ta1"));
    sh.set_column_style(1, String::from("co1"));
    sh.set_column_styles(3, 2, "co2");
    sh.set_column_cell_style(1, String::from("ce1"));
    sh.set_column_cell_styles(0, 1, "ce0");
    sh.set_header_rows(RowRange { from: 0, to: 1 });
    sh.set_header_cols(ColRange { from: 2, to: 2 });
    sh.set_print_ranges(vec![String::from("a.A1:a.B2")]);
    assert_eq!(sh.style(), &Some(String::from("ta1")));
    assert_eq!(sh.column_style(0), None);
    assert_eq!(sh.column_style(1), Some(&String::from("co1")));
    assert_eq!(sh.column_style(3), Some(&String::from("co2")));
    assert_eq!(sh.column_style(4), Some(&String::from("co2")));
    assert_eq!(sh.column_style(5), None);
    assert_eq!(sh.column_cell_style(0), Some(&String::from("ce0")));
    assert_eq!(sh.column_cell_style(1), Some(&String::from("ce1")));
    assert_eq!(sh.column_cell_style(2), None);
    assert_eq!(sh.header_rows(), Some(RowRange { from: 0, to: 1 }));
    assert_eq!(sh.header_cols(), Some(ColRange { from: 2, to: 2 }));
    assert_eq!(sh.print_ranges(), &vec![String::from("a.A1:a.B2")]);
}

#[test]
fn cell_ranges_are_split_at_spaces() {
    assert_eq!(parse_cellranges(""), Vec::<String>::new());
    assert_eq!(parse_cellranges("   "), Vec::<String>::new());
    assert_eq!(parse_cellranges("a.A1:a.B2"), vec![String::from("a.A1:a.B2")]);
    assert_eq!(
        parse_cellranges(" a.A1:a.B2  b.C3 "),
        vec![String::from("a.A1:a.B2"), String::from("b.C3")]
    );
    assert_eq!(
        parse_cellranges("'my sheet'.A1:'my sheet'.B2 c.D4"),
        vec![String::from("'my sheet'.A1:'my sheet'.B2"), String::from("c.D4")]
    );
    assert_eq!(parse_cellranges("'open end"), vec![String::from("'open end")]);
}

#[test]
fn workbook_keeps_origins_apart() {
    let mut wb = WorkBook::new();
    assert_eq!(wb.num_sheets(), 0);
    let mut a = Style::new_origin(StyleOrigin::Content, StyleUse::Automatic);
    a.name = String::from("s");
    a.family = Some(StyleFor::TableCell);
    let mut b = Style::new_origin(StyleOrigin::Styles, StyleUse::Named);
    b.name = String::from("s");
    b.family = Some(StyleFor::Table);
    wb.add_style(a);
    wb.add_style(b);
    assert_eq!(wb.style(StyleOrigin::Content, "s").unwrap().family, Some(StyleFor::TableCell));
    assert_eq!(wb.style(StyleOrigin::Styles, "s").unwrap().family, Some(StyleFor::Table));
    assert!(wb.style(StyleOrigin::Styles, "t").is_none());

    let mut f = ValueFormat::new_origin(StyleOrigin::Styles, StyleUse::Named);
    f.name = String::from("N");
    f.v_type = ValueType::Number;
    f.push_part(FormatPart::new(FormatPartType::Number));
    f.push_part(FormatPart::new(FormatPartType::Text));
    wb.add_format(f);
    let f = wb.format(StyleOrigin::Styles, "N").unwrap();
    assert_eq!(f.parts.len(), 2);
    assert_eq!(f.parts[1].part_type, FormatPartType::Text);
    assert!(wb.format(StyleOrigin::Content, "N").is_none());

    let mut font = FontDecl::new_origin(StyleOrigin::Content);
    font.name = String::from("F");
    wb.add_font(font);
    assert!(wb.font(StyleOrigin::Content, "F").is_some());
    assert!(wb.font(StyleOrigin::Styles, "F").is_none());

    wb.add_pagelayout(PageLayout::new(String::from("P")));
    let mut again = PageLayout::new(String::from("P"));
    again.masterpage_name = Some(String::from("M"));
    wb.add_pagelayout(again);
    assert_eq!(wb.pagelayout("P").unwrap().masterpage_name, Some(String::from("M")));
    assert!(wb.pagelayout("Q").is_none());

    wb.push_sheet(Sheet::new_with_name("one"));
    wb.push_sheet(Sheet::new_with_name("two"));
    assert_eq!(wb.num_sheets(), 2);
    assert_eq!(wb.sheet(1).name(), "two");
}

#[test]
fn origin_map() {
    let mut m: OriginMap<String> = OriginMap::new();
    m.insert(StyleOrigin::Content, String::from("k"), String::from("c"));
    m.insert(StyleOrigin::Styles, String::from("k"), String::from("s"));
    assert_eq!(m.get(StyleOrigin::Content, "k"), Some(&String::from("c")));
    assert_eq!(m.get(StyleOrigin::Styles, "k"), Some(&String::from("s")));
    assert_eq!(m.get(StyleOrigin::Styles, "x"), None);
}

#[test]
fn composit_builders() {
    let mut tag = CompositTag::new("text:span");
    tag.set_attr("a", String::from("1"));
    assert_eq!(tag.tag, "text:span");
    assert_eq!(tag.attr.get("a"), Some(&String::from("1")));
    let mut cv = CompositVec::new();
    assert!(cv.is_empty());
    cv.push(Composit::Start(tag));
    cv.push(Composit::Text(String::from("t")));
    cv.push(Composit::End(String::from("text:span")));
    assert_eq!(cv.vec().len(), 3);
    assert!(!cv.is_empty());
}

fn events(xml: &str) -> Vec<XmlEvent> {
    tokenize(xml.as_bytes()).unwrap()
}

#[test]
fn markup_is_kept_up_to_the_closing_tag() {
    let ev = events(
        "<style:region-left><text:p a=\"1\">x<text:tab/></text:p>y</style:region-left><z/>",
    );
    // the reader of the events checks closing tags, so build the stray one by hand
    let mut ev = ev;
    ev.insert(5, XmlEvent::End(String::from("other")));
    let (cv, pos) = read_composit(&ev, 1, "style:region-left");
    let v = cv.vec();
    assert_eq!(v.len(), 6);
    assert!(matches!(&v[0], Composit::Start(t) if t.tag == "text:p" && t.attr.get("a") == Some(&String::from("1"))));
    assert!(matches!(&v[1], Composit::Text(t) if t == "x"));
    assert!(matches!(&v[2], Composit::Empty(t) if t.tag == "text:tab"));
    assert!(matches!(&v[3], Composit::End(t) if t == "text:p"));
    assert!(matches!(&v[4], Composit::End(t) if t == "other"));
    assert!(matches!(&v[5], Composit::Text(t) if t == "y"));
    assert_eq!(pos, ev.len() - 1);

    // without the closing tag everything is taken
    let (cv, pos) = read_composit(&ev, 1, "style:region-right");
    assert_eq!(cv.vec().len(), ev.len() - 1);
    assert_eq!(pos, ev.len());
    let (cv, pos) = read_composit(&ev, ev.len(), "x");
    assert!(cv.is_empty());
    assert_eq!(pos, ev.len());
}

#[test]
fn header_footer_regions() {
    let ev = events(
        "<style:footer><style:region-right><text:p>r</text:p></style:region-right>\
         <unknown><text:p>inner</text:p></unknown><style:region-center/>\
         </style:footer><after/>",
    );
    let (hf, pos) = read_headerfooter(&ev, 1, "style:footer");
    assert_eq!(pos, ev.len() - 1);
    assert_eq!(hf.region_right.vec().len(), 3);
    assert!(hf.region_left.is_empty());
    assert!(hf.region_center.is_empty());
    // a paragraph anywhere below the footer is its content
    assert_eq!(hf.content.vec().len(), 1);
    assert!(matches!(&hf.content.vec()[0], Composit::Text(t) if t == "inner"));
}

#[test]
fn name_map_clone_is_a_copy() {
    let mut m: NameMap<String> = NameMap::new();
    m.insert(String::from("a"), String::from("1"));
    m.insert(String::from("b"), String::from("2"));
    let mut c = m.clone();
    assert_eq!(c.len(), 2);
    assert_eq!(c.name_at(0), "a");
    assert_eq!(c.get("b"), Some(&String::from("2")));
    c.insert(String::from("a"), String::from("3"));
    assert_eq!(m.get("a"), Some(&String::from("1")));
    assert_eq!(c.get("a"), Some(&String::from("3")));
    assert_eq!(c.len(), 2);
}
