use spreadsheet_ods::composit::Composit;
use spreadsheet_ods::error::OdsError;
use spreadsheet_ods::format::FormatPartType;
use spreadsheet_ods::io::read::{read_content, read_styles, read_workbook};
use spreadsheet_ods::io::table::{
    read_empty_table_cell, read_table_cell, read_table_column, read_table_row_attr, text_append,
    text_append_or,
};
use spreadsheet_ods::sheet::{ColRange, RowRange, Sheet};
use spreadsheet_ods::style::{StyleFor, StyleOrigin, StyleUse};
use spreadsheet_ods::value::{Value, ValueType};
use spreadsheet_ods::workbook::WorkBook;
use spreadsheet_ods::xml::{structural_event, tokenize, RawEvent, XmlEvent, XmlTag};

fn events(xml: &str) -> Vec<XmlEvent> {
    tokenize(xml.as_bytes()).unwrap()
}

fn content(xml: &str) -> Result<WorkBook, OdsError> {
    read_workbook(&events(xml), &Vec::new())
}

fn tag(name: &str, attrs: &[(&str, &str)]) -> XmlTag {
    let mut t = XmlTag::new(name);
    for (k, v) in attrs {
        t.set_attr(k, v);
    }
    t
}

#[test]
fn tokenizer_yields_structure() {
    let ev = events("<?xml version=\"1.0\"?><a x=\"1\" y='&lt;2'> t &amp; u <b/><!-- c --></a>");
    assert_eq!(ev.len(), 4);
    match &ev[0] {
        XmlEvent::Start(t) => {
            assert_eq!(t.name, "a");
            assert_eq!(t.attr("x"), Some(&String::from("1")));
            assert_eq!(t.attr("y"), Some(&String::from("<2")));
            assert_eq!(t.attr("z"), None);
        }
        other => panic!("unexpected {:?}", other),
    }
    assert!(matches!(&ev[1], XmlEvent::Text(t) if t == "t & u"));
    assert!(matches!(&ev[2], XmlEvent::Empty(t) if t.name == "b"));
    assert!(matches!(&ev[3], XmlEvent::End(n) if n == "a"));
}

#[test]
fn tokenizer_reports_bad_xml() {
    assert!(matches!(tokenize(b"<a></b>"), Err(OdsError::Xml(_))));
    assert!(matches!(tokenize(b"<a x=1/>"), Err(OdsError::Xml(_))));
    assert!(matches!(tokenize(b"<a>&nosuch;</a>"), Err(OdsError::Xml(_))));
    assert_eq!(tokenize(b"").unwrap().len(), 0);
    assert_eq!(tokenize(b"   \n ").unwrap().len(), 0);
}

#[test]
fn column_repeat_expands() {
    let mut sheet = Sheet::new();
    let t = tag(
        "table:table-column",
        &[
            ("table:style-name", "co1"),
            ("table:default-cell-style-name", "ce1"),
            ("table:number-columns-repeated", "3"),
        ],
    );
    let next = read_table_column(&t, 2, &mut sheet).unwrap();
    assert_eq!(next, 5);
    for c in 2..5 {
        assert_eq!(sheet.column_style(c), Some(&String::from("co1")));
        assert_eq!(sheet.column_cell_style(c), Some(&String::from("ce1")));
    }
    assert_eq!(sheet.column_style(1), None);
    assert_eq!(sheet.column_style(5), None);
    assert_eq!(sheet.column_cell_style(5), None);
}

#[test]
fn column_without_style_only_counts() {
    let mut sheet = Sheet::new();
    let next = read_table_column(&tag("table:table-column", &[]), 7, &mut sheet).unwrap();
    assert_eq!(next, 8);
    assert_eq!(sheet.column_style(7), None);
    let t = tag("table:table-column", &[("table:number-columns-repeated", "0")]);
    assert_eq!(read_table_column(&t, 7, &mut sheet).unwrap(), 7);
}

#[test]
fn column_errors() {
    let mut sheet = Sheet::new();
    let t = tag("table:table-column", &[("table:number-columns-repeated", "many")]);
    assert!(matches!(
        read_table_column(&t, 0, &mut sheet),
        Err(OdsError::ParseInt(v)) if v == "many"
    ));
    let t = tag("table:table-column", &[("table:number-columns-repeated", "4294967295")]);
    assert!(matches!(
        read_table_column(&t, 1, &mut sheet),
        Err(OdsError::Ods(m)) if m == "Column index out of range"
    ));
}

#[test]
fn row_attributes() {
    let t = tag(
        "table:table-row",
        &[("table:number-rows-repeated", "12"), ("table:style-name", "ro1")],
    );
    assert_eq!(read_table_row_attr(&t).unwrap(), (12, Some(String::from("ro1"))));
    assert_eq!(read_table_row_attr(&tag("table:table-row", &[])).unwrap(), (1, None));
    let t = tag("table:table-row", &[("table:number-rows-repeated", "-1")]);
    assert!(matches!(read_table_row_attr(&t), Err(OdsError::ParseInt(_))));
}

#[test]
fn row_repeat_advances_the_row() {
    let wb = content(
        "<table:table table:name=\"s\">\
         <table:table-row table:number-rows-repeated=\"5\"><table:table-cell/></table:table-row>\
         <table:table-row><table:table-cell office:value-type=\"string\"><text:p>x</text:p>\
         </table:table-cell></table:table-row></table:table>",
    )
    .unwrap();
    let sh = wb.sheet(0);
    assert_eq!(sh.value(5, 0), Value::Text(String::from("x")));
    assert!(sh.cell(0, 0).is_none());
    assert!(sh.cell(4, 0).is_none());
    assert!(sh.cell(6, 0).is_none());
}

#[test]
fn row_index_out_of_range() {
    let r = content(
        "<table:table><table:table-row table:number-rows-repeated=\"4294967295\">\
         </table:table-row><table:table-row></table:table-row></table:table>",
    );
    assert!(matches!(r, Err(OdsError::Ods(m)) if m == "Row index out of range"));
}

#[test]
fn empty_cell_economy() {
    let mut sheet = Sheet::new();
    let t = tag("table:table-cell", &[("table:number-columns-repeated", "1000")]);
    assert_eq!(read_empty_table_cell(&mut sheet, &t, 3, 4).unwrap(), 1004);
    for c in [0u32, 4, 5, 500, 1003, 1004] {
        assert!(sheet.cell(3, c).is_none());
    }
    let t = tag("table:table-cell", &[]);
    assert_eq!(read_empty_table_cell(&mut sheet, &t, 3, 4).unwrap(), 5);
    assert!(sheet.cell(3, 4).is_none());
    let t = tag("table:table-cell", &[("table:number-columns-repeated", "0")]);
    assert_eq!(read_empty_table_cell(&mut sheet, &t, 3, 4).unwrap(), 4);
}

#[test]
fn empty_cell_with_style_is_stored() {
    let mut sheet = Sheet::new();
    let t = tag(
        "table:table-cell",
        &[("table:style-name", "ce2"), ("table:number-columns-repeated", "3")],
    );
    assert_eq!(read_empty_table_cell(&mut sheet, &t, 1, 1).unwrap(), 4);
    for c in 1..4 {
        let cell = sheet.cell(1, c).unwrap();
        assert_eq!(cell.style, Some(String::from("ce2")));
        assert_eq!(cell.value, Value::Empty);
        assert_eq!((cell.row_span, cell.col_span), (1, 1));
    }
    assert!(sheet.cell(1, 0).is_none());
    assert!(sheet.cell(1, 4).is_none());
}

#[test]
fn empty_cell_with_formula_or_span_is_stored() {
    let mut sheet = Sheet::new();
    let t = tag("table:covered-table-cell", &[("table:formula", "of:=1+1")]);
    assert_eq!(read_empty_table_cell(&mut sheet, &t, 0, 0).unwrap(), 1);
    assert_eq!(sheet.cell(0, 0).unwrap().formula, Some(String::from("of:=1+1")));
    let t = tag(
        "table:table-cell",
        &[("table:number-rows-spanned", "3"), ("table:number-columns-spanned", "2")],
    );
    assert_eq!(read_empty_table_cell(&mut sheet, &t, 0, 1).unwrap(), 2);
    assert_eq!(sheet.row_span(0, 1), 3);
    assert_eq!(sheet.col_span(0, 1), 2);
    assert!(sheet.cell(0, 2).is_none());
    assert!(sheet.cell(1, 1).is_none());
}

#[test]
fn empty_cell_errors() {
    let mut sheet = Sheet::new();
    let t = tag("table:table-cell", &[("table:number-columns-repeated", "x")]);
    assert!(matches!(read_empty_table_cell(&mut sheet, &t, 0, 0), Err(OdsError::ParseInt(_))));
    let t = tag("table:table-cell", &[("table:number-columns-spanned", "")]);
    assert!(matches!(read_empty_table_cell(&mut sheet, &t, 0, 0), Err(OdsError::ParseInt(_))));
    let t = tag("table:table-cell", &[("table:number-columns-repeated", "2")]);
    assert!(matches!(
        read_empty_table_cell(&mut sheet, &t, 0, 4294967294),
        Err(OdsError::Ods(m)) if m == "Column index out of range"
    ));
    let t = tag("table:table-cell", &[("table:style-name", "s")]);
    assert!(matches!(
        read_empty_table_cell(&mut sheet, &t, 0, 4294967295),
        Err(OdsError::Ods(m)) if m == "Column index out of range"
    ));
}

#[test]
fn cell_with_content() {
    let ev = events(
        "<table:table-cell office:value-type=\"string\" table:style-name=\"ce1\" \
         table:formula=\"of:=A1\" table:number-columns-repeated=\"2\">\
         <text:p>one<text:s/>two</text:p><text:p><text:a>three</text:a></text:p>\
         </table:table-cell><next/>",
    );
    let mut sheet = Sheet::new();
    let t = match &ev[0] {
        XmlEvent::Start(t) => t.clone(),
        other => panic!("unexpected {:?}", other),
    };
    let (col, pos) = read_table_cell(&mut sheet, &ev, 1, &t, 2, 3).unwrap();
    assert_eq!(col, 5);
    assert_eq!(pos, ev.len() - 1);
    for c in 3..5 {
        let cell = sheet.cell(2, c).unwrap();
        assert_eq!(cell.value, Value::Text(String::from("one two\nthree")));
        assert_eq!(cell.style, Some(String::from("ce1")));
        assert_eq!(cell.formula, Some(String::from("of:=A1")));
    }
    assert!(sheet.cell(2, 5).is_none());
    assert!(sheet.cell(2, 2).is_none());
}

#[test]
fn cell_values_by_type() {
    let wb = content(
        "<table:table><table:table-row>\
         <table:table-cell office:value-type=\"float\" office:value=\"1.5\"><text:p>1,5</text:p></table:table-cell>\
         <table:table-cell office:value-type=\"percentage\" office:value=\"0.5\"><text:p>50%</text:p></table:table-cell>\
         <table:table-cell office:value-type=\"currency\" office:currency=\"EUR\" office:value=\"2\"><text:p>2 €</text:p></table:table-cell>\
         <table:table-cell office:value-type=\"boolean\" office:boolean-value=\"true\"><text:p>TRUE</text:p></table:table-cell>\
         <table:table-cell office:value-type=\"date\" office:date-value=\"2020-01-02\"><text:p>x</text:p></table:table-cell>\
         <table:table-cell office:value-type=\"date\" office:date-value=\"2020-01-02T03:04:05\"><text:p>x</text:p></table:table-cell>\
         <table:table-cell office:value-type=\"time\" office:time-value=\"PT1H30M0.000000000S\"><text:p>x</text:p></table:table-cell>\
         <table:table-cell><text:p>untyped</text:p></table:table-cell>\
         </table:table-row></table:table>",
    )
    .unwrap();
    let sh = wb.sheet(0);
    assert_eq!(sh.value(0, 0), Value::Number(String::from("1.5")));
    assert_eq!(sh.value(0, 1), Value::Percentage(String::from("0.5")));
    assert_eq!(sh.value(0, 2), Value::Currency(String::from("EUR"), String::from("2")));
    assert_eq!(sh.value(0, 3), Value::Boolean(true));
    match sh.value(0, 4) {
        Value::DateTime(d) => {
            assert_eq!((d.date.year, d.date.month, d.date.day), (2020, 1, 2));
            assert_eq!((d.time.hour, d.time.minute, d.time.second, d.time.nanosecond), (0, 0, 0, 0));
        }
        other => panic!("unexpected {:?}", other),
    }
    match sh.value(0, 5) {
        Value::DateTime(d) => {
            assert_eq!((d.date.year, d.date.month, d.date.day), (2020, 1, 2));
            assert_eq!((d.time.hour, d.time.minute, d.time.second), (3, 4, 5));
        }
        other => panic!("unexpected {:?}", other),
    }
    match sh.value(0, 6) {
        Value::TimeDuration(d) => assert_eq!((d.seconds, d.nanoseconds), (5400, 0)),
        other => panic!("unexpected {:?}", other),
    }
    assert_eq!(sh.value(0, 7), Value::Empty);
    assert!(sh.cell(0, 7).is_some());
    assert_eq!(sh.value(0, 8), Value::Empty);
    assert!(sh.cell(0, 8).is_none());
}

#[test]
fn cell_errors() {
    let r = content(
        "<table:table><table:table-row><table:table-cell/>\
         <table:table-cell office:value-type=\"float\"><text:p>1</text:p></table:table-cell>\
         </table:table-row></table:table>",
    );
    assert!(matches!(r, Err(OdsError::Ods(m)) if m == "B1 has type number, but no value!"));
    let r = content(
        "<table:table><table:table-row>\
         <table:table-cell office:value-type=\"complex\"><text:p>1</text:p></table:table-cell>\
         </table:table-row></table:table>",
    );
    assert!(matches!(r, Err(OdsError::Ods(m)) if m == "Unknown cell-type complex"));
    let r = content(
        "<table:table><table:table-row>\
         <table:table-cell table:number-rows-spanned=\"two\"><text:p>1</text:p></table:table-cell>\
         </table:table-row></table:table>",
    );
    assert!(matches!(r, Err(OdsError::ParseInt(v)) if v == "two"));
    let r = content(
        "<table:table><table:table-row>\
         <table:table-cell office:value-type=\"date\" office:date-value=\"2020-13-01\"><text:p>1</text:p></table:table-cell>\
         </table:table-row></table:table>",
    );
    assert!(matches!(r, Err(OdsError::Chrono(_))));
    let r = content(
        "<table:table><table:table-row>\
         <table:table-cell office:value-type=\"time\" office:time-value=\"PT99999999999H\"><text:p>1</text:p></table:table-cell>\
         </table:table-row></table:table>",
    );
    assert!(matches!(r, Err(OdsError::Duration(v)) if v == "PT99999999999H"));
}

#[test]
fn truncated_cell_is_not_stored() {
    let all = events(
        "<table:table-cell office:value-type=\"string\"><text:p>x</text:p></table:table-cell>",
    );
    let ev: Vec<XmlEvent> = all[..all.len() - 1].to_vec();
    let mut sheet = Sheet::new();
    let t = match &ev[0] {
        XmlEvent::Start(t) => t.clone(),
        other => panic!("unexpected {:?}", other),
    };
    let (col, pos) = read_table_cell(&mut sheet, &ev, 1, &t, 0, 0).unwrap();
    assert_eq!((col, pos), (0, ev.len()));
    assert!(sheet.cell(0, 0).is_none());
}

#[test]
fn truncated_table_is_not_part_of_the_workbook() {
    let all = events(
        "<table:table table:name=\"a\"><table:table-row><table:table-cell/></table:table-row>\
         </table:table><table:table table:name=\"b\"><table:table-row/></table:table>",
    );
    let mut ev = all.clone();
    ev.pop();
    let wb = read_workbook(&ev, &Vec::new()).unwrap();
    assert_eq!(wb.num_sheets(), 1);
    assert_eq!(wb.sheet(0).name(), "a");
    let wb = read_workbook(&all, &Vec::new()).unwrap();
    assert_eq!(wb.num_sheets(), 2);
    assert_eq!(wb.sheet(1).name(), "b");
}

#[test]
fn table_attributes_and_headers() {
    let wb = content(
        "<table:table table:name=\"Sheet 1\" table:style-name=\"ta1\" \
         table:print-ranges=\"'Sheet 1'.A1:'Sheet 1'.B2 $x.C3:$x.D4\">\
         <table:table-column/>\
         <table:table-header-columns><table:table-column table:number-columns-repeated=\"2\"/>\
         </table:table-header-columns>\
         <table:table-header-rows/>\
         <table:table-row><table:table-cell/></table:table-row>\
         <table:table-header-rows>\
         <table:table-row table:number-rows-repeated=\"3\"><table:table-cell/></table:table-row>\
         </table:table-header-rows>\
         </table:table>\
         <table:table table:name=\"second\"><table:table-column table:style-name=\"co\"/></table:table>",
    )
    .unwrap();
    assert_eq!(wb.num_sheets(), 2);
    let sh = wb.sheet(0);
    assert_eq!(sh.name(), "Sheet 1");
    assert_eq!(sh.style(), &Some(String::from("ta1")));
    assert_eq!(
        sh.print_ranges(),
        &vec![String::from("'Sheet 1'.A1:'Sheet 1'.B2"), String::from("$x.C3:$x.D4")]
    );
    assert_eq!(sh.header_cols(), Some(ColRange { from: 1, to: 2 }));
    assert_eq!(sh.header_rows(), Some(RowRange { from: 1, to: 3 }));
    let sh = wb.sheet(1);
    assert_eq!(sh.column_style(0), Some(&String::from("co")));
    assert_eq!(sh.column_style(3), None);
    assert_eq!(sh.header_cols(), None);
    assert_eq!(sh.header_rows(), None);
    assert_eq!(sh.print_ranges().len(), 0);
}

#[test]
fn text_appending() {
    assert_eq!(text_append(None, "a"), Some(String::from("a")));
    assert_eq!(text_append(Some(String::from("a")), "b"), Some(String::from("ab")));
    assert_eq!(text_append_or(None, "\n", ""), Some(String::new()));
    assert_eq!(text_append_or(Some(String::from("a")), "\n", ""), Some(String::from("a\n")));
}

const STYLES: &str = "<office:document-styles>\
 <office:font-face-decls>\
  <style:font-face style:name=\"Arial\" svg:font-family=\"Arial\" style:font-pitch=\"variable\"/>\
  <style:font-face style:name=\"Mono\" svg:font-family=\"Mono\"></style:font-face>\
 </office:font-face-decls>\
 <office:styles>\
  <style:style style:name=\"Default\" style:family=\"table-cell\">\
   <style:table-cell-properties fo:border=\"none\" style:rotation-align=\"none\"/>\
   <style:text-properties style:font-name=\"Arial\"/>\
   <style:paragraph-properties fo:text-align=\"end\"/>\
  </style:style>\
  <style:style style:name=\"bare\" style:family=\"table-row\" style:parent-style-name=\"Default\" style:data-style-name=\"N1\"/>\
  <style:style style:name=\"odd\" style:family=\"graphic\"><style:graphic-properties a=\"b\"/></style:style>\
  <number:currency-style style:name=\"N1\" style:volatile=\"true\">\
   <number:currency-symbol number:language=\"de\" number:country=\"AT\">€</number:currency-symbol>\
   <number:text> </number:text>\
   <number:number number:decimal-places=\"2\" number:min-integer-digits=\"1\"/>\
   <number:text/>\
   <style:map style:condition=\"value()&gt;=0\" style:apply-style-name=\"N1P0\"/>\
  </number:currency-style>\
  <number:date-style style:name=\"N2\"><number:day number:style=\"long\"/><number:text>.</number:text><number:month/></number:date-style>\
 </office:styles>\
 <office:automatic-styles>\
  <style:style style:name=\"co1\" style:family=\"table-column\"><style:table-column-properties style:column-width=\"2cm\"/></style:style>\
  <style:style style:name=\"ro1\" style:family=\"table-row\"><style:table-row-properties style:row-height=\"1cm\"/></style:style>\
  <style:style style:name=\"ta1\" style:family=\"table\"><style:table-properties table:display=\"true\"/></style:style>\
  <number:boolean-style style:name=\"N3\"><number:boolean/></number:boolean-style>\
  <style:page-layout style:name=\"Mpm1\">\
   <style:page-layout-properties style:writing-mode=\"lr-tb\"/>\
   <style:header-style><style:header-footer-properties fo:min-height=\"0.75cm\"/></style:header-style>\
   <style:footer-style><style:header-footer-properties fo:min-height=\"0.5cm\" fo:margin-top=\"0.25cm\"/></style:footer-style>\
  </style:page-layout>\
  <style:page-layout style:name=\"Mpm2\"><style:header-style/><style:footer-style>\
   <style:header-footer-properties fo:min-height=\"1cm\"/></style:footer-style></style:page-layout>\
 </office:automatic-styles>\
 <office:master-styles>\
  <style:master-page style:name=\"Default\" style:page-layout-name=\"Mpm1\">\
   <style:header><text:p><text:sheet-name>???</text:sheet-name></text:p></style:header>\
   <style:header-left style:display=\"false\"/>\
   <style:footer>\
    <style:region-left><text:p>left</text:p></style:region-left>\
    <style:region-center><text:p>Page <text:page-number>1</text:page-number></text:p></style:region-center>\
    <style:region-right><text:p><text:date style:data-style-name=\"N2\"/></text:p></style:region-right>\
   </style:footer>\
  </style:master-page>\
  <style:master-page style:name=\"Report\" style:page-layout-name=\"Mpm9\"/>\
 </office:master-styles>\
</office:document-styles>";

fn styles_book() -> WorkBook {
    read_workbook(&Vec::new(), &events(STYLES)).unwrap()
}

#[test]
fn fonts_are_read() {
    let wb = styles_book();
    let f = wb.font(StyleOrigin::Styles, "Arial").unwrap();
    assert_eq!(f.name, "Arial");
    assert_eq!(f.origin, StyleOrigin::Styles);
    assert_eq!(f.prp.len(), 2);
    assert_eq!(f.prp.get("svg:font-family"), Some(&String::from("Arial")));
    assert_eq!(f.prp.get("style:font-pitch"), Some(&String::from("variable")));
    assert_eq!(f.prp.get("style:name"), None);
    let f = wb.font(StyleOrigin::Styles, "Mono").unwrap();
    assert_eq!(f.origin, StyleOrigin::Styles);
    assert!(wb.font(StyleOrigin::Content, "Arial").is_none());
}

#[test]
fn styles_are_read() {
    let wb = styles_book();
    let s = wb.style(StyleOrigin::Styles, "Default").unwrap();
    assert_eq!(s.name, "Default");
    assert_eq!(s.origin, StyleOrigin::Styles);
    assert_eq!(s.styleuse, StyleUse::Named);
    assert_eq!(s.family, Some(StyleFor::TableCell));
    assert_eq!(s.parent, None);
    assert_eq!(s.value_format, None);
    assert_eq!(s.table_cell_prp.len(), 2);
    assert_eq!(s.table_cell_prp.get("fo:border"), Some(&String::from("none")));
    assert_eq!(s.table_cell_prp.get("style:rotation-align"), Some(&String::from("none")));
    assert_eq!(s.text_prp.get("style:font-name"), Some(&String::from("Arial")));
    assert_eq!(s.paragraph_prp.get("fo:text-align"), Some(&String::from("end")));
    assert_eq!(s.table_prp.len(), 0);

    let s = wb.style(StyleOrigin::Styles, "bare").unwrap();
    assert_eq!(s.family, Some(StyleFor::TableRow));
    assert_eq!(s.parent, Some(String::from("Default")));
    assert_eq!(s.value_format, Some(String::from("N1")));

    let s = wb.style(StyleOrigin::Styles, "odd").unwrap();
    assert_eq!(s.family, None);
    assert_eq!(s.table_prp.len() + s.text_prp.len() + s.paragraph_prp.len(), 0);

    let s = wb.style(StyleOrigin::Styles, "co1").unwrap();
    assert_eq!(s.styleuse, StyleUse::Automatic);
    assert_eq!(s.family, Some(StyleFor::TableColumn));
    assert_eq!(s.table_col_prp.get("style:column-width"), Some(&String::from("2cm")));
    let s = wb.style(StyleOrigin::Styles, "ro1").unwrap();
    assert_eq!(s.table_row_prp.get("style:row-height"), Some(&String::from("1cm")));
    let s = wb.style(StyleOrigin::Styles, "ta1").unwrap();
    assert_eq!(s.family, Some(StyleFor::Table));
    assert_eq!(s.table_prp.get("table:display"), Some(&String::from("true")));
    assert!(wb.style(StyleOrigin::Content, "co1").is_none());
}

#[test]
fn value_formats_are_read() {
    let wb = styles_book();
    let f = wb.format(StyleOrigin::Styles, "N1").unwrap();
    assert_eq!(f.name, "N1");
    assert_eq!(f.v_type, ValueType::Currency);
    assert_eq!(f.styleuse, StyleUse::Named);
    assert_eq!(f.prp.len(), 1);
    assert_eq!(f.prp.get("style:volatile"), Some(&String::from("true")));
    let kinds: Vec<FormatPartType> = f.parts.iter().map(|p| p.part_type).collect();
    assert_eq!(
        kinds,
        vec![
            FormatPartType::CurrencySymbol,
            FormatPartType::Text,
            FormatPartType::Number,
            FormatPartType::Text,
            FormatPartType::StyleMap,
        ]
    );
    assert_eq!(f.parts[0].content, Some(String::from("€")));
    assert_eq!(f.parts[0].prp.get("number:country"), Some(&String::from("AT")));
    // text that is all white space is trimmed away by the reader
    assert_eq!(f.parts[1].content, None);
    assert_eq!(f.parts[2].content, None);
    assert_eq!(f.parts[2].prp.get("number:decimal-places"), Some(&String::from("2")));
    assert_eq!(f.parts[3].content, None);
    assert_eq!(f.parts[4].prp.get("style:condition"), Some(&String::from("value()>=0")));

    let f = wb.format(StyleOrigin::Styles, "N2").unwrap();
    assert_eq!(f.v_type, ValueType::DateTime);
    let kinds: Vec<FormatPartType> = f.parts.iter().map(|p| p.part_type).collect();
    assert_eq!(kinds, vec![FormatPartType::Day, FormatPartType::Text, FormatPartType::Month]);
    assert_eq!(f.parts[1].content, Some(String::from(".")));

    let f = wb.format(StyleOrigin::Styles, "N3").unwrap();
    assert_eq!(f.v_type, ValueType::Boolean);
    assert_eq!(f.styleuse, StyleUse::Automatic);
    assert_eq!(f.parts.len(), 1);
    assert_eq!(f.parts[0].part_type, FormatPartType::Boolean);
}

#[test]
fn page_layouts_are_read() {
    let wb = styles_book();
    let pl = wb.pagelayout("Mpm1").unwrap();
    assert_eq!(pl.name, "Mpm1");
    assert_eq!(pl.prp.get("style:writing-mode"), Some(&String::from("lr-tb")));
    assert_eq!(pl.header_prp.len(), 1);
    assert_eq!(pl.header_prp.get("fo:min-height"), Some(&String::from("0.75cm")));
    assert_eq!(pl.footer_prp.len(), 2);
    assert_eq!(pl.footer_prp.get("fo:min-height"), Some(&String::from("0.5cm")));
    assert_eq!(pl.footer_prp.get("fo:margin-top"), Some(&String::from("0.25cm")));

    let pl = wb.pagelayout("Mpm2").unwrap();
    assert_eq!(pl.header_prp.len(), 0);
    assert_eq!(pl.footer_prp.get("fo:min-height"), Some(&String::from("1cm")));
    assert_eq!(pl.masterpage_name, None);
}

#[test]
fn master_pages_are_read() {
    let wb = styles_book();
    let pl = wb.pagelayout("Mpm1").unwrap();
    assert_eq!(pl.masterpage_name, Some(String::from("Default")));
    // the layout keeps what the page layout declared
    assert_eq!(pl.prp.get("style:writing-mode"), Some(&String::from("lr-tb")));

    let header = pl.header.as_ref().unwrap();
    let content = header.content.vec();
    assert_eq!(content.len(), 3);
    assert!(matches!(&content[0], Composit::Start(t) if t.tag == "text:sheet-name"));
    assert!(matches!(&content[1], Composit::Text(t) if t == "???"));
    assert!(matches!(&content[2], Composit::End(t) if t == "text:sheet-name"));
    assert!(header.region_left.is_empty());

    let header_left = pl.header_left.as_ref().unwrap();
    assert!(header_left.content.is_empty());
    assert!(header_left.region_center.is_empty());

    let footer = pl.footer.as_ref().unwrap();
    let left = footer.region_left.vec();
    assert_eq!(left.len(), 3);
    assert!(matches!(&left[0], Composit::Start(t) if t.tag == "text:p"));
    assert!(matches!(&left[1], Composit::Text(t) if t == "left"));
    assert!(matches!(&left[2], Composit::End(t) if t == "text:p"));
    let center = footer.region_center.vec();
    assert_eq!(center.len(), 6);
    assert!(matches!(&center[1], Composit::Text(t) if t == "Page"));
    assert!(matches!(&center[2], Composit::Start(t) if t.tag == "text:page-number"));
    let right = footer.region_right.vec();
    assert_eq!(right.len(), 3);
    assert!(matches!(
        &right[1],
        Composit::Empty(t) if t.tag == "text:date"
            && t.attr.get("style:data-style-name") == Some(&String::from("N2"))
    ));
    assert!(footer.content.is_empty());
    assert!(pl.footer_left.is_none());

    // a master page may name a layout that was not declared
    let pl = wb.pagelayout("Mpm9").unwrap();
    assert_eq!(pl.name, "Mpm9");
    assert_eq!(pl.masterpage_name, Some(String::from("Report")));
    assert!(pl.header.is_none());
    assert_eq!(pl.prp.len(), 0);
}

#[test]
fn unclosed_declarations_are_not_stored() {
    let ev = events(
        "<office:styles><style:style style:name=\"a\" style:family=\"table\"/>\
         <number:number-style style:name=\"n\"><number:number/></number:number-style>\
         <style:style style:name=\"b\" style:family=\"table\"><style:table-properties x=\"y\"/>\
         </style:style></office:styles>",
    );
    let cut: Vec<XmlEvent> = ev[..ev.len() - 2].to_vec();
    let wb = read_workbook(&Vec::new(), &cut).unwrap();
    assert!(wb.style(StyleOrigin::Styles, "a").is_some());
    assert!(wb.format(StyleOrigin::Styles, "n").is_some());
    assert!(wb.style(StyleOrigin::Styles, "b").is_none());
    let wb = read_workbook(&Vec::new(), &ev).unwrap();
    assert!(wb.style(StyleOrigin::Styles, "b").is_some());
}

#[test]
fn declarations_of_the_content_part_keep_their_origin() {
    let content = events(
        "<office:document-content><office:font-face-decls><style:font-face style:name=\"F\"/>\
         </office:font-face-decls><office:automatic-styles>\
         <style:style style:name=\"ce1\" style:family=\"table-cell\"/>\
         <number:text-style style:name=\"T\"><number:text-content/></number:text-style>\
         </office:automatic-styles><office:body><office:spreadsheet>\
         <table:table table:name=\"t\"><table:table-row><table:table-cell table:style-name=\"ce1\"/>\
         </table:table-row></table:table></office:spreadsheet></office:body>\
         </office:document-content>",
    );
    let styles = events(
        "<office:document-styles><office:styles>\
         <style:style style:name=\"ce1\" style:family=\"table-row\"/></office:styles>\
         </office:document-styles>",
    );
    let wb = read_workbook(&content, &styles).unwrap();
    assert_eq!(
        wb.style(StyleOrigin::Content, "ce1").unwrap().family,
        Some(StyleFor::TableCell)
    );
    assert_eq!(wb.style(StyleOrigin::Content, "ce1").unwrap().styleuse, StyleUse::Automatic);
    assert_eq!(wb.style(StyleOrigin::Styles, "ce1").unwrap().family, Some(StyleFor::TableRow));
    assert_eq!(wb.style(StyleOrigin::Styles, "ce1").unwrap().styleuse, StyleUse::Named);
    assert!(wb.font(StyleOrigin::Content, "F").is_some());
    let f = wb.format(StyleOrigin::Content, "T").unwrap();
    assert_eq!(f.v_type, ValueType::Text);
    assert_eq!(f.parts[0].part_type, FormatPartType::TextContent);
    assert_eq!(wb.sheet(0).cell(0, 0).unwrap().style, Some(String::from("ce1")));
}

#[test]
fn parts_can_be_read_one_by_one() {
    let mut wb = WorkBook::new();
    read_content(
        &mut wb,
        &events("<table:table table:name=\"x\"><table:table-row/></table:table>"),
    )
    .unwrap();
    read_styles(&mut wb, &events(STYLES));
    assert_eq!(wb.num_sheets(), 1);
    assert!(wb.pagelayout("Mpm1").is_some());
}

#[test]
fn unknown_tags_and_attributes_are_passed_over() {
    let wb = content(
        "<office:document-content><office:scripts/><office:body><office:spreadsheet>\
         <table:calculation-settings table:automatic-find-labels=\"false\"/>\
         <table:table table:name=\"t\" table:protected=\"true\">\
         <table:shapes><draw:frame/></table:shapes>\
         <table:table-row table:visibility=\"collapse\">\
         <table:table-cell office:value-type=\"string\" calcext:value-type=\"string\">\
         <text:p>a<text:span text:style-name=\"T1\">b</text:span>c</text:p>\
         <office:annotation><dc:date>2020</dc:date></office:annotation>\
         </table:table-cell></table:table-row></table:table>\
         <table:named-expressions/></office:spreadsheet></office:body></office:document-content>",
    )
    .unwrap();
    assert_eq!(wb.num_sheets(), 1);
    assert_eq!(wb.sheet(0).value(0, 0), Value::Text(String::from("abc2020")));
}

#[test]
fn tokenizer_survives_damaged_markup() {
    // none of these may do anything but yield events or an XML error
    let inputs: [&[u8]; 24] = [
        b"<!-->",
        b"<!--->",
        b"<!---->",
        b"<!-- -->",
        b"<!--",
        b"<![CDATA[]]>",
        b"<![CDATA[]>",
        b"<![CDATA[",
        b"<![CDATA[x]]>",
        b"<a><![CDATA[]]></a>",
        b"<!DOCTYPE a [<!ENTITY b 'c'>]><a/>",
        b"<!DOCTYPE",
        b"<!x>",
        b"<>",
        b"</>",
        b"<",
        b"<a",
        b"<a b",
        b"<a b=>",
        b"<a b='>",
        b"<a>&#xD800;</a>",
        b"<a>&#9999999;</a>",
        b"<a>&#xFFFFFFF;</a>",
        b"<a b='&#0;'/>",
    ];
    for xml in inputs {
        match tokenize(xml) {
            Ok(ev) => assert!(ev.len() <= xml.len()),
            Err(OdsError::Xml(_)) => {}
            Err(other) => panic!("unexpected {:?} for {:?}", other, xml),
        }
    }
    // text that is no UTF-8 is an XML error
    assert!(matches!(tokenize(b"<a>\xff</a>"), Err(OdsError::Xml(_))));
    assert!(matches!(tokenize(b"<\xff/>"), Err(OdsError::Xml(_))));
}

#[test]
fn raw_events_become_structural_events() {
    let start = RawEvent::Start {
        name: b"table:table".to_vec(),
        content: b"table:table table:name=\"S &amp; T\" x='1' x='2'".to_vec(),
    };
    match structural_event(&start).unwrap() {
        Some(XmlEvent::Start(t)) => {
            assert_eq!(t.name, "table:table");
            assert_eq!(t.attrs.len(), 2);
            assert_eq!(t.attr("table:name"), Some(&String::from("S & T")));
            // a key that comes twice keeps its place and takes the later value
            assert_eq!(t.attrs.name_at(1), "x");
            assert_eq!(t.attr("x"), Some(&String::from("2")));
        }
        other => panic!("unexpected {:?}", other),
    }

    let empty = RawEvent::Empty { name: b"a".to_vec(), content: b"a".to_vec() };
    assert!(matches!(
        structural_event(&empty).unwrap(),
        Some(XmlEvent::Empty(t)) if t.name == "a" && t.attrs.len() == 0
    ));

    let end = RawEvent::End("zä".as_bytes().to_vec());
    assert!(matches!(structural_event(&end).unwrap(), Some(XmlEvent::End(n)) if n == "zä"));

    let text = RawEvent::Text(b"1 &lt; 2 &#x41;".to_vec());
    assert!(matches!(structural_event(&text).unwrap(), Some(XmlEvent::Text(t)) if t == "1 < 2 A"));

    assert!(structural_event(&RawEvent::Eof).unwrap().is_none());
    assert!(structural_event(&RawEvent::Other).unwrap().is_none());
}

#[test]
fn malformed_raw_events_are_xml_errors() {
    // a name that is no UTF-8
    let end = RawEvent::End(vec![0x61, 0xff]);
    assert!(matches!(structural_event(&end), Err(OdsError::Xml(_))));
    let start = RawEvent::Start { name: vec![0xc3], content: vec![0xc3] };
    assert!(matches!(structural_event(&start), Err(OdsError::Xml(_))));
    // an attribute without quotes, and one that names no known entity
    let start = RawEvent::Start { name: b"a".to_vec(), content: b"a x=1".to_vec() };
    assert!(matches!(structural_event(&start), Err(OdsError::Xml(_))));
    let start = RawEvent::Empty { name: b"a".to_vec(), content: b"a x='&nosuch;'".to_vec() };
    assert!(matches!(structural_event(&start), Err(OdsError::Xml(_))));
    // a malformed attribute fails the tag, also behind one that is well formed
    let start = RawEvent::Start { name: b"a".to_vec(), content: b"a ok='1' bad=2".to_vec() };
    assert!(matches!(structural_event(&start), Err(OdsError::Xml(_))));
    // a key without a value at the end of the tag ends the attributes
    let start = RawEvent::Start { name: b"a".to_vec(), content: b"a ok='1' bad".to_vec() };
    assert!(matches!(
        structural_event(&start).unwrap(),
        Some(XmlEvent::Start(t)) if t.attrs.len() == 1 && t.attr("ok") == Some(&String::from("1"))
    ));
    // an entity that is not closed, and one that is not known
    let text = RawEvent::Text(b"a &amp b".to_vec());
    assert!(matches!(structural_event(&text), Err(OdsError::Xml(_))));
    let text = RawEvent::Text(b"&nosuch;".to_vec());
    assert!(matches!(structural_event(&text), Err(OdsError::Xml(_))));
}

#[test]
fn a_failing_reader_leaves_the_sheet_as_it_was() {
    let mut sheet = Sheet::new();
    sheet.set_value(0, 0, Value::Boolean(true));
    sheet.set_column_style(0, String::from("co"));

    let t = tag(
        "table:table-cell",
        &[("table:style-name", "s"), ("table:number-columns-spanned", "x")],
    );
    assert!(read_empty_table_cell(&mut sheet, &t, 0, 0).is_err());
    let t = tag("table:table-cell", &[("table:style-name", "s")]);
    assert!(read_empty_table_cell(&mut sheet, &t, 0, 4294967295).is_err());

    let ev = events(
        "<table:table-cell office:value-type=\"float\" table:style-name=\"s\">\
         <text:p>1</text:p></table:table-cell>",
    );
    let t = match &ev[0] {
        XmlEvent::Start(t) => t.clone(),
        other => panic!("unexpected {:?}", other),
    };
    assert!(read_table_cell(&mut sheet, &ev, 1, &t, 0, 0).is_err());

    let t = tag(
        "table:table-column",
        &[("table:style-name", "new"), ("table:number-columns-repeated", "4294967295")],
    );
    assert!(read_table_column(&t, 1, &mut sheet).is_err());

    assert_eq!(sheet.value(0, 0), Value::Boolean(true));
    assert_eq!(sheet.cell(0, 0).unwrap().style, None);
    assert!(sheet.cell(0, 1).is_none());
    assert_eq!(sheet.column_style(0), Some(&String::from("co")));
    assert_eq!(sheet.column_style(1), None);
}

#[test]
fn a_failing_content_part_keeps_what_was_read_before() {
    let mut wb = WorkBook::new();
    let r = read_content(
        &mut wb,
        &events(
            "<office:automatic-styles><style:style style:name=\"a\" style:family=\"table\"/>\
             </office:automatic-styles>\
             <table:table table:name=\"one\"><table:table-row/></table:table>\
             <table:table table:name=\"two\"><table:table-row>\
             <table:table-cell office:value-type=\"date\"><text:p>x</text:p></table:table-cell>\
             </table:table-row></table:table>",
        ),
    );
    assert!(matches!(r, Err(OdsError::Ods(m)) if m == "A1 has type datetime, but no value!"));
    assert_eq!(wb.num_sheets(), 1);
    assert_eq!(wb.sheet(0).name(), "one");
    assert!(wb.style(StyleOrigin::Content, "a").is_some());
}

#[test]
fn tags_that_are_no_part_are_passed_over() {
    let wb = read_workbook(
        &Vec::new(),
        &events(
            "<office:styles><number:number-style style:name=\"N\"><style:text a=\"b\"/>\
             <number:number/><style:text-properties fo:color=\"#ff0000\"/>\
             </number:number-style></office:styles>",
        ),
    )
    .unwrap();
    let f = wb.format(StyleOrigin::Styles, "N").unwrap();
    assert_eq!(f.parts.len(), 1);
    assert_eq!(f.parts[0].part_type, FormatPartType::Number);
}
