use spreadsheet_ods::ods::{read_ods, OdsError};
use spreadsheet_ods::style::StyleOrigin;
use std::io::Write;

const STYLES: &str = r#"<?xml version="1.0" encoding="UTF-8"?>
<office:document-styles office:version="1.2">
<office:font-face-decls/>
<office:styles/>
<office:automatic-styles/>
<office:master-styles/>
</office:document-styles>"#;

fn archive(content: &str, styles: &str) -> Vec<u8> {
    let mut w = zip::ZipWriter::new(std::io::Cursor::new(Vec::new()));
    w.start_file("content.xml", zip::write::FileOptions::default()).unwrap();
    w.write_all(content.as_bytes()).unwrap();
    w.start_file("styles.xml", zip::write::FileOptions::default()).unwrap();
    w.write_all(styles.as_bytes()).unwrap();
    w.finish().unwrap().into_inner()
}

fn text_cell(text: &str, attrs: &str) -> String {
    format!(
        "<table:table-cell office:value-type=\"string\"{}><text:p>{}</text:p></table:table-cell>",
        attrs, text
    )
}

fn document(tables: &[String]) -> String {
    format!(
        "<?xml version=\"1.0\" encoding=\"UTF-8\"?>\n<office:document-content office:version=\"1.2\">\
         <office:body><office:spreadsheet>{}</office:spreadsheet></office:body>\
         </office:document-content>",
        tables.concat()
    )
}

fn table(name: &str, rows: &[String]) -> String {
    format!(
        "<table:table table:name=\"{}\"><table:table-column/>{}</table:table>",
        name,
        rows.iter()
            .map(|r| format!("<table:table-row>{}</table:table-row>", r))
            .collect::<Vec<String>>()
            .concat()
    )
}

#[test]
fn test_0() -> Result<(), OdsError> {
    let content = document(&[table("1", &[text_cell("A", "")])]);

    let wi = read_ods(&archive(&content, STYLES))?;
    let si = wi.sheet(0);

    assert_eq!(si.value(0, 0).as_str_or(""), "A");

    Ok(())
}

#[test]
fn test_span() -> Result<(), OdsError> {
    let bomb = text_cell("bomb", "");
    let empty_row = String::from("<table:table-cell/>");

    let sh0 = table(
        "1",
        &[
            [
                text_cell("A", " table:number-columns-spanned=\"2\""),
                text_cell("A2", ""),
                bomb.clone(),
            ]
            .concat(),
            [bomb.clone(), bomb.clone(), bomb.clone()].concat(),
        ],
    );
    let sh1 = table(
        "2",
        &[
            empty_row.clone(),
            [text_cell("B", " table:number-rows-spanned=\"2\""), bomb.clone()].concat(),
            [text_cell("B2", ""), bomb.clone()].concat(),
            [bomb.clone(), bomb.clone()].concat(),
        ],
    );
    let sh2 = table(
        "3",
        &[
            String::from(
                "<table:table-cell table:number-columns-repeated=\"3\"/>\
                 </table:table-row><table:table-row table:number-rows-repeated=\"2\">\
                 <table:table-cell table:number-columns-repeated=\"3\"/>",
            ),
            [
                text_cell(
                    "C",
                    " table:number-columns-spanned=\"2\" table:number-rows-spanned=\"2\"",
                ),
                text_cell("C2", ""),
                bomb.clone(),
            ]
            .concat(),
            [text_cell("C2", ""), text_cell("C2", ""), bomb.clone()].concat(),
            [bomb.clone(), bomb.clone(), bomb.clone()].concat(),
        ],
    );
    let content = document(&[sh0, sh1, sh2]);

    let wi = read_ods(&archive(&content, STYLES))?;

    println!("{:?}", wi);

    let si = wi.sheet(0);

    assert_eq!(si.value(0, 0).as_str_or(""), "A");
    assert_eq!(si.col_span(0, 0), 2);

    let si = wi.sheet(1);

    assert_eq!(si.value(1, 0).as_str_or(""), "B");
    assert_eq!(si.row_span(1, 0), 2);

    let si = wi.sheet(2);

    assert_eq!(si.value(3, 0).as_str_or(""), "C");
    assert_eq!(si.col_span(3, 0), 2);
    assert_eq!(si.row_span(3, 0), 2);
    assert_eq!(si.value(3, 1).as_str_or(""), "C2");
    assert_eq!(si.col_span(3, 1), 1);
    assert_eq!(si.value(5, 2).as_str_or(""), "bomb");

    Ok(())
}

#[test]
fn archive_without_content_is_a_zip_error() {
    let mut w = zip::ZipWriter::new(std::io::Cursor::new(Vec::new()));
    w.start_file("styles.xml", zip::write::FileOptions::default()).unwrap();
    w.write_all(STYLES.as_bytes()).unwrap();
    let bytes = w.finish().unwrap().into_inner();
    assert!(matches!(read_ods(&bytes), Err(OdsError::Zip(_))));
}

#[test]
fn archive_without_styles_is_a_zip_error() {
    let mut w = zip::ZipWriter::new(std::io::Cursor::new(Vec::new()));
    w.start_file("content.xml", zip::write::FileOptions::default()).unwrap();
    w.write_all(document(&[]).as_bytes()).unwrap();
    let bytes = w.finish().unwrap().into_inner();
    assert!(matches!(read_ods(&bytes), Err(OdsError::Zip(_))));
}

#[test]
fn bytes_that_are_no_archive_are_a_zip_error() {
    assert!(matches!(read_ods(b"not a zip archive"), Err(OdsError::Zip(_))));
    assert!(matches!(read_ods(b""), Err(OdsError::Zip(_))));
}

#[test]
fn members_are_read_with_their_own_bytes() {
    let content = document(&[table("first", &[text_cell("from content", "")])]);
    let styles = r#"<office:document-styles><office:styles>
        <style:style style:name="Default" style:family="table-cell"/>
        </office:styles></office:document-styles>"#;
    let wb = read_ods(&archive(&content, styles)).unwrap();
    assert_eq!(wb.num_sheets(), 1);
    assert_eq!(wb.sheet(0).name(), "first");
    assert_eq!(wb.sheet(0).value(0, 0).as_str_or(""), "from content");
    assert!(wb.style(StyleOrigin::Styles, "Default").is_some());
    assert!(wb.style(StyleOrigin::Content, "Default").is_none());
}

#[test]
fn malformed_xml_is_an_xml_error() {
    let content = "<office:document-content><a></b></office:document-content>";
    assert!(matches!(read_ods(&archive(content, STYLES)), Err(OdsError::Xml(_))));
}

#[test]
fn content_errors_come_before_missing_styles() {
    let content = document(&[table(
        "1",
        &[String::from("<table:table-cell office:value-type=\"float\"><text:p>1</text:p></table:table-cell>")],
    )]);
    let mut w = zip::ZipWriter::new(std::io::Cursor::new(Vec::new()));
    w.start_file("content.xml", zip::write::FileOptions::default()).unwrap();
    w.write_all(content.as_bytes()).unwrap();
    let bytes = w.finish().unwrap().into_inner();
    match read_ods(&bytes) {
        Err(OdsError::Ods(m)) => assert_eq!(m, "A1 has type number, but no value!"),
        other => panic!("unexpected {:?}", other),
    }
}

#[test]
fn archive_offsets_are_checked() {
    use_check(&[], true);
    use_check(b"short", true);
    use_check(&[0xff; 7], true);
    use_check(&[0xff; 8], false);
    // the largest number that still fits with the length added
    let mut fits = vec![0xff; 8];
    fits[0] = 0xff - 8;
    use_check(&fits, true);
    fits[0] = 0xff - 7;
    use_check(&fits, false);
    // anywhere in the archive
    let mut long = vec![0u8; 100];
    use_check(&long, true);
    for i in 50..58 {
        long[i] = 0xff;
    }
    use_check(&long, false);
    long[57] = 0xfe;
    use_check(&long, true);
}

fn use_check(bytes: &[u8], expected: bool) {
    assert_eq!(spreadsheet_ods::archive::check_offsets(bytes), expected, "{:?}", bytes);
}

#[test]
fn archive_with_an_offset_beyond_64_bits_is_refused() {
    let mut bytes: Vec<u8> = Vec::new();
    // one byte before the archive shifts every offset by one
    bytes.push(0);
    // a directory entry whose offset is taken from the extra field
    bytes.extend_from_slice(&[0x50, 0x4b, 0x01, 0x02]);
    bytes.extend_from_slice(&[0; 24]);
    bytes.extend_from_slice(&[1, 0]); // length of the name
    bytes.extend_from_slice(&[12, 0]); // length of the extra field
    bytes.extend_from_slice(&[0; 10]);
    bytes.extend_from_slice(&[0xff; 4]); // the offset is in the extra field
    bytes.push(b'a');
    bytes.extend_from_slice(&[1, 0, 8, 0]);
    bytes.extend_from_slice(&[0xff; 8]);
    let directory = (bytes.len() - 1) as u32;
    // the end of the directory
    bytes.extend_from_slice(&[0x50, 0x4b, 0x05, 0x06]);
    bytes.extend_from_slice(&[0, 0, 0, 0, 1, 0, 1, 0]);
    bytes.extend_from_slice(&directory.to_le_bytes());
    bytes.extend_from_slice(&[0, 0, 0, 0]);
    bytes.extend_from_slice(&[0, 0]);
    assert!(!spreadsheet_ods::archive::check_offsets(&bytes));
    match read_ods(&bytes) {
        Err(OdsError::Ods(m)) => assert_eq!(m, "Archive offsets out of range"),
        other => panic!("unexpected {:?}", other),
    }
}

#[test]
fn xml_errors_of_a_member_come_before_its_cell_errors() {
    let content = "<office:document-content><table:table><table:table-row>\
        <table:table-cell office:value-type=\"float\"><text:p>1</text:p></table:table-cell>\
        </table:table-row></table:table><broken></office:document-content>";
    assert!(matches!(read_ods(&archive(content, STYLES)), Err(OdsError::Xml(_))));
}
