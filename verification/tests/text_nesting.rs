use spreadsheet_ods::text::{TextElem, TextTag, TextVec};

#[test]
fn nested_tags_are_valid() {
    let mut tv = TextVec::new();
    tv.start("b");
    tv.text("x");
    tv.end("b");
    let mut open = String::new();
    let mut close = String::new();
    assert!(tv.is_valid(&mut open, &mut close));
    assert_eq!(open, "");
    assert_eq!(close, "");
}

#[test]
fn crossed_tags_are_invalid() {
    let mut tv = TextVec::new();
    tv.start("b");
    tv.start("i");
    tv.end("b");
    let mut open = String::new();
    let mut close = String::new();
    assert!(!tv.is_valid(&mut open, &mut close));
    assert_eq!(open, "i");
    assert_eq!(close, "b");
}

#[test]
fn end_without_start_is_invalid() {
    let mut tv = TextVec::new();
    tv.text("x");
    tv.end("b");
    let mut open = String::from("o");
    let mut close = String::from("c");
    assert!(!tv.is_valid(&mut open, &mut close));
    assert_eq!(open, "o");
    assert_eq!(close, "c");
}

#[test]
fn open_tags_at_the_end_are_no_violation() {
    let mut tv = TextVec::new();
    tv.start("b");
    tv.empty("br");
    tv.text("x");
    let mut open = String::new();
    let mut close = String::new();
    assert!(tv.is_valid(&mut open, &mut close));
}

#[test]
fn text_vec_builders() {
    let mut tv = TextVec::new();
    assert!(tv.is_empty());
    let mut tag = TextTag::new("a");
    tag.set_attr("href", String::from("x"));
    tag.set_tag("text:a");
    assert_eq!(tag.tag(), "text:a");
    assert_eq!(tag.attr("href"), Some(&String::from("x")));
    assert_eq!(tag.attr("other"), None);
    assert_eq!(tag.attr_iter(), vec![(String::from("href"), String::from("x"))]);
    tv.startc(tag);
    tv.emptyc(TextTag::new("text:s"));
    tv.push(TextElem::Text(String::from("t")));
    tv.end("text:a");
    assert_eq!(tv.vec().len(), 4);
    assert!(!tv.is_empty());
    assert!(matches!(&tv.vec()[0], TextElem::Start(t) if t.tag() == "text:a"));
    assert!(matches!(&tv.vec()[1], TextElem::Empty(t) if t.tag() == "text:s"));
    assert!(matches!(&tv.vec()[2], TextElem::Text(t) if t == "t"));
    assert!(matches!(&tv.vec()[3], TextElem::End(t) if t == "text:a"));
    tv.clear();
    assert!(tv.is_empty());
}
