//! Readers for fonts, styles and value formats.

use vstd::prelude::*;
use crate::io::formats::{
    decode_format_value_type, format_element, format_start, format_value_type,
    lemma_format_scan_pos, read_value_format, FormatState,
};
use crate::io::layout::{lemma_page_layout_scan_pos, page_layout_element, read_page_layout};
use crate::namemap::{pairs_insert_all, pairs_insert_others};
use crate::strs::{copy_or_empty, str_eq, text_or_empty};
use crate::style::{
    empty_page_layout, empty_style, FontDecl, FontDeclView, Style, StyleFor, StyleOrigin,
    StyleUse, StyleView,
};
use crate::workbook::{WorkBook, WorkBookView};
use crate::xml::{events_view, XmlEvent, XmlEventView, XmlTag, XmlTagView};

verus! {

/// The font that a font-face tag declares: its name from the name
/// attribute, every other attribute as it stands.
pub open spec fn font_of(origin: StyleOrigin, t: XmlTagView) -> FontDeclView {
    FontDeclView {
        name: text_or_empty(t.attr("style:name"@)),
        origin,
        prp: pairs_insert_others(Seq::empty(), t.attrs, "style:name"@),
    }
}

/// The workbook after an event inside the font declarations: a font-face
/// tag stores its font.
pub open spec fn font_child(
    book: WorkBookView,
    origin: StyleOrigin,
    t: XmlTagView,
) -> WorkBookView {
    if t.name == "style:font-face"@ {
        book.with_font(font_of(origin, t))
    } else {
        book
    }
}

/// The workbook after the font declarations from `pos` up to their closing
/// tag, and the position behind that tag.
pub open spec fn fonts_scan(
    book: WorkBookView,
    origin: StyleOrigin,
    events: Seq<XmlEventView>,
    pos: int,
) -> (WorkBookView, int)
    decreases events.len() - pos,
{
    if pos < 0 || pos >= events.len() {
        (book, pos)
    } else {
        match events[pos] {
            XmlEventView::Start(t) => fonts_scan(
                font_child(book, origin, t),
                origin,
                events,
                pos + 1,
            ),
            XmlEventView::Empty(t) => fonts_scan(
                font_child(book, origin, t),
                origin,
                events,
                pos + 1,
            ),
            XmlEventView::Text(_) => fonts_scan(book, origin, events, pos + 1),
            XmlEventView::End(n) => if n == "office:font-face-decls"@ {
                (book, pos + 1)
            } else {
                fonts_scan(book, origin, events, pos + 1)
            },
        }
    }
}

/// Reading the font declarations moves forward and stays within the events.
pub proof fn lemma_fonts_scan_pos(
    book: WorkBookView,
    origin: StyleOrigin,
    events: Seq<XmlEventView>,
    pos: int,
)
    requires
        0 <= pos <= events.len(),
    ensures
        pos <= fonts_scan(book, origin, events, pos).1 <= events.len(),
    decreases events.len() - pos,
{
    if pos < events.len() {
        match events[pos] {
            XmlEventView::Start(t) => lemma_fonts_scan_pos(
                font_child(book, origin, t),
                origin,
                events,
                pos + 1,
            ),
            XmlEventView::Empty(t) => lemma_fonts_scan_pos(
                font_child(book, origin, t),
                origin,
                events,
                pos + 1,
            ),
            XmlEventView::Text(_) => lemma_fonts_scan_pos(book, origin, events, pos + 1),
            XmlEventView::End(n) => if n != "office:font-face-decls"@ {
                lemma_fonts_scan_pos(book, origin, events, pos + 1)
            },
        }
    }
}

/// Stores the font of a font-face tag; every other tag is passed over.
fn read_font(book: &mut WorkBook, origin: StyleOrigin, t: &XmlTag)
    ensures
        final(book)@ == font_child(old(book)@, origin, t@),
{
    if str_eq(t.name.as_str(), "style:font-face") {
        let mut font = FontDecl::new_origin(origin);
        font.name = copy_or_empty(t.attr("style:name"));
        font.prp.insert_others(&t.attrs, "style:name");
        book.add_font(font);
    }
}

/// Reads the font declarations from `pos` up to their closing tag. Returns
/// the position behind that tag.
pub fn read_fonts(
    book: &mut WorkBook,
    origin: StyleOrigin,
    events: &Vec<XmlEvent>,
    pos: usize,
) -> (r: usize)
    requires
        pos <= events@.len(),
    ensures
        (final(book)@, r as int) == fonts_scan(
            old(book)@,
            origin,
            events_view(events@),
            pos as int,
        ),
        pos <= r <= events@.len(),
{
    let ghost ev = events_view(events@);
    let mut p = pos;
    while p < events.len()
        invariant
            ev == events_view(events@),
            pos <= p <= events@.len(),
            fonts_scan(old(book)@, origin, ev, pos as int) == fonts_scan(
                book@,
                origin,
                ev,
                p as int,
            ),
        decreases events@.len() - p,
    {
        assert(ev[p as int] == events@[p as int]@);
        match &events[p] {
            XmlEvent::Start(t) => {
                read_font(book, origin, t);
            },
            XmlEvent::Empty(t) => {
                read_font(book, origin, t);
            },
            XmlEvent::Text(_) => {},
            XmlEvent::End(n) => {
                if str_eq(n.as_str(), "office:font-face-decls") {
                    return p + 1;
                }
            },
        }
        p += 1;
    }
    p
}

/// The family that a family attribute names.
pub open spec fn family_of(v: Seq<char>) -> Option<StyleFor> {
    if v == "table"@ {
        Some(StyleFor::Table)
    } else if v == "table-column"@ {
        Some(StyleFor::TableColumn)
    } else if v == "table-row"@ {
        Some(StyleFor::TableRow)
    } else if v == "table-cell"@ {
        Some(StyleFor::TableCell)
    } else {
        None
    }
}

/// The style `style` with what the attributes of its tag declare: name,
/// family, parent style and value format. What is not declared, or declared
/// with an unknown family, stays.
pub open spec fn style_with_attrs(style: StyleView, t: XmlTagView) -> StyleView {
    StyleView {
        name: match t.attr("style:name"@) {
            Some(v) => v,
            None => style.name,
        },
        family: match t.attr("style:family"@) {
            Some(v) => match family_of(v) {
                Some(f) => Some(f),
                None => style.family,
            },
            None => style.family,
        },
        parent: match t.attr("style:parent-style-name"@) {
            Some(v) => Some(v),
            None => style.parent,
        },
        value_format: match t.attr("style:data-style-name"@) {
            Some(v) => Some(v),
            None => style.value_format,
        },
        ..style
    }
}

/// The family that a family attribute names.
fn decode_family(v: &str) -> (r: Option<StyleFor>)
    ensures
        r == family_of(v@),
{
    if str_eq(v, "table") {
        Some(StyleFor::Table)
    } else if str_eq(v, "table-column") {
        Some(StyleFor::TableColumn)
    } else if str_eq(v, "table-row") {
        Some(StyleFor::TableRow)
    } else if str_eq(v, "table-cell") {
        Some(StyleFor::TableCell)
    } else {
        None
    }
}

/// Reads the attributes of a style tag into the style.
pub fn read_style_attr(xml_tag: &XmlTag, style: &mut Style)
    ensures
        final(style)@ == style_with_attrs(old(style)@, xml_tag@),
{
    match xml_tag.attr("style:name") {
        Some(v) => {
            style.name = v.clone();
        },
        None => {},
    }
    match xml_tag.attr("style:family") {
        Some(v) => {
            match decode_family(v.as_str()) {
                Some(f) => {
                    style.family = Some(f);
                },
                None => {},
            }
        },
        None => {},
    }
    match xml_tag.attr("style:parent-style-name") {
        Some(v) => {
            style.parent = Some(v.clone());
        },
        None => {},
    }
    match xml_tag.attr("style:data-style-name") {
        Some(v) => {
            style.value_format = Some(v.clone());
        },
        None => {},
    }
}

/// The style `style` after the child element with the tag `t`: the
/// attributes of a group of properties go to the bag of that group as they
/// stand.
pub open spec fn style_child(style: StyleView, t: XmlTagView) -> StyleView {
    if t.name == "style:table-properties"@ {
        StyleView { table_prp: pairs_insert_all(style.table_prp, t.attrs), ..style }
    } else if t.name == "style:table-column-properties"@ {
        StyleView { table_col_prp: pairs_insert_all(style.table_col_prp, t.attrs), ..style }
    } else if t.name == "style:table-row-properties"@ {
        StyleView { table_row_prp: pairs_insert_all(style.table_row_prp, t.attrs), ..style }
    } else if t.name == "style:table-cell-properties"@ {
        StyleView { table_cell_prp: pairs_insert_all(style.table_cell_prp, t.attrs), ..style }
    } else if t.name == "style:text-properties"@ {
        StyleView { text_prp: pairs_insert_all(style.text_prp, t.attrs), ..style }
    } else if t.name == "style:paragraph-properties"@ {
        StyleView { paragraph_prp: pairs_insert_all(style.paragraph_prp, t.attrs), ..style }
    } else {
        style
    }
}

/// Copies the attributes of a group of properties into the bag of that
/// group.
pub fn copy_style_properties(style: &mut Style, xml_tag: &XmlTag)
    ensures
        final(style)@ == style_child(old(style)@, xml_tag@),
{
    let name = xml_tag.name.as_str();
    if str_eq(name, "style:table-properties") {
        style.table_prp.insert_all(&xml_tag.attrs);
    } else if str_eq(name, "style:table-column-properties") {
        style.table_col_prp.insert_all(&xml_tag.attrs);
    } else if str_eq(name, "style:table-row-properties") {
        style.table_row_prp.insert_all(&xml_tag.attrs);
    } else if str_eq(name, "style:table-cell-properties") {
        style.table_cell_prp.insert_all(&xml_tag.attrs);
    } else if str_eq(name, "style:text-properties") {
        style.text_prp.insert_all(&xml_tag.attrs);
    } else if str_eq(name, "style:paragraph-properties") {
        style.paragraph_prp.insert_all(&xml_tag.attrs);
    }
}

/// The style read from `pos` up to its closing tag, starting from `style`,
/// and the position behind that tag. `None` where the events end before the
/// closing tag.
pub open spec fn style_scan(events: Seq<XmlEventView>, pos: int, style: StyleView) -> (
    Option<StyleView>,
    int,
)
    decreases events.len() - pos,
{
    if pos < 0 || pos >= events.len() {
        (None, pos)
    } else {
        match events[pos] {
            XmlEventView::Start(t) => style_scan(events, pos + 1, style_child(style, t)),
            XmlEventView::Empty(t) => style_scan(events, pos + 1, style_child(style, t)),
            XmlEventView::Text(_) => style_scan(events, pos + 1, style),
            XmlEventView::End(n) => if n == "style:style"@ {
                (Some(style), pos + 1)
            } else {
                style_scan(events, pos + 1, style)
            },
        }
    }
}

/// Reading a style moves forward and stays within the events.
pub proof fn lemma_style_scan_pos(events: Seq<XmlEventView>, pos: int, style: StyleView)
    requires
        0 <= pos <= events.len(),
    ensures
        pos <= style_scan(events, pos, style).1 <= events.len(),
    decreases events.len() - pos,
{
    if pos < events.len() {
        match events[pos] {
            XmlEventView::Start(t) => lemma_style_scan_pos(events, pos + 1, style_child(style, t)),
            XmlEventView::Empty(t) => lemma_style_scan_pos(events, pos + 1, style_child(style, t)),
            XmlEventView::Text(_) => lemma_style_scan_pos(events, pos + 1, style),
            XmlEventView::End(n) => if n != "style:style"@ {
                lemma_style_scan_pos(events, pos + 1, style)
            },
        }
    }
}

/// The workbook after the style element with the tag `tag`, and the position
/// behind the element. `pos` is the position behind the tag, and `empty`
/// tells that the element has no content. A style whose closing tag is
/// missing is not stored.
pub open spec fn style_element(
    book: WorkBookView,
    origin: StyleOrigin,
    styleuse: StyleUse,
    events: Seq<XmlEventView>,
    pos: int,
    tag: XmlTagView,
    empty: bool,
) -> (WorkBookView, int) {
    let style = style_with_attrs(empty_style(origin, styleuse), tag);
    if empty {
        (book.with_style(style), pos)
    } else {
        match style_scan(events, pos, style) {
            (Some(done), p) => (book.with_style(done), p),
            (None, p) => (book, p),
        }
    }
}

/// Reads the style element with the tag `xml_tag` and stores it in the
/// workbook. `pos` is the position behind the tag, and `empty_tag` tells
/// that the element has no content. Returns the position behind the
/// element.
pub fn read_style_style(
    book: &mut WorkBook,
    origin: StyleOrigin,
    styleuse: StyleUse,
    events: &Vec<XmlEvent>,
    pos: usize,
    xml_tag: &XmlTag,
    empty_tag: bool,
) -> (r: usize)
    requires
        pos <= events@.len(),
    ensures
        (final(book)@, r as int) == style_element(
            old(book)@,
            origin,
            styleuse,
            events_view(events@),
            pos as int,
            xml_tag@,
            empty_tag,
        ),
        pos <= r <= events@.len(),
{
    let ghost ev = events_view(events@);
    let mut style = Style::new_origin(origin, styleuse);
    read_style_attr(xml_tag, &mut style);
    let ghost style0 = style@;
    if empty_tag {
        book.add_style(style);
        return pos;
    }
    let mut p = pos;
    while p < events.len()
        invariant
            ev == events_view(events@),
            pos <= p <= events@.len(),
            style_scan(ev, pos as int, style0) == style_scan(ev, p as int, style@),
            *book == *old(book),
            !empty_tag,
            style0 == style_with_attrs(empty_style(origin, styleuse), xml_tag@),
        decreases events@.len() - p,
    {
        assert(ev[p as int] == events@[p as int]@);
        match &events[p] {
            XmlEvent::Start(t) => {
                copy_style_properties(&mut style, t);
            },
            XmlEvent::Empty(t) => {
                copy_style_properties(&mut style, t);
            },
            XmlEvent::Text(_) => {},
            XmlEvent::End(n) => {
                if str_eq(n.as_str(), "style:style") {
                    book.add_style(style);
                    return p + 1;
                }
            },
        }
        p += 1;
    }
    p
}

/// The workbook after a child element of a group of styles, and the position
/// behind the element: a style or a value format is read for the use
/// `styleuse`, and, where `with_layouts` holds, a page layout too. Every
/// other element is passed over, tag by tag.
pub open spec fn styles_child(
    book: WorkBookView,
    origin: StyleOrigin,
    styleuse: StyleUse,
    with_layouts: bool,
    events: Seq<XmlEventView>,
    pos: int,
    t: XmlTagView,
    empty: bool,
) -> (WorkBookView, int) {
    if t.name == "style:style"@ {
        style_element(book, origin, styleuse, events, pos, t, empty)
    } else if format_value_type(t.name) is Some {
        format_element(book, origin, styleuse, events, pos, t, empty)
    } else if with_layouts && t.name == "style:page-layout"@ {
        page_layout_element(book, events, pos, t, empty)
    } else {
        (book, pos)
    }
}

/// Reading a child of a group of styles does not move backward and stays
/// within the events.
pub proof fn lemma_styles_child_pos(
    book: WorkBookView,
    origin: StyleOrigin,
    styleuse: StyleUse,
    with_layouts: bool,
    events: Seq<XmlEventView>,
    pos: int,
    t: XmlTagView,
    empty: bool,
)
    requires
        0 <= pos <= events.len(),
    ensures
        pos <= styles_child(book, origin, styleuse, with_layouts, events, pos, t, empty).1
            <= events.len(),
{
    lemma_style_scan_pos(events, pos, style_with_attrs(empty_style(origin, styleuse), t));
    lemma_format_scan_pos(
        events,
        pos,
        FormatState { format: format_start(origin, styleuse, t), pending: None },
    );
    lemma_page_layout_scan_pos(
        events,
        pos,
        empty_page_layout(text_or_empty(t.attr("style:name"@))),
        false,
        false,
    );
}

/// The workbook after the styles from `pos` up to the closing tag named
/// `end_tag`, and the position behind that tag.
pub open spec fn styles_scan(
    book: WorkBookView,
    origin: StyleOrigin,
    styleuse: StyleUse,
    with_layouts: bool,
    end_tag: Seq<char>,
    events: Seq<XmlEventView>,
    pos: int,
) -> (WorkBookView, int)
    decreases events.len() - pos,
{
    if pos < 0 || pos >= events.len() {
        (book, pos)
    } else {
        match events[pos] {
            XmlEventView::Start(t) => {
                let (b, p) = styles_child(
                    book,
                    origin,
                    styleuse,
                    with_layouts,
                    events,
                    pos + 1,
                    t,
                    false,
                );
                proof {
                    lemma_styles_child_pos(
                        book,
                        origin,
                        styleuse,
                        with_layouts,
                        events,
                        pos + 1,
                        t,
                        false,
                    );
                }
                styles_scan(b, origin, styleuse, with_layouts, end_tag, events, p)
            },
            XmlEventView::Empty(t) => styles_scan(
                styles_child(book, origin, styleuse, with_layouts, events, pos + 1, t, true).0,
                origin,
                styleuse,
                with_layouts,
                end_tag,
                events,
                pos + 1,
            ),
            XmlEventView::Text(_) => styles_scan(
                book,
                origin,
                styleuse,
                with_layouts,
                end_tag,
                events,
                pos + 1,
            ),
            XmlEventView::End(n) => if n == end_tag {
                (book, pos + 1)
            } else {
                styles_scan(book, origin, styleuse, with_layouts, end_tag, events, pos + 1)
            },
        }
    }
}

/// Reading a group of styles moves forward and stays within the events.
pub proof fn lemma_styles_scan_pos(
    book: WorkBookView,
    origin: StyleOrigin,
    styleuse: StyleUse,
    with_layouts: bool,
    end_tag: Seq<char>,
    events: Seq<XmlEventView>,
    pos: int,
)
    requires
        0 <= pos <= events.len(),
    ensures
        pos <= styles_scan(book, origin, styleuse, with_layouts, end_tag, events, pos).1
            <= events.len(),
    decreases events.len() - pos,
{
    if pos < events.len() {
        match events[pos] {
            XmlEventView::Start(t) => {
                let (b, p) = styles_child(
                    book,
                    origin,
                    styleuse,
                    with_layouts,
                    events,
                    pos + 1,
                    t,
                    false,
                );
                lemma_styles_child_pos(
                    book,
                    origin,
                    styleuse,
                    with_layouts,
                    events,
                    pos + 1,
                    t,
                    false,
                );
                lemma_styles_scan_pos(b, origin, styleuse, with_layouts, end_tag, events, p);
            },
            XmlEventView::Empty(t) => lemma_styles_scan_pos(
                styles_child(book, origin, styleuse, with_layouts, events, pos + 1, t, true).0,
                origin,
                styleuse,
                with_layouts,
                end_tag,
                events,
                pos + 1,
            ),
            XmlEventView::Text(_) => lemma_styles_scan_pos(
                book,
                origin,
                styleuse,
                with_layouts,
                end_tag,
                events,
                pos + 1,
            ),
            XmlEventView::End(n) => if n != end_tag {
                lemma_styles_scan_pos(
                    book,
                    origin,
                    styleuse,
                    with_layouts,
                    end_tag,
                    events,
                    pos + 1,
                )
            },
        }
    }
}

/// Reads one child element of a group of styles. `pos` is the position
/// behind its tag. Returns the position behind the element.
fn read_styles_child(
    book: &mut WorkBook,
    origin: StyleOrigin,
    styleuse: StyleUse,
    with_layouts: bool,
    events: &Vec<XmlEvent>,
    pos: usize,
    t: &XmlTag,
    empty: bool,
) -> (r: usize)
    requires
        pos <= events@.len(),
    ensures
        (final(book)@, r as int) == styles_child(
            old(book)@,
            origin,
            styleuse,
            with_layouts,
            events_view(events@),
            pos as int,
            t@,
            empty,
        ),
        pos <= r <= events@.len(),
{
    if str_eq(t.name.as_str(), "style:style") {
        read_style_style(book, origin, styleuse, events, pos, t, empty)
    } else if decode_format_value_type(t.name.as_str()).is_some() {
        read_value_format(book, origin, styleuse, events, pos, t, empty)
    } else if with_layouts && str_eq(t.name.as_str(), "style:page-layout") {
        read_page_layout(book, events, pos, t, empty)
    } else {
        pos
    }
}

/// Reads a group of styles from `pos` up to the closing tag named
/// `end_tag`. Returns the position behind that tag.
fn read_styles_group(
    book: &mut WorkBook,
    origin: StyleOrigin,
    styleuse: StyleUse,
    with_layouts: bool,
    end_tag: &str,
    events: &Vec<XmlEvent>,
    pos: usize,
) -> (r: usize)
    requires
        pos <= events@.len(),
    ensures
        (final(book)@, r as int) == styles_scan(
            old(book)@,
            origin,
            styleuse,
            with_layouts,
            end_tag@,
            events_view(events@),
            pos as int,
        ),
        pos <= r <= events@.len(),
{
    let ghost ev = events_view(events@);
    let mut p = pos;
    while p < events.len()
        invariant
            ev == events_view(events@),
            pos <= p <= events@.len(),
            styles_scan(old(book)@, origin, styleuse, with_layouts, end_tag@, ev, pos as int)
                == styles_scan(book@, origin, styleuse, with_layouts, end_tag@, ev, p as int),
        decreases events@.len() - p,
    {
        assert(ev[p as int] == events@[p as int]@);
        match &events[p] {
            XmlEvent::Start(t) => {
                p = read_styles_child(
                    book,
                    origin,
                    styleuse,
                    with_layouts,
                    events,
                    p + 1,
                    t,
                    false,
                );
            },
            XmlEvent::Empty(t) => {
                let _ = read_styles_child(
                    book,
                    origin,
                    styleuse,
                    with_layouts,
                    events,
                    p + 1,
                    t,
                    true,
                );
                p += 1;
            },
            XmlEvent::Text(_) => {
                p += 1;
            },
            XmlEvent::End(n) => {
                if str_eq(n.as_str(), end_tag) {
                    return p + 1;
                }
                p += 1;
            },
        }
    }
    p
}

/// The workbook after the named styles from `pos` up to their closing tag,
/// and the position behind that tag.
pub open spec fn named_styles_scan(
    book: WorkBookView,
    origin: StyleOrigin,
    events: Seq<XmlEventView>,
    pos: int,
) -> (WorkBookView, int) {
    styles_scan(book, origin, StyleUse::Named, false, "office:styles"@, events, pos)
}

/// The workbook after the automatic styles from `pos` up to their closing
/// tag, and the position behind that tag. Page layouts are read among them.
pub open spec fn auto_styles_scan(
    book: WorkBookView,
    origin: StyleOrigin,
    events: Seq<XmlEventView>,
    pos: int,
) -> (WorkBookView, int) {
    styles_scan(book, origin, StyleUse::Automatic, true, "office:automatic-styles"@, events, pos)
}

/// Reads the named styles and value formats from `pos` up to their closing
/// tag. Returns the position behind that tag.
pub fn read_styles_tag(
    book: &mut WorkBook,
    origin: StyleOrigin,
    events: &Vec<XmlEvent>,
    pos: usize,
) -> (r: usize)
    requires
        pos <= events@.len(),
    ensures
        (final(book)@, r as int) == named_styles_scan(
            old(book)@,
            origin,
            events_view(events@),
            pos as int,
        ),
        pos <= r <= events@.len(),
{
    read_styles_group(book, origin, StyleUse::Named, false, "office:styles", events, pos)
}

/// Reads the automatic styles, value formats and page layouts from `pos` up
/// to their closing tag. Returns the position behind that tag.
pub fn read_auto_styles(
    book: &mut WorkBook,
    origin: StyleOrigin,
    events: &Vec<XmlEvent>,
    pos: usize,
) -> (r: usize)
    requires
        pos <= events@.len(),
    ensures
        (final(book)@, r as int) == auto_styles_scan(
            old(book)@,
            origin,
            events_view(events@),
            pos as int,
        ),
        pos <= r <= events@.len(),
{
    read_styles_group(
        book,
        origin,
        StyleUse::Automatic,
        true,
        "office:automatic-styles",
        events,
        pos,
    )
}

} // verus!
