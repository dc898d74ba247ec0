//! Readers for page layouts and master pages.

use vstd::prelude::*;
use crate::io::markup::{
    headerfooter_of, lemma_headerfooter_scan_pos, read_headerfooter,
};
use crate::namemap::{lemma_last_named, pairs_get, pairs_insert, pairs_insert_all};
use crate::strs::{copy_or_empty, str_eq, text_or_empty};
use crate::style::{
    empty_header_footer, empty_page_layout, HeaderFooter, HeaderFooterView, PageLayout,
    PageLayoutView,
};
use crate::workbook::{WorkBook, WorkBookView};
use crate::xml::{events_view, XmlEvent, XmlEventView, XmlTag, XmlTagView};

verus! {

/// The page layout `pl` after the child element with the tag `t`: the
/// properties of the page go to the layout's own bag, the properties of a
/// header or footer to the bag of whichever of the two the reader is inside.
pub open spec fn layout_child(
    pl: PageLayoutView,
    t: XmlTagView,
    in_header: bool,
    in_footer: bool,
) -> PageLayoutView {
    if t.name == "style:page-layout-properties"@ {
        PageLayoutView { prp: pairs_insert_all(pl.prp, t.attrs), ..pl }
    } else if t.name == "style:header-footer-properties"@ {
        PageLayoutView {
            header_prp: if in_header {
                pairs_insert_all(pl.header_prp, t.attrs)
            } else {
                pl.header_prp
            },
            footer_prp: if in_footer {
                pairs_insert_all(pl.footer_prp, t.attrs)
            } else {
                pl.footer_prp
            },
            ..pl
        }
    } else {
        pl
    }
}

/// The page layout read from `pos` up to its closing tag, starting from
/// `pl`, and the position behind that tag. `None` where the events end
/// before the closing tag.
pub open spec fn page_layout_scan(
    events: Seq<XmlEventView>,
    pos: int,
    pl: PageLayoutView,
    in_header: bool,
    in_footer: bool,
) -> (Option<PageLayoutView>, int)
    decreases events.len() - pos,
{
    if pos < 0 || pos >= events.len() {
        (None, pos)
    } else {
        match events[pos] {
            XmlEventView::Start(t) => page_layout_scan(
                events,
                pos + 1,
                layout_child(pl, t, in_header, in_footer),
                in_header || t.name == "style:header-style"@,
                in_footer || t.name == "style:footer-style"@,
            ),
            XmlEventView::Empty(t) => page_layout_scan(
                events,
                pos + 1,
                layout_child(pl, t, in_header, in_footer),
                in_header,
                in_footer,
            ),
            XmlEventView::Text(_) => page_layout_scan(events, pos + 1, pl, in_header, in_footer),
            XmlEventView::End(n) => if n == "style:page-layout"@ {
                (Some(pl), pos + 1)
            } else {
                page_layout_scan(
                    events,
                    pos + 1,
                    pl,
                    in_header && n != "style:header-style"@,
                    in_footer && n != "style:footer-style"@,
                )
            },
        }
    }
}

/// The workbook after the page layout element with the tag `tag`, and the
/// position behind the element. `pos` is the position behind the tag, and
/// `empty` tells that the element has no content. A layout whose closing
/// tag is missing is not stored.
pub open spec fn page_layout_element(
    book: WorkBookView,
    events: Seq<XmlEventView>,
    pos: int,
    tag: XmlTagView,
    empty: bool,
) -> (WorkBookView, int) {
    let pl = empty_page_layout(text_or_empty(tag.attr("style:name"@)));
    if empty {
        (book.with_pagelayout(pl), pos)
    } else {
        match page_layout_scan(events, pos, pl, false, false) {
            (Some(done), p) => (book.with_pagelayout(done), p),
            (None, p) => (book, p),
        }
    }
}

/// Reading a page layout moves forward and stays within the events.
pub proof fn lemma_page_layout_scan_pos(
    events: Seq<XmlEventView>,
    pos: int,
    pl: PageLayoutView,
    in_header: bool,
    in_footer: bool,
)
    requires
        0 <= pos <= events.len(),
    ensures
        pos <= page_layout_scan(events, pos, pl, in_header, in_footer).1 <= events.len(),
    decreases events.len() - pos,
{
    if pos < events.len() {
        match events[pos] {
            XmlEventView::Start(t) => lemma_page_layout_scan_pos(
                events,
                pos + 1,
                layout_child(pl, t, in_header, in_footer),
                in_header || t.name == "style:header-style"@,
                in_footer || t.name == "style:footer-style"@,
            ),
            XmlEventView::Empty(t) => lemma_page_layout_scan_pos(
                events,
                pos + 1,
                layout_child(pl, t, in_header, in_footer),
                in_header,
                in_footer,
            ),
            XmlEventView::Text(_) => lemma_page_layout_scan_pos(
                events,
                pos + 1,
                pl,
                in_header,
                in_footer,
            ),
            XmlEventView::End(n) => if n != "style:page-layout"@ {
                lemma_page_layout_scan_pos(
                    events,
                    pos + 1,
                    pl,
                    in_header && n != "style:header-style"@,
                    in_footer && n != "style:footer-style"@,
                )
            },
        }
    }
}

/// Copies the attributes of a child element of a page layout into the bag
/// they belong to.
pub fn copy_pagelayout_properties(
    pagelayout: &mut PageLayout,
    xml_tag: &XmlTag,
    in_header: bool,
    in_footer: bool,
)
    ensures
        final(pagelayout)@ == layout_child(old(pagelayout)@, xml_tag@, in_header, in_footer),
{
    if str_eq(xml_tag.name.as_str(), "style:page-layout-properties") {
        pagelayout.prp.insert_all(&xml_tag.attrs);
    } else if str_eq(xml_tag.name.as_str(), "style:header-footer-properties") {
        if in_header {
            pagelayout.header_prp.insert_all(&xml_tag.attrs);
        }
        if in_footer {
            pagelayout.footer_prp.insert_all(&xml_tag.attrs);
        }
    }
}

/// Reads the page layout element with the tag `xml_tag` and stores it in the
/// workbook. `pos` is the position behind the tag, and `empty` tells that
/// the element has no content. Returns the position behind the element.
pub fn read_page_layout(
    book: &mut WorkBook,
    events: &Vec<XmlEvent>,
    pos: usize,
    xml_tag: &XmlTag,
    empty: bool,
) -> (r: usize)
    requires
        pos <= events@.len(),
    ensures
        (final(book)@, r as int) == page_layout_element(
            old(book)@,
            events_view(events@),
            pos as int,
            xml_tag@,
            empty,
        ),
        pos <= r <= events@.len(),
{
    let ghost ev = events_view(events@);
    let mut pl = PageLayout::new(copy_or_empty(xml_tag.attr("style:name")));
    let ghost pl0 = pl@;
    if empty {
        book.add_pagelayout(pl);
        return pos;
    }
    let mut in_header = false;
    let mut in_footer = false;
    let mut p = pos;
    proof {
        lemma_page_layout_scan_pos(ev, pos as int, pl0, false, false);
    }
    while p < events.len()
        invariant
            ev == events_view(events@),
            pos <= p <= events@.len(),
            page_layout_scan(ev, pos as int, pl0, false, false) == page_layout_scan(
                ev,
                p as int,
                pl@,
                in_header,
                in_footer,
            ),
            pos <= page_layout_scan(ev, pos as int, pl0, false, false).1 <= events@.len(),
            *book == *old(book),
            !empty,
            pl0 == empty_page_layout(text_or_empty(xml_tag@.attr("style:name"@))),
        decreases events@.len() - p,
    {
        assert(ev[p as int] == events@[p as int]@);
        match &events[p] {
            XmlEvent::Start(t) => {
                copy_pagelayout_properties(&mut pl, t, in_header, in_footer);
                if str_eq(t.name.as_str(), "style:header-style") {
                    in_header = true;
                }
                if str_eq(t.name.as_str(), "style:footer-style") {
                    in_footer = true;
                }
            },
            XmlEvent::Empty(t) => {
                copy_pagelayout_properties(&mut pl, t, in_header, in_footer);
            },
            XmlEvent::Text(_) => {},
            XmlEvent::End(n) => {
                if str_eq(n.as_str(), "style:page-layout") {
                    book.add_pagelayout(pl);
                    return p + 1;
                }
                if str_eq(n.as_str(), "style:header-style") {
                    in_header = false;
                }
                if str_eq(n.as_str(), "style:footer-style") {
                    in_footer = false;
                }
            },
        }
        p += 1;
    }
    p
}

/// Whether `name` names a header or a footer of a master page.
pub open spec fn is_header_footer(name: Seq<char>) -> bool {
    name == "style:header"@ || name == "style:header-left"@ || name == "style:footer"@ || name
        == "style:footer-left"@
}

/// The page layout `pl` with the header or footer named `name` set to `hf`.
pub open spec fn with_header_footer(
    pl: PageLayoutView,
    name: Seq<char>,
    hf: HeaderFooterView,
) -> PageLayoutView {
    if name == "style:header"@ {
        PageLayoutView { header: Some(hf), ..pl }
    } else if name == "style:header-left"@ {
        PageLayoutView { header_left: Some(hf), ..pl }
    } else if name == "style:footer"@ {
        PageLayoutView { footer: Some(hf), ..pl }
    } else if name == "style:footer-left"@ {
        PageLayoutView { footer_left: Some(hf), ..pl }
    } else {
        pl
    }
}

/// The page layout after the children of a master page, read from `pos` up
/// to the closing tag of the master page, and the position behind that tag.
/// Each header and footer is read up to its own closing tag; one without
/// content is empty.
pub open spec fn master_page_scan(events: Seq<XmlEventView>, pos: int, pl: PageLayoutView) -> (
    PageLayoutView,
    int,
)
    decreases events.len() - pos,
{
    if pos < 0 || pos >= events.len() {
        (pl, pos)
    } else {
        match events[pos] {
            XmlEventView::Start(t) => if is_header_footer(t.name) {
                let (hf, p) = headerfooter_of(events, pos + 1, t.name);
                proof {
                    lemma_headerfooter_scan_pos(events, pos + 1, t.name, empty_header_footer());
                }
                master_page_scan(events, p, with_header_footer(pl, t.name, hf))
            } else {
                master_page_scan(events, pos + 1, pl)
            },
            XmlEventView::Empty(t) => master_page_scan(
                events,
                pos + 1,
                with_header_footer(pl, t.name, empty_header_footer()),
            ),
            XmlEventView::Text(_) => master_page_scan(events, pos + 1, pl),
            XmlEventView::End(n) => if n == "style:master-page"@ {
                (pl, pos + 1)
            } else {
                master_page_scan(events, pos + 1, pl)
            },
        }
    }
}

/// Reading a master page moves forward and stays within the events.
pub proof fn lemma_master_page_scan_pos(events: Seq<XmlEventView>, pos: int, pl: PageLayoutView)
    requires
        0 <= pos <= events.len(),
    ensures
        pos <= master_page_scan(events, pos, pl).1 <= events.len(),
    decreases events.len() - pos,
{
    if pos < events.len() {
        match events[pos] {
            XmlEventView::Start(t) => if is_header_footer(t.name) {
                let (hf, p) = headerfooter_of(events, pos + 1, t.name);
                lemma_headerfooter_scan_pos(events, pos + 1, t.name, empty_header_footer());
                lemma_master_page_scan_pos(events, p, with_header_footer(pl, t.name, hf));
            } else {
                lemma_master_page_scan_pos(events, pos + 1, pl);
            },
            XmlEventView::Empty(t) => lemma_master_page_scan_pos(
                events,
                pos + 1,
                with_header_footer(pl, t.name, empty_header_footer()),
            ),
            XmlEventView::Text(_) => lemma_master_page_scan_pos(events, pos + 1, pl),
            XmlEventView::End(n) => if n != "style:master-page"@ {
                lemma_master_page_scan_pos(events, pos + 1, pl);
            },
        }
    }
}

/// The name of the page layout that a master page refers to.
pub open spec fn master_page_layout_name(tag: XmlTagView) -> Seq<char> {
    text_or_empty(tag.attr("style:page-layout-name"@))
}

/// The page layout that a master page starts from: the stored layout of the
/// name it refers to, or a new layout of that name, with the master page's
/// name linked to it.
pub open spec fn master_page_layout(book: WorkBookView, tag: XmlTagView) -> PageLayoutView {
    let name = master_page_layout_name(tag);
    let pl = match pairs_get(book.page_layouts, name) {
        Some(pl) => pl,
        None => empty_page_layout(name),
    };
    PageLayoutView { masterpage_name: Some(text_or_empty(tag.attr("style:name"@))), ..pl }
}

/// The workbook after the master page element with the tag `tag`, and the
/// position behind the element: the page layout that the master page refers
/// to carries its name and its headers and footers.
pub open spec fn master_page_element(
    book: WorkBookView,
    events: Seq<XmlEventView>,
    pos: int,
    tag: XmlTagView,
    empty: bool,
) -> (WorkBookView, int) {
    let pl = master_page_layout(book, tag);
    let (done, p) = if empty {
        (pl, pos)
    } else {
        master_page_scan(events, pos, pl)
    };
    (
        WorkBookView {
            page_layouts: pairs_insert(book.page_layouts, master_page_layout_name(tag), done),
            ..book
        },
        p,
    )
}

/// Sets the header or footer named `name` of a page layout.
fn set_header_footer(pl: &mut PageLayout, name: &str, hf: HeaderFooter)
    ensures
        final(pl)@ == with_header_footer(old(pl)@, name@, hf@),
{
    if str_eq(name, "style:header") {
        pl.header = Some(hf);
    } else if str_eq(name, "style:header-left") {
        pl.header_left = Some(hf);
    } else if str_eq(name, "style:footer") {
        pl.footer = Some(hf);
    } else if str_eq(name, "style:footer-left") {
        pl.footer_left = Some(hf);
    }
}

/// Whether `name` names a header or a footer of a master page.
fn names_header_footer(name: &str) -> (r: bool)
    ensures
        r == is_header_footer(name@),
{
    str_eq(name, "style:header") || str_eq(name, "style:header-left") || str_eq(
        name,
        "style:footer",
    ) || str_eq(name, "style:footer-left")
}

/// Reads the master page element with the tag `xml_tag` into the page layout
/// it refers to. `pos` is the position behind the tag, and `empty` tells
/// that the element has no content. Returns the position behind the element.
pub fn read_master_page(
    book: &mut WorkBook,
    events: &Vec<XmlEvent>,
    pos: usize,
    xml_tag: &XmlTag,
    empty: bool,
) -> (r: usize)
    requires
        pos <= events@.len(),
    ensures
        (final(book)@, r as int) == master_page_element(
            old(book)@,
            events_view(events@),
            pos as int,
            xml_tag@,
            empty,
        ),
        pos <= r <= events@.len(),
{
    let ghost ev = events_view(events@);
    let masterpage_name = copy_or_empty(xml_tag.attr("style:name"));
    let pagelayout_name = copy_or_empty(xml_tag.attr("style:page-layout-name"));
    let found = book.page_layouts.position(pagelayout_name.as_str());
    let ghost layouts = book@.page_layouts;
    proof {
        lemma_last_named(layouts, pagelayout_name@);
    }
    // The layout leaves its place while it is worked on.
    let mut pl = match found {
        Some(i) => book.page_layouts.replace_at(i, PageLayout::new(String::new())),
        None => PageLayout::new(pagelayout_name.clone()),
    };
    pl.masterpage_name = Some(masterpage_name);
    let ghost pl0 = pl@;
    assert(pl0 == master_page_layout(old(book)@, xml_tag@));
    let mut p = pos;
    let mut done = empty;
    while !done && p < events.len()
        invariant
            ev == events_view(events@),
            pos <= p <= events@.len(),
            empty ==> done && p == pos && pl@ == pl0,
            !empty ==> master_page_scan(ev, pos as int, pl0) == (if done {
                (pl@, p as int)
            } else {
                master_page_scan(ev, p as int, pl@)
            }),
        decreases events@.len() - p + (if done { 0int } else { 1int }),
    {
        assert(ev[p as int] == events@[p as int]@);
        match &events[p] {
            XmlEvent::Start(t) => {
                if names_header_footer(t.name.as_str()) {
                    let (hf, next) = read_headerfooter(events, p + 1, t.name.as_str());
                    proof {
                        lemma_headerfooter_scan_pos(ev, p + 1, t.name@, empty_header_footer());
                    }
                    set_header_footer(&mut pl, t.name.as_str(), hf);
                    p = next;
                } else {
                    p += 1;
                }
            },
            XmlEvent::Empty(t) => {
                set_header_footer(&mut pl, t.name.as_str(), HeaderFooter::new());
                p += 1;
            },
            XmlEvent::Text(_) => {
                p += 1;
            },
            XmlEvent::End(n) => {
                done = str_eq(n.as_str(), "style:master-page");
                p += 1;
            },
        }
    }
    match found {
        Some(i) => {
            let _ = book.page_layouts.replace_at(i, pl);
            assert(book@.page_layouts =~= layouts.update(i as int, (pagelayout_name@, pl@)));
        },
        None => {
            book.page_layouts.insert(pagelayout_name, pl);
        },
    }
    p
}

/// The workbook after the master pages from `pos` up to the closing tag of
/// the master styles, and the position behind that tag.
pub open spec fn master_styles_scan(book: WorkBookView, events: Seq<XmlEventView>, pos: int) -> (
    WorkBookView,
    int,
)
    decreases events.len() - pos,
{
    if pos < 0 || pos >= events.len() {
        (book, pos)
    } else {
        match events[pos] {
            XmlEventView::Start(t) => if t.name == "style:master-page"@ {
                let (b, p) = master_page_element(book, events, pos + 1, t, false);
                proof {
                    lemma_master_page_scan_pos(events, pos + 1, master_page_layout(book, t));
                }
                master_styles_scan(b, events, p)
            } else {
                master_styles_scan(book, events, pos + 1)
            },
            XmlEventView::Empty(t) => if t.name == "style:master-page"@ {
                master_styles_scan(
                    master_page_element(book, events, pos + 1, t, true).0,
                    events,
                    pos + 1,
                )
            } else {
                master_styles_scan(book, events, pos + 1)
            },
            XmlEventView::Text(_) => master_styles_scan(book, events, pos + 1),
            XmlEventView::End(n) => if n == "office:master-styles"@ {
                (book, pos + 1)
            } else {
                master_styles_scan(book, events, pos + 1)
            },
        }
    }
}

/// Reading the master styles moves forward and stays within the events.
pub proof fn lemma_master_styles_scan_pos(book: WorkBookView, events: Seq<XmlEventView>, pos: int)
    requires
        0 <= pos <= events.len(),
    ensures
        pos <= master_styles_scan(book, events, pos).1 <= events.len(),
    decreases events.len() - pos,
{
    if pos < events.len() {
        match events[pos] {
            XmlEventView::Start(t) => if t.name == "style:master-page"@ {
                let (b, p) = master_page_element(book, events, pos + 1, t, false);
                lemma_master_page_scan_pos(events, pos + 1, master_page_layout(book, t));
                lemma_master_styles_scan_pos(b, events, p);
            } else {
                lemma_master_styles_scan_pos(book, events, pos + 1);
            },
            XmlEventView::Empty(t) => if t.name == "style:master-page"@ {
                lemma_master_styles_scan_pos(
                    master_page_element(book, events, pos + 1, t, true).0,
                    events,
                    pos + 1,
                );
            } else {
                lemma_master_styles_scan_pos(book, events, pos + 1);
            },
            XmlEventView::Text(_) => lemma_master_styles_scan_pos(book, events, pos + 1),
            XmlEventView::End(n) => if n != "office:master-styles"@ {
                lemma_master_styles_scan_pos(book, events, pos + 1);
            },
        }
    }
}

/// Reads the master pages from `pos` up to the closing tag of the master
/// styles. Returns the position behind that tag.
pub fn read_master_styles(book: &mut WorkBook, events: &Vec<XmlEvent>, pos: usize) -> (r: usize)
    requires
        pos <= events@.len(),
    ensures
        (final(book)@, r as int) == master_styles_scan(
            old(book)@,
            events_view(events@),
            pos as int,
        ),
        pos <= r <= events@.len(),
{
    let ghost ev = events_view(events@);
    let mut p = pos;
    proof {
        lemma_master_styles_scan_pos(old(book)@, ev, pos as int);
    }
    while p < events.len()
        invariant
            ev == events_view(events@),
            pos <= p <= events@.len(),
            master_styles_scan(old(book)@, ev, pos as int) == master_styles_scan(
                book@,
                ev,
                p as int,
            ),
            pos <= master_styles_scan(old(book)@, ev, pos as int).1 <= events@.len(),
        decreases events@.len() - p,
    {
        assert(ev[p as int] == events@[p as int]@);
        match &events[p] {
            XmlEvent::Start(t) => {
                if str_eq(t.name.as_str(), "style:master-page") {
                    proof {
                        lemma_master_page_scan_pos(ev, p + 1, master_page_layout(book@, t@));
                    }
                    p = read_master_page(book, events, p + 1, t, false);
                } else {
                    p += 1;
                }
            },
            XmlEvent::Empty(t) => {
                if str_eq(t.name.as_str(), "style:master-page") {
                    let _ = read_master_page(book, events, p + 1, t, true);
                }
                p += 1;
            },
            XmlEvent::Text(_) => {
                p += 1;
            },
            XmlEvent::End(n) => {
                if str_eq(n.as_str(), "office:master-styles") {
                    return p + 1;
                }
                p += 1;
            },
        }
    }
    p
}

} // verus!
