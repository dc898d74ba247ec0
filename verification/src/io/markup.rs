//! Readers for markup that is preserved as it stands: the regions of headers
//! and footers.

use vstd::prelude::*;
use crate::composit::{Composit, CompositTag, CompositTagView, CompositVec, CompositView};
use crate::namemap::{pairs_insert_all, NameMap};
use crate::strs::str_eq;
use crate::style::{empty_header_footer, HeaderFooter, HeaderFooterView};
use crate::xml::{events_view, XmlEvent, XmlEventView, XmlTag, XmlTagView};

verus! {

/// The preserved form of a tag: its name and all its attributes.
pub open spec fn composit_tag(t: XmlTagView) -> CompositTagView {
    CompositTagView { name: t.name, attrs: pairs_insert_all(Seq::empty(), t.attrs) }
}

/// The markup from `pos` up to the closing tag named `end_tag`, appended to
/// `acc`, and the position behind that closing tag. Every event before it
/// becomes one element, closing tags of other names included. Where the
/// events end first, all of them are taken.
pub open spec fn composit_scan(
    events: Seq<XmlEventView>,
    pos: int,
    end_tag: Seq<char>,
    acc: Seq<CompositView>,
) -> (Seq<CompositView>, int)
    decreases events.len() - pos,
{
    if pos < 0 || pos >= events.len() {
        (acc, pos)
    } else {
        match events[pos] {
            XmlEventView::Start(t) => composit_scan(
                events,
                pos + 1,
                end_tag,
                acc.push(CompositView::Start(composit_tag(t))),
            ),
            XmlEventView::Empty(t) => composit_scan(
                events,
                pos + 1,
                end_tag,
                acc.push(CompositView::Empty(composit_tag(t))),
            ),
            XmlEventView::Text(s) => composit_scan(
                events,
                pos + 1,
                end_tag,
                acc.push(CompositView::Text(s)),
            ),
            XmlEventView::End(n) => if n == end_tag {
                (acc, pos + 1)
            } else {
                composit_scan(events, pos + 1, end_tag, acc.push(CompositView::End(n)))
            },
        }
    }
}

/// The markup of an element whose opening tag stands before `pos` and whose
/// closing tag is named `end_tag`, and the position behind the element.
pub open spec fn composit_of(events: Seq<XmlEventView>, pos: int, end_tag: Seq<char>) -> (
    Seq<CompositView>,
    int,
) {
    composit_scan(events, pos, end_tag, Seq::empty())
}

/// Reading markup moves forward and stays within the events.
pub proof fn lemma_composit_scan_pos(
    events: Seq<XmlEventView>,
    pos: int,
    end_tag: Seq<char>,
    acc: Seq<CompositView>,
)
    requires
        0 <= pos <= events.len(),
    ensures
        pos <= composit_scan(events, pos, end_tag, acc).1 <= events.len(),
        pos < events.len() ==> pos < composit_scan(events, pos, end_tag, acc).1,
    decreases events.len() - pos,
{
    if pos < events.len() {
        match events[pos] {
            XmlEventView::Start(t) => lemma_composit_scan_pos(
                events,
                pos + 1,
                end_tag,
                acc.push(CompositView::Start(composit_tag(t))),
            ),
            XmlEventView::Empty(t) => lemma_composit_scan_pos(
                events,
                pos + 1,
                end_tag,
                acc.push(CompositView::Empty(composit_tag(t))),
            ),
            XmlEventView::Text(s) => lemma_composit_scan_pos(
                events,
                pos + 1,
                end_tag,
                acc.push(CompositView::Text(s)),
            ),
            XmlEventView::End(n) => if n != end_tag {
                lemma_composit_scan_pos(events, pos + 1, end_tag, acc.push(CompositView::End(n)))
            },
        }
    }
}

/// The preserved form of a tag.
pub fn to_composit_tag(t: &XmlTag) -> (r: CompositTag)
    ensures
        r@ == composit_tag(t@),
{
    let mut attr: NameMap<String> = NameMap::new();
    attr.insert_all(&t.attrs);
    CompositTag { tag: t.name.clone(), attr }
}

/// Reads the markup of an element whose opening tag stands before `pos`, up
/// to its closing tag named `end_tag`. Returns the markup and the position
/// behind the closing tag.
pub fn read_composit(events: &Vec<XmlEvent>, pos: usize, end_tag: &str) -> (r: (
    CompositVec,
    usize,
))
    requires
        pos <= events@.len(),
    ensures
        (r.0@, r.1 as int) == composit_of(events_view(events@), pos as int, end_tag@),
        pos <= r.1 <= events@.len(),
{
    let ghost ev = events_view(events@);
    let mut cv = CompositVec::new();
    let mut p = pos;
    proof {
        lemma_composit_scan_pos(ev, pos as int, end_tag@, Seq::empty());
    }
    while p < events.len()
        invariant
            ev == events_view(events@),
            pos <= p <= events@.len(),
            composit_of(ev, pos as int, end_tag@) == composit_scan(ev, p as int, end_tag@, cv@),
            pos <= composit_of(ev, pos as int, end_tag@).1 <= events@.len(),
        decreases events@.len() - p,
    {
        assert(ev[p as int] == events@[p as int]@);
        match &events[p] {
            XmlEvent::Start(t) => {
                cv.push(Composit::Start(to_composit_tag(t)));
            },
            XmlEvent::Empty(t) => {
                cv.push(Composit::Empty(to_composit_tag(t)));
            },
            XmlEvent::Text(s) => {
                cv.push(Composit::Text(s.clone()));
            },
            XmlEvent::End(n) => {
                if str_eq(n.as_str(), end_tag) {
                    return (cv, p + 1);
                }
                cv.push(Composit::End(n.clone()));
            },
        }
        p += 1;
    }
    (cv, p)
}

/// Whether `name` names one of the parts of a header or footer: a region or
/// the paragraph that takes the whole width.
pub open spec fn is_region(name: Seq<char>) -> bool {
    name == "style:region-left"@ || name == "style:region-center"@ || name
        == "style:region-right"@ || name == "text:p"@
}

/// The header or footer `hf` with the part named `name` set to `cv`.
pub open spec fn with_region(
    hf: HeaderFooterView,
    name: Seq<char>,
    cv: Seq<CompositView>,
) -> HeaderFooterView {
    if name == "style:region-left"@ {
        HeaderFooterView { region_left: cv, ..hf }
    } else if name == "style:region-center"@ {
        HeaderFooterView { region_center: cv, ..hf }
    } else if name == "style:region-right"@ {
        HeaderFooterView { region_right: cv, ..hf }
    } else if name == "text:p"@ {
        HeaderFooterView { content: cv, ..hf }
    } else {
        hf
    }
}

/// The header or footer read from `pos` up to the closing tag named
/// `end_tag`, starting from `hf`, and the position behind that closing tag.
/// Each part takes the markup of its element; an element without content
/// gives an empty part. Everything else is passed over.
pub open spec fn headerfooter_scan(
    events: Seq<XmlEventView>,
    pos: int,
    end_tag: Seq<char>,
    hf: HeaderFooterView,
) -> (HeaderFooterView, int)
    decreases events.len() - pos,
{
    if pos < 0 || pos >= events.len() {
        (hf, pos)
    } else {
        match events[pos] {
            XmlEventView::Start(t) => if is_region(t.name) {
                let (cv, p) = composit_of(events, pos + 1, t.name);
                proof {
                    lemma_composit_scan_pos(events, pos + 1, t.name, Seq::empty());
                }
                headerfooter_scan(events, p, end_tag, with_region(hf, t.name, cv))
            } else {
                headerfooter_scan(events, pos + 1, end_tag, hf)
            },
            XmlEventView::Empty(t) => headerfooter_scan(
                events,
                pos + 1,
                end_tag,
                with_region(hf, t.name, Seq::empty()),
            ),
            XmlEventView::Text(_) => headerfooter_scan(events, pos + 1, end_tag, hf),
            XmlEventView::End(n) => if n == end_tag {
                (hf, pos + 1)
            } else {
                headerfooter_scan(events, pos + 1, end_tag, hf)
            },
        }
    }
}

/// The header or footer whose opening tag stands before `pos`.
pub open spec fn headerfooter_of(events: Seq<XmlEventView>, pos: int, end_tag: Seq<char>) -> (
    HeaderFooterView,
    int,
) {
    headerfooter_scan(events, pos, end_tag, empty_header_footer())
}

/// Reading a header or footer moves forward and stays within the events.
pub proof fn lemma_headerfooter_scan_pos(
    events: Seq<XmlEventView>,
    pos: int,
    end_tag: Seq<char>,
    hf: HeaderFooterView,
)
    requires
        0 <= pos <= events.len(),
    ensures
        pos <= headerfooter_scan(events, pos, end_tag, hf).1 <= events.len(),
        pos < events.len() ==> pos < headerfooter_scan(events, pos, end_tag, hf).1,
    decreases events.len() - pos,
{
    if pos < events.len() {
        match events[pos] {
            XmlEventView::Start(t) => if is_region(t.name) {
                let (cv, p) = composit_of(events, pos + 1, t.name);
                lemma_composit_scan_pos(events, pos + 1, t.name, Seq::empty());
                lemma_headerfooter_scan_pos(events, p, end_tag, with_region(hf, t.name, cv));
            } else {
                lemma_headerfooter_scan_pos(events, pos + 1, end_tag, hf);
            },
            XmlEventView::Empty(t) => lemma_headerfooter_scan_pos(
                events,
                pos + 1,
                end_tag,
                with_region(hf, t.name, Seq::empty()),
            ),
            XmlEventView::Text(_) => lemma_headerfooter_scan_pos(events, pos + 1, end_tag, hf),
            XmlEventView::End(n) => if n != end_tag {
                lemma_headerfooter_scan_pos(events, pos + 1, end_tag, hf);
            },
        }
    }
}

/// Sets the part named `name` of a header or footer.
fn set_region(hf: &mut HeaderFooter, name: &str, cv: CompositVec)
    ensures
        final(hf)@ == with_region(old(hf)@, name@, cv@),
{
    if str_eq(name, "style:region-left") {
        hf.region_left = cv;
    } else if str_eq(name, "style:region-center") {
        hf.region_center = cv;
    } else if str_eq(name, "style:region-right") {
        hf.region_right = cv;
    } else if str_eq(name, "text:p") {
        hf.content = cv;
    }
}

/// Whether `name` names one of the parts of a header or footer.
fn names_region(name: &str) -> (r: bool)
    ensures
        r == is_region(name@),
{
    str_eq(name, "style:region-left") || str_eq(name, "style:region-center") || str_eq(
        name,
        "style:region-right",
    ) || str_eq(name, "text:p")
}

/// Reads a header or footer whose opening tag stands before `pos`, up to its
/// closing tag named `end_tag`. Returns it and the position behind the
/// closing tag.
pub fn read_headerfooter(events: &Vec<XmlEvent>, pos: usize, end_tag: &str) -> (r: (
    HeaderFooter,
    usize,
))
    requires
        pos <= events@.len(),
    ensures
        (r.0@, r.1 as int) == headerfooter_of(events_view(events@), pos as int, end_tag@),
        pos <= r.1 <= events@.len(),
{
    let ghost ev = events_view(events@);
    let mut hf = HeaderFooter::new();
    let mut p = pos;
    proof {
        lemma_headerfooter_scan_pos(ev, pos as int, end_tag@, empty_header_footer());
    }
    while p < events.len()
        invariant
            ev == events_view(events@),
            pos <= p <= events@.len(),
            headerfooter_of(ev, pos as int, end_tag@) == headerfooter_scan(
                ev,
                p as int,
                end_tag@,
                hf@,
            ),
            pos <= headerfooter_of(ev, pos as int, end_tag@).1 <= events@.len(),
        decreases events@.len() - p,
    {
        assert(ev[p as int] == events@[p as int]@);
        match &events[p] {
            XmlEvent::Start(t) => {
                if names_region(t.name.as_str()) {
                    let (cv, next) = read_composit(events, p + 1, t.name.as_str());
                    proof {
                        lemma_composit_scan_pos(ev, p + 1, t.name@, Seq::empty());
                    }
                    set_region(&mut hf, t.name.as_str(), cv);
                    p = next;
                } else {
                    p += 1;
                }
            },
            XmlEvent::Empty(t) => {
                set_region(&mut hf, t.name.as_str(), CompositVec::new());
                p += 1;
            },
            XmlEvent::Text(_) => {
                p += 1;
            },
            XmlEvent::End(n) => {
                if str_eq(n.as_str(), end_tag) {
                    return (hf, p + 1);
                }
                p += 1;
            },
        }
    }
    (hf, p)
}

} // verus!
