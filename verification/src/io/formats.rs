//! The reader for value formats.

use vstd::prelude::*;
use crate::format::{
    empty_format, FormatPart, FormatPartType, FormatPartView, ValueFormat, ValueFormatView,
};
use crate::namemap::{pairs_insert_all, pairs_insert_others};
use crate::strs::str_eq;
use crate::style::{StyleOrigin, StyleUse};
use crate::value::ValueType;
use crate::workbook::{WorkBook, WorkBookView};
use crate::xml::{events_view, XmlEvent, XmlEventView, XmlTag, XmlTagView};

verus! {

/// The type of value that the value format element named `name` formats.
/// `None` where the name is not that of a value format.
pub open spec fn format_value_type(name: Seq<char>) -> Option<ValueType> {
    if name == "number:boolean-style"@ {
        Some(ValueType::Boolean)
    } else if name == "number:date-style"@ {
        Some(ValueType::DateTime)
    } else if name == "number:time-style"@ {
        Some(ValueType::TimeDuration)
    } else if name == "number:number-style"@ {
        Some(ValueType::Number)
    } else if name == "number:currency-style"@ {
        Some(ValueType::Currency)
    } else if name == "number:percentage-style"@ {
        Some(ValueType::Percentage)
    } else if name == "number:text-style"@ {
        Some(ValueType::Text)
    } else {
        None
    }
}

/// The type of value that the value format element named `name` formats.
pub fn decode_format_value_type(name: &str) -> (r: Option<ValueType>)
    ensures
        r == format_value_type(name@),
{
    if str_eq(name, "number:boolean-style") {
        Some(ValueType::Boolean)
    } else if str_eq(name, "number:date-style") {
        Some(ValueType::DateTime)
    } else if str_eq(name, "number:time-style") {
        Some(ValueType::TimeDuration)
    } else if str_eq(name, "number:number-style") {
        Some(ValueType::Number)
    } else if str_eq(name, "number:currency-style") {
        Some(ValueType::Currency)
    } else if str_eq(name, "number:percentage-style") {
        Some(ValueType::Percentage)
    } else if str_eq(name, "number:text-style") {
        Some(ValueType::Text)
    } else {
        None
    }
}

/// The kind of part that the element named `name` adds to a value format at
/// once, whether it has content or not. `None` for every other name.
pub open spec fn plain_part_type(name: Seq<char>) -> Option<FormatPartType> {
    if name == "number:boolean"@ {
        Some(FormatPartType::Boolean)
    } else if name == "number:number"@ {
        Some(FormatPartType::Number)
    } else if name == "number:scientific-number"@ {
        Some(FormatPartType::Scientific)
    } else if name == "number:day"@ {
        Some(FormatPartType::Day)
    } else if name == "number:month"@ {
        Some(FormatPartType::Month)
    } else if name == "number:year"@ {
        Some(FormatPartType::Year)
    } else if name == "number:era"@ {
        Some(FormatPartType::Era)
    } else if name == "number:day-of-week"@ {
        Some(FormatPartType::DayOfWeek)
    } else if name == "number:week-of-year"@ {
        Some(FormatPartType::WeekOfYear)
    } else if name == "number:quarter"@ {
        Some(FormatPartType::Quarter)
    } else if name == "number:hours"@ {
        Some(FormatPartType::Hours)
    } else if name == "number:minutes"@ {
        Some(FormatPartType::Minutes)
    } else if name == "number:seconds"@ {
        Some(FormatPartType::Seconds)
    } else if name == "number:fraction"@ {
        Some(FormatPartType::Fraction)
    } else if name == "number:am-pm"@ {
        Some(FormatPartType::AmPm)
    } else if name == "number:embedded-text"@ {
        Some(FormatPartType::EmbeddedText)
    } else if name == "number:text-content"@ {
        Some(FormatPartType::TextContent)
    } else if name == "style:map"@ {
        Some(FormatPartType::StyleMap)
    } else {
        None
    }
}

/// The kind of part that the element named `name` adds to a value format at
/// once.
pub fn decode_plain_part_type(name: &str) -> (r: Option<FormatPartType>)
    ensures
        r == plain_part_type(name@),
{
    if str_eq(name, "number:boolean") {
        Some(FormatPartType::Boolean)
    } else if str_eq(name, "number:number") {
        Some(FormatPartType::Number)
    } else if str_eq(name, "number:scientific-number") {
        Some(FormatPartType::Scientific)
    } else if str_eq(name, "number:day") {
        Some(FormatPartType::Day)
    } else if str_eq(name, "number:month") {
        Some(FormatPartType::Month)
    } else if str_eq(name, "number:year") {
        Some(FormatPartType::Year)
    } else if str_eq(name, "number:era") {
        Some(FormatPartType::Era)
    } else if str_eq(name, "number:day-of-week") {
        Some(FormatPartType::DayOfWeek)
    } else if str_eq(name, "number:week-of-year") {
        Some(FormatPartType::WeekOfYear)
    } else if str_eq(name, "number:quarter") {
        Some(FormatPartType::Quarter)
    } else if str_eq(name, "number:hours") {
        Some(FormatPartType::Hours)
    } else if str_eq(name, "number:minutes") {
        Some(FormatPartType::Minutes)
    } else if str_eq(name, "number:seconds") {
        Some(FormatPartType::Seconds)
    } else if str_eq(name, "number:fraction") {
        Some(FormatPartType::Fraction)
    } else if str_eq(name, "number:am-pm") {
        Some(FormatPartType::AmPm)
    } else if str_eq(name, "number:embedded-text") {
        Some(FormatPartType::EmbeddedText)
    } else if str_eq(name, "number:text-content") {
        Some(FormatPartType::TextContent)
    } else if str_eq(name, "style:map") {
        Some(FormatPartType::StyleMap)
    } else {
        None
    }
}

/// The kind of part that the element named `name` adds to a value format
/// together with its text content. `None` for every other name.
pub open spec fn text_part_type(name: Seq<char>) -> Option<FormatPartType> {
    if name == "number:currency-symbol"@ {
        Some(FormatPartType::CurrencySymbol)
    } else if name == "number:text"@ {
        Some(FormatPartType::Text)
    } else {
        None
    }
}

/// The kind of part that the element named `name` adds to a value format
/// together with its text content.
pub fn decode_text_part_type(name: &str) -> (r: Option<FormatPartType>)
    ensures
        r == text_part_type(name@),
{
    if str_eq(name, "number:currency-symbol") {
        Some(FormatPartType::CurrencySymbol)
    } else if str_eq(name, "number:text") {
        Some(FormatPartType::Text)
    } else {
        None
    }
}

/// The part of kind `part_type` that the tag `t` declares: all its
/// attributes, no content yet.
pub open spec fn part_of(t: XmlTagView, part_type: FormatPartType) -> FormatPartView {
    FormatPartView { part_type, prp: pairs_insert_all(Seq::empty(), t.attrs), content: None }
}

/// Reads a part of a value format from its tag.
pub fn read_part(xml_tag: &XmlTag, part_type: FormatPartType) -> (r: FormatPart)
    ensures
        r@ == part_of(xml_tag@, part_type),
{
    let mut part = FormatPart::new(part_type);
    part.prp.insert_all(&xml_tag.attrs);
    part
}

/// Appends the part that a tag declares to a value format.
pub fn push_value_format_part(
    value_style: &mut ValueFormat,
    part_type: FormatPartType,
    xml_tag: &XmlTag,
)
    ensures
        final(value_style)@ == (ValueFormatView {
            parts: old(value_style)@.parts.push(part_of(xml_tag@, part_type)),
            ..old(value_style)@
        }),
{
    value_style.push_part(read_part(xml_tag, part_type));
}

/// The value format `vf` for values of type `value_type` with what the
/// attributes of its tag declare: its name from the name attribute, every
/// other attribute as it stands.
pub open spec fn format_with_attrs(
    vf: ValueFormatView,
    value_type: ValueType,
    t: XmlTagView,
) -> ValueFormatView {
    ValueFormatView {
        v_type: value_type,
        name: match t.attr("style:name"@) {
            Some(v) => v,
            None => vf.name,
        },
        prp: pairs_insert_others(vf.prp, t.attrs, "style:name"@),
        ..vf
    }
}

/// Reads the attributes of a value format tag into the value format.
pub fn read_value_format_attr(
    value_type: ValueType,
    value_style: &mut ValueFormat,
    xml_tag: &XmlTag,
)
    ensures
        final(value_style)@ == format_with_attrs(old(value_style)@, value_type, xml_tag@),
{
    value_style.v_type = value_type;
    match xml_tag.attr("style:name") {
        Some(v) => {
            value_style.name = v.clone();
        },
        None => {},
    }
    value_style.prp.insert_others(&xml_tag.attrs, "style:name");
}

/// What is read of a value format: the format so far, and the part that
/// waits for its text content.
pub ghost struct FormatState {
    pub format: ValueFormatView,
    pub pending: Option<FormatPartView>,
}

/// The state after an opening tag, or after a tag without content where
/// `empty` holds. A plain part is appended at once. A part with text content
/// waits for its content and its closing tag, or is appended at once where
/// its element has no content.
pub open spec fn format_open(st: FormatState, t: XmlTagView, empty: bool) -> FormatState {
    match plain_part_type(t.name) {
        Some(ty) => FormatState {
            format: ValueFormatView { parts: st.format.parts.push(part_of(t, ty)), ..st.format },
            ..st
        },
        None => match text_part_type(t.name) {
            Some(ty) => if empty {
                FormatState {
                    format: ValueFormatView {
                        parts: st.format.parts.push(part_of(t, ty)),
                        ..st.format
                    },
                    pending: None,
                }
            } else {
                FormatState { pending: Some(part_of(t, ty)), ..st }
            },
            None => st,
        },
    }
}

/// The state after text: the part that waits takes it as its content.
pub open spec fn format_text(st: FormatState, text: Seq<char>) -> FormatState {
    match st.pending {
        Some(p) => FormatState {
            pending: Some(FormatPartView { content: Some(text), ..p }),
            ..st
        },
        None => st,
    }
}

/// The state after the closing tag of a part with text content: the part
/// that waits is appended.
pub open spec fn format_close(st: FormatState, name: Seq<char>) -> FormatState {
    if text_part_type(name) is Some {
        match st.pending {
            Some(p) => FormatState {
                format: ValueFormatView { parts: st.format.parts.push(p), ..st.format },
                pending: None,
            },
            None => st,
        }
    } else {
        st
    }
}

/// The value format read from `pos` up to the closing tag of a value
/// format, starting from `st`, and the position behind that tag. `None`
/// where the events end before the closing tag.
pub open spec fn format_scan(events: Seq<XmlEventView>, pos: int, st: FormatState) -> (
    Option<ValueFormatView>,
    int,
)
    decreases events.len() - pos,
{
    if pos < 0 || pos >= events.len() {
        (None, pos)
    } else {
        match events[pos] {
            XmlEventView::Start(t) => format_scan(events, pos + 1, format_open(st, t, false)),
            XmlEventView::Empty(t) => format_scan(events, pos + 1, format_open(st, t, true)),
            XmlEventView::Text(s) => format_scan(events, pos + 1, format_text(st, s)),
            XmlEventView::End(n) => if format_value_type(n) is Some {
                (Some(st.format), pos + 1)
            } else {
                format_scan(events, pos + 1, format_close(st, n))
            },
        }
    }
}

/// Reading a value format moves forward and stays within the events.
pub proof fn lemma_format_scan_pos(events: Seq<XmlEventView>, pos: int, st: FormatState)
    requires
        0 <= pos <= events.len(),
    ensures
        pos <= format_scan(events, pos, st).1 <= events.len(),
    decreases events.len() - pos,
{
    if pos < events.len() {
        match events[pos] {
            XmlEventView::Start(t) => lemma_format_scan_pos(
                events,
                pos + 1,
                format_open(st, t, false),
            ),
            XmlEventView::Empty(t) => lemma_format_scan_pos(
                events,
                pos + 1,
                format_open(st, t, true),
            ),
            XmlEventView::Text(s) => lemma_format_scan_pos(events, pos + 1, format_text(st, s)),
            XmlEventView::End(n) => if !(format_value_type(n) is Some) {
                lemma_format_scan_pos(events, pos + 1, format_close(st, n))
            },
        }
    }
}

/// The value format that the tag `tag` starts: empty but for what the tag
/// declares. A tag that names no value format declares nothing.
pub open spec fn format_start(
    origin: StyleOrigin,
    styleuse: StyleUse,
    tag: XmlTagView,
) -> ValueFormatView {
    match format_value_type(tag.name) {
        Some(ty) => format_with_attrs(empty_format(origin, styleuse), ty, tag),
        None => empty_format(origin, styleuse),
    }
}

/// The workbook after the value format element with the tag `tag`, and the
/// position behind the element. `pos` is the position behind the tag, and
/// `empty` tells that the element has no content. A format whose closing
/// tag is missing is not stored.
pub open spec fn format_element(
    book: WorkBookView,
    origin: StyleOrigin,
    styleuse: StyleUse,
    events: Seq<XmlEventView>,
    pos: int,
    tag: XmlTagView,
    empty: bool,
) -> (WorkBookView, int) {
    let vf = format_start(origin, styleuse, tag);
    if empty {
        (book.with_format(vf), pos)
    } else {
        match format_scan(events, pos, FormatState { format: vf, pending: None }) {
            (Some(done), p) => (book.with_format(done), p),
            (None, p) => (book, p),
        }
    }
}

/// The model of an optional part.
pub open spec fn opt_part(p: Option<FormatPart>) -> Option<FormatPartView> {
    match p {
        Some(x) => Some(x@),
        None => None,
    }
}

/// Reads the value format element with the tag `xml_tag` and stores it in
/// the workbook. `pos` is the position behind the tag, and `empty` tells
/// that the element has no content. Returns the position behind the
/// element.
pub fn read_value_format(
    book: &mut WorkBook,
    origin: StyleOrigin,
    styleuse: StyleUse,
    events: &Vec<XmlEvent>,
    pos: usize,
    xml_tag: &XmlTag,
    empty: bool,
) -> (r: usize)
    requires
        pos <= events@.len(),
    ensures
        (final(book)@, r as int) == format_element(
            old(book)@,
            origin,
            styleuse,
            events_view(events@),
            pos as int,
            xml_tag@,
            empty,
        ),
        pos <= r <= events@.len(),
{
    let ghost ev = events_view(events@);
    let mut value_style = ValueFormat::new_origin(origin, styleuse);
    match decode_format_value_type(xml_tag.name.as_str()) {
        Some(ty) => {
            read_value_format_attr(ty, &mut value_style, xml_tag);
        },
        None => {},
    }
    let ghost vf0 = value_style@;
    if empty {
        book.add_format(value_style);
        return pos;
    }
    // A part with text content waits here for its closing tag.
    let mut value_style_part: Option<FormatPart> = None;
    let mut p = pos;
    while p < events.len()
        invariant
            ev == events_view(events@),
            pos <= p <= events@.len(),
            format_scan(ev, pos as int, FormatState { format: vf0, pending: None })
                == format_scan(
                ev,
                p as int,
                FormatState { format: value_style@, pending: opt_part(value_style_part) },
            ),
            *book == *old(book),
            !empty,
            vf0 == format_start(origin, styleuse, xml_tag@),
        decreases events@.len() - p,
    {
        assert(ev[p as int] == events@[p as int]@);
        match &events[p] {
            XmlEvent::Start(t) => {
                match decode_plain_part_type(t.name.as_str()) {
                    Some(ty) => {
                        push_value_format_part(&mut value_style, ty, t);
                    },
                    None => {
                        match decode_text_part_type(t.name.as_str()) {
                            Some(ty) => {
                                value_style_part = Some(read_part(t, ty));
                            },
                            None => {},
                        }
                    },
                }
            },
            XmlEvent::Empty(t) => {
                match decode_plain_part_type(t.name.as_str()) {
                    Some(ty) => {
                        push_value_format_part(&mut value_style, ty, t);
                    },
                    None => {
                        match decode_text_part_type(t.name.as_str()) {
                            Some(ty) => {
                                push_value_format_part(&mut value_style, ty, t);
                                value_style_part = None;
                            },
                            None => {},
                        }
                    },
                }
            },
            XmlEvent::Text(s) => {
                match value_style_part {
                    Some(mut part) => {
                        part.content = Some(s.clone());
                        value_style_part = Some(part);
                    },
                    None => {},
                }
            },
            XmlEvent::End(n) => {
                if decode_format_value_type(n.as_str()).is_some() {
                    book.add_format(value_style);
                    return p + 1;
                }
                if decode_text_part_type(n.as_str()).is_some() {
                    match value_style_part {
                        Some(part) => {
                            value_style.push_part(part);
                        },
                        None => {},
                    }
                    value_style_part = None;
                }
            },
        }
        p += 1;
    }
    p
}

} // verus!
