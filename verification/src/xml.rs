//! The structural events of an XML document, and the reader that yields them.

use vstd::prelude::*;
use vstd::utf8::{decode_utf8, valid_utf8};
use quick_xml::events::attributes::Attributes;
use quick_xml::events::{BytesText, Event};
use crate::error::{OdsError, OdsErrorView};
use crate::namemap::{pairs_get, pairs_insert, NameMap, Pairs};

verus! {

/// A tag of an element: its qualified name and its attributes, the values
/// unescaped.
#[derive(Debug, Clone)]
pub struct XmlTag {
    pub name: String,
    pub attrs: NameMap<String>,
}

/// The model of an [`XmlTag`].
pub ghost struct XmlTagView {
    pub name: Seq<char>,
    pub attrs: Pairs<Seq<char>>,
}

impl View for XmlTag {
    type V = XmlTagView;

    open spec fn view(&self) -> XmlTagView {
        XmlTagView { name: self.name@, attrs: self.attrs@ }
    }
}

impl XmlTagView {
    /// The value of the attribute `name`.
    pub open spec fn attr(self, name: Seq<char>) -> Option<Seq<char>> {
        pairs_get(self.attrs, name)
    }
}

impl XmlTag {
    /// A tag named `name` without attributes.
    pub fn new(name: &str) -> (r: Self)
        ensures
            r@ == (XmlTagView { name: name@, attrs: Seq::empty() }),
    {
        XmlTag { name: name.to_owned(), attrs: NameMap::new() }
    }

    /// Sets the attribute `name` to `value`.
    pub fn set_attr(&mut self, name: &str, value: &str)
        ensures
            final(self)@ == (XmlTagView {
                name: old(self)@.name,
                attrs: pairs_insert(old(self)@.attrs, name@, value@),
            }),
    {
        self.attrs.insert(name.to_owned(), value.to_owned());
    }

    /// The value of the attribute `name`.
    pub fn attr(&self, name: &str) -> (r: Option<&String>)
        ensures
            match r {
                Some(v) => self@.attr(name@) == Some(v@),
                None => self@.attr(name@) is None,
            },
    {
        self.attrs.get(name)
    }
}

/// One structural event of an XML document. The end of the sequence of
/// events is the end of the input.
#[derive(Debug, Clone)]
pub enum XmlEvent {
    /// An opening tag.
    Start(XmlTag),
    /// A tag of an element without content.
    Empty(XmlTag),
    /// Character data, unescaped.
    Text(String),
    /// A closing tag, by name.
    End(String),
}

/// The model of an [`XmlEvent`].
pub ghost enum XmlEventView {
    Start(XmlTagView),
    Empty(XmlTagView),
    Text(Seq<char>),
    End(Seq<char>),
}

impl View for XmlEvent {
    type V = XmlEventView;

    open spec fn view(&self) -> XmlEventView {
        match self {
            XmlEvent::Start(t) => XmlEventView::Start(t@),
            XmlEvent::Empty(t) => XmlEventView::Empty(t@),
            XmlEvent::Text(s) => XmlEventView::Text(s@),
            XmlEvent::End(s) => XmlEventView::End(s@),
        }
    }
}

/// The model of a sequence of events.
pub open spec fn events_view(events: Seq<XmlEvent>) -> Seq<XmlEventView> {
    events.map_values(|e: XmlEvent| e@)
}

/// The XML reader over the bytes of a document. It holds the raw events of
/// the document and hands them out one by one.
#[verifier::external_body]
pub struct XmlReader<'a> {
    inner: quick_xml::Reader<&'a [u8]>,
}

/// An event as the XML reader hands it out: its kind, and the bytes it
/// carries, still encoded and escaped.
#[derive(Debug, Clone)]
pub enum RawEvent {
    /// An opening tag: its name, and the whole tag, the name first.
    Start { name: Vec<u8>, content: Vec<u8> },
    /// A tag of an element without content: its name, and the whole tag.
    Empty { name: Vec<u8>, content: Vec<u8> },
    /// A closing tag: its name.
    End(Vec<u8>),
    /// Character data.
    Text(Vec<u8>),
    /// The end of the document.
    Eof,
    /// A comment, a declaration or another event that carries no structure.
    Other,
}

/// The model of a [`RawEvent`].
pub ghost enum RawEventView {
    Start { name: Seq<u8>, content: Seq<u8> },
    Empty { name: Seq<u8>, content: Seq<u8> },
    End(Seq<u8>),
    Text(Seq<u8>),
    Eof,
    Other,
}

impl View for RawEvent {
    type V = RawEventView;

    open spec fn view(&self) -> RawEventView {
        match self {
            RawEvent::Start { name, content } => RawEventView::Start {
                name: name@,
                content: content@,
            },
            RawEvent::Empty { name, content } => RawEventView::Empty {
                name: name@,
                content: content@,
            },
            RawEvent::End(name) => RawEventView::End(name@),
            RawEvent::Text(text) => RawEventView::Text(text@),
            RawEvent::Eof => RawEventView::Eof,
            RawEvent::Other => RawEventView::Other,
        }
    }
}

/// The raw events that the XML reader finds in a document, one for each
/// read up to the one that yields the end of the document or an error,
/// that one included. `None` stands for an error. Text is trimmed, and text
/// that is all white space is no event.
pub uninterp spec fn xml_events(xml: Seq<u8>) -> Seq<Option<RawEventView>>;

/// The raw events that a reader has still to hand out.
pub uninterp spec fn reader_events(reader: &XmlReader) -> Seq<Option<RawEventView>>;

/// The text that the XML reader makes of the bytes of character data: the
/// bytes decoded and their entities resolved. `None` where it reports an
/// error.
pub uninterp spec fn xml_text(bytes: Seq<u8>) -> Option<Seq<char>>;

/// The number of attributes that the XML reader finds in the bytes of a tag
/// behind the name of `name_len` bytes, the malformed one that ends the
/// search counted too.
pub uninterp spec fn xml_attr_count(content: Seq<u8>, name_len: int) -> int;

/// The attribute at position `i` that the XML reader finds in the bytes of a
/// tag behind the name of `name_len` bytes: its key decoded, its value
/// decoded with its entities resolved. `Some(None)` where the tag has no
/// such attribute, `None` where the reader reports an error.
pub uninterp spec fn xml_attr(content: Seq<u8>, name_len: int, i: int) -> Option<
    Option<(Seq<char>, Seq<char>)>,
>;

/// Makes a reader over `xml` with `quick_xml::Reader::from_reader` and lets
/// it trim the white space around text with `Reader::trim_text`.
#[verifier::external_body]
fn reader_from<'a>(xml: &'a [u8]) -> (r: XmlReader<'a>)
    ensures
        reader_events(&r) == xml_events(xml@),
{
    let mut inner = quick_xml::Reader::from_reader(xml);
    inner.trim_text(true);
    XmlReader { inner }
}

/// Reads the next event with `quick_xml::Reader::read_event` and copies out
/// the bytes it carries: of a tag its name and its whole content, of text
/// the escaped content. The reader hands out the first of the events it
/// holds and keeps the rest; once it has yielded the end of the document or
/// an error it holds none, and yields the end of the document from then on.
/// Every event is read into a buffer of its own: the reader measures a
/// CDATA section against the whole buffer, which is only right where the
/// buffer begins empty.
#[verifier::external_body]
fn read_event(reader: &mut XmlReader) -> (r: Result<RawEvent, quick_xml::Error>)
    ensures
        reader_events(old(reader)).len() > 0 ==> {
            &&& reader_events(final(reader)) == reader_events(old(reader)).drop_first()
            &&& match r {
                Ok(raw) => reader_events(old(reader))[0] == Some(raw@),
                Err(_) => reader_events(old(reader))[0] is None,
            }
        },
        reader_events(old(reader)).len() == 0 ==> {
            &&& reader_events(final(reader)).len() == 0
            &&& r matches Ok(raw) && raw@ is Eof
        },
{
    let mut buf = Vec::new();
    Ok(match reader.inner.read_event(&mut buf)? {
        Event::Start(t) => RawEvent::Start { name: t.name().to_vec(), content: t.to_vec() },
        Event::Empty(t) => RawEvent::Empty { name: t.name().to_vec(), content: t.to_vec() },
        Event::End(t) => RawEvent::End(t.name().to_vec()),
        Event::Text(t) => RawEvent::Text(t.escaped().to_vec()),
        Event::Eof => RawEvent::Eof,
        _ => RawEvent::Other,
    })
}

/// Decodes bytes with `quick_xml::Reader::decode`, which reads them as
/// UTF-8 and fails where they are none. The reader that the call needs
/// plays no part in it.
#[verifier::external_body]
fn decode(bytes: &[u8]) -> (r: Result<String, quick_xml::Error>)
    ensures
        match r {
            Ok(s) => valid_utf8(bytes@) && s@ == decode_utf8(bytes@),
            Err(_) => !valid_utf8(bytes@),
        },
{
    Ok(quick_xml::Reader::from_reader(bytes).decode(bytes)?.to_string())
}

/// Decodes the bytes of character data and resolves their entities with
/// `BytesText::unescape_and_decode`. The outcome depends on the bytes alone;
/// the contract gives it a name and claims nothing more.
#[verifier::external_body]
fn unescape_text(bytes: &[u8]) -> (r: Result<String, quick_xml::Error>)
    ensures
        match r {
            Ok(s) => xml_text(bytes@) == Some(s@),
            Err(_) => xml_text(bytes@) is None,
        },
{
    BytesText::from_escaped(bytes).unescape_and_decode(&quick_xml::Reader::from_reader(bytes))
}

/// Counts the attributes in the bytes of a tag behind the name of `name_len`
/// bytes, over `Attributes::new` without the check for duplicates. The
/// outcome depends on the arguments alone; the contract gives it a name and
/// claims nothing more.
#[verifier::external_body]
fn attr_count(content: &[u8], name_len: usize) -> (r: usize)
    ensures
        r == xml_attr_count(content@, name_len as int),
{
    Attributes::new(content, name_len).with_checks(false).count()
}

/// The attribute at position `i` in the bytes of a tag behind the name of
/// `name_len` bytes, from `Attributes::new` without the check for
/// duplicates: its key decoded with `Reader::decode`, its value with
/// `Attribute::unescape_and_decode_value`. The outcome depends on the
/// arguments alone; the contract gives it a name and claims nothing more.
#[verifier::external_body]
fn attr_at(content: &[u8], name_len: usize, i: usize) -> (r: Result<
    Option<(String, String)>,
    quick_xml::Error,
>)
    ensures
        match r {
            Ok(Some(p)) => xml_attr(content@, name_len as int, i as int) == Some(
                Some((p.0@, p.1@)),
            ),
            Ok(None) => xml_attr(content@, name_len as int, i as int) == Some(
                None::<(Seq<char>, Seq<char>)>,
            ),
            Err(_) => xml_attr(content@, name_len as int, i as int) is None,
        },
{
    let reader = quick_xml::Reader::from_reader(content);
    match Attributes::new(content, name_len).with_checks(false).nth(i) {
        Some(Ok(a)) => Ok(Some((
            reader.decode(a.key)?.to_string(),
            a.unescape_and_decode_value(&reader)?,
        ))),
        Some(Err(e)) => Err(e),
        None => Ok(None),
    }
}

/// The name that the bytes of a name write: the bytes read as UTF-8.
/// `None` where they are none.
pub open spec fn name_of(bytes: Seq<u8>) -> Option<Seq<char>> {
    if valid_utf8(bytes) {
        Some(decode_utf8(bytes))
    } else {
        None
    }
}

/// The first `n` attributes of a tag, stored in turn under their keys.
/// `None` where one of them is malformed.
pub open spec fn attrs_of(content: Seq<u8>, name_len: int, n: int) -> Option<Pairs<Seq<char>>>
    decreases n,
{
    if n <= 0 {
        Some(Seq::empty())
    } else {
        match attrs_of(content, name_len, n - 1) {
            None => None,
            Some(attrs) => match xml_attr(content, name_len, n - 1) {
                None => None,
                Some(None) => Some(attrs),
                Some(Some((key, value))) => Some(pairs_insert(attrs, key, value)),
            },
        }
    }
}

/// The tag that the bytes of a tag stand for: its name decoded, and all its
/// attributes stored in turn under their keys. `None` where the name or an
/// attribute is malformed.
pub open spec fn tag_of(name: Seq<u8>, content: Seq<u8>) -> Option<XmlTagView> {
    match name_of(name) {
        None => None,
        Some(n) => match attrs_of(
            content,
            name.len() as int,
            xml_attr_count(content, name.len() as int),
        ) {
            None => None,
            Some(attrs) => Some(XmlTagView { name: n, attrs }),
        },
    }
}

/// Once an attribute is malformed, no longer run of attributes is well
/// formed.
pub proof fn lemma_attrs_of_fails(content: Seq<u8>, name_len: int, i: int, n: int)
    requires
        i <= n,
        attrs_of(content, name_len, i) is None,
    ensures
        attrs_of(content, name_len, n) is None,
    decreases n - i,
{
    if i < n {
        lemma_attrs_of_fails(content, name_len, i, n - 1);
    }
}

/// The tag of a start or empty event, from its name and its whole content.
fn read_tag(name: &Vec<u8>, content: &Vec<u8>) -> (r: Result<XmlTag, OdsError>)
    ensures
        match r {
            Ok(tag) => tag_of(name@, content@) == Some(tag@),
            Err(e) => tag_of(name@, content@) is None && e@ == OdsErrorView::Xml,
        },
{
    let tag_name = match decode(name.as_slice()) {
        Ok(n) => n,
        Err(e) => {
            return Err(OdsError::Xml(e));
        },
    };
    let mut tag = XmlTag { name: tag_name, attrs: NameMap::new() };
    let n = attr_count(content.as_slice(), name.len());
    let mut i: usize = 0;
    while i < n
        invariant
            0 <= i <= n,
            n == xml_attr_count(content@, name@.len() as int),
            name_of(name@) == Some(tag@.name),
            attrs_of(content@, name@.len() as int, i as int) == Some(tag@.attrs),
        decreases n - i,
    {
        match attr_at(content.as_slice(), name.len(), i) {
            Ok(Some(pair)) => {
                tag.attrs.insert(pair.0, pair.1);
            },
            Ok(None) => {},
            Err(e) => {
                proof {
                    lemma_attrs_of_fails(content@, name@.len() as int, i + 1, n as int);
                }
                return Err(OdsError::Xml(e));
            },
        }
        i += 1;
    }
    Ok(tag)
}

/// The structural event that a raw event stands for. `Some(None)` for the
/// end of the document and for what carries no structure, `None` where the
/// bytes of the event are malformed.
pub open spec fn event_of(raw: RawEventView) -> Option<Option<XmlEventView>> {
    match raw {
        RawEventView::Start { name, content } => match tag_of(name, content) {
            Some(tag) => Some(Some(XmlEventView::Start(tag))),
            None => None,
        },
        RawEventView::Empty { name, content } => match tag_of(name, content) {
            Some(tag) => Some(Some(XmlEventView::Empty(tag))),
            None => None,
        },
        RawEventView::End(name) => match name_of(name) {
            Some(n) => Some(Some(XmlEventView::End(n))),
            None => None,
        },
        RawEventView::Text(text) => match xml_text(text) {
            Some(t) => Some(Some(XmlEventView::Text(t))),
            None => None,
        },
        RawEventView::Eof => Some(None),
        RawEventView::Other => Some(None),
    }
}

/// The model of an optional event.
pub open spec fn opt_event(e: Option<XmlEvent>) -> Option<XmlEventView> {
    match e {
        Some(x) => Some(x@),
        None => None,
    }
}

/// Turns a raw event into the structural event it stands for: names are
/// decoded, attributes are read and stored under their keys, and the
/// entities of text and of attribute values are resolved.
pub fn structural_event(raw: &RawEvent) -> (r: Result<Option<XmlEvent>, OdsError>)
    ensures
        match r {
            Ok(e) => event_of(raw@) == Some(opt_event(e)),
            Err(e) => event_of(raw@) is None && e@ == OdsErrorView::Xml,
        },
{
    match raw {
        RawEvent::Start { name, content } => {
            let tag = read_tag(name, content)?;
            Ok(Some(XmlEvent::Start(tag)))
        },
        RawEvent::Empty { name, content } => {
            let tag = read_tag(name, content)?;
            Ok(Some(XmlEvent::Empty(tag)))
        },
        RawEvent::End(name) => match decode(name.as_slice()) {
            Ok(n) => Ok(Some(XmlEvent::End(n))),
            Err(e) => Err(OdsError::Xml(e)),
        },
        RawEvent::Text(text) => match unescape_text(text.as_slice()) {
            Ok(t) => Ok(Some(XmlEvent::Text(t))),
            Err(e) => Err(OdsError::Xml(e)),
        },
        RawEvent::Eof => Ok(None),
        RawEvent::Other => Ok(None),
    }
}

/// The structural events of the raw events `raws`, read from the first on
/// and at most `left` of them, up to the end of the document: each in its
/// place, and nothing for what carries no structure. `None` where an error
/// comes first: the reader could not read on, or the bytes of an event are
/// malformed.
pub open spec fn structure_of(raws: Seq<Option<RawEventView>>, left: int) -> Option<
    Seq<XmlEventView>,
>
    decreases left,
{
    if left <= 0 || raws.len() == 0 {
        Some(Seq::empty())
    } else {
        match raws[0] {
            None => None,
            Some(RawEventView::Eof) => Some(Seq::empty()),
            Some(raw) => match event_of(raw) {
                None => None,
                Some(found) => match structure_of(raws.drop_first(), left - 1) {
                    None => None,
                    Some(rest) => match found {
                        Some(e) => Some(seq![e] + rest),
                        None => Some(rest),
                    },
                },
            },
        }
    }
}

/// The structural events of a document, or `None` where it is malformed.
/// Every raw event takes at least one byte of the document, so no more of
/// them are read than the document has bytes.
pub open spec fn document_events(xml: Seq<u8>) -> Option<Seq<XmlEventView>> {
    structure_of(xml_events(xml), xml.len() as int)
}

/// `events` before what comes of the raw events `raws`.
pub open spec fn events_then(
    events: Seq<XmlEventView>,
    raws: Seq<Option<RawEventView>>,
    left: int,
) -> Option<Seq<XmlEventView>> {
    match structure_of(raws, left) {
        None => None,
        Some(rest) => Some(events + rest),
    }
}

/// Reads a whole XML document into its structural events. Text is trimmed,
/// and text that is all white space is left out, as are comments,
/// declarations and processing instructions. Names are decoded, attributes
/// are stored under their keys, and the entities of text and of attribute
/// values are resolved. The first error ends the reading.
pub fn tokenize(xml: &[u8]) -> (r: Result<Vec<XmlEvent>, OdsError>)
    ensures
        match r {
            Ok(events) => document_events(xml@) == Some(events_view(events@)) && events@.len()
                <= xml@.len(),
            Err(e) => document_events(xml@) is None && e@ == OdsErrorView::Xml,
        },
{
    let mut reader = reader_from(xml);
    let mut events: Vec<XmlEvent> = Vec::new();
    // Every event takes at least one byte of the document.
    let mut left: usize = xml.len();
    assert(events_view(events@) =~= Seq::<XmlEventView>::empty());
    assert(Seq::<XmlEventView>::empty() + structure_of(xml_events(xml@), left as int)->Some_0
        =~= structure_of(xml_events(xml@), left as int)->Some_0);
    while left > 0
        invariant
            events@.len() + left <= xml@.len(),
            document_events(xml@) == events_then(
                events_view(events@),
                reader_events(&reader),
                left as int,
            ),
        decreases left,
    {
        let ghost raws = reader_events(&reader);
        let ghost before = events_view(events@);
        let raw = match read_event(&mut reader) {
            Ok(raw) => raw,
            Err(e) => {
                return Err(OdsError::Xml(e));
            },
        };
        if let RawEvent::Eof = raw {
            assert(before + Seq::<XmlEventView>::empty() =~= before);
            return Ok(events);
        }
        let found = structural_event(&raw)?;
        match found {
            Some(event) => {
                events.push(event);
                assert(events_view(events@) =~= before.push(event@));
                proof {
                    let rest = structure_of(raws.drop_first(), left - 1);
                    if rest is Some {
                        assert(before + (seq![event@] + rest->Some_0) =~= before.push(event@)
                            + rest->Some_0);
                    }
                }
            },
            None => {},
        }
        left -= 1;
    }
    assert(events_view(events@) + Seq::<XmlEventView>::empty() =~= events_view(events@));
    Ok(events)
}

} // verus!
