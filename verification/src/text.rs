//! Text mixed with markup, kept as a flat sequence of tags, end tags and text.
//!
//! The sequence is passed through unchanged; whether its tags nest properly is
//! checked on request and never repaired.

use vstd::prelude::*;
use crate::namemap::{pairs_get, pairs_insert, NameMap, Pairs};
use crate::strs::str_eq;

verus! {

/// A tag within a text region: its name and its attributes.
#[derive(Debug, Clone)]
pub struct TextTag {
    tag: String,
    attr: NameMap<String>,
}

/// The model of a [`TextTag`].
pub ghost struct TextTagView {
    pub name: Seq<char>,
    pub attrs: Pairs<Seq<char>>,
}

impl View for TextTag {
    type V = TextTagView;

    closed spec fn view(&self) -> TextTagView {
        TextTagView { name: self.tag@, attrs: self.attr@ }
    }
}

impl TextTag {
    /// A tag named `tag` without attributes.
    pub fn new(tag: &str) -> (r: Self)
        ensures
            r@ == (TextTagView { name: tag@, attrs: Seq::empty() }),
    {
        TextTag { tag: tag.to_owned(), attr: NameMap::new() }
    }

    /// Renames the tag.
    pub fn set_tag(&mut self, tag: &str)
        ensures
            final(self)@ == (TextTagView { name: tag@, attrs: old(self)@.attrs }),
    {
        self.tag = tag.to_owned();
    }

    /// The tag's name.
    pub fn tag(&self) -> (r: &String)
        ensures
            r@ == self@.name,
    {
        &self.tag
    }

    /// Sets the attribute `name` to `value`.
    pub fn set_attr(&mut self, name: &str, value: String)
        ensures
            final(self)@ == (TextTagView {
                name: old(self)@.name,
                attrs: pairs_insert(old(self)@.attrs, name@, value@),
            }),
    {
        self.attr.insert(name.to_owned(), value);
    }

    /// The value of the attribute `name`.
    pub fn attr(&self, name: &str) -> (r: Option<&String>)
        ensures
            match r {
                Some(v) => pairs_get(self@.attrs, name@) == Some(v@),
                None => pairs_get(self@.attrs, name@) is None,
            },
    {
        self.attr.get(name)
    }

    /// The tag's attributes.
    pub fn attr_map(&self) -> (r: &NameMap<String>)
        ensures
            r@ == self@.attrs,
    {
        &self.attr
    }

    /// The tag's attributes, to be changed in place.
    pub fn attr_map_mut(&mut self) -> (r: &mut NameMap<String>)
        ensures
            r@ == old(self)@.attrs,
            final(self)@ == (TextTagView { name: old(self)@.name, attrs: final(r)@ }),
    {
        &mut self.attr
    }

    /// All attributes as (name, value) pairs, in their stored order.
    pub fn attr_iter(&self) -> (r: Vec<(String, String)>)
        ensures
            r@.len() == self@.attrs.len(),
            forall|i: int|
                0 <= i < r@.len() ==> (#[trigger] r@[i]).0@ == self@.attrs[i].0 && r@[i].1@
                    == self@.attrs[i].1,
    {
        let mut out: Vec<(String, String)> = Vec::new();
        let n = self.attr.len();
        let mut i: usize = 0;
        while i < n
            invariant
                n == self.attr@.len(),
                0 <= i <= n,
                out@.len() == i,
                forall|j: int|
                    0 <= j < i ==> (#[trigger] out@[j]).0@ == self.attr@[j].0 && out@[j].1@
                        == self.attr@[j].1,
            decreases n - i,
        {
            let k = self.attr.name_at(i).clone();
            let v = self.attr.value_at(i).clone();
            out.push((k, v));
            i += 1;
        }
        out
    }
}

/// One element of mixed text.
#[derive(Debug, Clone)]
pub enum TextElem {
    /// An opening tag.
    Start(TextTag),
    /// A tag without content.
    Empty(TextTag),
    /// Literal text.
    Text(String),
    /// A closing tag, by name.
    End(String),
}

/// The model of a [`TextElem`].
pub ghost enum TextElemView {
    Start(TextTagView),
    Empty(TextTagView),
    Text(Seq<char>),
    End(Seq<char>),
}

impl View for TextElem {
    type V = TextElemView;

    open spec fn view(&self) -> TextElemView {
        match self {
            TextElem::Start(t) => TextElemView::Start(t@),
            TextElem::Empty(t) => TextElemView::Empty(t@),
            TextElem::Text(s) => TextElemView::Text(s@),
            TextElem::End(s) => TextElemView::End(s@),
        }
    }
}

/// What a scan for tag nesting finds.
pub ghost enum Nesting {
    /// Every closing tag closes the most recently opened tag that is still open.
    Nested,
    /// A closing tag met an open tag of another name.
    Mismatch { expected: Seq<char>, found: Seq<char> },
    /// A closing tag met no open tag.
    Unopened,
}

/// Scans `elems` from `pos` with the names of the open tags in `open`,
/// innermost last, and reports the first violation.
pub open spec fn scan_nesting(elems: Seq<TextElemView>, pos: int, open: Seq<Seq<char>>) -> Nesting
    decreases elems.len() - pos,
{
    if pos < 0 || pos >= elems.len() {
        Nesting::Nested
    } else {
        match elems[pos] {
            TextElemView::Start(t) => scan_nesting(elems, pos + 1, open.push(t.name)),
            TextElemView::End(n) => {
                if open.len() == 0 {
                    Nesting::Unopened
                } else if open.last() != n {
                    Nesting::Mismatch { expected: open.last(), found: n }
                } else {
                    scan_nesting(elems, pos + 1, open.drop_last())
                }
            },
            _ => scan_nesting(elems, pos + 1, open),
        }
    }
}

/// The nesting of a whole sequence.
pub open spec fn nesting_of(elems: Seq<TextElemView>) -> Nesting {
    scan_nesting(elems, 0, Seq::empty())
}

/// A sequence of text and tags.
#[derive(Debug, Clone)]
pub struct TextVec {
    vec: Vec<TextElem>,
}

impl View for TextVec {
    type V = Seq<TextElemView>;

    closed spec fn view(&self) -> Seq<TextElemView> {
        self.vec@.map_values(|e: TextElem| e@)
    }
}

impl TextVec {
    /// An empty sequence.
    pub fn new() -> (r: Self)
        ensures
            r@ == Seq::<TextElemView>::empty(),
    {
        let r = TextVec { vec: Vec::new() };
        assert(r@ =~= Seq::<TextElemView>::empty());
        r
    }

    /// Appends an opening tag named `ctag`, without attributes.
    pub fn start(&mut self, ctag: &str)
        ensures
            final(self)@ == old(self)@.push(
                TextElemView::Start(TextTagView { name: ctag@, attrs: Seq::empty() }),
            ),
    {
        self.push(TextElem::Start(TextTag::new(ctag)));
    }

    /// Appends `ctag` as an opening tag.
    pub fn startc(&mut self, ctag: TextTag)
        ensures
            final(self)@ == old(self)@.push(TextElemView::Start(ctag@)),
    {
        self.push(TextElem::Start(ctag));
    }

    /// Appends a tag without content named `ctag`, without attributes.
    pub fn empty(&mut self, ctag: &str)
        ensures
            final(self)@ == old(self)@.push(
                TextElemView::Empty(TextTagView { name: ctag@, attrs: Seq::empty() }),
            ),
    {
        self.push(TextElem::Empty(TextTag::new(ctag)));
    }

    /// Appends `ctag` as a tag without content.
    pub fn emptyc(&mut self, ctag: TextTag)
        ensures
            final(self)@ == old(self)@.push(TextElemView::Empty(ctag@)),
    {
        self.push(TextElem::Empty(ctag));
    }

    /// Appends literal text.
    pub fn text(&mut self, txt: &str)
        ensures
            final(self)@ == old(self)@.push(TextElemView::Text(txt@)),
    {
        self.push(TextElem::Text(txt.to_owned()));
    }

    /// Appends a closing tag named `ctag`.
    pub fn end(&mut self, ctag: &str)
        ensures
            final(self)@ == old(self)@.push(TextElemView::End(ctag@)),
    {
        self.push(TextElem::End(ctag.to_owned()));
    }

    /// Appends one element.
    pub fn push(&mut self, cm: TextElem)
        ensures
            final(self)@ == old(self)@.push(cm@),
    {
        self.vec.push(cm);
        assert(self@ =~= old(self)@.push(cm@));
    }

    /// Removes all elements.
    pub fn clear(&mut self)
        ensures
            final(self)@ == Seq::<TextElemView>::empty(),
    {
        self.vec.clear();
        assert(self@ =~= Seq::<TextElemView>::empty());
    }

    /// Whether the sequence has no elements.
    pub fn is_empty(&self) -> (r: bool)
        ensures
            r == (self@.len() == 0),
    {
        self.vec.len() == 0
    }

    /// Checks that the tags nest: every closing tag must close the most
    /// recently opened tag that is still open, by name. Tags left open at the
    /// end are no violation.
    ///
    /// At the first closing tag that meets an open tag of another name,
    /// `open_tag` receives the name of the open tag and `close_tag` the name of
    /// the closing tag. A closing tag that meets no open tag is a violation
    /// too and leaves both unchanged, as does a sequence that nests.
    pub fn is_valid(&self, open_tag: &mut String, close_tag: &mut String) -> (r: bool)
        ensures
            r == (nesting_of(self@) is Nested),
            match nesting_of(self@) {
                Nesting::Mismatch { expected, found } => {
                    &&& final(open_tag)@ == expected
                    &&& final(close_tag)@ == found
                },
                _ => *final(open_tag) == *old(open_tag) && *final(close_tag) == *old(close_tag),
            },
    {
        let mut tags: Vec<String> = Vec::new();
        let ghost mut open: Seq<Seq<char>> = Seq::empty();
        let n = self.vec.len();
        let mut i: usize = 0;
        while i < n
            invariant
                n == self.vec@.len(),
                self@ == self.vec@.map_values(|e: TextElem| e@),
                0 <= i <= n,
                open.len() == tags@.len(),
                forall|j: int| 0 <= j < open.len() ==> open[j] == (#[trigger] tags@[j])@,
                nesting_of(self@) == scan_nesting(self@, i as int, open),
                *open_tag == *old(open_tag),
                *close_tag == *old(close_tag),
            decreases n - i,
        {
            match &self.vec[i] {
                TextElem::Start(t) => {
                    tags.push(t.tag.clone());
                    proof {
                        open = open.push(t@.name);
                    }
                },
                TextElem::End(t) => {
                    match tags.pop() {
                        Some(tag) => {
                            assert(tag@ == open.last());
                            if !str_eq(t.as_str(), tag.as_str()) {
                                *open_tag = tag;
                                *close_tag = t.clone();
                                return false;
                            }
                            proof {
                                open = open.drop_last();
                            }
                        },
                        None => {
                            return false;
                        },
                    }
                },
                _ => {},
            }
            i += 1;
        }
        true
    }

    /// The elements themselves.
    pub fn vec(&self) -> (r: &Vec<TextElem>)
        ensures
            r@.map_values(|e: TextElem| e@) == self@,
    {
        &self.vec
    }
}

} // verus!
