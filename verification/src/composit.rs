//! Preserved markup: header, footer and other regions whose content is kept
//! as a flat sequence of tags, end tags and text.

use vstd::prelude::*;
use crate::namemap::{pairs_insert, NameMap, Pairs};

verus! {

/// A tag of preserved markup: its name and its attributes.
#[derive(Debug, Clone)]
pub struct CompositTag {
    pub tag: String,
    pub attr: NameMap<String>,
}

/// The model of a [`CompositTag`].
pub ghost struct CompositTagView {
    pub name: Seq<char>,
    pub attrs: Pairs<Seq<char>>,
}

impl View for CompositTag {
    type V = CompositTagView;

    open spec fn view(&self) -> CompositTagView {
        CompositTagView { name: self.tag@, attrs: self.attr@ }
    }
}

impl CompositTag {
    /// A tag named `tag` without attributes.
    pub fn new(tag: &str) -> (r: Self)
        ensures
            r@ == (CompositTagView { name: tag@, attrs: Seq::empty() }),
    {
        CompositTag { tag: tag.to_owned(), attr: NameMap::new() }
    }

    /// Sets the attribute `name` to `value`.
    pub fn set_attr(&mut self, name: &str, value: String)
        ensures
            final(self)@ == (CompositTagView {
                name: old(self)@.name,
                attrs: pairs_insert(old(self)@.attrs, name@, value@),
            }),
    {
        self.attr.insert(name.to_owned(), value);
    }
}

/// One element of preserved markup.
#[derive(Debug, Clone)]
pub enum Composit {
    /// An opening tag.
    Start(CompositTag),
    /// A tag without content.
    Empty(CompositTag),
    /// Literal text.
    Text(String),
    /// A closing tag, by name.
    End(String),
}

/// The model of a [`Composit`].
pub ghost enum CompositView {
    Start(CompositTagView),
    Empty(CompositTagView),
    Text(Seq<char>),
    End(Seq<char>),
}

impl View for Composit {
    type V = CompositView;

    open spec fn view(&self) -> CompositView {
        match self {
            Composit::Start(t) => CompositView::Start(t@),
            Composit::Empty(t) => CompositView::Empty(t@),
            Composit::Text(s) => CompositView::Text(s@),
            Composit::End(s) => CompositView::End(s@),
        }
    }
}

/// A sequence of preserved markup.
#[derive(Debug, Clone)]
pub struct CompositVec {
    vec: Vec<Composit>,
}

impl View for CompositVec {
    type V = Seq<CompositView>;

    closed spec fn view(&self) -> Seq<CompositView> {
        self.vec@.map_values(|e: Composit| e@)
    }
}

impl CompositVec {
    /// An empty sequence.
    pub fn new() -> (r: Self)
        ensures
            r@ == Seq::<CompositView>::empty(),
    {
        let r = CompositVec { vec: Vec::new() };
        assert(r@ =~= Seq::<CompositView>::empty());
        r
    }

    /// Appends one element.
    pub fn push(&mut self, cm: Composit)
        ensures
            final(self)@ == old(self)@.push(cm@),
    {
        self.vec.push(cm);
        assert(self@ =~= old(self)@.push(cm@));
    }

    /// Whether the sequence has no elements.
    pub fn is_empty(&self) -> (r: bool)
        ensures
            r == (self@.len() == 0),
    {
        self.vec.len() == 0
    }

    /// The elements themselves.
    pub fn vec(&self) -> (r: &Vec<Composit>)
        ensures
            r@.map_values(|e: Composit| e@) == self@,
    {
        &self.vec
    }
}

} // verus!
