//! Styles, fonts and page layouts.

use vstd::prelude::*;
use crate::composit::{CompositVec, CompositView};
use crate::namemap::{pairs_get, pairs_insert, NameMap, Pairs};
use crate::strs::opt_text;

verus! {

/// The part of the document that declared a style, a format or a font.
#[derive(Debug, Clone, Copy, PartialEq, Eq, Structural)]
pub enum StyleOrigin {
    /// The content part.
    Content,
    /// The styles part.
    Styles,
}

/// How a style is put to use.
#[derive(Debug, Clone, Copy, PartialEq, Eq, Structural)]
pub enum StyleUse {
    /// A style with a name of its own, for the user to pick.
    Named,
    /// A style that the writing program made up.
    Automatic,
}

/// What a style applies to.
#[derive(Debug, Clone, Copy, PartialEq, Eq, Structural)]
pub enum StyleFor {
    Table,
    TableColumn,
    TableRow,
    TableCell,
}

/// A style: its identity and its attributes, one bag for each group of
/// properties.
#[derive(Debug, Clone)]
pub struct Style {
    pub name: String,
    pub origin: StyleOrigin,
    pub styleuse: StyleUse,
    /// What the style applies to, as far as it was declared.
    pub family: Option<StyleFor>,
    /// The style that this one inherits from. It is recorded, not resolved.
    pub parent: Option<String>,
    /// The value format that belongs to a cell style.
    pub value_format: Option<String>,
    pub table_prp: NameMap<String>,
    pub table_col_prp: NameMap<String>,
    pub table_row_prp: NameMap<String>,
    pub table_cell_prp: NameMap<String>,
    pub text_prp: NameMap<String>,
    pub paragraph_prp: NameMap<String>,
}

/// The model of a [`Style`].
pub ghost struct StyleView {
    pub name: Seq<char>,
    pub origin: StyleOrigin,
    pub styleuse: StyleUse,
    pub family: Option<StyleFor>,
    pub parent: Option<Seq<char>>,
    pub value_format: Option<Seq<char>>,
    pub table_prp: Pairs<Seq<char>>,
    pub table_col_prp: Pairs<Seq<char>>,
    pub table_row_prp: Pairs<Seq<char>>,
    pub table_cell_prp: Pairs<Seq<char>>,
    pub text_prp: Pairs<Seq<char>>,
    pub paragraph_prp: Pairs<Seq<char>>,
}

impl View for Style {
    type V = StyleView;

    open spec fn view(&self) -> StyleView {
        StyleView {
            name: self.name@,
            origin: self.origin,
            styleuse: self.styleuse,
            family: self.family,
            parent: opt_text(self.parent),
            value_format: opt_text(self.value_format),
            table_prp: self.table_prp@,
            table_col_prp: self.table_col_prp@,
            table_row_prp: self.table_row_prp@,
            table_cell_prp: self.table_cell_prp@,
            text_prp: self.text_prp@,
            paragraph_prp: self.paragraph_prp@,
        }
    }
}

/// The style without a name and without attributes.
pub open spec fn empty_style(origin: StyleOrigin, styleuse: StyleUse) -> StyleView {
    StyleView {
        name: Seq::empty(),
        origin,
        styleuse,
        family: None,
        parent: None,
        value_format: None,
        table_prp: Seq::empty(),
        table_col_prp: Seq::empty(),
        table_row_prp: Seq::empty(),
        table_cell_prp: Seq::empty(),
        text_prp: Seq::empty(),
        paragraph_prp: Seq::empty(),
    }
}

impl Style {
    /// A style without a name and without attributes.
    pub fn new_origin(origin: StyleOrigin, styleuse: StyleUse) -> (r: Self)
        ensures
            r@ == empty_style(origin, styleuse),
    {
        Style {
            name: String::new(),
            origin,
            styleuse,
            family: None,
            parent: None,
            value_format: None,
            table_prp: NameMap::new(),
            table_col_prp: NameMap::new(),
            table_row_prp: NameMap::new(),
            table_cell_prp: NameMap::new(),
            text_prp: NameMap::new(),
            paragraph_prp: NameMap::new(),
        }
    }
}

/// A font declaration.
#[derive(Debug, Clone)]
pub struct FontDecl {
    pub name: String,
    pub origin: StyleOrigin,
    pub prp: NameMap<String>,
}

/// The model of a [`FontDecl`].
pub ghost struct FontDeclView {
    pub name: Seq<char>,
    pub origin: StyleOrigin,
    pub prp: Pairs<Seq<char>>,
}

impl View for FontDecl {
    type V = FontDeclView;

    open spec fn view(&self) -> FontDeclView {
        FontDeclView { name: self.name@, origin: self.origin, prp: self.prp@ }
    }
}

impl FontDecl {
    /// A font declaration without a name and without attributes.
    pub fn new_origin(origin: StyleOrigin) -> (r: Self)
        ensures
            r@ == (FontDeclView { name: Seq::empty(), origin, prp: Seq::empty() }),
    {
        FontDecl { name: String::new(), origin, prp: NameMap::new() }
    }
}

/// The content of a header or a footer: three regions, or one content that
/// takes the whole width.
#[derive(Debug, Clone)]
pub struct HeaderFooter {
    pub region_left: CompositVec,
    pub region_center: CompositVec,
    pub region_right: CompositVec,
    pub content: CompositVec,
}

/// The model of a [`HeaderFooter`].
pub ghost struct HeaderFooterView {
    pub region_left: Seq<CompositView>,
    pub region_center: Seq<CompositView>,
    pub region_right: Seq<CompositView>,
    pub content: Seq<CompositView>,
}

impl View for HeaderFooter {
    type V = HeaderFooterView;

    open spec fn view(&self) -> HeaderFooterView {
        HeaderFooterView {
            region_left: self.region_left@,
            region_center: self.region_center@,
            region_right: self.region_right@,
            content: self.content@,
        }
    }
}

/// The header or footer without any content.
pub open spec fn empty_header_footer() -> HeaderFooterView {
    HeaderFooterView {
        region_left: Seq::empty(),
        region_center: Seq::empty(),
        region_right: Seq::empty(),
        content: Seq::empty(),
    }
}

impl HeaderFooter {
    /// A header or footer without any content.
    pub fn new() -> (r: Self)
        ensures
            r@ == empty_header_footer(),
    {
        HeaderFooter {
            region_left: CompositVec::new(),
            region_center: CompositVec::new(),
            region_right: CompositVec::new(),
            content: CompositVec::new(),
        }
    }
}

/// The model of an optional header or footer.
pub open spec fn opt_header_footer(h: Option<HeaderFooter>) -> Option<HeaderFooterView> {
    match h {
        Some(x) => Some(x@),
        None => None,
    }
}

/// The layout of a page, with the headers and footers of the master page
/// that uses it.
#[derive(Debug, Clone)]
pub struct PageLayout {
    pub name: String,
    pub masterpage_name: Option<String>,
    pub prp: NameMap<String>,
    pub header_prp: NameMap<String>,
    pub footer_prp: NameMap<String>,
    pub header: Option<HeaderFooter>,
    pub header_left: Option<HeaderFooter>,
    pub footer: Option<HeaderFooter>,
    pub footer_left: Option<HeaderFooter>,
}

/// The model of a [`PageLayout`].
pub ghost struct PageLayoutView {
    pub name: Seq<char>,
    pub masterpage_name: Option<Seq<char>>,
    pub prp: Pairs<Seq<char>>,
    pub header_prp: Pairs<Seq<char>>,
    pub footer_prp: Pairs<Seq<char>>,
    pub header: Option<HeaderFooterView>,
    pub header_left: Option<HeaderFooterView>,
    pub footer: Option<HeaderFooterView>,
    pub footer_left: Option<HeaderFooterView>,
}

impl View for PageLayout {
    type V = PageLayoutView;

    open spec fn view(&self) -> PageLayoutView {
        PageLayoutView {
            name: self.name@,
            masterpage_name: opt_text(self.masterpage_name),
            prp: self.prp@,
            header_prp: self.header_prp@,
            footer_prp: self.footer_prp@,
            header: opt_header_footer(self.header),
            header_left: opt_header_footer(self.header_left),
            footer: opt_header_footer(self.footer),
            footer_left: opt_header_footer(self.footer_left),
        }
    }
}

/// The page layout named `name` without anything else.
pub open spec fn empty_page_layout(name: Seq<char>) -> PageLayoutView {
    PageLayoutView {
        name,
        masterpage_name: None,
        prp: Seq::empty(),
        header_prp: Seq::empty(),
        footer_prp: Seq::empty(),
        header: None,
        header_left: None,
        footer: None,
        footer_left: None,
    }
}

impl PageLayout {
    /// A page layout named `name` without anything else.
    pub fn new(name: String) -> (r: Self)
        ensures
            r@ == empty_page_layout(name@),
    {
        PageLayout {
            name,
            masterpage_name: None,
            prp: NameMap::new(),
            header_prp: NameMap::new(),
            footer_prp: NameMap::new(),
            header: None,
            header_left: None,
            footer: None,
            footer_left: None,
        }
    }
}

/// Two maps by name, one for each part of the document, so that a name of one
/// part never hides the same name of the other.
#[derive(Debug, Clone)]
pub struct OriginMap<V> {
    pub content: NameMap<V>,
    pub styles: NameMap<V>,
}

/// The model of an [`OriginMap`].
pub ghost struct OriginMapView<T> {
    pub content: Pairs<T>,
    pub styles: Pairs<T>,
}

impl<T> OriginMapView<T> {
    /// The pairs of one part.
    pub open spec fn of(self, origin: StyleOrigin) -> Pairs<T> {
        match origin {
            StyleOrigin::Content => self.content,
            StyleOrigin::Styles => self.styles,
        }
    }

    /// The value stored for `origin` under `name`.
    pub open spec fn get(self, origin: StyleOrigin, name: Seq<char>) -> Option<T> {
        pairs_get(self.of(origin), name)
    }

    /// This map with `value` stored for `origin` under `name`.
    pub open spec fn insert(self, origin: StyleOrigin, name: Seq<char>, value: T) -> Self {
        match origin {
            StyleOrigin::Content => OriginMapView {
                content: pairs_insert(self.content, name, value),
                ..self
            },
            StyleOrigin::Styles => OriginMapView {
                styles: pairs_insert(self.styles, name, value),
                ..self
            },
        }
    }
}

impl<V: View> View for OriginMap<V> {
    type V = OriginMapView<V::V>;

    open spec fn view(&self) -> OriginMapView<V::V> {
        OriginMapView { content: self.content@, styles: self.styles@ }
    }
}

impl<V: View> OriginMap<V> {
    /// An empty map.
    pub fn new() -> (r: Self)
        ensures
            r@ == (OriginMapView::<V::V> { content: Seq::empty(), styles: Seq::empty() }),
    {
        OriginMap { content: NameMap::new(), styles: NameMap::new() }
    }

    /// The value stored for `origin` under `name`.
    pub fn get(&self, origin: StyleOrigin, name: &str) -> (r: Option<&V>)
        ensures
            match r {
                Some(v) => self@.get(origin, name@) == Some(v@),
                None => self@.get(origin, name@) is None,
            },
    {
        match origin {
            StyleOrigin::Content => self.content.get(name),
            StyleOrigin::Styles => self.styles.get(name),
        }
    }

    /// Stores `value` for `origin` under `name`.
    pub fn insert(&mut self, origin: StyleOrigin, name: String, value: V)
        ensures
            final(self)@ == old(self)@.insert(origin, name@, value@),
    {
        match origin {
            StyleOrigin::Content => self.content.insert(name, value),
            StyleOrigin::Styles => self.styles.insert(name, value),
        }
    }
}

} // verus!
