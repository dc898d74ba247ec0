//! The workbook: the sheets of a document with its styles, formats, fonts
//! and page layouts.

use vstd::prelude::*;
use crate::format::{ValueFormat, ValueFormatView};
use crate::namemap::{pairs_get, pairs_insert, NameMap, Pairs};
use crate::sheet::{Sheet, SheetView};
use crate::style::{
    FontDecl, FontDeclView, OriginMap, OriginMapView, PageLayout, PageLayoutView, Style,
    StyleOrigin, StyleView,
};

verus! {

/// A workbook. Sheets are kept in reading order. Styles, formats and fonts
/// are found by name within the part of the document that declared them.
#[derive(Debug, Clone)]
pub struct WorkBook {
    pub sheets: Vec<Sheet>,
    pub fonts: OriginMap<FontDecl>,
    pub styles: OriginMap<Style>,
    pub formats: OriginMap<ValueFormat>,
    pub page_layouts: NameMap<PageLayout>,
}

/// The model of a [`WorkBook`].
pub ghost struct WorkBookView {
    pub sheets: Seq<SheetView>,
    pub fonts: OriginMapView<FontDeclView>,
    pub styles: OriginMapView<StyleView>,
    pub formats: OriginMapView<ValueFormatView>,
    pub page_layouts: Pairs<PageLayoutView>,
}

impl View for WorkBook {
    type V = WorkBookView;

    open spec fn view(&self) -> WorkBookView {
        WorkBookView {
            sheets: self.sheets@.map_values(|s: Sheet| s@),
            fonts: self.fonts@,
            styles: self.styles@,
            formats: self.formats@,
            page_layouts: self.page_layouts@,
        }
    }
}

/// The workbook without sheets and without declarations.
pub open spec fn empty_workbook() -> WorkBookView {
    WorkBookView {
        sheets: Seq::empty(),
        fonts: OriginMapView { content: Seq::empty(), styles: Seq::empty() },
        styles: OriginMapView { content: Seq::empty(), styles: Seq::empty() },
        formats: OriginMapView { content: Seq::empty(), styles: Seq::empty() },
        page_layouts: Seq::empty(),
    }
}

impl WorkBookView {
    /// This workbook with one more sheet at the end.
    pub open spec fn with_sheet(self, sheet: SheetView) -> WorkBookView {
        WorkBookView { sheets: self.sheets.push(sheet), ..self }
    }

    /// This workbook with `font` stored under its name and origin.
    pub open spec fn with_font(self, font: FontDeclView) -> WorkBookView {
        WorkBookView { fonts: self.fonts.insert(font.origin, font.name, font), ..self }
    }

    /// This workbook with `style` stored under its name and origin.
    pub open spec fn with_style(self, style: StyleView) -> WorkBookView {
        WorkBookView { styles: self.styles.insert(style.origin, style.name, style), ..self }
    }

    /// This workbook with `format` stored under its name and origin.
    pub open spec fn with_format(self, format: ValueFormatView) -> WorkBookView {
        WorkBookView { formats: self.formats.insert(format.origin, format.name, format), ..self }
    }

    /// This workbook with `layout` stored under its name.
    pub open spec fn with_pagelayout(self, layout: PageLayoutView) -> WorkBookView {
        WorkBookView { page_layouts: pairs_insert(self.page_layouts, layout.name, layout), ..self }
    }
}

impl WorkBook {
    /// A workbook without sheets and without declarations.
    pub fn new() -> (r: Self)
        ensures
            r@ == empty_workbook(),
    {
        let r = WorkBook {
            sheets: Vec::new(),
            fonts: OriginMap::new(),
            styles: OriginMap::new(),
            formats: OriginMap::new(),
            page_layouts: NameMap::new(),
        };
        assert(r@.sheets =~= Seq::<SheetView>::empty());
        r
    }

    /// The number of sheets.
    pub fn num_sheets(&self) -> (n: usize)
        ensures
            n == self@.sheets.len(),
    {
        self.sheets.len()
    }

    /// The sheet at position `n`.
    pub fn sheet(&self, n: usize) -> (r: &Sheet)
        requires
            n < self@.sheets.len(),
        ensures
            r@ == self@.sheets[n as int],
    {
        &self.sheets[n]
    }

    /// Appends a sheet.
    pub fn push_sheet(&mut self, sheet: Sheet)
        ensures
            final(self)@ == old(self)@.with_sheet(sheet@),
    {
        self.sheets.push(sheet);
        assert(self@.sheets =~= old(self)@.sheets.push(sheet@));
    }

    /// Stores a font under its name and origin.
    pub fn add_font(&mut self, font: FontDecl)
        ensures
            final(self)@ == old(self)@.with_font(font@),
    {
        let name = font.name.clone();
        self.fonts.insert(font.origin, name, font);
    }

    /// The font declared by `origin` under `name`.
    pub fn font(&self, origin: StyleOrigin, name: &str) -> (r: Option<&FontDecl>)
        ensures
            match r {
                Some(v) => self@.fonts.get(origin, name@) == Some(v@),
                None => self@.fonts.get(origin, name@) is None,
            },
    {
        self.fonts.get(origin, name)
    }

    /// Stores a style under its name and origin.
    pub fn add_style(&mut self, style: Style)
        ensures
            final(self)@ == old(self)@.with_style(style@),
    {
        let name = style.name.clone();
        self.styles.insert(style.origin, name, style);
    }

    /// The style declared by `origin` under `name`.
    pub fn style(&self, origin: StyleOrigin, name: &str) -> (r: Option<&Style>)
        ensures
            match r {
                Some(v) => self@.styles.get(origin, name@) == Some(v@),
                None => self@.styles.get(origin, name@) is None,
            },
    {
        self.styles.get(origin, name)
    }

    /// Stores a value format under its name and origin.
    pub fn add_format(&mut self, format: ValueFormat)
        ensures
            final(self)@ == old(self)@.with_format(format@),
    {
        let name = format.name.clone();
        self.formats.insert(format.origin, name, format);
    }

    /// The value format declared by `origin` under `name`.
    pub fn format(&self, origin: StyleOrigin, name: &str) -> (r: Option<&ValueFormat>)
        ensures
            match r {
                Some(v) => self@.formats.get(origin, name@) == Some(v@),
                None => self@.formats.get(origin, name@) is None,
            },
    {
        self.formats.get(origin, name)
    }

    /// Stores a page layout under its name.
    pub fn add_pagelayout(&mut self, layout: PageLayout)
        ensures
            final(self)@ == old(self)@.with_pagelayout(layout@),
    {
        let name = layout.name.clone();
        self.page_layouts.insert(name, layout);
    }

    /// The page layout named `name`.
    pub fn pagelayout(&self, name: &str) -> (r: Option<&PageLayout>)
        ensures
            match r {
                Some(v) => pairs_get(self@.page_layouts, name@) == Some(v@),
                None => pairs_get(self@.page_layouts, name@) is None,
            },
    {
        self.page_layouts.get(name)
    }
}

} // verus!
