//! Value formats: how numbers, dates and texts are to be shown.

use vstd::prelude::*;
use crate::namemap::{NameMap, Pairs};
use crate::strs::opt_text;
use crate::style::{StyleOrigin, StyleUse};
use crate::value::ValueType;

verus! {

/// The kinds of parts that a value format is made of.
#[derive(Debug, Clone, Copy, PartialEq, Eq, Structural)]
pub enum FormatPartType {
    Boolean,
    Number,
    Scientific,
    Day,
    Month,
    Year,
    Era,
    DayOfWeek,
    WeekOfYear,
    Quarter,
    Hours,
    Minutes,
    Seconds,
    Fraction,
    AmPm,
    EmbeddedText,
    TextContent,
    CurrencySymbol,
    Text,
    StyleMap,
}

/// One part of a value format: its kind, its attributes and, for a currency
/// symbol or a text, its literal content.
#[derive(Debug, Clone)]
pub struct FormatPart {
    pub part_type: FormatPartType,
    pub prp: NameMap<String>,
    pub content: Option<String>,
}

/// The model of a [`FormatPart`].
pub ghost struct FormatPartView {
    pub part_type: FormatPartType,
    pub prp: Pairs<Seq<char>>,
    pub content: Option<Seq<char>>,
}

impl View for FormatPart {
    type V = FormatPartView;

    open spec fn view(&self) -> FormatPartView {
        FormatPartView {
            part_type: self.part_type,
            prp: self.prp@,
            content: opt_text(self.content),
        }
    }
}

impl FormatPart {
    /// A part of the given kind without attributes and without content.
    pub fn new(part_type: FormatPartType) -> (r: Self)
        ensures
            r@ == (FormatPartView { part_type, prp: Seq::empty(), content: None }),
    {
        FormatPart { part_type, prp: NameMap::new(), content: None }
    }
}

/// A value format: its identity, the type of value it formats, its own
/// attributes, and its parts from left to right.
#[derive(Debug, Clone)]
pub struct ValueFormat {
    pub name: String,
    pub origin: StyleOrigin,
    pub styleuse: StyleUse,
    pub v_type: ValueType,
    pub prp: NameMap<String>,
    pub parts: Vec<FormatPart>,
}

/// The model of a [`ValueFormat`].
pub ghost struct ValueFormatView {
    pub name: Seq<char>,
    pub origin: StyleOrigin,
    pub styleuse: StyleUse,
    pub v_type: ValueType,
    pub prp: Pairs<Seq<char>>,
    pub parts: Seq<FormatPartView>,
}

impl View for ValueFormat {
    type V = ValueFormatView;

    open spec fn view(&self) -> ValueFormatView {
        ValueFormatView {
            name: self.name@,
            origin: self.origin,
            styleuse: self.styleuse,
            v_type: self.v_type,
            prp: self.prp@,
            parts: self.parts@.map_values(|p: FormatPart| p@),
        }
    }
}

/// The value format without a name, attributes or parts, for text values.
pub open spec fn empty_format(origin: StyleOrigin, styleuse: StyleUse) -> ValueFormatView {
    ValueFormatView {
        name: Seq::empty(),
        origin,
        styleuse,
        v_type: ValueType::Text,
        prp: Seq::empty(),
        parts: Seq::empty(),
    }
}

impl ValueFormat {
    /// A value format without a name, attributes or parts, for text values.
    pub fn new_origin(origin: StyleOrigin, styleuse: StyleUse) -> (r: Self)
        ensures
            r@ == empty_format(origin, styleuse),
    {
        let r = ValueFormat {
            name: String::new(),
            origin,
            styleuse,
            v_type: ValueType::Text,
            prp: NameMap::new(),
            parts: Vec::new(),
        };
        assert(r@.parts =~= Seq::<FormatPartView>::empty());
        r
    }

    /// Appends a part.
    pub fn push_part(&mut self, part: FormatPart)
        ensures
            final(self)@ == (ValueFormatView {
                parts: old(self)@.parts.push(part@),
                ..old(self)@
            }),
    {
        self.parts.push(part);
        assert(self@.parts =~= old(self)@.parts.push(part@));
    }
}

} // verus!
