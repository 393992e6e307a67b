//! Paints, their properties, ranges and series of paints, and mixtures of paints.

use vstd::prelude::*;

pub mod digest;
pub mod hex_entry;
pub mod keyed;
pub mod mixtures;
pub mod range;
pub mod series;
pub mod paint;
pub mod properties;
pub mod property_kinds;
pub mod range_id;
pub mod ratio;
pub mod text;

pub use crate::range_id::PaintRangeId;

use crate::range_id::spec_display;
use crate::text::concat2;

verus! {

/// A text that describes an item in a tooltip.
pub trait TooltipText {
    spec fn spec_tooltip_text(&self) -> Seq<char>;

    fn tooltip_text(&self) -> (r: String)
        ensures
            r@ == self.spec_tooltip_text(),
    ;
}

/// A text that labels an item.
pub trait LabelText {
    spec fn spec_label_text(&self) -> Seq<char>;

    fn label_text(&self) -> (r: String)
        ensures
            r@ == self.spec_label_text(),
    ;
}

/// What can go wrong with paint collections.
#[derive(Debug)]
pub enum Error {
    NotFound(String),
    UnknownSeries(PaintRangeId),
    UnknownPaint(PaintRangeId, String),
    NotAValidLegacySpec,
    NotImplemented,
}

impl Error {
    /// The error's message.
    pub open spec fn spec_message(&self) -> Seq<char> {
        match self {
            Error::NotFound(s) => s@ + ": Not found."@,
            Error::UnknownSeries(id) => spec_display(id.name@, id.proprietor@)
                + ": unknown paint range"@,
            Error::UnknownPaint(id, s) => s@ + ":("@ + spec_display(id.name@, id.proprietor@)
                + "): unknown paint"@,
            Error::NotAValidLegacySpec => "Not a valid specification."@,
            Error::NotImplemented => "Feature not yet implemented."@,
        }
    }

    /// The error's message.
    pub fn to_string(&self) -> (r: String)
        ensures
            r@ == self.spec_message(),
    {
        match self {
            Error::NotFound(s) => concat2(s.as_str(), ": Not found."),
            Error::UnknownSeries(id) => {
                let written = id.to_string();
                concat2(written.as_str(), ": unknown paint range")
            },
            Error::UnknownPaint(id, s) => {
                let a = concat2(s.as_str(), ":(");
                let written = id.to_string();
                let b = concat2(a.as_str(), written.as_str());
                concat2(b.as_str(), "): unknown paint")
            },
            Error::NotAValidLegacySpec => "Not a valid specification.".to_owned(),
            Error::NotImplemented => "Feature not yet implemented.".to_owned(),
        }
    }
}

} // verus!
