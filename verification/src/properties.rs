//! Paint properties that cannot be derived from a paint's colour.

use vstd::prelude::*;

use vstd::string::*;

use std::cmp::Ordering;

use crate::text::{chars_of, concat2, find_separator, first_separator, spec_abbreviate, str_eq};

pub use crate::property_kinds::{
    Finish, Fluorescence, Granulation, Lightfastness, Luminescence, Metallicness, Opacity,
    Permanence, Staining, Transparency,
};

verus! {

#[derive(Debug, PartialEq, Eq, Structural, Clone, Copy, PartialOrd, Ord, Hash)]
pub enum PropertyType {
    Transparency,
    Lightfastness,
    Staining,
    Finish,
    Opacity,
    Permanence,
    Luminescence,
    Fluorescence,
    Metallicness,
    Granulation,
}

#[derive(Debug, PartialEq, Eq, Structural, Clone, Copy)]
pub struct Property {
    pub property_type: PropertyType,
    pub value: u64,
}

pub trait PropertyConsts {
    const NAME: &'static str;
    const PROMPT: &'static str;
    const LIST_HEADER: &'static str;
    const VARIANT_STRS: [&'static str; 1];
    const ABBREV_VARIANT_STRS: [&'static str; 1];
}

pub open spec fn malformed_message(s: Seq<char>, name: Seq<char>) -> Seq<char> {
    "'"@ + s + "': Malformed '"@ + name + "' value string"@
}

pub trait PropertyFns: Sized {
    spec fn spec_count() -> u64;
    spec fn spec_index(self) -> u64;
    spec fn spec_from_index(n: u64) -> Self;
    spec fn spec_name() -> Seq<char>;
    spec fn spec_value(self) -> Seq<char>;
    spec fn spec_abbrev_value(self) -> Seq<char>;
    spec fn spec_parse(s: Seq<char>) -> Option<Self>;
    spec fn spec_property_type() -> PropertyType;

    fn name(&self) -> (r: &'static str)
        ensures
            r@ == Self::spec_name(),
    ;

    fn prompt(&self) -> (r: &'static str)
        ensures
            r@ == Self::spec_name() + ":"@,
    ;

    fn list_header(&self) -> (r: &'static str)
        ensures
            r@ == spec_abbreviate(Self::spec_name(), 2),
    ;

    fn str_values() -> (r: Vec<&'static str>)
        ensures
            r@.len() == Self::spec_count(),
            forall|i: int|
                0 <= i < r@.len() ==> #[trigger] r@[i]@ == Self::spec_from_index(
                    (i + 1) as u64,
                ).spec_value(),
    ;

    fn abbrev_value(&self) -> (r: &'static str)
        ensures
            r@ == self.spec_abbrev_value(),
    ;

    fn value(&self) -> (r: &'static str)
        ensures
            r@ == self.spec_value(),
    ;

    fn parse(s: &str) -> (r: Result<Self, String>)
        ensures
            match r {
                Ok(v) => Self::spec_parse(s@) == Some(v),
                Err(e) => Self::spec_parse(s@) is None && e@ == malformed_message(
                    s@,
                    Self::spec_name(),
                ),
            },
    ;

    fn from_u64(n: u64) -> (r: Self)
        requires
            1 <= n <= Self::spec_count(),
        ensures
            r == Self::spec_from_index(n),
    ;

    fn to_u64(&self) -> (r: u64)
        ensures
            r == self.spec_index(),
    ;

    fn property_type_of() -> (r: PropertyType)
        ensures
            r == Self::spec_property_type(),
    ;

    fn into_property(self) -> (r: Property)
        ensures
            r == (Property { property_type: Self::spec_property_type(), value: self.spec_index() }),
    {
        Property { property_type: Self::property_type_of(), value: self.to_u64() }
    }

    fn try_from_property(property: &Property) -> (r: Result<Self, &'static str>)
        requires
            property.property_type == Self::spec_property_type() ==> 1 <= property.value
                <= Self::spec_count(),
        ensures
            match r {
                Ok(v) => property.property_type == Self::spec_property_type() && v
                    == Self::spec_from_index(property.value),
                Err(e) => property.property_type != Self::spec_property_type() && e@
                    == "Incompatible property type"@,
            },
    {
        if Self::property_type_of() == property.property_type {
            Ok(Self::from_u64(property.value))
        } else {
            Err("Incompatible property type")
        }
    }

    proof fn lemma_index(self)
        ensures
            1 <= self.spec_index() <= Self::spec_count(),
            Self::spec_from_index(self.spec_index()) == self,
    ;

    proof fn lemma_from_index(n: u64)
        requires
            1 <= n <= Self::spec_count(),
        ensures
            Self::spec_from_index(n).spec_index() == n,
    ;

    proof fn lemma_parse_value(self)
        ensures
            Self::spec_parse(self.spec_value()) == Some(self),
    ;

    proof fn lemma_parse_abbrev_value(self)
        ensures
            Self::spec_parse(self.spec_abbrev_value()) matches Some(first) && first.spec_abbrev_value()
                == self.spec_abbrev_value() && first.spec_index() <= self.spec_index(),
    ;
}

pub trait PropertyIfce: PropertyConsts + PropertyFns + Clone + Copy + Default {
}


impl Property {
    /// The grade lies on the property's scale.
    pub open spec fn is_valid(self) -> bool {
        1 <= self.value <= self.property_type.spec_count()
    }

    /// The name of the property's type.
    pub fn name(&self) -> (r: &'static str)
        ensures
            r@ == self.property_type.spec_name(),
    {
        self.property_type.name()
    }

    /// The prompt of the property's type.
    pub fn prompt(&self) -> (r: &'static str)
        ensures
            r@ == self.property_type.spec_name() + ":"@,
    {
        self.property_type.prompt()
    }

    /// The list header of the property's type.
    pub fn list_header(&self) -> (r: &'static str)
        ensures
            r@ == self.property_type.spec_name() + ":"@,
    {
        self.property_type.list_header()
    }

    pub fn property_type(&self) -> (r: PropertyType)
        ensures
            r == self.property_type,
    {
        self.property_type
    }
}

impl PropertyType {
    /// How many grades the property's scale has.
    pub open spec fn spec_count(self) -> u64 {
        match self {
            PropertyType::Transparency => Transparency::spec_count(),
            PropertyType::Lightfastness => Lightfastness::spec_count(),
            PropertyType::Staining => Staining::spec_count(),
            PropertyType::Finish => Finish::spec_count(),
            PropertyType::Opacity => Opacity::spec_count(),
            PropertyType::Permanence => Permanence::spec_count(),
            PropertyType::Luminescence => Luminescence::spec_count(),
            PropertyType::Fluorescence => Fluorescence::spec_count(),
            PropertyType::Metallicness => Metallicness::spec_count(),
            PropertyType::Granulation => Granulation::spec_count(),
        }
    }

    /// The property's name.
    pub open spec fn spec_name(self) -> Seq<char> {
        match self {
            PropertyType::Transparency => Transparency::spec_name(),
            PropertyType::Lightfastness => Lightfastness::spec_name(),
            PropertyType::Staining => Staining::spec_name(),
            PropertyType::Finish => Finish::spec_name(),
            PropertyType::Opacity => Opacity::spec_name(),
            PropertyType::Permanence => Permanence::spec_name(),
            PropertyType::Luminescence => Luminescence::spec_name(),
            PropertyType::Fluorescence => Fluorescence::spec_name(),
            PropertyType::Metallicness => Metallicness::spec_name(),
            PropertyType::Granulation => Granulation::spec_name(),
        }
    }

    /// The full text of the grade at position `n` (counted from one).
    pub open spec fn spec_value_at(self, n: u64) -> Seq<char> {
        match self {
            PropertyType::Transparency => Transparency::spec_from_index(n).spec_value(),
            PropertyType::Lightfastness => Lightfastness::spec_from_index(n).spec_value(),
            PropertyType::Staining => Staining::spec_from_index(n).spec_value(),
            PropertyType::Finish => Finish::spec_from_index(n).spec_value(),
            PropertyType::Opacity => Opacity::spec_from_index(n).spec_value(),
            PropertyType::Permanence => Permanence::spec_from_index(n).spec_value(),
            PropertyType::Luminescence => Luminescence::spec_from_index(n).spec_value(),
            PropertyType::Fluorescence => Fluorescence::spec_from_index(n).spec_value(),
            PropertyType::Metallicness => Metallicness::spec_from_index(n).spec_value(),
            PropertyType::Granulation => Granulation::spec_from_index(n).spec_value(),
        }
    }

    /// The abbreviated text of the grade at position `n` (counted from one).
    pub open spec fn spec_abbrev_at(self, n: u64) -> Seq<char> {
        match self {
            PropertyType::Transparency => Transparency::spec_from_index(n).spec_abbrev_value(),
            PropertyType::Lightfastness => Lightfastness::spec_from_index(n).spec_abbrev_value(),
            PropertyType::Staining => Staining::spec_from_index(n).spec_abbrev_value(),
            PropertyType::Finish => Finish::spec_from_index(n).spec_abbrev_value(),
            PropertyType::Opacity => Opacity::spec_from_index(n).spec_abbrev_value(),
            PropertyType::Permanence => Permanence::spec_from_index(n).spec_abbrev_value(),
            PropertyType::Luminescence => Luminescence::spec_from_index(n).spec_abbrev_value(),
            PropertyType::Fluorescence => Fluorescence::spec_from_index(n).spec_abbrev_value(),
            PropertyType::Metallicness => Metallicness::spec_from_index(n).spec_abbrev_value(),
            PropertyType::Granulation => Granulation::spec_from_index(n).spec_abbrev_value(),
        }
    }

    /// The position of the property's default grade.
    pub open spec fn spec_default_index(self) -> u64 {
        match self {
            PropertyType::Transparency => 2,
            PropertyType::Lightfastness => 2,
            PropertyType::Staining => 2,
            PropertyType::Finish => 1,
            PropertyType::Opacity => 1,
            PropertyType::Permanence => 2,
            PropertyType::Luminescence => 3,
            PropertyType::Fluorescence => 4,
            PropertyType::Metallicness => 4,
            PropertyType::Granulation => 3,
        }
    }

    /// The position of the grade that `s` names, if it names one.
    pub open spec fn spec_parse_value(self, s: Seq<char>) -> Option<u64> {
        match self {
            PropertyType::Transparency => match Transparency::spec_parse(s) {
                Some(v) => Some(v.spec_index()),
                None => None,
            },
            PropertyType::Lightfastness => match Lightfastness::spec_parse(s) {
                Some(v) => Some(v.spec_index()),
                None => None,
            },
            PropertyType::Staining => match Staining::spec_parse(s) {
                Some(v) => Some(v.spec_index()),
                None => None,
            },
            PropertyType::Finish => match Finish::spec_parse(s) {
                Some(v) => Some(v.spec_index()),
                None => None,
            },
            PropertyType::Opacity => match Opacity::spec_parse(s) {
                Some(v) => Some(v.spec_index()),
                None => None,
            },
            PropertyType::Permanence => match Permanence::spec_parse(s) {
                Some(v) => Some(v.spec_index()),
                None => None,
            },
            PropertyType::Luminescence => match Luminescence::spec_parse(s) {
                Some(v) => Some(v.spec_index()),
                None => None,
            },
            PropertyType::Fluorescence => match Fluorescence::spec_parse(s) {
                Some(v) => Some(v.spec_index()),
                None => None,
            },
            PropertyType::Metallicness => match Metallicness::spec_parse(s) {
                Some(v) => Some(v.spec_index()),
                None => None,
            },
            PropertyType::Granulation => match Granulation::spec_parse(s) {
                Some(v) => Some(v.spec_index()),
                None => None,
            },
        }
    }

    /// The property type that `s` names, if it names one.
    pub open spec fn spec_parse(s: Seq<char>) -> Option<PropertyType> {
        if s == "Transparency"@ {
            Some(PropertyType::Transparency)
        } else if s == "Lightfastness"@ {
            Some(PropertyType::Lightfastness)
        } else if s == "Staining"@ {
            Some(PropertyType::Staining)
        } else if s == "Finish"@ {
            Some(PropertyType::Finish)
        } else if s == "Opacity"@ {
            Some(PropertyType::Opacity)
        } else if s == "Permanence"@ {
            Some(PropertyType::Permanence)
        } else if s == "Luminescence"@ {
            Some(PropertyType::Luminescence)
        } else if s == "Fluorescence"@ {
            Some(PropertyType::Fluorescence)
        } else if s == "Metallicness"@ {
            Some(PropertyType::Metallicness)
        } else if s == "Granulation"@ {
            Some(PropertyType::Granulation)
        } else {
            None
        }
    }

    /// The property's name.
    pub fn name(&self) -> (r: &'static str)
        ensures
            r@ == self.spec_name(),
    {
        match self {
            PropertyType::Transparency => Transparency::Clear.name(),
            PropertyType::Lightfastness => Lightfastness::ExcellentLightfastness.name(),
            PropertyType::Staining => Staining::HighStaining.name(),
            PropertyType::Finish => Finish::Gloss.name(),
            PropertyType::Opacity => Opacity::Opaque.name(),
            PropertyType::Permanence => Permanence::ExtremelyPermanent.name(),
            PropertyType::Luminescence => Luminescence::Luminescent.name(),
            PropertyType::Fluorescence => Fluorescence::Fluorescent.name(),
            PropertyType::Metallicness => Metallicness::Metal.name(),
            PropertyType::Granulation => Granulation::Granulating.name(),
        }
    }

    /// The prompt for the property: its name followed by a colon.
    pub fn prompt(&self) -> (r: &'static str)
        ensures
            r@ == self.spec_name() + ":"@,
    {
        match self {
            PropertyType::Transparency => Transparency::Clear.prompt(),
            PropertyType::Lightfastness => Lightfastness::ExcellentLightfastness.prompt(),
            PropertyType::Staining => Staining::HighStaining.prompt(),
            PropertyType::Finish => Finish::Gloss.prompt(),
            PropertyType::Opacity => Opacity::Opaque.prompt(),
            PropertyType::Permanence => Permanence::ExtremelyPermanent.prompt(),
            PropertyType::Luminescence => Luminescence::Luminescent.prompt(),
            PropertyType::Fluorescence => Fluorescence::Fluorescent.prompt(),
            PropertyType::Metallicness => Metallicness::Metal.prompt(),
            PropertyType::Granulation => Granulation::Granulating.prompt(),
        }
    }

    /// The list header for the property, which is the same text as its prompt.
    pub fn list_header(&self) -> (r: &'static str)
        ensures
            r@ == self.spec_name() + ":"@,
    {
        self.prompt()
    }

    /// The full text of the grade at position `index` (counted from one).
    pub fn value(&self, index: u64) -> (r: &'static str)
        requires
            1 <= index <= self.spec_count(),
        ensures
            r@ == self.spec_value_at(index),
    {
        match self {
            PropertyType::Transparency => Transparency::from_u64(index).value(),
            PropertyType::Lightfastness => Lightfastness::from_u64(index).value(),
            PropertyType::Staining => Staining::from_u64(index).value(),
            PropertyType::Finish => Finish::from_u64(index).value(),
            PropertyType::Opacity => Opacity::from_u64(index).value(),
            PropertyType::Permanence => Permanence::from_u64(index).value(),
            PropertyType::Luminescence => Luminescence::from_u64(index).value(),
            PropertyType::Fluorescence => Fluorescence::from_u64(index).value(),
            PropertyType::Metallicness => Metallicness::from_u64(index).value(),
            PropertyType::Granulation => Granulation::from_u64(index).value(),
        }
    }

    /// The position of the property's default grade.
    pub fn default_u64(&self) -> (r: u64)
        ensures
            r == self.spec_default_index(),
            1 <= r <= self.spec_count(),
    {
        match self {
            PropertyType::Transparency => Transparency::default().to_u64(),
            PropertyType::Lightfastness => Lightfastness::default().to_u64(),
            PropertyType::Staining => Staining::default().to_u64(),
            PropertyType::Finish => Finish::default().to_u64(),
            PropertyType::Opacity => Opacity::default().to_u64(),
            PropertyType::Permanence => Permanence::default().to_u64(),
            PropertyType::Luminescence => Luminescence::default().to_u64(),
            PropertyType::Fluorescence => Fluorescence::default().to_u64(),
            PropertyType::Metallicness => Metallicness::default().to_u64(),
            PropertyType::Granulation => Granulation::default().to_u64(),
        }
    }

    /// The full text of the property's default grade.
    pub fn default_str(&self) -> (r: &'static str)
        ensures
            r@ == self.spec_value_at(self.spec_default_index()),
    {
        match self {
            PropertyType::Transparency => Transparency::default().value(),
            PropertyType::Lightfastness => Lightfastness::default().value(),
            PropertyType::Staining => Staining::default().value(),
            PropertyType::Finish => Finish::default().value(),
            PropertyType::Opacity => Opacity::default().value(),
            PropertyType::Permanence => Permanence::default().value(),
            PropertyType::Luminescence => Luminescence::default().value(),
            PropertyType::Fluorescence => Fluorescence::default().value(),
            PropertyType::Metallicness => Metallicness::default().value(),
            PropertyType::Granulation => Granulation::default().value(),
        }
    }

    /// The property at its default grade.
    pub fn default_property(&self) -> (r: Property)
        ensures
            r == (Property { property_type: *self, value: self.spec_default_index() }),
            r.is_valid(),
    {
        Property { property_type: *self, value: self.default_u64() }
    }

    /// The property type named by `string`.
    pub fn from_str(string: &str) -> (r: Result<PropertyType, String>)
        ensures
            match r {
                Ok(t) => Self::spec_parse(string@) == Some(t),
                Err(e) => Self::spec_parse(string@) is None && e@ == "Unknown property type: "@
                    + string@,
            },
            forall|t: PropertyType| #[trigger] t.spec_name() == string@ <==> r == Ok::<
                PropertyType,
                String,
            >(t),
    {
        proof {
            assert forall|t: PropertyType| #[trigger] t.spec_name() == string@ <==> Self::spec_parse(
                string@,
            ) == Some(t) by {
                law_property_type_read_from_its_name(t, string@);
            }
        }
        if str_eq(string, "Transparency") {
            Ok(Self::Transparency)
        } else if str_eq(string, "Lightfastness") {
            Ok(Self::Lightfastness)
        } else if str_eq(string, "Staining") {
            Ok(Self::Staining)
        } else if str_eq(string, "Finish") {
            Ok(Self::Finish)
        } else if str_eq(string, "Opacity") {
            Ok(Self::Opacity)
        } else if str_eq(string, "Permanence") {
            Ok(Self::Permanence)
        } else if str_eq(string, "Luminescence") {
            Ok(Self::Luminescence)
        } else if str_eq(string, "Fluorescence") {
            Ok(Self::Fluorescence)
        } else if str_eq(string, "Metallicness") {
            Ok(Self::Metallicness)
        } else if str_eq(string, "Granulation") {
            Ok(Self::Granulation)
        } else {
            Err(concat2("Unknown property type: ", string))
        }
    }

    /// The grade at position `index` whose full text is `s`, if `s` names one.
    pub fn parse_value(&self, s: &str) -> (r: Result<u64, String>)
        ensures
            match r {
                Ok(n) => self.spec_parse_value(s@) == Some(n) && 1 <= n <= self.spec_count(),
                Err(e) => self.spec_parse_value(s@) is None && e@ == malformed_message(s@, self.spec_name()),
            },
    {
        match self {
            PropertyType::Transparency => match <Transparency as PropertyFns>::parse(s) {
                Ok(v) => {
                    proof {
                        v.lemma_index();
                    }
                    Ok(v.to_u64())
                }
                Err(e) => Err(e),
            },
            PropertyType::Lightfastness => match <Lightfastness as PropertyFns>::parse(s) {
                Ok(v) => {
                    proof {
                        v.lemma_index();
                    }
                    Ok(v.to_u64())
                }
                Err(e) => Err(e),
            },
            PropertyType::Staining => match <Staining as PropertyFns>::parse(s) {
                Ok(v) => {
                    proof {
                        v.lemma_index();
                    }
                    Ok(v.to_u64())
                }
                Err(e) => Err(e),
            },
            PropertyType::Finish => match <Finish as PropertyFns>::parse(s) {
                Ok(v) => {
                    proof {
                        v.lemma_index();
                    }
                    Ok(v.to_u64())
                }
                Err(e) => Err(e),
            },
            PropertyType::Opacity => match <Opacity as PropertyFns>::parse(s) {
                Ok(v) => {
                    proof {
                        v.lemma_index();
                    }
                    Ok(v.to_u64())
                }
                Err(e) => Err(e),
            },
            PropertyType::Permanence => match <Permanence as PropertyFns>::parse(s) {
                Ok(v) => {
                    proof {
                        v.lemma_index();
                    }
                    Ok(v.to_u64())
                }
                Err(e) => Err(e),
            },
            PropertyType::Luminescence => match <Luminescence as PropertyFns>::parse(s) {
                Ok(v) => {
                    proof {
                        v.lemma_index();
                    }
                    Ok(v.to_u64())
                }
                Err(e) => Err(e),
            },
            PropertyType::Fluorescence => match <Fluorescence as PropertyFns>::parse(s) {
                Ok(v) => {
                    proof {
                        v.lemma_index();
                    }
                    Ok(v.to_u64())
                }
                Err(e) => Err(e),
            },
            PropertyType::Metallicness => match <Metallicness as PropertyFns>::parse(s) {
                Ok(v) => {
                    proof {
                        v.lemma_index();
                    }
                    Ok(v.to_u64())
                }
                Err(e) => Err(e),
            },
            PropertyType::Granulation => match <Granulation as PropertyFns>::parse(s) {
                Ok(v) => {
                    proof {
                        v.lemma_index();
                    }
                    Ok(v.to_u64())
                }
                Err(e) => Err(e),
            },
        }
    }
}

/// The full texts of all the grades of `property`, in scale order.
pub fn str_values(property: &PropertyType) -> (r: Vec<&'static str>)
    ensures
        r@.len() == property.spec_count(),
        forall|i: int|
            0 <= i < r@.len() ==> #[trigger] r@[i]@ == property.spec_value_at((i + 1) as u64),
{
    match property {
        PropertyType::Transparency => Transparency::str_values(),
        PropertyType::Lightfastness => Lightfastness::str_values(),
        PropertyType::Staining => Staining::str_values(),
        PropertyType::Finish => Finish::str_values(),
        PropertyType::Opacity => Opacity::str_values(),
        PropertyType::Permanence => Permanence::str_values(),
        PropertyType::Luminescence => Luminescence::str_values(),
        PropertyType::Fluorescence => Fluorescence::str_values(),
        PropertyType::Metallicness => Metallicness::str_values(),
        PropertyType::Granulation => Granulation::str_values(),
    }
}

impl Property {
    /// The full text of this property's grade.
    pub open spec fn spec_value(self) -> Seq<char> {
        self.property_type.spec_value_at(self.value)
    }

    /// The abbreviated text of this property's grade.
    pub open spec fn spec_abbrev_value(self) -> Seq<char> {
        self.property_type.spec_abbrev_at(self.value)
    }

    /// The abbreviated text of this property's grade.
    pub fn abbrev_value(&self) -> (r: &'static str)
        requires
            self.is_valid(),
        ensures
            r@ == self.spec_abbrev_value(),
    {
        match self.property_type {
            PropertyType::Transparency => Transparency::from_u64(self.value).abbrev_value(),
            PropertyType::Lightfastness => Lightfastness::from_u64(self.value).abbrev_value(),
            PropertyType::Staining => Staining::from_u64(self.value).abbrev_value(),
            PropertyType::Finish => Finish::from_u64(self.value).abbrev_value(),
            PropertyType::Opacity => Opacity::from_u64(self.value).abbrev_value(),
            PropertyType::Permanence => Permanence::from_u64(self.value).abbrev_value(),
            PropertyType::Luminescence => Luminescence::from_u64(self.value).abbrev_value(),
            PropertyType::Fluorescence => Fluorescence::from_u64(self.value).abbrev_value(),
            PropertyType::Metallicness => Metallicness::from_u64(self.value).abbrev_value(),
            PropertyType::Granulation => Granulation::from_u64(self.value).abbrev_value(),
        }
    }

    /// The full text of this property's grade.
    pub fn value(&self) -> (r: &'static str)
        requires
            self.is_valid(),
        ensures
            r@ == self.spec_value(),
    {
        self.property_type.value(self.value)
    }
}

/// Each kind's grades are numbered from one in scale order: the full text of grade `n`
/// names grade `n` again, for every property type and every grade.
pub proof fn law_value_names_its_grade(property_type: PropertyType, n: u64)
    requires
        1 <= n <= property_type.spec_count(),
    ensures
        property_type.spec_parse_value(property_type.spec_value_at(n)) == Some(n),
{
    match property_type {
        PropertyType::Transparency => {
            Transparency::lemma_from_index(n);
            Transparency::spec_from_index(n).lemma_parse_value();
        },
        PropertyType::Lightfastness => {
            Lightfastness::lemma_from_index(n);
            Lightfastness::spec_from_index(n).lemma_parse_value();
        },
        PropertyType::Staining => {
            Staining::lemma_from_index(n);
            Staining::spec_from_index(n).lemma_parse_value();
        },
        PropertyType::Finish => {
            Finish::lemma_from_index(n);
            Finish::spec_from_index(n).lemma_parse_value();
        },
        PropertyType::Opacity => {
            Opacity::lemma_from_index(n);
            Opacity::spec_from_index(n).lemma_parse_value();
        },
        PropertyType::Permanence => {
            Permanence::lemma_from_index(n);
            Permanence::spec_from_index(n).lemma_parse_value();
        },
        PropertyType::Luminescence => {
            Luminescence::lemma_from_index(n);
            Luminescence::spec_from_index(n).lemma_parse_value();
        },
        PropertyType::Fluorescence => {
            Fluorescence::lemma_from_index(n);
            Fluorescence::spec_from_index(n).lemma_parse_value();
        },
        PropertyType::Metallicness => {
            Metallicness::lemma_from_index(n);
            Metallicness::spec_from_index(n).lemma_parse_value();
        },
        PropertyType::Granulation => {
            Granulation::lemma_from_index(n);
            Granulation::spec_from_index(n).lemma_parse_value();
        },
    }
}


/// The text before the first `"::"` of a property string (all of it when there is none).
pub open spec fn type_segment(s: Seq<char>) -> Seq<char> {
    match first_separator(s, 0) {
        Some(i) => s.subrange(0, i),
        None => s,
    }
}

/// The text after the first `"::"` of a property string, when there is one.
pub open spec fn value_segment(s: Seq<char>) -> Option<Seq<char>> {
    match first_separator(s, 0) {
        Some(i) => Some(s.subrange(i + 2, s.len() as int)),
        None => None,
    }
}

/// A property string names a known property type and holds at most one `"::"`.
pub open spec fn is_property_string(s: Seq<char>) -> bool {
    &&& PropertyType::spec_parse(type_segment(s)) is Some
    &&& match value_segment(s) {
        Some(v) => first_separator(v, 0) is None,
        None => true,
    }
}

/// The grade text of a property string: the text after the `"::"`, or the full text of
/// the type's default grade when there is none.
pub open spec fn grade_text(s: Seq<char>) -> Seq<char> {
    let t = PropertyType::spec_parse(type_segment(s))->0;
    match value_segment(s) {
        Some(v) => v,
        None => t.spec_value_at(t.spec_default_index()),
    }
}

impl Property {
    /// Reads a property written as `"<Type>::<grade>"` or `"<Type>"` (the type's default grade).
    pub fn from_str(string: &str) -> (r: Result<Property, String>)
        requires
            is_property_string(string@),
        ensures
            ({
                let t = PropertyType::spec_parse(type_segment(string@))->0;
                match r {
                    Ok(p) => p.property_type == t && t.spec_parse_value(grade_text(string@)) == Some(
                        p.value,
                    ) && p.is_valid(),
                    Err(e) => t.spec_parse_value(grade_text(string@)) is None && e@
                        == malformed_message(grade_text(string@), t.spec_name()),
                }
            }),
    {
        let chars = chars_of(string);
        let n = chars.len();
        let sep = find_separator(&chars, 0);
        let type_text = match sep {
            Some(i) => string.substring_char(0, i),
            None => string,
        };
        let property_type = match PropertyType::from_str(type_text) {
            Ok(t) => t,
            Err(_) => {
                proof {
                    assert(false);
                }
                PropertyType::Transparency
            },
        };
        let result = match sep {
            Some(i) => {
                let value = string.substring_char(i + 2, n);
                property_type.parse_value(value)
            },
            None => {
                let value = property_type.default_str();
                property_type.parse_value(value)
            },
        };
        match result {
            Ok(value) => Ok(Property { property_type, value }),
            Err(e) => Err(e),
        }
    }

    /// The property of type `property_type` whose grade has the text `value`.
    pub fn from_type_and_str(property_type: PropertyType, value: &str) -> (r: Property)
        requires
            property_type.spec_parse_value(value@) is Some,
        ensures
            r.property_type == property_type,
            property_type.spec_parse_value(value@) == Some(r.value),
            r.is_valid(),
    {
        match property_type.parse_value(value) {
            Ok(v) => Property { property_type, value: v },
            Err(_) => {
                proof {
                    assert(false);
                }
                Property { property_type, value: 1 }
            },
        }
    }
}

impl std::str::FromStr for PropertyType {
    type Err = String;

    fn from_str(string: &str) -> (r: Result<PropertyType, String>)
        ensures
            match r {
                Ok(t) => PropertyType::spec_parse(string@) == Some(t),
                Err(e) => PropertyType::spec_parse(string@) is None && e@ == "Unknown property type: "@
                    + string@,
            },
    {
        PropertyType::from_str(string)
    }
}

impl From<(PropertyType, u64)> for Property {
    fn from(pair: (PropertyType, u64)) -> (r: Property) {
        Property { property_type: pair.0, value: pair.1 }
    }
}

impl vstd::std_specs::convert::FromSpecImpl<(PropertyType, u64)> for Property {
    open spec fn obeys_from_spec() -> bool {
        true
    }

    open spec fn from_spec(pair: (PropertyType, u64)) -> Property {
        Property { property_type: pair.0, value: pair.1 }
    }
}

/// How two grades compare.
pub open spec fn compare_grades(a: u64, b: u64) -> Ordering {
    if a < b {
        Ordering::Less
    } else if a == b {
        Ordering::Equal
    } else {
        Ordering::Greater
    }
}

/// Properties are ordered by their grades; they are meant to be compared only with
/// properties of the same type.
impl PartialOrd for Property {
    fn partial_cmp(&self, other: &Self) -> (r: Option<Ordering>) {
        if self.value < other.value {
            Some(Ordering::Less)
        } else if self.value == other.value {
            Some(Ordering::Equal)
        } else {
            Some(Ordering::Greater)
        }
    }
}

impl vstd::std_specs::cmp::PartialOrdSpecImpl for Property {
    open spec fn obeys_partial_cmp_spec() -> bool {
        true
    }

    open spec fn partial_cmp_spec(&self, other: &Self) -> Option<Ordering> {
        Some(compare_grades(self.value, other.value))
    }
}

/// An ordered list of property types.
#[derive(Clone, Debug, PartialEq, Eq)]
pub struct PropertyTypes(pub Vec<PropertyType>);

impl PropertyTypes {
    pub fn len(&self) -> (r: usize)
        ensures
            r == self.0@.len(),
    {
        self.0.len()
    }

    /// The property types, in order.
    pub fn iter(&self) -> (r: Vec<PropertyType>)
        ensures
            r@ == self.0@,
    {
        copy_types(&self.0)
    }

    /// The types of the given properties, in order.
    pub fn from_properties(properties: &Properties) -> (r: PropertyTypes)
        ensures
            r.0@ == types_of(properties.0@),
    {
        PropertyTypes(properties.property_types())
    }
}

impl Default for PropertyTypes {
    fn default() -> (r: Self)
        ensures
            r.0@ == Seq::<PropertyType>::empty(),
    {
        PropertyTypes(Vec::new())
    }
}

fn copy_types(v: &Vec<PropertyType>) -> (r: Vec<PropertyType>)
    ensures
        r@ == v@,
{
    let mut r: Vec<PropertyType> = Vec::new();
    let mut i: usize = 0;
    while i < v.len()
        invariant
            i <= v@.len(),
            r@ =~= v@.subrange(0, i as int),
        decreases v@.len() - i,
    {
        r.push(v[i]);
        i += 1;
    }
    assert(r@ =~= v@);
    r
}

/// A copy of a list of properties.
pub fn copy_properties(v: &[Property]) -> (r: Vec<Property>)
    ensures
        r@ == v@,
{
    let mut r: Vec<Property> = Vec::new();
    let mut i: usize = 0;
    while i < v.len()
        invariant
            i <= v@.len(),
            r@ =~= v@.subrange(0, i as int),
        decreases v@.len() - i,
    {
        r.push(v[i]);
        i += 1;
    }
    assert(r@ =~= v@);
    r
}

/// The types of a list of properties, in order.
pub open spec fn types_of(properties: Seq<Property>) -> Seq<PropertyType> {
    properties.map_values(|p: Property| p.property_type)
}

/// Two property lists have the same types in the same order.
pub open spec fn compatible(a: Seq<Property>, b: Seq<Property>) -> bool {
    &&& a.len() == b.len()
    &&& forall|i: int| 0 <= i < a.len() ==> #[trigger] a[i].property_type == b[i].property_type
}

/// The default property of each of the given types, in order.
pub open spec fn defaults_of(types: Seq<PropertyType>) -> Seq<Property> {
    types.map_values(|t: PropertyType| Property { property_type: t, value: t.spec_default_index() })
}

/// An ordered list of properties.
#[derive(Debug, Clone, PartialEq, Eq)]
pub struct Properties(pub Vec<Property>);

impl Properties {
    /// The properties, in order.
    pub fn iter(&self) -> (r: Vec<Property>)
        ensures
            r@ == self.0@,
    {
        copy_properties(self.0.as_slice())
    }

    pub fn new(vec: &[Property]) -> (r: Self)
        ensures
            r.0@ == vec@,
    {
        Properties(copy_properties(vec))
    }

    /// Whether `properties` has the same types as these, in the same order.
    pub fn is_compatible(&self, properties: &[Property]) -> (r: bool)
        ensures
            r == compatible(self.0@, properties@),
    {
        if self.0.len() != properties.len() {
            return false;
        }
        let mut i: usize = 0;
        while i < properties.len()
            invariant
                self.0@.len() == properties@.len(),
                i <= properties@.len(),
                forall|j: int| 0 <= j < i ==> #[trigger] self.0@[j].property_type == properties@[j].property_type,
            decreases properties@.len() - i,
        {
            if self.0[i].property_type != properties[i].property_type {
                return false;
            }
            i += 1;
        }
        true
    }

    /// Checks that `properties` is compatible with these and leaves these as they are.
    pub fn update(&mut self, properties: &[Property])
        requires
            compatible(old(self).0@, properties@),
        ensures
            final(self).0@ == old(self).0@,
    {
        let _ = Properties(copy_properties(properties));
    }

    /// The types of the properties, in order.
    pub fn property_types(&self) -> (r: Vec<PropertyType>)
        ensures
            r@ == types_of(self.0@),
    {
        let mut r: Vec<PropertyType> = Vec::new();
        let mut i: usize = 0;
        while i < self.0.len()
            invariant
                i <= self.0@.len(),
                r@ =~= types_of(self.0@.subrange(0, i as int)),
            decreases self.0@.len() - i,
        {
            r.push(self.0[i].property_type());
            i += 1;
        }
        assert(self.0@.subrange(0, self.0@.len() as int) =~= self.0@);
        r
    }

    /// The properties, in order.
    pub fn properties(&self) -> (r: Vec<Property>)
        ensures
            r@ == self.0@,
    {
        copy_properties(self.0.as_slice())
    }

    /// The default property of each of the given types, in order.
    pub fn from_property_types(property_types: &PropertyTypes) -> (r: Properties)
        ensures
            r.0@ == defaults_of(property_types.0@),
    {
        let types = &property_types.0;
        let mut r: Vec<Property> = Vec::new();
        let mut i: usize = 0;
        while i < types.len()
            invariant
                i <= types@.len(),
                r@ =~= defaults_of(types@.subrange(0, i as int)),
            decreases types@.len() - i,
        {
            r.push(types[i].default_property());
            i += 1;
        }
        assert(types@.subrange(0, types@.len() as int) =~= types@);
        Properties(r)
    }
}

/// The defaults made for a list of types have those types, so they are compatible with any
/// properties of those types, and every default lies on its scale.
pub proof fn law_defaults_have_their_types(types: Seq<PropertyType>)
    ensures
        types_of(defaults_of(types)) == types,
        forall|i: int| 0 <= i < types.len() ==> (#[trigger] defaults_of(types)[i]).is_valid(),
{
    assert(types_of(defaults_of(types)) =~= types);
    assert forall|i: int| 0 <= i < types.len() implies (#[trigger] defaults_of(types)[i]).is_valid() by {
        let t = types[i];
        match t {
            PropertyType::Transparency => {},
            PropertyType::Lightfastness => {},
            PropertyType::Staining => {},
            PropertyType::Finish => {},
            PropertyType::Opacity => {},
            PropertyType::Permanence => {},
            PropertyType::Luminescence => {},
            PropertyType::Fluorescence => {},
            PropertyType::Metallicness => {},
            PropertyType::Granulation => {},
        }
    }
}

/// Compatibility is an equivalence: reflexive, symmetric and transitive; and two lists are
/// compatible exactly when their types agree.
pub proof fn law_compatible_is_equivalence(a: Seq<Property>, b: Seq<Property>, c: Seq<Property>)
    ensures
        compatible(a, a),
        compatible(a, b) ==> compatible(b, a),
        compatible(a, b) && compatible(b, c) ==> compatible(a, c),
        compatible(a, b) <==> types_of(a) == types_of(b),
{
    if types_of(a) == types_of(b) {
        assert forall|i: int| 0 <= i < a.len() implies #[trigger] a[i].property_type == b[i].property_type by {
            assert(types_of(a)[i] == types_of(b)[i]);
        }
    }
    if compatible(a, b) {
        assert(types_of(a) =~= types_of(b));
    }
}

/// The parts-weighted mean of a property's grade over the paints of a mixture, rounded to
/// the nearest grade (halves round up).
#[derive(Debug)]
pub struct PropertyMixer {
    pub property_type: PropertyType,
    pub sum: u128,
    pub total_parts: u64,
}

/// `sum / total` rounded to the nearest integer, halves rounding up.
pub open spec fn rounded_mean(sum: int, total: int) -> int {
    sum / total + if 2 * (sum % total) >= total {
        1int
    } else {
        0int
    }
}

impl PropertyMixer {
    /// Every grade added so far lay on the property's scale.
    pub open spec fn is_consistent(self) -> bool {
        self.total_parts <= self.sum <= self.property_type.spec_count() * self.total_parts
    }

    pub fn new(property_type: PropertyType) -> (r: PropertyMixer)
        ensures
            r == (PropertyMixer { property_type, sum: 0, total_parts: 0 }),
            r.is_consistent(),
    {
        PropertyMixer { property_type, sum: 0, total_parts: 0 }
    }

    /// Adds `parts` parts of a paint whose grade of this property is `property`.
    pub fn add(&mut self, property: &Property, parts: u64)
        requires
            old(self).is_consistent(),
            property.property_type == old(self).property_type,
            property.is_valid(),
            old(self).total_parts + parts <= u64::MAX,
        ensures
            final(self).property_type == old(self).property_type,
            final(self).sum == old(self).sum + property.value * parts,
            final(self).total_parts == old(self).total_parts + parts,
            final(self).is_consistent(),
    {
        let ghost count = self.property_type.spec_count();
        let ghost v = property.value;
        assert(v * parts <= count * parts) by (nonlinear_arith)
            requires
                v <= count,
        ;
        assert(parts <= v * parts) by (nonlinear_arith)
            requires
                1 <= v,
        ;
        assert(count * self.total_parts + count * parts == count * (self.total_parts + parts))
            by (nonlinear_arith);
        assert(count <= 5) by {
            match self.property_type {
                PropertyType::Transparency => {},
                PropertyType::Lightfastness => {},
                PropertyType::Staining => {},
                PropertyType::Finish => {},
                PropertyType::Opacity => {},
                PropertyType::Permanence => {},
                PropertyType::Luminescence => {},
                PropertyType::Fluorescence => {},
                PropertyType::Metallicness => {},
                PropertyType::Granulation => {},
            }
        }
        assert(count * (self.total_parts + parts) <= 5 * (u64::MAX as int)) by (nonlinear_arith)
            requires
                count <= 5,
                self.total_parts + parts <= u64::MAX,
        ;
        self.sum = self.sum + (property.value as u128) * (parts as u128);
        self.total_parts = self.total_parts + parts;
    }

    /// The mixed grade: the rounded parts-weighted mean of the grades added.
    pub fn mixed_property(&self) -> (r: Property)
        requires
            self.is_consistent(),
            self.total_parts > 0,
        ensures
            r.property_type == self.property_type,
            r.value == rounded_mean(self.sum as int, self.total_parts as int),
            r.is_valid(),
    {
        let total = self.total_parts as u128;
        let q = self.sum / total;
        let rem = self.sum % total;
        let ghost count = self.property_type.spec_count();
        let ghost s = self.sum as int;
        let ghost t = self.total_parts as int;
        assert(1 <= s / t <= count) by (nonlinear_arith)
            requires
                t > 0,
                t <= s,
                s <= count * t,
        ;
        assert(s / t == count ==> s % t == 0) by (nonlinear_arith)
            requires
                t > 0,
                s <= count * t,
        ;
        let up: u128 = if 2 * rem >= total {
            1
        } else {
            0
        };
        proof {
            if up == 1 {
                assert(s % t != 0);
            }
        }
        Property { property_type: self.property_type, value: (q + up) as u64 }
    }
}

/// A property type is read from exactly its own name: reading the name of any type gives that
/// type back, and any text read as a type is that type's name.
pub proof fn law_property_type_read_from_its_name(t: PropertyType, s: Seq<char>)
    ensures
        PropertyType::spec_parse(t.spec_name()) == Some(t),
        PropertyType::spec_parse(s) == Some(t) ==> s == t.spec_name(),
{
    match t {
        PropertyType::Transparency => {
            reveal_strlit("Transparency");
            assert(t.spec_name() == "Transparency"@);
            assert(PropertyType::spec_parse("Transparency"@) == Some(PropertyType::Transparency)) by {
            }
        },
        PropertyType::Lightfastness => {
            reveal_strlit("Lightfastness");
            assert(t.spec_name() == "Lightfastness"@);
            assert(PropertyType::spec_parse("Lightfastness"@) == Some(PropertyType::Lightfastness)) by {
                reveal_strlit("Transparency");
            }
        },
        PropertyType::Staining => {
            reveal_strlit("Staining");
            assert(t.spec_name() == "Staining"@);
            assert(PropertyType::spec_parse("Staining"@) == Some(PropertyType::Staining)) by {
                reveal_strlit("Transparency");
                reveal_strlit("Lightfastness");
            }
        },
        PropertyType::Finish => {
            reveal_strlit("Finish");
            assert(t.spec_name() == "Finish"@);
            assert(PropertyType::spec_parse("Finish"@) == Some(PropertyType::Finish)) by {
                reveal_strlit("Transparency");
                reveal_strlit("Lightfastness");
                reveal_strlit("Staining");
            }
        },
        PropertyType::Opacity => {
            reveal_strlit("Opacity");
            assert(t.spec_name() == "Opacity"@);
            assert(PropertyType::spec_parse("Opacity"@) == Some(PropertyType::Opacity)) by {
                reveal_strlit("Transparency");
                reveal_strlit("Lightfastness");
                reveal_strlit("Staining");
                reveal_strlit("Finish");
            }
        },
        PropertyType::Permanence => {
            reveal_strlit("Permanence");
            assert(t.spec_name() == "Permanence"@);
            assert(PropertyType::spec_parse("Permanence"@) == Some(PropertyType::Permanence)) by {
                reveal_strlit("Transparency");
                reveal_strlit("Lightfastness");
                reveal_strlit("Staining");
                reveal_strlit("Finish");
                reveal_strlit("Opacity");
            }
        },
        PropertyType::Luminescence => {
            reveal_strlit("Luminescence");
            assert(t.spec_name() == "Luminescence"@);
            assert(PropertyType::spec_parse("Luminescence"@) == Some(PropertyType::Luminescence)) by {
                reveal_strlit("Transparency");
                reveal_strlit("Lightfastness");
                reveal_strlit("Staining");
                reveal_strlit("Finish");
                reveal_strlit("Opacity");
                reveal_strlit("Permanence");
                assert("Luminescence"@[0] != "Transparency"@[0]);
            }
        },
        PropertyType::Fluorescence => {
            reveal_strlit("Fluorescence");
            assert(t.spec_name() == "Fluorescence"@);
            assert(PropertyType::spec_parse("Fluorescence"@) == Some(PropertyType::Fluorescence)) by {
                reveal_strlit("Transparency");
                reveal_strlit("Lightfastness");
                reveal_strlit("Staining");
                reveal_strlit("Finish");
                reveal_strlit("Opacity");
                reveal_strlit("Permanence");
                reveal_strlit("Luminescence");
                assert("Fluorescence"@[0] != "Transparency"@[0]);
                assert("Fluorescence"@[0] != "Luminescence"@[0]);
            }
        },
        PropertyType::Metallicness => {
            reveal_strlit("Metallicness");
            assert(t.spec_name() == "Metallicness"@);
            assert(PropertyType::spec_parse("Metallicness"@) == Some(PropertyType::Metallicness)) by {
                reveal_strlit("Transparency");
                reveal_strlit("Lightfastness");
                reveal_strlit("Staining");
                reveal_strlit("Finish");
                reveal_strlit("Opacity");
                reveal_strlit("Permanence");
                reveal_strlit("Luminescence");
                reveal_strlit("Fluorescence");
                assert("Metallicness"@[0] != "Transparency"@[0]);
                assert("Metallicness"@[0] != "Luminescence"@[0]);
                assert("Metallicness"@[0] != "Fluorescence"@[0]);
            }
        },
        PropertyType::Granulation => {
            reveal_strlit("Granulation");
            assert(t.spec_name() == "Granulation"@);
            assert(PropertyType::spec_parse("Granulation"@) == Some(PropertyType::Granulation)) by {
                reveal_strlit("Transparency");
                reveal_strlit("Lightfastness");
                reveal_strlit("Staining");
                reveal_strlit("Finish");
                reveal_strlit("Opacity");
                reveal_strlit("Permanence");
                reveal_strlit("Luminescence");
                reveal_strlit("Fluorescence");
                reveal_strlit("Metallicness");
            }
        },
    }
}

/// Grades are numbered from one: each grade's number lies on its scale and names it back, and
/// each number on the scale names a grade with that number.
pub proof fn law_grade_numbering<P: PropertyFns>(p: P, n: u64)
    ensures
        1 <= p.spec_index() <= P::spec_count(),
        P::spec_from_index(p.spec_index()) == p,
        1 <= n <= P::spec_count() ==> P::spec_from_index(n).spec_index() == n,
{
    p.lemma_index();
    if 1 <= n <= P::spec_count() {
        P::lemma_from_index(n);
    }
}

/// A grade's full text reads back as that grade.
pub proof fn law_value_reads_back<P: PropertyFns>(p: P)
    ensures
        P::spec_parse(p.spec_value()) == Some(p),
{
    p.lemma_parse_value();
}

/// A grade's abbreviation reads back as the first grade on the scale with that abbreviation:
/// the grade itself unless an earlier grade shares the abbreviation.
pub proof fn law_abbrev_reads_back<P: PropertyFns>(p: P)
    ensures
        P::spec_parse(p.spec_abbrev_value()) matches Some(first) && first.spec_abbrev_value()
            == p.spec_abbrev_value() && first.spec_index() <= p.spec_index(),
{
    p.lemma_parse_abbrev_value();
}

} // verus!
