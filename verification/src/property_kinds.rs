//! The ten kinds of paint property, each an ordered scale of named grades.

use vstd::prelude::*;

use crate::properties::{malformed_message, PropertyConsts, PropertyFns, PropertyIfce, PropertyType};
use crate::text::{concat2, spec_abbreviate, str_eq};

verus! {

#[derive(Debug, PartialEq, Eq, Structural, Clone, Copy, PartialOrd, Ord, Hash)]
pub enum Transparency {
    Clear,
    Transparent,
    SemiTransparent,
    SemiOpaque,
    Opaque,
}

pub const TRANSPARENCY_VARIANT_STRS: [&'static str; 1] = ["clear, transparent, semi-transparent, semi-opaque, opaque, "];

impl PropertyConsts for Transparency {
    const NAME: &'static str = "Transparency";
    const PROMPT: &'static str = "Transparency:";
    const LIST_HEADER: &'static str = "Tr.";
    const VARIANT_STRS: [&'static str; 1] = TRANSPARENCY_VARIANT_STRS;
    const ABBREV_VARIANT_STRS: [&'static str; 1] = TRANSPARENCY_VARIANT_STRS;
}

impl PropertyFns for Transparency {
    open spec fn spec_count() -> u64 {
        5
    }

    open spec fn spec_index(self) -> u64 {
        match self {
            Transparency::Clear => 1,
            Transparency::Transparent => 2,
            Transparency::SemiTransparent => 3,
            Transparency::SemiOpaque => 4,
            Transparency::Opaque => 5,
        }
    }

    open spec fn spec_from_index(n: u64) -> Self {
        if n == 1 {
            Transparency::Clear
        } else if n == 2 {
            Transparency::Transparent
        } else if n == 3 {
            Transparency::SemiTransparent
        } else if n == 4 {
            Transparency::SemiOpaque
        } else {
            Transparency::Opaque
        }
    }

    open spec fn spec_name() -> Seq<char> {
        "Transparency"@
    }

    open spec fn spec_value(self) -> Seq<char> {
        match self {
            Transparency::Clear => "clear"@,
            Transparency::Transparent => "transparent"@,
            Transparency::SemiTransparent => "semi-transparent"@,
            Transparency::SemiOpaque => "semi-opaque"@,
            Transparency::Opaque => "opaque"@,
        }
    }

    open spec fn spec_abbrev_value(self) -> Seq<char> {
        match self {
            Transparency::Clear => "C"@,
            Transparency::Transparent => "T"@,
            Transparency::SemiTransparent => "ST"@,
            Transparency::SemiOpaque => "SO"@,
            Transparency::Opaque => "O"@,
        }
    }

    open spec fn spec_parse(s: Seq<char>) -> Option<Self> {
        if s == "C"@ || s == "clear"@ || s == "Clear"@ {
            Some(Transparency::Clear)
        } else if s == "T"@ || s == "transparent"@ || s == "Transparent"@ {
            Some(Transparency::Transparent)
        } else if s == "ST"@ || s == "semi-transparent"@ || s == "SemiTransparent"@ {
            Some(Transparency::SemiTransparent)
        } else if s == "SO"@ || s == "semi-opaque"@ || s == "SemiOpaque"@ {
            Some(Transparency::SemiOpaque)
        } else if s == "O"@ || s == "opaque"@ || s == "Opaque"@ {
            Some(Transparency::Opaque)
        } else {
            None
        }
    }

    open spec fn spec_property_type() -> PropertyType {
        PropertyType::Transparency
    }

    fn name(&self) -> (r: &'static str) {
        Self::NAME
    }

    fn prompt(&self) -> (r: &'static str) {
        proof {
            reveal_strlit("Transparency:");
            reveal_strlit("Transparency");
            reveal_strlit(":");
        }
        assert(Self::PROMPT@ =~= Self::spec_name() + ":"@);
        Self::PROMPT
    }

    fn list_header(&self) -> (r: &'static str) {
        proof {
            reveal_strlit("Tr.");
            reveal_strlit("Transparency");
            reveal_strlit(".");
        }
        assert(Self::LIST_HEADER@ =~= spec_abbreviate(Self::spec_name(), 2));
        Self::LIST_HEADER
    }

    fn str_values() -> (r: Vec<&'static str>) {
        let mut r: Vec<&'static str> = Vec::new();
        r.push("clear");
        r.push("transparent");
        r.push("semi-transparent");
        r.push("semi-opaque");
        r.push("opaque");
        r
    }

    fn abbrev_value(&self) -> (r: &'static str) {
        match self {
            Transparency::Clear => "C",
            Transparency::Transparent => "T",
            Transparency::SemiTransparent => "ST",
            Transparency::SemiOpaque => "SO",
            Transparency::Opaque => "O",
        }
    }

    fn value(&self) -> (r: &'static str) {
        match self {
            Transparency::Clear => "clear",
            Transparency::Transparent => "transparent",
            Transparency::SemiTransparent => "semi-transparent",
            Transparency::SemiOpaque => "semi-opaque",
            Transparency::Opaque => "opaque",
        }
    }

    fn parse(s: &str) -> (r: Result<Self, String>) {
        if str_eq(s, "C") || str_eq(s, "clear") || str_eq(s, "Clear") {
            Ok(Transparency::Clear)
        } else if str_eq(s, "T") || str_eq(s, "transparent") || str_eq(s, "Transparent") {
            Ok(Transparency::Transparent)
        } else if str_eq(s, "ST") || str_eq(s, "semi-transparent") || str_eq(s, "SemiTransparent") {
            Ok(Transparency::SemiTransparent)
        } else if str_eq(s, "SO") || str_eq(s, "semi-opaque") || str_eq(s, "SemiOpaque") {
            Ok(Transparency::SemiOpaque)
        } else if str_eq(s, "O") || str_eq(s, "opaque") || str_eq(s, "Opaque") {
            Ok(Transparency::Opaque)
        } else {
            let head = concat2("'", s);
            let msg = concat2(head.as_str(), "': Malformed 'Transparency' value string");
            proof {
                reveal_strlit("': Malformed '");
                reveal_strlit("Transparency");
                reveal_strlit("' value string");
                reveal_strlit("': Malformed 'Transparency' value string");
                assert(malformed_message(s@, Self::spec_name()) =~= "'"@ + s@ + "': Malformed 'Transparency' value string"@);
            }
            Err(msg)
        }
    }

    fn from_u64(n: u64) -> (r: Self) {
        if n == 1 {
            Transparency::Clear
        } else if n == 2 {
            Transparency::Transparent
        } else if n == 3 {
            Transparency::SemiTransparent
        } else if n == 4 {
            Transparency::SemiOpaque
        } else {
            Transparency::Opaque
        }
    }

    fn to_u64(&self) -> (r: u64) {
        match self {
            Transparency::Clear => 1,
            Transparency::Transparent => 2,
            Transparency::SemiTransparent => 3,
            Transparency::SemiOpaque => 4,
            Transparency::Opaque => 5,
        }
    }

    fn property_type_of() -> (r: PropertyType) {
        PropertyType::Transparency
    }

    proof fn lemma_index(self) {
    }

    proof fn lemma_from_index(n: u64) {
    }

    proof fn lemma_parse_value(self) {
        reveal_strlit("C");
        reveal_strlit("clear");
        reveal_strlit("Clear");
        reveal_strlit("T");
        reveal_strlit("transparent");
        reveal_strlit("Transparent");
        reveal_strlit("ST");
        reveal_strlit("semi-transparent");
        reveal_strlit("SemiTransparent");
        reveal_strlit("SO");
        reveal_strlit("semi-opaque");
        reveal_strlit("SemiOpaque");
        reveal_strlit("O");
        reveal_strlit("opaque");
        reveal_strlit("Opaque");
        match self {
            Transparency::Clear => {
                assert("clear"@.len() == 5);
                assert("C"@.len() == 1);
            },
            Transparency::Transparent => {
                assert("transparent"@.len() == 11);
                assert("C"@.len() == 1);
                assert("clear"@.len() == 5);
                assert("Clear"@.len() == 5);
                assert("T"@.len() == 1);
            },
            Transparency::SemiTransparent => {
                assert("semi-transparent"@.len() == 16);
                assert("C"@.len() == 1);
                assert("clear"@.len() == 5);
                assert("Clear"@.len() == 5);
                assert("T"@.len() == 1);
                assert("transparent"@.len() == 11);
                assert("Transparent"@.len() == 11);
                assert("ST"@.len() == 2);
            },
            Transparency::SemiOpaque => {
                assert("semi-opaque"@.len() == 11);
                assert("C"@.len() == 1);
                assert("clear"@.len() == 5);
                assert("Clear"@.len() == 5);
                assert("T"@.len() == 1);
                assert("transparent"@[0] == 't');
                assert("Transparent"@[0] == 'T');
                assert("ST"@.len() == 2);
                assert("semi-transparent"@.len() == 16);
                assert("SemiTransparent"@.len() == 15);
                assert("SO"@.len() == 2);
            },
            Transparency::Opaque => {
                assert("opaque"@.len() == 6);
                assert("C"@.len() == 1);
                assert("clear"@.len() == 5);
                assert("Clear"@.len() == 5);
                assert("T"@.len() == 1);
                assert("transparent"@.len() == 11);
                assert("Transparent"@.len() == 11);
                assert("ST"@.len() == 2);
                assert("semi-transparent"@.len() == 16);
                assert("SemiTransparent"@.len() == 15);
                assert("SO"@.len() == 2);
                assert("semi-opaque"@.len() == 11);
                assert("SemiOpaque"@.len() == 10);
                assert("O"@.len() == 1);
            },
        }
    }

    proof fn lemma_parse_abbrev_value(self) {
        reveal_strlit("C");
        reveal_strlit("clear");
        reveal_strlit("Clear");
        reveal_strlit("T");
        reveal_strlit("transparent");
        reveal_strlit("Transparent");
        reveal_strlit("ST");
        reveal_strlit("semi-transparent");
        reveal_strlit("SemiTransparent");
        reveal_strlit("SO");
        reveal_strlit("semi-opaque");
        reveal_strlit("SemiOpaque");
        reveal_strlit("O");
        reveal_strlit("opaque");
        reveal_strlit("Opaque");
        match self {
            Transparency::Clear => {
                assert("C"@.len() == 1);
            },
            Transparency::Transparent => {
                assert("T"@.len() == 1);
                assert("C"@[0] == 'C');
                assert("clear"@.len() == 5);
                assert("Clear"@.len() == 5);
            },
            Transparency::SemiTransparent => {
                assert("ST"@.len() == 2);
                assert("C"@.len() == 1);
                assert("clear"@.len() == 5);
                assert("Clear"@.len() == 5);
                assert("T"@.len() == 1);
                assert("transparent"@.len() == 11);
                assert("Transparent"@.len() == 11);
            },
            Transparency::SemiOpaque => {
                assert("SO"@.len() == 2);
                assert("C"@.len() == 1);
                assert("clear"@.len() == 5);
                assert("Clear"@.len() == 5);
                assert("T"@.len() == 1);
                assert("transparent"@.len() == 11);
                assert("Transparent"@.len() == 11);
                assert("ST"@[1] == 'T');
                assert("semi-transparent"@.len() == 16);
                assert("SemiTransparent"@.len() == 15);
            },
            Transparency::Opaque => {
                assert("O"@.len() == 1);
                assert("C"@[0] == 'C');
                assert("clear"@.len() == 5);
                assert("Clear"@.len() == 5);
                assert("T"@[0] == 'T');
                assert("transparent"@.len() == 11);
                assert("Transparent"@.len() == 11);
                assert("ST"@.len() == 2);
                assert("semi-transparent"@.len() == 16);
                assert("SemiTransparent"@.len() == 15);
                assert("SO"@.len() == 2);
                assert("semi-opaque"@.len() == 11);
                assert("SemiOpaque"@.len() == 10);
            },
        }
    }
}

impl Default for Transparency {
    fn default() -> (r: Self)
        ensures
            r == Transparency::Transparent,
    {
        Transparency::Transparent
    }
}

impl PropertyIfce for Transparency {
}

impl std::str::FromStr for Transparency {
    type Err = String;

    fn from_str(s: &str) -> (r: Result<Self, String>)
        ensures
            match r {
                Ok(v) => Self::spec_parse(s@) == Some(v),
                Err(e) => Self::spec_parse(s@) is None && e@ == malformed_message(
                    s@,
                    Self::spec_name(),
                ),
            },
    {
        <Transparency as PropertyFns>::parse(s)
    }
}

/// The grade's position on the scale, counted from one.
impl From<Transparency> for u64 {
    fn from(grade: Transparency) -> (r: u64) {
        grade.to_u64()
    }
}

impl vstd::std_specs::convert::FromSpecImpl<Transparency> for u64 {
    open spec fn obeys_from_spec() -> bool {
        true
    }

    open spec fn from_spec(grade: Transparency) -> u64 {
        grade.spec_index()
    }
}

#[derive(Debug, PartialEq, Eq, Structural, Clone, Copy, PartialOrd, Ord, Hash)]
pub enum Lightfastness {
    ExcellentLightfastness,
    VeryGoodLightfastness,
    FairLightfastness,
    Fugitive,
}

pub const LIGHTFASTNESS_VARIANT_STRS: [&'static str; 1] = ["excellent-lightfastness, very-good-lightfastness, fair-lightfastness, fugitive, "];

impl PropertyConsts for Lightfastness {
    const NAME: &'static str = "Lightfastness";
    const PROMPT: &'static str = "Lightfastness:";
    const LIST_HEADER: &'static str = "Li.";
    const VARIANT_STRS: [&'static str; 1] = LIGHTFASTNESS_VARIANT_STRS;
    const ABBREV_VARIANT_STRS: [&'static str; 1] = LIGHTFASTNESS_VARIANT_STRS;
}

impl PropertyFns for Lightfastness {
    open spec fn spec_count() -> u64 {
        4
    }

    open spec fn spec_index(self) -> u64 {
        match self {
            Lightfastness::ExcellentLightfastness => 1,
            Lightfastness::VeryGoodLightfastness => 2,
            Lightfastness::FairLightfastness => 3,
            Lightfastness::Fugitive => 4,
        }
    }

    open spec fn spec_from_index(n: u64) -> Self {
        if n == 1 {
            Lightfastness::ExcellentLightfastness
        } else if n == 2 {
            Lightfastness::VeryGoodLightfastness
        } else if n == 3 {
            Lightfastness::FairLightfastness
        } else {
            Lightfastness::Fugitive
        }
    }

    open spec fn spec_name() -> Seq<char> {
        "Lightfastness"@
    }

    open spec fn spec_value(self) -> Seq<char> {
        match self {
            Lightfastness::ExcellentLightfastness => "excellent-lightfastness"@,
            Lightfastness::VeryGoodLightfastness => "very-good-lightfastness"@,
            Lightfastness::FairLightfastness => "fair-lightfastness"@,
            Lightfastness::Fugitive => "fugitive"@,
        }
    }

    open spec fn spec_abbrev_value(self) -> Seq<char> {
        match self {
            Lightfastness::ExcellentLightfastness => "EL"@,
            Lightfastness::VeryGoodLightfastness => "VGL"@,
            Lightfastness::FairLightfastness => "FL"@,
            Lightfastness::Fugitive => "F"@,
        }
    }

    open spec fn spec_parse(s: Seq<char>) -> Option<Self> {
        if s == "EL"@ || s == "excellent-lightfastness"@ || s == "ExcellentLightfastness"@ {
            Some(Lightfastness::ExcellentLightfastness)
        } else if s == "VGL"@ || s == "very-good-lightfastness"@ || s == "VeryGoodLightfastness"@ {
            Some(Lightfastness::VeryGoodLightfastness)
        } else if s == "FL"@ || s == "fair-lightfastness"@ || s == "FairLightfastness"@ {
            Some(Lightfastness::FairLightfastness)
        } else if s == "F"@ || s == "fugitive"@ || s == "Fugitive"@ {
            Some(Lightfastness::Fugitive)
        } else {
            None
        }
    }

    open spec fn spec_property_type() -> PropertyType {
        PropertyType::Lightfastness
    }

    fn name(&self) -> (r: &'static str) {
        Self::NAME
    }

    fn prompt(&self) -> (r: &'static str) {
        proof {
            reveal_strlit("Lightfastness:");
            reveal_strlit("Lightfastness");
            reveal_strlit(":");
        }
        assert(Self::PROMPT@ =~= Self::spec_name() + ":"@);
        Self::PROMPT
    }

    fn list_header(&self) -> (r: &'static str) {
        proof {
            reveal_strlit("Li.");
            reveal_strlit("Lightfastness");
            reveal_strlit(".");
        }
        assert(Self::LIST_HEADER@ =~= spec_abbreviate(Self::spec_name(), 2));
        Self::LIST_HEADER
    }

    fn str_values() -> (r: Vec<&'static str>) {
        let mut r: Vec<&'static str> = Vec::new();
        r.push("excellent-lightfastness");
        r.push("very-good-lightfastness");
        r.push("fair-lightfastness");
        r.push("fugitive");
        r
    }

    fn abbrev_value(&self) -> (r: &'static str) {
        match self {
            Lightfastness::ExcellentLightfastness => "EL",
            Lightfastness::VeryGoodLightfastness => "VGL",
            Lightfastness::FairLightfastness => "FL",
            Lightfastness::Fugitive => "F",
        }
    }

    fn value(&self) -> (r: &'static str) {
        match self {
            Lightfastness::ExcellentLightfastness => "excellent-lightfastness",
            Lightfastness::VeryGoodLightfastness => "very-good-lightfastness",
            Lightfastness::FairLightfastness => "fair-lightfastness",
            Lightfastness::Fugitive => "fugitive",
        }
    }

    fn parse(s: &str) -> (r: Result<Self, String>) {
        if str_eq(s, "EL") || str_eq(s, "excellent-lightfastness") || str_eq(s, "ExcellentLightfastness") {
            Ok(Lightfastness::ExcellentLightfastness)
        } else if str_eq(s, "VGL") || str_eq(s, "very-good-lightfastness") || str_eq(s, "VeryGoodLightfastness") {
            Ok(Lightfastness::VeryGoodLightfastness)
        } else if str_eq(s, "FL") || str_eq(s, "fair-lightfastness") || str_eq(s, "FairLightfastness") {
            Ok(Lightfastness::FairLightfastness)
        } else if str_eq(s, "F") || str_eq(s, "fugitive") || str_eq(s, "Fugitive") {
            Ok(Lightfastness::Fugitive)
        } else {
            let head = concat2("'", s);
            let msg = concat2(head.as_str(), "': Malformed 'Lightfastness' value string");
            proof {
                reveal_strlit("': Malformed '");
                reveal_strlit("Lightfastness");
                reveal_strlit("' value string");
                reveal_strlit("': Malformed 'Lightfastness' value string");
                assert(malformed_message(s@, Self::spec_name()) =~= "'"@ + s@ + "': Malformed 'Lightfastness' value string"@);
            }
            Err(msg)
        }
    }

    fn from_u64(n: u64) -> (r: Self) {
        if n == 1 {
            Lightfastness::ExcellentLightfastness
        } else if n == 2 {
            Lightfastness::VeryGoodLightfastness
        } else if n == 3 {
            Lightfastness::FairLightfastness
        } else {
            Lightfastness::Fugitive
        }
    }

    fn to_u64(&self) -> (r: u64) {
        match self {
            Lightfastness::ExcellentLightfastness => 1,
            Lightfastness::VeryGoodLightfastness => 2,
            Lightfastness::FairLightfastness => 3,
            Lightfastness::Fugitive => 4,
        }
    }

    fn property_type_of() -> (r: PropertyType) {
        PropertyType::Lightfastness
    }

    proof fn lemma_index(self) {
    }

    proof fn lemma_from_index(n: u64) {
    }

    proof fn lemma_parse_value(self) {
        reveal_strlit("EL");
        reveal_strlit("excellent-lightfastness");
        reveal_strlit("ExcellentLightfastness");
        reveal_strlit("VGL");
        reveal_strlit("very-good-lightfastness");
        reveal_strlit("VeryGoodLightfastness");
        reveal_strlit("FL");
        reveal_strlit("fair-lightfastness");
        reveal_strlit("FairLightfastness");
        reveal_strlit("F");
        reveal_strlit("fugitive");
        reveal_strlit("Fugitive");
        match self {
            Lightfastness::ExcellentLightfastness => {
                assert("excellent-lightfastness"@.len() == 23);
                assert("EL"@.len() == 2);
            },
            Lightfastness::VeryGoodLightfastness => {
                assert("very-good-lightfastness"@.len() == 23);
                assert("EL"@.len() == 2);
                assert("excellent-lightfastness"@[0] == 'e');
                assert("ExcellentLightfastness"@.len() == 22);
                assert("VGL"@.len() == 3);
            },
            Lightfastness::FairLightfastness => {
                assert("fair-lightfastness"@.len() == 18);
                assert("EL"@.len() == 2);
                assert("excellent-lightfastness"@.len() == 23);
                assert("ExcellentLightfastness"@.len() == 22);
                assert("VGL"@.len() == 3);
                assert("very-good-lightfastness"@.len() == 23);
                assert("VeryGoodLightfastness"@.len() == 21);
                assert("FL"@.len() == 2);
            },
            Lightfastness::Fugitive => {
                assert("fugitive"@.len() == 8);
                assert("EL"@.len() == 2);
                assert("excellent-lightfastness"@.len() == 23);
                assert("ExcellentLightfastness"@.len() == 22);
                assert("VGL"@.len() == 3);
                assert("very-good-lightfastness"@.len() == 23);
                assert("VeryGoodLightfastness"@.len() == 21);
                assert("FL"@.len() == 2);
                assert("fair-lightfastness"@.len() == 18);
                assert("FairLightfastness"@.len() == 17);
                assert("F"@.len() == 1);
            },
        }
    }

    proof fn lemma_parse_abbrev_value(self) {
        reveal_strlit("EL");
        reveal_strlit("excellent-lightfastness");
        reveal_strlit("ExcellentLightfastness");
        reveal_strlit("VGL");
        reveal_strlit("very-good-lightfastness");
        reveal_strlit("VeryGoodLightfastness");
        reveal_strlit("FL");
        reveal_strlit("fair-lightfastness");
        reveal_strlit("FairLightfastness");
        reveal_strlit("F");
        reveal_strlit("fugitive");
        reveal_strlit("Fugitive");
        match self {
            Lightfastness::ExcellentLightfastness => {
                assert("EL"@.len() == 2);
            },
            Lightfastness::VeryGoodLightfastness => {
                assert("VGL"@.len() == 3);
                assert("EL"@.len() == 2);
                assert("excellent-lightfastness"@.len() == 23);
                assert("ExcellentLightfastness"@.len() == 22);
            },
            Lightfastness::FairLightfastness => {
                assert("FL"@.len() == 2);
                assert("EL"@[0] == 'E');
                assert("excellent-lightfastness"@.len() == 23);
                assert("ExcellentLightfastness"@.len() == 22);
                assert("VGL"@.len() == 3);
                assert("very-good-lightfastness"@.len() == 23);
                assert("VeryGoodLightfastness"@.len() == 21);
            },
            Lightfastness::Fugitive => {
                assert("F"@.len() == 1);
                assert("EL"@.len() == 2);
                assert("excellent-lightfastness"@.len() == 23);
                assert("ExcellentLightfastness"@.len() == 22);
                assert("VGL"@.len() == 3);
                assert("very-good-lightfastness"@.len() == 23);
                assert("VeryGoodLightfastness"@.len() == 21);
                assert("FL"@.len() == 2);
                assert("fair-lightfastness"@.len() == 18);
                assert("FairLightfastness"@.len() == 17);
            },
        }
    }
}

impl Default for Lightfastness {
    fn default() -> (r: Self)
        ensures
            r == Lightfastness::VeryGoodLightfastness,
    {
        Lightfastness::VeryGoodLightfastness
    }
}

impl PropertyIfce for Lightfastness {
}

impl std::str::FromStr for Lightfastness {
    type Err = String;

    fn from_str(s: &str) -> (r: Result<Self, String>)
        ensures
            match r {
                Ok(v) => Self::spec_parse(s@) == Some(v),
                Err(e) => Self::spec_parse(s@) is None && e@ == malformed_message(
                    s@,
                    Self::spec_name(),
                ),
            },
    {
        <Lightfastness as PropertyFns>::parse(s)
    }
}

/// The grade's position on the scale, counted from one.
impl From<Lightfastness> for u64 {
    fn from(grade: Lightfastness) -> (r: u64) {
        grade.to_u64()
    }
}

impl vstd::std_specs::convert::FromSpecImpl<Lightfastness> for u64 {
    open spec fn obeys_from_spec() -> bool {
        true
    }

    open spec fn from_spec(grade: Lightfastness) -> u64 {
        grade.spec_index()
    }
}

#[derive(Debug, PartialEq, Eq, Structural, Clone, Copy, PartialOrd, Ord, Hash)]
pub enum Staining {
    HighStaining,
    ModerateStaining,
    LowStaining,
    NonStaining,
}

pub const STAINING_VARIANT_STRS: [&'static str; 1] = ["high-staining, moderate-staining, low-staining, non-staining, "];

impl PropertyConsts for Staining {
    const NAME: &'static str = "Staining";
    const PROMPT: &'static str = "Staining:";
    const LIST_HEADER: &'static str = "St.";
    const VARIANT_STRS: [&'static str; 1] = STAINING_VARIANT_STRS;
    const ABBREV_VARIANT_STRS: [&'static str; 1] = STAINING_VARIANT_STRS;
}

impl PropertyFns for Staining {
    open spec fn spec_count() -> u64 {
        4
    }

    open spec fn spec_index(self) -> u64 {
        match self {
            Staining::HighStaining => 1,
            Staining::ModerateStaining => 2,
            Staining::LowStaining => 3,
            Staining::NonStaining => 4,
        }
    }

    open spec fn spec_from_index(n: u64) -> Self {
        if n == 1 {
            Staining::HighStaining
        } else if n == 2 {
            Staining::ModerateStaining
        } else if n == 3 {
            Staining::LowStaining
        } else {
            Staining::NonStaining
        }
    }

    open spec fn spec_name() -> Seq<char> {
        "Staining"@
    }

    open spec fn spec_value(self) -> Seq<char> {
        match self {
            Staining::HighStaining => "high-staining"@,
            Staining::ModerateStaining => "moderate-staining"@,
            Staining::LowStaining => "low-staining"@,
            Staining::NonStaining => "non-staining"@,
        }
    }

    open spec fn spec_abbrev_value(self) -> Seq<char> {
        match self {
            Staining::HighStaining => "HS"@,
            Staining::ModerateStaining => "MS"@,
            Staining::LowStaining => "LS"@,
            Staining::NonStaining => "NS"@,
        }
    }

    open spec fn spec_parse(s: Seq<char>) -> Option<Self> {
        if s == "HS"@ || s == "high-staining"@ || s == "HighStaining"@ {
            Some(Staining::HighStaining)
        } else if s == "MS"@ || s == "moderate-staining"@ || s == "ModerateStaining"@ {
            Some(Staining::ModerateStaining)
        } else if s == "LS"@ || s == "low-staining"@ || s == "LowStaining"@ {
            Some(Staining::LowStaining)
        } else if s == "NS"@ || s == "non-staining"@ || s == "NonStaining"@ {
            Some(Staining::NonStaining)
        } else {
            None
        }
    }

    open spec fn spec_property_type() -> PropertyType {
        PropertyType::Staining
    }

    fn name(&self) -> (r: &'static str) {
        Self::NAME
    }

    fn prompt(&self) -> (r: &'static str) {
        proof {
            reveal_strlit("Staining:");
            reveal_strlit("Staining");
            reveal_strlit(":");
        }
        assert(Self::PROMPT@ =~= Self::spec_name() + ":"@);
        Self::PROMPT
    }

    fn list_header(&self) -> (r: &'static str) {
        proof {
            reveal_strlit("St.");
            reveal_strlit("Staining");
            reveal_strlit(".");
        }
        assert(Self::LIST_HEADER@ =~= spec_abbreviate(Self::spec_name(), 2));
        Self::LIST_HEADER
    }

    fn str_values() -> (r: Vec<&'static str>) {
        let mut r: Vec<&'static str> = Vec::new();
        r.push("high-staining");
        r.push("moderate-staining");
        r.push("low-staining");
        r.push("non-staining");
        r
    }

    fn abbrev_value(&self) -> (r: &'static str) {
        match self {
            Staining::HighStaining => "HS",
            Staining::ModerateStaining => "MS",
            Staining::LowStaining => "LS",
            Staining::NonStaining => "NS",
        }
    }

    fn value(&self) -> (r: &'static str) {
        match self {
            Staining::HighStaining => "high-staining",
            Staining::ModerateStaining => "moderate-staining",
            Staining::LowStaining => "low-staining",
            Staining::NonStaining => "non-staining",
        }
    }

    fn parse(s: &str) -> (r: Result<Self, String>) {
        if str_eq(s, "HS") || str_eq(s, "high-staining") || str_eq(s, "HighStaining") {
            Ok(Staining::HighStaining)
        } else if str_eq(s, "MS") || str_eq(s, "moderate-staining") || str_eq(s, "ModerateStaining") {
            Ok(Staining::ModerateStaining)
        } else if str_eq(s, "LS") || str_eq(s, "low-staining") || str_eq(s, "LowStaining") {
            Ok(Staining::LowStaining)
        } else if str_eq(s, "NS") || str_eq(s, "non-staining") || str_eq(s, "NonStaining") {
            Ok(Staining::NonStaining)
        } else {
            let head = concat2("'", s);
            let msg = concat2(head.as_str(), "': Malformed 'Staining' value string");
            proof {
                reveal_strlit("': Malformed '");
                reveal_strlit("Staining");
                reveal_strlit("' value string");
                reveal_strlit("': Malformed 'Staining' value string");
                assert(malformed_message(s@, Self::spec_name()) =~= "'"@ + s@ + "': Malformed 'Staining' value string"@);
            }
            Err(msg)
        }
    }

    fn from_u64(n: u64) -> (r: Self) {
        if n == 1 {
            Staining::HighStaining
        } else if n == 2 {
            Staining::ModerateStaining
        } else if n == 3 {
            Staining::LowStaining
        } else {
            Staining::NonStaining
        }
    }

    fn to_u64(&self) -> (r: u64) {
        match self {
            Staining::HighStaining => 1,
            Staining::ModerateStaining => 2,
            Staining::LowStaining => 3,
            Staining::NonStaining => 4,
        }
    }

    fn property_type_of() -> (r: PropertyType) {
        PropertyType::Staining
    }

    proof fn lemma_index(self) {
    }

    proof fn lemma_from_index(n: u64) {
    }

    proof fn lemma_parse_value(self) {
        reveal_strlit("HS");
        reveal_strlit("high-staining");
        reveal_strlit("HighStaining");
        reveal_strlit("MS");
        reveal_strlit("moderate-staining");
        reveal_strlit("ModerateStaining");
        reveal_strlit("LS");
        reveal_strlit("low-staining");
        reveal_strlit("LowStaining");
        reveal_strlit("NS");
        reveal_strlit("non-staining");
        reveal_strlit("NonStaining");
        match self {
            Staining::HighStaining => {
                assert("high-staining"@.len() == 13);
                assert("HS"@.len() == 2);
            },
            Staining::ModerateStaining => {
                assert("moderate-staining"@.len() == 17);
                assert("HS"@.len() == 2);
                assert("high-staining"@.len() == 13);
                assert("HighStaining"@.len() == 12);
                assert("MS"@.len() == 2);
            },
            Staining::LowStaining => {
                assert("low-staining"@.len() == 12);
                assert("HS"@.len() == 2);
                assert("high-staining"@.len() == 13);
                assert("HighStaining"@[0] == 'H');
                assert("MS"@.len() == 2);
                assert("moderate-staining"@.len() == 17);
                assert("ModerateStaining"@.len() == 16);
                assert("LS"@.len() == 2);
            },
            Staining::NonStaining => {
                assert("non-staining"@.len() == 12);
                assert("HS"@.len() == 2);
                assert("high-staining"@.len() == 13);
                assert("HighStaining"@[0] == 'H');
                assert("MS"@.len() == 2);
                assert("moderate-staining"@.len() == 17);
                assert("ModerateStaining"@.len() == 16);
                assert("LS"@.len() == 2);
                assert("low-staining"@[0] == 'l');
                assert("LowStaining"@.len() == 11);
                assert("NS"@.len() == 2);
            },
        }
    }

    proof fn lemma_parse_abbrev_value(self) {
        reveal_strlit("HS");
        reveal_strlit("high-staining");
        reveal_strlit("HighStaining");
        reveal_strlit("MS");
        reveal_strlit("moderate-staining");
        reveal_strlit("ModerateStaining");
        reveal_strlit("LS");
        reveal_strlit("low-staining");
        reveal_strlit("LowStaining");
        reveal_strlit("NS");
        reveal_strlit("non-staining");
        reveal_strlit("NonStaining");
        match self {
            Staining::HighStaining => {
                assert("HS"@.len() == 2);
            },
            Staining::ModerateStaining => {
                assert("MS"@.len() == 2);
                assert("HS"@[0] == 'H');
                assert("high-staining"@.len() == 13);
                assert("HighStaining"@.len() == 12);
            },
            Staining::LowStaining => {
                assert("LS"@.len() == 2);
                assert("HS"@[0] == 'H');
                assert("high-staining"@.len() == 13);
                assert("HighStaining"@.len() == 12);
                assert("MS"@[0] == 'M');
                assert("moderate-staining"@.len() == 17);
                assert("ModerateStaining"@.len() == 16);
            },
            Staining::NonStaining => {
                assert("NS"@.len() == 2);
                assert("HS"@[0] == 'H');
                assert("high-staining"@.len() == 13);
                assert("HighStaining"@.len() == 12);
                assert("MS"@[0] == 'M');
                assert("moderate-staining"@.len() == 17);
                assert("ModerateStaining"@.len() == 16);
                assert("LS"@[0] == 'L');
                assert("low-staining"@.len() == 12);
                assert("LowStaining"@.len() == 11);
            },
        }
    }
}

impl Default for Staining {
    fn default() -> (r: Self)
        ensures
            r == Staining::ModerateStaining,
    {
        Staining::ModerateStaining
    }
}

impl PropertyIfce for Staining {
}

impl std::str::FromStr for Staining {
    type Err = String;

    fn from_str(s: &str) -> (r: Result<Self, String>)
        ensures
            match r {
                Ok(v) => Self::spec_parse(s@) == Some(v),
                Err(e) => Self::spec_parse(s@) is None && e@ == malformed_message(
                    s@,
                    Self::spec_name(),
                ),
            },
    {
        <Staining as PropertyFns>::parse(s)
    }
}

/// The grade's position on the scale, counted from one.
impl From<Staining> for u64 {
    fn from(grade: Staining) -> (r: u64) {
        grade.to_u64()
    }
}

impl vstd::std_specs::convert::FromSpecImpl<Staining> for u64 {
    open spec fn obeys_from_spec() -> bool {
        true
    }

    open spec fn from_spec(grade: Staining) -> u64 {
        grade.spec_index()
    }
}

#[derive(Debug, PartialEq, Eq, Structural, Clone, Copy, PartialOrd, Ord, Hash)]
pub enum Finish {
    Gloss,
    SemiGloss,
    SemiFlat,
    Flat,
}

pub const FINISH_VARIANT_STRS: [&'static str; 1] = ["gloss, semi-gloss, semi-flat, flat, "];

impl PropertyConsts for Finish {
    const NAME: &'static str = "Finish";
    const PROMPT: &'static str = "Finish:";
    const LIST_HEADER: &'static str = "Fi.";
    const VARIANT_STRS: [&'static str; 1] = FINISH_VARIANT_STRS;
    const ABBREV_VARIANT_STRS: [&'static str; 1] = FINISH_VARIANT_STRS;
}

impl PropertyFns for Finish {
    open spec fn spec_count() -> u64 {
        4
    }

    open spec fn spec_index(self) -> u64 {
        match self {
            Finish::Gloss => 1,
            Finish::SemiGloss => 2,
            Finish::SemiFlat => 3,
            Finish::Flat => 4,
        }
    }

    open spec fn spec_from_index(n: u64) -> Self {
        if n == 1 {
            Finish::Gloss
        } else if n == 2 {
            Finish::SemiGloss
        } else if n == 3 {
            Finish::SemiFlat
        } else {
            Finish::Flat
        }
    }

    open spec fn spec_name() -> Seq<char> {
        "Finish"@
    }

    open spec fn spec_value(self) -> Seq<char> {
        match self {
            Finish::Gloss => "gloss"@,
            Finish::SemiGloss => "semi-gloss"@,
            Finish::SemiFlat => "semi-flat"@,
            Finish::Flat => "flat"@,
        }
    }

    open spec fn spec_abbrev_value(self) -> Seq<char> {
        match self {
            Finish::Gloss => "G"@,
            Finish::SemiGloss => "SG"@,
            Finish::SemiFlat => "SF"@,
            Finish::Flat => "F"@,
        }
    }

    open spec fn spec_parse(s: Seq<char>) -> Option<Self> {
        if s == "G"@ || s == "gloss"@ || s == "Gloss"@ {
            Some(Finish::Gloss)
        } else if s == "SG"@ || s == "semi-gloss"@ || s == "SemiGloss"@ {
            Some(Finish::SemiGloss)
        } else if s == "SF"@ || s == "semi-flat"@ || s == "SemiFlat"@ {
            Some(Finish::SemiFlat)
        } else if s == "F"@ || s == "flat"@ || s == "Flat"@ {
            Some(Finish::Flat)
        } else {
            None
        }
    }

    open spec fn spec_property_type() -> PropertyType {
        PropertyType::Finish
    }

    fn name(&self) -> (r: &'static str) {
        Self::NAME
    }

    fn prompt(&self) -> (r: &'static str) {
        proof {
            reveal_strlit("Finish:");
            reveal_strlit("Finish");
            reveal_strlit(":");
        }
        assert(Self::PROMPT@ =~= Self::spec_name() + ":"@);
        Self::PROMPT
    }

    fn list_header(&self) -> (r: &'static str) {
        proof {
            reveal_strlit("Fi.");
            reveal_strlit("Finish");
            reveal_strlit(".");
        }
        assert(Self::LIST_HEADER@ =~= spec_abbreviate(Self::spec_name(), 2));
        Self::LIST_HEADER
    }

    fn str_values() -> (r: Vec<&'static str>) {
        let mut r: Vec<&'static str> = Vec::new();
        r.push("gloss");
        r.push("semi-gloss");
        r.push("semi-flat");
        r.push("flat");
        r
    }

    fn abbrev_value(&self) -> (r: &'static str) {
        match self {
            Finish::Gloss => "G",
            Finish::SemiGloss => "SG",
            Finish::SemiFlat => "SF",
            Finish::Flat => "F",
        }
    }

    fn value(&self) -> (r: &'static str) {
        match self {
            Finish::Gloss => "gloss",
            Finish::SemiGloss => "semi-gloss",
            Finish::SemiFlat => "semi-flat",
            Finish::Flat => "flat",
        }
    }

    fn parse(s: &str) -> (r: Result<Self, String>) {
        if str_eq(s, "G") || str_eq(s, "gloss") || str_eq(s, "Gloss") {
            Ok(Finish::Gloss)
        } else if str_eq(s, "SG") || str_eq(s, "semi-gloss") || str_eq(s, "SemiGloss") {
            Ok(Finish::SemiGloss)
        } else if str_eq(s, "SF") || str_eq(s, "semi-flat") || str_eq(s, "SemiFlat") {
            Ok(Finish::SemiFlat)
        } else if str_eq(s, "F") || str_eq(s, "flat") || str_eq(s, "Flat") {
            Ok(Finish::Flat)
        } else {
            let head = concat2("'", s);
            let msg = concat2(head.as_str(), "': Malformed 'Finish' value string");
            proof {
                reveal_strlit("': Malformed '");
                reveal_strlit("Finish");
                reveal_strlit("' value string");
                reveal_strlit("': Malformed 'Finish' value string");
                assert(malformed_message(s@, Self::spec_name()) =~= "'"@ + s@ + "': Malformed 'Finish' value string"@);
            }
            Err(msg)
        }
    }

    fn from_u64(n: u64) -> (r: Self) {
        if n == 1 {
            Finish::Gloss
        } else if n == 2 {
            Finish::SemiGloss
        } else if n == 3 {
            Finish::SemiFlat
        } else {
            Finish::Flat
        }
    }

    fn to_u64(&self) -> (r: u64) {
        match self {
            Finish::Gloss => 1,
            Finish::SemiGloss => 2,
            Finish::SemiFlat => 3,
            Finish::Flat => 4,
        }
    }

    fn property_type_of() -> (r: PropertyType) {
        PropertyType::Finish
    }

    proof fn lemma_index(self) {
    }

    proof fn lemma_from_index(n: u64) {
    }

    proof fn lemma_parse_value(self) {
        reveal_strlit("G");
        reveal_strlit("gloss");
        reveal_strlit("Gloss");
        reveal_strlit("SG");
        reveal_strlit("semi-gloss");
        reveal_strlit("SemiGloss");
        reveal_strlit("SF");
        reveal_strlit("semi-flat");
        reveal_strlit("SemiFlat");
        reveal_strlit("F");
        reveal_strlit("flat");
        reveal_strlit("Flat");
        match self {
            Finish::Gloss => {
                assert("gloss"@.len() == 5);
                assert("G"@.len() == 1);
            },
            Finish::SemiGloss => {
                assert("semi-gloss"@.len() == 10);
                assert("G"@.len() == 1);
                assert("gloss"@.len() == 5);
                assert("Gloss"@.len() == 5);
                assert("SG"@.len() == 2);
            },
            Finish::SemiFlat => {
                assert("semi-flat"@.len() == 9);
                assert("G"@.len() == 1);
                assert("gloss"@.len() == 5);
                assert("Gloss"@.len() == 5);
                assert("SG"@.len() == 2);
                assert("semi-gloss"@.len() == 10);
                assert("SemiGloss"@[0] == 'S');
                assert("SF"@.len() == 2);
            },
            Finish::Flat => {
                assert("flat"@.len() == 4);
                assert("G"@.len() == 1);
                assert("gloss"@.len() == 5);
                assert("Gloss"@.len() == 5);
                assert("SG"@.len() == 2);
                assert("semi-gloss"@.len() == 10);
                assert("SemiGloss"@.len() == 9);
                assert("SF"@.len() == 2);
                assert("semi-flat"@.len() == 9);
                assert("SemiFlat"@.len() == 8);
                assert("F"@.len() == 1);
            },
        }
    }

    proof fn lemma_parse_abbrev_value(self) {
        reveal_strlit("G");
        reveal_strlit("gloss");
        reveal_strlit("Gloss");
        reveal_strlit("SG");
        reveal_strlit("semi-gloss");
        reveal_strlit("SemiGloss");
        reveal_strlit("SF");
        reveal_strlit("semi-flat");
        reveal_strlit("SemiFlat");
        reveal_strlit("F");
        reveal_strlit("flat");
        reveal_strlit("Flat");
        match self {
            Finish::Gloss => {
                assert("G"@.len() == 1);
            },
            Finish::SemiGloss => {
                assert("SG"@.len() == 2);
                assert("G"@.len() == 1);
                assert("gloss"@.len() == 5);
                assert("Gloss"@.len() == 5);
            },
            Finish::SemiFlat => {
                assert("SF"@.len() == 2);
                assert("G"@.len() == 1);
                assert("gloss"@.len() == 5);
                assert("Gloss"@.len() == 5);
                assert("SG"@[1] == 'G');
                assert("semi-gloss"@.len() == 10);
                assert("SemiGloss"@.len() == 9);
            },
            Finish::Flat => {
                assert("F"@.len() == 1);
                assert("G"@[0] == 'G');
                assert("gloss"@.len() == 5);
                assert("Gloss"@.len() == 5);
                assert("SG"@.len() == 2);
                assert("semi-gloss"@.len() == 10);
                assert("SemiGloss"@.len() == 9);
                assert("SF"@.len() == 2);
                assert("semi-flat"@.len() == 9);
                assert("SemiFlat"@.len() == 8);
            },
        }
    }
}

impl Default for Finish {
    fn default() -> (r: Self)
        ensures
            r == Finish::Gloss,
    {
        Finish::Gloss
    }
}

impl PropertyIfce for Finish {
}

impl std::str::FromStr for Finish {
    type Err = String;

    fn from_str(s: &str) -> (r: Result<Self, String>)
        ensures
            match r {
                Ok(v) => Self::spec_parse(s@) == Some(v),
                Err(e) => Self::spec_parse(s@) is None && e@ == malformed_message(
                    s@,
                    Self::spec_name(),
                ),
            },
    {
        <Finish as PropertyFns>::parse(s)
    }
}

/// The grade's position on the scale, counted from one.
impl From<Finish> for u64 {
    fn from(grade: Finish) -> (r: u64) {
        grade.to_u64()
    }
}

impl vstd::std_specs::convert::FromSpecImpl<Finish> for u64 {
    open spec fn obeys_from_spec() -> bool {
        true
    }

    open spec fn from_spec(grade: Finish) -> u64 {
        grade.spec_index()
    }
}

#[derive(Debug, PartialEq, Eq, Structural, Clone, Copy, PartialOrd, Ord, Hash)]
pub enum Opacity {
    Opaque,
    SemiOpaque,
    SemiTransparent,
    Transparent,
    Clear,
}

pub const OPACITY_VARIANT_STRS: [&'static str; 1] = ["opaque, semi-opaque, semi-transparent, transparent, clear, "];

impl PropertyConsts for Opacity {
    const NAME: &'static str = "Opacity";
    const PROMPT: &'static str = "Opacity:";
    const LIST_HEADER: &'static str = "Op.";
    const VARIANT_STRS: [&'static str; 1] = OPACITY_VARIANT_STRS;
    const ABBREV_VARIANT_STRS: [&'static str; 1] = OPACITY_VARIANT_STRS;
}

impl PropertyFns for Opacity {
    open spec fn spec_count() -> u64 {
        5
    }

    open spec fn spec_index(self) -> u64 {
        match self {
            Opacity::Opaque => 1,
            Opacity::SemiOpaque => 2,
            Opacity::SemiTransparent => 3,
            Opacity::Transparent => 4,
            Opacity::Clear => 5,
        }
    }

    open spec fn spec_from_index(n: u64) -> Self {
        if n == 1 {
            Opacity::Opaque
        } else if n == 2 {
            Opacity::SemiOpaque
        } else if n == 3 {
            Opacity::SemiTransparent
        } else if n == 4 {
            Opacity::Transparent
        } else {
            Opacity::Clear
        }
    }

    open spec fn spec_name() -> Seq<char> {
        "Opacity"@
    }

    open spec fn spec_value(self) -> Seq<char> {
        match self {
            Opacity::Opaque => "opaque"@,
            Opacity::SemiOpaque => "semi-opaque"@,
            Opacity::SemiTransparent => "semi-transparent"@,
            Opacity::Transparent => "transparent"@,
            Opacity::Clear => "clear"@,
        }
    }

    open spec fn spec_abbrev_value(self) -> Seq<char> {
        match self {
            Opacity::Opaque => "O"@,
            Opacity::SemiOpaque => "SO"@,
            Opacity::SemiTransparent => "ST"@,
            Opacity::Transparent => "T"@,
            Opacity::Clear => "C"@,
        }
    }

    open spec fn spec_parse(s: Seq<char>) -> Option<Self> {
        if s == "O"@ || s == "opaque"@ || s == "Opaque"@ {
            Some(Opacity::Opaque)
        } else if s == "SO"@ || s == "semi-opaque"@ || s == "SemiOpaque"@ {
            Some(Opacity::SemiOpaque)
        } else if s == "ST"@ || s == "semi-transparent"@ || s == "SemiTransparent"@ {
            Some(Opacity::SemiTransparent)
        } else if s == "T"@ || s == "transparent"@ || s == "Transparent"@ {
            Some(Opacity::Transparent)
        } else if s == "C"@ || s == "clear"@ || s == "Clear"@ {
            Some(Opacity::Clear)
        } else {
            None
        }
    }

    open spec fn spec_property_type() -> PropertyType {
        PropertyType::Opacity
    }

    fn name(&self) -> (r: &'static str) {
        Self::NAME
    }

    fn prompt(&self) -> (r: &'static str) {
        proof {
            reveal_strlit("Opacity:");
            reveal_strlit("Opacity");
            reveal_strlit(":");
        }
        assert(Self::PROMPT@ =~= Self::spec_name() + ":"@);
        Self::PROMPT
    }

    fn list_header(&self) -> (r: &'static str) {
        proof {
            reveal_strlit("Op.");
            reveal_strlit("Opacity");
            reveal_strlit(".");
        }
        assert(Self::LIST_HEADER@ =~= spec_abbreviate(Self::spec_name(), 2));
        Self::LIST_HEADER
    }

    fn str_values() -> (r: Vec<&'static str>) {
        let mut r: Vec<&'static str> = Vec::new();
        r.push("opaque");
        r.push("semi-opaque");
        r.push("semi-transparent");
        r.push("transparent");
        r.push("clear");
        r
    }

    fn abbrev_value(&self) -> (r: &'static str) {
        match self {
            Opacity::Opaque => "O",
            Opacity::SemiOpaque => "SO",
            Opacity::SemiTransparent => "ST",
            Opacity::Transparent => "T",
            Opacity::Clear => "C",
        }
    }

    fn value(&self) -> (r: &'static str) {
        match self {
            Opacity::Opaque => "opaque",
            Opacity::SemiOpaque => "semi-opaque",
            Opacity::SemiTransparent => "semi-transparent",
            Opacity::Transparent => "transparent",
            Opacity::Clear => "clear",
        }
    }

    fn parse(s: &str) -> (r: Result<Self, String>) {
        if str_eq(s, "O") || str_eq(s, "opaque") || str_eq(s, "Opaque") {
            Ok(Opacity::Opaque)
        } else if str_eq(s, "SO") || str_eq(s, "semi-opaque") || str_eq(s, "SemiOpaque") {
            Ok(Opacity::SemiOpaque)
        } else if str_eq(s, "ST") || str_eq(s, "semi-transparent") || str_eq(s, "SemiTransparent") {
            Ok(Opacity::SemiTransparent)
        } else if str_eq(s, "T") || str_eq(s, "transparent") || str_eq(s, "Transparent") {
            Ok(Opacity::Transparent)
        } else if str_eq(s, "C") || str_eq(s, "clear") || str_eq(s, "Clear") {
            Ok(Opacity::Clear)
        } else {
            let head = concat2("'", s);
            let msg = concat2(head.as_str(), "': Malformed 'Opacity' value string");
            proof {
                reveal_strlit("': Malformed '");
                reveal_strlit("Opacity");
                reveal_strlit("' value string");
                reveal_strlit("': Malformed 'Opacity' value string");
                assert(malformed_message(s@, Self::spec_name()) =~= "'"@ + s@ + "': Malformed 'Opacity' value string"@);
            }
            Err(msg)
        }
    }

    fn from_u64(n: u64) -> (r: Self) {
        if n == 1 {
            Opacity::Opaque
        } else if n == 2 {
            Opacity::SemiOpaque
        } else if n == 3 {
            Opacity::SemiTransparent
        } else if n == 4 {
            Opacity::Transparent
        } else {
            Opacity::Clear
        }
    }

    fn to_u64(&self) -> (r: u64) {
        match self {
            Opacity::Opaque => 1,
            Opacity::SemiOpaque => 2,
            Opacity::SemiTransparent => 3,
            Opacity::Transparent => 4,
            Opacity::Clear => 5,
        }
    }

    fn property_type_of() -> (r: PropertyType) {
        PropertyType::Opacity
    }

    proof fn lemma_index(self) {
    }

    proof fn lemma_from_index(n: u64) {
    }

    proof fn lemma_parse_value(self) {
        reveal_strlit("O");
        reveal_strlit("opaque");
        reveal_strlit("Opaque");
        reveal_strlit("SO");
        reveal_strlit("semi-opaque");
        reveal_strlit("SemiOpaque");
        reveal_strlit("ST");
        reveal_strlit("semi-transparent");
        reveal_strlit("SemiTransparent");
        reveal_strlit("T");
        reveal_strlit("transparent");
        reveal_strlit("Transparent");
        reveal_strlit("C");
        reveal_strlit("clear");
        reveal_strlit("Clear");
        match self {
            Opacity::Opaque => {
                assert("opaque"@.len() == 6);
                assert("O"@.len() == 1);
            },
            Opacity::SemiOpaque => {
                assert("semi-opaque"@.len() == 11);
                assert("O"@.len() == 1);
                assert("opaque"@.len() == 6);
                assert("Opaque"@.len() == 6);
                assert("SO"@.len() == 2);
            },
            Opacity::SemiTransparent => {
                assert("semi-transparent"@.len() == 16);
                assert("O"@.len() == 1);
                assert("opaque"@.len() == 6);
                assert("Opaque"@.len() == 6);
                assert("SO"@.len() == 2);
                assert("semi-opaque"@.len() == 11);
                assert("SemiOpaque"@.len() == 10);
                assert("ST"@.len() == 2);
            },
            Opacity::Transparent => {
                assert("transparent"@.len() == 11);
                assert("O"@.len() == 1);
                assert("opaque"@.len() == 6);
                assert("Opaque"@.len() == 6);
                assert("SO"@.len() == 2);
                assert("semi-opaque"@[0] == 's');
                assert("SemiOpaque"@.len() == 10);
                assert("ST"@.len() == 2);
                assert("semi-transparent"@.len() == 16);
                assert("SemiTransparent"@.len() == 15);
                assert("T"@.len() == 1);
            },
            Opacity::Clear => {
                assert("clear"@.len() == 5);
                assert("O"@.len() == 1);
                assert("opaque"@.len() == 6);
                assert("Opaque"@.len() == 6);
                assert("SO"@.len() == 2);
                assert("semi-opaque"@.len() == 11);
                assert("SemiOpaque"@.len() == 10);
                assert("ST"@.len() == 2);
                assert("semi-transparent"@.len() == 16);
                assert("SemiTransparent"@.len() == 15);
                assert("T"@.len() == 1);
                assert("transparent"@.len() == 11);
                assert("Transparent"@.len() == 11);
                assert("C"@.len() == 1);
            },
        }
    }

    proof fn lemma_parse_abbrev_value(self) {
        reveal_strlit("O");
        reveal_strlit("opaque");
        reveal_strlit("Opaque");
        reveal_strlit("SO");
        reveal_strlit("semi-opaque");
        reveal_strlit("SemiOpaque");
        reveal_strlit("ST");
        reveal_strlit("semi-transparent");
        reveal_strlit("SemiTransparent");
        reveal_strlit("T");
        reveal_strlit("transparent");
        reveal_strlit("Transparent");
        reveal_strlit("C");
        reveal_strlit("clear");
        reveal_strlit("Clear");
        match self {
            Opacity::Opaque => {
                assert("O"@.len() == 1);
            },
            Opacity::SemiOpaque => {
                assert("SO"@.len() == 2);
                assert("O"@.len() == 1);
                assert("opaque"@.len() == 6);
                assert("Opaque"@.len() == 6);
            },
            Opacity::SemiTransparent => {
                assert("ST"@.len() == 2);
                assert("O"@.len() == 1);
                assert("opaque"@.len() == 6);
                assert("Opaque"@.len() == 6);
                assert("SO"@[1] == 'O');
                assert("semi-opaque"@.len() == 11);
                assert("SemiOpaque"@.len() == 10);
            },
            Opacity::Transparent => {
                assert("T"@.len() == 1);
                assert("O"@[0] == 'O');
                assert("opaque"@.len() == 6);
                assert("Opaque"@.len() == 6);
                assert("SO"@.len() == 2);
                assert("semi-opaque"@.len() == 11);
                assert("SemiOpaque"@.len() == 10);
                assert("ST"@.len() == 2);
                assert("semi-transparent"@.len() == 16);
                assert("SemiTransparent"@.len() == 15);
            },
            Opacity::Clear => {
                assert("C"@.len() == 1);
                assert("O"@[0] == 'O');
                assert("opaque"@.len() == 6);
                assert("Opaque"@.len() == 6);
                assert("SO"@.len() == 2);
                assert("semi-opaque"@.len() == 11);
                assert("SemiOpaque"@.len() == 10);
                assert("ST"@.len() == 2);
                assert("semi-transparent"@.len() == 16);
                assert("SemiTransparent"@.len() == 15);
                assert("T"@[0] == 'T');
                assert("transparent"@.len() == 11);
                assert("Transparent"@.len() == 11);
            },
        }
    }
}

impl Default for Opacity {
    fn default() -> (r: Self)
        ensures
            r == Opacity::Opaque,
    {
        Opacity::Opaque
    }
}

impl PropertyIfce for Opacity {
}

impl std::str::FromStr for Opacity {
    type Err = String;

    fn from_str(s: &str) -> (r: Result<Self, String>)
        ensures
            match r {
                Ok(v) => Self::spec_parse(s@) == Some(v),
                Err(e) => Self::spec_parse(s@) is None && e@ == malformed_message(
                    s@,
                    Self::spec_name(),
                ),
            },
    {
        <Opacity as PropertyFns>::parse(s)
    }
}

/// The grade's position on the scale, counted from one.
impl From<Opacity> for u64 {
    fn from(grade: Opacity) -> (r: u64) {
        grade.to_u64()
    }
}

impl vstd::std_specs::convert::FromSpecImpl<Opacity> for u64 {
    open spec fn obeys_from_spec() -> bool {
        true
    }

    open spec fn from_spec(grade: Opacity) -> u64 {
        grade.spec_index()
    }
}

#[derive(Debug, PartialEq, Eq, Structural, Clone, Copy, PartialOrd, Ord, Hash)]
pub enum Permanence {
    ExtremelyPermanent,
    Permanent,
    ModeratelyDurable,
    Fugitive,
}

pub const PERMANENCE_VARIANT_STRS: [&'static str; 1] = ["extremely-permanent, permanent, moderately-durable, fugitive, "];

impl PropertyConsts for Permanence {
    const NAME: &'static str = "Permanence";
    const PROMPT: &'static str = "Permanence:";
    const LIST_HEADER: &'static str = "Pe.";
    const VARIANT_STRS: [&'static str; 1] = PERMANENCE_VARIANT_STRS;
    const ABBREV_VARIANT_STRS: [&'static str; 1] = PERMANENCE_VARIANT_STRS;
}

impl PropertyFns for Permanence {
    open spec fn spec_count() -> u64 {
        4
    }

    open spec fn spec_index(self) -> u64 {
        match self {
            Permanence::ExtremelyPermanent => 1,
            Permanence::Permanent => 2,
            Permanence::ModeratelyDurable => 3,
            Permanence::Fugitive => 4,
        }
    }

    open spec fn spec_from_index(n: u64) -> Self {
        if n == 1 {
            Permanence::ExtremelyPermanent
        } else if n == 2 {
            Permanence::Permanent
        } else if n == 3 {
            Permanence::ModeratelyDurable
        } else {
            Permanence::Fugitive
        }
    }

    open spec fn spec_name() -> Seq<char> {
        "Permanence"@
    }

    open spec fn spec_value(self) -> Seq<char> {
        match self {
            Permanence::ExtremelyPermanent => "extremely-permanent"@,
            Permanence::Permanent => "permanent"@,
            Permanence::ModeratelyDurable => "moderately-durable"@,
            Permanence::Fugitive => "fugitive"@,
        }
    }

    open spec fn spec_abbrev_value(self) -> Seq<char> {
        match self {
            Permanence::ExtremelyPermanent => "EP"@,
            Permanence::Permanent => "P"@,
            Permanence::ModeratelyDurable => "MD"@,
            Permanence::Fugitive => "F"@,
        }
    }

    open spec fn spec_parse(s: Seq<char>) -> Option<Self> {
        if s == "EP"@ || s == "extremely-permanent"@ || s == "ExtremelyPermanent"@ {
            Some(Permanence::ExtremelyPermanent)
        } else if s == "P"@ || s == "permanent"@ || s == "Permanent"@ {
            Some(Permanence::Permanent)
        } else if s == "MD"@ || s == "moderately-durable"@ || s == "ModeratelyDurable"@ {
            Some(Permanence::ModeratelyDurable)
        } else if s == "F"@ || s == "fugitive"@ || s == "Fugitive"@ {
            Some(Permanence::Fugitive)
        } else {
            None
        }
    }

    open spec fn spec_property_type() -> PropertyType {
        PropertyType::Permanence
    }

    fn name(&self) -> (r: &'static str) {
        Self::NAME
    }

    fn prompt(&self) -> (r: &'static str) {
        proof {
            reveal_strlit("Permanence:");
            reveal_strlit("Permanence");
            reveal_strlit(":");
        }
        assert(Self::PROMPT@ =~= Self::spec_name() + ":"@);
        Self::PROMPT
    }

    fn list_header(&self) -> (r: &'static str) {
        proof {
            reveal_strlit("Pe.");
            reveal_strlit("Permanence");
            reveal_strlit(".");
        }
        assert(Self::LIST_HEADER@ =~= spec_abbreviate(Self::spec_name(), 2));
        Self::LIST_HEADER
    }

    fn str_values() -> (r: Vec<&'static str>) {
        let mut r: Vec<&'static str> = Vec::new();
        r.push("extremely-permanent");
        r.push("permanent");
        r.push("moderately-durable");
        r.push("fugitive");
        r
    }

    fn abbrev_value(&self) -> (r: &'static str) {
        match self {
            Permanence::ExtremelyPermanent => "EP",
            Permanence::Permanent => "P",
            Permanence::ModeratelyDurable => "MD",
            Permanence::Fugitive => "F",
        }
    }

    fn value(&self) -> (r: &'static str) {
        match self {
            Permanence::ExtremelyPermanent => "extremely-permanent",
            Permanence::Permanent => "permanent",
            Permanence::ModeratelyDurable => "moderately-durable",
            Permanence::Fugitive => "fugitive",
        }
    }

    fn parse(s: &str) -> (r: Result<Self, String>) {
        if str_eq(s, "EP") || str_eq(s, "extremely-permanent") || str_eq(s, "ExtremelyPermanent") {
            Ok(Permanence::ExtremelyPermanent)
        } else if str_eq(s, "P") || str_eq(s, "permanent") || str_eq(s, "Permanent") {
            Ok(Permanence::Permanent)
        } else if str_eq(s, "MD") || str_eq(s, "moderately-durable") || str_eq(s, "ModeratelyDurable") {
            Ok(Permanence::ModeratelyDurable)
        } else if str_eq(s, "F") || str_eq(s, "fugitive") || str_eq(s, "Fugitive") {
            Ok(Permanence::Fugitive)
        } else {
            let head = concat2("'", s);
            let msg = concat2(head.as_str(), "': Malformed 'Permanence' value string");
            proof {
                reveal_strlit("': Malformed '");
                reveal_strlit("Permanence");
                reveal_strlit("' value string");
                reveal_strlit("': Malformed 'Permanence' value string");
                assert(malformed_message(s@, Self::spec_name()) =~= "'"@ + s@ + "': Malformed 'Permanence' value string"@);
            }
            Err(msg)
        }
    }

    fn from_u64(n: u64) -> (r: Self) {
        if n == 1 {
            Permanence::ExtremelyPermanent
        } else if n == 2 {
            Permanence::Permanent
        } else if n == 3 {
            Permanence::ModeratelyDurable
        } else {
            Permanence::Fugitive
        }
    }

    fn to_u64(&self) -> (r: u64) {
        match self {
            Permanence::ExtremelyPermanent => 1,
            Permanence::Permanent => 2,
            Permanence::ModeratelyDurable => 3,
            Permanence::Fugitive => 4,
        }
    }

    fn property_type_of() -> (r: PropertyType) {
        PropertyType::Permanence
    }

    proof fn lemma_index(self) {
    }

    proof fn lemma_from_index(n: u64) {
    }

    proof fn lemma_parse_value(self) {
        reveal_strlit("EP");
        reveal_strlit("extremely-permanent");
        reveal_strlit("ExtremelyPermanent");
        reveal_strlit("P");
        reveal_strlit("permanent");
        reveal_strlit("Permanent");
        reveal_strlit("MD");
        reveal_strlit("moderately-durable");
        reveal_strlit("ModeratelyDurable");
        reveal_strlit("F");
        reveal_strlit("fugitive");
        reveal_strlit("Fugitive");
        match self {
            Permanence::ExtremelyPermanent => {
                assert("extremely-permanent"@.len() == 19);
                assert("EP"@.len() == 2);
            },
            Permanence::Permanent => {
                assert("permanent"@.len() == 9);
                assert("EP"@.len() == 2);
                assert("extremely-permanent"@.len() == 19);
                assert("ExtremelyPermanent"@.len() == 18);
                assert("P"@.len() == 1);
            },
            Permanence::ModeratelyDurable => {
                assert("moderately-durable"@.len() == 18);
                assert("EP"@.len() == 2);
                assert("extremely-permanent"@.len() == 19);
                assert("ExtremelyPermanent"@[0] == 'E');
                assert("P"@.len() == 1);
                assert("permanent"@.len() == 9);
                assert("Permanent"@.len() == 9);
                assert("MD"@.len() == 2);
            },
            Permanence::Fugitive => {
                assert("fugitive"@.len() == 8);
                assert("EP"@.len() == 2);
                assert("extremely-permanent"@.len() == 19);
                assert("ExtremelyPermanent"@.len() == 18);
                assert("P"@.len() == 1);
                assert("permanent"@.len() == 9);
                assert("Permanent"@.len() == 9);
                assert("MD"@.len() == 2);
                assert("moderately-durable"@.len() == 18);
                assert("ModeratelyDurable"@.len() == 17);
                assert("F"@.len() == 1);
            },
        }
    }

    proof fn lemma_parse_abbrev_value(self) {
        reveal_strlit("EP");
        reveal_strlit("extremely-permanent");
        reveal_strlit("ExtremelyPermanent");
        reveal_strlit("P");
        reveal_strlit("permanent");
        reveal_strlit("Permanent");
        reveal_strlit("MD");
        reveal_strlit("moderately-durable");
        reveal_strlit("ModeratelyDurable");
        reveal_strlit("F");
        reveal_strlit("fugitive");
        reveal_strlit("Fugitive");
        match self {
            Permanence::ExtremelyPermanent => {
                assert("EP"@.len() == 2);
            },
            Permanence::Permanent => {
                assert("P"@.len() == 1);
                assert("EP"@.len() == 2);
                assert("extremely-permanent"@.len() == 19);
                assert("ExtremelyPermanent"@.len() == 18);
            },
            Permanence::ModeratelyDurable => {
                assert("MD"@.len() == 2);
                assert("EP"@[0] == 'E');
                assert("extremely-permanent"@.len() == 19);
                assert("ExtremelyPermanent"@.len() == 18);
                assert("P"@.len() == 1);
                assert("permanent"@.len() == 9);
                assert("Permanent"@.len() == 9);
            },
            Permanence::Fugitive => {
                assert("F"@.len() == 1);
                assert("EP"@.len() == 2);
                assert("extremely-permanent"@.len() == 19);
                assert("ExtremelyPermanent"@.len() == 18);
                assert("P"@[0] == 'P');
                assert("permanent"@.len() == 9);
                assert("Permanent"@.len() == 9);
                assert("MD"@.len() == 2);
                assert("moderately-durable"@.len() == 18);
                assert("ModeratelyDurable"@.len() == 17);
            },
        }
    }
}

impl Default for Permanence {
    fn default() -> (r: Self)
        ensures
            r == Permanence::Permanent,
    {
        Permanence::Permanent
    }
}

impl PropertyIfce for Permanence {
}

impl std::str::FromStr for Permanence {
    type Err = String;

    fn from_str(s: &str) -> (r: Result<Self, String>)
        ensures
            match r {
                Ok(v) => Self::spec_parse(s@) == Some(v),
                Err(e) => Self::spec_parse(s@) is None && e@ == malformed_message(
                    s@,
                    Self::spec_name(),
                ),
            },
    {
        <Permanence as PropertyFns>::parse(s)
    }
}

/// The grade's position on the scale, counted from one.
impl From<Permanence> for u64 {
    fn from(grade: Permanence) -> (r: u64) {
        grade.to_u64()
    }
}

impl vstd::std_specs::convert::FromSpecImpl<Permanence> for u64 {
    open spec fn obeys_from_spec() -> bool {
        true
    }

    open spec fn from_spec(grade: Permanence) -> u64 {
        grade.spec_index()
    }
}

#[derive(Debug, PartialEq, Eq, Structural, Clone, Copy, PartialOrd, Ord, Hash)]
pub enum Fluorescence {
    Fluorescent,
    SemiFluorescent,
    SemiNonFluorescent,
    NonFluorescent,
}

pub const FLUORESCENCE_VARIANT_STRS: [&'static str; 1] = ["fluorescent, semi-fluorescent, semi-non-fluorescent, non-fluorescent, "];

impl PropertyConsts for Fluorescence {
    const NAME: &'static str = "Fluorescence";
    const PROMPT: &'static str = "Fluorescence:";
    const LIST_HEADER: &'static str = "Fl.";
    const VARIANT_STRS: [&'static str; 1] = FLUORESCENCE_VARIANT_STRS;
    const ABBREV_VARIANT_STRS: [&'static str; 1] = FLUORESCENCE_VARIANT_STRS;
}

impl PropertyFns for Fluorescence {
    open spec fn spec_count() -> u64 {
        4
    }

    open spec fn spec_index(self) -> u64 {
        match self {
            Fluorescence::Fluorescent => 1,
            Fluorescence::SemiFluorescent => 2,
            Fluorescence::SemiNonFluorescent => 3,
            Fluorescence::NonFluorescent => 4,
        }
    }

    open spec fn spec_from_index(n: u64) -> Self {
        if n == 1 {
            Fluorescence::Fluorescent
        } else if n == 2 {
            Fluorescence::SemiFluorescent
        } else if n == 3 {
            Fluorescence::SemiNonFluorescent
        } else {
            Fluorescence::NonFluorescent
        }
    }

    open spec fn spec_name() -> Seq<char> {
        "Fluorescence"@
    }

    open spec fn spec_value(self) -> Seq<char> {
        match self {
            Fluorescence::Fluorescent => "fluorescent"@,
            Fluorescence::SemiFluorescent => "semi-fluorescent"@,
            Fluorescence::SemiNonFluorescent => "semi-non-fluorescent"@,
            Fluorescence::NonFluorescent => "non-fluorescent"@,
        }
    }

    open spec fn spec_abbrev_value(self) -> Seq<char> {
        match self {
            Fluorescence::Fluorescent => "F"@,
            Fluorescence::SemiFluorescent => "SF"@,
            Fluorescence::SemiNonFluorescent => "SNF"@,
            Fluorescence::NonFluorescent => "NF"@,
        }
    }

    open spec fn spec_parse(s: Seq<char>) -> Option<Self> {
        if s == "F"@ || s == "fluorescent"@ || s == "Fluorescent"@ {
            Some(Fluorescence::Fluorescent)
        } else if s == "SF"@ || s == "semi-fluorescent"@ || s == "SemiFluorescent"@ {
            Some(Fluorescence::SemiFluorescent)
        } else if s == "SNF"@ || s == "semi-non-fluorescent"@ || s == "SemiNonFluorescent"@ {
            Some(Fluorescence::SemiNonFluorescent)
        } else if s == "NF"@ || s == "non-fluorescent"@ || s == "NonFluorescent"@ {
            Some(Fluorescence::NonFluorescent)
        } else {
            None
        }
    }

    open spec fn spec_property_type() -> PropertyType {
        PropertyType::Fluorescence
    }

    fn name(&self) -> (r: &'static str) {
        Self::NAME
    }

    fn prompt(&self) -> (r: &'static str) {
        proof {
            reveal_strlit("Fluorescence:");
            reveal_strlit("Fluorescence");
            reveal_strlit(":");
        }
        assert(Self::PROMPT@ =~= Self::spec_name() + ":"@);
        Self::PROMPT
    }

    fn list_header(&self) -> (r: &'static str) {
        proof {
            reveal_strlit("Fl.");
            reveal_strlit("Fluorescence");
            reveal_strlit(".");
        }
        assert(Self::LIST_HEADER@ =~= spec_abbreviate(Self::spec_name(), 2));
        Self::LIST_HEADER
    }

    fn str_values() -> (r: Vec<&'static str>) {
        let mut r: Vec<&'static str> = Vec::new();
        r.push("fluorescent");
        r.push("semi-fluorescent");
        r.push("semi-non-fluorescent");
        r.push("non-fluorescent");
        r
    }

    fn abbrev_value(&self) -> (r: &'static str) {
        match self {
            Fluorescence::Fluorescent => "F",
            Fluorescence::SemiFluorescent => "SF",
            Fluorescence::SemiNonFluorescent => "SNF",
            Fluorescence::NonFluorescent => "NF",
        }
    }

    fn value(&self) -> (r: &'static str) {
        match self {
            Fluorescence::Fluorescent => "fluorescent",
            Fluorescence::SemiFluorescent => "semi-fluorescent",
            Fluorescence::SemiNonFluorescent => "semi-non-fluorescent",
            Fluorescence::NonFluorescent => "non-fluorescent",
        }
    }

    fn parse(s: &str) -> (r: Result<Self, String>) {
        if str_eq(s, "F") || str_eq(s, "fluorescent") || str_eq(s, "Fluorescent") {
            Ok(Fluorescence::Fluorescent)
        } else if str_eq(s, "SF") || str_eq(s, "semi-fluorescent") || str_eq(s, "SemiFluorescent") {
            Ok(Fluorescence::SemiFluorescent)
        } else if str_eq(s, "SNF") || str_eq(s, "semi-non-fluorescent") || str_eq(s, "SemiNonFluorescent") {
            Ok(Fluorescence::SemiNonFluorescent)
        } else if str_eq(s, "NF") || str_eq(s, "non-fluorescent") || str_eq(s, "NonFluorescent") {
            Ok(Fluorescence::NonFluorescent)
        } else {
            let head = concat2("'", s);
            let msg = concat2(head.as_str(), "': Malformed 'Fluorescence' value string");
            proof {
                reveal_strlit("': Malformed '");
                reveal_strlit("Fluorescence");
                reveal_strlit("' value string");
                reveal_strlit("': Malformed 'Fluorescence' value string");
                assert(malformed_message(s@, Self::spec_name()) =~= "'"@ + s@ + "': Malformed 'Fluorescence' value string"@);
            }
            Err(msg)
        }
    }

    fn from_u64(n: u64) -> (r: Self) {
        if n == 1 {
            Fluorescence::Fluorescent
        } else if n == 2 {
            Fluorescence::SemiFluorescent
        } else if n == 3 {
            Fluorescence::SemiNonFluorescent
        } else {
            Fluorescence::NonFluorescent
        }
    }

    fn to_u64(&self) -> (r: u64) {
        match self {
            Fluorescence::Fluorescent => 1,
            Fluorescence::SemiFluorescent => 2,
            Fluorescence::SemiNonFluorescent => 3,
            Fluorescence::NonFluorescent => 4,
        }
    }

    fn property_type_of() -> (r: PropertyType) {
        PropertyType::Fluorescence
    }

    proof fn lemma_index(self) {
    }

    proof fn lemma_from_index(n: u64) {
    }

    proof fn lemma_parse_value(self) {
        reveal_strlit("F");
        reveal_strlit("fluorescent");
        reveal_strlit("Fluorescent");
        reveal_strlit("SF");
        reveal_strlit("semi-fluorescent");
        reveal_strlit("SemiFluorescent");
        reveal_strlit("SNF");
        reveal_strlit("semi-non-fluorescent");
        reveal_strlit("SemiNonFluorescent");
        reveal_strlit("NF");
        reveal_strlit("non-fluorescent");
        reveal_strlit("NonFluorescent");
        match self {
            Fluorescence::Fluorescent => {
                assert("fluorescent"@.len() == 11);
                assert("F"@.len() == 1);
            },
            Fluorescence::SemiFluorescent => {
                assert("semi-fluorescent"@.len() == 16);
                assert("F"@.len() == 1);
                assert("fluorescent"@.len() == 11);
                assert("Fluorescent"@.len() == 11);
                assert("SF"@.len() == 2);
            },
            Fluorescence::SemiNonFluorescent => {
                assert("semi-non-fluorescent"@.len() == 20);
                assert("F"@.len() == 1);
                assert("fluorescent"@.len() == 11);
                assert("Fluorescent"@.len() == 11);
                assert("SF"@.len() == 2);
                assert("semi-fluorescent"@.len() == 16);
                assert("SemiFluorescent"@.len() == 15);
                assert("SNF"@.len() == 3);
            },
            Fluorescence::NonFluorescent => {
                assert("non-fluorescent"@.len() == 15);
                assert("F"@.len() == 1);
                assert("fluorescent"@.len() == 11);
                assert("Fluorescent"@.len() == 11);
                assert("SF"@.len() == 2);
                assert("semi-fluorescent"@.len() == 16);
                assert("SemiFluorescent"@[0] == 'S');
                assert("SNF"@.len() == 3);
                assert("semi-non-fluorescent"@.len() == 20);
                assert("SemiNonFluorescent"@.len() == 18);
                assert("NF"@.len() == 2);
            },
        }
    }

    proof fn lemma_parse_abbrev_value(self) {
        reveal_strlit("F");
        reveal_strlit("fluorescent");
        reveal_strlit("Fluorescent");
        reveal_strlit("SF");
        reveal_strlit("semi-fluorescent");
        reveal_strlit("SemiFluorescent");
        reveal_strlit("SNF");
        reveal_strlit("semi-non-fluorescent");
        reveal_strlit("SemiNonFluorescent");
        reveal_strlit("NF");
        reveal_strlit("non-fluorescent");
        reveal_strlit("NonFluorescent");
        match self {
            Fluorescence::Fluorescent => {
                assert("F"@.len() == 1);
            },
            Fluorescence::SemiFluorescent => {
                assert("SF"@.len() == 2);
                assert("F"@.len() == 1);
                assert("fluorescent"@.len() == 11);
                assert("Fluorescent"@.len() == 11);
            },
            Fluorescence::SemiNonFluorescent => {
                assert("SNF"@.len() == 3);
                assert("F"@.len() == 1);
                assert("fluorescent"@.len() == 11);
                assert("Fluorescent"@.len() == 11);
                assert("SF"@.len() == 2);
                assert("semi-fluorescent"@.len() == 16);
                assert("SemiFluorescent"@.len() == 15);
            },
            Fluorescence::NonFluorescent => {
                assert("NF"@.len() == 2);
                assert("F"@.len() == 1);
                assert("fluorescent"@.len() == 11);
                assert("Fluorescent"@.len() == 11);
                assert("SF"@[0] == 'S');
                assert("semi-fluorescent"@.len() == 16);
                assert("SemiFluorescent"@.len() == 15);
                assert("SNF"@.len() == 3);
                assert("semi-non-fluorescent"@.len() == 20);
                assert("SemiNonFluorescent"@.len() == 18);
            },
        }
    }
}

impl Default for Fluorescence {
    fn default() -> (r: Self)
        ensures
            r == Fluorescence::NonFluorescent,
    {
        Fluorescence::NonFluorescent
    }
}

impl PropertyIfce for Fluorescence {
}

impl std::str::FromStr for Fluorescence {
    type Err = String;

    fn from_str(s: &str) -> (r: Result<Self, String>)
        ensures
            match r {
                Ok(v) => Self::spec_parse(s@) == Some(v),
                Err(e) => Self::spec_parse(s@) is None && e@ == malformed_message(
                    s@,
                    Self::spec_name(),
                ),
            },
    {
        <Fluorescence as PropertyFns>::parse(s)
    }
}

/// The grade's position on the scale, counted from one.
impl From<Fluorescence> for u64 {
    fn from(grade: Fluorescence) -> (r: u64) {
        grade.to_u64()
    }
}

impl vstd::std_specs::convert::FromSpecImpl<Fluorescence> for u64 {
    open spec fn obeys_from_spec() -> bool {
        true
    }

    open spec fn from_spec(grade: Fluorescence) -> u64 {
        grade.spec_index()
    }
}

#[derive(Debug, PartialEq, Eq, Structural, Clone, Copy, PartialOrd, Ord, Hash)]
pub enum Metallicness {
    Metal,
    Metallic,
    SemiMetallic,
    NonMetallic,
}

pub const METALLICNESS_VARIANT_STRS: [&'static str; 1] = ["metal, metallic, semi-metallic, non-metallic, "];

impl PropertyConsts for Metallicness {
    const NAME: &'static str = "Metallicness";
    const PROMPT: &'static str = "Metallicness:";
    const LIST_HEADER: &'static str = "Me.";
    const VARIANT_STRS: [&'static str; 1] = METALLICNESS_VARIANT_STRS;
    const ABBREV_VARIANT_STRS: [&'static str; 1] = METALLICNESS_VARIANT_STRS;
}

impl PropertyFns for Metallicness {
    open spec fn spec_count() -> u64 {
        4
    }

    open spec fn spec_index(self) -> u64 {
        match self {
            Metallicness::Metal => 1,
            Metallicness::Metallic => 2,
            Metallicness::SemiMetallic => 3,
            Metallicness::NonMetallic => 4,
        }
    }

    open spec fn spec_from_index(n: u64) -> Self {
        if n == 1 {
            Metallicness::Metal
        } else if n == 2 {
            Metallicness::Metallic
        } else if n == 3 {
            Metallicness::SemiMetallic
        } else {
            Metallicness::NonMetallic
        }
    }

    open spec fn spec_name() -> Seq<char> {
        "Metallicness"@
    }

    open spec fn spec_value(self) -> Seq<char> {
        match self {
            Metallicness::Metal => "metal"@,
            Metallicness::Metallic => "metallic"@,
            Metallicness::SemiMetallic => "semi-metallic"@,
            Metallicness::NonMetallic => "non-metallic"@,
        }
    }

    open spec fn spec_abbrev_value(self) -> Seq<char> {
        match self {
            Metallicness::Metal => "M"@,
            Metallicness::Metallic => "M"@,
            Metallicness::SemiMetallic => "SM"@,
            Metallicness::NonMetallic => "NM"@,
        }
    }

    open spec fn spec_parse(s: Seq<char>) -> Option<Self> {
        if s == "M"@ || s == "metal"@ || s == "Metal"@ {
            Some(Metallicness::Metal)
        } else if s == "M"@ || s == "metallic"@ || s == "Metallic"@ {
            Some(Metallicness::Metallic)
        } else if s == "SM"@ || s == "semi-metallic"@ || s == "SemiMetallic"@ {
            Some(Metallicness::SemiMetallic)
        } else if s == "NM"@ || s == "non-metallic"@ || s == "NonMetallic"@ {
            Some(Metallicness::NonMetallic)
        } else {
            None
        }
    }

    open spec fn spec_property_type() -> PropertyType {
        PropertyType::Metallicness
    }

    fn name(&self) -> (r: &'static str) {
        Self::NAME
    }

    fn prompt(&self) -> (r: &'static str) {
        proof {
            reveal_strlit("Metallicness:");
            reveal_strlit("Metallicness");
            reveal_strlit(":");
        }
        assert(Self::PROMPT@ =~= Self::spec_name() + ":"@);
        Self::PROMPT
    }

    fn list_header(&self) -> (r: &'static str) {
        proof {
            reveal_strlit("Me.");
            reveal_strlit("Metallicness");
            reveal_strlit(".");
        }
        assert(Self::LIST_HEADER@ =~= spec_abbreviate(Self::spec_name(), 2));
        Self::LIST_HEADER
    }

    fn str_values() -> (r: Vec<&'static str>) {
        let mut r: Vec<&'static str> = Vec::new();
        r.push("metal");
        r.push("metallic");
        r.push("semi-metallic");
        r.push("non-metallic");
        r
    }

    fn abbrev_value(&self) -> (r: &'static str) {
        match self {
            Metallicness::Metal => "M",
            Metallicness::Metallic => "M",
            Metallicness::SemiMetallic => "SM",
            Metallicness::NonMetallic => "NM",
        }
    }

    fn value(&self) -> (r: &'static str) {
        match self {
            Metallicness::Metal => "metal",
            Metallicness::Metallic => "metallic",
            Metallicness::SemiMetallic => "semi-metallic",
            Metallicness::NonMetallic => "non-metallic",
        }
    }

    fn parse(s: &str) -> (r: Result<Self, String>) {
        if str_eq(s, "M") || str_eq(s, "metal") || str_eq(s, "Metal") {
            Ok(Metallicness::Metal)
        } else if str_eq(s, "M") || str_eq(s, "metallic") || str_eq(s, "Metallic") {
            Ok(Metallicness::Metallic)
        } else if str_eq(s, "SM") || str_eq(s, "semi-metallic") || str_eq(s, "SemiMetallic") {
            Ok(Metallicness::SemiMetallic)
        } else if str_eq(s, "NM") || str_eq(s, "non-metallic") || str_eq(s, "NonMetallic") {
            Ok(Metallicness::NonMetallic)
        } else {
            let head = concat2("'", s);
            let msg = concat2(head.as_str(), "': Malformed 'Metallicness' value string");
            proof {
                reveal_strlit("': Malformed '");
                reveal_strlit("Metallicness");
                reveal_strlit("' value string");
                reveal_strlit("': Malformed 'Metallicness' value string");
                assert(malformed_message(s@, Self::spec_name()) =~= "'"@ + s@ + "': Malformed 'Metallicness' value string"@);
            }
            Err(msg)
        }
    }

    fn from_u64(n: u64) -> (r: Self) {
        if n == 1 {
            Metallicness::Metal
        } else if n == 2 {
            Metallicness::Metallic
        } else if n == 3 {
            Metallicness::SemiMetallic
        } else {
            Metallicness::NonMetallic
        }
    }

    fn to_u64(&self) -> (r: u64) {
        match self {
            Metallicness::Metal => 1,
            Metallicness::Metallic => 2,
            Metallicness::SemiMetallic => 3,
            Metallicness::NonMetallic => 4,
        }
    }

    fn property_type_of() -> (r: PropertyType) {
        PropertyType::Metallicness
    }

    proof fn lemma_index(self) {
    }

    proof fn lemma_from_index(n: u64) {
    }

    proof fn lemma_parse_value(self) {
        reveal_strlit("M");
        reveal_strlit("metal");
        reveal_strlit("Metal");
        reveal_strlit("metallic");
        reveal_strlit("Metallic");
        reveal_strlit("SM");
        reveal_strlit("semi-metallic");
        reveal_strlit("SemiMetallic");
        reveal_strlit("NM");
        reveal_strlit("non-metallic");
        reveal_strlit("NonMetallic");
        match self {
            Metallicness::Metal => {
                assert("metal"@.len() == 5);
                assert("M"@.len() == 1);
            },
            Metallicness::Metallic => {
                assert("metallic"@.len() == 8);
                assert("M"@.len() == 1);
                assert("metal"@.len() == 5);
                assert("Metal"@.len() == 5);
                assert("M"@.len() == 1);
            },
            Metallicness::SemiMetallic => {
                assert("semi-metallic"@.len() == 13);
                assert("M"@.len() == 1);
                assert("metal"@.len() == 5);
                assert("Metal"@.len() == 5);
                assert("M"@.len() == 1);
                assert("metallic"@.len() == 8);
                assert("Metallic"@.len() == 8);
                assert("SM"@.len() == 2);
            },
            Metallicness::NonMetallic => {
                assert("non-metallic"@.len() == 12);
                assert("M"@.len() == 1);
                assert("metal"@.len() == 5);
                assert("Metal"@.len() == 5);
                assert("M"@.len() == 1);
                assert("metallic"@.len() == 8);
                assert("Metallic"@.len() == 8);
                assert("SM"@.len() == 2);
                assert("semi-metallic"@.len() == 13);
                assert("SemiMetallic"@[0] == 'S');
                assert("NM"@.len() == 2);
            },
        }
    }

    proof fn lemma_parse_abbrev_value(self) {
        reveal_strlit("M");
        reveal_strlit("metal");
        reveal_strlit("Metal");
        reveal_strlit("metallic");
        reveal_strlit("Metallic");
        reveal_strlit("SM");
        reveal_strlit("semi-metallic");
        reveal_strlit("SemiMetallic");
        reveal_strlit("NM");
        reveal_strlit("non-metallic");
        reveal_strlit("NonMetallic");
        match self {
            Metallicness::Metal => {
                assert("M"@.len() == 1);
            },
            Metallicness::Metallic => {
                assert("M"@.len() == 1);
            },
            Metallicness::SemiMetallic => {
                assert("SM"@.len() == 2);
                assert("M"@.len() == 1);
                assert("metal"@.len() == 5);
                assert("Metal"@.len() == 5);
                assert("M"@.len() == 1);
                assert("metallic"@.len() == 8);
                assert("Metallic"@.len() == 8);
            },
            Metallicness::NonMetallic => {
                assert("NM"@.len() == 2);
                assert("M"@.len() == 1);
                assert("metal"@.len() == 5);
                assert("Metal"@.len() == 5);
                assert("M"@.len() == 1);
                assert("metallic"@.len() == 8);
                assert("Metallic"@.len() == 8);
                assert("SM"@[0] == 'S');
                assert("semi-metallic"@.len() == 13);
                assert("SemiMetallic"@.len() == 12);
            },
        }
    }
}

impl Default for Metallicness {
    fn default() -> (r: Self)
        ensures
            r == Metallicness::NonMetallic,
    {
        Metallicness::NonMetallic
    }
}

impl PropertyIfce for Metallicness {
}

impl std::str::FromStr for Metallicness {
    type Err = String;

    fn from_str(s: &str) -> (r: Result<Self, String>)
        ensures
            match r {
                Ok(v) => Self::spec_parse(s@) == Some(v),
                Err(e) => Self::spec_parse(s@) is None && e@ == malformed_message(
                    s@,
                    Self::spec_name(),
                ),
            },
    {
        <Metallicness as PropertyFns>::parse(s)
    }
}

/// The grade's position on the scale, counted from one.
impl From<Metallicness> for u64 {
    fn from(grade: Metallicness) -> (r: u64) {
        grade.to_u64()
    }
}

impl vstd::std_specs::convert::FromSpecImpl<Metallicness> for u64 {
    open spec fn obeys_from_spec() -> bool {
        true
    }

    open spec fn from_spec(grade: Metallicness) -> u64 {
        grade.spec_index()
    }
}

#[derive(Debug, PartialEq, Eq, Structural, Clone, Copy, PartialOrd, Ord, Hash)]
pub enum Granulation {
    Granulating,
    SomeGranulation,
    NonGranulating,
}

pub const GRANULATION_VARIANT_STRS: [&'static str; 1] = ["granulating, some-granulation, non-granulating, "];

impl PropertyConsts for Granulation {
    const NAME: &'static str = "Granulation";
    const PROMPT: &'static str = "Granulation:";
    const LIST_HEADER: &'static str = "Gr.";
    const VARIANT_STRS: [&'static str; 1] = GRANULATION_VARIANT_STRS;
    const ABBREV_VARIANT_STRS: [&'static str; 1] = GRANULATION_VARIANT_STRS;
}

impl PropertyFns for Granulation {
    open spec fn spec_count() -> u64 {
        3
    }

    open spec fn spec_index(self) -> u64 {
        match self {
            Granulation::Granulating => 1,
            Granulation::SomeGranulation => 2,
            Granulation::NonGranulating => 3,
        }
    }

    open spec fn spec_from_index(n: u64) -> Self {
        if n == 1 {
            Granulation::Granulating
        } else if n == 2 {
            Granulation::SomeGranulation
        } else {
            Granulation::NonGranulating
        }
    }

    open spec fn spec_name() -> Seq<char> {
        "Granulation"@
    }

    open spec fn spec_value(self) -> Seq<char> {
        match self {
            Granulation::Granulating => "granulating"@,
            Granulation::SomeGranulation => "some-granulation"@,
            Granulation::NonGranulating => "non-granulating"@,
        }
    }

    open spec fn spec_abbrev_value(self) -> Seq<char> {
        match self {
            Granulation::Granulating => "G"@,
            Granulation::SomeGranulation => "SG"@,
            Granulation::NonGranulating => "NG"@,
        }
    }

    open spec fn spec_parse(s: Seq<char>) -> Option<Self> {
        if s == "G"@ || s == "granulating"@ || s == "Granulating"@ {
            Some(Granulation::Granulating)
        } else if s == "SG"@ || s == "some-granulation"@ || s == "SomeGranulation"@ {
            Some(Granulation::SomeGranulation)
        } else if s == "NG"@ || s == "non-granulating"@ || s == "NonGranulating"@ {
            Some(Granulation::NonGranulating)
        } else {
            None
        }
    }

    open spec fn spec_property_type() -> PropertyType {
        PropertyType::Granulation
    }

    fn name(&self) -> (r: &'static str) {
        Self::NAME
    }

    fn prompt(&self) -> (r: &'static str) {
        proof {
            reveal_strlit("Granulation:");
            reveal_strlit("Granulation");
            reveal_strlit(":");
        }
        assert(Self::PROMPT@ =~= Self::spec_name() + ":"@);
        Self::PROMPT
    }

    fn list_header(&self) -> (r: &'static str) {
        proof {
            reveal_strlit("Gr.");
            reveal_strlit("Granulation");
            reveal_strlit(".");
        }
        assert(Self::LIST_HEADER@ =~= spec_abbreviate(Self::spec_name(), 2));
        Self::LIST_HEADER
    }

    fn str_values() -> (r: Vec<&'static str>) {
        let mut r: Vec<&'static str> = Vec::new();
        r.push("granulating");
        r.push("some-granulation");
        r.push("non-granulating");
        r
    }

    fn abbrev_value(&self) -> (r: &'static str) {
        match self {
            Granulation::Granulating => "G",
            Granulation::SomeGranulation => "SG",
            Granulation::NonGranulating => "NG",
        }
    }

    fn value(&self) -> (r: &'static str) {
        match self {
            Granulation::Granulating => "granulating",
            Granulation::SomeGranulation => "some-granulation",
            Granulation::NonGranulating => "non-granulating",
        }
    }

    fn parse(s: &str) -> (r: Result<Self, String>) {
        if str_eq(s, "G") || str_eq(s, "granulating") || str_eq(s, "Granulating") {
            Ok(Granulation::Granulating)
        } else if str_eq(s, "SG") || str_eq(s, "some-granulation") || str_eq(s, "SomeGranulation") {
            Ok(Granulation::SomeGranulation)
        } else if str_eq(s, "NG") || str_eq(s, "non-granulating") || str_eq(s, "NonGranulating") {
            Ok(Granulation::NonGranulating)
        } else {
            let head = concat2("'", s);
            let msg = concat2(head.as_str(), "': Malformed 'Granulation' value string");
            proof {
                reveal_strlit("': Malformed '");
                reveal_strlit("Granulation");
                reveal_strlit("' value string");
                reveal_strlit("': Malformed 'Granulation' value string");
                assert(malformed_message(s@, Self::spec_name()) =~= "'"@ + s@ + "': Malformed 'Granulation' value string"@);
            }
            Err(msg)
        }
    }

    fn from_u64(n: u64) -> (r: Self) {
        if n == 1 {
            Granulation::Granulating
        } else if n == 2 {
            Granulation::SomeGranulation
        } else {
            Granulation::NonGranulating
        }
    }

    fn to_u64(&self) -> (r: u64) {
        match self {
            Granulation::Granulating => 1,
            Granulation::SomeGranulation => 2,
            Granulation::NonGranulating => 3,
        }
    }

    fn property_type_of() -> (r: PropertyType) {
        PropertyType::Granulation
    }

    proof fn lemma_index(self) {
    }

    proof fn lemma_from_index(n: u64) {
    }

    proof fn lemma_parse_value(self) {
        reveal_strlit("G");
        reveal_strlit("granulating");
        reveal_strlit("Granulating");
        reveal_strlit("SG");
        reveal_strlit("some-granulation");
        reveal_strlit("SomeGranulation");
        reveal_strlit("NG");
        reveal_strlit("non-granulating");
        reveal_strlit("NonGranulating");
        match self {
            Granulation::Granulating => {
                assert("granulating"@.len() == 11);
                assert("G"@.len() == 1);
            },
            Granulation::SomeGranulation => {
                assert("some-granulation"@.len() == 16);
                assert("G"@.len() == 1);
                assert("granulating"@.len() == 11);
                assert("Granulating"@.len() == 11);
                assert("SG"@.len() == 2);
            },
            Granulation::NonGranulating => {
                assert("non-granulating"@.len() == 15);
                assert("G"@.len() == 1);
                assert("granulating"@.len() == 11);
                assert("Granulating"@.len() == 11);
                assert("SG"@.len() == 2);
                assert("some-granulation"@.len() == 16);
                assert("SomeGranulation"@[0] == 'S');
                assert("NG"@.len() == 2);
            },
        }
    }

    proof fn lemma_parse_abbrev_value(self) {
        reveal_strlit("G");
        reveal_strlit("granulating");
        reveal_strlit("Granulating");
        reveal_strlit("SG");
        reveal_strlit("some-granulation");
        reveal_strlit("SomeGranulation");
        reveal_strlit("NG");
        reveal_strlit("non-granulating");
        reveal_strlit("NonGranulating");
        match self {
            Granulation::Granulating => {
                assert("G"@.len() == 1);
            },
            Granulation::SomeGranulation => {
                assert("SG"@.len() == 2);
                assert("G"@.len() == 1);
                assert("granulating"@.len() == 11);
                assert("Granulating"@.len() == 11);
            },
            Granulation::NonGranulating => {
                assert("NG"@.len() == 2);
                assert("G"@.len() == 1);
                assert("granulating"@.len() == 11);
                assert("Granulating"@.len() == 11);
                assert("SG"@[0] == 'S');
                assert("some-granulation"@.len() == 16);
                assert("SomeGranulation"@.len() == 15);
            },
        }
    }
}

impl Default for Granulation {
    fn default() -> (r: Self)
        ensures
            r == Granulation::NonGranulating,
    {
        Granulation::NonGranulating
    }
}

impl PropertyIfce for Granulation {
}

impl std::str::FromStr for Granulation {
    type Err = String;

    fn from_str(s: &str) -> (r: Result<Self, String>)
        ensures
            match r {
                Ok(v) => Self::spec_parse(s@) == Some(v),
                Err(e) => Self::spec_parse(s@) is None && e@ == malformed_message(
                    s@,
                    Self::spec_name(),
                ),
            },
    {
        <Granulation as PropertyFns>::parse(s)
    }
}

/// The grade's position on the scale, counted from one.
impl From<Granulation> for u64 {
    fn from(grade: Granulation) -> (r: u64) {
        grade.to_u64()
    }
}

impl vstd::std_specs::convert::FromSpecImpl<Granulation> for u64 {
    open spec fn obeys_from_spec() -> bool {
        true
    }

    open spec fn from_spec(grade: Granulation) -> u64 {
        grade.spec_index()
    }
}

#[derive(Debug, PartialEq, Eq, Structural, Clone, Copy, PartialOrd, Ord, Hash)]
pub enum Luminescence {
    Luminescent,
    SemiLuminescent,
    NonLuminescent,
}

pub const LUMINESCENCE_VARIANT_STRS: [&'static str; 1] = ["luminescent, semi-luminescent, none, "];

impl PropertyConsts for Luminescence {
    const NAME: &'static str = "Luminescence";
    const PROMPT: &'static str = "Luminescence:";
    const LIST_HEADER: &'static str = "Lu.";
    const VARIANT_STRS: [&'static str; 1] = LUMINESCENCE_VARIANT_STRS;
    const ABBREV_VARIANT_STRS: [&'static str; 1] = LUMINESCENCE_VARIANT_STRS;
}

impl PropertyFns for Luminescence {
    open spec fn spec_count() -> u64 {
        3
    }

    open spec fn spec_index(self) -> u64 {
        match self {
            Luminescence::Luminescent => 1,
            Luminescence::SemiLuminescent => 2,
            Luminescence::NonLuminescent => 3,
        }
    }

    open spec fn spec_from_index(n: u64) -> Self {
        if n == 1 {
            Luminescence::Luminescent
        } else if n == 2 {
            Luminescence::SemiLuminescent
        } else {
            Luminescence::NonLuminescent
        }
    }

    open spec fn spec_name() -> Seq<char> {
        "Luminescence"@
    }

    open spec fn spec_value(self) -> Seq<char> {
        match self {
            Luminescence::Luminescent => "luminescent"@,
            Luminescence::SemiLuminescent => "semi-luminescent"@,
            Luminescence::NonLuminescent => "none"@,
        }
    }

    open spec fn spec_abbrev_value(self) -> Seq<char> {
        match self {
            Luminescence::Luminescent => "L"@,
            Luminescence::SemiLuminescent => "SL"@,
            Luminescence::NonLuminescent => "N"@,
        }
    }

    open spec fn spec_parse(s: Seq<char>) -> Option<Self> {
        if s == "L"@ || s == "luminescent"@ || s == "Luminescent"@ {
            Some(Luminescence::Luminescent)
        } else if s == "SL"@ || s == "semi-luminescent"@ || s == "SemiLuminescent"@ {
            Some(Luminescence::SemiLuminescent)
        } else if s == "N"@ || s == "none"@ || s == "None"@ {
            Some(Luminescence::NonLuminescent)
        } else {
            None
        }
    }

    open spec fn spec_property_type() -> PropertyType {
        PropertyType::Luminescence
    }

    fn name(&self) -> (r: &'static str) {
        Self::NAME
    }

    fn prompt(&self) -> (r: &'static str) {
        proof {
            reveal_strlit("Luminescence:");
            reveal_strlit("Luminescence");
            reveal_strlit(":");
        }
        assert(Self::PROMPT@ =~= Self::spec_name() + ":"@);
        Self::PROMPT
    }

    fn list_header(&self) -> (r: &'static str) {
        proof {
            reveal_strlit("Lu.");
            reveal_strlit("Luminescence");
            reveal_strlit(".");
        }
        assert(Self::LIST_HEADER@ =~= spec_abbreviate(Self::spec_name(), 2));
        Self::LIST_HEADER
    }

    fn str_values() -> (r: Vec<&'static str>) {
        let mut r: Vec<&'static str> = Vec::new();
        r.push("luminescent");
        r.push("semi-luminescent");
        r.push("none");
        r
    }

    fn abbrev_value(&self) -> (r: &'static str) {
        match self {
            Luminescence::Luminescent => "L",
            Luminescence::SemiLuminescent => "SL",
            Luminescence::NonLuminescent => "N",
        }
    }

    fn value(&self) -> (r: &'static str) {
        match self {
            Luminescence::Luminescent => "luminescent",
            Luminescence::SemiLuminescent => "semi-luminescent",
            Luminescence::NonLuminescent => "none",
        }
    }

    fn parse(s: &str) -> (r: Result<Self, String>) {
        if str_eq(s, "L") || str_eq(s, "luminescent") || str_eq(s, "Luminescent") {
            Ok(Luminescence::Luminescent)
        } else if str_eq(s, "SL") || str_eq(s, "semi-luminescent") || str_eq(s, "SemiLuminescent") {
            Ok(Luminescence::SemiLuminescent)
        } else if str_eq(s, "N") || str_eq(s, "none") || str_eq(s, "None") {
            Ok(Luminescence::NonLuminescent)
        } else {
            let head = concat2("'", s);
            let msg = concat2(head.as_str(), "': Malformed 'Luminescence' value string");
            proof {
                reveal_strlit("': Malformed '");
                reveal_strlit("Luminescence");
                reveal_strlit("' value string");
                reveal_strlit("': Malformed 'Luminescence' value string");
                assert(malformed_message(s@, Self::spec_name()) =~= "'"@ + s@ + "': Malformed 'Luminescence' value string"@);
            }
            Err(msg)
        }
    }

    fn from_u64(n: u64) -> (r: Self) {
        if n == 1 {
            Luminescence::Luminescent
        } else if n == 2 {
            Luminescence::SemiLuminescent
        } else {
            Luminescence::NonLuminescent
        }
    }

    fn to_u64(&self) -> (r: u64) {
        match self {
            Luminescence::Luminescent => 1,
            Luminescence::SemiLuminescent => 2,
            Luminescence::NonLuminescent => 3,
        }
    }

    fn property_type_of() -> (r: PropertyType) {
        PropertyType::Luminescence
    }

    proof fn lemma_index(self) {
    }

    proof fn lemma_from_index(n: u64) {
    }

    proof fn lemma_parse_value(self) {
        reveal_strlit("L");
        reveal_strlit("luminescent");
        reveal_strlit("Luminescent");
        reveal_strlit("SL");
        reveal_strlit("semi-luminescent");
        reveal_strlit("SemiLuminescent");
        reveal_strlit("N");
        reveal_strlit("none");
        reveal_strlit("None");
        match self {
            Luminescence::Luminescent => {
                assert("luminescent"@.len() == 11);
                assert("L"@.len() == 1);
            },
            Luminescence::SemiLuminescent => {
                assert("semi-luminescent"@.len() == 16);
                assert("L"@.len() == 1);
                assert("luminescent"@.len() == 11);
                assert("Luminescent"@.len() == 11);
                assert("SL"@.len() == 2);
            },
            Luminescence::NonLuminescent => {
                assert("none"@.len() == 4);
                assert("L"@.len() == 1);
                assert("luminescent"@.len() == 11);
                assert("Luminescent"@.len() == 11);
                assert("SL"@.len() == 2);
                assert("semi-luminescent"@.len() == 16);
                assert("SemiLuminescent"@.len() == 15);
                assert("N"@.len() == 1);
            },
        }
    }

    proof fn lemma_parse_abbrev_value(self) {
        reveal_strlit("L");
        reveal_strlit("luminescent");
        reveal_strlit("Luminescent");
        reveal_strlit("SL");
        reveal_strlit("semi-luminescent");
        reveal_strlit("SemiLuminescent");
        reveal_strlit("N");
        reveal_strlit("none");
        reveal_strlit("None");
        match self {
            Luminescence::Luminescent => {
                assert("L"@.len() == 1);
            },
            Luminescence::SemiLuminescent => {
                assert("SL"@.len() == 2);
                assert("L"@.len() == 1);
                assert("luminescent"@.len() == 11);
                assert("Luminescent"@.len() == 11);
            },
            Luminescence::NonLuminescent => {
                assert("N"@.len() == 1);
                assert("L"@[0] == 'L');
                assert("luminescent"@.len() == 11);
                assert("Luminescent"@.len() == 11);
                assert("SL"@.len() == 2);
                assert("semi-luminescent"@.len() == 16);
                assert("SemiLuminescent"@.len() == 15);
            },
        }
    }
}

impl Default for Luminescence {
    fn default() -> (r: Self)
        ensures
            r == Luminescence::NonLuminescent,
    {
        Luminescence::NonLuminescent
    }
}

impl PropertyIfce for Luminescence {
}

impl std::str::FromStr for Luminescence {
    type Err = String;

    fn from_str(s: &str) -> (r: Result<Self, String>)
        ensures
            match r {
                Ok(v) => Self::spec_parse(s@) == Some(v),
                Err(e) => Self::spec_parse(s@) is None && e@ == malformed_message(
                    s@,
                    Self::spec_name(),
                ),
            },
    {
        <Luminescence as PropertyFns>::parse(s)
    }
}

/// The grade's position on the scale, counted from one.
impl From<Luminescence> for u64 {
    fn from(grade: Luminescence) -> (r: u64) {
        grade.to_u64()
    }
}

impl vstd::std_specs::convert::FromSpecImpl<Luminescence> for u64 {
    open spec fn obeys_from_spec() -> bool {
        true
    }

    open spec fn from_spec(grade: Luminescence) -> u64 {
        grade.spec_index()
    }
}


} // verus!
