use epaint::properties::{
    Finish, Lightfastness, PropertyConsts, PropertyFns, PropertyType, Transparency,
};
use epaint::digest::text_digest;
use epaint::text::{abbreviate, acronym};

#[test]
fn acronym_keeps_upper_case_letters() {
    assert_eq!(acronym("SemiTransparent"), "ST");
    assert_eq!(acronym("ExcellentLightfastness"), "EL");
    assert_eq!(acronym("Clear"), "C");
    assert_eq!(acronym("clear"), "");
    assert_eq!(acronym(""), "");
    assert_eq!(acronym("aBcD1E"), "BDE");
}

#[test]
fn acronym_beyond_ascii() {
    assert_eq!(acronym("ÉtéÅ"), "ÉÅ");
}

#[test]
fn abbreviate_takes_a_prefix_and_a_stop() {
    assert_eq!(abbreviate("Transparency", 2), "Tr.");
    assert_eq!(abbreviate("Transparency", 0), ".");
    assert_eq!(abbreviate("A", 2), "A.");
    assert_eq!(abbreviate("", 3), ".");
    assert_eq!(abbreviate("Lightfastness", 13), "Lightfastness.");
}

#[test]
fn grade_abbreviations_are_acronyms() {
    assert_eq!(Transparency::SemiTransparent.abbrev_value(), acronym("SemiTransparent"));
    assert_eq!(Transparency::Clear.abbrev_value(), acronym("Clear"));
    assert_eq!(
        Lightfastness::ExcellentLightfastness.abbrev_value(),
        acronym("ExcellentLightfastness")
    );
}

#[test]
fn list_headers_abbreviate_names() {
    assert_eq!(Transparency::Clear.list_header(), abbreviate(Transparency::NAME, 2));
    assert_eq!(Finish::default().list_header(), abbreviate(Finish::NAME, 2));
    assert_eq!(PropertyType::Finish.name(), Finish::NAME);
}

#[test]
fn text_digest_is_sha256() {
    let expected: Vec<u8> =
        b"\xfd\x1a\xfb`\"\xcdMG\xc8\x90\x96\x1cS9(\xea\xcf\xe8!\x9f\x1b%$\xf7\xfb*a\x84}\xdf\x8c'"
            .to_vec();
    assert_eq!(text_digest("crypto-hash"), expected);
    assert_eq!(text_digest("").len(), 32);
    assert_ne!(text_digest("a"), text_digest("b"));
}
