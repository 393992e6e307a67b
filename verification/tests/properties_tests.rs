use std::str::FromStr;

use epaint::properties::{
    str_values, Finish, Lightfastness, Luminescence, Metallicness, Opacity, Properties, Property,
    PropertyConsts, PropertyFns, PropertyMixer, PropertyType, PropertyTypes, Transparency,
};

#[test]
fn test_property_type() {
    assert_eq!(
        PropertyType::Transparency,
        PropertyType::from_str("Transparency").unwrap()
    );
    assert_eq!(
        PropertyType::Lightfastness,
        PropertyType::from_str("Lightfastness").unwrap()
    )
}

#[test]
fn test_property_type_real() {
    assert_eq!(
        PropertyType::Transparency.value((1.0f64).round() as u64),
        Transparency::Clear.value()
    );
    assert_eq!(
        PropertyType::Lightfastness.value((1.0f64).round() as u64),
        Lightfastness::ExcellentLightfastness.value()
    );
}

#[test]
fn test_split() {
    let mut split = "Transparency::Transparent".split("::");
    assert_eq!(split.next().unwrap(), "Transparency");
    assert_eq!(split.next().unwrap(), "Transparent");
}

#[test]
fn test_property_from_string() {
    assert_eq!(
        Property::from_str("Lightfastness::ExcellentLightfastness"),
        Ok(Property {
            property_type: PropertyType::Lightfastness,
            value: 1
        })
    );
    assert_eq!(
        Property::from_str("Lightfastness::VeryGoodLightfastness"),
        Ok(Property {
            property_type: PropertyType::Lightfastness,
            value: 2
        })
    )
}

#[test]
fn test_property_default() {
    assert_eq!(Transparency::default(), Transparency::Transparent);
    assert_eq!(
        Lightfastness::default(),
        Lightfastness::VeryGoodLightfastness
    );
}

#[test]
fn paint_transparency_property() {
    assert_eq!(Transparency::NAME, "Transparency");
    assert_eq!(Transparency::PROMPT, "Transparency:");
    assert_eq!(Transparency::Transparent.abbrev_value(), "T");
    for a in ["O", "SO", "ST", "C"].iter() {
        assert_eq!(Transparency::from_str(a).unwrap().abbrev_value(), *a);
    }
    for a in ["opaque", "semi-opaque", "semi-transparent", "clear"]
        .iter()
        .cloned()
    {
        assert_eq!(Transparency::from_str(a).unwrap().value(), a);
    }
}

#[test]
fn defaults() {
    assert_eq!(Transparency::default(), Transparency::Transparent);
}

#[test]
fn property_names_prompts_and_headers() {
    assert_eq!(Transparency::Opaque.name(), "Transparency");
    assert_eq!(Transparency::Opaque.prompt(), "Transparency:");
    assert_eq!(Transparency::Opaque.list_header(), "Tr.");
    assert_eq!(Metallicness::Metal.list_header(), "Me.");
    assert_eq!(PropertyType::Granulation.name(), "Granulation");
    assert_eq!(PropertyType::Granulation.prompt(), "Granulation:");
    assert_eq!(PropertyType::Granulation.list_header(), "Granulation:");
    assert_eq!(Transparency::VARIANT_STRS, ["clear, transparent, semi-transparent, semi-opaque, opaque, "]);
    assert_eq!(Finish::ABBREV_VARIANT_STRS, ["gloss, semi-gloss, semi-flat, flat, "]);
}

#[test]
fn grades_are_numbered_from_one() {
    assert_eq!(Transparency::Clear.to_u64(), 1);
    assert_eq!(Transparency::Opaque.to_u64(), 5);
    assert_eq!(Opacity::from_u64(1), Opacity::Opaque);
    assert_eq!(Opacity::from_u64(5), Opacity::Clear);
    for n in 1..=5u64 {
        assert_eq!(Transparency::from_u64(n).to_u64(), n);
    }
    assert_eq!(
        Lightfastness::Fugitive.into_property(),
        Property { property_type: PropertyType::Lightfastness, value: 4 }
    );
}

#[test]
fn str_values_list_every_grade() {
    assert_eq!(
        str_values(&PropertyType::Transparency),
        vec!["clear", "transparent", "semi-transparent", "semi-opaque", "opaque"]
    );
    assert_eq!(
        str_values(&PropertyType::Luminescence),
        vec!["luminescent", "semi-luminescent", "none"]
    );
    assert_eq!(Finish::str_values(), vec!["gloss", "semi-gloss", "semi-flat", "flat"]);
}

#[test]
fn abbreviations_and_names_are_read() {
    assert_eq!(Luminescence::from_str("N"), Ok(Luminescence::NonLuminescent));
    assert_eq!(Luminescence::from_str("None"), Ok(Luminescence::NonLuminescent));
    assert_eq!(Luminescence::from_str("none"), Ok(Luminescence::NonLuminescent));
    assert_eq!(Metallicness::from_str("M"), Ok(Metallicness::Metal));
    assert_eq!(Metallicness::Metallic.abbrev_value(), "M");
    assert_eq!(Metallicness::from_str("metallic"), Ok(Metallicness::Metallic));
    assert_eq!(Lightfastness::from_str("VGL"), Ok(Lightfastness::VeryGoodLightfastness));
}

#[test]
fn malformed_grades_are_reported() {
    assert_eq!(
        Transparency::from_str("cloudy"),
        Err("'cloudy': Malformed 'Transparency' value string".to_string())
    );
    assert_eq!(
        PropertyType::from_str("Shininess"),
        Err("Unknown property type: Shininess".to_string())
    );
    assert_eq!(
        Property::from_str("Finish::shiny"),
        Err("'shiny': Malformed 'Finish' value string".to_string())
    );
}

#[test]
fn property_string_without_grade_takes_the_default() {
    assert_eq!(
        Property::from_str("Staining"),
        Ok(Property { property_type: PropertyType::Staining, value: 2 })
    );
    assert_eq!(
        Property::from_str("Finish"),
        Ok(Property { property_type: PropertyType::Finish, value: 1 })
    );
}

#[test]
fn property_defaults() {
    assert_eq!(PropertyType::Transparency.default_u64(), 2);
    assert_eq!(PropertyType::Opacity.default_u64(), 1);
    assert_eq!(PropertyType::Luminescence.default_str(), "none");
    assert_eq!(
        PropertyType::Fluorescence.default_property(),
        Property { property_type: PropertyType::Fluorescence, value: 4 }
    );
}

#[test]
fn property_values() {
    let p = Property { property_type: PropertyType::Permanence, value: 3 };
    assert_eq!(p.value(), "moderately-durable");
    assert_eq!(p.abbrev_value(), "MD");
    assert_eq!(p.name(), "Permanence");
    assert_eq!(p.prompt(), "Permanence:");
    assert_eq!(Property::from_type_and_str(PropertyType::Finish, "SF").value, 3);
    assert_eq!(Property::from((PropertyType::Finish, 2u64)).value, 2);
    assert_eq!(Transparency::try_from_property(&p), Err("Incompatible property type"));
    let q = Property { property_type: PropertyType::Transparency, value: 4 };
    assert_eq!(Transparency::try_from_property(&q), Ok(Transparency::SemiOpaque));
}

#[test]
fn properties_compatibility() {
    let a = Properties::new(&[
        Property { property_type: PropertyType::Transparency, value: 1 },
        Property { property_type: PropertyType::Finish, value: 2 },
    ]);
    let b = [
        Property { property_type: PropertyType::Transparency, value: 3 },
        Property { property_type: PropertyType::Finish, value: 4 },
    ];
    let c = [Property { property_type: PropertyType::Finish, value: 4 }];
    assert!(a.is_compatible(&b));
    assert!(a.is_compatible(&a.properties()));
    assert!(!a.is_compatible(&c));
    assert_eq!(a.property_types(), vec![PropertyType::Transparency, PropertyType::Finish]);
    let types = PropertyTypes::from_properties(&a);
    assert_eq!(types.len(), 2);
    let defaults = Properties::from_property_types(&types);
    assert!(defaults.is_compatible(&b));
    assert_eq!(defaults.iter()[0].value, 2);
    let mut d = a.clone();
    d.update(&b);
    assert_eq!(d, a);
}

#[test]
fn property_mixer_takes_the_rounded_weighted_mean() {
    let mut mixer = PropertyMixer::new(PropertyType::Transparency);
    mixer.add(&Property { property_type: PropertyType::Transparency, value: 1 }, 1);
    mixer.add(&Property { property_type: PropertyType::Transparency, value: 2 }, 1);
    // (1 + 2) / 2 = 1.5 rounds up to 2
    assert_eq!(mixer.mixed_property().value, 2);
    mixer.add(&Property { property_type: PropertyType::Transparency, value: 1 }, 2);
    // (1 + 2 + 2) / 4 = 1.25 rounds down to 1
    assert_eq!(mixer.mixed_property().value, 1);
    assert_eq!(mixer.sum, 5);
    assert_eq!(mixer.total_parts, 4);
}

#[test]
fn properties_order_by_grade() {
    let clear = Property::from((PropertyType::Transparency, 1));
    let opaque = Property::from((PropertyType::Transparency, 5));
    assert!(clear < opaque);
    assert_eq!(opaque.partial_cmp(&clear), Some(std::cmp::Ordering::Greater));
    assert_eq!(clear.partial_cmp(&clear), Some(std::cmp::Ordering::Equal));
}

#[test]
fn grades_convert_to_their_positions() {
    assert_eq!(u64::from(Transparency::Clear), 1);
    assert_eq!(u64::from(Transparency::SemiTransparent), 3);
    let n: u64 = Lightfastness::Fugitive.into();
    assert_eq!(n, 4);
    assert_eq!(u64::from(Luminescence::default()), 3);
}
