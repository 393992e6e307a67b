use epaint::mixtures::{MixingSession, MixtureBuilder};
use epaint::paint::{Paint, RangePaint};
use epaint::properties::{Properties, Property, PropertyType};
use epaint::range::PaintRange;
use epaint::{LabelText, PaintRangeId, TooltipText};

type Rgb = (f64, f64, f64);

fn range() -> PaintRange<Rgb> {
    let mut range = PaintRange::new(&PaintRangeId { proprietor: "owner".to_string(), name: "range name".to_string() });
    range.add(&Paint {
        colour: (1.0, 0.0, 0.0),
        name: "red".to_string(),
        notes: "whatever".to_string(),
        properties: Properties(vec![
            Property { property_type: PropertyType::Transparency, value: 1 },
            Property { property_type: PropertyType::Finish, value: 2 },
        ]),
    });
    range.add(&Paint {
        colour: (1.0, 1.0, 0.0),
        name: "yellow".to_string(),
        notes: "whatever".to_string(),
        properties: Properties(vec![
            Property { property_type: PropertyType::Transparency, value: 2 },
            Property { property_type: PropertyType::Finish, value: 2 },
        ]),
    });
    range
}

fn parts(red: &RangePaint<Rgb>, yellow: &RangePaint<Rgb>, r: u64, y: u64) -> Vec<(RangePaint<Rgb>, u64)> {
    vec![(red.clone(), r), (yellow.clone(), y)]
}

#[test]
fn mixture_parts_come_in_lowest_terms() {
    let range = range();
    let red = range.get_range_paint("red").unwrap();
    let yellow = range.get_range_paint("yellow").unwrap();
    let mut builder = MixtureBuilder::new("#001");
    builder.paint_components(parts(&red, &yellow, 4, 6)).name("orange");
    assert_eq!(builder.adjusted_parts(), vec![2, 3]);
    let mixture = builder.build((1.0, 0.6, 0.0));
    assert_eq!(mixture.id(), "#001");
    assert_eq!(mixture.name(), "orange");
    assert_eq!(mixture.components().len(), 2);
    assert_eq!(mixture.components()[0].1, 2);
    assert_eq!(mixture.components()[1].1, 3);
    assert_eq!(mixture.components()[1].0.key, "yellow::range name:(owner)");
    // Transparency: (1 * 2 + 2 * 3) / 5 = 1.6, which rounds to 2; Finish stays 2.
    assert_eq!(
        mixture.iter_properties(),
        vec![
            Property { property_type: PropertyType::Transparency, value: 2 },
            Property { property_type: PropertyType::Finish, value: 2 },
        ]
    );
    assert_eq!(mixture.colour, (1.0, 0.6, 0.0));
}

#[test]
fn mixture_texts() {
    let range = range();
    let red = range.get_range_paint("red").unwrap();
    let yellow = range.get_range_paint("yellow").unwrap();
    let mixture = MixtureBuilder::new("#002")
        .paint_component((yellow.clone(), 1))
        .paint_component((red.clone(), 2))
        .name("reddish_orange")
        .build((1.0, 0.3, 0.0));
    assert_eq!(mixture.label_text(), "Mix #002: reddish_orange");
    assert_eq!(mixture.tooltip_text(), "Mix #002: reddish_orange");
    let noted = MixtureBuilder::new("#003")
        .paint_component((red.clone(), 1))
        .notes("for skies")
        .id("#004")
        .build((1.0, 0.0, 0.0));
    assert_eq!(noted.id(), "#004");
    assert_eq!(noted.tooltip_text(), "Mix #004: \nfor skies");
}

#[test]
fn session_keeps_mixtures_by_id() {
    let range = range();
    let red = range.get_range_paint("red").unwrap();
    let yellow = range.get_range_paint("yellow").unwrap();
    let mut session: MixingSession<Rgb> = MixingSession::new();
    session.set_notes("a test mixing session");
    assert_eq!(session.notes(), "a test mixing session");
    let second = MixtureBuilder::new("#002").paint_component((red.clone(), 2)).name("red").build((1.0, 0.0, 0.0));
    let first = MixtureBuilder::new("#001")
        .paint_components(parts(&red, &yellow, 1, 1))
        .name("orange")
        .build((1.0, 0.5, 0.0));
    assert!(session.add_mixture(second).is_none());
    assert!(session.add_mixture(first).is_none());
    let ids: Vec<&str> = session.mixtures().iter().map(|m| m.id()).collect();
    assert_eq!(ids, vec!["#001", "#002"]);
    assert!(session.is_sorted_unique());
    assert_eq!(session.mixture("#002").unwrap().name(), "red");
    assert!(session.mixture("#003").is_none());
    let replacement = MixtureBuilder::new("#002").paint_component((yellow.clone(), 1)).name("yellow").build((1.0, 1.0, 0.0));
    assert_eq!(session.add_mixture(replacement).unwrap().name(), "red");
    assert_eq!(session.mixture("#002").unwrap().name(), "yellow");
    let used = session.series_paints();
    let keys: Vec<&str> = used.iter().map(|p| p.key()).collect();
    assert_eq!(keys, vec!["red::range name:(owner)", "yellow::range name:(owner)"]);
}

#[test]
fn builder_checks_what_it_can_mix() {
    let range = range();
    let red = range.get_range_paint("red").unwrap();
    let yellow = range.get_range_paint("yellow").unwrap();
    let mut builder: MixtureBuilder<Rgb> = MixtureBuilder::new("#005");
    assert!(!builder.can_build());
    builder.paint_components(parts(&red, &yellow, 4, 6));
    assert!(builder.can_build());
    assert_eq!(builder.colour_inputs(), vec![((1.0, 0.0, 0.0), 2), ((1.0, 1.0, 0.0), 3)]);
    builder.paint_component((red.clone(), 0));
    assert!(!builder.can_build());
    let mut odd = yellow.clone();
    odd.paint.properties = Properties(vec![Property { property_type: PropertyType::Finish, value: 2 }]);
    let mut mismatched: MixtureBuilder<Rgb> = MixtureBuilder::new("#006");
    mismatched.paint_component((red.clone(), 1)).paint_component((odd, 1));
    assert!(!mismatched.can_build());
    let mut invalid = yellow.clone();
    invalid.paint.properties = Properties(vec![
        Property { property_type: PropertyType::Transparency, value: 9 },
        Property { property_type: PropertyType::Finish, value: 2 },
    ]);
    let mut ungraded: MixtureBuilder<Rgb> = MixtureBuilder::new("#007");
    ungraded.paint_component((invalid, 1));
    assert!(!ungraded.can_build());
    let mut huge: MixtureBuilder<Rgb> = MixtureBuilder::new("#008");
    huge.paint_components(parts(&red, &yellow, u64::MAX, 1));
    assert!(!huge.can_build());
}
