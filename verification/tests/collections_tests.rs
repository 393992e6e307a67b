use epaint::paint::{CollnPaint, Paint, SeriesId};
use epaint::properties::{Properties, Property, PropertyType};
use epaint::range::PaintRange;
use epaint::series::PaintSeries;
use epaint::{Error, PaintRangeId};

type Rgb = (f64, f64, f64);

fn paint(name: &str, colour: Rgb, notes: &str) -> Paint<Rgb> {
    Paint {
        colour,
        name: name.to_string(),
        notes: notes.to_string(),
        properties: Properties(vec![Property::from((PropertyType::Transparency, 1))]),
    }
}

fn names(range: &PaintRange<Rgb>) -> Vec<String> {
    range.paints().iter().map(|p| p.name.clone()).collect()
}

#[test]
fn range_keeps_paints_sorted_by_key() {
    let mut range = PaintRange::default();
    range.set_proprietor("owner");
    range.set_range_name("range name");
    assert!(range.range_paints().is_empty());
    assert!(range.add(&paint("yellow", (1.0, 1.0, 0.0), "whatever")).is_none());
    assert!(range.add(&paint("red", (1.0, 0.0, 0.0), "whatever")).is_none());
    assert!(range.add(&paint("orange", (1.0, 0.5, 0.0), "")).is_none());
    assert_eq!(names(&range), vec!["orange", "red", "yellow"]);
    assert!(range.is_sorted_unique());
    assert_eq!(range.range_id(), &PaintRangeId { proprietor: "owner".to_string(), name: "range name".to_string() });
}

#[test]
fn range_add_replaces_and_returns_the_old_paint() {
    let mut range = PaintRange::new(&PaintRangeId { proprietor: "p".to_string(), name: "n".to_string() });
    range.add(&paint("red", (1.0, 0.0, 0.0), "first"));
    let old = range.add(&paint("red", (0.9, 0.0, 0.0), "second")).expect("replaced");
    assert_eq!(old.notes, "first");
    assert_eq!(range.paint_list.len(), 1);
    assert_eq!(range.get_paint("red").unwrap().notes, "second");
}

#[test]
fn range_remove() {
    let mut range = PaintRange::new(&PaintRangeId { proprietor: "p".to_string(), name: "n".to_string() });
    range.add(&paint("red", (1.0, 0.0, 0.0), ""));
    range.add(&paint("blue", (0.0, 0.0, 1.0), ""));
    let before = names(&range);
    range.add(&paint("green", (0.0, 1.0, 0.0), ""));
    let removed = range.remove("green").unwrap();
    assert_eq!(removed.name, "green");
    assert_eq!(names(&range), before);
    match range.remove("green") {
        Err(Error::NotFound(key)) => assert_eq!(key, "green"),
        other => panic!("unexpected {:?}", other),
    }
    assert_eq!(Error::NotFound("green".to_string()).to_string(), "green: Not found.");
    range.remove_all();
    assert!(range.paints().is_empty());
}

#[test]
fn range_paints_by_either_key() {
    let mut range = PaintRange::new(&PaintRangeId { proprietor: "DS".to_string(), name: "Watercolour".to_string() });
    range.add(&paint("red", (1.0, 0.0, 0.0), ""));
    let by_paint_key = range.get_range_paint("red").unwrap();
    assert_eq!(by_paint_key.key, "red::Watercolour:(DS)");
    let by_colln_key = range.get_range_paint("red::Watercolour:(DS)").unwrap();
    assert_eq!(by_colln_key, by_paint_key);
    assert!(range.get_range_paint("red::Gouache:(DS)").is_none());
    assert!(range.get_range_paint("blue::Watercolour:(DS)").is_none());
    assert!(range.get_paint("blue").is_none());
    let all = range.range_paints();
    assert_eq!(all.len(), 1);
    assert_eq!(all[0], by_paint_key);
}

#[test]
fn series_keeps_paints_sorted_by_key() {
    let mut series = PaintSeries::default();
    series.set_proprietor("owner");
    series.set_series_name("series name");
    assert!(series.colln_paints().is_empty());
    series.add(&paint("yellow", (1.0, 1.0, 0.0), "whatever"));
    series.add(&paint("red", (1.0, 0.0, 0.0), "whatever"));
    assert!(series.is_sorted_unique());
    let found = series.find_colln_paint("red").unwrap();
    assert_eq!(found.key(), "red::series name:(owner)");
    assert_eq!(series.colln_paints()[1].name(), "yellow");
    assert!(series.find_colln_paint("blue").is_none());
    assert_eq!(series.remove("red").unwrap().name, "red");
    assert_eq!(series.paint_list.len(), 1);
    assert_eq!(series.series_id(), &SeriesId { proprietor: "owner".to_string(), name: "series name".to_string() });
    let colln: CollnPaint<Rgb> = series.colln_paints().remove(0);
    assert_eq!(colln.paint.name, "yellow");
}

#[test]
fn unsorted_lists_are_detected() {
    let range = PaintRange {
        range_id: PaintRangeId::default(),
        paint_list: vec![paint("b", (0.0, 0.0, 0.0), ""), paint("a", (0.0, 0.0, 0.0), "")],
    };
    assert!(!range.is_sorted_unique());
    let range = PaintRange {
        range_id: PaintRangeId::default(),
        paint_list: vec![paint("a", (0.0, 0.0, 0.0), ""), paint("a", (0.0, 0.0, 0.0), "")],
    };
    assert!(!range.is_sorted_unique());
}

#[test]
fn error_messages() {
    let id = PaintRangeId { proprietor: "DS".to_string(), name: "Watercolour".to_string() };
    assert_eq!(Error::UnknownSeries(id.clone()).to_string(), "Watercolour:(DS): unknown paint range");
    assert_eq!(Error::UnknownPaint(id, "red".to_string()).to_string(), "red:(Watercolour:(DS)): unknown paint");
    assert_eq!(Error::NotAValidLegacySpec.to_string(), "Not a valid specification.");
    assert_eq!(Error::NotImplemented.to_string(), "Feature not yet implemented.");
}

#[test]
fn collections_compare_by_identifier_and_paint_keys() {
    let id = PaintRangeId { proprietor: "owner".to_string(), name: "range name".to_string() };
    let mut a: PaintRange<Rgb> = PaintRange::new(&id);
    let mut b: PaintRange<Rgb> = PaintRange::new(&id);
    a.add(&paint("red", (1.0, 0.0, 0.0), "one"));
    b.add(&paint("red", (0.9, 0.0, 0.0), "two"));
    assert_eq!(a, b);
    b.add(&paint("blue", (0.0, 0.0, 1.0), ""));
    assert_ne!(a, b);
    let mut s: PaintSeries<Rgb> = PaintSeries::new(&id);
    let t: PaintSeries<Rgb> = PaintSeries::new(&id);
    assert_eq!(s, t);
    s.set_series_name("other");
    assert_ne!(s, t);
}
