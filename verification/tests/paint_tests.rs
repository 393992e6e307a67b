use std::cmp::Ordering;

use epaint::paint::{CollnPaint, Paint, SeriesId};
use epaint::properties::{Properties, Property, PropertyType};
use epaint::{LabelText, TooltipText};

/// A colour as red, green and blue proportions.
type Rgb = (f64, f64, f64);

const MAGENTA: Rgb = (1.0, 0.0, 1.0);
const RED_MAGENTA: Rgb = (1.0, 0.0, 0.5);

fn transparency(value: u64) -> Properties {
    Properties(vec![Property::from((PropertyType::Transparency, value))])
}

#[test]
fn test_paint_from() {
    let series_id = SeriesId {
        name: "name".to_string(),
        proprietor: "Proprieter".to_string(),
    };
    let target_paint = CollnPaint {
        key: "Magenta::name:(Proprieter)".to_string(),
        paint: Paint {
            colour: MAGENTA,
            name: "Magenta".to_string(),
            notes: "".to_string(),
            properties: transparency(1),
        },
        series_id: series_id.clone(),
    };
    let paint = Paint {
        colour: MAGENTA,
        name: "Magenta".to_string(),
        notes: String::new(),
        properties: transparency(1),
    };
    let colln_paint: CollnPaint<Rgb> = CollnPaint::from((&paint, &series_id));
    assert_eq!(colln_paint, target_paint);
}

#[test]
fn test_paint_to_from() {
    let paint = Paint {
        colour: RED_MAGENTA,
        name: "Red Magenta".to_string(),
        notes: "".to_string(),
        properties: transparency(2),
    };
    let series_id = SeriesId {
        name: "DS".to_string(),
        proprietor: "WC".to_string(),
    };
    let colln_paint: CollnPaint<Rgb> = CollnPaint::from((&paint, &series_id));
    assert_eq!(colln_paint.colour(), RED_MAGENTA);
    assert_eq!(colln_paint.name(), "Red Magenta");
    assert_eq!(colln_paint.notes(), "");
    assert_eq!(colln_paint.series_id, series_id);
    assert_eq!(colln_paint.paint.properties, transparency(2));
    for (target, actual) in paint.properties.iter().iter().zip(colln_paint.properties()) {
        assert_eq!(*target, actual);
    }
    let recovered_paint_spec: Paint<Rgb> = colln_paint.into_paint();
    assert_eq!(recovered_paint_spec, paint);
}

#[test]
fn paint_texts() {
    let paint = Paint {
        colour: MAGENTA,
        name: "Quinacridone Magenta".to_string(),
        notes: "PR122".to_string(),
        properties: transparency(3),
    };
    assert_eq!(paint.key(), "Quinacridone Magenta");
    assert_eq!(paint.tooltip_text(), "Quinacridone Magenta\nPR122\n");
    let series_id = SeriesId { name: "Cotman".to_string(), proprietor: "W&N".to_string() };
    let colln_paint = CollnPaint::from((&paint, &series_id));
    assert_eq!(colln_paint.key(), "Quinacridone Magenta::Cotman:(W&N)");
    assert_eq!(colln_paint.tooltip_text(), "\nQuinacridone Magenta\nPR122\nCotman\nW&N");
    assert_eq!(colln_paint.label_text(), "Quinacridone Magenta:Cotman:(W&N)");
    assert_eq!(colln_paint.duplicate(), colln_paint);
}

#[test]
fn paints_compare_by_key() {
    let a = Paint { colour: MAGENTA, name: "x".to_string(), notes: "one".to_string(), properties: transparency(1) };
    let b = Paint { colour: RED_MAGENTA, name: "x".to_string(), notes: "two".to_string(), properties: transparency(2) };
    let c = Paint { colour: MAGENTA, name: "y".to_string(), notes: "one".to_string(), properties: transparency(1) };
    assert_eq!(a, b);
    assert_ne!(a, c);
    assert_eq!(a.partial_cmp(&b), Some(Ordering::Equal));
    assert_eq!(a.partial_cmp(&c), Some(Ordering::Less));
    assert_eq!(c.partial_cmp(&a), Some(Ordering::Greater));
    assert!(a < c);
    assert!(a <= b);
    assert!(!(c <= a));
}

#[test]
fn colln_paints_compare_by_key_first() {
    let first = SeriesId { name: "a".to_string(), proprietor: "z".to_string() };
    let second = SeriesId { name: "b".to_string(), proprietor: "a".to_string() };
    let x = Paint { colour: MAGENTA, name: "x".to_string(), notes: "".to_string(), properties: transparency(1) };
    let y = Paint { colour: MAGENTA, name: "y".to_string(), notes: "".to_string(), properties: transparency(1) };
    let xa = CollnPaint::from((&x, &first));
    let xb = CollnPaint::from((&x, &second));
    let ya = CollnPaint::from((&y, &first));
    assert!(xa < xb);
    assert!(xb < ya);
    assert_eq!(xa.partial_cmp(&xa.clone()), Some(Ordering::Equal));
    let mut odd = xa.clone();
    odd.series_id = second.clone();
    assert_eq!(xa.partial_cmp(&odd), Some(Ordering::Greater));
}
