use epaint::PaintRangeId;

#[test]
fn test_reg_ex() {
    let paint_range_id: PaintRangeId =
        PaintRangeId::from_str("Red Magenta:(Daniel Smith)").expect("valid series_id");
    assert_eq!(paint_range_id.proprietor, "Daniel Smith");
    assert_eq!(paint_range_id.name, "Red Magenta");
}

#[test]
fn range_id_written_form_reads_back() {
    let id = PaintRangeId { proprietor: "Winsor & Newton".to_string(), name: "Cotman".to_string() };
    let written = id.to_string();
    assert_eq!(written, "Cotman:(Winsor & Newton)");
    assert_eq!(PaintRangeId::from_str(&written), Ok(id));
}

#[test]
fn range_id_leftmost_form_is_taken() {
    let id = PaintRangeId::from_str("red::Cotman:(W&N)").unwrap();
    assert_eq!(id.name, "Cotman");
    assert_eq!(id.proprietor, "W&N");
    let id = PaintRangeId::from_str("a:b:(c)").unwrap();
    assert_eq!(id.name, "b");
    assert_eq!(id.proprietor, "c");
    let id = PaintRangeId::from_str("x (y):(z) trailing").unwrap();
    assert_eq!(id.name, "x (y)");
    assert_eq!(id.proprietor, "z");
}

#[test]
fn range_id_rejects_other_text() {
    assert_eq!(PaintRangeId::from_str("no proprietor"), Err("no proprietor".to_string()));
    assert_eq!(PaintRangeId::from_str("name:()"), Err("name:()".to_string()));
    assert_eq!(PaintRangeId::from_str(":(p)"), Err(":(p)".to_string()));
    assert_eq!(PaintRangeId::from_str("name:(p"), Err("name:(p".to_string()));
}
