use time_tracking::layout::{bounding_rect, fit_band, hits, warning_lines, LayoutRects, Rect, MAX_WARNING_ROWS};

#[test]
fn a_none_rect_is_never_hit() {
    assert!(!hits(None, 0, 0));
}

#[test]
fn hits_are_inclusive_of_the_origin_and_exclusive_of_the_far_edge() {
    let r = Some(Rect::new(2, 3, 4, 5));
    assert!(hits(r, 2, 3), "origin");
    assert!(hits(r, 5, 7), "last cell");
    assert!(!hits(r, 6, 7), "one past the right edge");
    assert!(!hits(r, 5, 8), "one past the bottom edge");
    assert!(!hits(r, 1, 3), "one before the left edge");
}

#[test]
fn clear_forgets_every_region() {
    let mut rects = LayoutRects {
        calendar: Some(Rect::new(0, 0, 1, 1)),
        ..LayoutRects::default()
    };
    rects.clear();
    assert_eq!(rects, LayoutRects::default());
}

#[test]
fn a_rect_at_the_far_corner_saturates() {
    let r = Some(Rect::new(u16::MAX - 1, 0, 10, 1));
    assert!(hits(r, u16::MAX - 1, 0));
    assert!(!hits(r, u16::MAX, 0));
}

#[test]
fn a_band_that_fits_keeps_every_row_it_asked_for() {
    assert_eq!(fit_band(4, 20, 4), 4);
}

#[test]
fn a_band_yields_the_rows_the_list_needs() {
    assert_eq!(fit_band(30, 12, 4), 8);
}

#[test]
fn an_area_smaller_than_the_floor_leaves_the_band_nothing() {
    assert_eq!(fit_band(9, 3, 4), 0);
}

#[test]
fn a_clean_file_costs_no_rows() {
    assert!(warning_lines(&[], "").is_empty());
}

#[test]
fn a_flood_is_capped_and_counted() {
    let warnings: Vec<String> = (0..12).map(|i| format!("bad entry {i}")).collect();
    let lines = warning_lines(&warnings, "  ");
    assert_eq!(lines.len(), MAX_WARNING_ROWS);
    assert_eq!(lines[0], "Warnings (12)");
    assert_eq!(lines[1], "  bad entry 0");
    assert_eq!(lines[MAX_WARNING_ROWS - 1], "  … and 9 more");
}

#[test]
fn a_file_that_fits_the_budget_lists_every_warning() {
    let warnings: Vec<String> = (0..MAX_WARNING_ROWS - 1).map(|i| format!("bad entry {i}")).collect();
    let lines = warning_lines(&warnings, "");
    assert_eq!(lines.len(), MAX_WARNING_ROWS);
    assert!(!format!("{lines:?}").contains("more"));
}

#[test]
fn the_bounding_rect_spans_every_chunk() {
    let chunks = [Rect::new(0, 0, 24, 12), Rect::new(24, 0, 56, 12)];
    assert_eq!(bounding_rect(&chunks), Some(Rect::new(0, 0, 80, 12)));

    let scattered = [Rect::new(10, 5, 4, 4), Rect::new(2, 8, 3, 10), Rect::new(6, 1, 1, 1)];
    assert_eq!(bounding_rect(&scattered), Some(Rect::new(2, 1, 12, 17)));
}

#[test]
fn no_chunks_have_no_bounding_rect() {
    assert_eq!(bounding_rect(&[]), None);
}
