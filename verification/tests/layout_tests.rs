//! Tests of the layout policy: measurements, requested sizes and the
//! regions the split primitive hands back.

use dashboard::Region;
use dashboard::layout::avatar_dims;
use dashboard::layout::avatar_region;
use dashboard::layout::footer_region;
use dashboard::layout::header_bands;
use dashboard::layout::subtitle_target_width;
use dashboard::layout::table_region;
use dashboard::layout::table_region_height;
use dashboard::layout::title_slot;
use dashboard::layout::title_target_width;
use dashboard::TableItem;
use dashboard::measure::split_lines;
use dashboard::measure::table_intrinsic_size;

#[test]
fn table_height_is_rows_plus_border() {
    assert_eq!(table_region_height(0), 2);
    assert_eq!(table_region_height(1), 3);
    assert_eq!(table_region_height(2), 4);
    assert_eq!(table_region_height(5), 7);
}

#[test]
fn table_height_saturates_at_grid_limit() {
    assert_eq!(table_region_height(usize::MAX), u16::MAX);
    assert_eq!(table_region_height(u16::MAX as usize), u16::MAX);
    assert_eq!(table_region_height(u16::MAX as usize - 2), u16::MAX);
}

#[test]
fn empty_table_still_gets_border_region() {
    let area = Region::new(0, 0, 100, 100);
    let region = table_region(area, 0);
    assert_eq!(region.height, 2);
}

#[test]
fn table_region_height_follows_row_count() {
    let area = Region::new(0, 0, 100, 100);
    let region = table_region(area, 2);
    assert_eq!(region.height, 4);
}

#[test]
fn header_slot_widths_follow_character_counts() {
    assert_eq!(title_target_width("OK"), 8);
    assert_eq!(title_target_width(""), 0);
    assert_eq!(subtitle_target_width("v1"), 2);
    assert_eq!(subtitle_target_width(""), 0);
}

#[test]
fn title_slot_is_centered_in_its_band() {
    let band = Region::new(0, 0, 80, 3);
    let slot = title_slot(band, "OK");
    assert_eq!(slot.width, 8);
    assert_eq!(slot.x, 36);
    assert_eq!(slot.height, 3);
}

#[test]
fn header_bands_keep_the_viewport_width() {
    let area = Region::new(0, 0, 100, 100);
    let (title_band, subtitle_band) = header_bands(area);
    assert_eq!(title_band.x, 0);
    assert_eq!(title_band.width, 100);
    assert_eq!(subtitle_band.x, 0);
    assert_eq!(subtitle_band.width, 100);
    assert!(title_band.y >= 1);
    assert!(subtitle_band.y >= title_band.y + title_band.height);
    assert!(title_band.height > 0);
}

#[test]
fn avatar_dims_take_the_widest_line_and_line_count() {
    assert_eq!(avatar_dims("aaaaa\nbbbbbbbb"), (8, 2));
}

#[test]
fn avatar_dims_of_empty_text_are_zero() {
    assert_eq!(avatar_dims(""), (0, 0));
}

#[test]
fn avatar_dims_use_display_width_not_char_count() {
    let (w, h) = avatar_dims("\u{65e5}\u{672c}");
    assert_eq!(w, 4);
    assert_eq!(h, 1);
}

#[test]
fn avatar_region_matches_bounding_box() {
    let area = Region::new(0, 0, 100, 100);
    let region = avatar_region(area, 8, 2);
    assert_eq!(region.width, 8);
    assert_eq!(region.height, 2);
    assert_eq!(region.x, 8);
    assert_eq!(region.y, 20);
}

#[test]
fn footer_band_sits_at_the_bottom() {
    let area = Region::new(0, 0, 100, 100);
    let band = footer_region(area);
    assert_eq!(band.x, 0);
    assert_eq!(band.width, 100);
    assert!(band.y > 50);
    assert!(band.height < 10);
    assert!(band.y + band.height <= 100);
}

#[test]
fn table_intrinsic_size_takes_widest_row_plus_pad() {
    let rows = vec![
        TableItem::new(("start".to_string(), "s".to_string())),
        TableItem::new(("quit".to_string(), "q".to_string())),
    ];
    assert_eq!(table_intrinsic_size(&rows), (8, 2));
    let none: Vec<TableItem> = Vec::new();
    assert_eq!(table_intrinsic_size(&none), (0, 0));
}

#[test]
fn split_lines_follows_line_break_rules() {
    let lines = split_lines("a\n\nbb");
    assert_eq!(lines, vec!["a".to_string(), "".to_string(), "bb".to_string()]);
    let lines = split_lines("ab\r\ncd");
    assert_eq!(lines, vec!["ab".to_string(), "cd".to_string()]);
    let lines = split_lines("ab\ncdef\n");
    assert_eq!(lines, vec!["ab".to_string(), "cdef".to_string()]);
    let lines = split_lines("");
    assert!(lines.is_empty());
}
