//! The layout policy: how each panel's region is derived from the viewport
//! and from the content's measurements.
//!
//! Every ratio, margin and content-driven size that the compositor hands to
//! the split primitive is decided here, in verified code; the split
//! primitive itself only solves the constraints it is given.

use vstd::prelude::*;
use crate::backend::layout_centered;
use crate::backend::layout_centered_spec;
use crate::backend::layout_pair;
use crate::backend::layout_pair_spec;
use crate::geometry::Region;
use crate::measure::max_line_width;
use crate::measure::measure_lines;
use crate::measure::split_lines;
use crate::measure::split_lines_spec;

verus! {

/// Share of the viewport's height reserved for the big title band.
pub const TITLE_BAND_PCT: u16 = 10;

/// Share of the viewport's height reserved for the subtitle band.
pub const SUBTITLE_BAND_PCT: u16 = 5;

/// One-cell margin applied above and below the header bands as a unit.
pub const HEADER_MARGIN: u16 = 1;

/// Columns reserved per title character for the enlarged glyphs.
pub const TITLE_CELLS_PER_CHAR: u16 = 4;

/// Share of the viewport's width skipped to the left of the table.
pub const TABLE_SKIP_PCT: u16 = 36;

/// Share of the viewport's width used as the table's working column.
pub const TABLE_COLUMN_PCT: u16 = 57;

/// Horizontal inset, in cells, applied to the table's working column.
pub const TABLE_INSET: u16 = 3;

/// Share of the working column's height skipped above the table.
pub const TABLE_TOP_PCT: u16 = 20;

/// Rows added to the table's height for its top and bottom border.
pub const TABLE_BORDER_ROWS: u16 = 2;

/// Share of the table's width given to the label column.
pub const LABEL_COLUMN_PCT: u16 = 95;

/// Share of the table's width given to the value column.
pub const VALUE_COLUMN_PCT: u16 = 5;

/// Share of the viewport's width skipped to the left of the avatar.
pub const AVATAR_SKIP_PCT: u16 = 8;

/// Share of the viewport's height skipped above the avatar.
pub const AVATAR_TOP_PCT: u16 = 20;

/// Share of the viewport's height above the footer band.
pub const FOOTER_SKIP_PCT: u16 = 95;

/// Share of the viewport's height given to the footer band.
pub const FOOTER_BAND_PCT: u16 = 5;

/// One-cell margin applied above and below the footer split as a unit.
pub const FOOTER_MARGIN: u16 = 1;

/// A size clamped to what a grid coordinate can hold.
pub open spec fn clamp_u16(n: int) -> u16 {
    if n > u16::MAX as int {
        u16::MAX
    } else if n < 0 {
        0
    } else {
        n as u16
    }
}

/// Clamps a measured size to what a grid coordinate can hold.
pub fn clamp_width(n: usize) -> (r: u16)
    ensures
        r == clamp_u16(n as int),
{
    if n > u16::MAX as usize {
        u16::MAX
    } else {
        n as u16
    }
}

/// The title band and the subtitle band, from the top of the viewport.
pub open spec fn spec_header_bands(area: Region) -> (Region, Region) {
    layout_pair_spec(area, true, HEADER_MARGIN, true, TITLE_BAND_PCT, true, SUBTITLE_BAND_PCT)
}

/// Splits the top of the viewport into the title band and the subtitle band.
pub fn header_bands(area: Region) -> (r: (Region, Region))
    ensures
        r == spec_header_bands(area),
        r.0.inside(area) || r.0.is_zero_size(),
        r.1.inside(area) || r.1.is_zero_size(),
        2 * HEADER_MARGIN <= area.height && area.is_valid() ==> r.0.width == area.width
            && r.1.width == area.width,
{
    layout_pair(area, true, HEADER_MARGIN, true, TITLE_BAND_PCT, true, SUBTITLE_BAND_PCT)
}

/// The width asked for the title: four columns per character.
pub open spec fn spec_title_width(title: Seq<char>) -> u16 {
    clamp_u16(TITLE_CELLS_PER_CHAR * title.len())
}

/// The width asked for the title's centered slot.
pub fn title_target_width(title: &str) -> (w: u16)
    ensures
        w == spec_title_width(title@),
{
    let n = title.unicode_len();
    if n > (u16::MAX / TITLE_CELLS_PER_CHAR) as usize {
        u16::MAX
    } else {
        (n as u16) * TITLE_CELLS_PER_CHAR
    }
}

/// The width asked for the subtitle: one column per character.
pub open spec fn spec_subtitle_width(subtitle: Seq<char>) -> u16 {
    clamp_u16(subtitle.len() as int)
}

/// The width asked for the subtitle's centered slot.
pub fn subtitle_target_width(subtitle: &str) -> (w: u16)
    ensures
        w == spec_subtitle_width(subtitle@),
{
    clamp_width(subtitle.unicode_len())
}

/// The title's centered slot within its band.
pub open spec fn spec_title_slot(band: Region, title: Seq<char>) -> Region {
    layout_centered_spec(band, spec_title_width(title))
}

/// Centers the title's slot within its band. When the title's four columns
/// per character fit the band, the slot is exactly that wide.
pub fn title_slot(band: Region, title: &str) -> (r: Region)
    ensures
        r == spec_title_slot(band, title@),
        r.inside(band),
        spec_title_width(title@) <= band.width && band.x + band.width <= u16::MAX
            ==> r.width == spec_title_width(title@),
{
    layout_centered(band, title_target_width(title))
}

/// The subtitle's centered slot within its band.
pub open spec fn spec_subtitle_slot(band: Region, subtitle: Seq<char>) -> Region {
    layout_centered_spec(band, spec_subtitle_width(subtitle))
}

/// Centers the subtitle's slot within its band. When one column per
/// subtitle character fits the band, the slot is exactly that wide.
pub fn subtitle_slot(band: Region, subtitle: &str) -> (r: Region)
    ensures
        r == spec_subtitle_slot(band, subtitle@),
        r.inside(band),
        spec_subtitle_width(subtitle@) <= band.width && band.x + band.width <= u16::MAX
            ==> r.width == spec_subtitle_width(subtitle@),
{
    layout_centered(band, subtitle_target_width(subtitle))
}

/// The height asked for the table's region: one row per table row, plus the
/// two border rows.
pub open spec fn spec_table_height(rows: nat) -> u16 {
    clamp_u16(rows + TABLE_BORDER_ROWS)
}

/// The height asked for the table's region.
pub fn table_region_height(rows: usize) -> (h: u16)
    ensures
        h == spec_table_height(rows as nat),
{
    if rows > (u16::MAX - TABLE_BORDER_ROWS) as usize {
        u16::MAX
    } else {
        rows as u16 + TABLE_BORDER_ROWS
    }
}

/// The table's working column: the viewport after the left skip, the column
/// share and the horizontal inset.
pub open spec fn spec_table_column(area: Region) -> Region {
    layout_pair_spec(area, false, TABLE_INSET, true, TABLE_SKIP_PCT, true, TABLE_COLUMN_PCT).1
}

/// The table's final region: the working column after the top skip, sized
/// to the rows plus border.
pub open spec fn spec_table_region(area: Region, rows: nat) -> Region {
    layout_pair_spec(
        spec_table_column(area),
        true,
        0,
        true,
        TABLE_TOP_PCT,
        false,
        spec_table_height(rows),
    ).1
}

/// Carves the table's region out of the viewport for the given row count.
/// When the viewport is valid, wide enough for the inset and tall enough
/// for the rows plus border, the region is exactly that tall.
pub fn table_region(area: Region, rows: usize) -> (r: Region)
    ensures
        r == spec_table_region(area, rows as nat),
        r.inside(area) || r.is_zero_size(),
        area.is_valid() && 2 * TABLE_INSET <= area.width && spec_table_height(rows as nat)
            <= area.height ==> r.height == spec_table_height(rows as nat),
{
    let col = layout_pair(area, false, TABLE_INSET, true, TABLE_SKIP_PCT, true, TABLE_COLUMN_PCT).1;
    layout_pair(col, true, 0, true, TABLE_TOP_PCT, false, table_region_height(rows)).1
}

/// The avatar's bounding box asked of the splitter, clamped to the grid.
pub open spec fn spec_avatar_size(avatar: Seq<char>) -> (u16, u16) {
    (
        clamp_u16(max_line_width(split_lines_spec(avatar)) as int),
        clamp_u16(split_lines_spec(avatar).len() as int),
    )
}

/// Measures the avatar text's bounding box: the widest line's display width
/// and the line count.
pub fn avatar_dims(avatar: &str) -> (d: (usize, usize))
    ensures
        d.0 == max_line_width(split_lines_spec(avatar@)),
        d.1 == split_lines_spec(avatar@).len(),
{
    let lines = split_lines(avatar);
    measure_lines(&lines)
}

/// The avatar's region: the viewport after the left skip, exactly the
/// avatar's width; then after the top skip, exactly the avatar's height.
pub open spec fn spec_avatar_region(area: Region, w: u16, h: u16) -> Region {
    let horiz = layout_pair_spec(area, false, 0, true, AVATAR_SKIP_PCT, false, w).1;
    layout_pair_spec(horiz, true, 0, true, AVATAR_TOP_PCT, false, h).1
}

/// Carves the avatar's region out of the viewport for the given bounding
/// box. When the viewport is valid and the box fits it, the region is
/// exactly the box.
pub fn avatar_region(area: Region, w: u16, h: u16) -> (r: Region)
    ensures
        r == spec_avatar_region(area, w, h),
        r.inside(area) || r.is_zero_size(),
        area.is_valid() && w <= area.width && h <= area.height ==> r.width == w && r.height == h,
{
    let horiz = layout_pair(area, false, 0, true, AVATAR_SKIP_PCT, false, w).1;
    layout_pair(horiz, true, 0, true, AVATAR_TOP_PCT, false, h).1
}

/// The footer's band: the bottom share of the viewport after the margin.
pub open spec fn spec_footer_region(area: Region) -> Region {
    layout_pair_spec(area, true, FOOTER_MARGIN, true, FOOTER_SKIP_PCT, true, FOOTER_BAND_PCT).1
}

/// Carves the footer's band out of the bottom of the viewport.
pub fn footer_region(area: Region) -> (r: Region)
    ensures
        r == spec_footer_region(area),
        r.inside(area) || r.is_zero_size(),
        2 * FOOTER_MARGIN <= area.height && area.is_valid() ==> r.width == area.width,
{
    layout_pair(area, true, FOOTER_MARGIN, true, FOOTER_SKIP_PCT, true, FOOTER_BAND_PCT).1
}

/// For every row count whose table fits the grid, the height asked for the
/// table's region is exactly the row count plus the two border rows — in
/// particular, an empty table still asks for the two border rows.
pub proof fn lemma_table_band_height(rows: nat)
    requires
        rows + TABLE_BORDER_ROWS <= u16::MAX,
    ensures
        spec_table_height(rows) == rows + TABLE_BORDER_ROWS,
{
}

/// The header's slots are sized from the character counts alone: four
/// columns per title character and one column per subtitle character,
/// whenever those widths fit the grid.
pub proof fn lemma_header_slot_widths(title: Seq<char>, subtitle: Seq<char>)
    requires
        4 * title.len() <= u16::MAX,
        subtitle.len() <= u16::MAX,
    ensures
        spec_title_width(title) == 4 * title.len(),
        spec_subtitle_width(subtitle) == subtitle.len(),
{
}

/// The avatar band asks for exactly the text's bounding box — the widest
/// line's display width and the line count — whenever that box fits the
/// grid.
pub proof fn lemma_avatar_bounding_box(avatar: Seq<char>)
    requires
        max_line_width(split_lines_spec(avatar)) <= u16::MAX,
        split_lines_spec(avatar).len() <= u16::MAX,
    ensures
        spec_avatar_size(avatar).0 == max_line_width(split_lines_spec(avatar)),
        spec_avatar_size(avatar).1 == split_lines_spec(avatar).len(),
{
}

/// An empty avatar text has no lines: its bounding box is zero by zero, so
/// the avatar band asks for a zero-area region.
pub proof fn lemma_empty_avatar()
    ensures
        split_lines_spec(Seq::<char>::empty()) == Seq::<Seq<char>>::empty(),
        spec_avatar_size(Seq::<char>::empty()) == (0u16, 0u16),
{
    assert(split_lines_spec(Seq::<char>::empty()) == Seq::<Seq<char>>::empty());
}

} // verus!
