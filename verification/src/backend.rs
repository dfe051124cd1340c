//! The trusted boundary to the terminal backend.
//!
//! The compositor's collaborators — the proportional split primitive, the
//! character-cell width measure, and the widget painting routines that write
//! into the cell buffer — live in outside crates. Each call the compositor
//! makes goes through a wrapper here, whose contract states what the outside
//! source shows; results that would take pages to describe are given
//! uninterpreted names, so that every wrapper's outcome is pinned to be a
//! function of its arguments alone.

use vstd::prelude::*;
use crate::content::PanelBorder;
use crate::content::RowDisplay;
use crate::content::border_view;
use crate::geometry::Region;
use ratatui::buffer::Buffer;
use ratatui::layout::Constraint;
use ratatui::layout::Direction;
use ratatui::layout::Flex;
use ratatui::layout::Layout;
use ratatui::layout::Rect;
use ratatui::style::Color;
use ratatui::style::Style;
use ratatui::style::Stylize;
use ratatui::text::Line;
use ratatui::widgets::Block;
use ratatui::widgets::Paragraph;
use ratatui::widgets::Row;
use ratatui::widgets::StatefulWidget;
use ratatui::widgets::Table;
use ratatui::widgets::TableState;
use ratatui::widgets::Widget;
use tui_big_text::BigText;
use tui_big_text::PixelSize;

verus! {

#[verifier::external_type_specification]
#[verifier::external_body]
pub struct ExBuffer(Buffer);

#[verifier::external_type_specification]
#[verifier::external_body]
pub struct ExStyle(Style);

#[verifier::external_type_specification]
#[verifier::external_body]
pub struct ExBlock<'a>(Block<'a>);

/// The full contents of a cell buffer — its area and each cell's symbol and
/// style — under one fixed injective encoding. Two buffers hold the same
/// cells exactly when their encodings are equal; nothing else is assumed of
/// the encoding's values.
pub uninterp spec fn grid_of(b: Buffer) -> Seq<u64>;

/// The cell of a buffer at column `x`, row `y` — its symbol and style under
/// the same fixed encoding. It addresses single cells so that a painter's
/// contract can say which cells it leaves untouched.
pub uninterp spec fn cell_at(b: Buffer, x: u16, y: u16) -> u64;

/// What the one-column display width of a text is: the result of
/// unicode_width's `UnicodeWidthStr::width`, a function of the characters
/// alone.
pub uninterp spec fn display_width(s: Seq<char>) -> nat;

/// Relies on unicode_width's `UnicodeWidthStr::width`: the number of
/// columns the string occupies on the terminal, which depends on the
/// characters alone and is zero for the empty string.
#[verifier::external_body]
pub(crate) fn measure_width(s: &str) -> (r: usize)
    ensures
        r == display_width(s@),
        s@.len() == 0 ==> r == 0,
{
    unicode_width::UnicodeWidthStr::width(s)
}

/// What `str::to_uppercase` returns: a function of the characters alone.
pub uninterp spec fn upper_of(s: Seq<char>) -> Seq<char>;

/// Relies on `str::to_uppercase`: the uppercase mapping of the string,
/// which depends on the characters alone and is empty for the empty string.
#[verifier::external_body]
pub(crate) fn to_upper(s: &str) -> (r: String)
    ensures
        r@ == upper_of(s@),
        s@.len() == 0 ==> r@.len() == 0,
{
    s.to_uppercase()
}

/// The two sub-regions that the split primitive carves out of `area` for a
/// two-constraint layout: a function of the area and the layout alone.
pub uninterp spec fn layout_pair_spec(
    area: Region,
    vertical: bool,
    margin: u16,
    first_pct: bool,
    first: u16,
    second_pct: bool,
    second: u16,
) -> (Region, Region);

/// What the split primitive's source guarantees of a two-segment split.
/// The segments always come back valid. The rectangle primitive first
/// clamps a far edge that would pass the grid's limit, and when the margin
/// no longer fits the clamped rectangle the margined area collapses to the
/// zero rectangle at the grid's origin — so each segment either lies inside
/// `area` keeping its origin across the split axis, or covers no cell at
/// all. Only on a valid area with a fitting margin do the segments carry
/// the area's full extent across the split axis.
pub open spec fn pair_within(area: Region, vertical: bool, margin: u16, r: (Region, Region)) -> bool {
    &&& r.0.is_valid()
    &&& r.1.is_valid()
    &&& if vertical {
        &&& (r.0.inside(area) && r.0.x == area.x) || r.0.is_zero_size()
        &&& (r.1.inside(area) && r.1.x == area.x) || r.1.is_zero_size()
        &&& 2 * margin <= area.height && area.is_valid() ==> {
            &&& r.0.width == area.width
            &&& r.1.width == area.width
        }
    } else {
        &&& (r.0.inside(area) && r.0.y == area.y) || r.0.is_zero_size()
        &&& (r.1.inside(area) && r.1.y == area.y) || r.1.is_zero_size()
        &&& 2 * margin <= area.width && area.is_valid() ==> {
            &&& r.0.height == area.height
            &&& r.1.height == area.height
        }
    }
}

/// Relies on ratatui's `Layout::split`: partitions `area` into one
/// sub-rectangle per constraint. The solver pins every segment boundary
/// inside the margined area — which collapses to the zero rectangle when
/// the margin does not fit — and carries that area's extent across the
/// split axis, and its result depends on the layout and the area alone.
/// A fixed-size constraint's size rule outranks a percentage's, so when the
/// area is valid and a `Length` second segment fits beside the margins, it
/// is met exactly. The margin is applied along the split axis; a percentage
/// constraint is `Constraint::Percentage`, a fixed one `Constraint::Length`.
#[verifier::external_body]
pub(crate) fn layout_pair(
    area: Region,
    vertical: bool,
    margin: u16,
    first_pct: bool,
    first: u16,
    second_pct: bool,
    second: u16,
) -> (r: (Region, Region))
    ensures
        r == layout_pair_spec(area, vertical, margin, first_pct, first, second_pct, second),
        pair_within(area, vertical, margin, r),
        first_pct && !second_pct && area.is_valid() && (if vertical {
            2 * margin + second <= area.height
        } else {
            2 * margin + second <= area.width
        }) ==> (if vertical {
            r.1.height == second
        } else {
            r.1.width == second
        }),
{
    let g = |t: Rect| Region { x: t.x, y: t.y, width: t.width, height: t.height };
    let c = |p: bool, n: u16| if p { Constraint::Percentage(n) } else { Constraint::Length(n) };
    let d = if vertical { Direction::Vertical } else { Direction::Horizontal };
    let mut l = Layout::new(d, [c(first_pct, first), c(second_pct, second)]);
    l = if vertical { l.vertical_margin(margin) } else { l.horizontal_margin(margin) };
    let rs = l.split(Rect::new(area.x, area.y, area.width, area.height));
    (g(rs[0]), g(rs[1]))
}

/// The sub-region that the split primitive centers in `area` for a single
/// fixed-width constraint: a function of the area and the width alone.
pub uninterp spec fn layout_centered_spec(area: Region, len: u16) -> Region;

/// Relies on ratatui's `Layout::areas`: solves a single fixed-width
/// constraint, centered by `Flex::Center`, and the result depends on the
/// layout and the area alone. The segment is solved within the area and
/// keeps its vertical origin; the rectangle primitive clamps a far edge
/// past the grid's limit, so the full vertical extent, and the exact width
/// of a fitting constraint, hold of a valid area.
#[verifier::external_body]
pub(crate) fn layout_centered(area: Region, len: u16) -> (r: Region)
    ensures
        r == layout_centered_spec(area, len),
        r.inside(area),
        r.is_valid(),
        r.y == area.y,
        area.y + area.height <= u16::MAX ==> r.height == area.height,
        len <= area.width && area.x + area.width <= u16::MAX ==> r.width == len,
{
    let [t] = Layout::new(Direction::Horizontal, [Constraint::Length(len)])
        .flex(Flex::Center)
        .areas(Rect::new(area.x, area.y, area.width, area.height));
    Region { x: t.x, y: t.y, width: t.width, height: t.height }
}

/// Relies on ratatui's `Block`: a bordered frame, in the custom colour when
/// one is given. Only a constructor; what the block paints is stated on the
/// wrapper that renders it.
#[verifier::external_body]
fn panel_block(border: &Option<PanelBorder>) -> Block<'static> {
    match border {
        Some(p) => Block::bordered().border_style(Style::new().fg(Color::Rgb(p.red, p.green, p.blue))),
        None => Block::bordered(),
    }
}

/// Relies on ratatui's `Style`: the emphasis style (italic, bold,
/// underlined) for the cursor's row, the default style for every other.
/// Only a constructor; which row gets it is decided in verified code.
#[verifier::external_body]
fn emphasis(e: bool) -> Style {
    if e {
        Style::default().italic().bold().underlined()
    } else {
        Style::default()
    }
}

/// The cells after the big-pixel title is painted: a function of the title,
/// the target region and the prior cells alone.
pub uninterp spec fn big_title_grid(title: Seq<char>, area: Region, before: Seq<u64>) -> Seq<u64>;

/// Relies on tui_big_text's `BigText` (quadrant pixel size, light-red
/// style) rendered through ratatui's `Widget::render`: deterministic in the
/// title text, the region and the buffer's prior cells (which carry the
/// buffer's own area). The big-text painter indexes the buffer raw instead
/// of clipping as ratatui's widgets do, so the call here first intersects
/// the region with the buffer's area — every glyph cell it writes lies
/// inside the rectangle it is handed — and a region partly off the buffer
/// degrades to a partial title instead of a fault. Cells outside the region
/// are untouched.
#[verifier::external_body]
pub(crate) fn render_big_title(title: &String, area: Region, buf: &mut Buffer)
    ensures
        grid_of(*final(buf)) == big_title_grid(title@, area, grid_of(*old(buf))),
        forall|x: u16, y: u16|
            !area.contains_cell(x, y) ==> #[trigger] cell_at(*final(buf), x, y) == cell_at(
                *old(buf),
                x,
                y,
            ),
{
    let line = Line::raw(title.as_str()).style(Style::new().light_red());
    let target = Rect::new(area.x, area.y, area.width, area.height).intersection(buf.area);
    BigText::builder().pixel_size(PixelSize::Quadrant).lines(vec![line]).build().render(
        target, buf,
    );
}

/// The cells after the subtitle line is painted: a function of the
/// subtitle, the target region and the prior cells alone.
pub uninterp spec fn subtitle_grid(subtitle: Seq<char>, area: Region, before: Seq<u64>) -> Seq<u64>;

/// Relies on ratatui's `Line` (blue, bold) rendered through
/// `Widget::render`: deterministic in the subtitle text, the region and the
/// buffer's prior cells. The painter clips to the region, so cells outside
/// it are untouched.
#[verifier::external_body]
pub(crate) fn render_subtitle(subtitle: &String, area: Region, buf: &mut Buffer)
    ensures
        grid_of(*final(buf)) == subtitle_grid(subtitle@, area, grid_of(*old(buf))),
        forall|x: u16, y: u16|
            !area.contains_cell(x, y) ==> #[trigger] cell_at(*final(buf), x, y) == cell_at(
                *old(buf),
                x,
                y,
            ),
{
    let line = Line::raw(subtitle.as_str()).style(Style::new().blue().bold());
    line.render(Rect::new(area.x, area.y, area.width, area.height), buf);
}

/// The cells after the two-column table is painted: a function of the
/// prepared rows (label, upper-cased value, emphasis flag), the raw
/// selection, the border colour, the marker text, the two column
/// percentages, the target region and the prior cells alone.
pub uninterp spec fn table_grid(
    rows: Seq<(Seq<char>, Seq<char>, bool)>,
    selected: Option<usize>,
    border: Option<(u8, u8, u8)>,
    sym: Seq<char>,
    wide: u16,
    narrow: u16,
    area: Region,
    before: Seq<u64>,
) -> Seq<u64>;

/// Relies on ratatui's `Table` rendered through `StatefulWidget::render`:
/// each prepared row becomes a label cell (blue, with the row's emphasis
/// style) and a value cell (light red, bold); the table is cyan, bordered —
/// with the custom border colour when one is given — and marks the selected
/// row with the marker text. Deterministic in the listed arguments; the
/// painter clips to the region, so cells outside it are untouched.
#[verifier::external_body]
pub(crate) fn render_table_rows(
    rows: &Vec<RowDisplay>,
    selected: Option<usize>,
    border: &Option<PanelBorder>,
    sym: &str,
    wide: u16,
    narrow: u16,
    area: Region,
    buf: &mut Buffer,
)
    ensures
        grid_of(*final(buf)) == table_grid(
            rows@.map_values(|r: RowDisplay| (r.label@, r.value@, r.emphasized)),
            selected,
            border_view(*border),
            sym@,
            wide,
            narrow,
            area,
            grid_of(*old(buf)),
        ),
        forall|x: u16, y: u16|
            !area.contains_cell(x, y) ==> #[trigger] cell_at(*final(buf), x, y) == cell_at(
                *old(buf),
                x,
                y,
            ),
{
    let widths = [Constraint::Percentage(wide), Constraint::Percentage(narrow)];
    let rs = rows.iter().map(|r| Row::new(
        Line::default().spans([r.label.as_str().blue().style(emphasis(r.emphasized)), r.value.as_str().light_red().bold()]).style(emphasis(r.emphasized)),
    ));
    let table = Table::new(rs, widths).highlight_symbol(sym).cyan().block(panel_block(border));
    let mut state = TableState::default();
    state.select(selected);
    StatefulWidget::render(table, Rect::new(area.x, area.y, area.width, area.height), buf, &mut state);
}

/// The cells after the avatar's lines are painted: a function of the lines,
/// the border colour, the target region and the prior cells alone.
pub uninterp spec fn avatar_grid(
    lines: Seq<Seq<char>>,
    border: Option<(u8, u8, u8)>,
    area: Region,
    before: Seq<u64>,
) -> Seq<u64>;

/// Relies on ratatui's `Paragraph` rendered through `Widget::render`: the
/// avatar's lines, light blue, inside a bordered block — with the custom
/// border colour when one is given. Deterministic in the lines, the border,
/// the region and the buffer's prior cells. The painter clips to the
/// region, so cells outside it are untouched, and a zero-area region leaves
/// the whole buffer as it was.
#[verifier::external_body]
pub(crate) fn render_avatar_lines(
    lines: &Vec<String>,
    border: &Option<PanelBorder>,
    area: Region,
    buf: &mut Buffer,
)
    ensures
        grid_of(*final(buf)) == avatar_grid(
            lines.deep_view(),
            border_view(*border),
            area,
            grid_of(*old(buf)),
        ),
        forall|x: u16, y: u16|
            !area.contains_cell(x, y) ==> #[trigger] cell_at(*final(buf), x, y) == cell_at(
                *old(buf),
                x,
                y,
            ),
        area.width == 0 || area.height == 0 ==> grid_of(*final(buf)) == grid_of(*old(buf)),
{
    let ls: Vec<Line> = lines.iter().map(|s| Line::from(s.as_str().light_blue())).collect();
    Paragraph::new(ls).block(panel_block(border)).render(
        Rect::new(area.x, area.y, area.width, area.height),
        buf,
    );
}

/// The cells after the footer's caption lines are painted: a function of
/// the lines, the target region and the prior cells alone.
pub uninterp spec fn footer_grid(lines: Seq<Seq<char>>, area: Region, before: Seq<u64>) -> Seq<u64>;

/// Relies on ratatui's `Paragraph` rendered through `Widget::render`: the
/// caption lines, centered, bold, italic, light cyan. Deterministic in the
/// lines, the region and the buffer's prior cells. The painter clips to the
/// region, so cells outside it are untouched.
#[verifier::external_body]
pub(crate) fn render_footer_lines(lines: &Vec<String>, area: Region, buf: &mut Buffer)
    ensures
        grid_of(*final(buf)) == footer_grid(lines.deep_view(), area, grid_of(*old(buf))),
        forall|x: u16, y: u16|
            !area.contains_cell(x, y) ==> #[trigger] cell_at(*final(buf), x, y) == cell_at(
                *old(buf),
                x,
                y,
            ),
{
    let ls: Vec<Line> = lines.iter().map(|s| Line::raw(s.as_str())).collect();
    let footer = Paragraph::new(ls).centered().bold().light_cyan().italic();
    footer.render(Rect::new(area.x, area.y, area.width, area.height), buf);
}

} // verus!
