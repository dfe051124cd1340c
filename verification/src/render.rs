//! The compositor: one render call walks the four panels — header, table,
//! avatar, footer — in order, carves each panel's region out of the
//! viewport by the layout policy, and paints it into the cell buffer.
//!
//! Each function's contract pins the buffer's cells after the call to a
//! function of the content, the cursor, the viewport and the cells before
//! it: a render pass makes no other decision, so rendering the same content
//! twice onto equal buffers leaves equal buffers.

use vstd::prelude::*;
use crate::backend::avatar_grid;
use crate::backend::big_title_grid;
use crate::backend::cell_at;
use crate::backend::footer_grid;
use crate::backend::grid_of;
use crate::backend::render_avatar_lines;
use crate::backend::render_big_title;
use crate::backend::render_footer_lines;
use crate::backend::render_subtitle;
use crate::backend::render_table_rows;
use crate::backend::subtitle_grid;
use crate::backend::table_grid;
use crate::backend::to_upper;
use crate::backend::upper_of;
use crate::content::Dashboard;
use crate::content::DashboardView;
use crate::content::RowDisplay;
use crate::content::TableItem;
use crate::geometry::Region;
use crate::layout::FOOTER_MARGIN;
use crate::layout::HEADER_MARGIN;
use crate::layout::LABEL_COLUMN_PCT;
use crate::layout::TABLE_INSET;
use crate::layout::VALUE_COLUMN_PCT;
use crate::layout::avatar_region;
use crate::layout::clamp_width;
use crate::layout::footer_region;
use crate::layout::header_bands;
use crate::layout::spec_avatar_region;
use crate::layout::spec_avatar_size;
use crate::layout::spec_footer_region;
use crate::layout::spec_header_bands;
use crate::layout::spec_subtitle_slot;
use crate::layout::spec_table_region;
use crate::layout::spec_title_slot;
use crate::layout::subtitle_slot;
use crate::layout::table_region;
use crate::layout::title_slot;
use crate::measure::measure_lines;
use crate::measure::split_lines;
use crate::measure::split_lines_spec;
use ratatui::buffer::Buffer;

verus! {

/// True when the selection cursor rests on row `idx`.
pub open spec fn spec_emphasized(idx: int, cursor: Option<usize>) -> bool {
    match cursor {
        Some(c) => idx == c,
        None => false,
    }
}

/// The table's rows as they are painted: each label kept, each value
/// upper-cased, and exactly the cursor's row flagged as emphasized.
pub open spec fn spec_row_display(
    table: Seq<(Seq<char>, Seq<char>)>,
    cursor: Option<usize>,
) -> Seq<(Seq<char>, Seq<char>, bool)> {
    Seq::new(table.len(), |i: int| (table[i].0, upper_of(table[i].1), spec_emphasized(i, cursor)))
}

/// Prepares the table's rows for painting.
pub fn row_display(table: &Vec<TableItem>, cursor: Option<usize>) -> (r: Vec<RowDisplay>)
    ensures
        r@.map_values(|d: RowDisplay| (d.label@, d.value@, d.emphasized)) == spec_row_display(
            table@.map_values(|t: TableItem| t@),
            cursor,
        ),
        r.len() == table.len(),
{
    let mut out: Vec<RowDisplay> = Vec::new();
    let mut i: usize = 0;
    while i < table.len()
        invariant
            i <= table.len(),
            out.len() == i,
            forall|j: int|
                0 <= j < i ==> (#[trigger] out@[j]).label@ == table@[j].left@ && out@[j].value@
                    == upper_of(table@[j].right@) && out@[j].emphasized == spec_emphasized(
                    j,
                    cursor,
                ),
        decreases table.len() - i,
    {
        let e = match cursor {
            Some(c) => c == i,
            None => false,
        };
        let label = table[i].left.clone();
        let value = to_upper(table[i].right.as_str());
        let ghost old_rows = out@;
        out.push(RowDisplay { label, value, emphasized: e });
        proof {
            assert forall|j: int| 0 <= j < i + 1 implies (#[trigger] out@[j]).label@
                == table@[j].left@ && out@[j].value@ == upper_of(table@[j].right@)
                && out@[j].emphasized == spec_emphasized(j, cursor) by {
                if j < i {
                    assert(out@[j] == old_rows[j]);
                }
            }
        }
        i = i + 1;
    }
    proof {
        assert(out@.map_values(|d: RowDisplay| (d.label@, d.value@, d.emphasized))
            =~= spec_row_display(table@.map_values(|t: TableItem| t@), cursor));
    }
    out
}

/// The cells after the header is painted: the big title centered in the
/// title band, then the subtitle centered in the band beneath it.
pub open spec fn header_grid_full(
    title: Seq<char>,
    subtitle: Seq<char>,
    area: Region,
    before: Seq<u64>,
) -> Seq<u64> {
    let bands = spec_header_bands(area);
    subtitle_grid(
        subtitle,
        spec_subtitle_slot(bands.1, subtitle),
        big_title_grid(title, spec_title_slot(bands.0, title), before),
    )
}

/// The selection the painter is handed: the cursor itself while it rests
/// on a row of the table, and none at all once it points past the end, so
/// that an out-of-range cursor behaves exactly like no cursor.
pub open spec fn spec_effective_cursor(cursor: Option<usize>, rows: nat) -> Option<usize> {
    match cursor {
        Some(c) => if c < rows {
            Some(c)
        } else {
            None
        },
        None => None,
    }
}

/// The cells after the table is painted into its region, sized to the row
/// count plus border, with an out-of-range cursor degraded to none.
pub open spec fn table_grid_full(
    table: Seq<(Seq<char>, Seq<char>)>,
    cursor: Option<usize>,
    border: Option<(u8, u8, u8)>,
    area: Region,
    before: Seq<u64>,
) -> Seq<u64> {
    table_grid(
        spec_row_display(table, cursor),
        spec_effective_cursor(cursor, table.len()),
        border,
        " >> "@,
        LABEL_COLUMN_PCT,
        VALUE_COLUMN_PCT,
        spec_table_region(area, table.len()),
        before,
    )
}

/// The cells after the avatar is painted into a region sized exactly to its
/// text's bounding box.
pub open spec fn avatar_grid_full(
    avatar: Seq<char>,
    border: Option<(u8, u8, u8)>,
    area: Region,
    before: Seq<u64>,
) -> Seq<u64> {
    let size = spec_avatar_size(avatar);
    avatar_grid(
        split_lines_spec(avatar),
        border,
        spec_avatar_region(area, size.0, size.1),
        before,
    )
}

/// The cells after the footer's captions are painted into the bottom band.
pub open spec fn footer_grid_full(footer: Seq<Seq<char>>, area: Region, before: Seq<u64>) -> Seq<
    u64,
> {
    footer_grid(footer, spec_footer_region(area), before)
}

/// The cells after a whole render pass: header, table, avatar and footer,
/// painted in that order over the cells already in the buffer.
pub open spec fn render_grid(
    c: DashboardView,
    cursor: Option<usize>,
    area: Region,
    before: Seq<u64>,
) -> Seq<u64> {
    footer_grid_full(
        c.footer,
        area,
        avatar_grid_full(
            c.avatar,
            c.avatar_block,
            area,
            table_grid_full(
                c.table,
                cursor,
                c.table_block,
                area,
                header_grid_full(c.general_title, c.subtitle, area, before),
            ),
        ),
    )
}

impl Dashboard {
    /// Paints the header: the big title centered in the title band, the
    /// subtitle centered beneath it. No cell outside the viewport is
    /// touched.
    pub fn render_header(&self, area: Region, buf: &mut Buffer)
        ensures
            grid_of(*final(buf)) == header_grid_full(
                self.general_title@,
                self.subtitle@,
                area,
                grid_of(*old(buf)),
            ),
            forall|x: u16, y: u16|
                !area.contains_cell(x, y) ==> #[trigger] cell_at(*final(buf), x, y) == cell_at(
                    *old(buf),
                    x,
                    y,
                ),
    {
        let bands = header_bands(area);
        let title_area = title_slot(bands.0, self.general_title.as_str());
        let subtitle_area = subtitle_slot(bands.1, self.subtitle.as_str());
        let ghost b0 = *buf;
        render_big_title(&self.general_title, title_area, buf);
        let ghost b1 = *buf;
        render_subtitle(&self.subtitle, subtitle_area, buf);
        proof {
            assert forall|x: u16, y: u16| !area.contains_cell(x, y) implies #[trigger] cell_at(
                *buf,
                x,
                y,
            ) == cell_at(b0, x, y) by {
                assert(!title_area.contains_cell(x, y));
                assert(!subtitle_area.contains_cell(x, y));
                assert(cell_at(b1, x, y) == cell_at(b0, x, y));
                assert(cell_at(*buf, x, y) == cell_at(b1, x, y));
            }
        }
    }

    /// Paints the two-column table into its region, the cursor's row
    /// emphasized and marked; a cursor past the table's end is degraded to
    /// none before the painter sees it. No cell outside the viewport is
    /// touched.
    pub fn render_table(&self, cursor: Option<usize>, area: Region, buf: &mut Buffer)
        ensures
            grid_of(*final(buf)) == table_grid_full(
                self@.table,
                cursor,
                self@.table_block,
                area,
                grid_of(*old(buf)),
            ),
            forall|x: u16, y: u16|
                !area.contains_cell(x, y) ==> #[trigger] cell_at(*final(buf), x, y) == cell_at(
                    *old(buf),
                    x,
                    y,
                ),
    {
        let rows = row_display(&self.table, cursor);
        let n: usize = self.table.len();
        let effective: Option<usize> = match cursor {
            Some(c) => if c < n {
                Some(c)
            } else {
                None
            },
            None => None,
        };
        let region = table_region(area, n);
        render_table_rows(
            &rows,
            effective,
            &self.table_block,
            " >> ",
            LABEL_COLUMN_PCT,
            VALUE_COLUMN_PCT,
            region,
            buf,
        );
        proof {
            assert forall|x: u16, y: u16| !area.contains_cell(x, y) implies #[trigger] cell_at(
                *buf,
                x,
                y,
            ) == cell_at(*old(buf), x, y) by {
                assert(!region.contains_cell(x, y));
            }
        }
    }

    /// Paints the avatar into a region sized exactly to its text's bounding
    /// box. No cell outside the viewport is touched, and on a valid
    /// viewport an empty avatar text paints nothing at all.
    pub fn render_avatar(&self, area: Region, buf: &mut Buffer)
        ensures
            grid_of(*final(buf)) == avatar_grid_full(
                self.avatar@,
                self@.avatar_block,
                area,
                grid_of(*old(buf)),
            ),
            forall|x: u16, y: u16|
                !area.contains_cell(x, y) ==> #[trigger] cell_at(*final(buf), x, y) == cell_at(
                    *old(buf),
                    x,
                    y,
                ),
            self.avatar@.len() == 0 && area.is_valid() ==> grid_of(*final(buf)) == grid_of(
                *old(buf),
            ),
    {
        let lines = split_lines(self.avatar.as_str());
        let dims = measure_lines(&lines);
        let region = avatar_region(area, clamp_width(dims.0), clamp_width(dims.1));
        proof {
            if self.avatar@.len() == 0 {
                assert(split_lines_spec(self.avatar@) =~= Seq::<Seq<char>>::empty());
            }
        }
        render_avatar_lines(&lines, &self.avatar_block, region, buf);
        proof {
            assert forall|x: u16, y: u16| !area.contains_cell(x, y) implies #[trigger] cell_at(
                *buf,
                x,
                y,
            ) == cell_at(*old(buf), x, y) by {
                assert(!region.contains_cell(x, y));
            }
        }
    }

    /// Paints the footer's captions centered in the bottom band: no cell
    /// outside the band is touched, and so none outside the viewport
    /// either.
    pub fn render_footer(&self, area: Region, buf: &mut Buffer)
        ensures
            grid_of(*final(buf)) == footer_grid_full(self@.footer, area, grid_of(*old(buf))),
            forall|x: u16, y: u16|
                !spec_footer_region(area).contains_cell(x, y) ==> #[trigger] cell_at(
                    *final(buf),
                    x,
                    y,
                ) == cell_at(*old(buf), x, y),
            forall|x: u16, y: u16|
                !area.contains_cell(x, y) ==> #[trigger] cell_at(*final(buf), x, y) == cell_at(
                    *old(buf),
                    x,
                    y,
                ),
    {
        let region = footer_region(area);
        render_footer_lines(&self.footer, region, buf);
        proof {
            assert forall|x: u16, y: u16| !area.contains_cell(x, y) implies #[trigger] cell_at(
                *buf,
                x,
                y,
            ) == cell_at(*old(buf), x, y) by {
                assert(!region.contains_cell(x, y));
            }
        }
    }

    /// One render pass: paints the header, the table (with the cursor's row
    /// emphasized and an out-of-range cursor degraded to none), the avatar
    /// and the footer into the viewport, in that order. The cells left in
    /// the buffer are a function of the content, the cursor, the viewport
    /// and the cells already there — nothing else — and every write lands
    /// inside the viewport.
    pub fn render(&self, cursor: Option<usize>, area: Region, buf: &mut Buffer)
        ensures
            grid_of(*final(buf)) == render_grid(self@, cursor, area, grid_of(*old(buf))),
            forall|x: u16, y: u16|
                !area.contains_cell(x, y) ==> #[trigger] cell_at(*final(buf), x, y) == cell_at(
                    *old(buf),
                    x,
                    y,
                ),
    {
        let ghost b0 = *buf;
        self.render_header(area, buf);
        let ghost b1 = *buf;
        self.render_table(cursor, area, buf);
        let ghost b2 = *buf;
        self.render_avatar(area, buf);
        let ghost b3 = *buf;
        self.render_footer(area, buf);
        proof {
            assert forall|x: u16, y: u16| !area.contains_cell(x, y) implies #[trigger] cell_at(
                *buf,
                x,
                y,
            ) == cell_at(b0, x, y) by {
                assert(cell_at(b1, x, y) == cell_at(b0, x, y));
                assert(cell_at(b2, x, y) == cell_at(b1, x, y));
                assert(cell_at(b3, x, y) == cell_at(b2, x, y));
                assert(cell_at(*buf, x, y) == cell_at(b3, x, y));
            }
        }
    }
}

/// A selection cursor on a row inside the table emphasizes exactly that row
/// and no other; a cursor past the table's end, or no cursor, emphasizes no
/// row at all.
pub proof fn lemma_cursor_highlight(table: Seq<(Seq<char>, Seq<char>)>, cursor: Option<usize>)
    ensures
        match cursor {
            Some(c) => forall|i: int|
                0 <= i < table.len() ==> (spec_row_display(table, cursor)[i].2 <==> i == c),
            None => forall|i: int|
                0 <= i < table.len() ==> !spec_row_display(table, cursor)[i].2,
        },
{
}

/// A selection cursor past the table's end renders exactly as no cursor at
/// all: the whole pass paints the same cells, emphasizing and marking no
/// row.
pub proof fn lemma_out_of_range_cursor_renders_as_none(
    c: DashboardView,
    cursor: Option<usize>,
    area: Region,
    before: Seq<u64>,
)
    requires
        match cursor {
            Some(k) => k >= c.table.len(),
            None => true,
        },
    ensures
        render_grid(c, cursor, area, before) == render_grid(c, None, area, before),
{
    assert forall|i: int| 0 <= i < c.table.len() implies spec_row_display(c.table, cursor)[i]
        == spec_row_display(c.table, None)[i] by {}
    assert(spec_row_display(c.table, cursor) =~= spec_row_display(c.table, None));
}

/// Rendering is repeatable: the cells a render pass leaves depend on the
/// content, the cursor, the viewport and the cells already in the buffer
/// alone, so two passes with identical inputs onto buffers holding
/// identical cells — freshly cleared ones in particular — leave identical
/// cells.
pub proof fn lemma_render_repeatable(
    c: DashboardView,
    cursor: Option<usize>,
    area: Region,
    g1: Seq<u64>,
    g2: Seq<u64>,
)
    requires
        g1 == g2,
    ensures
        render_grid(c, cursor, area, g1) == render_grid(c, cursor, area, g2),
{
}

} // verus!
