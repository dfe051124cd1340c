//! Tests of the compositor: row preparation, cursor emphasis, the builder,
//! and full render passes into a real cell buffer.

use dashboard::Dashboard;
use dashboard::DashboardBuilder;
use dashboard::PanelBorder;
use dashboard::Region;
use dashboard::TableItem;
use dashboard::layout::footer_region;
use dashboard::layout::table_region_height;
use dashboard::render::row_display;
use ratatui::buffer::Buffer;
use ratatui::layout::Rect;

fn sample_dashboard() -> Dashboard {
    DashboardBuilder::new()
        .general_title("OK".to_string())
        .subtitle("v1".to_string())
        .avatar("aaaaa\nbbbbbbbb".to_string())
        .table(vec![
            TableItem::new(("start".to_string(), "s".to_string())),
            TableItem::new(("quit".to_string(), "q".to_string())),
        ])
        .footer(vec!["press q to quit".to_string()])
        .build()
}

#[test]
fn cursor_on_second_row_emphasizes_it_alone() {
    let rows = vec![
        TableItem::new(("start".to_string(), "s".to_string())),
        TableItem::new(("quit".to_string(), "q".to_string())),
    ];
    let display = row_display(&rows, Some(1));
    assert_eq!(display.len(), 2);
    assert_eq!(display[0].label, "start");
    assert_eq!(display[0].value, "S");
    assert!(!display[0].emphasized);
    assert_eq!(display[1].label, "quit");
    assert_eq!(display[1].value, "Q");
    assert!(display[1].emphasized);
    assert_eq!(table_region_height(2), 4);
}

#[test]
fn cursor_past_the_table_emphasizes_no_row() {
    let rows = vec![
        TableItem::new(("start".to_string(), "s".to_string())),
        TableItem::new(("quit".to_string(), "q".to_string())),
    ];
    let display = row_display(&rows, Some(7));
    assert!(display.iter().all(|d| !d.emphasized));
    let display = row_display(&rows, None);
    assert!(display.iter().all(|d| !d.emphasized));
}

#[test]
fn empty_table_prepares_no_rows() {
    let rows: Vec<TableItem> = Vec::new();
    let display = row_display(&rows, None);
    assert!(display.is_empty());
    assert_eq!(table_region_height(0), 2);
}

#[test]
fn builder_accumulates_every_option() {
    let border = PanelBorder { red: 10, green: 20, blue: 30 };
    let d = DashboardBuilder::new()
        .general_title("T".to_string())
        .subtitle("sub".to_string())
        .avatar("av".to_string())
        .avatar_block(Some(border))
        .table(vec![TableItem::new(("a".to_string(), "b".to_string()))])
        .table_block(Some(border))
        .footer(vec!["f".to_string()])
        .build();
    assert_eq!(d.general_title, "T");
    assert_eq!(d.subtitle, "sub");
    assert_eq!(d.avatar, "av");
    assert_eq!(d.avatar_block, Some(border));
    assert_eq!(d.table.len(), 1);
    assert_eq!(d.table[0].label(), "a");
    assert_eq!(d.table[0].value(), "b");
    assert_eq!(d.table_block, Some(border));
    assert_eq!(d.footer, vec!["f".to_string()]);
}

#[test]
fn table_item_from_pair() {
    let item = TableItem::from(("k".to_string(), "v".to_string()));
    assert_eq!(item.label(), "k");
    assert_eq!(item.value(), "v");
}

#[test]
fn render_paints_the_buffer() {
    let d = sample_dashboard();
    let area = Region::new(0, 0, 80, 24);
    let mut buf = Buffer::empty(Rect::new(0, 0, 80, 24));
    let fresh = buf.clone();
    d.render(Some(1), area, &mut buf);
    assert_ne!(buf, fresh);
}

#[test]
fn repeated_renders_leave_identical_buffers() {
    let d = sample_dashboard();
    let area = Region::new(0, 0, 80, 24);
    let mut first = Buffer::empty(Rect::new(0, 0, 80, 24));
    let mut second = Buffer::empty(Rect::new(0, 0, 80, 24));
    d.render(Some(1), area, &mut first);
    d.render(Some(1), area, &mut second);
    assert_eq!(first, second);
}

#[test]
fn custom_table_border_changes_the_painting() {
    let plain = sample_dashboard();
    let bordered = DashboardBuilder::new()
        .general_title("OK".to_string())
        .subtitle("v1".to_string())
        .avatar("aaaaa\nbbbbbbbb".to_string())
        .table(vec![
            TableItem::new(("start".to_string(), "s".to_string())),
            TableItem::new(("quit".to_string(), "q".to_string())),
        ])
        .table_block(Some(PanelBorder { red: 200, green: 10, blue: 10 }))
        .footer(vec!["press q to quit".to_string()])
        .build();
    let area = Region::new(0, 0, 80, 24);
    let mut a = Buffer::empty(Rect::new(0, 0, 80, 24));
    let mut b = Buffer::empty(Rect::new(0, 0, 80, 24));
    plain.render(None, area, &mut a);
    bordered.render(None, area, &mut b);
    assert_ne!(a, b);
}

#[test]
fn moving_the_cursor_changes_the_painting() {
    let d = sample_dashboard();
    let area = Region::new(0, 0, 80, 24);
    let mut a = Buffer::empty(Rect::new(0, 0, 80, 24));
    let mut b = Buffer::empty(Rect::new(0, 0, 80, 24));
    d.render(Some(0), area, &mut a);
    d.render(Some(1), area, &mut b);
    assert_ne!(a, b);
}

#[test]
fn out_of_range_cursor_paints_like_none() {
    let d = sample_dashboard();
    let area = Region::new(0, 0, 80, 24);
    let mut past_end = Buffer::empty(Rect::new(0, 0, 80, 24));
    let mut none = Buffer::empty(Rect::new(0, 0, 80, 24));
    d.render(Some(7), area, &mut past_end);
    d.render(None, area, &mut none);
    assert_eq!(past_end, none);
}

#[test]
fn empty_avatar_paints_nothing() {
    let d = DashboardBuilder::new().avatar(String::new()).build();
    let area = Region::new(0, 0, 80, 24);
    let mut buf = Buffer::empty(Rect::new(0, 0, 80, 24));
    let fresh = buf.clone();
    d.render_avatar(area, &mut buf);
    assert_eq!(buf, fresh);
}

#[test]
fn footer_writes_stay_inside_its_band() {
    let d = sample_dashboard();
    let area = Region::new(0, 0, 80, 24);
    let band = footer_region(area);
    let mut buf = Buffer::empty(Rect::new(0, 0, 80, 24));
    let fresh = buf.clone();
    d.render_footer(area, &mut buf);
    for y in 0..24u16 {
        for x in 0..80u16 {
            let inside = band.x <= x && x < band.x + band.width && band.y <= y && y
                < band.y + band.height;
            if !inside {
                assert_eq!(buf[(x, y)], fresh[(x, y)]);
            }
        }
    }
}

#[test]
fn viewport_wider_than_buffer_renders_without_panic() {
    let d = sample_dashboard();
    let area = Region::new(0, 0, 80, 24);
    let mut buf = Buffer::empty(Rect::new(0, 0, 10, 8));
    d.render(Some(0), area, &mut buf);
}

#[test]
fn empty_dashboard_renders_without_error() {
    let d = DashboardBuilder::new().build();
    let area = Region::new(0, 0, 80, 24);
    let mut buf = Buffer::empty(Rect::new(0, 0, 80, 24));
    d.render(None, area, &mut buf);
}

#[test]
fn tiny_viewport_renders_without_error() {
    let d = sample_dashboard();
    let area = Region::new(0, 0, 3, 2);
    let mut buf = Buffer::empty(Rect::new(0, 0, 3, 2));
    d.render(Some(0), area, &mut buf);
}
