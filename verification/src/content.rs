//! The content snapshot a render call works from: header strings, table rows,
//! avatar text, footer lines and the optional panel border styles, together
//! with the accumulate-then-finalize builder that produces it.

use vstd::prelude::*;

verus! {

/// One table row: a label on the left and a value on the right. The row's
/// position in the table is also the index space of the selection cursor.
#[derive(Debug, Clone)]
pub struct TableItem {
    pub left: String,
    pub right: String,
}

/// A custom border style for a panel: the border's colour as an RGB triple.
/// A panel without one is drawn with the default plain border.
#[derive(Clone, Copy, Debug, PartialEq, Eq, Structural)]
pub struct PanelBorder {
    pub red: u8,
    pub green: u8,
    pub blue: u8,
}

/// One table row as it is handed to the painter: the label, the value
/// already upper-cased, and whether the row is drawn emphasized because the
/// selection cursor rests on it.
#[derive(Debug, Clone)]
pub struct RowDisplay {
    pub label: String,
    pub value: String,
    pub emphasized: bool,
}

/// The immutable content snapshot for one render pass. Built once through
/// [`DashboardBuilder`], then read across repeated render calls.
#[derive(Debug, Clone)]
pub struct Dashboard {
    pub general_title: String,
    pub subtitle: String,
    pub avatar: String,
    pub avatar_block: Option<PanelBorder>,
    pub table: Vec<TableItem>,
    pub table_block: Option<PanelBorder>,
    pub footer: Vec<String>,
}

/// The mathematical model of a [`Dashboard`]: every string as its character
/// sequence, every border as its colour triple.
#[verifier::ext_equal]
pub struct DashboardView {
    pub general_title: Seq<char>,
    pub subtitle: Seq<char>,
    pub avatar: Seq<char>,
    pub avatar_block: Option<(u8, u8, u8)>,
    pub table: Seq<(Seq<char>, Seq<char>)>,
    pub table_block: Option<(u8, u8, u8)>,
    pub footer: Seq<Seq<char>>,
}

/// The colour triple of an optional panel border.
pub open spec fn border_view(b: Option<PanelBorder>) -> Option<(u8, u8, u8)> {
    match b {
        Some(p) => Some((p.red, p.green, p.blue)),
        None => None,
    }
}

impl View for TableItem {
    type V = (Seq<char>, Seq<char>);

    open spec fn view(&self) -> (Seq<char>, Seq<char>) {
        (self.left@, self.right@)
    }
}

impl View for Dashboard {
    type V = DashboardView;

    open spec fn view(&self) -> DashboardView {
        DashboardView {
            general_title: self.general_title@,
            subtitle: self.subtitle@,
            avatar: self.avatar@,
            avatar_block: border_view(self.avatar_block),
            table: self.table@.map_values(|t: TableItem| t@),
            table_block: border_view(self.table_block),
            footer: self.footer.deep_view(),
        }
    }
}

impl DashboardView {
    /// The model of a dashboard with no content at all.
    pub open spec fn empty() -> DashboardView {
        DashboardView {
            general_title: Seq::empty(),
            subtitle: Seq::empty(),
            avatar: Seq::empty(),
            avatar_block: None,
            table: Seq::empty(),
            table_block: None,
            footer: Seq::empty(),
        }
    }
}

impl TableItem {
    /// A row from a `(label, value)` pair.
    pub fn new(i: (String, String)) -> (r: Self)
        ensures
            r == (TableItem { left: i.0, right: i.1 }),
    {
        TableItem { left: i.0, right: i.1 }
    }

    /// The row's label.
    pub fn label(&self) -> (r: &String)
        ensures
            r@ == self@.0,
    {
        &self.left
    }

    /// The row's value.
    pub fn value(&self) -> (r: &String)
        ensures
            r@ == self@.1,
    {
        &self.right
    }
}

impl From<(String, String)> for TableItem {
    fn from(value: (String, String)) -> (r: TableItem) {
        TableItem::new(value)
    }
}

impl vstd::std_specs::convert::FromSpecImpl<(String, String)> for TableItem {
    open spec fn obeys_from_spec() -> bool {
        true
    }

    open spec fn from_spec(v: (String, String)) -> TableItem {
        TableItem { left: v.0, right: v.1 }
    }
}

impl Default for TableItem {
    fn default() -> (r: TableItem)
        ensures
            r@ == (Seq::<char>::empty(), Seq::<char>::empty()),
    {
        TableItem { left: String::new(), right: String::new() }
    }
}

impl Default for Dashboard {
    fn default() -> (r: Dashboard)
        ensures
            r@ == DashboardView::empty(),
    {
        let d = Dashboard {
            general_title: String::new(),
            subtitle: String::new(),
            avatar: String::new(),
            avatar_block: None,
            table: Vec::new(),
            table_block: None,
            footer: Vec::new(),
        };
        proof {
            assert(d@ =~= DashboardView::empty());
        }
        d
    }
}

/// The accumulate-then-finalize builder for a [`Dashboard`]: each option is
/// set by its own method, and `build` hands the finished snapshot out.
pub struct DashboardBuilder(pub Dashboard);

impl Default for DashboardBuilder {
    fn default() -> (r: DashboardBuilder)
        ensures
            r.0@ == DashboardView::empty(),
    {
        DashboardBuilder(Dashboard::default())
    }
}

impl DashboardBuilder {
    /// A builder with every option at its default: empty strings, no rows,
    /// no footer, default borders.
    pub fn new() -> (r: Self)
        ensures
            r.0@ == DashboardView::empty(),
    {
        DashboardBuilder(Dashboard::default())
    }

    /// Sets the header's large title.
    pub fn general_title(self, general_title: String) -> (r: Self)
        ensures
            r.0 == (Dashboard { general_title, ..self.0 }),
    {
        DashboardBuilder(Dashboard { general_title, ..self.0 })
    }

    /// Sets the header's subtitle.
    pub fn subtitle(self, subtitle: String) -> (r: Self)
        ensures
            r.0 == (Dashboard { subtitle, ..self.0 }),
    {
        DashboardBuilder(Dashboard { subtitle, ..self.0 })
    }

    /// Sets the avatar's multi-line text.
    pub fn avatar(self, avatar: String) -> (r: Self)
        ensures
            r.0 == (Dashboard { avatar, ..self.0 }),
    {
        DashboardBuilder(Dashboard { avatar, ..self.0 })
    }

    /// Sets or clears the avatar panel's custom border style.
    pub fn avatar_block(self, block: Option<PanelBorder>) -> (r: Self)
        ensures
            r.0 == (Dashboard { avatar_block: block, ..self.0 }),
    {
        DashboardBuilder(Dashboard { avatar_block: block, ..self.0 })
    }

    /// Sets the table's rows, in rendering order.
    pub fn table(self, table: Vec<TableItem>) -> (r: Self)
        ensures
            r.0 == (Dashboard { table, ..self.0 }),
    {
        DashboardBuilder(Dashboard { table, ..self.0 })
    }

    /// Sets or clears the table panel's custom border style.
    pub fn table_block(self, block: Option<PanelBorder>) -> (r: Self)
        ensures
            r.0 == (Dashboard { table_block: block, ..self.0 }),
    {
        DashboardBuilder(Dashboard { table_block: block, ..self.0 })
    }

    /// Sets the footer's caption lines.
    pub fn footer(self, footer: Vec<String>) -> (r: Self)
        ensures
            r.0 == (Dashboard { footer, ..self.0 }),
    {
        DashboardBuilder(Dashboard { footer, ..self.0 })
    }

    /// Finalizes the accumulated options into an immutable snapshot.
    pub fn build(self) -> (r: Dashboard)
        ensures
            r == self.0,
    {
        self.0
    }
}

} // verus!
