//! A single-screen terminal dashboard: a big header title with a subtitle, a
//! selectable two-column key/value table, a text avatar panel and a footer
//! caption, laid out inside a caller-supplied viewport.
//!
//! The layout policy — how each region's position and size is derived from
//! the content — is verified. The character-grid painting and the
//! proportional split primitive are the terminal backend's own and are called
//! through a small set of trusted wrappers.

pub mod backend;
pub mod content;
pub mod geometry;
pub mod layout;
pub mod measure;
pub mod render;

pub use content::Dashboard;
pub use content::DashboardBuilder;
pub use content::PanelBorder;
pub use content::RowDisplay;
pub use content::TableItem;
pub use geometry::Region;
