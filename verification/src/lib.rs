//! Turns a flat list of timestamped achievement records into grouped,
//! display-ready view models: one group per distinct period, in first-seen
//! order, each entry carrying a CSS class derived from its category.

pub mod grouping;
pub mod highlights;
pub mod ingest;
pub mod state;

pub use grouping::group_highlights;
pub use highlights::Highlight;
pub use highlights::HighlightGroup;
pub use highlights::StoredHighlight;
pub use ingest::HighlightError;
pub use state::AppState;
