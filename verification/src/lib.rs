//! The engine behind a terminal fuzzy picker: a pool of entries that a match engine
//! filters and ranks, a viewport over the ranked entries, the query and edit buffers,
//! the search and editing modes, and the preview of the highlighted entry.

pub mod config;
pub mod editing_mode;
pub mod engine;
pub mod event;
pub mod picker;
pub mod placeholder;
pub mod preview;
pub mod requested_items;
pub mod search_mode;
pub mod selectable;
pub mod selected_items;
pub mod text_buffer;
pub mod viewport;
