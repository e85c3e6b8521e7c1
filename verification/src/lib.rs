//! Navigation and directory-cache engine for a three-pane terminal file
//! browser: ordered directory snapshots, a memoizing snapshot cache,
//! per-tab selection state, view-model construction, and the input-event
//! policy (key table and bounded keystroke buffering).

pub mod backend;
pub mod cache;
pub mod dir_list;
pub mod entry;
pub mod errors;
pub mod events;
pub mod fs_path;
pub mod panes;
pub mod selection;
pub mod tab;
