//! Plugin lifecycle for a tmux session manager: plugin sources, the
//! install/update state machine, change lists and batch aggregation.
pub mod batch;
pub mod diagnostics;
pub mod listing;
pub mod options;
pub mod paths;
pub mod plugin;
pub mod sessions;
pub mod status;
pub mod style;
pub mod sync;
pub mod text;
pub mod tmux;
