//! Replays a version-control commit's changed files as a timed "typing"
//! animation: a reveal cursor walks the commit's diff lines at a pace set by
//! configurable speed rules, with pause/resume, checkpoint-based scrubbing at
//! two granularities, and navigation across a history of viewed commits.

pub mod commit;
pub mod controller;
pub mod cursor;
pub mod engine;
pub mod history;
pub mod panes;
pub mod speed;
pub mod stream;
pub mod ui;
