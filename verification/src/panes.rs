//! The visual panes of the terminal layout. Each is a marker type: drawing
//! is the terminal front end's business and happens outside this crate, fed
//! by the engine's revealed text and cursor queries.

use vstd::prelude::*;

verus! {

/// The file-tree pane: lists the commit's changed files.
pub struct FileTreePane;

/// The editor pane: shows the revealed diff text of the current file.
pub struct EditorPane;

/// The terminal pane: shows a decorative command-log strip.
pub struct TerminalPane;

/// The status bar: shows the commit identifier and summary.
pub struct StatusBarPane;

} // verus!
