//! Screenshot companion: finds newly created screenshot files in a watched
//! directory, and drives the single popover window of a tray icon.
pub mod path;
pub mod matcher;
pub mod watcher;
pub mod popover;
pub mod tray;
