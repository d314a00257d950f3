//! Single-modifier-key shortcuts and the decisions taken on keyboard and
//! media-key events: which key a shortcut names, when a press or release of it
//! starts, stops or toggles a recording, when Escape cancels one, and when the
//! play/pause media key toggles it.

pub mod listener;
pub mod media_key;
pub mod permission;
pub mod shortcut;

pub use listener::{KeyEvent, ListenerState, RecordingCommand, ShortcutConfig};
pub use shortcut::{NativeShortcut, is_native_shortcut};
