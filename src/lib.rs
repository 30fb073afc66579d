//! The core of a terminal directory browser: directory listings, the history
//! of visited directories, the stack of overlay layers and the fixed key
//! bindings, with the rules that connect them. Drawing the screen and reading
//! the filesystem are left to the caller, which hands in what enumeration
//! reported and carries out the returned [`Step`].

pub mod entry;
pub mod explorer;
pub mod frames;
pub mod keys;
pub mod listing;
pub mod modes;
pub mod nav;
pub mod rows;

pub use entry::{join_path, kind_marker, Entry, EntryKind, RawEntry};
pub use explorer::{help_text, Explorer, Step};
pub use frames::{layer_frame, ButtonAction, Frame};
pub use keys::{dispatch, key_bindings, Command, Key};
pub use listing::Listing;
pub use modes::{ModeStack, UiMode};
pub use nav::{AccessError, BackOutcome, InvalidRootError, NavigationState};
pub use rows::{render_rows, Row, RowAction};
