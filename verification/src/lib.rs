//! Bridge between a tmux server in control mode and structured state for
//! user-interface clients: notification parsing, per-pane terminal state,
//! state aggregation with sequenced deltas, emission throttling and
//! viewport coordination between clients.

pub mod assets;
pub mod base64;
pub mod cells;
pub mod commands;
pub mod connection;
pub mod events;
pub mod executor;
pub mod keys;
pub mod laws;
pub mod layout;
pub mod lines;
pub mod model;
pub mod monitor;
pub mod octal;
pub mod osc;
pub mod pane;
pub mod parser;
pub mod polling;
pub mod registry;
pub mod session;
pub mod snapshot;
pub mod state;
pub mod status;
pub mod stream;
pub mod targets;
pub mod terminal;
pub mod text;

pub use cells::{content_to_hash_string, CellColor, CellStyle, PaneContent, TerminalCell, TerminalLine};
pub use executor::KeyBinding;
pub use keys::{get_prefix_bindings, get_prefix_key, get_root_bindings, process_key};
pub use model::{is_float_window_name, parse_pane_group_window_name, PaneGroupWindowInfo};
pub use model::{PaneDelta, PopupDelta, StateUpdate, TmuxDelta, TmuxError, TmuxPane, TmuxPopup};
pub use model::{TmuxState, TmuxWindow, WindowDelta};
pub use terminal::{extract_cells_from_screen, extract_cells_with_urls, parse_ansi_to_cells};

use vstd::prelude::*;

verus! {

/// Name of the session that is used where none is given.
pub const DEFAULT_SESSION_NAME: &'static str = "tmuxy";

} // verus!
