//! Core logic of the clickr autoclicker: settings, the shared application
//! state with its debounced toggle, keyboard command handling, the clicker
//! state machine and the hotkey listener bookkeeping.

pub mod app;
pub mod clicker;
pub mod clock;
pub mod hotkey;
pub mod launch;
pub mod layout;
pub mod registry;
pub mod ui;
