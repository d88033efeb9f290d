//! The state of the interactive browser and the decisions it takes.
//!
//! Nothing here draws or reads a key. The functions take the state and an
//! event as plain values and say what the next state is and what the caller
//! has to do with the store or the terminal.

pub mod commands;
pub mod dialogs;
pub mod editor;
pub mod input;
pub mod panes;
pub mod select;
pub mod state;
pub mod theme;
pub mod ui;
pub mod view;
