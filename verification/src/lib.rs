//! The core of a terminal clipboard manager: saved snippets ("commands")
//! grouped into menus, the tab list derived from them, and the state
//! transitions that the keyboard drives.
//!
//! Everything here works on plain values. Reading and writing the snippet
//! file, the system clipboard and the terminal belong to the program that
//! embeds this library.

pub mod actions;
pub mod error;
pub mod keys;
pub mod laws;
pub mod menu;
pub mod navigation;
pub mod store;
pub mod ticker;
