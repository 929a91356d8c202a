//! Decision logic of the Stock Advisors desktop shell.
//!
//! The shell wires a web frontend into a desktop window with a tray icon. Everything it
//! decides lives here, as functions from plain values to plain values: what a frontend
//! command answers, how the tray menu reads, what an activated menu item changes and
//! causes, and what a request to close the window leads to. The host application feeds
//! these functions the events it receives and carries out the effects they hand back.

pub mod commands;
pub mod event;
pub mod menu;
pub mod text;
pub mod toggle;
pub mod tray;
pub mod window;
