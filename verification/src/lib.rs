//! Core rules of a menu-bar screenshot OCR utility: the hotkey configuration,
//! the scan history, the menus' decisions, the assembly of recognized text and
//! the reactions to a capture.

pub mod config;
pub mod history;
pub mod menus;
pub mod ocr;
pub mod screenshot;
pub mod shortcut;
pub mod text;
pub mod tray;
