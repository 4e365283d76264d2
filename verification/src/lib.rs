//! The decisions of a painting program's interface, apart from the toolkit that draws it.
//!
//! Every module states what a press, a drag, a list, a name or a command comes to as a
//! function of plain values, and carries the contract that says so. Reading events,
//! measuring elements and drawing are left to the program around this library.
pub mod amount;
pub mod brush_config;
pub mod model;
pub mod panels;
pub mod pick;
pub mod platform;
pub mod prefs;
pub mod presets;
pub mod preview;
pub mod render;
pub mod reorder;
pub mod route;
pub mod text;
