//! The decisions of a small desktop shell that shows and hides its window
//! on a global keyboard shortcut.
//!
//! The library holds no windowing, process or environment code. It reads
//! shortcut descriptors, keeps the window's visibility state, answers the
//! commands of the UI layer and supervises the auxiliary server process; in
//! each case it returns what the host is to do, and the host does it.

pub mod bridge;
pub mod launcher;
pub mod shortcut;
pub mod text;
pub mod visibility;
