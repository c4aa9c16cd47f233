//! The saved geometry of the main window.
//!
//! Reading it from and writing it to disk, and applying it to a live
//! window, is host glue; the value itself is plain data.

use vstd::prelude::*;

verus! {

/// The saved window geometry: physical size and position.
#[derive(Debug, Clone, Copy, PartialEq, Eq, Structural)]
pub struct WindowState {
    pub width: u32,
    pub height: u32,
    pub x: i32,
    pub y: i32,
}

} // verus!
