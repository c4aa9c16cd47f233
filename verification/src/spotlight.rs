//! The quick-access window's bookkeeping.
//!
//! Creating, showing and hiding the window is platform glue; what is decided
//! here: the default configuration values, the visibility state and what a
//! toggle does to it, and where a window of a given size sits centered on a
//! monitor.

use vstd::prelude::*;

verus! {

/// The default window label.
pub fn default_label() -> (r: String)
    ensures
        r@ == "popover"@,
{
    "popover".to_owned()
}

/// The default window title.
pub fn default_title() -> (r: String)
    ensures
        r@ == "Composer Quick Access"@,
{
    "Composer Quick Access".to_owned()
}

/// The default global shortcut that toggles the window.
pub fn default_shortcut() -> (r: String)
    ensures
        r@ == "Alt+Space"@,
{
    "Alt+Space".to_owned()
}

/// Whether the window hides itself on losing focus, by default.
pub fn default_auto_hide() -> (r: bool)
    ensures
        r == true,
{
    true
}

/// State of the one quick-access window: whether it is currently visible.
#[derive(Debug, Clone, Copy, PartialEq, Eq, Structural)]
pub struct SpotlightState {
    visible: bool,
}

impl SpotlightState {
    /// A fresh state: the window starts hidden.
    pub fn new() -> (s: SpotlightState)
        ensures
            !s.is_visible(),
    {
        SpotlightState { visible: false }
    }

    /// Whether the window is currently visible.
    pub closed spec fn spec_is_visible(&self) -> bool {
        self.visible
    }

    /// Whether the window is currently visible.
    #[verifier::when_used_as_spec(spec_is_visible)]
    pub fn is_visible(&self) -> (r: bool)
        ensures
            r == self.is_visible(),
    {
        self.visible
    }

    /// Records the window's visibility.
    pub fn set_visible(&mut self, visible: bool)
        ensures
            final(self).is_visible() == visible,
    {
        self.visible = visible;
    }
}

impl Default for SpotlightState {
    /// A fresh state: the window starts hidden.
    fn default() -> (s: SpotlightState)
        ensures
            !s.is_visible(),
    {
        SpotlightState::new()
    }
}

/// What one toggle of the quick-access window does.
#[derive(Debug, Clone, Copy, PartialEq, Eq, Structural)]
pub enum ToggleAction {
    /// No window exists yet: create it and show it.
    CreateAndShow,
    /// The window exists and is hidden: show it.
    Show,
    /// The window exists and is visible: hide it.
    Hide,
}

/// Decides what a toggle does: a missing window is created and shown, a
/// visible one hidden, a hidden one shown.
pub fn toggle_action(window_exists: bool, visible: bool) -> (r: ToggleAction)
    ensures
        r == (if !window_exists {
            ToggleAction::CreateAndShow
        } else if visible {
            ToggleAction::Hide
        } else {
            ToggleAction::Show
        }),
{
    if !window_exists {
        ToggleAction::CreateAndShow
    } else if visible {
        ToggleAction::Hide
    } else {
        ToggleAction::Show
    }
}

/// A width or height that does not fit shrinks to the monitor's edge rather
/// than underflowing.
pub open spec fn centered_coordinate(monitor_extent: u32, window_extent: u32) -> int {
    (if monitor_extent >= window_extent {
        monitor_extent - window_extent
    } else {
        0
    }) / 2
}

/// Where a window of the given physical size sits centered on a monitor of
/// the given physical size: the leftover space split evenly, never negative.
pub fn centered_position(
    monitor_width: u32,
    monitor_height: u32,
    window_width: u32,
    window_height: u32,
) -> (r: (i32, i32))
    ensures
        r.0 == centered_coordinate(monitor_width, window_width),
        r.1 == centered_coordinate(monitor_height, window_height),
{
    let x: u32 = (if monitor_width >= window_width {
        monitor_width - window_width
    } else {
        0
    }) / 2;
    let y: u32 = (if monitor_height >= window_height {
        monitor_height - window_height
    } else {
        0
    }) / 2;
    (x as i32, y as i32)
}

/// Marker for the platform whose window glue uses the native panel and
/// workspace interfaces.
#[derive(Debug, Clone, Copy, PartialEq, Eq, Structural)]
pub struct MacOSPlatform;

impl MacOSPlatform {
    /// Create a new macOS platform instance.
    pub fn new() -> (r: MacOSPlatform)
        ensures
            r == MacOSPlatform,
    {
        MacOSPlatform
    }
}

/// Marker for the platform-independent window glue.
#[derive(Debug, Clone, Copy, PartialEq, Eq, Structural)]
pub struct DefaultPlatform;

} // verus!
