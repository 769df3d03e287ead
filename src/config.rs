//! The persisted user settings: window placement and the user toggles.
use vstd::prelude::*;

verus! {

#[derive(Clone, Copy, Debug, PartialEq, Eq, Structural)]
pub struct WindowPosition {
    pub x: i32,
    pub y: i32,
}

#[derive(Clone, Copy, Debug, PartialEq, Eq, Structural)]
pub struct AppConfig {
    pub window_position: WindowPosition,
    pub mouse_through: bool,
    pub auto_accept: bool,
    pub auto_hide: bool,
    pub window_visible: bool,
}

/// Settings used when none were persisted or they cannot be read: the
/// window near the top right corner, clicks passing through it, automatic
/// acceptance on, automatic hiding off, the window shown.
pub open spec fn default_config() -> AppConfig {
    AppConfig {
        window_position: WindowPosition { x: -400i32, y: 0i32 },
        mouse_through: true,
        auto_accept: true,
        auto_hide: false,
        window_visible: true,
    }
}

impl Default for AppConfig {
    fn default() -> (r: AppConfig)
        ensures
            r == default_config(),
    {
        AppConfig {
            window_position: WindowPosition { x: -400, y: 0 },
            mouse_through: true,
            auto_accept: true,
            auto_hide: false,
            window_visible: true,
        }
    }
}

impl AppConfig {
    pub fn update_window_position(&mut self, x: i32, y: i32)
        ensures
            *final(self) == (AppConfig { window_position: WindowPosition { x, y }, ..*old(self) }),
    {
        self.window_position = WindowPosition { x, y };
    }

    pub fn update_mouse_through(&mut self, enabled: bool)
        ensures
            *final(self) == (AppConfig { mouse_through: enabled, ..*old(self) }),
    {
        self.mouse_through = enabled;
    }

    pub fn update_auto_accept(&mut self, enabled: bool)
        ensures
            *final(self) == (AppConfig { auto_accept: enabled, ..*old(self) }),
    {
        self.auto_accept = enabled;
    }

    pub fn update_window_visible(&mut self, visible: bool)
        ensures
            *final(self) == (AppConfig { window_visible: visible, ..*old(self) }),
    {
        self.window_visible = visible;
    }

    pub fn update_auto_hide(&mut self, enabled: bool)
        ensures
            *final(self) == (AppConfig { auto_hide: enabled, ..*old(self) }),
    {
        self.auto_hide = enabled;
    }
}

} // verus!
