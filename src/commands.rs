//! What the user interface may read and change in the shared state.
use vstd::prelude::*;
use vstd::string::*;
use crate::client::SummonerInfo;
use crate::config::{AppConfig, WindowPosition};
use crate::state::AppState;

verus! {

/// A copy of the state that the user interface shows.
pub struct AppSnapshot {
    pub mouse_through: bool,
    pub auto_accept: bool,
    pub auto_hide: bool,
    pub gameflow_phase: String,
    pub lcu_connected: bool,
    pub summoner_info: Option<SummonerInfo>,
}

/// Reads the whole state at once.
pub fn get_app_state(state: &AppState) -> (r: AppSnapshot)
    ensures
        r.mouse_through == state.mouse_through,
        r.auto_accept == state.auto_accept,
        r.auto_hide == state.auto_hide,
        r.gameflow_phase@ == state.gameflow_phase@,
        r.lcu_connected == state.lcu_auth is Some,
        r.summoner_info == state.summoner_info,
{
    let summoner_info = match &state.summoner_info {
        Some(s) => Some(s.duplicate()),
        None => None,
    };
    AppSnapshot {
        mouse_through: state.mouse_through,
        auto_accept: state.auto_accept,
        auto_hide: state.auto_hide,
        gameflow_phase: state.gameflow_phase.clone(),
        lcu_connected: state.lcu_auth.is_some(),
        summoner_info,
    }
}

pub open spec fn auto_accept_message(enabled: bool) -> Seq<char> {
    if enabled {
        "自动接受已开启"@
    } else {
        "自动接受已关闭"@
    }
}

pub open spec fn window_position_message() -> Seq<char> {
    "窗口位置已保存"@
}

pub open spec fn window_visible_message(visible: bool) -> Seq<char> {
    if visible {
        "窗口可见性已保存: true"@
    } else {
        "窗口可见性已保存: false"@
    }
}

/// Turns automatic acceptance on or off, in the state and in the settings.
pub fn set_auto_accept(state: &mut AppState, enabled: bool) -> (r: Result<String, String>)
    requires
        old(state).wf(),
    ensures
        final(state).wf(),
        *final(state) == (AppState {
            auto_accept: enabled,
            config: AppConfig { auto_accept: enabled, ..old(state).config },
            ..*old(state)
        }),
        r is Ok,
        r->Ok_0@ == auto_accept_message(enabled),
{
    state.auto_accept = enabled;
    state.config.update_auto_accept(enabled);
    if enabled {
        Ok(String::from_str("自动接受已开启"))
    } else {
        Ok(String::from_str("自动接受已关闭"))
    }
}

/// Records where the window stands.
pub fn save_window_position(state: &mut AppState, x: i32, y: i32) -> (r: Result<String, String>)
    requires
        old(state).wf(),
    ensures
        final(state).wf(),
        *final(state) == (AppState {
            config: AppConfig { window_position: WindowPosition { x, y }, ..old(state).config },
            ..*old(state)
        }),
        r is Ok,
        r->Ok_0@ == window_position_message(),
{
    state.config.update_window_position(x, y);
    Ok(String::from_str("窗口位置已保存"))
}

/// Records whether the window is shown.
pub fn save_window_visible(state: &mut AppState, visible: bool) -> (r: Result<String, String>)
    requires
        old(state).wf(),
    ensures
        final(state).wf(),
        *final(state) == (AppState {
            config: AppConfig { window_visible: visible, ..old(state).config },
            ..*old(state)
        }),
        r is Ok,
        r->Ok_0@ == window_visible_message(visible),
{
    state.config.update_window_visible(visible);
    if visible {
        Ok(String::from_str("窗口可见性已保存: true"))
    } else {
        Ok(String::from_str("窗口可见性已保存: false"))
    }
}

impl AppState {
    /// Flips whether clicks pass through the window; returns the new value.
    pub fn toggle_mouse_through(&mut self) -> (r: bool)
        requires
            old(self).wf(),
        ensures
            final(self).wf(),
            r == !old(self).mouse_through,
            *final(self) == (AppState {
                mouse_through: r,
                config: AppConfig { mouse_through: r, ..old(self).config },
                ..*old(self)
            }),
    {
        let enabled = !self.mouse_through;
        self.mouse_through = enabled;
        self.config.update_mouse_through(enabled);
        enabled
    }

    /// Flips automatic acceptance; returns the new value.
    pub fn toggle_auto_accept(&mut self) -> (r: bool)
        requires
            old(self).wf(),
        ensures
            final(self).wf(),
            r == !old(self).auto_accept,
            *final(self) == (AppState {
                auto_accept: r,
                config: AppConfig { auto_accept: r, ..old(self).config },
                ..*old(self)
            }),
    {
        let enabled = !self.auto_accept;
        self.auto_accept = enabled;
        self.config.update_auto_accept(enabled);
        enabled
    }

    /// Flips automatic hiding; returns the new value.
    pub fn toggle_auto_hide(&mut self) -> (r: bool)
        requires
            old(self).wf(),
        ensures
            final(self).wf(),
            r == !old(self).auto_hide,
            *final(self) == (AppState {
                auto_hide: r,
                config: AppConfig { auto_hide: r, ..old(self).config },
                ..*old(self)
            }),
    {
        let enabled = !self.auto_hide;
        self.auto_hide = enabled;
        self.config.update_auto_hide(enabled);
        enabled
    }

    /// Asks the loop to stop at its next wake-up.
    pub fn request_stop(&mut self)
        ensures
            *final(self) == (AppState { is_running: false, ..*old(self) }),
    {
        self.is_running = false;
    }
}

} // verus!
