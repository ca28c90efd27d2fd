//! The widget's settings and what follows from them at startup.

use vstd::prelude::*;
use vstd::string::*;

verus! {

/// Where the window stood and how large it was when it was last seen.
#[derive(Clone, Copy, Debug, PartialEq, Eq, Structural)]
pub struct WindowState {
    pub x: i32,
    pub y: i32,
    pub width: u32,
    pub height: u32,
}

impl Default for WindowState {
    fn default() -> (r: WindowState)
        ensures
            r == (WindowState { x: 0, y: 0, width: 0, height: 0 }),
    {
        WindowState { x: 0, y: 0, width: 0, height: 0 }
    }
}

/// What the user has chosen.
#[derive(Clone, Debug, PartialEq, Eq)]
pub struct AppSettings {
    pub position: String,
    pub opacity: u32,
    pub always_on_top: bool,
    pub always_on_back: bool,
    pub auto_start: bool,
    pub show_cpu_cores: bool,
    pub update_interval: u32,
    pub theme: String,
    pub compact_mode: bool,
    pub window_state: Option<WindowState>,
}

#[verifier::ext_equal]
pub struct AppSettingsView {
    pub position: Seq<char>,
    pub opacity: u32,
    pub always_on_top: bool,
    pub always_on_back: bool,
    pub auto_start: bool,
    pub show_cpu_cores: bool,
    pub update_interval: u32,
    pub theme: Seq<char>,
    pub compact_mode: bool,
    pub window_state: Option<WindowState>,
}

impl View for AppSettings {
    type V = AppSettingsView;

    open spec fn view(&self) -> AppSettingsView {
        AppSettingsView {
            position: self.position@,
            opacity: self.opacity,
            always_on_top: self.always_on_top,
            always_on_back: self.always_on_back,
            auto_start: self.auto_start,
            show_cpu_cores: self.show_cpu_cores,
            update_interval: self.update_interval,
            theme: self.theme@,
            compact_mode: self.compact_mode,
            window_state: self.window_state,
        }
    }
}

/// The settings of a fresh installation: docked right, nearly opaque, one
/// poll per second, theme by the system, everything optional switched off.
pub open spec fn default_settings() -> AppSettingsView {
    AppSettingsView {
        position: "right"@,
        opacity: 95,
        always_on_top: false,
        always_on_back: false,
        auto_start: false,
        show_cpu_cores: false,
        update_interval: 1000,
        theme: "auto"@,
        compact_mode: false,
        window_state: None,
    }
}

impl Default for AppSettings {
    fn default() -> (r: AppSettings)
        ensures
            r@ == default_settings(),
    {
        AppSettings {
            position: String::from_str("right"),
            opacity: 95,
            always_on_top: false,
            always_on_back: false,
            auto_start: false,
            show_cpu_cores: false,
            update_interval: 1000,
            theme: String::from_str("auto"),
            compact_mode: false,
            window_state: None,
        }
    }
}

/// The stacking of the window among the others.
#[derive(Clone, Copy, Debug, PartialEq, Eq, Structural)]
pub enum WindowLayer {
    /// Below every other window.
    Bottom,
    /// Above every other window.
    Top,
    /// Stacked like any window.
    Normal,
}

/// The stacking that the settings ask for: "always on back" wins over
/// "always on top".
pub open spec fn layer_of(settings: AppSettingsView) -> WindowLayer {
    if settings.always_on_back {
        WindowLayer::Bottom
    } else if settings.always_on_top {
        WindowLayer::Top
    } else {
        WindowLayer::Normal
    }
}

/// The stacking that the window gets at startup.
pub fn startup_layer(settings: &AppSettings) -> (r: WindowLayer)
    ensures
        r == layer_of(settings@),
{
    if settings.always_on_back {
        WindowLayer::Bottom
    } else if settings.always_on_top {
        WindowLayer::Top
    } else {
        WindowLayer::Normal
    }
}

/// The settings to start with: those that were loaded, or the defaults
/// where loading failed.
pub fn settings_or_default(loaded: Option<AppSettings>) -> (r: AppSettings)
    ensures
        r@ == match loaded {
            Some(settings) => settings@,
            None => default_settings(),
        },
{
    match loaded {
        Some(settings) => settings,
        None => AppSettings::default(),
    }
}

} // verus!
