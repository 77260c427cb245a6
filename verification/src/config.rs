//! Configuration values that hold no floating-point data: the weather
//! provider choice, the pixel-positioned widget layout, and the defaults the
//! configuration file falls back to.
use vstd::prelude::*;

verus! {

/// Which weather service to query.
#[derive(Debug, Clone, Copy, PartialEq, Eq, Structural, Default)]
pub enum WeatherProvider {
    /// Free, no API key needed. Uses open-meteo.com
    #[default]
    OpenMeteo,
    /// Requires an API key from openweathermap.org
    OpenWeatherMap,
}

/// The name shown for a provider in the settings.
pub open spec fn provider_label(p: WeatherProvider) -> Seq<char> {
    match p {
        WeatherProvider::OpenMeteo => "Open-Meteo (free)"@,
        WeatherProvider::OpenWeatherMap => "OpenWeatherMap (API key required)"@,
    }
}

impl WeatherProvider {
    /// The name shown for this provider in the settings.
    pub fn label(&self) -> (s: &'static str)
        ensures
            s@ == provider_label(*self),
    {
        match self {
            WeatherProvider::OpenMeteo => "Open-Meteo (free)",
            WeatherProvider::OpenWeatherMap => "OpenWeatherMap (API key required)",
        }
    }
}

} // verus!

verus! {

// ─── Pixel-positioned widget layout ─────────────────────────────────────────

/// Placement of one overlay widget, in pixels.
#[derive(Debug, Clone, Copy, PartialEq, Eq, Structural)]
pub struct WidgetConfig {
    pub enabled: bool,
    pub x: i32,
    pub y: i32,
    pub float_mode: bool,
}

/// Placement of the clock and calendar widgets.
#[derive(Debug, Clone, Copy, PartialEq, Eq, Structural)]
pub struct Widgets {
    pub clock: WidgetConfig,
    pub calendar: WidgetConfig,
}

/// The layout a fresh configuration starts with: both widgets shown, not
/// floating, the clock at (50, 50) and the calendar at (200, 50).
pub open spec fn default_layout() -> Widgets {
    Widgets {
        clock: WidgetConfig { enabled: true, x: 50, y: 50, float_mode: false },
        calendar: WidgetConfig { enabled: true, x: 200, y: 50, float_mode: false },
    }
}

impl Default for Widgets {
    fn default() -> (w: Widgets)
        ensures
            w == default_layout(),
    {
        Widgets {
            clock: WidgetConfig { enabled: true, x: 50, y: 50, float_mode: false },
            calendar: WidgetConfig { enabled: true, x: 200, y: 50, float_mode: false },
        }
    }
}

// ─── Defaults of optional configuration keys ─────────────────────────────────

/// Widgets are shown unless the file says otherwise.
pub fn default_widget_enabled() -> (b: bool)
    ensures
        b,
{
    true
}

/// The clock is shown unless the file says otherwise.
pub fn default_show_clock() -> (b: bool)
    ensures
        b,
{
    true
}

/// The clock shows seconds unless the file says otherwise.
pub fn default_clock_show_seconds() -> (b: bool)
    ensures
        b,
{
    true
}

/// Widgets drift unless the file says otherwise.
pub fn default_widget_float_mode() -> (b: bool)
    ensures
        b,
{
    true
}

/// The air-quality line is shown unless the file says otherwise.
pub fn default_show_aqi() -> (b: bool)
    ensures
        b,
{
    true
}

/// Weather is refreshed every fifteen minutes unless the file says otherwise.
pub fn default_refresh_minutes() -> (m: u32)
    ensures
        m == 15,
{
    15
}

/// Weather influences the galaxy unless the file says otherwise.
pub fn default_affect_galaxy() -> (b: bool)
    ensures
        b,
{
    true
}

// ─── Headless configurator choices ───────────────────────────────────────────

/// The value of `--set-autostart`: `Some(true)` for `on`, `Some(false)` for
/// `off`, `None` for anything else.
pub fn parse_autostart_mode(mode: &str) -> (r: Option<bool>)
    ensures
        r == (if mode@ == "on"@ {
            Some(true)
        } else if mode@ == "off"@ {
            Some(false)
        } else {
            None
        }),
{
    if crate::text::str_eq(mode, "on") {
        Some(true)
    } else if crate::text::str_eq(mode, "off") {
        Some(false)
    } else {
        None
    }
}

/// The change `--apply <name>` makes to a default configuration.
#[derive(Debug, Clone, Copy, PartialEq, Eq, Structural)]
pub enum HeadlessPreset {
    /// `widget-off`: hide the clock and switch the widget overlay off.
    WidgetOff,
    /// `widget-on`: show the clock and switch the widget overlay on.
    WidgetOn,
    /// Any other name: double the planet speed.
    FastPlanets,
}

/// Which change `--apply <name>` makes.
pub fn headless_preset(name: &str) -> (p: HeadlessPreset)
    ensures
        p == (if name@ == "widget-off"@ {
            HeadlessPreset::WidgetOff
        } else if name@ == "widget-on"@ {
            HeadlessPreset::WidgetOn
        } else {
            HeadlessPreset::FastPlanets
        }),
{
    if crate::text::str_eq(name, "widget-off") {
        HeadlessPreset::WidgetOff
    } else if crate::text::str_eq(name, "widget-on") {
        HeadlessPreset::WidgetOn
    } else {
        HeadlessPreset::FastPlanets
    }
}

impl HeadlessPreset {
    /// The clock visibility and overlay switch this preset sets, if it sets them.
    pub fn widget_switch(&self) -> (r: Option<bool>)
        ensures
            r == (match *self {
                HeadlessPreset::WidgetOff => Some(false),
                HeadlessPreset::WidgetOn => Some(true),
                HeadlessPreset::FastPlanets => None::<bool>,
            }),
    {
        match self {
            HeadlessPreset::WidgetOff => Some(false),
            HeadlessPreset::WidgetOn => Some(true),
            HeadlessPreset::FastPlanets => None,
        }
    }
}

} // verus!
