//! Weather conditions, air-quality levels, and the decisions the weather
//! feature makes around fetching and displaying them.
use vstd::prelude::*;
use crate::config::WeatherProvider;
use crate::text::{decimal, push_decimal, trim, trim_str};

verus! {

/// A coarse weather condition, as shown by the overlay widgets.
#[derive(Debug, Clone, Copy, PartialEq, Eq, Structural, Default)]
pub enum WeatherCondition {
    Clear,
    PartlyCloudy,
    Cloudy,
    Overcast,
    Fog,
    Drizzle,
    Rain,
    HeavyRain,
    Thunderstorm,
    Snow,
    #[default]
    Unknown,
}

/// The condition assigned to a WMO weather interpretation code.
pub open spec fn wmo_condition(code: u16) -> WeatherCondition {
    if code == 0 {
        WeatherCondition::Clear
    } else if code == 1 {
        WeatherCondition::PartlyCloudy
    } else if code == 2 {
        WeatherCondition::Cloudy
    } else if code == 3 {
        WeatherCondition::Overcast
    } else if code == 45 || code == 48 {
        WeatherCondition::Fog
    } else if code == 51 || code == 53 || code == 55 || code == 56 || code == 57 {
        WeatherCondition::Drizzle
    } else if code == 61 || code == 63 || code == 80 || code == 81 {
        WeatherCondition::Rain
    } else if code == 65 || code == 82 {
        WeatherCondition::HeavyRain
    } else if code == 66 || code == 67 || code == 71 || code == 73 || code == 75 || code == 77
        || code == 85 || code == 86 {
        WeatherCondition::Snow
    } else if code == 95 || code == 96 || code == 99 {
        WeatherCondition::Thunderstorm
    } else {
        WeatherCondition::Unknown
    }
}

/// The condition assigned to an OpenWeatherMap condition id.
pub open spec fn owm_condition(id: u16) -> WeatherCondition {
    if 200 <= id <= 232 {
        WeatherCondition::Thunderstorm
    } else if 300 <= id <= 321 {
        WeatherCondition::Drizzle
    } else if 500 <= id <= 501 {
        WeatherCondition::Rain
    } else if 502 <= id <= 531 {
        WeatherCondition::HeavyRain
    } else if 600 <= id <= 622 {
        WeatherCondition::Snow
    } else if 700 <= id <= 781 {
        WeatherCondition::Fog
    } else if id == 800 {
        WeatherCondition::Clear
    } else if id == 801 {
        WeatherCondition::PartlyCloudy
    } else if id == 802 {
        WeatherCondition::Cloudy
    } else if id == 803 || id == 804 {
        WeatherCondition::Overcast
    } else {
        WeatherCondition::Unknown
    }
}

/// The short symbol drawn for a condition.
pub open spec fn condition_icon(c: WeatherCondition) -> Seq<char> {
    match c {
        WeatherCondition::Clear => "\u{2600}"@,
        WeatherCondition::PartlyCloudy => "\u{26C5}"@,
        WeatherCondition::Cloudy => "\u{2601}"@,
        WeatherCondition::Overcast => "\u{2601}"@,
        WeatherCondition::Fog => "~"@,
        WeatherCondition::Drizzle => "~\u{00B7}"@,
        WeatherCondition::Rain => "//"@,
        WeatherCondition::HeavyRain => "///"@,
        WeatherCondition::Thunderstorm => "\u{26A1}"@,
        WeatherCondition::Snow => "*"@,
        WeatherCondition::Unknown => "?"@,
    }
}

/// The human-readable name of a condition.
pub open spec fn condition_label(c: WeatherCondition) -> Seq<char> {
    match c {
        WeatherCondition::Clear => "Clear"@,
        WeatherCondition::PartlyCloudy => "Partly Cloudy"@,
        WeatherCondition::Cloudy => "Cloudy"@,
        WeatherCondition::Overcast => "Overcast"@,
        WeatherCondition::Fog => "Fog"@,
        WeatherCondition::Drizzle => "Drizzle"@,
        WeatherCondition::Rain => "Rain"@,
        WeatherCondition::HeavyRain => "Heavy Rain"@,
        WeatherCondition::Thunderstorm => "Thunderstorm"@,
        WeatherCondition::Snow => "Snow"@,
        WeatherCondition::Unknown => "Unknown"@,
    }
}

impl WeatherCondition {
    /// The short symbol drawn for this condition.
    pub fn icon(&self) -> (s: &'static str)
        ensures
            s@ == condition_icon(*self),
    {
        match self {
            WeatherCondition::Clear => "\u{2600}",
            WeatherCondition::PartlyCloudy => "\u{26C5}",
            WeatherCondition::Cloudy => "\u{2601}",
            WeatherCondition::Overcast => "\u{2601}",
            WeatherCondition::Fog => "~",
            WeatherCondition::Drizzle => "~\u{00B7}",
            WeatherCondition::Rain => "//",
            WeatherCondition::HeavyRain => "///",
            WeatherCondition::Thunderstorm => "\u{26A1}",
            WeatherCondition::Snow => "*",
            WeatherCondition::Unknown => "?",
        }
    }

    /// The human-readable name of this condition.
    pub fn label(&self) -> (s: &'static str)
        ensures
            s@ == condition_label(*self),
    {
        match self {
            WeatherCondition::Clear => "Clear",
            WeatherCondition::PartlyCloudy => "Partly Cloudy",
            WeatherCondition::Cloudy => "Cloudy",
            WeatherCondition::Overcast => "Overcast",
            WeatherCondition::Fog => "Fog",
            WeatherCondition::Drizzle => "Drizzle",
            WeatherCondition::Rain => "Rain",
            WeatherCondition::HeavyRain => "Heavy Rain",
            WeatherCondition::Thunderstorm => "Thunderstorm",
            WeatherCondition::Snow => "Snow",
            WeatherCondition::Unknown => "Unknown",
        }
    }

    /// Map a WMO weather interpretation code to a condition.
    pub fn from_wmo(code: u16) -> (c: WeatherCondition)
        ensures
            c == wmo_condition(code),
    {
        match code {
            0 => WeatherCondition::Clear,
            1 => WeatherCondition::PartlyCloudy,
            2 => WeatherCondition::Cloudy,
            3 => WeatherCondition::Overcast,
            45 | 48 => WeatherCondition::Fog,
            51 | 53 | 55 | 56 | 57 => WeatherCondition::Drizzle,
            61 | 63 | 80 | 81 => WeatherCondition::Rain,
            65 | 82 => WeatherCondition::HeavyRain,
            66 | 67 | 71 | 73 | 75 | 77 | 85 | 86 => WeatherCondition::Snow,
            95 | 96 | 99 => WeatherCondition::Thunderstorm,
            _ => WeatherCondition::Unknown,
        }
    }

    /// Map an OpenWeatherMap condition id to a condition.
    pub fn from_owm(id: u16) -> (c: WeatherCondition)
        ensures
            c == owm_condition(id),
    {
        if 200 <= id && id <= 232 {
            WeatherCondition::Thunderstorm
        } else if 300 <= id && id <= 321 {
            WeatherCondition::Drizzle
        } else if 500 <= id && id <= 501 {
            WeatherCondition::Rain
        } else if 502 <= id && id <= 531 {
            WeatherCondition::HeavyRain
        } else if 600 <= id && id <= 622 {
            WeatherCondition::Snow
        } else if 700 <= id && id <= 781 {
            WeatherCondition::Fog
        } else if id == 800 {
            WeatherCondition::Clear
        } else if id == 801 {
            WeatherCondition::PartlyCloudy
        } else if id == 802 {
            WeatherCondition::Cloudy
        } else if id == 803 || id == 804 {
            WeatherCondition::Overcast
        } else {
            WeatherCondition::Unknown
        }
    }
}

/// The WMO weather interpretation table: each condition comes from exactly
/// these codes, and every other code is unknown.
pub proof fn lemma_wmo_table(code: u16)
    ensures
        wmo_condition(code) == WeatherCondition::Clear <==> code == 0,
        wmo_condition(code) == WeatherCondition::PartlyCloudy <==> code == 1,
        wmo_condition(code) == WeatherCondition::Cloudy <==> code == 2,
        wmo_condition(code) == WeatherCondition::Overcast <==> code == 3,
        wmo_condition(code) == WeatherCondition::Fog <==> (code == 45 || code == 48),
        wmo_condition(code) == WeatherCondition::Drizzle <==> (code == 51 || code == 53 || code
            == 55 || code == 56 || code == 57),
        wmo_condition(code) == WeatherCondition::Rain <==> (code == 61 || code == 63 || code == 80
            || code == 81),
        wmo_condition(code) == WeatherCondition::HeavyRain <==> (code == 65 || code == 82),
        wmo_condition(code) == WeatherCondition::Snow <==> (code == 66 || code == 67 || code == 71
            || code == 73 || code == 75 || code == 77 || code == 85 || code == 86),
        wmo_condition(code) == WeatherCondition::Thunderstorm <==> (code == 95 || code == 96 || code
            == 99),
        wmo_condition(code) == WeatherCondition::Unknown <==> !(code <= 3 || code == 45 || code
            == 48 || (51 <= code <= 57 && code != 52 && code != 54) || code == 61 || code == 63
            || code == 65 || code == 66 || code == 67 || code == 71 || code == 73 || code == 75
            || code == 77 || (80 <= code <= 82) || code == 85 || code == 86 || code == 95 || code
            == 96 || code == 99),
{
}

/// The OpenWeatherMap condition groups: each condition comes from exactly
/// these id ranges, and ids outside all groups are unknown.
pub proof fn lemma_owm_groups(id: u16)
    ensures
        owm_condition(id) == WeatherCondition::Thunderstorm <==> 200 <= id <= 232,
        owm_condition(id) == WeatherCondition::Drizzle <==> 300 <= id <= 321,
        owm_condition(id) == WeatherCondition::Rain <==> 500 <= id <= 501,
        owm_condition(id) == WeatherCondition::HeavyRain <==> 502 <= id <= 531,
        owm_condition(id) == WeatherCondition::Snow <==> 600 <= id <= 622,
        owm_condition(id) == WeatherCondition::Fog <==> 700 <= id <= 781,
        owm_condition(id) == WeatherCondition::Clear <==> id == 800,
        owm_condition(id) == WeatherCondition::PartlyCloudy <==> id == 801,
        owm_condition(id) == WeatherCondition::Cloudy <==> id == 802,
        owm_condition(id) == WeatherCondition::Overcast <==> (id == 803 || id == 804),
        owm_condition(id) == WeatherCondition::Unknown <==> !(200 <= id <= 232 || 300 <= id <= 321
            || 500 <= id <= 531 || 600 <= id <= 622 || 700 <= id <= 781 || 800 <= id <= 804),
{
}

/// Each condition has its own label, the condition's name: no two
/// conditions share one.
pub proof fn lemma_labels_name_their_conditions(c1: WeatherCondition, c2: WeatherCondition)
    ensures
        condition_label(c1) == condition_label(c2) ==> c1 == c2,
        condition_label(WeatherCondition::Clear) == "Clear"@,
        condition_label(WeatherCondition::PartlyCloudy) == "Partly Cloudy"@,
        condition_label(WeatherCondition::Cloudy) == "Cloudy"@,
        condition_label(WeatherCondition::Overcast) == "Overcast"@,
        condition_label(WeatherCondition::Fog) == "Fog"@,
        condition_label(WeatherCondition::Drizzle) == "Drizzle"@,
        condition_label(WeatherCondition::Rain) == "Rain"@,
        condition_label(WeatherCondition::HeavyRain) == "Heavy Rain"@,
        condition_label(WeatherCondition::Thunderstorm) == "Thunderstorm"@,
        condition_label(WeatherCondition::Snow) == "Snow"@,
        condition_label(WeatherCondition::Unknown) == "Unknown"@,
{
    reveal_strlit("Clear");
    reveal_strlit("Partly Cloudy");
    reveal_strlit("Cloudy");
    reveal_strlit("Overcast");
    reveal_strlit("Fog");
    reveal_strlit("Drizzle");
    reveal_strlit("Rain");
    reveal_strlit("Heavy Rain");
    reveal_strlit("Thunderstorm");
    reveal_strlit("Snow");
    reveal_strlit("Unknown");
    if condition_label(c1) == condition_label(c2) {
        let l1 = condition_label(c1);
        let l2 = condition_label(c2);
        assert(l1.len() == l2.len() && l1[0] == l2[0] && l1[1] == l2[1]);
    }
}

// ─── Air quality ─────────────────────────────────────────────────────────────

/// US EPA air-quality category.
#[derive(Debug, Clone, Copy, PartialEq, Eq, Structural, Default)]
pub enum AqiLevel {
    #[default]
    Good,
    Moderate,
    UnhealthySensitive,
    Unhealthy,
    VeryUnhealthy,
    Hazardous,
}

/// The category of a US AQI value.
pub open spec fn aqi_level(aqi: u32) -> AqiLevel {
    if aqi <= 50 {
        AqiLevel::Good
    } else if aqi <= 100 {
        AqiLevel::Moderate
    } else if aqi <= 150 {
        AqiLevel::UnhealthySensitive
    } else if aqi <= 200 {
        AqiLevel::Unhealthy
    } else if aqi <= 300 {
        AqiLevel::VeryUnhealthy
    } else {
        AqiLevel::Hazardous
    }
}

/// The human-readable name of an air-quality category.
pub open spec fn aqi_label(l: AqiLevel) -> Seq<char> {
    match l {
        AqiLevel::Good => "Good"@,
        AqiLevel::Moderate => "Moderate"@,
        AqiLevel::UnhealthySensitive => "Unhealthy(S)"@,
        AqiLevel::Unhealthy => "Unhealthy"@,
        AqiLevel::VeryUnhealthy => "Very Unhealthy"@,
        AqiLevel::Hazardous => "Hazardous"@,
    }
}

/// The US EPA breakpoints: each category covers exactly its closed range
/// of AQI values.
pub proof fn lemma_aqi_breakpoints(aqi: u32)
    ensures
        aqi_level(aqi) == AqiLevel::Good <==> aqi <= 50,
        aqi_level(aqi) == AqiLevel::Moderate <==> 51 <= aqi <= 100,
        aqi_level(aqi) == AqiLevel::UnhealthySensitive <==> 101 <= aqi <= 150,
        aqi_level(aqi) == AqiLevel::Unhealthy <==> 151 <= aqi <= 200,
        aqi_level(aqi) == AqiLevel::VeryUnhealthy <==> 201 <= aqi <= 300,
        aqi_level(aqi) == AqiLevel::Hazardous <==> 301 <= aqi,
{
}

impl AqiLevel {
    /// The category of a US AQI value.
    pub fn from_index(aqi: u32) -> (l: AqiLevel)
        ensures
            l == aqi_level(aqi),
    {
        if aqi <= 50 {
            AqiLevel::Good
        } else if aqi <= 100 {
            AqiLevel::Moderate
        } else if aqi <= 150 {
            AqiLevel::UnhealthySensitive
        } else if aqi <= 200 {
            AqiLevel::Unhealthy
        } else if aqi <= 300 {
            AqiLevel::VeryUnhealthy
        } else {
            AqiLevel::Hazardous
        }
    }

    /// The human-readable name of this category.
    pub fn label(&self) -> (s: &'static str)
        ensures
            s@ == aqi_label(*self),
    {
        match self {
            AqiLevel::Good => "Good",
            AqiLevel::Moderate => "Moderate",
            AqiLevel::UnhealthySensitive => "Unhealthy(S)",
            AqiLevel::Unhealthy => "Unhealthy",
            AqiLevel::VeryUnhealthy => "Very Unhealthy",
            AqiLevel::Hazardous => "Hazardous",
        }
    }
}

/// The US AQI value that stands for an OpenWeatherMap air-quality index
/// (1–5): the midpoint of the matching US category; 5 and anything else
/// read as 250.
pub open spec fn owm_us_aqi(owm: u32) -> u32 {
    if owm == 1 {
        25
    } else if owm == 2 {
        75
    } else if owm == 3 {
        125
    } else if owm == 4 {
        175
    } else {
        250
    }
}

/// Convert an OpenWeatherMap air-quality index (1–5) into a US AQI value.
pub fn owm_aqi_to_us(owm: u32) -> (us: u32)
    ensures
        us == owm_us_aqi(owm),
{
    match owm {
        1 => 25,
        2 => 75,
        3 => 125,
        4 => 175,
        _ => 250,
    }
}

/// Each OpenWeatherMap index lands in the US category of the same rank.
pub proof fn lemma_owm_index_keeps_rank(owm: u32)
    ensures
        aqi_level(owm_us_aqi(owm)) == (if owm == 1 {
            AqiLevel::Good
        } else if owm == 2 {
            AqiLevel::Moderate
        } else if owm == 3 {
            AqiLevel::UnhealthySensitive
        } else if owm == 4 {
            AqiLevel::Unhealthy
        } else {
            AqiLevel::VeryUnhealthy
        }),
{
}

/// The AQI line of the weather widget: `AQI <value>  <category>`.
pub open spec fn aqi_line_text(aqi: u32, level: AqiLevel) -> Seq<char> {
    "AQI "@ + decimal(aqi as nat) + "  "@ + aqi_label(level)
}

/// Write the AQI line of the weather widget.
pub fn aqi_line(aqi: u32, level: AqiLevel) -> (s: String)
    ensures
        s@ == aqi_line_text(aqi, level),
{
    let mut s = String::from_str("AQI ");
    push_decimal(&mut s, aqi as u64);
    s.append("  ");
    s.append(level.label());
    s
}

// ─── Visual influence flags ──────────────────────────────────────────────────

/// The on/off visual effects that a condition switches on in the galaxy.
#[derive(Debug, Clone, Copy, PartialEq, Eq, Structural)]
pub struct WeatherEffects {
    /// Tint rain meteors ice-blue.
    pub rain_meteor_tint: bool,
    /// Tint snow meteors pure white.
    pub snow_tint: bool,
    /// Occasionally fire a bright random pulse flash (thunder).
    pub thunder_pulses: bool,
}

impl WeatherEffects {
    /// The effects a condition switches on: rain tint for drizzle, rain,
    /// heavy rain and thunderstorms; snow tint for snow; thunder pulses for
    /// thunderstorms only.
    pub fn from_condition(cond: &WeatherCondition) -> (e: WeatherEffects)
        ensures
            e.rain_meteor_tint == (*cond == WeatherCondition::Drizzle || *cond
                == WeatherCondition::Rain || *cond == WeatherCondition::HeavyRain || *cond
                == WeatherCondition::Thunderstorm),
            e.snow_tint == (*cond == WeatherCondition::Snow),
            e.thunder_pulses == (*cond == WeatherCondition::Thunderstorm),
    {
        match cond {
            WeatherCondition::Drizzle | WeatherCondition::Rain | WeatherCondition::HeavyRain => {
                WeatherEffects { rain_meteor_tint: true, snow_tint: false, thunder_pulses: false }
            },
            WeatherCondition::Thunderstorm => WeatherEffects {
                rain_meteor_tint: true,
                snow_tint: false,
                thunder_pulses: true,
            },
            WeatherCondition::Snow => WeatherEffects {
                rain_meteor_tint: false,
                snow_tint: true,
                thunder_pulses: false,
            },
            _ => WeatherEffects { rain_meteor_tint: false, snow_tint: false, thunder_pulses: false },
        }
    }
}

// ─── Fetch decisions ─────────────────────────────────────────────────────────

/// Which request the weather poller makes.
#[derive(Debug, Clone, Copy, PartialEq, Eq, Structural)]
pub enum FetchPlan {
    /// Query the free Open-Meteo service.
    OpenMeteo,
    /// Query OpenWeatherMap with the configured key.
    OpenWeatherMap,
    /// OpenWeatherMap is chosen but no key is set: report an error instead.
    MissingApiKey,
}

/// Decide which request to make for a provider and API key: OpenWeatherMap
/// is only queried with a key that is not blank.
pub fn fetch_plan(provider: &WeatherProvider, api_key: &str) -> (p: FetchPlan)
    ensures
        *provider == WeatherProvider::OpenMeteo ==> p == FetchPlan::OpenMeteo,
        *provider == WeatherProvider::OpenWeatherMap ==> p == (if trim(api_key@).len() == 0 {
            FetchPlan::MissingApiKey
        } else {
            FetchPlan::OpenWeatherMap
        }),
{
    match provider {
        WeatherProvider::OpenMeteo => FetchPlan::OpenMeteo,
        WeatherProvider::OpenWeatherMap => {
            if trim_str(api_key).unicode_len() == 0 {
                FetchPlan::MissingApiKey
            } else {
                FetchPlan::OpenWeatherMap
            }
        },
    }
}

/// The message reported when OpenWeatherMap has no key.
pub fn missing_api_key_message() -> (s: String)
    ensures
        s@ == "OpenWeatherMap API key not set"@,
{
    String::from_str("OpenWeatherMap API key not set")
}

/// Seconds the poller sleeps between fetches: the configured minutes, but
/// never fewer than five.
pub fn refresh_interval_secs(refresh_minutes: u32) -> (secs: u64)
    ensures
        secs == (if refresh_minutes < 5 {
            5
        } else {
            refresh_minutes
        }) * 60,
        secs >= 300,
{
    let m: u64 = if refresh_minutes < 5 {
        5
    } else {
        refresh_minutes as u64
    };
    m * 60
}

} // verus!
