use oled_wallpaper::config::WeatherProvider;
use oled_wallpaper::weather::{
    aqi_line, fetch_plan, missing_api_key_message, owm_aqi_to_us, refresh_interval_secs,
    AqiLevel, FetchPlan, WeatherCondition, WeatherEffects,
};
use oled_wallpaper::widgets::condition_icon_text;

#[test]
fn all_condition_icons_are_non_empty() {
    let conditions = [
        WeatherCondition::Clear,
        WeatherCondition::PartlyCloudy,
        WeatherCondition::Cloudy,
        WeatherCondition::Overcast,
        WeatherCondition::Fog,
        WeatherCondition::Drizzle,
        WeatherCondition::Rain,
        WeatherCondition::HeavyRain,
        WeatherCondition::Thunderstorm,
        WeatherCondition::Snow,
        WeatherCondition::Unknown,
    ];
    for cond in conditions {
        let icon = condition_icon_text(cond.clone());
        assert!(!icon.is_empty(), "icon for {cond:?} is empty");
    }
}

#[test]
fn wmo_codes_map_to_conditions() {
    assert_eq!(WeatherCondition::from_wmo(0), WeatherCondition::Clear);
    assert_eq!(WeatherCondition::from_wmo(1), WeatherCondition::PartlyCloudy);
    assert_eq!(WeatherCondition::from_wmo(2), WeatherCondition::Cloudy);
    assert_eq!(WeatherCondition::from_wmo(3), WeatherCondition::Overcast);
    assert_eq!(WeatherCondition::from_wmo(48), WeatherCondition::Fog);
    assert_eq!(WeatherCondition::from_wmo(57), WeatherCondition::Drizzle);
    assert_eq!(WeatherCondition::from_wmo(81), WeatherCondition::Rain);
    assert_eq!(WeatherCondition::from_wmo(82), WeatherCondition::HeavyRain);
    assert_eq!(WeatherCondition::from_wmo(86), WeatherCondition::Snow);
    assert_eq!(WeatherCondition::from_wmo(99), WeatherCondition::Thunderstorm);
    assert_eq!(WeatherCondition::from_wmo(4), WeatherCondition::Unknown);
    assert_eq!(WeatherCondition::from_wmo(u16::MAX), WeatherCondition::Unknown);
}

#[test]
fn owm_ids_map_to_conditions() {
    assert_eq!(WeatherCondition::from_owm(200), WeatherCondition::Thunderstorm);
    assert_eq!(WeatherCondition::from_owm(232), WeatherCondition::Thunderstorm);
    assert_eq!(WeatherCondition::from_owm(321), WeatherCondition::Drizzle);
    assert_eq!(WeatherCondition::from_owm(501), WeatherCondition::Rain);
    assert_eq!(WeatherCondition::from_owm(502), WeatherCondition::HeavyRain);
    assert_eq!(WeatherCondition::from_owm(622), WeatherCondition::Snow);
    assert_eq!(WeatherCondition::from_owm(741), WeatherCondition::Fog);
    assert_eq!(WeatherCondition::from_owm(800), WeatherCondition::Clear);
    assert_eq!(WeatherCondition::from_owm(801), WeatherCondition::PartlyCloudy);
    assert_eq!(WeatherCondition::from_owm(802), WeatherCondition::Cloudy);
    assert_eq!(WeatherCondition::from_owm(804), WeatherCondition::Overcast);
    assert_eq!(WeatherCondition::from_owm(805), WeatherCondition::Unknown);
    assert_eq!(WeatherCondition::from_owm(233), WeatherCondition::Unknown);
}

#[test]
fn condition_labels_and_icons() {
    assert_eq!(WeatherCondition::HeavyRain.label(), "Heavy Rain");
    assert_eq!(WeatherCondition::PartlyCloudy.label(), "Partly Cloudy");
    assert_eq!(WeatherCondition::Clear.icon(), "\u{2600}");
    assert_eq!(WeatherCondition::Drizzle.icon(), "~\u{00B7}");
    assert_eq!(WeatherCondition::default(), WeatherCondition::Unknown);
}

#[test]
fn aqi_levels_follow_epa_breakpoints() {
    assert_eq!(AqiLevel::from_index(0), AqiLevel::Good);
    assert_eq!(AqiLevel::from_index(50), AqiLevel::Good);
    assert_eq!(AqiLevel::from_index(51), AqiLevel::Moderate);
    assert_eq!(AqiLevel::from_index(150), AqiLevel::UnhealthySensitive);
    assert_eq!(AqiLevel::from_index(200), AqiLevel::Unhealthy);
    assert_eq!(AqiLevel::from_index(300), AqiLevel::VeryUnhealthy);
    assert_eq!(AqiLevel::from_index(301), AqiLevel::Hazardous);
    assert_eq!(AqiLevel::UnhealthySensitive.label(), "Unhealthy(S)");
}

#[test]
fn owm_index_keeps_its_rank() {
    assert_eq!(owm_aqi_to_us(1), 25);
    assert_eq!(AqiLevel::from_index(owm_aqi_to_us(1)), AqiLevel::Good);
    assert_eq!(AqiLevel::from_index(owm_aqi_to_us(2)), AqiLevel::Moderate);
    assert_eq!(AqiLevel::from_index(owm_aqi_to_us(3)), AqiLevel::UnhealthySensitive);
    assert_eq!(AqiLevel::from_index(owm_aqi_to_us(4)), AqiLevel::Unhealthy);
    assert_eq!(AqiLevel::from_index(owm_aqi_to_us(5)), AqiLevel::VeryUnhealthy);
    assert_eq!(owm_aqi_to_us(0), 250);
}

#[test]
fn aqi_line_shows_value_and_level() {
    assert_eq!(aqi_line(45, AqiLevel::Good), "AQI 45  Good");
    assert_eq!(aqi_line(0, AqiLevel::Good), "AQI 0  Good");
    assert_eq!(aqi_line(4294967295, AqiLevel::Hazardous), "AQI 4294967295  Hazardous");
}

#[test]
fn aqi_text_shows_level() {
    let t = aqi_line(45, AqiLevel::Good);
    assert!(t.contains("45"), "expected AQI value in: {t}");
    assert!(t.contains("Good"), "expected level in: {t}");
}

#[test]
fn rain_sets_the_rain_tint() {
    let e = WeatherEffects::from_condition(&WeatherCondition::Rain);
    assert!(e.rain_meteor_tint);
    assert!(!e.snow_tint);
    assert!(!e.thunder_pulses);
}

#[test]
fn storm_sets_thunder_pulses() {
    let e = WeatherEffects::from_condition(&WeatherCondition::Thunderstorm);
    assert!(e.thunder_pulses);
    assert!(e.rain_meteor_tint);
}

#[test]
fn snow_sets_tint() {
    let e = WeatherEffects::from_condition(&WeatherCondition::Snow);
    assert!(e.snow_tint);
    assert!(!e.rain_meteor_tint);
}

#[test]
fn clear_sky_sets_no_effect() {
    let e = WeatherEffects::from_condition(&WeatherCondition::Clear);
    assert!(!e.rain_meteor_tint && !e.snow_tint && !e.thunder_pulses);
}

#[test]
fn openweathermap_needs_a_key() {
    assert_eq!(fetch_plan(&WeatherProvider::OpenMeteo, ""), FetchPlan::OpenMeteo);
    assert_eq!(fetch_plan(&WeatherProvider::OpenWeatherMap, "  \t"), FetchPlan::MissingApiKey);
    assert_eq!(fetch_plan(&WeatherProvider::OpenWeatherMap, " k3y "), FetchPlan::OpenWeatherMap);
    assert_eq!(missing_api_key_message(), "OpenWeatherMap API key not set");
}

#[test]
fn refresh_interval_is_at_least_five_minutes() {
    assert_eq!(refresh_interval_secs(0), 300);
    assert_eq!(refresh_interval_secs(5), 300);
    assert_eq!(refresh_interval_secs(15), 900);
    assert_eq!(refresh_interval_secs(u32::MAX), u32::MAX as u64 * 60);
}

#[test]
fn provider_labels() {
    assert_eq!(WeatherProvider::OpenMeteo.label(), "Open-Meteo (free)");
    assert_eq!(WeatherProvider::OpenWeatherMap.label(), "OpenWeatherMap (API key required)");
    assert_eq!(WeatherProvider::default(), WeatherProvider::OpenMeteo);
}
