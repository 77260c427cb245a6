use oled_wallpaper::config::{
    default_affect_galaxy, default_clock_show_seconds, default_refresh_minutes, default_show_aqi,
    default_show_clock, default_widget_enabled, default_widget_float_mode, headless_preset,
    parse_autostart_mode, HeadlessPreset, WidgetConfig, Widgets,
};
use oled_wallpaper::rng::{PulseHue, SimpleRng};
use oled_wallpaper::widgets::{
    clock_pattern, first_flagged, format_calendar, format_clock, month_year_line, WidgetId,
};

#[test]
fn default_widget_layout() {
    let w = Widgets::default();
    assert_eq!(w.clock, WidgetConfig { enabled: true, x: 50, y: 50, float_mode: false });
    assert_eq!(w.calendar, WidgetConfig { enabled: true, x: 200, y: 50, float_mode: false });
}

#[test]
fn optional_key_defaults() {
    assert!(default_widget_enabled());
    assert!(default_show_clock());
    assert!(default_clock_show_seconds());
    assert!(default_widget_float_mode());
    assert!(default_show_aqi());
    assert!(default_affect_galaxy());
    assert_eq!(default_refresh_minutes(), 15);
}

#[test]
fn headless_arguments() {
    assert_eq!(parse_autostart_mode("on"), Some(true));
    assert_eq!(parse_autostart_mode("off"), Some(false));
    assert_eq!(parse_autostart_mode("On"), None);
    assert_eq!(headless_preset("widget-off"), HeadlessPreset::WidgetOff);
    assert_eq!(headless_preset("widget-on"), HeadlessPreset::WidgetOn);
    assert_eq!(headless_preset("fast"), HeadlessPreset::FastPlanets);
    assert_eq!(HeadlessPreset::WidgetOff.widget_switch(), Some(false));
    assert_eq!(HeadlessPreset::FastPlanets.widget_switch(), None);
}

#[test]
fn widget_precedence() {
    assert_eq!(first_flagged(true, true, true, true), Some(WidgetId::Clock));
    assert_eq!(first_flagged(false, true, true, false), Some(WidgetId::Weather));
    assert_eq!(first_flagged(false, false, true, true), Some(WidgetId::Wind));
    assert_eq!(first_flagged(false, false, false, true), Some(WidgetId::Aqi));
    assert_eq!(first_flagged(false, false, false, false), None);
}

#[test]
fn clock_patterns() {
    assert_eq!(clock_pattern(true, true), "%H:%M:%S");
    assert_eq!(clock_pattern(true, false), "%H:%M");
    assert_eq!(clock_pattern(false, true), "%I:%M:%S %p");
    assert_eq!(clock_pattern(false, false), "%I:%M %p");
}

fn xorshift(mut s: u64) -> u64 {
    s ^= s << 13;
    s ^= s >> 7;
    s ^= s << 17;
    s
}

#[test]
fn rng_steps_are_xorshift() {
    let mut rng = SimpleRng::new(0xDEADBEEF_CAFEF00D);
    let mut s = 0xDEADBEEF_CAFEF00Du64 ^ 0x9e3779b97f4a7c15;
    for _ in 0..5 {
        s = xorshift(s);
        assert_eq!(rng.next(), s);
        assert_ne!(s, 0);
    }
}

#[test]
fn rng_seeded_with_the_mix_constant_stays_at_zero() {
    let mut rng = SimpleRng::new(0x9e3779b97f4a7c15);
    assert_eq!(rng.next(), 0);
    assert_eq!(rng.next(), 0);
}

#[test]
fn pulse_hue_follows_the_next_number() {
    let mut a = SimpleRng::new(7);
    let mut b = SimpleRng::new(7);
    for _ in 0..6 {
        let n = a.next();
        let expected = match n % 3 {
            0 => PulseHue::Blue,
            1 => PulseHue::Violet,
            _ => PulseHue::Gold,
        };
        assert_eq!(b.pulse_hue(), expected);
    }
}

#[test]
fn clock_text_at_the_epoch() {
    assert_eq!(format_clock(0, 0, 0, true, true), "00:00:00");
    assert_eq!(format_clock(0, 0, 0, true, false), "00:00");
    assert_eq!(format_clock(0, 0, 0, false, true), "12:00:00 AM");
    assert_eq!(format_clock(0, 0, 3600, false, false), "01:00 AM");
    assert_eq!(format_clock(13 * 3600 + 5 * 60 + 9, 0, 0, false, true), "01:05:09 PM");
}

#[test]
fn calendar_text_at_the_epoch() {
    assert_eq!(format_calendar(0, 0, 0, false), "Thu Jan 01, 1970");
    assert_eq!(format_calendar(0, 0, 0, true), "January 1970");
    assert_eq!(format_calendar(0, 0, -3600, true), "December 1969");
    assert_eq!(month_year_line("May".to_string(), -44), "May -44");
    assert_eq!(month_year_line("May".to_string(), i32::MIN), "May -2147483648");
}

#[test]
fn clock_text_24h() {
    let now = std::time::SystemTime::now()
        .duration_since(std::time::UNIX_EPOCH)
        .expect("clock after the epoch");
    let t = format_clock(now.as_secs() as i64, now.subsec_nanos(), 0, true, false);
    assert!(t.contains(':'));
    assert!(!t.contains("AM"), "expected 24h but got AM/PM: {t}");
    assert!(!t.contains("PM"), "expected 24h but got AM/PM: {t}");
}

#[test]
fn clock_faces_at_various_instants() {
    for (secs, offset) in [(-1i64, 0i32), (86_399, 0), (1_700_000_000, 19_800), (-86_401, -3_600), (43_200, 0)] {
        let t24 = format_clock(secs, 0, offset, true, true);
        assert_eq!(t24.len(), 8);
        assert!(t24.chars().all(|c| c == ':' || c.is_ascii_digit()), "{t24}");
        let t12 = format_clock(secs, 0, offset, false, false);
        assert!(t12.ends_with(" AM") || t12.ends_with(" PM"), "{t12}");
    }
    assert_eq!(format_clock(-1, 0, 0, true, true), "23:59:59");
    assert_eq!(format_clock(43_200, 0, 0, false, false), "12:00 PM");
    assert_eq!(format_clock(1_700_000_000, 0, 19_800, true, true), "03:43:20");
}
