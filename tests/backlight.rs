use tiny_dfr::backlight::{
    display_to_touchbar, is_display_backlight, is_touchbar_backlight, BacklightManager,
    DIMMED_BRIGHTNESS,
};
use tiny_dfr::config::Config;
use tiny_dfr::event::{InputEvent, KEY_FN};

fn cfg(adaptive: bool, active: u32) -> Config {
    Config {
        show_button_outlines: true,
        enable_pixel_shift: false,
        adaptive_brightness: adaptive,
        active_brightness: active,
    }
}

#[test]
fn lid_closed_turns_off_at_once() {
    let mut m = BacklightManager::new(255, 128, 0);
    // five seconds of idle time, well below the dim timeout
    m.process_event(&InputEvent::Lid { closed: true }, 5_000);
    assert_eq!(m.update_backlight(&cfg(false, 128), 10_000, 0), Some(0));
    assert_eq!(m.current_bl(), 0);
}

#[test]
fn adaptive_with_dark_panel_stays_lit() {
    assert_eq!(display_to_touchbar(0, 200), 1);
    let mut m = BacklightManager::new(255, 50, 0);
    assert!(m.needs_display_reading(&cfg(true, 200), 1_000));
    assert_eq!(m.update_backlight(&cfg(true, 200), 1_000, 0), Some(1));
}

#[test]
fn adaptive_formula_values() {
    assert_eq!(display_to_touchbar(509, 200), 201);
    assert_eq!(display_to_touchbar(127, 100), 50);
    assert_eq!(display_to_touchbar(509, 255), 255);
    assert_eq!(display_to_touchbar(4000, 1000), 255);
}

#[test]
fn second_recompute_writes_nothing() {
    let mut m = BacklightManager::new(255, 0, 0);
    let c = cfg(false, 100);
    assert_eq!(m.update_backlight(&c, 1_000, 0), Some(100));
    assert_eq!(m.update_backlight(&c, 1_000, 0), None);
}

#[test]
fn idle_dims_then_turns_off() {
    let mut m = BacklightManager::new(255, 100, 0);
    let c = cfg(false, 100);
    assert_eq!(m.update_backlight(&c, 14_999, 0), None);
    assert_eq!(m.update_backlight(&c, 15_000, 0), Some(DIMMED_BRIGHTNESS));
    assert_eq!(m.update_backlight(&c, 59_999, 0), None);
    assert_eq!(m.update_backlight(&c, 60_000, 0), Some(0));
    m.process_event(&InputEvent::Keyboard { key: KEY_FN, pressed: true }, 61_000);
    assert_eq!(m.update_backlight(&c, 61_000, 0), Some(100));
}

#[test]
fn device_maximum_caps_brightness() {
    let mut m = BacklightManager::new(80, 0, 0);
    assert_eq!(m.update_backlight(&cfg(false, 200), 0, 0), Some(80));
}

#[test]
fn opening_the_lid_does_not_refresh_activity() {
    let mut m = BacklightManager::new(255, 0, 0);
    m.process_event(&InputEvent::Lid { closed: false }, 90_000);
    assert_eq!(m.last_active_ms, 0);
    assert!(!m.lid_closed);
    m.process_event(&InputEvent::Other, 95_000);
    assert_eq!(m.last_active_ms, 0);
    m.process_event(&InputEvent::Pointer, 96_000);
    assert_eq!(m.last_active_ms, 96_000);
}

#[test]
fn backlight_device_names() {
    assert!(is_touchbar_backlight("appletb_backlight"));
    assert!(is_touchbar_backlight("228600000.dsi.0"));
    assert!(is_touchbar_backlight("x-display-pipe-1"));
    assert!(!is_touchbar_backlight("intel_backlight"));
    assert!(is_display_backlight("intel_backlight"));
    assert!(is_display_backlight("acpi_video0"));
    assert!(!is_display_backlight("appletb_backlight"));
}
