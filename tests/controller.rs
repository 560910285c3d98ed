use tiny_dfr::backlight::BacklightManager;
use tiny_dfr::config::Config;
use tiny_dfr::controller::{layers_fit, EventLoop, TouchSession};
use tiny_dfr::event::{InputEvent, KeyEmission, TouchEvent, TouchPhase, KEY_FN};
use tiny_dfr::layout::FunctionLayer;
use tiny_dfr::widget::ButtonConfig;

fn text(label: &str, action: u16) -> ButtonConfig {
    ButtonConfig {
        icon: None,
        text: Some(label.to_string()),
        theme: None,
        time: None,
        processor: None,
        memory: None,
        battery: None,
        locale: None,
        action,
        stretch: None,
    }
}

fn clock() -> ButtonConfig {
    let mut c = text("", 0);
    c.text = None;
    c.time = Some("24hr".to_string());
    c
}

fn config() -> Config {
    Config {
        show_button_outlines: true,
        enable_pixel_shift: false,
        adaptive_brightness: false,
        active_brightness: 128,
    }
}

fn layers() -> Vec<FunctionLayer> {
    vec![
        FunctionLayer::with_config(vec![text("a", 30), text("b", 48), text("c", 46)], 0).unwrap(),
        FunctionLayer::with_config(vec![text("f1", 59), text("f2", 60)], 0).unwrap(),
    ]
}

fn lit_loop() -> EventLoop {
    EventLoop::new(config(), layers(), 2170, 60, BacklightManager::new(255, 128, 0), 0, 0).unwrap()
}

fn touch(phase: TouchPhase, slot: u32, x: i32, y: i32) -> InputEvent {
    InputEvent::Touch(TouchEvent { phase, slot, x, y, from_digitizer: true })
}

#[test]
fn down_then_motion_off_the_button_releases_it() {
    let mut lp = lit_loop();
    let mut out = Vec::new();
    lp.process_event(&touch(TouchPhase::Down, 0, 100, 30), 10, &mut out);
    assert_eq!(out, vec![KeyEmission { code: 30, pressed: true }]);
    assert!(lp.layers[0].buttons[0].1.active);
    out.clear();
    // slide onto the second button
    lp.process_event(&touch(TouchPhase::Motion, 0, 900, 30), 20, &mut out);
    assert_eq!(out, vec![KeyEmission { code: 30, pressed: false }]);
    assert!(!lp.layers[0].buttons[0].1.active);
    assert!(!lp.layers[0].buttons[1].1.active);
    out.clear();
    lp.process_event(&touch(TouchPhase::Motion, 0, 950, 30), 30, &mut out);
    assert!(out.is_empty());
    lp.process_event(&touch(TouchPhase::Up, 0, 950, 30), 40, &mut out);
    assert!(out.is_empty());
    assert!(lp.touches.is_empty());
}

#[test]
fn session_survives_layer_switch() {
    let mut lp = lit_loop();
    let mut out = Vec::new();
    lp.process_event(&touch(TouchPhase::Down, 3, 800, 30), 10, &mut out);
    assert_eq!(lp.touches.get(&3), Some(&TouchSession { layer: 0, button: 1 }));
    lp.process_event(&InputEvent::Keyboard { key: KEY_FN, pressed: true }, 11, &mut out);
    assert_eq!(lp.active_layer, 1);
    assert!(lp.needs_complete_redraw);
    assert_eq!(lp.touches.get(&3), Some(&TouchSession { layer: 0, button: 1 }));
    out.clear();
    lp.process_event(&touch(TouchPhase::Up, 3, 800, 30), 12, &mut out);
    assert_eq!(out, vec![KeyEmission { code: 48, pressed: false }]);
    assert!(lp.touches.is_empty());
    assert!(!lp.layers[1].buttons[1].1.active);
}

#[test]
fn up_without_session_is_a_no_op() {
    let mut lp = lit_loop();
    let mut out = Vec::new();
    lp.process_event(&touch(TouchPhase::Up, 9, 100, 30), 10, &mut out);
    assert!(out.is_empty());
    assert!(lp.touches.is_empty());
    assert!(!lp.layers[0].buttons[0].1.active);
    assert!(!lp.layers[0].buttons[0].1.changed);
}

#[test]
fn touches_are_ignored_while_dark_or_foreign() {
    let mut lp =
        EventLoop::new(config(), layers(), 2170, 60, BacklightManager::new(255, 0, 0), 0, 0).unwrap();
    let mut out = Vec::new();
    lp.process_event(&touch(TouchPhase::Down, 0, 100, 30), 10, &mut out);
    assert!(out.is_empty());
    assert!(lp.touches.is_empty());
    // the touch still counts as activity
    assert_eq!(lp.backlight.last_active_ms, 10);
    let mut lp = lit_loop();
    let foreign = InputEvent::Touch(TouchEvent {
        phase: TouchPhase::Down,
        slot: 0,
        x: 100,
        y: 30,
        from_digitizer: false,
    });
    lp.process_event(&foreign, 10, &mut out);
    assert!(out.is_empty());
    assert!(lp.touches.is_empty());
}

#[test]
fn fn_key_switches_layer_once() {
    let mut lp = lit_loop();
    let mut out = Vec::new();
    lp.needs_complete_redraw = false;
    lp.process_event(&InputEvent::Keyboard { key: KEY_FN, pressed: false }, 1, &mut out);
    assert_eq!(lp.active_layer, 0);
    assert!(!lp.needs_complete_redraw);
    lp.process_event(&InputEvent::Keyboard { key: 30, pressed: true }, 2, &mut out);
    assert_eq!(lp.active_layer, 0);
    lp.process_event(&InputEvent::Keyboard { key: KEY_FN, pressed: true }, 3, &mut out);
    assert_eq!(lp.active_layer, 1);
    assert!(lp.needs_complete_redraw);
}

#[test]
fn down_in_margin_hits_nothing() {
    let mut lp = lit_loop();
    let mut out = Vec::new();
    lp.process_event(&touch(TouchPhase::Down, 0, 100, 2), 10, &mut out);
    assert!(out.is_empty());
    assert!(lp.touches.is_empty());
}

#[test]
fn layers_that_do_not_fit_are_refused() {
    assert!(EventLoop::new(config(), layers(), 20, 60, BacklightManager::new(255, 1, 0), 0, 0)
        .is_none());
    assert!(EventLoop::new(config(), vec![], 2170, 60, BacklightManager::new(255, 1, 0), 0, 0)
        .is_none());
    assert!(layers_fit(&config(), &layers(), 2170));
}

#[test]
fn reload_releases_held_buttons() {
    let mut lp = lit_loop();
    let mut out = Vec::new();
    lp.process_event(&touch(TouchPhase::Down, 0, 100, 30), 10, &mut out);
    out.clear();
    lp.process_event(&InputEvent::Keyboard { key: KEY_FN, pressed: true }, 11, &mut out);
    lp.needs_complete_redraw = false;
    assert!(lp.apply_config(config(), layers(), &mut out));
    assert_eq!(out, vec![KeyEmission { code: 30, pressed: false }]);
    assert_eq!(lp.active_layer, 0);
    assert!(lp.needs_complete_redraw);
    assert!(lp.touches.is_empty());
    out.clear();
    assert!(!lp.apply_config(config(), vec![], &mut out));
    assert!(out.is_empty());
}

#[test]
fn schedule_waits_for_minute_boundary() {
    let mut lp = lit_loop();
    assert_eq!(lp.schedule(0, 55, 0), 5_000);
    assert_eq!(lp.schedule(0, 0, 0), 10_000);
    assert_eq!(lp.schedule(0, 59, 0), 1_000);
}

#[test]
fn schedule_now_reads_the_clock() {
    let mut lp = lit_loop();
    let t = lp.schedule_now(0);
    assert!(t >= 1_000 && t <= 10_000);
    assert_eq!(t % 1_000, 0);
}

#[test]
fn clock_minute_change_forces_redraw() {
    let layers = vec![
        FunctionLayer::with_config(vec![text("a", 30), clock()], 0).unwrap(),
        FunctionLayer::with_config(vec![text("f1", 59)], 0).unwrap(),
    ];
    let mut lp =
        EventLoop::new(config(), layers, 2170, 60, BacklightManager::new(255, 1, 0), 7, 0).unwrap();
    lp.needs_complete_redraw = false;
    lp.schedule(7, 10, 0);
    assert!(!lp.needs_complete_redraw);
    lp.schedule(8, 0, 0);
    assert!(lp.needs_complete_redraw);
    assert_eq!(lp.last_redraw_minute, 8);
}

#[test]
fn frame_draws_only_changed_buttons() {
    let mut lp = lit_loop();
    let plan = lp.frame(0).unwrap();
    assert!(plan.complete);
    assert_eq!(plan.buttons.len(), 3);
    assert_eq!(plan.clips.len(), 1);
    assert_eq!((plan.clips[0].x2, plan.clips[0].y2), (60, 2170));
    assert!(lp.frame(0).is_none());
    let mut out = Vec::new();
    lp.process_event(&touch(TouchPhase::Down, 0, 800, 30), 10, &mut out);
    let plan = lp.frame(10).unwrap();
    assert!(!plan.complete);
    assert_eq!(plan.buttons.len(), 1);
    assert_eq!(plan.buttons[0].index, 1);
    assert_eq!(plan.buttons[0].left, 728);
    assert_eq!(plan.buttons[0].width, 712);
    assert_eq!(plan.clips.len(), 1);
    // band 60 - 51 - 8 = 1 .. 60 - 9 + 8 = 59
    assert_eq!(plan.clips[0].x1, 1);
    assert_eq!(plan.clips[0].x2, 59);
    assert_eq!(plan.clips[0].y1, 728);
    assert_eq!(plan.clips[0].y2, 1440);
    assert!(lp.frame(11).is_none());
}

#[test]
fn backlight_step_of_the_loop() {
    let mut lp = lit_loop();
    assert!(!lp.needs_display_reading(0));
    assert_eq!(lp.update_backlight(0, 0), None);
    assert_eq!(lp.update_backlight(16_000, 0), Some(1));
}

#[test]
fn pixel_shift_bounds_the_wait_and_moves_buttons() {
    let mut cfg = config();
    cfg.enable_pixel_shift = true;
    let mut lp =
        EventLoop::new(cfg, layers(), 2170, 60, BacklightManager::new(255, 1, 0), 0, 0).unwrap();
    assert_eq!(lp.schedule(0, 0, 1_000), 10_000);
    assert_eq!(lp.schedule(0, 0, 59_500), 500);
    let plan = lp.frame(59_500).unwrap();
    // row narrowed by the 4 pixel margin: (2166 + 16) / 3 = 727, shift -2 + 2
    assert_eq!(plan.buttons[1].left, 727);
    lp.needs_complete_redraw = false;
    assert_eq!(lp.schedule(0, 0, 60_000), 10_000);
    assert!(lp.needs_complete_redraw);
    let plan = lp.frame(60_000).unwrap();
    assert_eq!(plan.buttons[1].left, 728);
}
