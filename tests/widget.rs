use tiny_dfr::event::KeyEmission;
use tiny_dfr::widget::{set_widget_active, Button, ButtonImage};

#[test]
fn metric_widget_refreshes_every_five_seconds() {
    let mut b = Button::new(ButtonImage::Memory, 7, 10_000);
    assert_eq!(b.last_draw_ms, 5_500);
    assert!(!b.changed(10_000));
    assert!(b.changed(10_500));
    b.mark_drawn(10_500);
    assert_eq!(b.last_draw_ms, 10_500);
    assert!(!b.changed(15_499));
    assert!(b.changed(15_500));
    assert_eq!(b.next_draw_time(10_600, 0), Some(15_500));
}

#[test]
fn text_widget_redraws_only_when_changed() {
    let mut b = Button::new(ButtonImage::Text("x".to_string()), 7, 0);
    assert!(!b.changed(1_000_000));
    assert_eq!(b.next_draw_time(0, 0), None);
    assert!(b.set_active(true));
    assert!(b.changed(0));
    assert!(!b.set_active(true));
    b.reset_changed();
    assert!(!b.changed(0));
    assert!(b.active());
}

#[test]
fn clock_wants_the_next_minute() {
    let b = Button::new(
        ButtonImage::Time { format: "%H:%M".to_string(), locale: "POSIX".to_string() },
        0,
        0,
    );
    assert!(b.is_time());
    assert_eq!(b.next_draw_time(1_000, 45), Some(16_000));
}

#[test]
fn activation_emits_one_key_event_per_change() {
    let mut b = Button::new(ButtonImage::Text("x".to_string()), 42, 0);
    let mut out = Vec::new();
    set_widget_active(&mut b, &mut out, true);
    set_widget_active(&mut b, &mut out, true);
    set_widget_active(&mut b, &mut out, false);
    assert_eq!(
        out,
        vec![KeyEmission { code: 42, pressed: true }, KeyEmission { code: 42, pressed: false }]
    );
    assert_eq!(b.get_action(), 42);
}

#[test]
fn processor_samples_at_most_every_five_seconds() {
    let mut b = Button::new(ButtonImage::Processor, 0, 10_000);
    let first = b.processor_reading(10_000);
    assert_eq!(b.last_draw_ms, 5_500);
    assert_eq!(first.user, 0);
    b.processor_reading(10_500);
    assert_eq!(b.last_draw_ms, 10_500);
    b.processor_reading(11_000);
    assert_eq!(b.last_draw_ms, 10_500);
}
