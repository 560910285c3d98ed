use tiny_dfr::layout::{FunctionLayer, LayerError};
use tiny_dfr::widget::{effective_stretch, new_widget_from_config, ButtonConfig, ButtonImage};

fn text(label: &str, action: u16, stretch: Option<usize>) -> ButtonConfig {
    ButtonConfig {
        icon: None,
        text: Some(label.to_string()),
        theme: None,
        time: None,
        processor: None,
        memory: None,
        battery: None,
        locale: None,
        action,
        stretch,
    }
}

fn clock(stretch: Option<usize>) -> ButtonConfig {
    ButtonConfig {
        icon: None,
        text: None,
        theme: None,
        time: Some("%H:%M".to_string()),
        processor: None,
        memory: None,
        battery: None,
        locale: None,
        action: 99,
        stretch,
    }
}

fn empty(action: u16) -> ButtonConfig {
    ButtonConfig {
        icon: None,
        text: None,
        theme: None,
        time: None,
        processor: None,
        memory: None,
        battery: None,
        locale: None,
        action,
        stretch: None,
    }
}

fn three_buttons() -> FunctionLayer {
    FunctionLayer::with_config(vec![text("a", 30, None), text("b", 48, None), text("c", 46, None)], 0)
        .unwrap()
}

#[test]
fn clock_stretch_doubles() {
    assert_eq!(effective_stretch(&clock(Some(1))), Some(2));
    assert_eq!(effective_stretch(&clock(None)), Some(2));
    assert_eq!(effective_stretch(&text("x", 1, Some(3))), Some(3));
}

#[test]
fn text_and_clock_make_three_columns() {
    let layer = FunctionLayer::with_config(vec![text("a", 30, Some(1)), clock(Some(1))], 0).unwrap();
    assert_eq!(layer.virtual_button_count, 3);
    assert_eq!(layer.buttons[0].0, 0);
    assert_eq!(layer.buttons[1].0, 1);
}

#[test]
fn stretch_below_one_is_clamped() {
    let layer = FunctionLayer::with_config(vec![text("a", 30, Some(0)), text("b", 31, Some(2))], 0)
        .unwrap();
    assert_eq!(layer.virtual_button_count, 3);
    assert_eq!(layer.buttons[1].0, 1);
}

#[test]
fn spans_add_up_to_column_count() {
    let stretches = [Some(2), None, Some(3), Some(1)];
    let cfg: Vec<ButtonConfig> =
        stretches.iter().enumerate().map(|(i, s)| text("k", i as u16, *s)).collect();
    let layer = FunctionLayer::with_config(cfg, 0).unwrap();
    let mut sum = 0;
    for i in 0..layer.buttons.len() {
        sum += layer.end_of(i) - layer.buttons[i].0;
    }
    assert_eq!(sum, layer.virtual_button_count);
    assert_eq!(sum, 7);
}

#[test]
fn empty_layer_is_rejected() {
    assert_eq!(FunctionLayer::check_config(&vec![]), Err(LayerError::Empty));
}

#[test]
fn button_without_content_is_rejected() {
    let cfg = vec![text("a", 1, None), empty(2), empty(3)];
    assert_eq!(FunctionLayer::check_config(&cfg), Err(LayerError::InvalidButton(1)));
    assert_eq!(FunctionLayer::check_config(&vec![text("a", 1, None)]), Ok(()));
}

#[test]
fn column_overflow_is_rejected() {
    let err = FunctionLayer::with_config(
        vec![text("a", 1, Some(usize::MAX)), text("b", 2, Some(1))],
        0,
    )
    .unwrap_err();
    assert_eq!(err, LayerError::TooManyColumns);
}

#[test]
fn widget_kind_follows_field_order() {
    let mut cfg = clock(None);
    cfg.memory = Some(String::new());
    let b = new_widget_from_config(cfg, 0);
    assert!(matches!(b.image, ButtonImage::Memory));
    assert!(!b.active);
    assert_eq!(b.action, 99);
    let b = new_widget_from_config(clock(None), 0);
    match b.image {
        ButtonImage::Time { format, locale } => {
            assert_eq!(format, "%H:%M");
            assert_eq!(locale, "POSIX");
        }
        _ => panic!("expected a clock"),
    }
}

#[test]
fn geometry_of_three_columns() {
    let layer = three_buttons();
    // (2170 + 16) * 1 / 3 = 728
    assert_eq!(layer.left_edge(0, 2170), 0);
    assert_eq!(layer.left_edge(1, 2170), 728);
    assert_eq!(layer.left_edge(2, 2170), 1457);
    // (2170 - 32) / 3 = 712
    assert_eq!(layer.button_width(0, 2170), 712);
}

#[test]
fn geometry_of_wide_button() {
    let layer =
        FunctionLayer::with_config(vec![text("a", 1, Some(2)), text("b", 2, None)], 0).unwrap();
    // two columns and one gap, floored once: (2 * 2138 + 16 * 3) / 3 = 1441
    assert_eq!(layer.button_width(0, 2170), 1441);
}

#[test]
fn hit_finds_buttons_and_gaps() {
    let layer = three_buttons();
    assert_eq!(layer.hit(2170, 60, 10, 30, None), Some(0));
    assert_eq!(layer.hit(2170, 60, 712, 30, None), Some(0));
    assert_eq!(layer.hit(2170, 60, 720, 30, None), None);
    assert_eq!(layer.hit(2170, 60, 728, 30, None), Some(1));
    assert_eq!(layer.hit(2170, 60, 2160, 30, None), Some(2));
    assert_eq!(layer.hit(2170, 60, -5, 30, None), None);
}

#[test]
fn hit_ignores_top_and_bottom_margins() {
    let layer = three_buttons();
    assert_eq!(layer.hit(2170, 60, 100, 5, None), None);
    assert_eq!(layer.hit(2170, 60, 100, 6, None), Some(0));
    assert_eq!(layer.hit(2170, 60, 100, 54, None), Some(0));
    assert_eq!(layer.hit(2170, 60, 100, 55, None), None);
}

#[test]
fn hit_is_monotonic_along_the_row() {
    let layer = three_buttons();
    let mut last = 0;
    for x in 0..2170 {
        if let Some(i) = layer.hit(2170, 60, x, 30, None) {
            assert!(i >= last);
            last = i;
        }
    }
    assert_eq!(last, 2);
}

#[test]
fn sticky_hit_only_confirms_the_given_button() {
    let layer = three_buttons();
    assert_eq!(layer.hit(2170, 60, 100, 30, Some(0)), Some(0));
    assert_eq!(layer.hit(2170, 60, 800, 30, Some(0)), None);
    assert_eq!(layer.hit(2170, 60, 100, 30, Some(7)), None);
}

#[test]
fn layer_validity_and_fit() {
    let layer = three_buttons();
    assert!(layer.is_valid());
    assert!(layer.fits_width(2170));
    assert!(layer.fits_width(32));
    assert!(!layer.fits_width(31));
    let broken = FunctionLayer { buttons: vec![], virtual_button_count: 1 };
    assert!(!broken.is_valid());
}
