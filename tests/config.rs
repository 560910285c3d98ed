use tiny_dfr::config::{build_layers, esc_button, ConfigError, ConfigField, ConfigProxy, KEY_ESC};
use tiny_dfr::layout::LayerError;
use tiny_dfr::widget::ButtonConfig;

fn text(label: &str, action: u16) -> ButtonConfig {
    ButtonConfig {
        icon: None,
        text: Some(label.to_string()),
        theme: None,
        time: None,
        processor: None,
        memory: None,
        battery: None,
        locale: None,
        action,
        stretch: None,
    }
}

fn full() -> ConfigProxy {
    ConfigProxy {
        show_button_outlines: Some(true),
        enable_pixel_shift: Some(false),
        font_template: Some("sans".to_string()),
        adaptive_brightness: Some(false),
        active_brightness: Some(128),
        primary_layer_keys: Some(vec![text("a", 30), text("b", 48)]),
        fn_layer_keys: Some(vec![text("f1", 59)]),
    }
}

fn none() -> ConfigProxy {
    ConfigProxy {
        show_button_outlines: None,
        enable_pixel_shift: None,
        font_template: None,
        adaptive_brightness: None,
        active_brightness: None,
        primary_layer_keys: None,
        fn_layer_keys: None,
    }
}

#[test]
fn user_fields_override_base_fields() {
    let mut user = none();
    user.active_brightness = Some(42);
    user.enable_pixel_shift = Some(true);
    let merged = ConfigProxy::merge(full(), user);
    assert_eq!(merged.active_brightness, Some(42));
    assert_eq!(merged.enable_pixel_shift, Some(true));
    assert_eq!(merged.show_button_outlines, Some(true));
    assert_eq!(merged.font_template.as_deref(), Some("sans"));
    assert_eq!(merged.primary_layer_keys.map(|k| k.len()), Some(2));
}

#[test]
fn missing_field_is_reported() {
    let mut c = full();
    c.active_brightness = None;
    c.fn_layer_keys = None;
    match c.into_parts(2008) {
        Err(e) => assert_eq!(e, ConfigError::Missing(ConfigField::ActiveBrightness)),
        Ok(_) => panic!("expected an error"),
    }
}

#[test]
fn narrow_row_gets_no_soft_escape() {
    let (cfg, font, primary, secondary) = full().into_parts(2008).unwrap();
    assert_eq!(cfg.active_brightness, 128);
    assert!(cfg.show_button_outlines);
    assert_eq!(font, "sans");
    assert_eq!(primary.len(), 2);
    assert_eq!(secondary.len(), 1);
}

#[test]
fn wide_row_gets_soft_escape_on_both_layers() {
    let (_, _, primary, secondary) = full().into_parts(2170).unwrap();
    assert_eq!(primary.len(), 3);
    assert_eq!(secondary.len(), 2);
    assert_eq!(primary[0].text.as_deref(), Some("esc"));
    assert_eq!(primary[0].action, KEY_ESC);
    assert_eq!(secondary[0].action, KEY_ESC);
    assert_eq!(primary[1].action, 30);
    let layers = build_layers(primary, secondary, 0).unwrap();
    assert_eq!(layers.len(), 2);
    assert_eq!(layers[0].virtual_button_count, 3);
    assert_eq!(layers[1].virtual_button_count, 2);
}

#[test]
fn esc_button_fields() {
    let b = esc_button();
    assert_eq!(b.text.as_deref(), Some("esc"));
    assert_eq!(b.action, 1);
    assert!(b.icon.is_none() && b.stretch.is_none());
}

#[test]
fn invalid_layers_are_reported() {
    match build_layers(vec![text("a", 1)], vec![], 0) {
        Err(e) => assert_eq!(e, ConfigError::FnLayer(LayerError::Empty)),
        Ok(_) => panic!("expected an error"),
    }
    match build_layers(vec![], vec![text("a", 1)], 0) {
        Err(e) => assert_eq!(e, ConfigError::PrimaryLayer(LayerError::Empty)),
        Ok(_) => panic!("expected an error"),
    }
    let mut blank = text("b", 2);
    blank.text = None;
    match build_layers(vec![text("a", 1), blank], vec![text("c", 3)], 0) {
        Err(e) => assert_eq!(e, ConfigError::PrimaryLayer(LayerError::InvalidButton(1))),
        Ok(_) => panic!("expected an error"),
    }
}
