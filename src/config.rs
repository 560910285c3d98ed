use vstd::prelude::*;

use crate::layout::{FunctionLayer, LayerError};
use crate::widget::ButtonConfig;

verus! {

/// Settings that the control logic reads on every loop iteration.
#[derive(Clone, Copy, Debug, PartialEq, Eq, Structural)]
pub struct Config {
    pub show_button_outlines: bool,
    pub enable_pixel_shift: bool,
    pub adaptive_brightness: bool,
    pub active_brightness: u32,
}


/// Key code of the soft escape key.
pub const KEY_ESC: u16 = 1;

/// Rows at least this wide have no physical escape key; each layer then
/// starts with a soft one.
pub const SOFT_ESC_MIN_WIDTH: u16 = 2170;

/// A configuration file's contents: every field optional, so that a user
/// file can override a base file field by field.
#[derive(Debug)]
pub struct ConfigProxy {
    pub show_button_outlines: Option<bool>,
    pub enable_pixel_shift: Option<bool>,
    pub font_template: Option<String>,
    pub adaptive_brightness: Option<bool>,
    pub active_brightness: Option<u32>,
    pub primary_layer_keys: Option<Vec<ButtonConfig>>,
    pub fn_layer_keys: Option<Vec<ButtonConfig>>,
}

/// A field that the merged configuration lacks.
#[derive(Clone, Copy, Debug, PartialEq, Eq, Structural)]
pub enum ConfigField {
    ShowButtonOutlines,
    EnablePixelShift,
    FontTemplate,
    AdaptiveBrightness,
    ActiveBrightness,
    PrimaryLayerKeys,
    FnLayerKeys,
}

/// Why a configuration cannot be applied.
#[derive(Clone, Copy, Debug, PartialEq, Eq, Structural)]
pub enum ConfigError {
    Missing(ConfigField),
    /// The primary layer's buttons are invalid.
    PrimaryLayer(LayerError),
    /// The secondary layer's buttons are invalid.
    FnLayer(LayerError),
}

/// The applied configuration: settings, font name and the two layers,
/// primary first.
#[derive(Debug)]
pub struct LoadedConfig {
    pub config: Config,
    pub font_template: String,
    pub layers: Vec<FunctionLayer>,
}

pub open spec fn or_else<T>(a: Option<T>, b: Option<T>) -> Option<T> {
    match a {
        Some(v) => Some(v),
        None => b,
    }
}

fn pick<T>(a: Option<T>, b: Option<T>) -> (r: Option<T>)
    ensures
        r == or_else(a, b),
{
    match a {
        Some(v) => Some(v),
        None => b,
    }
}

/// The configuration of the soft escape key.
pub fn esc_button() -> (r: ButtonConfig)
    ensures
        r.text matches Some(t) && t@ == "esc"@,
        r.action == KEY_ESC,
        r.icon is None && r.theme is None && r.time is None && r.processor is None
            && r.memory is None && r.battery is None && r.locale is None && r.stretch is None,
{
    ButtonConfig {
        icon: None,
        text: Some("esc".to_owned()),
        theme: None,
        time: None,
        processor: None,
        memory: None,
        battery: None,
        locale: None,
        action: KEY_ESC,
        stretch: None,
    }
}

/// Whether `keys` is `given`, with the soft escape key in front on a row at
/// least `SOFT_ESC_MIN_WIDTH` wide.
pub open spec fn with_soft_esc(given: Seq<ButtonConfig>, keys: Seq<ButtonConfig>, width: u16) -> bool {
    if width >= SOFT_ESC_MIN_WIDTH {
        &&& keys.len() == given.len() + 1
        &&& keys[0].text matches Some(t) && t@ == "esc"@
        &&& keys[0].action == KEY_ESC
        &&& keys[0].icon is None && keys[0].time is None && keys[0].stretch is None
        &&& keys.subrange(1, keys.len() as int) == given
    } else {
        keys == given
    }
}

fn add_soft_esc(keys: &mut Vec<ButtonConfig>, width: u16)
    ensures
        with_soft_esc(old(keys)@, final(keys)@, width),
{
    if width >= SOFT_ESC_MIN_WIDTH {
        keys.insert(0, esc_button());
        assert(keys@.subrange(1, keys@.len() as int) =~= old(keys)@);
    }
}

impl ConfigProxy {
    /// Merges a user file over a base file: each field the user sets wins,
    /// every other field keeps the base value.
    pub fn merge(base: ConfigProxy, user: ConfigProxy) -> (r: ConfigProxy)
        ensures
            r.show_button_outlines == or_else(user.show_button_outlines, base.show_button_outlines),
            r.enable_pixel_shift == or_else(user.enable_pixel_shift, base.enable_pixel_shift),
            r.font_template == or_else(user.font_template, base.font_template),
            r.adaptive_brightness == or_else(user.adaptive_brightness, base.adaptive_brightness),
            r.active_brightness == or_else(user.active_brightness, base.active_brightness),
            r.primary_layer_keys == or_else(user.primary_layer_keys, base.primary_layer_keys),
            r.fn_layer_keys == or_else(user.fn_layer_keys, base.fn_layer_keys),
    {
        ConfigProxy {
            show_button_outlines: pick(user.show_button_outlines, base.show_button_outlines),
            enable_pixel_shift: pick(user.enable_pixel_shift, base.enable_pixel_shift),
            font_template: pick(user.font_template, base.font_template),
            adaptive_brightness: pick(user.adaptive_brightness, base.adaptive_brightness),
            active_brightness: pick(user.active_brightness, base.active_brightness),
            primary_layer_keys: pick(user.primary_layer_keys, base.primary_layer_keys),
            fn_layer_keys: pick(user.fn_layer_keys, base.fn_layer_keys),
        }
    }

    /// The first field this configuration lacks, in declaration order.
    pub open spec fn first_missing(&self) -> Option<ConfigField> {
        if self.show_button_outlines is None {
            Some(ConfigField::ShowButtonOutlines)
        } else if self.enable_pixel_shift is None {
            Some(ConfigField::EnablePixelShift)
        } else if self.font_template is None {
            Some(ConfigField::FontTemplate)
        } else if self.adaptive_brightness is None {
            Some(ConfigField::AdaptiveBrightness)
        } else if self.active_brightness is None {
            Some(ConfigField::ActiveBrightness)
        } else if self.primary_layer_keys is None {
            Some(ConfigField::PrimaryLayerKeys)
        } else if self.fn_layer_keys is None {
            Some(ConfigField::FnLayerKeys)
        } else {
            None
        }
    }

    /// Checks that every field is present and returns the settings, the
    /// font name and the two key lists (primary, then secondary), each with
    /// the soft escape key in front where the row is wide enough.
    pub fn into_parts(self, width: u16) -> (r: Result<
        (Config, String, Vec<ButtonConfig>, Vec<ButtonConfig>),
        ConfigError,
    >)
        ensures
            self.first_missing() matches Some(f) ==> r == Err::<
                (Config, String, Vec<ButtonConfig>, Vec<ButtonConfig>),
                ConfigError,
            >(ConfigError::Missing(f)),
            self.first_missing() is None ==> r is Ok,
            r matches Ok((cfg, font, primary, secondary)) ==> {
                &&& cfg == (Config {
                    show_button_outlines: self.show_button_outlines.unwrap(),
                    enable_pixel_shift: self.enable_pixel_shift.unwrap(),
                    adaptive_brightness: self.adaptive_brightness.unwrap(),
                    active_brightness: self.active_brightness.unwrap(),
                })
                &&& font == self.font_template.unwrap()
                &&& with_soft_esc(self.primary_layer_keys.unwrap()@, primary@, width)
                &&& with_soft_esc(self.fn_layer_keys.unwrap()@, secondary@, width)
            },
    {
        let show_button_outlines = match self.show_button_outlines {
            Some(v) => v,
            None => return Err(ConfigError::Missing(ConfigField::ShowButtonOutlines)),
        };
        let enable_pixel_shift = match self.enable_pixel_shift {
            Some(v) => v,
            None => return Err(ConfigError::Missing(ConfigField::EnablePixelShift)),
        };
        let font_template = match self.font_template {
            Some(v) => v,
            None => return Err(ConfigError::Missing(ConfigField::FontTemplate)),
        };
        let adaptive_brightness = match self.adaptive_brightness {
            Some(v) => v,
            None => return Err(ConfigError::Missing(ConfigField::AdaptiveBrightness)),
        };
        let active_brightness = match self.active_brightness {
            Some(v) => v,
            None => return Err(ConfigError::Missing(ConfigField::ActiveBrightness)),
        };
        let mut primary_keys = match self.primary_layer_keys {
            Some(v) => v,
            None => return Err(ConfigError::Missing(ConfigField::PrimaryLayerKeys)),
        };
        let mut fn_keys = match self.fn_layer_keys {
            Some(v) => v,
            None => return Err(ConfigError::Missing(ConfigField::FnLayerKeys)),
        };
        add_soft_esc(&mut fn_keys, width);
        add_soft_esc(&mut primary_keys, width);
        let config = Config {
            show_button_outlines,
            enable_pixel_shift,
            adaptive_brightness,
            active_brightness,
        };
        Ok((config, font_template, primary_keys, fn_keys))
    }
}

/// Builds the two layers, primary first, from their key lists. Checks the
/// secondary list, then the primary one, then builds the secondary layer,
/// then the primary one; the first failure is returned.
pub fn build_layers(primary: Vec<ButtonConfig>, secondary: Vec<ButtonConfig>, now_ms: u64) -> (r:
    Result<Vec<FunctionLayer>, ConfigError>)
    ensures
        r matches Ok(ls) ==> {
            &&& ls@.len() == 2
            &&& ls@[0].wf() && ls@[0].built_from(primary@)
            &&& ls@[1].wf() && ls@[1].built_from(secondary@)
        },
        r matches Err(ConfigError::FnLayer(e)) ==> FunctionLayer::with_config_result(secondary@, e),
        r matches Err(ConfigError::PrimaryLayer(e)) ==> FunctionLayer::with_config_result(primary@, e),
        r is Ok <==> (FunctionLayer::config_ok(primary@) && FunctionLayer::config_ok(secondary@)),
        r matches Err(e) ==> (e matches ConfigError::FnLayer(_) || e matches ConfigError::PrimaryLayer(_)),
{
    if let Err(e) = FunctionLayer::check_config(&secondary) {
        return Err(ConfigError::FnLayer(e));
    }
    if let Err(e) = FunctionLayer::check_config(&primary) {
        return Err(ConfigError::PrimaryLayer(e));
    }
    let fn_layer = match FunctionLayer::with_config(secondary, now_ms) {
        Ok(l) => l,
        Err(e) => return Err(ConfigError::FnLayer(e)),
    };
    let primary_layer = match FunctionLayer::with_config(primary, now_ms) {
        Ok(l) => l,
        Err(e) => return Err(ConfigError::PrimaryLayer(e)),
    };
    let mut layers: Vec<FunctionLayer> = Vec::new();
    layers.push(primary_layer);
    layers.push(fn_layer);
    Ok(layers)
}

} // verus!
