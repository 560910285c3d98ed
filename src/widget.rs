use vstd::prelude::*;

use crate::event::KeyEmission;
use crate::metrics::{CPUSample, CPUUsage};

verus! {

/// A metric widget redraws when its last draw is at least this old.
pub const METRIC_REFRESH_MS: u64 = 5_000;

/// What a button shows. Icons are named here; the image itself is loaded
/// and drawn by the rendering side.
#[derive(Debug)]
pub enum ButtonImage {
    Text(String),
    Icon { name: String, theme: Option<String> },
    Time { format: String, locale: String },
    Processor,
    Memory,
    Battery,
}

/// One button as the configuration describes it. At most one of the
/// content fields is used, in the order text, icon, processor, memory,
/// time, battery.
#[derive(Debug)]
pub struct ButtonConfig {
    pub icon: Option<String>,
    pub text: Option<String>,
    pub theme: Option<String>,
    pub time: Option<String>,
    pub processor: Option<String>,
    pub memory: Option<String>,
    pub battery: Option<String>,
    pub locale: Option<String>,
    /// Key code injected while the button is held.
    pub action: u16,
    /// Width in virtual columns; absent or below 1 means 1.
    pub stretch: Option<usize>,
}

/// A button of a layer: its content, the key it injects, and whether it is
/// held (`active`) and needs a redraw (`changed`).
#[derive(Debug)]
pub struct Button {
    pub image: ButtonImage,
    pub changed: bool,
    pub active: bool,
    pub action: u16,
    /// Time of the last draw (metric widgets), in milliseconds on a
    /// monotonic clock; for the processor widget, of the last sample.
    pub last_draw_ms: u64,
    pub last_cpu: CPUUsage,
    pub last_cpu_readings: CPUSample,
}

/// `a + b`, capped at the largest `u64`.
pub open spec fn saturating_sum(a: int, b: int) -> u64 {
    if a + b <= u64::MAX as int {
        (a + b) as u64
    } else {
        u64::MAX
    }
}

/// A button after its held state is set to `active`: a change marks it
/// for a redraw, nothing else moves.
pub open spec fn activated(b: Button, active: bool) -> Button {
    Button { active, changed: b.changed || b.active != active, ..b }
}

impl ButtonImage {
    pub open spec fn is_metric(&self) -> bool {
        match self {
            ButtonImage::Processor | ButtonImage::Memory | ButtonImage::Battery => true,
            _ => false,
        }
    }

    pub open spec fn is_time(&self) -> bool {
        match self {
            ButtonImage::Time { .. } => true,
            _ => false,
        }
    }
}

impl ButtonConfig {
    /// Whether the configuration names any content for the button.
    pub open spec fn has_content(&self) -> bool {
        self.text.is_some() || self.icon.is_some() || self.processor.is_some()
            || self.memory.is_some() || self.time.is_some() || self.battery.is_some()
    }

    /// Whether `img` is the content that this configuration selects.
    pub open spec fn selects(&self, img: &ButtonImage) -> bool {
        if self.text.is_some() {
            img == ButtonImage::Text(self.text.unwrap())
        } else if self.icon.is_some() {
            img == ButtonImage::Icon { name: self.icon.unwrap(), theme: self.theme }
        } else if self.processor.is_some() {
            img == ButtonImage::Processor
        } else if self.memory.is_some() {
            img == ButtonImage::Memory
        } else if self.time.is_some() {
            match img {
                ButtonImage::Time { format, locale } => *format == self.time.unwrap() && locale@
                    == (match self.locale {
                    Some(l) => l@,
                    None => "POSIX"@,
                }),
                _ => false,
            }
        } else {
            img == ButtonImage::Battery
        }
    }

    /// Virtual columns the button spans: the configured stretch, at least
    /// 1, doubled for a clock.
    pub open spec fn effective_stretch(&self) -> nat {
        let s: nat = match self.stretch {
            Some(s) => if s >= 1 {
                s as nat
            } else {
                1
            },
            None => 1,
        };
        if self.time.is_some() {
            2 * s
        } else {
            s
        }
    }
}

impl Button {
    /// Whether the button is due for a redraw at `now_ms`.
    pub open spec fn spec_needs_redraw(&self, now_ms: u64) -> bool {
        self.changed || (self.image.is_metric() && now_ms >= self.last_draw_ms && now_ms
            - self.last_draw_ms >= METRIC_REFRESH_MS)
    }

    /// A released button showing `image`, created at `now_ms`.
    pub fn new(image: ButtonImage, action: u16, now_ms: u64) -> (r: Button)
        ensures
            r.image == image,
            r.action == action,
            !r.active,
            !r.changed,
            r.last_draw_ms == if now_ms >= 4_500 {
                now_ms - 4_500
            } else {
                0
            },
    {
        Button {
            image,
            changed: false,
            active: false,
            action,
            last_draw_ms: now_ms.saturating_sub(4_500),
            last_cpu: CPUUsage::default(),
            last_cpu_readings: CPUSample {
                idle: 0,
                user: 0,
                system: 0,
                nice: 0,
                guest: 0,
                guest_nice: 0,
                iowait: 0,
                irq: 0,
                softirq: 0,
                steal: 0,
            },
        }
    }

    /// Sets the held state; returns whether it changed, in which case the
    /// button is marked for a redraw.
    pub fn set_active(&mut self, active: bool) -> (r: bool)
        ensures
            r == (old(self).active != active),
            *final(self) == activated(*old(self), active),
    {
        if self.active != active {
            self.active = active;
            self.changed = true;
            true
        } else {
            false
        }
    }

    /// Key code the button injects.
    pub fn get_action(&self) -> (r: u16)
        ensures
            r == self.action,
    {
        self.action
    }

    /// Whether the button is held.
    pub fn active(&self) -> (r: bool)
        ensures
            r == self.active,
    {
        self.active
    }

    /// Whether the button is due for a redraw: it changed, or it shows a
    /// metric whose last draw is at least five seconds old.
    pub fn changed(&self, now_ms: u64) -> (r: bool)
        ensures
            r == self.spec_needs_redraw(now_ms),
    {
        self.changed || (self.image_is_metric() && now_ms >= self.last_draw_ms && now_ms
            - self.last_draw_ms >= METRIC_REFRESH_MS)
    }

    fn image_is_metric(&self) -> (r: bool)
        ensures
            r == self.image.is_metric(),
    {
        match self.image {
            ButtonImage::Processor | ButtonImage::Memory | ButtonImage::Battery => true,
            _ => false,
        }
    }

    /// Whether the button shows the clock.
    pub fn is_time(&self) -> (r: bool)
        ensures
            r == self.image.is_time(),
    {
        match self.image {
            ButtonImage::Time { .. } => true,
            _ => false,
        }
    }

    /// When the button next wants a redraw of its own: five seconds after
    /// the last draw for a metric, the next minute boundary for the clock
    /// (`second` is the current second of the minute), never otherwise.
    pub fn next_draw_time(&self, now_ms: u64, second: u32) -> (r: Option<u64>)
        ensures
            self.image.is_metric() ==> r == Some(
                saturating_sum(self.last_draw_ms as int, METRIC_REFRESH_MS as int),
            ),
            self.image.is_time() ==> r == Some(
                saturating_sum(
                    now_ms as int,
                    (if second <= 60 {
                        60 - second
                    } else {
                        0
                    }) * 1000,
                ),
            ),
            !self.image.is_metric() && !self.image.is_time() ==> r == None::<u64>,
    {
        if self.image_is_metric() {
            Some(self.last_draw_ms.saturating_add(METRIC_REFRESH_MS))
        } else if self.is_time() {
            let left = 60u32.saturating_sub(second) as u64;
            Some(now_ms.saturating_add(left * 1000))
        } else {
            None
        }
    }

    /// Clears the redraw mark.
    pub fn reset_changed(&mut self)
        ensures
            !final(self).changed,
            final(self).active == old(self).active,
            final(self).image == old(self).image,
            final(self).action == old(self).action,
            final(self).last_draw_ms == old(self).last_draw_ms,
    {
        self.changed = false;
    }

    /// Records that the button was drawn at `now_ms`: clears the redraw
    /// mark and, for the memory and battery widgets, restarts the refresh
    /// period.
    pub fn mark_drawn(&mut self, now_ms: u64)
        ensures
            !final(self).changed,
            final(self).active == old(self).active,
            final(self).image == old(self).image,
            final(self).action == old(self).action,
            final(self).last_draw_ms == (match old(self).image {
                ButtonImage::Memory | ButtonImage::Battery => now_ms,
                _ => old(self).last_draw_ms,
            }),
    {
        self.changed = false;
        match self.image {
            ButtonImage::Memory | ButtonImage::Battery => {
                self.last_draw_ms = now_ms;
            },
            _ => {},
        }
    }

    /// CPU shares to show at `now_ms`: a new sample when the last one is at
    /// least five seconds old, else the last one.
    pub fn processor_reading(&mut self, now_ms: u64) -> (r: CPUSample)
        ensures
            final(self).image == old(self).image,
            final(self).active == old(self).active,
            final(self).changed == old(self).changed,
            final(self).action == old(self).action,
            r == final(self).last_cpu_readings,
            if now_ms >= old(self).last_draw_ms && now_ms - old(self).last_draw_ms
                >= METRIC_REFRESH_MS {
                final(self).last_draw_ms == now_ms
            } else {
                final(self).last_draw_ms == old(self).last_draw_ms && r
                    == old(self).last_cpu_readings
            },
    {
        if now_ms >= self.last_draw_ms && now_ms - self.last_draw_ms >= METRIC_REFRESH_MS {
            self.last_cpu_readings = self.last_cpu.sample();
            self.last_draw_ms = now_ms;
        }
        self.last_cpu_readings
    }
}

/// Effective stretch of a button configuration.
pub fn effective_stretch(cfg: &ButtonConfig) -> (r: Option<usize>)
    ensures
        match r {
            Some(v) => v as nat == cfg.effective_stretch(),
            None => cfg.effective_stretch() > usize::MAX as nat,
        },
{
    let s: usize = match cfg.stretch {
        Some(s) => if s >= 1 {
            s
        } else {
            1
        },
        None => 1,
    };
    if cfg.time.is_some() {
        s.checked_mul(2)
    } else {
        Some(s)
    }
}

/// Builds the button that a configuration describes: its content is
/// chosen by the first content field present, and it starts released.
pub fn new_widget_from_config(cfg: ButtonConfig, now_ms: u64) -> (r: Button)
    requires
        cfg.has_content(),
    ensures
        cfg.selects(&r.image),
        r.action == cfg.action,
        !r.active,
        !r.changed,
{
    let action = cfg.action;
    let image = if let Some(text) = cfg.text {
        ButtonImage::Text(text)
    } else if let Some(icon) = cfg.icon {
        ButtonImage::Icon { name: icon, theme: cfg.theme }
    } else if cfg.processor.is_some() {
        ButtonImage::Processor
    } else if cfg.memory.is_some() {
        ButtonImage::Memory
    } else if let Some(format) = cfg.time {
        let locale = match cfg.locale {
            Some(l) => l,
            None => "POSIX".to_owned(),
        };
        ButtonImage::Time { format, locale }
    } else {
        ButtonImage::Battery
    };
    Button::new(image, action, now_ms)
}

/// Sets a button's held state; a change emits exactly one key event for the
/// button's key, press or release.
pub fn set_widget_active(widget: &mut Button, out: &mut Vec<KeyEmission>, active: bool)
    ensures
        *final(widget) == activated(*old(widget), active),
        final(out)@ == if old(widget).active != active {
            old(out)@.push(KeyEmission { code: old(widget).action, pressed: active })
        } else {
            old(out)@
        },
{
    if widget.set_active(active) {
        out.push(KeyEmission { code: widget.get_action(), pressed: active });
    }
}

} // verus!
