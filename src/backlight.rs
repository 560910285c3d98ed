use vstd::prelude::*;

use crate::config::Config;
use crate::event::InputEvent;
use crate::text::{contains_str, has_substring};

verus! {

/// Largest brightness value that the main panel reports.
pub const MAX_DISPLAY_BRIGHTNESS: u32 = 509;

/// Largest brightness value that the function row accepts.
pub const MAX_TOUCH_BAR_BRIGHTNESS: u32 = 255;

/// Idle time after which the row is dimmed. A multiple of the loop's
/// polling period, so that the row reacts at most one period late.
pub const BRIGHTNESS_DIM_TIMEOUT_MS: u64 = 15_000;

/// Idle time after which the row is switched off.
pub const BRIGHTNESS_OFF_TIMEOUT_MS: u64 = 60_000;

/// Brightness of the dimmed (idle but legible) row.
pub const DIMMED_BRIGHTNESS: u32 = 1;

/// `r` is the integer square root of `n`.
pub open spec fn is_root(n: nat, r: nat) -> bool {
    r * r <= n < (r + 1) * (r + 1)
}

/// The integer square root of `n`.
pub open spec fn root_of(n: nat) -> nat {
    choose|r: nat| #[trigger] is_root(n, r)
}

/// The integer square root exists and is unique.
pub proof fn lemma_root_unique(n: nat, r: nat)
    ensures
        is_root(n, root_of(n)),
        is_root(n, r) ==> r == root_of(n),
{
    lemma_root_exists(n);
    let q = root_of(n);
    if is_root(n, r) && r != q {
        if r < q {
            assert((r + 1) * (r + 1) <= q * q) by (nonlinear_arith)
                requires r + 1 <= q;
        } else {
            assert((q + 1) * (q + 1) <= r * r) by (nonlinear_arith)
                requires q + 1 <= r;
        }
    }
}

proof fn lemma_root_exists(n: nat)
    ensures
        exists|r: nat| #[trigger] is_root(n, r),
    decreases n,
{
    if n == 0 {
        assert(is_root(0, 0)) by (nonlinear_arith);
    } else {
        lemma_root_exists((n - 1) as nat);
        let r = choose|r: nat| #[trigger] is_root((n - 1) as nat, r);
        if (r + 1) * (r + 1) == n {
            assert((r + 1) * (r + 1) <= n < (r + 2) * (r + 2)) by (nonlinear_arith)
                requires (r + 1) * (r + 1) == n;
            assert(is_root(n, r + 1));
        } else {
            assert(is_root(n, r));
        }
    }
}

/// Function-row brightness that follows a main-panel reading: the square
/// root of the panel's brightness ratio scales the active brightness, one
/// is added so that the row never goes dark, and the result is capped.
pub open spec fn touchbar_level(display: nat, active: nat) -> nat {
    let k = root_of(active * active * display / (MAX_DISPLAY_BRIGHTNESS as nat));
    if k + 1 < MAX_TOUCH_BAR_BRIGHTNESS as nat {
        k + 1
    } else {
        MAX_TOUCH_BAR_BRIGHTNESS as nat
    }
}

/// Brightness before the device maximum is applied, as a function of the
/// lid, the idle time and the configured policy.
pub open spec fn target_brightness(
    lid_closed: bool,
    idle_ms: nat,
    adaptive: bool,
    active: nat,
    display: nat,
) -> nat {
    if lid_closed {
        0
    } else if idle_ms < BRIGHTNESS_DIM_TIMEOUT_MS as nat {
        if adaptive {
            touchbar_level(display, active)
        } else {
            active
        }
    } else if idle_ms < BRIGHTNESS_OFF_TIMEOUT_MS as nat {
        DIMMED_BRIGHTNESS as nat
    } else {
        0
    }
}

/// Maps a main-panel brightness reading to a function-row brightness.
pub fn display_to_touchbar(display: u32, active_brightness: u32) -> (r: u32)
    ensures
        r as nat == touchbar_level(display as nat, active_brightness as nat),
{
    let a = active_brightness as u128;
    assert(a * a <= 0xffff_ffffu128 * 0xffff_ffffu128) by (nonlinear_arith)
        requires a <= 0xffff_ffffu128;
    let aa = a * a;
    assert(aa * (display as u128) <= 0xffff_ffffu128 * 0xffff_ffffu128 * 0xffff_ffffu128) by (nonlinear_arith)
        requires aa <= 0xffff_ffffu128 * 0xffff_ffffu128, display <= 0xffff_ffffu32;
    let n = aa * (display as u128) / (MAX_DISPLAY_BRIGHTNESS as u128);
    let mut k: u128 = 0;
    loop
        invariant
            k <= MAX_TOUCH_BAR_BRIGHTNESS as u128,
            k * k <= n,
        ensures
            k <= MAX_TOUCH_BAR_BRIGHTNESS as u128,
            k * k <= n,
            k < MAX_TOUCH_BAR_BRIGHTNESS as u128 ==> n < (k + 1) * (k + 1),
        decreases MAX_TOUCH_BAR_BRIGHTNESS as u128 - k,
    {
        if k >= MAX_TOUCH_BAR_BRIGHTNESS as u128 {
            break;
        }
        let next = k + 1;
        assert(next * next <= 65536) by (nonlinear_arith)
            requires next <= 256;
        if next * next > n {
            break;
        }
        k = next;
    }
    proof {
        let nn = n as nat;
        assert(nn == (active_brightness as nat) * (active_brightness as nat) * (display as nat)
            / (MAX_DISPLAY_BRIGHTNESS as nat));
        lemma_root_unique(nn, k as nat);
        if k < MAX_TOUCH_BAR_BRIGHTNESS as u128 {
            assert(is_root(nn, k as nat));
        } else {
            let q = root_of(nn);
            if q < k {
                assert((q + 1) * (q + 1) <= k * k) by (nonlinear_arith)
                    requires q + 1 <= k;
            }
        }
    }
    if k + 1 < MAX_TOUCH_BAR_BRIGHTNESS as u128 {
        (k + 1) as u32
    } else {
        MAX_TOUCH_BAR_BRIGHTNESS
    }
}

} // verus!

verus! {

/// Idle tracking and brightness state of the function row's backlight.
#[derive(Clone, Copy, Debug, PartialEq, Eq, Structural)]
pub struct BacklightManager {
    /// Time of the last user activity, in milliseconds on a monotonic clock.
    pub last_active_ms: u64,
    /// Device maximum.
    pub max_bl: u32,
    /// Last value written to the device.
    pub current_bl: u32,
    pub lid_closed: bool,
}

/// Milliseconds elapsed since `since`, zero if the clock reads earlier.
pub open spec fn idle_ms(since: u64, now: u64) -> nat {
    if now >= since {
        (now - since) as nat
    } else {
        0
    }
}

impl BacklightManager {
    /// Brightness the row should have at `now_ms`, capped at the device maximum.
    pub open spec fn wanted(self, cfg: Config, now_ms: u64, display: u32) -> nat {
        let t = target_brightness(
            self.lid_closed,
            idle_ms(self.last_active_ms, now_ms),
            cfg.adaptive_brightness,
            cfg.active_brightness as nat,
            display as nat,
        );
        if t < self.max_bl as nat {
            t
        } else {
            self.max_bl as nat
        }
    }

    /// State and device write that one recompute yields.
    pub open spec fn spec_update(self, cfg: Config, now_ms: u64, display: u32) -> (
        BacklightManager,
        Option<u32>,
    ) {
        let v = self.wanted(cfg, now_ms, display) as u32;
        if v != self.current_bl {
            (BacklightManager { current_bl: v, ..self }, Some(v))
        } else {
            (self, None)
        }
    }

    /// State after an input event at `now_ms`.
    pub open spec fn spec_process_event(self, event: InputEvent, now_ms: u64) -> BacklightManager {
        match event {
            InputEvent::Lid { closed } => BacklightManager {
                lid_closed: closed,
                last_active_ms: if closed {
                    now_ms
                } else {
                    self.last_active_ms
                },
                ..self
            },
            _ => if event.is_activity() {
                BacklightManager { last_active_ms: now_ms, ..self }
            } else {
                self
            },
        }
    }

    /// A manager for a device with maximum `max_bl` that currently shows
    /// `current_bl`, with the lid open and activity at `now_ms`.
    pub fn new(max_bl: u32, current_bl: u32, now_ms: u64) -> (r: BacklightManager)
        ensures
            r == (BacklightManager { last_active_ms: now_ms, max_bl, current_bl, lid_closed: false }),
    {
        BacklightManager { last_active_ms: now_ms, max_bl, current_bl, lid_closed: false }
    }

    /// Whether a recompute at `now_ms` reads the main panel's brightness.
    pub open spec fn needs_display_reading_spec(&self, cfg: Config, now_ms: u64) -> bool {
        !self.lid_closed && cfg.adaptive_brightness && idle_ms(self.last_active_ms, now_ms)
            < BRIGHTNESS_DIM_TIMEOUT_MS as nat
    }

    /// Whether a recompute at `now_ms` reads the main panel's brightness.
    pub fn needs_display_reading(&self, cfg: &Config, now_ms: u64) -> (r: bool)
        ensures
            r == self.needs_display_reading_spec(*cfg, now_ms),
    {
        let idle = if now_ms >= self.last_active_ms {
            now_ms - self.last_active_ms
        } else {
            0
        };
        !self.lid_closed && cfg.adaptive_brightness && idle < BRIGHTNESS_DIM_TIMEOUT_MS
    }

    /// Records activity: any keyboard, pointer, gesture or touch event
    /// refreshes the idle timer; a lid switch sets the lid state and, on
    /// closing, refreshes the timer too.
    pub fn process_event(&mut self, event: &InputEvent, now_ms: u64)
        ensures
            *final(self) == old(self).spec_process_event(*event, now_ms),
    {
        match event {
            InputEvent::Keyboard { .. } | InputEvent::Pointer | InputEvent::Gesture
            | InputEvent::Touch(_) => {
                self.last_active_ms = now_ms;
            },
            InputEvent::Lid { closed } => {
                self.lid_closed = *closed;
                if *closed {
                    self.last_active_ms = now_ms;
                }
            },
            InputEvent::Other => {},
        }
    }

    /// Recomputes the brightness and returns the value to write to the
    /// device, or `None` when it equals the last value written.
    /// `display` is the main panel's brightness reading; it is read only
    /// when `needs_display_reading` holds.
    pub fn update_backlight(&mut self, cfg: &Config, now_ms: u64, display: u32) -> (r: Option<
        u32,
    >)
        ensures
            (*final(self), r) == old(self).spec_update(*cfg, now_ms, display),
            final(self).current_bl as nat == old(self).wanted(*cfg, now_ms, display),
    {
        let idle = if now_ms >= self.last_active_ms {
            now_ms - self.last_active_ms
        } else {
            0
        };
        let target: u32 = if self.lid_closed {
            0
        } else if idle < BRIGHTNESS_DIM_TIMEOUT_MS {
            if cfg.adaptive_brightness {
                display_to_touchbar(display, cfg.active_brightness)
            } else {
                cfg.active_brightness
            }
        } else if idle < BRIGHTNESS_OFF_TIMEOUT_MS {
            DIMMED_BRIGHTNESS
        } else {
            0
        };
        let new_bl = if target < self.max_bl {
            target
        } else {
            self.max_bl
        };
        if self.current_bl != new_bl {
            self.current_bl = new_bl;
            Some(new_bl)
        } else {
            None
        }
    }

    /// Last value written to the device.
    pub fn current_bl(&self) -> (r: u32)
        ensures
            r == self.current_bl,
    {
        self.current_bl
    }
}

/// Recomputing the brightness a second time with unchanged inputs writes
/// nothing to the device and leaves the state as the first recompute left it.
pub proof fn lemma_update_idempotent(m: BacklightManager, cfg: Config, now_ms: u64, display: u32)
    ensures
        ({
            let first = m.spec_update(cfg, now_ms, display).0;
            &&& first.spec_update(cfg, now_ms, display).1 == None::<u32>
            &&& first.spec_update(cfg, now_ms, display).0 == first
        }),
{
}

/// Whether a backlight device of this name drives the function row.
pub fn is_touchbar_backlight(name: &str) -> (r: bool)
    ensures
        r == (has_substring(name@, "display-pipe"@) || has_substring(name@, "228600000.dsi.0"@)
            || has_substring(name@, "appletb_backlight"@)),
{
    contains_str(name, "display-pipe") || contains_str(name, "228600000.dsi.0") || contains_str(
        name,
        "appletb_backlight",
    )
}

/// Whether a backlight device of this name drives the main panel.
pub fn is_display_backlight(name: &str) -> (r: bool)
    ensures
        r == (has_substring(name@, "apple-panel-bl"@) || has_substring(name@, "gmux_backlight"@)
            || has_substring(name@, "intel_backlight"@) || has_substring(name@, "acpi_video0"@)),
{
    contains_str(name, "apple-panel-bl") || contains_str(name, "gmux_backlight") || contains_str(
        name,
        "intel_backlight",
    ) || contains_str(name, "acpi_video0")
}

} // verus!
