use vstd::prelude::*;

use std::collections::HashMap;

use crate::backlight::BacklightManager;
use crate::config::Config;
use crate::event::{InputEvent, KeyEmission, TouchEvent, TouchPhase, KEY_FN};
use crate::layout::{lemma_fits_wider, FunctionLayer};
use crate::pixel_shift::PixelShift;
use crate::redraw::{clip_of, layout_width, ClipRect, DrawPlan};
use crate::widget::{activated, set_widget_active, Button};

verus! {

broadcast use vstd::std_specs::hash::group_hash_axioms;

/// The button that a touch contact is bound to, for the contact's lifetime.
#[derive(Clone, Copy, Debug, PartialEq, Eq, Structural)]
pub struct TouchSession {
    pub layer: usize,
    pub button: usize,
}

/// The state of the control loop: configuration, the two layers and which
/// one is shown, the touch sessions, the backlight, and the pending redraw.
#[derive(Debug)]
pub struct EventLoop {
    pub config: Config,
    /// The primary layer, then the secondary one.
    pub layers: Vec<FunctionLayer>,
    pub active_layer: usize,
    pub needs_complete_redraw: bool,
    pub last_redraw_minute: u32,
    /// Touch sessions keyed by hardware slot.
    pub touches: HashMap<u32, TouchSession>,
    pub backlight: BacklightManager,
    pub pixel_shift: PixelShift,
    /// Size of the canvas, in pixels: `width` along the row.
    pub width: u16,
    pub height: u16,
}

/// Whether `layer` can be shown on a canvas `width` pixels wide with `cfg`.
pub open spec fn layer_fits(layer: FunctionLayer, cfg: Config, width: u16) -> bool {
    layer.wf() && layer.fits(layout_width(cfg, width as int))
}

impl EventLoop {
    pub open spec fn button(&self, l: int, b: int) -> Button {
        self.layers@[l].buttons@[b].1
    }

    /// Horizontal offset of the drawing origin.
    pub open spec fn shift_x(&self) -> i32 {
        if self.config.enable_pixel_shift {
            crate::pixel_shift::offset_of(self.pixel_shift.step as int) as i32
        } else {
            0
        }
    }

    /// Whether a session points at an existing button.
    pub open spec fn session_ok(&self, s: TouchSession) -> bool {
        s.layer < 2 && s.button < self.layers@[s.layer as int].len()
    }

    pub open spec fn wf(&self) -> bool {
        &&& self.layers@.len() == 2
        &&& layer_fits(self.layers@[0], self.config, self.width)
        &&& layer_fits(self.layers@[1], self.config, self.width)
        &&& self.width > 0
        &&& self.active_layer < 2
        &&& self.pixel_shift.wf()
        &&& forall|k: u32| #[trigger]
            self.touches@.contains_key(k) ==> self.session_ok(self.touches@[k])
    }

    /// Whether a touch report is acted on: it comes from the digitizer
    /// and the row is lit.
    pub open spec fn touch_accepted(&self, te: TouchEvent) -> bool {
        te.from_digitizer && self.backlight.current_bl != 0
    }

    /// The button a touch report sets, and the held state it sets it to.
    pub open spec fn touch_target(&self, te: TouchEvent) -> Option<(TouchSession, bool)> {
        if !self.touch_accepted(te) {
            None
        } else {
            match te.phase {
                TouchPhase::Down => match self.layers@[self.active_layer as int].spec_hit(
                    self.width as int,
                    self.height as int,
                    te.x as int,
                    te.y as int,
                    None,
                ) {
                    Some(b) => Some((TouchSession { layer: self.active_layer, button: b }, true)),
                    None => None,
                },
                TouchPhase::Motion => if self.touches@.contains_key(te.slot) {
                    let s = self.touches@[te.slot];
                    Some(
                        (
                            s,
                            self.layers@[s.layer as int].spec_hit(
                                self.width as int,
                                self.height as int,
                                te.x as int,
                                te.y as int,
                                Some(s.button),
                            ).is_some(),
                        ),
                    )
                } else {
                    None
                },
                TouchPhase::Up => if self.touches@.contains_key(te.slot) {
                    Some((self.touches@[te.slot], false))
                } else {
                    None
                },
                TouchPhase::Other => None,
            }
        }
    }

    /// The session table after a touch report: a down on a button opens a
    /// session bound to it, an up closes the slot's session.
    pub open spec fn touches_after(&self, te: TouchEvent) -> Map<u32, TouchSession> {
        if !self.touch_accepted(te) {
            self.touches@
        } else {
            match te.phase {
                TouchPhase::Down => match self.touch_target(te) {
                    Some((s, _)) => self.touches@.insert(te.slot, s),
                    None => self.touches@,
                },
                TouchPhase::Up => self.touches@.remove(te.slot),
                _ => self.touches@,
            }
        }
    }

    /// The session table after any event: only touch reports change it.
    pub open spec fn sessions_after(&self, event: InputEvent) -> Map<u32, TouchSession> {
        match event {
            InputEvent::Touch(te) => self.touches_after(te),
            _ => self.touches@,
        }
    }

    /// The layer shown after an event: the modifier key selects the
    /// secondary layer while pressed, the primary one once released.
    pub open spec fn layer_after(&self, event: InputEvent) -> usize {
        match event {
            InputEvent::Keyboard { key, pressed } => if key == KEY_FN {
                if pressed {
                    1
                } else {
                    0
                }
            } else {
                self.active_layer
            },
            _ => self.active_layer,
        }
    }
}

/// `new` is `old` with button `b` of layer `l` set to `active`.
pub open spec fn pressed(old: &EventLoop, new: &EventLoop, l: int, b: int, active: bool) -> bool {
    &&& new.layers@.len() == old.layers@.len()
    &&& forall|k: int| 0 <= k < old.layers@.len() && k != l ==> #[trigger] new.layers@[k] == old.layers@[k]
    &&& new.layers@[l].virtual_button_count == old.layers@[l].virtual_button_count
    &&& new.layers@[l].buttons@ == old.layers@[l].buttons@.update(
        b,
        (old.layers@[l].buttons@[b].0, activated(old.button(l, b), active)),
    )
}

/// The key events that setting a button to `active` emits.
pub open spec fn emissions(b: Button, active: bool) -> Seq<KeyEmission> {
    if b.active != active {
        seq![KeyEmission { code: b.action, pressed: active }]
    } else {
        Seq::empty()
    }
}

/// Everything but the layers and the session table is as before.
pub open spec fn same_settings(old: &EventLoop, new: &EventLoop) -> bool {
    &&& new.config == old.config
    &&& new.width == old.width
    &&& new.height == old.height
    &&& new.last_redraw_minute == old.last_redraw_minute
    &&& new.pixel_shift == old.pixel_shift
}

impl EventLoop {
    /// Sets button `b` of layer `l` to `active`, emitting its key event if
    /// the held state changes.
    fn set_button_active(&mut self, l: usize, b: usize, active: bool, out: &mut Vec<KeyEmission>)
        requires
            old(self).wf(),
            l < 2,
            b < old(self).layers@[l as int].len(),
        ensures
            final(self).wf(),
            pressed(old(self), final(self), l as int, b as int, active),
            same_settings(old(self), final(self)),
            final(self).touches@ == old(self).touches@,
            final(self).active_layer == old(self).active_layer,
            final(self).needs_complete_redraw == old(self).needs_complete_redraw,
            final(self).backlight == old(self).backlight,
            final(out)@ == old(out)@ + emissions(old(self).button(l as int, b as int), active),
    {
        let ghost before = *self;
        set_widget_active(&mut self.layers[l].buttons[b].1, out, active);
        proof {
            let nl = self.layers@[l as int];
            let ol = before.layers@[l as int];
            assert forall|i: int| 0 <= i < ol.len() implies #[trigger] nl.start(i) == ol.start(i) by {
                if i != b {
                    assert(nl.buttons@[i] == ol.buttons@[i]);
                }
            }
            assert(nl.len() == ol.len());
            assert(layer_fits(nl, self.config, self.width));
            assert(self.layers@[1 - l] == before.layers@[1 - l]);
            assert forall|k: u32| #[trigger] self.touches@.contains_key(k) implies self.session_ok(
                self.touches@[k],
            ) by {
                assert(before.session_ok(before.touches@[k]));
            }
            if before.button(l as int, b as int).active != active {
                assert(out@ == old(out)@.push(
                    KeyEmission { code: before.button(l as int, b as int).action, pressed: active },
                ));
            } else {
                assert(out@ == old(out)@);
            }
        }
    }

    /// Applies one input event. Activity and lid events reach the
    /// backlight; the modifier key switches the shown layer, which forces
    /// a complete redraw when it changes. A touch report from the
    /// digitizer while the row is lit drives the sessions: a down on a
    /// button presses it and binds the slot to it, a motion holds the
    /// bound button while the contact stays on it, an up releases it and
    /// ends the session. Each change of a button's held state appends one
    /// key event to `out`.
    pub fn process_event(&mut self, event: &InputEvent, now_ms: u64, out: &mut Vec<KeyEmission>)
        requires
            old(self).wf(),
        ensures
            final(self).wf(),
            same_settings(old(self), final(self)),
            final(self).backlight == old(self).backlight.spec_process_event(*event, now_ms),
            final(self).active_layer == old(self).layer_after(*event),
            final(self).needs_complete_redraw == (old(self).needs_complete_redraw
                || final(self).active_layer != old(self).active_layer),
            final(self).touches@ == old(self).sessions_after(*event),
            match *event {
                InputEvent::Touch(te) => {
                    &&& final(self).touches@ == old(self).touches_after(te)
                    &&& match old(self).touch_target(te) {
                        Some((s, a)) => {
                            &&& pressed(old(self), final(self), s.layer as int, s.button as int, a)
                            &&& final(out)@ == old(out)@ + emissions(
                                old(self).button(s.layer as int, s.button as int),
                                a,
                            )
                        },
                        None => final(self).layers@ == old(self).layers@ && final(out)@ == old(
                            out,
                        )@,
                    }
                },
                _ => {
                    &&& final(self).touches@ == old(self).touches@
                    &&& final(self).layers@ == old(self).layers@
                    &&& final(out)@ == old(out)@
                },
            },
    {
        self.backlight.process_event(event, now_ms);
        match event {
            InputEvent::Keyboard { key, pressed } => {
                if *key == KEY_FN {
                    let new_layer: usize = if *pressed {
                        1
                    } else {
                        0
                    };
                    if self.active_layer != new_layer {
                        self.active_layer = new_layer;
                        self.needs_complete_redraw = true;
                    }
                }
            },
            InputEvent::Touch(te) => {
                if !te.from_digitizer || self.backlight.current_bl() == 0 {
                    return;
                }
                let l = self.active_layer;
                proof {
                    lemma_fits_wider(
                        &self.layers@[0],
                        layout_width(self.config, self.width as int),
                        self.width as int,
                    );
                    lemma_fits_wider(
                        &self.layers@[1],
                        layout_width(self.config, self.width as int),
                        self.width as int,
                    );
                }
                match te.phase {
                    TouchPhase::Down => {
                        match self.layers[l].hit(self.width, self.height, te.x, te.y, None) {
                            Some(b) => {
                                self.set_button_active(l, b, true, out);
                                self.touches.insert(te.slot, TouchSession { layer: l, button: b });
                            },
                            None => {},
                        }
                    },
                    TouchPhase::Motion => {
                        let found = match self.touches.get(&te.slot) {
                            Some(s) => Some(*s),
                            None => None,
                        };
                        if let Some(s) = found {
                            assert(self.session_ok(s));
                            let on = self.layers[s.layer].hit(
                                self.width,
                                self.height,
                                te.x,
                                te.y,
                                Some(s.button),
                            ).is_some();
                            self.set_button_active(s.layer, s.button, on, out);
                        }
                    },
                    TouchPhase::Up => {
                        if let Some(s) = self.touches.remove(&te.slot) {
                            assert(self.session_ok(s));
                            self.set_button_active(s.layer, s.button, false, out);
                        }
                    },
                    TouchPhase::Other => {},
                }
            },
            _ => {},
        }
    }
}

/// A session stays bound to the button it was opened on: no event but a
/// down or an up on its own slot (acted on) changes it, a layer switch
/// included. An up on a slot without a session changes no session, sets
/// no button and emits nothing.
pub proof fn lemma_session_binding(lp: &EventLoop, event: InputEvent, slot: u32)
    requires
        lp.wf(),
    ensures
        lp.touches@.contains_key(slot) && !(match event {
            InputEvent::Touch(te) => te.slot == slot && lp.touch_accepted(te) && (te.phase
                == TouchPhase::Down || te.phase == TouchPhase::Up),
            _ => false,
        }) ==> {
            &&& lp.sessions_after(event).contains_key(slot)
            &&& lp.sessions_after(event)[slot] == lp.touches@[slot]
        },
        match event {
            InputEvent::Touch(te) => te.phase == TouchPhase::Up && !lp.touches@.contains_key(te.slot)
                ==> {
                &&& lp.sessions_after(event) == lp.touches@
                &&& lp.touch_target(te) == None::<(TouchSession, bool)>
            },
            _ => true,
        },
{
    if let InputEvent::Touch(te) = event {
        if te.phase == TouchPhase::Up && !lp.touches@.contains_key(te.slot) {
            assert(lp.touches@.remove(te.slot) =~= lp.touches@);
        }
    }
}

/// A contact that slides off the button its session is bound to releases
/// that button and only it: the button is set to released, exactly one
/// key-up for its key is emitted, and the session stays bound to it.
pub proof fn lemma_slide_off_releases(lp: &EventLoop, te: TouchEvent)
    requires
        lp.wf(),
        te.phase == TouchPhase::Motion,
        lp.touch_accepted(te),
        lp.touches@.contains_key(te.slot),
        lp.button(
            lp.touches@[te.slot].layer as int,
            lp.touches@[te.slot].button as int,
        ).active,
        lp.layers@[lp.touches@[te.slot].layer as int].spec_hit(
            lp.width as int,
            lp.height as int,
            te.x as int,
            te.y as int,
            Some(lp.touches@[te.slot].button),
        ) is None,
    ensures
        ({
            let s = lp.touches@[te.slot];
            &&& lp.touch_target(te) == Some((s, false))
            &&& emissions(lp.button(s.layer as int, s.button as int), false) == seq![
                KeyEmission { code: lp.button(s.layer as int, s.button as int).action, pressed: false },
            ]
            &&& lp.touches_after(te) == lp.touches@
        }),
{
}

/// The effect of one scheduling step at wall-clock `minute:second` and
/// monotonic `now_ms` that returned the wait `r`.
pub open spec fn scheduled(
    old: &EventLoop,
    new: &EventLoop,
    minute: u32,
    second: u32,
    now_ms: u64,
    r: u64,
) -> bool {
    let clock = shows_clock(old.layers@[old.active_layer as int]) && minute
        != old.last_redraw_minute;
    let shifted = old.config.enable_pixel_shift && old.pixel_shift.due(now_ms);
    &&& new.config == old.config
    &&& new.layers@ == old.layers@
    &&& new.touches@ == old.touches@
    &&& new.active_layer == old.active_layer
    &&& new.backlight == old.backlight
    &&& new.width == old.width
    &&& new.height == old.height
    &&& new.needs_complete_redraw == (old.needs_complete_redraw || clock || shifted)
    &&& new.last_redraw_minute == if clock {
        minute
    } else {
        old.last_redraw_minute
    }
    &&& new.pixel_shift == if old.config.enable_pixel_shift {
        old.pixel_shift.after(now_ms)
    } else {
        old.pixel_shift
    }
    &&& r == if old.config.enable_pixel_shift && old.pixel_shift.wait(now_ms) < base_timeout(
        second,
    ) {
        old.pixel_shift.wait(now_ms)
    } else {
        base_timeout(second)
    }
}

/// Relies on chrono's `Local::now`: the local wall-clock time, of which
/// only the minute and the second are kept; chrono documents both as 0
/// to 59.
#[verifier::external_body]
fn wall_clock() -> (r: (u32, u32))
    ensures
        r.0 < 60,
        r.1 < 60,
{
    let now = chrono::Local::now();
    (chrono::Timelike::minute(&now), chrono::Timelike::second(&now))
}

/// Longest wait of the loop, in milliseconds.
pub const TIMEOUT_MS: u64 = 10_000;

/// Key releases for the held buttons among the first `n` of a layer, in order.
pub open spec fn releases(buttons: Seq<(usize, Button)>, n: int) -> Seq<KeyEmission>
    decreases n,
{
    if n <= 0 {
        Seq::empty()
    } else {
        releases(buttons, n - 1) + emissions(buttons[n - 1].1, false)
    }
}

/// Whether a layer shows the clock.
pub open spec fn shows_clock(layer: FunctionLayer) -> bool {
    exists|i: int| 0 <= i < layer.len() && #[trigger] layer.buttons@[i].1.image.is_time()
}

/// Whether a layer has a button due for a redraw at `now_ms`.
pub open spec fn any_due(layer: FunctionLayer, now_ms: u64) -> bool {
    exists|i: int| 0 <= i < layer.len() && #[trigger] layer.buttons@[i].1.spec_needs_redraw(now_ms)
}

/// Wait until the next minute boundary, capped at the loop's longest wait.
pub open spec fn base_timeout(second: u32) -> u64 {
    let left: int = if second <= 60 {
        (60 - second) * 1000
    } else {
        0
    };
    if left < TIMEOUT_MS {
        left as u64
    } else {
        TIMEOUT_MS
    }
}

fn layout_width_of(cfg: &Config, width: u16) -> (r: i64)
    ensures
        r as int == layout_width(*cfg, width as int),
{
    if cfg.enable_pixel_shift {
        width as i64 - crate::redraw::PIXEL_SHIFT_WIDTH_PX as i64
    } else {
        width as i64
    }
}

/// Whether both layers can be shown on a canvas `width` pixels wide.
pub fn layers_fit(cfg: &Config, layers: &Vec<FunctionLayer>, width: u16) -> (r: bool)
    ensures
        r == (layers@.len() == 2 && layer_fits(layers@[0], *cfg, width) && layer_fits(
            layers@[1],
            *cfg,
            width,
        )),
{
    if layers.len() != 2 {
        return false;
    }
    let w = layout_width_of(cfg, width);
    layers[0].is_valid() && layers[0].fits_width(w) && layers[1].is_valid() && layers[1].fits_width(
        w,
    )
}

fn collect_releases(layer: &FunctionLayer, out: &mut Vec<KeyEmission>)
    ensures
        final(out)@ == old(out)@ + releases(layer.buttons@, layer.len() as int),
{
    let n = layer.buttons.len();
    let mut i: usize = 0;
    while i < n
        invariant
            n == layer.len(),
            i <= n,
            out@ == old(out)@ + releases(layer.buttons@, i as int),
        decreases n - i,
    {
        let b = &layer.buttons[i].1;
        if b.active {
            out.push(KeyEmission { code: b.action, pressed: false });
        }
        assert(out@ == old(out)@ + releases(layer.buttons@, i + 1));
        i = i + 1;
    }
}

impl EventLoop {
    /// A loop showing the primary layer, with a complete redraw pending
    /// and no touch session, or `None` when the layers do not fit the
    /// canvas.
    pub fn new(
        config: Config,
        layers: Vec<FunctionLayer>,
        width: u16,
        height: u16,
        backlight: BacklightManager,
        minute: u32,
        now_ms: u64,
    ) -> (r: Option<EventLoop>)
        ensures
            r.is_some() == (width > 0 && layers@.len() == 2 && layer_fits(layers@[0], config, width)
                && layer_fits(layers@[1], config, width)),
            r matches Some(lp) ==> {
                &&& lp.wf()
                &&& lp.config == config
                &&& lp.layers@ == layers@
                &&& lp.active_layer == 0
                &&& lp.needs_complete_redraw
                &&& lp.touches@.is_empty()
                &&& lp.backlight == backlight
                &&& lp.last_redraw_minute == minute
                &&& lp.width == width
                &&& lp.height == height
            },
    {
        if width == 0 || !layers_fit(&config, &layers, width) {
            return None;
        }
        Some(
            EventLoop {
                config,
                layers,
                active_layer: 0,
                needs_complete_redraw: true,
                last_redraw_minute: minute,
                touches: HashMap::new(),
                backlight,
                pixel_shift: PixelShift::new(now_ms),
                width,
                height,
            },
        )
    }

    /// Replaces the configuration and both layers after a reload. Buttons
    /// held on the old layers are released (their key-up events go to
    /// `out`), the sessions end, the primary layer is shown and a complete
    /// redraw is forced. Layers that do not fit leave everything as it was.
    pub fn apply_config(
        &mut self,
        config: Config,
        layers: Vec<FunctionLayer>,
        out: &mut Vec<KeyEmission>,
    ) -> (r: bool)
        requires
            old(self).wf(),
        ensures
            final(self).wf(),
            r == (layers@.len() == 2 && layer_fits(layers@[0], config, old(self).width)
                && layer_fits(layers@[1], config, old(self).width)),
            r ==> {
                &&& final(self).config == config
                &&& final(self).layers@ == layers@
                &&& final(self).active_layer == 0
                &&& final(self).needs_complete_redraw
                &&& final(self).touches@.is_empty()
                &&& final(self).backlight == old(self).backlight
                &&& final(out)@ == old(out)@ + releases(
                    old(self).layers@[0].buttons@,
                    old(self).layers@[0].len() as int,
                ) + releases(old(self).layers@[1].buttons@, old(self).layers@[1].len() as int)
            },
            !r ==> *final(self) == *old(self) && final(out)@ == old(out)@,
    {
        if !layers_fit(&config, &layers, self.width) {
            return false;
        }
        collect_releases(&self.layers[0], out);
        collect_releases(&self.layers[1], out);
        self.config = config;
        self.layers = layers;
        self.active_layer = 0;
        self.needs_complete_redraw = true;
        self.touches.clear();
        true
    }

    /// Prepares one iteration at wall-clock `minute:second` and monotonic
    /// `now_ms`: advances the pixel shift when enabled, forces a complete
    /// redraw when it moved or when the shown layer has a clock and the
    /// minute changed, and returns how long the loop may wait: until the
    /// next minute boundary, the next shift step, and at most `TIMEOUT_MS`.
    pub fn schedule(&mut self, minute: u32, second: u32, now_ms: u64) -> (r: u64)
        requires
            old(self).wf(),
        ensures
            final(self).wf(),
            scheduled(old(self), final(self), minute, second, now_ms, r),
    {
        let left: u64 = if second <= 60 {
            (60 - second) as u64 * 1000
        } else {
            0
        };
        let mut timeout = if left < TIMEOUT_MS {
            left
        } else {
            TIMEOUT_MS
        };
        if self.config.enable_pixel_shift {
            let (moved, next) = self.pixel_shift.update(now_ms);
            if moved {
                self.needs_complete_redraw = true;
            }
            if next < timeout {
                timeout = next;
            }
        }
        let layer = &self.layers[self.active_layer];
        let n = layer.buttons.len();
        let mut clock = false;
        let mut i: usize = 0;
        while i < n
            invariant
                n == layer.len(),
                i <= n,
                clock == exists|j: int| 0 <= j < i && #[trigger] layer.buttons@[j].1.image.is_time(),
            decreases n - i,
        {
            if layer.buttons[i].1.is_time() {
                clock = true;
            }
            i = i + 1;
        }
        if clock && minute != self.last_redraw_minute {
            self.needs_complete_redraw = true;
            self.last_redraw_minute = minute;
        }
        timeout
    }

    /// `schedule` at the current local wall-clock minute and second.
    pub fn schedule_now(&mut self, now_ms: u64) -> (r: u64)
        requires
            old(self).wf(),
        ensures
            final(self).wf(),
            exists|minute: u32, second: u32|
                minute < 60 && second < 60 && scheduled(
                    old(self),
                    final(self),
                    minute,
                    second,
                    now_ms,
                    r,
                ),
    {
        let (minute, second) = wall_clock();
        self.schedule(minute, second, now_ms)
    }

    /// Plans the frame of this iteration at `now_ms`: when a complete
    /// redraw is pending or a button of the shown layer is due, the shown
    /// layer plans its drawing with the current shift and the pending
    /// redraw is cleared; otherwise nothing is drawn.
    pub fn frame(&mut self, now_ms: u64) -> (r: Option<DrawPlan>)
        requires
            old(self).wf(),
        ensures
            final(self).wf(),
            r.is_some() == (old(self).needs_complete_redraw || any_due(
                old(self).layers@[old(self).active_layer as int],
                now_ms,
            )),
            r matches Some(p) ==> {
                let l = old(self).layers@[old(self).active_layer as int];
                let idx = l.redraw_indices(l.len() as int, old(self).needs_complete_redraw, now_ms);
                &&& p.complete == old(self).needs_complete_redraw
                &&& p.buttons@.len() == idx.len()
                &&& forall|k: int|
                    0 <= k < idx.len() ==> #[trigger] p.buttons@[k] == l.placement(
                        idx[k] as int,
                        old(self).config,
                        old(self).width as int,
                        old(self).shift_x(),
                    )
                &&& p.complete ==> p.clips@ == seq![
                    ClipRect { x1: 0, y1: 0, x2: old(self).height, y2: old(self).width },
                ]
                &&& !p.complete ==> p.clips@.len() == p.buttons@.len()
                &&& !p.complete ==> forall|k: int|
                    0 <= k < p.clips@.len() ==> #[trigger] p.clips@[k] == clip_of(
                        p.buttons@[k],
                        old(self).height as int,
                    )
                &&& !final(self).needs_complete_redraw
            },
            r is None ==> *final(self) == *old(self),
            final(self).config == old(self).config,
            final(self).touches@ == old(self).touches@,
            final(self).active_layer == old(self).active_layer,
            final(self).backlight == old(self).backlight,
    {
        let l = self.active_layer;
        let n = self.layers[l].buttons.len();
        let mut due = false;
        let mut i: usize = 0;
        while i < n && !due
            invariant
                n == self.layers@[l as int].len(),
                l == self.active_layer,
                self.wf(),
                i <= n,
                due == exists|j: int|
                    0 <= j < i && #[trigger] self.layers@[l as int].buttons@[j].1.spec_needs_redraw(
                        now_ms,
                    ),
            decreases n - i,
        {
            if self.layers[l].buttons[i].1.changed(now_ms) {
                due = true;
            }
            i = i + 1;
        }
        if !self.needs_complete_redraw && !due {
            return None;
        }
        let shift = if self.config.enable_pixel_shift {
            self.pixel_shift.get()
        } else {
            (0, 0)
        };
        let complete = self.needs_complete_redraw;
        let ghost before = *self;
        let plan = self.layers[l].draw(&self.config, self.width, self.height, shift, complete, now_ms);
        proof {
            let nl = self.layers@[l as int];
            let ol = before.layers@[l as int];
            assert(nl.same_layout(&ol));
            assert forall|i: int, j: int| 0 <= i < j < nl.len() implies nl.start(i) < nl.start(j) by {
                assert(nl.start(i) == ol.start(i));
                assert(nl.start(j) == ol.start(j));
            }
            assert(self.layers@[1 - l] == before.layers@[1 - l]);
            assert(layer_fits(nl, self.config, self.width));
            assert forall|k: u32| #[trigger] self.touches@.contains_key(k) implies self.session_ok(
                self.touches@[k],
            ) by {
                assert(before.session_ok(before.touches@[k]));
            }
        }
        self.needs_complete_redraw = false;
        Some(plan)
    }

    /// Whether this iteration's backlight update reads the main panel.
    pub fn needs_display_reading(&self, now_ms: u64) -> (r: bool)
        ensures
            r == self.backlight.needs_display_reading_spec(self.config, now_ms),
    {
        self.backlight.needs_display_reading(&self.config, now_ms)
    }

    /// Recomputes the backlight; returns the value to write to the device,
    /// if it changed.
    pub fn update_backlight(&mut self, now_ms: u64, display: u32) -> (r: Option<u32>)
        requires
            old(self).wf(),
        ensures
            final(self).wf(),
            (final(self).backlight, r) == old(self).backlight.spec_update(
                old(self).config,
                now_ms,
                display,
            ),
            final(self).layers@ == old(self).layers@,
            final(self).touches@ == old(self).touches@,
            final(self).active_layer == old(self).active_layer,
            final(self).needs_complete_redraw == old(self).needs_complete_redraw,
    {
        self.backlight.update_backlight(&self.config, now_ms, display)
    }
}

} // verus!
