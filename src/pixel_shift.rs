use vstd::prelude::*;

verus! {

/// How long the drawing stays at one offset, in milliseconds.
pub const PIXEL_SHIFT_PERIOD_MS: u64 = 60_000;

/// Number of offsets the shift cycles through.
pub const PIXEL_SHIFT_STEPS: u8 = 8;

/// Anti-burn-in shift: the drawing origin walks back and forth across the
/// shift margin, one pixel per period. Hit-testing never sees it.
#[derive(Clone, Copy, Debug, PartialEq, Eq, Structural)]
pub struct PixelShift {
    pub step: u8,
    /// When the next step is due, in milliseconds on a monotonic clock.
    pub next_due_ms: u64,
}

/// Horizontal offset of a step: 0, 1, 2, 3, 4, 3, 2, 1, centred on 0.
pub open spec fn offset_of(step: int) -> int {
    (if step <= 4 {
        step
    } else {
        8 - step
    }) - 2
}

impl PixelShift {
    pub open spec fn wf(&self) -> bool {
        self.step < PIXEL_SHIFT_STEPS
    }

    /// A shift at its first step, due one period after `now_ms`.
    pub fn new(now_ms: u64) -> (r: PixelShift)
        ensures
            r.wf(),
            r.step == 0,
            r.next_due_ms == if now_ms <= u64::MAX - PIXEL_SHIFT_PERIOD_MS {
                now_ms + PIXEL_SHIFT_PERIOD_MS
            } else {
                u64::MAX as int
            },
    {
        PixelShift { step: 0, next_due_ms: now_ms.saturating_add(PIXEL_SHIFT_PERIOD_MS) }
    }

    /// Whether the next step is due at `now_ms`.
    pub open spec fn due(&self, now_ms: u64) -> bool {
        now_ms >= self.next_due_ms
    }

    /// The shift after an update at `now_ms`.
    pub open spec fn after(&self, now_ms: u64) -> PixelShift {
        if self.due(now_ms) {
            PixelShift {
                step: ((self.step + 1) % (PIXEL_SHIFT_STEPS as int)) as u8,
                next_due_ms: if now_ms <= u64::MAX - PIXEL_SHIFT_PERIOD_MS {
                    (now_ms + PIXEL_SHIFT_PERIOD_MS) as u64
                } else {
                    u64::MAX
                },
            }
        } else {
            *self
        }
    }

    /// Milliseconds from `now_ms` until the step after an update there.
    pub open spec fn wait(&self, now_ms: u64) -> u64 {
        if self.due(now_ms) {
            PIXEL_SHIFT_PERIOD_MS
        } else {
            (self.next_due_ms - now_ms) as u64
        }
    }

    /// Advances the shift when it is due. Returns whether it moved (the
    /// row then needs a complete redraw) and the milliseconds until the
    /// next step.
    pub fn update(&mut self, now_ms: u64) -> (r: (bool, u64))
        requires
            old(self).wf(),
        ensures
            final(self).wf(),
            *final(self) == old(self).after(now_ms),
            r == (old(self).due(now_ms), old(self).wait(now_ms)),
    {
        if now_ms >= self.next_due_ms {
            self.step = (self.step + 1) % PIXEL_SHIFT_STEPS;
            self.next_due_ms = now_ms.saturating_add(PIXEL_SHIFT_PERIOD_MS);
            (true, PIXEL_SHIFT_PERIOD_MS)
        } else {
            (false, self.next_due_ms - now_ms)
        }
    }

    /// The current offset of the drawing origin.
    pub fn get(&self) -> (r: (i32, i32))
        requires
            self.wf(),
        ensures
            r.0 as int == offset_of(self.step as int),
            r.1 == 0,
    {
        let s = self.step as i32;
        let x = if s <= 4 {
            s
        } else {
            8 - s
        };
        (x - 2, 0)
    }
}

} // verus!
