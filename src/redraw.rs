use vstd::prelude::*;

use crate::config::Config;
use crate::layout::{span_width, column_left, FunctionLayer};
use crate::widget::{Button, ButtonImage};

verus! {

/// Width of the margin kept free for the anti-burn-in shift, in pixels.
pub const PIXEL_SHIFT_WIDTH_PX: u16 = 4;

/// Corner radius of a button's outline, in pixels.
pub const BUTTON_RADIUS_PX: u16 = 8;

/// How a button's outline is filled.
#[derive(Clone, Copy, Debug, PartialEq, Eq, Structural)]
pub enum Shade {
    /// The button is held.
    Active,
    /// Released, with outlines configured.
    Outline,
    /// Released, without outlines.
    Hidden,
}

/// A rectangle of the display buffer, in the buffer's own orientation.
#[derive(Clone, Copy, Debug, PartialEq, Eq, Structural)]
pub struct ClipRect {
    pub x1: u16,
    pub y1: u16,
    pub x2: u16,
    pub y2: u16,
}

/// One button to draw, placed on the canvas.
#[derive(Clone, Copy, Debug, PartialEq, Eq, Structural)]
pub struct ButtonDraw {
    pub index: usize,
    /// Left edge on the canvas, shift included.
    pub left: i64,
    pub width: u64,
    pub shade: Shade,
}

/// The work of one frame: the buttons to draw, in order, and the buffer
/// rectangles to refresh afterwards.
#[derive(Debug)]
pub struct DrawPlan {
    pub complete: bool,
    pub buttons: Vec<ButtonDraw>,
    pub clips: Vec<ClipRect>,
}

/// Width of the row that the buttons are laid out on.
pub open spec fn layout_width(cfg: Config, width: int) -> int {
    if cfg.enable_pixel_shift {
        width - PIXEL_SHIFT_WIDTH_PX as int
    } else {
        width
    }
}

pub open spec fn shade_of(b: Button, cfg: Config) -> Shade {
    if b.active {
        Shade::Active
    } else if cfg.show_button_outlines {
        Shade::Outline
    } else {
        Shade::Hidden
    }
}

/// `v` as a `u16`, clamped to its range.
pub open spec fn clamp_u16(v: int) -> u16 {
    if v < 0 {
        0
    } else if v > u16::MAX as int {
        u16::MAX
    } else {
        v as u16
    }
}

/// Buffer rectangle of a drawn button: the outline's band across the
/// row, widened by the corner radius, by the button's extent along it.
pub open spec fn clip_of(d: ButtonDraw, height: int) -> ClipRect {
    let top = 85 * height / 100;
    let bot = 15 * height / 100;
    ClipRect {
        x1: clamp_u16(height - top - BUTTON_RADIUS_PX as int),
        y1: clamp_u16(d.left as int),
        x2: clamp_u16(height - bot + BUTTON_RADIUS_PX as int),
        y2: clamp_u16(clamp_u16(d.left as int) + clamp_u16(d.width as int)),
    }
}

impl FunctionLayer {
    /// Indices, in order, of the first `n` buttons that a frame draws.
    pub open spec fn redraw_indices(&self, n: int, complete: bool, now_ms: u64) -> Seq<usize>
        decreases n,
    {
        if n <= 0 {
            Seq::empty()
        } else {
            let before = self.redraw_indices(n - 1, complete, now_ms);
            if complete || self.buttons@[n - 1].1.spec_needs_redraw(now_ms) {
                before.push((n - 1) as usize)
            } else {
                before
            }
        }
    }

    /// Placement of button `i` on a canvas `width` pixels wide.
    pub open spec fn placement(
        &self,
        i: int,
        cfg: Config,
        width: int,
        shift_x: i32,
    ) -> ButtonDraw {
        let w = layout_width(cfg, width);
        ButtonDraw {
            index: i as usize,
            left: (column_left(self.start(i) as int, w, self.count() as int) + shift_x + (width
                - w) / 2) as i64,
            width: span_width(self.start(i) as int, self.end(i) as int, w, self.count() as int)
                as u64,
            shade: shade_of(self.buttons@[i].1, cfg),
        }
    }

    /// Whether two layers hold the same layout and buttons that differ at
    /// most in their redraw state.
    pub open spec fn same_layout(&self, other: &FunctionLayer) -> bool {
        &&& self.len() == other.len()
        &&& self.count() == other.count()
        &&& forall|i: int|
            0 <= i < self.len() ==> {
                &&& #[trigger] self.start(i) == other.start(i)
                &&& self.buttons@[i].1.image == other.buttons@[i].1.image
                &&& self.buttons@[i].1.action == other.buttons@[i].1.action
                &&& self.buttons@[i].1.active == other.buttons@[i].1.active
            }
    }
}

proof fn lemma_same_layout_trans(a: &FunctionLayer, b: &FunctionLayer, c: &FunctionLayer)
    requires
        a.same_layout(b),
        b.same_layout(c),
    ensures
        a.same_layout(c),
{
    assert forall|j: int| 0 <= j < a.len() implies #[trigger] a.start(j) == c.start(j)
        && a.buttons@[j].1.image == c.buttons@[j].1.image && a.buttons@[j].1.action
        == c.buttons@[j].1.action && a.buttons@[j].1.active == c.buttons@[j].1.active by {
        assert(b.start(j) == c.start(j));
    }
}

fn clamp_to_u16(v: i64) -> (r: u16)
    ensures
        r == clamp_u16(v as int),
{
    if v < 0 {
        0
    } else if v > u16::MAX as i64 {
        u16::MAX
    } else {
        v as u16
    }
}

/// Buffer rectangle of a drawn button on a row `height` pixels high.
pub fn clip_for(d: &ButtonDraw, height: u16) -> (r: ClipRect)
    requires
        d.width <= i64::MAX as u64,
    ensures
        r == clip_of(*d, height as int),
{
    let h = height as i64;
    let top = 85 * h / 100;
    let bot = 15 * h / 100;
    let y1 = clamp_to_u16(d.left);
    ClipRect {
        x1: clamp_to_u16(h - top - BUTTON_RADIUS_PX as i64),
        y1,
        x2: clamp_to_u16(h - bot + BUTTON_RADIUS_PX as i64),
        y2: clamp_to_u16(y1 as i64 + clamp_to_u16(d.width as i64) as i64),
    }
}

impl FunctionLayer {
    /// Plans one frame on a canvas `width` by `height` pixels: every button
    /// when `complete_redraw` holds, else those due for a redraw, each
    /// placed on the columns of a row narrowed by the shift margin and
    /// moved by the horizontal shift. The drawn buttons are marked as drawn.
    /// A complete frame refreshes the whole buffer, else each drawn
    /// button's rectangle.
    pub fn draw(
        &mut self,
        config: &Config,
        width: u16,
        height: u16,
        pixel_shift: (i32, i32),
        complete_redraw: bool,
        now_ms: u64,
    ) -> (r: DrawPlan)
        requires
            old(self).wf(),
            old(self).fits(layout_width(*config, width as int)),
        ensures
            final(self).wf(),
            final(self).same_layout(old(self)),
            r.complete == complete_redraw,
            r.buttons@.len() == old(self).redraw_indices(
                old(self).len() as int,
                complete_redraw,
                now_ms,
            ).len(),
            forall|k: int|
                0 <= k < r.buttons@.len() ==> #[trigger] r.buttons@[k] == old(self).placement(
                    old(self).redraw_indices(old(self).len() as int, complete_redraw, now_ms)[k]
                        as int,
                    *config,
                    width as int,
                    pixel_shift.0,
                ),
            complete_redraw ==> r.clips@ == seq![ClipRect { x1: 0, y1: 0, x2: height, y2: width }],
            !complete_redraw ==> r.clips@.len() == r.buttons@.len(),
            !complete_redraw ==> forall|k: int|
                0 <= k < r.clips@.len() ==> #[trigger] r.clips@[k] == clip_of(
                    r.buttons@[k],
                    height as int,
                ),
            forall|i: int|
                0 <= i < old(self).len() ==> {
                    let b = old(self).buttons@[i].1;
                    let nb = #[trigger] final(self).buttons@[i].1;
                    if complete_redraw || b.spec_needs_redraw(now_ms) {
                        &&& !nb.changed
                        &&& nb.last_draw_ms == (match b.image {
                            ButtonImage::Memory | ButtonImage::Battery => now_ms,
                            _ => b.last_draw_ms,
                        })
                    } else {
                        nb == b
                    }
                },
    {
        let ghost before = *self;
        let w: u16 = if config.enable_pixel_shift {
            width - PIXEL_SHIFT_WIDTH_PX
        } else {
            width
        };
        let margin: i64 = ((width - w) / 2) as i64;
        let mut buttons: Vec<ButtonDraw> = Vec::new();
        let mut clips: Vec<ClipRect> = Vec::new();
        if complete_redraw {
            clips.push(ClipRect { x1: 0, y1: 0, x2: height, y2: width });
        }
        let n = self.buttons.len();
        let mut i: usize = 0;
        while i < n
            invariant
                n == before.len(),
                i <= n,
                before.wf(),
                before.fits(w as int),
                w as int == layout_width(*config, width as int),
                margin as int == (width - w) / 2,
                self.same_layout(&before),
                buttons@.len() == before.redraw_indices(i as int, complete_redraw, now_ms).len(),
                forall|k: int|
                    0 <= k < buttons@.len() ==> #[trigger] buttons@[k] == before.placement(
                        before.redraw_indices(i as int, complete_redraw, now_ms)[k] as int,
                        *config,
                        width as int,
                        pixel_shift.0,
                    ),
                complete_redraw ==> clips@ == seq![ClipRect { x1: 0, y1: 0, x2: height, y2: width }],
                !complete_redraw ==> clips@.len() == buttons@.len(),
                !complete_redraw ==> forall|k: int|
                    0 <= k < clips@.len() ==> #[trigger] clips@[k] == clip_of(
                        buttons@[k],
                        height as int,
                    ),
                forall|j: int|
                    0 <= j < n ==> {
                        let b = before.buttons@[j].1;
                        let nb = #[trigger] self.buttons@[j].1;
                        if j < i && (complete_redraw || b.spec_needs_redraw(now_ms)) {
                            &&& !nb.changed
                            &&& nb.last_draw_ms == (match b.image {
                                ButtonImage::Memory | ButtonImage::Battery => now_ms,
                                _ => b.last_draw_ms,
                            })
                        } else {
                            nb == b
                        }
                    },
            decreases n - i,
        {
            assert(self.buttons@[i as int].1 == before.buttons@[i as int].1);
            if complete_redraw || self.buttons[i].1.changed(now_ms) {
                let left = self.left_edge(i, w);
                let bw = self.button_width(i, w);
                let shade = if self.buttons[i].1.active {
                    Shade::Active
                } else if config.show_button_outlines {
                    Shade::Outline
                } else {
                    Shade::Hidden
                };
                let d = ButtonDraw {
                    index: i,
                    left: left as i64 + pixel_shift.0 as i64 + margin,
                    width: bw,
                    shade,
                };
                let ghost mid = *self;
                self.buttons[i].1.mark_drawn(now_ms);
                proof {
                    let cur = *self;
                    assert forall|j: int| 0 <= j < cur.len() implies #[trigger] cur.start(j)
                        == mid.start(j) && cur.buttons@[j].1.image == mid.buttons@[j].1.image
                        && cur.buttons@[j].1.action == mid.buttons@[j].1.action
                        && cur.buttons@[j].1.active == mid.buttons@[j].1.active by {
                        if j != i {
                            assert(cur.buttons@[j] == mid.buttons@[j]);
                        }
                    }
                    assert(cur.same_layout(&mid));
                    lemma_same_layout_trans(&cur, &mid, &before);
                }
                buttons.push(d);
                if !complete_redraw {
                    clips.push(clip_for(&d, height));
                }
            }
            i = i + 1;
        }
        DrawPlan { complete: complete_redraw, buttons, clips }
    }
}

} // verus!
