use vstd::prelude::*;

use vstd::arithmetic::div_mod::{
    lemma_div_is_ordered,
    lemma_div_multiples_vanish,
    lemma_fundamental_div_mod,
    lemma_hoist_over_denominator,
};
use crate::widget::{effective_stretch, new_widget_from_config, Button, ButtonConfig};

verus! {

/// Gap between neighbouring buttons, in physical pixels.
pub const BUTTON_SPACING_PX: u64 = 16;

/// An ordered row of buttons on a grid of virtual columns: each entry holds
/// the first column of a button, which spans up to the next button's first
/// column, the last one up to `virtual_button_count`.
#[derive(Debug)]
pub struct FunctionLayer {
    pub buttons: Vec<(usize, Button)>,
    pub virtual_button_count: usize,
}

/// Why a layer cannot be built from its configuration.
#[derive(Clone, Copy, Debug, PartialEq, Eq, Structural)]
pub enum LayerError {
    /// The layer has no buttons.
    Empty,
    /// The button at this index names no content.
    InvalidButton(usize),
    /// The column count does not fit in a `usize`.
    TooManyColumns,
}

/// Left edge, in pixels, of virtual column `start` on a row `width` pixels
/// wide that holds `count` columns with the fixed spacing between them.
pub open spec fn column_left(start: int, width: int, count: int) -> int {
    start * (width + BUTTON_SPACING_PX as int) / count
}

/// Whether `count` columns and their spacing fit in `width` pixels.
pub open spec fn layout_fits(width: int, count: int) -> bool {
    count >= 1 && BUTTON_SPACING_PX as int * (count - 1) <= width
}

/// Width of a button spanning columns `[start, end)`: its columns and the
/// gaps between them, floored to whole pixels. One column is
/// `(width - spacing * (count - 1)) / count` pixels wide.
pub open spec fn span_width(start: int, end: int, width: int, count: int) -> int {
    ((end - start) * (width - BUTTON_SPACING_PX as int * (count - 1)) + BUTTON_SPACING_PX as int * (
    end - start - 1) * count) / count
}

/// Whether `y` lies in the tappable band, between 10% and 90% of the height.
pub open spec fn in_band(y: int, height: int) -> bool {
    10 * y >= height && 10 * y <= 9 * height
}

/// Virtual column under the horizontal coordinate `x`.
pub open spec fn column_at(x: int, width: int, count: int) -> int {
    if x <= 0 {
        0
    } else {
        x * count / width
    }
}

/// Sum of the first `n` effective stretches.
pub open spec fn prefix_stretch(cfg: Seq<ButtonConfig>, n: int) -> nat
    decreases n,
{
    if n <= 0 {
        0
    } else {
        prefix_stretch(cfg, n - 1) + cfg[n - 1].effective_stretch()
    }
}

impl FunctionLayer {
    pub open spec fn len(&self) -> nat {
        self.buttons@.len()
    }

    pub open spec fn count(&self) -> nat {
        self.virtual_button_count as nat
    }

    pub open spec fn start(&self, i: int) -> nat {
        self.buttons@[i].0 as nat
    }

    /// First column after button `i`.
    pub open spec fn end(&self, i: int) -> nat {
        if i + 1 < self.len() {
            self.start(i + 1)
        } else {
            self.count()
        }
    }

    /// At least one button, the first at column 0, first columns strictly
    /// increasing and inside the grid.
    pub open spec fn wf(&self) -> bool {
        &&& 1 <= self.len() <= usize::MAX
        &&& self.start(0) == 0
        &&& forall|i: int, j: int| 0 <= i < j < self.len() ==> self.start(i) < self.start(j)
        &&& forall|i: int| 0 <= i < self.len() ==> #[trigger] self.start(i) < self.count()
    }

    /// Left edge of button `i` on a row `width` pixels wide.
    pub open spec fn left(&self, i: int, width: int) -> int {
        column_left(self.start(i) as int, width, self.count() as int)
    }

    /// Right edge of button `i` on a row `width` pixels wide.
    pub open spec fn right(&self, i: int, width: int) -> int {
        self.left(i, width) + span_width(
            self.start(i) as int,
            self.end(i) as int,
            width,
            self.count() as int,
        )
    }

    /// Whether `(x, y)` falls on button `i`.
    pub open spec fn contains(&self, i: int, width: int, height: int, x: int, y: int) -> bool {
        in_band(y, height) && self.left(i, width) <= x <= self.right(i, width)
    }

    /// Greatest index below `n` whose first column does not exceed `col`,
    /// or -1.
    pub open spec fn last_start_le(&self, col: int, n: int) -> int
        decreases n,
    {
        if n <= 0 {
            -1
        } else if self.start(n - 1) <= col {
            n - 1
        } else {
            self.last_start_le(col, n - 1)
        }
    }

    /// The button at `(x, y)`. Without `sticky`, the candidate is the
    /// button whose first column is the greatest one not past the column
    /// under `x`; with it, the candidate is that button. The candidate is
    /// hit if the point falls on it.
    pub open spec fn spec_hit(
        &self,
        width: int,
        height: int,
        x: int,
        y: int,
        sticky: Option<usize>,
    ) -> Option<usize> {
        let i = match sticky {
            Some(b) => b as int,
            None => self.last_start_le(column_at(x, width, self.count() as int), self.len() as int),
        };
        if 0 <= i < self.len() && self.contains(i, width, height, x, y) {
            Some(i as usize)
        } else {
            None
        }
    }

    /// Sum of the column spans of the first `n` buttons.
    pub open spec fn span_sum(&self, n: int) -> nat
        decreases n,
    {
        if n <= 0 {
            0
        } else {
            self.span_sum(n - 1) + (self.end(n - 1) - self.start(n - 1)) as nat
        }
    }
}

/// Whole-pixel floors never sum to more than the floor of the sum.
proof fn lemma_floor_sum(a: int, b: int, c: int, d: int)
    requires
        d > 0,
    ensures
        a / d + b / d + c / d <= (a + b + c) / d,
{
    lemma_fundamental_div_mod(a, d);
    lemma_fundamental_div_mod(b, d);
    lemma_fundamental_div_mod(c, d);
    let q = a / d + b / d + c / d;
    assert(d * q <= a + b + c) by (nonlinear_arith)
        requires
            a == d * (a / d) + (a % d),
            b == d * (b / d) + (b % d),
            c == d * (c / d) + (c % d),
            0 <= a % d,
            0 <= b % d,
            0 <= c % d,
            q == a / d + b / d + c / d,
    ;
    lemma_div_is_ordered(d * q, a + b + c, d);
    lemma_div_multiples_vanish(q, d);
}

/// Column edges grow with the column.
proof fn lemma_left_ordered(s1: int, s2: int, width: int, count: int)
    requires
        0 <= s1 <= s2,
        width >= 0,
        count >= 1,
    ensures
        column_left(s1, width, count) <= column_left(s2, width, count),
{
    assert(s1 * (width + BUTTON_SPACING_PX as int) <= s2 * (width + BUTTON_SPACING_PX as int))
        by (nonlinear_arith)
        requires
            0 <= s1 <= s2,
            width >= 0,
    ;
    lemma_div_is_ordered(
        s1 * (width + BUTTON_SPACING_PX as int),
        s2 * (width + BUTTON_SPACING_PX as int),
        count,
    );
}

impl FunctionLayer {
    /// A button ends at least one spacing before any later button begins.
    pub proof fn lemma_right_before_left(&self, i: int, j: int, width: int)
        requires
            self.wf(),
            layout_fits(width, self.count() as int),
            0 <= i < j < self.len(),
        ensures
            self.right(i, width) + BUTTON_SPACING_PX as int <= self.left(j, width),
    {
        let sp = BUTTON_SPACING_PX as int;
        let v = self.count() as int;
        let s = self.start(i) as int;
        let e = self.end(i) as int;
        assert(self.start(i) < self.start(i + 1));
        assert(s < e);
        let a = s * (width + sp);
        let b = (e - s) * (width - sp * (v - 1)) + sp * (e - s - 1) * v;
        lemma_floor_sum(a, b, 0, v);
        assert(a + b + 0 == e * (width + sp) + (-sp) * v) by (nonlinear_arith)
            requires
                a == s * (width + sp),
                b == (e - s) * (width - sp * (v - 1)) + sp * (e - s - 1) * v,
        ;
        lemma_hoist_over_denominator(e * (width + sp), -sp, v as nat);
        if i + 1 < j {
            assert(self.start(i + 1) < self.start(j));
        }
        lemma_left_ordered(e, self.start(j) as int, width, v);
    }

    /// Whether a layer's layout fits a row `width` pixels wide.
    pub open spec fn fits(&self, width: int) -> bool {
        layout_fits(width, self.count() as int)
    }
}

/// Hit-testing is total and monotonic: a point inside the band maps to at
/// most one button, that button is the only one whose rectangle holds the
/// point, and moving right never yields an earlier button.
pub proof fn lemma_hit_unique_monotonic(
    layer: &FunctionLayer,
    width: int,
    height: int,
    x1: int,
    x2: int,
    y: int,
)
    requires
        layer.wf(),
        width > 0,
        layer.fits(width),
    ensures
        layer.spec_hit(width, height, x1, y, None) matches Some(i) ==> {
            &&& (i as int) < layer.len()
            &&& layer.contains(i as int, width, height, x1, y)
            &&& forall|j: int|
                0 <= j < layer.len() && j != i ==> !#[trigger] layer.contains(
                    j,
                    width,
                    height,
                    x1,
                    y,
                )
        },
        x1 <= x2 ==> match (
            layer.spec_hit(width, height, x1, y, None),
            layer.spec_hit(width, height, x2, y, None),
        ) {
            (Some(i1), Some(i2)) => i1 <= i2,
            _ => true,
        },
{
    if let Some(i) = layer.spec_hit(width, height, x1, y, None) {
        assert forall|j: int|
            0 <= j < layer.len() && j != i implies !#[trigger] layer.contains(
                j,
                width,
                height,
                x1,
                y,
            ) by {
            if j < i {
                layer.lemma_right_before_left(j, i as int, width);
            } else {
                layer.lemma_right_before_left(i as int, j, width);
            }
        }
    }
    if x1 <= x2 {
        if let (Some(i1), Some(i2)) = (
            layer.spec_hit(width, height, x1, y, None),
            layer.spec_hit(width, height, x2, y, None),
        ) {
            if i2 < i1 {
                layer.lemma_right_before_left(i2 as int, i1 as int, width);
            }
        }
    }
}

/// Prefix sums of stretches grow with the prefix, strictly since every
/// stretch is at least 1.
proof fn lemma_prefix_strict(cfg: Seq<ButtonConfig>, i: int, j: int)
    requires
        0 <= i <= j <= cfg.len(),
    ensures
        prefix_stretch(cfg, i) <= prefix_stretch(cfg, j),
        i < j ==> prefix_stretch(cfg, i) < prefix_stretch(cfg, j),
    decreases j - i,
{
    if i < j {
        lemma_prefix_strict(cfg, i, j - 1);
        assert(cfg[j - 1].effective_stretch() >= 1);
    }
}

impl FunctionLayer {
    /// The spans of the first `n` buttons end where button `n` begins.
    proof fn lemma_span_sum_prefix(&self, n: int)
        requires
            self.wf(),
            1 <= n <= self.len(),
        ensures
            self.span_sum(n) == self.end(n - 1),
        decreases n,
    {
        assert(self.start(n - 1) < self.end(n - 1)) by {
            if n < self.len() {
                assert(self.start(n - 1) < self.start(n));
            }
        }
        if n > 1 {
            self.lemma_span_sum_prefix(n - 1);
            assert(self.end(n - 2) == self.start(n - 1));
        } else {
            assert(self.span_sum(0) == 0);
        }
    }

    /// The column spans of a layer's buttons add up to its column count.
    pub proof fn lemma_spans_cover_columns(&self)
        requires
            self.wf(),
        ensures
            self.span_sum(self.len() as int) == self.count(),
    {
        self.lemma_span_sum_prefix(self.len() as int);
    }

    /// First column after button `i`.
    pub fn end_of(&self, i: usize) -> (r: usize)
        requires
            self.wf(),
            i < self.len(),
        ensures
            r as nat == self.end(i as int),
    {
        if i + 1 < self.buttons.len() {
            self.buttons[i + 1].0
        } else {
            self.virtual_button_count
        }
    }

    /// Left edge, in pixels, of button `i` on a row `width` pixels wide.
    pub fn left_edge(&self, i: usize, width: u16) -> (r: u64)
        requires
            self.wf(),
            self.fits(width as int),
            i < self.len(),
        ensures
            r as int == self.left(i as int, width as int),
            r <= 0x1_0000 * 0x1_0010,
    {
        let v = self.virtual_button_count as u64;
        let w = width as u64;
        let start = self.buttons[i].0 as u64;
        assert(self.start(i as int) < self.count());
        assert(start <= 0x1_0000);
        assert(start * (w + 16) <= 0x1_0000 * 0x1_0010) by (nonlinear_arith)
            requires
                start <= 0x1_0000,
                w <= 0xffff,
        ;
        let r = start * (w + BUTTON_SPACING_PX) / v;
        proof {
            lemma_div_is_ordered_small((start * (w + 16)) as int, v as int);
        }
        r
    }

    /// Width, in pixels, of button `i` on a row `width` pixels wide.
    pub fn button_width(&self, i: usize, width: u16) -> (r: u64)
        requires
            self.wf(),
            self.fits(width as int),
            i < self.len(),
        ensures
            r as int == span_width(
                self.start(i as int) as int,
                self.end(i as int) as int,
                width as int,
                self.count() as int,
            ),
            r <= 0x40_0000_0000,
    {
        let v = self.virtual_button_count as u64;
        let w = width as u64;
        let start = self.buttons[i].0 as u64;
        let end = self.end_of(i) as u64;
        assert(start < end) by {
            if i + 1 < self.len() {
                assert(self.start(i as int) < self.start(i + 1));
            } else {
                assert(self.start(i as int) < self.count());
            }
        }
        assert(end <= v) by {
            if i + 1 < self.len() {
                assert(self.start(i + 1) < self.count());
            }
        }
        assert(v <= 0x1_0000);
        let n = end - start;
        let column_total = w - BUTTON_SPACING_PX * (v - 1);
        assert(n * column_total <= 0x1_0000 * 0x1_0000) by (nonlinear_arith)
            requires
                n <= 0x1_0000,
                column_total <= 0xffff,
        ;
        assert(16 * (n - 1) * v <= 16 * 0x1_0000 * 0x1_0000) by (nonlinear_arith)
            requires
                n - 1 <= 0x1_0000,
                v <= 0x1_0000,
        ;
        let total = n * column_total + BUTTON_SPACING_PX * (n - 1) * v;
        proof {
            lemma_div_is_ordered_small(total as int, v as int);
        }
        total / v
    }

    /// The button at `(x, y)` on a row `width` by `height` pixels: with
    /// `i` absent, the button under the point; with `i` given, that button
    /// if the point still falls on it. Points outside the band between 10%
    /// and 90% of the height, and points between buttons, hit nothing.
    pub fn hit(&self, width: u16, height: u16, x: i32, y: i32, i: Option<usize>) -> (r: Option<
        usize,
    >)
        requires
            self.wf(),
            width > 0,
            self.fits(width as int),
        ensures
            r == self.spec_hit(width as int, height as int, x as int, y as int, i),
    {
        let w = width as u64;
        let v = self.virtual_button_count as u64;
        let idx = match i {
            Some(b) => b,
            None => {
                let col: u64 = if x <= 0 {
                    0
                } else {
                    assert(v <= 0x1_0000);
                    assert((x as u64) * v <= 0x1_0000_0000u64 * 0x1_0000u64) by (nonlinear_arith)
                        requires
                            0 < x <= i32::MAX,
                            v <= 0x1_0000,
                    ;
                    (x as u64) * v / w
                };
                let mut n: usize = self.buttons.len();
                while n > 0 && (self.buttons[n - 1].0 as u64) > col
                    invariant
                        n <= self.len(),
                        self.wf(),
                        self.last_start_le(col as int, self.len() as int) == self.last_start_le(
                            col as int,
                            n as int,
                        ),
                    decreases n,
                {
                    n = n - 1;
                }
                if n == 0 {
                    return None;
                }
                n - 1
            },
        };
        if idx >= self.buttons.len() {
            return None;
        }
        let left = self.left_edge(idx, width);
        let right = left + self.button_width(idx, width);
        let yy = y as i64;
        let xx = x as i64;
        if 10 * yy < height as i64 || 10 * yy > 9 * (height as i64) || xx < left as i64 || xx
            > right as i64 {
            return None;
        }
        Some(idx)
    }
}

proof fn lemma_div_is_ordered_small(a: int, d: int)
    requires
        d > 0,
        a >= 0,
    ensures
        a / d <= a,
{
    vstd::arithmetic::div_mod::lemma_div_is_ordered_by_denominator(a, 1, d);
}

impl FunctionLayer {
    /// Whether a layer can be built from `cfg`: it is non-empty, every
    /// entry names content, and the column count fits a `usize`.
    pub open spec fn config_ok(cfg: Seq<ButtonConfig>) -> bool {
        &&& cfg.len() > 0
        &&& forall|j: int| 0 <= j < cfg.len() ==> #[trigger] cfg[j].has_content()
        &&& prefix_stretch(cfg, cfg.len() as int) <= usize::MAX
    }

    /// Whether building a layer from `cfg` (`check_config`, then
    /// `with_config`) fails with `e`.
    pub open spec fn with_config_result(cfg: Seq<ButtonConfig>, e: LayerError) -> bool {
        match e {
            LayerError::Empty => cfg.len() == 0,
            LayerError::InvalidButton(i) => {
                &&& i < cfg.len()
                &&& !cfg[i as int].has_content()
                &&& forall|j: int| 0 <= j < i ==> #[trigger] cfg[j].has_content()
            },
            LayerError::TooManyColumns => {
                &&& cfg.len() > 0
                &&& forall|j: int| 0 <= j < cfg.len() ==> #[trigger] cfg[j].has_content()
                &&& prefix_stretch(cfg, cfg.len() as int) > usize::MAX
            },
        }
    }

    /// Whether this layer is what `cfg` describes: one button per entry, in
    /// order, each starting where the stretches before it end and showing
    /// what its entry selects, released and not marked for redraw.
    pub open spec fn built_from(&self, cfg: Seq<ButtonConfig>) -> bool {
        &&& self.len() == cfg.len()
        &&& self.count() == prefix_stretch(cfg, cfg.len() as int)
        &&& forall|i: int|
            0 <= i < cfg.len() ==> {
                &&& #[trigger] self.start(i) == prefix_stretch(cfg, i)
                &&& cfg[i].selects(&self.buttons@[i].1.image)
                &&& self.buttons@[i].1.action == cfg[i].action
                &&& !self.buttons@[i].1.active
                &&& !self.buttons@[i].1.changed
            }
    }

    /// Checks a layer's button configurations before building: the list must
    /// be non-empty, then every entry must name content.
    pub fn check_config(cfg: &Vec<ButtonConfig>) -> (r: Result<(), LayerError>)
        ensures
            r is Ok <==> (cfg@.len() > 0 && forall|j: int|
                0 <= j < cfg@.len() ==> #[trigger] cfg@[j].has_content()),
            r matches Err(e) ==> e != LayerError::TooManyColumns && Self::with_config_result(
                cfg@,
                e,
            ),
    {
        if cfg.len() == 0 {
            return Err(LayerError::Empty);
        }
        let mut k: usize = 0;
        while k < cfg.len()
            invariant
                k <= cfg@.len(),
                forall|j: int| 0 <= j < k ==> #[trigger] cfg@[j].has_content(),
            decreases cfg@.len() - k,
        {
            if !(cfg[k].text.is_some() || cfg[k].icon.is_some() || cfg[k].processor.is_some()
                || cfg[k].memory.is_some() || cfg[k].time.is_some() || cfg[k].battery.is_some()) {
                assert(!cfg@[k as int].has_content());
                return Err(LayerError::InvalidButton(k));
            }
            k = k + 1;
        }
        Ok(())
    }

    /// Builds a layer from its button configurations, laid out left to
    /// right: each button spans its effective stretch. The list must be
    /// non-empty and every entry must name content; it fails only when the
    /// column count overflows.
    pub fn with_config(cfg: Vec<ButtonConfig>, now_ms: u64) -> (r: Result<FunctionLayer, LayerError>)
        requires
            cfg@.len() > 0,
            forall|j: int| 0 <= j < cfg@.len() ==> #[trigger] cfg@[j].has_content(),
        ensures
            r matches Ok(l) ==> l.wf() && l.built_from(cfg@),
            r is Ok <==> Self::config_ok(cfg@),
            r matches Err(e) ==> e == LayerError::TooManyColumns && Self::with_config_result(
                cfg@,
                e,
            ),
    {
        let ghost orig = cfg@;
        let mut total: usize = 0;
        let mut k: usize = 0;
        while k < cfg.len()
            invariant
                k <= cfg@.len(),
                total as nat == prefix_stretch(cfg@, k as int),
                forall|j: int| 0 <= j < cfg@.len() ==> #[trigger] cfg@[j].has_content(),
            decreases cfg@.len() - k,
        {
            let grown = match effective_stretch(&cfg[k]) {
                Some(s) => total.checked_add(s),
                None => None,
            };
            match grown {
                Some(t) => {
                    total = t;
                },
                None => {
                    proof {
                        lemma_prefix_strict(cfg@, k + 1, cfg@.len() as int);
                    }
                    return Err(LayerError::TooManyColumns);
                },
            }
            k = k + 1;
        }
        let mut rest = cfg;
        let mut buttons: Vec<(usize, Button)> = Vec::new();
        let mut start: usize = 0;
        let ghost n = orig.len();
        while rest.len() > 0
            invariant
                rest@ == orig.subrange(buttons@.len() as int, n as int),
                buttons@.len() <= n,
                n == orig.len(),
                start as nat == prefix_stretch(orig, buttons@.len() as int),
                total as nat == prefix_stretch(orig, n as int),
                forall|j: int| 0 <= j < n ==> #[trigger] orig[j].has_content(),
                forall|j: int|
                    0 <= j < buttons@.len() ==> {
                        &&& #[trigger] buttons@[j].0 as nat == prefix_stretch(orig, j)
                        &&& orig[j].selects(&buttons@[j].1.image)
                        &&& buttons@[j].1.action == orig[j].action
                        &&& !buttons@[j].1.active
                        &&& !buttons@[j].1.changed
                    },
            decreases rest@.len(),
        {
            let ghost k = buttons@.len() as int;
            let c = rest.remove(0);
            assert(c == orig[k]);
            proof {
                lemma_prefix_strict(orig, k + 1, n as int);
            }
            let stretch = effective_stretch(&c).unwrap();
            let button = new_widget_from_config(c, now_ms);
            buttons.push((start, button));
            start = start + stretch;
        }
        let layer = FunctionLayer { buttons, virtual_button_count: total };
        proof {
            assert(buttons@.len() == n);
            assert(layer.start(0) == prefix_stretch(orig, 0));
            assert forall|i: int, j: int| 0 <= i < j < layer.len() implies layer.start(i)
                < layer.start(j) by {
                lemma_prefix_strict(orig, i, j);
            }
            assert forall|i: int| 0 <= i < layer.len() implies #[trigger] layer.start(i)
                < layer.count() by {
                lemma_prefix_strict(orig, i, n as int);
            }
        }
        Ok(layer)
    }
}

/// For a layer built from button configurations, the column spans of its
/// buttons are their effective stretches and add up to the layer's column
/// count.
pub proof fn lemma_stretch_round_trip(layer: &FunctionLayer, cfg: Seq<ButtonConfig>)
    requires
        layer.wf(),
        layer.built_from(cfg),
    ensures
        forall|i: int|
            0 <= i < cfg.len() ==> (layer.end(i) - layer.start(i)) as nat
                == #[trigger] cfg[i].effective_stretch(),
        layer.span_sum(layer.len() as int) == prefix_stretch(cfg, cfg.len() as int),
        layer.span_sum(layer.len() as int) == layer.count(),
{
    layer.lemma_spans_cover_columns();
    assert forall|i: int| 0 <= i < cfg.len() implies (layer.end(i) - layer.start(i)) as nat
        == #[trigger] cfg[i].effective_stretch() by {
        assert(layer.start(i) == prefix_stretch(cfg, i));
        if i + 1 < cfg.len() {
            assert(layer.start(i + 1) == prefix_stretch(cfg, i + 1));
        }
    }
}

impl FunctionLayer {
    /// Whether the layer is well formed: buttons present, the first at
    /// column 0, first columns strictly increasing and inside the grid.
    pub fn is_valid(&self) -> (r: bool)
        ensures
            r == self.wf(),
    {
        let n = self.buttons.len();
        if n == 0 || self.buttons[0].0 != 0 {
            return false;
        }
        let mut k: usize = 1;
        while k < n
            invariant
                1 <= k <= n,
                n == self.len(),
                self.start(0) == 0,
                forall|i: int, j: int| 0 <= i < j < k ==> self.start(i) < self.start(j),
            decreases n - k,
        {
            if self.buttons[k - 1].0 >= self.buttons[k].0 {
                assert(self.start(k - 1) >= self.start(k as int));
                return false;
            }
            k = k + 1;
        }
        if self.buttons[n - 1].0 >= self.virtual_button_count {
            assert(self.start(n - 1) >= self.count());
            return false;
        }
        assert forall|i: int| 0 <= i < self.len() implies #[trigger] self.start(i)
            < self.count() by {
            if i < n - 1 {
                assert(self.start(i) < self.start(n - 1));
            }
        }
        true
    }

    /// Whether the layer's columns and spacing fit a row `width` pixels wide.
    pub fn fits_width(&self, width: i64) -> (r: bool)
        ensures
            r == self.fits(width as int),
    {
        if self.virtual_button_count == 0 || width < 0 {
            return false;
        }
        (BUTTON_SPACING_PX as u128) * (self.virtual_button_count as u128 - 1) <= width as u128
    }
}

/// A layout that fits a row fits any wider row.
pub proof fn lemma_fits_wider(layer: &FunctionLayer, narrow: int, wide: int)
    requires
        layer.fits(narrow),
        narrow <= wide,
    ensures
        layer.fits(wide),
{
}

} // verus!
