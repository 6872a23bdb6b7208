use vstd::prelude::*;
use rand::Rng;
use crate::image::WorldImage;
use crate::input::KeyCode;
use crate::input::KeyEvent;
use crate::input::MouseButton;
use crate::input::MouseEvent;
use crate::input::is_pressed;
use crate::input::spec_is_pressed;
use crate::world::World;

verus! {

/// The largest brush radius the painter allows.
pub const BRUSH_SIZE_MAX: u32 = 10;

/// Whether `v` lies between `a` and `b`, whichever order they are in.
pub open spec fn between(a: int, b: int, v: int) -> bool {
    if a <= b {
        a <= v <= b
    } else {
        b <= v <= a
    }
}

/// Relies on `line_drawing::Bresenham`: the discrete line from `start` to
/// `end`, both endpoints included, moving one step at a time — consecutive
/// points differ by at most one on each axis — and staying inside the
/// bounding box of the two endpoints.
#[verifier::external_body]
fn bresenham_points(start: (i64, i64), end: (i64, i64)) -> (r: Vec<(i64, i64)>)
    requires
        -0x1_0000_0000 <= start.0 <= 0x1_0000_0000,
        -0x1_0000_0000 <= start.1 <= 0x1_0000_0000,
        -0x1_0000_0000 <= end.0 <= 0x1_0000_0000,
        -0x1_0000_0000 <= end.1 <= 0x1_0000_0000,
    ensures
        r@.len() >= 1,
        r@[0] == start,
        r@[r@.len() - 1] == end,
        forall|i: int|
            0 <= i < r@.len() - 1 ==> -1 <= #[trigger] r@[i + 1].0 - r@[i].0 <= 1 && -1 <= r@[i
                + 1].1 - r@[i].1 <= 1,
        forall|i: int|
            0 <= i < r@.len() ==> between(start.0 as int, end.0 as int, #[trigger] r@[i].0 as int)
                && between(start.1 as int, end.1 as int, r@[i].1 as int),
{
    line_drawing::Bresenham::new(start, end).collect()
}

/// The discrete line of grid cells from `p0` to `p1`, inclusive of both
/// endpoints: a connected path — consecutive cells differ by at most one
/// column and one row — that stays inside the bounding box of the two
/// cells.
pub fn line_cells(p0: (u32, u32), p1: (u32, u32)) -> (r: Vec<(u32, u32)>)
    ensures
        r@.len() >= 1,
        r@[0] == p0,
        r@[r@.len() - 1] == p1,
        forall|i: int|
            0 <= i < r@.len() - 1 ==> -1 <= #[trigger] r@[i + 1].0 - r@[i].0 <= 1 && -1 <= r@[i
                + 1].1 - r@[i].1 <= 1,
        forall|i: int|
            0 <= i < r@.len() ==> between(p0.0 as int, p1.0 as int, #[trigger] r@[i].0 as int)
                && between(p0.1 as int, p1.1 as int, r@[i].1 as int),
{
    let pts = bresenham_points(
        (p0.0 as i64, p0.1 as i64),
        (p1.0 as i64, p1.1 as i64),
    );
    let mut r: Vec<(u32, u32)> = Vec::new();
    let mut i: usize = 0;
    while i < pts.len()
        invariant
            i <= pts@.len(),
            r@.len() == i,
            pts@.len() >= 1,
            pts@[0] == (p0.0 as i64, p0.1 as i64),
            pts@[pts@.len() - 1] == (p1.0 as i64, p1.1 as i64),
            forall|q: int|
                0 <= q < pts@.len() - 1 ==> -1 <= #[trigger] pts@[q + 1].0 - pts@[q].0 <= 1 && -1
                    <= pts@[q + 1].1 - pts@[q].1 <= 1,
            forall|q: int|
                0 <= q < pts@.len() ==> between(p0.0 as int, p1.0 as int, #[trigger] pts@[q].0 as int)
                    && between(p0.1 as int, p1.1 as int, pts@[q].1 as int),
            forall|q: int|
                0 <= q < i ==> #[trigger] r@[q] == ((pts@[q].0 as u32, pts@[q].1 as u32))
                    && r@[q].0 as int == pts@[q].0 as int && r@[q].1 as int == pts@[q].1 as int,
        decreases pts@.len() - i,
    {
        let p = pts[i];
        r.push((p.0 as u32, p.1 as u32));
        i += 1;
    }
    r
}

/// Whether cell `p` belongs to the square brush of radius `radius`
/// centered on `(cx, cy)`, clipped to a `w` by `h` grid.
pub open spec fn cell_in_brush(
    p: (u32, u32),
    cx: u32,
    cy: u32,
    radius: u32,
    w: u32,
    h: u32,
) -> bool {
    &&& p.0 < w
    &&& p.1 < h
    &&& cx - radius <= p.0 <= cx + radius
    &&& cy - radius <= p.1 <= cy + radius
}

/// The cells of the square brush of radius `radius` centered on
/// `(cx, cy)`, clipped to a `w` by `h` grid: each in-range cell within
/// `radius` of the center on both axes, each exactly once. At most
/// `(2 * radius + 1)^2` cells; exactly the center cell when the radius is
/// zero and the center is in range; never a cell out of range.
pub fn brush_cells(cx: u32, cy: u32, radius: u32, w: u32, h: u32) -> (r: Vec<(u32, u32)>)
    requires
        radius <= BRUSH_SIZE_MAX,
    ensures
        forall|q: int| 0 <= q < r@.len() ==> cell_in_brush(#[trigger] r@[q], cx, cy, radius, w, h),
        forall|a: u32, b: u32|
            cell_in_brush((a, b), cx, cy, radius, w, h) ==> r@.contains((a, b)),
        forall|q1: int, q2: int| 0 <= q1 < q2 < r@.len() ==> r@[q1] != r@[q2],
        r@.len() <= (2 * radius + 1) * (2 * radius + 1),
        cx < w && cy < h ==> r@.len() >= 1,
        radius == 0 && cx < w && cy < h ==> r@.len() == 1 && r@[0] == (cx, cy),
{
    let mut r: Vec<(u32, u32)> = Vec::new();
    let b: i64 = radius as i64;
    let mut oy: i64 = -b;
    while oy <= b
        invariant
            radius <= BRUSH_SIZE_MAX,
            b == radius,
            -b <= oy <= b + 1,
            forall|q: int|
                0 <= q < r@.len() ==> cell_in_brush(#[trigger] r@[q], cx, cy, radius, w, h),
            forall|q: int| 0 <= q < r@.len() ==> (#[trigger] r@[q].1 as int) - cy < oy,
            forall|a: u32, bb: u32|
                cell_in_brush((a, bb), cx, cy, radius, w, h) && (bb as int) - cy < oy
                    ==> r@.contains((a, bb)),
            forall|q1: int, q2: int| 0 <= q1 < q2 < r@.len() ==> r@[q1] != r@[q2],
            r@.len() <= (oy + b) * (2 * radius + 1),
        decreases b + 1 - oy,
    {
        let oy_abs: i64 = cy as i64 + oy;
        if oy_abs >= 0 && oy_abs < h as i64 {
            let y: u32 = oy_abs as u32;
            let mut ox: i64 = -b;
            while ox <= b
                invariant
                    radius <= BRUSH_SIZE_MAX,
                    b == radius,
                    -b <= ox <= b + 1,
                    -b <= oy <= b,
                    y == cy + oy,
                    y < h,
                    forall|q: int|
                        0 <= q < r@.len() ==> cell_in_brush(#[trigger] r@[q], cx, cy, radius, w, h),
                    forall|q: int|
                        0 <= q < r@.len() ==> ((#[trigger] r@[q].1 as int) - cy < oy || (r@[q].1
                            == y && (r@[q].0 as int) - cx < ox)),
                    forall|a: u32, bb: u32|
                        cell_in_brush((a, bb), cx, cy, radius, w, h) && ((bb as int) - cy < oy || (
                        bb == y && (a as int) - cx < ox)) ==> r@.contains((a, bb)),
                    forall|q1: int, q2: int| 0 <= q1 < q2 < r@.len() ==> r@[q1] != r@[q2],
                    r@.len() <= (oy + b) * (2 * radius + 1) + (ox + b),
                decreases b + 1 - ox,
            {
                let ox_abs: i64 = cx as i64 + ox;
                if ox_abs >= 0 && ox_abs < w as i64 {
                    let x: u32 = ox_abs as u32;
                    let ghost r0 = r@;
                    r.push((x, y));
                    proof {
                        assert forall|a: u32, bb: u32|
                            cell_in_brush((a, bb), cx, cy, radius, w, h) && ((bb as int) - cy < oy
                                || (bb == y && (a as int) - cx < ox + 1)) implies r@.contains(
                            (a, bb),
                        ) by {
                            if (bb as int) - cy < oy || (bb == y && (a as int) - cx < ox) {
                                assert(r0.contains((a, bb)));
                                let w_i = choose|q: int| 0 <= q < r0.len() && r0[q] == (a, bb);
                                assert(r@[w_i] == (a, bb));
                            } else {
                                assert(r@[r@.len() - 1] == (a, bb));
                            }
                        }
                    }
                }
                ox += 1;
            }
        } else {
            proof {
                assert forall|a: u32, bb: u32|
                    cell_in_brush((a, bb), cx, cy, radius, w, h) && (bb as int) - cy < oy + 1
                        implies r@.contains((a, bb)) by {
                    assert((bb as int) - cy != oy);
                }
            }
        }
        proof {
            lemma_succ_mul_painter(oy + b, 2 * radius + 1);
        }
        oy += 1;
    }
    proof {
        if cx < w && cy < h {
            assert(cell_in_brush((cx, cy), cx, cy, radius, w, h));
            assert(r@.contains((cx, cy)));
            if radius == 0 {
                assert forall|q: int| 0 <= q < r@.len() implies r@[q] == (cx, cy) by {
                    assert(cell_in_brush(r@[q], cx, cy, radius, w, h));
                    assert(r@[q].0 == cx && r@[q].1 == cy);
                }
                if r@.len() >= 2 {
                    assert(r@[0] != r@[1]);
                    assert(false);
                }
                let w_i = choose|q: int| 0 <= q < r@.len() && r@[q] == (cx, cy);
                assert(r@[0] == (cx, cy));
            }
        }
    }
    r
}

/// All cells of a `w` by `h` grid, each exactly once, in row-major order:
/// entry `y * w + x` is cell `(x, y)`.
pub fn grid_cells(w: u32, h: u32) -> (r: Vec<(u32, u32)>)
    requires
        w * h <= usize::MAX,
    ensures
        r@.len() == w * h,
        forall|q: int|
            0 <= q < r@.len() ==> #[trigger] r@[q] == (((q % (w as int)) as u32, (q / (
            w as int)) as u32)),
        forall|x: u32, y: u32| x < w && y < h ==> #[trigger] r@[y * w + x] == (x, y),
{
    let mut r: Vec<(u32, u32)> = Vec::new();
    let mut y: u32 = 0;
    while y < h
        invariant
            y <= h,
            w * h <= usize::MAX,
            r@.len() == y * w,
            forall|q: int|
                0 <= q < r@.len() ==> #[trigger] r@[q] == (((q % (w as int)) as u32, (q / (
                w as int)) as u32)),
        decreases h - y,
    {
        let mut x: u32 = 0;
        proof {
            lemma_succ_mul_painter(y as int, w as int);
            lemma_mul_mono(y as int + 1, h as int, w as int);
        }
        while x < w
            invariant
                x <= w,
                y < h,
                w * h <= usize::MAX,
                y * w + w <= w * h,
                r@.len() == y * w + x,
                forall|q: int|
                    0 <= q < r@.len() ==> #[trigger] r@[q] == (((q % (w as int)) as u32, (q / (
                    w as int)) as u32)),
            decreases w - x,
        {
            proof {
                lemma_row_major(y as int, w as int, x as int);
            }
            r.push((x, y));
            x += 1;
        }
        proof {
            lemma_succ_mul_painter(y as int, w as int);
        }
        y += 1;
    }
    proof {
        assert(r@.len() == (h as int) * (w as int));
        assert((h as int) * (w as int) == (w as int) * (h as int)) by (nonlinear_arith);
        assert forall|x: u32, y: u32| x < w && y < h implies #[trigger] r@[y * w + x] == (
        (x, y)) by {
            lemma_row_major(y as int, w as int, x as int);
            lemma_succ_mul_painter(y as int, w as int);
            lemma_mul_mono(y as int + 1, h as int, w as int);
        }
    }
    r
}

/// `a <= c` with nonnegative `b` gives `a * b <= c * b`.
proof fn lemma_mul_mono(a: int, c: int, b: int) by (nonlinear_arith)
    requires
        a <= c,
        0 <= b,
    ensures
        a * b <= c * b,
{
}

/// Splitting a row-major index back into its coordinates.
proof fn lemma_row_major(y: int, w: int, x: int) by (nonlinear_arith)
    requires
        0 <= x < w,
        0 <= y,
    ensures
        (y * w + x) % w == x,
        (y * w + x) / w == y,
{
}

/// Relies on `rand::Rng::random_range` over `0..n`: a uniformly random
/// index below `n`. Nothing more than the bound can be promised of a
/// random value.
#[verifier::external_body]
fn random_below(n: usize) -> (r: usize)
    requires
        n >= 1,
    ensures
        r < n,
{
    rand::rng().random_range(0..n)
}

/// One cell's worth of painting, supplied by the user of the painter: how
/// a single cell of the grid takes an ink value, given mutable access to
/// the wrapped simulation and to the framebuffer. It must preserve the
/// simulation's own invariant and never resize the framebuffer.
pub trait PaintAction<W: World, Ink> {
    fn paint(&self, world: &mut W, x: u32, y: u32, ink: Ink, image: &mut WorldImage)
        requires
            old(world).inv(),
        ensures
            final(world).inv(),
            final(image).spec_width() == old(image).spec_width(),
            final(image).spec_height() == old(image).spec_height(),
    ;
}

/// The simplest paint action: write the ink, itself an RGBA color,
/// straight into the framebuffer cell, leaving the simulation state
/// alone. Out-of-range cells are skipped silently, as `WorldImage::set`
/// promises.
pub struct PixelPaint;

impl<W: World> PaintAction<W, [u8; 4]> for PixelPaint {
    fn paint(&self, world: &mut W, x: u32, y: u32, ink: [u8; 4], image: &mut WorldImage) {
        image.set(x, y, ink);
    }
}

/// Configuration of the painter: the key-to-ink palette, the paint action
/// (absent to disable painting and keep only the bookkeeping), the
/// initially selected ink, and the key bindings for the fill, random fill
/// and brush size controls, each `None` to disable that control.
pub struct PainterDescriptor<Ink, F> {
    pub palette: Vec<(KeyCode, Ink)>,
    pub paint_fn: Option<F>,
    pub selected: Option<Ink>,
    pub key_fill: Option<KeyCode>,
    pub key_fill_random: Option<KeyCode>,
    pub key_brush_expand: Option<KeyCode>,
    pub key_brush_shrink: Option<KeyCode>,
}

impl<Ink, F> Default for PainterDescriptor<Ink, F> {
    /// An empty palette, no paint action, nothing selected, and the
    /// default bindings: F fills, R fills randomly, the up and down
    /// arrows size the brush.
    fn default() -> (r: Self)
        ensures
            r.palette@.len() == 0,
            r.paint_fn is None,
            r.selected is None,
            r.key_fill == Some(KeyCode::KeyF),
            r.key_fill_random == Some(KeyCode::KeyR),
            r.key_brush_expand == Some(KeyCode::ArrowUp),
            r.key_brush_shrink == Some(KeyCode::ArrowDown),
    {
        PainterDescriptor {
            palette: Vec::new(),
            paint_fn: None,
            selected: None,
            key_fill: Some(KeyCode::KeyF),
            key_fill_random: Some(KeyCode::KeyR),
            key_brush_expand: Some(KeyCode::ArrowUp),
            key_brush_shrink: Some(KeyCode::ArrowDown),
        }
    }
}

impl<Ink, F> PainterDescriptor<Ink, F> {
    /// Replaces the palette, leaving the rest unchanged.
    pub fn palette(self, palette: Vec<(KeyCode, Ink)>) -> (r: Self)
        ensures
            r.palette == palette,
            r.paint_fn == self.paint_fn,
            r.selected == self.selected,
            r.key_fill == self.key_fill,
            r.key_fill_random == self.key_fill_random,
            r.key_brush_expand == self.key_brush_expand,
            r.key_brush_shrink == self.key_brush_shrink,
    {
        PainterDescriptor { palette, ..self }
    }

    /// Replaces the paint action, leaving the rest unchanged.
    pub fn paint_fn(self, paint_fn: Option<F>) -> (r: Self)
        ensures
            r.palette == self.palette,
            r.paint_fn == paint_fn,
            r.selected == self.selected,
            r.key_fill == self.key_fill,
            r.key_fill_random == self.key_fill_random,
            r.key_brush_expand == self.key_brush_expand,
            r.key_brush_shrink == self.key_brush_shrink,
    {
        PainterDescriptor { paint_fn, ..self }
    }

    /// Replaces the selected ink, leaving the rest unchanged.
    pub fn selected(self, selected: Option<Ink>) -> (r: Self)
        ensures
            r.palette == self.palette,
            r.paint_fn == self.paint_fn,
            r.selected == selected,
            r.key_fill == self.key_fill,
            r.key_fill_random == self.key_fill_random,
            r.key_brush_expand == self.key_brush_expand,
            r.key_brush_shrink == self.key_brush_shrink,
    {
        PainterDescriptor { selected, ..self }
    }

    /// Replaces the fill key binding, leaving the rest unchanged.
    pub fn key_fill(self, key_fill: Option<KeyCode>) -> (r: Self)
        ensures
            r.palette == self.palette,
            r.paint_fn == self.paint_fn,
            r.selected == self.selected,
            r.key_fill == key_fill,
            r.key_fill_random == self.key_fill_random,
            r.key_brush_expand == self.key_brush_expand,
            r.key_brush_shrink == self.key_brush_shrink,
    {
        PainterDescriptor { key_fill, ..self }
    }

    /// Replaces the random fill key binding, leaving the rest unchanged.
    pub fn key_fill_random(self, key_fill_random: Option<KeyCode>) -> (r: Self)
        ensures
            r.palette == self.palette,
            r.paint_fn == self.paint_fn,
            r.selected == self.selected,
            r.key_fill == self.key_fill,
            r.key_fill_random == key_fill_random,
            r.key_brush_expand == self.key_brush_expand,
            r.key_brush_shrink == self.key_brush_shrink,
    {
        PainterDescriptor { key_fill_random, ..self }
    }
}

/// The ink selected after `event` reaches a palette: a press of a palette
/// key selects that key's ink, the last matching entry winning; any other
/// event leaves the selection as it was.
pub open spec fn selected_after<Ink>(
    palette: Seq<(KeyCode, Ink)>,
    event: KeyEvent,
    sel: Option<Ink>,
) -> Option<Ink>
    decreases palette.len(),
{
    if palette.len() == 0 {
        sel
    } else if spec_is_pressed(&event, palette.last().0) {
        Some(palette.last().1)
    } else {
        selected_after(palette.drop_last(), event, sel)
    }
}

/// The brush radius after `event`: a press of the expand key grows it by
/// one up to `BRUSH_SIZE_MAX`, then a press of the shrink key lowers it
/// by one, stopping at zero.
pub open spec fn brush_after(
    expand: Option<KeyCode>,
    shrink: Option<KeyCode>,
    event: KeyEvent,
    b: u32,
) -> u32 {
    let b1: u32 = match expand {
        Some(k) => if spec_is_pressed(&event, k) && b < BRUSH_SIZE_MAX {
            (b + 1) as u32
        } else {
            b
        },
        None => b,
    };
    match shrink {
        Some(k) => if spec_is_pressed(&event, k) {
            if b1 >= 1 {
                (b1 - 1) as u32
            } else {
                0
            }
        } else {
            b1
        },
        None => b1,
    }
}

/// The brush radius never leaves `[0, BRUSH_SIZE_MAX]`: starting in
/// range, it stays in range after any keyboard event, however many expand
/// and shrink presses are delivered and in whatever order.
pub proof fn lemma_brush_radius_clamped(
    expand: Option<KeyCode>,
    shrink: Option<KeyCode>,
    event: KeyEvent,
    b: u32,
)
    requires
        b <= BRUSH_SIZE_MAX,
    ensures
        brush_after(expand, shrink, event, b) <= BRUSH_SIZE_MAX,
{
}

/// Whether `event` triggers a whole-grid fill: painting is enabled, the
/// fill key is bound and pressed, and an ink is selected once the event's
/// own palette selection has been applied.
pub open spec fn fill_applies<Ink, F>(desc: PainterDescriptor<Ink, F>, event: KeyEvent) -> bool {
    &&& desc.paint_fn is Some
    &&& match desc.key_fill {
        Some(k) => spec_is_pressed(&event, k),
        None => false,
    }
    &&& selected_after(desc.palette@, event, desc.selected) is Some
}

/// Whether `event` triggers a random whole-grid fill: painting is
/// enabled, the random fill key is bound and pressed, and the palette is
/// not empty.
pub open spec fn fill_random_applies<Ink, F>(
    desc: PainterDescriptor<Ink, F>,
    event: KeyEvent,
) -> bool {
    &&& desc.paint_fn is Some
    &&& match desc.key_fill_random {
        Some(k) => spec_is_pressed(&event, k),
        None => false,
    }
    &&& desc.palette@.len() > 0
}

/// The painting decorator: wraps any simulation and adds brush painting,
/// fills and ink selection on top of it, delegating everything else to
/// the wrapped simulation. The wrapped simulation needs no awareness of
/// painting.
pub struct WithPainter<W, Ink, F> {
    pub world: W,
    pub desc: PainterDescriptor<Ink, F>,
    pub mouse_pos_prev: Option<(u32, u32)>,
    pub mouse_pos: Option<(u32, u32)>,
    pub is_painting: bool,
    pub brush_size: u32,
}

impl<W: World, Ink: Copy, F: PaintAction<W, Ink>> WithPainter<W, Ink, F> {
    /// Wraps `world` with the painter configured by `desc`: no pointer
    /// history, not painting, brush radius zero.
    pub fn new(world: W, desc: PainterDescriptor<Ink, F>) -> (r: Self)
        ensures
            r.world == world,
            r.desc == desc,
            r.mouse_pos_prev is None,
            r.mouse_pos is None,
            !r.is_painting,
            r.brush_size == 0,
    {
        WithPainter {
            world,
            desc,
            mouse_pos_prev: None,
            mouse_pos: None,
            is_painting: false,
            brush_size: 0,
        }
    }

    /// Paints one brush stamp: the ink is applied to every cell of the
    /// brush square centered on `(x, y)`, clipped to the grid; cells
    /// outside the grid are skipped silently.
    fn draw_at(&mut self, image: &mut WorldImage, x: u32, y: u32, ink: Ink)
        requires
            old(self).inv(),
            old(self).desc.paint_fn is Some,
        ensures
            final(self).inv(),
            final(image).spec_width() == old(image).spec_width(),
            final(image).spec_height() == old(image).spec_height(),
            final(self).desc == old(self).desc,
            final(self).mouse_pos == old(self).mouse_pos,
            final(self).mouse_pos_prev == old(self).mouse_pos_prev,
            final(self).is_painting == old(self).is_painting,
            final(self).brush_size == old(self).brush_size,
    {
        let w = image.width();
        let h = image.height();
        let cells = brush_cells(x, y, self.brush_size, w, h);
        let ghost d0 = self.desc;
        let ghost pp0 = self.mouse_pos_prev;
        let ghost pc0 = self.mouse_pos;
        let ghost ip0 = self.is_painting;
        let ghost b0 = self.brush_size;
        let mut i: usize = 0;
        while i < cells.len()
            invariant
                self.inv(),
                self.desc == d0,
                d0.paint_fn is Some,
                self.mouse_pos_prev == pp0,
                self.mouse_pos == pc0,
                self.is_painting == ip0,
                self.brush_size == b0,
                image.spec_width() == w,
                image.spec_height() == h,
            decreases cells@.len() - i,
        {
            let c = cells[i];
            match &self.desc.paint_fn {
                Some(pf) => {
                    pf.paint(&mut self.world, c.0, c.1, ink, image);
                },
                None => {},
            }
            i += 1;
        }
    }

    /// Paints a discrete line: one brush stamp at every cell of the
    /// Bresenham line from the previous to the current pointer cell, when
    /// painting is active, an ink is selected and both positions are
    /// known; otherwise changes nothing.
    fn draw(&mut self, image: &mut WorldImage)
        requires
            old(self).inv(),
        ensures
            final(self).inv(),
            final(image).spec_width() == old(image).spec_width(),
            final(image).spec_height() == old(image).spec_height(),
            final(self).desc == old(self).desc,
            final(self).mouse_pos == old(self).mouse_pos,
            final(self).mouse_pos_prev == old(self).mouse_pos_prev,
            final(self).is_painting == old(self).is_painting,
            final(self).brush_size == old(self).brush_size,
            !(old(self).desc.paint_fn is Some && old(self).is_painting && old(self).desc.selected is Some && old(self).mouse_pos_prev is Some && old(self).mouse_pos is Some) ==> final(image)@ == old(image)@ && final(self).world == old(self).world,
    {
        if self.desc.paint_fn.is_none() {
            return ;
        }
        if !self.is_painting {
            return ;
        }
        let ink = match self.desc.selected {
            Some(i) => i,
            None => { return ; },
        };
        let p0 = match self.mouse_pos_prev {
            Some(p) => p,
            None => { return ; },
        };
        let p1 = match self.mouse_pos {
            Some(p) => p,
            None => { return ; },
        };
        let pts = line_cells(p0, p1);
        let ghost d0 = self.desc;
        let ghost pp0 = self.mouse_pos_prev;
        let ghost pc0 = self.mouse_pos;
        let ghost ip0 = self.is_painting;
        let ghost b0 = self.brush_size;
        let ghost w0 = image.spec_width();
        let ghost h0 = image.spec_height();
        let mut i: usize = 0;
        while i < pts.len()
            invariant
                self.inv(),
                self.desc == d0,
                d0.paint_fn is Some,
                self.mouse_pos_prev == pp0,
                self.mouse_pos == pc0,
                self.is_painting == ip0,
                self.brush_size == b0,
                image.spec_width() == w0,
                image.spec_height() == h0,
            decreases pts@.len() - i,
        {
            let p = pts[i];
            self.draw_at(image, p.0, p.1, ink);
            i += 1;
        }
    }

    /// Paints every cell of the grid with `ink`.
    fn fill(&mut self, ink: Ink, image: &mut WorldImage)
        requires
            old(self).inv(),
            old(self).desc.paint_fn is Some,
        ensures
            final(self).inv(),
            final(image).spec_width() == old(image).spec_width(),
            final(image).spec_height() == old(image).spec_height(),
            final(self).desc == old(self).desc,
            final(self).mouse_pos == old(self).mouse_pos,
            final(self).mouse_pos_prev == old(self).mouse_pos_prev,
            final(self).is_painting == old(self).is_painting,
            final(self).brush_size == old(self).brush_size,
    {
        let w = image.width();
        let h = image.height();
        proof {
            lemma_cells_fit(w as int, h as int);
        }
        let cells = grid_cells(w, h);
        let ghost d0 = self.desc;
        let ghost pp0 = self.mouse_pos_prev;
        let ghost pc0 = self.mouse_pos;
        let ghost ip0 = self.is_painting;
        let ghost b0 = self.brush_size;
        let mut i: usize = 0;
        while i < cells.len()
            invariant
                self.inv(),
                self.desc == d0,
                d0.paint_fn is Some,
                self.mouse_pos_prev == pp0,
                self.mouse_pos == pc0,
                self.is_painting == ip0,
                self.brush_size == b0,
                image.spec_width() == w,
                image.spec_height() == h,
            decreases cells@.len() - i,
        {
            let c = cells[i];
            match &self.desc.paint_fn {
                Some(pf) => {
                    pf.paint(&mut self.world, c.0, c.1, ink, image);
                },
                None => {},
            }
            i += 1;
        }
    }

    /// Paints every cell of the grid with an ink drawn independently and
    /// uniformly at random from the palette's values.
    fn fill_random(&mut self, image: &mut WorldImage)
        requires
            old(self).inv(),
            old(self).desc.paint_fn is Some,
            old(self).desc.palette@.len() >= 1,
        ensures
            final(self).inv(),
            final(image).spec_width() == old(image).spec_width(),
            final(image).spec_height() == old(image).spec_height(),
            final(self).desc == old(self).desc,
            final(self).mouse_pos == old(self).mouse_pos,
            final(self).mouse_pos_prev == old(self).mouse_pos_prev,
            final(self).is_painting == old(self).is_painting,
            final(self).brush_size == old(self).brush_size,
    {
        let w = image.width();
        let h = image.height();
        proof {
            lemma_cells_fit(w as int, h as int);
        }
        let cells = grid_cells(w, h);
        let ghost d0 = self.desc;
        let ghost pp0 = self.mouse_pos_prev;
        let ghost pc0 = self.mouse_pos;
        let ghost ip0 = self.is_painting;
        let ghost b0 = self.brush_size;
        let mut i: usize = 0;
        while i < cells.len()
            invariant
                self.inv(),
                self.desc == d0,
                d0.paint_fn is Some,
                d0.palette@.len() >= 1,
                self.mouse_pos_prev == pp0,
                self.mouse_pos == pc0,
                self.is_painting == ip0,
                self.brush_size == b0,
                image.spec_width() == w,
                image.spec_height() == h,
            decreases cells@.len() - i,
        {
            let c = cells[i];
            let pick = random_below(self.desc.palette.len());
            let ink = self.desc.palette[pick].1;
            match &self.desc.paint_fn {
                Some(pf) => {
                    pf.paint(&mut self.world, c.0, c.1, ink, image);
                },
                None => {},
            }
            i += 1;
        }
    }

    /// The painter's own reaction to a keyboard event: palette selection,
    /// brush sizing and the two fills, in that order. The wrapped
    /// simulation is not consulted here.
    pub fn handle_key(&mut self, event: KeyEvent, image: &mut WorldImage)
        requires
            old(self).inv(),
        ensures
            final(self).inv(),
            final(image).spec_width() == old(image).spec_width(),
            final(image).spec_height() == old(image).spec_height(),
            final(self).brush_size == brush_after(
                old(self).desc.key_brush_expand,
                old(self).desc.key_brush_shrink,
                event,
                old(self).brush_size,
            ),
            final(self).brush_size <= BRUSH_SIZE_MAX,
            final(self).desc.selected == selected_after(
                old(self).desc.palette@,
                event,
                old(self).desc.selected,
            ),
            final(self).desc.palette == old(self).desc.palette,
            final(self).desc.paint_fn == old(self).desc.paint_fn,
            final(self).desc.key_fill == old(self).desc.key_fill,
            final(self).desc.key_fill_random == old(self).desc.key_fill_random,
            final(self).desc.key_brush_expand == old(self).desc.key_brush_expand,
            final(self).desc.key_brush_shrink == old(self).desc.key_brush_shrink,
            final(self).mouse_pos == old(self).mouse_pos,
            final(self).mouse_pos_prev == old(self).mouse_pos_prev,
            final(self).is_painting == old(self).is_painting,
            !(fill_applies(old(self).desc, event) || fill_random_applies(old(self).desc, event))
                ==> final(image)@ == old(image)@ && final(self).world == old(self).world,
    {
        let ghost pal0 = self.desc.palette@;
        let ghost sel0 = self.desc.selected;

        // Palette selection: the last pressed entry wins.
        let mut idx: usize = 0;
        while idx < self.desc.palette.len()
            invariant
                old(self).inv(),
                idx <= pal0.len(),
                *image == *old(image),
                self.world == old(self).world,
                self.desc.palette == old(self).desc.palette,
                self.desc.palette@ == pal0,
                self.desc.paint_fn == old(self).desc.paint_fn,
                self.desc.key_fill == old(self).desc.key_fill,
                self.desc.key_fill_random == old(self).desc.key_fill_random,
                self.desc.key_brush_expand == old(self).desc.key_brush_expand,
                self.desc.key_brush_shrink == old(self).desc.key_brush_shrink,
                self.mouse_pos == old(self).mouse_pos,
                self.mouse_pos_prev == old(self).mouse_pos_prev,
                self.is_painting == old(self).is_painting,
                self.brush_size == old(self).brush_size,
                self.desc.selected == selected_after(
                    pal0.subrange(0, idx as int),
                    event,
                    sel0,
                ),
            decreases pal0.len() - idx,
        {
            let entry = self.desc.palette[idx];
            if is_pressed(&event, entry.0) {
                self.desc.selected = Some(entry.1);
            }
            proof {
                assert(pal0.subrange(0, idx + 1).drop_last() =~= pal0.subrange(0, idx as int));
                assert(pal0.subrange(0, idx + 1).last() == pal0[idx as int]);
            }
            idx += 1;
        }
        proof {
            assert(pal0.subrange(0, pal0.len() as int) =~= pal0);
        }

        // Brush sizing.
        match self.desc.key_brush_expand {
            Some(k) => {
                if is_pressed(&event, k) && self.brush_size < BRUSH_SIZE_MAX {
                    self.brush_size = self.brush_size + 1;
                }
            },
            None => {},
        }
        match self.desc.key_brush_shrink {
            Some(k) => {
                if is_pressed(&event, k) {
                    if self.brush_size >= 1 {
                        self.brush_size = self.brush_size - 1;
                    }
                }
            },
            None => {},
        }

        // Whole-grid fills.
        if self.desc.paint_fn.is_some() {
            match self.desc.key_fill {
                Some(k) => {
                    if is_pressed(&event, k) {
                        match self.desc.selected {
                            Some(ink) => {
                                self.fill(ink, image);
                            },
                            None => {},
                        }
                    }
                },
                None => {},
            }
            match self.desc.key_fill_random {
                Some(k) => {
                    if is_pressed(&event, k) && self.desc.palette.len() > 0 {
                        self.fill_random(image);
                    }
                },
                None => {},
            }
        }
    }

    /// The painter's own reaction to a mouse button event: the primary
    /// button starts and stops painting, and any button event triggers a
    /// draw pass.
    pub fn handle_mouse(&mut self, event: MouseEvent, image: &mut WorldImage)
        requires
            old(self).inv(),
        ensures
            final(self).inv(),
            final(image).spec_width() == old(image).spec_width(),
            final(image).spec_height() == old(image).spec_height(),
            final(self).is_painting == (if event.button is Left {
                event.state is Pressed
            } else {
                old(self).is_painting
            }),
            final(self).desc == old(self).desc,
            final(self).mouse_pos == old(self).mouse_pos,
            final(self).mouse_pos_prev == old(self).mouse_pos_prev,
            final(self).brush_size == old(self).brush_size,
            !(old(self).desc.paint_fn is Some && final(self).is_painting && old(self).desc.selected is Some && old(self).mouse_pos_prev is Some && old(self).mouse_pos is Some) ==> final(image)@ == old(image)@ && final(self).world == old(self).world,
    {
        match event.button {
            MouseButton::Left => {
                self.is_painting = event.state.is_pressed();
            },
            _ => {},
        }
        self.draw(image);
    }

    /// The painter's own reaction to the cursor moving: the pointer
    /// history shifts — on the very first position the previous cell is
    /// set equal to the current one, so no spurious line is drawn — and a
    /// draw pass runs.
    pub fn handle_cursor(&mut self, pos: Option<(u32, u32)>, image: &mut WorldImage)
        requires
            old(self).inv(),
        ensures
            final(self).inv(),
            final(image).spec_width() == old(image).spec_width(),
            final(image).spec_height() == old(image).spec_height(),
            final(self).mouse_pos == pos,
            final(self).mouse_pos_prev == (if old(self).mouse_pos is Some {
                old(self).mouse_pos
            } else {
                pos
            }),
            final(self).desc == old(self).desc,
            final(self).is_painting == old(self).is_painting,
            final(self).brush_size == old(self).brush_size,
            !(old(self).desc.paint_fn is Some && old(self).is_painting && old(self).desc.selected is Some && pos is Some) ==> final(image)@ == old(image)@ && final(self).world == old(self).world,
    {
        self.mouse_pos_prev = self.mouse_pos;
        self.mouse_pos = pos;
        if self.mouse_pos_prev.is_none() {
            self.mouse_pos_prev = pos;
        }
        self.draw(image);
    }
}

impl<W: World, Ink: Copy, F: PaintAction<W, Ink>> World for WithPainter<W, Ink, F> {
    /// The wrapped simulation is well-formed and the brush radius is in
    /// range.
    open spec fn inv(&self) -> bool {
        &&& self.world.inv()
        &&& self.brush_size <= BRUSH_SIZE_MAX
    }

    fn init_image(&mut self) -> (img: WorldImage) {
        self.world.init_image()
    }

    fn update(&mut self, image: &mut WorldImage) {
        self.world.update(image);
    }

    fn keyboard_input(&mut self, event: KeyEvent, image: &mut WorldImage) {
        self.handle_key(event, image);
        self.world.keyboard_input(event, image);
    }

    fn mouse_input(&mut self, event: MouseEvent, image: &mut WorldImage) {
        self.handle_mouse(event, image);
        self.world.mouse_input(event, image);
    }

    fn cursor_moved(&mut self, pos: Option<(u32, u32)>, image: &mut WorldImage) {
        self.handle_cursor(pos, image);
        self.world.cursor_moved(pos, image);
    }
}

/// Wrapping any simulation with a painter, as a method.
pub trait WithPainterExt: World + Sized {
    /// `self`, wrapped with the painter configured by `desc`.
    fn with_painter<Ink: Copy, F: PaintAction<Self, Ink>>(
        self,
        desc: PainterDescriptor<Ink, F>,
    ) -> (r: WithPainter<Self, Ink, F>)
        ensures
            r.world == self,
            r.desc == desc,
            r.mouse_pos_prev is None,
            r.mouse_pos is None,
            !r.is_painting,
            r.brush_size == 0,
    {
        WithPainter::new(self, desc)
    }
}

impl<W: World> WithPainterExt for W {

}

/// A grid whose byte buffer fits also has a fitting cell count.
proof fn lemma_cells_fit(w: int, h: int) by (nonlinear_arith)
    requires
        w * h * 4 <= usize::MAX,
        w >= 0,
        h >= 0,
    ensures
        w * h <= usize::MAX,
{
}

/// `(a + 1) * b == a * b + b`.
proof fn lemma_succ_mul_painter(a: int, b: int) by (nonlinear_arith)
    ensures
        (a + 1) * b == a * b + b,
{
}

/// The first `y` full rows never exceed the whole grid.
proof fn lemma_row_bound(y: int, w: int, h: int) by (nonlinear_arith)
    requires
        0 <= y <= h,
        0 <= w,
    ensures
        y * w <= w * h,
        y * w + w <= w * h || y == h,
{
}

} // verus!