use vstd::prelude::*;
use crate::transform::WorldTransform;
use crate::transform::den_spec;
use crate::transform::lemma_viewport_bounds;
use crate::transform::scale_num_spec;
use crate::transform::x0_num_spec;
use crate::transform::x1_num_spec;
use crate::transform::y0_num_spec;
use crate::transform::y1_num_spec;

verus! {

// The grid overlay is a list of "bars": thin filled rectangles, one per
// grid line, that the external rasterizer draws over the image. Bar
// coordinates live in the same exact rational pixel space as the
// transform: every coordinate below is a numerator over the transform's
// common denominator `den`. Each bar is half a pixel thick on each side of
// its grid line (`den / 2` in numerator units).
//
// Bars are numbered `0 .. grid_w + grid_h + 2`: first the two vertical
// border lines, then the two horizontal border lines (these four are
// "major"), then the interior vertical lines `1 .. grid_w` and the
// interior horizontal lines `1 .. grid_h` ("minor"). Each bar contributes
// four vertices; drawing only the first four bars hides the interior grid
// without regenerating geometry.

/// One corner of a bar: a position in scaled pixel space, and whether the
/// bar is a major (border) line, drawn at full strength, or a minor
/// (interior) line, drawn lighter.
#[derive(Debug, Clone, Copy, PartialEq, Eq, Structural)]
pub struct LineVertex {
    pub x_num: i128,
    pub y_num: i128,
    pub major: bool,
}

/// How many bars the overlay of a `grid_w` by `grid_h` grid holds.
pub open spec fn bar_count(grid_w: int, grid_h: int) -> int {
    grid_w + grid_h + 2
}

/// Whether bar `b` is a vertical line.
pub open spec fn bar_is_vertical(grid_w: int, b: int) -> bool {
    b == 0 || b == 1 || (4 <= b < grid_w + 3)
}

/// The grid line (column or row index) that bar `b` marks.
pub open spec fn bar_line_index(grid_w: int, grid_h: int, b: int) -> int {
    if b == 0 {
        0
    } else if b == 1 {
        grid_w
    } else if b == 2 {
        0
    } else if b == 3 {
        grid_h
    } else if b < grid_w + 3 {
        b - 3
    } else {
        b - grid_w - 2
    }
}

/// Whether bar `b` is a border line, drawn at full strength.
pub open spec fn bar_is_major(b: int) -> bool {
    b < 4
}

/// The rectangle of bar `b` as `(min_x, max_x, min_y, max_y)` numerators
/// over the transform's denominator: centered on its grid line, half a
/// pixel thick to each side, spanning the viewport along the line.
pub open spec fn bar_rect(win_w: int, win_h: int, grid_w: int, grid_h: int, b: int) -> (
    int,
    int,
    int,
    int,
) {
    let den = den_spec(win_w, win_h, grid_w, grid_h);
    let s = scale_num_spec(win_w, win_h, grid_w, grid_h);
    let j = bar_line_index(grid_w, grid_h, b);
    if bar_is_vertical(grid_w, b) {
        let c = x0_num_spec(win_w, win_h, grid_w, grid_h) + s * j;
        (
            c - den / 2,
            c + den / 2,
            y0_num_spec(win_w, win_h, grid_w, grid_h),
            y1_num_spec(win_w, win_h, grid_w, grid_h),
        )
    } else {
        let c = y0_num_spec(win_w, win_h, grid_w, grid_h) + s * j;
        (
            x0_num_spec(win_w, win_h, grid_w, grid_h),
            x1_num_spec(win_w, win_h, grid_w, grid_h),
            c - den / 2,
            c + den / 2,
        )
    }
}

/// The four vertices of bar `b` in the overlay's vertex list, in the
/// order matched by `grid_indices`: the corners `(min_x, min_y)`,
/// `(max_x, min_y)`, `(min_x, max_y)`, `(max_x, max_y)`.
pub open spec fn bar_vertices_match(
    win_w: int,
    win_h: int,
    grid_w: int,
    grid_h: int,
    b: int,
    vs: Seq<LineVertex>,
) -> bool {
    let r = bar_rect(win_w, win_h, grid_w, grid_h, b);
    &&& vs.len() == 4
    &&& vs[0] == (LineVertex { x_num: r.0 as i128, y_num: r.2 as i128, major: bar_is_major(b) })
    &&& vs[1] == (LineVertex { x_num: r.1 as i128, y_num: r.2 as i128, major: bar_is_major(b) })
    &&& vs[2] == (LineVertex { x_num: r.0 as i128, y_num: r.3 as i128, major: bar_is_major(b) })
    &&& vs[3] == (LineVertex { x_num: r.1 as i128, y_num: r.3 as i128, major: bar_is_major(b) })
}

/// The whole overlay for `t`: four vertices for each of the
/// `grid_w + grid_h + 2` bars, border bars first.
pub fn grid_line_vertices(t: &WorldTransform) -> (r: Vec<LineVertex>)
    requires
        (t.spec_grid_w() + t.spec_grid_h() + 2) * 4 <= usize::MAX,
    ensures
        r@.len() == 4 * bar_count(t.spec_grid_w() as int, t.spec_grid_h() as int),
        forall|b: int|
            0 <= b < bar_count(t.spec_grid_w() as int, t.spec_grid_h() as int)
                ==> #[trigger] bar_vertices_match(
                t.spec_win_w() as int,
                t.spec_win_h() as int,
                t.spec_grid_w() as int,
                t.spec_grid_h() as int,
                b,
                r@.subrange(4 * b, 4 * b + 4),
            ),
{
    let ghost ww = t.spec_win_w() as int;
    let ghost wh = t.spec_win_h() as int;
    let ghost gw_i = t.spec_grid_w() as int;
    let ghost gh_i = t.spec_grid_h() as int;
    let win_w: u32 = t.window_width();
    let win_h: u32 = t.window_height();
    let gw: u32 = t.grid_width();
    let gh: u32 = t.grid_height();
    let den = t.den();
    let s = t.scale_num();
    let x0 = t.x0_num();
    let y0 = t.y0_num();
    let x1 = t.x1_num();
    let y1 = t.y1_num();
    let half: i128 = (den / 2) as i128;

    let mut r: Vec<LineVertex> = Vec::new();

    // The four border bars.
    proof {
        lemma_viewport_bounds(ww, wh, gw_i, gh_i);
        lemma_scale_line_bound(s as int, 0, gw_i, gh_i);
        lemma_scale_line_bound(s as int, gw_i, gw_i, gh_i);
        lemma_scale_line_bound(s as int, gh_i, gw_i, gh_i);
    }
    push_bar(&mut r, (x0 as i128) - half, (x0 as i128) + half, y0 as i128, y1 as i128, true);
    push_bar(&mut r, (x1 as i128) - half, (x1 as i128) + half, y0 as i128, y1 as i128, true);
    push_bar(&mut r, x0 as i128, x1 as i128, (y0 as i128) - half, (y0 as i128) + half, true);
    push_bar(&mut r, x0 as i128, x1 as i128, (y1 as i128) - half, (y1 as i128) + half, true);
    proof {
        assert(x1_num_spec(ww, wh, gw_i, gh_i) == x0_num_spec(ww, wh, gw_i, gh_i)
            + scale_num_spec(ww, wh, gw_i, gh_i) * gw_i);
        assert(forall|b: int|
            0 <= b < 4 ==> #[trigger] bar_vertices_match(ww, wh, gw_i, gh_i, b, r@.subrange(4 * b, 4 * b + 4)));
    }

    // Interior vertical lines.
    let mut j: u32 = 1;
    while j < gw
        invariant
            1 <= j <= gw,
            r@.len() == 4 * (3 + j),
            (gw + gh + 2) * 4 <= usize::MAX,
            gw == t.spec_grid_w(),
            gh == t.spec_grid_h(),
            ww == t.spec_win_w() as int,
            wh == t.spec_win_h() as int,
            1 <= ww < 0x1_0000_0000,
            1 <= wh < 0x1_0000_0000,
            1 <= gw_i < 0x1_0000_0000,
            1 <= gh_i < 0x1_0000_0000,
            gw_i == gw as int,
            gh_i == gh as int,
            den == den_spec(ww, wh, gw_i, gh_i),
            s == scale_num_spec(ww, wh, gw_i, gh_i),
            x0 == x0_num_spec(ww, wh, gw_i, gh_i),
            y0 == y0_num_spec(ww, wh, gw_i, gh_i),
            y1 == y1_num_spec(ww, wh, gw_i, gh_i),
            half == den_spec(ww, wh, gw_i, gh_i) / 2,
            forall|b: int|
                0 <= b < 3 + j ==> #[trigger] bar_vertices_match(
                    ww,
                    wh,
                    gw_i,
                    gh_i,
                    b,
                    r@.subrange(4 * b, 4 * b + 4),
                ),
        decreases gw - j,
    {
        proof {
            lemma_viewport_bounds(ww, wh, gw_i, gh_i);
            lemma_scale_line_bound(s as int, j as int, gw_i, gh_i);
        }
        let c: u128 = x0 + (s as u128) * (j as u128);
        let ghost r0 = r@;
        push_bar(&mut r, (c as i128) - half, (c as i128) + half, y0 as i128, y1 as i128, false);
        proof {
            assert forall|b: int| 0 <= b < 3 + j + 1 implies #[trigger] bar_vertices_match(
                ww,
                wh,
                gw_i,
                gh_i,
                b,
                r@.subrange(4 * b, 4 * b + 4),
            ) by {
                if b < 3 + j {
                    assert(r@.subrange(4 * b, 4 * b + 4) =~= r0.subrange(4 * b, 4 * b + 4));
                } else {
                    assert(bar_line_index(gw_i, gh_i, b) == j as int);
                    assert(r@.subrange(4 * b, 4 * b + 4) =~= seq![
                        r@[4 * b],
                        r@[4 * b + 1],
                        r@[4 * b + 2],
                        r@[4 * b + 3],
                    ]);
                }
            }
        }
        j += 1;
    }

    // Interior horizontal lines.
    let x1b = x1;
    let mut k: u32 = 1;
    while k < gh
        invariant
            1 <= k <= gh,
            r@.len() == 4 * (gw + 2 + k),
            (gw + gh + 2) * 4 <= usize::MAX,
            gw == t.spec_grid_w(),
            gh == t.spec_grid_h(),
            ww == t.spec_win_w() as int,
            wh == t.spec_win_h() as int,
            1 <= ww < 0x1_0000_0000,
            1 <= wh < 0x1_0000_0000,
            1 <= gw_i < 0x1_0000_0000,
            1 <= gh_i < 0x1_0000_0000,
            gw_i == gw as int,
            gh_i == gh as int,
            den == den_spec(ww, wh, gw_i, gh_i),
            s == scale_num_spec(ww, wh, gw_i, gh_i),
            x0 == x0_num_spec(ww, wh, gw_i, gh_i),
            y0 == y0_num_spec(ww, wh, gw_i, gh_i),
            x1b == x1_num_spec(ww, wh, gw_i, gh_i),
            half == den_spec(ww, wh, gw_i, gh_i) / 2,
            forall|b: int|
                0 <= b < gw + 2 + k ==> #[trigger] bar_vertices_match(
                    ww,
                    wh,
                    gw_i,
                    gh_i,
                    b,
                    r@.subrange(4 * b, 4 * b + 4),
                ),
        decreases gh - k,
    {
        proof {
            lemma_viewport_bounds(ww, wh, gw_i, gh_i);
            lemma_scale_line_bound(s as int, k as int, gw_i, gh_i);
        }
        let c: u128 = y0 + (s as u128) * (k as u128);
        let ghost r0 = r@;
        push_bar(&mut r, x0 as i128, x1b as i128, (c as i128) - half, (c as i128) + half, false);
        proof {
            assert forall|b: int| 0 <= b < gw + 2 + k + 1 implies #[trigger] bar_vertices_match(
                ww,
                wh,
                gw_i,
                gh_i,
                b,
                r@.subrange(4 * b, 4 * b + 4),
            ) by {
                if b < gw + 2 + k {
                    assert(r@.subrange(4 * b, 4 * b + 4) =~= r0.subrange(4 * b, 4 * b + 4));
                } else {
                    assert(!bar_is_vertical(gw_i, b));
                    assert(bar_line_index(gw_i, gh_i, b) == k as int);
                    assert(r@.subrange(4 * b, 4 * b + 4) =~= seq![
                        r@[4 * b],
                        r@[4 * b + 1],
                        r@[4 * b + 2],
                        r@[4 * b + 3],
                    ]);
                }
            }
        }
        k += 1;
    }
    r
}

/// The six index entries of bar `b` in `vs`: two triangles covering the
/// bar's rectangle, in the fixed pattern
/// `[i, i + 1, i + 2, i + 2, i + 1, i + 3]` over its four vertices.
pub open spec fn bar_index_block(vs: Seq<u32>, b: int) -> bool {
    &&& vs[6 * b] == 4 * b
    &&& vs[6 * b + 1] == 4 * b + 1
    &&& vs[6 * b + 2] == 4 * b + 2
    &&& vs[6 * b + 3] == 4 * b + 2
    &&& vs[6 * b + 4] == 4 * b + 1
    &&& vs[6 * b + 5] == 4 * b + 3
}

/// The index buffer for the overlay of a `grid_w` by `grid_h` grid: six
/// indices per bar, two triangles each, in bar order.
pub fn grid_indices(grid_w: u32, grid_h: u32) -> (r: Vec<u32>)
    requires
        (grid_w + grid_h + 2) * 6 <= usize::MAX,
        (grid_w + grid_h + 2) * 4 <= u32::MAX,
    ensures
        r@.len() == 6 * bar_count(grid_w as int, grid_h as int),
        forall|b: int|
            0 <= b < bar_count(grid_w as int, grid_h as int) ==> #[trigger] bar_index_block(r@, b),
{
    let n: u64 = grid_w as u64 + grid_h as u64 + 2;
    let mut r: Vec<u32> = Vec::new();
    let mut b: u64 = 0;
    while b < n
        invariant
            b <= n,
            n == grid_w + grid_h + 2,
            n * 6 <= usize::MAX,
            n * 4 <= u32::MAX,
            r@.len() == 6 * b,
            forall|q: int| 0 <= q < b ==> #[trigger] bar_index_block(r@, q),
        decreases n - b,
    {
        let ghost r0 = r@;
        let i: u32 = (b as u32) * 4;
        r.push(i);
        r.push(i + 1);
        r.push(i + 2);
        r.push(i + 2);
        r.push(i + 1);
        r.push(i + 3);
        proof {
            assert forall|q: int| 0 <= q < b + 1 implies #[trigger] bar_index_block(r@, q) by {
                if q < b {
                    assert(bar_index_block(r0, q));
                    assert(r@[6 * q] == r0[6 * q]);
                    assert(r@[6 * q + 1] == r0[6 * q + 1]);
                    assert(r@[6 * q + 2] == r0[6 * q + 2]);
                    assert(r@[6 * q + 3] == r0[6 * q + 3]);
                    assert(r@[6 * q + 4] == r0[6 * q + 4]);
                    assert(r@[6 * q + 5] == r0[6 * q + 5]);
                }
            }
        }
        b += 1;
    }
    r
}

/// The index range the rasterizer should draw: the whole buffer when the
/// overlay is enabled, and only the first 24 indices — the four border
/// bars — when it is not.
pub fn grid_indices_range(n_indices: u32, grid_enabled: bool) -> (r: (u32, u32))
    ensures
        r.0 == 0,
        r.1 == if grid_enabled {
            n_indices
        } else {
            24u32
        },
{
    if grid_enabled {
        (0, n_indices)
    } else {
        (0, 24)
    }
}

/// The border bars coincide with the viewport's edges: the first two bars
/// are centered exactly on the viewport's left and right edge and span its
/// full height, and the next two are centered on its top and bottom edge
/// and span its full width. The overlay therefore stays aligned with the
/// transform computed for the same window and grid.
pub proof fn lemma_border_bars_align(win_w: int, win_h: int, grid_w: int, grid_h: int)
    requires
        1 <= win_w < 0x1_0000_0000,
        1 <= win_h < 0x1_0000_0000,
        1 <= grid_w < 0x1_0000_0000,
        1 <= grid_h < 0x1_0000_0000,
    ensures
        bar_rect(win_w, win_h, grid_w, grid_h, 0) == (
            x0_num_spec(win_w, win_h, grid_w, grid_h) - den_spec(win_w, win_h, grid_w, grid_h) / 2,
            x0_num_spec(win_w, win_h, grid_w, grid_h) + den_spec(win_w, win_h, grid_w, grid_h) / 2,
            y0_num_spec(win_w, win_h, grid_w, grid_h),
            y1_num_spec(win_w, win_h, grid_w, grid_h),
        ),
        bar_rect(win_w, win_h, grid_w, grid_h, 1) == (
            x1_num_spec(win_w, win_h, grid_w, grid_h) - den_spec(win_w, win_h, grid_w, grid_h) / 2,
            x1_num_spec(win_w, win_h, grid_w, grid_h) + den_spec(win_w, win_h, grid_w, grid_h) / 2,
            y0_num_spec(win_w, win_h, grid_w, grid_h),
            y1_num_spec(win_w, win_h, grid_w, grid_h),
        ),
        bar_rect(win_w, win_h, grid_w, grid_h, 2) == (
            x0_num_spec(win_w, win_h, grid_w, grid_h),
            x1_num_spec(win_w, win_h, grid_w, grid_h),
            y0_num_spec(win_w, win_h, grid_w, grid_h) - den_spec(win_w, win_h, grid_w, grid_h) / 2,
            y0_num_spec(win_w, win_h, grid_w, grid_h) + den_spec(win_w, win_h, grid_w, grid_h) / 2,
        ),
        bar_rect(win_w, win_h, grid_w, grid_h, 3) == (
            x0_num_spec(win_w, win_h, grid_w, grid_h),
            x1_num_spec(win_w, win_h, grid_w, grid_h),
            y1_num_spec(win_w, win_h, grid_w, grid_h) - den_spec(win_w, win_h, grid_w, grid_h) / 2,
            y1_num_spec(win_w, win_h, grid_w, grid_h) + den_spec(win_w, win_h, grid_w, grid_h) / 2,
        ),
{
}

/// Appends the four corners of one bar.
fn push_bar(r: &mut Vec<LineVertex>, min_x: i128, max_x: i128, min_y: i128, max_y: i128, major: bool)
    requires
        old(r)@.len() + 4 <= usize::MAX,
    ensures
        final(r)@.len() == old(r)@.len() + 4,
        final(r)@.subrange(0, old(r)@.len() as int) == old(r)@,
        final(r)@[old(r)@.len() as int] == (LineVertex { x_num: min_x, y_num: min_y, major }),
        final(r)@[old(r)@.len() as int + 1] == (LineVertex { x_num: max_x, y_num: min_y, major }),
        final(r)@[old(r)@.len() as int + 2] == (LineVertex { x_num: min_x, y_num: max_y, major }),
        final(r)@[old(r)@.len() as int + 3] == (LineVertex { x_num: max_x, y_num: max_y, major }),
{
    r.push(LineVertex { x_num: min_x, y_num: min_y, major });
    r.push(LineVertex { x_num: max_x, y_num: min_y, major });
    r.push(LineVertex { x_num: min_x, y_num: max_y, major });
    r.push(LineVertex { x_num: max_x, y_num: max_y, major });
}

/// The scale numerator times a line index stays far below the range of
/// `u128` and `i128`.
proof fn lemma_scale_line_bound(s: int, j: int, grid_w: int, grid_h: int)
    requires
        0 <= s < 0x7ce_0000_0000,
        0 <= j,
        j <= grid_w || j <= grid_h,
        grid_w < 0x1_0000_0000,
        grid_h < 0x1_0000_0000,
    ensures
        0 <= s * j < 0x7ce_0000_0000_0000_0000_0000,
{
    lemma_mul_le_overlay(s, j, 0x7ce_0000_0000 - 1, 0xffff_ffff);
}

/// `a * b` grows with each factor.
proof fn lemma_mul_le_overlay(a: int, b: int, c: int, d: int) by (nonlinear_arith)
    requires
        0 <= a <= c,
        0 <= b <= d,
    ensures
        0 <= a * b <= c * d,
{
}

} // verus!
