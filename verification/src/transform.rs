use vstd::prelude::*;

verus! {

// The letterboxed viewport is described by exact rational numbers. All
// coordinates below are window pixels scaled by a common denominator
// `den = 2000 * G`, where `G` is the grid dimension along the axis that
// limits the viewport. The factor 2000 carries both the halving used for
// centering and the documented margin factor 999/1000 without leaving the
// integers:
//
//   scale (pixels per cell)   s  = 999 * M / (1000 * G) = s_num / den
//   viewport left edge        x0 = (win_w - s * grid_w) / 2 = x0_num / den
//   viewport top edge         y0 = (win_h - s * grid_h) / 2 = y0_num / den
//
// where `M` is the window dimension along the limiting axis. The window is
// "wide" when its aspect ratio exceeds the grid's; then the viewport spans
// the window's height (M = win_h, G = grid_h), otherwise its width.

/// Whether the window is wider, in proportion, than the grid.
pub open spec fn is_wide(win_w: int, win_h: int, grid_w: int, grid_h: int) -> bool {
    win_w * grid_h > win_h * grid_w
}

/// The grid dimension along the limiting axis.
pub open spec fn lead_grid(win_w: int, win_h: int, grid_w: int, grid_h: int) -> int {
    if is_wide(win_w, win_h, grid_w, grid_h) {
        grid_h
    } else {
        grid_w
    }
}

/// The window dimension along the limiting axis.
pub open spec fn lead_win(win_w: int, win_h: int, grid_w: int, grid_h: int) -> int {
    if is_wide(win_w, win_h, grid_w, grid_h) {
        win_h
    } else {
        win_w
    }
}

/// Common denominator of all viewport coordinates.
pub open spec fn den_spec(win_w: int, win_h: int, grid_w: int, grid_h: int) -> int {
    2000 * lead_grid(win_w, win_h, grid_w, grid_h)
}

/// Numerator of the per-cell pixel scale.
pub open spec fn scale_num_spec(win_w: int, win_h: int, grid_w: int, grid_h: int) -> int {
    1998 * lead_win(win_w, win_h, grid_w, grid_h)
}

/// Numerator of the viewport's left edge.
pub open spec fn x0_num_spec(win_w: int, win_h: int, grid_w: int, grid_h: int) -> int {
    1000 * lead_grid(win_w, win_h, grid_w, grid_h) * win_w - 999 * lead_win(
        win_w,
        win_h,
        grid_w,
        grid_h,
    ) * grid_w
}

/// Numerator of the viewport's top edge.
pub open spec fn y0_num_spec(win_w: int, win_h: int, grid_w: int, grid_h: int) -> int {
    1000 * lead_grid(win_w, win_h, grid_w, grid_h) * win_h - 999 * lead_win(
        win_w,
        win_h,
        grid_w,
        grid_h,
    ) * grid_h
}

/// Numerator of the viewport's right edge.
pub open spec fn x1_num_spec(win_w: int, win_h: int, grid_w: int, grid_h: int) -> int {
    x0_num_spec(win_w, win_h, grid_w, grid_h) + scale_num_spec(win_w, win_h, grid_w, grid_h)
        * grid_w
}

/// Numerator of the viewport's bottom edge.
pub open spec fn y1_num_spec(win_w: int, win_h: int, grid_w: int, grid_h: int) -> int {
    y0_num_spec(win_w, win_h, grid_w, grid_h) + scale_num_spec(win_w, win_h, grid_w, grid_h)
        * grid_h
}

/// The cell under window pixel `(px, py)`: subtract the viewport origin,
/// divide by the per-cell scale and take the floor. `None` when the pixel
/// lies left of or above the viewport, or when the computed cell index
/// falls outside the grid.
pub open spec fn cell_of(
    win_w: int,
    win_h: int,
    grid_w: int,
    grid_h: int,
    px: int,
    py: int,
) -> Option<(int, int)> {
    let den = den_spec(win_w, win_h, grid_w, grid_h);
    let s = scale_num_spec(win_w, win_h, grid_w, grid_h);
    let fx = px * den - x0_num_spec(win_w, win_h, grid_w, grid_h);
    let fy = py * den - y0_num_spec(win_w, win_h, grid_w, grid_h);
    if fx >= 0 && fy >= 0 && fx / s < grid_w && fy / s < grid_h {
        Some((fx / s, fy / s))
    } else {
        None
    }
}

/// The aspect-correct mapping between window pixel space and grid cell
/// space for one window size and one grid size, held as exact integer
/// numerators over the common denominator `den`.
pub struct WorldTransform {
    win_w: u32,
    win_h: u32,
    grid_w: u32,
    grid_h: u32,
    den: u64,
    s_num: u64,
    x0_num: u128,
    y0_num: u128,
}

impl WorldTransform {
    #[verifier::type_invariant]
    spec fn type_inv(self) -> bool {
        &&& self.win_w >= 1
        &&& self.win_h >= 1
        &&& self.grid_w >= 1
        &&& self.grid_h >= 1
        &&& self.den == den_spec(
            self.win_w as int,
            self.win_h as int,
            self.grid_w as int,
            self.grid_h as int,
        )
        &&& self.s_num == scale_num_spec(
            self.win_w as int,
            self.win_h as int,
            self.grid_w as int,
            self.grid_h as int,
        )
        &&& self.x0_num == x0_num_spec(
            self.win_w as int,
            self.win_h as int,
            self.grid_w as int,
            self.grid_h as int,
        )
        &&& self.y0_num == y0_num_spec(
            self.win_w as int,
            self.win_h as int,
            self.grid_w as int,
            self.grid_h as int,
        )
    }

    pub closed spec fn spec_win_w(&self) -> u32 {
        self.win_w
    }

    pub closed spec fn spec_win_h(&self) -> u32 {
        self.win_h
    }

    pub closed spec fn spec_grid_w(&self) -> u32 {
        self.grid_w
    }

    pub closed spec fn spec_grid_h(&self) -> u32 {
        self.grid_h
    }

    /// The transform for a window of `win_w` by `win_h` pixels showing a
    /// grid of `grid_w` by `grid_h` cells.
    pub fn new(win_w: u32, win_h: u32, grid_w: u32, grid_h: u32) -> (r: Self)
        requires
            win_w >= 1,
            win_h >= 1,
            grid_w >= 1,
            grid_h >= 1,
        ensures
            r.spec_win_w() == win_w,
            r.spec_win_h() == win_h,
            r.spec_grid_w() == grid_w,
            r.spec_grid_h() == grid_h,
    {
        proof {
            lemma_viewport_bounds(win_w as int, win_h as int, grid_w as int, grid_h as int);
            lemma_mul_le(win_w as int, grid_h as int, 0xffff_ffff, 0xffff_ffff);
            lemma_mul_le(win_h as int, grid_w as int, 0xffff_ffff, 0xffff_ffff);
        }
        let wide = (win_w as u64) * (grid_h as u64) > (win_h as u64) * (grid_w as u64);
        let g: u64 = if wide {
            grid_h as u64
        } else {
            grid_w as u64
        };
        let m: u64 = if wide {
            win_h as u64
        } else {
            win_w as u64
        };
        let den: u64 = 2000 * g;
        let s_num: u64 = 1998 * m;
        proof {
            lemma_mul_le(999 * (m as int), grid_w as int, 999 * 0xffff_ffffint, 0xffff_ffff);
            lemma_mul_le(999 * (m as int), grid_h as int, 999 * 0xffff_ffffint, 0xffff_ffff);
            lemma_mul_le(1000 * (g as int), win_w as int, 1000 * 0xffff_ffffint, 0xffff_ffff);
            lemma_mul_le(1000 * (g as int), win_h as int, 1000 * 0xffff_ffffint, 0xffff_ffff);
        }
        let gw_term: u128 = 999 * (m as u128) * (grid_w as u128);
        let gh_term: u128 = 999 * (m as u128) * (grid_h as u128);
        let x0_num: u128 = 1000 * (g as u128) * (win_w as u128) - gw_term;
        let y0_num: u128 = 1000 * (g as u128) * (win_h as u128) - gh_term;
        WorldTransform { win_w, win_h, grid_w, grid_h, den, s_num, x0_num, y0_num }
    }

    /// Width of the window, in pixels.
    pub fn window_width(&self) -> (r: u32)
        ensures
            r == self.spec_win_w(),
            r >= 1,
    {
        proof {
            use_type_invariant(self);
        }
        self.win_w
    }

    /// Height of the window, in pixels.
    pub fn window_height(&self) -> (r: u32)
        ensures
            r == self.spec_win_h(),
            r >= 1,
    {
        proof {
            use_type_invariant(self);
        }
        self.win_h
    }

    /// Width of the grid, in cells.
    pub fn grid_width(&self) -> (r: u32)
        ensures
            r == self.spec_grid_w(),
            r >= 1,
    {
        proof {
            use_type_invariant(self);
        }
        self.grid_w
    }

    /// Height of the grid, in cells.
    pub fn grid_height(&self) -> (r: u32)
        ensures
            r == self.spec_grid_h(),
            r >= 1,
    {
        proof {
            use_type_invariant(self);
        }
        self.grid_h
    }

    /// Common denominator of the numerators below.
    pub fn den(&self) -> (r: u64)
        ensures
            r == den_spec(
                self.spec_win_w() as int,
                self.spec_win_h() as int,
                self.spec_grid_w() as int,
                self.spec_grid_h() as int,
            ),
    {
        proof {
            use_type_invariant(self);
        }
        self.den
    }

    /// Numerator of the per-cell pixel scale.
    pub fn scale_num(&self) -> (r: u64)
        ensures
            r == scale_num_spec(
                self.spec_win_w() as int,
                self.spec_win_h() as int,
                self.spec_grid_w() as int,
                self.spec_grid_h() as int,
            ),
    {
        proof {
            use_type_invariant(self);
        }
        self.s_num
    }

    /// Numerator of the viewport's left edge.
    pub fn x0_num(&self) -> (r: u128)
        ensures
            r == x0_num_spec(
                self.spec_win_w() as int,
                self.spec_win_h() as int,
                self.spec_grid_w() as int,
                self.spec_grid_h() as int,
            ),
    {
        proof {
            use_type_invariant(self);
        }
        self.x0_num
    }

    /// Numerator of the viewport's top edge.
    pub fn y0_num(&self) -> (r: u128)
        ensures
            r == y0_num_spec(
                self.spec_win_w() as int,
                self.spec_win_h() as int,
                self.spec_grid_w() as int,
                self.spec_grid_h() as int,
            ),
    {
        proof {
            use_type_invariant(self);
        }
        self.y0_num
    }

    /// Numerator of the viewport's right edge.
    pub fn x1_num(&self) -> (r: u128)
        ensures
            r == x1_num_spec(
                self.spec_win_w() as int,
                self.spec_win_h() as int,
                self.spec_grid_w() as int,
                self.spec_grid_h() as int,
            ),
    {
        proof {
            use_type_invariant(self);
            lemma_viewport_bounds(
                self.win_w as int,
                self.win_h as int,
                self.grid_w as int,
                self.grid_h as int,
            );
            lemma_mul_le(self.s_num as int, self.grid_w as int, 0x7ce_0000_0000, 0xffff_ffff);
        }
        self.x0_num + (self.s_num as u128) * (self.grid_w as u128)
    }

    /// Numerator of the viewport's bottom edge.
    pub fn y1_num(&self) -> (r: u128)
        ensures
            r == y1_num_spec(
                self.spec_win_w() as int,
                self.spec_win_h() as int,
                self.spec_grid_w() as int,
                self.spec_grid_h() as int,
            ),
    {
        proof {
            use_type_invariant(self);
            lemma_viewport_bounds(
                self.win_w as int,
                self.win_h as int,
                self.grid_w as int,
                self.grid_h as int,
            );
            lemma_mul_le(self.s_num as int, self.grid_h as int, 0x7ce_0000_0000, 0xffff_ffff);
        }
        self.y0_num + (self.s_num as u128) * (self.grid_h as u128)
    }

    /// Maps a window pixel position to the grid cell under it, or `None`
    /// when the position lies outside the letterboxed viewport or beyond
    /// the last cell.
    pub fn map(&self, px: i64, py: i64) -> (r: Option<(u32, u32)>)
        ensures
            (match r {
                Some((cx, cy)) => {
                    &&& cell_of(
                        self.spec_win_w() as int,
                        self.spec_win_h() as int,
                        self.spec_grid_w() as int,
                        self.spec_grid_h() as int,
                        px as int,
                        py as int,
                    ) == Some((cx as int, cy as int))
                    &&& cx < self.spec_grid_w()
                    &&& cy < self.spec_grid_h()
                },
                None => cell_of(
                    self.spec_win_w() as int,
                    self.spec_win_h() as int,
                    self.spec_grid_w() as int,
                    self.spec_grid_h() as int,
                    px as int,
                    py as int,
                ) is None,
            }),
    {
        proof {
            use_type_invariant(self);
            lemma_viewport_bounds(
                self.win_w as int,
                self.win_h as int,
                self.grid_w as int,
                self.grid_h as int,
            );
        }
        if px < 0 || py < 0 {
            proof {
                lemma_neg_pixel_misses(
                    self.win_w as int,
                    self.win_h as int,
                    self.grid_w as int,
                    self.grid_h as int,
                    px as int,
                    py as int,
                );
            }
            return None;
        }
        proof {
            lemma_mul_le(px as int, self.den as int, i64::MAX as int, 0x7d0_0000_0000);
            lemma_mul_le(py as int, self.den as int, i64::MAX as int, 0x7d0_0000_0000);
        }
        let ux: u128 = (px as u128) * (self.den as u128);
        let uy: u128 = (py as u128) * (self.den as u128);
        if ux < self.x0_num || uy < self.y0_num {
            return None;
        }
        let cx: u128 = (ux - self.x0_num) / (self.s_num as u128);
        let cy: u128 = (uy - self.y0_num) / (self.s_num as u128);
        if cx >= self.grid_w as u128 || cy >= self.grid_h as u128 {
            return None;
        }
        Some((cx as u32, cy as u32))
    }
}

/// Division facts used to characterize the cell map: for a nonnegative
/// offset and positive scale, the floored quotient is nonnegative, and it
/// stays below `g` exactly when the offset lies before the `g`-th cell
/// boundary.
proof fn lemma_div_bound(f: int, s: int, g: int) by (nonlinear_arith)
    requires
        s >= 1,
        0 <= f,
    ensures
        0 <= f / s,
        (f / s < g) <==> (f < g * s),
{
}

/// Where the letterboxed cell map hits and what it returns: `cell_of`
/// yields a cell exactly for the pixels whose scaled coordinates fall
/// inside the viewport rectangle `[x0, x1) x [y0, y1)`, and the cell it
/// yields is the floor of the pixel's offset divided by the cell scale,
/// always within the grid's bounds. Pixels outside that rectangle map to
/// `None`.
pub proof fn lemma_cell_of_characterization(
    win_w: int,
    win_h: int,
    grid_w: int,
    grid_h: int,
    px: int,
    py: int,
)
    requires
        1 <= win_w < 0x1_0000_0000,
        1 <= win_h < 0x1_0000_0000,
        1 <= grid_w < 0x1_0000_0000,
        1 <= grid_h < 0x1_0000_0000,
    ensures
        cell_of(win_w, win_h, grid_w, grid_h, px, py) is Some <==> {
            let den = den_spec(win_w, win_h, grid_w, grid_h);
            &&& x0_num_spec(win_w, win_h, grid_w, grid_h) <= px * den < x1_num_spec(
                win_w,
                win_h,
                grid_w,
                grid_h,
            )
            &&& y0_num_spec(win_w, win_h, grid_w, grid_h) <= py * den < y1_num_spec(
                win_w,
                win_h,
                grid_w,
                grid_h,
            )
        },
        (match cell_of(win_w, win_h, grid_w, grid_h, px, py) {
            Some((cx, cy)) => {
                &&& 0 <= cx < grid_w
                &&& 0 <= cy < grid_h
                &&& cx == (px * den_spec(win_w, win_h, grid_w, grid_h) - x0_num_spec(
                    win_w,
                    win_h,
                    grid_w,
                    grid_h,
                )) / scale_num_spec(win_w, win_h, grid_w, grid_h)
                &&& cy == (py * den_spec(win_w, win_h, grid_w, grid_h) - y0_num_spec(
                    win_w,
                    win_h,
                    grid_w,
                    grid_h,
                )) / scale_num_spec(win_w, win_h, grid_w, grid_h)
            },
            None => true,
        }),
{
    lemma_viewport_bounds(win_w, win_h, grid_w, grid_h);
    let den = den_spec(win_w, win_h, grid_w, grid_h);
    let s = scale_num_spec(win_w, win_h, grid_w, grid_h);
    let fx = px * den - x0_num_spec(win_w, win_h, grid_w, grid_h);
    let fy = py * den - y0_num_spec(win_w, win_h, grid_w, grid_h);
    if fx >= 0 {
        lemma_div_bound(fx, s, grid_w);
    }
    if fy >= 0 {
        lemma_div_bound(fy, s, grid_h);
    }
}

/// `a * b` grows with each factor.
proof fn lemma_mul_le(a: int, b: int, c: int, d: int) by (nonlinear_arith)
    requires
        0 <= a <= c,
        0 <= b <= d,
    ensures
        a * b <= c * d,
{
}

/// The product of a negative and a positive number is negative.
proof fn lemma_mul_neg(a: int, b: int) by (nonlinear_arith)
    requires
        a < 0,
        b > 0,
    ensures
        a * b < 0,
{
}

/// Raw arithmetic behind `lemma_viewport_bounds` for a wide window, with
/// `m` and `g` standing for the limiting window and grid dimensions.
proof fn lemma_bounds_arith(ww: int, wh: int, gw: int, gh: int, m: int, g: int) by (
    nonlinear_arith
)
    requires
        1 <= ww < 0x1_0000_0000,
        1 <= wh < 0x1_0000_0000,
        1 <= gw < 0x1_0000_0000,
        1 <= gh < 0x1_0000_0000,
        1 <= m < 0x1_0000_0000,
        1 <= g < 0x1_0000_0000,
        // the viewport scale never exceeds the window: 999 * m * g_axis
        // stays below 1000 * g * w_axis on both axes
        999 * (m * gw) <= 1000 * (g * ww) - g * ww,
        999 * (m * gh) <= 1000 * (g * wh) - g * wh,
    ensures
        0 <= 1000 * g * ww - 999 * m * gw,
        1000 * g * ww - 999 * m * gw <= 1000 * g * ww < 0x3e8_0000_0000_0000_0000_0000,
        0 <= 1000 * g * wh - 999 * m * gh,
        1000 * g * wh - 999 * m * gh <= 1000 * g * wh < 0x3e8_0000_0000_0000_0000_0000,
        (1000 * g * ww - 999 * m * gw) + 1998 * m * gw <= 2000 * g * ww,
        (1000 * g * wh - 999 * m * gh) + 1998 * m * gh <= 2000 * g * wh,
{
}

/// On the limiting axis the scale premise of `lemma_bounds_arith` holds
/// outright; on the other axis it follows from the aspect comparison.
proof fn lemma_axis_premise(wa: int, ga: int, wb: int, gb: int) by (nonlinear_arith)
    requires
        1 <= wa,
        1 <= ga,
        1 <= wb,
        1 <= gb,
        // axis `a` limits: its aspect comparison holds weakly
        wa * gb <= wb * ga,
    ensures
        999 * (wa * ga) <= 1000 * (ga * wa) - ga * wa,
        999 * (wa * gb) <= 1000 * (ga * wb) - ga * wb,
{
}

/// The letterboxed viewport never exceeds the window: its edge numerators
/// are nonnegative and stay at or below `den` times the window size, so
/// `0 <= x0 <= x1 <= win_w` and `0 <= y0 <= y1 <= win_h` as rationals.
pub proof fn lemma_viewport_bounds(win_w: int, win_h: int, grid_w: int, grid_h: int)
    requires
        1 <= win_w < 0x1_0000_0000,
        1 <= win_h < 0x1_0000_0000,
        1 <= grid_w < 0x1_0000_0000,
        1 <= grid_h < 0x1_0000_0000,
    ensures
        2000 <= den_spec(win_w, win_h, grid_w, grid_h) < 0x7d0_0000_0000,
        1998 <= scale_num_spec(win_w, win_h, grid_w, grid_h) < 0x7ce_0000_0000,
        0 <= x0_num_spec(win_w, win_h, grid_w, grid_h),
        0 <= y0_num_spec(win_w, win_h, grid_w, grid_h),
        x0_num_spec(win_w, win_h, grid_w, grid_h) < 0x3e8_0000_0000_0000_0000_0000,
        y0_num_spec(win_w, win_h, grid_w, grid_h) < 0x3e8_0000_0000_0000_0000_0000,
        x1_num_spec(win_w, win_h, grid_w, grid_h) <= den_spec(win_w, win_h, grid_w, grid_h)
            * win_w,
        y1_num_spec(win_w, win_h, grid_w, grid_h) <= den_spec(win_w, win_h, grid_w, grid_h)
            * win_h,
        999 * lead_win(win_w, win_h, grid_w, grid_h) * grid_w <= 1000 * lead_grid(
            win_w,
            win_h,
            grid_w,
            grid_h,
        ) * win_w < 0x3e8_0000_0000_0000_0000_0000,
        999 * lead_win(win_w, win_h, grid_w, grid_h) * grid_h <= 1000 * lead_grid(
            win_w,
            win_h,
            grid_w,
            grid_h,
        ) * win_h < 0x3e8_0000_0000_0000_0000_0000,
{
    let m = lead_win(win_w, win_h, grid_w, grid_h);
    let g = lead_grid(win_w, win_h, grid_w, grid_h);
    if is_wide(win_w, win_h, grid_w, grid_h) {
        lemma_axis_premise(win_h, grid_h, win_w, grid_w);
        lemma_bounds_arith(win_w, win_h, grid_w, grid_h, m, g);
    } else {
        lemma_axis_premise(win_w, grid_w, win_h, grid_h);
        lemma_bounds_arith(win_w, win_h, grid_w, grid_h, m, g);
    }
}

/// A pixel with a negative coordinate lies outside the viewport.
proof fn lemma_neg_pixel_misses(
    win_w: int,
    win_h: int,
    grid_w: int,
    grid_h: int,
    px: int,
    py: int,
)
    requires
        1 <= win_w < 0x1_0000_0000,
        1 <= win_h < 0x1_0000_0000,
        1 <= grid_w < 0x1_0000_0000,
        1 <= grid_h < 0x1_0000_0000,
        px < 0 || py < 0,
    ensures
        cell_of(win_w, win_h, grid_w, grid_h, px, py) is None,
{
    lemma_viewport_bounds(win_w, win_h, grid_w, grid_h);
    let den = den_spec(win_w, win_h, grid_w, grid_h);
    if px < 0 {
        lemma_mul_neg(px, den);
    } else {
        lemma_mul_neg(py, den);
    }
}

} // verus!

