use vstd::prelude::*;
use crate::configs::AppConfigs;
use crate::image::WorldImage;
use crate::input::ElementState;
use crate::input::KeyCode;
use crate::input::KeyEvent;
use crate::input::MouseButton;
use crate::input::MouseEvent;
use crate::input::is_pressed;
use crate::overlay::LineVertex;
use crate::overlay::bar_count;
use crate::overlay::bar_vertices_match;
use crate::overlay::grid_line_vertices;
use crate::scheduler::UpdateScheduler;
use crate::scheduler::spec_poll;
use crate::transform::WorldTransform;
use crate::transform::cell_of;
use crate::world::World;

verus! {

/// The engine: the verified core of the host loop. It owns the
/// simulation, the framebuffer, the coordinate transform, the overlay
/// geometry and the update scheduler, and turns the host's raw events —
/// resize notifications, key and mouse events, cursor positions and clock
/// readings — into simulation calls and state updates. The host performs
/// the platform work around it: it creates the window, reads the clock,
/// and hands the framebuffer and overlay to the renderer.
pub struct Engine<W> {
    pub world: W,
    pub image: WorldImage,
    pub transform: WorldTransform,
    pub window_size: (u32, u32),
    pub scheduler: UpdateScheduler,
    pub cursor_cell: Option<(u32, u32)>,
    pub grid_enabled: bool,
    pub grid_vertices: Vec<LineVertex>,
    pub should_update_texture: bool,
    pub key_play: Option<KeyCode>,
    pub key_update_once: Option<KeyCode>,
    pub key_grid: Option<KeyCode>,
}

/// Whether the overlay for a `gw` by `gh` grid fits in memory; on any
/// 64-bit host it always does.
pub open spec fn overlay_fits(gw: int, gh: int) -> bool {
    (gw + gh + 2) * 4 <= usize::MAX
}

impl<W: World> Engine<W> {
    /// The engine's well-formedness: the simulation's own invariant
    /// holds and the transform maps onto exactly the framebuffer's grid.
    pub open spec fn wf(&self) -> bool {
        &&& self.world.inv()
        &&& self.transform.spec_grid_w() == self.image.spec_width()
        &&& self.transform.spec_grid_h() == self.image.spec_height()
    }

    /// Whether this engine's overlay vertices match the overlay derived
    /// from its transform.
    pub open spec fn overlay_matches(&self) -> bool {
        &&& self.grid_vertices@.len() == 4 * bar_count(
            self.transform.spec_grid_w() as int,
            self.transform.spec_grid_h() as int,
        )
        &&& forall|b: int|
            0 <= b < bar_count(
                self.transform.spec_grid_w() as int,
                self.transform.spec_grid_h() as int,
            ) ==> #[trigger] bar_vertices_match(
                self.transform.spec_win_w() as int,
                self.transform.spec_win_h() as int,
                self.transform.spec_grid_w() as int,
                self.transform.spec_grid_h() as int,
                b,
                self.grid_vertices@.subrange(4 * b, 4 * b + 4),
            )
    }

    /// Builds the engine: asks the simulation for its initial image,
    /// derives the transform and overlay for the initial window size, and
    /// anchors the scheduler at `now`.
    pub fn new<A>(
        configs: AppConfigs<A>,
        world: W,
        win_w: u32,
        win_h: u32,
        now: u64,
    ) -> (r: Engine<W>)
        requires
            world.inv(),
            configs.updates_per_second >= 1,
            win_w >= 1,
            win_h >= 1,
        ensures
            r.wf(),
            r.window_size == (win_w, win_h),
            r.transform.spec_win_w() == win_w,
            r.transform.spec_win_h() == win_h,
            r.scheduler.interval == 1_000_000_000u64 / configs.updates_per_second as u64,
            r.scheduler.last_update == now,
            !r.scheduler.paused,
            r.cursor_cell is None,
            !r.grid_enabled,
            !r.should_update_texture,
            r.key_play == configs.key_play,
            r.key_update_once == configs.key_update_once,
            r.key_grid == configs.key_grid,
            overlay_fits(r.image.spec_width() as int, r.image.spec_height() as int)
                ==> r.overlay_matches(),
    {
        let mut world = world;
        let image = world.init_image();
        let gw = image.width();
        let gh = image.height();
        let transform = WorldTransform::new(win_w, win_h, gw, gh);
        let grid_vertices = if 4 * (gw as u64 + gh as u64 + 2) <= (usize::MAX as u64) {
            grid_line_vertices(&transform)
        } else {
            Vec::new()
        };
        Engine {
            world,
            image,
            transform,
            window_size: (win_w, win_h),
            scheduler: UpdateScheduler::new(configs.updates_per_second, now),
            cursor_cell: None,
            grid_enabled: false,
            grid_vertices,
            should_update_texture: false,
            key_play: configs.key_play,
            key_update_once: configs.key_update_once,
            key_grid: configs.key_grid,
        }
    }

    /// One simulation step, unconditionally: the simulation advances and
    /// the framebuffer is marked for re-upload.
    pub fn run_update(&mut self)
        requires
            old(self).wf(),
        ensures
            final(self).wf(),
            final(self).image.spec_width() == old(self).image.spec_width(),
            final(self).image.spec_height() == old(self).image.spec_height(),
            final(self).should_update_texture,
            final(self).transform == old(self).transform,
            final(self).window_size == old(self).window_size,
            final(self).scheduler == old(self).scheduler,
            final(self).cursor_cell == old(self).cursor_cell,
            final(self).grid_enabled == old(self).grid_enabled,
            final(self).grid_vertices == old(self).grid_vertices,
            final(self).key_play == old(self).key_play,
            final(self).key_update_once == old(self).key_update_once,
            final(self).key_grid == old(self).key_grid,
    {
        self.world.update(&mut self.image);
        self.should_update_texture = true;
    }

    /// One host-loop poll at clock reading `now`: when a full interval
    /// has elapsed, the schedule advances by exactly one interval and —
    /// unless paused — the simulation steps once. Polling before the
    /// interval has elapsed changes nothing at all, and a poll never
    /// steps the simulation more than once, no matter how long a stall
    /// preceded it.
    pub fn update(&mut self, now: u64)
        requires
            old(self).wf(),
            old(self).scheduler.last_update <= now,
        ensures
            final(self).wf(),
            final(self).image.spec_width() == old(self).image.spec_width(),
            final(self).image.spec_height() == old(self).image.spec_height(),
            final(self).scheduler == spec_poll(old(self).scheduler, now).1,
            !spec_poll(old(self).scheduler, now).0 ==> *final(self) == *old(self),
            spec_poll(old(self).scheduler, now).0 && old(self).scheduler.paused ==> final(self).world == old(self).world && final(self).image == old(self).image
                && final(self).should_update_texture == old(self).should_update_texture,
            spec_poll(old(self).scheduler, now).0 && !old(self).scheduler.paused ==> final(self).should_update_texture,
            final(self).transform == old(self).transform,
            final(self).window_size == old(self).window_size,
            final(self).cursor_cell == old(self).cursor_cell,
            final(self).grid_enabled == old(self).grid_enabled,
            final(self).grid_vertices == old(self).grid_vertices,
    {
        let fire = self.scheduler.poll(now);
        if !fire {
            return ;
        }
        if !self.scheduler.paused {
            self.run_update();
        }
    }

    /// Reacts to a resize notification. An unchanged size does nothing; a
    /// zero size only records itself, keeping the last good transform; a
    /// new nonzero size recomputes the transform and the overlay
    /// geometry, which then agree with each other again.
    pub fn resize(&mut self, new_w: u32, new_h: u32)
        requires
            old(self).wf(),
        ensures
            final(self).wf(),
            final(self).image == old(self).image,
            final(self).world == old(self).world,
            final(self).scheduler == old(self).scheduler,
            final(self).cursor_cell == old(self).cursor_cell,
            final(self).grid_enabled == old(self).grid_enabled,
            final(self).should_update_texture == old(self).should_update_texture,
            final(self).key_play == old(self).key_play,
            final(self).key_update_once == old(self).key_update_once,
            final(self).key_grid == old(self).key_grid,
            (new_w, new_h) == old(self).window_size ==> *final(self) == *old(self),
            (new_w, new_h) != old(self).window_size ==> final(self).window_size == (
                new_w,
                new_h,
            ),
            (new_w, new_h) != old(self).window_size && (new_w == 0 || new_h == 0) ==> final(self).transform == old(self).transform && final(self).grid_vertices == old(
                self,
            ).grid_vertices,
            (new_w, new_h) != old(self).window_size && new_w >= 1 && new_h >= 1 ==> final(self).transform.spec_win_w() == new_w && final(self).transform.spec_win_h() == new_h
                && final(self).transform.spec_grid_w() == old(self).image.spec_width() && final(self).transform.spec_grid_h() == old(self).image.spec_height() && (overlay_fits(
                old(self).image.spec_width() as int,
                old(self).image.spec_height() as int,
            ) ==> final(self).overlay_matches()),
    {
        if new_w == self.window_size.0 && new_h == self.window_size.1 {
            return ;
        }
        self.window_size = (new_w, new_h);
        if new_w == 0 || new_h == 0 {
            return ;
        }
        let gw = self.image.width();
        let gh = self.image.height();
        self.transform = WorldTransform::new(new_w, new_h, gw, gh);
        if 4 * (gw as u64 + gh as u64 + 2) <= (usize::MAX as u64) {
            self.grid_vertices = grid_line_vertices(&self.transform);
        }
    }

    /// Reacts to a keyboard event: the play key toggles pause, the
    /// single-step key — while paused — steps the simulation once
    /// regardless of the timer, and the grid key toggles the overlay.
    /// The event is then forwarded to the simulation.
    pub fn keyboard_input(&mut self, event: KeyEvent)
        requires
            old(self).wf(),
        ensures
            final(self).wf(),
            final(self).image.spec_width() == old(self).image.spec_width(),
            final(self).image.spec_height() == old(self).image.spec_height(),
            final(self).scheduler.paused == (match old(self).key_play {
                Some(k) => if is_pressed(&event, k) {
                    !old(self).scheduler.paused
                } else {
                    old(self).scheduler.paused
                },
                None => old(self).scheduler.paused,
            }),
            final(self).grid_enabled == (match old(self).key_grid {
                Some(k) => if is_pressed(&event, k) {
                    !old(self).grid_enabled
                } else {
                    old(self).grid_enabled
                },
                None => old(self).grid_enabled,
            }),
            final(self).scheduler.interval == old(self).scheduler.interval,
            final(self).scheduler.last_update == old(self).scheduler.last_update,
            final(self).should_update_texture,
            final(self).transform == old(self).transform,
            final(self).window_size == old(self).window_size,
            final(self).cursor_cell == old(self).cursor_cell,
            final(self).grid_vertices == old(self).grid_vertices,
            final(self).key_play == old(self).key_play,
            final(self).key_update_once == old(self).key_update_once,
            final(self).key_grid == old(self).key_grid,
    {
        match self.key_play {
            Some(k) => {
                if is_pressed(&event, k) {
                    self.scheduler.paused = !self.scheduler.paused;
                }
            },
            None => {},
        }
        if self.scheduler.paused {
            match self.key_update_once {
                Some(k) => {
                    if is_pressed(&event, k) {
                        self.run_update();
                    }
                },
                None => {},
            }
        }
        match self.key_grid {
            Some(k) => {
                if is_pressed(&event, k) {
                    self.grid_enabled = !self.grid_enabled;
                }
            },
            None => {},
        }
        self.world.keyboard_input(event, &mut self.image);
        self.should_update_texture = true;
    }

    /// Forwards a mouse button event to the simulation, attaching the
    /// cell currently under the cursor.
    pub fn mouse_input(&mut self, state: ElementState, button: MouseButton)
        requires
            old(self).wf(),
        ensures
            final(self).wf(),
            final(self).image.spec_width() == old(self).image.spec_width(),
            final(self).image.spec_height() == old(self).image.spec_height(),
            final(self).should_update_texture,
            final(self).scheduler == old(self).scheduler,
            final(self).transform == old(self).transform,
            final(self).window_size == old(self).window_size,
            final(self).cursor_cell == old(self).cursor_cell,
            final(self).grid_enabled == old(self).grid_enabled,
            final(self).grid_vertices == old(self).grid_vertices,
    {
        let event = MouseEvent { state, button, pos: self.cursor_cell };
        self.world.mouse_input(event, &mut self.image);
        self.should_update_texture = true;
    }

    /// Reacts to the cursor moving to window pixel `(px, py)`: the
    /// letterboxed transform maps the position to the cell under it — or
    /// to none, outside the viewport — and the result is recorded and
    /// forwarded to the simulation.
    pub fn cursor_moved(&mut self, px: i64, py: i64)
        requires
            old(self).wf(),
        ensures
            final(self).wf(),
            final(self).image.spec_width() == old(self).image.spec_width(),
            final(self).image.spec_height() == old(self).image.spec_height(),
            final(self).should_update_texture,
            (match cell_of(
                old(self).transform.spec_win_w() as int,
                old(self).transform.spec_win_h() as int,
                old(self).transform.spec_grid_w() as int,
                old(self).transform.spec_grid_h() as int,
                px as int,
                py as int,
            ) {
                Some((cx, cy)) => final(self).cursor_cell == Some(((cx as u32, cy as u32)))
                    && 0 <= cx < old(self).image.spec_width() && 0 <= cy < old(
                    self,
                ).image.spec_height(),
                None => final(self).cursor_cell is None,
            }),
            final(self).scheduler == old(self).scheduler,
            final(self).transform == old(self).transform,
            final(self).window_size == old(self).window_size,
            final(self).grid_enabled == old(self).grid_enabled,
            final(self).grid_vertices == old(self).grid_vertices,
    {
        let pos = self.transform.map(px, py);
        self.cursor_cell = pos;
        self.world.cursor_moved(pos, &mut self.image);
        self.should_update_texture = true;
    }
}

} // verus!
