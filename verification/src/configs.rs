use vstd::prelude::*;
use crate::input::KeyCode;

verus! {

/// Engine configuration, fixed at startup. `A` is the host layer's window
/// attribute type; the engine itself never reads it, so it is carried
/// opaquely and is absent until the host supplies one. Each key binding may
/// be `None` to disable that control.
pub struct AppConfigs<A> {
    pub window_attributes: Option<A>,
    pub updates_per_second: u32,
    pub key_play: Option<KeyCode>,
    pub key_update_once: Option<KeyCode>,
    pub key_grid: Option<KeyCode>,
}

impl<A> AppConfigs<A> {
    /// The default configuration: sixty simulation steps per second,
    /// space to pause, enter to single-step, G to toggle the grid overlay.
    pub fn new() -> (r: Self)
        ensures
            r.window_attributes is None,
            r.updates_per_second == 60,
            r.key_play == Some(KeyCode::Space),
            r.key_update_once == Some(KeyCode::Enter),
            r.key_grid == Some(KeyCode::KeyG),
    {
        AppConfigs {
            window_attributes: None,
            updates_per_second: 60,
            key_play: Some(KeyCode::Space),
            key_update_once: Some(KeyCode::Enter),
            key_grid: Some(KeyCode::KeyG),
        }
    }

    /// Replaces the window attributes, leaving the rest unchanged.
    pub fn window_attributes(self, window_attributes: A) -> (r: Self)
        ensures
            r.window_attributes == Some(window_attributes),
            r.updates_per_second == self.updates_per_second,
            r.key_play == self.key_play,
            r.key_update_once == self.key_update_once,
            r.key_grid == self.key_grid,
    {
        AppConfigs { window_attributes: Some(window_attributes), ..self }
    }

    /// Replaces the simulation rate, leaving the rest unchanged.
    pub fn updates_per_second(self, updates_per_second: u32) -> (r: Self)
        ensures
            r.window_attributes == self.window_attributes,
            r.updates_per_second == updates_per_second,
            r.key_play == self.key_play,
            r.key_update_once == self.key_update_once,
            r.key_grid == self.key_grid,
    {
        AppConfigs { updates_per_second, ..self }
    }

    /// Replaces the pause/resume key binding, leaving the rest unchanged.
    pub fn key_play(self, key_play: Option<KeyCode>) -> (r: Self)
        ensures
            r.window_attributes == self.window_attributes,
            r.updates_per_second == self.updates_per_second,
            r.key_play == key_play,
            r.key_update_once == self.key_update_once,
            r.key_grid == self.key_grid,
    {
        AppConfigs { key_play, ..self }
    }

    /// Replaces the single-step key binding, leaving the rest unchanged.
    pub fn key_update_once(self, key_update_once: Option<KeyCode>) -> (r: Self)
        ensures
            r.window_attributes == self.window_attributes,
            r.updates_per_second == self.updates_per_second,
            r.key_play == self.key_play,
            r.key_update_once == key_update_once,
            r.key_grid == self.key_grid,
    {
        AppConfigs { key_update_once, ..self }
    }

    /// Replaces the grid overlay toggle key binding, leaving the rest
    /// unchanged.
    pub fn key_grid(self, key_grid: Option<KeyCode>) -> (r: Self)
        ensures
            r.window_attributes == self.window_attributes,
            r.updates_per_second == self.updates_per_second,
            r.key_play == self.key_play,
            r.key_update_once == self.key_update_once,
            r.key_grid == key_grid,
    {
        AppConfigs { key_grid, ..self }
    }
}

impl<A> Default for AppConfigs<A> {
    fn default() -> (r: Self)
        ensures
            r.window_attributes is None,
            r.updates_per_second == 60,
            r.key_play == Some(KeyCode::Space),
            r.key_update_once == Some(KeyCode::Enter),
            r.key_grid == Some(KeyCode::KeyG),
    {
        AppConfigs::new()
    }
}

} // verus!
