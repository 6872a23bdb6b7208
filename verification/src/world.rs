use vstd::prelude::*;
use crate::image::WorldImage;
use crate::input::KeyEvent;
use crate::input::MouseEvent;

verus! {

/// A grid simulation. The engine drives any implementation through these
/// methods, always handing it exclusive access to the framebuffer. Every
/// method except `init_image` defaults to a no-op, so a simulation overrides
/// only what it reacts to.
///
/// `inv` is the implementation's own well-formedness condition; the engine
/// establishes it once from the initial state and each method preserves it.
/// No method may change the framebuffer's dimensions: the image is created
/// once, at fixed size, by `init_image`.
pub trait World {
    spec fn inv(&self) -> bool;

    /// Allocates and populates the initial framebuffer. Called exactly once.
    fn init_image(&mut self) -> (img: WorldImage)
        requires
            old(self).inv(),
        ensures
            final(self).inv(),
    ;

    /// Performs one discrete simulation step, updating `image` to match.
    fn update(&mut self, image: &mut WorldImage)
        requires
            old(self).inv(),
        ensures
            final(self).inv(),
            final(image).spec_width() == old(image).spec_width(),
            final(image).spec_height() == old(image).spec_height(),
    {
    }

    /// Reacts to a keyboard event.
    fn keyboard_input(&mut self, event: KeyEvent, image: &mut WorldImage)
        requires
            old(self).inv(),
        ensures
            final(self).inv(),
            final(image).spec_width() == old(image).spec_width(),
            final(image).spec_height() == old(image).spec_height(),
    {
    }

    /// Reacts to a mouse button event.
    fn mouse_input(&mut self, event: MouseEvent, image: &mut WorldImage)
        requires
            old(self).inv(),
        ensures
            final(self).inv(),
            final(image).spec_width() == old(image).spec_width(),
            final(image).spec_height() == old(image).spec_height(),
    {
    }

    /// Reacts to the cursor moving; `pos` is the cell under the cursor, or
    /// `None` when the cursor is outside the grid.
    fn cursor_moved(&mut self, pos: Option<(u32, u32)>, image: &mut WorldImage)
        requires
            old(self).inv(),
        ensures
            final(self).inv(),
            final(image).spec_width() == old(image).spec_width(),
            final(image).spec_height() == old(image).spec_height(),
    {
    }
}

/// A simulation that does nothing on its own: a fixed-size canvas of one
/// color. Useful as the base world of a purely interactive, paint-driven
/// grid.
pub struct BlankWorld {
    pub width: u32,
    pub height: u32,
    pub color: [u8; 4],
}

impl World for BlankWorld {
    open spec fn inv(&self) -> bool {
        &&& self.width >= 1
        &&& self.height >= 1
        &&& self.width * self.height * 4 <= usize::MAX
    }

    fn init_image(&mut self) -> (img: WorldImage) {
        WorldImage::filled(self.width, self.height, self.color)
    }
}

} // verus!
