pub mod engine;
pub use engine::Engine;

pub mod image;
pub use image::WorldImage;

pub mod configs;
pub use configs::AppConfigs;

pub mod input;
pub use input::ElementState;
pub use input::KeyCode;
pub use input::KeyEvent;
pub use input::MouseButton;
pub use input::MouseEvent;

pub mod overlay;
pub use overlay::LineVertex;

pub mod painter;
pub use painter::PaintAction;
pub use painter::PainterDescriptor;
pub use painter::PixelPaint;
pub use painter::WithPainter;
pub use painter::WithPainterExt;

pub mod scheduler;
pub use scheduler::UpdateScheduler;

pub mod transform;
pub use transform::WorldTransform;

pub mod world;
pub use world::BlankWorld;
pub use world::World;
