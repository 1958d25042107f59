//! What the engine asks of the windowing system.

pub mod window;

pub use self::window::WindowBuilder;
