//! Input handling and render-state decisions of a small first-person
//! OpenGL scene: which movement keys are held, how the mouse look is
//! anchored, what a window event asks of the window, and how the vertex
//! buffers are laid out for the shaders.

pub mod controls;
pub mod geometry;
pub mod input;
pub mod mouse;
pub mod window;
