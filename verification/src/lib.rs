//! Deterministic integer core of a small per-frame CPU ray tracer.
//!
//! The floating-point parts of the renderer (vector algebra, ray/primitive
//! intersection, shading) live outside this crate; what is verified here is
//! everything the renderer decides with integers: the per-pixel random number
//! generator and its seeding, the checker-texture lattice, texel addressing
//! into decoded pixel grids (image textures and the environment map), and the
//! RGBA frame buffer that receives the final image.

pub mod checker;
pub mod framebuffer;
pub mod grid;
pub mod rng;
pub mod session;

pub use checker::checker_select;
pub use framebuffer::Framebuffer;
pub use framebuffer::H;
pub use framebuffer::SCALE;
pub use framebuffer::W;
pub use grid::PixelGrid;
pub use grid::Rgba;
pub use rng::Rng;
pub use rng::seed_for_pixel;
pub use session::RenderSession;
