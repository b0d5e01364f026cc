//! A minimal immediate-mode 2D rendering and input-polling engine.
//!
//! The library owns the algorithmic core: the pixel and blend model, the
//! bounds-checked framebuffer ([`sprite::Sprite`]), the rasterization
//! primitives (lines, circles, rectangles, triangles, sprite blits, bitmap
//! text), per-frame input edge detection, and the frame-lifecycle decisions.
//! Window creation, the OS event pump and image-file decoding are left to the
//! embedding application, which hands the engine plain values each frame.

pub mod blit;
pub mod circle;
pub mod engine;
pub mod font;
pub mod raster;
pub mod input;
pub mod lifecycle;
pub mod pixel;
pub mod sprite;
pub mod text;
pub mod triangle;
pub mod vector;
pub mod vector_draw;

pub use engine::PixelGameEngine;
pub use input::HWButton;
pub use input::Key;
pub use lifecycle::FrameTimer;
pub use lifecycle::RCode;
pub use pixel::Pixel;
pub use pixel::PixelMode;
pub use sprite::Sprite;
pub use vector::V2d;
pub use vector::Vi2d;
