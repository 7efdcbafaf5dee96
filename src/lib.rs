//! Image transforms (resize, grayscale, blur) over encoded byte buffers,
//! with every result re-encoded as PNG.

pub mod codec;
pub mod transform;
pub mod laws;
