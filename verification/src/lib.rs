//! Grayscale conversion of raster images.
//!
//! The library has two entry modes. Buffer mode takes a raw RGBA pixel
//! buffer with its dimensions and returns the grayscaled buffer
//! ([`gray::process_image`]). File-pipeline mode takes the bytes of an
//! encoded image file (PNG, JPEG, ...), decodes them, converts the pixels
//! to luma and re-encodes the result as a PNG, driven through a one-shot
//! [`pipeline::Completion`] handle.

pub mod codec;
pub mod gray;
pub mod pipeline;
