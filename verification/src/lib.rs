//! Edge-aware image upscaling kernel: luminance extraction, Sobel edge
//! detection, and directional "push" operators that sharpen an enlarged
//! image along detected edges, operating on an 8-bit-per-channel RGBA
//! pixel buffer.

pub mod bytes;
pub mod intmath;
pub mod kernel;
pub mod laws;
pub mod model;
pub mod pixel;
pub mod resize;

pub use kernel::ImageKernel;
pub use kernel::KernelError;
pub use pixel::clamp;
pub use pixel::extract_pixel_rgba;
pub use pixel::get_alpha_avg;
pub use pixel::get_brightness;
pub use pixel::get_largest_alpha_avg;
pub use pixel::Pixel;
