//! Strided plane adaptation for wide-sample image kernels.
//!
//! A caller hands over image planes as byte regions with a row stride that may
//! be odd, padded, or misaligned for 16-bit access. This crate turns each plane
//! into a sample view that a conversion or scaling kernel can consume, and
//! writes the kernel's output back into the caller's region at its true stride.
//!
//! A plane takes one of two paths. On the fast path the region itself is
//! viewed as samples, without a copy. On the slow path a tightly packed buffer
//! stands in: filled from the region for a source, flushed into the region
//! for a destination. Which path a plane takes is visible to the kernel in
//! the view's stride only, never in its samples.
//!
//! - [`layout`], [`sample`] and [`content`] say what a plane is: its
//!   geometry, the two bytes of a sample, the sample at a row and column.
//! - [`adapter`] makes the views, [`publisher`] flushes them, and [`laws`]
//!   states what holds of the two together.
//! - [`native`] and [`kernels`] hold the calls into other crates. Their
//!   contracts are taken on trust; everything else is proved.
//! - [`dispatch`] says which kernel an operation runs for its selectors, and
//!   what that kernel leaves behind where its result has a name.
//! - [`pixels`] and [`packed`] say what can be known of the pixels that a
//!   kernel yields: bounds, copies and stride padding, and the packed 30-bit
//!   pixel in full.
//! - [`yuv_to_rgb`], [`rgb_to_yuv`], [`ar30`], [`scaling`] and
//!   [`half_float`] are the operations themselves.
pub mod adapter;
pub mod alpha;
pub mod ar30;
pub mod checks;
pub mod content;
pub mod destination;
pub mod dispatch;
pub mod error;
pub mod half_float;
pub mod image;
pub mod kernels;
pub mod laws;
pub mod layout;
pub mod modes;
pub mod native;
pub mod packed;
pub mod pixels;
pub mod planes;
pub mod publisher;
pub mod rgb_to_yuv;
pub mod sample;
pub mod scaling;
pub mod yuv_to_rgb;

pub use ar30::{pixart_rgb_u16_to_ra30, pixart_rgba_u16_to_ra30};
pub use adapter::{adapt_read, adapt_write, stage_plane, unpack_plane, PlaneView};
pub use error::{PixartError, PlanePath};
pub use layout::{PlaneLayout, SampleWidth};
pub use modes::{
    chroma_height, chroma_width, AvifYCgCoRType, StandardMatrix, YuvMatrix, YuvRange, YuvType,
};
pub use publisher::{flush, publish};
pub use rgb_to_yuv::{
    pixart_rgba8_to_icgco_r10, pixart_rgba8_to_y08, pixart_rgba8_to_yuv8, PlanePaths,
};
pub use sample::{high_byte, low_byte, sample_from_bytes, sample_to_bytes};
pub use scaling::{pixart_scale_plane_u16, pixart_scale_plane_u8};
pub use yuv_to_rgb::{
    pixart_icgc12_r_to_rgb10, pixart_icgc_r_alpha12_to_rgba10, pixart_icgc_r_type_to_rgb,
    pixart_icgc_r_type_with_alpha_to_rgba, pixart_yuv16_to_rgb16,
    pixart_yuv16_with_alpha_to_rgba16, pixart_yuv400_p16_to_rgb16,
    pixart_yuv400_p16_with_alpha_to_rgba16, pixart_yuv400_to_rgb8,
    pixart_yuv400_with_alpha_to_rgba8, pixart_yuv8_to_rgb8, pixart_yuv8_with_alpha_to_rgba8,
};
