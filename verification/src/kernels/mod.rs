//! The conversion kernels of the `yuv` crate and the scaler of the
//! `pic_scale` crate, as this crate calls them.
//!
//! Every function here only makes the call; none of the colour or resampling
//! arithmetic is this crate's. What each contract claims is said above it,
//! and is taken on trust. Every contract claims what the source shows of
//! every run: that a kernel accepts planes of exactly the image's size, and
//! that the scaler copies a plane that has the size asked for. Of the
//! samples that a kernel yields, the claim depends on how the kernel goes
//! about its arithmetic:
//!
//! - A kernel that runs one piece of integer code on every processor leaves
//!   a result that is a function of what it is handed. That result has a
//!   name, and where the code is a copy or a few shifts, the contract says
//!   what the result is.
//! - A kernel that picks a row handler by the processor it runs on may round
//!   differently from one processor to the next. Nothing is claimed of the
//!   samples that such a handler yields.
//!
//! Some kernels are of the first kind at one range and of the second at the
//! other; their contracts say which.
pub mod ar30;
pub mod encode;
pub mod narrow;
pub mod narrowing;
pub mod outside;
pub mod scale;
pub mod selectors;
pub mod wide;
