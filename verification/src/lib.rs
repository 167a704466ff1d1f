//! Verified core of a Monte-Carlo path tracer.
//!
//! The renderer traces rays through a scene of spheres on worker threads and
//! aggregates the sampled pixels into a shared RGBA frame buffer.  The parts
//! that are discrete and exact live here, fully verified: partitioning the
//! image into work chunks, the pixel-index arithmetic, the byte-level frame
//! buffer writes, the bounded-pool scheduling decisions, and the recursion
//! depth cutoff of the radiance estimator.  The floating-point geometry and
//! sampling, the worker threads, and the image encoding sit outside, in an
//! unverified shell that drives this library.

mod framebuffer;
mod render;
mod scheduler;
mod tiles;

pub use framebuffer::{
    fill_tile, lemma_write_order_independent, new_frame, new_tile, splice_tile, write_data,
    write_pixel,
};
pub use render::{depth_exceeded, RenderConfig, MAX_DEPTH};
pub use scheduler::{lemma_scheduler_progress, Action, Scheduler};
pub use tiles::{
    chunk_covering, chunk_size, chunks_partition, lemma_chunks_cover, make_chunks, pixel_col,
    pixel_row, WorkChunk,
};
