use crate::scheduler::Scheduler;
use crate::tiles::{chunk_size, chunks_partition, make_chunks, WorkChunk};
use vstd::prelude::*;

verus! {

/// Hard cutoff on the recursion depth of the radiance estimator: a sample
/// bounced deeper than this contributes exact black.  The cutoff guarantees
/// termination; it is not physically motivated.
pub const MAX_DEPTH: u8 = 50;

/// Whether the radiance estimator must stop at `depth` and return black
/// instead of scattering another ray.
pub fn depth_exceeded(depth: u8) -> (stop: bool)
    ensures
        stop == (depth > MAX_DEPTH),
{
    depth > MAX_DEPTH
}

/// Startup configuration of one render: image size, samples per pixel, and
/// the tiling and thread-pool parameters.
#[derive(Clone, Copy, Debug, PartialEq, Eq, Structural)]
pub struct RenderConfig {
    pub width: usize,
    pub height: usize,
    pub rays_per_pixel: usize,
    pub n_work_chunks: usize,
    pub n_max_threads: usize,
}

impl RenderConfig {
    /// A usable configuration: no parameter is zero, and the frame buffer of
    /// `width * height * 4` bytes is addressable.
    pub open spec fn wf(self) -> bool {
        &&& self.width >= 1
        &&& self.height >= 1
        &&& self.rays_per_pixel >= 1
        &&& self.n_work_chunks >= 1
        &&& self.n_max_threads >= 1
        &&& self.width * self.height * 4 <= usize::MAX
    }

    /// Validates a configuration, accepting exactly the usable ones.
    pub fn new(
        width: usize,
        height: usize,
        rays_per_pixel: usize,
        n_work_chunks: usize,
        n_max_threads: usize,
    ) -> (config: Option<RenderConfig>)
        ensures
            match config {
                Some(c) => c == (RenderConfig {
                    width,
                    height,
                    rays_per_pixel,
                    n_work_chunks,
                    n_max_threads,
                }) && c.wf(),
                None => !(RenderConfig {
                    width,
                    height,
                    rays_per_pixel,
                    n_work_chunks,
                    n_max_threads,
                }).wf(),
            },
    {
        if width == 0 || height == 0 || rays_per_pixel == 0 || n_work_chunks == 0
            || n_max_threads == 0 {
            return None;
        }
        match width.checked_mul(height) {
            Some(n_pixels) => match n_pixels.checked_mul(4) {
                Some(_) => Some(
                    RenderConfig { width, height, rays_per_pixel, n_work_chunks, n_max_threads },
                ),
                None => None,
            },
            None => None,
        }
    }

    /// How many pixels the image has.
    pub fn n_pixels(&self) -> (n: usize)
        requires
            self.wf(),
        ensures
            n == self.width * self.height,
    {
        self.width * self.height
    }

    /// The work chunks of this render: a partition of the image's pixel
    /// indices in index order, with every boundary aligned to
    /// `width * height / n_work_chunks`.
    pub fn chunks(&self) -> (chunks: Vec<WorkChunk>)
        requires
            self.wf(),
        ensures
            chunks.len() == self.n_work_chunks,
            chunks_partition(chunks@, self.width * self.height),
            forall|i: int|
                0 <= i < self.n_work_chunks ==> (#[trigger] chunks@[i]).from_pixel_index
                    == i * chunk_size(
                    self.width as int,
                    self.height as int,
                    self.n_work_chunks as int,
                ),
            forall|i: int|
                0 <= i < self.n_work_chunks - 1 ==> (#[trigger] chunks@[i]).to_pixel_index
                    == (i + 1) * chunk_size(
                    self.width as int,
                    self.height as int,
                    self.n_work_chunks as int,
                ),
    {
        make_chunks(self.width, self.height, self.n_work_chunks)
    }

    /// A scheduler for this render's chunks and thread cap.
    pub fn scheduler(&self) -> (s: Scheduler)
        requires
            self.wf(),
        ensures
            s.wf(),
            s.n_chunks() == self.n_work_chunks,
            s.max_threads() == self.n_max_threads,
            s.launched() == 0,
            s.joined() == 0,
    {
        Scheduler::new(self.n_work_chunks, self.n_max_threads)
    }
}

} // verus!
