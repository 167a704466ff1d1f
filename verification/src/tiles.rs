use vstd::arithmetic::div_mod::{lemma_fundamental_div_mod, lemma_multiply_divide_lt};
use vstd::arithmetic::mul::{lemma_mul_is_commutative, lemma_mul_is_distributive_add_other_way,
    lemma_mul_inequality};
use vstd::prelude::*;

verus! {

/// A contiguous range of row-major pixel indices assigned to one worker:
/// `from_pixel_index` inclusive, `to_pixel_index` exclusive.
#[derive(Clone, Copy, Debug, PartialEq, Eq, Structural)]
pub struct WorkChunk {
    pub from_pixel_index: usize,
    pub to_pixel_index: usize,
}

impl WorkChunk {
    /// The chunk's range is not reversed.
    pub open spec fn wf(self) -> bool {
        self.from_pixel_index <= self.to_pixel_index
    }

    /// Pixel index `p` lies in this chunk's range.
    pub open spec fn contains(self, p: int) -> bool {
        self.from_pixel_index <= p < self.to_pixel_index
    }
}

/// The chunks split `[0, n_pixels)` into consecutive intervals: the first
/// starts at zero, each chunk ends where the next begins, and the last ends
/// at `n_pixels`.
pub open spec fn chunks_partition(s: Seq<WorkChunk>, n_pixels: int) -> bool {
    &&& s.len() > 0
    &&& s[0].from_pixel_index == 0
    &&& s[s.len() - 1].to_pixel_index == n_pixels
    &&& forall|i: int| 0 <= i < s.len() ==> (#[trigger] s[i]).wf()
    &&& forall|i: int|
        0 <= i < s.len() - 1 ==> (#[trigger] s[i]).to_pixel_index == s[i + 1].from_pixel_index
}

/// How many pixels every chunk but the last receives when an image of
/// `width * height` pixels is split into `n_work_chunks` chunks.
pub open spec fn chunk_size(width: int, height: int, n_work_chunks: int) -> int
    recommends
        n_work_chunks >= 1,
{
    (width * height) / n_work_chunks
}

/// Splits the image's pixel indices `[0, width * height)` into
/// `n_work_chunks` consecutive chunks in index order.  Every chunk but the
/// last holds exactly `width * height / n_work_chunks` pixels; the last also
/// takes the division's remainder, so the chunks cover the image exactly.
pub fn make_chunks(width: usize, height: usize, n_work_chunks: usize) -> (chunks: Vec<WorkChunk>)
    requires
        n_work_chunks >= 1,
        width * height <= usize::MAX,
    ensures
        chunks.len() == n_work_chunks,
        chunks_partition(chunks@, width as int * height as int),
        forall|i: int|
            0 <= i < n_work_chunks ==> (#[trigger] chunks@[i]).from_pixel_index
                == i * chunk_size(width as int, height as int, n_work_chunks as int),
        forall|i: int|
            0 <= i < n_work_chunks - 1 ==> (#[trigger] chunks@[i]).to_pixel_index
                == (i + 1) * chunk_size(width as int, height as int, n_work_chunks as int),
{
    let n_pixels: usize = width * height;
    let n_pixels_per_chunk: usize = n_pixels / n_work_chunks;
    proof {
        lemma_fundamental_div_mod(n_pixels as int, n_work_chunks as int);
    }
    let mut chunks: Vec<WorkChunk> = Vec::new();
    let mut i: usize = 0;
    while i < n_work_chunks - 1
        invariant
            i <= n_work_chunks - 1,
            chunks.len() == i,
            n_pixels == width * height,
            n_pixels_per_chunk == n_pixels as int / n_work_chunks as int,
            n_work_chunks as int * n_pixels_per_chunk as int <= n_pixels as int,
            forall|k: int|
                0 <= k < i ==> (#[trigger] chunks@[k]).from_pixel_index
                    == k * n_pixels_per_chunk as int,
            forall|k: int|
                0 <= k < i ==> (#[trigger] chunks@[k]).to_pixel_index
                    == (k + 1) * n_pixels_per_chunk as int,
        decreases n_work_chunks - 1 - i,
    {
        proof {
            lemma_mul_inequality(i as int + 1, n_work_chunks as int, n_pixels_per_chunk as int);
            lemma_mul_is_distributive_add_other_way(
                n_pixels_per_chunk as int,
                i as int,
                1,
            );
        }
        let from: usize = i * n_pixels_per_chunk;
        let to: usize = from + n_pixels_per_chunk;
        chunks.push(WorkChunk { from_pixel_index: from, to_pixel_index: to });
        i = i + 1;
    }
    proof {
        lemma_mul_inequality(
            n_work_chunks as int - 1,
            n_work_chunks as int,
            n_pixels_per_chunk as int,
        );
    }
    let last_from: usize = (n_work_chunks - 1) * n_pixels_per_chunk;
    chunks.push(WorkChunk { from_pixel_index: last_from, to_pixel_index: n_pixels });
    proof {
        let s = chunks@;
        let npc = n_pixels_per_chunk as int;
        let n = n_work_chunks as int;
        assert forall|k: int| 0 <= k < n implies (#[trigger] s[k]).wf() by {
            if k < n - 1 {
                lemma_mul_inequality(k, k + 1, npc);
            } else {
                lemma_mul_inequality(n - 1, n, npc);
            }
        }
        assert(s[0].from_pixel_index == 0 * npc);
    }
    chunks
}

/// Every pixel index of the image lies in at least one chunk of a partition.
proof fn lemma_chunk_exists(s: Seq<WorkChunk>, k: int, p: int)
    requires
        s.len() > 0,
        s[0].from_pixel_index == 0,
        forall|i: int| 0 <= i < s.len() ==> (#[trigger] s[i]).wf(),
        forall|i: int|
            0 <= i < s.len() - 1 ==> (#[trigger] s[i]).to_pixel_index == s[i + 1].from_pixel_index,
        0 <= k < s.len(),
        0 <= p < s[k].to_pixel_index,
    ensures
        exists|i: int| 0 <= i <= k && (#[trigger] s[i]).contains(p),
    decreases k,
{
    if p >= s[k].from_pixel_index {
        assert(s[k].contains(p));
    } else {
        assert(k > 0);
        assert(s[k - 1].to_pixel_index == s[k].from_pixel_index);
        lemma_chunk_exists(s, k - 1, p);
    }
}

/// Chunks that come earlier in a partition end no later than later ones
/// begin.
proof fn lemma_chunks_ordered(s: Seq<WorkChunk>, i: int, j: int)
    requires
        forall|k: int| 0 <= k < s.len() ==> (#[trigger] s[k]).wf(),
        forall|k: int|
            0 <= k < s.len() - 1 ==> (#[trigger] s[k]).to_pixel_index == s[k + 1].from_pixel_index,
        0 <= i < j < s.len(),
    ensures
        s[i].to_pixel_index <= s[j].from_pixel_index,
    decreases j - i,
{
    if i + 1 == j {
        assert(s[i].to_pixel_index == s[j].from_pixel_index);
    } else {
        lemma_chunks_ordered(s, i, j - 1);
        assert(s[j - 1].to_pixel_index == s[j].from_pixel_index);
    }
}

/// Some chunk of `s` covers pixel index `p`.
pub open spec fn chunk_covering(s: Seq<WorkChunk>, p: int) -> bool {
    exists|i: int| 0 <= i < s.len() && (#[trigger] s[i]).contains(p)
}

/// In a partition of the image's pixel indices, every pixel index below
/// `n_pixels` lies in exactly one chunk: the chunk ranges cover the whole
/// image, with no gap and no overlap.
pub proof fn lemma_chunks_cover(s: Seq<WorkChunk>, n_pixels: int)
    requires
        chunks_partition(s, n_pixels),
    ensures
        forall|p: int| 0 <= p < n_pixels ==> #[trigger] chunk_covering(s, p),
        forall|i: int, j: int, p: int|
            0 <= i < s.len() && 0 <= j < s.len() && #[trigger] s[i].contains(p)
                && #[trigger] s[j].contains(p) ==> i == j,
{
    assert forall|p: int| 0 <= p < n_pixels implies #[trigger] chunk_covering(s, p) by {
        lemma_chunk_exists(s, s.len() - 1, p);
    }
    assert forall|i: int, j: int, p: int|
        0 <= i < s.len() && 0 <= j < s.len() && #[trigger] s[i].contains(p)
            && #[trigger] s[j].contains(p) implies i == j by {
        if i < j {
            lemma_chunks_ordered(s, i, j);
        } else if j < i {
            lemma_chunks_ordered(s, j, i);
        }
    }
}

/// Column of row-major pixel index `i` in an image `width` pixels wide.
pub fn pixel_col(i: usize, width: usize) -> (col: usize)
    requires
        width >= 1,
    ensures
        col == i as int % width as int,
        col < width,
{
    i % width
}

/// Row of row-major pixel index `i` in an image `width` pixels wide.  The
/// row and column recompose to the index, and an index inside an image
/// `height` pixels tall yields a row inside it too.
pub fn pixel_row(i: usize, width: usize, height: usize) -> (row: usize)
    requires
        width >= 1,
    ensures
        row == i as int / width as int,
        row as int * width as int + i as int % width as int == i as int,
        i < width * height ==> row < height,
{
    proof {
        lemma_fundamental_div_mod(i as int, width as int);
        lemma_mul_is_commutative(width as int, i as int / width as int);
        if i < width * height {
            lemma_multiply_divide_lt(i as int, width as int, height as int);
        }
    }
    i / width
}

} // verus!
