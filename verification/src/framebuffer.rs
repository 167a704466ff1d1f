use crate::tiles::WorkChunk;
use vstd::prelude::*;

verus! {

/// The frame buffer after one tile is aggregated: the four bytes of every
/// pixel index in `[from, to)` come from the start of `tile`, every other
/// byte stays.
pub open spec fn splice_tile(frame: Seq<u8>, from: int, to: int, tile: Seq<u8>) -> Seq<u8>
    recommends
        0 <= from <= to,
        4 * to <= frame.len(),
        tile.len() >= 4 * (to - from),
{
    Seq::new(
        frame.len(),
        |j: int| if 4 * from <= j < 4 * to {
            tile[j - 4 * from]
        } else {
            frame[j]
        },
    )
}

/// A zeroed tile buffer with four bytes for each of `n_pixels` pixels: what
/// one worker fills for its chunk before the coordinator aggregates it.
pub fn new_tile(n_pixels: usize) -> (tile: Vec<u8>)
    requires
        n_pixels * 4 <= usize::MAX,
    ensures
        tile.len() == n_pixels * 4,
        forall|j: int| 0 <= j < tile.len() ==> tile[j] == 0,
{
    let n: usize = n_pixels * 4;
    let mut tile: Vec<u8> = Vec::new();
    while tile.len() < n
        invariant
            tile.len() <= n,
            forall|j: int| 0 <= j < tile.len() ==> tile[j] == 0,
        decreases n - tile.len(),
    {
        tile.push(0);
    }
    tile
}

/// A blank RGBA frame buffer for a `width` by `height` image: four bytes per
/// pixel, row-major, all zero.
pub fn new_frame(width: usize, height: usize) -> (frame: Vec<u8>)
    requires
        width * height * 4 <= usize::MAX,
    ensures
        frame.len() == width * height * 4,
        forall|j: int| 0 <= j < frame.len() ==> frame[j] == 0,
{
    new_tile(width * height)
}

/// Writes one sampled pixel into a tile buffer at local pixel index `i`: the
/// three colour bytes, then full opacity in the alpha byte.  No other byte
/// changes.
pub fn write_pixel(data: &mut Vec<u8>, i: usize, r: u8, g: u8, b: u8)
    requires
        4 * i + 4 <= old(data).len(),
    ensures
        final(data).len() == old(data).len(),
        final(data)[4 * i as int] == r,
        final(data)[4 * i as int + 1] == g,
        final(data)[4 * i as int + 2] == b,
        final(data)[4 * i as int + 3] == 255,
        forall|j: int|
            0 <= j < final(data).len() && !(4 * i <= j < 4 * i + 4) ==> final(data)[j] == old(
                data,
            )[j],
{
    data.set(4 * i, r);
    data.set(4 * i + 1, g);
    data.set(4 * i + 2, b);
    data.set(4 * i + 3, 255);
}

/// Lays out one worker's finished tile in one step: pixel `k` of the chunk
/// gets the three colour bytes of `colors[k]` in order, followed by full
/// opacity in the alpha byte, and the tile holds nothing else.
pub fn fill_tile(colors: &Vec<(u8, u8, u8)>) -> (tile: Vec<u8>)
    requires
        colors.len() * 4 <= usize::MAX,
    ensures
        tile.len() == 4 * colors.len(),
        forall|k: int|
            0 <= k < colors.len() ==> {
                &&& tile[4 * k] == colors[k].0
                &&& tile[4 * k + 1] == colors[k].1
                &&& tile[4 * k + 2] == colors[k].2
                &&& tile[4 * k + 3] == 255
            },
{
    let mut tile = new_tile(colors.len());
    let mut k: usize = 0;
    while k < colors.len()
        invariant
            k <= colors.len(),
            tile.len() == 4 * colors.len(),
            colors.len() * 4 <= usize::MAX,
            forall|j: int|
                0 <= j < k ==> {
                    &&& tile[4 * j] == colors[j].0
                    &&& tile[4 * j + 1] == colors[j].1
                    &&& tile[4 * j + 2] == colors[j].2
                    &&& tile[4 * j + 3] == 255
                },
        decreases colors.len() - k,
    {
        let (r, g, b) = colors[k];
        write_pixel(&mut tile, k, r, g, b);
        k = k + 1;
    }
    tile
}

/// Copies a finished tile into its range of the shared frame buffer: the
/// four bytes of every pixel index in `[from, to)` are taken in order from
/// the start of `data`, and every byte outside `[4 * from, 4 * to)` is left
/// as it was.  Disjoint chunks therefore never clobber each other's pixels.
pub fn write_data(
    aggregated_data: &mut Vec<u8>,
    width: usize,
    height: usize,
    from: usize,
    to: usize,
    data: &Vec<u8>,
)
    requires
        old(aggregated_data).len() == width * height * 4,
        from <= to <= width * height,
        data.len() >= 4 * (to - from),
    ensures
        final(aggregated_data).len() == old(aggregated_data).len(),
        forall|j: int|
            4 * from <= j < 4 * to ==> final(aggregated_data)[j] == data[j - 4 * from],
        forall|j: int|
            0 <= j < final(aggregated_data).len() && !(4 * from <= j < 4 * to)
                ==> final(aggregated_data)[j] == old(aggregated_data)[j],
        final(aggregated_data)@ == splice_tile(
            old(aggregated_data)@,
            from as int,
            to as int,
            data@,
        ),
{
    let mut i: usize = from;
    while i < to
        invariant
            from <= i <= to <= width * height,
            aggregated_data.len() == width * height * 4,
            data.len() >= 4 * (to - from),
            forall|j: int|
                4 * from <= j < 4 * i ==> aggregated_data[j] == data[j - 4 * from],
            forall|j: int|
                0 <= j < aggregated_data.len() && !(4 * from <= j < 4 * i)
                    ==> aggregated_data[j] == old(aggregated_data)[j],
        decreases to - i,
    {
        aggregated_data.set(4 * i, data[4 * (i - from)]);
        aggregated_data.set(4 * i + 1, data[4 * (i - from) + 1]);
        aggregated_data.set(4 * i + 2, data[4 * (i - from) + 2]);
        aggregated_data.set(4 * i + 3, data[4 * (i - from) + 3]);
        i = i + 1;
    }
    proof {
        assert(aggregated_data@ =~= splice_tile(
            old(aggregated_data)@,
            from as int,
            to as int,
            data@,
        ));
    }
}

/// Aggregation is order-independent: two chunks with disjoint pixel ranges
/// may splice their tiles into the frame buffer in either order with the
/// same result.
pub proof fn lemma_write_order_independent(
    frame: Seq<u8>,
    a: WorkChunk,
    tile_a: Seq<u8>,
    b: WorkChunk,
    tile_b: Seq<u8>,
)
    requires
        a.wf(),
        b.wf(),
        a.to_pixel_index <= b.from_pixel_index || b.to_pixel_index <= a.from_pixel_index,
        4 * a.to_pixel_index <= frame.len(),
        4 * b.to_pixel_index <= frame.len(),
        tile_a.len() >= 4 * (a.to_pixel_index - a.from_pixel_index),
        tile_b.len() >= 4 * (b.to_pixel_index - b.from_pixel_index),
    ensures
        splice_tile(
            splice_tile(
                frame,
                a.from_pixel_index as int,
                a.to_pixel_index as int,
                tile_a,
            ),
            b.from_pixel_index as int,
            b.to_pixel_index as int,
            tile_b,
        ) == splice_tile(
            splice_tile(
                frame,
                b.from_pixel_index as int,
                b.to_pixel_index as int,
                tile_b,
            ),
            a.from_pixel_index as int,
            a.to_pixel_index as int,
            tile_a,
        ),
{
    let a_then_b = splice_tile(
        splice_tile(frame, a.from_pixel_index as int, a.to_pixel_index as int, tile_a),
        b.from_pixel_index as int,
        b.to_pixel_index as int,
        tile_b,
    );
    let b_then_a = splice_tile(
        splice_tile(frame, b.from_pixel_index as int, b.to_pixel_index as int, tile_b),
        a.from_pixel_index as int,
        a.to_pixel_index as int,
        tile_a,
    );
    assert(a_then_b =~= b_then_a);
}

} // verus!
