use path_tracer::{make_chunks, pixel_col, pixel_row, WorkChunk};

/// Reconstructs, for every pixel index, how many chunk ranges hold it.
fn coverage_counts(chunks: &[WorkChunk], n_pixels: usize) -> Vec<usize> {
    let mut counts = vec![0usize; n_pixels];
    for c in chunks {
        for p in c.from_pixel_index..c.to_pixel_index {
            counts[p] += 1;
        }
    }
    counts
}

#[test]
fn chunks_cover_with_remainder() {
    // 35 pixels into 4 chunks: 8 pixels each, the last takes the rest.
    let chunks = make_chunks(7, 5, 4);
    assert_eq!(chunks.len(), 4);
    assert_eq!(chunks[0].from_pixel_index, 0);
    assert_eq!(chunks[0].to_pixel_index, 8);
    assert_eq!(chunks[3].from_pixel_index, 24);
    assert_eq!(chunks[3].to_pixel_index, 35);
    let counts = coverage_counts(&chunks, 35);
    assert!(counts.iter().all(|&c| c == 1));
}

#[test]
fn chunks_cover_even_split() {
    let chunks = make_chunks(8, 4, 4);
    assert_eq!(chunks.len(), 4);
    for (i, c) in chunks.iter().enumerate() {
        assert_eq!(c.from_pixel_index, i * 8);
        assert_eq!(c.to_pixel_index, (i + 1) * 8);
    }
    let counts = coverage_counts(&chunks, 32);
    assert!(counts.iter().all(|&c| c == 1));
}

#[test]
fn chunks_single_chunk() {
    let chunks = make_chunks(3, 3, 1);
    assert_eq!(chunks.len(), 1);
    assert_eq!(chunks[0].from_pixel_index, 0);
    assert_eq!(chunks[0].to_pixel_index, 9);
}

#[test]
fn chunks_more_chunks_than_pixels() {
    // 4 pixels into 8 chunks: the first seven are empty, the last covers all.
    let chunks = make_chunks(2, 2, 8);
    assert_eq!(chunks.len(), 8);
    let counts = coverage_counts(&chunks, 4);
    assert!(counts.iter().all(|&c| c == 1));
}

#[test]
fn chunks_full_frame_boundaries() {
    let width = 3840;
    let height = 2160;
    let n = 100;
    let chunks = make_chunks(width, height, n);
    assert_eq!(chunks.len(), n);
    assert_eq!(chunks[0].from_pixel_index, 0);
    assert_eq!(chunks[n - 1].to_pixel_index, width * height);
    for i in 0..n - 1 {
        assert_eq!(chunks[i].to_pixel_index, chunks[i + 1].from_pixel_index);
        assert_eq!(
            chunks[i].to_pixel_index - chunks[i].from_pixel_index,
            width * height / n
        );
    }
}

#[test]
fn pixel_row_col_recompose() {
    assert_eq!(pixel_col(7, 3), 1);
    assert_eq!(pixel_row(7, 3, 4), 2);
    assert_eq!(pixel_col(0, 5), 0);
    assert_eq!(pixel_row(0, 5, 5), 0);
    let width = 640;
    let height = 480;
    for &i in &[0usize, 1, 639, 640, 641, 640 * 480 - 1] {
        let row = pixel_row(i, width, height);
        let col = pixel_col(i, width);
        assert_eq!(row * width + col, i);
        assert!(col < width);
        assert!(row < height);
    }
}
