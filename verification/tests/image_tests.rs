use cartographers::image::{generate, GenerateError, Image};

fn base_2x1() -> Image {
    // One scanline of two one-byte pixels.
    Image { width: 2, height: 1, pixel_size: 1, format: 7, data: vec![10, 20] }
}

#[test]
fn generate_horizontal_domino_dimensions_and_content() {
    let tiles: Vec<(usize, usize)> = vec![(0, 0), (0, 1)];
    let out = generate(&tiles, &base_2x1(), 7).unwrap();
    assert_eq!(out.width, 4);
    assert_eq!(out.height, 1);
    assert_eq!(out.pixel_size, 1);
    assert_eq!(out.format, 7);
    assert_eq!(out.data, vec![10, 20, 10, 20]);
}

#[test]
fn generate_inverts_rows_bottom_up() {
    // A single tile at local row 1 renders in the top band of the picture.
    let tiles: Vec<(usize, usize)> = vec![(1, 0)];
    let out = generate(&tiles, &base_2x1(), 7).unwrap();
    assert_eq!(out.width, 2);
    assert_eq!(out.height, 2);
    assert_eq!(out.data, vec![10, 20, 0, 0]);
}

#[test]
fn generate_leaves_uncovered_bands_transparent() {
    // An L of three tiles in a 2x2 box: the untouched corner stays zero.
    let tiles: Vec<(usize, usize)> = vec![(0, 0), (1, 0), (1, 1)];
    let out = generate(&tiles, &base_2x1(), 7).unwrap();
    assert_eq!(out.width, 4);
    assert_eq!(out.height, 2);
    assert_eq!(out.data, vec![10, 20, 10, 20, 10, 20, 0, 0]);
}

#[test]
fn generate_is_deterministic() {
    let tiles: Vec<(usize, usize)> = vec![(0, 0), (1, 1), (2, 0)];
    let a = generate(&tiles, &base_2x1(), 7).unwrap();
    let b = generate(&tiles, &base_2x1(), 7).unwrap();
    assert_eq!(a.data, b.data);
    assert_eq!(a.width, b.width);
    assert_eq!(a.height, b.height);
}

#[test]
fn generate_multibyte_pixels() {
    let base = Image { width: 1, height: 2, pixel_size: 2, format: 0, data: vec![1, 2, 3, 4] };
    // Two tiles side by side: each output row interleaves both copies.
    let tiles: Vec<(usize, usize)> = vec![(0, 0), (0, 1)];
    let out = generate(&tiles, &base, 0).unwrap();
    assert_eq!(out.width, 2);
    assert_eq!(out.height, 2);
    assert_eq!(out.data, vec![1, 2, 1, 2, 3, 4, 3, 4]);
}

#[test]
fn generate_rejects_empty_tile_set() {
    let tiles: Vec<(usize, usize)> = Vec::new();
    assert!(matches!(generate(&tiles, &base_2x1(), 7), Err(GenerateError::EmptyTileSet)));
}

#[test]
fn generate_rejects_format_mismatch() {
    let tiles: Vec<(usize, usize)> = vec![(0, 0)];
    assert!(matches!(generate(&tiles, &base_2x1(), 8), Err(GenerateError::FormatMismatch)));
}
