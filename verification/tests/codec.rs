use bit_grid::codec::{decode_snapshot, encode_snapshot, snapshot_of_decoded, LoadError};
use bit_grid::fine_grained::Grid2;
use bit_grid::grid::{Grid, SizeMismatch, MAX_SIZE, TOTAL_BITS};
use bit_grid::raster::{from_raster, to_raster, Raster};

#[test]
fn encode_is_standard_base64() {
    let mut snapshot = [0u8; MAX_SIZE];
    snapshot[0] = b'M';
    snapshot[1] = b'a';
    snapshot[2] = b'n';
    snapshot[3] = 0xfb;
    snapshot[4] = 0xff;
    snapshot[5] = 0xbf;
    let text = encode_snapshot(&snapshot);
    // 125000 bytes leave a remainder of 2, so the text ends in one pad.
    assert_eq!(text.len(), 166_668);
    assert!(text.starts_with("TWFu+/+/AAAA"));
    assert!(text.ends_with("AAA="));
    assert!(text.bytes().all(|c| c.is_ascii_alphanumeric() || c == b'+' || c == b'/' || c == b'='));
}

#[test]
fn decode_reads_what_encode_wrote() {
    let mut snapshot = [0u8; MAX_SIZE];
    for (i, byte) in snapshot.iter_mut().enumerate() {
        *byte = (i * 7 % 256) as u8;
    }
    let text = encode_snapshot(&snapshot);
    let back = decode_snapshot(text.as_bytes()).unwrap();
    assert!(back == snapshot);
}

#[test]
fn decode_refuses_text_that_is_not_base64() {
    assert_eq!(decode_snapshot(b"***"), Err(LoadError::Undecodable));
    assert_eq!(decode_snapshot(b"AAA"), Err(LoadError::Undecodable));
    assert_eq!(decode_snapshot(b"AA=A"), Err(LoadError::Undecodable));
}

#[test]
fn decode_refuses_wrong_length() {
    assert_eq!(
        decode_snapshot(b"TWFu"),
        Err(LoadError::WrongLength(SizeMismatch { expected: MAX_SIZE, actual: 3 }))
    );
    assert_eq!(
        decode_snapshot(b"TQ=="),
        Err(LoadError::WrongLength(SizeMismatch { expected: MAX_SIZE, actual: 1 }))
    );
    let long = "A".repeat((MAX_SIZE + 1) / 3 * 4);
    assert_eq!(
        decode_snapshot(long.as_bytes()),
        Err(LoadError::WrongLength(SizeMismatch { expected: MAX_SIZE, actual: MAX_SIZE + 1 }))
    );
}

#[test]
fn snapshot_of_decoded_checks_the_length() {
    assert_eq!(snapshot_of_decoded(None), Err(LoadError::Undecodable));
    assert_eq!(
        snapshot_of_decoded(Some(&[1, 2, 3])),
        Err(LoadError::WrongLength(SizeMismatch { expected: MAX_SIZE, actual: 3 }))
    );
    let mut bytes = vec![0u8; MAX_SIZE];
    bytes[17] = 4;
    let snapshot = snapshot_of_decoded(Some(&bytes)).unwrap();
    assert_eq!(&snapshot[..], &bytes[..]);
}

#[test]
fn create_png() {
    let grid = Grid2::new();

    let buffer = grid.get_full();

    let picture = to_raster(&buffer);

    let empty_color = image::Rgb([255u8, 255u8, 255u8]);
    assert_eq!(picture.image.dimensions(), (1000, 1000));
    assert!(picture.image.pixels().all(|p| *p == empty_color));
}

#[test]
fn to_raster_is_row_major() {
    let mut grid = Grid2::new();
    grid.set_item(0, true);
    grid.set_item(999, true);
    grid.set_item(1000, true);
    grid.set_item(2 * 1000 + 345, true);
    grid.set_item(TOTAL_BITS - 1, true);
    let picture = to_raster(&grid.get_full());
    let filled_color = image::Rgb([255u8, 0u8, 0u8]);
    let empty_color = image::Rgb([255u8, 255u8, 255u8]);
    let filled: Vec<(u32, u32)> = picture
        .image
        .enumerate_pixels()
        .filter(|(_, _, p)| **p == filled_color)
        .map(|(x, y, _)| (x, y))
        .collect();
    assert_eq!(filled, vec![(0, 0), (999, 0), (0, 1), (345, 2), (999, 999)]);
    let others = picture.image.pixels().filter(|p| **p != filled_color).count();
    assert_eq!(others, TOTAL_BITS - 5);
    assert_eq!(*picture.image.get_pixel(1, 0), empty_color);
}

#[test]
fn load_png() {
    let mut grid = Grid2::new();

    let empty_color = image::Rgb([255u8, 255u8, 255u8]);
    let mut img = image::ImageBuffer::from_pixel(1000, 1000, empty_color);
    img.put_pixel(3, 0, image::Rgb([255u8, 0u8, 0u8]));
    img.put_pixel(7, 2, image::Rgb([0u8, 0u8, 0u8]));
    img.put_pixel(999, 999, image::Rgb([255u8, 255u8, 254u8]));

    let buffer = from_raster(&Raster { image: img }).unwrap();

    grid.set_full(buffer);
    assert_eq!(grid.get_item(3), Some(true));
    assert_eq!(grid.get_item(2007), Some(true));
    assert_eq!(grid.get_item(TOTAL_BITS - 1), Some(true));
    let ones: usize = grid.get_full().iter().map(|b| b.count_ones() as usize).sum();
    assert_eq!(ones, 3);
}

#[test]
fn from_raster_refuses_other_sizes() {
    let white = image::Rgb([255u8, 255u8, 255u8]);
    for (width, height, fits) in [
        (999u32, 1000u32, false),
        (1000, 1001, false),
        (1000, 999, false),
        (500, 2000, false),
        (0, 0, false),
        (1000, 1000, true),
    ] {
        let picture = Raster { image: image::ImageBuffer::from_pixel(width, height, white) };
        assert_eq!(from_raster(&picture).is_some(), fits);
    }
}

#[test]
fn raster_round_trip() {
    let mut grid = Grid2::new();
    let mut index = 5usize;
    while index < TOTAL_BITS {
        grid.toggle_item(index);
        index = index * 2 + 3;
    }
    let snapshot = grid.get_full();
    let picture = to_raster(&snapshot);
    let back = from_raster(&picture).unwrap();
    assert!(back == snapshot);
}
