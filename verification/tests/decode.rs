use ubmp::bitmap::Bitmap;
use ubmp::error::BitmapError;
use ubmp::header::CompressionMethod;
use ubmp::pixel::Pixel;

/// A buffer of `len` zero bytes with the signature and the three fields that
/// steer decoding.
fn buffer(len: usize, bpp: u16, offset: u32, data_size: u32) -> Vec<u8> {
    let mut buf = vec![0u8; len];
    buf[0] = b'B';
    buf[1] = b'M';
    buf[10..14].copy_from_slice(&offset.to_le_bytes());
    buf[28..30].copy_from_slice(&bpp.to_le_bytes());
    buf[34..38].copy_from_slice(&data_size.to_le_bytes());
    buf
}

#[test]
fn zero_filled_24bpp_gives_two_zero_pixels() {
    let buf = buffer(62, 24, 54, 8);
    let bitmap = Bitmap::new(buf.clone()).unwrap();
    assert_eq!(bitmap.pixels, vec![Pixel::ABGR(0, 0, 0, 0), Pixel::ABGR(0, 0, 0, 0)]);
    assert_eq!(bitmap.offset, 54);
    assert_eq!(bitmap.size, 0);
    assert_eq!(bitmap.header.bpp, 24);
    assert_eq!(bitmap.header.size, 0);
    assert_eq!(bitmap.header.pix_width, 0);
    assert_eq!(bitmap.header.pix_height, 0);
    assert_eq!(bitmap.header.method, CompressionMethod::Uncompressed);
    assert_eq!(bitmap.header.colors, 0);
    assert_eq!(bitmap.data, buf);
}

#[test]
fn zero_filled_24bpp_in_a_longer_buffer() {
    let bitmap = Bitmap::new(buffer(100, 24, 54, 8)).unwrap();
    assert_eq!(bitmap.pixels, vec![Pixel::ABGR(0, 0, 0, 0), Pixel::ABGR(0, 0, 0, 0)]);
    assert_eq!(bitmap.data.len(), 100);
}

#[test]
fn signature_alone_is_invalid() {
    assert!(matches!(Bitmap::new(b"BM".to_vec()), Err(BitmapError::InvalidBitmapData)));
}

#[test]
fn signature_with_a_cut_header_is_invalid() {
    let mut buf = buffer(62, 24, 54, 8);
    buf.truncate(20);
    assert!(matches!(Bitmap::new(buf), Err(BitmapError::InvalidBitmapData)));
}

#[test]
fn header_must_span_fifty_bytes() {
    let mut buf = buffer(50, 32, 50, 0);
    let bitmap = Bitmap::new(buf.clone()).unwrap();
    assert!(bitmap.pixels.is_empty());
    buf.truncate(49);
    assert!(matches!(Bitmap::new(buf), Err(BitmapError::InvalidBitmapData)));
}

#[test]
fn empty_buffer_is_invalid() {
    assert!(matches!(Bitmap::new(Vec::new()), Err(BitmapError::InvalidBitmapData)));
}

#[test]
fn single_byte_is_invalid() {
    assert!(matches!(Bitmap::new(vec![b'B']), Err(BitmapError::InvalidBitmapData)));
}

#[test]
fn wrong_signature_is_invalid_at_any_length() {
    for len in [2usize, 10, 49, 50, 62, 200] {
        let mut buf = buffer(len.max(62), 24, 54, 8);
        buf.truncate(len);
        buf[0] = b'M';
        buf[1] = b'B';
        assert!(matches!(Bitmap::new(buf), Err(BitmapError::InvalidBitmapData)));
    }
}

#[test]
fn wrong_second_signature_byte_is_invalid() {
    let mut buf = buffer(62, 24, 54, 8);
    buf[1] = b'N';
    assert!(matches!(Bitmap::new(buf), Err(BitmapError::InvalidBitmapData)));
}

#[test]
fn wrong_signature_wins_over_unsupported_depth() {
    let mut buf = buffer(62, 8, 54, 8);
    buf[0] = 0;
    assert!(matches!(Bitmap::new(buf), Err(BitmapError::InvalidBitmapData)));
}

#[test]
fn other_depths_are_unsupported() {
    for bpp in [0u16, 1, 2, 3, 5, 8, 16, 23, 25, 31, 33, 64, 0x0400, 0x1800, 0x2000, u16::MAX] {
        let result = Bitmap::new(buffer(62, bpp, 54, 8));
        assert!(matches!(result, Err(BitmapError::UnsupportedBitsPerPixel)));
    }
}

#[test]
fn unsupported_depth_is_reported_wherever_the_pixel_data_lies() {
    let result = Bitmap::new(buffer(50, 8, 54, 1000));
    assert!(matches!(result, Err(BitmapError::UnsupportedBitsPerPixel)));
    let result = Bitmap::new(buffer(50, 8, u32::MAX, u32::MAX));
    assert!(matches!(result, Err(BitmapError::UnsupportedBitsPerPixel)));
}

#[test]
fn pixel_data_past_the_end_is_invalid() {
    assert!(matches!(Bitmap::new(buffer(61, 24, 54, 8)), Err(BitmapError::InvalidBitmapData)));
    assert!(matches!(Bitmap::new(buffer(62, 32, 55, 8)), Err(BitmapError::InvalidBitmapData)));
    assert!(matches!(Bitmap::new(buffer(62, 4, 63, 0)), Err(BitmapError::InvalidBitmapData)));
    assert!(Bitmap::new(buffer(62, 4, 62, 0)).is_ok());
}

#[test]
fn offset_and_length_do_not_wrap() {
    let result = Bitmap::new(buffer(62, 32, u32::MAX, 2));
    assert!(matches!(result, Err(BitmapError::InvalidBitmapData)));
    let result = Bitmap::new(buffer(62, 32, 54, u32::MAX));
    assert!(matches!(result, Err(BitmapError::InvalidBitmapData)));
    let result = Bitmap::new(buffer(62, 4, u32::MAX, u32::MAX));
    assert!(matches!(result, Err(BitmapError::InvalidBitmapData)));
}

#[test]
fn whole_groups_of_four_bytes_at_32bpp() {
    let mut buf = buffer(54 + 12, 32, 54, 12);
    for (i, byte) in buf[54..].iter_mut().enumerate() {
        *byte = 10 + i as u8;
    }
    let bitmap = Bitmap::new(buf).unwrap();
    assert_eq!(
        bitmap.pixels,
        vec![
            Pixel::ABGR(10, 11, 12, 13),
            Pixel::ABGR(14, 15, 16, 17),
            Pixel::ABGR(18, 19, 20, 21),
        ]
    );
}

#[test]
fn depth_24_is_read_like_depth_32() {
    let mut buf = buffer(54 + 8, 24, 54, 8);
    buf[54..].copy_from_slice(&[1, 2, 3, 4, 5, 6, 7, 8]);
    let deep = {
        let mut other = buf.clone();
        other[28] = 32;
        Bitmap::new(other).unwrap()
    };
    let bitmap = Bitmap::new(buf).unwrap();
    assert_eq!(bitmap.pixels, vec![Pixel::ABGR(1, 2, 3, 4), Pixel::ABGR(5, 6, 7, 8)]);
    assert_eq!(bitmap.pixels, deep.pixels);
}

#[test]
fn trailing_bytes_of_a_partial_group_are_dropped() {
    for rest in 1u32..4 {
        let len = 8 + rest;
        let mut buf = buffer(54 + len as usize, 32, 54, len);
        for (i, byte) in buf[54..].iter_mut().enumerate() {
            *byte = 0xF0 + i as u8;
        }
        let bitmap = Bitmap::new(buf).unwrap();
        assert_eq!(
            bitmap.pixels,
            vec![Pixel::ABGR(0xF0, 0xF1, 0xF2, 0xF3), Pixel::ABGR(0xF4, 0xF5, 0xF6, 0xF7)]
        );
    }
}

#[test]
fn fewer_than_four_bytes_give_no_pixel() {
    for len in 0u32..4 {
        let bitmap = Bitmap::new(buffer(54 + len as usize, 32, 54, len)).unwrap();
        assert!(bitmap.pixels.is_empty());
    }
}

#[test]
fn bytes_behind_the_pixel_data_are_not_decoded() {
    let mut buf = buffer(70, 32, 54, 4);
    for byte in buf[54..].iter_mut() {
        *byte = 9;
    }
    let bitmap = Bitmap::new(buf).unwrap();
    assert_eq!(bitmap.pixels, vec![Pixel::ABGR(9, 9, 9, 9)]);
}

#[test]
fn two_palette_indices_per_byte_at_4bpp() {
    let mut buf = buffer(54 + 3, 4, 54, 3);
    buf[54..].copy_from_slice(&[0xAB, 0x01, 0xF0]);
    let bitmap = Bitmap::new(buf).unwrap();
    assert_eq!(
        bitmap.pixels,
        vec![
            Pixel::PaletteColor(0xA),
            Pixel::PaletteColor(0xB),
            Pixel::PaletteColor(0x0),
            Pixel::PaletteColor(0x1),
            Pixel::PaletteColor(0xF),
            Pixel::PaletteColor(0x0),
        ]
    );
}

#[test]
fn palette_pixel_count_is_twice_the_byte_count() {
    for len in [0u32, 1, 2, 7, 64] {
        let bitmap = Bitmap::new(buffer(54 + len as usize, 4, 54, len)).unwrap();
        assert_eq!(bitmap.pixels.len(), 2 * len as usize);
        assert!(bitmap.pixels.iter().all(|p| matches!(p, Pixel::PaletteColor(0))));
    }
}

#[test]
fn abgr_pixel_count_is_a_quarter_of_the_byte_count() {
    for len in [0u32, 4, 5, 16, 19, 64] {
        let bitmap = Bitmap::new(buffer(54 + len as usize, 32, 54, len)).unwrap();
        assert_eq!(bitmap.pixels.len(), (len / 4) as usize);
    }
}

#[test]
fn pixel_data_may_start_anywhere_in_the_buffer() {
    let buf = buffer(62, 32, 0, 4);
    let bitmap = Bitmap::new(buf).unwrap();
    assert_eq!(bitmap.offset, 0);
    assert_eq!(bitmap.pixels, vec![Pixel::ABGR(b'B', b'M', 0, 0)]);
}

#[test]
fn decoding_twice_gives_equal_bitmaps() {
    let mut buf = buffer(54 + 6, 4, 54, 6);
    buf[54..].copy_from_slice(&[1, 2, 3, 250, 251, 252]);
    let first = Bitmap::new(buf.clone()).unwrap();
    let second = Bitmap::new(buf).unwrap();
    assert_eq!(first, second);
}

#[test]
fn failing_twice_gives_the_same_error() {
    let buf = buffer(62, 7, 54, 8);
    assert!(matches!(Bitmap::new(buf.clone()), Err(BitmapError::UnsupportedBitsPerPixel)));
    assert!(matches!(Bitmap::new(buf), Err(BitmapError::UnsupportedBitsPerPixel)));
}

#[test]
fn a_clone_equals_its_source() {
    let mut buf = buffer(54 + 4, 32, 54, 4);
    buf[54..].copy_from_slice(&[4, 3, 2, 1]);
    let bitmap = Bitmap::new(buf).unwrap();
    let copy = bitmap.clone();
    assert_eq!(copy, bitmap);
    assert_eq!(copy.pixels, vec![Pixel::ABGR(4, 3, 2, 1)]);
}

#[test]
fn the_bitmap_keeps_the_whole_buffer() {
    let mut buf = buffer(80, 4, 60, 2);
    for (i, byte) in buf[50..].iter_mut().enumerate() {
        *byte = i as u8;
    }
    let bitmap = Bitmap::new(buf.clone()).unwrap();
    assert_eq!(bitmap.data, buf);
    assert_eq!(
        bitmap.pixels,
        vec![
            Pixel::PaletteColor(0),
            Pixel::PaletteColor(10),
            Pixel::PaletteColor(0),
            Pixel::PaletteColor(11),
        ]
    );
}
