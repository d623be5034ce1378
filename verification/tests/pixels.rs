use v_upscale::error::UpscaleError;
use v_upscale::pixels::PixelBuffer;

fn checker(width: u32, height: u32) -> PixelBuffer {
    let mut data = Vec::new();
    for y in 0..height {
        for x in 0..width {
            data.push((x * 16 + y) as u8);
            data.push((y * 16 + x) as u8);
            data.push(((x + y) * 7) as u8);
            data.push(255 - (x as u8));
        }
    }
    PixelBuffer::from_raw(width, height, data).unwrap()
}

#[test]
fn from_raw_accepts_four_bytes_per_pixel() {
    let buffer = PixelBuffer::from_raw(2, 3, vec![7u8; 24]).unwrap();
    assert_eq!(buffer.width(), 2);
    assert_eq!(buffer.height(), 3);
    assert_eq!(buffer.as_bytes(), &vec![7u8; 24]);
    assert_eq!(buffer.into_raw(), vec![7u8; 24]);
}

#[test]
fn from_raw_rejects_any_other_length() {
    assert!(PixelBuffer::from_raw(2, 3, vec![0u8; 23]).is_none());
    assert!(PixelBuffer::from_raw(2, 3, vec![0u8; 25]).is_none());
    assert!(PixelBuffer::from_raw(2, 3, Vec::new()).is_none());
    assert!(PixelBuffer::from_raw(u32::MAX, u32::MAX, vec![0u8; 16]).is_none());
}

#[test]
fn from_raw_accepts_the_empty_image() {
    let buffer = PixelBuffer::from_raw(0, 9, Vec::new()).unwrap();
    assert_eq!(buffer.width(), 0);
    assert_eq!(buffer.height(), 9);
    assert!(buffer.as_bytes().is_empty());
}

#[test]
fn zeroed_has_the_extent_and_only_zeros() {
    let buffer = PixelBuffer::zeroed(5, 4).unwrap();
    assert_eq!(buffer.width(), 5);
    assert_eq!(buffer.height(), 4);
    assert_eq!(buffer.as_bytes(), &vec![0u8; 80]);
}

#[test]
fn zeroed_refuses_what_cannot_be_addressed() {
    assert!(PixelBuffer::zeroed(u32::MAX, u32::MAX).is_none());
}

#[test]
fn nearest_doubles_a_single_pixel() {
    let source = PixelBuffer::from_raw(1, 1, vec![10, 20, 30, 40]).unwrap();
    let out = source.upscale_nearest(2).unwrap();
    assert_eq!(out.width(), 2);
    assert_eq!(out.height(), 2);
    assert_eq!(
        out.into_raw(),
        vec![10, 20, 30, 40, 10, 20, 30, 40, 10, 20, 30, 40, 10, 20, 30, 40]
    );
}

#[test]
fn nearest_repeats_each_pixel_in_a_block() {
    let source =
        PixelBuffer::from_raw(2, 1, vec![1, 2, 3, 4, 5, 6, 7, 8]).unwrap();
    let out = source.upscale_nearest(2).unwrap();
    assert_eq!(out.width(), 4);
    assert_eq!(out.height(), 2);
    let row: Vec<u8> = vec![1, 2, 3, 4, 1, 2, 3, 4, 5, 6, 7, 8, 5, 6, 7, 8];
    let mut expected = row.clone();
    expected.extend_from_slice(&row);
    assert_eq!(out.into_raw(), expected);
}

#[test]
fn nearest_has_exactly_the_scaled_extent() {
    for factor in 1..=8u32 {
        let source = checker(3, 5);
        let out = source.upscale_nearest(factor).unwrap();
        assert_eq!(out.width(), 3 * factor);
        assert_eq!(out.height(), 5 * factor);
        assert_eq!(out.as_bytes().len() as u32, 3 * factor * 5 * factor * 4);
    }
}

#[test]
fn nearest_picks_the_source_pixel_under_each_output_pixel() {
    for factor in 2..=8u32 {
        let source = checker(4, 3);
        let out = source.upscale_nearest(factor).unwrap();
        let src = source.as_bytes();
        let dst = out.as_bytes();
        for y in 0..out.height() {
            for x in 0..out.width() {
                let from = (((y / factor) * 4 + x / factor) * 4) as usize;
                let to = ((y * out.width() + x) * 4) as usize;
                assert_eq!(&dst[to..to + 4], &src[from..from + 4]);
            }
        }
    }
}

#[test]
fn nearest_with_factor_one_returns_the_same_pixels() {
    let source = checker(6, 4);
    let out = source.upscale_nearest(1).unwrap();
    assert_eq!(out.width(), 6);
    assert_eq!(out.height(), 4);
    assert_eq!(out.as_bytes(), source.as_bytes());
}

#[test]
fn nearest_matches_the_image_crate() {
    let source = checker(5, 2);
    let framed =
        image::RgbaImage::from_raw(5, 2, source.as_bytes().clone()).unwrap();
    let expected = image::imageops::resize(&framed, 15, 6, image::imageops::FilterType::Nearest);
    let out = source.upscale_nearest(3).unwrap();
    assert_eq!(out.as_bytes(), expected.as_raw());
}

#[test]
fn nearest_of_an_empty_image_is_empty() {
    let source = PixelBuffer::from_raw(0, 3, Vec::new()).unwrap();
    let out = source.upscale_nearest(4).unwrap();
    assert_eq!(out.width(), 0);
    assert_eq!(out.height(), 12);
    assert!(out.as_bytes().is_empty());
}

#[test]
fn nearest_rejects_factor_zero_and_nine() {
    let source = checker(2, 2);
    assert_eq!(source.upscale_nearest(0).err(), Some(UpscaleError::InvalidFactor(0)));
    assert_eq!(source.upscale_nearest(9).err(), Some(UpscaleError::InvalidFactor(9)));
}

#[test]
fn nearest_rejects_an_extent_beyond_32_bits() {
    let source = PixelBuffer::from_raw(1 << 31, 0, Vec::new()).unwrap();
    assert_eq!(source.upscale_nearest(2).err(), Some(UpscaleError::ImageTooLarge));
    assert_eq!(source.upscale_nearest(1).map(|out| out.width()).ok(), Some(1 << 31));
}
