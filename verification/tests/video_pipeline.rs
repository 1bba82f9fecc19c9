use libretro_frontend::error::ConversionError;
use libretro_frontend::video::{
    convert_frame, remove_pitch, rgb565_to_rgb8888, rgb8888_to_rgb8888, PixelFormat,
};

#[test]
fn remove_pitch_strips_row_padding() {
    // Two rows of pitch 6, visible width 2 pixels at 2 bytes each.
    let data: Vec<u8> = vec![1, 2, 3, 4, 9, 9, 5, 6, 7, 8, 9, 9];
    let packed = remove_pitch(&data, 2, 6, 2).unwrap();
    assert_eq!(packed, vec![1, 2, 3, 4, 5, 6, 7, 8]);
}

#[test]
fn remove_pitch_is_identity_without_padding() {
    let data: Vec<u8> = vec![1, 2, 3, 4, 5, 6, 7, 8];
    let packed = remove_pitch(&data, 2, 4, 2).unwrap();
    assert_eq!(packed, data);
}

#[test]
fn remove_pitch_output_length_is_rows_times_row() {
    // 3 rows of pitch 10, visible 2 pixels at 4 bytes: 3 * 8 bytes out.
    let data: Vec<u8> = vec![0; 30];
    let packed = remove_pitch(&data, 2, 10, 4).unwrap();
    assert_eq!(packed.len(), 24);
}

#[test]
fn remove_pitch_rejects_length_not_multiple_of_pitch() {
    let data: Vec<u8> = vec![0; 5];
    let r = remove_pitch(&data, 1, 2, 2);
    assert_eq!(r, Err(ConversionError::SizeNotMultipleOfPitch));
}

#[test]
fn remove_pitch_rejects_pitch_shorter_than_row() {
    let data: Vec<u8> = vec![0; 8];
    let r = remove_pitch(&data, 4, 4, 2);
    assert_eq!(r, Err(ConversionError::PitchTooSmall));
}

#[test]
fn remove_pitch_rejects_zero_pitch() {
    let data: Vec<u8> = vec![];
    let r = remove_pitch(&data, 0, 0, 0);
    assert_eq!(r, Err(ConversionError::SizeNotMultipleOfPitch));
}

#[test]
fn rgb565_expands_black_and_white() {
    // 0x0000 -> black, 0xffff -> white; little-endian byte order.
    let data: Vec<u8> = vec![0x00, 0x00, 0xff, 0xff];
    let out = rgb565_to_rgb8888(&data).unwrap();
    assert_eq!(out, vec![0, 0, 0, 255, 255, 255, 255, 255]);
}

#[test]
fn rgb565_expands_pure_channels() {
    // Red 0xf800, green 0x07e0, blue 0x001f.
    let data: Vec<u8> = vec![0x00, 0xf8, 0xe0, 0x07, 0x1f, 0x00];
    let out = rgb565_to_rgb8888(&data).unwrap();
    assert_eq!(
        out,
        vec![255, 0, 0, 255, 0, 255, 0, 255, 0, 0, 255, 255]
    );
}

#[test]
fn rgb565_expands_mid_value_exactly() {
    // 0x5555: red 10, green 42, blue 21.
    // Replication: (10<<3)|(10>>2)=82, (42<<2)|(42>>4)=170, (21<<3)|(21>>2)=173.
    let data: Vec<u8> = vec![0x55, 0x55];
    let out = rgb565_to_rgb8888(&data).unwrap();
    assert_eq!(out, vec![82, 170, 173, 255]);
}

#[test]
fn rgb565_every_value_stays_within_one_of_ideal() {
    // For every 16-bit pixel, each expanded channel is within 1 of the
    // ideal linear upscale of its field, and always a valid byte.
    let mut data: Vec<u8> = Vec::with_capacity(65536 * 2);
    for px in 0..=65535u16 {
        data.push((px & 0xff) as u8);
        data.push((px >> 8) as u8);
    }
    let out = rgb565_to_rgb8888(&data).unwrap();
    for px in 0..=65535usize {
        let r5 = (px >> 11) as f64;
        let g6 = ((px >> 5) & 0x3f) as f64;
        let b5 = (px & 0x1f) as f64;
        let r8 = out[4 * px] as f64;
        let g8 = out[4 * px + 1] as f64;
        let b8 = out[4 * px + 2] as f64;
        assert!((r8 - r5 * 255.0 / 31.0).abs() <= 1.0);
        assert!((g8 - g6 * 255.0 / 63.0).abs() <= 1.0);
        assert!((b8 - b5 * 255.0 / 31.0).abs() <= 1.0);
        assert_eq!(out[4 * px + 3], 255);
    }
}

#[test]
fn rgb565_rejects_odd_length() {
    let data: Vec<u8> = vec![1, 2, 3];
    assert_eq!(
        rgb565_to_rgb8888(&data),
        Err(ConversionError::SizeNotMultipleOfPixel)
    );
}

#[test]
fn argb8888_reorders_and_forces_alpha() {
    // Stored [B,G,R,A] comes out [R,G,B,255], whatever A held.
    let data: Vec<u8> = vec![1, 2, 3, 4, 5, 6, 7, 0];
    let out = rgb8888_to_rgb8888(&data).unwrap();
    assert_eq!(out, vec![3, 2, 1, 255, 7, 6, 5, 255]);
}

#[test]
fn argb8888_rejects_partial_pixel() {
    let data: Vec<u8> = vec![1, 2, 3, 4, 5, 6];
    assert_eq!(
        rgb8888_to_rgb8888(&data),
        Err(ConversionError::SizeNotMultipleOfPixel)
    );
}

#[test]
fn convert_frame_strips_then_expands() {
    // One RGB565 pixel per row, pitch 4 (two bytes of padding per row).
    let data: Vec<u8> = vec![0xff, 0xff, 9, 9, 0x00, 0x00, 9, 9];
    let v = convert_frame(PixelFormat::RGB565, &data, 1, 2, 4).unwrap();
    assert_eq!(v.width, 1);
    assert_eq!(v.height, 2);
    assert_eq!(v.buffer, vec![255, 255, 255, 255, 0, 0, 0, 255]);
}

#[test]
fn convert_frame_output_is_width_height_rgba() {
    // 2x2 ARGB8888 frame without padding: 2*2*4 bytes out.
    let data: Vec<u8> = vec![0; 16];
    let v = convert_frame(PixelFormat::ARGB8888, &data, 2, 2, 8).unwrap();
    assert_eq!(v.buffer.len(), 16);
}

#[test]
fn convert_frame_rejects_the_15_bit_format() {
    let data: Vec<u8> = vec![0; 8];
    assert_eq!(
        convert_frame(PixelFormat::ARGB1555, &data, 2, 1, 4).unwrap_err(),
        ConversionError::UnsupportedPixelFormat
    );
}

#[test]
fn convert_frame_rejects_pitch_shorter_than_row() {
    let data: Vec<u8> = vec![0; 8];
    assert_eq!(
        convert_frame(PixelFormat::ARGB8888, &data, 4, 1, 8).unwrap_err(),
        ConversionError::PitchTooSmall
    );
}

#[test]
fn convert_frame_rejects_misaligned_buffer() {
    let data: Vec<u8> = vec![0; 10];
    assert_eq!(
        convert_frame(PixelFormat::RGB565, &data, 2, 2, 4).unwrap_err(),
        ConversionError::SizeNotMultipleOfPitch
    );
}

#[test]
fn canonical_frame_with_matching_ends_is_a_fixed_point() {
    // Pixels whose first and third bytes agree and whose alpha is 255 come
    // back byte for byte from the full ARGB8888 pipeline at pitch = width*4.
    let data: Vec<u8> = vec![9, 4, 9, 255, 0, 0, 0, 255, 77, 1, 77, 255, 33, 33, 33, 255];
    let v = convert_frame(PixelFormat::ARGB8888, &data, 2, 2, 8).unwrap();
    assert_eq!(v.buffer, data);
}

#[test]
fn canonical_conversion_swaps_unequal_ends() {
    // A pixel whose red and blue differ is changed by a second pass: the
    // ARGB8888 stage swaps the first and third bytes.
    let data: Vec<u8> = vec![1, 2, 3, 255];
    let v = convert_frame(PixelFormat::ARGB8888, &data, 1, 1, 4).unwrap();
    assert_eq!(v.buffer, vec![3, 2, 1, 255]);
}
