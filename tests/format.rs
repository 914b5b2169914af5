use jpegxl_rs::error::DecodeError;
use jpegxl_rs::format::{buffer_size, resolve_channels, Endianness, PixelFormat, SampleType};

#[test]
fn default_pixel_format_infers_channels() {
    let f = PixelFormat::default();
    assert_eq!(f.num_channels, 0);
    assert_eq!(f.endianness, Endianness::Native);
    assert_eq!(f.align, 0);
}

#[test]
fn channel_resolution_follows_the_source() {
    assert_eq!(resolve_channels(3, false, 0), Ok(3));
    assert_eq!(resolve_channels(3, true, 0), Ok(4));
    assert_eq!(resolve_channels(1, false, 0), Ok(1));
    assert_eq!(resolve_channels(1, true, 0), Ok(2));
    // alpha is synthesised, or dropped
    assert_eq!(resolve_channels(3, false, 4), Ok(4));
    assert_eq!(resolve_channels(3, true, 3), Ok(3));
    assert_eq!(resolve_channels(1, false, 2), Ok(2));
}

#[test]
fn grayscale_source_refuses_three_channels() {
    assert_eq!(
        resolve_channels(1, false, 3),
        Err(DecodeError::UnsupportedChannelCombination)
    );
    assert_eq!(
        resolve_channels(1, true, 4),
        Err(DecodeError::UnsupportedChannelCombination)
    );
    assert_eq!(
        resolve_channels(3, false, 1),
        Err(DecodeError::UnsupportedChannelCombination)
    );
    assert_eq!(
        resolve_channels(3, false, 5),
        Err(DecodeError::UnsupportedChannelCombination)
    );
}

#[test]
fn buffer_size_without_padding() {
    assert_eq!(buffer_size(16, 16, 3, SampleType::Uint8, 0), Some(768));
    assert_eq!(buffer_size(16, 16, 3, SampleType::Uint8, 1), Some(768));
    assert_eq!(buffer_size(4, 2, 4, SampleType::Uint16, 0), Some(64));
    assert_eq!(buffer_size(4, 2, 4, SampleType::Float32, 0), Some(128));
    assert_eq!(buffer_size(4, 2, 1, SampleType::Float16, 0), Some(16));
    assert_eq!(buffer_size(0, 7, 3, SampleType::Uint8, 8), Some(0));
}

#[test]
fn buffer_size_pads_rows_to_the_alignment() {
    // 10 pixels of 3 bytes: 30 bytes, padded to 32 per row
    let len = buffer_size(10, 1, 3, SampleType::Uint8, 8).unwrap();
    assert_eq!(len, 32);
    assert_eq!(len % 8, 0);
    assert!(len >= 30);
    assert_eq!(buffer_size(10, 5, 3, SampleType::Uint8, 8), Some(160));
    assert_eq!(buffer_size(10, 5, 3, SampleType::Uint8, 10), Some(150));
    assert_eq!(buffer_size(7, 3, 3, SampleType::Uint16, 16), Some(144));
}

#[test]
fn buffer_size_that_cannot_fit_is_none() {
    assert_eq!(
        buffer_size(u32::MAX, u32::MAX, u32::MAX, SampleType::Float32, 64),
        None
    );
}

#[test]
fn sample_widths() {
    assert_eq!(SampleType::Uint8.byte_width(), 1);
    assert_eq!(SampleType::Uint16.byte_width(), 2);
    assert_eq!(SampleType::Float16.byte_width(), 2);
    assert_eq!(SampleType::Float32.byte_width(), 4);
}
