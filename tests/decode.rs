use jpegxl_rs::decode::{
    decoder_builder, BasicInfo, DecodeAction, DecodeEvent, DecodeSession, JxlDecoder, Metadata,
};
use jpegxl_rs::error::DecodeError;
use jpegxl_rs::format::{Endianness, PixelFormat, SampleType};

const CODESTREAM_HEAD: [u8; 8] = [0xFF, 0x0A, 0xFA, 0x1F, 0x42, 0x03, 0x00, 0x00];

const CONTAINER_HEAD: [u8; 12] = [
    0x00, 0x00, 0x00, 0x0C, 0x4A, 0x58, 0x4C, 0x20, 0x0D, 0x0A, 0x87, 0x0A,
];

/// The basic facts of an 8-bit RGB image with alpha, as the engine reports them.
fn rgba_info(width: u32, height: u32) -> BasicInfo {
    BasicInfo {
        width,
        height,
        num_color_channels: 3,
        has_alpha: true,
        intensity_target_bits: 255.0f32.to_bits(),
    }
}

fn open(decoder: &JxlDecoder, sample: SampleType) -> DecodeSession {
    decoder.begin(&CODESTREAM_HEAD, sample, false).unwrap()
}

/// Feeds the statuses of a complete decode and hands back the metadata.
fn decode_all(mut s: DecodeSession, info: BasicInfo, icc: &[u8]) -> Metadata {
    assert_eq!(s.step(DecodeEvent::BasicInfo(info)), Ok(DecodeAction::Continue));
    if s.step(DecodeEvent::ColorEncoding).unwrap() == DecodeAction::ReadIccProfile {
        assert_eq!(s.step(DecodeEvent::IccProfile(icc.to_vec())), Ok(DecodeAction::Continue));
    }
    let action = s.step(DecodeEvent::NeedImageOutBuffer(1)).unwrap();
    assert!(matches!(action, DecodeAction::SetImageBuffer(_)));
    assert_eq!(s.step(DecodeEvent::FullImage), Ok(DecodeAction::Continue));
    assert_eq!(s.step(DecodeEvent::Success), Ok(DecodeAction::Finish));
    s.finish().unwrap()
}

#[test]
fn invalid() {
    let decoder = decoder_builder().build().unwrap();

    assert!(matches!(
        decoder.begin(&[0x00, 0x00], SampleType::Uint16, false),
        Err(DecodeError::InvalidInput)
    ));
}

#[test]
fn truncated_data() {
    let decoder = decoder_builder().build().unwrap();

    for len in [0, 1, 10] {
        let result = decoder.begin(&CONTAINER_HEAD[..len], SampleType::Uint16, false);
        assert!(
            result.is_err(),
            "Expected error for truncated data of length {len}"
        );
    }
    // past the signature, the engine reports that the input ran out
    let mut s = open(&decoder, SampleType::Uint16);
    s.step(DecodeEvent::BasicInfo(rgba_info(64, 32))).unwrap();
    assert_eq!(
        s.step(DecodeEvent::NeedMoreInput),
        Err(DecodeError::InvalidInput)
    );
    assert_eq!(
        s.step(DecodeEvent::Failure),
        Err(DecodeError::InvalidInput)
    );
    assert_eq!(s.finish().unwrap_err(), DecodeError::InvalidInput);
}

#[test]
fn metadata_values() {
    let decoder = decoder_builder().build().unwrap();

    let metadata = decode_all(open(&decoder, SampleType::Uint16), rgba_info(64, 32), &[]);

    assert!(metadata.width > 0, "Width should be positive");
    assert!(metadata.height > 0, "Height should be positive");
    assert!(
        metadata.num_color_channels == 1 || metadata.num_color_channels == 3,
        "Color channels should be 1 or 3"
    );
    assert!(
        f32::from_bits(metadata.intensity_target_bits) > 0.0,
        "Intensity target should be positive"
    );
    assert_eq!((metadata.width, metadata.height), (64, 32));
    assert!(metadata.has_alpha_channel);
}

#[test]
fn alignment_options() {
    for align in [0, 1, 4, 8, 16, 32] {
        let decoder = decoder_builder()
            .pixel_format(PixelFormat {
                num_channels: 3,
                endianness: Endianness::Native,
                align,
            })
            .build()
            .unwrap();

        let mut s = open(&decoder, SampleType::Uint8);
        let info = rgba_info(10, 6);
        s.step(DecodeEvent::BasicInfo(info)).unwrap();
        assert_eq!(s.num_channels, 3);
        let Ok(DecodeAction::SetImageBuffer(len)) = s.step(DecodeEvent::NeedImageOutBuffer(180)) else {
            panic!("Expected a pixel buffer for align={align}");
        };
        assert!(
            len >= (info.width * info.height * 3) as usize,
            "Data should have at least width*height*3 bytes for align={align}"
        );
    }
}

#[test]
fn decode_without_icc() {
    let decoder = decoder_builder().icc_profile(false).build().unwrap();

    let metadata = decode_all(open(&decoder, SampleType::Uint16), rgba_info(8, 8), &[1, 2, 3]);
    assert!(
        metadata.icc_profile.is_none(),
        "ICC profile should not be retrieved when disabled"
    );
}

#[test]
fn decode_with_icc() {
    let decoder = decoder_builder().icc_profile(true).build().unwrap();

    let metadata = decode_all(open(&decoder, SampleType::Uint16), rgba_info(8, 8), &[1, 2, 3]);
    assert!(
        metadata.icc_profile.is_some(),
        "ICC profile should be retrieved when enabled"
    );

    let icc = metadata.icc_profile.unwrap();
    assert!(!icc.is_empty(), "ICC profile should not be empty");
}

#[test]
fn grayscale_source_with_three_channels_requested_fails() {
    let decoder = decoder_builder()
        .pixel_format(PixelFormat { num_channels: 3, ..PixelFormat::default() })
        .build()
        .unwrap();
    let mut s = open(&decoder, SampleType::Uint8);
    let gray = BasicInfo { num_color_channels: 1, has_alpha: false, ..rgba_info(4, 4) };
    assert_eq!(
        s.step(DecodeEvent::BasicInfo(gray)),
        Err(DecodeError::UnsupportedChannelCombination)
    );
}

#[test]
fn builder_refuses_more_than_four_channels() {
    let r = decoder_builder()
        .pixel_format(PixelFormat { num_channels: 5, ..PixelFormat::default() })
        .build();
    assert_eq!(r, Err(DecodeError::UnsupportedChannelCombination));
}

#[test]
fn decode_reports_the_encoded_dimensions() {
    let decoder = decoder_builder().build().unwrap();
    for (w, h) in [(16, 16), (1, 100)] {
        let m = decode_all(open(&decoder, SampleType::Uint8), rgba_info(w, h), &[]);
        assert_eq!((m.width, m.height), (w, h));
    }
}

#[test]
fn pixel_buffer_follows_layout_and_sample_type() {
    let decoder = decoder_builder().build().unwrap();
    let mut s = open(&decoder, SampleType::Float32);
    s.step(DecodeEvent::BasicInfo(rgba_info(5, 3))).unwrap();
    assert_eq!(s.num_channels, 4);
    assert_eq!(
        s.step(DecodeEvent::NeedImageOutBuffer(240)),
        Ok(DecodeAction::SetImageBuffer(240))
    );
    assert_eq!(
        s.step(DecodeEvent::NeedImageOutBuffer(241)),
        Err(DecodeError::BufferSizeMismatch)
    );
}

#[test]
fn buffer_before_basic_info_is_invalid() {
    let decoder = decoder_builder().build().unwrap();
    let mut s = open(&decoder, SampleType::Uint8);
    assert_eq!(
        s.step(DecodeEvent::NeedImageOutBuffer(3)),
        Err(DecodeError::InvalidInput)
    );
    assert_eq!(s.step(DecodeEvent::Success), Err(DecodeError::InvalidInput));
    assert_eq!(
        s.step(DecodeEvent::Unknown(77)),
        Err(DecodeError::EngineError(77))
    );
}

#[test]
fn oversized_or_empty_basic_info_is_invalid() {
    let decoder = decoder_builder().build().unwrap();
    let mut s = open(&decoder, SampleType::Uint8);
    assert_eq!(
        s.step(DecodeEvent::BasicInfo(rgba_info(0, 4))),
        Err(DecodeError::InvalidInput)
    );
    assert_eq!(
        s.step(DecodeEvent::BasicInfo(rgba_info(4, (1 << 30) + 1))),
        Err(DecodeError::InvalidInput)
    );
    assert_eq!(
        s.step(DecodeEvent::BasicInfo(rgba_info(1 << 30, 1))),
        Ok(DecodeAction::Continue)
    );
}

#[test]
fn jpeg_reconstruction_buffer_grows() {
    let decoder = decoder_builder().init_jpeg_buffer(512).build().unwrap();
    let mut s = decoder.begin(&CONTAINER_HEAD, SampleType::Uint16, true).unwrap();
    s.step(DecodeEvent::BasicInfo(rgba_info(8, 8))).unwrap();
    assert_eq!(
        s.step(DecodeEvent::JpegReconstruction),
        Ok(DecodeAction::SetJpegBuffer(512))
    );
    assert_eq!(
        s.step(DecodeEvent::JpegNeedMoreOutput),
        Ok(DecodeAction::SetJpegBuffer(1024))
    );
    assert!(s.jpeg_found);
    assert_eq!(s.step(DecodeEvent::Success), Ok(DecodeAction::Finish));
    assert_eq!(s.step(DecodeEvent::FullImage), Err(DecodeError::InvalidInput));
}

#[test]
fn jpeg_events_ignored_when_decoding_pixels() {
    let decoder = decoder_builder().build().unwrap();
    let mut s = open(&decoder, SampleType::Uint16);
    assert_eq!(
        s.step(DecodeEvent::JpegReconstruction),
        Ok(DecodeAction::Continue)
    );
    assert_eq!(
        s.step(DecodeEvent::JpegNeedMoreOutput),
        Err(DecodeError::InvalidInput)
    );
}

#[test]
fn repeated_sessions_take_identical_decisions() {
    let decoder = decoder_builder().icc_profile(true).build().unwrap();
    let a = decode_all(open(&decoder, SampleType::Uint16), rgba_info(9, 7), &[4, 5]);
    let b = decode_all(open(&decoder, SampleType::Uint16), rgba_info(9, 7), &[4, 5]);
    assert_eq!(a.width, b.width);
    assert_eq!(a.height, b.height);
    assert_eq!(a.icc_profile, b.icc_profile);
}

#[test]
fn sessions_move_between_threads() {
    fn assert_send<T: Send>() {}
    assert_send::<JxlDecoder>();
    assert_send::<DecodeSession>();
    assert_send::<jpegxl_rs::encode::JxlEncoder>();
    assert_send::<jpegxl_rs::encode::MultiFrames>();
}
