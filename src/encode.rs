//! The encoder: its options, the checks on each frame, the metadata slots,
//! and the multi-frame session.

use vstd::prelude::*;
use vstd::slice::slice_to_vec;

use crate::error::EncodeError;
use crate::format::{buffer_len, buffer_size, sample_bytes, Endianness, PixelFormat, SampleType};

verus! {

/// The default starting size of the output buffer.
pub const DEFAULT_OUTPUT_BUFFER: usize = 524288;

/// The smallest output buffer handed to the engine.
pub const MIN_OUTPUT_BUFFER: usize = 32;

/// The color space that input samples are in.
#[derive(Clone, Copy, Debug, PartialEq, Eq, Structural)]
pub enum ColorEncoding {
    Srgb,
    LinearSrgb,
    SrgbLuma,
    LinearSrgbLuma,
}

/// Color channels of samples in encoding `c`: 1 for the luma encodings.
pub open spec fn color_channels_of(c: ColorEncoding) -> u32 {
    match c {
        ColorEncoding::SrgbLuma | ColorEncoding::LinearSrgbLuma => 1,
        _ => 3,
    }
}

impl ColorEncoding {
    /// Color channels of samples in this encoding.
    pub fn color_channels(self) -> (r: u32)
        ensures
            r == color_channels_of(self),
    {
        match self {
            ColorEncoding::SrgbLuma | ColorEncoding::LinearSrgbLuma => 1,
            _ => 3,
        }
    }
}

/// Encoder effort, from the fastest to the slowest.
#[derive(Clone, Copy, Debug, PartialEq, Eq, Structural)]
pub enum EncoderSpeed {
    Lightning,
    Thunder,
    Falcon,
    Cheetah,
    Hare,
    Wombat,
    Squirrel,
    Kitten,
    Tortoise,
}

/// The engine's effort level for a speed: 1 for the fastest, 9 for the
/// slowest.
pub open spec fn effort_of(s: EncoderSpeed) -> u32 {
    match s {
        EncoderSpeed::Lightning => 1,
        EncoderSpeed::Thunder => 2,
        EncoderSpeed::Falcon => 3,
        EncoderSpeed::Cheetah => 4,
        EncoderSpeed::Hare => 5,
        EncoderSpeed::Wombat => 6,
        EncoderSpeed::Squirrel => 7,
        EncoderSpeed::Kitten => 8,
        EncoderSpeed::Tortoise => 9,
    }
}

impl EncoderSpeed {
    /// The engine's effort level for this speed.
    pub fn effort(self) -> (r: u32)
        ensures
            r == effort_of(self),
    {
        match self {
            EncoderSpeed::Lightning => 1,
            EncoderSpeed::Thunder => 2,
            EncoderSpeed::Falcon => 3,
            EncoderSpeed::Cheetah => 4,
            EncoderSpeed::Hare => 5,
            EncoderSpeed::Wombat => 6,
            EncoderSpeed::Squirrel => 7,
            EncoderSpeed::Kitten => 8,
            EncoderSpeed::Tortoise => 9,
        }
    }
}

/// Auxiliary metadata attached to an encode, as opaque bytes.
#[derive(Clone, Copy, Debug)]
pub enum Metadata<'a> {
    Exif(&'a [u8]),
    Xmp(&'a [u8]),
}

/// An encoder's options and the metadata attached to its next encode.
#[derive(Clone, Debug)]
pub struct JxlEncoder {
    pub has_alpha: bool,
    pub lossless: bool,
    pub speed: EncoderSpeed,
    /// The quality as a distance, in thousandths; 0 asks for lossless.
    pub quality_milli: u32,
    /// `None` for sRGB.
    pub color_encoding: Option<ColorEncoding>,
    pub decoding_speed: u32,
    pub init_buffer_size: usize,
    pub use_container: bool,
    pub uses_original_profile: bool,
    pub exif: Option<Vec<u8>>,
    pub xmp: Option<Vec<u8>>,
}

/// Collects an encoder's options.
#[derive(Clone, Copy, Debug, PartialEq, Eq, Structural)]
pub struct JxlEncoderBuilder {
    pub has_alpha: bool,
    pub lossless: bool,
    pub speed: EncoderSpeed,
    pub quality_milli: u32,
    pub color_encoding: Option<ColorEncoding>,
    pub decoding_speed: u32,
    pub init_buffer_size: usize,
    pub use_container: bool,
    pub uses_original_profile: bool,
}

/// A builder with the default options: no alpha, lossy at distance 1,
/// squirrel speed, sRGB, no container.
pub fn encoder_builder() -> (r: JxlEncoderBuilder)
    ensures
        r == (JxlEncoderBuilder {
            has_alpha: false,
            lossless: false,
            speed: EncoderSpeed::Squirrel,
            quality_milli: 1000,
            color_encoding: None,
            decoding_speed: 0,
            init_buffer_size: DEFAULT_OUTPUT_BUFFER,
            use_container: false,
            uses_original_profile: false,
        }),
{
    JxlEncoderBuilder {
        has_alpha: false,
        lossless: false,
        speed: EncoderSpeed::Squirrel,
        quality_milli: 1000,
        color_encoding: None,
        decoding_speed: 0,
        init_buffer_size: DEFAULT_OUTPUT_BUFFER,
        use_container: false,
        uses_original_profile: false,
    }
}

/// The encoder that the options of `b` describe, with no metadata attached.
pub open spec fn encoder_of(b: JxlEncoderBuilder) -> JxlEncoder {
    JxlEncoder {
        has_alpha: b.has_alpha,
        lossless: b.lossless,
        speed: b.speed,
        quality_milli: b.quality_milli,
        color_encoding: b.color_encoding,
        decoding_speed: b.decoding_speed,
        init_buffer_size: b.init_buffer_size,
        use_container: b.use_container,
        uses_original_profile: b.uses_original_profile,
        exif: None,
        xmp: None,
    }
}

impl JxlEncoderBuilder {
    /// Whether frames carry an alpha channel.
    pub fn has_alpha(self, v: bool) -> (r: JxlEncoderBuilder)
        ensures
            r == (JxlEncoderBuilder { has_alpha: v, ..self }),
    {
        JxlEncoderBuilder { has_alpha: v, ..self }
    }

    /// Whether to encode losslessly.
    pub fn lossless(self, v: bool) -> (r: JxlEncoderBuilder)
        ensures
            r == (JxlEncoderBuilder { lossless: v, ..self }),
    {
        JxlEncoderBuilder { lossless: v, ..self }
    }

    /// The encoder's effort.
    pub fn speed(self, v: EncoderSpeed) -> (r: JxlEncoderBuilder)
        ensures
            r == (JxlEncoderBuilder { speed: v, ..self }),
    {
        JxlEncoderBuilder { speed: v, ..self }
    }

    /// The quality as a distance in thousandths; 0 asks for lossless.
    pub fn quality_milli(self, v: u32) -> (r: JxlEncoderBuilder)
        ensures
            r == (JxlEncoderBuilder { quality_milli: v, ..self }),
    {
        JxlEncoderBuilder { quality_milli: v, ..self }
    }

    /// The color space of input samples.
    pub fn color_encoding(self, v: ColorEncoding) -> (r: JxlEncoderBuilder)
        ensures
            r == (JxlEncoderBuilder { color_encoding: Some(v), ..self }),
    {
        JxlEncoderBuilder { color_encoding: Some(v), ..self }
    }

    /// The decoding speed tier, 0 to 4.
    pub fn decoding_speed(self, v: u32) -> (r: JxlEncoderBuilder)
        ensures
            r == (JxlEncoderBuilder { decoding_speed: v, ..self }),
    {
        JxlEncoderBuilder { decoding_speed: v, ..self }
    }

    /// The starting size of the output buffer.
    pub fn init_buffer_size(self, v: usize) -> (r: JxlEncoderBuilder)
        ensures
            r == (JxlEncoderBuilder { init_buffer_size: v, ..self }),
    {
        JxlEncoderBuilder { init_buffer_size: v, ..self }
    }

    /// Whether to wrap the codestream in a container.
    pub fn use_container(self, v: bool) -> (r: JxlEncoderBuilder)
        ensures
            r == (JxlEncoderBuilder { use_container: v, ..self }),
    {
        JxlEncoderBuilder { use_container: v, ..self }
    }

    /// Whether to keep the input's color profile.
    pub fn uses_original_profile(self, v: bool) -> (r: JxlEncoderBuilder)
        ensures
            r == (JxlEncoderBuilder { uses_original_profile: v, ..self }),
    {
        JxlEncoderBuilder { uses_original_profile: v, ..self }
    }

    /// The encoder these options describe, with no metadata attached.
    pub fn build(self) -> (r: JxlEncoder)
        ensures
            r == encoder_of(self),
    {
        JxlEncoder {
            has_alpha: self.has_alpha,
            lossless: self.lossless,
            speed: self.speed,
            quality_milli: self.quality_milli,
            color_encoding: self.color_encoding,
            decoding_speed: self.decoding_speed,
            init_buffer_size: self.init_buffer_size,
            use_container: self.use_container,
            uses_original_profile: self.uses_original_profile,
            exif: None,
            xmp: None,
        }
    }
}

/// The quality or the flag asks for lossless.
pub open spec fn lossless_intent(e: JxlEncoder) -> bool {
    e.lossless || e.quality_milli == 0
}

/// The encode reproduces every sample exactly: lossless was asked for and
/// the original color profile is kept. Lossless without the original profile
/// is lossy.
pub open spec fn pixel_exact(e: JxlEncoder) -> bool {
    lossless_intent(e) && e.uses_original_profile
}

/// Color channels of the encoder's samples: 1 for the luma encodings, else 3.
pub open spec fn encoder_color_channels(e: JxlEncoder) -> u32 {
    match e.color_encoding {
        Some(c) => color_channels_of(c),
        None => 3,
    }
}

/// Channels per pixel of the encoder's frames: color, and alpha if any.
pub open spec fn encoder_channels(e: JxlEncoder) -> u32 {
    (encoder_color_channels(e) + if e.has_alpha { 1u32 } else { 0u32 }) as u32
}

/// The encoder's options, leaving out the attached metadata.
pub open spec fn same_options(a: JxlEncoder, b: JxlEncoder) -> bool {
    &&& a.has_alpha == b.has_alpha
    &&& a.lossless == b.lossless
    &&& a.speed == b.speed
    &&& a.quality_milli == b.quality_milli
    &&& a.color_encoding == b.color_encoding
    &&& a.decoding_speed == b.decoding_speed
    &&& a.init_buffer_size == b.init_buffer_size
    &&& a.use_container == b.use_container
    &&& a.uses_original_profile == b.uses_original_profile
}

/// What the engine is told for each frame.
#[derive(Clone, Copy, Debug, PartialEq, Eq, Structural)]
pub struct FrameSettings {
    pub lossless: bool,
    /// The distance in thousandths; 0 when lossless.
    pub distance_milli: u32,
    pub effort: u32,
    pub decoding_speed: u32,
}

/// A frame of raw samples with its own layout; what it leaves unset comes
/// from the encoder.
#[derive(Clone, Copy, Debug)]
pub struct EncoderFrame<'a> {
    /// The samples, as bytes.
    pub data: &'a [u8],
    pub sample: SampleType,
    pub num_channels: Option<u32>,
    pub endianness: Option<Endianness>,
    pub align: Option<usize>,
}

impl<'a> EncoderFrame<'a> {
    /// A frame of 8-bit samples in the encoder's layout.
    pub fn new(data: &'a [u8]) -> (r: EncoderFrame<'a>)
        ensures
            r.data@ == data@,
            r.sample == SampleType::Uint8,
            r.num_channels is None,
            r.endianness is None,
            r.align is None,
    {
        EncoderFrame { data, sample: SampleType::Uint8, num_channels: None, endianness: None, align: None }
    }

    /// Sets the sample type.
    pub fn sample_type(self, t: SampleType) -> (r: EncoderFrame<'a>)
        ensures
            r == (EncoderFrame { sample: t, ..self }),
    {
        EncoderFrame { sample: t, ..self }
    }

    /// Sets the channels per pixel.
    pub fn num_channels(self, n: u32) -> (r: EncoderFrame<'a>)
        ensures
            r == (EncoderFrame { num_channels: Some(n), ..self }),
    {
        EncoderFrame { num_channels: Some(n), ..self }
    }

    /// Sets the byte order of samples.
    pub fn endianness(self, v: Endianness) -> (r: EncoderFrame<'a>)
        ensures
            r == (EncoderFrame { endianness: Some(v), ..self }),
    {
        EncoderFrame { endianness: Some(v), ..self }
    }

    /// Sets the row alignment.
    pub fn align(self, v: usize) -> (r: EncoderFrame<'a>)
        ensures
            r == (EncoderFrame { align: Some(v), ..self }),
    {
        EncoderFrame { align: Some(v), ..self }
    }
}

/// The layout in which the encoder reads frame `f`.
pub open spec fn frame_format(e: JxlEncoder, f: EncoderFrame) -> PixelFormat {
    PixelFormat {
        num_channels: match f.num_channels {
            Some(n) => n,
            None => encoder_channels(e),
        },
        endianness: match f.endianness {
            Some(v) => v,
            None => Endianness::Native,
        },
        align: match f.align {
            Some(a) => a,
            None => 0,
        },
    }
}

/// Why frame `f` of `width` by `height` pixels cannot be encoded, if it can
/// not: its channels must be the encoder's, and its samples must fill the
/// layout.
pub open spec fn frame_error(e: JxlEncoder, f: EncoderFrame, width: u32, height: u32) -> Option<EncodeError> {
    let fmt = frame_format(e, f);
    if fmt.num_channels != encoder_channels(e) {
        Some(EncodeError::UnsupportedChannelCombination)
    } else if f.data@.len() < buffer_len(width as nat, height as nat, fmt.num_channels as nat, sample_bytes(f.sample), fmt.align as nat) {
        Some(EncodeError::BufferSizeMismatch)
    } else {
        None
    }
}

impl JxlEncoder {
    /// Whether an encode reproduces every sample exactly.
    pub fn is_pixel_exact(&self) -> (r: bool)
        ensures
            r == pixel_exact(*self),
    {
        (self.lossless || self.quality_milli == 0) && self.uses_original_profile
    }

    /// What the engine is told for each frame: lossless only when the
    /// encode is pixel exact.
    pub fn frame_settings(&self) -> (r: FrameSettings)
        ensures
            r.lossless == pixel_exact(*self),
            r.distance_milli == if pixel_exact(*self) { 0 } else { self.quality_milli },
            r.effort == effort_of(self.speed),
            r.decoding_speed == self.decoding_speed,
    {
        let exact = self.is_pixel_exact();
        FrameSettings {
            lossless: exact,
            distance_milli: if exact { 0 } else { self.quality_milli },
            effort: self.speed.effort(),
            decoding_speed: self.decoding_speed,
        }
    }

    /// Color channels of the encoder's samples.
    pub fn color_channels(&self) -> (r: u32)
        ensures
            r == encoder_color_channels(*self),
    {
        match self.color_encoding {
            Some(c) => c.color_channels(),
            None => 3,
        }
    }

    /// Channels per pixel of the encoder's frames.
    pub fn channels(&self) -> (r: u32)
        ensures
            r == encoder_channels(*self),
    {
        let c = self.color_channels();
        if self.has_alpha { c + 1 } else { c }
    }

    /// Attaches Exif or XMP bytes to the next encode. Without `overwrite`,
    /// a slot that already holds metadata is a conflict.
    pub fn add_metadata(&mut self, m: &Metadata, overwrite: bool) -> (r: Result<(), EncodeError>)
        ensures
            same_options(*final(self), *old(self)),
            m matches Metadata::Exif(b) ==> {
                &&& final(self).xmp == old(self).xmp
                &&& (old(self).exif is Some && !overwrite) ==> r == Err::<(), EncodeError>(EncodeError::MetadataConflict) && final(self).exif == old(self).exif
                &&& !(old(self).exif is Some && !overwrite) ==> r is Ok && (final(self).exif matches Some(v) && v@ == b@)
            },
            m matches Metadata::Xmp(b) ==> {
                &&& final(self).exif == old(self).exif
                &&& (old(self).xmp is Some && !overwrite) ==> r == Err::<(), EncodeError>(EncodeError::MetadataConflict) && final(self).xmp == old(self).xmp
                &&& !(old(self).xmp is Some && !overwrite) ==> r is Ok && (final(self).xmp matches Some(v) && v@ == b@)
            },
    {
        match m {
            Metadata::Exif(b) => {
                if self.exif.is_some() && !overwrite {
                    return Err(EncodeError::MetadataConflict);
                }
                self.exif = Some(slice_to_vec(b));
            },
            Metadata::Xmp(b) => {
                if self.xmp.is_some() && !overwrite {
                    return Err(EncodeError::MetadataConflict);
                }
                self.xmp = Some(slice_to_vec(b));
            },
        }
        Ok(())
    }

    /// Checks frame `f` of `width` by `height` pixels and gives the layout
    /// in which the engine is to read it.
    pub fn check_frame(&self, f: &EncoderFrame, width: u32, height: u32) -> (r: Result<PixelFormat, EncodeError>)
        ensures
            frame_error(*self, *f, width, height) matches Some(e) ==> r == Err::<PixelFormat, EncodeError>(e),
            frame_error(*self, *f, width, height) is None ==> r == Ok::<PixelFormat, EncodeError>(frame_format(*self, *f)),
    {
        let expected = self.channels();
        let n = match f.num_channels {
            Some(n) => n,
            None => expected,
        };
        let fmt = PixelFormat {
            num_channels: n,
            endianness: match f.endianness {
                Some(v) => v,
                None => Endianness::Native,
            },
            align: match f.align {
                Some(a) => a,
                None => 0,
            },
        };
        if n != expected {
            return Err(EncodeError::UnsupportedChannelCombination);
        }
        let given = f.data.len();
        match buffer_size(width, height, n, f.sample, fmt.align) {
            Some(len) => {
                if given < len {
                    return Err(EncodeError::BufferSizeMismatch);
                }
            },
            None => {
                return Err(EncodeError::BufferSizeMismatch);
            },
        }
        Ok(fmt)
    }

    /// The first size of the output buffer.
    pub fn first_output_len(&self) -> (r: usize)
        ensures
            r == if self.init_buffer_size < MIN_OUTPUT_BUFFER { MIN_OUTPUT_BUFFER } else { self.init_buffer_size },
    {
        if self.init_buffer_size < MIN_OUTPUT_BUFFER { MIN_OUTPUT_BUFFER } else { self.init_buffer_size }
    }

    /// Opens a session of frames of `width` by `height` pixels.
    pub fn multiple(&self, width: u32, height: u32) -> (r: MultiFrames)
        ensures
            r.width == width,
            r.height == height,
            r.frames@ == Seq::<FrameKind>::empty(),
    {
        MultiFrames { width, height, frames: Vec::new() }
    }

    /// Checks a single frame as a session holding that one frame would, and
    /// gives its layout.
    pub fn encode_frame(&self, f: &EncoderFrame, width: u32, height: u32) -> (r: Result<PixelFormat, EncodeError>)
        ensures
            frame_error(*self, *f, width, height) matches Some(e) ==> r == Err::<PixelFormat, EncodeError>(e),
            frame_error(*self, *f, width, height) is None ==> r == Ok::<PixelFormat, EncodeError>(frame_format(*self, *f)),
    {
        let mut session = self.multiple(width, height);
        let fmt = session.add_frame(self, f)?;
        let n = session.encode();
        assert(n == Ok::<usize, EncodeError>(1));
        Ok(fmt)
    }
}

/// A frame held by a multi-frame session.
#[derive(Clone, Copy, Debug, PartialEq, Eq, Structural)]
pub enum FrameKind {
    /// Raw samples in this layout and sample type.
    Pixels(PixelFormat, SampleType),
    /// A JPEG bitstream of this many bytes, repacked losslessly.
    Jpeg(usize),
}

/// Frames gathered for one container; all share its width and height.
#[derive(Clone, Debug)]
pub struct MultiFrames {
    pub width: u32,
    pub height: u32,
    pub frames: Vec<FrameKind>,
}

impl MultiFrames {
    /// Appends a frame of raw samples, checked against the encoder and the
    /// session's dimensions; a refused frame leaves the session as it was.
    pub fn add_frame(&mut self, e: &JxlEncoder, f: &EncoderFrame) -> (r: Result<PixelFormat, EncodeError>)
        ensures
            final(self).width == old(self).width,
            final(self).height == old(self).height,
            frame_error(*e, *f, old(self).width, old(self).height) matches Some(err) ==> {
                &&& r == Err::<PixelFormat, EncodeError>(err)
                &&& final(self).frames@ == old(self).frames@
            },
            frame_error(*e, *f, old(self).width, old(self).height) is None ==> {
                &&& r == Ok::<PixelFormat, EncodeError>(frame_format(*e, *f))
                &&& final(self).frames@ == old(self).frames@.push(FrameKind::Pixels(frame_format(*e, *f), f.sample))
            },
    {
        let fmt = e.check_frame(f, self.width, self.height)?;
        self.frames.push(FrameKind::Pixels(fmt, f.sample));
        Ok(fmt)
    }

    /// Appends a JPEG bitstream as the next frame.
    pub fn add_jpeg_frame(&mut self, jpeg: &[u8])
        ensures
            final(self).width == old(self).width,
            final(self).height == old(self).height,
            final(self).frames@ == old(self).frames@.push(FrameKind::Jpeg(jpeg@.len() as usize)),
    {
        self.frames.push(FrameKind::Jpeg(jpeg.len()));
    }

    /// Closes the session: gives the number of frames to emit as one
    /// container and empties the session for the next one. A session with no
    /// frames is an error.
    pub fn encode(&mut self) -> (r: Result<usize, EncodeError>)
        ensures
            final(self).width == old(self).width,
            final(self).height == old(self).height,
            old(self).frames@.len() == 0 ==> r == Err::<usize, EncodeError>(EncodeError::EmptyMultiFrameSession),
            old(self).frames@.len() > 0 ==> r == Ok::<usize, EncodeError>(old(self).frames@.len() as usize),
            final(self).frames@ == Seq::<FrameKind>::empty(),
    {
        let n = self.frames.len();
        if n == 0 {
            return Err(EncodeError::EmptyMultiFrameSession);
        }
        self.frames = Vec::new();
        Ok(n)
    }
}

/// The next size of an output buffer that the engine filled: at least the
/// smallest buffer, else twice the size; `None` when that does not fit.
pub fn next_output_len(len: usize) -> (r: Option<usize>)
    ensures
        len < MIN_OUTPUT_BUFFER ==> r == Some(MIN_OUTPUT_BUFFER),
        len >= MIN_OUTPUT_BUFFER && 2 * len <= usize::MAX ==> r == Some((2 * len) as usize),
        len >= MIN_OUTPUT_BUFFER && 2 * len > usize::MAX ==> r is None,
{
    if len < MIN_OUTPUT_BUFFER {
        Some(MIN_OUTPUT_BUFFER)
    } else if len > usize::MAX / 2 {
        None
    } else {
        Some(2 * len)
    }
}

} // verus!
