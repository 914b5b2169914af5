//! The decode session: the decisions taken on each status the engine reports
//! while it decodes one stream.

use vstd::prelude::*;

use crate::error::DecodeError;
use crate::format::{
    buffer_len, buffer_size, resolve_channels, Endianness, resolved_channels, sample_bytes, PixelFormat,
    SampleType,
};
use crate::signature::{check_valid_signature, valid_signature};

verus! {

/// The largest width or height a valid image has.
pub const MAX_DIMENSION: u32 = 0x4000_0000;

/// The default starting size of the buffer for a reconstructed JPEG.
pub const DEFAULT_JPEG_BUFFER: usize = 524288;

/// The basic facts the engine reports about an image.
#[derive(Clone, Copy, Debug, PartialEq, Eq, Structural)]
pub struct BasicInfo {
    pub width: u32,
    pub height: u32,
    /// 1 for grayscale, 3 for color.
    pub num_color_channels: u32,
    pub has_alpha: bool,
    /// The intensity target, as the bits of an IEEE 754 binary32 value.
    pub intensity_target_bits: u32,
}

/// Basic facts that describe an image this library accepts.
pub open spec fn info_valid(i: BasicInfo) -> bool {
    &&& 0 < i.width <= MAX_DIMENSION
    &&& 0 < i.height <= MAX_DIMENSION
    &&& i.num_color_channels == 1 || i.num_color_channels == 3
}

/// What a successful decode learned about the image.
#[derive(Clone, Debug)]
pub struct Metadata {
    pub width: u32,
    pub height: u32,
    pub num_color_channels: u32,
    pub has_alpha_channel: bool,
    /// The intensity target, as the bits of an IEEE 754 binary32 value.
    pub intensity_target_bits: u32,
    /// The ICC profile, when one was asked for.
    pub icc_profile: Option<Vec<u8>>,
}

/// A decoder's configuration. It holds no engine state, so one decoder can
/// run any number of decodes, one after the other.
#[derive(Clone, Copy, Debug, PartialEq, Eq, Structural)]
pub struct JxlDecoder {
    /// The requested layout; `None` delivers the source's own channels.
    pub pixel_format: Option<PixelFormat>,
    /// Whether to retrieve the ICC profile.
    pub icc_profile: bool,
    /// Starting size of the buffer for a reconstructed JPEG.
    pub init_jpeg_buffer: usize,
}

/// Collects a decoder's options; `build` checks them.
#[derive(Clone, Copy, Debug, PartialEq, Eq, Structural)]
pub struct JxlDecoderBuilder {
    pub pixel_format: Option<PixelFormat>,
    pub icc_profile: bool,
    pub init_jpeg_buffer: usize,
}

/// A builder with the default options: the source's channels, no ICC
/// profile, the default JPEG buffer.
pub fn decoder_builder() -> (r: JxlDecoderBuilder)
    ensures
        r.pixel_format is None,
        !r.icc_profile,
        r.init_jpeg_buffer == DEFAULT_JPEG_BUFFER,
{
    JxlDecoderBuilder { pixel_format: None, icc_profile: false, init_jpeg_buffer: DEFAULT_JPEG_BUFFER }
}

impl JxlDecoderBuilder {
    /// Requests a pixel layout.
    pub fn pixel_format(self, f: PixelFormat) -> (r: JxlDecoderBuilder)
        ensures
            r == (JxlDecoderBuilder { pixel_format: Some(f), ..self }),
    {
        JxlDecoderBuilder { pixel_format: Some(f), ..self }
    }

    /// Turns retrieval of the ICC profile on or off.
    pub fn icc_profile(self, b: bool) -> (r: JxlDecoderBuilder)
        ensures
            r == (JxlDecoderBuilder { icc_profile: b, ..self }),
    {
        JxlDecoderBuilder { icc_profile: b, ..self }
    }

    /// Sets the starting size of the buffer for a reconstructed JPEG.
    pub fn init_jpeg_buffer(self, n: usize) -> (r: JxlDecoderBuilder)
        ensures
            r == (JxlDecoderBuilder { init_jpeg_buffer: n, ..self }),
    {
        JxlDecoderBuilder { init_jpeg_buffer: n, ..self }
    }

    /// The decoder these options describe; a layout of more than four
    /// channels is refused.
    pub fn build(self) -> (r: Result<JxlDecoder, DecodeError>)
        ensures
            (self.pixel_format matches Some(f) && f.num_channels > 4)
                ==> r == Err::<JxlDecoder, DecodeError>(DecodeError::UnsupportedChannelCombination),
            !(self.pixel_format matches Some(f) && f.num_channels > 4) ==> r == Ok::<JxlDecoder, DecodeError>(
                JxlDecoder {
                    pixel_format: self.pixel_format,
                    icc_profile: self.icc_profile,
                    init_jpeg_buffer: self.init_jpeg_buffer,
                },
            ),
    {
        if let Some(f) = self.pixel_format {
            if f.num_channels > 4 {
                return Err(DecodeError::UnsupportedChannelCombination);
            }
        }
        Ok(JxlDecoder {
            pixel_format: self.pixel_format,
            icc_profile: self.icc_profile,
            init_jpeg_buffer: self.init_jpeg_buffer,
        })
    }
}

/// A status the engine reports while it decodes.
#[derive(Clone, Debug)]
pub enum DecodeEvent {
    /// The basic facts of the image are known.
    BasicInfo(BasicInfo),
    /// The color encoding is known; the ICC profile can be read now.
    ColorEncoding,
    /// The ICC profile that was asked for.
    IccProfile(Vec<u8>),
    /// The engine needs the pixel buffer; it takes at least this many bytes.
    NeedImageOutBuffer(usize),
    /// All pixels of the frame are written.
    FullImage,
    /// The stream holds a JPEG bitstream that can be rebuilt.
    JpegReconstruction,
    /// The JPEG buffer is full.
    JpegNeedMoreOutput,
    /// The input ended before the image did.
    NeedMoreInput,
    /// The engine could not parse the stream.
    Failure,
    /// The decode is complete.
    Success,
    /// A status this library does not know, with its code.
    Unknown(u32),
}

/// What the driver of the engine does next.
#[derive(Clone, Copy, Debug, PartialEq, Eq, Structural)]
pub enum DecodeAction {
    /// Let the engine go on.
    Continue,
    /// Read the ICC profile and report it as `IccProfile`.
    ReadIccProfile,
    /// Hand the engine a pixel buffer of this many bytes.
    SetImageBuffer(usize),
    /// Hand the engine a JPEG buffer of this many bytes.
    SetJpegBuffer(usize),
    /// The decode is done: collect the output.
    Finish,
}

/// One decode in progress.
#[derive(Clone, Debug)]
pub struct DecodeSession {
    /// The requested layout (channel count 0: the source's own).
    pub pixel_format: PixelFormat,
    pub sample: SampleType,
    pub want_icc: bool,
    /// Whether an embedded JPEG bitstream is to be rebuilt.
    pub want_jpeg: bool,
    pub init_jpeg_buffer: usize,
    pub info: Option<BasicInfo>,
    /// Channels per pixel to deliver, once the basic facts are known.
    pub num_channels: u32,
    pub icc_profile: Option<Vec<u8>>,
    pub jpeg_buffer_len: usize,
    /// A JPEG bitstream is being rebuilt.
    pub jpeg_found: bool,
    pub finished: bool,
}

/// The session a decoder opens for one stream.
pub open spec fn initial_session(d: JxlDecoder, sample: SampleType, jpeg: bool) -> DecodeSession {
    DecodeSession {
        pixel_format: match d.pixel_format {
            Some(f) => f,
            None => PixelFormat { num_channels: 0, endianness: Endianness::Native, align: 0 },
        },
        sample,
        want_icc: d.icc_profile,
        want_jpeg: jpeg,
        init_jpeg_buffer: d.init_jpeg_buffer,
        info: None,
        num_channels: 0,
        icc_profile: None,
        jpeg_buffer_len: 0,
        jpeg_found: false,
        finished: false,
    }
}

/// Bytes of the pixel buffer for the facts `i` in session `s`.
pub open spec fn image_buffer_len(s: DecodeSession, i: BasicInfo) -> nat {
    buffer_len(i.width as nat, i.height as nat, s.num_channels as nat, sample_bytes(s.sample), s.pixel_format.align as nat)
}

/// The first size of the JPEG buffer: the configured one, at least one byte.
pub open spec fn first_jpeg_len(s: DecodeSession) -> usize {
    if s.init_jpeg_buffer == 0 { 1 } else { s.init_jpeg_buffer }
}

/// The next state of a session and the answer to an engine status. On an
/// error the state is left as it was.
pub open spec fn transition(s: DecodeSession, ev: DecodeEvent) -> (DecodeSession, Result<DecodeAction, DecodeError>) {
    if s.finished {
        (s, Err(DecodeError::InvalidInput))
    } else {
        match ev {
            DecodeEvent::BasicInfo(i) => if !info_valid(i) {
                (s, Err(DecodeError::InvalidInput))
            } else {
                match resolved_channels(i.num_color_channels, i.has_alpha, s.pixel_format.num_channels) {
                    Some(n) => (DecodeSession { info: Some(i), num_channels: n, ..s }, Ok(DecodeAction::Continue)),
                    None => (s, Err(DecodeError::UnsupportedChannelCombination)),
                }
            },
            DecodeEvent::ColorEncoding => (s, Ok(if s.want_icc { DecodeAction::ReadIccProfile } else { DecodeAction::Continue })),
            DecodeEvent::IccProfile(p) => if s.want_icc {
                (DecodeSession { icc_profile: Some(p), ..s }, Ok(DecodeAction::Continue))
            } else {
                (s, Ok(DecodeAction::Continue))
            },
            DecodeEvent::NeedImageOutBuffer(required) => match s.info {
                None => (s, Err(DecodeError::InvalidInput)),
                Some(i) => if image_buffer_len(s, i) > usize::MAX || image_buffer_len(s, i) < required {
                    (s, Err(DecodeError::BufferSizeMismatch))
                } else {
                    (s, Ok(DecodeAction::SetImageBuffer(image_buffer_len(s, i) as usize)))
                },
            },
            DecodeEvent::FullImage => (s, Ok(DecodeAction::Continue)),
            DecodeEvent::JpegReconstruction => if s.want_jpeg {
                (
                    DecodeSession { jpeg_found: true, jpeg_buffer_len: first_jpeg_len(s), ..s },
                    Ok(DecodeAction::SetJpegBuffer(first_jpeg_len(s))),
                )
            } else {
                (s, Ok(DecodeAction::Continue))
            },
            DecodeEvent::JpegNeedMoreOutput => if !s.jpeg_found {
                (s, Err(DecodeError::InvalidInput))
            } else if 2 * s.jpeg_buffer_len > usize::MAX {
                (s, Err(DecodeError::BufferSizeMismatch))
            } else {
                (
                    DecodeSession { jpeg_buffer_len: (2 * s.jpeg_buffer_len) as usize, ..s },
                    Ok(DecodeAction::SetJpegBuffer((2 * s.jpeg_buffer_len) as usize)),
                )
            },
            DecodeEvent::NeedMoreInput => (s, Err(DecodeError::InvalidInput)),
            DecodeEvent::Failure => (s, Err(DecodeError::InvalidInput)),
            DecodeEvent::Unknown(c) => (s, Err(DecodeError::EngineError(c))),
            DecodeEvent::Success => if s.info is None {
                (s, Err(DecodeError::InvalidInput))
            } else {
                (DecodeSession { finished: true, ..s }, Ok(DecodeAction::Finish))
            },
        }
    }
}

/// The metadata a finished session reports for the facts `i`.
pub open spec fn metadata_of(i: BasicInfo, icc: Option<Vec<u8>>) -> Metadata {
    Metadata {
        width: i.width,
        height: i.height,
        num_color_channels: i.num_color_channels,
        has_alpha_channel: i.has_alpha,
        intensity_target_bits: i.intensity_target_bits,
        icc_profile: icc,
    }
}

/// Feeds the statuses `evs` to the session `s` until it finishes. The result
/// is the finished session, or the first error; statuses that run out before
/// `Success` are a truncated stream.
pub open spec fn run(s: DecodeSession, evs: Seq<DecodeEvent>) -> Result<DecodeSession, DecodeError>
    decreases evs.len(),
{
    if evs.len() == 0 {
        Err(DecodeError::InvalidInput)
    } else {
        let (next, r) = transition(s, evs[0]);
        match r {
            Err(e) => Err(e),
            Ok(DecodeAction::Finish) => Ok(next),
            Ok(_) => run(next, evs.drop_first()),
        }
    }
}

/// A session whose basic facts, if any, describe a valid image.
pub open spec fn session_valid(s: DecodeSession) -> bool {
    s.info matches Some(i) ==> info_valid(i)
}

/// Once the engine reports that input ran out, before it reports success,
/// the decode fails: a truncated stream never yields an image.
pub proof fn lemma_truncated_stream_fails(s: DecodeSession, evs: Seq<DecodeEvent>, k: int)
    requires
        0 <= k < evs.len(),
        evs[k] is NeedMoreInput,
        forall|j: int| 0 <= j < k ==> !(#[trigger] evs[j] is Success),
    ensures
        run(s, evs) is Err,
    decreases k,
{
    if k > 0 {
        let (next, r) = transition(s, evs[0]);
        assert(!(evs[0] is Success));
        if r is Ok && r != Ok::<DecodeAction, DecodeError>(DecodeAction::Finish) {
            let rest = evs.drop_first();
            assert forall|j: int| 0 <= j < k - 1 implies !(#[trigger] rest[j] is Success) by {
                assert(rest[j] == evs[j + 1]);
            }
            lemma_truncated_stream_fails(next, rest, k - 1);
        }
    }
}

/// A decode that succeeds has the basic facts of a valid image: positive
/// dimensions of at most 2^30 and one or three color channels.
pub proof fn lemma_finished_session_valid(s: DecodeSession, evs: Seq<DecodeEvent>)
    requires
        session_valid(s),
        run(s, evs) is Ok,
    ensures
        run(s, evs)->Ok_0.finished,
        run(s, evs)->Ok_0.info matches Some(i) && info_valid(i),
    decreases evs.len(),
{
    let (next, r) = transition(s, evs[0]);
    if r != Ok::<DecodeAction, DecodeError>(DecodeAction::Finish) {
        lemma_finished_session_valid(next, evs.drop_first());
    }
}

impl JxlDecoder {
    /// Opens a session on `data`, to deliver samples of type `sample`, or
    /// the embedded JPEG bitstream when `jpeg` is set and there is one.
    /// Fails with `InvalidInput` unless `data` starts with a whole signature.
    pub fn begin(&self, data: &[u8], sample: SampleType, jpeg: bool) -> (r: Result<DecodeSession, DecodeError>)
        ensures
            valid_signature(data@) == Some(true) ==> r == Ok::<DecodeSession, DecodeError>(initial_session(*self, sample, jpeg)),
            valid_signature(data@) != Some(true) ==> r == Err::<DecodeSession, DecodeError>(DecodeError::InvalidInput),
    {
        match check_valid_signature(data) {
            Some(true) => {},
            _ => {
                return Err(DecodeError::InvalidInput);
            },
        }
        let pixel_format = match self.pixel_format {
            Some(f) => f,
            None => PixelFormat::default(),
        };
        Ok(DecodeSession {
            pixel_format,
            sample,
            want_icc: self.icc_profile,
            want_jpeg: jpeg,
            init_jpeg_buffer: self.init_jpeg_buffer,
            info: None,
            num_channels: 0,
            icc_profile: None,
            jpeg_buffer_len: 0,
            jpeg_found: false,
            finished: false,
        })
    }
}

impl DecodeSession {
    /// Answers one engine status, updating the session.
    pub fn step(&mut self, ev: DecodeEvent) -> (r: Result<DecodeAction, DecodeError>)
        ensures
            (*final(self), r) == transition(*old(self), ev),
    {
        if self.finished {
            return Err(DecodeError::InvalidInput);
        }
        match ev {
            DecodeEvent::BasicInfo(i) => {
                if !(0 < i.width && i.width <= MAX_DIMENSION && 0 < i.height && i.height <= MAX_DIMENSION
                    && (i.num_color_channels == 1 || i.num_color_channels == 3)) {
                    return Err(DecodeError::InvalidInput);
                }
                let n = resolve_channels(i.num_color_channels, i.has_alpha, self.pixel_format.num_channels)?;
                self.info = Some(i);
                self.num_channels = n;
                Ok(DecodeAction::Continue)
            },
            DecodeEvent::ColorEncoding => {
                if self.want_icc {
                    Ok(DecodeAction::ReadIccProfile)
                } else {
                    Ok(DecodeAction::Continue)
                }
            },
            DecodeEvent::IccProfile(p) => {
                if self.want_icc {
                    self.icc_profile = Some(p);
                }
                Ok(DecodeAction::Continue)
            },
            DecodeEvent::NeedImageOutBuffer(required) => {
                match self.info {
                    None => Err(DecodeError::InvalidInput),
                    Some(i) => {
                        match buffer_size(i.width, i.height, self.num_channels, self.sample, self.pixel_format.align) {
                            None => Err(DecodeError::BufferSizeMismatch),
                            Some(len) => {
                                if len < required {
                                    Err(DecodeError::BufferSizeMismatch)
                                } else {
                                    Ok(DecodeAction::SetImageBuffer(len))
                                }
                            },
                        }
                    },
                }
            },
            DecodeEvent::FullImage => Ok(DecodeAction::Continue),
            DecodeEvent::JpegReconstruction => {
                if self.want_jpeg {
                    let len: usize = if self.init_jpeg_buffer == 0 { 1 } else { self.init_jpeg_buffer };
                    self.jpeg_found = true;
                    self.jpeg_buffer_len = len;
                    Ok(DecodeAction::SetJpegBuffer(len))
                } else {
                    Ok(DecodeAction::Continue)
                }
            },
            DecodeEvent::JpegNeedMoreOutput => {
                if !self.jpeg_found {
                    Err(DecodeError::InvalidInput)
                } else if self.jpeg_buffer_len > usize::MAX / 2 {
                    Err(DecodeError::BufferSizeMismatch)
                } else {
                    let len: usize = 2 * self.jpeg_buffer_len;
                    self.jpeg_buffer_len = len;
                    Ok(DecodeAction::SetJpegBuffer(len))
                }
            },
            DecodeEvent::NeedMoreInput => Err(DecodeError::InvalidInput),
            DecodeEvent::Failure => Err(DecodeError::InvalidInput),
            DecodeEvent::Unknown(c) => Err(DecodeError::EngineError(c)),
            DecodeEvent::Success => {
                if self.info.is_none() {
                    Err(DecodeError::InvalidInput)
                } else {
                    self.finished = true;
                    Ok(DecodeAction::Finish)
                }
            },
        }
    }

    /// The metadata of a finished decode; `InvalidInput` if the engine has
    /// not reported success.
    pub fn finish(self) -> (r: Result<Metadata, DecodeError>)
        ensures
            (self.finished && self.info is Some) ==> r == Ok::<Metadata, DecodeError>(metadata_of(self.info->Some_0, self.icc_profile)),
            !(self.finished && self.info is Some) ==> r == Err::<Metadata, DecodeError>(DecodeError::InvalidInput),
    {
        if !self.finished {
            return Err(DecodeError::InvalidInput);
        }
        match self.info {
            None => Err(DecodeError::InvalidInput),
            Some(i) => Ok(Metadata {
                width: i.width,
                height: i.height,
                num_color_channels: i.num_color_channels,
                has_alpha_channel: i.has_alpha,
                intensity_target_bits: i.intensity_target_bits,
                icc_profile: self.icc_profile,
            }),
        }
    }
}

} // verus!
