//! Pixel layouts: which channel counts a source can be delivered in, and how
//! many bytes a raster of a given layout occupies.

use vstd::prelude::*;

use crate::error::DecodeError;

verus! {

/// Byte order of multi-byte samples.
#[derive(Clone, Copy, Debug, PartialEq, Eq, Structural)]
pub enum Endianness {
    /// The byte order of the machine.
    Native,
    Little,
    Big,
}

/// The representation of one sample.
#[derive(Clone, Copy, Debug, PartialEq, Eq, Structural)]
pub enum SampleType {
    Uint8,
    Uint16,
    Float16,
    Float32,
}

/// Bytes taken by one sample of type `t`.
pub open spec fn sample_bytes(t: SampleType) -> nat {
    match t {
        SampleType::Uint8 => 1,
        SampleType::Uint16 | SampleType::Float16 => 2,
        SampleType::Float32 => 4,
    }
}

impl SampleType {
    /// Bytes taken by one sample of this type.
    pub fn byte_width(self) -> (r: usize)
        ensures
            r == sample_bytes(self),
    {
        match self {
            SampleType::Uint8 => 1,
            SampleType::Uint16 | SampleType::Float16 => 2,
            SampleType::Float32 => 4,
        }
    }
}

/// A requested layout for pixel data. A channel count of 0 asks for the
/// source's own channels; an alignment of 0 or 1 asks for no row padding.
#[derive(Clone, Copy, Debug, PartialEq, Eq, Structural)]
pub struct PixelFormat {
    pub num_channels: u32,
    pub endianness: Endianness,
    pub align: usize,
}

impl Default for PixelFormat {
    fn default() -> (r: PixelFormat)
        ensures
            r.num_channels == 0,
            r.endianness == Endianness::Native,
            r.align == 0,
    {
        PixelFormat { num_channels: 0, endianness: Endianness::Native, align: 0 }
    }
}

/// The channel count a source carries: its color channels and its alpha.
pub open spec fn source_channels(num_color_channels: u32, has_alpha: bool) -> int {
    num_color_channels + if has_alpha { 1int } else { 0int }
}

/// A grayscale source can be delivered as luma or luma and alpha, a color
/// source as RGB or RGBA. Missing alpha is synthesised as opaque and
/// surplus channels are dropped, so the source's own alpha does not matter.
pub open spec fn channels_supported(num_color_channels: u32, requested: u32) -> bool {
    ||| num_color_channels == 1 && (requested == 1 || requested == 2)
    ||| num_color_channels == 3 && (requested == 3 || requested == 4)
}

/// The channel count delivered for a request, or `None` when the request
/// cannot be met. A request of 0 means the source's own channels.
pub open spec fn resolved_channels(num_color_channels: u32, has_alpha: bool, requested: u32) -> Option<u32> {
    let wanted = if requested == 0 {
        source_channels(num_color_channels, has_alpha)
    } else {
        requested as int
    };
    if channels_supported(num_color_channels, wanted as u32) && 0 < wanted <= 4 {
        Some(wanted as u32)
    } else {
        None
    }
}

/// Reconciles a requested channel count with a source's color channels and
/// alpha, giving the channel count that will be delivered.
pub fn resolve_channels(num_color_channels: u32, has_alpha: bool, requested: u32) -> (r: Result<u32, DecodeError>)
    ensures
        resolved_channels(num_color_channels, has_alpha, requested) matches Some(n) ==> r == Ok::<u32, DecodeError>(n),
        resolved_channels(num_color_channels, has_alpha, requested) is None ==> r == Err::<u32, DecodeError>(DecodeError::UnsupportedChannelCombination),
{
    if num_color_channels != 1 && num_color_channels != 3 {
        return Err(DecodeError::UnsupportedChannelCombination);
    }
    let wanted: u32 = if requested == 0 {
        if has_alpha { num_color_channels + 1 } else { num_color_channels }
    } else {
        requested
    };
    if (num_color_channels == 1 && (wanted == 1 || wanted == 2))
        || (num_color_channels == 3 && (wanted == 3 || wanted == 4)) {
        Ok(wanted)
    } else {
        Err(DecodeError::UnsupportedChannelCombination)
    }
}

/// A grayscale source is delivered as luma, or luma and alpha, only: a
/// request for any other channel count, three for instance, is refused.
pub proof fn lemma_grayscale_refuses_color_layouts(has_alpha: bool, requested: u32)
    requires
        requested != 0,
        requested != 1,
        requested != 2,
    ensures
        resolved_channels(1, has_alpha, requested) is None,
{
}

/// `n` rounded up to a multiple of `align`; alignments of 0 and 1 leave it
/// as it is.
pub open spec fn round_up(n: nat, align: nat) -> nat {
    if align <= 1 {
        n
    } else {
        ((n + align - 1) / align as int) as nat * align
    }
}

/// Bytes in one unpadded row.
pub open spec fn row_bytes(width: nat, channels: nat, sample: nat) -> nat {
    width * channels * sample
}

/// Bytes from the start of one row to the start of the next.
pub open spec fn row_stride(width: nat, channels: nat, sample: nat, align: nat) -> nat {
    round_up(row_bytes(width, channels, sample), align)
}

/// Bytes a raster of this layout occupies: the padded row times the rows.
pub open spec fn buffer_len(width: nat, height: nat, channels: nat, sample: nat, align: nat) -> nat {
    row_stride(width, channels, sample, align) * height
}

/// Rounding up reaches the least multiple of `align` that is not below `n`.
pub proof fn lemma_round_up(n: nat, align: nat)
    requires
        align > 1,
    ensures
        round_up(n, align) % align == 0,
        n <= round_up(n, align),
        round_up(n, align) < n + align,
{
    let q = (n + align - 1) / align as int;
    let r = (n + align - 1) % align as int;
    assert(n + align - 1 == q * align + r && 0 <= r < align) by (nonlinear_arith)
        requires
            align > 1,
            q == (n + align - 1) / align as int,
            r == (n + align - 1) % align as int,
    ;
    assert((q * align) % (align as int) == 0) by (nonlinear_arith)
        requires
            align > 1,
    ;
    assert(q >= 0) by (nonlinear_arith)
        requires
            align > 1,
            q == (n + align - 1) / align as int,
    ;
}

/// A padded row is a multiple of the alignment, holds the whole unpadded
/// row, and pads by less than one alignment unit.
pub proof fn lemma_row_stride_aligned(width: nat, channels: nat, sample: nat, align: nat)
    ensures
        row_bytes(width, channels, sample) <= row_stride(width, channels, sample, align),
        align > 1 ==> row_stride(width, channels, sample, align) % align == 0,
        align > 1 ==> row_stride(width, channels, sample, align) < row_bytes(width, channels, sample) + align,
        align <= 1 ==> row_stride(width, channels, sample, align) == row_bytes(width, channels, sample),
{
    if align > 1 {
        lemma_round_up(row_bytes(width, channels, sample), align);
    }
}

/// The bytes a raster of `width` by `height` pixels takes with `num_channels`
/// samples of type `sample` per pixel, each row padded to `align`; `None`
/// when that does not fit in memory.
pub fn buffer_size(width: u32, height: u32, num_channels: u32, sample: SampleType, align: usize) -> (r: Option<usize>)
    ensures
        r matches Some(n) ==> n == buffer_len(width as nat, height as nat, num_channels as nat, sample_bytes(sample), align as nat),
        r is None <==> buffer_len(width as nat, height as nat, num_channels as nat, sample_bytes(sample), align as nat) > usize::MAX,
{
    let b = sample.byte_width();
    let w = width as u128;
    let c = num_channels as u128;
    let a = align as u128;
    assert(w * c <= 0xFFFF_FFFFu128 * 0xFFFF_FFFFu128) by (nonlinear_arith)
        requires
            w <= 0xFFFF_FFFFu128,
            c <= 0xFFFF_FFFFu128,
    ;
    let wc = w * c;
    assert(wc * (b as u128) <= 0xFFFF_FFFFu128 * 0xFFFF_FFFFu128 * 4) by (nonlinear_arith)
        requires
            wc <= 0xFFFF_FFFFu128 * 0xFFFF_FFFFu128,
            b <= 4,
    ;
    let row = wc * (b as u128);
    assert(row == row_bytes(width as nat, num_channels as nat, sample_bytes(sample)));
    let stride: u128 = if a <= 1 {
        row
    } else {
        let q = (row + a - 1) / a;
        assert(q * a <= row + a - 1) by (nonlinear_arith)
            requires
                a > 1,
                q == (row + a - 1) as int / a as int,
        ;
        q * a
    };
    proof {
        lemma_row_stride_aligned(width as nat, num_channels as nat, sample_bytes(sample), align as nat);
    }
    assert(stride == row_stride(width as nat, num_channels as nat, sample_bytes(sample), align as nat));
    assert(stride * (height as u128) <= (0xFFFF_FFFFu128 * 0xFFFF_FFFFu128 * 4 + 0xFFFF_FFFF_FFFF_FFFFu128) * 0xFFFF_FFFFu128) by (nonlinear_arith)
        requires
            stride <= 0xFFFF_FFFFu128 * 0xFFFF_FFFFu128 * 4 + 0xFFFF_FFFF_FFFF_FFFFu128,
            height <= 0xFFFF_FFFFu32,
    ;
    let total = stride * (height as u128);
    if total > usize::MAX as u128 {
        None
    } else {
        Some(total as usize)
    }
}

} // verus!
