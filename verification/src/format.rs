//! The format catalog: a closed enumeration of the GPU texture formats the
//! engine can transcode into, with their structural parameters (block
//! granularity, output stride, alpha support) and the exact destination-size
//! rule derived from them.

use vstd::prelude::*;

verus! {

/// Largest pixel dimension the catalog accepts for a single mip level.
///
/// Bounding the dimensions keeps every size computation well inside `u32`
/// range: a block-compressed level needs at most
/// `(16384 / 4) * (16384 / 4) * 16` bytes and an uncompressed level at most
/// `16384 * 16384 * 4` bytes.
pub const MAX_DIM: u32 = 16384;

/// A GPU-native target texture format known to the transcoder.
///
/// Block-compressed formats encode fixed 4x4 pixel blocks into a fixed byte
/// count per block; the remaining formats are raw per-pixel encodings.
#[derive(Clone, Copy, Debug, PartialEq, Eq, Structural)]
pub enum TextureFormat {
    /// ETC1-style RGB, 8 bytes per 4x4 block.
    Etc1Rgb,
    /// ETC2-style RGBA, 16 bytes per 4x4 block.
    Etc2Rgba,
    /// BC1-style RGB, 8 bytes per 4x4 block; the one family for which the
    /// three-color-block fallback is meaningful.
    Bc1Rgb,
    /// BC3-style RGBA, 16 bytes per 4x4 block.
    Bc3Rgba,
    /// BC4-style single channel, 8 bytes per 4x4 block.
    Bc4R,
    /// BC5-style two channel, 16 bytes per 4x4 block.
    Bc5Rg,
    /// BC7-style RGBA, 16 bytes per 4x4 block.
    Bc7Rgba,
    /// PVRTC1-style 4 bpp RGB, 8 bytes per 4x4 block.
    Pvrtc14Rgb,
    /// PVRTC1-style 4 bpp RGBA, 8 bytes per 4x4 block.
    Pvrtc14Rgba,
    /// ASTC-style 4x4 RGBA, 16 bytes per block.
    Astc4x4Rgba,
    /// Raw 32-bit RGBA, 4 bytes per pixel.
    Rgba32,
    /// Raw 16-bit RGB (5-6-5), 2 bytes per pixel.
    Rgb565,
    /// Raw 16-bit RGBA (4-4-4-4), 2 bytes per pixel.
    Rgba4444,
}

/// The stable integer code of each format, the published keys of the catalog.
pub open spec fn spec_format_code(f: TextureFormat) -> u32 {
    match f {
        TextureFormat::Etc1Rgb => 0,
        TextureFormat::Etc2Rgba => 1,
        TextureFormat::Bc1Rgb => 2,
        TextureFormat::Bc3Rgba => 3,
        TextureFormat::Bc4R => 4,
        TextureFormat::Bc5Rg => 5,
        TextureFormat::Bc7Rgba => 6,
        TextureFormat::Pvrtc14Rgb => 8,
        TextureFormat::Pvrtc14Rgba => 9,
        TextureFormat::Astc4x4Rgba => 10,
        TextureFormat::Rgba32 => 13,
        TextureFormat::Rgb565 => 14,
        TextureFormat::Rgba4444 => 16,
    }
}

/// Which integer codes are in the catalog, and which format each one names.
pub open spec fn spec_format_from_code(code: u32) -> Option<TextureFormat> {
    match code {
        0u32 => Some(TextureFormat::Etc1Rgb),
        1u32 => Some(TextureFormat::Etc2Rgba),
        2u32 => Some(TextureFormat::Bc1Rgb),
        3u32 => Some(TextureFormat::Bc3Rgba),
        4u32 => Some(TextureFormat::Bc4R),
        5u32 => Some(TextureFormat::Bc5Rg),
        6u32 => Some(TextureFormat::Bc7Rgba),
        8u32 => Some(TextureFormat::Pvrtc14Rgb),
        9u32 => Some(TextureFormat::Pvrtc14Rgba),
        10u32 => Some(TextureFormat::Astc4x4Rgba),
        13u32 => Some(TextureFormat::Rgba32),
        14u32 => Some(TextureFormat::Rgb565),
        16u32 => Some(TextureFormat::Rgba4444),
        _ => None,
    }
}

/// True of the raw per-pixel formats; false of the 4x4 block-compressed ones.
pub open spec fn spec_is_uncompressed(f: TextureFormat) -> bool {
    match f {
        TextureFormat::Rgba32 => true,
        TextureFormat::Rgb565 => true,
        TextureFormat::Rgba4444 => true,
        _ => false,
    }
}

/// Output stride: bytes per 4x4 block for block-compressed formats, bytes per
/// pixel for uncompressed ones.
pub open spec fn spec_bytes_per_block_or_pixel(f: TextureFormat) -> u32 {
    match f {
        TextureFormat::Etc1Rgb => 8,
        TextureFormat::Etc2Rgba => 16,
        TextureFormat::Bc1Rgb => 8,
        TextureFormat::Bc3Rgba => 16,
        TextureFormat::Bc4R => 8,
        TextureFormat::Bc5Rg => 16,
        TextureFormat::Bc7Rgba => 16,
        TextureFormat::Pvrtc14Rgb => 8,
        TextureFormat::Pvrtc14Rgba => 8,
        TextureFormat::Astc4x4Rgba => 16,
        TextureFormat::Rgba32 => 4,
        TextureFormat::Rgb565 => 2,
        TextureFormat::Rgba4444 => 2,
    }
}

/// Whether the format carries an alpha channel.
pub open spec fn spec_format_has_alpha(f: TextureFormat) -> bool {
    match f {
        TextureFormat::Etc2Rgba => true,
        TextureFormat::Bc3Rgba => true,
        TextureFormat::Bc7Rgba => true,
        TextureFormat::Pvrtc14Rgba => true,
        TextureFormat::Astc4x4Rgba => true,
        TextureFormat::Rgba32 => true,
        TextureFormat::Rgba4444 => true,
        _ => false,
    }
}

/// Whether the three-color-block fallback flag is meaningful for the format.
pub open spec fn spec_allows_three_color_blocks(f: TextureFormat) -> bool {
    f is Bc1Rgb
}

/// Whether the channel-selector parameters feed the format (single- and
/// two-channel derivative encodings).
pub open spec fn spec_uses_channel0(f: TextureFormat) -> bool {
    f is Bc4R || f is Bc5Rg
}

/// Whether the second channel selector is honored; for every other format it
/// is ignored.
pub open spec fn spec_uses_channel1(f: TextureFormat) -> bool {
    f is Bc5Rg
}

/// Number of 4x4 blocks covering `dim` pixels: the last block may be only
/// partially used by a non-block-aligned image.
pub open spec fn spec_blocks_for(dim: nat) -> nat {
    (dim + 3) / 4
}

/// The exact byte count a destination buffer must have for a successful
/// transcode of a `width` x `height` level into format `f`: the block-grid
/// area times the per-block stride, or the pixel area times the per-pixel
/// stride. Not an approximation.
pub open spec fn spec_transcoded_size(f: TextureFormat, width: nat, height: nat) -> nat {
    if spec_is_uncompressed(f) {
        width * height * (spec_bytes_per_block_or_pixel(f) as nat)
    } else {
        spec_blocks_for(width) * spec_blocks_for(height) * (spec_bytes_per_block_or_pixel(f) as nat)
    }
}

/// The transcoded size of any level within the catalog's dimension bound fits
/// comfortably in `u32`.
pub proof fn lemma_transcoded_size_bounded(f: TextureFormat, width: nat, height: nat)
    requires
        width <= MAX_DIM,
        height <= MAX_DIM,
    ensures
        spec_transcoded_size(f, width, height) <= 0x4000_0000,
{
    let s = spec_bytes_per_block_or_pixel(f);
    if spec_is_uncompressed(f) {
        assert(s <= 4);
        assert(width * height * s <= 16384 * 16384 * 4) by (nonlinear_arith)
            requires
                width <= 16384,
                height <= 16384,
                s <= 4,
        ;
    } else {
        let bw = spec_blocks_for(width);
        let bh = spec_blocks_for(height);
        assert(bw <= 4096 && bh <= 4096);
        assert(s <= 16);
        assert(bw * bh * s <= 4096 * 4096 * 16) by (nonlinear_arith)
            requires
                bw <= 4096,
                bh <= 4096,
                s <= 16,
        ;
    }
}

impl TextureFormat {
    /// The format's stable integer code.
    pub fn code(&self) -> (c: u32)
        ensures
            c == spec_format_code(*self),
    {
        match self {
            TextureFormat::Etc1Rgb => 0,
            TextureFormat::Etc2Rgba => 1,
            TextureFormat::Bc1Rgb => 2,
            TextureFormat::Bc3Rgba => 3,
            TextureFormat::Bc4R => 4,
            TextureFormat::Bc5Rg => 5,
            TextureFormat::Bc7Rgba => 6,
            TextureFormat::Pvrtc14Rgb => 8,
            TextureFormat::Pvrtc14Rgba => 9,
            TextureFormat::Astc4x4Rgba => 10,
            TextureFormat::Rgba32 => 13,
            TextureFormat::Rgb565 => 14,
            TextureFormat::Rgba4444 => 16,
        }
    }

    /// Looks a format up by its integer code; `None` for codes outside the
    /// catalog.
    pub fn from_code(code: u32) -> (r: Option<TextureFormat>)
        ensures
            r == spec_format_from_code(code),
    {
        match code {
            0u32 => Some(TextureFormat::Etc1Rgb),
            1u32 => Some(TextureFormat::Etc2Rgba),
            2u32 => Some(TextureFormat::Bc1Rgb),
            3u32 => Some(TextureFormat::Bc3Rgba),
            4u32 => Some(TextureFormat::Bc4R),
            5u32 => Some(TextureFormat::Bc5Rg),
            6u32 => Some(TextureFormat::Bc7Rgba),
            8u32 => Some(TextureFormat::Pvrtc14Rgb),
            9u32 => Some(TextureFormat::Pvrtc14Rgba),
            10u32 => Some(TextureFormat::Astc4x4Rgba),
            13u32 => Some(TextureFormat::Rgba32),
            14u32 => Some(TextureFormat::Rgb565),
            16u32 => Some(TextureFormat::Rgba4444),
            _ => None,
        }
    }

    /// Whether the format is a raw per-pixel encoding.
    pub fn is_uncompressed(&self) -> (r: bool)
        ensures
            r == spec_is_uncompressed(*self),
    {
        matches!(self, TextureFormat::Rgba32 | TextureFormat::Rgb565 | TextureFormat::Rgba4444)
    }

    /// The output stride in bytes: per 4x4 block, or per pixel for
    /// uncompressed formats.
    pub fn bytes_per_block_or_pixel(&self) -> (r: u32)
        ensures
            r == spec_bytes_per_block_or_pixel(*self),
    {
        match self {
            TextureFormat::Etc1Rgb => 8,
            TextureFormat::Etc2Rgba => 16,
            TextureFormat::Bc1Rgb => 8,
            TextureFormat::Bc3Rgba => 16,
            TextureFormat::Bc4R => 8,
            TextureFormat::Bc5Rg => 16,
            TextureFormat::Bc7Rgba => 16,
            TextureFormat::Pvrtc14Rgb => 8,
            TextureFormat::Pvrtc14Rgba => 8,
            TextureFormat::Astc4x4Rgba => 16,
            TextureFormat::Rgba32 => 4,
            TextureFormat::Rgb565 => 2,
            TextureFormat::Rgba4444 => 2,
        }
    }

    /// Whether the three-color-block fallback flag is meaningful for the
    /// format.
    pub fn allows_three_color_blocks(&self) -> (r: bool)
        ensures
            r == spec_allows_three_color_blocks(*self),
    {
        matches!(self, TextureFormat::Bc1Rgb)
    }

    /// Whether the first channel selector feeds the format.
    pub fn uses_channel0(&self) -> (r: bool)
        ensures
            r == spec_uses_channel0(*self),
    {
        matches!(self, TextureFormat::Bc4R | TextureFormat::Bc5Rg)
    }

    /// Whether the second channel selector is honored by the format.
    pub fn uses_channel1(&self) -> (r: bool)
        ensures
            r == spec_uses_channel1(*self),
    {
        matches!(self, TextureFormat::Bc5Rg)
    }

    /// Whether the format carries an alpha channel.
    pub fn has_alpha(&self) -> (r: bool)
        ensures
            r == spec_format_has_alpha(*self),
    {
        matches!(
            self,
            TextureFormat::Etc2Rgba
                | TextureFormat::Bc3Rgba
                | TextureFormat::Bc7Rgba
                | TextureFormat::Pvrtc14Rgba
                | TextureFormat::Astc4x4Rgba
                | TextureFormat::Rgba32
                | TextureFormat::Rgba4444
        )
    }
}

/// Number of 4x4 blocks covering `dim` pixels.
pub fn blocks_for(dim: u32) -> (r: u32)
    requires
        dim <= MAX_DIM,
    ensures
        r == spec_blocks_for(dim as nat),
{
    (dim + 3) / 4
}

/// The exact destination byte count for transcoding a `width` x `height`
/// level into format `f`; see [`spec_transcoded_size`].
pub fn transcoded_size(f: TextureFormat, width: u32, height: u32) -> (r: u32)
    requires
        width <= MAX_DIM,
        height <= MAX_DIM,
    ensures
        r == spec_transcoded_size(f, width as nat, height as nat),
{
    proof {
        lemma_transcoded_size_bounded(f, width as nat, height as nat);
    }
    let stride = f.bytes_per_block_or_pixel();
    if f.is_uncompressed() {
        proof {
            assert((width * height) * stride == width as nat * height as nat * stride)
                by (nonlinear_arith);
            assert(width as nat * height as nat <= 16384 * 16384) by (nonlinear_arith)
                requires
                    width <= 16384,
                    height <= 16384,
            ;
        }
        let area: u64 = (width as u64) * (height as u64);
        ((area * (stride as u64)) as u32)
    } else {
        let bw = blocks_for(width);
        let bh = blocks_for(height);
        proof {
            assert(bw as nat * bh as nat <= 4096 * 4096) by (nonlinear_arith)
                requires
                    bw <= 4096,
                    bh <= 4096,
            ;
        }
        let blocks: u64 = (bw as u64) * (bh as u64);
        ((blocks * (stride as u64)) as u32)
    }
}

} // verus!
