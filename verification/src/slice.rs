//! The stateless slice transcoder: direct transcoding of a raw grid of
//! UASTC-encoded blocks, with no container involved.
//!
//! The caller supplies the exact block-grid dimensions and the pixel
//! dimensions (the last row and column of blocks may be only partially used
//! by a non-block-aligned image). Everything the compiled module would be
//! handed is validated here first: the grid must cover the pixel dimensions
//! exactly, the stride must be the catalog's for the target format, the
//! source must hold the whole block grid, and the destination must be at
//! least the exact output size — an undersized destination is rejected
//! outright, so nothing is ever written out of bounds.

use vstd::prelude::*;

use crate::TranscodeError;
use crate::engine::{Engine, EngineState};
use crate::format::{
    MAX_DIM, TextureFormat, spec_blocks_for, spec_bytes_per_block_or_pixel, spec_format_from_code,
    spec_is_uncompressed, spec_uses_channel0, spec_uses_channel1,
};

verus! {

/// Source granularity of the slice path: every UASTC block is 16 bytes.
pub const UASTC_BLOCK_BYTES: u32 = 16;

/// A fully validated slice transcode: everything the host must hand to the
/// compiled module, produced only by [`transcode_uastc_slice`] once every
/// structural check has passed.
#[derive(Clone, Copy, Debug, PartialEq, Eq, Structural)]
pub struct SliceTranscodeRequest {
    /// Width of the block grid.
    pub num_blocks_x: u32,
    /// Height of the block grid.
    pub num_blocks_y: u32,
    /// The resolved target format.
    pub format: TextureFormat,
    /// Output stride in bytes, per block or per pixel; validated to be the
    /// catalog's stride for the format.
    pub output_block_or_pixel_stride_in_bytes: u32,
    /// Whether three-color-block fallback is allowed; honored only for the
    /// one legacy 4x4 family for which it is meaningful.
    pub bc1_allow_threecolor_blocks: bool,
    /// Whether the source blocks carry alpha data.
    pub has_alpha: bool,
    /// Pixel width of the image the grid encodes.
    pub orig_width: u32,
    /// Pixel height of the image the grid encodes.
    pub orig_height: u32,
    /// Output row pitch in blocks or pixels; zero selects the default for
    /// uncompressed formats and is ignored for block-compressed ones.
    pub output_row_pitch_in_blocks_or_pixels: u32,
    /// Output row count in pixels; zero selects the default for uncompressed
    /// formats and is ignored for block-compressed ones.
    pub output_rows_in_pixels: u32,
    /// Source channel feeding single- and two-channel target formats.
    pub channel0: i32,
    /// Second source channel for two-channel target formats; ignored by
    /// every other format.
    pub channel1: i32,
    /// Bitmask modifying codec behavior; which bits a format honors is the
    /// module's concern and the mask is passed through unchanged.
    pub decode_flags: u32,
    /// The exact destination byte count; the caller's buffer was checked to
    /// be at least this large.
    pub required_dst_size: u32,
    /// The exact source byte count of the block grid; the caller's data was
    /// checked to be at least this large.
    pub required_src_size: u32,
}

/// The exact destination byte count of a slice transcode: the block-grid
/// area times the per-block stride, or — for raw per-pixel formats — the
/// output pitch times the output row count times the per-pixel stride, with
/// a zero pitch or row count defaulting to the image's own dimensions.
pub open spec fn spec_slice_dst_size(
    f: TextureFormat,
    num_blocks_x: nat,
    num_blocks_y: nat,
    row_pitch: nat,
    rows: nat,
    width: nat,
    height: nat,
) -> nat {
    if spec_is_uncompressed(f) {
        let pitch = if row_pitch == 0 {
            width
        } else {
            row_pitch
        };
        let r = if rows == 0 {
            height
        } else {
            rows
        };
        pitch * r * (spec_bytes_per_block_or_pixel(f) as nat)
    } else {
        num_blocks_x * num_blocks_y * (spec_bytes_per_block_or_pixel(f) as nat)
    }
}

/// The exact byte count of the source block grid.
pub open spec fn spec_slice_src_size(num_blocks_x: nat, num_blocks_y: nat) -> nat {
    num_blocks_x * num_blocks_y * (UASTC_BLOCK_BYTES as nat)
}

/// A structurally valid combination of slice parameters: pixel dimensions
/// the catalog can size, a block grid that covers them exactly, the
/// catalog's stride for the target format, output pitch and row count that
/// cover the image when given, and in-range channel selectors where the
/// format uses them.
pub open spec fn spec_slice_params_valid(
    f: TextureFormat,
    num_blocks_x: nat,
    num_blocks_y: nat,
    width: nat,
    height: nat,
    stride: u32,
    row_pitch: nat,
    rows: nat,
    channel0: i32,
    channel1: i32,
) -> bool {
    &&& 1 <= width <= MAX_DIM
    &&& 1 <= height <= MAX_DIM
    &&& num_blocks_x == spec_blocks_for(width)
    &&& num_blocks_y == spec_blocks_for(height)
    &&& stride == spec_bytes_per_block_or_pixel(f)
    &&& spec_is_uncompressed(f) ==> (row_pitch == 0 || (width <= row_pitch <= MAX_DIM)) && (rows
        == 0 || (height <= rows <= MAX_DIM))
    &&& spec_uses_channel0(f) ==> 0 <= channel0 <= 3
    &&& spec_uses_channel1(f) ==> 0 <= channel1 <= 3
}

/// Validates a direct UASTC slice transcode and, only when every structural
/// check holds, hands back the request the host passes to the compiled
/// module.
///
/// The engine must be ready; before that the call has no effect and reports
/// `EngineNotReady`. Any invalid combination of grid, format, stride,
/// channel selectors, source length or destination length — in particular a
/// destination buffer smaller than the exact output size — is rejected with
/// `TranscodeFailed` before the module is ever involved, so a failed
/// validation can never have touched the destination. `dst_len` and
/// `image_data_len` are the lengths of the caller-owned destination buffer
/// and source block data.
pub fn transcode_uastc_slice(
    engine: &Engine,
    dst_len: usize,
    num_blocks_x: u32,
    num_blocks_y: u32,
    image_data_len: usize,
    format: u32,
    output_block_or_pixel_stride_in_bytes: u32,
    bc1_allow_threecolor_blocks: bool,
    has_alpha: bool,
    orig_width: u32,
    orig_height: u32,
    output_row_pitch_in_blocks_or_pixels: u32,
    output_rows_in_pixels: u32,
    channel0: i32,
    channel1: i32,
    decode_flags: u32,
) -> (r: Result<SliceTranscodeRequest, TranscodeError>)
    ensures
        engine.lifecycle() != EngineState::Ready ==> r == Err::<
            SliceTranscodeRequest,
            TranscodeError,
        >(TranscodeError::EngineNotReady),
        engine.lifecycle() == EngineState::Ready ==> r != Err::<
            SliceTranscodeRequest,
            TranscodeError,
        >(TranscodeError::EngineNotReady),
        engine.lifecycle() == EngineState::Ready && spec_format_from_code(format) is None ==> r
            == Err::<SliceTranscodeRequest, TranscodeError>(TranscodeError::TranscodeFailed),
        engine.lifecycle() == EngineState::Ready ==> (spec_format_from_code(format) matches Some(f)
            ==> (if !spec_slice_params_valid(
            f,
            num_blocks_x as nat,
            num_blocks_y as nat,
            orig_width as nat,
            orig_height as nat,
            output_block_or_pixel_stride_in_bytes,
            output_row_pitch_in_blocks_or_pixels as nat,
            output_rows_in_pixels as nat,
            channel0,
            channel1,
        ) || image_data_len < spec_slice_src_size(num_blocks_x as nat, num_blocks_y as nat)
            || dst_len < spec_slice_dst_size(
            f,
            num_blocks_x as nat,
            num_blocks_y as nat,
            output_row_pitch_in_blocks_or_pixels as nat,
            output_rows_in_pixels as nat,
            orig_width as nat,
            orig_height as nat,
        ) {
            r == Err::<SliceTranscodeRequest, TranscodeError>(TranscodeError::TranscodeFailed)
        } else {
            r == Ok::<SliceTranscodeRequest, TranscodeError>(
                SliceTranscodeRequest {
                    num_blocks_x,
                    num_blocks_y,
                    format: f,
                    output_block_or_pixel_stride_in_bytes,
                    bc1_allow_threecolor_blocks,
                    has_alpha,
                    orig_width,
                    orig_height,
                    output_row_pitch_in_blocks_or_pixels,
                    output_rows_in_pixels,
                    channel0,
                    channel1,
                    decode_flags,
                    required_dst_size: spec_slice_dst_size(
                        f,
                        num_blocks_x as nat,
                        num_blocks_y as nat,
                        output_row_pitch_in_blocks_or_pixels as nat,
                        output_rows_in_pixels as nat,
                        orig_width as nat,
                        orig_height as nat,
                    ) as u32,
                    required_src_size: spec_slice_src_size(
                        num_blocks_x as nat,
                        num_blocks_y as nat,
                    ) as u32,
                },
            )
        })),
        r matches Ok(req) ==> dst_len >= req.required_dst_size && image_data_len
            >= req.required_src_size,
{
    if !engine.is_ready() {
        return Err(TranscodeError::EngineNotReady);
    }
    let f = match TextureFormat::from_code(format) {
        Some(f) => f,
        None => {
            return Err(TranscodeError::TranscodeFailed);
        },
    };
    if orig_width < 1 || orig_width > MAX_DIM || orig_height < 1 || orig_height > MAX_DIM {
        return Err(TranscodeError::TranscodeFailed);
    }
    if num_blocks_x != (orig_width + 3) / 4 || num_blocks_y != (orig_height + 3) / 4 {
        return Err(TranscodeError::TranscodeFailed);
    }
    if output_block_or_pixel_stride_in_bytes != f.bytes_per_block_or_pixel() {
        return Err(TranscodeError::TranscodeFailed);
    }
    if f.is_uncompressed() {
        if output_row_pitch_in_blocks_or_pixels != 0 && (output_row_pitch_in_blocks_or_pixels
            < orig_width || output_row_pitch_in_blocks_or_pixels > MAX_DIM) {
            return Err(TranscodeError::TranscodeFailed);
        }
        if output_rows_in_pixels != 0 && (output_rows_in_pixels < orig_height
            || output_rows_in_pixels > MAX_DIM) {
            return Err(TranscodeError::TranscodeFailed);
        }
    }
    if f.uses_channel0() && (channel0 < 0 || channel0 > 3) {
        return Err(TranscodeError::TranscodeFailed);
    }
    if f.uses_channel1() && (channel1 < 0 || channel1 > 3) {
        return Err(TranscodeError::TranscodeFailed);
    }
    proof {
        assert(num_blocks_x as nat * num_blocks_y as nat <= 4096 * 4096) by (nonlinear_arith)
            requires
                num_blocks_x <= 4096,
                num_blocks_y <= 4096,
        ;
    }
    let grid: u64 = (num_blocks_x as u64) * (num_blocks_y as u64);
    let src_size: u64 = grid * (UASTC_BLOCK_BYTES as u64);
    if (image_data_len as u64) < src_size {
        return Err(TranscodeError::TranscodeFailed);
    }
    let stride = output_block_or_pixel_stride_in_bytes;
    let dst_size: u64 = if f.is_uncompressed() {
        let pitch = if output_row_pitch_in_blocks_or_pixels == 0 {
            orig_width
        } else {
            output_row_pitch_in_blocks_or_pixels
        };
        let rows = if output_rows_in_pixels == 0 {
            orig_height
        } else {
            output_rows_in_pixels
        };
        proof {
            assert(pitch as nat * rows as nat <= 16384 * 16384) by (nonlinear_arith)
                requires
                    pitch <= 16384,
                    rows <= 16384,
            ;
        }
        ((pitch as u64) * (rows as u64)) * (stride as u64)
    } else {
        proof {
            assert(grid as nat * stride as nat <= 0x1000000 * 16) by (nonlinear_arith)
                requires
                    grid <= 0x1000000,
                    stride <= 16,
            ;
        }
        grid * (stride as u64)
    };
    if (dst_len as u64) < dst_size {
        return Err(TranscodeError::TranscodeFailed);
    }
    Ok(
        SliceTranscodeRequest {
            num_blocks_x,
            num_blocks_y,
            format: f,
            output_block_or_pixel_stride_in_bytes,
            bc1_allow_threecolor_blocks,
            has_alpha,
            orig_width,
            orig_height,
            output_row_pitch_in_blocks_or_pixels,
            output_rows_in_pixels,
            channel0,
            channel1,
            decode_flags,
            required_dst_size: dst_size as u32,
            required_src_size: src_size as u32,
        },
    )
}

} // verus!
