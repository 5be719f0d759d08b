use basis_transcoder::TranscodeError;
use basis_transcoder::engine::Engine;
use basis_transcoder::engine::initialize_basis;
use basis_transcoder::format::TextureFormat;
use basis_transcoder::format::transcoded_size;
use basis_transcoder::slice::transcode_uastc_slice;

fn ready_engine() -> Engine {
    let mut e = Engine::new();
    e.begin_initialize().unwrap();
    initialize_basis(&mut e).unwrap();
    e
}

#[test]
fn format_codes_round_trip() {
    let all_formats = [
        TextureFormat::Etc1Rgb,
        TextureFormat::Etc2Rgba,
        TextureFormat::Bc1Rgb,
        TextureFormat::Bc3Rgba,
        TextureFormat::Bc4R,
        TextureFormat::Bc5Rg,
        TextureFormat::Bc7Rgba,
        TextureFormat::Pvrtc14Rgb,
        TextureFormat::Pvrtc14Rgba,
        TextureFormat::Astc4x4Rgba,
        TextureFormat::Rgba32,
        TextureFormat::Rgb565,
        TextureFormat::Rgba4444,
    ];
    for f in all_formats {
        assert_eq!(TextureFormat::from_code(f.code()), Some(f));
    }
    for code in [7u32, 11, 12, 15, 17, 99, u32::MAX] {
        assert_eq!(TextureFormat::from_code(code), None);
    }
}

#[test]
fn catalog_parameters_match_the_published_formats() {
    assert_eq!(TextureFormat::Bc1Rgb.bytes_per_block_or_pixel(), 8);
    assert_eq!(TextureFormat::Bc3Rgba.bytes_per_block_or_pixel(), 16);
    assert_eq!(TextureFormat::Rgba32.bytes_per_block_or_pixel(), 4);
    assert_eq!(TextureFormat::Rgb565.bytes_per_block_or_pixel(), 2);
    assert!(!TextureFormat::Bc1Rgb.is_uncompressed());
    assert!(TextureFormat::Rgba4444.is_uncompressed());
    assert!(TextureFormat::Etc2Rgba.has_alpha());
    assert!(!TextureFormat::Etc1Rgb.has_alpha());
    assert!(TextureFormat::Astc4x4Rgba.has_alpha());
    assert!(!TextureFormat::Bc5Rg.has_alpha());
    assert!(TextureFormat::Bc1Rgb.allows_three_color_blocks());
    assert!(!TextureFormat::Bc3Rgba.allows_three_color_blocks());
    assert!(TextureFormat::Bc4R.uses_channel0());
    assert!(!TextureFormat::Bc4R.uses_channel1());
    assert!(TextureFormat::Bc5Rg.uses_channel1());
    assert!(!TextureFormat::Etc1Rgb.uses_channel0());
}

#[test]
fn transcoded_size_formula_is_exact() {
    // One partial block column and row still cost a whole block.
    assert_eq!(transcoded_size(TextureFormat::Etc1Rgb, 4, 4), 8);
    assert_eq!(transcoded_size(TextureFormat::Etc1Rgb, 5, 5), 2 * 2 * 8);
    assert_eq!(transcoded_size(TextureFormat::Bc7Rgba, 1, 1), 16);
    assert_eq!(transcoded_size(TextureFormat::Rgba32, 3, 2), 24);
    assert_eq!(transcoded_size(TextureFormat::Rgba4444, 16384, 16384), 16384 * 16384 * 2);
}

#[test]
fn slice_requires_ready_engine() {
    let e = Engine::new();
    let r = transcode_uastc_slice(&e, 32, 2, 2, 64, 0, 8, true, false, 8, 8, 0, 0, 0, 0, 0);
    assert_eq!(r, Err(TranscodeError::EngineNotReady));
}

#[test]
fn slice_happy_path_reports_exact_sizes() {
    let e = ready_engine();
    let req = transcode_uastc_slice(&e, 32, 2, 2, 64, 0, 8, true, false, 8, 8, 0, 0, 0, 0, 0)
        .unwrap();
    assert_eq!(req.required_dst_size, 2 * 2 * 8);
    assert_eq!(req.required_src_size, 2 * 2 * 16);
    assert_eq!(req.format, TextureFormat::Etc1Rgb);
    assert_eq!(req.num_blocks_x, 2);
    assert_eq!(req.num_blocks_y, 2);
}

#[test]
fn slice_undersized_destination_is_rejected() {
    let e = ready_engine();
    let r = transcode_uastc_slice(&e, 31, 2, 2, 64, 0, 8, true, false, 8, 8, 0, 0, 0, 0, 0);
    assert_eq!(r, Err(TranscodeError::TranscodeFailed));
}

#[test]
fn slice_short_source_is_rejected() {
    let e = ready_engine();
    let r = transcode_uastc_slice(&e, 32, 2, 2, 63, 0, 8, true, false, 8, 8, 0, 0, 0, 0, 0);
    assert_eq!(r, Err(TranscodeError::TranscodeFailed));
}

#[test]
fn slice_grid_must_cover_the_pixel_dimensions() {
    let e = ready_engine();
    // 8 pixels need exactly 2 block columns.
    let r = transcode_uastc_slice(&e, 48, 3, 2, 96, 0, 8, true, false, 8, 8, 0, 0, 0, 0, 0);
    assert_eq!(r, Err(TranscodeError::TranscodeFailed));
    // 9 pixels need 3: a partial last column.
    let ok = transcode_uastc_slice(&e, 48, 3, 2, 96, 0, 8, true, false, 9, 8, 0, 0, 0, 0, 0);
    assert!(ok.is_ok());
}

#[test]
fn slice_stride_must_match_the_catalog() {
    let e = ready_engine();
    let r = transcode_uastc_slice(&e, 64, 2, 2, 64, 0, 16, true, false, 8, 8, 0, 0, 0, 0, 0);
    assert_eq!(r, Err(TranscodeError::TranscodeFailed));
}

#[test]
fn slice_bad_format_code_is_rejected() {
    let e = ready_engine();
    let r = transcode_uastc_slice(&e, 64, 2, 2, 64, 7, 8, true, false, 8, 8, 0, 0, 0, 0, 0);
    assert_eq!(r, Err(TranscodeError::TranscodeFailed));
}

#[test]
fn slice_uncompressed_output_uses_pitch_and_row_defaults() {
    let e = ready_engine();
    // 5x3 pixels to raw RGBA: pitch and rows default to the image's own
    // dimensions, 5 * 3 * 4 bytes.
    let req = transcode_uastc_slice(&e, 60, 2, 1, 32, 13, 4, false, true, 5, 3, 0, 0, 0, 0, 0)
        .unwrap();
    assert_eq!(req.required_dst_size, 60);
    // An explicit pitch of 8 pixels widens every row.
    let wide = transcode_uastc_slice(&e, 96, 2, 1, 32, 13, 4, false, true, 5, 3, 8, 0, 0, 0, 0)
        .unwrap();
    assert_eq!(wide.required_dst_size, 8 * 3 * 4);
    let short = transcode_uastc_slice(&e, 60, 2, 1, 32, 13, 4, false, true, 5, 3, 8, 0, 0, 0, 0);
    assert_eq!(short, Err(TranscodeError::TranscodeFailed));
    // A pitch narrower than the image cannot hold it.
    let narrow = transcode_uastc_slice(&e, 96, 2, 1, 32, 13, 4, false, true, 5, 3, 4, 0, 0, 0, 0);
    assert_eq!(narrow, Err(TranscodeError::TranscodeFailed));
}

#[test]
fn slice_channel_selectors_are_validated_for_channel_formats() {
    let e = ready_engine();
    // BC5-style two-channel output of one 4x4 block.
    let ok = transcode_uastc_slice(&e, 16, 1, 1, 16, 5, 16, false, false, 4, 4, 0, 0, 0, 1, 0);
    assert!(ok.is_ok());
    let bad0 = transcode_uastc_slice(&e, 16, 1, 1, 16, 5, 16, false, false, 4, 4, 0, 0, -1, 1, 0);
    assert_eq!(bad0, Err(TranscodeError::TranscodeFailed));
    let bad1 = transcode_uastc_slice(&e, 16, 1, 1, 16, 5, 16, false, false, 4, 4, 0, 0, 0, 5, 0);
    assert_eq!(bad1, Err(TranscodeError::TranscodeFailed));
    // Formats that use no channel selectors ignore them entirely.
    let ignored = transcode_uastc_slice(&e, 8, 1, 1, 16, 0, 8, true, false, 4, 4, 0, 0, -5, 99, 0);
    assert!(ignored.is_ok());
}
