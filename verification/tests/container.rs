use basis_transcoder::TranscodeError;
use basis_transcoder::container::BasisFile;
use basis_transcoder::container::ContainerDesc;
use basis_transcoder::container::ImageDesc;
use basis_transcoder::container::LevelDesc;
use basis_transcoder::container::finish_transcode_image;
use basis_transcoder::engine::Engine;
use basis_transcoder::engine::initialize_basis;

fn ready_engine() -> Engine {
    let mut e = Engine::new();
    e.begin_initialize().unwrap();
    initialize_basis(&mut e).unwrap();
    e
}

fn desc_of(has_alpha: bool, images: &[&[(u32, u32)]]) -> ContainerDesc {
    let mut out: Vec<ImageDesc> = Vec::new();
    for levels in images {
        let mut lv: Vec<LevelDesc> = Vec::new();
        for &(width, height) in *levels {
            lv.push(LevelDesc { width, height });
        }
        out.push(ImageDesc { levels: lv });
    }
    ContainerDesc { has_alpha, images: out }
}

#[test]
fn create_container_requires_ready_engine() {
    let e = Engine::new();
    let r = BasisFile::new(&e, desc_of(false, &[&[(4, 4)]]));
    assert!(matches!(r, Err(TranscodeError::EngineNotReady)));
}

#[test]
fn two_image_container_reports_two_images() {
    let e = ready_engine();
    let f = BasisFile::new(&e, desc_of(false, &[&[(16, 16), (8, 8)], &[(4, 4)]])).unwrap();
    assert_eq!(f.get_num_images(), Ok(2));
    assert_eq!(f.get_num_levels(0), Ok(2));
    assert_eq!(f.get_num_levels(1), Ok(1));
    assert_eq!(f.get_num_levels(2), Err(TranscodeError::TranscodeFailed));
    assert_eq!(f.get_has_alpha(), Ok(false));
}

#[test]
fn unsizable_descriptions_are_rejected_as_bitstream() {
    let e = ready_engine();
    let no_levels = BasisFile::new(&e, desc_of(false, &[&[]]));
    assert!(matches!(no_levels, Err(TranscodeError::BitstreamRejected)));
    let zero_dim = BasisFile::new(&e, desc_of(false, &[&[(0, 4)]]));
    assert!(matches!(zero_dim, Err(TranscodeError::BitstreamRejected)));
    let oversized = BasisFile::new(&e, desc_of(false, &[&[(4, 16385)]]));
    assert!(matches!(oversized, Err(TranscodeError::BitstreamRejected)));
}

#[test]
fn queries_before_start_are_usage_errors() {
    let e = ready_engine();
    let f = BasisFile::new(&e, desc_of(false, &[&[(16, 16)]])).unwrap();
    assert_eq!(f.get_image_width(0, 0), Err(TranscodeError::TranscodingNotStarted));
    assert_eq!(f.get_image_height(0, 0), Err(TranscodeError::TranscodingNotStarted));
    assert_eq!(
        f.get_image_transcoded_size_in_bytes(0, 0, 2),
        Err(TranscodeError::TranscodingNotStarted)
    );
    assert_eq!(f.get_num_images(), Ok(1));
}

#[test]
fn start_transcoding_is_idempotent_after_success() {
    let e = ready_engine();
    let mut f = BasisFile::new(&e, desc_of(false, &[&[(16, 16)]])).unwrap();
    assert_eq!(f.start_transcoding(true), Ok(true));
    let w = f.get_image_width(0, 0);
    assert_eq!(f.start_transcoding(false), Ok(true));
    assert_eq!(f.start_transcoding(true), Ok(true));
    assert_eq!(f.get_image_width(0, 0), w);
    assert_eq!(w, Ok(16));
}

#[test]
fn start_transcoding_reports_corrupt_bitstream() {
    let e = ready_engine();
    let mut f = BasisFile::new(&e, desc_of(false, &[&[(16, 16)]])).unwrap();
    assert_eq!(f.start_transcoding(false), Ok(false));
    assert_eq!(f.get_image_width(0, 0), Err(TranscodeError::TranscodingNotStarted));
    assert_eq!(f.start_transcoding(true), Ok(true));
    assert_eq!(f.get_image_width(0, 0), Ok(16));
}

#[test]
fn level_queries_report_dimensions() {
    let e = ready_engine();
    let mut f = BasisFile::new(&e, desc_of(true, &[&[(17, 9), (8, 4)]])).unwrap();
    assert_eq!(f.start_transcoding(true), Ok(true));
    assert_eq!(f.get_image_width(0, 0), Ok(17));
    assert_eq!(f.get_image_height(0, 0), Ok(9));
    assert_eq!(f.get_image_width(0, 1), Ok(8));
    assert_eq!(f.get_image_width(0, 2), Err(TranscodeError::TranscodeFailed));
    assert_eq!(f.get_image_width(1, 0), Err(TranscodeError::TranscodeFailed));
}

#[test]
fn transcoded_size_is_exact_and_deterministic() {
    let e = ready_engine();
    let mut f = BasisFile::new(&e, desc_of(false, &[&[(16, 16), (17, 17), (10, 7)]])).unwrap();
    assert_eq!(f.start_transcoding(true), Ok(true));
    // BC1-style: 4x4 blocks of 8 bytes.
    assert_eq!(f.get_image_transcoded_size_in_bytes(0, 0, 2), Ok(4 * 4 * 8));
    // BC3-style on a non-aligned level: 5x5 blocks of 16 bytes.
    assert_eq!(f.get_image_transcoded_size_in_bytes(0, 1, 3), Ok(5 * 5 * 16));
    // Raw RGBA: 4 bytes per pixel.
    assert_eq!(f.get_image_transcoded_size_in_bytes(0, 2, 13), Ok(10 * 7 * 4));
    // Repeated calls with identical arguments return identical values.
    let first = f.get_image_transcoded_size_in_bytes(0, 1, 3);
    let second = f.get_image_transcoded_size_in_bytes(0, 1, 3);
    assert_eq!(first, second);
    // A code outside the catalog is a parameter error.
    assert_eq!(f.get_image_transcoded_size_in_bytes(0, 0, 7), Err(TranscodeError::TranscodeFailed));
    assert_eq!(
        f.get_image_transcoded_size_in_bytes(0, 0, 99),
        Err(TranscodeError::TranscodeFailed)
    );
}

#[test]
fn transcode_accepts_exact_buffer_and_rejects_undersized() {
    let e = ready_engine();
    let mut f = BasisFile::new(&e, desc_of(false, &[&[(16, 16)]])).unwrap();
    assert_eq!(f.start_transcoding(true), Ok(true));
    for &code in &[0u32, 2, 3, 10, 13] {
        let size = f.get_image_transcoded_size_in_bytes(0, 0, code).unwrap() as usize;
        let ok = f.prepare_transcode_image(size, 0, 0, code, 0, false).unwrap();
        assert_eq!(ok.required_size as usize, size);
        let short = f.prepare_transcode_image(size - 1, 0, 0, code, 0, false);
        assert_eq!(short, Err(TranscodeError::TranscodeFailed));
    }
}

#[test]
fn transcode_request_carries_validated_parameters() {
    let e = ready_engine();
    let mut f = BasisFile::new(&e, desc_of(false, &[&[(8, 8)]])).unwrap();
    assert_eq!(f.start_transcoding(true), Ok(true));
    assert_eq!(f.get_has_alpha(), Ok(false));
    // Alpha-capable target on an opaque source, with synthesized opaque
    // alpha requested: the flag rides along unchanged.
    let req = f.prepare_transcode_image(64, 0, 0, 1, 0, true).unwrap();
    assert_eq!(req.image_index, 0);
    assert_eq!(req.level_index, 0);
    assert_eq!(req.required_size, 4 * 16);
    assert!(req.get_alpha_for_opaque_formats);
    assert!(req.format.has_alpha());
    // Bad indices and bad formats are parameter errors.
    assert_eq!(
        f.prepare_transcode_image(64, 1, 0, 1, 0, true),
        Err(TranscodeError::TranscodeFailed)
    );
    assert_eq!(
        f.prepare_transcode_image(64, 0, 0, 11, 0, true),
        Err(TranscodeError::TranscodeFailed)
    );
}

#[test]
fn close_keeps_metadata_but_ends_transcoding() {
    let e = ready_engine();
    let mut f = BasisFile::new(&e, desc_of(true, &[&[(8, 8)]])).unwrap();
    assert_eq!(f.start_transcoding(true), Ok(true));
    assert_eq!(f.close(), Ok(()));
    assert_eq!(f.get_num_images(), Ok(1));
    assert_eq!(f.get_has_alpha(), Ok(true));
    assert_eq!(f.get_image_width(0, 0), Ok(8));
    assert_eq!(
        f.prepare_transcode_image(1024, 0, 0, 1, 0, false),
        Err(TranscodeError::TranscodeFailed)
    );
    assert_eq!(f.close(), Ok(()));
}

#[test]
fn start_after_close_cannot_prepare_decode_state() {
    let e = ready_engine();
    let mut f = BasisFile::new(&e, desc_of(false, &[&[(8, 8)]])).unwrap();
    assert_eq!(f.close(), Ok(()));
    assert_eq!(f.start_transcoding(true), Ok(false));
    assert_eq!(f.get_image_width(0, 0), Err(TranscodeError::TranscodingNotStarted));
}

#[test]
fn every_call_after_release_reports_use_after_release() {
    let e = ready_engine();
    let mut f = BasisFile::new(&e, desc_of(false, &[&[(8, 8)]])).unwrap();
    assert_eq!(f.start_transcoding(true), Ok(true));
    assert_eq!(f.delete(), Ok(()));
    assert_eq!(f.get_num_images(), Err(TranscodeError::UseAfterRelease));
    assert_eq!(f.get_num_levels(0), Err(TranscodeError::UseAfterRelease));
    assert_eq!(f.get_has_alpha(), Err(TranscodeError::UseAfterRelease));
    assert_eq!(f.start_transcoding(true), Err(TranscodeError::UseAfterRelease));
    assert_eq!(f.get_image_width(0, 0), Err(TranscodeError::UseAfterRelease));
    assert_eq!(f.get_image_height(0, 0), Err(TranscodeError::UseAfterRelease));
    assert_eq!(
        f.get_image_transcoded_size_in_bytes(0, 0, 2),
        Err(TranscodeError::UseAfterRelease)
    );
    assert_eq!(
        f.prepare_transcode_image(1024, 0, 0, 2, 0, false),
        Err(TranscodeError::UseAfterRelease)
    );
    assert_eq!(f.close(), Err(TranscodeError::UseAfterRelease));
    assert_eq!(f.delete(), Err(TranscodeError::UseAfterRelease));
}

#[test]
fn module_status_maps_to_transcode_result() {
    assert_eq!(finish_transcode_image(1), Ok(()));
    assert_eq!(finish_transcode_image(42), Ok(()));
    assert_eq!(finish_transcode_image(0), Err(TranscodeError::TranscodeFailed));
}
