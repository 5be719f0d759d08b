//! The parsed-container object: per-image/per-level queries, whole-image
//! transcode preparation, and the explicit close/release discipline.
//!
//! A [`BasisFile`] models one parsed container: the metadata the compiled
//! module reported at parse time (image count, mip chains, pixel dimensions,
//! the container-wide alpha flag) held as plain values, together with the
//! decode-state flags every call is gated on. The pixel work itself stays
//! with the module; what is verified here is that every query and transcode
//! is answered exactly as the metadata and the format catalog dictate, that
//! no operation ever sanctions a destination buffer smaller than the exact
//! reported size, and that a released container rejects every further call.

use vstd::prelude::*;

use crate::TranscodeError;
use crate::engine::{Engine, EngineState};
use crate::format::{
    MAX_DIM, TextureFormat, spec_format_from_code, spec_transcoded_size, transcoded_size,
};

verus! {

/// Pixel dimensions of one mip level.
#[derive(Clone, Copy, Debug, PartialEq, Eq, Structural)]
pub struct LevelDesc {
    /// Width of the level in pixels.
    pub width: u32,
    /// Height of the level in pixels.
    pub height: u32,
}

/// One image of a container: its mip chain, full resolution first.
#[derive(Debug)]
pub struct ImageDesc {
    /// The image's mip levels, indexed from level 0 downward.
    pub levels: Vec<LevelDesc>,
}

/// The metadata of one parsed container, as reported by the compiled module
/// at parse time.
#[derive(Debug)]
pub struct ContainerDesc {
    /// Whether any image in the container carries alpha data.
    pub has_alpha: bool,
    /// The container's images.
    pub images: Vec<ImageDesc>,
}

/// A level the catalog can size: nonzero dimensions within the catalog's
/// bound.
pub open spec fn spec_level_valid(lv: LevelDesc) -> bool {
    &&& 1 <= lv.width <= MAX_DIM
    &&& 1 <= lv.height <= MAX_DIM
}

/// An image with at least one level, every level sizable, and a level count
/// that fits the query result type.
pub open spec fn spec_image_valid(img: ImageDesc) -> bool {
    &&& 1 <= img.levels@.len() <= u32::MAX
    &&& forall|l: int| 0 <= l < img.levels@.len() ==> spec_level_valid(#[trigger] img.levels@[l])
}

/// A well-formed container description: every image valid and an image count
/// that fits the query result type.
pub open spec fn spec_desc_valid(images: Seq<ImageDesc>) -> bool {
    &&& images.len() <= u32::MAX
    &&& forall|i: int| 0 <= i < images.len() ==> spec_image_valid(#[trigger] images[i])
}

/// Whether `(i, l)` names a level of the container.
pub open spec fn spec_indices_ok(images: Seq<ImageDesc>, i: int, l: int) -> bool {
    &&& 0 <= i < images.len()
    &&& 0 <= l < images[i].levels@.len()
}

/// The level named by `(i, l)`.
pub open spec fn spec_level_at(images: Seq<ImageDesc>, i: int, l: int) -> LevelDesc {
    images[i].levels@[l]
}

/// A fully validated whole-image transcode: everything the host must hand to
/// the compiled module, produced only by [`BasisFile::prepare_transcode_image`]
/// once every structural check has passed.
#[derive(Clone, Copy, Debug, PartialEq, Eq, Structural)]
pub struct TranscodeImageRequest {
    /// The validated image index.
    pub image_index: u32,
    /// The validated level index.
    pub level_index: u32,
    /// The resolved target format.
    pub format: TextureFormat,
    /// The exact destination byte count for this level and format; the
    /// caller's buffer was checked to be at least this large.
    pub required_size: u32,
    /// Whether to synthesize a fully-opaque alpha channel when the target
    /// format carries alpha but the source image has none.
    pub get_alpha_for_opaque_formats: bool,
}

/// Checks a parsed image description against [`spec_image_valid`].
fn image_valid(img: &ImageDesc) -> (r: bool)
    ensures
        r == spec_image_valid(*img),
{
    if img.levels.len() < 1 || img.levels.len() > u32::MAX as usize {
        return false;
    }
    let mut l: usize = 0;
    while l < img.levels.len()
        invariant
            l <= img.levels@.len(),
            forall|k: int| 0 <= k < l ==> spec_level_valid(#[trigger] img.levels@[k]),
        decreases img.levels@.len() - l,
    {
        let lv = img.levels[l];
        if lv.width < 1 || lv.width > MAX_DIM || lv.height < 1 || lv.height > MAX_DIM {
            return false;
        }
        l = l + 1;
    }
    true
}

/// Checks a parsed container description against [`spec_desc_valid`].
fn desc_valid(images: &Vec<ImageDesc>) -> (r: bool)
    ensures
        r == spec_desc_valid(images@),
{
    if images.len() > u32::MAX as usize {
        return false;
    }
    let mut i: usize = 0;
    while i < images.len()
        invariant
            i <= images@.len(),
            forall|k: int| 0 <= k < i ==> spec_image_valid(#[trigger] images@[k]),
        decreases images@.len() - i,
    {
        if !image_valid(&images[i]) {
            return false;
        }
        i = i + 1;
    }
    true
}

/// One parsed container and its decode-state flags.
pub struct BasisFile {
    images: Vec<ImageDesc>,
    has_alpha: bool,
    started: bool,
    closed: bool,
    released: bool,
}

impl BasisFile {
    /// The container's images as reported at parse time.
    pub closed spec fn spec_images(&self) -> Seq<ImageDesc> {
        self.images@
    }

    /// The container-wide alpha flag, fixed at parse time.
    pub closed spec fn spec_has_alpha(&self) -> bool {
        self.has_alpha
    }

    /// Whether decode-state preparation has succeeded.
    pub closed spec fn spec_started(&self) -> bool {
        self.started
    }

    /// Whether the internal decode state was released by [`BasisFile::close`].
    pub closed spec fn spec_closed(&self) -> bool {
        self.closed
    }

    /// Whether the container was released by [`BasisFile::delete`].
    pub closed spec fn spec_released(&self) -> bool {
        self.released
    }

    /// Well-formedness: the metadata passed validation at construction.
    pub open spec fn wf(&self) -> bool {
        spec_desc_valid(self.spec_images())
    }

    /// Whether decode-state preparation has succeeded; see
    /// [`BasisFile::start_transcoding`].
    pub fn is_started(&self) -> (r: bool)
        ensures
            r == self.spec_started(),
    {
        self.started
    }

    /// Whether the decode state was released by [`BasisFile::close`].
    pub fn is_closed(&self) -> (r: bool)
        ensures
            r == self.spec_closed(),
    {
        self.closed
    }

    /// Whether the container was released by [`BasisFile::delete`].
    pub fn is_released(&self) -> (r: bool)
        ensures
            r == self.spec_released(),
    {
        self.released
    }

    /// Parses a container from the module-reported metadata, gated on the
    /// engine being ready.
    ///
    /// With the engine not ready the description is not even looked at:
    /// `EngineNotReady`, the usage error, comes back. A description the
    /// catalog cannot size (an image with no levels, a zero or oversized
    /// dimension, counts past `u32`) is `BitstreamRejected`. Otherwise the
    /// container starts its life unstarted, unclosed and unreleased.
    pub fn new(engine: &Engine, desc: ContainerDesc) -> (r: Result<BasisFile, TranscodeError>)
        ensures
            engine.lifecycle() != EngineState::Ready ==> r == Err::<BasisFile, TranscodeError>(
                TranscodeError::EngineNotReady,
            ),
            engine.lifecycle() == EngineState::Ready ==> r != Err::<BasisFile, TranscodeError>(
                TranscodeError::EngineNotReady,
            ),
            engine.lifecycle() == EngineState::Ready && !spec_desc_valid(desc.images@) ==> r
                == Err::<BasisFile, TranscodeError>(TranscodeError::BitstreamRejected),
            engine.lifecycle() == EngineState::Ready && spec_desc_valid(desc.images@) ==> (r
                matches Ok(f) && f.spec_images() == desc.images@ && f.spec_has_alpha()
                == desc.has_alpha && !f.spec_started() && !f.spec_closed() && !f.spec_released()
                && f.wf()),
    {
        if !engine.is_ready() {
            return Err(TranscodeError::EngineNotReady);
        }
        if !desc_valid(&desc.images) {
            return Err(TranscodeError::BitstreamRejected);
        }
        Ok(
            BasisFile {
                images: desc.images,
                has_alpha: desc.has_alpha,
                started: false,
                closed: false,
                released: false,
            },
        )
    }

    /// Total number of independent images in the container.
    pub fn get_num_images(&self) -> (r: Result<u32, TranscodeError>)
        requires
            self.wf(),
        ensures
            self.spec_released() ==> r == Err::<u32, TranscodeError>(
                TranscodeError::UseAfterRelease,
            ),
            !self.spec_released() ==> r == Ok::<u32, TranscodeError>(
                self.spec_images().len() as u32,
            ),
    {
        if self.released {
            return Err(TranscodeError::UseAfterRelease);
        }
        Ok(self.images.len() as u32)
    }

    /// Mip-level count of one image; an out-of-range image index is a
    /// parameter error.
    pub fn get_num_levels(&self, image_index: u32) -> (r: Result<u32, TranscodeError>)
        requires
            self.wf(),
        ensures
            self.spec_released() ==> r == Err::<u32, TranscodeError>(
                TranscodeError::UseAfterRelease,
            ),
            !self.spec_released() && image_index >= self.spec_images().len() ==> r == Err::<
                u32,
                TranscodeError,
            >(TranscodeError::TranscodeFailed),
            !self.spec_released() && image_index < self.spec_images().len() ==> r == Ok::<
                u32,
                TranscodeError,
            >(self.spec_images()[image_index as int].levels@.len() as u32),
    {
        if self.released {
            return Err(TranscodeError::UseAfterRelease);
        }
        if image_index as usize >= self.images.len() {
            return Err(TranscodeError::TranscodeFailed);
        }
        Ok(self.images[image_index as usize].levels.len() as u32)
    }

    /// The container-wide alpha presence flag, fixed at parse time.
    pub fn get_has_alpha(&self) -> (r: Result<bool, TranscodeError>)
        requires
            self.wf(),
        ensures
            self.spec_released() ==> r == Err::<bool, TranscodeError>(
                TranscodeError::UseAfterRelease,
            ),
            !self.spec_released() ==> r == Ok::<bool, TranscodeError>(self.spec_has_alpha()),
    {
        if self.released {
            return Err(TranscodeError::UseAfterRelease);
        }
        Ok(self.has_alpha)
    }

    /// Prepares the container's internal decode state.
    ///
    /// `decode_ready` is the compiled module's verdict on this container's
    /// bitstream: `false` means corrupt or unsupported, and `Ok(false)` here
    /// reports exactly that rejection. After the first success the call is
    /// idempotent: it returns `Ok(true)` and changes nothing, so every
    /// subsequent query answers as before. Once [`BasisFile::close`] has
    /// released the decode state a fresh preparation is impossible and an
    /// unstarted container answers `Ok(false)`.
    pub fn start_transcoding(&mut self, decode_ready: bool) -> (r: Result<bool, TranscodeError>)
        requires
            old(self).wf(),
        ensures
            final(self).wf(),
            old(self).spec_released() ==> (*final(self) == *old(self) && r == Err::<
                bool,
                TranscodeError,
            >(TranscodeError::UseAfterRelease)),
            !old(self).spec_released() && old(self).spec_started() ==> (*final(self) == *old(self)
                && r == Ok::<bool, TranscodeError>(true)),
            !old(self).spec_released() && !old(self).spec_started() && old(self).spec_closed()
                ==> (*final(self) == *old(self) && r == Ok::<bool, TranscodeError>(false)),
            !old(self).spec_released() && !old(self).spec_started() && !old(self).spec_closed()
                ==> (r == Ok::<bool, TranscodeError>(decode_ready)
                && final(self).spec_started() == decode_ready
                && final(self).spec_images() == old(self).spec_images()
                && final(self).spec_has_alpha() == old(self).spec_has_alpha()
                && !final(self).spec_closed()
                && !final(self).spec_released()),
    {
        if self.released {
            return Err(TranscodeError::UseAfterRelease);
        }
        if self.started {
            return Ok(true);
        }
        if self.closed {
            return Ok(false);
        }
        self.started = decode_ready;
        Ok(decode_ready)
    }

    /// Pixel width of one level; legal only after decode-state preparation
    /// succeeded.
    pub fn get_image_width(&self, image_index: u32, level_index: u32) -> (r: Result<
        u32,
        TranscodeError,
    >)
        requires
            self.wf(),
        ensures
            self.spec_released() ==> r == Err::<u32, TranscodeError>(
                TranscodeError::UseAfterRelease,
            ),
            !self.spec_released() && !self.spec_started() ==> r == Err::<u32, TranscodeError>(
                TranscodeError::TranscodingNotStarted,
            ),
            !self.spec_released() && self.spec_started() && !spec_indices_ok(
                self.spec_images(),
                image_index as int,
                level_index as int,
            ) ==> r == Err::<u32, TranscodeError>(TranscodeError::TranscodeFailed),
            !self.spec_released() && self.spec_started() && spec_indices_ok(
                self.spec_images(),
                image_index as int,
                level_index as int,
            ) ==> r == Ok::<u32, TranscodeError>(
                spec_level_at(self.spec_images(), image_index as int, level_index as int).width,
            ),
    {
        match self.level_at(image_index, level_index) {
            Ok(lv) => Ok(lv.width),
            Err(e) => Err(e),
        }
    }

    /// Pixel height of one level; legal only after decode-state preparation
    /// succeeded.
    pub fn get_image_height(&self, image_index: u32, level_index: u32) -> (r: Result<
        u32,
        TranscodeError,
    >)
        requires
            self.wf(),
        ensures
            self.spec_released() ==> r == Err::<u32, TranscodeError>(
                TranscodeError::UseAfterRelease,
            ),
            !self.spec_released() && !self.spec_started() ==> r == Err::<u32, TranscodeError>(
                TranscodeError::TranscodingNotStarted,
            ),
            !self.spec_released() && self.spec_started() && !spec_indices_ok(
                self.spec_images(),
                image_index as int,
                level_index as int,
            ) ==> r == Err::<u32, TranscodeError>(TranscodeError::TranscodeFailed),
            !self.spec_released() && self.spec_started() && spec_indices_ok(
                self.spec_images(),
                image_index as int,
                level_index as int,
            ) ==> r == Ok::<u32, TranscodeError>(
                spec_level_at(self.spec_images(), image_index as int, level_index as int).height,
            ),
    {
        match self.level_at(image_index, level_index) {
            Ok(lv) => Ok(lv.height),
            Err(e) => Err(e),
        }
    }

    /// The shared gate of the per-level queries: released, then unstarted,
    /// then out-of-range indices, then the level itself.
    fn level_at(&self, image_index: u32, level_index: u32) -> (r: Result<
        LevelDesc,
        TranscodeError,
    >)
        requires
            self.wf(),
        ensures
            self.spec_released() ==> r == Err::<LevelDesc, TranscodeError>(
                TranscodeError::UseAfterRelease,
            ),
            !self.spec_released() && !self.spec_started() ==> r == Err::<
                LevelDesc,
                TranscodeError,
            >(TranscodeError::TranscodingNotStarted),
            !self.spec_released() && self.spec_started() && !spec_indices_ok(
                self.spec_images(),
                image_index as int,
                level_index as int,
            ) ==> r == Err::<LevelDesc, TranscodeError>(TranscodeError::TranscodeFailed),
            !self.spec_released() && self.spec_started() && spec_indices_ok(
                self.spec_images(),
                image_index as int,
                level_index as int,
            ) ==> r == Ok::<LevelDesc, TranscodeError>(
                spec_level_at(self.spec_images(), image_index as int, level_index as int),
            ),
    {
        if self.released {
            return Err(TranscodeError::UseAfterRelease);
        }
        if !self.started {
            return Err(TranscodeError::TranscodingNotStarted);
        }
        if image_index as usize >= self.images.len() {
            return Err(TranscodeError::TranscodeFailed);
        }
        let img = &self.images[image_index as usize];
        if level_index as usize >= img.levels.len() {
            return Err(TranscodeError::TranscodeFailed);
        }
        Ok(img.levels[level_index as usize])
    }

    /// The exact byte count a destination buffer must have for a successful
    /// transcode of `(image_index, level_index)` into the format named by
    /// `format`: the catalog's block or pixel rule applied to the level's
    /// dimensions, not an approximation. The result is a function of the
    /// container's parse-time metadata and the arguments alone, so repeated
    /// calls with identical arguments return identical values.
    pub fn get_image_transcoded_size_in_bytes(
        &self,
        image_index: u32,
        level_index: u32,
        format: u32,
    ) -> (r: Result<u32, TranscodeError>)
        requires
            self.wf(),
        ensures
            self.spec_released() ==> r == Err::<u32, TranscodeError>(
                TranscodeError::UseAfterRelease,
            ),
            !self.spec_released() && !self.spec_started() ==> r == Err::<u32, TranscodeError>(
                TranscodeError::TranscodingNotStarted,
            ),
            !self.spec_released() && self.spec_started() && !spec_indices_ok(
                self.spec_images(),
                image_index as int,
                level_index as int,
            ) ==> r == Err::<u32, TranscodeError>(TranscodeError::TranscodeFailed),
            !self.spec_released() && self.spec_started() && spec_indices_ok(
                self.spec_images(),
                image_index as int,
                level_index as int,
            ) && spec_format_from_code(format) is None ==> r == Err::<u32, TranscodeError>(
                TranscodeError::TranscodeFailed,
            ),
            !self.spec_released() && self.spec_started() && spec_indices_ok(
                self.spec_images(),
                image_index as int,
                level_index as int,
            ) ==> (spec_format_from_code(format) matches Some(f) ==> r == Ok::<
                u32,
                TranscodeError,
            >(
                spec_transcoded_size(
                    f,
                    spec_level_at(
                        self.spec_images(),
                        image_index as int,
                        level_index as int,
                    ).width as nat,
                    spec_level_at(
                        self.spec_images(),
                        image_index as int,
                        level_index as int,
                    ).height as nat,
                ) as u32,
            )),
    {
        let lv = match self.level_at(image_index, level_index) {
            Ok(lv) => lv,
            Err(e) => {
                return Err(e);
            },
        };
        let f = match TextureFormat::from_code(format) {
            Some(f) => f,
            None => {
                return Err(TranscodeError::TranscodeFailed);
            },
        };
        proof {
            assert(spec_level_valid(
                spec_level_at(self.spec_images(), image_index as int, level_index as int),
            ));
        }
        Ok(transcoded_size(f, lv.width, lv.height))
    }

    /// Validates a whole-image transcode and, only when every structural
    /// check holds, hands back the request the host passes to the compiled
    /// module.
    ///
    /// `dst_len` is the caller-owned destination buffer's length; a request
    /// is produced only when it is at least the exact reported size for the
    /// level and format, so a successful transcode can never have been
    /// written past the buffer's bounds. `unused` is a reserved parameter
    /// kept for call-compatibility; it has no documented meaning and no
    /// effect here. After [`BasisFile::close`] the decode state is gone and
    /// every transcode is a parameter error.
    pub fn prepare_transcode_image(
        &self,
        dst_len: usize,
        image_index: u32,
        level_index: u32,
        format: u32,
        unused: u32,
        get_alpha_for_opaque_formats: bool,
    ) -> (r: Result<TranscodeImageRequest, TranscodeError>)
        requires
            self.wf(),
        ensures
            self.spec_released() ==> r == Err::<TranscodeImageRequest, TranscodeError>(
                TranscodeError::UseAfterRelease,
            ),
            !self.spec_released() && !self.spec_started() ==> r == Err::<
                TranscodeImageRequest,
                TranscodeError,
            >(TranscodeError::TranscodingNotStarted),
            !self.spec_released() && self.spec_started() && self.spec_closed() ==> r == Err::<
                TranscodeImageRequest,
                TranscodeError,
            >(TranscodeError::TranscodeFailed),
            !self.spec_released() && self.spec_started() && !self.spec_closed()
                && !spec_indices_ok(self.spec_images(), image_index as int, level_index as int)
                ==> r == Err::<TranscodeImageRequest, TranscodeError>(
                TranscodeError::TranscodeFailed,
            ),
            !self.spec_released() && self.spec_started() && !self.spec_closed() && spec_indices_ok(
                self.spec_images(),
                image_index as int,
                level_index as int,
            ) && spec_format_from_code(format) is None ==> r == Err::<
                TranscodeImageRequest,
                TranscodeError,
            >(TranscodeError::TranscodeFailed),
            !self.spec_released() && self.spec_started() && !self.spec_closed() && spec_indices_ok(
                self.spec_images(),
                image_index as int,
                level_index as int,
            ) ==> (spec_format_from_code(format) matches Some(f) ==> (dst_len
                < spec_transcoded_size(
                f,
                spec_level_at(self.spec_images(), image_index as int, level_index as int).width
                    as nat,
                spec_level_at(self.spec_images(), image_index as int, level_index as int).height
                    as nat,
            ) ==> r == Err::<TranscodeImageRequest, TranscodeError>(
                TranscodeError::TranscodeFailed,
            ))),
            !self.spec_released() && self.spec_started() && !self.spec_closed() && spec_indices_ok(
                self.spec_images(),
                image_index as int,
                level_index as int,
            ) ==> (spec_format_from_code(format) matches Some(f) ==> (dst_len
                >= spec_transcoded_size(
                f,
                spec_level_at(self.spec_images(), image_index as int, level_index as int).width
                    as nat,
                spec_level_at(self.spec_images(), image_index as int, level_index as int).height
                    as nat,
            ) ==> r == Ok::<TranscodeImageRequest, TranscodeError>(
                TranscodeImageRequest {
                    image_index,
                    level_index,
                    format: f,
                    required_size: spec_transcoded_size(
                        f,
                        spec_level_at(
                            self.spec_images(),
                            image_index as int,
                            level_index as int,
                        ).width as nat,
                        spec_level_at(
                            self.spec_images(),
                            image_index as int,
                            level_index as int,
                        ).height as nat,
                    ) as u32,
                    get_alpha_for_opaque_formats,
                },
            ))),
            r matches Ok(req) ==> dst_len >= req.required_size && req.required_size
                == spec_transcoded_size(
                req.format,
                spec_level_at(self.spec_images(), req.image_index as int, req.level_index as int)
                    .width as nat,
                spec_level_at(self.spec_images(), req.image_index as int, req.level_index as int)
                    .height as nat,
            ),
    {
        if self.released {
            return Err(TranscodeError::UseAfterRelease);
        }
        if !self.started {
            return Err(TranscodeError::TranscodingNotStarted);
        }
        if self.closed {
            return Err(TranscodeError::TranscodeFailed);
        }
        if image_index as usize >= self.images.len() {
            return Err(TranscodeError::TranscodeFailed);
        }
        let img = &self.images[image_index as usize];
        if level_index as usize >= img.levels.len() {
            return Err(TranscodeError::TranscodeFailed);
        }
        let lv = img.levels[level_index as usize];
        let f = match TextureFormat::from_code(format) {
            Some(f) => f,
            None => {
                return Err(TranscodeError::TranscodeFailed);
            },
        };
        let size = transcoded_size(f, lv.width, lv.height);
        if dst_len < size as usize {
            return Err(TranscodeError::TranscodeFailed);
        }
        Ok(
            TranscodeImageRequest {
                image_index,
                level_index,
                format: f,
                required_size: size,
                get_alpha_for_opaque_formats,
            },
        )
    }

    /// Releases the internal decode state while keeping the handle valid for
    /// the metadata queries that do not need it. Idempotent.
    pub fn close(&mut self) -> (r: Result<(), TranscodeError>)
        requires
            old(self).wf(),
        ensures
            final(self).wf(),
            old(self).spec_released() ==> (*final(self) == *old(self) && r == Err::<
                (),
                TranscodeError,
            >(TranscodeError::UseAfterRelease)),
            !old(self).spec_released() ==> (r == Ok::<(), TranscodeError>(())
                && final(self).spec_closed()
                && final(self).spec_images() == old(self).spec_images()
                && final(self).spec_has_alpha() == old(self).spec_has_alpha()
                && final(self).spec_started() == old(self).spec_started()
                && !final(self).spec_released()),
    {
        if self.released {
            return Err(TranscodeError::UseAfterRelease);
        }
        self.closed = true;
        Ok(())
    }

    /// Releases all of the container's resources. The handle becomes
    /// invalid: every subsequent call on it, this one included, reports
    /// `UseAfterRelease` rather than silently doing nothing.
    pub fn delete(&mut self) -> (r: Result<(), TranscodeError>)
        requires
            old(self).wf(),
        ensures
            final(self).wf(),
            old(self).spec_released() ==> (*final(self) == *old(self) && r == Err::<
                (),
                TranscodeError,
            >(TranscodeError::UseAfterRelease)),
            !old(self).spec_released() ==> (r == Ok::<(), TranscodeError>(())
                && final(self).spec_released()
                && final(self).spec_closed()),
    {
        if self.released {
            return Err(TranscodeError::UseAfterRelease);
        }
        self.closed = true;
        self.released = true;
        Ok(())
    }
}

/// Maps the compiled module's whole-image transcode status to the
/// container-path result: the module signals success with any nonzero
/// status, and a zero status means the destination contents are undefined
/// and the transcode failed.
pub fn finish_transcode_image(status: u32) -> (r: Result<(), TranscodeError>)
    ensures
        status != 0 ==> r == Ok::<(), TranscodeError>(()),
        status == 0 ==> r == Err::<(), TranscodeError>(TranscodeError::TranscodeFailed),
{
    if status != 0 {
        Ok(())
    } else {
        Err(TranscodeError::TranscodeFailed)
    }
}

} // verus!
