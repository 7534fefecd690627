//! The derivative writer: the artifacts of one poster and the order in which
//! they come to be.
//!
//! A poster passes through six states, each a type of its own: `Decoded`,
//! `FullresReady`, `FullresPersisted`, `Resized`, `ThumbnailReady` and
//! `ThumbnailPersisted`. A state is reached only from the one before it, so
//! the full-resolution artifact is always made of the image as it was
//! decoded, before the resize that replaces it, and no stage is passed
//! without its artifact. The library computes what has to be written;
//! writing it, and telling the library that it was written, is the caller's
//! part.

use vstd::prelude::*;
use crate::base83::is_base83_text;
use crate::codec::{
    decode, decode_outcome, decoded_image, decodes_to_size, encode, encoded, fits_webp,
    resized_raster, ImageFormat, PipelineError, PixelBuffer, Raster, Stage,
};
use crate::placeholder::{
    accent_of, accent_swatch, body_of, body_part, compute_placeholder, is_body, placeholder_of,
    swatches_of, SEPARATOR,
};
use crate::text::opt_view;
use crate::types::CachedImage;

verus! {

/// The folder of full-resolution artifacts, below the cache root.
pub const FULLRES_FOLDER: &'static str = "fullres";

/// The folder of thumbnails, below the cache root.
pub const THUMBNAIL_FOLDER: &'static str = "310x468";

/// The folder of presenter images, below the cache root.
pub const PRESENTER_FOLDER: &'static str = "pre";

/// The extension of every artifact.
pub const ARTIFACT_EXTENSION: &'static str = ".webp";

/// The width of a thumbnail.
pub const THUMBNAIL_WIDTH: u32 = 310;

/// The height of a thumbnail.
pub const THUMBNAIL_HEIGHT: u32 = 468;

/// The quality at which the full-resolution artifact is encoded, lossless.
pub const FULLRES_QUALITY: u8 = 100;

/// The quality at which a thumbnail is encoded, lossy.
pub const THUMBNAIL_QUALITY: u8 = 80;

/// A file to write: its path below the cache root and its content.
#[derive(Debug, Clone)]
pub struct Artifact {
    pub path: String,
    pub bytes: Vec<u8>,
}

/// The path of the artifact of `key` in `folder`: `{folder}/{key}.webp`.
pub open spec fn artifact_path(folder: Seq<char>, key: Seq<char>) -> Seq<char> {
    folder.push('/') + key + ARTIFACT_EXTENSION@
}

/// Builds the path of an artifact below the cache root.
pub fn path_in(folder: &str, key: &str) -> (path: String)
    ensures
        path@ == artifact_path(folder@, key@),
{
    let mut path = String::from_str(folder);
    path.push('/');
    path.append(key);
    path.append(ARTIFACT_EXTENSION);
    path
}

/// The path of the full-resolution artifact of `key`, below the cache root.
pub fn get_fullres_path(key: &str) -> (path: String)
    ensures
        path@ == artifact_path(FULLRES_FOLDER@, key@),
{
    path_in(FULLRES_FOLDER, key)
}

/// The path of the thumbnail of `key`, below the cache root.
pub fn get_thumbnail_path(key: &str) -> (path: String)
    ensures
        path@ == artifact_path(THUMBNAIL_FOLDER@, key@),
{
    path_in(THUMBNAIL_FOLDER, key)
}

/// The path of the presenter image of `key`, below the cache root.
pub fn get_presenter_path(key: &str) -> (path: String)
    ensures
        path@ == artifact_path(PRESENTER_FOLDER@, key@),
{
    path_in(PRESENTER_FOLDER, key)
}

/// The image of a thumbnail's size that the resize makes of `image`.
pub open spec fn thumbnail_of(image: Raster) -> Raster {
    resized_raster(image, THUMBNAIL_WIDTH as nat, THUMBNAIL_HEIGHT as nat)
}

/// The file of the full-resolution artifact of an image, if it encodes.
pub open spec fn fullres_file(image: Raster) -> Option<Seq<u8>> {
    encoded(image, FULLRES_QUALITY, true)
}

/// The file of the thumbnail artifact of a thumbnail, if it encodes.
pub open spec fn thumbnail_file(thumbnail: Raster) -> Option<Seq<u8>> {
    encoded(thumbnail, THUMBNAIL_QUALITY, false)
}

/// The placeholder of an upload that decodes: that of the thumbnail of the
/// image that the bytes give.
pub open spec fn placeholder_of_upload(bytes: Seq<u8>, format: ImageFormat) -> Seq<char> {
    placeholder_of(thumbnail_of(decoded_image(bytes, format).unwrap()))
}

/// A poster that was decoded and of which nothing is stored yet.
pub struct Decoded {
    key: String,
    buffer: PixelBuffer,
}

/// A poster whose full-resolution artifact is made and waits to be written.
pub struct FullresReady {
    key: String,
    buffer: PixelBuffer,
    artifact: Artifact,
}

/// A poster whose full-resolution artifact is stored.
pub struct FullresPersisted {
    key: String,
    buffer: PixelBuffer,
}

/// A poster whose full-resolution artifact is stored and whose image has been
/// resized to a thumbnail.
pub struct Resized {
    key: String,
    buffer: PixelBuffer,
    source: Ghost<Raster>,
}

/// A poster whose thumbnail artifact is made and waits to be written.
pub struct ThumbnailReady {
    key: String,
    buffer: PixelBuffer,
    source: Ghost<Raster>,
    artifact: Artifact,
}

/// A poster whose two artifacts are stored.
pub struct ThumbnailPersisted {
    key: String,
    placeholder: String,
    source: Ghost<Raster>,
}

impl Decoded {
    /// The cache key of the poster.
    pub closed spec fn key(&self) -> Seq<char> {
        self.key@
    }

    /// The image as it was uploaded.
    pub closed spec fn image(&self) -> Raster {
        self.buffer@
    }

    /// Takes up an upload under a cache key.
    ///
    /// A content type other than `image/webp` and `image/png` is refused as
    /// `UnsupportedFormat` before the bytes are looked at. Bytes that give no
    /// image of the declared format are a `CorruptImage`. Every other upload
    /// is taken up with the image that its bytes give.
    pub fn open(key: String, content_type: Option<&str>, bytes: &Vec<u8>) -> (r: Result<
        Decoded,
        PipelineError,
    >)
        ensures
            match decode_outcome(bytes@, opt_view(content_type)) {
                Ok(image) => r matches Ok(poster) && poster.key() == key@ && poster.image()
                    == image,
                Err(e) => r matches Err(x) && x == e,
            },
    {
        match decode(bytes, content_type) {
            Ok(buffer) => Ok(Decoded { key, buffer }),
            Err(e) => Err(e),
        }
    }

    /// The width of the uploaded image.
    pub fn width(&self) -> (w: u32)
        ensures
            w == self.image().width,
    {
        self.buffer.width()
    }

    /// The height of the uploaded image.
    pub fn height(&self) -> (h: u32)
        ensures
            h == self.image().height,
    {
        self.buffer.height()
    }

    /// Makes the full-resolution artifact: the image as it was uploaded, in
    /// its own dimensions, encoded without loss. The artifact decodes to an
    /// image of the upload's width and height. An image that does not encode
    /// fails the full-resolution stage.
    pub fn fullres_artifact(self) -> (r: Result<FullresReady, PipelineError>)
        ensures
            match fullres_file(self.image()) {
                Some(file) => {
                    &&& r matches Ok(ready)
                    &&& ready.key() == self.key()
                    &&& ready.image() == self.image()
                    &&& ready.file() == file
                    &&& decodes_to_size(file, self.image())
                },
                None => r matches Err(e) && e == PipelineError::IOFailure(Stage::Fullres),
            },
    {
        match encode(&self.buffer, FULLRES_QUALITY, true) {
            Ok(bytes) => {
                let artifact = Artifact { path: get_fullres_path(self.key.as_str()), bytes };
                Ok(FullresReady { key: self.key, buffer: self.buffer, artifact })
            },
            Err(_) => Err(PipelineError::IOFailure(Stage::Fullres)),
        }
    }
}

impl FullresReady {
    #[verifier::type_invariant]
    spec fn holds_the_artifact(&self) -> bool {
        &&& self.artifact.path@ == artifact_path(FULLRES_FOLDER@, self.key@)
        &&& fullres_file(self.buffer@) == Some(self.artifact.bytes@)
        &&& decodes_to_size(self.artifact.bytes@, self.buffer@)
    }

    /// The cache key of the poster.
    pub closed spec fn key(&self) -> Seq<char> {
        self.key@
    }

    /// The image as it was uploaded.
    pub closed spec fn image(&self) -> Raster {
        self.buffer@
    }

    /// The content of the artifact.
    pub closed spec fn file(&self) -> Seq<u8> {
        self.artifact.bytes@
    }

    /// The full-resolution artifact: its place is `fullres/{key}.webp`, its
    /// content the lossless encoding of the upload.
    pub fn artifact(&self) -> (artifact: &Artifact)
        ensures
            artifact.path@ == artifact_path(FULLRES_FOLDER@, self.key()),
            artifact.bytes@ == self.file(),
            fullres_file(self.image()) == Some(self.file()),
            decodes_to_size(self.file(), self.image()),
    {
        proof {
            use_type_invariant(self);
        }
        &self.artifact
    }

    /// Records that the full-resolution artifact is stored.
    pub fn persisted(self) -> (next: FullresPersisted)
        ensures
            next.key() == self.key(),
            next.image() == self.image(),
            fits_webp(self.image()),
    {
        proof {
            use_type_invariant(&self);
        }
        FullresPersisted { key: self.key, buffer: self.buffer }
    }
}

impl FullresPersisted {
    /// The image was encoded, so neither of its sides is above what a WebP
    /// image can have.
    #[verifier::type_invariant]
    spec fn was_encoded(&self) -> bool {
        fits_webp(self.buffer@)
    }

    /// The cache key of the poster.
    pub closed spec fn key(&self) -> Seq<char> {
        self.key@
    }

    /// The image as it was uploaded.
    pub closed spec fn image(&self) -> Raster {
        self.buffer@
    }

    /// Resizes the image to a thumbnail of exactly 310 by 468 pixels, whatever
    /// its aspect ratio. The uploaded image is gone after this.
    pub fn resize(self) -> (next: Resized)
        ensures
            next.key() == self.key(),
            next.source() == self.image(),
            next.image() == thumbnail_of(self.image()),
            next.image().width == THUMBNAIL_WIDTH,
            next.image().height == THUMBNAIL_HEIGHT,
    {
        proof {
            use_type_invariant(&self);
        }
        let ghost source = self.buffer@;
        let buffer = self.buffer.resize(THUMBNAIL_WIDTH, THUMBNAIL_HEIGHT);
        Resized { key: self.key, buffer, source: Ghost(source) }
    }
}

impl Resized {
    #[verifier::type_invariant]
    spec fn is_thumbnail(&self) -> bool {
        &&& self.buffer@ == thumbnail_of(self.source@)
        &&& self.buffer@.width == THUMBNAIL_WIDTH
        &&& self.buffer@.height == THUMBNAIL_HEIGHT
    }

    /// The cache key of the poster.
    pub closed spec fn key(&self) -> Seq<char> {
        self.key@
    }

    /// The image as it was uploaded.
    pub closed spec fn source(&self) -> Raster {
        self.source@
    }

    /// The thumbnail.
    pub closed spec fn image(&self) -> Raster {
        self.buffer@
    }

    /// The width of the thumbnail: always 310.
    pub fn width(&self) -> (w: u32)
        ensures
            w == THUMBNAIL_WIDTH,
            w == self.image().width,
    {
        proof {
            use_type_invariant(self);
        }
        self.buffer.width()
    }

    /// The height of the thumbnail: always 468.
    pub fn height(&self) -> (h: u32)
        ensures
            h == THUMBNAIL_HEIGHT,
            h == self.image().height,
    {
        proof {
            use_type_invariant(self);
        }
        self.buffer.height()
    }

    /// Makes the thumbnail artifact: the resized image, encoded with loss.
    /// The artifact decodes to an image of 310 by 468 pixels. A thumbnail
    /// that does not encode fails the thumbnail stage.
    pub fn thumbnail_artifact(self) -> (r: Result<ThumbnailReady, PipelineError>)
        ensures
            self.image() == thumbnail_of(self.source()),
            self.image().width == THUMBNAIL_WIDTH,
            self.image().height == THUMBNAIL_HEIGHT,
            match thumbnail_file(self.image()) {
                Some(file) => {
                    &&& r matches Ok(ready)
                    &&& ready.key() == self.key()
                    &&& ready.source() == self.source()
                    &&& ready.image() == self.image()
                    &&& ready.file() == file
                    &&& decodes_to_size(file, self.image())
                },
                None => r matches Err(e) && e == PipelineError::IOFailure(Stage::Thumbnail),
            },
    {
        proof {
            use_type_invariant(&self);
        }
        match encode(&self.buffer, THUMBNAIL_QUALITY, false) {
            Ok(bytes) => {
                let artifact = Artifact { path: get_thumbnail_path(self.key.as_str()), bytes };
                Ok(
                    ThumbnailReady {
                        key: self.key,
                        buffer: self.buffer,
                        source: self.source,
                        artifact,
                    },
                )
            },
            Err(_) => Err(PipelineError::IOFailure(Stage::Thumbnail)),
        }
    }
}

impl ThumbnailReady {
    #[verifier::type_invariant]
    spec fn holds_the_artifact(&self) -> bool {
        &&& self.buffer@ == thumbnail_of(self.source@)
        &&& self.buffer@.width == THUMBNAIL_WIDTH
        &&& self.buffer@.height == THUMBNAIL_HEIGHT
        &&& self.artifact.path@ == artifact_path(THUMBNAIL_FOLDER@, self.key@)
        &&& thumbnail_file(self.buffer@) == Some(self.artifact.bytes@)
        &&& decodes_to_size(self.artifact.bytes@, self.buffer@)
    }

    /// The cache key of the poster.
    pub closed spec fn key(&self) -> Seq<char> {
        self.key@
    }

    /// The image as it was uploaded.
    pub closed spec fn source(&self) -> Raster {
        self.source@
    }

    /// The thumbnail.
    pub closed spec fn image(&self) -> Raster {
        self.buffer@
    }

    /// The content of the artifact.
    pub closed spec fn file(&self) -> Seq<u8> {
        self.artifact.bytes@
    }

    /// The thumbnail artifact: its place is `310x468/{key}.webp`, its content
    /// the lossy encoding of the thumbnail, which is 310 by 468 pixels.
    pub fn artifact(&self) -> (artifact: &Artifact)
        ensures
            artifact.path@ == artifact_path(THUMBNAIL_FOLDER@, self.key()),
            artifact.bytes@ == self.file(),
            thumbnail_file(self.image()) == Some(self.file()),
            decodes_to_size(self.file(), self.image()),
            self.image() == thumbnail_of(self.source()),
            self.image().width == THUMBNAIL_WIDTH,
            self.image().height == THUMBNAIL_HEIGHT,
    {
        proof {
            use_type_invariant(self);
        }
        &self.artifact
    }

    /// Records that the thumbnail is stored, and computes the placeholder of
    /// the thumbnail. The image is dropped.
    pub fn persisted(self) -> (next: ThumbnailPersisted)
        ensures
            next.key() == self.key(),
            next.source() == self.source(),
            next.placeholder() == placeholder_of(self.image()),
            next.placeholder() == placeholder_of(thumbnail_of(self.source())),
            body_part(next.placeholder()) == body_of(self.image()),
            is_body(body_part(next.placeholder())),
            is_base83_text(body_part(next.placeholder())),
            accent_swatch(swatches_of(self.image())) matches Some(c) ==> accent_of(
                next.placeholder(),
            ) == Some(c),
            accent_swatch(swatches_of(self.image())) is None ==> !next.placeholder().contains(
                SEPARATOR,
            ),
    {
        proof {
            use_type_invariant(&self);
        }
        let placeholder = compute_placeholder(&self.buffer);
        ThumbnailPersisted { key: self.key, placeholder, source: self.source }
    }
}

impl ThumbnailPersisted {
    #[verifier::type_invariant]
    spec fn holds_the_placeholder(&self) -> bool {
        &&& self.placeholder@ == placeholder_of(thumbnail_of(self.source@))
        &&& is_body(body_part(self.placeholder@))
    }

    /// The cache key of the poster.
    pub closed spec fn key(&self) -> Seq<char> {
        self.key@
    }

    /// The image as it was uploaded.
    pub closed spec fn source(&self) -> Raster {
        self.source@
    }

    /// The placeholder of the poster.
    pub closed spec fn placeholder(&self) -> Seq<char> {
        self.placeholder@
    }

    /// The record of the poster: its cache key and its placeholder, which is
    /// that of the thumbnail of the uploaded image.
    pub fn into_cached_image(self) -> (image: CachedImage)
        ensures
            image@.key == self.key(),
            image@.placeholder == Some(self.placeholder()),
            self.placeholder() == placeholder_of(thumbnail_of(self.source())),
            is_body(body_part(self.placeholder())),
            forall|bytes: Seq<u8>, format: ImageFormat|
                #[trigger] decoded_image(bytes, format) == Some(self.source())
                    ==> self.placeholder() == placeholder_of_upload(bytes, format),
    {
        proof {
            use_type_invariant(&self);
        }
        CachedImage::with_placeholder(self.key, self.placeholder)
    }
}

/// The placeholder of a poster is determined by the bytes and the format of
/// its upload: the same upload has the same placeholder on every run.
pub proof fn law_same_upload_same_placeholder(
    first: Seq<u8>,
    second: Seq<u8>,
    format: ImageFormat,
)
    requires
        first == second,
    ensures
        placeholder_of_upload(first, format) == placeholder_of_upload(second, format),
{
}

} // verus!
