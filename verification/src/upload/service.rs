//! The file service: where uploaded files live on disk, what an upload
//! replaces, and how a thumbnail is made and recorded.
use vstd::prelude::*;
use crate::common::domain::ServiceError;
use crate::common::util::{is_hyphenated_uuid, is_uuid_v7_text, now_millis, lemma_uuid_plain};
use crate::path::{join, joined, file_name_of, name_extension, lacks, is_plain_component, lemma_join_file_name, lemma_last_index_concat};
use crate::text::last_index_of;
use crate::text::{text_concat, text_concat3, opt_view, same_text, push_char};
use crate::upload::domain::{mime_from_extension, mime_for_extension, FileUploadV2};
use crate::store::repository::Filter;

verus! {

/// The name under which the file of `f` is stored: its id, a `.`, and its
/// extension (nothing after the `.` when it has none).
pub open spec fn disk_name(f: FileUploadV2) -> Seq<char> {
    f.id@ + seq!['.'] + match f.extension {
        Some(e) => e@,
        None => Seq::empty(),
    }
}

/// `r` is the plan for storing the uploaded file of `upl` on the share
/// drive `share`, `existing` being the record it replaces, at time `now`.
pub open spec fn is_upload_plan(
    share: Seq<char>,
    upl: FileUploadV2,
    existing: Option<FileUploadV2>,
    now: i64,
    r: UploadPlan,
) -> bool {
    &&& r.internal_name@ == disk_name(upl)
    &&& r.final_path@ == joined(share, disk_name(upl))
    &&& r.record == (FileUploadV2 { name: r.record.name, updated_date: r.record.updated_date, ..upl })
    &&& opt_view(r.record.name) == Some(disk_name(upl))
    &&& r.record.updated_date == (if existing is Some { Some(now) } else { upl.updated_date })
    &&& match existing {
        Some(e) => {
            &&& opt_view(r.old_file) == Some(joined(share, disk_name(e)))
            &&& match e.thumbnail_id {
                Some(t) => r.old_thumbnail matches Some((id, p)) && id@ == t@ && p@ == joined(
                    share,
                    "thumb-"@ + disk_name(e),
                ),
                None => r.old_thumbnail is None,
            }
        },
        None => r.old_file is None && r.old_thumbnail is None,
    }
}

/// Replacing a record removes its file and its thumbnail: when an upload
/// replaces a record, the plan removes the replaced file (its id, `.`,
/// its extension, under the share drive), and when the replaced record has
/// a thumbnail `t`, the plan deletes `t` and removes `thumb-` followed by
/// the replaced file's name, whatever the new record is.
pub proof fn law_replaced_files_removed(
    share: Seq<char>,
    upl: FileUploadV2,
    e: FileUploadV2,
    now: i64,
    r: UploadPlan,
)
    requires
        is_upload_plan(share, upl, Some(e), now, r),
    ensures
        opt_view(r.old_file) == Some(joined(share, e.id@ + seq!['.'] + ext_text(e))),
        e.thumbnail_id matches Some(t) ==> (r.old_thumbnail matches Some((id, p)) && id@ == t@ && p@
            == joined(share, "thumb-"@ + (e.id@ + seq!['.'] + ext_text(e)))),
        e.thumbnail_id is None ==> r.old_thumbnail is None,
{
    assert(disk_name(e) =~= e.id@ + seq!['.'] + ext_text(e));
}

/// The text after the `.` of a disk name: the extension, or nothing.
pub open spec fn ext_text(f: FileUploadV2) -> Seq<char> {
    match f.extension {
        Some(e) => e@,
        None => Seq::empty(),
    }
}

/// A file stored by an upload is found where a download looks for it: the
/// plan moves the uploaded file to the path of the saved record's file on
/// disk, under the saved record's disk name.
pub proof fn law_upload_then_download(
    share: Seq<char>,
    upl: FileUploadV2,
    existing: Option<FileUploadV2>,
    now: i64,
    plan: UploadPlan,
)
    requires
        is_upload_plan(share, upl, existing, now, plan),
    ensures
        plan.final_path@ == joined(share, disk_name(plan.record)),
        plan.internal_name@ == disk_name(plan.record),
        opt_view(plan.record.name) == Some(disk_name(plan.record)),
{
}

/// The disk name of a record with a generated id is a single path
/// component whose extension is the record's (empty when it has none), so
/// the file under the share drive is named exactly so.
pub proof fn law_disk_name_component(share: Seq<char>, f: FileUploadV2)
    requires
        is_hyphenated_uuid(f.id@),
        f.extension matches Some(e) ==> lacks(e@, '.') && lacks(e@, '/'),
    ensures
        is_plain_component(disk_name(f)),
        file_name_of(disk_name(f)) == Some(disk_name(f)),
        name_extension(disk_name(f)) == Some(ext_text(f)),
        file_name_of(joined(share, disk_name(f))) == Some(disk_name(f)),
{
    let id = f.id@;
    let ext = ext_text(f);
    let d = disk_name(f);
    lemma_uuid_plain(id);
    assert(d =~= id + (seq!['.'] + ext));
    assert(lacks(ext, '.') && lacks(ext, '/'));
    assert(lacks(seq!['.'] + ext, '/')) by {
        assert forall|k: int| 0 <= k < (seq!['.'] + ext).len() implies #[trigger] (seq!['.'] + ext)[k] != '/' by {
            if k > 0 {
                assert((seq!['.'] + ext)[k] == ext[k - 1]);
            }
        }
    }
    assert(lacks(d, '/')) by {
        assert forall|k: int| 0 <= k < d.len() implies #[trigger] d[k] != '/' by {
            if k < id.len() {
                assert(d[k] == id[k]);
            } else {
                assert(d[k] == (seq!['.'] + ext)[k - id.len()]);
            }
        }
    }
    assert(d.len() >= 37);
    assert(d != seq!['.']);
    assert(d != seq!['.', '.']);
    // the last `.` of the disk name is the one after the id
    assert((id + seq!['.']) + ext =~= d);
    lemma_last_index_concat(id + seq!['.'], ext, '.');
    assert((id + seq!['.']).last() == '.');
    assert(last_index_of(id + seq!['.'], '.') == id.len());
    assert(d.subrange(id.len() + 1 as int, d.len() as int) =~= ext);
    // a plain component is its own file name
    lemma_join_file_name(Seq::empty(), d);
    assert(crate::path::joined(Seq::empty(), d) =~= d);
    lemma_join_file_name(share, d);
}

/// The file service, storing files under the share drive directory.
#[derive(Clone, Debug)]
pub struct FileService {
    pub share_drive_path: String,
}

/// What storing a newly uploaded file involves.
pub struct UploadPlan {
    /// The record to save.
    pub record: FileUploadV2,
    /// The name of the file on disk.
    pub internal_name: String,
    /// Where the uploaded file is moved to.
    pub final_path: String,
    /// The file of the record being replaced, to remove.
    pub old_file: Option<String>,
    /// The thumbnail of the record being replaced: its id, to delete, and the file to remove.
    pub old_thumbnail: Option<(String, String)>,
}

impl FileService {
    /// The name under which the file of `file_upload` is stored.
    pub fn get_filename_on_disk(&self, file_upload: &FileUploadV2) -> (r: String)
        ensures
            r@ == disk_name(*file_upload),
    {
        proof {
            reveal_strlit(".");
            assert("."@ =~= seq!['.']);
        }
        match &file_upload.extension {
            Some(e) => text_concat3(file_upload.id.as_str(), ".", e.as_str()),
            None => {
                let r = text_concat(file_upload.id.as_str(), ".");
                proof {
                    assert(r@ =~= disk_name(*file_upload));
                }
                r
            },
        }
    }

    /// The path of the file stored under `internal_name`.
    pub fn get_physical_path(&self, internal_name: &str) -> (r: String)
        ensures
            r@ == joined(self.share_drive_path@, internal_name@),
    {
        join(self.share_drive_path.as_str(), internal_name)
    }

    /// Where a bulk download is assembled: a fresh `<uuid>.zip` in `tmp_dir`.
    pub fn bulk_zip_path(&self, tmp_dir: &str) -> (r: String)
        ensures
            exists|id: Seq<char>| is_hyphenated_uuid(id) && r@ == joined(tmp_dir@, id + ".zip"@),
    {
        let id = crate::common::util::IdGenerator.get();
        let name = text_concat(id.as_str(), ".zip");
        let r = join(tmp_dir, name.as_str());
        assert(is_hyphenated_uuid(id@) && r@ == joined(tmp_dir@, id@ + ".zip"@));
        r
    }

    /// The filter selecting the uploads of the correlation id `id`.
    pub fn correlation_filter(&self, id: &str) -> (r: Filter)
        ensures
            r matches Filter::FieldEquals(f, v) && f@ == "correlationId"@ && v@ == id@,
    {
        Filter::FieldEquals(String::from_str("correlationId"), String::from_str(id))
    }

    /// The filter selecting the upload `id`, stored under that text or
    /// under the object id it encodes.
    pub fn id_filter(&self, id: &str) -> (r: Filter)
        ensures
            r matches Filter::IdOrObjectId(v) && v@ == id@,
    {
        Filter::IdOrObjectId(String::from_str(id))
    }

    /// The path of the file of `file_upload`.
    pub fn physical_file(&self, file_upload: &FileUploadV2) -> (r: String)
        ensures
            r@ == joined(self.share_drive_path@, disk_name(*file_upload)),
    {
        let name = self.get_filename_on_disk(file_upload);
        self.get_physical_path(name.as_str())
    }

    /// What storing the uploaded file of `upl` involves, `existing` being the
    /// record already stored under the same id and `now` the time of the
    /// upload: the file is moved to the share drive under its disk name,
    /// the record takes that name, and a replaced record's file and
    /// thumbnail are removed (its thumbnail file being `thumb-` followed by
    /// the replaced disk name); the record is marked updated now when it
    /// replaces another.
    pub fn plan_upload_at(&self, upl: FileUploadV2, existing: Option<FileUploadV2>, now: i64) -> (r: UploadPlan)
        ensures
            is_upload_plan(self.share_drive_path@, upl, existing, now, r),
    {
        let internal_name = self.get_filename_on_disk(&upl);
        let mut record = upl;
        let (old_file, old_thumbnail) = match existing {
            Some(e) => {
                record.updated_date = Some(now);
                let old_name = self.get_filename_on_disk(&e);
                let old_file = self.get_physical_path(old_name.as_str());
                let old_thumbnail = match &e.thumbnail_id {
                    Some(t) => {
                        let thumb_name = text_concat("thumb-", old_name.as_str());
                        Some((t.clone(), self.get_physical_path(thumb_name.as_str())))
                    },
                    None => None,
                };
                (Some(old_file), old_thumbnail)
            },
            None => (None, None),
        };
        let final_path = self.get_physical_path(internal_name.as_str());
        record.name = Some(internal_name.clone());
        UploadPlan { record, internal_name, final_path, old_file, old_thumbnail }
    }

    /// What storing the uploaded file of `upl` involves, `existing` being the
    /// record already stored under the same id; the update time, when the
    /// upload replaces a record, is read from the clock.
    pub fn plan_upload(&self, upl: FileUploadV2, existing: Option<FileUploadV2>) -> (r: UploadPlan)
        ensures
            exists|now: i64| is_upload_plan(self.share_drive_path@, upl, existing, now, r),
    {
        let now = if existing.is_some() { now_millis() } else { 0 };
        let r = self.plan_upload_at(upl, existing, now);
        assert(is_upload_plan(self.share_drive_path@, upl, existing, now, r));
        r
    }
}

#[verifier::external_type_specification]
#[verifier::external_body]
pub struct ExDynamicImage(image::DynamicImage);

#[verifier::external_type_specification]
#[verifier::external_body]
pub struct ExImageFormat(image::ImageFormat);

/// What `image::load_from_memory` decodes `bytes` into, if anything.
pub uninterp spec fn decoded_image(bytes: Seq<u8>) -> Option<image::DynamicImage>;

/// Calls `image::load_from_memory`, which guesses the format from the bytes
/// and decodes them with the default limits; its outcome depends on the
/// bytes alone and is named `decoded_image`. An error becomes its message,
/// whose wording is not stated.
#[verifier::external_body]
fn load_image(bytes: &[u8]) -> (r: Result<image::DynamicImage, String>)
    ensures
        r is Ok <==> decoded_image(bytes@) is Some,
        r matches Ok(img) ==> decoded_image(bytes@) == Some(img),
{
    image::load_from_memory(bytes).map_err(|e| e.to_string())
}

/// What `DynamicImage::thumbnail(width, height)` makes of `img`: the image
/// scaled down to fit the bounds, keeping its aspect ratio.
pub uninterp spec fn thumbnail_of(img: image::DynamicImage, width: u32, height: u32) -> image::DynamicImage;

/// Calls `DynamicImage::thumbnail(width, height)`, whose result depends on
/// its arguments alone and is named `thumbnail_of`.
#[verifier::external_body]
fn image_thumbnail(img: &image::DynamicImage, width: u32, height: u32) -> (r: image::DynamicImage)
    ensures
        r == thumbnail_of(*img, width, height),
{
    img.thumbnail(width, height)
}

/// The bytes that `DynamicImage::write_to` writes for `img` encoded as
/// `format`, or `None` when encoding fails.
pub uninterp spec fn encoded_image(img: image::DynamicImage, format: image::ImageFormat) -> Option<Seq<u8>>;

/// Calls `DynamicImage::write_to` on an empty in-memory cursor and returns
/// the bytes written; its outcome depends on the image and the format alone
/// and is named `encoded_image`. An error becomes its message, whose
/// wording is not stated.
#[verifier::external_body]
fn encode_image(img: &image::DynamicImage, format: image::ImageFormat) -> (r: Result<Vec<u8>, String>)
    ensures
        r is Ok <==> encoded_image(*img, format) is Some,
        r matches Ok(b) ==> encoded_image(*img, format) == Some(b@),
{
    let mut cursor = std::io::Cursor::new(Vec::new());
    img.write_to(&mut cursor, format).map(|_| cursor.into_inner()).map_err(|e| e.to_string())
}

/// The image format `image::ImageFormat::from_mime_type` gives for the media
/// type `ct`.
pub uninterp spec fn mime_image_format(ct: Seq<char>) -> Option<image::ImageFormat>;

/// The media types that `ImageFormat::from_mime_type` maps to a format.
pub open spec fn names_image_format(ct: Seq<char>) -> bool {
    ||| ct == "image/avif"@
    ||| ct == "image/jpeg"@
    ||| ct == "image/png"@
    ||| ct == "image/gif"@
    ||| ct == "image/webp"@
    ||| ct == "image/tiff"@
    ||| ct == "image/x-targa"@
    ||| ct == "image/x-tga"@
    ||| ct == "image/vnd-ms.dds"@
    ||| ct == "image/bmp"@
    ||| ct == "image/x-icon"@
    ||| ct == "image/vnd.microsoft.icon"@
    ||| ct == "image/vnd.radiance"@
    ||| ct == "image/x-exr"@
    ||| ct == "image/x-portable-bitmap"@
    ||| ct == "image/x-portable-graymap"@
    ||| ct == "image/x-portable-pixmap"@
    ||| ct == "image/x-portable-anymap"@
    ||| ct == "image/x-qoi"@
}

/// Calls `image::ImageFormat::from_mime_type`, whose result is named
/// `mime_image_format`; its source maps exactly the media types of
/// `names_image_format` to a format, and every other text to `None`.
#[verifier::external_body]
fn image_format_from_mime(ct: &str) -> (r: Option<image::ImageFormat>)
    ensures
        r == mime_image_format(ct@),
        r is Some <==> names_image_format(ct@),
{
    image::ImageFormat::from_mime_type(ct)
}

/// The file extensions that `ImageFormat::extensions_str` lists for `format`.
pub uninterp spec fn image_format_extensions(format: image::ImageFormat) -> Seq<Seq<char>>;

/// The texts of a list of strings.
pub open spec fn texts(v: Seq<String>) -> Seq<Seq<char>> {
    v.map_values(|s: String| s@)
}

/// Calls `ImageFormat::extensions_str`, a fixed table named
/// `image_format_extensions`, and owns each extension.
#[verifier::external_body]
fn format_extensions(format: image::ImageFormat) -> (r: Vec<String>)
    ensures
        texts(r@) == image_format_extensions(format),
{
    format.extensions_str().iter().map(|e| e.to_string()).collect()
}

/// `parts` joined with `.` between them, as `[&str]::join(".")` joins.
pub open spec fn dot_joined(parts: Seq<Seq<char>>) -> Seq<char>
    decreases parts.len(),
{
    if parts.len() == 0 {
        Seq::empty()
    } else if parts.len() == 1 {
        parts[0]
    } else {
        dot_joined(parts.drop_last()) + seq!['.'] + parts.last()
    }
}

/// The strings of `parts` joined with `.` between them.
pub fn join_with_dots(parts: &Vec<String>) -> (r: String)
    ensures
        r@ == dot_joined(texts(parts@)),
{
    let mut out = String::new();
    let mut i: usize = 0;
    while i < parts.len()
        invariant
            i <= parts.len(),
            out@ == dot_joined(texts(parts@).take(i as int)),
        decreases parts.len() - i,
    {
        let ghost before = out@;
        if i > 0 {
            push_char(&mut out, '.');
        }
        out = text_concat(out.as_str(), parts[i].as_str());
        proof {
            let t = texts(parts@);
            assert(t.take(i + 1).drop_last() =~= t.take(i as int));
            assert(t.take(i + 1).last() == parts@[i as int]@);
            if i == 0 {
                assert(before =~= Seq::<char>::empty());
                assert(out@ =~= t.take(1)[0]);
            } else {
                assert(out@ =~= before + seq!['.'] + parts@[i as int]@);
            }
        }
        i = i + 1;
    }
    assert(texts(parts@).take(parts.len() as int) =~= texts(parts@));
    out
}

/// The extension of a thumbnail encoded in `format`: the extensions of the
/// format joined with `.`.
pub fn format_extension(format: image::ImageFormat) -> (r: String)
    ensures
        r@ == dot_joined(image_format_extensions(format)),
{
    let parts = format_extensions(format);
    join_with_dots(&parts)
}

/// The extension of a thumbnail encoded for the media type `ct`, none when
/// `ct` names no image format.
pub open spec fn thumbnail_extension_of(ct: Seq<char>) -> Option<Seq<char>> {
    match mime_image_format(ct) {
        Some(f) => Some(dot_joined(image_format_extensions(f))),
        None => None,
    }
}

/// The extension of a thumbnail encoded for the media type `ct`.
pub fn thumbnail_extension(ct: &str) -> (r: Option<String>)
    ensures
        opt_view(r) == thumbnail_extension_of(ct@),
        r is Some <==> names_image_format(ct@),
{
    match image_format_from_mime(ct) {
        Some(f) => Some(format_extension(f)),
        None => None,
    }
}

/// The media type of the PNG rendering that a converter makes.
pub open spec fn converted_content_type() -> Seq<char> {
    "image/png"@
}

/// Where the picture of a thumbnail is being drawn from.
#[derive(Clone, Copy, Debug, PartialEq, Eq, Structural)]
pub enum ThumbnailStage {
    /// The uploaded file itself, decoded as the image its media type names.
    Original,
    /// A PNG rendering of the file made by the ImageMagick converter.
    Converter,
    /// A PNG rendering made by the office suite, tried when the converter fails.
    Office,
}

/// What follows once the bytes of a stage were read or produced.
pub enum ThumbnailStep {
    /// The picture to make the thumbnail of, with the media type of its format.
    Picture(Option<String>, image::DynamicImage),
    /// The converter failed: try the office suite.
    TryOffice,
    /// The office suite failed too: no thumbnail is made.
    GiveUp,
    /// Making the thumbnail fails with this error.
    Failed(ServiceError),
}

/// The name of the thumbnail of the file stored as `internal_name`, encoded
/// with extension `ext`: `thumb-` and the stored name, followed by `.` and
/// `ext` unless `ext` is already the extension of the uploaded file.
pub open spec fn thumb_file_name(internal_name: Seq<char>, ext: Seq<char>, upl_ext: Option<String>) -> Seq<char> {
    if Some(ext) != opt_view(upl_ext) {
        "thumb-"@ + internal_name + "."@ + ext
    } else {
        "thumb-"@ + internal_name
    }
}

/// Whether an upload is followed by making its thumbnail: only when a file
/// was stored and thumbnails were not refused.
pub fn thumbnail_wanted(stored_file: bool, without_thumbnail: bool) -> (r: bool)
    ensures
        r == (stored_file && !without_thumbnail),
{
    stored_file && !without_thumbnail
}

impl FileService {
    /// Where the thumbnail of `upl` is drawn from first: the file itself when
    /// it is a supported image, the converter's rendering otherwise.
    pub fn thumbnail_source(&self, upl: &FileUploadV2) -> (r: ThumbnailStage)
        ensures
            r == (if crate::upload::domain::spec_is_supported_image(upl.content_type) {
                ThumbnailStage::Original
            } else {
                ThumbnailStage::Converter
            }),
    {
        if upl.is_supported_image() {
            ThumbnailStage::Original
        } else {
            ThumbnailStage::Converter
        }
    }

    /// Decodes the picture a thumbnail is made from.
    pub fn decode_picture(&self, bytes: &[u8]) -> (r: Result<image::DynamicImage, ServiceError>)
        ensures
            r is Ok <==> decoded_image(bytes@) is Some,
            r matches Ok(img) ==> decoded_image(bytes@) == Some(img),
    {
        match load_image(bytes) {
            Ok(img) => Ok(img),
            Err(e) => Err(ServiceError(e)),
        }
    }

    /// The step after `stage` gave `read` for the thumbnail of `upl`: the
    /// bytes decode into the picture (of `upl`'s media type for the file
    /// itself, PNG for a rendering), or the thumbnail fails when they do not
    /// decode. When the bytes could not be had, reading the file itself
    /// fails, a failed converter is followed by the office suite, and a
    /// failed office suite gives up.
    pub fn thumbnail_step(
        &self,
        upl: &FileUploadV2,
        stage: ThumbnailStage,
        read: Result<Vec<u8>, ServiceError>,
    ) -> (r: ThumbnailStep)
        ensures
            match read {
                Err(e) => match stage {
                    ThumbnailStage::Original => r == ThumbnailStep::Failed(e),
                    ThumbnailStage::Converter => r is TryOffice,
                    ThumbnailStage::Office => r is GiveUp,
                },
                Ok(bytes) => match decoded_image(bytes@) {
                    None => r is Failed,
                    Some(img) => r matches ThumbnailStep::Picture(ct, p) && p == img && opt_view(ct) == (
                    if stage == ThumbnailStage::Original {
                        opt_view(upl.content_type)
                    } else {
                        Some(converted_content_type())
                    }),
                },
            },
    {
        match read {
            Err(e) => match stage {
                ThumbnailStage::Original => ThumbnailStep::Failed(e),
                ThumbnailStage::Converter => ThumbnailStep::TryOffice,
                ThumbnailStage::Office => ThumbnailStep::GiveUp,
            },
            Ok(bytes) => match self.decode_picture(bytes.as_slice()) {
                Err(e) => ThumbnailStep::Failed(e),
                Ok(img) => {
                    let ct = match stage {
                        ThumbnailStage::Original => match &upl.content_type {
                            Some(c) => Some(c.clone()),
                            None => None,
                        },
                        _ => Some(String::from_str("image/png")),
                    };
                    ThumbnailStep::Picture(ct, img)
                },
            },
        }
    }

    /// Scales `picture` down to fit `width` by `height` and encodes it in the
    /// image format of the media type `content_type`, giving the thumbnail's
    /// extension (the format's extensions joined with `.`) and bytes. There
    /// is an error when the media type is missing or names no image format,
    /// or when encoding fails.
    pub fn render_thumbnail(
        &self,
        content_type: Option<String>,
        picture: &image::DynamicImage,
        width: u32,
        height: u32,
    ) -> (r: Result<(String, Vec<u8>), ServiceError>)
        ensures
            match content_type {
                None => r matches Err(e) && e.0@ == "No Content type! Should not happen"@,
                Some(c) => match mime_image_format(c@) {
                    None => r matches Err(e) && e.0@ == "Format cannot be transformed to thumbnail"@,
                    Some(f) => match encoded_image(thumbnail_of(*picture, width, height), f) {
                        None => r is Err,
                        Some(b) => r matches Ok((ext, bytes)) && bytes@ == b && ext@ == dot_joined(
                            image_format_extensions(f),
                        ),
                    },
                },
            },
    {
        let thumb = image_thumbnail(picture, width, height);
        let ct = match content_type {
            Some(ct) => ct,
            None => {
                return Err(ServiceError::new("No Content type! Should not happen"));
            },
        };
        let format = match image_format_from_mime(ct.as_str()) {
            Some(f) => f,
            None => {
                return Err(ServiceError::new("Format cannot be transformed to thumbnail"));
            },
        };
        let bytes = match encode_image(&thumb, format) {
            Ok(b) => b,
            Err(e) => {
                return Err(ServiceError(e));
            },
        };
        Ok((format_extension(format), bytes))
    }

    /// What deleting the upload `upl` involves: its record's id, the path of
    /// its file, and the id of its thumbnail record, if any, to delete in
    /// turn.
    pub fn deletion_steps(&self, upl: &FileUploadV2) -> (r: (String, String, Option<String>))
        ensures
            r.0@ == upl.id@,
            r.1@ == joined(self.share_drive_path@, disk_name(*upl)),
            opt_view(r.2) == opt_view(upl.thumbnail_id),
    {
        let thumb = match &upl.thumbnail_id {
            Some(t) => Some(t.clone()),
            None => None,
        };
        (upl.id.clone(), self.physical_file(upl), thumb)
    }

    /// The name of the thumbnail of the file stored as `internal_name`.
    pub fn thumbnail_file_name(&self, upl: &FileUploadV2, internal_name: &str, ext: &str) -> (r: String)
        ensures
            r@ == thumb_file_name(internal_name@, ext@, upl.extension),
    {
        let same = match &upl.extension {
            Some(e) => same_text(e.as_str(), ext),
            None => false,
        };
        if !same {
            text_concat3(text_concat("thumb-", internal_name).as_str(), ".", ext)
        } else {
            text_concat("thumb-", internal_name)
        }
    }

    /// The record of the thumbnail of `upl`, stored as `internal_name`,
    /// with extension `ext` and `size` bytes: a fresh record named after the
    /// thumbnail, marked as a thumbnail, with the media type of its
    /// extension, the visibility of `upl`, and `upl`'s id as correlation id.
    pub fn thumbnail_record(&self, upl: &FileUploadV2, internal_name: &str, ext: &str, size: u64) -> (r: FileUploadV2)
        ensures
            is_uuid_v7_text(r.id@),
            opt_view(r.content_type) == mime_for_extension(ext@),
            r.thumbnail_id is None,
            r.original_filename@ == thumb_file_name(internal_name@, ext@, upl.extension),
            opt_view(r.name) == Some(thumb_file_name(internal_name@, ext@, upl.extension)),
            r.bookmarked == Some(false),
            r.thumb == Some(true),
            opt_view(r.extension) == Some(ext@),
            r.size == size,
            r.public_resource == upl.public_resource,
            opt_view(r.correlation_id) == Some(upl.id@),
            r.updated_date is None,
            r.bookmarked_date is None,
    {
        let file_name = self.thumbnail_file_name(upl, internal_name, ext);
        let blank = FileUploadV2::default();
        FileUploadV2 {
            content_type: mime_from_extension(ext),
            thumbnail_id: None,
            original_filename: file_name.clone(),
            bookmarked: Some(false),
            thumb: Some(true),
            name: Some(file_name),
            extension: Some(String::from_str(ext)),
            size,
            public_resource: upl.public_resource,
            correlation_id: Some(upl.id.clone()),
            ..blank
        }
    }
}

} // verus!
