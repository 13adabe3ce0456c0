//! The record of an uploaded file and the query parameters of the upload routes.
use vstd::prelude::*;
use crate::common::domain::ServiceError;
use crate::common::util::{is_hyphenated_uuid, is_uuid_v7_text, now_millis, IdGenerator};
use crate::path::{extension, path_extension, lemma_extension_plain};
use crate::text::{eq_ignore_ascii_case, eq_ignore_case, has_no_upper, lower_code, opt_view, starts_with, copy_opt};
use crate::store::repository::Identifiable;

verus! {

/// The first media type that `mime_guess` associates with the extension
/// `ext` (`mime_guess::from_ext(ext).first_raw()`), if any.
pub uninterp spec fn mime_for_extension(ext: Seq<char>) -> Option<Seq<char>>;

/// The media type `mime_guess` guesses for the path `p`: the one of its
/// extension, none when it has no extension.
pub open spec fn guessed_mime(p: Seq<char>) -> Option<Seq<char>> {
    match path_extension(p) {
        Some(e) => mime_for_extension(e),
        None => None,
    }
}

/// Calls `mime_guess::from_path(path).first_raw()`. As its documentation
/// states, the guess is made from the path's extension (`Path::extension`),
/// which is looked up as `from_ext` does; a path without extension gives no
/// guess.
#[verifier::external_body]
pub(crate) fn mime_from_path(path: &str) -> (r: Option<String>)
    ensures
        opt_view(r) == guessed_mime(path@),
{
    mime_guess::from_path(path).first_raw().map(|ct| ct.to_string())
}

/// Calls `mime_guess::from_ext(ext).first_raw()`, named `mime_for_extension`;
/// its source returns an empty guess for the empty extension.
#[verifier::external_body]
pub(crate) fn mime_from_extension(ext: &str) -> (r: Option<String>)
    ensures
        opt_view(r) == mime_for_extension(ext@),
        ext@.len() == 0 ==> r is None,
{
    mime_guess::from_ext(ext).first_raw().map(|ct| ct.to_string())
}

/// The record of an uploaded file. Dates are milliseconds since the Unix epoch.
#[derive(Debug)]
pub struct FileUploadV2 {
    pub id: String,
    pub creation_date: i64,
    pub updated_date: Option<i64>,
    pub content_type: Option<String>,
    pub bookmarked: Option<bool>,
    pub bookmarked_date: Option<i64>,
    pub name: Option<String>,
    pub thumbnail_id: Option<String>,
    pub thumb: Option<bool>,
    pub original_filename: String,
    pub extension: Option<String>,
    pub size: u64,
    pub public_resource: bool,
    pub correlation_id: Option<String>,
}

/// `ct` is a media type of an image: it starts with `image`.
pub open spec fn spec_is_image(ct: Option<String>) -> bool {
    match ct {
        Some(c) => "image"@.is_prefix_of(c@),
        None => false,
    }
}

/// `ct` is, up to ASCII case, one of the image types a thumbnail is made
/// from directly: `image/png`, `image/jpeg`, `image/jpg`, `image/gif`.
pub open spec fn spec_is_supported_image(ct: Option<String>) -> bool {
    match ct {
        Some(c) => {
            ||| eq_ignore_case(c@, "image/png"@)
            ||| eq_ignore_case(c@, "image/jpeg"@)
            ||| eq_ignore_case(c@, "image/jpg"@)
            ||| eq_ignore_case(c@, "image/gif"@)
        },
        None => false,
    }
}

/// `ct` is `application/pdf` up to ASCII case.
pub open spec fn spec_is_pdf(ct: Option<String>) -> bool {
    match ct {
        Some(c) => eq_ignore_case(c@, "application/pdf"@),
        None => false,
    }
}

impl FileUploadV2 {
    /// A record fresh from `Default`: every field empty or unset but
    /// `bookmarked`, which is `Some(false)`, and an id and creation date of
    /// its own.
    pub open spec fn is_blank(self) -> bool {
        &&& is_uuid_v7_text(self.id@)
        &&& self.updated_date is None
        &&& self.content_type is None
        &&& self.bookmarked == Some(false)
        &&& self.bookmarked_date is None
        &&& self.name is None
        &&& self.thumbnail_id is None
        &&& self.thumb is None
        &&& self.original_filename@.len() == 0
        &&& self.extension is None
        &&& self.size == 0
        &&& !self.public_resource
        &&& self.correlation_id is None
    }

    /// A field-for-field copy.
    pub fn duplicate(&self) -> (r: FileUploadV2)
        ensures
            r == *self,
    {
        FileUploadV2 {
            id: self.id.clone(),
            creation_date: self.creation_date,
            updated_date: self.updated_date,
            content_type: copy_opt(&self.content_type),
            bookmarked: self.bookmarked,
            bookmarked_date: self.bookmarked_date,
            name: copy_opt(&self.name),
            thumbnail_id: copy_opt(&self.thumbnail_id),
            thumb: self.thumb,
            original_filename: self.original_filename.clone(),
            extension: copy_opt(&self.extension),
            size: self.size,
            public_resource: self.public_resource,
            correlation_id: copy_opt(&self.correlation_id),
        }
    }

    /// The record of a file stored at `path` under the name `file_name`:
    /// its media type is guessed from `path`, its extension is that of
    /// `path`, its name and original name are `file_name`, it is not
    /// bookmarked, and it gets a fresh id and the current time.
    pub fn new(
        path: &str,
        file_name: &str,
        correlation_id: Option<String>,
        public_resource: bool,
        size: u64,
    ) -> (r: Result<FileUploadV2, ServiceError>)
        ensures
            r matches Ok(f) && {
                &&& is_uuid_v7_text(f.id@)
                &&& opt_view(f.content_type) == guessed_mime(path@)
                &&& f.correlation_id == correlation_id
                &&& f.original_filename@ == file_name@
                &&& f.bookmarked == Some(false)
                &&& opt_view(f.name) == Some(file_name@)
                &&& opt_view(f.extension) == path_extension(path@)
                &&& f.size == size
                &&& f.public_resource == public_resource
                &&& f.updated_date is None
                &&& f.bookmarked_date is None
                &&& f.thumbnail_id is None
                &&& f.thumb is None
            },
    {
        let blank = FileUploadV2::default();
        Ok(FileUploadV2 {
            content_type: mime_from_path(path),
            correlation_id,
            original_filename: String::from_str(file_name),
            bookmarked: Some(false),
            name: Some(String::from_str(file_name)),
            extension: extension(path),
            size,
            public_resource,
            ..blank
        })
    }

    /// The media type is an image one: it starts with `image`.
    pub fn is_image(&self) -> (r: bool)
        ensures
            r == spec_is_image(self.content_type),
    {
        match &self.content_type {
            Some(ct) => starts_with(ct.as_str(), "image"),
            None => false,
        }
    }

    /// The media type is, up to ASCII case, `image/png`, `image/jpeg`,
    /// `image/jpg` or `image/gif`.
    pub fn is_supported_image(&self) -> (r: bool)
        ensures
            r == spec_is_supported_image(self.content_type),
    {
        match &self.content_type {
            Some(ct) => {
                let c = ct.as_str();
                eq_ignore_ascii_case(c, "image/png") || eq_ignore_ascii_case(c, "image/jpeg")
                    || eq_ignore_ascii_case(c, "image/jpg") || eq_ignore_ascii_case(c, "image/gif")
            },
            None => false,
        }
    }

    /// The media type is `application/pdf` up to ASCII case.
    pub fn is_pdf(&self) -> (r: bool)
        ensures
            r == spec_is_pdf(self.content_type),
    {
        match &self.content_type {
            Some(ct) => eq_ignore_ascii_case(ct.as_str(), "application/pdf"),
            None => false,
        }
    }
}

impl Identifiable for FileUploadV2 {
    open spec fn id_of(&self) -> Seq<char> {
        self.id@
    }

    fn get_id(&self) -> (r: &str) {
        self.id.as_str()
    }
}

impl Default for FileUploadV2 {
    /// A blank record with a fresh id, created now.
    fn default() -> (r: FileUploadV2)
        ensures
            r.is_blank(),
    {
        FileUploadV2 {
            id: IdGenerator.get(),
            content_type: None,
            original_filename: String::new(),
            extension: None,
            creation_date: now_millis(),
            updated_date: None,
            thumb: None,
            thumbnail_id: None,
            size: 0,
            public_resource: false,
            correlation_id: None,
            bookmarked: Some(false),
            bookmarked_date: None,
            name: None,
        }
    }
}

/// Query parameters of an upload.
pub struct UploadFileRequestUriParams {
    pub correlation_id: Option<String>,
    pub id: Option<String>,
    pub is_public: Option<bool>,
    pub without_thumbnail: Option<bool>,
}

/// Query parameters naming one upload.
pub struct DownloadFileRequestUriParams {
    pub id: String,
}

/// Query parameters naming several uploads.
pub struct DownloadBulkRequestUriParams {
    pub ids: Vec<String>,
}

/// Query parameters of the listing of uploads.
pub struct FindAllQueryParams {
    pub correlation_id: Option<String>,
}

/// A PDF is neither an image nor a supported image: `application/pdf`
/// differs from every image type from its first letter on.
pub proof fn law_pdf_is_not_image(ct: Option<String>)
    requires
        spec_is_pdf(ct),
    ensures
        !spec_is_image(ct),
        !spec_is_supported_image(ct),
{
    reveal_strlit("application/pdf");
    reveal_strlit("image");
    reveal_strlit("image/png");
    reveal_strlit("image/jpeg");
    reveal_strlit("image/jpg");
    reveal_strlit("image/gif");
    let c = ct->Some_0@;
    assert("application/pdf"@[0] == 'a');
    assert(lower_code(c[0]) == lower_code("application/pdf"@[0]));
    assert(lower_code('a') == 97);
    assert((c[0] as int) == 97 || (c[0] as int) == 65);
    assert(lower_code('i') == 105);
    assert(c.len() > 0 && c[0] != 'i');
    assert(!"image"@.is_prefix_of(c)) by {
        if "image"@.is_prefix_of(c) {
            assert(c[0] == "image"@[0]);
        }
    }
}

/// PNG, JPEG (as `image/jpeg` or `image/jpg`) and GIF uploads are drawn
/// into thumbnails from the file itself: each of these media types, in any
/// ASCII case, is a supported image.
pub proof fn law_common_images_supported(c: String)
    requires
        eq_ignore_case(c@, "image/png"@) || eq_ignore_case(c@, "image/jpeg"@) || eq_ignore_case(c@, "image/jpg"@)
            || eq_ignore_case(c@, "image/gif"@),
    ensures
        spec_is_supported_image(Some(c)),
{
}

/// A supported image type written without upper-case letters is an image
/// type. (`IMAGE/PNG` is supported, being compared up to case, but is not
/// an image type, which is a case-sensitive prefix test.)
pub proof fn law_supported_lowercase_is_image(ct: Option<String>)
    requires
        spec_is_supported_image(ct),
        ct matches Some(c) && has_no_upper(c@),
    ensures
        spec_is_image(ct),
{
    reveal_strlit("image");
    reveal_strlit("image/png");
    reveal_strlit("image/jpeg");
    reveal_strlit("image/jpg");
    reveal_strlit("image/gif");
    let c = ct->Some_0@;
    let lit = if eq_ignore_case(c, "image/png"@) {
        "image/png"@
    } else if eq_ignore_case(c, "image/jpeg"@) {
        "image/jpeg"@
    } else if eq_ignore_case(c, "image/jpg"@) {
        "image/jpg"@
    } else {
        "image/gif"@
    };
    assert(eq_ignore_case(c, lit));
    assert forall|i: int| 0 <= i < 5 implies c[i] == #[trigger] "image"@[i] by {
        assert(lower_code(c[i]) == lower_code(lit[i]));
        assert(!('A' <= c[i] && c[i] <= 'Z'));
        assert(lit[i] == "image"@[i]);
        assert(!('A' <= lit[i] && lit[i] <= 'Z'));
        assert((c[i] as int) == (lit[i] as int));
    }
    assert("image"@.is_prefix_of(c));
}

/// The file of an upload made by `new` keeps the extension of the uploaded
/// path: the disk name's extension is the path's (empty when the path has
/// none).
pub proof fn law_new_keeps_extension(path: Seq<char>, f: FileUploadV2)
    requires
        is_hyphenated_uuid(f.id@),
        opt_view(f.extension) == path_extension(path),
    ensures
        path_extension(crate::upload::service::disk_name(f)) == Some(
            match path_extension(path) {
                Some(e) => e,
                None => Seq::empty(),
            },
        ),
{
    lemma_extension_plain(path);
    crate::upload::service::law_disk_name_component(Seq::empty(), f);
}

} // verus!
