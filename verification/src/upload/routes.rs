//! Decisions of the upload routes: the record made for each uploaded field,
//! the batch of files in one request, and the replies and headers sent.
use vstd::prelude::*;
use crate::common::domain::{JsonReply, ServiceError};
use crate::common::util::is_uuid_v7_text;
use crate::path::{extension, path_extension};
use crate::store::repository::Filter;
use crate::text::{text_concat, text_concat3, decimal, opt_view, same_text, u64_to_decimal};
use crate::upload::domain::{
    guessed_mime, mime_from_path, spec_is_image, FileUploadV2, FindAllQueryParams,
};

verus! {

/// The name of the uploads collection: the configured one, `fileUpload` when none is.
pub fn file_collection_name(configured: Option<String>) -> (r: String)
    ensures
        match configured {
            Some(c) => r@ == c@,
            None => r@ == "fileUpload"@,
        },
{
    match configured {
        Some(c) => c,
        None => String::from_str("fileUpload"),
    }
}

/// The record made for an uploaded form field named `file_name`: an error
/// `no file name in field` when the field has no file name; otherwise a
/// fresh record whose media type is the field's, or else the one guessed
/// from the name, whose extension is the name's, and whose name and
/// original name are the field's file name.
pub fn field_upload(
    file_name: Option<&str>,
    field_content_type: Option<String>,
    correlation_id: Option<String>,
) -> (r: Result<FileUploadV2, ServiceError>)
    ensures
        file_name is None ==> (r matches Err(e) && e.0@ == "no file name in field"@),
        file_name matches Some(n) ==> (r matches Ok(f) && {
            &&& is_uuid_v7_text(f.id@)
            &&& opt_view(f.content_type) == match field_content_type {
                Some(c) => Some(c@),
                None => guessed_mime(n@),
            }
            &&& f.correlation_id == correlation_id
            &&& opt_view(f.extension) == path_extension(n@)
            &&& f.original_filename@ == n@
            &&& f.bookmarked == Some(false)
            &&& opt_view(f.name) == Some(n@)
            &&& f.size == 0
            &&& !f.public_resource
            &&& f.updated_date is None
            &&& f.thumbnail_id is None
            &&& f.thumb is None
            &&& f.bookmarked_date is None
        }),
{
    let name = match file_name {
        Some(n) => n,
        None => {
            return Err(ServiceError::new("no file name in field"));
        },
    };
    let content_type = match field_content_type {
        Some(c) => Some(c),
        None => mime_from_path(name),
    };
    let blank = FileUploadV2::default();
    Ok(FileUploadV2 {
        content_type,
        correlation_id,
        extension: extension(name),
        original_filename: String::from_str(name),
        bookmarked: Some(false),
        name: Some(String::from_str(name)),
        ..blank
    })
}

/// One uploaded file of a request: its field's file name, its record, and
/// where it was written.
#[derive(Debug)]
pub struct UploadEntry {
    pub file_name: String,
    pub upload: FileUploadV2,
    pub temp_path: String,
}

/// Position of the entry named `name` in `s`, `-1` when there is none.
pub open spec fn position_of(s: Seq<UploadEntry>, name: Seq<char>) -> int
    decreases s.len(),
{
    if s.len() == 0 {
        -1
    } else if s.last().file_name@ == name {
        s.len() - 1
    } else {
        position_of(s.drop_last(), name)
    }
}

/// No two entries of `s` share a file name.
pub open spec fn names_distinct(s: Seq<UploadEntry>) -> bool {
    forall|i: int, j: int|
        0 <= i < s.len() && 0 <= j < s.len() && i != j ==> #[trigger] s[i].file_name@ != #[trigger] s[j].file_name@
}

proof fn lemma_position_of(s: Seq<UploadEntry>, name: Seq<char>)
    ensures
        -1 <= position_of(s, name) < s.len(),
        position_of(s, name) >= 0 ==> s[position_of(s, name)].file_name@ == name,
        position_of(s, name) == -1 ==> forall|j: int| 0 <= j < s.len() ==> #[trigger] s[j].file_name@ != name,
    decreases s.len(),
{
    if s.len() > 0 && s.last().file_name@ != name {
        lemma_position_of(s.drop_last(), name);
        if position_of(s, name) == -1 {
            assert forall|j: int| 0 <= j < s.len() implies #[trigger] s[j].file_name@ != name by {
                if j < s.len() - 1 {
                    assert(s.drop_last()[j] == s[j]);
                }
            }
        }
    }
}

/// `new` is `old` once `e` is added as `UploadBatch::insert` adds it.
pub open spec fn inserted(old: Seq<UploadEntry>, e: UploadEntry, new: Seq<UploadEntry>) -> bool {
    &&& position_of(old, e.file_name@) >= 0 ==> new == old.update(position_of(old, e.file_name@), e)
    &&& position_of(old, e.file_name@) == -1 ==> new == old.push(e)
}

/// Of several fields with one file name, the last one wins: after an
/// insertion the batch still holds one entry per name, the entry with the
/// inserted name is the inserted one, entries of other names stay as they
/// were, and the batch grows only when the name is new.
pub proof fn law_batch_last_wins(old: Seq<UploadEntry>, e: UploadEntry, new: Seq<UploadEntry>)
    requires
        names_distinct(old),
        inserted(old, e, new),
    ensures
        names_distinct(new),
        exists|j: int| 0 <= j < new.len() && new[j] == e,
        forall|j: int| 0 <= j < new.len() && #[trigger] new[j].file_name@ == e.file_name@ ==> new[j] == e,
        forall|i: int| 0 <= i < old.len() && #[trigger] old[i].file_name@ != e.file_name@ ==> new[i] == old[i],
        new.len() == old.len() + (if position_of(old, e.file_name@) == -1 { 1int } else { 0int }),
{
    lemma_position_of(old, e.file_name@);
    let p = position_of(old, e.file_name@);
    if p >= 0 {
        assert(new[p] == e);
        assert forall|a: int, b: int|
            0 <= a < new.len() && 0 <= b < new.len() && a != b implies
            #[trigger] new[a].file_name@ != #[trigger] new[b].file_name@ by {
            if a != p && b != p {
                assert(old[a] == new[a] && old[b] == new[b]);
            } else if a == p {
                assert(old[b] == new[b]);
            } else {
                assert(old[a] == new[a]);
            }
        }
        assert forall|j: int| 0 <= j < new.len() && #[trigger] new[j].file_name@ == e.file_name@ implies new[j] == e by {
            if j != p {
                assert(new[j] == old[j]);
                assert(old[p].file_name@ == e.file_name@);
            }
        }
    } else {
        let n = old.len() as int;
        assert(new[n] == e);
        assert forall|a: int, b: int|
            0 <= a < new.len() && 0 <= b < new.len() && a != b implies
            #[trigger] new[a].file_name@ != #[trigger] new[b].file_name@ by {
            if a < n && b < n {
                assert(old[a] == new[a] && old[b] == new[b]);
            } else if a == n {
                assert(old[b] == new[b]);
            } else {
                assert(old[a] == new[a]);
            }
        }
        assert forall|j: int| 0 <= j < new.len() && #[trigger] new[j].file_name@ == e.file_name@ implies new[j] == e by {
            if j < n {
                assert(new[j] == old[j]);
            }
        }
    }
}

/// The files of one upload request, one per file name: a later field with
/// the name of an earlier one replaces it, keeping its place.
pub struct UploadBatch {
    entries: Vec<UploadEntry>,
}

impl UploadBatch {
    /// The entries, in the order their names first appeared.
    pub closed spec fn entries(&self) -> Seq<UploadEntry> {
        self.entries@
    }

    #[verifier::type_invariant]
    closed spec fn inv(&self) -> bool {
        names_distinct(self.entries@)
    }

    /// An empty batch.
    pub fn new() -> (r: UploadBatch)
        ensures
            r.entries().len() == 0,
    {
        UploadBatch { entries: Vec::new() }
    }

    /// The number of files in the batch.
    pub fn len(&self) -> (r: usize)
        ensures
            r == self.entries().len(),
    {
        self.entries.len()
    }

    /// Adds a file: it replaces the entry of the same name, in place, or
    /// comes last when its name is new.
    pub fn insert(&mut self, entry: UploadEntry)
        ensures
            inserted(old(self).entries(), entry, final(self).entries()),
    {
        proof {
            use_type_invariant(&*self);
            lemma_position_of(self.entries@, entry.file_name@);
        }
        let n = self.entries.len();
        let mut i: usize = n;
        let ghost s = self.entries@;
        proof {
            assert(s.subrange(0, n as int) =~= s);
        }
        while i > 0
            invariant
                s == self.entries@,
                s == old(self).entries(),
                n == s.len(),
                i <= n,
                names_distinct(s),
                position_of(s, entry.file_name@) == position_of(s.subrange(0, i as int), entry.file_name@),
            decreases i,
        {
            let ghost pre = s.subrange(0, i as int);
            if same_text(self.entries[i - 1].file_name.as_str(), entry.file_name.as_str()) {
                proof {
                    assert(pre.last() == s[i - 1]);
                    assert(position_of(pre, entry.file_name@) == i - 1);
                }
                let ghost updated = s.update(i - 1, entry);
                let mut entries: Vec<UploadEntry> = Vec::new();
                std::mem::swap(&mut entries, &mut self.entries);
                entries.set(i - 1, entry);
                proof {
                    assert forall|a: int, b: int|
                        0 <= a < updated.len() && 0 <= b < updated.len() && a != b implies
                        #[trigger] updated[a].file_name@ != #[trigger] updated[b].file_name@ by {
                        if a != i - 1 && b != i - 1 {
                            assert(s[a] == updated[a] && s[b] == updated[b]);
                        } else if a == i - 1 {
                            assert(s[b] == updated[b]);
                            assert(s[a].file_name@ == updated[a].file_name@);
                        } else {
                            assert(s[a] == updated[a]);
                            assert(s[b].file_name@ == updated[b].file_name@);
                        }
                    }
                }
                self.entries = entries;
                return;
            }
            proof {
                assert(pre.drop_last() =~= s.subrange(0, i - 1));
            }
            i = i - 1;
        }
        proof {
            assert(position_of(s.subrange(0, 0), entry.file_name@) == -1);
            lemma_position_of(s, entry.file_name@);
        }
        let ghost pushed = s.push(entry);
        let mut entries: Vec<UploadEntry> = Vec::new();
                std::mem::swap(&mut entries, &mut self.entries);
        entries.push(entry);
        proof {
            assert forall|a: int, b: int|
                0 <= a < pushed.len() && 0 <= b < pushed.len() && a != b implies
                #[trigger] pushed[a].file_name@ != #[trigger] pushed[b].file_name@ by {
                if a < n && b < n {
                    assert(s[a] == pushed[a] && s[b] == pushed[b]);
                } else if a == n {
                    assert(s[b] == pushed[b]);
                } else {
                    assert(s[a] == pushed[a]);
                }
            }
        }
        self.entries = entries;
    }

    /// The entries, in the order their names first appeared.
    pub fn into_entries(self) -> (r: Vec<UploadEntry>)
        ensures
            r@ == self.entries(),
            names_distinct(r@),
    {
        proof {
            use_type_invariant(&self);
        }
        self.entries
    }
}

/// The record stored when a request uploads exactly one file: the id given
/// in the query replaces the record's, and the file is public exactly when
/// the query says so.
pub fn single_upload(upl: FileUploadV2, id: Option<String>, is_public: Option<bool>) -> (r: FileUploadV2)
    ensures
        r == (FileUploadV2 {
            id: match id {
                Some(i) => i,
                None => upl.id,
            },
            public_resource: match is_public {
                Some(p) => p,
                None => false,
            },
            ..upl
        }),
{
    let mut upl = upl;
    if let Some(i) = id {
        upl.id = i;
    }
    upl.public_resource = match is_public {
        Some(p) => p,
        None => false,
    };
    upl
}

/// The filter listing uploads: those of the given correlation id, or all.
pub fn uploads_filter(params: FindAllQueryParams) -> (r: Filter)
    ensures
        match params.correlation_id {
            Some(c) => r matches Filter::FieldEquals(f, v) && f@ == "correlationId"@ && v@ == c@,
            None => r is All,
        },
{
    match params.correlation_id {
        Some(c) => Filter::FieldEquals(String::from_str("correlationId"), c),
        None => Filter::All,
    }
}

/// The reply when the requested upload does not exist: 404 `{"error": "Not found"}`.
pub fn not_found_reply() -> (r: JsonReply)
    ensures
        r.status == 404,
        r.key@ == "error"@,
        r.message@ == "Not found"@,
{
    JsonReply::error(404, "Not found")
}

/// The reply to deleting the upload `upl_id`: 200 `upl with id … deleted`
/// when it worked, 500 `upl with id … could not be deleted, check logs`
/// otherwise.
pub fn delete_reply(upl_id: &str, deleted: bool) -> (r: JsonReply)
    ensures
        r.key@ == "result"@,
        deleted ==> r.status == 200 && r.message@ == "upl with id "@ + upl_id@ + " deleted"@,
        !deleted ==> r.status == 500 && r.message@ == "upl with id "@ + upl_id@
            + " could not be deleted, check logs"@,
{
    if deleted {
        JsonReply::result(200, text_concat3("upl with id ", upl_id, " deleted").as_str())
    } else {
        JsonReply::result(500, text_concat3("upl with id ", upl_id, " could not be deleted, check logs").as_str())
    }
}

/// The headers of a download: its media type, and either its length (for
/// an image, shown inline) or an attachment disposition with its original
/// name.
#[derive(Debug)]
pub struct DownloadHeaders {
    pub content_type: String,
    pub name: String,
    pub value: String,
}

/// The headers of the download of `file`: `content-type` is the file's
/// media type, `application/octet-stream` when it has none; an image gets
/// `content-length` with its size in decimal, any other file gets
/// `content-disposition: attachment; filename="<original name>"`.
pub fn download_headers(file: &FileUploadV2) -> (r: DownloadHeaders)
    ensures
        r.content_type@ == match file.content_type {
            Some(c) => c@,
            None => "application/octet-stream"@,
        },
        spec_is_image(file.content_type) ==> r.name@ == "content-length"@ && r.value@ == decimal(
            file.size as nat,
        ),
        !spec_is_image(file.content_type) ==> r.name@ == "content-disposition"@ && r.value@
            == "attachment; filename=\""@ + file.original_filename@ + "\""@,
{
    let content_type = match &file.content_type {
        Some(c) => c.clone(),
        None => String::from_str("application/octet-stream"),
    };
    if file.is_image() {
        DownloadHeaders {
            content_type,
            name: String::from_str("content-length"),
            value: u64_to_decimal(file.size),
        }
    } else {
        DownloadHeaders {
            content_type,
            name: String::from_str("content-disposition"),
            value: text_concat3("attachment; filename=\"", file.original_filename.as_str(), "\""),
        }
    }
}

} // verus!
