//! Identifiers, timestamps and the small request and schema types shared by
//! the routes.
use vstd::prelude::*;

verus! {

/// `s` is the hyphenated lower-case text of a UUID: 36 characters, `-` at
/// positions 8, 13, 18 and 23, lower-case hexadecimal digits elsewhere.
pub open spec fn is_hyphenated_uuid(s: Seq<char>) -> bool {
    &&& s.len() == 36
    &&& forall|i: int|
        0 <= i < 36 ==> if i == 8 || i == 13 || i == 18 || i == 23 {
            #[trigger] s[i] == '-'
        } else {
            ('0' <= s[i] && s[i] <= '9') || ('a' <= s[i] && s[i] <= 'f')
        }
}

/// `s` is the hyphenated lower-case text of a version 7 UUID: its version
/// digit (position 14) is `7` and its variant digit (position 19) is one of
/// `8`, `9`, `a`, `b`.
pub open spec fn is_uuid_v7_text(s: Seq<char>) -> bool {
    &&& is_hyphenated_uuid(s)
    &&& s[14] == '7'
    &&& (s[19] == '8' || s[19] == '9' || s[19] == 'a' || s[19] == 'b')
}

/// A hyphenated UUID holds neither `.` nor `/`.
pub proof fn lemma_uuid_plain(s: Seq<char>)
    requires
        is_hyphenated_uuid(s),
    ensures
        forall|i: int| 0 <= i < s.len() ==> #[trigger] s[i] != '.' && s[i] != '/',
{
    assert forall|i: int| 0 <= i < s.len() implies #[trigger] s[i] != '.' && s[i] != '/' by {
        if i == 8 || i == 13 || i == 18 || i == 23 {
        } else {
        }
    }
}

/// Calls `uuid::Uuid::now_v7()` and renders it with `to_string()`. The UUID
/// depends on the clock and on random bits, so only the shape of its text is
/// stated: the hyphenated lower-case form that `Uuid`'s `Display` writes,
/// with the version digit `7` and the RFC 4122 variant that `new_v7` sets.
/// That ids of one process differ (the crate orders them by creation) is
/// not stated: it relates two calls.
#[verifier::external_body]
fn uuid_v7_text() -> (r: String)
    ensures
        is_uuid_v7_text(r@),
{
    uuid::Uuid::now_v7().to_string()
}

/// Calls `bson::DateTime::now()` and returns its milliseconds since the Unix
/// epoch (`timestamp_millis`). It reads the clock, so nothing is stated of
/// the value.
#[verifier::external_body]
pub(crate) fn now_millis() -> (r: i64) {
    bson::DateTime::now().timestamp_millis()
}

/// Calls `chrono::Local::now()` and returns its local wall-clock time
/// (`naive_local`) as milliseconds since the epoch. It reads the clock and
/// the machine's time zone, so nothing is stated of the value.
#[verifier::external_body]
pub(crate) fn now_local_millis() -> (r: i64) {
    chrono::Local::now().naive_local().and_utc().timestamp_millis()
}

/// Schema of a binary response body.
pub struct OpenApiBinaryResponse(pub String);

/// Schema of a multipart form carrying files.
pub struct OpenApiDocUploadForm {
    pub files: Vec<String>,
}

/// Schema of a multipart form carrying one file.
pub struct OpenApiDocUploadFormSimpleFile {
    pub file: String,
}

/// The name of a stored collection.
#[derive(Clone, Debug)]
pub struct StoreCollection(pub String);

impl StoreCollection {
    /// A copy of the collection name.
    pub fn duplicate(&self) -> (r: StoreCollection)
        ensures
            r.0@ == self.0@,
    {
        StoreCollection(self.0.clone())
    }
}

/// Generator of fresh identifiers.
pub struct IdGenerator;

impl IdGenerator {
    /// A fresh time-ordered UUID (version 7) in hyphenated lower-case text.
    pub fn get(&self) -> (r: String)
        ensures
            is_uuid_v7_text(r@),
    {
        uuid_v7_text()
    }
}

/// Query parameters naming a list of ids.
pub struct QueryIds {
    pub ids: Vec<String>,
}

} // verus!
