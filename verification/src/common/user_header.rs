//! The user identity that a gateway forwards in the `X-USER-INFO` header:
//! a base64 (standard alphabet) encoding of a JSON document.
use vstd::prelude::*;
use base64::Engine;
use crate::common::domain::{JsonReply, ServiceError};

verus! {

/// Name of the header that carries the user identity.
pub const X_USER_INFO_HEADER: &'static str = "x-user-info";

/// The identity of the caller.
#[derive(Debug)]
pub struct UserInfo {
    pub id: String,
    pub full_name: Option<String>,
    pub given_name: Option<String>,
    pub family_name: Option<String>,
    pub middle_name: Option<String>,
    pub username: Option<String>,
    pub email: Option<String>,
    pub roles: Vec<String>,
    pub groups: Vec<String>,
    pub tenant: Option<String>,
}

/// The identity of the caller together with the header value it came from.
#[derive(Debug)]
pub struct ExtractUserInfo {
    pub user_info: UserInfo,
    pub header: String,
}

/// Why a request carries no usable identity.
#[derive(Debug)]
pub enum UserInfoRejection {
    /// The header is absent.
    Missing,
    /// The header is present but cannot be read as an identity.
    Invalid,
}

/// The bytes that base64 standard decoding (`base64::engine::general_purpose::STANDARD`)
/// gives for `text`, or none when `text` is not valid for it.
pub uninterp spec fn base64_standard_decoded(text: Seq<char>) -> Option<Seq<u8>>;

/// Calls `STANDARD.decode` of the `base64` crate on the text's bytes. Its
/// result is a function of the text alone and is given the name
/// `base64_standard_decoded`; a decoding error becomes `None`.
#[verifier::external_body]
fn decode_base64_standard(text: &str) -> (r: Option<Vec<u8>>)
    ensures
        match r {
            Some(b) => base64_standard_decoded(text@) == Some(b@),
            None => base64_standard_decoded(text@) is None,
        },
{
    base64::engine::general_purpose::STANDARD.decode(text).ok()
}

/// The message of the error given for an unreadable token.
pub open spec fn token_error_message() -> Seq<char> {
    "could not extract token"@
}

impl ExtractUserInfo {
    /// The JSON bytes that the header value encodes: its base64 standard
    /// decoding, or the token error when it does not decode.
    pub fn token_bytes(value: &str) -> (r: Result<Vec<u8>, ServiceError>)
        ensures
            match base64_standard_decoded(value@) {
                Some(b) => r matches Ok(v) && v@ == b,
                None => r matches Err(e) && e.0@ == token_error_message(),
            },
    {
        match decode_base64_standard(value) {
            Some(b) => Ok(b),
            None => Err(ServiceError::new("could not extract token")),
        }
    }

    /// The identity read from the header `value`, once its JSON document has
    /// been parsed (`None` when the document is not a user identity): the
    /// token error when there is no identity.
    pub fn from_parsed(value: &str, parsed: Option<UserInfo>) -> (r: Result<ExtractUserInfo, ServiceError>)
        ensures
            parsed is Some <==> r is Ok,
            r matches Ok(x) ==> x.header@ == value@ && Some(x.user_info) == parsed,
            r matches Err(e) ==> e.0@ == token_error_message(),
    {
        match parsed {
            Some(user_info) => Ok(ExtractUserInfo { user_info, header: String::from_str(value) }),
            None => Err(ServiceError::new("could not extract token")),
        }
    }
}

impl UserInfoRejection {
    /// The reply for the rejection: 403 `X-USER-INFO is missing` when the
    /// header is absent, 400 `X-USER-INFO is invalid` when it is unusable.
    pub fn reply(&self) -> (r: JsonReply)
        ensures
            r.key@ == "error"@,
            self is Missing ==> r.status == 403 && r.message@ == "X-USER-INFO is missing"@,
            self is Invalid ==> r.status == 400 && r.message@ == "X-USER-INFO is invalid"@,
    {
        match self {
            UserInfoRejection::Missing => JsonReply::error(403, "X-USER-INFO is missing"),
            UserInfoRejection::Invalid => JsonReply::error(400, "X-USER-INFO is invalid"),
        }
    }
}

/// The outcome of reading the identity header: `header` is `None` when the
/// header is absent, `Some(None)` when it is present but unusable, and
/// `Some(Some(x))` when it gave the identity `x`.
pub fn resolve_user_info(header: Option<Option<ExtractUserInfo>>) -> (r: Result<ExtractUserInfo, UserInfoRejection>)
    ensures
        header is None ==> r matches Err(UserInfoRejection::Missing),
        header matches Some(None) ==> r matches Err(UserInfoRejection::Invalid),
        header matches Some(Some(x)) ==> r == Ok::<ExtractUserInfo, UserInfoRejection>(x),
{
    match header {
        None => Err(UserInfoRejection::Missing),
        Some(None) => Err(UserInfoRejection::Invalid),
        Some(Some(x)) => Ok(x),
    }
}

} // verus!
