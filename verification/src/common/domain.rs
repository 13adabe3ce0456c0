//! The service's error type and the JSON replies that routes send.
use vstd::prelude::*;

verus! {

/// An error of the service, carrying its message.
#[derive(Debug)]
pub struct ServiceError(pub String);

/// A reply made of an HTTP status and a one-entry JSON object `{key: message}`.
#[derive(Debug)]
pub struct JsonReply {
    pub status: u16,
    pub key: String,
    pub message: String,
}

/// A reply made of an HTTP status and a plain-text body.
#[derive(Debug)]
pub struct TextReply {
    pub status: u16,
    pub body: String,
}

impl TextReply {
    /// A reply with the given status and body.
    pub fn new(status: u16, body: &str) -> (r: TextReply)
        ensures
            r.status == status,
            r.body@ == body@,
    {
        TextReply { status, body: String::from_str(body) }
    }
}

impl JsonReply {
    /// A reply with the given status and `{key: message}` body.
    pub fn new(status: u16, key: &str, message: &str) -> (r: JsonReply)
        ensures
            r.status == status,
            r.key@ == key@,
            r.message@ == message@,
    {
        JsonReply { status, key: String::from_str(key), message: String::from_str(message) }
    }

    /// A reply with body `{"error": message}`.
    pub fn error(status: u16, message: &str) -> (r: JsonReply)
        ensures
            r.status == status,
            r.key@ == "error"@,
            r.message@ == message@,
    {
        JsonReply::new(status, "error", message)
    }

    /// A reply with body `{"result": message}`.
    pub fn result(status: u16, message: &str) -> (r: JsonReply)
        ensures
            r.status == status,
            r.key@ == "result"@,
            r.message@ == message@,
    {
        JsonReply::new(status, "result", message)
    }
}

impl ServiceError {
    /// An error whose message is `msg`.
    pub fn new(msg: &str) -> (r: ServiceError)
        ensures
            r.0@ == msg@,
    {
        ServiceError(String::from_str(msg))
    }

    /// The message of the error (what `Display` writes).
    pub fn message(&self) -> (r: &str)
        ensures
            r@ == self.0@,
    {
        self.0.as_str()
    }

    /// The reply sent for the error: status 500 and `{"error": message}`.
    pub fn reply(&self) -> (r: JsonReply)
        ensures
            r.status == 500,
            r.key@ == "error"@,
            r.message@ == self.0@,
    {
        JsonReply::error(500, self.0.as_str())
    }
}

} // verus!
