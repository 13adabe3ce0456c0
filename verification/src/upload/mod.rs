//! Uploaded files: their records, the service that stores them, conversion
//! to images and the decisions of the upload routes.
pub mod domain;
pub mod imagemagick;
pub mod routes;
pub mod service;

use vstd::prelude::*;

verus! {

/// Formats a file can be converted to.
pub enum ConvertType {
    Png,
}

impl ConvertType {
    /// The name of the target format, used as extension and as converter output type.
    pub fn to_str(&self) -> (r: &'static str)
        ensures
            self is Png ==> r@ == "png"@,
    {
        match self {
            ConvertType::Png => "png",
        }
    }
}

} // verus!
