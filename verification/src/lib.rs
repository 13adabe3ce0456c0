//! Verified core of a file and template service: upload records, naming of
//! files on disk, paging over stored collections, request decisions and the
//! replies they produce.
pub mod text;
pub mod path;
pub mod common;
pub mod upload;
pub mod store;
pub mod template;
