pub mod constant;
pub mod domain;
pub mod user_header;
pub mod util;
