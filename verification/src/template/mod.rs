//! Document templates: their records, rendering, and the decisions of the
//! template routes.
pub mod domain;
pub mod render;
pub mod routes;
