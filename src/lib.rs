//! Archiver for a paginated favorites collection: request URLs, content-addressed
//! local paths, download selection and the decisions of the page walk.

pub mod endpoint;
pub mod model;
pub mod hydrate;
pub mod dedupe;
pub mod walker;
