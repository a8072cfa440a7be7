//! `inspect` for `Option` and `Result`: hand the carried value to a callback by
//! reference, then pass the container on unchanged, so that it can flow on
//! through a chain of calls.
//!
//! std now has inherent methods of the same names, which method-call syntax
//! prefers; reach these through the traits (`OptionInspector::inspect(x, f)`).

mod option;
mod result;

pub mod laws;
pub mod prelude;

pub use prelude::{OptionInspector, ResultInspector};
