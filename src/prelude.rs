//! The two extension traits, for `use respector::prelude::*;`.
pub use crate::option::OptionInspector;
pub use crate::result::ResultInspector;
