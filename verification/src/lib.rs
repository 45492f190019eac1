//! Verified engine that derives companion code for enumerated types:
//! canonical names, index-based reconstruction and display formatting.

pub mod analyze;
pub mod diag;
pub mod emit;
pub mod enum_helpers;
pub mod lookup;
pub mod model;
pub mod request;
pub mod util;
pub mod utils;
