//! Cross-file name resolution: module paths, declaration search, re-export
//! ("barrel") files, cycle detection, and the resolver that ties them
//! together.

pub mod barrel;
pub mod circular;
pub mod declarations;
pub mod module_resolution;
pub mod resolver;
pub mod types;
