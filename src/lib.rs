//! Build-time compiler for a plugin's permission declarations: name checks,
//! merging of permission files, reference documentation, and the ordered
//! stages of one build.

pub mod docs;
pub mod error;
pub mod naming;
pub mod permissions;
pub mod pipeline;
