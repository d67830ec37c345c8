//! The patch transactions: the primary loader patch and the secondary
//! OpenAsar patch.

pub mod patch_mod;
pub mod patch_openasar;
