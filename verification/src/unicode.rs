//! Case mapping of single codepoints.

pub mod case_mapping_iter;
pub mod mapping;
pub mod title_table;
pub mod titlecase;
