//! Extraction, alignment, compaction and encoding of the VRS annotations that
//! a variant annotator stores as parallel arrays in the INFO column of a VCF.
pub mod allele;
pub mod error;
pub mod field;
pub mod input;
pub mod output;
pub mod record;
pub mod rows;
pub mod text;
