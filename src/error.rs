//! Errors of the per-record pipeline.
use crate::field::VcfParseError;
use vstd::prelude::*;

verus! {

/// Why a record, or the run, could not be processed.
#[derive(Debug, Clone, PartialEq, Eq)]
pub enum VcfError {
    /// The input path names neither a `.vcf` nor a `.vcf.gz` file.
    UnsupportedFiletype,
    /// One of the four VRS fields could not be extracted.
    Field(VcfParseError),
    /// The four VRS arrays of a record differ in length.
    LengthMismatch,
    /// An allele identifier names no known variation type.
    UnrecognizedVariationType,
    /// The record's position is missing, unreadable or out of range.
    InvalidPosition,
    /// The allele counter would pass its largest value.
    CounterExhausted,
    /// Reading the input or writing the output failed; the cause.
    IoFailure(String),
}

} // verus!
