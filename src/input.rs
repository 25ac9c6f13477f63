//! The choice of decoder for an input file.
use crate::error::VcfError;
use crate::text::same_text;
use vstd::prelude::*;

verus! {

/// How an input file is framed.
#[derive(Debug, Clone, Copy, PartialEq, Eq, Structural)]
pub enum InputKind {
    /// A BGZF-compressed VCF (`.vcf.gz`).
    Bgzf,
    /// A plain-text VCF (`.vcf`).
    Plain,
}

/// The framing that a file's extension names.
pub open spec fn spec_input_kind(extension: Option<Seq<char>>) -> Result<InputKind, VcfError> {
    match extension {
        Some(e) => if e == "gz"@ {
            Ok(InputKind::Bgzf)
        } else if e == "vcf"@ {
            Ok(InputKind::Plain)
        } else {
            Err(VcfError::UnsupportedFiletype)
        },
        None => Err(VcfError::UnsupportedFiletype),
    }
}

pub open spec fn ext_view(extension: Option<&str>) -> Option<Seq<char>> {
    match extension {
        Some(e) => Some(e@),
        None => None,
    }
}

/// Picks the decoder for a file from its extension.
pub fn input_kind(extension: Option<&str>) -> (r: Result<InputKind, VcfError>)
    ensures
        r == spec_input_kind(ext_view(extension)),
{
    match extension {
        Some(e) => if same_text(e, "gz") {
            Ok(InputKind::Bgzf)
        } else if same_text(e, "vcf") {
            Ok(InputKind::Plain)
        } else {
            Err(VcfError::UnsupportedFiletype)
        },
        None => Err(VcfError::UnsupportedFiletype),
    }
}

} // verus!
