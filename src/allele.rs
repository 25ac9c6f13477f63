//! Per-allele attributes: their alignment from the four arrays, and the
//! compact form of an allele identifier.
use crate::error::VcfError;
use crate::field::texts_view;
use crate::text::{decimal, decimal_text, drop_chars, has_prefix, starts_with};
use vstd::prelude::*;

verus! {

/// The kinds of VRS variation that the compact form can carry.
#[derive(Debug, Clone, Copy, PartialEq, Eq, Structural)]
pub enum VariationType {
    Allele,
}

impl VariationType {
    /// The token that starts an identifier of this kind, with its dot.
    pub open spec fn token(self) -> Seq<char> {
        match self {
            VariationType::Allele => "VA."@,
        }
    }

    /// The one-digit code that stands for the token in the compact form.
    pub open spec fn code(self) -> u8 {
        match self {
            VariationType::Allele => 1,
        }
    }

    pub fn to_id(&self) -> (r: Result<u8, ()>)
        ensures
            r == Ok::<u8, ()>(self.code()),
            0 < self.code() < 10,
    {
        match self {
            VariationType::Allele => Ok(1),
        }
    }

    pub fn token_str(&self) -> (r: &'static str)
        ensures
            r@ == self.token(),
    {
        match self {
            VariationType::Allele => "VA.",
        }
    }
}

/// The kind of variation whose token starts `s`, if any.
pub open spec fn spec_type_of(s: Seq<char>) -> Option<VariationType> {
    if has_prefix(s, VariationType::Allele.token()) {
        Some(VariationType::Allele)
    } else {
        None
    }
}

/// The namespace that may stand before an identifier.
pub open spec fn namespace() -> Seq<char> {
    "ga4gh:"@
}

/// An identifier without its namespace, where it has one.
pub open spec fn without_namespace(id: Seq<char>) -> Seq<char> {
    if has_prefix(id, namespace()) {
        id.subrange(namespace().len() as int, id.len() as int)
    } else {
        id
    }
}

/// The compact form of an identifier: the code of its variation type, then
/// what follows the type's token. `None` where no known token starts it.
pub open spec fn spec_compact(id: Seq<char>) -> Option<Seq<char>> {
    let rest = without_namespace(id);
    match spec_type_of(rest) {
        Some(t) => Some(decimal(t.code() as int) + rest.subrange(t.token().len() as int, rest.len() as int)),
        None => None,
    }
}

/// Compaction ignores the namespace: an identifier with it and the same
/// identifier without it compact alike.
pub proof fn lemma_compact_namespace_insensitive(id: Seq<char>)
    requires
        !has_prefix(id, namespace()),
    ensures
        spec_compact(namespace() + id) == spec_compact(id),
{
    let full = namespace() + id;
    assert(full.subrange(0, namespace().len() as int) =~= namespace());
    assert(full.subrange(namespace().len() as int, full.len() as int) =~= id);
}

/// Compaction fails on every identifier whose leading token, once the
/// namespace is gone, names no known variation type.
pub proof fn lemma_compact_unrecognized(id: Seq<char>)
    requires
        forall|t: VariationType| !has_prefix(without_namespace(id), #[trigger] t.token()),
    ensures
        spec_compact(id) is None,
{
    assert(!has_prefix(without_namespace(id), VariationType::Allele.token()));
}

pub fn variation_type_of(s: &str) -> (r: Option<VariationType>)
    ensures
        r == spec_type_of(s@),
{
    if starts_with(s, VariationType::Allele.token_str()) {
        Some(VariationType::Allele)
    } else {
        None
    }
}

/// Rewrites a VRS identifier into its compact form.
pub fn compact_vrs_id(id: &str) -> (r: Result<String, VcfError>)
    ensures
        match r {
            Ok(s) => spec_compact(id@) == Some(s@),
            Err(e) => spec_compact(id@) is None && e == VcfError::UnrecognizedVariationType,
        },
{
    let ns = "ga4gh:";
    let rest = if starts_with(id, ns) {
        drop_chars(id, ns.unicode_len())
    } else {
        id
    };
    assert(rest@ == without_namespace(id@));
    match variation_type_of(rest) {
        Some(t) => {
            let code = match t.to_id() {
                Ok(c) => c,
                Err(()) => return Err(VcfError::UnrecognizedVariationType),
            };
            let mut out = decimal_text(code as i64);
            let token = t.token_str();
            out.append(drop_chars(rest, token.unicode_len()));
            Ok(out)
        },
        None => Err(VcfError::UnrecognizedVariationType),
    }
}

/// The four VRS attributes of one allele.
#[derive(Debug, Clone)]
pub struct VrsAlleleAttrs {
    pub vrs_id: String,
    pub vrs_start: i32,
    pub vrs_end: i32,
    pub vrs_state: String,
}

impl View for VrsAlleleAttrs {
    type V = (Seq<char>, i32, i32, Seq<char>);

    open spec fn view(&self) -> (Seq<char>, i32, i32, Seq<char>) {
        (self.vrs_id@, self.vrs_start, self.vrs_end, self.vrs_state@)
    }
}

impl VrsAlleleAttrs {
    /// The compact form of this allele's identifier.
    pub fn vrs_id_to_vrsix(&self) -> (r: Result<String, VcfError>)
        ensures
            match r {
                Ok(s) => spec_compact(self.vrs_id@) == Some(s@),
                Err(e) => spec_compact(self.vrs_id@) is None && e
                    == VcfError::UnrecognizedVariationType,
            },
    {
        compact_vrs_id(self.vrs_id.as_str())
    }
}

/// Whether four arrays describe the same number of alleles.
pub open spec fn same_lengths<A, B, C, D>(a: Seq<A>, b: Seq<B>, c: Seq<C>, d: Seq<D>) -> bool {
    a.len() == b.len() && b.len() == c.len() && c.len() == d.len()
}

/// The alignment of four arrays into one tuple per allele, position by position.
pub open spec fn spec_transpose(
    ids: Seq<Seq<char>>,
    starts: Seq<i32>,
    ends: Seq<i32>,
    states: Seq<Seq<char>>,
) -> Result<Seq<(Seq<char>, i32, i32, Seq<char>)>, VcfError> {
    if same_lengths(ids, starts, ends, states) {
        Ok(Seq::new(ids.len(), |i: int| (ids[i], starts[i], ends[i], states[i])))
    } else {
        Err(VcfError::LengthMismatch)
    }
}

/// Four arrays of one length `n` give exactly `n` tuples, the `i`-th made of
/// the `i`-th element of each array.
pub proof fn lemma_transpose_positional(
    ids: Seq<Seq<char>>,
    starts: Seq<i32>,
    ends: Seq<i32>,
    states: Seq<Seq<char>>,
)
    requires
        same_lengths(ids, starts, ends, states),
    ensures
        spec_transpose(ids, starts, ends, states) is Ok,
        spec_transpose(ids, starts, ends, states)->Ok_0.len() == ids.len(),
        forall|i: int|
            0 <= i < ids.len() ==> #[trigger] spec_transpose(ids, starts, ends, states)->Ok_0[i] == (
                ids[i],
                starts[i],
                ends[i],
                states[i],
            ),
{
}

pub open spec fn attrs_result_view(r: Result<Vec<VrsAlleleAttrs>, VcfError>) -> Result<
    Seq<(Seq<char>, i32, i32, Seq<char>)>,
    VcfError,
> {
    match r {
        Ok(v) => Ok(v@.map_values(|a: VrsAlleleAttrs| a@)),
        Err(e) => Err(e),
    }
}

/// Relies on `itertools::multizip`: it yields the elements at one index of
/// all four inputs together, in order, until the shortest input ends.
#[verifier::external_body]
fn zip4(a: Vec<String>, b: Vec<i32>, c: Vec<i32>, d: Vec<String>) -> (r: Vec<
    (String, i32, i32, String),
>)
    ensures
        r@.len() <= a@.len() && r@.len() <= b@.len() && r@.len() <= c@.len() && r@.len()
            <= d@.len(),
        r@.len() == a@.len() || r@.len() == b@.len() || r@.len() == c@.len() || r@.len()
            == d@.len(),
        forall|i: int|
            0 <= i < r@.len() ==> #[trigger] r@[i] == (a@[i], b@[i], c@[i], d@[i]),
{
    itertools::multizip((a, b, c, d)).collect()
}

/// Aligns the four arrays of a record into one attribute tuple per allele.
pub fn transpose_attrs(ids: Vec<String>, starts: Vec<i32>, ends: Vec<i32>, states: Vec<String>) -> (r:
    Result<Vec<VrsAlleleAttrs>, VcfError>)
    ensures
        attrs_result_view(r) == spec_transpose(texts_view(ids), starts@, ends@, texts_view(states)),
{
    if ids.len() != starts.len() || starts.len() != ends.len() || ends.len() != states.len() {
        return Err(VcfError::LengthMismatch);
    }
    let ghost (gi, gs, ge, gt) = (ids@, starts@, ends@, states@);
    let zipped = zip4(ids, starts, ends, states);
    let mut out: Vec<VrsAlleleAttrs> = Vec::new();
    let mut i: usize = 0;
    while i < zipped.len()
        invariant
            zipped@.len() == gi.len(),
            same_lengths(gi, gs, ge, gt),
            forall|j: int| 0 <= j < zipped@.len() ==> #[trigger] zipped@[j] == (gi[j], gs[j], ge[j], gt[j]),
            i <= zipped@.len(),
            out@.len() == i,
            forall|j: int| 0 <= j < i ==> #[trigger] out@[j]@ == (gi[j]@, gs[j], ge[j], gt[j]@),
        decreases zipped@.len() - i,
    {
        let a = VrsAlleleAttrs {
            vrs_id: zipped[i].0.clone(),
            vrs_start: zipped[i].1,
            vrs_end: zipped[i].2,
            vrs_state: zipped[i].3.clone(),
        };
        out.push(a);
        i = i + 1;
    }
    proof {
        let tv = spec_transpose(gi.map_values(|t: String| t@), gs, ge, gt.map_values(|t: String| t@));
        assert(out@.map_values(|a: VrsAlleleAttrs| a@) =~= tv->Ok_0);
    }
    Ok(out)
}

} // verus!
