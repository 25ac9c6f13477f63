//! The output encoding: four lines per allele, numbered by a run-wide counter.
use crate::allele::{spec_compact, VrsAlleleAttrs};
use crate::error::VcfError;
use crate::text::{decimal, decimal_text, unsigned_text};
use vstd::prelude::*;

verus! {

/// Where a record comes from: its chromosome, its 1-based position, and the
/// number of the input source.
#[derive(Debug, Clone)]
pub struct VariantLocus {
    pub chrom: String,
    pub pos: u32,
    pub source_id: u8,
}

/// The four lines written for one allele: the locus, then the compact
/// identifier, the start and the end, each followed by the allele's counter.
pub open spec fn group_text(
    chrom: Seq<char>,
    pos: u32,
    source_id: u8,
    vrsix: Seq<char>,
    start: i32,
    end: i32,
    counter: u64,
) -> Seq<char> {
    chrom + "-"@ + decimal(pos as int) + "-"@ + decimal(source_id as int) + "\n"@ + vrsix
        + decimal(counter as int) + "\n"@ + decimal(start as int) + "-"@ + decimal(counter as int)
        + "\n"@ + decimal(end as int) + "-"@ + decimal(counter as int) + "\n"@
}

/// The lines of one allele, as `group_text` gives them.
pub fn encode_allele_group(locus: &VariantLocus, vrsix: &str, start: i32, end: i32, counter: u64) -> (r:
    String)
    ensures
        r@ == group_text(locus.chrom@, locus.pos, locus.source_id, vrsix@, start, end, counter),
{
    let count = unsigned_text(counter);
    let mut out = locus.chrom.clone();
    out.append("-");
    out.append(decimal_text(locus.pos as i64).as_str());
    out.append("-");
    out.append(decimal_text(locus.source_id as i64).as_str());
    out.append("\n");
    out.append(vrsix);
    out.append(count.as_str());
    out.append("\n");
    out.append(decimal_text(start as i64).as_str());
    out.append("-");
    out.append(count.as_str());
    out.append("\n");
    out.append(decimal_text(end as i64).as_str());
    out.append("-");
    out.append(count.as_str());
    out.append("\n");
    out
}

/// The groups of a record's alleles, numbered from `counter` on. A record
/// whose counters would pass `u64::MAX`, or with an identifier of no known
/// kind, gives no group at all.
pub open spec fn spec_groups(
    chrom: Seq<char>,
    pos: u32,
    source_id: u8,
    attrs: Seq<(Seq<char>, i32, i32, Seq<char>)>,
    counter: u64,
) -> Result<Seq<Seq<char>>, VcfError> {
    if counter + attrs.len() > u64::MAX {
        Err(VcfError::CounterExhausted)
    } else if exists|i: int| 0 <= i < attrs.len() && #[trigger] spec_compact(attrs[i].0) is None {
        Err(VcfError::UnrecognizedVariationType)
    } else {
        Ok(
            Seq::new(
                attrs.len(),
                |i: int|
                    group_text(
                        chrom,
                        pos,
                        source_id,
                        spec_compact(attrs[i].0)->0,
                        attrs[i].1,
                        attrs[i].2,
                        (counter + i) as u64,
                    ),
            ),
        )
    }
}

pub open spec fn groups_result_view(r: Result<Vec<String>, VcfError>) -> Result<
    Seq<Seq<char>>,
    VcfError,
> {
    match r {
        Ok(v) => Ok(v@.map_values(|t: String| t@)),
        Err(e) => Err(e),
    }
}

/// Encodes every allele of a record, or none of them.
pub fn encode_record(locus: &VariantLocus, attrs: &Vec<VrsAlleleAttrs>, counter: u64) -> (r: Result<
    Vec<String>,
    VcfError,
>)
    ensures
        groups_result_view(r) == spec_groups(
            locus.chrom@,
            locus.pos,
            locus.source_id,
            attrs@.map_values(|a: VrsAlleleAttrs| a@),
            counter,
        ),
{
    let ghost av = attrs@.map_values(|a: VrsAlleleAttrs| a@);
    if counter as u128 + attrs.len() as u128 > u64::MAX as u128 {
        return Err(VcfError::CounterExhausted);
    }
    let mut out: Vec<String> = Vec::new();
    let mut i: usize = 0;
    while i < attrs.len()
        invariant
            counter + attrs@.len() <= u64::MAX,
            av == attrs@.map_values(|a: VrsAlleleAttrs| a@),
            i <= attrs@.len(),
            out@.len() == i,
            forall|j: int| 0 <= j < i ==> #[trigger] spec_compact(av[j].0) is Some,
            forall|j: int|
                0 <= j < i ==> #[trigger] out@[j]@ == group_text(
                    locus.chrom@,
                    locus.pos,
                    locus.source_id,
                    spec_compact(av[j].0)->0,
                    av[j].1,
                    av[j].2,
                    (counter + j) as u64,
                ),
        decreases attrs@.len() - i,
    {
        let a = &attrs[i];
        match a.vrs_id_to_vrsix() {
            Ok(vrsix) => {
                let g = encode_allele_group(locus, vrsix.as_str(), a.vrs_start, a.vrs_end, counter + i as u64);
                out.push(g);
            },
            Err(e) => {
                assert(spec_compact(av[i as int].0) is None);
                return Err(e);
            },
        }
        i = i + 1;
    }
    proof {
        let gv = spec_groups(locus.chrom@, locus.pos, locus.source_id, av, counter);
        assert(out@.map_values(|t: String| t@) =~= gv->Ok_0);
    }
    Ok(out)
}


/// How many line ends `s` holds.
pub open spec fn newline_count(s: Seq<u8>) -> nat
    decreases s.len(),
{
    if s.len() == 0 {
        0
    } else {
        newline_count(s.drop_last()) + if s.last() == 10u8 {
            1nat
        } else {
            0nat
        }
    }
}

/// Where an earlier run's output ends in whole allele groups: the length of
/// the longest prefix that is made of complete groups, and how many groups
/// it holds. A group cut off by a crash lies past that length.
pub fn resume_point(out: &Vec<u8>) -> (r: (usize, u64))
    ensures
        r.1 == newline_count(out@) / 4,
        r.0 <= out@.len(),
        newline_count(out@.subrange(0, r.0 as int)) == 4 * r.1,
        r.0 == 0 || out@[r.0 - 1] == 10u8,
{
    let mut count: usize = 0;
    let mut end: usize = 0;
    let mut i: usize = 0;
    while i < out.len()
        invariant
            i <= out@.len(),
            count <= i,
            count == newline_count(out@.subrange(0, i as int)),
            end <= i,
            newline_count(out@.subrange(0, end as int)) == 4 * (count / 4),
            end == 0 || out@[end - 1] == 10u8,
        decreases out@.len() - i,
    {
        assert(out@.subrange(0, i + 1).drop_last() =~= out@.subrange(0, i as int));
        if out[i] == 10u8 {
            count = count + 1;
            if count % 4 == 0 {
                end = i + 1;
            }
        }
        i = i + 1;
    }
    assert(out@.subrange(0, out@.len() as int) =~= out@);
    (end, (count / 4) as u64)
}

} // verus!
