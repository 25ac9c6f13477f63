//! Flat rows of allele data, one per allele, for loading into a table.
use crate::error::VcfError;
use crate::field::{spec_str_values, str_values, texts_view, VrsVcfFieldName};
use crate::record::{chrom_of, field_entry, record_chrom, record_entry, record_start, start_of};
use crate::text::{
    drop_chars, has_prefix, parse_i64, parse_i64_spec, split_on, split_spec, starts_with,
    trim_text, trimmed,
};
use noodles_vcf::{Header, Record};
use vstd::prelude::*;

verus! {

/// Everything known of one allele: where its record comes from and its four
/// VRS attributes.
#[derive(Debug, Clone)]
pub struct AlleleRow {
    pub file_uri: String,
    pub chr: String,
    pub pos: u32,
    pub vrs_id: String,
    pub vrs_start: u32,
    pub vrs_end: u32,
    pub vrs_state: String,
}

/// An allele identifier with the locus of its record.
#[derive(Debug, Clone)]
pub struct DbRow {
    pub vrs_id: String,
    pub chr: String,
    pub pos: i64,
}


impl View for DbRow {
    type V = (Seq<char>, Seq<char>, i64);

    open spec fn view(&self) -> (Seq<char>, Seq<char>, i64) {
        (self.vrs_id@, self.chr@, self.pos)
    }
}

pub open spec fn rows_view(v: Vec<DbRow>) -> Seq<(Seq<char>, Seq<char>, i64)> {
    v@.map_values(|r: DbRow| r@)
}

/// The prefix of an allele identifier that a table row leaves out.
pub open spec fn allele_prefix() -> Seq<char> {
    "ga4gh:VA."@
}

/// An identifier without the allele prefix, where it has it.
pub open spec fn short_id(id: Seq<char>) -> Seq<char> {
    if has_prefix(id, allele_prefix()) {
        id.subrange(allele_prefix().len() as int, id.len() as int)
    } else {
        id
    }
}

/// One row per identifier, each shortened, with the same locus.
pub open spec fn rows_of_ids(ids: Seq<Seq<char>>, chr: Seq<char>, pos: i64) -> Seq<
    (Seq<char>, Seq<char>, i64),
> {
    ids.map_values(|id: Seq<char>| (short_id(id), chr, pos))
}

/// One row per identifier, each shortened, with the record's locus.
pub fn db_rows(vrs_ids: &Vec<String>, chr: &str, pos: i64) -> (r: Vec<DbRow>)
    ensures
        rows_view(r) == rows_of_ids(texts_view(*vrs_ids), chr@, pos),
{
    let prefix = "ga4gh:VA.";
    let mut out: Vec<DbRow> = Vec::new();
    let mut i: usize = 0;
    while i < vrs_ids.len()
        invariant
            prefix@ == allele_prefix(),
            i <= vrs_ids@.len(),
            rows_view(out) =~= rows_of_ids(texts_view(*vrs_ids).subrange(0, i as int), chr@, pos),
        decreases vrs_ids@.len() - i,
    {
        let id = vrs_ids[i].as_str();
        let short = if starts_with(id, prefix) {
            drop_chars(id, prefix.unicode_len())
        } else {
            id
        };
        let ghost before = rows_view(out);
        let row = DbRow { vrs_id: short.to_owned(), chr: chr.to_owned(), pos };
        assert(row@ == (short_id(id@), chr@, pos));
        out.push(row);
        proof {
            assert(rows_view(out) =~= before.push(row@));
            let tv = texts_view(*vrs_ids);
            assert(tv[i as int] == id@);
            assert(tv.subrange(0, i + 1) =~= tv.subrange(0, i as int).push(id@));
            assert(rows_of_ids(tv.subrange(0, i + 1), chr@, pos) =~= rows_of_ids(
                tv.subrange(0, i as int),
                chr@,
                pos,
            ).push((short_id(id@), chr@, pos)));
        }
        i = i + 1;
    }
    assert(texts_view(*vrs_ids).subrange(0, vrs_ids@.len() as int) =~= texts_view(*vrs_ids));
    out
}

/// What a VCF record gives as table rows: the error of its identifier field
/// where that cannot be extracted; `InvalidPosition` where its position is
/// missing, unreadable or past `i64::MAX`; else one row per identifier.
pub open spec fn spec_record_db_rows(record: Record, header: Header) -> Result<
    Seq<(Seq<char>, Seq<char>, i64)>,
    VcfError,
> {
    match spec_str_values(field_entry(record, header, VrsVcfFieldName::VrsAlleleIds)) {
        Err(e) => Err(VcfError::Field(e)),
        Ok(ids) => match start_of(record) {
            Some(p) => if p <= i64::MAX {
                Ok(rows_of_ids(ids, chrom_of(record), p as i64))
            } else {
                Err(VcfError::InvalidPosition)
            },
            None => Err(VcfError::InvalidPosition),
        },
    }
}

pub open spec fn rows_result_view(r: Result<Vec<DbRow>, VcfError>) -> Result<
    Seq<(Seq<char>, Seq<char>, i64)>,
    VcfError,
> {
    match r {
        Ok(v) => Ok(rows_view(v)),
        Err(e) => Err(e),
    }
}

/// The table rows of one VCF record: one per allele identifier.
pub fn record_db_rows(record: &Record, header: &Header) -> (r: Result<Vec<DbRow>, VcfError>)
    ensures
        rows_result_view(r) == spec_record_db_rows(*record, *header),
        r matches Ok(v) ==> forall|k: int| 0 <= k < v@.len() ==> #[trigger] v@[k].pos >= 1,
{
    let entry = record_entry(record, header, VrsVcfFieldName::VrsAlleleIds.as_str());
    let ids = match str_values(&entry) {
        Ok(v) => v,
        Err(e) => return Err(VcfError::Field(e)),
    };
    let pos = match record_start(record) {
        Some(p) => if p as u128 <= i64::MAX as u128 {
            p as i64
        } else {
            return Err(VcfError::InvalidPosition);
        },
        None => return Err(VcfError::InvalidPosition),
    };
    assert(pos >= 1);
    let chr = record_chrom(record);
    let rows = db_rows(&ids, chr.as_str(), pos);
    assert forall|k: int| 0 <= k < rows@.len() implies #[trigger] rows@[k].pos >= 1 by {
        assert(rows_view(rows).len() == rows@.len());
        assert(rows_view(rows)[k] == rows@[k]@);
    }
    Ok(rows)
}

/// The key under which a data line's INFO column lists allele identifiers,
/// with its `=`.
pub open spec fn ids_key() -> Seq<char> {
    "VRS_Allele_IDs="@
}

/// What follows the key in the first INFO entry that starts with it.
pub open spec fn find_ids_value(entries: Seq<Seq<char>>) -> Option<Seq<char>>
    decreases entries.len(),
{
    if entries.len() == 0 {
        None
    } else if has_prefix(entries[0], ids_key()) {
        Some(entries[0].subrange(ids_key().len() as int, entries[0].len() as int))
    } else {
        find_ids_value(entries.drop_first())
    }
}

/// The rows that one line of a VCF's text gives: none for a header line,
/// a line of fewer than eight columns, a position that is no integer or an
/// INFO column without allele identifiers; else one per comma-separated
/// identifier, trimmed, with the line's chromosome and position.
pub open spec fn spec_line_rows(line: Seq<char>) -> Seq<(Seq<char>, Seq<char>, i64)> {
    let cols = split_spec(line, '\t');
    if has_prefix(line, "#"@) || cols.len() < 8 {
        Seq::empty()
    } else {
        match parse_i64_spec(cols[1]) {
            None => Seq::empty(),
            Some(pos) => match find_ids_value(split_spec(cols[7], ';')) {
                None => Seq::empty(),
                Some(ids) => split_spec(ids, ',').map_values(
                    |id: Seq<char>| (trimmed(id), cols[0], pos),
                ),
            },
        }
    }
}

/// The INFO value that lists the allele identifiers, if an entry has it.
fn ids_value(entries: &Vec<String>) -> (r: Option<&str>)
    ensures
        match r {
            Some(v) => find_ids_value(texts_view(*entries)) == Some(v@),
            None => find_ids_value(texts_view(*entries)) is None,
        },
{
    let key = "VRS_Allele_IDs=";
    let mut i: usize = 0;
    assert(texts_view(*entries).subrange(0, entries@.len() as int) =~= texts_view(*entries));
    while i < entries.len()
        invariant
            key@ == ids_key(),
            i <= entries@.len(),
            find_ids_value(texts_view(*entries)) == find_ids_value(
                texts_view(*entries).subrange(i as int, entries@.len() as int),
            ),
        decreases entries@.len() - i,
    {
        let ghost rest = texts_view(*entries).subrange(i as int, entries@.len() as int);
        assert(rest.drop_first() =~= texts_view(*entries).subrange(i + 1, entries@.len() as int));
        let e = entries[i].as_str();
        assert(rest[0] == e@);
        assert(find_ids_value(rest) == if has_prefix(rest[0], ids_key()) {
            Some(rest[0].subrange(ids_key().len() as int, rest[0].len() as int))
        } else {
            find_ids_value(rest.drop_first())
        });
        if starts_with(e, key) {
            return Some(drop_chars(e, key.unicode_len()));
        }
        i = i + 1;
    }
    None
}

/// Reads the allele rows of one line of a VCF's text.
pub fn naive_line_rows(line: &str) -> (r: Vec<DbRow>)
    ensures
        rows_view(r) == spec_line_rows(line@),
{
    let cols = split_on(line, '\t');
    if starts_with(line, "#") || cols.len() < 8 {
        return Vec::new();
    }
    let ghost cv = texts_view(cols);
    assert(cv[1] == cols@[1]@ && cv[7] == cols@[7]@ && cv[0] == cols@[0]@);
    let pos = match parse_i64(cols[1].as_str()) {
        Some(p) => p,
        None => return Vec::new(),
    };
    let entries = split_on(cols[7].as_str(), ';');
    let ids = match ids_value(&entries) {
        Some(v) => v,
        None => return Vec::new(),
    };
    assert(texts_view(entries) == split_spec(cv[7], ';'));
    let pieces = split_on(ids, ',');
    let mut out: Vec<DbRow> = Vec::new();
    let mut i: usize = 0;
    while i < pieces.len()
        invariant
            i <= pieces@.len(),
            cols@.len() >= 8,
            cv[0] == cols@[0]@,
            rows_view(out) =~= texts_view(pieces).subrange(0, i as int).map_values(
                |id: Seq<char>| (trimmed(id), cv[0], pos),
            ),
        decreases pieces@.len() - i,
    {
        let row = DbRow { vrs_id: trim_text(pieces[i].as_str()), chr: cols[0].clone(), pos };
        let ghost before = rows_view(out);
        out.push(row);
        proof {
            assert(rows_view(out) =~= before.push(row@));
            let tv = texts_view(pieces);
            assert(tv[i as int] == pieces@[i as int]@);
            assert(tv.subrange(0, i + 1) =~= tv.subrange(0, i as int).push(tv[i as int]));
        }
        i = i + 1;
    }
    assert(texts_view(pieces).subrange(0, pieces@.len() as int) =~= texts_view(pieces));
    out
}

} // verus!
