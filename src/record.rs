//! One VCF record at a time: its four VRS fields become attribute tuples,
//! then output groups numbered by the run's counter.
use crate::allele::{
    attrs_result_view, same_lengths, spec_compact, spec_transpose, transpose_attrs, VrsAlleleAttrs,
};
use crate::error::VcfError;
use crate::field::{
    int_values, ints_of_texts, lemma_ints_of_texts_err, BufArray, BufValue, spec_int_values, spec_str_values,
    str_values, InfoEntry, VcfParseError, VrsVcfFieldName,
};
use crate::text::parse_i32_spec;
use crate::output::{encode_record, groups_result_view, spec_groups, VariantLocus};
use noodles_vcf::{Header, Record};
use vstd::prelude::*;

verus! {

/// The attribute tuples of a record whose fields hold these four entries:
/// the first field that cannot be extracted decides the error, then the
/// arrays must agree in length.
pub open spec fn spec_entries_attrs(
    ids: InfoEntry,
    starts: InfoEntry,
    ends: InfoEntry,
    states: InfoEntry,
) -> Result<Seq<(Seq<char>, i32, i32, Seq<char>)>, VcfError> {
    match spec_str_values(ids) {
        Err(e) => Err(VcfError::Field(e)),
        Ok(a) => match spec_int_values(starts) {
            Err(e) => Err(VcfError::Field(e)),
            Ok(b) => match spec_int_values(ends) {
                Err(e) => Err(VcfError::Field(e)),
                Ok(c) => match spec_str_values(states) {
                    Err(e) => Err(VcfError::Field(e)),
                    Ok(d) => spec_transpose(a, b, c, d),
                },
            },
        },
    }
}

/// What a record with these entries gives: its output groups, or the error
/// for which all of its alleles are skipped.
pub open spec fn spec_record(
    chrom: Seq<char>,
    pos: u32,
    source_id: u8,
    ids: InfoEntry,
    starts: InfoEntry,
    ends: InfoEntry,
    states: InfoEntry,
    counter: u64,
) -> Result<Seq<Seq<char>>, VcfError> {
    match spec_entries_attrs(ids, starts, ends, states) {
        Err(e) => Err(e),
        Ok(attrs) => spec_groups(chrom, pos, source_id, attrs, counter),
    }
}

/// Whether an entry is an array with a missing element.
pub open spec fn has_null(e: InfoEntry) -> bool {
    match e {
        InfoEntry::Integers(v) => exists|i: int| 0 <= i < v@.len() && #[trigger] v@[i] is None,
        InfoEntry::Strings(v) => exists|i: int| 0 <= i < v@.len() && #[trigger] v@[i] is None,
        _ => false,
    }
}

proof fn lemma_texts_null(s: Seq<Option<String>>, i: int)
    requires
        0 <= i < s.len(),
        s[i] is None,
    ensures
        ints_of_texts(s) is Err,
    decreases s.len(),
{
    if i < s.len() - 1 {
        lemma_texts_null(s.drop_last(), i);
    }
}

/// A missing element among the identifiers, the starts or the ends skips
/// every allele of the record: it gives no output group.
pub proof fn lemma_null_skips_record(
    chrom: Seq<char>,
    pos: u32,
    source_id: u8,
    ids: InfoEntry,
    starts: InfoEntry,
    ends: InfoEntry,
    states: InfoEntry,
    counter: u64,
)
    requires
        has_null(ids) || has_null(starts) || has_null(ends),
    ensures
        spec_record(chrom, pos, source_id, ids, starts, ends, states, counter) is Err,
{
    if has_null(starts) {
        if let InfoEntry::Strings(v) = starts {
            let i = choose|i: int| 0 <= i < v@.len() && #[trigger] v@[i] is None;
            lemma_texts_null(v@, i);
        }
    }
    if has_null(ends) {
        if let InfoEntry::Strings(v) = ends {
            let i = choose|i: int| 0 <= i < v@.len() && #[trigger] v@[i] is None;
            lemma_texts_null(v@, i);
        }
    }
    if has_null(ids) && !has_null(starts) && !has_null(ends) {
        if let (Ok(a), Ok(b), Ok(c), Ok(d)) = (
            spec_str_values(ids),
            spec_int_values(starts),
            spec_int_values(ends),
            spec_str_values(states),
        ) {
            if same_lengths(a, b, c, d) {
                let v = ids->Strings_0;
                let i = choose|i: int| 0 <= i < v@.len() && #[trigger] v@[i] is None;
                let attrs = spec_transpose(a, b, c, d)->Ok_0;
                assert(attrs[i].0 == Seq::<char>::empty());
                reveal_strlit("VA.");
                reveal_strlit("ga4gh:");
                assert(spec_compact(attrs[i].0) is None);
            }
        }
    }
}

/// Whether extracting integers from `e` first meets a missing element: any
/// missing element of a native integer array, or, in a legacy string array, a
/// missing element that only integer texts precede.
pub open spec fn null_first(e: InfoEntry) -> bool {
    match e {
        InfoEntry::Integers(v) => exists|i: int| 0 <= i < v@.len() && #[trigger] v@[i] is None,
        InfoEntry::Strings(v) => exists|i: int|
            0 <= i < v@.len() && #[trigger] v@[i] is None && forall|j: int|
                0 <= j < i ==> #[trigger] v@[j] is Some && parse_i32_spec(v@[j]->0@) is Some,
        _ => false,
    }
}

proof fn lemma_texts_prefix_ok(s: Seq<Option<String>>, k: int)
    requires
        0 <= k <= s.len(),
        forall|j: int| 0 <= j < k ==> #[trigger] s[j] is Some && parse_i32_spec(s[j]->0@) is Some,
    ensures
        ints_of_texts(s.subrange(0, k)) is Ok,
    decreases k,
{
    if k > 0 {
        lemma_texts_prefix_ok(s, k - 1);
        assert(s.subrange(0, k).drop_last() =~= s.subrange(0, k - 1));
        assert(s[k - 1] is Some);
    }
}

/// A missing start or end fails the record with `NullElement`, once the
/// fields before it extract and no malformed text precedes it in its array.
pub proof fn lemma_null_fails_record(
    chrom: Seq<char>,
    pos: u32,
    source_id: u8,
    ids: InfoEntry,
    starts: InfoEntry,
    ends: InfoEntry,
    states: InfoEntry,
    counter: u64,
)
    requires
        spec_str_values(ids) is Ok,
        null_first(starts) || (spec_int_values(starts) is Ok && null_first(ends)),
    ensures
        spec_record(chrom, pos, source_id, ids, starts, ends, states, counter) == Err::<
            Seq<Seq<char>>,
            VcfError,
        >(VcfError::Field(VcfParseError::NullElement)),
{
    if null_first(starts) {
        lemma_null_first_fails(starts);
    } else {
        lemma_null_first_fails(ends);
    }
}

proof fn lemma_null_first_fails(e: InfoEntry)
    requires
        null_first(e),
    ensures
        spec_int_values(e) == Err::<Seq<i32>, VcfParseError>(VcfParseError::NullElement),
{
    if let InfoEntry::Strings(v) = e {
        let s = v@;
        let i = choose|i: int|
            0 <= i < s.len() && #[trigger] s[i] is None && forall|j: int|
                0 <= j < i ==> #[trigger] s[j] is Some && parse_i32_spec(s[j]->0@) is Some;
        lemma_texts_prefix_ok(s, i);
        assert(s.subrange(0, i + 1).drop_last() =~= s.subrange(0, i));
        lemma_ints_of_texts_err(s, i + 1);
    }
}

/// Arrays that disagree in length fail the whole record with
/// `LengthMismatch`, whatever they hold: none is cut to the shortest.
pub proof fn lemma_length_mismatch_fails_record(
    chrom: Seq<char>,
    pos: u32,
    source_id: u8,
    ids: InfoEntry,
    starts: InfoEntry,
    ends: InfoEntry,
    states: InfoEntry,
    counter: u64,
)
    requires
        spec_str_values(ids) is Ok,
        spec_int_values(starts) is Ok,
        spec_int_values(ends) is Ok,
        spec_str_values(states) is Ok,
        !same_lengths(
            spec_str_values(ids)->Ok_0,
            spec_int_values(starts)->Ok_0,
            spec_int_values(ends)->Ok_0,
            spec_str_values(states)->Ok_0,
        ),
    ensures
        spec_record(chrom, pos, source_id, ids, starts, ends, states, counter) == Err::<
            Seq<Seq<char>>,
            VcfError,
        >(VcfError::LengthMismatch),
{
}

/// Extracts the four fields and aligns them into one tuple per allele.
pub fn attrs_from_entries(ids: &InfoEntry, starts: &InfoEntry, ends: &InfoEntry, states: &InfoEntry) -> (r:
    Result<Vec<VrsAlleleAttrs>, VcfError>)
    ensures
        attrs_result_view(r) == spec_entries_attrs(*ids, *starts, *ends, *states),
{
    let a = match str_values(ids) {
        Ok(v) => v,
        Err(e) => return Err(VcfError::Field(e)),
    };
    let b = match int_values(starts) {
        Ok(v) => v,
        Err(e) => return Err(VcfError::Field(e)),
    };
    let c = match int_values(ends) {
        Ok(v) => v,
        Err(e) => return Err(VcfError::Field(e)),
    };
    let d = match str_values(states) {
        Ok(v) => v,
        Err(e) => return Err(VcfError::Field(e)),
    };
    transpose_attrs(a, b, c, d)
}

/// A VCF record, as the parsing library holds it.
#[verifier::external_type_specification]
#[verifier::external_body]
pub struct ExRecord(noodles_vcf::Record);

/// The text of a record's CHROM column.
pub uninterp spec fn chrom_of(record: Record) -> Seq<char>;

/// A record's 1-based position; `None` where it is missing or unreadable.
pub uninterp spec fn start_of(record: Record) -> Option<usize>;

/// What the field under `key` of a record's INFO column decodes to, by the
/// header.
pub uninterp spec fn record_entry_of(record: Record, header: Header, key: Seq<char>) -> InfoEntry;

/// Relies on `noodles_vcf::Record::reference_sequence_name`: the text of the
/// record's CHROM column.
#[verifier::external_body]
pub(crate) fn record_chrom(record: &Record) -> (r: String)
    ensures
        r@ == chrom_of(*record),
{
    record.reference_sequence_name().to_string()
}

/// Relies on `noodles_vcf::Record::variant_start`: the record's 1-based
/// position (a `Position` is never 0); `None` where it is missing or cannot
/// be read.
#[verifier::external_body]
pub(crate) fn record_start(record: &Record) -> (r: Option<usize>)
    ensures
        r == start_of(*record),
        r matches Some(p) ==> p >= 1,
{
    record.variant_start().and_then(|p| p.ok()).map(usize::from)
}

/// Relies on `noodles_vcf::Record::info` and `noodles_vcf::record::Info::get`,
/// which finds the field under `key` and decodes it by the header's
/// definition, and on the conversion of its value into an owned `record_buf`
/// value. The result depends on the record's text, the header and the key
/// alone.
#[verifier::external_body]
pub(crate) fn record_entry(record: &Record, header: &Header, key: &str) -> (r: InfoEntry)
    ensures
        r == record_entry_of(*record, *header, key@),
{
    match record.info().get(header, key).map(|r| r.and_then(|o| o.map(BufValue::try_from).transpose())) {
        None => InfoEntry::Absent,
        Some(Err(e)) => InfoEntry::Undecodable(e.to_string()),
        Some(Ok(None)) => InfoEntry::Empty,
        Some(Ok(Some(BufValue::Array(BufArray::Integer(v))))) => InfoEntry::Integers(v),
        Some(Ok(Some(BufValue::Array(BufArray::String(v))))) => InfoEntry::Strings(v),
        Some(Ok(Some(BufValue::Array(_)))) => InfoEntry::OtherArray,
        Some(Ok(Some(_))) => InfoEntry::Scalar,
    }
}

/// The entry of one VRS field of a record.
pub open spec fn field_entry(record: Record, header: Header, field: VrsVcfFieldName) -> InfoEntry {
    record_entry_of(record, header, field.key())
}

/// The attribute tuples of a VCF record, from its four VRS fields.
pub open spec fn spec_vcf_attrs(record: Record, header: Header) -> Result<
    Seq<(Seq<char>, i32, i32, Seq<char>)>,
    VcfError,
> {
    spec_entries_attrs(
        field_entry(record, header, VrsVcfFieldName::VrsAlleleIds),
        field_entry(record, header, VrsVcfFieldName::VrsStarts),
        field_entry(record, header, VrsVcfFieldName::VrsEnds),
        field_entry(record, header, VrsVcfFieldName::VrsStates),
    )
}

/// What a VCF record gives: `InvalidPosition` where its position is missing,
/// unreadable or past `u32::MAX`; else what `spec_record` gives for its
/// chromosome, position and four VRS fields.
pub open spec fn spec_vcf_record(record: Record, header: Header, source_id: u8, counter: u64) -> Result<
    Seq<Seq<char>>,
    VcfError,
> {
    match start_of(record) {
        Some(p) => if p <= u32::MAX {
            spec_record(
                chrom_of(record),
                p as u32,
                source_id,
                field_entry(record, header, VrsVcfFieldName::VrsAlleleIds),
                field_entry(record, header, VrsVcfFieldName::VrsStarts),
                field_entry(record, header, VrsVcfFieldName::VrsEnds),
                field_entry(record, header, VrsVcfFieldName::VrsStates),
                counter,
            )
        } else {
            Err(VcfError::InvalidPosition)
        },
        None => Err(VcfError::InvalidPosition),
    }
}

/// The four VRS fields of a record, as the parsing library decodes them.
fn record_entries(record: &Record, header: &Header) -> (r: (InfoEntry, InfoEntry, InfoEntry, InfoEntry))
    ensures
        r.0 == field_entry(*record, *header, VrsVcfFieldName::VrsAlleleIds),
        r.1 == field_entry(*record, *header, VrsVcfFieldName::VrsStarts),
        r.2 == field_entry(*record, *header, VrsVcfFieldName::VrsEnds),
        r.3 == field_entry(*record, *header, VrsVcfFieldName::VrsStates),
{
    let ids = record_entry(record, header, VrsVcfFieldName::VrsAlleleIds.as_str());
    let starts = record_entry(record, header, VrsVcfFieldName::VrsStarts.as_str());
    let ends = record_entry(record, header, VrsVcfFieldName::VrsEnds.as_str());
    let states = record_entry(record, header, VrsVcfFieldName::VrsStates.as_str());
    (ids, starts, ends, states)
}

/// The attribute tuples of one VCF record, one per allele.
pub fn iter_vrs_attrs(record: &Record, header: &Header) -> (r: Result<Vec<VrsAlleleAttrs>, VcfError>)
    ensures
        attrs_result_view(r) == spec_vcf_attrs(*record, *header),
{
    let (ids, starts, ends, states) = record_entries(record, header);
    attrs_from_entries(&ids, &starts, &ends, &states)
}

/// The state that a run carries from record to record: the number of its
/// input source and the counter of the next allele group.
#[derive(Debug)]
pub struct Loader {
    source_id: u8,
    next_counter: u64,
    on_disk: u64,
}

impl Loader {
    pub closed spec fn spec_source_id(&self) -> u8 {
        self.source_id
    }

    pub closed spec fn spec_counter(&self) -> u64 {
        self.next_counter
    }

    /// How many groups an earlier run over the same input already wrote.
    pub closed spec fn spec_on_disk(&self) -> u64 {
        self.on_disk
    }

    /// A run over one source, whose first allele gets the counter 0.
    pub fn new(source_id: u8) -> (r: Loader)
        ensures
            r.spec_source_id() == source_id,
            r.spec_counter() == 0,
            r.spec_on_disk() == 0,
    {
        Loader { source_id, next_counter: 0, on_disk: 0 }
    }

    /// A run that takes up an earlier one over the same input, which left
    /// `on_disk` complete groups: numbering starts again at 0, and the groups
    /// numbered below `on_disk` are not written again.
    pub fn resume(source_id: u8, on_disk: u64) -> (r: Loader)
        ensures
            r.spec_source_id() == source_id,
            r.spec_counter() == 0,
            r.spec_on_disk() == on_disk,
    {
        Loader { source_id, next_counter: 0, on_disk }
    }

    /// Whether the next group still has to be written: no earlier run wrote it.
    pub fn needs_write(&self) -> (r: bool)
        ensures
            r == (self.spec_counter() >= self.spec_on_disk()),
    {
        self.next_counter >= self.on_disk
    }

    pub fn source_id(&self) -> (r: u8)
        ensures
            r == self.spec_source_id(),
    {
        self.source_id
    }

    /// The counter that the next allele group will carry.
    pub fn counter(&self) -> (r: u64)
        ensures
            r == self.spec_counter(),
    {
        self.next_counter
    }

    /// The output groups of one record, numbered from the current counter;
    /// nothing changes until each group is reported written.
    pub fn plan_record(
        &self,
        chrom: &str,
        pos: u32,
        ids: &InfoEntry,
        starts: &InfoEntry,
        ends: &InfoEntry,
        states: &InfoEntry,
    ) -> (r: Result<Vec<String>, VcfError>)
        ensures
            groups_result_view(r) == spec_record(
                chrom@,
                pos,
                self.spec_source_id(),
                *ids,
                *starts,
                *ends,
                *states,
                self.spec_counter(),
            ),
    {
        let attrs = match attrs_from_entries(ids, starts, ends, states) {
            Ok(a) => a,
            Err(e) => return Err(e),
        };
        let locus = VariantLocus { chrom: chrom.to_owned(), pos, source_id: self.source_id };
        encode_record(&locus, &attrs, self.next_counter)
    }

    /// The output groups of one VCF record, as `plan_record` gives them for
    /// the record's locus and VRS fields.
    pub fn plan_vcf_record(&self, record: &Record, header: &Header) -> (r: Result<Vec<String>, VcfError>)
        ensures
            groups_result_view(r) == spec_vcf_record(
                *record,
                *header,
                self.spec_source_id(),
                self.spec_counter(),
            ),
    {
        let pos = match record_start(record) {
            Some(p) => if p <= u32::MAX as usize {
                p as u32
            } else {
                return Err(VcfError::InvalidPosition);
            },
            None => return Err(VcfError::InvalidPosition),
        };
        let chrom = record_chrom(record);
        let (ids, starts, ends, states) = record_entries(record, header);
        self.plan_record(chrom.as_str(), pos, &ids, &starts, &ends, &states)
    }

    /// Records that one more allele group is durably written, by this run
    /// or by the one it takes up.
    pub fn group_written(&mut self)
        requires
            old(self).spec_counter() < u64::MAX,
        ensures
            final(self).spec_counter() == old(self).spec_counter() + 1,
            final(self).spec_source_id() == old(self).spec_source_id(),
            final(self).spec_on_disk() == old(self).spec_on_disk(),
    {
        self.next_counter = self.next_counter + 1;
    }
}

} // verus!
