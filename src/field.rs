//! The four VRS annotation fields and the extraction of their values.
use crate::text::{decimal, lemma_parse_decimal, parse_i32, parse_i32_spec};
pub(crate) use noodles_vcf::variant::record_buf::info::field::value::Array as BufArray;
pub(crate) use noodles_vcf::variant::record_buf::info::field::Value as BufValue;
use noodles_vcf::{record::Info, Header};
use vstd::prelude::*;

verus! {

/// The INFO fields that a VRS annotator writes, one value per allele.
#[derive(Debug, Clone, Copy, PartialEq, Eq, Structural)]
pub enum VrsVcfFieldName {
    VrsAlleleIds,
    VrsStarts,
    VrsEnds,
    VrsStates,
}

impl VrsVcfFieldName {
    /// The field's key, as it stands in the header and the INFO column.
    pub open spec fn key(self) -> Seq<char> {
        match self {
            VrsVcfFieldName::VrsAlleleIds => "VRS_Allele_IDs"@,
            VrsVcfFieldName::VrsStarts => "VRS_Starts"@,
            VrsVcfFieldName::VrsEnds => "VRS_Ends"@,
            VrsVcfFieldName::VrsStates => "VRS_States"@,
        }
    }

    pub fn as_str(&self) -> (r: &'static str)
        ensures
            r@ == self.key(),
    {
        match self {
            VrsVcfFieldName::VrsAlleleIds => "VRS_Allele_IDs",
            VrsVcfFieldName::VrsStarts => "VRS_Starts",
            VrsVcfFieldName::VrsEnds => "VRS_Ends",
            VrsVcfFieldName::VrsStates => "VRS_States",
        }
    }
}


/// An INFO field as the extractor reads it: the shapes that decide what an
/// extraction returns, with the values of the two array kinds it accepts.
#[derive(Debug, Clone)]
pub enum InfoEntry {
    /// The record has no such field.
    Absent,
    /// The field is there, but its value could not be decoded.
    Undecodable(String),
    /// The field is there without a value.
    Empty,
    /// A single value, not an array.
    Scalar,
    /// An array of floats or characters.
    OtherArray,
    /// An array of 32-bit integers; `None` is a missing element.
    Integers(Vec<Option<i32>>),
    /// An array of strings; `None` is a missing element.
    Strings(Vec<Option<String>>),
}

/// Why a field's values could not be extracted.
#[derive(Debug, Clone, PartialEq, Eq)]
pub enum VcfParseError {
    FieldMissing,
    TypeMismatch,
    NullElement,
    /// A numeric field held this text, which is no 32-bit integer.
    MalformedNumber(String),
    /// The parsing library could not decode the field; its message.
    Undecodable(String),
}

/// A string element: a missing one reads as the empty string.
pub open spec fn text_or_empty(o: Option<String>) -> Seq<char> {
    match o {
        Some(t) => t@,
        None => Seq::empty(),
    }
}

/// What extracting strings from `e` gives: one text per element.
pub open spec fn spec_str_values(e: InfoEntry) -> Result<Seq<Seq<char>>, VcfParseError> {
    match e {
        InfoEntry::Absent => Err(VcfParseError::FieldMissing),
        InfoEntry::Undecodable(m) => Err(VcfParseError::Undecodable(m)),
        InfoEntry::Strings(v) => Ok(Seq::new(v@.len(), |i: int| text_or_empty(v@[i]))),
        _ => Err(VcfParseError::TypeMismatch),
    }
}

/// The integers of an integer array: none may be missing.
pub open spec fn ints_of_options(s: Seq<Option<i32>>) -> Result<Seq<i32>, VcfParseError> {
    if exists|i: int| 0 <= i < s.len() && #[trigger] s[i] is None {
        Err(VcfParseError::NullElement)
    } else {
        Ok(s.map_values(|o: Option<i32>| o->0))
    }
}

/// The integers of a string array, element by element: the first element
/// that is missing or no integer decides the error.
pub open spec fn ints_of_texts(s: Seq<Option<String>>) -> Result<Seq<i32>, VcfParseError>
    decreases s.len(),
{
    if s.len() == 0 {
        Ok(Seq::empty())
    } else {
        match ints_of_texts(s.drop_last()) {
            Err(e) => Err(e),
            Ok(prefix) => match s.last() {
                None => Err(VcfParseError::NullElement),
                Some(t) => match parse_i32_spec(t@) {
                    Some(n) => Ok(prefix.push(n)),
                    None => Err(VcfParseError::MalformedNumber(t)),
                },
            },
        }
    }
}

/// What extracting integers from `e` gives: native integers, or the legacy
/// form of integers written as text.
pub open spec fn spec_int_values(e: InfoEntry) -> Result<Seq<i32>, VcfParseError> {
    match e {
        InfoEntry::Absent => Err(VcfParseError::FieldMissing),
        InfoEntry::Undecodable(m) => Err(VcfParseError::Undecodable(m)),
        InfoEntry::Integers(v) => ints_of_options(v@),
        InfoEntry::Strings(v) => ints_of_texts(v@),
        _ => Err(VcfParseError::TypeMismatch),
    }
}

/// The view of a list of strings.
pub open spec fn texts_view(v: Vec<String>) -> Seq<Seq<char>> {
    v@.map_values(|t: String| t@)
}

pub open spec fn texts_result_view(r: Result<Vec<String>, VcfParseError>) -> Result<
    Seq<Seq<char>>,
    VcfParseError,
> {
    match r {
        Ok(v) => Ok(texts_view(v)),
        Err(e) => Err(e),
    }
}

pub open spec fn ints_result_view(r: Result<Vec<i32>, VcfParseError>) -> Result<
    Seq<i32>,
    VcfParseError,
> {
    match r {
        Ok(v) => Ok(v@),
        Err(e) => Err(e),
    }
}

/// The values of a string field; a missing element becomes the empty string.
pub fn str_values(entry: &InfoEntry) -> (r: Result<Vec<String>, VcfParseError>)
    ensures
        texts_result_view(r) == spec_str_values(*entry),
{
    match entry {
        InfoEntry::Absent => Err(VcfParseError::FieldMissing),
        InfoEntry::Undecodable(m) => Err(VcfParseError::Undecodable(m.clone())),
        InfoEntry::Strings(v) => {
            let mut out: Vec<String> = Vec::new();
            let mut i: usize = 0;
            while i < v.len()
                invariant
                    i <= v@.len(),
                    out@.len() == i,
                    forall|j: int| 0 <= j < i ==> #[trigger] out@[j]@ == text_or_empty(v@[j]),
                decreases v@.len() - i,
            {
                let t = match &v[i] {
                    Some(t) => t.clone(),
                    None => String::new(),
                };
                out.push(t);
                i = i + 1;
            }
            assert(texts_view(out) =~= Seq::new(v@.len(), |i: int| text_or_empty(v@[i])));
            Ok(out)
        },
        _ => Err(VcfParseError::TypeMismatch),
    }
}

/// The integers of a native integer array.
fn ints_from_options(v: &Vec<Option<i32>>) -> (r: Result<Vec<i32>, VcfParseError>)
    ensures
        ints_result_view(r) == ints_of_options(v@),
{
    let mut out: Vec<i32> = Vec::new();
    let mut i: usize = 0;
    while i < v.len()
        invariant
            i <= v@.len(),
            out@ =~= v@.subrange(0, i as int).map_values(|o: Option<i32>| o->0),
            forall|j: int| 0 <= j < i ==> v@[j] is Some,
        decreases v@.len() - i,
    {
        match v[i] {
            Some(n) => out.push(n),
            None => {
                assert(v@[i as int] is None);
                return Err(VcfParseError::NullElement);
            },
        }
        i = i + 1;
    }
    assert(v@.subrange(0, v@.len() as int) =~= v@);
    Ok(out)
}

/// Once an element fails, longer arrays fail with the same error.
pub(crate) proof fn lemma_ints_of_texts_err(s: Seq<Option<String>>, i: int)
    requires
        0 <= i <= s.len(),
        ints_of_texts(s.subrange(0, i)) is Err,
    ensures
        ints_of_texts(s) == ints_of_texts(s.subrange(0, i)),
    decreases s.len(),
{
    if i < s.len() {
        assert(s.drop_last().subrange(0, i) =~= s.subrange(0, i));
        lemma_ints_of_texts_err(s.drop_last(), i);
    } else {
        assert(s.subrange(0, i) =~= s);
    }
}

/// The integers of a string array, parsed one by one.
fn ints_from_texts(v: &Vec<Option<String>>) -> (r: Result<Vec<i32>, VcfParseError>)
    ensures
        ints_result_view(r) == ints_of_texts(v@),
{
    let mut out: Vec<i32> = Vec::new();
    let mut i: usize = 0;
    while i < v.len()
        invariant
            i <= v@.len(),
            ints_of_texts(v@.subrange(0, i as int)) == Ok::<Seq<i32>, VcfParseError>(out@),
        decreases v@.len() - i,
    {
        assert(v@.subrange(0, i + 1).drop_last() =~= v@.subrange(0, i as int));
        match &v[i] {
            Some(t) => match parse_i32(t.as_str()) {
                Some(n) => out.push(n),
                None => {
                    proof {
                        lemma_ints_of_texts_err(v@, i + 1);
                    }
                    return Err(VcfParseError::MalformedNumber(t.clone()));
                },
            },
            None => {
                proof {
                    lemma_ints_of_texts_err(v@, i + 1);
                }
                return Err(VcfParseError::NullElement);
            },
        }
        i = i + 1;
    }
    assert(v@.subrange(0, v@.len() as int) =~= v@);
    Ok(out)
}

/// The values of a numeric field: an integer array, or an array of base-10
/// texts as older annotators wrote it. A missing element is an error.
pub fn int_values(entry: &InfoEntry) -> (r: Result<Vec<i32>, VcfParseError>)
    ensures
        ints_result_view(r) == spec_int_values(*entry),
{
    match entry {
        InfoEntry::Absent => Err(VcfParseError::FieldMissing),
        InfoEntry::Undecodable(m) => Err(VcfParseError::Undecodable(m.clone())),
        InfoEntry::Integers(v) => ints_from_options(v),
        InfoEntry::Strings(v) => ints_from_texts(v),
        _ => Err(VcfParseError::TypeMismatch),
    }
}


/// Each text is the base-10 form of the integer at the same place.
pub open spec fn texts_of_ints(texts: Seq<Option<String>>, ints: Seq<Option<i32>>) -> bool {
    texts.len() == ints.len() && forall|i: int|
        0 <= i < ints.len() ==> #[trigger] ints[i] is Some && texts[i] is Some && texts[i]->0@
            == decimal(ints[i]->0 as int)
}

proof fn lemma_ints_of_texts_decimal(texts: Seq<Option<String>>, ints: Seq<Option<i32>>)
    requires
        texts_of_ints(texts, ints),
    ensures
        ints_of_texts(texts) == Ok::<Seq<i32>, VcfParseError>(
            ints.map_values(|o: Option<i32>| o->0),
        ),
    decreases texts.len(),
{
    if texts.len() > 0 {
        let k = texts.len() - 1;
        assert(ints[k] is Some);
        assert(texts_of_ints(texts.drop_last(), ints.drop_last())) by {
            assert forall|i: int| 0 <= i < ints.drop_last().len() implies #[trigger] ints.drop_last()[i] is Some
                && texts.drop_last()[i] is Some && texts.drop_last()[i]->0@ == decimal(
                ints.drop_last()[i]->0 as int,
            ) by {
                assert(ints[i] is Some);
            }
        }
        lemma_ints_of_texts_decimal(texts.drop_last(), ints.drop_last());
        lemma_parse_decimal(ints[k]->0);
        assert(ints.map_values(|o: Option<i32>| o->0) =~= ints.drop_last().map_values(
            |o: Option<i32>| o->0,
        ).push(ints[k]->0));
    } else {
        assert(ints.map_values(|o: Option<i32>| o->0) =~= Seq::<i32>::empty());
    }
}

/// Numeric extraction does not depend on the representation: integers
/// written as base-10 texts give the same values as native integers.
pub proof fn lemma_int_values_representation(texts: Vec<Option<String>>, ints: Vec<Option<i32>>)
    requires
        texts_of_ints(texts@, ints@),
    ensures
        spec_int_values(InfoEntry::Strings(texts)) == spec_int_values(InfoEntry::Integers(ints)),
        spec_int_values(InfoEntry::Integers(ints)) == Ok::<Seq<i32>, VcfParseError>(
            ints@.map_values(|o: Option<i32>| o->0),
        ),
{
    lemma_ints_of_texts_decimal(texts@, ints@);
    assert(!exists|i: int| 0 <= i < ints@.len() && #[trigger] ints@[i] is None);
}

/// A VCF header, as the parsing library holds it: the INFO definitions give
/// each field its type.
#[verifier::external_type_specification]
#[verifier::external_body]
pub struct ExHeader(noodles_vcf::Header);

/// The INFO column of one VCF record, as the parsing library holds it.
#[verifier::external_type_specification]
#[verifier::external_body]
pub struct ExInfo<'r>(noodles_vcf::record::Info<'r>);

/// What the field under `key` of an INFO column decodes to, by the header.
pub uninterp spec fn entry_of(info: Info, header: Header, key: Seq<char>) -> InfoEntry;

/// Relies on `noodles_vcf::record::Info::get`, which finds the field under
/// `key` and decodes it by the header's definition, and on the conversion of
/// its value into an owned `record_buf` value. The result depends on the
/// INFO column's text, the header and the key alone.
#[verifier::external_body]
fn info_entry(info: &Info, header: &Header, key: &str) -> (r: InfoEntry)
    ensures
        r == entry_of(*info, *header, key@),
{
    match info.get(header, key).map(|r| r.and_then(|o| o.map(BufValue::try_from).transpose())) {
        None => InfoEntry::Absent,
        Some(Err(e)) => InfoEntry::Undecodable(e.to_string()),
        Some(Ok(None)) => InfoEntry::Empty,
        Some(Ok(Some(BufValue::Array(BufArray::Integer(v))))) => InfoEntry::Integers(v),
        Some(Ok(Some(BufValue::Array(BufArray::String(v))))) => InfoEntry::Strings(v),
        Some(Ok(Some(BufValue::Array(_)))) => InfoEntry::OtherArray,
        Some(Ok(Some(_))) => InfoEntry::Scalar,
    }
}

/// Extracts the values of a string field from a record's INFO column.
pub fn get_str_info_field(info: Info, header: &Header, field: VrsVcfFieldName) -> (r: Result<
    Vec<String>,
    VcfParseError,
>)
    ensures
        texts_result_view(r) == spec_str_values(entry_of(info, *header, field.key())),
{
    let entry = info_entry(&info, header, field.as_str());
    str_values(&entry)
}

/// Extracts the values of a numeric field from a record's INFO column.
pub fn get_int_info_field(info: Info, header: &Header, field: VrsVcfFieldName) -> (r: Result<
    Vec<i32>,
    VcfParseError,
>)
    ensures
        ints_result_view(r) == spec_int_values(entry_of(info, *header, field.key())),
{
    let entry = info_entry(&info, header, field.as_str());
    int_values(&entry)
}

} // verus!
