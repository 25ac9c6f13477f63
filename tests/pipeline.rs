use vrsix::allele::{compact_vrs_id, transpose_attrs, variation_type_of, VariationType, VrsAlleleAttrs};
use vrsix::error::VcfError;
use vrsix::field::{int_values, str_values, InfoEntry, VcfParseError, VrsVcfFieldName};
use vrsix::output::{encode_allele_group, encode_record, resume_point, VariantLocus};
use vrsix::record::{attrs_from_entries, Loader};
use vrsix::text::starts_with;

fn strings(items: &[Option<&str>]) -> InfoEntry {
    InfoEntry::Strings(items.iter().map(|o| o.map(|s| s.to_string())).collect())
}

fn ints(items: &[Option<i32>]) -> InfoEntry {
    InfoEntry::Integers(items.to_vec())
}

fn owned(items: &[&str]) -> Vec<String> {
    items.iter().map(|s| s.to_string()).collect()
}

#[test]
fn field_names_are_the_annotator_keys() {
    assert_eq!(VrsVcfFieldName::VrsAlleleIds.as_str(), "VRS_Allele_IDs");
    assert_eq!(VrsVcfFieldName::VrsStarts.as_str(), "VRS_Starts");
    assert_eq!(VrsVcfFieldName::VrsEnds.as_str(), "VRS_Ends");
    assert_eq!(VrsVcfFieldName::VrsStates.as_str(), "VRS_States");
}

#[test]
fn string_field_null_reads_as_empty() {
    let r = str_values(&strings(&[Some("A"), None, Some("CT")]));
    assert_eq!(r, Ok(owned(&["A", "", "CT"])));
}

#[test]
fn string_field_errors() {
    assert_eq!(str_values(&InfoEntry::Absent), Err(VcfParseError::FieldMissing));
    assert_eq!(str_values(&InfoEntry::Scalar), Err(VcfParseError::TypeMismatch));
    assert_eq!(str_values(&InfoEntry::Empty), Err(VcfParseError::TypeMismatch));
    assert_eq!(str_values(&ints(&[Some(1)])), Err(VcfParseError::TypeMismatch));
    assert_eq!(
        str_values(&InfoEntry::Undecodable("bad".to_string())),
        Err(VcfParseError::Undecodable("bad".to_string()))
    );
}

#[test]
fn numeric_extraction_is_representation_insensitive() {
    let from_text = int_values(&strings(&[Some("10"), Some("20")]));
    let native = int_values(&ints(&[Some(10), Some(20)]));
    assert_eq!(from_text, Ok(vec![10, 20]));
    assert_eq!(native, Ok(vec![10, 20]));
}

#[test]
fn numeric_text_accepts_signs() {
    assert_eq!(int_values(&strings(&[Some("-7"), Some("+3"), Some("0")])), Ok(vec![-7, 3, 0]));
}

#[test]
fn numeric_field_errors() {
    assert_eq!(int_values(&InfoEntry::Absent), Err(VcfParseError::FieldMissing));
    assert_eq!(int_values(&InfoEntry::OtherArray), Err(VcfParseError::TypeMismatch));
    assert_eq!(int_values(&ints(&[Some(1), None])), Err(VcfParseError::NullElement));
    assert_eq!(int_values(&strings(&[Some("1"), None])), Err(VcfParseError::NullElement));
    assert_eq!(
        int_values(&strings(&[Some("5"), Some("1x"), None])),
        Err(VcfParseError::MalformedNumber("1x".to_string()))
    );
    assert_eq!(
        int_values(&strings(&[Some("2147483648")])),
        Err(VcfParseError::MalformedNumber("2147483648".to_string()))
    );
    assert_eq!(
        int_values(&strings(&[Some("")])),
        Err(VcfParseError::MalformedNumber("".to_string()))
    );
}

#[test]
fn compaction_ignores_namespace() {
    assert_eq!(compact_vrs_id("ga4gh:VA.abc123"), Ok("1abc123".to_string()));
    assert_eq!(compact_vrs_id("VA.abc123"), Ok("1abc123".to_string()));
}

#[test]
fn compaction_rejects_unknown_types() {
    assert_eq!(compact_vrs_id("ga4gh:CN.xyz"), Err(VcfError::UnrecognizedVariationType));
    assert_eq!(compact_vrs_id(""), Err(VcfError::UnrecognizedVariationType));
    assert_eq!(compact_vrs_id("ga4gh:ga4gh:VA.x"), Err(VcfError::UnrecognizedVariationType));
    assert_eq!(compact_vrs_id("va.abc"), Err(VcfError::UnrecognizedVariationType));
}

#[test]
fn variation_types() {
    assert_eq!(VariationType::Allele.to_id(), Ok(1));
    assert_eq!(VariationType::Allele.token_str(), "VA.");
    assert_eq!(variation_type_of("VA.q"), Some(VariationType::Allele));
    assert_eq!(variation_type_of("VS.q"), None);
    assert!(starts_with("ga4gh:VA", "ga4gh:"));
    assert!(!starts_with("ga4", "ga4gh:"));
}

#[test]
fn attrs_compact_their_identifier() {
    let a = VrsAlleleAttrs {
        vrs_id: "ga4gh:VA.xyz".to_string(),
        vrs_start: 1,
        vrs_end: 2,
        vrs_state: "G".to_string(),
    };
    assert_eq!(a.vrs_id_to_vrsix(), Ok("1xyz".to_string()));
}

#[test]
fn transposer_keeps_count_and_order() {
    let r = transpose_attrs(
        owned(&["VA.a", "VA.b", "VA.c"]),
        vec![1, 2, 3],
        vec![4, 5, 6],
        owned(&["A", "C", "G"]),
    )
    .unwrap();
    assert_eq!(r.len(), 3);
    let got: Vec<(String, i32, i32, String)> = r
        .into_iter()
        .map(|a| (a.vrs_id, a.vrs_start, a.vrs_end, a.vrs_state))
        .collect();
    assert_eq!(
        got,
        vec![
            ("VA.a".to_string(), 1, 4, "A".to_string()),
            ("VA.b".to_string(), 2, 5, "C".to_string()),
            ("VA.c".to_string(), 3, 6, "G".to_string()),
        ]
    );
}

#[test]
fn transposer_of_empty_arrays() {
    let r = transpose_attrs(vec![], vec![], vec![], vec![]).unwrap();
    assert!(r.is_empty());
}

#[test]
fn mismatched_lengths_fail() {
    let r = transpose_attrs(owned(&["VA.a", "VA.b", "VA.c"]), vec![1, 2], vec![4, 5, 6], owned(&["A", "C", "G"]));
    assert_eq!(r.unwrap_err(), VcfError::LengthMismatch);
    let r = attrs_from_entries(
        &strings(&[Some("VA.a"), Some("VA.b"), Some("VA.c")]),
        &ints(&[Some(1), Some(2)]),
        &ints(&[Some(4), Some(5), Some(6)]),
        &strings(&[Some("A"), Some("C"), Some("G")]),
    );
    assert_eq!(r.unwrap_err(), VcfError::LengthMismatch);
}

#[test]
fn first_failing_field_decides_the_error() {
    let r = attrs_from_entries(&InfoEntry::Absent, &InfoEntry::Scalar, &ints(&[None]), &strings(&[]));
    assert_eq!(r.unwrap_err(), VcfError::Field(VcfParseError::FieldMissing));
    let r = attrs_from_entries(&strings(&[Some("VA.a")]), &ints(&[Some(1)]), &ints(&[None]), &InfoEntry::Absent);
    assert_eq!(r.unwrap_err(), VcfError::Field(VcfParseError::NullElement));
}

#[test]
fn group_lines() {
    let locus = VariantLocus { chrom: "X".to_string(), pos: 77, source_id: 3 };
    assert_eq!(encode_allele_group(&locus, "1q", -5, 12, 42), "X-77-3\n1q42\n-5-42\n12-42\n");
}

#[test]
fn record_groups_are_numbered_from_the_counter() {
    let locus = VariantLocus { chrom: "2".to_string(), pos: 10, source_id: 1 };
    let attrs = vec![
        VrsAlleleAttrs { vrs_id: "VA.a".to_string(), vrs_start: 9, vrs_end: 10, vrs_state: "T".to_string() },
        VrsAlleleAttrs { vrs_id: "ga4gh:VA.b".to_string(), vrs_start: 9, vrs_end: 11, vrs_state: "TT".to_string() },
    ];
    let r = encode_record(&locus, &attrs, 7).unwrap();
    assert_eq!(r, vec!["2-10-1\n1a7\n9-7\n10-7\n".to_string(), "2-10-1\n1b8\n9-8\n11-8\n".to_string()]);
    assert_eq!(encode_record(&locus, &attrs, u64::MAX - 1).unwrap_err(), VcfError::CounterExhausted);
    assert!(encode_record(&locus, &attrs, u64::MAX - 2).is_ok());
}

#[test]
fn one_unknown_identifier_skips_the_whole_record() {
    let locus = VariantLocus { chrom: "2".to_string(), pos: 10, source_id: 1 };
    let attrs = vec![
        VrsAlleleAttrs { vrs_id: "VA.a".to_string(), vrs_start: 9, vrs_end: 10, vrs_state: "T".to_string() },
        VrsAlleleAttrs { vrs_id: "CN.b".to_string(), vrs_start: 9, vrs_end: 11, vrs_state: "TT".to_string() },
    ];
    assert_eq!(encode_record(&locus, &attrs, 0).unwrap_err(), VcfError::UnrecognizedVariationType);
}

#[test]
fn end_to_end_single_record() {
    let mut loader = Loader::new(1);
    let groups = loader
        .plan_record(
            "1",
            1000,
            &strings(&[Some("ga4gh:VA.abc")]),
            &ints(&[Some(999)]),
            &ints(&[Some(1000)]),
            &strings(&[Some("A")]),
        )
        .unwrap();
    assert_eq!(groups.len(), 1);
    let lines: Vec<&str> = groups[0].lines().collect();
    assert_eq!(lines, vec!["1-1000-1", "1abc0", "999-0", "1000-0"]);
    loader.group_written();
    assert_eq!(loader.counter(), 1);
    assert_eq!(loader.source_id(), 1);
}

#[test]
fn null_elements_skip_the_record() {
    let loader = Loader::new(1);
    let ids = strings(&[Some("VA.a"), Some("VA.b")]);
    let good = ints(&[Some(1), Some(2)]);
    let states = strings(&[Some("A"), Some("C")]);
    let r = loader.plan_record("1", 5, &ids, &ints(&[Some(1), None]), &good, &states);
    assert_eq!(r.unwrap_err(), VcfError::Field(VcfParseError::NullElement));
    let r = loader.plan_record("1", 5, &ids, &good, &strings(&[None, Some("2")]), &states);
    assert_eq!(r.unwrap_err(), VcfError::Field(VcfParseError::NullElement));
    let r = loader.plan_record("1", 5, &strings(&[Some("VA.a"), None]), &good, &good, &states);
    assert_eq!(r.unwrap_err(), VcfError::UnrecognizedVariationType);
    assert_eq!(loader.counter(), 0);
}

#[test]
fn null_state_is_kept_as_empty() {
    let loader = Loader::new(2);
    let r = loader
        .plan_record("7", 3, &strings(&[Some("VA.z")]), &ints(&[Some(2)]), &ints(&[Some(3)]), &strings(&[None]))
        .unwrap();
    assert_eq!(r, vec!["7-3-2\n1z0\n2-0\n3-0\n".to_string()]);
}

#[test]
fn resume_point_counts_whole_groups() {
    assert_eq!(resume_point(&Vec::new()), (0, 0));
    let one = b"1-1000-1\n1abc0\n999-0\n1000-0\n".to_vec();
    assert_eq!(resume_point(&one), (one.len(), 1));
    let mut cut = one.clone();
    cut.extend_from_slice(b"1-1001-1\n1abd1\n99");
    assert_eq!(resume_point(&cut), (one.len(), 1));
    let mut two = one.clone();
    two.extend_from_slice(&one);
    assert_eq!(resume_point(&two), (two.len(), 2));
}

#[test]
fn resumed_run_skips_groups_already_written() {
    let mut loader = Loader::resume(1, 2);
    assert_eq!(loader.counter(), 0);
    assert!(!loader.needs_write());
    loader.group_written();
    assert!(!loader.needs_write());
    loader.group_written();
    assert!(loader.needs_write());
    assert_eq!(loader.counter(), 2);
    assert!(Loader::new(1).needs_write());
}

#[test]
fn legacy_null_after_malformed_text() {
    let loader = Loader::new(1);
    let r = loader.plan_record(
        "1",
        5,
        &strings(&[Some("VA.a"), Some("VA.b")]),
        &strings(&[Some("1x"), None]),
        &ints(&[Some(1), Some(2)]),
        &strings(&[Some("A"), Some("C")]),
    );
    assert_eq!(r.unwrap_err(), VcfError::Field(VcfParseError::MalformedNumber("1x".to_string())));
    let r = loader.plan_record(
        "1",
        5,
        &strings(&[Some("VA.a"), Some("VA.b")]),
        &strings(&[Some("1"), None]),
        &ints(&[Some(1), Some(2)]),
        &strings(&[Some("A"), Some("C")]),
    );
    assert_eq!(r.unwrap_err(), VcfError::Field(VcfParseError::NullElement));
}
