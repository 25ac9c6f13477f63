use vrsix::error::VcfError;
use vrsix::input::{input_kind, InputKind};
use vrsix::rows::{db_rows, naive_line_rows};
use vrsix::text::same_text;

#[test]
fn input_kind_by_extension() {
    assert_eq!(input_kind(Some("gz")), Ok(InputKind::Bgzf));
    assert_eq!(input_kind(Some("vcf")), Ok(InputKind::Plain));
    assert_eq!(input_kind(Some("bcf")), Err(VcfError::UnsupportedFiletype));
    assert_eq!(input_kind(None), Err(VcfError::UnsupportedFiletype));
    assert!(same_text("vcf", "vcf"));
    assert!(!same_text("vcf", "vc"));
}

#[test]
fn db_rows_shorten_identifiers() {
    let ids = vec!["ga4gh:VA.abc".to_string(), "VA.def".to_string()];
    let rows = db_rows(&ids, "X", 5);
    assert_eq!(rows.len(), 2);
    assert_eq!(rows[0].vrs_id, "abc");
    assert_eq!(rows[1].vrs_id, "VA.def");
    assert_eq!(rows[0].chr, "X");
    assert_eq!(rows[1].pos, 5);
}

#[test]
fn naive_line_reads_identifiers() {
    let line = "2\t77\t.\tA\tT\t.\tPASS\tDP=3;VRS_Allele_IDs= ga4gh:VA.a ,ga4gh:VA.b;VRS_Starts=1,2";
    let rows = naive_line_rows(line);
    let got: Vec<(String, String, i64)> = rows.into_iter().map(|r| (r.vrs_id, r.chr, r.pos)).collect();
    assert_eq!(
        got,
        vec![
            ("ga4gh:VA.a".to_string(), "2".to_string(), 77),
            ("ga4gh:VA.b".to_string(), "2".to_string(), 77),
        ]
    );
}

#[test]
fn naive_line_skips_what_it_cannot_read() {
    assert!(naive_line_rows("#CHROM\tPOS\tID\tREF\tALT\tQUAL\tFILTER\tINFO").is_empty());
    assert!(naive_line_rows("1\t5\t.\tA\tT\t.\tPASS").is_empty());
    assert!(naive_line_rows("1\tx5\t.\tA\tT\t.\tPASS\tVRS_Allele_IDs=a").is_empty());
    assert!(naive_line_rows("1\t5\t.\tA\tT\t.\tPASS\tVRS_Starts=1").is_empty());
    assert!(naive_line_rows("").is_empty());
}

#[test]
fn naive_line_trims_unicode_white_space() {
    let line = "3\t9\t.\tA\tT\t.\tPASS\tVRS_Allele_IDs=\u{a0}\tga4gh:VA.c\u{3000}";
    let rows = naive_line_rows(line);
    assert_eq!(rows.len(), 1);
    assert_eq!(rows[0].vrs_id, "");
    let line = "3\t9\t.\tA\tT\t.\tPASS\tVRS_Allele_IDs=\u{a0}ga4gh:VA.c\u{3000} ,x";
    let rows = naive_line_rows(line);
    assert_eq!(rows.len(), 2);
    assert_eq!(rows[0].vrs_id, "ga4gh:VA.c");
    assert_eq!(rows[1].vrs_id, "x");
}
