use long_reads::analyze::{count_reads, count_reads_bytes, count_reads_source};
use long_reads::filter::{gc_meets, length_meets, raw_quality_meets, legacy_record_meets, score_meets, scored_record_meets};
use long_reads::records::ScoredFilterConfig;
use long_reads::metrics::{gc_content_ratio, gc_count, length, raw_mean_quality_ratio, phred_score, qual_sum};
use long_reads::records::{FastqItem, FilterConfig, Record};
use long_reads::{add, hello_world};

#[test]
fn greeting_and_sum() {
    assert_eq!(hello_world(), "Hello world!");
    assert_eq!(add(2, 40), 42);
    assert_eq!(add(-5, 3), -2);
}

#[test]
fn gc_count_counts_both_cases() {
    assert_eq!(gc_count(&b"GgCcATN".to_vec()), 4);
    assert_eq!(gc_count(&b"ATATNN".to_vec()), 0);
    assert_eq!(gc_count(&b"GGGG".to_vec()), 4);
    assert_eq!(gc_count(&Vec::new()), 0);
}

#[test]
fn gc_content_bounds_hold() {
    // All-G reads sit at exactly 100%, GC-free reads at exactly 0%.
    let all_g = gc_content_ratio(&b"GGG".to_vec());
    assert_eq!(all_g.num as f64 / all_g.den as f64, 100.0);
    let none = gc_content_ratio(&b"ATTA".to_vec());
    assert_eq!(none.num, 0);
    let half = gc_content_ratio(&b"GGAT".to_vec());
    assert_eq!(half.num as f64 / half.den as f64, 50.0);
}

#[test]
fn quality_sum_and_mean() {
    assert_eq!(qual_sum(&b"IIII".to_vec()), 4 * 73);
    assert_eq!(qual_sum(&Vec::new()), 0);
    // Mean of an empty quality string is exactly zero.
    let empty = raw_mean_quality_ratio(&Vec::new());
    assert_eq!((empty.num, empty.den), (0, 1));
    // A uniform quality string has mean exactly its byte value.
    let uniform = raw_mean_quality_ratio(&b"!!!".to_vec());
    assert_eq!(uniform.num as f64 / uniform.den as f64, 33.0);
}

#[test]
fn phred_decode_is_signed_offset() {
    assert_eq!(phred_score(b'I'), 40);
    assert_eq!(phred_score(b'!'), 0);
    // A byte below the offset decodes to a negative score, not a clamped zero.
    assert_eq!(phred_score(32), -1);
    assert_eq!(phred_score(0), -33);
}

#[test]
fn sequence_length_is_byte_count() {
    assert_eq!(length(&b"ACGTN".to_vec()), 5);
    assert_eq!(length(&Vec::new()), 0);
}

#[test]
fn bound_checks_are_inclusive() {
    assert!(length_meets(50, &Some(50)));
    assert!(!length_meets(49, &Some(50)));
    assert!(length_meets(0, &None));
    // Mean 292/4 = 73 against a bound of exactly 73.000.
    assert!(raw_quality_meets(292, 4, &Some(73_000)));
    assert!(!raw_quality_meets(292, 4, &Some(73_001)));
    assert!(raw_quality_meets(0, 0, &Some(0)));
    assert!(!raw_quality_meets(0, 0, &Some(1)));
    // GC 2/4 = 50% against a bound of exactly 50.000%.
    assert!(gc_meets(2, 4, &Some(50_000)));
    assert!(!gc_meets(2, 4, &Some(50_001)));
    assert!(gc_meets(0, 4, &None));
}

#[test]
fn score_bound_is_inclusive_and_signed() {
    assert!(score_meets(40_000, &Some(40_000)));
    assert!(!score_meets(39_999, &Some(40_000)));
    assert!(score_meets(-500, &None));
    // A negative score meets a negative bound.
    assert!(score_meets(-500, &Some(-1_000)));
    assert!(!score_meets(-1_001, &Some(-1_000)));
}

#[test]
fn scored_record_check_requires_all_bounds() {
    let rec = Record { id: "r".to_string(), sequence: b"GGCC".to_vec(), quality: b"IIII".to_vec() };
    let all = ScoredFilterConfig {
        min_length: Some(4),
        min_avg_quality_milli: Some(40_000),
        min_gc_milli: Some(100_000),
    };
    // The caller-computed score for a uniform-'I' read is Phred 40.
    assert!(scored_record_meets(&rec, 40_000, &all));
    let quality_50 = ScoredFilterConfig { min_avg_quality_milli: Some(50_000), ..all };
    assert!(!scored_record_meets(&rec, 40_000, &quality_50));
    let empty = Record { id: "e".to_string(), sequence: Vec::new(), quality: Vec::new() };
    let none = ScoredFilterConfig {
        min_length: None,
        min_avg_quality_milli: None,
        min_gc_milli: None,
    };
    assert!(!scored_record_meets(&empty, 0, &none));
}

#[test]
fn legacy_record_check_requires_all_bounds() {
    let rec = Record { id: "r".to_string(), sequence: b"GGCC".to_vec(), quality: b"IIII".to_vec() };
    let all = FilterConfig {
        min_length: Some(4),
        min_avg_quality_milli: Some(73_000),
        min_gc_milli: Some(100_000),
    };
    assert!(legacy_record_meets(&rec, &all));
    let too_long = FilterConfig { min_length: Some(5), ..all };
    assert!(!legacy_record_meets(&rec, &too_long));
    let empty = Record { id: "e".to_string(), sequence: Vec::new(), quality: Vec::new() };
    let none = FilterConfig { min_length: None, min_avg_quality_milli: None, min_gc_milli: None };
    assert!(!legacy_record_meets(&empty, &none));
}

#[test]
fn counting_scan_counts_parsed_and_filtered() {
    let items = vec![
        FastqItem::Parsed(Record {
            id: "a".to_string(),
            sequence: b"GGCC".to_vec(),
            quality: b"IIII".to_vec(),
        }),
        FastqItem::Malformed,
        FastqItem::Parsed(Record {
            id: "b".to_string(),
            sequence: b"AT".to_vec(),
            quality: b"!!".to_vec(),
        }),
    ];
    assert_eq!(count_reads(&items, &None, &None), (2, 2));
    assert_eq!(count_reads(&items, &Some(3), &None), (2, 1));
    assert_eq!(count_reads(&items, &None, &Some(73_000)), (2, 1));
    assert_eq!(count_reads(&items, &Some(3), &Some(34_000)), (2, 1));
}

#[test]
fn counting_scan_over_bytes_and_source() {
    let data = b"@a\nGGCC\n+\nIIII\nnot a record\n@b\nAT\n+\n!!\n".to_vec();
    assert_eq!(count_reads_bytes(&data, &None, &None), (2, 2));
    assert_eq!(count_reads_source(&Some(data), &Some(4), &None), (2, 1));
    // An unopenable source counts nothing and raises nothing.
    assert_eq!(count_reads_source(&None, &None, &None), (0, 0));
}
