//! Threshold semantics: when a record's metrics meet the configured lower
//! bounds. Every bound is inclusive, every bound is optional, and an absent
//! bound never rejects. Fractional bounds are compared by exact
//! cross-multiplication or in exact thousandths, never by rounding.
//!
//! Two acceptance rules exist, which score quality differently and produce
//! materially different numbers. The primary rule takes each record's
//! Phred-error-averaged mean quality as a caller-computed score (its
//! transcendental arithmetic is floating point, which the verified core
//! cannot hold). The legacy compatibility rule scores quality as the
//! arithmetic mean of the raw encoded bytes, computed exactly here.

use vstd::prelude::*;
use crate::metrics::{gc_count_spec, sum_spec, gc_count, qual_sum};
use crate::records::{FilterConfig, Record, RecordView, ScoredFilterConfig};

verus! {

/// A length meets an optional minimum length iff the minimum is absent or the
/// length is at least it.
pub open spec fn length_passes(len: nat, min: Option<usize>) -> bool {
    match min {
        Option::None => true,
        Option::Some(m) => len >= m,
    }
}

/// A caller-computed Phred-scale mean-quality score (in signed thousandths)
/// meets an optional minimum (same unit) iff the minimum is absent or the
/// score is at least it.
pub open spec fn score_passes(q_milli: i64, min: Option<i64>) -> bool {
    match min {
        Option::None => true,
        Option::Some(m) => q_milli >= m,
    }
}

/// Legacy quality measure: a raw-byte mean `sum / qlen` meets an optional
/// minimum given in thousandths iff the minimum is absent, or
/// `sum / qlen >= min / 1000` as exact rationals; an empty quality string has
/// mean zero, so it meets only a zero minimum.
pub open spec fn raw_quality_passes(sum: nat, qlen: nat, min: Option<u64>) -> bool {
    match min {
        Option::None => true,
        Option::Some(m) => if qlen == 0 {
            m == 0
        } else {
            sum * 1000 >= m * qlen
        },
    }
}

/// A GC content `gc * 100 / slen` percent meets an optional minimum given in
/// thousandths of a percent iff the minimum is absent, or
/// `gc * 100 / slen >= min / 1000` as exact rationals.
pub open spec fn gc_passes(gc: nat, slen: nat, min: Option<u64>) -> bool {
    match min {
        Option::None => true,
        Option::Some(m) => gc * 100000 >= m * slen,
    }
}

/// Primary acceptance rule: a record with quality score `q_milli` (its
/// Phred-error-averaged mean quality in signed thousandths, computed by the
/// caller) is accepted iff its sequence is non-empty (an empty read carries no
/// usable signal and is excluded unconditionally) and all three optional
/// bounds are met.
pub open spec fn scored_record_passes(rv: RecordView, q_milli: i64, cfg: ScoredFilterConfig) -> bool {
    &&& rv.1.len() > 0
    &&& length_passes(rv.1.len(), cfg.min_length)
    &&& score_passes(q_milli, cfg.min_avg_quality_milli)
    &&& gc_passes(gc_count_spec(rv.1), rv.1.len(), cfg.min_gc_milli)
}

/// Legacy acceptance rule (raw-byte mean quality): a record is accepted iff
/// its sequence is non-empty and all three optional bounds are met.
pub open spec fn legacy_record_passes(rv: RecordView, cfg: FilterConfig) -> bool {
    &&& rv.1.len() > 0
    &&& length_passes(rv.1.len(), cfg.min_length)
    &&& raw_quality_passes(sum_spec(rv.2), rv.2.len(), cfg.min_avg_quality_milli)
    &&& gc_passes(gc_count_spec(rv.1), rv.1.len(), cfg.min_gc_milli)
}

/// Every bound of the primary rule is inclusive: a record whose length equals
/// the length bound, whose quality score equals the quality bound and whose
/// GC content equals the GC bound (the latter as an exact rational) is
/// accepted.
pub proof fn lemma_thresholds_inclusive(rv: RecordView, q_milli: i64, m_len: usize, m_gc: u64)
    requires
        rv.1.len() > 0,
        rv.1.len() == m_len,
        gc_count_spec(rv.1) * 100000 == m_gc * rv.1.len(),
    ensures
        scored_record_passes(
            rv,
            q_milli,
            (ScoredFilterConfig {
                min_length: Some(m_len),
                min_avg_quality_milli: Some(q_milli),
                min_gc_milli: Some(m_gc),
            }),
        ),
{
}

/// An absent bound of the primary rule never rejects: a record accepted under
/// a configuration is still accepted after any one bound is removed, and under
/// the empty configuration every record with a non-empty sequence is accepted.
pub proof fn lemma_absent_threshold_never_rejects(
    rv: RecordView,
    q_milli: i64,
    cfg: ScoredFilterConfig,
)
    ensures
        scored_record_passes(rv, q_milli, cfg) ==> scored_record_passes(
            rv,
            q_milli,
            (ScoredFilterConfig { min_length: None, ..cfg }),
        ),
        scored_record_passes(rv, q_milli, cfg) ==> scored_record_passes(
            rv,
            q_milli,
            (ScoredFilterConfig { min_avg_quality_milli: None, ..cfg }),
        ),
        scored_record_passes(rv, q_milli, cfg) ==> scored_record_passes(
            rv,
            q_milli,
            (ScoredFilterConfig { min_gc_milli: None, ..cfg }),
        ),
        rv.1.len() > 0 ==> scored_record_passes(
            rv,
            q_milli,
            (ScoredFilterConfig {
                min_length: None,
                min_avg_quality_milli: None,
                min_gc_milli: None,
            }),
        ),
{
}

/// A record with a zero-length sequence is excluded by the primary rule
/// whatever its quality score and whatever the configuration, even with every
/// bound absent.
pub proof fn lemma_empty_sequence_excluded(rv: RecordView, q_milli: i64, cfg: ScoredFilterConfig)
    ensures
        rv.1.len() == 0 ==> !scored_record_passes(rv, q_milli, cfg),
{
}

/// Every bound of the legacy rule is inclusive: a record whose length equals
/// the length bound, whose raw-byte mean equals the quality bound and whose
/// GC content equals the GC bound (both equalities as exact rationals) is
/// accepted.
pub proof fn lemma_legacy_thresholds_inclusive(rv: RecordView, m_len: usize, m_q: u64, m_gc: u64)
    requires
        rv.1.len() > 0,
        rv.1.len() == m_len,
        sum_spec(rv.2) * 1000 == m_q * rv.2.len(),
        rv.2.len() > 0 || m_q == 0,
        gc_count_spec(rv.1) * 100000 == m_gc * rv.1.len(),
    ensures
        legacy_record_passes(
            rv,
            (FilterConfig {
                min_length: Some(m_len),
                min_avg_quality_milli: Some(m_q),
                min_gc_milli: Some(m_gc),
            }),
        ),
{
}

/// An absent bound of the legacy rule never rejects: a record accepted under
/// a configuration is still accepted after any one bound is removed, and under
/// the empty configuration every record with a non-empty sequence is accepted.
pub proof fn lemma_legacy_absent_threshold_never_rejects(rv: RecordView, cfg: FilterConfig)
    ensures
        legacy_record_passes(rv, cfg) ==> legacy_record_passes(
            rv,
            (FilterConfig { min_length: None, ..cfg }),
        ),
        legacy_record_passes(rv, cfg) ==> legacy_record_passes(
            rv,
            (FilterConfig { min_avg_quality_milli: None, ..cfg }),
        ),
        legacy_record_passes(rv, cfg) ==> legacy_record_passes(
            rv,
            (FilterConfig { min_gc_milli: None, ..cfg }),
        ),
        rv.1.len() > 0 ==> legacy_record_passes(
            rv,
            (FilterConfig { min_length: None, min_avg_quality_milli: None, min_gc_milli: None }),
        ),
{
}

/// A record with a zero-length sequence is excluded by the legacy rule
/// whatever the configuration, even with every bound absent.
pub proof fn lemma_legacy_empty_sequence_excluded(rv: RecordView, cfg: FilterConfig)
    ensures
        rv.1.len() == 0 ==> !legacy_record_passes(rv, cfg),
{
}

/// Decide an optional minimum length.
pub fn length_meets(len: usize, min: &Option<usize>) -> (b: bool)
    ensures
        b == length_passes(len as nat, *min),
{
    match min {
        Option::None => true,
        Option::Some(m) => len >= *m,
    }
}

/// Decide an optional minimum quality score against a caller-computed
/// Phred-scale score, both in signed thousandths.
pub fn score_meets(q_milli: i64, min: &Option<i64>) -> (b: bool)
    ensures
        b == score_passes(q_milli, *min),
{
    match min {
        Option::None => true,
        Option::Some(m) => q_milli >= *m,
    }
}

/// Decide an optional minimum raw-byte mean quality (in thousandths) against
/// the exact mean `sum / qlen` — the legacy quality measure.
pub fn raw_quality_meets(sum: u128, qlen: usize, min: &Option<u64>) -> (b: bool)
    requires
        sum <= 255 * qlen,
    ensures
        b == raw_quality_passes(sum as nat, qlen as nat, *min),
{
    match min {
        Option::None => true,
        Option::Some(m) => if qlen == 0 {
            *m == 0
        } else {
            proof {
                assert((*m as u128) * (qlen as u128) <= u128::MAX) by (nonlinear_arith)
                    requires
                        *m <= u64::MAX,
                        qlen <= u64::MAX,
                ;
            }
            sum * 1000 >= (*m as u128) * (qlen as u128)
        },
    }
}

/// Decide an optional minimum GC content (in thousandths of a percent)
/// against the exact percentage `gc * 100 / slen`.
pub fn gc_meets(gc: usize, slen: usize, min: &Option<u64>) -> (b: bool)
    requires
        gc <= slen,
    ensures
        b == gc_passes(gc as nat, slen as nat, *min),
{
    match min {
        Option::None => true,
        Option::Some(m) => {
            proof {
                assert((*m as u128) * (slen as u128) <= u128::MAX) by (nonlinear_arith)
                    requires
                        *m <= u64::MAX,
                        slen <= u64::MAX,
                ;
            }
            (gc as u128) * 100000 >= (*m as u128) * (slen as u128)
        },
    }
}

/// Decide whether a record with a caller-computed quality score is accepted
/// under a primary configuration.
pub fn scored_record_meets(rec: &Record, q_milli: i64, cfg: &ScoredFilterConfig) -> (b: bool)
    ensures
        b == scored_record_passes(rec@, q_milli, *cfg),
{
    let slen = rec.sequence.len();
    if slen == 0 {
        return false;
    }
    if !length_meets(slen, &cfg.min_length) {
        return false;
    }
    if !score_meets(q_milli, &cfg.min_avg_quality_milli) {
        return false;
    }
    let gc = gc_count(&rec.sequence);
    gc_meets(gc, slen, &cfg.min_gc_milli)
}

/// Decide whether a record is accepted under a legacy configuration.
pub fn legacy_record_meets(rec: &Record, cfg: &FilterConfig) -> (b: bool)
    ensures
        b == legacy_record_passes(rec@, *cfg),
{
    let slen = rec.sequence.len();
    if slen == 0 {
        return false;
    }
    if !length_meets(slen, &cfg.min_length) {
        return false;
    }
    let sum = qual_sum(&rec.quality);
    if !raw_quality_meets(sum, rec.quality.len(), &cfg.min_avg_quality_milli) {
        return false;
    }
    let gc = gc_count(&rec.sequence);
    gc_meets(gc, slen, &cfg.min_gc_milli)
}

} // verus!
