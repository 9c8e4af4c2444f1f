//! Data model: one sequencing read, the items a record source yields, the
//! exact rational used for derived metrics, the filter configuration, and the
//! column-oriented result set.

use vstd::prelude::*;

verus! {

/// One sequencing read: an identifier, the nucleotide bytes, and the
/// Phred+33-encoded quality bytes (one per base in well-formed input; the
/// engine tolerates a mismatch rather than assuming it).
pub struct Record {
    pub id: String,
    pub sequence: Vec<u8>,
    pub quality: Vec<u8>,
}

/// The mathematical value of a record: its identifier, sequence bytes and
/// quality bytes.
pub type RecordView = (Seq<char>, Seq<u8>, Seq<u8>);

impl View for Record {
    type V = RecordView;

    open spec fn view(&self) -> RecordView {
        (self.id@, self.sequence@, self.quality@)
    }
}

/// One item yielded by a record source: either a successfully decoded record
/// or a decode failure. Failures carry no payload; the pipeline skips them
/// silently, so nothing of the failure is ever read.
pub enum FastqItem {
    Parsed(Record),
    Malformed,
}

impl View for FastqItem {
    type V = Option<RecordView>;

    open spec fn view(&self) -> Option<RecordView> {
        match self {
            FastqItem::Parsed(r) => Some(r@),
            FastqItem::Malformed => None,
        }
    }
}

/// The sequence of item values a sequence of items stands for.
pub open spec fn items_view(items: Seq<FastqItem>) -> Seq<Option<RecordView>> {
    items.map_values(|it: FastqItem| it@)
}

/// An exact non-negative rational, `num / den`. Derived metrics (mean quality,
/// GC percentage) are ratios of byte counts, so they are kept exactly instead
/// of being rounded; a boundary layer may turn them into whatever inexact
/// number type the host wants.
pub struct Ratio {
    pub num: u128,
    pub den: usize,
}

impl Ratio {
    /// A ratio stands for a number only when its denominator is positive.
    pub open spec fn wf(self) -> bool {
        self.den > 0
    }
}

/// The three independently optional lower bounds of the legacy pipeline. The
/// two fractional thresholds are given in exact thousandths (a mean-quality
/// bound of 30.5 is 30_500; a GC bound of 50% is 50_000), so that the
/// inclusive comparison is exact rational arithmetic rather than a float
/// compare.
pub struct FilterConfig {
    pub min_length: Option<usize>,
    pub min_avg_quality_milli: Option<u64>,
    pub min_gc_milli: Option<u64>,
}

/// The three independently optional lower bounds of the primary pipeline,
/// whose quality measure is a caller-computed Phred-scale score. The quality
/// bound is in signed thousandths of a Phred score (a bound of 30.5 is
/// 30_500); it is signed because a read whose bytes sit below the encoding
/// offset scores below zero. The GC bound is in thousandths of a percent.
pub struct ScoredFilterConfig {
    pub min_length: Option<usize>,
    pub min_avg_quality_milli: Option<i64>,
    pub min_gc_milli: Option<u64>,
}

/// The legacy pipeline's result: four index-aligned columns describing the
/// accepted records in input order — identifier, sequence length, raw-byte
/// mean quality (as an exact ratio of the quality byte sum to the quality
/// length) and GC content (as an exact ratio of a hundred times the GC count
/// to the sequence length).
pub struct ResultSet {
    pub ids: Vec<String>,
    pub lengths: Vec<usize>,
    pub avg_quality: Vec<Ratio>,
    pub gc_content: Vec<Ratio>,
}

impl ResultSet {
    /// The four columns always have equal length.
    pub open spec fn wf(self) -> bool {
        &&& self.ids@.len() == self.lengths@.len()
        &&& self.ids@.len() == self.avg_quality@.len()
        &&& self.ids@.len() == self.gc_content@.len()
    }
}

/// The primary pipeline's result: four index-aligned columns describing the
/// accepted records in input order. The quality column holds each accepted
/// record's Phred-scale mean-quality score in signed thousandths, exactly as
/// the caller supplied it; the other columns are as in `ResultSet`.
pub struct ScoredResultSet {
    pub ids: Vec<String>,
    pub lengths: Vec<usize>,
    pub avg_quality_milli: Vec<i64>,
    pub gc_content: Vec<Ratio>,
}

impl ScoredResultSet {
    /// The four columns always have equal length.
    pub open spec fn wf(self) -> bool {
        &&& self.ids@.len() == self.lengths@.len()
        &&& self.ids@.len() == self.avg_quality_milli@.len()
        &&& self.ids@.len() == self.gc_content@.len()
    }
}

} // verus!
