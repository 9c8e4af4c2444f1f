//! Filter pipeline: consume a sequence of decoded-record-or-failure items,
//! compute each record's metrics, and accumulate the records that meet the
//! configured bounds into four index-aligned columns, in input order.
//!
//! Decoding FASTQ bytes into items is the sequence-format library's work and
//! stands behind one trusted wrapper; everything downstream of it is verified.
//!
//! The primary pipeline (`analyze_scored_items`) measures quality by
//! Phred-error averaging; since that arithmetic is floating point, which the
//! verified core cannot hold, the caller decodes the bytes here, computes one
//! score per item, and this module verifies selection and all four output
//! columns over those scores. The `*_legacy` pipeline is the compatibility
//! mode that measures quality as the raw-byte arithmetic mean, computed and
//! verified exactly here end to end.

use vstd::prelude::*;
use crate::filter::{legacy_record_passes, length_passes, raw_quality_passes, legacy_record_meets, length_meets, raw_quality_meets, scored_record_passes, scored_record_meets};
use crate::metrics::{gc_count_spec, sum_spec, raw_mean_ratio_spec, raw_mean_quality_ratio, gc_content_ratio, qual_sum};
use crate::records::{FastqItem, FilterConfig, Record, RecordView, ResultSet, ScoredFilterConfig, ScoredResultSet, items_view};

verus! {

/// The items (decoded records in input order, decode failures as `None`) that
/// the FASTQ reader yields for a given byte content. A pure function of the
/// bytes; stating the full grammar and its error recovery is the reader's
/// business, so the value is left unspecified here.
pub uninterp spec fn fastq_items_of(data: Seq<u8>) -> Seq<Option<RecordView>>;

/// Relies on bio::io::fastq::Reader over an in-memory buffer: the records and
/// parse failures it yields depend on the buffer's bytes alone, and a failure
/// does not stop the iteration.
#[verifier::external_body]
fn parse_fastq(data: &Vec<u8>) -> (items: Vec<FastqItem>)
    ensures
        items_view(items@) == fastq_items_of(data@),
{
    bio::io::fastq::Reader::new(data.as_slice())
        .records()
        .map(|res| match res {
            Ok(rec) => FastqItem::Parsed(Record {
                id: rec.id().to_string(),
                sequence: rec.seq().to_vec(),
                quality: rec.qual().to_vec(),
            }),
            Err(_) => FastqItem::Malformed,
        })
        .collect()
}

/// Decode FASTQ-formatted bytes into items: one decoded record or one
/// failure marker per entry, in input order. This is the pipelines' own
/// decode step, public so that a caller computing per-record quality scores
/// works from the same items the pipeline would.
pub fn decode_fastq(data: &Vec<u8>) -> (items: Vec<FastqItem>)
    ensures
        items_view(items@) == fastq_items_of(data@),
{
    parse_fastq(data)
}

/// The subsequence of decoded records that the legacy configuration accepts,
/// in input order; decode failures contribute nothing.
pub open spec fn legacy_accepted_records(items: Seq<Option<RecordView>>, cfg: FilterConfig) -> Seq<
    RecordView,
>
    decreases items.len(),
{
    if items.len() == 0 {
        Seq::empty()
    } else {
        let rest = legacy_accepted_records(items.drop_last(), cfg);
        match items.last() {
            Option::Some(rv) => if legacy_record_passes(rv, cfg) {
                rest.push(rv)
            } else {
                rest
            },
            Option::None => rest,
        }
    }
}

/// A result set describes a sequence of accepted records exactly: the four
/// columns have that sequence's length, and row `i` holds the `i`-th record's
/// identifier, its sequence length, its mean quality as an exact ratio, and
/// its GC content as an exact percentage ratio.
pub open spec fn legacy_result_matches(res: ResultSet, acc: Seq<RecordView>) -> bool {
    &&& res.ids@.len() == acc.len()
    &&& res.lengths@.len() == acc.len()
    &&& res.avg_quality@.len() == acc.len()
    &&& res.gc_content@.len() == acc.len()
    &&& forall|i: int|
        #![trigger acc[i]]
        0 <= i < acc.len() ==> {
            &&& res.ids@[i]@ == acc[i].0
            &&& res.lengths@[i] == acc[i].1.len()
            &&& (res.avg_quality@[i].num as nat, res.avg_quality@[i].den as nat)
                == raw_mean_ratio_spec(sum_spec(acc[i].2), acc[i].2.len())
            &&& res.gc_content@[i].num == gc_count_spec(acc[i].1) * 100
            &&& res.gc_content@[i].den == acc[i].1.len()
        }
}

/// The empty result set: four empty columns.
pub fn empty_result() -> (res: ResultSet)
    ensures
        res.wf(),
        legacy_result_matches(res, Seq::empty()),
{
    ResultSet { ids: Vec::new(), lengths: Vec::new(), avg_quality: Vec::new(), gc_content: Vec::new() }
}

/// Run the legacy pipeline (raw-byte mean quality) over already-decoded
/// items: skip failures, skip empty reads, keep every record the
/// configuration accepts, in input order.
pub fn analyze_items_legacy(items: &Vec<FastqItem>, cfg: &FilterConfig) -> (res: ResultSet)
    ensures
        res.wf(),
        legacy_result_matches(res, legacy_accepted_records(items_view(items@), *cfg)),
{
    let mut res = empty_result();
    let mut i: usize = 0;
    while i < items.len()
        invariant
            i <= items@.len(),
            res.wf(),
            legacy_result_matches(res, legacy_accepted_records(items_view(items@).take(i as int), *cfg)),
        decreases items@.len() - i,
    {
        proof {
            let iv = items_view(items@);
            assert(iv.take(i + 1).drop_last() =~= iv.take(i as int));
            assert(iv.take(i + 1).last() == items@[i as int]@);
        }
        match &items[i] {
            FastqItem::Parsed(rec) => {
                if legacy_record_meets(rec, cfg) {
                    let ghost acc_old = legacy_accepted_records(
                        items_view(items@).take(i as int),
                        *cfg,
                    );
                    let ghost res0 = res;
                    let id = rec.id.clone();
                    let len = rec.sequence.len();
                    let mq = raw_mean_quality_ratio(&rec.quality);
                    let gc = gc_content_ratio(&rec.sequence);
                    res.ids.push(id);
                    res.lengths.push(len);
                    res.avg_quality.push(mq);
                    res.gc_content.push(gc);
                    proof {
                        let acc_new = legacy_accepted_records(items_view(items@).take(i + 1), *cfg);
                        assert(acc_new == acc_old.push(rec@));
                        assert forall|j: int| 0 <= j < acc_new.len() implies {
                            &&& res.ids@[j]@ == acc_new[j].0
                            &&& res.lengths@[j] == acc_new[j].1.len()
                            &&& (res.avg_quality@[j].num as nat, res.avg_quality@[j].den as nat)
                                == raw_mean_ratio_spec(sum_spec(acc_new[j].2), acc_new[j].2.len())
                            &&& res.gc_content@[j].num == gc_count_spec(acc_new[j].1) * 100
                            &&& res.gc_content@[j].den == acc_new[j].1.len()
                        } by {
                            if j < acc_new.len() - 1 {
                                assert(acc_new[j] == acc_old[j]);
                                assert(res0.ids@[j]@ == acc_old[j].0);
                                assert(res.ids@[j] == res0.ids@[j]);
                                assert(res.lengths@[j] == res0.lengths@[j]);
                                assert(res.avg_quality@[j] == res0.avg_quality@[j]);
                                assert(res.gc_content@[j] == res0.gc_content@[j]);
                            } else {
                                assert(acc_new[j] == rec@);
                            }
                        }
                    }
                }
            },
            FastqItem::Malformed => {},
        }
        i = i + 1;
    }
    proof {
        assert(items_view(items@).take(items@.len() as int) =~= items_view(items@));
    }
    res
}

/// Legacy analysis of FASTQ-formatted bytes: decode them with the FASTQ
/// reader and run the legacy pipeline over what it yields.
pub fn analyze_bytes_legacy(data: &Vec<u8>, cfg: &FilterConfig) -> (res: ResultSet)
    ensures
        res.wf(),
        legacy_result_matches(res, legacy_accepted_records(fastq_items_of(data@), *cfg)),
{
    let items = parse_fastq(data);
    analyze_items_legacy(&items, cfg)
}

/// Legacy analysis of a record source that may have failed to open: an
/// unopenable source (no content at all) yields the well-formed empty result
/// set rather than an error — the deliberate fail-soft posture at this
/// boundary, under which "no file" and "a file with no qualifying read" are
/// indistinguishable.
pub fn analyze_source_legacy(data: &Option<Vec<u8>>, cfg: &FilterConfig) -> (res: ResultSet)
    ensures
        res.wf(),
        match data {
            Option::Some(d) => legacy_result_matches(res, legacy_accepted_records(fastq_items_of(d@), *cfg)),
            Option::None => legacy_result_matches(res, Seq::empty()),
        },
{
    match data {
        Option::Some(d) => analyze_bytes_legacy(d, cfg),
        Option::None => empty_result(),
    }
}

/// The subsequence of decoded records, each paired with its caller-computed
/// Phred-scale quality score, that the primary configuration accepts, in
/// input order. `quals` is index-aligned with `items`; entries at failure
/// positions are never read.
pub open spec fn accepted_scored(
    items: Seq<Option<RecordView>>,
    quals: Seq<i64>,
    cfg: ScoredFilterConfig,
) -> Seq<(RecordView, i64)>
    recommends
        items.len() == quals.len(),
    decreases items.len(),
{
    if items.len() == 0 {
        Seq::empty()
    } else {
        let rest = accepted_scored(items.drop_last(), quals.drop_last(), cfg);
        match items.last() {
            Option::Some(rv) => if scored_record_passes(rv, quals.last(), cfg) {
                rest.push((rv, quals.last()))
            } else {
                rest
            },
            Option::None => rest,
        }
    }
}

/// A scored result set describes a sequence of accepted scored records
/// exactly: the four columns have that sequence's length, and row `i` holds
/// the `i`-th record's identifier, its sequence length, its quality score as
/// supplied, and its GC content as an exact percentage ratio.
pub open spec fn scored_result_matches(res: ScoredResultSet, acc: Seq<(RecordView, i64)>) -> bool {
    &&& res.ids@.len() == acc.len()
    &&& res.lengths@.len() == acc.len()
    &&& res.avg_quality_milli@.len() == acc.len()
    &&& res.gc_content@.len() == acc.len()
    &&& forall|i: int|
        #![trigger acc[i]]
        0 <= i < acc.len() ==> {
            &&& res.ids@[i]@ == acc[i].0.0
            &&& res.lengths@[i] == acc[i].0.1.len()
            &&& res.avg_quality_milli@[i] == acc[i].1
            &&& res.gc_content@[i].num == gc_count_spec(acc[i].0.1) * 100
            &&& res.gc_content@[i].den == acc[i].0.1.len()
        }
}

/// The empty scored result set: four empty columns.
pub fn empty_scored_result() -> (res: ScoredResultSet)
    ensures
        res.wf(),
        scored_result_matches(res, Seq::empty()),
{
    ScoredResultSet {
        ids: Vec::new(),
        lengths: Vec::new(),
        avg_quality_milli: Vec::new(),
        gc_content: Vec::new(),
    }
}

/// Run the primary pipeline over already-decoded items and one quality score
/// per item (each decoded record's Phred-error-averaged mean quality, in
/// signed thousandths, computed by the caller): skip failures, skip empty
/// reads, keep every record the configuration accepts, in input order. The
/// quality column holds the given scores unchanged.
pub fn analyze_scored_items(
    items: &Vec<FastqItem>,
    quals: &Vec<i64>,
    cfg: &ScoredFilterConfig,
) -> (res: ScoredResultSet)
    requires
        items@.len() == quals@.len(),
    ensures
        res.wf(),
        scored_result_matches(res, accepted_scored(items_view(items@), quals@, *cfg)),
{
    let mut res = empty_scored_result();
    let mut i: usize = 0;
    while i < items.len()
        invariant
            i <= items@.len(),
            items@.len() == quals@.len(),
            res.wf(),
            scored_result_matches(
                res,
                accepted_scored(items_view(items@).take(i as int), quals@.take(i as int), *cfg),
            ),
        decreases items@.len() - i,
    {
        proof {
            let iv = items_view(items@);
            assert(iv.take(i + 1).drop_last() =~= iv.take(i as int));
            assert(iv.take(i + 1).last() == items@[i as int]@);
            assert(quals@.take(i + 1).drop_last() =~= quals@.take(i as int));
            assert(quals@.take(i + 1).last() == quals@[i as int]);
        }
        let q = quals[i];
        match &items[i] {
            FastqItem::Parsed(rec) => {
                if scored_record_meets(rec, q, cfg) {
                    let ghost acc_old = accepted_scored(
                        items_view(items@).take(i as int),
                        quals@.take(i as int),
                        *cfg,
                    );
                    let ghost res0 = res;
                    let id = rec.id.clone();
                    let len = rec.sequence.len();
                    let gc = gc_content_ratio(&rec.sequence);
                    res.ids.push(id);
                    res.lengths.push(len);
                    res.avg_quality_milli.push(q);
                    res.gc_content.push(gc);
                    proof {
                        let acc_new = accepted_scored(
                            items_view(items@).take(i + 1),
                            quals@.take(i + 1),
                            *cfg,
                        );
                        assert(acc_new == acc_old.push((rec@, q)));
                        assert forall|j: int| 0 <= j < acc_new.len() implies {
                            &&& res.ids@[j]@ == acc_new[j].0.0
                            &&& res.lengths@[j] == acc_new[j].0.1.len()
                            &&& res.avg_quality_milli@[j] == acc_new[j].1
                            &&& res.gc_content@[j].num == gc_count_spec(acc_new[j].0.1) * 100
                            &&& res.gc_content@[j].den == acc_new[j].0.1.len()
                        } by {
                            if j < acc_new.len() - 1 {
                                assert(acc_new[j] == acc_old[j]);
                                assert(res0.ids@[j]@ == acc_old[j].0.0);
                                assert(res.ids@[j] == res0.ids@[j]);
                                assert(res.lengths@[j] == res0.lengths@[j]);
                                assert(res.avg_quality_milli@[j] == res0.avg_quality_milli@[j]);
                                assert(res.gc_content@[j] == res0.gc_content@[j]);
                            } else {
                                assert(acc_new[j] == (rec@, q));
                            }
                        }
                    }
                }
            },
            FastqItem::Malformed => {},
        }
        i = i + 1;
    }
    proof {
        assert(items_view(items@).take(items@.len() as int) =~= items_view(items@));
        assert(quals@.take(quals@.len() as int) =~= quals@);
    }
    res
}

/// The number of successfully decoded records among the items.
pub open spec fn total_parsed(items: Seq<Option<RecordView>>) -> nat
    decreases items.len(),
{
    if items.len() == 0 {
        0
    } else {
        total_parsed(items.drop_last()) + match items.last() {
            Option::Some(_) => 1nat,
            Option::None => 0nat,
        }
    }
}

/// Whether a decoded record counts as filtered in the counting scan: its
/// optional length and raw-byte mean-quality bounds are met. Unlike the full
/// pipelines, the counting scan has no GC bound and does not drop zero-length
/// reads.
pub open spec fn counted_passes(rv: RecordView, min_length: Option<usize>, min_q: Option<
    u64,
>) -> bool {
    &&& length_passes(rv.1.len(), min_length)
    &&& raw_quality_passes(sum_spec(rv.2), rv.2.len(), min_q)
}

/// The number of decoded records that the counting scan's bounds accept.
pub open spec fn total_passing(
    items: Seq<Option<RecordView>>,
    min_length: Option<usize>,
    min_q: Option<u64>,
) -> nat
    decreases items.len(),
{
    if items.len() == 0 {
        0
    } else {
        total_passing(items.drop_last(), min_length, min_q) + match items.last() {
            Option::Some(rv) => if counted_passes(rv, min_length, min_q) {
                1nat
            } else {
                0nat
            },
            Option::None => 0nat,
        }
    }
}

/// Counting scan over already-decoded items: how many records decoded at all,
/// and how many of those meet the optional length and raw-byte mean-quality
/// bounds. Decode failures count toward neither.
pub fn count_reads(
    items: &Vec<FastqItem>,
    min_length: &Option<usize>,
    min_avg_quality_milli: &Option<u64>,
) -> (r: (usize, usize))
    ensures
        r.0 == total_parsed(items_view(items@)),
        r.1 == total_passing(items_view(items@), *min_length, *min_avg_quality_milli),
        r.1 <= r.0 <= items@.len(),
{
    let mut total: usize = 0;
    let mut filtered: usize = 0;
    let mut i: usize = 0;
    while i < items.len()
        invariant
            i <= items@.len(),
            total == total_parsed(items_view(items@).take(i as int)),
            filtered == total_passing(
                items_view(items@).take(i as int),
                *min_length,
                *min_avg_quality_milli,
            ),
            filtered <= total <= i,
        decreases items@.len() - i,
    {
        proof {
            let iv = items_view(items@);
            assert(iv.take(i + 1).drop_last() =~= iv.take(i as int));
            assert(iv.take(i + 1).last() == items@[i as int]@);
        }
        match &items[i] {
            FastqItem::Parsed(rec) => {
                total = total + 1;
                let len_ok = length_meets(rec.sequence.len(), min_length);
                let sum = qual_sum(&rec.quality);
                let qual_ok = raw_quality_meets(sum, rec.quality.len(), min_avg_quality_milli);
                if len_ok && qual_ok {
                    filtered = filtered + 1;
                }
            },
            FastqItem::Malformed => {},
        }
        i = i + 1;
    }
    proof {
        assert(items_view(items@).take(items@.len() as int) =~= items_view(items@));
    }
    (total, filtered)
}

/// Counting scan over FASTQ-formatted bytes.
pub fn count_reads_bytes(
    data: &Vec<u8>,
    min_length: &Option<usize>,
    min_avg_quality_milli: &Option<u64>,
) -> (r: (usize, usize))
    ensures
        r.0 == total_parsed(fastq_items_of(data@)),
        r.1 == total_passing(fastq_items_of(data@), *min_length, *min_avg_quality_milli),
        r.1 <= r.0,
{
    let items = parse_fastq(data);
    count_reads(&items, min_length, min_avg_quality_milli)
}

/// Counting scan over a record source that may have failed to open: an
/// unopenable source yields zero counts, never an error — the same fail-soft
/// posture as the full pipeline.
pub fn count_reads_source(
    data: &Option<Vec<u8>>,
    min_length: &Option<usize>,
    min_avg_quality_milli: &Option<u64>,
) -> (r: (usize, usize))
    ensures
        match data {
            Option::Some(d) => r.0 == total_parsed(fastq_items_of(d@)) && r.1 == total_passing(
                fastq_items_of(d@),
                *min_length,
                *min_avg_quality_milli,
            ),
            Option::None => r.0 == 0 && r.1 == 0,
        },
        r.1 <= r.0,
{
    match data {
        Option::Some(d) => count_reads_bytes(d, min_length, min_avg_quality_milli),
        Option::None => (0, 0),
    }
}

} // verus!
