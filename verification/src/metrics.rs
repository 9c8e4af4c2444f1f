//! Per-read metric calculator: sequence length, GC count, quality byte sum,
//! and the exact ratios derived from them. All metrics are exact integer or
//! rational arithmetic.

use vstd::prelude::*;
use crate::records::Ratio;

verus! {

/// Whether a nucleotide byte counts toward GC content: `G`, `g`, `C` or `c`.
pub open spec fn is_gc(b: u8) -> bool {
    b == 71u8 || b == 103u8 || b == 67u8 || b == 99u8
}

/// The number of G/C bases (either case) in a sequence.
pub open spec fn gc_count_spec(s: Seq<u8>) -> nat
    decreases s.len(),
{
    if s.len() == 0 {
        0
    } else {
        gc_count_spec(s.drop_last()) + if is_gc(s.last()) {
            1nat
        } else {
            0nat
        }
    }
}

/// The sum of a sequence of quality bytes.
pub open spec fn sum_spec(q: Seq<u8>) -> nat
    decreases q.len(),
{
    if q.len() == 0 {
        0
    } else {
        sum_spec(q.drop_last()) + q.last() as nat
    }
}

/// The legacy quality measure — the raw-byte mean of a quality string — as an
/// exact ratio: the byte sum over the byte count, and zero (as `0 / 1`) for an
/// empty string, which carries no quality information and is never scored as
/// high-confidence.
pub open spec fn raw_mean_ratio_spec(sum: nat, len: nat) -> (nat, nat) {
    if len == 0 {
        (0, 1)
    } else {
        (sum, len)
    }
}

/// A GC count never exceeds the sequence length.
pub proof fn lemma_gc_count_le_len(s: Seq<u8>)
    ensures
        gc_count_spec(s) <= s.len(),
    decreases s.len(),
{
    if s.len() > 0 {
        lemma_gc_count_le_len(s.drop_last());
    }
}

/// GC content lies between 0 and 100 percent: a hundred times the GC count,
/// divided by the length, is at least 0 and at most 100. A sequence with no
/// G/C base in either case has GC content exactly 0, and an all-`G` sequence
/// has GC content exactly 100 (its GC count is its whole length).
pub proof fn lemma_gc_content_bounds(s: Seq<u8>)
    ensures
        0 <= gc_count_spec(s) * 100 <= 100 * s.len(),
        (forall|i: int| 0 <= i < s.len() ==> !is_gc(s[i])) ==> gc_count_spec(s) == 0,
        (forall|i: int| 0 <= i < s.len() ==> s[i] == 71u8) ==> gc_count_spec(s) == s.len(),
    decreases s.len(),
{
    lemma_gc_count_le_len(s);
    if s.len() > 0 {
        lemma_gc_content_bounds(s.drop_last());
        assert(forall|i: int| 0 <= i < s.len() - 1 ==> s.drop_last()[i] == s[i]);
    }
}

/// A uniform quality string has mean quality exactly its byte value: the sum
/// of a sequence whose every byte is `c` is `c` times its length.
pub proof fn lemma_uniform_quality_sum(q: Seq<u8>, c: u8)
    requires
        forall|i: int| 0 <= i < q.len() ==> q[i] == c,
    ensures
        sum_spec(q) == c * q.len(),
    decreases q.len(),
{
    if q.len() == 0 {
    } else {
        lemma_uniform_quality_sum(q.drop_last(), c);
        assert(c * q.len() == c * (q.len() - 1) + c) by (nonlinear_arith);
    }
}

/// Decode one Phred+33 quality byte to its Phred score: the byte minus the
/// offset 33, as a signed value. A byte below 33 gives a negative score,
/// carried through rather than clamped.
pub fn phred_score(b: u8) -> (p: i32)
    ensures
        p == b - 33,
{
    b as i32 - 33
}

/// The number of bytes in a sequence.
pub fn length(s: &Vec<u8>) -> (n: usize)
    ensures
        n == s@.len(),
{
    s.len()
}

/// Count the G/C bases (either case) of a sequence.
pub fn gc_count(s: &Vec<u8>) -> (c: usize)
    ensures
        c == gc_count_spec(s@),
        c <= s@.len(),
{
    let mut c: usize = 0;
    let mut i: usize = 0;
    while i < s.len()
        invariant
            i <= s@.len(),
            c == gc_count_spec(s@.take(i as int)),
            c <= i,
        decreases s@.len() - i,
    {
        let b = s[i];
        proof {
            assert(s@.take(i + 1).drop_last() =~= s@.take(i as int));
            assert(s@.take(i + 1).last() == s@[i as int]);
        }
        if b == 71u8 || b == 103u8 || b == 67u8 || b == 99u8 {
            c = c + 1;
        }
        i = i + 1;
    }
    proof {
        assert(s@.take(s@.len() as int) =~= s@);
    }
    c
}

/// Sum the bytes of a quality string. The sum fits easily: it is at most 255
/// times the length.
pub fn qual_sum(q: &Vec<u8>) -> (s: u128)
    ensures
        s == sum_spec(q@),
        s <= 255 * q@.len(),
{
    let mut s: u128 = 0;
    let mut i: usize = 0;
    while i < q.len()
        invariant
            i <= q@.len(),
            s == sum_spec(q@.take(i as int)),
            s <= 255 * i,
        decreases q@.len() - i,
    {
        let b = q[i];
        proof {
            assert(q@.take(i + 1).drop_last() =~= q@.take(i as int));
            assert(q@.take(i + 1).last() == q@[i as int]);
        }
        s = s + b as u128;
        i = i + 1;
    }
    proof {
        assert(q@.take(q@.len() as int) =~= q@);
    }
    s
}

/// The legacy raw-byte mean of a quality string, as an exact ratio; zero for
/// an empty string.
pub fn raw_mean_quality_ratio(q: &Vec<u8>) -> (r: Ratio)
    ensures
        (r.num as nat, r.den as nat) == raw_mean_ratio_spec(sum_spec(q@), q@.len()),
        r.wf(),
{
    let len = q.len();
    if len == 0 {
        Ratio { num: 0, den: 1 }
    } else {
        Ratio { num: qual_sum(q), den: len }
    }
}

/// The GC content of a non-empty sequence, as an exact percentage ratio: a
/// hundred times the GC count, over the sequence length.
pub fn gc_content_ratio(s: &Vec<u8>) -> (r: Ratio)
    requires
        s@.len() > 0,
    ensures
        r.num == gc_count_spec(s@) * 100,
        r.den == s@.len(),
        r.wf(),
{
    let c = gc_count(s);
    Ratio { num: (c as u128) * 100, den: s.len() }
}

} // verus!
