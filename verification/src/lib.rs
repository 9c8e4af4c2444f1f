//! A FASTQ read-analysis and filtering engine: per-read metrics (length, mean
//! quality, GC content) computed exactly, and selection of the reads that meet
//! caller-supplied inclusive lower bounds.

pub mod analyze;
pub mod filter;
pub mod metrics;
pub mod records;

use vstd::prelude::*;

verus! {

/// Greeting used by the host-facing layer.
pub fn hello_world() -> (r: &'static str)
    ensures
        r@ == "Hello world!"@,
{
    "Hello world!"
}

/// Sum of two machine integers; the caller keeps the sum in range.
pub fn add(x: i32, y: i32) -> (r: i32)
    requires
        i32::MIN <= x + y <= i32::MAX,
    ensures
        r == x + y,
{
    x + y
}

} // verus!
