use vstd::prelude::*;

verus! {

/// Reads the high-resolution performance counter through
/// `time::precise_time_ns`: nanoseconds since an unspecified epoch. Nothing is
/// claimed about the value; two calls may return anything.
#[verifier::external_body]
fn precise_time_ns() -> (ns: u64) {
    time::precise_time_ns()
}

/// Whole milliseconds of a counter reading in nanoseconds, truncated to `i32`.
pub open spec fn ms_of_ns(ns: u64) -> i32 {
    (ns / 1_000_000) as i32
}

/// The millisecond count a program sees for a counter reading in
/// nanoseconds.
pub fn milli_secs_from_ns(ns: u64) -> (ms: i32)
    ensures
        ms == ms_of_ns(ns),
{
    (ns / 1_000_000) as i32
}

/// The current value of the millisecond counter: the millisecond count of
/// some counter reading.
pub fn milli_secs() -> (ms: i32)
    ensures
        exists|ns: u64| ms == #[trigger] ms_of_ns(ns),
{
    let ns = precise_time_ns();
    milli_secs_from_ns(ns)
}

} // verus!
