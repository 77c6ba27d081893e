use vstd::prelude::*;
use std::time::{Duration, Instant};

verus! {

#[verifier::external_type_specification]
#[verifier::external_body]
pub struct ExInstant(Instant);

/// Relies on `Instant::now`: a reading of the monotonic clock. Nothing is
/// known of its value.
pub assume_specification[ Instant::now ]() -> Instant;

/// Relies on `Instant::elapsed`: the time since `start` was read (it
/// saturates at zero and does not panic). Nothing is known of its value.
pub assume_specification[ Instant::elapsed ](start: &Instant) -> Duration;

/// Runs `op` on `input`, reading the monotonic clock just before and just
/// after the call, and hands `name` with the elapsed time to `report`, on
/// success and on failure alike. What `op` returns is returned unchanged.
pub fn timeit<'a, A, T, F, R>(name: &'a str, op: F, input: A, report: R) -> (r: T) where
    F: FnOnce(A) -> T,
    R: FnOnce(&'a str, Duration),

    requires
        op.requires((input,)),
        forall|d: Duration| report.requires((name, d)),
    ensures
        op.ensures((input,), r),
{
    let start = Instant::now();
    let result = op(input);
    let elapsed = start.elapsed();
    report(name, elapsed);
    result
}

/// Runs `op` on `input` and, only when it succeeds, hands the value it
/// produced to `show`. What `op` returns is returned unchanged.
pub fn printit<A, T, E, F, S>(op: F, input: A, show: S) -> (r: Result<T, E>) where
    F: FnOnce(A) -> Result<T, E>,
    S: FnOnce(&T),

    requires
        op.requires((input,)),
        forall|v: &T| show.requires((v,)),
    ensures
        op.ensures((input,), r),
{
    let result = op(input);
    if let Ok(v) = &result {
        show(v);
    }
    result
}

/// Runs `op` on `input` under both wrappers, the timing one innermost: the
/// timing report comes first, then the value on success. The result is
/// exactly what `op` returned.
pub fn instrument<'a, A, T, E, F, R, S>(
    name: &'a str,
    op: F,
    input: A,
    report: R,
    show: S,
) -> (r: Result<T, E>) where
    F: FnOnce(A) -> Result<T, E>,
    R: FnOnce(&'a str, Duration),
    S: FnOnce(&T),

    requires
        op.requires((input,)),
        forall|d: Duration| report.requires((name, d)),
        forall|v: &T| show.requires((v,)),
    ensures
        op.ensures((input,), r),
{
    let timed = move |x: A| -> (out: Result<T, E>)
        requires
            op.requires((x,)),
            forall|d: Duration| report.requires((name, d)),
        ensures
            op.ensures((x,), out),
        { timeit(name, op, x, report) };
    printit(timed, input, show)
}

} // verus!
