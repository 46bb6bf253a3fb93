//! The decisions of one connection: when the next arrival is due, whether a
//! dispatched request succeeded, and how the results of its requests are
//! gathered in launch order.

use crate::units::{Microsecs, Nanosecs, Secs};
use vstd::prelude::*;

verus! {

/// One measured request.
#[derive(Debug, Clone, Copy, PartialEq, Eq, Structural)]
pub struct Record {
    pub latency: Microsecs,
}

/// Why a request failed in transport: the status of a response that was not
/// a success, when there was one, and a description.
#[derive(Debug, Clone)]
pub struct TransportError {
    pub status: Option<u16>,
    pub message: String,
}

/// What ends a run.
#[derive(Debug, Clone)]
pub enum Error {
    /// The per-connection rate is not positive, or there is no connection.
    InvalidWorkload,
    /// The request mix has no positive weight, or its sum does not fit.
    InvalidMix,
    /// A request failed, or its response status was not a success.
    Reqwest(TransportError),
    /// The result of a dispatched request could not be retrieved.
    Join(String),
}

/// The largest span in nanoseconds that a duration in seconds can give.
pub open spec fn max_span() -> int {
    u64::MAX as int * 1_000_000_000
}

/// The arrival schedule of one connection, as offsets in nanoseconds from its
/// start: `elapsed` is the scheduled time of the latest arrival.
#[derive(Debug, Clone, Copy, PartialEq, Eq, Structural)]
pub struct Schedule {
    pub elapsed: u128,
    pub duration: u128,
}

impl Schedule {
    pub open spec fn wf(&self) -> bool {
        self.duration <= max_span()
    }

    /// A schedule for a run of the given length that has not started.
    pub fn new(duration: Secs) -> (r: Schedule)
        ensures
            r.wf(),
            r.elapsed == 0,
            r.duration == duration.0 * 1_000_000_000,
    {
        let span = duration.as_nanos();
        Schedule { elapsed: 0, duration: span.0 }
    }

    /// Whether another arrival is to be scheduled: the latest one lies before
    /// the end of the run.
    pub fn is_running(&self) -> (r: bool)
        ensures
            r == (self.elapsed < self.duration),
    {
        self.elapsed < self.duration
    }

    /// Schedules the next arrival one gap after the latest and returns its
    /// offset.
    pub fn advance(&mut self, gap: u64) -> (at: Nanosecs)
        requires
            old(self).wf(),
            old(self).elapsed < old(self).duration,
        ensures
            final(self).wf(),
            final(self).duration == old(self).duration,
            final(self).elapsed == old(self).elapsed + gap,
            at.0 == final(self).elapsed,
    {
        self.elapsed = self.elapsed + gap as u128;
        Nanosecs(self.elapsed)
    }
}

/// Whether an HTTP status is a success.
pub open spec fn is_success(status: u16) -> bool {
    200 <= status <= 299
}

/// The outcome of one dispatched request whose response came back with
/// `status` after `latency`: a record on success, otherwise a transport error
/// that names the status.
pub fn unit_outcome(status: u16, latency: Microsecs) -> (r: Result<Record, Error>)
    ensures
        is_success(status) ==> r == Ok::<Record, Error>(Record { latency }),
        !is_success(status) ==> (r matches Err(Error::Reqwest(t)) && t.status == Some(status)),
{
    if 200 <= status && status <= 299 {
        Ok(Record { latency })
    } else {
        Err(Error::Reqwest(TransportError {
            status: Some(status),
            message: String::from_str("response status is not a success"),
        }))
    }
}

/// `r` is what gathering `results` in order gives: every record when all
/// succeeded, else the error of the first that failed.
pub open spec fn gathered<T>(results: Seq<Result<T, Error>>, r: Result<Seq<T>, Error>) -> bool {
    match r {
        Ok(v) => v.len() == results.len() && forall|i: int|
            0 <= i < results.len() ==> results[i] == Ok::<T, Error>(#[trigger] v[i]),
        Err(e) => exists|i: int|
            0 <= i < results.len() && results[i] == Err::<T, Error>(e) && forall|j: int|
                0 <= j < i ==> (#[trigger] results[j]) is Ok,
    }
}

pub open spec fn records_view(r: Result<Vec<Record>, Error>) -> Result<Seq<Record>, Error> {
    match r {
        Ok(v) => Ok(v@),
        Err(e) => Err(e),
    }
}

/// Gathers the results of a connection's requests in launch order: all the
/// records when every request succeeded, else the first error.
pub fn collect_units(results: Vec<Result<Record, Error>>) -> (r: Result<Vec<Record>, Error>)
    ensures
        gathered(results@, records_view(r)),
{
    let mut out: Vec<Record> = Vec::new();
    let mut i: usize = 0;
    while i < results.len()
        invariant
            i <= results@.len(),
            out@.len() == i,
            forall|j: int| 0 <= j < i ==> results@[j] == Ok::<Record, Error>(#[trigger] out@[j]),
        decreases results@.len() - i,
    {
        let ok = results[i].is_ok();
        if ok {
            match &results[i] {
                Ok(rec) => {
                    out.push(*rec);
                },
                Err(_) => {},
            }
        } else {
            let mut rest = results;
            let item = rest.remove(i);
            assert forall|j: int| 0 <= j < i implies (#[trigger] results@[j]) is Ok by {
                assert(results@[j] == Ok::<Record, Error>(out@[j]));
            }
            // `item` was just found to be an error; the `Ok` arm is never taken.
            return match item {
                Err(e) => Err(e),
                Ok(_) => Ok(out),
            };
        }
        i = i + 1;
    }
    Ok(out)
}

} // verus!
