//! Splitting a run across connections and merging what they report.

use crate::connection::{Error, Record, Schedule};
use crate::http::HttpRequest;
use crate::mix::{RequestData, RequestMix};
use crate::payload::Catalog;
use crate::units::{Nanosecs, Secs};
use rand::rngs::StdRng;
use vstd::prelude::*;

verus! {

/// A load test: the target, the aggregate rate in requests per second, how
/// long it lasts, over how many connections, and with which mix.
#[derive(Debug, Clone)]
pub struct Config {
    pub url: String,
    pub rps: u32,
    pub duration: Secs,
    pub nr_conns: usize,
    pub mix: RequestMix,
}

/// What one connection runs: its share of the rate, the target, the
/// duration and the mix.
#[derive(Debug, Clone)]
pub struct ConnWorkload {
    pub url: String,
    pub rate: u64,
    pub duration: Secs,
    pub mix: RequestMix,
}

impl ConnWorkload {
    /// The arrival schedule of the connection, not yet started.
    pub fn schedule(&self) -> (r: Schedule)
        ensures
            r.wf(),
            r.elapsed == 0,
            r.duration == self.duration.0 * 1_000_000_000,
    {
        Schedule::new(self.duration)
    }

    /// Schedules the next arrival one gap after the latest, and synthesises the
    /// request to dispatch at that offset: a kind of positive weight with a
    /// payload that fits the catalog, shaped against the workload's target.
    pub fn next_arrival(
        &self,
        sched: &mut Schedule,
        gap: u64,
        catalog: &Catalog,
        rng: &mut StdRng,
    ) -> (r: (Nanosecs, HttpRequest))
        requires
            self.mix.is_valid(),
            catalog.wf(),
            old(sched).wf(),
            old(sched).elapsed < old(sched).duration,
        ensures
            final(sched).wf(),
            final(sched).duration == old(sched).duration,
            final(sched).elapsed == old(sched).elapsed + gap,
            r.0.0 == final(sched).elapsed,
            exists|d: RequestData, year: i32|
                self.mix.weight(d.kind()) > 0 && d.fits(catalog, year) && r.1.method
                    == d.method() && r.1.url@ == self.url@ + d.path_suffix() && r.1.form_view()
                    == d.form_fields() && r.1.zero_content_length == (d.kind()
                    == crate::mix::RequestKind::EmptyCart),
    {
        let at = sched.advance(gap);
        let data = self.mix.sample(catalog, rng);
        let req = data.to_http(&self.url);
        (at, req)
    }
}

/// `rps / n` rounded to the nearest integer, halves rounded up.
pub open spec fn rounded_share(rps: int, n: int) -> int {
    (2 * rps + n) / (2 * n)
}

/// Each connection's share of the aggregate rate, rounded to the nearest
/// whole request per second.
pub fn per_connection_rate(rps: u32, nr_conns: usize) -> (r: u64)
    requires
        nr_conns > 0,
    ensures
        r == rounded_share(rps as int, nr_conns as int),
{
    let n: u128 = nr_conns as u128;
    let num: u128 = 2 * (rps as u128) + n;
    let den: u128 = 2 * n;
    let q: u128 = num / den;
    proof {
        let rr = rps as int;
        let nn = nr_conns as int;
        assert(q <= rr) by (nonlinear_arith)
            requires
                q == (2 * rr + nn) / (2 * nn),
                nn >= 1,
                rr >= 0,
        {
            assert(q * (2 * nn) <= 2 * rr + nn);
            if q > rr {
                assert(q * (2 * nn) >= (rr + 1) * (2 * nn));
            }
        }
    }
    q as u64
}

/// Whether a configuration can run: a connection at least, a positive share
/// of the rate for each, and a mix that can be sampled.
pub open spec fn plan_error(c: Config) -> Option<Error> {
    if c.nr_conns == 0 || rounded_share(c.rps as int, c.nr_conns as int) == 0 {
        Some(Error::InvalidWorkload)
    } else if !c.mix.is_valid() {
        Some(Error::InvalidMix)
    } else {
        None
    }
}

/// The workloads of a run: one per connection, each with the rounded share of
/// the rate and the run's target, duration and mix. Fails before any request
/// is made when the share is zero or the mix cannot be sampled.
pub fn plan(config: &Config) -> (r: Result<Vec<ConnWorkload>, Error>)
    ensures
        plan_error(*config) matches Some(e) ==> r == Err::<Vec<ConnWorkload>, Error>(e),
        plan_error(*config) is None ==> (r matches Ok(ws) && ws@.len() == config.nr_conns
            && forall|i: int|
            0 <= i < ws@.len() ==> (#[trigger] ws@[i]).url@ == config.url@ && ws@[i].rate
                == rounded_share(config.rps as int, config.nr_conns as int) && ws@[i].duration
                == config.duration && ws@[i].mix == config.mix),
{
    if config.nr_conns == 0 {
        return Err(Error::InvalidWorkload);
    }
    let rate = per_connection_rate(config.rps, config.nr_conns);
    if rate == 0 {
        return Err(Error::InvalidWorkload);
    }
    if !config.mix.is_sampleable() {
        return Err(Error::InvalidMix);
    }
    let mut ws: Vec<ConnWorkload> = Vec::new();
    let mut i: usize = 0;
    while i < config.nr_conns
        invariant
            i <= config.nr_conns,
            ws@.len() == i,
            rate == rounded_share(config.rps as int, config.nr_conns as int),
            forall|j: int|
                0 <= j < i ==> (#[trigger] ws@[j]).url@ == config.url@ && ws@[j].rate == rate
                    && ws@[j].duration == config.duration && ws@[j].mix == config.mix,
        decreases config.nr_conns - i,
    {
        ws.push(
            ConnWorkload {
                url: config.url.clone(),
                rate,
                duration: config.duration,
                mix: config.mix,
            },
        );
        i = i + 1;
    }
    Ok(ws)
}

/// With an aggregate rate of zero a run fails as an invalid workload, before
/// any request is made.
pub proof fn lemma_zero_rate_is_invalid(c: Config)
    requires
        c.rps == 0,
    ensures
        plan_error(c) == Some(Error::InvalidWorkload),
{
    if c.nr_conns > 0 {
        let n = c.nr_conns as int;
        assert(n / (2 * n) == 0) by (nonlinear_arith)
            requires
                n > 0,
        ;
    }
}

/// The records of the connections that succeeded, in connection order.
pub open spec fn concat_records(results: Seq<Result<Vec<Record>, Error>>) -> Seq<Record>
    decreases results.len(),
{
    if results.len() == 0 {
        Seq::empty()
    } else {
        concat_records(results.drop_last()) + match results.last() {
            Ok(v) => v@,
            Err(_) => Seq::empty(),
        }
    }
}

/// `r` is what merging the connections' results gives: the concatenation of
/// their records in connection order when all succeeded, else the error of
/// the first that failed.
pub open spec fn merged(results: Seq<Result<Vec<Record>, Error>>, r: Result<Vec<Record>, Error>) -> bool {
    match r {
        Ok(v) => (forall|i: int| 0 <= i < results.len() ==> (#[trigger] results[i]) is Ok) && v@
            == concat_records(results),
        Err(e) => exists|i: int|
            0 <= i < results.len() && results[i] == Err::<Vec<Record>, Error>(e) && forall|j: int|
                0 <= j < i ==> (#[trigger] results[j]) is Ok,
    }
}

/// Merges the connections' results in connection order: their records one
/// after the other, or the first error.
pub fn merge_connections(results: Vec<Result<Vec<Record>, Error>>) -> (r: Result<Vec<Record>, Error>)
    ensures
        merged(results@, r),
{
    let ghost orig = results@;
    let mut rest = results;
    let mut out: Vec<Record> = Vec::new();
    let mut k: usize = 0;
    assert(orig.take(0) =~= Seq::<Result<Vec<Record>, Error>>::empty());
    assert(orig.skip(0) =~= orig);
    let count: usize = rest.len();
    assert(orig.len() == count);
    while rest.len() > 0
        invariant
            k <= orig.len() <= usize::MAX,
            orig == results@,
            rest@ == orig.skip(k as int),
            out@ == concat_records(orig.take(k as int)),
            forall|j: int| 0 <= j < k ==> (#[trigger] orig[j]) is Ok,
        decreases rest@.len(),
    {
        assert(k < orig.len());
        let item = rest.remove(0);
        assert(item == orig[k as int]);
        match item {
            Ok(mut v) => {
                assert(orig.take(k + 1).drop_last() =~= orig.take(k as int));
                out.append(&mut v);
                assert(rest@ =~= orig.skip(k + 1));
                k = k + 1;
            },
            Err(e) => {
                assert(0 <= k < orig.len() && orig[k as int] == Err::<Vec<Record>, Error>(e)
                    && forall|j: int| 0 <= j < k ==> (#[trigger] orig[j]) is Ok);
                return Err(e);
            },
        }
    }
    assert(orig.take(k as int) =~= orig);
    Ok(out)
}

} // verus!
