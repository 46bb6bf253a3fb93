use rand::rngs::StdRng;
use rand::SeedableRng;
use rand_distr::{Distribution, Exp};
use work_generator::{
    collect_units, merge_connections, per_connection_rate, plan, unit_outcome, Catalog, Config,
    ConnWorkload, Error, Method, Microsecs, Record, RequestMix, Schedule, Secs,
};

fn home_only() -> RequestMix {
    RequestMix {
        home: 100,
        product: 0,
        view_cart: 0,
        add_to_cart: 0,
        empty_cart: 0,
        set_currency: 0,
        logout: 0,
        place_order: 0,
    }
}

fn catalog() -> Catalog {
    Catalog::new(vec!["A".to_string()], vec!["EUR".to_string()]).unwrap()
}

fn config(rps: u32, nr_conns: usize, secs: u64) -> Config {
    Config {
        url: "http://x/".to_string(),
        rps,
        duration: Secs::new(secs),
        nr_conns,
        mix: home_only(),
    }
}

fn gap(rate: u64, rng: &mut StdRng) -> u64 {
    let exp = Exp::new(rate as f64 / 1e9).unwrap();
    exp.sample(rng).round() as u64
}

/// Runs one connection against a transport double that answers the n-th call
/// (counted from one) with `status(n)` after one millisecond.
fn simulate(w: &ConnWorkload, rng: &mut StdRng, status: &dyn Fn(usize) -> u16) -> Result<Vec<Record>, Error> {
    let cat = catalog();
    let mut sched = w.schedule();
    let mut results = Vec::new();
    let mut last = 0u128;
    while sched.is_running() {
        let g = gap(w.rate, rng);
        let (at, req) = w.next_arrival(&mut sched, g, &cat, rng);
        assert!(at.into_inner() >= last);
        last = at.into_inner();
        assert_eq!(req.url, "http://x/");
        assert_eq!(req.method, Method::Get);
        results.push(unit_outcome(status(results.len() + 1), Microsecs::new(1000)));
    }
    collect_units(results)
}

#[test]
fn rate_is_split_with_rounding() {
    assert_eq!(per_connection_rate(100, 10), 10);
    assert_eq!(per_connection_rate(15, 10), 2);
    assert_eq!(per_connection_rate(14, 10), 1);
    assert_eq!(per_connection_rate(5, 10), 1);
    assert_eq!(per_connection_rate(4, 10), 0);
    assert_eq!(per_connection_rate(0, 3), 0);
    assert_eq!(per_connection_rate(u32::MAX, 1), u32::MAX as u64);
}

#[test]
fn zero_rate_fails_before_any_request() {
    match plan(&config(0, 10, 1)) {
        Err(Error::InvalidWorkload) => {}
        other => panic!("expected an invalid workload, got {:?}", other),
    }
    match plan(&config(4, 10, 1)) {
        Err(Error::InvalidWorkload) => {}
        other => panic!("expected an invalid workload, got {:?}", other),
    }
    match plan(&config(10, 0, 1)) {
        Err(Error::InvalidWorkload) => {}
        other => panic!("expected an invalid workload, got {:?}", other),
    }
}

#[test]
fn all_zero_mix_is_rejected() {
    let mut c = config(100, 10, 1);
    c.mix.home = 0;
    assert!(matches!(plan(&c), Err(Error::InvalidMix)));
}

#[test]
fn plan_gives_one_workload_per_connection() {
    let ws = plan(&config(100, 10, 3)).unwrap();
    assert_eq!(ws.len(), 10);
    for w in &ws {
        assert_eq!(w.url, "http://x/");
        assert_eq!(w.rate, 10);
        assert_eq!(w.duration, Secs::new(3));
        assert_eq!(w.mix, home_only());
    }
}

#[test]
fn run_with_successful_transport_reports_every_request() {
    let ws = plan(&config(100, 10, 1)).unwrap();
    let mut rng = StdRng::seed_from_u64(1);
    let per_conn: Vec<_> = ws.iter().map(|w| simulate(w, &mut rng, &|_| 200)).collect();
    let records = merge_connections(per_conn).unwrap();
    assert!((60..=160).contains(&records.len()), "{} records", records.len());
    assert!(records.iter().all(|r| r.latency.into_inner() >= 1000));
}

#[test]
fn a_server_error_fails_the_connection_and_the_run() {
    let ws = plan(&config(100, 10, 1)).unwrap();
    let mut rng = StdRng::seed_from_u64(2);
    let mut per_conn = Vec::new();
    for (i, w) in ws.iter().enumerate() {
        let r = if i == 3 {
            simulate(w, &mut rng, &|n| if n == 5 { 500 } else { 200 })
        } else {
            simulate(w, &mut rng, &|_| 200)
        };
        per_conn.push(r);
    }
    for (i, r) in per_conn.iter().enumerate() {
        if i == 3 {
            match r {
                Err(Error::Reqwest(t)) => assert_eq!(t.status, Some(500)),
                other => panic!("expected a transport error, got {:?}", other),
            }
        } else {
            assert!(r.is_ok());
        }
    }
    match merge_connections(per_conn) {
        Err(Error::Reqwest(t)) => assert_eq!(t.status, Some(500)),
        other => panic!("expected a transport error, got {:?}", other),
    }
}

#[test]
fn arrival_counts_are_poisson_like() {
    // Rate 10 per second over 100 s: about 1000 arrivals per run, and one
    // more for the arrival that crosses the end.
    let w = plan(&config(100, 10, 100)).unwrap().remove(0);
    let mut rng = StdRng::seed_from_u64(9);
    let runs = 200;
    let mut counts = Vec::new();
    for _ in 0..runs {
        let mut sched = w.schedule();
        let mut n = 0u64;
        while sched.is_running() {
            sched.advance(gap(w.rate, &mut rng));
            n += 1;
        }
        counts.push(n as f64);
    }
    let mean = counts.iter().sum::<f64>() / runs as f64;
    let var = counts.iter().map(|c| (c - mean).powi(2)).sum::<f64>() / (runs - 1) as f64;
    assert!((mean - 1000.0).abs() < 15.0, "mean {mean}");
    let ratio = var / mean;
    assert!(ratio > 0.7 && ratio < 1.3, "variance to mean {ratio}");
}

#[test]
fn schedule_stops_once_the_duration_is_reached() {
    let mut s = Schedule::new(Secs::new(1));
    assert_eq!(s.duration, 1_000_000_000);
    assert!(s.is_running());
    assert_eq!(s.advance(400_000_000).into_inner(), 400_000_000);
    assert!(s.is_running());
    assert_eq!(s.advance(600_000_000).into_inner(), 1_000_000_000);
    assert!(!s.is_running());
    let empty = Schedule::new(Secs::new(0));
    assert!(!empty.is_running());
}

#[test]
fn unit_outcomes_by_status() {
    let lat = Microsecs::new(1234);
    assert_eq!(unit_outcome(200, lat).unwrap(), Record { latency: lat });
    assert_eq!(unit_outcome(299, lat).unwrap(), Record { latency: lat });
    for s in [199u16, 300, 404, 500] {
        match unit_outcome(s, lat) {
            Err(Error::Reqwest(t)) => assert_eq!(t.status, Some(s)),
            other => panic!("expected a transport error, got {:?}", other),
        }
    }
}

#[test]
fn collect_units_surfaces_the_first_scheduled_failure() {
    let r = |l: u128| Ok(Record { latency: Microsecs::new(l) });
    let ok = collect_units(vec![r(1), r(2), r(3)]).unwrap();
    assert_eq!(ok.iter().map(|x| x.latency.into_inner()).collect::<Vec<_>>(), vec![1, 2, 3]);
    let failed = collect_units(vec![
        r(1),
        Err(Error::Join("first".to_string())),
        Err(Error::Join("second".to_string())),
    ]);
    match failed {
        Err(Error::Join(m)) => assert_eq!(m, "first"),
        other => panic!("expected the first error, got {:?}", other),
    }
    assert!(collect_units(vec![]).unwrap().is_empty());
}

#[test]
fn merge_keeps_connection_order() {
    let rec = |l: u128| Record { latency: Microsecs::new(l) };
    let merged = merge_connections(vec![Ok(vec![rec(1), rec(2)]), Ok(vec![]), Ok(vec![rec(3)])]).unwrap();
    assert_eq!(merged, vec![rec(1), rec(2), rec(3)]);
    let failed = merge_connections(vec![
        Ok(vec![rec(1)]),
        Err(Error::InvalidWorkload),
        Err(Error::Join("later".to_string())),
    ]);
    assert!(matches!(failed, Err(Error::InvalidWorkload)));
}

#[test]
fn units_round_trip() {
    assert_eq!(Secs::new(7).into_inner(), 7);
    assert_eq!(Secs::new(7).as_nanos().into_inner(), 7_000_000_000);
    assert_eq!(Microsecs::new(5).into_inner(), 5);
    assert_eq!(work_generator::Nanosecs::new(9).into_inner(), 9);
    assert_eq!(work_generator::Bytes::new(3).into_inner(), 3);
    assert!(Secs::new(1) < Secs::new(2));
}
