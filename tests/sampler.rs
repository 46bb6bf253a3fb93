use rand::rngs::StdRng;
use chrono::Datelike;
use rand::SeedableRng;
use work_generator::{Catalog, PlaceOrder, RequestData, RequestKind, RequestMix};

fn mix(w: [u64; 8]) -> RequestMix {
    RequestMix {
        home: w[0],
        product: w[1],
        view_cart: w[2],
        add_to_cart: w[3],
        empty_cart: w[4],
        set_currency: w[5],
        logout: w[6],
        place_order: w[7],
    }
}

fn catalog() -> Catalog {
    Catalog::new(
        vec!["A".to_string(), "B".to_string()],
        vec!["EUR".to_string(), "USD".to_string(), "JPY".to_string()],
    )
    .unwrap()
}

fn kind_index(k: RequestKind) -> usize {
    match k {
        RequestKind::Home => 0,
        RequestKind::Product => 1,
        RequestKind::ViewCart => 2,
        RequestKind::AddToCart => 3,
        RequestKind::EmptyCart => 4,
        RequestKind::SetCurrency => 5,
        RequestKind::Logout => 6,
        RequestKind::PlaceOrder => 7,
    }
}

#[test]
fn single_kind_mix_always_draws_that_kind() {
    let cat = catalog();
    for k in 0..8 {
        let mut w = [0u64; 8];
        w[k] = 3;
        let m = mix(w);
        let mut rng = StdRng::seed_from_u64(k as u64);
        for _ in 0..10_000 {
            let d = m.sample_in_year(&cat, 2024, &mut rng);
            assert_eq!(kind_index(d.request_kind()), k);
        }
    }
}

#[test]
fn two_to_one_mix_converges_to_its_ratio() {
    let cat = catalog();
    let m = mix([2, 1, 0, 0, 0, 0, 0, 0]);
    let mut rng = StdRng::seed_from_u64(42);
    let n = 30_000u64;
    let (mut home, mut product) = (0u64, 0u64);
    for _ in 0..n {
        match m.sample_in_year(&cat, 2024, &mut rng).request_kind() {
            RequestKind::Home => home += 1,
            RequestKind::Product => product += 1,
            other => panic!("unexpected kind {:?}", other),
        }
    }
    let eh = n as f64 * 2.0 / 3.0;
    let ep = n as f64 / 3.0;
    let chi2 = (home as f64 - eh).powi(2) / eh + (product as f64 - ep).powi(2) / ep;
    // Critical value of chi-squared with one degree of freedom at p = 0.01.
    assert!(chi2 < 6.635, "chi2 = {chi2}, home = {home}, product = {product}");
}

#[test]
fn product_ids_come_from_the_catalog() {
    let cat = catalog();
    let m = mix([0, 1, 0, 0, 0, 0, 0, 0]);
    let mut rng = StdRng::seed_from_u64(7);
    let (mut a, mut b) = (0, 0);
    for _ in 0..1000 {
        match m.sample_in_year(&cat, 2024, &mut rng) {
            RequestData::Product(p) => match p.id.as_str() {
                "A" => a += 1,
                "B" => b += 1,
                other => panic!("id {other} is not in the catalog"),
            },
            other => panic!("unexpected request {:?}", other),
        }
    }
    assert!(a > 0 && b > 0);
}

#[test]
fn add_to_cart_and_set_currency_payloads() {
    let cat = catalog();
    let mut rng = StdRng::seed_from_u64(11);
    let m = mix([0, 0, 0, 1, 0, 1, 0, 0]);
    let mut seen_quantities = std::collections::BTreeSet::new();
    for _ in 0..2000 {
        match m.sample_in_year(&cat, 2024, &mut rng) {
            RequestData::AddToCart(a) => {
                assert!(a.product_id == "A" || a.product_id == "B");
                assert!((1..=10).contains(&a.quantity));
                seen_quantities.insert(a.quantity);
            }
            RequestData::SetCurrency(s) => {
                assert!(["EUR", "USD", "JPY"].contains(&s.currency_code.as_str()));
            }
            other => panic!("unexpected request {:?}", other),
        }
    }
    assert_eq!(seen_quantities.len(), 10);
}

fn check_order(o: &PlaceOrder, year: i32) {
    let y: i32 = o.cc_year.parse().unwrap();
    assert!(y > year && y <= year + 5, "year {y}");
    assert!((100..=999).contains(&o.cc_cvv));
    assert!(work_generator::month_names()
        .iter()
        .any(|m| *m == o.cc_month));
    let groups: Vec<&str> = o.cc_number.split('-').collect();
    let digits: String = groups.concat();
    assert!((13..=16).contains(&digits.len()));
    assert!(digits.chars().all(|c| c.is_ascii_digit()));
    assert!(digits.starts_with('4') || digits.starts_with('5'));
    for g in &groups[..groups.len() - 1] {
        assert_eq!(g.len(), 4);
    }
}

#[test]
fn place_order_payloads_expire_in_the_coming_five_years() {
    let cat = catalog();
    let m = mix([0, 0, 0, 0, 0, 0, 0, 1]);
    let mut rng = StdRng::seed_from_u64(3);
    let now = chrono::Utc::now().year();
    for _ in 0..500 {
        match m.sample(&cat, &mut rng) {
            RequestData::PlaceOrder(o) => check_order(&o, now),
            other => panic!("unexpected request {:?}", other),
        }
    }
    for _ in 0..500 {
        match m.sample_in_year(&cat, 1999, &mut rng) {
            RequestData::PlaceOrder(o) => check_order(&o, 1999),
            other => panic!("unexpected request {:?}", other),
        }
    }
}

#[test]
fn same_seed_gives_same_requests() {
    let cat = catalog();
    let m = mix([1, 1, 1, 1, 1, 1, 1, 1]);
    let mut r1 = StdRng::seed_from_u64(99);
    let mut r2 = StdRng::seed_from_u64(99);
    for _ in 0..200 {
        let a = format!("{:?}", m.sample_in_year(&cat, 2030, &mut r1));
        let b = format!("{:?}", m.sample_in_year(&cat, 2030, &mut r2));
        assert_eq!(a, b);
    }
}

#[test]
fn mix_totals_and_validity() {
    assert_eq!(mix([2, 1, 0, 0, 0, 0, 0, 4]).total_weight(), Some(7));
    assert!(mix([2, 1, 0, 0, 0, 0, 0, 4]).is_sampleable());
    assert_eq!(mix([0; 8]).total_weight(), Some(0));
    assert!(!mix([0; 8]).is_sampleable());
    assert_eq!(mix([u64::MAX, 1, 0, 0, 0, 0, 0, 0]).total_weight(), None);
    assert!(!mix([u64::MAX, 1, 0, 0, 0, 0, 0, 0]).is_sampleable());
    assert!(mix([u64::MAX, 0, 0, 0, 0, 0, 0, 0]).is_sampleable());
    assert_eq!(
        mix([1, 2, 3, 4, 5, 6, 7, 8]).weight_vec(),
        vec![1, 2, 3, 4, 5, 6, 7, 8]
    );
}

#[test]
fn kinds_by_index() {
    let kinds: Vec<RequestKind> = (0..8).map(RequestKind::from_index).collect();
    for (i, k) in kinds.iter().enumerate() {
        assert_eq!(kind_index(*k), i);
    }
}

#[test]
fn catalog_needs_both_pools() {
    assert!(Catalog::new(vec![], vec!["EUR".to_string()]).is_none());
    assert!(Catalog::new(vec!["A".to_string()], vec![]).is_none());
    assert!(Catalog::new(vec!["A".to_string()], vec!["EUR".to_string()]).is_some());
}

#[test]
fn card_numbers_are_grouped_by_four() {
    let d16: Vec<u8> = b"1234567812345678".to_vec();
    assert_eq!(work_generator::card_number(&d16, true), b"4234-5678-1234-5678".to_vec());
    assert_eq!(work_generator::card_number(&d16, false), b"5234-5678-1234-5678".to_vec());
    let d13: Vec<u8> = b"3782822463100".to_vec();
    assert_eq!(work_generator::card_number(&d13, true), b"4782-8224-6310-0".to_vec());
    assert_eq!(work_generator::group_by_four(&b"1234".to_vec()), b"1234".to_vec());
    assert_eq!(work_generator::group_by_four(&b"12345".to_vec()), b"1234-5".to_vec());
    assert_eq!(work_generator::group_by_four(&Vec::new()), Vec::<u8>::new());
}

#[test]
fn faked_card_numbers_are_dashed() {
    let mut rng = StdRng::seed_from_u64(5);
    for _ in 0..200 {
        let s = work_generator::fake_card_number(&mut rng);
        assert!(s.contains('-'));
        assert!(s.starts_with('4') || s.starts_with('5'));
    }
}

#[test]
fn month_names_in_order() {
    let names = work_generator::month_names();
    assert_eq!(names.len(), 12);
    assert_eq!(names[0], "January");
    assert_eq!(names[11], "December");
}
