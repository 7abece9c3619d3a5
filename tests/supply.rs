use supply_service::cache::TtlCache;
use supply_service::error::ApiError;
use supply_service::supply::{Client, Computation, Step, SupplyKind, Upstream, CACHE_TTL_MS};

fn client_with(addresses: &[&str]) -> Client {
    let list: Vec<String> = addresses.iter().map(|a| a.to_string()).collect();
    Client::new("tnam1native".to_string(), list, CACHE_TTL_MS)
}

fn expect_ready(step: Step) -> String {
    match step {
        Step::Ready(v) => v,
        Step::Fetch(_) => panic!("expected a value, got a query"),
        Step::Failed(e) => panic!("expected a value, got {:?}", e),
    }
}

fn expect_balance_query(step: &Step) -> String {
    match step {
        Step::Fetch(Upstream::BalanceOf(a)) => a.clone(),
        _ => panic!("expected a balance query"),
    }
}

/// Runs one circulating-supply request, answering every query from the
/// given effective supply and balances; counts the queries asked.
fn run_circulating(
    client: &mut Client,
    effective: u128,
    balances: &[(&str, u128)],
    now: u64,
) -> (Result<String, ApiError>, usize) {
    let (mut step, mut comp) = client.get_circulating_supply(now);
    let mut queries: usize = 0;
    loop {
        match step {
            Step::Ready(v) => return (Ok(v), queries),
            Step::Failed(e) => return (Err(e), queries),
            Step::Fetch(q) => {
                queries += 1;
                let answer = match q {
                    Upstream::EffectiveSupply => Some(effective),
                    Upstream::TotalSupply => panic!("total supply is not part of this request"),
                    Upstream::BalanceOf(a) => {
                        balances.iter().find(|(name, _)| *name == a.as_str()).map(|(_, b)| *b)
                    }
                };
                step = client.resume(&mut comp, answer, now);
            }
        }
    }
}

fn run_single(client: &mut Client, kind: SupplyKind, answer: Option<u128>, now: u64) -> (Step, Computation) {
    let (step, mut comp) = client.begin(kind, now);
    match step {
        Step::Fetch(_) => {
            let next = client.resume(&mut comp, answer, now);
            (next, comp)
        }
        other => (other, comp),
    }
}

#[test]
fn circulating_supply_scenario_with_ttl() {
    let mut client = client_with(&["A", "B"]);
    let (r, queries) = run_circulating(&mut client, 1000000, &[("A", 100), ("B", 200)], 0);
    assert_eq!(r, Ok("999700".to_string()));
    assert_eq!(queries, 3);

    let (r, queries) = run_circulating(&mut client, 1000000, &[("A", 100), ("B", 200)], 10_000);
    assert_eq!(r, Ok("999700".to_string()));
    assert_eq!(queries, 0);

    let (r, queries) = run_circulating(&mut client, 900000, &[("A", 100), ("B", 200)], 61_000);
    assert_eq!(r, Ok("899700".to_string()));
    assert_eq!(queries, 3);
}

#[test]
fn balance_timeout_leaves_no_circulating_entry() {
    let mut client = client_with(&["A", "B"]);
    let (r, _) = run_circulating(&mut client, 1000000, &[("A", 100)], 0);
    assert_eq!(r, Err(ApiError::UpstreamUnavailable));
    assert_eq!(client.cache().get("circulating_supply", 0), None);
    assert_eq!(client.cache().get("circulating_supply", 1), None);
}

#[test]
fn failure_then_intact_upstream_returns_fresh_value() {
    let mut client = client_with(&[]);
    let (step, _) = run_single(&mut client, SupplyKind::Total, None, 0);
    assert!(matches!(step, Step::Failed(ApiError::UpstreamUnavailable)));
    assert_eq!(client.cache().get("total_supply", 0), None);

    let (step, _) = run_single(&mut client, SupplyKind::Total, Some(5000), 1);
    assert_eq!(expect_ready(step), "5000");
    assert_eq!(client.cache().get("total_supply", 2), Some("5000".to_string()));
}

#[test]
fn balances_above_effective_supply_are_an_invariant_violation() {
    let mut client = client_with(&["A", "B"]);
    let (r, _) = run_circulating(&mut client, 250, &[("A", 100), ("B", 200)], 0);
    assert_eq!(r, Err(ApiError::InvariantViolation));
    assert_eq!(client.cache().get("circulating_supply", 0), None);
}

#[test]
fn balances_equal_to_effective_supply_leave_zero() {
    let mut client = client_with(&["A", "B"]);
    let (r, _) = run_circulating(&mut client, 300, &[("A", 100), ("B", 200)], 0);
    assert_eq!(r, Ok("0".to_string()));
}

#[test]
fn balances_are_queried_in_list_order() {
    let mut client = client_with(&["first", "second", "third"]);
    let (step, mut comp) = client.get_circulating_supply(0);
    assert!(matches!(step, Step::Fetch(Upstream::EffectiveSupply)));
    let step = client.resume(&mut comp, Some(1000), 0);
    assert_eq!(expect_balance_query(&step), "first");
    let step = client.resume(&mut comp, Some(1), 0);
    assert_eq!(expect_balance_query(&step), "second");
    let step = client.resume(&mut comp, Some(2), 0);
    assert_eq!(expect_balance_query(&step), "third");
    let step = client.resume(&mut comp, Some(3), 0);
    assert_eq!(expect_ready(step), "994");
}

#[test]
fn circulating_supply_without_addresses_is_effective_supply() {
    let mut client = client_with(&[]);
    let (r, queries) = run_circulating(&mut client, 123456, &[], 0);
    assert_eq!(r, Ok("123456".to_string()));
    assert_eq!(queries, 1);
}

#[test]
fn repeated_request_within_ttl_is_identical_and_makes_no_query() {
    let mut client = client_with(&[]);
    let (step, _) = run_single(&mut client, SupplyKind::Effective, Some(777), 1_000);
    let first = expect_ready(step);
    let (step, comp) = client.get_effective_total_supply(60_999);
    assert_eq!(comp.kind(), SupplyKind::Effective);
    let second = expect_ready(step);
    assert_eq!(first, second);
    assert_eq!(second, "777");
}

#[test]
fn expired_entry_asks_upstream_again() {
    let mut client = client_with(&[]);
    let (step, _) = run_single(&mut client, SupplyKind::Effective, Some(777), 1_000);
    assert_eq!(expect_ready(step), "777");
    let (step, _) = client.get_effective_total_supply(61_000);
    assert!(matches!(step, Step::Fetch(Upstream::EffectiveSupply)));
}

#[test]
fn total_supply_asks_for_total_supply() {
    let client = client_with(&[]);
    let (step, comp) = client.get_native_total_supply(0);
    assert!(matches!(step, Step::Fetch(Upstream::TotalSupply)));
    assert_eq!(comp.kind(), SupplyKind::Total);
}

#[test]
fn kinds_are_cached_independently() {
    let mut client = client_with(&[]);
    let (step, _) = run_single(&mut client, SupplyKind::Total, Some(10), 0);
    assert_eq!(expect_ready(step), "10");
    let (step, _) = run_single(&mut client, SupplyKind::Effective, Some(20), 30_000);
    assert_eq!(expect_ready(step), "20");
    // The total supply entry expires at 60 s, the effective one lives on.
    assert_eq!(client.cache().get("total_supply", 60_000), None);
    assert_eq!(client.cache().get("effective_supply", 60_000), Some("20".to_string()));
    // Rewriting effective supply does not touch total supply.
    let (step, _) = run_single(&mut client, SupplyKind::Effective, None, 100_000);
    assert!(matches!(step, Step::Failed(ApiError::UpstreamUnavailable)));
    let (step, _) = run_single(&mut client, SupplyKind::Total, Some(11), 100_000);
    assert_eq!(expect_ready(step), "11");
    assert_eq!(client.cache().get("effective_supply", 100_000), None);
    assert_eq!(client.cache().get("total_supply", 100_000), Some("11".to_string()));
}

#[test]
fn client_keeps_native_token() {
    let client = client_with(&["A"]);
    assert_eq!(client.native_token(), "tnam1native");
    assert_eq!(client.cache().ttl(), 60_000);
}

#[test]
fn cache_keys_are_the_logical_names() {
    assert_eq!(SupplyKind::Total.cache_key(), "total_supply");
    assert_eq!(SupplyKind::Effective.cache_key(), "effective_supply");
    assert_eq!(SupplyKind::Circulating.cache_key(), "circulating_supply");
}

#[test]
fn cache_returns_last_value_until_ttl_elapses() {
    let mut cache = TtlCache::new(60_000);
    assert_eq!(cache.get("k", 0), None);
    cache.insert("k", "one".to_string(), 1_000);
    assert_eq!(cache.get("k", 1_000), Some("one".to_string()));
    assert_eq!(cache.get("k", 60_999), Some("one".to_string()));
    assert_eq!(cache.get("k", 61_000), None);
    cache.insert("k", "two".to_string(), 2_000);
    assert_eq!(cache.get("k", 61_000), Some("two".to_string()));
    assert_eq!(cache.get("k", 62_000), None);
}

#[test]
fn cache_insert_of_one_key_keeps_others() {
    let mut cache = TtlCache::new(10);
    cache.insert("a", "1".to_string(), 0);
    cache.insert("b", "2".to_string(), 5);
    cache.insert("a", "3".to_string(), 6);
    assert_eq!(cache.get("b", 14), Some("2".to_string()));
    assert_eq!(cache.get("b", 15), None);
    assert_eq!(cache.get("a", 15), Some("3".to_string()));
    assert_eq!(cache.get("c", 0), None);
}

#[test]
fn cache_with_zero_ttl_never_serves() {
    let mut cache = TtlCache::new(0);
    cache.insert("k", "v".to_string(), 7);
    assert_eq!(cache.get("k", 7), None);
}
