use avanza_pp::yahoo_symbol::{
    CacheError, FetchSlot, IsinLookup, Security, Yahoo, CACHE_TTL_MILLIS,
    MIN_FETCH_INTERVAL_MILLIS,
};

const DAY: i64 = 24 * 60 * 60 * 1000;

fn listing(symbol: &str, exchange: &str) -> Security {
    Security { symbol: symbol.to_string(), exchange: exchange.to_string(), name: String::new() }
}

fn lookup(isin: &str, securities: Vec<Security>, updated_at: i64) -> IsinLookup {
    IsinLookup { isin: isin.to_string(), securities, updated_at }
}

fn symbols(list: &Vec<Security>) -> Vec<(String, String)> {
    list.iter().map(|s| (s.symbol.clone(), s.exchange.clone())).collect()
}

fn pair(symbol: &str, exchange: &str) -> (String, String) {
    (symbol.to_string(), exchange.to_string())
}

#[test]
fn constants_are_five_days_and_half_a_second() {
    assert_eq!(CACHE_TTL_MILLIS, 5 * DAY);
    assert_eq!(MIN_FETCH_INTERVAL_MILLIS, 500);
}

#[test]
fn empty_cache_knows_nothing() {
    let y = Yahoo::new(vec![]).unwrap();
    assert!(y.isin_to_symbols_at("NO0010827280", 0).is_none());
    assert!(y.isin_to_symbols("NO0010827280").is_none());
    assert!(!y.is_dirty());
}

#[test]
fn cached_symbols_are_returned_in_order() {
    let mut y = Yahoo::new(vec![]).unwrap();
    y.store_at("NO0010827280", vec![listing("0P0001Q6FC.ST", "STO")], 1000, 0);
    y.store_at(
        "SE0010296574",
        vec![listing("ETHEREUM-XBT.ST", "STO"), listing("SE0010296574.SG", "STU")],
        2000,
        600,
    );
    let sec = y.isin_to_symbols_at("NO0010827280", 3000).unwrap();
    assert_eq!(sec[0].symbol, "0P0001Q6FC.ST");
    assert_eq!(sec[0].exchange, "STO");
    let sec = y.isin_to_symbols_at("SE0010296574", 3000).unwrap();
    assert_eq!(sec[0].symbol, "ETHEREUM-XBT.ST");
    assert_eq!(sec[0].exchange, "STO");
    assert_eq!(sec[1].symbol, "SE0010296574.SG");
    assert_eq!(sec[1].exchange, "STU");
    assert!(y.isin_to_symbols_at("SE0000671919", 3000).is_none());
}

#[test]
fn second_request_within_five_days_finds_the_same_list() {
    let mut y = Yahoo::new(vec![]).unwrap();
    assert_eq!(y.rate_limit_fetch(0), FetchSlot::Open);
    y.store_at("SE0009876543", vec![listing("EM.ST", "STO"), listing("EM.DE", "GER")], 10 * DAY, 40);
    let first = symbols(y.isin_to_symbols_at("SE0009876543", 10 * DAY).unwrap());
    let second = symbols(y.isin_to_symbols_at("SE0009876543", 15 * DAY - 1).unwrap());
    assert_eq!(first, vec![pair("EM.ST", "STO"), pair("EM.DE", "GER")]);
    assert_eq!(first, second);
}

#[test]
fn lookup_is_stale_from_five_days_on() {
    let y = Yahoo::new(vec![lookup("SE0009876543", vec![listing("EM.ST", "STO")], 10 * DAY)])
        .unwrap();
    assert!(y.isin_to_symbols_at("SE0009876543", 15 * DAY - 1).is_some());
    assert!(y.isin_to_symbols_at("SE0009876543", 15 * DAY).is_none());
    assert!(y.isin_to_symbols_at("SE0009876543", 15 * DAY + 1).is_none());
    assert!(y.isin_to_symbols_at("SE0009876543", i64::MAX).is_none());
}

#[test]
fn lookup_from_the_future_is_fresh() {
    let y = Yahoo::new(vec![lookup("SE0009876543", vec![], i64::MAX)]).unwrap();
    assert!(y.isin_to_symbols_at("SE0009876543", i64::MIN).is_some());
}

#[test]
fn lookup_read_with_the_clock_of_the_machine() {
    let mut y = Yahoo::new(vec![lookup("OLD", vec![listing("O.ST", "STO")], 0)]).unwrap();
    assert!(y.isin_to_symbols("OLD").is_none());
    y.store("NEW", vec![listing("N.ST", "STO")], 0);
    assert_eq!(symbols(y.isin_to_symbols("NEW").unwrap()), vec![pair("N.ST", "STO")]);
    assert!(y.is_dirty());
    let saved = y.save_cache();
    assert_eq!(saved.len(), 2);
    assert_eq!(saved[1].isin, "NEW");
    assert!(saved[1].updated_at > 1_600_000_000_000);
}

#[test]
fn empty_list_is_a_lookup_too() {
    let mut y = Yahoo::new(vec![]).unwrap();
    y.store_at("XX", vec![], 0, 0);
    assert_eq!(y.isin_to_symbols_at("XX", 1).unwrap().len(), 0);
}

#[test]
fn identifiers_are_told_apart_exactly() {
    let y = Yahoo::new(vec![lookup("SE1", vec![listing("A", "STO")], 0)]).unwrap();
    assert!(y.isin_to_symbols_at("SE1", 0).is_some());
    assert!(y.isin_to_symbols_at("se1", 0).is_none());
    assert!(y.isin_to_symbols_at("SE1 ", 0).is_none());
    assert!(y.isin_to_symbols_at("", 0).is_none());
}

#[test]
fn storing_replaces_the_lookup_of_the_identifier_only() {
    let mut y = Yahoo::new(vec![
        lookup("A", vec![listing("A.ST", "STO")], 100),
        lookup("B", vec![listing("B.ST", "STO")], 200),
    ])
    .unwrap();
    y.store_at("A", vec![listing("A2.ST", "STO"), listing("A2.DE", "GER")], 7 * DAY, 0);
    assert_eq!(
        symbols(y.isin_to_symbols_at("A", 7 * DAY).unwrap()),
        vec![pair("A2.ST", "STO"), pair("A2.DE", "GER")]
    );
    assert_eq!(symbols(y.isin_to_symbols_at("B", 300).unwrap()), vec![pair("B.ST", "STO")]);
    let saved = y.save_cache();
    assert_eq!(saved.len(), 2);
    assert_eq!(saved[0].isin, "A");
    assert_eq!(saved[0].updated_at, 7 * DAY);
    assert_eq!(saved[1].isin, "B");
    assert_eq!(saved[1].updated_at, 200);
}

#[test]
fn time_of_a_lookup_never_goes_back() {
    let mut y = Yahoo::new(vec![lookup("A", vec![], 1000)]).unwrap();
    y.store_at("A", vec![listing("A.ST", "STO")], 400, 0);
    let saved = y.save_cache();
    assert_eq!(saved[0].updated_at, 1000);
    assert_eq!(saved[0].securities.len(), 1);
}

#[test]
fn duplicate_identifier_is_refused() {
    let r = Yahoo::new(vec![lookup("A", vec![], 1), lookup("B", vec![], 2), lookup("A", vec![], 3)]);
    assert_eq!(r.err(), Some(CacheError::DuplicateIsin));
    let r = Yahoo::new(vec![lookup("A", vec![], 1), lookup("A", vec![], 1)]);
    assert_eq!(r.err(), Some(CacheError::DuplicateIsin));
}

#[test]
fn first_fetch_may_start_at_once() {
    let mut y = Yahoo::new(vec![]).unwrap();
    assert_eq!(y.rate_limit_fetch(123), FetchSlot::Open);
}

#[test]
fn one_fetch_at_a_time() {
    let mut y = Yahoo::new(vec![]).unwrap();
    assert_eq!(y.rate_limit_fetch(0), FetchSlot::Open);
    assert_eq!(y.rate_limit_fetch(0), FetchSlot::Busy);
    assert_eq!(y.rate_limit_fetch(10_000), FetchSlot::Busy);
    y.fetch_failed(10_000);
    assert_eq!(y.rate_limit_fetch(10_500), FetchSlot::Open);
    assert_eq!(y.rate_limit_fetch(20_000), FetchSlot::Busy);
    y.store_at("A", vec![], 0, 20_000);
    assert_eq!(y.rate_limit_fetch(30_000), FetchSlot::Open);
}

#[test]
fn fetches_are_half_a_second_apart() {
    let mut y = Yahoo::new(vec![]).unwrap();
    assert_eq!(y.rate_limit_fetch(1000), FetchSlot::Open);
    y.store_at("A", vec![], 0, 1200);
    assert_eq!(y.rate_limit_fetch(1200), FetchSlot::Wait(500));
    assert_eq!(y.rate_limit_fetch(1201), FetchSlot::Wait(499));
    assert_eq!(y.rate_limit_fetch(1699), FetchSlot::Wait(1));
    assert_eq!(y.rate_limit_fetch(1700), FetchSlot::Open);
}

#[test]
fn failed_fetch_counts_for_the_spacing_too() {
    let mut y = Yahoo::new(vec![]).unwrap();
    assert_eq!(y.rate_limit_fetch(0), FetchSlot::Open);
    y.fetch_failed(100);
    assert_eq!(y.rate_limit_fetch(350), FetchSlot::Wait(250));
    assert_eq!(y.rate_limit_fetch(600), FetchSlot::Open);
}

#[test]
fn clock_that_ran_backwards_waits_the_full_interval() {
    let mut y = Yahoo::new(vec![]).unwrap();
    y.fetch_failed(u64::MAX);
    assert_eq!(y.rate_limit_fetch(5), FetchSlot::Wait(500));
    assert_eq!(y.rate_limit_fetch(u64::MAX), FetchSlot::Wait(500));
}

#[test]
fn failed_fetch_leaves_the_lookups_alone() {
    let mut y = Yahoo::new(vec![lookup("A", vec![listing("A.ST", "STO")], 100)]).unwrap();
    assert_eq!(y.rate_limit_fetch(0), FetchSlot::Open);
    y.fetch_failed(50);
    assert!(!y.is_dirty());
    assert_eq!(symbols(y.isin_to_symbols_at("A", 200).unwrap()), vec![pair("A.ST", "STO")]);
    assert!(y.isin_to_symbols_at("B", 200).is_none());
    assert_eq!(y.save_cache().len(), 1);
}

#[test]
fn cache_is_dirty_from_a_store_to_the_next_save() {
    let mut y = Yahoo::new(vec![lookup("A", vec![], 100)]).unwrap();
    assert!(!y.is_dirty());
    assert_eq!(y.rate_limit_fetch(0), FetchSlot::Open);
    assert!(!y.is_dirty());
    y.store_at("B", vec![], 100, 10);
    assert!(y.is_dirty());
    y.save_cache();
    assert!(!y.is_dirty());
    y.store_at("B", vec![], 100, 10);
    assert!(y.is_dirty());
}

#[test]
fn saved_cache_is_loaded_with_the_same_lookups() {
    let mut y = Yahoo::new(vec![lookup("A", vec![listing("A.ST", "STO")], 100)]).unwrap();
    y.store_at("B", vec![listing("B.ST", "STO"), listing("B.DE", "GER")], 200, 0);
    y.store_at("C", vec![], 300, 600);
    let copy: Vec<IsinLookup> = y
        .save_cache()
        .iter()
        .map(|l| {
            lookup(
                &l.isin,
                l.securities.iter().map(|s| listing(&s.symbol, &s.exchange)).collect(),
                l.updated_at,
            )
        })
        .collect();
    let reloaded = Yahoo::new(copy).unwrap();
    assert!(!reloaded.is_dirty());
    for isin in ["A", "B", "C", "D"] {
        assert_eq!(
            reloaded.isin_to_symbols_at(isin, 400).map(symbols),
            y.isin_to_symbols_at(isin, 400).map(symbols)
        );
    }
    assert_eq!(symbols(reloaded.isin_to_symbols_at("B", 400).unwrap()).len(), 2);
}
