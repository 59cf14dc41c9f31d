use avanza_pp::avanza::{
    classify, convert, prefix_account, select_security, AvanzaRow, AvanzaTransaction, AvanzaType,
    Column, ConvertErrorKind, RowError,
};
use avanza_pp::decimal::Decimal;
use avanza_pp::pp::{AccountType, PortfolioType, Transaction};
use avanza_pp::types::Currency;
use avanza_pp::yahoo_symbol::Security;

fn dec(mantissa: i128, scale: u32) -> Decimal {
    Decimal::try_new(mantissa, scale).unwrap()
}

fn row(kind: &str, antal: &str, kurs: &str, belopp: &str) -> AvanzaRow {
    AvanzaRow {
        datum: "2025-03-10".to_string(),
        konto: "A".to_string(),
        typ_av_transaktion: kind.to_string(),
        vardepapper_beskrivning: String::new(),
        antal: antal.to_string(),
        kurs: kurs.to_string(),
        belopp: belopp.to_string(),
        transaktionsvaluta: "SEK".to_string(),
        courtage: String::new(),
        valutakurs: String::new(),
        instrumentvaluta: "SEK".to_string(),
        isin: "SE0009876543".to_string(),
        resultat: String::new(),
    }
}

fn line(kind: AvanzaType, antal: Option<Decimal>, kurs: Option<Decimal>, belopp: Option<Decimal>) -> AvanzaTransaction {
    AvanzaTransaction {
        datum: "2025-03-10".to_string(),
        konto: "A".to_string(),
        typ_av_transaktion: kind,
        vardepapper_beskrivning: Some("Bolaget AB".to_string()),
        antal,
        kurs,
        belopp,
        transaktionsvaluta: Currency::new("SEK").unwrap(),
        courtage: None,
        valutakurs: None,
        instrumentvaluta: Currency::new("USD"),
        isin: Some("SE0009876543".to_string()),
        resultat: None,
    }
}

fn listing(symbol: &str, exchange: &str, name: &str) -> Security {
    Security { symbol: symbol.to_string(), exchange: exchange.to_string(), name: name.to_string() }
}

fn portfolio(t: Option<Transaction>) -> avanza_pp::pp::PortfolioTransaction {
    match t {
        Some(Transaction::Portfolio(p)) => p,
        other => panic!("not a portfolio transaction: {:?}", other),
    }
}

fn account(t: Option<Transaction>) -> avanza_pp::pp::AccountTransaction {
    match t {
        Some(Transaction::Account(a)) => a,
        other => panic!("not an account transaction: {:?}", other),
    }
}

#[test]
fn buy_row_becomes_a_purchase() {
    let line =
        AvanzaTransaction::from_row(row("K\u{f6}p", "5,678", "200,50", "-1137,89")).unwrap();
    let listings = vec![listing("EM.ST", "STO", "Emerging Markets")];
    let converted = convert(line, &listings).unwrap();
    assert!(converted.log.is_none());
    let t = portfolio(converted.transaction);
    assert_eq!(t.type_, PortfolioType::Buy);
    assert_eq!(t.value, dec(113789, 2));
    assert_eq!(t.shares, Some(dec(5678, 3)));
    assert_eq!(t.ticker_symbol, Some("EM.ST".to_string()));
    assert_eq!(t.security_name, Some("Emerging Markets".to_string()));
    assert_eq!(t.date, "2025-03-10");
    assert_eq!(t.securities_account, Some("Avanza A".to_string()));
    assert_eq!(t.cash_account, Some("Avanza A".to_string()));
    assert_eq!(t.transaction_currency.as_str(), "SEK");
    assert_eq!(t.currency_gross_amount.unwrap().as_str(), "SEK");
    assert_eq!(t.isin, Some("SE0009876543".to_string()));
    assert_eq!(t.exchange_rate, None);
    assert_eq!(t.gross_amount, None);
    assert_eq!(t.taxes, None);
    assert_eq!(t.fees, None);
    assert_eq!(t.wkn, None);
    assert_eq!(t.note, None);
}

#[test]
fn untyped_row_without_quantity_is_a_removal() {
    let converted =
        convert(line(AvanzaType::Other, None, None, Some(dec(-45678, 2))), &vec![]).unwrap();
    assert!(converted.log.is_none());
    let t = account(converted.transaction);
    assert_eq!(t.type_, AccountType::Removal);
    assert_eq!(t.value, dec(-45678, 2));
    assert_eq!(t.cash_account, "Avanza A");
    assert_eq!(t.securities_account, None);
    assert_eq!(t.note, Some("Bolaget AB".to_string()));
}

#[test]
fn negative_interest_is_an_interest_charge() {
    let converted =
        convert(line(AvanzaType::Interest, None, None, Some(dec(-12345, 2))), &vec![]).unwrap();
    let t = account(converted.transaction);
    assert_eq!(t.type_, AccountType::InterestCharge);
    assert_eq!(t.value, dec(-12345, 2));
}

#[test]
fn positive_interest_is_interest() {
    let converted =
        convert(line(AvanzaType::Interest, None, None, Some(dec(12345, 2))), &vec![]).unwrap();
    assert_eq!(account(converted.transaction).type_, AccountType::Interest);
}

#[test]
fn zero_amounts_count_as_outflow() {
    let interest =
        convert(line(AvanzaType::Interest, None, None, Some(dec(0, 2))), &vec![]).unwrap();
    assert_eq!(account(interest.transaction).type_, AccountType::InterestCharge);
    let other = convert(line(AvanzaType::Other, None, None, Some(dec(0, 0))), &vec![]).unwrap();
    assert_eq!(account(other.transaction).type_, AccountType::Removal);
}

#[test]
fn untyped_row_with_positive_amount_is_a_deposit() {
    let converted =
        convert(line(AvanzaType::Other, None, None, Some(dec(1, 0))), &vec![]).unwrap();
    assert_eq!(account(converted.transaction).type_, AccountType::Deposit);
}

#[test]
fn deposit_and_withdrawal_keep_their_kind_whatever_the_sign() {
    let deposit =
        convert(line(AvanzaType::Deposit, None, None, Some(dec(-500, 0))), &vec![]).unwrap();
    let t = account(deposit.transaction);
    assert_eq!(t.type_, AccountType::Deposit);
    assert_eq!(t.value, dec(-500, 0));
    let withdrawal =
        convert(line(AvanzaType::Withdrawal, None, None, Some(dec(500, 0))), &vec![]).unwrap();
    let t = account(withdrawal.transaction);
    assert_eq!(t.type_, AccountType::Removal);
    assert_eq!(t.value, dec(500, 0));
}

#[test]
fn sell_row_becomes_a_sale() {
    let converted = convert(
        line(AvanzaType::Sell, Some(dec(-10, 0)), Some(dec(995, 1)), Some(dec(99500, 2))),
        &vec![],
    )
    .unwrap();
    let t = portfolio(converted.transaction);
    assert_eq!(t.type_, PortfolioType::Sell);
    assert_eq!(t.value, dec(-99500, 2));
    assert_eq!(t.shares, Some(dec(10, 0)));
    assert_eq!(t.ticker_symbol, None);
    assert_eq!(t.security_name, Some("Bolaget AB".to_string()));
    assert_eq!(t.currency_gross_amount.unwrap().as_str(), "USD");
}

#[test]
fn exchange_rate_is_the_reciprocal_kept_to_four_digits() {
    let mut buy = line(AvanzaType::Buy, Some(dec(1, 0)), None, Some(dec(-100, 0)));
    buy.valutakurs = Some(dec(3, 0));
    let t = portfolio(convert(buy, &vec![]).unwrap().transaction);
    assert_eq!(t.exchange_rate, Some(dec(3333, 4)));

    let mut buy = line(AvanzaType::Buy, Some(dec(1, 0)), None, Some(dec(-100, 0)));
    buy.valutakurs = Some(dec(105, 1));
    let t = portfolio(convert(buy, &vec![]).unwrap().transaction);
    assert_eq!(t.exchange_rate, Some(dec(952, 4)));

    let mut buy = line(AvanzaType::Buy, Some(dec(1, 0)), None, Some(dec(-100, 0)));
    buy.valutakurs = Some(dec(4, 0));
    let t = portfolio(convert(buy, &vec![]).unwrap().transaction);
    assert_eq!(t.exchange_rate, Some(dec(250, 3)));
}

#[test]
fn rounding_of_the_rate_sends_ties_to_the_even_digit() {
    let buy = line(AvanzaType::Buy, None, None, Some(dec(-1, 0)));
    let mut with_rate = buy;
    with_rate.valutakurs = Some(dec(1, 0));
    let t = portfolio(
        classify(with_rate, &vec![], Some(dec(12345, 5)), None).unwrap().transaction,
    );
    assert_eq!(t.exchange_rate, Some(dec(1234, 4)));

    let mut with_rate = line(AvanzaType::Buy, None, None, Some(dec(-1, 0)));
    with_rate.valutakurs = Some(dec(1, 0));
    let t = portfolio(
        classify(with_rate, &vec![], Some(dec(123350, 6)), None).unwrap().transaction,
    );
    assert_eq!(t.exchange_rate, Some(dec(1234, 4)));

    let mut with_rate = line(AvanzaType::Buy, None, None, Some(dec(-1, 0)));
    with_rate.valutakurs = Some(dec(1, 0));
    let t = portfolio(
        classify(with_rate, &vec![], Some(dec(-123451, 6)), None).unwrap().transaction,
    );
    assert_eq!(t.exchange_rate, Some(dec(-1235, 4)));
}

#[test]
fn zero_exchange_rate_is_rejected() {
    let mut buy = line(AvanzaType::Buy, Some(dec(1, 0)), None, Some(dec(-100, 0)));
    buy.valutakurs = Some(dec(0, 2));
    let e = convert(buy, &vec![]).unwrap_err();
    assert_eq!(e.kind, ConvertErrorKind::InvalidExchangeRate);
    assert_eq!(e.date, "2025-03-10");
    assert_eq!(e.account, "A");
    assert_eq!(e.description, Some("Bolaget AB".to_string()));
}

#[test]
fn trade_without_amount_is_rejected() {
    let e = convert(line(AvanzaType::Buy, Some(dec(1, 0)), Some(dec(1, 0)), None), &vec![])
        .unwrap_err();
    assert_eq!(e.kind, ConvertErrorKind::MissingAmount);
}

#[test]
fn cash_rows_without_amount_are_rejected() {
    for kind in [AvanzaType::Deposit, AvanzaType::Withdrawal, AvanzaType::Interest, AvanzaType::Other] {
        let e = convert(line(kind, None, None, None), &vec![]).unwrap_err();
        assert_eq!(e.kind, ConvertErrorKind::MissingAmount);
    }
}

#[test]
fn row_without_date_is_rejected() {
    let mut deposit = line(AvanzaType::Deposit, None, None, Some(dec(1, 0)));
    deposit.datum = String::new();
    let e = convert(deposit, &vec![]).unwrap_err();
    assert_eq!(e.kind, ConvertErrorKind::MissingDate);
    assert_eq!(e.account, "A");
}

#[test]
fn transfer_is_worth_quantity_times_price() {
    let converted = convert(
        line(AvanzaType::SecurityTransfer, Some(dec(5678, 3)), Some(dec(20050, 2)), None),
        &vec![listing("X.DE", "GER", "X"), listing("X.ST", "STO", "X AB")],
    )
    .unwrap();
    assert!(converted.log.is_none());
    let t = portfolio(converted.transaction);
    assert_eq!(t.type_, PortfolioType::DeliveryInbound);
    assert_eq!(t.value, dec(113843900, 5));
    assert_eq!(t.shares, Some(dec(5678, 3)));
    assert_eq!(t.securities_account, Some("Avanza A".to_string()));
    assert_eq!(t.cash_account, None);
    assert_eq!(t.exchange_rate, None);
    assert_eq!(t.ticker_symbol, Some("X.ST".to_string()));
    assert_eq!(t.security_name, Some("Bolaget AB".to_string()));
    assert_eq!(t.note, Some("Bolaget AB".to_string()));
}

#[test]
fn transfer_with_negative_quantity_is_outbound_and_keeps_the_sign() {
    let converted = convert(
        line(AvanzaType::SecurityTransfer, Some(dec(-3, 0)), Some(dec(25, 1)), None),
        &vec![],
    )
    .unwrap();
    let t = portfolio(converted.transaction);
    assert_eq!(t.type_, PortfolioType::DeliveryOutbound);
    assert_eq!(t.shares, Some(dec(-3, 0)));
    assert_eq!(t.value, dec(-75, 1));
}

#[test]
fn transfer_with_a_zero_factor_is_worth_plain_zero() {
    let converted = convert(
        line(AvanzaType::SecurityTransfer, Some(dec(0, 3)), Some(dec(25, 1)), None),
        &vec![],
    )
    .unwrap();
    assert!(converted.log.is_none());
    let t = portfolio(converted.transaction);
    assert_eq!(t.type_, PortfolioType::DeliveryInbound);
    assert_eq!(t.value, dec(0, 0));
}

#[test]
fn transfer_without_price_is_worth_zero_and_says_so() {
    let converted =
        convert(line(AvanzaType::SecurityTransfer, Some(dec(-3, 0)), None, None), &vec![])
            .unwrap();
    assert_eq!(
        converted.log,
        Some("Antar att beloppet \u{e4}r 0 f\u{f6}r 2025-03-10 Bolaget AB".to_string())
    );
    let t = portfolio(converted.transaction);
    assert_eq!(t.type_, PortfolioType::DeliveryOutbound);
    assert_eq!(t.value, dec(0, 0));
    assert_eq!(t.shares, Some(dec(-3, 0)));
}

#[test]
fn transfer_without_quantity_is_inbound_worth_zero_and_says_so() {
    let mut transfer = line(AvanzaType::SecurityTransfer, None, Some(dec(25, 1)), None);
    transfer.vardepapper_beskrivning = None;
    let converted = convert(transfer, &vec![listing("X.ST", "STO", "X AB")]).unwrap();
    assert_eq!(
        converted.log,
        Some("Antar att beloppet \u{e4}r 0 f\u{f6}r 2025-03-10 ".to_string())
    );
    let t = portfolio(converted.transaction);
    assert_eq!(t.type_, PortfolioType::DeliveryInbound);
    assert_eq!(t.value, dec(0, 0));
    assert_eq!(t.shares, None);
    assert_eq!(t.security_name, Some("X AB".to_string()));
    assert_eq!(t.note, None);
}

#[test]
fn untyped_row_with_quantity_is_a_delivery() {
    let converted =
        convert(line(AvanzaType::Other, Some(dec(-7, 0)), None, Some(dec(5, 0))), &vec![])
            .unwrap();
    assert!(converted.log.is_some());
    let t = portfolio(converted.transaction);
    assert_eq!(t.type_, PortfolioType::DeliveryOutbound);
    assert_eq!(t.value, dec(0, 0));

    let converted = convert(
        line(AvanzaType::Other, Some(dec(7, 0)), Some(dec(2, 0)), Some(dec(5, 0))),
        &vec![],
    )
    .unwrap();
    assert!(converted.log.is_none());
    let t = portfolio(converted.transaction);
    assert_eq!(t.type_, PortfolioType::DeliveryInbound);
    assert_eq!(t.value, dec(14, 0));
}

#[test]
fn product_that_cannot_be_held_is_rejected() {
    let largest = dec(0xFFFF_FFFF_FFFF_FFFF_FFFF_FFFF, 0);
    let e = convert(
        line(AvanzaType::SecurityTransfer, Some(largest), Some(dec(10, 0)), None),
        &vec![],
    )
    .unwrap_err();
    assert_eq!(e.kind, ConvertErrorKind::ValueOutOfRange);
    assert_eq!(e.date, "2025-03-10");
}

#[test]
fn classify_uses_the_product_it_is_given() {
    let t = portfolio(
        classify(
            line(AvanzaType::SecurityTransfer, Some(dec(2, 0)), Some(dec(3, 0)), None),
            &vec![],
            None,
            Some(dec(77, 1)),
        )
        .unwrap()
        .transaction,
    );
    assert_eq!(t.value, dec(77, 1));
    let e = classify(
        line(AvanzaType::SecurityTransfer, Some(dec(2, 0)), Some(dec(3, 0)), None),
        &vec![],
        None,
        None,
    )
    .unwrap_err();
    assert_eq!(e.kind, ConvertErrorKind::ValueOutOfRange);
}

#[test]
fn row_without_identifier_ignores_the_listings() {
    let mut buy = line(AvanzaType::Buy, Some(dec(1, 0)), None, Some(dec(-100, 0)));
    buy.isin = None;
    buy.vardepapper_beskrivning = None;
    let t = portfolio(convert(buy, &vec![listing("X.ST", "STO", "X AB")]).unwrap().transaction);
    assert_eq!(t.ticker_symbol, None);
    assert_eq!(t.security_name, None);
    assert_eq!(t.isin, None);
}

#[test]
fn stockholm_listing_is_preferred() {
    let listings =
        vec![listing("A.DE", "GER", "a"), listing("A.ST", "STO", "b"), listing("A2.ST", "STO", "c")];
    assert_eq!(select_security(&listings), Some(1));
}

#[test]
fn first_listing_is_used_where_none_is_in_stockholm() {
    let listings = vec![listing("A.DE", "GER", "a"), listing("A.SG", "STU", "b")];
    assert_eq!(select_security(&listings), Some(0));
    let lower = vec![listing("A.DE", "GER", "a"), listing("A.ST", "sto", "b")];
    assert_eq!(select_security(&lower), Some(0));
}

#[test]
fn no_listing_gives_no_choice() {
    assert_eq!(select_security(&vec![]), None);
}

#[test]
fn account_names_get_the_broker_in_front() {
    assert_eq!(prefix_account("1234567"), "Avanza 1234567");
    assert_eq!(prefix_account(""), "Avanza ");
}

#[test]
fn kinds_are_read_from_their_words() {
    assert_eq!(AvanzaType::from_label("K\u{f6}p"), Some(AvanzaType::Buy));
    assert_eq!(AvanzaType::from_label("S\u{e4}lj"), Some(AvanzaType::Sell));
    assert_eq!(
        AvanzaType::from_label("V\u{e4}rdepappers\u{f6}verf\u{f6}ring"),
        Some(AvanzaType::SecurityTransfer)
    );
    assert_eq!(AvanzaType::from_label("R\u{e4}nta"), Some(AvanzaType::Interest));
    assert_eq!(AvanzaType::from_label("Ins\u{e4}ttning"), Some(AvanzaType::Deposit));
    assert_eq!(AvanzaType::from_label("Uttag"), Some(AvanzaType::Withdrawal));
    assert_eq!(AvanzaType::from_label("\u{d6}vrigt"), Some(AvanzaType::Other));
    assert_eq!(AvanzaType::from_label("Kop"), None);
    assert_eq!(AvanzaType::from_label("uttag"), None);
    assert_eq!(AvanzaType::from_label(""), None);
}

#[test]
fn row_is_read_with_empty_texts_as_absent() {
    let mut r = row("Ins\u{e4}ttning", "", "", "1 000,50".replace(' ', "").as_str());
    r.instrumentvaluta = String::new();
    r.isin = String::new();
    r.courtage = "1,5".to_string();
    r.valutakurs = "10,25".to_string();
    r.resultat = "-3".to_string();
    let t = AvanzaTransaction::from_row(r).unwrap();
    assert_eq!(t.typ_av_transaktion, AvanzaType::Deposit);
    assert_eq!(t.datum, "2025-03-10");
    assert_eq!(t.konto, "A");
    assert_eq!(t.vardepapper_beskrivning, None);
    assert_eq!(t.antal, None);
    assert_eq!(t.kurs, None);
    assert_eq!(t.belopp, Some(dec(100050, 2)));
    assert_eq!(t.transaktionsvaluta.as_str(), "SEK");
    assert_eq!(t.courtage, Some(dec(15, 1)));
    assert_eq!(t.valutakurs, Some(dec(1025, 2)));
    assert!(t.instrumentvaluta.is_none());
    assert_eq!(t.isin, None);
    assert_eq!(t.resultat, Some(dec(-3, 0)));
}

#[test]
fn row_with_a_malformed_column_names_the_first_one() {
    let bad = |change: fn(&mut AvanzaRow)| {
        let mut r = row("K\u{f6}p", "1", "2", "3");
        change(&mut r);
        AvanzaTransaction::from_row(r).unwrap_err()
    };
    assert_eq!(
        bad(|r| r.typ_av_transaktion = "Utdelning".to_string()),
        RowError { column: Column::TypAvTransaktion }
    );
    assert_eq!(bad(|r| r.antal = "x".to_string()), RowError { column: Column::Antal });
    assert_eq!(bad(|r| r.kurs = "1,2,3".to_string()), RowError { column: Column::Kurs });
    assert_eq!(bad(|r| r.belopp = ",".to_string()), RowError { column: Column::Belopp });
    assert_eq!(
        bad(|r| r.transaktionsvaluta = String::new()),
        RowError { column: Column::Transaktionsvaluta }
    );
    assert_eq!(
        bad(|r| r.transaktionsvaluta = "sek".to_string()),
        RowError { column: Column::Transaktionsvaluta }
    );
    assert_eq!(bad(|r| r.courtage = "--1".to_string()), RowError { column: Column::Courtage });
    assert_eq!(bad(|r| r.valutakurs = "1e3".to_string()), RowError { column: Column::Valutakurs });
    assert_eq!(
        bad(|r| r.instrumentvaluta = "SEKK".to_string()),
        RowError { column: Column::Instrumentvaluta }
    );
    assert_eq!(bad(|r| r.resultat = "1 2".to_string()), RowError { column: Column::Resultat });
    assert_eq!(
        bad(|r| {
            r.resultat = "x".to_string();
            r.kurs = "y".to_string();
        }),
        RowError { column: Column::Kurs }
    );
}
