//! Rows of the brokerage export and their conversion into transactions.

use crate::decimal::{
    abs_int, checked_div_result, checked_mul_result, exact_product, round_dp_spec, Decimal,
    DecimalView,
};
use crate::pp::{
    AccountTransaction, AccountTransactionView, AccountType, PortfolioTransaction,
    PortfolioTransactionView, PortfolioType, Transaction, TransactionView,
};
use crate::text::same_text;
use crate::types::{dec_from_swe_num_opt, swe_num_opt_spec, Currency};
use crate::yahoo_symbol::{Security, SecurityView};
use vstd::prelude::*;
use vstd::string::*;

verus! {

/// The kind of a row, as the export tags it.
#[derive(Clone, Copy, Debug, PartialEq, Eq, Structural)]
pub enum AvanzaType {
    Buy,
    Sell,
    SecurityTransfer,
    Interest,
    Deposit,
    Withdrawal,
    Other,
}

/// One row of the export, with its numbers read.
#[derive(Debug)]
pub struct AvanzaTransaction {
    pub datum: String,
    pub konto: String,
    pub typ_av_transaktion: AvanzaType,
    pub vardepapper_beskrivning: Option<String>,
    pub antal: Option<Decimal>,
    pub kurs: Option<Decimal>,
    pub belopp: Option<Decimal>,
    pub transaktionsvaluta: Currency,
    pub courtage: Option<Decimal>,
    pub valutakurs: Option<Decimal>,
    pub instrumentvaluta: Option<Currency>,
    pub isin: Option<String>,
    pub resultat: Option<Decimal>,
}

/// An [`AvanzaTransaction`] as plain values.
pub struct AvanzaTransactionView {
    pub datum: Seq<char>,
    pub konto: Seq<char>,
    pub typ_av_transaktion: AvanzaType,
    pub vardepapper_beskrivning: Option<Seq<char>>,
    pub antal: Option<DecimalView>,
    pub kurs: Option<DecimalView>,
    pub belopp: Option<DecimalView>,
    pub transaktionsvaluta: Seq<char>,
    pub courtage: Option<DecimalView>,
    pub valutakurs: Option<DecimalView>,
    pub instrumentvaluta: Option<Seq<char>>,
    pub isin: Option<Seq<char>>,
    pub resultat: Option<DecimalView>,
}

impl DeepView for AvanzaTransaction {
    type V = AvanzaTransactionView;

    open spec fn deep_view(&self) -> AvanzaTransactionView {
        AvanzaTransactionView {
            datum: self.datum@,
            konto: self.konto@,
            typ_av_transaktion: self.typ_av_transaktion,
            vardepapper_beskrivning: self.vardepapper_beskrivning.deep_view(),
            antal: self.antal.deep_view(),
            kurs: self.kurs.deep_view(),
            belopp: self.belopp.deep_view(),
            transaktionsvaluta: self.transaktionsvaluta@,
            courtage: self.courtage.deep_view(),
            valutakurs: self.valutakurs.deep_view(),
            instrumentvaluta: self.instrumentvaluta.deep_view(),
            isin: self.isin.deep_view(),
            resultat: self.resultat.deep_view(),
        }
    }
}

impl View for AvanzaTransaction {
    type V = AvanzaTransactionView;

    open spec fn view(&self) -> AvanzaTransactionView {
        self.deep_view()
    }
}

impl AvanzaType {
    /// The word that the export writes for the kind.
    pub open spec fn label(self) -> Seq<char> {
        match self {
            AvanzaType::Buy => "K\u{f6}p"@,
            AvanzaType::Sell => "S\u{e4}lj"@,
            AvanzaType::SecurityTransfer => "V\u{e4}rdepappers\u{f6}verf\u{f6}ring"@,
            AvanzaType::Interest => "R\u{e4}nta"@,
            AvanzaType::Deposit => "Ins\u{e4}ttning"@,
            AvanzaType::Withdrawal => "Uttag"@,
            AvanzaType::Other => "\u{d6}vrigt"@,
        }
    }

    /// The kind that a word of the export stands for, if any.
    pub open spec fn from_label_spec(label: Seq<char>) -> Option<AvanzaType> {
        if label == AvanzaType::Buy.label() {
            Some(AvanzaType::Buy)
        } else if label == AvanzaType::Sell.label() {
            Some(AvanzaType::Sell)
        } else if label == AvanzaType::SecurityTransfer.label() {
            Some(AvanzaType::SecurityTransfer)
        } else if label == AvanzaType::Interest.label() {
            Some(AvanzaType::Interest)
        } else if label == AvanzaType::Deposit.label() {
            Some(AvanzaType::Deposit)
        } else if label == AvanzaType::Withdrawal.label() {
            Some(AvanzaType::Withdrawal)
        } else if label == AvanzaType::Other.label() {
            Some(AvanzaType::Other)
        } else {
            None
        }
    }

    /// Reads the kind of a row from the word that the export writes for it.
    pub fn from_label(label: &str) -> (r: Option<AvanzaType>)
        ensures
            r == AvanzaType::from_label_spec(label@),
    {
        if same_text(label, "K\u{f6}p") {
            Some(AvanzaType::Buy)
        } else if same_text(label, "S\u{e4}lj") {
            Some(AvanzaType::Sell)
        } else if same_text(label, "V\u{e4}rdepappers\u{f6}verf\u{f6}ring") {
            Some(AvanzaType::SecurityTransfer)
        } else if same_text(label, "R\u{e4}nta") {
            Some(AvanzaType::Interest)
        } else if same_text(label, "Ins\u{e4}ttning") {
            Some(AvanzaType::Deposit)
        } else if same_text(label, "Uttag") {
            Some(AvanzaType::Withdrawal)
        } else if same_text(label, "\u{d6}vrigt") {
            Some(AvanzaType::Other)
        } else {
            None
        }
    }
}

/// Each kind is read back from its own word: no two kinds share a word.
pub proof fn lemma_label_round_trip(kind: AvanzaType)
    ensures
        AvanzaType::from_label_spec(kind.label()) == Some(kind),
{
    reveal_strlit("K\u{f6}p");
    reveal_strlit("S\u{e4}lj");
    reveal_strlit("V\u{e4}rdepappers\u{f6}verf\u{f6}ring");
    reveal_strlit("R\u{e4}nta");
    reveal_strlit("Ins\u{e4}ttning");
    reveal_strlit("Uttag");
    reveal_strlit("\u{d6}vrigt");
    assert("K\u{f6}p"@[0] == 'K');
    assert("S\u{e4}lj"@[0] == 'S');
    assert("V\u{e4}rdepappers\u{f6}verf\u{f6}ring"@[0] == 'V');
    assert("R\u{e4}nta"@[0] == 'R');
    assert("Ins\u{e4}ttning"@[0] == 'I');
    assert("Uttag"@[0] == 'U');
    assert("\u{d6}vrigt"@[0] == '\u{d6}');
}

/// One row of the export as it is written: every column a text.
#[derive(Debug)]
pub struct AvanzaRow {
    pub datum: String,
    pub konto: String,
    pub typ_av_transaktion: String,
    pub vardepapper_beskrivning: String,
    pub antal: String,
    pub kurs: String,
    pub belopp: String,
    pub transaktionsvaluta: String,
    pub courtage: String,
    pub valutakurs: String,
    pub instrumentvaluta: String,
    pub isin: String,
    pub resultat: String,
}

/// An [`AvanzaRow`] as plain values.
pub struct AvanzaRowView {
    pub datum: Seq<char>,
    pub konto: Seq<char>,
    pub typ_av_transaktion: Seq<char>,
    pub vardepapper_beskrivning: Seq<char>,
    pub antal: Seq<char>,
    pub kurs: Seq<char>,
    pub belopp: Seq<char>,
    pub transaktionsvaluta: Seq<char>,
    pub courtage: Seq<char>,
    pub valutakurs: Seq<char>,
    pub instrumentvaluta: Seq<char>,
    pub isin: Seq<char>,
    pub resultat: Seq<char>,
}

impl DeepView for AvanzaRow {
    type V = AvanzaRowView;

    open spec fn deep_view(&self) -> AvanzaRowView {
        AvanzaRowView {
            datum: self.datum@,
            konto: self.konto@,
            typ_av_transaktion: self.typ_av_transaktion@,
            vardepapper_beskrivning: self.vardepapper_beskrivning@,
            antal: self.antal@,
            kurs: self.kurs@,
            belopp: self.belopp@,
            transaktionsvaluta: self.transaktionsvaluta@,
            courtage: self.courtage@,
            valutakurs: self.valutakurs@,
            instrumentvaluta: self.instrumentvaluta@,
            isin: self.isin@,
            resultat: self.resultat@,
        }
    }
}

impl View for AvanzaRow {
    type V = AvanzaRowView;

    open spec fn view(&self) -> AvanzaRowView {
        self.deep_view()
    }
}

/// A column of the export whose text can be malformed.
#[derive(Clone, Copy, Debug, PartialEq, Eq, Structural)]
pub enum Column {
    TypAvTransaktion,
    Antal,
    Kurs,
    Belopp,
    Transaktionsvaluta,
    Courtage,
    Valutakurs,
    Instrumentvaluta,
    Resultat,
}

/// A row that cannot be read: the first of its columns that is malformed.
#[derive(Clone, Copy, Debug, PartialEq, Eq, Structural)]
pub struct RowError {
    pub column: Column,
}

/// A text, or nothing where the text is empty.
pub open spec fn text_or_none(text: Seq<char>) -> Option<Seq<char>> {
    if text.len() == 0 {
        None
    } else {
        Some(text)
    }
}

/// Whether a text is empty or a currency code.
pub open spec fn is_currency_or_empty(text: Seq<char>) -> bool {
    text.len() == 0 || Currency::well_formed(text)
}

/// The first column of a row that is malformed, if any: the kind must be a
/// known word, a number empty or a number, the currency of the transaction a
/// currency code, the currency of the instrument empty or a currency code.
pub open spec fn first_bad_column(row: AvanzaRowView) -> Option<Column> {
    if AvanzaType::from_label_spec(row.typ_av_transaktion) is None {
        Some(Column::TypAvTransaktion)
    } else if swe_num_opt_spec(row.antal) is Err {
        Some(Column::Antal)
    } else if swe_num_opt_spec(row.kurs) is Err {
        Some(Column::Kurs)
    } else if swe_num_opt_spec(row.belopp) is Err {
        Some(Column::Belopp)
    } else if !Currency::well_formed(row.transaktionsvaluta) {
        Some(Column::Transaktionsvaluta)
    } else if swe_num_opt_spec(row.courtage) is Err {
        Some(Column::Courtage)
    } else if swe_num_opt_spec(row.valutakurs) is Err {
        Some(Column::Valutakurs)
    } else if !is_currency_or_empty(row.instrumentvaluta) {
        Some(Column::Instrumentvaluta)
    } else if swe_num_opt_spec(row.resultat) is Err {
        Some(Column::Resultat)
    } else {
        None
    }
}

/// What [`AvanzaTransaction::from_row`] returns for a row. An empty text
/// stands for a value that is absent.
pub open spec fn from_row_spec(row: AvanzaRowView) -> Result<AvanzaTransactionView, RowError> {
    match first_bad_column(row) {
        Some(column) => Err(RowError { column }),
        None => Ok(
            AvanzaTransactionView {
                datum: row.datum,
                konto: row.konto,
                typ_av_transaktion: AvanzaType::from_label_spec(row.typ_av_transaktion)->0,
                vardepapper_beskrivning: text_or_none(row.vardepapper_beskrivning),
                antal: swe_num_opt_spec(row.antal)->Ok_0,
                kurs: swe_num_opt_spec(row.kurs)->Ok_0,
                belopp: swe_num_opt_spec(row.belopp)->Ok_0,
                transaktionsvaluta: row.transaktionsvaluta,
                courtage: swe_num_opt_spec(row.courtage)->Ok_0,
                valutakurs: swe_num_opt_spec(row.valutakurs)->Ok_0,
                instrumentvaluta: text_or_none(row.instrumentvaluta),
                isin: text_or_none(row.isin),
                resultat: swe_num_opt_spec(row.resultat)->Ok_0,
            },
        ),
    }
}

/// The outcome of reading a row as plain values.
pub open spec fn row_outcome_view(r: Result<AvanzaTransaction, RowError>) -> Result<
    AvanzaTransactionView,
    RowError,
> {
    match r {
        Ok(t) => Ok(t@),
        Err(e) => Err(e),
    }
}

/// A text, or nothing where the text is empty.
fn optional_text(text: String) -> (r: Option<String>)
    ensures
        r.deep_view() == text_or_none(text@),
{
    if text.as_str().unicode_len() == 0 {
        None
    } else {
        Some(text)
    }
}

/// Reads a number of a row; an error names the column.
fn read_number(text: &String, column: Column) -> (r: Result<Option<Decimal>, RowError>)
    ensures
        match r {
            Ok(d) => swe_num_opt_spec(text@) == Ok::<_, crate::types::NumberError>(d.deep_view()),
            Err(e) => e.column == column && swe_num_opt_spec(text@) is Err,
        },
{
    match dec_from_swe_num_opt(text.as_str()) {
        Ok(d) => Ok(d),
        Err(_) => Err(RowError { column }),
    }
}

impl AvanzaTransaction {
    /// Reads a row of the export: its kind, its numbers and its currencies.
    pub fn from_row(row: AvanzaRow) -> (r: Result<AvanzaTransaction, RowError>)
        ensures
            row_outcome_view(r) == from_row_spec(row@),
    {
        let typ_av_transaktion = match AvanzaType::from_label(row.typ_av_transaktion.as_str()) {
            Some(kind) => kind,
            None => {
                return Err(RowError { column: Column::TypAvTransaktion });
            },
        };
        let antal = match read_number(&row.antal, Column::Antal) {
            Ok(d) => d,
            Err(e) => {
                return Err(e);
            },
        };
        let kurs = match read_number(&row.kurs, Column::Kurs) {
            Ok(d) => d,
            Err(e) => {
                return Err(e);
            },
        };
        let belopp = match read_number(&row.belopp, Column::Belopp) {
            Ok(d) => d,
            Err(e) => {
                return Err(e);
            },
        };
        let transaktionsvaluta = match Currency::new(row.transaktionsvaluta.as_str()) {
            Some(c) => c,
            None => {
                return Err(RowError { column: Column::Transaktionsvaluta });
            },
        };
        let courtage = match read_number(&row.courtage, Column::Courtage) {
            Ok(d) => d,
            Err(e) => {
                return Err(e);
            },
        };
        let valutakurs = match read_number(&row.valutakurs, Column::Valutakurs) {
            Ok(d) => d,
            Err(e) => {
                return Err(e);
            },
        };
        let instrumentvaluta = if row.instrumentvaluta.as_str().unicode_len() == 0 {
            None
        } else {
            match Currency::new(row.instrumentvaluta.as_str()) {
                Some(c) => Some(c),
                None => {
                    return Err(RowError { column: Column::Instrumentvaluta });
                },
            }
        };
        let resultat = match read_number(&row.resultat, Column::Resultat) {
            Ok(d) => d,
            Err(e) => {
                return Err(e);
            },
        };
        Ok(
            AvanzaTransaction {
                datum: row.datum,
                konto: row.konto,
                typ_av_transaktion,
                vardepapper_beskrivning: optional_text(row.vardepapper_beskrivning),
                antal,
                kurs,
                belopp,
                transaktionsvaluta,
                courtage,
                valutakurs,
                instrumentvaluta,
                isin: optional_text(row.isin),
                resultat,
            },
        )
    }
}

/// What a row became: its transaction, and a message where a value had to
/// be assumed.
#[derive(Debug)]
pub struct Conversion {
    pub transaction: Option<Transaction>,
    pub log: Option<String>,
}

/// A [`Conversion`] as plain values.
pub struct ConversionView {
    pub transaction: Option<TransactionView>,
    pub log: Option<Seq<char>>,
}

impl DeepView for Conversion {
    type V = ConversionView;

    open spec fn deep_view(&self) -> ConversionView {
        ConversionView { transaction: self.transaction.deep_view(), log: self.log.deep_view() }
    }
}

impl View for Conversion {
    type V = ConversionView;

    open spec fn view(&self) -> ConversionView {
        self.deep_view()
    }
}

/// What is wrong with a row that cannot be converted.
#[derive(Clone, Copy, Debug, PartialEq, Eq, Structural)]
pub enum ConvertErrorKind {
    /// The row has no date.
    MissingDate,
    /// The row has no amount, and its kind needs one.
    MissingAmount,
    /// The exchange rate of the row has no reciprocal.
    InvalidExchangeRate,
    /// Quantity times price is too large to hold.
    ValueOutOfRange,
}

/// A row that cannot be converted, with what is needed to find it in the
/// export.
#[derive(Debug)]
pub struct ConvertError {
    pub kind: ConvertErrorKind,
    pub date: String,
    pub account: String,
    pub description: Option<String>,
}

/// A [`ConvertError`] as plain values.
pub struct ConvertErrorView {
    pub kind: ConvertErrorKind,
    pub date: Seq<char>,
    pub account: Seq<char>,
    pub description: Option<Seq<char>>,
}

impl DeepView for ConvertError {
    type V = ConvertErrorView;

    open spec fn deep_view(&self) -> ConvertErrorView {
        ConvertErrorView {
            kind: self.kind,
            date: self.date@,
            account: self.account@,
            description: self.description.deep_view(),
        }
    }
}

impl View for ConvertError {
    type V = ConvertErrorView;

    open spec fn view(&self) -> ConvertErrorView {
        self.deep_view()
    }
}

/// The outcome of a conversion as plain values.
pub open spec fn outcome_view(r: Result<Conversion, ConvertError>) -> Result<
    ConversionView,
    ConvertErrorView,
> {
    match r {
        Ok(c) => Ok(c@),
        Err(e) => Err(e@),
    }
}

/// The code of the exchange whose listing is preferred: Stockholm.
pub open spec fn preferred_exchange() -> Seq<char> {
    seq!['S', 'T', 'O']
}

/// Whether `i` is the place of the first listing at the preferred exchange.
pub open spec fn is_first_preferred(securities: Seq<SecurityView>, i: int) -> bool {
    &&& 0 <= i < securities.len()
    &&& securities[i].exchange == preferred_exchange()
    &&& forall|j: int| 0 <= j < i ==> securities[j].exchange != preferred_exchange()
}

/// The place of the listing to use: the first at the preferred exchange, or
/// else the first of all, or none where there is no listing.
pub open spec fn best_security_index(securities: Seq<SecurityView>) -> Option<int> {
    if exists|i: int| is_first_preferred(securities, i) {
        Some(choose|i: int| is_first_preferred(securities, i))
    } else if securities.len() > 0 {
        Some(0)
    } else {
        None
    }
}

/// The listing to use, see [`best_security_index`].
pub open spec fn best_security(securities: Seq<SecurityView>) -> Option<SecurityView> {
    match best_security_index(securities) {
        Some(i) => Some(securities[i]),
        None => None,
    }
}

/// Picks the listing to use among those found for a security.
pub fn select_security(securities: &Vec<Security>) -> (r: Option<usize>)
    ensures
        r is Some <==> securities.len() > 0,
        match r {
            Some(i) => best_security_index(securities.deep_view()) == Some(i as int) && i
                < securities.len(),
            None => best_security_index(securities.deep_view()) is None,
        },
{
    proof {
        reveal_strlit("STO");
        assert("STO"@ =~= preferred_exchange());
    }
    let ghost view = securities.deep_view();
    let mut i: usize = 0;
    while i < securities.len()
        invariant
            i <= securities.len(),
            view == securities.deep_view(),
            "STO"@ == preferred_exchange(),
            forall|j: int| 0 <= j < i ==> view[j].exchange != preferred_exchange(),
        decreases securities.len() - i,
    {
        if same_text(securities[i].exchange.as_str(), "STO") {
            proof {
                assert(is_first_preferred(view, i as int));
                let k = choose|k: int| is_first_preferred(view, k);
                assert(k == i) by {
                    if k < i {
                        assert(view[k].exchange != preferred_exchange());
                    } else if i < k {
                        assert(view[i as int].exchange != preferred_exchange());
                    }
                }
            }
            return Some(i);
        }
        i += 1;
    }
    proof {
        assert(!exists|k: int| is_first_preferred(view, k));
    }
    if securities.len() > 0 {
        Some(0)
    } else {
        None
    }
}

/// The name of the ledger account for an account of the export.
pub open spec fn prefix_account_spec(account_name: Seq<char>) -> Seq<char> {
    "Avanza "@ + account_name
}

/// Names the ledger account for an account of the export.
pub fn prefix_account(account_name: &str) -> (r: String)
    ensures
        r@ == prefix_account_spec(account_name@),
{
    let mut r = String::from_str("Avanza ");
    r.append(account_name);
    r
}

/// One with one digit after the decimal point: the dividend of an exchange
/// rate's reciprocal.
pub open spec fn one_point_zero() -> DecimalView {
    DecimalView { mantissa: 10, scale: 1 }
}

/// Zero with no digits after the decimal point.
pub open spec fn plain_zero() -> DecimalView {
    DecimalView { mantissa: 0, scale: 0 }
}

/// The number of digits after the decimal point that an exchange rate keeps.
pub const EXCHANGE_RATE_DIGITS: u32 = 4;

/// The message for a transfer whose value had to be taken as zero.
pub open spec fn assumed_zero_message(date: Seq<char>, description: Option<Seq<char>>) -> Seq<char> {
    "Antar att beloppet \u{e4}r 0 f\u{f6}r "@ + date + " "@ + match description {
        Some(d) => d,
        None => Seq::empty(),
    }
}

/// Whether a row without a kind of its own names a quantity. Such a row is
/// taken as a delivery: it may stand for securities of a failed company
/// that were sold or moved.
pub open spec fn is_untyped_delivery(line: AvanzaTransactionView) -> bool {
    line.typ_av_transaktion == AvanzaType::Other && line.antal is Some
}

/// Whether a row without a kind of its own names no quantity. Such a row is
/// taken as a plain movement of cash, in or out by the sign of its amount,
/// although it may also stand for a tax.
pub open spec fn is_untyped_cash(line: AvanzaTransactionView) -> bool {
    line.typ_av_transaktion == AvanzaType::Other && line.antal is None
}

/// Whether a row is converted like a transfer of securities: it is tagged
/// as one, or it has no kind of its own and names a quantity.
pub open spec fn is_transfer_like(line: AvanzaTransactionView) -> bool {
    line.typ_av_transaktion == AvanzaType::SecurityTransfer || is_untyped_delivery(line)
}

/// The listing that a row uses: none where the row names no security.
pub open spec fn listing_for(
    line: AvanzaTransactionView,
    securities: Seq<SecurityView>,
) -> Option<SecurityView> {
    if line.isin is Some {
        best_security(securities)
    } else {
        None
    }
}

/// The name of the security of a row: the description of the row, or else
/// the name of the listing.
pub open spec fn security_name_for(
    line: AvanzaTransactionView,
    securities: Seq<SecurityView>,
) -> Option<Seq<char>> {
    match line.vardepapper_beskrivning {
        Some(d) => Some(d),
        None => match listing_for(line, securities) {
            Some(s) => Some(s.name),
            None => None,
        },
    }
}

/// The ticker symbol of a row: that of its listing.
pub open spec fn ticker_symbol_for(
    line: AvanzaTransactionView,
    securities: Seq<SecurityView>,
) -> Option<Seq<char>> {
    match listing_for(line, securities) {
        Some(s) => Some(s.symbol),
        None => None,
    }
}

/// The error for a row, with the date, account and description of the row.
pub open spec fn error_for(line: AvanzaTransactionView, kind: ConvertErrorKind) -> ConvertErrorView {
    ConvertErrorView {
        kind,
        date: line.datum,
        account: line.konto,
        description: line.vardepapper_beskrivning,
    }
}

/// A purchase or a sale. The value is the amount with its sign flipped, the
/// share count is the magnitude of the quantity, and the exchange rate is
/// the reciprocal `quotient` of the row's rate, kept to four digits.
pub open spec fn trade_spec(
    line: AvanzaTransactionView,
    securities: Seq<SecurityView>,
    quotient: Option<DecimalView>,
) -> Result<ConversionView, ConvertErrorView> {
    if line.belopp is None {
        Err(error_for(line, ConvertErrorKind::MissingAmount))
    } else if line.valutakurs is Some && quotient is None {
        Err(error_for(line, ConvertErrorKind::InvalidExchangeRate))
    } else {
        Ok(
            ConversionView {
                transaction: Some(
                    TransactionView::Portfolio(
                        PortfolioTransactionView {
                            date: line.datum,
                            securities_account: Some(prefix_account_spec(line.konto)),
                            cash_account: Some(prefix_account_spec(line.konto)),
                            type_: if line.typ_av_transaktion == AvanzaType::Buy {
                                PortfolioType::Buy
                            } else {
                                PortfolioType::Sell
                            },
                            value: DecimalView {
                                mantissa: -line.belopp->0.mantissa,
                                scale: line.belopp->0.scale,
                            },
                            transaction_currency: line.transaktionsvaluta,
                            gross_amount: None,
                            currency_gross_amount: line.instrumentvaluta,
                            exchange_rate: if line.valutakurs is Some {
                                Some(round_dp_spec(quotient->0, EXCHANGE_RATE_DIGITS as nat))
                            } else {
                                None
                            },
                            fees: line.courtage,
                            taxes: None,
                            shares: match line.antal {
                                Some(q) => Some(
                                    DecimalView {
                                        mantissa: abs_int(q.mantissa),
                                        scale: q.scale,
                                    },
                                ),
                                None => None,
                            },
                            isin: line.isin,
                            wkn: None,
                            ticker_symbol: ticker_symbol_for(line, securities),
                            security_name: security_name_for(line, securities),
                            note: None,
                        },
                    ),
                ),
                log: None,
            },
        )
    }
}

/// A delivery of securities. It is outbound where the quantity is below
/// zero and inbound otherwise. The value is `product`, quantity times
/// price, where the row has both; else it is zero and a message says so.
pub open spec fn transfer_spec(
    line: AvanzaTransactionView,
    securities: Seq<SecurityView>,
    product: Option<DecimalView>,
) -> Result<ConversionView, ConvertErrorView> {
    let priced = line.antal is Some && line.kurs is Some;
    if priced && product is None {
        Err(error_for(line, ConvertErrorKind::ValueOutOfRange))
    } else {
        Ok(
            ConversionView {
                transaction: Some(
                    TransactionView::Portfolio(
                        PortfolioTransactionView {
                            date: line.datum,
                            securities_account: Some(prefix_account_spec(line.konto)),
                            cash_account: None,
                            type_: if line.antal is Some && line.antal->0.mantissa < 0 {
                                PortfolioType::DeliveryOutbound
                            } else {
                                PortfolioType::DeliveryInbound
                            },
                            value: if priced {
                                product->0
                            } else {
                                plain_zero()
                            },
                            transaction_currency: line.transaktionsvaluta,
                            gross_amount: None,
                            currency_gross_amount: line.instrumentvaluta,
                            exchange_rate: None,
                            fees: line.courtage,
                            taxes: None,
                            shares: line.antal,
                            isin: line.isin,
                            wkn: None,
                            ticker_symbol: ticker_symbol_for(line, securities),
                            security_name: security_name_for(line, securities),
                            note: line.vardepapper_beskrivning,
                        },
                    ),
                ),
                log: if priced {
                    None
                } else {
                    Some(assumed_zero_message(line.datum, line.vardepapper_beskrivning))
                },
            },
        )
    }
}

/// A movement of cash of the given type. The value is the amount as it is.
pub open spec fn cash_spec(line: AvanzaTransactionView, type_: AccountType) -> Result<
    ConversionView,
    ConvertErrorView,
> {
    if line.belopp is None {
        Err(error_for(line, ConvertErrorKind::MissingAmount))
    } else {
        Ok(
            ConversionView {
                transaction: Some(
                    TransactionView::Account(
                        AccountTransactionView {
                            date: line.datum,
                            cash_account: prefix_account_spec(line.konto),
                            securities_account: None,
                            type_,
                            value: line.belopp->0,
                            transaction_currency: line.transaktionsvaluta,
                            note: line.vardepapper_beskrivning,
                        },
                    ),
                ),
                log: None,
            },
        )
    }
}

/// Whether the amount of a row is present and not above zero.
pub open spec fn amount_is_outflow(line: AvanzaTransactionView) -> bool {
    line.belopp is Some && line.belopp->0.mantissa <= 0
}

/// The transaction for a row, given the listings found for its security,
/// the reciprocal `quotient` of its exchange rate and the `product` of its
/// quantity and price.
pub open spec fn classify_spec(
    line: AvanzaTransactionView,
    securities: Seq<SecurityView>,
    quotient: Option<DecimalView>,
    product: Option<DecimalView>,
) -> Result<ConversionView, ConvertErrorView> {
    if line.datum.len() == 0 {
        Err(error_for(line, ConvertErrorKind::MissingDate))
    } else {
        match line.typ_av_transaktion {
            AvanzaType::Buy | AvanzaType::Sell => trade_spec(line, securities, quotient),
            AvanzaType::SecurityTransfer => transfer_spec(line, securities, product),
            AvanzaType::Other => if is_untyped_delivery(line) {
                transfer_spec(line, securities, product)
            } else {
                cash_spec(
                    line,
                    if amount_is_outflow(line) {
                        AccountType::Removal
                    } else {
                        AccountType::Deposit
                    },
                )
            },
            AvanzaType::Deposit => cash_spec(line, AccountType::Deposit),
            AvanzaType::Withdrawal => cash_spec(line, AccountType::Removal),
            AvanzaType::Interest => cash_spec(
                line,
                if amount_is_outflow(line) {
                    AccountType::InterestCharge
                } else {
                    AccountType::Interest
                },
            ),
        }
    }
}

/// Whether the numbers that the kind of a row calls for are there: an
/// amount for a trade or a movement of cash, a reciprocal for a trade with an
/// exchange rate, a product for a transfer with quantity and price.
pub open spec fn has_what_it_needs(
    line: AvanzaTransactionView,
    quotient: Option<DecimalView>,
    product: Option<DecimalView>,
) -> bool {
    if is_trade(line) {
        line.belopp is Some && (line.valutakurs is Some ==> quotient is Some)
    } else if is_transfer_like(line) {
        line.antal is Some && line.kurs is Some ==> product is Some
    } else {
        line.belopp is Some
    }
}

/// Every kind of row has its transaction. A row with a date and the numbers
/// its kind calls for is converted, and no other; a trade becomes a purchase
/// or a sale worth the amount with its sign flipped; a transfer-like row
/// becomes a delivery, outbound exactly where the quantity is below zero; any
/// other row becomes a movement of cash worth the amount, a removal or an
/// interest charge exactly where the kind or the sign of the amount says so.
pub proof fn lemma_classification_table(
    line: AvanzaTransactionView,
    securities: Seq<SecurityView>,
    quotient: Option<DecimalView>,
    product: Option<DecimalView>,
)
    ensures
        ({
            let r = classify_spec(line, securities, quotient, product);
            let kind = line.typ_av_transaktion;
            &&& r is Ok <==> line.datum.len() > 0 && has_what_it_needs(line, quotient, product)
            &&& r matches Ok(c) ==> {
                &&& c.transaction matches Some(t)
                &&& t.date() == line.datum
                &&& t.transaction_currency() == line.transaktionsvaluta
                &&& kind == AvanzaType::Buy || kind == AvanzaType::Sell ==> {
                    &&& t matches TransactionView::Portfolio(p)
                    &&& p.type_ == (if kind == AvanzaType::Buy {
                        PortfolioType::Buy
                    } else {
                        PortfolioType::Sell
                    })
                    &&& p.value.mantissa == -line.belopp->0.mantissa
                    &&& p.value.scale == line.belopp->0.scale
                    &&& p.shares matches Some(n) ==> n.mantissa >= 0
                }
                &&& is_transfer_like(line) ==> {
                    &&& t matches TransactionView::Portfolio(p)
                    &&& p.type_ == (if line.antal is Some && line.antal->0.mantissa < 0 {
                        PortfolioType::DeliveryOutbound
                    } else {
                        PortfolioType::DeliveryInbound
                    })
                    &&& p.shares == line.antal
                    &&& line.antal is Some && line.kurs is Some ==> Some(p.value) == product
                }
                &&& is_untyped_cash(line) ==> {
                    &&& t matches TransactionView::Account(a)
                    &&& a.type_ == (if line.belopp->0.mantissa <= 0 {
                        AccountType::Removal
                    } else {
                        AccountType::Deposit
                    })
                    &&& Some(a.value) == line.belopp
                }
                &&& kind == AvanzaType::Deposit ==> {
                    &&& t matches TransactionView::Account(a)
                    &&& a.type_ == AccountType::Deposit
                    &&& Some(a.value) == line.belopp
                }
                &&& kind == AvanzaType::Withdrawal ==> {
                    &&& t matches TransactionView::Account(a)
                    &&& a.type_ == AccountType::Removal
                    &&& Some(a.value) == line.belopp
                }
                &&& kind == AvanzaType::Interest ==> {
                    &&& t matches TransactionView::Account(a)
                    &&& a.type_ == (if line.belopp->0.mantissa <= 0 {
                        AccountType::InterestCharge
                    } else {
                        AccountType::Interest
                    })
                    &&& Some(a.value) == line.belopp
                }
            }
        }),
{
}

/// A transfer-like row that lacks its quantity or its price is always
/// converted, whatever its other numbers: into a delivery worth exactly
/// zero, with a message that says that zero was assumed.
pub proof fn lemma_amount_fallback(
    line: AvanzaTransactionView,
    securities: Seq<SecurityView>,
    quotient: Option<DecimalView>,
    product: Option<DecimalView>,
)
    requires
        line.datum.len() > 0,
        is_transfer_like(line),
        line.antal is None || line.kurs is None,
    ensures
        ({
            let r = classify_spec(line, securities, quotient, product);
            &&& r matches Ok(c)
            &&& c.transaction matches Some(TransactionView::Portfolio(p))
            &&& p.value.mantissa == 0
            &&& c.log == Some(assumed_zero_message(line.datum, line.vardepapper_beskrivning))
        }),
{
}

/// Only a transfer-like row without its quantity or its price carries a
/// message.
pub proof fn lemma_message_only_for_fallback(
    line: AvanzaTransactionView,
    securities: Seq<SecurityView>,
    quotient: Option<DecimalView>,
    product: Option<DecimalView>,
)
    ensures
        ({
            let r = classify_spec(line, securities, quotient, product);
            r matches Ok(c) ==> (c.log is Some <==> is_transfer_like(line) && (line.antal is None
                || line.kurs is None))
        }),
{
}

/// The listing that a row uses is the first one at the preferred exchange;
/// where there is none there, it is the first listing of all.
pub proof fn lemma_best_security(securities: Seq<SecurityView>)
    ensures
        best_security_index(securities) is Some <==> securities.len() > 0,
        best_security_index(securities) matches Some(i) ==> {
            &&& 0 <= i < securities.len()
            &&& forall|j: int| 0 <= j < i ==> securities[j].exchange != preferred_exchange()
            &&& securities[i].exchange != preferred_exchange() ==> i == 0 && forall|j: int|
                0 <= j < securities.len() ==> securities[j].exchange != preferred_exchange()
        },
{
    if exists|i: int| is_first_preferred(securities, i) {
        let i = choose|i: int| is_first_preferred(securities, i);
        assert(is_first_preferred(securities, i));
    } else if securities.len() > 0 {
        assert forall|j: int| 0 <= j < securities.len() implies securities[j].exchange
            != preferred_exchange() by {
            if securities[j].exchange == preferred_exchange() {
                lemma_some_first_preferred(securities, j);
            }
        }
    }
}

/// Where one listing is at the preferred exchange, one of them is the first.
proof fn lemma_some_first_preferred(securities: Seq<SecurityView>, j: int)
    requires
        0 <= j < securities.len(),
        securities[j].exchange == preferred_exchange(),
    ensures
        exists|i: int| is_first_preferred(securities, i),
    decreases j,
{
    if forall|k: int| 0 <= k < j ==> securities[k].exchange != preferred_exchange() {
        assert(is_first_preferred(securities, j));
    } else {
        let k = choose|k: int| 0 <= k < j && securities[k].exchange == preferred_exchange();
        lemma_some_first_preferred(securities, k);
    }
}

/// The reciprocal of the exchange rate of a row, as `rust_decimal` divides.
pub open spec fn rate_quotient(line: AvanzaTransactionView) -> Option<DecimalView> {
    match line.valutakurs {
        Some(v) => checked_div_result(one_point_zero(), v),
        None => None,
    }
}

/// Quantity times price of a row, as `rust_decimal` multiplies.
pub open spec fn value_product(line: AvanzaTransactionView) -> Option<DecimalView> {
    match (line.antal, line.kurs) {
        (Some(q), Some(p)) => checked_mul_result(q, p),
        _ => None,
    }
}

/// Whether a row is a purchase or a sale.
pub open spec fn is_trade(line: AvanzaTransactionView) -> bool {
    line.typ_av_transaktion == AvanzaType::Buy || line.typ_av_transaktion == AvanzaType::Sell
}

/// The value of the transaction that a row became, if it became one.
pub open spec fn value_of(r: Result<ConversionView, ConvertErrorView>) -> Option<DecimalView> {
    match r {
        Ok(c) => match c.transaction {
            Some(TransactionView::Portfolio(t)) => Some(t.value),
            Some(TransactionView::Account(t)) => Some(t.value),
            None => None,
        },
        Err(_) => None,
    }
}

/// What [`convert`] returns for a row.
pub open spec fn convert_spec(line: AvanzaTransactionView, securities: Seq<SecurityView>) -> Result<
    ConversionView,
    ConvertErrorView,
> {
    classify_spec(line, securities, rate_quotient(line), value_product(line))
}

/// A copy of a text that may be absent.
fn clone_text(text: &Option<String>) -> (r: Option<String>)
    ensures
        r == *text,
{
    match text {
        Some(t) => Some(t.clone()),
        None => None,
    }
}

/// A copy of a currency that may be absent.
fn clone_currency(currency: &Option<Currency>) -> (r: Option<Currency>)
    ensures
        r.deep_view() == currency.deep_view(),
{
    match currency {
        Some(c) => Some(c.duplicate()),
        None => None,
    }
}

/// Builds the message for a transfer whose value had to be taken as zero.
fn assumed_zero(date: &String, description: &Option<String>) -> (r: String)
    ensures
        r@ == assumed_zero_message(date@, description.deep_view()),
{
    let mut r = String::from_str("Antar att beloppet \u{e4}r 0 f\u{f6}r ");
    r.append(date.as_str());
    r.append(" ");
    match description {
        Some(d) => {
            r.append(d.as_str());
        },
        None => {
            assert(r@ + Seq::<char>::empty() =~= r@);
        },
    }
    r
}

/// Converts a row once the arithmetic on its numbers is done: `quotient` is
/// the reciprocal of its exchange rate and `product` its quantity times its
/// price, each absent where it could not be formed.
pub fn classify(
    line: AvanzaTransaction,
    y_securities: &Vec<Security>,
    quotient: Option<Decimal>,
    product: Option<Decimal>,
) -> (r: Result<Conversion, ConvertError>)
    ensures
        outcome_view(r) == classify_spec(
            line@,
            y_securities.deep_view(),
            quotient.deep_view(),
            product.deep_view(),
        ),
        r matches Ok(c) ==> c@.transaction is Some && c@.transaction->0.well_formed(),
{
    let ghost secs = y_securities.deep_view();
    let ghost row = line@;
    if line.datum.as_str().unicode_len() == 0 {
        return Err(make_error(line, ConvertErrorKind::MissingDate));
    }
    let mut y_symbol: Option<String> = None;
    let mut listed_name: Option<String> = None;
    if line.isin.is_some() {
        match select_security(y_securities) {
            Some(i) => {
                y_symbol = Some(y_securities[i].symbol.clone());
                listed_name = Some(y_securities[i].name.clone());
            },
            None => {},
        }
    }
    assert(y_symbol.deep_view() == ticker_symbol_for(row, secs));
    let security_name = match clone_text(&line.vardepapper_beskrivning) {
        Some(d) => Some(d),
        None => listed_name,
    };
    assert(security_name.deep_view() == security_name_for(row, secs));
    let avanza_account = prefix_account(line.konto.as_str());
    let transaction_currency = line.transaktionsvaluta.duplicate();
    match line.typ_av_transaktion {
        AvanzaType::Buy | AvanzaType::Sell => {
            let belopp = match line.belopp {
                Some(b) => b,
                None => {
                    return Err(make_error(line, ConvertErrorKind::MissingAmount));
                },
            };
            let exchange_rate = match line.valutakurs {
                Some(_) => match quotient {
                    Some(q) => Some(q.round_dp(EXCHANGE_RATE_DIGITS)),
                    None => {
                        return Err(make_error(line, ConvertErrorKind::InvalidExchangeRate));
                    },
                },
                None => None,
            };
            let shares = match line.antal {
                Some(q) => Some(q.abs()),
                None => None,
            };
            let cash_account = avanza_account.clone();
            Ok(
                Conversion {
                    transaction: Some(
                        Transaction::Portfolio(
                            PortfolioTransaction {
                                date: line.datum,
                                securities_account: Some(avanza_account),
                                cash_account: Some(cash_account),
                                type_: if line.typ_av_transaktion == AvanzaType::Buy {
                                    PortfolioType::Buy
                                } else {
                                    PortfolioType::Sell
                                },
                                value: belopp.neg(),
                                transaction_currency,
                                gross_amount: None,
                                currency_gross_amount: line.instrumentvaluta,
                                exchange_rate,
                                fees: line.courtage,
                                taxes: None,
                                shares,
                                isin: line.isin,
                                wkn: None,
                                ticker_symbol: y_symbol,
                                security_name,
                                note: None,
                            },
                        ),
                    ),
                    log: None,
                },
            )
        },
        AvanzaType::SecurityTransfer => deliver(
            line,
            product,
            avanza_account,
            transaction_currency,
            y_symbol,
            security_name,
            Ghost(secs),
        ),
        AvanzaType::Other => {
            if line.antal.is_some() {
                deliver(
                    line,
                    product,
                    avanza_account,
                    transaction_currency,
                    y_symbol,
                    security_name,
                    Ghost(secs),
                )
            } else {
                let type_ = if outflow(&line.belopp) {
                    AccountType::Removal
                } else {
                    AccountType::Deposit
                };
                move_cash(line, type_, avanza_account, transaction_currency)
            }
        },
        AvanzaType::Deposit => move_cash(
            line,
            AccountType::Deposit,
            avanza_account,
            transaction_currency,
        ),
        AvanzaType::Withdrawal => move_cash(
            line,
            AccountType::Removal,
            avanza_account,
            transaction_currency,
        ),
        AvanzaType::Interest => {
            let type_ = if outflow(&line.belopp) {
                AccountType::InterestCharge
            } else {
                AccountType::Interest
            };
            move_cash(line, type_, avanza_account, transaction_currency)
        },
    }
}

/// Whether an amount is present and not above zero.
fn outflow(belopp: &Option<Decimal>) -> (b: bool)
    ensures
        b == (belopp.deep_view() is Some && belopp.deep_view()->0.mantissa <= 0),
{
    match belopp {
        Some(b) => b.is_zero_or_negative(),
        None => false,
    }
}

/// The error for a row.
fn make_error(line: AvanzaTransaction, kind: ConvertErrorKind) -> (e: ConvertError)
    ensures
        e@ == error_for(line@, kind),
{
    ConvertError {
        kind,
        date: line.datum,
        account: line.konto,
        description: line.vardepapper_beskrivning,
    }
}

/// The delivery for a transfer-like row.
fn deliver(
    line: AvanzaTransaction,
    product: Option<Decimal>,
    avanza_account: String,
    transaction_currency: Currency,
    y_symbol: Option<String>,
    security_name: Option<String>,
    Ghost(secs): Ghost<Seq<SecurityView>>,
) -> (r: Result<Conversion, ConvertError>)
    requires
        line@.datum.len() > 0,
        avanza_account@ == prefix_account_spec(line@.konto),
        transaction_currency@ == line@.transaktionsvaluta,
        Currency::well_formed(transaction_currency@),
        y_symbol.deep_view() == ticker_symbol_for(line@, secs),
        security_name.deep_view() == security_name_for(line@, secs),
    ensures
        outcome_view(r) == transfer_spec(line@, secs, product.deep_view()),
        r matches Ok(c) ==> c@.transaction is Some && c@.transaction->0.well_formed(),
{
    let priced = line.antal.is_some() && line.kurs.is_some();
    let (value, log) = if priced {
        match product {
            Some(p) => (p, None),
            None => {
                return Err(make_error(line, ConvertErrorKind::ValueOutOfRange));
            },
        }
    } else {
        (Decimal::zero(), Some(assumed_zero(&line.datum, &line.vardepapper_beskrivning)))
    };
    let type_ = match line.antal {
        Some(q) => if q.is_negative() {
            PortfolioType::DeliveryOutbound
        } else {
            PortfolioType::DeliveryInbound
        },
        None => PortfolioType::DeliveryInbound,
    };
    let note = clone_text(&line.vardepapper_beskrivning);
    Ok(
        Conversion {
            transaction: Some(
                Transaction::Portfolio(
                    PortfolioTransaction {
                        date: line.datum,
                        securities_account: Some(avanza_account),
                        cash_account: None,
                        type_,
                        value,
                        transaction_currency,
                        gross_amount: None,
                        currency_gross_amount: line.instrumentvaluta,
                        exchange_rate: None,
                        fees: line.courtage,
                        taxes: None,
                        shares: line.antal,
                        isin: line.isin,
                        wkn: None,
                        ticker_symbol: y_symbol,
                        security_name,
                        note,
                    },
                ),
            ),
            log,
        },
    )
}

/// The cash movement for a row.
fn move_cash(
    line: AvanzaTransaction,
    type_: AccountType,
    avanza_account: String,
    transaction_currency: Currency,
) -> (r: Result<Conversion, ConvertError>)
    requires
        line@.datum.len() > 0,
        avanza_account@ == prefix_account_spec(line@.konto),
        transaction_currency@ == line@.transaktionsvaluta,
        Currency::well_formed(transaction_currency@),
    ensures
        outcome_view(r) == cash_spec(line@, type_),
        r matches Ok(c) ==> c@.transaction is Some && c@.transaction->0.well_formed(),
{
    let value = match line.belopp {
        Some(b) => b,
        None => {
            return Err(make_error(line, ConvertErrorKind::MissingAmount));
        },
    };
    Ok(
        Conversion {
            transaction: Some(
                Transaction::Account(
                    AccountTransaction {
                        date: line.datum,
                        cash_account: avanza_account,
                        securities_account: None,
                        type_,
                        value,
                        transaction_currency,
                        note: line.vardepapper_beskrivning,
                    },
                ),
            ),
            log: None,
        },
    )
}

/// Converts one row of the export into its transaction. `y_securities` are
/// the listings found for the security of the row: none where it names no
/// security, or where the lookup found nothing or failed.
pub fn convert(line: AvanzaTransaction, y_securities: &Vec<Security>) -> (r: Result<
    Conversion,
    ConvertError,
>)
    ensures
        outcome_view(r) == convert_spec(line@, y_securities.deep_view()),
        r matches Ok(c) ==> c@.transaction is Some && c@.transaction->0.well_formed(),
        line@.datum.len() > 0 && is_transfer_like(line@) && line@.antal is Some && line@.kurs
            is Some && exact_product(line@.antal->0, line@.kurs->0) is Some ==> value_of(
            outcome_view(r),
        ) == exact_product(line@.antal->0, line@.kurs->0),
        line@.datum.len() > 0 && is_trade(line@) && line@.belopp is Some && line@.valutakurs
            is Some && line@.valutakurs->0.mantissa == 0 ==> outcome_view(r) == Err::<
            ConversionView,
            _,
        >(error_for(line@, ConvertErrorKind::InvalidExchangeRate)),
{
    let quotient = match line.valutakurs {
        Some(v) => Decimal::one().checked_div(v),
        None => None,
    };
    let product = match (line.antal, line.kurs) {
        (Some(q), Some(p)) => q.checked_mul(p),
        _ => None,
    };
    classify(line, y_securities, quotient, product)
}

} // verus!
