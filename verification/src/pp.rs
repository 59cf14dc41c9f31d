//! The transactions that the ledger tool imports, and the bookkeeping of the
//! accounts they name.

use crate::decimal::{Decimal, DecimalView};
use crate::text::same_text;
use crate::types::Currency;
use vstd::prelude::*;
use vstd::string::*;

verus! {

/// One transaction in the form the ledger tool imports.
#[derive(Debug)]
pub enum Transaction {
    Portfolio(PortfolioTransaction),
    Account(AccountTransaction),
}

/// A transaction that moves securities.
#[derive(Debug)]
pub struct PortfolioTransaction {
    pub date: String,
    pub securities_account: Option<String>,
    pub cash_account: Option<String>,
    pub type_: PortfolioType,
    pub value: Decimal,
    pub transaction_currency: Currency,
    pub gross_amount: Option<Decimal>,
    /// The currency of the gross amount.
    pub currency_gross_amount: Option<Currency>,
    pub exchange_rate: Option<Decimal>,
    pub fees: Option<Decimal>,
    pub taxes: Option<Decimal>,
    pub shares: Option<Decimal>,
    pub isin: Option<String>,
    pub wkn: Option<String>,
    pub ticker_symbol: Option<String>,
    pub security_name: Option<String>,
    pub note: Option<String>,
}

#[derive(Clone, Copy, Debug, PartialEq, Eq, Structural)]
pub enum PortfolioType {
    Buy,
    Sell,
    DeliveryInbound,
    DeliveryOutbound,
    TransferInbound,
    TransferOutbound,
}

/// A transaction that moves cash only.
#[derive(Debug)]
pub struct AccountTransaction {
    pub date: String,
    pub cash_account: String,
    pub securities_account: Option<String>,
    pub type_: AccountType,
    pub value: Decimal,
    pub transaction_currency: Currency,
    pub note: Option<String>,
}

#[derive(Clone, Copy, Debug, PartialEq, Eq, Structural)]
pub enum AccountType {
    Buy,
    Deposit,
    Dividend,
    Fees,
    FeesRefund,
    Interest,
    InterestCharge,
    Removal,
    Sell,
    TaxRefund,
    Taxes,
    TransferInbound,
    TransferOutbound,
}

/// A [`PortfolioTransaction`] as plain values.
pub struct PortfolioTransactionView {
    pub date: Seq<char>,
    pub securities_account: Option<Seq<char>>,
    pub cash_account: Option<Seq<char>>,
    pub type_: PortfolioType,
    pub value: DecimalView,
    pub transaction_currency: Seq<char>,
    pub gross_amount: Option<DecimalView>,
    pub currency_gross_amount: Option<Seq<char>>,
    pub exchange_rate: Option<DecimalView>,
    pub fees: Option<DecimalView>,
    pub taxes: Option<DecimalView>,
    pub shares: Option<DecimalView>,
    pub isin: Option<Seq<char>>,
    pub wkn: Option<Seq<char>>,
    pub ticker_symbol: Option<Seq<char>>,
    pub security_name: Option<Seq<char>>,
    pub note: Option<Seq<char>>,
}

/// An [`AccountTransaction`] as plain values.
pub struct AccountTransactionView {
    pub date: Seq<char>,
    pub cash_account: Seq<char>,
    pub securities_account: Option<Seq<char>>,
    pub type_: AccountType,
    pub value: DecimalView,
    pub transaction_currency: Seq<char>,
    pub note: Option<Seq<char>>,
}

/// A [`Transaction`] as plain values.
pub enum TransactionView {
    Portfolio(PortfolioTransactionView),
    Account(AccountTransactionView),
}

impl DeepView for PortfolioTransaction {
    type V = PortfolioTransactionView;

    open spec fn deep_view(&self) -> PortfolioTransactionView {
        PortfolioTransactionView {
            date: self.date@,
            securities_account: self.securities_account.deep_view(),
            cash_account: self.cash_account.deep_view(),
            type_: self.type_,
            value: self.value@,
            transaction_currency: self.transaction_currency@,
            gross_amount: self.gross_amount.deep_view(),
            currency_gross_amount: self.currency_gross_amount.deep_view(),
            exchange_rate: self.exchange_rate.deep_view(),
            fees: self.fees.deep_view(),
            taxes: self.taxes.deep_view(),
            shares: self.shares.deep_view(),
            isin: self.isin.deep_view(),
            wkn: self.wkn.deep_view(),
            ticker_symbol: self.ticker_symbol.deep_view(),
            security_name: self.security_name.deep_view(),
            note: self.note.deep_view(),
        }
    }
}

impl View for PortfolioTransaction {
    type V = PortfolioTransactionView;

    open spec fn view(&self) -> PortfolioTransactionView {
        self.deep_view()
    }
}

impl DeepView for AccountTransaction {
    type V = AccountTransactionView;

    open spec fn deep_view(&self) -> AccountTransactionView {
        AccountTransactionView {
            date: self.date@,
            cash_account: self.cash_account@,
            securities_account: self.securities_account.deep_view(),
            type_: self.type_,
            value: self.value@,
            transaction_currency: self.transaction_currency@,
            note: self.note.deep_view(),
        }
    }
}

impl View for AccountTransaction {
    type V = AccountTransactionView;

    open spec fn view(&self) -> AccountTransactionView {
        self.deep_view()
    }
}

impl DeepView for Transaction {
    type V = TransactionView;

    open spec fn deep_view(&self) -> TransactionView {
        match self {
            Transaction::Portfolio(t) => TransactionView::Portfolio(t@),
            Transaction::Account(t) => TransactionView::Account(t@),
        }
    }
}

impl View for Transaction {
    type V = TransactionView;

    open spec fn view(&self) -> TransactionView {
        self.deep_view()
    }
}

impl TransactionView {
    /// The date of the transaction.
    pub open spec fn date(self) -> Seq<char> {
        match self {
            TransactionView::Portfolio(t) => t.date,
            TransactionView::Account(t) => t.date,
        }
    }

    /// The currency in which the value is given.
    pub open spec fn transaction_currency(self) -> Seq<char> {
        match self {
            TransactionView::Portfolio(t) => t.transaction_currency,
            TransactionView::Account(t) => t.transaction_currency,
        }
    }

    /// What every transaction must carry: a date, and a currency code that
    /// is well formed.
    pub open spec fn well_formed(self) -> bool {
        &&& self.date().len() > 0
        &&& Currency::well_formed(self.transaction_currency())
    }
}

/// The output that a transaction is written to.
#[derive(Clone, Copy, Debug, PartialEq, Eq, Structural)]
pub enum Sink {
    /// The output for transactions that move securities.
    Portfolio,
    /// The output for transactions that move cash only.
    Account,
}

impl TransactionView {
    /// The output that the transaction belongs to.
    pub open spec fn sink(self) -> Sink {
        match self {
            TransactionView::Portfolio(_) => Sink::Portfolio,
            TransactionView::Account(_) => Sink::Account,
        }
    }

    /// The securities account that the transaction names, if any.
    pub open spec fn securities_account(self) -> Option<Seq<char>> {
        match self {
            TransactionView::Portfolio(t) => t.securities_account,
            TransactionView::Account(t) => t.securities_account,
        }
    }

    /// The cash account that the transaction names, if any.
    pub open spec fn cash_account(self) -> Option<Seq<char>> {
        match self {
            TransactionView::Portfolio(t) => t.cash_account,
            TransactionView::Account(t) => Some(t.cash_account),
        }
    }
}

/// A set of account names and one more name, if there is one and it is not
/// empty.
pub open spec fn with_account(accounts: Set<Seq<char>>, account: Option<Seq<char>>) -> Set<
    Seq<char>,
> {
    match account {
        Some(a) => if a.len() > 0 {
            accounts.insert(a)
        } else {
            accounts
        },
        None => accounts,
    }
}

/// The account names seen so far, as sets.
pub struct CsvWriterView {
    pub security_accounts: Set<Seq<char>>,
    pub cash_accounts: Set<Seq<char>>,
}

impl CsvWriterView {
    /// The sets after a transaction was taken.
    pub open spec fn written(self, transaction: TransactionView) -> CsvWriterView {
        CsvWriterView {
            security_accounts: with_account(
                self.security_accounts,
                transaction.securities_account(),
            ),
            cash_accounts: with_account(self.cash_accounts, transaction.cash_account()),
        }
    }
}

/// Sorts transactions into the two outputs and collects the names of the
/// accounts they mention. Writing to the outputs is left to the owner.
pub struct CsvWriter {
    security_accounts: Vec<String>,
    cash_accounts: Vec<String>,
}

impl View for CsvWriter {
    type V = CsvWriterView;

    closed spec fn view(&self) -> CsvWriterView {
        CsvWriterView {
            security_accounts: self.security_accounts.deep_view().to_set(),
            cash_accounts: self.cash_accounts.deep_view().to_set(),
        }
    }
}

/// Adds a name to a list of distinct names, unless it is empty or in the
/// list already.
fn record_account(accounts: &mut Vec<String>, account: &String)
    requires
        old(accounts).deep_view().no_duplicates(),
    ensures
        final(accounts).deep_view().no_duplicates(),
        final(accounts).deep_view().to_set() == with_account(
            old(accounts).deep_view().to_set(),
            Some(account@),
        ),
{
    if account.as_str().unicode_len() == 0 {
        return ;
    }
    let ghost before = accounts.deep_view();
    let mut i: usize = 0;
    while i < accounts.len()
        invariant
            i <= accounts.len(),
            before == accounts.deep_view(),
            before.no_duplicates(),
            forall|j: int| 0 <= j < i ==> before[j] != account@,
        decreases accounts.len() - i,
    {
        if same_text(accounts[i].as_str(), account.as_str()) {
            proof {
                assert(before[i as int] == account@);
                assert(before.to_set().contains(account@));
                assert(before.to_set().insert(account@) =~= before.to_set());
            }
            return ;
        }
        i += 1;
    }
    accounts.push(account.clone());
    proof {
        assert(accounts.deep_view() =~= before.push(account@));
        before.lemma_push_to_set_commute(account@);
    }
}

impl CsvWriter {
    /// What every writer satisfies: no name is held twice.
    pub closed spec fn wf(&self) -> bool {
        &&& self.security_accounts.deep_view().no_duplicates()
        &&& self.cash_accounts.deep_view().no_duplicates()
    }

    #[verifier::type_invariant]
    spec fn inv(self) -> bool {
        self.wf()
    }

    /// A writer that has seen no transaction.
    pub fn new() -> (r: CsvWriter)
        ensures
            r.wf(),
            r@ == (CsvWriterView { security_accounts: Set::empty(), cash_accounts: Set::empty() }),
    {
        let r = CsvWriter { security_accounts: Vec::new(), cash_accounts: Vec::new() };
        proof {
            assert(r.security_accounts.deep_view().to_set() =~= Set::<Seq<char>>::empty());
            assert(r.cash_accounts.deep_view().to_set() =~= Set::<Seq<char>>::empty());
        }
        r
    }

    /// Takes a transaction: says which output it is to be written to, and
    /// keeps the names of the accounts it mentions.
    pub fn write(&mut self, transaction: &Transaction) -> (sink: Sink)
        ensures
            final(self).wf(),
            sink == transaction@.sink(),
            final(self)@ == old(self)@.written(transaction@),
    {
        proof {
            use_type_invariant(&*self);
        }
        let mut security_accounts: Vec<String> = Vec::new();
        let mut cash_accounts: Vec<String> = Vec::new();
        core::mem::swap(&mut self.security_accounts, &mut security_accounts);
        core::mem::swap(&mut self.cash_accounts, &mut cash_accounts);
        let sink = match transaction {
            Transaction::Portfolio(t) => {
                if let Some(security_account) = &t.securities_account {
                    record_account(&mut security_accounts, security_account);
                }
                if let Some(cash_account) = &t.cash_account {
                    record_account(&mut cash_accounts, cash_account);
                }
                Sink::Portfolio
            },
            Transaction::Account(t) => {
                if let Some(security_account) = &t.securities_account {
                    record_account(&mut security_accounts, security_account);
                }
                record_account(&mut cash_accounts, &t.cash_account);
                Sink::Account
            },
        };
        core::mem::swap(&mut self.security_accounts, &mut security_accounts);
        core::mem::swap(&mut self.cash_accounts, &mut cash_accounts);
        sink
    }

    /// The names of all securities accounts seen, each once.
    pub fn security_accounts(&self) -> (r: &Vec<String>)
        ensures
            r.deep_view().no_duplicates(),
            r.deep_view().to_set() == self@.security_accounts,
    {
        proof {
            use_type_invariant(self);
        }
        &self.security_accounts
    }

    /// The names of all cash accounts seen, each once.
    pub fn cash_accounts(&self) -> (r: &Vec<String>)
        ensures
            r.deep_view().no_duplicates(),
            r.deep_view().to_set() == self@.cash_accounts,
    {
        proof {
            use_type_invariant(self);
        }
        &self.cash_accounts
    }
}

/// The accounts seen are sets: a transaction adds the accounts it names and
/// takes none away, taking it a second time adds nothing, and the order in
/// which two transactions are taken makes no difference.
pub proof fn lemma_accounts_are_sets(
    state: CsvWriterView,
    first: TransactionView,
    second: TransactionView,
)
    ensures
        state.security_accounts.subset_of(state.written(first).security_accounts),
        state.cash_accounts.subset_of(state.written(first).cash_accounts),
        state.written(first).written(first) == state.written(first),
        state.written(first).written(second) == state.written(second).written(first),
{
    let once = state.written(first);
    assert(once.written(first).security_accounts =~= once.security_accounts);
    assert(once.written(first).cash_accounts =~= once.cash_accounts);
    let one_way = once.written(second);
    let other_way = state.written(second).written(first);
    assert(one_way.security_accounts =~= other_way.security_accounts);
    assert(one_way.cash_accounts =~= other_way.cash_accounts);
}

} // verus!
