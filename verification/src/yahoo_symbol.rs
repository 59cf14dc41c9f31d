//! Ticker symbols for security identifiers, cached for a number of days.

use crate::text::{decimal_digits, number_text, same_text};
use vstd::prelude::*;
use vstd::string::*;

verus! {

/// One listing of a security at an exchange.
#[derive(Debug)]
pub struct Security {
    pub symbol: String,
    pub exchange: String,
    /// The name is often messy. Only use it as a fallback.
    pub name: String,
}

/// A [`Security`] as plain values.
pub struct SecurityView {
    pub symbol: Seq<char>,
    pub exchange: Seq<char>,
    pub name: Seq<char>,
}

impl DeepView for Security {
    type V = SecurityView;

    open spec fn deep_view(&self) -> SecurityView {
        SecurityView { symbol: self.symbol@, exchange: self.exchange@, name: self.name@ }
    }
}

impl View for Security {
    type V = SecurityView;

    open spec fn view(&self) -> SecurityView {
        self.deep_view()
    }
}

/// How long a lookup stays usable: five days, in milliseconds.
pub const CACHE_TTL_MILLIS: i64 = 432_000_000;

/// The least time between the end of one fetch and the start of the next,
/// in milliseconds.
pub const MIN_FETCH_INTERVAL_MILLIS: u64 = 500;

/// What was found for one identifier, and when.
#[derive(Debug)]
pub struct IsinLookup {
    pub isin: String,
    pub securities: Vec<Security>,
    /// Milliseconds since the Unix epoch.
    pub updated_at: i64,
}

/// An [`IsinLookup`] as plain values.
pub struct IsinLookupView {
    pub isin: Seq<char>,
    pub securities: Seq<SecurityView>,
    pub updated_at: int,
}

impl DeepView for IsinLookup {
    type V = IsinLookupView;

    open spec fn deep_view(&self) -> IsinLookupView {
        IsinLookupView {
            isin: self.isin@,
            securities: self.securities.deep_view(),
            updated_at: self.updated_at as int,
        }
    }
}

impl View for IsinLookup {
    type V = IsinLookupView;

    open spec fn view(&self) -> IsinLookupView {
        self.deep_view()
    }
}

/// Whether no identifier occurs twice in a list of lookups.
pub open spec fn distinct_isins(lookups: Seq<IsinLookupView>) -> bool {
    forall|i: int, j: int|
        0 <= i < j < lookups.len() ==> (#[trigger] lookups[i]).isin != (#[trigger] lookups[j]).isin
}

/// Whether a list of lookups holds one for the identifier.
pub open spec fn holds_isin(lookups: Seq<IsinLookupView>, isin: Seq<char>) -> bool {
    exists|i: int| 0 <= i < lookups.len() && (#[trigger] lookups[i]).isin == isin
}

/// The lookups of a list by their identifiers.
pub open spec fn lookups_by_isin(lookups: Seq<IsinLookupView>) -> Map<Seq<char>, IsinLookupView> {
    Map::new(
        |isin: Seq<char>| holds_isin(lookups, isin),
        |isin: Seq<char>|
            lookups[choose|i: int| 0 <= i < lookups.len() && (#[trigger] lookups[i]).isin == isin],
    )
}

/// The state of the symbol cache as plain values.
pub struct YahooView {
    /// The lookups held, by identifier.
    pub entries: Map<Seq<char>, IsinLookupView>,
    /// Whether a lookup was stored since the cache was last saved.
    pub dirty: bool,
    /// When the last fetch ended, on the clock of the rate limit.
    pub last_fetch: Option<nat>,
    /// Whether a fetch is under way.
    pub fetching: bool,
}

impl YahooView {
    /// Whether a lookup for the identifier is held and younger than the
    /// time a lookup stays usable.
    pub open spec fn is_fresh(self, isin: Seq<char>, now: int) -> bool {
        self.entries.contains_key(isin) && now - self.entries[isin].updated_at < CACHE_TTL_MILLIS
    }

    /// Whether a fetch may start at `now`, or how long to wait.
    pub open spec fn slot(self, now: nat) -> FetchSlot {
        if self.fetching {
            FetchSlot::Busy
        } else {
            match self.last_fetch {
                Some(last) if now < last + MIN_FETCH_INTERVAL_MILLIS => FetchSlot::Wait(
                    if now < last {
                        MIN_FETCH_INTERVAL_MILLIS
                    } else {
                        (last + MIN_FETCH_INTERVAL_MILLIS - now) as u64
                    },
                ),
                _ => FetchSlot::Open,
            }
        }
    }
}

/// The answer to a request to start a fetch.
#[derive(Clone, Copy, Debug, PartialEq, Eq, Structural)]
pub enum FetchSlot {
    /// The fetch may start now; the slot is taken until it is reported done.
    Open,
    /// The last fetch ended too recently: ask again after so many
    /// milliseconds.
    Wait(u64),
    /// Another fetch is under way.
    Busy,
}

/// Why a list of lookups cannot be loaded.
#[derive(Clone, Copy, Debug, PartialEq, Eq, Structural)]
pub enum CacheError {
    /// An identifier occurs twice.
    DuplicateIsin,
}

/// Looks up ticker symbols, and keeps what was found for a number of days.
///
/// The cache decides; its owner fetches. A lookup that is held and young
/// enough is answered from the cache. For any other the owner asks for the
/// slot, fetches once it has it, and reports what came back.
/// [`Self::save_cache()`] hands out what to store before the cache is let go.
pub struct Yahoo {
    cache: Vec<IsinLookup>,
    cache_is_dirty: bool,
    /// For rate limiting
    last_fetch: Option<u64>,
    fetching: bool,
}

impl View for Yahoo {
    type V = YahooView;

    closed spec fn view(&self) -> YahooView {
        YahooView {
            entries: lookups_by_isin(self.cache.deep_view()),
            dirty: self.cache_is_dirty,
            last_fetch: match self.last_fetch {
                Some(t) => Some(t as nat),
                None => None,
            },
            fetching: self.fetching,
        }
    }
}

impl Yahoo {
    /// The lookups held, in the order in which they are stored.
    pub closed spec fn lookups(&self) -> Seq<IsinLookupView> {
        self.cache.deep_view()
    }

    /// What every cache satisfies: no identifier is held twice.
    pub closed spec fn wf(&self) -> bool {
        distinct_isins(self.cache.deep_view())
    }

    #[verifier::type_invariant]
    spec fn inv(self) -> bool {
        self.wf()
    }

    /// The place of the lookup for an identifier.
    fn position(&self, isin: &str) -> (r: Option<usize>)
        ensures
            match r {
                Some(i) => i < self.cache.len() && self.cache[i as int].isin@ == isin@,
                None => !holds_isin(self.cache.deep_view(), isin@),
            },
    {
        let mut i: usize = 0;
        while i < self.cache.len()
            invariant
                i <= self.cache.len(),
                forall|j: int| 0 <= j < i ==> self.cache[j].isin@ != isin@,
            decreases self.cache.len() - i,
        {
            if same_text(self.cache[i].isin.as_str(), isin) {
                return Some(i);
            }
            i += 1;
        }
        proof {
            let view = self.cache.deep_view();
            assert forall|j: int| 0 <= j < view.len() implies (#[trigger] view[j]).isin != isin@ by {
                assert(self.cache[j].isin@ != isin@);
            }
        }
        None
    }
}

impl Yahoo {
    /// A cache that holds the given lookups, as they were stored earlier.
    /// A list in which an identifier occurs twice is refused.
    pub fn new(lookups: Vec<IsinLookup>) -> (r: Result<Yahoo, CacheError>)
        ensures
            match r {
                Ok(y) => {
                    &&& distinct_isins(lookups.deep_view())
                    &&& y.wf()
                    &&& y.lookups() == lookups.deep_view()
                    &&& y@ == (YahooView {
                        entries: lookups_by_isin(lookups.deep_view()),
                        dirty: false,
                        last_fetch: None,
                        fetching: false,
                    })
                },
                Err(e) => e == CacheError::DuplicateIsin && !distinct_isins(lookups.deep_view()),
            },
    {
        let ghost view = lookups.deep_view();
        let n = lookups.len();
        let mut j: usize = 0;
        while j < n
            invariant
                j <= n,
                n == lookups.len(),
                view == lookups.deep_view(),
                forall|a: int, b: int|
                    0 <= a < b < j ==> (#[trigger] view[a]).isin != (#[trigger] view[b]).isin,
            decreases n - j,
        {
            let mut i: usize = 0;
            while i < j
                invariant
                    i <= j < n,
                    n == lookups.len(),
                    view == lookups.deep_view(),
                    forall|a: int| 0 <= a < i ==> (#[trigger] view[a]).isin != view[j as int].isin,
                decreases j - i,
            {
                if same_text(lookups[i].isin.as_str(), lookups[j].isin.as_str()) {
                    proof {
                        assert(view[i as int].isin == view[j as int].isin);
                    }
                    return Err(CacheError::DuplicateIsin);
                }
                i += 1;
            }
            j += 1;
        }
        Ok(Yahoo { cache: lookups, cache_is_dirty: false, last_fetch: None, fetching: false })
    }

    /// The symbols for an identifier, where the cache holds a lookup for it
    /// that is younger than five days at `now` (milliseconds since the Unix
    /// epoch). Any other identifier has to be fetched. The list is empty
    /// where the fetch found no symbol.
    pub fn isin_to_symbols_at(&self, isin: &str, now: i64) -> (r: Option<&Vec<Security>>)
        ensures
            r is Some <==> self@.is_fresh(isin@, now as int),
            r matches Some(list) ==> list.deep_view() == self@.entries[isin@].securities,
    {
        proof {
            use_type_invariant(self);
        }
        match self.position(isin) {
            Some(i) => {
                proof {
                    lemma_lookup_at(self.cache.deep_view(), i as int);
                }
                let lookup = &self.cache[i];
                if (now as i128) - (lookup.updated_at as i128) < (CACHE_TTL_MILLIS as i128) {
                    Some(&lookup.securities)
                } else {
                    None
                }
            },
            None => None,
        }
    }

    /// Asks to start a fetch at `now`, in milliseconds on a clock that
    /// never runs backwards. There is one slot for fetches, and it is not
    /// given out before half a second has passed since the last fetch ended.
    pub fn rate_limit_fetch(&mut self, now: u64) -> (slot: FetchSlot)
        ensures
            final(self).wf(),
            slot == old(self)@.slot(now as nat),
            final(self)@ == (YahooView { fetching: old(self)@.fetching || slot is Open, ..old(self)@ }),
    {
        proof {
            use_type_invariant(&*self);
        }
        if self.fetching {
            return FetchSlot::Busy;
        }
        match self.last_fetch {
            Some(last) => {
                if now < last {
                    return FetchSlot::Wait(MIN_FETCH_INTERVAL_MILLIS);
                }
                let passed = now - last;
                if passed < MIN_FETCH_INTERVAL_MILLIS {
                    return FetchSlot::Wait(MIN_FETCH_INTERVAL_MILLIS - passed);
                }
            },
            None => {},
        }
        self.fetching = true;
        FetchSlot::Open
    }

    /// Whether a lookup was stored since the cache was last saved.
    pub fn is_dirty(&self) -> (b: bool)
        ensures
            b == self@.dirty,
    {
        self.cache_is_dirty
    }
}

/// The later of two times.
pub open spec fn later(a: int, b: int) -> int {
    if a > b {
        a
    } else {
        b
    }
}

impl YahooView {
    /// The time to keep with a lookup stored at `updated_at`: that time,
    /// but never one before the time of the lookup it replaces.
    pub open spec fn stamp_for(self, isin: Seq<char>, updated_at: int) -> int {
        if self.entries.contains_key(isin) {
            later(self.entries[isin].updated_at, updated_at)
        } else {
            updated_at
        }
    }

    /// The state after a fetch for `isin` ended at `now` and found
    /// `securities`.
    pub open spec fn stored(
        self,
        isin: Seq<char>,
        securities: Seq<SecurityView>,
        updated_at: int,
        now: nat,
    ) -> YahooView {
        YahooView {
            entries: self.entries.insert(
                isin,
                IsinLookupView { isin, securities, updated_at: self.stamp_for(isin, updated_at) },
            ),
            dirty: true,
            last_fetch: Some(now),
            fetching: false,
        }
    }

    /// The state after a fetch ended at `now` without a result.
    pub open spec fn failed(self, now: nat) -> YahooView {
        YahooView { last_fetch: Some(now), fetching: false, ..self }
    }
}

impl Yahoo {
    /// Reports that the fetch for an identifier ended at `now` and found
    /// `securities`, none where nothing matches. The lookup is stored with
    /// the time `updated_at` (milliseconds since the Unix epoch) in place of
    /// any earlier one for the identifier, and the slot is free again.
    pub fn store_at(&mut self, isin: &str, securities: Vec<Security>, updated_at: i64, now: u64)
        ensures
            final(self).wf(),
            final(self)@ == old(self)@.stored(
                isin@,
                securities.deep_view(),
                updated_at as int,
                now as nat,
            ),
    {
        proof {
            use_type_invariant(&*self);
        }
        let place = self.position(isin);
        let stamp = match place {
            Some(i) => if self.cache[i].updated_at > updated_at {
                self.cache[i].updated_at
            } else {
                updated_at
            },
            None => updated_at,
        };
        proof {
            if let Some(i) = place {
                lemma_lookup_at(self.cache.deep_view(), i as int);
            }
        }
        let lookup = IsinLookup { isin: String::from_str(isin), securities, updated_at: stamp };
        let mut cache: Vec<IsinLookup> = Vec::new();
        core::mem::swap(&mut self.cache, &mut cache);
        put_lookup(&mut cache, place, lookup);
        core::mem::swap(&mut self.cache, &mut cache);
        self.cache_is_dirty = true;
        self.last_fetch = Some(now);
        self.fetching = false;
    }

    /// Reports that a fetch ended at `now` without a result. The lookups
    /// held stay as they are, and the slot is free again.
    pub fn fetch_failed(&mut self, now: u64)
        ensures
            final(self).wf(),
            final(self)@ == old(self)@.failed(now as nat),
    {
        proof {
            use_type_invariant(&*self);
        }
        self.last_fetch = Some(now);
        self.fetching = false;
    }

    /// Hands out the lookups to store, and takes them as saved.
    pub fn save_cache(&mut self) -> (r: &Vec<IsinLookup>)
        ensures
            final(self).wf(),
            final(self)@ == (YahooView { dirty: false, ..old(self)@ }),
            r.deep_view() == old(self).lookups(),
            final(self).lookups() == old(self).lookups(),
    {
        proof {
            use_type_invariant(&*self);
        }
        self.cache_is_dirty = false;
        &self.cache
    }
}

/// Puts a lookup into a list without repeated identifiers: at the place of
/// the lookup with the same identifier, or at the end where there is none.
fn put_lookup(cache: &mut Vec<IsinLookup>, place: Option<usize>, lookup: IsinLookup)
    requires
        distinct_isins(old(cache).deep_view()),
        match place {
            Some(i) => i < old(cache).len() && old(cache)[i as int].isin@ == lookup.isin@,
            None => !holds_isin(old(cache).deep_view(), lookup.isin@),
        },
    ensures
        distinct_isins(final(cache).deep_view()),
        lookups_by_isin(final(cache).deep_view()) == lookups_by_isin(
            old(cache).deep_view(),
        ).insert(lookup.isin@, lookup@),
{
    let ghost before = cache.deep_view();
    match place {
        Some(i) => {
            proof {
                lemma_replace_lookup(before, i as int, lookup@);
            }
            cache.set(i, lookup);
            assert(cache.deep_view() =~= before.update(i as int, lookup@));
        },
        None => {
            proof {
                lemma_add_lookup(before, lookup@);
            }
            cache.push(lookup);
            assert(cache.deep_view() =~= before.push(lookup@));
        },
    }
}

/// Putting a lookup in the place of one with the same identifier changes
/// the lookup found by that identifier and no other.
pub proof fn lemma_replace_lookup(lookups: Seq<IsinLookupView>, i: int, lookup: IsinLookupView)
    requires
        distinct_isins(lookups),
        0 <= i < lookups.len(),
        lookup.isin == lookups[i].isin,
    ensures
        distinct_isins(lookups.update(i, lookup)),
        lookups_by_isin(lookups.update(i, lookup)) == lookups_by_isin(lookups).insert(
            lookup.isin,
            lookup,
        ),
{
    let changed = lookups.update(i, lookup);
    assert(distinct_isins(changed)) by {
        assert forall|a: int, b: int| 0 <= a < b < changed.len() implies (#[trigger] changed[a]).isin
            != (#[trigger] changed[b]).isin by {
            assert(lookups[a].isin != lookups[b].isin);
        }
    }
    let left = lookups_by_isin(changed);
    let right = lookups_by_isin(lookups).insert(lookup.isin, lookup);
    assert forall|isin: Seq<char>| left.contains_key(isin) <==> right.contains_key(isin) by {
        if holds_isin(changed, isin) {
            let k = choose|k: int| 0 <= k < changed.len() && (#[trigger] changed[k]).isin == isin;
            assert(lookups[k].isin == isin);
        }
        if holds_isin(lookups, isin) {
            let k = choose|k: int| 0 <= k < lookups.len() && (#[trigger] lookups[k]).isin == isin;
            assert(changed[k].isin == isin);
        }
        if isin == lookup.isin {
            assert(changed[i].isin == isin);
        }
    }
    assert forall|isin: Seq<char>| left.contains_key(isin) implies left[isin] == right[isin] by {
        let k = choose|k: int| 0 <= k < changed.len() && (#[trigger] changed[k]).isin == isin;
        lemma_lookup_at(changed, k);
        if k != i {
            assert(lookups[k] == changed[k]);
            lemma_lookup_at(lookups, k);
            assert(lookups[k].isin != lookups[i].isin) by {
                if k < i {
                    assert(lookups[k].isin != lookups[i].isin);
                } else {
                    assert(lookups[i].isin != lookups[k].isin);
                }
            }
        }
    }
    assert(left =~= right);
}

/// Adding a lookup for an identifier that is not held yet adds the lookup
/// found by that identifier and changes no other.
pub proof fn lemma_add_lookup(lookups: Seq<IsinLookupView>, lookup: IsinLookupView)
    requires
        distinct_isins(lookups),
        !holds_isin(lookups, lookup.isin),
    ensures
        distinct_isins(lookups.push(lookup)),
        lookups_by_isin(lookups.push(lookup)) == lookups_by_isin(lookups).insert(
            lookup.isin,
            lookup,
        ),
{
    let grown = lookups.push(lookup);
    let n = lookups.len() as int;
    assert(distinct_isins(grown)) by {
        assert forall|a: int, b: int| 0 <= a < b < grown.len() implies (#[trigger] grown[a]).isin
            != (#[trigger] grown[b]).isin by {
            if b < n {
                assert(lookups[a].isin != lookups[b].isin);
            } else {
                assert(lookups[a].isin != lookup.isin);
            }
        }
    }
    let left = lookups_by_isin(grown);
    let right = lookups_by_isin(lookups).insert(lookup.isin, lookup);
    assert forall|isin: Seq<char>| left.contains_key(isin) <==> right.contains_key(isin) by {
        if holds_isin(grown, isin) {
            let k = choose|k: int| 0 <= k < grown.len() && (#[trigger] grown[k]).isin == isin;
            if k < n {
                assert(lookups[k].isin == isin);
            }
        }
        if holds_isin(lookups, isin) {
            let k = choose|k: int| 0 <= k < lookups.len() && (#[trigger] lookups[k]).isin == isin;
            assert(grown[k].isin == isin);
        }
        if isin == lookup.isin {
            assert(grown[n].isin == isin);
        }
    }
    assert forall|isin: Seq<char>| left.contains_key(isin) implies left[isin] == right[isin] by {
        let k = choose|k: int| 0 <= k < grown.len() && (#[trigger] grown[k]).isin == isin;
        lemma_lookup_at(grown, k);
        if k < n {
            assert(lookups[k] == grown[k]);
            lemma_lookup_at(lookups, k);
        }
    }
    assert(left =~= right);
}

/// In a list without repeated identifiers, the lookup at a place is the one
/// found by its identifier.
pub proof fn lemma_lookup_at(lookups: Seq<IsinLookupView>, i: int)
    requires
        distinct_isins(lookups),
        0 <= i < lookups.len(),
    ensures
        lookups_by_isin(lookups).contains_key(lookups[i].isin),
        lookups_by_isin(lookups)[lookups[i].isin] == lookups[i],
{
    let isin = lookups[i].isin;
    assert(holds_isin(lookups, isin));
    let k = choose|k: int| 0 <= k < lookups.len() && (#[trigger] lookups[k]).isin == isin;
    if k < i {
        assert(lookups[k].isin != lookups[i].isin);
    } else if i < k {
        assert(lookups[i].isin != lookups[k].isin);
    }
}

/// One match in the answer of the search service.
#[derive(Debug)]
pub struct YahooQuote {
    /// Often cut off or has `"` at the end
    pub shortname: String,
    pub exchange: String,
    pub symbol: String,
}

/// A [`YahooQuote`] as plain values.
pub struct YahooQuoteView {
    pub shortname: Seq<char>,
    pub exchange: Seq<char>,
    pub symbol: Seq<char>,
}

impl DeepView for YahooQuote {
    type V = YahooQuoteView;

    open spec fn deep_view(&self) -> YahooQuoteView {
        YahooQuoteView { shortname: self.shortname@, exchange: self.exchange@, symbol: self.symbol@ }
    }
}

impl View for YahooQuote {
    type V = YahooQuoteView;

    open spec fn view(&self) -> YahooQuoteView {
        self.deep_view()
    }
}

/// The listing that a match stands for.
pub open spec fn security_of(quote: YahooQuoteView) -> SecurityView {
    SecurityView { symbol: quote.symbol, exchange: quote.exchange, name: quote.shortname }
}

/// Turns the matches of an answer into listings, in the same order.
pub fn securities_from_quotes(quotes: &Vec<YahooQuote>) -> (r: Vec<Security>)
    ensures
        r.deep_view() == quotes.deep_view().map_values(|q: YahooQuoteView| security_of(q)),
{
    let mut r: Vec<Security> = Vec::new();
    let mut i: usize = 0;
    while i < quotes.len()
        invariant
            i <= quotes.len(),
            r.len() == i,
            forall|j: int|
                0 <= j < i ==> (#[trigger] r@[j]).deep_view() == security_of(
                    quotes@[j].deep_view(),
                ),
        decreases quotes.len() - i,
    {
        let q = &quotes[i];
        r.push(
            Security {
                symbol: q.symbol.clone(),
                exchange: q.exchange.clone(),
                name: q.shortname.clone(),
            },
        );
        i += 1;
    }
    proof {
        let mapped = quotes.deep_view().map_values(|q: YahooQuoteView| security_of(q));
        assert(r.deep_view().len() == mapped.len());
        assert forall|j: int| 0 <= j < mapped.len() implies r.deep_view()[j] == mapped[j] by {
            assert(r@[j].deep_view() == security_of(quotes@[j].deep_view()));
        }
        assert(r.deep_view() =~= mapped);
    }
    r
}

/// The address to ask for the listings of an identifier.
pub open spec fn search_url_spec(isin: Seq<char>) -> Seq<char> {
    "https://query2.finance.yahoo.com/v1/finance/search?q="@ + isin
        + "&lang=en-US&region=US&quotesCount=6&newsCount=3&listsCount=2&enableFuzzyQuery=false&quotesQueryId=tss_match_phrase_query&multiQuoteQueryId=multi_quote_single_token_query&newsQueryId=news_cie_vespa&enableCb=false&enableNavLinks=true&enableEnhancedTrivialQuery=true&enableResearchReports=true&enableCulturalAssets=true&enableLogoUrl=true&enableLists=false&recommendCount=5&enablePrivateCompany=true"@
}

/// Builds the address to ask for the listings of an identifier.
pub fn search_url(isin: &str) -> (r: String)
    ensures
        r@ == search_url_spec(isin@),
{
    let mut r = String::from_str("https://query2.finance.yahoo.com/v1/finance/search?q=");
    r.append(isin);
    r.append(
        "&lang=en-US&region=US&quotesCount=6&newsCount=3&listsCount=2&enableFuzzyQuery=false&quotesQueryId=tss_match_phrase_query&multiQuoteQueryId=multi_quote_single_token_query&newsQueryId=news_cie_vespa&enableCb=false&enableNavLinks=true&enableEnhancedTrivialQuery=true&enableResearchReports=true&enableCulturalAssets=true&enableLogoUrl=true&enableLists=false&recommendCount=5&enablePrivateCompany=true",
    );
    r
}

/// The least number that a request is tagged with.
pub const MIN_AGENT_TAG: u32 = 100000;

/// The greatest number that a request is tagged with.
pub const MAX_AGENT_TAG: u32 = 999999;

/// The name that a request tagged with a number gives as its sender.
pub open spec fn user_agent_spec(tag: nat) -> Seq<char> {
    "Mozilla/5.0 ("@ + decimal_digits(tag) + ")"@
}

/// Builds the name that a request tagged with a number gives as its sender.
pub fn user_agent(tag: u32) -> (r: String)
    ensures
        r@ == user_agent_spec(tag as nat),
{
    let mut r = String::from_str("Mozilla/5.0 (");
    let digits = number_text(tag);
    r.append(digits.as_str());
    r.append(")");
    r
}

/// `rand::Rng::random_range` on the generator of the thread, `rand::rng`.
/// The contract claims what holds of every draw: the number is within the
/// bounds, both included. It panics where the machine has no randomness to
/// seed the generator with.
#[verifier::external_body]
fn random_between(low: u32, high: u32) -> (r: u32)
    requires
        low <= high,
    ensures
        low <= r <= high,
{
    rand::Rng::random_range(&mut rand::rng(), low..=high)
}

/// The name that the next request gives as its sender: tagged with a number
/// drawn at random.
pub fn random_user_agent() -> (r: String)
    ensures
        exists|tag: nat|
            MIN_AGENT_TAG <= tag <= MAX_AGENT_TAG && r@ == #[trigger] user_agent_spec(tag),
{
    let tag = random_between(MIN_AGENT_TAG, MAX_AGENT_TAG);
    let r = user_agent(tag);
    assert(r@ == user_agent_spec(tag as nat));
    r
}

/// The message that tells that an identifier is being fetched.
pub open spec fn fetch_notice_spec(isin: Seq<char>) -> Seq<char> {
    "H\u{e4}mtar symbol for "@ + isin + " fr\u{e5}n Yahoo Finance:"@
}

/// Builds the message that tells that an identifier is being fetched.
pub fn fetch_notice(isin: &str) -> (r: String)
    ensures
        r@ == fetch_notice_spec(isin@),
{
    let mut r = String::from_str("H\u{e4}mtar symbol for ");
    r.append(isin);
    r.append(" fr\u{e5}n Yahoo Finance:");
    r
}

/// The symbols of a list of listings, with a comma and a blank between one
/// and the next.
pub open spec fn joined_symbols(securities: Seq<SecurityView>) -> Seq<char>
    decreases securities.len(),
{
    if securities.len() == 0 {
        Seq::empty()
    } else if securities.len() == 1 {
        securities[0].symbol
    } else {
        joined_symbols(securities.drop_last()) + ", "@ + securities.last().symbol
    }
}

/// The message that tells what a fetch found.
pub open spec fn result_notice_spec(securities: Seq<SecurityView>) -> Seq<char> {
    if securities.len() == 0 {
        "Ingen tr\u{e4}ff"@
    } else {
        joined_symbols(securities)
    }
}

/// Builds the message that tells what a fetch found: the symbols, or that
/// there was no match.
pub fn result_notice(securities: &Vec<Security>) -> (r: String)
    ensures
        r@ == result_notice_spec(securities.deep_view()),
{
    if securities.len() == 0 {
        return String::from_str("Ingen tr\u{e4}ff");
    }
    let ghost view = securities.deep_view();
    let mut r = securities[0].symbol.clone();
    let mut i: usize = 1;
    proof {
        assert(view.subrange(0, 1).len() == 1);
    }
    while i < securities.len()
        invariant
            1 <= i <= securities.len(),
            view == securities.deep_view(),
            r@ == joined_symbols(view.subrange(0, i as int)),
        decreases securities.len() - i,
    {
        r.append(", ");
        r.append(securities[i].symbol.as_str());
        proof {
            let next = view.subrange(0, i + 1);
            assert(next.drop_last() =~= view.subrange(0, i as int));
            assert(next.last().symbol == securities[i as int].symbol@);
        }
        i += 1;
    }
    proof {
        assert(view.subrange(0, i as int) =~= view);
    }
    r
}

/// `chrono::Utc::now`, as milliseconds since the Unix epoch. Nothing is
/// claimed of the time that it reads. It panics where the clock of the
/// machine stands before 1970.
#[verifier::external_body]
fn utc_now_millis() -> i64 {
    chrono::Utc::now().timestamp_millis()
}

impl Yahoo {
    /// The symbols for an identifier, where the cache holds a lookup for it
    /// that is younger than five days at the time of the call. See
    /// [`Self::isin_to_symbols_at`].
    pub fn isin_to_symbols(&self, isin: &str) -> (r: Option<&Vec<Security>>)
        ensures
            exists|now: int| (r is Some <==> #[trigger] self@.is_fresh(isin@, now)),
            r matches Some(list) ==> self@.entries.contains_key(isin@) && list.deep_view()
                == self@.entries[isin@].securities,
    {
        let now = utc_now_millis();
        let r = self.isin_to_symbols_at(isin, now);
        assert(r is Some <==> self@.is_fresh(isin@, now as int));
        r
    }

    /// Reports that the fetch for an identifier ended at `now` and found
    /// `securities`, and stores the lookup with the time of the call. See
    /// [`Self::store_at`].
    pub fn store(&mut self, isin: &str, securities: Vec<Security>, now: u64)
        ensures
            final(self).wf(),
            exists|updated_at: int| final(self)@ == #[trigger] old(self)@.stored(
                isin@,
                securities.deep_view(),
                updated_at,
                now as nat,
            ),
    {
        let updated_at = utc_now_millis();
        let ghost list = securities.deep_view();
        self.store_at(isin, securities, updated_at, now);
        assert(self@ == old(self)@.stored(isin@, list, updated_at as int, now as nat));
    }
}

/// A lookup that was stored answers every request made before it is five
/// days old, each time with the list that was stored: a second request in
/// that time finds what the first found, and neither calls for a fetch.
pub proof fn lemma_resolve_is_idempotent(
    state: YahooView,
    isin: Seq<char>,
    securities: Seq<SecurityView>,
    updated_at: int,
    ended: nat,
    first: int,
    second: int,
)
    requires
        first - updated_at < CACHE_TTL_MILLIS,
        second - updated_at < CACHE_TTL_MILLIS,
    ensures
        ({
            let after = state.stored(isin, securities, updated_at, ended);
            &&& after.is_fresh(isin, first)
            &&& after.is_fresh(isin, second)
            &&& after.entries[isin].securities == securities
        }),
{
}

/// A lookup that is five days old or older does not answer a request: the
/// identifier is fetched again although the cache holds it.
pub proof fn lemma_stale_lookup_is_fetched_again(state: YahooView, isin: Seq<char>, now: int)
    requires
        state.entries.contains_key(isin),
        now - state.entries[isin].updated_at >= CACHE_TTL_MILLIS,
    ensures
        !state.is_fresh(isin, now),
{
}

/// After a fetch has ended, the slot is given to the next one no sooner
/// than half a second later. Until then the answer says how long to wait:
/// never past that time, and exactly up to it on a clock that has not run
/// backwards.
pub proof fn lemma_fetches_are_spaced(state: YahooView, ended: nat, now: nat)
    requires
        state.last_fetch == Some(ended),
    ensures
        state.slot(now) is Open <==> !state.fetching && now - ended >= MIN_FETCH_INTERVAL_MILLIS,
        state.slot(now) matches FetchSlot::Wait(wait) ==> now + wait <= ended
            + MIN_FETCH_INTERVAL_MILLIS,
        state.slot(now) matches FetchSlot::Wait(wait) ==> ended <= now ==> now + wait == ended
            + MIN_FETCH_INTERVAL_MILLIS,
{
}

/// Two fetches in a row start at least half a second apart: where one
/// started at `first`, ended at `ended` with or without a result, and the
/// slot is given out again at `second`, `second` is half a second or more
/// after `first`.
pub proof fn lemma_consecutive_fetches_are_apart(
    state: YahooView,
    first: nat,
    ended: nat,
    second: nat,
    isin: Seq<char>,
    securities: Seq<SecurityView>,
    updated_at: int,
)
    requires
        state.slot(first) is Open,
        first <= ended,
    ensures
        ({
            let fetching = YahooView { fetching: true, ..state };
            &&& fetching.failed(ended).slot(second) is Open ==> second - first
                >= MIN_FETCH_INTERVAL_MILLIS
            &&& fetching.stored(isin, securities, updated_at, ended).slot(second) is Open ==> second
                - first >= MIN_FETCH_INTERVAL_MILLIS
        }),
{
}

/// While a fetch is under way the slot is given to no other, at any time;
/// it is free again only when the fetch is reported to have ended.
pub proof fn lemma_one_fetch_at_a_time(
    state: YahooView,
    now: nat,
    isin: Seq<char>,
    securities: Seq<SecurityView>,
    updated_at: int,
    ended: nat,
)
    ensures
        state.fetching ==> state.slot(now) is Busy,
        !state.stored(isin, securities, updated_at, ended).fetching,
        !state.failed(ended).fetching,
{
}

/// Storing a lookup changes what is held for its identifier and for no
/// other, and the time kept with an identifier never goes back. A fetch that
/// failed changes nothing that is held. Nothing that is held is ever let go.
pub proof fn lemma_only_a_fetch_updates(
    state: YahooView,
    isin: Seq<char>,
    securities: Seq<SecurityView>,
    updated_at: int,
    ended: nat,
    other: Seq<char>,
)
    requires
        other != isin,
    ensures
        ({
            let after = state.stored(isin, securities, updated_at, ended);
            &&& after.entries.contains_key(isin)
            &&& after.entries.contains_key(other) == state.entries.contains_key(other)
            &&& state.entries.contains_key(other) ==> after.entries[other] == state.entries[other]
            &&& after.entries[isin].updated_at >= updated_at
            &&& state.entries.contains_key(isin) ==> after.entries[isin].updated_at
                >= state.entries[isin].updated_at
        }),
        state.failed(ended).entries == state.entries,
{
}

/// What a cache hands out to be saved can be loaded again, and the cache
/// loaded from it holds the same lookup for every identifier.
pub proof fn lemma_save_and_reload(y: Yahoo)
    requires
        y.wf(),
    ensures
        distinct_isins(y.lookups()),
        lookups_by_isin(y.lookups()) == y@.entries,
{
}

} // verus!
