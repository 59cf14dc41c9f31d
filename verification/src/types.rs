//! Currency codes and the decimal numbers of an export, which are written
//! with a comma before the fraction.

use crate::decimal::{from_str_exact_result, Decimal, DecimalView};
use vstd::prelude::*;
use vstd::string::*;

verus! {

/// The name of a currency: three capital letters, as in `SEK`.
#[derive(Debug)]
pub struct Currency {
    code: String,
}

impl View for Currency {
    type V = Seq<char>;

    closed spec fn view(&self) -> Seq<char> {
        self.code@
    }
}

impl DeepView for Currency {
    type V = Seq<char>;

    open spec fn deep_view(&self) -> Seq<char> {
        self@
    }
}

impl Currency {
    /// Whether a text is a currency code: exactly three letters `A` to `Z`.
    pub open spec fn well_formed(code: Seq<char>) -> bool {
        &&& code.len() == 3
        &&& forall|i: int| 0 <= i < code.len() ==> 'A' <= #[trigger] code[i] <= 'Z'
    }

    #[verifier::type_invariant]
    spec fn code_is_well_formed(self) -> bool {
        Currency::well_formed(self.code@)
    }

    /// The currency with the given code, if the code is well formed.
    pub fn new(code: &str) -> (r: Option<Currency>)
        ensures
            r is Some <==> Currency::well_formed(code@),
            r matches Some(c) ==> c@ == code@,
    {
        if code.unicode_len() != 3 {
            return None;
        }
        let mut i: usize = 0;
        while i < 3
            invariant
                i <= 3,
                code@.len() == 3,
                forall|j: int| 0 <= j < i ==> 'A' <= #[trigger] code@[j] <= 'Z',
            decreases 3 - i,
        {
            let c = code.get_char(i);
            if c < 'A' || c > 'Z' {
                return None;
            }
            i += 1;
        }
        Some(Currency { code: String::from_str(code) })
    }

    /// The code. It is always well formed.
    pub fn as_str(&self) -> (s: &str)
        ensures
            s@ == self@,
            Currency::well_formed(self@),
    {
        proof {
            use_type_invariant(self);
        }
        self.code.as_str()
    }

    /// A copy of the currency.
    pub fn duplicate(&self) -> (r: Currency)
        ensures
            r@ == self@,
            Currency::well_formed(self@),
    {
        proof {
            use_type_invariant(self);
        }
        Currency { code: self.code.clone() }
    }
}

/// Why a text could not be read as a number.
#[derive(Clone, Copy, Debug, PartialEq, Eq, Structural)]
pub enum NumberError {
    /// The text is not a decimal number that can be held exactly.
    Malformed,
    /// The text is empty where a number is required.
    Empty,
}

/// Whether `i` is the place of the first `c` in `s`.
pub open spec fn is_first_occurrence(s: Seq<char>, c: char, i: int) -> bool {
    &&& 0 <= i < s.len()
    &&& s[i] == c
    &&& forall|j: int| 0 <= j < i ==> s[j] != c
}

/// The text with its first comma, if it has one, turned into a full stop.
pub open spec fn decimal_point_form(s: Seq<char>) -> Seq<char> {
    if exists|i: int| is_first_occurrence(s, ',', i) {
        s.update(choose|i: int| is_first_occurrence(s, ',', i), '.')
    } else {
        s
    }
}

/// The place of the first comma in a text, if it has one.
fn first_comma(s: &str) -> (r: Option<usize>)
    ensures
        match r {
            Some(i) => is_first_occurrence(s@, ',', i as int),
            None => forall|j: int| 0 <= j < s@.len() ==> s@[j] != ',',
        },
{
    let n = s.unicode_len();
    let mut i: usize = 0;
    while i < n
        invariant
            i <= n,
            n == s@.len(),
            forall|j: int| 0 <= j < i ==> s@[j] != ',',
        decreases n - i,
    {
        if s.get_char(i) == ',' {
            return Some(i);
        }
        i += 1;
    }
    None
}

/// Turns the first comma of a text into a full stop.
pub fn with_decimal_point(s: &str) -> (r: String)
    ensures
        r@ == decimal_point_form(s@),
{
    match first_comma(s) {
        None => {
            assert(!exists|i: int| is_first_occurrence(s@, ',', i));
            String::from_str(s)
        },
        Some(i) => {
            let n = s.unicode_len();
            let mut r = String::from_str(s.substring_char(0, i));
            r.append(".");
            r.append(s.substring_char(i + 1, n));
            proof {
                reveal_strlit(".");
                let k = choose|k: int| is_first_occurrence(s@, ',', k);
                assert(is_first_occurrence(s@, ',', i as int));
                assert(k == i) by {
                    if k < i {
                        assert(s@[k] != ',');
                    } else if i < k {
                        assert(s@[i as int] != ',');
                    }
                }
                assert(r@ =~= s@.update(i as int, '.'));
            }
            r
        },
    }
}

/// What [`dec_from_swe_num_opt`] returns for a text.
pub open spec fn swe_num_opt_spec(s: Seq<char>) -> Result<Option<DecimalView>, NumberError> {
    if s.len() == 0 {
        Ok(None)
    } else {
        match from_str_exact_result(decimal_point_form(s)) {
            Some(d) => Ok(Some(d)),
            None => Err(NumberError::Malformed),
        }
    }
}

/// The outcome of reading a number, with the number seen through its view.
pub open spec fn number_outcome_view(r: Result<Option<Decimal>, NumberError>) -> Result<
    Option<DecimalView>,
    NumberError,
> {
    match r {
        Ok(d) => Ok(d.deep_view()),
        Err(e) => Err(e),
    }
}

/// Reads a number written with a comma before its fraction. An empty text
/// stands for no number.
pub fn dec_from_swe_num_opt(s: &str) -> (r: Result<Option<Decimal>, NumberError>)
    ensures
        number_outcome_view(r) == swe_num_opt_spec(s@),
{
    if s.unicode_len() == 0 {
        return Ok(None);
    }
    let pointed = with_decimal_point(s);
    match Decimal::from_str_exact(pointed.as_str()) {
        Some(d) => Ok(Some(d)),
        None => Err(NumberError::Malformed),
    }
}

/// What [`dec_from_swe_num`] returns for a text.
pub open spec fn swe_num_spec(s: Seq<char>) -> Result<DecimalView, NumberError> {
    match swe_num_opt_spec(s) {
        Ok(Some(d)) => Ok(d),
        Ok(None) => Err(NumberError::Empty),
        Err(e) => Err(e),
    }
}

/// Reads a number written with a comma before its fraction. An empty text
/// is an error.
pub fn dec_from_swe_num(s: &str) -> (r: Result<Decimal, NumberError>)
    ensures
        match r {
            Ok(d) => swe_num_spec(s@) == Ok::<_, NumberError>(d@),
            Err(e) => swe_num_spec(s@) == Err::<DecimalView, _>(e),
        },
{
    match dec_from_swe_num_opt(s) {
        Ok(Some(d)) => Ok(d),
        Ok(None) => Err(NumberError::Empty),
        Err(e) => Err(e),
    }
}

} // verus!
