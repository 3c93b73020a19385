//! Currencies, and the registry in which they are looked up by code.

use crate::enums::CurrencyType;
use crate::text::{char_is_whitespace, is_whitespace, str_eq, to_chars};
use vstd::prelude::*;
use vstd::std_specs::cmp::PartialEqSpecImpl;

verus! {

/// A currency: its code, and the number of decimal digits in which amounts of
/// it are kept.
#[derive(Clone, Copy, Debug)]
pub struct Currency {
    /// The code by which the currency is known and looked up.
    pub code: &'static str,
    /// The number of decimal digits of an amount, at most 9.
    pub precision: u8,
    /// The ISO 4217 number, or 0.
    pub iso4217: u16,
    /// The full name.
    pub name: &'static str,
    pub currency_type: CurrencyType,
}

/// Why a currency was not accepted.
#[derive(Clone, Copy, Debug, PartialEq, Eq, Structural)]
pub enum CurrencyError {
    /// The precision is above 9.
    InvalidPrecision,
    /// The code is empty or holds whitespace.
    InvalidCode,
    /// A currency of that code is registered already.
    DuplicateCode,
}

/// Whether `code` can stand as one word: it is not empty and holds no whitespace.
pub open spec fn is_code(code: Seq<char>) -> bool {
    &&& code.len() > 0
    &&& forall|i: int| 0 <= i < code.len() ==> !is_whitespace(#[trigger] code[i])
}

/// Whether `code` can stand as one word.
pub fn str_is_code(code: &str) -> (r: bool)
    ensures
        r == is_code(code@),
{
    let v = to_chars(code);
    if v.len() == 0 {
        return false;
    }
    let mut i: usize = 0;
    while i < v.len()
        invariant
            i <= v.len(),
            v@ == code@,
            forall|j: int| 0 <= j < i ==> !is_whitespace(#[trigger] v@[j]),
        decreases v.len() - i,
    {
        if char_is_whitespace(v[i]) {
            return false;
        }
        i += 1;
    }
    true
}

impl Currency {
    /// Whether the currency is valid: the precision is at most 9 and the code is
    /// one word.
    pub open spec fn wf(&self) -> bool {
        &&& self.precision <= 9
        &&& is_code(self.code@)
    }

    /// The currency with the given fields, if they are valid.
    ///
    /// The precision is tested first, then the code.
    pub fn new(
        code: &'static str,
        precision: u8,
        iso4217: u16,
        name: &'static str,
        currency_type: CurrencyType,
    ) -> (r: Result<Currency, CurrencyError>)
        ensures
            precision > 9 ==> r == Err::<Currency, CurrencyError>(CurrencyError::InvalidPrecision),
            precision <= 9 && !is_code(code@) ==> r == Err::<Currency, CurrencyError>(
                CurrencyError::InvalidCode,
            ),
            precision <= 9 && is_code(code@) ==> r == Ok::<Currency, CurrencyError>(
                Currency { code, precision, iso4217, name, currency_type },
            ),
    {
        if precision > 9 {
            return Err(CurrencyError::InvalidPrecision);
        }
        if !str_is_code(code) {
            return Err(CurrencyError::InvalidCode);
        }
        Ok(Currency { code, precision, iso4217, name, currency_type })
    }

    /// Whether the currency is valid.
    pub fn is_valid(&self) -> (r: bool)
        ensures
            r == self.wf(),
    {
        self.precision <= 9 && str_is_code(self.code)
    }
}

impl PartialEq for Currency {
    /// Two currencies are equal when their codes are.
    fn eq(&self, other: &Self) -> (r: bool) {
        str_eq(self.code, other.code)
    }
}

impl PartialEqSpecImpl for Currency {
    open spec fn obeys_eq_spec() -> bool {
        true
    }

    open spec fn eq_spec(&self, other: &Self) -> bool {
        self.code@ == other.code@
    }
}

impl Eq for Currency {}

/// The first currency in `entries` whose code is `code`.
pub open spec fn find_currency(entries: Seq<Currency>, code: Seq<char>) -> Option<Currency>
    decreases entries.len(),
{
    if entries.len() == 0 {
        None
    } else if entries[0].code@ == code {
        Some(entries[0])
    } else {
        find_currency(entries.drop_first(), code)
    }
}

/// A currency found under a code has that code and is one of the entries;
/// where none is found, no entry has the code.
pub proof fn lemma_find_currency(entries: Seq<Currency>, code: Seq<char>)
    ensures
        find_currency(entries, code) matches Some(c) ==> c.code@ == code && entries.contains(c),
        find_currency(entries, code) is None ==> forall|i: int|
            0 <= i < entries.len() ==> (#[trigger] entries[i]).code@ != code,
    decreases entries.len(),
{
    if entries.len() == 0 {
    } else if entries[0].code@ == code {
    } else {
        let rest = entries.drop_first();
        lemma_find_currency(rest, code);
        if let Some(c) = find_currency(rest, code) {
            let k = choose|k: int| 0 <= k < rest.len() && rest[k] == c;
            assert(entries[k + 1] == c);
        } else {
            assert forall|i: int| 0 <= i < entries.len() implies (#[trigger] entries[i]).code@
                != code by {
                if i > 0 {
                    assert(rest[i - 1] == entries[i]);
                }
            }
        }
    }
}

/// The currencies that are known, each under its code.
pub struct CurrencyRegistry {
    entries: Vec<Currency>,
}

impl View for CurrencyRegistry {
    type V = Seq<Currency>;

    closed spec fn view(&self) -> Seq<Currency> {
        self.entries@
    }
}

impl CurrencyRegistry {
    /// Whether the registry is sound: every currency in it is valid. A registry
    /// that was made by `new` and filled by `register` is.
    pub closed spec fn wf(&self) -> bool {
        forall|i: int| 0 <= i < self.entries@.len() ==> (#[trigger] self.entries@[i]).wf()
    }

    /// The currency that is registered under `code`, if there is one.
    pub open spec fn lookup_spec(&self, code: Seq<char>) -> Option<Currency> {
        find_currency(self@, code)
    }

    /// The registry that knows no currency.
    pub fn new() -> (r: CurrencyRegistry)
        ensures
            r.wf(),
            r@ == Seq::<Currency>::empty(),
    {
        CurrencyRegistry { entries: Vec::new() }
    }

    /// The currency that is registered under `code`, if there is one; it is valid.
    pub fn lookup(&self, code: &str) -> (r: Option<Currency>)
        requires
            self.wf(),
        ensures
            r == self.lookup_spec(code@),
            r matches Some(c) ==> c.wf() && c.code@ == code@,
    {
        proof {
            lemma_find_currency(self.entries@, code@);
            assert(self.entries@.skip(0) == self.entries@);
        }
        let mut i: usize = 0;
        while i < self.entries.len()
            invariant
                i <= self.entries.len(),
                self.wf(),
                find_currency(self.entries@, code@) == find_currency(
                    self.entries@.skip(i as int),
                    code@,
                ),
            decreases self.entries.len() - i,
        {
            let c = self.entries[i];
            proof {
                let rest = self.entries@.skip(i as int);
                assert(rest[0] == c);
                assert(rest.drop_first() == self.entries@.skip(i + 1));
            }
            if str_eq(c.code, code) {
                return Some(c);
            }
            i += 1;
        }
        proof {
            assert(self.entries@.skip(i as int).len() == 0);
        }
        None
    }

    /// Adds `currency`, unless it is not valid or its code is taken.
    pub fn register(&mut self, currency: Currency) -> (r: Result<(), CurrencyError>)
        requires
            old(self).wf(),
        ensures
            final(self).wf(),
            currency.precision > 9 ==> r == Err::<(), CurrencyError>(
                CurrencyError::InvalidPrecision,
            ),
            currency.precision <= 9 && !is_code(currency.code@) ==> r == Err::<(), CurrencyError>(
                CurrencyError::InvalidCode,
            ),
            currency.wf() && old(self).lookup_spec(currency.code@) is Some ==> r == Err::<
                (),
                CurrencyError,
            >(CurrencyError::DuplicateCode),
            currency.wf() && old(self).lookup_spec(currency.code@) is None ==> r is Ok,
            r is Ok ==> final(self)@ == old(self)@.push(currency),
            r is Err ==> final(self)@ == old(self)@,
    {
        if currency.precision > 9 {
            return Err(CurrencyError::InvalidPrecision);
        }
        if !str_is_code(currency.code) {
            return Err(CurrencyError::InvalidCode);
        }
        if self.lookup(currency.code).is_some() {
            return Err(CurrencyError::DuplicateCode);
        }
        self.entries.push(currency);
        Ok(())
    }
}

/// After a currency is added, a code finds what it found before; a code that
/// found nothing finds the new currency where that is its code, and nothing
/// else.
pub proof fn lemma_find_after_push(entries: Seq<Currency>, currency: Currency, code: Seq<char>)
    ensures
        find_currency(entries.push(currency), code) == (if find_currency(entries, code) is Some {
            find_currency(entries, code)
        } else if currency.code@ == code {
            Some(currency)
        } else {
            None
        }),
    decreases entries.len(),
{
    let pushed = entries.push(currency);
    if entries.len() == 0 {
        assert(pushed[0] == currency);
        assert(pushed.drop_first() == Seq::<Currency>::empty());
    } else {
        assert(pushed[0] == entries[0]);
        assert(pushed.drop_first() == entries.drop_first().push(currency));
        lemma_find_after_push(entries.drop_first(), currency, code);
    }
}

} // verus!
