//! Identifiers of instruments: a symbol, the venue it trades on, and the pair of both.

use vstd::prelude::*;
use vstd::std_specs::cmp::PartialEqSpecImpl;
use vstd::string::StringExecFns;

verus! {

/// The ticker symbol of an instrument.
#[derive(Debug, Hash)]
pub struct Symbol {
    pub value: String,
}

/// The name of a trading venue.
#[derive(Debug, Hash)]
pub struct Venue {
    pub value: String,
}

/// The natural key of an instrument: its symbol on its venue.
#[derive(Debug, Hash)]
pub struct InstrumentId {
    pub symbol: Symbol,
    pub venue: Venue,
}

impl View for Symbol {
    type V = Seq<char>;

    open spec fn view(&self) -> Seq<char> {
        self.value@
    }
}

impl View for Venue {
    type V = Seq<char>;

    open spec fn view(&self) -> Seq<char> {
        self.value@
    }
}

impl View for InstrumentId {
    type V = (Seq<char>, Seq<char>);

    open spec fn view(&self) -> (Seq<char>, Seq<char>) {
        (self.symbol@, self.venue@)
    }
}

impl Symbol {
    /// The symbol spelled `value`; nothing is checked of it.
    pub fn from_str_unchecked(value: String) -> (r: Symbol)
        ensures
            r.value == value,
    {
        Symbol { value }
    }

    /// The spelling of the symbol.
    pub fn as_str(&self) -> (r: &str)
        ensures
            r@ == self@,
    {
        self.value.as_str()
    }
}

impl Venue {
    /// The venue named `value`; nothing is checked of it.
    pub fn from_str_unchecked(value: &str) -> (r: Venue)
        ensures
            r@ == value@,
    {
        Venue { value: String::from_str(value) }
    }

    /// The name of the venue.
    pub fn as_str(&self) -> (r: &str)
        ensures
            r@ == self@,
    {
        self.value.as_str()
    }
}

impl InstrumentId {
    /// The identifier of `symbol` on `venue`.
    pub fn new(symbol: Symbol, venue: Venue) -> (r: InstrumentId)
        ensures
            r.symbol == symbol,
            r.venue == venue,
    {
        InstrumentId { symbol, venue }
    }

    /// The text of an identifier: the symbol, a full stop, the venue.
    pub open spec fn text(id: (Seq<char>, Seq<char>)) -> Seq<char> {
        id.0 + seq!['.'] + id.1
    }

    /// The identifier as text: the symbol, a full stop, the venue.
    pub fn to_string(&self) -> (r: String)
        ensures
            r@ == Self::text(self@),
    {
        let mut s = self.symbol.value.clone();
        s.push('.');
        s.append(self.venue.value.as_str());
        s
    }
}

impl Clone for Symbol {
    fn clone(&self) -> (r: Self)
        ensures
            r == *self,
    {
        Symbol { value: self.value.clone() }
    }
}

impl Clone for Venue {
    fn clone(&self) -> (r: Self)
        ensures
            r == *self,
    {
        Venue { value: self.value.clone() }
    }
}

impl Clone for InstrumentId {
    fn clone(&self) -> (r: Self)
        ensures
            r == *self,
    {
        InstrumentId { symbol: self.symbol.clone(), venue: self.venue.clone() }
    }
}

impl PartialEq for Symbol {
    fn eq(&self, other: &Self) -> (r: bool) {
        self.value == other.value
    }
}

impl PartialEqSpecImpl for Symbol {
    open spec fn obeys_eq_spec() -> bool {
        true
    }

    open spec fn eq_spec(&self, other: &Self) -> bool {
        self@ == other@
    }
}

impl Eq for Symbol {}

impl PartialEq for Venue {
    fn eq(&self, other: &Self) -> (r: bool) {
        self.value == other.value
    }
}

impl PartialEqSpecImpl for Venue {
    open spec fn obeys_eq_spec() -> bool {
        true
    }

    open spec fn eq_spec(&self, other: &Self) -> bool {
        self@ == other@
    }
}

impl Eq for Venue {}

impl PartialEq for InstrumentId {
    fn eq(&self, other: &Self) -> (r: bool) {
        self.symbol == other.symbol && self.venue == other.venue
    }
}

impl PartialEqSpecImpl for InstrumentId {
    open spec fn obeys_eq_spec() -> bool {
        true
    }

    open spec fn eq_spec(&self, other: &Self) -> bool {
        self@ == other@
    }
}

impl Eq for InstrumentId {}

} // verus!
