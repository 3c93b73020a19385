//! Functions from raw Tardis fields to domain values. Each depends on its
//! arguments alone.

use crate::bar::BarSpecification;
use crate::enums::{AggressorSide, BarAggregation, BookAction, OptionKind, OrderSide, PriceType};
use crate::identifiers::{InstrumentId, Symbol};
use crate::nanos::UnixNanos;
use crate::tardis::enums::{Exchange, OptionType};
use crate::text::{
    char_digit, char_is_digit, digits_value, is_digit, leading_digits, lemma_digits_value_step,
    lemma_leading_digits_is, str_eq, to_chars,
};
use vstd::prelude::*;

verus! {

/// The upper-case form of a text, as `str::to_uppercase` gives it: each
/// character replaced by its upper-case equivalent in Unicode, which may be
/// more than one character.
pub uninterp spec fn uppercase(s: Seq<char>) -> Seq<char>;

/// `str::to_uppercase`: the upper-case equivalent of the string, as a new
/// `String`.
#[verifier::external_body]
fn str_to_uppercase(s: &str) -> (r: String)
    ensures
        r@ == uppercase(s@),
{
    s.to_uppercase()
}

/// The symbol as the domain model spells it: in upper case.
pub fn parse_symbol_str(symbol: &str) -> (r: String)
    ensures
        r@ == uppercase(symbol@),
{
    str_to_uppercase(symbol)
}

/// The identifier of the instrument that `exchange` calls `symbol`: the symbol
/// in upper case, on the venue of the exchange.
pub fn parse_instrument_id(exchange: &Exchange, symbol: &str) -> (r: InstrumentId)
    ensures
        r@ == (uppercase(symbol@), exchange.venue_name()),
{
    let symbol = Symbol::from_str_unchecked(parse_symbol_str(symbol));
    InstrumentId::new(symbol, exchange.as_venue())
}

/// The order side that a text names: `bid` is a buy, `ask` is a sell, and
/// anything else is no side.
pub open spec fn order_side_of(value: Seq<char>) -> OrderSide {
    if value == seq!['b', 'i', 'd'] {
        OrderSide::Buy
    } else if value == seq!['a', 's', 'k'] {
        OrderSide::Sell
    } else {
        OrderSide::NoOrderSide
    }
}

/// The order side that `value` names.
pub fn parse_order_side(value: &str) -> (r: OrderSide)
    ensures
        r == order_side_of(value@),
{
    proof {
        reveal_strlit("bid");
        reveal_strlit("ask");
        assert("bid"@ =~= seq!['b', 'i', 'd']);
        assert("ask"@ =~= seq!['a', 's', 'k']);
    }
    if str_eq(value, "bid") {
        OrderSide::Buy
    } else if str_eq(value, "ask") {
        OrderSide::Sell
    } else {
        OrderSide::NoOrderSide
    }
}

/// The aggressor that a text names: `buy` is the buyer, `sell` is the seller,
/// and anything else is no aggressor.
pub open spec fn aggressor_side_of(value: Seq<char>) -> AggressorSide {
    if value == seq!['b', 'u', 'y'] {
        AggressorSide::Buyer
    } else if value == seq!['s', 'e', 'l', 'l'] {
        AggressorSide::Seller
    } else {
        AggressorSide::NoAggressor
    }
}

/// The aggressor that `value` names.
pub fn parse_aggressor_side(value: &str) -> (r: AggressorSide)
    ensures
        r == aggressor_side_of(value@),
{
    proof {
        reveal_strlit("buy");
        reveal_strlit("sell");
        assert("buy"@ =~= seq!['b', 'u', 'y']);
        assert("sell"@ =~= seq!['s', 'e', 'l', 'l']);
    }
    if str_eq(value, "buy") {
        AggressorSide::Buyer
    } else if str_eq(value, "sell") {
        AggressorSide::Seller
    } else {
        AggressorSide::NoAggressor
    }
}

/// The option kind of the domain model for the one of the feed.
pub fn parse_option_kind(value: OptionType) -> (r: OptionKind)
    ensures
        r == (match value {
            OptionType::Call => OptionKind::Call,
            OptionType::Put => OptionKind::Put,
        }),
{
    match value {
        OptionType::Call => OptionKind::Call,
        OptionType::Put => OptionKind::Put,
    }
}

/// The timestamp in nanoseconds for one in microseconds, which must be small
/// enough for the product to fit.
pub fn parse_timestamp(value_us: u64) -> (r: UnixNanos)
    requires
        value_us * 1000 <= u64::MAX,
    ensures
        r.0 == value_us * 1000,
{
    UnixNanos::new(value_us * 1000)
}

/// What a book entry does: an entry of a snapshot is added, whatever its
/// amount; any other removes its level where the amount is zero, and updates it
/// where it is not.
pub fn parse_book_action(is_snapshot: bool, amount_is_zero: bool) -> (r: BookAction)
    ensures
        r == (if is_snapshot {
            BookAction::Add
        } else if amount_is_zero {
            BookAction::Delete
        } else {
            BookAction::Update
        }),
{
    if is_snapshot {
        BookAction::Add
    } else if amount_is_zero {
        BookAction::Delete
    } else {
        BookAction::Update
    }
}

/// Why a text is no bar specification.
#[derive(Clone, Copy, Debug, PartialEq, Eq, Structural)]
pub enum BarSpecError {
    /// The last segment is empty or holds digits only.
    InvalidBarSpec,
    /// The last segment does not start with a digit, or its leading digits
    /// spell a number that does not fit the step.
    InvalidStep,
    /// The unit that follows the digits is not one of `ms`, `s`, `m`, `ticks`
    /// and `vol`.
    UnsupportedAggregation,
}

/// Where the last segment of `s` starts: after the last underscore, or at 0
/// where there is none.
pub open spec fn last_segment_start(s: Seq<char>) -> int
    decreases s.len(),
{
    if s.len() == 0 {
        0
    } else if s.last() == '_' {
        s.len() as int
    } else {
        last_segment_start(s.drop_last())
    }
}

/// What follows the last underscore of `s`; all of `s` where there is none.
pub open spec fn last_segment(s: Seq<char>) -> Seq<char> {
    s.skip(last_segment_start(s))
}

/// The aggregation that a unit names, if it names one.
pub open spec fn aggregation_of(unit: Seq<char>) -> Option<BarAggregation> {
    if unit == seq!['m', 's'] {
        Some(BarAggregation::Millisecond)
    } else if unit == seq!['s'] {
        Some(BarAggregation::Second)
    } else if unit == seq!['m'] {
        Some(BarAggregation::Minute)
    } else if unit == seq!['t', 'i', 'c', 'k', 's'] {
        Some(BarAggregation::Tick)
    } else if unit == seq!['v', 'o', 'l'] {
        Some(BarAggregation::Volume)
    } else {
        None
    }
}

/// The bar specification that a text spells, or why it spells none.
///
/// Only the last of the segments that underscores separate is read: its
/// leading digits are the step, the rest is the unit. The price type is always
/// the last price.
pub open spec fn bar_spec_of(s: Seq<char>) -> Result<BarSpecification, BarSpecError> {
    let segment = last_segment(s);
    let n = leading_digits(segment);
    let step = digits_value(segment.take(n));
    if n == segment.len() {
        Err(BarSpecError::InvalidBarSpec)
    } else if n == 0 || step > usize::MAX {
        Err(BarSpecError::InvalidStep)
    } else {
        match aggregation_of(segment.skip(n)) {
            Some(aggregation) => Ok(
                BarSpecification { step: step as usize, aggregation, price_type: PriceType::Last },
            ),
            None => Err(BarSpecError::UnsupportedAggregation),
        }
    }
}

/// An index after which the text holds no underscore, and which is 0 or
/// follows one, is where the last segment starts.
proof fn lemma_last_segment_start_is(s: Seq<char>, k: int)
    requires
        0 <= k <= s.len(),
        k > 0 ==> s[k - 1] == '_',
        forall|i: int| k <= i < s.len() ==> s[i] != '_',
    ensures
        last_segment_start(s) == k,
    decreases s.len(),
{
    if s.len() > 0 && s.last() != '_' {
        lemma_last_segment_start_is(s.drop_last(), k);
    }
}

/// The aggregation that the unit `v[from..]` names, if it names one.
fn parse_aggregation(v: &Vec<char>, from: usize) -> (r: Option<BarAggregation>)
    requires
        from <= v.len(),
    ensures
        r == aggregation_of(v@.skip(from as int)),
{
    let n = v.len() - from;
    let ghost unit = v@.skip(from as int);
    assert(unit.len() == n);
    assert(forall|i: int| 0 <= i < n ==> unit[i] == v@[from + i]);
    proof {
        let ms = seq!['m', 's'];
        assert(ms.len() == 2 && ms[0] == 'm' && ms[1] == 's');
        assert(seq!['s'].len() == 1 && seq!['s'][0] == 's');
        assert(seq!['m'].len() == 1 && seq!['m'][0] == 'm');
        let ticks = seq!['t', 'i', 'c', 'k', 's'];
        assert(ticks.len() == 5 && ticks[0] == 't' && ticks[1] == 'i' && ticks[2] == 'c'
            && ticks[3] == 'k' && ticks[4] == 's');
        let vol = seq!['v', 'o', 'l'];
        assert(vol.len() == 3 && vol[0] == 'v' && vol[1] == 'o' && vol[2] == 'l');
    }
    if n == 2 && v[from] == 'm' && v[from + 1] == 's' {
        assert(unit =~= seq!['m', 's']);
        Some(BarAggregation::Millisecond)
    } else if n == 1 && v[from] == 's' {
        assert(unit =~= seq!['s']);
        Some(BarAggregation::Second)
    } else if n == 1 && v[from] == 'm' {
        assert(unit =~= seq!['m']);
        Some(BarAggregation::Minute)
    } else if n == 5 && v[from] == 't' && v[from + 1] == 'i' && v[from + 2] == 'c' && v[from + 3]
        == 'k' && v[from + 4] == 's' {
        assert(unit =~= seq!['t', 'i', 'c', 'k', 's']);
        Some(BarAggregation::Tick)
    } else if n == 3 && v[from] == 'v' && v[from + 1] == 'o' && v[from + 2] == 'l' {
        assert(unit =~= seq!['v', 'o', 'l']);
        Some(BarAggregation::Volume)
    } else {
        None
    }
}

/// The bar specification that `value` spells, or why it spells none.
pub fn parse_bar_spec_checked(value: &str) -> (r: Result<BarSpecification, BarSpecError>)
    ensures
        r == bar_spec_of(value@),
{
    let v = to_chars(value);
    let len = v.len();
    // Find where the last segment starts.
    let mut start: usize = len;
    while start > 0 && v[start - 1] != '_'
        invariant
            start <= len == v.len(),
            forall|i: int| start <= i < len ==> v@[i] != '_',
        decreases start,
    {
        start -= 1;
    }
    proof {
        lemma_last_segment_start_is(v@, start as int);
    }
    let ghost segment = v@.skip(start as int);
    assert(segment == last_segment(value@));
    // Read the leading digits as the step.
    let mut end: usize = start;
    let mut step: usize = 0;
    let mut fits = true;
    while end < len && char_is_digit(v[end])
        invariant
            start <= end <= len == v.len(),
            segment == v@.skip(start as int),
            forall|i: int| 0 <= i < end - start ==> is_digit(#[trigger] segment[i]),
            fits ==> step == digits_value(segment.take(end - start)),
            !fits ==> digits_value(segment.take(end - start)) > usize::MAX,
        decreases len - end,
    {
        let d = char_digit(v[end]) as usize;
        proof {
            assert(segment[end - start] == v@[end as int]);
            lemma_digits_value_step(segment, end - start);
        }
        if fits {
            match step.checked_mul(10) {
                Some(m) => match m.checked_add(d) {
                    Some(a) => {
                        step = a;
                    },
                    None => {
                        fits = false;
                    },
                },
                None => {
                    fits = false;
                },
            }
        }
        end += 1;
    }
    let ghost n = end - start;
    proof {
        if end < len {
            assert(segment[n] == v@[end as int]);
        }
        lemma_leading_digits_is(segment, n);
        assert(v@.skip(end as int) == segment.skip(n));
    }
    if end == len {
        return Err(BarSpecError::InvalidBarSpec);
    }
    if end == start || !fits {
        return Err(BarSpecError::InvalidStep);
    }
    match parse_aggregation(&v, end) {
        Some(aggregation) => Ok(BarSpecification { step, aggregation, price_type: PriceType::Last }),
        None => Err(BarSpecError::UnsupportedAggregation),
    }
}

/// The bar specification that `value` spells, which the caller knows to spell
/// one.
pub fn parse_bar_spec(value: &str) -> (r: BarSpecification)
    requires
        bar_spec_of(value@) is Ok,
    ensures
        bar_spec_of(value@) == Ok::<BarSpecification, BarSpecError>(r),
{
    let checked = parse_bar_spec_checked(value);
    checked.unwrap()
}

} // verus!
