//! The money formatter: a price read as whole units and hundredths becomes an
//! exact quote, which renders as wire money or as text.

use vstd::prelude::*;
use crate::text::{decimal, decimal_text};
use crate::types::Money;

verus! {

/// Billionths of a unit in one hundredth.
pub const NANOS_MULTIPLE: u32 = 10000000;

/// An exact price with two fractional digits: `dollars` whole units and
/// `cents` hundredths.
#[derive(Debug, Clone, Copy, PartialEq, Eq, Default)]
pub struct Quote {
    pub dollars: u64,
    pub cents: u32,
}

/// A non-negative price as the formatter reads it: its floor, and the
/// truncation of a hundred times it.
#[derive(Debug, Clone, Copy, PartialEq, Eq, Default)]
pub struct PriceReading {
    pub whole_units: u64,
    pub hundredths: u32,
}

impl Quote {
    /// A quote is well formed when its sub-unit part is below one unit.
    pub open spec fn wf(&self) -> bool {
        self.cents < 100
    }

    /// The text `"{dollars}.{cents}"`, with `cents` not padded to two digits.
    pub open spec fn display(&self) -> Seq<char> {
        decimal(self.dollars as nat) + seq!['.'] + decimal(self.cents as nat)
    }

    /// Renders the quote as `"{dollars}.{cents}"`; one cent renders as `".1"`.
    pub fn to_display_string(&self) -> (r: String)
        ensures
            r@ == self.display(),
    {
        let mut s = decimal_text(self.dollars);
        proof {
            reveal_strlit(".");
        }
        s.append(".");
        let c = decimal_text(self.cents as u64);
        s.append(c.as_str());
        s
    }

    /// The wire money for this quote, in US dollars.
    pub fn to_money(&self) -> (r: Money)
        requires
            self.wf(),
        ensures
            money_of(*self, r),
    {
        Money {
            currency_code: String::from_str("USD"),
            units: self.dollars,
            nanos: self.cents * NANOS_MULTIPLE,
        }
    }
}

/// The quote that a price reading stands for.
pub open spec fn quote_of(r: PriceReading) -> Quote {
    Quote { dollars: r.whole_units, cents: (r.hundredths % 100) as u32 }
}

/// `m` is the US-dollar wire money of `q`.
pub open spec fn money_of(q: Quote, m: Money) -> bool {
    &&& m.currency_code@ == "USD"@
    &&& m.units == q.dollars
    &&& m.nanos == q.cents * NANOS_MULTIPLE
}

/// Builds the quote for a price reading: whole units are kept, and the
/// hundredths are truncated to the sub-unit remainder (no rounding).
pub fn create_quote_from_reading(reading: &PriceReading) -> (r: Quote)
    ensures
        r == quote_of(*reading),
        r.wf(),
{
    Quote { dollars: reading.whole_units, cents: reading.hundredths % 100 }
}

/// Every quote built from a reading is well formed, and its money has a
/// sub-unit part that is a whole number of hundredths below one unit.
pub proof fn lemma_money_nanos_whole_hundredths(reading: PriceReading, m: Money)
    requires
        money_of(quote_of(reading), m),
    ensures
        quote_of(reading).wf(),
        m.nanos % NANOS_MULTIPLE == 0,
        m.nanos < 1_000_000_000,
{
    let c = reading.hundredths % 100;
    assert(c * 10000000 < 1_000_000_000) by (nonlinear_arith)
        requires c < 100;
    assert((c * 10000000) % 10000000 == 0) by (nonlinear_arith);
}

/// Formatting is a function of the reading alone: two quotes built from the
/// same reading are the same quote and render as the same text.
pub proof fn lemma_formatting_is_deterministic(reading: PriceReading, first: Quote, second: Quote)
    requires
        first == quote_of(reading),
        second == quote_of(reading),
    ensures
        first == second,
        first.display() == second.display(),
{
}

} // verus!
