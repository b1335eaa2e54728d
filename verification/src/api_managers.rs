//! The providers of market data and the order in which they are trusted.

use vstd::prelude::*;

verus! {

/// A source of market data.
#[derive(Clone, Copy, Debug, PartialEq, Eq, Structural)]
pub enum Provider {
    Polygon,
    Tiingo,
}

/// The providers in the order of their priority.
pub open spec fn priority_list() -> Seq<Provider> {
    seq![Provider::Polygon, Provider::Tiingo]
}

/// Returns the providers in the order of their priority: the primary source
/// first, then the fallbacks.
pub fn get_managers_in_priority() -> (r: Vec<Provider>)
    ensures
        r@ == priority_list(),
{
    let mut managers: Vec<Provider> = Vec::new();
    managers.push(Provider::Polygon);
    managers.push(Provider::Tiingo);
    managers
}

} // verus!
