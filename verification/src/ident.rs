//! Short identifiers: three symbols drawn from a fixed set of code ranges.

use rand::Rng;
use vstd::prelude::*;

verus! {

/// Number of symbols in a generated identifier.
pub const ID_SYMBOLS: usize = 3;

/// Number of code ranges that symbols are drawn from.
pub const RANGE_COUNT: u32 = 5;

/// The inclusive code range with the given index, as `(first, last)`.
pub open spec fn emoji_range(index: int) -> (u32, u32) {
    if index == 0 {
        (0x1F600u32, 0x1F64Fu32)
    } else if index == 1 {
        (0x1F300u32, 0x1F5FFu32)
    } else if index == 2 {
        (0x1F680u32, 0x1F6FFu32)
    } else if index == 3 {
        (0x1F900u32, 0x1F9FFu32)
    } else {
        (0x2600u32, 0x26FFu32)
    }
}

/// Whether `symbol` lies in one of the code ranges.
pub open spec fn is_emoji_symbol(symbol: char) -> bool {
    exists|index: int|
        0 <= index < RANGE_COUNT && (#[trigger] emoji_range(index)).0 <= symbol as u32
            <= emoji_range(index).1
}

/// Whether `id` has the shape of a generated identifier: exactly
/// `ID_SYMBOLS` symbols, each from one of the code ranges.
pub open spec fn is_generated_id(id: Seq<char>) -> bool {
    &&& id.len() == ID_SYMBOLS
    &&& forall|i: int| 0 <= i < id.len() ==> is_emoji_symbol(#[trigger] id[i])
}

/// `rand::Rng::gen_range` on the thread's generator, over the inclusive range
/// from `low` to `high`. The value lies in that range; nothing else is known
/// of it. The outside function panics on an empty range, which `low <= high`
/// rules out.
#[verifier::external_body]
fn random_between(low: u32, high: u32) -> (value: u32)
    requires
        low <= high,
    ensures
        low <= value <= high,
{
    rand::thread_rng().gen_range(low..=high)
}

/// `char::from_u32`: the scalar value with the given code, and `None` for a
/// surrogate or a code above `0x10FFFF`.
pub assume_specification[ char::from_u32 ](code: u32) -> (symbol: Option<char>)
    ensures
        symbol is Some <==> (code <= 0xD7FF || 0xE000 <= code <= 0x10FFFF),
        symbol is Some ==> symbol.unwrap() as u32 == code,
;

/// `String::push`: appends one symbol at the end.
pub assume_specification[ String::push ](text: &mut String, symbol: char)
    ensures
        final(text)@ == old(text)@.push(symbol),
;

/// The code range with the given index.
pub fn range_bounds(index: u32) -> (bounds: (u32, u32))
    requires
        index < RANGE_COUNT,
    ensures
        bounds == emoji_range(index as int),
        bounds.0 <= bounds.1,
        bounds.1 <= 0xD7FF || 0xE000 <= bounds.0 && bounds.1 <= 0x10FFFF,
{
    if index == 0 {
        (0x1F600, 0x1F64F)
    } else if index == 1 {
        (0x1F300, 0x1F5FF)
    } else if index == 2 {
        (0x1F680, 0x1F6FF)
    } else if index == 3 {
        (0x1F900, 0x1F9FF)
    } else {
        (0x2600, 0x26FF)
    }
}

/// Draws one symbol: first a code range, then a code within it.
pub fn random_symbol() -> (symbol: char)
    ensures
        is_emoji_symbol(symbol),
{
    let index: u32 = random_between(0, RANGE_COUNT - 1);
    let bounds = range_bounds(index);
    let code: u32 = random_between(bounds.0, bounds.1);
    match char::from_u32(code) {
        Some(symbol) => {
            assert(emoji_range(index as int).0 <= symbol as u32 <= emoji_range(index as int).1);
            symbol
        },
        None => unreached(),
    }
}

/// Draws a candidate identifier of `ID_SYMBOLS` symbols.
pub fn random_id() -> (id: String)
    ensures
        is_generated_id(id@),
{
    let mut id = String::new();
    let mut drawn: usize = 0;
    while drawn < ID_SYMBOLS
        invariant
            drawn <= ID_SYMBOLS,
            id@.len() == drawn,
            forall|i: int| 0 <= i < id@.len() ==> is_emoji_symbol(#[trigger] id@[i]),
        decreases ID_SYMBOLS - drawn,
    {
        let symbol = random_symbol();
        id.push(symbol);
        drawn = drawn + 1;
    }
    id
}

/// What one probe of the store settles about a candidate identifier.
#[derive(Debug, Clone, PartialEq, Eq)]
pub enum Allocation {
    /// The candidate is free: it is the identifier.
    Granted(String),
    /// The candidate is taken: probe this one next.
    Retry(String),
}

/// Mathematical value of an [`Allocation`].
pub enum AllocationView {
    Granted(Seq<char>),
    Retry(Seq<char>),
}

impl View for Allocation {
    type V = AllocationView;

    open spec fn view(&self) -> AllocationView {
        match self {
            Allocation::Granted(id) => AllocationView::Granted(id@),
            Allocation::Retry(id) => AllocationView::Retry(id@),
        }
    }
}

/// What a probe settles: a candidate that the store does not hold is
/// granted, and for one that it holds the candidate `fresh` is tried next.
pub open spec fn allocation_of(candidate: Seq<char>, taken: bool, fresh: Seq<char>) -> AllocationView {
    if taken {
        AllocationView::Retry(fresh)
    } else {
        AllocationView::Granted(candidate)
    }
}

/// Settles a probe, with `fresh` as the candidate to try after a collision.
pub fn settle_probe(candidate: String, taken: bool, fresh: String) -> (allocation: Allocation)
    ensures
        allocation@ == allocation_of(candidate@, taken, fresh@),
{
    if taken {
        Allocation::Retry(fresh)
    } else {
        Allocation::Granted(candidate)
    }
}

/// One round of identifier allocation. `taken` is the store's answer to
/// whether it holds `candidate`. An identifier is granted only if the store
/// said that it does not hold it, and it is then the candidate that was
/// probed; after a collision a newly drawn candidate is to be probed.
pub fn generate_emoji_id(candidate: String, taken: bool) -> (allocation: Allocation)
    ensures
        exists|fresh: Seq<char>|
            is_generated_id(fresh) && allocation@ == #[trigger] allocation_of(
                candidate@,
                taken,
                fresh,
            ),
        allocation is Granted <==> !taken,
        allocation matches Allocation::Granted(id) ==> id@ == candidate@,
        allocation matches Allocation::Retry(next) ==> is_generated_id(next@),
{
    let fresh = random_id();
    let ghost drawn = fresh@;
    let allocation = settle_probe(candidate, taken, fresh);
    assert(allocation@ == allocation_of(candidate@, taken, drawn));
    allocation
}

} // verus!
