use vstd::prelude::*;

verus! {

/// The category of a value held in an interpreter's working memory.
pub enum Item {
    Atomic,
    Symbol,
    Literal,
    CompositeSymbol,
    CompositeLiteral,
    CompositeMix,
}

/// A tagged value of working memory: its category, its text, its type's name,
/// and whether it is quantum and whether its type is suppressed.
pub struct WorkingDataItem {
    data: Item,
    value: String,
    data_type: String,
    is_quantum: bool,
    suppress_type: bool,
}

/// What a layer of working data built over memory blocks offers.
pub trait WorkingData {
    fn new();

    fn push();

    fn pop();

    fn free();

    fn is_quantum(&self) -> bool;
}

} // verus!
