use vstd::prelude::*;
use super::{CurrencyPairs, CurrencyPairsV};

verus! {

/// The members of the oneof `value` of `astria.protocol.transaction.v1.CurrencyPairsChange`, of which at most one is set.
#[derive(Clone, Debug, PartialEq)]
pub enum Value {
    Addition(CurrencyPairs),
    Removal(CurrencyPairs),
}

/// The mathematical content of a [`Value`].
pub enum ValueV {
    Addition(CurrencyPairsV),
    Removal(CurrencyPairsV),
}

impl View for Value {
    type V = ValueV;

    open spec fn view(&self) -> ValueV {
        match self {
            Value::Addition(x) => ValueV::Addition(x@),
            Value::Removal(x) => ValueV::Removal(x@),
        }
    }
}

/// The view of an optional member.
pub open spec fn opt_view(v: Option<Value>) -> Option<ValueV> {
    match v {
        Some(x) => Some(x@),
        None => None,
    }
}

} // verus!
