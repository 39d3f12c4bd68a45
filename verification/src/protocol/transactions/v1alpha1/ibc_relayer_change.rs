use vstd::prelude::*;
use crate::foreign::Address;
use crate::json::JsonV;

verus! {

/// The members of the oneof `value` of `astria.protocol.transactions.v1alpha1.IbcRelayerChange`, of which at most one is set.
#[derive(Clone, Debug, PartialEq)]
pub enum Value {
    Addition(Address),
    Removal(Address),
}

/// The mathematical content of a [`Value`].
pub enum ValueV {
    Addition(Seq<(Seq<char>, JsonV)>),
    Removal(Seq<(Seq<char>, JsonV)>),
}

impl View for Value {
    type V = ValueV;

    open spec fn view(&self) -> ValueV {
        match self {
            Value::Addition(x) => ValueV::Addition(x@),
            Value::Removal(x) => ValueV::Removal(x@),
        }
    }
}

/// The view of an optional member.
pub open spec fn opt_view(v: Option<Value>) -> Option<ValueV> {
    match v {
        Some(x) => Some(x@),
        None => None,
    }
}

} // verus!
