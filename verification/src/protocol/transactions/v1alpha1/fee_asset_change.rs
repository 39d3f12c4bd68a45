use vstd::prelude::*;

verus! {

/// The members of the oneof `value` of `astria.protocol.transactions.v1alpha1.FeeAssetChange`, of which at most one is set.
#[derive(Clone, Debug, PartialEq)]
pub enum Value {
    Addition(String),
    Removal(String),
}

/// The mathematical content of a [`Value`].
pub enum ValueV {
    Addition(Seq<char>),
    Removal(Seq<char>),
}

impl View for Value {
    type V = ValueV;

    open spec fn view(&self) -> ValueV {
        match self {
            Value::Addition(x) => ValueV::Addition(x@),
            Value::Removal(x) => ValueV::Removal(x@),
        }
    }
}

/// The view of an optional member.
pub open spec fn opt_view(v: Option<Value>) -> Option<ValueV> {
    match v {
        Some(x) => Some(x@),
        None => None,
    }
}

} // verus!
