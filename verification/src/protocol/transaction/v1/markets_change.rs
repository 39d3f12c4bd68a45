use vstd::prelude::*;
use super::{Markets, MarketsV};

verus! {

/// The members of the oneof `action` of `astria.protocol.transaction.v1.MarketsChange`, of which at most one is set.
#[derive(Clone, Debug, PartialEq)]
pub enum Action {
    Creation(Markets),
    Removal(Markets),
    Update(Markets),
}

/// The mathematical content of an [`Action`].
pub enum ActionV {
    Creation(MarketsV),
    Removal(MarketsV),
    Update(MarketsV),
}

impl View for Action {
    type V = ActionV;

    open spec fn view(&self) -> ActionV {
        match self {
            Action::Creation(x) => ActionV::Creation(x@),
            Action::Removal(x) => ActionV::Removal(x@),
            Action::Update(x) => ActionV::Update(x@),
        }
    }
}

/// The view of an optional member.
pub open spec fn opt_view(v: Option<Action>) -> Option<ActionV> {
    match v {
        Some(x) => Some(x@),
        None => None,
    }
}

} // verus!
