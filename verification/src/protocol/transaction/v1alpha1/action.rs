use vstd::prelude::*;
use super::{
    BridgeLock, BridgeLockV, BridgeSudoChange, BridgeSudoChangeV, BridgeUnlock, BridgeUnlockV,
    FeeAssetChange, FeeAssetChangeV, FeeChange, FeeChangeV, IbcRelayerChange, IbcRelayerChangeV,
    IbcSudoChange, IbcSudoChangeV, Ics20Withdrawal, Ics20WithdrawalV, InitBridgeAccount,
    InitBridgeAccountV, RollupDataSubmission, RollupDataSubmissionV, SudoAddressChange,
    SudoAddressChangeV, Transfer, TransferV,
};
use crate::foreign::{IbcRelay, ValidatorUpdate};
use crate::json::JsonV;

verus! {

/// The members of the oneof `value` of `astria.protocol.transaction.v1alpha1.Action`, of which at most one is set.
#[derive(Clone, Debug, PartialEq)]
pub enum Value {
    Transfer(Transfer),
    RollupDataSubmission(RollupDataSubmission),
    InitBridgeAccount(InitBridgeAccount),
    BridgeLock(BridgeLock),
    BridgeUnlock(BridgeUnlock),
    BridgeSudoChange(BridgeSudoChange),
    Ibc(IbcRelay),
    Ics20Withdrawal(Ics20Withdrawal),
    SudoAddressChange(SudoAddressChange),
    ValidatorUpdate(ValidatorUpdate),
    IbcRelayerChange(IbcRelayerChange),
    FeeAssetChange(FeeAssetChange),
    FeeChange(FeeChange),
    IbcSudoChange(IbcSudoChange),
}

/// The mathematical content of a [`Value`].
pub enum ValueV {
    Transfer(TransferV),
    RollupDataSubmission(RollupDataSubmissionV),
    InitBridgeAccount(InitBridgeAccountV),
    BridgeLock(BridgeLockV),
    BridgeUnlock(BridgeUnlockV),
    BridgeSudoChange(BridgeSudoChangeV),
    Ibc(Seq<(Seq<char>, JsonV)>),
    Ics20Withdrawal(Ics20WithdrawalV),
    SudoAddressChange(SudoAddressChangeV),
    ValidatorUpdate(Seq<(Seq<char>, JsonV)>),
    IbcRelayerChange(IbcRelayerChangeV),
    FeeAssetChange(FeeAssetChangeV),
    FeeChange(FeeChangeV),
    IbcSudoChange(IbcSudoChangeV),
}

impl View for Value {
    type V = ValueV;

    open spec fn view(&self) -> ValueV {
        match self {
            Value::Transfer(x) => ValueV::Transfer(x@),
            Value::RollupDataSubmission(x) => ValueV::RollupDataSubmission(x@),
            Value::InitBridgeAccount(x) => ValueV::InitBridgeAccount(x@),
            Value::BridgeLock(x) => ValueV::BridgeLock(x@),
            Value::BridgeUnlock(x) => ValueV::BridgeUnlock(x@),
            Value::BridgeSudoChange(x) => ValueV::BridgeSudoChange(x@),
            Value::Ibc(x) => ValueV::Ibc(x@),
            Value::Ics20Withdrawal(x) => ValueV::Ics20Withdrawal(x@),
            Value::SudoAddressChange(x) => ValueV::SudoAddressChange(x@),
            Value::ValidatorUpdate(x) => ValueV::ValidatorUpdate(x@),
            Value::IbcRelayerChange(x) => ValueV::IbcRelayerChange(x@),
            Value::FeeAssetChange(x) => ValueV::FeeAssetChange(x@),
            Value::FeeChange(x) => ValueV::FeeChange(x@),
            Value::IbcSudoChange(x) => ValueV::IbcSudoChange(x@),
        }
    }
}

/// The view of an optional member.
pub open spec fn opt_view(v: Option<Value>) -> Option<ValueV> {
    match v {
        Some(x) => Some(x@),
        None => None,
    }
}

} // verus!
