use vstd::prelude::*;
use crate::foreign::{
    BridgeLockFeeComponents, BridgeSudoChangeFeeComponents, BridgeUnlockFeeComponents,
    FeeAssetChangeFeeComponents, FeeChangeFeeComponents, IbcRelayFeeComponents,
    IbcRelayerChangeFeeComponents, IbcSudoChangeFeeComponents, Ics20WithdrawalFeeComponents,
    InitBridgeAccountFeeComponents, SequenceFeeComponents, SudoAddressChangeFeeComponents,
    TransferFeeComponents, ValidatorUpdateFeeComponents,
};
use crate::json::JsonV;

verus! {

/// The members of the oneof `fee_components` of `astria.protocol.transactions.v1alpha1.FeeChange`, of which at most one is set.
#[derive(Clone, Debug, PartialEq)]
pub enum FeeComponents {
    BridgeLock(BridgeLockFeeComponents),
    BridgeSudoChange(BridgeSudoChangeFeeComponents),
    BridgeUnlock(BridgeUnlockFeeComponents),
    FeeAssetChange(FeeAssetChangeFeeComponents),
    FeeChange(FeeChangeFeeComponents),
    IbcRelay(IbcRelayFeeComponents),
    IbcRelayerChange(IbcRelayerChangeFeeComponents),
    IbcSudoChange(IbcSudoChangeFeeComponents),
    Ics20Withdrawal(Ics20WithdrawalFeeComponents),
    InitBridgeAccount(InitBridgeAccountFeeComponents),
    Sequence(SequenceFeeComponents),
    SudoAddressChange(SudoAddressChangeFeeComponents),
    Transfer(TransferFeeComponents),
    ValidatorUpdate(ValidatorUpdateFeeComponents),
}

/// The mathematical content of a [`FeeComponents`].
pub enum FeeComponentsV {
    BridgeLock(Seq<(Seq<char>, JsonV)>),
    BridgeSudoChange(Seq<(Seq<char>, JsonV)>),
    BridgeUnlock(Seq<(Seq<char>, JsonV)>),
    FeeAssetChange(Seq<(Seq<char>, JsonV)>),
    FeeChange(Seq<(Seq<char>, JsonV)>),
    IbcRelay(Seq<(Seq<char>, JsonV)>),
    IbcRelayerChange(Seq<(Seq<char>, JsonV)>),
    IbcSudoChange(Seq<(Seq<char>, JsonV)>),
    Ics20Withdrawal(Seq<(Seq<char>, JsonV)>),
    InitBridgeAccount(Seq<(Seq<char>, JsonV)>),
    Sequence(Seq<(Seq<char>, JsonV)>),
    SudoAddressChange(Seq<(Seq<char>, JsonV)>),
    Transfer(Seq<(Seq<char>, JsonV)>),
    ValidatorUpdate(Seq<(Seq<char>, JsonV)>),
}

impl View for FeeComponents {
    type V = FeeComponentsV;

    open spec fn view(&self) -> FeeComponentsV {
        match self {
            FeeComponents::BridgeLock(x) => FeeComponentsV::BridgeLock(x@),
            FeeComponents::BridgeSudoChange(x) => FeeComponentsV::BridgeSudoChange(x@),
            FeeComponents::BridgeUnlock(x) => FeeComponentsV::BridgeUnlock(x@),
            FeeComponents::FeeAssetChange(x) => FeeComponentsV::FeeAssetChange(x@),
            FeeComponents::FeeChange(x) => FeeComponentsV::FeeChange(x@),
            FeeComponents::IbcRelay(x) => FeeComponentsV::IbcRelay(x@),
            FeeComponents::IbcRelayerChange(x) => FeeComponentsV::IbcRelayerChange(x@),
            FeeComponents::IbcSudoChange(x) => FeeComponentsV::IbcSudoChange(x@),
            FeeComponents::Ics20Withdrawal(x) => FeeComponentsV::Ics20Withdrawal(x@),
            FeeComponents::InitBridgeAccount(x) => FeeComponentsV::InitBridgeAccount(x@),
            FeeComponents::Sequence(x) => FeeComponentsV::Sequence(x@),
            FeeComponents::SudoAddressChange(x) => FeeComponentsV::SudoAddressChange(x@),
            FeeComponents::Transfer(x) => FeeComponentsV::Transfer(x@),
            FeeComponents::ValidatorUpdate(x) => FeeComponentsV::ValidatorUpdate(x@),
        }
    }
}

/// The view of an optional member.
pub open spec fn opt_view(v: Option<FeeComponents>) -> Option<FeeComponentsV> {
    match v {
        Some(x) => Some(x@),
        None => None,
    }
}

} // verus!
