use vstd::prelude::*;
use crate::foreign::{
    BridgeLockFeeComponents, BridgeSudoChangeFeeComponents, BridgeTransferFeeComponents,
    BridgeUnlockFeeComponents, CancelOrderFeeComponents, CreateMarketFeeComponents,
    CreateOrderFeeComponents, CurrencyPairsChangeFeeComponents, FeeAssetChangeFeeComponents,
    FeeChangeFeeComponents, IbcRelayFeeComponents, IbcRelayerChangeFeeComponents,
    IbcSudoChangeFeeComponents, Ics20WithdrawalFeeComponents, InitBridgeAccountFeeComponents,
    MarketsChangeFeeComponents, RecoverIbcClientFeeComponents, RollupDataSubmissionFeeComponents,
    SudoAddressChangeFeeComponents, TransferFeeComponents, UpdateMarketFeeComponents,
    ValidatorUpdateFeeComponents,
};
use crate::json::JsonV;

verus! {

/// The members of the oneof `fee_components` of `astria.protocol.transaction.v1.FeeChange`, of which at most one is set.
#[derive(Clone, Debug, PartialEq)]
pub enum FeeComponents {
    BridgeLock(BridgeLockFeeComponents),
    BridgeSudoChange(BridgeSudoChangeFeeComponents),
    BridgeUnlock(BridgeUnlockFeeComponents),
    FeeAssetChange(FeeAssetChangeFeeComponents),
    FeeChange(FeeChangeFeeComponents),
    IbcRelay(IbcRelayFeeComponents),
    IbcRelayerChange(IbcRelayerChangeFeeComponents),
    IbcSudoChange(IbcSudoChangeFeeComponents),
    Ics20Withdrawal(Ics20WithdrawalFeeComponents),
    InitBridgeAccount(InitBridgeAccountFeeComponents),
    RollupDataSubmission(RollupDataSubmissionFeeComponents),
    SudoAddressChange(SudoAddressChangeFeeComponents),
    Transfer(TransferFeeComponents),
    ValidatorUpdate(ValidatorUpdateFeeComponents),
    BridgeTransfer(BridgeTransferFeeComponents),
    RecoverIbcClient(RecoverIbcClientFeeComponents),
    CurrencyPairsChange(CurrencyPairsChangeFeeComponents),
    MarketsChange(MarketsChangeFeeComponents),
    CreateOrder(CreateOrderFeeComponents),
    CancelOrder(CancelOrderFeeComponents),
    CreateMarket(CreateMarketFeeComponents),
    UpdateMarket(UpdateMarketFeeComponents),
}

/// The mathematical content of a [`FeeComponents`].
pub enum FeeComponentsV {
    BridgeLock(Seq<(Seq<char>, JsonV)>),
    BridgeSudoChange(Seq<(Seq<char>, JsonV)>),
    BridgeUnlock(Seq<(Seq<char>, JsonV)>),
    FeeAssetChange(Seq<(Seq<char>, JsonV)>),
    FeeChange(Seq<(Seq<char>, JsonV)>),
    IbcRelay(Seq<(Seq<char>, JsonV)>),
    IbcRelayerChange(Seq<(Seq<char>, JsonV)>),
    IbcSudoChange(Seq<(Seq<char>, JsonV)>),
    Ics20Withdrawal(Seq<(Seq<char>, JsonV)>),
    InitBridgeAccount(Seq<(Seq<char>, JsonV)>),
    RollupDataSubmission(Seq<(Seq<char>, JsonV)>),
    SudoAddressChange(Seq<(Seq<char>, JsonV)>),
    Transfer(Seq<(Seq<char>, JsonV)>),
    ValidatorUpdate(Seq<(Seq<char>, JsonV)>),
    BridgeTransfer(Seq<(Seq<char>, JsonV)>),
    RecoverIbcClient(Seq<(Seq<char>, JsonV)>),
    CurrencyPairsChange(Seq<(Seq<char>, JsonV)>),
    MarketsChange(Seq<(Seq<char>, JsonV)>),
    CreateOrder(Seq<(Seq<char>, JsonV)>),
    CancelOrder(Seq<(Seq<char>, JsonV)>),
    CreateMarket(Seq<(Seq<char>, JsonV)>),
    UpdateMarket(Seq<(Seq<char>, JsonV)>),
}

impl View for FeeComponents {
    type V = FeeComponentsV;

    open spec fn view(&self) -> FeeComponentsV {
        match self {
            FeeComponents::BridgeLock(x) => FeeComponentsV::BridgeLock(x@),
            FeeComponents::BridgeSudoChange(x) => FeeComponentsV::BridgeSudoChange(x@),
            FeeComponents::BridgeUnlock(x) => FeeComponentsV::BridgeUnlock(x@),
            FeeComponents::FeeAssetChange(x) => FeeComponentsV::FeeAssetChange(x@),
            FeeComponents::FeeChange(x) => FeeComponentsV::FeeChange(x@),
            FeeComponents::IbcRelay(x) => FeeComponentsV::IbcRelay(x@),
            FeeComponents::IbcRelayerChange(x) => FeeComponentsV::IbcRelayerChange(x@),
            FeeComponents::IbcSudoChange(x) => FeeComponentsV::IbcSudoChange(x@),
            FeeComponents::Ics20Withdrawal(x) => FeeComponentsV::Ics20Withdrawal(x@),
            FeeComponents::InitBridgeAccount(x) => FeeComponentsV::InitBridgeAccount(x@),
            FeeComponents::RollupDataSubmission(x) => FeeComponentsV::RollupDataSubmission(x@),
            FeeComponents::SudoAddressChange(x) => FeeComponentsV::SudoAddressChange(x@),
            FeeComponents::Transfer(x) => FeeComponentsV::Transfer(x@),
            FeeComponents::ValidatorUpdate(x) => FeeComponentsV::ValidatorUpdate(x@),
            FeeComponents::BridgeTransfer(x) => FeeComponentsV::BridgeTransfer(x@),
            FeeComponents::RecoverIbcClient(x) => FeeComponentsV::RecoverIbcClient(x@),
            FeeComponents::CurrencyPairsChange(x) => FeeComponentsV::CurrencyPairsChange(x@),
            FeeComponents::MarketsChange(x) => FeeComponentsV::MarketsChange(x@),
            FeeComponents::CreateOrder(x) => FeeComponentsV::CreateOrder(x@),
            FeeComponents::CancelOrder(x) => FeeComponentsV::CancelOrder(x@),
            FeeComponents::CreateMarket(x) => FeeComponentsV::CreateMarket(x@),
            FeeComponents::UpdateMarket(x) => FeeComponentsV::UpdateMarket(x@),
        }
    }
}

/// The view of an optional member.
pub open spec fn opt_view(v: Option<FeeComponents>) -> Option<FeeComponentsV> {
    match v {
        Some(x) => Some(x@),
        None => None,
    }
}

} // verus!
