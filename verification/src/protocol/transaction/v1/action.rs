use vstd::prelude::*;
use super::{
    BridgeLock, BridgeLockV, BridgeSudoChange, BridgeSudoChangeV, BridgeTransfer, BridgeTransferV,
    BridgeUnlock, BridgeUnlockV, CancelOrder, CancelOrderV, CreateMarket, CreateMarketV,
    CreateOrder, CreateOrderV, CurrencyPairsChange, CurrencyPairsChangeV, FeeAssetChange,
    FeeAssetChangeV, FeeChange, FeeChangeV, IbcRelayerChange, IbcRelayerChangeV, IbcSudoChange,
    IbcSudoChangeV, Ics20Withdrawal, Ics20WithdrawalV, InitBridgeAccount, InitBridgeAccountV,
    MarketsChange, MarketsChangeV, RecoverIbcClient, RecoverIbcClientV, RollupDataSubmission,
    RollupDataSubmissionV, SudoAddressChange, SudoAddressChangeV, Transfer, TransferV, UpdateMarket,
    UpdateMarketV, ValidatorUpdate, ValidatorUpdateV,
};
use crate::foreign::IbcRelay;
use crate::json::JsonV;

verus! {

/// The members of the oneof `value` of `astria.protocol.transaction.v1.Action`, of which at most one is set.
#[derive(Clone, Debug, PartialEq)]
pub enum Value {
    Transfer(Transfer),
    RollupDataSubmission(RollupDataSubmission),
    InitBridgeAccount(InitBridgeAccount),
    BridgeLock(BridgeLock),
    BridgeUnlock(BridgeUnlock),
    BridgeSudoChange(BridgeSudoChange),
    BridgeTransfer(BridgeTransfer),
    Ibc(IbcRelay),
    Ics20Withdrawal(Ics20Withdrawal),
    SudoAddressChange(SudoAddressChange),
    ValidatorUpdate(ValidatorUpdate),
    IbcRelayerChange(IbcRelayerChange),
    FeeAssetChange(FeeAssetChange),
    FeeChange(FeeChange),
    IbcSudoChange(IbcSudoChange),
    RecoverIbcClient(RecoverIbcClient),
    CurrencyPairsChange(CurrencyPairsChange),
    MarketsChange(MarketsChange),
    CreateOrder(CreateOrder),
    CancelOrder(CancelOrder),
    CreateMarket(CreateMarket),
    UpdateMarket(UpdateMarket),
}

/// The mathematical content of a [`Value`].
pub enum ValueV {
    Transfer(TransferV),
    RollupDataSubmission(RollupDataSubmissionV),
    InitBridgeAccount(InitBridgeAccountV),
    BridgeLock(BridgeLockV),
    BridgeUnlock(BridgeUnlockV),
    BridgeSudoChange(BridgeSudoChangeV),
    BridgeTransfer(BridgeTransferV),
    Ibc(Seq<(Seq<char>, JsonV)>),
    Ics20Withdrawal(Ics20WithdrawalV),
    SudoAddressChange(SudoAddressChangeV),
    ValidatorUpdate(ValidatorUpdateV),
    IbcRelayerChange(IbcRelayerChangeV),
    FeeAssetChange(FeeAssetChangeV),
    FeeChange(FeeChangeV),
    IbcSudoChange(IbcSudoChangeV),
    RecoverIbcClient(RecoverIbcClientV),
    CurrencyPairsChange(CurrencyPairsChangeV),
    MarketsChange(MarketsChangeV),
    CreateOrder(CreateOrderV),
    CancelOrder(CancelOrderV),
    CreateMarket(CreateMarketV),
    UpdateMarket(UpdateMarketV),
}

impl View for Value {
    type V = ValueV;

    open spec fn view(&self) -> ValueV {
        match self {
            Value::Transfer(x) => ValueV::Transfer(x@),
            Value::RollupDataSubmission(x) => ValueV::RollupDataSubmission(x@),
            Value::InitBridgeAccount(x) => ValueV::InitBridgeAccount(x@),
            Value::BridgeLock(x) => ValueV::BridgeLock(x@),
            Value::BridgeUnlock(x) => ValueV::BridgeUnlock(x@),
            Value::BridgeSudoChange(x) => ValueV::BridgeSudoChange(x@),
            Value::BridgeTransfer(x) => ValueV::BridgeTransfer(x@),
            Value::Ibc(x) => ValueV::Ibc(x@),
            Value::Ics20Withdrawal(x) => ValueV::Ics20Withdrawal(x@),
            Value::SudoAddressChange(x) => ValueV::SudoAddressChange(x@),
            Value::ValidatorUpdate(x) => ValueV::ValidatorUpdate(x@),
            Value::IbcRelayerChange(x) => ValueV::IbcRelayerChange(x@),
            Value::FeeAssetChange(x) => ValueV::FeeAssetChange(x@),
            Value::FeeChange(x) => ValueV::FeeChange(x@),
            Value::IbcSudoChange(x) => ValueV::IbcSudoChange(x@),
            Value::RecoverIbcClient(x) => ValueV::RecoverIbcClient(x@),
            Value::CurrencyPairsChange(x) => ValueV::CurrencyPairsChange(x@),
            Value::MarketsChange(x) => ValueV::MarketsChange(x@),
            Value::CreateOrder(x) => ValueV::CreateOrder(x@),
            Value::CancelOrder(x) => ValueV::CancelOrder(x@),
            Value::CreateMarket(x) => ValueV::CreateMarket(x@),
            Value::UpdateMarket(x) => ValueV::UpdateMarket(x@),
        }
    }
}

/// The view of an optional member.
pub open spec fn opt_view(v: Option<Value>) -> Option<ValueV> {
    match v {
        Some(x) => Some(x@),
        None => None,
    }
}

} // verus!
