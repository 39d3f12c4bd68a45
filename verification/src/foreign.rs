//! Messages that the protocol messages hold but whose definitions lie outside
//! this library. Each is carried as the JSON object that writes it.

use vstd::prelude::*;
use crate::embedded::Embedded;

verus! {

/// An `astria.primitive.v1.Address` message.
pub type Address = Embedded;
/// An `astria.primitive.v1.Uint128` message.
pub type Uint128 = Embedded;
/// An `astria.primitive.v1.RollupId` message.
pub type RollupId = Embedded;
/// A `penumbra.core.component.ibc.v1.IbcRelay` message.
pub type IbcRelay = Embedded;
/// A `tendermint.abci.ValidatorUpdate` message (as vendored by Astria).
pub type ValidatorUpdate = Embedded;
/// A `tendermint.crypto.PublicKey` message (as vendored by Astria).
pub type PublicKey = Embedded;
/// A `tendermint.abci.ExtendedCommitInfo` message (as vendored by Astria).
pub type ExtendedCommitInfo = Embedded;
/// A `connect.types.v2.CurrencyPair` message.
pub type CurrencyPair = Embedded;
/// A `connect.marketmap.v2.Market` message.
pub type Market = Embedded;
/// An `astria.protocol.transactions.v1alpha1.TransactionFee` message.
pub type TransactionFee = Embedded;
/// A `TransferFeeComponents` message of the `astria.protocol.fees` package.
pub type TransferFeeComponents = Embedded;
/// A `SequenceFeeComponents` message of the `astria.protocol.fees` package.
pub type SequenceFeeComponents = Embedded;
/// A `RollupDataSubmissionFeeComponents` message of the `astria.protocol.fees` package.
pub type RollupDataSubmissionFeeComponents = Embedded;
/// An `Ics20WithdrawalFeeComponents` message of the `astria.protocol.fees` package.
pub type Ics20WithdrawalFeeComponents = Embedded;
/// An `InitBridgeAccountFeeComponents` message of the `astria.protocol.fees` package.
pub type InitBridgeAccountFeeComponents = Embedded;
/// A `BridgeLockFeeComponents` message of the `astria.protocol.fees` package.
pub type BridgeLockFeeComponents = Embedded;
/// A `BridgeUnlockFeeComponents` message of the `astria.protocol.fees` package.
pub type BridgeUnlockFeeComponents = Embedded;
/// A `BridgeSudoChangeFeeComponents` message of the `astria.protocol.fees` package.
pub type BridgeSudoChangeFeeComponents = Embedded;
/// A `BridgeTransferFeeComponents` message of the `astria.protocol.fees` package.
pub type BridgeTransferFeeComponents = Embedded;
/// An `IbcRelayFeeComponents` message of the `astria.protocol.fees` package.
pub type IbcRelayFeeComponents = Embedded;
/// A `ValidatorUpdateFeeComponents` message of the `astria.protocol.fees` package.
pub type ValidatorUpdateFeeComponents = Embedded;
/// A `FeeAssetChangeFeeComponents` message of the `astria.protocol.fees` package.
pub type FeeAssetChangeFeeComponents = Embedded;
/// A `FeeChangeFeeComponents` message of the `astria.protocol.fees` package.
pub type FeeChangeFeeComponents = Embedded;
/// An `IbcRelayerChangeFeeComponents` message of the `astria.protocol.fees` package.
pub type IbcRelayerChangeFeeComponents = Embedded;
/// A `SudoAddressChangeFeeComponents` message of the `astria.protocol.fees` package.
pub type SudoAddressChangeFeeComponents = Embedded;
/// An `IbcSudoChangeFeeComponents` message of the `astria.protocol.fees` package.
pub type IbcSudoChangeFeeComponents = Embedded;
/// A `RecoverIbcClientFeeComponents` message of the `astria.protocol.fees` package.
pub type RecoverIbcClientFeeComponents = Embedded;
/// A `CurrencyPairsChangeFeeComponents` message of the `astria.protocol.fees` package.
pub type CurrencyPairsChangeFeeComponents = Embedded;
/// A `MarketsChangeFeeComponents` message of the `astria.protocol.fees` package.
pub type MarketsChangeFeeComponents = Embedded;
/// A `CreateOrderFeeComponents` message of the `astria.protocol.fees` package.
pub type CreateOrderFeeComponents = Embedded;
/// A `CancelOrderFeeComponents` message of the `astria.protocol.fees` package.
pub type CancelOrderFeeComponents = Embedded;
/// A `CreateMarketFeeComponents` message of the `astria.protocol.fees` package.
pub type CreateMarketFeeComponents = Embedded;
/// An `UpdateMarketFeeComponents` message of the `astria.protocol.fees` package.
pub type UpdateMarketFeeComponents = Embedded;

} // verus!
