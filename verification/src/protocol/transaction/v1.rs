//! Transactions and actions of the sequencer, version one.
//!
//! Each message is read from and written to JSON as the protobuf JSON mapping
//! does it (`astria.protocol.transaction.v1`).

pub mod action;
pub mod currency_pairs_change;
pub mod fee_asset_change;
pub mod fee_change;
pub mod ibc_relayer_change;
pub mod markets_change;

use vstd::prelude::*;
use crate::decimal::{decimal, signed_decimal};
use crate::embedded::{embedded_field, embedded_value, opt_embedded_view};
use crate::fields::{
    base64_decoded, base64_encoded, bool_field, bytes_field, bytes_value, i64_field, i64_value,
    lemma_read_i64_value, lemma_read_u64_value, read_bool, read_i64, read_bytes, read_embedded,
    read_string, read_string_opt, read_u32, read_u64, string_field, string_opt_field, string_value,
    u32_field, u64_field, u64_value,
};
use crate::json::{
    entry_if, fold_entries, lemma_fold_entries_append, lemma_fold_entries_step, lemma_fold_entry_if,
    lemma_view_entries_index, lemma_view_entries_len, lemma_view_items_index, lemma_view_items_len,
    push_entry, str_eq, view_entries, view_items, Json, JsonError, JsonErrorV, JsonV, entry_keys,
    key_if, lemma_entry_keys_if, lemma_entry_keys_append, lemma_fold_same_keys, lemma_fold_keeps,
    first_set, lemma_first_set,
};
use crate::lists::{
    embedded_reader, embedded_writer, embeddeds_field, embeddeds_value, embeddeds_view,
    lemma_read_list_next, lemma_read_list_prefix_error, lemma_read_list_roundtrip, read_array,
    read_list,
};
use crate::foreign::{Address, CurrencyPair, Market, PublicKey, RollupId, Uint128};
use crate::google::protobuf::{Any, AnyV};
use crate::protocol::orderbook::v1::{
    OrderSide, OrderSideV, OrderTimeInForce, OrderTimeInForceV, OrderType, OrderTypeV,
};

verus! {

/// The `astria.protocol.transaction.v1.Action` message.
#[derive(Clone, Debug, PartialEq)]
pub struct Action {
    pub value: Option<action::Value>,
}

/// The mathematical content of an [`Action`].
pub struct ActionV {
    pub value: Option<action::ValueV>,
}

impl View for Action {
    type V = ActionV;

    open spec fn view(&self) -> ActionV {
        ActionV {
            value: action::opt_view(self.value),
        }
    }
}

impl Default for Action {
    fn default() -> (r: Self)
        ensures r@ == Action::spec_default(),
    {
        let r = Action {
            value: None,
        };
        r
    }
}

impl Action {
    /// The fully qualified protobuf name of the message.
    pub fn full_name() -> (r: String)
        ensures r@ == "astria.protocol.transaction.v1.Action"@,
    {
        "astria.protocol.transaction.v1.Action".to_string()
    }

    /// Every field at its default: empty strings, bytes and lists, zero, `false`, unset.
    pub open spec fn spec_default() -> ActionV {
        ActionV {
            value: None,
        }
    }

    /// The view of an optional field of this message type.
    pub open spec fn view_opt(o: Option<Self>) -> Option<ActionV> {
        match o {
            Some(x) => Some(x@),
            None => None,
        }
    }

    /// The view of a repeated field of this message type.
    pub open spec fn view_list(v: Seq<Self>) -> Seq<ActionV> {
        v.map_values(|x: Self| x@)
    }

    /// The JSON name under which the set member of `value` is written.
    pub open spec fn spec_value_key(v: action::ValueV) -> Seq<char> {
        match v {
            action::ValueV::Transfer(_) => "transfer"@,
            action::ValueV::RollupDataSubmission(_) => "rollupDataSubmission"@,
            action::ValueV::InitBridgeAccount(_) => "initBridgeAccount"@,
            action::ValueV::BridgeLock(_) => "bridgeLock"@,
            action::ValueV::BridgeUnlock(_) => "bridgeUnlock"@,
            action::ValueV::BridgeSudoChange(_) => "bridgeSudoChange"@,
            action::ValueV::BridgeTransfer(_) => "bridgeTransfer"@,
            action::ValueV::Ibc(_) => "ibc"@,
            action::ValueV::Ics20Withdrawal(_) => "ics20Withdrawal"@,
            action::ValueV::SudoAddressChange(_) => "sudoAddressChange"@,
            action::ValueV::ValidatorUpdate(_) => "validatorUpdate"@,
            action::ValueV::IbcRelayerChange(_) => "ibcRelayerChange"@,
            action::ValueV::FeeAssetChange(_) => "feeAssetChange"@,
            action::ValueV::FeeChange(_) => "feeChange"@,
            action::ValueV::IbcSudoChange(_) => "ibcSudoChange"@,
            action::ValueV::RecoverIbcClient(_) => "recoverIbcClient"@,
            action::ValueV::CurrencyPairsChange(_) => "currencyPairsChange"@,
            action::ValueV::MarketsChange(_) => "marketsChange"@,
            action::ValueV::CreateOrder(_) => "createOrder"@,
            action::ValueV::CancelOrder(_) => "cancelOrder"@,
            action::ValueV::CreateMarket(_) => "createMarket"@,
            action::ValueV::UpdateMarket(_) => "updateMarket"@,
        }
    }

    /// The JSON value of the set member of `value`.
    pub open spec fn spec_value_json(v: action::ValueV) -> JsonV {
        match v {
            action::ValueV::Transfer(x) => Transfer::spec_to_json(x),
            action::ValueV::RollupDataSubmission(x) => RollupDataSubmission::spec_to_json(x),
            action::ValueV::InitBridgeAccount(x) => InitBridgeAccount::spec_to_json(x),
            action::ValueV::BridgeLock(x) => BridgeLock::spec_to_json(x),
            action::ValueV::BridgeUnlock(x) => BridgeUnlock::spec_to_json(x),
            action::ValueV::BridgeSudoChange(x) => BridgeSudoChange::spec_to_json(x),
            action::ValueV::BridgeTransfer(x) => BridgeTransfer::spec_to_json(x),
            action::ValueV::Ibc(x) => JsonV::Object(x),
            action::ValueV::Ics20Withdrawal(x) => Ics20Withdrawal::spec_to_json(x),
            action::ValueV::SudoAddressChange(x) => SudoAddressChange::spec_to_json(x),
            action::ValueV::ValidatorUpdate(x) => ValidatorUpdate::spec_to_json(x),
            action::ValueV::IbcRelayerChange(x) => IbcRelayerChange::spec_to_json(x),
            action::ValueV::FeeAssetChange(x) => FeeAssetChange::spec_to_json(x),
            action::ValueV::FeeChange(x) => FeeChange::spec_to_json(x),
            action::ValueV::IbcSudoChange(x) => IbcSudoChange::spec_to_json(x),
            action::ValueV::RecoverIbcClient(x) => RecoverIbcClient::spec_to_json(x),
            action::ValueV::CurrencyPairsChange(x) => CurrencyPairsChange::spec_to_json(x),
            action::ValueV::MarketsChange(x) => MarketsChange::spec_to_json(x),
            action::ValueV::CreateOrder(x) => CreateOrder::spec_to_json(x),
            action::ValueV::CancelOrder(x) => CancelOrder::spec_to_json(x),
            action::ValueV::CreateMarket(x) => CreateMarket::spec_to_json(x),
            action::ValueV::UpdateMarket(x) => UpdateMarket::spec_to_json(x),
        }
    }

    /// The member that the field `value` writes: none where it holds its default.
    pub open spec fn spec_entry_value(m: ActionV) -> Seq<(Seq<char>, JsonV)> {
        entry_if(m.value is Some, Self::spec_value_key(m.value.unwrap()), Self::spec_value_json(m.value.unwrap()))
    }

    /// The members of the JSON object of the message: each field that does not hold
    /// its default, under its JSON name, in the order of the fields.
    pub open spec fn spec_entries(m: ActionV) -> Seq<(Seq<char>, JsonV)> {
        Self::spec_entry_value(m)
    }

    /// The JSON object that the protobuf JSON mapping writes for the message.
    pub open spec fn spec_to_json(m: ActionV) -> JsonV {
        JsonV::Object(Self::spec_entries(m))
    }

    /// [`Self::spec_to_json`] as a function value, for repeated fields.
    pub open spec fn writer() -> spec_fn(ActionV) -> JsonV {
        |m: ActionV| Self::spec_to_json(m)
    }

    pub open spec fn spec_readable_value(m: ActionV) -> bool {
        (m.value matches Some(action::ValueV::RollupDataSubmission(x)) ==> RollupDataSubmission::spec_bytes_readable(x))
    }

    /// The bytes that the message holds, written in base64, read back as themselves.
    pub open spec fn spec_bytes_readable(m: ActionV) -> bool {
        &&& Self::spec_readable_value(m)
    }

    /// Why the field `value` cannot be written, if it cannot.
    pub open spec fn spec_error_value(m: ActionV) -> Option<JsonErrorV> {
        match m.value { Some(action::ValueV::CreateOrder(x)) => CreateOrder::spec_encode_error(x), _ => None }
    }

    /// The first field, in the order of the fields, that cannot be written: an
    /// enumeration field whose number names no value, or a message field that
    /// holds one. `None` when the whole message can be written.
    pub open spec fn spec_encode_error(m: ActionV) -> Option<JsonErrorV> {
        if Self::spec_error_value(m) is Some {
            Self::spec_error_value(m)
        } else {
            None
        }
    }

    fn write_value(&self, es: &mut Vec<(String, Json)>) -> (r: Result<(), JsonError>)
        ensures
            match r {
                Ok(_) => Self::spec_error_value(self@) is None
                    && view_entries(final(es)@) == view_entries(old(es)@) + Self::spec_entry_value(self@)
                    && Self::spec_readable_value(self@)
                ,
                Err(e) => Self::spec_error_value(self@) == Some(e@),
            },
    {
        match &self.value {
            Some(action::Value::Transfer(x)) => push_entry(es, "transfer", x.to_json()),
            Some(action::Value::RollupDataSubmission(x)) => push_entry(es, "rollupDataSubmission", x.to_json()),
            Some(action::Value::InitBridgeAccount(x)) => push_entry(es, "initBridgeAccount", x.to_json()),
            Some(action::Value::BridgeLock(x)) => push_entry(es, "bridgeLock", x.to_json()),
            Some(action::Value::BridgeUnlock(x)) => push_entry(es, "bridgeUnlock", x.to_json()),
            Some(action::Value::BridgeSudoChange(x)) => push_entry(es, "bridgeSudoChange", x.to_json()),
            Some(action::Value::BridgeTransfer(x)) => push_entry(es, "bridgeTransfer", x.to_json()),
            Some(action::Value::Ibc(x)) => push_entry(es, "ibc", embedded_value(x)),
            Some(action::Value::Ics20Withdrawal(x)) => push_entry(es, "ics20Withdrawal", x.to_json()),
            Some(action::Value::SudoAddressChange(x)) => push_entry(es, "sudoAddressChange", x.to_json()),
            Some(action::Value::ValidatorUpdate(x)) => push_entry(es, "validatorUpdate", x.to_json()),
            Some(action::Value::IbcRelayerChange(x)) => push_entry(es, "ibcRelayerChange", x.to_json()),
            Some(action::Value::FeeAssetChange(x)) => push_entry(es, "feeAssetChange", x.to_json()),
            Some(action::Value::FeeChange(x)) => push_entry(es, "feeChange", x.to_json()),
            Some(action::Value::IbcSudoChange(x)) => push_entry(es, "ibcSudoChange", x.to_json()),
            Some(action::Value::RecoverIbcClient(x)) => push_entry(es, "recoverIbcClient", x.to_json()),
            Some(action::Value::CurrencyPairsChange(x)) => push_entry(es, "currencyPairsChange", x.to_json()),
            Some(action::Value::MarketsChange(x)) => push_entry(es, "marketsChange", x.to_json()),
            Some(action::Value::CreateOrder(x)) => match x.to_json() {
                Ok(j) => push_entry(es, "createOrder", j),
                Err(e) => return Err(e),
            },
            Some(action::Value::CancelOrder(x)) => push_entry(es, "cancelOrder", x.to_json()),
            Some(action::Value::CreateMarket(x)) => push_entry(es, "createMarket", x.to_json()),
            Some(action::Value::UpdateMarket(x)) => push_entry(es, "updateMarket", x.to_json()),
            None => {},
        }
        assert(view_entries(es@) =~= view_entries(old(es)@) + Self::spec_entry_value(self@));
        Ok(())
    }

    /// Writes the message as a JSON object, or gives the error of the first field
    /// that cannot be written; reading the object back gives the message.
    pub fn to_json(&self) -> (r: Result<Json, JsonError>)
        ensures
            match r {
                Ok(j) => Self::spec_encode_error(self@) is None
                    && j@ == Self::spec_to_json(self@)
                    && Self::spec_bytes_readable(self@)
                    && Self::spec_from_json(j@) == Ok::<ActionV, JsonErrorV>(self@),
                Err(e) => Self::spec_encode_error(self@) == Some(e@),
            },
    {
        let mut es: Vec<(String, Json)> = Vec::new();
        let ghost mut acc: Seq<(Seq<char>, JsonV)> = Seq::empty();
        proof {
            assert(view_entries(es@) =~= acc);
        }
        match self.write_value(&mut es) {
            Ok(_) => {},
            Err(e) => return Err(e),
        }
        proof {
            acc = acc + Self::spec_entry_value(self@);
        }
        proof {
            assert(acc =~= Self::spec_entries(self@));
            Self::lemma_json_roundtrip(self@);
        }
        Ok(Json::Object(es))
    }

    /// Reads one member of the object into the message under construction; `seen`
    /// records which fields that have no unset state were already given.
    pub open spec fn spec_step(st: (ActionV, Seq<bool>), key: Seq<char>, v: JsonV) -> Result<(ActionV, Seq<bool>), JsonErrorV> {
        let m = st.0;
        let seen = st.1;
        if key == "transfer"@ {
            if m.value is Some {
                Err(JsonErrorV::DuplicateField("transfer"@))
            } else {
                match Transfer::spec_read_opt(v) {
                    Ok(Some(x)) => Ok((ActionV { value: Some(action::ValueV::Transfer(x)) }, seen)),
                    Ok(None) => Ok((ActionV { value: None }, seen)),
                    Err(e) => Err(e),
                }
            }
        } else if key == "rollupDataSubmission"@ || key == "rollup_data_submission"@ {
            if m.value is Some {
                Err(JsonErrorV::DuplicateField("rollupDataSubmission"@))
            } else {
                match RollupDataSubmission::spec_read_opt(v) {
                    Ok(Some(x)) => Ok((ActionV { value: Some(action::ValueV::RollupDataSubmission(x)) }, seen)),
                    Ok(None) => Ok((ActionV { value: None }, seen)),
                    Err(e) => Err(e),
                }
            }
        } else if key == "initBridgeAccount"@ || key == "init_bridge_account"@ {
            if m.value is Some {
                Err(JsonErrorV::DuplicateField("initBridgeAccount"@))
            } else {
                match InitBridgeAccount::spec_read_opt(v) {
                    Ok(Some(x)) => Ok((ActionV { value: Some(action::ValueV::InitBridgeAccount(x)) }, seen)),
                    Ok(None) => Ok((ActionV { value: None }, seen)),
                    Err(e) => Err(e),
                }
            }
        } else if key == "bridgeLock"@ || key == "bridge_lock"@ {
            if m.value is Some {
                Err(JsonErrorV::DuplicateField("bridgeLock"@))
            } else {
                match BridgeLock::spec_read_opt(v) {
                    Ok(Some(x)) => Ok((ActionV { value: Some(action::ValueV::BridgeLock(x)) }, seen)),
                    Ok(None) => Ok((ActionV { value: None }, seen)),
                    Err(e) => Err(e),
                }
            }
        } else if key == "bridgeUnlock"@ || key == "bridge_unlock"@ {
            if m.value is Some {
                Err(JsonErrorV::DuplicateField("bridgeUnlock"@))
            } else {
                match BridgeUnlock::spec_read_opt(v) {
                    Ok(Some(x)) => Ok((ActionV { value: Some(action::ValueV::BridgeUnlock(x)) }, seen)),
                    Ok(None) => Ok((ActionV { value: None }, seen)),
                    Err(e) => Err(e),
                }
            }
        } else if key == "bridgeSudoChange"@ || key == "bridge_sudo_change"@ {
            if m.value is Some {
                Err(JsonErrorV::DuplicateField("bridgeSudoChange"@))
            } else {
                match BridgeSudoChange::spec_read_opt(v) {
                    Ok(Some(x)) => Ok((ActionV { value: Some(action::ValueV::BridgeSudoChange(x)) }, seen)),
                    Ok(None) => Ok((ActionV { value: None }, seen)),
                    Err(e) => Err(e),
                }
            }
        } else if key == "bridgeTransfer"@ || key == "bridge_transfer"@ {
            if m.value is Some {
                Err(JsonErrorV::DuplicateField("bridgeTransfer"@))
            } else {
                match BridgeTransfer::spec_read_opt(v) {
                    Ok(Some(x)) => Ok((ActionV { value: Some(action::ValueV::BridgeTransfer(x)) }, seen)),
                    Ok(None) => Ok((ActionV { value: None }, seen)),
                    Err(e) => Err(e),
                }
            }
        } else if key == "ibc"@ {
            if m.value is Some {
                Err(JsonErrorV::DuplicateField("ibc"@))
            } else {
                match read_embedded(v) {
                    Ok(Some(x)) => Ok((ActionV { value: Some(action::ValueV::Ibc(x)) }, seen)),
                    Ok(None) => Ok((ActionV { value: None }, seen)),
                    Err(e) => Err(e),
                }
            }
        } else if key == "ics20Withdrawal"@ || key == "ics20_withdrawal"@ {
            if m.value is Some {
                Err(JsonErrorV::DuplicateField("ics20Withdrawal"@))
            } else {
                match Ics20Withdrawal::spec_read_opt(v) {
                    Ok(Some(x)) => Ok((ActionV { value: Some(action::ValueV::Ics20Withdrawal(x)) }, seen)),
                    Ok(None) => Ok((ActionV { value: None }, seen)),
                    Err(e) => Err(e),
                }
            }
        } else if key == "sudoAddressChange"@ || key == "sudo_address_change"@ {
            if m.value is Some {
                Err(JsonErrorV::DuplicateField("sudoAddressChange"@))
            } else {
                match SudoAddressChange::spec_read_opt(v) {
                    Ok(Some(x)) => Ok((ActionV { value: Some(action::ValueV::SudoAddressChange(x)) }, seen)),
                    Ok(None) => Ok((ActionV { value: None }, seen)),
                    Err(e) => Err(e),
                }
            }
        } else if key == "validatorUpdate"@ || key == "validator_update"@ {
            if m.value is Some {
                Err(JsonErrorV::DuplicateField("validatorUpdate"@))
            } else {
                match ValidatorUpdate::spec_read_opt(v) {
                    Ok(Some(x)) => Ok((ActionV { value: Some(action::ValueV::ValidatorUpdate(x)) }, seen)),
                    Ok(None) => Ok((ActionV { value: None }, seen)),
                    Err(e) => Err(e),
                }
            }
        } else if key == "ibcRelayerChange"@ || key == "ibc_relayer_change"@ {
            if m.value is Some {
                Err(JsonErrorV::DuplicateField("ibcRelayerChange"@))
            } else {
                match IbcRelayerChange::spec_read_opt(v) {
                    Ok(Some(x)) => Ok((ActionV { value: Some(action::ValueV::IbcRelayerChange(x)) }, seen)),
                    Ok(None) => Ok((ActionV { value: None }, seen)),
                    Err(e) => Err(e),
                }
            }
        } else if key == "feeAssetChange"@ || key == "fee_asset_change"@ {
            if m.value is Some {
                Err(JsonErrorV::DuplicateField("feeAssetChange"@))
            } else {
                match FeeAssetChange::spec_read_opt(v) {
                    Ok(Some(x)) => Ok((ActionV { value: Some(action::ValueV::FeeAssetChange(x)) }, seen)),
                    Ok(None) => Ok((ActionV { value: None }, seen)),
                    Err(e) => Err(e),
                }
            }
        } else if key == "feeChange"@ || key == "fee_change"@ {
            if m.value is Some {
                Err(JsonErrorV::DuplicateField("feeChange"@))
            } else {
                match FeeChange::spec_read_opt(v) {
                    Ok(Some(x)) => Ok((ActionV { value: Some(action::ValueV::FeeChange(x)) }, seen)),
                    Ok(None) => Ok((ActionV { value: None }, seen)),
                    Err(e) => Err(e),
                }
            }
        } else if key == "ibcSudoChange"@ || key == "ibc_sudo_change"@ {
            if m.value is Some {
                Err(JsonErrorV::DuplicateField("ibcSudoChange"@))
            } else {
                match IbcSudoChange::spec_read_opt(v) {
                    Ok(Some(x)) => Ok((ActionV { value: Some(action::ValueV::IbcSudoChange(x)) }, seen)),
                    Ok(None) => Ok((ActionV { value: None }, seen)),
                    Err(e) => Err(e),
                }
            }
        } else if key == "recoverIbcClient"@ || key == "recover_ibc_client"@ {
            if m.value is Some {
                Err(JsonErrorV::DuplicateField("recoverIbcClient"@))
            } else {
                match RecoverIbcClient::spec_read_opt(v) {
                    Ok(Some(x)) => Ok((ActionV { value: Some(action::ValueV::RecoverIbcClient(x)) }, seen)),
                    Ok(None) => Ok((ActionV { value: None }, seen)),
                    Err(e) => Err(e),
                }
            }
        } else if key == "currencyPairsChange"@ || key == "currency_pairs_change"@ {
            if m.value is Some {
                Err(JsonErrorV::DuplicateField("currencyPairsChange"@))
            } else {
                match CurrencyPairsChange::spec_read_opt(v) {
                    Ok(Some(x)) => Ok((ActionV { value: Some(action::ValueV::CurrencyPairsChange(x)) }, seen)),
                    Ok(None) => Ok((ActionV { value: None }, seen)),
                    Err(e) => Err(e),
                }
            }
        } else if key == "marketsChange"@ || key == "markets_change"@ {
            if m.value is Some {
                Err(JsonErrorV::DuplicateField("marketsChange"@))
            } else {
                match MarketsChange::spec_read_opt(v) {
                    Ok(Some(x)) => Ok((ActionV { value: Some(action::ValueV::MarketsChange(x)) }, seen)),
                    Ok(None) => Ok((ActionV { value: None }, seen)),
                    Err(e) => Err(e),
                }
            }
        } else if key == "createOrder"@ || key == "create_order"@ {
            if m.value is Some {
                Err(JsonErrorV::DuplicateField("createOrder"@))
            } else {
                match CreateOrder::spec_read_opt(v) {
                    Ok(Some(x)) => Ok((ActionV { value: Some(action::ValueV::CreateOrder(x)) }, seen)),
                    Ok(None) => Ok((ActionV { value: None }, seen)),
                    Err(e) => Err(e),
                }
            }
        } else if key == "cancelOrder"@ || key == "cancel_order"@ {
            if m.value is Some {
                Err(JsonErrorV::DuplicateField("cancelOrder"@))
            } else {
                match CancelOrder::spec_read_opt(v) {
                    Ok(Some(x)) => Ok((ActionV { value: Some(action::ValueV::CancelOrder(x)) }, seen)),
                    Ok(None) => Ok((ActionV { value: None }, seen)),
                    Err(e) => Err(e),
                }
            }
        } else if key == "createMarket"@ || key == "create_market"@ {
            if m.value is Some {
                Err(JsonErrorV::DuplicateField("createMarket"@))
            } else {
                match CreateMarket::spec_read_opt(v) {
                    Ok(Some(x)) => Ok((ActionV { value: Some(action::ValueV::CreateMarket(x)) }, seen)),
                    Ok(None) => Ok((ActionV { value: None }, seen)),
                    Err(e) => Err(e),
                }
            }
        } else if key == "updateMarket"@ || key == "update_market"@ {
            if m.value is Some {
                Err(JsonErrorV::DuplicateField("updateMarket"@))
            } else {
                match UpdateMarket::spec_read_opt(v) {
                    Ok(Some(x)) => Ok((ActionV { value: Some(action::ValueV::UpdateMarket(x)) }, seen)),
                    Ok(None) => Ok((ActionV { value: None }, seen)),
                    Err(e) => Err(e),
                }
            }
        } else {
            Err(JsonErrorV::UnknownField(key))
        }
    }

    /// [`Self::spec_step`] as a function value.
    pub open spec fn step_fn() -> spec_fn((ActionV, Seq<bool>), Seq<char>, JsonV) -> Result<(ActionV, Seq<bool>), JsonErrorV> {
        |st: (ActionV, Seq<bool>), key: Seq<char>, v: JsonV| Self::spec_step(st, key, v)
    }

    /// The state before the first member is read: the default message, no field seen.
    pub open spec fn spec_start() -> (ActionV, Seq<bool>) {
        (Self::spec_default(), Seq::<bool>::empty())
    }

    /// The message that a JSON value describes: an object whose keys each name a field
    /// (by its JSON name or its protobuf name), at most once each; fields that are not
    /// given keep their default. The first member that is refused gives the error.
    pub open spec fn spec_from_json(j: JsonV) -> Result<ActionV, JsonErrorV> {
        match j {
            JsonV::Object(es) => match fold_entries(Self::spec_start(), es, Self::step_fn()) {
                Ok(st) => Ok(st.0),
                Err(e) => Err(e),
            },
            _ => Err(JsonErrorV::ExpectedObject),
        }
    }

    /// [`Self::spec_from_json`] as a function value, for repeated fields.
    pub open spec fn reader() -> spec_fn(JsonV) -> Result<ActionV, JsonErrorV> {
        |v: JsonV| Self::spec_from_json(v)
    }

    /// An optional field of this message type: `null` leaves it unset.
    pub open spec fn spec_read_opt(v: JsonV) -> Result<Option<ActionV>, JsonErrorV> {
        match v {
            JsonV::Null => Ok(None),
            _ => match Self::spec_from_json(v) {
                Ok(x) => Ok(Some(x)),
                Err(e) => Err(e),
            },
        }
    }

    fn step(m: Self, seen: Vec<bool>, key: &String, v: &Json) -> (r: Result<(Self, Vec<bool>), JsonError>)
        requires seen@.len() == 0,
        ensures
            match r {
                Ok((m2, seen2)) => Self::spec_step((m@, seen@), key@, v@) == Ok::<(ActionV, Seq<bool>), JsonErrorV>((m2@, seen2@)) && seen2@.len() == 0,
                Err(e) => Self::spec_step((m@, seen@), key@, v@) == Err::<(ActionV, Seq<bool>), JsonErrorV>(e@),
            },
    {
        let mut m = m;
        let mut seen = seen;
        let k = key.as_str();
        if str_eq(k, "transfer") {
            if m.value.is_some() {
                return Err(JsonError::DuplicateField("transfer".to_string()));
            }
            match Transfer::opt_from_json(v) {
                Ok(Some(x)) => m.value = Some(action::Value::Transfer(x)),
                Ok(None) => m.value = None,
                Err(e) => return Err(e),
            }
        } else if str_eq(k, "rollupDataSubmission") || str_eq(k, "rollup_data_submission") {
            if m.value.is_some() {
                return Err(JsonError::DuplicateField("rollupDataSubmission".to_string()));
            }
            match RollupDataSubmission::opt_from_json(v) {
                Ok(Some(x)) => m.value = Some(action::Value::RollupDataSubmission(x)),
                Ok(None) => m.value = None,
                Err(e) => return Err(e),
            }
        } else if str_eq(k, "initBridgeAccount") || str_eq(k, "init_bridge_account") {
            if m.value.is_some() {
                return Err(JsonError::DuplicateField("initBridgeAccount".to_string()));
            }
            match InitBridgeAccount::opt_from_json(v) {
                Ok(Some(x)) => m.value = Some(action::Value::InitBridgeAccount(x)),
                Ok(None) => m.value = None,
                Err(e) => return Err(e),
            }
        } else if str_eq(k, "bridgeLock") || str_eq(k, "bridge_lock") {
            if m.value.is_some() {
                return Err(JsonError::DuplicateField("bridgeLock".to_string()));
            }
            match BridgeLock::opt_from_json(v) {
                Ok(Some(x)) => m.value = Some(action::Value::BridgeLock(x)),
                Ok(None) => m.value = None,
                Err(e) => return Err(e),
            }
        } else if str_eq(k, "bridgeUnlock") || str_eq(k, "bridge_unlock") {
            if m.value.is_some() {
                return Err(JsonError::DuplicateField("bridgeUnlock".to_string()));
            }
            match BridgeUnlock::opt_from_json(v) {
                Ok(Some(x)) => m.value = Some(action::Value::BridgeUnlock(x)),
                Ok(None) => m.value = None,
                Err(e) => return Err(e),
            }
        } else if str_eq(k, "bridgeSudoChange") || str_eq(k, "bridge_sudo_change") {
            if m.value.is_some() {
                return Err(JsonError::DuplicateField("bridgeSudoChange".to_string()));
            }
            match BridgeSudoChange::opt_from_json(v) {
                Ok(Some(x)) => m.value = Some(action::Value::BridgeSudoChange(x)),
                Ok(None) => m.value = None,
                Err(e) => return Err(e),
            }
        } else if str_eq(k, "bridgeTransfer") || str_eq(k, "bridge_transfer") {
            if m.value.is_some() {
                return Err(JsonError::DuplicateField("bridgeTransfer".to_string()));
            }
            match BridgeTransfer::opt_from_json(v) {
                Ok(Some(x)) => m.value = Some(action::Value::BridgeTransfer(x)),
                Ok(None) => m.value = None,
                Err(e) => return Err(e),
            }
        } else if str_eq(k, "ibc") {
            if m.value.is_some() {
                return Err(JsonError::DuplicateField("ibc".to_string()));
            }
            match embedded_field(v) {
                Ok(Some(x)) => m.value = Some(action::Value::Ibc(x)),
                Ok(None) => m.value = None,
                Err(e) => return Err(e),
            }
        } else if str_eq(k, "ics20Withdrawal") || str_eq(k, "ics20_withdrawal") {
            if m.value.is_some() {
                return Err(JsonError::DuplicateField("ics20Withdrawal".to_string()));
            }
            match Ics20Withdrawal::opt_from_json(v) {
                Ok(Some(x)) => m.value = Some(action::Value::Ics20Withdrawal(x)),
                Ok(None) => m.value = None,
                Err(e) => return Err(e),
            }
        } else if str_eq(k, "sudoAddressChange") || str_eq(k, "sudo_address_change") {
            if m.value.is_some() {
                return Err(JsonError::DuplicateField("sudoAddressChange".to_string()));
            }
            match SudoAddressChange::opt_from_json(v) {
                Ok(Some(x)) => m.value = Some(action::Value::SudoAddressChange(x)),
                Ok(None) => m.value = None,
                Err(e) => return Err(e),
            }
        } else if str_eq(k, "validatorUpdate") || str_eq(k, "validator_update") {
            if m.value.is_some() {
                return Err(JsonError::DuplicateField("validatorUpdate".to_string()));
            }
            match ValidatorUpdate::opt_from_json(v) {
                Ok(Some(x)) => m.value = Some(action::Value::ValidatorUpdate(x)),
                Ok(None) => m.value = None,
                Err(e) => return Err(e),
            }
        } else if str_eq(k, "ibcRelayerChange") || str_eq(k, "ibc_relayer_change") {
            if m.value.is_some() {
                return Err(JsonError::DuplicateField("ibcRelayerChange".to_string()));
            }
            match IbcRelayerChange::opt_from_json(v) {
                Ok(Some(x)) => m.value = Some(action::Value::IbcRelayerChange(x)),
                Ok(None) => m.value = None,
                Err(e) => return Err(e),
            }
        } else if str_eq(k, "feeAssetChange") || str_eq(k, "fee_asset_change") {
            if m.value.is_some() {
                return Err(JsonError::DuplicateField("feeAssetChange".to_string()));
            }
            match FeeAssetChange::opt_from_json(v) {
                Ok(Some(x)) => m.value = Some(action::Value::FeeAssetChange(x)),
                Ok(None) => m.value = None,
                Err(e) => return Err(e),
            }
        } else if str_eq(k, "feeChange") || str_eq(k, "fee_change") {
            if m.value.is_some() {
                return Err(JsonError::DuplicateField("feeChange".to_string()));
            }
            match FeeChange::opt_from_json(v) {
                Ok(Some(x)) => m.value = Some(action::Value::FeeChange(x)),
                Ok(None) => m.value = None,
                Err(e) => return Err(e),
            }
        } else if str_eq(k, "ibcSudoChange") || str_eq(k, "ibc_sudo_change") {
            if m.value.is_some() {
                return Err(JsonError::DuplicateField("ibcSudoChange".to_string()));
            }
            match IbcSudoChange::opt_from_json(v) {
                Ok(Some(x)) => m.value = Some(action::Value::IbcSudoChange(x)),
                Ok(None) => m.value = None,
                Err(e) => return Err(e),
            }
        } else if str_eq(k, "recoverIbcClient") || str_eq(k, "recover_ibc_client") {
            if m.value.is_some() {
                return Err(JsonError::DuplicateField("recoverIbcClient".to_string()));
            }
            match RecoverIbcClient::opt_from_json(v) {
                Ok(Some(x)) => m.value = Some(action::Value::RecoverIbcClient(x)),
                Ok(None) => m.value = None,
                Err(e) => return Err(e),
            }
        } else if str_eq(k, "currencyPairsChange") || str_eq(k, "currency_pairs_change") {
            if m.value.is_some() {
                return Err(JsonError::DuplicateField("currencyPairsChange".to_string()));
            }
            match CurrencyPairsChange::opt_from_json(v) {
                Ok(Some(x)) => m.value = Some(action::Value::CurrencyPairsChange(x)),
                Ok(None) => m.value = None,
                Err(e) => return Err(e),
            }
        } else if str_eq(k, "marketsChange") || str_eq(k, "markets_change") {
            if m.value.is_some() {
                return Err(JsonError::DuplicateField("marketsChange".to_string()));
            }
            match MarketsChange::opt_from_json(v) {
                Ok(Some(x)) => m.value = Some(action::Value::MarketsChange(x)),
                Ok(None) => m.value = None,
                Err(e) => return Err(e),
            }
        } else if str_eq(k, "createOrder") || str_eq(k, "create_order") {
            if m.value.is_some() {
                return Err(JsonError::DuplicateField("createOrder".to_string()));
            }
            match CreateOrder::opt_from_json(v) {
                Ok(Some(x)) => m.value = Some(action::Value::CreateOrder(x)),
                Ok(None) => m.value = None,
                Err(e) => return Err(e),
            }
        } else if str_eq(k, "cancelOrder") || str_eq(k, "cancel_order") {
            if m.value.is_some() {
                return Err(JsonError::DuplicateField("cancelOrder".to_string()));
            }
            match CancelOrder::opt_from_json(v) {
                Ok(Some(x)) => m.value = Some(action::Value::CancelOrder(x)),
                Ok(None) => m.value = None,
                Err(e) => return Err(e),
            }
        } else if str_eq(k, "createMarket") || str_eq(k, "create_market") {
            if m.value.is_some() {
                return Err(JsonError::DuplicateField("createMarket".to_string()));
            }
            match CreateMarket::opt_from_json(v) {
                Ok(Some(x)) => m.value = Some(action::Value::CreateMarket(x)),
                Ok(None) => m.value = None,
                Err(e) => return Err(e),
            }
        } else if str_eq(k, "updateMarket") || str_eq(k, "update_market") {
            if m.value.is_some() {
                return Err(JsonError::DuplicateField("updateMarket".to_string()));
            }
            match UpdateMarket::opt_from_json(v) {
                Ok(Some(x)) => m.value = Some(action::Value::UpdateMarket(x)),
                Ok(None) => m.value = None,
                Err(e) => return Err(e),
            }
        } else {
            return Err(JsonError::UnknownField(key.clone()));
        }
        Ok((m, seen))
    }

    /// Reads the message from a JSON value, as [`Self::spec_from_json`] describes.
    pub fn from_json(j: &Json) -> (r: Result<Self, JsonError>)
        ensures
            match r {
                Ok(m) => Self::spec_from_json(j@) == Ok::<ActionV, JsonErrorV>(m@),
                Err(e) => Self::spec_from_json(j@) == Err::<ActionV, JsonErrorV>(e@),
            },
    {
        let es = match j {
            Json::Object(es) => es,
            _ => return Err(JsonError::ExpectedObject),
        };
        let ghost ves = view_entries(es@);
        proof {
            lemma_view_entries_len(es@);
            assert(j@ == JsonV::Object(ves));
        }
        let mut m = Self::default();
        let mut seen: Vec<bool> = Vec::new();
        let mut i: usize = 0;
        proof {
            assert(seen@ =~= Self::spec_start().1);
            assert(ves.skip(0) == ves);
        }
        while i < es.len()
            invariant
                j@ == JsonV::Object(ves),
                ves == view_entries(es@),
                ves.len() == es@.len(),
                i <= es.len(),
                seen@.len() == 0,
                fold_entries(Self::spec_start(), ves, Self::step_fn())
                    == fold_entries((m@, seen@), ves.skip(i as int), Self::step_fn()),
            decreases es.len() - i,
        {
            proof {
                lemma_view_entries_index(es@, i as int);
                lemma_fold_entries_step((m@, seen@), ves, i as int, Self::step_fn());
            }
            match Self::step(m, seen, &es[i].0, &es[i].1) {
                Ok((m2, seen2)) => {
                    m = m2;
                    seen = seen2;
                },
                Err(e) => return Err(e),
            }
            i = i + 1;
        }
        proof {
            assert(ves.skip(ves.len() as int) == Seq::<(Seq<char>, JsonV)>::empty());
            assert(fold_entries((m@, seen@), ves.skip(ves.len() as int), Self::step_fn())
                == Ok::<(ActionV, Seq<bool>), JsonErrorV>((m@, seen@)));
        }
        Ok(m)
    }

    /// Reads an optional field of this message type.
    pub fn opt_from_json(v: &Json) -> (r: Result<Option<Self>, JsonError>)
        ensures
            match r {
                Ok(None) => Self::spec_read_opt(v@) == Ok::<Option<ActionV>, JsonErrorV>(None),
                Ok(Some(x)) => Self::spec_read_opt(v@) == Ok::<Option<ActionV>, JsonErrorV>(Some(x@)),
                Err(e) => Self::spec_read_opt(v@) == Err::<Option<ActionV>, JsonErrorV>(e@),
            },
    {
        match v {
            Json::Null => Ok(None),
            _ => match Self::from_json(v) {
                Ok(x) => Ok(Some(x)),
                Err(e) => Err(e),
            },
        }
    }

    /// Reads a repeated field of this message type.
    pub fn list_from_json(v: &Json) -> (r: Result<Vec<Self>, JsonError>)
        ensures
            match r {
                Ok(xs) => read_array(v@, Self::reader()) == Ok::<Seq<ActionV>, JsonErrorV>(Self::view_list(xs@)),
                Err(e) => read_array(v@, Self::reader()) == Err::<Seq<ActionV>, JsonErrorV>(e@),
            },
    {
        let items = match v {
            Json::Array(items) => items,
            _ => return Err(JsonError::InvalidType),
        };
        let ghost vis = view_items(items@);
        proof {
            lemma_view_items_len(items@);
            assert(v@ == JsonV::Array(vis));
            assert(vis.take(0) == Seq::<JsonV>::empty());
        }
        let mut out: Vec<Self> = Vec::new();
        proof {
            assert(Self::view_list(out@) =~= Seq::<ActionV>::empty());
        }
        let mut i: usize = 0;
        while i < items.len()
            invariant
                v@ == JsonV::Array(vis),
                vis == view_items(items@),
                vis.len() == items@.len(),
                i <= items.len(),
                read_list(vis.take(i as int), Self::reader()) == Ok::<Seq<ActionV>, JsonErrorV>(Self::view_list(out@)),
            decreases items.len() - i,
        {
            proof {
                lemma_view_items_index(items@, i as int);
                lemma_read_list_next(vis, i as int, Self::reader());
            }
            match Self::from_json(&items[i]) {
                Ok(x) => {
                    let ghost before = out@;
                    out.push(x);
                    proof {
                        assert(Self::view_list(out@) =~= Self::view_list(before).push(x@));
                    }
                },
                Err(e) => {
                    proof {
                        lemma_read_list_prefix_error(vis, i + 1, Self::reader());
                    }
                    return Err(e);
                },
            }
            i = i + 1;
        }
        proof {
            assert(vis.take(i as int) == vis);
        }
        Ok(out)
    }

    /// The first message of a list, in order, that cannot be written, and why.
    pub open spec fn spec_list_error(xs: Seq<ActionV>) -> Option<JsonErrorV>
        decreases xs.len(),
    {
        if xs.len() == 0 {
            None
        } else {
            match Self::spec_list_error(xs.drop_last()) {
                Some(e) => Some(e),
                None => Self::spec_encode_error(xs.last()),
            }
        }
    }

    /// A list that can be written holds only messages that can be written.
    pub proof fn lemma_list_error_none(xs: Seq<ActionV>, i: int)
        requires
            Self::spec_list_error(xs) is None,
            0 <= i < xs.len(),
        ensures Self::spec_encode_error(xs[i]) is None,
        decreases xs.len(),
    {
        if i < xs.len() - 1 {
            assert(xs.drop_last()[i] == xs[i]);
            Self::lemma_list_error_none(xs.drop_last(), i);
        }
    }

    /// The error of a prefix of a list is the error of the list.
    pub proof fn lemma_list_error_extend(xs: Seq<ActionV>, k: int)
        requires
            0 <= k <= xs.len(),
            Self::spec_list_error(xs.take(k)) is Some,
        ensures Self::spec_list_error(xs) == Self::spec_list_error(xs.take(k)),
        decreases xs.len() - k,
    {
        if k < xs.len() {
            assert(xs.take(k + 1).drop_last() =~= xs.take(k));
            Self::lemma_list_error_extend(xs, k + 1);
        } else {
            assert(xs.take(k) =~= xs);
        }
    }

    /// Writes a repeated field of this message type as an array of objects, or gives
    /// the error of the first message that cannot be written.
    pub fn list_to_json(xs: &Vec<Self>) -> (r: Result<Json, JsonError>)
        ensures
            match r {
                Ok(j) => Self::spec_list_error(Self::view_list(xs@)) is None
                    && j@ == JsonV::Array(Self::view_list(xs@).map_values(Self::writer()))
                    && (forall|i: int| 0 <= i < xs@.len() ==> Self::spec_bytes_readable(#[trigger] Self::view_list(xs@)[i]))
                ,
                Err(e) => Self::spec_list_error(Self::view_list(xs@)) == Some(e@),
            },
    {
        let mut out: Vec<Json> = Vec::new();
        let mut i: usize = 0;
        proof {
            assert(xs@.take(0) == Seq::<Self>::empty());
            assert(Self::view_list(xs@.take(0)) =~= Seq::<ActionV>::empty());
        }
        while i < xs.len()
            invariant
                i <= xs.len(),
                view_items(out@) == Self::view_list(xs@.take(i as int)).map_values(Self::writer()),
                Self::spec_list_error(Self::view_list(xs@.take(i as int))) is None,
                forall|k: int| 0 <= k < i ==> Self::spec_bytes_readable(#[trigger] Self::view_list(xs@)[k]),
            decreases xs.len() - i,
        {
            let ghost before = out@;
            proof {
                assert(Self::view_list(xs@.take(i + 1)).drop_last() =~= Self::view_list(xs@.take(i as int)));
                assert(Self::view_list(xs@.take(i + 1)).last() == xs@[i as int]@);
            }
            let item = match xs[i].to_json() {
                Ok(j) => j,
                Err(e) => {
                    proof {
                        assert(Self::view_list(xs@).take(i + 1) =~= Self::view_list(xs@.take(i + 1)));
                        Self::lemma_list_error_extend(Self::view_list(xs@), i + 1);
                        assert(Self::view_list(xs@).take(xs@.len() as int) =~= Self::view_list(xs@));
                    }
                    return Err(e);
                },
            };
            out.push(item);
            proof {
                assert(out@.drop_last() == before);
                assert(view_items(out@) == view_items(before).push(item@));
                assert(Self::view_list(xs@.take(i + 1)).map_values(Self::writer())
                    =~= Self::view_list(xs@.take(i as int)).map_values(Self::writer()).push(Self::spec_to_json(xs@[i as int]@)));
            }
            i = i + 1;
        }
        proof {
            assert(xs@.take(xs.len() as int) == xs@);
        }
        Ok(Json::Array(out))
    }

    /// Reading back a written repeated field gives its messages.
    pub proof fn lemma_list_roundtrip(xs: Seq<ActionV>)
        requires
            forall|i: int| 0 <= i < xs.len() ==> Self::spec_bytes_readable(#[trigger] xs[i]),
            Self::spec_list_error(xs) is None,
        ensures read_list(xs.map_values(Self::writer()), Self::reader()) == Ok::<Seq<ActionV>, JsonErrorV>(xs),
    {
        assert forall|i: int| 0 <= i < xs.len() implies Self::reader()(Self::writer()(#[trigger] xs[i])) == Ok::<ActionV, JsonErrorV>(xs[i]) by {
            Self::lemma_list_error_none(xs, i);
            Self::lemma_json_roundtrip(xs[i]);
        }
        lemma_read_list_roundtrip(xs, Self::writer(), Self::reader());
    }

    /// Reading the member that the field `value` writes sets the field.
    pub proof fn lemma_entry_value(m: ActionV, st: (ActionV, Seq<bool>))
        requires
            st.1.len() == 0,
            st.0.value is None,
            Self::spec_readable_value(m),
            Self::spec_error_value(m) is None,
        ensures
            fold_entries(st, Self::spec_entry_value(m), Self::step_fn()) == Ok::<(ActionV, Seq<bool>), JsonErrorV>((ActionV { value: m.value }, st.1)),
    {
        reveal_strlit("transfer");
        reveal_strlit("rollupDataSubmission");
        reveal_strlit("rollup_data_submission");
        reveal_strlit("initBridgeAccount");
        reveal_strlit("init_bridge_account");
        reveal_strlit("bridgeLock");
        reveal_strlit("bridge_lock");
        reveal_strlit("bridgeUnlock");
        reveal_strlit("bridge_unlock");
        reveal_strlit("bridgeSudoChange");
        reveal_strlit("bridge_sudo_change");
        reveal_strlit("bridgeTransfer");
        reveal_strlit("bridge_transfer");
        reveal_strlit("ibc");
        reveal_strlit("ics20Withdrawal");
        reveal_strlit("ics20_withdrawal");
        reveal_strlit("sudoAddressChange");
        reveal_strlit("sudo_address_change");
        reveal_strlit("validatorUpdate");
        reveal_strlit("validator_update");
        reveal_strlit("ibcRelayerChange");
        reveal_strlit("ibc_relayer_change");
        reveal_strlit("feeAssetChange");
        reveal_strlit("fee_asset_change");
        reveal_strlit("feeChange");
        reveal_strlit("fee_change");
        reveal_strlit("ibcSudoChange");
        reveal_strlit("ibc_sudo_change");
        reveal_strlit("recoverIbcClient");
        reveal_strlit("recover_ibc_client");
        reveal_strlit("currencyPairsChange");
        reveal_strlit("currency_pairs_change");
        reveal_strlit("marketsChange");
        reveal_strlit("markets_change");
        reveal_strlit("createOrder");
        reveal_strlit("create_order");
        reveal_strlit("cancelOrder");
        reveal_strlit("cancel_order");
        reveal_strlit("createMarket");
        reveal_strlit("create_market");
        reveal_strlit("updateMarket");
        reveal_strlit("update_market");
        assert("transfer"@.len() == 8);
        assert("rollupDataSubmission"@.len() == 20);
        assert("rollup_data_submission"@.len() == 22);
        assert("initBridgeAccount"@.len() == 17);
        assert("init_bridge_account"@.len() == 19);
        assert("bridgeLock"@.len() == 10);
        assert("bridge_lock"@.len() == 11);
        assert("bridgeUnlock"@.len() == 12);
        assert("bridge_unlock"@.len() == 13);
        assert("bridgeSudoChange"@.len() == 16);
        assert("bridge_sudo_change"@.len() == 18);
        assert("bridgeTransfer"@.len() == 14);
        assert("bridge_transfer"@.len() == 15);
        assert("ibc"@.len() == 3);
        assert("ics20Withdrawal"@.len() == 15);
        assert("ics20_withdrawal"@.len() == 16);
        assert("sudoAddressChange"@.len() == 17);
        assert("sudo_address_change"@.len() == 19);
        assert("validatorUpdate"@.len() == 15);
        assert("validator_update"@.len() == 16);
        assert("ibcRelayerChange"@.len() == 16);
        assert("ibc_relayer_change"@.len() == 18);
        assert("feeAssetChange"@.len() == 14);
        assert("fee_asset_change"@.len() == 16);
        assert("feeChange"@.len() == 9);
        assert("fee_change"@.len() == 10);
        assert("ibcSudoChange"@.len() == 13);
        assert("ibc_sudo_change"@.len() == 15);
        assert("recoverIbcClient"@.len() == 16);
        assert("recover_ibc_client"@.len() == 18);
        assert("currencyPairsChange"@.len() == 19);
        assert("currency_pairs_change"@.len() == 21);
        assert("marketsChange"@.len() == 13);
        assert("markets_change"@.len() == 14);
        assert("createOrder"@.len() == 11);
        assert("create_order"@.len() == 12);
        assert("cancelOrder"@.len() == 11);
        assert("cancel_order"@.len() == 12);
        assert("createMarket"@.len() == 12);
        assert("create_market"@.len() == 13);
        assert("updateMarket"@.len() == 12);
        assert("update_market"@.len() == 13);
        assert("initBridgeAccount"@[0] != "sudoAddressChange"@[0]);
        assert("init_bridge_account"@[0] != "sudo_address_change"@[0]);
        assert("init_bridge_account"@[0] != "currencyPairsChange"@[0]);
        assert("bridgeLock"@[0] != "fee_change"@[0]);
        assert("bridge_lock"@[0] != "createOrder"@[0]);
        assert("bridge_lock"@[0] != "cancelOrder"@[0]);
        assert("bridgeUnlock"@[0] != "create_order"@[0]);
        assert("bridgeUnlock"@[0] != "cancel_order"@[0]);
        assert("bridgeUnlock"@[0] != "createMarket"@[0]);
        assert("bridgeUnlock"@[0] != "updateMarket"@[0]);
        assert("bridge_unlock"@[0] != "ibcSudoChange"@[0]);
        assert("bridge_unlock"@[0] != "marketsChange"@[0]);
        assert("bridge_unlock"@[0] != "create_market"@[0]);
        assert("bridge_unlock"@[0] != "update_market"@[0]);
        assert("bridgeSudoChange"@[0] != "ics20_withdrawal"@[0]);
        assert("bridgeSudoChange"@[0] != "validator_update"@[0]);
        assert("bridgeSudoChange"@[0] != "ibcRelayerChange"@[0]);
        assert("bridgeSudoChange"@[0] != "fee_asset_change"@[0]);
        assert("bridgeSudoChange"@[0] != "recoverIbcClient"@[0]);
        assert("bridge_sudo_change"@[0] != "ibc_relayer_change"@[0]);
        assert("bridge_sudo_change"@[0] != "recover_ibc_client"@[0]);
        assert("bridgeTransfer"@[0] != "feeAssetChange"@[0]);
        assert("bridgeTransfer"@[0] != "markets_change"@[0]);
        assert("bridge_transfer"@[0] != "ics20Withdrawal"@[0]);
        assert("bridge_transfer"@[0] != "validatorUpdate"@[0]);
        assert("bridge_transfer"@[0] != "ibc_sudo_change"@[0]);
        assert("ics20Withdrawal"@[0] != "validatorUpdate"@[0]);
        assert("ics20Withdrawal"@[1] != "ibc_sudo_change"@[1]);
        assert("ics20_withdrawal"@[0] != "validator_update"@[0]);
        assert("ics20_withdrawal"@[1] != "ibcRelayerChange"@[1]);
        assert("ics20_withdrawal"@[0] != "fee_asset_change"@[0]);
        assert("ics20_withdrawal"@[0] != "recoverIbcClient"@[0]);
        assert("sudo_address_change"@[0] != "currencyPairsChange"@[0]);
        assert("validatorUpdate"@[0] != "ibc_sudo_change"@[0]);
        assert("validator_update"@[0] != "ibcRelayerChange"@[0]);
        assert("validator_update"@[0] != "fee_asset_change"@[0]);
        assert("validator_update"@[0] != "recoverIbcClient"@[0]);
        assert("ibcRelayerChange"@[0] != "fee_asset_change"@[0]);
        assert("ibcRelayerChange"@[0] != "recoverIbcClient"@[0]);
        assert("ibc_relayer_change"@[0] != "recover_ibc_client"@[0]);
        assert("feeAssetChange"@[0] != "markets_change"@[0]);
        assert("fee_asset_change"@[0] != "recoverIbcClient"@[0]);
        assert("ibcSudoChange"@[0] != "marketsChange"@[0]);
        assert("ibcSudoChange"@[0] != "create_market"@[0]);
        assert("ibcSudoChange"@[0] != "update_market"@[0]);
        assert("marketsChange"@[0] != "create_market"@[0]);
        assert("marketsChange"@[0] != "update_market"@[0]);
        assert("createOrder"@[1] != "cancelOrder"@[1]);
        assert("create_order"@[1] != "cancel_order"@[1]);
        assert("create_order"@[6] != "createMarket"@[6]);
        assert("create_order"@[0] != "updateMarket"@[0]);
        assert("cancel_order"@[1] != "createMarket"@[1]);
        assert("cancel_order"@[0] != "updateMarket"@[0]);
        assert("createMarket"@[0] != "updateMarket"@[0]);
        assert("create_market"@[0] != "update_market"@[0]);
        match m.value {
            Some(action::ValueV::Transfer(x)) => Transfer::lemma_json_roundtrip(x),
            Some(action::ValueV::RollupDataSubmission(x)) => RollupDataSubmission::lemma_json_roundtrip(x),
            Some(action::ValueV::InitBridgeAccount(x)) => InitBridgeAccount::lemma_json_roundtrip(x),
            Some(action::ValueV::BridgeLock(x)) => BridgeLock::lemma_json_roundtrip(x),
            Some(action::ValueV::BridgeUnlock(x)) => BridgeUnlock::lemma_json_roundtrip(x),
            Some(action::ValueV::BridgeSudoChange(x)) => BridgeSudoChange::lemma_json_roundtrip(x),
            Some(action::ValueV::BridgeTransfer(x)) => BridgeTransfer::lemma_json_roundtrip(x),
            Some(action::ValueV::Ics20Withdrawal(x)) => Ics20Withdrawal::lemma_json_roundtrip(x),
            Some(action::ValueV::SudoAddressChange(x)) => SudoAddressChange::lemma_json_roundtrip(x),
            Some(action::ValueV::ValidatorUpdate(x)) => ValidatorUpdate::lemma_json_roundtrip(x),
            Some(action::ValueV::IbcRelayerChange(x)) => IbcRelayerChange::lemma_json_roundtrip(x),
            Some(action::ValueV::FeeAssetChange(x)) => FeeAssetChange::lemma_json_roundtrip(x),
            Some(action::ValueV::FeeChange(x)) => FeeChange::lemma_json_roundtrip(x),
            Some(action::ValueV::IbcSudoChange(x)) => IbcSudoChange::lemma_json_roundtrip(x),
            Some(action::ValueV::RecoverIbcClient(x)) => RecoverIbcClient::lemma_json_roundtrip(x),
            Some(action::ValueV::CurrencyPairsChange(x)) => CurrencyPairsChange::lemma_json_roundtrip(x),
            Some(action::ValueV::MarketsChange(x)) => MarketsChange::lemma_json_roundtrip(x),
            Some(action::ValueV::CreateOrder(x)) => CreateOrder::lemma_json_roundtrip(x),
            Some(action::ValueV::CancelOrder(x)) => CancelOrder::lemma_json_roundtrip(x),
            Some(action::ValueV::CreateMarket(x)) => CreateMarket::lemma_json_roundtrip(x),
            Some(action::ValueV::UpdateMarket(x)) => UpdateMarket::lemma_json_roundtrip(x),
            _ => {},
        }
        lemma_fold_entry_if(st, m.value is Some, Self::spec_value_key(m.value.unwrap()), Self::spec_value_json(m.value.unwrap()), Self::step_fn());
    }

    /// The JSON spelling of a key: the protobuf name of a field becomes its JSON name;
    /// a JSON name, and any key that names no field, is left as it is.
    pub open spec fn spec_json_key(key: Seq<char>) -> Seq<char> {
        if key == "transfer"@ {
            "transfer"@
        } else if key == "rollupDataSubmission"@ || key == "rollup_data_submission"@ {
            "rollupDataSubmission"@
        } else if key == "initBridgeAccount"@ || key == "init_bridge_account"@ {
            "initBridgeAccount"@
        } else if key == "bridgeLock"@ || key == "bridge_lock"@ {
            "bridgeLock"@
        } else if key == "bridgeUnlock"@ || key == "bridge_unlock"@ {
            "bridgeUnlock"@
        } else if key == "bridgeSudoChange"@ || key == "bridge_sudo_change"@ {
            "bridgeSudoChange"@
        } else if key == "bridgeTransfer"@ || key == "bridge_transfer"@ {
            "bridgeTransfer"@
        } else if key == "ibc"@ {
            "ibc"@
        } else if key == "ics20Withdrawal"@ || key == "ics20_withdrawal"@ {
            "ics20Withdrawal"@
        } else if key == "sudoAddressChange"@ || key == "sudo_address_change"@ {
            "sudoAddressChange"@
        } else if key == "validatorUpdate"@ || key == "validator_update"@ {
            "validatorUpdate"@
        } else if key == "ibcRelayerChange"@ || key == "ibc_relayer_change"@ {
            "ibcRelayerChange"@
        } else if key == "feeAssetChange"@ || key == "fee_asset_change"@ {
            "feeAssetChange"@
        } else if key == "feeChange"@ || key == "fee_change"@ {
            "feeChange"@
        } else if key == "ibcSudoChange"@ || key == "ibc_sudo_change"@ {
            "ibcSudoChange"@
        } else if key == "recoverIbcClient"@ || key == "recover_ibc_client"@ {
            "recoverIbcClient"@
        } else if key == "currencyPairsChange"@ || key == "currency_pairs_change"@ {
            "currencyPairsChange"@
        } else if key == "marketsChange"@ || key == "markets_change"@ {
            "marketsChange"@
        } else if key == "createOrder"@ || key == "create_order"@ {
            "createOrder"@
        } else if key == "cancelOrder"@ || key == "cancel_order"@ {
            "cancelOrder"@
        } else if key == "createMarket"@ || key == "create_market"@ {
            "createMarket"@
        } else if key == "updateMarket"@ || key == "update_market"@ {
            "updateMarket"@
        } else {
            key
        }
    }

    /// [`Self::spec_json_key`] as a function value.
    pub open spec fn json_key_fn() -> spec_fn(Seq<char>) -> Seq<char> {
        |key: Seq<char>| Self::spec_json_key(key)
    }

    /// One member is read alike whichever spelling its key has.
    pub proof fn lemma_step_json_key(st: (ActionV, Seq<bool>), key: Seq<char>, v: JsonV)
        ensures Self::spec_step(st, key, v) == Self::spec_step(st, Self::spec_json_key(key), v),
    {
        reveal_strlit("transfer");
        reveal_strlit("rollupDataSubmission");
        reveal_strlit("rollup_data_submission");
        reveal_strlit("initBridgeAccount");
        reveal_strlit("init_bridge_account");
        reveal_strlit("bridgeLock");
        reveal_strlit("bridge_lock");
        reveal_strlit("bridgeUnlock");
        reveal_strlit("bridge_unlock");
        reveal_strlit("bridgeSudoChange");
        reveal_strlit("bridge_sudo_change");
        reveal_strlit("bridgeTransfer");
        reveal_strlit("bridge_transfer");
        reveal_strlit("ibc");
        reveal_strlit("ics20Withdrawal");
        reveal_strlit("ics20_withdrawal");
        reveal_strlit("sudoAddressChange");
        reveal_strlit("sudo_address_change");
        reveal_strlit("validatorUpdate");
        reveal_strlit("validator_update");
        reveal_strlit("ibcRelayerChange");
        reveal_strlit("ibc_relayer_change");
        reveal_strlit("feeAssetChange");
        reveal_strlit("fee_asset_change");
        reveal_strlit("feeChange");
        reveal_strlit("fee_change");
        reveal_strlit("ibcSudoChange");
        reveal_strlit("ibc_sudo_change");
        reveal_strlit("recoverIbcClient");
        reveal_strlit("recover_ibc_client");
        reveal_strlit("currencyPairsChange");
        reveal_strlit("currency_pairs_change");
        reveal_strlit("marketsChange");
        reveal_strlit("markets_change");
        reveal_strlit("createOrder");
        reveal_strlit("create_order");
        reveal_strlit("cancelOrder");
        reveal_strlit("cancel_order");
        reveal_strlit("createMarket");
        reveal_strlit("create_market");
        reveal_strlit("updateMarket");
        reveal_strlit("update_market");
        assert("transfer"@.len() == 8);
        assert("rollupDataSubmission"@.len() == 20);
        assert("rollup_data_submission"@.len() == 22);
        assert("initBridgeAccount"@.len() == 17);
        assert("init_bridge_account"@.len() == 19);
        assert("bridgeLock"@.len() == 10);
        assert("bridge_lock"@.len() == 11);
        assert("bridgeUnlock"@.len() == 12);
        assert("bridge_unlock"@.len() == 13);
        assert("bridgeSudoChange"@.len() == 16);
        assert("bridge_sudo_change"@.len() == 18);
        assert("bridgeTransfer"@.len() == 14);
        assert("bridge_transfer"@.len() == 15);
        assert("ibc"@.len() == 3);
        assert("ics20Withdrawal"@.len() == 15);
        assert("ics20_withdrawal"@.len() == 16);
        assert("sudoAddressChange"@.len() == 17);
        assert("sudo_address_change"@.len() == 19);
        assert("validatorUpdate"@.len() == 15);
        assert("validator_update"@.len() == 16);
        assert("ibcRelayerChange"@.len() == 16);
        assert("ibc_relayer_change"@.len() == 18);
        assert("feeAssetChange"@.len() == 14);
        assert("fee_asset_change"@.len() == 16);
        assert("feeChange"@.len() == 9);
        assert("fee_change"@.len() == 10);
        assert("ibcSudoChange"@.len() == 13);
        assert("ibc_sudo_change"@.len() == 15);
        assert("recoverIbcClient"@.len() == 16);
        assert("recover_ibc_client"@.len() == 18);
        assert("currencyPairsChange"@.len() == 19);
        assert("currency_pairs_change"@.len() == 21);
        assert("marketsChange"@.len() == 13);
        assert("markets_change"@.len() == 14);
        assert("createOrder"@.len() == 11);
        assert("create_order"@.len() == 12);
        assert("cancelOrder"@.len() == 11);
        assert("cancel_order"@.len() == 12);
        assert("createMarket"@.len() == 12);
        assert("create_market"@.len() == 13);
        assert("updateMarket"@.len() == 12);
        assert("update_market"@.len() == 13);
        assert("initBridgeAccount"@[0] != "sudoAddressChange"@[0]);
        assert("init_bridge_account"@[0] != "sudo_address_change"@[0]);
        assert("init_bridge_account"@[0] != "currencyPairsChange"@[0]);
        assert("bridgeLock"@[0] != "fee_change"@[0]);
        assert("bridge_lock"@[0] != "createOrder"@[0]);
        assert("bridge_lock"@[0] != "cancelOrder"@[0]);
        assert("bridgeUnlock"@[0] != "create_order"@[0]);
        assert("bridgeUnlock"@[0] != "cancel_order"@[0]);
        assert("bridgeUnlock"@[0] != "createMarket"@[0]);
        assert("bridgeUnlock"@[0] != "updateMarket"@[0]);
        assert("bridge_unlock"@[0] != "ibcSudoChange"@[0]);
        assert("bridge_unlock"@[0] != "marketsChange"@[0]);
        assert("bridge_unlock"@[0] != "create_market"@[0]);
        assert("bridge_unlock"@[0] != "update_market"@[0]);
        assert("bridgeSudoChange"@[0] != "ics20_withdrawal"@[0]);
        assert("bridgeSudoChange"@[0] != "validator_update"@[0]);
        assert("bridgeSudoChange"@[0] != "ibcRelayerChange"@[0]);
        assert("bridgeSudoChange"@[0] != "fee_asset_change"@[0]);
        assert("bridgeSudoChange"@[0] != "recoverIbcClient"@[0]);
        assert("bridge_sudo_change"@[0] != "ibc_relayer_change"@[0]);
        assert("bridge_sudo_change"@[0] != "recover_ibc_client"@[0]);
        assert("bridgeTransfer"@[0] != "feeAssetChange"@[0]);
        assert("bridgeTransfer"@[0] != "markets_change"@[0]);
        assert("bridge_transfer"@[0] != "ics20Withdrawal"@[0]);
        assert("bridge_transfer"@[0] != "validatorUpdate"@[0]);
        assert("bridge_transfer"@[0] != "ibc_sudo_change"@[0]);
        assert("ics20Withdrawal"@[0] != "validatorUpdate"@[0]);
        assert("ics20Withdrawal"@[1] != "ibc_sudo_change"@[1]);
        assert("ics20_withdrawal"@[0] != "validator_update"@[0]);
        assert("ics20_withdrawal"@[1] != "ibcRelayerChange"@[1]);
        assert("ics20_withdrawal"@[0] != "fee_asset_change"@[0]);
        assert("ics20_withdrawal"@[0] != "recoverIbcClient"@[0]);
        assert("sudo_address_change"@[0] != "currencyPairsChange"@[0]);
        assert("validatorUpdate"@[0] != "ibc_sudo_change"@[0]);
        assert("validator_update"@[0] != "ibcRelayerChange"@[0]);
        assert("validator_update"@[0] != "fee_asset_change"@[0]);
        assert("validator_update"@[0] != "recoverIbcClient"@[0]);
        assert("ibcRelayerChange"@[0] != "fee_asset_change"@[0]);
        assert("ibcRelayerChange"@[0] != "recoverIbcClient"@[0]);
        assert("ibc_relayer_change"@[0] != "recover_ibc_client"@[0]);
        assert("feeAssetChange"@[0] != "markets_change"@[0]);
        assert("fee_asset_change"@[0] != "recoverIbcClient"@[0]);
        assert("ibcSudoChange"@[0] != "marketsChange"@[0]);
        assert("ibcSudoChange"@[0] != "create_market"@[0]);
        assert("ibcSudoChange"@[0] != "update_market"@[0]);
        assert("marketsChange"@[0] != "create_market"@[0]);
        assert("marketsChange"@[0] != "update_market"@[0]);
        assert("createOrder"@[1] != "cancelOrder"@[1]);
        assert("create_order"@[1] != "cancel_order"@[1]);
        assert("create_order"@[6] != "createMarket"@[6]);
        assert("create_order"@[0] != "updateMarket"@[0]);
        assert("cancel_order"@[1] != "createMarket"@[1]);
        assert("cancel_order"@[0] != "updateMarket"@[0]);
        assert("createMarket"@[0] != "updateMarket"@[0]);
        assert("create_market"@[0] != "update_market"@[0]);
        if key == "rollup_data_submission"@ {
            assert(Self::spec_json_key(key) == "rollupDataSubmission"@);
        }
        if key == "init_bridge_account"@ {
            assert(Self::spec_json_key(key) == "initBridgeAccount"@);
        }
        if key == "bridge_lock"@ {
            assert(Self::spec_json_key(key) == "bridgeLock"@);
        }
        if key == "bridge_unlock"@ {
            assert(Self::spec_json_key(key) == "bridgeUnlock"@);
        }
        if key == "bridge_sudo_change"@ {
            assert(Self::spec_json_key(key) == "bridgeSudoChange"@);
        }
        if key == "bridge_transfer"@ {
            assert(Self::spec_json_key(key) == "bridgeTransfer"@);
        }
        if key == "ics20_withdrawal"@ {
            assert(Self::spec_json_key(key) == "ics20Withdrawal"@);
        }
        if key == "sudo_address_change"@ {
            assert(Self::spec_json_key(key) == "sudoAddressChange"@);
        }
        if key == "validator_update"@ {
            assert(Self::spec_json_key(key) == "validatorUpdate"@);
        }
        if key == "ibc_relayer_change"@ {
            assert(Self::spec_json_key(key) == "ibcRelayerChange"@);
        }
        if key == "fee_asset_change"@ {
            assert(Self::spec_json_key(key) == "feeAssetChange"@);
        }
        if key == "fee_change"@ {
            assert(Self::spec_json_key(key) == "feeChange"@);
        }
        if key == "ibc_sudo_change"@ {
            assert(Self::spec_json_key(key) == "ibcSudoChange"@);
        }
        if key == "recover_ibc_client"@ {
            assert(Self::spec_json_key(key) == "recoverIbcClient"@);
        }
        if key == "currency_pairs_change"@ {
            assert(Self::spec_json_key(key) == "currencyPairsChange"@);
        }
        if key == "markets_change"@ {
            assert(Self::spec_json_key(key) == "marketsChange"@);
        }
        if key == "create_order"@ {
            assert(Self::spec_json_key(key) == "createOrder"@);
        }
        if key == "cancel_order"@ {
            assert(Self::spec_json_key(key) == "cancelOrder"@);
        }
        if key == "create_market"@ {
            assert(Self::spec_json_key(key) == "createMarket"@);
        }
        if key == "update_market"@ {
            assert(Self::spec_json_key(key) == "updateMarket"@);
        }
    }

    /// Reading an object gives the same result whichever spelling each of its keys has:
    /// two objects whose members hold the same values, in the same order, under keys of
    /// the same JSON spelling describe the same message, or are refused with the same error.
    pub proof fn lemma_key_spelling(es1: Seq<(Seq<char>, JsonV)>, es2: Seq<(Seq<char>, JsonV)>)
        requires
            es1.len() == es2.len(),
            forall|i: int| #![trigger es1[i], es2[i]] 0 <= i < es1.len() ==> es1[i].1 == es2[i].1 && Self::spec_json_key(es1[i].0) == Self::spec_json_key(es2[i].0),
        ensures Self::spec_from_json(JsonV::Object(es1)) == Self::spec_from_json(JsonV::Object(es2)),
    {
        assert forall|s: (ActionV, Seq<bool>), k: Seq<char>, v: JsonV|
            #![trigger Self::step_fn()(s, k, v), Self::json_key_fn()(k)]
            Self::step_fn()(s, k, v) == Self::step_fn()(s, Self::json_key_fn()(k), v) by {
            Self::lemma_step_json_key(s, k, v);
        }
        lemma_fold_same_keys(Self::spec_start(), es1, es2, Self::step_fn(), Self::json_key_fn());
    }

    /// The keys of the object that the message writes: the JSON names of the fields that
    /// do not hold their default (for a oneof, the JSON name of the member set), in the
    /// order of the fields.
    pub open spec fn spec_written_keys(m: ActionV) -> Seq<Seq<char>> {
        key_if(m.value is Some, Self::spec_value_key(m.value.unwrap()))
    }

    /// The object that the message writes has exactly the keys of
    /// [`Self::spec_written_keys`], in that order.
    pub proof fn lemma_written_keys(m: ActionV)
        ensures
            Self::spec_to_json(m) == JsonV::Object(Self::spec_entries(m)),
            entry_keys(Self::spec_entries(m)) == Self::spec_written_keys(m),
    {
        lemma_entry_keys_if(m.value is Some, Self::spec_value_key(m.value.unwrap()), Self::spec_value_json(m.value.unwrap()));
    }

    /// Whether the field whose JSON name is `name` holds its default in `m`; for a member
    /// of a oneof, whether the oneof is set to another member or unset. `true` for a name
    /// that names no field.
    pub open spec fn spec_holds_default(m: ActionV, name: Seq<char>) -> bool {
        if name == "transfer"@ {
            !(m.value matches Some(action::ValueV::Transfer(_)))
        } else if name == "rollupDataSubmission"@ {
            !(m.value matches Some(action::ValueV::RollupDataSubmission(_)))
        } else if name == "initBridgeAccount"@ {
            !(m.value matches Some(action::ValueV::InitBridgeAccount(_)))
        } else if name == "bridgeLock"@ {
            !(m.value matches Some(action::ValueV::BridgeLock(_)))
        } else if name == "bridgeUnlock"@ {
            !(m.value matches Some(action::ValueV::BridgeUnlock(_)))
        } else if name == "bridgeSudoChange"@ {
            !(m.value matches Some(action::ValueV::BridgeSudoChange(_)))
        } else if name == "bridgeTransfer"@ {
            !(m.value matches Some(action::ValueV::BridgeTransfer(_)))
        } else if name == "ibc"@ {
            !(m.value matches Some(action::ValueV::Ibc(_)))
        } else if name == "ics20Withdrawal"@ {
            !(m.value matches Some(action::ValueV::Ics20Withdrawal(_)))
        } else if name == "sudoAddressChange"@ {
            !(m.value matches Some(action::ValueV::SudoAddressChange(_)))
        } else if name == "validatorUpdate"@ {
            !(m.value matches Some(action::ValueV::ValidatorUpdate(_)))
        } else if name == "ibcRelayerChange"@ {
            !(m.value matches Some(action::ValueV::IbcRelayerChange(_)))
        } else if name == "feeAssetChange"@ {
            !(m.value matches Some(action::ValueV::FeeAssetChange(_)))
        } else if name == "feeChange"@ {
            !(m.value matches Some(action::ValueV::FeeChange(_)))
        } else if name == "ibcSudoChange"@ {
            !(m.value matches Some(action::ValueV::IbcSudoChange(_)))
        } else if name == "recoverIbcClient"@ {
            !(m.value matches Some(action::ValueV::RecoverIbcClient(_)))
        } else if name == "currencyPairsChange"@ {
            !(m.value matches Some(action::ValueV::CurrencyPairsChange(_)))
        } else if name == "marketsChange"@ {
            !(m.value matches Some(action::ValueV::MarketsChange(_)))
        } else if name == "createOrder"@ {
            !(m.value matches Some(action::ValueV::CreateOrder(_)))
        } else if name == "cancelOrder"@ {
            !(m.value matches Some(action::ValueV::CancelOrder(_)))
        } else if name == "createMarket"@ {
            !(m.value matches Some(action::ValueV::CreateMarket(_)))
        } else if name == "updateMarket"@ {
            !(m.value matches Some(action::ValueV::UpdateMarket(_)))
        } else {
            true
        }
    }

    /// Whether reading `v` for the field whose JSON name is `name` leaves the field at
    /// its default: `null`, for a field that takes it (a message field, a member of a
    /// oneof); nothing, for any other field. `true` for a name that names no field.
    pub open spec fn spec_leaves_default(name: Seq<char>, v: JsonV) -> bool {
        if name == "transfer"@ {
            v is Null
        } else if name == "rollupDataSubmission"@ {
            v is Null
        } else if name == "initBridgeAccount"@ {
            v is Null
        } else if name == "bridgeLock"@ {
            v is Null
        } else if name == "bridgeUnlock"@ {
            v is Null
        } else if name == "bridgeSudoChange"@ {
            v is Null
        } else if name == "bridgeTransfer"@ {
            v is Null
        } else if name == "ibc"@ {
            v is Null
        } else if name == "ics20Withdrawal"@ {
            v is Null
        } else if name == "sudoAddressChange"@ {
            v is Null
        } else if name == "validatorUpdate"@ {
            v is Null
        } else if name == "ibcRelayerChange"@ {
            v is Null
        } else if name == "feeAssetChange"@ {
            v is Null
        } else if name == "feeChange"@ {
            v is Null
        } else if name == "ibcSudoChange"@ {
            v is Null
        } else if name == "recoverIbcClient"@ {
            v is Null
        } else if name == "currencyPairsChange"@ {
            v is Null
        } else if name == "marketsChange"@ {
            v is Null
        } else if name == "createOrder"@ {
            v is Null
        } else if name == "cancelOrder"@ {
            v is Null
        } else if name == "createMarket"@ {
            v is Null
        } else if name == "updateMarket"@ {
            v is Null
        } else {
            true
        }
    }

    /// Reading one member keeps a field at its default unless the key names the field
    /// and the value does not leave it there.
    pub proof fn lemma_step_keeps_default(st: (ActionV, Seq<bool>), key: Seq<char>, v: JsonV, name: Seq<char>)
        requires
            Self::spec_holds_default(st.0, name),
            Self::spec_json_key(key) == name ==> Self::spec_leaves_default(name, v),
        ensures
            Self::spec_step(st, key, v) is Ok ==> Self::spec_holds_default(Self::spec_step(st, key, v)->Ok_0.0, name),
    {
        reveal_strlit("transfer");
        reveal_strlit("rollupDataSubmission");
        reveal_strlit("rollup_data_submission");
        reveal_strlit("initBridgeAccount");
        reveal_strlit("init_bridge_account");
        reveal_strlit("bridgeLock");
        reveal_strlit("bridge_lock");
        reveal_strlit("bridgeUnlock");
        reveal_strlit("bridge_unlock");
        reveal_strlit("bridgeSudoChange");
        reveal_strlit("bridge_sudo_change");
        reveal_strlit("bridgeTransfer");
        reveal_strlit("bridge_transfer");
        reveal_strlit("ibc");
        reveal_strlit("ics20Withdrawal");
        reveal_strlit("ics20_withdrawal");
        reveal_strlit("sudoAddressChange");
        reveal_strlit("sudo_address_change");
        reveal_strlit("validatorUpdate");
        reveal_strlit("validator_update");
        reveal_strlit("ibcRelayerChange");
        reveal_strlit("ibc_relayer_change");
        reveal_strlit("feeAssetChange");
        reveal_strlit("fee_asset_change");
        reveal_strlit("feeChange");
        reveal_strlit("fee_change");
        reveal_strlit("ibcSudoChange");
        reveal_strlit("ibc_sudo_change");
        reveal_strlit("recoverIbcClient");
        reveal_strlit("recover_ibc_client");
        reveal_strlit("currencyPairsChange");
        reveal_strlit("currency_pairs_change");
        reveal_strlit("marketsChange");
        reveal_strlit("markets_change");
        reveal_strlit("createOrder");
        reveal_strlit("create_order");
        reveal_strlit("cancelOrder");
        reveal_strlit("cancel_order");
        reveal_strlit("createMarket");
        reveal_strlit("create_market");
        reveal_strlit("updateMarket");
        reveal_strlit("update_market");
        assert("transfer"@.len() == 8);
        assert("rollupDataSubmission"@.len() == 20);
        assert("rollup_data_submission"@.len() == 22);
        assert("initBridgeAccount"@.len() == 17);
        assert("init_bridge_account"@.len() == 19);
        assert("bridgeLock"@.len() == 10);
        assert("bridge_lock"@.len() == 11);
        assert("bridgeUnlock"@.len() == 12);
        assert("bridge_unlock"@.len() == 13);
        assert("bridgeSudoChange"@.len() == 16);
        assert("bridge_sudo_change"@.len() == 18);
        assert("bridgeTransfer"@.len() == 14);
        assert("bridge_transfer"@.len() == 15);
        assert("ibc"@.len() == 3);
        assert("ics20Withdrawal"@.len() == 15);
        assert("ics20_withdrawal"@.len() == 16);
        assert("sudoAddressChange"@.len() == 17);
        assert("sudo_address_change"@.len() == 19);
        assert("validatorUpdate"@.len() == 15);
        assert("validator_update"@.len() == 16);
        assert("ibcRelayerChange"@.len() == 16);
        assert("ibc_relayer_change"@.len() == 18);
        assert("feeAssetChange"@.len() == 14);
        assert("fee_asset_change"@.len() == 16);
        assert("feeChange"@.len() == 9);
        assert("fee_change"@.len() == 10);
        assert("ibcSudoChange"@.len() == 13);
        assert("ibc_sudo_change"@.len() == 15);
        assert("recoverIbcClient"@.len() == 16);
        assert("recover_ibc_client"@.len() == 18);
        assert("currencyPairsChange"@.len() == 19);
        assert("currency_pairs_change"@.len() == 21);
        assert("marketsChange"@.len() == 13);
        assert("markets_change"@.len() == 14);
        assert("createOrder"@.len() == 11);
        assert("create_order"@.len() == 12);
        assert("cancelOrder"@.len() == 11);
        assert("cancel_order"@.len() == 12);
        assert("createMarket"@.len() == 12);
        assert("create_market"@.len() == 13);
        assert("updateMarket"@.len() == 12);
        assert("update_market"@.len() == 13);
        assert("initBridgeAccount"@[0] != "sudoAddressChange"@[0]);
        assert("init_bridge_account"@[0] != "sudo_address_change"@[0]);
        assert("init_bridge_account"@[0] != "currencyPairsChange"@[0]);
        assert("bridgeLock"@[0] != "fee_change"@[0]);
        assert("bridge_lock"@[0] != "createOrder"@[0]);
        assert("bridge_lock"@[0] != "cancelOrder"@[0]);
        assert("bridgeUnlock"@[0] != "create_order"@[0]);
        assert("bridgeUnlock"@[0] != "cancel_order"@[0]);
        assert("bridgeUnlock"@[0] != "createMarket"@[0]);
        assert("bridgeUnlock"@[0] != "updateMarket"@[0]);
        assert("bridge_unlock"@[0] != "ibcSudoChange"@[0]);
        assert("bridge_unlock"@[0] != "marketsChange"@[0]);
        assert("bridge_unlock"@[0] != "create_market"@[0]);
        assert("bridge_unlock"@[0] != "update_market"@[0]);
        assert("bridgeSudoChange"@[0] != "ics20_withdrawal"@[0]);
        assert("bridgeSudoChange"@[0] != "validator_update"@[0]);
        assert("bridgeSudoChange"@[0] != "ibcRelayerChange"@[0]);
        assert("bridgeSudoChange"@[0] != "fee_asset_change"@[0]);
        assert("bridgeSudoChange"@[0] != "recoverIbcClient"@[0]);
        assert("bridge_sudo_change"@[0] != "ibc_relayer_change"@[0]);
        assert("bridge_sudo_change"@[0] != "recover_ibc_client"@[0]);
        assert("bridgeTransfer"@[0] != "feeAssetChange"@[0]);
        assert("bridgeTransfer"@[0] != "markets_change"@[0]);
        assert("bridge_transfer"@[0] != "ics20Withdrawal"@[0]);
        assert("bridge_transfer"@[0] != "validatorUpdate"@[0]);
        assert("bridge_transfer"@[0] != "ibc_sudo_change"@[0]);
        assert("ics20Withdrawal"@[0] != "validatorUpdate"@[0]);
        assert("ics20Withdrawal"@[1] != "ibc_sudo_change"@[1]);
        assert("ics20_withdrawal"@[0] != "validator_update"@[0]);
        assert("ics20_withdrawal"@[1] != "ibcRelayerChange"@[1]);
        assert("ics20_withdrawal"@[0] != "fee_asset_change"@[0]);
        assert("ics20_withdrawal"@[0] != "recoverIbcClient"@[0]);
        assert("sudo_address_change"@[0] != "currencyPairsChange"@[0]);
        assert("validatorUpdate"@[0] != "ibc_sudo_change"@[0]);
        assert("validator_update"@[0] != "ibcRelayerChange"@[0]);
        assert("validator_update"@[0] != "fee_asset_change"@[0]);
        assert("validator_update"@[0] != "recoverIbcClient"@[0]);
        assert("ibcRelayerChange"@[0] != "fee_asset_change"@[0]);
        assert("ibcRelayerChange"@[0] != "recoverIbcClient"@[0]);
        assert("ibc_relayer_change"@[0] != "recover_ibc_client"@[0]);
        assert("feeAssetChange"@[0] != "markets_change"@[0]);
        assert("fee_asset_change"@[0] != "recoverIbcClient"@[0]);
        assert("ibcSudoChange"@[0] != "marketsChange"@[0]);
        assert("ibcSudoChange"@[0] != "create_market"@[0]);
        assert("ibcSudoChange"@[0] != "update_market"@[0]);
        assert("marketsChange"@[0] != "create_market"@[0]);
        assert("marketsChange"@[0] != "update_market"@[0]);
        assert("createOrder"@[1] != "cancelOrder"@[1]);
        assert("create_order"@[1] != "cancel_order"@[1]);
        assert("create_order"@[6] != "createMarket"@[6]);
        assert("create_order"@[0] != "updateMarket"@[0]);
        assert("cancel_order"@[1] != "createMarket"@[1]);
        assert("cancel_order"@[0] != "updateMarket"@[0]);
        assert("createMarket"@[0] != "updateMarket"@[0]);
        assert("create_market"@[0] != "update_market"@[0]);
        Self::lemma_step_json_key(st, key, v);
    }

    /// A field whose key appears in no member of an object, or only with values that
    /// leave it at its default (`null`, for a field that takes it), holds its default in
    /// the message that the object describes.
    pub proof fn lemma_absent_default(es: Seq<(Seq<char>, JsonV)>, name: Seq<char>)
        requires
            forall|i: int| 0 <= i < es.len() ==> (Self::spec_json_key((#[trigger] es[i]).0) == name
                ==> Self::spec_leaves_default(name, es[i].1)),
        ensures
            Self::spec_from_json(JsonV::Object(es)) is Ok
                ==> Self::spec_holds_default(Self::spec_from_json(JsonV::Object(es))->Ok_0, name),
    {
        let inv = |s: (ActionV, Seq<bool>)| Self::spec_holds_default(s.0, name);
        let allowed = |k: Seq<char>, v: JsonV| Self::spec_json_key(k) == name ==> Self::spec_leaves_default(name, v);
        assert forall|s: (ActionV, Seq<bool>), k: Seq<char>, v: JsonV| #![trigger Self::step_fn()(s, k, v)]
            inv(s) && allowed(k, v) && Self::step_fn()(s, k, v) is Ok implies inv(Self::step_fn()(s, k, v)->Ok_0) by {
            Self::lemma_step_keeps_default(s, k, v, name);
        }
        assert(inv(Self::spec_start()));
        lemma_fold_keeps(Self::spec_start(), es, Self::step_fn(), inv, allowed);
    }

    /// Whether a key names a member of the oneof `value`, in either spelling.
    pub open spec fn spec_is_member_key(key: Seq<char>) -> bool {
        key == "transfer"@ || key == "rollupDataSubmission"@ || key == "rollup_data_submission"@ || key == "initBridgeAccount"@ || key == "init_bridge_account"@ || key == "bridgeLock"@ || key == "bridge_lock"@ || key == "bridgeUnlock"@ || key == "bridge_unlock"@ || key == "bridgeSudoChange"@ || key == "bridge_sudo_change"@ || key == "bridgeTransfer"@ || key == "bridge_transfer"@ || key == "ibc"@ || key == "ics20Withdrawal"@ || key == "ics20_withdrawal"@ || key == "sudoAddressChange"@ || key == "sudo_address_change"@ || key == "validatorUpdate"@ || key == "validator_update"@ || key == "ibcRelayerChange"@ || key == "ibc_relayer_change"@ || key == "feeAssetChange"@ || key == "fee_asset_change"@ || key == "feeChange"@ || key == "fee_change"@ || key == "ibcSudoChange"@ || key == "ibc_sudo_change"@ || key == "recoverIbcClient"@ || key == "recover_ibc_client"@ || key == "currencyPairsChange"@ || key == "currency_pairs_change"@ || key == "marketsChange"@ || key == "markets_change"@ || key == "createOrder"@ || key == "create_order"@ || key == "cancelOrder"@ || key == "cancel_order"@ || key == "createMarket"@ || key == "create_market"@ || key == "updateMarket"@ || key == "update_market"@
    }

    /// The member of the oneof `value` that one member of an object gives: unset for
    /// `null`, else the member that the key names, read from the value.
    pub open spec fn spec_member_value(key: Seq<char>, v: JsonV) -> Result<Option<action::ValueV>, JsonErrorV> {
        if key == "transfer"@ {
            match Transfer::spec_read_opt(v) {
                Ok(Some(x)) => Ok(Some(action::ValueV::Transfer(x))),
                Ok(None) => Ok(None),
                Err(e) => Err(e),
            }
        } else if key == "rollupDataSubmission"@ || key == "rollup_data_submission"@ {
            match RollupDataSubmission::spec_read_opt(v) {
                Ok(Some(x)) => Ok(Some(action::ValueV::RollupDataSubmission(x))),
                Ok(None) => Ok(None),
                Err(e) => Err(e),
            }
        } else if key == "initBridgeAccount"@ || key == "init_bridge_account"@ {
            match InitBridgeAccount::spec_read_opt(v) {
                Ok(Some(x)) => Ok(Some(action::ValueV::InitBridgeAccount(x))),
                Ok(None) => Ok(None),
                Err(e) => Err(e),
            }
        } else if key == "bridgeLock"@ || key == "bridge_lock"@ {
            match BridgeLock::spec_read_opt(v) {
                Ok(Some(x)) => Ok(Some(action::ValueV::BridgeLock(x))),
                Ok(None) => Ok(None),
                Err(e) => Err(e),
            }
        } else if key == "bridgeUnlock"@ || key == "bridge_unlock"@ {
            match BridgeUnlock::spec_read_opt(v) {
                Ok(Some(x)) => Ok(Some(action::ValueV::BridgeUnlock(x))),
                Ok(None) => Ok(None),
                Err(e) => Err(e),
            }
        } else if key == "bridgeSudoChange"@ || key == "bridge_sudo_change"@ {
            match BridgeSudoChange::spec_read_opt(v) {
                Ok(Some(x)) => Ok(Some(action::ValueV::BridgeSudoChange(x))),
                Ok(None) => Ok(None),
                Err(e) => Err(e),
            }
        } else if key == "bridgeTransfer"@ || key == "bridge_transfer"@ {
            match BridgeTransfer::spec_read_opt(v) {
                Ok(Some(x)) => Ok(Some(action::ValueV::BridgeTransfer(x))),
                Ok(None) => Ok(None),
                Err(e) => Err(e),
            }
        } else if key == "ibc"@ {
            match read_embedded(v) {
                Ok(Some(x)) => Ok(Some(action::ValueV::Ibc(x))),
                Ok(None) => Ok(None),
                Err(e) => Err(e),
            }
        } else if key == "ics20Withdrawal"@ || key == "ics20_withdrawal"@ {
            match Ics20Withdrawal::spec_read_opt(v) {
                Ok(Some(x)) => Ok(Some(action::ValueV::Ics20Withdrawal(x))),
                Ok(None) => Ok(None),
                Err(e) => Err(e),
            }
        } else if key == "sudoAddressChange"@ || key == "sudo_address_change"@ {
            match SudoAddressChange::spec_read_opt(v) {
                Ok(Some(x)) => Ok(Some(action::ValueV::SudoAddressChange(x))),
                Ok(None) => Ok(None),
                Err(e) => Err(e),
            }
        } else if key == "validatorUpdate"@ || key == "validator_update"@ {
            match ValidatorUpdate::spec_read_opt(v) {
                Ok(Some(x)) => Ok(Some(action::ValueV::ValidatorUpdate(x))),
                Ok(None) => Ok(None),
                Err(e) => Err(e),
            }
        } else if key == "ibcRelayerChange"@ || key == "ibc_relayer_change"@ {
            match IbcRelayerChange::spec_read_opt(v) {
                Ok(Some(x)) => Ok(Some(action::ValueV::IbcRelayerChange(x))),
                Ok(None) => Ok(None),
                Err(e) => Err(e),
            }
        } else if key == "feeAssetChange"@ || key == "fee_asset_change"@ {
            match FeeAssetChange::spec_read_opt(v) {
                Ok(Some(x)) => Ok(Some(action::ValueV::FeeAssetChange(x))),
                Ok(None) => Ok(None),
                Err(e) => Err(e),
            }
        } else if key == "feeChange"@ || key == "fee_change"@ {
            match FeeChange::spec_read_opt(v) {
                Ok(Some(x)) => Ok(Some(action::ValueV::FeeChange(x))),
                Ok(None) => Ok(None),
                Err(e) => Err(e),
            }
        } else if key == "ibcSudoChange"@ || key == "ibc_sudo_change"@ {
            match IbcSudoChange::spec_read_opt(v) {
                Ok(Some(x)) => Ok(Some(action::ValueV::IbcSudoChange(x))),
                Ok(None) => Ok(None),
                Err(e) => Err(e),
            }
        } else if key == "recoverIbcClient"@ || key == "recover_ibc_client"@ {
            match RecoverIbcClient::spec_read_opt(v) {
                Ok(Some(x)) => Ok(Some(action::ValueV::RecoverIbcClient(x))),
                Ok(None) => Ok(None),
                Err(e) => Err(e),
            }
        } else if key == "currencyPairsChange"@ || key == "currency_pairs_change"@ {
            match CurrencyPairsChange::spec_read_opt(v) {
                Ok(Some(x)) => Ok(Some(action::ValueV::CurrencyPairsChange(x))),
                Ok(None) => Ok(None),
                Err(e) => Err(e),
            }
        } else if key == "marketsChange"@ || key == "markets_change"@ {
            match MarketsChange::spec_read_opt(v) {
                Ok(Some(x)) => Ok(Some(action::ValueV::MarketsChange(x))),
                Ok(None) => Ok(None),
                Err(e) => Err(e),
            }
        } else if key == "createOrder"@ || key == "create_order"@ {
            match CreateOrder::spec_read_opt(v) {
                Ok(Some(x)) => Ok(Some(action::ValueV::CreateOrder(x))),
                Ok(None) => Ok(None),
                Err(e) => Err(e),
            }
        } else if key == "cancelOrder"@ || key == "cancel_order"@ {
            match CancelOrder::spec_read_opt(v) {
                Ok(Some(x)) => Ok(Some(action::ValueV::CancelOrder(x))),
                Ok(None) => Ok(None),
                Err(e) => Err(e),
            }
        } else if key == "createMarket"@ || key == "create_market"@ {
            match CreateMarket::spec_read_opt(v) {
                Ok(Some(x)) => Ok(Some(action::ValueV::CreateMarket(x))),
                Ok(None) => Ok(None),
                Err(e) => Err(e),
            }
        } else if key == "updateMarket"@ || key == "update_market"@ {
            match UpdateMarket::spec_read_opt(v) {
                Ok(Some(x)) => Ok(Some(action::ValueV::UpdateMarket(x))),
                Ok(None) => Ok(None),
                Err(e) => Err(e),
            }
        } else {
            Err(JsonErrorV::UnknownField(key))
        }
    }

    /// An object whose keys each name a member of the oneof `value`, whose first `k`
    /// members are `null`, and whose member `k`, if there is one, is not `null` and reads
    /// as the member its key names: with no member past the `null` ones the oneof is
    /// unset; with member `k` last the oneof is that member; any key after member `k`,
    /// whatever its value, is refused as a duplicate under its JSON name.
    pub proof fn lemma_oneof_members(es: Seq<(Seq<char>, JsonV)>, k: int)
        requires
            0 <= k <= es.len(),
            forall|i: int| 0 <= i < es.len() ==> Self::spec_is_member_key(#[trigger] es[i].0),
            forall|i: int| 0 <= i < k ==> (#[trigger] es[i]).1 is Null,
            k < es.len() ==> es[k].1 !is Null && Self::spec_member_value(es[k].0, es[k].1) is Ok,
        ensures
            k == es.len() ==> Self::spec_from_json(JsonV::Object(es)) == Ok::<ActionV, JsonErrorV>(Self::spec_default()),
            k == es.len() - 1 ==> Self::spec_from_json(JsonV::Object(es))
                == Ok::<ActionV, JsonErrorV>(ActionV { value: Self::spec_member_value(es[k].0, es[k].1)->Ok_0 }),
            k < es.len() - 1 ==> Self::spec_from_json(JsonV::Object(es))
                == Err::<ActionV, JsonErrorV>(JsonErrorV::DuplicateField(Self::spec_json_key(es[k + 1].0))),
        decreases k,
    {
        reveal_strlit("transfer");
        reveal_strlit("rollupDataSubmission");
        reveal_strlit("rollup_data_submission");
        reveal_strlit("initBridgeAccount");
        reveal_strlit("init_bridge_account");
        reveal_strlit("bridgeLock");
        reveal_strlit("bridge_lock");
        reveal_strlit("bridgeUnlock");
        reveal_strlit("bridge_unlock");
        reveal_strlit("bridgeSudoChange");
        reveal_strlit("bridge_sudo_change");
        reveal_strlit("bridgeTransfer");
        reveal_strlit("bridge_transfer");
        reveal_strlit("ibc");
        reveal_strlit("ics20Withdrawal");
        reveal_strlit("ics20_withdrawal");
        reveal_strlit("sudoAddressChange");
        reveal_strlit("sudo_address_change");
        reveal_strlit("validatorUpdate");
        reveal_strlit("validator_update");
        reveal_strlit("ibcRelayerChange");
        reveal_strlit("ibc_relayer_change");
        reveal_strlit("feeAssetChange");
        reveal_strlit("fee_asset_change");
        reveal_strlit("feeChange");
        reveal_strlit("fee_change");
        reveal_strlit("ibcSudoChange");
        reveal_strlit("ibc_sudo_change");
        reveal_strlit("recoverIbcClient");
        reveal_strlit("recover_ibc_client");
        reveal_strlit("currencyPairsChange");
        reveal_strlit("currency_pairs_change");
        reveal_strlit("marketsChange");
        reveal_strlit("markets_change");
        reveal_strlit("createOrder");
        reveal_strlit("create_order");
        reveal_strlit("cancelOrder");
        reveal_strlit("cancel_order");
        reveal_strlit("createMarket");
        reveal_strlit("create_market");
        reveal_strlit("updateMarket");
        reveal_strlit("update_market");
        assert("transfer"@.len() == 8);
        assert("rollupDataSubmission"@.len() == 20);
        assert("rollup_data_submission"@.len() == 22);
        assert("initBridgeAccount"@.len() == 17);
        assert("init_bridge_account"@.len() == 19);
        assert("bridgeLock"@.len() == 10);
        assert("bridge_lock"@.len() == 11);
        assert("bridgeUnlock"@.len() == 12);
        assert("bridge_unlock"@.len() == 13);
        assert("bridgeSudoChange"@.len() == 16);
        assert("bridge_sudo_change"@.len() == 18);
        assert("bridgeTransfer"@.len() == 14);
        assert("bridge_transfer"@.len() == 15);
        assert("ibc"@.len() == 3);
        assert("ics20Withdrawal"@.len() == 15);
        assert("ics20_withdrawal"@.len() == 16);
        assert("sudoAddressChange"@.len() == 17);
        assert("sudo_address_change"@.len() == 19);
        assert("validatorUpdate"@.len() == 15);
        assert("validator_update"@.len() == 16);
        assert("ibcRelayerChange"@.len() == 16);
        assert("ibc_relayer_change"@.len() == 18);
        assert("feeAssetChange"@.len() == 14);
        assert("fee_asset_change"@.len() == 16);
        assert("feeChange"@.len() == 9);
        assert("fee_change"@.len() == 10);
        assert("ibcSudoChange"@.len() == 13);
        assert("ibc_sudo_change"@.len() == 15);
        assert("recoverIbcClient"@.len() == 16);
        assert("recover_ibc_client"@.len() == 18);
        assert("currencyPairsChange"@.len() == 19);
        assert("currency_pairs_change"@.len() == 21);
        assert("marketsChange"@.len() == 13);
        assert("markets_change"@.len() == 14);
        assert("createOrder"@.len() == 11);
        assert("create_order"@.len() == 12);
        assert("cancelOrder"@.len() == 11);
        assert("cancel_order"@.len() == 12);
        assert("createMarket"@.len() == 12);
        assert("create_market"@.len() == 13);
        assert("updateMarket"@.len() == 12);
        assert("update_market"@.len() == 13);
        assert("initBridgeAccount"@[0] != "sudoAddressChange"@[0]);
        assert("init_bridge_account"@[0] != "sudo_address_change"@[0]);
        assert("init_bridge_account"@[0] != "currencyPairsChange"@[0]);
        assert("bridgeLock"@[0] != "fee_change"@[0]);
        assert("bridge_lock"@[0] != "createOrder"@[0]);
        assert("bridge_lock"@[0] != "cancelOrder"@[0]);
        assert("bridgeUnlock"@[0] != "create_order"@[0]);
        assert("bridgeUnlock"@[0] != "cancel_order"@[0]);
        assert("bridgeUnlock"@[0] != "createMarket"@[0]);
        assert("bridgeUnlock"@[0] != "updateMarket"@[0]);
        assert("bridge_unlock"@[0] != "ibcSudoChange"@[0]);
        assert("bridge_unlock"@[0] != "marketsChange"@[0]);
        assert("bridge_unlock"@[0] != "create_market"@[0]);
        assert("bridge_unlock"@[0] != "update_market"@[0]);
        assert("bridgeSudoChange"@[0] != "ics20_withdrawal"@[0]);
        assert("bridgeSudoChange"@[0] != "validator_update"@[0]);
        assert("bridgeSudoChange"@[0] != "ibcRelayerChange"@[0]);
        assert("bridgeSudoChange"@[0] != "fee_asset_change"@[0]);
        assert("bridgeSudoChange"@[0] != "recoverIbcClient"@[0]);
        assert("bridge_sudo_change"@[0] != "ibc_relayer_change"@[0]);
        assert("bridge_sudo_change"@[0] != "recover_ibc_client"@[0]);
        assert("bridgeTransfer"@[0] != "feeAssetChange"@[0]);
        assert("bridgeTransfer"@[0] != "markets_change"@[0]);
        assert("bridge_transfer"@[0] != "ics20Withdrawal"@[0]);
        assert("bridge_transfer"@[0] != "validatorUpdate"@[0]);
        assert("bridge_transfer"@[0] != "ibc_sudo_change"@[0]);
        assert("ics20Withdrawal"@[0] != "validatorUpdate"@[0]);
        assert("ics20Withdrawal"@[1] != "ibc_sudo_change"@[1]);
        assert("ics20_withdrawal"@[0] != "validator_update"@[0]);
        assert("ics20_withdrawal"@[1] != "ibcRelayerChange"@[1]);
        assert("ics20_withdrawal"@[0] != "fee_asset_change"@[0]);
        assert("ics20_withdrawal"@[0] != "recoverIbcClient"@[0]);
        assert("sudo_address_change"@[0] != "currencyPairsChange"@[0]);
        assert("validatorUpdate"@[0] != "ibc_sudo_change"@[0]);
        assert("validator_update"@[0] != "ibcRelayerChange"@[0]);
        assert("validator_update"@[0] != "fee_asset_change"@[0]);
        assert("validator_update"@[0] != "recoverIbcClient"@[0]);
        assert("ibcRelayerChange"@[0] != "fee_asset_change"@[0]);
        assert("ibcRelayerChange"@[0] != "recoverIbcClient"@[0]);
        assert("ibc_relayer_change"@[0] != "recover_ibc_client"@[0]);
        assert("feeAssetChange"@[0] != "markets_change"@[0]);
        assert("fee_asset_change"@[0] != "recoverIbcClient"@[0]);
        assert("ibcSudoChange"@[0] != "marketsChange"@[0]);
        assert("ibcSudoChange"@[0] != "create_market"@[0]);
        assert("ibcSudoChange"@[0] != "update_market"@[0]);
        assert("marketsChange"@[0] != "create_market"@[0]);
        assert("marketsChange"@[0] != "update_market"@[0]);
        assert("createOrder"@[1] != "cancelOrder"@[1]);
        assert("create_order"@[1] != "cancel_order"@[1]);
        assert("create_order"@[6] != "createMarket"@[6]);
        assert("create_order"@[0] != "updateMarket"@[0]);
        assert("cancel_order"@[1] != "createMarket"@[1]);
        assert("cancel_order"@[0] != "updateMarket"@[0]);
        assert("createMarket"@[0] != "updateMarket"@[0]);
        assert("create_market"@[0] != "update_market"@[0]);
        let s0 = Self::spec_start();
        if es.len() > 0 {
            assert(Self::spec_is_member_key(es[0].0));
            let rest = es.drop_first();
            if k > 0 {
                assert(es[0].1 is Null);
                assert(Self::spec_step(s0, es[0].0, es[0].1) == Ok::<(ActionV, Seq<bool>), JsonErrorV>(s0));
                assert forall|i: int| 0 <= i < rest.len() implies Self::spec_is_member_key(#[trigger] rest[i].0) by {
                    assert(rest[i] == es[i + 1]);
                }
                assert forall|i: int| 0 <= i < k - 1 implies (#[trigger] rest[i]).1 is Null by {
                    assert(rest[i] == es[i + 1]);
                }
                if k < es.len() {
                    assert(rest[k - 1] == es[k]);
                }
                if k + 1 < es.len() {
                    assert(rest[k] == es[k + 1]);
                }
                assert(fold_entries(s0, es, Self::step_fn()) == fold_entries(s0, rest, Self::step_fn()));
                Self::lemma_oneof_members(rest, k - 1);
            } else {
                let m = ActionV { value: Self::spec_member_value(es[0].0, es[0].1)->Ok_0 };
                assert(m.value is Some);
                assert(Self::spec_step(s0, es[0].0, es[0].1) == Ok::<(ActionV, Seq<bool>), JsonErrorV>((m, s0.1)));
                assert(fold_entries(s0, es, Self::step_fn()) == fold_entries((m, s0.1), rest, Self::step_fn()));
                if es.len() > 1 {
                    assert(rest[0] == es[1]);
                    assert(Self::spec_is_member_key(es[1].0));
                    assert(Self::spec_step((m, s0.1), es[1].0, es[1].1)
                        == Err::<(ActionV, Seq<bool>), JsonErrorV>(JsonErrorV::DuplicateField(Self::spec_json_key(es[1].0))));
                    assert(fold_entries((m, s0.1), rest, Self::step_fn())
                        == Err::<(ActionV, Seq<bool>), JsonErrorV>(JsonErrorV::DuplicateField(Self::spec_json_key(es[1].0))));
                } else {
                    assert(rest.len() == 0);
                    assert(fold_entries((m, s0.1), rest, Self::step_fn()) == Ok::<(ActionV, Seq<bool>), JsonErrorV>((m, s0.1)));
                }
            }
        }
    }

    /// An object whose keys each name a member of the oneof `value`, and whose values other
    /// than `null` each read as the member their key names, is refused exactly when a
    /// member follows one whose value is not `null`, as a duplicate under the JSON name of
    /// the key after [`first_set`]. Otherwise the oneof is the member at [`first_set`], or
    /// unset when every value is `null`.
    pub proof fn lemma_oneof_object(es: Seq<(Seq<char>, JsonV)>)
        requires
            forall|i: int| 0 <= i < es.len() ==> Self::spec_is_member_key(#[trigger] es[i].0),
            forall|i: int| 0 <= i < es.len() && !((#[trigger] es[i]).1 is Null)
                ==> Self::spec_member_value(es[i].0, es[i].1) is Ok,
        ensures
            Self::spec_from_json(JsonV::Object(es)) is Err
                <==> exists|i: int| 0 <= i < es.len() - 1 && !((#[trigger] es[i]).1 is Null),
            first_set(es) == es.len() ==> Self::spec_from_json(JsonV::Object(es)) == Ok::<ActionV, JsonErrorV>(Self::spec_default()),
            first_set(es) == es.len() - 1 ==> Self::spec_from_json(JsonV::Object(es))
                == Ok::<ActionV, JsonErrorV>(ActionV { value: Self::spec_member_value(es[first_set(es)].0, es[first_set(es)].1)->Ok_0 }),
            first_set(es) < es.len() - 1 ==> Self::spec_from_json(JsonV::Object(es))
                == Err::<ActionV, JsonErrorV>(JsonErrorV::DuplicateField(Self::spec_json_key(es[first_set(es) + 1].0))),
    {
        lemma_first_set(es);
        let k = first_set(es);
        if k < es.len() {
            assert(!(es[k].1 is Null));
        }
        Self::lemma_oneof_members(es, k);
    }

    /// The field `transfer` alone: an object with one member under its JSON or protobuf
    /// name reads as the message with that field set and every other field at its
    /// default, and the message with only that field off its default writes that
    /// one member under the JSON name.
    pub proof fn lemma_member_transfer(x: TransferV, es: Seq<(Seq<char>, JsonV)>)
        ensures
            Self::spec_from_json(JsonV::Object(seq![("transfer"@, JsonV::Object(es))])) == (match Transfer::spec_from_json(JsonV::Object(es)) { Ok(y) => Ok::<ActionV, JsonErrorV>(ActionV { value: Some(action::ValueV::Transfer(y)) }), Err(e) => Err(e) }),
            Self::spec_from_json(JsonV::Object(seq![("transfer"@, JsonV::Null)])) == Ok::<ActionV, JsonErrorV>(Self::spec_default()),
            Self::spec_to_json(ActionV { value: Some(action::ValueV::Transfer(x)) }) == JsonV::Object(seq![("transfer"@, Transfer::spec_to_json(x))]),
    {
        reveal_strlit("transfer");
        reveal_strlit("rollupDataSubmission");
        reveal_strlit("rollup_data_submission");
        reveal_strlit("initBridgeAccount");
        reveal_strlit("init_bridge_account");
        reveal_strlit("bridgeLock");
        reveal_strlit("bridge_lock");
        reveal_strlit("bridgeUnlock");
        reveal_strlit("bridge_unlock");
        reveal_strlit("bridgeSudoChange");
        reveal_strlit("bridge_sudo_change");
        reveal_strlit("bridgeTransfer");
        reveal_strlit("bridge_transfer");
        reveal_strlit("ibc");
        reveal_strlit("ics20Withdrawal");
        reveal_strlit("ics20_withdrawal");
        reveal_strlit("sudoAddressChange");
        reveal_strlit("sudo_address_change");
        reveal_strlit("validatorUpdate");
        reveal_strlit("validator_update");
        reveal_strlit("ibcRelayerChange");
        reveal_strlit("ibc_relayer_change");
        reveal_strlit("feeAssetChange");
        reveal_strlit("fee_asset_change");
        reveal_strlit("feeChange");
        reveal_strlit("fee_change");
        reveal_strlit("ibcSudoChange");
        reveal_strlit("ibc_sudo_change");
        reveal_strlit("recoverIbcClient");
        reveal_strlit("recover_ibc_client");
        reveal_strlit("currencyPairsChange");
        reveal_strlit("currency_pairs_change");
        reveal_strlit("marketsChange");
        reveal_strlit("markets_change");
        reveal_strlit("createOrder");
        reveal_strlit("create_order");
        reveal_strlit("cancelOrder");
        reveal_strlit("cancel_order");
        reveal_strlit("createMarket");
        reveal_strlit("create_market");
        reveal_strlit("updateMarket");
        reveal_strlit("update_market");
        assert("transfer"@.len() == 8);
        assert("rollupDataSubmission"@.len() == 20);
        assert("rollup_data_submission"@.len() == 22);
        assert("initBridgeAccount"@.len() == 17);
        assert("init_bridge_account"@.len() == 19);
        assert("bridgeLock"@.len() == 10);
        assert("bridge_lock"@.len() == 11);
        assert("bridgeUnlock"@.len() == 12);
        assert("bridge_unlock"@.len() == 13);
        assert("bridgeSudoChange"@.len() == 16);
        assert("bridge_sudo_change"@.len() == 18);
        assert("bridgeTransfer"@.len() == 14);
        assert("bridge_transfer"@.len() == 15);
        assert("ibc"@.len() == 3);
        assert("ics20Withdrawal"@.len() == 15);
        assert("ics20_withdrawal"@.len() == 16);
        assert("sudoAddressChange"@.len() == 17);
        assert("sudo_address_change"@.len() == 19);
        assert("validatorUpdate"@.len() == 15);
        assert("validator_update"@.len() == 16);
        assert("ibcRelayerChange"@.len() == 16);
        assert("ibc_relayer_change"@.len() == 18);
        assert("feeAssetChange"@.len() == 14);
        assert("fee_asset_change"@.len() == 16);
        assert("feeChange"@.len() == 9);
        assert("fee_change"@.len() == 10);
        assert("ibcSudoChange"@.len() == 13);
        assert("ibc_sudo_change"@.len() == 15);
        assert("recoverIbcClient"@.len() == 16);
        assert("recover_ibc_client"@.len() == 18);
        assert("currencyPairsChange"@.len() == 19);
        assert("currency_pairs_change"@.len() == 21);
        assert("marketsChange"@.len() == 13);
        assert("markets_change"@.len() == 14);
        assert("createOrder"@.len() == 11);
        assert("create_order"@.len() == 12);
        assert("cancelOrder"@.len() == 11);
        assert("cancel_order"@.len() == 12);
        assert("createMarket"@.len() == 12);
        assert("create_market"@.len() == 13);
        assert("updateMarket"@.len() == 12);
        assert("update_market"@.len() == 13);
        assert("initBridgeAccount"@[0] != "sudoAddressChange"@[0]);
        assert("init_bridge_account"@[0] != "sudo_address_change"@[0]);
        assert("init_bridge_account"@[0] != "currencyPairsChange"@[0]);
        assert("bridgeLock"@[0] != "fee_change"@[0]);
        assert("bridge_lock"@[0] != "createOrder"@[0]);
        assert("bridge_lock"@[0] != "cancelOrder"@[0]);
        assert("bridgeUnlock"@[0] != "create_order"@[0]);
        assert("bridgeUnlock"@[0] != "cancel_order"@[0]);
        assert("bridgeUnlock"@[0] != "createMarket"@[0]);
        assert("bridgeUnlock"@[0] != "updateMarket"@[0]);
        assert("bridge_unlock"@[0] != "ibcSudoChange"@[0]);
        assert("bridge_unlock"@[0] != "marketsChange"@[0]);
        assert("bridge_unlock"@[0] != "create_market"@[0]);
        assert("bridge_unlock"@[0] != "update_market"@[0]);
        assert("bridgeSudoChange"@[0] != "ics20_withdrawal"@[0]);
        assert("bridgeSudoChange"@[0] != "validator_update"@[0]);
        assert("bridgeSudoChange"@[0] != "ibcRelayerChange"@[0]);
        assert("bridgeSudoChange"@[0] != "fee_asset_change"@[0]);
        assert("bridgeSudoChange"@[0] != "recoverIbcClient"@[0]);
        assert("bridge_sudo_change"@[0] != "ibc_relayer_change"@[0]);
        assert("bridge_sudo_change"@[0] != "recover_ibc_client"@[0]);
        assert("bridgeTransfer"@[0] != "feeAssetChange"@[0]);
        assert("bridgeTransfer"@[0] != "markets_change"@[0]);
        assert("bridge_transfer"@[0] != "ics20Withdrawal"@[0]);
        assert("bridge_transfer"@[0] != "validatorUpdate"@[0]);
        assert("bridge_transfer"@[0] != "ibc_sudo_change"@[0]);
        assert("ics20Withdrawal"@[0] != "validatorUpdate"@[0]);
        assert("ics20Withdrawal"@[1] != "ibc_sudo_change"@[1]);
        assert("ics20_withdrawal"@[0] != "validator_update"@[0]);
        assert("ics20_withdrawal"@[1] != "ibcRelayerChange"@[1]);
        assert("ics20_withdrawal"@[0] != "fee_asset_change"@[0]);
        assert("ics20_withdrawal"@[0] != "recoverIbcClient"@[0]);
        assert("sudo_address_change"@[0] != "currencyPairsChange"@[0]);
        assert("validatorUpdate"@[0] != "ibc_sudo_change"@[0]);
        assert("validator_update"@[0] != "ibcRelayerChange"@[0]);
        assert("validator_update"@[0] != "fee_asset_change"@[0]);
        assert("validator_update"@[0] != "recoverIbcClient"@[0]);
        assert("ibcRelayerChange"@[0] != "fee_asset_change"@[0]);
        assert("ibcRelayerChange"@[0] != "recoverIbcClient"@[0]);
        assert("ibc_relayer_change"@[0] != "recover_ibc_client"@[0]);
        assert("feeAssetChange"@[0] != "markets_change"@[0]);
        assert("fee_asset_change"@[0] != "recoverIbcClient"@[0]);
        assert("ibcSudoChange"@[0] != "marketsChange"@[0]);
        assert("ibcSudoChange"@[0] != "create_market"@[0]);
        assert("ibcSudoChange"@[0] != "update_market"@[0]);
        assert("marketsChange"@[0] != "create_market"@[0]);
        assert("marketsChange"@[0] != "update_market"@[0]);
        assert("createOrder"@[1] != "cancelOrder"@[1]);
        assert("create_order"@[1] != "cancel_order"@[1]);
        assert("create_order"@[6] != "createMarket"@[6]);
        assert("create_order"@[0] != "updateMarket"@[0]);
        assert("cancel_order"@[1] != "createMarket"@[1]);
        assert("cancel_order"@[0] != "updateMarket"@[0]);
        assert("createMarket"@[0] != "updateMarket"@[0]);
        assert("create_market"@[0] != "update_market"@[0]);
        lemma_fold_entry_if(Self::spec_start(), true, "transfer"@, JsonV::Object(es), Self::step_fn());
        lemma_fold_entry_if(Self::spec_start(), true, "transfer"@, JsonV::Null, Self::step_fn());
    }

    /// The field `rollup_data_submission` alone: an object with one member under its JSON or protobuf
    /// name reads as the message with that field set and every other field at its
    /// default, and the message with only that field off its default writes that
    /// one member under the JSON name.
    pub proof fn lemma_member_rollup_data_submission(x: RollupDataSubmissionV, es: Seq<(Seq<char>, JsonV)>)
        ensures
            Self::spec_from_json(JsonV::Object(seq![("rollupDataSubmission"@, JsonV::Object(es))])) == (match RollupDataSubmission::spec_from_json(JsonV::Object(es)) { Ok(y) => Ok::<ActionV, JsonErrorV>(ActionV { value: Some(action::ValueV::RollupDataSubmission(y)) }), Err(e) => Err(e) }),
            Self::spec_from_json(JsonV::Object(seq![("rollup_data_submission"@, JsonV::Object(es))])) == (match RollupDataSubmission::spec_from_json(JsonV::Object(es)) { Ok(y) => Ok::<ActionV, JsonErrorV>(ActionV { value: Some(action::ValueV::RollupDataSubmission(y)) }), Err(e) => Err(e) }),
            Self::spec_from_json(JsonV::Object(seq![("rollupDataSubmission"@, JsonV::Null)])) == Ok::<ActionV, JsonErrorV>(Self::spec_default()),
            Self::spec_from_json(JsonV::Object(seq![("rollup_data_submission"@, JsonV::Null)])) == Ok::<ActionV, JsonErrorV>(Self::spec_default()),
            Self::spec_to_json(ActionV { value: Some(action::ValueV::RollupDataSubmission(x)) }) == JsonV::Object(seq![("rollupDataSubmission"@, RollupDataSubmission::spec_to_json(x))]),
    {
        reveal_strlit("transfer");
        reveal_strlit("rollupDataSubmission");
        reveal_strlit("rollup_data_submission");
        reveal_strlit("initBridgeAccount");
        reveal_strlit("init_bridge_account");
        reveal_strlit("bridgeLock");
        reveal_strlit("bridge_lock");
        reveal_strlit("bridgeUnlock");
        reveal_strlit("bridge_unlock");
        reveal_strlit("bridgeSudoChange");
        reveal_strlit("bridge_sudo_change");
        reveal_strlit("bridgeTransfer");
        reveal_strlit("bridge_transfer");
        reveal_strlit("ibc");
        reveal_strlit("ics20Withdrawal");
        reveal_strlit("ics20_withdrawal");
        reveal_strlit("sudoAddressChange");
        reveal_strlit("sudo_address_change");
        reveal_strlit("validatorUpdate");
        reveal_strlit("validator_update");
        reveal_strlit("ibcRelayerChange");
        reveal_strlit("ibc_relayer_change");
        reveal_strlit("feeAssetChange");
        reveal_strlit("fee_asset_change");
        reveal_strlit("feeChange");
        reveal_strlit("fee_change");
        reveal_strlit("ibcSudoChange");
        reveal_strlit("ibc_sudo_change");
        reveal_strlit("recoverIbcClient");
        reveal_strlit("recover_ibc_client");
        reveal_strlit("currencyPairsChange");
        reveal_strlit("currency_pairs_change");
        reveal_strlit("marketsChange");
        reveal_strlit("markets_change");
        reveal_strlit("createOrder");
        reveal_strlit("create_order");
        reveal_strlit("cancelOrder");
        reveal_strlit("cancel_order");
        reveal_strlit("createMarket");
        reveal_strlit("create_market");
        reveal_strlit("updateMarket");
        reveal_strlit("update_market");
        assert("transfer"@.len() == 8);
        assert("rollupDataSubmission"@.len() == 20);
        assert("rollup_data_submission"@.len() == 22);
        assert("initBridgeAccount"@.len() == 17);
        assert("init_bridge_account"@.len() == 19);
        assert("bridgeLock"@.len() == 10);
        assert("bridge_lock"@.len() == 11);
        assert("bridgeUnlock"@.len() == 12);
        assert("bridge_unlock"@.len() == 13);
        assert("bridgeSudoChange"@.len() == 16);
        assert("bridge_sudo_change"@.len() == 18);
        assert("bridgeTransfer"@.len() == 14);
        assert("bridge_transfer"@.len() == 15);
        assert("ibc"@.len() == 3);
        assert("ics20Withdrawal"@.len() == 15);
        assert("ics20_withdrawal"@.len() == 16);
        assert("sudoAddressChange"@.len() == 17);
        assert("sudo_address_change"@.len() == 19);
        assert("validatorUpdate"@.len() == 15);
        assert("validator_update"@.len() == 16);
        assert("ibcRelayerChange"@.len() == 16);
        assert("ibc_relayer_change"@.len() == 18);
        assert("feeAssetChange"@.len() == 14);
        assert("fee_asset_change"@.len() == 16);
        assert("feeChange"@.len() == 9);
        assert("fee_change"@.len() == 10);
        assert("ibcSudoChange"@.len() == 13);
        assert("ibc_sudo_change"@.len() == 15);
        assert("recoverIbcClient"@.len() == 16);
        assert("recover_ibc_client"@.len() == 18);
        assert("currencyPairsChange"@.len() == 19);
        assert("currency_pairs_change"@.len() == 21);
        assert("marketsChange"@.len() == 13);
        assert("markets_change"@.len() == 14);
        assert("createOrder"@.len() == 11);
        assert("create_order"@.len() == 12);
        assert("cancelOrder"@.len() == 11);
        assert("cancel_order"@.len() == 12);
        assert("createMarket"@.len() == 12);
        assert("create_market"@.len() == 13);
        assert("updateMarket"@.len() == 12);
        assert("update_market"@.len() == 13);
        assert("initBridgeAccount"@[0] != "sudoAddressChange"@[0]);
        assert("init_bridge_account"@[0] != "sudo_address_change"@[0]);
        assert("init_bridge_account"@[0] != "currencyPairsChange"@[0]);
        assert("bridgeLock"@[0] != "fee_change"@[0]);
        assert("bridge_lock"@[0] != "createOrder"@[0]);
        assert("bridge_lock"@[0] != "cancelOrder"@[0]);
        assert("bridgeUnlock"@[0] != "create_order"@[0]);
        assert("bridgeUnlock"@[0] != "cancel_order"@[0]);
        assert("bridgeUnlock"@[0] != "createMarket"@[0]);
        assert("bridgeUnlock"@[0] != "updateMarket"@[0]);
        assert("bridge_unlock"@[0] != "ibcSudoChange"@[0]);
        assert("bridge_unlock"@[0] != "marketsChange"@[0]);
        assert("bridge_unlock"@[0] != "create_market"@[0]);
        assert("bridge_unlock"@[0] != "update_market"@[0]);
        assert("bridgeSudoChange"@[0] != "ics20_withdrawal"@[0]);
        assert("bridgeSudoChange"@[0] != "validator_update"@[0]);
        assert("bridgeSudoChange"@[0] != "ibcRelayerChange"@[0]);
        assert("bridgeSudoChange"@[0] != "fee_asset_change"@[0]);
        assert("bridgeSudoChange"@[0] != "recoverIbcClient"@[0]);
        assert("bridge_sudo_change"@[0] != "ibc_relayer_change"@[0]);
        assert("bridge_sudo_change"@[0] != "recover_ibc_client"@[0]);
        assert("bridgeTransfer"@[0] != "feeAssetChange"@[0]);
        assert("bridgeTransfer"@[0] != "markets_change"@[0]);
        assert("bridge_transfer"@[0] != "ics20Withdrawal"@[0]);
        assert("bridge_transfer"@[0] != "validatorUpdate"@[0]);
        assert("bridge_transfer"@[0] != "ibc_sudo_change"@[0]);
        assert("ics20Withdrawal"@[0] != "validatorUpdate"@[0]);
        assert("ics20Withdrawal"@[1] != "ibc_sudo_change"@[1]);
        assert("ics20_withdrawal"@[0] != "validator_update"@[0]);
        assert("ics20_withdrawal"@[1] != "ibcRelayerChange"@[1]);
        assert("ics20_withdrawal"@[0] != "fee_asset_change"@[0]);
        assert("ics20_withdrawal"@[0] != "recoverIbcClient"@[0]);
        assert("sudo_address_change"@[0] != "currencyPairsChange"@[0]);
        assert("validatorUpdate"@[0] != "ibc_sudo_change"@[0]);
        assert("validator_update"@[0] != "ibcRelayerChange"@[0]);
        assert("validator_update"@[0] != "fee_asset_change"@[0]);
        assert("validator_update"@[0] != "recoverIbcClient"@[0]);
        assert("ibcRelayerChange"@[0] != "fee_asset_change"@[0]);
        assert("ibcRelayerChange"@[0] != "recoverIbcClient"@[0]);
        assert("ibc_relayer_change"@[0] != "recover_ibc_client"@[0]);
        assert("feeAssetChange"@[0] != "markets_change"@[0]);
        assert("fee_asset_change"@[0] != "recoverIbcClient"@[0]);
        assert("ibcSudoChange"@[0] != "marketsChange"@[0]);
        assert("ibcSudoChange"@[0] != "create_market"@[0]);
        assert("ibcSudoChange"@[0] != "update_market"@[0]);
        assert("marketsChange"@[0] != "create_market"@[0]);
        assert("marketsChange"@[0] != "update_market"@[0]);
        assert("createOrder"@[1] != "cancelOrder"@[1]);
        assert("create_order"@[1] != "cancel_order"@[1]);
        assert("create_order"@[6] != "createMarket"@[6]);
        assert("create_order"@[0] != "updateMarket"@[0]);
        assert("cancel_order"@[1] != "createMarket"@[1]);
        assert("cancel_order"@[0] != "updateMarket"@[0]);
        assert("createMarket"@[0] != "updateMarket"@[0]);
        assert("create_market"@[0] != "update_market"@[0]);
        lemma_fold_entry_if(Self::spec_start(), true, "rollupDataSubmission"@, JsonV::Object(es), Self::step_fn());
        lemma_fold_entry_if(Self::spec_start(), true, "rollup_data_submission"@, JsonV::Object(es), Self::step_fn());
        lemma_fold_entry_if(Self::spec_start(), true, "rollupDataSubmission"@, JsonV::Null, Self::step_fn());
        lemma_fold_entry_if(Self::spec_start(), true, "rollup_data_submission"@, JsonV::Null, Self::step_fn());
    }

    /// The field `init_bridge_account` alone: an object with one member under its JSON or protobuf
    /// name reads as the message with that field set and every other field at its
    /// default, and the message with only that field off its default writes that
    /// one member under the JSON name.
    pub proof fn lemma_member_init_bridge_account(x: InitBridgeAccountV, es: Seq<(Seq<char>, JsonV)>)
        ensures
            Self::spec_from_json(JsonV::Object(seq![("initBridgeAccount"@, JsonV::Object(es))])) == (match InitBridgeAccount::spec_from_json(JsonV::Object(es)) { Ok(y) => Ok::<ActionV, JsonErrorV>(ActionV { value: Some(action::ValueV::InitBridgeAccount(y)) }), Err(e) => Err(e) }),
            Self::spec_from_json(JsonV::Object(seq![("init_bridge_account"@, JsonV::Object(es))])) == (match InitBridgeAccount::spec_from_json(JsonV::Object(es)) { Ok(y) => Ok::<ActionV, JsonErrorV>(ActionV { value: Some(action::ValueV::InitBridgeAccount(y)) }), Err(e) => Err(e) }),
            Self::spec_from_json(JsonV::Object(seq![("initBridgeAccount"@, JsonV::Null)])) == Ok::<ActionV, JsonErrorV>(Self::spec_default()),
            Self::spec_from_json(JsonV::Object(seq![("init_bridge_account"@, JsonV::Null)])) == Ok::<ActionV, JsonErrorV>(Self::spec_default()),
            Self::spec_to_json(ActionV { value: Some(action::ValueV::InitBridgeAccount(x)) }) == JsonV::Object(seq![("initBridgeAccount"@, InitBridgeAccount::spec_to_json(x))]),
    {
        reveal_strlit("transfer");
        reveal_strlit("rollupDataSubmission");
        reveal_strlit("rollup_data_submission");
        reveal_strlit("initBridgeAccount");
        reveal_strlit("init_bridge_account");
        reveal_strlit("bridgeLock");
        reveal_strlit("bridge_lock");
        reveal_strlit("bridgeUnlock");
        reveal_strlit("bridge_unlock");
        reveal_strlit("bridgeSudoChange");
        reveal_strlit("bridge_sudo_change");
        reveal_strlit("bridgeTransfer");
        reveal_strlit("bridge_transfer");
        reveal_strlit("ibc");
        reveal_strlit("ics20Withdrawal");
        reveal_strlit("ics20_withdrawal");
        reveal_strlit("sudoAddressChange");
        reveal_strlit("sudo_address_change");
        reveal_strlit("validatorUpdate");
        reveal_strlit("validator_update");
        reveal_strlit("ibcRelayerChange");
        reveal_strlit("ibc_relayer_change");
        reveal_strlit("feeAssetChange");
        reveal_strlit("fee_asset_change");
        reveal_strlit("feeChange");
        reveal_strlit("fee_change");
        reveal_strlit("ibcSudoChange");
        reveal_strlit("ibc_sudo_change");
        reveal_strlit("recoverIbcClient");
        reveal_strlit("recover_ibc_client");
        reveal_strlit("currencyPairsChange");
        reveal_strlit("currency_pairs_change");
        reveal_strlit("marketsChange");
        reveal_strlit("markets_change");
        reveal_strlit("createOrder");
        reveal_strlit("create_order");
        reveal_strlit("cancelOrder");
        reveal_strlit("cancel_order");
        reveal_strlit("createMarket");
        reveal_strlit("create_market");
        reveal_strlit("updateMarket");
        reveal_strlit("update_market");
        assert("transfer"@.len() == 8);
        assert("rollupDataSubmission"@.len() == 20);
        assert("rollup_data_submission"@.len() == 22);
        assert("initBridgeAccount"@.len() == 17);
        assert("init_bridge_account"@.len() == 19);
        assert("bridgeLock"@.len() == 10);
        assert("bridge_lock"@.len() == 11);
        assert("bridgeUnlock"@.len() == 12);
        assert("bridge_unlock"@.len() == 13);
        assert("bridgeSudoChange"@.len() == 16);
        assert("bridge_sudo_change"@.len() == 18);
        assert("bridgeTransfer"@.len() == 14);
        assert("bridge_transfer"@.len() == 15);
        assert("ibc"@.len() == 3);
        assert("ics20Withdrawal"@.len() == 15);
        assert("ics20_withdrawal"@.len() == 16);
        assert("sudoAddressChange"@.len() == 17);
        assert("sudo_address_change"@.len() == 19);
        assert("validatorUpdate"@.len() == 15);
        assert("validator_update"@.len() == 16);
        assert("ibcRelayerChange"@.len() == 16);
        assert("ibc_relayer_change"@.len() == 18);
        assert("feeAssetChange"@.len() == 14);
        assert("fee_asset_change"@.len() == 16);
        assert("feeChange"@.len() == 9);
        assert("fee_change"@.len() == 10);
        assert("ibcSudoChange"@.len() == 13);
        assert("ibc_sudo_change"@.len() == 15);
        assert("recoverIbcClient"@.len() == 16);
        assert("recover_ibc_client"@.len() == 18);
        assert("currencyPairsChange"@.len() == 19);
        assert("currency_pairs_change"@.len() == 21);
        assert("marketsChange"@.len() == 13);
        assert("markets_change"@.len() == 14);
        assert("createOrder"@.len() == 11);
        assert("create_order"@.len() == 12);
        assert("cancelOrder"@.len() == 11);
        assert("cancel_order"@.len() == 12);
        assert("createMarket"@.len() == 12);
        assert("create_market"@.len() == 13);
        assert("updateMarket"@.len() == 12);
        assert("update_market"@.len() == 13);
        assert("initBridgeAccount"@[0] != "sudoAddressChange"@[0]);
        assert("init_bridge_account"@[0] != "sudo_address_change"@[0]);
        assert("init_bridge_account"@[0] != "currencyPairsChange"@[0]);
        assert("bridgeLock"@[0] != "fee_change"@[0]);
        assert("bridge_lock"@[0] != "createOrder"@[0]);
        assert("bridge_lock"@[0] != "cancelOrder"@[0]);
        assert("bridgeUnlock"@[0] != "create_order"@[0]);
        assert("bridgeUnlock"@[0] != "cancel_order"@[0]);
        assert("bridgeUnlock"@[0] != "createMarket"@[0]);
        assert("bridgeUnlock"@[0] != "updateMarket"@[0]);
        assert("bridge_unlock"@[0] != "ibcSudoChange"@[0]);
        assert("bridge_unlock"@[0] != "marketsChange"@[0]);
        assert("bridge_unlock"@[0] != "create_market"@[0]);
        assert("bridge_unlock"@[0] != "update_market"@[0]);
        assert("bridgeSudoChange"@[0] != "ics20_withdrawal"@[0]);
        assert("bridgeSudoChange"@[0] != "validator_update"@[0]);
        assert("bridgeSudoChange"@[0] != "ibcRelayerChange"@[0]);
        assert("bridgeSudoChange"@[0] != "fee_asset_change"@[0]);
        assert("bridgeSudoChange"@[0] != "recoverIbcClient"@[0]);
        assert("bridge_sudo_change"@[0] != "ibc_relayer_change"@[0]);
        assert("bridge_sudo_change"@[0] != "recover_ibc_client"@[0]);
        assert("bridgeTransfer"@[0] != "feeAssetChange"@[0]);
        assert("bridgeTransfer"@[0] != "markets_change"@[0]);
        assert("bridge_transfer"@[0] != "ics20Withdrawal"@[0]);
        assert("bridge_transfer"@[0] != "validatorUpdate"@[0]);
        assert("bridge_transfer"@[0] != "ibc_sudo_change"@[0]);
        assert("ics20Withdrawal"@[0] != "validatorUpdate"@[0]);
        assert("ics20Withdrawal"@[1] != "ibc_sudo_change"@[1]);
        assert("ics20_withdrawal"@[0] != "validator_update"@[0]);
        assert("ics20_withdrawal"@[1] != "ibcRelayerChange"@[1]);
        assert("ics20_withdrawal"@[0] != "fee_asset_change"@[0]);
        assert("ics20_withdrawal"@[0] != "recoverIbcClient"@[0]);
        assert("sudo_address_change"@[0] != "currencyPairsChange"@[0]);
        assert("validatorUpdate"@[0] != "ibc_sudo_change"@[0]);
        assert("validator_update"@[0] != "ibcRelayerChange"@[0]);
        assert("validator_update"@[0] != "fee_asset_change"@[0]);
        assert("validator_update"@[0] != "recoverIbcClient"@[0]);
        assert("ibcRelayerChange"@[0] != "fee_asset_change"@[0]);
        assert("ibcRelayerChange"@[0] != "recoverIbcClient"@[0]);
        assert("ibc_relayer_change"@[0] != "recover_ibc_client"@[0]);
        assert("feeAssetChange"@[0] != "markets_change"@[0]);
        assert("fee_asset_change"@[0] != "recoverIbcClient"@[0]);
        assert("ibcSudoChange"@[0] != "marketsChange"@[0]);
        assert("ibcSudoChange"@[0] != "create_market"@[0]);
        assert("ibcSudoChange"@[0] != "update_market"@[0]);
        assert("marketsChange"@[0] != "create_market"@[0]);
        assert("marketsChange"@[0] != "update_market"@[0]);
        assert("createOrder"@[1] != "cancelOrder"@[1]);
        assert("create_order"@[1] != "cancel_order"@[1]);
        assert("create_order"@[6] != "createMarket"@[6]);
        assert("create_order"@[0] != "updateMarket"@[0]);
        assert("cancel_order"@[1] != "createMarket"@[1]);
        assert("cancel_order"@[0] != "updateMarket"@[0]);
        assert("createMarket"@[0] != "updateMarket"@[0]);
        assert("create_market"@[0] != "update_market"@[0]);
        lemma_fold_entry_if(Self::spec_start(), true, "initBridgeAccount"@, JsonV::Object(es), Self::step_fn());
        lemma_fold_entry_if(Self::spec_start(), true, "init_bridge_account"@, JsonV::Object(es), Self::step_fn());
        lemma_fold_entry_if(Self::spec_start(), true, "initBridgeAccount"@, JsonV::Null, Self::step_fn());
        lemma_fold_entry_if(Self::spec_start(), true, "init_bridge_account"@, JsonV::Null, Self::step_fn());
    }

    /// The field `bridge_lock` alone: an object with one member under its JSON or protobuf
    /// name reads as the message with that field set and every other field at its
    /// default, and the message with only that field off its default writes that
    /// one member under the JSON name.
    pub proof fn lemma_member_bridge_lock(x: BridgeLockV, es: Seq<(Seq<char>, JsonV)>)
        ensures
            Self::spec_from_json(JsonV::Object(seq![("bridgeLock"@, JsonV::Object(es))])) == (match BridgeLock::spec_from_json(JsonV::Object(es)) { Ok(y) => Ok::<ActionV, JsonErrorV>(ActionV { value: Some(action::ValueV::BridgeLock(y)) }), Err(e) => Err(e) }),
            Self::spec_from_json(JsonV::Object(seq![("bridge_lock"@, JsonV::Object(es))])) == (match BridgeLock::spec_from_json(JsonV::Object(es)) { Ok(y) => Ok::<ActionV, JsonErrorV>(ActionV { value: Some(action::ValueV::BridgeLock(y)) }), Err(e) => Err(e) }),
            Self::spec_from_json(JsonV::Object(seq![("bridgeLock"@, JsonV::Null)])) == Ok::<ActionV, JsonErrorV>(Self::spec_default()),
            Self::spec_from_json(JsonV::Object(seq![("bridge_lock"@, JsonV::Null)])) == Ok::<ActionV, JsonErrorV>(Self::spec_default()),
            Self::spec_to_json(ActionV { value: Some(action::ValueV::BridgeLock(x)) }) == JsonV::Object(seq![("bridgeLock"@, BridgeLock::spec_to_json(x))]),
    {
        reveal_strlit("transfer");
        reveal_strlit("rollupDataSubmission");
        reveal_strlit("rollup_data_submission");
        reveal_strlit("initBridgeAccount");
        reveal_strlit("init_bridge_account");
        reveal_strlit("bridgeLock");
        reveal_strlit("bridge_lock");
        reveal_strlit("bridgeUnlock");
        reveal_strlit("bridge_unlock");
        reveal_strlit("bridgeSudoChange");
        reveal_strlit("bridge_sudo_change");
        reveal_strlit("bridgeTransfer");
        reveal_strlit("bridge_transfer");
        reveal_strlit("ibc");
        reveal_strlit("ics20Withdrawal");
        reveal_strlit("ics20_withdrawal");
        reveal_strlit("sudoAddressChange");
        reveal_strlit("sudo_address_change");
        reveal_strlit("validatorUpdate");
        reveal_strlit("validator_update");
        reveal_strlit("ibcRelayerChange");
        reveal_strlit("ibc_relayer_change");
        reveal_strlit("feeAssetChange");
        reveal_strlit("fee_asset_change");
        reveal_strlit("feeChange");
        reveal_strlit("fee_change");
        reveal_strlit("ibcSudoChange");
        reveal_strlit("ibc_sudo_change");
        reveal_strlit("recoverIbcClient");
        reveal_strlit("recover_ibc_client");
        reveal_strlit("currencyPairsChange");
        reveal_strlit("currency_pairs_change");
        reveal_strlit("marketsChange");
        reveal_strlit("markets_change");
        reveal_strlit("createOrder");
        reveal_strlit("create_order");
        reveal_strlit("cancelOrder");
        reveal_strlit("cancel_order");
        reveal_strlit("createMarket");
        reveal_strlit("create_market");
        reveal_strlit("updateMarket");
        reveal_strlit("update_market");
        assert("transfer"@.len() == 8);
        assert("rollupDataSubmission"@.len() == 20);
        assert("rollup_data_submission"@.len() == 22);
        assert("initBridgeAccount"@.len() == 17);
        assert("init_bridge_account"@.len() == 19);
        assert("bridgeLock"@.len() == 10);
        assert("bridge_lock"@.len() == 11);
        assert("bridgeUnlock"@.len() == 12);
        assert("bridge_unlock"@.len() == 13);
        assert("bridgeSudoChange"@.len() == 16);
        assert("bridge_sudo_change"@.len() == 18);
        assert("bridgeTransfer"@.len() == 14);
        assert("bridge_transfer"@.len() == 15);
        assert("ibc"@.len() == 3);
        assert("ics20Withdrawal"@.len() == 15);
        assert("ics20_withdrawal"@.len() == 16);
        assert("sudoAddressChange"@.len() == 17);
        assert("sudo_address_change"@.len() == 19);
        assert("validatorUpdate"@.len() == 15);
        assert("validator_update"@.len() == 16);
        assert("ibcRelayerChange"@.len() == 16);
        assert("ibc_relayer_change"@.len() == 18);
        assert("feeAssetChange"@.len() == 14);
        assert("fee_asset_change"@.len() == 16);
        assert("feeChange"@.len() == 9);
        assert("fee_change"@.len() == 10);
        assert("ibcSudoChange"@.len() == 13);
        assert("ibc_sudo_change"@.len() == 15);
        assert("recoverIbcClient"@.len() == 16);
        assert("recover_ibc_client"@.len() == 18);
        assert("currencyPairsChange"@.len() == 19);
        assert("currency_pairs_change"@.len() == 21);
        assert("marketsChange"@.len() == 13);
        assert("markets_change"@.len() == 14);
        assert("createOrder"@.len() == 11);
        assert("create_order"@.len() == 12);
        assert("cancelOrder"@.len() == 11);
        assert("cancel_order"@.len() == 12);
        assert("createMarket"@.len() == 12);
        assert("create_market"@.len() == 13);
        assert("updateMarket"@.len() == 12);
        assert("update_market"@.len() == 13);
        assert("initBridgeAccount"@[0] != "sudoAddressChange"@[0]);
        assert("init_bridge_account"@[0] != "sudo_address_change"@[0]);
        assert("init_bridge_account"@[0] != "currencyPairsChange"@[0]);
        assert("bridgeLock"@[0] != "fee_change"@[0]);
        assert("bridge_lock"@[0] != "createOrder"@[0]);
        assert("bridge_lock"@[0] != "cancelOrder"@[0]);
        assert("bridgeUnlock"@[0] != "create_order"@[0]);
        assert("bridgeUnlock"@[0] != "cancel_order"@[0]);
        assert("bridgeUnlock"@[0] != "createMarket"@[0]);
        assert("bridgeUnlock"@[0] != "updateMarket"@[0]);
        assert("bridge_unlock"@[0] != "ibcSudoChange"@[0]);
        assert("bridge_unlock"@[0] != "marketsChange"@[0]);
        assert("bridge_unlock"@[0] != "create_market"@[0]);
        assert("bridge_unlock"@[0] != "update_market"@[0]);
        assert("bridgeSudoChange"@[0] != "ics20_withdrawal"@[0]);
        assert("bridgeSudoChange"@[0] != "validator_update"@[0]);
        assert("bridgeSudoChange"@[0] != "ibcRelayerChange"@[0]);
        assert("bridgeSudoChange"@[0] != "fee_asset_change"@[0]);
        assert("bridgeSudoChange"@[0] != "recoverIbcClient"@[0]);
        assert("bridge_sudo_change"@[0] != "ibc_relayer_change"@[0]);
        assert("bridge_sudo_change"@[0] != "recover_ibc_client"@[0]);
        assert("bridgeTransfer"@[0] != "feeAssetChange"@[0]);
        assert("bridgeTransfer"@[0] != "markets_change"@[0]);
        assert("bridge_transfer"@[0] != "ics20Withdrawal"@[0]);
        assert("bridge_transfer"@[0] != "validatorUpdate"@[0]);
        assert("bridge_transfer"@[0] != "ibc_sudo_change"@[0]);
        assert("ics20Withdrawal"@[0] != "validatorUpdate"@[0]);
        assert("ics20Withdrawal"@[1] != "ibc_sudo_change"@[1]);
        assert("ics20_withdrawal"@[0] != "validator_update"@[0]);
        assert("ics20_withdrawal"@[1] != "ibcRelayerChange"@[1]);
        assert("ics20_withdrawal"@[0] != "fee_asset_change"@[0]);
        assert("ics20_withdrawal"@[0] != "recoverIbcClient"@[0]);
        assert("sudo_address_change"@[0] != "currencyPairsChange"@[0]);
        assert("validatorUpdate"@[0] != "ibc_sudo_change"@[0]);
        assert("validator_update"@[0] != "ibcRelayerChange"@[0]);
        assert("validator_update"@[0] != "fee_asset_change"@[0]);
        assert("validator_update"@[0] != "recoverIbcClient"@[0]);
        assert("ibcRelayerChange"@[0] != "fee_asset_change"@[0]);
        assert("ibcRelayerChange"@[0] != "recoverIbcClient"@[0]);
        assert("ibc_relayer_change"@[0] != "recover_ibc_client"@[0]);
        assert("feeAssetChange"@[0] != "markets_change"@[0]);
        assert("fee_asset_change"@[0] != "recoverIbcClient"@[0]);
        assert("ibcSudoChange"@[0] != "marketsChange"@[0]);
        assert("ibcSudoChange"@[0] != "create_market"@[0]);
        assert("ibcSudoChange"@[0] != "update_market"@[0]);
        assert("marketsChange"@[0] != "create_market"@[0]);
        assert("marketsChange"@[0] != "update_market"@[0]);
        assert("createOrder"@[1] != "cancelOrder"@[1]);
        assert("create_order"@[1] != "cancel_order"@[1]);
        assert("create_order"@[6] != "createMarket"@[6]);
        assert("create_order"@[0] != "updateMarket"@[0]);
        assert("cancel_order"@[1] != "createMarket"@[1]);
        assert("cancel_order"@[0] != "updateMarket"@[0]);
        assert("createMarket"@[0] != "updateMarket"@[0]);
        assert("create_market"@[0] != "update_market"@[0]);
        lemma_fold_entry_if(Self::spec_start(), true, "bridgeLock"@, JsonV::Object(es), Self::step_fn());
        lemma_fold_entry_if(Self::spec_start(), true, "bridge_lock"@, JsonV::Object(es), Self::step_fn());
        lemma_fold_entry_if(Self::spec_start(), true, "bridgeLock"@, JsonV::Null, Self::step_fn());
        lemma_fold_entry_if(Self::spec_start(), true, "bridge_lock"@, JsonV::Null, Self::step_fn());
    }

    /// The field `bridge_unlock` alone: an object with one member under its JSON or protobuf
    /// name reads as the message with that field set and every other field at its
    /// default, and the message with only that field off its default writes that
    /// one member under the JSON name.
    pub proof fn lemma_member_bridge_unlock(x: BridgeUnlockV, es: Seq<(Seq<char>, JsonV)>)
        ensures
            Self::spec_from_json(JsonV::Object(seq![("bridgeUnlock"@, JsonV::Object(es))])) == (match BridgeUnlock::spec_from_json(JsonV::Object(es)) { Ok(y) => Ok::<ActionV, JsonErrorV>(ActionV { value: Some(action::ValueV::BridgeUnlock(y)) }), Err(e) => Err(e) }),
            Self::spec_from_json(JsonV::Object(seq![("bridge_unlock"@, JsonV::Object(es))])) == (match BridgeUnlock::spec_from_json(JsonV::Object(es)) { Ok(y) => Ok::<ActionV, JsonErrorV>(ActionV { value: Some(action::ValueV::BridgeUnlock(y)) }), Err(e) => Err(e) }),
            Self::spec_from_json(JsonV::Object(seq![("bridgeUnlock"@, JsonV::Null)])) == Ok::<ActionV, JsonErrorV>(Self::spec_default()),
            Self::spec_from_json(JsonV::Object(seq![("bridge_unlock"@, JsonV::Null)])) == Ok::<ActionV, JsonErrorV>(Self::spec_default()),
            Self::spec_to_json(ActionV { value: Some(action::ValueV::BridgeUnlock(x)) }) == JsonV::Object(seq![("bridgeUnlock"@, BridgeUnlock::spec_to_json(x))]),
    {
        reveal_strlit("transfer");
        reveal_strlit("rollupDataSubmission");
        reveal_strlit("rollup_data_submission");
        reveal_strlit("initBridgeAccount");
        reveal_strlit("init_bridge_account");
        reveal_strlit("bridgeLock");
        reveal_strlit("bridge_lock");
        reveal_strlit("bridgeUnlock");
        reveal_strlit("bridge_unlock");
        reveal_strlit("bridgeSudoChange");
        reveal_strlit("bridge_sudo_change");
        reveal_strlit("bridgeTransfer");
        reveal_strlit("bridge_transfer");
        reveal_strlit("ibc");
        reveal_strlit("ics20Withdrawal");
        reveal_strlit("ics20_withdrawal");
        reveal_strlit("sudoAddressChange");
        reveal_strlit("sudo_address_change");
        reveal_strlit("validatorUpdate");
        reveal_strlit("validator_update");
        reveal_strlit("ibcRelayerChange");
        reveal_strlit("ibc_relayer_change");
        reveal_strlit("feeAssetChange");
        reveal_strlit("fee_asset_change");
        reveal_strlit("feeChange");
        reveal_strlit("fee_change");
        reveal_strlit("ibcSudoChange");
        reveal_strlit("ibc_sudo_change");
        reveal_strlit("recoverIbcClient");
        reveal_strlit("recover_ibc_client");
        reveal_strlit("currencyPairsChange");
        reveal_strlit("currency_pairs_change");
        reveal_strlit("marketsChange");
        reveal_strlit("markets_change");
        reveal_strlit("createOrder");
        reveal_strlit("create_order");
        reveal_strlit("cancelOrder");
        reveal_strlit("cancel_order");
        reveal_strlit("createMarket");
        reveal_strlit("create_market");
        reveal_strlit("updateMarket");
        reveal_strlit("update_market");
        assert("transfer"@.len() == 8);
        assert("rollupDataSubmission"@.len() == 20);
        assert("rollup_data_submission"@.len() == 22);
        assert("initBridgeAccount"@.len() == 17);
        assert("init_bridge_account"@.len() == 19);
        assert("bridgeLock"@.len() == 10);
        assert("bridge_lock"@.len() == 11);
        assert("bridgeUnlock"@.len() == 12);
        assert("bridge_unlock"@.len() == 13);
        assert("bridgeSudoChange"@.len() == 16);
        assert("bridge_sudo_change"@.len() == 18);
        assert("bridgeTransfer"@.len() == 14);
        assert("bridge_transfer"@.len() == 15);
        assert("ibc"@.len() == 3);
        assert("ics20Withdrawal"@.len() == 15);
        assert("ics20_withdrawal"@.len() == 16);
        assert("sudoAddressChange"@.len() == 17);
        assert("sudo_address_change"@.len() == 19);
        assert("validatorUpdate"@.len() == 15);
        assert("validator_update"@.len() == 16);
        assert("ibcRelayerChange"@.len() == 16);
        assert("ibc_relayer_change"@.len() == 18);
        assert("feeAssetChange"@.len() == 14);
        assert("fee_asset_change"@.len() == 16);
        assert("feeChange"@.len() == 9);
        assert("fee_change"@.len() == 10);
        assert("ibcSudoChange"@.len() == 13);
        assert("ibc_sudo_change"@.len() == 15);
        assert("recoverIbcClient"@.len() == 16);
        assert("recover_ibc_client"@.len() == 18);
        assert("currencyPairsChange"@.len() == 19);
        assert("currency_pairs_change"@.len() == 21);
        assert("marketsChange"@.len() == 13);
        assert("markets_change"@.len() == 14);
        assert("createOrder"@.len() == 11);
        assert("create_order"@.len() == 12);
        assert("cancelOrder"@.len() == 11);
        assert("cancel_order"@.len() == 12);
        assert("createMarket"@.len() == 12);
        assert("create_market"@.len() == 13);
        assert("updateMarket"@.len() == 12);
        assert("update_market"@.len() == 13);
        assert("initBridgeAccount"@[0] != "sudoAddressChange"@[0]);
        assert("init_bridge_account"@[0] != "sudo_address_change"@[0]);
        assert("init_bridge_account"@[0] != "currencyPairsChange"@[0]);
        assert("bridgeLock"@[0] != "fee_change"@[0]);
        assert("bridge_lock"@[0] != "createOrder"@[0]);
        assert("bridge_lock"@[0] != "cancelOrder"@[0]);
        assert("bridgeUnlock"@[0] != "create_order"@[0]);
        assert("bridgeUnlock"@[0] != "cancel_order"@[0]);
        assert("bridgeUnlock"@[0] != "createMarket"@[0]);
        assert("bridgeUnlock"@[0] != "updateMarket"@[0]);
        assert("bridge_unlock"@[0] != "ibcSudoChange"@[0]);
        assert("bridge_unlock"@[0] != "marketsChange"@[0]);
        assert("bridge_unlock"@[0] != "create_market"@[0]);
        assert("bridge_unlock"@[0] != "update_market"@[0]);
        assert("bridgeSudoChange"@[0] != "ics20_withdrawal"@[0]);
        assert("bridgeSudoChange"@[0] != "validator_update"@[0]);
        assert("bridgeSudoChange"@[0] != "ibcRelayerChange"@[0]);
        assert("bridgeSudoChange"@[0] != "fee_asset_change"@[0]);
        assert("bridgeSudoChange"@[0] != "recoverIbcClient"@[0]);
        assert("bridge_sudo_change"@[0] != "ibc_relayer_change"@[0]);
        assert("bridge_sudo_change"@[0] != "recover_ibc_client"@[0]);
        assert("bridgeTransfer"@[0] != "feeAssetChange"@[0]);
        assert("bridgeTransfer"@[0] != "markets_change"@[0]);
        assert("bridge_transfer"@[0] != "ics20Withdrawal"@[0]);
        assert("bridge_transfer"@[0] != "validatorUpdate"@[0]);
        assert("bridge_transfer"@[0] != "ibc_sudo_change"@[0]);
        assert("ics20Withdrawal"@[0] != "validatorUpdate"@[0]);
        assert("ics20Withdrawal"@[1] != "ibc_sudo_change"@[1]);
        assert("ics20_withdrawal"@[0] != "validator_update"@[0]);
        assert("ics20_withdrawal"@[1] != "ibcRelayerChange"@[1]);
        assert("ics20_withdrawal"@[0] != "fee_asset_change"@[0]);
        assert("ics20_withdrawal"@[0] != "recoverIbcClient"@[0]);
        assert("sudo_address_change"@[0] != "currencyPairsChange"@[0]);
        assert("validatorUpdate"@[0] != "ibc_sudo_change"@[0]);
        assert("validator_update"@[0] != "ibcRelayerChange"@[0]);
        assert("validator_update"@[0] != "fee_asset_change"@[0]);
        assert("validator_update"@[0] != "recoverIbcClient"@[0]);
        assert("ibcRelayerChange"@[0] != "fee_asset_change"@[0]);
        assert("ibcRelayerChange"@[0] != "recoverIbcClient"@[0]);
        assert("ibc_relayer_change"@[0] != "recover_ibc_client"@[0]);
        assert("feeAssetChange"@[0] != "markets_change"@[0]);
        assert("fee_asset_change"@[0] != "recoverIbcClient"@[0]);
        assert("ibcSudoChange"@[0] != "marketsChange"@[0]);
        assert("ibcSudoChange"@[0] != "create_market"@[0]);
        assert("ibcSudoChange"@[0] != "update_market"@[0]);
        assert("marketsChange"@[0] != "create_market"@[0]);
        assert("marketsChange"@[0] != "update_market"@[0]);
        assert("createOrder"@[1] != "cancelOrder"@[1]);
        assert("create_order"@[1] != "cancel_order"@[1]);
        assert("create_order"@[6] != "createMarket"@[6]);
        assert("create_order"@[0] != "updateMarket"@[0]);
        assert("cancel_order"@[1] != "createMarket"@[1]);
        assert("cancel_order"@[0] != "updateMarket"@[0]);
        assert("createMarket"@[0] != "updateMarket"@[0]);
        assert("create_market"@[0] != "update_market"@[0]);
        lemma_fold_entry_if(Self::spec_start(), true, "bridgeUnlock"@, JsonV::Object(es), Self::step_fn());
        lemma_fold_entry_if(Self::spec_start(), true, "bridge_unlock"@, JsonV::Object(es), Self::step_fn());
        lemma_fold_entry_if(Self::spec_start(), true, "bridgeUnlock"@, JsonV::Null, Self::step_fn());
        lemma_fold_entry_if(Self::spec_start(), true, "bridge_unlock"@, JsonV::Null, Self::step_fn());
    }

    /// The field `bridge_sudo_change` alone: an object with one member under its JSON or protobuf
    /// name reads as the message with that field set and every other field at its
    /// default, and the message with only that field off its default writes that
    /// one member under the JSON name.
    pub proof fn lemma_member_bridge_sudo_change(x: BridgeSudoChangeV, es: Seq<(Seq<char>, JsonV)>)
        ensures
            Self::spec_from_json(JsonV::Object(seq![("bridgeSudoChange"@, JsonV::Object(es))])) == (match BridgeSudoChange::spec_from_json(JsonV::Object(es)) { Ok(y) => Ok::<ActionV, JsonErrorV>(ActionV { value: Some(action::ValueV::BridgeSudoChange(y)) }), Err(e) => Err(e) }),
            Self::spec_from_json(JsonV::Object(seq![("bridge_sudo_change"@, JsonV::Object(es))])) == (match BridgeSudoChange::spec_from_json(JsonV::Object(es)) { Ok(y) => Ok::<ActionV, JsonErrorV>(ActionV { value: Some(action::ValueV::BridgeSudoChange(y)) }), Err(e) => Err(e) }),
            Self::spec_from_json(JsonV::Object(seq![("bridgeSudoChange"@, JsonV::Null)])) == Ok::<ActionV, JsonErrorV>(Self::spec_default()),
            Self::spec_from_json(JsonV::Object(seq![("bridge_sudo_change"@, JsonV::Null)])) == Ok::<ActionV, JsonErrorV>(Self::spec_default()),
            Self::spec_to_json(ActionV { value: Some(action::ValueV::BridgeSudoChange(x)) }) == JsonV::Object(seq![("bridgeSudoChange"@, BridgeSudoChange::spec_to_json(x))]),
    {
        reveal_strlit("transfer");
        reveal_strlit("rollupDataSubmission");
        reveal_strlit("rollup_data_submission");
        reveal_strlit("initBridgeAccount");
        reveal_strlit("init_bridge_account");
        reveal_strlit("bridgeLock");
        reveal_strlit("bridge_lock");
        reveal_strlit("bridgeUnlock");
        reveal_strlit("bridge_unlock");
        reveal_strlit("bridgeSudoChange");
        reveal_strlit("bridge_sudo_change");
        reveal_strlit("bridgeTransfer");
        reveal_strlit("bridge_transfer");
        reveal_strlit("ibc");
        reveal_strlit("ics20Withdrawal");
        reveal_strlit("ics20_withdrawal");
        reveal_strlit("sudoAddressChange");
        reveal_strlit("sudo_address_change");
        reveal_strlit("validatorUpdate");
        reveal_strlit("validator_update");
        reveal_strlit("ibcRelayerChange");
        reveal_strlit("ibc_relayer_change");
        reveal_strlit("feeAssetChange");
        reveal_strlit("fee_asset_change");
        reveal_strlit("feeChange");
        reveal_strlit("fee_change");
        reveal_strlit("ibcSudoChange");
        reveal_strlit("ibc_sudo_change");
        reveal_strlit("recoverIbcClient");
        reveal_strlit("recover_ibc_client");
        reveal_strlit("currencyPairsChange");
        reveal_strlit("currency_pairs_change");
        reveal_strlit("marketsChange");
        reveal_strlit("markets_change");
        reveal_strlit("createOrder");
        reveal_strlit("create_order");
        reveal_strlit("cancelOrder");
        reveal_strlit("cancel_order");
        reveal_strlit("createMarket");
        reveal_strlit("create_market");
        reveal_strlit("updateMarket");
        reveal_strlit("update_market");
        assert("transfer"@.len() == 8);
        assert("rollupDataSubmission"@.len() == 20);
        assert("rollup_data_submission"@.len() == 22);
        assert("initBridgeAccount"@.len() == 17);
        assert("init_bridge_account"@.len() == 19);
        assert("bridgeLock"@.len() == 10);
        assert("bridge_lock"@.len() == 11);
        assert("bridgeUnlock"@.len() == 12);
        assert("bridge_unlock"@.len() == 13);
        assert("bridgeSudoChange"@.len() == 16);
        assert("bridge_sudo_change"@.len() == 18);
        assert("bridgeTransfer"@.len() == 14);
        assert("bridge_transfer"@.len() == 15);
        assert("ibc"@.len() == 3);
        assert("ics20Withdrawal"@.len() == 15);
        assert("ics20_withdrawal"@.len() == 16);
        assert("sudoAddressChange"@.len() == 17);
        assert("sudo_address_change"@.len() == 19);
        assert("validatorUpdate"@.len() == 15);
        assert("validator_update"@.len() == 16);
        assert("ibcRelayerChange"@.len() == 16);
        assert("ibc_relayer_change"@.len() == 18);
        assert("feeAssetChange"@.len() == 14);
        assert("fee_asset_change"@.len() == 16);
        assert("feeChange"@.len() == 9);
        assert("fee_change"@.len() == 10);
        assert("ibcSudoChange"@.len() == 13);
        assert("ibc_sudo_change"@.len() == 15);
        assert("recoverIbcClient"@.len() == 16);
        assert("recover_ibc_client"@.len() == 18);
        assert("currencyPairsChange"@.len() == 19);
        assert("currency_pairs_change"@.len() == 21);
        assert("marketsChange"@.len() == 13);
        assert("markets_change"@.len() == 14);
        assert("createOrder"@.len() == 11);
        assert("create_order"@.len() == 12);
        assert("cancelOrder"@.len() == 11);
        assert("cancel_order"@.len() == 12);
        assert("createMarket"@.len() == 12);
        assert("create_market"@.len() == 13);
        assert("updateMarket"@.len() == 12);
        assert("update_market"@.len() == 13);
        assert("initBridgeAccount"@[0] != "sudoAddressChange"@[0]);
        assert("init_bridge_account"@[0] != "sudo_address_change"@[0]);
        assert("init_bridge_account"@[0] != "currencyPairsChange"@[0]);
        assert("bridgeLock"@[0] != "fee_change"@[0]);
        assert("bridge_lock"@[0] != "createOrder"@[0]);
        assert("bridge_lock"@[0] != "cancelOrder"@[0]);
        assert("bridgeUnlock"@[0] != "create_order"@[0]);
        assert("bridgeUnlock"@[0] != "cancel_order"@[0]);
        assert("bridgeUnlock"@[0] != "createMarket"@[0]);
        assert("bridgeUnlock"@[0] != "updateMarket"@[0]);
        assert("bridge_unlock"@[0] != "ibcSudoChange"@[0]);
        assert("bridge_unlock"@[0] != "marketsChange"@[0]);
        assert("bridge_unlock"@[0] != "create_market"@[0]);
        assert("bridge_unlock"@[0] != "update_market"@[0]);
        assert("bridgeSudoChange"@[0] != "ics20_withdrawal"@[0]);
        assert("bridgeSudoChange"@[0] != "validator_update"@[0]);
        assert("bridgeSudoChange"@[0] != "ibcRelayerChange"@[0]);
        assert("bridgeSudoChange"@[0] != "fee_asset_change"@[0]);
        assert("bridgeSudoChange"@[0] != "recoverIbcClient"@[0]);
        assert("bridge_sudo_change"@[0] != "ibc_relayer_change"@[0]);
        assert("bridge_sudo_change"@[0] != "recover_ibc_client"@[0]);
        assert("bridgeTransfer"@[0] != "feeAssetChange"@[0]);
        assert("bridgeTransfer"@[0] != "markets_change"@[0]);
        assert("bridge_transfer"@[0] != "ics20Withdrawal"@[0]);
        assert("bridge_transfer"@[0] != "validatorUpdate"@[0]);
        assert("bridge_transfer"@[0] != "ibc_sudo_change"@[0]);
        assert("ics20Withdrawal"@[0] != "validatorUpdate"@[0]);
        assert("ics20Withdrawal"@[1] != "ibc_sudo_change"@[1]);
        assert("ics20_withdrawal"@[0] != "validator_update"@[0]);
        assert("ics20_withdrawal"@[1] != "ibcRelayerChange"@[1]);
        assert("ics20_withdrawal"@[0] != "fee_asset_change"@[0]);
        assert("ics20_withdrawal"@[0] != "recoverIbcClient"@[0]);
        assert("sudo_address_change"@[0] != "currencyPairsChange"@[0]);
        assert("validatorUpdate"@[0] != "ibc_sudo_change"@[0]);
        assert("validator_update"@[0] != "ibcRelayerChange"@[0]);
        assert("validator_update"@[0] != "fee_asset_change"@[0]);
        assert("validator_update"@[0] != "recoverIbcClient"@[0]);
        assert("ibcRelayerChange"@[0] != "fee_asset_change"@[0]);
        assert("ibcRelayerChange"@[0] != "recoverIbcClient"@[0]);
        assert("ibc_relayer_change"@[0] != "recover_ibc_client"@[0]);
        assert("feeAssetChange"@[0] != "markets_change"@[0]);
        assert("fee_asset_change"@[0] != "recoverIbcClient"@[0]);
        assert("ibcSudoChange"@[0] != "marketsChange"@[0]);
        assert("ibcSudoChange"@[0] != "create_market"@[0]);
        assert("ibcSudoChange"@[0] != "update_market"@[0]);
        assert("marketsChange"@[0] != "create_market"@[0]);
        assert("marketsChange"@[0] != "update_market"@[0]);
        assert("createOrder"@[1] != "cancelOrder"@[1]);
        assert("create_order"@[1] != "cancel_order"@[1]);
        assert("create_order"@[6] != "createMarket"@[6]);
        assert("create_order"@[0] != "updateMarket"@[0]);
        assert("cancel_order"@[1] != "createMarket"@[1]);
        assert("cancel_order"@[0] != "updateMarket"@[0]);
        assert("createMarket"@[0] != "updateMarket"@[0]);
        assert("create_market"@[0] != "update_market"@[0]);
        lemma_fold_entry_if(Self::spec_start(), true, "bridgeSudoChange"@, JsonV::Object(es), Self::step_fn());
        lemma_fold_entry_if(Self::spec_start(), true, "bridge_sudo_change"@, JsonV::Object(es), Self::step_fn());
        lemma_fold_entry_if(Self::spec_start(), true, "bridgeSudoChange"@, JsonV::Null, Self::step_fn());
        lemma_fold_entry_if(Self::spec_start(), true, "bridge_sudo_change"@, JsonV::Null, Self::step_fn());
    }

    /// The field `bridge_transfer` alone: an object with one member under its JSON or protobuf
    /// name reads as the message with that field set and every other field at its
    /// default, and the message with only that field off its default writes that
    /// one member under the JSON name.
    pub proof fn lemma_member_bridge_transfer(x: BridgeTransferV, es: Seq<(Seq<char>, JsonV)>)
        ensures
            Self::spec_from_json(JsonV::Object(seq![("bridgeTransfer"@, JsonV::Object(es))])) == (match BridgeTransfer::spec_from_json(JsonV::Object(es)) { Ok(y) => Ok::<ActionV, JsonErrorV>(ActionV { value: Some(action::ValueV::BridgeTransfer(y)) }), Err(e) => Err(e) }),
            Self::spec_from_json(JsonV::Object(seq![("bridge_transfer"@, JsonV::Object(es))])) == (match BridgeTransfer::spec_from_json(JsonV::Object(es)) { Ok(y) => Ok::<ActionV, JsonErrorV>(ActionV { value: Some(action::ValueV::BridgeTransfer(y)) }), Err(e) => Err(e) }),
            Self::spec_from_json(JsonV::Object(seq![("bridgeTransfer"@, JsonV::Null)])) == Ok::<ActionV, JsonErrorV>(Self::spec_default()),
            Self::spec_from_json(JsonV::Object(seq![("bridge_transfer"@, JsonV::Null)])) == Ok::<ActionV, JsonErrorV>(Self::spec_default()),
            Self::spec_to_json(ActionV { value: Some(action::ValueV::BridgeTransfer(x)) }) == JsonV::Object(seq![("bridgeTransfer"@, BridgeTransfer::spec_to_json(x))]),
    {
        reveal_strlit("transfer");
        reveal_strlit("rollupDataSubmission");
        reveal_strlit("rollup_data_submission");
        reveal_strlit("initBridgeAccount");
        reveal_strlit("init_bridge_account");
        reveal_strlit("bridgeLock");
        reveal_strlit("bridge_lock");
        reveal_strlit("bridgeUnlock");
        reveal_strlit("bridge_unlock");
        reveal_strlit("bridgeSudoChange");
        reveal_strlit("bridge_sudo_change");
        reveal_strlit("bridgeTransfer");
        reveal_strlit("bridge_transfer");
        reveal_strlit("ibc");
        reveal_strlit("ics20Withdrawal");
        reveal_strlit("ics20_withdrawal");
        reveal_strlit("sudoAddressChange");
        reveal_strlit("sudo_address_change");
        reveal_strlit("validatorUpdate");
        reveal_strlit("validator_update");
        reveal_strlit("ibcRelayerChange");
        reveal_strlit("ibc_relayer_change");
        reveal_strlit("feeAssetChange");
        reveal_strlit("fee_asset_change");
        reveal_strlit("feeChange");
        reveal_strlit("fee_change");
        reveal_strlit("ibcSudoChange");
        reveal_strlit("ibc_sudo_change");
        reveal_strlit("recoverIbcClient");
        reveal_strlit("recover_ibc_client");
        reveal_strlit("currencyPairsChange");
        reveal_strlit("currency_pairs_change");
        reveal_strlit("marketsChange");
        reveal_strlit("markets_change");
        reveal_strlit("createOrder");
        reveal_strlit("create_order");
        reveal_strlit("cancelOrder");
        reveal_strlit("cancel_order");
        reveal_strlit("createMarket");
        reveal_strlit("create_market");
        reveal_strlit("updateMarket");
        reveal_strlit("update_market");
        assert("transfer"@.len() == 8);
        assert("rollupDataSubmission"@.len() == 20);
        assert("rollup_data_submission"@.len() == 22);
        assert("initBridgeAccount"@.len() == 17);
        assert("init_bridge_account"@.len() == 19);
        assert("bridgeLock"@.len() == 10);
        assert("bridge_lock"@.len() == 11);
        assert("bridgeUnlock"@.len() == 12);
        assert("bridge_unlock"@.len() == 13);
        assert("bridgeSudoChange"@.len() == 16);
        assert("bridge_sudo_change"@.len() == 18);
        assert("bridgeTransfer"@.len() == 14);
        assert("bridge_transfer"@.len() == 15);
        assert("ibc"@.len() == 3);
        assert("ics20Withdrawal"@.len() == 15);
        assert("ics20_withdrawal"@.len() == 16);
        assert("sudoAddressChange"@.len() == 17);
        assert("sudo_address_change"@.len() == 19);
        assert("validatorUpdate"@.len() == 15);
        assert("validator_update"@.len() == 16);
        assert("ibcRelayerChange"@.len() == 16);
        assert("ibc_relayer_change"@.len() == 18);
        assert("feeAssetChange"@.len() == 14);
        assert("fee_asset_change"@.len() == 16);
        assert("feeChange"@.len() == 9);
        assert("fee_change"@.len() == 10);
        assert("ibcSudoChange"@.len() == 13);
        assert("ibc_sudo_change"@.len() == 15);
        assert("recoverIbcClient"@.len() == 16);
        assert("recover_ibc_client"@.len() == 18);
        assert("currencyPairsChange"@.len() == 19);
        assert("currency_pairs_change"@.len() == 21);
        assert("marketsChange"@.len() == 13);
        assert("markets_change"@.len() == 14);
        assert("createOrder"@.len() == 11);
        assert("create_order"@.len() == 12);
        assert("cancelOrder"@.len() == 11);
        assert("cancel_order"@.len() == 12);
        assert("createMarket"@.len() == 12);
        assert("create_market"@.len() == 13);
        assert("updateMarket"@.len() == 12);
        assert("update_market"@.len() == 13);
        assert("initBridgeAccount"@[0] != "sudoAddressChange"@[0]);
        assert("init_bridge_account"@[0] != "sudo_address_change"@[0]);
        assert("init_bridge_account"@[0] != "currencyPairsChange"@[0]);
        assert("bridgeLock"@[0] != "fee_change"@[0]);
        assert("bridge_lock"@[0] != "createOrder"@[0]);
        assert("bridge_lock"@[0] != "cancelOrder"@[0]);
        assert("bridgeUnlock"@[0] != "create_order"@[0]);
        assert("bridgeUnlock"@[0] != "cancel_order"@[0]);
        assert("bridgeUnlock"@[0] != "createMarket"@[0]);
        assert("bridgeUnlock"@[0] != "updateMarket"@[0]);
        assert("bridge_unlock"@[0] != "ibcSudoChange"@[0]);
        assert("bridge_unlock"@[0] != "marketsChange"@[0]);
        assert("bridge_unlock"@[0] != "create_market"@[0]);
        assert("bridge_unlock"@[0] != "update_market"@[0]);
        assert("bridgeSudoChange"@[0] != "ics20_withdrawal"@[0]);
        assert("bridgeSudoChange"@[0] != "validator_update"@[0]);
        assert("bridgeSudoChange"@[0] != "ibcRelayerChange"@[0]);
        assert("bridgeSudoChange"@[0] != "fee_asset_change"@[0]);
        assert("bridgeSudoChange"@[0] != "recoverIbcClient"@[0]);
        assert("bridge_sudo_change"@[0] != "ibc_relayer_change"@[0]);
        assert("bridge_sudo_change"@[0] != "recover_ibc_client"@[0]);
        assert("bridgeTransfer"@[0] != "feeAssetChange"@[0]);
        assert("bridgeTransfer"@[0] != "markets_change"@[0]);
        assert("bridge_transfer"@[0] != "ics20Withdrawal"@[0]);
        assert("bridge_transfer"@[0] != "validatorUpdate"@[0]);
        assert("bridge_transfer"@[0] != "ibc_sudo_change"@[0]);
        assert("ics20Withdrawal"@[0] != "validatorUpdate"@[0]);
        assert("ics20Withdrawal"@[1] != "ibc_sudo_change"@[1]);
        assert("ics20_withdrawal"@[0] != "validator_update"@[0]);
        assert("ics20_withdrawal"@[1] != "ibcRelayerChange"@[1]);
        assert("ics20_withdrawal"@[0] != "fee_asset_change"@[0]);
        assert("ics20_withdrawal"@[0] != "recoverIbcClient"@[0]);
        assert("sudo_address_change"@[0] != "currencyPairsChange"@[0]);
        assert("validatorUpdate"@[0] != "ibc_sudo_change"@[0]);
        assert("validator_update"@[0] != "ibcRelayerChange"@[0]);
        assert("validator_update"@[0] != "fee_asset_change"@[0]);
        assert("validator_update"@[0] != "recoverIbcClient"@[0]);
        assert("ibcRelayerChange"@[0] != "fee_asset_change"@[0]);
        assert("ibcRelayerChange"@[0] != "recoverIbcClient"@[0]);
        assert("ibc_relayer_change"@[0] != "recover_ibc_client"@[0]);
        assert("feeAssetChange"@[0] != "markets_change"@[0]);
        assert("fee_asset_change"@[0] != "recoverIbcClient"@[0]);
        assert("ibcSudoChange"@[0] != "marketsChange"@[0]);
        assert("ibcSudoChange"@[0] != "create_market"@[0]);
        assert("ibcSudoChange"@[0] != "update_market"@[0]);
        assert("marketsChange"@[0] != "create_market"@[0]);
        assert("marketsChange"@[0] != "update_market"@[0]);
        assert("createOrder"@[1] != "cancelOrder"@[1]);
        assert("create_order"@[1] != "cancel_order"@[1]);
        assert("create_order"@[6] != "createMarket"@[6]);
        assert("create_order"@[0] != "updateMarket"@[0]);
        assert("cancel_order"@[1] != "createMarket"@[1]);
        assert("cancel_order"@[0] != "updateMarket"@[0]);
        assert("createMarket"@[0] != "updateMarket"@[0]);
        assert("create_market"@[0] != "update_market"@[0]);
        lemma_fold_entry_if(Self::spec_start(), true, "bridgeTransfer"@, JsonV::Object(es), Self::step_fn());
        lemma_fold_entry_if(Self::spec_start(), true, "bridge_transfer"@, JsonV::Object(es), Self::step_fn());
        lemma_fold_entry_if(Self::spec_start(), true, "bridgeTransfer"@, JsonV::Null, Self::step_fn());
        lemma_fold_entry_if(Self::spec_start(), true, "bridge_transfer"@, JsonV::Null, Self::step_fn());
    }

    /// The field `ibc` alone: an object with one member under its JSON or protobuf
    /// name reads as the message with that field set and every other field at its
    /// default, and the message with only that field off its default writes that
    /// one member under the JSON name.
    pub proof fn lemma_member_ibc(es: Seq<(Seq<char>, JsonV)>)
        ensures
            Self::spec_from_json(JsonV::Object(seq![("ibc"@, JsonV::Object(es))])) == Ok::<ActionV, JsonErrorV>(ActionV { value: Some(action::ValueV::Ibc(es)) }),
            Self::spec_from_json(JsonV::Object(seq![("ibc"@, JsonV::Null)])) == Ok::<ActionV, JsonErrorV>(Self::spec_default()),
            Self::spec_to_json(ActionV { value: Some(action::ValueV::Ibc(es)) }) == JsonV::Object(seq![("ibc"@, JsonV::Object(es))]),
    {
        reveal_strlit("transfer");
        reveal_strlit("rollupDataSubmission");
        reveal_strlit("rollup_data_submission");
        reveal_strlit("initBridgeAccount");
        reveal_strlit("init_bridge_account");
        reveal_strlit("bridgeLock");
        reveal_strlit("bridge_lock");
        reveal_strlit("bridgeUnlock");
        reveal_strlit("bridge_unlock");
        reveal_strlit("bridgeSudoChange");
        reveal_strlit("bridge_sudo_change");
        reveal_strlit("bridgeTransfer");
        reveal_strlit("bridge_transfer");
        reveal_strlit("ibc");
        reveal_strlit("ics20Withdrawal");
        reveal_strlit("ics20_withdrawal");
        reveal_strlit("sudoAddressChange");
        reveal_strlit("sudo_address_change");
        reveal_strlit("validatorUpdate");
        reveal_strlit("validator_update");
        reveal_strlit("ibcRelayerChange");
        reveal_strlit("ibc_relayer_change");
        reveal_strlit("feeAssetChange");
        reveal_strlit("fee_asset_change");
        reveal_strlit("feeChange");
        reveal_strlit("fee_change");
        reveal_strlit("ibcSudoChange");
        reveal_strlit("ibc_sudo_change");
        reveal_strlit("recoverIbcClient");
        reveal_strlit("recover_ibc_client");
        reveal_strlit("currencyPairsChange");
        reveal_strlit("currency_pairs_change");
        reveal_strlit("marketsChange");
        reveal_strlit("markets_change");
        reveal_strlit("createOrder");
        reveal_strlit("create_order");
        reveal_strlit("cancelOrder");
        reveal_strlit("cancel_order");
        reveal_strlit("createMarket");
        reveal_strlit("create_market");
        reveal_strlit("updateMarket");
        reveal_strlit("update_market");
        assert("transfer"@.len() == 8);
        assert("rollupDataSubmission"@.len() == 20);
        assert("rollup_data_submission"@.len() == 22);
        assert("initBridgeAccount"@.len() == 17);
        assert("init_bridge_account"@.len() == 19);
        assert("bridgeLock"@.len() == 10);
        assert("bridge_lock"@.len() == 11);
        assert("bridgeUnlock"@.len() == 12);
        assert("bridge_unlock"@.len() == 13);
        assert("bridgeSudoChange"@.len() == 16);
        assert("bridge_sudo_change"@.len() == 18);
        assert("bridgeTransfer"@.len() == 14);
        assert("bridge_transfer"@.len() == 15);
        assert("ibc"@.len() == 3);
        assert("ics20Withdrawal"@.len() == 15);
        assert("ics20_withdrawal"@.len() == 16);
        assert("sudoAddressChange"@.len() == 17);
        assert("sudo_address_change"@.len() == 19);
        assert("validatorUpdate"@.len() == 15);
        assert("validator_update"@.len() == 16);
        assert("ibcRelayerChange"@.len() == 16);
        assert("ibc_relayer_change"@.len() == 18);
        assert("feeAssetChange"@.len() == 14);
        assert("fee_asset_change"@.len() == 16);
        assert("feeChange"@.len() == 9);
        assert("fee_change"@.len() == 10);
        assert("ibcSudoChange"@.len() == 13);
        assert("ibc_sudo_change"@.len() == 15);
        assert("recoverIbcClient"@.len() == 16);
        assert("recover_ibc_client"@.len() == 18);
        assert("currencyPairsChange"@.len() == 19);
        assert("currency_pairs_change"@.len() == 21);
        assert("marketsChange"@.len() == 13);
        assert("markets_change"@.len() == 14);
        assert("createOrder"@.len() == 11);
        assert("create_order"@.len() == 12);
        assert("cancelOrder"@.len() == 11);
        assert("cancel_order"@.len() == 12);
        assert("createMarket"@.len() == 12);
        assert("create_market"@.len() == 13);
        assert("updateMarket"@.len() == 12);
        assert("update_market"@.len() == 13);
        assert("initBridgeAccount"@[0] != "sudoAddressChange"@[0]);
        assert("init_bridge_account"@[0] != "sudo_address_change"@[0]);
        assert("init_bridge_account"@[0] != "currencyPairsChange"@[0]);
        assert("bridgeLock"@[0] != "fee_change"@[0]);
        assert("bridge_lock"@[0] != "createOrder"@[0]);
        assert("bridge_lock"@[0] != "cancelOrder"@[0]);
        assert("bridgeUnlock"@[0] != "create_order"@[0]);
        assert("bridgeUnlock"@[0] != "cancel_order"@[0]);
        assert("bridgeUnlock"@[0] != "createMarket"@[0]);
        assert("bridgeUnlock"@[0] != "updateMarket"@[0]);
        assert("bridge_unlock"@[0] != "ibcSudoChange"@[0]);
        assert("bridge_unlock"@[0] != "marketsChange"@[0]);
        assert("bridge_unlock"@[0] != "create_market"@[0]);
        assert("bridge_unlock"@[0] != "update_market"@[0]);
        assert("bridgeSudoChange"@[0] != "ics20_withdrawal"@[0]);
        assert("bridgeSudoChange"@[0] != "validator_update"@[0]);
        assert("bridgeSudoChange"@[0] != "ibcRelayerChange"@[0]);
        assert("bridgeSudoChange"@[0] != "fee_asset_change"@[0]);
        assert("bridgeSudoChange"@[0] != "recoverIbcClient"@[0]);
        assert("bridge_sudo_change"@[0] != "ibc_relayer_change"@[0]);
        assert("bridge_sudo_change"@[0] != "recover_ibc_client"@[0]);
        assert("bridgeTransfer"@[0] != "feeAssetChange"@[0]);
        assert("bridgeTransfer"@[0] != "markets_change"@[0]);
        assert("bridge_transfer"@[0] != "ics20Withdrawal"@[0]);
        assert("bridge_transfer"@[0] != "validatorUpdate"@[0]);
        assert("bridge_transfer"@[0] != "ibc_sudo_change"@[0]);
        assert("ics20Withdrawal"@[0] != "validatorUpdate"@[0]);
        assert("ics20Withdrawal"@[1] != "ibc_sudo_change"@[1]);
        assert("ics20_withdrawal"@[0] != "validator_update"@[0]);
        assert("ics20_withdrawal"@[1] != "ibcRelayerChange"@[1]);
        assert("ics20_withdrawal"@[0] != "fee_asset_change"@[0]);
        assert("ics20_withdrawal"@[0] != "recoverIbcClient"@[0]);
        assert("sudo_address_change"@[0] != "currencyPairsChange"@[0]);
        assert("validatorUpdate"@[0] != "ibc_sudo_change"@[0]);
        assert("validator_update"@[0] != "ibcRelayerChange"@[0]);
        assert("validator_update"@[0] != "fee_asset_change"@[0]);
        assert("validator_update"@[0] != "recoverIbcClient"@[0]);
        assert("ibcRelayerChange"@[0] != "fee_asset_change"@[0]);
        assert("ibcRelayerChange"@[0] != "recoverIbcClient"@[0]);
        assert("ibc_relayer_change"@[0] != "recover_ibc_client"@[0]);
        assert("feeAssetChange"@[0] != "markets_change"@[0]);
        assert("fee_asset_change"@[0] != "recoverIbcClient"@[0]);
        assert("ibcSudoChange"@[0] != "marketsChange"@[0]);
        assert("ibcSudoChange"@[0] != "create_market"@[0]);
        assert("ibcSudoChange"@[0] != "update_market"@[0]);
        assert("marketsChange"@[0] != "create_market"@[0]);
        assert("marketsChange"@[0] != "update_market"@[0]);
        assert("createOrder"@[1] != "cancelOrder"@[1]);
        assert("create_order"@[1] != "cancel_order"@[1]);
        assert("create_order"@[6] != "createMarket"@[6]);
        assert("create_order"@[0] != "updateMarket"@[0]);
        assert("cancel_order"@[1] != "createMarket"@[1]);
        assert("cancel_order"@[0] != "updateMarket"@[0]);
        assert("createMarket"@[0] != "updateMarket"@[0]);
        assert("create_market"@[0] != "update_market"@[0]);
        lemma_fold_entry_if(Self::spec_start(), true, "ibc"@, JsonV::Object(es), Self::step_fn());
        lemma_fold_entry_if(Self::spec_start(), true, "ibc"@, JsonV::Null, Self::step_fn());
    }

    /// The field `ics20_withdrawal` alone: an object with one member under its JSON or protobuf
    /// name reads as the message with that field set and every other field at its
    /// default, and the message with only that field off its default writes that
    /// one member under the JSON name.
    pub proof fn lemma_member_ics20_withdrawal(x: Ics20WithdrawalV, es: Seq<(Seq<char>, JsonV)>)
        ensures
            Self::spec_from_json(JsonV::Object(seq![("ics20Withdrawal"@, JsonV::Object(es))])) == (match Ics20Withdrawal::spec_from_json(JsonV::Object(es)) { Ok(y) => Ok::<ActionV, JsonErrorV>(ActionV { value: Some(action::ValueV::Ics20Withdrawal(y)) }), Err(e) => Err(e) }),
            Self::spec_from_json(JsonV::Object(seq![("ics20_withdrawal"@, JsonV::Object(es))])) == (match Ics20Withdrawal::spec_from_json(JsonV::Object(es)) { Ok(y) => Ok::<ActionV, JsonErrorV>(ActionV { value: Some(action::ValueV::Ics20Withdrawal(y)) }), Err(e) => Err(e) }),
            Self::spec_from_json(JsonV::Object(seq![("ics20Withdrawal"@, JsonV::Null)])) == Ok::<ActionV, JsonErrorV>(Self::spec_default()),
            Self::spec_from_json(JsonV::Object(seq![("ics20_withdrawal"@, JsonV::Null)])) == Ok::<ActionV, JsonErrorV>(Self::spec_default()),
            Self::spec_to_json(ActionV { value: Some(action::ValueV::Ics20Withdrawal(x)) }) == JsonV::Object(seq![("ics20Withdrawal"@, Ics20Withdrawal::spec_to_json(x))]),
    {
        reveal_strlit("transfer");
        reveal_strlit("rollupDataSubmission");
        reveal_strlit("rollup_data_submission");
        reveal_strlit("initBridgeAccount");
        reveal_strlit("init_bridge_account");
        reveal_strlit("bridgeLock");
        reveal_strlit("bridge_lock");
        reveal_strlit("bridgeUnlock");
        reveal_strlit("bridge_unlock");
        reveal_strlit("bridgeSudoChange");
        reveal_strlit("bridge_sudo_change");
        reveal_strlit("bridgeTransfer");
        reveal_strlit("bridge_transfer");
        reveal_strlit("ibc");
        reveal_strlit("ics20Withdrawal");
        reveal_strlit("ics20_withdrawal");
        reveal_strlit("sudoAddressChange");
        reveal_strlit("sudo_address_change");
        reveal_strlit("validatorUpdate");
        reveal_strlit("validator_update");
        reveal_strlit("ibcRelayerChange");
        reveal_strlit("ibc_relayer_change");
        reveal_strlit("feeAssetChange");
        reveal_strlit("fee_asset_change");
        reveal_strlit("feeChange");
        reveal_strlit("fee_change");
        reveal_strlit("ibcSudoChange");
        reveal_strlit("ibc_sudo_change");
        reveal_strlit("recoverIbcClient");
        reveal_strlit("recover_ibc_client");
        reveal_strlit("currencyPairsChange");
        reveal_strlit("currency_pairs_change");
        reveal_strlit("marketsChange");
        reveal_strlit("markets_change");
        reveal_strlit("createOrder");
        reveal_strlit("create_order");
        reveal_strlit("cancelOrder");
        reveal_strlit("cancel_order");
        reveal_strlit("createMarket");
        reveal_strlit("create_market");
        reveal_strlit("updateMarket");
        reveal_strlit("update_market");
        assert("transfer"@.len() == 8);
        assert("rollupDataSubmission"@.len() == 20);
        assert("rollup_data_submission"@.len() == 22);
        assert("initBridgeAccount"@.len() == 17);
        assert("init_bridge_account"@.len() == 19);
        assert("bridgeLock"@.len() == 10);
        assert("bridge_lock"@.len() == 11);
        assert("bridgeUnlock"@.len() == 12);
        assert("bridge_unlock"@.len() == 13);
        assert("bridgeSudoChange"@.len() == 16);
        assert("bridge_sudo_change"@.len() == 18);
        assert("bridgeTransfer"@.len() == 14);
        assert("bridge_transfer"@.len() == 15);
        assert("ibc"@.len() == 3);
        assert("ics20Withdrawal"@.len() == 15);
        assert("ics20_withdrawal"@.len() == 16);
        assert("sudoAddressChange"@.len() == 17);
        assert("sudo_address_change"@.len() == 19);
        assert("validatorUpdate"@.len() == 15);
        assert("validator_update"@.len() == 16);
        assert("ibcRelayerChange"@.len() == 16);
        assert("ibc_relayer_change"@.len() == 18);
        assert("feeAssetChange"@.len() == 14);
        assert("fee_asset_change"@.len() == 16);
        assert("feeChange"@.len() == 9);
        assert("fee_change"@.len() == 10);
        assert("ibcSudoChange"@.len() == 13);
        assert("ibc_sudo_change"@.len() == 15);
        assert("recoverIbcClient"@.len() == 16);
        assert("recover_ibc_client"@.len() == 18);
        assert("currencyPairsChange"@.len() == 19);
        assert("currency_pairs_change"@.len() == 21);
        assert("marketsChange"@.len() == 13);
        assert("markets_change"@.len() == 14);
        assert("createOrder"@.len() == 11);
        assert("create_order"@.len() == 12);
        assert("cancelOrder"@.len() == 11);
        assert("cancel_order"@.len() == 12);
        assert("createMarket"@.len() == 12);
        assert("create_market"@.len() == 13);
        assert("updateMarket"@.len() == 12);
        assert("update_market"@.len() == 13);
        assert("initBridgeAccount"@[0] != "sudoAddressChange"@[0]);
        assert("init_bridge_account"@[0] != "sudo_address_change"@[0]);
        assert("init_bridge_account"@[0] != "currencyPairsChange"@[0]);
        assert("bridgeLock"@[0] != "fee_change"@[0]);
        assert("bridge_lock"@[0] != "createOrder"@[0]);
        assert("bridge_lock"@[0] != "cancelOrder"@[0]);
        assert("bridgeUnlock"@[0] != "create_order"@[0]);
        assert("bridgeUnlock"@[0] != "cancel_order"@[0]);
        assert("bridgeUnlock"@[0] != "createMarket"@[0]);
        assert("bridgeUnlock"@[0] != "updateMarket"@[0]);
        assert("bridge_unlock"@[0] != "ibcSudoChange"@[0]);
        assert("bridge_unlock"@[0] != "marketsChange"@[0]);
        assert("bridge_unlock"@[0] != "create_market"@[0]);
        assert("bridge_unlock"@[0] != "update_market"@[0]);
        assert("bridgeSudoChange"@[0] != "ics20_withdrawal"@[0]);
        assert("bridgeSudoChange"@[0] != "validator_update"@[0]);
        assert("bridgeSudoChange"@[0] != "ibcRelayerChange"@[0]);
        assert("bridgeSudoChange"@[0] != "fee_asset_change"@[0]);
        assert("bridgeSudoChange"@[0] != "recoverIbcClient"@[0]);
        assert("bridge_sudo_change"@[0] != "ibc_relayer_change"@[0]);
        assert("bridge_sudo_change"@[0] != "recover_ibc_client"@[0]);
        assert("bridgeTransfer"@[0] != "feeAssetChange"@[0]);
        assert("bridgeTransfer"@[0] != "markets_change"@[0]);
        assert("bridge_transfer"@[0] != "ics20Withdrawal"@[0]);
        assert("bridge_transfer"@[0] != "validatorUpdate"@[0]);
        assert("bridge_transfer"@[0] != "ibc_sudo_change"@[0]);
        assert("ics20Withdrawal"@[0] != "validatorUpdate"@[0]);
        assert("ics20Withdrawal"@[1] != "ibc_sudo_change"@[1]);
        assert("ics20_withdrawal"@[0] != "validator_update"@[0]);
        assert("ics20_withdrawal"@[1] != "ibcRelayerChange"@[1]);
        assert("ics20_withdrawal"@[0] != "fee_asset_change"@[0]);
        assert("ics20_withdrawal"@[0] != "recoverIbcClient"@[0]);
        assert("sudo_address_change"@[0] != "currencyPairsChange"@[0]);
        assert("validatorUpdate"@[0] != "ibc_sudo_change"@[0]);
        assert("validator_update"@[0] != "ibcRelayerChange"@[0]);
        assert("validator_update"@[0] != "fee_asset_change"@[0]);
        assert("validator_update"@[0] != "recoverIbcClient"@[0]);
        assert("ibcRelayerChange"@[0] != "fee_asset_change"@[0]);
        assert("ibcRelayerChange"@[0] != "recoverIbcClient"@[0]);
        assert("ibc_relayer_change"@[0] != "recover_ibc_client"@[0]);
        assert("feeAssetChange"@[0] != "markets_change"@[0]);
        assert("fee_asset_change"@[0] != "recoverIbcClient"@[0]);
        assert("ibcSudoChange"@[0] != "marketsChange"@[0]);
        assert("ibcSudoChange"@[0] != "create_market"@[0]);
        assert("ibcSudoChange"@[0] != "update_market"@[0]);
        assert("marketsChange"@[0] != "create_market"@[0]);
        assert("marketsChange"@[0] != "update_market"@[0]);
        assert("createOrder"@[1] != "cancelOrder"@[1]);
        assert("create_order"@[1] != "cancel_order"@[1]);
        assert("create_order"@[6] != "createMarket"@[6]);
        assert("create_order"@[0] != "updateMarket"@[0]);
        assert("cancel_order"@[1] != "createMarket"@[1]);
        assert("cancel_order"@[0] != "updateMarket"@[0]);
        assert("createMarket"@[0] != "updateMarket"@[0]);
        assert("create_market"@[0] != "update_market"@[0]);
        lemma_fold_entry_if(Self::spec_start(), true, "ics20Withdrawal"@, JsonV::Object(es), Self::step_fn());
        lemma_fold_entry_if(Self::spec_start(), true, "ics20_withdrawal"@, JsonV::Object(es), Self::step_fn());
        lemma_fold_entry_if(Self::spec_start(), true, "ics20Withdrawal"@, JsonV::Null, Self::step_fn());
        lemma_fold_entry_if(Self::spec_start(), true, "ics20_withdrawal"@, JsonV::Null, Self::step_fn());
    }

    /// The field `sudo_address_change` alone: an object with one member under its JSON or protobuf
    /// name reads as the message with that field set and every other field at its
    /// default, and the message with only that field off its default writes that
    /// one member under the JSON name.
    pub proof fn lemma_member_sudo_address_change(x: SudoAddressChangeV, es: Seq<(Seq<char>, JsonV)>)
        ensures
            Self::spec_from_json(JsonV::Object(seq![("sudoAddressChange"@, JsonV::Object(es))])) == (match SudoAddressChange::spec_from_json(JsonV::Object(es)) { Ok(y) => Ok::<ActionV, JsonErrorV>(ActionV { value: Some(action::ValueV::SudoAddressChange(y)) }), Err(e) => Err(e) }),
            Self::spec_from_json(JsonV::Object(seq![("sudo_address_change"@, JsonV::Object(es))])) == (match SudoAddressChange::spec_from_json(JsonV::Object(es)) { Ok(y) => Ok::<ActionV, JsonErrorV>(ActionV { value: Some(action::ValueV::SudoAddressChange(y)) }), Err(e) => Err(e) }),
            Self::spec_from_json(JsonV::Object(seq![("sudoAddressChange"@, JsonV::Null)])) == Ok::<ActionV, JsonErrorV>(Self::spec_default()),
            Self::spec_from_json(JsonV::Object(seq![("sudo_address_change"@, JsonV::Null)])) == Ok::<ActionV, JsonErrorV>(Self::spec_default()),
            Self::spec_to_json(ActionV { value: Some(action::ValueV::SudoAddressChange(x)) }) == JsonV::Object(seq![("sudoAddressChange"@, SudoAddressChange::spec_to_json(x))]),
    {
        reveal_strlit("transfer");
        reveal_strlit("rollupDataSubmission");
        reveal_strlit("rollup_data_submission");
        reveal_strlit("initBridgeAccount");
        reveal_strlit("init_bridge_account");
        reveal_strlit("bridgeLock");
        reveal_strlit("bridge_lock");
        reveal_strlit("bridgeUnlock");
        reveal_strlit("bridge_unlock");
        reveal_strlit("bridgeSudoChange");
        reveal_strlit("bridge_sudo_change");
        reveal_strlit("bridgeTransfer");
        reveal_strlit("bridge_transfer");
        reveal_strlit("ibc");
        reveal_strlit("ics20Withdrawal");
        reveal_strlit("ics20_withdrawal");
        reveal_strlit("sudoAddressChange");
        reveal_strlit("sudo_address_change");
        reveal_strlit("validatorUpdate");
        reveal_strlit("validator_update");
        reveal_strlit("ibcRelayerChange");
        reveal_strlit("ibc_relayer_change");
        reveal_strlit("feeAssetChange");
        reveal_strlit("fee_asset_change");
        reveal_strlit("feeChange");
        reveal_strlit("fee_change");
        reveal_strlit("ibcSudoChange");
        reveal_strlit("ibc_sudo_change");
        reveal_strlit("recoverIbcClient");
        reveal_strlit("recover_ibc_client");
        reveal_strlit("currencyPairsChange");
        reveal_strlit("currency_pairs_change");
        reveal_strlit("marketsChange");
        reveal_strlit("markets_change");
        reveal_strlit("createOrder");
        reveal_strlit("create_order");
        reveal_strlit("cancelOrder");
        reveal_strlit("cancel_order");
        reveal_strlit("createMarket");
        reveal_strlit("create_market");
        reveal_strlit("updateMarket");
        reveal_strlit("update_market");
        assert("transfer"@.len() == 8);
        assert("rollupDataSubmission"@.len() == 20);
        assert("rollup_data_submission"@.len() == 22);
        assert("initBridgeAccount"@.len() == 17);
        assert("init_bridge_account"@.len() == 19);
        assert("bridgeLock"@.len() == 10);
        assert("bridge_lock"@.len() == 11);
        assert("bridgeUnlock"@.len() == 12);
        assert("bridge_unlock"@.len() == 13);
        assert("bridgeSudoChange"@.len() == 16);
        assert("bridge_sudo_change"@.len() == 18);
        assert("bridgeTransfer"@.len() == 14);
        assert("bridge_transfer"@.len() == 15);
        assert("ibc"@.len() == 3);
        assert("ics20Withdrawal"@.len() == 15);
        assert("ics20_withdrawal"@.len() == 16);
        assert("sudoAddressChange"@.len() == 17);
        assert("sudo_address_change"@.len() == 19);
        assert("validatorUpdate"@.len() == 15);
        assert("validator_update"@.len() == 16);
        assert("ibcRelayerChange"@.len() == 16);
        assert("ibc_relayer_change"@.len() == 18);
        assert("feeAssetChange"@.len() == 14);
        assert("fee_asset_change"@.len() == 16);
        assert("feeChange"@.len() == 9);
        assert("fee_change"@.len() == 10);
        assert("ibcSudoChange"@.len() == 13);
        assert("ibc_sudo_change"@.len() == 15);
        assert("recoverIbcClient"@.len() == 16);
        assert("recover_ibc_client"@.len() == 18);
        assert("currencyPairsChange"@.len() == 19);
        assert("currency_pairs_change"@.len() == 21);
        assert("marketsChange"@.len() == 13);
        assert("markets_change"@.len() == 14);
        assert("createOrder"@.len() == 11);
        assert("create_order"@.len() == 12);
        assert("cancelOrder"@.len() == 11);
        assert("cancel_order"@.len() == 12);
        assert("createMarket"@.len() == 12);
        assert("create_market"@.len() == 13);
        assert("updateMarket"@.len() == 12);
        assert("update_market"@.len() == 13);
        assert("initBridgeAccount"@[0] != "sudoAddressChange"@[0]);
        assert("init_bridge_account"@[0] != "sudo_address_change"@[0]);
        assert("init_bridge_account"@[0] != "currencyPairsChange"@[0]);
        assert("bridgeLock"@[0] != "fee_change"@[0]);
        assert("bridge_lock"@[0] != "createOrder"@[0]);
        assert("bridge_lock"@[0] != "cancelOrder"@[0]);
        assert("bridgeUnlock"@[0] != "create_order"@[0]);
        assert("bridgeUnlock"@[0] != "cancel_order"@[0]);
        assert("bridgeUnlock"@[0] != "createMarket"@[0]);
        assert("bridgeUnlock"@[0] != "updateMarket"@[0]);
        assert("bridge_unlock"@[0] != "ibcSudoChange"@[0]);
        assert("bridge_unlock"@[0] != "marketsChange"@[0]);
        assert("bridge_unlock"@[0] != "create_market"@[0]);
        assert("bridge_unlock"@[0] != "update_market"@[0]);
        assert("bridgeSudoChange"@[0] != "ics20_withdrawal"@[0]);
        assert("bridgeSudoChange"@[0] != "validator_update"@[0]);
        assert("bridgeSudoChange"@[0] != "ibcRelayerChange"@[0]);
        assert("bridgeSudoChange"@[0] != "fee_asset_change"@[0]);
        assert("bridgeSudoChange"@[0] != "recoverIbcClient"@[0]);
        assert("bridge_sudo_change"@[0] != "ibc_relayer_change"@[0]);
        assert("bridge_sudo_change"@[0] != "recover_ibc_client"@[0]);
        assert("bridgeTransfer"@[0] != "feeAssetChange"@[0]);
        assert("bridgeTransfer"@[0] != "markets_change"@[0]);
        assert("bridge_transfer"@[0] != "ics20Withdrawal"@[0]);
        assert("bridge_transfer"@[0] != "validatorUpdate"@[0]);
        assert("bridge_transfer"@[0] != "ibc_sudo_change"@[0]);
        assert("ics20Withdrawal"@[0] != "validatorUpdate"@[0]);
        assert("ics20Withdrawal"@[1] != "ibc_sudo_change"@[1]);
        assert("ics20_withdrawal"@[0] != "validator_update"@[0]);
        assert("ics20_withdrawal"@[1] != "ibcRelayerChange"@[1]);
        assert("ics20_withdrawal"@[0] != "fee_asset_change"@[0]);
        assert("ics20_withdrawal"@[0] != "recoverIbcClient"@[0]);
        assert("sudo_address_change"@[0] != "currencyPairsChange"@[0]);
        assert("validatorUpdate"@[0] != "ibc_sudo_change"@[0]);
        assert("validator_update"@[0] != "ibcRelayerChange"@[0]);
        assert("validator_update"@[0] != "fee_asset_change"@[0]);
        assert("validator_update"@[0] != "recoverIbcClient"@[0]);
        assert("ibcRelayerChange"@[0] != "fee_asset_change"@[0]);
        assert("ibcRelayerChange"@[0] != "recoverIbcClient"@[0]);
        assert("ibc_relayer_change"@[0] != "recover_ibc_client"@[0]);
        assert("feeAssetChange"@[0] != "markets_change"@[0]);
        assert("fee_asset_change"@[0] != "recoverIbcClient"@[0]);
        assert("ibcSudoChange"@[0] != "marketsChange"@[0]);
        assert("ibcSudoChange"@[0] != "create_market"@[0]);
        assert("ibcSudoChange"@[0] != "update_market"@[0]);
        assert("marketsChange"@[0] != "create_market"@[0]);
        assert("marketsChange"@[0] != "update_market"@[0]);
        assert("createOrder"@[1] != "cancelOrder"@[1]);
        assert("create_order"@[1] != "cancel_order"@[1]);
        assert("create_order"@[6] != "createMarket"@[6]);
        assert("create_order"@[0] != "updateMarket"@[0]);
        assert("cancel_order"@[1] != "createMarket"@[1]);
        assert("cancel_order"@[0] != "updateMarket"@[0]);
        assert("createMarket"@[0] != "updateMarket"@[0]);
        assert("create_market"@[0] != "update_market"@[0]);
        lemma_fold_entry_if(Self::spec_start(), true, "sudoAddressChange"@, JsonV::Object(es), Self::step_fn());
        lemma_fold_entry_if(Self::spec_start(), true, "sudo_address_change"@, JsonV::Object(es), Self::step_fn());
        lemma_fold_entry_if(Self::spec_start(), true, "sudoAddressChange"@, JsonV::Null, Self::step_fn());
        lemma_fold_entry_if(Self::spec_start(), true, "sudo_address_change"@, JsonV::Null, Self::step_fn());
    }

    /// The field `validator_update` alone: an object with one member under its JSON or protobuf
    /// name reads as the message with that field set and every other field at its
    /// default, and the message with only that field off its default writes that
    /// one member under the JSON name.
    pub proof fn lemma_member_validator_update(x: ValidatorUpdateV, es: Seq<(Seq<char>, JsonV)>)
        ensures
            Self::spec_from_json(JsonV::Object(seq![("validatorUpdate"@, JsonV::Object(es))])) == (match ValidatorUpdate::spec_from_json(JsonV::Object(es)) { Ok(y) => Ok::<ActionV, JsonErrorV>(ActionV { value: Some(action::ValueV::ValidatorUpdate(y)) }), Err(e) => Err(e) }),
            Self::spec_from_json(JsonV::Object(seq![("validator_update"@, JsonV::Object(es))])) == (match ValidatorUpdate::spec_from_json(JsonV::Object(es)) { Ok(y) => Ok::<ActionV, JsonErrorV>(ActionV { value: Some(action::ValueV::ValidatorUpdate(y)) }), Err(e) => Err(e) }),
            Self::spec_from_json(JsonV::Object(seq![("validatorUpdate"@, JsonV::Null)])) == Ok::<ActionV, JsonErrorV>(Self::spec_default()),
            Self::spec_from_json(JsonV::Object(seq![("validator_update"@, JsonV::Null)])) == Ok::<ActionV, JsonErrorV>(Self::spec_default()),
            Self::spec_to_json(ActionV { value: Some(action::ValueV::ValidatorUpdate(x)) }) == JsonV::Object(seq![("validatorUpdate"@, ValidatorUpdate::spec_to_json(x))]),
    {
        reveal_strlit("transfer");
        reveal_strlit("rollupDataSubmission");
        reveal_strlit("rollup_data_submission");
        reveal_strlit("initBridgeAccount");
        reveal_strlit("init_bridge_account");
        reveal_strlit("bridgeLock");
        reveal_strlit("bridge_lock");
        reveal_strlit("bridgeUnlock");
        reveal_strlit("bridge_unlock");
        reveal_strlit("bridgeSudoChange");
        reveal_strlit("bridge_sudo_change");
        reveal_strlit("bridgeTransfer");
        reveal_strlit("bridge_transfer");
        reveal_strlit("ibc");
        reveal_strlit("ics20Withdrawal");
        reveal_strlit("ics20_withdrawal");
        reveal_strlit("sudoAddressChange");
        reveal_strlit("sudo_address_change");
        reveal_strlit("validatorUpdate");
        reveal_strlit("validator_update");
        reveal_strlit("ibcRelayerChange");
        reveal_strlit("ibc_relayer_change");
        reveal_strlit("feeAssetChange");
        reveal_strlit("fee_asset_change");
        reveal_strlit("feeChange");
        reveal_strlit("fee_change");
        reveal_strlit("ibcSudoChange");
        reveal_strlit("ibc_sudo_change");
        reveal_strlit("recoverIbcClient");
        reveal_strlit("recover_ibc_client");
        reveal_strlit("currencyPairsChange");
        reveal_strlit("currency_pairs_change");
        reveal_strlit("marketsChange");
        reveal_strlit("markets_change");
        reveal_strlit("createOrder");
        reveal_strlit("create_order");
        reveal_strlit("cancelOrder");
        reveal_strlit("cancel_order");
        reveal_strlit("createMarket");
        reveal_strlit("create_market");
        reveal_strlit("updateMarket");
        reveal_strlit("update_market");
        assert("transfer"@.len() == 8);
        assert("rollupDataSubmission"@.len() == 20);
        assert("rollup_data_submission"@.len() == 22);
        assert("initBridgeAccount"@.len() == 17);
        assert("init_bridge_account"@.len() == 19);
        assert("bridgeLock"@.len() == 10);
        assert("bridge_lock"@.len() == 11);
        assert("bridgeUnlock"@.len() == 12);
        assert("bridge_unlock"@.len() == 13);
        assert("bridgeSudoChange"@.len() == 16);
        assert("bridge_sudo_change"@.len() == 18);
        assert("bridgeTransfer"@.len() == 14);
        assert("bridge_transfer"@.len() == 15);
        assert("ibc"@.len() == 3);
        assert("ics20Withdrawal"@.len() == 15);
        assert("ics20_withdrawal"@.len() == 16);
        assert("sudoAddressChange"@.len() == 17);
        assert("sudo_address_change"@.len() == 19);
        assert("validatorUpdate"@.len() == 15);
        assert("validator_update"@.len() == 16);
        assert("ibcRelayerChange"@.len() == 16);
        assert("ibc_relayer_change"@.len() == 18);
        assert("feeAssetChange"@.len() == 14);
        assert("fee_asset_change"@.len() == 16);
        assert("feeChange"@.len() == 9);
        assert("fee_change"@.len() == 10);
        assert("ibcSudoChange"@.len() == 13);
        assert("ibc_sudo_change"@.len() == 15);
        assert("recoverIbcClient"@.len() == 16);
        assert("recover_ibc_client"@.len() == 18);
        assert("currencyPairsChange"@.len() == 19);
        assert("currency_pairs_change"@.len() == 21);
        assert("marketsChange"@.len() == 13);
        assert("markets_change"@.len() == 14);
        assert("createOrder"@.len() == 11);
        assert("create_order"@.len() == 12);
        assert("cancelOrder"@.len() == 11);
        assert("cancel_order"@.len() == 12);
        assert("createMarket"@.len() == 12);
        assert("create_market"@.len() == 13);
        assert("updateMarket"@.len() == 12);
        assert("update_market"@.len() == 13);
        assert("initBridgeAccount"@[0] != "sudoAddressChange"@[0]);
        assert("init_bridge_account"@[0] != "sudo_address_change"@[0]);
        assert("init_bridge_account"@[0] != "currencyPairsChange"@[0]);
        assert("bridgeLock"@[0] != "fee_change"@[0]);
        assert("bridge_lock"@[0] != "createOrder"@[0]);
        assert("bridge_lock"@[0] != "cancelOrder"@[0]);
        assert("bridgeUnlock"@[0] != "create_order"@[0]);
        assert("bridgeUnlock"@[0] != "cancel_order"@[0]);
        assert("bridgeUnlock"@[0] != "createMarket"@[0]);
        assert("bridgeUnlock"@[0] != "updateMarket"@[0]);
        assert("bridge_unlock"@[0] != "ibcSudoChange"@[0]);
        assert("bridge_unlock"@[0] != "marketsChange"@[0]);
        assert("bridge_unlock"@[0] != "create_market"@[0]);
        assert("bridge_unlock"@[0] != "update_market"@[0]);
        assert("bridgeSudoChange"@[0] != "ics20_withdrawal"@[0]);
        assert("bridgeSudoChange"@[0] != "validator_update"@[0]);
        assert("bridgeSudoChange"@[0] != "ibcRelayerChange"@[0]);
        assert("bridgeSudoChange"@[0] != "fee_asset_change"@[0]);
        assert("bridgeSudoChange"@[0] != "recoverIbcClient"@[0]);
        assert("bridge_sudo_change"@[0] != "ibc_relayer_change"@[0]);
        assert("bridge_sudo_change"@[0] != "recover_ibc_client"@[0]);
        assert("bridgeTransfer"@[0] != "feeAssetChange"@[0]);
        assert("bridgeTransfer"@[0] != "markets_change"@[0]);
        assert("bridge_transfer"@[0] != "ics20Withdrawal"@[0]);
        assert("bridge_transfer"@[0] != "validatorUpdate"@[0]);
        assert("bridge_transfer"@[0] != "ibc_sudo_change"@[0]);
        assert("ics20Withdrawal"@[0] != "validatorUpdate"@[0]);
        assert("ics20Withdrawal"@[1] != "ibc_sudo_change"@[1]);
        assert("ics20_withdrawal"@[0] != "validator_update"@[0]);
        assert("ics20_withdrawal"@[1] != "ibcRelayerChange"@[1]);
        assert("ics20_withdrawal"@[0] != "fee_asset_change"@[0]);
        assert("ics20_withdrawal"@[0] != "recoverIbcClient"@[0]);
        assert("sudo_address_change"@[0] != "currencyPairsChange"@[0]);
        assert("validatorUpdate"@[0] != "ibc_sudo_change"@[0]);
        assert("validator_update"@[0] != "ibcRelayerChange"@[0]);
        assert("validator_update"@[0] != "fee_asset_change"@[0]);
        assert("validator_update"@[0] != "recoverIbcClient"@[0]);
        assert("ibcRelayerChange"@[0] != "fee_asset_change"@[0]);
        assert("ibcRelayerChange"@[0] != "recoverIbcClient"@[0]);
        assert("ibc_relayer_change"@[0] != "recover_ibc_client"@[0]);
        assert("feeAssetChange"@[0] != "markets_change"@[0]);
        assert("fee_asset_change"@[0] != "recoverIbcClient"@[0]);
        assert("ibcSudoChange"@[0] != "marketsChange"@[0]);
        assert("ibcSudoChange"@[0] != "create_market"@[0]);
        assert("ibcSudoChange"@[0] != "update_market"@[0]);
        assert("marketsChange"@[0] != "create_market"@[0]);
        assert("marketsChange"@[0] != "update_market"@[0]);
        assert("createOrder"@[1] != "cancelOrder"@[1]);
        assert("create_order"@[1] != "cancel_order"@[1]);
        assert("create_order"@[6] != "createMarket"@[6]);
        assert("create_order"@[0] != "updateMarket"@[0]);
        assert("cancel_order"@[1] != "createMarket"@[1]);
        assert("cancel_order"@[0] != "updateMarket"@[0]);
        assert("createMarket"@[0] != "updateMarket"@[0]);
        assert("create_market"@[0] != "update_market"@[0]);
        lemma_fold_entry_if(Self::spec_start(), true, "validatorUpdate"@, JsonV::Object(es), Self::step_fn());
        lemma_fold_entry_if(Self::spec_start(), true, "validator_update"@, JsonV::Object(es), Self::step_fn());
        lemma_fold_entry_if(Self::spec_start(), true, "validatorUpdate"@, JsonV::Null, Self::step_fn());
        lemma_fold_entry_if(Self::spec_start(), true, "validator_update"@, JsonV::Null, Self::step_fn());
    }

    /// The field `ibc_relayer_change` alone: an object with one member under its JSON or protobuf
    /// name reads as the message with that field set and every other field at its
    /// default, and the message with only that field off its default writes that
    /// one member under the JSON name.
    pub proof fn lemma_member_ibc_relayer_change(x: IbcRelayerChangeV, es: Seq<(Seq<char>, JsonV)>)
        ensures
            Self::spec_from_json(JsonV::Object(seq![("ibcRelayerChange"@, JsonV::Object(es))])) == (match IbcRelayerChange::spec_from_json(JsonV::Object(es)) { Ok(y) => Ok::<ActionV, JsonErrorV>(ActionV { value: Some(action::ValueV::IbcRelayerChange(y)) }), Err(e) => Err(e) }),
            Self::spec_from_json(JsonV::Object(seq![("ibc_relayer_change"@, JsonV::Object(es))])) == (match IbcRelayerChange::spec_from_json(JsonV::Object(es)) { Ok(y) => Ok::<ActionV, JsonErrorV>(ActionV { value: Some(action::ValueV::IbcRelayerChange(y)) }), Err(e) => Err(e) }),
            Self::spec_from_json(JsonV::Object(seq![("ibcRelayerChange"@, JsonV::Null)])) == Ok::<ActionV, JsonErrorV>(Self::spec_default()),
            Self::spec_from_json(JsonV::Object(seq![("ibc_relayer_change"@, JsonV::Null)])) == Ok::<ActionV, JsonErrorV>(Self::spec_default()),
            Self::spec_to_json(ActionV { value: Some(action::ValueV::IbcRelayerChange(x)) }) == JsonV::Object(seq![("ibcRelayerChange"@, IbcRelayerChange::spec_to_json(x))]),
    {
        reveal_strlit("transfer");
        reveal_strlit("rollupDataSubmission");
        reveal_strlit("rollup_data_submission");
        reveal_strlit("initBridgeAccount");
        reveal_strlit("init_bridge_account");
        reveal_strlit("bridgeLock");
        reveal_strlit("bridge_lock");
        reveal_strlit("bridgeUnlock");
        reveal_strlit("bridge_unlock");
        reveal_strlit("bridgeSudoChange");
        reveal_strlit("bridge_sudo_change");
        reveal_strlit("bridgeTransfer");
        reveal_strlit("bridge_transfer");
        reveal_strlit("ibc");
        reveal_strlit("ics20Withdrawal");
        reveal_strlit("ics20_withdrawal");
        reveal_strlit("sudoAddressChange");
        reveal_strlit("sudo_address_change");
        reveal_strlit("validatorUpdate");
        reveal_strlit("validator_update");
        reveal_strlit("ibcRelayerChange");
        reveal_strlit("ibc_relayer_change");
        reveal_strlit("feeAssetChange");
        reveal_strlit("fee_asset_change");
        reveal_strlit("feeChange");
        reveal_strlit("fee_change");
        reveal_strlit("ibcSudoChange");
        reveal_strlit("ibc_sudo_change");
        reveal_strlit("recoverIbcClient");
        reveal_strlit("recover_ibc_client");
        reveal_strlit("currencyPairsChange");
        reveal_strlit("currency_pairs_change");
        reveal_strlit("marketsChange");
        reveal_strlit("markets_change");
        reveal_strlit("createOrder");
        reveal_strlit("create_order");
        reveal_strlit("cancelOrder");
        reveal_strlit("cancel_order");
        reveal_strlit("createMarket");
        reveal_strlit("create_market");
        reveal_strlit("updateMarket");
        reveal_strlit("update_market");
        assert("transfer"@.len() == 8);
        assert("rollupDataSubmission"@.len() == 20);
        assert("rollup_data_submission"@.len() == 22);
        assert("initBridgeAccount"@.len() == 17);
        assert("init_bridge_account"@.len() == 19);
        assert("bridgeLock"@.len() == 10);
        assert("bridge_lock"@.len() == 11);
        assert("bridgeUnlock"@.len() == 12);
        assert("bridge_unlock"@.len() == 13);
        assert("bridgeSudoChange"@.len() == 16);
        assert("bridge_sudo_change"@.len() == 18);
        assert("bridgeTransfer"@.len() == 14);
        assert("bridge_transfer"@.len() == 15);
        assert("ibc"@.len() == 3);
        assert("ics20Withdrawal"@.len() == 15);
        assert("ics20_withdrawal"@.len() == 16);
        assert("sudoAddressChange"@.len() == 17);
        assert("sudo_address_change"@.len() == 19);
        assert("validatorUpdate"@.len() == 15);
        assert("validator_update"@.len() == 16);
        assert("ibcRelayerChange"@.len() == 16);
        assert("ibc_relayer_change"@.len() == 18);
        assert("feeAssetChange"@.len() == 14);
        assert("fee_asset_change"@.len() == 16);
        assert("feeChange"@.len() == 9);
        assert("fee_change"@.len() == 10);
        assert("ibcSudoChange"@.len() == 13);
        assert("ibc_sudo_change"@.len() == 15);
        assert("recoverIbcClient"@.len() == 16);
        assert("recover_ibc_client"@.len() == 18);
        assert("currencyPairsChange"@.len() == 19);
        assert("currency_pairs_change"@.len() == 21);
        assert("marketsChange"@.len() == 13);
        assert("markets_change"@.len() == 14);
        assert("createOrder"@.len() == 11);
        assert("create_order"@.len() == 12);
        assert("cancelOrder"@.len() == 11);
        assert("cancel_order"@.len() == 12);
        assert("createMarket"@.len() == 12);
        assert("create_market"@.len() == 13);
        assert("updateMarket"@.len() == 12);
        assert("update_market"@.len() == 13);
        assert("initBridgeAccount"@[0] != "sudoAddressChange"@[0]);
        assert("init_bridge_account"@[0] != "sudo_address_change"@[0]);
        assert("init_bridge_account"@[0] != "currencyPairsChange"@[0]);
        assert("bridgeLock"@[0] != "fee_change"@[0]);
        assert("bridge_lock"@[0] != "createOrder"@[0]);
        assert("bridge_lock"@[0] != "cancelOrder"@[0]);
        assert("bridgeUnlock"@[0] != "create_order"@[0]);
        assert("bridgeUnlock"@[0] != "cancel_order"@[0]);
        assert("bridgeUnlock"@[0] != "createMarket"@[0]);
        assert("bridgeUnlock"@[0] != "updateMarket"@[0]);
        assert("bridge_unlock"@[0] != "ibcSudoChange"@[0]);
        assert("bridge_unlock"@[0] != "marketsChange"@[0]);
        assert("bridge_unlock"@[0] != "create_market"@[0]);
        assert("bridge_unlock"@[0] != "update_market"@[0]);
        assert("bridgeSudoChange"@[0] != "ics20_withdrawal"@[0]);
        assert("bridgeSudoChange"@[0] != "validator_update"@[0]);
        assert("bridgeSudoChange"@[0] != "ibcRelayerChange"@[0]);
        assert("bridgeSudoChange"@[0] != "fee_asset_change"@[0]);
        assert("bridgeSudoChange"@[0] != "recoverIbcClient"@[0]);
        assert("bridge_sudo_change"@[0] != "ibc_relayer_change"@[0]);
        assert("bridge_sudo_change"@[0] != "recover_ibc_client"@[0]);
        assert("bridgeTransfer"@[0] != "feeAssetChange"@[0]);
        assert("bridgeTransfer"@[0] != "markets_change"@[0]);
        assert("bridge_transfer"@[0] != "ics20Withdrawal"@[0]);
        assert("bridge_transfer"@[0] != "validatorUpdate"@[0]);
        assert("bridge_transfer"@[0] != "ibc_sudo_change"@[0]);
        assert("ics20Withdrawal"@[0] != "validatorUpdate"@[0]);
        assert("ics20Withdrawal"@[1] != "ibc_sudo_change"@[1]);
        assert("ics20_withdrawal"@[0] != "validator_update"@[0]);
        assert("ics20_withdrawal"@[1] != "ibcRelayerChange"@[1]);
        assert("ics20_withdrawal"@[0] != "fee_asset_change"@[0]);
        assert("ics20_withdrawal"@[0] != "recoverIbcClient"@[0]);
        assert("sudo_address_change"@[0] != "currencyPairsChange"@[0]);
        assert("validatorUpdate"@[0] != "ibc_sudo_change"@[0]);
        assert("validator_update"@[0] != "ibcRelayerChange"@[0]);
        assert("validator_update"@[0] != "fee_asset_change"@[0]);
        assert("validator_update"@[0] != "recoverIbcClient"@[0]);
        assert("ibcRelayerChange"@[0] != "fee_asset_change"@[0]);
        assert("ibcRelayerChange"@[0] != "recoverIbcClient"@[0]);
        assert("ibc_relayer_change"@[0] != "recover_ibc_client"@[0]);
        assert("feeAssetChange"@[0] != "markets_change"@[0]);
        assert("fee_asset_change"@[0] != "recoverIbcClient"@[0]);
        assert("ibcSudoChange"@[0] != "marketsChange"@[0]);
        assert("ibcSudoChange"@[0] != "create_market"@[0]);
        assert("ibcSudoChange"@[0] != "update_market"@[0]);
        assert("marketsChange"@[0] != "create_market"@[0]);
        assert("marketsChange"@[0] != "update_market"@[0]);
        assert("createOrder"@[1] != "cancelOrder"@[1]);
        assert("create_order"@[1] != "cancel_order"@[1]);
        assert("create_order"@[6] != "createMarket"@[6]);
        assert("create_order"@[0] != "updateMarket"@[0]);
        assert("cancel_order"@[1] != "createMarket"@[1]);
        assert("cancel_order"@[0] != "updateMarket"@[0]);
        assert("createMarket"@[0] != "updateMarket"@[0]);
        assert("create_market"@[0] != "update_market"@[0]);
        lemma_fold_entry_if(Self::spec_start(), true, "ibcRelayerChange"@, JsonV::Object(es), Self::step_fn());
        lemma_fold_entry_if(Self::spec_start(), true, "ibc_relayer_change"@, JsonV::Object(es), Self::step_fn());
        lemma_fold_entry_if(Self::spec_start(), true, "ibcRelayerChange"@, JsonV::Null, Self::step_fn());
        lemma_fold_entry_if(Self::spec_start(), true, "ibc_relayer_change"@, JsonV::Null, Self::step_fn());
    }

    /// The field `fee_asset_change` alone: an object with one member under its JSON or protobuf
    /// name reads as the message with that field set and every other field at its
    /// default, and the message with only that field off its default writes that
    /// one member under the JSON name.
    pub proof fn lemma_member_fee_asset_change(x: FeeAssetChangeV, es: Seq<(Seq<char>, JsonV)>)
        ensures
            Self::spec_from_json(JsonV::Object(seq![("feeAssetChange"@, JsonV::Object(es))])) == (match FeeAssetChange::spec_from_json(JsonV::Object(es)) { Ok(y) => Ok::<ActionV, JsonErrorV>(ActionV { value: Some(action::ValueV::FeeAssetChange(y)) }), Err(e) => Err(e) }),
            Self::spec_from_json(JsonV::Object(seq![("fee_asset_change"@, JsonV::Object(es))])) == (match FeeAssetChange::spec_from_json(JsonV::Object(es)) { Ok(y) => Ok::<ActionV, JsonErrorV>(ActionV { value: Some(action::ValueV::FeeAssetChange(y)) }), Err(e) => Err(e) }),
            Self::spec_from_json(JsonV::Object(seq![("feeAssetChange"@, JsonV::Null)])) == Ok::<ActionV, JsonErrorV>(Self::spec_default()),
            Self::spec_from_json(JsonV::Object(seq![("fee_asset_change"@, JsonV::Null)])) == Ok::<ActionV, JsonErrorV>(Self::spec_default()),
            Self::spec_to_json(ActionV { value: Some(action::ValueV::FeeAssetChange(x)) }) == JsonV::Object(seq![("feeAssetChange"@, FeeAssetChange::spec_to_json(x))]),
    {
        reveal_strlit("transfer");
        reveal_strlit("rollupDataSubmission");
        reveal_strlit("rollup_data_submission");
        reveal_strlit("initBridgeAccount");
        reveal_strlit("init_bridge_account");
        reveal_strlit("bridgeLock");
        reveal_strlit("bridge_lock");
        reveal_strlit("bridgeUnlock");
        reveal_strlit("bridge_unlock");
        reveal_strlit("bridgeSudoChange");
        reveal_strlit("bridge_sudo_change");
        reveal_strlit("bridgeTransfer");
        reveal_strlit("bridge_transfer");
        reveal_strlit("ibc");
        reveal_strlit("ics20Withdrawal");
        reveal_strlit("ics20_withdrawal");
        reveal_strlit("sudoAddressChange");
        reveal_strlit("sudo_address_change");
        reveal_strlit("validatorUpdate");
        reveal_strlit("validator_update");
        reveal_strlit("ibcRelayerChange");
        reveal_strlit("ibc_relayer_change");
        reveal_strlit("feeAssetChange");
        reveal_strlit("fee_asset_change");
        reveal_strlit("feeChange");
        reveal_strlit("fee_change");
        reveal_strlit("ibcSudoChange");
        reveal_strlit("ibc_sudo_change");
        reveal_strlit("recoverIbcClient");
        reveal_strlit("recover_ibc_client");
        reveal_strlit("currencyPairsChange");
        reveal_strlit("currency_pairs_change");
        reveal_strlit("marketsChange");
        reveal_strlit("markets_change");
        reveal_strlit("createOrder");
        reveal_strlit("create_order");
        reveal_strlit("cancelOrder");
        reveal_strlit("cancel_order");
        reveal_strlit("createMarket");
        reveal_strlit("create_market");
        reveal_strlit("updateMarket");
        reveal_strlit("update_market");
        assert("transfer"@.len() == 8);
        assert("rollupDataSubmission"@.len() == 20);
        assert("rollup_data_submission"@.len() == 22);
        assert("initBridgeAccount"@.len() == 17);
        assert("init_bridge_account"@.len() == 19);
        assert("bridgeLock"@.len() == 10);
        assert("bridge_lock"@.len() == 11);
        assert("bridgeUnlock"@.len() == 12);
        assert("bridge_unlock"@.len() == 13);
        assert("bridgeSudoChange"@.len() == 16);
        assert("bridge_sudo_change"@.len() == 18);
        assert("bridgeTransfer"@.len() == 14);
        assert("bridge_transfer"@.len() == 15);
        assert("ibc"@.len() == 3);
        assert("ics20Withdrawal"@.len() == 15);
        assert("ics20_withdrawal"@.len() == 16);
        assert("sudoAddressChange"@.len() == 17);
        assert("sudo_address_change"@.len() == 19);
        assert("validatorUpdate"@.len() == 15);
        assert("validator_update"@.len() == 16);
        assert("ibcRelayerChange"@.len() == 16);
        assert("ibc_relayer_change"@.len() == 18);
        assert("feeAssetChange"@.len() == 14);
        assert("fee_asset_change"@.len() == 16);
        assert("feeChange"@.len() == 9);
        assert("fee_change"@.len() == 10);
        assert("ibcSudoChange"@.len() == 13);
        assert("ibc_sudo_change"@.len() == 15);
        assert("recoverIbcClient"@.len() == 16);
        assert("recover_ibc_client"@.len() == 18);
        assert("currencyPairsChange"@.len() == 19);
        assert("currency_pairs_change"@.len() == 21);
        assert("marketsChange"@.len() == 13);
        assert("markets_change"@.len() == 14);
        assert("createOrder"@.len() == 11);
        assert("create_order"@.len() == 12);
        assert("cancelOrder"@.len() == 11);
        assert("cancel_order"@.len() == 12);
        assert("createMarket"@.len() == 12);
        assert("create_market"@.len() == 13);
        assert("updateMarket"@.len() == 12);
        assert("update_market"@.len() == 13);
        assert("initBridgeAccount"@[0] != "sudoAddressChange"@[0]);
        assert("init_bridge_account"@[0] != "sudo_address_change"@[0]);
        assert("init_bridge_account"@[0] != "currencyPairsChange"@[0]);
        assert("bridgeLock"@[0] != "fee_change"@[0]);
        assert("bridge_lock"@[0] != "createOrder"@[0]);
        assert("bridge_lock"@[0] != "cancelOrder"@[0]);
        assert("bridgeUnlock"@[0] != "create_order"@[0]);
        assert("bridgeUnlock"@[0] != "cancel_order"@[0]);
        assert("bridgeUnlock"@[0] != "createMarket"@[0]);
        assert("bridgeUnlock"@[0] != "updateMarket"@[0]);
        assert("bridge_unlock"@[0] != "ibcSudoChange"@[0]);
        assert("bridge_unlock"@[0] != "marketsChange"@[0]);
        assert("bridge_unlock"@[0] != "create_market"@[0]);
        assert("bridge_unlock"@[0] != "update_market"@[0]);
        assert("bridgeSudoChange"@[0] != "ics20_withdrawal"@[0]);
        assert("bridgeSudoChange"@[0] != "validator_update"@[0]);
        assert("bridgeSudoChange"@[0] != "ibcRelayerChange"@[0]);
        assert("bridgeSudoChange"@[0] != "fee_asset_change"@[0]);
        assert("bridgeSudoChange"@[0] != "recoverIbcClient"@[0]);
        assert("bridge_sudo_change"@[0] != "ibc_relayer_change"@[0]);
        assert("bridge_sudo_change"@[0] != "recover_ibc_client"@[0]);
        assert("bridgeTransfer"@[0] != "feeAssetChange"@[0]);
        assert("bridgeTransfer"@[0] != "markets_change"@[0]);
        assert("bridge_transfer"@[0] != "ics20Withdrawal"@[0]);
        assert("bridge_transfer"@[0] != "validatorUpdate"@[0]);
        assert("bridge_transfer"@[0] != "ibc_sudo_change"@[0]);
        assert("ics20Withdrawal"@[0] != "validatorUpdate"@[0]);
        assert("ics20Withdrawal"@[1] != "ibc_sudo_change"@[1]);
        assert("ics20_withdrawal"@[0] != "validator_update"@[0]);
        assert("ics20_withdrawal"@[1] != "ibcRelayerChange"@[1]);
        assert("ics20_withdrawal"@[0] != "fee_asset_change"@[0]);
        assert("ics20_withdrawal"@[0] != "recoverIbcClient"@[0]);
        assert("sudo_address_change"@[0] != "currencyPairsChange"@[0]);
        assert("validatorUpdate"@[0] != "ibc_sudo_change"@[0]);
        assert("validator_update"@[0] != "ibcRelayerChange"@[0]);
        assert("validator_update"@[0] != "fee_asset_change"@[0]);
        assert("validator_update"@[0] != "recoverIbcClient"@[0]);
        assert("ibcRelayerChange"@[0] != "fee_asset_change"@[0]);
        assert("ibcRelayerChange"@[0] != "recoverIbcClient"@[0]);
        assert("ibc_relayer_change"@[0] != "recover_ibc_client"@[0]);
        assert("feeAssetChange"@[0] != "markets_change"@[0]);
        assert("fee_asset_change"@[0] != "recoverIbcClient"@[0]);
        assert("ibcSudoChange"@[0] != "marketsChange"@[0]);
        assert("ibcSudoChange"@[0] != "create_market"@[0]);
        assert("ibcSudoChange"@[0] != "update_market"@[0]);
        assert("marketsChange"@[0] != "create_market"@[0]);
        assert("marketsChange"@[0] != "update_market"@[0]);
        assert("createOrder"@[1] != "cancelOrder"@[1]);
        assert("create_order"@[1] != "cancel_order"@[1]);
        assert("create_order"@[6] != "createMarket"@[6]);
        assert("create_order"@[0] != "updateMarket"@[0]);
        assert("cancel_order"@[1] != "createMarket"@[1]);
        assert("cancel_order"@[0] != "updateMarket"@[0]);
        assert("createMarket"@[0] != "updateMarket"@[0]);
        assert("create_market"@[0] != "update_market"@[0]);
        lemma_fold_entry_if(Self::spec_start(), true, "feeAssetChange"@, JsonV::Object(es), Self::step_fn());
        lemma_fold_entry_if(Self::spec_start(), true, "fee_asset_change"@, JsonV::Object(es), Self::step_fn());
        lemma_fold_entry_if(Self::spec_start(), true, "feeAssetChange"@, JsonV::Null, Self::step_fn());
        lemma_fold_entry_if(Self::spec_start(), true, "fee_asset_change"@, JsonV::Null, Self::step_fn());
    }

    /// The field `fee_change` alone: an object with one member under its JSON or protobuf
    /// name reads as the message with that field set and every other field at its
    /// default, and the message with only that field off its default writes that
    /// one member under the JSON name.
    pub proof fn lemma_member_fee_change(x: FeeChangeV, es: Seq<(Seq<char>, JsonV)>)
        ensures
            Self::spec_from_json(JsonV::Object(seq![("feeChange"@, JsonV::Object(es))])) == (match FeeChange::spec_from_json(JsonV::Object(es)) { Ok(y) => Ok::<ActionV, JsonErrorV>(ActionV { value: Some(action::ValueV::FeeChange(y)) }), Err(e) => Err(e) }),
            Self::spec_from_json(JsonV::Object(seq![("fee_change"@, JsonV::Object(es))])) == (match FeeChange::spec_from_json(JsonV::Object(es)) { Ok(y) => Ok::<ActionV, JsonErrorV>(ActionV { value: Some(action::ValueV::FeeChange(y)) }), Err(e) => Err(e) }),
            Self::spec_from_json(JsonV::Object(seq![("feeChange"@, JsonV::Null)])) == Ok::<ActionV, JsonErrorV>(Self::spec_default()),
            Self::spec_from_json(JsonV::Object(seq![("fee_change"@, JsonV::Null)])) == Ok::<ActionV, JsonErrorV>(Self::spec_default()),
            Self::spec_to_json(ActionV { value: Some(action::ValueV::FeeChange(x)) }) == JsonV::Object(seq![("feeChange"@, FeeChange::spec_to_json(x))]),
    {
        reveal_strlit("transfer");
        reveal_strlit("rollupDataSubmission");
        reveal_strlit("rollup_data_submission");
        reveal_strlit("initBridgeAccount");
        reveal_strlit("init_bridge_account");
        reveal_strlit("bridgeLock");
        reveal_strlit("bridge_lock");
        reveal_strlit("bridgeUnlock");
        reveal_strlit("bridge_unlock");
        reveal_strlit("bridgeSudoChange");
        reveal_strlit("bridge_sudo_change");
        reveal_strlit("bridgeTransfer");
        reveal_strlit("bridge_transfer");
        reveal_strlit("ibc");
        reveal_strlit("ics20Withdrawal");
        reveal_strlit("ics20_withdrawal");
        reveal_strlit("sudoAddressChange");
        reveal_strlit("sudo_address_change");
        reveal_strlit("validatorUpdate");
        reveal_strlit("validator_update");
        reveal_strlit("ibcRelayerChange");
        reveal_strlit("ibc_relayer_change");
        reveal_strlit("feeAssetChange");
        reveal_strlit("fee_asset_change");
        reveal_strlit("feeChange");
        reveal_strlit("fee_change");
        reveal_strlit("ibcSudoChange");
        reveal_strlit("ibc_sudo_change");
        reveal_strlit("recoverIbcClient");
        reveal_strlit("recover_ibc_client");
        reveal_strlit("currencyPairsChange");
        reveal_strlit("currency_pairs_change");
        reveal_strlit("marketsChange");
        reveal_strlit("markets_change");
        reveal_strlit("createOrder");
        reveal_strlit("create_order");
        reveal_strlit("cancelOrder");
        reveal_strlit("cancel_order");
        reveal_strlit("createMarket");
        reveal_strlit("create_market");
        reveal_strlit("updateMarket");
        reveal_strlit("update_market");
        assert("transfer"@.len() == 8);
        assert("rollupDataSubmission"@.len() == 20);
        assert("rollup_data_submission"@.len() == 22);
        assert("initBridgeAccount"@.len() == 17);
        assert("init_bridge_account"@.len() == 19);
        assert("bridgeLock"@.len() == 10);
        assert("bridge_lock"@.len() == 11);
        assert("bridgeUnlock"@.len() == 12);
        assert("bridge_unlock"@.len() == 13);
        assert("bridgeSudoChange"@.len() == 16);
        assert("bridge_sudo_change"@.len() == 18);
        assert("bridgeTransfer"@.len() == 14);
        assert("bridge_transfer"@.len() == 15);
        assert("ibc"@.len() == 3);
        assert("ics20Withdrawal"@.len() == 15);
        assert("ics20_withdrawal"@.len() == 16);
        assert("sudoAddressChange"@.len() == 17);
        assert("sudo_address_change"@.len() == 19);
        assert("validatorUpdate"@.len() == 15);
        assert("validator_update"@.len() == 16);
        assert("ibcRelayerChange"@.len() == 16);
        assert("ibc_relayer_change"@.len() == 18);
        assert("feeAssetChange"@.len() == 14);
        assert("fee_asset_change"@.len() == 16);
        assert("feeChange"@.len() == 9);
        assert("fee_change"@.len() == 10);
        assert("ibcSudoChange"@.len() == 13);
        assert("ibc_sudo_change"@.len() == 15);
        assert("recoverIbcClient"@.len() == 16);
        assert("recover_ibc_client"@.len() == 18);
        assert("currencyPairsChange"@.len() == 19);
        assert("currency_pairs_change"@.len() == 21);
        assert("marketsChange"@.len() == 13);
        assert("markets_change"@.len() == 14);
        assert("createOrder"@.len() == 11);
        assert("create_order"@.len() == 12);
        assert("cancelOrder"@.len() == 11);
        assert("cancel_order"@.len() == 12);
        assert("createMarket"@.len() == 12);
        assert("create_market"@.len() == 13);
        assert("updateMarket"@.len() == 12);
        assert("update_market"@.len() == 13);
        assert("initBridgeAccount"@[0] != "sudoAddressChange"@[0]);
        assert("init_bridge_account"@[0] != "sudo_address_change"@[0]);
        assert("init_bridge_account"@[0] != "currencyPairsChange"@[0]);
        assert("bridgeLock"@[0] != "fee_change"@[0]);
        assert("bridge_lock"@[0] != "createOrder"@[0]);
        assert("bridge_lock"@[0] != "cancelOrder"@[0]);
        assert("bridgeUnlock"@[0] != "create_order"@[0]);
        assert("bridgeUnlock"@[0] != "cancel_order"@[0]);
        assert("bridgeUnlock"@[0] != "createMarket"@[0]);
        assert("bridgeUnlock"@[0] != "updateMarket"@[0]);
        assert("bridge_unlock"@[0] != "ibcSudoChange"@[0]);
        assert("bridge_unlock"@[0] != "marketsChange"@[0]);
        assert("bridge_unlock"@[0] != "create_market"@[0]);
        assert("bridge_unlock"@[0] != "update_market"@[0]);
        assert("bridgeSudoChange"@[0] != "ics20_withdrawal"@[0]);
        assert("bridgeSudoChange"@[0] != "validator_update"@[0]);
        assert("bridgeSudoChange"@[0] != "ibcRelayerChange"@[0]);
        assert("bridgeSudoChange"@[0] != "fee_asset_change"@[0]);
        assert("bridgeSudoChange"@[0] != "recoverIbcClient"@[0]);
        assert("bridge_sudo_change"@[0] != "ibc_relayer_change"@[0]);
        assert("bridge_sudo_change"@[0] != "recover_ibc_client"@[0]);
        assert("bridgeTransfer"@[0] != "feeAssetChange"@[0]);
        assert("bridgeTransfer"@[0] != "markets_change"@[0]);
        assert("bridge_transfer"@[0] != "ics20Withdrawal"@[0]);
        assert("bridge_transfer"@[0] != "validatorUpdate"@[0]);
        assert("bridge_transfer"@[0] != "ibc_sudo_change"@[0]);
        assert("ics20Withdrawal"@[0] != "validatorUpdate"@[0]);
        assert("ics20Withdrawal"@[1] != "ibc_sudo_change"@[1]);
        assert("ics20_withdrawal"@[0] != "validator_update"@[0]);
        assert("ics20_withdrawal"@[1] != "ibcRelayerChange"@[1]);
        assert("ics20_withdrawal"@[0] != "fee_asset_change"@[0]);
        assert("ics20_withdrawal"@[0] != "recoverIbcClient"@[0]);
        assert("sudo_address_change"@[0] != "currencyPairsChange"@[0]);
        assert("validatorUpdate"@[0] != "ibc_sudo_change"@[0]);
        assert("validator_update"@[0] != "ibcRelayerChange"@[0]);
        assert("validator_update"@[0] != "fee_asset_change"@[0]);
        assert("validator_update"@[0] != "recoverIbcClient"@[0]);
        assert("ibcRelayerChange"@[0] != "fee_asset_change"@[0]);
        assert("ibcRelayerChange"@[0] != "recoverIbcClient"@[0]);
        assert("ibc_relayer_change"@[0] != "recover_ibc_client"@[0]);
        assert("feeAssetChange"@[0] != "markets_change"@[0]);
        assert("fee_asset_change"@[0] != "recoverIbcClient"@[0]);
        assert("ibcSudoChange"@[0] != "marketsChange"@[0]);
        assert("ibcSudoChange"@[0] != "create_market"@[0]);
        assert("ibcSudoChange"@[0] != "update_market"@[0]);
        assert("marketsChange"@[0] != "create_market"@[0]);
        assert("marketsChange"@[0] != "update_market"@[0]);
        assert("createOrder"@[1] != "cancelOrder"@[1]);
        assert("create_order"@[1] != "cancel_order"@[1]);
        assert("create_order"@[6] != "createMarket"@[6]);
        assert("create_order"@[0] != "updateMarket"@[0]);
        assert("cancel_order"@[1] != "createMarket"@[1]);
        assert("cancel_order"@[0] != "updateMarket"@[0]);
        assert("createMarket"@[0] != "updateMarket"@[0]);
        assert("create_market"@[0] != "update_market"@[0]);
        lemma_fold_entry_if(Self::spec_start(), true, "feeChange"@, JsonV::Object(es), Self::step_fn());
        lemma_fold_entry_if(Self::spec_start(), true, "fee_change"@, JsonV::Object(es), Self::step_fn());
        lemma_fold_entry_if(Self::spec_start(), true, "feeChange"@, JsonV::Null, Self::step_fn());
        lemma_fold_entry_if(Self::spec_start(), true, "fee_change"@, JsonV::Null, Self::step_fn());
    }

    /// The field `ibc_sudo_change` alone: an object with one member under its JSON or protobuf
    /// name reads as the message with that field set and every other field at its
    /// default, and the message with only that field off its default writes that
    /// one member under the JSON name.
    pub proof fn lemma_member_ibc_sudo_change(x: IbcSudoChangeV, es: Seq<(Seq<char>, JsonV)>)
        ensures
            Self::spec_from_json(JsonV::Object(seq![("ibcSudoChange"@, JsonV::Object(es))])) == (match IbcSudoChange::spec_from_json(JsonV::Object(es)) { Ok(y) => Ok::<ActionV, JsonErrorV>(ActionV { value: Some(action::ValueV::IbcSudoChange(y)) }), Err(e) => Err(e) }),
            Self::spec_from_json(JsonV::Object(seq![("ibc_sudo_change"@, JsonV::Object(es))])) == (match IbcSudoChange::spec_from_json(JsonV::Object(es)) { Ok(y) => Ok::<ActionV, JsonErrorV>(ActionV { value: Some(action::ValueV::IbcSudoChange(y)) }), Err(e) => Err(e) }),
            Self::spec_from_json(JsonV::Object(seq![("ibcSudoChange"@, JsonV::Null)])) == Ok::<ActionV, JsonErrorV>(Self::spec_default()),
            Self::spec_from_json(JsonV::Object(seq![("ibc_sudo_change"@, JsonV::Null)])) == Ok::<ActionV, JsonErrorV>(Self::spec_default()),
            Self::spec_to_json(ActionV { value: Some(action::ValueV::IbcSudoChange(x)) }) == JsonV::Object(seq![("ibcSudoChange"@, IbcSudoChange::spec_to_json(x))]),
    {
        reveal_strlit("transfer");
        reveal_strlit("rollupDataSubmission");
        reveal_strlit("rollup_data_submission");
        reveal_strlit("initBridgeAccount");
        reveal_strlit("init_bridge_account");
        reveal_strlit("bridgeLock");
        reveal_strlit("bridge_lock");
        reveal_strlit("bridgeUnlock");
        reveal_strlit("bridge_unlock");
        reveal_strlit("bridgeSudoChange");
        reveal_strlit("bridge_sudo_change");
        reveal_strlit("bridgeTransfer");
        reveal_strlit("bridge_transfer");
        reveal_strlit("ibc");
        reveal_strlit("ics20Withdrawal");
        reveal_strlit("ics20_withdrawal");
        reveal_strlit("sudoAddressChange");
        reveal_strlit("sudo_address_change");
        reveal_strlit("validatorUpdate");
        reveal_strlit("validator_update");
        reveal_strlit("ibcRelayerChange");
        reveal_strlit("ibc_relayer_change");
        reveal_strlit("feeAssetChange");
        reveal_strlit("fee_asset_change");
        reveal_strlit("feeChange");
        reveal_strlit("fee_change");
        reveal_strlit("ibcSudoChange");
        reveal_strlit("ibc_sudo_change");
        reveal_strlit("recoverIbcClient");
        reveal_strlit("recover_ibc_client");
        reveal_strlit("currencyPairsChange");
        reveal_strlit("currency_pairs_change");
        reveal_strlit("marketsChange");
        reveal_strlit("markets_change");
        reveal_strlit("createOrder");
        reveal_strlit("create_order");
        reveal_strlit("cancelOrder");
        reveal_strlit("cancel_order");
        reveal_strlit("createMarket");
        reveal_strlit("create_market");
        reveal_strlit("updateMarket");
        reveal_strlit("update_market");
        assert("transfer"@.len() == 8);
        assert("rollupDataSubmission"@.len() == 20);
        assert("rollup_data_submission"@.len() == 22);
        assert("initBridgeAccount"@.len() == 17);
        assert("init_bridge_account"@.len() == 19);
        assert("bridgeLock"@.len() == 10);
        assert("bridge_lock"@.len() == 11);
        assert("bridgeUnlock"@.len() == 12);
        assert("bridge_unlock"@.len() == 13);
        assert("bridgeSudoChange"@.len() == 16);
        assert("bridge_sudo_change"@.len() == 18);
        assert("bridgeTransfer"@.len() == 14);
        assert("bridge_transfer"@.len() == 15);
        assert("ibc"@.len() == 3);
        assert("ics20Withdrawal"@.len() == 15);
        assert("ics20_withdrawal"@.len() == 16);
        assert("sudoAddressChange"@.len() == 17);
        assert("sudo_address_change"@.len() == 19);
        assert("validatorUpdate"@.len() == 15);
        assert("validator_update"@.len() == 16);
        assert("ibcRelayerChange"@.len() == 16);
        assert("ibc_relayer_change"@.len() == 18);
        assert("feeAssetChange"@.len() == 14);
        assert("fee_asset_change"@.len() == 16);
        assert("feeChange"@.len() == 9);
        assert("fee_change"@.len() == 10);
        assert("ibcSudoChange"@.len() == 13);
        assert("ibc_sudo_change"@.len() == 15);
        assert("recoverIbcClient"@.len() == 16);
        assert("recover_ibc_client"@.len() == 18);
        assert("currencyPairsChange"@.len() == 19);
        assert("currency_pairs_change"@.len() == 21);
        assert("marketsChange"@.len() == 13);
        assert("markets_change"@.len() == 14);
        assert("createOrder"@.len() == 11);
        assert("create_order"@.len() == 12);
        assert("cancelOrder"@.len() == 11);
        assert("cancel_order"@.len() == 12);
        assert("createMarket"@.len() == 12);
        assert("create_market"@.len() == 13);
        assert("updateMarket"@.len() == 12);
        assert("update_market"@.len() == 13);
        assert("initBridgeAccount"@[0] != "sudoAddressChange"@[0]);
        assert("init_bridge_account"@[0] != "sudo_address_change"@[0]);
        assert("init_bridge_account"@[0] != "currencyPairsChange"@[0]);
        assert("bridgeLock"@[0] != "fee_change"@[0]);
        assert("bridge_lock"@[0] != "createOrder"@[0]);
        assert("bridge_lock"@[0] != "cancelOrder"@[0]);
        assert("bridgeUnlock"@[0] != "create_order"@[0]);
        assert("bridgeUnlock"@[0] != "cancel_order"@[0]);
        assert("bridgeUnlock"@[0] != "createMarket"@[0]);
        assert("bridgeUnlock"@[0] != "updateMarket"@[0]);
        assert("bridge_unlock"@[0] != "ibcSudoChange"@[0]);
        assert("bridge_unlock"@[0] != "marketsChange"@[0]);
        assert("bridge_unlock"@[0] != "create_market"@[0]);
        assert("bridge_unlock"@[0] != "update_market"@[0]);
        assert("bridgeSudoChange"@[0] != "ics20_withdrawal"@[0]);
        assert("bridgeSudoChange"@[0] != "validator_update"@[0]);
        assert("bridgeSudoChange"@[0] != "ibcRelayerChange"@[0]);
        assert("bridgeSudoChange"@[0] != "fee_asset_change"@[0]);
        assert("bridgeSudoChange"@[0] != "recoverIbcClient"@[0]);
        assert("bridge_sudo_change"@[0] != "ibc_relayer_change"@[0]);
        assert("bridge_sudo_change"@[0] != "recover_ibc_client"@[0]);
        assert("bridgeTransfer"@[0] != "feeAssetChange"@[0]);
        assert("bridgeTransfer"@[0] != "markets_change"@[0]);
        assert("bridge_transfer"@[0] != "ics20Withdrawal"@[0]);
        assert("bridge_transfer"@[0] != "validatorUpdate"@[0]);
        assert("bridge_transfer"@[0] != "ibc_sudo_change"@[0]);
        assert("ics20Withdrawal"@[0] != "validatorUpdate"@[0]);
        assert("ics20Withdrawal"@[1] != "ibc_sudo_change"@[1]);
        assert("ics20_withdrawal"@[0] != "validator_update"@[0]);
        assert("ics20_withdrawal"@[1] != "ibcRelayerChange"@[1]);
        assert("ics20_withdrawal"@[0] != "fee_asset_change"@[0]);
        assert("ics20_withdrawal"@[0] != "recoverIbcClient"@[0]);
        assert("sudo_address_change"@[0] != "currencyPairsChange"@[0]);
        assert("validatorUpdate"@[0] != "ibc_sudo_change"@[0]);
        assert("validator_update"@[0] != "ibcRelayerChange"@[0]);
        assert("validator_update"@[0] != "fee_asset_change"@[0]);
        assert("validator_update"@[0] != "recoverIbcClient"@[0]);
        assert("ibcRelayerChange"@[0] != "fee_asset_change"@[0]);
        assert("ibcRelayerChange"@[0] != "recoverIbcClient"@[0]);
        assert("ibc_relayer_change"@[0] != "recover_ibc_client"@[0]);
        assert("feeAssetChange"@[0] != "markets_change"@[0]);
        assert("fee_asset_change"@[0] != "recoverIbcClient"@[0]);
        assert("ibcSudoChange"@[0] != "marketsChange"@[0]);
        assert("ibcSudoChange"@[0] != "create_market"@[0]);
        assert("ibcSudoChange"@[0] != "update_market"@[0]);
        assert("marketsChange"@[0] != "create_market"@[0]);
        assert("marketsChange"@[0] != "update_market"@[0]);
        assert("createOrder"@[1] != "cancelOrder"@[1]);
        assert("create_order"@[1] != "cancel_order"@[1]);
        assert("create_order"@[6] != "createMarket"@[6]);
        assert("create_order"@[0] != "updateMarket"@[0]);
        assert("cancel_order"@[1] != "createMarket"@[1]);
        assert("cancel_order"@[0] != "updateMarket"@[0]);
        assert("createMarket"@[0] != "updateMarket"@[0]);
        assert("create_market"@[0] != "update_market"@[0]);
        lemma_fold_entry_if(Self::spec_start(), true, "ibcSudoChange"@, JsonV::Object(es), Self::step_fn());
        lemma_fold_entry_if(Self::spec_start(), true, "ibc_sudo_change"@, JsonV::Object(es), Self::step_fn());
        lemma_fold_entry_if(Self::spec_start(), true, "ibcSudoChange"@, JsonV::Null, Self::step_fn());
        lemma_fold_entry_if(Self::spec_start(), true, "ibc_sudo_change"@, JsonV::Null, Self::step_fn());
    }

    /// The field `recover_ibc_client` alone: an object with one member under its JSON or protobuf
    /// name reads as the message with that field set and every other field at its
    /// default, and the message with only that field off its default writes that
    /// one member under the JSON name.
    pub proof fn lemma_member_recover_ibc_client(x: RecoverIbcClientV, es: Seq<(Seq<char>, JsonV)>)
        ensures
            Self::spec_from_json(JsonV::Object(seq![("recoverIbcClient"@, JsonV::Object(es))])) == (match RecoverIbcClient::spec_from_json(JsonV::Object(es)) { Ok(y) => Ok::<ActionV, JsonErrorV>(ActionV { value: Some(action::ValueV::RecoverIbcClient(y)) }), Err(e) => Err(e) }),
            Self::spec_from_json(JsonV::Object(seq![("recover_ibc_client"@, JsonV::Object(es))])) == (match RecoverIbcClient::spec_from_json(JsonV::Object(es)) { Ok(y) => Ok::<ActionV, JsonErrorV>(ActionV { value: Some(action::ValueV::RecoverIbcClient(y)) }), Err(e) => Err(e) }),
            Self::spec_from_json(JsonV::Object(seq![("recoverIbcClient"@, JsonV::Null)])) == Ok::<ActionV, JsonErrorV>(Self::spec_default()),
            Self::spec_from_json(JsonV::Object(seq![("recover_ibc_client"@, JsonV::Null)])) == Ok::<ActionV, JsonErrorV>(Self::spec_default()),
            Self::spec_to_json(ActionV { value: Some(action::ValueV::RecoverIbcClient(x)) }) == JsonV::Object(seq![("recoverIbcClient"@, RecoverIbcClient::spec_to_json(x))]),
    {
        reveal_strlit("transfer");
        reveal_strlit("rollupDataSubmission");
        reveal_strlit("rollup_data_submission");
        reveal_strlit("initBridgeAccount");
        reveal_strlit("init_bridge_account");
        reveal_strlit("bridgeLock");
        reveal_strlit("bridge_lock");
        reveal_strlit("bridgeUnlock");
        reveal_strlit("bridge_unlock");
        reveal_strlit("bridgeSudoChange");
        reveal_strlit("bridge_sudo_change");
        reveal_strlit("bridgeTransfer");
        reveal_strlit("bridge_transfer");
        reveal_strlit("ibc");
        reveal_strlit("ics20Withdrawal");
        reveal_strlit("ics20_withdrawal");
        reveal_strlit("sudoAddressChange");
        reveal_strlit("sudo_address_change");
        reveal_strlit("validatorUpdate");
        reveal_strlit("validator_update");
        reveal_strlit("ibcRelayerChange");
        reveal_strlit("ibc_relayer_change");
        reveal_strlit("feeAssetChange");
        reveal_strlit("fee_asset_change");
        reveal_strlit("feeChange");
        reveal_strlit("fee_change");
        reveal_strlit("ibcSudoChange");
        reveal_strlit("ibc_sudo_change");
        reveal_strlit("recoverIbcClient");
        reveal_strlit("recover_ibc_client");
        reveal_strlit("currencyPairsChange");
        reveal_strlit("currency_pairs_change");
        reveal_strlit("marketsChange");
        reveal_strlit("markets_change");
        reveal_strlit("createOrder");
        reveal_strlit("create_order");
        reveal_strlit("cancelOrder");
        reveal_strlit("cancel_order");
        reveal_strlit("createMarket");
        reveal_strlit("create_market");
        reveal_strlit("updateMarket");
        reveal_strlit("update_market");
        assert("transfer"@.len() == 8);
        assert("rollupDataSubmission"@.len() == 20);
        assert("rollup_data_submission"@.len() == 22);
        assert("initBridgeAccount"@.len() == 17);
        assert("init_bridge_account"@.len() == 19);
        assert("bridgeLock"@.len() == 10);
        assert("bridge_lock"@.len() == 11);
        assert("bridgeUnlock"@.len() == 12);
        assert("bridge_unlock"@.len() == 13);
        assert("bridgeSudoChange"@.len() == 16);
        assert("bridge_sudo_change"@.len() == 18);
        assert("bridgeTransfer"@.len() == 14);
        assert("bridge_transfer"@.len() == 15);
        assert("ibc"@.len() == 3);
        assert("ics20Withdrawal"@.len() == 15);
        assert("ics20_withdrawal"@.len() == 16);
        assert("sudoAddressChange"@.len() == 17);
        assert("sudo_address_change"@.len() == 19);
        assert("validatorUpdate"@.len() == 15);
        assert("validator_update"@.len() == 16);
        assert("ibcRelayerChange"@.len() == 16);
        assert("ibc_relayer_change"@.len() == 18);
        assert("feeAssetChange"@.len() == 14);
        assert("fee_asset_change"@.len() == 16);
        assert("feeChange"@.len() == 9);
        assert("fee_change"@.len() == 10);
        assert("ibcSudoChange"@.len() == 13);
        assert("ibc_sudo_change"@.len() == 15);
        assert("recoverIbcClient"@.len() == 16);
        assert("recover_ibc_client"@.len() == 18);
        assert("currencyPairsChange"@.len() == 19);
        assert("currency_pairs_change"@.len() == 21);
        assert("marketsChange"@.len() == 13);
        assert("markets_change"@.len() == 14);
        assert("createOrder"@.len() == 11);
        assert("create_order"@.len() == 12);
        assert("cancelOrder"@.len() == 11);
        assert("cancel_order"@.len() == 12);
        assert("createMarket"@.len() == 12);
        assert("create_market"@.len() == 13);
        assert("updateMarket"@.len() == 12);
        assert("update_market"@.len() == 13);
        assert("initBridgeAccount"@[0] != "sudoAddressChange"@[0]);
        assert("init_bridge_account"@[0] != "sudo_address_change"@[0]);
        assert("init_bridge_account"@[0] != "currencyPairsChange"@[0]);
        assert("bridgeLock"@[0] != "fee_change"@[0]);
        assert("bridge_lock"@[0] != "createOrder"@[0]);
        assert("bridge_lock"@[0] != "cancelOrder"@[0]);
        assert("bridgeUnlock"@[0] != "create_order"@[0]);
        assert("bridgeUnlock"@[0] != "cancel_order"@[0]);
        assert("bridgeUnlock"@[0] != "createMarket"@[0]);
        assert("bridgeUnlock"@[0] != "updateMarket"@[0]);
        assert("bridge_unlock"@[0] != "ibcSudoChange"@[0]);
        assert("bridge_unlock"@[0] != "marketsChange"@[0]);
        assert("bridge_unlock"@[0] != "create_market"@[0]);
        assert("bridge_unlock"@[0] != "update_market"@[0]);
        assert("bridgeSudoChange"@[0] != "ics20_withdrawal"@[0]);
        assert("bridgeSudoChange"@[0] != "validator_update"@[0]);
        assert("bridgeSudoChange"@[0] != "ibcRelayerChange"@[0]);
        assert("bridgeSudoChange"@[0] != "fee_asset_change"@[0]);
        assert("bridgeSudoChange"@[0] != "recoverIbcClient"@[0]);
        assert("bridge_sudo_change"@[0] != "ibc_relayer_change"@[0]);
        assert("bridge_sudo_change"@[0] != "recover_ibc_client"@[0]);
        assert("bridgeTransfer"@[0] != "feeAssetChange"@[0]);
        assert("bridgeTransfer"@[0] != "markets_change"@[0]);
        assert("bridge_transfer"@[0] != "ics20Withdrawal"@[0]);
        assert("bridge_transfer"@[0] != "validatorUpdate"@[0]);
        assert("bridge_transfer"@[0] != "ibc_sudo_change"@[0]);
        assert("ics20Withdrawal"@[0] != "validatorUpdate"@[0]);
        assert("ics20Withdrawal"@[1] != "ibc_sudo_change"@[1]);
        assert("ics20_withdrawal"@[0] != "validator_update"@[0]);
        assert("ics20_withdrawal"@[1] != "ibcRelayerChange"@[1]);
        assert("ics20_withdrawal"@[0] != "fee_asset_change"@[0]);
        assert("ics20_withdrawal"@[0] != "recoverIbcClient"@[0]);
        assert("sudo_address_change"@[0] != "currencyPairsChange"@[0]);
        assert("validatorUpdate"@[0] != "ibc_sudo_change"@[0]);
        assert("validator_update"@[0] != "ibcRelayerChange"@[0]);
        assert("validator_update"@[0] != "fee_asset_change"@[0]);
        assert("validator_update"@[0] != "recoverIbcClient"@[0]);
        assert("ibcRelayerChange"@[0] != "fee_asset_change"@[0]);
        assert("ibcRelayerChange"@[0] != "recoverIbcClient"@[0]);
        assert("ibc_relayer_change"@[0] != "recover_ibc_client"@[0]);
        assert("feeAssetChange"@[0] != "markets_change"@[0]);
        assert("fee_asset_change"@[0] != "recoverIbcClient"@[0]);
        assert("ibcSudoChange"@[0] != "marketsChange"@[0]);
        assert("ibcSudoChange"@[0] != "create_market"@[0]);
        assert("ibcSudoChange"@[0] != "update_market"@[0]);
        assert("marketsChange"@[0] != "create_market"@[0]);
        assert("marketsChange"@[0] != "update_market"@[0]);
        assert("createOrder"@[1] != "cancelOrder"@[1]);
        assert("create_order"@[1] != "cancel_order"@[1]);
        assert("create_order"@[6] != "createMarket"@[6]);
        assert("create_order"@[0] != "updateMarket"@[0]);
        assert("cancel_order"@[1] != "createMarket"@[1]);
        assert("cancel_order"@[0] != "updateMarket"@[0]);
        assert("createMarket"@[0] != "updateMarket"@[0]);
        assert("create_market"@[0] != "update_market"@[0]);
        lemma_fold_entry_if(Self::spec_start(), true, "recoverIbcClient"@, JsonV::Object(es), Self::step_fn());
        lemma_fold_entry_if(Self::spec_start(), true, "recover_ibc_client"@, JsonV::Object(es), Self::step_fn());
        lemma_fold_entry_if(Self::spec_start(), true, "recoverIbcClient"@, JsonV::Null, Self::step_fn());
        lemma_fold_entry_if(Self::spec_start(), true, "recover_ibc_client"@, JsonV::Null, Self::step_fn());
    }

    /// The field `currency_pairs_change` alone: an object with one member under its JSON or protobuf
    /// name reads as the message with that field set and every other field at its
    /// default, and the message with only that field off its default writes that
    /// one member under the JSON name.
    pub proof fn lemma_member_currency_pairs_change(x: CurrencyPairsChangeV, es: Seq<(Seq<char>, JsonV)>)
        ensures
            Self::spec_from_json(JsonV::Object(seq![("currencyPairsChange"@, JsonV::Object(es))])) == (match CurrencyPairsChange::spec_from_json(JsonV::Object(es)) { Ok(y) => Ok::<ActionV, JsonErrorV>(ActionV { value: Some(action::ValueV::CurrencyPairsChange(y)) }), Err(e) => Err(e) }),
            Self::spec_from_json(JsonV::Object(seq![("currency_pairs_change"@, JsonV::Object(es))])) == (match CurrencyPairsChange::spec_from_json(JsonV::Object(es)) { Ok(y) => Ok::<ActionV, JsonErrorV>(ActionV { value: Some(action::ValueV::CurrencyPairsChange(y)) }), Err(e) => Err(e) }),
            Self::spec_from_json(JsonV::Object(seq![("currencyPairsChange"@, JsonV::Null)])) == Ok::<ActionV, JsonErrorV>(Self::spec_default()),
            Self::spec_from_json(JsonV::Object(seq![("currency_pairs_change"@, JsonV::Null)])) == Ok::<ActionV, JsonErrorV>(Self::spec_default()),
            Self::spec_to_json(ActionV { value: Some(action::ValueV::CurrencyPairsChange(x)) }) == JsonV::Object(seq![("currencyPairsChange"@, CurrencyPairsChange::spec_to_json(x))]),
    {
        reveal_strlit("transfer");
        reveal_strlit("rollupDataSubmission");
        reveal_strlit("rollup_data_submission");
        reveal_strlit("initBridgeAccount");
        reveal_strlit("init_bridge_account");
        reveal_strlit("bridgeLock");
        reveal_strlit("bridge_lock");
        reveal_strlit("bridgeUnlock");
        reveal_strlit("bridge_unlock");
        reveal_strlit("bridgeSudoChange");
        reveal_strlit("bridge_sudo_change");
        reveal_strlit("bridgeTransfer");
        reveal_strlit("bridge_transfer");
        reveal_strlit("ibc");
        reveal_strlit("ics20Withdrawal");
        reveal_strlit("ics20_withdrawal");
        reveal_strlit("sudoAddressChange");
        reveal_strlit("sudo_address_change");
        reveal_strlit("validatorUpdate");
        reveal_strlit("validator_update");
        reveal_strlit("ibcRelayerChange");
        reveal_strlit("ibc_relayer_change");
        reveal_strlit("feeAssetChange");
        reveal_strlit("fee_asset_change");
        reveal_strlit("feeChange");
        reveal_strlit("fee_change");
        reveal_strlit("ibcSudoChange");
        reveal_strlit("ibc_sudo_change");
        reveal_strlit("recoverIbcClient");
        reveal_strlit("recover_ibc_client");
        reveal_strlit("currencyPairsChange");
        reveal_strlit("currency_pairs_change");
        reveal_strlit("marketsChange");
        reveal_strlit("markets_change");
        reveal_strlit("createOrder");
        reveal_strlit("create_order");
        reveal_strlit("cancelOrder");
        reveal_strlit("cancel_order");
        reveal_strlit("createMarket");
        reveal_strlit("create_market");
        reveal_strlit("updateMarket");
        reveal_strlit("update_market");
        assert("transfer"@.len() == 8);
        assert("rollupDataSubmission"@.len() == 20);
        assert("rollup_data_submission"@.len() == 22);
        assert("initBridgeAccount"@.len() == 17);
        assert("init_bridge_account"@.len() == 19);
        assert("bridgeLock"@.len() == 10);
        assert("bridge_lock"@.len() == 11);
        assert("bridgeUnlock"@.len() == 12);
        assert("bridge_unlock"@.len() == 13);
        assert("bridgeSudoChange"@.len() == 16);
        assert("bridge_sudo_change"@.len() == 18);
        assert("bridgeTransfer"@.len() == 14);
        assert("bridge_transfer"@.len() == 15);
        assert("ibc"@.len() == 3);
        assert("ics20Withdrawal"@.len() == 15);
        assert("ics20_withdrawal"@.len() == 16);
        assert("sudoAddressChange"@.len() == 17);
        assert("sudo_address_change"@.len() == 19);
        assert("validatorUpdate"@.len() == 15);
        assert("validator_update"@.len() == 16);
        assert("ibcRelayerChange"@.len() == 16);
        assert("ibc_relayer_change"@.len() == 18);
        assert("feeAssetChange"@.len() == 14);
        assert("fee_asset_change"@.len() == 16);
        assert("feeChange"@.len() == 9);
        assert("fee_change"@.len() == 10);
        assert("ibcSudoChange"@.len() == 13);
        assert("ibc_sudo_change"@.len() == 15);
        assert("recoverIbcClient"@.len() == 16);
        assert("recover_ibc_client"@.len() == 18);
        assert("currencyPairsChange"@.len() == 19);
        assert("currency_pairs_change"@.len() == 21);
        assert("marketsChange"@.len() == 13);
        assert("markets_change"@.len() == 14);
        assert("createOrder"@.len() == 11);
        assert("create_order"@.len() == 12);
        assert("cancelOrder"@.len() == 11);
        assert("cancel_order"@.len() == 12);
        assert("createMarket"@.len() == 12);
        assert("create_market"@.len() == 13);
        assert("updateMarket"@.len() == 12);
        assert("update_market"@.len() == 13);
        assert("initBridgeAccount"@[0] != "sudoAddressChange"@[0]);
        assert("init_bridge_account"@[0] != "sudo_address_change"@[0]);
        assert("init_bridge_account"@[0] != "currencyPairsChange"@[0]);
        assert("bridgeLock"@[0] != "fee_change"@[0]);
        assert("bridge_lock"@[0] != "createOrder"@[0]);
        assert("bridge_lock"@[0] != "cancelOrder"@[0]);
        assert("bridgeUnlock"@[0] != "create_order"@[0]);
        assert("bridgeUnlock"@[0] != "cancel_order"@[0]);
        assert("bridgeUnlock"@[0] != "createMarket"@[0]);
        assert("bridgeUnlock"@[0] != "updateMarket"@[0]);
        assert("bridge_unlock"@[0] != "ibcSudoChange"@[0]);
        assert("bridge_unlock"@[0] != "marketsChange"@[0]);
        assert("bridge_unlock"@[0] != "create_market"@[0]);
        assert("bridge_unlock"@[0] != "update_market"@[0]);
        assert("bridgeSudoChange"@[0] != "ics20_withdrawal"@[0]);
        assert("bridgeSudoChange"@[0] != "validator_update"@[0]);
        assert("bridgeSudoChange"@[0] != "ibcRelayerChange"@[0]);
        assert("bridgeSudoChange"@[0] != "fee_asset_change"@[0]);
        assert("bridgeSudoChange"@[0] != "recoverIbcClient"@[0]);
        assert("bridge_sudo_change"@[0] != "ibc_relayer_change"@[0]);
        assert("bridge_sudo_change"@[0] != "recover_ibc_client"@[0]);
        assert("bridgeTransfer"@[0] != "feeAssetChange"@[0]);
        assert("bridgeTransfer"@[0] != "markets_change"@[0]);
        assert("bridge_transfer"@[0] != "ics20Withdrawal"@[0]);
        assert("bridge_transfer"@[0] != "validatorUpdate"@[0]);
        assert("bridge_transfer"@[0] != "ibc_sudo_change"@[0]);
        assert("ics20Withdrawal"@[0] != "validatorUpdate"@[0]);
        assert("ics20Withdrawal"@[1] != "ibc_sudo_change"@[1]);
        assert("ics20_withdrawal"@[0] != "validator_update"@[0]);
        assert("ics20_withdrawal"@[1] != "ibcRelayerChange"@[1]);
        assert("ics20_withdrawal"@[0] != "fee_asset_change"@[0]);
        assert("ics20_withdrawal"@[0] != "recoverIbcClient"@[0]);
        assert("sudo_address_change"@[0] != "currencyPairsChange"@[0]);
        assert("validatorUpdate"@[0] != "ibc_sudo_change"@[0]);
        assert("validator_update"@[0] != "ibcRelayerChange"@[0]);
        assert("validator_update"@[0] != "fee_asset_change"@[0]);
        assert("validator_update"@[0] != "recoverIbcClient"@[0]);
        assert("ibcRelayerChange"@[0] != "fee_asset_change"@[0]);
        assert("ibcRelayerChange"@[0] != "recoverIbcClient"@[0]);
        assert("ibc_relayer_change"@[0] != "recover_ibc_client"@[0]);
        assert("feeAssetChange"@[0] != "markets_change"@[0]);
        assert("fee_asset_change"@[0] != "recoverIbcClient"@[0]);
        assert("ibcSudoChange"@[0] != "marketsChange"@[0]);
        assert("ibcSudoChange"@[0] != "create_market"@[0]);
        assert("ibcSudoChange"@[0] != "update_market"@[0]);
        assert("marketsChange"@[0] != "create_market"@[0]);
        assert("marketsChange"@[0] != "update_market"@[0]);
        assert("createOrder"@[1] != "cancelOrder"@[1]);
        assert("create_order"@[1] != "cancel_order"@[1]);
        assert("create_order"@[6] != "createMarket"@[6]);
        assert("create_order"@[0] != "updateMarket"@[0]);
        assert("cancel_order"@[1] != "createMarket"@[1]);
        assert("cancel_order"@[0] != "updateMarket"@[0]);
        assert("createMarket"@[0] != "updateMarket"@[0]);
        assert("create_market"@[0] != "update_market"@[0]);
        lemma_fold_entry_if(Self::spec_start(), true, "currencyPairsChange"@, JsonV::Object(es), Self::step_fn());
        lemma_fold_entry_if(Self::spec_start(), true, "currency_pairs_change"@, JsonV::Object(es), Self::step_fn());
        lemma_fold_entry_if(Self::spec_start(), true, "currencyPairsChange"@, JsonV::Null, Self::step_fn());
        lemma_fold_entry_if(Self::spec_start(), true, "currency_pairs_change"@, JsonV::Null, Self::step_fn());
    }

    /// The field `markets_change` alone: an object with one member under its JSON or protobuf
    /// name reads as the message with that field set and every other field at its
    /// default, and the message with only that field off its default writes that
    /// one member under the JSON name.
    pub proof fn lemma_member_markets_change(x: MarketsChangeV, es: Seq<(Seq<char>, JsonV)>)
        ensures
            Self::spec_from_json(JsonV::Object(seq![("marketsChange"@, JsonV::Object(es))])) == (match MarketsChange::spec_from_json(JsonV::Object(es)) { Ok(y) => Ok::<ActionV, JsonErrorV>(ActionV { value: Some(action::ValueV::MarketsChange(y)) }), Err(e) => Err(e) }),
            Self::spec_from_json(JsonV::Object(seq![("markets_change"@, JsonV::Object(es))])) == (match MarketsChange::spec_from_json(JsonV::Object(es)) { Ok(y) => Ok::<ActionV, JsonErrorV>(ActionV { value: Some(action::ValueV::MarketsChange(y)) }), Err(e) => Err(e) }),
            Self::spec_from_json(JsonV::Object(seq![("marketsChange"@, JsonV::Null)])) == Ok::<ActionV, JsonErrorV>(Self::spec_default()),
            Self::spec_from_json(JsonV::Object(seq![("markets_change"@, JsonV::Null)])) == Ok::<ActionV, JsonErrorV>(Self::spec_default()),
            Self::spec_to_json(ActionV { value: Some(action::ValueV::MarketsChange(x)) }) == JsonV::Object(seq![("marketsChange"@, MarketsChange::spec_to_json(x))]),
    {
        reveal_strlit("transfer");
        reveal_strlit("rollupDataSubmission");
        reveal_strlit("rollup_data_submission");
        reveal_strlit("initBridgeAccount");
        reveal_strlit("init_bridge_account");
        reveal_strlit("bridgeLock");
        reveal_strlit("bridge_lock");
        reveal_strlit("bridgeUnlock");
        reveal_strlit("bridge_unlock");
        reveal_strlit("bridgeSudoChange");
        reveal_strlit("bridge_sudo_change");
        reveal_strlit("bridgeTransfer");
        reveal_strlit("bridge_transfer");
        reveal_strlit("ibc");
        reveal_strlit("ics20Withdrawal");
        reveal_strlit("ics20_withdrawal");
        reveal_strlit("sudoAddressChange");
        reveal_strlit("sudo_address_change");
        reveal_strlit("validatorUpdate");
        reveal_strlit("validator_update");
        reveal_strlit("ibcRelayerChange");
        reveal_strlit("ibc_relayer_change");
        reveal_strlit("feeAssetChange");
        reveal_strlit("fee_asset_change");
        reveal_strlit("feeChange");
        reveal_strlit("fee_change");
        reveal_strlit("ibcSudoChange");
        reveal_strlit("ibc_sudo_change");
        reveal_strlit("recoverIbcClient");
        reveal_strlit("recover_ibc_client");
        reveal_strlit("currencyPairsChange");
        reveal_strlit("currency_pairs_change");
        reveal_strlit("marketsChange");
        reveal_strlit("markets_change");
        reveal_strlit("createOrder");
        reveal_strlit("create_order");
        reveal_strlit("cancelOrder");
        reveal_strlit("cancel_order");
        reveal_strlit("createMarket");
        reveal_strlit("create_market");
        reveal_strlit("updateMarket");
        reveal_strlit("update_market");
        assert("transfer"@.len() == 8);
        assert("rollupDataSubmission"@.len() == 20);
        assert("rollup_data_submission"@.len() == 22);
        assert("initBridgeAccount"@.len() == 17);
        assert("init_bridge_account"@.len() == 19);
        assert("bridgeLock"@.len() == 10);
        assert("bridge_lock"@.len() == 11);
        assert("bridgeUnlock"@.len() == 12);
        assert("bridge_unlock"@.len() == 13);
        assert("bridgeSudoChange"@.len() == 16);
        assert("bridge_sudo_change"@.len() == 18);
        assert("bridgeTransfer"@.len() == 14);
        assert("bridge_transfer"@.len() == 15);
        assert("ibc"@.len() == 3);
        assert("ics20Withdrawal"@.len() == 15);
        assert("ics20_withdrawal"@.len() == 16);
        assert("sudoAddressChange"@.len() == 17);
        assert("sudo_address_change"@.len() == 19);
        assert("validatorUpdate"@.len() == 15);
        assert("validator_update"@.len() == 16);
        assert("ibcRelayerChange"@.len() == 16);
        assert("ibc_relayer_change"@.len() == 18);
        assert("feeAssetChange"@.len() == 14);
        assert("fee_asset_change"@.len() == 16);
        assert("feeChange"@.len() == 9);
        assert("fee_change"@.len() == 10);
        assert("ibcSudoChange"@.len() == 13);
        assert("ibc_sudo_change"@.len() == 15);
        assert("recoverIbcClient"@.len() == 16);
        assert("recover_ibc_client"@.len() == 18);
        assert("currencyPairsChange"@.len() == 19);
        assert("currency_pairs_change"@.len() == 21);
        assert("marketsChange"@.len() == 13);
        assert("markets_change"@.len() == 14);
        assert("createOrder"@.len() == 11);
        assert("create_order"@.len() == 12);
        assert("cancelOrder"@.len() == 11);
        assert("cancel_order"@.len() == 12);
        assert("createMarket"@.len() == 12);
        assert("create_market"@.len() == 13);
        assert("updateMarket"@.len() == 12);
        assert("update_market"@.len() == 13);
        assert("initBridgeAccount"@[0] != "sudoAddressChange"@[0]);
        assert("init_bridge_account"@[0] != "sudo_address_change"@[0]);
        assert("init_bridge_account"@[0] != "currencyPairsChange"@[0]);
        assert("bridgeLock"@[0] != "fee_change"@[0]);
        assert("bridge_lock"@[0] != "createOrder"@[0]);
        assert("bridge_lock"@[0] != "cancelOrder"@[0]);
        assert("bridgeUnlock"@[0] != "create_order"@[0]);
        assert("bridgeUnlock"@[0] != "cancel_order"@[0]);
        assert("bridgeUnlock"@[0] != "createMarket"@[0]);
        assert("bridgeUnlock"@[0] != "updateMarket"@[0]);
        assert("bridge_unlock"@[0] != "ibcSudoChange"@[0]);
        assert("bridge_unlock"@[0] != "marketsChange"@[0]);
        assert("bridge_unlock"@[0] != "create_market"@[0]);
        assert("bridge_unlock"@[0] != "update_market"@[0]);
        assert("bridgeSudoChange"@[0] != "ics20_withdrawal"@[0]);
        assert("bridgeSudoChange"@[0] != "validator_update"@[0]);
        assert("bridgeSudoChange"@[0] != "ibcRelayerChange"@[0]);
        assert("bridgeSudoChange"@[0] != "fee_asset_change"@[0]);
        assert("bridgeSudoChange"@[0] != "recoverIbcClient"@[0]);
        assert("bridge_sudo_change"@[0] != "ibc_relayer_change"@[0]);
        assert("bridge_sudo_change"@[0] != "recover_ibc_client"@[0]);
        assert("bridgeTransfer"@[0] != "feeAssetChange"@[0]);
        assert("bridgeTransfer"@[0] != "markets_change"@[0]);
        assert("bridge_transfer"@[0] != "ics20Withdrawal"@[0]);
        assert("bridge_transfer"@[0] != "validatorUpdate"@[0]);
        assert("bridge_transfer"@[0] != "ibc_sudo_change"@[0]);
        assert("ics20Withdrawal"@[0] != "validatorUpdate"@[0]);
        assert("ics20Withdrawal"@[1] != "ibc_sudo_change"@[1]);
        assert("ics20_withdrawal"@[0] != "validator_update"@[0]);
        assert("ics20_withdrawal"@[1] != "ibcRelayerChange"@[1]);
        assert("ics20_withdrawal"@[0] != "fee_asset_change"@[0]);
        assert("ics20_withdrawal"@[0] != "recoverIbcClient"@[0]);
        assert("sudo_address_change"@[0] != "currencyPairsChange"@[0]);
        assert("validatorUpdate"@[0] != "ibc_sudo_change"@[0]);
        assert("validator_update"@[0] != "ibcRelayerChange"@[0]);
        assert("validator_update"@[0] != "fee_asset_change"@[0]);
        assert("validator_update"@[0] != "recoverIbcClient"@[0]);
        assert("ibcRelayerChange"@[0] != "fee_asset_change"@[0]);
        assert("ibcRelayerChange"@[0] != "recoverIbcClient"@[0]);
        assert("ibc_relayer_change"@[0] != "recover_ibc_client"@[0]);
        assert("feeAssetChange"@[0] != "markets_change"@[0]);
        assert("fee_asset_change"@[0] != "recoverIbcClient"@[0]);
        assert("ibcSudoChange"@[0] != "marketsChange"@[0]);
        assert("ibcSudoChange"@[0] != "create_market"@[0]);
        assert("ibcSudoChange"@[0] != "update_market"@[0]);
        assert("marketsChange"@[0] != "create_market"@[0]);
        assert("marketsChange"@[0] != "update_market"@[0]);
        assert("createOrder"@[1] != "cancelOrder"@[1]);
        assert("create_order"@[1] != "cancel_order"@[1]);
        assert("create_order"@[6] != "createMarket"@[6]);
        assert("create_order"@[0] != "updateMarket"@[0]);
        assert("cancel_order"@[1] != "createMarket"@[1]);
        assert("cancel_order"@[0] != "updateMarket"@[0]);
        assert("createMarket"@[0] != "updateMarket"@[0]);
        assert("create_market"@[0] != "update_market"@[0]);
        lemma_fold_entry_if(Self::spec_start(), true, "marketsChange"@, JsonV::Object(es), Self::step_fn());
        lemma_fold_entry_if(Self::spec_start(), true, "markets_change"@, JsonV::Object(es), Self::step_fn());
        lemma_fold_entry_if(Self::spec_start(), true, "marketsChange"@, JsonV::Null, Self::step_fn());
        lemma_fold_entry_if(Self::spec_start(), true, "markets_change"@, JsonV::Null, Self::step_fn());
    }

    /// The field `create_order` alone: an object with one member under its JSON or protobuf
    /// name reads as the message with that field set and every other field at its
    /// default, and the message with only that field off its default writes that
    /// one member under the JSON name.
    pub proof fn lemma_member_create_order(x: CreateOrderV, es: Seq<(Seq<char>, JsonV)>)
        ensures
            Self::spec_from_json(JsonV::Object(seq![("createOrder"@, JsonV::Object(es))])) == (match CreateOrder::spec_from_json(JsonV::Object(es)) { Ok(y) => Ok::<ActionV, JsonErrorV>(ActionV { value: Some(action::ValueV::CreateOrder(y)) }), Err(e) => Err(e) }),
            Self::spec_from_json(JsonV::Object(seq![("create_order"@, JsonV::Object(es))])) == (match CreateOrder::spec_from_json(JsonV::Object(es)) { Ok(y) => Ok::<ActionV, JsonErrorV>(ActionV { value: Some(action::ValueV::CreateOrder(y)) }), Err(e) => Err(e) }),
            Self::spec_from_json(JsonV::Object(seq![("createOrder"@, JsonV::Null)])) == Ok::<ActionV, JsonErrorV>(Self::spec_default()),
            Self::spec_from_json(JsonV::Object(seq![("create_order"@, JsonV::Null)])) == Ok::<ActionV, JsonErrorV>(Self::spec_default()),
            Self::spec_to_json(ActionV { value: Some(action::ValueV::CreateOrder(x)) }) == JsonV::Object(seq![("createOrder"@, CreateOrder::spec_to_json(x))]),
    {
        reveal_strlit("transfer");
        reveal_strlit("rollupDataSubmission");
        reveal_strlit("rollup_data_submission");
        reveal_strlit("initBridgeAccount");
        reveal_strlit("init_bridge_account");
        reveal_strlit("bridgeLock");
        reveal_strlit("bridge_lock");
        reveal_strlit("bridgeUnlock");
        reveal_strlit("bridge_unlock");
        reveal_strlit("bridgeSudoChange");
        reveal_strlit("bridge_sudo_change");
        reveal_strlit("bridgeTransfer");
        reveal_strlit("bridge_transfer");
        reveal_strlit("ibc");
        reveal_strlit("ics20Withdrawal");
        reveal_strlit("ics20_withdrawal");
        reveal_strlit("sudoAddressChange");
        reveal_strlit("sudo_address_change");
        reveal_strlit("validatorUpdate");
        reveal_strlit("validator_update");
        reveal_strlit("ibcRelayerChange");
        reveal_strlit("ibc_relayer_change");
        reveal_strlit("feeAssetChange");
        reveal_strlit("fee_asset_change");
        reveal_strlit("feeChange");
        reveal_strlit("fee_change");
        reveal_strlit("ibcSudoChange");
        reveal_strlit("ibc_sudo_change");
        reveal_strlit("recoverIbcClient");
        reveal_strlit("recover_ibc_client");
        reveal_strlit("currencyPairsChange");
        reveal_strlit("currency_pairs_change");
        reveal_strlit("marketsChange");
        reveal_strlit("markets_change");
        reveal_strlit("createOrder");
        reveal_strlit("create_order");
        reveal_strlit("cancelOrder");
        reveal_strlit("cancel_order");
        reveal_strlit("createMarket");
        reveal_strlit("create_market");
        reveal_strlit("updateMarket");
        reveal_strlit("update_market");
        assert("transfer"@.len() == 8);
        assert("rollupDataSubmission"@.len() == 20);
        assert("rollup_data_submission"@.len() == 22);
        assert("initBridgeAccount"@.len() == 17);
        assert("init_bridge_account"@.len() == 19);
        assert("bridgeLock"@.len() == 10);
        assert("bridge_lock"@.len() == 11);
        assert("bridgeUnlock"@.len() == 12);
        assert("bridge_unlock"@.len() == 13);
        assert("bridgeSudoChange"@.len() == 16);
        assert("bridge_sudo_change"@.len() == 18);
        assert("bridgeTransfer"@.len() == 14);
        assert("bridge_transfer"@.len() == 15);
        assert("ibc"@.len() == 3);
        assert("ics20Withdrawal"@.len() == 15);
        assert("ics20_withdrawal"@.len() == 16);
        assert("sudoAddressChange"@.len() == 17);
        assert("sudo_address_change"@.len() == 19);
        assert("validatorUpdate"@.len() == 15);
        assert("validator_update"@.len() == 16);
        assert("ibcRelayerChange"@.len() == 16);
        assert("ibc_relayer_change"@.len() == 18);
        assert("feeAssetChange"@.len() == 14);
        assert("fee_asset_change"@.len() == 16);
        assert("feeChange"@.len() == 9);
        assert("fee_change"@.len() == 10);
        assert("ibcSudoChange"@.len() == 13);
        assert("ibc_sudo_change"@.len() == 15);
        assert("recoverIbcClient"@.len() == 16);
        assert("recover_ibc_client"@.len() == 18);
        assert("currencyPairsChange"@.len() == 19);
        assert("currency_pairs_change"@.len() == 21);
        assert("marketsChange"@.len() == 13);
        assert("markets_change"@.len() == 14);
        assert("createOrder"@.len() == 11);
        assert("create_order"@.len() == 12);
        assert("cancelOrder"@.len() == 11);
        assert("cancel_order"@.len() == 12);
        assert("createMarket"@.len() == 12);
        assert("create_market"@.len() == 13);
        assert("updateMarket"@.len() == 12);
        assert("update_market"@.len() == 13);
        assert("initBridgeAccount"@[0] != "sudoAddressChange"@[0]);
        assert("init_bridge_account"@[0] != "sudo_address_change"@[0]);
        assert("init_bridge_account"@[0] != "currencyPairsChange"@[0]);
        assert("bridgeLock"@[0] != "fee_change"@[0]);
        assert("bridge_lock"@[0] != "createOrder"@[0]);
        assert("bridge_lock"@[0] != "cancelOrder"@[0]);
        assert("bridgeUnlock"@[0] != "create_order"@[0]);
        assert("bridgeUnlock"@[0] != "cancel_order"@[0]);
        assert("bridgeUnlock"@[0] != "createMarket"@[0]);
        assert("bridgeUnlock"@[0] != "updateMarket"@[0]);
        assert("bridge_unlock"@[0] != "ibcSudoChange"@[0]);
        assert("bridge_unlock"@[0] != "marketsChange"@[0]);
        assert("bridge_unlock"@[0] != "create_market"@[0]);
        assert("bridge_unlock"@[0] != "update_market"@[0]);
        assert("bridgeSudoChange"@[0] != "ics20_withdrawal"@[0]);
        assert("bridgeSudoChange"@[0] != "validator_update"@[0]);
        assert("bridgeSudoChange"@[0] != "ibcRelayerChange"@[0]);
        assert("bridgeSudoChange"@[0] != "fee_asset_change"@[0]);
        assert("bridgeSudoChange"@[0] != "recoverIbcClient"@[0]);
        assert("bridge_sudo_change"@[0] != "ibc_relayer_change"@[0]);
        assert("bridge_sudo_change"@[0] != "recover_ibc_client"@[0]);
        assert("bridgeTransfer"@[0] != "feeAssetChange"@[0]);
        assert("bridgeTransfer"@[0] != "markets_change"@[0]);
        assert("bridge_transfer"@[0] != "ics20Withdrawal"@[0]);
        assert("bridge_transfer"@[0] != "validatorUpdate"@[0]);
        assert("bridge_transfer"@[0] != "ibc_sudo_change"@[0]);
        assert("ics20Withdrawal"@[0] != "validatorUpdate"@[0]);
        assert("ics20Withdrawal"@[1] != "ibc_sudo_change"@[1]);
        assert("ics20_withdrawal"@[0] != "validator_update"@[0]);
        assert("ics20_withdrawal"@[1] != "ibcRelayerChange"@[1]);
        assert("ics20_withdrawal"@[0] != "fee_asset_change"@[0]);
        assert("ics20_withdrawal"@[0] != "recoverIbcClient"@[0]);
        assert("sudo_address_change"@[0] != "currencyPairsChange"@[0]);
        assert("validatorUpdate"@[0] != "ibc_sudo_change"@[0]);
        assert("validator_update"@[0] != "ibcRelayerChange"@[0]);
        assert("validator_update"@[0] != "fee_asset_change"@[0]);
        assert("validator_update"@[0] != "recoverIbcClient"@[0]);
        assert("ibcRelayerChange"@[0] != "fee_asset_change"@[0]);
        assert("ibcRelayerChange"@[0] != "recoverIbcClient"@[0]);
        assert("ibc_relayer_change"@[0] != "recover_ibc_client"@[0]);
        assert("feeAssetChange"@[0] != "markets_change"@[0]);
        assert("fee_asset_change"@[0] != "recoverIbcClient"@[0]);
        assert("ibcSudoChange"@[0] != "marketsChange"@[0]);
        assert("ibcSudoChange"@[0] != "create_market"@[0]);
        assert("ibcSudoChange"@[0] != "update_market"@[0]);
        assert("marketsChange"@[0] != "create_market"@[0]);
        assert("marketsChange"@[0] != "update_market"@[0]);
        assert("createOrder"@[1] != "cancelOrder"@[1]);
        assert("create_order"@[1] != "cancel_order"@[1]);
        assert("create_order"@[6] != "createMarket"@[6]);
        assert("create_order"@[0] != "updateMarket"@[0]);
        assert("cancel_order"@[1] != "createMarket"@[1]);
        assert("cancel_order"@[0] != "updateMarket"@[0]);
        assert("createMarket"@[0] != "updateMarket"@[0]);
        assert("create_market"@[0] != "update_market"@[0]);
        lemma_fold_entry_if(Self::spec_start(), true, "createOrder"@, JsonV::Object(es), Self::step_fn());
        lemma_fold_entry_if(Self::spec_start(), true, "create_order"@, JsonV::Object(es), Self::step_fn());
        lemma_fold_entry_if(Self::spec_start(), true, "createOrder"@, JsonV::Null, Self::step_fn());
        lemma_fold_entry_if(Self::spec_start(), true, "create_order"@, JsonV::Null, Self::step_fn());
    }

    /// The field `cancel_order` alone: an object with one member under its JSON or protobuf
    /// name reads as the message with that field set and every other field at its
    /// default, and the message with only that field off its default writes that
    /// one member under the JSON name.
    pub proof fn lemma_member_cancel_order(x: CancelOrderV, es: Seq<(Seq<char>, JsonV)>)
        ensures
            Self::spec_from_json(JsonV::Object(seq![("cancelOrder"@, JsonV::Object(es))])) == (match CancelOrder::spec_from_json(JsonV::Object(es)) { Ok(y) => Ok::<ActionV, JsonErrorV>(ActionV { value: Some(action::ValueV::CancelOrder(y)) }), Err(e) => Err(e) }),
            Self::spec_from_json(JsonV::Object(seq![("cancel_order"@, JsonV::Object(es))])) == (match CancelOrder::spec_from_json(JsonV::Object(es)) { Ok(y) => Ok::<ActionV, JsonErrorV>(ActionV { value: Some(action::ValueV::CancelOrder(y)) }), Err(e) => Err(e) }),
            Self::spec_from_json(JsonV::Object(seq![("cancelOrder"@, JsonV::Null)])) == Ok::<ActionV, JsonErrorV>(Self::spec_default()),
            Self::spec_from_json(JsonV::Object(seq![("cancel_order"@, JsonV::Null)])) == Ok::<ActionV, JsonErrorV>(Self::spec_default()),
            Self::spec_to_json(ActionV { value: Some(action::ValueV::CancelOrder(x)) }) == JsonV::Object(seq![("cancelOrder"@, CancelOrder::spec_to_json(x))]),
    {
        reveal_strlit("transfer");
        reveal_strlit("rollupDataSubmission");
        reveal_strlit("rollup_data_submission");
        reveal_strlit("initBridgeAccount");
        reveal_strlit("init_bridge_account");
        reveal_strlit("bridgeLock");
        reveal_strlit("bridge_lock");
        reveal_strlit("bridgeUnlock");
        reveal_strlit("bridge_unlock");
        reveal_strlit("bridgeSudoChange");
        reveal_strlit("bridge_sudo_change");
        reveal_strlit("bridgeTransfer");
        reveal_strlit("bridge_transfer");
        reveal_strlit("ibc");
        reveal_strlit("ics20Withdrawal");
        reveal_strlit("ics20_withdrawal");
        reveal_strlit("sudoAddressChange");
        reveal_strlit("sudo_address_change");
        reveal_strlit("validatorUpdate");
        reveal_strlit("validator_update");
        reveal_strlit("ibcRelayerChange");
        reveal_strlit("ibc_relayer_change");
        reveal_strlit("feeAssetChange");
        reveal_strlit("fee_asset_change");
        reveal_strlit("feeChange");
        reveal_strlit("fee_change");
        reveal_strlit("ibcSudoChange");
        reveal_strlit("ibc_sudo_change");
        reveal_strlit("recoverIbcClient");
        reveal_strlit("recover_ibc_client");
        reveal_strlit("currencyPairsChange");
        reveal_strlit("currency_pairs_change");
        reveal_strlit("marketsChange");
        reveal_strlit("markets_change");
        reveal_strlit("createOrder");
        reveal_strlit("create_order");
        reveal_strlit("cancelOrder");
        reveal_strlit("cancel_order");
        reveal_strlit("createMarket");
        reveal_strlit("create_market");
        reveal_strlit("updateMarket");
        reveal_strlit("update_market");
        assert("transfer"@.len() == 8);
        assert("rollupDataSubmission"@.len() == 20);
        assert("rollup_data_submission"@.len() == 22);
        assert("initBridgeAccount"@.len() == 17);
        assert("init_bridge_account"@.len() == 19);
        assert("bridgeLock"@.len() == 10);
        assert("bridge_lock"@.len() == 11);
        assert("bridgeUnlock"@.len() == 12);
        assert("bridge_unlock"@.len() == 13);
        assert("bridgeSudoChange"@.len() == 16);
        assert("bridge_sudo_change"@.len() == 18);
        assert("bridgeTransfer"@.len() == 14);
        assert("bridge_transfer"@.len() == 15);
        assert("ibc"@.len() == 3);
        assert("ics20Withdrawal"@.len() == 15);
        assert("ics20_withdrawal"@.len() == 16);
        assert("sudoAddressChange"@.len() == 17);
        assert("sudo_address_change"@.len() == 19);
        assert("validatorUpdate"@.len() == 15);
        assert("validator_update"@.len() == 16);
        assert("ibcRelayerChange"@.len() == 16);
        assert("ibc_relayer_change"@.len() == 18);
        assert("feeAssetChange"@.len() == 14);
        assert("fee_asset_change"@.len() == 16);
        assert("feeChange"@.len() == 9);
        assert("fee_change"@.len() == 10);
        assert("ibcSudoChange"@.len() == 13);
        assert("ibc_sudo_change"@.len() == 15);
        assert("recoverIbcClient"@.len() == 16);
        assert("recover_ibc_client"@.len() == 18);
        assert("currencyPairsChange"@.len() == 19);
        assert("currency_pairs_change"@.len() == 21);
        assert("marketsChange"@.len() == 13);
        assert("markets_change"@.len() == 14);
        assert("createOrder"@.len() == 11);
        assert("create_order"@.len() == 12);
        assert("cancelOrder"@.len() == 11);
        assert("cancel_order"@.len() == 12);
        assert("createMarket"@.len() == 12);
        assert("create_market"@.len() == 13);
        assert("updateMarket"@.len() == 12);
        assert("update_market"@.len() == 13);
        assert("initBridgeAccount"@[0] != "sudoAddressChange"@[0]);
        assert("init_bridge_account"@[0] != "sudo_address_change"@[0]);
        assert("init_bridge_account"@[0] != "currencyPairsChange"@[0]);
        assert("bridgeLock"@[0] != "fee_change"@[0]);
        assert("bridge_lock"@[0] != "createOrder"@[0]);
        assert("bridge_lock"@[0] != "cancelOrder"@[0]);
        assert("bridgeUnlock"@[0] != "create_order"@[0]);
        assert("bridgeUnlock"@[0] != "cancel_order"@[0]);
        assert("bridgeUnlock"@[0] != "createMarket"@[0]);
        assert("bridgeUnlock"@[0] != "updateMarket"@[0]);
        assert("bridge_unlock"@[0] != "ibcSudoChange"@[0]);
        assert("bridge_unlock"@[0] != "marketsChange"@[0]);
        assert("bridge_unlock"@[0] != "create_market"@[0]);
        assert("bridge_unlock"@[0] != "update_market"@[0]);
        assert("bridgeSudoChange"@[0] != "ics20_withdrawal"@[0]);
        assert("bridgeSudoChange"@[0] != "validator_update"@[0]);
        assert("bridgeSudoChange"@[0] != "ibcRelayerChange"@[0]);
        assert("bridgeSudoChange"@[0] != "fee_asset_change"@[0]);
        assert("bridgeSudoChange"@[0] != "recoverIbcClient"@[0]);
        assert("bridge_sudo_change"@[0] != "ibc_relayer_change"@[0]);
        assert("bridge_sudo_change"@[0] != "recover_ibc_client"@[0]);
        assert("bridgeTransfer"@[0] != "feeAssetChange"@[0]);
        assert("bridgeTransfer"@[0] != "markets_change"@[0]);
        assert("bridge_transfer"@[0] != "ics20Withdrawal"@[0]);
        assert("bridge_transfer"@[0] != "validatorUpdate"@[0]);
        assert("bridge_transfer"@[0] != "ibc_sudo_change"@[0]);
        assert("ics20Withdrawal"@[0] != "validatorUpdate"@[0]);
        assert("ics20Withdrawal"@[1] != "ibc_sudo_change"@[1]);
        assert("ics20_withdrawal"@[0] != "validator_update"@[0]);
        assert("ics20_withdrawal"@[1] != "ibcRelayerChange"@[1]);
        assert("ics20_withdrawal"@[0] != "fee_asset_change"@[0]);
        assert("ics20_withdrawal"@[0] != "recoverIbcClient"@[0]);
        assert("sudo_address_change"@[0] != "currencyPairsChange"@[0]);
        assert("validatorUpdate"@[0] != "ibc_sudo_change"@[0]);
        assert("validator_update"@[0] != "ibcRelayerChange"@[0]);
        assert("validator_update"@[0] != "fee_asset_change"@[0]);
        assert("validator_update"@[0] != "recoverIbcClient"@[0]);
        assert("ibcRelayerChange"@[0] != "fee_asset_change"@[0]);
        assert("ibcRelayerChange"@[0] != "recoverIbcClient"@[0]);
        assert("ibc_relayer_change"@[0] != "recover_ibc_client"@[0]);
        assert("feeAssetChange"@[0] != "markets_change"@[0]);
        assert("fee_asset_change"@[0] != "recoverIbcClient"@[0]);
        assert("ibcSudoChange"@[0] != "marketsChange"@[0]);
        assert("ibcSudoChange"@[0] != "create_market"@[0]);
        assert("ibcSudoChange"@[0] != "update_market"@[0]);
        assert("marketsChange"@[0] != "create_market"@[0]);
        assert("marketsChange"@[0] != "update_market"@[0]);
        assert("createOrder"@[1] != "cancelOrder"@[1]);
        assert("create_order"@[1] != "cancel_order"@[1]);
        assert("create_order"@[6] != "createMarket"@[6]);
        assert("create_order"@[0] != "updateMarket"@[0]);
        assert("cancel_order"@[1] != "createMarket"@[1]);
        assert("cancel_order"@[0] != "updateMarket"@[0]);
        assert("createMarket"@[0] != "updateMarket"@[0]);
        assert("create_market"@[0] != "update_market"@[0]);
        lemma_fold_entry_if(Self::spec_start(), true, "cancelOrder"@, JsonV::Object(es), Self::step_fn());
        lemma_fold_entry_if(Self::spec_start(), true, "cancel_order"@, JsonV::Object(es), Self::step_fn());
        lemma_fold_entry_if(Self::spec_start(), true, "cancelOrder"@, JsonV::Null, Self::step_fn());
        lemma_fold_entry_if(Self::spec_start(), true, "cancel_order"@, JsonV::Null, Self::step_fn());
    }

    /// The field `create_market` alone: an object with one member under its JSON or protobuf
    /// name reads as the message with that field set and every other field at its
    /// default, and the message with only that field off its default writes that
    /// one member under the JSON name.
    pub proof fn lemma_member_create_market(x: CreateMarketV, es: Seq<(Seq<char>, JsonV)>)
        ensures
            Self::spec_from_json(JsonV::Object(seq![("createMarket"@, JsonV::Object(es))])) == (match CreateMarket::spec_from_json(JsonV::Object(es)) { Ok(y) => Ok::<ActionV, JsonErrorV>(ActionV { value: Some(action::ValueV::CreateMarket(y)) }), Err(e) => Err(e) }),
            Self::spec_from_json(JsonV::Object(seq![("create_market"@, JsonV::Object(es))])) == (match CreateMarket::spec_from_json(JsonV::Object(es)) { Ok(y) => Ok::<ActionV, JsonErrorV>(ActionV { value: Some(action::ValueV::CreateMarket(y)) }), Err(e) => Err(e) }),
            Self::spec_from_json(JsonV::Object(seq![("createMarket"@, JsonV::Null)])) == Ok::<ActionV, JsonErrorV>(Self::spec_default()),
            Self::spec_from_json(JsonV::Object(seq![("create_market"@, JsonV::Null)])) == Ok::<ActionV, JsonErrorV>(Self::spec_default()),
            Self::spec_to_json(ActionV { value: Some(action::ValueV::CreateMarket(x)) }) == JsonV::Object(seq![("createMarket"@, CreateMarket::spec_to_json(x))]),
    {
        reveal_strlit("transfer");
        reveal_strlit("rollupDataSubmission");
        reveal_strlit("rollup_data_submission");
        reveal_strlit("initBridgeAccount");
        reveal_strlit("init_bridge_account");
        reveal_strlit("bridgeLock");
        reveal_strlit("bridge_lock");
        reveal_strlit("bridgeUnlock");
        reveal_strlit("bridge_unlock");
        reveal_strlit("bridgeSudoChange");
        reveal_strlit("bridge_sudo_change");
        reveal_strlit("bridgeTransfer");
        reveal_strlit("bridge_transfer");
        reveal_strlit("ibc");
        reveal_strlit("ics20Withdrawal");
        reveal_strlit("ics20_withdrawal");
        reveal_strlit("sudoAddressChange");
        reveal_strlit("sudo_address_change");
        reveal_strlit("validatorUpdate");
        reveal_strlit("validator_update");
        reveal_strlit("ibcRelayerChange");
        reveal_strlit("ibc_relayer_change");
        reveal_strlit("feeAssetChange");
        reveal_strlit("fee_asset_change");
        reveal_strlit("feeChange");
        reveal_strlit("fee_change");
        reveal_strlit("ibcSudoChange");
        reveal_strlit("ibc_sudo_change");
        reveal_strlit("recoverIbcClient");
        reveal_strlit("recover_ibc_client");
        reveal_strlit("currencyPairsChange");
        reveal_strlit("currency_pairs_change");
        reveal_strlit("marketsChange");
        reveal_strlit("markets_change");
        reveal_strlit("createOrder");
        reveal_strlit("create_order");
        reveal_strlit("cancelOrder");
        reveal_strlit("cancel_order");
        reveal_strlit("createMarket");
        reveal_strlit("create_market");
        reveal_strlit("updateMarket");
        reveal_strlit("update_market");
        assert("transfer"@.len() == 8);
        assert("rollupDataSubmission"@.len() == 20);
        assert("rollup_data_submission"@.len() == 22);
        assert("initBridgeAccount"@.len() == 17);
        assert("init_bridge_account"@.len() == 19);
        assert("bridgeLock"@.len() == 10);
        assert("bridge_lock"@.len() == 11);
        assert("bridgeUnlock"@.len() == 12);
        assert("bridge_unlock"@.len() == 13);
        assert("bridgeSudoChange"@.len() == 16);
        assert("bridge_sudo_change"@.len() == 18);
        assert("bridgeTransfer"@.len() == 14);
        assert("bridge_transfer"@.len() == 15);
        assert("ibc"@.len() == 3);
        assert("ics20Withdrawal"@.len() == 15);
        assert("ics20_withdrawal"@.len() == 16);
        assert("sudoAddressChange"@.len() == 17);
        assert("sudo_address_change"@.len() == 19);
        assert("validatorUpdate"@.len() == 15);
        assert("validator_update"@.len() == 16);
        assert("ibcRelayerChange"@.len() == 16);
        assert("ibc_relayer_change"@.len() == 18);
        assert("feeAssetChange"@.len() == 14);
        assert("fee_asset_change"@.len() == 16);
        assert("feeChange"@.len() == 9);
        assert("fee_change"@.len() == 10);
        assert("ibcSudoChange"@.len() == 13);
        assert("ibc_sudo_change"@.len() == 15);
        assert("recoverIbcClient"@.len() == 16);
        assert("recover_ibc_client"@.len() == 18);
        assert("currencyPairsChange"@.len() == 19);
        assert("currency_pairs_change"@.len() == 21);
        assert("marketsChange"@.len() == 13);
        assert("markets_change"@.len() == 14);
        assert("createOrder"@.len() == 11);
        assert("create_order"@.len() == 12);
        assert("cancelOrder"@.len() == 11);
        assert("cancel_order"@.len() == 12);
        assert("createMarket"@.len() == 12);
        assert("create_market"@.len() == 13);
        assert("updateMarket"@.len() == 12);
        assert("update_market"@.len() == 13);
        assert("initBridgeAccount"@[0] != "sudoAddressChange"@[0]);
        assert("init_bridge_account"@[0] != "sudo_address_change"@[0]);
        assert("init_bridge_account"@[0] != "currencyPairsChange"@[0]);
        assert("bridgeLock"@[0] != "fee_change"@[0]);
        assert("bridge_lock"@[0] != "createOrder"@[0]);
        assert("bridge_lock"@[0] != "cancelOrder"@[0]);
        assert("bridgeUnlock"@[0] != "create_order"@[0]);
        assert("bridgeUnlock"@[0] != "cancel_order"@[0]);
        assert("bridgeUnlock"@[0] != "createMarket"@[0]);
        assert("bridgeUnlock"@[0] != "updateMarket"@[0]);
        assert("bridge_unlock"@[0] != "ibcSudoChange"@[0]);
        assert("bridge_unlock"@[0] != "marketsChange"@[0]);
        assert("bridge_unlock"@[0] != "create_market"@[0]);
        assert("bridge_unlock"@[0] != "update_market"@[0]);
        assert("bridgeSudoChange"@[0] != "ics20_withdrawal"@[0]);
        assert("bridgeSudoChange"@[0] != "validator_update"@[0]);
        assert("bridgeSudoChange"@[0] != "ibcRelayerChange"@[0]);
        assert("bridgeSudoChange"@[0] != "fee_asset_change"@[0]);
        assert("bridgeSudoChange"@[0] != "recoverIbcClient"@[0]);
        assert("bridge_sudo_change"@[0] != "ibc_relayer_change"@[0]);
        assert("bridge_sudo_change"@[0] != "recover_ibc_client"@[0]);
        assert("bridgeTransfer"@[0] != "feeAssetChange"@[0]);
        assert("bridgeTransfer"@[0] != "markets_change"@[0]);
        assert("bridge_transfer"@[0] != "ics20Withdrawal"@[0]);
        assert("bridge_transfer"@[0] != "validatorUpdate"@[0]);
        assert("bridge_transfer"@[0] != "ibc_sudo_change"@[0]);
        assert("ics20Withdrawal"@[0] != "validatorUpdate"@[0]);
        assert("ics20Withdrawal"@[1] != "ibc_sudo_change"@[1]);
        assert("ics20_withdrawal"@[0] != "validator_update"@[0]);
        assert("ics20_withdrawal"@[1] != "ibcRelayerChange"@[1]);
        assert("ics20_withdrawal"@[0] != "fee_asset_change"@[0]);
        assert("ics20_withdrawal"@[0] != "recoverIbcClient"@[0]);
        assert("sudo_address_change"@[0] != "currencyPairsChange"@[0]);
        assert("validatorUpdate"@[0] != "ibc_sudo_change"@[0]);
        assert("validator_update"@[0] != "ibcRelayerChange"@[0]);
        assert("validator_update"@[0] != "fee_asset_change"@[0]);
        assert("validator_update"@[0] != "recoverIbcClient"@[0]);
        assert("ibcRelayerChange"@[0] != "fee_asset_change"@[0]);
        assert("ibcRelayerChange"@[0] != "recoverIbcClient"@[0]);
        assert("ibc_relayer_change"@[0] != "recover_ibc_client"@[0]);
        assert("feeAssetChange"@[0] != "markets_change"@[0]);
        assert("fee_asset_change"@[0] != "recoverIbcClient"@[0]);
        assert("ibcSudoChange"@[0] != "marketsChange"@[0]);
        assert("ibcSudoChange"@[0] != "create_market"@[0]);
        assert("ibcSudoChange"@[0] != "update_market"@[0]);
        assert("marketsChange"@[0] != "create_market"@[0]);
        assert("marketsChange"@[0] != "update_market"@[0]);
        assert("createOrder"@[1] != "cancelOrder"@[1]);
        assert("create_order"@[1] != "cancel_order"@[1]);
        assert("create_order"@[6] != "createMarket"@[6]);
        assert("create_order"@[0] != "updateMarket"@[0]);
        assert("cancel_order"@[1] != "createMarket"@[1]);
        assert("cancel_order"@[0] != "updateMarket"@[0]);
        assert("createMarket"@[0] != "updateMarket"@[0]);
        assert("create_market"@[0] != "update_market"@[0]);
        lemma_fold_entry_if(Self::spec_start(), true, "createMarket"@, JsonV::Object(es), Self::step_fn());
        lemma_fold_entry_if(Self::spec_start(), true, "create_market"@, JsonV::Object(es), Self::step_fn());
        lemma_fold_entry_if(Self::spec_start(), true, "createMarket"@, JsonV::Null, Self::step_fn());
        lemma_fold_entry_if(Self::spec_start(), true, "create_market"@, JsonV::Null, Self::step_fn());
    }

    /// The field `update_market` alone: an object with one member under its JSON or protobuf
    /// name reads as the message with that field set and every other field at its
    /// default, and the message with only that field off its default writes that
    /// one member under the JSON name.
    pub proof fn lemma_member_update_market(x: UpdateMarketV, es: Seq<(Seq<char>, JsonV)>)
        ensures
            Self::spec_from_json(JsonV::Object(seq![("updateMarket"@, JsonV::Object(es))])) == (match UpdateMarket::spec_from_json(JsonV::Object(es)) { Ok(y) => Ok::<ActionV, JsonErrorV>(ActionV { value: Some(action::ValueV::UpdateMarket(y)) }), Err(e) => Err(e) }),
            Self::spec_from_json(JsonV::Object(seq![("update_market"@, JsonV::Object(es))])) == (match UpdateMarket::spec_from_json(JsonV::Object(es)) { Ok(y) => Ok::<ActionV, JsonErrorV>(ActionV { value: Some(action::ValueV::UpdateMarket(y)) }), Err(e) => Err(e) }),
            Self::spec_from_json(JsonV::Object(seq![("updateMarket"@, JsonV::Null)])) == Ok::<ActionV, JsonErrorV>(Self::spec_default()),
            Self::spec_from_json(JsonV::Object(seq![("update_market"@, JsonV::Null)])) == Ok::<ActionV, JsonErrorV>(Self::spec_default()),
            Self::spec_to_json(ActionV { value: Some(action::ValueV::UpdateMarket(x)) }) == JsonV::Object(seq![("updateMarket"@, UpdateMarket::spec_to_json(x))]),
    {
        reveal_strlit("transfer");
        reveal_strlit("rollupDataSubmission");
        reveal_strlit("rollup_data_submission");
        reveal_strlit("initBridgeAccount");
        reveal_strlit("init_bridge_account");
        reveal_strlit("bridgeLock");
        reveal_strlit("bridge_lock");
        reveal_strlit("bridgeUnlock");
        reveal_strlit("bridge_unlock");
        reveal_strlit("bridgeSudoChange");
        reveal_strlit("bridge_sudo_change");
        reveal_strlit("bridgeTransfer");
        reveal_strlit("bridge_transfer");
        reveal_strlit("ibc");
        reveal_strlit("ics20Withdrawal");
        reveal_strlit("ics20_withdrawal");
        reveal_strlit("sudoAddressChange");
        reveal_strlit("sudo_address_change");
        reveal_strlit("validatorUpdate");
        reveal_strlit("validator_update");
        reveal_strlit("ibcRelayerChange");
        reveal_strlit("ibc_relayer_change");
        reveal_strlit("feeAssetChange");
        reveal_strlit("fee_asset_change");
        reveal_strlit("feeChange");
        reveal_strlit("fee_change");
        reveal_strlit("ibcSudoChange");
        reveal_strlit("ibc_sudo_change");
        reveal_strlit("recoverIbcClient");
        reveal_strlit("recover_ibc_client");
        reveal_strlit("currencyPairsChange");
        reveal_strlit("currency_pairs_change");
        reveal_strlit("marketsChange");
        reveal_strlit("markets_change");
        reveal_strlit("createOrder");
        reveal_strlit("create_order");
        reveal_strlit("cancelOrder");
        reveal_strlit("cancel_order");
        reveal_strlit("createMarket");
        reveal_strlit("create_market");
        reveal_strlit("updateMarket");
        reveal_strlit("update_market");
        assert("transfer"@.len() == 8);
        assert("rollupDataSubmission"@.len() == 20);
        assert("rollup_data_submission"@.len() == 22);
        assert("initBridgeAccount"@.len() == 17);
        assert("init_bridge_account"@.len() == 19);
        assert("bridgeLock"@.len() == 10);
        assert("bridge_lock"@.len() == 11);
        assert("bridgeUnlock"@.len() == 12);
        assert("bridge_unlock"@.len() == 13);
        assert("bridgeSudoChange"@.len() == 16);
        assert("bridge_sudo_change"@.len() == 18);
        assert("bridgeTransfer"@.len() == 14);
        assert("bridge_transfer"@.len() == 15);
        assert("ibc"@.len() == 3);
        assert("ics20Withdrawal"@.len() == 15);
        assert("ics20_withdrawal"@.len() == 16);
        assert("sudoAddressChange"@.len() == 17);
        assert("sudo_address_change"@.len() == 19);
        assert("validatorUpdate"@.len() == 15);
        assert("validator_update"@.len() == 16);
        assert("ibcRelayerChange"@.len() == 16);
        assert("ibc_relayer_change"@.len() == 18);
        assert("feeAssetChange"@.len() == 14);
        assert("fee_asset_change"@.len() == 16);
        assert("feeChange"@.len() == 9);
        assert("fee_change"@.len() == 10);
        assert("ibcSudoChange"@.len() == 13);
        assert("ibc_sudo_change"@.len() == 15);
        assert("recoverIbcClient"@.len() == 16);
        assert("recover_ibc_client"@.len() == 18);
        assert("currencyPairsChange"@.len() == 19);
        assert("currency_pairs_change"@.len() == 21);
        assert("marketsChange"@.len() == 13);
        assert("markets_change"@.len() == 14);
        assert("createOrder"@.len() == 11);
        assert("create_order"@.len() == 12);
        assert("cancelOrder"@.len() == 11);
        assert("cancel_order"@.len() == 12);
        assert("createMarket"@.len() == 12);
        assert("create_market"@.len() == 13);
        assert("updateMarket"@.len() == 12);
        assert("update_market"@.len() == 13);
        assert("initBridgeAccount"@[0] != "sudoAddressChange"@[0]);
        assert("init_bridge_account"@[0] != "sudo_address_change"@[0]);
        assert("init_bridge_account"@[0] != "currencyPairsChange"@[0]);
        assert("bridgeLock"@[0] != "fee_change"@[0]);
        assert("bridge_lock"@[0] != "createOrder"@[0]);
        assert("bridge_lock"@[0] != "cancelOrder"@[0]);
        assert("bridgeUnlock"@[0] != "create_order"@[0]);
        assert("bridgeUnlock"@[0] != "cancel_order"@[0]);
        assert("bridgeUnlock"@[0] != "createMarket"@[0]);
        assert("bridgeUnlock"@[0] != "updateMarket"@[0]);
        assert("bridge_unlock"@[0] != "ibcSudoChange"@[0]);
        assert("bridge_unlock"@[0] != "marketsChange"@[0]);
        assert("bridge_unlock"@[0] != "create_market"@[0]);
        assert("bridge_unlock"@[0] != "update_market"@[0]);
        assert("bridgeSudoChange"@[0] != "ics20_withdrawal"@[0]);
        assert("bridgeSudoChange"@[0] != "validator_update"@[0]);
        assert("bridgeSudoChange"@[0] != "ibcRelayerChange"@[0]);
        assert("bridgeSudoChange"@[0] != "fee_asset_change"@[0]);
        assert("bridgeSudoChange"@[0] != "recoverIbcClient"@[0]);
        assert("bridge_sudo_change"@[0] != "ibc_relayer_change"@[0]);
        assert("bridge_sudo_change"@[0] != "recover_ibc_client"@[0]);
        assert("bridgeTransfer"@[0] != "feeAssetChange"@[0]);
        assert("bridgeTransfer"@[0] != "markets_change"@[0]);
        assert("bridge_transfer"@[0] != "ics20Withdrawal"@[0]);
        assert("bridge_transfer"@[0] != "validatorUpdate"@[0]);
        assert("bridge_transfer"@[0] != "ibc_sudo_change"@[0]);
        assert("ics20Withdrawal"@[0] != "validatorUpdate"@[0]);
        assert("ics20Withdrawal"@[1] != "ibc_sudo_change"@[1]);
        assert("ics20_withdrawal"@[0] != "validator_update"@[0]);
        assert("ics20_withdrawal"@[1] != "ibcRelayerChange"@[1]);
        assert("ics20_withdrawal"@[0] != "fee_asset_change"@[0]);
        assert("ics20_withdrawal"@[0] != "recoverIbcClient"@[0]);
        assert("sudo_address_change"@[0] != "currencyPairsChange"@[0]);
        assert("validatorUpdate"@[0] != "ibc_sudo_change"@[0]);
        assert("validator_update"@[0] != "ibcRelayerChange"@[0]);
        assert("validator_update"@[0] != "fee_asset_change"@[0]);
        assert("validator_update"@[0] != "recoverIbcClient"@[0]);
        assert("ibcRelayerChange"@[0] != "fee_asset_change"@[0]);
        assert("ibcRelayerChange"@[0] != "recoverIbcClient"@[0]);
        assert("ibc_relayer_change"@[0] != "recover_ibc_client"@[0]);
        assert("feeAssetChange"@[0] != "markets_change"@[0]);
        assert("fee_asset_change"@[0] != "recoverIbcClient"@[0]);
        assert("ibcSudoChange"@[0] != "marketsChange"@[0]);
        assert("ibcSudoChange"@[0] != "create_market"@[0]);
        assert("ibcSudoChange"@[0] != "update_market"@[0]);
        assert("marketsChange"@[0] != "create_market"@[0]);
        assert("marketsChange"@[0] != "update_market"@[0]);
        assert("createOrder"@[1] != "cancelOrder"@[1]);
        assert("create_order"@[1] != "cancel_order"@[1]);
        assert("create_order"@[6] != "createMarket"@[6]);
        assert("create_order"@[0] != "updateMarket"@[0]);
        assert("cancel_order"@[1] != "createMarket"@[1]);
        assert("cancel_order"@[0] != "updateMarket"@[0]);
        assert("createMarket"@[0] != "updateMarket"@[0]);
        assert("create_market"@[0] != "update_market"@[0]);
        lemma_fold_entry_if(Self::spec_start(), true, "updateMarket"@, JsonV::Object(es), Self::step_fn());
        lemma_fold_entry_if(Self::spec_start(), true, "update_market"@, JsonV::Object(es), Self::step_fn());
        lemma_fold_entry_if(Self::spec_start(), true, "updateMarket"@, JsonV::Null, Self::step_fn());
        lemma_fold_entry_if(Self::spec_start(), true, "update_market"@, JsonV::Null, Self::step_fn());
    }

    /// Reading back the JSON object of a message gives the message.
    pub proof fn lemma_json_roundtrip(m: ActionV)
        requires
            Self::spec_bytes_readable(m),
            Self::spec_encode_error(m) is None,
        ensures Self::spec_from_json(Self::spec_to_json(m)) == Ok::<ActionV, JsonErrorV>(m),
    {
        let step = Self::step_fn();
        let s0 = Self::spec_start();
        let s1 = (ActionV { value: m.value }, s0.1);
        Self::lemma_entry_value(m, s0);
        let p1 = Self::spec_entry_value(m);
        assert(s1.0 == m);
    }
}

/// The `astria.protocol.transaction.v1.BridgeLock` message.
#[derive(Clone, Debug, PartialEq)]
pub struct BridgeLock {
    pub to: Option<Address>,
    pub amount: Option<Uint128>,
    pub asset: String,
    pub fee_asset: String,
    pub destination_chain_address: String,
}

/// The mathematical content of a [`BridgeLock`].
pub struct BridgeLockV {
    pub to: Option<Seq<(Seq<char>, JsonV)>>,
    pub amount: Option<Seq<(Seq<char>, JsonV)>>,
    pub asset: Seq<char>,
    pub fee_asset: Seq<char>,
    pub destination_chain_address: Seq<char>,
}

impl View for BridgeLock {
    type V = BridgeLockV;

    open spec fn view(&self) -> BridgeLockV {
        BridgeLockV {
            to: opt_embedded_view(self.to),
            amount: opt_embedded_view(self.amount),
            asset: self.asset@,
            fee_asset: self.fee_asset@,
            destination_chain_address: self.destination_chain_address@,
        }
    }
}

impl Default for BridgeLock {
    fn default() -> (r: Self)
        ensures r@ == BridgeLock::spec_default(),
    {
        let r = BridgeLock {
            to: None,
            amount: None,
            asset: String::new(),
            fee_asset: String::new(),
            destination_chain_address: String::new(),
        };
        r
    }
}

impl BridgeLock {
    /// The fully qualified protobuf name of the message.
    pub fn full_name() -> (r: String)
        ensures r@ == "astria.protocol.transaction.v1.BridgeLock"@,
    {
        "astria.protocol.transaction.v1.BridgeLock".to_string()
    }

    /// Every field at its default: empty strings, bytes and lists, zero, `false`, unset.
    pub open spec fn spec_default() -> BridgeLockV {
        BridgeLockV {
            to: None,
            amount: None,
            asset: Seq::<char>::empty(),
            fee_asset: Seq::<char>::empty(),
            destination_chain_address: Seq::<char>::empty(),
        }
    }

    /// The view of an optional field of this message type.
    pub open spec fn view_opt(o: Option<Self>) -> Option<BridgeLockV> {
        match o {
            Some(x) => Some(x@),
            None => None,
        }
    }

    /// The view of a repeated field of this message type.
    pub open spec fn view_list(v: Seq<Self>) -> Seq<BridgeLockV> {
        v.map_values(|x: Self| x@)
    }

    /// The member that the field `to` writes: none where it holds its default.
    pub open spec fn spec_entry_to(m: BridgeLockV) -> Seq<(Seq<char>, JsonV)> {
        entry_if(m.to is Some, "to"@, JsonV::Object(m.to.unwrap()))
    }

    /// The member that the field `amount` writes: none where it holds its default.
    pub open spec fn spec_entry_amount(m: BridgeLockV) -> Seq<(Seq<char>, JsonV)> {
        entry_if(m.amount is Some, "amount"@, JsonV::Object(m.amount.unwrap()))
    }

    /// The member that the field `asset` writes: none where it holds its default.
    pub open spec fn spec_entry_asset(m: BridgeLockV) -> Seq<(Seq<char>, JsonV)> {
        entry_if(m.asset.len() != 0, "asset"@, JsonV::Str(m.asset))
    }

    /// The member that the field `fee_asset` writes: none where it holds its default.
    pub open spec fn spec_entry_fee_asset(m: BridgeLockV) -> Seq<(Seq<char>, JsonV)> {
        entry_if(m.fee_asset.len() != 0, "feeAsset"@, JsonV::Str(m.fee_asset))
    }

    /// The member that the field `destination_chain_address` writes: none where it holds its default.
    pub open spec fn spec_entry_destination_chain_address(m: BridgeLockV) -> Seq<(Seq<char>, JsonV)> {
        entry_if(m.destination_chain_address.len() != 0, "destinationChainAddress"@, JsonV::Str(m.destination_chain_address))
    }

    /// The members of the JSON object of the message: each field that does not hold
    /// its default, under its JSON name, in the order of the fields.
    pub open spec fn spec_entries(m: BridgeLockV) -> Seq<(Seq<char>, JsonV)> {
        Self::spec_entry_to(m) + Self::spec_entry_amount(m) + Self::spec_entry_asset(m) + Self::spec_entry_fee_asset(m) + Self::spec_entry_destination_chain_address(m)
    }

    /// The JSON object that the protobuf JSON mapping writes for the message.
    pub open spec fn spec_to_json(m: BridgeLockV) -> JsonV {
        JsonV::Object(Self::spec_entries(m))
    }

    /// [`Self::spec_to_json`] as a function value, for repeated fields.
    pub open spec fn writer() -> spec_fn(BridgeLockV) -> JsonV {
        |m: BridgeLockV| Self::spec_to_json(m)
    }

    fn write_to(&self, es: &mut Vec<(String, Json)>)
        ensures
            view_entries(final(es)@) == view_entries(old(es)@) + Self::spec_entry_to(self@),
    {
        match &self.to {
            Some(x) => push_entry(es, "to", embedded_value(x)),
            None => {},
        }
        assert(view_entries(es@) =~= view_entries(old(es)@) + Self::spec_entry_to(self@));
    }

    fn write_amount(&self, es: &mut Vec<(String, Json)>)
        ensures
            view_entries(final(es)@) == view_entries(old(es)@) + Self::spec_entry_amount(self@),
    {
        match &self.amount {
            Some(x) => push_entry(es, "amount", embedded_value(x)),
            None => {},
        }
        assert(view_entries(es@) =~= view_entries(old(es)@) + Self::spec_entry_amount(self@));
    }

    fn write_asset(&self, es: &mut Vec<(String, Json)>)
        ensures
            view_entries(final(es)@) == view_entries(old(es)@) + Self::spec_entry_asset(self@),
    {
        if !self.asset.as_str().is_empty() {
            push_entry(es, "asset", string_value(&self.asset));
        }
        assert(view_entries(es@) =~= view_entries(old(es)@) + Self::spec_entry_asset(self@));
    }

    fn write_fee_asset(&self, es: &mut Vec<(String, Json)>)
        ensures
            view_entries(final(es)@) == view_entries(old(es)@) + Self::spec_entry_fee_asset(self@),
    {
        if !self.fee_asset.as_str().is_empty() {
            push_entry(es, "feeAsset", string_value(&self.fee_asset));
        }
        assert(view_entries(es@) =~= view_entries(old(es)@) + Self::spec_entry_fee_asset(self@));
    }

    fn write_destination_chain_address(&self, es: &mut Vec<(String, Json)>)
        ensures
            view_entries(final(es)@) == view_entries(old(es)@) + Self::spec_entry_destination_chain_address(self@),
    {
        if !self.destination_chain_address.as_str().is_empty() {
            push_entry(es, "destinationChainAddress", string_value(&self.destination_chain_address));
        }
        assert(view_entries(es@) =~= view_entries(old(es)@) + Self::spec_entry_destination_chain_address(self@));
    }

    /// Writes the message as a JSON object; reading it back gives the message.
    pub fn to_json(&self) -> (r: Json)
        ensures
            r@ == Self::spec_to_json(self@),
            Self::spec_from_json(r@) == Ok::<BridgeLockV, JsonErrorV>(self@),
    {
        let mut es: Vec<(String, Json)> = Vec::new();
        let ghost mut acc: Seq<(Seq<char>, JsonV)> = Seq::empty();
        proof {
            assert(view_entries(es@) =~= acc);
        }
        self.write_to(&mut es);
        proof {
            acc = acc + Self::spec_entry_to(self@);
        }
        self.write_amount(&mut es);
        proof {
            acc = acc + Self::spec_entry_amount(self@);
        }
        self.write_asset(&mut es);
        proof {
            acc = acc + Self::spec_entry_asset(self@);
        }
        self.write_fee_asset(&mut es);
        proof {
            acc = acc + Self::spec_entry_fee_asset(self@);
        }
        self.write_destination_chain_address(&mut es);
        proof {
            acc = acc + Self::spec_entry_destination_chain_address(self@);
        }
        proof {
            assert(acc =~= Self::spec_entries(self@));
            Self::lemma_json_roundtrip(self@);
        }
        Json::Object(es)
    }

    /// Reads one member of the object into the message under construction; `seen`
    /// records which fields that have no unset state were already given.
    pub open spec fn spec_step(st: (BridgeLockV, Seq<bool>), key: Seq<char>, v: JsonV) -> Result<(BridgeLockV, Seq<bool>), JsonErrorV> {
        let m = st.0;
        let seen = st.1;
        if key == "to"@ {
            if m.to is Some {
                Err(JsonErrorV::DuplicateField("to"@))
            } else {
                match read_embedded(v) {
                    Ok(x) => Ok((BridgeLockV { to: x, ..m }, seen)),
                    Err(e) => Err(e),
                }
            }
        } else if key == "amount"@ {
            if m.amount is Some {
                Err(JsonErrorV::DuplicateField("amount"@))
            } else {
                match read_embedded(v) {
                    Ok(x) => Ok((BridgeLockV { amount: x, ..m }, seen)),
                    Err(e) => Err(e),
                }
            }
        } else if key == "asset"@ {
            if seen[0] {
                Err(JsonErrorV::DuplicateField("asset"@))
            } else {
                match read_string(v) {
                    Ok(x) => Ok((BridgeLockV { asset: x, ..m }, seen.update(0, true))),
                    Err(e) => Err(e),
                }
            }
        } else if key == "feeAsset"@ || key == "fee_asset"@ {
            if seen[1] {
                Err(JsonErrorV::DuplicateField("feeAsset"@))
            } else {
                match read_string(v) {
                    Ok(x) => Ok((BridgeLockV { fee_asset: x, ..m }, seen.update(1, true))),
                    Err(e) => Err(e),
                }
            }
        } else if key == "destinationChainAddress"@ || key == "destination_chain_address"@ {
            if seen[2] {
                Err(JsonErrorV::DuplicateField("destinationChainAddress"@))
            } else {
                match read_string(v) {
                    Ok(x) => Ok((BridgeLockV { destination_chain_address: x, ..m }, seen.update(2, true))),
                    Err(e) => Err(e),
                }
            }
        } else {
            Err(JsonErrorV::UnknownField(key))
        }
    }

    /// [`Self::spec_step`] as a function value.
    pub open spec fn step_fn() -> spec_fn((BridgeLockV, Seq<bool>), Seq<char>, JsonV) -> Result<(BridgeLockV, Seq<bool>), JsonErrorV> {
        |st: (BridgeLockV, Seq<bool>), key: Seq<char>, v: JsonV| Self::spec_step(st, key, v)
    }

    /// The state before the first member is read: the default message, no field seen.
    pub open spec fn spec_start() -> (BridgeLockV, Seq<bool>) {
        (Self::spec_default(), seq![false, false, false])
    }

    /// The message that a JSON value describes: an object whose keys each name a field
    /// (by its JSON name or its protobuf name), at most once each; fields that are not
    /// given keep their default. The first member that is refused gives the error.
    pub open spec fn spec_from_json(j: JsonV) -> Result<BridgeLockV, JsonErrorV> {
        match j {
            JsonV::Object(es) => match fold_entries(Self::spec_start(), es, Self::step_fn()) {
                Ok(st) => Ok(st.0),
                Err(e) => Err(e),
            },
            _ => Err(JsonErrorV::ExpectedObject),
        }
    }

    /// [`Self::spec_from_json`] as a function value, for repeated fields.
    pub open spec fn reader() -> spec_fn(JsonV) -> Result<BridgeLockV, JsonErrorV> {
        |v: JsonV| Self::spec_from_json(v)
    }

    /// An optional field of this message type: `null` leaves it unset.
    pub open spec fn spec_read_opt(v: JsonV) -> Result<Option<BridgeLockV>, JsonErrorV> {
        match v {
            JsonV::Null => Ok(None),
            _ => match Self::spec_from_json(v) {
                Ok(x) => Ok(Some(x)),
                Err(e) => Err(e),
            },
        }
    }

    fn step(m: Self, seen: Vec<bool>, key: &String, v: &Json) -> (r: Result<(Self, Vec<bool>), JsonError>)
        requires seen@.len() == 3,
        ensures
            match r {
                Ok((m2, seen2)) => Self::spec_step((m@, seen@), key@, v@) == Ok::<(BridgeLockV, Seq<bool>), JsonErrorV>((m2@, seen2@)) && seen2@.len() == 3,
                Err(e) => Self::spec_step((m@, seen@), key@, v@) == Err::<(BridgeLockV, Seq<bool>), JsonErrorV>(e@),
            },
    {
        let mut m = m;
        let mut seen = seen;
        let k = key.as_str();
        if str_eq(k, "to") {
            if m.to.is_some() {
                return Err(JsonError::DuplicateField("to".to_string()));
            }
            match embedded_field(v) {
                Ok(x) => m.to = x,
                Err(e) => return Err(e),
            }
        } else if str_eq(k, "amount") {
            if m.amount.is_some() {
                return Err(JsonError::DuplicateField("amount".to_string()));
            }
            match embedded_field(v) {
                Ok(x) => m.amount = x,
                Err(e) => return Err(e),
            }
        } else if str_eq(k, "asset") {
            if seen[0] {
                return Err(JsonError::DuplicateField("asset".to_string()));
            }
            match string_field(v) {
                Ok(x) => m.asset = x,
                Err(e) => return Err(e),
            }
            seen.set(0, true);
        } else if str_eq(k, "feeAsset") || str_eq(k, "fee_asset") {
            if seen[1] {
                return Err(JsonError::DuplicateField("feeAsset".to_string()));
            }
            match string_field(v) {
                Ok(x) => m.fee_asset = x,
                Err(e) => return Err(e),
            }
            seen.set(1, true);
        } else if str_eq(k, "destinationChainAddress") || str_eq(k, "destination_chain_address") {
            if seen[2] {
                return Err(JsonError::DuplicateField("destinationChainAddress".to_string()));
            }
            match string_field(v) {
                Ok(x) => m.destination_chain_address = x,
                Err(e) => return Err(e),
            }
            seen.set(2, true);
        } else {
            return Err(JsonError::UnknownField(key.clone()));
        }
        Ok((m, seen))
    }

    /// Reads the message from a JSON value, as [`Self::spec_from_json`] describes.
    pub fn from_json(j: &Json) -> (r: Result<Self, JsonError>)
        ensures
            match r {
                Ok(m) => Self::spec_from_json(j@) == Ok::<BridgeLockV, JsonErrorV>(m@),
                Err(e) => Self::spec_from_json(j@) == Err::<BridgeLockV, JsonErrorV>(e@),
            },
    {
        let es = match j {
            Json::Object(es) => es,
            _ => return Err(JsonError::ExpectedObject),
        };
        let ghost ves = view_entries(es@);
        proof {
            lemma_view_entries_len(es@);
            assert(j@ == JsonV::Object(ves));
        }
        let mut m = Self::default();
        let mut seen: Vec<bool> = vec![false, false, false];
        let mut i: usize = 0;
        proof {
            assert(seen@ =~= Self::spec_start().1);
            assert(ves.skip(0) == ves);
        }
        while i < es.len()
            invariant
                j@ == JsonV::Object(ves),
                ves == view_entries(es@),
                ves.len() == es@.len(),
                i <= es.len(),
                seen@.len() == 3,
                fold_entries(Self::spec_start(), ves, Self::step_fn())
                    == fold_entries((m@, seen@), ves.skip(i as int), Self::step_fn()),
            decreases es.len() - i,
        {
            proof {
                lemma_view_entries_index(es@, i as int);
                lemma_fold_entries_step((m@, seen@), ves, i as int, Self::step_fn());
            }
            match Self::step(m, seen, &es[i].0, &es[i].1) {
                Ok((m2, seen2)) => {
                    m = m2;
                    seen = seen2;
                },
                Err(e) => return Err(e),
            }
            i = i + 1;
        }
        proof {
            assert(ves.skip(ves.len() as int) == Seq::<(Seq<char>, JsonV)>::empty());
            assert(fold_entries((m@, seen@), ves.skip(ves.len() as int), Self::step_fn())
                == Ok::<(BridgeLockV, Seq<bool>), JsonErrorV>((m@, seen@)));
        }
        Ok(m)
    }

    /// Reads an optional field of this message type.
    pub fn opt_from_json(v: &Json) -> (r: Result<Option<Self>, JsonError>)
        ensures
            match r {
                Ok(None) => Self::spec_read_opt(v@) == Ok::<Option<BridgeLockV>, JsonErrorV>(None),
                Ok(Some(x)) => Self::spec_read_opt(v@) == Ok::<Option<BridgeLockV>, JsonErrorV>(Some(x@)),
                Err(e) => Self::spec_read_opt(v@) == Err::<Option<BridgeLockV>, JsonErrorV>(e@),
            },
    {
        match v {
            Json::Null => Ok(None),
            _ => match Self::from_json(v) {
                Ok(x) => Ok(Some(x)),
                Err(e) => Err(e),
            },
        }
    }

    /// Reading the member that the field `to` writes sets the field.
    pub proof fn lemma_entry_to(m: BridgeLockV, st: (BridgeLockV, Seq<bool>))
        requires
            st.1.len() == 3,
            st.0.to is None,
        ensures
            fold_entries(st, Self::spec_entry_to(m), Self::step_fn()) == Ok::<(BridgeLockV, Seq<bool>), JsonErrorV>((BridgeLockV { to: m.to, ..st.0 }, st.1)),
    {
        reveal_strlit("to");
        reveal_strlit("amount");
        reveal_strlit("asset");
        reveal_strlit("feeAsset");
        reveal_strlit("fee_asset");
        reveal_strlit("destinationChainAddress");
        reveal_strlit("destination_chain_address");
        assert("to"@.len() == 2);
        assert("amount"@.len() == 6);
        assert("asset"@.len() == 5);
        assert("feeAsset"@.len() == 8);
        assert("fee_asset"@.len() == 9);
        assert("destinationChainAddress"@.len() == 23);
        assert("destination_chain_address"@.len() == 25);
        lemma_fold_entry_if(st, m.to is Some, "to"@, JsonV::Object(m.to.unwrap()), Self::step_fn());
    }

    /// Reading the member that the field `amount` writes sets the field.
    pub proof fn lemma_entry_amount(m: BridgeLockV, st: (BridgeLockV, Seq<bool>))
        requires
            st.1.len() == 3,
            st.0.amount is None,
        ensures
            fold_entries(st, Self::spec_entry_amount(m), Self::step_fn()) == Ok::<(BridgeLockV, Seq<bool>), JsonErrorV>((BridgeLockV { amount: m.amount, ..st.0 }, st.1)),
    {
        reveal_strlit("to");
        reveal_strlit("amount");
        reveal_strlit("asset");
        reveal_strlit("feeAsset");
        reveal_strlit("fee_asset");
        reveal_strlit("destinationChainAddress");
        reveal_strlit("destination_chain_address");
        assert("to"@.len() == 2);
        assert("amount"@.len() == 6);
        assert("asset"@.len() == 5);
        assert("feeAsset"@.len() == 8);
        assert("fee_asset"@.len() == 9);
        assert("destinationChainAddress"@.len() == 23);
        assert("destination_chain_address"@.len() == 25);
        lemma_fold_entry_if(st, m.amount is Some, "amount"@, JsonV::Object(m.amount.unwrap()), Self::step_fn());
    }

    /// Reading the member that the field `asset` writes sets the field.
    pub proof fn lemma_entry_asset(m: BridgeLockV, st: (BridgeLockV, Seq<bool>))
        requires
            st.1.len() == 3,
            !st.1[0],
            st.0.asset == Seq::<char>::empty(),
        ensures
            fold_entries(st, Self::spec_entry_asset(m), Self::step_fn()) == Ok::<(BridgeLockV, Seq<bool>), JsonErrorV>((BridgeLockV { asset: m.asset, ..st.0 }, if m.asset.len() != 0 { st.1.update(0, true) } else { st.1 })),
    {
        reveal_strlit("to");
        reveal_strlit("amount");
        reveal_strlit("asset");
        reveal_strlit("feeAsset");
        reveal_strlit("fee_asset");
        reveal_strlit("destinationChainAddress");
        reveal_strlit("destination_chain_address");
        assert("to"@.len() == 2);
        assert("amount"@.len() == 6);
        assert("asset"@.len() == 5);
        assert("feeAsset"@.len() == 8);
        assert("fee_asset"@.len() == 9);
        assert("destinationChainAddress"@.len() == 23);
        assert("destination_chain_address"@.len() == 25);
        if m.asset.len() == 0 {
            assert(m.asset =~= Seq::<char>::empty());
        }
        lemma_fold_entry_if(st, m.asset.len() != 0, "asset"@, JsonV::Str(m.asset), Self::step_fn());
    }

    /// Reading the member that the field `fee_asset` writes sets the field.
    pub proof fn lemma_entry_fee_asset(m: BridgeLockV, st: (BridgeLockV, Seq<bool>))
        requires
            st.1.len() == 3,
            !st.1[1],
            st.0.fee_asset == Seq::<char>::empty(),
        ensures
            fold_entries(st, Self::spec_entry_fee_asset(m), Self::step_fn()) == Ok::<(BridgeLockV, Seq<bool>), JsonErrorV>((BridgeLockV { fee_asset: m.fee_asset, ..st.0 }, if m.fee_asset.len() != 0 { st.1.update(1, true) } else { st.1 })),
    {
        reveal_strlit("to");
        reveal_strlit("amount");
        reveal_strlit("asset");
        reveal_strlit("feeAsset");
        reveal_strlit("fee_asset");
        reveal_strlit("destinationChainAddress");
        reveal_strlit("destination_chain_address");
        assert("to"@.len() == 2);
        assert("amount"@.len() == 6);
        assert("asset"@.len() == 5);
        assert("feeAsset"@.len() == 8);
        assert("fee_asset"@.len() == 9);
        assert("destinationChainAddress"@.len() == 23);
        assert("destination_chain_address"@.len() == 25);
        if m.fee_asset.len() == 0 {
            assert(m.fee_asset =~= Seq::<char>::empty());
        }
        lemma_fold_entry_if(st, m.fee_asset.len() != 0, "feeAsset"@, JsonV::Str(m.fee_asset), Self::step_fn());
    }

    /// Reading the member that the field `destination_chain_address` writes sets the field.
    pub proof fn lemma_entry_destination_chain_address(m: BridgeLockV, st: (BridgeLockV, Seq<bool>))
        requires
            st.1.len() == 3,
            !st.1[2],
            st.0.destination_chain_address == Seq::<char>::empty(),
        ensures
            fold_entries(st, Self::spec_entry_destination_chain_address(m), Self::step_fn()) == Ok::<(BridgeLockV, Seq<bool>), JsonErrorV>((BridgeLockV { destination_chain_address: m.destination_chain_address, ..st.0 }, if m.destination_chain_address.len() != 0 { st.1.update(2, true) } else { st.1 })),
    {
        reveal_strlit("to");
        reveal_strlit("amount");
        reveal_strlit("asset");
        reveal_strlit("feeAsset");
        reveal_strlit("fee_asset");
        reveal_strlit("destinationChainAddress");
        reveal_strlit("destination_chain_address");
        assert("to"@.len() == 2);
        assert("amount"@.len() == 6);
        assert("asset"@.len() == 5);
        assert("feeAsset"@.len() == 8);
        assert("fee_asset"@.len() == 9);
        assert("destinationChainAddress"@.len() == 23);
        assert("destination_chain_address"@.len() == 25);
        if m.destination_chain_address.len() == 0 {
            assert(m.destination_chain_address =~= Seq::<char>::empty());
        }
        lemma_fold_entry_if(st, m.destination_chain_address.len() != 0, "destinationChainAddress"@, JsonV::Str(m.destination_chain_address), Self::step_fn());
    }

    /// The JSON spelling of a key: the protobuf name of a field becomes its JSON name;
    /// a JSON name, and any key that names no field, is left as it is.
    pub open spec fn spec_json_key(key: Seq<char>) -> Seq<char> {
        if key == "to"@ {
            "to"@
        } else if key == "amount"@ {
            "amount"@
        } else if key == "asset"@ {
            "asset"@
        } else if key == "feeAsset"@ || key == "fee_asset"@ {
            "feeAsset"@
        } else if key == "destinationChainAddress"@ || key == "destination_chain_address"@ {
            "destinationChainAddress"@
        } else {
            key
        }
    }

    /// [`Self::spec_json_key`] as a function value.
    pub open spec fn json_key_fn() -> spec_fn(Seq<char>) -> Seq<char> {
        |key: Seq<char>| Self::spec_json_key(key)
    }

    /// One member is read alike whichever spelling its key has.
    pub proof fn lemma_step_json_key(st: (BridgeLockV, Seq<bool>), key: Seq<char>, v: JsonV)
        ensures Self::spec_step(st, key, v) == Self::spec_step(st, Self::spec_json_key(key), v),
    {
        reveal_strlit("to");
        reveal_strlit("amount");
        reveal_strlit("asset");
        reveal_strlit("feeAsset");
        reveal_strlit("fee_asset");
        reveal_strlit("destinationChainAddress");
        reveal_strlit("destination_chain_address");
        assert("to"@.len() == 2);
        assert("amount"@.len() == 6);
        assert("asset"@.len() == 5);
        assert("feeAsset"@.len() == 8);
        assert("fee_asset"@.len() == 9);
        assert("destinationChainAddress"@.len() == 23);
        assert("destination_chain_address"@.len() == 25);
        if key == "fee_asset"@ {
            assert(Self::spec_json_key(key) == "feeAsset"@);
        }
        if key == "destination_chain_address"@ {
            assert(Self::spec_json_key(key) == "destinationChainAddress"@);
        }
    }

    /// Reading an object gives the same result whichever spelling each of its keys has:
    /// two objects whose members hold the same values, in the same order, under keys of
    /// the same JSON spelling describe the same message, or are refused with the same error.
    pub proof fn lemma_key_spelling(es1: Seq<(Seq<char>, JsonV)>, es2: Seq<(Seq<char>, JsonV)>)
        requires
            es1.len() == es2.len(),
            forall|i: int| #![trigger es1[i], es2[i]] 0 <= i < es1.len() ==> es1[i].1 == es2[i].1 && Self::spec_json_key(es1[i].0) == Self::spec_json_key(es2[i].0),
        ensures Self::spec_from_json(JsonV::Object(es1)) == Self::spec_from_json(JsonV::Object(es2)),
    {
        assert forall|s: (BridgeLockV, Seq<bool>), k: Seq<char>, v: JsonV|
            #![trigger Self::step_fn()(s, k, v), Self::json_key_fn()(k)]
            Self::step_fn()(s, k, v) == Self::step_fn()(s, Self::json_key_fn()(k), v) by {
            Self::lemma_step_json_key(s, k, v);
        }
        lemma_fold_same_keys(Self::spec_start(), es1, es2, Self::step_fn(), Self::json_key_fn());
    }

    /// The keys of the object that the message writes: the JSON names of the fields that
    /// do not hold their default (for a oneof, the JSON name of the member set), in the
    /// order of the fields.
    pub open spec fn spec_written_keys(m: BridgeLockV) -> Seq<Seq<char>> {
        key_if(m.to is Some, "to"@)
            + key_if(m.amount is Some, "amount"@)
            + key_if(m.asset.len() != 0, "asset"@)
            + key_if(m.fee_asset.len() != 0, "feeAsset"@)
            + key_if(m.destination_chain_address.len() != 0, "destinationChainAddress"@)
    }

    /// The object that the message writes has exactly the keys of
    /// [`Self::spec_written_keys`], in that order.
    pub proof fn lemma_written_keys(m: BridgeLockV)
        ensures
            Self::spec_to_json(m) == JsonV::Object(Self::spec_entries(m)),
            entry_keys(Self::spec_entries(m)) == Self::spec_written_keys(m),
    {
        lemma_entry_keys_if(m.to is Some, "to"@, JsonV::Object(m.to.unwrap()));
        lemma_entry_keys_append(Self::spec_entry_to(m), m.amount is Some, "amount"@, JsonV::Object(m.amount.unwrap()));
        lemma_entry_keys_append(Self::spec_entry_to(m) + Self::spec_entry_amount(m), m.asset.len() != 0, "asset"@, JsonV::Str(m.asset));
        lemma_entry_keys_append(Self::spec_entry_to(m) + Self::spec_entry_amount(m) + Self::spec_entry_asset(m), m.fee_asset.len() != 0, "feeAsset"@, JsonV::Str(m.fee_asset));
        lemma_entry_keys_append(Self::spec_entry_to(m) + Self::spec_entry_amount(m) + Self::spec_entry_asset(m) + Self::spec_entry_fee_asset(m), m.destination_chain_address.len() != 0, "destinationChainAddress"@, JsonV::Str(m.destination_chain_address));
    }

    /// Whether the field whose JSON name is `name` holds its default in `m`; for a member
    /// of a oneof, whether the oneof is set to another member or unset. `true` for a name
    /// that names no field.
    pub open spec fn spec_holds_default(m: BridgeLockV, name: Seq<char>) -> bool {
        if name == "to"@ {
            m.to is None
        } else if name == "amount"@ {
            m.amount is None
        } else if name == "asset"@ {
            m.asset == Seq::<char>::empty()
        } else if name == "feeAsset"@ {
            m.fee_asset == Seq::<char>::empty()
        } else if name == "destinationChainAddress"@ {
            m.destination_chain_address == Seq::<char>::empty()
        } else {
            true
        }
    }

    /// Whether reading `v` for the field whose JSON name is `name` leaves the field at
    /// its default: `null`, for a field that takes it (a message field, a member of a
    /// oneof); nothing, for any other field. `true` for a name that names no field.
    pub open spec fn spec_leaves_default(name: Seq<char>, v: JsonV) -> bool {
        if name == "to"@ {
            v is Null
        } else if name == "amount"@ {
            v is Null
        } else if name == "asset"@ {
            false
        } else if name == "feeAsset"@ {
            false
        } else if name == "destinationChainAddress"@ {
            false
        } else {
            true
        }
    }

    /// Reading one member keeps a field at its default unless the key names the field
    /// and the value does not leave it there.
    pub proof fn lemma_step_keeps_default(st: (BridgeLockV, Seq<bool>), key: Seq<char>, v: JsonV, name: Seq<char>)
        requires
            Self::spec_holds_default(st.0, name),
            Self::spec_json_key(key) == name ==> Self::spec_leaves_default(name, v),
        ensures
            Self::spec_step(st, key, v) is Ok ==> Self::spec_holds_default(Self::spec_step(st, key, v)->Ok_0.0, name),
    {
        reveal_strlit("to");
        reveal_strlit("amount");
        reveal_strlit("asset");
        reveal_strlit("feeAsset");
        reveal_strlit("fee_asset");
        reveal_strlit("destinationChainAddress");
        reveal_strlit("destination_chain_address");
        assert("to"@.len() == 2);
        assert("amount"@.len() == 6);
        assert("asset"@.len() == 5);
        assert("feeAsset"@.len() == 8);
        assert("fee_asset"@.len() == 9);
        assert("destinationChainAddress"@.len() == 23);
        assert("destination_chain_address"@.len() == 25);
        Self::lemma_step_json_key(st, key, v);
    }

    /// A field whose key appears in no member of an object, or only with values that
    /// leave it at its default (`null`, for a field that takes it), holds its default in
    /// the message that the object describes.
    pub proof fn lemma_absent_default(es: Seq<(Seq<char>, JsonV)>, name: Seq<char>)
        requires
            forall|i: int| 0 <= i < es.len() ==> (Self::spec_json_key((#[trigger] es[i]).0) == name
                ==> Self::spec_leaves_default(name, es[i].1)),
        ensures
            Self::spec_from_json(JsonV::Object(es)) is Ok
                ==> Self::spec_holds_default(Self::spec_from_json(JsonV::Object(es))->Ok_0, name),
    {
        let inv = |s: (BridgeLockV, Seq<bool>)| Self::spec_holds_default(s.0, name);
        let allowed = |k: Seq<char>, v: JsonV| Self::spec_json_key(k) == name ==> Self::spec_leaves_default(name, v);
        assert forall|s: (BridgeLockV, Seq<bool>), k: Seq<char>, v: JsonV| #![trigger Self::step_fn()(s, k, v)]
            inv(s) && allowed(k, v) && Self::step_fn()(s, k, v) is Ok implies inv(Self::step_fn()(s, k, v)->Ok_0) by {
            Self::lemma_step_keeps_default(s, k, v, name);
        }
        assert(inv(Self::spec_start()));
        lemma_fold_keeps(Self::spec_start(), es, Self::step_fn(), inv, allowed);
    }

    /// The field `to` alone: an object with one member under its JSON or protobuf
    /// name reads as the message with that field set and every other field at its
    /// default, and the message with only that field off its default writes that
    /// one member under the JSON name.
    pub proof fn lemma_field_to(es: Seq<(Seq<char>, JsonV)>)
        ensures
            Self::spec_from_json(JsonV::Object(seq![("to"@, JsonV::Object(es))])) == Ok::<BridgeLockV, JsonErrorV>(BridgeLockV { to: Some(es), ..Self::spec_default() }),
            Self::spec_from_json(JsonV::Object(seq![("to"@, JsonV::Null)])) == Ok::<BridgeLockV, JsonErrorV>(Self::spec_default()),
            Self::spec_to_json(BridgeLockV { to: Some(es), ..Self::spec_default() }) == JsonV::Object(seq![("to"@, JsonV::Object(es))]),
    {
        reveal_strlit("to");
        reveal_strlit("amount");
        reveal_strlit("asset");
        reveal_strlit("feeAsset");
        reveal_strlit("fee_asset");
        reveal_strlit("destinationChainAddress");
        reveal_strlit("destination_chain_address");
        assert("to"@.len() == 2);
        assert("amount"@.len() == 6);
        assert("asset"@.len() == 5);
        assert("feeAsset"@.len() == 8);
        assert("fee_asset"@.len() == 9);
        assert("destinationChainAddress"@.len() == 23);
        assert("destination_chain_address"@.len() == 25);
        lemma_fold_entry_if(Self::spec_start(), true, "to"@, JsonV::Object(es), Self::step_fn());
        lemma_fold_entry_if(Self::spec_start(), true, "to"@, JsonV::Null, Self::step_fn());
    }

    /// The field `amount` alone: an object with one member under its JSON or protobuf
    /// name reads as the message with that field set and every other field at its
    /// default, and the message with only that field off its default writes that
    /// one member under the JSON name.
    pub proof fn lemma_field_amount(es: Seq<(Seq<char>, JsonV)>)
        ensures
            Self::spec_from_json(JsonV::Object(seq![("amount"@, JsonV::Object(es))])) == Ok::<BridgeLockV, JsonErrorV>(BridgeLockV { amount: Some(es), ..Self::spec_default() }),
            Self::spec_from_json(JsonV::Object(seq![("amount"@, JsonV::Null)])) == Ok::<BridgeLockV, JsonErrorV>(Self::spec_default()),
            Self::spec_to_json(BridgeLockV { amount: Some(es), ..Self::spec_default() }) == JsonV::Object(seq![("amount"@, JsonV::Object(es))]),
    {
        reveal_strlit("to");
        reveal_strlit("amount");
        reveal_strlit("asset");
        reveal_strlit("feeAsset");
        reveal_strlit("fee_asset");
        reveal_strlit("destinationChainAddress");
        reveal_strlit("destination_chain_address");
        assert("to"@.len() == 2);
        assert("amount"@.len() == 6);
        assert("asset"@.len() == 5);
        assert("feeAsset"@.len() == 8);
        assert("fee_asset"@.len() == 9);
        assert("destinationChainAddress"@.len() == 23);
        assert("destination_chain_address"@.len() == 25);
        lemma_fold_entry_if(Self::spec_start(), true, "amount"@, JsonV::Object(es), Self::step_fn());
        lemma_fold_entry_if(Self::spec_start(), true, "amount"@, JsonV::Null, Self::step_fn());
    }

    /// The field `asset` alone: an object with one member under its JSON or protobuf
    /// name reads as the message with that field set and every other field at its
    /// default, and the message with only that field off its default writes that
    /// one member under the JSON name.
    pub proof fn lemma_field_asset(s: Seq<char>)
        ensures
            Self::spec_from_json(JsonV::Object(seq![("asset"@, JsonV::Str(s))])) == Ok::<BridgeLockV, JsonErrorV>(BridgeLockV { asset: s, ..Self::spec_default() }),
            s.len() > 0 ==> Self::spec_to_json(BridgeLockV { asset: s, ..Self::spec_default() }) == JsonV::Object(seq![("asset"@, JsonV::Str(s))]),
    {
        reveal_strlit("to");
        reveal_strlit("amount");
        reveal_strlit("asset");
        reveal_strlit("feeAsset");
        reveal_strlit("fee_asset");
        reveal_strlit("destinationChainAddress");
        reveal_strlit("destination_chain_address");
        assert("to"@.len() == 2);
        assert("amount"@.len() == 6);
        assert("asset"@.len() == 5);
        assert("feeAsset"@.len() == 8);
        assert("fee_asset"@.len() == 9);
        assert("destinationChainAddress"@.len() == 23);
        assert("destination_chain_address"@.len() == 25);
        lemma_fold_entry_if(Self::spec_start(), true, "asset"@, JsonV::Str(s), Self::step_fn());
    }

    /// The field `fee_asset` alone: an object with one member under its JSON or protobuf
    /// name reads as the message with that field set and every other field at its
    /// default, and the message with only that field off its default writes that
    /// one member under the JSON name.
    pub proof fn lemma_field_fee_asset(s: Seq<char>)
        ensures
            Self::spec_from_json(JsonV::Object(seq![("feeAsset"@, JsonV::Str(s))])) == Ok::<BridgeLockV, JsonErrorV>(BridgeLockV { fee_asset: s, ..Self::spec_default() }),
            Self::spec_from_json(JsonV::Object(seq![("fee_asset"@, JsonV::Str(s))])) == Ok::<BridgeLockV, JsonErrorV>(BridgeLockV { fee_asset: s, ..Self::spec_default() }),
            s.len() > 0 ==> Self::spec_to_json(BridgeLockV { fee_asset: s, ..Self::spec_default() }) == JsonV::Object(seq![("feeAsset"@, JsonV::Str(s))]),
    {
        reveal_strlit("to");
        reveal_strlit("amount");
        reveal_strlit("asset");
        reveal_strlit("feeAsset");
        reveal_strlit("fee_asset");
        reveal_strlit("destinationChainAddress");
        reveal_strlit("destination_chain_address");
        assert("to"@.len() == 2);
        assert("amount"@.len() == 6);
        assert("asset"@.len() == 5);
        assert("feeAsset"@.len() == 8);
        assert("fee_asset"@.len() == 9);
        assert("destinationChainAddress"@.len() == 23);
        assert("destination_chain_address"@.len() == 25);
        lemma_fold_entry_if(Self::spec_start(), true, "feeAsset"@, JsonV::Str(s), Self::step_fn());
        lemma_fold_entry_if(Self::spec_start(), true, "fee_asset"@, JsonV::Str(s), Self::step_fn());
    }

    /// The field `destination_chain_address` alone: an object with one member under its JSON or protobuf
    /// name reads as the message with that field set and every other field at its
    /// default, and the message with only that field off its default writes that
    /// one member under the JSON name.
    pub proof fn lemma_field_destination_chain_address(s: Seq<char>)
        ensures
            Self::spec_from_json(JsonV::Object(seq![("destinationChainAddress"@, JsonV::Str(s))])) == Ok::<BridgeLockV, JsonErrorV>(BridgeLockV { destination_chain_address: s, ..Self::spec_default() }),
            Self::spec_from_json(JsonV::Object(seq![("destination_chain_address"@, JsonV::Str(s))])) == Ok::<BridgeLockV, JsonErrorV>(BridgeLockV { destination_chain_address: s, ..Self::spec_default() }),
            s.len() > 0 ==> Self::spec_to_json(BridgeLockV { destination_chain_address: s, ..Self::spec_default() }) == JsonV::Object(seq![("destinationChainAddress"@, JsonV::Str(s))]),
    {
        reveal_strlit("to");
        reveal_strlit("amount");
        reveal_strlit("asset");
        reveal_strlit("feeAsset");
        reveal_strlit("fee_asset");
        reveal_strlit("destinationChainAddress");
        reveal_strlit("destination_chain_address");
        assert("to"@.len() == 2);
        assert("amount"@.len() == 6);
        assert("asset"@.len() == 5);
        assert("feeAsset"@.len() == 8);
        assert("fee_asset"@.len() == 9);
        assert("destinationChainAddress"@.len() == 23);
        assert("destination_chain_address"@.len() == 25);
        lemma_fold_entry_if(Self::spec_start(), true, "destinationChainAddress"@, JsonV::Str(s), Self::step_fn());
        lemma_fold_entry_if(Self::spec_start(), true, "destination_chain_address"@, JsonV::Str(s), Self::step_fn());
    }

    /// Reading back the JSON object of a message gives the message.
    pub proof fn lemma_json_roundtrip(m: BridgeLockV)
        ensures Self::spec_from_json(Self::spec_to_json(m)) == Ok::<BridgeLockV, JsonErrorV>(m),
    {
        let step = Self::step_fn();
        let s0 = Self::spec_start();
        let s1 = (BridgeLockV { to: m.to, ..s0.0 }, s0.1);
        Self::lemma_entry_to(m, s0);
        let s2 = (BridgeLockV { amount: m.amount, ..s1.0 }, s1.1);
        Self::lemma_entry_amount(m, s1);
        let s3 = (BridgeLockV { asset: m.asset, ..s2.0 }, if m.asset.len() != 0 { s2.1.update(0, true) } else { s2.1 });
        Self::lemma_entry_asset(m, s2);
        let s4 = (BridgeLockV { fee_asset: m.fee_asset, ..s3.0 }, if m.fee_asset.len() != 0 { s3.1.update(1, true) } else { s3.1 });
        Self::lemma_entry_fee_asset(m, s3);
        let s5 = (BridgeLockV { destination_chain_address: m.destination_chain_address, ..s4.0 }, if m.destination_chain_address.len() != 0 { s4.1.update(2, true) } else { s4.1 });
        Self::lemma_entry_destination_chain_address(m, s4);
        let p1 = Self::spec_entry_to(m);
        let p2 = p1 + Self::spec_entry_amount(m);
        lemma_fold_entries_append(s0, p1, Self::spec_entry_amount(m), step);
        let p3 = p2 + Self::spec_entry_asset(m);
        lemma_fold_entries_append(s0, p2, Self::spec_entry_asset(m), step);
        let p4 = p3 + Self::spec_entry_fee_asset(m);
        lemma_fold_entries_append(s0, p3, Self::spec_entry_fee_asset(m), step);
        let p5 = p4 + Self::spec_entry_destination_chain_address(m);
        lemma_fold_entries_append(s0, p4, Self::spec_entry_destination_chain_address(m), step);
        assert(s5.0 == m);
    }
}

/// The `astria.protocol.transaction.v1.BridgeSudoChange` message.
#[derive(Clone, Debug, PartialEq)]
pub struct BridgeSudoChange {
    pub bridge_address: Option<Address>,
    pub new_sudo_address: Option<Address>,
    pub new_withdrawer_address: Option<Address>,
    pub fee_asset: String,
}

/// The mathematical content of a [`BridgeSudoChange`].
pub struct BridgeSudoChangeV {
    pub bridge_address: Option<Seq<(Seq<char>, JsonV)>>,
    pub new_sudo_address: Option<Seq<(Seq<char>, JsonV)>>,
    pub new_withdrawer_address: Option<Seq<(Seq<char>, JsonV)>>,
    pub fee_asset: Seq<char>,
}

impl View for BridgeSudoChange {
    type V = BridgeSudoChangeV;

    open spec fn view(&self) -> BridgeSudoChangeV {
        BridgeSudoChangeV {
            bridge_address: opt_embedded_view(self.bridge_address),
            new_sudo_address: opt_embedded_view(self.new_sudo_address),
            new_withdrawer_address: opt_embedded_view(self.new_withdrawer_address),
            fee_asset: self.fee_asset@,
        }
    }
}

impl Default for BridgeSudoChange {
    fn default() -> (r: Self)
        ensures r@ == BridgeSudoChange::spec_default(),
    {
        let r = BridgeSudoChange {
            bridge_address: None,
            new_sudo_address: None,
            new_withdrawer_address: None,
            fee_asset: String::new(),
        };
        r
    }
}

impl BridgeSudoChange {
    /// The fully qualified protobuf name of the message.
    pub fn full_name() -> (r: String)
        ensures r@ == "astria.protocol.transaction.v1.BridgeSudoChange"@,
    {
        "astria.protocol.transaction.v1.BridgeSudoChange".to_string()
    }

    /// Every field at its default: empty strings, bytes and lists, zero, `false`, unset.
    pub open spec fn spec_default() -> BridgeSudoChangeV {
        BridgeSudoChangeV {
            bridge_address: None,
            new_sudo_address: None,
            new_withdrawer_address: None,
            fee_asset: Seq::<char>::empty(),
        }
    }

    /// The view of an optional field of this message type.
    pub open spec fn view_opt(o: Option<Self>) -> Option<BridgeSudoChangeV> {
        match o {
            Some(x) => Some(x@),
            None => None,
        }
    }

    /// The view of a repeated field of this message type.
    pub open spec fn view_list(v: Seq<Self>) -> Seq<BridgeSudoChangeV> {
        v.map_values(|x: Self| x@)
    }

    /// The member that the field `bridge_address` writes: none where it holds its default.
    pub open spec fn spec_entry_bridge_address(m: BridgeSudoChangeV) -> Seq<(Seq<char>, JsonV)> {
        entry_if(m.bridge_address is Some, "bridgeAddress"@, JsonV::Object(m.bridge_address.unwrap()))
    }

    /// The member that the field `new_sudo_address` writes: none where it holds its default.
    pub open spec fn spec_entry_new_sudo_address(m: BridgeSudoChangeV) -> Seq<(Seq<char>, JsonV)> {
        entry_if(m.new_sudo_address is Some, "newSudoAddress"@, JsonV::Object(m.new_sudo_address.unwrap()))
    }

    /// The member that the field `new_withdrawer_address` writes: none where it holds its default.
    pub open spec fn spec_entry_new_withdrawer_address(m: BridgeSudoChangeV) -> Seq<(Seq<char>, JsonV)> {
        entry_if(m.new_withdrawer_address is Some, "newWithdrawerAddress"@, JsonV::Object(m.new_withdrawer_address.unwrap()))
    }

    /// The member that the field `fee_asset` writes: none where it holds its default.
    pub open spec fn spec_entry_fee_asset(m: BridgeSudoChangeV) -> Seq<(Seq<char>, JsonV)> {
        entry_if(m.fee_asset.len() != 0, "feeAsset"@, JsonV::Str(m.fee_asset))
    }

    /// The members of the JSON object of the message: each field that does not hold
    /// its default, under its JSON name, in the order of the fields.
    pub open spec fn spec_entries(m: BridgeSudoChangeV) -> Seq<(Seq<char>, JsonV)> {
        Self::spec_entry_bridge_address(m) + Self::spec_entry_new_sudo_address(m) + Self::spec_entry_new_withdrawer_address(m) + Self::spec_entry_fee_asset(m)
    }

    /// The JSON object that the protobuf JSON mapping writes for the message.
    pub open spec fn spec_to_json(m: BridgeSudoChangeV) -> JsonV {
        JsonV::Object(Self::spec_entries(m))
    }

    /// [`Self::spec_to_json`] as a function value, for repeated fields.
    pub open spec fn writer() -> spec_fn(BridgeSudoChangeV) -> JsonV {
        |m: BridgeSudoChangeV| Self::spec_to_json(m)
    }

    fn write_bridge_address(&self, es: &mut Vec<(String, Json)>)
        ensures
            view_entries(final(es)@) == view_entries(old(es)@) + Self::spec_entry_bridge_address(self@),
    {
        match &self.bridge_address {
            Some(x) => push_entry(es, "bridgeAddress", embedded_value(x)),
            None => {},
        }
        assert(view_entries(es@) =~= view_entries(old(es)@) + Self::spec_entry_bridge_address(self@));
    }

    fn write_new_sudo_address(&self, es: &mut Vec<(String, Json)>)
        ensures
            view_entries(final(es)@) == view_entries(old(es)@) + Self::spec_entry_new_sudo_address(self@),
    {
        match &self.new_sudo_address {
            Some(x) => push_entry(es, "newSudoAddress", embedded_value(x)),
            None => {},
        }
        assert(view_entries(es@) =~= view_entries(old(es)@) + Self::spec_entry_new_sudo_address(self@));
    }

    fn write_new_withdrawer_address(&self, es: &mut Vec<(String, Json)>)
        ensures
            view_entries(final(es)@) == view_entries(old(es)@) + Self::spec_entry_new_withdrawer_address(self@),
    {
        match &self.new_withdrawer_address {
            Some(x) => push_entry(es, "newWithdrawerAddress", embedded_value(x)),
            None => {},
        }
        assert(view_entries(es@) =~= view_entries(old(es)@) + Self::spec_entry_new_withdrawer_address(self@));
    }

    fn write_fee_asset(&self, es: &mut Vec<(String, Json)>)
        ensures
            view_entries(final(es)@) == view_entries(old(es)@) + Self::spec_entry_fee_asset(self@),
    {
        if !self.fee_asset.as_str().is_empty() {
            push_entry(es, "feeAsset", string_value(&self.fee_asset));
        }
        assert(view_entries(es@) =~= view_entries(old(es)@) + Self::spec_entry_fee_asset(self@));
    }

    /// Writes the message as a JSON object; reading it back gives the message.
    pub fn to_json(&self) -> (r: Json)
        ensures
            r@ == Self::spec_to_json(self@),
            Self::spec_from_json(r@) == Ok::<BridgeSudoChangeV, JsonErrorV>(self@),
    {
        let mut es: Vec<(String, Json)> = Vec::new();
        let ghost mut acc: Seq<(Seq<char>, JsonV)> = Seq::empty();
        proof {
            assert(view_entries(es@) =~= acc);
        }
        self.write_bridge_address(&mut es);
        proof {
            acc = acc + Self::spec_entry_bridge_address(self@);
        }
        self.write_new_sudo_address(&mut es);
        proof {
            acc = acc + Self::spec_entry_new_sudo_address(self@);
        }
        self.write_new_withdrawer_address(&mut es);
        proof {
            acc = acc + Self::spec_entry_new_withdrawer_address(self@);
        }
        self.write_fee_asset(&mut es);
        proof {
            acc = acc + Self::spec_entry_fee_asset(self@);
        }
        proof {
            assert(acc =~= Self::spec_entries(self@));
            Self::lemma_json_roundtrip(self@);
        }
        Json::Object(es)
    }

    /// Reads one member of the object into the message under construction; `seen`
    /// records which fields that have no unset state were already given.
    pub open spec fn spec_step(st: (BridgeSudoChangeV, Seq<bool>), key: Seq<char>, v: JsonV) -> Result<(BridgeSudoChangeV, Seq<bool>), JsonErrorV> {
        let m = st.0;
        let seen = st.1;
        if key == "bridgeAddress"@ || key == "bridge_address"@ {
            if m.bridge_address is Some {
                Err(JsonErrorV::DuplicateField("bridgeAddress"@))
            } else {
                match read_embedded(v) {
                    Ok(x) => Ok((BridgeSudoChangeV { bridge_address: x, ..m }, seen)),
                    Err(e) => Err(e),
                }
            }
        } else if key == "newSudoAddress"@ || key == "new_sudo_address"@ {
            if m.new_sudo_address is Some {
                Err(JsonErrorV::DuplicateField("newSudoAddress"@))
            } else {
                match read_embedded(v) {
                    Ok(x) => Ok((BridgeSudoChangeV { new_sudo_address: x, ..m }, seen)),
                    Err(e) => Err(e),
                }
            }
        } else if key == "newWithdrawerAddress"@ || key == "new_withdrawer_address"@ {
            if m.new_withdrawer_address is Some {
                Err(JsonErrorV::DuplicateField("newWithdrawerAddress"@))
            } else {
                match read_embedded(v) {
                    Ok(x) => Ok((BridgeSudoChangeV { new_withdrawer_address: x, ..m }, seen)),
                    Err(e) => Err(e),
                }
            }
        } else if key == "feeAsset"@ || key == "fee_asset"@ {
            if seen[0] {
                Err(JsonErrorV::DuplicateField("feeAsset"@))
            } else {
                match read_string(v) {
                    Ok(x) => Ok((BridgeSudoChangeV { fee_asset: x, ..m }, seen.update(0, true))),
                    Err(e) => Err(e),
                }
            }
        } else {
            Err(JsonErrorV::UnknownField(key))
        }
    }

    /// [`Self::spec_step`] as a function value.
    pub open spec fn step_fn() -> spec_fn((BridgeSudoChangeV, Seq<bool>), Seq<char>, JsonV) -> Result<(BridgeSudoChangeV, Seq<bool>), JsonErrorV> {
        |st: (BridgeSudoChangeV, Seq<bool>), key: Seq<char>, v: JsonV| Self::spec_step(st, key, v)
    }

    /// The state before the first member is read: the default message, no field seen.
    pub open spec fn spec_start() -> (BridgeSudoChangeV, Seq<bool>) {
        (Self::spec_default(), seq![false])
    }

    /// The message that a JSON value describes: an object whose keys each name a field
    /// (by its JSON name or its protobuf name), at most once each; fields that are not
    /// given keep their default. The first member that is refused gives the error.
    pub open spec fn spec_from_json(j: JsonV) -> Result<BridgeSudoChangeV, JsonErrorV> {
        match j {
            JsonV::Object(es) => match fold_entries(Self::spec_start(), es, Self::step_fn()) {
                Ok(st) => Ok(st.0),
                Err(e) => Err(e),
            },
            _ => Err(JsonErrorV::ExpectedObject),
        }
    }

    /// [`Self::spec_from_json`] as a function value, for repeated fields.
    pub open spec fn reader() -> spec_fn(JsonV) -> Result<BridgeSudoChangeV, JsonErrorV> {
        |v: JsonV| Self::spec_from_json(v)
    }

    /// An optional field of this message type: `null` leaves it unset.
    pub open spec fn spec_read_opt(v: JsonV) -> Result<Option<BridgeSudoChangeV>, JsonErrorV> {
        match v {
            JsonV::Null => Ok(None),
            _ => match Self::spec_from_json(v) {
                Ok(x) => Ok(Some(x)),
                Err(e) => Err(e),
            },
        }
    }

    fn step(m: Self, seen: Vec<bool>, key: &String, v: &Json) -> (r: Result<(Self, Vec<bool>), JsonError>)
        requires seen@.len() == 1,
        ensures
            match r {
                Ok((m2, seen2)) => Self::spec_step((m@, seen@), key@, v@) == Ok::<(BridgeSudoChangeV, Seq<bool>), JsonErrorV>((m2@, seen2@)) && seen2@.len() == 1,
                Err(e) => Self::spec_step((m@, seen@), key@, v@) == Err::<(BridgeSudoChangeV, Seq<bool>), JsonErrorV>(e@),
            },
    {
        let mut m = m;
        let mut seen = seen;
        let k = key.as_str();
        if str_eq(k, "bridgeAddress") || str_eq(k, "bridge_address") {
            if m.bridge_address.is_some() {
                return Err(JsonError::DuplicateField("bridgeAddress".to_string()));
            }
            match embedded_field(v) {
                Ok(x) => m.bridge_address = x,
                Err(e) => return Err(e),
            }
        } else if str_eq(k, "newSudoAddress") || str_eq(k, "new_sudo_address") {
            if m.new_sudo_address.is_some() {
                return Err(JsonError::DuplicateField("newSudoAddress".to_string()));
            }
            match embedded_field(v) {
                Ok(x) => m.new_sudo_address = x,
                Err(e) => return Err(e),
            }
        } else if str_eq(k, "newWithdrawerAddress") || str_eq(k, "new_withdrawer_address") {
            if m.new_withdrawer_address.is_some() {
                return Err(JsonError::DuplicateField("newWithdrawerAddress".to_string()));
            }
            match embedded_field(v) {
                Ok(x) => m.new_withdrawer_address = x,
                Err(e) => return Err(e),
            }
        } else if str_eq(k, "feeAsset") || str_eq(k, "fee_asset") {
            if seen[0] {
                return Err(JsonError::DuplicateField("feeAsset".to_string()));
            }
            match string_field(v) {
                Ok(x) => m.fee_asset = x,
                Err(e) => return Err(e),
            }
            seen.set(0, true);
        } else {
            return Err(JsonError::UnknownField(key.clone()));
        }
        Ok((m, seen))
    }

    /// Reads the message from a JSON value, as [`Self::spec_from_json`] describes.
    pub fn from_json(j: &Json) -> (r: Result<Self, JsonError>)
        ensures
            match r {
                Ok(m) => Self::spec_from_json(j@) == Ok::<BridgeSudoChangeV, JsonErrorV>(m@),
                Err(e) => Self::spec_from_json(j@) == Err::<BridgeSudoChangeV, JsonErrorV>(e@),
            },
    {
        let es = match j {
            Json::Object(es) => es,
            _ => return Err(JsonError::ExpectedObject),
        };
        let ghost ves = view_entries(es@);
        proof {
            lemma_view_entries_len(es@);
            assert(j@ == JsonV::Object(ves));
        }
        let mut m = Self::default();
        let mut seen: Vec<bool> = vec![false];
        let mut i: usize = 0;
        proof {
            assert(seen@ =~= Self::spec_start().1);
            assert(ves.skip(0) == ves);
        }
        while i < es.len()
            invariant
                j@ == JsonV::Object(ves),
                ves == view_entries(es@),
                ves.len() == es@.len(),
                i <= es.len(),
                seen@.len() == 1,
                fold_entries(Self::spec_start(), ves, Self::step_fn())
                    == fold_entries((m@, seen@), ves.skip(i as int), Self::step_fn()),
            decreases es.len() - i,
        {
            proof {
                lemma_view_entries_index(es@, i as int);
                lemma_fold_entries_step((m@, seen@), ves, i as int, Self::step_fn());
            }
            match Self::step(m, seen, &es[i].0, &es[i].1) {
                Ok((m2, seen2)) => {
                    m = m2;
                    seen = seen2;
                },
                Err(e) => return Err(e),
            }
            i = i + 1;
        }
        proof {
            assert(ves.skip(ves.len() as int) == Seq::<(Seq<char>, JsonV)>::empty());
            assert(fold_entries((m@, seen@), ves.skip(ves.len() as int), Self::step_fn())
                == Ok::<(BridgeSudoChangeV, Seq<bool>), JsonErrorV>((m@, seen@)));
        }
        Ok(m)
    }

    /// Reads an optional field of this message type.
    pub fn opt_from_json(v: &Json) -> (r: Result<Option<Self>, JsonError>)
        ensures
            match r {
                Ok(None) => Self::spec_read_opt(v@) == Ok::<Option<BridgeSudoChangeV>, JsonErrorV>(None),
                Ok(Some(x)) => Self::spec_read_opt(v@) == Ok::<Option<BridgeSudoChangeV>, JsonErrorV>(Some(x@)),
                Err(e) => Self::spec_read_opt(v@) == Err::<Option<BridgeSudoChangeV>, JsonErrorV>(e@),
            },
    {
        match v {
            Json::Null => Ok(None),
            _ => match Self::from_json(v) {
                Ok(x) => Ok(Some(x)),
                Err(e) => Err(e),
            },
        }
    }

    /// Reading the member that the field `bridge_address` writes sets the field.
    pub proof fn lemma_entry_bridge_address(m: BridgeSudoChangeV, st: (BridgeSudoChangeV, Seq<bool>))
        requires
            st.1.len() == 1,
            st.0.bridge_address is None,
        ensures
            fold_entries(st, Self::spec_entry_bridge_address(m), Self::step_fn()) == Ok::<(BridgeSudoChangeV, Seq<bool>), JsonErrorV>((BridgeSudoChangeV { bridge_address: m.bridge_address, ..st.0 }, st.1)),
    {
        reveal_strlit("bridgeAddress");
        reveal_strlit("bridge_address");
        reveal_strlit("newSudoAddress");
        reveal_strlit("new_sudo_address");
        reveal_strlit("newWithdrawerAddress");
        reveal_strlit("new_withdrawer_address");
        reveal_strlit("feeAsset");
        reveal_strlit("fee_asset");
        assert("bridgeAddress"@.len() == 13);
        assert("bridge_address"@.len() == 14);
        assert("newSudoAddress"@.len() == 14);
        assert("new_sudo_address"@.len() == 16);
        assert("newWithdrawerAddress"@.len() == 20);
        assert("new_withdrawer_address"@.len() == 22);
        assert("feeAsset"@.len() == 8);
        assert("fee_asset"@.len() == 9);
        assert("bridge_address"@[0] != "newSudoAddress"@[0]);
        lemma_fold_entry_if(st, m.bridge_address is Some, "bridgeAddress"@, JsonV::Object(m.bridge_address.unwrap()), Self::step_fn());
    }

    /// Reading the member that the field `new_sudo_address` writes sets the field.
    pub proof fn lemma_entry_new_sudo_address(m: BridgeSudoChangeV, st: (BridgeSudoChangeV, Seq<bool>))
        requires
            st.1.len() == 1,
            st.0.new_sudo_address is None,
        ensures
            fold_entries(st, Self::spec_entry_new_sudo_address(m), Self::step_fn()) == Ok::<(BridgeSudoChangeV, Seq<bool>), JsonErrorV>((BridgeSudoChangeV { new_sudo_address: m.new_sudo_address, ..st.0 }, st.1)),
    {
        reveal_strlit("bridgeAddress");
        reveal_strlit("bridge_address");
        reveal_strlit("newSudoAddress");
        reveal_strlit("new_sudo_address");
        reveal_strlit("newWithdrawerAddress");
        reveal_strlit("new_withdrawer_address");
        reveal_strlit("feeAsset");
        reveal_strlit("fee_asset");
        assert("bridgeAddress"@.len() == 13);
        assert("bridge_address"@.len() == 14);
        assert("newSudoAddress"@.len() == 14);
        assert("new_sudo_address"@.len() == 16);
        assert("newWithdrawerAddress"@.len() == 20);
        assert("new_withdrawer_address"@.len() == 22);
        assert("feeAsset"@.len() == 8);
        assert("fee_asset"@.len() == 9);
        assert("bridge_address"@[0] != "newSudoAddress"@[0]);
        lemma_fold_entry_if(st, m.new_sudo_address is Some, "newSudoAddress"@, JsonV::Object(m.new_sudo_address.unwrap()), Self::step_fn());
    }

    /// Reading the member that the field `new_withdrawer_address` writes sets the field.
    pub proof fn lemma_entry_new_withdrawer_address(m: BridgeSudoChangeV, st: (BridgeSudoChangeV, Seq<bool>))
        requires
            st.1.len() == 1,
            st.0.new_withdrawer_address is None,
        ensures
            fold_entries(st, Self::spec_entry_new_withdrawer_address(m), Self::step_fn()) == Ok::<(BridgeSudoChangeV, Seq<bool>), JsonErrorV>((BridgeSudoChangeV { new_withdrawer_address: m.new_withdrawer_address, ..st.0 }, st.1)),
    {
        reveal_strlit("bridgeAddress");
        reveal_strlit("bridge_address");
        reveal_strlit("newSudoAddress");
        reveal_strlit("new_sudo_address");
        reveal_strlit("newWithdrawerAddress");
        reveal_strlit("new_withdrawer_address");
        reveal_strlit("feeAsset");
        reveal_strlit("fee_asset");
        assert("bridgeAddress"@.len() == 13);
        assert("bridge_address"@.len() == 14);
        assert("newSudoAddress"@.len() == 14);
        assert("new_sudo_address"@.len() == 16);
        assert("newWithdrawerAddress"@.len() == 20);
        assert("new_withdrawer_address"@.len() == 22);
        assert("feeAsset"@.len() == 8);
        assert("fee_asset"@.len() == 9);
        assert("bridge_address"@[0] != "newSudoAddress"@[0]);
        lemma_fold_entry_if(st, m.new_withdrawer_address is Some, "newWithdrawerAddress"@, JsonV::Object(m.new_withdrawer_address.unwrap()), Self::step_fn());
    }

    /// Reading the member that the field `fee_asset` writes sets the field.
    pub proof fn lemma_entry_fee_asset(m: BridgeSudoChangeV, st: (BridgeSudoChangeV, Seq<bool>))
        requires
            st.1.len() == 1,
            !st.1[0],
            st.0.fee_asset == Seq::<char>::empty(),
        ensures
            fold_entries(st, Self::spec_entry_fee_asset(m), Self::step_fn()) == Ok::<(BridgeSudoChangeV, Seq<bool>), JsonErrorV>((BridgeSudoChangeV { fee_asset: m.fee_asset, ..st.0 }, if m.fee_asset.len() != 0 { st.1.update(0, true) } else { st.1 })),
    {
        reveal_strlit("bridgeAddress");
        reveal_strlit("bridge_address");
        reveal_strlit("newSudoAddress");
        reveal_strlit("new_sudo_address");
        reveal_strlit("newWithdrawerAddress");
        reveal_strlit("new_withdrawer_address");
        reveal_strlit("feeAsset");
        reveal_strlit("fee_asset");
        assert("bridgeAddress"@.len() == 13);
        assert("bridge_address"@.len() == 14);
        assert("newSudoAddress"@.len() == 14);
        assert("new_sudo_address"@.len() == 16);
        assert("newWithdrawerAddress"@.len() == 20);
        assert("new_withdrawer_address"@.len() == 22);
        assert("feeAsset"@.len() == 8);
        assert("fee_asset"@.len() == 9);
        assert("bridge_address"@[0] != "newSudoAddress"@[0]);
        if m.fee_asset.len() == 0 {
            assert(m.fee_asset =~= Seq::<char>::empty());
        }
        lemma_fold_entry_if(st, m.fee_asset.len() != 0, "feeAsset"@, JsonV::Str(m.fee_asset), Self::step_fn());
    }

    /// The JSON spelling of a key: the protobuf name of a field becomes its JSON name;
    /// a JSON name, and any key that names no field, is left as it is.
    pub open spec fn spec_json_key(key: Seq<char>) -> Seq<char> {
        if key == "bridgeAddress"@ || key == "bridge_address"@ {
            "bridgeAddress"@
        } else if key == "newSudoAddress"@ || key == "new_sudo_address"@ {
            "newSudoAddress"@
        } else if key == "newWithdrawerAddress"@ || key == "new_withdrawer_address"@ {
            "newWithdrawerAddress"@
        } else if key == "feeAsset"@ || key == "fee_asset"@ {
            "feeAsset"@
        } else {
            key
        }
    }

    /// [`Self::spec_json_key`] as a function value.
    pub open spec fn json_key_fn() -> spec_fn(Seq<char>) -> Seq<char> {
        |key: Seq<char>| Self::spec_json_key(key)
    }

    /// One member is read alike whichever spelling its key has.
    pub proof fn lemma_step_json_key(st: (BridgeSudoChangeV, Seq<bool>), key: Seq<char>, v: JsonV)
        ensures Self::spec_step(st, key, v) == Self::spec_step(st, Self::spec_json_key(key), v),
    {
        reveal_strlit("bridgeAddress");
        reveal_strlit("bridge_address");
        reveal_strlit("newSudoAddress");
        reveal_strlit("new_sudo_address");
        reveal_strlit("newWithdrawerAddress");
        reveal_strlit("new_withdrawer_address");
        reveal_strlit("feeAsset");
        reveal_strlit("fee_asset");
        assert("bridgeAddress"@.len() == 13);
        assert("bridge_address"@.len() == 14);
        assert("newSudoAddress"@.len() == 14);
        assert("new_sudo_address"@.len() == 16);
        assert("newWithdrawerAddress"@.len() == 20);
        assert("new_withdrawer_address"@.len() == 22);
        assert("feeAsset"@.len() == 8);
        assert("fee_asset"@.len() == 9);
        assert("bridge_address"@[0] != "newSudoAddress"@[0]);
        if key == "bridge_address"@ {
            assert(Self::spec_json_key(key) == "bridgeAddress"@);
        }
        if key == "new_sudo_address"@ {
            assert(Self::spec_json_key(key) == "newSudoAddress"@);
        }
        if key == "new_withdrawer_address"@ {
            assert(Self::spec_json_key(key) == "newWithdrawerAddress"@);
        }
        if key == "fee_asset"@ {
            assert(Self::spec_json_key(key) == "feeAsset"@);
        }
    }

    /// Reading an object gives the same result whichever spelling each of its keys has:
    /// two objects whose members hold the same values, in the same order, under keys of
    /// the same JSON spelling describe the same message, or are refused with the same error.
    pub proof fn lemma_key_spelling(es1: Seq<(Seq<char>, JsonV)>, es2: Seq<(Seq<char>, JsonV)>)
        requires
            es1.len() == es2.len(),
            forall|i: int| #![trigger es1[i], es2[i]] 0 <= i < es1.len() ==> es1[i].1 == es2[i].1 && Self::spec_json_key(es1[i].0) == Self::spec_json_key(es2[i].0),
        ensures Self::spec_from_json(JsonV::Object(es1)) == Self::spec_from_json(JsonV::Object(es2)),
    {
        assert forall|s: (BridgeSudoChangeV, Seq<bool>), k: Seq<char>, v: JsonV|
            #![trigger Self::step_fn()(s, k, v), Self::json_key_fn()(k)]
            Self::step_fn()(s, k, v) == Self::step_fn()(s, Self::json_key_fn()(k), v) by {
            Self::lemma_step_json_key(s, k, v);
        }
        lemma_fold_same_keys(Self::spec_start(), es1, es2, Self::step_fn(), Self::json_key_fn());
    }

    /// The keys of the object that the message writes: the JSON names of the fields that
    /// do not hold their default (for a oneof, the JSON name of the member set), in the
    /// order of the fields.
    pub open spec fn spec_written_keys(m: BridgeSudoChangeV) -> Seq<Seq<char>> {
        key_if(m.bridge_address is Some, "bridgeAddress"@)
            + key_if(m.new_sudo_address is Some, "newSudoAddress"@)
            + key_if(m.new_withdrawer_address is Some, "newWithdrawerAddress"@)
            + key_if(m.fee_asset.len() != 0, "feeAsset"@)
    }

    /// The object that the message writes has exactly the keys of
    /// [`Self::spec_written_keys`], in that order.
    pub proof fn lemma_written_keys(m: BridgeSudoChangeV)
        ensures
            Self::spec_to_json(m) == JsonV::Object(Self::spec_entries(m)),
            entry_keys(Self::spec_entries(m)) == Self::spec_written_keys(m),
    {
        lemma_entry_keys_if(m.bridge_address is Some, "bridgeAddress"@, JsonV::Object(m.bridge_address.unwrap()));
        lemma_entry_keys_append(Self::spec_entry_bridge_address(m), m.new_sudo_address is Some, "newSudoAddress"@, JsonV::Object(m.new_sudo_address.unwrap()));
        lemma_entry_keys_append(Self::spec_entry_bridge_address(m) + Self::spec_entry_new_sudo_address(m), m.new_withdrawer_address is Some, "newWithdrawerAddress"@, JsonV::Object(m.new_withdrawer_address.unwrap()));
        lemma_entry_keys_append(Self::spec_entry_bridge_address(m) + Self::spec_entry_new_sudo_address(m) + Self::spec_entry_new_withdrawer_address(m), m.fee_asset.len() != 0, "feeAsset"@, JsonV::Str(m.fee_asset));
    }

    /// Whether the field whose JSON name is `name` holds its default in `m`; for a member
    /// of a oneof, whether the oneof is set to another member or unset. `true` for a name
    /// that names no field.
    pub open spec fn spec_holds_default(m: BridgeSudoChangeV, name: Seq<char>) -> bool {
        if name == "bridgeAddress"@ {
            m.bridge_address is None
        } else if name == "newSudoAddress"@ {
            m.new_sudo_address is None
        } else if name == "newWithdrawerAddress"@ {
            m.new_withdrawer_address is None
        } else if name == "feeAsset"@ {
            m.fee_asset == Seq::<char>::empty()
        } else {
            true
        }
    }

    /// Whether reading `v` for the field whose JSON name is `name` leaves the field at
    /// its default: `null`, for a field that takes it (a message field, a member of a
    /// oneof); nothing, for any other field. `true` for a name that names no field.
    pub open spec fn spec_leaves_default(name: Seq<char>, v: JsonV) -> bool {
        if name == "bridgeAddress"@ {
            v is Null
        } else if name == "newSudoAddress"@ {
            v is Null
        } else if name == "newWithdrawerAddress"@ {
            v is Null
        } else if name == "feeAsset"@ {
            false
        } else {
            true
        }
    }

    /// Reading one member keeps a field at its default unless the key names the field
    /// and the value does not leave it there.
    pub proof fn lemma_step_keeps_default(st: (BridgeSudoChangeV, Seq<bool>), key: Seq<char>, v: JsonV, name: Seq<char>)
        requires
            Self::spec_holds_default(st.0, name),
            Self::spec_json_key(key) == name ==> Self::spec_leaves_default(name, v),
        ensures
            Self::spec_step(st, key, v) is Ok ==> Self::spec_holds_default(Self::spec_step(st, key, v)->Ok_0.0, name),
    {
        reveal_strlit("bridgeAddress");
        reveal_strlit("bridge_address");
        reveal_strlit("newSudoAddress");
        reveal_strlit("new_sudo_address");
        reveal_strlit("newWithdrawerAddress");
        reveal_strlit("new_withdrawer_address");
        reveal_strlit("feeAsset");
        reveal_strlit("fee_asset");
        assert("bridgeAddress"@.len() == 13);
        assert("bridge_address"@.len() == 14);
        assert("newSudoAddress"@.len() == 14);
        assert("new_sudo_address"@.len() == 16);
        assert("newWithdrawerAddress"@.len() == 20);
        assert("new_withdrawer_address"@.len() == 22);
        assert("feeAsset"@.len() == 8);
        assert("fee_asset"@.len() == 9);
        assert("bridge_address"@[0] != "newSudoAddress"@[0]);
        Self::lemma_step_json_key(st, key, v);
    }

    /// A field whose key appears in no member of an object, or only with values that
    /// leave it at its default (`null`, for a field that takes it), holds its default in
    /// the message that the object describes.
    pub proof fn lemma_absent_default(es: Seq<(Seq<char>, JsonV)>, name: Seq<char>)
        requires
            forall|i: int| 0 <= i < es.len() ==> (Self::spec_json_key((#[trigger] es[i]).0) == name
                ==> Self::spec_leaves_default(name, es[i].1)),
        ensures
            Self::spec_from_json(JsonV::Object(es)) is Ok
                ==> Self::spec_holds_default(Self::spec_from_json(JsonV::Object(es))->Ok_0, name),
    {
        let inv = |s: (BridgeSudoChangeV, Seq<bool>)| Self::spec_holds_default(s.0, name);
        let allowed = |k: Seq<char>, v: JsonV| Self::spec_json_key(k) == name ==> Self::spec_leaves_default(name, v);
        assert forall|s: (BridgeSudoChangeV, Seq<bool>), k: Seq<char>, v: JsonV| #![trigger Self::step_fn()(s, k, v)]
            inv(s) && allowed(k, v) && Self::step_fn()(s, k, v) is Ok implies inv(Self::step_fn()(s, k, v)->Ok_0) by {
            Self::lemma_step_keeps_default(s, k, v, name);
        }
        assert(inv(Self::spec_start()));
        lemma_fold_keeps(Self::spec_start(), es, Self::step_fn(), inv, allowed);
    }

    /// The field `bridge_address` alone: an object with one member under its JSON or protobuf
    /// name reads as the message with that field set and every other field at its
    /// default, and the message with only that field off its default writes that
    /// one member under the JSON name.
    pub proof fn lemma_field_bridge_address(es: Seq<(Seq<char>, JsonV)>)
        ensures
            Self::spec_from_json(JsonV::Object(seq![("bridgeAddress"@, JsonV::Object(es))])) == Ok::<BridgeSudoChangeV, JsonErrorV>(BridgeSudoChangeV { bridge_address: Some(es), ..Self::spec_default() }),
            Self::spec_from_json(JsonV::Object(seq![("bridgeAddress"@, JsonV::Null)])) == Ok::<BridgeSudoChangeV, JsonErrorV>(Self::spec_default()),
            Self::spec_from_json(JsonV::Object(seq![("bridge_address"@, JsonV::Object(es))])) == Ok::<BridgeSudoChangeV, JsonErrorV>(BridgeSudoChangeV { bridge_address: Some(es), ..Self::spec_default() }),
            Self::spec_from_json(JsonV::Object(seq![("bridge_address"@, JsonV::Null)])) == Ok::<BridgeSudoChangeV, JsonErrorV>(Self::spec_default()),
            Self::spec_to_json(BridgeSudoChangeV { bridge_address: Some(es), ..Self::spec_default() }) == JsonV::Object(seq![("bridgeAddress"@, JsonV::Object(es))]),
    {
        reveal_strlit("bridgeAddress");
        reveal_strlit("bridge_address");
        reveal_strlit("newSudoAddress");
        reveal_strlit("new_sudo_address");
        reveal_strlit("newWithdrawerAddress");
        reveal_strlit("new_withdrawer_address");
        reveal_strlit("feeAsset");
        reveal_strlit("fee_asset");
        assert("bridgeAddress"@.len() == 13);
        assert("bridge_address"@.len() == 14);
        assert("newSudoAddress"@.len() == 14);
        assert("new_sudo_address"@.len() == 16);
        assert("newWithdrawerAddress"@.len() == 20);
        assert("new_withdrawer_address"@.len() == 22);
        assert("feeAsset"@.len() == 8);
        assert("fee_asset"@.len() == 9);
        assert("bridge_address"@[0] != "newSudoAddress"@[0]);
        lemma_fold_entry_if(Self::spec_start(), true, "bridgeAddress"@, JsonV::Object(es), Self::step_fn());
        lemma_fold_entry_if(Self::spec_start(), true, "bridgeAddress"@, JsonV::Null, Self::step_fn());
        lemma_fold_entry_if(Self::spec_start(), true, "bridge_address"@, JsonV::Object(es), Self::step_fn());
        lemma_fold_entry_if(Self::spec_start(), true, "bridge_address"@, JsonV::Null, Self::step_fn());
    }

    /// The field `new_sudo_address` alone: an object with one member under its JSON or protobuf
    /// name reads as the message with that field set and every other field at its
    /// default, and the message with only that field off its default writes that
    /// one member under the JSON name.
    pub proof fn lemma_field_new_sudo_address(es: Seq<(Seq<char>, JsonV)>)
        ensures
            Self::spec_from_json(JsonV::Object(seq![("newSudoAddress"@, JsonV::Object(es))])) == Ok::<BridgeSudoChangeV, JsonErrorV>(BridgeSudoChangeV { new_sudo_address: Some(es), ..Self::spec_default() }),
            Self::spec_from_json(JsonV::Object(seq![("newSudoAddress"@, JsonV::Null)])) == Ok::<BridgeSudoChangeV, JsonErrorV>(Self::spec_default()),
            Self::spec_from_json(JsonV::Object(seq![("new_sudo_address"@, JsonV::Object(es))])) == Ok::<BridgeSudoChangeV, JsonErrorV>(BridgeSudoChangeV { new_sudo_address: Some(es), ..Self::spec_default() }),
            Self::spec_from_json(JsonV::Object(seq![("new_sudo_address"@, JsonV::Null)])) == Ok::<BridgeSudoChangeV, JsonErrorV>(Self::spec_default()),
            Self::spec_to_json(BridgeSudoChangeV { new_sudo_address: Some(es), ..Self::spec_default() }) == JsonV::Object(seq![("newSudoAddress"@, JsonV::Object(es))]),
    {
        reveal_strlit("bridgeAddress");
        reveal_strlit("bridge_address");
        reveal_strlit("newSudoAddress");
        reveal_strlit("new_sudo_address");
        reveal_strlit("newWithdrawerAddress");
        reveal_strlit("new_withdrawer_address");
        reveal_strlit("feeAsset");
        reveal_strlit("fee_asset");
        assert("bridgeAddress"@.len() == 13);
        assert("bridge_address"@.len() == 14);
        assert("newSudoAddress"@.len() == 14);
        assert("new_sudo_address"@.len() == 16);
        assert("newWithdrawerAddress"@.len() == 20);
        assert("new_withdrawer_address"@.len() == 22);
        assert("feeAsset"@.len() == 8);
        assert("fee_asset"@.len() == 9);
        assert("bridge_address"@[0] != "newSudoAddress"@[0]);
        lemma_fold_entry_if(Self::spec_start(), true, "newSudoAddress"@, JsonV::Object(es), Self::step_fn());
        lemma_fold_entry_if(Self::spec_start(), true, "newSudoAddress"@, JsonV::Null, Self::step_fn());
        lemma_fold_entry_if(Self::spec_start(), true, "new_sudo_address"@, JsonV::Object(es), Self::step_fn());
        lemma_fold_entry_if(Self::spec_start(), true, "new_sudo_address"@, JsonV::Null, Self::step_fn());
    }

    /// The field `new_withdrawer_address` alone: an object with one member under its JSON or protobuf
    /// name reads as the message with that field set and every other field at its
    /// default, and the message with only that field off its default writes that
    /// one member under the JSON name.
    pub proof fn lemma_field_new_withdrawer_address(es: Seq<(Seq<char>, JsonV)>)
        ensures
            Self::spec_from_json(JsonV::Object(seq![("newWithdrawerAddress"@, JsonV::Object(es))])) == Ok::<BridgeSudoChangeV, JsonErrorV>(BridgeSudoChangeV { new_withdrawer_address: Some(es), ..Self::spec_default() }),
            Self::spec_from_json(JsonV::Object(seq![("newWithdrawerAddress"@, JsonV::Null)])) == Ok::<BridgeSudoChangeV, JsonErrorV>(Self::spec_default()),
            Self::spec_from_json(JsonV::Object(seq![("new_withdrawer_address"@, JsonV::Object(es))])) == Ok::<BridgeSudoChangeV, JsonErrorV>(BridgeSudoChangeV { new_withdrawer_address: Some(es), ..Self::spec_default() }),
            Self::spec_from_json(JsonV::Object(seq![("new_withdrawer_address"@, JsonV::Null)])) == Ok::<BridgeSudoChangeV, JsonErrorV>(Self::spec_default()),
            Self::spec_to_json(BridgeSudoChangeV { new_withdrawer_address: Some(es), ..Self::spec_default() }) == JsonV::Object(seq![("newWithdrawerAddress"@, JsonV::Object(es))]),
    {
        reveal_strlit("bridgeAddress");
        reveal_strlit("bridge_address");
        reveal_strlit("newSudoAddress");
        reveal_strlit("new_sudo_address");
        reveal_strlit("newWithdrawerAddress");
        reveal_strlit("new_withdrawer_address");
        reveal_strlit("feeAsset");
        reveal_strlit("fee_asset");
        assert("bridgeAddress"@.len() == 13);
        assert("bridge_address"@.len() == 14);
        assert("newSudoAddress"@.len() == 14);
        assert("new_sudo_address"@.len() == 16);
        assert("newWithdrawerAddress"@.len() == 20);
        assert("new_withdrawer_address"@.len() == 22);
        assert("feeAsset"@.len() == 8);
        assert("fee_asset"@.len() == 9);
        assert("bridge_address"@[0] != "newSudoAddress"@[0]);
        lemma_fold_entry_if(Self::spec_start(), true, "newWithdrawerAddress"@, JsonV::Object(es), Self::step_fn());
        lemma_fold_entry_if(Self::spec_start(), true, "newWithdrawerAddress"@, JsonV::Null, Self::step_fn());
        lemma_fold_entry_if(Self::spec_start(), true, "new_withdrawer_address"@, JsonV::Object(es), Self::step_fn());
        lemma_fold_entry_if(Self::spec_start(), true, "new_withdrawer_address"@, JsonV::Null, Self::step_fn());
    }

    /// The field `fee_asset` alone: an object with one member under its JSON or protobuf
    /// name reads as the message with that field set and every other field at its
    /// default, and the message with only that field off its default writes that
    /// one member under the JSON name.
    pub proof fn lemma_field_fee_asset(s: Seq<char>)
        ensures
            Self::spec_from_json(JsonV::Object(seq![("feeAsset"@, JsonV::Str(s))])) == Ok::<BridgeSudoChangeV, JsonErrorV>(BridgeSudoChangeV { fee_asset: s, ..Self::spec_default() }),
            Self::spec_from_json(JsonV::Object(seq![("fee_asset"@, JsonV::Str(s))])) == Ok::<BridgeSudoChangeV, JsonErrorV>(BridgeSudoChangeV { fee_asset: s, ..Self::spec_default() }),
            s.len() > 0 ==> Self::spec_to_json(BridgeSudoChangeV { fee_asset: s, ..Self::spec_default() }) == JsonV::Object(seq![("feeAsset"@, JsonV::Str(s))]),
    {
        reveal_strlit("bridgeAddress");
        reveal_strlit("bridge_address");
        reveal_strlit("newSudoAddress");
        reveal_strlit("new_sudo_address");
        reveal_strlit("newWithdrawerAddress");
        reveal_strlit("new_withdrawer_address");
        reveal_strlit("feeAsset");
        reveal_strlit("fee_asset");
        assert("bridgeAddress"@.len() == 13);
        assert("bridge_address"@.len() == 14);
        assert("newSudoAddress"@.len() == 14);
        assert("new_sudo_address"@.len() == 16);
        assert("newWithdrawerAddress"@.len() == 20);
        assert("new_withdrawer_address"@.len() == 22);
        assert("feeAsset"@.len() == 8);
        assert("fee_asset"@.len() == 9);
        assert("bridge_address"@[0] != "newSudoAddress"@[0]);
        lemma_fold_entry_if(Self::spec_start(), true, "feeAsset"@, JsonV::Str(s), Self::step_fn());
        lemma_fold_entry_if(Self::spec_start(), true, "fee_asset"@, JsonV::Str(s), Self::step_fn());
    }

    /// Reading back the JSON object of a message gives the message.
    pub proof fn lemma_json_roundtrip(m: BridgeSudoChangeV)
        ensures Self::spec_from_json(Self::spec_to_json(m)) == Ok::<BridgeSudoChangeV, JsonErrorV>(m),
    {
        let step = Self::step_fn();
        let s0 = Self::spec_start();
        let s1 = (BridgeSudoChangeV { bridge_address: m.bridge_address, ..s0.0 }, s0.1);
        Self::lemma_entry_bridge_address(m, s0);
        let s2 = (BridgeSudoChangeV { new_sudo_address: m.new_sudo_address, ..s1.0 }, s1.1);
        Self::lemma_entry_new_sudo_address(m, s1);
        let s3 = (BridgeSudoChangeV { new_withdrawer_address: m.new_withdrawer_address, ..s2.0 }, s2.1);
        Self::lemma_entry_new_withdrawer_address(m, s2);
        let s4 = (BridgeSudoChangeV { fee_asset: m.fee_asset, ..s3.0 }, if m.fee_asset.len() != 0 { s3.1.update(0, true) } else { s3.1 });
        Self::lemma_entry_fee_asset(m, s3);
        let p1 = Self::spec_entry_bridge_address(m);
        let p2 = p1 + Self::spec_entry_new_sudo_address(m);
        lemma_fold_entries_append(s0, p1, Self::spec_entry_new_sudo_address(m), step);
        let p3 = p2 + Self::spec_entry_new_withdrawer_address(m);
        lemma_fold_entries_append(s0, p2, Self::spec_entry_new_withdrawer_address(m), step);
        let p4 = p3 + Self::spec_entry_fee_asset(m);
        lemma_fold_entries_append(s0, p3, Self::spec_entry_fee_asset(m), step);
        assert(s4.0 == m);
    }
}

/// The `astria.protocol.transaction.v1.BridgeTransfer` message.
#[derive(Clone, Debug, PartialEq)]
pub struct BridgeTransfer {
    pub to: Option<Address>,
    pub amount: Option<Uint128>,
    pub fee_asset: String,
    pub destination_chain_address: String,
    pub bridge_address: Option<Address>,
    pub rollup_block_number: u64,
    pub rollup_withdrawal_event_id: String,
}

/// The mathematical content of a [`BridgeTransfer`].
pub struct BridgeTransferV {
    pub to: Option<Seq<(Seq<char>, JsonV)>>,
    pub amount: Option<Seq<(Seq<char>, JsonV)>>,
    pub fee_asset: Seq<char>,
    pub destination_chain_address: Seq<char>,
    pub bridge_address: Option<Seq<(Seq<char>, JsonV)>>,
    pub rollup_block_number: u64,
    pub rollup_withdrawal_event_id: Seq<char>,
}

impl View for BridgeTransfer {
    type V = BridgeTransferV;

    open spec fn view(&self) -> BridgeTransferV {
        BridgeTransferV {
            to: opt_embedded_view(self.to),
            amount: opt_embedded_view(self.amount),
            fee_asset: self.fee_asset@,
            destination_chain_address: self.destination_chain_address@,
            bridge_address: opt_embedded_view(self.bridge_address),
            rollup_block_number: self.rollup_block_number,
            rollup_withdrawal_event_id: self.rollup_withdrawal_event_id@,
        }
    }
}

impl Default for BridgeTransfer {
    fn default() -> (r: Self)
        ensures r@ == BridgeTransfer::spec_default(),
    {
        let r = BridgeTransfer {
            to: None,
            amount: None,
            fee_asset: String::new(),
            destination_chain_address: String::new(),
            bridge_address: None,
            rollup_block_number: 0,
            rollup_withdrawal_event_id: String::new(),
        };
        r
    }
}

impl BridgeTransfer {
    /// The fully qualified protobuf name of the message.
    pub fn full_name() -> (r: String)
        ensures r@ == "astria.protocol.transaction.v1.BridgeTransfer"@,
    {
        "astria.protocol.transaction.v1.BridgeTransfer".to_string()
    }

    /// Every field at its default: empty strings, bytes and lists, zero, `false`, unset.
    pub open spec fn spec_default() -> BridgeTransferV {
        BridgeTransferV {
            to: None,
            amount: None,
            fee_asset: Seq::<char>::empty(),
            destination_chain_address: Seq::<char>::empty(),
            bridge_address: None,
            rollup_block_number: 0,
            rollup_withdrawal_event_id: Seq::<char>::empty(),
        }
    }

    /// The view of an optional field of this message type.
    pub open spec fn view_opt(o: Option<Self>) -> Option<BridgeTransferV> {
        match o {
            Some(x) => Some(x@),
            None => None,
        }
    }

    /// The view of a repeated field of this message type.
    pub open spec fn view_list(v: Seq<Self>) -> Seq<BridgeTransferV> {
        v.map_values(|x: Self| x@)
    }

    /// The member that the field `to` writes: none where it holds its default.
    pub open spec fn spec_entry_to(m: BridgeTransferV) -> Seq<(Seq<char>, JsonV)> {
        entry_if(m.to is Some, "to"@, JsonV::Object(m.to.unwrap()))
    }

    /// The member that the field `amount` writes: none where it holds its default.
    pub open spec fn spec_entry_amount(m: BridgeTransferV) -> Seq<(Seq<char>, JsonV)> {
        entry_if(m.amount is Some, "amount"@, JsonV::Object(m.amount.unwrap()))
    }

    /// The member that the field `fee_asset` writes: none where it holds its default.
    pub open spec fn spec_entry_fee_asset(m: BridgeTransferV) -> Seq<(Seq<char>, JsonV)> {
        entry_if(m.fee_asset.len() != 0, "feeAsset"@, JsonV::Str(m.fee_asset))
    }

    /// The member that the field `destination_chain_address` writes: none where it holds its default.
    pub open spec fn spec_entry_destination_chain_address(m: BridgeTransferV) -> Seq<(Seq<char>, JsonV)> {
        entry_if(m.destination_chain_address.len() != 0, "destinationChainAddress"@, JsonV::Str(m.destination_chain_address))
    }

    /// The member that the field `bridge_address` writes: none where it holds its default.
    pub open spec fn spec_entry_bridge_address(m: BridgeTransferV) -> Seq<(Seq<char>, JsonV)> {
        entry_if(m.bridge_address is Some, "bridgeAddress"@, JsonV::Object(m.bridge_address.unwrap()))
    }

    /// The member that the field `rollup_block_number` writes: none where it holds its default.
    pub open spec fn spec_entry_rollup_block_number(m: BridgeTransferV) -> Seq<(Seq<char>, JsonV)> {
        entry_if(m.rollup_block_number != 0, "rollupBlockNumber"@, JsonV::Str(decimal(m.rollup_block_number as nat)))
    }

    /// The member that the field `rollup_withdrawal_event_id` writes: none where it holds its default.
    pub open spec fn spec_entry_rollup_withdrawal_event_id(m: BridgeTransferV) -> Seq<(Seq<char>, JsonV)> {
        entry_if(m.rollup_withdrawal_event_id.len() != 0, "rollupWithdrawalEventId"@, JsonV::Str(m.rollup_withdrawal_event_id))
    }

    /// The members of the JSON object of the message: each field that does not hold
    /// its default, under its JSON name, in the order of the fields.
    pub open spec fn spec_entries(m: BridgeTransferV) -> Seq<(Seq<char>, JsonV)> {
        Self::spec_entry_to(m) + Self::spec_entry_amount(m) + Self::spec_entry_fee_asset(m) + Self::spec_entry_destination_chain_address(m) + Self::spec_entry_bridge_address(m) + Self::spec_entry_rollup_block_number(m) + Self::spec_entry_rollup_withdrawal_event_id(m)
    }

    /// The JSON object that the protobuf JSON mapping writes for the message.
    pub open spec fn spec_to_json(m: BridgeTransferV) -> JsonV {
        JsonV::Object(Self::spec_entries(m))
    }

    /// [`Self::spec_to_json`] as a function value, for repeated fields.
    pub open spec fn writer() -> spec_fn(BridgeTransferV) -> JsonV {
        |m: BridgeTransferV| Self::spec_to_json(m)
    }

    fn write_to(&self, es: &mut Vec<(String, Json)>)
        ensures
            view_entries(final(es)@) == view_entries(old(es)@) + Self::spec_entry_to(self@),
    {
        match &self.to {
            Some(x) => push_entry(es, "to", embedded_value(x)),
            None => {},
        }
        assert(view_entries(es@) =~= view_entries(old(es)@) + Self::spec_entry_to(self@));
    }

    fn write_amount(&self, es: &mut Vec<(String, Json)>)
        ensures
            view_entries(final(es)@) == view_entries(old(es)@) + Self::spec_entry_amount(self@),
    {
        match &self.amount {
            Some(x) => push_entry(es, "amount", embedded_value(x)),
            None => {},
        }
        assert(view_entries(es@) =~= view_entries(old(es)@) + Self::spec_entry_amount(self@));
    }

    fn write_fee_asset(&self, es: &mut Vec<(String, Json)>)
        ensures
            view_entries(final(es)@) == view_entries(old(es)@) + Self::spec_entry_fee_asset(self@),
    {
        if !self.fee_asset.as_str().is_empty() {
            push_entry(es, "feeAsset", string_value(&self.fee_asset));
        }
        assert(view_entries(es@) =~= view_entries(old(es)@) + Self::spec_entry_fee_asset(self@));
    }

    fn write_destination_chain_address(&self, es: &mut Vec<(String, Json)>)
        ensures
            view_entries(final(es)@) == view_entries(old(es)@) + Self::spec_entry_destination_chain_address(self@),
    {
        if !self.destination_chain_address.as_str().is_empty() {
            push_entry(es, "destinationChainAddress", string_value(&self.destination_chain_address));
        }
        assert(view_entries(es@) =~= view_entries(old(es)@) + Self::spec_entry_destination_chain_address(self@));
    }

    fn write_bridge_address(&self, es: &mut Vec<(String, Json)>)
        ensures
            view_entries(final(es)@) == view_entries(old(es)@) + Self::spec_entry_bridge_address(self@),
    {
        match &self.bridge_address {
            Some(x) => push_entry(es, "bridgeAddress", embedded_value(x)),
            None => {},
        }
        assert(view_entries(es@) =~= view_entries(old(es)@) + Self::spec_entry_bridge_address(self@));
    }

    fn write_rollup_block_number(&self, es: &mut Vec<(String, Json)>)
        ensures
            view_entries(final(es)@) == view_entries(old(es)@) + Self::spec_entry_rollup_block_number(self@),
    {
        if self.rollup_block_number != 0 {
            push_entry(es, "rollupBlockNumber", u64_value(self.rollup_block_number));
        }
        assert(view_entries(es@) =~= view_entries(old(es)@) + Self::spec_entry_rollup_block_number(self@));
    }

    fn write_rollup_withdrawal_event_id(&self, es: &mut Vec<(String, Json)>)
        ensures
            view_entries(final(es)@) == view_entries(old(es)@) + Self::spec_entry_rollup_withdrawal_event_id(self@),
    {
        if !self.rollup_withdrawal_event_id.as_str().is_empty() {
            push_entry(es, "rollupWithdrawalEventId", string_value(&self.rollup_withdrawal_event_id));
        }
        assert(view_entries(es@) =~= view_entries(old(es)@) + Self::spec_entry_rollup_withdrawal_event_id(self@));
    }

    /// Writes the message as a JSON object; reading it back gives the message.
    pub fn to_json(&self) -> (r: Json)
        ensures
            r@ == Self::spec_to_json(self@),
            Self::spec_from_json(r@) == Ok::<BridgeTransferV, JsonErrorV>(self@),
    {
        let mut es: Vec<(String, Json)> = Vec::new();
        let ghost mut acc: Seq<(Seq<char>, JsonV)> = Seq::empty();
        proof {
            assert(view_entries(es@) =~= acc);
        }
        self.write_to(&mut es);
        proof {
            acc = acc + Self::spec_entry_to(self@);
        }
        self.write_amount(&mut es);
        proof {
            acc = acc + Self::spec_entry_amount(self@);
        }
        self.write_fee_asset(&mut es);
        proof {
            acc = acc + Self::spec_entry_fee_asset(self@);
        }
        self.write_destination_chain_address(&mut es);
        proof {
            acc = acc + Self::spec_entry_destination_chain_address(self@);
        }
        self.write_bridge_address(&mut es);
        proof {
            acc = acc + Self::spec_entry_bridge_address(self@);
        }
        self.write_rollup_block_number(&mut es);
        proof {
            acc = acc + Self::spec_entry_rollup_block_number(self@);
        }
        self.write_rollup_withdrawal_event_id(&mut es);
        proof {
            acc = acc + Self::spec_entry_rollup_withdrawal_event_id(self@);
        }
        proof {
            assert(acc =~= Self::spec_entries(self@));
            Self::lemma_json_roundtrip(self@);
        }
        Json::Object(es)
    }

    /// Reads one member of the object into the message under construction; `seen`
    /// records which fields that have no unset state were already given.
    pub open spec fn spec_step(st: (BridgeTransferV, Seq<bool>), key: Seq<char>, v: JsonV) -> Result<(BridgeTransferV, Seq<bool>), JsonErrorV> {
        let m = st.0;
        let seen = st.1;
        if key == "to"@ {
            if m.to is Some {
                Err(JsonErrorV::DuplicateField("to"@))
            } else {
                match read_embedded(v) {
                    Ok(x) => Ok((BridgeTransferV { to: x, ..m }, seen)),
                    Err(e) => Err(e),
                }
            }
        } else if key == "amount"@ {
            if m.amount is Some {
                Err(JsonErrorV::DuplicateField("amount"@))
            } else {
                match read_embedded(v) {
                    Ok(x) => Ok((BridgeTransferV { amount: x, ..m }, seen)),
                    Err(e) => Err(e),
                }
            }
        } else if key == "feeAsset"@ || key == "fee_asset"@ {
            if seen[0] {
                Err(JsonErrorV::DuplicateField("feeAsset"@))
            } else {
                match read_string(v) {
                    Ok(x) => Ok((BridgeTransferV { fee_asset: x, ..m }, seen.update(0, true))),
                    Err(e) => Err(e),
                }
            }
        } else if key == "destinationChainAddress"@ || key == "destination_chain_address"@ {
            if seen[1] {
                Err(JsonErrorV::DuplicateField("destinationChainAddress"@))
            } else {
                match read_string(v) {
                    Ok(x) => Ok((BridgeTransferV { destination_chain_address: x, ..m }, seen.update(1, true))),
                    Err(e) => Err(e),
                }
            }
        } else if key == "bridgeAddress"@ || key == "bridge_address"@ {
            if m.bridge_address is Some {
                Err(JsonErrorV::DuplicateField("bridgeAddress"@))
            } else {
                match read_embedded(v) {
                    Ok(x) => Ok((BridgeTransferV { bridge_address: x, ..m }, seen)),
                    Err(e) => Err(e),
                }
            }
        } else if key == "rollupBlockNumber"@ || key == "rollup_block_number"@ {
            if seen[2] {
                Err(JsonErrorV::DuplicateField("rollupBlockNumber"@))
            } else {
                match read_u64(v) {
                    Ok(x) => Ok((BridgeTransferV { rollup_block_number: x, ..m }, seen.update(2, true))),
                    Err(e) => Err(e),
                }
            }
        } else if key == "rollupWithdrawalEventId"@ || key == "rollup_withdrawal_event_id"@ {
            if seen[3] {
                Err(JsonErrorV::DuplicateField("rollupWithdrawalEventId"@))
            } else {
                match read_string(v) {
                    Ok(x) => Ok((BridgeTransferV { rollup_withdrawal_event_id: x, ..m }, seen.update(3, true))),
                    Err(e) => Err(e),
                }
            }
        } else {
            Err(JsonErrorV::UnknownField(key))
        }
    }

    /// [`Self::spec_step`] as a function value.
    pub open spec fn step_fn() -> spec_fn((BridgeTransferV, Seq<bool>), Seq<char>, JsonV) -> Result<(BridgeTransferV, Seq<bool>), JsonErrorV> {
        |st: (BridgeTransferV, Seq<bool>), key: Seq<char>, v: JsonV| Self::spec_step(st, key, v)
    }

    /// The state before the first member is read: the default message, no field seen.
    pub open spec fn spec_start() -> (BridgeTransferV, Seq<bool>) {
        (Self::spec_default(), seq![false, false, false, false])
    }

    /// The message that a JSON value describes: an object whose keys each name a field
    /// (by its JSON name or its protobuf name), at most once each; fields that are not
    /// given keep their default. The first member that is refused gives the error.
    pub open spec fn spec_from_json(j: JsonV) -> Result<BridgeTransferV, JsonErrorV> {
        match j {
            JsonV::Object(es) => match fold_entries(Self::spec_start(), es, Self::step_fn()) {
                Ok(st) => Ok(st.0),
                Err(e) => Err(e),
            },
            _ => Err(JsonErrorV::ExpectedObject),
        }
    }

    /// [`Self::spec_from_json`] as a function value, for repeated fields.
    pub open spec fn reader() -> spec_fn(JsonV) -> Result<BridgeTransferV, JsonErrorV> {
        |v: JsonV| Self::spec_from_json(v)
    }

    /// An optional field of this message type: `null` leaves it unset.
    pub open spec fn spec_read_opt(v: JsonV) -> Result<Option<BridgeTransferV>, JsonErrorV> {
        match v {
            JsonV::Null => Ok(None),
            _ => match Self::spec_from_json(v) {
                Ok(x) => Ok(Some(x)),
                Err(e) => Err(e),
            },
        }
    }

    fn step(m: Self, seen: Vec<bool>, key: &String, v: &Json) -> (r: Result<(Self, Vec<bool>), JsonError>)
        requires seen@.len() == 4,
        ensures
            match r {
                Ok((m2, seen2)) => Self::spec_step((m@, seen@), key@, v@) == Ok::<(BridgeTransferV, Seq<bool>), JsonErrorV>((m2@, seen2@)) && seen2@.len() == 4,
                Err(e) => Self::spec_step((m@, seen@), key@, v@) == Err::<(BridgeTransferV, Seq<bool>), JsonErrorV>(e@),
            },
    {
        let mut m = m;
        let mut seen = seen;
        let k = key.as_str();
        if str_eq(k, "to") {
            if m.to.is_some() {
                return Err(JsonError::DuplicateField("to".to_string()));
            }
            match embedded_field(v) {
                Ok(x) => m.to = x,
                Err(e) => return Err(e),
            }
        } else if str_eq(k, "amount") {
            if m.amount.is_some() {
                return Err(JsonError::DuplicateField("amount".to_string()));
            }
            match embedded_field(v) {
                Ok(x) => m.amount = x,
                Err(e) => return Err(e),
            }
        } else if str_eq(k, "feeAsset") || str_eq(k, "fee_asset") {
            if seen[0] {
                return Err(JsonError::DuplicateField("feeAsset".to_string()));
            }
            match string_field(v) {
                Ok(x) => m.fee_asset = x,
                Err(e) => return Err(e),
            }
            seen.set(0, true);
        } else if str_eq(k, "destinationChainAddress") || str_eq(k, "destination_chain_address") {
            if seen[1] {
                return Err(JsonError::DuplicateField("destinationChainAddress".to_string()));
            }
            match string_field(v) {
                Ok(x) => m.destination_chain_address = x,
                Err(e) => return Err(e),
            }
            seen.set(1, true);
        } else if str_eq(k, "bridgeAddress") || str_eq(k, "bridge_address") {
            if m.bridge_address.is_some() {
                return Err(JsonError::DuplicateField("bridgeAddress".to_string()));
            }
            match embedded_field(v) {
                Ok(x) => m.bridge_address = x,
                Err(e) => return Err(e),
            }
        } else if str_eq(k, "rollupBlockNumber") || str_eq(k, "rollup_block_number") {
            if seen[2] {
                return Err(JsonError::DuplicateField("rollupBlockNumber".to_string()));
            }
            match u64_field(v) {
                Ok(x) => m.rollup_block_number = x,
                Err(e) => return Err(e),
            }
            seen.set(2, true);
        } else if str_eq(k, "rollupWithdrawalEventId") || str_eq(k, "rollup_withdrawal_event_id") {
            if seen[3] {
                return Err(JsonError::DuplicateField("rollupWithdrawalEventId".to_string()));
            }
            match string_field(v) {
                Ok(x) => m.rollup_withdrawal_event_id = x,
                Err(e) => return Err(e),
            }
            seen.set(3, true);
        } else {
            return Err(JsonError::UnknownField(key.clone()));
        }
        Ok((m, seen))
    }

    /// Reads the message from a JSON value, as [`Self::spec_from_json`] describes.
    pub fn from_json(j: &Json) -> (r: Result<Self, JsonError>)
        ensures
            match r {
                Ok(m) => Self::spec_from_json(j@) == Ok::<BridgeTransferV, JsonErrorV>(m@),
                Err(e) => Self::spec_from_json(j@) == Err::<BridgeTransferV, JsonErrorV>(e@),
            },
    {
        let es = match j {
            Json::Object(es) => es,
            _ => return Err(JsonError::ExpectedObject),
        };
        let ghost ves = view_entries(es@);
        proof {
            lemma_view_entries_len(es@);
            assert(j@ == JsonV::Object(ves));
        }
        let mut m = Self::default();
        let mut seen: Vec<bool> = vec![false, false, false, false];
        let mut i: usize = 0;
        proof {
            assert(seen@ =~= Self::spec_start().1);
            assert(ves.skip(0) == ves);
        }
        while i < es.len()
            invariant
                j@ == JsonV::Object(ves),
                ves == view_entries(es@),
                ves.len() == es@.len(),
                i <= es.len(),
                seen@.len() == 4,
                fold_entries(Self::spec_start(), ves, Self::step_fn())
                    == fold_entries((m@, seen@), ves.skip(i as int), Self::step_fn()),
            decreases es.len() - i,
        {
            proof {
                lemma_view_entries_index(es@, i as int);
                lemma_fold_entries_step((m@, seen@), ves, i as int, Self::step_fn());
            }
            match Self::step(m, seen, &es[i].0, &es[i].1) {
                Ok((m2, seen2)) => {
                    m = m2;
                    seen = seen2;
                },
                Err(e) => return Err(e),
            }
            i = i + 1;
        }
        proof {
            assert(ves.skip(ves.len() as int) == Seq::<(Seq<char>, JsonV)>::empty());
            assert(fold_entries((m@, seen@), ves.skip(ves.len() as int), Self::step_fn())
                == Ok::<(BridgeTransferV, Seq<bool>), JsonErrorV>((m@, seen@)));
        }
        Ok(m)
    }

    /// Reads an optional field of this message type.
    pub fn opt_from_json(v: &Json) -> (r: Result<Option<Self>, JsonError>)
        ensures
            match r {
                Ok(None) => Self::spec_read_opt(v@) == Ok::<Option<BridgeTransferV>, JsonErrorV>(None),
                Ok(Some(x)) => Self::spec_read_opt(v@) == Ok::<Option<BridgeTransferV>, JsonErrorV>(Some(x@)),
                Err(e) => Self::spec_read_opt(v@) == Err::<Option<BridgeTransferV>, JsonErrorV>(e@),
            },
    {
        match v {
            Json::Null => Ok(None),
            _ => match Self::from_json(v) {
                Ok(x) => Ok(Some(x)),
                Err(e) => Err(e),
            },
        }
    }

    /// Reading the member that the field `to` writes sets the field.
    pub proof fn lemma_entry_to(m: BridgeTransferV, st: (BridgeTransferV, Seq<bool>))
        requires
            st.1.len() == 4,
            st.0.to is None,
        ensures
            fold_entries(st, Self::spec_entry_to(m), Self::step_fn()) == Ok::<(BridgeTransferV, Seq<bool>), JsonErrorV>((BridgeTransferV { to: m.to, ..st.0 }, st.1)),
    {
        reveal_strlit("to");
        reveal_strlit("amount");
        reveal_strlit("feeAsset");
        reveal_strlit("fee_asset");
        reveal_strlit("destinationChainAddress");
        reveal_strlit("destination_chain_address");
        reveal_strlit("bridgeAddress");
        reveal_strlit("bridge_address");
        reveal_strlit("rollupBlockNumber");
        reveal_strlit("rollup_block_number");
        reveal_strlit("rollupWithdrawalEventId");
        reveal_strlit("rollup_withdrawal_event_id");
        assert("to"@.len() == 2);
        assert("amount"@.len() == 6);
        assert("feeAsset"@.len() == 8);
        assert("fee_asset"@.len() == 9);
        assert("destinationChainAddress"@.len() == 23);
        assert("destination_chain_address"@.len() == 25);
        assert("bridgeAddress"@.len() == 13);
        assert("bridge_address"@.len() == 14);
        assert("rollupBlockNumber"@.len() == 17);
        assert("rollup_block_number"@.len() == 19);
        assert("rollupWithdrawalEventId"@.len() == 23);
        assert("rollup_withdrawal_event_id"@.len() == 26);
        assert("destinationChainAddress"@[0] != "rollupWithdrawalEventId"@[0]);
        lemma_fold_entry_if(st, m.to is Some, "to"@, JsonV::Object(m.to.unwrap()), Self::step_fn());
    }

    /// Reading the member that the field `amount` writes sets the field.
    pub proof fn lemma_entry_amount(m: BridgeTransferV, st: (BridgeTransferV, Seq<bool>))
        requires
            st.1.len() == 4,
            st.0.amount is None,
        ensures
            fold_entries(st, Self::spec_entry_amount(m), Self::step_fn()) == Ok::<(BridgeTransferV, Seq<bool>), JsonErrorV>((BridgeTransferV { amount: m.amount, ..st.0 }, st.1)),
    {
        reveal_strlit("to");
        reveal_strlit("amount");
        reveal_strlit("feeAsset");
        reveal_strlit("fee_asset");
        reveal_strlit("destinationChainAddress");
        reveal_strlit("destination_chain_address");
        reveal_strlit("bridgeAddress");
        reveal_strlit("bridge_address");
        reveal_strlit("rollupBlockNumber");
        reveal_strlit("rollup_block_number");
        reveal_strlit("rollupWithdrawalEventId");
        reveal_strlit("rollup_withdrawal_event_id");
        assert("to"@.len() == 2);
        assert("amount"@.len() == 6);
        assert("feeAsset"@.len() == 8);
        assert("fee_asset"@.len() == 9);
        assert("destinationChainAddress"@.len() == 23);
        assert("destination_chain_address"@.len() == 25);
        assert("bridgeAddress"@.len() == 13);
        assert("bridge_address"@.len() == 14);
        assert("rollupBlockNumber"@.len() == 17);
        assert("rollup_block_number"@.len() == 19);
        assert("rollupWithdrawalEventId"@.len() == 23);
        assert("rollup_withdrawal_event_id"@.len() == 26);
        assert("destinationChainAddress"@[0] != "rollupWithdrawalEventId"@[0]);
        lemma_fold_entry_if(st, m.amount is Some, "amount"@, JsonV::Object(m.amount.unwrap()), Self::step_fn());
    }

    /// Reading the member that the field `fee_asset` writes sets the field.
    pub proof fn lemma_entry_fee_asset(m: BridgeTransferV, st: (BridgeTransferV, Seq<bool>))
        requires
            st.1.len() == 4,
            !st.1[0],
            st.0.fee_asset == Seq::<char>::empty(),
        ensures
            fold_entries(st, Self::spec_entry_fee_asset(m), Self::step_fn()) == Ok::<(BridgeTransferV, Seq<bool>), JsonErrorV>((BridgeTransferV { fee_asset: m.fee_asset, ..st.0 }, if m.fee_asset.len() != 0 { st.1.update(0, true) } else { st.1 })),
    {
        reveal_strlit("to");
        reveal_strlit("amount");
        reveal_strlit("feeAsset");
        reveal_strlit("fee_asset");
        reveal_strlit("destinationChainAddress");
        reveal_strlit("destination_chain_address");
        reveal_strlit("bridgeAddress");
        reveal_strlit("bridge_address");
        reveal_strlit("rollupBlockNumber");
        reveal_strlit("rollup_block_number");
        reveal_strlit("rollupWithdrawalEventId");
        reveal_strlit("rollup_withdrawal_event_id");
        assert("to"@.len() == 2);
        assert("amount"@.len() == 6);
        assert("feeAsset"@.len() == 8);
        assert("fee_asset"@.len() == 9);
        assert("destinationChainAddress"@.len() == 23);
        assert("destination_chain_address"@.len() == 25);
        assert("bridgeAddress"@.len() == 13);
        assert("bridge_address"@.len() == 14);
        assert("rollupBlockNumber"@.len() == 17);
        assert("rollup_block_number"@.len() == 19);
        assert("rollupWithdrawalEventId"@.len() == 23);
        assert("rollup_withdrawal_event_id"@.len() == 26);
        assert("destinationChainAddress"@[0] != "rollupWithdrawalEventId"@[0]);
        if m.fee_asset.len() == 0 {
            assert(m.fee_asset =~= Seq::<char>::empty());
        }
        lemma_fold_entry_if(st, m.fee_asset.len() != 0, "feeAsset"@, JsonV::Str(m.fee_asset), Self::step_fn());
    }

    /// Reading the member that the field `destination_chain_address` writes sets the field.
    pub proof fn lemma_entry_destination_chain_address(m: BridgeTransferV, st: (BridgeTransferV, Seq<bool>))
        requires
            st.1.len() == 4,
            !st.1[1],
            st.0.destination_chain_address == Seq::<char>::empty(),
        ensures
            fold_entries(st, Self::spec_entry_destination_chain_address(m), Self::step_fn()) == Ok::<(BridgeTransferV, Seq<bool>), JsonErrorV>((BridgeTransferV { destination_chain_address: m.destination_chain_address, ..st.0 }, if m.destination_chain_address.len() != 0 { st.1.update(1, true) } else { st.1 })),
    {
        reveal_strlit("to");
        reveal_strlit("amount");
        reveal_strlit("feeAsset");
        reveal_strlit("fee_asset");
        reveal_strlit("destinationChainAddress");
        reveal_strlit("destination_chain_address");
        reveal_strlit("bridgeAddress");
        reveal_strlit("bridge_address");
        reveal_strlit("rollupBlockNumber");
        reveal_strlit("rollup_block_number");
        reveal_strlit("rollupWithdrawalEventId");
        reveal_strlit("rollup_withdrawal_event_id");
        assert("to"@.len() == 2);
        assert("amount"@.len() == 6);
        assert("feeAsset"@.len() == 8);
        assert("fee_asset"@.len() == 9);
        assert("destinationChainAddress"@.len() == 23);
        assert("destination_chain_address"@.len() == 25);
        assert("bridgeAddress"@.len() == 13);
        assert("bridge_address"@.len() == 14);
        assert("rollupBlockNumber"@.len() == 17);
        assert("rollup_block_number"@.len() == 19);
        assert("rollupWithdrawalEventId"@.len() == 23);
        assert("rollup_withdrawal_event_id"@.len() == 26);
        assert("destinationChainAddress"@[0] != "rollupWithdrawalEventId"@[0]);
        if m.destination_chain_address.len() == 0 {
            assert(m.destination_chain_address =~= Seq::<char>::empty());
        }
        lemma_fold_entry_if(st, m.destination_chain_address.len() != 0, "destinationChainAddress"@, JsonV::Str(m.destination_chain_address), Self::step_fn());
    }

    /// Reading the member that the field `bridge_address` writes sets the field.
    pub proof fn lemma_entry_bridge_address(m: BridgeTransferV, st: (BridgeTransferV, Seq<bool>))
        requires
            st.1.len() == 4,
            st.0.bridge_address is None,
        ensures
            fold_entries(st, Self::spec_entry_bridge_address(m), Self::step_fn()) == Ok::<(BridgeTransferV, Seq<bool>), JsonErrorV>((BridgeTransferV { bridge_address: m.bridge_address, ..st.0 }, st.1)),
    {
        reveal_strlit("to");
        reveal_strlit("amount");
        reveal_strlit("feeAsset");
        reveal_strlit("fee_asset");
        reveal_strlit("destinationChainAddress");
        reveal_strlit("destination_chain_address");
        reveal_strlit("bridgeAddress");
        reveal_strlit("bridge_address");
        reveal_strlit("rollupBlockNumber");
        reveal_strlit("rollup_block_number");
        reveal_strlit("rollupWithdrawalEventId");
        reveal_strlit("rollup_withdrawal_event_id");
        assert("to"@.len() == 2);
        assert("amount"@.len() == 6);
        assert("feeAsset"@.len() == 8);
        assert("fee_asset"@.len() == 9);
        assert("destinationChainAddress"@.len() == 23);
        assert("destination_chain_address"@.len() == 25);
        assert("bridgeAddress"@.len() == 13);
        assert("bridge_address"@.len() == 14);
        assert("rollupBlockNumber"@.len() == 17);
        assert("rollup_block_number"@.len() == 19);
        assert("rollupWithdrawalEventId"@.len() == 23);
        assert("rollup_withdrawal_event_id"@.len() == 26);
        assert("destinationChainAddress"@[0] != "rollupWithdrawalEventId"@[0]);
        lemma_fold_entry_if(st, m.bridge_address is Some, "bridgeAddress"@, JsonV::Object(m.bridge_address.unwrap()), Self::step_fn());
    }

    /// Reading the member that the field `rollup_block_number` writes sets the field.
    pub proof fn lemma_entry_rollup_block_number(m: BridgeTransferV, st: (BridgeTransferV, Seq<bool>))
        requires
            st.1.len() == 4,
            !st.1[2],
            st.0.rollup_block_number == 0,
        ensures
            fold_entries(st, Self::spec_entry_rollup_block_number(m), Self::step_fn()) == Ok::<(BridgeTransferV, Seq<bool>), JsonErrorV>((BridgeTransferV { rollup_block_number: m.rollup_block_number, ..st.0 }, if m.rollup_block_number != 0 { st.1.update(2, true) } else { st.1 })),
    {
        reveal_strlit("to");
        reveal_strlit("amount");
        reveal_strlit("feeAsset");
        reveal_strlit("fee_asset");
        reveal_strlit("destinationChainAddress");
        reveal_strlit("destination_chain_address");
        reveal_strlit("bridgeAddress");
        reveal_strlit("bridge_address");
        reveal_strlit("rollupBlockNumber");
        reveal_strlit("rollup_block_number");
        reveal_strlit("rollupWithdrawalEventId");
        reveal_strlit("rollup_withdrawal_event_id");
        assert("to"@.len() == 2);
        assert("amount"@.len() == 6);
        assert("feeAsset"@.len() == 8);
        assert("fee_asset"@.len() == 9);
        assert("destinationChainAddress"@.len() == 23);
        assert("destination_chain_address"@.len() == 25);
        assert("bridgeAddress"@.len() == 13);
        assert("bridge_address"@.len() == 14);
        assert("rollupBlockNumber"@.len() == 17);
        assert("rollup_block_number"@.len() == 19);
        assert("rollupWithdrawalEventId"@.len() == 23);
        assert("rollup_withdrawal_event_id"@.len() == 26);
        assert("destinationChainAddress"@[0] != "rollupWithdrawalEventId"@[0]);
        lemma_read_u64_value(m.rollup_block_number);
        lemma_fold_entry_if(st, m.rollup_block_number != 0, "rollupBlockNumber"@, JsonV::Str(decimal(m.rollup_block_number as nat)), Self::step_fn());
    }

    /// Reading the member that the field `rollup_withdrawal_event_id` writes sets the field.
    pub proof fn lemma_entry_rollup_withdrawal_event_id(m: BridgeTransferV, st: (BridgeTransferV, Seq<bool>))
        requires
            st.1.len() == 4,
            !st.1[3],
            st.0.rollup_withdrawal_event_id == Seq::<char>::empty(),
        ensures
            fold_entries(st, Self::spec_entry_rollup_withdrawal_event_id(m), Self::step_fn()) == Ok::<(BridgeTransferV, Seq<bool>), JsonErrorV>((BridgeTransferV { rollup_withdrawal_event_id: m.rollup_withdrawal_event_id, ..st.0 }, if m.rollup_withdrawal_event_id.len() != 0 { st.1.update(3, true) } else { st.1 })),
    {
        reveal_strlit("to");
        reveal_strlit("amount");
        reveal_strlit("feeAsset");
        reveal_strlit("fee_asset");
        reveal_strlit("destinationChainAddress");
        reveal_strlit("destination_chain_address");
        reveal_strlit("bridgeAddress");
        reveal_strlit("bridge_address");
        reveal_strlit("rollupBlockNumber");
        reveal_strlit("rollup_block_number");
        reveal_strlit("rollupWithdrawalEventId");
        reveal_strlit("rollup_withdrawal_event_id");
        assert("to"@.len() == 2);
        assert("amount"@.len() == 6);
        assert("feeAsset"@.len() == 8);
        assert("fee_asset"@.len() == 9);
        assert("destinationChainAddress"@.len() == 23);
        assert("destination_chain_address"@.len() == 25);
        assert("bridgeAddress"@.len() == 13);
        assert("bridge_address"@.len() == 14);
        assert("rollupBlockNumber"@.len() == 17);
        assert("rollup_block_number"@.len() == 19);
        assert("rollupWithdrawalEventId"@.len() == 23);
        assert("rollup_withdrawal_event_id"@.len() == 26);
        assert("destinationChainAddress"@[0] != "rollupWithdrawalEventId"@[0]);
        if m.rollup_withdrawal_event_id.len() == 0 {
            assert(m.rollup_withdrawal_event_id =~= Seq::<char>::empty());
        }
        lemma_fold_entry_if(st, m.rollup_withdrawal_event_id.len() != 0, "rollupWithdrawalEventId"@, JsonV::Str(m.rollup_withdrawal_event_id), Self::step_fn());
    }

    /// The JSON spelling of a key: the protobuf name of a field becomes its JSON name;
    /// a JSON name, and any key that names no field, is left as it is.
    pub open spec fn spec_json_key(key: Seq<char>) -> Seq<char> {
        if key == "to"@ {
            "to"@
        } else if key == "amount"@ {
            "amount"@
        } else if key == "feeAsset"@ || key == "fee_asset"@ {
            "feeAsset"@
        } else if key == "destinationChainAddress"@ || key == "destination_chain_address"@ {
            "destinationChainAddress"@
        } else if key == "bridgeAddress"@ || key == "bridge_address"@ {
            "bridgeAddress"@
        } else if key == "rollupBlockNumber"@ || key == "rollup_block_number"@ {
            "rollupBlockNumber"@
        } else if key == "rollupWithdrawalEventId"@ || key == "rollup_withdrawal_event_id"@ {
            "rollupWithdrawalEventId"@
        } else {
            key
        }
    }

    /// [`Self::spec_json_key`] as a function value.
    pub open spec fn json_key_fn() -> spec_fn(Seq<char>) -> Seq<char> {
        |key: Seq<char>| Self::spec_json_key(key)
    }

    /// One member is read alike whichever spelling its key has.
    pub proof fn lemma_step_json_key(st: (BridgeTransferV, Seq<bool>), key: Seq<char>, v: JsonV)
        ensures Self::spec_step(st, key, v) == Self::spec_step(st, Self::spec_json_key(key), v),
    {
        reveal_strlit("to");
        reveal_strlit("amount");
        reveal_strlit("feeAsset");
        reveal_strlit("fee_asset");
        reveal_strlit("destinationChainAddress");
        reveal_strlit("destination_chain_address");
        reveal_strlit("bridgeAddress");
        reveal_strlit("bridge_address");
        reveal_strlit("rollupBlockNumber");
        reveal_strlit("rollup_block_number");
        reveal_strlit("rollupWithdrawalEventId");
        reveal_strlit("rollup_withdrawal_event_id");
        assert("to"@.len() == 2);
        assert("amount"@.len() == 6);
        assert("feeAsset"@.len() == 8);
        assert("fee_asset"@.len() == 9);
        assert("destinationChainAddress"@.len() == 23);
        assert("destination_chain_address"@.len() == 25);
        assert("bridgeAddress"@.len() == 13);
        assert("bridge_address"@.len() == 14);
        assert("rollupBlockNumber"@.len() == 17);
        assert("rollup_block_number"@.len() == 19);
        assert("rollupWithdrawalEventId"@.len() == 23);
        assert("rollup_withdrawal_event_id"@.len() == 26);
        assert("destinationChainAddress"@[0] != "rollupWithdrawalEventId"@[0]);
        if key == "fee_asset"@ {
            assert(Self::spec_json_key(key) == "feeAsset"@);
        }
        if key == "destination_chain_address"@ {
            assert(Self::spec_json_key(key) == "destinationChainAddress"@);
        }
        if key == "bridge_address"@ {
            assert(Self::spec_json_key(key) == "bridgeAddress"@);
        }
        if key == "rollup_block_number"@ {
            assert(Self::spec_json_key(key) == "rollupBlockNumber"@);
        }
        if key == "rollup_withdrawal_event_id"@ {
            assert(Self::spec_json_key(key) == "rollupWithdrawalEventId"@);
        }
    }

    /// Reading an object gives the same result whichever spelling each of its keys has:
    /// two objects whose members hold the same values, in the same order, under keys of
    /// the same JSON spelling describe the same message, or are refused with the same error.
    pub proof fn lemma_key_spelling(es1: Seq<(Seq<char>, JsonV)>, es2: Seq<(Seq<char>, JsonV)>)
        requires
            es1.len() == es2.len(),
            forall|i: int| #![trigger es1[i], es2[i]] 0 <= i < es1.len() ==> es1[i].1 == es2[i].1 && Self::spec_json_key(es1[i].0) == Self::spec_json_key(es2[i].0),
        ensures Self::spec_from_json(JsonV::Object(es1)) == Self::spec_from_json(JsonV::Object(es2)),
    {
        assert forall|s: (BridgeTransferV, Seq<bool>), k: Seq<char>, v: JsonV|
            #![trigger Self::step_fn()(s, k, v), Self::json_key_fn()(k)]
            Self::step_fn()(s, k, v) == Self::step_fn()(s, Self::json_key_fn()(k), v) by {
            Self::lemma_step_json_key(s, k, v);
        }
        lemma_fold_same_keys(Self::spec_start(), es1, es2, Self::step_fn(), Self::json_key_fn());
    }

    /// The keys of the object that the message writes: the JSON names of the fields that
    /// do not hold their default (for a oneof, the JSON name of the member set), in the
    /// order of the fields.
    pub open spec fn spec_written_keys(m: BridgeTransferV) -> Seq<Seq<char>> {
        key_if(m.to is Some, "to"@)
            + key_if(m.amount is Some, "amount"@)
            + key_if(m.fee_asset.len() != 0, "feeAsset"@)
            + key_if(m.destination_chain_address.len() != 0, "destinationChainAddress"@)
            + key_if(m.bridge_address is Some, "bridgeAddress"@)
            + key_if(m.rollup_block_number != 0, "rollupBlockNumber"@)
            + key_if(m.rollup_withdrawal_event_id.len() != 0, "rollupWithdrawalEventId"@)
    }

    /// The object that the message writes has exactly the keys of
    /// [`Self::spec_written_keys`], in that order.
    pub proof fn lemma_written_keys(m: BridgeTransferV)
        ensures
            Self::spec_to_json(m) == JsonV::Object(Self::spec_entries(m)),
            entry_keys(Self::spec_entries(m)) == Self::spec_written_keys(m),
    {
        lemma_entry_keys_if(m.to is Some, "to"@, JsonV::Object(m.to.unwrap()));
        lemma_entry_keys_append(Self::spec_entry_to(m), m.amount is Some, "amount"@, JsonV::Object(m.amount.unwrap()));
        lemma_entry_keys_append(Self::spec_entry_to(m) + Self::spec_entry_amount(m), m.fee_asset.len() != 0, "feeAsset"@, JsonV::Str(m.fee_asset));
        lemma_entry_keys_append(Self::spec_entry_to(m) + Self::spec_entry_amount(m) + Self::spec_entry_fee_asset(m), m.destination_chain_address.len() != 0, "destinationChainAddress"@, JsonV::Str(m.destination_chain_address));
        lemma_entry_keys_append(Self::spec_entry_to(m) + Self::spec_entry_amount(m) + Self::spec_entry_fee_asset(m) + Self::spec_entry_destination_chain_address(m), m.bridge_address is Some, "bridgeAddress"@, JsonV::Object(m.bridge_address.unwrap()));
        lemma_entry_keys_append(Self::spec_entry_to(m) + Self::spec_entry_amount(m) + Self::spec_entry_fee_asset(m) + Self::spec_entry_destination_chain_address(m) + Self::spec_entry_bridge_address(m), m.rollup_block_number != 0, "rollupBlockNumber"@, JsonV::Str(decimal(m.rollup_block_number as nat)));
        lemma_entry_keys_append(Self::spec_entry_to(m) + Self::spec_entry_amount(m) + Self::spec_entry_fee_asset(m) + Self::spec_entry_destination_chain_address(m) + Self::spec_entry_bridge_address(m) + Self::spec_entry_rollup_block_number(m), m.rollup_withdrawal_event_id.len() != 0, "rollupWithdrawalEventId"@, JsonV::Str(m.rollup_withdrawal_event_id));
    }

    /// Whether the field whose JSON name is `name` holds its default in `m`; for a member
    /// of a oneof, whether the oneof is set to another member or unset. `true` for a name
    /// that names no field.
    pub open spec fn spec_holds_default(m: BridgeTransferV, name: Seq<char>) -> bool {
        if name == "to"@ {
            m.to is None
        } else if name == "amount"@ {
            m.amount is None
        } else if name == "feeAsset"@ {
            m.fee_asset == Seq::<char>::empty()
        } else if name == "destinationChainAddress"@ {
            m.destination_chain_address == Seq::<char>::empty()
        } else if name == "bridgeAddress"@ {
            m.bridge_address is None
        } else if name == "rollupBlockNumber"@ {
            m.rollup_block_number == 0
        } else if name == "rollupWithdrawalEventId"@ {
            m.rollup_withdrawal_event_id == Seq::<char>::empty()
        } else {
            true
        }
    }

    /// Whether reading `v` for the field whose JSON name is `name` leaves the field at
    /// its default: `null`, for a field that takes it (a message field, a member of a
    /// oneof); nothing, for any other field. `true` for a name that names no field.
    pub open spec fn spec_leaves_default(name: Seq<char>, v: JsonV) -> bool {
        if name == "to"@ {
            v is Null
        } else if name == "amount"@ {
            v is Null
        } else if name == "feeAsset"@ {
            false
        } else if name == "destinationChainAddress"@ {
            false
        } else if name == "bridgeAddress"@ {
            v is Null
        } else if name == "rollupBlockNumber"@ {
            false
        } else if name == "rollupWithdrawalEventId"@ {
            false
        } else {
            true
        }
    }

    /// Reading one member keeps a field at its default unless the key names the field
    /// and the value does not leave it there.
    pub proof fn lemma_step_keeps_default(st: (BridgeTransferV, Seq<bool>), key: Seq<char>, v: JsonV, name: Seq<char>)
        requires
            Self::spec_holds_default(st.0, name),
            Self::spec_json_key(key) == name ==> Self::spec_leaves_default(name, v),
        ensures
            Self::spec_step(st, key, v) is Ok ==> Self::spec_holds_default(Self::spec_step(st, key, v)->Ok_0.0, name),
    {
        reveal_strlit("to");
        reveal_strlit("amount");
        reveal_strlit("feeAsset");
        reveal_strlit("fee_asset");
        reveal_strlit("destinationChainAddress");
        reveal_strlit("destination_chain_address");
        reveal_strlit("bridgeAddress");
        reveal_strlit("bridge_address");
        reveal_strlit("rollupBlockNumber");
        reveal_strlit("rollup_block_number");
        reveal_strlit("rollupWithdrawalEventId");
        reveal_strlit("rollup_withdrawal_event_id");
        assert("to"@.len() == 2);
        assert("amount"@.len() == 6);
        assert("feeAsset"@.len() == 8);
        assert("fee_asset"@.len() == 9);
        assert("destinationChainAddress"@.len() == 23);
        assert("destination_chain_address"@.len() == 25);
        assert("bridgeAddress"@.len() == 13);
        assert("bridge_address"@.len() == 14);
        assert("rollupBlockNumber"@.len() == 17);
        assert("rollup_block_number"@.len() == 19);
        assert("rollupWithdrawalEventId"@.len() == 23);
        assert("rollup_withdrawal_event_id"@.len() == 26);
        assert("destinationChainAddress"@[0] != "rollupWithdrawalEventId"@[0]);
        Self::lemma_step_json_key(st, key, v);
    }

    /// A field whose key appears in no member of an object, or only with values that
    /// leave it at its default (`null`, for a field that takes it), holds its default in
    /// the message that the object describes.
    pub proof fn lemma_absent_default(es: Seq<(Seq<char>, JsonV)>, name: Seq<char>)
        requires
            forall|i: int| 0 <= i < es.len() ==> (Self::spec_json_key((#[trigger] es[i]).0) == name
                ==> Self::spec_leaves_default(name, es[i].1)),
        ensures
            Self::spec_from_json(JsonV::Object(es)) is Ok
                ==> Self::spec_holds_default(Self::spec_from_json(JsonV::Object(es))->Ok_0, name),
    {
        let inv = |s: (BridgeTransferV, Seq<bool>)| Self::spec_holds_default(s.0, name);
        let allowed = |k: Seq<char>, v: JsonV| Self::spec_json_key(k) == name ==> Self::spec_leaves_default(name, v);
        assert forall|s: (BridgeTransferV, Seq<bool>), k: Seq<char>, v: JsonV| #![trigger Self::step_fn()(s, k, v)]
            inv(s) && allowed(k, v) && Self::step_fn()(s, k, v) is Ok implies inv(Self::step_fn()(s, k, v)->Ok_0) by {
            Self::lemma_step_keeps_default(s, k, v, name);
        }
        assert(inv(Self::spec_start()));
        lemma_fold_keeps(Self::spec_start(), es, Self::step_fn(), inv, allowed);
    }

    /// The field `to` alone: an object with one member under its JSON or protobuf
    /// name reads as the message with that field set and every other field at its
    /// default, and the message with only that field off its default writes that
    /// one member under the JSON name.
    pub proof fn lemma_field_to(es: Seq<(Seq<char>, JsonV)>)
        ensures
            Self::spec_from_json(JsonV::Object(seq![("to"@, JsonV::Object(es))])) == Ok::<BridgeTransferV, JsonErrorV>(BridgeTransferV { to: Some(es), ..Self::spec_default() }),
            Self::spec_from_json(JsonV::Object(seq![("to"@, JsonV::Null)])) == Ok::<BridgeTransferV, JsonErrorV>(Self::spec_default()),
            Self::spec_to_json(BridgeTransferV { to: Some(es), ..Self::spec_default() }) == JsonV::Object(seq![("to"@, JsonV::Object(es))]),
    {
        reveal_strlit("to");
        reveal_strlit("amount");
        reveal_strlit("feeAsset");
        reveal_strlit("fee_asset");
        reveal_strlit("destinationChainAddress");
        reveal_strlit("destination_chain_address");
        reveal_strlit("bridgeAddress");
        reveal_strlit("bridge_address");
        reveal_strlit("rollupBlockNumber");
        reveal_strlit("rollup_block_number");
        reveal_strlit("rollupWithdrawalEventId");
        reveal_strlit("rollup_withdrawal_event_id");
        assert("to"@.len() == 2);
        assert("amount"@.len() == 6);
        assert("feeAsset"@.len() == 8);
        assert("fee_asset"@.len() == 9);
        assert("destinationChainAddress"@.len() == 23);
        assert("destination_chain_address"@.len() == 25);
        assert("bridgeAddress"@.len() == 13);
        assert("bridge_address"@.len() == 14);
        assert("rollupBlockNumber"@.len() == 17);
        assert("rollup_block_number"@.len() == 19);
        assert("rollupWithdrawalEventId"@.len() == 23);
        assert("rollup_withdrawal_event_id"@.len() == 26);
        assert("destinationChainAddress"@[0] != "rollupWithdrawalEventId"@[0]);
        lemma_fold_entry_if(Self::spec_start(), true, "to"@, JsonV::Object(es), Self::step_fn());
        lemma_fold_entry_if(Self::spec_start(), true, "to"@, JsonV::Null, Self::step_fn());
    }

    /// The field `amount` alone: an object with one member under its JSON or protobuf
    /// name reads as the message with that field set and every other field at its
    /// default, and the message with only that field off its default writes that
    /// one member under the JSON name.
    pub proof fn lemma_field_amount(es: Seq<(Seq<char>, JsonV)>)
        ensures
            Self::spec_from_json(JsonV::Object(seq![("amount"@, JsonV::Object(es))])) == Ok::<BridgeTransferV, JsonErrorV>(BridgeTransferV { amount: Some(es), ..Self::spec_default() }),
            Self::spec_from_json(JsonV::Object(seq![("amount"@, JsonV::Null)])) == Ok::<BridgeTransferV, JsonErrorV>(Self::spec_default()),
            Self::spec_to_json(BridgeTransferV { amount: Some(es), ..Self::spec_default() }) == JsonV::Object(seq![("amount"@, JsonV::Object(es))]),
    {
        reveal_strlit("to");
        reveal_strlit("amount");
        reveal_strlit("feeAsset");
        reveal_strlit("fee_asset");
        reveal_strlit("destinationChainAddress");
        reveal_strlit("destination_chain_address");
        reveal_strlit("bridgeAddress");
        reveal_strlit("bridge_address");
        reveal_strlit("rollupBlockNumber");
        reveal_strlit("rollup_block_number");
        reveal_strlit("rollupWithdrawalEventId");
        reveal_strlit("rollup_withdrawal_event_id");
        assert("to"@.len() == 2);
        assert("amount"@.len() == 6);
        assert("feeAsset"@.len() == 8);
        assert("fee_asset"@.len() == 9);
        assert("destinationChainAddress"@.len() == 23);
        assert("destination_chain_address"@.len() == 25);
        assert("bridgeAddress"@.len() == 13);
        assert("bridge_address"@.len() == 14);
        assert("rollupBlockNumber"@.len() == 17);
        assert("rollup_block_number"@.len() == 19);
        assert("rollupWithdrawalEventId"@.len() == 23);
        assert("rollup_withdrawal_event_id"@.len() == 26);
        assert("destinationChainAddress"@[0] != "rollupWithdrawalEventId"@[0]);
        lemma_fold_entry_if(Self::spec_start(), true, "amount"@, JsonV::Object(es), Self::step_fn());
        lemma_fold_entry_if(Self::spec_start(), true, "amount"@, JsonV::Null, Self::step_fn());
    }

    /// The field `fee_asset` alone: an object with one member under its JSON or protobuf
    /// name reads as the message with that field set and every other field at its
    /// default, and the message with only that field off its default writes that
    /// one member under the JSON name.
    pub proof fn lemma_field_fee_asset(s: Seq<char>)
        ensures
            Self::spec_from_json(JsonV::Object(seq![("feeAsset"@, JsonV::Str(s))])) == Ok::<BridgeTransferV, JsonErrorV>(BridgeTransferV { fee_asset: s, ..Self::spec_default() }),
            Self::spec_from_json(JsonV::Object(seq![("fee_asset"@, JsonV::Str(s))])) == Ok::<BridgeTransferV, JsonErrorV>(BridgeTransferV { fee_asset: s, ..Self::spec_default() }),
            s.len() > 0 ==> Self::spec_to_json(BridgeTransferV { fee_asset: s, ..Self::spec_default() }) == JsonV::Object(seq![("feeAsset"@, JsonV::Str(s))]),
    {
        reveal_strlit("to");
        reveal_strlit("amount");
        reveal_strlit("feeAsset");
        reveal_strlit("fee_asset");
        reveal_strlit("destinationChainAddress");
        reveal_strlit("destination_chain_address");
        reveal_strlit("bridgeAddress");
        reveal_strlit("bridge_address");
        reveal_strlit("rollupBlockNumber");
        reveal_strlit("rollup_block_number");
        reveal_strlit("rollupWithdrawalEventId");
        reveal_strlit("rollup_withdrawal_event_id");
        assert("to"@.len() == 2);
        assert("amount"@.len() == 6);
        assert("feeAsset"@.len() == 8);
        assert("fee_asset"@.len() == 9);
        assert("destinationChainAddress"@.len() == 23);
        assert("destination_chain_address"@.len() == 25);
        assert("bridgeAddress"@.len() == 13);
        assert("bridge_address"@.len() == 14);
        assert("rollupBlockNumber"@.len() == 17);
        assert("rollup_block_number"@.len() == 19);
        assert("rollupWithdrawalEventId"@.len() == 23);
        assert("rollup_withdrawal_event_id"@.len() == 26);
        assert("destinationChainAddress"@[0] != "rollupWithdrawalEventId"@[0]);
        lemma_fold_entry_if(Self::spec_start(), true, "feeAsset"@, JsonV::Str(s), Self::step_fn());
        lemma_fold_entry_if(Self::spec_start(), true, "fee_asset"@, JsonV::Str(s), Self::step_fn());
    }

    /// The field `destination_chain_address` alone: an object with one member under its JSON or protobuf
    /// name reads as the message with that field set and every other field at its
    /// default, and the message with only that field off its default writes that
    /// one member under the JSON name.
    pub proof fn lemma_field_destination_chain_address(s: Seq<char>)
        ensures
            Self::spec_from_json(JsonV::Object(seq![("destinationChainAddress"@, JsonV::Str(s))])) == Ok::<BridgeTransferV, JsonErrorV>(BridgeTransferV { destination_chain_address: s, ..Self::spec_default() }),
            Self::spec_from_json(JsonV::Object(seq![("destination_chain_address"@, JsonV::Str(s))])) == Ok::<BridgeTransferV, JsonErrorV>(BridgeTransferV { destination_chain_address: s, ..Self::spec_default() }),
            s.len() > 0 ==> Self::spec_to_json(BridgeTransferV { destination_chain_address: s, ..Self::spec_default() }) == JsonV::Object(seq![("destinationChainAddress"@, JsonV::Str(s))]),
    {
        reveal_strlit("to");
        reveal_strlit("amount");
        reveal_strlit("feeAsset");
        reveal_strlit("fee_asset");
        reveal_strlit("destinationChainAddress");
        reveal_strlit("destination_chain_address");
        reveal_strlit("bridgeAddress");
        reveal_strlit("bridge_address");
        reveal_strlit("rollupBlockNumber");
        reveal_strlit("rollup_block_number");
        reveal_strlit("rollupWithdrawalEventId");
        reveal_strlit("rollup_withdrawal_event_id");
        assert("to"@.len() == 2);
        assert("amount"@.len() == 6);
        assert("feeAsset"@.len() == 8);
        assert("fee_asset"@.len() == 9);
        assert("destinationChainAddress"@.len() == 23);
        assert("destination_chain_address"@.len() == 25);
        assert("bridgeAddress"@.len() == 13);
        assert("bridge_address"@.len() == 14);
        assert("rollupBlockNumber"@.len() == 17);
        assert("rollup_block_number"@.len() == 19);
        assert("rollupWithdrawalEventId"@.len() == 23);
        assert("rollup_withdrawal_event_id"@.len() == 26);
        assert("destinationChainAddress"@[0] != "rollupWithdrawalEventId"@[0]);
        lemma_fold_entry_if(Self::spec_start(), true, "destinationChainAddress"@, JsonV::Str(s), Self::step_fn());
        lemma_fold_entry_if(Self::spec_start(), true, "destination_chain_address"@, JsonV::Str(s), Self::step_fn());
    }

    /// The field `bridge_address` alone: an object with one member under its JSON or protobuf
    /// name reads as the message with that field set and every other field at its
    /// default, and the message with only that field off its default writes that
    /// one member under the JSON name.
    pub proof fn lemma_field_bridge_address(es: Seq<(Seq<char>, JsonV)>)
        ensures
            Self::spec_from_json(JsonV::Object(seq![("bridgeAddress"@, JsonV::Object(es))])) == Ok::<BridgeTransferV, JsonErrorV>(BridgeTransferV { bridge_address: Some(es), ..Self::spec_default() }),
            Self::spec_from_json(JsonV::Object(seq![("bridgeAddress"@, JsonV::Null)])) == Ok::<BridgeTransferV, JsonErrorV>(Self::spec_default()),
            Self::spec_from_json(JsonV::Object(seq![("bridge_address"@, JsonV::Object(es))])) == Ok::<BridgeTransferV, JsonErrorV>(BridgeTransferV { bridge_address: Some(es), ..Self::spec_default() }),
            Self::spec_from_json(JsonV::Object(seq![("bridge_address"@, JsonV::Null)])) == Ok::<BridgeTransferV, JsonErrorV>(Self::spec_default()),
            Self::spec_to_json(BridgeTransferV { bridge_address: Some(es), ..Self::spec_default() }) == JsonV::Object(seq![("bridgeAddress"@, JsonV::Object(es))]),
    {
        reveal_strlit("to");
        reveal_strlit("amount");
        reveal_strlit("feeAsset");
        reveal_strlit("fee_asset");
        reveal_strlit("destinationChainAddress");
        reveal_strlit("destination_chain_address");
        reveal_strlit("bridgeAddress");
        reveal_strlit("bridge_address");
        reveal_strlit("rollupBlockNumber");
        reveal_strlit("rollup_block_number");
        reveal_strlit("rollupWithdrawalEventId");
        reveal_strlit("rollup_withdrawal_event_id");
        assert("to"@.len() == 2);
        assert("amount"@.len() == 6);
        assert("feeAsset"@.len() == 8);
        assert("fee_asset"@.len() == 9);
        assert("destinationChainAddress"@.len() == 23);
        assert("destination_chain_address"@.len() == 25);
        assert("bridgeAddress"@.len() == 13);
        assert("bridge_address"@.len() == 14);
        assert("rollupBlockNumber"@.len() == 17);
        assert("rollup_block_number"@.len() == 19);
        assert("rollupWithdrawalEventId"@.len() == 23);
        assert("rollup_withdrawal_event_id"@.len() == 26);
        assert("destinationChainAddress"@[0] != "rollupWithdrawalEventId"@[0]);
        lemma_fold_entry_if(Self::spec_start(), true, "bridgeAddress"@, JsonV::Object(es), Self::step_fn());
        lemma_fold_entry_if(Self::spec_start(), true, "bridgeAddress"@, JsonV::Null, Self::step_fn());
        lemma_fold_entry_if(Self::spec_start(), true, "bridge_address"@, JsonV::Object(es), Self::step_fn());
        lemma_fold_entry_if(Self::spec_start(), true, "bridge_address"@, JsonV::Null, Self::step_fn());
    }

    /// The field `rollup_block_number` alone: an object with one member under its JSON or protobuf
    /// name reads as the message with that field set and every other field at its
    /// default, and the message with only that field off its default writes that
    /// one member under the JSON name.
    pub proof fn lemma_field_rollup_block_number(v: u64)
        ensures
            Self::spec_from_json(JsonV::Object(seq![("rollupBlockNumber"@, JsonV::Unsigned(v))])) == Ok::<BridgeTransferV, JsonErrorV>(BridgeTransferV { rollup_block_number: v, ..Self::spec_default() }),
            Self::spec_from_json(JsonV::Object(seq![("rollupBlockNumber"@, JsonV::Str(decimal(v as nat)))])) == Ok::<BridgeTransferV, JsonErrorV>(BridgeTransferV { rollup_block_number: v, ..Self::spec_default() }),
            Self::spec_from_json(JsonV::Object(seq![("rollup_block_number"@, JsonV::Unsigned(v))])) == Ok::<BridgeTransferV, JsonErrorV>(BridgeTransferV { rollup_block_number: v, ..Self::spec_default() }),
            Self::spec_from_json(JsonV::Object(seq![("rollup_block_number"@, JsonV::Str(decimal(v as nat)))])) == Ok::<BridgeTransferV, JsonErrorV>(BridgeTransferV { rollup_block_number: v, ..Self::spec_default() }),
            v != 0 ==> Self::spec_to_json(BridgeTransferV { rollup_block_number: v, ..Self::spec_default() }) == JsonV::Object(seq![("rollupBlockNumber"@, JsonV::Str(decimal(v as nat)))]),
    {
        reveal_strlit("to");
        reveal_strlit("amount");
        reveal_strlit("feeAsset");
        reveal_strlit("fee_asset");
        reveal_strlit("destinationChainAddress");
        reveal_strlit("destination_chain_address");
        reveal_strlit("bridgeAddress");
        reveal_strlit("bridge_address");
        reveal_strlit("rollupBlockNumber");
        reveal_strlit("rollup_block_number");
        reveal_strlit("rollupWithdrawalEventId");
        reveal_strlit("rollup_withdrawal_event_id");
        assert("to"@.len() == 2);
        assert("amount"@.len() == 6);
        assert("feeAsset"@.len() == 8);
        assert("fee_asset"@.len() == 9);
        assert("destinationChainAddress"@.len() == 23);
        assert("destination_chain_address"@.len() == 25);
        assert("bridgeAddress"@.len() == 13);
        assert("bridge_address"@.len() == 14);
        assert("rollupBlockNumber"@.len() == 17);
        assert("rollup_block_number"@.len() == 19);
        assert("rollupWithdrawalEventId"@.len() == 23);
        assert("rollup_withdrawal_event_id"@.len() == 26);
        assert("destinationChainAddress"@[0] != "rollupWithdrawalEventId"@[0]);
        lemma_read_u64_value(v);
        lemma_fold_entry_if(Self::spec_start(), true, "rollupBlockNumber"@, JsonV::Unsigned(v), Self::step_fn());
        lemma_fold_entry_if(Self::spec_start(), true, "rollupBlockNumber"@, JsonV::Str(decimal(v as nat)), Self::step_fn());
        lemma_fold_entry_if(Self::spec_start(), true, "rollup_block_number"@, JsonV::Unsigned(v), Self::step_fn());
        lemma_fold_entry_if(Self::spec_start(), true, "rollup_block_number"@, JsonV::Str(decimal(v as nat)), Self::step_fn());
    }

    /// The field `rollup_withdrawal_event_id` alone: an object with one member under its JSON or protobuf
    /// name reads as the message with that field set and every other field at its
    /// default, and the message with only that field off its default writes that
    /// one member under the JSON name.
    pub proof fn lemma_field_rollup_withdrawal_event_id(s: Seq<char>)
        ensures
            Self::spec_from_json(JsonV::Object(seq![("rollupWithdrawalEventId"@, JsonV::Str(s))])) == Ok::<BridgeTransferV, JsonErrorV>(BridgeTransferV { rollup_withdrawal_event_id: s, ..Self::spec_default() }),
            Self::spec_from_json(JsonV::Object(seq![("rollup_withdrawal_event_id"@, JsonV::Str(s))])) == Ok::<BridgeTransferV, JsonErrorV>(BridgeTransferV { rollup_withdrawal_event_id: s, ..Self::spec_default() }),
            s.len() > 0 ==> Self::spec_to_json(BridgeTransferV { rollup_withdrawal_event_id: s, ..Self::spec_default() }) == JsonV::Object(seq![("rollupWithdrawalEventId"@, JsonV::Str(s))]),
    {
        reveal_strlit("to");
        reveal_strlit("amount");
        reveal_strlit("feeAsset");
        reveal_strlit("fee_asset");
        reveal_strlit("destinationChainAddress");
        reveal_strlit("destination_chain_address");
        reveal_strlit("bridgeAddress");
        reveal_strlit("bridge_address");
        reveal_strlit("rollupBlockNumber");
        reveal_strlit("rollup_block_number");
        reveal_strlit("rollupWithdrawalEventId");
        reveal_strlit("rollup_withdrawal_event_id");
        assert("to"@.len() == 2);
        assert("amount"@.len() == 6);
        assert("feeAsset"@.len() == 8);
        assert("fee_asset"@.len() == 9);
        assert("destinationChainAddress"@.len() == 23);
        assert("destination_chain_address"@.len() == 25);
        assert("bridgeAddress"@.len() == 13);
        assert("bridge_address"@.len() == 14);
        assert("rollupBlockNumber"@.len() == 17);
        assert("rollup_block_number"@.len() == 19);
        assert("rollupWithdrawalEventId"@.len() == 23);
        assert("rollup_withdrawal_event_id"@.len() == 26);
        assert("destinationChainAddress"@[0] != "rollupWithdrawalEventId"@[0]);
        lemma_fold_entry_if(Self::spec_start(), true, "rollupWithdrawalEventId"@, JsonV::Str(s), Self::step_fn());
        lemma_fold_entry_if(Self::spec_start(), true, "rollup_withdrawal_event_id"@, JsonV::Str(s), Self::step_fn());
    }

    /// Reading back the JSON object of a message gives the message.
    pub proof fn lemma_json_roundtrip(m: BridgeTransferV)
        ensures Self::spec_from_json(Self::spec_to_json(m)) == Ok::<BridgeTransferV, JsonErrorV>(m),
    {
        let step = Self::step_fn();
        let s0 = Self::spec_start();
        let s1 = (BridgeTransferV { to: m.to, ..s0.0 }, s0.1);
        Self::lemma_entry_to(m, s0);
        let s2 = (BridgeTransferV { amount: m.amount, ..s1.0 }, s1.1);
        Self::lemma_entry_amount(m, s1);
        let s3 = (BridgeTransferV { fee_asset: m.fee_asset, ..s2.0 }, if m.fee_asset.len() != 0 { s2.1.update(0, true) } else { s2.1 });
        Self::lemma_entry_fee_asset(m, s2);
        let s4 = (BridgeTransferV { destination_chain_address: m.destination_chain_address, ..s3.0 }, if m.destination_chain_address.len() != 0 { s3.1.update(1, true) } else { s3.1 });
        Self::lemma_entry_destination_chain_address(m, s3);
        let s5 = (BridgeTransferV { bridge_address: m.bridge_address, ..s4.0 }, s4.1);
        Self::lemma_entry_bridge_address(m, s4);
        let s6 = (BridgeTransferV { rollup_block_number: m.rollup_block_number, ..s5.0 }, if m.rollup_block_number != 0 { s5.1.update(2, true) } else { s5.1 });
        Self::lemma_entry_rollup_block_number(m, s5);
        let s7 = (BridgeTransferV { rollup_withdrawal_event_id: m.rollup_withdrawal_event_id, ..s6.0 }, if m.rollup_withdrawal_event_id.len() != 0 { s6.1.update(3, true) } else { s6.1 });
        Self::lemma_entry_rollup_withdrawal_event_id(m, s6);
        let p1 = Self::spec_entry_to(m);
        let p2 = p1 + Self::spec_entry_amount(m);
        lemma_fold_entries_append(s0, p1, Self::spec_entry_amount(m), step);
        let p3 = p2 + Self::spec_entry_fee_asset(m);
        lemma_fold_entries_append(s0, p2, Self::spec_entry_fee_asset(m), step);
        let p4 = p3 + Self::spec_entry_destination_chain_address(m);
        lemma_fold_entries_append(s0, p3, Self::spec_entry_destination_chain_address(m), step);
        let p5 = p4 + Self::spec_entry_bridge_address(m);
        lemma_fold_entries_append(s0, p4, Self::spec_entry_bridge_address(m), step);
        let p6 = p5 + Self::spec_entry_rollup_block_number(m);
        lemma_fold_entries_append(s0, p5, Self::spec_entry_rollup_block_number(m), step);
        let p7 = p6 + Self::spec_entry_rollup_withdrawal_event_id(m);
        lemma_fold_entries_append(s0, p6, Self::spec_entry_rollup_withdrawal_event_id(m), step);
        assert(s7.0 == m);
    }
}

/// The `astria.protocol.transaction.v1.BridgeUnlock` message.
#[derive(Clone, Debug, PartialEq)]
pub struct BridgeUnlock {
    pub to: Option<Address>,
    pub amount: Option<Uint128>,
    pub fee_asset: String,
    pub memo: String,
    pub bridge_address: Option<Address>,
    pub rollup_block_number: u64,
    pub rollup_withdrawal_event_id: String,
}

/// The mathematical content of a [`BridgeUnlock`].
pub struct BridgeUnlockV {
    pub to: Option<Seq<(Seq<char>, JsonV)>>,
    pub amount: Option<Seq<(Seq<char>, JsonV)>>,
    pub fee_asset: Seq<char>,
    pub memo: Seq<char>,
    pub bridge_address: Option<Seq<(Seq<char>, JsonV)>>,
    pub rollup_block_number: u64,
    pub rollup_withdrawal_event_id: Seq<char>,
}

impl View for BridgeUnlock {
    type V = BridgeUnlockV;

    open spec fn view(&self) -> BridgeUnlockV {
        BridgeUnlockV {
            to: opt_embedded_view(self.to),
            amount: opt_embedded_view(self.amount),
            fee_asset: self.fee_asset@,
            memo: self.memo@,
            bridge_address: opt_embedded_view(self.bridge_address),
            rollup_block_number: self.rollup_block_number,
            rollup_withdrawal_event_id: self.rollup_withdrawal_event_id@,
        }
    }
}

impl Default for BridgeUnlock {
    fn default() -> (r: Self)
        ensures r@ == BridgeUnlock::spec_default(),
    {
        let r = BridgeUnlock {
            to: None,
            amount: None,
            fee_asset: String::new(),
            memo: String::new(),
            bridge_address: None,
            rollup_block_number: 0,
            rollup_withdrawal_event_id: String::new(),
        };
        r
    }
}

impl BridgeUnlock {
    /// The fully qualified protobuf name of the message.
    pub fn full_name() -> (r: String)
        ensures r@ == "astria.protocol.transaction.v1.BridgeUnlock"@,
    {
        "astria.protocol.transaction.v1.BridgeUnlock".to_string()
    }

    /// Every field at its default: empty strings, bytes and lists, zero, `false`, unset.
    pub open spec fn spec_default() -> BridgeUnlockV {
        BridgeUnlockV {
            to: None,
            amount: None,
            fee_asset: Seq::<char>::empty(),
            memo: Seq::<char>::empty(),
            bridge_address: None,
            rollup_block_number: 0,
            rollup_withdrawal_event_id: Seq::<char>::empty(),
        }
    }

    /// The view of an optional field of this message type.
    pub open spec fn view_opt(o: Option<Self>) -> Option<BridgeUnlockV> {
        match o {
            Some(x) => Some(x@),
            None => None,
        }
    }

    /// The view of a repeated field of this message type.
    pub open spec fn view_list(v: Seq<Self>) -> Seq<BridgeUnlockV> {
        v.map_values(|x: Self| x@)
    }

    /// The member that the field `to` writes: none where it holds its default.
    pub open spec fn spec_entry_to(m: BridgeUnlockV) -> Seq<(Seq<char>, JsonV)> {
        entry_if(m.to is Some, "to"@, JsonV::Object(m.to.unwrap()))
    }

    /// The member that the field `amount` writes: none where it holds its default.
    pub open spec fn spec_entry_amount(m: BridgeUnlockV) -> Seq<(Seq<char>, JsonV)> {
        entry_if(m.amount is Some, "amount"@, JsonV::Object(m.amount.unwrap()))
    }

    /// The member that the field `fee_asset` writes: none where it holds its default.
    pub open spec fn spec_entry_fee_asset(m: BridgeUnlockV) -> Seq<(Seq<char>, JsonV)> {
        entry_if(m.fee_asset.len() != 0, "feeAsset"@, JsonV::Str(m.fee_asset))
    }

    /// The member that the field `memo` writes: none where it holds its default.
    pub open spec fn spec_entry_memo(m: BridgeUnlockV) -> Seq<(Seq<char>, JsonV)> {
        entry_if(m.memo.len() != 0, "memo"@, JsonV::Str(m.memo))
    }

    /// The member that the field `bridge_address` writes: none where it holds its default.
    pub open spec fn spec_entry_bridge_address(m: BridgeUnlockV) -> Seq<(Seq<char>, JsonV)> {
        entry_if(m.bridge_address is Some, "bridgeAddress"@, JsonV::Object(m.bridge_address.unwrap()))
    }

    /// The member that the field `rollup_block_number` writes: none where it holds its default.
    pub open spec fn spec_entry_rollup_block_number(m: BridgeUnlockV) -> Seq<(Seq<char>, JsonV)> {
        entry_if(m.rollup_block_number != 0, "rollupBlockNumber"@, JsonV::Str(decimal(m.rollup_block_number as nat)))
    }

    /// The member that the field `rollup_withdrawal_event_id` writes: none where it holds its default.
    pub open spec fn spec_entry_rollup_withdrawal_event_id(m: BridgeUnlockV) -> Seq<(Seq<char>, JsonV)> {
        entry_if(m.rollup_withdrawal_event_id.len() != 0, "rollupWithdrawalEventId"@, JsonV::Str(m.rollup_withdrawal_event_id))
    }

    /// The members of the JSON object of the message: each field that does not hold
    /// its default, under its JSON name, in the order of the fields.
    pub open spec fn spec_entries(m: BridgeUnlockV) -> Seq<(Seq<char>, JsonV)> {
        Self::spec_entry_to(m) + Self::spec_entry_amount(m) + Self::spec_entry_fee_asset(m) + Self::spec_entry_memo(m) + Self::spec_entry_bridge_address(m) + Self::spec_entry_rollup_block_number(m) + Self::spec_entry_rollup_withdrawal_event_id(m)
    }

    /// The JSON object that the protobuf JSON mapping writes for the message.
    pub open spec fn spec_to_json(m: BridgeUnlockV) -> JsonV {
        JsonV::Object(Self::spec_entries(m))
    }

    /// [`Self::spec_to_json`] as a function value, for repeated fields.
    pub open spec fn writer() -> spec_fn(BridgeUnlockV) -> JsonV {
        |m: BridgeUnlockV| Self::spec_to_json(m)
    }

    fn write_to(&self, es: &mut Vec<(String, Json)>)
        ensures
            view_entries(final(es)@) == view_entries(old(es)@) + Self::spec_entry_to(self@),
    {
        match &self.to {
            Some(x) => push_entry(es, "to", embedded_value(x)),
            None => {},
        }
        assert(view_entries(es@) =~= view_entries(old(es)@) + Self::spec_entry_to(self@));
    }

    fn write_amount(&self, es: &mut Vec<(String, Json)>)
        ensures
            view_entries(final(es)@) == view_entries(old(es)@) + Self::spec_entry_amount(self@),
    {
        match &self.amount {
            Some(x) => push_entry(es, "amount", embedded_value(x)),
            None => {},
        }
        assert(view_entries(es@) =~= view_entries(old(es)@) + Self::spec_entry_amount(self@));
    }

    fn write_fee_asset(&self, es: &mut Vec<(String, Json)>)
        ensures
            view_entries(final(es)@) == view_entries(old(es)@) + Self::spec_entry_fee_asset(self@),
    {
        if !self.fee_asset.as_str().is_empty() {
            push_entry(es, "feeAsset", string_value(&self.fee_asset));
        }
        assert(view_entries(es@) =~= view_entries(old(es)@) + Self::spec_entry_fee_asset(self@));
    }

    fn write_memo(&self, es: &mut Vec<(String, Json)>)
        ensures
            view_entries(final(es)@) == view_entries(old(es)@) + Self::spec_entry_memo(self@),
    {
        if !self.memo.as_str().is_empty() {
            push_entry(es, "memo", string_value(&self.memo));
        }
        assert(view_entries(es@) =~= view_entries(old(es)@) + Self::spec_entry_memo(self@));
    }

    fn write_bridge_address(&self, es: &mut Vec<(String, Json)>)
        ensures
            view_entries(final(es)@) == view_entries(old(es)@) + Self::spec_entry_bridge_address(self@),
    {
        match &self.bridge_address {
            Some(x) => push_entry(es, "bridgeAddress", embedded_value(x)),
            None => {},
        }
        assert(view_entries(es@) =~= view_entries(old(es)@) + Self::spec_entry_bridge_address(self@));
    }

    fn write_rollup_block_number(&self, es: &mut Vec<(String, Json)>)
        ensures
            view_entries(final(es)@) == view_entries(old(es)@) + Self::spec_entry_rollup_block_number(self@),
    {
        if self.rollup_block_number != 0 {
            push_entry(es, "rollupBlockNumber", u64_value(self.rollup_block_number));
        }
        assert(view_entries(es@) =~= view_entries(old(es)@) + Self::spec_entry_rollup_block_number(self@));
    }

    fn write_rollup_withdrawal_event_id(&self, es: &mut Vec<(String, Json)>)
        ensures
            view_entries(final(es)@) == view_entries(old(es)@) + Self::spec_entry_rollup_withdrawal_event_id(self@),
    {
        if !self.rollup_withdrawal_event_id.as_str().is_empty() {
            push_entry(es, "rollupWithdrawalEventId", string_value(&self.rollup_withdrawal_event_id));
        }
        assert(view_entries(es@) =~= view_entries(old(es)@) + Self::spec_entry_rollup_withdrawal_event_id(self@));
    }

    /// Writes the message as a JSON object; reading it back gives the message.
    pub fn to_json(&self) -> (r: Json)
        ensures
            r@ == Self::spec_to_json(self@),
            Self::spec_from_json(r@) == Ok::<BridgeUnlockV, JsonErrorV>(self@),
    {
        let mut es: Vec<(String, Json)> = Vec::new();
        let ghost mut acc: Seq<(Seq<char>, JsonV)> = Seq::empty();
        proof {
            assert(view_entries(es@) =~= acc);
        }
        self.write_to(&mut es);
        proof {
            acc = acc + Self::spec_entry_to(self@);
        }
        self.write_amount(&mut es);
        proof {
            acc = acc + Self::spec_entry_amount(self@);
        }
        self.write_fee_asset(&mut es);
        proof {
            acc = acc + Self::spec_entry_fee_asset(self@);
        }
        self.write_memo(&mut es);
        proof {
            acc = acc + Self::spec_entry_memo(self@);
        }
        self.write_bridge_address(&mut es);
        proof {
            acc = acc + Self::spec_entry_bridge_address(self@);
        }
        self.write_rollup_block_number(&mut es);
        proof {
            acc = acc + Self::spec_entry_rollup_block_number(self@);
        }
        self.write_rollup_withdrawal_event_id(&mut es);
        proof {
            acc = acc + Self::spec_entry_rollup_withdrawal_event_id(self@);
        }
        proof {
            assert(acc =~= Self::spec_entries(self@));
            Self::lemma_json_roundtrip(self@);
        }
        Json::Object(es)
    }

    /// Reads one member of the object into the message under construction; `seen`
    /// records which fields that have no unset state were already given.
    pub open spec fn spec_step(st: (BridgeUnlockV, Seq<bool>), key: Seq<char>, v: JsonV) -> Result<(BridgeUnlockV, Seq<bool>), JsonErrorV> {
        let m = st.0;
        let seen = st.1;
        if key == "to"@ {
            if m.to is Some {
                Err(JsonErrorV::DuplicateField("to"@))
            } else {
                match read_embedded(v) {
                    Ok(x) => Ok((BridgeUnlockV { to: x, ..m }, seen)),
                    Err(e) => Err(e),
                }
            }
        } else if key == "amount"@ {
            if m.amount is Some {
                Err(JsonErrorV::DuplicateField("amount"@))
            } else {
                match read_embedded(v) {
                    Ok(x) => Ok((BridgeUnlockV { amount: x, ..m }, seen)),
                    Err(e) => Err(e),
                }
            }
        } else if key == "feeAsset"@ || key == "fee_asset"@ {
            if seen[0] {
                Err(JsonErrorV::DuplicateField("feeAsset"@))
            } else {
                match read_string(v) {
                    Ok(x) => Ok((BridgeUnlockV { fee_asset: x, ..m }, seen.update(0, true))),
                    Err(e) => Err(e),
                }
            }
        } else if key == "memo"@ {
            if seen[1] {
                Err(JsonErrorV::DuplicateField("memo"@))
            } else {
                match read_string(v) {
                    Ok(x) => Ok((BridgeUnlockV { memo: x, ..m }, seen.update(1, true))),
                    Err(e) => Err(e),
                }
            }
        } else if key == "bridgeAddress"@ || key == "bridge_address"@ {
            if m.bridge_address is Some {
                Err(JsonErrorV::DuplicateField("bridgeAddress"@))
            } else {
                match read_embedded(v) {
                    Ok(x) => Ok((BridgeUnlockV { bridge_address: x, ..m }, seen)),
                    Err(e) => Err(e),
                }
            }
        } else if key == "rollupBlockNumber"@ || key == "rollup_block_number"@ {
            if seen[2] {
                Err(JsonErrorV::DuplicateField("rollupBlockNumber"@))
            } else {
                match read_u64(v) {
                    Ok(x) => Ok((BridgeUnlockV { rollup_block_number: x, ..m }, seen.update(2, true))),
                    Err(e) => Err(e),
                }
            }
        } else if key == "rollupWithdrawalEventId"@ || key == "rollup_withdrawal_event_id"@ {
            if seen[3] {
                Err(JsonErrorV::DuplicateField("rollupWithdrawalEventId"@))
            } else {
                match read_string(v) {
                    Ok(x) => Ok((BridgeUnlockV { rollup_withdrawal_event_id: x, ..m }, seen.update(3, true))),
                    Err(e) => Err(e),
                }
            }
        } else {
            Err(JsonErrorV::UnknownField(key))
        }
    }

    /// [`Self::spec_step`] as a function value.
    pub open spec fn step_fn() -> spec_fn((BridgeUnlockV, Seq<bool>), Seq<char>, JsonV) -> Result<(BridgeUnlockV, Seq<bool>), JsonErrorV> {
        |st: (BridgeUnlockV, Seq<bool>), key: Seq<char>, v: JsonV| Self::spec_step(st, key, v)
    }

    /// The state before the first member is read: the default message, no field seen.
    pub open spec fn spec_start() -> (BridgeUnlockV, Seq<bool>) {
        (Self::spec_default(), seq![false, false, false, false])
    }

    /// The message that a JSON value describes: an object whose keys each name a field
    /// (by its JSON name or its protobuf name), at most once each; fields that are not
    /// given keep their default. The first member that is refused gives the error.
    pub open spec fn spec_from_json(j: JsonV) -> Result<BridgeUnlockV, JsonErrorV> {
        match j {
            JsonV::Object(es) => match fold_entries(Self::spec_start(), es, Self::step_fn()) {
                Ok(st) => Ok(st.0),
                Err(e) => Err(e),
            },
            _ => Err(JsonErrorV::ExpectedObject),
        }
    }

    /// [`Self::spec_from_json`] as a function value, for repeated fields.
    pub open spec fn reader() -> spec_fn(JsonV) -> Result<BridgeUnlockV, JsonErrorV> {
        |v: JsonV| Self::spec_from_json(v)
    }

    /// An optional field of this message type: `null` leaves it unset.
    pub open spec fn spec_read_opt(v: JsonV) -> Result<Option<BridgeUnlockV>, JsonErrorV> {
        match v {
            JsonV::Null => Ok(None),
            _ => match Self::spec_from_json(v) {
                Ok(x) => Ok(Some(x)),
                Err(e) => Err(e),
            },
        }
    }

    fn step(m: Self, seen: Vec<bool>, key: &String, v: &Json) -> (r: Result<(Self, Vec<bool>), JsonError>)
        requires seen@.len() == 4,
        ensures
            match r {
                Ok((m2, seen2)) => Self::spec_step((m@, seen@), key@, v@) == Ok::<(BridgeUnlockV, Seq<bool>), JsonErrorV>((m2@, seen2@)) && seen2@.len() == 4,
                Err(e) => Self::spec_step((m@, seen@), key@, v@) == Err::<(BridgeUnlockV, Seq<bool>), JsonErrorV>(e@),
            },
    {
        let mut m = m;
        let mut seen = seen;
        let k = key.as_str();
        if str_eq(k, "to") {
            if m.to.is_some() {
                return Err(JsonError::DuplicateField("to".to_string()));
            }
            match embedded_field(v) {
                Ok(x) => m.to = x,
                Err(e) => return Err(e),
            }
        } else if str_eq(k, "amount") {
            if m.amount.is_some() {
                return Err(JsonError::DuplicateField("amount".to_string()));
            }
            match embedded_field(v) {
                Ok(x) => m.amount = x,
                Err(e) => return Err(e),
            }
        } else if str_eq(k, "feeAsset") || str_eq(k, "fee_asset") {
            if seen[0] {
                return Err(JsonError::DuplicateField("feeAsset".to_string()));
            }
            match string_field(v) {
                Ok(x) => m.fee_asset = x,
                Err(e) => return Err(e),
            }
            seen.set(0, true);
        } else if str_eq(k, "memo") {
            if seen[1] {
                return Err(JsonError::DuplicateField("memo".to_string()));
            }
            match string_field(v) {
                Ok(x) => m.memo = x,
                Err(e) => return Err(e),
            }
            seen.set(1, true);
        } else if str_eq(k, "bridgeAddress") || str_eq(k, "bridge_address") {
            if m.bridge_address.is_some() {
                return Err(JsonError::DuplicateField("bridgeAddress".to_string()));
            }
            match embedded_field(v) {
                Ok(x) => m.bridge_address = x,
                Err(e) => return Err(e),
            }
        } else if str_eq(k, "rollupBlockNumber") || str_eq(k, "rollup_block_number") {
            if seen[2] {
                return Err(JsonError::DuplicateField("rollupBlockNumber".to_string()));
            }
            match u64_field(v) {
                Ok(x) => m.rollup_block_number = x,
                Err(e) => return Err(e),
            }
            seen.set(2, true);
        } else if str_eq(k, "rollupWithdrawalEventId") || str_eq(k, "rollup_withdrawal_event_id") {
            if seen[3] {
                return Err(JsonError::DuplicateField("rollupWithdrawalEventId".to_string()));
            }
            match string_field(v) {
                Ok(x) => m.rollup_withdrawal_event_id = x,
                Err(e) => return Err(e),
            }
            seen.set(3, true);
        } else {
            return Err(JsonError::UnknownField(key.clone()));
        }
        Ok((m, seen))
    }

    /// Reads the message from a JSON value, as [`Self::spec_from_json`] describes.
    pub fn from_json(j: &Json) -> (r: Result<Self, JsonError>)
        ensures
            match r {
                Ok(m) => Self::spec_from_json(j@) == Ok::<BridgeUnlockV, JsonErrorV>(m@),
                Err(e) => Self::spec_from_json(j@) == Err::<BridgeUnlockV, JsonErrorV>(e@),
            },
    {
        let es = match j {
            Json::Object(es) => es,
            _ => return Err(JsonError::ExpectedObject),
        };
        let ghost ves = view_entries(es@);
        proof {
            lemma_view_entries_len(es@);
            assert(j@ == JsonV::Object(ves));
        }
        let mut m = Self::default();
        let mut seen: Vec<bool> = vec![false, false, false, false];
        let mut i: usize = 0;
        proof {
            assert(seen@ =~= Self::spec_start().1);
            assert(ves.skip(0) == ves);
        }
        while i < es.len()
            invariant
                j@ == JsonV::Object(ves),
                ves == view_entries(es@),
                ves.len() == es@.len(),
                i <= es.len(),
                seen@.len() == 4,
                fold_entries(Self::spec_start(), ves, Self::step_fn())
                    == fold_entries((m@, seen@), ves.skip(i as int), Self::step_fn()),
            decreases es.len() - i,
        {
            proof {
                lemma_view_entries_index(es@, i as int);
                lemma_fold_entries_step((m@, seen@), ves, i as int, Self::step_fn());
            }
            match Self::step(m, seen, &es[i].0, &es[i].1) {
                Ok((m2, seen2)) => {
                    m = m2;
                    seen = seen2;
                },
                Err(e) => return Err(e),
            }
            i = i + 1;
        }
        proof {
            assert(ves.skip(ves.len() as int) == Seq::<(Seq<char>, JsonV)>::empty());
            assert(fold_entries((m@, seen@), ves.skip(ves.len() as int), Self::step_fn())
                == Ok::<(BridgeUnlockV, Seq<bool>), JsonErrorV>((m@, seen@)));
        }
        Ok(m)
    }

    /// Reads an optional field of this message type.
    pub fn opt_from_json(v: &Json) -> (r: Result<Option<Self>, JsonError>)
        ensures
            match r {
                Ok(None) => Self::spec_read_opt(v@) == Ok::<Option<BridgeUnlockV>, JsonErrorV>(None),
                Ok(Some(x)) => Self::spec_read_opt(v@) == Ok::<Option<BridgeUnlockV>, JsonErrorV>(Some(x@)),
                Err(e) => Self::spec_read_opt(v@) == Err::<Option<BridgeUnlockV>, JsonErrorV>(e@),
            },
    {
        match v {
            Json::Null => Ok(None),
            _ => match Self::from_json(v) {
                Ok(x) => Ok(Some(x)),
                Err(e) => Err(e),
            },
        }
    }

    /// Reading the member that the field `to` writes sets the field.
    pub proof fn lemma_entry_to(m: BridgeUnlockV, st: (BridgeUnlockV, Seq<bool>))
        requires
            st.1.len() == 4,
            st.0.to is None,
        ensures
            fold_entries(st, Self::spec_entry_to(m), Self::step_fn()) == Ok::<(BridgeUnlockV, Seq<bool>), JsonErrorV>((BridgeUnlockV { to: m.to, ..st.0 }, st.1)),
    {
        reveal_strlit("to");
        reveal_strlit("amount");
        reveal_strlit("feeAsset");
        reveal_strlit("fee_asset");
        reveal_strlit("memo");
        reveal_strlit("bridgeAddress");
        reveal_strlit("bridge_address");
        reveal_strlit("rollupBlockNumber");
        reveal_strlit("rollup_block_number");
        reveal_strlit("rollupWithdrawalEventId");
        reveal_strlit("rollup_withdrawal_event_id");
        assert("to"@.len() == 2);
        assert("amount"@.len() == 6);
        assert("feeAsset"@.len() == 8);
        assert("fee_asset"@.len() == 9);
        assert("memo"@.len() == 4);
        assert("bridgeAddress"@.len() == 13);
        assert("bridge_address"@.len() == 14);
        assert("rollupBlockNumber"@.len() == 17);
        assert("rollup_block_number"@.len() == 19);
        assert("rollupWithdrawalEventId"@.len() == 23);
        assert("rollup_withdrawal_event_id"@.len() == 26);
        lemma_fold_entry_if(st, m.to is Some, "to"@, JsonV::Object(m.to.unwrap()), Self::step_fn());
    }

    /// Reading the member that the field `amount` writes sets the field.
    pub proof fn lemma_entry_amount(m: BridgeUnlockV, st: (BridgeUnlockV, Seq<bool>))
        requires
            st.1.len() == 4,
            st.0.amount is None,
        ensures
            fold_entries(st, Self::spec_entry_amount(m), Self::step_fn()) == Ok::<(BridgeUnlockV, Seq<bool>), JsonErrorV>((BridgeUnlockV { amount: m.amount, ..st.0 }, st.1)),
    {
        reveal_strlit("to");
        reveal_strlit("amount");
        reveal_strlit("feeAsset");
        reveal_strlit("fee_asset");
        reveal_strlit("memo");
        reveal_strlit("bridgeAddress");
        reveal_strlit("bridge_address");
        reveal_strlit("rollupBlockNumber");
        reveal_strlit("rollup_block_number");
        reveal_strlit("rollupWithdrawalEventId");
        reveal_strlit("rollup_withdrawal_event_id");
        assert("to"@.len() == 2);
        assert("amount"@.len() == 6);
        assert("feeAsset"@.len() == 8);
        assert("fee_asset"@.len() == 9);
        assert("memo"@.len() == 4);
        assert("bridgeAddress"@.len() == 13);
        assert("bridge_address"@.len() == 14);
        assert("rollupBlockNumber"@.len() == 17);
        assert("rollup_block_number"@.len() == 19);
        assert("rollupWithdrawalEventId"@.len() == 23);
        assert("rollup_withdrawal_event_id"@.len() == 26);
        lemma_fold_entry_if(st, m.amount is Some, "amount"@, JsonV::Object(m.amount.unwrap()), Self::step_fn());
    }

    /// Reading the member that the field `fee_asset` writes sets the field.
    pub proof fn lemma_entry_fee_asset(m: BridgeUnlockV, st: (BridgeUnlockV, Seq<bool>))
        requires
            st.1.len() == 4,
            !st.1[0],
            st.0.fee_asset == Seq::<char>::empty(),
        ensures
            fold_entries(st, Self::spec_entry_fee_asset(m), Self::step_fn()) == Ok::<(BridgeUnlockV, Seq<bool>), JsonErrorV>((BridgeUnlockV { fee_asset: m.fee_asset, ..st.0 }, if m.fee_asset.len() != 0 { st.1.update(0, true) } else { st.1 })),
    {
        reveal_strlit("to");
        reveal_strlit("amount");
        reveal_strlit("feeAsset");
        reveal_strlit("fee_asset");
        reveal_strlit("memo");
        reveal_strlit("bridgeAddress");
        reveal_strlit("bridge_address");
        reveal_strlit("rollupBlockNumber");
        reveal_strlit("rollup_block_number");
        reveal_strlit("rollupWithdrawalEventId");
        reveal_strlit("rollup_withdrawal_event_id");
        assert("to"@.len() == 2);
        assert("amount"@.len() == 6);
        assert("feeAsset"@.len() == 8);
        assert("fee_asset"@.len() == 9);
        assert("memo"@.len() == 4);
        assert("bridgeAddress"@.len() == 13);
        assert("bridge_address"@.len() == 14);
        assert("rollupBlockNumber"@.len() == 17);
        assert("rollup_block_number"@.len() == 19);
        assert("rollupWithdrawalEventId"@.len() == 23);
        assert("rollup_withdrawal_event_id"@.len() == 26);
        if m.fee_asset.len() == 0 {
            assert(m.fee_asset =~= Seq::<char>::empty());
        }
        lemma_fold_entry_if(st, m.fee_asset.len() != 0, "feeAsset"@, JsonV::Str(m.fee_asset), Self::step_fn());
    }

    /// Reading the member that the field `memo` writes sets the field.
    pub proof fn lemma_entry_memo(m: BridgeUnlockV, st: (BridgeUnlockV, Seq<bool>))
        requires
            st.1.len() == 4,
            !st.1[1],
            st.0.memo == Seq::<char>::empty(),
        ensures
            fold_entries(st, Self::spec_entry_memo(m), Self::step_fn()) == Ok::<(BridgeUnlockV, Seq<bool>), JsonErrorV>((BridgeUnlockV { memo: m.memo, ..st.0 }, if m.memo.len() != 0 { st.1.update(1, true) } else { st.1 })),
    {
        reveal_strlit("to");
        reveal_strlit("amount");
        reveal_strlit("feeAsset");
        reveal_strlit("fee_asset");
        reveal_strlit("memo");
        reveal_strlit("bridgeAddress");
        reveal_strlit("bridge_address");
        reveal_strlit("rollupBlockNumber");
        reveal_strlit("rollup_block_number");
        reveal_strlit("rollupWithdrawalEventId");
        reveal_strlit("rollup_withdrawal_event_id");
        assert("to"@.len() == 2);
        assert("amount"@.len() == 6);
        assert("feeAsset"@.len() == 8);
        assert("fee_asset"@.len() == 9);
        assert("memo"@.len() == 4);
        assert("bridgeAddress"@.len() == 13);
        assert("bridge_address"@.len() == 14);
        assert("rollupBlockNumber"@.len() == 17);
        assert("rollup_block_number"@.len() == 19);
        assert("rollupWithdrawalEventId"@.len() == 23);
        assert("rollup_withdrawal_event_id"@.len() == 26);
        if m.memo.len() == 0 {
            assert(m.memo =~= Seq::<char>::empty());
        }
        lemma_fold_entry_if(st, m.memo.len() != 0, "memo"@, JsonV::Str(m.memo), Self::step_fn());
    }

    /// Reading the member that the field `bridge_address` writes sets the field.
    pub proof fn lemma_entry_bridge_address(m: BridgeUnlockV, st: (BridgeUnlockV, Seq<bool>))
        requires
            st.1.len() == 4,
            st.0.bridge_address is None,
        ensures
            fold_entries(st, Self::spec_entry_bridge_address(m), Self::step_fn()) == Ok::<(BridgeUnlockV, Seq<bool>), JsonErrorV>((BridgeUnlockV { bridge_address: m.bridge_address, ..st.0 }, st.1)),
    {
        reveal_strlit("to");
        reveal_strlit("amount");
        reveal_strlit("feeAsset");
        reveal_strlit("fee_asset");
        reveal_strlit("memo");
        reveal_strlit("bridgeAddress");
        reveal_strlit("bridge_address");
        reveal_strlit("rollupBlockNumber");
        reveal_strlit("rollup_block_number");
        reveal_strlit("rollupWithdrawalEventId");
        reveal_strlit("rollup_withdrawal_event_id");
        assert("to"@.len() == 2);
        assert("amount"@.len() == 6);
        assert("feeAsset"@.len() == 8);
        assert("fee_asset"@.len() == 9);
        assert("memo"@.len() == 4);
        assert("bridgeAddress"@.len() == 13);
        assert("bridge_address"@.len() == 14);
        assert("rollupBlockNumber"@.len() == 17);
        assert("rollup_block_number"@.len() == 19);
        assert("rollupWithdrawalEventId"@.len() == 23);
        assert("rollup_withdrawal_event_id"@.len() == 26);
        lemma_fold_entry_if(st, m.bridge_address is Some, "bridgeAddress"@, JsonV::Object(m.bridge_address.unwrap()), Self::step_fn());
    }

    /// Reading the member that the field `rollup_block_number` writes sets the field.
    pub proof fn lemma_entry_rollup_block_number(m: BridgeUnlockV, st: (BridgeUnlockV, Seq<bool>))
        requires
            st.1.len() == 4,
            !st.1[2],
            st.0.rollup_block_number == 0,
        ensures
            fold_entries(st, Self::spec_entry_rollup_block_number(m), Self::step_fn()) == Ok::<(BridgeUnlockV, Seq<bool>), JsonErrorV>((BridgeUnlockV { rollup_block_number: m.rollup_block_number, ..st.0 }, if m.rollup_block_number != 0 { st.1.update(2, true) } else { st.1 })),
    {
        reveal_strlit("to");
        reveal_strlit("amount");
        reveal_strlit("feeAsset");
        reveal_strlit("fee_asset");
        reveal_strlit("memo");
        reveal_strlit("bridgeAddress");
        reveal_strlit("bridge_address");
        reveal_strlit("rollupBlockNumber");
        reveal_strlit("rollup_block_number");
        reveal_strlit("rollupWithdrawalEventId");
        reveal_strlit("rollup_withdrawal_event_id");
        assert("to"@.len() == 2);
        assert("amount"@.len() == 6);
        assert("feeAsset"@.len() == 8);
        assert("fee_asset"@.len() == 9);
        assert("memo"@.len() == 4);
        assert("bridgeAddress"@.len() == 13);
        assert("bridge_address"@.len() == 14);
        assert("rollupBlockNumber"@.len() == 17);
        assert("rollup_block_number"@.len() == 19);
        assert("rollupWithdrawalEventId"@.len() == 23);
        assert("rollup_withdrawal_event_id"@.len() == 26);
        lemma_read_u64_value(m.rollup_block_number);
        lemma_fold_entry_if(st, m.rollup_block_number != 0, "rollupBlockNumber"@, JsonV::Str(decimal(m.rollup_block_number as nat)), Self::step_fn());
    }

    /// Reading the member that the field `rollup_withdrawal_event_id` writes sets the field.
    pub proof fn lemma_entry_rollup_withdrawal_event_id(m: BridgeUnlockV, st: (BridgeUnlockV, Seq<bool>))
        requires
            st.1.len() == 4,
            !st.1[3],
            st.0.rollup_withdrawal_event_id == Seq::<char>::empty(),
        ensures
            fold_entries(st, Self::spec_entry_rollup_withdrawal_event_id(m), Self::step_fn()) == Ok::<(BridgeUnlockV, Seq<bool>), JsonErrorV>((BridgeUnlockV { rollup_withdrawal_event_id: m.rollup_withdrawal_event_id, ..st.0 }, if m.rollup_withdrawal_event_id.len() != 0 { st.1.update(3, true) } else { st.1 })),
    {
        reveal_strlit("to");
        reveal_strlit("amount");
        reveal_strlit("feeAsset");
        reveal_strlit("fee_asset");
        reveal_strlit("memo");
        reveal_strlit("bridgeAddress");
        reveal_strlit("bridge_address");
        reveal_strlit("rollupBlockNumber");
        reveal_strlit("rollup_block_number");
        reveal_strlit("rollupWithdrawalEventId");
        reveal_strlit("rollup_withdrawal_event_id");
        assert("to"@.len() == 2);
        assert("amount"@.len() == 6);
        assert("feeAsset"@.len() == 8);
        assert("fee_asset"@.len() == 9);
        assert("memo"@.len() == 4);
        assert("bridgeAddress"@.len() == 13);
        assert("bridge_address"@.len() == 14);
        assert("rollupBlockNumber"@.len() == 17);
        assert("rollup_block_number"@.len() == 19);
        assert("rollupWithdrawalEventId"@.len() == 23);
        assert("rollup_withdrawal_event_id"@.len() == 26);
        if m.rollup_withdrawal_event_id.len() == 0 {
            assert(m.rollup_withdrawal_event_id =~= Seq::<char>::empty());
        }
        lemma_fold_entry_if(st, m.rollup_withdrawal_event_id.len() != 0, "rollupWithdrawalEventId"@, JsonV::Str(m.rollup_withdrawal_event_id), Self::step_fn());
    }

    /// The JSON spelling of a key: the protobuf name of a field becomes its JSON name;
    /// a JSON name, and any key that names no field, is left as it is.
    pub open spec fn spec_json_key(key: Seq<char>) -> Seq<char> {
        if key == "to"@ {
            "to"@
        } else if key == "amount"@ {
            "amount"@
        } else if key == "feeAsset"@ || key == "fee_asset"@ {
            "feeAsset"@
        } else if key == "memo"@ {
            "memo"@
        } else if key == "bridgeAddress"@ || key == "bridge_address"@ {
            "bridgeAddress"@
        } else if key == "rollupBlockNumber"@ || key == "rollup_block_number"@ {
            "rollupBlockNumber"@
        } else if key == "rollupWithdrawalEventId"@ || key == "rollup_withdrawal_event_id"@ {
            "rollupWithdrawalEventId"@
        } else {
            key
        }
    }

    /// [`Self::spec_json_key`] as a function value.
    pub open spec fn json_key_fn() -> spec_fn(Seq<char>) -> Seq<char> {
        |key: Seq<char>| Self::spec_json_key(key)
    }

    /// One member is read alike whichever spelling its key has.
    pub proof fn lemma_step_json_key(st: (BridgeUnlockV, Seq<bool>), key: Seq<char>, v: JsonV)
        ensures Self::spec_step(st, key, v) == Self::spec_step(st, Self::spec_json_key(key), v),
    {
        reveal_strlit("to");
        reveal_strlit("amount");
        reveal_strlit("feeAsset");
        reveal_strlit("fee_asset");
        reveal_strlit("memo");
        reveal_strlit("bridgeAddress");
        reveal_strlit("bridge_address");
        reveal_strlit("rollupBlockNumber");
        reveal_strlit("rollup_block_number");
        reveal_strlit("rollupWithdrawalEventId");
        reveal_strlit("rollup_withdrawal_event_id");
        assert("to"@.len() == 2);
        assert("amount"@.len() == 6);
        assert("feeAsset"@.len() == 8);
        assert("fee_asset"@.len() == 9);
        assert("memo"@.len() == 4);
        assert("bridgeAddress"@.len() == 13);
        assert("bridge_address"@.len() == 14);
        assert("rollupBlockNumber"@.len() == 17);
        assert("rollup_block_number"@.len() == 19);
        assert("rollupWithdrawalEventId"@.len() == 23);
        assert("rollup_withdrawal_event_id"@.len() == 26);
        if key == "fee_asset"@ {
            assert(Self::spec_json_key(key) == "feeAsset"@);
        }
        if key == "bridge_address"@ {
            assert(Self::spec_json_key(key) == "bridgeAddress"@);
        }
        if key == "rollup_block_number"@ {
            assert(Self::spec_json_key(key) == "rollupBlockNumber"@);
        }
        if key == "rollup_withdrawal_event_id"@ {
            assert(Self::spec_json_key(key) == "rollupWithdrawalEventId"@);
        }
    }

    /// Reading an object gives the same result whichever spelling each of its keys has:
    /// two objects whose members hold the same values, in the same order, under keys of
    /// the same JSON spelling describe the same message, or are refused with the same error.
    pub proof fn lemma_key_spelling(es1: Seq<(Seq<char>, JsonV)>, es2: Seq<(Seq<char>, JsonV)>)
        requires
            es1.len() == es2.len(),
            forall|i: int| #![trigger es1[i], es2[i]] 0 <= i < es1.len() ==> es1[i].1 == es2[i].1 && Self::spec_json_key(es1[i].0) == Self::spec_json_key(es2[i].0),
        ensures Self::spec_from_json(JsonV::Object(es1)) == Self::spec_from_json(JsonV::Object(es2)),
    {
        assert forall|s: (BridgeUnlockV, Seq<bool>), k: Seq<char>, v: JsonV|
            #![trigger Self::step_fn()(s, k, v), Self::json_key_fn()(k)]
            Self::step_fn()(s, k, v) == Self::step_fn()(s, Self::json_key_fn()(k), v) by {
            Self::lemma_step_json_key(s, k, v);
        }
        lemma_fold_same_keys(Self::spec_start(), es1, es2, Self::step_fn(), Self::json_key_fn());
    }

    /// The keys of the object that the message writes: the JSON names of the fields that
    /// do not hold their default (for a oneof, the JSON name of the member set), in the
    /// order of the fields.
    pub open spec fn spec_written_keys(m: BridgeUnlockV) -> Seq<Seq<char>> {
        key_if(m.to is Some, "to"@)
            + key_if(m.amount is Some, "amount"@)
            + key_if(m.fee_asset.len() != 0, "feeAsset"@)
            + key_if(m.memo.len() != 0, "memo"@)
            + key_if(m.bridge_address is Some, "bridgeAddress"@)
            + key_if(m.rollup_block_number != 0, "rollupBlockNumber"@)
            + key_if(m.rollup_withdrawal_event_id.len() != 0, "rollupWithdrawalEventId"@)
    }

    /// The object that the message writes has exactly the keys of
    /// [`Self::spec_written_keys`], in that order.
    pub proof fn lemma_written_keys(m: BridgeUnlockV)
        ensures
            Self::spec_to_json(m) == JsonV::Object(Self::spec_entries(m)),
            entry_keys(Self::spec_entries(m)) == Self::spec_written_keys(m),
    {
        lemma_entry_keys_if(m.to is Some, "to"@, JsonV::Object(m.to.unwrap()));
        lemma_entry_keys_append(Self::spec_entry_to(m), m.amount is Some, "amount"@, JsonV::Object(m.amount.unwrap()));
        lemma_entry_keys_append(Self::spec_entry_to(m) + Self::spec_entry_amount(m), m.fee_asset.len() != 0, "feeAsset"@, JsonV::Str(m.fee_asset));
        lemma_entry_keys_append(Self::spec_entry_to(m) + Self::spec_entry_amount(m) + Self::spec_entry_fee_asset(m), m.memo.len() != 0, "memo"@, JsonV::Str(m.memo));
        lemma_entry_keys_append(Self::spec_entry_to(m) + Self::spec_entry_amount(m) + Self::spec_entry_fee_asset(m) + Self::spec_entry_memo(m), m.bridge_address is Some, "bridgeAddress"@, JsonV::Object(m.bridge_address.unwrap()));
        lemma_entry_keys_append(Self::spec_entry_to(m) + Self::spec_entry_amount(m) + Self::spec_entry_fee_asset(m) + Self::spec_entry_memo(m) + Self::spec_entry_bridge_address(m), m.rollup_block_number != 0, "rollupBlockNumber"@, JsonV::Str(decimal(m.rollup_block_number as nat)));
        lemma_entry_keys_append(Self::spec_entry_to(m) + Self::spec_entry_amount(m) + Self::spec_entry_fee_asset(m) + Self::spec_entry_memo(m) + Self::spec_entry_bridge_address(m) + Self::spec_entry_rollup_block_number(m), m.rollup_withdrawal_event_id.len() != 0, "rollupWithdrawalEventId"@, JsonV::Str(m.rollup_withdrawal_event_id));
    }

    /// Whether the field whose JSON name is `name` holds its default in `m`; for a member
    /// of a oneof, whether the oneof is set to another member or unset. `true` for a name
    /// that names no field.
    pub open spec fn spec_holds_default(m: BridgeUnlockV, name: Seq<char>) -> bool {
        if name == "to"@ {
            m.to is None
        } else if name == "amount"@ {
            m.amount is None
        } else if name == "feeAsset"@ {
            m.fee_asset == Seq::<char>::empty()
        } else if name == "memo"@ {
            m.memo == Seq::<char>::empty()
        } else if name == "bridgeAddress"@ {
            m.bridge_address is None
        } else if name == "rollupBlockNumber"@ {
            m.rollup_block_number == 0
        } else if name == "rollupWithdrawalEventId"@ {
            m.rollup_withdrawal_event_id == Seq::<char>::empty()
        } else {
            true
        }
    }

    /// Whether reading `v` for the field whose JSON name is `name` leaves the field at
    /// its default: `null`, for a field that takes it (a message field, a member of a
    /// oneof); nothing, for any other field. `true` for a name that names no field.
    pub open spec fn spec_leaves_default(name: Seq<char>, v: JsonV) -> bool {
        if name == "to"@ {
            v is Null
        } else if name == "amount"@ {
            v is Null
        } else if name == "feeAsset"@ {
            false
        } else if name == "memo"@ {
            false
        } else if name == "bridgeAddress"@ {
            v is Null
        } else if name == "rollupBlockNumber"@ {
            false
        } else if name == "rollupWithdrawalEventId"@ {
            false
        } else {
            true
        }
    }

    /// Reading one member keeps a field at its default unless the key names the field
    /// and the value does not leave it there.
    pub proof fn lemma_step_keeps_default(st: (BridgeUnlockV, Seq<bool>), key: Seq<char>, v: JsonV, name: Seq<char>)
        requires
            Self::spec_holds_default(st.0, name),
            Self::spec_json_key(key) == name ==> Self::spec_leaves_default(name, v),
        ensures
            Self::spec_step(st, key, v) is Ok ==> Self::spec_holds_default(Self::spec_step(st, key, v)->Ok_0.0, name),
    {
        reveal_strlit("to");
        reveal_strlit("amount");
        reveal_strlit("feeAsset");
        reveal_strlit("fee_asset");
        reveal_strlit("memo");
        reveal_strlit("bridgeAddress");
        reveal_strlit("bridge_address");
        reveal_strlit("rollupBlockNumber");
        reveal_strlit("rollup_block_number");
        reveal_strlit("rollupWithdrawalEventId");
        reveal_strlit("rollup_withdrawal_event_id");
        assert("to"@.len() == 2);
        assert("amount"@.len() == 6);
        assert("feeAsset"@.len() == 8);
        assert("fee_asset"@.len() == 9);
        assert("memo"@.len() == 4);
        assert("bridgeAddress"@.len() == 13);
        assert("bridge_address"@.len() == 14);
        assert("rollupBlockNumber"@.len() == 17);
        assert("rollup_block_number"@.len() == 19);
        assert("rollupWithdrawalEventId"@.len() == 23);
        assert("rollup_withdrawal_event_id"@.len() == 26);
        Self::lemma_step_json_key(st, key, v);
    }

    /// A field whose key appears in no member of an object, or only with values that
    /// leave it at its default (`null`, for a field that takes it), holds its default in
    /// the message that the object describes.
    pub proof fn lemma_absent_default(es: Seq<(Seq<char>, JsonV)>, name: Seq<char>)
        requires
            forall|i: int| 0 <= i < es.len() ==> (Self::spec_json_key((#[trigger] es[i]).0) == name
                ==> Self::spec_leaves_default(name, es[i].1)),
        ensures
            Self::spec_from_json(JsonV::Object(es)) is Ok
                ==> Self::spec_holds_default(Self::spec_from_json(JsonV::Object(es))->Ok_0, name),
    {
        let inv = |s: (BridgeUnlockV, Seq<bool>)| Self::spec_holds_default(s.0, name);
        let allowed = |k: Seq<char>, v: JsonV| Self::spec_json_key(k) == name ==> Self::spec_leaves_default(name, v);
        assert forall|s: (BridgeUnlockV, Seq<bool>), k: Seq<char>, v: JsonV| #![trigger Self::step_fn()(s, k, v)]
            inv(s) && allowed(k, v) && Self::step_fn()(s, k, v) is Ok implies inv(Self::step_fn()(s, k, v)->Ok_0) by {
            Self::lemma_step_keeps_default(s, k, v, name);
        }
        assert(inv(Self::spec_start()));
        lemma_fold_keeps(Self::spec_start(), es, Self::step_fn(), inv, allowed);
    }

    /// The field `to` alone: an object with one member under its JSON or protobuf
    /// name reads as the message with that field set and every other field at its
    /// default, and the message with only that field off its default writes that
    /// one member under the JSON name.
    pub proof fn lemma_field_to(es: Seq<(Seq<char>, JsonV)>)
        ensures
            Self::spec_from_json(JsonV::Object(seq![("to"@, JsonV::Object(es))])) == Ok::<BridgeUnlockV, JsonErrorV>(BridgeUnlockV { to: Some(es), ..Self::spec_default() }),
            Self::spec_from_json(JsonV::Object(seq![("to"@, JsonV::Null)])) == Ok::<BridgeUnlockV, JsonErrorV>(Self::spec_default()),
            Self::spec_to_json(BridgeUnlockV { to: Some(es), ..Self::spec_default() }) == JsonV::Object(seq![("to"@, JsonV::Object(es))]),
    {
        reveal_strlit("to");
        reveal_strlit("amount");
        reveal_strlit("feeAsset");
        reveal_strlit("fee_asset");
        reveal_strlit("memo");
        reveal_strlit("bridgeAddress");
        reveal_strlit("bridge_address");
        reveal_strlit("rollupBlockNumber");
        reveal_strlit("rollup_block_number");
        reveal_strlit("rollupWithdrawalEventId");
        reveal_strlit("rollup_withdrawal_event_id");
        assert("to"@.len() == 2);
        assert("amount"@.len() == 6);
        assert("feeAsset"@.len() == 8);
        assert("fee_asset"@.len() == 9);
        assert("memo"@.len() == 4);
        assert("bridgeAddress"@.len() == 13);
        assert("bridge_address"@.len() == 14);
        assert("rollupBlockNumber"@.len() == 17);
        assert("rollup_block_number"@.len() == 19);
        assert("rollupWithdrawalEventId"@.len() == 23);
        assert("rollup_withdrawal_event_id"@.len() == 26);
        lemma_fold_entry_if(Self::spec_start(), true, "to"@, JsonV::Object(es), Self::step_fn());
        lemma_fold_entry_if(Self::spec_start(), true, "to"@, JsonV::Null, Self::step_fn());
    }

    /// The field `amount` alone: an object with one member under its JSON or protobuf
    /// name reads as the message with that field set and every other field at its
    /// default, and the message with only that field off its default writes that
    /// one member under the JSON name.
    pub proof fn lemma_field_amount(es: Seq<(Seq<char>, JsonV)>)
        ensures
            Self::spec_from_json(JsonV::Object(seq![("amount"@, JsonV::Object(es))])) == Ok::<BridgeUnlockV, JsonErrorV>(BridgeUnlockV { amount: Some(es), ..Self::spec_default() }),
            Self::spec_from_json(JsonV::Object(seq![("amount"@, JsonV::Null)])) == Ok::<BridgeUnlockV, JsonErrorV>(Self::spec_default()),
            Self::spec_to_json(BridgeUnlockV { amount: Some(es), ..Self::spec_default() }) == JsonV::Object(seq![("amount"@, JsonV::Object(es))]),
    {
        reveal_strlit("to");
        reveal_strlit("amount");
        reveal_strlit("feeAsset");
        reveal_strlit("fee_asset");
        reveal_strlit("memo");
        reveal_strlit("bridgeAddress");
        reveal_strlit("bridge_address");
        reveal_strlit("rollupBlockNumber");
        reveal_strlit("rollup_block_number");
        reveal_strlit("rollupWithdrawalEventId");
        reveal_strlit("rollup_withdrawal_event_id");
        assert("to"@.len() == 2);
        assert("amount"@.len() == 6);
        assert("feeAsset"@.len() == 8);
        assert("fee_asset"@.len() == 9);
        assert("memo"@.len() == 4);
        assert("bridgeAddress"@.len() == 13);
        assert("bridge_address"@.len() == 14);
        assert("rollupBlockNumber"@.len() == 17);
        assert("rollup_block_number"@.len() == 19);
        assert("rollupWithdrawalEventId"@.len() == 23);
        assert("rollup_withdrawal_event_id"@.len() == 26);
        lemma_fold_entry_if(Self::spec_start(), true, "amount"@, JsonV::Object(es), Self::step_fn());
        lemma_fold_entry_if(Self::spec_start(), true, "amount"@, JsonV::Null, Self::step_fn());
    }

    /// The field `fee_asset` alone: an object with one member under its JSON or protobuf
    /// name reads as the message with that field set and every other field at its
    /// default, and the message with only that field off its default writes that
    /// one member under the JSON name.
    pub proof fn lemma_field_fee_asset(s: Seq<char>)
        ensures
            Self::spec_from_json(JsonV::Object(seq![("feeAsset"@, JsonV::Str(s))])) == Ok::<BridgeUnlockV, JsonErrorV>(BridgeUnlockV { fee_asset: s, ..Self::spec_default() }),
            Self::spec_from_json(JsonV::Object(seq![("fee_asset"@, JsonV::Str(s))])) == Ok::<BridgeUnlockV, JsonErrorV>(BridgeUnlockV { fee_asset: s, ..Self::spec_default() }),
            s.len() > 0 ==> Self::spec_to_json(BridgeUnlockV { fee_asset: s, ..Self::spec_default() }) == JsonV::Object(seq![("feeAsset"@, JsonV::Str(s))]),
    {
        reveal_strlit("to");
        reveal_strlit("amount");
        reveal_strlit("feeAsset");
        reveal_strlit("fee_asset");
        reveal_strlit("memo");
        reveal_strlit("bridgeAddress");
        reveal_strlit("bridge_address");
        reveal_strlit("rollupBlockNumber");
        reveal_strlit("rollup_block_number");
        reveal_strlit("rollupWithdrawalEventId");
        reveal_strlit("rollup_withdrawal_event_id");
        assert("to"@.len() == 2);
        assert("amount"@.len() == 6);
        assert("feeAsset"@.len() == 8);
        assert("fee_asset"@.len() == 9);
        assert("memo"@.len() == 4);
        assert("bridgeAddress"@.len() == 13);
        assert("bridge_address"@.len() == 14);
        assert("rollupBlockNumber"@.len() == 17);
        assert("rollup_block_number"@.len() == 19);
        assert("rollupWithdrawalEventId"@.len() == 23);
        assert("rollup_withdrawal_event_id"@.len() == 26);
        lemma_fold_entry_if(Self::spec_start(), true, "feeAsset"@, JsonV::Str(s), Self::step_fn());
        lemma_fold_entry_if(Self::spec_start(), true, "fee_asset"@, JsonV::Str(s), Self::step_fn());
    }

    /// The field `memo` alone: an object with one member under its JSON or protobuf
    /// name reads as the message with that field set and every other field at its
    /// default, and the message with only that field off its default writes that
    /// one member under the JSON name.
    pub proof fn lemma_field_memo(s: Seq<char>)
        ensures
            Self::spec_from_json(JsonV::Object(seq![("memo"@, JsonV::Str(s))])) == Ok::<BridgeUnlockV, JsonErrorV>(BridgeUnlockV { memo: s, ..Self::spec_default() }),
            s.len() > 0 ==> Self::spec_to_json(BridgeUnlockV { memo: s, ..Self::spec_default() }) == JsonV::Object(seq![("memo"@, JsonV::Str(s))]),
    {
        reveal_strlit("to");
        reveal_strlit("amount");
        reveal_strlit("feeAsset");
        reveal_strlit("fee_asset");
        reveal_strlit("memo");
        reveal_strlit("bridgeAddress");
        reveal_strlit("bridge_address");
        reveal_strlit("rollupBlockNumber");
        reveal_strlit("rollup_block_number");
        reveal_strlit("rollupWithdrawalEventId");
        reveal_strlit("rollup_withdrawal_event_id");
        assert("to"@.len() == 2);
        assert("amount"@.len() == 6);
        assert("feeAsset"@.len() == 8);
        assert("fee_asset"@.len() == 9);
        assert("memo"@.len() == 4);
        assert("bridgeAddress"@.len() == 13);
        assert("bridge_address"@.len() == 14);
        assert("rollupBlockNumber"@.len() == 17);
        assert("rollup_block_number"@.len() == 19);
        assert("rollupWithdrawalEventId"@.len() == 23);
        assert("rollup_withdrawal_event_id"@.len() == 26);
        lemma_fold_entry_if(Self::spec_start(), true, "memo"@, JsonV::Str(s), Self::step_fn());
    }

    /// The field `bridge_address` alone: an object with one member under its JSON or protobuf
    /// name reads as the message with that field set and every other field at its
    /// default, and the message with only that field off its default writes that
    /// one member under the JSON name.
    pub proof fn lemma_field_bridge_address(es: Seq<(Seq<char>, JsonV)>)
        ensures
            Self::spec_from_json(JsonV::Object(seq![("bridgeAddress"@, JsonV::Object(es))])) == Ok::<BridgeUnlockV, JsonErrorV>(BridgeUnlockV { bridge_address: Some(es), ..Self::spec_default() }),
            Self::spec_from_json(JsonV::Object(seq![("bridgeAddress"@, JsonV::Null)])) == Ok::<BridgeUnlockV, JsonErrorV>(Self::spec_default()),
            Self::spec_from_json(JsonV::Object(seq![("bridge_address"@, JsonV::Object(es))])) == Ok::<BridgeUnlockV, JsonErrorV>(BridgeUnlockV { bridge_address: Some(es), ..Self::spec_default() }),
            Self::spec_from_json(JsonV::Object(seq![("bridge_address"@, JsonV::Null)])) == Ok::<BridgeUnlockV, JsonErrorV>(Self::spec_default()),
            Self::spec_to_json(BridgeUnlockV { bridge_address: Some(es), ..Self::spec_default() }) == JsonV::Object(seq![("bridgeAddress"@, JsonV::Object(es))]),
    {
        reveal_strlit("to");
        reveal_strlit("amount");
        reveal_strlit("feeAsset");
        reveal_strlit("fee_asset");
        reveal_strlit("memo");
        reveal_strlit("bridgeAddress");
        reveal_strlit("bridge_address");
        reveal_strlit("rollupBlockNumber");
        reveal_strlit("rollup_block_number");
        reveal_strlit("rollupWithdrawalEventId");
        reveal_strlit("rollup_withdrawal_event_id");
        assert("to"@.len() == 2);
        assert("amount"@.len() == 6);
        assert("feeAsset"@.len() == 8);
        assert("fee_asset"@.len() == 9);
        assert("memo"@.len() == 4);
        assert("bridgeAddress"@.len() == 13);
        assert("bridge_address"@.len() == 14);
        assert("rollupBlockNumber"@.len() == 17);
        assert("rollup_block_number"@.len() == 19);
        assert("rollupWithdrawalEventId"@.len() == 23);
        assert("rollup_withdrawal_event_id"@.len() == 26);
        lemma_fold_entry_if(Self::spec_start(), true, "bridgeAddress"@, JsonV::Object(es), Self::step_fn());
        lemma_fold_entry_if(Self::spec_start(), true, "bridgeAddress"@, JsonV::Null, Self::step_fn());
        lemma_fold_entry_if(Self::spec_start(), true, "bridge_address"@, JsonV::Object(es), Self::step_fn());
        lemma_fold_entry_if(Self::spec_start(), true, "bridge_address"@, JsonV::Null, Self::step_fn());
    }

    /// The field `rollup_block_number` alone: an object with one member under its JSON or protobuf
    /// name reads as the message with that field set and every other field at its
    /// default, and the message with only that field off its default writes that
    /// one member under the JSON name.
    pub proof fn lemma_field_rollup_block_number(v: u64)
        ensures
            Self::spec_from_json(JsonV::Object(seq![("rollupBlockNumber"@, JsonV::Unsigned(v))])) == Ok::<BridgeUnlockV, JsonErrorV>(BridgeUnlockV { rollup_block_number: v, ..Self::spec_default() }),
            Self::spec_from_json(JsonV::Object(seq![("rollupBlockNumber"@, JsonV::Str(decimal(v as nat)))])) == Ok::<BridgeUnlockV, JsonErrorV>(BridgeUnlockV { rollup_block_number: v, ..Self::spec_default() }),
            Self::spec_from_json(JsonV::Object(seq![("rollup_block_number"@, JsonV::Unsigned(v))])) == Ok::<BridgeUnlockV, JsonErrorV>(BridgeUnlockV { rollup_block_number: v, ..Self::spec_default() }),
            Self::spec_from_json(JsonV::Object(seq![("rollup_block_number"@, JsonV::Str(decimal(v as nat)))])) == Ok::<BridgeUnlockV, JsonErrorV>(BridgeUnlockV { rollup_block_number: v, ..Self::spec_default() }),
            v != 0 ==> Self::spec_to_json(BridgeUnlockV { rollup_block_number: v, ..Self::spec_default() }) == JsonV::Object(seq![("rollupBlockNumber"@, JsonV::Str(decimal(v as nat)))]),
    {
        reveal_strlit("to");
        reveal_strlit("amount");
        reveal_strlit("feeAsset");
        reveal_strlit("fee_asset");
        reveal_strlit("memo");
        reveal_strlit("bridgeAddress");
        reveal_strlit("bridge_address");
        reveal_strlit("rollupBlockNumber");
        reveal_strlit("rollup_block_number");
        reveal_strlit("rollupWithdrawalEventId");
        reveal_strlit("rollup_withdrawal_event_id");
        assert("to"@.len() == 2);
        assert("amount"@.len() == 6);
        assert("feeAsset"@.len() == 8);
        assert("fee_asset"@.len() == 9);
        assert("memo"@.len() == 4);
        assert("bridgeAddress"@.len() == 13);
        assert("bridge_address"@.len() == 14);
        assert("rollupBlockNumber"@.len() == 17);
        assert("rollup_block_number"@.len() == 19);
        assert("rollupWithdrawalEventId"@.len() == 23);
        assert("rollup_withdrawal_event_id"@.len() == 26);
        lemma_read_u64_value(v);
        lemma_fold_entry_if(Self::spec_start(), true, "rollupBlockNumber"@, JsonV::Unsigned(v), Self::step_fn());
        lemma_fold_entry_if(Self::spec_start(), true, "rollupBlockNumber"@, JsonV::Str(decimal(v as nat)), Self::step_fn());
        lemma_fold_entry_if(Self::spec_start(), true, "rollup_block_number"@, JsonV::Unsigned(v), Self::step_fn());
        lemma_fold_entry_if(Self::spec_start(), true, "rollup_block_number"@, JsonV::Str(decimal(v as nat)), Self::step_fn());
    }

    /// The field `rollup_withdrawal_event_id` alone: an object with one member under its JSON or protobuf
    /// name reads as the message with that field set and every other field at its
    /// default, and the message with only that field off its default writes that
    /// one member under the JSON name.
    pub proof fn lemma_field_rollup_withdrawal_event_id(s: Seq<char>)
        ensures
            Self::spec_from_json(JsonV::Object(seq![("rollupWithdrawalEventId"@, JsonV::Str(s))])) == Ok::<BridgeUnlockV, JsonErrorV>(BridgeUnlockV { rollup_withdrawal_event_id: s, ..Self::spec_default() }),
            Self::spec_from_json(JsonV::Object(seq![("rollup_withdrawal_event_id"@, JsonV::Str(s))])) == Ok::<BridgeUnlockV, JsonErrorV>(BridgeUnlockV { rollup_withdrawal_event_id: s, ..Self::spec_default() }),
            s.len() > 0 ==> Self::spec_to_json(BridgeUnlockV { rollup_withdrawal_event_id: s, ..Self::spec_default() }) == JsonV::Object(seq![("rollupWithdrawalEventId"@, JsonV::Str(s))]),
    {
        reveal_strlit("to");
        reveal_strlit("amount");
        reveal_strlit("feeAsset");
        reveal_strlit("fee_asset");
        reveal_strlit("memo");
        reveal_strlit("bridgeAddress");
        reveal_strlit("bridge_address");
        reveal_strlit("rollupBlockNumber");
        reveal_strlit("rollup_block_number");
        reveal_strlit("rollupWithdrawalEventId");
        reveal_strlit("rollup_withdrawal_event_id");
        assert("to"@.len() == 2);
        assert("amount"@.len() == 6);
        assert("feeAsset"@.len() == 8);
        assert("fee_asset"@.len() == 9);
        assert("memo"@.len() == 4);
        assert("bridgeAddress"@.len() == 13);
        assert("bridge_address"@.len() == 14);
        assert("rollupBlockNumber"@.len() == 17);
        assert("rollup_block_number"@.len() == 19);
        assert("rollupWithdrawalEventId"@.len() == 23);
        assert("rollup_withdrawal_event_id"@.len() == 26);
        lemma_fold_entry_if(Self::spec_start(), true, "rollupWithdrawalEventId"@, JsonV::Str(s), Self::step_fn());
        lemma_fold_entry_if(Self::spec_start(), true, "rollup_withdrawal_event_id"@, JsonV::Str(s), Self::step_fn());
    }

    /// Reading back the JSON object of a message gives the message.
    pub proof fn lemma_json_roundtrip(m: BridgeUnlockV)
        ensures Self::spec_from_json(Self::spec_to_json(m)) == Ok::<BridgeUnlockV, JsonErrorV>(m),
    {
        let step = Self::step_fn();
        let s0 = Self::spec_start();
        let s1 = (BridgeUnlockV { to: m.to, ..s0.0 }, s0.1);
        Self::lemma_entry_to(m, s0);
        let s2 = (BridgeUnlockV { amount: m.amount, ..s1.0 }, s1.1);
        Self::lemma_entry_amount(m, s1);
        let s3 = (BridgeUnlockV { fee_asset: m.fee_asset, ..s2.0 }, if m.fee_asset.len() != 0 { s2.1.update(0, true) } else { s2.1 });
        Self::lemma_entry_fee_asset(m, s2);
        let s4 = (BridgeUnlockV { memo: m.memo, ..s3.0 }, if m.memo.len() != 0 { s3.1.update(1, true) } else { s3.1 });
        Self::lemma_entry_memo(m, s3);
        let s5 = (BridgeUnlockV { bridge_address: m.bridge_address, ..s4.0 }, s4.1);
        Self::lemma_entry_bridge_address(m, s4);
        let s6 = (BridgeUnlockV { rollup_block_number: m.rollup_block_number, ..s5.0 }, if m.rollup_block_number != 0 { s5.1.update(2, true) } else { s5.1 });
        Self::lemma_entry_rollup_block_number(m, s5);
        let s7 = (BridgeUnlockV { rollup_withdrawal_event_id: m.rollup_withdrawal_event_id, ..s6.0 }, if m.rollup_withdrawal_event_id.len() != 0 { s6.1.update(3, true) } else { s6.1 });
        Self::lemma_entry_rollup_withdrawal_event_id(m, s6);
        let p1 = Self::spec_entry_to(m);
        let p2 = p1 + Self::spec_entry_amount(m);
        lemma_fold_entries_append(s0, p1, Self::spec_entry_amount(m), step);
        let p3 = p2 + Self::spec_entry_fee_asset(m);
        lemma_fold_entries_append(s0, p2, Self::spec_entry_fee_asset(m), step);
        let p4 = p3 + Self::spec_entry_memo(m);
        lemma_fold_entries_append(s0, p3, Self::spec_entry_memo(m), step);
        let p5 = p4 + Self::spec_entry_bridge_address(m);
        lemma_fold_entries_append(s0, p4, Self::spec_entry_bridge_address(m), step);
        let p6 = p5 + Self::spec_entry_rollup_block_number(m);
        lemma_fold_entries_append(s0, p5, Self::spec_entry_rollup_block_number(m), step);
        let p7 = p6 + Self::spec_entry_rollup_withdrawal_event_id(m);
        lemma_fold_entries_append(s0, p6, Self::spec_entry_rollup_withdrawal_event_id(m), step);
        assert(s7.0 == m);
    }
}

/// The `astria.protocol.transaction.v1.CancelOrder` message.
#[derive(Clone, Debug, PartialEq)]
pub struct CancelOrder {
    pub order_id: String,
    pub fee_asset: String,
}

/// The mathematical content of a [`CancelOrder`].
pub struct CancelOrderV {
    pub order_id: Seq<char>,
    pub fee_asset: Seq<char>,
}

impl View for CancelOrder {
    type V = CancelOrderV;

    open spec fn view(&self) -> CancelOrderV {
        CancelOrderV {
            order_id: self.order_id@,
            fee_asset: self.fee_asset@,
        }
    }
}

impl Default for CancelOrder {
    fn default() -> (r: Self)
        ensures r@ == CancelOrder::spec_default(),
    {
        let r = CancelOrder {
            order_id: String::new(),
            fee_asset: String::new(),
        };
        r
    }
}

impl CancelOrder {
    /// The fully qualified protobuf name of the message.
    pub fn full_name() -> (r: String)
        ensures r@ == "astria.protocol.transaction.v1.CancelOrder"@,
    {
        "astria.protocol.transaction.v1.CancelOrder".to_string()
    }

    /// Every field at its default: empty strings, bytes and lists, zero, `false`, unset.
    pub open spec fn spec_default() -> CancelOrderV {
        CancelOrderV {
            order_id: Seq::<char>::empty(),
            fee_asset: Seq::<char>::empty(),
        }
    }

    /// The view of an optional field of this message type.
    pub open spec fn view_opt(o: Option<Self>) -> Option<CancelOrderV> {
        match o {
            Some(x) => Some(x@),
            None => None,
        }
    }

    /// The view of a repeated field of this message type.
    pub open spec fn view_list(v: Seq<Self>) -> Seq<CancelOrderV> {
        v.map_values(|x: Self| x@)
    }

    /// The member that the field `order_id` writes: none where it holds its default.
    pub open spec fn spec_entry_order_id(m: CancelOrderV) -> Seq<(Seq<char>, JsonV)> {
        entry_if(m.order_id.len() != 0, "orderId"@, JsonV::Str(m.order_id))
    }

    /// The member that the field `fee_asset` writes: none where it holds its default.
    pub open spec fn spec_entry_fee_asset(m: CancelOrderV) -> Seq<(Seq<char>, JsonV)> {
        entry_if(m.fee_asset.len() != 0, "feeAsset"@, JsonV::Str(m.fee_asset))
    }

    /// The members of the JSON object of the message: each field that does not hold
    /// its default, under its JSON name, in the order of the fields.
    pub open spec fn spec_entries(m: CancelOrderV) -> Seq<(Seq<char>, JsonV)> {
        Self::spec_entry_order_id(m) + Self::spec_entry_fee_asset(m)
    }

    /// The JSON object that the protobuf JSON mapping writes for the message.
    pub open spec fn spec_to_json(m: CancelOrderV) -> JsonV {
        JsonV::Object(Self::spec_entries(m))
    }

    /// [`Self::spec_to_json`] as a function value, for repeated fields.
    pub open spec fn writer() -> spec_fn(CancelOrderV) -> JsonV {
        |m: CancelOrderV| Self::spec_to_json(m)
    }

    fn write_order_id(&self, es: &mut Vec<(String, Json)>)
        ensures
            view_entries(final(es)@) == view_entries(old(es)@) + Self::spec_entry_order_id(self@),
    {
        if !self.order_id.as_str().is_empty() {
            push_entry(es, "orderId", string_value(&self.order_id));
        }
        assert(view_entries(es@) =~= view_entries(old(es)@) + Self::spec_entry_order_id(self@));
    }

    fn write_fee_asset(&self, es: &mut Vec<(String, Json)>)
        ensures
            view_entries(final(es)@) == view_entries(old(es)@) + Self::spec_entry_fee_asset(self@),
    {
        if !self.fee_asset.as_str().is_empty() {
            push_entry(es, "feeAsset", string_value(&self.fee_asset));
        }
        assert(view_entries(es@) =~= view_entries(old(es)@) + Self::spec_entry_fee_asset(self@));
    }

    /// Writes the message as a JSON object; reading it back gives the message.
    pub fn to_json(&self) -> (r: Json)
        ensures
            r@ == Self::spec_to_json(self@),
            Self::spec_from_json(r@) == Ok::<CancelOrderV, JsonErrorV>(self@),
    {
        let mut es: Vec<(String, Json)> = Vec::new();
        let ghost mut acc: Seq<(Seq<char>, JsonV)> = Seq::empty();
        proof {
            assert(view_entries(es@) =~= acc);
        }
        self.write_order_id(&mut es);
        proof {
            acc = acc + Self::spec_entry_order_id(self@);
        }
        self.write_fee_asset(&mut es);
        proof {
            acc = acc + Self::spec_entry_fee_asset(self@);
        }
        proof {
            assert(acc =~= Self::spec_entries(self@));
            Self::lemma_json_roundtrip(self@);
        }
        Json::Object(es)
    }

    /// Reads one member of the object into the message under construction; `seen`
    /// records which fields that have no unset state were already given.
    pub open spec fn spec_step(st: (CancelOrderV, Seq<bool>), key: Seq<char>, v: JsonV) -> Result<(CancelOrderV, Seq<bool>), JsonErrorV> {
        let m = st.0;
        let seen = st.1;
        if key == "orderId"@ || key == "order_id"@ {
            if seen[0] {
                Err(JsonErrorV::DuplicateField("orderId"@))
            } else {
                match read_string(v) {
                    Ok(x) => Ok((CancelOrderV { order_id: x, ..m }, seen.update(0, true))),
                    Err(e) => Err(e),
                }
            }
        } else if key == "feeAsset"@ || key == "fee_asset"@ {
            if seen[1] {
                Err(JsonErrorV::DuplicateField("feeAsset"@))
            } else {
                match read_string(v) {
                    Ok(x) => Ok((CancelOrderV { fee_asset: x, ..m }, seen.update(1, true))),
                    Err(e) => Err(e),
                }
            }
        } else {
            Err(JsonErrorV::UnknownField(key))
        }
    }

    /// [`Self::spec_step`] as a function value.
    pub open spec fn step_fn() -> spec_fn((CancelOrderV, Seq<bool>), Seq<char>, JsonV) -> Result<(CancelOrderV, Seq<bool>), JsonErrorV> {
        |st: (CancelOrderV, Seq<bool>), key: Seq<char>, v: JsonV| Self::spec_step(st, key, v)
    }

    /// The state before the first member is read: the default message, no field seen.
    pub open spec fn spec_start() -> (CancelOrderV, Seq<bool>) {
        (Self::spec_default(), seq![false, false])
    }

    /// The message that a JSON value describes: an object whose keys each name a field
    /// (by its JSON name or its protobuf name), at most once each; fields that are not
    /// given keep their default. The first member that is refused gives the error.
    pub open spec fn spec_from_json(j: JsonV) -> Result<CancelOrderV, JsonErrorV> {
        match j {
            JsonV::Object(es) => match fold_entries(Self::spec_start(), es, Self::step_fn()) {
                Ok(st) => Ok(st.0),
                Err(e) => Err(e),
            },
            _ => Err(JsonErrorV::ExpectedObject),
        }
    }

    /// [`Self::spec_from_json`] as a function value, for repeated fields.
    pub open spec fn reader() -> spec_fn(JsonV) -> Result<CancelOrderV, JsonErrorV> {
        |v: JsonV| Self::spec_from_json(v)
    }

    /// An optional field of this message type: `null` leaves it unset.
    pub open spec fn spec_read_opt(v: JsonV) -> Result<Option<CancelOrderV>, JsonErrorV> {
        match v {
            JsonV::Null => Ok(None),
            _ => match Self::spec_from_json(v) {
                Ok(x) => Ok(Some(x)),
                Err(e) => Err(e),
            },
        }
    }

    fn step(m: Self, seen: Vec<bool>, key: &String, v: &Json) -> (r: Result<(Self, Vec<bool>), JsonError>)
        requires seen@.len() == 2,
        ensures
            match r {
                Ok((m2, seen2)) => Self::spec_step((m@, seen@), key@, v@) == Ok::<(CancelOrderV, Seq<bool>), JsonErrorV>((m2@, seen2@)) && seen2@.len() == 2,
                Err(e) => Self::spec_step((m@, seen@), key@, v@) == Err::<(CancelOrderV, Seq<bool>), JsonErrorV>(e@),
            },
    {
        let mut m = m;
        let mut seen = seen;
        let k = key.as_str();
        if str_eq(k, "orderId") || str_eq(k, "order_id") {
            if seen[0] {
                return Err(JsonError::DuplicateField("orderId".to_string()));
            }
            match string_field(v) {
                Ok(x) => m.order_id = x,
                Err(e) => return Err(e),
            }
            seen.set(0, true);
        } else if str_eq(k, "feeAsset") || str_eq(k, "fee_asset") {
            if seen[1] {
                return Err(JsonError::DuplicateField("feeAsset".to_string()));
            }
            match string_field(v) {
                Ok(x) => m.fee_asset = x,
                Err(e) => return Err(e),
            }
            seen.set(1, true);
        } else {
            return Err(JsonError::UnknownField(key.clone()));
        }
        Ok((m, seen))
    }

    /// Reads the message from a JSON value, as [`Self::spec_from_json`] describes.
    pub fn from_json(j: &Json) -> (r: Result<Self, JsonError>)
        ensures
            match r {
                Ok(m) => Self::spec_from_json(j@) == Ok::<CancelOrderV, JsonErrorV>(m@),
                Err(e) => Self::spec_from_json(j@) == Err::<CancelOrderV, JsonErrorV>(e@),
            },
    {
        let es = match j {
            Json::Object(es) => es,
            _ => return Err(JsonError::ExpectedObject),
        };
        let ghost ves = view_entries(es@);
        proof {
            lemma_view_entries_len(es@);
            assert(j@ == JsonV::Object(ves));
        }
        let mut m = Self::default();
        let mut seen: Vec<bool> = vec![false, false];
        let mut i: usize = 0;
        proof {
            assert(seen@ =~= Self::spec_start().1);
            assert(ves.skip(0) == ves);
        }
        while i < es.len()
            invariant
                j@ == JsonV::Object(ves),
                ves == view_entries(es@),
                ves.len() == es@.len(),
                i <= es.len(),
                seen@.len() == 2,
                fold_entries(Self::spec_start(), ves, Self::step_fn())
                    == fold_entries((m@, seen@), ves.skip(i as int), Self::step_fn()),
            decreases es.len() - i,
        {
            proof {
                lemma_view_entries_index(es@, i as int);
                lemma_fold_entries_step((m@, seen@), ves, i as int, Self::step_fn());
            }
            match Self::step(m, seen, &es[i].0, &es[i].1) {
                Ok((m2, seen2)) => {
                    m = m2;
                    seen = seen2;
                },
                Err(e) => return Err(e),
            }
            i = i + 1;
        }
        proof {
            assert(ves.skip(ves.len() as int) == Seq::<(Seq<char>, JsonV)>::empty());
            assert(fold_entries((m@, seen@), ves.skip(ves.len() as int), Self::step_fn())
                == Ok::<(CancelOrderV, Seq<bool>), JsonErrorV>((m@, seen@)));
        }
        Ok(m)
    }

    /// Reads an optional field of this message type.
    pub fn opt_from_json(v: &Json) -> (r: Result<Option<Self>, JsonError>)
        ensures
            match r {
                Ok(None) => Self::spec_read_opt(v@) == Ok::<Option<CancelOrderV>, JsonErrorV>(None),
                Ok(Some(x)) => Self::spec_read_opt(v@) == Ok::<Option<CancelOrderV>, JsonErrorV>(Some(x@)),
                Err(e) => Self::spec_read_opt(v@) == Err::<Option<CancelOrderV>, JsonErrorV>(e@),
            },
    {
        match v {
            Json::Null => Ok(None),
            _ => match Self::from_json(v) {
                Ok(x) => Ok(Some(x)),
                Err(e) => Err(e),
            },
        }
    }

    /// Reading the member that the field `order_id` writes sets the field.
    pub proof fn lemma_entry_order_id(m: CancelOrderV, st: (CancelOrderV, Seq<bool>))
        requires
            st.1.len() == 2,
            !st.1[0],
            st.0.order_id == Seq::<char>::empty(),
        ensures
            fold_entries(st, Self::spec_entry_order_id(m), Self::step_fn()) == Ok::<(CancelOrderV, Seq<bool>), JsonErrorV>((CancelOrderV { order_id: m.order_id, ..st.0 }, if m.order_id.len() != 0 { st.1.update(0, true) } else { st.1 })),
    {
        reveal_strlit("orderId");
        reveal_strlit("order_id");
        reveal_strlit("feeAsset");
        reveal_strlit("fee_asset");
        assert("orderId"@.len() == 7);
        assert("order_id"@.len() == 8);
        assert("feeAsset"@.len() == 8);
        assert("fee_asset"@.len() == 9);
        assert("order_id"@[0] != "feeAsset"@[0]);
        if m.order_id.len() == 0 {
            assert(m.order_id =~= Seq::<char>::empty());
        }
        lemma_fold_entry_if(st, m.order_id.len() != 0, "orderId"@, JsonV::Str(m.order_id), Self::step_fn());
    }

    /// Reading the member that the field `fee_asset` writes sets the field.
    pub proof fn lemma_entry_fee_asset(m: CancelOrderV, st: (CancelOrderV, Seq<bool>))
        requires
            st.1.len() == 2,
            !st.1[1],
            st.0.fee_asset == Seq::<char>::empty(),
        ensures
            fold_entries(st, Self::spec_entry_fee_asset(m), Self::step_fn()) == Ok::<(CancelOrderV, Seq<bool>), JsonErrorV>((CancelOrderV { fee_asset: m.fee_asset, ..st.0 }, if m.fee_asset.len() != 0 { st.1.update(1, true) } else { st.1 })),
    {
        reveal_strlit("orderId");
        reveal_strlit("order_id");
        reveal_strlit("feeAsset");
        reveal_strlit("fee_asset");
        assert("orderId"@.len() == 7);
        assert("order_id"@.len() == 8);
        assert("feeAsset"@.len() == 8);
        assert("fee_asset"@.len() == 9);
        assert("order_id"@[0] != "feeAsset"@[0]);
        if m.fee_asset.len() == 0 {
            assert(m.fee_asset =~= Seq::<char>::empty());
        }
        lemma_fold_entry_if(st, m.fee_asset.len() != 0, "feeAsset"@, JsonV::Str(m.fee_asset), Self::step_fn());
    }

    /// The JSON spelling of a key: the protobuf name of a field becomes its JSON name;
    /// a JSON name, and any key that names no field, is left as it is.
    pub open spec fn spec_json_key(key: Seq<char>) -> Seq<char> {
        if key == "orderId"@ || key == "order_id"@ {
            "orderId"@
        } else if key == "feeAsset"@ || key == "fee_asset"@ {
            "feeAsset"@
        } else {
            key
        }
    }

    /// [`Self::spec_json_key`] as a function value.
    pub open spec fn json_key_fn() -> spec_fn(Seq<char>) -> Seq<char> {
        |key: Seq<char>| Self::spec_json_key(key)
    }

    /// One member is read alike whichever spelling its key has.
    pub proof fn lemma_step_json_key(st: (CancelOrderV, Seq<bool>), key: Seq<char>, v: JsonV)
        ensures Self::spec_step(st, key, v) == Self::spec_step(st, Self::spec_json_key(key), v),
    {
        reveal_strlit("orderId");
        reveal_strlit("order_id");
        reveal_strlit("feeAsset");
        reveal_strlit("fee_asset");
        assert("orderId"@.len() == 7);
        assert("order_id"@.len() == 8);
        assert("feeAsset"@.len() == 8);
        assert("fee_asset"@.len() == 9);
        assert("order_id"@[0] != "feeAsset"@[0]);
        if key == "order_id"@ {
            assert(Self::spec_json_key(key) == "orderId"@);
        }
        if key == "fee_asset"@ {
            assert(Self::spec_json_key(key) == "feeAsset"@);
        }
    }

    /// Reading an object gives the same result whichever spelling each of its keys has:
    /// two objects whose members hold the same values, in the same order, under keys of
    /// the same JSON spelling describe the same message, or are refused with the same error.
    pub proof fn lemma_key_spelling(es1: Seq<(Seq<char>, JsonV)>, es2: Seq<(Seq<char>, JsonV)>)
        requires
            es1.len() == es2.len(),
            forall|i: int| #![trigger es1[i], es2[i]] 0 <= i < es1.len() ==> es1[i].1 == es2[i].1 && Self::spec_json_key(es1[i].0) == Self::spec_json_key(es2[i].0),
        ensures Self::spec_from_json(JsonV::Object(es1)) == Self::spec_from_json(JsonV::Object(es2)),
    {
        assert forall|s: (CancelOrderV, Seq<bool>), k: Seq<char>, v: JsonV|
            #![trigger Self::step_fn()(s, k, v), Self::json_key_fn()(k)]
            Self::step_fn()(s, k, v) == Self::step_fn()(s, Self::json_key_fn()(k), v) by {
            Self::lemma_step_json_key(s, k, v);
        }
        lemma_fold_same_keys(Self::spec_start(), es1, es2, Self::step_fn(), Self::json_key_fn());
    }

    /// The keys of the object that the message writes: the JSON names of the fields that
    /// do not hold their default (for a oneof, the JSON name of the member set), in the
    /// order of the fields.
    pub open spec fn spec_written_keys(m: CancelOrderV) -> Seq<Seq<char>> {
        key_if(m.order_id.len() != 0, "orderId"@)
            + key_if(m.fee_asset.len() != 0, "feeAsset"@)
    }

    /// The object that the message writes has exactly the keys of
    /// [`Self::spec_written_keys`], in that order.
    pub proof fn lemma_written_keys(m: CancelOrderV)
        ensures
            Self::spec_to_json(m) == JsonV::Object(Self::spec_entries(m)),
            entry_keys(Self::spec_entries(m)) == Self::spec_written_keys(m),
    {
        lemma_entry_keys_if(m.order_id.len() != 0, "orderId"@, JsonV::Str(m.order_id));
        lemma_entry_keys_append(Self::spec_entry_order_id(m), m.fee_asset.len() != 0, "feeAsset"@, JsonV::Str(m.fee_asset));
    }

    /// Whether the field whose JSON name is `name` holds its default in `m`; for a member
    /// of a oneof, whether the oneof is set to another member or unset. `true` for a name
    /// that names no field.
    pub open spec fn spec_holds_default(m: CancelOrderV, name: Seq<char>) -> bool {
        if name == "orderId"@ {
            m.order_id == Seq::<char>::empty()
        } else if name == "feeAsset"@ {
            m.fee_asset == Seq::<char>::empty()
        } else {
            true
        }
    }

    /// Whether reading `v` for the field whose JSON name is `name` leaves the field at
    /// its default: `null`, for a field that takes it (a message field, a member of a
    /// oneof); nothing, for any other field. `true` for a name that names no field.
    pub open spec fn spec_leaves_default(name: Seq<char>, v: JsonV) -> bool {
        if name == "orderId"@ {
            false
        } else if name == "feeAsset"@ {
            false
        } else {
            true
        }
    }

    /// Reading one member keeps a field at its default unless the key names the field
    /// and the value does not leave it there.
    pub proof fn lemma_step_keeps_default(st: (CancelOrderV, Seq<bool>), key: Seq<char>, v: JsonV, name: Seq<char>)
        requires
            Self::spec_holds_default(st.0, name),
            Self::spec_json_key(key) == name ==> Self::spec_leaves_default(name, v),
        ensures
            Self::spec_step(st, key, v) is Ok ==> Self::spec_holds_default(Self::spec_step(st, key, v)->Ok_0.0, name),
    {
        reveal_strlit("orderId");
        reveal_strlit("order_id");
        reveal_strlit("feeAsset");
        reveal_strlit("fee_asset");
        assert("orderId"@.len() == 7);
        assert("order_id"@.len() == 8);
        assert("feeAsset"@.len() == 8);
        assert("fee_asset"@.len() == 9);
        assert("order_id"@[0] != "feeAsset"@[0]);
        Self::lemma_step_json_key(st, key, v);
    }

    /// A field whose key appears in no member of an object, or only with values that
    /// leave it at its default (`null`, for a field that takes it), holds its default in
    /// the message that the object describes.
    pub proof fn lemma_absent_default(es: Seq<(Seq<char>, JsonV)>, name: Seq<char>)
        requires
            forall|i: int| 0 <= i < es.len() ==> (Self::spec_json_key((#[trigger] es[i]).0) == name
                ==> Self::spec_leaves_default(name, es[i].1)),
        ensures
            Self::spec_from_json(JsonV::Object(es)) is Ok
                ==> Self::spec_holds_default(Self::spec_from_json(JsonV::Object(es))->Ok_0, name),
    {
        let inv = |s: (CancelOrderV, Seq<bool>)| Self::spec_holds_default(s.0, name);
        let allowed = |k: Seq<char>, v: JsonV| Self::spec_json_key(k) == name ==> Self::spec_leaves_default(name, v);
        assert forall|s: (CancelOrderV, Seq<bool>), k: Seq<char>, v: JsonV| #![trigger Self::step_fn()(s, k, v)]
            inv(s) && allowed(k, v) && Self::step_fn()(s, k, v) is Ok implies inv(Self::step_fn()(s, k, v)->Ok_0) by {
            Self::lemma_step_keeps_default(s, k, v, name);
        }
        assert(inv(Self::spec_start()));
        lemma_fold_keeps(Self::spec_start(), es, Self::step_fn(), inv, allowed);
    }

    /// The field `order_id` alone: an object with one member under its JSON or protobuf
    /// name reads as the message with that field set and every other field at its
    /// default, and the message with only that field off its default writes that
    /// one member under the JSON name.
    pub proof fn lemma_field_order_id(s: Seq<char>)
        ensures
            Self::spec_from_json(JsonV::Object(seq![("orderId"@, JsonV::Str(s))])) == Ok::<CancelOrderV, JsonErrorV>(CancelOrderV { order_id: s, ..Self::spec_default() }),
            Self::spec_from_json(JsonV::Object(seq![("order_id"@, JsonV::Str(s))])) == Ok::<CancelOrderV, JsonErrorV>(CancelOrderV { order_id: s, ..Self::spec_default() }),
            s.len() > 0 ==> Self::spec_to_json(CancelOrderV { order_id: s, ..Self::spec_default() }) == JsonV::Object(seq![("orderId"@, JsonV::Str(s))]),
    {
        reveal_strlit("orderId");
        reveal_strlit("order_id");
        reveal_strlit("feeAsset");
        reveal_strlit("fee_asset");
        assert("orderId"@.len() == 7);
        assert("order_id"@.len() == 8);
        assert("feeAsset"@.len() == 8);
        assert("fee_asset"@.len() == 9);
        assert("order_id"@[0] != "feeAsset"@[0]);
        lemma_fold_entry_if(Self::spec_start(), true, "orderId"@, JsonV::Str(s), Self::step_fn());
        lemma_fold_entry_if(Self::spec_start(), true, "order_id"@, JsonV::Str(s), Self::step_fn());
    }

    /// The field `fee_asset` alone: an object with one member under its JSON or protobuf
    /// name reads as the message with that field set and every other field at its
    /// default, and the message with only that field off its default writes that
    /// one member under the JSON name.
    pub proof fn lemma_field_fee_asset(s: Seq<char>)
        ensures
            Self::spec_from_json(JsonV::Object(seq![("feeAsset"@, JsonV::Str(s))])) == Ok::<CancelOrderV, JsonErrorV>(CancelOrderV { fee_asset: s, ..Self::spec_default() }),
            Self::spec_from_json(JsonV::Object(seq![("fee_asset"@, JsonV::Str(s))])) == Ok::<CancelOrderV, JsonErrorV>(CancelOrderV { fee_asset: s, ..Self::spec_default() }),
            s.len() > 0 ==> Self::spec_to_json(CancelOrderV { fee_asset: s, ..Self::spec_default() }) == JsonV::Object(seq![("feeAsset"@, JsonV::Str(s))]),
    {
        reveal_strlit("orderId");
        reveal_strlit("order_id");
        reveal_strlit("feeAsset");
        reveal_strlit("fee_asset");
        assert("orderId"@.len() == 7);
        assert("order_id"@.len() == 8);
        assert("feeAsset"@.len() == 8);
        assert("fee_asset"@.len() == 9);
        assert("order_id"@[0] != "feeAsset"@[0]);
        lemma_fold_entry_if(Self::spec_start(), true, "feeAsset"@, JsonV::Str(s), Self::step_fn());
        lemma_fold_entry_if(Self::spec_start(), true, "fee_asset"@, JsonV::Str(s), Self::step_fn());
    }

    /// Reading back the JSON object of a message gives the message.
    pub proof fn lemma_json_roundtrip(m: CancelOrderV)
        ensures Self::spec_from_json(Self::spec_to_json(m)) == Ok::<CancelOrderV, JsonErrorV>(m),
    {
        let step = Self::step_fn();
        let s0 = Self::spec_start();
        let s1 = (CancelOrderV { order_id: m.order_id, ..s0.0 }, if m.order_id.len() != 0 { s0.1.update(0, true) } else { s0.1 });
        Self::lemma_entry_order_id(m, s0);
        let s2 = (CancelOrderV { fee_asset: m.fee_asset, ..s1.0 }, if m.fee_asset.len() != 0 { s1.1.update(1, true) } else { s1.1 });
        Self::lemma_entry_fee_asset(m, s1);
        let p1 = Self::spec_entry_order_id(m);
        let p2 = p1 + Self::spec_entry_fee_asset(m);
        lemma_fold_entries_append(s0, p1, Self::spec_entry_fee_asset(m), step);
        assert(s2.0 == m);
    }
}

/// The `astria.protocol.transaction.v1.CreateMarket` message.
#[derive(Clone, Debug, PartialEq)]
pub struct CreateMarket {
    pub market: String,
    pub base_asset: String,
    pub quote_asset: String,
    pub tick_size: Option<Uint128>,
    pub lot_size: Option<Uint128>,
    pub fee_asset: String,
}

/// The mathematical content of a [`CreateMarket`].
pub struct CreateMarketV {
    pub market: Seq<char>,
    pub base_asset: Seq<char>,
    pub quote_asset: Seq<char>,
    pub tick_size: Option<Seq<(Seq<char>, JsonV)>>,
    pub lot_size: Option<Seq<(Seq<char>, JsonV)>>,
    pub fee_asset: Seq<char>,
}

impl View for CreateMarket {
    type V = CreateMarketV;

    open spec fn view(&self) -> CreateMarketV {
        CreateMarketV {
            market: self.market@,
            base_asset: self.base_asset@,
            quote_asset: self.quote_asset@,
            tick_size: opt_embedded_view(self.tick_size),
            lot_size: opt_embedded_view(self.lot_size),
            fee_asset: self.fee_asset@,
        }
    }
}

impl Default for CreateMarket {
    fn default() -> (r: Self)
        ensures r@ == CreateMarket::spec_default(),
    {
        let r = CreateMarket {
            market: String::new(),
            base_asset: String::new(),
            quote_asset: String::new(),
            tick_size: None,
            lot_size: None,
            fee_asset: String::new(),
        };
        r
    }
}

impl CreateMarket {
    /// The fully qualified protobuf name of the message.
    pub fn full_name() -> (r: String)
        ensures r@ == "astria.protocol.transaction.v1.CreateMarket"@,
    {
        "astria.protocol.transaction.v1.CreateMarket".to_string()
    }

    /// Every field at its default: empty strings, bytes and lists, zero, `false`, unset.
    pub open spec fn spec_default() -> CreateMarketV {
        CreateMarketV {
            market: Seq::<char>::empty(),
            base_asset: Seq::<char>::empty(),
            quote_asset: Seq::<char>::empty(),
            tick_size: None,
            lot_size: None,
            fee_asset: Seq::<char>::empty(),
        }
    }

    /// The view of an optional field of this message type.
    pub open spec fn view_opt(o: Option<Self>) -> Option<CreateMarketV> {
        match o {
            Some(x) => Some(x@),
            None => None,
        }
    }

    /// The view of a repeated field of this message type.
    pub open spec fn view_list(v: Seq<Self>) -> Seq<CreateMarketV> {
        v.map_values(|x: Self| x@)
    }

    /// The member that the field `market` writes: none where it holds its default.
    pub open spec fn spec_entry_market(m: CreateMarketV) -> Seq<(Seq<char>, JsonV)> {
        entry_if(m.market.len() != 0, "market"@, JsonV::Str(m.market))
    }

    /// The member that the field `base_asset` writes: none where it holds its default.
    pub open spec fn spec_entry_base_asset(m: CreateMarketV) -> Seq<(Seq<char>, JsonV)> {
        entry_if(m.base_asset.len() != 0, "baseAsset"@, JsonV::Str(m.base_asset))
    }

    /// The member that the field `quote_asset` writes: none where it holds its default.
    pub open spec fn spec_entry_quote_asset(m: CreateMarketV) -> Seq<(Seq<char>, JsonV)> {
        entry_if(m.quote_asset.len() != 0, "quoteAsset"@, JsonV::Str(m.quote_asset))
    }

    /// The member that the field `tick_size` writes: none where it holds its default.
    pub open spec fn spec_entry_tick_size(m: CreateMarketV) -> Seq<(Seq<char>, JsonV)> {
        entry_if(m.tick_size is Some, "tickSize"@, JsonV::Object(m.tick_size.unwrap()))
    }

    /// The member that the field `lot_size` writes: none where it holds its default.
    pub open spec fn spec_entry_lot_size(m: CreateMarketV) -> Seq<(Seq<char>, JsonV)> {
        entry_if(m.lot_size is Some, "lotSize"@, JsonV::Object(m.lot_size.unwrap()))
    }

    /// The member that the field `fee_asset` writes: none where it holds its default.
    pub open spec fn spec_entry_fee_asset(m: CreateMarketV) -> Seq<(Seq<char>, JsonV)> {
        entry_if(m.fee_asset.len() != 0, "feeAsset"@, JsonV::Str(m.fee_asset))
    }

    /// The members of the JSON object of the message: each field that does not hold
    /// its default, under its JSON name, in the order of the fields.
    pub open spec fn spec_entries(m: CreateMarketV) -> Seq<(Seq<char>, JsonV)> {
        Self::spec_entry_market(m) + Self::spec_entry_base_asset(m) + Self::spec_entry_quote_asset(m) + Self::spec_entry_tick_size(m) + Self::spec_entry_lot_size(m) + Self::spec_entry_fee_asset(m)
    }

    /// The JSON object that the protobuf JSON mapping writes for the message.
    pub open spec fn spec_to_json(m: CreateMarketV) -> JsonV {
        JsonV::Object(Self::spec_entries(m))
    }

    /// [`Self::spec_to_json`] as a function value, for repeated fields.
    pub open spec fn writer() -> spec_fn(CreateMarketV) -> JsonV {
        |m: CreateMarketV| Self::spec_to_json(m)
    }

    fn write_market(&self, es: &mut Vec<(String, Json)>)
        ensures
            view_entries(final(es)@) == view_entries(old(es)@) + Self::spec_entry_market(self@),
    {
        if !self.market.as_str().is_empty() {
            push_entry(es, "market", string_value(&self.market));
        }
        assert(view_entries(es@) =~= view_entries(old(es)@) + Self::spec_entry_market(self@));
    }

    fn write_base_asset(&self, es: &mut Vec<(String, Json)>)
        ensures
            view_entries(final(es)@) == view_entries(old(es)@) + Self::spec_entry_base_asset(self@),
    {
        if !self.base_asset.as_str().is_empty() {
            push_entry(es, "baseAsset", string_value(&self.base_asset));
        }
        assert(view_entries(es@) =~= view_entries(old(es)@) + Self::spec_entry_base_asset(self@));
    }

    fn write_quote_asset(&self, es: &mut Vec<(String, Json)>)
        ensures
            view_entries(final(es)@) == view_entries(old(es)@) + Self::spec_entry_quote_asset(self@),
    {
        if !self.quote_asset.as_str().is_empty() {
            push_entry(es, "quoteAsset", string_value(&self.quote_asset));
        }
        assert(view_entries(es@) =~= view_entries(old(es)@) + Self::spec_entry_quote_asset(self@));
    }

    fn write_tick_size(&self, es: &mut Vec<(String, Json)>)
        ensures
            view_entries(final(es)@) == view_entries(old(es)@) + Self::spec_entry_tick_size(self@),
    {
        match &self.tick_size {
            Some(x) => push_entry(es, "tickSize", embedded_value(x)),
            None => {},
        }
        assert(view_entries(es@) =~= view_entries(old(es)@) + Self::spec_entry_tick_size(self@));
    }

    fn write_lot_size(&self, es: &mut Vec<(String, Json)>)
        ensures
            view_entries(final(es)@) == view_entries(old(es)@) + Self::spec_entry_lot_size(self@),
    {
        match &self.lot_size {
            Some(x) => push_entry(es, "lotSize", embedded_value(x)),
            None => {},
        }
        assert(view_entries(es@) =~= view_entries(old(es)@) + Self::spec_entry_lot_size(self@));
    }

    fn write_fee_asset(&self, es: &mut Vec<(String, Json)>)
        ensures
            view_entries(final(es)@) == view_entries(old(es)@) + Self::spec_entry_fee_asset(self@),
    {
        if !self.fee_asset.as_str().is_empty() {
            push_entry(es, "feeAsset", string_value(&self.fee_asset));
        }
        assert(view_entries(es@) =~= view_entries(old(es)@) + Self::spec_entry_fee_asset(self@));
    }

    /// Writes the message as a JSON object; reading it back gives the message.
    pub fn to_json(&self) -> (r: Json)
        ensures
            r@ == Self::spec_to_json(self@),
            Self::spec_from_json(r@) == Ok::<CreateMarketV, JsonErrorV>(self@),
    {
        let mut es: Vec<(String, Json)> = Vec::new();
        let ghost mut acc: Seq<(Seq<char>, JsonV)> = Seq::empty();
        proof {
            assert(view_entries(es@) =~= acc);
        }
        self.write_market(&mut es);
        proof {
            acc = acc + Self::spec_entry_market(self@);
        }
        self.write_base_asset(&mut es);
        proof {
            acc = acc + Self::spec_entry_base_asset(self@);
        }
        self.write_quote_asset(&mut es);
        proof {
            acc = acc + Self::spec_entry_quote_asset(self@);
        }
        self.write_tick_size(&mut es);
        proof {
            acc = acc + Self::spec_entry_tick_size(self@);
        }
        self.write_lot_size(&mut es);
        proof {
            acc = acc + Self::spec_entry_lot_size(self@);
        }
        self.write_fee_asset(&mut es);
        proof {
            acc = acc + Self::spec_entry_fee_asset(self@);
        }
        proof {
            assert(acc =~= Self::spec_entries(self@));
            Self::lemma_json_roundtrip(self@);
        }
        Json::Object(es)
    }

    /// Reads one member of the object into the message under construction; `seen`
    /// records which fields that have no unset state were already given.
    pub open spec fn spec_step(st: (CreateMarketV, Seq<bool>), key: Seq<char>, v: JsonV) -> Result<(CreateMarketV, Seq<bool>), JsonErrorV> {
        let m = st.0;
        let seen = st.1;
        if key == "market"@ {
            if seen[0] {
                Err(JsonErrorV::DuplicateField("market"@))
            } else {
                match read_string(v) {
                    Ok(x) => Ok((CreateMarketV { market: x, ..m }, seen.update(0, true))),
                    Err(e) => Err(e),
                }
            }
        } else if key == "baseAsset"@ || key == "base_asset"@ {
            if seen[1] {
                Err(JsonErrorV::DuplicateField("baseAsset"@))
            } else {
                match read_string(v) {
                    Ok(x) => Ok((CreateMarketV { base_asset: x, ..m }, seen.update(1, true))),
                    Err(e) => Err(e),
                }
            }
        } else if key == "quoteAsset"@ || key == "quote_asset"@ {
            if seen[2] {
                Err(JsonErrorV::DuplicateField("quoteAsset"@))
            } else {
                match read_string(v) {
                    Ok(x) => Ok((CreateMarketV { quote_asset: x, ..m }, seen.update(2, true))),
                    Err(e) => Err(e),
                }
            }
        } else if key == "tickSize"@ || key == "tick_size"@ {
            if m.tick_size is Some {
                Err(JsonErrorV::DuplicateField("tickSize"@))
            } else {
                match read_embedded(v) {
                    Ok(x) => Ok((CreateMarketV { tick_size: x, ..m }, seen)),
                    Err(e) => Err(e),
                }
            }
        } else if key == "lotSize"@ || key == "lot_size"@ {
            if m.lot_size is Some {
                Err(JsonErrorV::DuplicateField("lotSize"@))
            } else {
                match read_embedded(v) {
                    Ok(x) => Ok((CreateMarketV { lot_size: x, ..m }, seen)),
                    Err(e) => Err(e),
                }
            }
        } else if key == "feeAsset"@ || key == "fee_asset"@ {
            if seen[3] {
                Err(JsonErrorV::DuplicateField("feeAsset"@))
            } else {
                match read_string(v) {
                    Ok(x) => Ok((CreateMarketV { fee_asset: x, ..m }, seen.update(3, true))),
                    Err(e) => Err(e),
                }
            }
        } else {
            Err(JsonErrorV::UnknownField(key))
        }
    }

    /// [`Self::spec_step`] as a function value.
    pub open spec fn step_fn() -> spec_fn((CreateMarketV, Seq<bool>), Seq<char>, JsonV) -> Result<(CreateMarketV, Seq<bool>), JsonErrorV> {
        |st: (CreateMarketV, Seq<bool>), key: Seq<char>, v: JsonV| Self::spec_step(st, key, v)
    }

    /// The state before the first member is read: the default message, no field seen.
    pub open spec fn spec_start() -> (CreateMarketV, Seq<bool>) {
        (Self::spec_default(), seq![false, false, false, false])
    }

    /// The message that a JSON value describes: an object whose keys each name a field
    /// (by its JSON name or its protobuf name), at most once each; fields that are not
    /// given keep their default. The first member that is refused gives the error.
    pub open spec fn spec_from_json(j: JsonV) -> Result<CreateMarketV, JsonErrorV> {
        match j {
            JsonV::Object(es) => match fold_entries(Self::spec_start(), es, Self::step_fn()) {
                Ok(st) => Ok(st.0),
                Err(e) => Err(e),
            },
            _ => Err(JsonErrorV::ExpectedObject),
        }
    }

    /// [`Self::spec_from_json`] as a function value, for repeated fields.
    pub open spec fn reader() -> spec_fn(JsonV) -> Result<CreateMarketV, JsonErrorV> {
        |v: JsonV| Self::spec_from_json(v)
    }

    /// An optional field of this message type: `null` leaves it unset.
    pub open spec fn spec_read_opt(v: JsonV) -> Result<Option<CreateMarketV>, JsonErrorV> {
        match v {
            JsonV::Null => Ok(None),
            _ => match Self::spec_from_json(v) {
                Ok(x) => Ok(Some(x)),
                Err(e) => Err(e),
            },
        }
    }

    fn step(m: Self, seen: Vec<bool>, key: &String, v: &Json) -> (r: Result<(Self, Vec<bool>), JsonError>)
        requires seen@.len() == 4,
        ensures
            match r {
                Ok((m2, seen2)) => Self::spec_step((m@, seen@), key@, v@) == Ok::<(CreateMarketV, Seq<bool>), JsonErrorV>((m2@, seen2@)) && seen2@.len() == 4,
                Err(e) => Self::spec_step((m@, seen@), key@, v@) == Err::<(CreateMarketV, Seq<bool>), JsonErrorV>(e@),
            },
    {
        let mut m = m;
        let mut seen = seen;
        let k = key.as_str();
        if str_eq(k, "market") {
            if seen[0] {
                return Err(JsonError::DuplicateField("market".to_string()));
            }
            match string_field(v) {
                Ok(x) => m.market = x,
                Err(e) => return Err(e),
            }
            seen.set(0, true);
        } else if str_eq(k, "baseAsset") || str_eq(k, "base_asset") {
            if seen[1] {
                return Err(JsonError::DuplicateField("baseAsset".to_string()));
            }
            match string_field(v) {
                Ok(x) => m.base_asset = x,
                Err(e) => return Err(e),
            }
            seen.set(1, true);
        } else if str_eq(k, "quoteAsset") || str_eq(k, "quote_asset") {
            if seen[2] {
                return Err(JsonError::DuplicateField("quoteAsset".to_string()));
            }
            match string_field(v) {
                Ok(x) => m.quote_asset = x,
                Err(e) => return Err(e),
            }
            seen.set(2, true);
        } else if str_eq(k, "tickSize") || str_eq(k, "tick_size") {
            if m.tick_size.is_some() {
                return Err(JsonError::DuplicateField("tickSize".to_string()));
            }
            match embedded_field(v) {
                Ok(x) => m.tick_size = x,
                Err(e) => return Err(e),
            }
        } else if str_eq(k, "lotSize") || str_eq(k, "lot_size") {
            if m.lot_size.is_some() {
                return Err(JsonError::DuplicateField("lotSize".to_string()));
            }
            match embedded_field(v) {
                Ok(x) => m.lot_size = x,
                Err(e) => return Err(e),
            }
        } else if str_eq(k, "feeAsset") || str_eq(k, "fee_asset") {
            if seen[3] {
                return Err(JsonError::DuplicateField("feeAsset".to_string()));
            }
            match string_field(v) {
                Ok(x) => m.fee_asset = x,
                Err(e) => return Err(e),
            }
            seen.set(3, true);
        } else {
            return Err(JsonError::UnknownField(key.clone()));
        }
        Ok((m, seen))
    }

    /// Reads the message from a JSON value, as [`Self::spec_from_json`] describes.
    pub fn from_json(j: &Json) -> (r: Result<Self, JsonError>)
        ensures
            match r {
                Ok(m) => Self::spec_from_json(j@) == Ok::<CreateMarketV, JsonErrorV>(m@),
                Err(e) => Self::spec_from_json(j@) == Err::<CreateMarketV, JsonErrorV>(e@),
            },
    {
        let es = match j {
            Json::Object(es) => es,
            _ => return Err(JsonError::ExpectedObject),
        };
        let ghost ves = view_entries(es@);
        proof {
            lemma_view_entries_len(es@);
            assert(j@ == JsonV::Object(ves));
        }
        let mut m = Self::default();
        let mut seen: Vec<bool> = vec![false, false, false, false];
        let mut i: usize = 0;
        proof {
            assert(seen@ =~= Self::spec_start().1);
            assert(ves.skip(0) == ves);
        }
        while i < es.len()
            invariant
                j@ == JsonV::Object(ves),
                ves == view_entries(es@),
                ves.len() == es@.len(),
                i <= es.len(),
                seen@.len() == 4,
                fold_entries(Self::spec_start(), ves, Self::step_fn())
                    == fold_entries((m@, seen@), ves.skip(i as int), Self::step_fn()),
            decreases es.len() - i,
        {
            proof {
                lemma_view_entries_index(es@, i as int);
                lemma_fold_entries_step((m@, seen@), ves, i as int, Self::step_fn());
            }
            match Self::step(m, seen, &es[i].0, &es[i].1) {
                Ok((m2, seen2)) => {
                    m = m2;
                    seen = seen2;
                },
                Err(e) => return Err(e),
            }
            i = i + 1;
        }
        proof {
            assert(ves.skip(ves.len() as int) == Seq::<(Seq<char>, JsonV)>::empty());
            assert(fold_entries((m@, seen@), ves.skip(ves.len() as int), Self::step_fn())
                == Ok::<(CreateMarketV, Seq<bool>), JsonErrorV>((m@, seen@)));
        }
        Ok(m)
    }

    /// Reads an optional field of this message type.
    pub fn opt_from_json(v: &Json) -> (r: Result<Option<Self>, JsonError>)
        ensures
            match r {
                Ok(None) => Self::spec_read_opt(v@) == Ok::<Option<CreateMarketV>, JsonErrorV>(None),
                Ok(Some(x)) => Self::spec_read_opt(v@) == Ok::<Option<CreateMarketV>, JsonErrorV>(Some(x@)),
                Err(e) => Self::spec_read_opt(v@) == Err::<Option<CreateMarketV>, JsonErrorV>(e@),
            },
    {
        match v {
            Json::Null => Ok(None),
            _ => match Self::from_json(v) {
                Ok(x) => Ok(Some(x)),
                Err(e) => Err(e),
            },
        }
    }

    /// Reading the member that the field `market` writes sets the field.
    pub proof fn lemma_entry_market(m: CreateMarketV, st: (CreateMarketV, Seq<bool>))
        requires
            st.1.len() == 4,
            !st.1[0],
            st.0.market == Seq::<char>::empty(),
        ensures
            fold_entries(st, Self::spec_entry_market(m), Self::step_fn()) == Ok::<(CreateMarketV, Seq<bool>), JsonErrorV>((CreateMarketV { market: m.market, ..st.0 }, if m.market.len() != 0 { st.1.update(0, true) } else { st.1 })),
    {
        reveal_strlit("market");
        reveal_strlit("baseAsset");
        reveal_strlit("base_asset");
        reveal_strlit("quoteAsset");
        reveal_strlit("quote_asset");
        reveal_strlit("tickSize");
        reveal_strlit("tick_size");
        reveal_strlit("lotSize");
        reveal_strlit("lot_size");
        reveal_strlit("feeAsset");
        reveal_strlit("fee_asset");
        assert("market"@.len() == 6);
        assert("baseAsset"@.len() == 9);
        assert("base_asset"@.len() == 10);
        assert("quoteAsset"@.len() == 10);
        assert("quote_asset"@.len() == 11);
        assert("tickSize"@.len() == 8);
        assert("tick_size"@.len() == 9);
        assert("lotSize"@.len() == 7);
        assert("lot_size"@.len() == 8);
        assert("feeAsset"@.len() == 8);
        assert("fee_asset"@.len() == 9);
        assert("baseAsset"@[0] != "tick_size"@[0]);
        assert("baseAsset"@[0] != "fee_asset"@[0]);
        assert("base_asset"@[0] != "quoteAsset"@[0]);
        assert("tickSize"@[0] != "lot_size"@[0]);
        assert("tickSize"@[0] != "feeAsset"@[0]);
        assert("tick_size"@[0] != "fee_asset"@[0]);
        assert("lot_size"@[0] != "feeAsset"@[0]);
        if m.market.len() == 0 {
            assert(m.market =~= Seq::<char>::empty());
        }
        lemma_fold_entry_if(st, m.market.len() != 0, "market"@, JsonV::Str(m.market), Self::step_fn());
    }

    /// Reading the member that the field `base_asset` writes sets the field.
    pub proof fn lemma_entry_base_asset(m: CreateMarketV, st: (CreateMarketV, Seq<bool>))
        requires
            st.1.len() == 4,
            !st.1[1],
            st.0.base_asset == Seq::<char>::empty(),
        ensures
            fold_entries(st, Self::spec_entry_base_asset(m), Self::step_fn()) == Ok::<(CreateMarketV, Seq<bool>), JsonErrorV>((CreateMarketV { base_asset: m.base_asset, ..st.0 }, if m.base_asset.len() != 0 { st.1.update(1, true) } else { st.1 })),
    {
        reveal_strlit("market");
        reveal_strlit("baseAsset");
        reveal_strlit("base_asset");
        reveal_strlit("quoteAsset");
        reveal_strlit("quote_asset");
        reveal_strlit("tickSize");
        reveal_strlit("tick_size");
        reveal_strlit("lotSize");
        reveal_strlit("lot_size");
        reveal_strlit("feeAsset");
        reveal_strlit("fee_asset");
        assert("market"@.len() == 6);
        assert("baseAsset"@.len() == 9);
        assert("base_asset"@.len() == 10);
        assert("quoteAsset"@.len() == 10);
        assert("quote_asset"@.len() == 11);
        assert("tickSize"@.len() == 8);
        assert("tick_size"@.len() == 9);
        assert("lotSize"@.len() == 7);
        assert("lot_size"@.len() == 8);
        assert("feeAsset"@.len() == 8);
        assert("fee_asset"@.len() == 9);
        assert("baseAsset"@[0] != "tick_size"@[0]);
        assert("baseAsset"@[0] != "fee_asset"@[0]);
        assert("base_asset"@[0] != "quoteAsset"@[0]);
        assert("tickSize"@[0] != "lot_size"@[0]);
        assert("tickSize"@[0] != "feeAsset"@[0]);
        assert("tick_size"@[0] != "fee_asset"@[0]);
        assert("lot_size"@[0] != "feeAsset"@[0]);
        if m.base_asset.len() == 0 {
            assert(m.base_asset =~= Seq::<char>::empty());
        }
        lemma_fold_entry_if(st, m.base_asset.len() != 0, "baseAsset"@, JsonV::Str(m.base_asset), Self::step_fn());
    }

    /// Reading the member that the field `quote_asset` writes sets the field.
    pub proof fn lemma_entry_quote_asset(m: CreateMarketV, st: (CreateMarketV, Seq<bool>))
        requires
            st.1.len() == 4,
            !st.1[2],
            st.0.quote_asset == Seq::<char>::empty(),
        ensures
            fold_entries(st, Self::spec_entry_quote_asset(m), Self::step_fn()) == Ok::<(CreateMarketV, Seq<bool>), JsonErrorV>((CreateMarketV { quote_asset: m.quote_asset, ..st.0 }, if m.quote_asset.len() != 0 { st.1.update(2, true) } else { st.1 })),
    {
        reveal_strlit("market");
        reveal_strlit("baseAsset");
        reveal_strlit("base_asset");
        reveal_strlit("quoteAsset");
        reveal_strlit("quote_asset");
        reveal_strlit("tickSize");
        reveal_strlit("tick_size");
        reveal_strlit("lotSize");
        reveal_strlit("lot_size");
        reveal_strlit("feeAsset");
        reveal_strlit("fee_asset");
        assert("market"@.len() == 6);
        assert("baseAsset"@.len() == 9);
        assert("base_asset"@.len() == 10);
        assert("quoteAsset"@.len() == 10);
        assert("quote_asset"@.len() == 11);
        assert("tickSize"@.len() == 8);
        assert("tick_size"@.len() == 9);
        assert("lotSize"@.len() == 7);
        assert("lot_size"@.len() == 8);
        assert("feeAsset"@.len() == 8);
        assert("fee_asset"@.len() == 9);
        assert("baseAsset"@[0] != "tick_size"@[0]);
        assert("baseAsset"@[0] != "fee_asset"@[0]);
        assert("base_asset"@[0] != "quoteAsset"@[0]);
        assert("tickSize"@[0] != "lot_size"@[0]);
        assert("tickSize"@[0] != "feeAsset"@[0]);
        assert("tick_size"@[0] != "fee_asset"@[0]);
        assert("lot_size"@[0] != "feeAsset"@[0]);
        if m.quote_asset.len() == 0 {
            assert(m.quote_asset =~= Seq::<char>::empty());
        }
        lemma_fold_entry_if(st, m.quote_asset.len() != 0, "quoteAsset"@, JsonV::Str(m.quote_asset), Self::step_fn());
    }

    /// Reading the member that the field `tick_size` writes sets the field.
    pub proof fn lemma_entry_tick_size(m: CreateMarketV, st: (CreateMarketV, Seq<bool>))
        requires
            st.1.len() == 4,
            st.0.tick_size is None,
        ensures
            fold_entries(st, Self::spec_entry_tick_size(m), Self::step_fn()) == Ok::<(CreateMarketV, Seq<bool>), JsonErrorV>((CreateMarketV { tick_size: m.tick_size, ..st.0 }, st.1)),
    {
        reveal_strlit("market");
        reveal_strlit("baseAsset");
        reveal_strlit("base_asset");
        reveal_strlit("quoteAsset");
        reveal_strlit("quote_asset");
        reveal_strlit("tickSize");
        reveal_strlit("tick_size");
        reveal_strlit("lotSize");
        reveal_strlit("lot_size");
        reveal_strlit("feeAsset");
        reveal_strlit("fee_asset");
        assert("market"@.len() == 6);
        assert("baseAsset"@.len() == 9);
        assert("base_asset"@.len() == 10);
        assert("quoteAsset"@.len() == 10);
        assert("quote_asset"@.len() == 11);
        assert("tickSize"@.len() == 8);
        assert("tick_size"@.len() == 9);
        assert("lotSize"@.len() == 7);
        assert("lot_size"@.len() == 8);
        assert("feeAsset"@.len() == 8);
        assert("fee_asset"@.len() == 9);
        assert("baseAsset"@[0] != "tick_size"@[0]);
        assert("baseAsset"@[0] != "fee_asset"@[0]);
        assert("base_asset"@[0] != "quoteAsset"@[0]);
        assert("tickSize"@[0] != "lot_size"@[0]);
        assert("tickSize"@[0] != "feeAsset"@[0]);
        assert("tick_size"@[0] != "fee_asset"@[0]);
        assert("lot_size"@[0] != "feeAsset"@[0]);
        lemma_fold_entry_if(st, m.tick_size is Some, "tickSize"@, JsonV::Object(m.tick_size.unwrap()), Self::step_fn());
    }

    /// Reading the member that the field `lot_size` writes sets the field.
    pub proof fn lemma_entry_lot_size(m: CreateMarketV, st: (CreateMarketV, Seq<bool>))
        requires
            st.1.len() == 4,
            st.0.lot_size is None,
        ensures
            fold_entries(st, Self::spec_entry_lot_size(m), Self::step_fn()) == Ok::<(CreateMarketV, Seq<bool>), JsonErrorV>((CreateMarketV { lot_size: m.lot_size, ..st.0 }, st.1)),
    {
        reveal_strlit("market");
        reveal_strlit("baseAsset");
        reveal_strlit("base_asset");
        reveal_strlit("quoteAsset");
        reveal_strlit("quote_asset");
        reveal_strlit("tickSize");
        reveal_strlit("tick_size");
        reveal_strlit("lotSize");
        reveal_strlit("lot_size");
        reveal_strlit("feeAsset");
        reveal_strlit("fee_asset");
        assert("market"@.len() == 6);
        assert("baseAsset"@.len() == 9);
        assert("base_asset"@.len() == 10);
        assert("quoteAsset"@.len() == 10);
        assert("quote_asset"@.len() == 11);
        assert("tickSize"@.len() == 8);
        assert("tick_size"@.len() == 9);
        assert("lotSize"@.len() == 7);
        assert("lot_size"@.len() == 8);
        assert("feeAsset"@.len() == 8);
        assert("fee_asset"@.len() == 9);
        assert("baseAsset"@[0] != "tick_size"@[0]);
        assert("baseAsset"@[0] != "fee_asset"@[0]);
        assert("base_asset"@[0] != "quoteAsset"@[0]);
        assert("tickSize"@[0] != "lot_size"@[0]);
        assert("tickSize"@[0] != "feeAsset"@[0]);
        assert("tick_size"@[0] != "fee_asset"@[0]);
        assert("lot_size"@[0] != "feeAsset"@[0]);
        lemma_fold_entry_if(st, m.lot_size is Some, "lotSize"@, JsonV::Object(m.lot_size.unwrap()), Self::step_fn());
    }

    /// Reading the member that the field `fee_asset` writes sets the field.
    pub proof fn lemma_entry_fee_asset(m: CreateMarketV, st: (CreateMarketV, Seq<bool>))
        requires
            st.1.len() == 4,
            !st.1[3],
            st.0.fee_asset == Seq::<char>::empty(),
        ensures
            fold_entries(st, Self::spec_entry_fee_asset(m), Self::step_fn()) == Ok::<(CreateMarketV, Seq<bool>), JsonErrorV>((CreateMarketV { fee_asset: m.fee_asset, ..st.0 }, if m.fee_asset.len() != 0 { st.1.update(3, true) } else { st.1 })),
    {
        reveal_strlit("market");
        reveal_strlit("baseAsset");
        reveal_strlit("base_asset");
        reveal_strlit("quoteAsset");
        reveal_strlit("quote_asset");
        reveal_strlit("tickSize");
        reveal_strlit("tick_size");
        reveal_strlit("lotSize");
        reveal_strlit("lot_size");
        reveal_strlit("feeAsset");
        reveal_strlit("fee_asset");
        assert("market"@.len() == 6);
        assert("baseAsset"@.len() == 9);
        assert("base_asset"@.len() == 10);
        assert("quoteAsset"@.len() == 10);
        assert("quote_asset"@.len() == 11);
        assert("tickSize"@.len() == 8);
        assert("tick_size"@.len() == 9);
        assert("lotSize"@.len() == 7);
        assert("lot_size"@.len() == 8);
        assert("feeAsset"@.len() == 8);
        assert("fee_asset"@.len() == 9);
        assert("baseAsset"@[0] != "tick_size"@[0]);
        assert("baseAsset"@[0] != "fee_asset"@[0]);
        assert("base_asset"@[0] != "quoteAsset"@[0]);
        assert("tickSize"@[0] != "lot_size"@[0]);
        assert("tickSize"@[0] != "feeAsset"@[0]);
        assert("tick_size"@[0] != "fee_asset"@[0]);
        assert("lot_size"@[0] != "feeAsset"@[0]);
        if m.fee_asset.len() == 0 {
            assert(m.fee_asset =~= Seq::<char>::empty());
        }
        lemma_fold_entry_if(st, m.fee_asset.len() != 0, "feeAsset"@, JsonV::Str(m.fee_asset), Self::step_fn());
    }

    /// The JSON spelling of a key: the protobuf name of a field becomes its JSON name;
    /// a JSON name, and any key that names no field, is left as it is.
    pub open spec fn spec_json_key(key: Seq<char>) -> Seq<char> {
        if key == "market"@ {
            "market"@
        } else if key == "baseAsset"@ || key == "base_asset"@ {
            "baseAsset"@
        } else if key == "quoteAsset"@ || key == "quote_asset"@ {
            "quoteAsset"@
        } else if key == "tickSize"@ || key == "tick_size"@ {
            "tickSize"@
        } else if key == "lotSize"@ || key == "lot_size"@ {
            "lotSize"@
        } else if key == "feeAsset"@ || key == "fee_asset"@ {
            "feeAsset"@
        } else {
            key
        }
    }

    /// [`Self::spec_json_key`] as a function value.
    pub open spec fn json_key_fn() -> spec_fn(Seq<char>) -> Seq<char> {
        |key: Seq<char>| Self::spec_json_key(key)
    }

    /// One member is read alike whichever spelling its key has.
    pub proof fn lemma_step_json_key(st: (CreateMarketV, Seq<bool>), key: Seq<char>, v: JsonV)
        ensures Self::spec_step(st, key, v) == Self::spec_step(st, Self::spec_json_key(key), v),
    {
        reveal_strlit("market");
        reveal_strlit("baseAsset");
        reveal_strlit("base_asset");
        reveal_strlit("quoteAsset");
        reveal_strlit("quote_asset");
        reveal_strlit("tickSize");
        reveal_strlit("tick_size");
        reveal_strlit("lotSize");
        reveal_strlit("lot_size");
        reveal_strlit("feeAsset");
        reveal_strlit("fee_asset");
        assert("market"@.len() == 6);
        assert("baseAsset"@.len() == 9);
        assert("base_asset"@.len() == 10);
        assert("quoteAsset"@.len() == 10);
        assert("quote_asset"@.len() == 11);
        assert("tickSize"@.len() == 8);
        assert("tick_size"@.len() == 9);
        assert("lotSize"@.len() == 7);
        assert("lot_size"@.len() == 8);
        assert("feeAsset"@.len() == 8);
        assert("fee_asset"@.len() == 9);
        assert("baseAsset"@[0] != "tick_size"@[0]);
        assert("baseAsset"@[0] != "fee_asset"@[0]);
        assert("base_asset"@[0] != "quoteAsset"@[0]);
        assert("tickSize"@[0] != "lot_size"@[0]);
        assert("tickSize"@[0] != "feeAsset"@[0]);
        assert("tick_size"@[0] != "fee_asset"@[0]);
        assert("lot_size"@[0] != "feeAsset"@[0]);
        if key == "base_asset"@ {
            assert(Self::spec_json_key(key) == "baseAsset"@);
        }
        if key == "quote_asset"@ {
            assert(Self::spec_json_key(key) == "quoteAsset"@);
        }
        if key == "tick_size"@ {
            assert(Self::spec_json_key(key) == "tickSize"@);
        }
        if key == "lot_size"@ {
            assert(Self::spec_json_key(key) == "lotSize"@);
        }
        if key == "fee_asset"@ {
            assert(Self::spec_json_key(key) == "feeAsset"@);
        }
    }

    /// Reading an object gives the same result whichever spelling each of its keys has:
    /// two objects whose members hold the same values, in the same order, under keys of
    /// the same JSON spelling describe the same message, or are refused with the same error.
    pub proof fn lemma_key_spelling(es1: Seq<(Seq<char>, JsonV)>, es2: Seq<(Seq<char>, JsonV)>)
        requires
            es1.len() == es2.len(),
            forall|i: int| #![trigger es1[i], es2[i]] 0 <= i < es1.len() ==> es1[i].1 == es2[i].1 && Self::spec_json_key(es1[i].0) == Self::spec_json_key(es2[i].0),
        ensures Self::spec_from_json(JsonV::Object(es1)) == Self::spec_from_json(JsonV::Object(es2)),
    {
        assert forall|s: (CreateMarketV, Seq<bool>), k: Seq<char>, v: JsonV|
            #![trigger Self::step_fn()(s, k, v), Self::json_key_fn()(k)]
            Self::step_fn()(s, k, v) == Self::step_fn()(s, Self::json_key_fn()(k), v) by {
            Self::lemma_step_json_key(s, k, v);
        }
        lemma_fold_same_keys(Self::spec_start(), es1, es2, Self::step_fn(), Self::json_key_fn());
    }

    /// The keys of the object that the message writes: the JSON names of the fields that
    /// do not hold their default (for a oneof, the JSON name of the member set), in the
    /// order of the fields.
    pub open spec fn spec_written_keys(m: CreateMarketV) -> Seq<Seq<char>> {
        key_if(m.market.len() != 0, "market"@)
            + key_if(m.base_asset.len() != 0, "baseAsset"@)
            + key_if(m.quote_asset.len() != 0, "quoteAsset"@)
            + key_if(m.tick_size is Some, "tickSize"@)
            + key_if(m.lot_size is Some, "lotSize"@)
            + key_if(m.fee_asset.len() != 0, "feeAsset"@)
    }

    /// The object that the message writes has exactly the keys of
    /// [`Self::spec_written_keys`], in that order.
    pub proof fn lemma_written_keys(m: CreateMarketV)
        ensures
            Self::spec_to_json(m) == JsonV::Object(Self::spec_entries(m)),
            entry_keys(Self::spec_entries(m)) == Self::spec_written_keys(m),
    {
        lemma_entry_keys_if(m.market.len() != 0, "market"@, JsonV::Str(m.market));
        lemma_entry_keys_append(Self::spec_entry_market(m), m.base_asset.len() != 0, "baseAsset"@, JsonV::Str(m.base_asset));
        lemma_entry_keys_append(Self::spec_entry_market(m) + Self::spec_entry_base_asset(m), m.quote_asset.len() != 0, "quoteAsset"@, JsonV::Str(m.quote_asset));
        lemma_entry_keys_append(Self::spec_entry_market(m) + Self::spec_entry_base_asset(m) + Self::spec_entry_quote_asset(m), m.tick_size is Some, "tickSize"@, JsonV::Object(m.tick_size.unwrap()));
        lemma_entry_keys_append(Self::spec_entry_market(m) + Self::spec_entry_base_asset(m) + Self::spec_entry_quote_asset(m) + Self::spec_entry_tick_size(m), m.lot_size is Some, "lotSize"@, JsonV::Object(m.lot_size.unwrap()));
        lemma_entry_keys_append(Self::spec_entry_market(m) + Self::spec_entry_base_asset(m) + Self::spec_entry_quote_asset(m) + Self::spec_entry_tick_size(m) + Self::spec_entry_lot_size(m), m.fee_asset.len() != 0, "feeAsset"@, JsonV::Str(m.fee_asset));
    }

    /// Whether the field whose JSON name is `name` holds its default in `m`; for a member
    /// of a oneof, whether the oneof is set to another member or unset. `true` for a name
    /// that names no field.
    pub open spec fn spec_holds_default(m: CreateMarketV, name: Seq<char>) -> bool {
        if name == "market"@ {
            m.market == Seq::<char>::empty()
        } else if name == "baseAsset"@ {
            m.base_asset == Seq::<char>::empty()
        } else if name == "quoteAsset"@ {
            m.quote_asset == Seq::<char>::empty()
        } else if name == "tickSize"@ {
            m.tick_size is None
        } else if name == "lotSize"@ {
            m.lot_size is None
        } else if name == "feeAsset"@ {
            m.fee_asset == Seq::<char>::empty()
        } else {
            true
        }
    }

    /// Whether reading `v` for the field whose JSON name is `name` leaves the field at
    /// its default: `null`, for a field that takes it (a message field, a member of a
    /// oneof); nothing, for any other field. `true` for a name that names no field.
    pub open spec fn spec_leaves_default(name: Seq<char>, v: JsonV) -> bool {
        if name == "market"@ {
            false
        } else if name == "baseAsset"@ {
            false
        } else if name == "quoteAsset"@ {
            false
        } else if name == "tickSize"@ {
            v is Null
        } else if name == "lotSize"@ {
            v is Null
        } else if name == "feeAsset"@ {
            false
        } else {
            true
        }
    }

    /// Reading one member keeps a field at its default unless the key names the field
    /// and the value does not leave it there.
    pub proof fn lemma_step_keeps_default(st: (CreateMarketV, Seq<bool>), key: Seq<char>, v: JsonV, name: Seq<char>)
        requires
            Self::spec_holds_default(st.0, name),
            Self::spec_json_key(key) == name ==> Self::spec_leaves_default(name, v),
        ensures
            Self::spec_step(st, key, v) is Ok ==> Self::spec_holds_default(Self::spec_step(st, key, v)->Ok_0.0, name),
    {
        reveal_strlit("market");
        reveal_strlit("baseAsset");
        reveal_strlit("base_asset");
        reveal_strlit("quoteAsset");
        reveal_strlit("quote_asset");
        reveal_strlit("tickSize");
        reveal_strlit("tick_size");
        reveal_strlit("lotSize");
        reveal_strlit("lot_size");
        reveal_strlit("feeAsset");
        reveal_strlit("fee_asset");
        assert("market"@.len() == 6);
        assert("baseAsset"@.len() == 9);
        assert("base_asset"@.len() == 10);
        assert("quoteAsset"@.len() == 10);
        assert("quote_asset"@.len() == 11);
        assert("tickSize"@.len() == 8);
        assert("tick_size"@.len() == 9);
        assert("lotSize"@.len() == 7);
        assert("lot_size"@.len() == 8);
        assert("feeAsset"@.len() == 8);
        assert("fee_asset"@.len() == 9);
        assert("baseAsset"@[0] != "tick_size"@[0]);
        assert("baseAsset"@[0] != "fee_asset"@[0]);
        assert("base_asset"@[0] != "quoteAsset"@[0]);
        assert("tickSize"@[0] != "lot_size"@[0]);
        assert("tickSize"@[0] != "feeAsset"@[0]);
        assert("tick_size"@[0] != "fee_asset"@[0]);
        assert("lot_size"@[0] != "feeAsset"@[0]);
        Self::lemma_step_json_key(st, key, v);
    }

    /// A field whose key appears in no member of an object, or only with values that
    /// leave it at its default (`null`, for a field that takes it), holds its default in
    /// the message that the object describes.
    pub proof fn lemma_absent_default(es: Seq<(Seq<char>, JsonV)>, name: Seq<char>)
        requires
            forall|i: int| 0 <= i < es.len() ==> (Self::spec_json_key((#[trigger] es[i]).0) == name
                ==> Self::spec_leaves_default(name, es[i].1)),
        ensures
            Self::spec_from_json(JsonV::Object(es)) is Ok
                ==> Self::spec_holds_default(Self::spec_from_json(JsonV::Object(es))->Ok_0, name),
    {
        let inv = |s: (CreateMarketV, Seq<bool>)| Self::spec_holds_default(s.0, name);
        let allowed = |k: Seq<char>, v: JsonV| Self::spec_json_key(k) == name ==> Self::spec_leaves_default(name, v);
        assert forall|s: (CreateMarketV, Seq<bool>), k: Seq<char>, v: JsonV| #![trigger Self::step_fn()(s, k, v)]
            inv(s) && allowed(k, v) && Self::step_fn()(s, k, v) is Ok implies inv(Self::step_fn()(s, k, v)->Ok_0) by {
            Self::lemma_step_keeps_default(s, k, v, name);
        }
        assert(inv(Self::spec_start()));
        lemma_fold_keeps(Self::spec_start(), es, Self::step_fn(), inv, allowed);
    }

    /// The field `market` alone: an object with one member under its JSON or protobuf
    /// name reads as the message with that field set and every other field at its
    /// default, and the message with only that field off its default writes that
    /// one member under the JSON name.
    pub proof fn lemma_field_market(s: Seq<char>)
        ensures
            Self::spec_from_json(JsonV::Object(seq![("market"@, JsonV::Str(s))])) == Ok::<CreateMarketV, JsonErrorV>(CreateMarketV { market: s, ..Self::spec_default() }),
            s.len() > 0 ==> Self::spec_to_json(CreateMarketV { market: s, ..Self::spec_default() }) == JsonV::Object(seq![("market"@, JsonV::Str(s))]),
    {
        reveal_strlit("market");
        reveal_strlit("baseAsset");
        reveal_strlit("base_asset");
        reveal_strlit("quoteAsset");
        reveal_strlit("quote_asset");
        reveal_strlit("tickSize");
        reveal_strlit("tick_size");
        reveal_strlit("lotSize");
        reveal_strlit("lot_size");
        reveal_strlit("feeAsset");
        reveal_strlit("fee_asset");
        assert("market"@.len() == 6);
        assert("baseAsset"@.len() == 9);
        assert("base_asset"@.len() == 10);
        assert("quoteAsset"@.len() == 10);
        assert("quote_asset"@.len() == 11);
        assert("tickSize"@.len() == 8);
        assert("tick_size"@.len() == 9);
        assert("lotSize"@.len() == 7);
        assert("lot_size"@.len() == 8);
        assert("feeAsset"@.len() == 8);
        assert("fee_asset"@.len() == 9);
        assert("baseAsset"@[0] != "tick_size"@[0]);
        assert("baseAsset"@[0] != "fee_asset"@[0]);
        assert("base_asset"@[0] != "quoteAsset"@[0]);
        assert("tickSize"@[0] != "lot_size"@[0]);
        assert("tickSize"@[0] != "feeAsset"@[0]);
        assert("tick_size"@[0] != "fee_asset"@[0]);
        assert("lot_size"@[0] != "feeAsset"@[0]);
        lemma_fold_entry_if(Self::spec_start(), true, "market"@, JsonV::Str(s), Self::step_fn());
    }

    /// The field `base_asset` alone: an object with one member under its JSON or protobuf
    /// name reads as the message with that field set and every other field at its
    /// default, and the message with only that field off its default writes that
    /// one member under the JSON name.
    pub proof fn lemma_field_base_asset(s: Seq<char>)
        ensures
            Self::spec_from_json(JsonV::Object(seq![("baseAsset"@, JsonV::Str(s))])) == Ok::<CreateMarketV, JsonErrorV>(CreateMarketV { base_asset: s, ..Self::spec_default() }),
            Self::spec_from_json(JsonV::Object(seq![("base_asset"@, JsonV::Str(s))])) == Ok::<CreateMarketV, JsonErrorV>(CreateMarketV { base_asset: s, ..Self::spec_default() }),
            s.len() > 0 ==> Self::spec_to_json(CreateMarketV { base_asset: s, ..Self::spec_default() }) == JsonV::Object(seq![("baseAsset"@, JsonV::Str(s))]),
    {
        reveal_strlit("market");
        reveal_strlit("baseAsset");
        reveal_strlit("base_asset");
        reveal_strlit("quoteAsset");
        reveal_strlit("quote_asset");
        reveal_strlit("tickSize");
        reveal_strlit("tick_size");
        reveal_strlit("lotSize");
        reveal_strlit("lot_size");
        reveal_strlit("feeAsset");
        reveal_strlit("fee_asset");
        assert("market"@.len() == 6);
        assert("baseAsset"@.len() == 9);
        assert("base_asset"@.len() == 10);
        assert("quoteAsset"@.len() == 10);
        assert("quote_asset"@.len() == 11);
        assert("tickSize"@.len() == 8);
        assert("tick_size"@.len() == 9);
        assert("lotSize"@.len() == 7);
        assert("lot_size"@.len() == 8);
        assert("feeAsset"@.len() == 8);
        assert("fee_asset"@.len() == 9);
        assert("baseAsset"@[0] != "tick_size"@[0]);
        assert("baseAsset"@[0] != "fee_asset"@[0]);
        assert("base_asset"@[0] != "quoteAsset"@[0]);
        assert("tickSize"@[0] != "lot_size"@[0]);
        assert("tickSize"@[0] != "feeAsset"@[0]);
        assert("tick_size"@[0] != "fee_asset"@[0]);
        assert("lot_size"@[0] != "feeAsset"@[0]);
        lemma_fold_entry_if(Self::spec_start(), true, "baseAsset"@, JsonV::Str(s), Self::step_fn());
        lemma_fold_entry_if(Self::spec_start(), true, "base_asset"@, JsonV::Str(s), Self::step_fn());
    }

    /// The field `quote_asset` alone: an object with one member under its JSON or protobuf
    /// name reads as the message with that field set and every other field at its
    /// default, and the message with only that field off its default writes that
    /// one member under the JSON name.
    pub proof fn lemma_field_quote_asset(s: Seq<char>)
        ensures
            Self::spec_from_json(JsonV::Object(seq![("quoteAsset"@, JsonV::Str(s))])) == Ok::<CreateMarketV, JsonErrorV>(CreateMarketV { quote_asset: s, ..Self::spec_default() }),
            Self::spec_from_json(JsonV::Object(seq![("quote_asset"@, JsonV::Str(s))])) == Ok::<CreateMarketV, JsonErrorV>(CreateMarketV { quote_asset: s, ..Self::spec_default() }),
            s.len() > 0 ==> Self::spec_to_json(CreateMarketV { quote_asset: s, ..Self::spec_default() }) == JsonV::Object(seq![("quoteAsset"@, JsonV::Str(s))]),
    {
        reveal_strlit("market");
        reveal_strlit("baseAsset");
        reveal_strlit("base_asset");
        reveal_strlit("quoteAsset");
        reveal_strlit("quote_asset");
        reveal_strlit("tickSize");
        reveal_strlit("tick_size");
        reveal_strlit("lotSize");
        reveal_strlit("lot_size");
        reveal_strlit("feeAsset");
        reveal_strlit("fee_asset");
        assert("market"@.len() == 6);
        assert("baseAsset"@.len() == 9);
        assert("base_asset"@.len() == 10);
        assert("quoteAsset"@.len() == 10);
        assert("quote_asset"@.len() == 11);
        assert("tickSize"@.len() == 8);
        assert("tick_size"@.len() == 9);
        assert("lotSize"@.len() == 7);
        assert("lot_size"@.len() == 8);
        assert("feeAsset"@.len() == 8);
        assert("fee_asset"@.len() == 9);
        assert("baseAsset"@[0] != "tick_size"@[0]);
        assert("baseAsset"@[0] != "fee_asset"@[0]);
        assert("base_asset"@[0] != "quoteAsset"@[0]);
        assert("tickSize"@[0] != "lot_size"@[0]);
        assert("tickSize"@[0] != "feeAsset"@[0]);
        assert("tick_size"@[0] != "fee_asset"@[0]);
        assert("lot_size"@[0] != "feeAsset"@[0]);
        lemma_fold_entry_if(Self::spec_start(), true, "quoteAsset"@, JsonV::Str(s), Self::step_fn());
        lemma_fold_entry_if(Self::spec_start(), true, "quote_asset"@, JsonV::Str(s), Self::step_fn());
    }

    /// The field `tick_size` alone: an object with one member under its JSON or protobuf
    /// name reads as the message with that field set and every other field at its
    /// default, and the message with only that field off its default writes that
    /// one member under the JSON name.
    pub proof fn lemma_field_tick_size(es: Seq<(Seq<char>, JsonV)>)
        ensures
            Self::spec_from_json(JsonV::Object(seq![("tickSize"@, JsonV::Object(es))])) == Ok::<CreateMarketV, JsonErrorV>(CreateMarketV { tick_size: Some(es), ..Self::spec_default() }),
            Self::spec_from_json(JsonV::Object(seq![("tickSize"@, JsonV::Null)])) == Ok::<CreateMarketV, JsonErrorV>(Self::spec_default()),
            Self::spec_from_json(JsonV::Object(seq![("tick_size"@, JsonV::Object(es))])) == Ok::<CreateMarketV, JsonErrorV>(CreateMarketV { tick_size: Some(es), ..Self::spec_default() }),
            Self::spec_from_json(JsonV::Object(seq![("tick_size"@, JsonV::Null)])) == Ok::<CreateMarketV, JsonErrorV>(Self::spec_default()),
            Self::spec_to_json(CreateMarketV { tick_size: Some(es), ..Self::spec_default() }) == JsonV::Object(seq![("tickSize"@, JsonV::Object(es))]),
    {
        reveal_strlit("market");
        reveal_strlit("baseAsset");
        reveal_strlit("base_asset");
        reveal_strlit("quoteAsset");
        reveal_strlit("quote_asset");
        reveal_strlit("tickSize");
        reveal_strlit("tick_size");
        reveal_strlit("lotSize");
        reveal_strlit("lot_size");
        reveal_strlit("feeAsset");
        reveal_strlit("fee_asset");
        assert("market"@.len() == 6);
        assert("baseAsset"@.len() == 9);
        assert("base_asset"@.len() == 10);
        assert("quoteAsset"@.len() == 10);
        assert("quote_asset"@.len() == 11);
        assert("tickSize"@.len() == 8);
        assert("tick_size"@.len() == 9);
        assert("lotSize"@.len() == 7);
        assert("lot_size"@.len() == 8);
        assert("feeAsset"@.len() == 8);
        assert("fee_asset"@.len() == 9);
        assert("baseAsset"@[0] != "tick_size"@[0]);
        assert("baseAsset"@[0] != "fee_asset"@[0]);
        assert("base_asset"@[0] != "quoteAsset"@[0]);
        assert("tickSize"@[0] != "lot_size"@[0]);
        assert("tickSize"@[0] != "feeAsset"@[0]);
        assert("tick_size"@[0] != "fee_asset"@[0]);
        assert("lot_size"@[0] != "feeAsset"@[0]);
        lemma_fold_entry_if(Self::spec_start(), true, "tickSize"@, JsonV::Object(es), Self::step_fn());
        lemma_fold_entry_if(Self::spec_start(), true, "tickSize"@, JsonV::Null, Self::step_fn());
        lemma_fold_entry_if(Self::spec_start(), true, "tick_size"@, JsonV::Object(es), Self::step_fn());
        lemma_fold_entry_if(Self::spec_start(), true, "tick_size"@, JsonV::Null, Self::step_fn());
    }

    /// The field `lot_size` alone: an object with one member under its JSON or protobuf
    /// name reads as the message with that field set and every other field at its
    /// default, and the message with only that field off its default writes that
    /// one member under the JSON name.
    pub proof fn lemma_field_lot_size(es: Seq<(Seq<char>, JsonV)>)
        ensures
            Self::spec_from_json(JsonV::Object(seq![("lotSize"@, JsonV::Object(es))])) == Ok::<CreateMarketV, JsonErrorV>(CreateMarketV { lot_size: Some(es), ..Self::spec_default() }),
            Self::spec_from_json(JsonV::Object(seq![("lotSize"@, JsonV::Null)])) == Ok::<CreateMarketV, JsonErrorV>(Self::spec_default()),
            Self::spec_from_json(JsonV::Object(seq![("lot_size"@, JsonV::Object(es))])) == Ok::<CreateMarketV, JsonErrorV>(CreateMarketV { lot_size: Some(es), ..Self::spec_default() }),
            Self::spec_from_json(JsonV::Object(seq![("lot_size"@, JsonV::Null)])) == Ok::<CreateMarketV, JsonErrorV>(Self::spec_default()),
            Self::spec_to_json(CreateMarketV { lot_size: Some(es), ..Self::spec_default() }) == JsonV::Object(seq![("lotSize"@, JsonV::Object(es))]),
    {
        reveal_strlit("market");
        reveal_strlit("baseAsset");
        reveal_strlit("base_asset");
        reveal_strlit("quoteAsset");
        reveal_strlit("quote_asset");
        reveal_strlit("tickSize");
        reveal_strlit("tick_size");
        reveal_strlit("lotSize");
        reveal_strlit("lot_size");
        reveal_strlit("feeAsset");
        reveal_strlit("fee_asset");
        assert("market"@.len() == 6);
        assert("baseAsset"@.len() == 9);
        assert("base_asset"@.len() == 10);
        assert("quoteAsset"@.len() == 10);
        assert("quote_asset"@.len() == 11);
        assert("tickSize"@.len() == 8);
        assert("tick_size"@.len() == 9);
        assert("lotSize"@.len() == 7);
        assert("lot_size"@.len() == 8);
        assert("feeAsset"@.len() == 8);
        assert("fee_asset"@.len() == 9);
        assert("baseAsset"@[0] != "tick_size"@[0]);
        assert("baseAsset"@[0] != "fee_asset"@[0]);
        assert("base_asset"@[0] != "quoteAsset"@[0]);
        assert("tickSize"@[0] != "lot_size"@[0]);
        assert("tickSize"@[0] != "feeAsset"@[0]);
        assert("tick_size"@[0] != "fee_asset"@[0]);
        assert("lot_size"@[0] != "feeAsset"@[0]);
        lemma_fold_entry_if(Self::spec_start(), true, "lotSize"@, JsonV::Object(es), Self::step_fn());
        lemma_fold_entry_if(Self::spec_start(), true, "lotSize"@, JsonV::Null, Self::step_fn());
        lemma_fold_entry_if(Self::spec_start(), true, "lot_size"@, JsonV::Object(es), Self::step_fn());
        lemma_fold_entry_if(Self::spec_start(), true, "lot_size"@, JsonV::Null, Self::step_fn());
    }

    /// The field `fee_asset` alone: an object with one member under its JSON or protobuf
    /// name reads as the message with that field set and every other field at its
    /// default, and the message with only that field off its default writes that
    /// one member under the JSON name.
    pub proof fn lemma_field_fee_asset(s: Seq<char>)
        ensures
            Self::spec_from_json(JsonV::Object(seq![("feeAsset"@, JsonV::Str(s))])) == Ok::<CreateMarketV, JsonErrorV>(CreateMarketV { fee_asset: s, ..Self::spec_default() }),
            Self::spec_from_json(JsonV::Object(seq![("fee_asset"@, JsonV::Str(s))])) == Ok::<CreateMarketV, JsonErrorV>(CreateMarketV { fee_asset: s, ..Self::spec_default() }),
            s.len() > 0 ==> Self::spec_to_json(CreateMarketV { fee_asset: s, ..Self::spec_default() }) == JsonV::Object(seq![("feeAsset"@, JsonV::Str(s))]),
    {
        reveal_strlit("market");
        reveal_strlit("baseAsset");
        reveal_strlit("base_asset");
        reveal_strlit("quoteAsset");
        reveal_strlit("quote_asset");
        reveal_strlit("tickSize");
        reveal_strlit("tick_size");
        reveal_strlit("lotSize");
        reveal_strlit("lot_size");
        reveal_strlit("feeAsset");
        reveal_strlit("fee_asset");
        assert("market"@.len() == 6);
        assert("baseAsset"@.len() == 9);
        assert("base_asset"@.len() == 10);
        assert("quoteAsset"@.len() == 10);
        assert("quote_asset"@.len() == 11);
        assert("tickSize"@.len() == 8);
        assert("tick_size"@.len() == 9);
        assert("lotSize"@.len() == 7);
        assert("lot_size"@.len() == 8);
        assert("feeAsset"@.len() == 8);
        assert("fee_asset"@.len() == 9);
        assert("baseAsset"@[0] != "tick_size"@[0]);
        assert("baseAsset"@[0] != "fee_asset"@[0]);
        assert("base_asset"@[0] != "quoteAsset"@[0]);
        assert("tickSize"@[0] != "lot_size"@[0]);
        assert("tickSize"@[0] != "feeAsset"@[0]);
        assert("tick_size"@[0] != "fee_asset"@[0]);
        assert("lot_size"@[0] != "feeAsset"@[0]);
        lemma_fold_entry_if(Self::spec_start(), true, "feeAsset"@, JsonV::Str(s), Self::step_fn());
        lemma_fold_entry_if(Self::spec_start(), true, "fee_asset"@, JsonV::Str(s), Self::step_fn());
    }

    /// Reading back the JSON object of a message gives the message.
    pub proof fn lemma_json_roundtrip(m: CreateMarketV)
        ensures Self::spec_from_json(Self::spec_to_json(m)) == Ok::<CreateMarketV, JsonErrorV>(m),
    {
        let step = Self::step_fn();
        let s0 = Self::spec_start();
        let s1 = (CreateMarketV { market: m.market, ..s0.0 }, if m.market.len() != 0 { s0.1.update(0, true) } else { s0.1 });
        Self::lemma_entry_market(m, s0);
        let s2 = (CreateMarketV { base_asset: m.base_asset, ..s1.0 }, if m.base_asset.len() != 0 { s1.1.update(1, true) } else { s1.1 });
        Self::lemma_entry_base_asset(m, s1);
        let s3 = (CreateMarketV { quote_asset: m.quote_asset, ..s2.0 }, if m.quote_asset.len() != 0 { s2.1.update(2, true) } else { s2.1 });
        Self::lemma_entry_quote_asset(m, s2);
        let s4 = (CreateMarketV { tick_size: m.tick_size, ..s3.0 }, s3.1);
        Self::lemma_entry_tick_size(m, s3);
        let s5 = (CreateMarketV { lot_size: m.lot_size, ..s4.0 }, s4.1);
        Self::lemma_entry_lot_size(m, s4);
        let s6 = (CreateMarketV { fee_asset: m.fee_asset, ..s5.0 }, if m.fee_asset.len() != 0 { s5.1.update(3, true) } else { s5.1 });
        Self::lemma_entry_fee_asset(m, s5);
        let p1 = Self::spec_entry_market(m);
        let p2 = p1 + Self::spec_entry_base_asset(m);
        lemma_fold_entries_append(s0, p1, Self::spec_entry_base_asset(m), step);
        let p3 = p2 + Self::spec_entry_quote_asset(m);
        lemma_fold_entries_append(s0, p2, Self::spec_entry_quote_asset(m), step);
        let p4 = p3 + Self::spec_entry_tick_size(m);
        lemma_fold_entries_append(s0, p3, Self::spec_entry_tick_size(m), step);
        let p5 = p4 + Self::spec_entry_lot_size(m);
        lemma_fold_entries_append(s0, p4, Self::spec_entry_lot_size(m), step);
        let p6 = p5 + Self::spec_entry_fee_asset(m);
        lemma_fold_entries_append(s0, p5, Self::spec_entry_fee_asset(m), step);
        assert(s6.0 == m);
    }
}

/// The `astria.protocol.transaction.v1.CreateOrder` message.
#[derive(Clone, Debug, PartialEq)]
pub struct CreateOrder {
    pub market: String,
    pub side: Option<OrderSide>,
    pub order_type: Option<OrderType>,
    pub price: Option<Uint128>,
    pub quantity: Option<Uint128>,
    pub time_in_force: Option<OrderTimeInForce>,
    pub fee_asset: String,
}

/// The mathematical content of a [`CreateOrder`].
pub struct CreateOrderV {
    pub market: Seq<char>,
    pub side: Option<OrderSideV>,
    pub order_type: Option<OrderTypeV>,
    pub price: Option<Seq<(Seq<char>, JsonV)>>,
    pub quantity: Option<Seq<(Seq<char>, JsonV)>>,
    pub time_in_force: Option<OrderTimeInForceV>,
    pub fee_asset: Seq<char>,
}

impl View for CreateOrder {
    type V = CreateOrderV;

    open spec fn view(&self) -> CreateOrderV {
        CreateOrderV {
            market: self.market@,
            side: OrderSide::view_opt(self.side),
            order_type: OrderType::view_opt(self.order_type),
            price: opt_embedded_view(self.price),
            quantity: opt_embedded_view(self.quantity),
            time_in_force: OrderTimeInForce::view_opt(self.time_in_force),
            fee_asset: self.fee_asset@,
        }
    }
}

impl Default for CreateOrder {
    fn default() -> (r: Self)
        ensures r@ == CreateOrder::spec_default(),
    {
        let r = CreateOrder {
            market: String::new(),
            side: None,
            order_type: None,
            price: None,
            quantity: None,
            time_in_force: None,
            fee_asset: String::new(),
        };
        r
    }
}

impl CreateOrder {
    /// The fully qualified protobuf name of the message.
    pub fn full_name() -> (r: String)
        ensures r@ == "astria.protocol.transaction.v1.CreateOrder"@,
    {
        "astria.protocol.transaction.v1.CreateOrder".to_string()
    }

    /// Every field at its default: empty strings, bytes and lists, zero, `false`, unset.
    pub open spec fn spec_default() -> CreateOrderV {
        CreateOrderV {
            market: Seq::<char>::empty(),
            side: None,
            order_type: None,
            price: None,
            quantity: None,
            time_in_force: None,
            fee_asset: Seq::<char>::empty(),
        }
    }

    /// The view of an optional field of this message type.
    pub open spec fn view_opt(o: Option<Self>) -> Option<CreateOrderV> {
        match o {
            Some(x) => Some(x@),
            None => None,
        }
    }

    /// The view of a repeated field of this message type.
    pub open spec fn view_list(v: Seq<Self>) -> Seq<CreateOrderV> {
        v.map_values(|x: Self| x@)
    }

    /// The member that the field `market` writes: none where it holds its default.
    pub open spec fn spec_entry_market(m: CreateOrderV) -> Seq<(Seq<char>, JsonV)> {
        entry_if(m.market.len() != 0, "market"@, JsonV::Str(m.market))
    }

    /// The member that the field `side` writes: none where it holds its default.
    pub open spec fn spec_entry_side(m: CreateOrderV) -> Seq<(Seq<char>, JsonV)> {
        entry_if(m.side is Some, "side"@, OrderSide::spec_to_json(m.side.unwrap()))
    }

    /// The member that the field `order_type` writes: none where it holds its default.
    pub open spec fn spec_entry_order_type(m: CreateOrderV) -> Seq<(Seq<char>, JsonV)> {
        entry_if(m.order_type is Some, "type"@, OrderType::spec_to_json(m.order_type.unwrap()))
    }

    /// The member that the field `price` writes: none where it holds its default.
    pub open spec fn spec_entry_price(m: CreateOrderV) -> Seq<(Seq<char>, JsonV)> {
        entry_if(m.price is Some, "price"@, JsonV::Object(m.price.unwrap()))
    }

    /// The member that the field `quantity` writes: none where it holds its default.
    pub open spec fn spec_entry_quantity(m: CreateOrderV) -> Seq<(Seq<char>, JsonV)> {
        entry_if(m.quantity is Some, "quantity"@, JsonV::Object(m.quantity.unwrap()))
    }

    /// The member that the field `time_in_force` writes: none where it holds its default.
    pub open spec fn spec_entry_time_in_force(m: CreateOrderV) -> Seq<(Seq<char>, JsonV)> {
        entry_if(m.time_in_force is Some, "timeInForce"@, OrderTimeInForce::spec_to_json(m.time_in_force.unwrap()))
    }

    /// The member that the field `fee_asset` writes: none where it holds its default.
    pub open spec fn spec_entry_fee_asset(m: CreateOrderV) -> Seq<(Seq<char>, JsonV)> {
        entry_if(m.fee_asset.len() != 0, "feeAsset"@, JsonV::Str(m.fee_asset))
    }

    /// The members of the JSON object of the message: each field that does not hold
    /// its default, under its JSON name, in the order of the fields.
    pub open spec fn spec_entries(m: CreateOrderV) -> Seq<(Seq<char>, JsonV)> {
        Self::spec_entry_market(m) + Self::spec_entry_side(m) + Self::spec_entry_order_type(m) + Self::spec_entry_price(m) + Self::spec_entry_quantity(m) + Self::spec_entry_time_in_force(m) + Self::spec_entry_fee_asset(m)
    }

    /// The JSON object that the protobuf JSON mapping writes for the message.
    pub open spec fn spec_to_json(m: CreateOrderV) -> JsonV {
        JsonV::Object(Self::spec_entries(m))
    }

    /// [`Self::spec_to_json`] as a function value, for repeated fields.
    pub open spec fn writer() -> spec_fn(CreateOrderV) -> JsonV {
        |m: CreateOrderV| Self::spec_to_json(m)
    }

    /// Why the field `side` cannot be written, if it cannot.
    pub open spec fn spec_error_side(m: CreateOrderV) -> Option<JsonErrorV> {
        match m.side { Some(x) => OrderSide::spec_encode_error(x), None => None }
    }

    /// Why the field `order_type` cannot be written, if it cannot.
    pub open spec fn spec_error_order_type(m: CreateOrderV) -> Option<JsonErrorV> {
        match m.order_type { Some(x) => OrderType::spec_encode_error(x), None => None }
    }

    /// Why the field `time_in_force` cannot be written, if it cannot.
    pub open spec fn spec_error_time_in_force(m: CreateOrderV) -> Option<JsonErrorV> {
        match m.time_in_force { Some(x) => OrderTimeInForce::spec_encode_error(x), None => None }
    }

    /// The first field, in the order of the fields, that cannot be written: an
    /// enumeration field whose number names no value, or a message field that
    /// holds one. `None` when the whole message can be written.
    pub open spec fn spec_encode_error(m: CreateOrderV) -> Option<JsonErrorV> {
        if Self::spec_error_side(m) is Some {
            Self::spec_error_side(m)
        } else if Self::spec_error_order_type(m) is Some {
            Self::spec_error_order_type(m)
        } else if Self::spec_error_time_in_force(m) is Some {
            Self::spec_error_time_in_force(m)
        } else {
            None
        }
    }

    fn write_market(&self, es: &mut Vec<(String, Json)>)
        ensures
            view_entries(final(es)@) == view_entries(old(es)@) + Self::spec_entry_market(self@),
    {
        if !self.market.as_str().is_empty() {
            push_entry(es, "market", string_value(&self.market));
        }
        assert(view_entries(es@) =~= view_entries(old(es)@) + Self::spec_entry_market(self@));
    }

    fn write_side(&self, es: &mut Vec<(String, Json)>) -> (r: Result<(), JsonError>)
        ensures
            match r {
                Ok(_) => Self::spec_error_side(self@) is None
                    && view_entries(final(es)@) == view_entries(old(es)@) + Self::spec_entry_side(self@)
                ,
                Err(e) => Self::spec_error_side(self@) == Some(e@),
            },
    {
        match &self.side {
            Some(x) => match x.to_json() {
                Ok(j) => push_entry(es, "side", j),
                Err(e) => return Err(e),
            },
            None => {},
        }
        assert(view_entries(es@) =~= view_entries(old(es)@) + Self::spec_entry_side(self@));
        Ok(())
    }

    fn write_order_type(&self, es: &mut Vec<(String, Json)>) -> (r: Result<(), JsonError>)
        ensures
            match r {
                Ok(_) => Self::spec_error_order_type(self@) is None
                    && view_entries(final(es)@) == view_entries(old(es)@) + Self::spec_entry_order_type(self@)
                ,
                Err(e) => Self::spec_error_order_type(self@) == Some(e@),
            },
    {
        match &self.order_type {
            Some(x) => match x.to_json() {
                Ok(j) => push_entry(es, "type", j),
                Err(e) => return Err(e),
            },
            None => {},
        }
        assert(view_entries(es@) =~= view_entries(old(es)@) + Self::spec_entry_order_type(self@));
        Ok(())
    }

    fn write_price(&self, es: &mut Vec<(String, Json)>)
        ensures
            view_entries(final(es)@) == view_entries(old(es)@) + Self::spec_entry_price(self@),
    {
        match &self.price {
            Some(x) => push_entry(es, "price", embedded_value(x)),
            None => {},
        }
        assert(view_entries(es@) =~= view_entries(old(es)@) + Self::spec_entry_price(self@));
    }

    fn write_quantity(&self, es: &mut Vec<(String, Json)>)
        ensures
            view_entries(final(es)@) == view_entries(old(es)@) + Self::spec_entry_quantity(self@),
    {
        match &self.quantity {
            Some(x) => push_entry(es, "quantity", embedded_value(x)),
            None => {},
        }
        assert(view_entries(es@) =~= view_entries(old(es)@) + Self::spec_entry_quantity(self@));
    }

    fn write_time_in_force(&self, es: &mut Vec<(String, Json)>) -> (r: Result<(), JsonError>)
        ensures
            match r {
                Ok(_) => Self::spec_error_time_in_force(self@) is None
                    && view_entries(final(es)@) == view_entries(old(es)@) + Self::spec_entry_time_in_force(self@)
                ,
                Err(e) => Self::spec_error_time_in_force(self@) == Some(e@),
            },
    {
        match &self.time_in_force {
            Some(x) => match x.to_json() {
                Ok(j) => push_entry(es, "timeInForce", j),
                Err(e) => return Err(e),
            },
            None => {},
        }
        assert(view_entries(es@) =~= view_entries(old(es)@) + Self::spec_entry_time_in_force(self@));
        Ok(())
    }

    fn write_fee_asset(&self, es: &mut Vec<(String, Json)>)
        ensures
            view_entries(final(es)@) == view_entries(old(es)@) + Self::spec_entry_fee_asset(self@),
    {
        if !self.fee_asset.as_str().is_empty() {
            push_entry(es, "feeAsset", string_value(&self.fee_asset));
        }
        assert(view_entries(es@) =~= view_entries(old(es)@) + Self::spec_entry_fee_asset(self@));
    }

    /// Writes the message as a JSON object, or gives the error of the first field
    /// that cannot be written; reading the object back gives the message.
    pub fn to_json(&self) -> (r: Result<Json, JsonError>)
        ensures
            match r {
                Ok(j) => Self::spec_encode_error(self@) is None
                    && j@ == Self::spec_to_json(self@)
                    && Self::spec_from_json(j@) == Ok::<CreateOrderV, JsonErrorV>(self@),
                Err(e) => Self::spec_encode_error(self@) == Some(e@),
            },
    {
        let mut es: Vec<(String, Json)> = Vec::new();
        let ghost mut acc: Seq<(Seq<char>, JsonV)> = Seq::empty();
        proof {
            assert(view_entries(es@) =~= acc);
        }
        self.write_market(&mut es);
        proof {
            acc = acc + Self::spec_entry_market(self@);
        }
        match self.write_side(&mut es) {
            Ok(_) => {},
            Err(e) => return Err(e),
        }
        proof {
            acc = acc + Self::spec_entry_side(self@);
        }
        match self.write_order_type(&mut es) {
            Ok(_) => {},
            Err(e) => return Err(e),
        }
        proof {
            acc = acc + Self::spec_entry_order_type(self@);
        }
        self.write_price(&mut es);
        proof {
            acc = acc + Self::spec_entry_price(self@);
        }
        self.write_quantity(&mut es);
        proof {
            acc = acc + Self::spec_entry_quantity(self@);
        }
        match self.write_time_in_force(&mut es) {
            Ok(_) => {},
            Err(e) => return Err(e),
        }
        proof {
            acc = acc + Self::spec_entry_time_in_force(self@);
        }
        self.write_fee_asset(&mut es);
        proof {
            acc = acc + Self::spec_entry_fee_asset(self@);
        }
        proof {
            assert(acc =~= Self::spec_entries(self@));
            Self::lemma_json_roundtrip(self@);
        }
        Ok(Json::Object(es))
    }

    /// Reads one member of the object into the message under construction; `seen`
    /// records which fields that have no unset state were already given.
    pub open spec fn spec_step(st: (CreateOrderV, Seq<bool>), key: Seq<char>, v: JsonV) -> Result<(CreateOrderV, Seq<bool>), JsonErrorV> {
        let m = st.0;
        let seen = st.1;
        if key == "market"@ {
            if seen[0] {
                Err(JsonErrorV::DuplicateField("market"@))
            } else {
                match read_string(v) {
                    Ok(x) => Ok((CreateOrderV { market: x, ..m }, seen.update(0, true))),
                    Err(e) => Err(e),
                }
            }
        } else if key == "side"@ {
            if m.side is Some {
                Err(JsonErrorV::DuplicateField("side"@))
            } else {
                match OrderSide::spec_read_opt(v) {
                    Ok(x) => Ok((CreateOrderV { side: x, ..m }, seen)),
                    Err(e) => Err(e),
                }
            }
        } else if key == "type"@ {
            if m.order_type is Some {
                Err(JsonErrorV::DuplicateField("type"@))
            } else {
                match OrderType::spec_read_opt(v) {
                    Ok(x) => Ok((CreateOrderV { order_type: x, ..m }, seen)),
                    Err(e) => Err(e),
                }
            }
        } else if key == "price"@ {
            if m.price is Some {
                Err(JsonErrorV::DuplicateField("price"@))
            } else {
                match read_embedded(v) {
                    Ok(x) => Ok((CreateOrderV { price: x, ..m }, seen)),
                    Err(e) => Err(e),
                }
            }
        } else if key == "quantity"@ {
            if m.quantity is Some {
                Err(JsonErrorV::DuplicateField("quantity"@))
            } else {
                match read_embedded(v) {
                    Ok(x) => Ok((CreateOrderV { quantity: x, ..m }, seen)),
                    Err(e) => Err(e),
                }
            }
        } else if key == "timeInForce"@ || key == "time_in_force"@ {
            if m.time_in_force is Some {
                Err(JsonErrorV::DuplicateField("timeInForce"@))
            } else {
                match OrderTimeInForce::spec_read_opt(v) {
                    Ok(x) => Ok((CreateOrderV { time_in_force: x, ..m }, seen)),
                    Err(e) => Err(e),
                }
            }
        } else if key == "feeAsset"@ || key == "fee_asset"@ {
            if seen[1] {
                Err(JsonErrorV::DuplicateField("feeAsset"@))
            } else {
                match read_string(v) {
                    Ok(x) => Ok((CreateOrderV { fee_asset: x, ..m }, seen.update(1, true))),
                    Err(e) => Err(e),
                }
            }
        } else {
            Err(JsonErrorV::UnknownField(key))
        }
    }

    /// [`Self::spec_step`] as a function value.
    pub open spec fn step_fn() -> spec_fn((CreateOrderV, Seq<bool>), Seq<char>, JsonV) -> Result<(CreateOrderV, Seq<bool>), JsonErrorV> {
        |st: (CreateOrderV, Seq<bool>), key: Seq<char>, v: JsonV| Self::spec_step(st, key, v)
    }

    /// The state before the first member is read: the default message, no field seen.
    pub open spec fn spec_start() -> (CreateOrderV, Seq<bool>) {
        (Self::spec_default(), seq![false, false])
    }

    /// The message that a JSON value describes: an object whose keys each name a field
    /// (by its JSON name or its protobuf name), at most once each; fields that are not
    /// given keep their default. The first member that is refused gives the error.
    pub open spec fn spec_from_json(j: JsonV) -> Result<CreateOrderV, JsonErrorV> {
        match j {
            JsonV::Object(es) => match fold_entries(Self::spec_start(), es, Self::step_fn()) {
                Ok(st) => Ok(st.0),
                Err(e) => Err(e),
            },
            _ => Err(JsonErrorV::ExpectedObject),
        }
    }

    /// [`Self::spec_from_json`] as a function value, for repeated fields.
    pub open spec fn reader() -> spec_fn(JsonV) -> Result<CreateOrderV, JsonErrorV> {
        |v: JsonV| Self::spec_from_json(v)
    }

    /// An optional field of this message type: `null` leaves it unset.
    pub open spec fn spec_read_opt(v: JsonV) -> Result<Option<CreateOrderV>, JsonErrorV> {
        match v {
            JsonV::Null => Ok(None),
            _ => match Self::spec_from_json(v) {
                Ok(x) => Ok(Some(x)),
                Err(e) => Err(e),
            },
        }
    }

    fn step(m: Self, seen: Vec<bool>, key: &String, v: &Json) -> (r: Result<(Self, Vec<bool>), JsonError>)
        requires seen@.len() == 2,
        ensures
            match r {
                Ok((m2, seen2)) => Self::spec_step((m@, seen@), key@, v@) == Ok::<(CreateOrderV, Seq<bool>), JsonErrorV>((m2@, seen2@)) && seen2@.len() == 2,
                Err(e) => Self::spec_step((m@, seen@), key@, v@) == Err::<(CreateOrderV, Seq<bool>), JsonErrorV>(e@),
            },
    {
        let mut m = m;
        let mut seen = seen;
        let k = key.as_str();
        if str_eq(k, "market") {
            if seen[0] {
                return Err(JsonError::DuplicateField("market".to_string()));
            }
            match string_field(v) {
                Ok(x) => m.market = x,
                Err(e) => return Err(e),
            }
            seen.set(0, true);
        } else if str_eq(k, "side") {
            if m.side.is_some() {
                return Err(JsonError::DuplicateField("side".to_string()));
            }
            match OrderSide::opt_from_json(v) {
                Ok(x) => m.side = x,
                Err(e) => return Err(e),
            }
        } else if str_eq(k, "type") {
            if m.order_type.is_some() {
                return Err(JsonError::DuplicateField("type".to_string()));
            }
            match OrderType::opt_from_json(v) {
                Ok(x) => m.order_type = x,
                Err(e) => return Err(e),
            }
        } else if str_eq(k, "price") {
            if m.price.is_some() {
                return Err(JsonError::DuplicateField("price".to_string()));
            }
            match embedded_field(v) {
                Ok(x) => m.price = x,
                Err(e) => return Err(e),
            }
        } else if str_eq(k, "quantity") {
            if m.quantity.is_some() {
                return Err(JsonError::DuplicateField("quantity".to_string()));
            }
            match embedded_field(v) {
                Ok(x) => m.quantity = x,
                Err(e) => return Err(e),
            }
        } else if str_eq(k, "timeInForce") || str_eq(k, "time_in_force") {
            if m.time_in_force.is_some() {
                return Err(JsonError::DuplicateField("timeInForce".to_string()));
            }
            match OrderTimeInForce::opt_from_json(v) {
                Ok(x) => m.time_in_force = x,
                Err(e) => return Err(e),
            }
        } else if str_eq(k, "feeAsset") || str_eq(k, "fee_asset") {
            if seen[1] {
                return Err(JsonError::DuplicateField("feeAsset".to_string()));
            }
            match string_field(v) {
                Ok(x) => m.fee_asset = x,
                Err(e) => return Err(e),
            }
            seen.set(1, true);
        } else {
            return Err(JsonError::UnknownField(key.clone()));
        }
        Ok((m, seen))
    }

    /// Reads the message from a JSON value, as [`Self::spec_from_json`] describes.
    pub fn from_json(j: &Json) -> (r: Result<Self, JsonError>)
        ensures
            match r {
                Ok(m) => Self::spec_from_json(j@) == Ok::<CreateOrderV, JsonErrorV>(m@),
                Err(e) => Self::spec_from_json(j@) == Err::<CreateOrderV, JsonErrorV>(e@),
            },
    {
        let es = match j {
            Json::Object(es) => es,
            _ => return Err(JsonError::ExpectedObject),
        };
        let ghost ves = view_entries(es@);
        proof {
            lemma_view_entries_len(es@);
            assert(j@ == JsonV::Object(ves));
        }
        let mut m = Self::default();
        let mut seen: Vec<bool> = vec![false, false];
        let mut i: usize = 0;
        proof {
            assert(seen@ =~= Self::spec_start().1);
            assert(ves.skip(0) == ves);
        }
        while i < es.len()
            invariant
                j@ == JsonV::Object(ves),
                ves == view_entries(es@),
                ves.len() == es@.len(),
                i <= es.len(),
                seen@.len() == 2,
                fold_entries(Self::spec_start(), ves, Self::step_fn())
                    == fold_entries((m@, seen@), ves.skip(i as int), Self::step_fn()),
            decreases es.len() - i,
        {
            proof {
                lemma_view_entries_index(es@, i as int);
                lemma_fold_entries_step((m@, seen@), ves, i as int, Self::step_fn());
            }
            match Self::step(m, seen, &es[i].0, &es[i].1) {
                Ok((m2, seen2)) => {
                    m = m2;
                    seen = seen2;
                },
                Err(e) => return Err(e),
            }
            i = i + 1;
        }
        proof {
            assert(ves.skip(ves.len() as int) == Seq::<(Seq<char>, JsonV)>::empty());
            assert(fold_entries((m@, seen@), ves.skip(ves.len() as int), Self::step_fn())
                == Ok::<(CreateOrderV, Seq<bool>), JsonErrorV>((m@, seen@)));
        }
        Ok(m)
    }

    /// Reads an optional field of this message type.
    pub fn opt_from_json(v: &Json) -> (r: Result<Option<Self>, JsonError>)
        ensures
            match r {
                Ok(None) => Self::spec_read_opt(v@) == Ok::<Option<CreateOrderV>, JsonErrorV>(None),
                Ok(Some(x)) => Self::spec_read_opt(v@) == Ok::<Option<CreateOrderV>, JsonErrorV>(Some(x@)),
                Err(e) => Self::spec_read_opt(v@) == Err::<Option<CreateOrderV>, JsonErrorV>(e@),
            },
    {
        match v {
            Json::Null => Ok(None),
            _ => match Self::from_json(v) {
                Ok(x) => Ok(Some(x)),
                Err(e) => Err(e),
            },
        }
    }

    /// Reading the member that the field `market` writes sets the field.
    pub proof fn lemma_entry_market(m: CreateOrderV, st: (CreateOrderV, Seq<bool>))
        requires
            st.1.len() == 2,
            !st.1[0],
            st.0.market == Seq::<char>::empty(),
        ensures
            fold_entries(st, Self::spec_entry_market(m), Self::step_fn()) == Ok::<(CreateOrderV, Seq<bool>), JsonErrorV>((CreateOrderV { market: m.market, ..st.0 }, if m.market.len() != 0 { st.1.update(0, true) } else { st.1 })),
    {
        reveal_strlit("market");
        reveal_strlit("side");
        reveal_strlit("type");
        reveal_strlit("price");
        reveal_strlit("quantity");
        reveal_strlit("timeInForce");
        reveal_strlit("time_in_force");
        reveal_strlit("feeAsset");
        reveal_strlit("fee_asset");
        assert("market"@.len() == 6);
        assert("side"@.len() == 4);
        assert("type"@.len() == 4);
        assert("price"@.len() == 5);
        assert("quantity"@.len() == 8);
        assert("timeInForce"@.len() == 11);
        assert("time_in_force"@.len() == 13);
        assert("feeAsset"@.len() == 8);
        assert("fee_asset"@.len() == 9);
        assert("side"@[0] != "type"@[0]);
        assert("quantity"@[0] != "feeAsset"@[0]);
        if m.market.len() == 0 {
            assert(m.market =~= Seq::<char>::empty());
        }
        lemma_fold_entry_if(st, m.market.len() != 0, "market"@, JsonV::Str(m.market), Self::step_fn());
    }

    /// Reading the member that the field `side` writes sets the field.
    pub proof fn lemma_entry_side(m: CreateOrderV, st: (CreateOrderV, Seq<bool>))
        requires
            st.1.len() == 2,
            st.0.side is None,
            Self::spec_error_side(m) is None,
        ensures
            fold_entries(st, Self::spec_entry_side(m), Self::step_fn()) == Ok::<(CreateOrderV, Seq<bool>), JsonErrorV>((CreateOrderV { side: m.side, ..st.0 }, st.1)),
    {
        reveal_strlit("market");
        reveal_strlit("side");
        reveal_strlit("type");
        reveal_strlit("price");
        reveal_strlit("quantity");
        reveal_strlit("timeInForce");
        reveal_strlit("time_in_force");
        reveal_strlit("feeAsset");
        reveal_strlit("fee_asset");
        assert("market"@.len() == 6);
        assert("side"@.len() == 4);
        assert("type"@.len() == 4);
        assert("price"@.len() == 5);
        assert("quantity"@.len() == 8);
        assert("timeInForce"@.len() == 11);
        assert("time_in_force"@.len() == 13);
        assert("feeAsset"@.len() == 8);
        assert("fee_asset"@.len() == 9);
        assert("side"@[0] != "type"@[0]);
        assert("quantity"@[0] != "feeAsset"@[0]);
        if m.side is Some {
            OrderSide::lemma_json_roundtrip(m.side.unwrap());
        }
        lemma_fold_entry_if(st, m.side is Some, "side"@, OrderSide::spec_to_json(m.side.unwrap()), Self::step_fn());
    }

    /// Reading the member that the field `order_type` writes sets the field.
    pub proof fn lemma_entry_order_type(m: CreateOrderV, st: (CreateOrderV, Seq<bool>))
        requires
            st.1.len() == 2,
            st.0.order_type is None,
            Self::spec_error_order_type(m) is None,
        ensures
            fold_entries(st, Self::spec_entry_order_type(m), Self::step_fn()) == Ok::<(CreateOrderV, Seq<bool>), JsonErrorV>((CreateOrderV { order_type: m.order_type, ..st.0 }, st.1)),
    {
        reveal_strlit("market");
        reveal_strlit("side");
        reveal_strlit("type");
        reveal_strlit("price");
        reveal_strlit("quantity");
        reveal_strlit("timeInForce");
        reveal_strlit("time_in_force");
        reveal_strlit("feeAsset");
        reveal_strlit("fee_asset");
        assert("market"@.len() == 6);
        assert("side"@.len() == 4);
        assert("type"@.len() == 4);
        assert("price"@.len() == 5);
        assert("quantity"@.len() == 8);
        assert("timeInForce"@.len() == 11);
        assert("time_in_force"@.len() == 13);
        assert("feeAsset"@.len() == 8);
        assert("fee_asset"@.len() == 9);
        assert("side"@[0] != "type"@[0]);
        assert("quantity"@[0] != "feeAsset"@[0]);
        if m.order_type is Some {
            OrderType::lemma_json_roundtrip(m.order_type.unwrap());
        }
        lemma_fold_entry_if(st, m.order_type is Some, "type"@, OrderType::spec_to_json(m.order_type.unwrap()), Self::step_fn());
    }

    /// Reading the member that the field `price` writes sets the field.
    pub proof fn lemma_entry_price(m: CreateOrderV, st: (CreateOrderV, Seq<bool>))
        requires
            st.1.len() == 2,
            st.0.price is None,
        ensures
            fold_entries(st, Self::spec_entry_price(m), Self::step_fn()) == Ok::<(CreateOrderV, Seq<bool>), JsonErrorV>((CreateOrderV { price: m.price, ..st.0 }, st.1)),
    {
        reveal_strlit("market");
        reveal_strlit("side");
        reveal_strlit("type");
        reveal_strlit("price");
        reveal_strlit("quantity");
        reveal_strlit("timeInForce");
        reveal_strlit("time_in_force");
        reveal_strlit("feeAsset");
        reveal_strlit("fee_asset");
        assert("market"@.len() == 6);
        assert("side"@.len() == 4);
        assert("type"@.len() == 4);
        assert("price"@.len() == 5);
        assert("quantity"@.len() == 8);
        assert("timeInForce"@.len() == 11);
        assert("time_in_force"@.len() == 13);
        assert("feeAsset"@.len() == 8);
        assert("fee_asset"@.len() == 9);
        assert("side"@[0] != "type"@[0]);
        assert("quantity"@[0] != "feeAsset"@[0]);
        lemma_fold_entry_if(st, m.price is Some, "price"@, JsonV::Object(m.price.unwrap()), Self::step_fn());
    }

    /// Reading the member that the field `quantity` writes sets the field.
    pub proof fn lemma_entry_quantity(m: CreateOrderV, st: (CreateOrderV, Seq<bool>))
        requires
            st.1.len() == 2,
            st.0.quantity is None,
        ensures
            fold_entries(st, Self::spec_entry_quantity(m), Self::step_fn()) == Ok::<(CreateOrderV, Seq<bool>), JsonErrorV>((CreateOrderV { quantity: m.quantity, ..st.0 }, st.1)),
    {
        reveal_strlit("market");
        reveal_strlit("side");
        reveal_strlit("type");
        reveal_strlit("price");
        reveal_strlit("quantity");
        reveal_strlit("timeInForce");
        reveal_strlit("time_in_force");
        reveal_strlit("feeAsset");
        reveal_strlit("fee_asset");
        assert("market"@.len() == 6);
        assert("side"@.len() == 4);
        assert("type"@.len() == 4);
        assert("price"@.len() == 5);
        assert("quantity"@.len() == 8);
        assert("timeInForce"@.len() == 11);
        assert("time_in_force"@.len() == 13);
        assert("feeAsset"@.len() == 8);
        assert("fee_asset"@.len() == 9);
        assert("side"@[0] != "type"@[0]);
        assert("quantity"@[0] != "feeAsset"@[0]);
        lemma_fold_entry_if(st, m.quantity is Some, "quantity"@, JsonV::Object(m.quantity.unwrap()), Self::step_fn());
    }

    /// Reading the member that the field `time_in_force` writes sets the field.
    pub proof fn lemma_entry_time_in_force(m: CreateOrderV, st: (CreateOrderV, Seq<bool>))
        requires
            st.1.len() == 2,
            st.0.time_in_force is None,
            Self::spec_error_time_in_force(m) is None,
        ensures
            fold_entries(st, Self::spec_entry_time_in_force(m), Self::step_fn()) == Ok::<(CreateOrderV, Seq<bool>), JsonErrorV>((CreateOrderV { time_in_force: m.time_in_force, ..st.0 }, st.1)),
    {
        reveal_strlit("market");
        reveal_strlit("side");
        reveal_strlit("type");
        reveal_strlit("price");
        reveal_strlit("quantity");
        reveal_strlit("timeInForce");
        reveal_strlit("time_in_force");
        reveal_strlit("feeAsset");
        reveal_strlit("fee_asset");
        assert("market"@.len() == 6);
        assert("side"@.len() == 4);
        assert("type"@.len() == 4);
        assert("price"@.len() == 5);
        assert("quantity"@.len() == 8);
        assert("timeInForce"@.len() == 11);
        assert("time_in_force"@.len() == 13);
        assert("feeAsset"@.len() == 8);
        assert("fee_asset"@.len() == 9);
        assert("side"@[0] != "type"@[0]);
        assert("quantity"@[0] != "feeAsset"@[0]);
        if m.time_in_force is Some {
            OrderTimeInForce::lemma_json_roundtrip(m.time_in_force.unwrap());
        }
        lemma_fold_entry_if(st, m.time_in_force is Some, "timeInForce"@, OrderTimeInForce::spec_to_json(m.time_in_force.unwrap()), Self::step_fn());
    }

    /// Reading the member that the field `fee_asset` writes sets the field.
    pub proof fn lemma_entry_fee_asset(m: CreateOrderV, st: (CreateOrderV, Seq<bool>))
        requires
            st.1.len() == 2,
            !st.1[1],
            st.0.fee_asset == Seq::<char>::empty(),
        ensures
            fold_entries(st, Self::spec_entry_fee_asset(m), Self::step_fn()) == Ok::<(CreateOrderV, Seq<bool>), JsonErrorV>((CreateOrderV { fee_asset: m.fee_asset, ..st.0 }, if m.fee_asset.len() != 0 { st.1.update(1, true) } else { st.1 })),
    {
        reveal_strlit("market");
        reveal_strlit("side");
        reveal_strlit("type");
        reveal_strlit("price");
        reveal_strlit("quantity");
        reveal_strlit("timeInForce");
        reveal_strlit("time_in_force");
        reveal_strlit("feeAsset");
        reveal_strlit("fee_asset");
        assert("market"@.len() == 6);
        assert("side"@.len() == 4);
        assert("type"@.len() == 4);
        assert("price"@.len() == 5);
        assert("quantity"@.len() == 8);
        assert("timeInForce"@.len() == 11);
        assert("time_in_force"@.len() == 13);
        assert("feeAsset"@.len() == 8);
        assert("fee_asset"@.len() == 9);
        assert("side"@[0] != "type"@[0]);
        assert("quantity"@[0] != "feeAsset"@[0]);
        if m.fee_asset.len() == 0 {
            assert(m.fee_asset =~= Seq::<char>::empty());
        }
        lemma_fold_entry_if(st, m.fee_asset.len() != 0, "feeAsset"@, JsonV::Str(m.fee_asset), Self::step_fn());
    }

    /// The JSON spelling of a key: the protobuf name of a field becomes its JSON name;
    /// a JSON name, and any key that names no field, is left as it is.
    pub open spec fn spec_json_key(key: Seq<char>) -> Seq<char> {
        if key == "market"@ {
            "market"@
        } else if key == "side"@ {
            "side"@
        } else if key == "type"@ {
            "type"@
        } else if key == "price"@ {
            "price"@
        } else if key == "quantity"@ {
            "quantity"@
        } else if key == "timeInForce"@ || key == "time_in_force"@ {
            "timeInForce"@
        } else if key == "feeAsset"@ || key == "fee_asset"@ {
            "feeAsset"@
        } else {
            key
        }
    }

    /// [`Self::spec_json_key`] as a function value.
    pub open spec fn json_key_fn() -> spec_fn(Seq<char>) -> Seq<char> {
        |key: Seq<char>| Self::spec_json_key(key)
    }

    /// One member is read alike whichever spelling its key has.
    pub proof fn lemma_step_json_key(st: (CreateOrderV, Seq<bool>), key: Seq<char>, v: JsonV)
        ensures Self::spec_step(st, key, v) == Self::spec_step(st, Self::spec_json_key(key), v),
    {
        reveal_strlit("market");
        reveal_strlit("side");
        reveal_strlit("type");
        reveal_strlit("price");
        reveal_strlit("quantity");
        reveal_strlit("timeInForce");
        reveal_strlit("time_in_force");
        reveal_strlit("feeAsset");
        reveal_strlit("fee_asset");
        assert("market"@.len() == 6);
        assert("side"@.len() == 4);
        assert("type"@.len() == 4);
        assert("price"@.len() == 5);
        assert("quantity"@.len() == 8);
        assert("timeInForce"@.len() == 11);
        assert("time_in_force"@.len() == 13);
        assert("feeAsset"@.len() == 8);
        assert("fee_asset"@.len() == 9);
        assert("side"@[0] != "type"@[0]);
        assert("quantity"@[0] != "feeAsset"@[0]);
        if key == "time_in_force"@ {
            assert(Self::spec_json_key(key) == "timeInForce"@);
        }
        if key == "fee_asset"@ {
            assert(Self::spec_json_key(key) == "feeAsset"@);
        }
    }

    /// Reading an object gives the same result whichever spelling each of its keys has:
    /// two objects whose members hold the same values, in the same order, under keys of
    /// the same JSON spelling describe the same message, or are refused with the same error.
    pub proof fn lemma_key_spelling(es1: Seq<(Seq<char>, JsonV)>, es2: Seq<(Seq<char>, JsonV)>)
        requires
            es1.len() == es2.len(),
            forall|i: int| #![trigger es1[i], es2[i]] 0 <= i < es1.len() ==> es1[i].1 == es2[i].1 && Self::spec_json_key(es1[i].0) == Self::spec_json_key(es2[i].0),
        ensures Self::spec_from_json(JsonV::Object(es1)) == Self::spec_from_json(JsonV::Object(es2)),
    {
        assert forall|s: (CreateOrderV, Seq<bool>), k: Seq<char>, v: JsonV|
            #![trigger Self::step_fn()(s, k, v), Self::json_key_fn()(k)]
            Self::step_fn()(s, k, v) == Self::step_fn()(s, Self::json_key_fn()(k), v) by {
            Self::lemma_step_json_key(s, k, v);
        }
        lemma_fold_same_keys(Self::spec_start(), es1, es2, Self::step_fn(), Self::json_key_fn());
    }

    /// The keys of the object that the message writes: the JSON names of the fields that
    /// do not hold their default (for a oneof, the JSON name of the member set), in the
    /// order of the fields.
    pub open spec fn spec_written_keys(m: CreateOrderV) -> Seq<Seq<char>> {
        key_if(m.market.len() != 0, "market"@)
            + key_if(m.side is Some, "side"@)
            + key_if(m.order_type is Some, "type"@)
            + key_if(m.price is Some, "price"@)
            + key_if(m.quantity is Some, "quantity"@)
            + key_if(m.time_in_force is Some, "timeInForce"@)
            + key_if(m.fee_asset.len() != 0, "feeAsset"@)
    }

    /// The object that the message writes has exactly the keys of
    /// [`Self::spec_written_keys`], in that order.
    pub proof fn lemma_written_keys(m: CreateOrderV)
        ensures
            Self::spec_to_json(m) == JsonV::Object(Self::spec_entries(m)),
            entry_keys(Self::spec_entries(m)) == Self::spec_written_keys(m),
    {
        lemma_entry_keys_if(m.market.len() != 0, "market"@, JsonV::Str(m.market));
        lemma_entry_keys_append(Self::spec_entry_market(m), m.side is Some, "side"@, OrderSide::spec_to_json(m.side.unwrap()));
        lemma_entry_keys_append(Self::spec_entry_market(m) + Self::spec_entry_side(m), m.order_type is Some, "type"@, OrderType::spec_to_json(m.order_type.unwrap()));
        lemma_entry_keys_append(Self::spec_entry_market(m) + Self::spec_entry_side(m) + Self::spec_entry_order_type(m), m.price is Some, "price"@, JsonV::Object(m.price.unwrap()));
        lemma_entry_keys_append(Self::spec_entry_market(m) + Self::spec_entry_side(m) + Self::spec_entry_order_type(m) + Self::spec_entry_price(m), m.quantity is Some, "quantity"@, JsonV::Object(m.quantity.unwrap()));
        lemma_entry_keys_append(Self::spec_entry_market(m) + Self::spec_entry_side(m) + Self::spec_entry_order_type(m) + Self::spec_entry_price(m) + Self::spec_entry_quantity(m), m.time_in_force is Some, "timeInForce"@, OrderTimeInForce::spec_to_json(m.time_in_force.unwrap()));
        lemma_entry_keys_append(Self::spec_entry_market(m) + Self::spec_entry_side(m) + Self::spec_entry_order_type(m) + Self::spec_entry_price(m) + Self::spec_entry_quantity(m) + Self::spec_entry_time_in_force(m), m.fee_asset.len() != 0, "feeAsset"@, JsonV::Str(m.fee_asset));
    }

    /// Whether the field whose JSON name is `name` holds its default in `m`; for a member
    /// of a oneof, whether the oneof is set to another member or unset. `true` for a name
    /// that names no field.
    pub open spec fn spec_holds_default(m: CreateOrderV, name: Seq<char>) -> bool {
        if name == "market"@ {
            m.market == Seq::<char>::empty()
        } else if name == "side"@ {
            m.side is None
        } else if name == "type"@ {
            m.order_type is None
        } else if name == "price"@ {
            m.price is None
        } else if name == "quantity"@ {
            m.quantity is None
        } else if name == "timeInForce"@ {
            m.time_in_force is None
        } else if name == "feeAsset"@ {
            m.fee_asset == Seq::<char>::empty()
        } else {
            true
        }
    }

    /// Whether reading `v` for the field whose JSON name is `name` leaves the field at
    /// its default: `null`, for a field that takes it (a message field, a member of a
    /// oneof); nothing, for any other field. `true` for a name that names no field.
    pub open spec fn spec_leaves_default(name: Seq<char>, v: JsonV) -> bool {
        if name == "market"@ {
            false
        } else if name == "side"@ {
            v is Null
        } else if name == "type"@ {
            v is Null
        } else if name == "price"@ {
            v is Null
        } else if name == "quantity"@ {
            v is Null
        } else if name == "timeInForce"@ {
            v is Null
        } else if name == "feeAsset"@ {
            false
        } else {
            true
        }
    }

    /// Reading one member keeps a field at its default unless the key names the field
    /// and the value does not leave it there.
    pub proof fn lemma_step_keeps_default(st: (CreateOrderV, Seq<bool>), key: Seq<char>, v: JsonV, name: Seq<char>)
        requires
            Self::spec_holds_default(st.0, name),
            Self::spec_json_key(key) == name ==> Self::spec_leaves_default(name, v),
        ensures
            Self::spec_step(st, key, v) is Ok ==> Self::spec_holds_default(Self::spec_step(st, key, v)->Ok_0.0, name),
    {
        reveal_strlit("market");
        reveal_strlit("side");
        reveal_strlit("type");
        reveal_strlit("price");
        reveal_strlit("quantity");
        reveal_strlit("timeInForce");
        reveal_strlit("time_in_force");
        reveal_strlit("feeAsset");
        reveal_strlit("fee_asset");
        assert("market"@.len() == 6);
        assert("side"@.len() == 4);
        assert("type"@.len() == 4);
        assert("price"@.len() == 5);
        assert("quantity"@.len() == 8);
        assert("timeInForce"@.len() == 11);
        assert("time_in_force"@.len() == 13);
        assert("feeAsset"@.len() == 8);
        assert("fee_asset"@.len() == 9);
        assert("side"@[0] != "type"@[0]);
        assert("quantity"@[0] != "feeAsset"@[0]);
        Self::lemma_step_json_key(st, key, v);
    }

    /// A field whose key appears in no member of an object, or only with values that
    /// leave it at its default (`null`, for a field that takes it), holds its default in
    /// the message that the object describes.
    pub proof fn lemma_absent_default(es: Seq<(Seq<char>, JsonV)>, name: Seq<char>)
        requires
            forall|i: int| 0 <= i < es.len() ==> (Self::spec_json_key((#[trigger] es[i]).0) == name
                ==> Self::spec_leaves_default(name, es[i].1)),
        ensures
            Self::spec_from_json(JsonV::Object(es)) is Ok
                ==> Self::spec_holds_default(Self::spec_from_json(JsonV::Object(es))->Ok_0, name),
    {
        let inv = |s: (CreateOrderV, Seq<bool>)| Self::spec_holds_default(s.0, name);
        let allowed = |k: Seq<char>, v: JsonV| Self::spec_json_key(k) == name ==> Self::spec_leaves_default(name, v);
        assert forall|s: (CreateOrderV, Seq<bool>), k: Seq<char>, v: JsonV| #![trigger Self::step_fn()(s, k, v)]
            inv(s) && allowed(k, v) && Self::step_fn()(s, k, v) is Ok implies inv(Self::step_fn()(s, k, v)->Ok_0) by {
            Self::lemma_step_keeps_default(s, k, v, name);
        }
        assert(inv(Self::spec_start()));
        lemma_fold_keeps(Self::spec_start(), es, Self::step_fn(), inv, allowed);
    }

    /// The field `market` alone: an object with one member under its JSON or protobuf
    /// name reads as the message with that field set and every other field at its
    /// default, and the message with only that field off its default writes that
    /// one member under the JSON name.
    pub proof fn lemma_field_market(s: Seq<char>)
        ensures
            Self::spec_from_json(JsonV::Object(seq![("market"@, JsonV::Str(s))])) == Ok::<CreateOrderV, JsonErrorV>(CreateOrderV { market: s, ..Self::spec_default() }),
            s.len() > 0 ==> Self::spec_to_json(CreateOrderV { market: s, ..Self::spec_default() }) == JsonV::Object(seq![("market"@, JsonV::Str(s))]),
    {
        reveal_strlit("market");
        reveal_strlit("side");
        reveal_strlit("type");
        reveal_strlit("price");
        reveal_strlit("quantity");
        reveal_strlit("timeInForce");
        reveal_strlit("time_in_force");
        reveal_strlit("feeAsset");
        reveal_strlit("fee_asset");
        assert("market"@.len() == 6);
        assert("side"@.len() == 4);
        assert("type"@.len() == 4);
        assert("price"@.len() == 5);
        assert("quantity"@.len() == 8);
        assert("timeInForce"@.len() == 11);
        assert("time_in_force"@.len() == 13);
        assert("feeAsset"@.len() == 8);
        assert("fee_asset"@.len() == 9);
        assert("side"@[0] != "type"@[0]);
        assert("quantity"@[0] != "feeAsset"@[0]);
        lemma_fold_entry_if(Self::spec_start(), true, "market"@, JsonV::Str(s), Self::step_fn());
    }

    /// The field `side` alone: an object with one member under its JSON or protobuf
    /// name reads as the message with that field set and every other field at its
    /// default, and the message with only that field off its default writes that
    /// one member under the JSON name.
    pub proof fn lemma_field_side(x: OrderSideV, es: Seq<(Seq<char>, JsonV)>)
        ensures
            Self::spec_from_json(JsonV::Object(seq![("side"@, JsonV::Object(es))])) == (match OrderSide::spec_from_json(JsonV::Object(es)) { Ok(y) => Ok::<CreateOrderV, JsonErrorV>(CreateOrderV { side: Some(y), ..Self::spec_default() }), Err(e) => Err(e) }),
            Self::spec_from_json(JsonV::Object(seq![("side"@, JsonV::Null)])) == Ok::<CreateOrderV, JsonErrorV>(Self::spec_default()),
            Self::spec_to_json(CreateOrderV { side: Some(x), ..Self::spec_default() }) == JsonV::Object(seq![("side"@, OrderSide::spec_to_json(x))]),
    {
        reveal_strlit("market");
        reveal_strlit("side");
        reveal_strlit("type");
        reveal_strlit("price");
        reveal_strlit("quantity");
        reveal_strlit("timeInForce");
        reveal_strlit("time_in_force");
        reveal_strlit("feeAsset");
        reveal_strlit("fee_asset");
        assert("market"@.len() == 6);
        assert("side"@.len() == 4);
        assert("type"@.len() == 4);
        assert("price"@.len() == 5);
        assert("quantity"@.len() == 8);
        assert("timeInForce"@.len() == 11);
        assert("time_in_force"@.len() == 13);
        assert("feeAsset"@.len() == 8);
        assert("fee_asset"@.len() == 9);
        assert("side"@[0] != "type"@[0]);
        assert("quantity"@[0] != "feeAsset"@[0]);
        lemma_fold_entry_if(Self::spec_start(), true, "side"@, JsonV::Object(es), Self::step_fn());
        lemma_fold_entry_if(Self::spec_start(), true, "side"@, JsonV::Null, Self::step_fn());
    }

    /// The field `type` alone: an object with one member under its JSON or protobuf
    /// name reads as the message with that field set and every other field at its
    /// default, and the message with only that field off its default writes that
    /// one member under the JSON name.
    pub proof fn lemma_field_order_type(x: OrderTypeV, es: Seq<(Seq<char>, JsonV)>)
        ensures
            Self::spec_from_json(JsonV::Object(seq![("type"@, JsonV::Object(es))])) == (match OrderType::spec_from_json(JsonV::Object(es)) { Ok(y) => Ok::<CreateOrderV, JsonErrorV>(CreateOrderV { order_type: Some(y), ..Self::spec_default() }), Err(e) => Err(e) }),
            Self::spec_from_json(JsonV::Object(seq![("type"@, JsonV::Null)])) == Ok::<CreateOrderV, JsonErrorV>(Self::spec_default()),
            Self::spec_to_json(CreateOrderV { order_type: Some(x), ..Self::spec_default() }) == JsonV::Object(seq![("type"@, OrderType::spec_to_json(x))]),
    {
        reveal_strlit("market");
        reveal_strlit("side");
        reveal_strlit("type");
        reveal_strlit("price");
        reveal_strlit("quantity");
        reveal_strlit("timeInForce");
        reveal_strlit("time_in_force");
        reveal_strlit("feeAsset");
        reveal_strlit("fee_asset");
        assert("market"@.len() == 6);
        assert("side"@.len() == 4);
        assert("type"@.len() == 4);
        assert("price"@.len() == 5);
        assert("quantity"@.len() == 8);
        assert("timeInForce"@.len() == 11);
        assert("time_in_force"@.len() == 13);
        assert("feeAsset"@.len() == 8);
        assert("fee_asset"@.len() == 9);
        assert("side"@[0] != "type"@[0]);
        assert("quantity"@[0] != "feeAsset"@[0]);
        lemma_fold_entry_if(Self::spec_start(), true, "type"@, JsonV::Object(es), Self::step_fn());
        lemma_fold_entry_if(Self::spec_start(), true, "type"@, JsonV::Null, Self::step_fn());
    }

    /// The field `price` alone: an object with one member under its JSON or protobuf
    /// name reads as the message with that field set and every other field at its
    /// default, and the message with only that field off its default writes that
    /// one member under the JSON name.
    pub proof fn lemma_field_price(es: Seq<(Seq<char>, JsonV)>)
        ensures
            Self::spec_from_json(JsonV::Object(seq![("price"@, JsonV::Object(es))])) == Ok::<CreateOrderV, JsonErrorV>(CreateOrderV { price: Some(es), ..Self::spec_default() }),
            Self::spec_from_json(JsonV::Object(seq![("price"@, JsonV::Null)])) == Ok::<CreateOrderV, JsonErrorV>(Self::spec_default()),
            Self::spec_to_json(CreateOrderV { price: Some(es), ..Self::spec_default() }) == JsonV::Object(seq![("price"@, JsonV::Object(es))]),
    {
        reveal_strlit("market");
        reveal_strlit("side");
        reveal_strlit("type");
        reveal_strlit("price");
        reveal_strlit("quantity");
        reveal_strlit("timeInForce");
        reveal_strlit("time_in_force");
        reveal_strlit("feeAsset");
        reveal_strlit("fee_asset");
        assert("market"@.len() == 6);
        assert("side"@.len() == 4);
        assert("type"@.len() == 4);
        assert("price"@.len() == 5);
        assert("quantity"@.len() == 8);
        assert("timeInForce"@.len() == 11);
        assert("time_in_force"@.len() == 13);
        assert("feeAsset"@.len() == 8);
        assert("fee_asset"@.len() == 9);
        assert("side"@[0] != "type"@[0]);
        assert("quantity"@[0] != "feeAsset"@[0]);
        lemma_fold_entry_if(Self::spec_start(), true, "price"@, JsonV::Object(es), Self::step_fn());
        lemma_fold_entry_if(Self::spec_start(), true, "price"@, JsonV::Null, Self::step_fn());
    }

    /// The field `quantity` alone: an object with one member under its JSON or protobuf
    /// name reads as the message with that field set and every other field at its
    /// default, and the message with only that field off its default writes that
    /// one member under the JSON name.
    pub proof fn lemma_field_quantity(es: Seq<(Seq<char>, JsonV)>)
        ensures
            Self::spec_from_json(JsonV::Object(seq![("quantity"@, JsonV::Object(es))])) == Ok::<CreateOrderV, JsonErrorV>(CreateOrderV { quantity: Some(es), ..Self::spec_default() }),
            Self::spec_from_json(JsonV::Object(seq![("quantity"@, JsonV::Null)])) == Ok::<CreateOrderV, JsonErrorV>(Self::spec_default()),
            Self::spec_to_json(CreateOrderV { quantity: Some(es), ..Self::spec_default() }) == JsonV::Object(seq![("quantity"@, JsonV::Object(es))]),
    {
        reveal_strlit("market");
        reveal_strlit("side");
        reveal_strlit("type");
        reveal_strlit("price");
        reveal_strlit("quantity");
        reveal_strlit("timeInForce");
        reveal_strlit("time_in_force");
        reveal_strlit("feeAsset");
        reveal_strlit("fee_asset");
        assert("market"@.len() == 6);
        assert("side"@.len() == 4);
        assert("type"@.len() == 4);
        assert("price"@.len() == 5);
        assert("quantity"@.len() == 8);
        assert("timeInForce"@.len() == 11);
        assert("time_in_force"@.len() == 13);
        assert("feeAsset"@.len() == 8);
        assert("fee_asset"@.len() == 9);
        assert("side"@[0] != "type"@[0]);
        assert("quantity"@[0] != "feeAsset"@[0]);
        lemma_fold_entry_if(Self::spec_start(), true, "quantity"@, JsonV::Object(es), Self::step_fn());
        lemma_fold_entry_if(Self::spec_start(), true, "quantity"@, JsonV::Null, Self::step_fn());
    }

    /// The field `time_in_force` alone: an object with one member under its JSON or protobuf
    /// name reads as the message with that field set and every other field at its
    /// default, and the message with only that field off its default writes that
    /// one member under the JSON name.
    pub proof fn lemma_field_time_in_force(x: OrderTimeInForceV, es: Seq<(Seq<char>, JsonV)>)
        ensures
            Self::spec_from_json(JsonV::Object(seq![("timeInForce"@, JsonV::Object(es))])) == (match OrderTimeInForce::spec_from_json(JsonV::Object(es)) { Ok(y) => Ok::<CreateOrderV, JsonErrorV>(CreateOrderV { time_in_force: Some(y), ..Self::spec_default() }), Err(e) => Err(e) }),
            Self::spec_from_json(JsonV::Object(seq![("timeInForce"@, JsonV::Null)])) == Ok::<CreateOrderV, JsonErrorV>(Self::spec_default()),
            Self::spec_from_json(JsonV::Object(seq![("time_in_force"@, JsonV::Object(es))])) == (match OrderTimeInForce::spec_from_json(JsonV::Object(es)) { Ok(y) => Ok::<CreateOrderV, JsonErrorV>(CreateOrderV { time_in_force: Some(y), ..Self::spec_default() }), Err(e) => Err(e) }),
            Self::spec_from_json(JsonV::Object(seq![("time_in_force"@, JsonV::Null)])) == Ok::<CreateOrderV, JsonErrorV>(Self::spec_default()),
            Self::spec_to_json(CreateOrderV { time_in_force: Some(x), ..Self::spec_default() }) == JsonV::Object(seq![("timeInForce"@, OrderTimeInForce::spec_to_json(x))]),
    {
        reveal_strlit("market");
        reveal_strlit("side");
        reveal_strlit("type");
        reveal_strlit("price");
        reveal_strlit("quantity");
        reveal_strlit("timeInForce");
        reveal_strlit("time_in_force");
        reveal_strlit("feeAsset");
        reveal_strlit("fee_asset");
        assert("market"@.len() == 6);
        assert("side"@.len() == 4);
        assert("type"@.len() == 4);
        assert("price"@.len() == 5);
        assert("quantity"@.len() == 8);
        assert("timeInForce"@.len() == 11);
        assert("time_in_force"@.len() == 13);
        assert("feeAsset"@.len() == 8);
        assert("fee_asset"@.len() == 9);
        assert("side"@[0] != "type"@[0]);
        assert("quantity"@[0] != "feeAsset"@[0]);
        lemma_fold_entry_if(Self::spec_start(), true, "timeInForce"@, JsonV::Object(es), Self::step_fn());
        lemma_fold_entry_if(Self::spec_start(), true, "timeInForce"@, JsonV::Null, Self::step_fn());
        lemma_fold_entry_if(Self::spec_start(), true, "time_in_force"@, JsonV::Object(es), Self::step_fn());
        lemma_fold_entry_if(Self::spec_start(), true, "time_in_force"@, JsonV::Null, Self::step_fn());
    }

    /// The field `fee_asset` alone: an object with one member under its JSON or protobuf
    /// name reads as the message with that field set and every other field at its
    /// default, and the message with only that field off its default writes that
    /// one member under the JSON name.
    pub proof fn lemma_field_fee_asset(s: Seq<char>)
        ensures
            Self::spec_from_json(JsonV::Object(seq![("feeAsset"@, JsonV::Str(s))])) == Ok::<CreateOrderV, JsonErrorV>(CreateOrderV { fee_asset: s, ..Self::spec_default() }),
            Self::spec_from_json(JsonV::Object(seq![("fee_asset"@, JsonV::Str(s))])) == Ok::<CreateOrderV, JsonErrorV>(CreateOrderV { fee_asset: s, ..Self::spec_default() }),
            s.len() > 0 ==> Self::spec_to_json(CreateOrderV { fee_asset: s, ..Self::spec_default() }) == JsonV::Object(seq![("feeAsset"@, JsonV::Str(s))]),
    {
        reveal_strlit("market");
        reveal_strlit("side");
        reveal_strlit("type");
        reveal_strlit("price");
        reveal_strlit("quantity");
        reveal_strlit("timeInForce");
        reveal_strlit("time_in_force");
        reveal_strlit("feeAsset");
        reveal_strlit("fee_asset");
        assert("market"@.len() == 6);
        assert("side"@.len() == 4);
        assert("type"@.len() == 4);
        assert("price"@.len() == 5);
        assert("quantity"@.len() == 8);
        assert("timeInForce"@.len() == 11);
        assert("time_in_force"@.len() == 13);
        assert("feeAsset"@.len() == 8);
        assert("fee_asset"@.len() == 9);
        assert("side"@[0] != "type"@[0]);
        assert("quantity"@[0] != "feeAsset"@[0]);
        lemma_fold_entry_if(Self::spec_start(), true, "feeAsset"@, JsonV::Str(s), Self::step_fn());
        lemma_fold_entry_if(Self::spec_start(), true, "fee_asset"@, JsonV::Str(s), Self::step_fn());
    }

    /// Reading back the JSON object of a message gives the message.
    pub proof fn lemma_json_roundtrip(m: CreateOrderV)
        requires
            Self::spec_encode_error(m) is None,
        ensures Self::spec_from_json(Self::spec_to_json(m)) == Ok::<CreateOrderV, JsonErrorV>(m),
    {
        let step = Self::step_fn();
        let s0 = Self::spec_start();
        let s1 = (CreateOrderV { market: m.market, ..s0.0 }, if m.market.len() != 0 { s0.1.update(0, true) } else { s0.1 });
        Self::lemma_entry_market(m, s0);
        let s2 = (CreateOrderV { side: m.side, ..s1.0 }, s1.1);
        Self::lemma_entry_side(m, s1);
        let s3 = (CreateOrderV { order_type: m.order_type, ..s2.0 }, s2.1);
        Self::lemma_entry_order_type(m, s2);
        let s4 = (CreateOrderV { price: m.price, ..s3.0 }, s3.1);
        Self::lemma_entry_price(m, s3);
        let s5 = (CreateOrderV { quantity: m.quantity, ..s4.0 }, s4.1);
        Self::lemma_entry_quantity(m, s4);
        let s6 = (CreateOrderV { time_in_force: m.time_in_force, ..s5.0 }, s5.1);
        Self::lemma_entry_time_in_force(m, s5);
        let s7 = (CreateOrderV { fee_asset: m.fee_asset, ..s6.0 }, if m.fee_asset.len() != 0 { s6.1.update(1, true) } else { s6.1 });
        Self::lemma_entry_fee_asset(m, s6);
        let p1 = Self::spec_entry_market(m);
        let p2 = p1 + Self::spec_entry_side(m);
        lemma_fold_entries_append(s0, p1, Self::spec_entry_side(m), step);
        let p3 = p2 + Self::spec_entry_order_type(m);
        lemma_fold_entries_append(s0, p2, Self::spec_entry_order_type(m), step);
        let p4 = p3 + Self::spec_entry_price(m);
        lemma_fold_entries_append(s0, p3, Self::spec_entry_price(m), step);
        let p5 = p4 + Self::spec_entry_quantity(m);
        lemma_fold_entries_append(s0, p4, Self::spec_entry_quantity(m), step);
        let p6 = p5 + Self::spec_entry_time_in_force(m);
        lemma_fold_entries_append(s0, p5, Self::spec_entry_time_in_force(m), step);
        let p7 = p6 + Self::spec_entry_fee_asset(m);
        lemma_fold_entries_append(s0, p6, Self::spec_entry_fee_asset(m), step);
        assert(s7.0 == m);
    }
}

/// The `astria.protocol.transaction.v1.CurrencyPairs` message.
#[derive(Clone, Debug, PartialEq)]
pub struct CurrencyPairs {
    pub pairs: Vec<CurrencyPair>,
}

/// The mathematical content of a [`CurrencyPairs`].
pub struct CurrencyPairsV {
    pub pairs: Seq<Seq<(Seq<char>, JsonV)>>,
}

impl View for CurrencyPairs {
    type V = CurrencyPairsV;

    open spec fn view(&self) -> CurrencyPairsV {
        CurrencyPairsV {
            pairs: embeddeds_view(self.pairs@),
        }
    }
}

impl Default for CurrencyPairs {
    fn default() -> (r: Self)
        ensures r@ == CurrencyPairs::spec_default(),
    {
        let r = CurrencyPairs {
            pairs: Vec::new(),
        };
        proof {
            assert(embeddeds_view(r.pairs@) =~= Seq::<Seq<(Seq<char>, JsonV)>>::empty());
        }
        r
    }
}

impl CurrencyPairs {
    /// The fully qualified protobuf name of the message.
    pub fn full_name() -> (r: String)
        ensures r@ == "astria.protocol.transaction.v1.CurrencyPairs"@,
    {
        "astria.protocol.transaction.v1.CurrencyPairs".to_string()
    }

    /// Every field at its default: empty strings, bytes and lists, zero, `false`, unset.
    pub open spec fn spec_default() -> CurrencyPairsV {
        CurrencyPairsV {
            pairs: Seq::<Seq<(Seq<char>, JsonV)>>::empty(),
        }
    }

    /// The view of an optional field of this message type.
    pub open spec fn view_opt(o: Option<Self>) -> Option<CurrencyPairsV> {
        match o {
            Some(x) => Some(x@),
            None => None,
        }
    }

    /// The view of a repeated field of this message type.
    pub open spec fn view_list(v: Seq<Self>) -> Seq<CurrencyPairsV> {
        v.map_values(|x: Self| x@)
    }

    /// The member that the field `pairs` writes: none where it holds its default.
    pub open spec fn spec_entry_pairs(m: CurrencyPairsV) -> Seq<(Seq<char>, JsonV)> {
        entry_if(m.pairs.len() != 0, "pairs"@, JsonV::Array(m.pairs.map_values(embedded_writer())))
    }

    /// The members of the JSON object of the message: each field that does not hold
    /// its default, under its JSON name, in the order of the fields.
    pub open spec fn spec_entries(m: CurrencyPairsV) -> Seq<(Seq<char>, JsonV)> {
        Self::spec_entry_pairs(m)
    }

    /// The JSON object that the protobuf JSON mapping writes for the message.
    pub open spec fn spec_to_json(m: CurrencyPairsV) -> JsonV {
        JsonV::Object(Self::spec_entries(m))
    }

    /// [`Self::spec_to_json`] as a function value, for repeated fields.
    pub open spec fn writer() -> spec_fn(CurrencyPairsV) -> JsonV {
        |m: CurrencyPairsV| Self::spec_to_json(m)
    }

    fn write_pairs(&self, es: &mut Vec<(String, Json)>)
        ensures
            view_entries(final(es)@) == view_entries(old(es)@) + Self::spec_entry_pairs(self@),
    {
        if self.pairs.len() != 0 {
            push_entry(es, "pairs", embeddeds_value(&self.pairs));
        }
        assert(view_entries(es@) =~= view_entries(old(es)@) + Self::spec_entry_pairs(self@));
    }

    /// Writes the message as a JSON object; reading it back gives the message.
    pub fn to_json(&self) -> (r: Json)
        ensures
            r@ == Self::spec_to_json(self@),
            Self::spec_from_json(r@) == Ok::<CurrencyPairsV, JsonErrorV>(self@),
    {
        let mut es: Vec<(String, Json)> = Vec::new();
        let ghost mut acc: Seq<(Seq<char>, JsonV)> = Seq::empty();
        proof {
            assert(view_entries(es@) =~= acc);
        }
        self.write_pairs(&mut es);
        proof {
            acc = acc + Self::spec_entry_pairs(self@);
        }
        proof {
            assert(acc =~= Self::spec_entries(self@));
            Self::lemma_json_roundtrip(self@);
        }
        Json::Object(es)
    }

    /// Reads one member of the object into the message under construction; `seen`
    /// records which fields that have no unset state were already given.
    pub open spec fn spec_step(st: (CurrencyPairsV, Seq<bool>), key: Seq<char>, v: JsonV) -> Result<(CurrencyPairsV, Seq<bool>), JsonErrorV> {
        let m = st.0;
        let seen = st.1;
        if key == "pairs"@ {
            if seen[0] {
                Err(JsonErrorV::DuplicateField("pairs"@))
            } else {
                match read_array(v, embedded_reader()) {
                    Ok(x) => Ok((CurrencyPairsV { pairs: x }, seen.update(0, true))),
                    Err(e) => Err(e),
                }
            }
        } else {
            Err(JsonErrorV::UnknownField(key))
        }
    }

    /// [`Self::spec_step`] as a function value.
    pub open spec fn step_fn() -> spec_fn((CurrencyPairsV, Seq<bool>), Seq<char>, JsonV) -> Result<(CurrencyPairsV, Seq<bool>), JsonErrorV> {
        |st: (CurrencyPairsV, Seq<bool>), key: Seq<char>, v: JsonV| Self::spec_step(st, key, v)
    }

    /// The state before the first member is read: the default message, no field seen.
    pub open spec fn spec_start() -> (CurrencyPairsV, Seq<bool>) {
        (Self::spec_default(), seq![false])
    }

    /// The message that a JSON value describes: an object whose keys each name a field
    /// (by its JSON name or its protobuf name), at most once each; fields that are not
    /// given keep their default. The first member that is refused gives the error.
    pub open spec fn spec_from_json(j: JsonV) -> Result<CurrencyPairsV, JsonErrorV> {
        match j {
            JsonV::Object(es) => match fold_entries(Self::spec_start(), es, Self::step_fn()) {
                Ok(st) => Ok(st.0),
                Err(e) => Err(e),
            },
            _ => Err(JsonErrorV::ExpectedObject),
        }
    }

    /// [`Self::spec_from_json`] as a function value, for repeated fields.
    pub open spec fn reader() -> spec_fn(JsonV) -> Result<CurrencyPairsV, JsonErrorV> {
        |v: JsonV| Self::spec_from_json(v)
    }

    /// An optional field of this message type: `null` leaves it unset.
    pub open spec fn spec_read_opt(v: JsonV) -> Result<Option<CurrencyPairsV>, JsonErrorV> {
        match v {
            JsonV::Null => Ok(None),
            _ => match Self::spec_from_json(v) {
                Ok(x) => Ok(Some(x)),
                Err(e) => Err(e),
            },
        }
    }

    fn step(m: Self, seen: Vec<bool>, key: &String, v: &Json) -> (r: Result<(Self, Vec<bool>), JsonError>)
        requires seen@.len() == 1,
        ensures
            match r {
                Ok((m2, seen2)) => Self::spec_step((m@, seen@), key@, v@) == Ok::<(CurrencyPairsV, Seq<bool>), JsonErrorV>((m2@, seen2@)) && seen2@.len() == 1,
                Err(e) => Self::spec_step((m@, seen@), key@, v@) == Err::<(CurrencyPairsV, Seq<bool>), JsonErrorV>(e@),
            },
    {
        let mut m = m;
        let mut seen = seen;
        let k = key.as_str();
        if str_eq(k, "pairs") {
            if seen[0] {
                return Err(JsonError::DuplicateField("pairs".to_string()));
            }
            match embeddeds_field(v) {
                Ok(x) => m.pairs = x,
                Err(e) => return Err(e),
            }
            seen.set(0, true);
        } else {
            return Err(JsonError::UnknownField(key.clone()));
        }
        Ok((m, seen))
    }

    /// Reads the message from a JSON value, as [`Self::spec_from_json`] describes.
    pub fn from_json(j: &Json) -> (r: Result<Self, JsonError>)
        ensures
            match r {
                Ok(m) => Self::spec_from_json(j@) == Ok::<CurrencyPairsV, JsonErrorV>(m@),
                Err(e) => Self::spec_from_json(j@) == Err::<CurrencyPairsV, JsonErrorV>(e@),
            },
    {
        let es = match j {
            Json::Object(es) => es,
            _ => return Err(JsonError::ExpectedObject),
        };
        let ghost ves = view_entries(es@);
        proof {
            lemma_view_entries_len(es@);
            assert(j@ == JsonV::Object(ves));
        }
        let mut m = Self::default();
        let mut seen: Vec<bool> = vec![false];
        let mut i: usize = 0;
        proof {
            assert(seen@ =~= Self::spec_start().1);
            assert(ves.skip(0) == ves);
        }
        while i < es.len()
            invariant
                j@ == JsonV::Object(ves),
                ves == view_entries(es@),
                ves.len() == es@.len(),
                i <= es.len(),
                seen@.len() == 1,
                fold_entries(Self::spec_start(), ves, Self::step_fn())
                    == fold_entries((m@, seen@), ves.skip(i as int), Self::step_fn()),
            decreases es.len() - i,
        {
            proof {
                lemma_view_entries_index(es@, i as int);
                lemma_fold_entries_step((m@, seen@), ves, i as int, Self::step_fn());
            }
            match Self::step(m, seen, &es[i].0, &es[i].1) {
                Ok((m2, seen2)) => {
                    m = m2;
                    seen = seen2;
                },
                Err(e) => return Err(e),
            }
            i = i + 1;
        }
        proof {
            assert(ves.skip(ves.len() as int) == Seq::<(Seq<char>, JsonV)>::empty());
            assert(fold_entries((m@, seen@), ves.skip(ves.len() as int), Self::step_fn())
                == Ok::<(CurrencyPairsV, Seq<bool>), JsonErrorV>((m@, seen@)));
        }
        Ok(m)
    }

    /// Reads an optional field of this message type.
    pub fn opt_from_json(v: &Json) -> (r: Result<Option<Self>, JsonError>)
        ensures
            match r {
                Ok(None) => Self::spec_read_opt(v@) == Ok::<Option<CurrencyPairsV>, JsonErrorV>(None),
                Ok(Some(x)) => Self::spec_read_opt(v@) == Ok::<Option<CurrencyPairsV>, JsonErrorV>(Some(x@)),
                Err(e) => Self::spec_read_opt(v@) == Err::<Option<CurrencyPairsV>, JsonErrorV>(e@),
            },
    {
        match v {
            Json::Null => Ok(None),
            _ => match Self::from_json(v) {
                Ok(x) => Ok(Some(x)),
                Err(e) => Err(e),
            },
        }
    }

    /// Reading the member that the field `pairs` writes sets the field.
    pub proof fn lemma_entry_pairs(m: CurrencyPairsV, st: (CurrencyPairsV, Seq<bool>))
        requires
            st.1.len() == 1,
            !st.1[0],
            st.0.pairs == Seq::<Seq<(Seq<char>, JsonV)>>::empty(),
        ensures
            fold_entries(st, Self::spec_entry_pairs(m), Self::step_fn()) == Ok::<(CurrencyPairsV, Seq<bool>), JsonErrorV>((CurrencyPairsV { pairs: m.pairs }, if m.pairs.len() != 0 { st.1.update(0, true) } else { st.1 })),
    {
        reveal_strlit("pairs");
        assert("pairs"@.len() == 5);
        if m.pairs.len() == 0 {
            assert(m.pairs =~= Seq::<Seq<(Seq<char>, JsonV)>>::empty());
        }
        assert forall|i: int| 0 <= i < m.pairs.len() implies embedded_reader()(embedded_writer()(#[trigger] m.pairs[i])) == Ok::<Seq<(Seq<char>, JsonV)>, JsonErrorV>(m.pairs[i]) by {}
        lemma_read_list_roundtrip(m.pairs, embedded_writer(), embedded_reader());
        lemma_fold_entry_if(st, m.pairs.len() != 0, "pairs"@, JsonV::Array(m.pairs.map_values(embedded_writer())), Self::step_fn());
    }

    /// The JSON spelling of a key: the protobuf name of a field becomes its JSON name;
    /// a JSON name, and any key that names no field, is left as it is.
    pub open spec fn spec_json_key(key: Seq<char>) -> Seq<char> {
        if key == "pairs"@ {
            "pairs"@
        } else {
            key
        }
    }

    /// [`Self::spec_json_key`] as a function value.
    pub open spec fn json_key_fn() -> spec_fn(Seq<char>) -> Seq<char> {
        |key: Seq<char>| Self::spec_json_key(key)
    }

    /// One member is read alike whichever spelling its key has.
    pub proof fn lemma_step_json_key(st: (CurrencyPairsV, Seq<bool>), key: Seq<char>, v: JsonV)
        ensures Self::spec_step(st, key, v) == Self::spec_step(st, Self::spec_json_key(key), v),
    {
        reveal_strlit("pairs");
        assert("pairs"@.len() == 5);
    }

    /// Reading an object gives the same result whichever spelling each of its keys has:
    /// two objects whose members hold the same values, in the same order, under keys of
    /// the same JSON spelling describe the same message, or are refused with the same error.
    pub proof fn lemma_key_spelling(es1: Seq<(Seq<char>, JsonV)>, es2: Seq<(Seq<char>, JsonV)>)
        requires
            es1.len() == es2.len(),
            forall|i: int| #![trigger es1[i], es2[i]] 0 <= i < es1.len() ==> es1[i].1 == es2[i].1 && Self::spec_json_key(es1[i].0) == Self::spec_json_key(es2[i].0),
        ensures Self::spec_from_json(JsonV::Object(es1)) == Self::spec_from_json(JsonV::Object(es2)),
    {
        assert forall|s: (CurrencyPairsV, Seq<bool>), k: Seq<char>, v: JsonV|
            #![trigger Self::step_fn()(s, k, v), Self::json_key_fn()(k)]
            Self::step_fn()(s, k, v) == Self::step_fn()(s, Self::json_key_fn()(k), v) by {
            Self::lemma_step_json_key(s, k, v);
        }
        lemma_fold_same_keys(Self::spec_start(), es1, es2, Self::step_fn(), Self::json_key_fn());
    }

    /// The keys of the object that the message writes: the JSON names of the fields that
    /// do not hold their default (for a oneof, the JSON name of the member set), in the
    /// order of the fields.
    pub open spec fn spec_written_keys(m: CurrencyPairsV) -> Seq<Seq<char>> {
        key_if(m.pairs.len() != 0, "pairs"@)
    }

    /// The object that the message writes has exactly the keys of
    /// [`Self::spec_written_keys`], in that order.
    pub proof fn lemma_written_keys(m: CurrencyPairsV)
        ensures
            Self::spec_to_json(m) == JsonV::Object(Self::spec_entries(m)),
            entry_keys(Self::spec_entries(m)) == Self::spec_written_keys(m),
    {
        lemma_entry_keys_if(m.pairs.len() != 0, "pairs"@, JsonV::Array(m.pairs.map_values(embedded_writer())));
    }

    /// Whether the field whose JSON name is `name` holds its default in `m`; for a member
    /// of a oneof, whether the oneof is set to another member or unset. `true` for a name
    /// that names no field.
    pub open spec fn spec_holds_default(m: CurrencyPairsV, name: Seq<char>) -> bool {
        if name == "pairs"@ {
            m.pairs == Seq::<Seq<(Seq<char>, JsonV)>>::empty()
        } else {
            true
        }
    }

    /// Whether reading `v` for the field whose JSON name is `name` leaves the field at
    /// its default: `null`, for a field that takes it (a message field, a member of a
    /// oneof); nothing, for any other field. `true` for a name that names no field.
    pub open spec fn spec_leaves_default(name: Seq<char>, v: JsonV) -> bool {
        if name == "pairs"@ {
            false
        } else {
            true
        }
    }

    /// Reading one member keeps a field at its default unless the key names the field
    /// and the value does not leave it there.
    pub proof fn lemma_step_keeps_default(st: (CurrencyPairsV, Seq<bool>), key: Seq<char>, v: JsonV, name: Seq<char>)
        requires
            Self::spec_holds_default(st.0, name),
            Self::spec_json_key(key) == name ==> Self::spec_leaves_default(name, v),
        ensures
            Self::spec_step(st, key, v) is Ok ==> Self::spec_holds_default(Self::spec_step(st, key, v)->Ok_0.0, name),
    {
        reveal_strlit("pairs");
        assert("pairs"@.len() == 5);
        Self::lemma_step_json_key(st, key, v);
    }

    /// A field whose key appears in no member of an object, or only with values that
    /// leave it at its default (`null`, for a field that takes it), holds its default in
    /// the message that the object describes.
    pub proof fn lemma_absent_default(es: Seq<(Seq<char>, JsonV)>, name: Seq<char>)
        requires
            forall|i: int| 0 <= i < es.len() ==> (Self::spec_json_key((#[trigger] es[i]).0) == name
                ==> Self::spec_leaves_default(name, es[i].1)),
        ensures
            Self::spec_from_json(JsonV::Object(es)) is Ok
                ==> Self::spec_holds_default(Self::spec_from_json(JsonV::Object(es))->Ok_0, name),
    {
        let inv = |s: (CurrencyPairsV, Seq<bool>)| Self::spec_holds_default(s.0, name);
        let allowed = |k: Seq<char>, v: JsonV| Self::spec_json_key(k) == name ==> Self::spec_leaves_default(name, v);
        assert forall|s: (CurrencyPairsV, Seq<bool>), k: Seq<char>, v: JsonV| #![trigger Self::step_fn()(s, k, v)]
            inv(s) && allowed(k, v) && Self::step_fn()(s, k, v) is Ok implies inv(Self::step_fn()(s, k, v)->Ok_0) by {
            Self::lemma_step_keeps_default(s, k, v, name);
        }
        assert(inv(Self::spec_start()));
        lemma_fold_keeps(Self::spec_start(), es, Self::step_fn(), inv, allowed);
    }

    /// The field `pairs` alone: an object with one member under its JSON or protobuf
    /// name reads as the message with that field set and every other field at its
    /// default, and the message with only that field off its default writes that
    /// one member under the JSON name.
    pub proof fn lemma_field_pairs(ess: Seq<Seq<(Seq<char>, JsonV)>>)
        ensures
            Self::spec_from_json(JsonV::Object(seq![("pairs"@, JsonV::Array(ess.map_values(|es: Seq<(Seq<char>, JsonV)>| JsonV::Object(es))))])) == Ok::<CurrencyPairsV, JsonErrorV>(CurrencyPairsV { pairs: ess }),
            ess.len() > 0 ==> Self::spec_to_json(CurrencyPairsV { pairs: ess }) == JsonV::Object(seq![("pairs"@, JsonV::Array(ess.map_values(|es: Seq<(Seq<char>, JsonV)>| JsonV::Object(es))))]),
    {
        reveal_strlit("pairs");
        assert("pairs"@.len() == 5);
        assert(ess.map_values(|es: Seq<(Seq<char>, JsonV)>| JsonV::Object(es)) =~= ess.map_values(embedded_writer()));
        assert forall|i: int| 0 <= i < ess.len() implies embedded_reader()(embedded_writer()(#[trigger] ess[i])) == Ok::<Seq<(Seq<char>, JsonV)>, JsonErrorV>(ess[i]) by {}
        lemma_read_list_roundtrip(ess, embedded_writer(), embedded_reader());
        lemma_fold_entry_if(Self::spec_start(), true, "pairs"@, JsonV::Array(ess.map_values(|es: Seq<(Seq<char>, JsonV)>| JsonV::Object(es))), Self::step_fn());
    }

    /// Reading back the JSON object of a message gives the message.
    pub proof fn lemma_json_roundtrip(m: CurrencyPairsV)
        ensures Self::spec_from_json(Self::spec_to_json(m)) == Ok::<CurrencyPairsV, JsonErrorV>(m),
    {
        let step = Self::step_fn();
        let s0 = Self::spec_start();
        let s1 = (CurrencyPairsV { pairs: m.pairs }, if m.pairs.len() != 0 { s0.1.update(0, true) } else { s0.1 });
        Self::lemma_entry_pairs(m, s0);
        let p1 = Self::spec_entry_pairs(m);
        assert(s1.0 == m);
    }
}

/// The `astria.protocol.transaction.v1.CurrencyPairsChange` message.
#[derive(Clone, Debug, PartialEq)]
pub struct CurrencyPairsChange {
    pub value: Option<currency_pairs_change::Value>,
}

/// The mathematical content of a [`CurrencyPairsChange`].
pub struct CurrencyPairsChangeV {
    pub value: Option<currency_pairs_change::ValueV>,
}

impl View for CurrencyPairsChange {
    type V = CurrencyPairsChangeV;

    open spec fn view(&self) -> CurrencyPairsChangeV {
        CurrencyPairsChangeV {
            value: currency_pairs_change::opt_view(self.value),
        }
    }
}

impl Default for CurrencyPairsChange {
    fn default() -> (r: Self)
        ensures r@ == CurrencyPairsChange::spec_default(),
    {
        let r = CurrencyPairsChange {
            value: None,
        };
        r
    }
}

impl CurrencyPairsChange {
    /// The fully qualified protobuf name of the message.
    pub fn full_name() -> (r: String)
        ensures r@ == "astria.protocol.transaction.v1.CurrencyPairsChange"@,
    {
        "astria.protocol.transaction.v1.CurrencyPairsChange".to_string()
    }

    /// Every field at its default: empty strings, bytes and lists, zero, `false`, unset.
    pub open spec fn spec_default() -> CurrencyPairsChangeV {
        CurrencyPairsChangeV {
            value: None,
        }
    }

    /// The view of an optional field of this message type.
    pub open spec fn view_opt(o: Option<Self>) -> Option<CurrencyPairsChangeV> {
        match o {
            Some(x) => Some(x@),
            None => None,
        }
    }

    /// The view of a repeated field of this message type.
    pub open spec fn view_list(v: Seq<Self>) -> Seq<CurrencyPairsChangeV> {
        v.map_values(|x: Self| x@)
    }

    /// The JSON name under which the set member of `value` is written.
    pub open spec fn spec_value_key(v: currency_pairs_change::ValueV) -> Seq<char> {
        match v {
            currency_pairs_change::ValueV::Addition(_) => "addition"@,
            currency_pairs_change::ValueV::Removal(_) => "removal"@,
        }
    }

    /// The JSON value of the set member of `value`.
    pub open spec fn spec_value_json(v: currency_pairs_change::ValueV) -> JsonV {
        match v {
            currency_pairs_change::ValueV::Addition(x) => CurrencyPairs::spec_to_json(x),
            currency_pairs_change::ValueV::Removal(x) => CurrencyPairs::spec_to_json(x),
        }
    }

    /// The member that the field `value` writes: none where it holds its default.
    pub open spec fn spec_entry_value(m: CurrencyPairsChangeV) -> Seq<(Seq<char>, JsonV)> {
        entry_if(m.value is Some, Self::spec_value_key(m.value.unwrap()), Self::spec_value_json(m.value.unwrap()))
    }

    /// The members of the JSON object of the message: each field that does not hold
    /// its default, under its JSON name, in the order of the fields.
    pub open spec fn spec_entries(m: CurrencyPairsChangeV) -> Seq<(Seq<char>, JsonV)> {
        Self::spec_entry_value(m)
    }

    /// The JSON object that the protobuf JSON mapping writes for the message.
    pub open spec fn spec_to_json(m: CurrencyPairsChangeV) -> JsonV {
        JsonV::Object(Self::spec_entries(m))
    }

    /// [`Self::spec_to_json`] as a function value, for repeated fields.
    pub open spec fn writer() -> spec_fn(CurrencyPairsChangeV) -> JsonV {
        |m: CurrencyPairsChangeV| Self::spec_to_json(m)
    }

    fn write_value(&self, es: &mut Vec<(String, Json)>)
        ensures
            view_entries(final(es)@) == view_entries(old(es)@) + Self::spec_entry_value(self@),
    {
        match &self.value {
            Some(currency_pairs_change::Value::Addition(x)) => push_entry(es, "addition", x.to_json()),
            Some(currency_pairs_change::Value::Removal(x)) => push_entry(es, "removal", x.to_json()),
            None => {},
        }
        assert(view_entries(es@) =~= view_entries(old(es)@) + Self::spec_entry_value(self@));
    }

    /// Writes the message as a JSON object; reading it back gives the message.
    pub fn to_json(&self) -> (r: Json)
        ensures
            r@ == Self::spec_to_json(self@),
            Self::spec_from_json(r@) == Ok::<CurrencyPairsChangeV, JsonErrorV>(self@),
    {
        let mut es: Vec<(String, Json)> = Vec::new();
        let ghost mut acc: Seq<(Seq<char>, JsonV)> = Seq::empty();
        proof {
            assert(view_entries(es@) =~= acc);
        }
        self.write_value(&mut es);
        proof {
            acc = acc + Self::spec_entry_value(self@);
        }
        proof {
            assert(acc =~= Self::spec_entries(self@));
            Self::lemma_json_roundtrip(self@);
        }
        Json::Object(es)
    }

    /// Reads one member of the object into the message under construction; `seen`
    /// records which fields that have no unset state were already given.
    pub open spec fn spec_step(st: (CurrencyPairsChangeV, Seq<bool>), key: Seq<char>, v: JsonV) -> Result<(CurrencyPairsChangeV, Seq<bool>), JsonErrorV> {
        let m = st.0;
        let seen = st.1;
        if key == "addition"@ {
            if m.value is Some {
                Err(JsonErrorV::DuplicateField("addition"@))
            } else {
                match CurrencyPairs::spec_read_opt(v) {
                    Ok(Some(x)) => Ok((CurrencyPairsChangeV { value: Some(currency_pairs_change::ValueV::Addition(x)) }, seen)),
                    Ok(None) => Ok((CurrencyPairsChangeV { value: None }, seen)),
                    Err(e) => Err(e),
                }
            }
        } else if key == "removal"@ {
            if m.value is Some {
                Err(JsonErrorV::DuplicateField("removal"@))
            } else {
                match CurrencyPairs::spec_read_opt(v) {
                    Ok(Some(x)) => Ok((CurrencyPairsChangeV { value: Some(currency_pairs_change::ValueV::Removal(x)) }, seen)),
                    Ok(None) => Ok((CurrencyPairsChangeV { value: None }, seen)),
                    Err(e) => Err(e),
                }
            }
        } else {
            Err(JsonErrorV::UnknownField(key))
        }
    }

    /// [`Self::spec_step`] as a function value.
    pub open spec fn step_fn() -> spec_fn((CurrencyPairsChangeV, Seq<bool>), Seq<char>, JsonV) -> Result<(CurrencyPairsChangeV, Seq<bool>), JsonErrorV> {
        |st: (CurrencyPairsChangeV, Seq<bool>), key: Seq<char>, v: JsonV| Self::spec_step(st, key, v)
    }

    /// The state before the first member is read: the default message, no field seen.
    pub open spec fn spec_start() -> (CurrencyPairsChangeV, Seq<bool>) {
        (Self::spec_default(), Seq::<bool>::empty())
    }

    /// The message that a JSON value describes: an object whose keys each name a field
    /// (by its JSON name or its protobuf name), at most once each; fields that are not
    /// given keep their default. The first member that is refused gives the error.
    pub open spec fn spec_from_json(j: JsonV) -> Result<CurrencyPairsChangeV, JsonErrorV> {
        match j {
            JsonV::Object(es) => match fold_entries(Self::spec_start(), es, Self::step_fn()) {
                Ok(st) => Ok(st.0),
                Err(e) => Err(e),
            },
            _ => Err(JsonErrorV::ExpectedObject),
        }
    }

    /// [`Self::spec_from_json`] as a function value, for repeated fields.
    pub open spec fn reader() -> spec_fn(JsonV) -> Result<CurrencyPairsChangeV, JsonErrorV> {
        |v: JsonV| Self::spec_from_json(v)
    }

    /// An optional field of this message type: `null` leaves it unset.
    pub open spec fn spec_read_opt(v: JsonV) -> Result<Option<CurrencyPairsChangeV>, JsonErrorV> {
        match v {
            JsonV::Null => Ok(None),
            _ => match Self::spec_from_json(v) {
                Ok(x) => Ok(Some(x)),
                Err(e) => Err(e),
            },
        }
    }

    fn step(m: Self, seen: Vec<bool>, key: &String, v: &Json) -> (r: Result<(Self, Vec<bool>), JsonError>)
        requires seen@.len() == 0,
        ensures
            match r {
                Ok((m2, seen2)) => Self::spec_step((m@, seen@), key@, v@) == Ok::<(CurrencyPairsChangeV, Seq<bool>), JsonErrorV>((m2@, seen2@)) && seen2@.len() == 0,
                Err(e) => Self::spec_step((m@, seen@), key@, v@) == Err::<(CurrencyPairsChangeV, Seq<bool>), JsonErrorV>(e@),
            },
    {
        let mut m = m;
        let mut seen = seen;
        let k = key.as_str();
        if str_eq(k, "addition") {
            if m.value.is_some() {
                return Err(JsonError::DuplicateField("addition".to_string()));
            }
            match CurrencyPairs::opt_from_json(v) {
                Ok(Some(x)) => m.value = Some(currency_pairs_change::Value::Addition(x)),
                Ok(None) => m.value = None,
                Err(e) => return Err(e),
            }
        } else if str_eq(k, "removal") {
            if m.value.is_some() {
                return Err(JsonError::DuplicateField("removal".to_string()));
            }
            match CurrencyPairs::opt_from_json(v) {
                Ok(Some(x)) => m.value = Some(currency_pairs_change::Value::Removal(x)),
                Ok(None) => m.value = None,
                Err(e) => return Err(e),
            }
        } else {
            return Err(JsonError::UnknownField(key.clone()));
        }
        Ok((m, seen))
    }

    /// Reads the message from a JSON value, as [`Self::spec_from_json`] describes.
    pub fn from_json(j: &Json) -> (r: Result<Self, JsonError>)
        ensures
            match r {
                Ok(m) => Self::spec_from_json(j@) == Ok::<CurrencyPairsChangeV, JsonErrorV>(m@),
                Err(e) => Self::spec_from_json(j@) == Err::<CurrencyPairsChangeV, JsonErrorV>(e@),
            },
    {
        let es = match j {
            Json::Object(es) => es,
            _ => return Err(JsonError::ExpectedObject),
        };
        let ghost ves = view_entries(es@);
        proof {
            lemma_view_entries_len(es@);
            assert(j@ == JsonV::Object(ves));
        }
        let mut m = Self::default();
        let mut seen: Vec<bool> = Vec::new();
        let mut i: usize = 0;
        proof {
            assert(seen@ =~= Self::spec_start().1);
            assert(ves.skip(0) == ves);
        }
        while i < es.len()
            invariant
                j@ == JsonV::Object(ves),
                ves == view_entries(es@),
                ves.len() == es@.len(),
                i <= es.len(),
                seen@.len() == 0,
                fold_entries(Self::spec_start(), ves, Self::step_fn())
                    == fold_entries((m@, seen@), ves.skip(i as int), Self::step_fn()),
            decreases es.len() - i,
        {
            proof {
                lemma_view_entries_index(es@, i as int);
                lemma_fold_entries_step((m@, seen@), ves, i as int, Self::step_fn());
            }
            match Self::step(m, seen, &es[i].0, &es[i].1) {
                Ok((m2, seen2)) => {
                    m = m2;
                    seen = seen2;
                },
                Err(e) => return Err(e),
            }
            i = i + 1;
        }
        proof {
            assert(ves.skip(ves.len() as int) == Seq::<(Seq<char>, JsonV)>::empty());
            assert(fold_entries((m@, seen@), ves.skip(ves.len() as int), Self::step_fn())
                == Ok::<(CurrencyPairsChangeV, Seq<bool>), JsonErrorV>((m@, seen@)));
        }
        Ok(m)
    }

    /// Reads an optional field of this message type.
    pub fn opt_from_json(v: &Json) -> (r: Result<Option<Self>, JsonError>)
        ensures
            match r {
                Ok(None) => Self::spec_read_opt(v@) == Ok::<Option<CurrencyPairsChangeV>, JsonErrorV>(None),
                Ok(Some(x)) => Self::spec_read_opt(v@) == Ok::<Option<CurrencyPairsChangeV>, JsonErrorV>(Some(x@)),
                Err(e) => Self::spec_read_opt(v@) == Err::<Option<CurrencyPairsChangeV>, JsonErrorV>(e@),
            },
    {
        match v {
            Json::Null => Ok(None),
            _ => match Self::from_json(v) {
                Ok(x) => Ok(Some(x)),
                Err(e) => Err(e),
            },
        }
    }

    /// Reading the member that the field `value` writes sets the field.
    pub proof fn lemma_entry_value(m: CurrencyPairsChangeV, st: (CurrencyPairsChangeV, Seq<bool>))
        requires
            st.1.len() == 0,
            st.0.value is None,
        ensures
            fold_entries(st, Self::spec_entry_value(m), Self::step_fn()) == Ok::<(CurrencyPairsChangeV, Seq<bool>), JsonErrorV>((CurrencyPairsChangeV { value: m.value }, st.1)),
    {
        reveal_strlit("addition");
        reveal_strlit("removal");
        assert("addition"@.len() == 8);
        assert("removal"@.len() == 7);
        match m.value {
            Some(currency_pairs_change::ValueV::Addition(x)) => CurrencyPairs::lemma_json_roundtrip(x),
            Some(currency_pairs_change::ValueV::Removal(x)) => CurrencyPairs::lemma_json_roundtrip(x),
            _ => {},
        }
        lemma_fold_entry_if(st, m.value is Some, Self::spec_value_key(m.value.unwrap()), Self::spec_value_json(m.value.unwrap()), Self::step_fn());
    }

    /// The JSON spelling of a key: the protobuf name of a field becomes its JSON name;
    /// a JSON name, and any key that names no field, is left as it is.
    pub open spec fn spec_json_key(key: Seq<char>) -> Seq<char> {
        if key == "addition"@ {
            "addition"@
        } else if key == "removal"@ {
            "removal"@
        } else {
            key
        }
    }

    /// [`Self::spec_json_key`] as a function value.
    pub open spec fn json_key_fn() -> spec_fn(Seq<char>) -> Seq<char> {
        |key: Seq<char>| Self::spec_json_key(key)
    }

    /// One member is read alike whichever spelling its key has.
    pub proof fn lemma_step_json_key(st: (CurrencyPairsChangeV, Seq<bool>), key: Seq<char>, v: JsonV)
        ensures Self::spec_step(st, key, v) == Self::spec_step(st, Self::spec_json_key(key), v),
    {
        reveal_strlit("addition");
        reveal_strlit("removal");
        assert("addition"@.len() == 8);
        assert("removal"@.len() == 7);
    }

    /// Reading an object gives the same result whichever spelling each of its keys has:
    /// two objects whose members hold the same values, in the same order, under keys of
    /// the same JSON spelling describe the same message, or are refused with the same error.
    pub proof fn lemma_key_spelling(es1: Seq<(Seq<char>, JsonV)>, es2: Seq<(Seq<char>, JsonV)>)
        requires
            es1.len() == es2.len(),
            forall|i: int| #![trigger es1[i], es2[i]] 0 <= i < es1.len() ==> es1[i].1 == es2[i].1 && Self::spec_json_key(es1[i].0) == Self::spec_json_key(es2[i].0),
        ensures Self::spec_from_json(JsonV::Object(es1)) == Self::spec_from_json(JsonV::Object(es2)),
    {
        assert forall|s: (CurrencyPairsChangeV, Seq<bool>), k: Seq<char>, v: JsonV|
            #![trigger Self::step_fn()(s, k, v), Self::json_key_fn()(k)]
            Self::step_fn()(s, k, v) == Self::step_fn()(s, Self::json_key_fn()(k), v) by {
            Self::lemma_step_json_key(s, k, v);
        }
        lemma_fold_same_keys(Self::spec_start(), es1, es2, Self::step_fn(), Self::json_key_fn());
    }

    /// The keys of the object that the message writes: the JSON names of the fields that
    /// do not hold their default (for a oneof, the JSON name of the member set), in the
    /// order of the fields.
    pub open spec fn spec_written_keys(m: CurrencyPairsChangeV) -> Seq<Seq<char>> {
        key_if(m.value is Some, Self::spec_value_key(m.value.unwrap()))
    }

    /// The object that the message writes has exactly the keys of
    /// [`Self::spec_written_keys`], in that order.
    pub proof fn lemma_written_keys(m: CurrencyPairsChangeV)
        ensures
            Self::spec_to_json(m) == JsonV::Object(Self::spec_entries(m)),
            entry_keys(Self::spec_entries(m)) == Self::spec_written_keys(m),
    {
        lemma_entry_keys_if(m.value is Some, Self::spec_value_key(m.value.unwrap()), Self::spec_value_json(m.value.unwrap()));
    }

    /// Whether the field whose JSON name is `name` holds its default in `m`; for a member
    /// of a oneof, whether the oneof is set to another member or unset. `true` for a name
    /// that names no field.
    pub open spec fn spec_holds_default(m: CurrencyPairsChangeV, name: Seq<char>) -> bool {
        if name == "addition"@ {
            !(m.value matches Some(currency_pairs_change::ValueV::Addition(_)))
        } else if name == "removal"@ {
            !(m.value matches Some(currency_pairs_change::ValueV::Removal(_)))
        } else {
            true
        }
    }

    /// Whether reading `v` for the field whose JSON name is `name` leaves the field at
    /// its default: `null`, for a field that takes it (a message field, a member of a
    /// oneof); nothing, for any other field. `true` for a name that names no field.
    pub open spec fn spec_leaves_default(name: Seq<char>, v: JsonV) -> bool {
        if name == "addition"@ {
            v is Null
        } else if name == "removal"@ {
            v is Null
        } else {
            true
        }
    }

    /// Reading one member keeps a field at its default unless the key names the field
    /// and the value does not leave it there.
    pub proof fn lemma_step_keeps_default(st: (CurrencyPairsChangeV, Seq<bool>), key: Seq<char>, v: JsonV, name: Seq<char>)
        requires
            Self::spec_holds_default(st.0, name),
            Self::spec_json_key(key) == name ==> Self::spec_leaves_default(name, v),
        ensures
            Self::spec_step(st, key, v) is Ok ==> Self::spec_holds_default(Self::spec_step(st, key, v)->Ok_0.0, name),
    {
        reveal_strlit("addition");
        reveal_strlit("removal");
        assert("addition"@.len() == 8);
        assert("removal"@.len() == 7);
        Self::lemma_step_json_key(st, key, v);
    }

    /// A field whose key appears in no member of an object, or only with values that
    /// leave it at its default (`null`, for a field that takes it), holds its default in
    /// the message that the object describes.
    pub proof fn lemma_absent_default(es: Seq<(Seq<char>, JsonV)>, name: Seq<char>)
        requires
            forall|i: int| 0 <= i < es.len() ==> (Self::spec_json_key((#[trigger] es[i]).0) == name
                ==> Self::spec_leaves_default(name, es[i].1)),
        ensures
            Self::spec_from_json(JsonV::Object(es)) is Ok
                ==> Self::spec_holds_default(Self::spec_from_json(JsonV::Object(es))->Ok_0, name),
    {
        let inv = |s: (CurrencyPairsChangeV, Seq<bool>)| Self::spec_holds_default(s.0, name);
        let allowed = |k: Seq<char>, v: JsonV| Self::spec_json_key(k) == name ==> Self::spec_leaves_default(name, v);
        assert forall|s: (CurrencyPairsChangeV, Seq<bool>), k: Seq<char>, v: JsonV| #![trigger Self::step_fn()(s, k, v)]
            inv(s) && allowed(k, v) && Self::step_fn()(s, k, v) is Ok implies inv(Self::step_fn()(s, k, v)->Ok_0) by {
            Self::lemma_step_keeps_default(s, k, v, name);
        }
        assert(inv(Self::spec_start()));
        lemma_fold_keeps(Self::spec_start(), es, Self::step_fn(), inv, allowed);
    }

    /// Whether a key names a member of the oneof `value`, in either spelling.
    pub open spec fn spec_is_member_key(key: Seq<char>) -> bool {
        key == "addition"@ || key == "removal"@
    }

    /// The member of the oneof `value` that one member of an object gives: unset for
    /// `null`, else the member that the key names, read from the value.
    pub open spec fn spec_member_value(key: Seq<char>, v: JsonV) -> Result<Option<currency_pairs_change::ValueV>, JsonErrorV> {
        if key == "addition"@ {
            match CurrencyPairs::spec_read_opt(v) {
                Ok(Some(x)) => Ok(Some(currency_pairs_change::ValueV::Addition(x))),
                Ok(None) => Ok(None),
                Err(e) => Err(e),
            }
        } else if key == "removal"@ {
            match CurrencyPairs::spec_read_opt(v) {
                Ok(Some(x)) => Ok(Some(currency_pairs_change::ValueV::Removal(x))),
                Ok(None) => Ok(None),
                Err(e) => Err(e),
            }
        } else {
            Err(JsonErrorV::UnknownField(key))
        }
    }

    /// An object whose keys each name a member of the oneof `value`, whose first `k`
    /// members are `null`, and whose member `k`, if there is one, is not `null` and reads
    /// as the member its key names: with no member past the `null` ones the oneof is
    /// unset; with member `k` last the oneof is that member; any key after member `k`,
    /// whatever its value, is refused as a duplicate under its JSON name.
    pub proof fn lemma_oneof_members(es: Seq<(Seq<char>, JsonV)>, k: int)
        requires
            0 <= k <= es.len(),
            forall|i: int| 0 <= i < es.len() ==> Self::spec_is_member_key(#[trigger] es[i].0),
            forall|i: int| 0 <= i < k ==> (#[trigger] es[i]).1 is Null,
            k < es.len() ==> es[k].1 !is Null && Self::spec_member_value(es[k].0, es[k].1) is Ok,
        ensures
            k == es.len() ==> Self::spec_from_json(JsonV::Object(es)) == Ok::<CurrencyPairsChangeV, JsonErrorV>(Self::spec_default()),
            k == es.len() - 1 ==> Self::spec_from_json(JsonV::Object(es))
                == Ok::<CurrencyPairsChangeV, JsonErrorV>(CurrencyPairsChangeV { value: Self::spec_member_value(es[k].0, es[k].1)->Ok_0 }),
            k < es.len() - 1 ==> Self::spec_from_json(JsonV::Object(es))
                == Err::<CurrencyPairsChangeV, JsonErrorV>(JsonErrorV::DuplicateField(Self::spec_json_key(es[k + 1].0))),
        decreases k,
    {
        reveal_strlit("addition");
        reveal_strlit("removal");
        assert("addition"@.len() == 8);
        assert("removal"@.len() == 7);
        let s0 = Self::spec_start();
        if es.len() > 0 {
            assert(Self::spec_is_member_key(es[0].0));
            let rest = es.drop_first();
            if k > 0 {
                assert(es[0].1 is Null);
                assert(Self::spec_step(s0, es[0].0, es[0].1) == Ok::<(CurrencyPairsChangeV, Seq<bool>), JsonErrorV>(s0));
                assert forall|i: int| 0 <= i < rest.len() implies Self::spec_is_member_key(#[trigger] rest[i].0) by {
                    assert(rest[i] == es[i + 1]);
                }
                assert forall|i: int| 0 <= i < k - 1 implies (#[trigger] rest[i]).1 is Null by {
                    assert(rest[i] == es[i + 1]);
                }
                if k < es.len() {
                    assert(rest[k - 1] == es[k]);
                }
                if k + 1 < es.len() {
                    assert(rest[k] == es[k + 1]);
                }
                assert(fold_entries(s0, es, Self::step_fn()) == fold_entries(s0, rest, Self::step_fn()));
                Self::lemma_oneof_members(rest, k - 1);
            } else {
                let m = CurrencyPairsChangeV { value: Self::spec_member_value(es[0].0, es[0].1)->Ok_0 };
                assert(m.value is Some);
                assert(Self::spec_step(s0, es[0].0, es[0].1) == Ok::<(CurrencyPairsChangeV, Seq<bool>), JsonErrorV>((m, s0.1)));
                assert(fold_entries(s0, es, Self::step_fn()) == fold_entries((m, s0.1), rest, Self::step_fn()));
                if es.len() > 1 {
                    assert(rest[0] == es[1]);
                    assert(Self::spec_is_member_key(es[1].0));
                    assert(Self::spec_step((m, s0.1), es[1].0, es[1].1)
                        == Err::<(CurrencyPairsChangeV, Seq<bool>), JsonErrorV>(JsonErrorV::DuplicateField(Self::spec_json_key(es[1].0))));
                    assert(fold_entries((m, s0.1), rest, Self::step_fn())
                        == Err::<(CurrencyPairsChangeV, Seq<bool>), JsonErrorV>(JsonErrorV::DuplicateField(Self::spec_json_key(es[1].0))));
                } else {
                    assert(rest.len() == 0);
                    assert(fold_entries((m, s0.1), rest, Self::step_fn()) == Ok::<(CurrencyPairsChangeV, Seq<bool>), JsonErrorV>((m, s0.1)));
                }
            }
        }
    }

    /// An object whose keys each name a member of the oneof `value`, and whose values other
    /// than `null` each read as the member their key names, is refused exactly when a
    /// member follows one whose value is not `null`, as a duplicate under the JSON name of
    /// the key after [`first_set`]. Otherwise the oneof is the member at [`first_set`], or
    /// unset when every value is `null`.
    pub proof fn lemma_oneof_object(es: Seq<(Seq<char>, JsonV)>)
        requires
            forall|i: int| 0 <= i < es.len() ==> Self::spec_is_member_key(#[trigger] es[i].0),
            forall|i: int| 0 <= i < es.len() && !((#[trigger] es[i]).1 is Null)
                ==> Self::spec_member_value(es[i].0, es[i].1) is Ok,
        ensures
            Self::spec_from_json(JsonV::Object(es)) is Err
                <==> exists|i: int| 0 <= i < es.len() - 1 && !((#[trigger] es[i]).1 is Null),
            first_set(es) == es.len() ==> Self::spec_from_json(JsonV::Object(es)) == Ok::<CurrencyPairsChangeV, JsonErrorV>(Self::spec_default()),
            first_set(es) == es.len() - 1 ==> Self::spec_from_json(JsonV::Object(es))
                == Ok::<CurrencyPairsChangeV, JsonErrorV>(CurrencyPairsChangeV { value: Self::spec_member_value(es[first_set(es)].0, es[first_set(es)].1)->Ok_0 }),
            first_set(es) < es.len() - 1 ==> Self::spec_from_json(JsonV::Object(es))
                == Err::<CurrencyPairsChangeV, JsonErrorV>(JsonErrorV::DuplicateField(Self::spec_json_key(es[first_set(es) + 1].0))),
    {
        lemma_first_set(es);
        let k = first_set(es);
        if k < es.len() {
            assert(!(es[k].1 is Null));
        }
        Self::lemma_oneof_members(es, k);
    }

    /// The field `addition` alone: an object with one member under its JSON or protobuf
    /// name reads as the message with that field set and every other field at its
    /// default, and the message with only that field off its default writes that
    /// one member under the JSON name.
    pub proof fn lemma_member_addition(x: CurrencyPairsV, es: Seq<(Seq<char>, JsonV)>)
        ensures
            Self::spec_from_json(JsonV::Object(seq![("addition"@, JsonV::Object(es))])) == (match CurrencyPairs::spec_from_json(JsonV::Object(es)) { Ok(y) => Ok::<CurrencyPairsChangeV, JsonErrorV>(CurrencyPairsChangeV { value: Some(currency_pairs_change::ValueV::Addition(y)) }), Err(e) => Err(e) }),
            Self::spec_from_json(JsonV::Object(seq![("addition"@, JsonV::Null)])) == Ok::<CurrencyPairsChangeV, JsonErrorV>(Self::spec_default()),
            Self::spec_to_json(CurrencyPairsChangeV { value: Some(currency_pairs_change::ValueV::Addition(x)) }) == JsonV::Object(seq![("addition"@, CurrencyPairs::spec_to_json(x))]),
    {
        reveal_strlit("addition");
        reveal_strlit("removal");
        assert("addition"@.len() == 8);
        assert("removal"@.len() == 7);
        lemma_fold_entry_if(Self::spec_start(), true, "addition"@, JsonV::Object(es), Self::step_fn());
        lemma_fold_entry_if(Self::spec_start(), true, "addition"@, JsonV::Null, Self::step_fn());
    }

    /// The field `removal` alone: an object with one member under its JSON or protobuf
    /// name reads as the message with that field set and every other field at its
    /// default, and the message with only that field off its default writes that
    /// one member under the JSON name.
    pub proof fn lemma_member_removal(x: CurrencyPairsV, es: Seq<(Seq<char>, JsonV)>)
        ensures
            Self::spec_from_json(JsonV::Object(seq![("removal"@, JsonV::Object(es))])) == (match CurrencyPairs::spec_from_json(JsonV::Object(es)) { Ok(y) => Ok::<CurrencyPairsChangeV, JsonErrorV>(CurrencyPairsChangeV { value: Some(currency_pairs_change::ValueV::Removal(y)) }), Err(e) => Err(e) }),
            Self::spec_from_json(JsonV::Object(seq![("removal"@, JsonV::Null)])) == Ok::<CurrencyPairsChangeV, JsonErrorV>(Self::spec_default()),
            Self::spec_to_json(CurrencyPairsChangeV { value: Some(currency_pairs_change::ValueV::Removal(x)) }) == JsonV::Object(seq![("removal"@, CurrencyPairs::spec_to_json(x))]),
    {
        reveal_strlit("addition");
        reveal_strlit("removal");
        assert("addition"@.len() == 8);
        assert("removal"@.len() == 7);
        lemma_fold_entry_if(Self::spec_start(), true, "removal"@, JsonV::Object(es), Self::step_fn());
        lemma_fold_entry_if(Self::spec_start(), true, "removal"@, JsonV::Null, Self::step_fn());
    }

    /// Reading back the JSON object of a message gives the message.
    pub proof fn lemma_json_roundtrip(m: CurrencyPairsChangeV)
        ensures Self::spec_from_json(Self::spec_to_json(m)) == Ok::<CurrencyPairsChangeV, JsonErrorV>(m),
    {
        let step = Self::step_fn();
        let s0 = Self::spec_start();
        let s1 = (CurrencyPairsChangeV { value: m.value }, s0.1);
        Self::lemma_entry_value(m, s0);
        let p1 = Self::spec_entry_value(m);
        assert(s1.0 == m);
    }
}

/// The `astria.protocol.transaction.v1.FeeAssetChange` message.
#[derive(Clone, Debug, PartialEq)]
pub struct FeeAssetChange {
    pub value: Option<fee_asset_change::Value>,
}

/// The mathematical content of a [`FeeAssetChange`].
pub struct FeeAssetChangeV {
    pub value: Option<fee_asset_change::ValueV>,
}

impl View for FeeAssetChange {
    type V = FeeAssetChangeV;

    open spec fn view(&self) -> FeeAssetChangeV {
        FeeAssetChangeV {
            value: fee_asset_change::opt_view(self.value),
        }
    }
}

impl Default for FeeAssetChange {
    fn default() -> (r: Self)
        ensures r@ == FeeAssetChange::spec_default(),
    {
        let r = FeeAssetChange {
            value: None,
        };
        r
    }
}

impl FeeAssetChange {
    /// The fully qualified protobuf name of the message.
    pub fn full_name() -> (r: String)
        ensures r@ == "astria.protocol.transaction.v1.FeeAssetChange"@,
    {
        "astria.protocol.transaction.v1.FeeAssetChange".to_string()
    }

    /// Every field at its default: empty strings, bytes and lists, zero, `false`, unset.
    pub open spec fn spec_default() -> FeeAssetChangeV {
        FeeAssetChangeV {
            value: None,
        }
    }

    /// The view of an optional field of this message type.
    pub open spec fn view_opt(o: Option<Self>) -> Option<FeeAssetChangeV> {
        match o {
            Some(x) => Some(x@),
            None => None,
        }
    }

    /// The view of a repeated field of this message type.
    pub open spec fn view_list(v: Seq<Self>) -> Seq<FeeAssetChangeV> {
        v.map_values(|x: Self| x@)
    }

    /// The JSON name under which the set member of `value` is written.
    pub open spec fn spec_value_key(v: fee_asset_change::ValueV) -> Seq<char> {
        match v {
            fee_asset_change::ValueV::Addition(_) => "addition"@,
            fee_asset_change::ValueV::Removal(_) => "removal"@,
        }
    }

    /// The JSON value of the set member of `value`.
    pub open spec fn spec_value_json(v: fee_asset_change::ValueV) -> JsonV {
        match v {
            fee_asset_change::ValueV::Addition(x) => JsonV::Str(x),
            fee_asset_change::ValueV::Removal(x) => JsonV::Str(x),
        }
    }

    /// The member that the field `value` writes: none where it holds its default.
    pub open spec fn spec_entry_value(m: FeeAssetChangeV) -> Seq<(Seq<char>, JsonV)> {
        entry_if(m.value is Some, Self::spec_value_key(m.value.unwrap()), Self::spec_value_json(m.value.unwrap()))
    }

    /// The members of the JSON object of the message: each field that does not hold
    /// its default, under its JSON name, in the order of the fields.
    pub open spec fn spec_entries(m: FeeAssetChangeV) -> Seq<(Seq<char>, JsonV)> {
        Self::spec_entry_value(m)
    }

    /// The JSON object that the protobuf JSON mapping writes for the message.
    pub open spec fn spec_to_json(m: FeeAssetChangeV) -> JsonV {
        JsonV::Object(Self::spec_entries(m))
    }

    /// [`Self::spec_to_json`] as a function value, for repeated fields.
    pub open spec fn writer() -> spec_fn(FeeAssetChangeV) -> JsonV {
        |m: FeeAssetChangeV| Self::spec_to_json(m)
    }

    fn write_value(&self, es: &mut Vec<(String, Json)>)
        ensures
            view_entries(final(es)@) == view_entries(old(es)@) + Self::spec_entry_value(self@),
    {
        match &self.value {
            Some(fee_asset_change::Value::Addition(x)) => push_entry(es, "addition", string_value(x)),
            Some(fee_asset_change::Value::Removal(x)) => push_entry(es, "removal", string_value(x)),
            None => {},
        }
        assert(view_entries(es@) =~= view_entries(old(es)@) + Self::spec_entry_value(self@));
    }

    /// Writes the message as a JSON object; reading it back gives the message.
    pub fn to_json(&self) -> (r: Json)
        ensures
            r@ == Self::spec_to_json(self@),
            Self::spec_from_json(r@) == Ok::<FeeAssetChangeV, JsonErrorV>(self@),
    {
        let mut es: Vec<(String, Json)> = Vec::new();
        let ghost mut acc: Seq<(Seq<char>, JsonV)> = Seq::empty();
        proof {
            assert(view_entries(es@) =~= acc);
        }
        self.write_value(&mut es);
        proof {
            acc = acc + Self::spec_entry_value(self@);
        }
        proof {
            assert(acc =~= Self::spec_entries(self@));
            Self::lemma_json_roundtrip(self@);
        }
        Json::Object(es)
    }

    /// Reads one member of the object into the message under construction; `seen`
    /// records which fields that have no unset state were already given.
    pub open spec fn spec_step(st: (FeeAssetChangeV, Seq<bool>), key: Seq<char>, v: JsonV) -> Result<(FeeAssetChangeV, Seq<bool>), JsonErrorV> {
        let m = st.0;
        let seen = st.1;
        if key == "addition"@ {
            if m.value is Some {
                Err(JsonErrorV::DuplicateField("addition"@))
            } else {
                match read_string_opt(v) {
                    Ok(Some(x)) => Ok((FeeAssetChangeV { value: Some(fee_asset_change::ValueV::Addition(x)) }, seen)),
                    Ok(None) => Ok((FeeAssetChangeV { value: None }, seen)),
                    Err(e) => Err(e),
                }
            }
        } else if key == "removal"@ {
            if m.value is Some {
                Err(JsonErrorV::DuplicateField("removal"@))
            } else {
                match read_string_opt(v) {
                    Ok(Some(x)) => Ok((FeeAssetChangeV { value: Some(fee_asset_change::ValueV::Removal(x)) }, seen)),
                    Ok(None) => Ok((FeeAssetChangeV { value: None }, seen)),
                    Err(e) => Err(e),
                }
            }
        } else {
            Err(JsonErrorV::UnknownField(key))
        }
    }

    /// [`Self::spec_step`] as a function value.
    pub open spec fn step_fn() -> spec_fn((FeeAssetChangeV, Seq<bool>), Seq<char>, JsonV) -> Result<(FeeAssetChangeV, Seq<bool>), JsonErrorV> {
        |st: (FeeAssetChangeV, Seq<bool>), key: Seq<char>, v: JsonV| Self::spec_step(st, key, v)
    }

    /// The state before the first member is read: the default message, no field seen.
    pub open spec fn spec_start() -> (FeeAssetChangeV, Seq<bool>) {
        (Self::spec_default(), Seq::<bool>::empty())
    }

    /// The message that a JSON value describes: an object whose keys each name a field
    /// (by its JSON name or its protobuf name), at most once each; fields that are not
    /// given keep their default. The first member that is refused gives the error.
    pub open spec fn spec_from_json(j: JsonV) -> Result<FeeAssetChangeV, JsonErrorV> {
        match j {
            JsonV::Object(es) => match fold_entries(Self::spec_start(), es, Self::step_fn()) {
                Ok(st) => Ok(st.0),
                Err(e) => Err(e),
            },
            _ => Err(JsonErrorV::ExpectedObject),
        }
    }

    /// [`Self::spec_from_json`] as a function value, for repeated fields.
    pub open spec fn reader() -> spec_fn(JsonV) -> Result<FeeAssetChangeV, JsonErrorV> {
        |v: JsonV| Self::spec_from_json(v)
    }

    /// An optional field of this message type: `null` leaves it unset.
    pub open spec fn spec_read_opt(v: JsonV) -> Result<Option<FeeAssetChangeV>, JsonErrorV> {
        match v {
            JsonV::Null => Ok(None),
            _ => match Self::spec_from_json(v) {
                Ok(x) => Ok(Some(x)),
                Err(e) => Err(e),
            },
        }
    }

    fn step(m: Self, seen: Vec<bool>, key: &String, v: &Json) -> (r: Result<(Self, Vec<bool>), JsonError>)
        requires seen@.len() == 0,
        ensures
            match r {
                Ok((m2, seen2)) => Self::spec_step((m@, seen@), key@, v@) == Ok::<(FeeAssetChangeV, Seq<bool>), JsonErrorV>((m2@, seen2@)) && seen2@.len() == 0,
                Err(e) => Self::spec_step((m@, seen@), key@, v@) == Err::<(FeeAssetChangeV, Seq<bool>), JsonErrorV>(e@),
            },
    {
        let mut m = m;
        let mut seen = seen;
        let k = key.as_str();
        if str_eq(k, "addition") {
            if m.value.is_some() {
                return Err(JsonError::DuplicateField("addition".to_string()));
            }
            match string_opt_field(v) {
                Ok(Some(x)) => m.value = Some(fee_asset_change::Value::Addition(x)),
                Ok(None) => m.value = None,
                Err(e) => return Err(e),
            }
        } else if str_eq(k, "removal") {
            if m.value.is_some() {
                return Err(JsonError::DuplicateField("removal".to_string()));
            }
            match string_opt_field(v) {
                Ok(Some(x)) => m.value = Some(fee_asset_change::Value::Removal(x)),
                Ok(None) => m.value = None,
                Err(e) => return Err(e),
            }
        } else {
            return Err(JsonError::UnknownField(key.clone()));
        }
        Ok((m, seen))
    }

    /// Reads the message from a JSON value, as [`Self::spec_from_json`] describes.
    pub fn from_json(j: &Json) -> (r: Result<Self, JsonError>)
        ensures
            match r {
                Ok(m) => Self::spec_from_json(j@) == Ok::<FeeAssetChangeV, JsonErrorV>(m@),
                Err(e) => Self::spec_from_json(j@) == Err::<FeeAssetChangeV, JsonErrorV>(e@),
            },
    {
        let es = match j {
            Json::Object(es) => es,
            _ => return Err(JsonError::ExpectedObject),
        };
        let ghost ves = view_entries(es@);
        proof {
            lemma_view_entries_len(es@);
            assert(j@ == JsonV::Object(ves));
        }
        let mut m = Self::default();
        let mut seen: Vec<bool> = Vec::new();
        let mut i: usize = 0;
        proof {
            assert(seen@ =~= Self::spec_start().1);
            assert(ves.skip(0) == ves);
        }
        while i < es.len()
            invariant
                j@ == JsonV::Object(ves),
                ves == view_entries(es@),
                ves.len() == es@.len(),
                i <= es.len(),
                seen@.len() == 0,
                fold_entries(Self::spec_start(), ves, Self::step_fn())
                    == fold_entries((m@, seen@), ves.skip(i as int), Self::step_fn()),
            decreases es.len() - i,
        {
            proof {
                lemma_view_entries_index(es@, i as int);
                lemma_fold_entries_step((m@, seen@), ves, i as int, Self::step_fn());
            }
            match Self::step(m, seen, &es[i].0, &es[i].1) {
                Ok((m2, seen2)) => {
                    m = m2;
                    seen = seen2;
                },
                Err(e) => return Err(e),
            }
            i = i + 1;
        }
        proof {
            assert(ves.skip(ves.len() as int) == Seq::<(Seq<char>, JsonV)>::empty());
            assert(fold_entries((m@, seen@), ves.skip(ves.len() as int), Self::step_fn())
                == Ok::<(FeeAssetChangeV, Seq<bool>), JsonErrorV>((m@, seen@)));
        }
        Ok(m)
    }

    /// Reads an optional field of this message type.
    pub fn opt_from_json(v: &Json) -> (r: Result<Option<Self>, JsonError>)
        ensures
            match r {
                Ok(None) => Self::spec_read_opt(v@) == Ok::<Option<FeeAssetChangeV>, JsonErrorV>(None),
                Ok(Some(x)) => Self::spec_read_opt(v@) == Ok::<Option<FeeAssetChangeV>, JsonErrorV>(Some(x@)),
                Err(e) => Self::spec_read_opt(v@) == Err::<Option<FeeAssetChangeV>, JsonErrorV>(e@),
            },
    {
        match v {
            Json::Null => Ok(None),
            _ => match Self::from_json(v) {
                Ok(x) => Ok(Some(x)),
                Err(e) => Err(e),
            },
        }
    }

    /// Reading the member that the field `value` writes sets the field.
    pub proof fn lemma_entry_value(m: FeeAssetChangeV, st: (FeeAssetChangeV, Seq<bool>))
        requires
            st.1.len() == 0,
            st.0.value is None,
        ensures
            fold_entries(st, Self::spec_entry_value(m), Self::step_fn()) == Ok::<(FeeAssetChangeV, Seq<bool>), JsonErrorV>((FeeAssetChangeV { value: m.value }, st.1)),
    {
        reveal_strlit("addition");
        reveal_strlit("removal");
        assert("addition"@.len() == 8);
        assert("removal"@.len() == 7);
        match m.value {
            _ => {},
        }
        lemma_fold_entry_if(st, m.value is Some, Self::spec_value_key(m.value.unwrap()), Self::spec_value_json(m.value.unwrap()), Self::step_fn());
    }

    /// The JSON spelling of a key: the protobuf name of a field becomes its JSON name;
    /// a JSON name, and any key that names no field, is left as it is.
    pub open spec fn spec_json_key(key: Seq<char>) -> Seq<char> {
        if key == "addition"@ {
            "addition"@
        } else if key == "removal"@ {
            "removal"@
        } else {
            key
        }
    }

    /// [`Self::spec_json_key`] as a function value.
    pub open spec fn json_key_fn() -> spec_fn(Seq<char>) -> Seq<char> {
        |key: Seq<char>| Self::spec_json_key(key)
    }

    /// One member is read alike whichever spelling its key has.
    pub proof fn lemma_step_json_key(st: (FeeAssetChangeV, Seq<bool>), key: Seq<char>, v: JsonV)
        ensures Self::spec_step(st, key, v) == Self::spec_step(st, Self::spec_json_key(key), v),
    {
        reveal_strlit("addition");
        reveal_strlit("removal");
        assert("addition"@.len() == 8);
        assert("removal"@.len() == 7);
    }

    /// Reading an object gives the same result whichever spelling each of its keys has:
    /// two objects whose members hold the same values, in the same order, under keys of
    /// the same JSON spelling describe the same message, or are refused with the same error.
    pub proof fn lemma_key_spelling(es1: Seq<(Seq<char>, JsonV)>, es2: Seq<(Seq<char>, JsonV)>)
        requires
            es1.len() == es2.len(),
            forall|i: int| #![trigger es1[i], es2[i]] 0 <= i < es1.len() ==> es1[i].1 == es2[i].1 && Self::spec_json_key(es1[i].0) == Self::spec_json_key(es2[i].0),
        ensures Self::spec_from_json(JsonV::Object(es1)) == Self::spec_from_json(JsonV::Object(es2)),
    {
        assert forall|s: (FeeAssetChangeV, Seq<bool>), k: Seq<char>, v: JsonV|
            #![trigger Self::step_fn()(s, k, v), Self::json_key_fn()(k)]
            Self::step_fn()(s, k, v) == Self::step_fn()(s, Self::json_key_fn()(k), v) by {
            Self::lemma_step_json_key(s, k, v);
        }
        lemma_fold_same_keys(Self::spec_start(), es1, es2, Self::step_fn(), Self::json_key_fn());
    }

    /// The keys of the object that the message writes: the JSON names of the fields that
    /// do not hold their default (for a oneof, the JSON name of the member set), in the
    /// order of the fields.
    pub open spec fn spec_written_keys(m: FeeAssetChangeV) -> Seq<Seq<char>> {
        key_if(m.value is Some, Self::spec_value_key(m.value.unwrap()))
    }

    /// The object that the message writes has exactly the keys of
    /// [`Self::spec_written_keys`], in that order.
    pub proof fn lemma_written_keys(m: FeeAssetChangeV)
        ensures
            Self::spec_to_json(m) == JsonV::Object(Self::spec_entries(m)),
            entry_keys(Self::spec_entries(m)) == Self::spec_written_keys(m),
    {
        lemma_entry_keys_if(m.value is Some, Self::spec_value_key(m.value.unwrap()), Self::spec_value_json(m.value.unwrap()));
    }

    /// Whether the field whose JSON name is `name` holds its default in `m`; for a member
    /// of a oneof, whether the oneof is set to another member or unset. `true` for a name
    /// that names no field.
    pub open spec fn spec_holds_default(m: FeeAssetChangeV, name: Seq<char>) -> bool {
        if name == "addition"@ {
            !(m.value matches Some(fee_asset_change::ValueV::Addition(_)))
        } else if name == "removal"@ {
            !(m.value matches Some(fee_asset_change::ValueV::Removal(_)))
        } else {
            true
        }
    }

    /// Whether reading `v` for the field whose JSON name is `name` leaves the field at
    /// its default: `null`, for a field that takes it (a message field, a member of a
    /// oneof); nothing, for any other field. `true` for a name that names no field.
    pub open spec fn spec_leaves_default(name: Seq<char>, v: JsonV) -> bool {
        if name == "addition"@ {
            v is Null
        } else if name == "removal"@ {
            v is Null
        } else {
            true
        }
    }

    /// Reading one member keeps a field at its default unless the key names the field
    /// and the value does not leave it there.
    pub proof fn lemma_step_keeps_default(st: (FeeAssetChangeV, Seq<bool>), key: Seq<char>, v: JsonV, name: Seq<char>)
        requires
            Self::spec_holds_default(st.0, name),
            Self::spec_json_key(key) == name ==> Self::spec_leaves_default(name, v),
        ensures
            Self::spec_step(st, key, v) is Ok ==> Self::spec_holds_default(Self::spec_step(st, key, v)->Ok_0.0, name),
    {
        reveal_strlit("addition");
        reveal_strlit("removal");
        assert("addition"@.len() == 8);
        assert("removal"@.len() == 7);
        Self::lemma_step_json_key(st, key, v);
    }

    /// A field whose key appears in no member of an object, or only with values that
    /// leave it at its default (`null`, for a field that takes it), holds its default in
    /// the message that the object describes.
    pub proof fn lemma_absent_default(es: Seq<(Seq<char>, JsonV)>, name: Seq<char>)
        requires
            forall|i: int| 0 <= i < es.len() ==> (Self::spec_json_key((#[trigger] es[i]).0) == name
                ==> Self::spec_leaves_default(name, es[i].1)),
        ensures
            Self::spec_from_json(JsonV::Object(es)) is Ok
                ==> Self::spec_holds_default(Self::spec_from_json(JsonV::Object(es))->Ok_0, name),
    {
        let inv = |s: (FeeAssetChangeV, Seq<bool>)| Self::spec_holds_default(s.0, name);
        let allowed = |k: Seq<char>, v: JsonV| Self::spec_json_key(k) == name ==> Self::spec_leaves_default(name, v);
        assert forall|s: (FeeAssetChangeV, Seq<bool>), k: Seq<char>, v: JsonV| #![trigger Self::step_fn()(s, k, v)]
            inv(s) && allowed(k, v) && Self::step_fn()(s, k, v) is Ok implies inv(Self::step_fn()(s, k, v)->Ok_0) by {
            Self::lemma_step_keeps_default(s, k, v, name);
        }
        assert(inv(Self::spec_start()));
        lemma_fold_keeps(Self::spec_start(), es, Self::step_fn(), inv, allowed);
    }

    /// Whether a key names a member of the oneof `value`, in either spelling.
    pub open spec fn spec_is_member_key(key: Seq<char>) -> bool {
        key == "addition"@ || key == "removal"@
    }

    /// The member of the oneof `value` that one member of an object gives: unset for
    /// `null`, else the member that the key names, read from the value.
    pub open spec fn spec_member_value(key: Seq<char>, v: JsonV) -> Result<Option<fee_asset_change::ValueV>, JsonErrorV> {
        if key == "addition"@ {
            match read_string_opt(v) {
                Ok(Some(x)) => Ok(Some(fee_asset_change::ValueV::Addition(x))),
                Ok(None) => Ok(None),
                Err(e) => Err(e),
            }
        } else if key == "removal"@ {
            match read_string_opt(v) {
                Ok(Some(x)) => Ok(Some(fee_asset_change::ValueV::Removal(x))),
                Ok(None) => Ok(None),
                Err(e) => Err(e),
            }
        } else {
            Err(JsonErrorV::UnknownField(key))
        }
    }

    /// An object whose keys each name a member of the oneof `value`, whose first `k`
    /// members are `null`, and whose member `k`, if there is one, is not `null` and reads
    /// as the member its key names: with no member past the `null` ones the oneof is
    /// unset; with member `k` last the oneof is that member; any key after member `k`,
    /// whatever its value, is refused as a duplicate under its JSON name.
    pub proof fn lemma_oneof_members(es: Seq<(Seq<char>, JsonV)>, k: int)
        requires
            0 <= k <= es.len(),
            forall|i: int| 0 <= i < es.len() ==> Self::spec_is_member_key(#[trigger] es[i].0),
            forall|i: int| 0 <= i < k ==> (#[trigger] es[i]).1 is Null,
            k < es.len() ==> es[k].1 !is Null && Self::spec_member_value(es[k].0, es[k].1) is Ok,
        ensures
            k == es.len() ==> Self::spec_from_json(JsonV::Object(es)) == Ok::<FeeAssetChangeV, JsonErrorV>(Self::spec_default()),
            k == es.len() - 1 ==> Self::spec_from_json(JsonV::Object(es))
                == Ok::<FeeAssetChangeV, JsonErrorV>(FeeAssetChangeV { value: Self::spec_member_value(es[k].0, es[k].1)->Ok_0 }),
            k < es.len() - 1 ==> Self::spec_from_json(JsonV::Object(es))
                == Err::<FeeAssetChangeV, JsonErrorV>(JsonErrorV::DuplicateField(Self::spec_json_key(es[k + 1].0))),
        decreases k,
    {
        reveal_strlit("addition");
        reveal_strlit("removal");
        assert("addition"@.len() == 8);
        assert("removal"@.len() == 7);
        let s0 = Self::spec_start();
        if es.len() > 0 {
            assert(Self::spec_is_member_key(es[0].0));
            let rest = es.drop_first();
            if k > 0 {
                assert(es[0].1 is Null);
                assert(Self::spec_step(s0, es[0].0, es[0].1) == Ok::<(FeeAssetChangeV, Seq<bool>), JsonErrorV>(s0));
                assert forall|i: int| 0 <= i < rest.len() implies Self::spec_is_member_key(#[trigger] rest[i].0) by {
                    assert(rest[i] == es[i + 1]);
                }
                assert forall|i: int| 0 <= i < k - 1 implies (#[trigger] rest[i]).1 is Null by {
                    assert(rest[i] == es[i + 1]);
                }
                if k < es.len() {
                    assert(rest[k - 1] == es[k]);
                }
                if k + 1 < es.len() {
                    assert(rest[k] == es[k + 1]);
                }
                assert(fold_entries(s0, es, Self::step_fn()) == fold_entries(s0, rest, Self::step_fn()));
                Self::lemma_oneof_members(rest, k - 1);
            } else {
                let m = FeeAssetChangeV { value: Self::spec_member_value(es[0].0, es[0].1)->Ok_0 };
                assert(m.value is Some);
                assert(Self::spec_step(s0, es[0].0, es[0].1) == Ok::<(FeeAssetChangeV, Seq<bool>), JsonErrorV>((m, s0.1)));
                assert(fold_entries(s0, es, Self::step_fn()) == fold_entries((m, s0.1), rest, Self::step_fn()));
                if es.len() > 1 {
                    assert(rest[0] == es[1]);
                    assert(Self::spec_is_member_key(es[1].0));
                    assert(Self::spec_step((m, s0.1), es[1].0, es[1].1)
                        == Err::<(FeeAssetChangeV, Seq<bool>), JsonErrorV>(JsonErrorV::DuplicateField(Self::spec_json_key(es[1].0))));
                    assert(fold_entries((m, s0.1), rest, Self::step_fn())
                        == Err::<(FeeAssetChangeV, Seq<bool>), JsonErrorV>(JsonErrorV::DuplicateField(Self::spec_json_key(es[1].0))));
                } else {
                    assert(rest.len() == 0);
                    assert(fold_entries((m, s0.1), rest, Self::step_fn()) == Ok::<(FeeAssetChangeV, Seq<bool>), JsonErrorV>((m, s0.1)));
                }
            }
        }
    }

    /// An object whose keys each name a member of the oneof `value`, and whose values other
    /// than `null` each read as the member their key names, is refused exactly when a
    /// member follows one whose value is not `null`, as a duplicate under the JSON name of
    /// the key after [`first_set`]. Otherwise the oneof is the member at [`first_set`], or
    /// unset when every value is `null`.
    pub proof fn lemma_oneof_object(es: Seq<(Seq<char>, JsonV)>)
        requires
            forall|i: int| 0 <= i < es.len() ==> Self::spec_is_member_key(#[trigger] es[i].0),
            forall|i: int| 0 <= i < es.len() && !((#[trigger] es[i]).1 is Null)
                ==> Self::spec_member_value(es[i].0, es[i].1) is Ok,
        ensures
            Self::spec_from_json(JsonV::Object(es)) is Err
                <==> exists|i: int| 0 <= i < es.len() - 1 && !((#[trigger] es[i]).1 is Null),
            first_set(es) == es.len() ==> Self::spec_from_json(JsonV::Object(es)) == Ok::<FeeAssetChangeV, JsonErrorV>(Self::spec_default()),
            first_set(es) == es.len() - 1 ==> Self::spec_from_json(JsonV::Object(es))
                == Ok::<FeeAssetChangeV, JsonErrorV>(FeeAssetChangeV { value: Self::spec_member_value(es[first_set(es)].0, es[first_set(es)].1)->Ok_0 }),
            first_set(es) < es.len() - 1 ==> Self::spec_from_json(JsonV::Object(es))
                == Err::<FeeAssetChangeV, JsonErrorV>(JsonErrorV::DuplicateField(Self::spec_json_key(es[first_set(es) + 1].0))),
    {
        lemma_first_set(es);
        let k = first_set(es);
        if k < es.len() {
            assert(!(es[k].1 is Null));
        }
        Self::lemma_oneof_members(es, k);
    }

    /// The field `addition` alone: an object with one member under its JSON or protobuf
    /// name reads as the message with that field set and every other field at its
    /// default, and the message with only that field off its default writes that
    /// one member under the JSON name.
    pub proof fn lemma_member_addition(s: Seq<char>)
        ensures
            Self::spec_from_json(JsonV::Object(seq![("addition"@, JsonV::Str(s))])) == Ok::<FeeAssetChangeV, JsonErrorV>(FeeAssetChangeV { value: Some(fee_asset_change::ValueV::Addition(s)) }),
            Self::spec_from_json(JsonV::Object(seq![("addition"@, JsonV::Null)])) == Ok::<FeeAssetChangeV, JsonErrorV>(Self::spec_default()),
            Self::spec_to_json(FeeAssetChangeV { value: Some(fee_asset_change::ValueV::Addition(s)) }) == JsonV::Object(seq![("addition"@, JsonV::Str(s))]),
    {
        reveal_strlit("addition");
        reveal_strlit("removal");
        assert("addition"@.len() == 8);
        assert("removal"@.len() == 7);
        lemma_fold_entry_if(Self::spec_start(), true, "addition"@, JsonV::Str(s), Self::step_fn());
        lemma_fold_entry_if(Self::spec_start(), true, "addition"@, JsonV::Null, Self::step_fn());
    }

    /// The field `removal` alone: an object with one member under its JSON or protobuf
    /// name reads as the message with that field set and every other field at its
    /// default, and the message with only that field off its default writes that
    /// one member under the JSON name.
    pub proof fn lemma_member_removal(s: Seq<char>)
        ensures
            Self::spec_from_json(JsonV::Object(seq![("removal"@, JsonV::Str(s))])) == Ok::<FeeAssetChangeV, JsonErrorV>(FeeAssetChangeV { value: Some(fee_asset_change::ValueV::Removal(s)) }),
            Self::spec_from_json(JsonV::Object(seq![("removal"@, JsonV::Null)])) == Ok::<FeeAssetChangeV, JsonErrorV>(Self::spec_default()),
            Self::spec_to_json(FeeAssetChangeV { value: Some(fee_asset_change::ValueV::Removal(s)) }) == JsonV::Object(seq![("removal"@, JsonV::Str(s))]),
    {
        reveal_strlit("addition");
        reveal_strlit("removal");
        assert("addition"@.len() == 8);
        assert("removal"@.len() == 7);
        lemma_fold_entry_if(Self::spec_start(), true, "removal"@, JsonV::Str(s), Self::step_fn());
        lemma_fold_entry_if(Self::spec_start(), true, "removal"@, JsonV::Null, Self::step_fn());
    }

    /// Reading back the JSON object of a message gives the message.
    pub proof fn lemma_json_roundtrip(m: FeeAssetChangeV)
        ensures Self::spec_from_json(Self::spec_to_json(m)) == Ok::<FeeAssetChangeV, JsonErrorV>(m),
    {
        let step = Self::step_fn();
        let s0 = Self::spec_start();
        let s1 = (FeeAssetChangeV { value: m.value }, s0.1);
        Self::lemma_entry_value(m, s0);
        let p1 = Self::spec_entry_value(m);
        assert(s1.0 == m);
    }
}

/// The `astria.protocol.transaction.v1.FeeChange` message.
#[derive(Clone, Debug, PartialEq)]
pub struct FeeChange {
    pub fee_components: Option<fee_change::FeeComponents>,
}

/// The mathematical content of a [`FeeChange`].
pub struct FeeChangeV {
    pub fee_components: Option<fee_change::FeeComponentsV>,
}

impl View for FeeChange {
    type V = FeeChangeV;

    open spec fn view(&self) -> FeeChangeV {
        FeeChangeV {
            fee_components: fee_change::opt_view(self.fee_components),
        }
    }
}

impl Default for FeeChange {
    fn default() -> (r: Self)
        ensures r@ == FeeChange::spec_default(),
    {
        let r = FeeChange {
            fee_components: None,
        };
        r
    }
}

impl FeeChange {
    /// The fully qualified protobuf name of the message.
    pub fn full_name() -> (r: String)
        ensures r@ == "astria.protocol.transaction.v1.FeeChange"@,
    {
        "astria.protocol.transaction.v1.FeeChange".to_string()
    }

    /// Every field at its default: empty strings, bytes and lists, zero, `false`, unset.
    pub open spec fn spec_default() -> FeeChangeV {
        FeeChangeV {
            fee_components: None,
        }
    }

    /// The view of an optional field of this message type.
    pub open spec fn view_opt(o: Option<Self>) -> Option<FeeChangeV> {
        match o {
            Some(x) => Some(x@),
            None => None,
        }
    }

    /// The view of a repeated field of this message type.
    pub open spec fn view_list(v: Seq<Self>) -> Seq<FeeChangeV> {
        v.map_values(|x: Self| x@)
    }

    /// The JSON name under which the set member of `fee_components` is written.
    pub open spec fn spec_fee_components_key(v: fee_change::FeeComponentsV) -> Seq<char> {
        match v {
            fee_change::FeeComponentsV::BridgeLock(_) => "bridgeLock"@,
            fee_change::FeeComponentsV::BridgeSudoChange(_) => "bridgeSudoChange"@,
            fee_change::FeeComponentsV::BridgeUnlock(_) => "bridgeUnlock"@,
            fee_change::FeeComponentsV::FeeAssetChange(_) => "feeAssetChange"@,
            fee_change::FeeComponentsV::FeeChange(_) => "feeChange"@,
            fee_change::FeeComponentsV::IbcRelay(_) => "ibcRelay"@,
            fee_change::FeeComponentsV::IbcRelayerChange(_) => "ibcRelayerChange"@,
            fee_change::FeeComponentsV::IbcSudoChange(_) => "ibcSudoChange"@,
            fee_change::FeeComponentsV::Ics20Withdrawal(_) => "ics20Withdrawal"@,
            fee_change::FeeComponentsV::InitBridgeAccount(_) => "initBridgeAccount"@,
            fee_change::FeeComponentsV::RollupDataSubmission(_) => "rollupDataSubmission"@,
            fee_change::FeeComponentsV::SudoAddressChange(_) => "sudoAddressChange"@,
            fee_change::FeeComponentsV::Transfer(_) => "transfer"@,
            fee_change::FeeComponentsV::ValidatorUpdate(_) => "validatorUpdate"@,
            fee_change::FeeComponentsV::BridgeTransfer(_) => "bridgeTransfer"@,
            fee_change::FeeComponentsV::RecoverIbcClient(_) => "recoverIbcClient"@,
            fee_change::FeeComponentsV::CurrencyPairsChange(_) => "currencyPairsChange"@,
            fee_change::FeeComponentsV::MarketsChange(_) => "marketsChange"@,
            fee_change::FeeComponentsV::CreateOrder(_) => "createOrder"@,
            fee_change::FeeComponentsV::CancelOrder(_) => "cancelOrder"@,
            fee_change::FeeComponentsV::CreateMarket(_) => "createMarket"@,
            fee_change::FeeComponentsV::UpdateMarket(_) => "updateMarket"@,
        }
    }

    /// The JSON value of the set member of `fee_components`.
    pub open spec fn spec_fee_components_json(v: fee_change::FeeComponentsV) -> JsonV {
        match v {
            fee_change::FeeComponentsV::BridgeLock(x) => JsonV::Object(x),
            fee_change::FeeComponentsV::BridgeSudoChange(x) => JsonV::Object(x),
            fee_change::FeeComponentsV::BridgeUnlock(x) => JsonV::Object(x),
            fee_change::FeeComponentsV::FeeAssetChange(x) => JsonV::Object(x),
            fee_change::FeeComponentsV::FeeChange(x) => JsonV::Object(x),
            fee_change::FeeComponentsV::IbcRelay(x) => JsonV::Object(x),
            fee_change::FeeComponentsV::IbcRelayerChange(x) => JsonV::Object(x),
            fee_change::FeeComponentsV::IbcSudoChange(x) => JsonV::Object(x),
            fee_change::FeeComponentsV::Ics20Withdrawal(x) => JsonV::Object(x),
            fee_change::FeeComponentsV::InitBridgeAccount(x) => JsonV::Object(x),
            fee_change::FeeComponentsV::RollupDataSubmission(x) => JsonV::Object(x),
            fee_change::FeeComponentsV::SudoAddressChange(x) => JsonV::Object(x),
            fee_change::FeeComponentsV::Transfer(x) => JsonV::Object(x),
            fee_change::FeeComponentsV::ValidatorUpdate(x) => JsonV::Object(x),
            fee_change::FeeComponentsV::BridgeTransfer(x) => JsonV::Object(x),
            fee_change::FeeComponentsV::RecoverIbcClient(x) => JsonV::Object(x),
            fee_change::FeeComponentsV::CurrencyPairsChange(x) => JsonV::Object(x),
            fee_change::FeeComponentsV::MarketsChange(x) => JsonV::Object(x),
            fee_change::FeeComponentsV::CreateOrder(x) => JsonV::Object(x),
            fee_change::FeeComponentsV::CancelOrder(x) => JsonV::Object(x),
            fee_change::FeeComponentsV::CreateMarket(x) => JsonV::Object(x),
            fee_change::FeeComponentsV::UpdateMarket(x) => JsonV::Object(x),
        }
    }

    /// The member that the field `fee_components` writes: none where it holds its default.
    pub open spec fn spec_entry_fee_components(m: FeeChangeV) -> Seq<(Seq<char>, JsonV)> {
        entry_if(m.fee_components is Some, Self::spec_fee_components_key(m.fee_components.unwrap()), Self::spec_fee_components_json(m.fee_components.unwrap()))
    }

    /// The members of the JSON object of the message: each field that does not hold
    /// its default, under its JSON name, in the order of the fields.
    pub open spec fn spec_entries(m: FeeChangeV) -> Seq<(Seq<char>, JsonV)> {
        Self::spec_entry_fee_components(m)
    }

    /// The JSON object that the protobuf JSON mapping writes for the message.
    pub open spec fn spec_to_json(m: FeeChangeV) -> JsonV {
        JsonV::Object(Self::spec_entries(m))
    }

    /// [`Self::spec_to_json`] as a function value, for repeated fields.
    pub open spec fn writer() -> spec_fn(FeeChangeV) -> JsonV {
        |m: FeeChangeV| Self::spec_to_json(m)
    }

    fn write_fee_components(&self, es: &mut Vec<(String, Json)>)
        ensures
            view_entries(final(es)@) == view_entries(old(es)@) + Self::spec_entry_fee_components(self@),
    {
        match &self.fee_components {
            Some(fee_change::FeeComponents::BridgeLock(x)) => push_entry(es, "bridgeLock", embedded_value(x)),
            Some(fee_change::FeeComponents::BridgeSudoChange(x)) => push_entry(es, "bridgeSudoChange", embedded_value(x)),
            Some(fee_change::FeeComponents::BridgeUnlock(x)) => push_entry(es, "bridgeUnlock", embedded_value(x)),
            Some(fee_change::FeeComponents::FeeAssetChange(x)) => push_entry(es, "feeAssetChange", embedded_value(x)),
            Some(fee_change::FeeComponents::FeeChange(x)) => push_entry(es, "feeChange", embedded_value(x)),
            Some(fee_change::FeeComponents::IbcRelay(x)) => push_entry(es, "ibcRelay", embedded_value(x)),
            Some(fee_change::FeeComponents::IbcRelayerChange(x)) => push_entry(es, "ibcRelayerChange", embedded_value(x)),
            Some(fee_change::FeeComponents::IbcSudoChange(x)) => push_entry(es, "ibcSudoChange", embedded_value(x)),
            Some(fee_change::FeeComponents::Ics20Withdrawal(x)) => push_entry(es, "ics20Withdrawal", embedded_value(x)),
            Some(fee_change::FeeComponents::InitBridgeAccount(x)) => push_entry(es, "initBridgeAccount", embedded_value(x)),
            Some(fee_change::FeeComponents::RollupDataSubmission(x)) => push_entry(es, "rollupDataSubmission", embedded_value(x)),
            Some(fee_change::FeeComponents::SudoAddressChange(x)) => push_entry(es, "sudoAddressChange", embedded_value(x)),
            Some(fee_change::FeeComponents::Transfer(x)) => push_entry(es, "transfer", embedded_value(x)),
            Some(fee_change::FeeComponents::ValidatorUpdate(x)) => push_entry(es, "validatorUpdate", embedded_value(x)),
            Some(fee_change::FeeComponents::BridgeTransfer(x)) => push_entry(es, "bridgeTransfer", embedded_value(x)),
            Some(fee_change::FeeComponents::RecoverIbcClient(x)) => push_entry(es, "recoverIbcClient", embedded_value(x)),
            Some(fee_change::FeeComponents::CurrencyPairsChange(x)) => push_entry(es, "currencyPairsChange", embedded_value(x)),
            Some(fee_change::FeeComponents::MarketsChange(x)) => push_entry(es, "marketsChange", embedded_value(x)),
            Some(fee_change::FeeComponents::CreateOrder(x)) => push_entry(es, "createOrder", embedded_value(x)),
            Some(fee_change::FeeComponents::CancelOrder(x)) => push_entry(es, "cancelOrder", embedded_value(x)),
            Some(fee_change::FeeComponents::CreateMarket(x)) => push_entry(es, "createMarket", embedded_value(x)),
            Some(fee_change::FeeComponents::UpdateMarket(x)) => push_entry(es, "updateMarket", embedded_value(x)),
            None => {},
        }
        assert(view_entries(es@) =~= view_entries(old(es)@) + Self::spec_entry_fee_components(self@));
    }

    /// Writes the message as a JSON object; reading it back gives the message.
    pub fn to_json(&self) -> (r: Json)
        ensures
            r@ == Self::spec_to_json(self@),
            Self::spec_from_json(r@) == Ok::<FeeChangeV, JsonErrorV>(self@),
    {
        let mut es: Vec<(String, Json)> = Vec::new();
        let ghost mut acc: Seq<(Seq<char>, JsonV)> = Seq::empty();
        proof {
            assert(view_entries(es@) =~= acc);
        }
        self.write_fee_components(&mut es);
        proof {
            acc = acc + Self::spec_entry_fee_components(self@);
        }
        proof {
            assert(acc =~= Self::spec_entries(self@));
            Self::lemma_json_roundtrip(self@);
        }
        Json::Object(es)
    }

    /// Reads one member of the object into the message under construction; `seen`
    /// records which fields that have no unset state were already given.
    pub open spec fn spec_step(st: (FeeChangeV, Seq<bool>), key: Seq<char>, v: JsonV) -> Result<(FeeChangeV, Seq<bool>), JsonErrorV> {
        let m = st.0;
        let seen = st.1;
        if key == "bridgeLock"@ || key == "bridge_lock"@ {
            if m.fee_components is Some {
                Err(JsonErrorV::DuplicateField("bridgeLock"@))
            } else {
                match read_embedded(v) {
                    Ok(Some(x)) => Ok((FeeChangeV { fee_components: Some(fee_change::FeeComponentsV::BridgeLock(x)) }, seen)),
                    Ok(None) => Ok((FeeChangeV { fee_components: None }, seen)),
                    Err(e) => Err(e),
                }
            }
        } else if key == "bridgeSudoChange"@ || key == "bridge_sudo_change"@ {
            if m.fee_components is Some {
                Err(JsonErrorV::DuplicateField("bridgeSudoChange"@))
            } else {
                match read_embedded(v) {
                    Ok(Some(x)) => Ok((FeeChangeV { fee_components: Some(fee_change::FeeComponentsV::BridgeSudoChange(x)) }, seen)),
                    Ok(None) => Ok((FeeChangeV { fee_components: None }, seen)),
                    Err(e) => Err(e),
                }
            }
        } else if key == "bridgeUnlock"@ || key == "bridge_unlock"@ {
            if m.fee_components is Some {
                Err(JsonErrorV::DuplicateField("bridgeUnlock"@))
            } else {
                match read_embedded(v) {
                    Ok(Some(x)) => Ok((FeeChangeV { fee_components: Some(fee_change::FeeComponentsV::BridgeUnlock(x)) }, seen)),
                    Ok(None) => Ok((FeeChangeV { fee_components: None }, seen)),
                    Err(e) => Err(e),
                }
            }
        } else if key == "feeAssetChange"@ || key == "fee_asset_change"@ {
            if m.fee_components is Some {
                Err(JsonErrorV::DuplicateField("feeAssetChange"@))
            } else {
                match read_embedded(v) {
                    Ok(Some(x)) => Ok((FeeChangeV { fee_components: Some(fee_change::FeeComponentsV::FeeAssetChange(x)) }, seen)),
                    Ok(None) => Ok((FeeChangeV { fee_components: None }, seen)),
                    Err(e) => Err(e),
                }
            }
        } else if key == "feeChange"@ || key == "fee_change"@ {
            if m.fee_components is Some {
                Err(JsonErrorV::DuplicateField("feeChange"@))
            } else {
                match read_embedded(v) {
                    Ok(Some(x)) => Ok((FeeChangeV { fee_components: Some(fee_change::FeeComponentsV::FeeChange(x)) }, seen)),
                    Ok(None) => Ok((FeeChangeV { fee_components: None }, seen)),
                    Err(e) => Err(e),
                }
            }
        } else if key == "ibcRelay"@ || key == "ibc_relay"@ {
            if m.fee_components is Some {
                Err(JsonErrorV::DuplicateField("ibcRelay"@))
            } else {
                match read_embedded(v) {
                    Ok(Some(x)) => Ok((FeeChangeV { fee_components: Some(fee_change::FeeComponentsV::IbcRelay(x)) }, seen)),
                    Ok(None) => Ok((FeeChangeV { fee_components: None }, seen)),
                    Err(e) => Err(e),
                }
            }
        } else if key == "ibcRelayerChange"@ || key == "ibc_relayer_change"@ {
            if m.fee_components is Some {
                Err(JsonErrorV::DuplicateField("ibcRelayerChange"@))
            } else {
                match read_embedded(v) {
                    Ok(Some(x)) => Ok((FeeChangeV { fee_components: Some(fee_change::FeeComponentsV::IbcRelayerChange(x)) }, seen)),
                    Ok(None) => Ok((FeeChangeV { fee_components: None }, seen)),
                    Err(e) => Err(e),
                }
            }
        } else if key == "ibcSudoChange"@ || key == "ibc_sudo_change"@ {
            if m.fee_components is Some {
                Err(JsonErrorV::DuplicateField("ibcSudoChange"@))
            } else {
                match read_embedded(v) {
                    Ok(Some(x)) => Ok((FeeChangeV { fee_components: Some(fee_change::FeeComponentsV::IbcSudoChange(x)) }, seen)),
                    Ok(None) => Ok((FeeChangeV { fee_components: None }, seen)),
                    Err(e) => Err(e),
                }
            }
        } else if key == "ics20Withdrawal"@ || key == "ics20_withdrawal"@ {
            if m.fee_components is Some {
                Err(JsonErrorV::DuplicateField("ics20Withdrawal"@))
            } else {
                match read_embedded(v) {
                    Ok(Some(x)) => Ok((FeeChangeV { fee_components: Some(fee_change::FeeComponentsV::Ics20Withdrawal(x)) }, seen)),
                    Ok(None) => Ok((FeeChangeV { fee_components: None }, seen)),
                    Err(e) => Err(e),
                }
            }
        } else if key == "initBridgeAccount"@ || key == "init_bridge_account"@ {
            if m.fee_components is Some {
                Err(JsonErrorV::DuplicateField("initBridgeAccount"@))
            } else {
                match read_embedded(v) {
                    Ok(Some(x)) => Ok((FeeChangeV { fee_components: Some(fee_change::FeeComponentsV::InitBridgeAccount(x)) }, seen)),
                    Ok(None) => Ok((FeeChangeV { fee_components: None }, seen)),
                    Err(e) => Err(e),
                }
            }
        } else if key == "rollupDataSubmission"@ || key == "rollup_data_submission"@ {
            if m.fee_components is Some {
                Err(JsonErrorV::DuplicateField("rollupDataSubmission"@))
            } else {
                match read_embedded(v) {
                    Ok(Some(x)) => Ok((FeeChangeV { fee_components: Some(fee_change::FeeComponentsV::RollupDataSubmission(x)) }, seen)),
                    Ok(None) => Ok((FeeChangeV { fee_components: None }, seen)),
                    Err(e) => Err(e),
                }
            }
        } else if key == "sudoAddressChange"@ || key == "sudo_address_change"@ {
            if m.fee_components is Some {
                Err(JsonErrorV::DuplicateField("sudoAddressChange"@))
            } else {
                match read_embedded(v) {
                    Ok(Some(x)) => Ok((FeeChangeV { fee_components: Some(fee_change::FeeComponentsV::SudoAddressChange(x)) }, seen)),
                    Ok(None) => Ok((FeeChangeV { fee_components: None }, seen)),
                    Err(e) => Err(e),
                }
            }
        } else if key == "transfer"@ {
            if m.fee_components is Some {
                Err(JsonErrorV::DuplicateField("transfer"@))
            } else {
                match read_embedded(v) {
                    Ok(Some(x)) => Ok((FeeChangeV { fee_components: Some(fee_change::FeeComponentsV::Transfer(x)) }, seen)),
                    Ok(None) => Ok((FeeChangeV { fee_components: None }, seen)),
                    Err(e) => Err(e),
                }
            }
        } else if key == "validatorUpdate"@ || key == "validator_update"@ {
            if m.fee_components is Some {
                Err(JsonErrorV::DuplicateField("validatorUpdate"@))
            } else {
                match read_embedded(v) {
                    Ok(Some(x)) => Ok((FeeChangeV { fee_components: Some(fee_change::FeeComponentsV::ValidatorUpdate(x)) }, seen)),
                    Ok(None) => Ok((FeeChangeV { fee_components: None }, seen)),
                    Err(e) => Err(e),
                }
            }
        } else if key == "bridgeTransfer"@ || key == "bridge_transfer"@ {
            if m.fee_components is Some {
                Err(JsonErrorV::DuplicateField("bridgeTransfer"@))
            } else {
                match read_embedded(v) {
                    Ok(Some(x)) => Ok((FeeChangeV { fee_components: Some(fee_change::FeeComponentsV::BridgeTransfer(x)) }, seen)),
                    Ok(None) => Ok((FeeChangeV { fee_components: None }, seen)),
                    Err(e) => Err(e),
                }
            }
        } else if key == "recoverIbcClient"@ || key == "recover_ibc_client"@ {
            if m.fee_components is Some {
                Err(JsonErrorV::DuplicateField("recoverIbcClient"@))
            } else {
                match read_embedded(v) {
                    Ok(Some(x)) => Ok((FeeChangeV { fee_components: Some(fee_change::FeeComponentsV::RecoverIbcClient(x)) }, seen)),
                    Ok(None) => Ok((FeeChangeV { fee_components: None }, seen)),
                    Err(e) => Err(e),
                }
            }
        } else if key == "currencyPairsChange"@ || key == "currency_pairs_change"@ {
            if m.fee_components is Some {
                Err(JsonErrorV::DuplicateField("currencyPairsChange"@))
            } else {
                match read_embedded(v) {
                    Ok(Some(x)) => Ok((FeeChangeV { fee_components: Some(fee_change::FeeComponentsV::CurrencyPairsChange(x)) }, seen)),
                    Ok(None) => Ok((FeeChangeV { fee_components: None }, seen)),
                    Err(e) => Err(e),
                }
            }
        } else if key == "marketsChange"@ || key == "markets_change"@ {
            if m.fee_components is Some {
                Err(JsonErrorV::DuplicateField("marketsChange"@))
            } else {
                match read_embedded(v) {
                    Ok(Some(x)) => Ok((FeeChangeV { fee_components: Some(fee_change::FeeComponentsV::MarketsChange(x)) }, seen)),
                    Ok(None) => Ok((FeeChangeV { fee_components: None }, seen)),
                    Err(e) => Err(e),
                }
            }
        } else if key == "createOrder"@ || key == "create_order"@ {
            if m.fee_components is Some {
                Err(JsonErrorV::DuplicateField("createOrder"@))
            } else {
                match read_embedded(v) {
                    Ok(Some(x)) => Ok((FeeChangeV { fee_components: Some(fee_change::FeeComponentsV::CreateOrder(x)) }, seen)),
                    Ok(None) => Ok((FeeChangeV { fee_components: None }, seen)),
                    Err(e) => Err(e),
                }
            }
        } else if key == "cancelOrder"@ || key == "cancel_order"@ {
            if m.fee_components is Some {
                Err(JsonErrorV::DuplicateField("cancelOrder"@))
            } else {
                match read_embedded(v) {
                    Ok(Some(x)) => Ok((FeeChangeV { fee_components: Some(fee_change::FeeComponentsV::CancelOrder(x)) }, seen)),
                    Ok(None) => Ok((FeeChangeV { fee_components: None }, seen)),
                    Err(e) => Err(e),
                }
            }
        } else if key == "createMarket"@ || key == "create_market"@ {
            if m.fee_components is Some {
                Err(JsonErrorV::DuplicateField("createMarket"@))
            } else {
                match read_embedded(v) {
                    Ok(Some(x)) => Ok((FeeChangeV { fee_components: Some(fee_change::FeeComponentsV::CreateMarket(x)) }, seen)),
                    Ok(None) => Ok((FeeChangeV { fee_components: None }, seen)),
                    Err(e) => Err(e),
                }
            }
        } else if key == "updateMarket"@ || key == "update_market"@ {
            if m.fee_components is Some {
                Err(JsonErrorV::DuplicateField("updateMarket"@))
            } else {
                match read_embedded(v) {
                    Ok(Some(x)) => Ok((FeeChangeV { fee_components: Some(fee_change::FeeComponentsV::UpdateMarket(x)) }, seen)),
                    Ok(None) => Ok((FeeChangeV { fee_components: None }, seen)),
                    Err(e) => Err(e),
                }
            }
        } else {
            Err(JsonErrorV::UnknownField(key))
        }
    }

    /// [`Self::spec_step`] as a function value.
    pub open spec fn step_fn() -> spec_fn((FeeChangeV, Seq<bool>), Seq<char>, JsonV) -> Result<(FeeChangeV, Seq<bool>), JsonErrorV> {
        |st: (FeeChangeV, Seq<bool>), key: Seq<char>, v: JsonV| Self::spec_step(st, key, v)
    }

    /// The state before the first member is read: the default message, no field seen.
    pub open spec fn spec_start() -> (FeeChangeV, Seq<bool>) {
        (Self::spec_default(), Seq::<bool>::empty())
    }

    /// The message that a JSON value describes: an object whose keys each name a field
    /// (by its JSON name or its protobuf name), at most once each; fields that are not
    /// given keep their default. The first member that is refused gives the error.
    pub open spec fn spec_from_json(j: JsonV) -> Result<FeeChangeV, JsonErrorV> {
        match j {
            JsonV::Object(es) => match fold_entries(Self::spec_start(), es, Self::step_fn()) {
                Ok(st) => Ok(st.0),
                Err(e) => Err(e),
            },
            _ => Err(JsonErrorV::ExpectedObject),
        }
    }

    /// [`Self::spec_from_json`] as a function value, for repeated fields.
    pub open spec fn reader() -> spec_fn(JsonV) -> Result<FeeChangeV, JsonErrorV> {
        |v: JsonV| Self::spec_from_json(v)
    }

    /// An optional field of this message type: `null` leaves it unset.
    pub open spec fn spec_read_opt(v: JsonV) -> Result<Option<FeeChangeV>, JsonErrorV> {
        match v {
            JsonV::Null => Ok(None),
            _ => match Self::spec_from_json(v) {
                Ok(x) => Ok(Some(x)),
                Err(e) => Err(e),
            },
        }
    }

    fn step(m: Self, seen: Vec<bool>, key: &String, v: &Json) -> (r: Result<(Self, Vec<bool>), JsonError>)
        requires seen@.len() == 0,
        ensures
            match r {
                Ok((m2, seen2)) => Self::spec_step((m@, seen@), key@, v@) == Ok::<(FeeChangeV, Seq<bool>), JsonErrorV>((m2@, seen2@)) && seen2@.len() == 0,
                Err(e) => Self::spec_step((m@, seen@), key@, v@) == Err::<(FeeChangeV, Seq<bool>), JsonErrorV>(e@),
            },
    {
        let mut m = m;
        let mut seen = seen;
        let k = key.as_str();
        if str_eq(k, "bridgeLock") || str_eq(k, "bridge_lock") {
            if m.fee_components.is_some() {
                return Err(JsonError::DuplicateField("bridgeLock".to_string()));
            }
            match embedded_field(v) {
                Ok(Some(x)) => m.fee_components = Some(fee_change::FeeComponents::BridgeLock(x)),
                Ok(None) => m.fee_components = None,
                Err(e) => return Err(e),
            }
        } else if str_eq(k, "bridgeSudoChange") || str_eq(k, "bridge_sudo_change") {
            if m.fee_components.is_some() {
                return Err(JsonError::DuplicateField("bridgeSudoChange".to_string()));
            }
            match embedded_field(v) {
                Ok(Some(x)) => m.fee_components = Some(fee_change::FeeComponents::BridgeSudoChange(x)),
                Ok(None) => m.fee_components = None,
                Err(e) => return Err(e),
            }
        } else if str_eq(k, "bridgeUnlock") || str_eq(k, "bridge_unlock") {
            if m.fee_components.is_some() {
                return Err(JsonError::DuplicateField("bridgeUnlock".to_string()));
            }
            match embedded_field(v) {
                Ok(Some(x)) => m.fee_components = Some(fee_change::FeeComponents::BridgeUnlock(x)),
                Ok(None) => m.fee_components = None,
                Err(e) => return Err(e),
            }
        } else if str_eq(k, "feeAssetChange") || str_eq(k, "fee_asset_change") {
            if m.fee_components.is_some() {
                return Err(JsonError::DuplicateField("feeAssetChange".to_string()));
            }
            match embedded_field(v) {
                Ok(Some(x)) => m.fee_components = Some(fee_change::FeeComponents::FeeAssetChange(x)),
                Ok(None) => m.fee_components = None,
                Err(e) => return Err(e),
            }
        } else if str_eq(k, "feeChange") || str_eq(k, "fee_change") {
            if m.fee_components.is_some() {
                return Err(JsonError::DuplicateField("feeChange".to_string()));
            }
            match embedded_field(v) {
                Ok(Some(x)) => m.fee_components = Some(fee_change::FeeComponents::FeeChange(x)),
                Ok(None) => m.fee_components = None,
                Err(e) => return Err(e),
            }
        } else if str_eq(k, "ibcRelay") || str_eq(k, "ibc_relay") {
            if m.fee_components.is_some() {
                return Err(JsonError::DuplicateField("ibcRelay".to_string()));
            }
            match embedded_field(v) {
                Ok(Some(x)) => m.fee_components = Some(fee_change::FeeComponents::IbcRelay(x)),
                Ok(None) => m.fee_components = None,
                Err(e) => return Err(e),
            }
        } else if str_eq(k, "ibcRelayerChange") || str_eq(k, "ibc_relayer_change") {
            if m.fee_components.is_some() {
                return Err(JsonError::DuplicateField("ibcRelayerChange".to_string()));
            }
            match embedded_field(v) {
                Ok(Some(x)) => m.fee_components = Some(fee_change::FeeComponents::IbcRelayerChange(x)),
                Ok(None) => m.fee_components = None,
                Err(e) => return Err(e),
            }
        } else if str_eq(k, "ibcSudoChange") || str_eq(k, "ibc_sudo_change") {
            if m.fee_components.is_some() {
                return Err(JsonError::DuplicateField("ibcSudoChange".to_string()));
            }
            match embedded_field(v) {
                Ok(Some(x)) => m.fee_components = Some(fee_change::FeeComponents::IbcSudoChange(x)),
                Ok(None) => m.fee_components = None,
                Err(e) => return Err(e),
            }
        } else if str_eq(k, "ics20Withdrawal") || str_eq(k, "ics20_withdrawal") {
            if m.fee_components.is_some() {
                return Err(JsonError::DuplicateField("ics20Withdrawal".to_string()));
            }
            match embedded_field(v) {
                Ok(Some(x)) => m.fee_components = Some(fee_change::FeeComponents::Ics20Withdrawal(x)),
                Ok(None) => m.fee_components = None,
                Err(e) => return Err(e),
            }
        } else if str_eq(k, "initBridgeAccount") || str_eq(k, "init_bridge_account") {
            if m.fee_components.is_some() {
                return Err(JsonError::DuplicateField("initBridgeAccount".to_string()));
            }
            match embedded_field(v) {
                Ok(Some(x)) => m.fee_components = Some(fee_change::FeeComponents::InitBridgeAccount(x)),
                Ok(None) => m.fee_components = None,
                Err(e) => return Err(e),
            }
        } else if str_eq(k, "rollupDataSubmission") || str_eq(k, "rollup_data_submission") {
            if m.fee_components.is_some() {
                return Err(JsonError::DuplicateField("rollupDataSubmission".to_string()));
            }
            match embedded_field(v) {
                Ok(Some(x)) => m.fee_components = Some(fee_change::FeeComponents::RollupDataSubmission(x)),
                Ok(None) => m.fee_components = None,
                Err(e) => return Err(e),
            }
        } else if str_eq(k, "sudoAddressChange") || str_eq(k, "sudo_address_change") {
            if m.fee_components.is_some() {
                return Err(JsonError::DuplicateField("sudoAddressChange".to_string()));
            }
            match embedded_field(v) {
                Ok(Some(x)) => m.fee_components = Some(fee_change::FeeComponents::SudoAddressChange(x)),
                Ok(None) => m.fee_components = None,
                Err(e) => return Err(e),
            }
        } else if str_eq(k, "transfer") {
            if m.fee_components.is_some() {
                return Err(JsonError::DuplicateField("transfer".to_string()));
            }
            match embedded_field(v) {
                Ok(Some(x)) => m.fee_components = Some(fee_change::FeeComponents::Transfer(x)),
                Ok(None) => m.fee_components = None,
                Err(e) => return Err(e),
            }
        } else if str_eq(k, "validatorUpdate") || str_eq(k, "validator_update") {
            if m.fee_components.is_some() {
                return Err(JsonError::DuplicateField("validatorUpdate".to_string()));
            }
            match embedded_field(v) {
                Ok(Some(x)) => m.fee_components = Some(fee_change::FeeComponents::ValidatorUpdate(x)),
                Ok(None) => m.fee_components = None,
                Err(e) => return Err(e),
            }
        } else if str_eq(k, "bridgeTransfer") || str_eq(k, "bridge_transfer") {
            if m.fee_components.is_some() {
                return Err(JsonError::DuplicateField("bridgeTransfer".to_string()));
            }
            match embedded_field(v) {
                Ok(Some(x)) => m.fee_components = Some(fee_change::FeeComponents::BridgeTransfer(x)),
                Ok(None) => m.fee_components = None,
                Err(e) => return Err(e),
            }
        } else if str_eq(k, "recoverIbcClient") || str_eq(k, "recover_ibc_client") {
            if m.fee_components.is_some() {
                return Err(JsonError::DuplicateField("recoverIbcClient".to_string()));
            }
            match embedded_field(v) {
                Ok(Some(x)) => m.fee_components = Some(fee_change::FeeComponents::RecoverIbcClient(x)),
                Ok(None) => m.fee_components = None,
                Err(e) => return Err(e),
            }
        } else if str_eq(k, "currencyPairsChange") || str_eq(k, "currency_pairs_change") {
            if m.fee_components.is_some() {
                return Err(JsonError::DuplicateField("currencyPairsChange".to_string()));
            }
            match embedded_field(v) {
                Ok(Some(x)) => m.fee_components = Some(fee_change::FeeComponents::CurrencyPairsChange(x)),
                Ok(None) => m.fee_components = None,
                Err(e) => return Err(e),
            }
        } else if str_eq(k, "marketsChange") || str_eq(k, "markets_change") {
            if m.fee_components.is_some() {
                return Err(JsonError::DuplicateField("marketsChange".to_string()));
            }
            match embedded_field(v) {
                Ok(Some(x)) => m.fee_components = Some(fee_change::FeeComponents::MarketsChange(x)),
                Ok(None) => m.fee_components = None,
                Err(e) => return Err(e),
            }
        } else if str_eq(k, "createOrder") || str_eq(k, "create_order") {
            if m.fee_components.is_some() {
                return Err(JsonError::DuplicateField("createOrder".to_string()));
            }
            match embedded_field(v) {
                Ok(Some(x)) => m.fee_components = Some(fee_change::FeeComponents::CreateOrder(x)),
                Ok(None) => m.fee_components = None,
                Err(e) => return Err(e),
            }
        } else if str_eq(k, "cancelOrder") || str_eq(k, "cancel_order") {
            if m.fee_components.is_some() {
                return Err(JsonError::DuplicateField("cancelOrder".to_string()));
            }
            match embedded_field(v) {
                Ok(Some(x)) => m.fee_components = Some(fee_change::FeeComponents::CancelOrder(x)),
                Ok(None) => m.fee_components = None,
                Err(e) => return Err(e),
            }
        } else if str_eq(k, "createMarket") || str_eq(k, "create_market") {
            if m.fee_components.is_some() {
                return Err(JsonError::DuplicateField("createMarket".to_string()));
            }
            match embedded_field(v) {
                Ok(Some(x)) => m.fee_components = Some(fee_change::FeeComponents::CreateMarket(x)),
                Ok(None) => m.fee_components = None,
                Err(e) => return Err(e),
            }
        } else if str_eq(k, "updateMarket") || str_eq(k, "update_market") {
            if m.fee_components.is_some() {
                return Err(JsonError::DuplicateField("updateMarket".to_string()));
            }
            match embedded_field(v) {
                Ok(Some(x)) => m.fee_components = Some(fee_change::FeeComponents::UpdateMarket(x)),
                Ok(None) => m.fee_components = None,
                Err(e) => return Err(e),
            }
        } else {
            return Err(JsonError::UnknownField(key.clone()));
        }
        Ok((m, seen))
    }

    /// Reads the message from a JSON value, as [`Self::spec_from_json`] describes.
    pub fn from_json(j: &Json) -> (r: Result<Self, JsonError>)
        ensures
            match r {
                Ok(m) => Self::spec_from_json(j@) == Ok::<FeeChangeV, JsonErrorV>(m@),
                Err(e) => Self::spec_from_json(j@) == Err::<FeeChangeV, JsonErrorV>(e@),
            },
    {
        let es = match j {
            Json::Object(es) => es,
            _ => return Err(JsonError::ExpectedObject),
        };
        let ghost ves = view_entries(es@);
        proof {
            lemma_view_entries_len(es@);
            assert(j@ == JsonV::Object(ves));
        }
        let mut m = Self::default();
        let mut seen: Vec<bool> = Vec::new();
        let mut i: usize = 0;
        proof {
            assert(seen@ =~= Self::spec_start().1);
            assert(ves.skip(0) == ves);
        }
        while i < es.len()
            invariant
                j@ == JsonV::Object(ves),
                ves == view_entries(es@),
                ves.len() == es@.len(),
                i <= es.len(),
                seen@.len() == 0,
                fold_entries(Self::spec_start(), ves, Self::step_fn())
                    == fold_entries((m@, seen@), ves.skip(i as int), Self::step_fn()),
            decreases es.len() - i,
        {
            proof {
                lemma_view_entries_index(es@, i as int);
                lemma_fold_entries_step((m@, seen@), ves, i as int, Self::step_fn());
            }
            match Self::step(m, seen, &es[i].0, &es[i].1) {
                Ok((m2, seen2)) => {
                    m = m2;
                    seen = seen2;
                },
                Err(e) => return Err(e),
            }
            i = i + 1;
        }
        proof {
            assert(ves.skip(ves.len() as int) == Seq::<(Seq<char>, JsonV)>::empty());
            assert(fold_entries((m@, seen@), ves.skip(ves.len() as int), Self::step_fn())
                == Ok::<(FeeChangeV, Seq<bool>), JsonErrorV>((m@, seen@)));
        }
        Ok(m)
    }

    /// Reads an optional field of this message type.
    pub fn opt_from_json(v: &Json) -> (r: Result<Option<Self>, JsonError>)
        ensures
            match r {
                Ok(None) => Self::spec_read_opt(v@) == Ok::<Option<FeeChangeV>, JsonErrorV>(None),
                Ok(Some(x)) => Self::spec_read_opt(v@) == Ok::<Option<FeeChangeV>, JsonErrorV>(Some(x@)),
                Err(e) => Self::spec_read_opt(v@) == Err::<Option<FeeChangeV>, JsonErrorV>(e@),
            },
    {
        match v {
            Json::Null => Ok(None),
            _ => match Self::from_json(v) {
                Ok(x) => Ok(Some(x)),
                Err(e) => Err(e),
            },
        }
    }

    /// Reading the member that the field `fee_components` writes sets the field.
    pub proof fn lemma_entry_fee_components(m: FeeChangeV, st: (FeeChangeV, Seq<bool>))
        requires
            st.1.len() == 0,
            st.0.fee_components is None,
        ensures
            fold_entries(st, Self::spec_entry_fee_components(m), Self::step_fn()) == Ok::<(FeeChangeV, Seq<bool>), JsonErrorV>((FeeChangeV { fee_components: m.fee_components }, st.1)),
    {
        reveal_strlit("bridgeLock");
        reveal_strlit("bridge_lock");
        reveal_strlit("bridgeSudoChange");
        reveal_strlit("bridge_sudo_change");
        reveal_strlit("bridgeUnlock");
        reveal_strlit("bridge_unlock");
        reveal_strlit("feeAssetChange");
        reveal_strlit("fee_asset_change");
        reveal_strlit("feeChange");
        reveal_strlit("fee_change");
        reveal_strlit("ibcRelay");
        reveal_strlit("ibc_relay");
        reveal_strlit("ibcRelayerChange");
        reveal_strlit("ibc_relayer_change");
        reveal_strlit("ibcSudoChange");
        reveal_strlit("ibc_sudo_change");
        reveal_strlit("ics20Withdrawal");
        reveal_strlit("ics20_withdrawal");
        reveal_strlit("initBridgeAccount");
        reveal_strlit("init_bridge_account");
        reveal_strlit("rollupDataSubmission");
        reveal_strlit("rollup_data_submission");
        reveal_strlit("sudoAddressChange");
        reveal_strlit("sudo_address_change");
        reveal_strlit("transfer");
        reveal_strlit("validatorUpdate");
        reveal_strlit("validator_update");
        reveal_strlit("bridgeTransfer");
        reveal_strlit("bridge_transfer");
        reveal_strlit("recoverIbcClient");
        reveal_strlit("recover_ibc_client");
        reveal_strlit("currencyPairsChange");
        reveal_strlit("currency_pairs_change");
        reveal_strlit("marketsChange");
        reveal_strlit("markets_change");
        reveal_strlit("createOrder");
        reveal_strlit("create_order");
        reveal_strlit("cancelOrder");
        reveal_strlit("cancel_order");
        reveal_strlit("createMarket");
        reveal_strlit("create_market");
        reveal_strlit("updateMarket");
        reveal_strlit("update_market");
        assert("bridgeLock"@.len() == 10);
        assert("bridge_lock"@.len() == 11);
        assert("bridgeSudoChange"@.len() == 16);
        assert("bridge_sudo_change"@.len() == 18);
        assert("bridgeUnlock"@.len() == 12);
        assert("bridge_unlock"@.len() == 13);
        assert("feeAssetChange"@.len() == 14);
        assert("fee_asset_change"@.len() == 16);
        assert("feeChange"@.len() == 9);
        assert("fee_change"@.len() == 10);
        assert("ibcRelay"@.len() == 8);
        assert("ibc_relay"@.len() == 9);
        assert("ibcRelayerChange"@.len() == 16);
        assert("ibc_relayer_change"@.len() == 18);
        assert("ibcSudoChange"@.len() == 13);
        assert("ibc_sudo_change"@.len() == 15);
        assert("ics20Withdrawal"@.len() == 15);
        assert("ics20_withdrawal"@.len() == 16);
        assert("initBridgeAccount"@.len() == 17);
        assert("init_bridge_account"@.len() == 19);
        assert("rollupDataSubmission"@.len() == 20);
        assert("rollup_data_submission"@.len() == 22);
        assert("sudoAddressChange"@.len() == 17);
        assert("sudo_address_change"@.len() == 19);
        assert("transfer"@.len() == 8);
        assert("validatorUpdate"@.len() == 15);
        assert("validator_update"@.len() == 16);
        assert("bridgeTransfer"@.len() == 14);
        assert("bridge_transfer"@.len() == 15);
        assert("recoverIbcClient"@.len() == 16);
        assert("recover_ibc_client"@.len() == 18);
        assert("currencyPairsChange"@.len() == 19);
        assert("currency_pairs_change"@.len() == 21);
        assert("marketsChange"@.len() == 13);
        assert("markets_change"@.len() == 14);
        assert("createOrder"@.len() == 11);
        assert("create_order"@.len() == 12);
        assert("cancelOrder"@.len() == 11);
        assert("cancel_order"@.len() == 12);
        assert("createMarket"@.len() == 12);
        assert("create_market"@.len() == 13);
        assert("updateMarket"@.len() == 12);
        assert("update_market"@.len() == 13);
        assert("bridgeLock"@[0] != "fee_change"@[0]);
        assert("bridge_lock"@[0] != "createOrder"@[0]);
        assert("bridge_lock"@[0] != "cancelOrder"@[0]);
        assert("bridgeSudoChange"@[0] != "fee_asset_change"@[0]);
        assert("bridgeSudoChange"@[0] != "ibcRelayerChange"@[0]);
        assert("bridgeSudoChange"@[0] != "ics20_withdrawal"@[0]);
        assert("bridgeSudoChange"@[0] != "validator_update"@[0]);
        assert("bridgeSudoChange"@[0] != "recoverIbcClient"@[0]);
        assert("bridge_sudo_change"@[0] != "ibc_relayer_change"@[0]);
        assert("bridge_sudo_change"@[0] != "recover_ibc_client"@[0]);
        assert("bridgeUnlock"@[0] != "create_order"@[0]);
        assert("bridgeUnlock"@[0] != "cancel_order"@[0]);
        assert("bridgeUnlock"@[0] != "createMarket"@[0]);
        assert("bridgeUnlock"@[0] != "updateMarket"@[0]);
        assert("bridge_unlock"@[0] != "ibcSudoChange"@[0]);
        assert("bridge_unlock"@[0] != "marketsChange"@[0]);
        assert("bridge_unlock"@[0] != "create_market"@[0]);
        assert("bridge_unlock"@[0] != "update_market"@[0]);
        assert("feeAssetChange"@[0] != "bridgeTransfer"@[0]);
        assert("feeAssetChange"@[0] != "markets_change"@[0]);
        assert("fee_asset_change"@[0] != "ibcRelayerChange"@[0]);
        assert("fee_asset_change"@[0] != "ics20_withdrawal"@[0]);
        assert("fee_asset_change"@[0] != "validator_update"@[0]);
        assert("fee_asset_change"@[0] != "recoverIbcClient"@[0]);
        assert("feeChange"@[0] != "ibc_relay"@[0]);
        assert("ibcRelay"@[0] != "transfer"@[0]);
        assert("ibcRelayerChange"@[1] != "ics20_withdrawal"@[1]);
        assert("ibcRelayerChange"@[0] != "validator_update"@[0]);
        assert("ibcRelayerChange"@[0] != "recoverIbcClient"@[0]);
        assert("ibc_relayer_change"@[0] != "recover_ibc_client"@[0]);
        assert("ibcSudoChange"@[0] != "marketsChange"@[0]);
        assert("ibcSudoChange"@[0] != "create_market"@[0]);
        assert("ibcSudoChange"@[0] != "update_market"@[0]);
        assert("ibc_sudo_change"@[1] != "ics20Withdrawal"@[1]);
        assert("ibc_sudo_change"@[0] != "validatorUpdate"@[0]);
        assert("ibc_sudo_change"@[0] != "bridge_transfer"@[0]);
        assert("ics20Withdrawal"@[0] != "validatorUpdate"@[0]);
        assert("ics20Withdrawal"@[0] != "bridge_transfer"@[0]);
        assert("ics20_withdrawal"@[0] != "validator_update"@[0]);
        assert("ics20_withdrawal"@[0] != "recoverIbcClient"@[0]);
        assert("initBridgeAccount"@[0] != "sudoAddressChange"@[0]);
        assert("init_bridge_account"@[0] != "sudo_address_change"@[0]);
        assert("init_bridge_account"@[0] != "currencyPairsChange"@[0]);
        assert("sudo_address_change"@[0] != "currencyPairsChange"@[0]);
        assert("validatorUpdate"@[0] != "bridge_transfer"@[0]);
        assert("validator_update"@[0] != "recoverIbcClient"@[0]);
        assert("bridgeTransfer"@[0] != "markets_change"@[0]);
        assert("marketsChange"@[0] != "create_market"@[0]);
        assert("marketsChange"@[0] != "update_market"@[0]);
        assert("createOrder"@[1] != "cancelOrder"@[1]);
        assert("create_order"@[1] != "cancel_order"@[1]);
        assert("create_order"@[6] != "createMarket"@[6]);
        assert("create_order"@[0] != "updateMarket"@[0]);
        assert("cancel_order"@[1] != "createMarket"@[1]);
        assert("cancel_order"@[0] != "updateMarket"@[0]);
        assert("createMarket"@[0] != "updateMarket"@[0]);
        assert("create_market"@[0] != "update_market"@[0]);
        match m.fee_components {
            _ => {},
        }
        lemma_fold_entry_if(st, m.fee_components is Some, Self::spec_fee_components_key(m.fee_components.unwrap()), Self::spec_fee_components_json(m.fee_components.unwrap()), Self::step_fn());
    }

    /// The JSON spelling of a key: the protobuf name of a field becomes its JSON name;
    /// a JSON name, and any key that names no field, is left as it is.
    pub open spec fn spec_json_key(key: Seq<char>) -> Seq<char> {
        if key == "bridgeLock"@ || key == "bridge_lock"@ {
            "bridgeLock"@
        } else if key == "bridgeSudoChange"@ || key == "bridge_sudo_change"@ {
            "bridgeSudoChange"@
        } else if key == "bridgeUnlock"@ || key == "bridge_unlock"@ {
            "bridgeUnlock"@
        } else if key == "feeAssetChange"@ || key == "fee_asset_change"@ {
            "feeAssetChange"@
        } else if key == "feeChange"@ || key == "fee_change"@ {
            "feeChange"@
        } else if key == "ibcRelay"@ || key == "ibc_relay"@ {
            "ibcRelay"@
        } else if key == "ibcRelayerChange"@ || key == "ibc_relayer_change"@ {
            "ibcRelayerChange"@
        } else if key == "ibcSudoChange"@ || key == "ibc_sudo_change"@ {
            "ibcSudoChange"@
        } else if key == "ics20Withdrawal"@ || key == "ics20_withdrawal"@ {
            "ics20Withdrawal"@
        } else if key == "initBridgeAccount"@ || key == "init_bridge_account"@ {
            "initBridgeAccount"@
        } else if key == "rollupDataSubmission"@ || key == "rollup_data_submission"@ {
            "rollupDataSubmission"@
        } else if key == "sudoAddressChange"@ || key == "sudo_address_change"@ {
            "sudoAddressChange"@
        } else if key == "transfer"@ {
            "transfer"@
        } else if key == "validatorUpdate"@ || key == "validator_update"@ {
            "validatorUpdate"@
        } else if key == "bridgeTransfer"@ || key == "bridge_transfer"@ {
            "bridgeTransfer"@
        } else if key == "recoverIbcClient"@ || key == "recover_ibc_client"@ {
            "recoverIbcClient"@
        } else if key == "currencyPairsChange"@ || key == "currency_pairs_change"@ {
            "currencyPairsChange"@
        } else if key == "marketsChange"@ || key == "markets_change"@ {
            "marketsChange"@
        } else if key == "createOrder"@ || key == "create_order"@ {
            "createOrder"@
        } else if key == "cancelOrder"@ || key == "cancel_order"@ {
            "cancelOrder"@
        } else if key == "createMarket"@ || key == "create_market"@ {
            "createMarket"@
        } else if key == "updateMarket"@ || key == "update_market"@ {
            "updateMarket"@
        } else {
            key
        }
    }

    /// [`Self::spec_json_key`] as a function value.
    pub open spec fn json_key_fn() -> spec_fn(Seq<char>) -> Seq<char> {
        |key: Seq<char>| Self::spec_json_key(key)
    }

    /// One member is read alike whichever spelling its key has.
    pub proof fn lemma_step_json_key(st: (FeeChangeV, Seq<bool>), key: Seq<char>, v: JsonV)
        ensures Self::spec_step(st, key, v) == Self::spec_step(st, Self::spec_json_key(key), v),
    {
        reveal_strlit("bridgeLock");
        reveal_strlit("bridge_lock");
        reveal_strlit("bridgeSudoChange");
        reveal_strlit("bridge_sudo_change");
        reveal_strlit("bridgeUnlock");
        reveal_strlit("bridge_unlock");
        reveal_strlit("feeAssetChange");
        reveal_strlit("fee_asset_change");
        reveal_strlit("feeChange");
        reveal_strlit("fee_change");
        reveal_strlit("ibcRelay");
        reveal_strlit("ibc_relay");
        reveal_strlit("ibcRelayerChange");
        reveal_strlit("ibc_relayer_change");
        reveal_strlit("ibcSudoChange");
        reveal_strlit("ibc_sudo_change");
        reveal_strlit("ics20Withdrawal");
        reveal_strlit("ics20_withdrawal");
        reveal_strlit("initBridgeAccount");
        reveal_strlit("init_bridge_account");
        reveal_strlit("rollupDataSubmission");
        reveal_strlit("rollup_data_submission");
        reveal_strlit("sudoAddressChange");
        reveal_strlit("sudo_address_change");
        reveal_strlit("transfer");
        reveal_strlit("validatorUpdate");
        reveal_strlit("validator_update");
        reveal_strlit("bridgeTransfer");
        reveal_strlit("bridge_transfer");
        reveal_strlit("recoverIbcClient");
        reveal_strlit("recover_ibc_client");
        reveal_strlit("currencyPairsChange");
        reveal_strlit("currency_pairs_change");
        reveal_strlit("marketsChange");
        reveal_strlit("markets_change");
        reveal_strlit("createOrder");
        reveal_strlit("create_order");
        reveal_strlit("cancelOrder");
        reveal_strlit("cancel_order");
        reveal_strlit("createMarket");
        reveal_strlit("create_market");
        reveal_strlit("updateMarket");
        reveal_strlit("update_market");
        assert("bridgeLock"@.len() == 10);
        assert("bridge_lock"@.len() == 11);
        assert("bridgeSudoChange"@.len() == 16);
        assert("bridge_sudo_change"@.len() == 18);
        assert("bridgeUnlock"@.len() == 12);
        assert("bridge_unlock"@.len() == 13);
        assert("feeAssetChange"@.len() == 14);
        assert("fee_asset_change"@.len() == 16);
        assert("feeChange"@.len() == 9);
        assert("fee_change"@.len() == 10);
        assert("ibcRelay"@.len() == 8);
        assert("ibc_relay"@.len() == 9);
        assert("ibcRelayerChange"@.len() == 16);
        assert("ibc_relayer_change"@.len() == 18);
        assert("ibcSudoChange"@.len() == 13);
        assert("ibc_sudo_change"@.len() == 15);
        assert("ics20Withdrawal"@.len() == 15);
        assert("ics20_withdrawal"@.len() == 16);
        assert("initBridgeAccount"@.len() == 17);
        assert("init_bridge_account"@.len() == 19);
        assert("rollupDataSubmission"@.len() == 20);
        assert("rollup_data_submission"@.len() == 22);
        assert("sudoAddressChange"@.len() == 17);
        assert("sudo_address_change"@.len() == 19);
        assert("transfer"@.len() == 8);
        assert("validatorUpdate"@.len() == 15);
        assert("validator_update"@.len() == 16);
        assert("bridgeTransfer"@.len() == 14);
        assert("bridge_transfer"@.len() == 15);
        assert("recoverIbcClient"@.len() == 16);
        assert("recover_ibc_client"@.len() == 18);
        assert("currencyPairsChange"@.len() == 19);
        assert("currency_pairs_change"@.len() == 21);
        assert("marketsChange"@.len() == 13);
        assert("markets_change"@.len() == 14);
        assert("createOrder"@.len() == 11);
        assert("create_order"@.len() == 12);
        assert("cancelOrder"@.len() == 11);
        assert("cancel_order"@.len() == 12);
        assert("createMarket"@.len() == 12);
        assert("create_market"@.len() == 13);
        assert("updateMarket"@.len() == 12);
        assert("update_market"@.len() == 13);
        assert("bridgeLock"@[0] != "fee_change"@[0]);
        assert("bridge_lock"@[0] != "createOrder"@[0]);
        assert("bridge_lock"@[0] != "cancelOrder"@[0]);
        assert("bridgeSudoChange"@[0] != "fee_asset_change"@[0]);
        assert("bridgeSudoChange"@[0] != "ibcRelayerChange"@[0]);
        assert("bridgeSudoChange"@[0] != "ics20_withdrawal"@[0]);
        assert("bridgeSudoChange"@[0] != "validator_update"@[0]);
        assert("bridgeSudoChange"@[0] != "recoverIbcClient"@[0]);
        assert("bridge_sudo_change"@[0] != "ibc_relayer_change"@[0]);
        assert("bridge_sudo_change"@[0] != "recover_ibc_client"@[0]);
        assert("bridgeUnlock"@[0] != "create_order"@[0]);
        assert("bridgeUnlock"@[0] != "cancel_order"@[0]);
        assert("bridgeUnlock"@[0] != "createMarket"@[0]);
        assert("bridgeUnlock"@[0] != "updateMarket"@[0]);
        assert("bridge_unlock"@[0] != "ibcSudoChange"@[0]);
        assert("bridge_unlock"@[0] != "marketsChange"@[0]);
        assert("bridge_unlock"@[0] != "create_market"@[0]);
        assert("bridge_unlock"@[0] != "update_market"@[0]);
        assert("feeAssetChange"@[0] != "bridgeTransfer"@[0]);
        assert("feeAssetChange"@[0] != "markets_change"@[0]);
        assert("fee_asset_change"@[0] != "ibcRelayerChange"@[0]);
        assert("fee_asset_change"@[0] != "ics20_withdrawal"@[0]);
        assert("fee_asset_change"@[0] != "validator_update"@[0]);
        assert("fee_asset_change"@[0] != "recoverIbcClient"@[0]);
        assert("feeChange"@[0] != "ibc_relay"@[0]);
        assert("ibcRelay"@[0] != "transfer"@[0]);
        assert("ibcRelayerChange"@[1] != "ics20_withdrawal"@[1]);
        assert("ibcRelayerChange"@[0] != "validator_update"@[0]);
        assert("ibcRelayerChange"@[0] != "recoverIbcClient"@[0]);
        assert("ibc_relayer_change"@[0] != "recover_ibc_client"@[0]);
        assert("ibcSudoChange"@[0] != "marketsChange"@[0]);
        assert("ibcSudoChange"@[0] != "create_market"@[0]);
        assert("ibcSudoChange"@[0] != "update_market"@[0]);
        assert("ibc_sudo_change"@[1] != "ics20Withdrawal"@[1]);
        assert("ibc_sudo_change"@[0] != "validatorUpdate"@[0]);
        assert("ibc_sudo_change"@[0] != "bridge_transfer"@[0]);
        assert("ics20Withdrawal"@[0] != "validatorUpdate"@[0]);
        assert("ics20Withdrawal"@[0] != "bridge_transfer"@[0]);
        assert("ics20_withdrawal"@[0] != "validator_update"@[0]);
        assert("ics20_withdrawal"@[0] != "recoverIbcClient"@[0]);
        assert("initBridgeAccount"@[0] != "sudoAddressChange"@[0]);
        assert("init_bridge_account"@[0] != "sudo_address_change"@[0]);
        assert("init_bridge_account"@[0] != "currencyPairsChange"@[0]);
        assert("sudo_address_change"@[0] != "currencyPairsChange"@[0]);
        assert("validatorUpdate"@[0] != "bridge_transfer"@[0]);
        assert("validator_update"@[0] != "recoverIbcClient"@[0]);
        assert("bridgeTransfer"@[0] != "markets_change"@[0]);
        assert("marketsChange"@[0] != "create_market"@[0]);
        assert("marketsChange"@[0] != "update_market"@[0]);
        assert("createOrder"@[1] != "cancelOrder"@[1]);
        assert("create_order"@[1] != "cancel_order"@[1]);
        assert("create_order"@[6] != "createMarket"@[6]);
        assert("create_order"@[0] != "updateMarket"@[0]);
        assert("cancel_order"@[1] != "createMarket"@[1]);
        assert("cancel_order"@[0] != "updateMarket"@[0]);
        assert("createMarket"@[0] != "updateMarket"@[0]);
        assert("create_market"@[0] != "update_market"@[0]);
        if key == "bridge_lock"@ {
            assert(Self::spec_json_key(key) == "bridgeLock"@);
        }
        if key == "bridge_sudo_change"@ {
            assert(Self::spec_json_key(key) == "bridgeSudoChange"@);
        }
        if key == "bridge_unlock"@ {
            assert(Self::spec_json_key(key) == "bridgeUnlock"@);
        }
        if key == "fee_asset_change"@ {
            assert(Self::spec_json_key(key) == "feeAssetChange"@);
        }
        if key == "fee_change"@ {
            assert(Self::spec_json_key(key) == "feeChange"@);
        }
        if key == "ibc_relay"@ {
            assert(Self::spec_json_key(key) == "ibcRelay"@);
        }
        if key == "ibc_relayer_change"@ {
            assert(Self::spec_json_key(key) == "ibcRelayerChange"@);
        }
        if key == "ibc_sudo_change"@ {
            assert(Self::spec_json_key(key) == "ibcSudoChange"@);
        }
        if key == "ics20_withdrawal"@ {
            assert(Self::spec_json_key(key) == "ics20Withdrawal"@);
        }
        if key == "init_bridge_account"@ {
            assert(Self::spec_json_key(key) == "initBridgeAccount"@);
        }
        if key == "rollup_data_submission"@ {
            assert(Self::spec_json_key(key) == "rollupDataSubmission"@);
        }
        if key == "sudo_address_change"@ {
            assert(Self::spec_json_key(key) == "sudoAddressChange"@);
        }
        if key == "validator_update"@ {
            assert(Self::spec_json_key(key) == "validatorUpdate"@);
        }
        if key == "bridge_transfer"@ {
            assert(Self::spec_json_key(key) == "bridgeTransfer"@);
        }
        if key == "recover_ibc_client"@ {
            assert(Self::spec_json_key(key) == "recoverIbcClient"@);
        }
        if key == "currency_pairs_change"@ {
            assert(Self::spec_json_key(key) == "currencyPairsChange"@);
        }
        if key == "markets_change"@ {
            assert(Self::spec_json_key(key) == "marketsChange"@);
        }
        if key == "create_order"@ {
            assert(Self::spec_json_key(key) == "createOrder"@);
        }
        if key == "cancel_order"@ {
            assert(Self::spec_json_key(key) == "cancelOrder"@);
        }
        if key == "create_market"@ {
            assert(Self::spec_json_key(key) == "createMarket"@);
        }
        if key == "update_market"@ {
            assert(Self::spec_json_key(key) == "updateMarket"@);
        }
    }

    /// Reading an object gives the same result whichever spelling each of its keys has:
    /// two objects whose members hold the same values, in the same order, under keys of
    /// the same JSON spelling describe the same message, or are refused with the same error.
    pub proof fn lemma_key_spelling(es1: Seq<(Seq<char>, JsonV)>, es2: Seq<(Seq<char>, JsonV)>)
        requires
            es1.len() == es2.len(),
            forall|i: int| #![trigger es1[i], es2[i]] 0 <= i < es1.len() ==> es1[i].1 == es2[i].1 && Self::spec_json_key(es1[i].0) == Self::spec_json_key(es2[i].0),
        ensures Self::spec_from_json(JsonV::Object(es1)) == Self::spec_from_json(JsonV::Object(es2)),
    {
        assert forall|s: (FeeChangeV, Seq<bool>), k: Seq<char>, v: JsonV|
            #![trigger Self::step_fn()(s, k, v), Self::json_key_fn()(k)]
            Self::step_fn()(s, k, v) == Self::step_fn()(s, Self::json_key_fn()(k), v) by {
            Self::lemma_step_json_key(s, k, v);
        }
        lemma_fold_same_keys(Self::spec_start(), es1, es2, Self::step_fn(), Self::json_key_fn());
    }

    /// The keys of the object that the message writes: the JSON names of the fields that
    /// do not hold their default (for a oneof, the JSON name of the member set), in the
    /// order of the fields.
    pub open spec fn spec_written_keys(m: FeeChangeV) -> Seq<Seq<char>> {
        key_if(m.fee_components is Some, Self::spec_fee_components_key(m.fee_components.unwrap()))
    }

    /// The object that the message writes has exactly the keys of
    /// [`Self::spec_written_keys`], in that order.
    pub proof fn lemma_written_keys(m: FeeChangeV)
        ensures
            Self::spec_to_json(m) == JsonV::Object(Self::spec_entries(m)),
            entry_keys(Self::spec_entries(m)) == Self::spec_written_keys(m),
    {
        lemma_entry_keys_if(m.fee_components is Some, Self::spec_fee_components_key(m.fee_components.unwrap()), Self::spec_fee_components_json(m.fee_components.unwrap()));
    }

    /// Whether the field whose JSON name is `name` holds its default in `m`; for a member
    /// of a oneof, whether the oneof is set to another member or unset. `true` for a name
    /// that names no field.
    pub open spec fn spec_holds_default(m: FeeChangeV, name: Seq<char>) -> bool {
        if name == "bridgeLock"@ {
            !(m.fee_components matches Some(fee_change::FeeComponentsV::BridgeLock(_)))
        } else if name == "bridgeSudoChange"@ {
            !(m.fee_components matches Some(fee_change::FeeComponentsV::BridgeSudoChange(_)))
        } else if name == "bridgeUnlock"@ {
            !(m.fee_components matches Some(fee_change::FeeComponentsV::BridgeUnlock(_)))
        } else if name == "feeAssetChange"@ {
            !(m.fee_components matches Some(fee_change::FeeComponentsV::FeeAssetChange(_)))
        } else if name == "feeChange"@ {
            !(m.fee_components matches Some(fee_change::FeeComponentsV::FeeChange(_)))
        } else if name == "ibcRelay"@ {
            !(m.fee_components matches Some(fee_change::FeeComponentsV::IbcRelay(_)))
        } else if name == "ibcRelayerChange"@ {
            !(m.fee_components matches Some(fee_change::FeeComponentsV::IbcRelayerChange(_)))
        } else if name == "ibcSudoChange"@ {
            !(m.fee_components matches Some(fee_change::FeeComponentsV::IbcSudoChange(_)))
        } else if name == "ics20Withdrawal"@ {
            !(m.fee_components matches Some(fee_change::FeeComponentsV::Ics20Withdrawal(_)))
        } else if name == "initBridgeAccount"@ {
            !(m.fee_components matches Some(fee_change::FeeComponentsV::InitBridgeAccount(_)))
        } else if name == "rollupDataSubmission"@ {
            !(m.fee_components matches Some(fee_change::FeeComponentsV::RollupDataSubmission(_)))
        } else if name == "sudoAddressChange"@ {
            !(m.fee_components matches Some(fee_change::FeeComponentsV::SudoAddressChange(_)))
        } else if name == "transfer"@ {
            !(m.fee_components matches Some(fee_change::FeeComponentsV::Transfer(_)))
        } else if name == "validatorUpdate"@ {
            !(m.fee_components matches Some(fee_change::FeeComponentsV::ValidatorUpdate(_)))
        } else if name == "bridgeTransfer"@ {
            !(m.fee_components matches Some(fee_change::FeeComponentsV::BridgeTransfer(_)))
        } else if name == "recoverIbcClient"@ {
            !(m.fee_components matches Some(fee_change::FeeComponentsV::RecoverIbcClient(_)))
        } else if name == "currencyPairsChange"@ {
            !(m.fee_components matches Some(fee_change::FeeComponentsV::CurrencyPairsChange(_)))
        } else if name == "marketsChange"@ {
            !(m.fee_components matches Some(fee_change::FeeComponentsV::MarketsChange(_)))
        } else if name == "createOrder"@ {
            !(m.fee_components matches Some(fee_change::FeeComponentsV::CreateOrder(_)))
        } else if name == "cancelOrder"@ {
            !(m.fee_components matches Some(fee_change::FeeComponentsV::CancelOrder(_)))
        } else if name == "createMarket"@ {
            !(m.fee_components matches Some(fee_change::FeeComponentsV::CreateMarket(_)))
        } else if name == "updateMarket"@ {
            !(m.fee_components matches Some(fee_change::FeeComponentsV::UpdateMarket(_)))
        } else {
            true
        }
    }

    /// Whether reading `v` for the field whose JSON name is `name` leaves the field at
    /// its default: `null`, for a field that takes it (a message field, a member of a
    /// oneof); nothing, for any other field. `true` for a name that names no field.
    pub open spec fn spec_leaves_default(name: Seq<char>, v: JsonV) -> bool {
        if name == "bridgeLock"@ {
            v is Null
        } else if name == "bridgeSudoChange"@ {
            v is Null
        } else if name == "bridgeUnlock"@ {
            v is Null
        } else if name == "feeAssetChange"@ {
            v is Null
        } else if name == "feeChange"@ {
            v is Null
        } else if name == "ibcRelay"@ {
            v is Null
        } else if name == "ibcRelayerChange"@ {
            v is Null
        } else if name == "ibcSudoChange"@ {
            v is Null
        } else if name == "ics20Withdrawal"@ {
            v is Null
        } else if name == "initBridgeAccount"@ {
            v is Null
        } else if name == "rollupDataSubmission"@ {
            v is Null
        } else if name == "sudoAddressChange"@ {
            v is Null
        } else if name == "transfer"@ {
            v is Null
        } else if name == "validatorUpdate"@ {
            v is Null
        } else if name == "bridgeTransfer"@ {
            v is Null
        } else if name == "recoverIbcClient"@ {
            v is Null
        } else if name == "currencyPairsChange"@ {
            v is Null
        } else if name == "marketsChange"@ {
            v is Null
        } else if name == "createOrder"@ {
            v is Null
        } else if name == "cancelOrder"@ {
            v is Null
        } else if name == "createMarket"@ {
            v is Null
        } else if name == "updateMarket"@ {
            v is Null
        } else {
            true
        }
    }

    /// Reading one member keeps a field at its default unless the key names the field
    /// and the value does not leave it there.
    pub proof fn lemma_step_keeps_default(st: (FeeChangeV, Seq<bool>), key: Seq<char>, v: JsonV, name: Seq<char>)
        requires
            Self::spec_holds_default(st.0, name),
            Self::spec_json_key(key) == name ==> Self::spec_leaves_default(name, v),
        ensures
            Self::spec_step(st, key, v) is Ok ==> Self::spec_holds_default(Self::spec_step(st, key, v)->Ok_0.0, name),
    {
        reveal_strlit("bridgeLock");
        reveal_strlit("bridge_lock");
        reveal_strlit("bridgeSudoChange");
        reveal_strlit("bridge_sudo_change");
        reveal_strlit("bridgeUnlock");
        reveal_strlit("bridge_unlock");
        reveal_strlit("feeAssetChange");
        reveal_strlit("fee_asset_change");
        reveal_strlit("feeChange");
        reveal_strlit("fee_change");
        reveal_strlit("ibcRelay");
        reveal_strlit("ibc_relay");
        reveal_strlit("ibcRelayerChange");
        reveal_strlit("ibc_relayer_change");
        reveal_strlit("ibcSudoChange");
        reveal_strlit("ibc_sudo_change");
        reveal_strlit("ics20Withdrawal");
        reveal_strlit("ics20_withdrawal");
        reveal_strlit("initBridgeAccount");
        reveal_strlit("init_bridge_account");
        reveal_strlit("rollupDataSubmission");
        reveal_strlit("rollup_data_submission");
        reveal_strlit("sudoAddressChange");
        reveal_strlit("sudo_address_change");
        reveal_strlit("transfer");
        reveal_strlit("validatorUpdate");
        reveal_strlit("validator_update");
        reveal_strlit("bridgeTransfer");
        reveal_strlit("bridge_transfer");
        reveal_strlit("recoverIbcClient");
        reveal_strlit("recover_ibc_client");
        reveal_strlit("currencyPairsChange");
        reveal_strlit("currency_pairs_change");
        reveal_strlit("marketsChange");
        reveal_strlit("markets_change");
        reveal_strlit("createOrder");
        reveal_strlit("create_order");
        reveal_strlit("cancelOrder");
        reveal_strlit("cancel_order");
        reveal_strlit("createMarket");
        reveal_strlit("create_market");
        reveal_strlit("updateMarket");
        reveal_strlit("update_market");
        assert("bridgeLock"@.len() == 10);
        assert("bridge_lock"@.len() == 11);
        assert("bridgeSudoChange"@.len() == 16);
        assert("bridge_sudo_change"@.len() == 18);
        assert("bridgeUnlock"@.len() == 12);
        assert("bridge_unlock"@.len() == 13);
        assert("feeAssetChange"@.len() == 14);
        assert("fee_asset_change"@.len() == 16);
        assert("feeChange"@.len() == 9);
        assert("fee_change"@.len() == 10);
        assert("ibcRelay"@.len() == 8);
        assert("ibc_relay"@.len() == 9);
        assert("ibcRelayerChange"@.len() == 16);
        assert("ibc_relayer_change"@.len() == 18);
        assert("ibcSudoChange"@.len() == 13);
        assert("ibc_sudo_change"@.len() == 15);
        assert("ics20Withdrawal"@.len() == 15);
        assert("ics20_withdrawal"@.len() == 16);
        assert("initBridgeAccount"@.len() == 17);
        assert("init_bridge_account"@.len() == 19);
        assert("rollupDataSubmission"@.len() == 20);
        assert("rollup_data_submission"@.len() == 22);
        assert("sudoAddressChange"@.len() == 17);
        assert("sudo_address_change"@.len() == 19);
        assert("transfer"@.len() == 8);
        assert("validatorUpdate"@.len() == 15);
        assert("validator_update"@.len() == 16);
        assert("bridgeTransfer"@.len() == 14);
        assert("bridge_transfer"@.len() == 15);
        assert("recoverIbcClient"@.len() == 16);
        assert("recover_ibc_client"@.len() == 18);
        assert("currencyPairsChange"@.len() == 19);
        assert("currency_pairs_change"@.len() == 21);
        assert("marketsChange"@.len() == 13);
        assert("markets_change"@.len() == 14);
        assert("createOrder"@.len() == 11);
        assert("create_order"@.len() == 12);
        assert("cancelOrder"@.len() == 11);
        assert("cancel_order"@.len() == 12);
        assert("createMarket"@.len() == 12);
        assert("create_market"@.len() == 13);
        assert("updateMarket"@.len() == 12);
        assert("update_market"@.len() == 13);
        assert("bridgeLock"@[0] != "fee_change"@[0]);
        assert("bridge_lock"@[0] != "createOrder"@[0]);
        assert("bridge_lock"@[0] != "cancelOrder"@[0]);
        assert("bridgeSudoChange"@[0] != "fee_asset_change"@[0]);
        assert("bridgeSudoChange"@[0] != "ibcRelayerChange"@[0]);
        assert("bridgeSudoChange"@[0] != "ics20_withdrawal"@[0]);
        assert("bridgeSudoChange"@[0] != "validator_update"@[0]);
        assert("bridgeSudoChange"@[0] != "recoverIbcClient"@[0]);
        assert("bridge_sudo_change"@[0] != "ibc_relayer_change"@[0]);
        assert("bridge_sudo_change"@[0] != "recover_ibc_client"@[0]);
        assert("bridgeUnlock"@[0] != "create_order"@[0]);
        assert("bridgeUnlock"@[0] != "cancel_order"@[0]);
        assert("bridgeUnlock"@[0] != "createMarket"@[0]);
        assert("bridgeUnlock"@[0] != "updateMarket"@[0]);
        assert("bridge_unlock"@[0] != "ibcSudoChange"@[0]);
        assert("bridge_unlock"@[0] != "marketsChange"@[0]);
        assert("bridge_unlock"@[0] != "create_market"@[0]);
        assert("bridge_unlock"@[0] != "update_market"@[0]);
        assert("feeAssetChange"@[0] != "bridgeTransfer"@[0]);
        assert("feeAssetChange"@[0] != "markets_change"@[0]);
        assert("fee_asset_change"@[0] != "ibcRelayerChange"@[0]);
        assert("fee_asset_change"@[0] != "ics20_withdrawal"@[0]);
        assert("fee_asset_change"@[0] != "validator_update"@[0]);
        assert("fee_asset_change"@[0] != "recoverIbcClient"@[0]);
        assert("feeChange"@[0] != "ibc_relay"@[0]);
        assert("ibcRelay"@[0] != "transfer"@[0]);
        assert("ibcRelayerChange"@[1] != "ics20_withdrawal"@[1]);
        assert("ibcRelayerChange"@[0] != "validator_update"@[0]);
        assert("ibcRelayerChange"@[0] != "recoverIbcClient"@[0]);
        assert("ibc_relayer_change"@[0] != "recover_ibc_client"@[0]);
        assert("ibcSudoChange"@[0] != "marketsChange"@[0]);
        assert("ibcSudoChange"@[0] != "create_market"@[0]);
        assert("ibcSudoChange"@[0] != "update_market"@[0]);
        assert("ibc_sudo_change"@[1] != "ics20Withdrawal"@[1]);
        assert("ibc_sudo_change"@[0] != "validatorUpdate"@[0]);
        assert("ibc_sudo_change"@[0] != "bridge_transfer"@[0]);
        assert("ics20Withdrawal"@[0] != "validatorUpdate"@[0]);
        assert("ics20Withdrawal"@[0] != "bridge_transfer"@[0]);
        assert("ics20_withdrawal"@[0] != "validator_update"@[0]);
        assert("ics20_withdrawal"@[0] != "recoverIbcClient"@[0]);
        assert("initBridgeAccount"@[0] != "sudoAddressChange"@[0]);
        assert("init_bridge_account"@[0] != "sudo_address_change"@[0]);
        assert("init_bridge_account"@[0] != "currencyPairsChange"@[0]);
        assert("sudo_address_change"@[0] != "currencyPairsChange"@[0]);
        assert("validatorUpdate"@[0] != "bridge_transfer"@[0]);
        assert("validator_update"@[0] != "recoverIbcClient"@[0]);
        assert("bridgeTransfer"@[0] != "markets_change"@[0]);
        assert("marketsChange"@[0] != "create_market"@[0]);
        assert("marketsChange"@[0] != "update_market"@[0]);
        assert("createOrder"@[1] != "cancelOrder"@[1]);
        assert("create_order"@[1] != "cancel_order"@[1]);
        assert("create_order"@[6] != "createMarket"@[6]);
        assert("create_order"@[0] != "updateMarket"@[0]);
        assert("cancel_order"@[1] != "createMarket"@[1]);
        assert("cancel_order"@[0] != "updateMarket"@[0]);
        assert("createMarket"@[0] != "updateMarket"@[0]);
        assert("create_market"@[0] != "update_market"@[0]);
        Self::lemma_step_json_key(st, key, v);
    }

    /// A field whose key appears in no member of an object, or only with values that
    /// leave it at its default (`null`, for a field that takes it), holds its default in
    /// the message that the object describes.
    pub proof fn lemma_absent_default(es: Seq<(Seq<char>, JsonV)>, name: Seq<char>)
        requires
            forall|i: int| 0 <= i < es.len() ==> (Self::spec_json_key((#[trigger] es[i]).0) == name
                ==> Self::spec_leaves_default(name, es[i].1)),
        ensures
            Self::spec_from_json(JsonV::Object(es)) is Ok
                ==> Self::spec_holds_default(Self::spec_from_json(JsonV::Object(es))->Ok_0, name),
    {
        let inv = |s: (FeeChangeV, Seq<bool>)| Self::spec_holds_default(s.0, name);
        let allowed = |k: Seq<char>, v: JsonV| Self::spec_json_key(k) == name ==> Self::spec_leaves_default(name, v);
        assert forall|s: (FeeChangeV, Seq<bool>), k: Seq<char>, v: JsonV| #![trigger Self::step_fn()(s, k, v)]
            inv(s) && allowed(k, v) && Self::step_fn()(s, k, v) is Ok implies inv(Self::step_fn()(s, k, v)->Ok_0) by {
            Self::lemma_step_keeps_default(s, k, v, name);
        }
        assert(inv(Self::spec_start()));
        lemma_fold_keeps(Self::spec_start(), es, Self::step_fn(), inv, allowed);
    }

    /// Whether a key names a member of the oneof `fee_components`, in either spelling.
    pub open spec fn spec_is_member_key(key: Seq<char>) -> bool {
        key == "bridgeLock"@ || key == "bridge_lock"@ || key == "bridgeSudoChange"@ || key == "bridge_sudo_change"@ || key == "bridgeUnlock"@ || key == "bridge_unlock"@ || key == "feeAssetChange"@ || key == "fee_asset_change"@ || key == "feeChange"@ || key == "fee_change"@ || key == "ibcRelay"@ || key == "ibc_relay"@ || key == "ibcRelayerChange"@ || key == "ibc_relayer_change"@ || key == "ibcSudoChange"@ || key == "ibc_sudo_change"@ || key == "ics20Withdrawal"@ || key == "ics20_withdrawal"@ || key == "initBridgeAccount"@ || key == "init_bridge_account"@ || key == "rollupDataSubmission"@ || key == "rollup_data_submission"@ || key == "sudoAddressChange"@ || key == "sudo_address_change"@ || key == "transfer"@ || key == "validatorUpdate"@ || key == "validator_update"@ || key == "bridgeTransfer"@ || key == "bridge_transfer"@ || key == "recoverIbcClient"@ || key == "recover_ibc_client"@ || key == "currencyPairsChange"@ || key == "currency_pairs_change"@ || key == "marketsChange"@ || key == "markets_change"@ || key == "createOrder"@ || key == "create_order"@ || key == "cancelOrder"@ || key == "cancel_order"@ || key == "createMarket"@ || key == "create_market"@ || key == "updateMarket"@ || key == "update_market"@
    }

    /// The member of the oneof `fee_components` that one member of an object gives: unset for
    /// `null`, else the member that the key names, read from the value.
    pub open spec fn spec_member_value(key: Seq<char>, v: JsonV) -> Result<Option<fee_change::FeeComponentsV>, JsonErrorV> {
        if key == "bridgeLock"@ || key == "bridge_lock"@ {
            match read_embedded(v) {
                Ok(Some(x)) => Ok(Some(fee_change::FeeComponentsV::BridgeLock(x))),
                Ok(None) => Ok(None),
                Err(e) => Err(e),
            }
        } else if key == "bridgeSudoChange"@ || key == "bridge_sudo_change"@ {
            match read_embedded(v) {
                Ok(Some(x)) => Ok(Some(fee_change::FeeComponentsV::BridgeSudoChange(x))),
                Ok(None) => Ok(None),
                Err(e) => Err(e),
            }
        } else if key == "bridgeUnlock"@ || key == "bridge_unlock"@ {
            match read_embedded(v) {
                Ok(Some(x)) => Ok(Some(fee_change::FeeComponentsV::BridgeUnlock(x))),
                Ok(None) => Ok(None),
                Err(e) => Err(e),
            }
        } else if key == "feeAssetChange"@ || key == "fee_asset_change"@ {
            match read_embedded(v) {
                Ok(Some(x)) => Ok(Some(fee_change::FeeComponentsV::FeeAssetChange(x))),
                Ok(None) => Ok(None),
                Err(e) => Err(e),
            }
        } else if key == "feeChange"@ || key == "fee_change"@ {
            match read_embedded(v) {
                Ok(Some(x)) => Ok(Some(fee_change::FeeComponentsV::FeeChange(x))),
                Ok(None) => Ok(None),
                Err(e) => Err(e),
            }
        } else if key == "ibcRelay"@ || key == "ibc_relay"@ {
            match read_embedded(v) {
                Ok(Some(x)) => Ok(Some(fee_change::FeeComponentsV::IbcRelay(x))),
                Ok(None) => Ok(None),
                Err(e) => Err(e),
            }
        } else if key == "ibcRelayerChange"@ || key == "ibc_relayer_change"@ {
            match read_embedded(v) {
                Ok(Some(x)) => Ok(Some(fee_change::FeeComponentsV::IbcRelayerChange(x))),
                Ok(None) => Ok(None),
                Err(e) => Err(e),
            }
        } else if key == "ibcSudoChange"@ || key == "ibc_sudo_change"@ {
            match read_embedded(v) {
                Ok(Some(x)) => Ok(Some(fee_change::FeeComponentsV::IbcSudoChange(x))),
                Ok(None) => Ok(None),
                Err(e) => Err(e),
            }
        } else if key == "ics20Withdrawal"@ || key == "ics20_withdrawal"@ {
            match read_embedded(v) {
                Ok(Some(x)) => Ok(Some(fee_change::FeeComponentsV::Ics20Withdrawal(x))),
                Ok(None) => Ok(None),
                Err(e) => Err(e),
            }
        } else if key == "initBridgeAccount"@ || key == "init_bridge_account"@ {
            match read_embedded(v) {
                Ok(Some(x)) => Ok(Some(fee_change::FeeComponentsV::InitBridgeAccount(x))),
                Ok(None) => Ok(None),
                Err(e) => Err(e),
            }
        } else if key == "rollupDataSubmission"@ || key == "rollup_data_submission"@ {
            match read_embedded(v) {
                Ok(Some(x)) => Ok(Some(fee_change::FeeComponentsV::RollupDataSubmission(x))),
                Ok(None) => Ok(None),
                Err(e) => Err(e),
            }
        } else if key == "sudoAddressChange"@ || key == "sudo_address_change"@ {
            match read_embedded(v) {
                Ok(Some(x)) => Ok(Some(fee_change::FeeComponentsV::SudoAddressChange(x))),
                Ok(None) => Ok(None),
                Err(e) => Err(e),
            }
        } else if key == "transfer"@ {
            match read_embedded(v) {
                Ok(Some(x)) => Ok(Some(fee_change::FeeComponentsV::Transfer(x))),
                Ok(None) => Ok(None),
                Err(e) => Err(e),
            }
        } else if key == "validatorUpdate"@ || key == "validator_update"@ {
            match read_embedded(v) {
                Ok(Some(x)) => Ok(Some(fee_change::FeeComponentsV::ValidatorUpdate(x))),
                Ok(None) => Ok(None),
                Err(e) => Err(e),
            }
        } else if key == "bridgeTransfer"@ || key == "bridge_transfer"@ {
            match read_embedded(v) {
                Ok(Some(x)) => Ok(Some(fee_change::FeeComponentsV::BridgeTransfer(x))),
                Ok(None) => Ok(None),
                Err(e) => Err(e),
            }
        } else if key == "recoverIbcClient"@ || key == "recover_ibc_client"@ {
            match read_embedded(v) {
                Ok(Some(x)) => Ok(Some(fee_change::FeeComponentsV::RecoverIbcClient(x))),
                Ok(None) => Ok(None),
                Err(e) => Err(e),
            }
        } else if key == "currencyPairsChange"@ || key == "currency_pairs_change"@ {
            match read_embedded(v) {
                Ok(Some(x)) => Ok(Some(fee_change::FeeComponentsV::CurrencyPairsChange(x))),
                Ok(None) => Ok(None),
                Err(e) => Err(e),
            }
        } else if key == "marketsChange"@ || key == "markets_change"@ {
            match read_embedded(v) {
                Ok(Some(x)) => Ok(Some(fee_change::FeeComponentsV::MarketsChange(x))),
                Ok(None) => Ok(None),
                Err(e) => Err(e),
            }
        } else if key == "createOrder"@ || key == "create_order"@ {
            match read_embedded(v) {
                Ok(Some(x)) => Ok(Some(fee_change::FeeComponentsV::CreateOrder(x))),
                Ok(None) => Ok(None),
                Err(e) => Err(e),
            }
        } else if key == "cancelOrder"@ || key == "cancel_order"@ {
            match read_embedded(v) {
                Ok(Some(x)) => Ok(Some(fee_change::FeeComponentsV::CancelOrder(x))),
                Ok(None) => Ok(None),
                Err(e) => Err(e),
            }
        } else if key == "createMarket"@ || key == "create_market"@ {
            match read_embedded(v) {
                Ok(Some(x)) => Ok(Some(fee_change::FeeComponentsV::CreateMarket(x))),
                Ok(None) => Ok(None),
                Err(e) => Err(e),
            }
        } else if key == "updateMarket"@ || key == "update_market"@ {
            match read_embedded(v) {
                Ok(Some(x)) => Ok(Some(fee_change::FeeComponentsV::UpdateMarket(x))),
                Ok(None) => Ok(None),
                Err(e) => Err(e),
            }
        } else {
            Err(JsonErrorV::UnknownField(key))
        }
    }

    /// An object whose keys each name a member of the oneof `fee_components`, whose first `k`
    /// members are `null`, and whose member `k`, if there is one, is not `null` and reads
    /// as the member its key names: with no member past the `null` ones the oneof is
    /// unset; with member `k` last the oneof is that member; any key after member `k`,
    /// whatever its value, is refused as a duplicate under its JSON name.
    pub proof fn lemma_oneof_members(es: Seq<(Seq<char>, JsonV)>, k: int)
        requires
            0 <= k <= es.len(),
            forall|i: int| 0 <= i < es.len() ==> Self::spec_is_member_key(#[trigger] es[i].0),
            forall|i: int| 0 <= i < k ==> (#[trigger] es[i]).1 is Null,
            k < es.len() ==> es[k].1 !is Null && Self::spec_member_value(es[k].0, es[k].1) is Ok,
        ensures
            k == es.len() ==> Self::spec_from_json(JsonV::Object(es)) == Ok::<FeeChangeV, JsonErrorV>(Self::spec_default()),
            k == es.len() - 1 ==> Self::spec_from_json(JsonV::Object(es))
                == Ok::<FeeChangeV, JsonErrorV>(FeeChangeV { fee_components: Self::spec_member_value(es[k].0, es[k].1)->Ok_0 }),
            k < es.len() - 1 ==> Self::spec_from_json(JsonV::Object(es))
                == Err::<FeeChangeV, JsonErrorV>(JsonErrorV::DuplicateField(Self::spec_json_key(es[k + 1].0))),
        decreases k,
    {
        reveal_strlit("bridgeLock");
        reveal_strlit("bridge_lock");
        reveal_strlit("bridgeSudoChange");
        reveal_strlit("bridge_sudo_change");
        reveal_strlit("bridgeUnlock");
        reveal_strlit("bridge_unlock");
        reveal_strlit("feeAssetChange");
        reveal_strlit("fee_asset_change");
        reveal_strlit("feeChange");
        reveal_strlit("fee_change");
        reveal_strlit("ibcRelay");
        reveal_strlit("ibc_relay");
        reveal_strlit("ibcRelayerChange");
        reveal_strlit("ibc_relayer_change");
        reveal_strlit("ibcSudoChange");
        reveal_strlit("ibc_sudo_change");
        reveal_strlit("ics20Withdrawal");
        reveal_strlit("ics20_withdrawal");
        reveal_strlit("initBridgeAccount");
        reveal_strlit("init_bridge_account");
        reveal_strlit("rollupDataSubmission");
        reveal_strlit("rollup_data_submission");
        reveal_strlit("sudoAddressChange");
        reveal_strlit("sudo_address_change");
        reveal_strlit("transfer");
        reveal_strlit("validatorUpdate");
        reveal_strlit("validator_update");
        reveal_strlit("bridgeTransfer");
        reveal_strlit("bridge_transfer");
        reveal_strlit("recoverIbcClient");
        reveal_strlit("recover_ibc_client");
        reveal_strlit("currencyPairsChange");
        reveal_strlit("currency_pairs_change");
        reveal_strlit("marketsChange");
        reveal_strlit("markets_change");
        reveal_strlit("createOrder");
        reveal_strlit("create_order");
        reveal_strlit("cancelOrder");
        reveal_strlit("cancel_order");
        reveal_strlit("createMarket");
        reveal_strlit("create_market");
        reveal_strlit("updateMarket");
        reveal_strlit("update_market");
        assert("bridgeLock"@.len() == 10);
        assert("bridge_lock"@.len() == 11);
        assert("bridgeSudoChange"@.len() == 16);
        assert("bridge_sudo_change"@.len() == 18);
        assert("bridgeUnlock"@.len() == 12);
        assert("bridge_unlock"@.len() == 13);
        assert("feeAssetChange"@.len() == 14);
        assert("fee_asset_change"@.len() == 16);
        assert("feeChange"@.len() == 9);
        assert("fee_change"@.len() == 10);
        assert("ibcRelay"@.len() == 8);
        assert("ibc_relay"@.len() == 9);
        assert("ibcRelayerChange"@.len() == 16);
        assert("ibc_relayer_change"@.len() == 18);
        assert("ibcSudoChange"@.len() == 13);
        assert("ibc_sudo_change"@.len() == 15);
        assert("ics20Withdrawal"@.len() == 15);
        assert("ics20_withdrawal"@.len() == 16);
        assert("initBridgeAccount"@.len() == 17);
        assert("init_bridge_account"@.len() == 19);
        assert("rollupDataSubmission"@.len() == 20);
        assert("rollup_data_submission"@.len() == 22);
        assert("sudoAddressChange"@.len() == 17);
        assert("sudo_address_change"@.len() == 19);
        assert("transfer"@.len() == 8);
        assert("validatorUpdate"@.len() == 15);
        assert("validator_update"@.len() == 16);
        assert("bridgeTransfer"@.len() == 14);
        assert("bridge_transfer"@.len() == 15);
        assert("recoverIbcClient"@.len() == 16);
        assert("recover_ibc_client"@.len() == 18);
        assert("currencyPairsChange"@.len() == 19);
        assert("currency_pairs_change"@.len() == 21);
        assert("marketsChange"@.len() == 13);
        assert("markets_change"@.len() == 14);
        assert("createOrder"@.len() == 11);
        assert("create_order"@.len() == 12);
        assert("cancelOrder"@.len() == 11);
        assert("cancel_order"@.len() == 12);
        assert("createMarket"@.len() == 12);
        assert("create_market"@.len() == 13);
        assert("updateMarket"@.len() == 12);
        assert("update_market"@.len() == 13);
        assert("bridgeLock"@[0] != "fee_change"@[0]);
        assert("bridge_lock"@[0] != "createOrder"@[0]);
        assert("bridge_lock"@[0] != "cancelOrder"@[0]);
        assert("bridgeSudoChange"@[0] != "fee_asset_change"@[0]);
        assert("bridgeSudoChange"@[0] != "ibcRelayerChange"@[0]);
        assert("bridgeSudoChange"@[0] != "ics20_withdrawal"@[0]);
        assert("bridgeSudoChange"@[0] != "validator_update"@[0]);
        assert("bridgeSudoChange"@[0] != "recoverIbcClient"@[0]);
        assert("bridge_sudo_change"@[0] != "ibc_relayer_change"@[0]);
        assert("bridge_sudo_change"@[0] != "recover_ibc_client"@[0]);
        assert("bridgeUnlock"@[0] != "create_order"@[0]);
        assert("bridgeUnlock"@[0] != "cancel_order"@[0]);
        assert("bridgeUnlock"@[0] != "createMarket"@[0]);
        assert("bridgeUnlock"@[0] != "updateMarket"@[0]);
        assert("bridge_unlock"@[0] != "ibcSudoChange"@[0]);
        assert("bridge_unlock"@[0] != "marketsChange"@[0]);
        assert("bridge_unlock"@[0] != "create_market"@[0]);
        assert("bridge_unlock"@[0] != "update_market"@[0]);
        assert("feeAssetChange"@[0] != "bridgeTransfer"@[0]);
        assert("feeAssetChange"@[0] != "markets_change"@[0]);
        assert("fee_asset_change"@[0] != "ibcRelayerChange"@[0]);
        assert("fee_asset_change"@[0] != "ics20_withdrawal"@[0]);
        assert("fee_asset_change"@[0] != "validator_update"@[0]);
        assert("fee_asset_change"@[0] != "recoverIbcClient"@[0]);
        assert("feeChange"@[0] != "ibc_relay"@[0]);
        assert("ibcRelay"@[0] != "transfer"@[0]);
        assert("ibcRelayerChange"@[1] != "ics20_withdrawal"@[1]);
        assert("ibcRelayerChange"@[0] != "validator_update"@[0]);
        assert("ibcRelayerChange"@[0] != "recoverIbcClient"@[0]);
        assert("ibc_relayer_change"@[0] != "recover_ibc_client"@[0]);
        assert("ibcSudoChange"@[0] != "marketsChange"@[0]);
        assert("ibcSudoChange"@[0] != "create_market"@[0]);
        assert("ibcSudoChange"@[0] != "update_market"@[0]);
        assert("ibc_sudo_change"@[1] != "ics20Withdrawal"@[1]);
        assert("ibc_sudo_change"@[0] != "validatorUpdate"@[0]);
        assert("ibc_sudo_change"@[0] != "bridge_transfer"@[0]);
        assert("ics20Withdrawal"@[0] != "validatorUpdate"@[0]);
        assert("ics20Withdrawal"@[0] != "bridge_transfer"@[0]);
        assert("ics20_withdrawal"@[0] != "validator_update"@[0]);
        assert("ics20_withdrawal"@[0] != "recoverIbcClient"@[0]);
        assert("initBridgeAccount"@[0] != "sudoAddressChange"@[0]);
        assert("init_bridge_account"@[0] != "sudo_address_change"@[0]);
        assert("init_bridge_account"@[0] != "currencyPairsChange"@[0]);
        assert("sudo_address_change"@[0] != "currencyPairsChange"@[0]);
        assert("validatorUpdate"@[0] != "bridge_transfer"@[0]);
        assert("validator_update"@[0] != "recoverIbcClient"@[0]);
        assert("bridgeTransfer"@[0] != "markets_change"@[0]);
        assert("marketsChange"@[0] != "create_market"@[0]);
        assert("marketsChange"@[0] != "update_market"@[0]);
        assert("createOrder"@[1] != "cancelOrder"@[1]);
        assert("create_order"@[1] != "cancel_order"@[1]);
        assert("create_order"@[6] != "createMarket"@[6]);
        assert("create_order"@[0] != "updateMarket"@[0]);
        assert("cancel_order"@[1] != "createMarket"@[1]);
        assert("cancel_order"@[0] != "updateMarket"@[0]);
        assert("createMarket"@[0] != "updateMarket"@[0]);
        assert("create_market"@[0] != "update_market"@[0]);
        let s0 = Self::spec_start();
        if es.len() > 0 {
            assert(Self::spec_is_member_key(es[0].0));
            let rest = es.drop_first();
            if k > 0 {
                assert(es[0].1 is Null);
                assert(Self::spec_step(s0, es[0].0, es[0].1) == Ok::<(FeeChangeV, Seq<bool>), JsonErrorV>(s0));
                assert forall|i: int| 0 <= i < rest.len() implies Self::spec_is_member_key(#[trigger] rest[i].0) by {
                    assert(rest[i] == es[i + 1]);
                }
                assert forall|i: int| 0 <= i < k - 1 implies (#[trigger] rest[i]).1 is Null by {
                    assert(rest[i] == es[i + 1]);
                }
                if k < es.len() {
                    assert(rest[k - 1] == es[k]);
                }
                if k + 1 < es.len() {
                    assert(rest[k] == es[k + 1]);
                }
                assert(fold_entries(s0, es, Self::step_fn()) == fold_entries(s0, rest, Self::step_fn()));
                Self::lemma_oneof_members(rest, k - 1);
            } else {
                let m = FeeChangeV { fee_components: Self::spec_member_value(es[0].0, es[0].1)->Ok_0 };
                assert(m.fee_components is Some);
                assert(Self::spec_step(s0, es[0].0, es[0].1) == Ok::<(FeeChangeV, Seq<bool>), JsonErrorV>((m, s0.1)));
                assert(fold_entries(s0, es, Self::step_fn()) == fold_entries((m, s0.1), rest, Self::step_fn()));
                if es.len() > 1 {
                    assert(rest[0] == es[1]);
                    assert(Self::spec_is_member_key(es[1].0));
                    assert(Self::spec_step((m, s0.1), es[1].0, es[1].1)
                        == Err::<(FeeChangeV, Seq<bool>), JsonErrorV>(JsonErrorV::DuplicateField(Self::spec_json_key(es[1].0))));
                    assert(fold_entries((m, s0.1), rest, Self::step_fn())
                        == Err::<(FeeChangeV, Seq<bool>), JsonErrorV>(JsonErrorV::DuplicateField(Self::spec_json_key(es[1].0))));
                } else {
                    assert(rest.len() == 0);
                    assert(fold_entries((m, s0.1), rest, Self::step_fn()) == Ok::<(FeeChangeV, Seq<bool>), JsonErrorV>((m, s0.1)));
                }
            }
        }
    }

    /// An object whose keys each name a member of the oneof `fee_components`, and whose values other
    /// than `null` each read as the member their key names, is refused exactly when a
    /// member follows one whose value is not `null`, as a duplicate under the JSON name of
    /// the key after [`first_set`]. Otherwise the oneof is the member at [`first_set`], or
    /// unset when every value is `null`.
    pub proof fn lemma_oneof_object(es: Seq<(Seq<char>, JsonV)>)
        requires
            forall|i: int| 0 <= i < es.len() ==> Self::spec_is_member_key(#[trigger] es[i].0),
            forall|i: int| 0 <= i < es.len() && !((#[trigger] es[i]).1 is Null)
                ==> Self::spec_member_value(es[i].0, es[i].1) is Ok,
        ensures
            Self::spec_from_json(JsonV::Object(es)) is Err
                <==> exists|i: int| 0 <= i < es.len() - 1 && !((#[trigger] es[i]).1 is Null),
            first_set(es) == es.len() ==> Self::spec_from_json(JsonV::Object(es)) == Ok::<FeeChangeV, JsonErrorV>(Self::spec_default()),
            first_set(es) == es.len() - 1 ==> Self::spec_from_json(JsonV::Object(es))
                == Ok::<FeeChangeV, JsonErrorV>(FeeChangeV { fee_components: Self::spec_member_value(es[first_set(es)].0, es[first_set(es)].1)->Ok_0 }),
            first_set(es) < es.len() - 1 ==> Self::spec_from_json(JsonV::Object(es))
                == Err::<FeeChangeV, JsonErrorV>(JsonErrorV::DuplicateField(Self::spec_json_key(es[first_set(es) + 1].0))),
    {
        lemma_first_set(es);
        let k = first_set(es);
        if k < es.len() {
            assert(!(es[k].1 is Null));
        }
        Self::lemma_oneof_members(es, k);
    }

    /// The field `bridge_lock` alone: an object with one member under its JSON or protobuf
    /// name reads as the message with that field set and every other field at its
    /// default, and the message with only that field off its default writes that
    /// one member under the JSON name.
    pub proof fn lemma_member_bridge_lock(es: Seq<(Seq<char>, JsonV)>)
        ensures
            Self::spec_from_json(JsonV::Object(seq![("bridgeLock"@, JsonV::Object(es))])) == Ok::<FeeChangeV, JsonErrorV>(FeeChangeV { fee_components: Some(fee_change::FeeComponentsV::BridgeLock(es)) }),
            Self::spec_from_json(JsonV::Object(seq![("bridge_lock"@, JsonV::Object(es))])) == Ok::<FeeChangeV, JsonErrorV>(FeeChangeV { fee_components: Some(fee_change::FeeComponentsV::BridgeLock(es)) }),
            Self::spec_from_json(JsonV::Object(seq![("bridgeLock"@, JsonV::Null)])) == Ok::<FeeChangeV, JsonErrorV>(Self::spec_default()),
            Self::spec_from_json(JsonV::Object(seq![("bridge_lock"@, JsonV::Null)])) == Ok::<FeeChangeV, JsonErrorV>(Self::spec_default()),
            Self::spec_to_json(FeeChangeV { fee_components: Some(fee_change::FeeComponentsV::BridgeLock(es)) }) == JsonV::Object(seq![("bridgeLock"@, JsonV::Object(es))]),
    {
        reveal_strlit("bridgeLock");
        reveal_strlit("bridge_lock");
        reveal_strlit("bridgeSudoChange");
        reveal_strlit("bridge_sudo_change");
        reveal_strlit("bridgeUnlock");
        reveal_strlit("bridge_unlock");
        reveal_strlit("feeAssetChange");
        reveal_strlit("fee_asset_change");
        reveal_strlit("feeChange");
        reveal_strlit("fee_change");
        reveal_strlit("ibcRelay");
        reveal_strlit("ibc_relay");
        reveal_strlit("ibcRelayerChange");
        reveal_strlit("ibc_relayer_change");
        reveal_strlit("ibcSudoChange");
        reveal_strlit("ibc_sudo_change");
        reveal_strlit("ics20Withdrawal");
        reveal_strlit("ics20_withdrawal");
        reveal_strlit("initBridgeAccount");
        reveal_strlit("init_bridge_account");
        reveal_strlit("rollupDataSubmission");
        reveal_strlit("rollup_data_submission");
        reveal_strlit("sudoAddressChange");
        reveal_strlit("sudo_address_change");
        reveal_strlit("transfer");
        reveal_strlit("validatorUpdate");
        reveal_strlit("validator_update");
        reveal_strlit("bridgeTransfer");
        reveal_strlit("bridge_transfer");
        reveal_strlit("recoverIbcClient");
        reveal_strlit("recover_ibc_client");
        reveal_strlit("currencyPairsChange");
        reveal_strlit("currency_pairs_change");
        reveal_strlit("marketsChange");
        reveal_strlit("markets_change");
        reveal_strlit("createOrder");
        reveal_strlit("create_order");
        reveal_strlit("cancelOrder");
        reveal_strlit("cancel_order");
        reveal_strlit("createMarket");
        reveal_strlit("create_market");
        reveal_strlit("updateMarket");
        reveal_strlit("update_market");
        assert("bridgeLock"@.len() == 10);
        assert("bridge_lock"@.len() == 11);
        assert("bridgeSudoChange"@.len() == 16);
        assert("bridge_sudo_change"@.len() == 18);
        assert("bridgeUnlock"@.len() == 12);
        assert("bridge_unlock"@.len() == 13);
        assert("feeAssetChange"@.len() == 14);
        assert("fee_asset_change"@.len() == 16);
        assert("feeChange"@.len() == 9);
        assert("fee_change"@.len() == 10);
        assert("ibcRelay"@.len() == 8);
        assert("ibc_relay"@.len() == 9);
        assert("ibcRelayerChange"@.len() == 16);
        assert("ibc_relayer_change"@.len() == 18);
        assert("ibcSudoChange"@.len() == 13);
        assert("ibc_sudo_change"@.len() == 15);
        assert("ics20Withdrawal"@.len() == 15);
        assert("ics20_withdrawal"@.len() == 16);
        assert("initBridgeAccount"@.len() == 17);
        assert("init_bridge_account"@.len() == 19);
        assert("rollupDataSubmission"@.len() == 20);
        assert("rollup_data_submission"@.len() == 22);
        assert("sudoAddressChange"@.len() == 17);
        assert("sudo_address_change"@.len() == 19);
        assert("transfer"@.len() == 8);
        assert("validatorUpdate"@.len() == 15);
        assert("validator_update"@.len() == 16);
        assert("bridgeTransfer"@.len() == 14);
        assert("bridge_transfer"@.len() == 15);
        assert("recoverIbcClient"@.len() == 16);
        assert("recover_ibc_client"@.len() == 18);
        assert("currencyPairsChange"@.len() == 19);
        assert("currency_pairs_change"@.len() == 21);
        assert("marketsChange"@.len() == 13);
        assert("markets_change"@.len() == 14);
        assert("createOrder"@.len() == 11);
        assert("create_order"@.len() == 12);
        assert("cancelOrder"@.len() == 11);
        assert("cancel_order"@.len() == 12);
        assert("createMarket"@.len() == 12);
        assert("create_market"@.len() == 13);
        assert("updateMarket"@.len() == 12);
        assert("update_market"@.len() == 13);
        assert("bridgeLock"@[0] != "fee_change"@[0]);
        assert("bridge_lock"@[0] != "createOrder"@[0]);
        assert("bridge_lock"@[0] != "cancelOrder"@[0]);
        assert("bridgeSudoChange"@[0] != "fee_asset_change"@[0]);
        assert("bridgeSudoChange"@[0] != "ibcRelayerChange"@[0]);
        assert("bridgeSudoChange"@[0] != "ics20_withdrawal"@[0]);
        assert("bridgeSudoChange"@[0] != "validator_update"@[0]);
        assert("bridgeSudoChange"@[0] != "recoverIbcClient"@[0]);
        assert("bridge_sudo_change"@[0] != "ibc_relayer_change"@[0]);
        assert("bridge_sudo_change"@[0] != "recover_ibc_client"@[0]);
        assert("bridgeUnlock"@[0] != "create_order"@[0]);
        assert("bridgeUnlock"@[0] != "cancel_order"@[0]);
        assert("bridgeUnlock"@[0] != "createMarket"@[0]);
        assert("bridgeUnlock"@[0] != "updateMarket"@[0]);
        assert("bridge_unlock"@[0] != "ibcSudoChange"@[0]);
        assert("bridge_unlock"@[0] != "marketsChange"@[0]);
        assert("bridge_unlock"@[0] != "create_market"@[0]);
        assert("bridge_unlock"@[0] != "update_market"@[0]);
        assert("feeAssetChange"@[0] != "bridgeTransfer"@[0]);
        assert("feeAssetChange"@[0] != "markets_change"@[0]);
        assert("fee_asset_change"@[0] != "ibcRelayerChange"@[0]);
        assert("fee_asset_change"@[0] != "ics20_withdrawal"@[0]);
        assert("fee_asset_change"@[0] != "validator_update"@[0]);
        assert("fee_asset_change"@[0] != "recoverIbcClient"@[0]);
        assert("feeChange"@[0] != "ibc_relay"@[0]);
        assert("ibcRelay"@[0] != "transfer"@[0]);
        assert("ibcRelayerChange"@[1] != "ics20_withdrawal"@[1]);
        assert("ibcRelayerChange"@[0] != "validator_update"@[0]);
        assert("ibcRelayerChange"@[0] != "recoverIbcClient"@[0]);
        assert("ibc_relayer_change"@[0] != "recover_ibc_client"@[0]);
        assert("ibcSudoChange"@[0] != "marketsChange"@[0]);
        assert("ibcSudoChange"@[0] != "create_market"@[0]);
        assert("ibcSudoChange"@[0] != "update_market"@[0]);
        assert("ibc_sudo_change"@[1] != "ics20Withdrawal"@[1]);
        assert("ibc_sudo_change"@[0] != "validatorUpdate"@[0]);
        assert("ibc_sudo_change"@[0] != "bridge_transfer"@[0]);
        assert("ics20Withdrawal"@[0] != "validatorUpdate"@[0]);
        assert("ics20Withdrawal"@[0] != "bridge_transfer"@[0]);
        assert("ics20_withdrawal"@[0] != "validator_update"@[0]);
        assert("ics20_withdrawal"@[0] != "recoverIbcClient"@[0]);
        assert("initBridgeAccount"@[0] != "sudoAddressChange"@[0]);
        assert("init_bridge_account"@[0] != "sudo_address_change"@[0]);
        assert("init_bridge_account"@[0] != "currencyPairsChange"@[0]);
        assert("sudo_address_change"@[0] != "currencyPairsChange"@[0]);
        assert("validatorUpdate"@[0] != "bridge_transfer"@[0]);
        assert("validator_update"@[0] != "recoverIbcClient"@[0]);
        assert("bridgeTransfer"@[0] != "markets_change"@[0]);
        assert("marketsChange"@[0] != "create_market"@[0]);
        assert("marketsChange"@[0] != "update_market"@[0]);
        assert("createOrder"@[1] != "cancelOrder"@[1]);
        assert("create_order"@[1] != "cancel_order"@[1]);
        assert("create_order"@[6] != "createMarket"@[6]);
        assert("create_order"@[0] != "updateMarket"@[0]);
        assert("cancel_order"@[1] != "createMarket"@[1]);
        assert("cancel_order"@[0] != "updateMarket"@[0]);
        assert("createMarket"@[0] != "updateMarket"@[0]);
        assert("create_market"@[0] != "update_market"@[0]);
        lemma_fold_entry_if(Self::spec_start(), true, "bridgeLock"@, JsonV::Object(es), Self::step_fn());
        lemma_fold_entry_if(Self::spec_start(), true, "bridge_lock"@, JsonV::Object(es), Self::step_fn());
        lemma_fold_entry_if(Self::spec_start(), true, "bridgeLock"@, JsonV::Null, Self::step_fn());
        lemma_fold_entry_if(Self::spec_start(), true, "bridge_lock"@, JsonV::Null, Self::step_fn());
    }

    /// The field `bridge_sudo_change` alone: an object with one member under its JSON or protobuf
    /// name reads as the message with that field set and every other field at its
    /// default, and the message with only that field off its default writes that
    /// one member under the JSON name.
    pub proof fn lemma_member_bridge_sudo_change(es: Seq<(Seq<char>, JsonV)>)
        ensures
            Self::spec_from_json(JsonV::Object(seq![("bridgeSudoChange"@, JsonV::Object(es))])) == Ok::<FeeChangeV, JsonErrorV>(FeeChangeV { fee_components: Some(fee_change::FeeComponentsV::BridgeSudoChange(es)) }),
            Self::spec_from_json(JsonV::Object(seq![("bridge_sudo_change"@, JsonV::Object(es))])) == Ok::<FeeChangeV, JsonErrorV>(FeeChangeV { fee_components: Some(fee_change::FeeComponentsV::BridgeSudoChange(es)) }),
            Self::spec_from_json(JsonV::Object(seq![("bridgeSudoChange"@, JsonV::Null)])) == Ok::<FeeChangeV, JsonErrorV>(Self::spec_default()),
            Self::spec_from_json(JsonV::Object(seq![("bridge_sudo_change"@, JsonV::Null)])) == Ok::<FeeChangeV, JsonErrorV>(Self::spec_default()),
            Self::spec_to_json(FeeChangeV { fee_components: Some(fee_change::FeeComponentsV::BridgeSudoChange(es)) }) == JsonV::Object(seq![("bridgeSudoChange"@, JsonV::Object(es))]),
    {
        reveal_strlit("bridgeLock");
        reveal_strlit("bridge_lock");
        reveal_strlit("bridgeSudoChange");
        reveal_strlit("bridge_sudo_change");
        reveal_strlit("bridgeUnlock");
        reveal_strlit("bridge_unlock");
        reveal_strlit("feeAssetChange");
        reveal_strlit("fee_asset_change");
        reveal_strlit("feeChange");
        reveal_strlit("fee_change");
        reveal_strlit("ibcRelay");
        reveal_strlit("ibc_relay");
        reveal_strlit("ibcRelayerChange");
        reveal_strlit("ibc_relayer_change");
        reveal_strlit("ibcSudoChange");
        reveal_strlit("ibc_sudo_change");
        reveal_strlit("ics20Withdrawal");
        reveal_strlit("ics20_withdrawal");
        reveal_strlit("initBridgeAccount");
        reveal_strlit("init_bridge_account");
        reveal_strlit("rollupDataSubmission");
        reveal_strlit("rollup_data_submission");
        reveal_strlit("sudoAddressChange");
        reveal_strlit("sudo_address_change");
        reveal_strlit("transfer");
        reveal_strlit("validatorUpdate");
        reveal_strlit("validator_update");
        reveal_strlit("bridgeTransfer");
        reveal_strlit("bridge_transfer");
        reveal_strlit("recoverIbcClient");
        reveal_strlit("recover_ibc_client");
        reveal_strlit("currencyPairsChange");
        reveal_strlit("currency_pairs_change");
        reveal_strlit("marketsChange");
        reveal_strlit("markets_change");
        reveal_strlit("createOrder");
        reveal_strlit("create_order");
        reveal_strlit("cancelOrder");
        reveal_strlit("cancel_order");
        reveal_strlit("createMarket");
        reveal_strlit("create_market");
        reveal_strlit("updateMarket");
        reveal_strlit("update_market");
        assert("bridgeLock"@.len() == 10);
        assert("bridge_lock"@.len() == 11);
        assert("bridgeSudoChange"@.len() == 16);
        assert("bridge_sudo_change"@.len() == 18);
        assert("bridgeUnlock"@.len() == 12);
        assert("bridge_unlock"@.len() == 13);
        assert("feeAssetChange"@.len() == 14);
        assert("fee_asset_change"@.len() == 16);
        assert("feeChange"@.len() == 9);
        assert("fee_change"@.len() == 10);
        assert("ibcRelay"@.len() == 8);
        assert("ibc_relay"@.len() == 9);
        assert("ibcRelayerChange"@.len() == 16);
        assert("ibc_relayer_change"@.len() == 18);
        assert("ibcSudoChange"@.len() == 13);
        assert("ibc_sudo_change"@.len() == 15);
        assert("ics20Withdrawal"@.len() == 15);
        assert("ics20_withdrawal"@.len() == 16);
        assert("initBridgeAccount"@.len() == 17);
        assert("init_bridge_account"@.len() == 19);
        assert("rollupDataSubmission"@.len() == 20);
        assert("rollup_data_submission"@.len() == 22);
        assert("sudoAddressChange"@.len() == 17);
        assert("sudo_address_change"@.len() == 19);
        assert("transfer"@.len() == 8);
        assert("validatorUpdate"@.len() == 15);
        assert("validator_update"@.len() == 16);
        assert("bridgeTransfer"@.len() == 14);
        assert("bridge_transfer"@.len() == 15);
        assert("recoverIbcClient"@.len() == 16);
        assert("recover_ibc_client"@.len() == 18);
        assert("currencyPairsChange"@.len() == 19);
        assert("currency_pairs_change"@.len() == 21);
        assert("marketsChange"@.len() == 13);
        assert("markets_change"@.len() == 14);
        assert("createOrder"@.len() == 11);
        assert("create_order"@.len() == 12);
        assert("cancelOrder"@.len() == 11);
        assert("cancel_order"@.len() == 12);
        assert("createMarket"@.len() == 12);
        assert("create_market"@.len() == 13);
        assert("updateMarket"@.len() == 12);
        assert("update_market"@.len() == 13);
        assert("bridgeLock"@[0] != "fee_change"@[0]);
        assert("bridge_lock"@[0] != "createOrder"@[0]);
        assert("bridge_lock"@[0] != "cancelOrder"@[0]);
        assert("bridgeSudoChange"@[0] != "fee_asset_change"@[0]);
        assert("bridgeSudoChange"@[0] != "ibcRelayerChange"@[0]);
        assert("bridgeSudoChange"@[0] != "ics20_withdrawal"@[0]);
        assert("bridgeSudoChange"@[0] != "validator_update"@[0]);
        assert("bridgeSudoChange"@[0] != "recoverIbcClient"@[0]);
        assert("bridge_sudo_change"@[0] != "ibc_relayer_change"@[0]);
        assert("bridge_sudo_change"@[0] != "recover_ibc_client"@[0]);
        assert("bridgeUnlock"@[0] != "create_order"@[0]);
        assert("bridgeUnlock"@[0] != "cancel_order"@[0]);
        assert("bridgeUnlock"@[0] != "createMarket"@[0]);
        assert("bridgeUnlock"@[0] != "updateMarket"@[0]);
        assert("bridge_unlock"@[0] != "ibcSudoChange"@[0]);
        assert("bridge_unlock"@[0] != "marketsChange"@[0]);
        assert("bridge_unlock"@[0] != "create_market"@[0]);
        assert("bridge_unlock"@[0] != "update_market"@[0]);
        assert("feeAssetChange"@[0] != "bridgeTransfer"@[0]);
        assert("feeAssetChange"@[0] != "markets_change"@[0]);
        assert("fee_asset_change"@[0] != "ibcRelayerChange"@[0]);
        assert("fee_asset_change"@[0] != "ics20_withdrawal"@[0]);
        assert("fee_asset_change"@[0] != "validator_update"@[0]);
        assert("fee_asset_change"@[0] != "recoverIbcClient"@[0]);
        assert("feeChange"@[0] != "ibc_relay"@[0]);
        assert("ibcRelay"@[0] != "transfer"@[0]);
        assert("ibcRelayerChange"@[1] != "ics20_withdrawal"@[1]);
        assert("ibcRelayerChange"@[0] != "validator_update"@[0]);
        assert("ibcRelayerChange"@[0] != "recoverIbcClient"@[0]);
        assert("ibc_relayer_change"@[0] != "recover_ibc_client"@[0]);
        assert("ibcSudoChange"@[0] != "marketsChange"@[0]);
        assert("ibcSudoChange"@[0] != "create_market"@[0]);
        assert("ibcSudoChange"@[0] != "update_market"@[0]);
        assert("ibc_sudo_change"@[1] != "ics20Withdrawal"@[1]);
        assert("ibc_sudo_change"@[0] != "validatorUpdate"@[0]);
        assert("ibc_sudo_change"@[0] != "bridge_transfer"@[0]);
        assert("ics20Withdrawal"@[0] != "validatorUpdate"@[0]);
        assert("ics20Withdrawal"@[0] != "bridge_transfer"@[0]);
        assert("ics20_withdrawal"@[0] != "validator_update"@[0]);
        assert("ics20_withdrawal"@[0] != "recoverIbcClient"@[0]);
        assert("initBridgeAccount"@[0] != "sudoAddressChange"@[0]);
        assert("init_bridge_account"@[0] != "sudo_address_change"@[0]);
        assert("init_bridge_account"@[0] != "currencyPairsChange"@[0]);
        assert("sudo_address_change"@[0] != "currencyPairsChange"@[0]);
        assert("validatorUpdate"@[0] != "bridge_transfer"@[0]);
        assert("validator_update"@[0] != "recoverIbcClient"@[0]);
        assert("bridgeTransfer"@[0] != "markets_change"@[0]);
        assert("marketsChange"@[0] != "create_market"@[0]);
        assert("marketsChange"@[0] != "update_market"@[0]);
        assert("createOrder"@[1] != "cancelOrder"@[1]);
        assert("create_order"@[1] != "cancel_order"@[1]);
        assert("create_order"@[6] != "createMarket"@[6]);
        assert("create_order"@[0] != "updateMarket"@[0]);
        assert("cancel_order"@[1] != "createMarket"@[1]);
        assert("cancel_order"@[0] != "updateMarket"@[0]);
        assert("createMarket"@[0] != "updateMarket"@[0]);
        assert("create_market"@[0] != "update_market"@[0]);
        lemma_fold_entry_if(Self::spec_start(), true, "bridgeSudoChange"@, JsonV::Object(es), Self::step_fn());
        lemma_fold_entry_if(Self::spec_start(), true, "bridge_sudo_change"@, JsonV::Object(es), Self::step_fn());
        lemma_fold_entry_if(Self::spec_start(), true, "bridgeSudoChange"@, JsonV::Null, Self::step_fn());
        lemma_fold_entry_if(Self::spec_start(), true, "bridge_sudo_change"@, JsonV::Null, Self::step_fn());
    }

    /// The field `bridge_unlock` alone: an object with one member under its JSON or protobuf
    /// name reads as the message with that field set and every other field at its
    /// default, and the message with only that field off its default writes that
    /// one member under the JSON name.
    pub proof fn lemma_member_bridge_unlock(es: Seq<(Seq<char>, JsonV)>)
        ensures
            Self::spec_from_json(JsonV::Object(seq![("bridgeUnlock"@, JsonV::Object(es))])) == Ok::<FeeChangeV, JsonErrorV>(FeeChangeV { fee_components: Some(fee_change::FeeComponentsV::BridgeUnlock(es)) }),
            Self::spec_from_json(JsonV::Object(seq![("bridge_unlock"@, JsonV::Object(es))])) == Ok::<FeeChangeV, JsonErrorV>(FeeChangeV { fee_components: Some(fee_change::FeeComponentsV::BridgeUnlock(es)) }),
            Self::spec_from_json(JsonV::Object(seq![("bridgeUnlock"@, JsonV::Null)])) == Ok::<FeeChangeV, JsonErrorV>(Self::spec_default()),
            Self::spec_from_json(JsonV::Object(seq![("bridge_unlock"@, JsonV::Null)])) == Ok::<FeeChangeV, JsonErrorV>(Self::spec_default()),
            Self::spec_to_json(FeeChangeV { fee_components: Some(fee_change::FeeComponentsV::BridgeUnlock(es)) }) == JsonV::Object(seq![("bridgeUnlock"@, JsonV::Object(es))]),
    {
        reveal_strlit("bridgeLock");
        reveal_strlit("bridge_lock");
        reveal_strlit("bridgeSudoChange");
        reveal_strlit("bridge_sudo_change");
        reveal_strlit("bridgeUnlock");
        reveal_strlit("bridge_unlock");
        reveal_strlit("feeAssetChange");
        reveal_strlit("fee_asset_change");
        reveal_strlit("feeChange");
        reveal_strlit("fee_change");
        reveal_strlit("ibcRelay");
        reveal_strlit("ibc_relay");
        reveal_strlit("ibcRelayerChange");
        reveal_strlit("ibc_relayer_change");
        reveal_strlit("ibcSudoChange");
        reveal_strlit("ibc_sudo_change");
        reveal_strlit("ics20Withdrawal");
        reveal_strlit("ics20_withdrawal");
        reveal_strlit("initBridgeAccount");
        reveal_strlit("init_bridge_account");
        reveal_strlit("rollupDataSubmission");
        reveal_strlit("rollup_data_submission");
        reveal_strlit("sudoAddressChange");
        reveal_strlit("sudo_address_change");
        reveal_strlit("transfer");
        reveal_strlit("validatorUpdate");
        reveal_strlit("validator_update");
        reveal_strlit("bridgeTransfer");
        reveal_strlit("bridge_transfer");
        reveal_strlit("recoverIbcClient");
        reveal_strlit("recover_ibc_client");
        reveal_strlit("currencyPairsChange");
        reveal_strlit("currency_pairs_change");
        reveal_strlit("marketsChange");
        reveal_strlit("markets_change");
        reveal_strlit("createOrder");
        reveal_strlit("create_order");
        reveal_strlit("cancelOrder");
        reveal_strlit("cancel_order");
        reveal_strlit("createMarket");
        reveal_strlit("create_market");
        reveal_strlit("updateMarket");
        reveal_strlit("update_market");
        assert("bridgeLock"@.len() == 10);
        assert("bridge_lock"@.len() == 11);
        assert("bridgeSudoChange"@.len() == 16);
        assert("bridge_sudo_change"@.len() == 18);
        assert("bridgeUnlock"@.len() == 12);
        assert("bridge_unlock"@.len() == 13);
        assert("feeAssetChange"@.len() == 14);
        assert("fee_asset_change"@.len() == 16);
        assert("feeChange"@.len() == 9);
        assert("fee_change"@.len() == 10);
        assert("ibcRelay"@.len() == 8);
        assert("ibc_relay"@.len() == 9);
        assert("ibcRelayerChange"@.len() == 16);
        assert("ibc_relayer_change"@.len() == 18);
        assert("ibcSudoChange"@.len() == 13);
        assert("ibc_sudo_change"@.len() == 15);
        assert("ics20Withdrawal"@.len() == 15);
        assert("ics20_withdrawal"@.len() == 16);
        assert("initBridgeAccount"@.len() == 17);
        assert("init_bridge_account"@.len() == 19);
        assert("rollupDataSubmission"@.len() == 20);
        assert("rollup_data_submission"@.len() == 22);
        assert("sudoAddressChange"@.len() == 17);
        assert("sudo_address_change"@.len() == 19);
        assert("transfer"@.len() == 8);
        assert("validatorUpdate"@.len() == 15);
        assert("validator_update"@.len() == 16);
        assert("bridgeTransfer"@.len() == 14);
        assert("bridge_transfer"@.len() == 15);
        assert("recoverIbcClient"@.len() == 16);
        assert("recover_ibc_client"@.len() == 18);
        assert("currencyPairsChange"@.len() == 19);
        assert("currency_pairs_change"@.len() == 21);
        assert("marketsChange"@.len() == 13);
        assert("markets_change"@.len() == 14);
        assert("createOrder"@.len() == 11);
        assert("create_order"@.len() == 12);
        assert("cancelOrder"@.len() == 11);
        assert("cancel_order"@.len() == 12);
        assert("createMarket"@.len() == 12);
        assert("create_market"@.len() == 13);
        assert("updateMarket"@.len() == 12);
        assert("update_market"@.len() == 13);
        assert("bridgeLock"@[0] != "fee_change"@[0]);
        assert("bridge_lock"@[0] != "createOrder"@[0]);
        assert("bridge_lock"@[0] != "cancelOrder"@[0]);
        assert("bridgeSudoChange"@[0] != "fee_asset_change"@[0]);
        assert("bridgeSudoChange"@[0] != "ibcRelayerChange"@[0]);
        assert("bridgeSudoChange"@[0] != "ics20_withdrawal"@[0]);
        assert("bridgeSudoChange"@[0] != "validator_update"@[0]);
        assert("bridgeSudoChange"@[0] != "recoverIbcClient"@[0]);
        assert("bridge_sudo_change"@[0] != "ibc_relayer_change"@[0]);
        assert("bridge_sudo_change"@[0] != "recover_ibc_client"@[0]);
        assert("bridgeUnlock"@[0] != "create_order"@[0]);
        assert("bridgeUnlock"@[0] != "cancel_order"@[0]);
        assert("bridgeUnlock"@[0] != "createMarket"@[0]);
        assert("bridgeUnlock"@[0] != "updateMarket"@[0]);
        assert("bridge_unlock"@[0] != "ibcSudoChange"@[0]);
        assert("bridge_unlock"@[0] != "marketsChange"@[0]);
        assert("bridge_unlock"@[0] != "create_market"@[0]);
        assert("bridge_unlock"@[0] != "update_market"@[0]);
        assert("feeAssetChange"@[0] != "bridgeTransfer"@[0]);
        assert("feeAssetChange"@[0] != "markets_change"@[0]);
        assert("fee_asset_change"@[0] != "ibcRelayerChange"@[0]);
        assert("fee_asset_change"@[0] != "ics20_withdrawal"@[0]);
        assert("fee_asset_change"@[0] != "validator_update"@[0]);
        assert("fee_asset_change"@[0] != "recoverIbcClient"@[0]);
        assert("feeChange"@[0] != "ibc_relay"@[0]);
        assert("ibcRelay"@[0] != "transfer"@[0]);
        assert("ibcRelayerChange"@[1] != "ics20_withdrawal"@[1]);
        assert("ibcRelayerChange"@[0] != "validator_update"@[0]);
        assert("ibcRelayerChange"@[0] != "recoverIbcClient"@[0]);
        assert("ibc_relayer_change"@[0] != "recover_ibc_client"@[0]);
        assert("ibcSudoChange"@[0] != "marketsChange"@[0]);
        assert("ibcSudoChange"@[0] != "create_market"@[0]);
        assert("ibcSudoChange"@[0] != "update_market"@[0]);
        assert("ibc_sudo_change"@[1] != "ics20Withdrawal"@[1]);
        assert("ibc_sudo_change"@[0] != "validatorUpdate"@[0]);
        assert("ibc_sudo_change"@[0] != "bridge_transfer"@[0]);
        assert("ics20Withdrawal"@[0] != "validatorUpdate"@[0]);
        assert("ics20Withdrawal"@[0] != "bridge_transfer"@[0]);
        assert("ics20_withdrawal"@[0] != "validator_update"@[0]);
        assert("ics20_withdrawal"@[0] != "recoverIbcClient"@[0]);
        assert("initBridgeAccount"@[0] != "sudoAddressChange"@[0]);
        assert("init_bridge_account"@[0] != "sudo_address_change"@[0]);
        assert("init_bridge_account"@[0] != "currencyPairsChange"@[0]);
        assert("sudo_address_change"@[0] != "currencyPairsChange"@[0]);
        assert("validatorUpdate"@[0] != "bridge_transfer"@[0]);
        assert("validator_update"@[0] != "recoverIbcClient"@[0]);
        assert("bridgeTransfer"@[0] != "markets_change"@[0]);
        assert("marketsChange"@[0] != "create_market"@[0]);
        assert("marketsChange"@[0] != "update_market"@[0]);
        assert("createOrder"@[1] != "cancelOrder"@[1]);
        assert("create_order"@[1] != "cancel_order"@[1]);
        assert("create_order"@[6] != "createMarket"@[6]);
        assert("create_order"@[0] != "updateMarket"@[0]);
        assert("cancel_order"@[1] != "createMarket"@[1]);
        assert("cancel_order"@[0] != "updateMarket"@[0]);
        assert("createMarket"@[0] != "updateMarket"@[0]);
        assert("create_market"@[0] != "update_market"@[0]);
        lemma_fold_entry_if(Self::spec_start(), true, "bridgeUnlock"@, JsonV::Object(es), Self::step_fn());
        lemma_fold_entry_if(Self::spec_start(), true, "bridge_unlock"@, JsonV::Object(es), Self::step_fn());
        lemma_fold_entry_if(Self::spec_start(), true, "bridgeUnlock"@, JsonV::Null, Self::step_fn());
        lemma_fold_entry_if(Self::spec_start(), true, "bridge_unlock"@, JsonV::Null, Self::step_fn());
    }

    /// The field `fee_asset_change` alone: an object with one member under its JSON or protobuf
    /// name reads as the message with that field set and every other field at its
    /// default, and the message with only that field off its default writes that
    /// one member under the JSON name.
    pub proof fn lemma_member_fee_asset_change(es: Seq<(Seq<char>, JsonV)>)
        ensures
            Self::spec_from_json(JsonV::Object(seq![("feeAssetChange"@, JsonV::Object(es))])) == Ok::<FeeChangeV, JsonErrorV>(FeeChangeV { fee_components: Some(fee_change::FeeComponentsV::FeeAssetChange(es)) }),
            Self::spec_from_json(JsonV::Object(seq![("fee_asset_change"@, JsonV::Object(es))])) == Ok::<FeeChangeV, JsonErrorV>(FeeChangeV { fee_components: Some(fee_change::FeeComponentsV::FeeAssetChange(es)) }),
            Self::spec_from_json(JsonV::Object(seq![("feeAssetChange"@, JsonV::Null)])) == Ok::<FeeChangeV, JsonErrorV>(Self::spec_default()),
            Self::spec_from_json(JsonV::Object(seq![("fee_asset_change"@, JsonV::Null)])) == Ok::<FeeChangeV, JsonErrorV>(Self::spec_default()),
            Self::spec_to_json(FeeChangeV { fee_components: Some(fee_change::FeeComponentsV::FeeAssetChange(es)) }) == JsonV::Object(seq![("feeAssetChange"@, JsonV::Object(es))]),
    {
        reveal_strlit("bridgeLock");
        reveal_strlit("bridge_lock");
        reveal_strlit("bridgeSudoChange");
        reveal_strlit("bridge_sudo_change");
        reveal_strlit("bridgeUnlock");
        reveal_strlit("bridge_unlock");
        reveal_strlit("feeAssetChange");
        reveal_strlit("fee_asset_change");
        reveal_strlit("feeChange");
        reveal_strlit("fee_change");
        reveal_strlit("ibcRelay");
        reveal_strlit("ibc_relay");
        reveal_strlit("ibcRelayerChange");
        reveal_strlit("ibc_relayer_change");
        reveal_strlit("ibcSudoChange");
        reveal_strlit("ibc_sudo_change");
        reveal_strlit("ics20Withdrawal");
        reveal_strlit("ics20_withdrawal");
        reveal_strlit("initBridgeAccount");
        reveal_strlit("init_bridge_account");
        reveal_strlit("rollupDataSubmission");
        reveal_strlit("rollup_data_submission");
        reveal_strlit("sudoAddressChange");
        reveal_strlit("sudo_address_change");
        reveal_strlit("transfer");
        reveal_strlit("validatorUpdate");
        reveal_strlit("validator_update");
        reveal_strlit("bridgeTransfer");
        reveal_strlit("bridge_transfer");
        reveal_strlit("recoverIbcClient");
        reveal_strlit("recover_ibc_client");
        reveal_strlit("currencyPairsChange");
        reveal_strlit("currency_pairs_change");
        reveal_strlit("marketsChange");
        reveal_strlit("markets_change");
        reveal_strlit("createOrder");
        reveal_strlit("create_order");
        reveal_strlit("cancelOrder");
        reveal_strlit("cancel_order");
        reveal_strlit("createMarket");
        reveal_strlit("create_market");
        reveal_strlit("updateMarket");
        reveal_strlit("update_market");
        assert("bridgeLock"@.len() == 10);
        assert("bridge_lock"@.len() == 11);
        assert("bridgeSudoChange"@.len() == 16);
        assert("bridge_sudo_change"@.len() == 18);
        assert("bridgeUnlock"@.len() == 12);
        assert("bridge_unlock"@.len() == 13);
        assert("feeAssetChange"@.len() == 14);
        assert("fee_asset_change"@.len() == 16);
        assert("feeChange"@.len() == 9);
        assert("fee_change"@.len() == 10);
        assert("ibcRelay"@.len() == 8);
        assert("ibc_relay"@.len() == 9);
        assert("ibcRelayerChange"@.len() == 16);
        assert("ibc_relayer_change"@.len() == 18);
        assert("ibcSudoChange"@.len() == 13);
        assert("ibc_sudo_change"@.len() == 15);
        assert("ics20Withdrawal"@.len() == 15);
        assert("ics20_withdrawal"@.len() == 16);
        assert("initBridgeAccount"@.len() == 17);
        assert("init_bridge_account"@.len() == 19);
        assert("rollupDataSubmission"@.len() == 20);
        assert("rollup_data_submission"@.len() == 22);
        assert("sudoAddressChange"@.len() == 17);
        assert("sudo_address_change"@.len() == 19);
        assert("transfer"@.len() == 8);
        assert("validatorUpdate"@.len() == 15);
        assert("validator_update"@.len() == 16);
        assert("bridgeTransfer"@.len() == 14);
        assert("bridge_transfer"@.len() == 15);
        assert("recoverIbcClient"@.len() == 16);
        assert("recover_ibc_client"@.len() == 18);
        assert("currencyPairsChange"@.len() == 19);
        assert("currency_pairs_change"@.len() == 21);
        assert("marketsChange"@.len() == 13);
        assert("markets_change"@.len() == 14);
        assert("createOrder"@.len() == 11);
        assert("create_order"@.len() == 12);
        assert("cancelOrder"@.len() == 11);
        assert("cancel_order"@.len() == 12);
        assert("createMarket"@.len() == 12);
        assert("create_market"@.len() == 13);
        assert("updateMarket"@.len() == 12);
        assert("update_market"@.len() == 13);
        assert("bridgeLock"@[0] != "fee_change"@[0]);
        assert("bridge_lock"@[0] != "createOrder"@[0]);
        assert("bridge_lock"@[0] != "cancelOrder"@[0]);
        assert("bridgeSudoChange"@[0] != "fee_asset_change"@[0]);
        assert("bridgeSudoChange"@[0] != "ibcRelayerChange"@[0]);
        assert("bridgeSudoChange"@[0] != "ics20_withdrawal"@[0]);
        assert("bridgeSudoChange"@[0] != "validator_update"@[0]);
        assert("bridgeSudoChange"@[0] != "recoverIbcClient"@[0]);
        assert("bridge_sudo_change"@[0] != "ibc_relayer_change"@[0]);
        assert("bridge_sudo_change"@[0] != "recover_ibc_client"@[0]);
        assert("bridgeUnlock"@[0] != "create_order"@[0]);
        assert("bridgeUnlock"@[0] != "cancel_order"@[0]);
        assert("bridgeUnlock"@[0] != "createMarket"@[0]);
        assert("bridgeUnlock"@[0] != "updateMarket"@[0]);
        assert("bridge_unlock"@[0] != "ibcSudoChange"@[0]);
        assert("bridge_unlock"@[0] != "marketsChange"@[0]);
        assert("bridge_unlock"@[0] != "create_market"@[0]);
        assert("bridge_unlock"@[0] != "update_market"@[0]);
        assert("feeAssetChange"@[0] != "bridgeTransfer"@[0]);
        assert("feeAssetChange"@[0] != "markets_change"@[0]);
        assert("fee_asset_change"@[0] != "ibcRelayerChange"@[0]);
        assert("fee_asset_change"@[0] != "ics20_withdrawal"@[0]);
        assert("fee_asset_change"@[0] != "validator_update"@[0]);
        assert("fee_asset_change"@[0] != "recoverIbcClient"@[0]);
        assert("feeChange"@[0] != "ibc_relay"@[0]);
        assert("ibcRelay"@[0] != "transfer"@[0]);
        assert("ibcRelayerChange"@[1] != "ics20_withdrawal"@[1]);
        assert("ibcRelayerChange"@[0] != "validator_update"@[0]);
        assert("ibcRelayerChange"@[0] != "recoverIbcClient"@[0]);
        assert("ibc_relayer_change"@[0] != "recover_ibc_client"@[0]);
        assert("ibcSudoChange"@[0] != "marketsChange"@[0]);
        assert("ibcSudoChange"@[0] != "create_market"@[0]);
        assert("ibcSudoChange"@[0] != "update_market"@[0]);
        assert("ibc_sudo_change"@[1] != "ics20Withdrawal"@[1]);
        assert("ibc_sudo_change"@[0] != "validatorUpdate"@[0]);
        assert("ibc_sudo_change"@[0] != "bridge_transfer"@[0]);
        assert("ics20Withdrawal"@[0] != "validatorUpdate"@[0]);
        assert("ics20Withdrawal"@[0] != "bridge_transfer"@[0]);
        assert("ics20_withdrawal"@[0] != "validator_update"@[0]);
        assert("ics20_withdrawal"@[0] != "recoverIbcClient"@[0]);
        assert("initBridgeAccount"@[0] != "sudoAddressChange"@[0]);
        assert("init_bridge_account"@[0] != "sudo_address_change"@[0]);
        assert("init_bridge_account"@[0] != "currencyPairsChange"@[0]);
        assert("sudo_address_change"@[0] != "currencyPairsChange"@[0]);
        assert("validatorUpdate"@[0] != "bridge_transfer"@[0]);
        assert("validator_update"@[0] != "recoverIbcClient"@[0]);
        assert("bridgeTransfer"@[0] != "markets_change"@[0]);
        assert("marketsChange"@[0] != "create_market"@[0]);
        assert("marketsChange"@[0] != "update_market"@[0]);
        assert("createOrder"@[1] != "cancelOrder"@[1]);
        assert("create_order"@[1] != "cancel_order"@[1]);
        assert("create_order"@[6] != "createMarket"@[6]);
        assert("create_order"@[0] != "updateMarket"@[0]);
        assert("cancel_order"@[1] != "createMarket"@[1]);
        assert("cancel_order"@[0] != "updateMarket"@[0]);
        assert("createMarket"@[0] != "updateMarket"@[0]);
        assert("create_market"@[0] != "update_market"@[0]);
        lemma_fold_entry_if(Self::spec_start(), true, "feeAssetChange"@, JsonV::Object(es), Self::step_fn());
        lemma_fold_entry_if(Self::spec_start(), true, "fee_asset_change"@, JsonV::Object(es), Self::step_fn());
        lemma_fold_entry_if(Self::spec_start(), true, "feeAssetChange"@, JsonV::Null, Self::step_fn());
        lemma_fold_entry_if(Self::spec_start(), true, "fee_asset_change"@, JsonV::Null, Self::step_fn());
    }

    /// The field `fee_change` alone: an object with one member under its JSON or protobuf
    /// name reads as the message with that field set and every other field at its
    /// default, and the message with only that field off its default writes that
    /// one member under the JSON name.
    pub proof fn lemma_member_fee_change(es: Seq<(Seq<char>, JsonV)>)
        ensures
            Self::spec_from_json(JsonV::Object(seq![("feeChange"@, JsonV::Object(es))])) == Ok::<FeeChangeV, JsonErrorV>(FeeChangeV { fee_components: Some(fee_change::FeeComponentsV::FeeChange(es)) }),
            Self::spec_from_json(JsonV::Object(seq![("fee_change"@, JsonV::Object(es))])) == Ok::<FeeChangeV, JsonErrorV>(FeeChangeV { fee_components: Some(fee_change::FeeComponentsV::FeeChange(es)) }),
            Self::spec_from_json(JsonV::Object(seq![("feeChange"@, JsonV::Null)])) == Ok::<FeeChangeV, JsonErrorV>(Self::spec_default()),
            Self::spec_from_json(JsonV::Object(seq![("fee_change"@, JsonV::Null)])) == Ok::<FeeChangeV, JsonErrorV>(Self::spec_default()),
            Self::spec_to_json(FeeChangeV { fee_components: Some(fee_change::FeeComponentsV::FeeChange(es)) }) == JsonV::Object(seq![("feeChange"@, JsonV::Object(es))]),
    {
        reveal_strlit("bridgeLock");
        reveal_strlit("bridge_lock");
        reveal_strlit("bridgeSudoChange");
        reveal_strlit("bridge_sudo_change");
        reveal_strlit("bridgeUnlock");
        reveal_strlit("bridge_unlock");
        reveal_strlit("feeAssetChange");
        reveal_strlit("fee_asset_change");
        reveal_strlit("feeChange");
        reveal_strlit("fee_change");
        reveal_strlit("ibcRelay");
        reveal_strlit("ibc_relay");
        reveal_strlit("ibcRelayerChange");
        reveal_strlit("ibc_relayer_change");
        reveal_strlit("ibcSudoChange");
        reveal_strlit("ibc_sudo_change");
        reveal_strlit("ics20Withdrawal");
        reveal_strlit("ics20_withdrawal");
        reveal_strlit("initBridgeAccount");
        reveal_strlit("init_bridge_account");
        reveal_strlit("rollupDataSubmission");
        reveal_strlit("rollup_data_submission");
        reveal_strlit("sudoAddressChange");
        reveal_strlit("sudo_address_change");
        reveal_strlit("transfer");
        reveal_strlit("validatorUpdate");
        reveal_strlit("validator_update");
        reveal_strlit("bridgeTransfer");
        reveal_strlit("bridge_transfer");
        reveal_strlit("recoverIbcClient");
        reveal_strlit("recover_ibc_client");
        reveal_strlit("currencyPairsChange");
        reveal_strlit("currency_pairs_change");
        reveal_strlit("marketsChange");
        reveal_strlit("markets_change");
        reveal_strlit("createOrder");
        reveal_strlit("create_order");
        reveal_strlit("cancelOrder");
        reveal_strlit("cancel_order");
        reveal_strlit("createMarket");
        reveal_strlit("create_market");
        reveal_strlit("updateMarket");
        reveal_strlit("update_market");
        assert("bridgeLock"@.len() == 10);
        assert("bridge_lock"@.len() == 11);
        assert("bridgeSudoChange"@.len() == 16);
        assert("bridge_sudo_change"@.len() == 18);
        assert("bridgeUnlock"@.len() == 12);
        assert("bridge_unlock"@.len() == 13);
        assert("feeAssetChange"@.len() == 14);
        assert("fee_asset_change"@.len() == 16);
        assert("feeChange"@.len() == 9);
        assert("fee_change"@.len() == 10);
        assert("ibcRelay"@.len() == 8);
        assert("ibc_relay"@.len() == 9);
        assert("ibcRelayerChange"@.len() == 16);
        assert("ibc_relayer_change"@.len() == 18);
        assert("ibcSudoChange"@.len() == 13);
        assert("ibc_sudo_change"@.len() == 15);
        assert("ics20Withdrawal"@.len() == 15);
        assert("ics20_withdrawal"@.len() == 16);
        assert("initBridgeAccount"@.len() == 17);
        assert("init_bridge_account"@.len() == 19);
        assert("rollupDataSubmission"@.len() == 20);
        assert("rollup_data_submission"@.len() == 22);
        assert("sudoAddressChange"@.len() == 17);
        assert("sudo_address_change"@.len() == 19);
        assert("transfer"@.len() == 8);
        assert("validatorUpdate"@.len() == 15);
        assert("validator_update"@.len() == 16);
        assert("bridgeTransfer"@.len() == 14);
        assert("bridge_transfer"@.len() == 15);
        assert("recoverIbcClient"@.len() == 16);
        assert("recover_ibc_client"@.len() == 18);
        assert("currencyPairsChange"@.len() == 19);
        assert("currency_pairs_change"@.len() == 21);
        assert("marketsChange"@.len() == 13);
        assert("markets_change"@.len() == 14);
        assert("createOrder"@.len() == 11);
        assert("create_order"@.len() == 12);
        assert("cancelOrder"@.len() == 11);
        assert("cancel_order"@.len() == 12);
        assert("createMarket"@.len() == 12);
        assert("create_market"@.len() == 13);
        assert("updateMarket"@.len() == 12);
        assert("update_market"@.len() == 13);
        assert("bridgeLock"@[0] != "fee_change"@[0]);
        assert("bridge_lock"@[0] != "createOrder"@[0]);
        assert("bridge_lock"@[0] != "cancelOrder"@[0]);
        assert("bridgeSudoChange"@[0] != "fee_asset_change"@[0]);
        assert("bridgeSudoChange"@[0] != "ibcRelayerChange"@[0]);
        assert("bridgeSudoChange"@[0] != "ics20_withdrawal"@[0]);
        assert("bridgeSudoChange"@[0] != "validator_update"@[0]);
        assert("bridgeSudoChange"@[0] != "recoverIbcClient"@[0]);
        assert("bridge_sudo_change"@[0] != "ibc_relayer_change"@[0]);
        assert("bridge_sudo_change"@[0] != "recover_ibc_client"@[0]);
        assert("bridgeUnlock"@[0] != "create_order"@[0]);
        assert("bridgeUnlock"@[0] != "cancel_order"@[0]);
        assert("bridgeUnlock"@[0] != "createMarket"@[0]);
        assert("bridgeUnlock"@[0] != "updateMarket"@[0]);
        assert("bridge_unlock"@[0] != "ibcSudoChange"@[0]);
        assert("bridge_unlock"@[0] != "marketsChange"@[0]);
        assert("bridge_unlock"@[0] != "create_market"@[0]);
        assert("bridge_unlock"@[0] != "update_market"@[0]);
        assert("feeAssetChange"@[0] != "bridgeTransfer"@[0]);
        assert("feeAssetChange"@[0] != "markets_change"@[0]);
        assert("fee_asset_change"@[0] != "ibcRelayerChange"@[0]);
        assert("fee_asset_change"@[0] != "ics20_withdrawal"@[0]);
        assert("fee_asset_change"@[0] != "validator_update"@[0]);
        assert("fee_asset_change"@[0] != "recoverIbcClient"@[0]);
        assert("feeChange"@[0] != "ibc_relay"@[0]);
        assert("ibcRelay"@[0] != "transfer"@[0]);
        assert("ibcRelayerChange"@[1] != "ics20_withdrawal"@[1]);
        assert("ibcRelayerChange"@[0] != "validator_update"@[0]);
        assert("ibcRelayerChange"@[0] != "recoverIbcClient"@[0]);
        assert("ibc_relayer_change"@[0] != "recover_ibc_client"@[0]);
        assert("ibcSudoChange"@[0] != "marketsChange"@[0]);
        assert("ibcSudoChange"@[0] != "create_market"@[0]);
        assert("ibcSudoChange"@[0] != "update_market"@[0]);
        assert("ibc_sudo_change"@[1] != "ics20Withdrawal"@[1]);
        assert("ibc_sudo_change"@[0] != "validatorUpdate"@[0]);
        assert("ibc_sudo_change"@[0] != "bridge_transfer"@[0]);
        assert("ics20Withdrawal"@[0] != "validatorUpdate"@[0]);
        assert("ics20Withdrawal"@[0] != "bridge_transfer"@[0]);
        assert("ics20_withdrawal"@[0] != "validator_update"@[0]);
        assert("ics20_withdrawal"@[0] != "recoverIbcClient"@[0]);
        assert("initBridgeAccount"@[0] != "sudoAddressChange"@[0]);
        assert("init_bridge_account"@[0] != "sudo_address_change"@[0]);
        assert("init_bridge_account"@[0] != "currencyPairsChange"@[0]);
        assert("sudo_address_change"@[0] != "currencyPairsChange"@[0]);
        assert("validatorUpdate"@[0] != "bridge_transfer"@[0]);
        assert("validator_update"@[0] != "recoverIbcClient"@[0]);
        assert("bridgeTransfer"@[0] != "markets_change"@[0]);
        assert("marketsChange"@[0] != "create_market"@[0]);
        assert("marketsChange"@[0] != "update_market"@[0]);
        assert("createOrder"@[1] != "cancelOrder"@[1]);
        assert("create_order"@[1] != "cancel_order"@[1]);
        assert("create_order"@[6] != "createMarket"@[6]);
        assert("create_order"@[0] != "updateMarket"@[0]);
        assert("cancel_order"@[1] != "createMarket"@[1]);
        assert("cancel_order"@[0] != "updateMarket"@[0]);
        assert("createMarket"@[0] != "updateMarket"@[0]);
        assert("create_market"@[0] != "update_market"@[0]);
        lemma_fold_entry_if(Self::spec_start(), true, "feeChange"@, JsonV::Object(es), Self::step_fn());
        lemma_fold_entry_if(Self::spec_start(), true, "fee_change"@, JsonV::Object(es), Self::step_fn());
        lemma_fold_entry_if(Self::spec_start(), true, "feeChange"@, JsonV::Null, Self::step_fn());
        lemma_fold_entry_if(Self::spec_start(), true, "fee_change"@, JsonV::Null, Self::step_fn());
    }

    /// The field `ibc_relay` alone: an object with one member under its JSON or protobuf
    /// name reads as the message with that field set and every other field at its
    /// default, and the message with only that field off its default writes that
    /// one member under the JSON name.
    pub proof fn lemma_member_ibc_relay(es: Seq<(Seq<char>, JsonV)>)
        ensures
            Self::spec_from_json(JsonV::Object(seq![("ibcRelay"@, JsonV::Object(es))])) == Ok::<FeeChangeV, JsonErrorV>(FeeChangeV { fee_components: Some(fee_change::FeeComponentsV::IbcRelay(es)) }),
            Self::spec_from_json(JsonV::Object(seq![("ibc_relay"@, JsonV::Object(es))])) == Ok::<FeeChangeV, JsonErrorV>(FeeChangeV { fee_components: Some(fee_change::FeeComponentsV::IbcRelay(es)) }),
            Self::spec_from_json(JsonV::Object(seq![("ibcRelay"@, JsonV::Null)])) == Ok::<FeeChangeV, JsonErrorV>(Self::spec_default()),
            Self::spec_from_json(JsonV::Object(seq![("ibc_relay"@, JsonV::Null)])) == Ok::<FeeChangeV, JsonErrorV>(Self::spec_default()),
            Self::spec_to_json(FeeChangeV { fee_components: Some(fee_change::FeeComponentsV::IbcRelay(es)) }) == JsonV::Object(seq![("ibcRelay"@, JsonV::Object(es))]),
    {
        reveal_strlit("bridgeLock");
        reveal_strlit("bridge_lock");
        reveal_strlit("bridgeSudoChange");
        reveal_strlit("bridge_sudo_change");
        reveal_strlit("bridgeUnlock");
        reveal_strlit("bridge_unlock");
        reveal_strlit("feeAssetChange");
        reveal_strlit("fee_asset_change");
        reveal_strlit("feeChange");
        reveal_strlit("fee_change");
        reveal_strlit("ibcRelay");
        reveal_strlit("ibc_relay");
        reveal_strlit("ibcRelayerChange");
        reveal_strlit("ibc_relayer_change");
        reveal_strlit("ibcSudoChange");
        reveal_strlit("ibc_sudo_change");
        reveal_strlit("ics20Withdrawal");
        reveal_strlit("ics20_withdrawal");
        reveal_strlit("initBridgeAccount");
        reveal_strlit("init_bridge_account");
        reveal_strlit("rollupDataSubmission");
        reveal_strlit("rollup_data_submission");
        reveal_strlit("sudoAddressChange");
        reveal_strlit("sudo_address_change");
        reveal_strlit("transfer");
        reveal_strlit("validatorUpdate");
        reveal_strlit("validator_update");
        reveal_strlit("bridgeTransfer");
        reveal_strlit("bridge_transfer");
        reveal_strlit("recoverIbcClient");
        reveal_strlit("recover_ibc_client");
        reveal_strlit("currencyPairsChange");
        reveal_strlit("currency_pairs_change");
        reveal_strlit("marketsChange");
        reveal_strlit("markets_change");
        reveal_strlit("createOrder");
        reveal_strlit("create_order");
        reveal_strlit("cancelOrder");
        reveal_strlit("cancel_order");
        reveal_strlit("createMarket");
        reveal_strlit("create_market");
        reveal_strlit("updateMarket");
        reveal_strlit("update_market");
        assert("bridgeLock"@.len() == 10);
        assert("bridge_lock"@.len() == 11);
        assert("bridgeSudoChange"@.len() == 16);
        assert("bridge_sudo_change"@.len() == 18);
        assert("bridgeUnlock"@.len() == 12);
        assert("bridge_unlock"@.len() == 13);
        assert("feeAssetChange"@.len() == 14);
        assert("fee_asset_change"@.len() == 16);
        assert("feeChange"@.len() == 9);
        assert("fee_change"@.len() == 10);
        assert("ibcRelay"@.len() == 8);
        assert("ibc_relay"@.len() == 9);
        assert("ibcRelayerChange"@.len() == 16);
        assert("ibc_relayer_change"@.len() == 18);
        assert("ibcSudoChange"@.len() == 13);
        assert("ibc_sudo_change"@.len() == 15);
        assert("ics20Withdrawal"@.len() == 15);
        assert("ics20_withdrawal"@.len() == 16);
        assert("initBridgeAccount"@.len() == 17);
        assert("init_bridge_account"@.len() == 19);
        assert("rollupDataSubmission"@.len() == 20);
        assert("rollup_data_submission"@.len() == 22);
        assert("sudoAddressChange"@.len() == 17);
        assert("sudo_address_change"@.len() == 19);
        assert("transfer"@.len() == 8);
        assert("validatorUpdate"@.len() == 15);
        assert("validator_update"@.len() == 16);
        assert("bridgeTransfer"@.len() == 14);
        assert("bridge_transfer"@.len() == 15);
        assert("recoverIbcClient"@.len() == 16);
        assert("recover_ibc_client"@.len() == 18);
        assert("currencyPairsChange"@.len() == 19);
        assert("currency_pairs_change"@.len() == 21);
        assert("marketsChange"@.len() == 13);
        assert("markets_change"@.len() == 14);
        assert("createOrder"@.len() == 11);
        assert("create_order"@.len() == 12);
        assert("cancelOrder"@.len() == 11);
        assert("cancel_order"@.len() == 12);
        assert("createMarket"@.len() == 12);
        assert("create_market"@.len() == 13);
        assert("updateMarket"@.len() == 12);
        assert("update_market"@.len() == 13);
        assert("bridgeLock"@[0] != "fee_change"@[0]);
        assert("bridge_lock"@[0] != "createOrder"@[0]);
        assert("bridge_lock"@[0] != "cancelOrder"@[0]);
        assert("bridgeSudoChange"@[0] != "fee_asset_change"@[0]);
        assert("bridgeSudoChange"@[0] != "ibcRelayerChange"@[0]);
        assert("bridgeSudoChange"@[0] != "ics20_withdrawal"@[0]);
        assert("bridgeSudoChange"@[0] != "validator_update"@[0]);
        assert("bridgeSudoChange"@[0] != "recoverIbcClient"@[0]);
        assert("bridge_sudo_change"@[0] != "ibc_relayer_change"@[0]);
        assert("bridge_sudo_change"@[0] != "recover_ibc_client"@[0]);
        assert("bridgeUnlock"@[0] != "create_order"@[0]);
        assert("bridgeUnlock"@[0] != "cancel_order"@[0]);
        assert("bridgeUnlock"@[0] != "createMarket"@[0]);
        assert("bridgeUnlock"@[0] != "updateMarket"@[0]);
        assert("bridge_unlock"@[0] != "ibcSudoChange"@[0]);
        assert("bridge_unlock"@[0] != "marketsChange"@[0]);
        assert("bridge_unlock"@[0] != "create_market"@[0]);
        assert("bridge_unlock"@[0] != "update_market"@[0]);
        assert("feeAssetChange"@[0] != "bridgeTransfer"@[0]);
        assert("feeAssetChange"@[0] != "markets_change"@[0]);
        assert("fee_asset_change"@[0] != "ibcRelayerChange"@[0]);
        assert("fee_asset_change"@[0] != "ics20_withdrawal"@[0]);
        assert("fee_asset_change"@[0] != "validator_update"@[0]);
        assert("fee_asset_change"@[0] != "recoverIbcClient"@[0]);
        assert("feeChange"@[0] != "ibc_relay"@[0]);
        assert("ibcRelay"@[0] != "transfer"@[0]);
        assert("ibcRelayerChange"@[1] != "ics20_withdrawal"@[1]);
        assert("ibcRelayerChange"@[0] != "validator_update"@[0]);
        assert("ibcRelayerChange"@[0] != "recoverIbcClient"@[0]);
        assert("ibc_relayer_change"@[0] != "recover_ibc_client"@[0]);
        assert("ibcSudoChange"@[0] != "marketsChange"@[0]);
        assert("ibcSudoChange"@[0] != "create_market"@[0]);
        assert("ibcSudoChange"@[0] != "update_market"@[0]);
        assert("ibc_sudo_change"@[1] != "ics20Withdrawal"@[1]);
        assert("ibc_sudo_change"@[0] != "validatorUpdate"@[0]);
        assert("ibc_sudo_change"@[0] != "bridge_transfer"@[0]);
        assert("ics20Withdrawal"@[0] != "validatorUpdate"@[0]);
        assert("ics20Withdrawal"@[0] != "bridge_transfer"@[0]);
        assert("ics20_withdrawal"@[0] != "validator_update"@[0]);
        assert("ics20_withdrawal"@[0] != "recoverIbcClient"@[0]);
        assert("initBridgeAccount"@[0] != "sudoAddressChange"@[0]);
        assert("init_bridge_account"@[0] != "sudo_address_change"@[0]);
        assert("init_bridge_account"@[0] != "currencyPairsChange"@[0]);
        assert("sudo_address_change"@[0] != "currencyPairsChange"@[0]);
        assert("validatorUpdate"@[0] != "bridge_transfer"@[0]);
        assert("validator_update"@[0] != "recoverIbcClient"@[0]);
        assert("bridgeTransfer"@[0] != "markets_change"@[0]);
        assert("marketsChange"@[0] != "create_market"@[0]);
        assert("marketsChange"@[0] != "update_market"@[0]);
        assert("createOrder"@[1] != "cancelOrder"@[1]);
        assert("create_order"@[1] != "cancel_order"@[1]);
        assert("create_order"@[6] != "createMarket"@[6]);
        assert("create_order"@[0] != "updateMarket"@[0]);
        assert("cancel_order"@[1] != "createMarket"@[1]);
        assert("cancel_order"@[0] != "updateMarket"@[0]);
        assert("createMarket"@[0] != "updateMarket"@[0]);
        assert("create_market"@[0] != "update_market"@[0]);
        lemma_fold_entry_if(Self::spec_start(), true, "ibcRelay"@, JsonV::Object(es), Self::step_fn());
        lemma_fold_entry_if(Self::spec_start(), true, "ibc_relay"@, JsonV::Object(es), Self::step_fn());
        lemma_fold_entry_if(Self::spec_start(), true, "ibcRelay"@, JsonV::Null, Self::step_fn());
        lemma_fold_entry_if(Self::spec_start(), true, "ibc_relay"@, JsonV::Null, Self::step_fn());
    }

    /// The field `ibc_relayer_change` alone: an object with one member under its JSON or protobuf
    /// name reads as the message with that field set and every other field at its
    /// default, and the message with only that field off its default writes that
    /// one member under the JSON name.
    pub proof fn lemma_member_ibc_relayer_change(es: Seq<(Seq<char>, JsonV)>)
        ensures
            Self::spec_from_json(JsonV::Object(seq![("ibcRelayerChange"@, JsonV::Object(es))])) == Ok::<FeeChangeV, JsonErrorV>(FeeChangeV { fee_components: Some(fee_change::FeeComponentsV::IbcRelayerChange(es)) }),
            Self::spec_from_json(JsonV::Object(seq![("ibc_relayer_change"@, JsonV::Object(es))])) == Ok::<FeeChangeV, JsonErrorV>(FeeChangeV { fee_components: Some(fee_change::FeeComponentsV::IbcRelayerChange(es)) }),
            Self::spec_from_json(JsonV::Object(seq![("ibcRelayerChange"@, JsonV::Null)])) == Ok::<FeeChangeV, JsonErrorV>(Self::spec_default()),
            Self::spec_from_json(JsonV::Object(seq![("ibc_relayer_change"@, JsonV::Null)])) == Ok::<FeeChangeV, JsonErrorV>(Self::spec_default()),
            Self::spec_to_json(FeeChangeV { fee_components: Some(fee_change::FeeComponentsV::IbcRelayerChange(es)) }) == JsonV::Object(seq![("ibcRelayerChange"@, JsonV::Object(es))]),
    {
        reveal_strlit("bridgeLock");
        reveal_strlit("bridge_lock");
        reveal_strlit("bridgeSudoChange");
        reveal_strlit("bridge_sudo_change");
        reveal_strlit("bridgeUnlock");
        reveal_strlit("bridge_unlock");
        reveal_strlit("feeAssetChange");
        reveal_strlit("fee_asset_change");
        reveal_strlit("feeChange");
        reveal_strlit("fee_change");
        reveal_strlit("ibcRelay");
        reveal_strlit("ibc_relay");
        reveal_strlit("ibcRelayerChange");
        reveal_strlit("ibc_relayer_change");
        reveal_strlit("ibcSudoChange");
        reveal_strlit("ibc_sudo_change");
        reveal_strlit("ics20Withdrawal");
        reveal_strlit("ics20_withdrawal");
        reveal_strlit("initBridgeAccount");
        reveal_strlit("init_bridge_account");
        reveal_strlit("rollupDataSubmission");
        reveal_strlit("rollup_data_submission");
        reveal_strlit("sudoAddressChange");
        reveal_strlit("sudo_address_change");
        reveal_strlit("transfer");
        reveal_strlit("validatorUpdate");
        reveal_strlit("validator_update");
        reveal_strlit("bridgeTransfer");
        reveal_strlit("bridge_transfer");
        reveal_strlit("recoverIbcClient");
        reveal_strlit("recover_ibc_client");
        reveal_strlit("currencyPairsChange");
        reveal_strlit("currency_pairs_change");
        reveal_strlit("marketsChange");
        reveal_strlit("markets_change");
        reveal_strlit("createOrder");
        reveal_strlit("create_order");
        reveal_strlit("cancelOrder");
        reveal_strlit("cancel_order");
        reveal_strlit("createMarket");
        reveal_strlit("create_market");
        reveal_strlit("updateMarket");
        reveal_strlit("update_market");
        assert("bridgeLock"@.len() == 10);
        assert("bridge_lock"@.len() == 11);
        assert("bridgeSudoChange"@.len() == 16);
        assert("bridge_sudo_change"@.len() == 18);
        assert("bridgeUnlock"@.len() == 12);
        assert("bridge_unlock"@.len() == 13);
        assert("feeAssetChange"@.len() == 14);
        assert("fee_asset_change"@.len() == 16);
        assert("feeChange"@.len() == 9);
        assert("fee_change"@.len() == 10);
        assert("ibcRelay"@.len() == 8);
        assert("ibc_relay"@.len() == 9);
        assert("ibcRelayerChange"@.len() == 16);
        assert("ibc_relayer_change"@.len() == 18);
        assert("ibcSudoChange"@.len() == 13);
        assert("ibc_sudo_change"@.len() == 15);
        assert("ics20Withdrawal"@.len() == 15);
        assert("ics20_withdrawal"@.len() == 16);
        assert("initBridgeAccount"@.len() == 17);
        assert("init_bridge_account"@.len() == 19);
        assert("rollupDataSubmission"@.len() == 20);
        assert("rollup_data_submission"@.len() == 22);
        assert("sudoAddressChange"@.len() == 17);
        assert("sudo_address_change"@.len() == 19);
        assert("transfer"@.len() == 8);
        assert("validatorUpdate"@.len() == 15);
        assert("validator_update"@.len() == 16);
        assert("bridgeTransfer"@.len() == 14);
        assert("bridge_transfer"@.len() == 15);
        assert("recoverIbcClient"@.len() == 16);
        assert("recover_ibc_client"@.len() == 18);
        assert("currencyPairsChange"@.len() == 19);
        assert("currency_pairs_change"@.len() == 21);
        assert("marketsChange"@.len() == 13);
        assert("markets_change"@.len() == 14);
        assert("createOrder"@.len() == 11);
        assert("create_order"@.len() == 12);
        assert("cancelOrder"@.len() == 11);
        assert("cancel_order"@.len() == 12);
        assert("createMarket"@.len() == 12);
        assert("create_market"@.len() == 13);
        assert("updateMarket"@.len() == 12);
        assert("update_market"@.len() == 13);
        assert("bridgeLock"@[0] != "fee_change"@[0]);
        assert("bridge_lock"@[0] != "createOrder"@[0]);
        assert("bridge_lock"@[0] != "cancelOrder"@[0]);
        assert("bridgeSudoChange"@[0] != "fee_asset_change"@[0]);
        assert("bridgeSudoChange"@[0] != "ibcRelayerChange"@[0]);
        assert("bridgeSudoChange"@[0] != "ics20_withdrawal"@[0]);
        assert("bridgeSudoChange"@[0] != "validator_update"@[0]);
        assert("bridgeSudoChange"@[0] != "recoverIbcClient"@[0]);
        assert("bridge_sudo_change"@[0] != "ibc_relayer_change"@[0]);
        assert("bridge_sudo_change"@[0] != "recover_ibc_client"@[0]);
        assert("bridgeUnlock"@[0] != "create_order"@[0]);
        assert("bridgeUnlock"@[0] != "cancel_order"@[0]);
        assert("bridgeUnlock"@[0] != "createMarket"@[0]);
        assert("bridgeUnlock"@[0] != "updateMarket"@[0]);
        assert("bridge_unlock"@[0] != "ibcSudoChange"@[0]);
        assert("bridge_unlock"@[0] != "marketsChange"@[0]);
        assert("bridge_unlock"@[0] != "create_market"@[0]);
        assert("bridge_unlock"@[0] != "update_market"@[0]);
        assert("feeAssetChange"@[0] != "bridgeTransfer"@[0]);
        assert("feeAssetChange"@[0] != "markets_change"@[0]);
        assert("fee_asset_change"@[0] != "ibcRelayerChange"@[0]);
        assert("fee_asset_change"@[0] != "ics20_withdrawal"@[0]);
        assert("fee_asset_change"@[0] != "validator_update"@[0]);
        assert("fee_asset_change"@[0] != "recoverIbcClient"@[0]);
        assert("feeChange"@[0] != "ibc_relay"@[0]);
        assert("ibcRelay"@[0] != "transfer"@[0]);
        assert("ibcRelayerChange"@[1] != "ics20_withdrawal"@[1]);
        assert("ibcRelayerChange"@[0] != "validator_update"@[0]);
        assert("ibcRelayerChange"@[0] != "recoverIbcClient"@[0]);
        assert("ibc_relayer_change"@[0] != "recover_ibc_client"@[0]);
        assert("ibcSudoChange"@[0] != "marketsChange"@[0]);
        assert("ibcSudoChange"@[0] != "create_market"@[0]);
        assert("ibcSudoChange"@[0] != "update_market"@[0]);
        assert("ibc_sudo_change"@[1] != "ics20Withdrawal"@[1]);
        assert("ibc_sudo_change"@[0] != "validatorUpdate"@[0]);
        assert("ibc_sudo_change"@[0] != "bridge_transfer"@[0]);
        assert("ics20Withdrawal"@[0] != "validatorUpdate"@[0]);
        assert("ics20Withdrawal"@[0] != "bridge_transfer"@[0]);
        assert("ics20_withdrawal"@[0] != "validator_update"@[0]);
        assert("ics20_withdrawal"@[0] != "recoverIbcClient"@[0]);
        assert("initBridgeAccount"@[0] != "sudoAddressChange"@[0]);
        assert("init_bridge_account"@[0] != "sudo_address_change"@[0]);
        assert("init_bridge_account"@[0] != "currencyPairsChange"@[0]);
        assert("sudo_address_change"@[0] != "currencyPairsChange"@[0]);
        assert("validatorUpdate"@[0] != "bridge_transfer"@[0]);
        assert("validator_update"@[0] != "recoverIbcClient"@[0]);
        assert("bridgeTransfer"@[0] != "markets_change"@[0]);
        assert("marketsChange"@[0] != "create_market"@[0]);
        assert("marketsChange"@[0] != "update_market"@[0]);
        assert("createOrder"@[1] != "cancelOrder"@[1]);
        assert("create_order"@[1] != "cancel_order"@[1]);
        assert("create_order"@[6] != "createMarket"@[6]);
        assert("create_order"@[0] != "updateMarket"@[0]);
        assert("cancel_order"@[1] != "createMarket"@[1]);
        assert("cancel_order"@[0] != "updateMarket"@[0]);
        assert("createMarket"@[0] != "updateMarket"@[0]);
        assert("create_market"@[0] != "update_market"@[0]);
        lemma_fold_entry_if(Self::spec_start(), true, "ibcRelayerChange"@, JsonV::Object(es), Self::step_fn());
        lemma_fold_entry_if(Self::spec_start(), true, "ibc_relayer_change"@, JsonV::Object(es), Self::step_fn());
        lemma_fold_entry_if(Self::spec_start(), true, "ibcRelayerChange"@, JsonV::Null, Self::step_fn());
        lemma_fold_entry_if(Self::spec_start(), true, "ibc_relayer_change"@, JsonV::Null, Self::step_fn());
    }

    /// The field `ibc_sudo_change` alone: an object with one member under its JSON or protobuf
    /// name reads as the message with that field set and every other field at its
    /// default, and the message with only that field off its default writes that
    /// one member under the JSON name.
    pub proof fn lemma_member_ibc_sudo_change(es: Seq<(Seq<char>, JsonV)>)
        ensures
            Self::spec_from_json(JsonV::Object(seq![("ibcSudoChange"@, JsonV::Object(es))])) == Ok::<FeeChangeV, JsonErrorV>(FeeChangeV { fee_components: Some(fee_change::FeeComponentsV::IbcSudoChange(es)) }),
            Self::spec_from_json(JsonV::Object(seq![("ibc_sudo_change"@, JsonV::Object(es))])) == Ok::<FeeChangeV, JsonErrorV>(FeeChangeV { fee_components: Some(fee_change::FeeComponentsV::IbcSudoChange(es)) }),
            Self::spec_from_json(JsonV::Object(seq![("ibcSudoChange"@, JsonV::Null)])) == Ok::<FeeChangeV, JsonErrorV>(Self::spec_default()),
            Self::spec_from_json(JsonV::Object(seq![("ibc_sudo_change"@, JsonV::Null)])) == Ok::<FeeChangeV, JsonErrorV>(Self::spec_default()),
            Self::spec_to_json(FeeChangeV { fee_components: Some(fee_change::FeeComponentsV::IbcSudoChange(es)) }) == JsonV::Object(seq![("ibcSudoChange"@, JsonV::Object(es))]),
    {
        reveal_strlit("bridgeLock");
        reveal_strlit("bridge_lock");
        reveal_strlit("bridgeSudoChange");
        reveal_strlit("bridge_sudo_change");
        reveal_strlit("bridgeUnlock");
        reveal_strlit("bridge_unlock");
        reveal_strlit("feeAssetChange");
        reveal_strlit("fee_asset_change");
        reveal_strlit("feeChange");
        reveal_strlit("fee_change");
        reveal_strlit("ibcRelay");
        reveal_strlit("ibc_relay");
        reveal_strlit("ibcRelayerChange");
        reveal_strlit("ibc_relayer_change");
        reveal_strlit("ibcSudoChange");
        reveal_strlit("ibc_sudo_change");
        reveal_strlit("ics20Withdrawal");
        reveal_strlit("ics20_withdrawal");
        reveal_strlit("initBridgeAccount");
        reveal_strlit("init_bridge_account");
        reveal_strlit("rollupDataSubmission");
        reveal_strlit("rollup_data_submission");
        reveal_strlit("sudoAddressChange");
        reveal_strlit("sudo_address_change");
        reveal_strlit("transfer");
        reveal_strlit("validatorUpdate");
        reveal_strlit("validator_update");
        reveal_strlit("bridgeTransfer");
        reveal_strlit("bridge_transfer");
        reveal_strlit("recoverIbcClient");
        reveal_strlit("recover_ibc_client");
        reveal_strlit("currencyPairsChange");
        reveal_strlit("currency_pairs_change");
        reveal_strlit("marketsChange");
        reveal_strlit("markets_change");
        reveal_strlit("createOrder");
        reveal_strlit("create_order");
        reveal_strlit("cancelOrder");
        reveal_strlit("cancel_order");
        reveal_strlit("createMarket");
        reveal_strlit("create_market");
        reveal_strlit("updateMarket");
        reveal_strlit("update_market");
        assert("bridgeLock"@.len() == 10);
        assert("bridge_lock"@.len() == 11);
        assert("bridgeSudoChange"@.len() == 16);
        assert("bridge_sudo_change"@.len() == 18);
        assert("bridgeUnlock"@.len() == 12);
        assert("bridge_unlock"@.len() == 13);
        assert("feeAssetChange"@.len() == 14);
        assert("fee_asset_change"@.len() == 16);
        assert("feeChange"@.len() == 9);
        assert("fee_change"@.len() == 10);
        assert("ibcRelay"@.len() == 8);
        assert("ibc_relay"@.len() == 9);
        assert("ibcRelayerChange"@.len() == 16);
        assert("ibc_relayer_change"@.len() == 18);
        assert("ibcSudoChange"@.len() == 13);
        assert("ibc_sudo_change"@.len() == 15);
        assert("ics20Withdrawal"@.len() == 15);
        assert("ics20_withdrawal"@.len() == 16);
        assert("initBridgeAccount"@.len() == 17);
        assert("init_bridge_account"@.len() == 19);
        assert("rollupDataSubmission"@.len() == 20);
        assert("rollup_data_submission"@.len() == 22);
        assert("sudoAddressChange"@.len() == 17);
        assert("sudo_address_change"@.len() == 19);
        assert("transfer"@.len() == 8);
        assert("validatorUpdate"@.len() == 15);
        assert("validator_update"@.len() == 16);
        assert("bridgeTransfer"@.len() == 14);
        assert("bridge_transfer"@.len() == 15);
        assert("recoverIbcClient"@.len() == 16);
        assert("recover_ibc_client"@.len() == 18);
        assert("currencyPairsChange"@.len() == 19);
        assert("currency_pairs_change"@.len() == 21);
        assert("marketsChange"@.len() == 13);
        assert("markets_change"@.len() == 14);
        assert("createOrder"@.len() == 11);
        assert("create_order"@.len() == 12);
        assert("cancelOrder"@.len() == 11);
        assert("cancel_order"@.len() == 12);
        assert("createMarket"@.len() == 12);
        assert("create_market"@.len() == 13);
        assert("updateMarket"@.len() == 12);
        assert("update_market"@.len() == 13);
        assert("bridgeLock"@[0] != "fee_change"@[0]);
        assert("bridge_lock"@[0] != "createOrder"@[0]);
        assert("bridge_lock"@[0] != "cancelOrder"@[0]);
        assert("bridgeSudoChange"@[0] != "fee_asset_change"@[0]);
        assert("bridgeSudoChange"@[0] != "ibcRelayerChange"@[0]);
        assert("bridgeSudoChange"@[0] != "ics20_withdrawal"@[0]);
        assert("bridgeSudoChange"@[0] != "validator_update"@[0]);
        assert("bridgeSudoChange"@[0] != "recoverIbcClient"@[0]);
        assert("bridge_sudo_change"@[0] != "ibc_relayer_change"@[0]);
        assert("bridge_sudo_change"@[0] != "recover_ibc_client"@[0]);
        assert("bridgeUnlock"@[0] != "create_order"@[0]);
        assert("bridgeUnlock"@[0] != "cancel_order"@[0]);
        assert("bridgeUnlock"@[0] != "createMarket"@[0]);
        assert("bridgeUnlock"@[0] != "updateMarket"@[0]);
        assert("bridge_unlock"@[0] != "ibcSudoChange"@[0]);
        assert("bridge_unlock"@[0] != "marketsChange"@[0]);
        assert("bridge_unlock"@[0] != "create_market"@[0]);
        assert("bridge_unlock"@[0] != "update_market"@[0]);
        assert("feeAssetChange"@[0] != "bridgeTransfer"@[0]);
        assert("feeAssetChange"@[0] != "markets_change"@[0]);
        assert("fee_asset_change"@[0] != "ibcRelayerChange"@[0]);
        assert("fee_asset_change"@[0] != "ics20_withdrawal"@[0]);
        assert("fee_asset_change"@[0] != "validator_update"@[0]);
        assert("fee_asset_change"@[0] != "recoverIbcClient"@[0]);
        assert("feeChange"@[0] != "ibc_relay"@[0]);
        assert("ibcRelay"@[0] != "transfer"@[0]);
        assert("ibcRelayerChange"@[1] != "ics20_withdrawal"@[1]);
        assert("ibcRelayerChange"@[0] != "validator_update"@[0]);
        assert("ibcRelayerChange"@[0] != "recoverIbcClient"@[0]);
        assert("ibc_relayer_change"@[0] != "recover_ibc_client"@[0]);
        assert("ibcSudoChange"@[0] != "marketsChange"@[0]);
        assert("ibcSudoChange"@[0] != "create_market"@[0]);
        assert("ibcSudoChange"@[0] != "update_market"@[0]);
        assert("ibc_sudo_change"@[1] != "ics20Withdrawal"@[1]);
        assert("ibc_sudo_change"@[0] != "validatorUpdate"@[0]);
        assert("ibc_sudo_change"@[0] != "bridge_transfer"@[0]);
        assert("ics20Withdrawal"@[0] != "validatorUpdate"@[0]);
        assert("ics20Withdrawal"@[0] != "bridge_transfer"@[0]);
        assert("ics20_withdrawal"@[0] != "validator_update"@[0]);
        assert("ics20_withdrawal"@[0] != "recoverIbcClient"@[0]);
        assert("initBridgeAccount"@[0] != "sudoAddressChange"@[0]);
        assert("init_bridge_account"@[0] != "sudo_address_change"@[0]);
        assert("init_bridge_account"@[0] != "currencyPairsChange"@[0]);
        assert("sudo_address_change"@[0] != "currencyPairsChange"@[0]);
        assert("validatorUpdate"@[0] != "bridge_transfer"@[0]);
        assert("validator_update"@[0] != "recoverIbcClient"@[0]);
        assert("bridgeTransfer"@[0] != "markets_change"@[0]);
        assert("marketsChange"@[0] != "create_market"@[0]);
        assert("marketsChange"@[0] != "update_market"@[0]);
        assert("createOrder"@[1] != "cancelOrder"@[1]);
        assert("create_order"@[1] != "cancel_order"@[1]);
        assert("create_order"@[6] != "createMarket"@[6]);
        assert("create_order"@[0] != "updateMarket"@[0]);
        assert("cancel_order"@[1] != "createMarket"@[1]);
        assert("cancel_order"@[0] != "updateMarket"@[0]);
        assert("createMarket"@[0] != "updateMarket"@[0]);
        assert("create_market"@[0] != "update_market"@[0]);
        lemma_fold_entry_if(Self::spec_start(), true, "ibcSudoChange"@, JsonV::Object(es), Self::step_fn());
        lemma_fold_entry_if(Self::spec_start(), true, "ibc_sudo_change"@, JsonV::Object(es), Self::step_fn());
        lemma_fold_entry_if(Self::spec_start(), true, "ibcSudoChange"@, JsonV::Null, Self::step_fn());
        lemma_fold_entry_if(Self::spec_start(), true, "ibc_sudo_change"@, JsonV::Null, Self::step_fn());
    }

    /// The field `ics20_withdrawal` alone: an object with one member under its JSON or protobuf
    /// name reads as the message with that field set and every other field at its
    /// default, and the message with only that field off its default writes that
    /// one member under the JSON name.
    pub proof fn lemma_member_ics20_withdrawal(es: Seq<(Seq<char>, JsonV)>)
        ensures
            Self::spec_from_json(JsonV::Object(seq![("ics20Withdrawal"@, JsonV::Object(es))])) == Ok::<FeeChangeV, JsonErrorV>(FeeChangeV { fee_components: Some(fee_change::FeeComponentsV::Ics20Withdrawal(es)) }),
            Self::spec_from_json(JsonV::Object(seq![("ics20_withdrawal"@, JsonV::Object(es))])) == Ok::<FeeChangeV, JsonErrorV>(FeeChangeV { fee_components: Some(fee_change::FeeComponentsV::Ics20Withdrawal(es)) }),
            Self::spec_from_json(JsonV::Object(seq![("ics20Withdrawal"@, JsonV::Null)])) == Ok::<FeeChangeV, JsonErrorV>(Self::spec_default()),
            Self::spec_from_json(JsonV::Object(seq![("ics20_withdrawal"@, JsonV::Null)])) == Ok::<FeeChangeV, JsonErrorV>(Self::spec_default()),
            Self::spec_to_json(FeeChangeV { fee_components: Some(fee_change::FeeComponentsV::Ics20Withdrawal(es)) }) == JsonV::Object(seq![("ics20Withdrawal"@, JsonV::Object(es))]),
    {
        reveal_strlit("bridgeLock");
        reveal_strlit("bridge_lock");
        reveal_strlit("bridgeSudoChange");
        reveal_strlit("bridge_sudo_change");
        reveal_strlit("bridgeUnlock");
        reveal_strlit("bridge_unlock");
        reveal_strlit("feeAssetChange");
        reveal_strlit("fee_asset_change");
        reveal_strlit("feeChange");
        reveal_strlit("fee_change");
        reveal_strlit("ibcRelay");
        reveal_strlit("ibc_relay");
        reveal_strlit("ibcRelayerChange");
        reveal_strlit("ibc_relayer_change");
        reveal_strlit("ibcSudoChange");
        reveal_strlit("ibc_sudo_change");
        reveal_strlit("ics20Withdrawal");
        reveal_strlit("ics20_withdrawal");
        reveal_strlit("initBridgeAccount");
        reveal_strlit("init_bridge_account");
        reveal_strlit("rollupDataSubmission");
        reveal_strlit("rollup_data_submission");
        reveal_strlit("sudoAddressChange");
        reveal_strlit("sudo_address_change");
        reveal_strlit("transfer");
        reveal_strlit("validatorUpdate");
        reveal_strlit("validator_update");
        reveal_strlit("bridgeTransfer");
        reveal_strlit("bridge_transfer");
        reveal_strlit("recoverIbcClient");
        reveal_strlit("recover_ibc_client");
        reveal_strlit("currencyPairsChange");
        reveal_strlit("currency_pairs_change");
        reveal_strlit("marketsChange");
        reveal_strlit("markets_change");
        reveal_strlit("createOrder");
        reveal_strlit("create_order");
        reveal_strlit("cancelOrder");
        reveal_strlit("cancel_order");
        reveal_strlit("createMarket");
        reveal_strlit("create_market");
        reveal_strlit("updateMarket");
        reveal_strlit("update_market");
        assert("bridgeLock"@.len() == 10);
        assert("bridge_lock"@.len() == 11);
        assert("bridgeSudoChange"@.len() == 16);
        assert("bridge_sudo_change"@.len() == 18);
        assert("bridgeUnlock"@.len() == 12);
        assert("bridge_unlock"@.len() == 13);
        assert("feeAssetChange"@.len() == 14);
        assert("fee_asset_change"@.len() == 16);
        assert("feeChange"@.len() == 9);
        assert("fee_change"@.len() == 10);
        assert("ibcRelay"@.len() == 8);
        assert("ibc_relay"@.len() == 9);
        assert("ibcRelayerChange"@.len() == 16);
        assert("ibc_relayer_change"@.len() == 18);
        assert("ibcSudoChange"@.len() == 13);
        assert("ibc_sudo_change"@.len() == 15);
        assert("ics20Withdrawal"@.len() == 15);
        assert("ics20_withdrawal"@.len() == 16);
        assert("initBridgeAccount"@.len() == 17);
        assert("init_bridge_account"@.len() == 19);
        assert("rollupDataSubmission"@.len() == 20);
        assert("rollup_data_submission"@.len() == 22);
        assert("sudoAddressChange"@.len() == 17);
        assert("sudo_address_change"@.len() == 19);
        assert("transfer"@.len() == 8);
        assert("validatorUpdate"@.len() == 15);
        assert("validator_update"@.len() == 16);
        assert("bridgeTransfer"@.len() == 14);
        assert("bridge_transfer"@.len() == 15);
        assert("recoverIbcClient"@.len() == 16);
        assert("recover_ibc_client"@.len() == 18);
        assert("currencyPairsChange"@.len() == 19);
        assert("currency_pairs_change"@.len() == 21);
        assert("marketsChange"@.len() == 13);
        assert("markets_change"@.len() == 14);
        assert("createOrder"@.len() == 11);
        assert("create_order"@.len() == 12);
        assert("cancelOrder"@.len() == 11);
        assert("cancel_order"@.len() == 12);
        assert("createMarket"@.len() == 12);
        assert("create_market"@.len() == 13);
        assert("updateMarket"@.len() == 12);
        assert("update_market"@.len() == 13);
        assert("bridgeLock"@[0] != "fee_change"@[0]);
        assert("bridge_lock"@[0] != "createOrder"@[0]);
        assert("bridge_lock"@[0] != "cancelOrder"@[0]);
        assert("bridgeSudoChange"@[0] != "fee_asset_change"@[0]);
        assert("bridgeSudoChange"@[0] != "ibcRelayerChange"@[0]);
        assert("bridgeSudoChange"@[0] != "ics20_withdrawal"@[0]);
        assert("bridgeSudoChange"@[0] != "validator_update"@[0]);
        assert("bridgeSudoChange"@[0] != "recoverIbcClient"@[0]);
        assert("bridge_sudo_change"@[0] != "ibc_relayer_change"@[0]);
        assert("bridge_sudo_change"@[0] != "recover_ibc_client"@[0]);
        assert("bridgeUnlock"@[0] != "create_order"@[0]);
        assert("bridgeUnlock"@[0] != "cancel_order"@[0]);
        assert("bridgeUnlock"@[0] != "createMarket"@[0]);
        assert("bridgeUnlock"@[0] != "updateMarket"@[0]);
        assert("bridge_unlock"@[0] != "ibcSudoChange"@[0]);
        assert("bridge_unlock"@[0] != "marketsChange"@[0]);
        assert("bridge_unlock"@[0] != "create_market"@[0]);
        assert("bridge_unlock"@[0] != "update_market"@[0]);
        assert("feeAssetChange"@[0] != "bridgeTransfer"@[0]);
        assert("feeAssetChange"@[0] != "markets_change"@[0]);
        assert("fee_asset_change"@[0] != "ibcRelayerChange"@[0]);
        assert("fee_asset_change"@[0] != "ics20_withdrawal"@[0]);
        assert("fee_asset_change"@[0] != "validator_update"@[0]);
        assert("fee_asset_change"@[0] != "recoverIbcClient"@[0]);
        assert("feeChange"@[0] != "ibc_relay"@[0]);
        assert("ibcRelay"@[0] != "transfer"@[0]);
        assert("ibcRelayerChange"@[1] != "ics20_withdrawal"@[1]);
        assert("ibcRelayerChange"@[0] != "validator_update"@[0]);
        assert("ibcRelayerChange"@[0] != "recoverIbcClient"@[0]);
        assert("ibc_relayer_change"@[0] != "recover_ibc_client"@[0]);
        assert("ibcSudoChange"@[0] != "marketsChange"@[0]);
        assert("ibcSudoChange"@[0] != "create_market"@[0]);
        assert("ibcSudoChange"@[0] != "update_market"@[0]);
        assert("ibc_sudo_change"@[1] != "ics20Withdrawal"@[1]);
        assert("ibc_sudo_change"@[0] != "validatorUpdate"@[0]);
        assert("ibc_sudo_change"@[0] != "bridge_transfer"@[0]);
        assert("ics20Withdrawal"@[0] != "validatorUpdate"@[0]);
        assert("ics20Withdrawal"@[0] != "bridge_transfer"@[0]);
        assert("ics20_withdrawal"@[0] != "validator_update"@[0]);
        assert("ics20_withdrawal"@[0] != "recoverIbcClient"@[0]);
        assert("initBridgeAccount"@[0] != "sudoAddressChange"@[0]);
        assert("init_bridge_account"@[0] != "sudo_address_change"@[0]);
        assert("init_bridge_account"@[0] != "currencyPairsChange"@[0]);
        assert("sudo_address_change"@[0] != "currencyPairsChange"@[0]);
        assert("validatorUpdate"@[0] != "bridge_transfer"@[0]);
        assert("validator_update"@[0] != "recoverIbcClient"@[0]);
        assert("bridgeTransfer"@[0] != "markets_change"@[0]);
        assert("marketsChange"@[0] != "create_market"@[0]);
        assert("marketsChange"@[0] != "update_market"@[0]);
        assert("createOrder"@[1] != "cancelOrder"@[1]);
        assert("create_order"@[1] != "cancel_order"@[1]);
        assert("create_order"@[6] != "createMarket"@[6]);
        assert("create_order"@[0] != "updateMarket"@[0]);
        assert("cancel_order"@[1] != "createMarket"@[1]);
        assert("cancel_order"@[0] != "updateMarket"@[0]);
        assert("createMarket"@[0] != "updateMarket"@[0]);
        assert("create_market"@[0] != "update_market"@[0]);
        lemma_fold_entry_if(Self::spec_start(), true, "ics20Withdrawal"@, JsonV::Object(es), Self::step_fn());
        lemma_fold_entry_if(Self::spec_start(), true, "ics20_withdrawal"@, JsonV::Object(es), Self::step_fn());
        lemma_fold_entry_if(Self::spec_start(), true, "ics20Withdrawal"@, JsonV::Null, Self::step_fn());
        lemma_fold_entry_if(Self::spec_start(), true, "ics20_withdrawal"@, JsonV::Null, Self::step_fn());
    }

    /// The field `init_bridge_account` alone: an object with one member under its JSON or protobuf
    /// name reads as the message with that field set and every other field at its
    /// default, and the message with only that field off its default writes that
    /// one member under the JSON name.
    pub proof fn lemma_member_init_bridge_account(es: Seq<(Seq<char>, JsonV)>)
        ensures
            Self::spec_from_json(JsonV::Object(seq![("initBridgeAccount"@, JsonV::Object(es))])) == Ok::<FeeChangeV, JsonErrorV>(FeeChangeV { fee_components: Some(fee_change::FeeComponentsV::InitBridgeAccount(es)) }),
            Self::spec_from_json(JsonV::Object(seq![("init_bridge_account"@, JsonV::Object(es))])) == Ok::<FeeChangeV, JsonErrorV>(FeeChangeV { fee_components: Some(fee_change::FeeComponentsV::InitBridgeAccount(es)) }),
            Self::spec_from_json(JsonV::Object(seq![("initBridgeAccount"@, JsonV::Null)])) == Ok::<FeeChangeV, JsonErrorV>(Self::spec_default()),
            Self::spec_from_json(JsonV::Object(seq![("init_bridge_account"@, JsonV::Null)])) == Ok::<FeeChangeV, JsonErrorV>(Self::spec_default()),
            Self::spec_to_json(FeeChangeV { fee_components: Some(fee_change::FeeComponentsV::InitBridgeAccount(es)) }) == JsonV::Object(seq![("initBridgeAccount"@, JsonV::Object(es))]),
    {
        reveal_strlit("bridgeLock");
        reveal_strlit("bridge_lock");
        reveal_strlit("bridgeSudoChange");
        reveal_strlit("bridge_sudo_change");
        reveal_strlit("bridgeUnlock");
        reveal_strlit("bridge_unlock");
        reveal_strlit("feeAssetChange");
        reveal_strlit("fee_asset_change");
        reveal_strlit("feeChange");
        reveal_strlit("fee_change");
        reveal_strlit("ibcRelay");
        reveal_strlit("ibc_relay");
        reveal_strlit("ibcRelayerChange");
        reveal_strlit("ibc_relayer_change");
        reveal_strlit("ibcSudoChange");
        reveal_strlit("ibc_sudo_change");
        reveal_strlit("ics20Withdrawal");
        reveal_strlit("ics20_withdrawal");
        reveal_strlit("initBridgeAccount");
        reveal_strlit("init_bridge_account");
        reveal_strlit("rollupDataSubmission");
        reveal_strlit("rollup_data_submission");
        reveal_strlit("sudoAddressChange");
        reveal_strlit("sudo_address_change");
        reveal_strlit("transfer");
        reveal_strlit("validatorUpdate");
        reveal_strlit("validator_update");
        reveal_strlit("bridgeTransfer");
        reveal_strlit("bridge_transfer");
        reveal_strlit("recoverIbcClient");
        reveal_strlit("recover_ibc_client");
        reveal_strlit("currencyPairsChange");
        reveal_strlit("currency_pairs_change");
        reveal_strlit("marketsChange");
        reveal_strlit("markets_change");
        reveal_strlit("createOrder");
        reveal_strlit("create_order");
        reveal_strlit("cancelOrder");
        reveal_strlit("cancel_order");
        reveal_strlit("createMarket");
        reveal_strlit("create_market");
        reveal_strlit("updateMarket");
        reveal_strlit("update_market");
        assert("bridgeLock"@.len() == 10);
        assert("bridge_lock"@.len() == 11);
        assert("bridgeSudoChange"@.len() == 16);
        assert("bridge_sudo_change"@.len() == 18);
        assert("bridgeUnlock"@.len() == 12);
        assert("bridge_unlock"@.len() == 13);
        assert("feeAssetChange"@.len() == 14);
        assert("fee_asset_change"@.len() == 16);
        assert("feeChange"@.len() == 9);
        assert("fee_change"@.len() == 10);
        assert("ibcRelay"@.len() == 8);
        assert("ibc_relay"@.len() == 9);
        assert("ibcRelayerChange"@.len() == 16);
        assert("ibc_relayer_change"@.len() == 18);
        assert("ibcSudoChange"@.len() == 13);
        assert("ibc_sudo_change"@.len() == 15);
        assert("ics20Withdrawal"@.len() == 15);
        assert("ics20_withdrawal"@.len() == 16);
        assert("initBridgeAccount"@.len() == 17);
        assert("init_bridge_account"@.len() == 19);
        assert("rollupDataSubmission"@.len() == 20);
        assert("rollup_data_submission"@.len() == 22);
        assert("sudoAddressChange"@.len() == 17);
        assert("sudo_address_change"@.len() == 19);
        assert("transfer"@.len() == 8);
        assert("validatorUpdate"@.len() == 15);
        assert("validator_update"@.len() == 16);
        assert("bridgeTransfer"@.len() == 14);
        assert("bridge_transfer"@.len() == 15);
        assert("recoverIbcClient"@.len() == 16);
        assert("recover_ibc_client"@.len() == 18);
        assert("currencyPairsChange"@.len() == 19);
        assert("currency_pairs_change"@.len() == 21);
        assert("marketsChange"@.len() == 13);
        assert("markets_change"@.len() == 14);
        assert("createOrder"@.len() == 11);
        assert("create_order"@.len() == 12);
        assert("cancelOrder"@.len() == 11);
        assert("cancel_order"@.len() == 12);
        assert("createMarket"@.len() == 12);
        assert("create_market"@.len() == 13);
        assert("updateMarket"@.len() == 12);
        assert("update_market"@.len() == 13);
        assert("bridgeLock"@[0] != "fee_change"@[0]);
        assert("bridge_lock"@[0] != "createOrder"@[0]);
        assert("bridge_lock"@[0] != "cancelOrder"@[0]);
        assert("bridgeSudoChange"@[0] != "fee_asset_change"@[0]);
        assert("bridgeSudoChange"@[0] != "ibcRelayerChange"@[0]);
        assert("bridgeSudoChange"@[0] != "ics20_withdrawal"@[0]);
        assert("bridgeSudoChange"@[0] != "validator_update"@[0]);
        assert("bridgeSudoChange"@[0] != "recoverIbcClient"@[0]);
        assert("bridge_sudo_change"@[0] != "ibc_relayer_change"@[0]);
        assert("bridge_sudo_change"@[0] != "recover_ibc_client"@[0]);
        assert("bridgeUnlock"@[0] != "create_order"@[0]);
        assert("bridgeUnlock"@[0] != "cancel_order"@[0]);
        assert("bridgeUnlock"@[0] != "createMarket"@[0]);
        assert("bridgeUnlock"@[0] != "updateMarket"@[0]);
        assert("bridge_unlock"@[0] != "ibcSudoChange"@[0]);
        assert("bridge_unlock"@[0] != "marketsChange"@[0]);
        assert("bridge_unlock"@[0] != "create_market"@[0]);
        assert("bridge_unlock"@[0] != "update_market"@[0]);
        assert("feeAssetChange"@[0] != "bridgeTransfer"@[0]);
        assert("feeAssetChange"@[0] != "markets_change"@[0]);
        assert("fee_asset_change"@[0] != "ibcRelayerChange"@[0]);
        assert("fee_asset_change"@[0] != "ics20_withdrawal"@[0]);
        assert("fee_asset_change"@[0] != "validator_update"@[0]);
        assert("fee_asset_change"@[0] != "recoverIbcClient"@[0]);
        assert("feeChange"@[0] != "ibc_relay"@[0]);
        assert("ibcRelay"@[0] != "transfer"@[0]);
        assert("ibcRelayerChange"@[1] != "ics20_withdrawal"@[1]);
        assert("ibcRelayerChange"@[0] != "validator_update"@[0]);
        assert("ibcRelayerChange"@[0] != "recoverIbcClient"@[0]);
        assert("ibc_relayer_change"@[0] != "recover_ibc_client"@[0]);
        assert("ibcSudoChange"@[0] != "marketsChange"@[0]);
        assert("ibcSudoChange"@[0] != "create_market"@[0]);
        assert("ibcSudoChange"@[0] != "update_market"@[0]);
        assert("ibc_sudo_change"@[1] != "ics20Withdrawal"@[1]);
        assert("ibc_sudo_change"@[0] != "validatorUpdate"@[0]);
        assert("ibc_sudo_change"@[0] != "bridge_transfer"@[0]);
        assert("ics20Withdrawal"@[0] != "validatorUpdate"@[0]);
        assert("ics20Withdrawal"@[0] != "bridge_transfer"@[0]);
        assert("ics20_withdrawal"@[0] != "validator_update"@[0]);
        assert("ics20_withdrawal"@[0] != "recoverIbcClient"@[0]);
        assert("initBridgeAccount"@[0] != "sudoAddressChange"@[0]);
        assert("init_bridge_account"@[0] != "sudo_address_change"@[0]);
        assert("init_bridge_account"@[0] != "currencyPairsChange"@[0]);
        assert("sudo_address_change"@[0] != "currencyPairsChange"@[0]);
        assert("validatorUpdate"@[0] != "bridge_transfer"@[0]);
        assert("validator_update"@[0] != "recoverIbcClient"@[0]);
        assert("bridgeTransfer"@[0] != "markets_change"@[0]);
        assert("marketsChange"@[0] != "create_market"@[0]);
        assert("marketsChange"@[0] != "update_market"@[0]);
        assert("createOrder"@[1] != "cancelOrder"@[1]);
        assert("create_order"@[1] != "cancel_order"@[1]);
        assert("create_order"@[6] != "createMarket"@[6]);
        assert("create_order"@[0] != "updateMarket"@[0]);
        assert("cancel_order"@[1] != "createMarket"@[1]);
        assert("cancel_order"@[0] != "updateMarket"@[0]);
        assert("createMarket"@[0] != "updateMarket"@[0]);
        assert("create_market"@[0] != "update_market"@[0]);
        lemma_fold_entry_if(Self::spec_start(), true, "initBridgeAccount"@, JsonV::Object(es), Self::step_fn());
        lemma_fold_entry_if(Self::spec_start(), true, "init_bridge_account"@, JsonV::Object(es), Self::step_fn());
        lemma_fold_entry_if(Self::spec_start(), true, "initBridgeAccount"@, JsonV::Null, Self::step_fn());
        lemma_fold_entry_if(Self::spec_start(), true, "init_bridge_account"@, JsonV::Null, Self::step_fn());
    }

    /// The field `rollup_data_submission` alone: an object with one member under its JSON or protobuf
    /// name reads as the message with that field set and every other field at its
    /// default, and the message with only that field off its default writes that
    /// one member under the JSON name.
    pub proof fn lemma_member_rollup_data_submission(es: Seq<(Seq<char>, JsonV)>)
        ensures
            Self::spec_from_json(JsonV::Object(seq![("rollupDataSubmission"@, JsonV::Object(es))])) == Ok::<FeeChangeV, JsonErrorV>(FeeChangeV { fee_components: Some(fee_change::FeeComponentsV::RollupDataSubmission(es)) }),
            Self::spec_from_json(JsonV::Object(seq![("rollup_data_submission"@, JsonV::Object(es))])) == Ok::<FeeChangeV, JsonErrorV>(FeeChangeV { fee_components: Some(fee_change::FeeComponentsV::RollupDataSubmission(es)) }),
            Self::spec_from_json(JsonV::Object(seq![("rollupDataSubmission"@, JsonV::Null)])) == Ok::<FeeChangeV, JsonErrorV>(Self::spec_default()),
            Self::spec_from_json(JsonV::Object(seq![("rollup_data_submission"@, JsonV::Null)])) == Ok::<FeeChangeV, JsonErrorV>(Self::spec_default()),
            Self::spec_to_json(FeeChangeV { fee_components: Some(fee_change::FeeComponentsV::RollupDataSubmission(es)) }) == JsonV::Object(seq![("rollupDataSubmission"@, JsonV::Object(es))]),
    {
        reveal_strlit("bridgeLock");
        reveal_strlit("bridge_lock");
        reveal_strlit("bridgeSudoChange");
        reveal_strlit("bridge_sudo_change");
        reveal_strlit("bridgeUnlock");
        reveal_strlit("bridge_unlock");
        reveal_strlit("feeAssetChange");
        reveal_strlit("fee_asset_change");
        reveal_strlit("feeChange");
        reveal_strlit("fee_change");
        reveal_strlit("ibcRelay");
        reveal_strlit("ibc_relay");
        reveal_strlit("ibcRelayerChange");
        reveal_strlit("ibc_relayer_change");
        reveal_strlit("ibcSudoChange");
        reveal_strlit("ibc_sudo_change");
        reveal_strlit("ics20Withdrawal");
        reveal_strlit("ics20_withdrawal");
        reveal_strlit("initBridgeAccount");
        reveal_strlit("init_bridge_account");
        reveal_strlit("rollupDataSubmission");
        reveal_strlit("rollup_data_submission");
        reveal_strlit("sudoAddressChange");
        reveal_strlit("sudo_address_change");
        reveal_strlit("transfer");
        reveal_strlit("validatorUpdate");
        reveal_strlit("validator_update");
        reveal_strlit("bridgeTransfer");
        reveal_strlit("bridge_transfer");
        reveal_strlit("recoverIbcClient");
        reveal_strlit("recover_ibc_client");
        reveal_strlit("currencyPairsChange");
        reveal_strlit("currency_pairs_change");
        reveal_strlit("marketsChange");
        reveal_strlit("markets_change");
        reveal_strlit("createOrder");
        reveal_strlit("create_order");
        reveal_strlit("cancelOrder");
        reveal_strlit("cancel_order");
        reveal_strlit("createMarket");
        reveal_strlit("create_market");
        reveal_strlit("updateMarket");
        reveal_strlit("update_market");
        assert("bridgeLock"@.len() == 10);
        assert("bridge_lock"@.len() == 11);
        assert("bridgeSudoChange"@.len() == 16);
        assert("bridge_sudo_change"@.len() == 18);
        assert("bridgeUnlock"@.len() == 12);
        assert("bridge_unlock"@.len() == 13);
        assert("feeAssetChange"@.len() == 14);
        assert("fee_asset_change"@.len() == 16);
        assert("feeChange"@.len() == 9);
        assert("fee_change"@.len() == 10);
        assert("ibcRelay"@.len() == 8);
        assert("ibc_relay"@.len() == 9);
        assert("ibcRelayerChange"@.len() == 16);
        assert("ibc_relayer_change"@.len() == 18);
        assert("ibcSudoChange"@.len() == 13);
        assert("ibc_sudo_change"@.len() == 15);
        assert("ics20Withdrawal"@.len() == 15);
        assert("ics20_withdrawal"@.len() == 16);
        assert("initBridgeAccount"@.len() == 17);
        assert("init_bridge_account"@.len() == 19);
        assert("rollupDataSubmission"@.len() == 20);
        assert("rollup_data_submission"@.len() == 22);
        assert("sudoAddressChange"@.len() == 17);
        assert("sudo_address_change"@.len() == 19);
        assert("transfer"@.len() == 8);
        assert("validatorUpdate"@.len() == 15);
        assert("validator_update"@.len() == 16);
        assert("bridgeTransfer"@.len() == 14);
        assert("bridge_transfer"@.len() == 15);
        assert("recoverIbcClient"@.len() == 16);
        assert("recover_ibc_client"@.len() == 18);
        assert("currencyPairsChange"@.len() == 19);
        assert("currency_pairs_change"@.len() == 21);
        assert("marketsChange"@.len() == 13);
        assert("markets_change"@.len() == 14);
        assert("createOrder"@.len() == 11);
        assert("create_order"@.len() == 12);
        assert("cancelOrder"@.len() == 11);
        assert("cancel_order"@.len() == 12);
        assert("createMarket"@.len() == 12);
        assert("create_market"@.len() == 13);
        assert("updateMarket"@.len() == 12);
        assert("update_market"@.len() == 13);
        assert("bridgeLock"@[0] != "fee_change"@[0]);
        assert("bridge_lock"@[0] != "createOrder"@[0]);
        assert("bridge_lock"@[0] != "cancelOrder"@[0]);
        assert("bridgeSudoChange"@[0] != "fee_asset_change"@[0]);
        assert("bridgeSudoChange"@[0] != "ibcRelayerChange"@[0]);
        assert("bridgeSudoChange"@[0] != "ics20_withdrawal"@[0]);
        assert("bridgeSudoChange"@[0] != "validator_update"@[0]);
        assert("bridgeSudoChange"@[0] != "recoverIbcClient"@[0]);
        assert("bridge_sudo_change"@[0] != "ibc_relayer_change"@[0]);
        assert("bridge_sudo_change"@[0] != "recover_ibc_client"@[0]);
        assert("bridgeUnlock"@[0] != "create_order"@[0]);
        assert("bridgeUnlock"@[0] != "cancel_order"@[0]);
        assert("bridgeUnlock"@[0] != "createMarket"@[0]);
        assert("bridgeUnlock"@[0] != "updateMarket"@[0]);
        assert("bridge_unlock"@[0] != "ibcSudoChange"@[0]);
        assert("bridge_unlock"@[0] != "marketsChange"@[0]);
        assert("bridge_unlock"@[0] != "create_market"@[0]);
        assert("bridge_unlock"@[0] != "update_market"@[0]);
        assert("feeAssetChange"@[0] != "bridgeTransfer"@[0]);
        assert("feeAssetChange"@[0] != "markets_change"@[0]);
        assert("fee_asset_change"@[0] != "ibcRelayerChange"@[0]);
        assert("fee_asset_change"@[0] != "ics20_withdrawal"@[0]);
        assert("fee_asset_change"@[0] != "validator_update"@[0]);
        assert("fee_asset_change"@[0] != "recoverIbcClient"@[0]);
        assert("feeChange"@[0] != "ibc_relay"@[0]);
        assert("ibcRelay"@[0] != "transfer"@[0]);
        assert("ibcRelayerChange"@[1] != "ics20_withdrawal"@[1]);
        assert("ibcRelayerChange"@[0] != "validator_update"@[0]);
        assert("ibcRelayerChange"@[0] != "recoverIbcClient"@[0]);
        assert("ibc_relayer_change"@[0] != "recover_ibc_client"@[0]);
        assert("ibcSudoChange"@[0] != "marketsChange"@[0]);
        assert("ibcSudoChange"@[0] != "create_market"@[0]);
        assert("ibcSudoChange"@[0] != "update_market"@[0]);
        assert("ibc_sudo_change"@[1] != "ics20Withdrawal"@[1]);
        assert("ibc_sudo_change"@[0] != "validatorUpdate"@[0]);
        assert("ibc_sudo_change"@[0] != "bridge_transfer"@[0]);
        assert("ics20Withdrawal"@[0] != "validatorUpdate"@[0]);
        assert("ics20Withdrawal"@[0] != "bridge_transfer"@[0]);
        assert("ics20_withdrawal"@[0] != "validator_update"@[0]);
        assert("ics20_withdrawal"@[0] != "recoverIbcClient"@[0]);
        assert("initBridgeAccount"@[0] != "sudoAddressChange"@[0]);
        assert("init_bridge_account"@[0] != "sudo_address_change"@[0]);
        assert("init_bridge_account"@[0] != "currencyPairsChange"@[0]);
        assert("sudo_address_change"@[0] != "currencyPairsChange"@[0]);
        assert("validatorUpdate"@[0] != "bridge_transfer"@[0]);
        assert("validator_update"@[0] != "recoverIbcClient"@[0]);
        assert("bridgeTransfer"@[0] != "markets_change"@[0]);
        assert("marketsChange"@[0] != "create_market"@[0]);
        assert("marketsChange"@[0] != "update_market"@[0]);
        assert("createOrder"@[1] != "cancelOrder"@[1]);
        assert("create_order"@[1] != "cancel_order"@[1]);
        assert("create_order"@[6] != "createMarket"@[6]);
        assert("create_order"@[0] != "updateMarket"@[0]);
        assert("cancel_order"@[1] != "createMarket"@[1]);
        assert("cancel_order"@[0] != "updateMarket"@[0]);
        assert("createMarket"@[0] != "updateMarket"@[0]);
        assert("create_market"@[0] != "update_market"@[0]);
        lemma_fold_entry_if(Self::spec_start(), true, "rollupDataSubmission"@, JsonV::Object(es), Self::step_fn());
        lemma_fold_entry_if(Self::spec_start(), true, "rollup_data_submission"@, JsonV::Object(es), Self::step_fn());
        lemma_fold_entry_if(Self::spec_start(), true, "rollupDataSubmission"@, JsonV::Null, Self::step_fn());
        lemma_fold_entry_if(Self::spec_start(), true, "rollup_data_submission"@, JsonV::Null, Self::step_fn());
    }

    /// The field `sudo_address_change` alone: an object with one member under its JSON or protobuf
    /// name reads as the message with that field set and every other field at its
    /// default, and the message with only that field off its default writes that
    /// one member under the JSON name.
    pub proof fn lemma_member_sudo_address_change(es: Seq<(Seq<char>, JsonV)>)
        ensures
            Self::spec_from_json(JsonV::Object(seq![("sudoAddressChange"@, JsonV::Object(es))])) == Ok::<FeeChangeV, JsonErrorV>(FeeChangeV { fee_components: Some(fee_change::FeeComponentsV::SudoAddressChange(es)) }),
            Self::spec_from_json(JsonV::Object(seq![("sudo_address_change"@, JsonV::Object(es))])) == Ok::<FeeChangeV, JsonErrorV>(FeeChangeV { fee_components: Some(fee_change::FeeComponentsV::SudoAddressChange(es)) }),
            Self::spec_from_json(JsonV::Object(seq![("sudoAddressChange"@, JsonV::Null)])) == Ok::<FeeChangeV, JsonErrorV>(Self::spec_default()),
            Self::spec_from_json(JsonV::Object(seq![("sudo_address_change"@, JsonV::Null)])) == Ok::<FeeChangeV, JsonErrorV>(Self::spec_default()),
            Self::spec_to_json(FeeChangeV { fee_components: Some(fee_change::FeeComponentsV::SudoAddressChange(es)) }) == JsonV::Object(seq![("sudoAddressChange"@, JsonV::Object(es))]),
    {
        reveal_strlit("bridgeLock");
        reveal_strlit("bridge_lock");
        reveal_strlit("bridgeSudoChange");
        reveal_strlit("bridge_sudo_change");
        reveal_strlit("bridgeUnlock");
        reveal_strlit("bridge_unlock");
        reveal_strlit("feeAssetChange");
        reveal_strlit("fee_asset_change");
        reveal_strlit("feeChange");
        reveal_strlit("fee_change");
        reveal_strlit("ibcRelay");
        reveal_strlit("ibc_relay");
        reveal_strlit("ibcRelayerChange");
        reveal_strlit("ibc_relayer_change");
        reveal_strlit("ibcSudoChange");
        reveal_strlit("ibc_sudo_change");
        reveal_strlit("ics20Withdrawal");
        reveal_strlit("ics20_withdrawal");
        reveal_strlit("initBridgeAccount");
        reveal_strlit("init_bridge_account");
        reveal_strlit("rollupDataSubmission");
        reveal_strlit("rollup_data_submission");
        reveal_strlit("sudoAddressChange");
        reveal_strlit("sudo_address_change");
        reveal_strlit("transfer");
        reveal_strlit("validatorUpdate");
        reveal_strlit("validator_update");
        reveal_strlit("bridgeTransfer");
        reveal_strlit("bridge_transfer");
        reveal_strlit("recoverIbcClient");
        reveal_strlit("recover_ibc_client");
        reveal_strlit("currencyPairsChange");
        reveal_strlit("currency_pairs_change");
        reveal_strlit("marketsChange");
        reveal_strlit("markets_change");
        reveal_strlit("createOrder");
        reveal_strlit("create_order");
        reveal_strlit("cancelOrder");
        reveal_strlit("cancel_order");
        reveal_strlit("createMarket");
        reveal_strlit("create_market");
        reveal_strlit("updateMarket");
        reveal_strlit("update_market");
        assert("bridgeLock"@.len() == 10);
        assert("bridge_lock"@.len() == 11);
        assert("bridgeSudoChange"@.len() == 16);
        assert("bridge_sudo_change"@.len() == 18);
        assert("bridgeUnlock"@.len() == 12);
        assert("bridge_unlock"@.len() == 13);
        assert("feeAssetChange"@.len() == 14);
        assert("fee_asset_change"@.len() == 16);
        assert("feeChange"@.len() == 9);
        assert("fee_change"@.len() == 10);
        assert("ibcRelay"@.len() == 8);
        assert("ibc_relay"@.len() == 9);
        assert("ibcRelayerChange"@.len() == 16);
        assert("ibc_relayer_change"@.len() == 18);
        assert("ibcSudoChange"@.len() == 13);
        assert("ibc_sudo_change"@.len() == 15);
        assert("ics20Withdrawal"@.len() == 15);
        assert("ics20_withdrawal"@.len() == 16);
        assert("initBridgeAccount"@.len() == 17);
        assert("init_bridge_account"@.len() == 19);
        assert("rollupDataSubmission"@.len() == 20);
        assert("rollup_data_submission"@.len() == 22);
        assert("sudoAddressChange"@.len() == 17);
        assert("sudo_address_change"@.len() == 19);
        assert("transfer"@.len() == 8);
        assert("validatorUpdate"@.len() == 15);
        assert("validator_update"@.len() == 16);
        assert("bridgeTransfer"@.len() == 14);
        assert("bridge_transfer"@.len() == 15);
        assert("recoverIbcClient"@.len() == 16);
        assert("recover_ibc_client"@.len() == 18);
        assert("currencyPairsChange"@.len() == 19);
        assert("currency_pairs_change"@.len() == 21);
        assert("marketsChange"@.len() == 13);
        assert("markets_change"@.len() == 14);
        assert("createOrder"@.len() == 11);
        assert("create_order"@.len() == 12);
        assert("cancelOrder"@.len() == 11);
        assert("cancel_order"@.len() == 12);
        assert("createMarket"@.len() == 12);
        assert("create_market"@.len() == 13);
        assert("updateMarket"@.len() == 12);
        assert("update_market"@.len() == 13);
        assert("bridgeLock"@[0] != "fee_change"@[0]);
        assert("bridge_lock"@[0] != "createOrder"@[0]);
        assert("bridge_lock"@[0] != "cancelOrder"@[0]);
        assert("bridgeSudoChange"@[0] != "fee_asset_change"@[0]);
        assert("bridgeSudoChange"@[0] != "ibcRelayerChange"@[0]);
        assert("bridgeSudoChange"@[0] != "ics20_withdrawal"@[0]);
        assert("bridgeSudoChange"@[0] != "validator_update"@[0]);
        assert("bridgeSudoChange"@[0] != "recoverIbcClient"@[0]);
        assert("bridge_sudo_change"@[0] != "ibc_relayer_change"@[0]);
        assert("bridge_sudo_change"@[0] != "recover_ibc_client"@[0]);
        assert("bridgeUnlock"@[0] != "create_order"@[0]);
        assert("bridgeUnlock"@[0] != "cancel_order"@[0]);
        assert("bridgeUnlock"@[0] != "createMarket"@[0]);
        assert("bridgeUnlock"@[0] != "updateMarket"@[0]);
        assert("bridge_unlock"@[0] != "ibcSudoChange"@[0]);
        assert("bridge_unlock"@[0] != "marketsChange"@[0]);
        assert("bridge_unlock"@[0] != "create_market"@[0]);
        assert("bridge_unlock"@[0] != "update_market"@[0]);
        assert("feeAssetChange"@[0] != "bridgeTransfer"@[0]);
        assert("feeAssetChange"@[0] != "markets_change"@[0]);
        assert("fee_asset_change"@[0] != "ibcRelayerChange"@[0]);
        assert("fee_asset_change"@[0] != "ics20_withdrawal"@[0]);
        assert("fee_asset_change"@[0] != "validator_update"@[0]);
        assert("fee_asset_change"@[0] != "recoverIbcClient"@[0]);
        assert("feeChange"@[0] != "ibc_relay"@[0]);
        assert("ibcRelay"@[0] != "transfer"@[0]);
        assert("ibcRelayerChange"@[1] != "ics20_withdrawal"@[1]);
        assert("ibcRelayerChange"@[0] != "validator_update"@[0]);
        assert("ibcRelayerChange"@[0] != "recoverIbcClient"@[0]);
        assert("ibc_relayer_change"@[0] != "recover_ibc_client"@[0]);
        assert("ibcSudoChange"@[0] != "marketsChange"@[0]);
        assert("ibcSudoChange"@[0] != "create_market"@[0]);
        assert("ibcSudoChange"@[0] != "update_market"@[0]);
        assert("ibc_sudo_change"@[1] != "ics20Withdrawal"@[1]);
        assert("ibc_sudo_change"@[0] != "validatorUpdate"@[0]);
        assert("ibc_sudo_change"@[0] != "bridge_transfer"@[0]);
        assert("ics20Withdrawal"@[0] != "validatorUpdate"@[0]);
        assert("ics20Withdrawal"@[0] != "bridge_transfer"@[0]);
        assert("ics20_withdrawal"@[0] != "validator_update"@[0]);
        assert("ics20_withdrawal"@[0] != "recoverIbcClient"@[0]);
        assert("initBridgeAccount"@[0] != "sudoAddressChange"@[0]);
        assert("init_bridge_account"@[0] != "sudo_address_change"@[0]);
        assert("init_bridge_account"@[0] != "currencyPairsChange"@[0]);
        assert("sudo_address_change"@[0] != "currencyPairsChange"@[0]);
        assert("validatorUpdate"@[0] != "bridge_transfer"@[0]);
        assert("validator_update"@[0] != "recoverIbcClient"@[0]);
        assert("bridgeTransfer"@[0] != "markets_change"@[0]);
        assert("marketsChange"@[0] != "create_market"@[0]);
        assert("marketsChange"@[0] != "update_market"@[0]);
        assert("createOrder"@[1] != "cancelOrder"@[1]);
        assert("create_order"@[1] != "cancel_order"@[1]);
        assert("create_order"@[6] != "createMarket"@[6]);
        assert("create_order"@[0] != "updateMarket"@[0]);
        assert("cancel_order"@[1] != "createMarket"@[1]);
        assert("cancel_order"@[0] != "updateMarket"@[0]);
        assert("createMarket"@[0] != "updateMarket"@[0]);
        assert("create_market"@[0] != "update_market"@[0]);
        lemma_fold_entry_if(Self::spec_start(), true, "sudoAddressChange"@, JsonV::Object(es), Self::step_fn());
        lemma_fold_entry_if(Self::spec_start(), true, "sudo_address_change"@, JsonV::Object(es), Self::step_fn());
        lemma_fold_entry_if(Self::spec_start(), true, "sudoAddressChange"@, JsonV::Null, Self::step_fn());
        lemma_fold_entry_if(Self::spec_start(), true, "sudo_address_change"@, JsonV::Null, Self::step_fn());
    }

    /// The field `transfer` alone: an object with one member under its JSON or protobuf
    /// name reads as the message with that field set and every other field at its
    /// default, and the message with only that field off its default writes that
    /// one member under the JSON name.
    pub proof fn lemma_member_transfer(es: Seq<(Seq<char>, JsonV)>)
        ensures
            Self::spec_from_json(JsonV::Object(seq![("transfer"@, JsonV::Object(es))])) == Ok::<FeeChangeV, JsonErrorV>(FeeChangeV { fee_components: Some(fee_change::FeeComponentsV::Transfer(es)) }),
            Self::spec_from_json(JsonV::Object(seq![("transfer"@, JsonV::Null)])) == Ok::<FeeChangeV, JsonErrorV>(Self::spec_default()),
            Self::spec_to_json(FeeChangeV { fee_components: Some(fee_change::FeeComponentsV::Transfer(es)) }) == JsonV::Object(seq![("transfer"@, JsonV::Object(es))]),
    {
        reveal_strlit("bridgeLock");
        reveal_strlit("bridge_lock");
        reveal_strlit("bridgeSudoChange");
        reveal_strlit("bridge_sudo_change");
        reveal_strlit("bridgeUnlock");
        reveal_strlit("bridge_unlock");
        reveal_strlit("feeAssetChange");
        reveal_strlit("fee_asset_change");
        reveal_strlit("feeChange");
        reveal_strlit("fee_change");
        reveal_strlit("ibcRelay");
        reveal_strlit("ibc_relay");
        reveal_strlit("ibcRelayerChange");
        reveal_strlit("ibc_relayer_change");
        reveal_strlit("ibcSudoChange");
        reveal_strlit("ibc_sudo_change");
        reveal_strlit("ics20Withdrawal");
        reveal_strlit("ics20_withdrawal");
        reveal_strlit("initBridgeAccount");
        reveal_strlit("init_bridge_account");
        reveal_strlit("rollupDataSubmission");
        reveal_strlit("rollup_data_submission");
        reveal_strlit("sudoAddressChange");
        reveal_strlit("sudo_address_change");
        reveal_strlit("transfer");
        reveal_strlit("validatorUpdate");
        reveal_strlit("validator_update");
        reveal_strlit("bridgeTransfer");
        reveal_strlit("bridge_transfer");
        reveal_strlit("recoverIbcClient");
        reveal_strlit("recover_ibc_client");
        reveal_strlit("currencyPairsChange");
        reveal_strlit("currency_pairs_change");
        reveal_strlit("marketsChange");
        reveal_strlit("markets_change");
        reveal_strlit("createOrder");
        reveal_strlit("create_order");
        reveal_strlit("cancelOrder");
        reveal_strlit("cancel_order");
        reveal_strlit("createMarket");
        reveal_strlit("create_market");
        reveal_strlit("updateMarket");
        reveal_strlit("update_market");
        assert("bridgeLock"@.len() == 10);
        assert("bridge_lock"@.len() == 11);
        assert("bridgeSudoChange"@.len() == 16);
        assert("bridge_sudo_change"@.len() == 18);
        assert("bridgeUnlock"@.len() == 12);
        assert("bridge_unlock"@.len() == 13);
        assert("feeAssetChange"@.len() == 14);
        assert("fee_asset_change"@.len() == 16);
        assert("feeChange"@.len() == 9);
        assert("fee_change"@.len() == 10);
        assert("ibcRelay"@.len() == 8);
        assert("ibc_relay"@.len() == 9);
        assert("ibcRelayerChange"@.len() == 16);
        assert("ibc_relayer_change"@.len() == 18);
        assert("ibcSudoChange"@.len() == 13);
        assert("ibc_sudo_change"@.len() == 15);
        assert("ics20Withdrawal"@.len() == 15);
        assert("ics20_withdrawal"@.len() == 16);
        assert("initBridgeAccount"@.len() == 17);
        assert("init_bridge_account"@.len() == 19);
        assert("rollupDataSubmission"@.len() == 20);
        assert("rollup_data_submission"@.len() == 22);
        assert("sudoAddressChange"@.len() == 17);
        assert("sudo_address_change"@.len() == 19);
        assert("transfer"@.len() == 8);
        assert("validatorUpdate"@.len() == 15);
        assert("validator_update"@.len() == 16);
        assert("bridgeTransfer"@.len() == 14);
        assert("bridge_transfer"@.len() == 15);
        assert("recoverIbcClient"@.len() == 16);
        assert("recover_ibc_client"@.len() == 18);
        assert("currencyPairsChange"@.len() == 19);
        assert("currency_pairs_change"@.len() == 21);
        assert("marketsChange"@.len() == 13);
        assert("markets_change"@.len() == 14);
        assert("createOrder"@.len() == 11);
        assert("create_order"@.len() == 12);
        assert("cancelOrder"@.len() == 11);
        assert("cancel_order"@.len() == 12);
        assert("createMarket"@.len() == 12);
        assert("create_market"@.len() == 13);
        assert("updateMarket"@.len() == 12);
        assert("update_market"@.len() == 13);
        assert("bridgeLock"@[0] != "fee_change"@[0]);
        assert("bridge_lock"@[0] != "createOrder"@[0]);
        assert("bridge_lock"@[0] != "cancelOrder"@[0]);
        assert("bridgeSudoChange"@[0] != "fee_asset_change"@[0]);
        assert("bridgeSudoChange"@[0] != "ibcRelayerChange"@[0]);
        assert("bridgeSudoChange"@[0] != "ics20_withdrawal"@[0]);
        assert("bridgeSudoChange"@[0] != "validator_update"@[0]);
        assert("bridgeSudoChange"@[0] != "recoverIbcClient"@[0]);
        assert("bridge_sudo_change"@[0] != "ibc_relayer_change"@[0]);
        assert("bridge_sudo_change"@[0] != "recover_ibc_client"@[0]);
        assert("bridgeUnlock"@[0] != "create_order"@[0]);
        assert("bridgeUnlock"@[0] != "cancel_order"@[0]);
        assert("bridgeUnlock"@[0] != "createMarket"@[0]);
        assert("bridgeUnlock"@[0] != "updateMarket"@[0]);
        assert("bridge_unlock"@[0] != "ibcSudoChange"@[0]);
        assert("bridge_unlock"@[0] != "marketsChange"@[0]);
        assert("bridge_unlock"@[0] != "create_market"@[0]);
        assert("bridge_unlock"@[0] != "update_market"@[0]);
        assert("feeAssetChange"@[0] != "bridgeTransfer"@[0]);
        assert("feeAssetChange"@[0] != "markets_change"@[0]);
        assert("fee_asset_change"@[0] != "ibcRelayerChange"@[0]);
        assert("fee_asset_change"@[0] != "ics20_withdrawal"@[0]);
        assert("fee_asset_change"@[0] != "validator_update"@[0]);
        assert("fee_asset_change"@[0] != "recoverIbcClient"@[0]);
        assert("feeChange"@[0] != "ibc_relay"@[0]);
        assert("ibcRelay"@[0] != "transfer"@[0]);
        assert("ibcRelayerChange"@[1] != "ics20_withdrawal"@[1]);
        assert("ibcRelayerChange"@[0] != "validator_update"@[0]);
        assert("ibcRelayerChange"@[0] != "recoverIbcClient"@[0]);
        assert("ibc_relayer_change"@[0] != "recover_ibc_client"@[0]);
        assert("ibcSudoChange"@[0] != "marketsChange"@[0]);
        assert("ibcSudoChange"@[0] != "create_market"@[0]);
        assert("ibcSudoChange"@[0] != "update_market"@[0]);
        assert("ibc_sudo_change"@[1] != "ics20Withdrawal"@[1]);
        assert("ibc_sudo_change"@[0] != "validatorUpdate"@[0]);
        assert("ibc_sudo_change"@[0] != "bridge_transfer"@[0]);
        assert("ics20Withdrawal"@[0] != "validatorUpdate"@[0]);
        assert("ics20Withdrawal"@[0] != "bridge_transfer"@[0]);
        assert("ics20_withdrawal"@[0] != "validator_update"@[0]);
        assert("ics20_withdrawal"@[0] != "recoverIbcClient"@[0]);
        assert("initBridgeAccount"@[0] != "sudoAddressChange"@[0]);
        assert("init_bridge_account"@[0] != "sudo_address_change"@[0]);
        assert("init_bridge_account"@[0] != "currencyPairsChange"@[0]);
        assert("sudo_address_change"@[0] != "currencyPairsChange"@[0]);
        assert("validatorUpdate"@[0] != "bridge_transfer"@[0]);
        assert("validator_update"@[0] != "recoverIbcClient"@[0]);
        assert("bridgeTransfer"@[0] != "markets_change"@[0]);
        assert("marketsChange"@[0] != "create_market"@[0]);
        assert("marketsChange"@[0] != "update_market"@[0]);
        assert("createOrder"@[1] != "cancelOrder"@[1]);
        assert("create_order"@[1] != "cancel_order"@[1]);
        assert("create_order"@[6] != "createMarket"@[6]);
        assert("create_order"@[0] != "updateMarket"@[0]);
        assert("cancel_order"@[1] != "createMarket"@[1]);
        assert("cancel_order"@[0] != "updateMarket"@[0]);
        assert("createMarket"@[0] != "updateMarket"@[0]);
        assert("create_market"@[0] != "update_market"@[0]);
        lemma_fold_entry_if(Self::spec_start(), true, "transfer"@, JsonV::Object(es), Self::step_fn());
        lemma_fold_entry_if(Self::spec_start(), true, "transfer"@, JsonV::Null, Self::step_fn());
    }

    /// The field `validator_update` alone: an object with one member under its JSON or protobuf
    /// name reads as the message with that field set and every other field at its
    /// default, and the message with only that field off its default writes that
    /// one member under the JSON name.
    pub proof fn lemma_member_validator_update(es: Seq<(Seq<char>, JsonV)>)
        ensures
            Self::spec_from_json(JsonV::Object(seq![("validatorUpdate"@, JsonV::Object(es))])) == Ok::<FeeChangeV, JsonErrorV>(FeeChangeV { fee_components: Some(fee_change::FeeComponentsV::ValidatorUpdate(es)) }),
            Self::spec_from_json(JsonV::Object(seq![("validator_update"@, JsonV::Object(es))])) == Ok::<FeeChangeV, JsonErrorV>(FeeChangeV { fee_components: Some(fee_change::FeeComponentsV::ValidatorUpdate(es)) }),
            Self::spec_from_json(JsonV::Object(seq![("validatorUpdate"@, JsonV::Null)])) == Ok::<FeeChangeV, JsonErrorV>(Self::spec_default()),
            Self::spec_from_json(JsonV::Object(seq![("validator_update"@, JsonV::Null)])) == Ok::<FeeChangeV, JsonErrorV>(Self::spec_default()),
            Self::spec_to_json(FeeChangeV { fee_components: Some(fee_change::FeeComponentsV::ValidatorUpdate(es)) }) == JsonV::Object(seq![("validatorUpdate"@, JsonV::Object(es))]),
    {
        reveal_strlit("bridgeLock");
        reveal_strlit("bridge_lock");
        reveal_strlit("bridgeSudoChange");
        reveal_strlit("bridge_sudo_change");
        reveal_strlit("bridgeUnlock");
        reveal_strlit("bridge_unlock");
        reveal_strlit("feeAssetChange");
        reveal_strlit("fee_asset_change");
        reveal_strlit("feeChange");
        reveal_strlit("fee_change");
        reveal_strlit("ibcRelay");
        reveal_strlit("ibc_relay");
        reveal_strlit("ibcRelayerChange");
        reveal_strlit("ibc_relayer_change");
        reveal_strlit("ibcSudoChange");
        reveal_strlit("ibc_sudo_change");
        reveal_strlit("ics20Withdrawal");
        reveal_strlit("ics20_withdrawal");
        reveal_strlit("initBridgeAccount");
        reveal_strlit("init_bridge_account");
        reveal_strlit("rollupDataSubmission");
        reveal_strlit("rollup_data_submission");
        reveal_strlit("sudoAddressChange");
        reveal_strlit("sudo_address_change");
        reveal_strlit("transfer");
        reveal_strlit("validatorUpdate");
        reveal_strlit("validator_update");
        reveal_strlit("bridgeTransfer");
        reveal_strlit("bridge_transfer");
        reveal_strlit("recoverIbcClient");
        reveal_strlit("recover_ibc_client");
        reveal_strlit("currencyPairsChange");
        reveal_strlit("currency_pairs_change");
        reveal_strlit("marketsChange");
        reveal_strlit("markets_change");
        reveal_strlit("createOrder");
        reveal_strlit("create_order");
        reveal_strlit("cancelOrder");
        reveal_strlit("cancel_order");
        reveal_strlit("createMarket");
        reveal_strlit("create_market");
        reveal_strlit("updateMarket");
        reveal_strlit("update_market");
        assert("bridgeLock"@.len() == 10);
        assert("bridge_lock"@.len() == 11);
        assert("bridgeSudoChange"@.len() == 16);
        assert("bridge_sudo_change"@.len() == 18);
        assert("bridgeUnlock"@.len() == 12);
        assert("bridge_unlock"@.len() == 13);
        assert("feeAssetChange"@.len() == 14);
        assert("fee_asset_change"@.len() == 16);
        assert("feeChange"@.len() == 9);
        assert("fee_change"@.len() == 10);
        assert("ibcRelay"@.len() == 8);
        assert("ibc_relay"@.len() == 9);
        assert("ibcRelayerChange"@.len() == 16);
        assert("ibc_relayer_change"@.len() == 18);
        assert("ibcSudoChange"@.len() == 13);
        assert("ibc_sudo_change"@.len() == 15);
        assert("ics20Withdrawal"@.len() == 15);
        assert("ics20_withdrawal"@.len() == 16);
        assert("initBridgeAccount"@.len() == 17);
        assert("init_bridge_account"@.len() == 19);
        assert("rollupDataSubmission"@.len() == 20);
        assert("rollup_data_submission"@.len() == 22);
        assert("sudoAddressChange"@.len() == 17);
        assert("sudo_address_change"@.len() == 19);
        assert("transfer"@.len() == 8);
        assert("validatorUpdate"@.len() == 15);
        assert("validator_update"@.len() == 16);
        assert("bridgeTransfer"@.len() == 14);
        assert("bridge_transfer"@.len() == 15);
        assert("recoverIbcClient"@.len() == 16);
        assert("recover_ibc_client"@.len() == 18);
        assert("currencyPairsChange"@.len() == 19);
        assert("currency_pairs_change"@.len() == 21);
        assert("marketsChange"@.len() == 13);
        assert("markets_change"@.len() == 14);
        assert("createOrder"@.len() == 11);
        assert("create_order"@.len() == 12);
        assert("cancelOrder"@.len() == 11);
        assert("cancel_order"@.len() == 12);
        assert("createMarket"@.len() == 12);
        assert("create_market"@.len() == 13);
        assert("updateMarket"@.len() == 12);
        assert("update_market"@.len() == 13);
        assert("bridgeLock"@[0] != "fee_change"@[0]);
        assert("bridge_lock"@[0] != "createOrder"@[0]);
        assert("bridge_lock"@[0] != "cancelOrder"@[0]);
        assert("bridgeSudoChange"@[0] != "fee_asset_change"@[0]);
        assert("bridgeSudoChange"@[0] != "ibcRelayerChange"@[0]);
        assert("bridgeSudoChange"@[0] != "ics20_withdrawal"@[0]);
        assert("bridgeSudoChange"@[0] != "validator_update"@[0]);
        assert("bridgeSudoChange"@[0] != "recoverIbcClient"@[0]);
        assert("bridge_sudo_change"@[0] != "ibc_relayer_change"@[0]);
        assert("bridge_sudo_change"@[0] != "recover_ibc_client"@[0]);
        assert("bridgeUnlock"@[0] != "create_order"@[0]);
        assert("bridgeUnlock"@[0] != "cancel_order"@[0]);
        assert("bridgeUnlock"@[0] != "createMarket"@[0]);
        assert("bridgeUnlock"@[0] != "updateMarket"@[0]);
        assert("bridge_unlock"@[0] != "ibcSudoChange"@[0]);
        assert("bridge_unlock"@[0] != "marketsChange"@[0]);
        assert("bridge_unlock"@[0] != "create_market"@[0]);
        assert("bridge_unlock"@[0] != "update_market"@[0]);
        assert("feeAssetChange"@[0] != "bridgeTransfer"@[0]);
        assert("feeAssetChange"@[0] != "markets_change"@[0]);
        assert("fee_asset_change"@[0] != "ibcRelayerChange"@[0]);
        assert("fee_asset_change"@[0] != "ics20_withdrawal"@[0]);
        assert("fee_asset_change"@[0] != "validator_update"@[0]);
        assert("fee_asset_change"@[0] != "recoverIbcClient"@[0]);
        assert("feeChange"@[0] != "ibc_relay"@[0]);
        assert("ibcRelay"@[0] != "transfer"@[0]);
        assert("ibcRelayerChange"@[1] != "ics20_withdrawal"@[1]);
        assert("ibcRelayerChange"@[0] != "validator_update"@[0]);
        assert("ibcRelayerChange"@[0] != "recoverIbcClient"@[0]);
        assert("ibc_relayer_change"@[0] != "recover_ibc_client"@[0]);
        assert("ibcSudoChange"@[0] != "marketsChange"@[0]);
        assert("ibcSudoChange"@[0] != "create_market"@[0]);
        assert("ibcSudoChange"@[0] != "update_market"@[0]);
        assert("ibc_sudo_change"@[1] != "ics20Withdrawal"@[1]);
        assert("ibc_sudo_change"@[0] != "validatorUpdate"@[0]);
        assert("ibc_sudo_change"@[0] != "bridge_transfer"@[0]);
        assert("ics20Withdrawal"@[0] != "validatorUpdate"@[0]);
        assert("ics20Withdrawal"@[0] != "bridge_transfer"@[0]);
        assert("ics20_withdrawal"@[0] != "validator_update"@[0]);
        assert("ics20_withdrawal"@[0] != "recoverIbcClient"@[0]);
        assert("initBridgeAccount"@[0] != "sudoAddressChange"@[0]);
        assert("init_bridge_account"@[0] != "sudo_address_change"@[0]);
        assert("init_bridge_account"@[0] != "currencyPairsChange"@[0]);
        assert("sudo_address_change"@[0] != "currencyPairsChange"@[0]);
        assert("validatorUpdate"@[0] != "bridge_transfer"@[0]);
        assert("validator_update"@[0] != "recoverIbcClient"@[0]);
        assert("bridgeTransfer"@[0] != "markets_change"@[0]);
        assert("marketsChange"@[0] != "create_market"@[0]);
        assert("marketsChange"@[0] != "update_market"@[0]);
        assert("createOrder"@[1] != "cancelOrder"@[1]);
        assert("create_order"@[1] != "cancel_order"@[1]);
        assert("create_order"@[6] != "createMarket"@[6]);
        assert("create_order"@[0] != "updateMarket"@[0]);
        assert("cancel_order"@[1] != "createMarket"@[1]);
        assert("cancel_order"@[0] != "updateMarket"@[0]);
        assert("createMarket"@[0] != "updateMarket"@[0]);
        assert("create_market"@[0] != "update_market"@[0]);
        lemma_fold_entry_if(Self::spec_start(), true, "validatorUpdate"@, JsonV::Object(es), Self::step_fn());
        lemma_fold_entry_if(Self::spec_start(), true, "validator_update"@, JsonV::Object(es), Self::step_fn());
        lemma_fold_entry_if(Self::spec_start(), true, "validatorUpdate"@, JsonV::Null, Self::step_fn());
        lemma_fold_entry_if(Self::spec_start(), true, "validator_update"@, JsonV::Null, Self::step_fn());
    }

    /// The field `bridge_transfer` alone: an object with one member under its JSON or protobuf
    /// name reads as the message with that field set and every other field at its
    /// default, and the message with only that field off its default writes that
    /// one member under the JSON name.
    pub proof fn lemma_member_bridge_transfer(es: Seq<(Seq<char>, JsonV)>)
        ensures
            Self::spec_from_json(JsonV::Object(seq![("bridgeTransfer"@, JsonV::Object(es))])) == Ok::<FeeChangeV, JsonErrorV>(FeeChangeV { fee_components: Some(fee_change::FeeComponentsV::BridgeTransfer(es)) }),
            Self::spec_from_json(JsonV::Object(seq![("bridge_transfer"@, JsonV::Object(es))])) == Ok::<FeeChangeV, JsonErrorV>(FeeChangeV { fee_components: Some(fee_change::FeeComponentsV::BridgeTransfer(es)) }),
            Self::spec_from_json(JsonV::Object(seq![("bridgeTransfer"@, JsonV::Null)])) == Ok::<FeeChangeV, JsonErrorV>(Self::spec_default()),
            Self::spec_from_json(JsonV::Object(seq![("bridge_transfer"@, JsonV::Null)])) == Ok::<FeeChangeV, JsonErrorV>(Self::spec_default()),
            Self::spec_to_json(FeeChangeV { fee_components: Some(fee_change::FeeComponentsV::BridgeTransfer(es)) }) == JsonV::Object(seq![("bridgeTransfer"@, JsonV::Object(es))]),
    {
        reveal_strlit("bridgeLock");
        reveal_strlit("bridge_lock");
        reveal_strlit("bridgeSudoChange");
        reveal_strlit("bridge_sudo_change");
        reveal_strlit("bridgeUnlock");
        reveal_strlit("bridge_unlock");
        reveal_strlit("feeAssetChange");
        reveal_strlit("fee_asset_change");
        reveal_strlit("feeChange");
        reveal_strlit("fee_change");
        reveal_strlit("ibcRelay");
        reveal_strlit("ibc_relay");
        reveal_strlit("ibcRelayerChange");
        reveal_strlit("ibc_relayer_change");
        reveal_strlit("ibcSudoChange");
        reveal_strlit("ibc_sudo_change");
        reveal_strlit("ics20Withdrawal");
        reveal_strlit("ics20_withdrawal");
        reveal_strlit("initBridgeAccount");
        reveal_strlit("init_bridge_account");
        reveal_strlit("rollupDataSubmission");
        reveal_strlit("rollup_data_submission");
        reveal_strlit("sudoAddressChange");
        reveal_strlit("sudo_address_change");
        reveal_strlit("transfer");
        reveal_strlit("validatorUpdate");
        reveal_strlit("validator_update");
        reveal_strlit("bridgeTransfer");
        reveal_strlit("bridge_transfer");
        reveal_strlit("recoverIbcClient");
        reveal_strlit("recover_ibc_client");
        reveal_strlit("currencyPairsChange");
        reveal_strlit("currency_pairs_change");
        reveal_strlit("marketsChange");
        reveal_strlit("markets_change");
        reveal_strlit("createOrder");
        reveal_strlit("create_order");
        reveal_strlit("cancelOrder");
        reveal_strlit("cancel_order");
        reveal_strlit("createMarket");
        reveal_strlit("create_market");
        reveal_strlit("updateMarket");
        reveal_strlit("update_market");
        assert("bridgeLock"@.len() == 10);
        assert("bridge_lock"@.len() == 11);
        assert("bridgeSudoChange"@.len() == 16);
        assert("bridge_sudo_change"@.len() == 18);
        assert("bridgeUnlock"@.len() == 12);
        assert("bridge_unlock"@.len() == 13);
        assert("feeAssetChange"@.len() == 14);
        assert("fee_asset_change"@.len() == 16);
        assert("feeChange"@.len() == 9);
        assert("fee_change"@.len() == 10);
        assert("ibcRelay"@.len() == 8);
        assert("ibc_relay"@.len() == 9);
        assert("ibcRelayerChange"@.len() == 16);
        assert("ibc_relayer_change"@.len() == 18);
        assert("ibcSudoChange"@.len() == 13);
        assert("ibc_sudo_change"@.len() == 15);
        assert("ics20Withdrawal"@.len() == 15);
        assert("ics20_withdrawal"@.len() == 16);
        assert("initBridgeAccount"@.len() == 17);
        assert("init_bridge_account"@.len() == 19);
        assert("rollupDataSubmission"@.len() == 20);
        assert("rollup_data_submission"@.len() == 22);
        assert("sudoAddressChange"@.len() == 17);
        assert("sudo_address_change"@.len() == 19);
        assert("transfer"@.len() == 8);
        assert("validatorUpdate"@.len() == 15);
        assert("validator_update"@.len() == 16);
        assert("bridgeTransfer"@.len() == 14);
        assert("bridge_transfer"@.len() == 15);
        assert("recoverIbcClient"@.len() == 16);
        assert("recover_ibc_client"@.len() == 18);
        assert("currencyPairsChange"@.len() == 19);
        assert("currency_pairs_change"@.len() == 21);
        assert("marketsChange"@.len() == 13);
        assert("markets_change"@.len() == 14);
        assert("createOrder"@.len() == 11);
        assert("create_order"@.len() == 12);
        assert("cancelOrder"@.len() == 11);
        assert("cancel_order"@.len() == 12);
        assert("createMarket"@.len() == 12);
        assert("create_market"@.len() == 13);
        assert("updateMarket"@.len() == 12);
        assert("update_market"@.len() == 13);
        assert("bridgeLock"@[0] != "fee_change"@[0]);
        assert("bridge_lock"@[0] != "createOrder"@[0]);
        assert("bridge_lock"@[0] != "cancelOrder"@[0]);
        assert("bridgeSudoChange"@[0] != "fee_asset_change"@[0]);
        assert("bridgeSudoChange"@[0] != "ibcRelayerChange"@[0]);
        assert("bridgeSudoChange"@[0] != "ics20_withdrawal"@[0]);
        assert("bridgeSudoChange"@[0] != "validator_update"@[0]);
        assert("bridgeSudoChange"@[0] != "recoverIbcClient"@[0]);
        assert("bridge_sudo_change"@[0] != "ibc_relayer_change"@[0]);
        assert("bridge_sudo_change"@[0] != "recover_ibc_client"@[0]);
        assert("bridgeUnlock"@[0] != "create_order"@[0]);
        assert("bridgeUnlock"@[0] != "cancel_order"@[0]);
        assert("bridgeUnlock"@[0] != "createMarket"@[0]);
        assert("bridgeUnlock"@[0] != "updateMarket"@[0]);
        assert("bridge_unlock"@[0] != "ibcSudoChange"@[0]);
        assert("bridge_unlock"@[0] != "marketsChange"@[0]);
        assert("bridge_unlock"@[0] != "create_market"@[0]);
        assert("bridge_unlock"@[0] != "update_market"@[0]);
        assert("feeAssetChange"@[0] != "bridgeTransfer"@[0]);
        assert("feeAssetChange"@[0] != "markets_change"@[0]);
        assert("fee_asset_change"@[0] != "ibcRelayerChange"@[0]);
        assert("fee_asset_change"@[0] != "ics20_withdrawal"@[0]);
        assert("fee_asset_change"@[0] != "validator_update"@[0]);
        assert("fee_asset_change"@[0] != "recoverIbcClient"@[0]);
        assert("feeChange"@[0] != "ibc_relay"@[0]);
        assert("ibcRelay"@[0] != "transfer"@[0]);
        assert("ibcRelayerChange"@[1] != "ics20_withdrawal"@[1]);
        assert("ibcRelayerChange"@[0] != "validator_update"@[0]);
        assert("ibcRelayerChange"@[0] != "recoverIbcClient"@[0]);
        assert("ibc_relayer_change"@[0] != "recover_ibc_client"@[0]);
        assert("ibcSudoChange"@[0] != "marketsChange"@[0]);
        assert("ibcSudoChange"@[0] != "create_market"@[0]);
        assert("ibcSudoChange"@[0] != "update_market"@[0]);
        assert("ibc_sudo_change"@[1] != "ics20Withdrawal"@[1]);
        assert("ibc_sudo_change"@[0] != "validatorUpdate"@[0]);
        assert("ibc_sudo_change"@[0] != "bridge_transfer"@[0]);
        assert("ics20Withdrawal"@[0] != "validatorUpdate"@[0]);
        assert("ics20Withdrawal"@[0] != "bridge_transfer"@[0]);
        assert("ics20_withdrawal"@[0] != "validator_update"@[0]);
        assert("ics20_withdrawal"@[0] != "recoverIbcClient"@[0]);
        assert("initBridgeAccount"@[0] != "sudoAddressChange"@[0]);
        assert("init_bridge_account"@[0] != "sudo_address_change"@[0]);
        assert("init_bridge_account"@[0] != "currencyPairsChange"@[0]);
        assert("sudo_address_change"@[0] != "currencyPairsChange"@[0]);
        assert("validatorUpdate"@[0] != "bridge_transfer"@[0]);
        assert("validator_update"@[0] != "recoverIbcClient"@[0]);
        assert("bridgeTransfer"@[0] != "markets_change"@[0]);
        assert("marketsChange"@[0] != "create_market"@[0]);
        assert("marketsChange"@[0] != "update_market"@[0]);
        assert("createOrder"@[1] != "cancelOrder"@[1]);
        assert("create_order"@[1] != "cancel_order"@[1]);
        assert("create_order"@[6] != "createMarket"@[6]);
        assert("create_order"@[0] != "updateMarket"@[0]);
        assert("cancel_order"@[1] != "createMarket"@[1]);
        assert("cancel_order"@[0] != "updateMarket"@[0]);
        assert("createMarket"@[0] != "updateMarket"@[0]);
        assert("create_market"@[0] != "update_market"@[0]);
        lemma_fold_entry_if(Self::spec_start(), true, "bridgeTransfer"@, JsonV::Object(es), Self::step_fn());
        lemma_fold_entry_if(Self::spec_start(), true, "bridge_transfer"@, JsonV::Object(es), Self::step_fn());
        lemma_fold_entry_if(Self::spec_start(), true, "bridgeTransfer"@, JsonV::Null, Self::step_fn());
        lemma_fold_entry_if(Self::spec_start(), true, "bridge_transfer"@, JsonV::Null, Self::step_fn());
    }

    /// The field `recover_ibc_client` alone: an object with one member under its JSON or protobuf
    /// name reads as the message with that field set and every other field at its
    /// default, and the message with only that field off its default writes that
    /// one member under the JSON name.
    pub proof fn lemma_member_recover_ibc_client(es: Seq<(Seq<char>, JsonV)>)
        ensures
            Self::spec_from_json(JsonV::Object(seq![("recoverIbcClient"@, JsonV::Object(es))])) == Ok::<FeeChangeV, JsonErrorV>(FeeChangeV { fee_components: Some(fee_change::FeeComponentsV::RecoverIbcClient(es)) }),
            Self::spec_from_json(JsonV::Object(seq![("recover_ibc_client"@, JsonV::Object(es))])) == Ok::<FeeChangeV, JsonErrorV>(FeeChangeV { fee_components: Some(fee_change::FeeComponentsV::RecoverIbcClient(es)) }),
            Self::spec_from_json(JsonV::Object(seq![("recoverIbcClient"@, JsonV::Null)])) == Ok::<FeeChangeV, JsonErrorV>(Self::spec_default()),
            Self::spec_from_json(JsonV::Object(seq![("recover_ibc_client"@, JsonV::Null)])) == Ok::<FeeChangeV, JsonErrorV>(Self::spec_default()),
            Self::spec_to_json(FeeChangeV { fee_components: Some(fee_change::FeeComponentsV::RecoverIbcClient(es)) }) == JsonV::Object(seq![("recoverIbcClient"@, JsonV::Object(es))]),
    {
        reveal_strlit("bridgeLock");
        reveal_strlit("bridge_lock");
        reveal_strlit("bridgeSudoChange");
        reveal_strlit("bridge_sudo_change");
        reveal_strlit("bridgeUnlock");
        reveal_strlit("bridge_unlock");
        reveal_strlit("feeAssetChange");
        reveal_strlit("fee_asset_change");
        reveal_strlit("feeChange");
        reveal_strlit("fee_change");
        reveal_strlit("ibcRelay");
        reveal_strlit("ibc_relay");
        reveal_strlit("ibcRelayerChange");
        reveal_strlit("ibc_relayer_change");
        reveal_strlit("ibcSudoChange");
        reveal_strlit("ibc_sudo_change");
        reveal_strlit("ics20Withdrawal");
        reveal_strlit("ics20_withdrawal");
        reveal_strlit("initBridgeAccount");
        reveal_strlit("init_bridge_account");
        reveal_strlit("rollupDataSubmission");
        reveal_strlit("rollup_data_submission");
        reveal_strlit("sudoAddressChange");
        reveal_strlit("sudo_address_change");
        reveal_strlit("transfer");
        reveal_strlit("validatorUpdate");
        reveal_strlit("validator_update");
        reveal_strlit("bridgeTransfer");
        reveal_strlit("bridge_transfer");
        reveal_strlit("recoverIbcClient");
        reveal_strlit("recover_ibc_client");
        reveal_strlit("currencyPairsChange");
        reveal_strlit("currency_pairs_change");
        reveal_strlit("marketsChange");
        reveal_strlit("markets_change");
        reveal_strlit("createOrder");
        reveal_strlit("create_order");
        reveal_strlit("cancelOrder");
        reveal_strlit("cancel_order");
        reveal_strlit("createMarket");
        reveal_strlit("create_market");
        reveal_strlit("updateMarket");
        reveal_strlit("update_market");
        assert("bridgeLock"@.len() == 10);
        assert("bridge_lock"@.len() == 11);
        assert("bridgeSudoChange"@.len() == 16);
        assert("bridge_sudo_change"@.len() == 18);
        assert("bridgeUnlock"@.len() == 12);
        assert("bridge_unlock"@.len() == 13);
        assert("feeAssetChange"@.len() == 14);
        assert("fee_asset_change"@.len() == 16);
        assert("feeChange"@.len() == 9);
        assert("fee_change"@.len() == 10);
        assert("ibcRelay"@.len() == 8);
        assert("ibc_relay"@.len() == 9);
        assert("ibcRelayerChange"@.len() == 16);
        assert("ibc_relayer_change"@.len() == 18);
        assert("ibcSudoChange"@.len() == 13);
        assert("ibc_sudo_change"@.len() == 15);
        assert("ics20Withdrawal"@.len() == 15);
        assert("ics20_withdrawal"@.len() == 16);
        assert("initBridgeAccount"@.len() == 17);
        assert("init_bridge_account"@.len() == 19);
        assert("rollupDataSubmission"@.len() == 20);
        assert("rollup_data_submission"@.len() == 22);
        assert("sudoAddressChange"@.len() == 17);
        assert("sudo_address_change"@.len() == 19);
        assert("transfer"@.len() == 8);
        assert("validatorUpdate"@.len() == 15);
        assert("validator_update"@.len() == 16);
        assert("bridgeTransfer"@.len() == 14);
        assert("bridge_transfer"@.len() == 15);
        assert("recoverIbcClient"@.len() == 16);
        assert("recover_ibc_client"@.len() == 18);
        assert("currencyPairsChange"@.len() == 19);
        assert("currency_pairs_change"@.len() == 21);
        assert("marketsChange"@.len() == 13);
        assert("markets_change"@.len() == 14);
        assert("createOrder"@.len() == 11);
        assert("create_order"@.len() == 12);
        assert("cancelOrder"@.len() == 11);
        assert("cancel_order"@.len() == 12);
        assert("createMarket"@.len() == 12);
        assert("create_market"@.len() == 13);
        assert("updateMarket"@.len() == 12);
        assert("update_market"@.len() == 13);
        assert("bridgeLock"@[0] != "fee_change"@[0]);
        assert("bridge_lock"@[0] != "createOrder"@[0]);
        assert("bridge_lock"@[0] != "cancelOrder"@[0]);
        assert("bridgeSudoChange"@[0] != "fee_asset_change"@[0]);
        assert("bridgeSudoChange"@[0] != "ibcRelayerChange"@[0]);
        assert("bridgeSudoChange"@[0] != "ics20_withdrawal"@[0]);
        assert("bridgeSudoChange"@[0] != "validator_update"@[0]);
        assert("bridgeSudoChange"@[0] != "recoverIbcClient"@[0]);
        assert("bridge_sudo_change"@[0] != "ibc_relayer_change"@[0]);
        assert("bridge_sudo_change"@[0] != "recover_ibc_client"@[0]);
        assert("bridgeUnlock"@[0] != "create_order"@[0]);
        assert("bridgeUnlock"@[0] != "cancel_order"@[0]);
        assert("bridgeUnlock"@[0] != "createMarket"@[0]);
        assert("bridgeUnlock"@[0] != "updateMarket"@[0]);
        assert("bridge_unlock"@[0] != "ibcSudoChange"@[0]);
        assert("bridge_unlock"@[0] != "marketsChange"@[0]);
        assert("bridge_unlock"@[0] != "create_market"@[0]);
        assert("bridge_unlock"@[0] != "update_market"@[0]);
        assert("feeAssetChange"@[0] != "bridgeTransfer"@[0]);
        assert("feeAssetChange"@[0] != "markets_change"@[0]);
        assert("fee_asset_change"@[0] != "ibcRelayerChange"@[0]);
        assert("fee_asset_change"@[0] != "ics20_withdrawal"@[0]);
        assert("fee_asset_change"@[0] != "validator_update"@[0]);
        assert("fee_asset_change"@[0] != "recoverIbcClient"@[0]);
        assert("feeChange"@[0] != "ibc_relay"@[0]);
        assert("ibcRelay"@[0] != "transfer"@[0]);
        assert("ibcRelayerChange"@[1] != "ics20_withdrawal"@[1]);
        assert("ibcRelayerChange"@[0] != "validator_update"@[0]);
        assert("ibcRelayerChange"@[0] != "recoverIbcClient"@[0]);
        assert("ibc_relayer_change"@[0] != "recover_ibc_client"@[0]);
        assert("ibcSudoChange"@[0] != "marketsChange"@[0]);
        assert("ibcSudoChange"@[0] != "create_market"@[0]);
        assert("ibcSudoChange"@[0] != "update_market"@[0]);
        assert("ibc_sudo_change"@[1] != "ics20Withdrawal"@[1]);
        assert("ibc_sudo_change"@[0] != "validatorUpdate"@[0]);
        assert("ibc_sudo_change"@[0] != "bridge_transfer"@[0]);
        assert("ics20Withdrawal"@[0] != "validatorUpdate"@[0]);
        assert("ics20Withdrawal"@[0] != "bridge_transfer"@[0]);
        assert("ics20_withdrawal"@[0] != "validator_update"@[0]);
        assert("ics20_withdrawal"@[0] != "recoverIbcClient"@[0]);
        assert("initBridgeAccount"@[0] != "sudoAddressChange"@[0]);
        assert("init_bridge_account"@[0] != "sudo_address_change"@[0]);
        assert("init_bridge_account"@[0] != "currencyPairsChange"@[0]);
        assert("sudo_address_change"@[0] != "currencyPairsChange"@[0]);
        assert("validatorUpdate"@[0] != "bridge_transfer"@[0]);
        assert("validator_update"@[0] != "recoverIbcClient"@[0]);
        assert("bridgeTransfer"@[0] != "markets_change"@[0]);
        assert("marketsChange"@[0] != "create_market"@[0]);
        assert("marketsChange"@[0] != "update_market"@[0]);
        assert("createOrder"@[1] != "cancelOrder"@[1]);
        assert("create_order"@[1] != "cancel_order"@[1]);
        assert("create_order"@[6] != "createMarket"@[6]);
        assert("create_order"@[0] != "updateMarket"@[0]);
        assert("cancel_order"@[1] != "createMarket"@[1]);
        assert("cancel_order"@[0] != "updateMarket"@[0]);
        assert("createMarket"@[0] != "updateMarket"@[0]);
        assert("create_market"@[0] != "update_market"@[0]);
        lemma_fold_entry_if(Self::spec_start(), true, "recoverIbcClient"@, JsonV::Object(es), Self::step_fn());
        lemma_fold_entry_if(Self::spec_start(), true, "recover_ibc_client"@, JsonV::Object(es), Self::step_fn());
        lemma_fold_entry_if(Self::spec_start(), true, "recoverIbcClient"@, JsonV::Null, Self::step_fn());
        lemma_fold_entry_if(Self::spec_start(), true, "recover_ibc_client"@, JsonV::Null, Self::step_fn());
    }

    /// The field `currency_pairs_change` alone: an object with one member under its JSON or protobuf
    /// name reads as the message with that field set and every other field at its
    /// default, and the message with only that field off its default writes that
    /// one member under the JSON name.
    pub proof fn lemma_member_currency_pairs_change(es: Seq<(Seq<char>, JsonV)>)
        ensures
            Self::spec_from_json(JsonV::Object(seq![("currencyPairsChange"@, JsonV::Object(es))])) == Ok::<FeeChangeV, JsonErrorV>(FeeChangeV { fee_components: Some(fee_change::FeeComponentsV::CurrencyPairsChange(es)) }),
            Self::spec_from_json(JsonV::Object(seq![("currency_pairs_change"@, JsonV::Object(es))])) == Ok::<FeeChangeV, JsonErrorV>(FeeChangeV { fee_components: Some(fee_change::FeeComponentsV::CurrencyPairsChange(es)) }),
            Self::spec_from_json(JsonV::Object(seq![("currencyPairsChange"@, JsonV::Null)])) == Ok::<FeeChangeV, JsonErrorV>(Self::spec_default()),
            Self::spec_from_json(JsonV::Object(seq![("currency_pairs_change"@, JsonV::Null)])) == Ok::<FeeChangeV, JsonErrorV>(Self::spec_default()),
            Self::spec_to_json(FeeChangeV { fee_components: Some(fee_change::FeeComponentsV::CurrencyPairsChange(es)) }) == JsonV::Object(seq![("currencyPairsChange"@, JsonV::Object(es))]),
    {
        reveal_strlit("bridgeLock");
        reveal_strlit("bridge_lock");
        reveal_strlit("bridgeSudoChange");
        reveal_strlit("bridge_sudo_change");
        reveal_strlit("bridgeUnlock");
        reveal_strlit("bridge_unlock");
        reveal_strlit("feeAssetChange");
        reveal_strlit("fee_asset_change");
        reveal_strlit("feeChange");
        reveal_strlit("fee_change");
        reveal_strlit("ibcRelay");
        reveal_strlit("ibc_relay");
        reveal_strlit("ibcRelayerChange");
        reveal_strlit("ibc_relayer_change");
        reveal_strlit("ibcSudoChange");
        reveal_strlit("ibc_sudo_change");
        reveal_strlit("ics20Withdrawal");
        reveal_strlit("ics20_withdrawal");
        reveal_strlit("initBridgeAccount");
        reveal_strlit("init_bridge_account");
        reveal_strlit("rollupDataSubmission");
        reveal_strlit("rollup_data_submission");
        reveal_strlit("sudoAddressChange");
        reveal_strlit("sudo_address_change");
        reveal_strlit("transfer");
        reveal_strlit("validatorUpdate");
        reveal_strlit("validator_update");
        reveal_strlit("bridgeTransfer");
        reveal_strlit("bridge_transfer");
        reveal_strlit("recoverIbcClient");
        reveal_strlit("recover_ibc_client");
        reveal_strlit("currencyPairsChange");
        reveal_strlit("currency_pairs_change");
        reveal_strlit("marketsChange");
        reveal_strlit("markets_change");
        reveal_strlit("createOrder");
        reveal_strlit("create_order");
        reveal_strlit("cancelOrder");
        reveal_strlit("cancel_order");
        reveal_strlit("createMarket");
        reveal_strlit("create_market");
        reveal_strlit("updateMarket");
        reveal_strlit("update_market");
        assert("bridgeLock"@.len() == 10);
        assert("bridge_lock"@.len() == 11);
        assert("bridgeSudoChange"@.len() == 16);
        assert("bridge_sudo_change"@.len() == 18);
        assert("bridgeUnlock"@.len() == 12);
        assert("bridge_unlock"@.len() == 13);
        assert("feeAssetChange"@.len() == 14);
        assert("fee_asset_change"@.len() == 16);
        assert("feeChange"@.len() == 9);
        assert("fee_change"@.len() == 10);
        assert("ibcRelay"@.len() == 8);
        assert("ibc_relay"@.len() == 9);
        assert("ibcRelayerChange"@.len() == 16);
        assert("ibc_relayer_change"@.len() == 18);
        assert("ibcSudoChange"@.len() == 13);
        assert("ibc_sudo_change"@.len() == 15);
        assert("ics20Withdrawal"@.len() == 15);
        assert("ics20_withdrawal"@.len() == 16);
        assert("initBridgeAccount"@.len() == 17);
        assert("init_bridge_account"@.len() == 19);
        assert("rollupDataSubmission"@.len() == 20);
        assert("rollup_data_submission"@.len() == 22);
        assert("sudoAddressChange"@.len() == 17);
        assert("sudo_address_change"@.len() == 19);
        assert("transfer"@.len() == 8);
        assert("validatorUpdate"@.len() == 15);
        assert("validator_update"@.len() == 16);
        assert("bridgeTransfer"@.len() == 14);
        assert("bridge_transfer"@.len() == 15);
        assert("recoverIbcClient"@.len() == 16);
        assert("recover_ibc_client"@.len() == 18);
        assert("currencyPairsChange"@.len() == 19);
        assert("currency_pairs_change"@.len() == 21);
        assert("marketsChange"@.len() == 13);
        assert("markets_change"@.len() == 14);
        assert("createOrder"@.len() == 11);
        assert("create_order"@.len() == 12);
        assert("cancelOrder"@.len() == 11);
        assert("cancel_order"@.len() == 12);
        assert("createMarket"@.len() == 12);
        assert("create_market"@.len() == 13);
        assert("updateMarket"@.len() == 12);
        assert("update_market"@.len() == 13);
        assert("bridgeLock"@[0] != "fee_change"@[0]);
        assert("bridge_lock"@[0] != "createOrder"@[0]);
        assert("bridge_lock"@[0] != "cancelOrder"@[0]);
        assert("bridgeSudoChange"@[0] != "fee_asset_change"@[0]);
        assert("bridgeSudoChange"@[0] != "ibcRelayerChange"@[0]);
        assert("bridgeSudoChange"@[0] != "ics20_withdrawal"@[0]);
        assert("bridgeSudoChange"@[0] != "validator_update"@[0]);
        assert("bridgeSudoChange"@[0] != "recoverIbcClient"@[0]);
        assert("bridge_sudo_change"@[0] != "ibc_relayer_change"@[0]);
        assert("bridge_sudo_change"@[0] != "recover_ibc_client"@[0]);
        assert("bridgeUnlock"@[0] != "create_order"@[0]);
        assert("bridgeUnlock"@[0] != "cancel_order"@[0]);
        assert("bridgeUnlock"@[0] != "createMarket"@[0]);
        assert("bridgeUnlock"@[0] != "updateMarket"@[0]);
        assert("bridge_unlock"@[0] != "ibcSudoChange"@[0]);
        assert("bridge_unlock"@[0] != "marketsChange"@[0]);
        assert("bridge_unlock"@[0] != "create_market"@[0]);
        assert("bridge_unlock"@[0] != "update_market"@[0]);
        assert("feeAssetChange"@[0] != "bridgeTransfer"@[0]);
        assert("feeAssetChange"@[0] != "markets_change"@[0]);
        assert("fee_asset_change"@[0] != "ibcRelayerChange"@[0]);
        assert("fee_asset_change"@[0] != "ics20_withdrawal"@[0]);
        assert("fee_asset_change"@[0] != "validator_update"@[0]);
        assert("fee_asset_change"@[0] != "recoverIbcClient"@[0]);
        assert("feeChange"@[0] != "ibc_relay"@[0]);
        assert("ibcRelay"@[0] != "transfer"@[0]);
        assert("ibcRelayerChange"@[1] != "ics20_withdrawal"@[1]);
        assert("ibcRelayerChange"@[0] != "validator_update"@[0]);
        assert("ibcRelayerChange"@[0] != "recoverIbcClient"@[0]);
        assert("ibc_relayer_change"@[0] != "recover_ibc_client"@[0]);
        assert("ibcSudoChange"@[0] != "marketsChange"@[0]);
        assert("ibcSudoChange"@[0] != "create_market"@[0]);
        assert("ibcSudoChange"@[0] != "update_market"@[0]);
        assert("ibc_sudo_change"@[1] != "ics20Withdrawal"@[1]);
        assert("ibc_sudo_change"@[0] != "validatorUpdate"@[0]);
        assert("ibc_sudo_change"@[0] != "bridge_transfer"@[0]);
        assert("ics20Withdrawal"@[0] != "validatorUpdate"@[0]);
        assert("ics20Withdrawal"@[0] != "bridge_transfer"@[0]);
        assert("ics20_withdrawal"@[0] != "validator_update"@[0]);
        assert("ics20_withdrawal"@[0] != "recoverIbcClient"@[0]);
        assert("initBridgeAccount"@[0] != "sudoAddressChange"@[0]);
        assert("init_bridge_account"@[0] != "sudo_address_change"@[0]);
        assert("init_bridge_account"@[0] != "currencyPairsChange"@[0]);
        assert("sudo_address_change"@[0] != "currencyPairsChange"@[0]);
        assert("validatorUpdate"@[0] != "bridge_transfer"@[0]);
        assert("validator_update"@[0] != "recoverIbcClient"@[0]);
        assert("bridgeTransfer"@[0] != "markets_change"@[0]);
        assert("marketsChange"@[0] != "create_market"@[0]);
        assert("marketsChange"@[0] != "update_market"@[0]);
        assert("createOrder"@[1] != "cancelOrder"@[1]);
        assert("create_order"@[1] != "cancel_order"@[1]);
        assert("create_order"@[6] != "createMarket"@[6]);
        assert("create_order"@[0] != "updateMarket"@[0]);
        assert("cancel_order"@[1] != "createMarket"@[1]);
        assert("cancel_order"@[0] != "updateMarket"@[0]);
        assert("createMarket"@[0] != "updateMarket"@[0]);
        assert("create_market"@[0] != "update_market"@[0]);
        lemma_fold_entry_if(Self::spec_start(), true, "currencyPairsChange"@, JsonV::Object(es), Self::step_fn());
        lemma_fold_entry_if(Self::spec_start(), true, "currency_pairs_change"@, JsonV::Object(es), Self::step_fn());
        lemma_fold_entry_if(Self::spec_start(), true, "currencyPairsChange"@, JsonV::Null, Self::step_fn());
        lemma_fold_entry_if(Self::spec_start(), true, "currency_pairs_change"@, JsonV::Null, Self::step_fn());
    }

    /// The field `markets_change` alone: an object with one member under its JSON or protobuf
    /// name reads as the message with that field set and every other field at its
    /// default, and the message with only that field off its default writes that
    /// one member under the JSON name.
    pub proof fn lemma_member_markets_change(es: Seq<(Seq<char>, JsonV)>)
        ensures
            Self::spec_from_json(JsonV::Object(seq![("marketsChange"@, JsonV::Object(es))])) == Ok::<FeeChangeV, JsonErrorV>(FeeChangeV { fee_components: Some(fee_change::FeeComponentsV::MarketsChange(es)) }),
            Self::spec_from_json(JsonV::Object(seq![("markets_change"@, JsonV::Object(es))])) == Ok::<FeeChangeV, JsonErrorV>(FeeChangeV { fee_components: Some(fee_change::FeeComponentsV::MarketsChange(es)) }),
            Self::spec_from_json(JsonV::Object(seq![("marketsChange"@, JsonV::Null)])) == Ok::<FeeChangeV, JsonErrorV>(Self::spec_default()),
            Self::spec_from_json(JsonV::Object(seq![("markets_change"@, JsonV::Null)])) == Ok::<FeeChangeV, JsonErrorV>(Self::spec_default()),
            Self::spec_to_json(FeeChangeV { fee_components: Some(fee_change::FeeComponentsV::MarketsChange(es)) }) == JsonV::Object(seq![("marketsChange"@, JsonV::Object(es))]),
    {
        reveal_strlit("bridgeLock");
        reveal_strlit("bridge_lock");
        reveal_strlit("bridgeSudoChange");
        reveal_strlit("bridge_sudo_change");
        reveal_strlit("bridgeUnlock");
        reveal_strlit("bridge_unlock");
        reveal_strlit("feeAssetChange");
        reveal_strlit("fee_asset_change");
        reveal_strlit("feeChange");
        reveal_strlit("fee_change");
        reveal_strlit("ibcRelay");
        reveal_strlit("ibc_relay");
        reveal_strlit("ibcRelayerChange");
        reveal_strlit("ibc_relayer_change");
        reveal_strlit("ibcSudoChange");
        reveal_strlit("ibc_sudo_change");
        reveal_strlit("ics20Withdrawal");
        reveal_strlit("ics20_withdrawal");
        reveal_strlit("initBridgeAccount");
        reveal_strlit("init_bridge_account");
        reveal_strlit("rollupDataSubmission");
        reveal_strlit("rollup_data_submission");
        reveal_strlit("sudoAddressChange");
        reveal_strlit("sudo_address_change");
        reveal_strlit("transfer");
        reveal_strlit("validatorUpdate");
        reveal_strlit("validator_update");
        reveal_strlit("bridgeTransfer");
        reveal_strlit("bridge_transfer");
        reveal_strlit("recoverIbcClient");
        reveal_strlit("recover_ibc_client");
        reveal_strlit("currencyPairsChange");
        reveal_strlit("currency_pairs_change");
        reveal_strlit("marketsChange");
        reveal_strlit("markets_change");
        reveal_strlit("createOrder");
        reveal_strlit("create_order");
        reveal_strlit("cancelOrder");
        reveal_strlit("cancel_order");
        reveal_strlit("createMarket");
        reveal_strlit("create_market");
        reveal_strlit("updateMarket");
        reveal_strlit("update_market");
        assert("bridgeLock"@.len() == 10);
        assert("bridge_lock"@.len() == 11);
        assert("bridgeSudoChange"@.len() == 16);
        assert("bridge_sudo_change"@.len() == 18);
        assert("bridgeUnlock"@.len() == 12);
        assert("bridge_unlock"@.len() == 13);
        assert("feeAssetChange"@.len() == 14);
        assert("fee_asset_change"@.len() == 16);
        assert("feeChange"@.len() == 9);
        assert("fee_change"@.len() == 10);
        assert("ibcRelay"@.len() == 8);
        assert("ibc_relay"@.len() == 9);
        assert("ibcRelayerChange"@.len() == 16);
        assert("ibc_relayer_change"@.len() == 18);
        assert("ibcSudoChange"@.len() == 13);
        assert("ibc_sudo_change"@.len() == 15);
        assert("ics20Withdrawal"@.len() == 15);
        assert("ics20_withdrawal"@.len() == 16);
        assert("initBridgeAccount"@.len() == 17);
        assert("init_bridge_account"@.len() == 19);
        assert("rollupDataSubmission"@.len() == 20);
        assert("rollup_data_submission"@.len() == 22);
        assert("sudoAddressChange"@.len() == 17);
        assert("sudo_address_change"@.len() == 19);
        assert("transfer"@.len() == 8);
        assert("validatorUpdate"@.len() == 15);
        assert("validator_update"@.len() == 16);
        assert("bridgeTransfer"@.len() == 14);
        assert("bridge_transfer"@.len() == 15);
        assert("recoverIbcClient"@.len() == 16);
        assert("recover_ibc_client"@.len() == 18);
        assert("currencyPairsChange"@.len() == 19);
        assert("currency_pairs_change"@.len() == 21);
        assert("marketsChange"@.len() == 13);
        assert("markets_change"@.len() == 14);
        assert("createOrder"@.len() == 11);
        assert("create_order"@.len() == 12);
        assert("cancelOrder"@.len() == 11);
        assert("cancel_order"@.len() == 12);
        assert("createMarket"@.len() == 12);
        assert("create_market"@.len() == 13);
        assert("updateMarket"@.len() == 12);
        assert("update_market"@.len() == 13);
        assert("bridgeLock"@[0] != "fee_change"@[0]);
        assert("bridge_lock"@[0] != "createOrder"@[0]);
        assert("bridge_lock"@[0] != "cancelOrder"@[0]);
        assert("bridgeSudoChange"@[0] != "fee_asset_change"@[0]);
        assert("bridgeSudoChange"@[0] != "ibcRelayerChange"@[0]);
        assert("bridgeSudoChange"@[0] != "ics20_withdrawal"@[0]);
        assert("bridgeSudoChange"@[0] != "validator_update"@[0]);
        assert("bridgeSudoChange"@[0] != "recoverIbcClient"@[0]);
        assert("bridge_sudo_change"@[0] != "ibc_relayer_change"@[0]);
        assert("bridge_sudo_change"@[0] != "recover_ibc_client"@[0]);
        assert("bridgeUnlock"@[0] != "create_order"@[0]);
        assert("bridgeUnlock"@[0] != "cancel_order"@[0]);
        assert("bridgeUnlock"@[0] != "createMarket"@[0]);
        assert("bridgeUnlock"@[0] != "updateMarket"@[0]);
        assert("bridge_unlock"@[0] != "ibcSudoChange"@[0]);
        assert("bridge_unlock"@[0] != "marketsChange"@[0]);
        assert("bridge_unlock"@[0] != "create_market"@[0]);
        assert("bridge_unlock"@[0] != "update_market"@[0]);
        assert("feeAssetChange"@[0] != "bridgeTransfer"@[0]);
        assert("feeAssetChange"@[0] != "markets_change"@[0]);
        assert("fee_asset_change"@[0] != "ibcRelayerChange"@[0]);
        assert("fee_asset_change"@[0] != "ics20_withdrawal"@[0]);
        assert("fee_asset_change"@[0] != "validator_update"@[0]);
        assert("fee_asset_change"@[0] != "recoverIbcClient"@[0]);
        assert("feeChange"@[0] != "ibc_relay"@[0]);
        assert("ibcRelay"@[0] != "transfer"@[0]);
        assert("ibcRelayerChange"@[1] != "ics20_withdrawal"@[1]);
        assert("ibcRelayerChange"@[0] != "validator_update"@[0]);
        assert("ibcRelayerChange"@[0] != "recoverIbcClient"@[0]);
        assert("ibc_relayer_change"@[0] != "recover_ibc_client"@[0]);
        assert("ibcSudoChange"@[0] != "marketsChange"@[0]);
        assert("ibcSudoChange"@[0] != "create_market"@[0]);
        assert("ibcSudoChange"@[0] != "update_market"@[0]);
        assert("ibc_sudo_change"@[1] != "ics20Withdrawal"@[1]);
        assert("ibc_sudo_change"@[0] != "validatorUpdate"@[0]);
        assert("ibc_sudo_change"@[0] != "bridge_transfer"@[0]);
        assert("ics20Withdrawal"@[0] != "validatorUpdate"@[0]);
        assert("ics20Withdrawal"@[0] != "bridge_transfer"@[0]);
        assert("ics20_withdrawal"@[0] != "validator_update"@[0]);
        assert("ics20_withdrawal"@[0] != "recoverIbcClient"@[0]);
        assert("initBridgeAccount"@[0] != "sudoAddressChange"@[0]);
        assert("init_bridge_account"@[0] != "sudo_address_change"@[0]);
        assert("init_bridge_account"@[0] != "currencyPairsChange"@[0]);
        assert("sudo_address_change"@[0] != "currencyPairsChange"@[0]);
        assert("validatorUpdate"@[0] != "bridge_transfer"@[0]);
        assert("validator_update"@[0] != "recoverIbcClient"@[0]);
        assert("bridgeTransfer"@[0] != "markets_change"@[0]);
        assert("marketsChange"@[0] != "create_market"@[0]);
        assert("marketsChange"@[0] != "update_market"@[0]);
        assert("createOrder"@[1] != "cancelOrder"@[1]);
        assert("create_order"@[1] != "cancel_order"@[1]);
        assert("create_order"@[6] != "createMarket"@[6]);
        assert("create_order"@[0] != "updateMarket"@[0]);
        assert("cancel_order"@[1] != "createMarket"@[1]);
        assert("cancel_order"@[0] != "updateMarket"@[0]);
        assert("createMarket"@[0] != "updateMarket"@[0]);
        assert("create_market"@[0] != "update_market"@[0]);
        lemma_fold_entry_if(Self::spec_start(), true, "marketsChange"@, JsonV::Object(es), Self::step_fn());
        lemma_fold_entry_if(Self::spec_start(), true, "markets_change"@, JsonV::Object(es), Self::step_fn());
        lemma_fold_entry_if(Self::spec_start(), true, "marketsChange"@, JsonV::Null, Self::step_fn());
        lemma_fold_entry_if(Self::spec_start(), true, "markets_change"@, JsonV::Null, Self::step_fn());
    }

    /// The field `create_order` alone: an object with one member under its JSON or protobuf
    /// name reads as the message with that field set and every other field at its
    /// default, and the message with only that field off its default writes that
    /// one member under the JSON name.
    pub proof fn lemma_member_create_order(es: Seq<(Seq<char>, JsonV)>)
        ensures
            Self::spec_from_json(JsonV::Object(seq![("createOrder"@, JsonV::Object(es))])) == Ok::<FeeChangeV, JsonErrorV>(FeeChangeV { fee_components: Some(fee_change::FeeComponentsV::CreateOrder(es)) }),
            Self::spec_from_json(JsonV::Object(seq![("create_order"@, JsonV::Object(es))])) == Ok::<FeeChangeV, JsonErrorV>(FeeChangeV { fee_components: Some(fee_change::FeeComponentsV::CreateOrder(es)) }),
            Self::spec_from_json(JsonV::Object(seq![("createOrder"@, JsonV::Null)])) == Ok::<FeeChangeV, JsonErrorV>(Self::spec_default()),
            Self::spec_from_json(JsonV::Object(seq![("create_order"@, JsonV::Null)])) == Ok::<FeeChangeV, JsonErrorV>(Self::spec_default()),
            Self::spec_to_json(FeeChangeV { fee_components: Some(fee_change::FeeComponentsV::CreateOrder(es)) }) == JsonV::Object(seq![("createOrder"@, JsonV::Object(es))]),
    {
        reveal_strlit("bridgeLock");
        reveal_strlit("bridge_lock");
        reveal_strlit("bridgeSudoChange");
        reveal_strlit("bridge_sudo_change");
        reveal_strlit("bridgeUnlock");
        reveal_strlit("bridge_unlock");
        reveal_strlit("feeAssetChange");
        reveal_strlit("fee_asset_change");
        reveal_strlit("feeChange");
        reveal_strlit("fee_change");
        reveal_strlit("ibcRelay");
        reveal_strlit("ibc_relay");
        reveal_strlit("ibcRelayerChange");
        reveal_strlit("ibc_relayer_change");
        reveal_strlit("ibcSudoChange");
        reveal_strlit("ibc_sudo_change");
        reveal_strlit("ics20Withdrawal");
        reveal_strlit("ics20_withdrawal");
        reveal_strlit("initBridgeAccount");
        reveal_strlit("init_bridge_account");
        reveal_strlit("rollupDataSubmission");
        reveal_strlit("rollup_data_submission");
        reveal_strlit("sudoAddressChange");
        reveal_strlit("sudo_address_change");
        reveal_strlit("transfer");
        reveal_strlit("validatorUpdate");
        reveal_strlit("validator_update");
        reveal_strlit("bridgeTransfer");
        reveal_strlit("bridge_transfer");
        reveal_strlit("recoverIbcClient");
        reveal_strlit("recover_ibc_client");
        reveal_strlit("currencyPairsChange");
        reveal_strlit("currency_pairs_change");
        reveal_strlit("marketsChange");
        reveal_strlit("markets_change");
        reveal_strlit("createOrder");
        reveal_strlit("create_order");
        reveal_strlit("cancelOrder");
        reveal_strlit("cancel_order");
        reveal_strlit("createMarket");
        reveal_strlit("create_market");
        reveal_strlit("updateMarket");
        reveal_strlit("update_market");
        assert("bridgeLock"@.len() == 10);
        assert("bridge_lock"@.len() == 11);
        assert("bridgeSudoChange"@.len() == 16);
        assert("bridge_sudo_change"@.len() == 18);
        assert("bridgeUnlock"@.len() == 12);
        assert("bridge_unlock"@.len() == 13);
        assert("feeAssetChange"@.len() == 14);
        assert("fee_asset_change"@.len() == 16);
        assert("feeChange"@.len() == 9);
        assert("fee_change"@.len() == 10);
        assert("ibcRelay"@.len() == 8);
        assert("ibc_relay"@.len() == 9);
        assert("ibcRelayerChange"@.len() == 16);
        assert("ibc_relayer_change"@.len() == 18);
        assert("ibcSudoChange"@.len() == 13);
        assert("ibc_sudo_change"@.len() == 15);
        assert("ics20Withdrawal"@.len() == 15);
        assert("ics20_withdrawal"@.len() == 16);
        assert("initBridgeAccount"@.len() == 17);
        assert("init_bridge_account"@.len() == 19);
        assert("rollupDataSubmission"@.len() == 20);
        assert("rollup_data_submission"@.len() == 22);
        assert("sudoAddressChange"@.len() == 17);
        assert("sudo_address_change"@.len() == 19);
        assert("transfer"@.len() == 8);
        assert("validatorUpdate"@.len() == 15);
        assert("validator_update"@.len() == 16);
        assert("bridgeTransfer"@.len() == 14);
        assert("bridge_transfer"@.len() == 15);
        assert("recoverIbcClient"@.len() == 16);
        assert("recover_ibc_client"@.len() == 18);
        assert("currencyPairsChange"@.len() == 19);
        assert("currency_pairs_change"@.len() == 21);
        assert("marketsChange"@.len() == 13);
        assert("markets_change"@.len() == 14);
        assert("createOrder"@.len() == 11);
        assert("create_order"@.len() == 12);
        assert("cancelOrder"@.len() == 11);
        assert("cancel_order"@.len() == 12);
        assert("createMarket"@.len() == 12);
        assert("create_market"@.len() == 13);
        assert("updateMarket"@.len() == 12);
        assert("update_market"@.len() == 13);
        assert("bridgeLock"@[0] != "fee_change"@[0]);
        assert("bridge_lock"@[0] != "createOrder"@[0]);
        assert("bridge_lock"@[0] != "cancelOrder"@[0]);
        assert("bridgeSudoChange"@[0] != "fee_asset_change"@[0]);
        assert("bridgeSudoChange"@[0] != "ibcRelayerChange"@[0]);
        assert("bridgeSudoChange"@[0] != "ics20_withdrawal"@[0]);
        assert("bridgeSudoChange"@[0] != "validator_update"@[0]);
        assert("bridgeSudoChange"@[0] != "recoverIbcClient"@[0]);
        assert("bridge_sudo_change"@[0] != "ibc_relayer_change"@[0]);
        assert("bridge_sudo_change"@[0] != "recover_ibc_client"@[0]);
        assert("bridgeUnlock"@[0] != "create_order"@[0]);
        assert("bridgeUnlock"@[0] != "cancel_order"@[0]);
        assert("bridgeUnlock"@[0] != "createMarket"@[0]);
        assert("bridgeUnlock"@[0] != "updateMarket"@[0]);
        assert("bridge_unlock"@[0] != "ibcSudoChange"@[0]);
        assert("bridge_unlock"@[0] != "marketsChange"@[0]);
        assert("bridge_unlock"@[0] != "create_market"@[0]);
        assert("bridge_unlock"@[0] != "update_market"@[0]);
        assert("feeAssetChange"@[0] != "bridgeTransfer"@[0]);
        assert("feeAssetChange"@[0] != "markets_change"@[0]);
        assert("fee_asset_change"@[0] != "ibcRelayerChange"@[0]);
        assert("fee_asset_change"@[0] != "ics20_withdrawal"@[0]);
        assert("fee_asset_change"@[0] != "validator_update"@[0]);
        assert("fee_asset_change"@[0] != "recoverIbcClient"@[0]);
        assert("feeChange"@[0] != "ibc_relay"@[0]);
        assert("ibcRelay"@[0] != "transfer"@[0]);
        assert("ibcRelayerChange"@[1] != "ics20_withdrawal"@[1]);
        assert("ibcRelayerChange"@[0] != "validator_update"@[0]);
        assert("ibcRelayerChange"@[0] != "recoverIbcClient"@[0]);
        assert("ibc_relayer_change"@[0] != "recover_ibc_client"@[0]);
        assert("ibcSudoChange"@[0] != "marketsChange"@[0]);
        assert("ibcSudoChange"@[0] != "create_market"@[0]);
        assert("ibcSudoChange"@[0] != "update_market"@[0]);
        assert("ibc_sudo_change"@[1] != "ics20Withdrawal"@[1]);
        assert("ibc_sudo_change"@[0] != "validatorUpdate"@[0]);
        assert("ibc_sudo_change"@[0] != "bridge_transfer"@[0]);
        assert("ics20Withdrawal"@[0] != "validatorUpdate"@[0]);
        assert("ics20Withdrawal"@[0] != "bridge_transfer"@[0]);
        assert("ics20_withdrawal"@[0] != "validator_update"@[0]);
        assert("ics20_withdrawal"@[0] != "recoverIbcClient"@[0]);
        assert("initBridgeAccount"@[0] != "sudoAddressChange"@[0]);
        assert("init_bridge_account"@[0] != "sudo_address_change"@[0]);
        assert("init_bridge_account"@[0] != "currencyPairsChange"@[0]);
        assert("sudo_address_change"@[0] != "currencyPairsChange"@[0]);
        assert("validatorUpdate"@[0] != "bridge_transfer"@[0]);
        assert("validator_update"@[0] != "recoverIbcClient"@[0]);
        assert("bridgeTransfer"@[0] != "markets_change"@[0]);
        assert("marketsChange"@[0] != "create_market"@[0]);
        assert("marketsChange"@[0] != "update_market"@[0]);
        assert("createOrder"@[1] != "cancelOrder"@[1]);
        assert("create_order"@[1] != "cancel_order"@[1]);
        assert("create_order"@[6] != "createMarket"@[6]);
        assert("create_order"@[0] != "updateMarket"@[0]);
        assert("cancel_order"@[1] != "createMarket"@[1]);
        assert("cancel_order"@[0] != "updateMarket"@[0]);
        assert("createMarket"@[0] != "updateMarket"@[0]);
        assert("create_market"@[0] != "update_market"@[0]);
        lemma_fold_entry_if(Self::spec_start(), true, "createOrder"@, JsonV::Object(es), Self::step_fn());
        lemma_fold_entry_if(Self::spec_start(), true, "create_order"@, JsonV::Object(es), Self::step_fn());
        lemma_fold_entry_if(Self::spec_start(), true, "createOrder"@, JsonV::Null, Self::step_fn());
        lemma_fold_entry_if(Self::spec_start(), true, "create_order"@, JsonV::Null, Self::step_fn());
    }

    /// The field `cancel_order` alone: an object with one member under its JSON or protobuf
    /// name reads as the message with that field set and every other field at its
    /// default, and the message with only that field off its default writes that
    /// one member under the JSON name.
    pub proof fn lemma_member_cancel_order(es: Seq<(Seq<char>, JsonV)>)
        ensures
            Self::spec_from_json(JsonV::Object(seq![("cancelOrder"@, JsonV::Object(es))])) == Ok::<FeeChangeV, JsonErrorV>(FeeChangeV { fee_components: Some(fee_change::FeeComponentsV::CancelOrder(es)) }),
            Self::spec_from_json(JsonV::Object(seq![("cancel_order"@, JsonV::Object(es))])) == Ok::<FeeChangeV, JsonErrorV>(FeeChangeV { fee_components: Some(fee_change::FeeComponentsV::CancelOrder(es)) }),
            Self::spec_from_json(JsonV::Object(seq![("cancelOrder"@, JsonV::Null)])) == Ok::<FeeChangeV, JsonErrorV>(Self::spec_default()),
            Self::spec_from_json(JsonV::Object(seq![("cancel_order"@, JsonV::Null)])) == Ok::<FeeChangeV, JsonErrorV>(Self::spec_default()),
            Self::spec_to_json(FeeChangeV { fee_components: Some(fee_change::FeeComponentsV::CancelOrder(es)) }) == JsonV::Object(seq![("cancelOrder"@, JsonV::Object(es))]),
    {
        reveal_strlit("bridgeLock");
        reveal_strlit("bridge_lock");
        reveal_strlit("bridgeSudoChange");
        reveal_strlit("bridge_sudo_change");
        reveal_strlit("bridgeUnlock");
        reveal_strlit("bridge_unlock");
        reveal_strlit("feeAssetChange");
        reveal_strlit("fee_asset_change");
        reveal_strlit("feeChange");
        reveal_strlit("fee_change");
        reveal_strlit("ibcRelay");
        reveal_strlit("ibc_relay");
        reveal_strlit("ibcRelayerChange");
        reveal_strlit("ibc_relayer_change");
        reveal_strlit("ibcSudoChange");
        reveal_strlit("ibc_sudo_change");
        reveal_strlit("ics20Withdrawal");
        reveal_strlit("ics20_withdrawal");
        reveal_strlit("initBridgeAccount");
        reveal_strlit("init_bridge_account");
        reveal_strlit("rollupDataSubmission");
        reveal_strlit("rollup_data_submission");
        reveal_strlit("sudoAddressChange");
        reveal_strlit("sudo_address_change");
        reveal_strlit("transfer");
        reveal_strlit("validatorUpdate");
        reveal_strlit("validator_update");
        reveal_strlit("bridgeTransfer");
        reveal_strlit("bridge_transfer");
        reveal_strlit("recoverIbcClient");
        reveal_strlit("recover_ibc_client");
        reveal_strlit("currencyPairsChange");
        reveal_strlit("currency_pairs_change");
        reveal_strlit("marketsChange");
        reveal_strlit("markets_change");
        reveal_strlit("createOrder");
        reveal_strlit("create_order");
        reveal_strlit("cancelOrder");
        reveal_strlit("cancel_order");
        reveal_strlit("createMarket");
        reveal_strlit("create_market");
        reveal_strlit("updateMarket");
        reveal_strlit("update_market");
        assert("bridgeLock"@.len() == 10);
        assert("bridge_lock"@.len() == 11);
        assert("bridgeSudoChange"@.len() == 16);
        assert("bridge_sudo_change"@.len() == 18);
        assert("bridgeUnlock"@.len() == 12);
        assert("bridge_unlock"@.len() == 13);
        assert("feeAssetChange"@.len() == 14);
        assert("fee_asset_change"@.len() == 16);
        assert("feeChange"@.len() == 9);
        assert("fee_change"@.len() == 10);
        assert("ibcRelay"@.len() == 8);
        assert("ibc_relay"@.len() == 9);
        assert("ibcRelayerChange"@.len() == 16);
        assert("ibc_relayer_change"@.len() == 18);
        assert("ibcSudoChange"@.len() == 13);
        assert("ibc_sudo_change"@.len() == 15);
        assert("ics20Withdrawal"@.len() == 15);
        assert("ics20_withdrawal"@.len() == 16);
        assert("initBridgeAccount"@.len() == 17);
        assert("init_bridge_account"@.len() == 19);
        assert("rollupDataSubmission"@.len() == 20);
        assert("rollup_data_submission"@.len() == 22);
        assert("sudoAddressChange"@.len() == 17);
        assert("sudo_address_change"@.len() == 19);
        assert("transfer"@.len() == 8);
        assert("validatorUpdate"@.len() == 15);
        assert("validator_update"@.len() == 16);
        assert("bridgeTransfer"@.len() == 14);
        assert("bridge_transfer"@.len() == 15);
        assert("recoverIbcClient"@.len() == 16);
        assert("recover_ibc_client"@.len() == 18);
        assert("currencyPairsChange"@.len() == 19);
        assert("currency_pairs_change"@.len() == 21);
        assert("marketsChange"@.len() == 13);
        assert("markets_change"@.len() == 14);
        assert("createOrder"@.len() == 11);
        assert("create_order"@.len() == 12);
        assert("cancelOrder"@.len() == 11);
        assert("cancel_order"@.len() == 12);
        assert("createMarket"@.len() == 12);
        assert("create_market"@.len() == 13);
        assert("updateMarket"@.len() == 12);
        assert("update_market"@.len() == 13);
        assert("bridgeLock"@[0] != "fee_change"@[0]);
        assert("bridge_lock"@[0] != "createOrder"@[0]);
        assert("bridge_lock"@[0] != "cancelOrder"@[0]);
        assert("bridgeSudoChange"@[0] != "fee_asset_change"@[0]);
        assert("bridgeSudoChange"@[0] != "ibcRelayerChange"@[0]);
        assert("bridgeSudoChange"@[0] != "ics20_withdrawal"@[0]);
        assert("bridgeSudoChange"@[0] != "validator_update"@[0]);
        assert("bridgeSudoChange"@[0] != "recoverIbcClient"@[0]);
        assert("bridge_sudo_change"@[0] != "ibc_relayer_change"@[0]);
        assert("bridge_sudo_change"@[0] != "recover_ibc_client"@[0]);
        assert("bridgeUnlock"@[0] != "create_order"@[0]);
        assert("bridgeUnlock"@[0] != "cancel_order"@[0]);
        assert("bridgeUnlock"@[0] != "createMarket"@[0]);
        assert("bridgeUnlock"@[0] != "updateMarket"@[0]);
        assert("bridge_unlock"@[0] != "ibcSudoChange"@[0]);
        assert("bridge_unlock"@[0] != "marketsChange"@[0]);
        assert("bridge_unlock"@[0] != "create_market"@[0]);
        assert("bridge_unlock"@[0] != "update_market"@[0]);
        assert("feeAssetChange"@[0] != "bridgeTransfer"@[0]);
        assert("feeAssetChange"@[0] != "markets_change"@[0]);
        assert("fee_asset_change"@[0] != "ibcRelayerChange"@[0]);
        assert("fee_asset_change"@[0] != "ics20_withdrawal"@[0]);
        assert("fee_asset_change"@[0] != "validator_update"@[0]);
        assert("fee_asset_change"@[0] != "recoverIbcClient"@[0]);
        assert("feeChange"@[0] != "ibc_relay"@[0]);
        assert("ibcRelay"@[0] != "transfer"@[0]);
        assert("ibcRelayerChange"@[1] != "ics20_withdrawal"@[1]);
        assert("ibcRelayerChange"@[0] != "validator_update"@[0]);
        assert("ibcRelayerChange"@[0] != "recoverIbcClient"@[0]);
        assert("ibc_relayer_change"@[0] != "recover_ibc_client"@[0]);
        assert("ibcSudoChange"@[0] != "marketsChange"@[0]);
        assert("ibcSudoChange"@[0] != "create_market"@[0]);
        assert("ibcSudoChange"@[0] != "update_market"@[0]);
        assert("ibc_sudo_change"@[1] != "ics20Withdrawal"@[1]);
        assert("ibc_sudo_change"@[0] != "validatorUpdate"@[0]);
        assert("ibc_sudo_change"@[0] != "bridge_transfer"@[0]);
        assert("ics20Withdrawal"@[0] != "validatorUpdate"@[0]);
        assert("ics20Withdrawal"@[0] != "bridge_transfer"@[0]);
        assert("ics20_withdrawal"@[0] != "validator_update"@[0]);
        assert("ics20_withdrawal"@[0] != "recoverIbcClient"@[0]);
        assert("initBridgeAccount"@[0] != "sudoAddressChange"@[0]);
        assert("init_bridge_account"@[0] != "sudo_address_change"@[0]);
        assert("init_bridge_account"@[0] != "currencyPairsChange"@[0]);
        assert("sudo_address_change"@[0] != "currencyPairsChange"@[0]);
        assert("validatorUpdate"@[0] != "bridge_transfer"@[0]);
        assert("validator_update"@[0] != "recoverIbcClient"@[0]);
        assert("bridgeTransfer"@[0] != "markets_change"@[0]);
        assert("marketsChange"@[0] != "create_market"@[0]);
        assert("marketsChange"@[0] != "update_market"@[0]);
        assert("createOrder"@[1] != "cancelOrder"@[1]);
        assert("create_order"@[1] != "cancel_order"@[1]);
        assert("create_order"@[6] != "createMarket"@[6]);
        assert("create_order"@[0] != "updateMarket"@[0]);
        assert("cancel_order"@[1] != "createMarket"@[1]);
        assert("cancel_order"@[0] != "updateMarket"@[0]);
        assert("createMarket"@[0] != "updateMarket"@[0]);
        assert("create_market"@[0] != "update_market"@[0]);
        lemma_fold_entry_if(Self::spec_start(), true, "cancelOrder"@, JsonV::Object(es), Self::step_fn());
        lemma_fold_entry_if(Self::spec_start(), true, "cancel_order"@, JsonV::Object(es), Self::step_fn());
        lemma_fold_entry_if(Self::spec_start(), true, "cancelOrder"@, JsonV::Null, Self::step_fn());
        lemma_fold_entry_if(Self::spec_start(), true, "cancel_order"@, JsonV::Null, Self::step_fn());
    }

    /// The field `create_market` alone: an object with one member under its JSON or protobuf
    /// name reads as the message with that field set and every other field at its
    /// default, and the message with only that field off its default writes that
    /// one member under the JSON name.
    pub proof fn lemma_member_create_market(es: Seq<(Seq<char>, JsonV)>)
        ensures
            Self::spec_from_json(JsonV::Object(seq![("createMarket"@, JsonV::Object(es))])) == Ok::<FeeChangeV, JsonErrorV>(FeeChangeV { fee_components: Some(fee_change::FeeComponentsV::CreateMarket(es)) }),
            Self::spec_from_json(JsonV::Object(seq![("create_market"@, JsonV::Object(es))])) == Ok::<FeeChangeV, JsonErrorV>(FeeChangeV { fee_components: Some(fee_change::FeeComponentsV::CreateMarket(es)) }),
            Self::spec_from_json(JsonV::Object(seq![("createMarket"@, JsonV::Null)])) == Ok::<FeeChangeV, JsonErrorV>(Self::spec_default()),
            Self::spec_from_json(JsonV::Object(seq![("create_market"@, JsonV::Null)])) == Ok::<FeeChangeV, JsonErrorV>(Self::spec_default()),
            Self::spec_to_json(FeeChangeV { fee_components: Some(fee_change::FeeComponentsV::CreateMarket(es)) }) == JsonV::Object(seq![("createMarket"@, JsonV::Object(es))]),
    {
        reveal_strlit("bridgeLock");
        reveal_strlit("bridge_lock");
        reveal_strlit("bridgeSudoChange");
        reveal_strlit("bridge_sudo_change");
        reveal_strlit("bridgeUnlock");
        reveal_strlit("bridge_unlock");
        reveal_strlit("feeAssetChange");
        reveal_strlit("fee_asset_change");
        reveal_strlit("feeChange");
        reveal_strlit("fee_change");
        reveal_strlit("ibcRelay");
        reveal_strlit("ibc_relay");
        reveal_strlit("ibcRelayerChange");
        reveal_strlit("ibc_relayer_change");
        reveal_strlit("ibcSudoChange");
        reveal_strlit("ibc_sudo_change");
        reveal_strlit("ics20Withdrawal");
        reveal_strlit("ics20_withdrawal");
        reveal_strlit("initBridgeAccount");
        reveal_strlit("init_bridge_account");
        reveal_strlit("rollupDataSubmission");
        reveal_strlit("rollup_data_submission");
        reveal_strlit("sudoAddressChange");
        reveal_strlit("sudo_address_change");
        reveal_strlit("transfer");
        reveal_strlit("validatorUpdate");
        reveal_strlit("validator_update");
        reveal_strlit("bridgeTransfer");
        reveal_strlit("bridge_transfer");
        reveal_strlit("recoverIbcClient");
        reveal_strlit("recover_ibc_client");
        reveal_strlit("currencyPairsChange");
        reveal_strlit("currency_pairs_change");
        reveal_strlit("marketsChange");
        reveal_strlit("markets_change");
        reveal_strlit("createOrder");
        reveal_strlit("create_order");
        reveal_strlit("cancelOrder");
        reveal_strlit("cancel_order");
        reveal_strlit("createMarket");
        reveal_strlit("create_market");
        reveal_strlit("updateMarket");
        reveal_strlit("update_market");
        assert("bridgeLock"@.len() == 10);
        assert("bridge_lock"@.len() == 11);
        assert("bridgeSudoChange"@.len() == 16);
        assert("bridge_sudo_change"@.len() == 18);
        assert("bridgeUnlock"@.len() == 12);
        assert("bridge_unlock"@.len() == 13);
        assert("feeAssetChange"@.len() == 14);
        assert("fee_asset_change"@.len() == 16);
        assert("feeChange"@.len() == 9);
        assert("fee_change"@.len() == 10);
        assert("ibcRelay"@.len() == 8);
        assert("ibc_relay"@.len() == 9);
        assert("ibcRelayerChange"@.len() == 16);
        assert("ibc_relayer_change"@.len() == 18);
        assert("ibcSudoChange"@.len() == 13);
        assert("ibc_sudo_change"@.len() == 15);
        assert("ics20Withdrawal"@.len() == 15);
        assert("ics20_withdrawal"@.len() == 16);
        assert("initBridgeAccount"@.len() == 17);
        assert("init_bridge_account"@.len() == 19);
        assert("rollupDataSubmission"@.len() == 20);
        assert("rollup_data_submission"@.len() == 22);
        assert("sudoAddressChange"@.len() == 17);
        assert("sudo_address_change"@.len() == 19);
        assert("transfer"@.len() == 8);
        assert("validatorUpdate"@.len() == 15);
        assert("validator_update"@.len() == 16);
        assert("bridgeTransfer"@.len() == 14);
        assert("bridge_transfer"@.len() == 15);
        assert("recoverIbcClient"@.len() == 16);
        assert("recover_ibc_client"@.len() == 18);
        assert("currencyPairsChange"@.len() == 19);
        assert("currency_pairs_change"@.len() == 21);
        assert("marketsChange"@.len() == 13);
        assert("markets_change"@.len() == 14);
        assert("createOrder"@.len() == 11);
        assert("create_order"@.len() == 12);
        assert("cancelOrder"@.len() == 11);
        assert("cancel_order"@.len() == 12);
        assert("createMarket"@.len() == 12);
        assert("create_market"@.len() == 13);
        assert("updateMarket"@.len() == 12);
        assert("update_market"@.len() == 13);
        assert("bridgeLock"@[0] != "fee_change"@[0]);
        assert("bridge_lock"@[0] != "createOrder"@[0]);
        assert("bridge_lock"@[0] != "cancelOrder"@[0]);
        assert("bridgeSudoChange"@[0] != "fee_asset_change"@[0]);
        assert("bridgeSudoChange"@[0] != "ibcRelayerChange"@[0]);
        assert("bridgeSudoChange"@[0] != "ics20_withdrawal"@[0]);
        assert("bridgeSudoChange"@[0] != "validator_update"@[0]);
        assert("bridgeSudoChange"@[0] != "recoverIbcClient"@[0]);
        assert("bridge_sudo_change"@[0] != "ibc_relayer_change"@[0]);
        assert("bridge_sudo_change"@[0] != "recover_ibc_client"@[0]);
        assert("bridgeUnlock"@[0] != "create_order"@[0]);
        assert("bridgeUnlock"@[0] != "cancel_order"@[0]);
        assert("bridgeUnlock"@[0] != "createMarket"@[0]);
        assert("bridgeUnlock"@[0] != "updateMarket"@[0]);
        assert("bridge_unlock"@[0] != "ibcSudoChange"@[0]);
        assert("bridge_unlock"@[0] != "marketsChange"@[0]);
        assert("bridge_unlock"@[0] != "create_market"@[0]);
        assert("bridge_unlock"@[0] != "update_market"@[0]);
        assert("feeAssetChange"@[0] != "bridgeTransfer"@[0]);
        assert("feeAssetChange"@[0] != "markets_change"@[0]);
        assert("fee_asset_change"@[0] != "ibcRelayerChange"@[0]);
        assert("fee_asset_change"@[0] != "ics20_withdrawal"@[0]);
        assert("fee_asset_change"@[0] != "validator_update"@[0]);
        assert("fee_asset_change"@[0] != "recoverIbcClient"@[0]);
        assert("feeChange"@[0] != "ibc_relay"@[0]);
        assert("ibcRelay"@[0] != "transfer"@[0]);
        assert("ibcRelayerChange"@[1] != "ics20_withdrawal"@[1]);
        assert("ibcRelayerChange"@[0] != "validator_update"@[0]);
        assert("ibcRelayerChange"@[0] != "recoverIbcClient"@[0]);
        assert("ibc_relayer_change"@[0] != "recover_ibc_client"@[0]);
        assert("ibcSudoChange"@[0] != "marketsChange"@[0]);
        assert("ibcSudoChange"@[0] != "create_market"@[0]);
        assert("ibcSudoChange"@[0] != "update_market"@[0]);
        assert("ibc_sudo_change"@[1] != "ics20Withdrawal"@[1]);
        assert("ibc_sudo_change"@[0] != "validatorUpdate"@[0]);
        assert("ibc_sudo_change"@[0] != "bridge_transfer"@[0]);
        assert("ics20Withdrawal"@[0] != "validatorUpdate"@[0]);
        assert("ics20Withdrawal"@[0] != "bridge_transfer"@[0]);
        assert("ics20_withdrawal"@[0] != "validator_update"@[0]);
        assert("ics20_withdrawal"@[0] != "recoverIbcClient"@[0]);
        assert("initBridgeAccount"@[0] != "sudoAddressChange"@[0]);
        assert("init_bridge_account"@[0] != "sudo_address_change"@[0]);
        assert("init_bridge_account"@[0] != "currencyPairsChange"@[0]);
        assert("sudo_address_change"@[0] != "currencyPairsChange"@[0]);
        assert("validatorUpdate"@[0] != "bridge_transfer"@[0]);
        assert("validator_update"@[0] != "recoverIbcClient"@[0]);
        assert("bridgeTransfer"@[0] != "markets_change"@[0]);
        assert("marketsChange"@[0] != "create_market"@[0]);
        assert("marketsChange"@[0] != "update_market"@[0]);
        assert("createOrder"@[1] != "cancelOrder"@[1]);
        assert("create_order"@[1] != "cancel_order"@[1]);
        assert("create_order"@[6] != "createMarket"@[6]);
        assert("create_order"@[0] != "updateMarket"@[0]);
        assert("cancel_order"@[1] != "createMarket"@[1]);
        assert("cancel_order"@[0] != "updateMarket"@[0]);
        assert("createMarket"@[0] != "updateMarket"@[0]);
        assert("create_market"@[0] != "update_market"@[0]);
        lemma_fold_entry_if(Self::spec_start(), true, "createMarket"@, JsonV::Object(es), Self::step_fn());
        lemma_fold_entry_if(Self::spec_start(), true, "create_market"@, JsonV::Object(es), Self::step_fn());
        lemma_fold_entry_if(Self::spec_start(), true, "createMarket"@, JsonV::Null, Self::step_fn());
        lemma_fold_entry_if(Self::spec_start(), true, "create_market"@, JsonV::Null, Self::step_fn());
    }

    /// The field `update_market` alone: an object with one member under its JSON or protobuf
    /// name reads as the message with that field set and every other field at its
    /// default, and the message with only that field off its default writes that
    /// one member under the JSON name.
    pub proof fn lemma_member_update_market(es: Seq<(Seq<char>, JsonV)>)
        ensures
            Self::spec_from_json(JsonV::Object(seq![("updateMarket"@, JsonV::Object(es))])) == Ok::<FeeChangeV, JsonErrorV>(FeeChangeV { fee_components: Some(fee_change::FeeComponentsV::UpdateMarket(es)) }),
            Self::spec_from_json(JsonV::Object(seq![("update_market"@, JsonV::Object(es))])) == Ok::<FeeChangeV, JsonErrorV>(FeeChangeV { fee_components: Some(fee_change::FeeComponentsV::UpdateMarket(es)) }),
            Self::spec_from_json(JsonV::Object(seq![("updateMarket"@, JsonV::Null)])) == Ok::<FeeChangeV, JsonErrorV>(Self::spec_default()),
            Self::spec_from_json(JsonV::Object(seq![("update_market"@, JsonV::Null)])) == Ok::<FeeChangeV, JsonErrorV>(Self::spec_default()),
            Self::spec_to_json(FeeChangeV { fee_components: Some(fee_change::FeeComponentsV::UpdateMarket(es)) }) == JsonV::Object(seq![("updateMarket"@, JsonV::Object(es))]),
    {
        reveal_strlit("bridgeLock");
        reveal_strlit("bridge_lock");
        reveal_strlit("bridgeSudoChange");
        reveal_strlit("bridge_sudo_change");
        reveal_strlit("bridgeUnlock");
        reveal_strlit("bridge_unlock");
        reveal_strlit("feeAssetChange");
        reveal_strlit("fee_asset_change");
        reveal_strlit("feeChange");
        reveal_strlit("fee_change");
        reveal_strlit("ibcRelay");
        reveal_strlit("ibc_relay");
        reveal_strlit("ibcRelayerChange");
        reveal_strlit("ibc_relayer_change");
        reveal_strlit("ibcSudoChange");
        reveal_strlit("ibc_sudo_change");
        reveal_strlit("ics20Withdrawal");
        reveal_strlit("ics20_withdrawal");
        reveal_strlit("initBridgeAccount");
        reveal_strlit("init_bridge_account");
        reveal_strlit("rollupDataSubmission");
        reveal_strlit("rollup_data_submission");
        reveal_strlit("sudoAddressChange");
        reveal_strlit("sudo_address_change");
        reveal_strlit("transfer");
        reveal_strlit("validatorUpdate");
        reveal_strlit("validator_update");
        reveal_strlit("bridgeTransfer");
        reveal_strlit("bridge_transfer");
        reveal_strlit("recoverIbcClient");
        reveal_strlit("recover_ibc_client");
        reveal_strlit("currencyPairsChange");
        reveal_strlit("currency_pairs_change");
        reveal_strlit("marketsChange");
        reveal_strlit("markets_change");
        reveal_strlit("createOrder");
        reveal_strlit("create_order");
        reveal_strlit("cancelOrder");
        reveal_strlit("cancel_order");
        reveal_strlit("createMarket");
        reveal_strlit("create_market");
        reveal_strlit("updateMarket");
        reveal_strlit("update_market");
        assert("bridgeLock"@.len() == 10);
        assert("bridge_lock"@.len() == 11);
        assert("bridgeSudoChange"@.len() == 16);
        assert("bridge_sudo_change"@.len() == 18);
        assert("bridgeUnlock"@.len() == 12);
        assert("bridge_unlock"@.len() == 13);
        assert("feeAssetChange"@.len() == 14);
        assert("fee_asset_change"@.len() == 16);
        assert("feeChange"@.len() == 9);
        assert("fee_change"@.len() == 10);
        assert("ibcRelay"@.len() == 8);
        assert("ibc_relay"@.len() == 9);
        assert("ibcRelayerChange"@.len() == 16);
        assert("ibc_relayer_change"@.len() == 18);
        assert("ibcSudoChange"@.len() == 13);
        assert("ibc_sudo_change"@.len() == 15);
        assert("ics20Withdrawal"@.len() == 15);
        assert("ics20_withdrawal"@.len() == 16);
        assert("initBridgeAccount"@.len() == 17);
        assert("init_bridge_account"@.len() == 19);
        assert("rollupDataSubmission"@.len() == 20);
        assert("rollup_data_submission"@.len() == 22);
        assert("sudoAddressChange"@.len() == 17);
        assert("sudo_address_change"@.len() == 19);
        assert("transfer"@.len() == 8);
        assert("validatorUpdate"@.len() == 15);
        assert("validator_update"@.len() == 16);
        assert("bridgeTransfer"@.len() == 14);
        assert("bridge_transfer"@.len() == 15);
        assert("recoverIbcClient"@.len() == 16);
        assert("recover_ibc_client"@.len() == 18);
        assert("currencyPairsChange"@.len() == 19);
        assert("currency_pairs_change"@.len() == 21);
        assert("marketsChange"@.len() == 13);
        assert("markets_change"@.len() == 14);
        assert("createOrder"@.len() == 11);
        assert("create_order"@.len() == 12);
        assert("cancelOrder"@.len() == 11);
        assert("cancel_order"@.len() == 12);
        assert("createMarket"@.len() == 12);
        assert("create_market"@.len() == 13);
        assert("updateMarket"@.len() == 12);
        assert("update_market"@.len() == 13);
        assert("bridgeLock"@[0] != "fee_change"@[0]);
        assert("bridge_lock"@[0] != "createOrder"@[0]);
        assert("bridge_lock"@[0] != "cancelOrder"@[0]);
        assert("bridgeSudoChange"@[0] != "fee_asset_change"@[0]);
        assert("bridgeSudoChange"@[0] != "ibcRelayerChange"@[0]);
        assert("bridgeSudoChange"@[0] != "ics20_withdrawal"@[0]);
        assert("bridgeSudoChange"@[0] != "validator_update"@[0]);
        assert("bridgeSudoChange"@[0] != "recoverIbcClient"@[0]);
        assert("bridge_sudo_change"@[0] != "ibc_relayer_change"@[0]);
        assert("bridge_sudo_change"@[0] != "recover_ibc_client"@[0]);
        assert("bridgeUnlock"@[0] != "create_order"@[0]);
        assert("bridgeUnlock"@[0] != "cancel_order"@[0]);
        assert("bridgeUnlock"@[0] != "createMarket"@[0]);
        assert("bridgeUnlock"@[0] != "updateMarket"@[0]);
        assert("bridge_unlock"@[0] != "ibcSudoChange"@[0]);
        assert("bridge_unlock"@[0] != "marketsChange"@[0]);
        assert("bridge_unlock"@[0] != "create_market"@[0]);
        assert("bridge_unlock"@[0] != "update_market"@[0]);
        assert("feeAssetChange"@[0] != "bridgeTransfer"@[0]);
        assert("feeAssetChange"@[0] != "markets_change"@[0]);
        assert("fee_asset_change"@[0] != "ibcRelayerChange"@[0]);
        assert("fee_asset_change"@[0] != "ics20_withdrawal"@[0]);
        assert("fee_asset_change"@[0] != "validator_update"@[0]);
        assert("fee_asset_change"@[0] != "recoverIbcClient"@[0]);
        assert("feeChange"@[0] != "ibc_relay"@[0]);
        assert("ibcRelay"@[0] != "transfer"@[0]);
        assert("ibcRelayerChange"@[1] != "ics20_withdrawal"@[1]);
        assert("ibcRelayerChange"@[0] != "validator_update"@[0]);
        assert("ibcRelayerChange"@[0] != "recoverIbcClient"@[0]);
        assert("ibc_relayer_change"@[0] != "recover_ibc_client"@[0]);
        assert("ibcSudoChange"@[0] != "marketsChange"@[0]);
        assert("ibcSudoChange"@[0] != "create_market"@[0]);
        assert("ibcSudoChange"@[0] != "update_market"@[0]);
        assert("ibc_sudo_change"@[1] != "ics20Withdrawal"@[1]);
        assert("ibc_sudo_change"@[0] != "validatorUpdate"@[0]);
        assert("ibc_sudo_change"@[0] != "bridge_transfer"@[0]);
        assert("ics20Withdrawal"@[0] != "validatorUpdate"@[0]);
        assert("ics20Withdrawal"@[0] != "bridge_transfer"@[0]);
        assert("ics20_withdrawal"@[0] != "validator_update"@[0]);
        assert("ics20_withdrawal"@[0] != "recoverIbcClient"@[0]);
        assert("initBridgeAccount"@[0] != "sudoAddressChange"@[0]);
        assert("init_bridge_account"@[0] != "sudo_address_change"@[0]);
        assert("init_bridge_account"@[0] != "currencyPairsChange"@[0]);
        assert("sudo_address_change"@[0] != "currencyPairsChange"@[0]);
        assert("validatorUpdate"@[0] != "bridge_transfer"@[0]);
        assert("validator_update"@[0] != "recoverIbcClient"@[0]);
        assert("bridgeTransfer"@[0] != "markets_change"@[0]);
        assert("marketsChange"@[0] != "create_market"@[0]);
        assert("marketsChange"@[0] != "update_market"@[0]);
        assert("createOrder"@[1] != "cancelOrder"@[1]);
        assert("create_order"@[1] != "cancel_order"@[1]);
        assert("create_order"@[6] != "createMarket"@[6]);
        assert("create_order"@[0] != "updateMarket"@[0]);
        assert("cancel_order"@[1] != "createMarket"@[1]);
        assert("cancel_order"@[0] != "updateMarket"@[0]);
        assert("createMarket"@[0] != "updateMarket"@[0]);
        assert("create_market"@[0] != "update_market"@[0]);
        lemma_fold_entry_if(Self::spec_start(), true, "updateMarket"@, JsonV::Object(es), Self::step_fn());
        lemma_fold_entry_if(Self::spec_start(), true, "update_market"@, JsonV::Object(es), Self::step_fn());
        lemma_fold_entry_if(Self::spec_start(), true, "updateMarket"@, JsonV::Null, Self::step_fn());
        lemma_fold_entry_if(Self::spec_start(), true, "update_market"@, JsonV::Null, Self::step_fn());
    }

    /// Reading back the JSON object of a message gives the message.
    pub proof fn lemma_json_roundtrip(m: FeeChangeV)
        ensures Self::spec_from_json(Self::spec_to_json(m)) == Ok::<FeeChangeV, JsonErrorV>(m),
    {
        let step = Self::step_fn();
        let s0 = Self::spec_start();
        let s1 = (FeeChangeV { fee_components: m.fee_components }, s0.1);
        Self::lemma_entry_fee_components(m, s0);
        let p1 = Self::spec_entry_fee_components(m);
        assert(s1.0 == m);
    }
}

/// The `astria.protocol.transaction.v1.IbcHeight` message.
#[derive(Clone, Debug, PartialEq)]
pub struct IbcHeight {
    pub revision_number: u64,
    pub revision_height: u64,
}

/// The mathematical content of an [`IbcHeight`].
pub struct IbcHeightV {
    pub revision_number: u64,
    pub revision_height: u64,
}

impl View for IbcHeight {
    type V = IbcHeightV;

    open spec fn view(&self) -> IbcHeightV {
        IbcHeightV {
            revision_number: self.revision_number,
            revision_height: self.revision_height,
        }
    }
}

impl Default for IbcHeight {
    fn default() -> (r: Self)
        ensures r@ == IbcHeight::spec_default(),
    {
        let r = IbcHeight {
            revision_number: 0,
            revision_height: 0,
        };
        r
    }
}

impl IbcHeight {
    /// The fully qualified protobuf name of the message.
    pub fn full_name() -> (r: String)
        ensures r@ == "astria.protocol.transaction.v1.IbcHeight"@,
    {
        "astria.protocol.transaction.v1.IbcHeight".to_string()
    }

    /// Every field at its default: empty strings, bytes and lists, zero, `false`, unset.
    pub open spec fn spec_default() -> IbcHeightV {
        IbcHeightV {
            revision_number: 0,
            revision_height: 0,
        }
    }

    /// The view of an optional field of this message type.
    pub open spec fn view_opt(o: Option<Self>) -> Option<IbcHeightV> {
        match o {
            Some(x) => Some(x@),
            None => None,
        }
    }

    /// The view of a repeated field of this message type.
    pub open spec fn view_list(v: Seq<Self>) -> Seq<IbcHeightV> {
        v.map_values(|x: Self| x@)
    }

    /// The member that the field `revision_number` writes: none where it holds its default.
    pub open spec fn spec_entry_revision_number(m: IbcHeightV) -> Seq<(Seq<char>, JsonV)> {
        entry_if(m.revision_number != 0, "revisionNumber"@, JsonV::Str(decimal(m.revision_number as nat)))
    }

    /// The member that the field `revision_height` writes: none where it holds its default.
    pub open spec fn spec_entry_revision_height(m: IbcHeightV) -> Seq<(Seq<char>, JsonV)> {
        entry_if(m.revision_height != 0, "revisionHeight"@, JsonV::Str(decimal(m.revision_height as nat)))
    }

    /// The members of the JSON object of the message: each field that does not hold
    /// its default, under its JSON name, in the order of the fields.
    pub open spec fn spec_entries(m: IbcHeightV) -> Seq<(Seq<char>, JsonV)> {
        Self::spec_entry_revision_number(m) + Self::spec_entry_revision_height(m)
    }

    /// The JSON object that the protobuf JSON mapping writes for the message.
    pub open spec fn spec_to_json(m: IbcHeightV) -> JsonV {
        JsonV::Object(Self::spec_entries(m))
    }

    /// [`Self::spec_to_json`] as a function value, for repeated fields.
    pub open spec fn writer() -> spec_fn(IbcHeightV) -> JsonV {
        |m: IbcHeightV| Self::spec_to_json(m)
    }

    fn write_revision_number(&self, es: &mut Vec<(String, Json)>)
        ensures
            view_entries(final(es)@) == view_entries(old(es)@) + Self::spec_entry_revision_number(self@),
    {
        if self.revision_number != 0 {
            push_entry(es, "revisionNumber", u64_value(self.revision_number));
        }
        assert(view_entries(es@) =~= view_entries(old(es)@) + Self::spec_entry_revision_number(self@));
    }

    fn write_revision_height(&self, es: &mut Vec<(String, Json)>)
        ensures
            view_entries(final(es)@) == view_entries(old(es)@) + Self::spec_entry_revision_height(self@),
    {
        if self.revision_height != 0 {
            push_entry(es, "revisionHeight", u64_value(self.revision_height));
        }
        assert(view_entries(es@) =~= view_entries(old(es)@) + Self::spec_entry_revision_height(self@));
    }

    /// Writes the message as a JSON object; reading it back gives the message.
    pub fn to_json(&self) -> (r: Json)
        ensures
            r@ == Self::spec_to_json(self@),
            Self::spec_from_json(r@) == Ok::<IbcHeightV, JsonErrorV>(self@),
    {
        let mut es: Vec<(String, Json)> = Vec::new();
        let ghost mut acc: Seq<(Seq<char>, JsonV)> = Seq::empty();
        proof {
            assert(view_entries(es@) =~= acc);
        }
        self.write_revision_number(&mut es);
        proof {
            acc = acc + Self::spec_entry_revision_number(self@);
        }
        self.write_revision_height(&mut es);
        proof {
            acc = acc + Self::spec_entry_revision_height(self@);
        }
        proof {
            assert(acc =~= Self::spec_entries(self@));
            Self::lemma_json_roundtrip(self@);
        }
        Json::Object(es)
    }

    /// Reads one member of the object into the message under construction; `seen`
    /// records which fields that have no unset state were already given.
    pub open spec fn spec_step(st: (IbcHeightV, Seq<bool>), key: Seq<char>, v: JsonV) -> Result<(IbcHeightV, Seq<bool>), JsonErrorV> {
        let m = st.0;
        let seen = st.1;
        if key == "revisionNumber"@ || key == "revision_number"@ {
            if seen[0] {
                Err(JsonErrorV::DuplicateField("revisionNumber"@))
            } else {
                match read_u64(v) {
                    Ok(x) => Ok((IbcHeightV { revision_number: x, ..m }, seen.update(0, true))),
                    Err(e) => Err(e),
                }
            }
        } else if key == "revisionHeight"@ || key == "revision_height"@ {
            if seen[1] {
                Err(JsonErrorV::DuplicateField("revisionHeight"@))
            } else {
                match read_u64(v) {
                    Ok(x) => Ok((IbcHeightV { revision_height: x, ..m }, seen.update(1, true))),
                    Err(e) => Err(e),
                }
            }
        } else {
            Err(JsonErrorV::UnknownField(key))
        }
    }

    /// [`Self::spec_step`] as a function value.
    pub open spec fn step_fn() -> spec_fn((IbcHeightV, Seq<bool>), Seq<char>, JsonV) -> Result<(IbcHeightV, Seq<bool>), JsonErrorV> {
        |st: (IbcHeightV, Seq<bool>), key: Seq<char>, v: JsonV| Self::spec_step(st, key, v)
    }

    /// The state before the first member is read: the default message, no field seen.
    pub open spec fn spec_start() -> (IbcHeightV, Seq<bool>) {
        (Self::spec_default(), seq![false, false])
    }

    /// The message that a JSON value describes: an object whose keys each name a field
    /// (by its JSON name or its protobuf name), at most once each; fields that are not
    /// given keep their default. The first member that is refused gives the error.
    pub open spec fn spec_from_json(j: JsonV) -> Result<IbcHeightV, JsonErrorV> {
        match j {
            JsonV::Object(es) => match fold_entries(Self::spec_start(), es, Self::step_fn()) {
                Ok(st) => Ok(st.0),
                Err(e) => Err(e),
            },
            _ => Err(JsonErrorV::ExpectedObject),
        }
    }

    /// [`Self::spec_from_json`] as a function value, for repeated fields.
    pub open spec fn reader() -> spec_fn(JsonV) -> Result<IbcHeightV, JsonErrorV> {
        |v: JsonV| Self::spec_from_json(v)
    }

    /// An optional field of this message type: `null` leaves it unset.
    pub open spec fn spec_read_opt(v: JsonV) -> Result<Option<IbcHeightV>, JsonErrorV> {
        match v {
            JsonV::Null => Ok(None),
            _ => match Self::spec_from_json(v) {
                Ok(x) => Ok(Some(x)),
                Err(e) => Err(e),
            },
        }
    }

    fn step(m: Self, seen: Vec<bool>, key: &String, v: &Json) -> (r: Result<(Self, Vec<bool>), JsonError>)
        requires seen@.len() == 2,
        ensures
            match r {
                Ok((m2, seen2)) => Self::spec_step((m@, seen@), key@, v@) == Ok::<(IbcHeightV, Seq<bool>), JsonErrorV>((m2@, seen2@)) && seen2@.len() == 2,
                Err(e) => Self::spec_step((m@, seen@), key@, v@) == Err::<(IbcHeightV, Seq<bool>), JsonErrorV>(e@),
            },
    {
        let mut m = m;
        let mut seen = seen;
        let k = key.as_str();
        if str_eq(k, "revisionNumber") || str_eq(k, "revision_number") {
            if seen[0] {
                return Err(JsonError::DuplicateField("revisionNumber".to_string()));
            }
            match u64_field(v) {
                Ok(x) => m.revision_number = x,
                Err(e) => return Err(e),
            }
            seen.set(0, true);
        } else if str_eq(k, "revisionHeight") || str_eq(k, "revision_height") {
            if seen[1] {
                return Err(JsonError::DuplicateField("revisionHeight".to_string()));
            }
            match u64_field(v) {
                Ok(x) => m.revision_height = x,
                Err(e) => return Err(e),
            }
            seen.set(1, true);
        } else {
            return Err(JsonError::UnknownField(key.clone()));
        }
        Ok((m, seen))
    }

    /// Reads the message from a JSON value, as [`Self::spec_from_json`] describes.
    pub fn from_json(j: &Json) -> (r: Result<Self, JsonError>)
        ensures
            match r {
                Ok(m) => Self::spec_from_json(j@) == Ok::<IbcHeightV, JsonErrorV>(m@),
                Err(e) => Self::spec_from_json(j@) == Err::<IbcHeightV, JsonErrorV>(e@),
            },
    {
        let es = match j {
            Json::Object(es) => es,
            _ => return Err(JsonError::ExpectedObject),
        };
        let ghost ves = view_entries(es@);
        proof {
            lemma_view_entries_len(es@);
            assert(j@ == JsonV::Object(ves));
        }
        let mut m = Self::default();
        let mut seen: Vec<bool> = vec![false, false];
        let mut i: usize = 0;
        proof {
            assert(seen@ =~= Self::spec_start().1);
            assert(ves.skip(0) == ves);
        }
        while i < es.len()
            invariant
                j@ == JsonV::Object(ves),
                ves == view_entries(es@),
                ves.len() == es@.len(),
                i <= es.len(),
                seen@.len() == 2,
                fold_entries(Self::spec_start(), ves, Self::step_fn())
                    == fold_entries((m@, seen@), ves.skip(i as int), Self::step_fn()),
            decreases es.len() - i,
        {
            proof {
                lemma_view_entries_index(es@, i as int);
                lemma_fold_entries_step((m@, seen@), ves, i as int, Self::step_fn());
            }
            match Self::step(m, seen, &es[i].0, &es[i].1) {
                Ok((m2, seen2)) => {
                    m = m2;
                    seen = seen2;
                },
                Err(e) => return Err(e),
            }
            i = i + 1;
        }
        proof {
            assert(ves.skip(ves.len() as int) == Seq::<(Seq<char>, JsonV)>::empty());
            assert(fold_entries((m@, seen@), ves.skip(ves.len() as int), Self::step_fn())
                == Ok::<(IbcHeightV, Seq<bool>), JsonErrorV>((m@, seen@)));
        }
        Ok(m)
    }

    /// Reads an optional field of this message type.
    pub fn opt_from_json(v: &Json) -> (r: Result<Option<Self>, JsonError>)
        ensures
            match r {
                Ok(None) => Self::spec_read_opt(v@) == Ok::<Option<IbcHeightV>, JsonErrorV>(None),
                Ok(Some(x)) => Self::spec_read_opt(v@) == Ok::<Option<IbcHeightV>, JsonErrorV>(Some(x@)),
                Err(e) => Self::spec_read_opt(v@) == Err::<Option<IbcHeightV>, JsonErrorV>(e@),
            },
    {
        match v {
            Json::Null => Ok(None),
            _ => match Self::from_json(v) {
                Ok(x) => Ok(Some(x)),
                Err(e) => Err(e),
            },
        }
    }

    /// Reading the member that the field `revision_number` writes sets the field.
    pub proof fn lemma_entry_revision_number(m: IbcHeightV, st: (IbcHeightV, Seq<bool>))
        requires
            st.1.len() == 2,
            !st.1[0],
            st.0.revision_number == 0,
        ensures
            fold_entries(st, Self::spec_entry_revision_number(m), Self::step_fn()) == Ok::<(IbcHeightV, Seq<bool>), JsonErrorV>((IbcHeightV { revision_number: m.revision_number, ..st.0 }, if m.revision_number != 0 { st.1.update(0, true) } else { st.1 })),
    {
        reveal_strlit("revisionNumber");
        reveal_strlit("revision_number");
        reveal_strlit("revisionHeight");
        reveal_strlit("revision_height");
        assert("revisionNumber"@.len() == 14);
        assert("revision_number"@.len() == 15);
        assert("revisionHeight"@.len() == 14);
        assert("revision_height"@.len() == 15);
        assert("revisionNumber"@[8] != "revisionHeight"@[8]);
        assert("revision_number"@[9] != "revision_height"@[9]);
        lemma_read_u64_value(m.revision_number);
        lemma_fold_entry_if(st, m.revision_number != 0, "revisionNumber"@, JsonV::Str(decimal(m.revision_number as nat)), Self::step_fn());
    }

    /// Reading the member that the field `revision_height` writes sets the field.
    pub proof fn lemma_entry_revision_height(m: IbcHeightV, st: (IbcHeightV, Seq<bool>))
        requires
            st.1.len() == 2,
            !st.1[1],
            st.0.revision_height == 0,
        ensures
            fold_entries(st, Self::spec_entry_revision_height(m), Self::step_fn()) == Ok::<(IbcHeightV, Seq<bool>), JsonErrorV>((IbcHeightV { revision_height: m.revision_height, ..st.0 }, if m.revision_height != 0 { st.1.update(1, true) } else { st.1 })),
    {
        reveal_strlit("revisionNumber");
        reveal_strlit("revision_number");
        reveal_strlit("revisionHeight");
        reveal_strlit("revision_height");
        assert("revisionNumber"@.len() == 14);
        assert("revision_number"@.len() == 15);
        assert("revisionHeight"@.len() == 14);
        assert("revision_height"@.len() == 15);
        assert("revisionNumber"@[8] != "revisionHeight"@[8]);
        assert("revision_number"@[9] != "revision_height"@[9]);
        lemma_read_u64_value(m.revision_height);
        lemma_fold_entry_if(st, m.revision_height != 0, "revisionHeight"@, JsonV::Str(decimal(m.revision_height as nat)), Self::step_fn());
    }

    /// The JSON spelling of a key: the protobuf name of a field becomes its JSON name;
    /// a JSON name, and any key that names no field, is left as it is.
    pub open spec fn spec_json_key(key: Seq<char>) -> Seq<char> {
        if key == "revisionNumber"@ || key == "revision_number"@ {
            "revisionNumber"@
        } else if key == "revisionHeight"@ || key == "revision_height"@ {
            "revisionHeight"@
        } else {
            key
        }
    }

    /// [`Self::spec_json_key`] as a function value.
    pub open spec fn json_key_fn() -> spec_fn(Seq<char>) -> Seq<char> {
        |key: Seq<char>| Self::spec_json_key(key)
    }

    /// One member is read alike whichever spelling its key has.
    pub proof fn lemma_step_json_key(st: (IbcHeightV, Seq<bool>), key: Seq<char>, v: JsonV)
        ensures Self::spec_step(st, key, v) == Self::spec_step(st, Self::spec_json_key(key), v),
    {
        reveal_strlit("revisionNumber");
        reveal_strlit("revision_number");
        reveal_strlit("revisionHeight");
        reveal_strlit("revision_height");
        assert("revisionNumber"@.len() == 14);
        assert("revision_number"@.len() == 15);
        assert("revisionHeight"@.len() == 14);
        assert("revision_height"@.len() == 15);
        assert("revisionNumber"@[8] != "revisionHeight"@[8]);
        assert("revision_number"@[9] != "revision_height"@[9]);
        if key == "revision_number"@ {
            assert(Self::spec_json_key(key) == "revisionNumber"@);
        }
        if key == "revision_height"@ {
            assert(Self::spec_json_key(key) == "revisionHeight"@);
        }
    }

    /// Reading an object gives the same result whichever spelling each of its keys has:
    /// two objects whose members hold the same values, in the same order, under keys of
    /// the same JSON spelling describe the same message, or are refused with the same error.
    pub proof fn lemma_key_spelling(es1: Seq<(Seq<char>, JsonV)>, es2: Seq<(Seq<char>, JsonV)>)
        requires
            es1.len() == es2.len(),
            forall|i: int| #![trigger es1[i], es2[i]] 0 <= i < es1.len() ==> es1[i].1 == es2[i].1 && Self::spec_json_key(es1[i].0) == Self::spec_json_key(es2[i].0),
        ensures Self::spec_from_json(JsonV::Object(es1)) == Self::spec_from_json(JsonV::Object(es2)),
    {
        assert forall|s: (IbcHeightV, Seq<bool>), k: Seq<char>, v: JsonV|
            #![trigger Self::step_fn()(s, k, v), Self::json_key_fn()(k)]
            Self::step_fn()(s, k, v) == Self::step_fn()(s, Self::json_key_fn()(k), v) by {
            Self::lemma_step_json_key(s, k, v);
        }
        lemma_fold_same_keys(Self::spec_start(), es1, es2, Self::step_fn(), Self::json_key_fn());
    }

    /// The keys of the object that the message writes: the JSON names of the fields that
    /// do not hold their default (for a oneof, the JSON name of the member set), in the
    /// order of the fields.
    pub open spec fn spec_written_keys(m: IbcHeightV) -> Seq<Seq<char>> {
        key_if(m.revision_number != 0, "revisionNumber"@)
            + key_if(m.revision_height != 0, "revisionHeight"@)
    }

    /// The object that the message writes has exactly the keys of
    /// [`Self::spec_written_keys`], in that order.
    pub proof fn lemma_written_keys(m: IbcHeightV)
        ensures
            Self::spec_to_json(m) == JsonV::Object(Self::spec_entries(m)),
            entry_keys(Self::spec_entries(m)) == Self::spec_written_keys(m),
    {
        lemma_entry_keys_if(m.revision_number != 0, "revisionNumber"@, JsonV::Str(decimal(m.revision_number as nat)));
        lemma_entry_keys_append(Self::spec_entry_revision_number(m), m.revision_height != 0, "revisionHeight"@, JsonV::Str(decimal(m.revision_height as nat)));
    }

    /// Whether the field whose JSON name is `name` holds its default in `m`; for a member
    /// of a oneof, whether the oneof is set to another member or unset. `true` for a name
    /// that names no field.
    pub open spec fn spec_holds_default(m: IbcHeightV, name: Seq<char>) -> bool {
        if name == "revisionNumber"@ {
            m.revision_number == 0
        } else if name == "revisionHeight"@ {
            m.revision_height == 0
        } else {
            true
        }
    }

    /// Whether reading `v` for the field whose JSON name is `name` leaves the field at
    /// its default: `null`, for a field that takes it (a message field, a member of a
    /// oneof); nothing, for any other field. `true` for a name that names no field.
    pub open spec fn spec_leaves_default(name: Seq<char>, v: JsonV) -> bool {
        if name == "revisionNumber"@ {
            false
        } else if name == "revisionHeight"@ {
            false
        } else {
            true
        }
    }

    /// Reading one member keeps a field at its default unless the key names the field
    /// and the value does not leave it there.
    pub proof fn lemma_step_keeps_default(st: (IbcHeightV, Seq<bool>), key: Seq<char>, v: JsonV, name: Seq<char>)
        requires
            Self::spec_holds_default(st.0, name),
            Self::spec_json_key(key) == name ==> Self::spec_leaves_default(name, v),
        ensures
            Self::spec_step(st, key, v) is Ok ==> Self::spec_holds_default(Self::spec_step(st, key, v)->Ok_0.0, name),
    {
        reveal_strlit("revisionNumber");
        reveal_strlit("revision_number");
        reveal_strlit("revisionHeight");
        reveal_strlit("revision_height");
        assert("revisionNumber"@.len() == 14);
        assert("revision_number"@.len() == 15);
        assert("revisionHeight"@.len() == 14);
        assert("revision_height"@.len() == 15);
        assert("revisionNumber"@[8] != "revisionHeight"@[8]);
        assert("revision_number"@[9] != "revision_height"@[9]);
        Self::lemma_step_json_key(st, key, v);
    }

    /// A field whose key appears in no member of an object, or only with values that
    /// leave it at its default (`null`, for a field that takes it), holds its default in
    /// the message that the object describes.
    pub proof fn lemma_absent_default(es: Seq<(Seq<char>, JsonV)>, name: Seq<char>)
        requires
            forall|i: int| 0 <= i < es.len() ==> (Self::spec_json_key((#[trigger] es[i]).0) == name
                ==> Self::spec_leaves_default(name, es[i].1)),
        ensures
            Self::spec_from_json(JsonV::Object(es)) is Ok
                ==> Self::spec_holds_default(Self::spec_from_json(JsonV::Object(es))->Ok_0, name),
    {
        let inv = |s: (IbcHeightV, Seq<bool>)| Self::spec_holds_default(s.0, name);
        let allowed = |k: Seq<char>, v: JsonV| Self::spec_json_key(k) == name ==> Self::spec_leaves_default(name, v);
        assert forall|s: (IbcHeightV, Seq<bool>), k: Seq<char>, v: JsonV| #![trigger Self::step_fn()(s, k, v)]
            inv(s) && allowed(k, v) && Self::step_fn()(s, k, v) is Ok implies inv(Self::step_fn()(s, k, v)->Ok_0) by {
            Self::lemma_step_keeps_default(s, k, v, name);
        }
        assert(inv(Self::spec_start()));
        lemma_fold_keeps(Self::spec_start(), es, Self::step_fn(), inv, allowed);
    }

    /// The field `revision_number` alone: an object with one member under its JSON or protobuf
    /// name reads as the message with that field set and every other field at its
    /// default, and the message with only that field off its default writes that
    /// one member under the JSON name.
    pub proof fn lemma_field_revision_number(v: u64)
        ensures
            Self::spec_from_json(JsonV::Object(seq![("revisionNumber"@, JsonV::Unsigned(v))])) == Ok::<IbcHeightV, JsonErrorV>(IbcHeightV { revision_number: v, ..Self::spec_default() }),
            Self::spec_from_json(JsonV::Object(seq![("revisionNumber"@, JsonV::Str(decimal(v as nat)))])) == Ok::<IbcHeightV, JsonErrorV>(IbcHeightV { revision_number: v, ..Self::spec_default() }),
            Self::spec_from_json(JsonV::Object(seq![("revision_number"@, JsonV::Unsigned(v))])) == Ok::<IbcHeightV, JsonErrorV>(IbcHeightV { revision_number: v, ..Self::spec_default() }),
            Self::spec_from_json(JsonV::Object(seq![("revision_number"@, JsonV::Str(decimal(v as nat)))])) == Ok::<IbcHeightV, JsonErrorV>(IbcHeightV { revision_number: v, ..Self::spec_default() }),
            v != 0 ==> Self::spec_to_json(IbcHeightV { revision_number: v, ..Self::spec_default() }) == JsonV::Object(seq![("revisionNumber"@, JsonV::Str(decimal(v as nat)))]),
    {
        reveal_strlit("revisionNumber");
        reveal_strlit("revision_number");
        reveal_strlit("revisionHeight");
        reveal_strlit("revision_height");
        assert("revisionNumber"@.len() == 14);
        assert("revision_number"@.len() == 15);
        assert("revisionHeight"@.len() == 14);
        assert("revision_height"@.len() == 15);
        assert("revisionNumber"@[8] != "revisionHeight"@[8]);
        assert("revision_number"@[9] != "revision_height"@[9]);
        lemma_read_u64_value(v);
        lemma_fold_entry_if(Self::spec_start(), true, "revisionNumber"@, JsonV::Unsigned(v), Self::step_fn());
        lemma_fold_entry_if(Self::spec_start(), true, "revisionNumber"@, JsonV::Str(decimal(v as nat)), Self::step_fn());
        lemma_fold_entry_if(Self::spec_start(), true, "revision_number"@, JsonV::Unsigned(v), Self::step_fn());
        lemma_fold_entry_if(Self::spec_start(), true, "revision_number"@, JsonV::Str(decimal(v as nat)), Self::step_fn());
    }

    /// The field `revision_height` alone: an object with one member under its JSON or protobuf
    /// name reads as the message with that field set and every other field at its
    /// default, and the message with only that field off its default writes that
    /// one member under the JSON name.
    pub proof fn lemma_field_revision_height(v: u64)
        ensures
            Self::spec_from_json(JsonV::Object(seq![("revisionHeight"@, JsonV::Unsigned(v))])) == Ok::<IbcHeightV, JsonErrorV>(IbcHeightV { revision_height: v, ..Self::spec_default() }),
            Self::spec_from_json(JsonV::Object(seq![("revisionHeight"@, JsonV::Str(decimal(v as nat)))])) == Ok::<IbcHeightV, JsonErrorV>(IbcHeightV { revision_height: v, ..Self::spec_default() }),
            Self::spec_from_json(JsonV::Object(seq![("revision_height"@, JsonV::Unsigned(v))])) == Ok::<IbcHeightV, JsonErrorV>(IbcHeightV { revision_height: v, ..Self::spec_default() }),
            Self::spec_from_json(JsonV::Object(seq![("revision_height"@, JsonV::Str(decimal(v as nat)))])) == Ok::<IbcHeightV, JsonErrorV>(IbcHeightV { revision_height: v, ..Self::spec_default() }),
            v != 0 ==> Self::spec_to_json(IbcHeightV { revision_height: v, ..Self::spec_default() }) == JsonV::Object(seq![("revisionHeight"@, JsonV::Str(decimal(v as nat)))]),
    {
        reveal_strlit("revisionNumber");
        reveal_strlit("revision_number");
        reveal_strlit("revisionHeight");
        reveal_strlit("revision_height");
        assert("revisionNumber"@.len() == 14);
        assert("revision_number"@.len() == 15);
        assert("revisionHeight"@.len() == 14);
        assert("revision_height"@.len() == 15);
        assert("revisionNumber"@[8] != "revisionHeight"@[8]);
        assert("revision_number"@[9] != "revision_height"@[9]);
        lemma_read_u64_value(v);
        lemma_fold_entry_if(Self::spec_start(), true, "revisionHeight"@, JsonV::Unsigned(v), Self::step_fn());
        lemma_fold_entry_if(Self::spec_start(), true, "revisionHeight"@, JsonV::Str(decimal(v as nat)), Self::step_fn());
        lemma_fold_entry_if(Self::spec_start(), true, "revision_height"@, JsonV::Unsigned(v), Self::step_fn());
        lemma_fold_entry_if(Self::spec_start(), true, "revision_height"@, JsonV::Str(decimal(v as nat)), Self::step_fn());
    }

    /// Reading back the JSON object of a message gives the message.
    pub proof fn lemma_json_roundtrip(m: IbcHeightV)
        ensures Self::spec_from_json(Self::spec_to_json(m)) == Ok::<IbcHeightV, JsonErrorV>(m),
    {
        let step = Self::step_fn();
        let s0 = Self::spec_start();
        let s1 = (IbcHeightV { revision_number: m.revision_number, ..s0.0 }, if m.revision_number != 0 { s0.1.update(0, true) } else { s0.1 });
        Self::lemma_entry_revision_number(m, s0);
        let s2 = (IbcHeightV { revision_height: m.revision_height, ..s1.0 }, if m.revision_height != 0 { s1.1.update(1, true) } else { s1.1 });
        Self::lemma_entry_revision_height(m, s1);
        let p1 = Self::spec_entry_revision_number(m);
        let p2 = p1 + Self::spec_entry_revision_height(m);
        lemma_fold_entries_append(s0, p1, Self::spec_entry_revision_height(m), step);
        assert(s2.0 == m);
    }
}

/// The `astria.protocol.transaction.v1.IbcRelayerChange` message.
#[derive(Clone, Debug, PartialEq)]
pub struct IbcRelayerChange {
    pub value: Option<ibc_relayer_change::Value>,
}

/// The mathematical content of an [`IbcRelayerChange`].
pub struct IbcRelayerChangeV {
    pub value: Option<ibc_relayer_change::ValueV>,
}

impl View for IbcRelayerChange {
    type V = IbcRelayerChangeV;

    open spec fn view(&self) -> IbcRelayerChangeV {
        IbcRelayerChangeV {
            value: ibc_relayer_change::opt_view(self.value),
        }
    }
}

impl Default for IbcRelayerChange {
    fn default() -> (r: Self)
        ensures r@ == IbcRelayerChange::spec_default(),
    {
        let r = IbcRelayerChange {
            value: None,
        };
        r
    }
}

impl IbcRelayerChange {
    /// The fully qualified protobuf name of the message.
    pub fn full_name() -> (r: String)
        ensures r@ == "astria.protocol.transaction.v1.IbcRelayerChange"@,
    {
        "astria.protocol.transaction.v1.IbcRelayerChange".to_string()
    }

    /// Every field at its default: empty strings, bytes and lists, zero, `false`, unset.
    pub open spec fn spec_default() -> IbcRelayerChangeV {
        IbcRelayerChangeV {
            value: None,
        }
    }

    /// The view of an optional field of this message type.
    pub open spec fn view_opt(o: Option<Self>) -> Option<IbcRelayerChangeV> {
        match o {
            Some(x) => Some(x@),
            None => None,
        }
    }

    /// The view of a repeated field of this message type.
    pub open spec fn view_list(v: Seq<Self>) -> Seq<IbcRelayerChangeV> {
        v.map_values(|x: Self| x@)
    }

    /// The JSON name under which the set member of `value` is written.
    pub open spec fn spec_value_key(v: ibc_relayer_change::ValueV) -> Seq<char> {
        match v {
            ibc_relayer_change::ValueV::Addition(_) => "addition"@,
            ibc_relayer_change::ValueV::Removal(_) => "removal"@,
        }
    }

    /// The JSON value of the set member of `value`.
    pub open spec fn spec_value_json(v: ibc_relayer_change::ValueV) -> JsonV {
        match v {
            ibc_relayer_change::ValueV::Addition(x) => JsonV::Object(x),
            ibc_relayer_change::ValueV::Removal(x) => JsonV::Object(x),
        }
    }

    /// The member that the field `value` writes: none where it holds its default.
    pub open spec fn spec_entry_value(m: IbcRelayerChangeV) -> Seq<(Seq<char>, JsonV)> {
        entry_if(m.value is Some, Self::spec_value_key(m.value.unwrap()), Self::spec_value_json(m.value.unwrap()))
    }

    /// The members of the JSON object of the message: each field that does not hold
    /// its default, under its JSON name, in the order of the fields.
    pub open spec fn spec_entries(m: IbcRelayerChangeV) -> Seq<(Seq<char>, JsonV)> {
        Self::spec_entry_value(m)
    }

    /// The JSON object that the protobuf JSON mapping writes for the message.
    pub open spec fn spec_to_json(m: IbcRelayerChangeV) -> JsonV {
        JsonV::Object(Self::spec_entries(m))
    }

    /// [`Self::spec_to_json`] as a function value, for repeated fields.
    pub open spec fn writer() -> spec_fn(IbcRelayerChangeV) -> JsonV {
        |m: IbcRelayerChangeV| Self::spec_to_json(m)
    }

    fn write_value(&self, es: &mut Vec<(String, Json)>)
        ensures
            view_entries(final(es)@) == view_entries(old(es)@) + Self::spec_entry_value(self@),
    {
        match &self.value {
            Some(ibc_relayer_change::Value::Addition(x)) => push_entry(es, "addition", embedded_value(x)),
            Some(ibc_relayer_change::Value::Removal(x)) => push_entry(es, "removal", embedded_value(x)),
            None => {},
        }
        assert(view_entries(es@) =~= view_entries(old(es)@) + Self::spec_entry_value(self@));
    }

    /// Writes the message as a JSON object; reading it back gives the message.
    pub fn to_json(&self) -> (r: Json)
        ensures
            r@ == Self::spec_to_json(self@),
            Self::spec_from_json(r@) == Ok::<IbcRelayerChangeV, JsonErrorV>(self@),
    {
        let mut es: Vec<(String, Json)> = Vec::new();
        let ghost mut acc: Seq<(Seq<char>, JsonV)> = Seq::empty();
        proof {
            assert(view_entries(es@) =~= acc);
        }
        self.write_value(&mut es);
        proof {
            acc = acc + Self::spec_entry_value(self@);
        }
        proof {
            assert(acc =~= Self::spec_entries(self@));
            Self::lemma_json_roundtrip(self@);
        }
        Json::Object(es)
    }

    /// Reads one member of the object into the message under construction; `seen`
    /// records which fields that have no unset state were already given.
    pub open spec fn spec_step(st: (IbcRelayerChangeV, Seq<bool>), key: Seq<char>, v: JsonV) -> Result<(IbcRelayerChangeV, Seq<bool>), JsonErrorV> {
        let m = st.0;
        let seen = st.1;
        if key == "addition"@ {
            if m.value is Some {
                Err(JsonErrorV::DuplicateField("addition"@))
            } else {
                match read_embedded(v) {
                    Ok(Some(x)) => Ok((IbcRelayerChangeV { value: Some(ibc_relayer_change::ValueV::Addition(x)) }, seen)),
                    Ok(None) => Ok((IbcRelayerChangeV { value: None }, seen)),
                    Err(e) => Err(e),
                }
            }
        } else if key == "removal"@ {
            if m.value is Some {
                Err(JsonErrorV::DuplicateField("removal"@))
            } else {
                match read_embedded(v) {
                    Ok(Some(x)) => Ok((IbcRelayerChangeV { value: Some(ibc_relayer_change::ValueV::Removal(x)) }, seen)),
                    Ok(None) => Ok((IbcRelayerChangeV { value: None }, seen)),
                    Err(e) => Err(e),
                }
            }
        } else {
            Err(JsonErrorV::UnknownField(key))
        }
    }

    /// [`Self::spec_step`] as a function value.
    pub open spec fn step_fn() -> spec_fn((IbcRelayerChangeV, Seq<bool>), Seq<char>, JsonV) -> Result<(IbcRelayerChangeV, Seq<bool>), JsonErrorV> {
        |st: (IbcRelayerChangeV, Seq<bool>), key: Seq<char>, v: JsonV| Self::spec_step(st, key, v)
    }

    /// The state before the first member is read: the default message, no field seen.
    pub open spec fn spec_start() -> (IbcRelayerChangeV, Seq<bool>) {
        (Self::spec_default(), Seq::<bool>::empty())
    }

    /// The message that a JSON value describes: an object whose keys each name a field
    /// (by its JSON name or its protobuf name), at most once each; fields that are not
    /// given keep their default. The first member that is refused gives the error.
    pub open spec fn spec_from_json(j: JsonV) -> Result<IbcRelayerChangeV, JsonErrorV> {
        match j {
            JsonV::Object(es) => match fold_entries(Self::spec_start(), es, Self::step_fn()) {
                Ok(st) => Ok(st.0),
                Err(e) => Err(e),
            },
            _ => Err(JsonErrorV::ExpectedObject),
        }
    }

    /// [`Self::spec_from_json`] as a function value, for repeated fields.
    pub open spec fn reader() -> spec_fn(JsonV) -> Result<IbcRelayerChangeV, JsonErrorV> {
        |v: JsonV| Self::spec_from_json(v)
    }

    /// An optional field of this message type: `null` leaves it unset.
    pub open spec fn spec_read_opt(v: JsonV) -> Result<Option<IbcRelayerChangeV>, JsonErrorV> {
        match v {
            JsonV::Null => Ok(None),
            _ => match Self::spec_from_json(v) {
                Ok(x) => Ok(Some(x)),
                Err(e) => Err(e),
            },
        }
    }

    fn step(m: Self, seen: Vec<bool>, key: &String, v: &Json) -> (r: Result<(Self, Vec<bool>), JsonError>)
        requires seen@.len() == 0,
        ensures
            match r {
                Ok((m2, seen2)) => Self::spec_step((m@, seen@), key@, v@) == Ok::<(IbcRelayerChangeV, Seq<bool>), JsonErrorV>((m2@, seen2@)) && seen2@.len() == 0,
                Err(e) => Self::spec_step((m@, seen@), key@, v@) == Err::<(IbcRelayerChangeV, Seq<bool>), JsonErrorV>(e@),
            },
    {
        let mut m = m;
        let mut seen = seen;
        let k = key.as_str();
        if str_eq(k, "addition") {
            if m.value.is_some() {
                return Err(JsonError::DuplicateField("addition".to_string()));
            }
            match embedded_field(v) {
                Ok(Some(x)) => m.value = Some(ibc_relayer_change::Value::Addition(x)),
                Ok(None) => m.value = None,
                Err(e) => return Err(e),
            }
        } else if str_eq(k, "removal") {
            if m.value.is_some() {
                return Err(JsonError::DuplicateField("removal".to_string()));
            }
            match embedded_field(v) {
                Ok(Some(x)) => m.value = Some(ibc_relayer_change::Value::Removal(x)),
                Ok(None) => m.value = None,
                Err(e) => return Err(e),
            }
        } else {
            return Err(JsonError::UnknownField(key.clone()));
        }
        Ok((m, seen))
    }

    /// Reads the message from a JSON value, as [`Self::spec_from_json`] describes.
    pub fn from_json(j: &Json) -> (r: Result<Self, JsonError>)
        ensures
            match r {
                Ok(m) => Self::spec_from_json(j@) == Ok::<IbcRelayerChangeV, JsonErrorV>(m@),
                Err(e) => Self::spec_from_json(j@) == Err::<IbcRelayerChangeV, JsonErrorV>(e@),
            },
    {
        let es = match j {
            Json::Object(es) => es,
            _ => return Err(JsonError::ExpectedObject),
        };
        let ghost ves = view_entries(es@);
        proof {
            lemma_view_entries_len(es@);
            assert(j@ == JsonV::Object(ves));
        }
        let mut m = Self::default();
        let mut seen: Vec<bool> = Vec::new();
        let mut i: usize = 0;
        proof {
            assert(seen@ =~= Self::spec_start().1);
            assert(ves.skip(0) == ves);
        }
        while i < es.len()
            invariant
                j@ == JsonV::Object(ves),
                ves == view_entries(es@),
                ves.len() == es@.len(),
                i <= es.len(),
                seen@.len() == 0,
                fold_entries(Self::spec_start(), ves, Self::step_fn())
                    == fold_entries((m@, seen@), ves.skip(i as int), Self::step_fn()),
            decreases es.len() - i,
        {
            proof {
                lemma_view_entries_index(es@, i as int);
                lemma_fold_entries_step((m@, seen@), ves, i as int, Self::step_fn());
            }
            match Self::step(m, seen, &es[i].0, &es[i].1) {
                Ok((m2, seen2)) => {
                    m = m2;
                    seen = seen2;
                },
                Err(e) => return Err(e),
            }
            i = i + 1;
        }
        proof {
            assert(ves.skip(ves.len() as int) == Seq::<(Seq<char>, JsonV)>::empty());
            assert(fold_entries((m@, seen@), ves.skip(ves.len() as int), Self::step_fn())
                == Ok::<(IbcRelayerChangeV, Seq<bool>), JsonErrorV>((m@, seen@)));
        }
        Ok(m)
    }

    /// Reads an optional field of this message type.
    pub fn opt_from_json(v: &Json) -> (r: Result<Option<Self>, JsonError>)
        ensures
            match r {
                Ok(None) => Self::spec_read_opt(v@) == Ok::<Option<IbcRelayerChangeV>, JsonErrorV>(None),
                Ok(Some(x)) => Self::spec_read_opt(v@) == Ok::<Option<IbcRelayerChangeV>, JsonErrorV>(Some(x@)),
                Err(e) => Self::spec_read_opt(v@) == Err::<Option<IbcRelayerChangeV>, JsonErrorV>(e@),
            },
    {
        match v {
            Json::Null => Ok(None),
            _ => match Self::from_json(v) {
                Ok(x) => Ok(Some(x)),
                Err(e) => Err(e),
            },
        }
    }

    /// Reading the member that the field `value` writes sets the field.
    pub proof fn lemma_entry_value(m: IbcRelayerChangeV, st: (IbcRelayerChangeV, Seq<bool>))
        requires
            st.1.len() == 0,
            st.0.value is None,
        ensures
            fold_entries(st, Self::spec_entry_value(m), Self::step_fn()) == Ok::<(IbcRelayerChangeV, Seq<bool>), JsonErrorV>((IbcRelayerChangeV { value: m.value }, st.1)),
    {
        reveal_strlit("addition");
        reveal_strlit("removal");
        assert("addition"@.len() == 8);
        assert("removal"@.len() == 7);
        match m.value {
            _ => {},
        }
        lemma_fold_entry_if(st, m.value is Some, Self::spec_value_key(m.value.unwrap()), Self::spec_value_json(m.value.unwrap()), Self::step_fn());
    }

    /// The JSON spelling of a key: the protobuf name of a field becomes its JSON name;
    /// a JSON name, and any key that names no field, is left as it is.
    pub open spec fn spec_json_key(key: Seq<char>) -> Seq<char> {
        if key == "addition"@ {
            "addition"@
        } else if key == "removal"@ {
            "removal"@
        } else {
            key
        }
    }

    /// [`Self::spec_json_key`] as a function value.
    pub open spec fn json_key_fn() -> spec_fn(Seq<char>) -> Seq<char> {
        |key: Seq<char>| Self::spec_json_key(key)
    }

    /// One member is read alike whichever spelling its key has.
    pub proof fn lemma_step_json_key(st: (IbcRelayerChangeV, Seq<bool>), key: Seq<char>, v: JsonV)
        ensures Self::spec_step(st, key, v) == Self::spec_step(st, Self::spec_json_key(key), v),
    {
        reveal_strlit("addition");
        reveal_strlit("removal");
        assert("addition"@.len() == 8);
        assert("removal"@.len() == 7);
    }

    /// Reading an object gives the same result whichever spelling each of its keys has:
    /// two objects whose members hold the same values, in the same order, under keys of
    /// the same JSON spelling describe the same message, or are refused with the same error.
    pub proof fn lemma_key_spelling(es1: Seq<(Seq<char>, JsonV)>, es2: Seq<(Seq<char>, JsonV)>)
        requires
            es1.len() == es2.len(),
            forall|i: int| #![trigger es1[i], es2[i]] 0 <= i < es1.len() ==> es1[i].1 == es2[i].1 && Self::spec_json_key(es1[i].0) == Self::spec_json_key(es2[i].0),
        ensures Self::spec_from_json(JsonV::Object(es1)) == Self::spec_from_json(JsonV::Object(es2)),
    {
        assert forall|s: (IbcRelayerChangeV, Seq<bool>), k: Seq<char>, v: JsonV|
            #![trigger Self::step_fn()(s, k, v), Self::json_key_fn()(k)]
            Self::step_fn()(s, k, v) == Self::step_fn()(s, Self::json_key_fn()(k), v) by {
            Self::lemma_step_json_key(s, k, v);
        }
        lemma_fold_same_keys(Self::spec_start(), es1, es2, Self::step_fn(), Self::json_key_fn());
    }

    /// The keys of the object that the message writes: the JSON names of the fields that
    /// do not hold their default (for a oneof, the JSON name of the member set), in the
    /// order of the fields.
    pub open spec fn spec_written_keys(m: IbcRelayerChangeV) -> Seq<Seq<char>> {
        key_if(m.value is Some, Self::spec_value_key(m.value.unwrap()))
    }

    /// The object that the message writes has exactly the keys of
    /// [`Self::spec_written_keys`], in that order.
    pub proof fn lemma_written_keys(m: IbcRelayerChangeV)
        ensures
            Self::spec_to_json(m) == JsonV::Object(Self::spec_entries(m)),
            entry_keys(Self::spec_entries(m)) == Self::spec_written_keys(m),
    {
        lemma_entry_keys_if(m.value is Some, Self::spec_value_key(m.value.unwrap()), Self::spec_value_json(m.value.unwrap()));
    }

    /// Whether the field whose JSON name is `name` holds its default in `m`; for a member
    /// of a oneof, whether the oneof is set to another member or unset. `true` for a name
    /// that names no field.
    pub open spec fn spec_holds_default(m: IbcRelayerChangeV, name: Seq<char>) -> bool {
        if name == "addition"@ {
            !(m.value matches Some(ibc_relayer_change::ValueV::Addition(_)))
        } else if name == "removal"@ {
            !(m.value matches Some(ibc_relayer_change::ValueV::Removal(_)))
        } else {
            true
        }
    }

    /// Whether reading `v` for the field whose JSON name is `name` leaves the field at
    /// its default: `null`, for a field that takes it (a message field, a member of a
    /// oneof); nothing, for any other field. `true` for a name that names no field.
    pub open spec fn spec_leaves_default(name: Seq<char>, v: JsonV) -> bool {
        if name == "addition"@ {
            v is Null
        } else if name == "removal"@ {
            v is Null
        } else {
            true
        }
    }

    /// Reading one member keeps a field at its default unless the key names the field
    /// and the value does not leave it there.
    pub proof fn lemma_step_keeps_default(st: (IbcRelayerChangeV, Seq<bool>), key: Seq<char>, v: JsonV, name: Seq<char>)
        requires
            Self::spec_holds_default(st.0, name),
            Self::spec_json_key(key) == name ==> Self::spec_leaves_default(name, v),
        ensures
            Self::spec_step(st, key, v) is Ok ==> Self::spec_holds_default(Self::spec_step(st, key, v)->Ok_0.0, name),
    {
        reveal_strlit("addition");
        reveal_strlit("removal");
        assert("addition"@.len() == 8);
        assert("removal"@.len() == 7);
        Self::lemma_step_json_key(st, key, v);
    }

    /// A field whose key appears in no member of an object, or only with values that
    /// leave it at its default (`null`, for a field that takes it), holds its default in
    /// the message that the object describes.
    pub proof fn lemma_absent_default(es: Seq<(Seq<char>, JsonV)>, name: Seq<char>)
        requires
            forall|i: int| 0 <= i < es.len() ==> (Self::spec_json_key((#[trigger] es[i]).0) == name
                ==> Self::spec_leaves_default(name, es[i].1)),
        ensures
            Self::spec_from_json(JsonV::Object(es)) is Ok
                ==> Self::spec_holds_default(Self::spec_from_json(JsonV::Object(es))->Ok_0, name),
    {
        let inv = |s: (IbcRelayerChangeV, Seq<bool>)| Self::spec_holds_default(s.0, name);
        let allowed = |k: Seq<char>, v: JsonV| Self::spec_json_key(k) == name ==> Self::spec_leaves_default(name, v);
        assert forall|s: (IbcRelayerChangeV, Seq<bool>), k: Seq<char>, v: JsonV| #![trigger Self::step_fn()(s, k, v)]
            inv(s) && allowed(k, v) && Self::step_fn()(s, k, v) is Ok implies inv(Self::step_fn()(s, k, v)->Ok_0) by {
            Self::lemma_step_keeps_default(s, k, v, name);
        }
        assert(inv(Self::spec_start()));
        lemma_fold_keeps(Self::spec_start(), es, Self::step_fn(), inv, allowed);
    }

    /// Whether a key names a member of the oneof `value`, in either spelling.
    pub open spec fn spec_is_member_key(key: Seq<char>) -> bool {
        key == "addition"@ || key == "removal"@
    }

    /// The member of the oneof `value` that one member of an object gives: unset for
    /// `null`, else the member that the key names, read from the value.
    pub open spec fn spec_member_value(key: Seq<char>, v: JsonV) -> Result<Option<ibc_relayer_change::ValueV>, JsonErrorV> {
        if key == "addition"@ {
            match read_embedded(v) {
                Ok(Some(x)) => Ok(Some(ibc_relayer_change::ValueV::Addition(x))),
                Ok(None) => Ok(None),
                Err(e) => Err(e),
            }
        } else if key == "removal"@ {
            match read_embedded(v) {
                Ok(Some(x)) => Ok(Some(ibc_relayer_change::ValueV::Removal(x))),
                Ok(None) => Ok(None),
                Err(e) => Err(e),
            }
        } else {
            Err(JsonErrorV::UnknownField(key))
        }
    }

    /// An object whose keys each name a member of the oneof `value`, whose first `k`
    /// members are `null`, and whose member `k`, if there is one, is not `null` and reads
    /// as the member its key names: with no member past the `null` ones the oneof is
    /// unset; with member `k` last the oneof is that member; any key after member `k`,
    /// whatever its value, is refused as a duplicate under its JSON name.
    pub proof fn lemma_oneof_members(es: Seq<(Seq<char>, JsonV)>, k: int)
        requires
            0 <= k <= es.len(),
            forall|i: int| 0 <= i < es.len() ==> Self::spec_is_member_key(#[trigger] es[i].0),
            forall|i: int| 0 <= i < k ==> (#[trigger] es[i]).1 is Null,
            k < es.len() ==> es[k].1 !is Null && Self::spec_member_value(es[k].0, es[k].1) is Ok,
        ensures
            k == es.len() ==> Self::spec_from_json(JsonV::Object(es)) == Ok::<IbcRelayerChangeV, JsonErrorV>(Self::spec_default()),
            k == es.len() - 1 ==> Self::spec_from_json(JsonV::Object(es))
                == Ok::<IbcRelayerChangeV, JsonErrorV>(IbcRelayerChangeV { value: Self::spec_member_value(es[k].0, es[k].1)->Ok_0 }),
            k < es.len() - 1 ==> Self::spec_from_json(JsonV::Object(es))
                == Err::<IbcRelayerChangeV, JsonErrorV>(JsonErrorV::DuplicateField(Self::spec_json_key(es[k + 1].0))),
        decreases k,
    {
        reveal_strlit("addition");
        reveal_strlit("removal");
        assert("addition"@.len() == 8);
        assert("removal"@.len() == 7);
        let s0 = Self::spec_start();
        if es.len() > 0 {
            assert(Self::spec_is_member_key(es[0].0));
            let rest = es.drop_first();
            if k > 0 {
                assert(es[0].1 is Null);
                assert(Self::spec_step(s0, es[0].0, es[0].1) == Ok::<(IbcRelayerChangeV, Seq<bool>), JsonErrorV>(s0));
                assert forall|i: int| 0 <= i < rest.len() implies Self::spec_is_member_key(#[trigger] rest[i].0) by {
                    assert(rest[i] == es[i + 1]);
                }
                assert forall|i: int| 0 <= i < k - 1 implies (#[trigger] rest[i]).1 is Null by {
                    assert(rest[i] == es[i + 1]);
                }
                if k < es.len() {
                    assert(rest[k - 1] == es[k]);
                }
                if k + 1 < es.len() {
                    assert(rest[k] == es[k + 1]);
                }
                assert(fold_entries(s0, es, Self::step_fn()) == fold_entries(s0, rest, Self::step_fn()));
                Self::lemma_oneof_members(rest, k - 1);
            } else {
                let m = IbcRelayerChangeV { value: Self::spec_member_value(es[0].0, es[0].1)->Ok_0 };
                assert(m.value is Some);
                assert(Self::spec_step(s0, es[0].0, es[0].1) == Ok::<(IbcRelayerChangeV, Seq<bool>), JsonErrorV>((m, s0.1)));
                assert(fold_entries(s0, es, Self::step_fn()) == fold_entries((m, s0.1), rest, Self::step_fn()));
                if es.len() > 1 {
                    assert(rest[0] == es[1]);
                    assert(Self::spec_is_member_key(es[1].0));
                    assert(Self::spec_step((m, s0.1), es[1].0, es[1].1)
                        == Err::<(IbcRelayerChangeV, Seq<bool>), JsonErrorV>(JsonErrorV::DuplicateField(Self::spec_json_key(es[1].0))));
                    assert(fold_entries((m, s0.1), rest, Self::step_fn())
                        == Err::<(IbcRelayerChangeV, Seq<bool>), JsonErrorV>(JsonErrorV::DuplicateField(Self::spec_json_key(es[1].0))));
                } else {
                    assert(rest.len() == 0);
                    assert(fold_entries((m, s0.1), rest, Self::step_fn()) == Ok::<(IbcRelayerChangeV, Seq<bool>), JsonErrorV>((m, s0.1)));
                }
            }
        }
    }

    /// An object whose keys each name a member of the oneof `value`, and whose values other
    /// than `null` each read as the member their key names, is refused exactly when a
    /// member follows one whose value is not `null`, as a duplicate under the JSON name of
    /// the key after [`first_set`]. Otherwise the oneof is the member at [`first_set`], or
    /// unset when every value is `null`.
    pub proof fn lemma_oneof_object(es: Seq<(Seq<char>, JsonV)>)
        requires
            forall|i: int| 0 <= i < es.len() ==> Self::spec_is_member_key(#[trigger] es[i].0),
            forall|i: int| 0 <= i < es.len() && !((#[trigger] es[i]).1 is Null)
                ==> Self::spec_member_value(es[i].0, es[i].1) is Ok,
        ensures
            Self::spec_from_json(JsonV::Object(es)) is Err
                <==> exists|i: int| 0 <= i < es.len() - 1 && !((#[trigger] es[i]).1 is Null),
            first_set(es) == es.len() ==> Self::spec_from_json(JsonV::Object(es)) == Ok::<IbcRelayerChangeV, JsonErrorV>(Self::spec_default()),
            first_set(es) == es.len() - 1 ==> Self::spec_from_json(JsonV::Object(es))
                == Ok::<IbcRelayerChangeV, JsonErrorV>(IbcRelayerChangeV { value: Self::spec_member_value(es[first_set(es)].0, es[first_set(es)].1)->Ok_0 }),
            first_set(es) < es.len() - 1 ==> Self::spec_from_json(JsonV::Object(es))
                == Err::<IbcRelayerChangeV, JsonErrorV>(JsonErrorV::DuplicateField(Self::spec_json_key(es[first_set(es) + 1].0))),
    {
        lemma_first_set(es);
        let k = first_set(es);
        if k < es.len() {
            assert(!(es[k].1 is Null));
        }
        Self::lemma_oneof_members(es, k);
    }

    /// The field `addition` alone: an object with one member under its JSON or protobuf
    /// name reads as the message with that field set and every other field at its
    /// default, and the message with only that field off its default writes that
    /// one member under the JSON name.
    pub proof fn lemma_member_addition(es: Seq<(Seq<char>, JsonV)>)
        ensures
            Self::spec_from_json(JsonV::Object(seq![("addition"@, JsonV::Object(es))])) == Ok::<IbcRelayerChangeV, JsonErrorV>(IbcRelayerChangeV { value: Some(ibc_relayer_change::ValueV::Addition(es)) }),
            Self::spec_from_json(JsonV::Object(seq![("addition"@, JsonV::Null)])) == Ok::<IbcRelayerChangeV, JsonErrorV>(Self::spec_default()),
            Self::spec_to_json(IbcRelayerChangeV { value: Some(ibc_relayer_change::ValueV::Addition(es)) }) == JsonV::Object(seq![("addition"@, JsonV::Object(es))]),
    {
        reveal_strlit("addition");
        reveal_strlit("removal");
        assert("addition"@.len() == 8);
        assert("removal"@.len() == 7);
        lemma_fold_entry_if(Self::spec_start(), true, "addition"@, JsonV::Object(es), Self::step_fn());
        lemma_fold_entry_if(Self::spec_start(), true, "addition"@, JsonV::Null, Self::step_fn());
    }

    /// The field `removal` alone: an object with one member under its JSON or protobuf
    /// name reads as the message with that field set and every other field at its
    /// default, and the message with only that field off its default writes that
    /// one member under the JSON name.
    pub proof fn lemma_member_removal(es: Seq<(Seq<char>, JsonV)>)
        ensures
            Self::spec_from_json(JsonV::Object(seq![("removal"@, JsonV::Object(es))])) == Ok::<IbcRelayerChangeV, JsonErrorV>(IbcRelayerChangeV { value: Some(ibc_relayer_change::ValueV::Removal(es)) }),
            Self::spec_from_json(JsonV::Object(seq![("removal"@, JsonV::Null)])) == Ok::<IbcRelayerChangeV, JsonErrorV>(Self::spec_default()),
            Self::spec_to_json(IbcRelayerChangeV { value: Some(ibc_relayer_change::ValueV::Removal(es)) }) == JsonV::Object(seq![("removal"@, JsonV::Object(es))]),
    {
        reveal_strlit("addition");
        reveal_strlit("removal");
        assert("addition"@.len() == 8);
        assert("removal"@.len() == 7);
        lemma_fold_entry_if(Self::spec_start(), true, "removal"@, JsonV::Object(es), Self::step_fn());
        lemma_fold_entry_if(Self::spec_start(), true, "removal"@, JsonV::Null, Self::step_fn());
    }

    /// Reading back the JSON object of a message gives the message.
    pub proof fn lemma_json_roundtrip(m: IbcRelayerChangeV)
        ensures Self::spec_from_json(Self::spec_to_json(m)) == Ok::<IbcRelayerChangeV, JsonErrorV>(m),
    {
        let step = Self::step_fn();
        let s0 = Self::spec_start();
        let s1 = (IbcRelayerChangeV { value: m.value }, s0.1);
        Self::lemma_entry_value(m, s0);
        let p1 = Self::spec_entry_value(m);
        assert(s1.0 == m);
    }
}

/// The `astria.protocol.transaction.v1.IbcSudoChange` message.
#[derive(Clone, Debug, PartialEq)]
pub struct IbcSudoChange {
    pub new_address: Option<Address>,
}

/// The mathematical content of an [`IbcSudoChange`].
pub struct IbcSudoChangeV {
    pub new_address: Option<Seq<(Seq<char>, JsonV)>>,
}

impl View for IbcSudoChange {
    type V = IbcSudoChangeV;

    open spec fn view(&self) -> IbcSudoChangeV {
        IbcSudoChangeV {
            new_address: opt_embedded_view(self.new_address),
        }
    }
}

impl Default for IbcSudoChange {
    fn default() -> (r: Self)
        ensures r@ == IbcSudoChange::spec_default(),
    {
        let r = IbcSudoChange {
            new_address: None,
        };
        r
    }
}

impl IbcSudoChange {
    /// The fully qualified protobuf name of the message.
    pub fn full_name() -> (r: String)
        ensures r@ == "astria.protocol.transaction.v1.IbcSudoChange"@,
    {
        "astria.protocol.transaction.v1.IbcSudoChange".to_string()
    }

    /// Every field at its default: empty strings, bytes and lists, zero, `false`, unset.
    pub open spec fn spec_default() -> IbcSudoChangeV {
        IbcSudoChangeV {
            new_address: None,
        }
    }

    /// The view of an optional field of this message type.
    pub open spec fn view_opt(o: Option<Self>) -> Option<IbcSudoChangeV> {
        match o {
            Some(x) => Some(x@),
            None => None,
        }
    }

    /// The view of a repeated field of this message type.
    pub open spec fn view_list(v: Seq<Self>) -> Seq<IbcSudoChangeV> {
        v.map_values(|x: Self| x@)
    }

    /// The member that the field `new_address` writes: none where it holds its default.
    pub open spec fn spec_entry_new_address(m: IbcSudoChangeV) -> Seq<(Seq<char>, JsonV)> {
        entry_if(m.new_address is Some, "newAddress"@, JsonV::Object(m.new_address.unwrap()))
    }

    /// The members of the JSON object of the message: each field that does not hold
    /// its default, under its JSON name, in the order of the fields.
    pub open spec fn spec_entries(m: IbcSudoChangeV) -> Seq<(Seq<char>, JsonV)> {
        Self::spec_entry_new_address(m)
    }

    /// The JSON object that the protobuf JSON mapping writes for the message.
    pub open spec fn spec_to_json(m: IbcSudoChangeV) -> JsonV {
        JsonV::Object(Self::spec_entries(m))
    }

    /// [`Self::spec_to_json`] as a function value, for repeated fields.
    pub open spec fn writer() -> spec_fn(IbcSudoChangeV) -> JsonV {
        |m: IbcSudoChangeV| Self::spec_to_json(m)
    }

    fn write_new_address(&self, es: &mut Vec<(String, Json)>)
        ensures
            view_entries(final(es)@) == view_entries(old(es)@) + Self::spec_entry_new_address(self@),
    {
        match &self.new_address {
            Some(x) => push_entry(es, "newAddress", embedded_value(x)),
            None => {},
        }
        assert(view_entries(es@) =~= view_entries(old(es)@) + Self::spec_entry_new_address(self@));
    }

    /// Writes the message as a JSON object; reading it back gives the message.
    pub fn to_json(&self) -> (r: Json)
        ensures
            r@ == Self::spec_to_json(self@),
            Self::spec_from_json(r@) == Ok::<IbcSudoChangeV, JsonErrorV>(self@),
    {
        let mut es: Vec<(String, Json)> = Vec::new();
        let ghost mut acc: Seq<(Seq<char>, JsonV)> = Seq::empty();
        proof {
            assert(view_entries(es@) =~= acc);
        }
        self.write_new_address(&mut es);
        proof {
            acc = acc + Self::spec_entry_new_address(self@);
        }
        proof {
            assert(acc =~= Self::spec_entries(self@));
            Self::lemma_json_roundtrip(self@);
        }
        Json::Object(es)
    }

    /// Reads one member of the object into the message under construction; `seen`
    /// records which fields that have no unset state were already given.
    pub open spec fn spec_step(st: (IbcSudoChangeV, Seq<bool>), key: Seq<char>, v: JsonV) -> Result<(IbcSudoChangeV, Seq<bool>), JsonErrorV> {
        let m = st.0;
        let seen = st.1;
        if key == "newAddress"@ || key == "new_address"@ {
            if m.new_address is Some {
                Err(JsonErrorV::DuplicateField("newAddress"@))
            } else {
                match read_embedded(v) {
                    Ok(x) => Ok((IbcSudoChangeV { new_address: x }, seen)),
                    Err(e) => Err(e),
                }
            }
        } else {
            Err(JsonErrorV::UnknownField(key))
        }
    }

    /// [`Self::spec_step`] as a function value.
    pub open spec fn step_fn() -> spec_fn((IbcSudoChangeV, Seq<bool>), Seq<char>, JsonV) -> Result<(IbcSudoChangeV, Seq<bool>), JsonErrorV> {
        |st: (IbcSudoChangeV, Seq<bool>), key: Seq<char>, v: JsonV| Self::spec_step(st, key, v)
    }

    /// The state before the first member is read: the default message, no field seen.
    pub open spec fn spec_start() -> (IbcSudoChangeV, Seq<bool>) {
        (Self::spec_default(), Seq::<bool>::empty())
    }

    /// The message that a JSON value describes: an object whose keys each name a field
    /// (by its JSON name or its protobuf name), at most once each; fields that are not
    /// given keep their default. The first member that is refused gives the error.
    pub open spec fn spec_from_json(j: JsonV) -> Result<IbcSudoChangeV, JsonErrorV> {
        match j {
            JsonV::Object(es) => match fold_entries(Self::spec_start(), es, Self::step_fn()) {
                Ok(st) => Ok(st.0),
                Err(e) => Err(e),
            },
            _ => Err(JsonErrorV::ExpectedObject),
        }
    }

    /// [`Self::spec_from_json`] as a function value, for repeated fields.
    pub open spec fn reader() -> spec_fn(JsonV) -> Result<IbcSudoChangeV, JsonErrorV> {
        |v: JsonV| Self::spec_from_json(v)
    }

    /// An optional field of this message type: `null` leaves it unset.
    pub open spec fn spec_read_opt(v: JsonV) -> Result<Option<IbcSudoChangeV>, JsonErrorV> {
        match v {
            JsonV::Null => Ok(None),
            _ => match Self::spec_from_json(v) {
                Ok(x) => Ok(Some(x)),
                Err(e) => Err(e),
            },
        }
    }

    fn step(m: Self, seen: Vec<bool>, key: &String, v: &Json) -> (r: Result<(Self, Vec<bool>), JsonError>)
        requires seen@.len() == 0,
        ensures
            match r {
                Ok((m2, seen2)) => Self::spec_step((m@, seen@), key@, v@) == Ok::<(IbcSudoChangeV, Seq<bool>), JsonErrorV>((m2@, seen2@)) && seen2@.len() == 0,
                Err(e) => Self::spec_step((m@, seen@), key@, v@) == Err::<(IbcSudoChangeV, Seq<bool>), JsonErrorV>(e@),
            },
    {
        let mut m = m;
        let mut seen = seen;
        let k = key.as_str();
        if str_eq(k, "newAddress") || str_eq(k, "new_address") {
            if m.new_address.is_some() {
                return Err(JsonError::DuplicateField("newAddress".to_string()));
            }
            match embedded_field(v) {
                Ok(x) => m.new_address = x,
                Err(e) => return Err(e),
            }
        } else {
            return Err(JsonError::UnknownField(key.clone()));
        }
        Ok((m, seen))
    }

    /// Reads the message from a JSON value, as [`Self::spec_from_json`] describes.
    pub fn from_json(j: &Json) -> (r: Result<Self, JsonError>)
        ensures
            match r {
                Ok(m) => Self::spec_from_json(j@) == Ok::<IbcSudoChangeV, JsonErrorV>(m@),
                Err(e) => Self::spec_from_json(j@) == Err::<IbcSudoChangeV, JsonErrorV>(e@),
            },
    {
        let es = match j {
            Json::Object(es) => es,
            _ => return Err(JsonError::ExpectedObject),
        };
        let ghost ves = view_entries(es@);
        proof {
            lemma_view_entries_len(es@);
            assert(j@ == JsonV::Object(ves));
        }
        let mut m = Self::default();
        let mut seen: Vec<bool> = Vec::new();
        let mut i: usize = 0;
        proof {
            assert(seen@ =~= Self::spec_start().1);
            assert(ves.skip(0) == ves);
        }
        while i < es.len()
            invariant
                j@ == JsonV::Object(ves),
                ves == view_entries(es@),
                ves.len() == es@.len(),
                i <= es.len(),
                seen@.len() == 0,
                fold_entries(Self::spec_start(), ves, Self::step_fn())
                    == fold_entries((m@, seen@), ves.skip(i as int), Self::step_fn()),
            decreases es.len() - i,
        {
            proof {
                lemma_view_entries_index(es@, i as int);
                lemma_fold_entries_step((m@, seen@), ves, i as int, Self::step_fn());
            }
            match Self::step(m, seen, &es[i].0, &es[i].1) {
                Ok((m2, seen2)) => {
                    m = m2;
                    seen = seen2;
                },
                Err(e) => return Err(e),
            }
            i = i + 1;
        }
        proof {
            assert(ves.skip(ves.len() as int) == Seq::<(Seq<char>, JsonV)>::empty());
            assert(fold_entries((m@, seen@), ves.skip(ves.len() as int), Self::step_fn())
                == Ok::<(IbcSudoChangeV, Seq<bool>), JsonErrorV>((m@, seen@)));
        }
        Ok(m)
    }

    /// Reads an optional field of this message type.
    pub fn opt_from_json(v: &Json) -> (r: Result<Option<Self>, JsonError>)
        ensures
            match r {
                Ok(None) => Self::spec_read_opt(v@) == Ok::<Option<IbcSudoChangeV>, JsonErrorV>(None),
                Ok(Some(x)) => Self::spec_read_opt(v@) == Ok::<Option<IbcSudoChangeV>, JsonErrorV>(Some(x@)),
                Err(e) => Self::spec_read_opt(v@) == Err::<Option<IbcSudoChangeV>, JsonErrorV>(e@),
            },
    {
        match v {
            Json::Null => Ok(None),
            _ => match Self::from_json(v) {
                Ok(x) => Ok(Some(x)),
                Err(e) => Err(e),
            },
        }
    }

    /// Reading the member that the field `new_address` writes sets the field.
    pub proof fn lemma_entry_new_address(m: IbcSudoChangeV, st: (IbcSudoChangeV, Seq<bool>))
        requires
            st.1.len() == 0,
            st.0.new_address is None,
        ensures
            fold_entries(st, Self::spec_entry_new_address(m), Self::step_fn()) == Ok::<(IbcSudoChangeV, Seq<bool>), JsonErrorV>((IbcSudoChangeV { new_address: m.new_address }, st.1)),
    {
        reveal_strlit("newAddress");
        reveal_strlit("new_address");
        assert("newAddress"@.len() == 10);
        assert("new_address"@.len() == 11);
        lemma_fold_entry_if(st, m.new_address is Some, "newAddress"@, JsonV::Object(m.new_address.unwrap()), Self::step_fn());
    }

    /// The JSON spelling of a key: the protobuf name of a field becomes its JSON name;
    /// a JSON name, and any key that names no field, is left as it is.
    pub open spec fn spec_json_key(key: Seq<char>) -> Seq<char> {
        if key == "newAddress"@ || key == "new_address"@ {
            "newAddress"@
        } else {
            key
        }
    }

    /// [`Self::spec_json_key`] as a function value.
    pub open spec fn json_key_fn() -> spec_fn(Seq<char>) -> Seq<char> {
        |key: Seq<char>| Self::spec_json_key(key)
    }

    /// One member is read alike whichever spelling its key has.
    pub proof fn lemma_step_json_key(st: (IbcSudoChangeV, Seq<bool>), key: Seq<char>, v: JsonV)
        ensures Self::spec_step(st, key, v) == Self::spec_step(st, Self::spec_json_key(key), v),
    {
        reveal_strlit("newAddress");
        reveal_strlit("new_address");
        assert("newAddress"@.len() == 10);
        assert("new_address"@.len() == 11);
        if key == "new_address"@ {
            assert(Self::spec_json_key(key) == "newAddress"@);
        }
    }

    /// Reading an object gives the same result whichever spelling each of its keys has:
    /// two objects whose members hold the same values, in the same order, under keys of
    /// the same JSON spelling describe the same message, or are refused with the same error.
    pub proof fn lemma_key_spelling(es1: Seq<(Seq<char>, JsonV)>, es2: Seq<(Seq<char>, JsonV)>)
        requires
            es1.len() == es2.len(),
            forall|i: int| #![trigger es1[i], es2[i]] 0 <= i < es1.len() ==> es1[i].1 == es2[i].1 && Self::spec_json_key(es1[i].0) == Self::spec_json_key(es2[i].0),
        ensures Self::spec_from_json(JsonV::Object(es1)) == Self::spec_from_json(JsonV::Object(es2)),
    {
        assert forall|s: (IbcSudoChangeV, Seq<bool>), k: Seq<char>, v: JsonV|
            #![trigger Self::step_fn()(s, k, v), Self::json_key_fn()(k)]
            Self::step_fn()(s, k, v) == Self::step_fn()(s, Self::json_key_fn()(k), v) by {
            Self::lemma_step_json_key(s, k, v);
        }
        lemma_fold_same_keys(Self::spec_start(), es1, es2, Self::step_fn(), Self::json_key_fn());
    }

    /// The keys of the object that the message writes: the JSON names of the fields that
    /// do not hold their default (for a oneof, the JSON name of the member set), in the
    /// order of the fields.
    pub open spec fn spec_written_keys(m: IbcSudoChangeV) -> Seq<Seq<char>> {
        key_if(m.new_address is Some, "newAddress"@)
    }

    /// The object that the message writes has exactly the keys of
    /// [`Self::spec_written_keys`], in that order.
    pub proof fn lemma_written_keys(m: IbcSudoChangeV)
        ensures
            Self::spec_to_json(m) == JsonV::Object(Self::spec_entries(m)),
            entry_keys(Self::spec_entries(m)) == Self::spec_written_keys(m),
    {
        lemma_entry_keys_if(m.new_address is Some, "newAddress"@, JsonV::Object(m.new_address.unwrap()));
    }

    /// Whether the field whose JSON name is `name` holds its default in `m`; for a member
    /// of a oneof, whether the oneof is set to another member or unset. `true` for a name
    /// that names no field.
    pub open spec fn spec_holds_default(m: IbcSudoChangeV, name: Seq<char>) -> bool {
        if name == "newAddress"@ {
            m.new_address is None
        } else {
            true
        }
    }

    /// Whether reading `v` for the field whose JSON name is `name` leaves the field at
    /// its default: `null`, for a field that takes it (a message field, a member of a
    /// oneof); nothing, for any other field. `true` for a name that names no field.
    pub open spec fn spec_leaves_default(name: Seq<char>, v: JsonV) -> bool {
        if name == "newAddress"@ {
            v is Null
        } else {
            true
        }
    }

    /// Reading one member keeps a field at its default unless the key names the field
    /// and the value does not leave it there.
    pub proof fn lemma_step_keeps_default(st: (IbcSudoChangeV, Seq<bool>), key: Seq<char>, v: JsonV, name: Seq<char>)
        requires
            Self::spec_holds_default(st.0, name),
            Self::spec_json_key(key) == name ==> Self::spec_leaves_default(name, v),
        ensures
            Self::spec_step(st, key, v) is Ok ==> Self::spec_holds_default(Self::spec_step(st, key, v)->Ok_0.0, name),
    {
        reveal_strlit("newAddress");
        reveal_strlit("new_address");
        assert("newAddress"@.len() == 10);
        assert("new_address"@.len() == 11);
        Self::lemma_step_json_key(st, key, v);
    }

    /// A field whose key appears in no member of an object, or only with values that
    /// leave it at its default (`null`, for a field that takes it), holds its default in
    /// the message that the object describes.
    pub proof fn lemma_absent_default(es: Seq<(Seq<char>, JsonV)>, name: Seq<char>)
        requires
            forall|i: int| 0 <= i < es.len() ==> (Self::spec_json_key((#[trigger] es[i]).0) == name
                ==> Self::spec_leaves_default(name, es[i].1)),
        ensures
            Self::spec_from_json(JsonV::Object(es)) is Ok
                ==> Self::spec_holds_default(Self::spec_from_json(JsonV::Object(es))->Ok_0, name),
    {
        let inv = |s: (IbcSudoChangeV, Seq<bool>)| Self::spec_holds_default(s.0, name);
        let allowed = |k: Seq<char>, v: JsonV| Self::spec_json_key(k) == name ==> Self::spec_leaves_default(name, v);
        assert forall|s: (IbcSudoChangeV, Seq<bool>), k: Seq<char>, v: JsonV| #![trigger Self::step_fn()(s, k, v)]
            inv(s) && allowed(k, v) && Self::step_fn()(s, k, v) is Ok implies inv(Self::step_fn()(s, k, v)->Ok_0) by {
            Self::lemma_step_keeps_default(s, k, v, name);
        }
        assert(inv(Self::spec_start()));
        lemma_fold_keeps(Self::spec_start(), es, Self::step_fn(), inv, allowed);
    }

    /// The field `new_address` alone: an object with one member under its JSON or protobuf
    /// name reads as the message with that field set and every other field at its
    /// default, and the message with only that field off its default writes that
    /// one member under the JSON name.
    pub proof fn lemma_field_new_address(es: Seq<(Seq<char>, JsonV)>)
        ensures
            Self::spec_from_json(JsonV::Object(seq![("newAddress"@, JsonV::Object(es))])) == Ok::<IbcSudoChangeV, JsonErrorV>(IbcSudoChangeV { new_address: Some(es) }),
            Self::spec_from_json(JsonV::Object(seq![("newAddress"@, JsonV::Null)])) == Ok::<IbcSudoChangeV, JsonErrorV>(Self::spec_default()),
            Self::spec_from_json(JsonV::Object(seq![("new_address"@, JsonV::Object(es))])) == Ok::<IbcSudoChangeV, JsonErrorV>(IbcSudoChangeV { new_address: Some(es) }),
            Self::spec_from_json(JsonV::Object(seq![("new_address"@, JsonV::Null)])) == Ok::<IbcSudoChangeV, JsonErrorV>(Self::spec_default()),
            Self::spec_to_json(IbcSudoChangeV { new_address: Some(es) }) == JsonV::Object(seq![("newAddress"@, JsonV::Object(es))]),
    {
        reveal_strlit("newAddress");
        reveal_strlit("new_address");
        assert("newAddress"@.len() == 10);
        assert("new_address"@.len() == 11);
        lemma_fold_entry_if(Self::spec_start(), true, "newAddress"@, JsonV::Object(es), Self::step_fn());
        lemma_fold_entry_if(Self::spec_start(), true, "newAddress"@, JsonV::Null, Self::step_fn());
        lemma_fold_entry_if(Self::spec_start(), true, "new_address"@, JsonV::Object(es), Self::step_fn());
        lemma_fold_entry_if(Self::spec_start(), true, "new_address"@, JsonV::Null, Self::step_fn());
    }

    /// Reading back the JSON object of a message gives the message.
    pub proof fn lemma_json_roundtrip(m: IbcSudoChangeV)
        ensures Self::spec_from_json(Self::spec_to_json(m)) == Ok::<IbcSudoChangeV, JsonErrorV>(m),
    {
        let step = Self::step_fn();
        let s0 = Self::spec_start();
        let s1 = (IbcSudoChangeV { new_address: m.new_address }, s0.1);
        Self::lemma_entry_new_address(m, s0);
        let p1 = Self::spec_entry_new_address(m);
        assert(s1.0 == m);
    }
}

/// The `astria.protocol.transaction.v1.Ics20Withdrawal` message.
#[derive(Clone, Debug, PartialEq)]
pub struct Ics20Withdrawal {
    pub amount: Option<Uint128>,
    pub denom: String,
    pub destination_chain_address: String,
    pub return_address: Option<Address>,
    pub timeout_height: Option<IbcHeight>,
    pub timeout_time: u64,
    pub source_channel: String,
    pub fee_asset: String,
    pub memo: String,
    pub bridge_address: Option<Address>,
    pub use_compat_address: bool,
}

/// The mathematical content of an [`Ics20Withdrawal`].
pub struct Ics20WithdrawalV {
    pub amount: Option<Seq<(Seq<char>, JsonV)>>,
    pub denom: Seq<char>,
    pub destination_chain_address: Seq<char>,
    pub return_address: Option<Seq<(Seq<char>, JsonV)>>,
    pub timeout_height: Option<IbcHeightV>,
    pub timeout_time: u64,
    pub source_channel: Seq<char>,
    pub fee_asset: Seq<char>,
    pub memo: Seq<char>,
    pub bridge_address: Option<Seq<(Seq<char>, JsonV)>>,
    pub use_compat_address: bool,
}

impl View for Ics20Withdrawal {
    type V = Ics20WithdrawalV;

    open spec fn view(&self) -> Ics20WithdrawalV {
        Ics20WithdrawalV {
            amount: opt_embedded_view(self.amount),
            denom: self.denom@,
            destination_chain_address: self.destination_chain_address@,
            return_address: opt_embedded_view(self.return_address),
            timeout_height: IbcHeight::view_opt(self.timeout_height),
            timeout_time: self.timeout_time,
            source_channel: self.source_channel@,
            fee_asset: self.fee_asset@,
            memo: self.memo@,
            bridge_address: opt_embedded_view(self.bridge_address),
            use_compat_address: self.use_compat_address,
        }
    }
}

impl Default for Ics20Withdrawal {
    fn default() -> (r: Self)
        ensures r@ == Ics20Withdrawal::spec_default(),
    {
        let r = Ics20Withdrawal {
            amount: None,
            denom: String::new(),
            destination_chain_address: String::new(),
            return_address: None,
            timeout_height: None,
            timeout_time: 0,
            source_channel: String::new(),
            fee_asset: String::new(),
            memo: String::new(),
            bridge_address: None,
            use_compat_address: false,
        };
        r
    }
}

impl Ics20Withdrawal {
    /// The fully qualified protobuf name of the message.
    pub fn full_name() -> (r: String)
        ensures r@ == "astria.protocol.transaction.v1.Ics20Withdrawal"@,
    {
        "astria.protocol.transaction.v1.Ics20Withdrawal".to_string()
    }

    /// Every field at its default: empty strings, bytes and lists, zero, `false`, unset.
    pub open spec fn spec_default() -> Ics20WithdrawalV {
        Ics20WithdrawalV {
            amount: None,
            denom: Seq::<char>::empty(),
            destination_chain_address: Seq::<char>::empty(),
            return_address: None,
            timeout_height: None,
            timeout_time: 0,
            source_channel: Seq::<char>::empty(),
            fee_asset: Seq::<char>::empty(),
            memo: Seq::<char>::empty(),
            bridge_address: None,
            use_compat_address: false,
        }
    }

    /// The view of an optional field of this message type.
    pub open spec fn view_opt(o: Option<Self>) -> Option<Ics20WithdrawalV> {
        match o {
            Some(x) => Some(x@),
            None => None,
        }
    }

    /// The view of a repeated field of this message type.
    pub open spec fn view_list(v: Seq<Self>) -> Seq<Ics20WithdrawalV> {
        v.map_values(|x: Self| x@)
    }

    /// The member that the field `amount` writes: none where it holds its default.
    pub open spec fn spec_entry_amount(m: Ics20WithdrawalV) -> Seq<(Seq<char>, JsonV)> {
        entry_if(m.amount is Some, "amount"@, JsonV::Object(m.amount.unwrap()))
    }

    /// The member that the field `denom` writes: none where it holds its default.
    pub open spec fn spec_entry_denom(m: Ics20WithdrawalV) -> Seq<(Seq<char>, JsonV)> {
        entry_if(m.denom.len() != 0, "denom"@, JsonV::Str(m.denom))
    }

    /// The member that the field `destination_chain_address` writes: none where it holds its default.
    pub open spec fn spec_entry_destination_chain_address(m: Ics20WithdrawalV) -> Seq<(Seq<char>, JsonV)> {
        entry_if(m.destination_chain_address.len() != 0, "destinationChainAddress"@, JsonV::Str(m.destination_chain_address))
    }

    /// The member that the field `return_address` writes: none where it holds its default.
    pub open spec fn spec_entry_return_address(m: Ics20WithdrawalV) -> Seq<(Seq<char>, JsonV)> {
        entry_if(m.return_address is Some, "returnAddress"@, JsonV::Object(m.return_address.unwrap()))
    }

    /// The member that the field `timeout_height` writes: none where it holds its default.
    pub open spec fn spec_entry_timeout_height(m: Ics20WithdrawalV) -> Seq<(Seq<char>, JsonV)> {
        entry_if(m.timeout_height is Some, "timeoutHeight"@, IbcHeight::spec_to_json(m.timeout_height.unwrap()))
    }

    /// The member that the field `timeout_time` writes: none where it holds its default.
    pub open spec fn spec_entry_timeout_time(m: Ics20WithdrawalV) -> Seq<(Seq<char>, JsonV)> {
        entry_if(m.timeout_time != 0, "timeoutTime"@, JsonV::Str(decimal(m.timeout_time as nat)))
    }

    /// The member that the field `source_channel` writes: none where it holds its default.
    pub open spec fn spec_entry_source_channel(m: Ics20WithdrawalV) -> Seq<(Seq<char>, JsonV)> {
        entry_if(m.source_channel.len() != 0, "sourceChannel"@, JsonV::Str(m.source_channel))
    }

    /// The member that the field `fee_asset` writes: none where it holds its default.
    pub open spec fn spec_entry_fee_asset(m: Ics20WithdrawalV) -> Seq<(Seq<char>, JsonV)> {
        entry_if(m.fee_asset.len() != 0, "feeAsset"@, JsonV::Str(m.fee_asset))
    }

    /// The member that the field `memo` writes: none where it holds its default.
    pub open spec fn spec_entry_memo(m: Ics20WithdrawalV) -> Seq<(Seq<char>, JsonV)> {
        entry_if(m.memo.len() != 0, "memo"@, JsonV::Str(m.memo))
    }

    /// The member that the field `bridge_address` writes: none where it holds its default.
    pub open spec fn spec_entry_bridge_address(m: Ics20WithdrawalV) -> Seq<(Seq<char>, JsonV)> {
        entry_if(m.bridge_address is Some, "bridgeAddress"@, JsonV::Object(m.bridge_address.unwrap()))
    }

    /// The member that the field `use_compat_address` writes: none where it holds its default.
    pub open spec fn spec_entry_use_compat_address(m: Ics20WithdrawalV) -> Seq<(Seq<char>, JsonV)> {
        entry_if(m.use_compat_address, "useCompatAddress"@, JsonV::Bool(m.use_compat_address))
    }

    /// The members of the JSON object of the message: each field that does not hold
    /// its default, under its JSON name, in the order of the fields.
    pub open spec fn spec_entries(m: Ics20WithdrawalV) -> Seq<(Seq<char>, JsonV)> {
        Self::spec_entry_amount(m) + Self::spec_entry_denom(m) + Self::spec_entry_destination_chain_address(m) + Self::spec_entry_return_address(m) + Self::spec_entry_timeout_height(m) + Self::spec_entry_timeout_time(m) + Self::spec_entry_source_channel(m) + Self::spec_entry_fee_asset(m) + Self::spec_entry_memo(m) + Self::spec_entry_bridge_address(m) + Self::spec_entry_use_compat_address(m)
    }

    /// The JSON object that the protobuf JSON mapping writes for the message.
    pub open spec fn spec_to_json(m: Ics20WithdrawalV) -> JsonV {
        JsonV::Object(Self::spec_entries(m))
    }

    /// [`Self::spec_to_json`] as a function value, for repeated fields.
    pub open spec fn writer() -> spec_fn(Ics20WithdrawalV) -> JsonV {
        |m: Ics20WithdrawalV| Self::spec_to_json(m)
    }

    fn write_amount(&self, es: &mut Vec<(String, Json)>)
        ensures
            view_entries(final(es)@) == view_entries(old(es)@) + Self::spec_entry_amount(self@),
    {
        match &self.amount {
            Some(x) => push_entry(es, "amount", embedded_value(x)),
            None => {},
        }
        assert(view_entries(es@) =~= view_entries(old(es)@) + Self::spec_entry_amount(self@));
    }

    fn write_denom(&self, es: &mut Vec<(String, Json)>)
        ensures
            view_entries(final(es)@) == view_entries(old(es)@) + Self::spec_entry_denom(self@),
    {
        if !self.denom.as_str().is_empty() {
            push_entry(es, "denom", string_value(&self.denom));
        }
        assert(view_entries(es@) =~= view_entries(old(es)@) + Self::spec_entry_denom(self@));
    }

    fn write_destination_chain_address(&self, es: &mut Vec<(String, Json)>)
        ensures
            view_entries(final(es)@) == view_entries(old(es)@) + Self::spec_entry_destination_chain_address(self@),
    {
        if !self.destination_chain_address.as_str().is_empty() {
            push_entry(es, "destinationChainAddress", string_value(&self.destination_chain_address));
        }
        assert(view_entries(es@) =~= view_entries(old(es)@) + Self::spec_entry_destination_chain_address(self@));
    }

    fn write_return_address(&self, es: &mut Vec<(String, Json)>)
        ensures
            view_entries(final(es)@) == view_entries(old(es)@) + Self::spec_entry_return_address(self@),
    {
        match &self.return_address {
            Some(x) => push_entry(es, "returnAddress", embedded_value(x)),
            None => {},
        }
        assert(view_entries(es@) =~= view_entries(old(es)@) + Self::spec_entry_return_address(self@));
    }

    fn write_timeout_height(&self, es: &mut Vec<(String, Json)>)
        ensures
            view_entries(final(es)@) == view_entries(old(es)@) + Self::spec_entry_timeout_height(self@),
    {
        match &self.timeout_height {
            Some(x) => push_entry(es, "timeoutHeight", x.to_json()),
            None => {},
        }
        assert(view_entries(es@) =~= view_entries(old(es)@) + Self::spec_entry_timeout_height(self@));
    }

    fn write_timeout_time(&self, es: &mut Vec<(String, Json)>)
        ensures
            view_entries(final(es)@) == view_entries(old(es)@) + Self::spec_entry_timeout_time(self@),
    {
        if self.timeout_time != 0 {
            push_entry(es, "timeoutTime", u64_value(self.timeout_time));
        }
        assert(view_entries(es@) =~= view_entries(old(es)@) + Self::spec_entry_timeout_time(self@));
    }

    fn write_source_channel(&self, es: &mut Vec<(String, Json)>)
        ensures
            view_entries(final(es)@) == view_entries(old(es)@) + Self::spec_entry_source_channel(self@),
    {
        if !self.source_channel.as_str().is_empty() {
            push_entry(es, "sourceChannel", string_value(&self.source_channel));
        }
        assert(view_entries(es@) =~= view_entries(old(es)@) + Self::spec_entry_source_channel(self@));
    }

    fn write_fee_asset(&self, es: &mut Vec<(String, Json)>)
        ensures
            view_entries(final(es)@) == view_entries(old(es)@) + Self::spec_entry_fee_asset(self@),
    {
        if !self.fee_asset.as_str().is_empty() {
            push_entry(es, "feeAsset", string_value(&self.fee_asset));
        }
        assert(view_entries(es@) =~= view_entries(old(es)@) + Self::spec_entry_fee_asset(self@));
    }

    fn write_memo(&self, es: &mut Vec<(String, Json)>)
        ensures
            view_entries(final(es)@) == view_entries(old(es)@) + Self::spec_entry_memo(self@),
    {
        if !self.memo.as_str().is_empty() {
            push_entry(es, "memo", string_value(&self.memo));
        }
        assert(view_entries(es@) =~= view_entries(old(es)@) + Self::spec_entry_memo(self@));
    }

    fn write_bridge_address(&self, es: &mut Vec<(String, Json)>)
        ensures
            view_entries(final(es)@) == view_entries(old(es)@) + Self::spec_entry_bridge_address(self@),
    {
        match &self.bridge_address {
            Some(x) => push_entry(es, "bridgeAddress", embedded_value(x)),
            None => {},
        }
        assert(view_entries(es@) =~= view_entries(old(es)@) + Self::spec_entry_bridge_address(self@));
    }

    fn write_use_compat_address(&self, es: &mut Vec<(String, Json)>)
        ensures
            view_entries(final(es)@) == view_entries(old(es)@) + Self::spec_entry_use_compat_address(self@),
    {
        if self.use_compat_address {
            push_entry(es, "useCompatAddress", Json::Bool(self.use_compat_address));
        }
        assert(view_entries(es@) =~= view_entries(old(es)@) + Self::spec_entry_use_compat_address(self@));
    }

    /// Writes the message as a JSON object; reading it back gives the message.
    pub fn to_json(&self) -> (r: Json)
        ensures
            r@ == Self::spec_to_json(self@),
            Self::spec_from_json(r@) == Ok::<Ics20WithdrawalV, JsonErrorV>(self@),
    {
        let mut es: Vec<(String, Json)> = Vec::new();
        let ghost mut acc: Seq<(Seq<char>, JsonV)> = Seq::empty();
        proof {
            assert(view_entries(es@) =~= acc);
        }
        self.write_amount(&mut es);
        proof {
            acc = acc + Self::spec_entry_amount(self@);
        }
        self.write_denom(&mut es);
        proof {
            acc = acc + Self::spec_entry_denom(self@);
        }
        self.write_destination_chain_address(&mut es);
        proof {
            acc = acc + Self::spec_entry_destination_chain_address(self@);
        }
        self.write_return_address(&mut es);
        proof {
            acc = acc + Self::spec_entry_return_address(self@);
        }
        self.write_timeout_height(&mut es);
        proof {
            acc = acc + Self::spec_entry_timeout_height(self@);
        }
        self.write_timeout_time(&mut es);
        proof {
            acc = acc + Self::spec_entry_timeout_time(self@);
        }
        self.write_source_channel(&mut es);
        proof {
            acc = acc + Self::spec_entry_source_channel(self@);
        }
        self.write_fee_asset(&mut es);
        proof {
            acc = acc + Self::spec_entry_fee_asset(self@);
        }
        self.write_memo(&mut es);
        proof {
            acc = acc + Self::spec_entry_memo(self@);
        }
        self.write_bridge_address(&mut es);
        proof {
            acc = acc + Self::spec_entry_bridge_address(self@);
        }
        self.write_use_compat_address(&mut es);
        proof {
            acc = acc + Self::spec_entry_use_compat_address(self@);
        }
        proof {
            assert(acc =~= Self::spec_entries(self@));
            Self::lemma_json_roundtrip(self@);
        }
        Json::Object(es)
    }

    /// Reads one member of the object into the message under construction; `seen`
    /// records which fields that have no unset state were already given.
    pub open spec fn spec_step(st: (Ics20WithdrawalV, Seq<bool>), key: Seq<char>, v: JsonV) -> Result<(Ics20WithdrawalV, Seq<bool>), JsonErrorV> {
        let m = st.0;
        let seen = st.1;
        if key == "amount"@ {
            if m.amount is Some {
                Err(JsonErrorV::DuplicateField("amount"@))
            } else {
                match read_embedded(v) {
                    Ok(x) => Ok((Ics20WithdrawalV { amount: x, ..m }, seen)),
                    Err(e) => Err(e),
                }
            }
        } else if key == "denom"@ {
            if seen[0] {
                Err(JsonErrorV::DuplicateField("denom"@))
            } else {
                match read_string(v) {
                    Ok(x) => Ok((Ics20WithdrawalV { denom: x, ..m }, seen.update(0, true))),
                    Err(e) => Err(e),
                }
            }
        } else if key == "destinationChainAddress"@ || key == "destination_chain_address"@ {
            if seen[1] {
                Err(JsonErrorV::DuplicateField("destinationChainAddress"@))
            } else {
                match read_string(v) {
                    Ok(x) => Ok((Ics20WithdrawalV { destination_chain_address: x, ..m }, seen.update(1, true))),
                    Err(e) => Err(e),
                }
            }
        } else if key == "returnAddress"@ || key == "return_address"@ {
            if m.return_address is Some {
                Err(JsonErrorV::DuplicateField("returnAddress"@))
            } else {
                match read_embedded(v) {
                    Ok(x) => Ok((Ics20WithdrawalV { return_address: x, ..m }, seen)),
                    Err(e) => Err(e),
                }
            }
        } else if key == "timeoutHeight"@ || key == "timeout_height"@ {
            if m.timeout_height is Some {
                Err(JsonErrorV::DuplicateField("timeoutHeight"@))
            } else {
                match IbcHeight::spec_read_opt(v) {
                    Ok(x) => Ok((Ics20WithdrawalV { timeout_height: x, ..m }, seen)),
                    Err(e) => Err(e),
                }
            }
        } else if key == "timeoutTime"@ || key == "timeout_time"@ {
            if seen[2] {
                Err(JsonErrorV::DuplicateField("timeoutTime"@))
            } else {
                match read_u64(v) {
                    Ok(x) => Ok((Ics20WithdrawalV { timeout_time: x, ..m }, seen.update(2, true))),
                    Err(e) => Err(e),
                }
            }
        } else if key == "sourceChannel"@ || key == "source_channel"@ {
            if seen[3] {
                Err(JsonErrorV::DuplicateField("sourceChannel"@))
            } else {
                match read_string(v) {
                    Ok(x) => Ok((Ics20WithdrawalV { source_channel: x, ..m }, seen.update(3, true))),
                    Err(e) => Err(e),
                }
            }
        } else if key == "feeAsset"@ || key == "fee_asset"@ {
            if seen[4] {
                Err(JsonErrorV::DuplicateField("feeAsset"@))
            } else {
                match read_string(v) {
                    Ok(x) => Ok((Ics20WithdrawalV { fee_asset: x, ..m }, seen.update(4, true))),
                    Err(e) => Err(e),
                }
            }
        } else if key == "memo"@ {
            if seen[5] {
                Err(JsonErrorV::DuplicateField("memo"@))
            } else {
                match read_string(v) {
                    Ok(x) => Ok((Ics20WithdrawalV { memo: x, ..m }, seen.update(5, true))),
                    Err(e) => Err(e),
                }
            }
        } else if key == "bridgeAddress"@ || key == "bridge_address"@ {
            if m.bridge_address is Some {
                Err(JsonErrorV::DuplicateField("bridgeAddress"@))
            } else {
                match read_embedded(v) {
                    Ok(x) => Ok((Ics20WithdrawalV { bridge_address: x, ..m }, seen)),
                    Err(e) => Err(e),
                }
            }
        } else if key == "useCompatAddress"@ || key == "use_compat_address"@ {
            if seen[6] {
                Err(JsonErrorV::DuplicateField("useCompatAddress"@))
            } else {
                match read_bool(v) {
                    Ok(x) => Ok((Ics20WithdrawalV { use_compat_address: x, ..m }, seen.update(6, true))),
                    Err(e) => Err(e),
                }
            }
        } else {
            Err(JsonErrorV::UnknownField(key))
        }
    }

    /// [`Self::spec_step`] as a function value.
    pub open spec fn step_fn() -> spec_fn((Ics20WithdrawalV, Seq<bool>), Seq<char>, JsonV) -> Result<(Ics20WithdrawalV, Seq<bool>), JsonErrorV> {
        |st: (Ics20WithdrawalV, Seq<bool>), key: Seq<char>, v: JsonV| Self::spec_step(st, key, v)
    }

    /// The state before the first member is read: the default message, no field seen.
    pub open spec fn spec_start() -> (Ics20WithdrawalV, Seq<bool>) {
        (Self::spec_default(), seq![false, false, false, false, false, false, false])
    }

    /// The message that a JSON value describes: an object whose keys each name a field
    /// (by its JSON name or its protobuf name), at most once each; fields that are not
    /// given keep their default. The first member that is refused gives the error.
    pub open spec fn spec_from_json(j: JsonV) -> Result<Ics20WithdrawalV, JsonErrorV> {
        match j {
            JsonV::Object(es) => match fold_entries(Self::spec_start(), es, Self::step_fn()) {
                Ok(st) => Ok(st.0),
                Err(e) => Err(e),
            },
            _ => Err(JsonErrorV::ExpectedObject),
        }
    }

    /// [`Self::spec_from_json`] as a function value, for repeated fields.
    pub open spec fn reader() -> spec_fn(JsonV) -> Result<Ics20WithdrawalV, JsonErrorV> {
        |v: JsonV| Self::spec_from_json(v)
    }

    /// An optional field of this message type: `null` leaves it unset.
    pub open spec fn spec_read_opt(v: JsonV) -> Result<Option<Ics20WithdrawalV>, JsonErrorV> {
        match v {
            JsonV::Null => Ok(None),
            _ => match Self::spec_from_json(v) {
                Ok(x) => Ok(Some(x)),
                Err(e) => Err(e),
            },
        }
    }

    fn step(m: Self, seen: Vec<bool>, key: &String, v: &Json) -> (r: Result<(Self, Vec<bool>), JsonError>)
        requires seen@.len() == 7,
        ensures
            match r {
                Ok((m2, seen2)) => Self::spec_step((m@, seen@), key@, v@) == Ok::<(Ics20WithdrawalV, Seq<bool>), JsonErrorV>((m2@, seen2@)) && seen2@.len() == 7,
                Err(e) => Self::spec_step((m@, seen@), key@, v@) == Err::<(Ics20WithdrawalV, Seq<bool>), JsonErrorV>(e@),
            },
    {
        let mut m = m;
        let mut seen = seen;
        let k = key.as_str();
        if str_eq(k, "amount") {
            if m.amount.is_some() {
                return Err(JsonError::DuplicateField("amount".to_string()));
            }
            match embedded_field(v) {
                Ok(x) => m.amount = x,
                Err(e) => return Err(e),
            }
        } else if str_eq(k, "denom") {
            if seen[0] {
                return Err(JsonError::DuplicateField("denom".to_string()));
            }
            match string_field(v) {
                Ok(x) => m.denom = x,
                Err(e) => return Err(e),
            }
            seen.set(0, true);
        } else if str_eq(k, "destinationChainAddress") || str_eq(k, "destination_chain_address") {
            if seen[1] {
                return Err(JsonError::DuplicateField("destinationChainAddress".to_string()));
            }
            match string_field(v) {
                Ok(x) => m.destination_chain_address = x,
                Err(e) => return Err(e),
            }
            seen.set(1, true);
        } else if str_eq(k, "returnAddress") || str_eq(k, "return_address") {
            if m.return_address.is_some() {
                return Err(JsonError::DuplicateField("returnAddress".to_string()));
            }
            match embedded_field(v) {
                Ok(x) => m.return_address = x,
                Err(e) => return Err(e),
            }
        } else if str_eq(k, "timeoutHeight") || str_eq(k, "timeout_height") {
            if m.timeout_height.is_some() {
                return Err(JsonError::DuplicateField("timeoutHeight".to_string()));
            }
            match IbcHeight::opt_from_json(v) {
                Ok(x) => m.timeout_height = x,
                Err(e) => return Err(e),
            }
        } else if str_eq(k, "timeoutTime") || str_eq(k, "timeout_time") {
            if seen[2] {
                return Err(JsonError::DuplicateField("timeoutTime".to_string()));
            }
            match u64_field(v) {
                Ok(x) => m.timeout_time = x,
                Err(e) => return Err(e),
            }
            seen.set(2, true);
        } else if str_eq(k, "sourceChannel") || str_eq(k, "source_channel") {
            if seen[3] {
                return Err(JsonError::DuplicateField("sourceChannel".to_string()));
            }
            match string_field(v) {
                Ok(x) => m.source_channel = x,
                Err(e) => return Err(e),
            }
            seen.set(3, true);
        } else if str_eq(k, "feeAsset") || str_eq(k, "fee_asset") {
            if seen[4] {
                return Err(JsonError::DuplicateField("feeAsset".to_string()));
            }
            match string_field(v) {
                Ok(x) => m.fee_asset = x,
                Err(e) => return Err(e),
            }
            seen.set(4, true);
        } else if str_eq(k, "memo") {
            if seen[5] {
                return Err(JsonError::DuplicateField("memo".to_string()));
            }
            match string_field(v) {
                Ok(x) => m.memo = x,
                Err(e) => return Err(e),
            }
            seen.set(5, true);
        } else if str_eq(k, "bridgeAddress") || str_eq(k, "bridge_address") {
            if m.bridge_address.is_some() {
                return Err(JsonError::DuplicateField("bridgeAddress".to_string()));
            }
            match embedded_field(v) {
                Ok(x) => m.bridge_address = x,
                Err(e) => return Err(e),
            }
        } else if str_eq(k, "useCompatAddress") || str_eq(k, "use_compat_address") {
            if seen[6] {
                return Err(JsonError::DuplicateField("useCompatAddress".to_string()));
            }
            match bool_field(v) {
                Ok(x) => m.use_compat_address = x,
                Err(e) => return Err(e),
            }
            seen.set(6, true);
        } else {
            return Err(JsonError::UnknownField(key.clone()));
        }
        Ok((m, seen))
    }

    /// Reads the message from a JSON value, as [`Self::spec_from_json`] describes.
    pub fn from_json(j: &Json) -> (r: Result<Self, JsonError>)
        ensures
            match r {
                Ok(m) => Self::spec_from_json(j@) == Ok::<Ics20WithdrawalV, JsonErrorV>(m@),
                Err(e) => Self::spec_from_json(j@) == Err::<Ics20WithdrawalV, JsonErrorV>(e@),
            },
    {
        let es = match j {
            Json::Object(es) => es,
            _ => return Err(JsonError::ExpectedObject),
        };
        let ghost ves = view_entries(es@);
        proof {
            lemma_view_entries_len(es@);
            assert(j@ == JsonV::Object(ves));
        }
        let mut m = Self::default();
        let mut seen: Vec<bool> = vec![false, false, false, false, false, false, false];
        let mut i: usize = 0;
        proof {
            assert(seen@ =~= Self::spec_start().1);
            assert(ves.skip(0) == ves);
        }
        while i < es.len()
            invariant
                j@ == JsonV::Object(ves),
                ves == view_entries(es@),
                ves.len() == es@.len(),
                i <= es.len(),
                seen@.len() == 7,
                fold_entries(Self::spec_start(), ves, Self::step_fn())
                    == fold_entries((m@, seen@), ves.skip(i as int), Self::step_fn()),
            decreases es.len() - i,
        {
            proof {
                lemma_view_entries_index(es@, i as int);
                lemma_fold_entries_step((m@, seen@), ves, i as int, Self::step_fn());
            }
            match Self::step(m, seen, &es[i].0, &es[i].1) {
                Ok((m2, seen2)) => {
                    m = m2;
                    seen = seen2;
                },
                Err(e) => return Err(e),
            }
            i = i + 1;
        }
        proof {
            assert(ves.skip(ves.len() as int) == Seq::<(Seq<char>, JsonV)>::empty());
            assert(fold_entries((m@, seen@), ves.skip(ves.len() as int), Self::step_fn())
                == Ok::<(Ics20WithdrawalV, Seq<bool>), JsonErrorV>((m@, seen@)));
        }
        Ok(m)
    }

    /// Reads an optional field of this message type.
    pub fn opt_from_json(v: &Json) -> (r: Result<Option<Self>, JsonError>)
        ensures
            match r {
                Ok(None) => Self::spec_read_opt(v@) == Ok::<Option<Ics20WithdrawalV>, JsonErrorV>(None),
                Ok(Some(x)) => Self::spec_read_opt(v@) == Ok::<Option<Ics20WithdrawalV>, JsonErrorV>(Some(x@)),
                Err(e) => Self::spec_read_opt(v@) == Err::<Option<Ics20WithdrawalV>, JsonErrorV>(e@),
            },
    {
        match v {
            Json::Null => Ok(None),
            _ => match Self::from_json(v) {
                Ok(x) => Ok(Some(x)),
                Err(e) => Err(e),
            },
        }
    }

    /// Reading the member that the field `amount` writes sets the field.
    pub proof fn lemma_entry_amount(m: Ics20WithdrawalV, st: (Ics20WithdrawalV, Seq<bool>))
        requires
            st.1.len() == 7,
            st.0.amount is None,
        ensures
            fold_entries(st, Self::spec_entry_amount(m), Self::step_fn()) == Ok::<(Ics20WithdrawalV, Seq<bool>), JsonErrorV>((Ics20WithdrawalV { amount: m.amount, ..st.0 }, st.1)),
    {
        reveal_strlit("amount");
        reveal_strlit("denom");
        reveal_strlit("destinationChainAddress");
        reveal_strlit("destination_chain_address");
        reveal_strlit("returnAddress");
        reveal_strlit("return_address");
        reveal_strlit("timeoutHeight");
        reveal_strlit("timeout_height");
        reveal_strlit("timeoutTime");
        reveal_strlit("timeout_time");
        reveal_strlit("sourceChannel");
        reveal_strlit("source_channel");
        reveal_strlit("feeAsset");
        reveal_strlit("fee_asset");
        reveal_strlit("memo");
        reveal_strlit("bridgeAddress");
        reveal_strlit("bridge_address");
        reveal_strlit("useCompatAddress");
        reveal_strlit("use_compat_address");
        assert("amount"@.len() == 6);
        assert("denom"@.len() == 5);
        assert("destinationChainAddress"@.len() == 23);
        assert("destination_chain_address"@.len() == 25);
        assert("returnAddress"@.len() == 13);
        assert("return_address"@.len() == 14);
        assert("timeoutHeight"@.len() == 13);
        assert("timeout_height"@.len() == 14);
        assert("timeoutTime"@.len() == 11);
        assert("timeout_time"@.len() == 12);
        assert("sourceChannel"@.len() == 13);
        assert("source_channel"@.len() == 14);
        assert("feeAsset"@.len() == 8);
        assert("fee_asset"@.len() == 9);
        assert("memo"@.len() == 4);
        assert("bridgeAddress"@.len() == 13);
        assert("bridge_address"@.len() == 14);
        assert("useCompatAddress"@.len() == 16);
        assert("use_compat_address"@.len() == 18);
        assert("returnAddress"@[0] != "timeoutHeight"@[0]);
        assert("returnAddress"@[0] != "sourceChannel"@[0]);
        assert("returnAddress"@[0] != "bridgeAddress"@[0]);
        assert("return_address"@[0] != "timeout_height"@[0]);
        assert("return_address"@[0] != "source_channel"@[0]);
        assert("return_address"@[0] != "bridge_address"@[0]);
        assert("timeoutHeight"@[0] != "sourceChannel"@[0]);
        assert("timeoutHeight"@[0] != "bridgeAddress"@[0]);
        assert("timeout_height"@[0] != "source_channel"@[0]);
        assert("timeout_height"@[0] != "bridge_address"@[0]);
        assert("sourceChannel"@[0] != "bridgeAddress"@[0]);
        assert("source_channel"@[0] != "bridge_address"@[0]);
        lemma_fold_entry_if(st, m.amount is Some, "amount"@, JsonV::Object(m.amount.unwrap()), Self::step_fn());
    }

    /// Reading the member that the field `denom` writes sets the field.
    pub proof fn lemma_entry_denom(m: Ics20WithdrawalV, st: (Ics20WithdrawalV, Seq<bool>))
        requires
            st.1.len() == 7,
            !st.1[0],
            st.0.denom == Seq::<char>::empty(),
        ensures
            fold_entries(st, Self::spec_entry_denom(m), Self::step_fn()) == Ok::<(Ics20WithdrawalV, Seq<bool>), JsonErrorV>((Ics20WithdrawalV { denom: m.denom, ..st.0 }, if m.denom.len() != 0 { st.1.update(0, true) } else { st.1 })),
    {
        reveal_strlit("amount");
        reveal_strlit("denom");
        reveal_strlit("destinationChainAddress");
        reveal_strlit("destination_chain_address");
        reveal_strlit("returnAddress");
        reveal_strlit("return_address");
        reveal_strlit("timeoutHeight");
        reveal_strlit("timeout_height");
        reveal_strlit("timeoutTime");
        reveal_strlit("timeout_time");
        reveal_strlit("sourceChannel");
        reveal_strlit("source_channel");
        reveal_strlit("feeAsset");
        reveal_strlit("fee_asset");
        reveal_strlit("memo");
        reveal_strlit("bridgeAddress");
        reveal_strlit("bridge_address");
        reveal_strlit("useCompatAddress");
        reveal_strlit("use_compat_address");
        assert("amount"@.len() == 6);
        assert("denom"@.len() == 5);
        assert("destinationChainAddress"@.len() == 23);
        assert("destination_chain_address"@.len() == 25);
        assert("returnAddress"@.len() == 13);
        assert("return_address"@.len() == 14);
        assert("timeoutHeight"@.len() == 13);
        assert("timeout_height"@.len() == 14);
        assert("timeoutTime"@.len() == 11);
        assert("timeout_time"@.len() == 12);
        assert("sourceChannel"@.len() == 13);
        assert("source_channel"@.len() == 14);
        assert("feeAsset"@.len() == 8);
        assert("fee_asset"@.len() == 9);
        assert("memo"@.len() == 4);
        assert("bridgeAddress"@.len() == 13);
        assert("bridge_address"@.len() == 14);
        assert("useCompatAddress"@.len() == 16);
        assert("use_compat_address"@.len() == 18);
        assert("returnAddress"@[0] != "timeoutHeight"@[0]);
        assert("returnAddress"@[0] != "sourceChannel"@[0]);
        assert("returnAddress"@[0] != "bridgeAddress"@[0]);
        assert("return_address"@[0] != "timeout_height"@[0]);
        assert("return_address"@[0] != "source_channel"@[0]);
        assert("return_address"@[0] != "bridge_address"@[0]);
        assert("timeoutHeight"@[0] != "sourceChannel"@[0]);
        assert("timeoutHeight"@[0] != "bridgeAddress"@[0]);
        assert("timeout_height"@[0] != "source_channel"@[0]);
        assert("timeout_height"@[0] != "bridge_address"@[0]);
        assert("sourceChannel"@[0] != "bridgeAddress"@[0]);
        assert("source_channel"@[0] != "bridge_address"@[0]);
        if m.denom.len() == 0 {
            assert(m.denom =~= Seq::<char>::empty());
        }
        lemma_fold_entry_if(st, m.denom.len() != 0, "denom"@, JsonV::Str(m.denom), Self::step_fn());
    }

    /// Reading the member that the field `destination_chain_address` writes sets the field.
    pub proof fn lemma_entry_destination_chain_address(m: Ics20WithdrawalV, st: (Ics20WithdrawalV, Seq<bool>))
        requires
            st.1.len() == 7,
            !st.1[1],
            st.0.destination_chain_address == Seq::<char>::empty(),
        ensures
            fold_entries(st, Self::spec_entry_destination_chain_address(m), Self::step_fn()) == Ok::<(Ics20WithdrawalV, Seq<bool>), JsonErrorV>((Ics20WithdrawalV { destination_chain_address: m.destination_chain_address, ..st.0 }, if m.destination_chain_address.len() != 0 { st.1.update(1, true) } else { st.1 })),
    {
        reveal_strlit("amount");
        reveal_strlit("denom");
        reveal_strlit("destinationChainAddress");
        reveal_strlit("destination_chain_address");
        reveal_strlit("returnAddress");
        reveal_strlit("return_address");
        reveal_strlit("timeoutHeight");
        reveal_strlit("timeout_height");
        reveal_strlit("timeoutTime");
        reveal_strlit("timeout_time");
        reveal_strlit("sourceChannel");
        reveal_strlit("source_channel");
        reveal_strlit("feeAsset");
        reveal_strlit("fee_asset");
        reveal_strlit("memo");
        reveal_strlit("bridgeAddress");
        reveal_strlit("bridge_address");
        reveal_strlit("useCompatAddress");
        reveal_strlit("use_compat_address");
        assert("amount"@.len() == 6);
        assert("denom"@.len() == 5);
        assert("destinationChainAddress"@.len() == 23);
        assert("destination_chain_address"@.len() == 25);
        assert("returnAddress"@.len() == 13);
        assert("return_address"@.len() == 14);
        assert("timeoutHeight"@.len() == 13);
        assert("timeout_height"@.len() == 14);
        assert("timeoutTime"@.len() == 11);
        assert("timeout_time"@.len() == 12);
        assert("sourceChannel"@.len() == 13);
        assert("source_channel"@.len() == 14);
        assert("feeAsset"@.len() == 8);
        assert("fee_asset"@.len() == 9);
        assert("memo"@.len() == 4);
        assert("bridgeAddress"@.len() == 13);
        assert("bridge_address"@.len() == 14);
        assert("useCompatAddress"@.len() == 16);
        assert("use_compat_address"@.len() == 18);
        assert("returnAddress"@[0] != "timeoutHeight"@[0]);
        assert("returnAddress"@[0] != "sourceChannel"@[0]);
        assert("returnAddress"@[0] != "bridgeAddress"@[0]);
        assert("return_address"@[0] != "timeout_height"@[0]);
        assert("return_address"@[0] != "source_channel"@[0]);
        assert("return_address"@[0] != "bridge_address"@[0]);
        assert("timeoutHeight"@[0] != "sourceChannel"@[0]);
        assert("timeoutHeight"@[0] != "bridgeAddress"@[0]);
        assert("timeout_height"@[0] != "source_channel"@[0]);
        assert("timeout_height"@[0] != "bridge_address"@[0]);
        assert("sourceChannel"@[0] != "bridgeAddress"@[0]);
        assert("source_channel"@[0] != "bridge_address"@[0]);
        if m.destination_chain_address.len() == 0 {
            assert(m.destination_chain_address =~= Seq::<char>::empty());
        }
        lemma_fold_entry_if(st, m.destination_chain_address.len() != 0, "destinationChainAddress"@, JsonV::Str(m.destination_chain_address), Self::step_fn());
    }

    /// Reading the member that the field `return_address` writes sets the field.
    pub proof fn lemma_entry_return_address(m: Ics20WithdrawalV, st: (Ics20WithdrawalV, Seq<bool>))
        requires
            st.1.len() == 7,
            st.0.return_address is None,
        ensures
            fold_entries(st, Self::spec_entry_return_address(m), Self::step_fn()) == Ok::<(Ics20WithdrawalV, Seq<bool>), JsonErrorV>((Ics20WithdrawalV { return_address: m.return_address, ..st.0 }, st.1)),
    {
        reveal_strlit("amount");
        reveal_strlit("denom");
        reveal_strlit("destinationChainAddress");
        reveal_strlit("destination_chain_address");
        reveal_strlit("returnAddress");
        reveal_strlit("return_address");
        reveal_strlit("timeoutHeight");
        reveal_strlit("timeout_height");
        reveal_strlit("timeoutTime");
        reveal_strlit("timeout_time");
        reveal_strlit("sourceChannel");
        reveal_strlit("source_channel");
        reveal_strlit("feeAsset");
        reveal_strlit("fee_asset");
        reveal_strlit("memo");
        reveal_strlit("bridgeAddress");
        reveal_strlit("bridge_address");
        reveal_strlit("useCompatAddress");
        reveal_strlit("use_compat_address");
        assert("amount"@.len() == 6);
        assert("denom"@.len() == 5);
        assert("destinationChainAddress"@.len() == 23);
        assert("destination_chain_address"@.len() == 25);
        assert("returnAddress"@.len() == 13);
        assert("return_address"@.len() == 14);
        assert("timeoutHeight"@.len() == 13);
        assert("timeout_height"@.len() == 14);
        assert("timeoutTime"@.len() == 11);
        assert("timeout_time"@.len() == 12);
        assert("sourceChannel"@.len() == 13);
        assert("source_channel"@.len() == 14);
        assert("feeAsset"@.len() == 8);
        assert("fee_asset"@.len() == 9);
        assert("memo"@.len() == 4);
        assert("bridgeAddress"@.len() == 13);
        assert("bridge_address"@.len() == 14);
        assert("useCompatAddress"@.len() == 16);
        assert("use_compat_address"@.len() == 18);
        assert("returnAddress"@[0] != "timeoutHeight"@[0]);
        assert("returnAddress"@[0] != "sourceChannel"@[0]);
        assert("returnAddress"@[0] != "bridgeAddress"@[0]);
        assert("return_address"@[0] != "timeout_height"@[0]);
        assert("return_address"@[0] != "source_channel"@[0]);
        assert("return_address"@[0] != "bridge_address"@[0]);
        assert("timeoutHeight"@[0] != "sourceChannel"@[0]);
        assert("timeoutHeight"@[0] != "bridgeAddress"@[0]);
        assert("timeout_height"@[0] != "source_channel"@[0]);
        assert("timeout_height"@[0] != "bridge_address"@[0]);
        assert("sourceChannel"@[0] != "bridgeAddress"@[0]);
        assert("source_channel"@[0] != "bridge_address"@[0]);
        lemma_fold_entry_if(st, m.return_address is Some, "returnAddress"@, JsonV::Object(m.return_address.unwrap()), Self::step_fn());
    }

    /// Reading the member that the field `timeout_height` writes sets the field.
    pub proof fn lemma_entry_timeout_height(m: Ics20WithdrawalV, st: (Ics20WithdrawalV, Seq<bool>))
        requires
            st.1.len() == 7,
            st.0.timeout_height is None,
        ensures
            fold_entries(st, Self::spec_entry_timeout_height(m), Self::step_fn()) == Ok::<(Ics20WithdrawalV, Seq<bool>), JsonErrorV>((Ics20WithdrawalV { timeout_height: m.timeout_height, ..st.0 }, st.1)),
    {
        reveal_strlit("amount");
        reveal_strlit("denom");
        reveal_strlit("destinationChainAddress");
        reveal_strlit("destination_chain_address");
        reveal_strlit("returnAddress");
        reveal_strlit("return_address");
        reveal_strlit("timeoutHeight");
        reveal_strlit("timeout_height");
        reveal_strlit("timeoutTime");
        reveal_strlit("timeout_time");
        reveal_strlit("sourceChannel");
        reveal_strlit("source_channel");
        reveal_strlit("feeAsset");
        reveal_strlit("fee_asset");
        reveal_strlit("memo");
        reveal_strlit("bridgeAddress");
        reveal_strlit("bridge_address");
        reveal_strlit("useCompatAddress");
        reveal_strlit("use_compat_address");
        assert("amount"@.len() == 6);
        assert("denom"@.len() == 5);
        assert("destinationChainAddress"@.len() == 23);
        assert("destination_chain_address"@.len() == 25);
        assert("returnAddress"@.len() == 13);
        assert("return_address"@.len() == 14);
        assert("timeoutHeight"@.len() == 13);
        assert("timeout_height"@.len() == 14);
        assert("timeoutTime"@.len() == 11);
        assert("timeout_time"@.len() == 12);
        assert("sourceChannel"@.len() == 13);
        assert("source_channel"@.len() == 14);
        assert("feeAsset"@.len() == 8);
        assert("fee_asset"@.len() == 9);
        assert("memo"@.len() == 4);
        assert("bridgeAddress"@.len() == 13);
        assert("bridge_address"@.len() == 14);
        assert("useCompatAddress"@.len() == 16);
        assert("use_compat_address"@.len() == 18);
        assert("returnAddress"@[0] != "timeoutHeight"@[0]);
        assert("returnAddress"@[0] != "sourceChannel"@[0]);
        assert("returnAddress"@[0] != "bridgeAddress"@[0]);
        assert("return_address"@[0] != "timeout_height"@[0]);
        assert("return_address"@[0] != "source_channel"@[0]);
        assert("return_address"@[0] != "bridge_address"@[0]);
        assert("timeoutHeight"@[0] != "sourceChannel"@[0]);
        assert("timeoutHeight"@[0] != "bridgeAddress"@[0]);
        assert("timeout_height"@[0] != "source_channel"@[0]);
        assert("timeout_height"@[0] != "bridge_address"@[0]);
        assert("sourceChannel"@[0] != "bridgeAddress"@[0]);
        assert("source_channel"@[0] != "bridge_address"@[0]);
        if m.timeout_height is Some {
            IbcHeight::lemma_json_roundtrip(m.timeout_height.unwrap());
        }
        lemma_fold_entry_if(st, m.timeout_height is Some, "timeoutHeight"@, IbcHeight::spec_to_json(m.timeout_height.unwrap()), Self::step_fn());
    }

    /// Reading the member that the field `timeout_time` writes sets the field.
    pub proof fn lemma_entry_timeout_time(m: Ics20WithdrawalV, st: (Ics20WithdrawalV, Seq<bool>))
        requires
            st.1.len() == 7,
            !st.1[2],
            st.0.timeout_time == 0,
        ensures
            fold_entries(st, Self::spec_entry_timeout_time(m), Self::step_fn()) == Ok::<(Ics20WithdrawalV, Seq<bool>), JsonErrorV>((Ics20WithdrawalV { timeout_time: m.timeout_time, ..st.0 }, if m.timeout_time != 0 { st.1.update(2, true) } else { st.1 })),
    {
        reveal_strlit("amount");
        reveal_strlit("denom");
        reveal_strlit("destinationChainAddress");
        reveal_strlit("destination_chain_address");
        reveal_strlit("returnAddress");
        reveal_strlit("return_address");
        reveal_strlit("timeoutHeight");
        reveal_strlit("timeout_height");
        reveal_strlit("timeoutTime");
        reveal_strlit("timeout_time");
        reveal_strlit("sourceChannel");
        reveal_strlit("source_channel");
        reveal_strlit("feeAsset");
        reveal_strlit("fee_asset");
        reveal_strlit("memo");
        reveal_strlit("bridgeAddress");
        reveal_strlit("bridge_address");
        reveal_strlit("useCompatAddress");
        reveal_strlit("use_compat_address");
        assert("amount"@.len() == 6);
        assert("denom"@.len() == 5);
        assert("destinationChainAddress"@.len() == 23);
        assert("destination_chain_address"@.len() == 25);
        assert("returnAddress"@.len() == 13);
        assert("return_address"@.len() == 14);
        assert("timeoutHeight"@.len() == 13);
        assert("timeout_height"@.len() == 14);
        assert("timeoutTime"@.len() == 11);
        assert("timeout_time"@.len() == 12);
        assert("sourceChannel"@.len() == 13);
        assert("source_channel"@.len() == 14);
        assert("feeAsset"@.len() == 8);
        assert("fee_asset"@.len() == 9);
        assert("memo"@.len() == 4);
        assert("bridgeAddress"@.len() == 13);
        assert("bridge_address"@.len() == 14);
        assert("useCompatAddress"@.len() == 16);
        assert("use_compat_address"@.len() == 18);
        assert("returnAddress"@[0] != "timeoutHeight"@[0]);
        assert("returnAddress"@[0] != "sourceChannel"@[0]);
        assert("returnAddress"@[0] != "bridgeAddress"@[0]);
        assert("return_address"@[0] != "timeout_height"@[0]);
        assert("return_address"@[0] != "source_channel"@[0]);
        assert("return_address"@[0] != "bridge_address"@[0]);
        assert("timeoutHeight"@[0] != "sourceChannel"@[0]);
        assert("timeoutHeight"@[0] != "bridgeAddress"@[0]);
        assert("timeout_height"@[0] != "source_channel"@[0]);
        assert("timeout_height"@[0] != "bridge_address"@[0]);
        assert("sourceChannel"@[0] != "bridgeAddress"@[0]);
        assert("source_channel"@[0] != "bridge_address"@[0]);
        lemma_read_u64_value(m.timeout_time);
        lemma_fold_entry_if(st, m.timeout_time != 0, "timeoutTime"@, JsonV::Str(decimal(m.timeout_time as nat)), Self::step_fn());
    }

    /// Reading the member that the field `source_channel` writes sets the field.
    pub proof fn lemma_entry_source_channel(m: Ics20WithdrawalV, st: (Ics20WithdrawalV, Seq<bool>))
        requires
            st.1.len() == 7,
            !st.1[3],
            st.0.source_channel == Seq::<char>::empty(),
        ensures
            fold_entries(st, Self::spec_entry_source_channel(m), Self::step_fn()) == Ok::<(Ics20WithdrawalV, Seq<bool>), JsonErrorV>((Ics20WithdrawalV { source_channel: m.source_channel, ..st.0 }, if m.source_channel.len() != 0 { st.1.update(3, true) } else { st.1 })),
    {
        reveal_strlit("amount");
        reveal_strlit("denom");
        reveal_strlit("destinationChainAddress");
        reveal_strlit("destination_chain_address");
        reveal_strlit("returnAddress");
        reveal_strlit("return_address");
        reveal_strlit("timeoutHeight");
        reveal_strlit("timeout_height");
        reveal_strlit("timeoutTime");
        reveal_strlit("timeout_time");
        reveal_strlit("sourceChannel");
        reveal_strlit("source_channel");
        reveal_strlit("feeAsset");
        reveal_strlit("fee_asset");
        reveal_strlit("memo");
        reveal_strlit("bridgeAddress");
        reveal_strlit("bridge_address");
        reveal_strlit("useCompatAddress");
        reveal_strlit("use_compat_address");
        assert("amount"@.len() == 6);
        assert("denom"@.len() == 5);
        assert("destinationChainAddress"@.len() == 23);
        assert("destination_chain_address"@.len() == 25);
        assert("returnAddress"@.len() == 13);
        assert("return_address"@.len() == 14);
        assert("timeoutHeight"@.len() == 13);
        assert("timeout_height"@.len() == 14);
        assert("timeoutTime"@.len() == 11);
        assert("timeout_time"@.len() == 12);
        assert("sourceChannel"@.len() == 13);
        assert("source_channel"@.len() == 14);
        assert("feeAsset"@.len() == 8);
        assert("fee_asset"@.len() == 9);
        assert("memo"@.len() == 4);
        assert("bridgeAddress"@.len() == 13);
        assert("bridge_address"@.len() == 14);
        assert("useCompatAddress"@.len() == 16);
        assert("use_compat_address"@.len() == 18);
        assert("returnAddress"@[0] != "timeoutHeight"@[0]);
        assert("returnAddress"@[0] != "sourceChannel"@[0]);
        assert("returnAddress"@[0] != "bridgeAddress"@[0]);
        assert("return_address"@[0] != "timeout_height"@[0]);
        assert("return_address"@[0] != "source_channel"@[0]);
        assert("return_address"@[0] != "bridge_address"@[0]);
        assert("timeoutHeight"@[0] != "sourceChannel"@[0]);
        assert("timeoutHeight"@[0] != "bridgeAddress"@[0]);
        assert("timeout_height"@[0] != "source_channel"@[0]);
        assert("timeout_height"@[0] != "bridge_address"@[0]);
        assert("sourceChannel"@[0] != "bridgeAddress"@[0]);
        assert("source_channel"@[0] != "bridge_address"@[0]);
        if m.source_channel.len() == 0 {
            assert(m.source_channel =~= Seq::<char>::empty());
        }
        lemma_fold_entry_if(st, m.source_channel.len() != 0, "sourceChannel"@, JsonV::Str(m.source_channel), Self::step_fn());
    }

    /// Reading the member that the field `fee_asset` writes sets the field.
    pub proof fn lemma_entry_fee_asset(m: Ics20WithdrawalV, st: (Ics20WithdrawalV, Seq<bool>))
        requires
            st.1.len() == 7,
            !st.1[4],
            st.0.fee_asset == Seq::<char>::empty(),
        ensures
            fold_entries(st, Self::spec_entry_fee_asset(m), Self::step_fn()) == Ok::<(Ics20WithdrawalV, Seq<bool>), JsonErrorV>((Ics20WithdrawalV { fee_asset: m.fee_asset, ..st.0 }, if m.fee_asset.len() != 0 { st.1.update(4, true) } else { st.1 })),
    {
        reveal_strlit("amount");
        reveal_strlit("denom");
        reveal_strlit("destinationChainAddress");
        reveal_strlit("destination_chain_address");
        reveal_strlit("returnAddress");
        reveal_strlit("return_address");
        reveal_strlit("timeoutHeight");
        reveal_strlit("timeout_height");
        reveal_strlit("timeoutTime");
        reveal_strlit("timeout_time");
        reveal_strlit("sourceChannel");
        reveal_strlit("source_channel");
        reveal_strlit("feeAsset");
        reveal_strlit("fee_asset");
        reveal_strlit("memo");
        reveal_strlit("bridgeAddress");
        reveal_strlit("bridge_address");
        reveal_strlit("useCompatAddress");
        reveal_strlit("use_compat_address");
        assert("amount"@.len() == 6);
        assert("denom"@.len() == 5);
        assert("destinationChainAddress"@.len() == 23);
        assert("destination_chain_address"@.len() == 25);
        assert("returnAddress"@.len() == 13);
        assert("return_address"@.len() == 14);
        assert("timeoutHeight"@.len() == 13);
        assert("timeout_height"@.len() == 14);
        assert("timeoutTime"@.len() == 11);
        assert("timeout_time"@.len() == 12);
        assert("sourceChannel"@.len() == 13);
        assert("source_channel"@.len() == 14);
        assert("feeAsset"@.len() == 8);
        assert("fee_asset"@.len() == 9);
        assert("memo"@.len() == 4);
        assert("bridgeAddress"@.len() == 13);
        assert("bridge_address"@.len() == 14);
        assert("useCompatAddress"@.len() == 16);
        assert("use_compat_address"@.len() == 18);
        assert("returnAddress"@[0] != "timeoutHeight"@[0]);
        assert("returnAddress"@[0] != "sourceChannel"@[0]);
        assert("returnAddress"@[0] != "bridgeAddress"@[0]);
        assert("return_address"@[0] != "timeout_height"@[0]);
        assert("return_address"@[0] != "source_channel"@[0]);
        assert("return_address"@[0] != "bridge_address"@[0]);
        assert("timeoutHeight"@[0] != "sourceChannel"@[0]);
        assert("timeoutHeight"@[0] != "bridgeAddress"@[0]);
        assert("timeout_height"@[0] != "source_channel"@[0]);
        assert("timeout_height"@[0] != "bridge_address"@[0]);
        assert("sourceChannel"@[0] != "bridgeAddress"@[0]);
        assert("source_channel"@[0] != "bridge_address"@[0]);
        if m.fee_asset.len() == 0 {
            assert(m.fee_asset =~= Seq::<char>::empty());
        }
        lemma_fold_entry_if(st, m.fee_asset.len() != 0, "feeAsset"@, JsonV::Str(m.fee_asset), Self::step_fn());
    }

    /// Reading the member that the field `memo` writes sets the field.
    pub proof fn lemma_entry_memo(m: Ics20WithdrawalV, st: (Ics20WithdrawalV, Seq<bool>))
        requires
            st.1.len() == 7,
            !st.1[5],
            st.0.memo == Seq::<char>::empty(),
        ensures
            fold_entries(st, Self::spec_entry_memo(m), Self::step_fn()) == Ok::<(Ics20WithdrawalV, Seq<bool>), JsonErrorV>((Ics20WithdrawalV { memo: m.memo, ..st.0 }, if m.memo.len() != 0 { st.1.update(5, true) } else { st.1 })),
    {
        reveal_strlit("amount");
        reveal_strlit("denom");
        reveal_strlit("destinationChainAddress");
        reveal_strlit("destination_chain_address");
        reveal_strlit("returnAddress");
        reveal_strlit("return_address");
        reveal_strlit("timeoutHeight");
        reveal_strlit("timeout_height");
        reveal_strlit("timeoutTime");
        reveal_strlit("timeout_time");
        reveal_strlit("sourceChannel");
        reveal_strlit("source_channel");
        reveal_strlit("feeAsset");
        reveal_strlit("fee_asset");
        reveal_strlit("memo");
        reveal_strlit("bridgeAddress");
        reveal_strlit("bridge_address");
        reveal_strlit("useCompatAddress");
        reveal_strlit("use_compat_address");
        assert("amount"@.len() == 6);
        assert("denom"@.len() == 5);
        assert("destinationChainAddress"@.len() == 23);
        assert("destination_chain_address"@.len() == 25);
        assert("returnAddress"@.len() == 13);
        assert("return_address"@.len() == 14);
        assert("timeoutHeight"@.len() == 13);
        assert("timeout_height"@.len() == 14);
        assert("timeoutTime"@.len() == 11);
        assert("timeout_time"@.len() == 12);
        assert("sourceChannel"@.len() == 13);
        assert("source_channel"@.len() == 14);
        assert("feeAsset"@.len() == 8);
        assert("fee_asset"@.len() == 9);
        assert("memo"@.len() == 4);
        assert("bridgeAddress"@.len() == 13);
        assert("bridge_address"@.len() == 14);
        assert("useCompatAddress"@.len() == 16);
        assert("use_compat_address"@.len() == 18);
        assert("returnAddress"@[0] != "timeoutHeight"@[0]);
        assert("returnAddress"@[0] != "sourceChannel"@[0]);
        assert("returnAddress"@[0] != "bridgeAddress"@[0]);
        assert("return_address"@[0] != "timeout_height"@[0]);
        assert("return_address"@[0] != "source_channel"@[0]);
        assert("return_address"@[0] != "bridge_address"@[0]);
        assert("timeoutHeight"@[0] != "sourceChannel"@[0]);
        assert("timeoutHeight"@[0] != "bridgeAddress"@[0]);
        assert("timeout_height"@[0] != "source_channel"@[0]);
        assert("timeout_height"@[0] != "bridge_address"@[0]);
        assert("sourceChannel"@[0] != "bridgeAddress"@[0]);
        assert("source_channel"@[0] != "bridge_address"@[0]);
        if m.memo.len() == 0 {
            assert(m.memo =~= Seq::<char>::empty());
        }
        lemma_fold_entry_if(st, m.memo.len() != 0, "memo"@, JsonV::Str(m.memo), Self::step_fn());
    }

    /// Reading the member that the field `bridge_address` writes sets the field.
    pub proof fn lemma_entry_bridge_address(m: Ics20WithdrawalV, st: (Ics20WithdrawalV, Seq<bool>))
        requires
            st.1.len() == 7,
            st.0.bridge_address is None,
        ensures
            fold_entries(st, Self::spec_entry_bridge_address(m), Self::step_fn()) == Ok::<(Ics20WithdrawalV, Seq<bool>), JsonErrorV>((Ics20WithdrawalV { bridge_address: m.bridge_address, ..st.0 }, st.1)),
    {
        reveal_strlit("amount");
        reveal_strlit("denom");
        reveal_strlit("destinationChainAddress");
        reveal_strlit("destination_chain_address");
        reveal_strlit("returnAddress");
        reveal_strlit("return_address");
        reveal_strlit("timeoutHeight");
        reveal_strlit("timeout_height");
        reveal_strlit("timeoutTime");
        reveal_strlit("timeout_time");
        reveal_strlit("sourceChannel");
        reveal_strlit("source_channel");
        reveal_strlit("feeAsset");
        reveal_strlit("fee_asset");
        reveal_strlit("memo");
        reveal_strlit("bridgeAddress");
        reveal_strlit("bridge_address");
        reveal_strlit("useCompatAddress");
        reveal_strlit("use_compat_address");
        assert("amount"@.len() == 6);
        assert("denom"@.len() == 5);
        assert("destinationChainAddress"@.len() == 23);
        assert("destination_chain_address"@.len() == 25);
        assert("returnAddress"@.len() == 13);
        assert("return_address"@.len() == 14);
        assert("timeoutHeight"@.len() == 13);
        assert("timeout_height"@.len() == 14);
        assert("timeoutTime"@.len() == 11);
        assert("timeout_time"@.len() == 12);
        assert("sourceChannel"@.len() == 13);
        assert("source_channel"@.len() == 14);
        assert("feeAsset"@.len() == 8);
        assert("fee_asset"@.len() == 9);
        assert("memo"@.len() == 4);
        assert("bridgeAddress"@.len() == 13);
        assert("bridge_address"@.len() == 14);
        assert("useCompatAddress"@.len() == 16);
        assert("use_compat_address"@.len() == 18);
        assert("returnAddress"@[0] != "timeoutHeight"@[0]);
        assert("returnAddress"@[0] != "sourceChannel"@[0]);
        assert("returnAddress"@[0] != "bridgeAddress"@[0]);
        assert("return_address"@[0] != "timeout_height"@[0]);
        assert("return_address"@[0] != "source_channel"@[0]);
        assert("return_address"@[0] != "bridge_address"@[0]);
        assert("timeoutHeight"@[0] != "sourceChannel"@[0]);
        assert("timeoutHeight"@[0] != "bridgeAddress"@[0]);
        assert("timeout_height"@[0] != "source_channel"@[0]);
        assert("timeout_height"@[0] != "bridge_address"@[0]);
        assert("sourceChannel"@[0] != "bridgeAddress"@[0]);
        assert("source_channel"@[0] != "bridge_address"@[0]);
        lemma_fold_entry_if(st, m.bridge_address is Some, "bridgeAddress"@, JsonV::Object(m.bridge_address.unwrap()), Self::step_fn());
    }

    /// Reading the member that the field `use_compat_address` writes sets the field.
    pub proof fn lemma_entry_use_compat_address(m: Ics20WithdrawalV, st: (Ics20WithdrawalV, Seq<bool>))
        requires
            st.1.len() == 7,
            !st.1[6],
            st.0.use_compat_address == false,
        ensures
            fold_entries(st, Self::spec_entry_use_compat_address(m), Self::step_fn()) == Ok::<(Ics20WithdrawalV, Seq<bool>), JsonErrorV>((Ics20WithdrawalV { use_compat_address: m.use_compat_address, ..st.0 }, if m.use_compat_address { st.1.update(6, true) } else { st.1 })),
    {
        reveal_strlit("amount");
        reveal_strlit("denom");
        reveal_strlit("destinationChainAddress");
        reveal_strlit("destination_chain_address");
        reveal_strlit("returnAddress");
        reveal_strlit("return_address");
        reveal_strlit("timeoutHeight");
        reveal_strlit("timeout_height");
        reveal_strlit("timeoutTime");
        reveal_strlit("timeout_time");
        reveal_strlit("sourceChannel");
        reveal_strlit("source_channel");
        reveal_strlit("feeAsset");
        reveal_strlit("fee_asset");
        reveal_strlit("memo");
        reveal_strlit("bridgeAddress");
        reveal_strlit("bridge_address");
        reveal_strlit("useCompatAddress");
        reveal_strlit("use_compat_address");
        assert("amount"@.len() == 6);
        assert("denom"@.len() == 5);
        assert("destinationChainAddress"@.len() == 23);
        assert("destination_chain_address"@.len() == 25);
        assert("returnAddress"@.len() == 13);
        assert("return_address"@.len() == 14);
        assert("timeoutHeight"@.len() == 13);
        assert("timeout_height"@.len() == 14);
        assert("timeoutTime"@.len() == 11);
        assert("timeout_time"@.len() == 12);
        assert("sourceChannel"@.len() == 13);
        assert("source_channel"@.len() == 14);
        assert("feeAsset"@.len() == 8);
        assert("fee_asset"@.len() == 9);
        assert("memo"@.len() == 4);
        assert("bridgeAddress"@.len() == 13);
        assert("bridge_address"@.len() == 14);
        assert("useCompatAddress"@.len() == 16);
        assert("use_compat_address"@.len() == 18);
        assert("returnAddress"@[0] != "timeoutHeight"@[0]);
        assert("returnAddress"@[0] != "sourceChannel"@[0]);
        assert("returnAddress"@[0] != "bridgeAddress"@[0]);
        assert("return_address"@[0] != "timeout_height"@[0]);
        assert("return_address"@[0] != "source_channel"@[0]);
        assert("return_address"@[0] != "bridge_address"@[0]);
        assert("timeoutHeight"@[0] != "sourceChannel"@[0]);
        assert("timeoutHeight"@[0] != "bridgeAddress"@[0]);
        assert("timeout_height"@[0] != "source_channel"@[0]);
        assert("timeout_height"@[0] != "bridge_address"@[0]);
        assert("sourceChannel"@[0] != "bridgeAddress"@[0]);
        assert("source_channel"@[0] != "bridge_address"@[0]);
        lemma_fold_entry_if(st, m.use_compat_address, "useCompatAddress"@, JsonV::Bool(m.use_compat_address), Self::step_fn());
    }

    /// The JSON spelling of a key: the protobuf name of a field becomes its JSON name;
    /// a JSON name, and any key that names no field, is left as it is.
    pub open spec fn spec_json_key(key: Seq<char>) -> Seq<char> {
        if key == "amount"@ {
            "amount"@
        } else if key == "denom"@ {
            "denom"@
        } else if key == "destinationChainAddress"@ || key == "destination_chain_address"@ {
            "destinationChainAddress"@
        } else if key == "returnAddress"@ || key == "return_address"@ {
            "returnAddress"@
        } else if key == "timeoutHeight"@ || key == "timeout_height"@ {
            "timeoutHeight"@
        } else if key == "timeoutTime"@ || key == "timeout_time"@ {
            "timeoutTime"@
        } else if key == "sourceChannel"@ || key == "source_channel"@ {
            "sourceChannel"@
        } else if key == "feeAsset"@ || key == "fee_asset"@ {
            "feeAsset"@
        } else if key == "memo"@ {
            "memo"@
        } else if key == "bridgeAddress"@ || key == "bridge_address"@ {
            "bridgeAddress"@
        } else if key == "useCompatAddress"@ || key == "use_compat_address"@ {
            "useCompatAddress"@
        } else {
            key
        }
    }

    /// [`Self::spec_json_key`] as a function value.
    pub open spec fn json_key_fn() -> spec_fn(Seq<char>) -> Seq<char> {
        |key: Seq<char>| Self::spec_json_key(key)
    }

    /// One member is read alike whichever spelling its key has.
    pub proof fn lemma_step_json_key(st: (Ics20WithdrawalV, Seq<bool>), key: Seq<char>, v: JsonV)
        ensures Self::spec_step(st, key, v) == Self::spec_step(st, Self::spec_json_key(key), v),
    {
        reveal_strlit("amount");
        reveal_strlit("denom");
        reveal_strlit("destinationChainAddress");
        reveal_strlit("destination_chain_address");
        reveal_strlit("returnAddress");
        reveal_strlit("return_address");
        reveal_strlit("timeoutHeight");
        reveal_strlit("timeout_height");
        reveal_strlit("timeoutTime");
        reveal_strlit("timeout_time");
        reveal_strlit("sourceChannel");
        reveal_strlit("source_channel");
        reveal_strlit("feeAsset");
        reveal_strlit("fee_asset");
        reveal_strlit("memo");
        reveal_strlit("bridgeAddress");
        reveal_strlit("bridge_address");
        reveal_strlit("useCompatAddress");
        reveal_strlit("use_compat_address");
        assert("amount"@.len() == 6);
        assert("denom"@.len() == 5);
        assert("destinationChainAddress"@.len() == 23);
        assert("destination_chain_address"@.len() == 25);
        assert("returnAddress"@.len() == 13);
        assert("return_address"@.len() == 14);
        assert("timeoutHeight"@.len() == 13);
        assert("timeout_height"@.len() == 14);
        assert("timeoutTime"@.len() == 11);
        assert("timeout_time"@.len() == 12);
        assert("sourceChannel"@.len() == 13);
        assert("source_channel"@.len() == 14);
        assert("feeAsset"@.len() == 8);
        assert("fee_asset"@.len() == 9);
        assert("memo"@.len() == 4);
        assert("bridgeAddress"@.len() == 13);
        assert("bridge_address"@.len() == 14);
        assert("useCompatAddress"@.len() == 16);
        assert("use_compat_address"@.len() == 18);
        assert("returnAddress"@[0] != "timeoutHeight"@[0]);
        assert("returnAddress"@[0] != "sourceChannel"@[0]);
        assert("returnAddress"@[0] != "bridgeAddress"@[0]);
        assert("return_address"@[0] != "timeout_height"@[0]);
        assert("return_address"@[0] != "source_channel"@[0]);
        assert("return_address"@[0] != "bridge_address"@[0]);
        assert("timeoutHeight"@[0] != "sourceChannel"@[0]);
        assert("timeoutHeight"@[0] != "bridgeAddress"@[0]);
        assert("timeout_height"@[0] != "source_channel"@[0]);
        assert("timeout_height"@[0] != "bridge_address"@[0]);
        assert("sourceChannel"@[0] != "bridgeAddress"@[0]);
        assert("source_channel"@[0] != "bridge_address"@[0]);
        if key == "destination_chain_address"@ {
            assert(Self::spec_json_key(key) == "destinationChainAddress"@);
        }
        if key == "return_address"@ {
            assert(Self::spec_json_key(key) == "returnAddress"@);
        }
        if key == "timeout_height"@ {
            assert(Self::spec_json_key(key) == "timeoutHeight"@);
        }
        if key == "timeout_time"@ {
            assert(Self::spec_json_key(key) == "timeoutTime"@);
        }
        if key == "source_channel"@ {
            assert(Self::spec_json_key(key) == "sourceChannel"@);
        }
        if key == "fee_asset"@ {
            assert(Self::spec_json_key(key) == "feeAsset"@);
        }
        if key == "bridge_address"@ {
            assert(Self::spec_json_key(key) == "bridgeAddress"@);
        }
        if key == "use_compat_address"@ {
            assert(Self::spec_json_key(key) == "useCompatAddress"@);
        }
    }

    /// Reading an object gives the same result whichever spelling each of its keys has:
    /// two objects whose members hold the same values, in the same order, under keys of
    /// the same JSON spelling describe the same message, or are refused with the same error.
    pub proof fn lemma_key_spelling(es1: Seq<(Seq<char>, JsonV)>, es2: Seq<(Seq<char>, JsonV)>)
        requires
            es1.len() == es2.len(),
            forall|i: int| #![trigger es1[i], es2[i]] 0 <= i < es1.len() ==> es1[i].1 == es2[i].1 && Self::spec_json_key(es1[i].0) == Self::spec_json_key(es2[i].0),
        ensures Self::spec_from_json(JsonV::Object(es1)) == Self::spec_from_json(JsonV::Object(es2)),
    {
        assert forall|s: (Ics20WithdrawalV, Seq<bool>), k: Seq<char>, v: JsonV|
            #![trigger Self::step_fn()(s, k, v), Self::json_key_fn()(k)]
            Self::step_fn()(s, k, v) == Self::step_fn()(s, Self::json_key_fn()(k), v) by {
            Self::lemma_step_json_key(s, k, v);
        }
        lemma_fold_same_keys(Self::spec_start(), es1, es2, Self::step_fn(), Self::json_key_fn());
    }

    /// The keys of the object that the message writes: the JSON names of the fields that
    /// do not hold their default (for a oneof, the JSON name of the member set), in the
    /// order of the fields.
    pub open spec fn spec_written_keys(m: Ics20WithdrawalV) -> Seq<Seq<char>> {
        key_if(m.amount is Some, "amount"@)
            + key_if(m.denom.len() != 0, "denom"@)
            + key_if(m.destination_chain_address.len() != 0, "destinationChainAddress"@)
            + key_if(m.return_address is Some, "returnAddress"@)
            + key_if(m.timeout_height is Some, "timeoutHeight"@)
            + key_if(m.timeout_time != 0, "timeoutTime"@)
            + key_if(m.source_channel.len() != 0, "sourceChannel"@)
            + key_if(m.fee_asset.len() != 0, "feeAsset"@)
            + key_if(m.memo.len() != 0, "memo"@)
            + key_if(m.bridge_address is Some, "bridgeAddress"@)
            + key_if(m.use_compat_address, "useCompatAddress"@)
    }

    /// The object that the message writes has exactly the keys of
    /// [`Self::spec_written_keys`], in that order.
    pub proof fn lemma_written_keys(m: Ics20WithdrawalV)
        ensures
            Self::spec_to_json(m) == JsonV::Object(Self::spec_entries(m)),
            entry_keys(Self::spec_entries(m)) == Self::spec_written_keys(m),
    {
        lemma_entry_keys_if(m.amount is Some, "amount"@, JsonV::Object(m.amount.unwrap()));
        lemma_entry_keys_append(Self::spec_entry_amount(m), m.denom.len() != 0, "denom"@, JsonV::Str(m.denom));
        lemma_entry_keys_append(Self::spec_entry_amount(m) + Self::spec_entry_denom(m), m.destination_chain_address.len() != 0, "destinationChainAddress"@, JsonV::Str(m.destination_chain_address));
        lemma_entry_keys_append(Self::spec_entry_amount(m) + Self::spec_entry_denom(m) + Self::spec_entry_destination_chain_address(m), m.return_address is Some, "returnAddress"@, JsonV::Object(m.return_address.unwrap()));
        lemma_entry_keys_append(Self::spec_entry_amount(m) + Self::spec_entry_denom(m) + Self::spec_entry_destination_chain_address(m) + Self::spec_entry_return_address(m), m.timeout_height is Some, "timeoutHeight"@, IbcHeight::spec_to_json(m.timeout_height.unwrap()));
        lemma_entry_keys_append(Self::spec_entry_amount(m) + Self::spec_entry_denom(m) + Self::spec_entry_destination_chain_address(m) + Self::spec_entry_return_address(m) + Self::spec_entry_timeout_height(m), m.timeout_time != 0, "timeoutTime"@, JsonV::Str(decimal(m.timeout_time as nat)));
        lemma_entry_keys_append(Self::spec_entry_amount(m) + Self::spec_entry_denom(m) + Self::spec_entry_destination_chain_address(m) + Self::spec_entry_return_address(m) + Self::spec_entry_timeout_height(m) + Self::spec_entry_timeout_time(m), m.source_channel.len() != 0, "sourceChannel"@, JsonV::Str(m.source_channel));
        lemma_entry_keys_append(Self::spec_entry_amount(m) + Self::spec_entry_denom(m) + Self::spec_entry_destination_chain_address(m) + Self::spec_entry_return_address(m) + Self::spec_entry_timeout_height(m) + Self::spec_entry_timeout_time(m) + Self::spec_entry_source_channel(m), m.fee_asset.len() != 0, "feeAsset"@, JsonV::Str(m.fee_asset));
        lemma_entry_keys_append(Self::spec_entry_amount(m) + Self::spec_entry_denom(m) + Self::spec_entry_destination_chain_address(m) + Self::spec_entry_return_address(m) + Self::spec_entry_timeout_height(m) + Self::spec_entry_timeout_time(m) + Self::spec_entry_source_channel(m) + Self::spec_entry_fee_asset(m), m.memo.len() != 0, "memo"@, JsonV::Str(m.memo));
        lemma_entry_keys_append(Self::spec_entry_amount(m) + Self::spec_entry_denom(m) + Self::spec_entry_destination_chain_address(m) + Self::spec_entry_return_address(m) + Self::spec_entry_timeout_height(m) + Self::spec_entry_timeout_time(m) + Self::spec_entry_source_channel(m) + Self::spec_entry_fee_asset(m) + Self::spec_entry_memo(m), m.bridge_address is Some, "bridgeAddress"@, JsonV::Object(m.bridge_address.unwrap()));
        lemma_entry_keys_append(Self::spec_entry_amount(m) + Self::spec_entry_denom(m) + Self::spec_entry_destination_chain_address(m) + Self::spec_entry_return_address(m) + Self::spec_entry_timeout_height(m) + Self::spec_entry_timeout_time(m) + Self::spec_entry_source_channel(m) + Self::spec_entry_fee_asset(m) + Self::spec_entry_memo(m) + Self::spec_entry_bridge_address(m), m.use_compat_address, "useCompatAddress"@, JsonV::Bool(m.use_compat_address));
    }

    /// Whether the field whose JSON name is `name` holds its default in `m`; for a member
    /// of a oneof, whether the oneof is set to another member or unset. `true` for a name
    /// that names no field.
    pub open spec fn spec_holds_default(m: Ics20WithdrawalV, name: Seq<char>) -> bool {
        if name == "amount"@ {
            m.amount is None
        } else if name == "denom"@ {
            m.denom == Seq::<char>::empty()
        } else if name == "destinationChainAddress"@ {
            m.destination_chain_address == Seq::<char>::empty()
        } else if name == "returnAddress"@ {
            m.return_address is None
        } else if name == "timeoutHeight"@ {
            m.timeout_height is None
        } else if name == "timeoutTime"@ {
            m.timeout_time == 0
        } else if name == "sourceChannel"@ {
            m.source_channel == Seq::<char>::empty()
        } else if name == "feeAsset"@ {
            m.fee_asset == Seq::<char>::empty()
        } else if name == "memo"@ {
            m.memo == Seq::<char>::empty()
        } else if name == "bridgeAddress"@ {
            m.bridge_address is None
        } else if name == "useCompatAddress"@ {
            m.use_compat_address == false
        } else {
            true
        }
    }

    /// Whether reading `v` for the field whose JSON name is `name` leaves the field at
    /// its default: `null`, for a field that takes it (a message field, a member of a
    /// oneof); nothing, for any other field. `true` for a name that names no field.
    pub open spec fn spec_leaves_default(name: Seq<char>, v: JsonV) -> bool {
        if name == "amount"@ {
            v is Null
        } else if name == "denom"@ {
            false
        } else if name == "destinationChainAddress"@ {
            false
        } else if name == "returnAddress"@ {
            v is Null
        } else if name == "timeoutHeight"@ {
            v is Null
        } else if name == "timeoutTime"@ {
            false
        } else if name == "sourceChannel"@ {
            false
        } else if name == "feeAsset"@ {
            false
        } else if name == "memo"@ {
            false
        } else if name == "bridgeAddress"@ {
            v is Null
        } else if name == "useCompatAddress"@ {
            false
        } else {
            true
        }
    }

    /// Reading one member keeps a field at its default unless the key names the field
    /// and the value does not leave it there.
    pub proof fn lemma_step_keeps_default(st: (Ics20WithdrawalV, Seq<bool>), key: Seq<char>, v: JsonV, name: Seq<char>)
        requires
            Self::spec_holds_default(st.0, name),
            Self::spec_json_key(key) == name ==> Self::spec_leaves_default(name, v),
        ensures
            Self::spec_step(st, key, v) is Ok ==> Self::spec_holds_default(Self::spec_step(st, key, v)->Ok_0.0, name),
    {
        reveal_strlit("amount");
        reveal_strlit("denom");
        reveal_strlit("destinationChainAddress");
        reveal_strlit("destination_chain_address");
        reveal_strlit("returnAddress");
        reveal_strlit("return_address");
        reveal_strlit("timeoutHeight");
        reveal_strlit("timeout_height");
        reveal_strlit("timeoutTime");
        reveal_strlit("timeout_time");
        reveal_strlit("sourceChannel");
        reveal_strlit("source_channel");
        reveal_strlit("feeAsset");
        reveal_strlit("fee_asset");
        reveal_strlit("memo");
        reveal_strlit("bridgeAddress");
        reveal_strlit("bridge_address");
        reveal_strlit("useCompatAddress");
        reveal_strlit("use_compat_address");
        assert("amount"@.len() == 6);
        assert("denom"@.len() == 5);
        assert("destinationChainAddress"@.len() == 23);
        assert("destination_chain_address"@.len() == 25);
        assert("returnAddress"@.len() == 13);
        assert("return_address"@.len() == 14);
        assert("timeoutHeight"@.len() == 13);
        assert("timeout_height"@.len() == 14);
        assert("timeoutTime"@.len() == 11);
        assert("timeout_time"@.len() == 12);
        assert("sourceChannel"@.len() == 13);
        assert("source_channel"@.len() == 14);
        assert("feeAsset"@.len() == 8);
        assert("fee_asset"@.len() == 9);
        assert("memo"@.len() == 4);
        assert("bridgeAddress"@.len() == 13);
        assert("bridge_address"@.len() == 14);
        assert("useCompatAddress"@.len() == 16);
        assert("use_compat_address"@.len() == 18);
        assert("returnAddress"@[0] != "timeoutHeight"@[0]);
        assert("returnAddress"@[0] != "sourceChannel"@[0]);
        assert("returnAddress"@[0] != "bridgeAddress"@[0]);
        assert("return_address"@[0] != "timeout_height"@[0]);
        assert("return_address"@[0] != "source_channel"@[0]);
        assert("return_address"@[0] != "bridge_address"@[0]);
        assert("timeoutHeight"@[0] != "sourceChannel"@[0]);
        assert("timeoutHeight"@[0] != "bridgeAddress"@[0]);
        assert("timeout_height"@[0] != "source_channel"@[0]);
        assert("timeout_height"@[0] != "bridge_address"@[0]);
        assert("sourceChannel"@[0] != "bridgeAddress"@[0]);
        assert("source_channel"@[0] != "bridge_address"@[0]);
        Self::lemma_step_json_key(st, key, v);
    }

    /// A field whose key appears in no member of an object, or only with values that
    /// leave it at its default (`null`, for a field that takes it), holds its default in
    /// the message that the object describes.
    pub proof fn lemma_absent_default(es: Seq<(Seq<char>, JsonV)>, name: Seq<char>)
        requires
            forall|i: int| 0 <= i < es.len() ==> (Self::spec_json_key((#[trigger] es[i]).0) == name
                ==> Self::spec_leaves_default(name, es[i].1)),
        ensures
            Self::spec_from_json(JsonV::Object(es)) is Ok
                ==> Self::spec_holds_default(Self::spec_from_json(JsonV::Object(es))->Ok_0, name),
    {
        let inv = |s: (Ics20WithdrawalV, Seq<bool>)| Self::spec_holds_default(s.0, name);
        let allowed = |k: Seq<char>, v: JsonV| Self::spec_json_key(k) == name ==> Self::spec_leaves_default(name, v);
        assert forall|s: (Ics20WithdrawalV, Seq<bool>), k: Seq<char>, v: JsonV| #![trigger Self::step_fn()(s, k, v)]
            inv(s) && allowed(k, v) && Self::step_fn()(s, k, v) is Ok implies inv(Self::step_fn()(s, k, v)->Ok_0) by {
            Self::lemma_step_keeps_default(s, k, v, name);
        }
        assert(inv(Self::spec_start()));
        lemma_fold_keeps(Self::spec_start(), es, Self::step_fn(), inv, allowed);
    }

    /// The field `amount` alone: an object with one member under its JSON or protobuf
    /// name reads as the message with that field set and every other field at its
    /// default, and the message with only that field off its default writes that
    /// one member under the JSON name.
    pub proof fn lemma_field_amount(es: Seq<(Seq<char>, JsonV)>)
        ensures
            Self::spec_from_json(JsonV::Object(seq![("amount"@, JsonV::Object(es))])) == Ok::<Ics20WithdrawalV, JsonErrorV>(Ics20WithdrawalV { amount: Some(es), ..Self::spec_default() }),
            Self::spec_from_json(JsonV::Object(seq![("amount"@, JsonV::Null)])) == Ok::<Ics20WithdrawalV, JsonErrorV>(Self::spec_default()),
            Self::spec_to_json(Ics20WithdrawalV { amount: Some(es), ..Self::spec_default() }) == JsonV::Object(seq![("amount"@, JsonV::Object(es))]),
    {
        reveal_strlit("amount");
        reveal_strlit("denom");
        reveal_strlit("destinationChainAddress");
        reveal_strlit("destination_chain_address");
        reveal_strlit("returnAddress");
        reveal_strlit("return_address");
        reveal_strlit("timeoutHeight");
        reveal_strlit("timeout_height");
        reveal_strlit("timeoutTime");
        reveal_strlit("timeout_time");
        reveal_strlit("sourceChannel");
        reveal_strlit("source_channel");
        reveal_strlit("feeAsset");
        reveal_strlit("fee_asset");
        reveal_strlit("memo");
        reveal_strlit("bridgeAddress");
        reveal_strlit("bridge_address");
        reveal_strlit("useCompatAddress");
        reveal_strlit("use_compat_address");
        assert("amount"@.len() == 6);
        assert("denom"@.len() == 5);
        assert("destinationChainAddress"@.len() == 23);
        assert("destination_chain_address"@.len() == 25);
        assert("returnAddress"@.len() == 13);
        assert("return_address"@.len() == 14);
        assert("timeoutHeight"@.len() == 13);
        assert("timeout_height"@.len() == 14);
        assert("timeoutTime"@.len() == 11);
        assert("timeout_time"@.len() == 12);
        assert("sourceChannel"@.len() == 13);
        assert("source_channel"@.len() == 14);
        assert("feeAsset"@.len() == 8);
        assert("fee_asset"@.len() == 9);
        assert("memo"@.len() == 4);
        assert("bridgeAddress"@.len() == 13);
        assert("bridge_address"@.len() == 14);
        assert("useCompatAddress"@.len() == 16);
        assert("use_compat_address"@.len() == 18);
        assert("returnAddress"@[0] != "timeoutHeight"@[0]);
        assert("returnAddress"@[0] != "sourceChannel"@[0]);
        assert("returnAddress"@[0] != "bridgeAddress"@[0]);
        assert("return_address"@[0] != "timeout_height"@[0]);
        assert("return_address"@[0] != "source_channel"@[0]);
        assert("return_address"@[0] != "bridge_address"@[0]);
        assert("timeoutHeight"@[0] != "sourceChannel"@[0]);
        assert("timeoutHeight"@[0] != "bridgeAddress"@[0]);
        assert("timeout_height"@[0] != "source_channel"@[0]);
        assert("timeout_height"@[0] != "bridge_address"@[0]);
        assert("sourceChannel"@[0] != "bridgeAddress"@[0]);
        assert("source_channel"@[0] != "bridge_address"@[0]);
        lemma_fold_entry_if(Self::spec_start(), true, "amount"@, JsonV::Object(es), Self::step_fn());
        lemma_fold_entry_if(Self::spec_start(), true, "amount"@, JsonV::Null, Self::step_fn());
    }

    /// The field `denom` alone: an object with one member under its JSON or protobuf
    /// name reads as the message with that field set and every other field at its
    /// default, and the message with only that field off its default writes that
    /// one member under the JSON name.
    pub proof fn lemma_field_denom(s: Seq<char>)
        ensures
            Self::spec_from_json(JsonV::Object(seq![("denom"@, JsonV::Str(s))])) == Ok::<Ics20WithdrawalV, JsonErrorV>(Ics20WithdrawalV { denom: s, ..Self::spec_default() }),
            s.len() > 0 ==> Self::spec_to_json(Ics20WithdrawalV { denom: s, ..Self::spec_default() }) == JsonV::Object(seq![("denom"@, JsonV::Str(s))]),
    {
        reveal_strlit("amount");
        reveal_strlit("denom");
        reveal_strlit("destinationChainAddress");
        reveal_strlit("destination_chain_address");
        reveal_strlit("returnAddress");
        reveal_strlit("return_address");
        reveal_strlit("timeoutHeight");
        reveal_strlit("timeout_height");
        reveal_strlit("timeoutTime");
        reveal_strlit("timeout_time");
        reveal_strlit("sourceChannel");
        reveal_strlit("source_channel");
        reveal_strlit("feeAsset");
        reveal_strlit("fee_asset");
        reveal_strlit("memo");
        reveal_strlit("bridgeAddress");
        reveal_strlit("bridge_address");
        reveal_strlit("useCompatAddress");
        reveal_strlit("use_compat_address");
        assert("amount"@.len() == 6);
        assert("denom"@.len() == 5);
        assert("destinationChainAddress"@.len() == 23);
        assert("destination_chain_address"@.len() == 25);
        assert("returnAddress"@.len() == 13);
        assert("return_address"@.len() == 14);
        assert("timeoutHeight"@.len() == 13);
        assert("timeout_height"@.len() == 14);
        assert("timeoutTime"@.len() == 11);
        assert("timeout_time"@.len() == 12);
        assert("sourceChannel"@.len() == 13);
        assert("source_channel"@.len() == 14);
        assert("feeAsset"@.len() == 8);
        assert("fee_asset"@.len() == 9);
        assert("memo"@.len() == 4);
        assert("bridgeAddress"@.len() == 13);
        assert("bridge_address"@.len() == 14);
        assert("useCompatAddress"@.len() == 16);
        assert("use_compat_address"@.len() == 18);
        assert("returnAddress"@[0] != "timeoutHeight"@[0]);
        assert("returnAddress"@[0] != "sourceChannel"@[0]);
        assert("returnAddress"@[0] != "bridgeAddress"@[0]);
        assert("return_address"@[0] != "timeout_height"@[0]);
        assert("return_address"@[0] != "source_channel"@[0]);
        assert("return_address"@[0] != "bridge_address"@[0]);
        assert("timeoutHeight"@[0] != "sourceChannel"@[0]);
        assert("timeoutHeight"@[0] != "bridgeAddress"@[0]);
        assert("timeout_height"@[0] != "source_channel"@[0]);
        assert("timeout_height"@[0] != "bridge_address"@[0]);
        assert("sourceChannel"@[0] != "bridgeAddress"@[0]);
        assert("source_channel"@[0] != "bridge_address"@[0]);
        lemma_fold_entry_if(Self::spec_start(), true, "denom"@, JsonV::Str(s), Self::step_fn());
    }

    /// The field `destination_chain_address` alone: an object with one member under its JSON or protobuf
    /// name reads as the message with that field set and every other field at its
    /// default, and the message with only that field off its default writes that
    /// one member under the JSON name.
    pub proof fn lemma_field_destination_chain_address(s: Seq<char>)
        ensures
            Self::spec_from_json(JsonV::Object(seq![("destinationChainAddress"@, JsonV::Str(s))])) == Ok::<Ics20WithdrawalV, JsonErrorV>(Ics20WithdrawalV { destination_chain_address: s, ..Self::spec_default() }),
            Self::spec_from_json(JsonV::Object(seq![("destination_chain_address"@, JsonV::Str(s))])) == Ok::<Ics20WithdrawalV, JsonErrorV>(Ics20WithdrawalV { destination_chain_address: s, ..Self::spec_default() }),
            s.len() > 0 ==> Self::spec_to_json(Ics20WithdrawalV { destination_chain_address: s, ..Self::spec_default() }) == JsonV::Object(seq![("destinationChainAddress"@, JsonV::Str(s))]),
    {
        reveal_strlit("amount");
        reveal_strlit("denom");
        reveal_strlit("destinationChainAddress");
        reveal_strlit("destination_chain_address");
        reveal_strlit("returnAddress");
        reveal_strlit("return_address");
        reveal_strlit("timeoutHeight");
        reveal_strlit("timeout_height");
        reveal_strlit("timeoutTime");
        reveal_strlit("timeout_time");
        reveal_strlit("sourceChannel");
        reveal_strlit("source_channel");
        reveal_strlit("feeAsset");
        reveal_strlit("fee_asset");
        reveal_strlit("memo");
        reveal_strlit("bridgeAddress");
        reveal_strlit("bridge_address");
        reveal_strlit("useCompatAddress");
        reveal_strlit("use_compat_address");
        assert("amount"@.len() == 6);
        assert("denom"@.len() == 5);
        assert("destinationChainAddress"@.len() == 23);
        assert("destination_chain_address"@.len() == 25);
        assert("returnAddress"@.len() == 13);
        assert("return_address"@.len() == 14);
        assert("timeoutHeight"@.len() == 13);
        assert("timeout_height"@.len() == 14);
        assert("timeoutTime"@.len() == 11);
        assert("timeout_time"@.len() == 12);
        assert("sourceChannel"@.len() == 13);
        assert("source_channel"@.len() == 14);
        assert("feeAsset"@.len() == 8);
        assert("fee_asset"@.len() == 9);
        assert("memo"@.len() == 4);
        assert("bridgeAddress"@.len() == 13);
        assert("bridge_address"@.len() == 14);
        assert("useCompatAddress"@.len() == 16);
        assert("use_compat_address"@.len() == 18);
        assert("returnAddress"@[0] != "timeoutHeight"@[0]);
        assert("returnAddress"@[0] != "sourceChannel"@[0]);
        assert("returnAddress"@[0] != "bridgeAddress"@[0]);
        assert("return_address"@[0] != "timeout_height"@[0]);
        assert("return_address"@[0] != "source_channel"@[0]);
        assert("return_address"@[0] != "bridge_address"@[0]);
        assert("timeoutHeight"@[0] != "sourceChannel"@[0]);
        assert("timeoutHeight"@[0] != "bridgeAddress"@[0]);
        assert("timeout_height"@[0] != "source_channel"@[0]);
        assert("timeout_height"@[0] != "bridge_address"@[0]);
        assert("sourceChannel"@[0] != "bridgeAddress"@[0]);
        assert("source_channel"@[0] != "bridge_address"@[0]);
        lemma_fold_entry_if(Self::spec_start(), true, "destinationChainAddress"@, JsonV::Str(s), Self::step_fn());
        lemma_fold_entry_if(Self::spec_start(), true, "destination_chain_address"@, JsonV::Str(s), Self::step_fn());
    }

    /// The field `return_address` alone: an object with one member under its JSON or protobuf
    /// name reads as the message with that field set and every other field at its
    /// default, and the message with only that field off its default writes that
    /// one member under the JSON name.
    pub proof fn lemma_field_return_address(es: Seq<(Seq<char>, JsonV)>)
        ensures
            Self::spec_from_json(JsonV::Object(seq![("returnAddress"@, JsonV::Object(es))])) == Ok::<Ics20WithdrawalV, JsonErrorV>(Ics20WithdrawalV { return_address: Some(es), ..Self::spec_default() }),
            Self::spec_from_json(JsonV::Object(seq![("returnAddress"@, JsonV::Null)])) == Ok::<Ics20WithdrawalV, JsonErrorV>(Self::spec_default()),
            Self::spec_from_json(JsonV::Object(seq![("return_address"@, JsonV::Object(es))])) == Ok::<Ics20WithdrawalV, JsonErrorV>(Ics20WithdrawalV { return_address: Some(es), ..Self::spec_default() }),
            Self::spec_from_json(JsonV::Object(seq![("return_address"@, JsonV::Null)])) == Ok::<Ics20WithdrawalV, JsonErrorV>(Self::spec_default()),
            Self::spec_to_json(Ics20WithdrawalV { return_address: Some(es), ..Self::spec_default() }) == JsonV::Object(seq![("returnAddress"@, JsonV::Object(es))]),
    {
        reveal_strlit("amount");
        reveal_strlit("denom");
        reveal_strlit("destinationChainAddress");
        reveal_strlit("destination_chain_address");
        reveal_strlit("returnAddress");
        reveal_strlit("return_address");
        reveal_strlit("timeoutHeight");
        reveal_strlit("timeout_height");
        reveal_strlit("timeoutTime");
        reveal_strlit("timeout_time");
        reveal_strlit("sourceChannel");
        reveal_strlit("source_channel");
        reveal_strlit("feeAsset");
        reveal_strlit("fee_asset");
        reveal_strlit("memo");
        reveal_strlit("bridgeAddress");
        reveal_strlit("bridge_address");
        reveal_strlit("useCompatAddress");
        reveal_strlit("use_compat_address");
        assert("amount"@.len() == 6);
        assert("denom"@.len() == 5);
        assert("destinationChainAddress"@.len() == 23);
        assert("destination_chain_address"@.len() == 25);
        assert("returnAddress"@.len() == 13);
        assert("return_address"@.len() == 14);
        assert("timeoutHeight"@.len() == 13);
        assert("timeout_height"@.len() == 14);
        assert("timeoutTime"@.len() == 11);
        assert("timeout_time"@.len() == 12);
        assert("sourceChannel"@.len() == 13);
        assert("source_channel"@.len() == 14);
        assert("feeAsset"@.len() == 8);
        assert("fee_asset"@.len() == 9);
        assert("memo"@.len() == 4);
        assert("bridgeAddress"@.len() == 13);
        assert("bridge_address"@.len() == 14);
        assert("useCompatAddress"@.len() == 16);
        assert("use_compat_address"@.len() == 18);
        assert("returnAddress"@[0] != "timeoutHeight"@[0]);
        assert("returnAddress"@[0] != "sourceChannel"@[0]);
        assert("returnAddress"@[0] != "bridgeAddress"@[0]);
        assert("return_address"@[0] != "timeout_height"@[0]);
        assert("return_address"@[0] != "source_channel"@[0]);
        assert("return_address"@[0] != "bridge_address"@[0]);
        assert("timeoutHeight"@[0] != "sourceChannel"@[0]);
        assert("timeoutHeight"@[0] != "bridgeAddress"@[0]);
        assert("timeout_height"@[0] != "source_channel"@[0]);
        assert("timeout_height"@[0] != "bridge_address"@[0]);
        assert("sourceChannel"@[0] != "bridgeAddress"@[0]);
        assert("source_channel"@[0] != "bridge_address"@[0]);
        lemma_fold_entry_if(Self::spec_start(), true, "returnAddress"@, JsonV::Object(es), Self::step_fn());
        lemma_fold_entry_if(Self::spec_start(), true, "returnAddress"@, JsonV::Null, Self::step_fn());
        lemma_fold_entry_if(Self::spec_start(), true, "return_address"@, JsonV::Object(es), Self::step_fn());
        lemma_fold_entry_if(Self::spec_start(), true, "return_address"@, JsonV::Null, Self::step_fn());
    }

    /// The field `timeout_height` alone: an object with one member under its JSON or protobuf
    /// name reads as the message with that field set and every other field at its
    /// default, and the message with only that field off its default writes that
    /// one member under the JSON name.
    pub proof fn lemma_field_timeout_height(x: IbcHeightV, es: Seq<(Seq<char>, JsonV)>)
        ensures
            Self::spec_from_json(JsonV::Object(seq![("timeoutHeight"@, JsonV::Object(es))])) == (match IbcHeight::spec_from_json(JsonV::Object(es)) { Ok(y) => Ok::<Ics20WithdrawalV, JsonErrorV>(Ics20WithdrawalV { timeout_height: Some(y), ..Self::spec_default() }), Err(e) => Err(e) }),
            Self::spec_from_json(JsonV::Object(seq![("timeoutHeight"@, JsonV::Null)])) == Ok::<Ics20WithdrawalV, JsonErrorV>(Self::spec_default()),
            Self::spec_from_json(JsonV::Object(seq![("timeout_height"@, JsonV::Object(es))])) == (match IbcHeight::spec_from_json(JsonV::Object(es)) { Ok(y) => Ok::<Ics20WithdrawalV, JsonErrorV>(Ics20WithdrawalV { timeout_height: Some(y), ..Self::spec_default() }), Err(e) => Err(e) }),
            Self::spec_from_json(JsonV::Object(seq![("timeout_height"@, JsonV::Null)])) == Ok::<Ics20WithdrawalV, JsonErrorV>(Self::spec_default()),
            Self::spec_to_json(Ics20WithdrawalV { timeout_height: Some(x), ..Self::spec_default() }) == JsonV::Object(seq![("timeoutHeight"@, IbcHeight::spec_to_json(x))]),
    {
        reveal_strlit("amount");
        reveal_strlit("denom");
        reveal_strlit("destinationChainAddress");
        reveal_strlit("destination_chain_address");
        reveal_strlit("returnAddress");
        reveal_strlit("return_address");
        reveal_strlit("timeoutHeight");
        reveal_strlit("timeout_height");
        reveal_strlit("timeoutTime");
        reveal_strlit("timeout_time");
        reveal_strlit("sourceChannel");
        reveal_strlit("source_channel");
        reveal_strlit("feeAsset");
        reveal_strlit("fee_asset");
        reveal_strlit("memo");
        reveal_strlit("bridgeAddress");
        reveal_strlit("bridge_address");
        reveal_strlit("useCompatAddress");
        reveal_strlit("use_compat_address");
        assert("amount"@.len() == 6);
        assert("denom"@.len() == 5);
        assert("destinationChainAddress"@.len() == 23);
        assert("destination_chain_address"@.len() == 25);
        assert("returnAddress"@.len() == 13);
        assert("return_address"@.len() == 14);
        assert("timeoutHeight"@.len() == 13);
        assert("timeout_height"@.len() == 14);
        assert("timeoutTime"@.len() == 11);
        assert("timeout_time"@.len() == 12);
        assert("sourceChannel"@.len() == 13);
        assert("source_channel"@.len() == 14);
        assert("feeAsset"@.len() == 8);
        assert("fee_asset"@.len() == 9);
        assert("memo"@.len() == 4);
        assert("bridgeAddress"@.len() == 13);
        assert("bridge_address"@.len() == 14);
        assert("useCompatAddress"@.len() == 16);
        assert("use_compat_address"@.len() == 18);
        assert("returnAddress"@[0] != "timeoutHeight"@[0]);
        assert("returnAddress"@[0] != "sourceChannel"@[0]);
        assert("returnAddress"@[0] != "bridgeAddress"@[0]);
        assert("return_address"@[0] != "timeout_height"@[0]);
        assert("return_address"@[0] != "source_channel"@[0]);
        assert("return_address"@[0] != "bridge_address"@[0]);
        assert("timeoutHeight"@[0] != "sourceChannel"@[0]);
        assert("timeoutHeight"@[0] != "bridgeAddress"@[0]);
        assert("timeout_height"@[0] != "source_channel"@[0]);
        assert("timeout_height"@[0] != "bridge_address"@[0]);
        assert("sourceChannel"@[0] != "bridgeAddress"@[0]);
        assert("source_channel"@[0] != "bridge_address"@[0]);
        lemma_fold_entry_if(Self::spec_start(), true, "timeoutHeight"@, JsonV::Object(es), Self::step_fn());
        lemma_fold_entry_if(Self::spec_start(), true, "timeoutHeight"@, JsonV::Null, Self::step_fn());
        lemma_fold_entry_if(Self::spec_start(), true, "timeout_height"@, JsonV::Object(es), Self::step_fn());
        lemma_fold_entry_if(Self::spec_start(), true, "timeout_height"@, JsonV::Null, Self::step_fn());
    }

    /// The field `timeout_time` alone: an object with one member under its JSON or protobuf
    /// name reads as the message with that field set and every other field at its
    /// default, and the message with only that field off its default writes that
    /// one member under the JSON name.
    pub proof fn lemma_field_timeout_time(v: u64)
        ensures
            Self::spec_from_json(JsonV::Object(seq![("timeoutTime"@, JsonV::Unsigned(v))])) == Ok::<Ics20WithdrawalV, JsonErrorV>(Ics20WithdrawalV { timeout_time: v, ..Self::spec_default() }),
            Self::spec_from_json(JsonV::Object(seq![("timeoutTime"@, JsonV::Str(decimal(v as nat)))])) == Ok::<Ics20WithdrawalV, JsonErrorV>(Ics20WithdrawalV { timeout_time: v, ..Self::spec_default() }),
            Self::spec_from_json(JsonV::Object(seq![("timeout_time"@, JsonV::Unsigned(v))])) == Ok::<Ics20WithdrawalV, JsonErrorV>(Ics20WithdrawalV { timeout_time: v, ..Self::spec_default() }),
            Self::spec_from_json(JsonV::Object(seq![("timeout_time"@, JsonV::Str(decimal(v as nat)))])) == Ok::<Ics20WithdrawalV, JsonErrorV>(Ics20WithdrawalV { timeout_time: v, ..Self::spec_default() }),
            v != 0 ==> Self::spec_to_json(Ics20WithdrawalV { timeout_time: v, ..Self::spec_default() }) == JsonV::Object(seq![("timeoutTime"@, JsonV::Str(decimal(v as nat)))]),
    {
        reveal_strlit("amount");
        reveal_strlit("denom");
        reveal_strlit("destinationChainAddress");
        reveal_strlit("destination_chain_address");
        reveal_strlit("returnAddress");
        reveal_strlit("return_address");
        reveal_strlit("timeoutHeight");
        reveal_strlit("timeout_height");
        reveal_strlit("timeoutTime");
        reveal_strlit("timeout_time");
        reveal_strlit("sourceChannel");
        reveal_strlit("source_channel");
        reveal_strlit("feeAsset");
        reveal_strlit("fee_asset");
        reveal_strlit("memo");
        reveal_strlit("bridgeAddress");
        reveal_strlit("bridge_address");
        reveal_strlit("useCompatAddress");
        reveal_strlit("use_compat_address");
        assert("amount"@.len() == 6);
        assert("denom"@.len() == 5);
        assert("destinationChainAddress"@.len() == 23);
        assert("destination_chain_address"@.len() == 25);
        assert("returnAddress"@.len() == 13);
        assert("return_address"@.len() == 14);
        assert("timeoutHeight"@.len() == 13);
        assert("timeout_height"@.len() == 14);
        assert("timeoutTime"@.len() == 11);
        assert("timeout_time"@.len() == 12);
        assert("sourceChannel"@.len() == 13);
        assert("source_channel"@.len() == 14);
        assert("feeAsset"@.len() == 8);
        assert("fee_asset"@.len() == 9);
        assert("memo"@.len() == 4);
        assert("bridgeAddress"@.len() == 13);
        assert("bridge_address"@.len() == 14);
        assert("useCompatAddress"@.len() == 16);
        assert("use_compat_address"@.len() == 18);
        assert("returnAddress"@[0] != "timeoutHeight"@[0]);
        assert("returnAddress"@[0] != "sourceChannel"@[0]);
        assert("returnAddress"@[0] != "bridgeAddress"@[0]);
        assert("return_address"@[0] != "timeout_height"@[0]);
        assert("return_address"@[0] != "source_channel"@[0]);
        assert("return_address"@[0] != "bridge_address"@[0]);
        assert("timeoutHeight"@[0] != "sourceChannel"@[0]);
        assert("timeoutHeight"@[0] != "bridgeAddress"@[0]);
        assert("timeout_height"@[0] != "source_channel"@[0]);
        assert("timeout_height"@[0] != "bridge_address"@[0]);
        assert("sourceChannel"@[0] != "bridgeAddress"@[0]);
        assert("source_channel"@[0] != "bridge_address"@[0]);
        lemma_read_u64_value(v);
        lemma_fold_entry_if(Self::spec_start(), true, "timeoutTime"@, JsonV::Unsigned(v), Self::step_fn());
        lemma_fold_entry_if(Self::spec_start(), true, "timeoutTime"@, JsonV::Str(decimal(v as nat)), Self::step_fn());
        lemma_fold_entry_if(Self::spec_start(), true, "timeout_time"@, JsonV::Unsigned(v), Self::step_fn());
        lemma_fold_entry_if(Self::spec_start(), true, "timeout_time"@, JsonV::Str(decimal(v as nat)), Self::step_fn());
    }

    /// The field `source_channel` alone: an object with one member under its JSON or protobuf
    /// name reads as the message with that field set and every other field at its
    /// default, and the message with only that field off its default writes that
    /// one member under the JSON name.
    pub proof fn lemma_field_source_channel(s: Seq<char>)
        ensures
            Self::spec_from_json(JsonV::Object(seq![("sourceChannel"@, JsonV::Str(s))])) == Ok::<Ics20WithdrawalV, JsonErrorV>(Ics20WithdrawalV { source_channel: s, ..Self::spec_default() }),
            Self::spec_from_json(JsonV::Object(seq![("source_channel"@, JsonV::Str(s))])) == Ok::<Ics20WithdrawalV, JsonErrorV>(Ics20WithdrawalV { source_channel: s, ..Self::spec_default() }),
            s.len() > 0 ==> Self::spec_to_json(Ics20WithdrawalV { source_channel: s, ..Self::spec_default() }) == JsonV::Object(seq![("sourceChannel"@, JsonV::Str(s))]),
    {
        reveal_strlit("amount");
        reveal_strlit("denom");
        reveal_strlit("destinationChainAddress");
        reveal_strlit("destination_chain_address");
        reveal_strlit("returnAddress");
        reveal_strlit("return_address");
        reveal_strlit("timeoutHeight");
        reveal_strlit("timeout_height");
        reveal_strlit("timeoutTime");
        reveal_strlit("timeout_time");
        reveal_strlit("sourceChannel");
        reveal_strlit("source_channel");
        reveal_strlit("feeAsset");
        reveal_strlit("fee_asset");
        reveal_strlit("memo");
        reveal_strlit("bridgeAddress");
        reveal_strlit("bridge_address");
        reveal_strlit("useCompatAddress");
        reveal_strlit("use_compat_address");
        assert("amount"@.len() == 6);
        assert("denom"@.len() == 5);
        assert("destinationChainAddress"@.len() == 23);
        assert("destination_chain_address"@.len() == 25);
        assert("returnAddress"@.len() == 13);
        assert("return_address"@.len() == 14);
        assert("timeoutHeight"@.len() == 13);
        assert("timeout_height"@.len() == 14);
        assert("timeoutTime"@.len() == 11);
        assert("timeout_time"@.len() == 12);
        assert("sourceChannel"@.len() == 13);
        assert("source_channel"@.len() == 14);
        assert("feeAsset"@.len() == 8);
        assert("fee_asset"@.len() == 9);
        assert("memo"@.len() == 4);
        assert("bridgeAddress"@.len() == 13);
        assert("bridge_address"@.len() == 14);
        assert("useCompatAddress"@.len() == 16);
        assert("use_compat_address"@.len() == 18);
        assert("returnAddress"@[0] != "timeoutHeight"@[0]);
        assert("returnAddress"@[0] != "sourceChannel"@[0]);
        assert("returnAddress"@[0] != "bridgeAddress"@[0]);
        assert("return_address"@[0] != "timeout_height"@[0]);
        assert("return_address"@[0] != "source_channel"@[0]);
        assert("return_address"@[0] != "bridge_address"@[0]);
        assert("timeoutHeight"@[0] != "sourceChannel"@[0]);
        assert("timeoutHeight"@[0] != "bridgeAddress"@[0]);
        assert("timeout_height"@[0] != "source_channel"@[0]);
        assert("timeout_height"@[0] != "bridge_address"@[0]);
        assert("sourceChannel"@[0] != "bridgeAddress"@[0]);
        assert("source_channel"@[0] != "bridge_address"@[0]);
        lemma_fold_entry_if(Self::spec_start(), true, "sourceChannel"@, JsonV::Str(s), Self::step_fn());
        lemma_fold_entry_if(Self::spec_start(), true, "source_channel"@, JsonV::Str(s), Self::step_fn());
    }

    /// The field `fee_asset` alone: an object with one member under its JSON or protobuf
    /// name reads as the message with that field set and every other field at its
    /// default, and the message with only that field off its default writes that
    /// one member under the JSON name.
    pub proof fn lemma_field_fee_asset(s: Seq<char>)
        ensures
            Self::spec_from_json(JsonV::Object(seq![("feeAsset"@, JsonV::Str(s))])) == Ok::<Ics20WithdrawalV, JsonErrorV>(Ics20WithdrawalV { fee_asset: s, ..Self::spec_default() }),
            Self::spec_from_json(JsonV::Object(seq![("fee_asset"@, JsonV::Str(s))])) == Ok::<Ics20WithdrawalV, JsonErrorV>(Ics20WithdrawalV { fee_asset: s, ..Self::spec_default() }),
            s.len() > 0 ==> Self::spec_to_json(Ics20WithdrawalV { fee_asset: s, ..Self::spec_default() }) == JsonV::Object(seq![("feeAsset"@, JsonV::Str(s))]),
    {
        reveal_strlit("amount");
        reveal_strlit("denom");
        reveal_strlit("destinationChainAddress");
        reveal_strlit("destination_chain_address");
        reveal_strlit("returnAddress");
        reveal_strlit("return_address");
        reveal_strlit("timeoutHeight");
        reveal_strlit("timeout_height");
        reveal_strlit("timeoutTime");
        reveal_strlit("timeout_time");
        reveal_strlit("sourceChannel");
        reveal_strlit("source_channel");
        reveal_strlit("feeAsset");
        reveal_strlit("fee_asset");
        reveal_strlit("memo");
        reveal_strlit("bridgeAddress");
        reveal_strlit("bridge_address");
        reveal_strlit("useCompatAddress");
        reveal_strlit("use_compat_address");
        assert("amount"@.len() == 6);
        assert("denom"@.len() == 5);
        assert("destinationChainAddress"@.len() == 23);
        assert("destination_chain_address"@.len() == 25);
        assert("returnAddress"@.len() == 13);
        assert("return_address"@.len() == 14);
        assert("timeoutHeight"@.len() == 13);
        assert("timeout_height"@.len() == 14);
        assert("timeoutTime"@.len() == 11);
        assert("timeout_time"@.len() == 12);
        assert("sourceChannel"@.len() == 13);
        assert("source_channel"@.len() == 14);
        assert("feeAsset"@.len() == 8);
        assert("fee_asset"@.len() == 9);
        assert("memo"@.len() == 4);
        assert("bridgeAddress"@.len() == 13);
        assert("bridge_address"@.len() == 14);
        assert("useCompatAddress"@.len() == 16);
        assert("use_compat_address"@.len() == 18);
        assert("returnAddress"@[0] != "timeoutHeight"@[0]);
        assert("returnAddress"@[0] != "sourceChannel"@[0]);
        assert("returnAddress"@[0] != "bridgeAddress"@[0]);
        assert("return_address"@[0] != "timeout_height"@[0]);
        assert("return_address"@[0] != "source_channel"@[0]);
        assert("return_address"@[0] != "bridge_address"@[0]);
        assert("timeoutHeight"@[0] != "sourceChannel"@[0]);
        assert("timeoutHeight"@[0] != "bridgeAddress"@[0]);
        assert("timeout_height"@[0] != "source_channel"@[0]);
        assert("timeout_height"@[0] != "bridge_address"@[0]);
        assert("sourceChannel"@[0] != "bridgeAddress"@[0]);
        assert("source_channel"@[0] != "bridge_address"@[0]);
        lemma_fold_entry_if(Self::spec_start(), true, "feeAsset"@, JsonV::Str(s), Self::step_fn());
        lemma_fold_entry_if(Self::spec_start(), true, "fee_asset"@, JsonV::Str(s), Self::step_fn());
    }

    /// The field `memo` alone: an object with one member under its JSON or protobuf
    /// name reads as the message with that field set and every other field at its
    /// default, and the message with only that field off its default writes that
    /// one member under the JSON name.
    pub proof fn lemma_field_memo(s: Seq<char>)
        ensures
            Self::spec_from_json(JsonV::Object(seq![("memo"@, JsonV::Str(s))])) == Ok::<Ics20WithdrawalV, JsonErrorV>(Ics20WithdrawalV { memo: s, ..Self::spec_default() }),
            s.len() > 0 ==> Self::spec_to_json(Ics20WithdrawalV { memo: s, ..Self::spec_default() }) == JsonV::Object(seq![("memo"@, JsonV::Str(s))]),
    {
        reveal_strlit("amount");
        reveal_strlit("denom");
        reveal_strlit("destinationChainAddress");
        reveal_strlit("destination_chain_address");
        reveal_strlit("returnAddress");
        reveal_strlit("return_address");
        reveal_strlit("timeoutHeight");
        reveal_strlit("timeout_height");
        reveal_strlit("timeoutTime");
        reveal_strlit("timeout_time");
        reveal_strlit("sourceChannel");
        reveal_strlit("source_channel");
        reveal_strlit("feeAsset");
        reveal_strlit("fee_asset");
        reveal_strlit("memo");
        reveal_strlit("bridgeAddress");
        reveal_strlit("bridge_address");
        reveal_strlit("useCompatAddress");
        reveal_strlit("use_compat_address");
        assert("amount"@.len() == 6);
        assert("denom"@.len() == 5);
        assert("destinationChainAddress"@.len() == 23);
        assert("destination_chain_address"@.len() == 25);
        assert("returnAddress"@.len() == 13);
        assert("return_address"@.len() == 14);
        assert("timeoutHeight"@.len() == 13);
        assert("timeout_height"@.len() == 14);
        assert("timeoutTime"@.len() == 11);
        assert("timeout_time"@.len() == 12);
        assert("sourceChannel"@.len() == 13);
        assert("source_channel"@.len() == 14);
        assert("feeAsset"@.len() == 8);
        assert("fee_asset"@.len() == 9);
        assert("memo"@.len() == 4);
        assert("bridgeAddress"@.len() == 13);
        assert("bridge_address"@.len() == 14);
        assert("useCompatAddress"@.len() == 16);
        assert("use_compat_address"@.len() == 18);
        assert("returnAddress"@[0] != "timeoutHeight"@[0]);
        assert("returnAddress"@[0] != "sourceChannel"@[0]);
        assert("returnAddress"@[0] != "bridgeAddress"@[0]);
        assert("return_address"@[0] != "timeout_height"@[0]);
        assert("return_address"@[0] != "source_channel"@[0]);
        assert("return_address"@[0] != "bridge_address"@[0]);
        assert("timeoutHeight"@[0] != "sourceChannel"@[0]);
        assert("timeoutHeight"@[0] != "bridgeAddress"@[0]);
        assert("timeout_height"@[0] != "source_channel"@[0]);
        assert("timeout_height"@[0] != "bridge_address"@[0]);
        assert("sourceChannel"@[0] != "bridgeAddress"@[0]);
        assert("source_channel"@[0] != "bridge_address"@[0]);
        lemma_fold_entry_if(Self::spec_start(), true, "memo"@, JsonV::Str(s), Self::step_fn());
    }

    /// The field `bridge_address` alone: an object with one member under its JSON or protobuf
    /// name reads as the message with that field set and every other field at its
    /// default, and the message with only that field off its default writes that
    /// one member under the JSON name.
    pub proof fn lemma_field_bridge_address(es: Seq<(Seq<char>, JsonV)>)
        ensures
            Self::spec_from_json(JsonV::Object(seq![("bridgeAddress"@, JsonV::Object(es))])) == Ok::<Ics20WithdrawalV, JsonErrorV>(Ics20WithdrawalV { bridge_address: Some(es), ..Self::spec_default() }),
            Self::spec_from_json(JsonV::Object(seq![("bridgeAddress"@, JsonV::Null)])) == Ok::<Ics20WithdrawalV, JsonErrorV>(Self::spec_default()),
            Self::spec_from_json(JsonV::Object(seq![("bridge_address"@, JsonV::Object(es))])) == Ok::<Ics20WithdrawalV, JsonErrorV>(Ics20WithdrawalV { bridge_address: Some(es), ..Self::spec_default() }),
            Self::spec_from_json(JsonV::Object(seq![("bridge_address"@, JsonV::Null)])) == Ok::<Ics20WithdrawalV, JsonErrorV>(Self::spec_default()),
            Self::spec_to_json(Ics20WithdrawalV { bridge_address: Some(es), ..Self::spec_default() }) == JsonV::Object(seq![("bridgeAddress"@, JsonV::Object(es))]),
    {
        reveal_strlit("amount");
        reveal_strlit("denom");
        reveal_strlit("destinationChainAddress");
        reveal_strlit("destination_chain_address");
        reveal_strlit("returnAddress");
        reveal_strlit("return_address");
        reveal_strlit("timeoutHeight");
        reveal_strlit("timeout_height");
        reveal_strlit("timeoutTime");
        reveal_strlit("timeout_time");
        reveal_strlit("sourceChannel");
        reveal_strlit("source_channel");
        reveal_strlit("feeAsset");
        reveal_strlit("fee_asset");
        reveal_strlit("memo");
        reveal_strlit("bridgeAddress");
        reveal_strlit("bridge_address");
        reveal_strlit("useCompatAddress");
        reveal_strlit("use_compat_address");
        assert("amount"@.len() == 6);
        assert("denom"@.len() == 5);
        assert("destinationChainAddress"@.len() == 23);
        assert("destination_chain_address"@.len() == 25);
        assert("returnAddress"@.len() == 13);
        assert("return_address"@.len() == 14);
        assert("timeoutHeight"@.len() == 13);
        assert("timeout_height"@.len() == 14);
        assert("timeoutTime"@.len() == 11);
        assert("timeout_time"@.len() == 12);
        assert("sourceChannel"@.len() == 13);
        assert("source_channel"@.len() == 14);
        assert("feeAsset"@.len() == 8);
        assert("fee_asset"@.len() == 9);
        assert("memo"@.len() == 4);
        assert("bridgeAddress"@.len() == 13);
        assert("bridge_address"@.len() == 14);
        assert("useCompatAddress"@.len() == 16);
        assert("use_compat_address"@.len() == 18);
        assert("returnAddress"@[0] != "timeoutHeight"@[0]);
        assert("returnAddress"@[0] != "sourceChannel"@[0]);
        assert("returnAddress"@[0] != "bridgeAddress"@[0]);
        assert("return_address"@[0] != "timeout_height"@[0]);
        assert("return_address"@[0] != "source_channel"@[0]);
        assert("return_address"@[0] != "bridge_address"@[0]);
        assert("timeoutHeight"@[0] != "sourceChannel"@[0]);
        assert("timeoutHeight"@[0] != "bridgeAddress"@[0]);
        assert("timeout_height"@[0] != "source_channel"@[0]);
        assert("timeout_height"@[0] != "bridge_address"@[0]);
        assert("sourceChannel"@[0] != "bridgeAddress"@[0]);
        assert("source_channel"@[0] != "bridge_address"@[0]);
        lemma_fold_entry_if(Self::spec_start(), true, "bridgeAddress"@, JsonV::Object(es), Self::step_fn());
        lemma_fold_entry_if(Self::spec_start(), true, "bridgeAddress"@, JsonV::Null, Self::step_fn());
        lemma_fold_entry_if(Self::spec_start(), true, "bridge_address"@, JsonV::Object(es), Self::step_fn());
        lemma_fold_entry_if(Self::spec_start(), true, "bridge_address"@, JsonV::Null, Self::step_fn());
    }

    /// The field `use_compat_address` alone: an object with one member under its JSON or protobuf
    /// name reads as the message with that field set and every other field at its
    /// default, and the message with only that field off its default writes that
    /// one member under the JSON name.
    pub proof fn lemma_field_use_compat_address(b: bool)
        ensures
            Self::spec_from_json(JsonV::Object(seq![("useCompatAddress"@, JsonV::Bool(b))])) == Ok::<Ics20WithdrawalV, JsonErrorV>(Ics20WithdrawalV { use_compat_address: b, ..Self::spec_default() }),
            Self::spec_from_json(JsonV::Object(seq![("use_compat_address"@, JsonV::Bool(b))])) == Ok::<Ics20WithdrawalV, JsonErrorV>(Ics20WithdrawalV { use_compat_address: b, ..Self::spec_default() }),
            b ==> Self::spec_to_json(Ics20WithdrawalV { use_compat_address: b, ..Self::spec_default() }) == JsonV::Object(seq![("useCompatAddress"@, JsonV::Bool(true))]),
            !b ==> Self::spec_to_json(Ics20WithdrawalV { use_compat_address: b, ..Self::spec_default() }) == JsonV::Object(Seq::empty()),
    {
        reveal_strlit("amount");
        reveal_strlit("denom");
        reveal_strlit("destinationChainAddress");
        reveal_strlit("destination_chain_address");
        reveal_strlit("returnAddress");
        reveal_strlit("return_address");
        reveal_strlit("timeoutHeight");
        reveal_strlit("timeout_height");
        reveal_strlit("timeoutTime");
        reveal_strlit("timeout_time");
        reveal_strlit("sourceChannel");
        reveal_strlit("source_channel");
        reveal_strlit("feeAsset");
        reveal_strlit("fee_asset");
        reveal_strlit("memo");
        reveal_strlit("bridgeAddress");
        reveal_strlit("bridge_address");
        reveal_strlit("useCompatAddress");
        reveal_strlit("use_compat_address");
        assert("amount"@.len() == 6);
        assert("denom"@.len() == 5);
        assert("destinationChainAddress"@.len() == 23);
        assert("destination_chain_address"@.len() == 25);
        assert("returnAddress"@.len() == 13);
        assert("return_address"@.len() == 14);
        assert("timeoutHeight"@.len() == 13);
        assert("timeout_height"@.len() == 14);
        assert("timeoutTime"@.len() == 11);
        assert("timeout_time"@.len() == 12);
        assert("sourceChannel"@.len() == 13);
        assert("source_channel"@.len() == 14);
        assert("feeAsset"@.len() == 8);
        assert("fee_asset"@.len() == 9);
        assert("memo"@.len() == 4);
        assert("bridgeAddress"@.len() == 13);
        assert("bridge_address"@.len() == 14);
        assert("useCompatAddress"@.len() == 16);
        assert("use_compat_address"@.len() == 18);
        assert("returnAddress"@[0] != "timeoutHeight"@[0]);
        assert("returnAddress"@[0] != "sourceChannel"@[0]);
        assert("returnAddress"@[0] != "bridgeAddress"@[0]);
        assert("return_address"@[0] != "timeout_height"@[0]);
        assert("return_address"@[0] != "source_channel"@[0]);
        assert("return_address"@[0] != "bridge_address"@[0]);
        assert("timeoutHeight"@[0] != "sourceChannel"@[0]);
        assert("timeoutHeight"@[0] != "bridgeAddress"@[0]);
        assert("timeout_height"@[0] != "source_channel"@[0]);
        assert("timeout_height"@[0] != "bridge_address"@[0]);
        assert("sourceChannel"@[0] != "bridgeAddress"@[0]);
        assert("source_channel"@[0] != "bridge_address"@[0]);
        lemma_fold_entry_if(Self::spec_start(), true, "useCompatAddress"@, JsonV::Bool(b), Self::step_fn());
        lemma_fold_entry_if(Self::spec_start(), true, "use_compat_address"@, JsonV::Bool(b), Self::step_fn());
    }

    /// Reading back the JSON object of a message gives the message.
    pub proof fn lemma_json_roundtrip(m: Ics20WithdrawalV)
        ensures Self::spec_from_json(Self::spec_to_json(m)) == Ok::<Ics20WithdrawalV, JsonErrorV>(m),
    {
        let step = Self::step_fn();
        let s0 = Self::spec_start();
        let s1 = (Ics20WithdrawalV { amount: m.amount, ..s0.0 }, s0.1);
        Self::lemma_entry_amount(m, s0);
        let s2 = (Ics20WithdrawalV { denom: m.denom, ..s1.0 }, if m.denom.len() != 0 { s1.1.update(0, true) } else { s1.1 });
        Self::lemma_entry_denom(m, s1);
        let s3 = (Ics20WithdrawalV { destination_chain_address: m.destination_chain_address, ..s2.0 }, if m.destination_chain_address.len() != 0 { s2.1.update(1, true) } else { s2.1 });
        Self::lemma_entry_destination_chain_address(m, s2);
        let s4 = (Ics20WithdrawalV { return_address: m.return_address, ..s3.0 }, s3.1);
        Self::lemma_entry_return_address(m, s3);
        let s5 = (Ics20WithdrawalV { timeout_height: m.timeout_height, ..s4.0 }, s4.1);
        Self::lemma_entry_timeout_height(m, s4);
        let s6 = (Ics20WithdrawalV { timeout_time: m.timeout_time, ..s5.0 }, if m.timeout_time != 0 { s5.1.update(2, true) } else { s5.1 });
        Self::lemma_entry_timeout_time(m, s5);
        let s7 = (Ics20WithdrawalV { source_channel: m.source_channel, ..s6.0 }, if m.source_channel.len() != 0 { s6.1.update(3, true) } else { s6.1 });
        Self::lemma_entry_source_channel(m, s6);
        let s8 = (Ics20WithdrawalV { fee_asset: m.fee_asset, ..s7.0 }, if m.fee_asset.len() != 0 { s7.1.update(4, true) } else { s7.1 });
        Self::lemma_entry_fee_asset(m, s7);
        let s9 = (Ics20WithdrawalV { memo: m.memo, ..s8.0 }, if m.memo.len() != 0 { s8.1.update(5, true) } else { s8.1 });
        Self::lemma_entry_memo(m, s8);
        let s10 = (Ics20WithdrawalV { bridge_address: m.bridge_address, ..s9.0 }, s9.1);
        Self::lemma_entry_bridge_address(m, s9);
        let s11 = (Ics20WithdrawalV { use_compat_address: m.use_compat_address, ..s10.0 }, if m.use_compat_address { s10.1.update(6, true) } else { s10.1 });
        Self::lemma_entry_use_compat_address(m, s10);
        let p1 = Self::spec_entry_amount(m);
        let p2 = p1 + Self::spec_entry_denom(m);
        lemma_fold_entries_append(s0, p1, Self::spec_entry_denom(m), step);
        let p3 = p2 + Self::spec_entry_destination_chain_address(m);
        lemma_fold_entries_append(s0, p2, Self::spec_entry_destination_chain_address(m), step);
        let p4 = p3 + Self::spec_entry_return_address(m);
        lemma_fold_entries_append(s0, p3, Self::spec_entry_return_address(m), step);
        let p5 = p4 + Self::spec_entry_timeout_height(m);
        lemma_fold_entries_append(s0, p4, Self::spec_entry_timeout_height(m), step);
        let p6 = p5 + Self::spec_entry_timeout_time(m);
        lemma_fold_entries_append(s0, p5, Self::spec_entry_timeout_time(m), step);
        let p7 = p6 + Self::spec_entry_source_channel(m);
        lemma_fold_entries_append(s0, p6, Self::spec_entry_source_channel(m), step);
        let p8 = p7 + Self::spec_entry_fee_asset(m);
        lemma_fold_entries_append(s0, p7, Self::spec_entry_fee_asset(m), step);
        let p9 = p8 + Self::spec_entry_memo(m);
        lemma_fold_entries_append(s0, p8, Self::spec_entry_memo(m), step);
        let p10 = p9 + Self::spec_entry_bridge_address(m);
        lemma_fold_entries_append(s0, p9, Self::spec_entry_bridge_address(m), step);
        let p11 = p10 + Self::spec_entry_use_compat_address(m);
        lemma_fold_entries_append(s0, p10, Self::spec_entry_use_compat_address(m), step);
        assert(s11.0 == m);
    }
}

/// The `astria.protocol.transaction.v1.InitBridgeAccount` message.
#[derive(Clone, Debug, PartialEq)]
pub struct InitBridgeAccount {
    pub rollup_id: Option<RollupId>,
    pub asset: String,
    pub fee_asset: String,
    pub sudo_address: Option<Address>,
    pub withdrawer_address: Option<Address>,
}

/// The mathematical content of an [`InitBridgeAccount`].
pub struct InitBridgeAccountV {
    pub rollup_id: Option<Seq<(Seq<char>, JsonV)>>,
    pub asset: Seq<char>,
    pub fee_asset: Seq<char>,
    pub sudo_address: Option<Seq<(Seq<char>, JsonV)>>,
    pub withdrawer_address: Option<Seq<(Seq<char>, JsonV)>>,
}

impl View for InitBridgeAccount {
    type V = InitBridgeAccountV;

    open spec fn view(&self) -> InitBridgeAccountV {
        InitBridgeAccountV {
            rollup_id: opt_embedded_view(self.rollup_id),
            asset: self.asset@,
            fee_asset: self.fee_asset@,
            sudo_address: opt_embedded_view(self.sudo_address),
            withdrawer_address: opt_embedded_view(self.withdrawer_address),
        }
    }
}

impl Default for InitBridgeAccount {
    fn default() -> (r: Self)
        ensures r@ == InitBridgeAccount::spec_default(),
    {
        let r = InitBridgeAccount {
            rollup_id: None,
            asset: String::new(),
            fee_asset: String::new(),
            sudo_address: None,
            withdrawer_address: None,
        };
        r
    }
}

impl InitBridgeAccount {
    /// The fully qualified protobuf name of the message.
    pub fn full_name() -> (r: String)
        ensures r@ == "astria.protocol.transaction.v1.InitBridgeAccount"@,
    {
        "astria.protocol.transaction.v1.InitBridgeAccount".to_string()
    }

    /// Every field at its default: empty strings, bytes and lists, zero, `false`, unset.
    pub open spec fn spec_default() -> InitBridgeAccountV {
        InitBridgeAccountV {
            rollup_id: None,
            asset: Seq::<char>::empty(),
            fee_asset: Seq::<char>::empty(),
            sudo_address: None,
            withdrawer_address: None,
        }
    }

    /// The view of an optional field of this message type.
    pub open spec fn view_opt(o: Option<Self>) -> Option<InitBridgeAccountV> {
        match o {
            Some(x) => Some(x@),
            None => None,
        }
    }

    /// The view of a repeated field of this message type.
    pub open spec fn view_list(v: Seq<Self>) -> Seq<InitBridgeAccountV> {
        v.map_values(|x: Self| x@)
    }

    /// The member that the field `rollup_id` writes: none where it holds its default.
    pub open spec fn spec_entry_rollup_id(m: InitBridgeAccountV) -> Seq<(Seq<char>, JsonV)> {
        entry_if(m.rollup_id is Some, "rollupId"@, JsonV::Object(m.rollup_id.unwrap()))
    }

    /// The member that the field `asset` writes: none where it holds its default.
    pub open spec fn spec_entry_asset(m: InitBridgeAccountV) -> Seq<(Seq<char>, JsonV)> {
        entry_if(m.asset.len() != 0, "asset"@, JsonV::Str(m.asset))
    }

    /// The member that the field `fee_asset` writes: none where it holds its default.
    pub open spec fn spec_entry_fee_asset(m: InitBridgeAccountV) -> Seq<(Seq<char>, JsonV)> {
        entry_if(m.fee_asset.len() != 0, "feeAsset"@, JsonV::Str(m.fee_asset))
    }

    /// The member that the field `sudo_address` writes: none where it holds its default.
    pub open spec fn spec_entry_sudo_address(m: InitBridgeAccountV) -> Seq<(Seq<char>, JsonV)> {
        entry_if(m.sudo_address is Some, "sudoAddress"@, JsonV::Object(m.sudo_address.unwrap()))
    }

    /// The member that the field `withdrawer_address` writes: none where it holds its default.
    pub open spec fn spec_entry_withdrawer_address(m: InitBridgeAccountV) -> Seq<(Seq<char>, JsonV)> {
        entry_if(m.withdrawer_address is Some, "withdrawerAddress"@, JsonV::Object(m.withdrawer_address.unwrap()))
    }

    /// The members of the JSON object of the message: each field that does not hold
    /// its default, under its JSON name, in the order of the fields.
    pub open spec fn spec_entries(m: InitBridgeAccountV) -> Seq<(Seq<char>, JsonV)> {
        Self::spec_entry_rollup_id(m) + Self::spec_entry_asset(m) + Self::spec_entry_fee_asset(m) + Self::spec_entry_sudo_address(m) + Self::spec_entry_withdrawer_address(m)
    }

    /// The JSON object that the protobuf JSON mapping writes for the message.
    pub open spec fn spec_to_json(m: InitBridgeAccountV) -> JsonV {
        JsonV::Object(Self::spec_entries(m))
    }

    /// [`Self::spec_to_json`] as a function value, for repeated fields.
    pub open spec fn writer() -> spec_fn(InitBridgeAccountV) -> JsonV {
        |m: InitBridgeAccountV| Self::spec_to_json(m)
    }

    fn write_rollup_id(&self, es: &mut Vec<(String, Json)>)
        ensures
            view_entries(final(es)@) == view_entries(old(es)@) + Self::spec_entry_rollup_id(self@),
    {
        match &self.rollup_id {
            Some(x) => push_entry(es, "rollupId", embedded_value(x)),
            None => {},
        }
        assert(view_entries(es@) =~= view_entries(old(es)@) + Self::spec_entry_rollup_id(self@));
    }

    fn write_asset(&self, es: &mut Vec<(String, Json)>)
        ensures
            view_entries(final(es)@) == view_entries(old(es)@) + Self::spec_entry_asset(self@),
    {
        if !self.asset.as_str().is_empty() {
            push_entry(es, "asset", string_value(&self.asset));
        }
        assert(view_entries(es@) =~= view_entries(old(es)@) + Self::spec_entry_asset(self@));
    }

    fn write_fee_asset(&self, es: &mut Vec<(String, Json)>)
        ensures
            view_entries(final(es)@) == view_entries(old(es)@) + Self::spec_entry_fee_asset(self@),
    {
        if !self.fee_asset.as_str().is_empty() {
            push_entry(es, "feeAsset", string_value(&self.fee_asset));
        }
        assert(view_entries(es@) =~= view_entries(old(es)@) + Self::spec_entry_fee_asset(self@));
    }

    fn write_sudo_address(&self, es: &mut Vec<(String, Json)>)
        ensures
            view_entries(final(es)@) == view_entries(old(es)@) + Self::spec_entry_sudo_address(self@),
    {
        match &self.sudo_address {
            Some(x) => push_entry(es, "sudoAddress", embedded_value(x)),
            None => {},
        }
        assert(view_entries(es@) =~= view_entries(old(es)@) + Self::spec_entry_sudo_address(self@));
    }

    fn write_withdrawer_address(&self, es: &mut Vec<(String, Json)>)
        ensures
            view_entries(final(es)@) == view_entries(old(es)@) + Self::spec_entry_withdrawer_address(self@),
    {
        match &self.withdrawer_address {
            Some(x) => push_entry(es, "withdrawerAddress", embedded_value(x)),
            None => {},
        }
        assert(view_entries(es@) =~= view_entries(old(es)@) + Self::spec_entry_withdrawer_address(self@));
    }

    /// Writes the message as a JSON object; reading it back gives the message.
    pub fn to_json(&self) -> (r: Json)
        ensures
            r@ == Self::spec_to_json(self@),
            Self::spec_from_json(r@) == Ok::<InitBridgeAccountV, JsonErrorV>(self@),
    {
        let mut es: Vec<(String, Json)> = Vec::new();
        let ghost mut acc: Seq<(Seq<char>, JsonV)> = Seq::empty();
        proof {
            assert(view_entries(es@) =~= acc);
        }
        self.write_rollup_id(&mut es);
        proof {
            acc = acc + Self::spec_entry_rollup_id(self@);
        }
        self.write_asset(&mut es);
        proof {
            acc = acc + Self::spec_entry_asset(self@);
        }
        self.write_fee_asset(&mut es);
        proof {
            acc = acc + Self::spec_entry_fee_asset(self@);
        }
        self.write_sudo_address(&mut es);
        proof {
            acc = acc + Self::spec_entry_sudo_address(self@);
        }
        self.write_withdrawer_address(&mut es);
        proof {
            acc = acc + Self::spec_entry_withdrawer_address(self@);
        }
        proof {
            assert(acc =~= Self::spec_entries(self@));
            Self::lemma_json_roundtrip(self@);
        }
        Json::Object(es)
    }

    /// Reads one member of the object into the message under construction; `seen`
    /// records which fields that have no unset state were already given.
    pub open spec fn spec_step(st: (InitBridgeAccountV, Seq<bool>), key: Seq<char>, v: JsonV) -> Result<(InitBridgeAccountV, Seq<bool>), JsonErrorV> {
        let m = st.0;
        let seen = st.1;
        if key == "rollupId"@ || key == "rollup_id"@ {
            if m.rollup_id is Some {
                Err(JsonErrorV::DuplicateField("rollupId"@))
            } else {
                match read_embedded(v) {
                    Ok(x) => Ok((InitBridgeAccountV { rollup_id: x, ..m }, seen)),
                    Err(e) => Err(e),
                }
            }
        } else if key == "asset"@ {
            if seen[0] {
                Err(JsonErrorV::DuplicateField("asset"@))
            } else {
                match read_string(v) {
                    Ok(x) => Ok((InitBridgeAccountV { asset: x, ..m }, seen.update(0, true))),
                    Err(e) => Err(e),
                }
            }
        } else if key == "feeAsset"@ || key == "fee_asset"@ {
            if seen[1] {
                Err(JsonErrorV::DuplicateField("feeAsset"@))
            } else {
                match read_string(v) {
                    Ok(x) => Ok((InitBridgeAccountV { fee_asset: x, ..m }, seen.update(1, true))),
                    Err(e) => Err(e),
                }
            }
        } else if key == "sudoAddress"@ || key == "sudo_address"@ {
            if m.sudo_address is Some {
                Err(JsonErrorV::DuplicateField("sudoAddress"@))
            } else {
                match read_embedded(v) {
                    Ok(x) => Ok((InitBridgeAccountV { sudo_address: x, ..m }, seen)),
                    Err(e) => Err(e),
                }
            }
        } else if key == "withdrawerAddress"@ || key == "withdrawer_address"@ {
            if m.withdrawer_address is Some {
                Err(JsonErrorV::DuplicateField("withdrawerAddress"@))
            } else {
                match read_embedded(v) {
                    Ok(x) => Ok((InitBridgeAccountV { withdrawer_address: x, ..m }, seen)),
                    Err(e) => Err(e),
                }
            }
        } else {
            Err(JsonErrorV::UnknownField(key))
        }
    }

    /// [`Self::spec_step`] as a function value.
    pub open spec fn step_fn() -> spec_fn((InitBridgeAccountV, Seq<bool>), Seq<char>, JsonV) -> Result<(InitBridgeAccountV, Seq<bool>), JsonErrorV> {
        |st: (InitBridgeAccountV, Seq<bool>), key: Seq<char>, v: JsonV| Self::spec_step(st, key, v)
    }

    /// The state before the first member is read: the default message, no field seen.
    pub open spec fn spec_start() -> (InitBridgeAccountV, Seq<bool>) {
        (Self::spec_default(), seq![false, false])
    }

    /// The message that a JSON value describes: an object whose keys each name a field
    /// (by its JSON name or its protobuf name), at most once each; fields that are not
    /// given keep their default. The first member that is refused gives the error.
    pub open spec fn spec_from_json(j: JsonV) -> Result<InitBridgeAccountV, JsonErrorV> {
        match j {
            JsonV::Object(es) => match fold_entries(Self::spec_start(), es, Self::step_fn()) {
                Ok(st) => Ok(st.0),
                Err(e) => Err(e),
            },
            _ => Err(JsonErrorV::ExpectedObject),
        }
    }

    /// [`Self::spec_from_json`] as a function value, for repeated fields.
    pub open spec fn reader() -> spec_fn(JsonV) -> Result<InitBridgeAccountV, JsonErrorV> {
        |v: JsonV| Self::spec_from_json(v)
    }

    /// An optional field of this message type: `null` leaves it unset.
    pub open spec fn spec_read_opt(v: JsonV) -> Result<Option<InitBridgeAccountV>, JsonErrorV> {
        match v {
            JsonV::Null => Ok(None),
            _ => match Self::spec_from_json(v) {
                Ok(x) => Ok(Some(x)),
                Err(e) => Err(e),
            },
        }
    }

    fn step(m: Self, seen: Vec<bool>, key: &String, v: &Json) -> (r: Result<(Self, Vec<bool>), JsonError>)
        requires seen@.len() == 2,
        ensures
            match r {
                Ok((m2, seen2)) => Self::spec_step((m@, seen@), key@, v@) == Ok::<(InitBridgeAccountV, Seq<bool>), JsonErrorV>((m2@, seen2@)) && seen2@.len() == 2,
                Err(e) => Self::spec_step((m@, seen@), key@, v@) == Err::<(InitBridgeAccountV, Seq<bool>), JsonErrorV>(e@),
            },
    {
        let mut m = m;
        let mut seen = seen;
        let k = key.as_str();
        if str_eq(k, "rollupId") || str_eq(k, "rollup_id") {
            if m.rollup_id.is_some() {
                return Err(JsonError::DuplicateField("rollupId".to_string()));
            }
            match embedded_field(v) {
                Ok(x) => m.rollup_id = x,
                Err(e) => return Err(e),
            }
        } else if str_eq(k, "asset") {
            if seen[0] {
                return Err(JsonError::DuplicateField("asset".to_string()));
            }
            match string_field(v) {
                Ok(x) => m.asset = x,
                Err(e) => return Err(e),
            }
            seen.set(0, true);
        } else if str_eq(k, "feeAsset") || str_eq(k, "fee_asset") {
            if seen[1] {
                return Err(JsonError::DuplicateField("feeAsset".to_string()));
            }
            match string_field(v) {
                Ok(x) => m.fee_asset = x,
                Err(e) => return Err(e),
            }
            seen.set(1, true);
        } else if str_eq(k, "sudoAddress") || str_eq(k, "sudo_address") {
            if m.sudo_address.is_some() {
                return Err(JsonError::DuplicateField("sudoAddress".to_string()));
            }
            match embedded_field(v) {
                Ok(x) => m.sudo_address = x,
                Err(e) => return Err(e),
            }
        } else if str_eq(k, "withdrawerAddress") || str_eq(k, "withdrawer_address") {
            if m.withdrawer_address.is_some() {
                return Err(JsonError::DuplicateField("withdrawerAddress".to_string()));
            }
            match embedded_field(v) {
                Ok(x) => m.withdrawer_address = x,
                Err(e) => return Err(e),
            }
        } else {
            return Err(JsonError::UnknownField(key.clone()));
        }
        Ok((m, seen))
    }

    /// Reads the message from a JSON value, as [`Self::spec_from_json`] describes.
    pub fn from_json(j: &Json) -> (r: Result<Self, JsonError>)
        ensures
            match r {
                Ok(m) => Self::spec_from_json(j@) == Ok::<InitBridgeAccountV, JsonErrorV>(m@),
                Err(e) => Self::spec_from_json(j@) == Err::<InitBridgeAccountV, JsonErrorV>(e@),
            },
    {
        let es = match j {
            Json::Object(es) => es,
            _ => return Err(JsonError::ExpectedObject),
        };
        let ghost ves = view_entries(es@);
        proof {
            lemma_view_entries_len(es@);
            assert(j@ == JsonV::Object(ves));
        }
        let mut m = Self::default();
        let mut seen: Vec<bool> = vec![false, false];
        let mut i: usize = 0;
        proof {
            assert(seen@ =~= Self::spec_start().1);
            assert(ves.skip(0) == ves);
        }
        while i < es.len()
            invariant
                j@ == JsonV::Object(ves),
                ves == view_entries(es@),
                ves.len() == es@.len(),
                i <= es.len(),
                seen@.len() == 2,
                fold_entries(Self::spec_start(), ves, Self::step_fn())
                    == fold_entries((m@, seen@), ves.skip(i as int), Self::step_fn()),
            decreases es.len() - i,
        {
            proof {
                lemma_view_entries_index(es@, i as int);
                lemma_fold_entries_step((m@, seen@), ves, i as int, Self::step_fn());
            }
            match Self::step(m, seen, &es[i].0, &es[i].1) {
                Ok((m2, seen2)) => {
                    m = m2;
                    seen = seen2;
                },
                Err(e) => return Err(e),
            }
            i = i + 1;
        }
        proof {
            assert(ves.skip(ves.len() as int) == Seq::<(Seq<char>, JsonV)>::empty());
            assert(fold_entries((m@, seen@), ves.skip(ves.len() as int), Self::step_fn())
                == Ok::<(InitBridgeAccountV, Seq<bool>), JsonErrorV>((m@, seen@)));
        }
        Ok(m)
    }

    /// Reads an optional field of this message type.
    pub fn opt_from_json(v: &Json) -> (r: Result<Option<Self>, JsonError>)
        ensures
            match r {
                Ok(None) => Self::spec_read_opt(v@) == Ok::<Option<InitBridgeAccountV>, JsonErrorV>(None),
                Ok(Some(x)) => Self::spec_read_opt(v@) == Ok::<Option<InitBridgeAccountV>, JsonErrorV>(Some(x@)),
                Err(e) => Self::spec_read_opt(v@) == Err::<Option<InitBridgeAccountV>, JsonErrorV>(e@),
            },
    {
        match v {
            Json::Null => Ok(None),
            _ => match Self::from_json(v) {
                Ok(x) => Ok(Some(x)),
                Err(e) => Err(e),
            },
        }
    }

    /// Reading the member that the field `rollup_id` writes sets the field.
    pub proof fn lemma_entry_rollup_id(m: InitBridgeAccountV, st: (InitBridgeAccountV, Seq<bool>))
        requires
            st.1.len() == 2,
            st.0.rollup_id is None,
        ensures
            fold_entries(st, Self::spec_entry_rollup_id(m), Self::step_fn()) == Ok::<(InitBridgeAccountV, Seq<bool>), JsonErrorV>((InitBridgeAccountV { rollup_id: m.rollup_id, ..st.0 }, st.1)),
    {
        reveal_strlit("rollupId");
        reveal_strlit("rollup_id");
        reveal_strlit("asset");
        reveal_strlit("feeAsset");
        reveal_strlit("fee_asset");
        reveal_strlit("sudoAddress");
        reveal_strlit("sudo_address");
        reveal_strlit("withdrawerAddress");
        reveal_strlit("withdrawer_address");
        assert("rollupId"@.len() == 8);
        assert("rollup_id"@.len() == 9);
        assert("asset"@.len() == 5);
        assert("feeAsset"@.len() == 8);
        assert("fee_asset"@.len() == 9);
        assert("sudoAddress"@.len() == 11);
        assert("sudo_address"@.len() == 12);
        assert("withdrawerAddress"@.len() == 17);
        assert("withdrawer_address"@.len() == 18);
        assert("rollupId"@[0] != "feeAsset"@[0]);
        assert("rollup_id"@[0] != "fee_asset"@[0]);
        lemma_fold_entry_if(st, m.rollup_id is Some, "rollupId"@, JsonV::Object(m.rollup_id.unwrap()), Self::step_fn());
    }

    /// Reading the member that the field `asset` writes sets the field.
    pub proof fn lemma_entry_asset(m: InitBridgeAccountV, st: (InitBridgeAccountV, Seq<bool>))
        requires
            st.1.len() == 2,
            !st.1[0],
            st.0.asset == Seq::<char>::empty(),
        ensures
            fold_entries(st, Self::spec_entry_asset(m), Self::step_fn()) == Ok::<(InitBridgeAccountV, Seq<bool>), JsonErrorV>((InitBridgeAccountV { asset: m.asset, ..st.0 }, if m.asset.len() != 0 { st.1.update(0, true) } else { st.1 })),
    {
        reveal_strlit("rollupId");
        reveal_strlit("rollup_id");
        reveal_strlit("asset");
        reveal_strlit("feeAsset");
        reveal_strlit("fee_asset");
        reveal_strlit("sudoAddress");
        reveal_strlit("sudo_address");
        reveal_strlit("withdrawerAddress");
        reveal_strlit("withdrawer_address");
        assert("rollupId"@.len() == 8);
        assert("rollup_id"@.len() == 9);
        assert("asset"@.len() == 5);
        assert("feeAsset"@.len() == 8);
        assert("fee_asset"@.len() == 9);
        assert("sudoAddress"@.len() == 11);
        assert("sudo_address"@.len() == 12);
        assert("withdrawerAddress"@.len() == 17);
        assert("withdrawer_address"@.len() == 18);
        assert("rollupId"@[0] != "feeAsset"@[0]);
        assert("rollup_id"@[0] != "fee_asset"@[0]);
        if m.asset.len() == 0 {
            assert(m.asset =~= Seq::<char>::empty());
        }
        lemma_fold_entry_if(st, m.asset.len() != 0, "asset"@, JsonV::Str(m.asset), Self::step_fn());
    }

    /// Reading the member that the field `fee_asset` writes sets the field.
    pub proof fn lemma_entry_fee_asset(m: InitBridgeAccountV, st: (InitBridgeAccountV, Seq<bool>))
        requires
            st.1.len() == 2,
            !st.1[1],
            st.0.fee_asset == Seq::<char>::empty(),
        ensures
            fold_entries(st, Self::spec_entry_fee_asset(m), Self::step_fn()) == Ok::<(InitBridgeAccountV, Seq<bool>), JsonErrorV>((InitBridgeAccountV { fee_asset: m.fee_asset, ..st.0 }, if m.fee_asset.len() != 0 { st.1.update(1, true) } else { st.1 })),
    {
        reveal_strlit("rollupId");
        reveal_strlit("rollup_id");
        reveal_strlit("asset");
        reveal_strlit("feeAsset");
        reveal_strlit("fee_asset");
        reveal_strlit("sudoAddress");
        reveal_strlit("sudo_address");
        reveal_strlit("withdrawerAddress");
        reveal_strlit("withdrawer_address");
        assert("rollupId"@.len() == 8);
        assert("rollup_id"@.len() == 9);
        assert("asset"@.len() == 5);
        assert("feeAsset"@.len() == 8);
        assert("fee_asset"@.len() == 9);
        assert("sudoAddress"@.len() == 11);
        assert("sudo_address"@.len() == 12);
        assert("withdrawerAddress"@.len() == 17);
        assert("withdrawer_address"@.len() == 18);
        assert("rollupId"@[0] != "feeAsset"@[0]);
        assert("rollup_id"@[0] != "fee_asset"@[0]);
        if m.fee_asset.len() == 0 {
            assert(m.fee_asset =~= Seq::<char>::empty());
        }
        lemma_fold_entry_if(st, m.fee_asset.len() != 0, "feeAsset"@, JsonV::Str(m.fee_asset), Self::step_fn());
    }

    /// Reading the member that the field `sudo_address` writes sets the field.
    pub proof fn lemma_entry_sudo_address(m: InitBridgeAccountV, st: (InitBridgeAccountV, Seq<bool>))
        requires
            st.1.len() == 2,
            st.0.sudo_address is None,
        ensures
            fold_entries(st, Self::spec_entry_sudo_address(m), Self::step_fn()) == Ok::<(InitBridgeAccountV, Seq<bool>), JsonErrorV>((InitBridgeAccountV { sudo_address: m.sudo_address, ..st.0 }, st.1)),
    {
        reveal_strlit("rollupId");
        reveal_strlit("rollup_id");
        reveal_strlit("asset");
        reveal_strlit("feeAsset");
        reveal_strlit("fee_asset");
        reveal_strlit("sudoAddress");
        reveal_strlit("sudo_address");
        reveal_strlit("withdrawerAddress");
        reveal_strlit("withdrawer_address");
        assert("rollupId"@.len() == 8);
        assert("rollup_id"@.len() == 9);
        assert("asset"@.len() == 5);
        assert("feeAsset"@.len() == 8);
        assert("fee_asset"@.len() == 9);
        assert("sudoAddress"@.len() == 11);
        assert("sudo_address"@.len() == 12);
        assert("withdrawerAddress"@.len() == 17);
        assert("withdrawer_address"@.len() == 18);
        assert("rollupId"@[0] != "feeAsset"@[0]);
        assert("rollup_id"@[0] != "fee_asset"@[0]);
        lemma_fold_entry_if(st, m.sudo_address is Some, "sudoAddress"@, JsonV::Object(m.sudo_address.unwrap()), Self::step_fn());
    }

    /// Reading the member that the field `withdrawer_address` writes sets the field.
    pub proof fn lemma_entry_withdrawer_address(m: InitBridgeAccountV, st: (InitBridgeAccountV, Seq<bool>))
        requires
            st.1.len() == 2,
            st.0.withdrawer_address is None,
        ensures
            fold_entries(st, Self::spec_entry_withdrawer_address(m), Self::step_fn()) == Ok::<(InitBridgeAccountV, Seq<bool>), JsonErrorV>((InitBridgeAccountV { withdrawer_address: m.withdrawer_address, ..st.0 }, st.1)),
    {
        reveal_strlit("rollupId");
        reveal_strlit("rollup_id");
        reveal_strlit("asset");
        reveal_strlit("feeAsset");
        reveal_strlit("fee_asset");
        reveal_strlit("sudoAddress");
        reveal_strlit("sudo_address");
        reveal_strlit("withdrawerAddress");
        reveal_strlit("withdrawer_address");
        assert("rollupId"@.len() == 8);
        assert("rollup_id"@.len() == 9);
        assert("asset"@.len() == 5);
        assert("feeAsset"@.len() == 8);
        assert("fee_asset"@.len() == 9);
        assert("sudoAddress"@.len() == 11);
        assert("sudo_address"@.len() == 12);
        assert("withdrawerAddress"@.len() == 17);
        assert("withdrawer_address"@.len() == 18);
        assert("rollupId"@[0] != "feeAsset"@[0]);
        assert("rollup_id"@[0] != "fee_asset"@[0]);
        lemma_fold_entry_if(st, m.withdrawer_address is Some, "withdrawerAddress"@, JsonV::Object(m.withdrawer_address.unwrap()), Self::step_fn());
    }

    /// The JSON spelling of a key: the protobuf name of a field becomes its JSON name;
    /// a JSON name, and any key that names no field, is left as it is.
    pub open spec fn spec_json_key(key: Seq<char>) -> Seq<char> {
        if key == "rollupId"@ || key == "rollup_id"@ {
            "rollupId"@
        } else if key == "asset"@ {
            "asset"@
        } else if key == "feeAsset"@ || key == "fee_asset"@ {
            "feeAsset"@
        } else if key == "sudoAddress"@ || key == "sudo_address"@ {
            "sudoAddress"@
        } else if key == "withdrawerAddress"@ || key == "withdrawer_address"@ {
            "withdrawerAddress"@
        } else {
            key
        }
    }

    /// [`Self::spec_json_key`] as a function value.
    pub open spec fn json_key_fn() -> spec_fn(Seq<char>) -> Seq<char> {
        |key: Seq<char>| Self::spec_json_key(key)
    }

    /// One member is read alike whichever spelling its key has.
    pub proof fn lemma_step_json_key(st: (InitBridgeAccountV, Seq<bool>), key: Seq<char>, v: JsonV)
        ensures Self::spec_step(st, key, v) == Self::spec_step(st, Self::spec_json_key(key), v),
    {
        reveal_strlit("rollupId");
        reveal_strlit("rollup_id");
        reveal_strlit("asset");
        reveal_strlit("feeAsset");
        reveal_strlit("fee_asset");
        reveal_strlit("sudoAddress");
        reveal_strlit("sudo_address");
        reveal_strlit("withdrawerAddress");
        reveal_strlit("withdrawer_address");
        assert("rollupId"@.len() == 8);
        assert("rollup_id"@.len() == 9);
        assert("asset"@.len() == 5);
        assert("feeAsset"@.len() == 8);
        assert("fee_asset"@.len() == 9);
        assert("sudoAddress"@.len() == 11);
        assert("sudo_address"@.len() == 12);
        assert("withdrawerAddress"@.len() == 17);
        assert("withdrawer_address"@.len() == 18);
        assert("rollupId"@[0] != "feeAsset"@[0]);
        assert("rollup_id"@[0] != "fee_asset"@[0]);
        if key == "rollup_id"@ {
            assert(Self::spec_json_key(key) == "rollupId"@);
        }
        if key == "fee_asset"@ {
            assert(Self::spec_json_key(key) == "feeAsset"@);
        }
        if key == "sudo_address"@ {
            assert(Self::spec_json_key(key) == "sudoAddress"@);
        }
        if key == "withdrawer_address"@ {
            assert(Self::spec_json_key(key) == "withdrawerAddress"@);
        }
    }

    /// Reading an object gives the same result whichever spelling each of its keys has:
    /// two objects whose members hold the same values, in the same order, under keys of
    /// the same JSON spelling describe the same message, or are refused with the same error.
    pub proof fn lemma_key_spelling(es1: Seq<(Seq<char>, JsonV)>, es2: Seq<(Seq<char>, JsonV)>)
        requires
            es1.len() == es2.len(),
            forall|i: int| #![trigger es1[i], es2[i]] 0 <= i < es1.len() ==> es1[i].1 == es2[i].1 && Self::spec_json_key(es1[i].0) == Self::spec_json_key(es2[i].0),
        ensures Self::spec_from_json(JsonV::Object(es1)) == Self::spec_from_json(JsonV::Object(es2)),
    {
        assert forall|s: (InitBridgeAccountV, Seq<bool>), k: Seq<char>, v: JsonV|
            #![trigger Self::step_fn()(s, k, v), Self::json_key_fn()(k)]
            Self::step_fn()(s, k, v) == Self::step_fn()(s, Self::json_key_fn()(k), v) by {
            Self::lemma_step_json_key(s, k, v);
        }
        lemma_fold_same_keys(Self::spec_start(), es1, es2, Self::step_fn(), Self::json_key_fn());
    }

    /// The keys of the object that the message writes: the JSON names of the fields that
    /// do not hold their default (for a oneof, the JSON name of the member set), in the
    /// order of the fields.
    pub open spec fn spec_written_keys(m: InitBridgeAccountV) -> Seq<Seq<char>> {
        key_if(m.rollup_id is Some, "rollupId"@)
            + key_if(m.asset.len() != 0, "asset"@)
            + key_if(m.fee_asset.len() != 0, "feeAsset"@)
            + key_if(m.sudo_address is Some, "sudoAddress"@)
            + key_if(m.withdrawer_address is Some, "withdrawerAddress"@)
    }

    /// The object that the message writes has exactly the keys of
    /// [`Self::spec_written_keys`], in that order.
    pub proof fn lemma_written_keys(m: InitBridgeAccountV)
        ensures
            Self::spec_to_json(m) == JsonV::Object(Self::spec_entries(m)),
            entry_keys(Self::spec_entries(m)) == Self::spec_written_keys(m),
    {
        lemma_entry_keys_if(m.rollup_id is Some, "rollupId"@, JsonV::Object(m.rollup_id.unwrap()));
        lemma_entry_keys_append(Self::spec_entry_rollup_id(m), m.asset.len() != 0, "asset"@, JsonV::Str(m.asset));
        lemma_entry_keys_append(Self::spec_entry_rollup_id(m) + Self::spec_entry_asset(m), m.fee_asset.len() != 0, "feeAsset"@, JsonV::Str(m.fee_asset));
        lemma_entry_keys_append(Self::spec_entry_rollup_id(m) + Self::spec_entry_asset(m) + Self::spec_entry_fee_asset(m), m.sudo_address is Some, "sudoAddress"@, JsonV::Object(m.sudo_address.unwrap()));
        lemma_entry_keys_append(Self::spec_entry_rollup_id(m) + Self::spec_entry_asset(m) + Self::spec_entry_fee_asset(m) + Self::spec_entry_sudo_address(m), m.withdrawer_address is Some, "withdrawerAddress"@, JsonV::Object(m.withdrawer_address.unwrap()));
    }

    /// Whether the field whose JSON name is `name` holds its default in `m`; for a member
    /// of a oneof, whether the oneof is set to another member or unset. `true` for a name
    /// that names no field.
    pub open spec fn spec_holds_default(m: InitBridgeAccountV, name: Seq<char>) -> bool {
        if name == "rollupId"@ {
            m.rollup_id is None
        } else if name == "asset"@ {
            m.asset == Seq::<char>::empty()
        } else if name == "feeAsset"@ {
            m.fee_asset == Seq::<char>::empty()
        } else if name == "sudoAddress"@ {
            m.sudo_address is None
        } else if name == "withdrawerAddress"@ {
            m.withdrawer_address is None
        } else {
            true
        }
    }

    /// Whether reading `v` for the field whose JSON name is `name` leaves the field at
    /// its default: `null`, for a field that takes it (a message field, a member of a
    /// oneof); nothing, for any other field. `true` for a name that names no field.
    pub open spec fn spec_leaves_default(name: Seq<char>, v: JsonV) -> bool {
        if name == "rollupId"@ {
            v is Null
        } else if name == "asset"@ {
            false
        } else if name == "feeAsset"@ {
            false
        } else if name == "sudoAddress"@ {
            v is Null
        } else if name == "withdrawerAddress"@ {
            v is Null
        } else {
            true
        }
    }

    /// Reading one member keeps a field at its default unless the key names the field
    /// and the value does not leave it there.
    pub proof fn lemma_step_keeps_default(st: (InitBridgeAccountV, Seq<bool>), key: Seq<char>, v: JsonV, name: Seq<char>)
        requires
            Self::spec_holds_default(st.0, name),
            Self::spec_json_key(key) == name ==> Self::spec_leaves_default(name, v),
        ensures
            Self::spec_step(st, key, v) is Ok ==> Self::spec_holds_default(Self::spec_step(st, key, v)->Ok_0.0, name),
    {
        reveal_strlit("rollupId");
        reveal_strlit("rollup_id");
        reveal_strlit("asset");
        reveal_strlit("feeAsset");
        reveal_strlit("fee_asset");
        reveal_strlit("sudoAddress");
        reveal_strlit("sudo_address");
        reveal_strlit("withdrawerAddress");
        reveal_strlit("withdrawer_address");
        assert("rollupId"@.len() == 8);
        assert("rollup_id"@.len() == 9);
        assert("asset"@.len() == 5);
        assert("feeAsset"@.len() == 8);
        assert("fee_asset"@.len() == 9);
        assert("sudoAddress"@.len() == 11);
        assert("sudo_address"@.len() == 12);
        assert("withdrawerAddress"@.len() == 17);
        assert("withdrawer_address"@.len() == 18);
        assert("rollupId"@[0] != "feeAsset"@[0]);
        assert("rollup_id"@[0] != "fee_asset"@[0]);
        Self::lemma_step_json_key(st, key, v);
    }

    /// A field whose key appears in no member of an object, or only with values that
    /// leave it at its default (`null`, for a field that takes it), holds its default in
    /// the message that the object describes.
    pub proof fn lemma_absent_default(es: Seq<(Seq<char>, JsonV)>, name: Seq<char>)
        requires
            forall|i: int| 0 <= i < es.len() ==> (Self::spec_json_key((#[trigger] es[i]).0) == name
                ==> Self::spec_leaves_default(name, es[i].1)),
        ensures
            Self::spec_from_json(JsonV::Object(es)) is Ok
                ==> Self::spec_holds_default(Self::spec_from_json(JsonV::Object(es))->Ok_0, name),
    {
        let inv = |s: (InitBridgeAccountV, Seq<bool>)| Self::spec_holds_default(s.0, name);
        let allowed = |k: Seq<char>, v: JsonV| Self::spec_json_key(k) == name ==> Self::spec_leaves_default(name, v);
        assert forall|s: (InitBridgeAccountV, Seq<bool>), k: Seq<char>, v: JsonV| #![trigger Self::step_fn()(s, k, v)]
            inv(s) && allowed(k, v) && Self::step_fn()(s, k, v) is Ok implies inv(Self::step_fn()(s, k, v)->Ok_0) by {
            Self::lemma_step_keeps_default(s, k, v, name);
        }
        assert(inv(Self::spec_start()));
        lemma_fold_keeps(Self::spec_start(), es, Self::step_fn(), inv, allowed);
    }

    /// The field `rollup_id` alone: an object with one member under its JSON or protobuf
    /// name reads as the message with that field set and every other field at its
    /// default, and the message with only that field off its default writes that
    /// one member under the JSON name.
    pub proof fn lemma_field_rollup_id(es: Seq<(Seq<char>, JsonV)>)
        ensures
            Self::spec_from_json(JsonV::Object(seq![("rollupId"@, JsonV::Object(es))])) == Ok::<InitBridgeAccountV, JsonErrorV>(InitBridgeAccountV { rollup_id: Some(es), ..Self::spec_default() }),
            Self::spec_from_json(JsonV::Object(seq![("rollupId"@, JsonV::Null)])) == Ok::<InitBridgeAccountV, JsonErrorV>(Self::spec_default()),
            Self::spec_from_json(JsonV::Object(seq![("rollup_id"@, JsonV::Object(es))])) == Ok::<InitBridgeAccountV, JsonErrorV>(InitBridgeAccountV { rollup_id: Some(es), ..Self::spec_default() }),
            Self::spec_from_json(JsonV::Object(seq![("rollup_id"@, JsonV::Null)])) == Ok::<InitBridgeAccountV, JsonErrorV>(Self::spec_default()),
            Self::spec_to_json(InitBridgeAccountV { rollup_id: Some(es), ..Self::spec_default() }) == JsonV::Object(seq![("rollupId"@, JsonV::Object(es))]),
    {
        reveal_strlit("rollupId");
        reveal_strlit("rollup_id");
        reveal_strlit("asset");
        reveal_strlit("feeAsset");
        reveal_strlit("fee_asset");
        reveal_strlit("sudoAddress");
        reveal_strlit("sudo_address");
        reveal_strlit("withdrawerAddress");
        reveal_strlit("withdrawer_address");
        assert("rollupId"@.len() == 8);
        assert("rollup_id"@.len() == 9);
        assert("asset"@.len() == 5);
        assert("feeAsset"@.len() == 8);
        assert("fee_asset"@.len() == 9);
        assert("sudoAddress"@.len() == 11);
        assert("sudo_address"@.len() == 12);
        assert("withdrawerAddress"@.len() == 17);
        assert("withdrawer_address"@.len() == 18);
        assert("rollupId"@[0] != "feeAsset"@[0]);
        assert("rollup_id"@[0] != "fee_asset"@[0]);
        lemma_fold_entry_if(Self::spec_start(), true, "rollupId"@, JsonV::Object(es), Self::step_fn());
        lemma_fold_entry_if(Self::spec_start(), true, "rollupId"@, JsonV::Null, Self::step_fn());
        lemma_fold_entry_if(Self::spec_start(), true, "rollup_id"@, JsonV::Object(es), Self::step_fn());
        lemma_fold_entry_if(Self::spec_start(), true, "rollup_id"@, JsonV::Null, Self::step_fn());
    }

    /// The field `asset` alone: an object with one member under its JSON or protobuf
    /// name reads as the message with that field set and every other field at its
    /// default, and the message with only that field off its default writes that
    /// one member under the JSON name.
    pub proof fn lemma_field_asset(s: Seq<char>)
        ensures
            Self::spec_from_json(JsonV::Object(seq![("asset"@, JsonV::Str(s))])) == Ok::<InitBridgeAccountV, JsonErrorV>(InitBridgeAccountV { asset: s, ..Self::spec_default() }),
            s.len() > 0 ==> Self::spec_to_json(InitBridgeAccountV { asset: s, ..Self::spec_default() }) == JsonV::Object(seq![("asset"@, JsonV::Str(s))]),
    {
        reveal_strlit("rollupId");
        reveal_strlit("rollup_id");
        reveal_strlit("asset");
        reveal_strlit("feeAsset");
        reveal_strlit("fee_asset");
        reveal_strlit("sudoAddress");
        reveal_strlit("sudo_address");
        reveal_strlit("withdrawerAddress");
        reveal_strlit("withdrawer_address");
        assert("rollupId"@.len() == 8);
        assert("rollup_id"@.len() == 9);
        assert("asset"@.len() == 5);
        assert("feeAsset"@.len() == 8);
        assert("fee_asset"@.len() == 9);
        assert("sudoAddress"@.len() == 11);
        assert("sudo_address"@.len() == 12);
        assert("withdrawerAddress"@.len() == 17);
        assert("withdrawer_address"@.len() == 18);
        assert("rollupId"@[0] != "feeAsset"@[0]);
        assert("rollup_id"@[0] != "fee_asset"@[0]);
        lemma_fold_entry_if(Self::spec_start(), true, "asset"@, JsonV::Str(s), Self::step_fn());
    }

    /// The field `fee_asset` alone: an object with one member under its JSON or protobuf
    /// name reads as the message with that field set and every other field at its
    /// default, and the message with only that field off its default writes that
    /// one member under the JSON name.
    pub proof fn lemma_field_fee_asset(s: Seq<char>)
        ensures
            Self::spec_from_json(JsonV::Object(seq![("feeAsset"@, JsonV::Str(s))])) == Ok::<InitBridgeAccountV, JsonErrorV>(InitBridgeAccountV { fee_asset: s, ..Self::spec_default() }),
            Self::spec_from_json(JsonV::Object(seq![("fee_asset"@, JsonV::Str(s))])) == Ok::<InitBridgeAccountV, JsonErrorV>(InitBridgeAccountV { fee_asset: s, ..Self::spec_default() }),
            s.len() > 0 ==> Self::spec_to_json(InitBridgeAccountV { fee_asset: s, ..Self::spec_default() }) == JsonV::Object(seq![("feeAsset"@, JsonV::Str(s))]),
    {
        reveal_strlit("rollupId");
        reveal_strlit("rollup_id");
        reveal_strlit("asset");
        reveal_strlit("feeAsset");
        reveal_strlit("fee_asset");
        reveal_strlit("sudoAddress");
        reveal_strlit("sudo_address");
        reveal_strlit("withdrawerAddress");
        reveal_strlit("withdrawer_address");
        assert("rollupId"@.len() == 8);
        assert("rollup_id"@.len() == 9);
        assert("asset"@.len() == 5);
        assert("feeAsset"@.len() == 8);
        assert("fee_asset"@.len() == 9);
        assert("sudoAddress"@.len() == 11);
        assert("sudo_address"@.len() == 12);
        assert("withdrawerAddress"@.len() == 17);
        assert("withdrawer_address"@.len() == 18);
        assert("rollupId"@[0] != "feeAsset"@[0]);
        assert("rollup_id"@[0] != "fee_asset"@[0]);
        lemma_fold_entry_if(Self::spec_start(), true, "feeAsset"@, JsonV::Str(s), Self::step_fn());
        lemma_fold_entry_if(Self::spec_start(), true, "fee_asset"@, JsonV::Str(s), Self::step_fn());
    }

    /// The field `sudo_address` alone: an object with one member under its JSON or protobuf
    /// name reads as the message with that field set and every other field at its
    /// default, and the message with only that field off its default writes that
    /// one member under the JSON name.
    pub proof fn lemma_field_sudo_address(es: Seq<(Seq<char>, JsonV)>)
        ensures
            Self::spec_from_json(JsonV::Object(seq![("sudoAddress"@, JsonV::Object(es))])) == Ok::<InitBridgeAccountV, JsonErrorV>(InitBridgeAccountV { sudo_address: Some(es), ..Self::spec_default() }),
            Self::spec_from_json(JsonV::Object(seq![("sudoAddress"@, JsonV::Null)])) == Ok::<InitBridgeAccountV, JsonErrorV>(Self::spec_default()),
            Self::spec_from_json(JsonV::Object(seq![("sudo_address"@, JsonV::Object(es))])) == Ok::<InitBridgeAccountV, JsonErrorV>(InitBridgeAccountV { sudo_address: Some(es), ..Self::spec_default() }),
            Self::spec_from_json(JsonV::Object(seq![("sudo_address"@, JsonV::Null)])) == Ok::<InitBridgeAccountV, JsonErrorV>(Self::spec_default()),
            Self::spec_to_json(InitBridgeAccountV { sudo_address: Some(es), ..Self::spec_default() }) == JsonV::Object(seq![("sudoAddress"@, JsonV::Object(es))]),
    {
        reveal_strlit("rollupId");
        reveal_strlit("rollup_id");
        reveal_strlit("asset");
        reveal_strlit("feeAsset");
        reveal_strlit("fee_asset");
        reveal_strlit("sudoAddress");
        reveal_strlit("sudo_address");
        reveal_strlit("withdrawerAddress");
        reveal_strlit("withdrawer_address");
        assert("rollupId"@.len() == 8);
        assert("rollup_id"@.len() == 9);
        assert("asset"@.len() == 5);
        assert("feeAsset"@.len() == 8);
        assert("fee_asset"@.len() == 9);
        assert("sudoAddress"@.len() == 11);
        assert("sudo_address"@.len() == 12);
        assert("withdrawerAddress"@.len() == 17);
        assert("withdrawer_address"@.len() == 18);
        assert("rollupId"@[0] != "feeAsset"@[0]);
        assert("rollup_id"@[0] != "fee_asset"@[0]);
        lemma_fold_entry_if(Self::spec_start(), true, "sudoAddress"@, JsonV::Object(es), Self::step_fn());
        lemma_fold_entry_if(Self::spec_start(), true, "sudoAddress"@, JsonV::Null, Self::step_fn());
        lemma_fold_entry_if(Self::spec_start(), true, "sudo_address"@, JsonV::Object(es), Self::step_fn());
        lemma_fold_entry_if(Self::spec_start(), true, "sudo_address"@, JsonV::Null, Self::step_fn());
    }

    /// The field `withdrawer_address` alone: an object with one member under its JSON or protobuf
    /// name reads as the message with that field set and every other field at its
    /// default, and the message with only that field off its default writes that
    /// one member under the JSON name.
    pub proof fn lemma_field_withdrawer_address(es: Seq<(Seq<char>, JsonV)>)
        ensures
            Self::spec_from_json(JsonV::Object(seq![("withdrawerAddress"@, JsonV::Object(es))])) == Ok::<InitBridgeAccountV, JsonErrorV>(InitBridgeAccountV { withdrawer_address: Some(es), ..Self::spec_default() }),
            Self::spec_from_json(JsonV::Object(seq![("withdrawerAddress"@, JsonV::Null)])) == Ok::<InitBridgeAccountV, JsonErrorV>(Self::spec_default()),
            Self::spec_from_json(JsonV::Object(seq![("withdrawer_address"@, JsonV::Object(es))])) == Ok::<InitBridgeAccountV, JsonErrorV>(InitBridgeAccountV { withdrawer_address: Some(es), ..Self::spec_default() }),
            Self::spec_from_json(JsonV::Object(seq![("withdrawer_address"@, JsonV::Null)])) == Ok::<InitBridgeAccountV, JsonErrorV>(Self::spec_default()),
            Self::spec_to_json(InitBridgeAccountV { withdrawer_address: Some(es), ..Self::spec_default() }) == JsonV::Object(seq![("withdrawerAddress"@, JsonV::Object(es))]),
    {
        reveal_strlit("rollupId");
        reveal_strlit("rollup_id");
        reveal_strlit("asset");
        reveal_strlit("feeAsset");
        reveal_strlit("fee_asset");
        reveal_strlit("sudoAddress");
        reveal_strlit("sudo_address");
        reveal_strlit("withdrawerAddress");
        reveal_strlit("withdrawer_address");
        assert("rollupId"@.len() == 8);
        assert("rollup_id"@.len() == 9);
        assert("asset"@.len() == 5);
        assert("feeAsset"@.len() == 8);
        assert("fee_asset"@.len() == 9);
        assert("sudoAddress"@.len() == 11);
        assert("sudo_address"@.len() == 12);
        assert("withdrawerAddress"@.len() == 17);
        assert("withdrawer_address"@.len() == 18);
        assert("rollupId"@[0] != "feeAsset"@[0]);
        assert("rollup_id"@[0] != "fee_asset"@[0]);
        lemma_fold_entry_if(Self::spec_start(), true, "withdrawerAddress"@, JsonV::Object(es), Self::step_fn());
        lemma_fold_entry_if(Self::spec_start(), true, "withdrawerAddress"@, JsonV::Null, Self::step_fn());
        lemma_fold_entry_if(Self::spec_start(), true, "withdrawer_address"@, JsonV::Object(es), Self::step_fn());
        lemma_fold_entry_if(Self::spec_start(), true, "withdrawer_address"@, JsonV::Null, Self::step_fn());
    }

    /// Reading back the JSON object of a message gives the message.
    pub proof fn lemma_json_roundtrip(m: InitBridgeAccountV)
        ensures Self::spec_from_json(Self::spec_to_json(m)) == Ok::<InitBridgeAccountV, JsonErrorV>(m),
    {
        let step = Self::step_fn();
        let s0 = Self::spec_start();
        let s1 = (InitBridgeAccountV { rollup_id: m.rollup_id, ..s0.0 }, s0.1);
        Self::lemma_entry_rollup_id(m, s0);
        let s2 = (InitBridgeAccountV { asset: m.asset, ..s1.0 }, if m.asset.len() != 0 { s1.1.update(0, true) } else { s1.1 });
        Self::lemma_entry_asset(m, s1);
        let s3 = (InitBridgeAccountV { fee_asset: m.fee_asset, ..s2.0 }, if m.fee_asset.len() != 0 { s2.1.update(1, true) } else { s2.1 });
        Self::lemma_entry_fee_asset(m, s2);
        let s4 = (InitBridgeAccountV { sudo_address: m.sudo_address, ..s3.0 }, s3.1);
        Self::lemma_entry_sudo_address(m, s3);
        let s5 = (InitBridgeAccountV { withdrawer_address: m.withdrawer_address, ..s4.0 }, s4.1);
        Self::lemma_entry_withdrawer_address(m, s4);
        let p1 = Self::spec_entry_rollup_id(m);
        let p2 = p1 + Self::spec_entry_asset(m);
        lemma_fold_entries_append(s0, p1, Self::spec_entry_asset(m), step);
        let p3 = p2 + Self::spec_entry_fee_asset(m);
        lemma_fold_entries_append(s0, p2, Self::spec_entry_fee_asset(m), step);
        let p4 = p3 + Self::spec_entry_sudo_address(m);
        lemma_fold_entries_append(s0, p3, Self::spec_entry_sudo_address(m), step);
        let p5 = p4 + Self::spec_entry_withdrawer_address(m);
        lemma_fold_entries_append(s0, p4, Self::spec_entry_withdrawer_address(m), step);
        assert(s5.0 == m);
    }
}

/// The `astria.protocol.transaction.v1.Markets` message.
#[derive(Clone, Debug, PartialEq)]
pub struct Markets {
    pub markets: Vec<Market>,
}

/// The mathematical content of a [`Markets`].
pub struct MarketsV {
    pub markets: Seq<Seq<(Seq<char>, JsonV)>>,
}

impl View for Markets {
    type V = MarketsV;

    open spec fn view(&self) -> MarketsV {
        MarketsV {
            markets: embeddeds_view(self.markets@),
        }
    }
}

impl Default for Markets {
    fn default() -> (r: Self)
        ensures r@ == Markets::spec_default(),
    {
        let r = Markets {
            markets: Vec::new(),
        };
        proof {
            assert(embeddeds_view(r.markets@) =~= Seq::<Seq<(Seq<char>, JsonV)>>::empty());
        }
        r
    }
}

impl Markets {
    /// The fully qualified protobuf name of the message.
    pub fn full_name() -> (r: String)
        ensures r@ == "astria.protocol.transaction.v1.Markets"@,
    {
        "astria.protocol.transaction.v1.Markets".to_string()
    }

    /// Every field at its default: empty strings, bytes and lists, zero, `false`, unset.
    pub open spec fn spec_default() -> MarketsV {
        MarketsV {
            markets: Seq::<Seq<(Seq<char>, JsonV)>>::empty(),
        }
    }

    /// The view of an optional field of this message type.
    pub open spec fn view_opt(o: Option<Self>) -> Option<MarketsV> {
        match o {
            Some(x) => Some(x@),
            None => None,
        }
    }

    /// The view of a repeated field of this message type.
    pub open spec fn view_list(v: Seq<Self>) -> Seq<MarketsV> {
        v.map_values(|x: Self| x@)
    }

    /// The member that the field `markets` writes: none where it holds its default.
    pub open spec fn spec_entry_markets(m: MarketsV) -> Seq<(Seq<char>, JsonV)> {
        entry_if(m.markets.len() != 0, "markets"@, JsonV::Array(m.markets.map_values(embedded_writer())))
    }

    /// The members of the JSON object of the message: each field that does not hold
    /// its default, under its JSON name, in the order of the fields.
    pub open spec fn spec_entries(m: MarketsV) -> Seq<(Seq<char>, JsonV)> {
        Self::spec_entry_markets(m)
    }

    /// The JSON object that the protobuf JSON mapping writes for the message.
    pub open spec fn spec_to_json(m: MarketsV) -> JsonV {
        JsonV::Object(Self::spec_entries(m))
    }

    /// [`Self::spec_to_json`] as a function value, for repeated fields.
    pub open spec fn writer() -> spec_fn(MarketsV) -> JsonV {
        |m: MarketsV| Self::spec_to_json(m)
    }

    fn write_markets(&self, es: &mut Vec<(String, Json)>)
        ensures
            view_entries(final(es)@) == view_entries(old(es)@) + Self::spec_entry_markets(self@),
    {
        if self.markets.len() != 0 {
            push_entry(es, "markets", embeddeds_value(&self.markets));
        }
        assert(view_entries(es@) =~= view_entries(old(es)@) + Self::spec_entry_markets(self@));
    }

    /// Writes the message as a JSON object; reading it back gives the message.
    pub fn to_json(&self) -> (r: Json)
        ensures
            r@ == Self::spec_to_json(self@),
            Self::spec_from_json(r@) == Ok::<MarketsV, JsonErrorV>(self@),
    {
        let mut es: Vec<(String, Json)> = Vec::new();
        let ghost mut acc: Seq<(Seq<char>, JsonV)> = Seq::empty();
        proof {
            assert(view_entries(es@) =~= acc);
        }
        self.write_markets(&mut es);
        proof {
            acc = acc + Self::spec_entry_markets(self@);
        }
        proof {
            assert(acc =~= Self::spec_entries(self@));
            Self::lemma_json_roundtrip(self@);
        }
        Json::Object(es)
    }

    /// Reads one member of the object into the message under construction; `seen`
    /// records which fields that have no unset state were already given.
    pub open spec fn spec_step(st: (MarketsV, Seq<bool>), key: Seq<char>, v: JsonV) -> Result<(MarketsV, Seq<bool>), JsonErrorV> {
        let m = st.0;
        let seen = st.1;
        if key == "markets"@ {
            if seen[0] {
                Err(JsonErrorV::DuplicateField("markets"@))
            } else {
                match read_array(v, embedded_reader()) {
                    Ok(x) => Ok((MarketsV { markets: x }, seen.update(0, true))),
                    Err(e) => Err(e),
                }
            }
        } else {
            Err(JsonErrorV::UnknownField(key))
        }
    }

    /// [`Self::spec_step`] as a function value.
    pub open spec fn step_fn() -> spec_fn((MarketsV, Seq<bool>), Seq<char>, JsonV) -> Result<(MarketsV, Seq<bool>), JsonErrorV> {
        |st: (MarketsV, Seq<bool>), key: Seq<char>, v: JsonV| Self::spec_step(st, key, v)
    }

    /// The state before the first member is read: the default message, no field seen.
    pub open spec fn spec_start() -> (MarketsV, Seq<bool>) {
        (Self::spec_default(), seq![false])
    }

    /// The message that a JSON value describes: an object whose keys each name a field
    /// (by its JSON name or its protobuf name), at most once each; fields that are not
    /// given keep their default. The first member that is refused gives the error.
    pub open spec fn spec_from_json(j: JsonV) -> Result<MarketsV, JsonErrorV> {
        match j {
            JsonV::Object(es) => match fold_entries(Self::spec_start(), es, Self::step_fn()) {
                Ok(st) => Ok(st.0),
                Err(e) => Err(e),
            },
            _ => Err(JsonErrorV::ExpectedObject),
        }
    }

    /// [`Self::spec_from_json`] as a function value, for repeated fields.
    pub open spec fn reader() -> spec_fn(JsonV) -> Result<MarketsV, JsonErrorV> {
        |v: JsonV| Self::spec_from_json(v)
    }

    /// An optional field of this message type: `null` leaves it unset.
    pub open spec fn spec_read_opt(v: JsonV) -> Result<Option<MarketsV>, JsonErrorV> {
        match v {
            JsonV::Null => Ok(None),
            _ => match Self::spec_from_json(v) {
                Ok(x) => Ok(Some(x)),
                Err(e) => Err(e),
            },
        }
    }

    fn step(m: Self, seen: Vec<bool>, key: &String, v: &Json) -> (r: Result<(Self, Vec<bool>), JsonError>)
        requires seen@.len() == 1,
        ensures
            match r {
                Ok((m2, seen2)) => Self::spec_step((m@, seen@), key@, v@) == Ok::<(MarketsV, Seq<bool>), JsonErrorV>((m2@, seen2@)) && seen2@.len() == 1,
                Err(e) => Self::spec_step((m@, seen@), key@, v@) == Err::<(MarketsV, Seq<bool>), JsonErrorV>(e@),
            },
    {
        let mut m = m;
        let mut seen = seen;
        let k = key.as_str();
        if str_eq(k, "markets") {
            if seen[0] {
                return Err(JsonError::DuplicateField("markets".to_string()));
            }
            match embeddeds_field(v) {
                Ok(x) => m.markets = x,
                Err(e) => return Err(e),
            }
            seen.set(0, true);
        } else {
            return Err(JsonError::UnknownField(key.clone()));
        }
        Ok((m, seen))
    }

    /// Reads the message from a JSON value, as [`Self::spec_from_json`] describes.
    pub fn from_json(j: &Json) -> (r: Result<Self, JsonError>)
        ensures
            match r {
                Ok(m) => Self::spec_from_json(j@) == Ok::<MarketsV, JsonErrorV>(m@),
                Err(e) => Self::spec_from_json(j@) == Err::<MarketsV, JsonErrorV>(e@),
            },
    {
        let es = match j {
            Json::Object(es) => es,
            _ => return Err(JsonError::ExpectedObject),
        };
        let ghost ves = view_entries(es@);
        proof {
            lemma_view_entries_len(es@);
            assert(j@ == JsonV::Object(ves));
        }
        let mut m = Self::default();
        let mut seen: Vec<bool> = vec![false];
        let mut i: usize = 0;
        proof {
            assert(seen@ =~= Self::spec_start().1);
            assert(ves.skip(0) == ves);
        }
        while i < es.len()
            invariant
                j@ == JsonV::Object(ves),
                ves == view_entries(es@),
                ves.len() == es@.len(),
                i <= es.len(),
                seen@.len() == 1,
                fold_entries(Self::spec_start(), ves, Self::step_fn())
                    == fold_entries((m@, seen@), ves.skip(i as int), Self::step_fn()),
            decreases es.len() - i,
        {
            proof {
                lemma_view_entries_index(es@, i as int);
                lemma_fold_entries_step((m@, seen@), ves, i as int, Self::step_fn());
            }
            match Self::step(m, seen, &es[i].0, &es[i].1) {
                Ok((m2, seen2)) => {
                    m = m2;
                    seen = seen2;
                },
                Err(e) => return Err(e),
            }
            i = i + 1;
        }
        proof {
            assert(ves.skip(ves.len() as int) == Seq::<(Seq<char>, JsonV)>::empty());
            assert(fold_entries((m@, seen@), ves.skip(ves.len() as int), Self::step_fn())
                == Ok::<(MarketsV, Seq<bool>), JsonErrorV>((m@, seen@)));
        }
        Ok(m)
    }

    /// Reads an optional field of this message type.
    pub fn opt_from_json(v: &Json) -> (r: Result<Option<Self>, JsonError>)
        ensures
            match r {
                Ok(None) => Self::spec_read_opt(v@) == Ok::<Option<MarketsV>, JsonErrorV>(None),
                Ok(Some(x)) => Self::spec_read_opt(v@) == Ok::<Option<MarketsV>, JsonErrorV>(Some(x@)),
                Err(e) => Self::spec_read_opt(v@) == Err::<Option<MarketsV>, JsonErrorV>(e@),
            },
    {
        match v {
            Json::Null => Ok(None),
            _ => match Self::from_json(v) {
                Ok(x) => Ok(Some(x)),
                Err(e) => Err(e),
            },
        }
    }

    /// Reading the member that the field `markets` writes sets the field.
    pub proof fn lemma_entry_markets(m: MarketsV, st: (MarketsV, Seq<bool>))
        requires
            st.1.len() == 1,
            !st.1[0],
            st.0.markets == Seq::<Seq<(Seq<char>, JsonV)>>::empty(),
        ensures
            fold_entries(st, Self::spec_entry_markets(m), Self::step_fn()) == Ok::<(MarketsV, Seq<bool>), JsonErrorV>((MarketsV { markets: m.markets }, if m.markets.len() != 0 { st.1.update(0, true) } else { st.1 })),
    {
        reveal_strlit("markets");
        assert("markets"@.len() == 7);
        if m.markets.len() == 0 {
            assert(m.markets =~= Seq::<Seq<(Seq<char>, JsonV)>>::empty());
        }
        assert forall|i: int| 0 <= i < m.markets.len() implies embedded_reader()(embedded_writer()(#[trigger] m.markets[i])) == Ok::<Seq<(Seq<char>, JsonV)>, JsonErrorV>(m.markets[i]) by {}
        lemma_read_list_roundtrip(m.markets, embedded_writer(), embedded_reader());
        lemma_fold_entry_if(st, m.markets.len() != 0, "markets"@, JsonV::Array(m.markets.map_values(embedded_writer())), Self::step_fn());
    }

    /// The JSON spelling of a key: the protobuf name of a field becomes its JSON name;
    /// a JSON name, and any key that names no field, is left as it is.
    pub open spec fn spec_json_key(key: Seq<char>) -> Seq<char> {
        if key == "markets"@ {
            "markets"@
        } else {
            key
        }
    }

    /// [`Self::spec_json_key`] as a function value.
    pub open spec fn json_key_fn() -> spec_fn(Seq<char>) -> Seq<char> {
        |key: Seq<char>| Self::spec_json_key(key)
    }

    /// One member is read alike whichever spelling its key has.
    pub proof fn lemma_step_json_key(st: (MarketsV, Seq<bool>), key: Seq<char>, v: JsonV)
        ensures Self::spec_step(st, key, v) == Self::spec_step(st, Self::spec_json_key(key), v),
    {
        reveal_strlit("markets");
        assert("markets"@.len() == 7);
    }

    /// Reading an object gives the same result whichever spelling each of its keys has:
    /// two objects whose members hold the same values, in the same order, under keys of
    /// the same JSON spelling describe the same message, or are refused with the same error.
    pub proof fn lemma_key_spelling(es1: Seq<(Seq<char>, JsonV)>, es2: Seq<(Seq<char>, JsonV)>)
        requires
            es1.len() == es2.len(),
            forall|i: int| #![trigger es1[i], es2[i]] 0 <= i < es1.len() ==> es1[i].1 == es2[i].1 && Self::spec_json_key(es1[i].0) == Self::spec_json_key(es2[i].0),
        ensures Self::spec_from_json(JsonV::Object(es1)) == Self::spec_from_json(JsonV::Object(es2)),
    {
        assert forall|s: (MarketsV, Seq<bool>), k: Seq<char>, v: JsonV|
            #![trigger Self::step_fn()(s, k, v), Self::json_key_fn()(k)]
            Self::step_fn()(s, k, v) == Self::step_fn()(s, Self::json_key_fn()(k), v) by {
            Self::lemma_step_json_key(s, k, v);
        }
        lemma_fold_same_keys(Self::spec_start(), es1, es2, Self::step_fn(), Self::json_key_fn());
    }

    /// The keys of the object that the message writes: the JSON names of the fields that
    /// do not hold their default (for a oneof, the JSON name of the member set), in the
    /// order of the fields.
    pub open spec fn spec_written_keys(m: MarketsV) -> Seq<Seq<char>> {
        key_if(m.markets.len() != 0, "markets"@)
    }

    /// The object that the message writes has exactly the keys of
    /// [`Self::spec_written_keys`], in that order.
    pub proof fn lemma_written_keys(m: MarketsV)
        ensures
            Self::spec_to_json(m) == JsonV::Object(Self::spec_entries(m)),
            entry_keys(Self::spec_entries(m)) == Self::spec_written_keys(m),
    {
        lemma_entry_keys_if(m.markets.len() != 0, "markets"@, JsonV::Array(m.markets.map_values(embedded_writer())));
    }

    /// Whether the field whose JSON name is `name` holds its default in `m`; for a member
    /// of a oneof, whether the oneof is set to another member or unset. `true` for a name
    /// that names no field.
    pub open spec fn spec_holds_default(m: MarketsV, name: Seq<char>) -> bool {
        if name == "markets"@ {
            m.markets == Seq::<Seq<(Seq<char>, JsonV)>>::empty()
        } else {
            true
        }
    }

    /// Whether reading `v` for the field whose JSON name is `name` leaves the field at
    /// its default: `null`, for a field that takes it (a message field, a member of a
    /// oneof); nothing, for any other field. `true` for a name that names no field.
    pub open spec fn spec_leaves_default(name: Seq<char>, v: JsonV) -> bool {
        if name == "markets"@ {
            false
        } else {
            true
        }
    }

    /// Reading one member keeps a field at its default unless the key names the field
    /// and the value does not leave it there.
    pub proof fn lemma_step_keeps_default(st: (MarketsV, Seq<bool>), key: Seq<char>, v: JsonV, name: Seq<char>)
        requires
            Self::spec_holds_default(st.0, name),
            Self::spec_json_key(key) == name ==> Self::spec_leaves_default(name, v),
        ensures
            Self::spec_step(st, key, v) is Ok ==> Self::spec_holds_default(Self::spec_step(st, key, v)->Ok_0.0, name),
    {
        reveal_strlit("markets");
        assert("markets"@.len() == 7);
        Self::lemma_step_json_key(st, key, v);
    }

    /// A field whose key appears in no member of an object, or only with values that
    /// leave it at its default (`null`, for a field that takes it), holds its default in
    /// the message that the object describes.
    pub proof fn lemma_absent_default(es: Seq<(Seq<char>, JsonV)>, name: Seq<char>)
        requires
            forall|i: int| 0 <= i < es.len() ==> (Self::spec_json_key((#[trigger] es[i]).0) == name
                ==> Self::spec_leaves_default(name, es[i].1)),
        ensures
            Self::spec_from_json(JsonV::Object(es)) is Ok
                ==> Self::spec_holds_default(Self::spec_from_json(JsonV::Object(es))->Ok_0, name),
    {
        let inv = |s: (MarketsV, Seq<bool>)| Self::spec_holds_default(s.0, name);
        let allowed = |k: Seq<char>, v: JsonV| Self::spec_json_key(k) == name ==> Self::spec_leaves_default(name, v);
        assert forall|s: (MarketsV, Seq<bool>), k: Seq<char>, v: JsonV| #![trigger Self::step_fn()(s, k, v)]
            inv(s) && allowed(k, v) && Self::step_fn()(s, k, v) is Ok implies inv(Self::step_fn()(s, k, v)->Ok_0) by {
            Self::lemma_step_keeps_default(s, k, v, name);
        }
        assert(inv(Self::spec_start()));
        lemma_fold_keeps(Self::spec_start(), es, Self::step_fn(), inv, allowed);
    }

    /// The field `markets` alone: an object with one member under its JSON or protobuf
    /// name reads as the message with that field set and every other field at its
    /// default, and the message with only that field off its default writes that
    /// one member under the JSON name.
    pub proof fn lemma_field_markets(ess: Seq<Seq<(Seq<char>, JsonV)>>)
        ensures
            Self::spec_from_json(JsonV::Object(seq![("markets"@, JsonV::Array(ess.map_values(|es: Seq<(Seq<char>, JsonV)>| JsonV::Object(es))))])) == Ok::<MarketsV, JsonErrorV>(MarketsV { markets: ess }),
            ess.len() > 0 ==> Self::spec_to_json(MarketsV { markets: ess }) == JsonV::Object(seq![("markets"@, JsonV::Array(ess.map_values(|es: Seq<(Seq<char>, JsonV)>| JsonV::Object(es))))]),
    {
        reveal_strlit("markets");
        assert("markets"@.len() == 7);
        assert(ess.map_values(|es: Seq<(Seq<char>, JsonV)>| JsonV::Object(es)) =~= ess.map_values(embedded_writer()));
        assert forall|i: int| 0 <= i < ess.len() implies embedded_reader()(embedded_writer()(#[trigger] ess[i])) == Ok::<Seq<(Seq<char>, JsonV)>, JsonErrorV>(ess[i]) by {}
        lemma_read_list_roundtrip(ess, embedded_writer(), embedded_reader());
        lemma_fold_entry_if(Self::spec_start(), true, "markets"@, JsonV::Array(ess.map_values(|es: Seq<(Seq<char>, JsonV)>| JsonV::Object(es))), Self::step_fn());
    }

    /// Reading back the JSON object of a message gives the message.
    pub proof fn lemma_json_roundtrip(m: MarketsV)
        ensures Self::spec_from_json(Self::spec_to_json(m)) == Ok::<MarketsV, JsonErrorV>(m),
    {
        let step = Self::step_fn();
        let s0 = Self::spec_start();
        let s1 = (MarketsV { markets: m.markets }, if m.markets.len() != 0 { s0.1.update(0, true) } else { s0.1 });
        Self::lemma_entry_markets(m, s0);
        let p1 = Self::spec_entry_markets(m);
        assert(s1.0 == m);
    }
}

/// The `astria.protocol.transaction.v1.MarketsChange` message.
#[derive(Clone, Debug, PartialEq)]
pub struct MarketsChange {
    pub action: Option<markets_change::Action>,
}

/// The mathematical content of a [`MarketsChange`].
pub struct MarketsChangeV {
    pub action: Option<markets_change::ActionV>,
}

impl View for MarketsChange {
    type V = MarketsChangeV;

    open spec fn view(&self) -> MarketsChangeV {
        MarketsChangeV {
            action: markets_change::opt_view(self.action),
        }
    }
}

impl Default for MarketsChange {
    fn default() -> (r: Self)
        ensures r@ == MarketsChange::spec_default(),
    {
        let r = MarketsChange {
            action: None,
        };
        r
    }
}

impl MarketsChange {
    /// The fully qualified protobuf name of the message.
    pub fn full_name() -> (r: String)
        ensures r@ == "astria.protocol.transaction.v1.MarketsChange"@,
    {
        "astria.protocol.transaction.v1.MarketsChange".to_string()
    }

    /// Every field at its default: empty strings, bytes and lists, zero, `false`, unset.
    pub open spec fn spec_default() -> MarketsChangeV {
        MarketsChangeV {
            action: None,
        }
    }

    /// The view of an optional field of this message type.
    pub open spec fn view_opt(o: Option<Self>) -> Option<MarketsChangeV> {
        match o {
            Some(x) => Some(x@),
            None => None,
        }
    }

    /// The view of a repeated field of this message type.
    pub open spec fn view_list(v: Seq<Self>) -> Seq<MarketsChangeV> {
        v.map_values(|x: Self| x@)
    }

    /// The JSON name under which the set member of `action` is written.
    pub open spec fn spec_action_key(v: markets_change::ActionV) -> Seq<char> {
        match v {
            markets_change::ActionV::Creation(_) => "creation"@,
            markets_change::ActionV::Removal(_) => "removal"@,
            markets_change::ActionV::Update(_) => "update"@,
        }
    }

    /// The JSON value of the set member of `action`.
    pub open spec fn spec_action_json(v: markets_change::ActionV) -> JsonV {
        match v {
            markets_change::ActionV::Creation(x) => Markets::spec_to_json(x),
            markets_change::ActionV::Removal(x) => Markets::spec_to_json(x),
            markets_change::ActionV::Update(x) => Markets::spec_to_json(x),
        }
    }

    /// The member that the field `action` writes: none where it holds its default.
    pub open spec fn spec_entry_action(m: MarketsChangeV) -> Seq<(Seq<char>, JsonV)> {
        entry_if(m.action is Some, Self::spec_action_key(m.action.unwrap()), Self::spec_action_json(m.action.unwrap()))
    }

    /// The members of the JSON object of the message: each field that does not hold
    /// its default, under its JSON name, in the order of the fields.
    pub open spec fn spec_entries(m: MarketsChangeV) -> Seq<(Seq<char>, JsonV)> {
        Self::spec_entry_action(m)
    }

    /// The JSON object that the protobuf JSON mapping writes for the message.
    pub open spec fn spec_to_json(m: MarketsChangeV) -> JsonV {
        JsonV::Object(Self::spec_entries(m))
    }

    /// [`Self::spec_to_json`] as a function value, for repeated fields.
    pub open spec fn writer() -> spec_fn(MarketsChangeV) -> JsonV {
        |m: MarketsChangeV| Self::spec_to_json(m)
    }

    fn write_action(&self, es: &mut Vec<(String, Json)>)
        ensures
            view_entries(final(es)@) == view_entries(old(es)@) + Self::spec_entry_action(self@),
    {
        match &self.action {
            Some(markets_change::Action::Creation(x)) => push_entry(es, "creation", x.to_json()),
            Some(markets_change::Action::Removal(x)) => push_entry(es, "removal", x.to_json()),
            Some(markets_change::Action::Update(x)) => push_entry(es, "update", x.to_json()),
            None => {},
        }
        assert(view_entries(es@) =~= view_entries(old(es)@) + Self::spec_entry_action(self@));
    }

    /// Writes the message as a JSON object; reading it back gives the message.
    pub fn to_json(&self) -> (r: Json)
        ensures
            r@ == Self::spec_to_json(self@),
            Self::spec_from_json(r@) == Ok::<MarketsChangeV, JsonErrorV>(self@),
    {
        let mut es: Vec<(String, Json)> = Vec::new();
        let ghost mut acc: Seq<(Seq<char>, JsonV)> = Seq::empty();
        proof {
            assert(view_entries(es@) =~= acc);
        }
        self.write_action(&mut es);
        proof {
            acc = acc + Self::spec_entry_action(self@);
        }
        proof {
            assert(acc =~= Self::spec_entries(self@));
            Self::lemma_json_roundtrip(self@);
        }
        Json::Object(es)
    }

    /// Reads one member of the object into the message under construction; `seen`
    /// records which fields that have no unset state were already given.
    pub open spec fn spec_step(st: (MarketsChangeV, Seq<bool>), key: Seq<char>, v: JsonV) -> Result<(MarketsChangeV, Seq<bool>), JsonErrorV> {
        let m = st.0;
        let seen = st.1;
        if key == "creation"@ {
            if m.action is Some {
                Err(JsonErrorV::DuplicateField("creation"@))
            } else {
                match Markets::spec_read_opt(v) {
                    Ok(Some(x)) => Ok((MarketsChangeV { action: Some(markets_change::ActionV::Creation(x)) }, seen)),
                    Ok(None) => Ok((MarketsChangeV { action: None }, seen)),
                    Err(e) => Err(e),
                }
            }
        } else if key == "removal"@ {
            if m.action is Some {
                Err(JsonErrorV::DuplicateField("removal"@))
            } else {
                match Markets::spec_read_opt(v) {
                    Ok(Some(x)) => Ok((MarketsChangeV { action: Some(markets_change::ActionV::Removal(x)) }, seen)),
                    Ok(None) => Ok((MarketsChangeV { action: None }, seen)),
                    Err(e) => Err(e),
                }
            }
        } else if key == "update"@ {
            if m.action is Some {
                Err(JsonErrorV::DuplicateField("update"@))
            } else {
                match Markets::spec_read_opt(v) {
                    Ok(Some(x)) => Ok((MarketsChangeV { action: Some(markets_change::ActionV::Update(x)) }, seen)),
                    Ok(None) => Ok((MarketsChangeV { action: None }, seen)),
                    Err(e) => Err(e),
                }
            }
        } else {
            Err(JsonErrorV::UnknownField(key))
        }
    }

    /// [`Self::spec_step`] as a function value.
    pub open spec fn step_fn() -> spec_fn((MarketsChangeV, Seq<bool>), Seq<char>, JsonV) -> Result<(MarketsChangeV, Seq<bool>), JsonErrorV> {
        |st: (MarketsChangeV, Seq<bool>), key: Seq<char>, v: JsonV| Self::spec_step(st, key, v)
    }

    /// The state before the first member is read: the default message, no field seen.
    pub open spec fn spec_start() -> (MarketsChangeV, Seq<bool>) {
        (Self::spec_default(), Seq::<bool>::empty())
    }

    /// The message that a JSON value describes: an object whose keys each name a field
    /// (by its JSON name or its protobuf name), at most once each; fields that are not
    /// given keep their default. The first member that is refused gives the error.
    pub open spec fn spec_from_json(j: JsonV) -> Result<MarketsChangeV, JsonErrorV> {
        match j {
            JsonV::Object(es) => match fold_entries(Self::spec_start(), es, Self::step_fn()) {
                Ok(st) => Ok(st.0),
                Err(e) => Err(e),
            },
            _ => Err(JsonErrorV::ExpectedObject),
        }
    }

    /// [`Self::spec_from_json`] as a function value, for repeated fields.
    pub open spec fn reader() -> spec_fn(JsonV) -> Result<MarketsChangeV, JsonErrorV> {
        |v: JsonV| Self::spec_from_json(v)
    }

    /// An optional field of this message type: `null` leaves it unset.
    pub open spec fn spec_read_opt(v: JsonV) -> Result<Option<MarketsChangeV>, JsonErrorV> {
        match v {
            JsonV::Null => Ok(None),
            _ => match Self::spec_from_json(v) {
                Ok(x) => Ok(Some(x)),
                Err(e) => Err(e),
            },
        }
    }

    fn step(m: Self, seen: Vec<bool>, key: &String, v: &Json) -> (r: Result<(Self, Vec<bool>), JsonError>)
        requires seen@.len() == 0,
        ensures
            match r {
                Ok((m2, seen2)) => Self::spec_step((m@, seen@), key@, v@) == Ok::<(MarketsChangeV, Seq<bool>), JsonErrorV>((m2@, seen2@)) && seen2@.len() == 0,
                Err(e) => Self::spec_step((m@, seen@), key@, v@) == Err::<(MarketsChangeV, Seq<bool>), JsonErrorV>(e@),
            },
    {
        let mut m = m;
        let mut seen = seen;
        let k = key.as_str();
        if str_eq(k, "creation") {
            if m.action.is_some() {
                return Err(JsonError::DuplicateField("creation".to_string()));
            }
            match Markets::opt_from_json(v) {
                Ok(Some(x)) => m.action = Some(markets_change::Action::Creation(x)),
                Ok(None) => m.action = None,
                Err(e) => return Err(e),
            }
        } else if str_eq(k, "removal") {
            if m.action.is_some() {
                return Err(JsonError::DuplicateField("removal".to_string()));
            }
            match Markets::opt_from_json(v) {
                Ok(Some(x)) => m.action = Some(markets_change::Action::Removal(x)),
                Ok(None) => m.action = None,
                Err(e) => return Err(e),
            }
        } else if str_eq(k, "update") {
            if m.action.is_some() {
                return Err(JsonError::DuplicateField("update".to_string()));
            }
            match Markets::opt_from_json(v) {
                Ok(Some(x)) => m.action = Some(markets_change::Action::Update(x)),
                Ok(None) => m.action = None,
                Err(e) => return Err(e),
            }
        } else {
            return Err(JsonError::UnknownField(key.clone()));
        }
        Ok((m, seen))
    }

    /// Reads the message from a JSON value, as [`Self::spec_from_json`] describes.
    pub fn from_json(j: &Json) -> (r: Result<Self, JsonError>)
        ensures
            match r {
                Ok(m) => Self::spec_from_json(j@) == Ok::<MarketsChangeV, JsonErrorV>(m@),
                Err(e) => Self::spec_from_json(j@) == Err::<MarketsChangeV, JsonErrorV>(e@),
            },
    {
        let es = match j {
            Json::Object(es) => es,
            _ => return Err(JsonError::ExpectedObject),
        };
        let ghost ves = view_entries(es@);
        proof {
            lemma_view_entries_len(es@);
            assert(j@ == JsonV::Object(ves));
        }
        let mut m = Self::default();
        let mut seen: Vec<bool> = Vec::new();
        let mut i: usize = 0;
        proof {
            assert(seen@ =~= Self::spec_start().1);
            assert(ves.skip(0) == ves);
        }
        while i < es.len()
            invariant
                j@ == JsonV::Object(ves),
                ves == view_entries(es@),
                ves.len() == es@.len(),
                i <= es.len(),
                seen@.len() == 0,
                fold_entries(Self::spec_start(), ves, Self::step_fn())
                    == fold_entries((m@, seen@), ves.skip(i as int), Self::step_fn()),
            decreases es.len() - i,
        {
            proof {
                lemma_view_entries_index(es@, i as int);
                lemma_fold_entries_step((m@, seen@), ves, i as int, Self::step_fn());
            }
            match Self::step(m, seen, &es[i].0, &es[i].1) {
                Ok((m2, seen2)) => {
                    m = m2;
                    seen = seen2;
                },
                Err(e) => return Err(e),
            }
            i = i + 1;
        }
        proof {
            assert(ves.skip(ves.len() as int) == Seq::<(Seq<char>, JsonV)>::empty());
            assert(fold_entries((m@, seen@), ves.skip(ves.len() as int), Self::step_fn())
                == Ok::<(MarketsChangeV, Seq<bool>), JsonErrorV>((m@, seen@)));
        }
        Ok(m)
    }

    /// Reads an optional field of this message type.
    pub fn opt_from_json(v: &Json) -> (r: Result<Option<Self>, JsonError>)
        ensures
            match r {
                Ok(None) => Self::spec_read_opt(v@) == Ok::<Option<MarketsChangeV>, JsonErrorV>(None),
                Ok(Some(x)) => Self::spec_read_opt(v@) == Ok::<Option<MarketsChangeV>, JsonErrorV>(Some(x@)),
                Err(e) => Self::spec_read_opt(v@) == Err::<Option<MarketsChangeV>, JsonErrorV>(e@),
            },
    {
        match v {
            Json::Null => Ok(None),
            _ => match Self::from_json(v) {
                Ok(x) => Ok(Some(x)),
                Err(e) => Err(e),
            },
        }
    }

    /// Reading the member that the field `action` writes sets the field.
    pub proof fn lemma_entry_action(m: MarketsChangeV, st: (MarketsChangeV, Seq<bool>))
        requires
            st.1.len() == 0,
            st.0.action is None,
        ensures
            fold_entries(st, Self::spec_entry_action(m), Self::step_fn()) == Ok::<(MarketsChangeV, Seq<bool>), JsonErrorV>((MarketsChangeV { action: m.action }, st.1)),
    {
        reveal_strlit("creation");
        reveal_strlit("removal");
        reveal_strlit("update");
        assert("creation"@.len() == 8);
        assert("removal"@.len() == 7);
        assert("update"@.len() == 6);
        match m.action {
            Some(markets_change::ActionV::Creation(x)) => Markets::lemma_json_roundtrip(x),
            Some(markets_change::ActionV::Removal(x)) => Markets::lemma_json_roundtrip(x),
            Some(markets_change::ActionV::Update(x)) => Markets::lemma_json_roundtrip(x),
            _ => {},
        }
        lemma_fold_entry_if(st, m.action is Some, Self::spec_action_key(m.action.unwrap()), Self::spec_action_json(m.action.unwrap()), Self::step_fn());
    }

    /// The JSON spelling of a key: the protobuf name of a field becomes its JSON name;
    /// a JSON name, and any key that names no field, is left as it is.
    pub open spec fn spec_json_key(key: Seq<char>) -> Seq<char> {
        if key == "creation"@ {
            "creation"@
        } else if key == "removal"@ {
            "removal"@
        } else if key == "update"@ {
            "update"@
        } else {
            key
        }
    }

    /// [`Self::spec_json_key`] as a function value.
    pub open spec fn json_key_fn() -> spec_fn(Seq<char>) -> Seq<char> {
        |key: Seq<char>| Self::spec_json_key(key)
    }

    /// One member is read alike whichever spelling its key has.
    pub proof fn lemma_step_json_key(st: (MarketsChangeV, Seq<bool>), key: Seq<char>, v: JsonV)
        ensures Self::spec_step(st, key, v) == Self::spec_step(st, Self::spec_json_key(key), v),
    {
        reveal_strlit("creation");
        reveal_strlit("removal");
        reveal_strlit("update");
        assert("creation"@.len() == 8);
        assert("removal"@.len() == 7);
        assert("update"@.len() == 6);
    }

    /// Reading an object gives the same result whichever spelling each of its keys has:
    /// two objects whose members hold the same values, in the same order, under keys of
    /// the same JSON spelling describe the same message, or are refused with the same error.
    pub proof fn lemma_key_spelling(es1: Seq<(Seq<char>, JsonV)>, es2: Seq<(Seq<char>, JsonV)>)
        requires
            es1.len() == es2.len(),
            forall|i: int| #![trigger es1[i], es2[i]] 0 <= i < es1.len() ==> es1[i].1 == es2[i].1 && Self::spec_json_key(es1[i].0) == Self::spec_json_key(es2[i].0),
        ensures Self::spec_from_json(JsonV::Object(es1)) == Self::spec_from_json(JsonV::Object(es2)),
    {
        assert forall|s: (MarketsChangeV, Seq<bool>), k: Seq<char>, v: JsonV|
            #![trigger Self::step_fn()(s, k, v), Self::json_key_fn()(k)]
            Self::step_fn()(s, k, v) == Self::step_fn()(s, Self::json_key_fn()(k), v) by {
            Self::lemma_step_json_key(s, k, v);
        }
        lemma_fold_same_keys(Self::spec_start(), es1, es2, Self::step_fn(), Self::json_key_fn());
    }

    /// The keys of the object that the message writes: the JSON names of the fields that
    /// do not hold their default (for a oneof, the JSON name of the member set), in the
    /// order of the fields.
    pub open spec fn spec_written_keys(m: MarketsChangeV) -> Seq<Seq<char>> {
        key_if(m.action is Some, Self::spec_action_key(m.action.unwrap()))
    }

    /// The object that the message writes has exactly the keys of
    /// [`Self::spec_written_keys`], in that order.
    pub proof fn lemma_written_keys(m: MarketsChangeV)
        ensures
            Self::spec_to_json(m) == JsonV::Object(Self::spec_entries(m)),
            entry_keys(Self::spec_entries(m)) == Self::spec_written_keys(m),
    {
        lemma_entry_keys_if(m.action is Some, Self::spec_action_key(m.action.unwrap()), Self::spec_action_json(m.action.unwrap()));
    }

    /// Whether the field whose JSON name is `name` holds its default in `m`; for a member
    /// of a oneof, whether the oneof is set to another member or unset. `true` for a name
    /// that names no field.
    pub open spec fn spec_holds_default(m: MarketsChangeV, name: Seq<char>) -> bool {
        if name == "creation"@ {
            !(m.action matches Some(markets_change::ActionV::Creation(_)))
        } else if name == "removal"@ {
            !(m.action matches Some(markets_change::ActionV::Removal(_)))
        } else if name == "update"@ {
            !(m.action matches Some(markets_change::ActionV::Update(_)))
        } else {
            true
        }
    }

    /// Whether reading `v` for the field whose JSON name is `name` leaves the field at
    /// its default: `null`, for a field that takes it (a message field, a member of a
    /// oneof); nothing, for any other field. `true` for a name that names no field.
    pub open spec fn spec_leaves_default(name: Seq<char>, v: JsonV) -> bool {
        if name == "creation"@ {
            v is Null
        } else if name == "removal"@ {
            v is Null
        } else if name == "update"@ {
            v is Null
        } else {
            true
        }
    }

    /// Reading one member keeps a field at its default unless the key names the field
    /// and the value does not leave it there.
    pub proof fn lemma_step_keeps_default(st: (MarketsChangeV, Seq<bool>), key: Seq<char>, v: JsonV, name: Seq<char>)
        requires
            Self::spec_holds_default(st.0, name),
            Self::spec_json_key(key) == name ==> Self::spec_leaves_default(name, v),
        ensures
            Self::spec_step(st, key, v) is Ok ==> Self::spec_holds_default(Self::spec_step(st, key, v)->Ok_0.0, name),
    {
        reveal_strlit("creation");
        reveal_strlit("removal");
        reveal_strlit("update");
        assert("creation"@.len() == 8);
        assert("removal"@.len() == 7);
        assert("update"@.len() == 6);
        Self::lemma_step_json_key(st, key, v);
    }

    /// A field whose key appears in no member of an object, or only with values that
    /// leave it at its default (`null`, for a field that takes it), holds its default in
    /// the message that the object describes.
    pub proof fn lemma_absent_default(es: Seq<(Seq<char>, JsonV)>, name: Seq<char>)
        requires
            forall|i: int| 0 <= i < es.len() ==> (Self::spec_json_key((#[trigger] es[i]).0) == name
                ==> Self::spec_leaves_default(name, es[i].1)),
        ensures
            Self::spec_from_json(JsonV::Object(es)) is Ok
                ==> Self::spec_holds_default(Self::spec_from_json(JsonV::Object(es))->Ok_0, name),
    {
        let inv = |s: (MarketsChangeV, Seq<bool>)| Self::spec_holds_default(s.0, name);
        let allowed = |k: Seq<char>, v: JsonV| Self::spec_json_key(k) == name ==> Self::spec_leaves_default(name, v);
        assert forall|s: (MarketsChangeV, Seq<bool>), k: Seq<char>, v: JsonV| #![trigger Self::step_fn()(s, k, v)]
            inv(s) && allowed(k, v) && Self::step_fn()(s, k, v) is Ok implies inv(Self::step_fn()(s, k, v)->Ok_0) by {
            Self::lemma_step_keeps_default(s, k, v, name);
        }
        assert(inv(Self::spec_start()));
        lemma_fold_keeps(Self::spec_start(), es, Self::step_fn(), inv, allowed);
    }

    /// Whether a key names a member of the oneof `action`, in either spelling.
    pub open spec fn spec_is_member_key(key: Seq<char>) -> bool {
        key == "creation"@ || key == "removal"@ || key == "update"@
    }

    /// The member of the oneof `action` that one member of an object gives: unset for
    /// `null`, else the member that the key names, read from the value.
    pub open spec fn spec_member_value(key: Seq<char>, v: JsonV) -> Result<Option<markets_change::ActionV>, JsonErrorV> {
        if key == "creation"@ {
            match Markets::spec_read_opt(v) {
                Ok(Some(x)) => Ok(Some(markets_change::ActionV::Creation(x))),
                Ok(None) => Ok(None),
                Err(e) => Err(e),
            }
        } else if key == "removal"@ {
            match Markets::spec_read_opt(v) {
                Ok(Some(x)) => Ok(Some(markets_change::ActionV::Removal(x))),
                Ok(None) => Ok(None),
                Err(e) => Err(e),
            }
        } else if key == "update"@ {
            match Markets::spec_read_opt(v) {
                Ok(Some(x)) => Ok(Some(markets_change::ActionV::Update(x))),
                Ok(None) => Ok(None),
                Err(e) => Err(e),
            }
        } else {
            Err(JsonErrorV::UnknownField(key))
        }
    }

    /// An object whose keys each name a member of the oneof `action`, whose first `k`
    /// members are `null`, and whose member `k`, if there is one, is not `null` and reads
    /// as the member its key names: with no member past the `null` ones the oneof is
    /// unset; with member `k` last the oneof is that member; any key after member `k`,
    /// whatever its value, is refused as a duplicate under its JSON name.
    pub proof fn lemma_oneof_members(es: Seq<(Seq<char>, JsonV)>, k: int)
        requires
            0 <= k <= es.len(),
            forall|i: int| 0 <= i < es.len() ==> Self::spec_is_member_key(#[trigger] es[i].0),
            forall|i: int| 0 <= i < k ==> (#[trigger] es[i]).1 is Null,
            k < es.len() ==> es[k].1 !is Null && Self::spec_member_value(es[k].0, es[k].1) is Ok,
        ensures
            k == es.len() ==> Self::spec_from_json(JsonV::Object(es)) == Ok::<MarketsChangeV, JsonErrorV>(Self::spec_default()),
            k == es.len() - 1 ==> Self::spec_from_json(JsonV::Object(es))
                == Ok::<MarketsChangeV, JsonErrorV>(MarketsChangeV { action: Self::spec_member_value(es[k].0, es[k].1)->Ok_0 }),
            k < es.len() - 1 ==> Self::spec_from_json(JsonV::Object(es))
                == Err::<MarketsChangeV, JsonErrorV>(JsonErrorV::DuplicateField(Self::spec_json_key(es[k + 1].0))),
        decreases k,
    {
        reveal_strlit("creation");
        reveal_strlit("removal");
        reveal_strlit("update");
        assert("creation"@.len() == 8);
        assert("removal"@.len() == 7);
        assert("update"@.len() == 6);
        let s0 = Self::spec_start();
        if es.len() > 0 {
            assert(Self::spec_is_member_key(es[0].0));
            let rest = es.drop_first();
            if k > 0 {
                assert(es[0].1 is Null);
                assert(Self::spec_step(s0, es[0].0, es[0].1) == Ok::<(MarketsChangeV, Seq<bool>), JsonErrorV>(s0));
                assert forall|i: int| 0 <= i < rest.len() implies Self::spec_is_member_key(#[trigger] rest[i].0) by {
                    assert(rest[i] == es[i + 1]);
                }
                assert forall|i: int| 0 <= i < k - 1 implies (#[trigger] rest[i]).1 is Null by {
                    assert(rest[i] == es[i + 1]);
                }
                if k < es.len() {
                    assert(rest[k - 1] == es[k]);
                }
                if k + 1 < es.len() {
                    assert(rest[k] == es[k + 1]);
                }
                assert(fold_entries(s0, es, Self::step_fn()) == fold_entries(s0, rest, Self::step_fn()));
                Self::lemma_oneof_members(rest, k - 1);
            } else {
                let m = MarketsChangeV { action: Self::spec_member_value(es[0].0, es[0].1)->Ok_0 };
                assert(m.action is Some);
                assert(Self::spec_step(s0, es[0].0, es[0].1) == Ok::<(MarketsChangeV, Seq<bool>), JsonErrorV>((m, s0.1)));
                assert(fold_entries(s0, es, Self::step_fn()) == fold_entries((m, s0.1), rest, Self::step_fn()));
                if es.len() > 1 {
                    assert(rest[0] == es[1]);
                    assert(Self::spec_is_member_key(es[1].0));
                    assert(Self::spec_step((m, s0.1), es[1].0, es[1].1)
                        == Err::<(MarketsChangeV, Seq<bool>), JsonErrorV>(JsonErrorV::DuplicateField(Self::spec_json_key(es[1].0))));
                    assert(fold_entries((m, s0.1), rest, Self::step_fn())
                        == Err::<(MarketsChangeV, Seq<bool>), JsonErrorV>(JsonErrorV::DuplicateField(Self::spec_json_key(es[1].0))));
                } else {
                    assert(rest.len() == 0);
                    assert(fold_entries((m, s0.1), rest, Self::step_fn()) == Ok::<(MarketsChangeV, Seq<bool>), JsonErrorV>((m, s0.1)));
                }
            }
        }
    }

    /// An object whose keys each name a member of the oneof `action`, and whose values other
    /// than `null` each read as the member their key names, is refused exactly when a
    /// member follows one whose value is not `null`, as a duplicate under the JSON name of
    /// the key after [`first_set`]. Otherwise the oneof is the member at [`first_set`], or
    /// unset when every value is `null`.
    pub proof fn lemma_oneof_object(es: Seq<(Seq<char>, JsonV)>)
        requires
            forall|i: int| 0 <= i < es.len() ==> Self::spec_is_member_key(#[trigger] es[i].0),
            forall|i: int| 0 <= i < es.len() && !((#[trigger] es[i]).1 is Null)
                ==> Self::spec_member_value(es[i].0, es[i].1) is Ok,
        ensures
            Self::spec_from_json(JsonV::Object(es)) is Err
                <==> exists|i: int| 0 <= i < es.len() - 1 && !((#[trigger] es[i]).1 is Null),
            first_set(es) == es.len() ==> Self::spec_from_json(JsonV::Object(es)) == Ok::<MarketsChangeV, JsonErrorV>(Self::spec_default()),
            first_set(es) == es.len() - 1 ==> Self::spec_from_json(JsonV::Object(es))
                == Ok::<MarketsChangeV, JsonErrorV>(MarketsChangeV { action: Self::spec_member_value(es[first_set(es)].0, es[first_set(es)].1)->Ok_0 }),
            first_set(es) < es.len() - 1 ==> Self::spec_from_json(JsonV::Object(es))
                == Err::<MarketsChangeV, JsonErrorV>(JsonErrorV::DuplicateField(Self::spec_json_key(es[first_set(es) + 1].0))),
    {
        lemma_first_set(es);
        let k = first_set(es);
        if k < es.len() {
            assert(!(es[k].1 is Null));
        }
        Self::lemma_oneof_members(es, k);
    }

    /// The field `creation` alone: an object with one member under its JSON or protobuf
    /// name reads as the message with that field set and every other field at its
    /// default, and the message with only that field off its default writes that
    /// one member under the JSON name.
    pub proof fn lemma_member_creation(x: MarketsV, es: Seq<(Seq<char>, JsonV)>)
        ensures
            Self::spec_from_json(JsonV::Object(seq![("creation"@, JsonV::Object(es))])) == (match Markets::spec_from_json(JsonV::Object(es)) { Ok(y) => Ok::<MarketsChangeV, JsonErrorV>(MarketsChangeV { action: Some(markets_change::ActionV::Creation(y)) }), Err(e) => Err(e) }),
            Self::spec_from_json(JsonV::Object(seq![("creation"@, JsonV::Null)])) == Ok::<MarketsChangeV, JsonErrorV>(Self::spec_default()),
            Self::spec_to_json(MarketsChangeV { action: Some(markets_change::ActionV::Creation(x)) }) == JsonV::Object(seq![("creation"@, Markets::spec_to_json(x))]),
    {
        reveal_strlit("creation");
        reveal_strlit("removal");
        reveal_strlit("update");
        assert("creation"@.len() == 8);
        assert("removal"@.len() == 7);
        assert("update"@.len() == 6);
        lemma_fold_entry_if(Self::spec_start(), true, "creation"@, JsonV::Object(es), Self::step_fn());
        lemma_fold_entry_if(Self::spec_start(), true, "creation"@, JsonV::Null, Self::step_fn());
    }

    /// The field `removal` alone: an object with one member under its JSON or protobuf
    /// name reads as the message with that field set and every other field at its
    /// default, and the message with only that field off its default writes that
    /// one member under the JSON name.
    pub proof fn lemma_member_removal(x: MarketsV, es: Seq<(Seq<char>, JsonV)>)
        ensures
            Self::spec_from_json(JsonV::Object(seq![("removal"@, JsonV::Object(es))])) == (match Markets::spec_from_json(JsonV::Object(es)) { Ok(y) => Ok::<MarketsChangeV, JsonErrorV>(MarketsChangeV { action: Some(markets_change::ActionV::Removal(y)) }), Err(e) => Err(e) }),
            Self::spec_from_json(JsonV::Object(seq![("removal"@, JsonV::Null)])) == Ok::<MarketsChangeV, JsonErrorV>(Self::spec_default()),
            Self::spec_to_json(MarketsChangeV { action: Some(markets_change::ActionV::Removal(x)) }) == JsonV::Object(seq![("removal"@, Markets::spec_to_json(x))]),
    {
        reveal_strlit("creation");
        reveal_strlit("removal");
        reveal_strlit("update");
        assert("creation"@.len() == 8);
        assert("removal"@.len() == 7);
        assert("update"@.len() == 6);
        lemma_fold_entry_if(Self::spec_start(), true, "removal"@, JsonV::Object(es), Self::step_fn());
        lemma_fold_entry_if(Self::spec_start(), true, "removal"@, JsonV::Null, Self::step_fn());
    }

    /// The field `update` alone: an object with one member under its JSON or protobuf
    /// name reads as the message with that field set and every other field at its
    /// default, and the message with only that field off its default writes that
    /// one member under the JSON name.
    pub proof fn lemma_member_update(x: MarketsV, es: Seq<(Seq<char>, JsonV)>)
        ensures
            Self::spec_from_json(JsonV::Object(seq![("update"@, JsonV::Object(es))])) == (match Markets::spec_from_json(JsonV::Object(es)) { Ok(y) => Ok::<MarketsChangeV, JsonErrorV>(MarketsChangeV { action: Some(markets_change::ActionV::Update(y)) }), Err(e) => Err(e) }),
            Self::spec_from_json(JsonV::Object(seq![("update"@, JsonV::Null)])) == Ok::<MarketsChangeV, JsonErrorV>(Self::spec_default()),
            Self::spec_to_json(MarketsChangeV { action: Some(markets_change::ActionV::Update(x)) }) == JsonV::Object(seq![("update"@, Markets::spec_to_json(x))]),
    {
        reveal_strlit("creation");
        reveal_strlit("removal");
        reveal_strlit("update");
        assert("creation"@.len() == 8);
        assert("removal"@.len() == 7);
        assert("update"@.len() == 6);
        lemma_fold_entry_if(Self::spec_start(), true, "update"@, JsonV::Object(es), Self::step_fn());
        lemma_fold_entry_if(Self::spec_start(), true, "update"@, JsonV::Null, Self::step_fn());
    }

    /// Reading back the JSON object of a message gives the message.
    pub proof fn lemma_json_roundtrip(m: MarketsChangeV)
        ensures Self::spec_from_json(Self::spec_to_json(m)) == Ok::<MarketsChangeV, JsonErrorV>(m),
    {
        let step = Self::step_fn();
        let s0 = Self::spec_start();
        let s1 = (MarketsChangeV { action: m.action }, s0.1);
        Self::lemma_entry_action(m, s0);
        let p1 = Self::spec_entry_action(m);
        assert(s1.0 == m);
    }
}

/// The `astria.protocol.transaction.v1.RecoverIbcClient` message.
#[derive(Clone, Debug, PartialEq)]
pub struct RecoverIbcClient {
    pub client_id: String,
    pub replacement_client_id: String,
}

/// The mathematical content of a [`RecoverIbcClient`].
pub struct RecoverIbcClientV {
    pub client_id: Seq<char>,
    pub replacement_client_id: Seq<char>,
}

impl View for RecoverIbcClient {
    type V = RecoverIbcClientV;

    open spec fn view(&self) -> RecoverIbcClientV {
        RecoverIbcClientV {
            client_id: self.client_id@,
            replacement_client_id: self.replacement_client_id@,
        }
    }
}

impl Default for RecoverIbcClient {
    fn default() -> (r: Self)
        ensures r@ == RecoverIbcClient::spec_default(),
    {
        let r = RecoverIbcClient {
            client_id: String::new(),
            replacement_client_id: String::new(),
        };
        r
    }
}

impl RecoverIbcClient {
    /// The fully qualified protobuf name of the message.
    pub fn full_name() -> (r: String)
        ensures r@ == "astria.protocol.transaction.v1.RecoverIbcClient"@,
    {
        "astria.protocol.transaction.v1.RecoverIbcClient".to_string()
    }

    /// Every field at its default: empty strings, bytes and lists, zero, `false`, unset.
    pub open spec fn spec_default() -> RecoverIbcClientV {
        RecoverIbcClientV {
            client_id: Seq::<char>::empty(),
            replacement_client_id: Seq::<char>::empty(),
        }
    }

    /// The view of an optional field of this message type.
    pub open spec fn view_opt(o: Option<Self>) -> Option<RecoverIbcClientV> {
        match o {
            Some(x) => Some(x@),
            None => None,
        }
    }

    /// The view of a repeated field of this message type.
    pub open spec fn view_list(v: Seq<Self>) -> Seq<RecoverIbcClientV> {
        v.map_values(|x: Self| x@)
    }

    /// The member that the field `client_id` writes: none where it holds its default.
    pub open spec fn spec_entry_client_id(m: RecoverIbcClientV) -> Seq<(Seq<char>, JsonV)> {
        entry_if(m.client_id.len() != 0, "clientId"@, JsonV::Str(m.client_id))
    }

    /// The member that the field `replacement_client_id` writes: none where it holds its default.
    pub open spec fn spec_entry_replacement_client_id(m: RecoverIbcClientV) -> Seq<(Seq<char>, JsonV)> {
        entry_if(m.replacement_client_id.len() != 0, "replacementClientId"@, JsonV::Str(m.replacement_client_id))
    }

    /// The members of the JSON object of the message: each field that does not hold
    /// its default, under its JSON name, in the order of the fields.
    pub open spec fn spec_entries(m: RecoverIbcClientV) -> Seq<(Seq<char>, JsonV)> {
        Self::spec_entry_client_id(m) + Self::spec_entry_replacement_client_id(m)
    }

    /// The JSON object that the protobuf JSON mapping writes for the message.
    pub open spec fn spec_to_json(m: RecoverIbcClientV) -> JsonV {
        JsonV::Object(Self::spec_entries(m))
    }

    /// [`Self::spec_to_json`] as a function value, for repeated fields.
    pub open spec fn writer() -> spec_fn(RecoverIbcClientV) -> JsonV {
        |m: RecoverIbcClientV| Self::spec_to_json(m)
    }

    fn write_client_id(&self, es: &mut Vec<(String, Json)>)
        ensures
            view_entries(final(es)@) == view_entries(old(es)@) + Self::spec_entry_client_id(self@),
    {
        if !self.client_id.as_str().is_empty() {
            push_entry(es, "clientId", string_value(&self.client_id));
        }
        assert(view_entries(es@) =~= view_entries(old(es)@) + Self::spec_entry_client_id(self@));
    }

    fn write_replacement_client_id(&self, es: &mut Vec<(String, Json)>)
        ensures
            view_entries(final(es)@) == view_entries(old(es)@) + Self::spec_entry_replacement_client_id(self@),
    {
        if !self.replacement_client_id.as_str().is_empty() {
            push_entry(es, "replacementClientId", string_value(&self.replacement_client_id));
        }
        assert(view_entries(es@) =~= view_entries(old(es)@) + Self::spec_entry_replacement_client_id(self@));
    }

    /// Writes the message as a JSON object; reading it back gives the message.
    pub fn to_json(&self) -> (r: Json)
        ensures
            r@ == Self::spec_to_json(self@),
            Self::spec_from_json(r@) == Ok::<RecoverIbcClientV, JsonErrorV>(self@),
    {
        let mut es: Vec<(String, Json)> = Vec::new();
        let ghost mut acc: Seq<(Seq<char>, JsonV)> = Seq::empty();
        proof {
            assert(view_entries(es@) =~= acc);
        }
        self.write_client_id(&mut es);
        proof {
            acc = acc + Self::spec_entry_client_id(self@);
        }
        self.write_replacement_client_id(&mut es);
        proof {
            acc = acc + Self::spec_entry_replacement_client_id(self@);
        }
        proof {
            assert(acc =~= Self::spec_entries(self@));
            Self::lemma_json_roundtrip(self@);
        }
        Json::Object(es)
    }

    /// Reads one member of the object into the message under construction; `seen`
    /// records which fields that have no unset state were already given.
    pub open spec fn spec_step(st: (RecoverIbcClientV, Seq<bool>), key: Seq<char>, v: JsonV) -> Result<(RecoverIbcClientV, Seq<bool>), JsonErrorV> {
        let m = st.0;
        let seen = st.1;
        if key == "clientId"@ || key == "client_id"@ {
            if seen[0] {
                Err(JsonErrorV::DuplicateField("clientId"@))
            } else {
                match read_string(v) {
                    Ok(x) => Ok((RecoverIbcClientV { client_id: x, ..m }, seen.update(0, true))),
                    Err(e) => Err(e),
                }
            }
        } else if key == "replacementClientId"@ || key == "replacement_client_id"@ {
            if seen[1] {
                Err(JsonErrorV::DuplicateField("replacementClientId"@))
            } else {
                match read_string(v) {
                    Ok(x) => Ok((RecoverIbcClientV { replacement_client_id: x, ..m }, seen.update(1, true))),
                    Err(e) => Err(e),
                }
            }
        } else {
            Err(JsonErrorV::UnknownField(key))
        }
    }

    /// [`Self::spec_step`] as a function value.
    pub open spec fn step_fn() -> spec_fn((RecoverIbcClientV, Seq<bool>), Seq<char>, JsonV) -> Result<(RecoverIbcClientV, Seq<bool>), JsonErrorV> {
        |st: (RecoverIbcClientV, Seq<bool>), key: Seq<char>, v: JsonV| Self::spec_step(st, key, v)
    }

    /// The state before the first member is read: the default message, no field seen.
    pub open spec fn spec_start() -> (RecoverIbcClientV, Seq<bool>) {
        (Self::spec_default(), seq![false, false])
    }

    /// The message that a JSON value describes: an object whose keys each name a field
    /// (by its JSON name or its protobuf name), at most once each; fields that are not
    /// given keep their default. The first member that is refused gives the error.
    pub open spec fn spec_from_json(j: JsonV) -> Result<RecoverIbcClientV, JsonErrorV> {
        match j {
            JsonV::Object(es) => match fold_entries(Self::spec_start(), es, Self::step_fn()) {
                Ok(st) => Ok(st.0),
                Err(e) => Err(e),
            },
            _ => Err(JsonErrorV::ExpectedObject),
        }
    }

    /// [`Self::spec_from_json`] as a function value, for repeated fields.
    pub open spec fn reader() -> spec_fn(JsonV) -> Result<RecoverIbcClientV, JsonErrorV> {
        |v: JsonV| Self::spec_from_json(v)
    }

    /// An optional field of this message type: `null` leaves it unset.
    pub open spec fn spec_read_opt(v: JsonV) -> Result<Option<RecoverIbcClientV>, JsonErrorV> {
        match v {
            JsonV::Null => Ok(None),
            _ => match Self::spec_from_json(v) {
                Ok(x) => Ok(Some(x)),
                Err(e) => Err(e),
            },
        }
    }

    fn step(m: Self, seen: Vec<bool>, key: &String, v: &Json) -> (r: Result<(Self, Vec<bool>), JsonError>)
        requires seen@.len() == 2,
        ensures
            match r {
                Ok((m2, seen2)) => Self::spec_step((m@, seen@), key@, v@) == Ok::<(RecoverIbcClientV, Seq<bool>), JsonErrorV>((m2@, seen2@)) && seen2@.len() == 2,
                Err(e) => Self::spec_step((m@, seen@), key@, v@) == Err::<(RecoverIbcClientV, Seq<bool>), JsonErrorV>(e@),
            },
    {
        let mut m = m;
        let mut seen = seen;
        let k = key.as_str();
        if str_eq(k, "clientId") || str_eq(k, "client_id") {
            if seen[0] {
                return Err(JsonError::DuplicateField("clientId".to_string()));
            }
            match string_field(v) {
                Ok(x) => m.client_id = x,
                Err(e) => return Err(e),
            }
            seen.set(0, true);
        } else if str_eq(k, "replacementClientId") || str_eq(k, "replacement_client_id") {
            if seen[1] {
                return Err(JsonError::DuplicateField("replacementClientId".to_string()));
            }
            match string_field(v) {
                Ok(x) => m.replacement_client_id = x,
                Err(e) => return Err(e),
            }
            seen.set(1, true);
        } else {
            return Err(JsonError::UnknownField(key.clone()));
        }
        Ok((m, seen))
    }

    /// Reads the message from a JSON value, as [`Self::spec_from_json`] describes.
    pub fn from_json(j: &Json) -> (r: Result<Self, JsonError>)
        ensures
            match r {
                Ok(m) => Self::spec_from_json(j@) == Ok::<RecoverIbcClientV, JsonErrorV>(m@),
                Err(e) => Self::spec_from_json(j@) == Err::<RecoverIbcClientV, JsonErrorV>(e@),
            },
    {
        let es = match j {
            Json::Object(es) => es,
            _ => return Err(JsonError::ExpectedObject),
        };
        let ghost ves = view_entries(es@);
        proof {
            lemma_view_entries_len(es@);
            assert(j@ == JsonV::Object(ves));
        }
        let mut m = Self::default();
        let mut seen: Vec<bool> = vec![false, false];
        let mut i: usize = 0;
        proof {
            assert(seen@ =~= Self::spec_start().1);
            assert(ves.skip(0) == ves);
        }
        while i < es.len()
            invariant
                j@ == JsonV::Object(ves),
                ves == view_entries(es@),
                ves.len() == es@.len(),
                i <= es.len(),
                seen@.len() == 2,
                fold_entries(Self::spec_start(), ves, Self::step_fn())
                    == fold_entries((m@, seen@), ves.skip(i as int), Self::step_fn()),
            decreases es.len() - i,
        {
            proof {
                lemma_view_entries_index(es@, i as int);
                lemma_fold_entries_step((m@, seen@), ves, i as int, Self::step_fn());
            }
            match Self::step(m, seen, &es[i].0, &es[i].1) {
                Ok((m2, seen2)) => {
                    m = m2;
                    seen = seen2;
                },
                Err(e) => return Err(e),
            }
            i = i + 1;
        }
        proof {
            assert(ves.skip(ves.len() as int) == Seq::<(Seq<char>, JsonV)>::empty());
            assert(fold_entries((m@, seen@), ves.skip(ves.len() as int), Self::step_fn())
                == Ok::<(RecoverIbcClientV, Seq<bool>), JsonErrorV>((m@, seen@)));
        }
        Ok(m)
    }

    /// Reads an optional field of this message type.
    pub fn opt_from_json(v: &Json) -> (r: Result<Option<Self>, JsonError>)
        ensures
            match r {
                Ok(None) => Self::spec_read_opt(v@) == Ok::<Option<RecoverIbcClientV>, JsonErrorV>(None),
                Ok(Some(x)) => Self::spec_read_opt(v@) == Ok::<Option<RecoverIbcClientV>, JsonErrorV>(Some(x@)),
                Err(e) => Self::spec_read_opt(v@) == Err::<Option<RecoverIbcClientV>, JsonErrorV>(e@),
            },
    {
        match v {
            Json::Null => Ok(None),
            _ => match Self::from_json(v) {
                Ok(x) => Ok(Some(x)),
                Err(e) => Err(e),
            },
        }
    }

    /// Reading the member that the field `client_id` writes sets the field.
    pub proof fn lemma_entry_client_id(m: RecoverIbcClientV, st: (RecoverIbcClientV, Seq<bool>))
        requires
            st.1.len() == 2,
            !st.1[0],
            st.0.client_id == Seq::<char>::empty(),
        ensures
            fold_entries(st, Self::spec_entry_client_id(m), Self::step_fn()) == Ok::<(RecoverIbcClientV, Seq<bool>), JsonErrorV>((RecoverIbcClientV { client_id: m.client_id, ..st.0 }, if m.client_id.len() != 0 { st.1.update(0, true) } else { st.1 })),
    {
        reveal_strlit("clientId");
        reveal_strlit("client_id");
        reveal_strlit("replacementClientId");
        reveal_strlit("replacement_client_id");
        assert("clientId"@.len() == 8);
        assert("client_id"@.len() == 9);
        assert("replacementClientId"@.len() == 19);
        assert("replacement_client_id"@.len() == 21);
        if m.client_id.len() == 0 {
            assert(m.client_id =~= Seq::<char>::empty());
        }
        lemma_fold_entry_if(st, m.client_id.len() != 0, "clientId"@, JsonV::Str(m.client_id), Self::step_fn());
    }

    /// Reading the member that the field `replacement_client_id` writes sets the field.
    pub proof fn lemma_entry_replacement_client_id(m: RecoverIbcClientV, st: (RecoverIbcClientV, Seq<bool>))
        requires
            st.1.len() == 2,
            !st.1[1],
            st.0.replacement_client_id == Seq::<char>::empty(),
        ensures
            fold_entries(st, Self::spec_entry_replacement_client_id(m), Self::step_fn()) == Ok::<(RecoverIbcClientV, Seq<bool>), JsonErrorV>((RecoverIbcClientV { replacement_client_id: m.replacement_client_id, ..st.0 }, if m.replacement_client_id.len() != 0 { st.1.update(1, true) } else { st.1 })),
    {
        reveal_strlit("clientId");
        reveal_strlit("client_id");
        reveal_strlit("replacementClientId");
        reveal_strlit("replacement_client_id");
        assert("clientId"@.len() == 8);
        assert("client_id"@.len() == 9);
        assert("replacementClientId"@.len() == 19);
        assert("replacement_client_id"@.len() == 21);
        if m.replacement_client_id.len() == 0 {
            assert(m.replacement_client_id =~= Seq::<char>::empty());
        }
        lemma_fold_entry_if(st, m.replacement_client_id.len() != 0, "replacementClientId"@, JsonV::Str(m.replacement_client_id), Self::step_fn());
    }

    /// The JSON spelling of a key: the protobuf name of a field becomes its JSON name;
    /// a JSON name, and any key that names no field, is left as it is.
    pub open spec fn spec_json_key(key: Seq<char>) -> Seq<char> {
        if key == "clientId"@ || key == "client_id"@ {
            "clientId"@
        } else if key == "replacementClientId"@ || key == "replacement_client_id"@ {
            "replacementClientId"@
        } else {
            key
        }
    }

    /// [`Self::spec_json_key`] as a function value.
    pub open spec fn json_key_fn() -> spec_fn(Seq<char>) -> Seq<char> {
        |key: Seq<char>| Self::spec_json_key(key)
    }

    /// One member is read alike whichever spelling its key has.
    pub proof fn lemma_step_json_key(st: (RecoverIbcClientV, Seq<bool>), key: Seq<char>, v: JsonV)
        ensures Self::spec_step(st, key, v) == Self::spec_step(st, Self::spec_json_key(key), v),
    {
        reveal_strlit("clientId");
        reveal_strlit("client_id");
        reveal_strlit("replacementClientId");
        reveal_strlit("replacement_client_id");
        assert("clientId"@.len() == 8);
        assert("client_id"@.len() == 9);
        assert("replacementClientId"@.len() == 19);
        assert("replacement_client_id"@.len() == 21);
        if key == "client_id"@ {
            assert(Self::spec_json_key(key) == "clientId"@);
        }
        if key == "replacement_client_id"@ {
            assert(Self::spec_json_key(key) == "replacementClientId"@);
        }
    }

    /// Reading an object gives the same result whichever spelling each of its keys has:
    /// two objects whose members hold the same values, in the same order, under keys of
    /// the same JSON spelling describe the same message, or are refused with the same error.
    pub proof fn lemma_key_spelling(es1: Seq<(Seq<char>, JsonV)>, es2: Seq<(Seq<char>, JsonV)>)
        requires
            es1.len() == es2.len(),
            forall|i: int| #![trigger es1[i], es2[i]] 0 <= i < es1.len() ==> es1[i].1 == es2[i].1 && Self::spec_json_key(es1[i].0) == Self::spec_json_key(es2[i].0),
        ensures Self::spec_from_json(JsonV::Object(es1)) == Self::spec_from_json(JsonV::Object(es2)),
    {
        assert forall|s: (RecoverIbcClientV, Seq<bool>), k: Seq<char>, v: JsonV|
            #![trigger Self::step_fn()(s, k, v), Self::json_key_fn()(k)]
            Self::step_fn()(s, k, v) == Self::step_fn()(s, Self::json_key_fn()(k), v) by {
            Self::lemma_step_json_key(s, k, v);
        }
        lemma_fold_same_keys(Self::spec_start(), es1, es2, Self::step_fn(), Self::json_key_fn());
    }

    /// The keys of the object that the message writes: the JSON names of the fields that
    /// do not hold their default (for a oneof, the JSON name of the member set), in the
    /// order of the fields.
    pub open spec fn spec_written_keys(m: RecoverIbcClientV) -> Seq<Seq<char>> {
        key_if(m.client_id.len() != 0, "clientId"@)
            + key_if(m.replacement_client_id.len() != 0, "replacementClientId"@)
    }

    /// The object that the message writes has exactly the keys of
    /// [`Self::spec_written_keys`], in that order.
    pub proof fn lemma_written_keys(m: RecoverIbcClientV)
        ensures
            Self::spec_to_json(m) == JsonV::Object(Self::spec_entries(m)),
            entry_keys(Self::spec_entries(m)) == Self::spec_written_keys(m),
    {
        lemma_entry_keys_if(m.client_id.len() != 0, "clientId"@, JsonV::Str(m.client_id));
        lemma_entry_keys_append(Self::spec_entry_client_id(m), m.replacement_client_id.len() != 0, "replacementClientId"@, JsonV::Str(m.replacement_client_id));
    }

    /// Whether the field whose JSON name is `name` holds its default in `m`; for a member
    /// of a oneof, whether the oneof is set to another member or unset. `true` for a name
    /// that names no field.
    pub open spec fn spec_holds_default(m: RecoverIbcClientV, name: Seq<char>) -> bool {
        if name == "clientId"@ {
            m.client_id == Seq::<char>::empty()
        } else if name == "replacementClientId"@ {
            m.replacement_client_id == Seq::<char>::empty()
        } else {
            true
        }
    }

    /// Whether reading `v` for the field whose JSON name is `name` leaves the field at
    /// its default: `null`, for a field that takes it (a message field, a member of a
    /// oneof); nothing, for any other field. `true` for a name that names no field.
    pub open spec fn spec_leaves_default(name: Seq<char>, v: JsonV) -> bool {
        if name == "clientId"@ {
            false
        } else if name == "replacementClientId"@ {
            false
        } else {
            true
        }
    }

    /// Reading one member keeps a field at its default unless the key names the field
    /// and the value does not leave it there.
    pub proof fn lemma_step_keeps_default(st: (RecoverIbcClientV, Seq<bool>), key: Seq<char>, v: JsonV, name: Seq<char>)
        requires
            Self::spec_holds_default(st.0, name),
            Self::spec_json_key(key) == name ==> Self::spec_leaves_default(name, v),
        ensures
            Self::spec_step(st, key, v) is Ok ==> Self::spec_holds_default(Self::spec_step(st, key, v)->Ok_0.0, name),
    {
        reveal_strlit("clientId");
        reveal_strlit("client_id");
        reveal_strlit("replacementClientId");
        reveal_strlit("replacement_client_id");
        assert("clientId"@.len() == 8);
        assert("client_id"@.len() == 9);
        assert("replacementClientId"@.len() == 19);
        assert("replacement_client_id"@.len() == 21);
        Self::lemma_step_json_key(st, key, v);
    }

    /// A field whose key appears in no member of an object, or only with values that
    /// leave it at its default (`null`, for a field that takes it), holds its default in
    /// the message that the object describes.
    pub proof fn lemma_absent_default(es: Seq<(Seq<char>, JsonV)>, name: Seq<char>)
        requires
            forall|i: int| 0 <= i < es.len() ==> (Self::spec_json_key((#[trigger] es[i]).0) == name
                ==> Self::spec_leaves_default(name, es[i].1)),
        ensures
            Self::spec_from_json(JsonV::Object(es)) is Ok
                ==> Self::spec_holds_default(Self::spec_from_json(JsonV::Object(es))->Ok_0, name),
    {
        let inv = |s: (RecoverIbcClientV, Seq<bool>)| Self::spec_holds_default(s.0, name);
        let allowed = |k: Seq<char>, v: JsonV| Self::spec_json_key(k) == name ==> Self::spec_leaves_default(name, v);
        assert forall|s: (RecoverIbcClientV, Seq<bool>), k: Seq<char>, v: JsonV| #![trigger Self::step_fn()(s, k, v)]
            inv(s) && allowed(k, v) && Self::step_fn()(s, k, v) is Ok implies inv(Self::step_fn()(s, k, v)->Ok_0) by {
            Self::lemma_step_keeps_default(s, k, v, name);
        }
        assert(inv(Self::spec_start()));
        lemma_fold_keeps(Self::spec_start(), es, Self::step_fn(), inv, allowed);
    }

    /// The field `client_id` alone: an object with one member under its JSON or protobuf
    /// name reads as the message with that field set and every other field at its
    /// default, and the message with only that field off its default writes that
    /// one member under the JSON name.
    pub proof fn lemma_field_client_id(s: Seq<char>)
        ensures
            Self::spec_from_json(JsonV::Object(seq![("clientId"@, JsonV::Str(s))])) == Ok::<RecoverIbcClientV, JsonErrorV>(RecoverIbcClientV { client_id: s, ..Self::spec_default() }),
            Self::spec_from_json(JsonV::Object(seq![("client_id"@, JsonV::Str(s))])) == Ok::<RecoverIbcClientV, JsonErrorV>(RecoverIbcClientV { client_id: s, ..Self::spec_default() }),
            s.len() > 0 ==> Self::spec_to_json(RecoverIbcClientV { client_id: s, ..Self::spec_default() }) == JsonV::Object(seq![("clientId"@, JsonV::Str(s))]),
    {
        reveal_strlit("clientId");
        reveal_strlit("client_id");
        reveal_strlit("replacementClientId");
        reveal_strlit("replacement_client_id");
        assert("clientId"@.len() == 8);
        assert("client_id"@.len() == 9);
        assert("replacementClientId"@.len() == 19);
        assert("replacement_client_id"@.len() == 21);
        lemma_fold_entry_if(Self::spec_start(), true, "clientId"@, JsonV::Str(s), Self::step_fn());
        lemma_fold_entry_if(Self::spec_start(), true, "client_id"@, JsonV::Str(s), Self::step_fn());
    }

    /// The field `replacement_client_id` alone: an object with one member under its JSON or protobuf
    /// name reads as the message with that field set and every other field at its
    /// default, and the message with only that field off its default writes that
    /// one member under the JSON name.
    pub proof fn lemma_field_replacement_client_id(s: Seq<char>)
        ensures
            Self::spec_from_json(JsonV::Object(seq![("replacementClientId"@, JsonV::Str(s))])) == Ok::<RecoverIbcClientV, JsonErrorV>(RecoverIbcClientV { replacement_client_id: s, ..Self::spec_default() }),
            Self::spec_from_json(JsonV::Object(seq![("replacement_client_id"@, JsonV::Str(s))])) == Ok::<RecoverIbcClientV, JsonErrorV>(RecoverIbcClientV { replacement_client_id: s, ..Self::spec_default() }),
            s.len() > 0 ==> Self::spec_to_json(RecoverIbcClientV { replacement_client_id: s, ..Self::spec_default() }) == JsonV::Object(seq![("replacementClientId"@, JsonV::Str(s))]),
    {
        reveal_strlit("clientId");
        reveal_strlit("client_id");
        reveal_strlit("replacementClientId");
        reveal_strlit("replacement_client_id");
        assert("clientId"@.len() == 8);
        assert("client_id"@.len() == 9);
        assert("replacementClientId"@.len() == 19);
        assert("replacement_client_id"@.len() == 21);
        lemma_fold_entry_if(Self::spec_start(), true, "replacementClientId"@, JsonV::Str(s), Self::step_fn());
        lemma_fold_entry_if(Self::spec_start(), true, "replacement_client_id"@, JsonV::Str(s), Self::step_fn());
    }

    /// Reading back the JSON object of a message gives the message.
    pub proof fn lemma_json_roundtrip(m: RecoverIbcClientV)
        ensures Self::spec_from_json(Self::spec_to_json(m)) == Ok::<RecoverIbcClientV, JsonErrorV>(m),
    {
        let step = Self::step_fn();
        let s0 = Self::spec_start();
        let s1 = (RecoverIbcClientV { client_id: m.client_id, ..s0.0 }, if m.client_id.len() != 0 { s0.1.update(0, true) } else { s0.1 });
        Self::lemma_entry_client_id(m, s0);
        let s2 = (RecoverIbcClientV { replacement_client_id: m.replacement_client_id, ..s1.0 }, if m.replacement_client_id.len() != 0 { s1.1.update(1, true) } else { s1.1 });
        Self::lemma_entry_replacement_client_id(m, s1);
        let p1 = Self::spec_entry_client_id(m);
        let p2 = p1 + Self::spec_entry_replacement_client_id(m);
        lemma_fold_entries_append(s0, p1, Self::spec_entry_replacement_client_id(m), step);
        assert(s2.0 == m);
    }
}

/// The `astria.protocol.transaction.v1.RollupDataSubmission` message.
#[derive(Clone, Debug, PartialEq)]
pub struct RollupDataSubmission {
    pub rollup_id: Option<RollupId>,
    pub data: Vec<u8>,
    pub fee_asset: String,
}

/// The mathematical content of a [`RollupDataSubmission`].
pub struct RollupDataSubmissionV {
    pub rollup_id: Option<Seq<(Seq<char>, JsonV)>>,
    pub data: Seq<u8>,
    pub fee_asset: Seq<char>,
}

impl View for RollupDataSubmission {
    type V = RollupDataSubmissionV;

    open spec fn view(&self) -> RollupDataSubmissionV {
        RollupDataSubmissionV {
            rollup_id: opt_embedded_view(self.rollup_id),
            data: self.data@,
            fee_asset: self.fee_asset@,
        }
    }
}

impl Default for RollupDataSubmission {
    fn default() -> (r: Self)
        ensures r@ == RollupDataSubmission::spec_default(),
    {
        let r = RollupDataSubmission {
            rollup_id: None,
            data: Vec::new(),
            fee_asset: String::new(),
        };
        r
    }
}

impl RollupDataSubmission {
    /// The fully qualified protobuf name of the message.
    pub fn full_name() -> (r: String)
        ensures r@ == "astria.protocol.transaction.v1.RollupDataSubmission"@,
    {
        "astria.protocol.transaction.v1.RollupDataSubmission".to_string()
    }

    /// Every field at its default: empty strings, bytes and lists, zero, `false`, unset.
    pub open spec fn spec_default() -> RollupDataSubmissionV {
        RollupDataSubmissionV {
            rollup_id: None,
            data: Seq::<u8>::empty(),
            fee_asset: Seq::<char>::empty(),
        }
    }

    /// The view of an optional field of this message type.
    pub open spec fn view_opt(o: Option<Self>) -> Option<RollupDataSubmissionV> {
        match o {
            Some(x) => Some(x@),
            None => None,
        }
    }

    /// The view of a repeated field of this message type.
    pub open spec fn view_list(v: Seq<Self>) -> Seq<RollupDataSubmissionV> {
        v.map_values(|x: Self| x@)
    }

    /// The member that the field `rollup_id` writes: none where it holds its default.
    pub open spec fn spec_entry_rollup_id(m: RollupDataSubmissionV) -> Seq<(Seq<char>, JsonV)> {
        entry_if(m.rollup_id is Some, "rollupId"@, JsonV::Object(m.rollup_id.unwrap()))
    }

    /// The member that the field `data` writes: none where it holds its default.
    pub open spec fn spec_entry_data(m: RollupDataSubmissionV) -> Seq<(Seq<char>, JsonV)> {
        entry_if(m.data.len() != 0, "data"@, JsonV::Str(base64_encoded(m.data)))
    }

    /// The member that the field `fee_asset` writes: none where it holds its default.
    pub open spec fn spec_entry_fee_asset(m: RollupDataSubmissionV) -> Seq<(Seq<char>, JsonV)> {
        entry_if(m.fee_asset.len() != 0, "feeAsset"@, JsonV::Str(m.fee_asset))
    }

    /// The members of the JSON object of the message: each field that does not hold
    /// its default, under its JSON name, in the order of the fields.
    pub open spec fn spec_entries(m: RollupDataSubmissionV) -> Seq<(Seq<char>, JsonV)> {
        Self::spec_entry_rollup_id(m) + Self::spec_entry_data(m) + Self::spec_entry_fee_asset(m)
    }

    /// The JSON object that the protobuf JSON mapping writes for the message.
    pub open spec fn spec_to_json(m: RollupDataSubmissionV) -> JsonV {
        JsonV::Object(Self::spec_entries(m))
    }

    /// [`Self::spec_to_json`] as a function value, for repeated fields.
    pub open spec fn writer() -> spec_fn(RollupDataSubmissionV) -> JsonV {
        |m: RollupDataSubmissionV| Self::spec_to_json(m)
    }

    pub open spec fn spec_readable_data(m: RollupDataSubmissionV) -> bool {
        (m.data.len() == 0 || base64_decoded(base64_encoded(m.data)) == Some(m.data))
    }

    /// The bytes that the message holds, written in base64, read back as themselves.
    pub open spec fn spec_bytes_readable(m: RollupDataSubmissionV) -> bool {
        &&& Self::spec_readable_data(m)
    }

    fn write_rollup_id(&self, es: &mut Vec<(String, Json)>)
        ensures
            view_entries(final(es)@) == view_entries(old(es)@) + Self::spec_entry_rollup_id(self@),
    {
        match &self.rollup_id {
            Some(x) => push_entry(es, "rollupId", embedded_value(x)),
            None => {},
        }
        assert(view_entries(es@) =~= view_entries(old(es)@) + Self::spec_entry_rollup_id(self@));
    }

    fn write_data(&self, es: &mut Vec<(String, Json)>)
        ensures
            view_entries(final(es)@) == view_entries(old(es)@) + Self::spec_entry_data(self@),
            Self::spec_readable_data(self@),
    {
        if self.data.len() != 0 {
            push_entry(es, "data", bytes_value(&self.data));
        }
        assert(view_entries(es@) =~= view_entries(old(es)@) + Self::spec_entry_data(self@));
    }

    fn write_fee_asset(&self, es: &mut Vec<(String, Json)>)
        ensures
            view_entries(final(es)@) == view_entries(old(es)@) + Self::spec_entry_fee_asset(self@),
    {
        if !self.fee_asset.as_str().is_empty() {
            push_entry(es, "feeAsset", string_value(&self.fee_asset));
        }
        assert(view_entries(es@) =~= view_entries(old(es)@) + Self::spec_entry_fee_asset(self@));
    }

    /// Writes the message as a JSON object; reading it back gives the message.
    pub fn to_json(&self) -> (r: Json)
        ensures
            r@ == Self::spec_to_json(self@),
            Self::spec_bytes_readable(self@),
            Self::spec_from_json(r@) == Ok::<RollupDataSubmissionV, JsonErrorV>(self@),
    {
        let mut es: Vec<(String, Json)> = Vec::new();
        let ghost mut acc: Seq<(Seq<char>, JsonV)> = Seq::empty();
        proof {
            assert(view_entries(es@) =~= acc);
        }
        self.write_rollup_id(&mut es);
        proof {
            acc = acc + Self::spec_entry_rollup_id(self@);
        }
        self.write_data(&mut es);
        proof {
            acc = acc + Self::spec_entry_data(self@);
        }
        self.write_fee_asset(&mut es);
        proof {
            acc = acc + Self::spec_entry_fee_asset(self@);
        }
        proof {
            assert(acc =~= Self::spec_entries(self@));
            Self::lemma_json_roundtrip(self@);
        }
        Json::Object(es)
    }

    /// Reads one member of the object into the message under construction; `seen`
    /// records which fields that have no unset state were already given.
    pub open spec fn spec_step(st: (RollupDataSubmissionV, Seq<bool>), key: Seq<char>, v: JsonV) -> Result<(RollupDataSubmissionV, Seq<bool>), JsonErrorV> {
        let m = st.0;
        let seen = st.1;
        if key == "rollupId"@ || key == "rollup_id"@ {
            if m.rollup_id is Some {
                Err(JsonErrorV::DuplicateField("rollupId"@))
            } else {
                match read_embedded(v) {
                    Ok(x) => Ok((RollupDataSubmissionV { rollup_id: x, ..m }, seen)),
                    Err(e) => Err(e),
                }
            }
        } else if key == "data"@ {
            if seen[0] {
                Err(JsonErrorV::DuplicateField("data"@))
            } else {
                match read_bytes(v) {
                    Ok(x) => Ok((RollupDataSubmissionV { data: x, ..m }, seen.update(0, true))),
                    Err(e) => Err(e),
                }
            }
        } else if key == "feeAsset"@ || key == "fee_asset"@ {
            if seen[1] {
                Err(JsonErrorV::DuplicateField("feeAsset"@))
            } else {
                match read_string(v) {
                    Ok(x) => Ok((RollupDataSubmissionV { fee_asset: x, ..m }, seen.update(1, true))),
                    Err(e) => Err(e),
                }
            }
        } else {
            Err(JsonErrorV::UnknownField(key))
        }
    }

    /// [`Self::spec_step`] as a function value.
    pub open spec fn step_fn() -> spec_fn((RollupDataSubmissionV, Seq<bool>), Seq<char>, JsonV) -> Result<(RollupDataSubmissionV, Seq<bool>), JsonErrorV> {
        |st: (RollupDataSubmissionV, Seq<bool>), key: Seq<char>, v: JsonV| Self::spec_step(st, key, v)
    }

    /// The state before the first member is read: the default message, no field seen.
    pub open spec fn spec_start() -> (RollupDataSubmissionV, Seq<bool>) {
        (Self::spec_default(), seq![false, false])
    }

    /// The message that a JSON value describes: an object whose keys each name a field
    /// (by its JSON name or its protobuf name), at most once each; fields that are not
    /// given keep their default. The first member that is refused gives the error.
    pub open spec fn spec_from_json(j: JsonV) -> Result<RollupDataSubmissionV, JsonErrorV> {
        match j {
            JsonV::Object(es) => match fold_entries(Self::spec_start(), es, Self::step_fn()) {
                Ok(st) => Ok(st.0),
                Err(e) => Err(e),
            },
            _ => Err(JsonErrorV::ExpectedObject),
        }
    }

    /// [`Self::spec_from_json`] as a function value, for repeated fields.
    pub open spec fn reader() -> spec_fn(JsonV) -> Result<RollupDataSubmissionV, JsonErrorV> {
        |v: JsonV| Self::spec_from_json(v)
    }

    /// An optional field of this message type: `null` leaves it unset.
    pub open spec fn spec_read_opt(v: JsonV) -> Result<Option<RollupDataSubmissionV>, JsonErrorV> {
        match v {
            JsonV::Null => Ok(None),
            _ => match Self::spec_from_json(v) {
                Ok(x) => Ok(Some(x)),
                Err(e) => Err(e),
            },
        }
    }

    fn step(m: Self, seen: Vec<bool>, key: &String, v: &Json) -> (r: Result<(Self, Vec<bool>), JsonError>)
        requires seen@.len() == 2,
        ensures
            match r {
                Ok((m2, seen2)) => Self::spec_step((m@, seen@), key@, v@) == Ok::<(RollupDataSubmissionV, Seq<bool>), JsonErrorV>((m2@, seen2@)) && seen2@.len() == 2,
                Err(e) => Self::spec_step((m@, seen@), key@, v@) == Err::<(RollupDataSubmissionV, Seq<bool>), JsonErrorV>(e@),
            },
    {
        let mut m = m;
        let mut seen = seen;
        let k = key.as_str();
        if str_eq(k, "rollupId") || str_eq(k, "rollup_id") {
            if m.rollup_id.is_some() {
                return Err(JsonError::DuplicateField("rollupId".to_string()));
            }
            match embedded_field(v) {
                Ok(x) => m.rollup_id = x,
                Err(e) => return Err(e),
            }
        } else if str_eq(k, "data") {
            if seen[0] {
                return Err(JsonError::DuplicateField("data".to_string()));
            }
            match bytes_field(v) {
                Ok(x) => m.data = x,
                Err(e) => return Err(e),
            }
            seen.set(0, true);
        } else if str_eq(k, "feeAsset") || str_eq(k, "fee_asset") {
            if seen[1] {
                return Err(JsonError::DuplicateField("feeAsset".to_string()));
            }
            match string_field(v) {
                Ok(x) => m.fee_asset = x,
                Err(e) => return Err(e),
            }
            seen.set(1, true);
        } else {
            return Err(JsonError::UnknownField(key.clone()));
        }
        Ok((m, seen))
    }

    /// Reads the message from a JSON value, as [`Self::spec_from_json`] describes.
    pub fn from_json(j: &Json) -> (r: Result<Self, JsonError>)
        ensures
            match r {
                Ok(m) => Self::spec_from_json(j@) == Ok::<RollupDataSubmissionV, JsonErrorV>(m@),
                Err(e) => Self::spec_from_json(j@) == Err::<RollupDataSubmissionV, JsonErrorV>(e@),
            },
    {
        let es = match j {
            Json::Object(es) => es,
            _ => return Err(JsonError::ExpectedObject),
        };
        let ghost ves = view_entries(es@);
        proof {
            lemma_view_entries_len(es@);
            assert(j@ == JsonV::Object(ves));
        }
        let mut m = Self::default();
        let mut seen: Vec<bool> = vec![false, false];
        let mut i: usize = 0;
        proof {
            assert(seen@ =~= Self::spec_start().1);
            assert(ves.skip(0) == ves);
        }
        while i < es.len()
            invariant
                j@ == JsonV::Object(ves),
                ves == view_entries(es@),
                ves.len() == es@.len(),
                i <= es.len(),
                seen@.len() == 2,
                fold_entries(Self::spec_start(), ves, Self::step_fn())
                    == fold_entries((m@, seen@), ves.skip(i as int), Self::step_fn()),
            decreases es.len() - i,
        {
            proof {
                lemma_view_entries_index(es@, i as int);
                lemma_fold_entries_step((m@, seen@), ves, i as int, Self::step_fn());
            }
            match Self::step(m, seen, &es[i].0, &es[i].1) {
                Ok((m2, seen2)) => {
                    m = m2;
                    seen = seen2;
                },
                Err(e) => return Err(e),
            }
            i = i + 1;
        }
        proof {
            assert(ves.skip(ves.len() as int) == Seq::<(Seq<char>, JsonV)>::empty());
            assert(fold_entries((m@, seen@), ves.skip(ves.len() as int), Self::step_fn())
                == Ok::<(RollupDataSubmissionV, Seq<bool>), JsonErrorV>((m@, seen@)));
        }
        Ok(m)
    }

    /// Reads an optional field of this message type.
    pub fn opt_from_json(v: &Json) -> (r: Result<Option<Self>, JsonError>)
        ensures
            match r {
                Ok(None) => Self::spec_read_opt(v@) == Ok::<Option<RollupDataSubmissionV>, JsonErrorV>(None),
                Ok(Some(x)) => Self::spec_read_opt(v@) == Ok::<Option<RollupDataSubmissionV>, JsonErrorV>(Some(x@)),
                Err(e) => Self::spec_read_opt(v@) == Err::<Option<RollupDataSubmissionV>, JsonErrorV>(e@),
            },
    {
        match v {
            Json::Null => Ok(None),
            _ => match Self::from_json(v) {
                Ok(x) => Ok(Some(x)),
                Err(e) => Err(e),
            },
        }
    }

    /// Reading the member that the field `rollup_id` writes sets the field.
    pub proof fn lemma_entry_rollup_id(m: RollupDataSubmissionV, st: (RollupDataSubmissionV, Seq<bool>))
        requires
            st.1.len() == 2,
            st.0.rollup_id is None,
        ensures
            fold_entries(st, Self::spec_entry_rollup_id(m), Self::step_fn()) == Ok::<(RollupDataSubmissionV, Seq<bool>), JsonErrorV>((RollupDataSubmissionV { rollup_id: m.rollup_id, ..st.0 }, st.1)),
    {
        reveal_strlit("rollupId");
        reveal_strlit("rollup_id");
        reveal_strlit("data");
        reveal_strlit("feeAsset");
        reveal_strlit("fee_asset");
        assert("rollupId"@.len() == 8);
        assert("rollup_id"@.len() == 9);
        assert("data"@.len() == 4);
        assert("feeAsset"@.len() == 8);
        assert("fee_asset"@.len() == 9);
        assert("rollupId"@[0] != "feeAsset"@[0]);
        assert("rollup_id"@[0] != "fee_asset"@[0]);
        lemma_fold_entry_if(st, m.rollup_id is Some, "rollupId"@, JsonV::Object(m.rollup_id.unwrap()), Self::step_fn());
    }

    /// Reading the member that the field `data` writes sets the field.
    pub proof fn lemma_entry_data(m: RollupDataSubmissionV, st: (RollupDataSubmissionV, Seq<bool>))
        requires
            st.1.len() == 2,
            !st.1[0],
            st.0.data == Seq::<u8>::empty(),
            Self::spec_readable_data(m),
        ensures
            fold_entries(st, Self::spec_entry_data(m), Self::step_fn()) == Ok::<(RollupDataSubmissionV, Seq<bool>), JsonErrorV>((RollupDataSubmissionV { data: m.data, ..st.0 }, if m.data.len() != 0 { st.1.update(0, true) } else { st.1 })),
    {
        reveal_strlit("rollupId");
        reveal_strlit("rollup_id");
        reveal_strlit("data");
        reveal_strlit("feeAsset");
        reveal_strlit("fee_asset");
        assert("rollupId"@.len() == 8);
        assert("rollup_id"@.len() == 9);
        assert("data"@.len() == 4);
        assert("feeAsset"@.len() == 8);
        assert("fee_asset"@.len() == 9);
        assert("rollupId"@[0] != "feeAsset"@[0]);
        assert("rollup_id"@[0] != "fee_asset"@[0]);
        if m.data.len() == 0 {
            assert(m.data =~= Seq::<u8>::empty());
        }
        lemma_fold_entry_if(st, m.data.len() != 0, "data"@, JsonV::Str(base64_encoded(m.data)), Self::step_fn());
    }

    /// Reading the member that the field `fee_asset` writes sets the field.
    pub proof fn lemma_entry_fee_asset(m: RollupDataSubmissionV, st: (RollupDataSubmissionV, Seq<bool>))
        requires
            st.1.len() == 2,
            !st.1[1],
            st.0.fee_asset == Seq::<char>::empty(),
        ensures
            fold_entries(st, Self::spec_entry_fee_asset(m), Self::step_fn()) == Ok::<(RollupDataSubmissionV, Seq<bool>), JsonErrorV>((RollupDataSubmissionV { fee_asset: m.fee_asset, ..st.0 }, if m.fee_asset.len() != 0 { st.1.update(1, true) } else { st.1 })),
    {
        reveal_strlit("rollupId");
        reveal_strlit("rollup_id");
        reveal_strlit("data");
        reveal_strlit("feeAsset");
        reveal_strlit("fee_asset");
        assert("rollupId"@.len() == 8);
        assert("rollup_id"@.len() == 9);
        assert("data"@.len() == 4);
        assert("feeAsset"@.len() == 8);
        assert("fee_asset"@.len() == 9);
        assert("rollupId"@[0] != "feeAsset"@[0]);
        assert("rollup_id"@[0] != "fee_asset"@[0]);
        if m.fee_asset.len() == 0 {
            assert(m.fee_asset =~= Seq::<char>::empty());
        }
        lemma_fold_entry_if(st, m.fee_asset.len() != 0, "feeAsset"@, JsonV::Str(m.fee_asset), Self::step_fn());
    }

    /// The JSON spelling of a key: the protobuf name of a field becomes its JSON name;
    /// a JSON name, and any key that names no field, is left as it is.
    pub open spec fn spec_json_key(key: Seq<char>) -> Seq<char> {
        if key == "rollupId"@ || key == "rollup_id"@ {
            "rollupId"@
        } else if key == "data"@ {
            "data"@
        } else if key == "feeAsset"@ || key == "fee_asset"@ {
            "feeAsset"@
        } else {
            key
        }
    }

    /// [`Self::spec_json_key`] as a function value.
    pub open spec fn json_key_fn() -> spec_fn(Seq<char>) -> Seq<char> {
        |key: Seq<char>| Self::spec_json_key(key)
    }

    /// One member is read alike whichever spelling its key has.
    pub proof fn lemma_step_json_key(st: (RollupDataSubmissionV, Seq<bool>), key: Seq<char>, v: JsonV)
        ensures Self::spec_step(st, key, v) == Self::spec_step(st, Self::spec_json_key(key), v),
    {
        reveal_strlit("rollupId");
        reveal_strlit("rollup_id");
        reveal_strlit("data");
        reveal_strlit("feeAsset");
        reveal_strlit("fee_asset");
        assert("rollupId"@.len() == 8);
        assert("rollup_id"@.len() == 9);
        assert("data"@.len() == 4);
        assert("feeAsset"@.len() == 8);
        assert("fee_asset"@.len() == 9);
        assert("rollupId"@[0] != "feeAsset"@[0]);
        assert("rollup_id"@[0] != "fee_asset"@[0]);
        if key == "rollup_id"@ {
            assert(Self::spec_json_key(key) == "rollupId"@);
        }
        if key == "fee_asset"@ {
            assert(Self::spec_json_key(key) == "feeAsset"@);
        }
    }

    /// Reading an object gives the same result whichever spelling each of its keys has:
    /// two objects whose members hold the same values, in the same order, under keys of
    /// the same JSON spelling describe the same message, or are refused with the same error.
    pub proof fn lemma_key_spelling(es1: Seq<(Seq<char>, JsonV)>, es2: Seq<(Seq<char>, JsonV)>)
        requires
            es1.len() == es2.len(),
            forall|i: int| #![trigger es1[i], es2[i]] 0 <= i < es1.len() ==> es1[i].1 == es2[i].1 && Self::spec_json_key(es1[i].0) == Self::spec_json_key(es2[i].0),
        ensures Self::spec_from_json(JsonV::Object(es1)) == Self::spec_from_json(JsonV::Object(es2)),
    {
        assert forall|s: (RollupDataSubmissionV, Seq<bool>), k: Seq<char>, v: JsonV|
            #![trigger Self::step_fn()(s, k, v), Self::json_key_fn()(k)]
            Self::step_fn()(s, k, v) == Self::step_fn()(s, Self::json_key_fn()(k), v) by {
            Self::lemma_step_json_key(s, k, v);
        }
        lemma_fold_same_keys(Self::spec_start(), es1, es2, Self::step_fn(), Self::json_key_fn());
    }

    /// The keys of the object that the message writes: the JSON names of the fields that
    /// do not hold their default (for a oneof, the JSON name of the member set), in the
    /// order of the fields.
    pub open spec fn spec_written_keys(m: RollupDataSubmissionV) -> Seq<Seq<char>> {
        key_if(m.rollup_id is Some, "rollupId"@)
            + key_if(m.data.len() != 0, "data"@)
            + key_if(m.fee_asset.len() != 0, "feeAsset"@)
    }

    /// The object that the message writes has exactly the keys of
    /// [`Self::spec_written_keys`], in that order.
    pub proof fn lemma_written_keys(m: RollupDataSubmissionV)
        ensures
            Self::spec_to_json(m) == JsonV::Object(Self::spec_entries(m)),
            entry_keys(Self::spec_entries(m)) == Self::spec_written_keys(m),
    {
        lemma_entry_keys_if(m.rollup_id is Some, "rollupId"@, JsonV::Object(m.rollup_id.unwrap()));
        lemma_entry_keys_append(Self::spec_entry_rollup_id(m), m.data.len() != 0, "data"@, JsonV::Str(base64_encoded(m.data)));
        lemma_entry_keys_append(Self::spec_entry_rollup_id(m) + Self::spec_entry_data(m), m.fee_asset.len() != 0, "feeAsset"@, JsonV::Str(m.fee_asset));
    }

    /// Whether the field whose JSON name is `name` holds its default in `m`; for a member
    /// of a oneof, whether the oneof is set to another member or unset. `true` for a name
    /// that names no field.
    pub open spec fn spec_holds_default(m: RollupDataSubmissionV, name: Seq<char>) -> bool {
        if name == "rollupId"@ {
            m.rollup_id is None
        } else if name == "data"@ {
            m.data == Seq::<u8>::empty()
        } else if name == "feeAsset"@ {
            m.fee_asset == Seq::<char>::empty()
        } else {
            true
        }
    }

    /// Whether reading `v` for the field whose JSON name is `name` leaves the field at
    /// its default: `null`, for a field that takes it (a message field, a member of a
    /// oneof); nothing, for any other field. `true` for a name that names no field.
    pub open spec fn spec_leaves_default(name: Seq<char>, v: JsonV) -> bool {
        if name == "rollupId"@ {
            v is Null
        } else if name == "data"@ {
            false
        } else if name == "feeAsset"@ {
            false
        } else {
            true
        }
    }

    /// Reading one member keeps a field at its default unless the key names the field
    /// and the value does not leave it there.
    pub proof fn lemma_step_keeps_default(st: (RollupDataSubmissionV, Seq<bool>), key: Seq<char>, v: JsonV, name: Seq<char>)
        requires
            Self::spec_holds_default(st.0, name),
            Self::spec_json_key(key) == name ==> Self::spec_leaves_default(name, v),
        ensures
            Self::spec_step(st, key, v) is Ok ==> Self::spec_holds_default(Self::spec_step(st, key, v)->Ok_0.0, name),
    {
        reveal_strlit("rollupId");
        reveal_strlit("rollup_id");
        reveal_strlit("data");
        reveal_strlit("feeAsset");
        reveal_strlit("fee_asset");
        assert("rollupId"@.len() == 8);
        assert("rollup_id"@.len() == 9);
        assert("data"@.len() == 4);
        assert("feeAsset"@.len() == 8);
        assert("fee_asset"@.len() == 9);
        assert("rollupId"@[0] != "feeAsset"@[0]);
        assert("rollup_id"@[0] != "fee_asset"@[0]);
        Self::lemma_step_json_key(st, key, v);
    }

    /// A field whose key appears in no member of an object, or only with values that
    /// leave it at its default (`null`, for a field that takes it), holds its default in
    /// the message that the object describes.
    pub proof fn lemma_absent_default(es: Seq<(Seq<char>, JsonV)>, name: Seq<char>)
        requires
            forall|i: int| 0 <= i < es.len() ==> (Self::spec_json_key((#[trigger] es[i]).0) == name
                ==> Self::spec_leaves_default(name, es[i].1)),
        ensures
            Self::spec_from_json(JsonV::Object(es)) is Ok
                ==> Self::spec_holds_default(Self::spec_from_json(JsonV::Object(es))->Ok_0, name),
    {
        let inv = |s: (RollupDataSubmissionV, Seq<bool>)| Self::spec_holds_default(s.0, name);
        let allowed = |k: Seq<char>, v: JsonV| Self::spec_json_key(k) == name ==> Self::spec_leaves_default(name, v);
        assert forall|s: (RollupDataSubmissionV, Seq<bool>), k: Seq<char>, v: JsonV| #![trigger Self::step_fn()(s, k, v)]
            inv(s) && allowed(k, v) && Self::step_fn()(s, k, v) is Ok implies inv(Self::step_fn()(s, k, v)->Ok_0) by {
            Self::lemma_step_keeps_default(s, k, v, name);
        }
        assert(inv(Self::spec_start()));
        lemma_fold_keeps(Self::spec_start(), es, Self::step_fn(), inv, allowed);
    }

    /// The field `rollup_id` alone: an object with one member under its JSON or protobuf
    /// name reads as the message with that field set and every other field at its
    /// default, and the message with only that field off its default writes that
    /// one member under the JSON name.
    pub proof fn lemma_field_rollup_id(es: Seq<(Seq<char>, JsonV)>)
        ensures
            Self::spec_from_json(JsonV::Object(seq![("rollupId"@, JsonV::Object(es))])) == Ok::<RollupDataSubmissionV, JsonErrorV>(RollupDataSubmissionV { rollup_id: Some(es), ..Self::spec_default() }),
            Self::spec_from_json(JsonV::Object(seq![("rollupId"@, JsonV::Null)])) == Ok::<RollupDataSubmissionV, JsonErrorV>(Self::spec_default()),
            Self::spec_from_json(JsonV::Object(seq![("rollup_id"@, JsonV::Object(es))])) == Ok::<RollupDataSubmissionV, JsonErrorV>(RollupDataSubmissionV { rollup_id: Some(es), ..Self::spec_default() }),
            Self::spec_from_json(JsonV::Object(seq![("rollup_id"@, JsonV::Null)])) == Ok::<RollupDataSubmissionV, JsonErrorV>(Self::spec_default()),
            Self::spec_to_json(RollupDataSubmissionV { rollup_id: Some(es), ..Self::spec_default() }) == JsonV::Object(seq![("rollupId"@, JsonV::Object(es))]),
    {
        reveal_strlit("rollupId");
        reveal_strlit("rollup_id");
        reveal_strlit("data");
        reveal_strlit("feeAsset");
        reveal_strlit("fee_asset");
        assert("rollupId"@.len() == 8);
        assert("rollup_id"@.len() == 9);
        assert("data"@.len() == 4);
        assert("feeAsset"@.len() == 8);
        assert("fee_asset"@.len() == 9);
        assert("rollupId"@[0] != "feeAsset"@[0]);
        assert("rollup_id"@[0] != "fee_asset"@[0]);
        lemma_fold_entry_if(Self::spec_start(), true, "rollupId"@, JsonV::Object(es), Self::step_fn());
        lemma_fold_entry_if(Self::spec_start(), true, "rollupId"@, JsonV::Null, Self::step_fn());
        lemma_fold_entry_if(Self::spec_start(), true, "rollup_id"@, JsonV::Object(es), Self::step_fn());
        lemma_fold_entry_if(Self::spec_start(), true, "rollup_id"@, JsonV::Null, Self::step_fn());
    }

    /// The field `data` alone: an object with one member under its JSON or protobuf
    /// name reads as the message with that field set and every other field at its
    /// default, and the message with only that field off its default writes that
    /// one member under the JSON name.
    pub proof fn lemma_field_data(t: Seq<char>, b: Seq<u8>)
        ensures
            Self::spec_from_json(JsonV::Object(seq![("data"@, JsonV::Str(t))])) == (match base64_decoded(t) { Some(d) => Ok::<RollupDataSubmissionV, JsonErrorV>(RollupDataSubmissionV { data: d, ..Self::spec_default() }), None => Err(JsonErrorV::InvalidBase64) }),
            b.len() > 0 ==> Self::spec_to_json(RollupDataSubmissionV { data: b, ..Self::spec_default() }) == JsonV::Object(seq![("data"@, JsonV::Str(base64_encoded(b)))]),
    {
        reveal_strlit("rollupId");
        reveal_strlit("rollup_id");
        reveal_strlit("data");
        reveal_strlit("feeAsset");
        reveal_strlit("fee_asset");
        assert("rollupId"@.len() == 8);
        assert("rollup_id"@.len() == 9);
        assert("data"@.len() == 4);
        assert("feeAsset"@.len() == 8);
        assert("fee_asset"@.len() == 9);
        assert("rollupId"@[0] != "feeAsset"@[0]);
        assert("rollup_id"@[0] != "fee_asset"@[0]);
        lemma_fold_entry_if(Self::spec_start(), true, "data"@, JsonV::Str(t), Self::step_fn());
    }

    /// The field `fee_asset` alone: an object with one member under its JSON or protobuf
    /// name reads as the message with that field set and every other field at its
    /// default, and the message with only that field off its default writes that
    /// one member under the JSON name.
    pub proof fn lemma_field_fee_asset(s: Seq<char>)
        ensures
            Self::spec_from_json(JsonV::Object(seq![("feeAsset"@, JsonV::Str(s))])) == Ok::<RollupDataSubmissionV, JsonErrorV>(RollupDataSubmissionV { fee_asset: s, ..Self::spec_default() }),
            Self::spec_from_json(JsonV::Object(seq![("fee_asset"@, JsonV::Str(s))])) == Ok::<RollupDataSubmissionV, JsonErrorV>(RollupDataSubmissionV { fee_asset: s, ..Self::spec_default() }),
            s.len() > 0 ==> Self::spec_to_json(RollupDataSubmissionV { fee_asset: s, ..Self::spec_default() }) == JsonV::Object(seq![("feeAsset"@, JsonV::Str(s))]),
    {
        reveal_strlit("rollupId");
        reveal_strlit("rollup_id");
        reveal_strlit("data");
        reveal_strlit("feeAsset");
        reveal_strlit("fee_asset");
        assert("rollupId"@.len() == 8);
        assert("rollup_id"@.len() == 9);
        assert("data"@.len() == 4);
        assert("feeAsset"@.len() == 8);
        assert("fee_asset"@.len() == 9);
        assert("rollupId"@[0] != "feeAsset"@[0]);
        assert("rollup_id"@[0] != "fee_asset"@[0]);
        lemma_fold_entry_if(Self::spec_start(), true, "feeAsset"@, JsonV::Str(s), Self::step_fn());
        lemma_fold_entry_if(Self::spec_start(), true, "fee_asset"@, JsonV::Str(s), Self::step_fn());
    }

    /// Reading back the JSON object of a message gives the message.
    pub proof fn lemma_json_roundtrip(m: RollupDataSubmissionV)
        requires
            Self::spec_bytes_readable(m),
        ensures Self::spec_from_json(Self::spec_to_json(m)) == Ok::<RollupDataSubmissionV, JsonErrorV>(m),
    {
        let step = Self::step_fn();
        let s0 = Self::spec_start();
        let s1 = (RollupDataSubmissionV { rollup_id: m.rollup_id, ..s0.0 }, s0.1);
        Self::lemma_entry_rollup_id(m, s0);
        let s2 = (RollupDataSubmissionV { data: m.data, ..s1.0 }, if m.data.len() != 0 { s1.1.update(0, true) } else { s1.1 });
        Self::lemma_entry_data(m, s1);
        let s3 = (RollupDataSubmissionV { fee_asset: m.fee_asset, ..s2.0 }, if m.fee_asset.len() != 0 { s2.1.update(1, true) } else { s2.1 });
        Self::lemma_entry_fee_asset(m, s2);
        let p1 = Self::spec_entry_rollup_id(m);
        let p2 = p1 + Self::spec_entry_data(m);
        lemma_fold_entries_append(s0, p1, Self::spec_entry_data(m), step);
        let p3 = p2 + Self::spec_entry_fee_asset(m);
        lemma_fold_entries_append(s0, p2, Self::spec_entry_fee_asset(m), step);
        assert(s3.0 == m);
    }
}

/// The `astria.protocol.transaction.v1.SudoAddressChange` message.
#[derive(Clone, Debug, PartialEq)]
pub struct SudoAddressChange {
    pub new_address: Option<Address>,
}

/// The mathematical content of a [`SudoAddressChange`].
pub struct SudoAddressChangeV {
    pub new_address: Option<Seq<(Seq<char>, JsonV)>>,
}

impl View for SudoAddressChange {
    type V = SudoAddressChangeV;

    open spec fn view(&self) -> SudoAddressChangeV {
        SudoAddressChangeV {
            new_address: opt_embedded_view(self.new_address),
        }
    }
}

impl Default for SudoAddressChange {
    fn default() -> (r: Self)
        ensures r@ == SudoAddressChange::spec_default(),
    {
        let r = SudoAddressChange {
            new_address: None,
        };
        r
    }
}

impl SudoAddressChange {
    /// The fully qualified protobuf name of the message.
    pub fn full_name() -> (r: String)
        ensures r@ == "astria.protocol.transaction.v1.SudoAddressChange"@,
    {
        "astria.protocol.transaction.v1.SudoAddressChange".to_string()
    }

    /// Every field at its default: empty strings, bytes and lists, zero, `false`, unset.
    pub open spec fn spec_default() -> SudoAddressChangeV {
        SudoAddressChangeV {
            new_address: None,
        }
    }

    /// The view of an optional field of this message type.
    pub open spec fn view_opt(o: Option<Self>) -> Option<SudoAddressChangeV> {
        match o {
            Some(x) => Some(x@),
            None => None,
        }
    }

    /// The view of a repeated field of this message type.
    pub open spec fn view_list(v: Seq<Self>) -> Seq<SudoAddressChangeV> {
        v.map_values(|x: Self| x@)
    }

    /// The member that the field `new_address` writes: none where it holds its default.
    pub open spec fn spec_entry_new_address(m: SudoAddressChangeV) -> Seq<(Seq<char>, JsonV)> {
        entry_if(m.new_address is Some, "newAddress"@, JsonV::Object(m.new_address.unwrap()))
    }

    /// The members of the JSON object of the message: each field that does not hold
    /// its default, under its JSON name, in the order of the fields.
    pub open spec fn spec_entries(m: SudoAddressChangeV) -> Seq<(Seq<char>, JsonV)> {
        Self::spec_entry_new_address(m)
    }

    /// The JSON object that the protobuf JSON mapping writes for the message.
    pub open spec fn spec_to_json(m: SudoAddressChangeV) -> JsonV {
        JsonV::Object(Self::spec_entries(m))
    }

    /// [`Self::spec_to_json`] as a function value, for repeated fields.
    pub open spec fn writer() -> spec_fn(SudoAddressChangeV) -> JsonV {
        |m: SudoAddressChangeV| Self::spec_to_json(m)
    }

    fn write_new_address(&self, es: &mut Vec<(String, Json)>)
        ensures
            view_entries(final(es)@) == view_entries(old(es)@) + Self::spec_entry_new_address(self@),
    {
        match &self.new_address {
            Some(x) => push_entry(es, "newAddress", embedded_value(x)),
            None => {},
        }
        assert(view_entries(es@) =~= view_entries(old(es)@) + Self::spec_entry_new_address(self@));
    }

    /// Writes the message as a JSON object; reading it back gives the message.
    pub fn to_json(&self) -> (r: Json)
        ensures
            r@ == Self::spec_to_json(self@),
            Self::spec_from_json(r@) == Ok::<SudoAddressChangeV, JsonErrorV>(self@),
    {
        let mut es: Vec<(String, Json)> = Vec::new();
        let ghost mut acc: Seq<(Seq<char>, JsonV)> = Seq::empty();
        proof {
            assert(view_entries(es@) =~= acc);
        }
        self.write_new_address(&mut es);
        proof {
            acc = acc + Self::spec_entry_new_address(self@);
        }
        proof {
            assert(acc =~= Self::spec_entries(self@));
            Self::lemma_json_roundtrip(self@);
        }
        Json::Object(es)
    }

    /// Reads one member of the object into the message under construction; `seen`
    /// records which fields that have no unset state were already given.
    pub open spec fn spec_step(st: (SudoAddressChangeV, Seq<bool>), key: Seq<char>, v: JsonV) -> Result<(SudoAddressChangeV, Seq<bool>), JsonErrorV> {
        let m = st.0;
        let seen = st.1;
        if key == "newAddress"@ || key == "new_address"@ {
            if m.new_address is Some {
                Err(JsonErrorV::DuplicateField("newAddress"@))
            } else {
                match read_embedded(v) {
                    Ok(x) => Ok((SudoAddressChangeV { new_address: x }, seen)),
                    Err(e) => Err(e),
                }
            }
        } else {
            Err(JsonErrorV::UnknownField(key))
        }
    }

    /// [`Self::spec_step`] as a function value.
    pub open spec fn step_fn() -> spec_fn((SudoAddressChangeV, Seq<bool>), Seq<char>, JsonV) -> Result<(SudoAddressChangeV, Seq<bool>), JsonErrorV> {
        |st: (SudoAddressChangeV, Seq<bool>), key: Seq<char>, v: JsonV| Self::spec_step(st, key, v)
    }

    /// The state before the first member is read: the default message, no field seen.
    pub open spec fn spec_start() -> (SudoAddressChangeV, Seq<bool>) {
        (Self::spec_default(), Seq::<bool>::empty())
    }

    /// The message that a JSON value describes: an object whose keys each name a field
    /// (by its JSON name or its protobuf name), at most once each; fields that are not
    /// given keep their default. The first member that is refused gives the error.
    pub open spec fn spec_from_json(j: JsonV) -> Result<SudoAddressChangeV, JsonErrorV> {
        match j {
            JsonV::Object(es) => match fold_entries(Self::spec_start(), es, Self::step_fn()) {
                Ok(st) => Ok(st.0),
                Err(e) => Err(e),
            },
            _ => Err(JsonErrorV::ExpectedObject),
        }
    }

    /// [`Self::spec_from_json`] as a function value, for repeated fields.
    pub open spec fn reader() -> spec_fn(JsonV) -> Result<SudoAddressChangeV, JsonErrorV> {
        |v: JsonV| Self::spec_from_json(v)
    }

    /// An optional field of this message type: `null` leaves it unset.
    pub open spec fn spec_read_opt(v: JsonV) -> Result<Option<SudoAddressChangeV>, JsonErrorV> {
        match v {
            JsonV::Null => Ok(None),
            _ => match Self::spec_from_json(v) {
                Ok(x) => Ok(Some(x)),
                Err(e) => Err(e),
            },
        }
    }

    fn step(m: Self, seen: Vec<bool>, key: &String, v: &Json) -> (r: Result<(Self, Vec<bool>), JsonError>)
        requires seen@.len() == 0,
        ensures
            match r {
                Ok((m2, seen2)) => Self::spec_step((m@, seen@), key@, v@) == Ok::<(SudoAddressChangeV, Seq<bool>), JsonErrorV>((m2@, seen2@)) && seen2@.len() == 0,
                Err(e) => Self::spec_step((m@, seen@), key@, v@) == Err::<(SudoAddressChangeV, Seq<bool>), JsonErrorV>(e@),
            },
    {
        let mut m = m;
        let mut seen = seen;
        let k = key.as_str();
        if str_eq(k, "newAddress") || str_eq(k, "new_address") {
            if m.new_address.is_some() {
                return Err(JsonError::DuplicateField("newAddress".to_string()));
            }
            match embedded_field(v) {
                Ok(x) => m.new_address = x,
                Err(e) => return Err(e),
            }
        } else {
            return Err(JsonError::UnknownField(key.clone()));
        }
        Ok((m, seen))
    }

    /// Reads the message from a JSON value, as [`Self::spec_from_json`] describes.
    pub fn from_json(j: &Json) -> (r: Result<Self, JsonError>)
        ensures
            match r {
                Ok(m) => Self::spec_from_json(j@) == Ok::<SudoAddressChangeV, JsonErrorV>(m@),
                Err(e) => Self::spec_from_json(j@) == Err::<SudoAddressChangeV, JsonErrorV>(e@),
            },
    {
        let es = match j {
            Json::Object(es) => es,
            _ => return Err(JsonError::ExpectedObject),
        };
        let ghost ves = view_entries(es@);
        proof {
            lemma_view_entries_len(es@);
            assert(j@ == JsonV::Object(ves));
        }
        let mut m = Self::default();
        let mut seen: Vec<bool> = Vec::new();
        let mut i: usize = 0;
        proof {
            assert(seen@ =~= Self::spec_start().1);
            assert(ves.skip(0) == ves);
        }
        while i < es.len()
            invariant
                j@ == JsonV::Object(ves),
                ves == view_entries(es@),
                ves.len() == es@.len(),
                i <= es.len(),
                seen@.len() == 0,
                fold_entries(Self::spec_start(), ves, Self::step_fn())
                    == fold_entries((m@, seen@), ves.skip(i as int), Self::step_fn()),
            decreases es.len() - i,
        {
            proof {
                lemma_view_entries_index(es@, i as int);
                lemma_fold_entries_step((m@, seen@), ves, i as int, Self::step_fn());
            }
            match Self::step(m, seen, &es[i].0, &es[i].1) {
                Ok((m2, seen2)) => {
                    m = m2;
                    seen = seen2;
                },
                Err(e) => return Err(e),
            }
            i = i + 1;
        }
        proof {
            assert(ves.skip(ves.len() as int) == Seq::<(Seq<char>, JsonV)>::empty());
            assert(fold_entries((m@, seen@), ves.skip(ves.len() as int), Self::step_fn())
                == Ok::<(SudoAddressChangeV, Seq<bool>), JsonErrorV>((m@, seen@)));
        }
        Ok(m)
    }

    /// Reads an optional field of this message type.
    pub fn opt_from_json(v: &Json) -> (r: Result<Option<Self>, JsonError>)
        ensures
            match r {
                Ok(None) => Self::spec_read_opt(v@) == Ok::<Option<SudoAddressChangeV>, JsonErrorV>(None),
                Ok(Some(x)) => Self::spec_read_opt(v@) == Ok::<Option<SudoAddressChangeV>, JsonErrorV>(Some(x@)),
                Err(e) => Self::spec_read_opt(v@) == Err::<Option<SudoAddressChangeV>, JsonErrorV>(e@),
            },
    {
        match v {
            Json::Null => Ok(None),
            _ => match Self::from_json(v) {
                Ok(x) => Ok(Some(x)),
                Err(e) => Err(e),
            },
        }
    }

    /// Reading the member that the field `new_address` writes sets the field.
    pub proof fn lemma_entry_new_address(m: SudoAddressChangeV, st: (SudoAddressChangeV, Seq<bool>))
        requires
            st.1.len() == 0,
            st.0.new_address is None,
        ensures
            fold_entries(st, Self::spec_entry_new_address(m), Self::step_fn()) == Ok::<(SudoAddressChangeV, Seq<bool>), JsonErrorV>((SudoAddressChangeV { new_address: m.new_address }, st.1)),
    {
        reveal_strlit("newAddress");
        reveal_strlit("new_address");
        assert("newAddress"@.len() == 10);
        assert("new_address"@.len() == 11);
        lemma_fold_entry_if(st, m.new_address is Some, "newAddress"@, JsonV::Object(m.new_address.unwrap()), Self::step_fn());
    }

    /// The JSON spelling of a key: the protobuf name of a field becomes its JSON name;
    /// a JSON name, and any key that names no field, is left as it is.
    pub open spec fn spec_json_key(key: Seq<char>) -> Seq<char> {
        if key == "newAddress"@ || key == "new_address"@ {
            "newAddress"@
        } else {
            key
        }
    }

    /// [`Self::spec_json_key`] as a function value.
    pub open spec fn json_key_fn() -> spec_fn(Seq<char>) -> Seq<char> {
        |key: Seq<char>| Self::spec_json_key(key)
    }

    /// One member is read alike whichever spelling its key has.
    pub proof fn lemma_step_json_key(st: (SudoAddressChangeV, Seq<bool>), key: Seq<char>, v: JsonV)
        ensures Self::spec_step(st, key, v) == Self::spec_step(st, Self::spec_json_key(key), v),
    {
        reveal_strlit("newAddress");
        reveal_strlit("new_address");
        assert("newAddress"@.len() == 10);
        assert("new_address"@.len() == 11);
        if key == "new_address"@ {
            assert(Self::spec_json_key(key) == "newAddress"@);
        }
    }

    /// Reading an object gives the same result whichever spelling each of its keys has:
    /// two objects whose members hold the same values, in the same order, under keys of
    /// the same JSON spelling describe the same message, or are refused with the same error.
    pub proof fn lemma_key_spelling(es1: Seq<(Seq<char>, JsonV)>, es2: Seq<(Seq<char>, JsonV)>)
        requires
            es1.len() == es2.len(),
            forall|i: int| #![trigger es1[i], es2[i]] 0 <= i < es1.len() ==> es1[i].1 == es2[i].1 && Self::spec_json_key(es1[i].0) == Self::spec_json_key(es2[i].0),
        ensures Self::spec_from_json(JsonV::Object(es1)) == Self::spec_from_json(JsonV::Object(es2)),
    {
        assert forall|s: (SudoAddressChangeV, Seq<bool>), k: Seq<char>, v: JsonV|
            #![trigger Self::step_fn()(s, k, v), Self::json_key_fn()(k)]
            Self::step_fn()(s, k, v) == Self::step_fn()(s, Self::json_key_fn()(k), v) by {
            Self::lemma_step_json_key(s, k, v);
        }
        lemma_fold_same_keys(Self::spec_start(), es1, es2, Self::step_fn(), Self::json_key_fn());
    }

    /// The keys of the object that the message writes: the JSON names of the fields that
    /// do not hold their default (for a oneof, the JSON name of the member set), in the
    /// order of the fields.
    pub open spec fn spec_written_keys(m: SudoAddressChangeV) -> Seq<Seq<char>> {
        key_if(m.new_address is Some, "newAddress"@)
    }

    /// The object that the message writes has exactly the keys of
    /// [`Self::spec_written_keys`], in that order.
    pub proof fn lemma_written_keys(m: SudoAddressChangeV)
        ensures
            Self::spec_to_json(m) == JsonV::Object(Self::spec_entries(m)),
            entry_keys(Self::spec_entries(m)) == Self::spec_written_keys(m),
    {
        lemma_entry_keys_if(m.new_address is Some, "newAddress"@, JsonV::Object(m.new_address.unwrap()));
    }

    /// Whether the field whose JSON name is `name` holds its default in `m`; for a member
    /// of a oneof, whether the oneof is set to another member or unset. `true` for a name
    /// that names no field.
    pub open spec fn spec_holds_default(m: SudoAddressChangeV, name: Seq<char>) -> bool {
        if name == "newAddress"@ {
            m.new_address is None
        } else {
            true
        }
    }

    /// Whether reading `v` for the field whose JSON name is `name` leaves the field at
    /// its default: `null`, for a field that takes it (a message field, a member of a
    /// oneof); nothing, for any other field. `true` for a name that names no field.
    pub open spec fn spec_leaves_default(name: Seq<char>, v: JsonV) -> bool {
        if name == "newAddress"@ {
            v is Null
        } else {
            true
        }
    }

    /// Reading one member keeps a field at its default unless the key names the field
    /// and the value does not leave it there.
    pub proof fn lemma_step_keeps_default(st: (SudoAddressChangeV, Seq<bool>), key: Seq<char>, v: JsonV, name: Seq<char>)
        requires
            Self::spec_holds_default(st.0, name),
            Self::spec_json_key(key) == name ==> Self::spec_leaves_default(name, v),
        ensures
            Self::spec_step(st, key, v) is Ok ==> Self::spec_holds_default(Self::spec_step(st, key, v)->Ok_0.0, name),
    {
        reveal_strlit("newAddress");
        reveal_strlit("new_address");
        assert("newAddress"@.len() == 10);
        assert("new_address"@.len() == 11);
        Self::lemma_step_json_key(st, key, v);
    }

    /// A field whose key appears in no member of an object, or only with values that
    /// leave it at its default (`null`, for a field that takes it), holds its default in
    /// the message that the object describes.
    pub proof fn lemma_absent_default(es: Seq<(Seq<char>, JsonV)>, name: Seq<char>)
        requires
            forall|i: int| 0 <= i < es.len() ==> (Self::spec_json_key((#[trigger] es[i]).0) == name
                ==> Self::spec_leaves_default(name, es[i].1)),
        ensures
            Self::spec_from_json(JsonV::Object(es)) is Ok
                ==> Self::spec_holds_default(Self::spec_from_json(JsonV::Object(es))->Ok_0, name),
    {
        let inv = |s: (SudoAddressChangeV, Seq<bool>)| Self::spec_holds_default(s.0, name);
        let allowed = |k: Seq<char>, v: JsonV| Self::spec_json_key(k) == name ==> Self::spec_leaves_default(name, v);
        assert forall|s: (SudoAddressChangeV, Seq<bool>), k: Seq<char>, v: JsonV| #![trigger Self::step_fn()(s, k, v)]
            inv(s) && allowed(k, v) && Self::step_fn()(s, k, v) is Ok implies inv(Self::step_fn()(s, k, v)->Ok_0) by {
            Self::lemma_step_keeps_default(s, k, v, name);
        }
        assert(inv(Self::spec_start()));
        lemma_fold_keeps(Self::spec_start(), es, Self::step_fn(), inv, allowed);
    }

    /// The field `new_address` alone: an object with one member under its JSON or protobuf
    /// name reads as the message with that field set and every other field at its
    /// default, and the message with only that field off its default writes that
    /// one member under the JSON name.
    pub proof fn lemma_field_new_address(es: Seq<(Seq<char>, JsonV)>)
        ensures
            Self::spec_from_json(JsonV::Object(seq![("newAddress"@, JsonV::Object(es))])) == Ok::<SudoAddressChangeV, JsonErrorV>(SudoAddressChangeV { new_address: Some(es) }),
            Self::spec_from_json(JsonV::Object(seq![("newAddress"@, JsonV::Null)])) == Ok::<SudoAddressChangeV, JsonErrorV>(Self::spec_default()),
            Self::spec_from_json(JsonV::Object(seq![("new_address"@, JsonV::Object(es))])) == Ok::<SudoAddressChangeV, JsonErrorV>(SudoAddressChangeV { new_address: Some(es) }),
            Self::spec_from_json(JsonV::Object(seq![("new_address"@, JsonV::Null)])) == Ok::<SudoAddressChangeV, JsonErrorV>(Self::spec_default()),
            Self::spec_to_json(SudoAddressChangeV { new_address: Some(es) }) == JsonV::Object(seq![("newAddress"@, JsonV::Object(es))]),
    {
        reveal_strlit("newAddress");
        reveal_strlit("new_address");
        assert("newAddress"@.len() == 10);
        assert("new_address"@.len() == 11);
        lemma_fold_entry_if(Self::spec_start(), true, "newAddress"@, JsonV::Object(es), Self::step_fn());
        lemma_fold_entry_if(Self::spec_start(), true, "newAddress"@, JsonV::Null, Self::step_fn());
        lemma_fold_entry_if(Self::spec_start(), true, "new_address"@, JsonV::Object(es), Self::step_fn());
        lemma_fold_entry_if(Self::spec_start(), true, "new_address"@, JsonV::Null, Self::step_fn());
    }

    /// Reading back the JSON object of a message gives the message.
    pub proof fn lemma_json_roundtrip(m: SudoAddressChangeV)
        ensures Self::spec_from_json(Self::spec_to_json(m)) == Ok::<SudoAddressChangeV, JsonErrorV>(m),
    {
        let step = Self::step_fn();
        let s0 = Self::spec_start();
        let s1 = (SudoAddressChangeV { new_address: m.new_address }, s0.1);
        Self::lemma_entry_new_address(m, s0);
        let p1 = Self::spec_entry_new_address(m);
        assert(s1.0 == m);
    }
}

/// The `astria.protocol.transaction.v1.Transaction` message.
#[derive(Clone, Debug, PartialEq)]
pub struct Transaction {
    pub signature: Vec<u8>,
    pub public_key: Vec<u8>,
    pub body: Option<Any>,
}

/// The mathematical content of a [`Transaction`].
pub struct TransactionV {
    pub signature: Seq<u8>,
    pub public_key: Seq<u8>,
    pub body: Option<AnyV>,
}

impl View for Transaction {
    type V = TransactionV;

    open spec fn view(&self) -> TransactionV {
        TransactionV {
            signature: self.signature@,
            public_key: self.public_key@,
            body: Any::view_opt(self.body),
        }
    }
}

impl Default for Transaction {
    fn default() -> (r: Self)
        ensures r@ == Transaction::spec_default(),
    {
        let r = Transaction {
            signature: Vec::new(),
            public_key: Vec::new(),
            body: None,
        };
        r
    }
}

impl Transaction {
    /// The fully qualified protobuf name of the message.
    pub fn full_name() -> (r: String)
        ensures r@ == "astria.protocol.transaction.v1.Transaction"@,
    {
        "astria.protocol.transaction.v1.Transaction".to_string()
    }

    /// Every field at its default: empty strings, bytes and lists, zero, `false`, unset.
    pub open spec fn spec_default() -> TransactionV {
        TransactionV {
            signature: Seq::<u8>::empty(),
            public_key: Seq::<u8>::empty(),
            body: None,
        }
    }

    /// The view of an optional field of this message type.
    pub open spec fn view_opt(o: Option<Self>) -> Option<TransactionV> {
        match o {
            Some(x) => Some(x@),
            None => None,
        }
    }

    /// The view of a repeated field of this message type.
    pub open spec fn view_list(v: Seq<Self>) -> Seq<TransactionV> {
        v.map_values(|x: Self| x@)
    }

    /// The member that the field `signature` writes: none where it holds its default.
    pub open spec fn spec_entry_signature(m: TransactionV) -> Seq<(Seq<char>, JsonV)> {
        entry_if(m.signature.len() != 0, "signature"@, JsonV::Str(base64_encoded(m.signature)))
    }

    /// The member that the field `public_key` writes: none where it holds its default.
    pub open spec fn spec_entry_public_key(m: TransactionV) -> Seq<(Seq<char>, JsonV)> {
        entry_if(m.public_key.len() != 0, "publicKey"@, JsonV::Str(base64_encoded(m.public_key)))
    }

    /// The member that the field `body` writes: none where it holds its default.
    pub open spec fn spec_entry_body(m: TransactionV) -> Seq<(Seq<char>, JsonV)> {
        entry_if(m.body is Some, "body"@, Any::spec_to_json(m.body.unwrap()))
    }

    /// The members of the JSON object of the message: each field that does not hold
    /// its default, under its JSON name, in the order of the fields.
    pub open spec fn spec_entries(m: TransactionV) -> Seq<(Seq<char>, JsonV)> {
        Self::spec_entry_signature(m) + Self::spec_entry_public_key(m) + Self::spec_entry_body(m)
    }

    /// The JSON object that the protobuf JSON mapping writes for the message.
    pub open spec fn spec_to_json(m: TransactionV) -> JsonV {
        JsonV::Object(Self::spec_entries(m))
    }

    /// [`Self::spec_to_json`] as a function value, for repeated fields.
    pub open spec fn writer() -> spec_fn(TransactionV) -> JsonV {
        |m: TransactionV| Self::spec_to_json(m)
    }

    pub open spec fn spec_readable_signature(m: TransactionV) -> bool {
        (m.signature.len() == 0 || base64_decoded(base64_encoded(m.signature)) == Some(m.signature))
    }

    pub open spec fn spec_readable_public_key(m: TransactionV) -> bool {
        (m.public_key.len() == 0 || base64_decoded(base64_encoded(m.public_key)) == Some(m.public_key))
    }

    pub open spec fn spec_readable_body(m: TransactionV) -> bool {
        (m.body matches Some(x) ==> Any::spec_bytes_readable(x))
    }

    /// The bytes that the message holds, written in base64, read back as themselves.
    pub open spec fn spec_bytes_readable(m: TransactionV) -> bool {
        &&& Self::spec_readable_signature(m)
        &&& Self::spec_readable_public_key(m)
        &&& Self::spec_readable_body(m)
    }

    fn write_signature(&self, es: &mut Vec<(String, Json)>)
        ensures
            view_entries(final(es)@) == view_entries(old(es)@) + Self::spec_entry_signature(self@),
            Self::spec_readable_signature(self@),
    {
        if self.signature.len() != 0 {
            push_entry(es, "signature", bytes_value(&self.signature));
        }
        assert(view_entries(es@) =~= view_entries(old(es)@) + Self::spec_entry_signature(self@));
    }

    fn write_public_key(&self, es: &mut Vec<(String, Json)>)
        ensures
            view_entries(final(es)@) == view_entries(old(es)@) + Self::spec_entry_public_key(self@),
            Self::spec_readable_public_key(self@),
    {
        if self.public_key.len() != 0 {
            push_entry(es, "publicKey", bytes_value(&self.public_key));
        }
        assert(view_entries(es@) =~= view_entries(old(es)@) + Self::spec_entry_public_key(self@));
    }

    fn write_body(&self, es: &mut Vec<(String, Json)>)
        ensures
            view_entries(final(es)@) == view_entries(old(es)@) + Self::spec_entry_body(self@),
            Self::spec_readable_body(self@),
    {
        match &self.body {
            Some(x) => push_entry(es, "body", x.to_json()),
            None => {},
        }
        assert(view_entries(es@) =~= view_entries(old(es)@) + Self::spec_entry_body(self@));
    }

    /// Writes the message as a JSON object; reading it back gives the message.
    pub fn to_json(&self) -> (r: Json)
        ensures
            r@ == Self::spec_to_json(self@),
            Self::spec_bytes_readable(self@),
            Self::spec_from_json(r@) == Ok::<TransactionV, JsonErrorV>(self@),
    {
        let mut es: Vec<(String, Json)> = Vec::new();
        let ghost mut acc: Seq<(Seq<char>, JsonV)> = Seq::empty();
        proof {
            assert(view_entries(es@) =~= acc);
        }
        self.write_signature(&mut es);
        proof {
            acc = acc + Self::spec_entry_signature(self@);
        }
        self.write_public_key(&mut es);
        proof {
            acc = acc + Self::spec_entry_public_key(self@);
        }
        self.write_body(&mut es);
        proof {
            acc = acc + Self::spec_entry_body(self@);
        }
        proof {
            assert(acc =~= Self::spec_entries(self@));
            Self::lemma_json_roundtrip(self@);
        }
        Json::Object(es)
    }

    /// Reads one member of the object into the message under construction; `seen`
    /// records which fields that have no unset state were already given.
    pub open spec fn spec_step(st: (TransactionV, Seq<bool>), key: Seq<char>, v: JsonV) -> Result<(TransactionV, Seq<bool>), JsonErrorV> {
        let m = st.0;
        let seen = st.1;
        if key == "signature"@ {
            if seen[0] {
                Err(JsonErrorV::DuplicateField("signature"@))
            } else {
                match read_bytes(v) {
                    Ok(x) => Ok((TransactionV { signature: x, ..m }, seen.update(0, true))),
                    Err(e) => Err(e),
                }
            }
        } else if key == "publicKey"@ || key == "public_key"@ {
            if seen[1] {
                Err(JsonErrorV::DuplicateField("publicKey"@))
            } else {
                match read_bytes(v) {
                    Ok(x) => Ok((TransactionV { public_key: x, ..m }, seen.update(1, true))),
                    Err(e) => Err(e),
                }
            }
        } else if key == "body"@ {
            if m.body is Some {
                Err(JsonErrorV::DuplicateField("body"@))
            } else {
                match Any::spec_read_opt(v) {
                    Ok(x) => Ok((TransactionV { body: x, ..m }, seen)),
                    Err(e) => Err(e),
                }
            }
        } else {
            Err(JsonErrorV::UnknownField(key))
        }
    }

    /// [`Self::spec_step`] as a function value.
    pub open spec fn step_fn() -> spec_fn((TransactionV, Seq<bool>), Seq<char>, JsonV) -> Result<(TransactionV, Seq<bool>), JsonErrorV> {
        |st: (TransactionV, Seq<bool>), key: Seq<char>, v: JsonV| Self::spec_step(st, key, v)
    }

    /// The state before the first member is read: the default message, no field seen.
    pub open spec fn spec_start() -> (TransactionV, Seq<bool>) {
        (Self::spec_default(), seq![false, false])
    }

    /// The message that a JSON value describes: an object whose keys each name a field
    /// (by its JSON name or its protobuf name), at most once each; fields that are not
    /// given keep their default. The first member that is refused gives the error.
    pub open spec fn spec_from_json(j: JsonV) -> Result<TransactionV, JsonErrorV> {
        match j {
            JsonV::Object(es) => match fold_entries(Self::spec_start(), es, Self::step_fn()) {
                Ok(st) => Ok(st.0),
                Err(e) => Err(e),
            },
            _ => Err(JsonErrorV::ExpectedObject),
        }
    }

    /// [`Self::spec_from_json`] as a function value, for repeated fields.
    pub open spec fn reader() -> spec_fn(JsonV) -> Result<TransactionV, JsonErrorV> {
        |v: JsonV| Self::spec_from_json(v)
    }

    /// An optional field of this message type: `null` leaves it unset.
    pub open spec fn spec_read_opt(v: JsonV) -> Result<Option<TransactionV>, JsonErrorV> {
        match v {
            JsonV::Null => Ok(None),
            _ => match Self::spec_from_json(v) {
                Ok(x) => Ok(Some(x)),
                Err(e) => Err(e),
            },
        }
    }

    fn step(m: Self, seen: Vec<bool>, key: &String, v: &Json) -> (r: Result<(Self, Vec<bool>), JsonError>)
        requires seen@.len() == 2,
        ensures
            match r {
                Ok((m2, seen2)) => Self::spec_step((m@, seen@), key@, v@) == Ok::<(TransactionV, Seq<bool>), JsonErrorV>((m2@, seen2@)) && seen2@.len() == 2,
                Err(e) => Self::spec_step((m@, seen@), key@, v@) == Err::<(TransactionV, Seq<bool>), JsonErrorV>(e@),
            },
    {
        let mut m = m;
        let mut seen = seen;
        let k = key.as_str();
        if str_eq(k, "signature") {
            if seen[0] {
                return Err(JsonError::DuplicateField("signature".to_string()));
            }
            match bytes_field(v) {
                Ok(x) => m.signature = x,
                Err(e) => return Err(e),
            }
            seen.set(0, true);
        } else if str_eq(k, "publicKey") || str_eq(k, "public_key") {
            if seen[1] {
                return Err(JsonError::DuplicateField("publicKey".to_string()));
            }
            match bytes_field(v) {
                Ok(x) => m.public_key = x,
                Err(e) => return Err(e),
            }
            seen.set(1, true);
        } else if str_eq(k, "body") {
            if m.body.is_some() {
                return Err(JsonError::DuplicateField("body".to_string()));
            }
            match Any::opt_from_json(v) {
                Ok(x) => m.body = x,
                Err(e) => return Err(e),
            }
        } else {
            return Err(JsonError::UnknownField(key.clone()));
        }
        Ok((m, seen))
    }

    /// Reads the message from a JSON value, as [`Self::spec_from_json`] describes.
    pub fn from_json(j: &Json) -> (r: Result<Self, JsonError>)
        ensures
            match r {
                Ok(m) => Self::spec_from_json(j@) == Ok::<TransactionV, JsonErrorV>(m@),
                Err(e) => Self::spec_from_json(j@) == Err::<TransactionV, JsonErrorV>(e@),
            },
    {
        let es = match j {
            Json::Object(es) => es,
            _ => return Err(JsonError::ExpectedObject),
        };
        let ghost ves = view_entries(es@);
        proof {
            lemma_view_entries_len(es@);
            assert(j@ == JsonV::Object(ves));
        }
        let mut m = Self::default();
        let mut seen: Vec<bool> = vec![false, false];
        let mut i: usize = 0;
        proof {
            assert(seen@ =~= Self::spec_start().1);
            assert(ves.skip(0) == ves);
        }
        while i < es.len()
            invariant
                j@ == JsonV::Object(ves),
                ves == view_entries(es@),
                ves.len() == es@.len(),
                i <= es.len(),
                seen@.len() == 2,
                fold_entries(Self::spec_start(), ves, Self::step_fn())
                    == fold_entries((m@, seen@), ves.skip(i as int), Self::step_fn()),
            decreases es.len() - i,
        {
            proof {
                lemma_view_entries_index(es@, i as int);
                lemma_fold_entries_step((m@, seen@), ves, i as int, Self::step_fn());
            }
            match Self::step(m, seen, &es[i].0, &es[i].1) {
                Ok((m2, seen2)) => {
                    m = m2;
                    seen = seen2;
                },
                Err(e) => return Err(e),
            }
            i = i + 1;
        }
        proof {
            assert(ves.skip(ves.len() as int) == Seq::<(Seq<char>, JsonV)>::empty());
            assert(fold_entries((m@, seen@), ves.skip(ves.len() as int), Self::step_fn())
                == Ok::<(TransactionV, Seq<bool>), JsonErrorV>((m@, seen@)));
        }
        Ok(m)
    }

    /// Reads an optional field of this message type.
    pub fn opt_from_json(v: &Json) -> (r: Result<Option<Self>, JsonError>)
        ensures
            match r {
                Ok(None) => Self::spec_read_opt(v@) == Ok::<Option<TransactionV>, JsonErrorV>(None),
                Ok(Some(x)) => Self::spec_read_opt(v@) == Ok::<Option<TransactionV>, JsonErrorV>(Some(x@)),
                Err(e) => Self::spec_read_opt(v@) == Err::<Option<TransactionV>, JsonErrorV>(e@),
            },
    {
        match v {
            Json::Null => Ok(None),
            _ => match Self::from_json(v) {
                Ok(x) => Ok(Some(x)),
                Err(e) => Err(e),
            },
        }
    }

    /// Reading the member that the field `signature` writes sets the field.
    pub proof fn lemma_entry_signature(m: TransactionV, st: (TransactionV, Seq<bool>))
        requires
            st.1.len() == 2,
            !st.1[0],
            st.0.signature == Seq::<u8>::empty(),
            Self::spec_readable_signature(m),
        ensures
            fold_entries(st, Self::spec_entry_signature(m), Self::step_fn()) == Ok::<(TransactionV, Seq<bool>), JsonErrorV>((TransactionV { signature: m.signature, ..st.0 }, if m.signature.len() != 0 { st.1.update(0, true) } else { st.1 })),
    {
        reveal_strlit("signature");
        reveal_strlit("publicKey");
        reveal_strlit("public_key");
        reveal_strlit("body");
        assert("signature"@.len() == 9);
        assert("publicKey"@.len() == 9);
        assert("public_key"@.len() == 10);
        assert("body"@.len() == 4);
        assert("signature"@[0] != "publicKey"@[0]);
        if m.signature.len() == 0 {
            assert(m.signature =~= Seq::<u8>::empty());
        }
        lemma_fold_entry_if(st, m.signature.len() != 0, "signature"@, JsonV::Str(base64_encoded(m.signature)), Self::step_fn());
    }

    /// Reading the member that the field `public_key` writes sets the field.
    pub proof fn lemma_entry_public_key(m: TransactionV, st: (TransactionV, Seq<bool>))
        requires
            st.1.len() == 2,
            !st.1[1],
            st.0.public_key == Seq::<u8>::empty(),
            Self::spec_readable_public_key(m),
        ensures
            fold_entries(st, Self::spec_entry_public_key(m), Self::step_fn()) == Ok::<(TransactionV, Seq<bool>), JsonErrorV>((TransactionV { public_key: m.public_key, ..st.0 }, if m.public_key.len() != 0 { st.1.update(1, true) } else { st.1 })),
    {
        reveal_strlit("signature");
        reveal_strlit("publicKey");
        reveal_strlit("public_key");
        reveal_strlit("body");
        assert("signature"@.len() == 9);
        assert("publicKey"@.len() == 9);
        assert("public_key"@.len() == 10);
        assert("body"@.len() == 4);
        assert("signature"@[0] != "publicKey"@[0]);
        if m.public_key.len() == 0 {
            assert(m.public_key =~= Seq::<u8>::empty());
        }
        lemma_fold_entry_if(st, m.public_key.len() != 0, "publicKey"@, JsonV::Str(base64_encoded(m.public_key)), Self::step_fn());
    }

    /// Reading the member that the field `body` writes sets the field.
    pub proof fn lemma_entry_body(m: TransactionV, st: (TransactionV, Seq<bool>))
        requires
            st.1.len() == 2,
            st.0.body is None,
            Self::spec_readable_body(m),
        ensures
            fold_entries(st, Self::spec_entry_body(m), Self::step_fn()) == Ok::<(TransactionV, Seq<bool>), JsonErrorV>((TransactionV { body: m.body, ..st.0 }, st.1)),
    {
        reveal_strlit("signature");
        reveal_strlit("publicKey");
        reveal_strlit("public_key");
        reveal_strlit("body");
        assert("signature"@.len() == 9);
        assert("publicKey"@.len() == 9);
        assert("public_key"@.len() == 10);
        assert("body"@.len() == 4);
        assert("signature"@[0] != "publicKey"@[0]);
        if m.body is Some {
            Any::lemma_json_roundtrip(m.body.unwrap());
        }
        lemma_fold_entry_if(st, m.body is Some, "body"@, Any::spec_to_json(m.body.unwrap()), Self::step_fn());
    }

    /// The JSON spelling of a key: the protobuf name of a field becomes its JSON name;
    /// a JSON name, and any key that names no field, is left as it is.
    pub open spec fn spec_json_key(key: Seq<char>) -> Seq<char> {
        if key == "signature"@ {
            "signature"@
        } else if key == "publicKey"@ || key == "public_key"@ {
            "publicKey"@
        } else if key == "body"@ {
            "body"@
        } else {
            key
        }
    }

    /// [`Self::spec_json_key`] as a function value.
    pub open spec fn json_key_fn() -> spec_fn(Seq<char>) -> Seq<char> {
        |key: Seq<char>| Self::spec_json_key(key)
    }

    /// One member is read alike whichever spelling its key has.
    pub proof fn lemma_step_json_key(st: (TransactionV, Seq<bool>), key: Seq<char>, v: JsonV)
        ensures Self::spec_step(st, key, v) == Self::spec_step(st, Self::spec_json_key(key), v),
    {
        reveal_strlit("signature");
        reveal_strlit("publicKey");
        reveal_strlit("public_key");
        reveal_strlit("body");
        assert("signature"@.len() == 9);
        assert("publicKey"@.len() == 9);
        assert("public_key"@.len() == 10);
        assert("body"@.len() == 4);
        assert("signature"@[0] != "publicKey"@[0]);
        if key == "public_key"@ {
            assert(Self::spec_json_key(key) == "publicKey"@);
        }
    }

    /// Reading an object gives the same result whichever spelling each of its keys has:
    /// two objects whose members hold the same values, in the same order, under keys of
    /// the same JSON spelling describe the same message, or are refused with the same error.
    pub proof fn lemma_key_spelling(es1: Seq<(Seq<char>, JsonV)>, es2: Seq<(Seq<char>, JsonV)>)
        requires
            es1.len() == es2.len(),
            forall|i: int| #![trigger es1[i], es2[i]] 0 <= i < es1.len() ==> es1[i].1 == es2[i].1 && Self::spec_json_key(es1[i].0) == Self::spec_json_key(es2[i].0),
        ensures Self::spec_from_json(JsonV::Object(es1)) == Self::spec_from_json(JsonV::Object(es2)),
    {
        assert forall|s: (TransactionV, Seq<bool>), k: Seq<char>, v: JsonV|
            #![trigger Self::step_fn()(s, k, v), Self::json_key_fn()(k)]
            Self::step_fn()(s, k, v) == Self::step_fn()(s, Self::json_key_fn()(k), v) by {
            Self::lemma_step_json_key(s, k, v);
        }
        lemma_fold_same_keys(Self::spec_start(), es1, es2, Self::step_fn(), Self::json_key_fn());
    }

    /// The keys of the object that the message writes: the JSON names of the fields that
    /// do not hold their default (for a oneof, the JSON name of the member set), in the
    /// order of the fields.
    pub open spec fn spec_written_keys(m: TransactionV) -> Seq<Seq<char>> {
        key_if(m.signature.len() != 0, "signature"@)
            + key_if(m.public_key.len() != 0, "publicKey"@)
            + key_if(m.body is Some, "body"@)
    }

    /// The object that the message writes has exactly the keys of
    /// [`Self::spec_written_keys`], in that order.
    pub proof fn lemma_written_keys(m: TransactionV)
        ensures
            Self::spec_to_json(m) == JsonV::Object(Self::spec_entries(m)),
            entry_keys(Self::spec_entries(m)) == Self::spec_written_keys(m),
    {
        lemma_entry_keys_if(m.signature.len() != 0, "signature"@, JsonV::Str(base64_encoded(m.signature)));
        lemma_entry_keys_append(Self::spec_entry_signature(m), m.public_key.len() != 0, "publicKey"@, JsonV::Str(base64_encoded(m.public_key)));
        lemma_entry_keys_append(Self::spec_entry_signature(m) + Self::spec_entry_public_key(m), m.body is Some, "body"@, Any::spec_to_json(m.body.unwrap()));
    }

    /// Whether the field whose JSON name is `name` holds its default in `m`; for a member
    /// of a oneof, whether the oneof is set to another member or unset. `true` for a name
    /// that names no field.
    pub open spec fn spec_holds_default(m: TransactionV, name: Seq<char>) -> bool {
        if name == "signature"@ {
            m.signature == Seq::<u8>::empty()
        } else if name == "publicKey"@ {
            m.public_key == Seq::<u8>::empty()
        } else if name == "body"@ {
            m.body is None
        } else {
            true
        }
    }

    /// Whether reading `v` for the field whose JSON name is `name` leaves the field at
    /// its default: `null`, for a field that takes it (a message field, a member of a
    /// oneof); nothing, for any other field. `true` for a name that names no field.
    pub open spec fn spec_leaves_default(name: Seq<char>, v: JsonV) -> bool {
        if name == "signature"@ {
            false
        } else if name == "publicKey"@ {
            false
        } else if name == "body"@ {
            v is Null
        } else {
            true
        }
    }

    /// Reading one member keeps a field at its default unless the key names the field
    /// and the value does not leave it there.
    pub proof fn lemma_step_keeps_default(st: (TransactionV, Seq<bool>), key: Seq<char>, v: JsonV, name: Seq<char>)
        requires
            Self::spec_holds_default(st.0, name),
            Self::spec_json_key(key) == name ==> Self::spec_leaves_default(name, v),
        ensures
            Self::spec_step(st, key, v) is Ok ==> Self::spec_holds_default(Self::spec_step(st, key, v)->Ok_0.0, name),
    {
        reveal_strlit("signature");
        reveal_strlit("publicKey");
        reveal_strlit("public_key");
        reveal_strlit("body");
        assert("signature"@.len() == 9);
        assert("publicKey"@.len() == 9);
        assert("public_key"@.len() == 10);
        assert("body"@.len() == 4);
        assert("signature"@[0] != "publicKey"@[0]);
        Self::lemma_step_json_key(st, key, v);
    }

    /// A field whose key appears in no member of an object, or only with values that
    /// leave it at its default (`null`, for a field that takes it), holds its default in
    /// the message that the object describes.
    pub proof fn lemma_absent_default(es: Seq<(Seq<char>, JsonV)>, name: Seq<char>)
        requires
            forall|i: int| 0 <= i < es.len() ==> (Self::spec_json_key((#[trigger] es[i]).0) == name
                ==> Self::spec_leaves_default(name, es[i].1)),
        ensures
            Self::spec_from_json(JsonV::Object(es)) is Ok
                ==> Self::spec_holds_default(Self::spec_from_json(JsonV::Object(es))->Ok_0, name),
    {
        let inv = |s: (TransactionV, Seq<bool>)| Self::spec_holds_default(s.0, name);
        let allowed = |k: Seq<char>, v: JsonV| Self::spec_json_key(k) == name ==> Self::spec_leaves_default(name, v);
        assert forall|s: (TransactionV, Seq<bool>), k: Seq<char>, v: JsonV| #![trigger Self::step_fn()(s, k, v)]
            inv(s) && allowed(k, v) && Self::step_fn()(s, k, v) is Ok implies inv(Self::step_fn()(s, k, v)->Ok_0) by {
            Self::lemma_step_keeps_default(s, k, v, name);
        }
        assert(inv(Self::spec_start()));
        lemma_fold_keeps(Self::spec_start(), es, Self::step_fn(), inv, allowed);
    }

    /// The field `signature` alone: an object with one member under its JSON or protobuf
    /// name reads as the message with that field set and every other field at its
    /// default, and the message with only that field off its default writes that
    /// one member under the JSON name.
    pub proof fn lemma_field_signature(t: Seq<char>, b: Seq<u8>)
        ensures
            Self::spec_from_json(JsonV::Object(seq![("signature"@, JsonV::Str(t))])) == (match base64_decoded(t) { Some(d) => Ok::<TransactionV, JsonErrorV>(TransactionV { signature: d, ..Self::spec_default() }), None => Err(JsonErrorV::InvalidBase64) }),
            b.len() > 0 ==> Self::spec_to_json(TransactionV { signature: b, ..Self::spec_default() }) == JsonV::Object(seq![("signature"@, JsonV::Str(base64_encoded(b)))]),
    {
        reveal_strlit("signature");
        reveal_strlit("publicKey");
        reveal_strlit("public_key");
        reveal_strlit("body");
        assert("signature"@.len() == 9);
        assert("publicKey"@.len() == 9);
        assert("public_key"@.len() == 10);
        assert("body"@.len() == 4);
        assert("signature"@[0] != "publicKey"@[0]);
        lemma_fold_entry_if(Self::spec_start(), true, "signature"@, JsonV::Str(t), Self::step_fn());
    }

    /// The field `public_key` alone: an object with one member under its JSON or protobuf
    /// name reads as the message with that field set and every other field at its
    /// default, and the message with only that field off its default writes that
    /// one member under the JSON name.
    pub proof fn lemma_field_public_key(t: Seq<char>, b: Seq<u8>)
        ensures
            Self::spec_from_json(JsonV::Object(seq![("publicKey"@, JsonV::Str(t))])) == (match base64_decoded(t) { Some(d) => Ok::<TransactionV, JsonErrorV>(TransactionV { public_key: d, ..Self::spec_default() }), None => Err(JsonErrorV::InvalidBase64) }),
            Self::spec_from_json(JsonV::Object(seq![("public_key"@, JsonV::Str(t))])) == (match base64_decoded(t) { Some(d) => Ok::<TransactionV, JsonErrorV>(TransactionV { public_key: d, ..Self::spec_default() }), None => Err(JsonErrorV::InvalidBase64) }),
            b.len() > 0 ==> Self::spec_to_json(TransactionV { public_key: b, ..Self::spec_default() }) == JsonV::Object(seq![("publicKey"@, JsonV::Str(base64_encoded(b)))]),
    {
        reveal_strlit("signature");
        reveal_strlit("publicKey");
        reveal_strlit("public_key");
        reveal_strlit("body");
        assert("signature"@.len() == 9);
        assert("publicKey"@.len() == 9);
        assert("public_key"@.len() == 10);
        assert("body"@.len() == 4);
        assert("signature"@[0] != "publicKey"@[0]);
        lemma_fold_entry_if(Self::spec_start(), true, "publicKey"@, JsonV::Str(t), Self::step_fn());
        lemma_fold_entry_if(Self::spec_start(), true, "public_key"@, JsonV::Str(t), Self::step_fn());
    }

    /// The field `body` alone: an object with one member under its JSON or protobuf
    /// name reads as the message with that field set and every other field at its
    /// default, and the message with only that field off its default writes that
    /// one member under the JSON name.
    pub proof fn lemma_field_body(x: AnyV, es: Seq<(Seq<char>, JsonV)>)
        ensures
            Self::spec_from_json(JsonV::Object(seq![("body"@, JsonV::Object(es))])) == (match Any::spec_from_json(JsonV::Object(es)) { Ok(y) => Ok::<TransactionV, JsonErrorV>(TransactionV { body: Some(y), ..Self::spec_default() }), Err(e) => Err(e) }),
            Self::spec_from_json(JsonV::Object(seq![("body"@, JsonV::Null)])) == Ok::<TransactionV, JsonErrorV>(Self::spec_default()),
            Self::spec_to_json(TransactionV { body: Some(x), ..Self::spec_default() }) == JsonV::Object(seq![("body"@, Any::spec_to_json(x))]),
    {
        reveal_strlit("signature");
        reveal_strlit("publicKey");
        reveal_strlit("public_key");
        reveal_strlit("body");
        assert("signature"@.len() == 9);
        assert("publicKey"@.len() == 9);
        assert("public_key"@.len() == 10);
        assert("body"@.len() == 4);
        assert("signature"@[0] != "publicKey"@[0]);
        lemma_fold_entry_if(Self::spec_start(), true, "body"@, JsonV::Object(es), Self::step_fn());
        lemma_fold_entry_if(Self::spec_start(), true, "body"@, JsonV::Null, Self::step_fn());
    }

    /// Reading back the JSON object of a message gives the message.
    pub proof fn lemma_json_roundtrip(m: TransactionV)
        requires
            Self::spec_bytes_readable(m),
        ensures Self::spec_from_json(Self::spec_to_json(m)) == Ok::<TransactionV, JsonErrorV>(m),
    {
        let step = Self::step_fn();
        let s0 = Self::spec_start();
        let s1 = (TransactionV { signature: m.signature, ..s0.0 }, if m.signature.len() != 0 { s0.1.update(0, true) } else { s0.1 });
        Self::lemma_entry_signature(m, s0);
        let s2 = (TransactionV { public_key: m.public_key, ..s1.0 }, if m.public_key.len() != 0 { s1.1.update(1, true) } else { s1.1 });
        Self::lemma_entry_public_key(m, s1);
        let s3 = (TransactionV { body: m.body, ..s2.0 }, s2.1);
        Self::lemma_entry_body(m, s2);
        let p1 = Self::spec_entry_signature(m);
        let p2 = p1 + Self::spec_entry_public_key(m);
        lemma_fold_entries_append(s0, p1, Self::spec_entry_public_key(m), step);
        let p3 = p2 + Self::spec_entry_body(m);
        lemma_fold_entries_append(s0, p2, Self::spec_entry_body(m), step);
        assert(s3.0 == m);
    }
}

/// The `astria.protocol.transaction.v1.TransactionBody` message.
#[derive(Clone, Debug, PartialEq)]
pub struct TransactionBody {
    pub params: Option<TransactionParams>,
    pub actions: Vec<Action>,
}

/// The mathematical content of a [`TransactionBody`].
pub struct TransactionBodyV {
    pub params: Option<TransactionParamsV>,
    pub actions: Seq<ActionV>,
}

impl View for TransactionBody {
    type V = TransactionBodyV;

    open spec fn view(&self) -> TransactionBodyV {
        TransactionBodyV {
            params: TransactionParams::view_opt(self.params),
            actions: Action::view_list(self.actions@),
        }
    }
}

impl Default for TransactionBody {
    fn default() -> (r: Self)
        ensures r@ == TransactionBody::spec_default(),
    {
        let r = TransactionBody {
            params: None,
            actions: Vec::new(),
        };
        proof {
            assert(Action::view_list(r.actions@) =~= Seq::<ActionV>::empty());
        }
        r
    }
}

impl TransactionBody {
    /// The fully qualified protobuf name of the message.
    pub fn full_name() -> (r: String)
        ensures r@ == "astria.protocol.transaction.v1.TransactionBody"@,
    {
        "astria.protocol.transaction.v1.TransactionBody".to_string()
    }

    /// Every field at its default: empty strings, bytes and lists, zero, `false`, unset.
    pub open spec fn spec_default() -> TransactionBodyV {
        TransactionBodyV {
            params: None,
            actions: Seq::<ActionV>::empty(),
        }
    }

    /// The view of an optional field of this message type.
    pub open spec fn view_opt(o: Option<Self>) -> Option<TransactionBodyV> {
        match o {
            Some(x) => Some(x@),
            None => None,
        }
    }

    /// The view of a repeated field of this message type.
    pub open spec fn view_list(v: Seq<Self>) -> Seq<TransactionBodyV> {
        v.map_values(|x: Self| x@)
    }

    /// The member that the field `params` writes: none where it holds its default.
    pub open spec fn spec_entry_params(m: TransactionBodyV) -> Seq<(Seq<char>, JsonV)> {
        entry_if(m.params is Some, "params"@, TransactionParams::spec_to_json(m.params.unwrap()))
    }

    /// The member that the field `actions` writes: none where it holds its default.
    pub open spec fn spec_entry_actions(m: TransactionBodyV) -> Seq<(Seq<char>, JsonV)> {
        entry_if(m.actions.len() != 0, "actions"@, JsonV::Array(m.actions.map_values(Action::writer())))
    }

    /// The members of the JSON object of the message: each field that does not hold
    /// its default, under its JSON name, in the order of the fields.
    pub open spec fn spec_entries(m: TransactionBodyV) -> Seq<(Seq<char>, JsonV)> {
        Self::spec_entry_params(m) + Self::spec_entry_actions(m)
    }

    /// The JSON object that the protobuf JSON mapping writes for the message.
    pub open spec fn spec_to_json(m: TransactionBodyV) -> JsonV {
        JsonV::Object(Self::spec_entries(m))
    }

    /// [`Self::spec_to_json`] as a function value, for repeated fields.
    pub open spec fn writer() -> spec_fn(TransactionBodyV) -> JsonV {
        |m: TransactionBodyV| Self::spec_to_json(m)
    }

    pub open spec fn spec_readable_actions(m: TransactionBodyV) -> bool {
        (forall|i: int| 0 <= i < m.actions.len() ==> Action::spec_bytes_readable(#[trigger] m.actions[i]))
    }

    /// The bytes that the message holds, written in base64, read back as themselves.
    pub open spec fn spec_bytes_readable(m: TransactionBodyV) -> bool {
        &&& Self::spec_readable_actions(m)
    }

    /// Why the field `actions` cannot be written, if it cannot.
    pub open spec fn spec_error_actions(m: TransactionBodyV) -> Option<JsonErrorV> {
        Action::spec_list_error(m.actions)
    }

    /// The first field, in the order of the fields, that cannot be written: an
    /// enumeration field whose number names no value, or a message field that
    /// holds one. `None` when the whole message can be written.
    pub open spec fn spec_encode_error(m: TransactionBodyV) -> Option<JsonErrorV> {
        if Self::spec_error_actions(m) is Some {
            Self::spec_error_actions(m)
        } else {
            None
        }
    }

    fn write_params(&self, es: &mut Vec<(String, Json)>)
        ensures
            view_entries(final(es)@) == view_entries(old(es)@) + Self::spec_entry_params(self@),
    {
        match &self.params {
            Some(x) => push_entry(es, "params", x.to_json()),
            None => {},
        }
        assert(view_entries(es@) =~= view_entries(old(es)@) + Self::spec_entry_params(self@));
    }

    fn write_actions(&self, es: &mut Vec<(String, Json)>) -> (r: Result<(), JsonError>)
        ensures
            match r {
                Ok(_) => Self::spec_error_actions(self@) is None
                    && view_entries(final(es)@) == view_entries(old(es)@) + Self::spec_entry_actions(self@)
                    && Self::spec_readable_actions(self@)
                ,
                Err(e) => Self::spec_error_actions(self@) == Some(e@),
            },
    {
        if self.actions.len() != 0 {
            match Action::list_to_json(&self.actions) {
                Ok(j) => push_entry(es, "actions", j),
                Err(e) => return Err(e),
            }
        }
        assert(view_entries(es@) =~= view_entries(old(es)@) + Self::spec_entry_actions(self@));
        Ok(())
    }

    /// Writes the message as a JSON object, or gives the error of the first field
    /// that cannot be written; reading the object back gives the message.
    pub fn to_json(&self) -> (r: Result<Json, JsonError>)
        ensures
            match r {
                Ok(j) => Self::spec_encode_error(self@) is None
                    && j@ == Self::spec_to_json(self@)
                    && Self::spec_bytes_readable(self@)
                    && Self::spec_from_json(j@) == Ok::<TransactionBodyV, JsonErrorV>(self@),
                Err(e) => Self::spec_encode_error(self@) == Some(e@),
            },
    {
        let mut es: Vec<(String, Json)> = Vec::new();
        let ghost mut acc: Seq<(Seq<char>, JsonV)> = Seq::empty();
        proof {
            assert(view_entries(es@) =~= acc);
        }
        self.write_params(&mut es);
        proof {
            acc = acc + Self::spec_entry_params(self@);
        }
        match self.write_actions(&mut es) {
            Ok(_) => {},
            Err(e) => return Err(e),
        }
        proof {
            acc = acc + Self::spec_entry_actions(self@);
        }
        proof {
            assert(acc =~= Self::spec_entries(self@));
            Self::lemma_json_roundtrip(self@);
        }
        Ok(Json::Object(es))
    }

    /// Reads one member of the object into the message under construction; `seen`
    /// records which fields that have no unset state were already given.
    pub open spec fn spec_step(st: (TransactionBodyV, Seq<bool>), key: Seq<char>, v: JsonV) -> Result<(TransactionBodyV, Seq<bool>), JsonErrorV> {
        let m = st.0;
        let seen = st.1;
        if key == "params"@ {
            if m.params is Some {
                Err(JsonErrorV::DuplicateField("params"@))
            } else {
                match TransactionParams::spec_read_opt(v) {
                    Ok(x) => Ok((TransactionBodyV { params: x, ..m }, seen)),
                    Err(e) => Err(e),
                }
            }
        } else if key == "actions"@ {
            if seen[0] {
                Err(JsonErrorV::DuplicateField("actions"@))
            } else {
                match read_array(v, Action::reader()) {
                    Ok(x) => Ok((TransactionBodyV { actions: x, ..m }, seen.update(0, true))),
                    Err(e) => Err(e),
                }
            }
        } else {
            Err(JsonErrorV::UnknownField(key))
        }
    }

    /// [`Self::spec_step`] as a function value.
    pub open spec fn step_fn() -> spec_fn((TransactionBodyV, Seq<bool>), Seq<char>, JsonV) -> Result<(TransactionBodyV, Seq<bool>), JsonErrorV> {
        |st: (TransactionBodyV, Seq<bool>), key: Seq<char>, v: JsonV| Self::spec_step(st, key, v)
    }

    /// The state before the first member is read: the default message, no field seen.
    pub open spec fn spec_start() -> (TransactionBodyV, Seq<bool>) {
        (Self::spec_default(), seq![false])
    }

    /// The message that a JSON value describes: an object whose keys each name a field
    /// (by its JSON name or its protobuf name), at most once each; fields that are not
    /// given keep their default. The first member that is refused gives the error.
    pub open spec fn spec_from_json(j: JsonV) -> Result<TransactionBodyV, JsonErrorV> {
        match j {
            JsonV::Object(es) => match fold_entries(Self::spec_start(), es, Self::step_fn()) {
                Ok(st) => Ok(st.0),
                Err(e) => Err(e),
            },
            _ => Err(JsonErrorV::ExpectedObject),
        }
    }

    /// [`Self::spec_from_json`] as a function value, for repeated fields.
    pub open spec fn reader() -> spec_fn(JsonV) -> Result<TransactionBodyV, JsonErrorV> {
        |v: JsonV| Self::spec_from_json(v)
    }

    /// An optional field of this message type: `null` leaves it unset.
    pub open spec fn spec_read_opt(v: JsonV) -> Result<Option<TransactionBodyV>, JsonErrorV> {
        match v {
            JsonV::Null => Ok(None),
            _ => match Self::spec_from_json(v) {
                Ok(x) => Ok(Some(x)),
                Err(e) => Err(e),
            },
        }
    }

    fn step(m: Self, seen: Vec<bool>, key: &String, v: &Json) -> (r: Result<(Self, Vec<bool>), JsonError>)
        requires seen@.len() == 1,
        ensures
            match r {
                Ok((m2, seen2)) => Self::spec_step((m@, seen@), key@, v@) == Ok::<(TransactionBodyV, Seq<bool>), JsonErrorV>((m2@, seen2@)) && seen2@.len() == 1,
                Err(e) => Self::spec_step((m@, seen@), key@, v@) == Err::<(TransactionBodyV, Seq<bool>), JsonErrorV>(e@),
            },
    {
        let mut m = m;
        let mut seen = seen;
        let k = key.as_str();
        if str_eq(k, "params") {
            if m.params.is_some() {
                return Err(JsonError::DuplicateField("params".to_string()));
            }
            match TransactionParams::opt_from_json(v) {
                Ok(x) => m.params = x,
                Err(e) => return Err(e),
            }
        } else if str_eq(k, "actions") {
            if seen[0] {
                return Err(JsonError::DuplicateField("actions".to_string()));
            }
            match Action::list_from_json(v) {
                Ok(x) => m.actions = x,
                Err(e) => return Err(e),
            }
            seen.set(0, true);
        } else {
            return Err(JsonError::UnknownField(key.clone()));
        }
        Ok((m, seen))
    }

    /// Reads the message from a JSON value, as [`Self::spec_from_json`] describes.
    pub fn from_json(j: &Json) -> (r: Result<Self, JsonError>)
        ensures
            match r {
                Ok(m) => Self::spec_from_json(j@) == Ok::<TransactionBodyV, JsonErrorV>(m@),
                Err(e) => Self::spec_from_json(j@) == Err::<TransactionBodyV, JsonErrorV>(e@),
            },
    {
        let es = match j {
            Json::Object(es) => es,
            _ => return Err(JsonError::ExpectedObject),
        };
        let ghost ves = view_entries(es@);
        proof {
            lemma_view_entries_len(es@);
            assert(j@ == JsonV::Object(ves));
        }
        let mut m = Self::default();
        let mut seen: Vec<bool> = vec![false];
        let mut i: usize = 0;
        proof {
            assert(seen@ =~= Self::spec_start().1);
            assert(ves.skip(0) == ves);
        }
        while i < es.len()
            invariant
                j@ == JsonV::Object(ves),
                ves == view_entries(es@),
                ves.len() == es@.len(),
                i <= es.len(),
                seen@.len() == 1,
                fold_entries(Self::spec_start(), ves, Self::step_fn())
                    == fold_entries((m@, seen@), ves.skip(i as int), Self::step_fn()),
            decreases es.len() - i,
        {
            proof {
                lemma_view_entries_index(es@, i as int);
                lemma_fold_entries_step((m@, seen@), ves, i as int, Self::step_fn());
            }
            match Self::step(m, seen, &es[i].0, &es[i].1) {
                Ok((m2, seen2)) => {
                    m = m2;
                    seen = seen2;
                },
                Err(e) => return Err(e),
            }
            i = i + 1;
        }
        proof {
            assert(ves.skip(ves.len() as int) == Seq::<(Seq<char>, JsonV)>::empty());
            assert(fold_entries((m@, seen@), ves.skip(ves.len() as int), Self::step_fn())
                == Ok::<(TransactionBodyV, Seq<bool>), JsonErrorV>((m@, seen@)));
        }
        Ok(m)
    }

    /// Reads an optional field of this message type.
    pub fn opt_from_json(v: &Json) -> (r: Result<Option<Self>, JsonError>)
        ensures
            match r {
                Ok(None) => Self::spec_read_opt(v@) == Ok::<Option<TransactionBodyV>, JsonErrorV>(None),
                Ok(Some(x)) => Self::spec_read_opt(v@) == Ok::<Option<TransactionBodyV>, JsonErrorV>(Some(x@)),
                Err(e) => Self::spec_read_opt(v@) == Err::<Option<TransactionBodyV>, JsonErrorV>(e@),
            },
    {
        match v {
            Json::Null => Ok(None),
            _ => match Self::from_json(v) {
                Ok(x) => Ok(Some(x)),
                Err(e) => Err(e),
            },
        }
    }

    /// Reading the member that the field `params` writes sets the field.
    pub proof fn lemma_entry_params(m: TransactionBodyV, st: (TransactionBodyV, Seq<bool>))
        requires
            st.1.len() == 1,
            st.0.params is None,
        ensures
            fold_entries(st, Self::spec_entry_params(m), Self::step_fn()) == Ok::<(TransactionBodyV, Seq<bool>), JsonErrorV>((TransactionBodyV { params: m.params, ..st.0 }, st.1)),
    {
        reveal_strlit("params");
        reveal_strlit("actions");
        assert("params"@.len() == 6);
        assert("actions"@.len() == 7);
        if m.params is Some {
            TransactionParams::lemma_json_roundtrip(m.params.unwrap());
        }
        lemma_fold_entry_if(st, m.params is Some, "params"@, TransactionParams::spec_to_json(m.params.unwrap()), Self::step_fn());
    }

    /// Reading the member that the field `actions` writes sets the field.
    pub proof fn lemma_entry_actions(m: TransactionBodyV, st: (TransactionBodyV, Seq<bool>))
        requires
            st.1.len() == 1,
            !st.1[0],
            st.0.actions == Seq::<ActionV>::empty(),
            Self::spec_readable_actions(m),
            Self::spec_error_actions(m) is None,
        ensures
            fold_entries(st, Self::spec_entry_actions(m), Self::step_fn()) == Ok::<(TransactionBodyV, Seq<bool>), JsonErrorV>((TransactionBodyV { actions: m.actions, ..st.0 }, if m.actions.len() != 0 { st.1.update(0, true) } else { st.1 })),
    {
        reveal_strlit("params");
        reveal_strlit("actions");
        assert("params"@.len() == 6);
        assert("actions"@.len() == 7);
        if m.actions.len() == 0 {
            assert(m.actions =~= Seq::<ActionV>::empty());
        }
        Action::lemma_list_roundtrip(m.actions);
        lemma_fold_entry_if(st, m.actions.len() != 0, "actions"@, JsonV::Array(m.actions.map_values(Action::writer())), Self::step_fn());
    }

    /// The JSON spelling of a key: the protobuf name of a field becomes its JSON name;
    /// a JSON name, and any key that names no field, is left as it is.
    pub open spec fn spec_json_key(key: Seq<char>) -> Seq<char> {
        if key == "params"@ {
            "params"@
        } else if key == "actions"@ {
            "actions"@
        } else {
            key
        }
    }

    /// [`Self::spec_json_key`] as a function value.
    pub open spec fn json_key_fn() -> spec_fn(Seq<char>) -> Seq<char> {
        |key: Seq<char>| Self::spec_json_key(key)
    }

    /// One member is read alike whichever spelling its key has.
    pub proof fn lemma_step_json_key(st: (TransactionBodyV, Seq<bool>), key: Seq<char>, v: JsonV)
        ensures Self::spec_step(st, key, v) == Self::spec_step(st, Self::spec_json_key(key), v),
    {
        reveal_strlit("params");
        reveal_strlit("actions");
        assert("params"@.len() == 6);
        assert("actions"@.len() == 7);
    }

    /// Reading an object gives the same result whichever spelling each of its keys has:
    /// two objects whose members hold the same values, in the same order, under keys of
    /// the same JSON spelling describe the same message, or are refused with the same error.
    pub proof fn lemma_key_spelling(es1: Seq<(Seq<char>, JsonV)>, es2: Seq<(Seq<char>, JsonV)>)
        requires
            es1.len() == es2.len(),
            forall|i: int| #![trigger es1[i], es2[i]] 0 <= i < es1.len() ==> es1[i].1 == es2[i].1 && Self::spec_json_key(es1[i].0) == Self::spec_json_key(es2[i].0),
        ensures Self::spec_from_json(JsonV::Object(es1)) == Self::spec_from_json(JsonV::Object(es2)),
    {
        assert forall|s: (TransactionBodyV, Seq<bool>), k: Seq<char>, v: JsonV|
            #![trigger Self::step_fn()(s, k, v), Self::json_key_fn()(k)]
            Self::step_fn()(s, k, v) == Self::step_fn()(s, Self::json_key_fn()(k), v) by {
            Self::lemma_step_json_key(s, k, v);
        }
        lemma_fold_same_keys(Self::spec_start(), es1, es2, Self::step_fn(), Self::json_key_fn());
    }

    /// The keys of the object that the message writes: the JSON names of the fields that
    /// do not hold their default (for a oneof, the JSON name of the member set), in the
    /// order of the fields.
    pub open spec fn spec_written_keys(m: TransactionBodyV) -> Seq<Seq<char>> {
        key_if(m.params is Some, "params"@)
            + key_if(m.actions.len() != 0, "actions"@)
    }

    /// The object that the message writes has exactly the keys of
    /// [`Self::spec_written_keys`], in that order.
    pub proof fn lemma_written_keys(m: TransactionBodyV)
        ensures
            Self::spec_to_json(m) == JsonV::Object(Self::spec_entries(m)),
            entry_keys(Self::spec_entries(m)) == Self::spec_written_keys(m),
    {
        lemma_entry_keys_if(m.params is Some, "params"@, TransactionParams::spec_to_json(m.params.unwrap()));
        lemma_entry_keys_append(Self::spec_entry_params(m), m.actions.len() != 0, "actions"@, JsonV::Array(m.actions.map_values(Action::writer())));
    }

    /// Whether the field whose JSON name is `name` holds its default in `m`; for a member
    /// of a oneof, whether the oneof is set to another member or unset. `true` for a name
    /// that names no field.
    pub open spec fn spec_holds_default(m: TransactionBodyV, name: Seq<char>) -> bool {
        if name == "params"@ {
            m.params is None
        } else if name == "actions"@ {
            m.actions == Seq::<ActionV>::empty()
        } else {
            true
        }
    }

    /// Whether reading `v` for the field whose JSON name is `name` leaves the field at
    /// its default: `null`, for a field that takes it (a message field, a member of a
    /// oneof); nothing, for any other field. `true` for a name that names no field.
    pub open spec fn spec_leaves_default(name: Seq<char>, v: JsonV) -> bool {
        if name == "params"@ {
            v is Null
        } else if name == "actions"@ {
            false
        } else {
            true
        }
    }

    /// Reading one member keeps a field at its default unless the key names the field
    /// and the value does not leave it there.
    pub proof fn lemma_step_keeps_default(st: (TransactionBodyV, Seq<bool>), key: Seq<char>, v: JsonV, name: Seq<char>)
        requires
            Self::spec_holds_default(st.0, name),
            Self::spec_json_key(key) == name ==> Self::spec_leaves_default(name, v),
        ensures
            Self::spec_step(st, key, v) is Ok ==> Self::spec_holds_default(Self::spec_step(st, key, v)->Ok_0.0, name),
    {
        reveal_strlit("params");
        reveal_strlit("actions");
        assert("params"@.len() == 6);
        assert("actions"@.len() == 7);
        Self::lemma_step_json_key(st, key, v);
    }

    /// A field whose key appears in no member of an object, or only with values that
    /// leave it at its default (`null`, for a field that takes it), holds its default in
    /// the message that the object describes.
    pub proof fn lemma_absent_default(es: Seq<(Seq<char>, JsonV)>, name: Seq<char>)
        requires
            forall|i: int| 0 <= i < es.len() ==> (Self::spec_json_key((#[trigger] es[i]).0) == name
                ==> Self::spec_leaves_default(name, es[i].1)),
        ensures
            Self::spec_from_json(JsonV::Object(es)) is Ok
                ==> Self::spec_holds_default(Self::spec_from_json(JsonV::Object(es))->Ok_0, name),
    {
        let inv = |s: (TransactionBodyV, Seq<bool>)| Self::spec_holds_default(s.0, name);
        let allowed = |k: Seq<char>, v: JsonV| Self::spec_json_key(k) == name ==> Self::spec_leaves_default(name, v);
        assert forall|s: (TransactionBodyV, Seq<bool>), k: Seq<char>, v: JsonV| #![trigger Self::step_fn()(s, k, v)]
            inv(s) && allowed(k, v) && Self::step_fn()(s, k, v) is Ok implies inv(Self::step_fn()(s, k, v)->Ok_0) by {
            Self::lemma_step_keeps_default(s, k, v, name);
        }
        assert(inv(Self::spec_start()));
        lemma_fold_keeps(Self::spec_start(), es, Self::step_fn(), inv, allowed);
    }

    /// The field `params` alone: an object with one member under its JSON or protobuf
    /// name reads as the message with that field set and every other field at its
    /// default, and the message with only that field off its default writes that
    /// one member under the JSON name.
    pub proof fn lemma_field_params(x: TransactionParamsV, es: Seq<(Seq<char>, JsonV)>)
        ensures
            Self::spec_from_json(JsonV::Object(seq![("params"@, JsonV::Object(es))])) == (match TransactionParams::spec_from_json(JsonV::Object(es)) { Ok(y) => Ok::<TransactionBodyV, JsonErrorV>(TransactionBodyV { params: Some(y), ..Self::spec_default() }), Err(e) => Err(e) }),
            Self::spec_from_json(JsonV::Object(seq![("params"@, JsonV::Null)])) == Ok::<TransactionBodyV, JsonErrorV>(Self::spec_default()),
            Self::spec_to_json(TransactionBodyV { params: Some(x), ..Self::spec_default() }) == JsonV::Object(seq![("params"@, TransactionParams::spec_to_json(x))]),
    {
        reveal_strlit("params");
        reveal_strlit("actions");
        assert("params"@.len() == 6);
        assert("actions"@.len() == 7);
        lemma_fold_entry_if(Self::spec_start(), true, "params"@, JsonV::Object(es), Self::step_fn());
        lemma_fold_entry_if(Self::spec_start(), true, "params"@, JsonV::Null, Self::step_fn());
    }

    /// The field `actions` alone: an object with one member under its JSON or protobuf
    /// name reads as the message with that field set and every other field at its
    /// default, and the message with only that field off its default writes that
    /// one member under the JSON name.
    pub proof fn lemma_field_actions(xs: Seq<ActionV>, items: Seq<JsonV>)
        ensures
            Self::spec_from_json(JsonV::Object(seq![("actions"@, JsonV::Array(items))])) == (match read_list(items, Action::reader()) { Ok(ys) => Ok::<TransactionBodyV, JsonErrorV>(TransactionBodyV { actions: ys, ..Self::spec_default() }), Err(e) => Err(e) }),
            xs.len() > 0 ==> Self::spec_to_json(TransactionBodyV { actions: xs, ..Self::spec_default() }) == JsonV::Object(seq![("actions"@, JsonV::Array(xs.map_values(|x: ActionV| Action::spec_to_json(x))))]),
    {
        reveal_strlit("params");
        reveal_strlit("actions");
        assert("params"@.len() == 6);
        assert("actions"@.len() == 7);
        assert(xs.map_values(|x: ActionV| Action::spec_to_json(x)) =~= xs.map_values(Action::writer()));
        lemma_fold_entry_if(Self::spec_start(), true, "actions"@, JsonV::Array(items), Self::step_fn());
    }

    /// Reading back the JSON object of a message gives the message.
    pub proof fn lemma_json_roundtrip(m: TransactionBodyV)
        requires
            Self::spec_bytes_readable(m),
            Self::spec_encode_error(m) is None,
        ensures Self::spec_from_json(Self::spec_to_json(m)) == Ok::<TransactionBodyV, JsonErrorV>(m),
    {
        let step = Self::step_fn();
        let s0 = Self::spec_start();
        let s1 = (TransactionBodyV { params: m.params, ..s0.0 }, s0.1);
        Self::lemma_entry_params(m, s0);
        let s2 = (TransactionBodyV { actions: m.actions, ..s1.0 }, if m.actions.len() != 0 { s1.1.update(0, true) } else { s1.1 });
        Self::lemma_entry_actions(m, s1);
        let p1 = Self::spec_entry_params(m);
        let p2 = p1 + Self::spec_entry_actions(m);
        lemma_fold_entries_append(s0, p1, Self::spec_entry_actions(m), step);
        assert(s2.0 == m);
    }
}

/// The `astria.protocol.transaction.v1.TransactionParams` message.
#[derive(Clone, Debug, PartialEq)]
pub struct TransactionParams {
    pub nonce: u32,
    pub chain_id: String,
}

/// The mathematical content of a [`TransactionParams`].
pub struct TransactionParamsV {
    pub nonce: u32,
    pub chain_id: Seq<char>,
}

impl View for TransactionParams {
    type V = TransactionParamsV;

    open spec fn view(&self) -> TransactionParamsV {
        TransactionParamsV {
            nonce: self.nonce,
            chain_id: self.chain_id@,
        }
    }
}

impl Default for TransactionParams {
    fn default() -> (r: Self)
        ensures r@ == TransactionParams::spec_default(),
    {
        let r = TransactionParams {
            nonce: 0,
            chain_id: String::new(),
        };
        r
    }
}

impl TransactionParams {
    /// The fully qualified protobuf name of the message.
    pub fn full_name() -> (r: String)
        ensures r@ == "astria.protocol.transaction.v1.TransactionParams"@,
    {
        "astria.protocol.transaction.v1.TransactionParams".to_string()
    }

    /// Every field at its default: empty strings, bytes and lists, zero, `false`, unset.
    pub open spec fn spec_default() -> TransactionParamsV {
        TransactionParamsV {
            nonce: 0,
            chain_id: Seq::<char>::empty(),
        }
    }

    /// The view of an optional field of this message type.
    pub open spec fn view_opt(o: Option<Self>) -> Option<TransactionParamsV> {
        match o {
            Some(x) => Some(x@),
            None => None,
        }
    }

    /// The view of a repeated field of this message type.
    pub open spec fn view_list(v: Seq<Self>) -> Seq<TransactionParamsV> {
        v.map_values(|x: Self| x@)
    }

    /// The member that the field `nonce` writes: none where it holds its default.
    pub open spec fn spec_entry_nonce(m: TransactionParamsV) -> Seq<(Seq<char>, JsonV)> {
        entry_if(m.nonce != 0, "nonce"@, JsonV::Unsigned(m.nonce as u64))
    }

    /// The member that the field `chain_id` writes: none where it holds its default.
    pub open spec fn spec_entry_chain_id(m: TransactionParamsV) -> Seq<(Seq<char>, JsonV)> {
        entry_if(m.chain_id.len() != 0, "chainId"@, JsonV::Str(m.chain_id))
    }

    /// The members of the JSON object of the message: each field that does not hold
    /// its default, under its JSON name, in the order of the fields.
    pub open spec fn spec_entries(m: TransactionParamsV) -> Seq<(Seq<char>, JsonV)> {
        Self::spec_entry_nonce(m) + Self::spec_entry_chain_id(m)
    }

    /// The JSON object that the protobuf JSON mapping writes for the message.
    pub open spec fn spec_to_json(m: TransactionParamsV) -> JsonV {
        JsonV::Object(Self::spec_entries(m))
    }

    /// [`Self::spec_to_json`] as a function value, for repeated fields.
    pub open spec fn writer() -> spec_fn(TransactionParamsV) -> JsonV {
        |m: TransactionParamsV| Self::spec_to_json(m)
    }

    fn write_nonce(&self, es: &mut Vec<(String, Json)>)
        ensures
            view_entries(final(es)@) == view_entries(old(es)@) + Self::spec_entry_nonce(self@),
    {
        if self.nonce != 0 {
            push_entry(es, "nonce", Json::Unsigned(self.nonce as u64));
        }
        assert(view_entries(es@) =~= view_entries(old(es)@) + Self::spec_entry_nonce(self@));
    }

    fn write_chain_id(&self, es: &mut Vec<(String, Json)>)
        ensures
            view_entries(final(es)@) == view_entries(old(es)@) + Self::spec_entry_chain_id(self@),
    {
        if !self.chain_id.as_str().is_empty() {
            push_entry(es, "chainId", string_value(&self.chain_id));
        }
        assert(view_entries(es@) =~= view_entries(old(es)@) + Self::spec_entry_chain_id(self@));
    }

    /// Writes the message as a JSON object; reading it back gives the message.
    pub fn to_json(&self) -> (r: Json)
        ensures
            r@ == Self::spec_to_json(self@),
            Self::spec_from_json(r@) == Ok::<TransactionParamsV, JsonErrorV>(self@),
    {
        let mut es: Vec<(String, Json)> = Vec::new();
        let ghost mut acc: Seq<(Seq<char>, JsonV)> = Seq::empty();
        proof {
            assert(view_entries(es@) =~= acc);
        }
        self.write_nonce(&mut es);
        proof {
            acc = acc + Self::spec_entry_nonce(self@);
        }
        self.write_chain_id(&mut es);
        proof {
            acc = acc + Self::spec_entry_chain_id(self@);
        }
        proof {
            assert(acc =~= Self::spec_entries(self@));
            Self::lemma_json_roundtrip(self@);
        }
        Json::Object(es)
    }

    /// Reads one member of the object into the message under construction; `seen`
    /// records which fields that have no unset state were already given.
    pub open spec fn spec_step(st: (TransactionParamsV, Seq<bool>), key: Seq<char>, v: JsonV) -> Result<(TransactionParamsV, Seq<bool>), JsonErrorV> {
        let m = st.0;
        let seen = st.1;
        if key == "nonce"@ {
            if seen[0] {
                Err(JsonErrorV::DuplicateField("nonce"@))
            } else {
                match read_u32(v) {
                    Ok(x) => Ok((TransactionParamsV { nonce: x, ..m }, seen.update(0, true))),
                    Err(e) => Err(e),
                }
            }
        } else if key == "chainId"@ || key == "chain_id"@ {
            if seen[1] {
                Err(JsonErrorV::DuplicateField("chainId"@))
            } else {
                match read_string(v) {
                    Ok(x) => Ok((TransactionParamsV { chain_id: x, ..m }, seen.update(1, true))),
                    Err(e) => Err(e),
                }
            }
        } else {
            Err(JsonErrorV::UnknownField(key))
        }
    }

    /// [`Self::spec_step`] as a function value.
    pub open spec fn step_fn() -> spec_fn((TransactionParamsV, Seq<bool>), Seq<char>, JsonV) -> Result<(TransactionParamsV, Seq<bool>), JsonErrorV> {
        |st: (TransactionParamsV, Seq<bool>), key: Seq<char>, v: JsonV| Self::spec_step(st, key, v)
    }

    /// The state before the first member is read: the default message, no field seen.
    pub open spec fn spec_start() -> (TransactionParamsV, Seq<bool>) {
        (Self::spec_default(), seq![false, false])
    }

    /// The message that a JSON value describes: an object whose keys each name a field
    /// (by its JSON name or its protobuf name), at most once each; fields that are not
    /// given keep their default. The first member that is refused gives the error.
    pub open spec fn spec_from_json(j: JsonV) -> Result<TransactionParamsV, JsonErrorV> {
        match j {
            JsonV::Object(es) => match fold_entries(Self::spec_start(), es, Self::step_fn()) {
                Ok(st) => Ok(st.0),
                Err(e) => Err(e),
            },
            _ => Err(JsonErrorV::ExpectedObject),
        }
    }

    /// [`Self::spec_from_json`] as a function value, for repeated fields.
    pub open spec fn reader() -> spec_fn(JsonV) -> Result<TransactionParamsV, JsonErrorV> {
        |v: JsonV| Self::spec_from_json(v)
    }

    /// An optional field of this message type: `null` leaves it unset.
    pub open spec fn spec_read_opt(v: JsonV) -> Result<Option<TransactionParamsV>, JsonErrorV> {
        match v {
            JsonV::Null => Ok(None),
            _ => match Self::spec_from_json(v) {
                Ok(x) => Ok(Some(x)),
                Err(e) => Err(e),
            },
        }
    }

    fn step(m: Self, seen: Vec<bool>, key: &String, v: &Json) -> (r: Result<(Self, Vec<bool>), JsonError>)
        requires seen@.len() == 2,
        ensures
            match r {
                Ok((m2, seen2)) => Self::spec_step((m@, seen@), key@, v@) == Ok::<(TransactionParamsV, Seq<bool>), JsonErrorV>((m2@, seen2@)) && seen2@.len() == 2,
                Err(e) => Self::spec_step((m@, seen@), key@, v@) == Err::<(TransactionParamsV, Seq<bool>), JsonErrorV>(e@),
            },
    {
        let mut m = m;
        let mut seen = seen;
        let k = key.as_str();
        if str_eq(k, "nonce") {
            if seen[0] {
                return Err(JsonError::DuplicateField("nonce".to_string()));
            }
            match u32_field(v) {
                Ok(x) => m.nonce = x,
                Err(e) => return Err(e),
            }
            seen.set(0, true);
        } else if str_eq(k, "chainId") || str_eq(k, "chain_id") {
            if seen[1] {
                return Err(JsonError::DuplicateField("chainId".to_string()));
            }
            match string_field(v) {
                Ok(x) => m.chain_id = x,
                Err(e) => return Err(e),
            }
            seen.set(1, true);
        } else {
            return Err(JsonError::UnknownField(key.clone()));
        }
        Ok((m, seen))
    }

    /// Reads the message from a JSON value, as [`Self::spec_from_json`] describes.
    pub fn from_json(j: &Json) -> (r: Result<Self, JsonError>)
        ensures
            match r {
                Ok(m) => Self::spec_from_json(j@) == Ok::<TransactionParamsV, JsonErrorV>(m@),
                Err(e) => Self::spec_from_json(j@) == Err::<TransactionParamsV, JsonErrorV>(e@),
            },
    {
        let es = match j {
            Json::Object(es) => es,
            _ => return Err(JsonError::ExpectedObject),
        };
        let ghost ves = view_entries(es@);
        proof {
            lemma_view_entries_len(es@);
            assert(j@ == JsonV::Object(ves));
        }
        let mut m = Self::default();
        let mut seen: Vec<bool> = vec![false, false];
        let mut i: usize = 0;
        proof {
            assert(seen@ =~= Self::spec_start().1);
            assert(ves.skip(0) == ves);
        }
        while i < es.len()
            invariant
                j@ == JsonV::Object(ves),
                ves == view_entries(es@),
                ves.len() == es@.len(),
                i <= es.len(),
                seen@.len() == 2,
                fold_entries(Self::spec_start(), ves, Self::step_fn())
                    == fold_entries((m@, seen@), ves.skip(i as int), Self::step_fn()),
            decreases es.len() - i,
        {
            proof {
                lemma_view_entries_index(es@, i as int);
                lemma_fold_entries_step((m@, seen@), ves, i as int, Self::step_fn());
            }
            match Self::step(m, seen, &es[i].0, &es[i].1) {
                Ok((m2, seen2)) => {
                    m = m2;
                    seen = seen2;
                },
                Err(e) => return Err(e),
            }
            i = i + 1;
        }
        proof {
            assert(ves.skip(ves.len() as int) == Seq::<(Seq<char>, JsonV)>::empty());
            assert(fold_entries((m@, seen@), ves.skip(ves.len() as int), Self::step_fn())
                == Ok::<(TransactionParamsV, Seq<bool>), JsonErrorV>((m@, seen@)));
        }
        Ok(m)
    }

    /// Reads an optional field of this message type.
    pub fn opt_from_json(v: &Json) -> (r: Result<Option<Self>, JsonError>)
        ensures
            match r {
                Ok(None) => Self::spec_read_opt(v@) == Ok::<Option<TransactionParamsV>, JsonErrorV>(None),
                Ok(Some(x)) => Self::spec_read_opt(v@) == Ok::<Option<TransactionParamsV>, JsonErrorV>(Some(x@)),
                Err(e) => Self::spec_read_opt(v@) == Err::<Option<TransactionParamsV>, JsonErrorV>(e@),
            },
    {
        match v {
            Json::Null => Ok(None),
            _ => match Self::from_json(v) {
                Ok(x) => Ok(Some(x)),
                Err(e) => Err(e),
            },
        }
    }

    /// Reading the member that the field `nonce` writes sets the field.
    pub proof fn lemma_entry_nonce(m: TransactionParamsV, st: (TransactionParamsV, Seq<bool>))
        requires
            st.1.len() == 2,
            !st.1[0],
            st.0.nonce == 0,
        ensures
            fold_entries(st, Self::spec_entry_nonce(m), Self::step_fn()) == Ok::<(TransactionParamsV, Seq<bool>), JsonErrorV>((TransactionParamsV { nonce: m.nonce, ..st.0 }, if m.nonce != 0 { st.1.update(0, true) } else { st.1 })),
    {
        reveal_strlit("nonce");
        reveal_strlit("chainId");
        reveal_strlit("chain_id");
        assert("nonce"@.len() == 5);
        assert("chainId"@.len() == 7);
        assert("chain_id"@.len() == 8);
        lemma_fold_entry_if(st, m.nonce != 0, "nonce"@, JsonV::Unsigned(m.nonce as u64), Self::step_fn());
    }

    /// Reading the member that the field `chain_id` writes sets the field.
    pub proof fn lemma_entry_chain_id(m: TransactionParamsV, st: (TransactionParamsV, Seq<bool>))
        requires
            st.1.len() == 2,
            !st.1[1],
            st.0.chain_id == Seq::<char>::empty(),
        ensures
            fold_entries(st, Self::spec_entry_chain_id(m), Self::step_fn()) == Ok::<(TransactionParamsV, Seq<bool>), JsonErrorV>((TransactionParamsV { chain_id: m.chain_id, ..st.0 }, if m.chain_id.len() != 0 { st.1.update(1, true) } else { st.1 })),
    {
        reveal_strlit("nonce");
        reveal_strlit("chainId");
        reveal_strlit("chain_id");
        assert("nonce"@.len() == 5);
        assert("chainId"@.len() == 7);
        assert("chain_id"@.len() == 8);
        if m.chain_id.len() == 0 {
            assert(m.chain_id =~= Seq::<char>::empty());
        }
        lemma_fold_entry_if(st, m.chain_id.len() != 0, "chainId"@, JsonV::Str(m.chain_id), Self::step_fn());
    }

    /// The JSON spelling of a key: the protobuf name of a field becomes its JSON name;
    /// a JSON name, and any key that names no field, is left as it is.
    pub open spec fn spec_json_key(key: Seq<char>) -> Seq<char> {
        if key == "nonce"@ {
            "nonce"@
        } else if key == "chainId"@ || key == "chain_id"@ {
            "chainId"@
        } else {
            key
        }
    }

    /// [`Self::spec_json_key`] as a function value.
    pub open spec fn json_key_fn() -> spec_fn(Seq<char>) -> Seq<char> {
        |key: Seq<char>| Self::spec_json_key(key)
    }

    /// One member is read alike whichever spelling its key has.
    pub proof fn lemma_step_json_key(st: (TransactionParamsV, Seq<bool>), key: Seq<char>, v: JsonV)
        ensures Self::spec_step(st, key, v) == Self::spec_step(st, Self::spec_json_key(key), v),
    {
        reveal_strlit("nonce");
        reveal_strlit("chainId");
        reveal_strlit("chain_id");
        assert("nonce"@.len() == 5);
        assert("chainId"@.len() == 7);
        assert("chain_id"@.len() == 8);
        if key == "chain_id"@ {
            assert(Self::spec_json_key(key) == "chainId"@);
        }
    }

    /// Reading an object gives the same result whichever spelling each of its keys has:
    /// two objects whose members hold the same values, in the same order, under keys of
    /// the same JSON spelling describe the same message, or are refused with the same error.
    pub proof fn lemma_key_spelling(es1: Seq<(Seq<char>, JsonV)>, es2: Seq<(Seq<char>, JsonV)>)
        requires
            es1.len() == es2.len(),
            forall|i: int| #![trigger es1[i], es2[i]] 0 <= i < es1.len() ==> es1[i].1 == es2[i].1 && Self::spec_json_key(es1[i].0) == Self::spec_json_key(es2[i].0),
        ensures Self::spec_from_json(JsonV::Object(es1)) == Self::spec_from_json(JsonV::Object(es2)),
    {
        assert forall|s: (TransactionParamsV, Seq<bool>), k: Seq<char>, v: JsonV|
            #![trigger Self::step_fn()(s, k, v), Self::json_key_fn()(k)]
            Self::step_fn()(s, k, v) == Self::step_fn()(s, Self::json_key_fn()(k), v) by {
            Self::lemma_step_json_key(s, k, v);
        }
        lemma_fold_same_keys(Self::spec_start(), es1, es2, Self::step_fn(), Self::json_key_fn());
    }

    /// The keys of the object that the message writes: the JSON names of the fields that
    /// do not hold their default (for a oneof, the JSON name of the member set), in the
    /// order of the fields.
    pub open spec fn spec_written_keys(m: TransactionParamsV) -> Seq<Seq<char>> {
        key_if(m.nonce != 0, "nonce"@)
            + key_if(m.chain_id.len() != 0, "chainId"@)
    }

    /// The object that the message writes has exactly the keys of
    /// [`Self::spec_written_keys`], in that order.
    pub proof fn lemma_written_keys(m: TransactionParamsV)
        ensures
            Self::spec_to_json(m) == JsonV::Object(Self::spec_entries(m)),
            entry_keys(Self::spec_entries(m)) == Self::spec_written_keys(m),
    {
        lemma_entry_keys_if(m.nonce != 0, "nonce"@, JsonV::Unsigned(m.nonce as u64));
        lemma_entry_keys_append(Self::spec_entry_nonce(m), m.chain_id.len() != 0, "chainId"@, JsonV::Str(m.chain_id));
    }

    /// Whether the field whose JSON name is `name` holds its default in `m`; for a member
    /// of a oneof, whether the oneof is set to another member or unset. `true` for a name
    /// that names no field.
    pub open spec fn spec_holds_default(m: TransactionParamsV, name: Seq<char>) -> bool {
        if name == "nonce"@ {
            m.nonce == 0
        } else if name == "chainId"@ {
            m.chain_id == Seq::<char>::empty()
        } else {
            true
        }
    }

    /// Whether reading `v` for the field whose JSON name is `name` leaves the field at
    /// its default: `null`, for a field that takes it (a message field, a member of a
    /// oneof); nothing, for any other field. `true` for a name that names no field.
    pub open spec fn spec_leaves_default(name: Seq<char>, v: JsonV) -> bool {
        if name == "nonce"@ {
            false
        } else if name == "chainId"@ {
            false
        } else {
            true
        }
    }

    /// Reading one member keeps a field at its default unless the key names the field
    /// and the value does not leave it there.
    pub proof fn lemma_step_keeps_default(st: (TransactionParamsV, Seq<bool>), key: Seq<char>, v: JsonV, name: Seq<char>)
        requires
            Self::spec_holds_default(st.0, name),
            Self::spec_json_key(key) == name ==> Self::spec_leaves_default(name, v),
        ensures
            Self::spec_step(st, key, v) is Ok ==> Self::spec_holds_default(Self::spec_step(st, key, v)->Ok_0.0, name),
    {
        reveal_strlit("nonce");
        reveal_strlit("chainId");
        reveal_strlit("chain_id");
        assert("nonce"@.len() == 5);
        assert("chainId"@.len() == 7);
        assert("chain_id"@.len() == 8);
        Self::lemma_step_json_key(st, key, v);
    }

    /// A field whose key appears in no member of an object, or only with values that
    /// leave it at its default (`null`, for a field that takes it), holds its default in
    /// the message that the object describes.
    pub proof fn lemma_absent_default(es: Seq<(Seq<char>, JsonV)>, name: Seq<char>)
        requires
            forall|i: int| 0 <= i < es.len() ==> (Self::spec_json_key((#[trigger] es[i]).0) == name
                ==> Self::spec_leaves_default(name, es[i].1)),
        ensures
            Self::spec_from_json(JsonV::Object(es)) is Ok
                ==> Self::spec_holds_default(Self::spec_from_json(JsonV::Object(es))->Ok_0, name),
    {
        let inv = |s: (TransactionParamsV, Seq<bool>)| Self::spec_holds_default(s.0, name);
        let allowed = |k: Seq<char>, v: JsonV| Self::spec_json_key(k) == name ==> Self::spec_leaves_default(name, v);
        assert forall|s: (TransactionParamsV, Seq<bool>), k: Seq<char>, v: JsonV| #![trigger Self::step_fn()(s, k, v)]
            inv(s) && allowed(k, v) && Self::step_fn()(s, k, v) is Ok implies inv(Self::step_fn()(s, k, v)->Ok_0) by {
            Self::lemma_step_keeps_default(s, k, v, name);
        }
        assert(inv(Self::spec_start()));
        lemma_fold_keeps(Self::spec_start(), es, Self::step_fn(), inv, allowed);
    }

    /// The field `nonce` alone: an object with one member under its JSON or protobuf
    /// name reads as the message with that field set and every other field at its
    /// default, and the message with only that field off its default writes that
    /// one member under the JSON name.
    pub proof fn lemma_field_nonce(v: u32)
        ensures
            Self::spec_from_json(JsonV::Object(seq![("nonce"@, JsonV::Unsigned(v as u64))])) == Ok::<TransactionParamsV, JsonErrorV>(TransactionParamsV { nonce: v, ..Self::spec_default() }),
            v != 0 ==> Self::spec_to_json(TransactionParamsV { nonce: v, ..Self::spec_default() }) == JsonV::Object(seq![("nonce"@, JsonV::Unsigned(v as u64))]),
    {
        reveal_strlit("nonce");
        reveal_strlit("chainId");
        reveal_strlit("chain_id");
        assert("nonce"@.len() == 5);
        assert("chainId"@.len() == 7);
        assert("chain_id"@.len() == 8);
        lemma_fold_entry_if(Self::spec_start(), true, "nonce"@, JsonV::Unsigned(v as u64), Self::step_fn());
    }

    /// The field `chain_id` alone: an object with one member under its JSON or protobuf
    /// name reads as the message with that field set and every other field at its
    /// default, and the message with only that field off its default writes that
    /// one member under the JSON name.
    pub proof fn lemma_field_chain_id(s: Seq<char>)
        ensures
            Self::spec_from_json(JsonV::Object(seq![("chainId"@, JsonV::Str(s))])) == Ok::<TransactionParamsV, JsonErrorV>(TransactionParamsV { chain_id: s, ..Self::spec_default() }),
            Self::spec_from_json(JsonV::Object(seq![("chain_id"@, JsonV::Str(s))])) == Ok::<TransactionParamsV, JsonErrorV>(TransactionParamsV { chain_id: s, ..Self::spec_default() }),
            s.len() > 0 ==> Self::spec_to_json(TransactionParamsV { chain_id: s, ..Self::spec_default() }) == JsonV::Object(seq![("chainId"@, JsonV::Str(s))]),
    {
        reveal_strlit("nonce");
        reveal_strlit("chainId");
        reveal_strlit("chain_id");
        assert("nonce"@.len() == 5);
        assert("chainId"@.len() == 7);
        assert("chain_id"@.len() == 8);
        lemma_fold_entry_if(Self::spec_start(), true, "chainId"@, JsonV::Str(s), Self::step_fn());
        lemma_fold_entry_if(Self::spec_start(), true, "chain_id"@, JsonV::Str(s), Self::step_fn());
    }

    /// Reading back the JSON object of a message gives the message.
    pub proof fn lemma_json_roundtrip(m: TransactionParamsV)
        ensures Self::spec_from_json(Self::spec_to_json(m)) == Ok::<TransactionParamsV, JsonErrorV>(m),
    {
        let step = Self::step_fn();
        let s0 = Self::spec_start();
        let s1 = (TransactionParamsV { nonce: m.nonce, ..s0.0 }, if m.nonce != 0 { s0.1.update(0, true) } else { s0.1 });
        Self::lemma_entry_nonce(m, s0);
        let s2 = (TransactionParamsV { chain_id: m.chain_id, ..s1.0 }, if m.chain_id.len() != 0 { s1.1.update(1, true) } else { s1.1 });
        Self::lemma_entry_chain_id(m, s1);
        let p1 = Self::spec_entry_nonce(m);
        let p2 = p1 + Self::spec_entry_chain_id(m);
        lemma_fold_entries_append(s0, p1, Self::spec_entry_chain_id(m), step);
        assert(s2.0 == m);
    }
}

/// The `astria.protocol.transaction.v1.Transfer` message.
#[derive(Clone, Debug, PartialEq)]
pub struct Transfer {
    pub to: Option<Address>,
    pub amount: Option<Uint128>,
    pub asset: String,
    pub fee_asset: String,
}

/// The mathematical content of a [`Transfer`].
pub struct TransferV {
    pub to: Option<Seq<(Seq<char>, JsonV)>>,
    pub amount: Option<Seq<(Seq<char>, JsonV)>>,
    pub asset: Seq<char>,
    pub fee_asset: Seq<char>,
}

impl View for Transfer {
    type V = TransferV;

    open spec fn view(&self) -> TransferV {
        TransferV {
            to: opt_embedded_view(self.to),
            amount: opt_embedded_view(self.amount),
            asset: self.asset@,
            fee_asset: self.fee_asset@,
        }
    }
}

impl Default for Transfer {
    fn default() -> (r: Self)
        ensures r@ == Transfer::spec_default(),
    {
        let r = Transfer {
            to: None,
            amount: None,
            asset: String::new(),
            fee_asset: String::new(),
        };
        r
    }
}

impl Transfer {
    /// The fully qualified protobuf name of the message.
    pub fn full_name() -> (r: String)
        ensures r@ == "astria.protocol.transaction.v1.Transfer"@,
    {
        "astria.protocol.transaction.v1.Transfer".to_string()
    }

    /// Every field at its default: empty strings, bytes and lists, zero, `false`, unset.
    pub open spec fn spec_default() -> TransferV {
        TransferV {
            to: None,
            amount: None,
            asset: Seq::<char>::empty(),
            fee_asset: Seq::<char>::empty(),
        }
    }

    /// The view of an optional field of this message type.
    pub open spec fn view_opt(o: Option<Self>) -> Option<TransferV> {
        match o {
            Some(x) => Some(x@),
            None => None,
        }
    }

    /// The view of a repeated field of this message type.
    pub open spec fn view_list(v: Seq<Self>) -> Seq<TransferV> {
        v.map_values(|x: Self| x@)
    }

    /// The member that the field `to` writes: none where it holds its default.
    pub open spec fn spec_entry_to(m: TransferV) -> Seq<(Seq<char>, JsonV)> {
        entry_if(m.to is Some, "to"@, JsonV::Object(m.to.unwrap()))
    }

    /// The member that the field `amount` writes: none where it holds its default.
    pub open spec fn spec_entry_amount(m: TransferV) -> Seq<(Seq<char>, JsonV)> {
        entry_if(m.amount is Some, "amount"@, JsonV::Object(m.amount.unwrap()))
    }

    /// The member that the field `asset` writes: none where it holds its default.
    pub open spec fn spec_entry_asset(m: TransferV) -> Seq<(Seq<char>, JsonV)> {
        entry_if(m.asset.len() != 0, "asset"@, JsonV::Str(m.asset))
    }

    /// The member that the field `fee_asset` writes: none where it holds its default.
    pub open spec fn spec_entry_fee_asset(m: TransferV) -> Seq<(Seq<char>, JsonV)> {
        entry_if(m.fee_asset.len() != 0, "feeAsset"@, JsonV::Str(m.fee_asset))
    }

    /// The members of the JSON object of the message: each field that does not hold
    /// its default, under its JSON name, in the order of the fields.
    pub open spec fn spec_entries(m: TransferV) -> Seq<(Seq<char>, JsonV)> {
        Self::spec_entry_to(m) + Self::spec_entry_amount(m) + Self::spec_entry_asset(m) + Self::spec_entry_fee_asset(m)
    }

    /// The JSON object that the protobuf JSON mapping writes for the message.
    pub open spec fn spec_to_json(m: TransferV) -> JsonV {
        JsonV::Object(Self::spec_entries(m))
    }

    /// [`Self::spec_to_json`] as a function value, for repeated fields.
    pub open spec fn writer() -> spec_fn(TransferV) -> JsonV {
        |m: TransferV| Self::spec_to_json(m)
    }

    fn write_to(&self, es: &mut Vec<(String, Json)>)
        ensures
            view_entries(final(es)@) == view_entries(old(es)@) + Self::spec_entry_to(self@),
    {
        match &self.to {
            Some(x) => push_entry(es, "to", embedded_value(x)),
            None => {},
        }
        assert(view_entries(es@) =~= view_entries(old(es)@) + Self::spec_entry_to(self@));
    }

    fn write_amount(&self, es: &mut Vec<(String, Json)>)
        ensures
            view_entries(final(es)@) == view_entries(old(es)@) + Self::spec_entry_amount(self@),
    {
        match &self.amount {
            Some(x) => push_entry(es, "amount", embedded_value(x)),
            None => {},
        }
        assert(view_entries(es@) =~= view_entries(old(es)@) + Self::spec_entry_amount(self@));
    }

    fn write_asset(&self, es: &mut Vec<(String, Json)>)
        ensures
            view_entries(final(es)@) == view_entries(old(es)@) + Self::spec_entry_asset(self@),
    {
        if !self.asset.as_str().is_empty() {
            push_entry(es, "asset", string_value(&self.asset));
        }
        assert(view_entries(es@) =~= view_entries(old(es)@) + Self::spec_entry_asset(self@));
    }

    fn write_fee_asset(&self, es: &mut Vec<(String, Json)>)
        ensures
            view_entries(final(es)@) == view_entries(old(es)@) + Self::spec_entry_fee_asset(self@),
    {
        if !self.fee_asset.as_str().is_empty() {
            push_entry(es, "feeAsset", string_value(&self.fee_asset));
        }
        assert(view_entries(es@) =~= view_entries(old(es)@) + Self::spec_entry_fee_asset(self@));
    }

    /// Writes the message as a JSON object; reading it back gives the message.
    pub fn to_json(&self) -> (r: Json)
        ensures
            r@ == Self::spec_to_json(self@),
            Self::spec_from_json(r@) == Ok::<TransferV, JsonErrorV>(self@),
    {
        let mut es: Vec<(String, Json)> = Vec::new();
        let ghost mut acc: Seq<(Seq<char>, JsonV)> = Seq::empty();
        proof {
            assert(view_entries(es@) =~= acc);
        }
        self.write_to(&mut es);
        proof {
            acc = acc + Self::spec_entry_to(self@);
        }
        self.write_amount(&mut es);
        proof {
            acc = acc + Self::spec_entry_amount(self@);
        }
        self.write_asset(&mut es);
        proof {
            acc = acc + Self::spec_entry_asset(self@);
        }
        self.write_fee_asset(&mut es);
        proof {
            acc = acc + Self::spec_entry_fee_asset(self@);
        }
        proof {
            assert(acc =~= Self::spec_entries(self@));
            Self::lemma_json_roundtrip(self@);
        }
        Json::Object(es)
    }

    /// Reads one member of the object into the message under construction; `seen`
    /// records which fields that have no unset state were already given.
    pub open spec fn spec_step(st: (TransferV, Seq<bool>), key: Seq<char>, v: JsonV) -> Result<(TransferV, Seq<bool>), JsonErrorV> {
        let m = st.0;
        let seen = st.1;
        if key == "to"@ {
            if m.to is Some {
                Err(JsonErrorV::DuplicateField("to"@))
            } else {
                match read_embedded(v) {
                    Ok(x) => Ok((TransferV { to: x, ..m }, seen)),
                    Err(e) => Err(e),
                }
            }
        } else if key == "amount"@ {
            if m.amount is Some {
                Err(JsonErrorV::DuplicateField("amount"@))
            } else {
                match read_embedded(v) {
                    Ok(x) => Ok((TransferV { amount: x, ..m }, seen)),
                    Err(e) => Err(e),
                }
            }
        } else if key == "asset"@ {
            if seen[0] {
                Err(JsonErrorV::DuplicateField("asset"@))
            } else {
                match read_string(v) {
                    Ok(x) => Ok((TransferV { asset: x, ..m }, seen.update(0, true))),
                    Err(e) => Err(e),
                }
            }
        } else if key == "feeAsset"@ || key == "fee_asset"@ {
            if seen[1] {
                Err(JsonErrorV::DuplicateField("feeAsset"@))
            } else {
                match read_string(v) {
                    Ok(x) => Ok((TransferV { fee_asset: x, ..m }, seen.update(1, true))),
                    Err(e) => Err(e),
                }
            }
        } else {
            Err(JsonErrorV::UnknownField(key))
        }
    }

    /// [`Self::spec_step`] as a function value.
    pub open spec fn step_fn() -> spec_fn((TransferV, Seq<bool>), Seq<char>, JsonV) -> Result<(TransferV, Seq<bool>), JsonErrorV> {
        |st: (TransferV, Seq<bool>), key: Seq<char>, v: JsonV| Self::spec_step(st, key, v)
    }

    /// The state before the first member is read: the default message, no field seen.
    pub open spec fn spec_start() -> (TransferV, Seq<bool>) {
        (Self::spec_default(), seq![false, false])
    }

    /// The message that a JSON value describes: an object whose keys each name a field
    /// (by its JSON name or its protobuf name), at most once each; fields that are not
    /// given keep their default. The first member that is refused gives the error.
    pub open spec fn spec_from_json(j: JsonV) -> Result<TransferV, JsonErrorV> {
        match j {
            JsonV::Object(es) => match fold_entries(Self::spec_start(), es, Self::step_fn()) {
                Ok(st) => Ok(st.0),
                Err(e) => Err(e),
            },
            _ => Err(JsonErrorV::ExpectedObject),
        }
    }

    /// [`Self::spec_from_json`] as a function value, for repeated fields.
    pub open spec fn reader() -> spec_fn(JsonV) -> Result<TransferV, JsonErrorV> {
        |v: JsonV| Self::spec_from_json(v)
    }

    /// An optional field of this message type: `null` leaves it unset.
    pub open spec fn spec_read_opt(v: JsonV) -> Result<Option<TransferV>, JsonErrorV> {
        match v {
            JsonV::Null => Ok(None),
            _ => match Self::spec_from_json(v) {
                Ok(x) => Ok(Some(x)),
                Err(e) => Err(e),
            },
        }
    }

    fn step(m: Self, seen: Vec<bool>, key: &String, v: &Json) -> (r: Result<(Self, Vec<bool>), JsonError>)
        requires seen@.len() == 2,
        ensures
            match r {
                Ok((m2, seen2)) => Self::spec_step((m@, seen@), key@, v@) == Ok::<(TransferV, Seq<bool>), JsonErrorV>((m2@, seen2@)) && seen2@.len() == 2,
                Err(e) => Self::spec_step((m@, seen@), key@, v@) == Err::<(TransferV, Seq<bool>), JsonErrorV>(e@),
            },
    {
        let mut m = m;
        let mut seen = seen;
        let k = key.as_str();
        if str_eq(k, "to") {
            if m.to.is_some() {
                return Err(JsonError::DuplicateField("to".to_string()));
            }
            match embedded_field(v) {
                Ok(x) => m.to = x,
                Err(e) => return Err(e),
            }
        } else if str_eq(k, "amount") {
            if m.amount.is_some() {
                return Err(JsonError::DuplicateField("amount".to_string()));
            }
            match embedded_field(v) {
                Ok(x) => m.amount = x,
                Err(e) => return Err(e),
            }
        } else if str_eq(k, "asset") {
            if seen[0] {
                return Err(JsonError::DuplicateField("asset".to_string()));
            }
            match string_field(v) {
                Ok(x) => m.asset = x,
                Err(e) => return Err(e),
            }
            seen.set(0, true);
        } else if str_eq(k, "feeAsset") || str_eq(k, "fee_asset") {
            if seen[1] {
                return Err(JsonError::DuplicateField("feeAsset".to_string()));
            }
            match string_field(v) {
                Ok(x) => m.fee_asset = x,
                Err(e) => return Err(e),
            }
            seen.set(1, true);
        } else {
            return Err(JsonError::UnknownField(key.clone()));
        }
        Ok((m, seen))
    }

    /// Reads the message from a JSON value, as [`Self::spec_from_json`] describes.
    pub fn from_json(j: &Json) -> (r: Result<Self, JsonError>)
        ensures
            match r {
                Ok(m) => Self::spec_from_json(j@) == Ok::<TransferV, JsonErrorV>(m@),
                Err(e) => Self::spec_from_json(j@) == Err::<TransferV, JsonErrorV>(e@),
            },
    {
        let es = match j {
            Json::Object(es) => es,
            _ => return Err(JsonError::ExpectedObject),
        };
        let ghost ves = view_entries(es@);
        proof {
            lemma_view_entries_len(es@);
            assert(j@ == JsonV::Object(ves));
        }
        let mut m = Self::default();
        let mut seen: Vec<bool> = vec![false, false];
        let mut i: usize = 0;
        proof {
            assert(seen@ =~= Self::spec_start().1);
            assert(ves.skip(0) == ves);
        }
        while i < es.len()
            invariant
                j@ == JsonV::Object(ves),
                ves == view_entries(es@),
                ves.len() == es@.len(),
                i <= es.len(),
                seen@.len() == 2,
                fold_entries(Self::spec_start(), ves, Self::step_fn())
                    == fold_entries((m@, seen@), ves.skip(i as int), Self::step_fn()),
            decreases es.len() - i,
        {
            proof {
                lemma_view_entries_index(es@, i as int);
                lemma_fold_entries_step((m@, seen@), ves, i as int, Self::step_fn());
            }
            match Self::step(m, seen, &es[i].0, &es[i].1) {
                Ok((m2, seen2)) => {
                    m = m2;
                    seen = seen2;
                },
                Err(e) => return Err(e),
            }
            i = i + 1;
        }
        proof {
            assert(ves.skip(ves.len() as int) == Seq::<(Seq<char>, JsonV)>::empty());
            assert(fold_entries((m@, seen@), ves.skip(ves.len() as int), Self::step_fn())
                == Ok::<(TransferV, Seq<bool>), JsonErrorV>((m@, seen@)));
        }
        Ok(m)
    }

    /// Reads an optional field of this message type.
    pub fn opt_from_json(v: &Json) -> (r: Result<Option<Self>, JsonError>)
        ensures
            match r {
                Ok(None) => Self::spec_read_opt(v@) == Ok::<Option<TransferV>, JsonErrorV>(None),
                Ok(Some(x)) => Self::spec_read_opt(v@) == Ok::<Option<TransferV>, JsonErrorV>(Some(x@)),
                Err(e) => Self::spec_read_opt(v@) == Err::<Option<TransferV>, JsonErrorV>(e@),
            },
    {
        match v {
            Json::Null => Ok(None),
            _ => match Self::from_json(v) {
                Ok(x) => Ok(Some(x)),
                Err(e) => Err(e),
            },
        }
    }

    /// Reading the member that the field `to` writes sets the field.
    pub proof fn lemma_entry_to(m: TransferV, st: (TransferV, Seq<bool>))
        requires
            st.1.len() == 2,
            st.0.to is None,
        ensures
            fold_entries(st, Self::spec_entry_to(m), Self::step_fn()) == Ok::<(TransferV, Seq<bool>), JsonErrorV>((TransferV { to: m.to, ..st.0 }, st.1)),
    {
        reveal_strlit("to");
        reveal_strlit("amount");
        reveal_strlit("asset");
        reveal_strlit("feeAsset");
        reveal_strlit("fee_asset");
        assert("to"@.len() == 2);
        assert("amount"@.len() == 6);
        assert("asset"@.len() == 5);
        assert("feeAsset"@.len() == 8);
        assert("fee_asset"@.len() == 9);
        lemma_fold_entry_if(st, m.to is Some, "to"@, JsonV::Object(m.to.unwrap()), Self::step_fn());
    }

    /// Reading the member that the field `amount` writes sets the field.
    pub proof fn lemma_entry_amount(m: TransferV, st: (TransferV, Seq<bool>))
        requires
            st.1.len() == 2,
            st.0.amount is None,
        ensures
            fold_entries(st, Self::spec_entry_amount(m), Self::step_fn()) == Ok::<(TransferV, Seq<bool>), JsonErrorV>((TransferV { amount: m.amount, ..st.0 }, st.1)),
    {
        reveal_strlit("to");
        reveal_strlit("amount");
        reveal_strlit("asset");
        reveal_strlit("feeAsset");
        reveal_strlit("fee_asset");
        assert("to"@.len() == 2);
        assert("amount"@.len() == 6);
        assert("asset"@.len() == 5);
        assert("feeAsset"@.len() == 8);
        assert("fee_asset"@.len() == 9);
        lemma_fold_entry_if(st, m.amount is Some, "amount"@, JsonV::Object(m.amount.unwrap()), Self::step_fn());
    }

    /// Reading the member that the field `asset` writes sets the field.
    pub proof fn lemma_entry_asset(m: TransferV, st: (TransferV, Seq<bool>))
        requires
            st.1.len() == 2,
            !st.1[0],
            st.0.asset == Seq::<char>::empty(),
        ensures
            fold_entries(st, Self::spec_entry_asset(m), Self::step_fn()) == Ok::<(TransferV, Seq<bool>), JsonErrorV>((TransferV { asset: m.asset, ..st.0 }, if m.asset.len() != 0 { st.1.update(0, true) } else { st.1 })),
    {
        reveal_strlit("to");
        reveal_strlit("amount");
        reveal_strlit("asset");
        reveal_strlit("feeAsset");
        reveal_strlit("fee_asset");
        assert("to"@.len() == 2);
        assert("amount"@.len() == 6);
        assert("asset"@.len() == 5);
        assert("feeAsset"@.len() == 8);
        assert("fee_asset"@.len() == 9);
        if m.asset.len() == 0 {
            assert(m.asset =~= Seq::<char>::empty());
        }
        lemma_fold_entry_if(st, m.asset.len() != 0, "asset"@, JsonV::Str(m.asset), Self::step_fn());
    }

    /// Reading the member that the field `fee_asset` writes sets the field.
    pub proof fn lemma_entry_fee_asset(m: TransferV, st: (TransferV, Seq<bool>))
        requires
            st.1.len() == 2,
            !st.1[1],
            st.0.fee_asset == Seq::<char>::empty(),
        ensures
            fold_entries(st, Self::spec_entry_fee_asset(m), Self::step_fn()) == Ok::<(TransferV, Seq<bool>), JsonErrorV>((TransferV { fee_asset: m.fee_asset, ..st.0 }, if m.fee_asset.len() != 0 { st.1.update(1, true) } else { st.1 })),
    {
        reveal_strlit("to");
        reveal_strlit("amount");
        reveal_strlit("asset");
        reveal_strlit("feeAsset");
        reveal_strlit("fee_asset");
        assert("to"@.len() == 2);
        assert("amount"@.len() == 6);
        assert("asset"@.len() == 5);
        assert("feeAsset"@.len() == 8);
        assert("fee_asset"@.len() == 9);
        if m.fee_asset.len() == 0 {
            assert(m.fee_asset =~= Seq::<char>::empty());
        }
        lemma_fold_entry_if(st, m.fee_asset.len() != 0, "feeAsset"@, JsonV::Str(m.fee_asset), Self::step_fn());
    }

    /// The JSON spelling of a key: the protobuf name of a field becomes its JSON name;
    /// a JSON name, and any key that names no field, is left as it is.
    pub open spec fn spec_json_key(key: Seq<char>) -> Seq<char> {
        if key == "to"@ {
            "to"@
        } else if key == "amount"@ {
            "amount"@
        } else if key == "asset"@ {
            "asset"@
        } else if key == "feeAsset"@ || key == "fee_asset"@ {
            "feeAsset"@
        } else {
            key
        }
    }

    /// [`Self::spec_json_key`] as a function value.
    pub open spec fn json_key_fn() -> spec_fn(Seq<char>) -> Seq<char> {
        |key: Seq<char>| Self::spec_json_key(key)
    }

    /// One member is read alike whichever spelling its key has.
    pub proof fn lemma_step_json_key(st: (TransferV, Seq<bool>), key: Seq<char>, v: JsonV)
        ensures Self::spec_step(st, key, v) == Self::spec_step(st, Self::spec_json_key(key), v),
    {
        reveal_strlit("to");
        reveal_strlit("amount");
        reveal_strlit("asset");
        reveal_strlit("feeAsset");
        reveal_strlit("fee_asset");
        assert("to"@.len() == 2);
        assert("amount"@.len() == 6);
        assert("asset"@.len() == 5);
        assert("feeAsset"@.len() == 8);
        assert("fee_asset"@.len() == 9);
        if key == "fee_asset"@ {
            assert(Self::spec_json_key(key) == "feeAsset"@);
        }
    }

    /// Reading an object gives the same result whichever spelling each of its keys has:
    /// two objects whose members hold the same values, in the same order, under keys of
    /// the same JSON spelling describe the same message, or are refused with the same error.
    pub proof fn lemma_key_spelling(es1: Seq<(Seq<char>, JsonV)>, es2: Seq<(Seq<char>, JsonV)>)
        requires
            es1.len() == es2.len(),
            forall|i: int| #![trigger es1[i], es2[i]] 0 <= i < es1.len() ==> es1[i].1 == es2[i].1 && Self::spec_json_key(es1[i].0) == Self::spec_json_key(es2[i].0),
        ensures Self::spec_from_json(JsonV::Object(es1)) == Self::spec_from_json(JsonV::Object(es2)),
    {
        assert forall|s: (TransferV, Seq<bool>), k: Seq<char>, v: JsonV|
            #![trigger Self::step_fn()(s, k, v), Self::json_key_fn()(k)]
            Self::step_fn()(s, k, v) == Self::step_fn()(s, Self::json_key_fn()(k), v) by {
            Self::lemma_step_json_key(s, k, v);
        }
        lemma_fold_same_keys(Self::spec_start(), es1, es2, Self::step_fn(), Self::json_key_fn());
    }

    /// The keys of the object that the message writes: the JSON names of the fields that
    /// do not hold their default (for a oneof, the JSON name of the member set), in the
    /// order of the fields.
    pub open spec fn spec_written_keys(m: TransferV) -> Seq<Seq<char>> {
        key_if(m.to is Some, "to"@)
            + key_if(m.amount is Some, "amount"@)
            + key_if(m.asset.len() != 0, "asset"@)
            + key_if(m.fee_asset.len() != 0, "feeAsset"@)
    }

    /// The object that the message writes has exactly the keys of
    /// [`Self::spec_written_keys`], in that order.
    pub proof fn lemma_written_keys(m: TransferV)
        ensures
            Self::spec_to_json(m) == JsonV::Object(Self::spec_entries(m)),
            entry_keys(Self::spec_entries(m)) == Self::spec_written_keys(m),
    {
        lemma_entry_keys_if(m.to is Some, "to"@, JsonV::Object(m.to.unwrap()));
        lemma_entry_keys_append(Self::spec_entry_to(m), m.amount is Some, "amount"@, JsonV::Object(m.amount.unwrap()));
        lemma_entry_keys_append(Self::spec_entry_to(m) + Self::spec_entry_amount(m), m.asset.len() != 0, "asset"@, JsonV::Str(m.asset));
        lemma_entry_keys_append(Self::spec_entry_to(m) + Self::spec_entry_amount(m) + Self::spec_entry_asset(m), m.fee_asset.len() != 0, "feeAsset"@, JsonV::Str(m.fee_asset));
    }

    /// Whether the field whose JSON name is `name` holds its default in `m`; for a member
    /// of a oneof, whether the oneof is set to another member or unset. `true` for a name
    /// that names no field.
    pub open spec fn spec_holds_default(m: TransferV, name: Seq<char>) -> bool {
        if name == "to"@ {
            m.to is None
        } else if name == "amount"@ {
            m.amount is None
        } else if name == "asset"@ {
            m.asset == Seq::<char>::empty()
        } else if name == "feeAsset"@ {
            m.fee_asset == Seq::<char>::empty()
        } else {
            true
        }
    }

    /// Whether reading `v` for the field whose JSON name is `name` leaves the field at
    /// its default: `null`, for a field that takes it (a message field, a member of a
    /// oneof); nothing, for any other field. `true` for a name that names no field.
    pub open spec fn spec_leaves_default(name: Seq<char>, v: JsonV) -> bool {
        if name == "to"@ {
            v is Null
        } else if name == "amount"@ {
            v is Null
        } else if name == "asset"@ {
            false
        } else if name == "feeAsset"@ {
            false
        } else {
            true
        }
    }

    /// Reading one member keeps a field at its default unless the key names the field
    /// and the value does not leave it there.
    pub proof fn lemma_step_keeps_default(st: (TransferV, Seq<bool>), key: Seq<char>, v: JsonV, name: Seq<char>)
        requires
            Self::spec_holds_default(st.0, name),
            Self::spec_json_key(key) == name ==> Self::spec_leaves_default(name, v),
        ensures
            Self::spec_step(st, key, v) is Ok ==> Self::spec_holds_default(Self::spec_step(st, key, v)->Ok_0.0, name),
    {
        reveal_strlit("to");
        reveal_strlit("amount");
        reveal_strlit("asset");
        reveal_strlit("feeAsset");
        reveal_strlit("fee_asset");
        assert("to"@.len() == 2);
        assert("amount"@.len() == 6);
        assert("asset"@.len() == 5);
        assert("feeAsset"@.len() == 8);
        assert("fee_asset"@.len() == 9);
        Self::lemma_step_json_key(st, key, v);
    }

    /// A field whose key appears in no member of an object, or only with values that
    /// leave it at its default (`null`, for a field that takes it), holds its default in
    /// the message that the object describes.
    pub proof fn lemma_absent_default(es: Seq<(Seq<char>, JsonV)>, name: Seq<char>)
        requires
            forall|i: int| 0 <= i < es.len() ==> (Self::spec_json_key((#[trigger] es[i]).0) == name
                ==> Self::spec_leaves_default(name, es[i].1)),
        ensures
            Self::spec_from_json(JsonV::Object(es)) is Ok
                ==> Self::spec_holds_default(Self::spec_from_json(JsonV::Object(es))->Ok_0, name),
    {
        let inv = |s: (TransferV, Seq<bool>)| Self::spec_holds_default(s.0, name);
        let allowed = |k: Seq<char>, v: JsonV| Self::spec_json_key(k) == name ==> Self::spec_leaves_default(name, v);
        assert forall|s: (TransferV, Seq<bool>), k: Seq<char>, v: JsonV| #![trigger Self::step_fn()(s, k, v)]
            inv(s) && allowed(k, v) && Self::step_fn()(s, k, v) is Ok implies inv(Self::step_fn()(s, k, v)->Ok_0) by {
            Self::lemma_step_keeps_default(s, k, v, name);
        }
        assert(inv(Self::spec_start()));
        lemma_fold_keeps(Self::spec_start(), es, Self::step_fn(), inv, allowed);
    }

    /// The field `to` alone: an object with one member under its JSON or protobuf
    /// name reads as the message with that field set and every other field at its
    /// default, and the message with only that field off its default writes that
    /// one member under the JSON name.
    pub proof fn lemma_field_to(es: Seq<(Seq<char>, JsonV)>)
        ensures
            Self::spec_from_json(JsonV::Object(seq![("to"@, JsonV::Object(es))])) == Ok::<TransferV, JsonErrorV>(TransferV { to: Some(es), ..Self::spec_default() }),
            Self::spec_from_json(JsonV::Object(seq![("to"@, JsonV::Null)])) == Ok::<TransferV, JsonErrorV>(Self::spec_default()),
            Self::spec_to_json(TransferV { to: Some(es), ..Self::spec_default() }) == JsonV::Object(seq![("to"@, JsonV::Object(es))]),
    {
        reveal_strlit("to");
        reveal_strlit("amount");
        reveal_strlit("asset");
        reveal_strlit("feeAsset");
        reveal_strlit("fee_asset");
        assert("to"@.len() == 2);
        assert("amount"@.len() == 6);
        assert("asset"@.len() == 5);
        assert("feeAsset"@.len() == 8);
        assert("fee_asset"@.len() == 9);
        lemma_fold_entry_if(Self::spec_start(), true, "to"@, JsonV::Object(es), Self::step_fn());
        lemma_fold_entry_if(Self::spec_start(), true, "to"@, JsonV::Null, Self::step_fn());
    }

    /// The field `amount` alone: an object with one member under its JSON or protobuf
    /// name reads as the message with that field set and every other field at its
    /// default, and the message with only that field off its default writes that
    /// one member under the JSON name.
    pub proof fn lemma_field_amount(es: Seq<(Seq<char>, JsonV)>)
        ensures
            Self::spec_from_json(JsonV::Object(seq![("amount"@, JsonV::Object(es))])) == Ok::<TransferV, JsonErrorV>(TransferV { amount: Some(es), ..Self::spec_default() }),
            Self::spec_from_json(JsonV::Object(seq![("amount"@, JsonV::Null)])) == Ok::<TransferV, JsonErrorV>(Self::spec_default()),
            Self::spec_to_json(TransferV { amount: Some(es), ..Self::spec_default() }) == JsonV::Object(seq![("amount"@, JsonV::Object(es))]),
    {
        reveal_strlit("to");
        reveal_strlit("amount");
        reveal_strlit("asset");
        reveal_strlit("feeAsset");
        reveal_strlit("fee_asset");
        assert("to"@.len() == 2);
        assert("amount"@.len() == 6);
        assert("asset"@.len() == 5);
        assert("feeAsset"@.len() == 8);
        assert("fee_asset"@.len() == 9);
        lemma_fold_entry_if(Self::spec_start(), true, "amount"@, JsonV::Object(es), Self::step_fn());
        lemma_fold_entry_if(Self::spec_start(), true, "amount"@, JsonV::Null, Self::step_fn());
    }

    /// The field `asset` alone: an object with one member under its JSON or protobuf
    /// name reads as the message with that field set and every other field at its
    /// default, and the message with only that field off its default writes that
    /// one member under the JSON name.
    pub proof fn lemma_field_asset(s: Seq<char>)
        ensures
            Self::spec_from_json(JsonV::Object(seq![("asset"@, JsonV::Str(s))])) == Ok::<TransferV, JsonErrorV>(TransferV { asset: s, ..Self::spec_default() }),
            s.len() > 0 ==> Self::spec_to_json(TransferV { asset: s, ..Self::spec_default() }) == JsonV::Object(seq![("asset"@, JsonV::Str(s))]),
    {
        reveal_strlit("to");
        reveal_strlit("amount");
        reveal_strlit("asset");
        reveal_strlit("feeAsset");
        reveal_strlit("fee_asset");
        assert("to"@.len() == 2);
        assert("amount"@.len() == 6);
        assert("asset"@.len() == 5);
        assert("feeAsset"@.len() == 8);
        assert("fee_asset"@.len() == 9);
        lemma_fold_entry_if(Self::spec_start(), true, "asset"@, JsonV::Str(s), Self::step_fn());
    }

    /// The field `fee_asset` alone: an object with one member under its JSON or protobuf
    /// name reads as the message with that field set and every other field at its
    /// default, and the message with only that field off its default writes that
    /// one member under the JSON name.
    pub proof fn lemma_field_fee_asset(s: Seq<char>)
        ensures
            Self::spec_from_json(JsonV::Object(seq![("feeAsset"@, JsonV::Str(s))])) == Ok::<TransferV, JsonErrorV>(TransferV { fee_asset: s, ..Self::spec_default() }),
            Self::spec_from_json(JsonV::Object(seq![("fee_asset"@, JsonV::Str(s))])) == Ok::<TransferV, JsonErrorV>(TransferV { fee_asset: s, ..Self::spec_default() }),
            s.len() > 0 ==> Self::spec_to_json(TransferV { fee_asset: s, ..Self::spec_default() }) == JsonV::Object(seq![("feeAsset"@, JsonV::Str(s))]),
    {
        reveal_strlit("to");
        reveal_strlit("amount");
        reveal_strlit("asset");
        reveal_strlit("feeAsset");
        reveal_strlit("fee_asset");
        assert("to"@.len() == 2);
        assert("amount"@.len() == 6);
        assert("asset"@.len() == 5);
        assert("feeAsset"@.len() == 8);
        assert("fee_asset"@.len() == 9);
        lemma_fold_entry_if(Self::spec_start(), true, "feeAsset"@, JsonV::Str(s), Self::step_fn());
        lemma_fold_entry_if(Self::spec_start(), true, "fee_asset"@, JsonV::Str(s), Self::step_fn());
    }

    /// Reading back the JSON object of a message gives the message.
    pub proof fn lemma_json_roundtrip(m: TransferV)
        ensures Self::spec_from_json(Self::spec_to_json(m)) == Ok::<TransferV, JsonErrorV>(m),
    {
        let step = Self::step_fn();
        let s0 = Self::spec_start();
        let s1 = (TransferV { to: m.to, ..s0.0 }, s0.1);
        Self::lemma_entry_to(m, s0);
        let s2 = (TransferV { amount: m.amount, ..s1.0 }, s1.1);
        Self::lemma_entry_amount(m, s1);
        let s3 = (TransferV { asset: m.asset, ..s2.0 }, if m.asset.len() != 0 { s2.1.update(0, true) } else { s2.1 });
        Self::lemma_entry_asset(m, s2);
        let s4 = (TransferV { fee_asset: m.fee_asset, ..s3.0 }, if m.fee_asset.len() != 0 { s3.1.update(1, true) } else { s3.1 });
        Self::lemma_entry_fee_asset(m, s3);
        let p1 = Self::spec_entry_to(m);
        let p2 = p1 + Self::spec_entry_amount(m);
        lemma_fold_entries_append(s0, p1, Self::spec_entry_amount(m), step);
        let p3 = p2 + Self::spec_entry_asset(m);
        lemma_fold_entries_append(s0, p2, Self::spec_entry_asset(m), step);
        let p4 = p3 + Self::spec_entry_fee_asset(m);
        lemma_fold_entries_append(s0, p3, Self::spec_entry_fee_asset(m), step);
        assert(s4.0 == m);
    }
}

/// The `astria.protocol.transaction.v1.UpdateMarket` message.
#[derive(Clone, Debug, PartialEq)]
pub struct UpdateMarket {
    pub market: String,
    pub tick_size: Option<Uint128>,
    pub lot_size: Option<Uint128>,
    pub paused: bool,
    pub fee_asset: String,
}

/// The mathematical content of an [`UpdateMarket`].
pub struct UpdateMarketV {
    pub market: Seq<char>,
    pub tick_size: Option<Seq<(Seq<char>, JsonV)>>,
    pub lot_size: Option<Seq<(Seq<char>, JsonV)>>,
    pub paused: bool,
    pub fee_asset: Seq<char>,
}

impl View for UpdateMarket {
    type V = UpdateMarketV;

    open spec fn view(&self) -> UpdateMarketV {
        UpdateMarketV {
            market: self.market@,
            tick_size: opt_embedded_view(self.tick_size),
            lot_size: opt_embedded_view(self.lot_size),
            paused: self.paused,
            fee_asset: self.fee_asset@,
        }
    }
}

impl Default for UpdateMarket {
    fn default() -> (r: Self)
        ensures r@ == UpdateMarket::spec_default(),
    {
        let r = UpdateMarket {
            market: String::new(),
            tick_size: None,
            lot_size: None,
            paused: false,
            fee_asset: String::new(),
        };
        r
    }
}

impl UpdateMarket {
    /// The fully qualified protobuf name of the message.
    pub fn full_name() -> (r: String)
        ensures r@ == "astria.protocol.transaction.v1.UpdateMarket"@,
    {
        "astria.protocol.transaction.v1.UpdateMarket".to_string()
    }

    /// Every field at its default: empty strings, bytes and lists, zero, `false`, unset.
    pub open spec fn spec_default() -> UpdateMarketV {
        UpdateMarketV {
            market: Seq::<char>::empty(),
            tick_size: None,
            lot_size: None,
            paused: false,
            fee_asset: Seq::<char>::empty(),
        }
    }

    /// The view of an optional field of this message type.
    pub open spec fn view_opt(o: Option<Self>) -> Option<UpdateMarketV> {
        match o {
            Some(x) => Some(x@),
            None => None,
        }
    }

    /// The view of a repeated field of this message type.
    pub open spec fn view_list(v: Seq<Self>) -> Seq<UpdateMarketV> {
        v.map_values(|x: Self| x@)
    }

    /// The member that the field `market` writes: none where it holds its default.
    pub open spec fn spec_entry_market(m: UpdateMarketV) -> Seq<(Seq<char>, JsonV)> {
        entry_if(m.market.len() != 0, "market"@, JsonV::Str(m.market))
    }

    /// The member that the field `tick_size` writes: none where it holds its default.
    pub open spec fn spec_entry_tick_size(m: UpdateMarketV) -> Seq<(Seq<char>, JsonV)> {
        entry_if(m.tick_size is Some, "tickSize"@, JsonV::Object(m.tick_size.unwrap()))
    }

    /// The member that the field `lot_size` writes: none where it holds its default.
    pub open spec fn spec_entry_lot_size(m: UpdateMarketV) -> Seq<(Seq<char>, JsonV)> {
        entry_if(m.lot_size is Some, "lotSize"@, JsonV::Object(m.lot_size.unwrap()))
    }

    /// The member that the field `paused` writes: none where it holds its default.
    pub open spec fn spec_entry_paused(m: UpdateMarketV) -> Seq<(Seq<char>, JsonV)> {
        entry_if(m.paused, "paused"@, JsonV::Bool(m.paused))
    }

    /// The member that the field `fee_asset` writes: none where it holds its default.
    pub open spec fn spec_entry_fee_asset(m: UpdateMarketV) -> Seq<(Seq<char>, JsonV)> {
        entry_if(m.fee_asset.len() != 0, "feeAsset"@, JsonV::Str(m.fee_asset))
    }

    /// The members of the JSON object of the message: each field that does not hold
    /// its default, under its JSON name, in the order of the fields.
    pub open spec fn spec_entries(m: UpdateMarketV) -> Seq<(Seq<char>, JsonV)> {
        Self::spec_entry_market(m) + Self::spec_entry_tick_size(m) + Self::spec_entry_lot_size(m) + Self::spec_entry_paused(m) + Self::spec_entry_fee_asset(m)
    }

    /// The JSON object that the protobuf JSON mapping writes for the message.
    pub open spec fn spec_to_json(m: UpdateMarketV) -> JsonV {
        JsonV::Object(Self::spec_entries(m))
    }

    /// [`Self::spec_to_json`] as a function value, for repeated fields.
    pub open spec fn writer() -> spec_fn(UpdateMarketV) -> JsonV {
        |m: UpdateMarketV| Self::spec_to_json(m)
    }

    fn write_market(&self, es: &mut Vec<(String, Json)>)
        ensures
            view_entries(final(es)@) == view_entries(old(es)@) + Self::spec_entry_market(self@),
    {
        if !self.market.as_str().is_empty() {
            push_entry(es, "market", string_value(&self.market));
        }
        assert(view_entries(es@) =~= view_entries(old(es)@) + Self::spec_entry_market(self@));
    }

    fn write_tick_size(&self, es: &mut Vec<(String, Json)>)
        ensures
            view_entries(final(es)@) == view_entries(old(es)@) + Self::spec_entry_tick_size(self@),
    {
        match &self.tick_size {
            Some(x) => push_entry(es, "tickSize", embedded_value(x)),
            None => {},
        }
        assert(view_entries(es@) =~= view_entries(old(es)@) + Self::spec_entry_tick_size(self@));
    }

    fn write_lot_size(&self, es: &mut Vec<(String, Json)>)
        ensures
            view_entries(final(es)@) == view_entries(old(es)@) + Self::spec_entry_lot_size(self@),
    {
        match &self.lot_size {
            Some(x) => push_entry(es, "lotSize", embedded_value(x)),
            None => {},
        }
        assert(view_entries(es@) =~= view_entries(old(es)@) + Self::spec_entry_lot_size(self@));
    }

    fn write_paused(&self, es: &mut Vec<(String, Json)>)
        ensures
            view_entries(final(es)@) == view_entries(old(es)@) + Self::spec_entry_paused(self@),
    {
        if self.paused {
            push_entry(es, "paused", Json::Bool(self.paused));
        }
        assert(view_entries(es@) =~= view_entries(old(es)@) + Self::spec_entry_paused(self@));
    }

    fn write_fee_asset(&self, es: &mut Vec<(String, Json)>)
        ensures
            view_entries(final(es)@) == view_entries(old(es)@) + Self::spec_entry_fee_asset(self@),
    {
        if !self.fee_asset.as_str().is_empty() {
            push_entry(es, "feeAsset", string_value(&self.fee_asset));
        }
        assert(view_entries(es@) =~= view_entries(old(es)@) + Self::spec_entry_fee_asset(self@));
    }

    /// Writes the message as a JSON object; reading it back gives the message.
    pub fn to_json(&self) -> (r: Json)
        ensures
            r@ == Self::spec_to_json(self@),
            Self::spec_from_json(r@) == Ok::<UpdateMarketV, JsonErrorV>(self@),
    {
        let mut es: Vec<(String, Json)> = Vec::new();
        let ghost mut acc: Seq<(Seq<char>, JsonV)> = Seq::empty();
        proof {
            assert(view_entries(es@) =~= acc);
        }
        self.write_market(&mut es);
        proof {
            acc = acc + Self::spec_entry_market(self@);
        }
        self.write_tick_size(&mut es);
        proof {
            acc = acc + Self::spec_entry_tick_size(self@);
        }
        self.write_lot_size(&mut es);
        proof {
            acc = acc + Self::spec_entry_lot_size(self@);
        }
        self.write_paused(&mut es);
        proof {
            acc = acc + Self::spec_entry_paused(self@);
        }
        self.write_fee_asset(&mut es);
        proof {
            acc = acc + Self::spec_entry_fee_asset(self@);
        }
        proof {
            assert(acc =~= Self::spec_entries(self@));
            Self::lemma_json_roundtrip(self@);
        }
        Json::Object(es)
    }

    /// Reads one member of the object into the message under construction; `seen`
    /// records which fields that have no unset state were already given.
    pub open spec fn spec_step(st: (UpdateMarketV, Seq<bool>), key: Seq<char>, v: JsonV) -> Result<(UpdateMarketV, Seq<bool>), JsonErrorV> {
        let m = st.0;
        let seen = st.1;
        if key == "market"@ {
            if seen[0] {
                Err(JsonErrorV::DuplicateField("market"@))
            } else {
                match read_string(v) {
                    Ok(x) => Ok((UpdateMarketV { market: x, ..m }, seen.update(0, true))),
                    Err(e) => Err(e),
                }
            }
        } else if key == "tickSize"@ || key == "tick_size"@ {
            if m.tick_size is Some {
                Err(JsonErrorV::DuplicateField("tickSize"@))
            } else {
                match read_embedded(v) {
                    Ok(x) => Ok((UpdateMarketV { tick_size: x, ..m }, seen)),
                    Err(e) => Err(e),
                }
            }
        } else if key == "lotSize"@ || key == "lot_size"@ {
            if m.lot_size is Some {
                Err(JsonErrorV::DuplicateField("lotSize"@))
            } else {
                match read_embedded(v) {
                    Ok(x) => Ok((UpdateMarketV { lot_size: x, ..m }, seen)),
                    Err(e) => Err(e),
                }
            }
        } else if key == "paused"@ {
            if seen[1] {
                Err(JsonErrorV::DuplicateField("paused"@))
            } else {
                match read_bool(v) {
                    Ok(x) => Ok((UpdateMarketV { paused: x, ..m }, seen.update(1, true))),
                    Err(e) => Err(e),
                }
            }
        } else if key == "feeAsset"@ || key == "fee_asset"@ {
            if seen[2] {
                Err(JsonErrorV::DuplicateField("feeAsset"@))
            } else {
                match read_string(v) {
                    Ok(x) => Ok((UpdateMarketV { fee_asset: x, ..m }, seen.update(2, true))),
                    Err(e) => Err(e),
                }
            }
        } else {
            Err(JsonErrorV::UnknownField(key))
        }
    }

    /// [`Self::spec_step`] as a function value.
    pub open spec fn step_fn() -> spec_fn((UpdateMarketV, Seq<bool>), Seq<char>, JsonV) -> Result<(UpdateMarketV, Seq<bool>), JsonErrorV> {
        |st: (UpdateMarketV, Seq<bool>), key: Seq<char>, v: JsonV| Self::spec_step(st, key, v)
    }

    /// The state before the first member is read: the default message, no field seen.
    pub open spec fn spec_start() -> (UpdateMarketV, Seq<bool>) {
        (Self::spec_default(), seq![false, false, false])
    }

    /// The message that a JSON value describes: an object whose keys each name a field
    /// (by its JSON name or its protobuf name), at most once each; fields that are not
    /// given keep their default. The first member that is refused gives the error.
    pub open spec fn spec_from_json(j: JsonV) -> Result<UpdateMarketV, JsonErrorV> {
        match j {
            JsonV::Object(es) => match fold_entries(Self::spec_start(), es, Self::step_fn()) {
                Ok(st) => Ok(st.0),
                Err(e) => Err(e),
            },
            _ => Err(JsonErrorV::ExpectedObject),
        }
    }

    /// [`Self::spec_from_json`] as a function value, for repeated fields.
    pub open spec fn reader() -> spec_fn(JsonV) -> Result<UpdateMarketV, JsonErrorV> {
        |v: JsonV| Self::spec_from_json(v)
    }

    /// An optional field of this message type: `null` leaves it unset.
    pub open spec fn spec_read_opt(v: JsonV) -> Result<Option<UpdateMarketV>, JsonErrorV> {
        match v {
            JsonV::Null => Ok(None),
            _ => match Self::spec_from_json(v) {
                Ok(x) => Ok(Some(x)),
                Err(e) => Err(e),
            },
        }
    }

    fn step(m: Self, seen: Vec<bool>, key: &String, v: &Json) -> (r: Result<(Self, Vec<bool>), JsonError>)
        requires seen@.len() == 3,
        ensures
            match r {
                Ok((m2, seen2)) => Self::spec_step((m@, seen@), key@, v@) == Ok::<(UpdateMarketV, Seq<bool>), JsonErrorV>((m2@, seen2@)) && seen2@.len() == 3,
                Err(e) => Self::spec_step((m@, seen@), key@, v@) == Err::<(UpdateMarketV, Seq<bool>), JsonErrorV>(e@),
            },
    {
        let mut m = m;
        let mut seen = seen;
        let k = key.as_str();
        if str_eq(k, "market") {
            if seen[0] {
                return Err(JsonError::DuplicateField("market".to_string()));
            }
            match string_field(v) {
                Ok(x) => m.market = x,
                Err(e) => return Err(e),
            }
            seen.set(0, true);
        } else if str_eq(k, "tickSize") || str_eq(k, "tick_size") {
            if m.tick_size.is_some() {
                return Err(JsonError::DuplicateField("tickSize".to_string()));
            }
            match embedded_field(v) {
                Ok(x) => m.tick_size = x,
                Err(e) => return Err(e),
            }
        } else if str_eq(k, "lotSize") || str_eq(k, "lot_size") {
            if m.lot_size.is_some() {
                return Err(JsonError::DuplicateField("lotSize".to_string()));
            }
            match embedded_field(v) {
                Ok(x) => m.lot_size = x,
                Err(e) => return Err(e),
            }
        } else if str_eq(k, "paused") {
            if seen[1] {
                return Err(JsonError::DuplicateField("paused".to_string()));
            }
            match bool_field(v) {
                Ok(x) => m.paused = x,
                Err(e) => return Err(e),
            }
            seen.set(1, true);
        } else if str_eq(k, "feeAsset") || str_eq(k, "fee_asset") {
            if seen[2] {
                return Err(JsonError::DuplicateField("feeAsset".to_string()));
            }
            match string_field(v) {
                Ok(x) => m.fee_asset = x,
                Err(e) => return Err(e),
            }
            seen.set(2, true);
        } else {
            return Err(JsonError::UnknownField(key.clone()));
        }
        Ok((m, seen))
    }

    /// Reads the message from a JSON value, as [`Self::spec_from_json`] describes.
    pub fn from_json(j: &Json) -> (r: Result<Self, JsonError>)
        ensures
            match r {
                Ok(m) => Self::spec_from_json(j@) == Ok::<UpdateMarketV, JsonErrorV>(m@),
                Err(e) => Self::spec_from_json(j@) == Err::<UpdateMarketV, JsonErrorV>(e@),
            },
    {
        let es = match j {
            Json::Object(es) => es,
            _ => return Err(JsonError::ExpectedObject),
        };
        let ghost ves = view_entries(es@);
        proof {
            lemma_view_entries_len(es@);
            assert(j@ == JsonV::Object(ves));
        }
        let mut m = Self::default();
        let mut seen: Vec<bool> = vec![false, false, false];
        let mut i: usize = 0;
        proof {
            assert(seen@ =~= Self::spec_start().1);
            assert(ves.skip(0) == ves);
        }
        while i < es.len()
            invariant
                j@ == JsonV::Object(ves),
                ves == view_entries(es@),
                ves.len() == es@.len(),
                i <= es.len(),
                seen@.len() == 3,
                fold_entries(Self::spec_start(), ves, Self::step_fn())
                    == fold_entries((m@, seen@), ves.skip(i as int), Self::step_fn()),
            decreases es.len() - i,
        {
            proof {
                lemma_view_entries_index(es@, i as int);
                lemma_fold_entries_step((m@, seen@), ves, i as int, Self::step_fn());
            }
            match Self::step(m, seen, &es[i].0, &es[i].1) {
                Ok((m2, seen2)) => {
                    m = m2;
                    seen = seen2;
                },
                Err(e) => return Err(e),
            }
            i = i + 1;
        }
        proof {
            assert(ves.skip(ves.len() as int) == Seq::<(Seq<char>, JsonV)>::empty());
            assert(fold_entries((m@, seen@), ves.skip(ves.len() as int), Self::step_fn())
                == Ok::<(UpdateMarketV, Seq<bool>), JsonErrorV>((m@, seen@)));
        }
        Ok(m)
    }

    /// Reads an optional field of this message type.
    pub fn opt_from_json(v: &Json) -> (r: Result<Option<Self>, JsonError>)
        ensures
            match r {
                Ok(None) => Self::spec_read_opt(v@) == Ok::<Option<UpdateMarketV>, JsonErrorV>(None),
                Ok(Some(x)) => Self::spec_read_opt(v@) == Ok::<Option<UpdateMarketV>, JsonErrorV>(Some(x@)),
                Err(e) => Self::spec_read_opt(v@) == Err::<Option<UpdateMarketV>, JsonErrorV>(e@),
            },
    {
        match v {
            Json::Null => Ok(None),
            _ => match Self::from_json(v) {
                Ok(x) => Ok(Some(x)),
                Err(e) => Err(e),
            },
        }
    }

    /// Reading the member that the field `market` writes sets the field.
    pub proof fn lemma_entry_market(m: UpdateMarketV, st: (UpdateMarketV, Seq<bool>))
        requires
            st.1.len() == 3,
            !st.1[0],
            st.0.market == Seq::<char>::empty(),
        ensures
            fold_entries(st, Self::spec_entry_market(m), Self::step_fn()) == Ok::<(UpdateMarketV, Seq<bool>), JsonErrorV>((UpdateMarketV { market: m.market, ..st.0 }, if m.market.len() != 0 { st.1.update(0, true) } else { st.1 })),
    {
        reveal_strlit("market");
        reveal_strlit("tickSize");
        reveal_strlit("tick_size");
        reveal_strlit("lotSize");
        reveal_strlit("lot_size");
        reveal_strlit("paused");
        reveal_strlit("feeAsset");
        reveal_strlit("fee_asset");
        assert("market"@.len() == 6);
        assert("tickSize"@.len() == 8);
        assert("tick_size"@.len() == 9);
        assert("lotSize"@.len() == 7);
        assert("lot_size"@.len() == 8);
        assert("paused"@.len() == 6);
        assert("feeAsset"@.len() == 8);
        assert("fee_asset"@.len() == 9);
        assert("market"@[0] != "paused"@[0]);
        assert("tickSize"@[0] != "lot_size"@[0]);
        assert("tickSize"@[0] != "feeAsset"@[0]);
        assert("tick_size"@[0] != "fee_asset"@[0]);
        assert("lot_size"@[0] != "feeAsset"@[0]);
        if m.market.len() == 0 {
            assert(m.market =~= Seq::<char>::empty());
        }
        lemma_fold_entry_if(st, m.market.len() != 0, "market"@, JsonV::Str(m.market), Self::step_fn());
    }

    /// Reading the member that the field `tick_size` writes sets the field.
    pub proof fn lemma_entry_tick_size(m: UpdateMarketV, st: (UpdateMarketV, Seq<bool>))
        requires
            st.1.len() == 3,
            st.0.tick_size is None,
        ensures
            fold_entries(st, Self::spec_entry_tick_size(m), Self::step_fn()) == Ok::<(UpdateMarketV, Seq<bool>), JsonErrorV>((UpdateMarketV { tick_size: m.tick_size, ..st.0 }, st.1)),
    {
        reveal_strlit("market");
        reveal_strlit("tickSize");
        reveal_strlit("tick_size");
        reveal_strlit("lotSize");
        reveal_strlit("lot_size");
        reveal_strlit("paused");
        reveal_strlit("feeAsset");
        reveal_strlit("fee_asset");
        assert("market"@.len() == 6);
        assert("tickSize"@.len() == 8);
        assert("tick_size"@.len() == 9);
        assert("lotSize"@.len() == 7);
        assert("lot_size"@.len() == 8);
        assert("paused"@.len() == 6);
        assert("feeAsset"@.len() == 8);
        assert("fee_asset"@.len() == 9);
        assert("market"@[0] != "paused"@[0]);
        assert("tickSize"@[0] != "lot_size"@[0]);
        assert("tickSize"@[0] != "feeAsset"@[0]);
        assert("tick_size"@[0] != "fee_asset"@[0]);
        assert("lot_size"@[0] != "feeAsset"@[0]);
        lemma_fold_entry_if(st, m.tick_size is Some, "tickSize"@, JsonV::Object(m.tick_size.unwrap()), Self::step_fn());
    }

    /// Reading the member that the field `lot_size` writes sets the field.
    pub proof fn lemma_entry_lot_size(m: UpdateMarketV, st: (UpdateMarketV, Seq<bool>))
        requires
            st.1.len() == 3,
            st.0.lot_size is None,
        ensures
            fold_entries(st, Self::spec_entry_lot_size(m), Self::step_fn()) == Ok::<(UpdateMarketV, Seq<bool>), JsonErrorV>((UpdateMarketV { lot_size: m.lot_size, ..st.0 }, st.1)),
    {
        reveal_strlit("market");
        reveal_strlit("tickSize");
        reveal_strlit("tick_size");
        reveal_strlit("lotSize");
        reveal_strlit("lot_size");
        reveal_strlit("paused");
        reveal_strlit("feeAsset");
        reveal_strlit("fee_asset");
        assert("market"@.len() == 6);
        assert("tickSize"@.len() == 8);
        assert("tick_size"@.len() == 9);
        assert("lotSize"@.len() == 7);
        assert("lot_size"@.len() == 8);
        assert("paused"@.len() == 6);
        assert("feeAsset"@.len() == 8);
        assert("fee_asset"@.len() == 9);
        assert("market"@[0] != "paused"@[0]);
        assert("tickSize"@[0] != "lot_size"@[0]);
        assert("tickSize"@[0] != "feeAsset"@[0]);
        assert("tick_size"@[0] != "fee_asset"@[0]);
        assert("lot_size"@[0] != "feeAsset"@[0]);
        lemma_fold_entry_if(st, m.lot_size is Some, "lotSize"@, JsonV::Object(m.lot_size.unwrap()), Self::step_fn());
    }

    /// Reading the member that the field `paused` writes sets the field.
    pub proof fn lemma_entry_paused(m: UpdateMarketV, st: (UpdateMarketV, Seq<bool>))
        requires
            st.1.len() == 3,
            !st.1[1],
            st.0.paused == false,
        ensures
            fold_entries(st, Self::spec_entry_paused(m), Self::step_fn()) == Ok::<(UpdateMarketV, Seq<bool>), JsonErrorV>((UpdateMarketV { paused: m.paused, ..st.0 }, if m.paused { st.1.update(1, true) } else { st.1 })),
    {
        reveal_strlit("market");
        reveal_strlit("tickSize");
        reveal_strlit("tick_size");
        reveal_strlit("lotSize");
        reveal_strlit("lot_size");
        reveal_strlit("paused");
        reveal_strlit("feeAsset");
        reveal_strlit("fee_asset");
        assert("market"@.len() == 6);
        assert("tickSize"@.len() == 8);
        assert("tick_size"@.len() == 9);
        assert("lotSize"@.len() == 7);
        assert("lot_size"@.len() == 8);
        assert("paused"@.len() == 6);
        assert("feeAsset"@.len() == 8);
        assert("fee_asset"@.len() == 9);
        assert("market"@[0] != "paused"@[0]);
        assert("tickSize"@[0] != "lot_size"@[0]);
        assert("tickSize"@[0] != "feeAsset"@[0]);
        assert("tick_size"@[0] != "fee_asset"@[0]);
        assert("lot_size"@[0] != "feeAsset"@[0]);
        lemma_fold_entry_if(st, m.paused, "paused"@, JsonV::Bool(m.paused), Self::step_fn());
    }

    /// Reading the member that the field `fee_asset` writes sets the field.
    pub proof fn lemma_entry_fee_asset(m: UpdateMarketV, st: (UpdateMarketV, Seq<bool>))
        requires
            st.1.len() == 3,
            !st.1[2],
            st.0.fee_asset == Seq::<char>::empty(),
        ensures
            fold_entries(st, Self::spec_entry_fee_asset(m), Self::step_fn()) == Ok::<(UpdateMarketV, Seq<bool>), JsonErrorV>((UpdateMarketV { fee_asset: m.fee_asset, ..st.0 }, if m.fee_asset.len() != 0 { st.1.update(2, true) } else { st.1 })),
    {
        reveal_strlit("market");
        reveal_strlit("tickSize");
        reveal_strlit("tick_size");
        reveal_strlit("lotSize");
        reveal_strlit("lot_size");
        reveal_strlit("paused");
        reveal_strlit("feeAsset");
        reveal_strlit("fee_asset");
        assert("market"@.len() == 6);
        assert("tickSize"@.len() == 8);
        assert("tick_size"@.len() == 9);
        assert("lotSize"@.len() == 7);
        assert("lot_size"@.len() == 8);
        assert("paused"@.len() == 6);
        assert("feeAsset"@.len() == 8);
        assert("fee_asset"@.len() == 9);
        assert("market"@[0] != "paused"@[0]);
        assert("tickSize"@[0] != "lot_size"@[0]);
        assert("tickSize"@[0] != "feeAsset"@[0]);
        assert("tick_size"@[0] != "fee_asset"@[0]);
        assert("lot_size"@[0] != "feeAsset"@[0]);
        if m.fee_asset.len() == 0 {
            assert(m.fee_asset =~= Seq::<char>::empty());
        }
        lemma_fold_entry_if(st, m.fee_asset.len() != 0, "feeAsset"@, JsonV::Str(m.fee_asset), Self::step_fn());
    }

    /// The JSON spelling of a key: the protobuf name of a field becomes its JSON name;
    /// a JSON name, and any key that names no field, is left as it is.
    pub open spec fn spec_json_key(key: Seq<char>) -> Seq<char> {
        if key == "market"@ {
            "market"@
        } else if key == "tickSize"@ || key == "tick_size"@ {
            "tickSize"@
        } else if key == "lotSize"@ || key == "lot_size"@ {
            "lotSize"@
        } else if key == "paused"@ {
            "paused"@
        } else if key == "feeAsset"@ || key == "fee_asset"@ {
            "feeAsset"@
        } else {
            key
        }
    }

    /// [`Self::spec_json_key`] as a function value.
    pub open spec fn json_key_fn() -> spec_fn(Seq<char>) -> Seq<char> {
        |key: Seq<char>| Self::spec_json_key(key)
    }

    /// One member is read alike whichever spelling its key has.
    pub proof fn lemma_step_json_key(st: (UpdateMarketV, Seq<bool>), key: Seq<char>, v: JsonV)
        ensures Self::spec_step(st, key, v) == Self::spec_step(st, Self::spec_json_key(key), v),
    {
        reveal_strlit("market");
        reveal_strlit("tickSize");
        reveal_strlit("tick_size");
        reveal_strlit("lotSize");
        reveal_strlit("lot_size");
        reveal_strlit("paused");
        reveal_strlit("feeAsset");
        reveal_strlit("fee_asset");
        assert("market"@.len() == 6);
        assert("tickSize"@.len() == 8);
        assert("tick_size"@.len() == 9);
        assert("lotSize"@.len() == 7);
        assert("lot_size"@.len() == 8);
        assert("paused"@.len() == 6);
        assert("feeAsset"@.len() == 8);
        assert("fee_asset"@.len() == 9);
        assert("market"@[0] != "paused"@[0]);
        assert("tickSize"@[0] != "lot_size"@[0]);
        assert("tickSize"@[0] != "feeAsset"@[0]);
        assert("tick_size"@[0] != "fee_asset"@[0]);
        assert("lot_size"@[0] != "feeAsset"@[0]);
        if key == "tick_size"@ {
            assert(Self::spec_json_key(key) == "tickSize"@);
        }
        if key == "lot_size"@ {
            assert(Self::spec_json_key(key) == "lotSize"@);
        }
        if key == "fee_asset"@ {
            assert(Self::spec_json_key(key) == "feeAsset"@);
        }
    }

    /// Reading an object gives the same result whichever spelling each of its keys has:
    /// two objects whose members hold the same values, in the same order, under keys of
    /// the same JSON spelling describe the same message, or are refused with the same error.
    pub proof fn lemma_key_spelling(es1: Seq<(Seq<char>, JsonV)>, es2: Seq<(Seq<char>, JsonV)>)
        requires
            es1.len() == es2.len(),
            forall|i: int| #![trigger es1[i], es2[i]] 0 <= i < es1.len() ==> es1[i].1 == es2[i].1 && Self::spec_json_key(es1[i].0) == Self::spec_json_key(es2[i].0),
        ensures Self::spec_from_json(JsonV::Object(es1)) == Self::spec_from_json(JsonV::Object(es2)),
    {
        assert forall|s: (UpdateMarketV, Seq<bool>), k: Seq<char>, v: JsonV|
            #![trigger Self::step_fn()(s, k, v), Self::json_key_fn()(k)]
            Self::step_fn()(s, k, v) == Self::step_fn()(s, Self::json_key_fn()(k), v) by {
            Self::lemma_step_json_key(s, k, v);
        }
        lemma_fold_same_keys(Self::spec_start(), es1, es2, Self::step_fn(), Self::json_key_fn());
    }

    /// The keys of the object that the message writes: the JSON names of the fields that
    /// do not hold their default (for a oneof, the JSON name of the member set), in the
    /// order of the fields.
    pub open spec fn spec_written_keys(m: UpdateMarketV) -> Seq<Seq<char>> {
        key_if(m.market.len() != 0, "market"@)
            + key_if(m.tick_size is Some, "tickSize"@)
            + key_if(m.lot_size is Some, "lotSize"@)
            + key_if(m.paused, "paused"@)
            + key_if(m.fee_asset.len() != 0, "feeAsset"@)
    }

    /// The object that the message writes has exactly the keys of
    /// [`Self::spec_written_keys`], in that order.
    pub proof fn lemma_written_keys(m: UpdateMarketV)
        ensures
            Self::spec_to_json(m) == JsonV::Object(Self::spec_entries(m)),
            entry_keys(Self::spec_entries(m)) == Self::spec_written_keys(m),
    {
        lemma_entry_keys_if(m.market.len() != 0, "market"@, JsonV::Str(m.market));
        lemma_entry_keys_append(Self::spec_entry_market(m), m.tick_size is Some, "tickSize"@, JsonV::Object(m.tick_size.unwrap()));
        lemma_entry_keys_append(Self::spec_entry_market(m) + Self::spec_entry_tick_size(m), m.lot_size is Some, "lotSize"@, JsonV::Object(m.lot_size.unwrap()));
        lemma_entry_keys_append(Self::spec_entry_market(m) + Self::spec_entry_tick_size(m) + Self::spec_entry_lot_size(m), m.paused, "paused"@, JsonV::Bool(m.paused));
        lemma_entry_keys_append(Self::spec_entry_market(m) + Self::spec_entry_tick_size(m) + Self::spec_entry_lot_size(m) + Self::spec_entry_paused(m), m.fee_asset.len() != 0, "feeAsset"@, JsonV::Str(m.fee_asset));
    }

    /// Whether the field whose JSON name is `name` holds its default in `m`; for a member
    /// of a oneof, whether the oneof is set to another member or unset. `true` for a name
    /// that names no field.
    pub open spec fn spec_holds_default(m: UpdateMarketV, name: Seq<char>) -> bool {
        if name == "market"@ {
            m.market == Seq::<char>::empty()
        } else if name == "tickSize"@ {
            m.tick_size is None
        } else if name == "lotSize"@ {
            m.lot_size is None
        } else if name == "paused"@ {
            m.paused == false
        } else if name == "feeAsset"@ {
            m.fee_asset == Seq::<char>::empty()
        } else {
            true
        }
    }

    /// Whether reading `v` for the field whose JSON name is `name` leaves the field at
    /// its default: `null`, for a field that takes it (a message field, a member of a
    /// oneof); nothing, for any other field. `true` for a name that names no field.
    pub open spec fn spec_leaves_default(name: Seq<char>, v: JsonV) -> bool {
        if name == "market"@ {
            false
        } else if name == "tickSize"@ {
            v is Null
        } else if name == "lotSize"@ {
            v is Null
        } else if name == "paused"@ {
            false
        } else if name == "feeAsset"@ {
            false
        } else {
            true
        }
    }

    /// Reading one member keeps a field at its default unless the key names the field
    /// and the value does not leave it there.
    pub proof fn lemma_step_keeps_default(st: (UpdateMarketV, Seq<bool>), key: Seq<char>, v: JsonV, name: Seq<char>)
        requires
            Self::spec_holds_default(st.0, name),
            Self::spec_json_key(key) == name ==> Self::spec_leaves_default(name, v),
        ensures
            Self::spec_step(st, key, v) is Ok ==> Self::spec_holds_default(Self::spec_step(st, key, v)->Ok_0.0, name),
    {
        reveal_strlit("market");
        reveal_strlit("tickSize");
        reveal_strlit("tick_size");
        reveal_strlit("lotSize");
        reveal_strlit("lot_size");
        reveal_strlit("paused");
        reveal_strlit("feeAsset");
        reveal_strlit("fee_asset");
        assert("market"@.len() == 6);
        assert("tickSize"@.len() == 8);
        assert("tick_size"@.len() == 9);
        assert("lotSize"@.len() == 7);
        assert("lot_size"@.len() == 8);
        assert("paused"@.len() == 6);
        assert("feeAsset"@.len() == 8);
        assert("fee_asset"@.len() == 9);
        assert("market"@[0] != "paused"@[0]);
        assert("tickSize"@[0] != "lot_size"@[0]);
        assert("tickSize"@[0] != "feeAsset"@[0]);
        assert("tick_size"@[0] != "fee_asset"@[0]);
        assert("lot_size"@[0] != "feeAsset"@[0]);
        Self::lemma_step_json_key(st, key, v);
    }

    /// A field whose key appears in no member of an object, or only with values that
    /// leave it at its default (`null`, for a field that takes it), holds its default in
    /// the message that the object describes.
    pub proof fn lemma_absent_default(es: Seq<(Seq<char>, JsonV)>, name: Seq<char>)
        requires
            forall|i: int| 0 <= i < es.len() ==> (Self::spec_json_key((#[trigger] es[i]).0) == name
                ==> Self::spec_leaves_default(name, es[i].1)),
        ensures
            Self::spec_from_json(JsonV::Object(es)) is Ok
                ==> Self::spec_holds_default(Self::spec_from_json(JsonV::Object(es))->Ok_0, name),
    {
        let inv = |s: (UpdateMarketV, Seq<bool>)| Self::spec_holds_default(s.0, name);
        let allowed = |k: Seq<char>, v: JsonV| Self::spec_json_key(k) == name ==> Self::spec_leaves_default(name, v);
        assert forall|s: (UpdateMarketV, Seq<bool>), k: Seq<char>, v: JsonV| #![trigger Self::step_fn()(s, k, v)]
            inv(s) && allowed(k, v) && Self::step_fn()(s, k, v) is Ok implies inv(Self::step_fn()(s, k, v)->Ok_0) by {
            Self::lemma_step_keeps_default(s, k, v, name);
        }
        assert(inv(Self::spec_start()));
        lemma_fold_keeps(Self::spec_start(), es, Self::step_fn(), inv, allowed);
    }

    /// The field `market` alone: an object with one member under its JSON or protobuf
    /// name reads as the message with that field set and every other field at its
    /// default, and the message with only that field off its default writes that
    /// one member under the JSON name.
    pub proof fn lemma_field_market(s: Seq<char>)
        ensures
            Self::spec_from_json(JsonV::Object(seq![("market"@, JsonV::Str(s))])) == Ok::<UpdateMarketV, JsonErrorV>(UpdateMarketV { market: s, ..Self::spec_default() }),
            s.len() > 0 ==> Self::spec_to_json(UpdateMarketV { market: s, ..Self::spec_default() }) == JsonV::Object(seq![("market"@, JsonV::Str(s))]),
    {
        reveal_strlit("market");
        reveal_strlit("tickSize");
        reveal_strlit("tick_size");
        reveal_strlit("lotSize");
        reveal_strlit("lot_size");
        reveal_strlit("paused");
        reveal_strlit("feeAsset");
        reveal_strlit("fee_asset");
        assert("market"@.len() == 6);
        assert("tickSize"@.len() == 8);
        assert("tick_size"@.len() == 9);
        assert("lotSize"@.len() == 7);
        assert("lot_size"@.len() == 8);
        assert("paused"@.len() == 6);
        assert("feeAsset"@.len() == 8);
        assert("fee_asset"@.len() == 9);
        assert("market"@[0] != "paused"@[0]);
        assert("tickSize"@[0] != "lot_size"@[0]);
        assert("tickSize"@[0] != "feeAsset"@[0]);
        assert("tick_size"@[0] != "fee_asset"@[0]);
        assert("lot_size"@[0] != "feeAsset"@[0]);
        lemma_fold_entry_if(Self::spec_start(), true, "market"@, JsonV::Str(s), Self::step_fn());
    }

    /// The field `tick_size` alone: an object with one member under its JSON or protobuf
    /// name reads as the message with that field set and every other field at its
    /// default, and the message with only that field off its default writes that
    /// one member under the JSON name.
    pub proof fn lemma_field_tick_size(es: Seq<(Seq<char>, JsonV)>)
        ensures
            Self::spec_from_json(JsonV::Object(seq![("tickSize"@, JsonV::Object(es))])) == Ok::<UpdateMarketV, JsonErrorV>(UpdateMarketV { tick_size: Some(es), ..Self::spec_default() }),
            Self::spec_from_json(JsonV::Object(seq![("tickSize"@, JsonV::Null)])) == Ok::<UpdateMarketV, JsonErrorV>(Self::spec_default()),
            Self::spec_from_json(JsonV::Object(seq![("tick_size"@, JsonV::Object(es))])) == Ok::<UpdateMarketV, JsonErrorV>(UpdateMarketV { tick_size: Some(es), ..Self::spec_default() }),
            Self::spec_from_json(JsonV::Object(seq![("tick_size"@, JsonV::Null)])) == Ok::<UpdateMarketV, JsonErrorV>(Self::spec_default()),
            Self::spec_to_json(UpdateMarketV { tick_size: Some(es), ..Self::spec_default() }) == JsonV::Object(seq![("tickSize"@, JsonV::Object(es))]),
    {
        reveal_strlit("market");
        reveal_strlit("tickSize");
        reveal_strlit("tick_size");
        reveal_strlit("lotSize");
        reveal_strlit("lot_size");
        reveal_strlit("paused");
        reveal_strlit("feeAsset");
        reveal_strlit("fee_asset");
        assert("market"@.len() == 6);
        assert("tickSize"@.len() == 8);
        assert("tick_size"@.len() == 9);
        assert("lotSize"@.len() == 7);
        assert("lot_size"@.len() == 8);
        assert("paused"@.len() == 6);
        assert("feeAsset"@.len() == 8);
        assert("fee_asset"@.len() == 9);
        assert("market"@[0] != "paused"@[0]);
        assert("tickSize"@[0] != "lot_size"@[0]);
        assert("tickSize"@[0] != "feeAsset"@[0]);
        assert("tick_size"@[0] != "fee_asset"@[0]);
        assert("lot_size"@[0] != "feeAsset"@[0]);
        lemma_fold_entry_if(Self::spec_start(), true, "tickSize"@, JsonV::Object(es), Self::step_fn());
        lemma_fold_entry_if(Self::spec_start(), true, "tickSize"@, JsonV::Null, Self::step_fn());
        lemma_fold_entry_if(Self::spec_start(), true, "tick_size"@, JsonV::Object(es), Self::step_fn());
        lemma_fold_entry_if(Self::spec_start(), true, "tick_size"@, JsonV::Null, Self::step_fn());
    }

    /// The field `lot_size` alone: an object with one member under its JSON or protobuf
    /// name reads as the message with that field set and every other field at its
    /// default, and the message with only that field off its default writes that
    /// one member under the JSON name.
    pub proof fn lemma_field_lot_size(es: Seq<(Seq<char>, JsonV)>)
        ensures
            Self::spec_from_json(JsonV::Object(seq![("lotSize"@, JsonV::Object(es))])) == Ok::<UpdateMarketV, JsonErrorV>(UpdateMarketV { lot_size: Some(es), ..Self::spec_default() }),
            Self::spec_from_json(JsonV::Object(seq![("lotSize"@, JsonV::Null)])) == Ok::<UpdateMarketV, JsonErrorV>(Self::spec_default()),
            Self::spec_from_json(JsonV::Object(seq![("lot_size"@, JsonV::Object(es))])) == Ok::<UpdateMarketV, JsonErrorV>(UpdateMarketV { lot_size: Some(es), ..Self::spec_default() }),
            Self::spec_from_json(JsonV::Object(seq![("lot_size"@, JsonV::Null)])) == Ok::<UpdateMarketV, JsonErrorV>(Self::spec_default()),
            Self::spec_to_json(UpdateMarketV { lot_size: Some(es), ..Self::spec_default() }) == JsonV::Object(seq![("lotSize"@, JsonV::Object(es))]),
    {
        reveal_strlit("market");
        reveal_strlit("tickSize");
        reveal_strlit("tick_size");
        reveal_strlit("lotSize");
        reveal_strlit("lot_size");
        reveal_strlit("paused");
        reveal_strlit("feeAsset");
        reveal_strlit("fee_asset");
        assert("market"@.len() == 6);
        assert("tickSize"@.len() == 8);
        assert("tick_size"@.len() == 9);
        assert("lotSize"@.len() == 7);
        assert("lot_size"@.len() == 8);
        assert("paused"@.len() == 6);
        assert("feeAsset"@.len() == 8);
        assert("fee_asset"@.len() == 9);
        assert("market"@[0] != "paused"@[0]);
        assert("tickSize"@[0] != "lot_size"@[0]);
        assert("tickSize"@[0] != "feeAsset"@[0]);
        assert("tick_size"@[0] != "fee_asset"@[0]);
        assert("lot_size"@[0] != "feeAsset"@[0]);
        lemma_fold_entry_if(Self::spec_start(), true, "lotSize"@, JsonV::Object(es), Self::step_fn());
        lemma_fold_entry_if(Self::spec_start(), true, "lotSize"@, JsonV::Null, Self::step_fn());
        lemma_fold_entry_if(Self::spec_start(), true, "lot_size"@, JsonV::Object(es), Self::step_fn());
        lemma_fold_entry_if(Self::spec_start(), true, "lot_size"@, JsonV::Null, Self::step_fn());
    }

    /// The field `paused` alone: an object with one member under its JSON or protobuf
    /// name reads as the message with that field set and every other field at its
    /// default, and the message with only that field off its default writes that
    /// one member under the JSON name.
    pub proof fn lemma_field_paused(b: bool)
        ensures
            Self::spec_from_json(JsonV::Object(seq![("paused"@, JsonV::Bool(b))])) == Ok::<UpdateMarketV, JsonErrorV>(UpdateMarketV { paused: b, ..Self::spec_default() }),
            b ==> Self::spec_to_json(UpdateMarketV { paused: b, ..Self::spec_default() }) == JsonV::Object(seq![("paused"@, JsonV::Bool(true))]),
            !b ==> Self::spec_to_json(UpdateMarketV { paused: b, ..Self::spec_default() }) == JsonV::Object(Seq::empty()),
    {
        reveal_strlit("market");
        reveal_strlit("tickSize");
        reveal_strlit("tick_size");
        reveal_strlit("lotSize");
        reveal_strlit("lot_size");
        reveal_strlit("paused");
        reveal_strlit("feeAsset");
        reveal_strlit("fee_asset");
        assert("market"@.len() == 6);
        assert("tickSize"@.len() == 8);
        assert("tick_size"@.len() == 9);
        assert("lotSize"@.len() == 7);
        assert("lot_size"@.len() == 8);
        assert("paused"@.len() == 6);
        assert("feeAsset"@.len() == 8);
        assert("fee_asset"@.len() == 9);
        assert("market"@[0] != "paused"@[0]);
        assert("tickSize"@[0] != "lot_size"@[0]);
        assert("tickSize"@[0] != "feeAsset"@[0]);
        assert("tick_size"@[0] != "fee_asset"@[0]);
        assert("lot_size"@[0] != "feeAsset"@[0]);
        lemma_fold_entry_if(Self::spec_start(), true, "paused"@, JsonV::Bool(b), Self::step_fn());
    }

    /// The field `fee_asset` alone: an object with one member under its JSON or protobuf
    /// name reads as the message with that field set and every other field at its
    /// default, and the message with only that field off its default writes that
    /// one member under the JSON name.
    pub proof fn lemma_field_fee_asset(s: Seq<char>)
        ensures
            Self::spec_from_json(JsonV::Object(seq![("feeAsset"@, JsonV::Str(s))])) == Ok::<UpdateMarketV, JsonErrorV>(UpdateMarketV { fee_asset: s, ..Self::spec_default() }),
            Self::spec_from_json(JsonV::Object(seq![("fee_asset"@, JsonV::Str(s))])) == Ok::<UpdateMarketV, JsonErrorV>(UpdateMarketV { fee_asset: s, ..Self::spec_default() }),
            s.len() > 0 ==> Self::spec_to_json(UpdateMarketV { fee_asset: s, ..Self::spec_default() }) == JsonV::Object(seq![("feeAsset"@, JsonV::Str(s))]),
    {
        reveal_strlit("market");
        reveal_strlit("tickSize");
        reveal_strlit("tick_size");
        reveal_strlit("lotSize");
        reveal_strlit("lot_size");
        reveal_strlit("paused");
        reveal_strlit("feeAsset");
        reveal_strlit("fee_asset");
        assert("market"@.len() == 6);
        assert("tickSize"@.len() == 8);
        assert("tick_size"@.len() == 9);
        assert("lotSize"@.len() == 7);
        assert("lot_size"@.len() == 8);
        assert("paused"@.len() == 6);
        assert("feeAsset"@.len() == 8);
        assert("fee_asset"@.len() == 9);
        assert("market"@[0] != "paused"@[0]);
        assert("tickSize"@[0] != "lot_size"@[0]);
        assert("tickSize"@[0] != "feeAsset"@[0]);
        assert("tick_size"@[0] != "fee_asset"@[0]);
        assert("lot_size"@[0] != "feeAsset"@[0]);
        lemma_fold_entry_if(Self::spec_start(), true, "feeAsset"@, JsonV::Str(s), Self::step_fn());
        lemma_fold_entry_if(Self::spec_start(), true, "fee_asset"@, JsonV::Str(s), Self::step_fn());
    }

    /// Reading back the JSON object of a message gives the message.
    pub proof fn lemma_json_roundtrip(m: UpdateMarketV)
        ensures Self::spec_from_json(Self::spec_to_json(m)) == Ok::<UpdateMarketV, JsonErrorV>(m),
    {
        let step = Self::step_fn();
        let s0 = Self::spec_start();
        let s1 = (UpdateMarketV { market: m.market, ..s0.0 }, if m.market.len() != 0 { s0.1.update(0, true) } else { s0.1 });
        Self::lemma_entry_market(m, s0);
        let s2 = (UpdateMarketV { tick_size: m.tick_size, ..s1.0 }, s1.1);
        Self::lemma_entry_tick_size(m, s1);
        let s3 = (UpdateMarketV { lot_size: m.lot_size, ..s2.0 }, s2.1);
        Self::lemma_entry_lot_size(m, s2);
        let s4 = (UpdateMarketV { paused: m.paused, ..s3.0 }, if m.paused { s3.1.update(1, true) } else { s3.1 });
        Self::lemma_entry_paused(m, s3);
        let s5 = (UpdateMarketV { fee_asset: m.fee_asset, ..s4.0 }, if m.fee_asset.len() != 0 { s4.1.update(2, true) } else { s4.1 });
        Self::lemma_entry_fee_asset(m, s4);
        let p1 = Self::spec_entry_market(m);
        let p2 = p1 + Self::spec_entry_tick_size(m);
        lemma_fold_entries_append(s0, p1, Self::spec_entry_tick_size(m), step);
        let p3 = p2 + Self::spec_entry_lot_size(m);
        lemma_fold_entries_append(s0, p2, Self::spec_entry_lot_size(m), step);
        let p4 = p3 + Self::spec_entry_paused(m);
        lemma_fold_entries_append(s0, p3, Self::spec_entry_paused(m), step);
        let p5 = p4 + Self::spec_entry_fee_asset(m);
        lemma_fold_entries_append(s0, p4, Self::spec_entry_fee_asset(m), step);
        assert(s5.0 == m);
    }
}

/// The `astria.protocol.transaction.v1.ValidatorUpdate` message.
#[derive(Clone, Debug, PartialEq)]
pub struct ValidatorUpdate {
    pub pub_key: Option<PublicKey>,
    pub power: i64,
    pub name: String,
}

/// The mathematical content of a [`ValidatorUpdate`].
pub struct ValidatorUpdateV {
    pub pub_key: Option<Seq<(Seq<char>, JsonV)>>,
    pub power: i64,
    pub name: Seq<char>,
}

impl View for ValidatorUpdate {
    type V = ValidatorUpdateV;

    open spec fn view(&self) -> ValidatorUpdateV {
        ValidatorUpdateV {
            pub_key: opt_embedded_view(self.pub_key),
            power: self.power,
            name: self.name@,
        }
    }
}

impl Default for ValidatorUpdate {
    fn default() -> (r: Self)
        ensures r@ == ValidatorUpdate::spec_default(),
    {
        let r = ValidatorUpdate {
            pub_key: None,
            power: 0,
            name: String::new(),
        };
        r
    }
}

impl ValidatorUpdate {
    /// The fully qualified protobuf name of the message.
    pub fn full_name() -> (r: String)
        ensures r@ == "astria.protocol.transaction.v1.ValidatorUpdate"@,
    {
        "astria.protocol.transaction.v1.ValidatorUpdate".to_string()
    }

    /// Every field at its default: empty strings, bytes and lists, zero, `false`, unset.
    pub open spec fn spec_default() -> ValidatorUpdateV {
        ValidatorUpdateV {
            pub_key: None,
            power: 0,
            name: Seq::<char>::empty(),
        }
    }

    /// The view of an optional field of this message type.
    pub open spec fn view_opt(o: Option<Self>) -> Option<ValidatorUpdateV> {
        match o {
            Some(x) => Some(x@),
            None => None,
        }
    }

    /// The view of a repeated field of this message type.
    pub open spec fn view_list(v: Seq<Self>) -> Seq<ValidatorUpdateV> {
        v.map_values(|x: Self| x@)
    }

    /// The member that the field `pub_key` writes: none where it holds its default.
    pub open spec fn spec_entry_pub_key(m: ValidatorUpdateV) -> Seq<(Seq<char>, JsonV)> {
        entry_if(m.pub_key is Some, "pubKey"@, JsonV::Object(m.pub_key.unwrap()))
    }

    /// The member that the field `power` writes: none where it holds its default.
    pub open spec fn spec_entry_power(m: ValidatorUpdateV) -> Seq<(Seq<char>, JsonV)> {
        entry_if(m.power != 0, "power"@, JsonV::Str(signed_decimal(m.power as int)))
    }

    /// The member that the field `name` writes: none where it holds its default.
    pub open spec fn spec_entry_name(m: ValidatorUpdateV) -> Seq<(Seq<char>, JsonV)> {
        entry_if(m.name.len() != 0, "name"@, JsonV::Str(m.name))
    }

    /// The members of the JSON object of the message: each field that does not hold
    /// its default, under its JSON name, in the order of the fields.
    pub open spec fn spec_entries(m: ValidatorUpdateV) -> Seq<(Seq<char>, JsonV)> {
        Self::spec_entry_pub_key(m) + Self::spec_entry_power(m) + Self::spec_entry_name(m)
    }

    /// The JSON object that the protobuf JSON mapping writes for the message.
    pub open spec fn spec_to_json(m: ValidatorUpdateV) -> JsonV {
        JsonV::Object(Self::spec_entries(m))
    }

    /// [`Self::spec_to_json`] as a function value, for repeated fields.
    pub open spec fn writer() -> spec_fn(ValidatorUpdateV) -> JsonV {
        |m: ValidatorUpdateV| Self::spec_to_json(m)
    }

    fn write_pub_key(&self, es: &mut Vec<(String, Json)>)
        ensures
            view_entries(final(es)@) == view_entries(old(es)@) + Self::spec_entry_pub_key(self@),
    {
        match &self.pub_key {
            Some(x) => push_entry(es, "pubKey", embedded_value(x)),
            None => {},
        }
        assert(view_entries(es@) =~= view_entries(old(es)@) + Self::spec_entry_pub_key(self@));
    }

    fn write_power(&self, es: &mut Vec<(String, Json)>)
        ensures
            view_entries(final(es)@) == view_entries(old(es)@) + Self::spec_entry_power(self@),
    {
        if self.power != 0 {
            push_entry(es, "power", i64_value(self.power));
        }
        assert(view_entries(es@) =~= view_entries(old(es)@) + Self::spec_entry_power(self@));
    }

    fn write_name(&self, es: &mut Vec<(String, Json)>)
        ensures
            view_entries(final(es)@) == view_entries(old(es)@) + Self::spec_entry_name(self@),
    {
        if !self.name.as_str().is_empty() {
            push_entry(es, "name", string_value(&self.name));
        }
        assert(view_entries(es@) =~= view_entries(old(es)@) + Self::spec_entry_name(self@));
    }

    /// Writes the message as a JSON object; reading it back gives the message.
    pub fn to_json(&self) -> (r: Json)
        ensures
            r@ == Self::spec_to_json(self@),
            Self::spec_from_json(r@) == Ok::<ValidatorUpdateV, JsonErrorV>(self@),
    {
        let mut es: Vec<(String, Json)> = Vec::new();
        let ghost mut acc: Seq<(Seq<char>, JsonV)> = Seq::empty();
        proof {
            assert(view_entries(es@) =~= acc);
        }
        self.write_pub_key(&mut es);
        proof {
            acc = acc + Self::spec_entry_pub_key(self@);
        }
        self.write_power(&mut es);
        proof {
            acc = acc + Self::spec_entry_power(self@);
        }
        self.write_name(&mut es);
        proof {
            acc = acc + Self::spec_entry_name(self@);
        }
        proof {
            assert(acc =~= Self::spec_entries(self@));
            Self::lemma_json_roundtrip(self@);
        }
        Json::Object(es)
    }

    /// Reads one member of the object into the message under construction; `seen`
    /// records which fields that have no unset state were already given.
    pub open spec fn spec_step(st: (ValidatorUpdateV, Seq<bool>), key: Seq<char>, v: JsonV) -> Result<(ValidatorUpdateV, Seq<bool>), JsonErrorV> {
        let m = st.0;
        let seen = st.1;
        if key == "pubKey"@ || key == "pub_key"@ {
            if m.pub_key is Some {
                Err(JsonErrorV::DuplicateField("pubKey"@))
            } else {
                match read_embedded(v) {
                    Ok(x) => Ok((ValidatorUpdateV { pub_key: x, ..m }, seen)),
                    Err(e) => Err(e),
                }
            }
        } else if key == "power"@ {
            if seen[0] {
                Err(JsonErrorV::DuplicateField("power"@))
            } else {
                match read_i64(v) {
                    Ok(x) => Ok((ValidatorUpdateV { power: x, ..m }, seen.update(0, true))),
                    Err(e) => Err(e),
                }
            }
        } else if key == "name"@ {
            if seen[1] {
                Err(JsonErrorV::DuplicateField("name"@))
            } else {
                match read_string(v) {
                    Ok(x) => Ok((ValidatorUpdateV { name: x, ..m }, seen.update(1, true))),
                    Err(e) => Err(e),
                }
            }
        } else {
            Err(JsonErrorV::UnknownField(key))
        }
    }

    /// [`Self::spec_step`] as a function value.
    pub open spec fn step_fn() -> spec_fn((ValidatorUpdateV, Seq<bool>), Seq<char>, JsonV) -> Result<(ValidatorUpdateV, Seq<bool>), JsonErrorV> {
        |st: (ValidatorUpdateV, Seq<bool>), key: Seq<char>, v: JsonV| Self::spec_step(st, key, v)
    }

    /// The state before the first member is read: the default message, no field seen.
    pub open spec fn spec_start() -> (ValidatorUpdateV, Seq<bool>) {
        (Self::spec_default(), seq![false, false])
    }

    /// The message that a JSON value describes: an object whose keys each name a field
    /// (by its JSON name or its protobuf name), at most once each; fields that are not
    /// given keep their default. The first member that is refused gives the error.
    pub open spec fn spec_from_json(j: JsonV) -> Result<ValidatorUpdateV, JsonErrorV> {
        match j {
            JsonV::Object(es) => match fold_entries(Self::spec_start(), es, Self::step_fn()) {
                Ok(st) => Ok(st.0),
                Err(e) => Err(e),
            },
            _ => Err(JsonErrorV::ExpectedObject),
        }
    }

    /// [`Self::spec_from_json`] as a function value, for repeated fields.
    pub open spec fn reader() -> spec_fn(JsonV) -> Result<ValidatorUpdateV, JsonErrorV> {
        |v: JsonV| Self::spec_from_json(v)
    }

    /// An optional field of this message type: `null` leaves it unset.
    pub open spec fn spec_read_opt(v: JsonV) -> Result<Option<ValidatorUpdateV>, JsonErrorV> {
        match v {
            JsonV::Null => Ok(None),
            _ => match Self::spec_from_json(v) {
                Ok(x) => Ok(Some(x)),
                Err(e) => Err(e),
            },
        }
    }

    fn step(m: Self, seen: Vec<bool>, key: &String, v: &Json) -> (r: Result<(Self, Vec<bool>), JsonError>)
        requires seen@.len() == 2,
        ensures
            match r {
                Ok((m2, seen2)) => Self::spec_step((m@, seen@), key@, v@) == Ok::<(ValidatorUpdateV, Seq<bool>), JsonErrorV>((m2@, seen2@)) && seen2@.len() == 2,
                Err(e) => Self::spec_step((m@, seen@), key@, v@) == Err::<(ValidatorUpdateV, Seq<bool>), JsonErrorV>(e@),
            },
    {
        let mut m = m;
        let mut seen = seen;
        let k = key.as_str();
        if str_eq(k, "pubKey") || str_eq(k, "pub_key") {
            if m.pub_key.is_some() {
                return Err(JsonError::DuplicateField("pubKey".to_string()));
            }
            match embedded_field(v) {
                Ok(x) => m.pub_key = x,
                Err(e) => return Err(e),
            }
        } else if str_eq(k, "power") {
            if seen[0] {
                return Err(JsonError::DuplicateField("power".to_string()));
            }
            match i64_field(v) {
                Ok(x) => m.power = x,
                Err(e) => return Err(e),
            }
            seen.set(0, true);
        } else if str_eq(k, "name") {
            if seen[1] {
                return Err(JsonError::DuplicateField("name".to_string()));
            }
            match string_field(v) {
                Ok(x) => m.name = x,
                Err(e) => return Err(e),
            }
            seen.set(1, true);
        } else {
            return Err(JsonError::UnknownField(key.clone()));
        }
        Ok((m, seen))
    }

    /// Reads the message from a JSON value, as [`Self::spec_from_json`] describes.
    pub fn from_json(j: &Json) -> (r: Result<Self, JsonError>)
        ensures
            match r {
                Ok(m) => Self::spec_from_json(j@) == Ok::<ValidatorUpdateV, JsonErrorV>(m@),
                Err(e) => Self::spec_from_json(j@) == Err::<ValidatorUpdateV, JsonErrorV>(e@),
            },
    {
        let es = match j {
            Json::Object(es) => es,
            _ => return Err(JsonError::ExpectedObject),
        };
        let ghost ves = view_entries(es@);
        proof {
            lemma_view_entries_len(es@);
            assert(j@ == JsonV::Object(ves));
        }
        let mut m = Self::default();
        let mut seen: Vec<bool> = vec![false, false];
        let mut i: usize = 0;
        proof {
            assert(seen@ =~= Self::spec_start().1);
            assert(ves.skip(0) == ves);
        }
        while i < es.len()
            invariant
                j@ == JsonV::Object(ves),
                ves == view_entries(es@),
                ves.len() == es@.len(),
                i <= es.len(),
                seen@.len() == 2,
                fold_entries(Self::spec_start(), ves, Self::step_fn())
                    == fold_entries((m@, seen@), ves.skip(i as int), Self::step_fn()),
            decreases es.len() - i,
        {
            proof {
                lemma_view_entries_index(es@, i as int);
                lemma_fold_entries_step((m@, seen@), ves, i as int, Self::step_fn());
            }
            match Self::step(m, seen, &es[i].0, &es[i].1) {
                Ok((m2, seen2)) => {
                    m = m2;
                    seen = seen2;
                },
                Err(e) => return Err(e),
            }
            i = i + 1;
        }
        proof {
            assert(ves.skip(ves.len() as int) == Seq::<(Seq<char>, JsonV)>::empty());
            assert(fold_entries((m@, seen@), ves.skip(ves.len() as int), Self::step_fn())
                == Ok::<(ValidatorUpdateV, Seq<bool>), JsonErrorV>((m@, seen@)));
        }
        Ok(m)
    }

    /// Reads an optional field of this message type.
    pub fn opt_from_json(v: &Json) -> (r: Result<Option<Self>, JsonError>)
        ensures
            match r {
                Ok(None) => Self::spec_read_opt(v@) == Ok::<Option<ValidatorUpdateV>, JsonErrorV>(None),
                Ok(Some(x)) => Self::spec_read_opt(v@) == Ok::<Option<ValidatorUpdateV>, JsonErrorV>(Some(x@)),
                Err(e) => Self::spec_read_opt(v@) == Err::<Option<ValidatorUpdateV>, JsonErrorV>(e@),
            },
    {
        match v {
            Json::Null => Ok(None),
            _ => match Self::from_json(v) {
                Ok(x) => Ok(Some(x)),
                Err(e) => Err(e),
            },
        }
    }

    /// Reading the member that the field `pub_key` writes sets the field.
    pub proof fn lemma_entry_pub_key(m: ValidatorUpdateV, st: (ValidatorUpdateV, Seq<bool>))
        requires
            st.1.len() == 2,
            st.0.pub_key is None,
        ensures
            fold_entries(st, Self::spec_entry_pub_key(m), Self::step_fn()) == Ok::<(ValidatorUpdateV, Seq<bool>), JsonErrorV>((ValidatorUpdateV { pub_key: m.pub_key, ..st.0 }, st.1)),
    {
        reveal_strlit("pubKey");
        reveal_strlit("pub_key");
        reveal_strlit("power");
        reveal_strlit("name");
        assert("pubKey"@.len() == 6);
        assert("pub_key"@.len() == 7);
        assert("power"@.len() == 5);
        assert("name"@.len() == 4);
        lemma_fold_entry_if(st, m.pub_key is Some, "pubKey"@, JsonV::Object(m.pub_key.unwrap()), Self::step_fn());
    }

    /// Reading the member that the field `power` writes sets the field.
    pub proof fn lemma_entry_power(m: ValidatorUpdateV, st: (ValidatorUpdateV, Seq<bool>))
        requires
            st.1.len() == 2,
            !st.1[0],
            st.0.power == 0,
        ensures
            fold_entries(st, Self::spec_entry_power(m), Self::step_fn()) == Ok::<(ValidatorUpdateV, Seq<bool>), JsonErrorV>((ValidatorUpdateV { power: m.power, ..st.0 }, if m.power != 0 { st.1.update(0, true) } else { st.1 })),
    {
        reveal_strlit("pubKey");
        reveal_strlit("pub_key");
        reveal_strlit("power");
        reveal_strlit("name");
        assert("pubKey"@.len() == 6);
        assert("pub_key"@.len() == 7);
        assert("power"@.len() == 5);
        assert("name"@.len() == 4);
        lemma_read_i64_value(m.power);
        lemma_fold_entry_if(st, m.power != 0, "power"@, JsonV::Str(signed_decimal(m.power as int)), Self::step_fn());
    }

    /// Reading the member that the field `name` writes sets the field.
    pub proof fn lemma_entry_name(m: ValidatorUpdateV, st: (ValidatorUpdateV, Seq<bool>))
        requires
            st.1.len() == 2,
            !st.1[1],
            st.0.name == Seq::<char>::empty(),
        ensures
            fold_entries(st, Self::spec_entry_name(m), Self::step_fn()) == Ok::<(ValidatorUpdateV, Seq<bool>), JsonErrorV>((ValidatorUpdateV { name: m.name, ..st.0 }, if m.name.len() != 0 { st.1.update(1, true) } else { st.1 })),
    {
        reveal_strlit("pubKey");
        reveal_strlit("pub_key");
        reveal_strlit("power");
        reveal_strlit("name");
        assert("pubKey"@.len() == 6);
        assert("pub_key"@.len() == 7);
        assert("power"@.len() == 5);
        assert("name"@.len() == 4);
        if m.name.len() == 0 {
            assert(m.name =~= Seq::<char>::empty());
        }
        lemma_fold_entry_if(st, m.name.len() != 0, "name"@, JsonV::Str(m.name), Self::step_fn());
    }

    /// The JSON spelling of a key: the protobuf name of a field becomes its JSON name;
    /// a JSON name, and any key that names no field, is left as it is.
    pub open spec fn spec_json_key(key: Seq<char>) -> Seq<char> {
        if key == "pubKey"@ || key == "pub_key"@ {
            "pubKey"@
        } else if key == "power"@ {
            "power"@
        } else if key == "name"@ {
            "name"@
        } else {
            key
        }
    }

    /// [`Self::spec_json_key`] as a function value.
    pub open spec fn json_key_fn() -> spec_fn(Seq<char>) -> Seq<char> {
        |key: Seq<char>| Self::spec_json_key(key)
    }

    /// One member is read alike whichever spelling its key has.
    pub proof fn lemma_step_json_key(st: (ValidatorUpdateV, Seq<bool>), key: Seq<char>, v: JsonV)
        ensures Self::spec_step(st, key, v) == Self::spec_step(st, Self::spec_json_key(key), v),
    {
        reveal_strlit("pubKey");
        reveal_strlit("pub_key");
        reveal_strlit("power");
        reveal_strlit("name");
        assert("pubKey"@.len() == 6);
        assert("pub_key"@.len() == 7);
        assert("power"@.len() == 5);
        assert("name"@.len() == 4);
        if key == "pub_key"@ {
            assert(Self::spec_json_key(key) == "pubKey"@);
        }
    }

    /// Reading an object gives the same result whichever spelling each of its keys has:
    /// two objects whose members hold the same values, in the same order, under keys of
    /// the same JSON spelling describe the same message, or are refused with the same error.
    pub proof fn lemma_key_spelling(es1: Seq<(Seq<char>, JsonV)>, es2: Seq<(Seq<char>, JsonV)>)
        requires
            es1.len() == es2.len(),
            forall|i: int| #![trigger es1[i], es2[i]] 0 <= i < es1.len() ==> es1[i].1 == es2[i].1 && Self::spec_json_key(es1[i].0) == Self::spec_json_key(es2[i].0),
        ensures Self::spec_from_json(JsonV::Object(es1)) == Self::spec_from_json(JsonV::Object(es2)),
    {
        assert forall|s: (ValidatorUpdateV, Seq<bool>), k: Seq<char>, v: JsonV|
            #![trigger Self::step_fn()(s, k, v), Self::json_key_fn()(k)]
            Self::step_fn()(s, k, v) == Self::step_fn()(s, Self::json_key_fn()(k), v) by {
            Self::lemma_step_json_key(s, k, v);
        }
        lemma_fold_same_keys(Self::spec_start(), es1, es2, Self::step_fn(), Self::json_key_fn());
    }

    /// The keys of the object that the message writes: the JSON names of the fields that
    /// do not hold their default (for a oneof, the JSON name of the member set), in the
    /// order of the fields.
    pub open spec fn spec_written_keys(m: ValidatorUpdateV) -> Seq<Seq<char>> {
        key_if(m.pub_key is Some, "pubKey"@)
            + key_if(m.power != 0, "power"@)
            + key_if(m.name.len() != 0, "name"@)
    }

    /// The object that the message writes has exactly the keys of
    /// [`Self::spec_written_keys`], in that order.
    pub proof fn lemma_written_keys(m: ValidatorUpdateV)
        ensures
            Self::spec_to_json(m) == JsonV::Object(Self::spec_entries(m)),
            entry_keys(Self::spec_entries(m)) == Self::spec_written_keys(m),
    {
        lemma_entry_keys_if(m.pub_key is Some, "pubKey"@, JsonV::Object(m.pub_key.unwrap()));
        lemma_entry_keys_append(Self::spec_entry_pub_key(m), m.power != 0, "power"@, JsonV::Str(signed_decimal(m.power as int)));
        lemma_entry_keys_append(Self::spec_entry_pub_key(m) + Self::spec_entry_power(m), m.name.len() != 0, "name"@, JsonV::Str(m.name));
    }

    /// Whether the field whose JSON name is `name` holds its default in `m`; for a member
    /// of a oneof, whether the oneof is set to another member or unset. `true` for a name
    /// that names no field.
    pub open spec fn spec_holds_default(m: ValidatorUpdateV, name: Seq<char>) -> bool {
        if name == "pubKey"@ {
            m.pub_key is None
        } else if name == "power"@ {
            m.power == 0
        } else if name == "name"@ {
            m.name == Seq::<char>::empty()
        } else {
            true
        }
    }

    /// Whether reading `v` for the field whose JSON name is `name` leaves the field at
    /// its default: `null`, for a field that takes it (a message field, a member of a
    /// oneof); nothing, for any other field. `true` for a name that names no field.
    pub open spec fn spec_leaves_default(name: Seq<char>, v: JsonV) -> bool {
        if name == "pubKey"@ {
            v is Null
        } else if name == "power"@ {
            false
        } else if name == "name"@ {
            false
        } else {
            true
        }
    }

    /// Reading one member keeps a field at its default unless the key names the field
    /// and the value does not leave it there.
    pub proof fn lemma_step_keeps_default(st: (ValidatorUpdateV, Seq<bool>), key: Seq<char>, v: JsonV, name: Seq<char>)
        requires
            Self::spec_holds_default(st.0, name),
            Self::spec_json_key(key) == name ==> Self::spec_leaves_default(name, v),
        ensures
            Self::spec_step(st, key, v) is Ok ==> Self::spec_holds_default(Self::spec_step(st, key, v)->Ok_0.0, name),
    {
        reveal_strlit("pubKey");
        reveal_strlit("pub_key");
        reveal_strlit("power");
        reveal_strlit("name");
        assert("pubKey"@.len() == 6);
        assert("pub_key"@.len() == 7);
        assert("power"@.len() == 5);
        assert("name"@.len() == 4);
        Self::lemma_step_json_key(st, key, v);
    }

    /// A field whose key appears in no member of an object, or only with values that
    /// leave it at its default (`null`, for a field that takes it), holds its default in
    /// the message that the object describes.
    pub proof fn lemma_absent_default(es: Seq<(Seq<char>, JsonV)>, name: Seq<char>)
        requires
            forall|i: int| 0 <= i < es.len() ==> (Self::spec_json_key((#[trigger] es[i]).0) == name
                ==> Self::spec_leaves_default(name, es[i].1)),
        ensures
            Self::spec_from_json(JsonV::Object(es)) is Ok
                ==> Self::spec_holds_default(Self::spec_from_json(JsonV::Object(es))->Ok_0, name),
    {
        let inv = |s: (ValidatorUpdateV, Seq<bool>)| Self::spec_holds_default(s.0, name);
        let allowed = |k: Seq<char>, v: JsonV| Self::spec_json_key(k) == name ==> Self::spec_leaves_default(name, v);
        assert forall|s: (ValidatorUpdateV, Seq<bool>), k: Seq<char>, v: JsonV| #![trigger Self::step_fn()(s, k, v)]
            inv(s) && allowed(k, v) && Self::step_fn()(s, k, v) is Ok implies inv(Self::step_fn()(s, k, v)->Ok_0) by {
            Self::lemma_step_keeps_default(s, k, v, name);
        }
        assert(inv(Self::spec_start()));
        lemma_fold_keeps(Self::spec_start(), es, Self::step_fn(), inv, allowed);
    }

    /// The field `pub_key` alone: an object with one member under its JSON or protobuf
    /// name reads as the message with that field set and every other field at its
    /// default, and the message with only that field off its default writes that
    /// one member under the JSON name.
    pub proof fn lemma_field_pub_key(es: Seq<(Seq<char>, JsonV)>)
        ensures
            Self::spec_from_json(JsonV::Object(seq![("pubKey"@, JsonV::Object(es))])) == Ok::<ValidatorUpdateV, JsonErrorV>(ValidatorUpdateV { pub_key: Some(es), ..Self::spec_default() }),
            Self::spec_from_json(JsonV::Object(seq![("pubKey"@, JsonV::Null)])) == Ok::<ValidatorUpdateV, JsonErrorV>(Self::spec_default()),
            Self::spec_from_json(JsonV::Object(seq![("pub_key"@, JsonV::Object(es))])) == Ok::<ValidatorUpdateV, JsonErrorV>(ValidatorUpdateV { pub_key: Some(es), ..Self::spec_default() }),
            Self::spec_from_json(JsonV::Object(seq![("pub_key"@, JsonV::Null)])) == Ok::<ValidatorUpdateV, JsonErrorV>(Self::spec_default()),
            Self::spec_to_json(ValidatorUpdateV { pub_key: Some(es), ..Self::spec_default() }) == JsonV::Object(seq![("pubKey"@, JsonV::Object(es))]),
    {
        reveal_strlit("pubKey");
        reveal_strlit("pub_key");
        reveal_strlit("power");
        reveal_strlit("name");
        assert("pubKey"@.len() == 6);
        assert("pub_key"@.len() == 7);
        assert("power"@.len() == 5);
        assert("name"@.len() == 4);
        lemma_fold_entry_if(Self::spec_start(), true, "pubKey"@, JsonV::Object(es), Self::step_fn());
        lemma_fold_entry_if(Self::spec_start(), true, "pubKey"@, JsonV::Null, Self::step_fn());
        lemma_fold_entry_if(Self::spec_start(), true, "pub_key"@, JsonV::Object(es), Self::step_fn());
        lemma_fold_entry_if(Self::spec_start(), true, "pub_key"@, JsonV::Null, Self::step_fn());
    }

    /// The field `power` alone: an object with one member under its JSON or protobuf
    /// name reads as the message with that field set and every other field at its
    /// default, and the message with only that field off its default writes that
    /// one member under the JSON name.
    pub proof fn lemma_field_power(v: i64)
        ensures
            Self::spec_from_json(JsonV::Object(seq![("power"@, JsonV::Signed(v))])) == Ok::<ValidatorUpdateV, JsonErrorV>(ValidatorUpdateV { power: v, ..Self::spec_default() }),
            Self::spec_from_json(JsonV::Object(seq![("power"@, JsonV::Str(signed_decimal(v as int)))])) == Ok::<ValidatorUpdateV, JsonErrorV>(ValidatorUpdateV { power: v, ..Self::spec_default() }),
            v != 0 ==> Self::spec_to_json(ValidatorUpdateV { power: v, ..Self::spec_default() }) == JsonV::Object(seq![("power"@, JsonV::Str(signed_decimal(v as int)))]),
    {
        reveal_strlit("pubKey");
        reveal_strlit("pub_key");
        reveal_strlit("power");
        reveal_strlit("name");
        assert("pubKey"@.len() == 6);
        assert("pub_key"@.len() == 7);
        assert("power"@.len() == 5);
        assert("name"@.len() == 4);
        lemma_read_i64_value(v);
        lemma_fold_entry_if(Self::spec_start(), true, "power"@, JsonV::Signed(v), Self::step_fn());
        lemma_fold_entry_if(Self::spec_start(), true, "power"@, JsonV::Str(signed_decimal(v as int)), Self::step_fn());
    }

    /// The field `name` alone: an object with one member under its JSON or protobuf
    /// name reads as the message with that field set and every other field at its
    /// default, and the message with only that field off its default writes that
    /// one member under the JSON name.
    pub proof fn lemma_field_name(s: Seq<char>)
        ensures
            Self::spec_from_json(JsonV::Object(seq![("name"@, JsonV::Str(s))])) == Ok::<ValidatorUpdateV, JsonErrorV>(ValidatorUpdateV { name: s, ..Self::spec_default() }),
            s.len() > 0 ==> Self::spec_to_json(ValidatorUpdateV { name: s, ..Self::spec_default() }) == JsonV::Object(seq![("name"@, JsonV::Str(s))]),
    {
        reveal_strlit("pubKey");
        reveal_strlit("pub_key");
        reveal_strlit("power");
        reveal_strlit("name");
        assert("pubKey"@.len() == 6);
        assert("pub_key"@.len() == 7);
        assert("power"@.len() == 5);
        assert("name"@.len() == 4);
        lemma_fold_entry_if(Self::spec_start(), true, "name"@, JsonV::Str(s), Self::step_fn());
    }

    /// Reading back the JSON object of a message gives the message.
    pub proof fn lemma_json_roundtrip(m: ValidatorUpdateV)
        ensures Self::spec_from_json(Self::spec_to_json(m)) == Ok::<ValidatorUpdateV, JsonErrorV>(m),
    {
        let step = Self::step_fn();
        let s0 = Self::spec_start();
        let s1 = (ValidatorUpdateV { pub_key: m.pub_key, ..s0.0 }, s0.1);
        Self::lemma_entry_pub_key(m, s0);
        let s2 = (ValidatorUpdateV { power: m.power, ..s1.0 }, if m.power != 0 { s1.1.update(0, true) } else { s1.1 });
        Self::lemma_entry_power(m, s1);
        let s3 = (ValidatorUpdateV { name: m.name, ..s2.0 }, if m.name.len() != 0 { s2.1.update(1, true) } else { s2.1 });
        Self::lemma_entry_name(m, s2);
        let p1 = Self::spec_entry_pub_key(m);
        let p2 = p1 + Self::spec_entry_power(m);
        lemma_fold_entries_append(s0, p1, Self::spec_entry_power(m), step);
        let p3 = p2 + Self::spec_entry_name(m);
        lemma_fold_entries_append(s0, p2, Self::spec_entry_name(m), step);
        assert(s3.0 == m);
    }
}
} // verus!
