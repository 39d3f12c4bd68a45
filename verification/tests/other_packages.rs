use astria_core::embedded::Embedded;
use astria_core::google::protobuf::Any;
use astria_core::json::{Json, JsonError};
use astria_core::protocol::genesis;
use astria_core::protocol::price_feed::v1::{ExtendedCommitInfoWithCurrencyPairMapping, IdWithCurrencyPair};
use astria_core::protocol::transaction;
use astria_core::protocol::transactions::v1alpha1::{
    fee_asset_change, SignedTransaction, TransactionFeeResponse, TransactionParams,
    UnsignedTransaction,
};

fn s(x: &str) -> Json {
    Json::Str(x.to_string())
}

fn obj(entries: Vec<(&str, Json)>) -> Json {
    Json::Object(entries.into_iter().map(|(k, v)| (k.to_string(), v)).collect())
}

fn emb(entries: Vec<(&str, Json)>) -> Embedded {
    Embedded { fields: entries.into_iter().map(|(k, v)| (k.to_string(), v)).collect() }
}

#[test]
fn genesis_app_state_roundtrip() {
    let state = genesis::v1::GenesisAppState {
        chain_id: "astria-1".to_string(),
        address_prefixes: Some(genesis::v1::AddressPrefixes { base: "astria".to_string(), ibc_compat: "astriacompat".to_string() }),
        accounts: vec![genesis::v1::Account { address: Some(emb(vec![("bech32m", s("a"))])), balance: Some(emb(vec![("lo", s("1"))])) }],
        authority_sudo_address: None,
        ibc_sudo_address: Some(emb(vec![])),
        ibc_relayer_addresses: vec![emb(vec![("bech32m", s("r"))])],
        native_asset_base_denomination: "nria".to_string(),
        ibc_parameters: Some(genesis::v1::IbcParameters { ibc_enabled: true, inbound_ics20_transfers_enabled: false, outbound_ics20_transfers_enabled: true }),
        allowed_fee_assets: vec!["nria".to_string(), "usdc".to_string()],
        fees: Some(genesis::v1::GenesisFees { bridge_transfer: Some(emb(vec![])), ..Default::default() }),
    };
    let j = state.to_json();
    assert_eq!(genesis::v1::GenesisAppState::from_json(&j), Ok(state));
    match &j {
        Json::Object(es) => {
            let keys: Vec<&str> = es.iter().map(|(k, _)| k.as_str()).collect();
            assert_eq!(keys, vec!["chainId", "addressPrefixes", "accounts", "ibcSudoAddress", "ibcRelayerAddresses", "nativeAssetBaseDenomination", "ibcParameters", "allowedFeeAssets", "fees"]);
        }
        _ => panic!("not an object"),
    }
}

#[test]
fn ibc_parameters_write_only_true_flags() {
    let p = genesis::v1alpha1::IbcParameters { ibc_enabled: false, inbound_ics20_transfers_enabled: true, outbound_ics20_transfers_enabled: false };
    assert_eq!(p.to_json(), obj(vec![("inboundIcs20TransfersEnabled", Json::Bool(true))]));
    assert_eq!(
        genesis::v1alpha1::IbcParameters::from_json(&obj(vec![("ibc_enabled", s("true"))])),
        Err(JsonError::InvalidType)
    );
    let read = genesis::v1alpha1::IbcParameters::from_json(&obj(vec![("ibc_enabled", Json::Bool(false))])).unwrap();
    assert_eq!(read, genesis::v1alpha1::IbcParameters::default());
}

#[test]
fn a_list_of_strings_takes_only_strings() {
    let ok = genesis::v1alpha1::GenesisAppState::from_json(&obj(vec![("allowedFeeAssets", Json::Array(vec![s("a"), s("b")]))])).unwrap();
    assert_eq!(ok.allowed_fee_assets, vec!["a".to_string(), "b".to_string()]);
    assert_eq!(
        genesis::v1alpha1::GenesisAppState::from_json(&obj(vec![("allowed_fee_assets", Json::Array(vec![s("a"), Json::Null]))])),
        Err(JsonError::InvalidType)
    );
    assert_eq!(
        genesis::v1alpha1::GenesisAppState::from_json(&obj(vec![("ibcRelayerAddresses", Json::Array(vec![s("a")]))])),
        Err(JsonError::ExpectedObject)
    );
}

#[test]
fn price_feed_roundtrip() {
    let m = ExtendedCommitInfoWithCurrencyPairMapping {
        extended_commit_info: Some(emb(vec![("round", Json::Unsigned(1))])),
        id_to_currency_pair: vec![
            IdWithCurrencyPair { id: 0, currency_pair: Some(emb(vec![("Base", s("BTC")), ("Quote", s("USD"))])), decimals: 8 },
            IdWithCurrencyPair { id: 1, currency_pair: None, decimals: 0 },
        ],
    };
    let j = m.to_json();
    assert_eq!(ExtendedCommitInfoWithCurrencyPairMapping::from_json(&j), Ok(m));
    assert_eq!(
        IdWithCurrencyPair { id: 3, currency_pair: None, decimals: 6 }.to_json(),
        obj(vec![("id", s("3")), ("decimals", s("6"))])
    );
}

#[test]
fn transaction_v1alpha1_roundtrip() {
    let body = transaction::v1alpha1::TransactionBody {
        params: Some(transaction::v1alpha1::TransactionParams { nonce: 1, chain_id: "c".to_string() }),
        actions: vec![transaction::v1alpha1::Action {
            value: Some(transaction::v1alpha1::action::Value::ValidatorUpdate(emb(vec![("power", s("10"))]))),
        }],
    };
    let j = body.to_json();
    assert_eq!(
        j,
        obj(vec![
            ("params", obj(vec![("nonce", Json::Unsigned(1)), ("chainId", s("c"))])),
            ("actions", Json::Array(vec![obj(vec![("validatorUpdate", obj(vec![("power", s("10"))]))])])),
        ])
    );
    assert_eq!(transaction::v1alpha1::TransactionBody::from_json(&j), Ok(body));
}

#[test]
fn transactions_v1alpha1_signed_and_unsigned() {
    let signed = SignedTransaction { signature: vec![], public_key: vec![255], transaction: Some(Any::default()) };
    let j = signed.to_json();
    assert_eq!(j, obj(vec![("publicKey", s("/w==")), ("transaction", obj(vec![]))]));
    assert_eq!(SignedTransaction::from_json(&j), Ok(signed));
    let unsigned = UnsignedTransaction { actions: vec![], params: Some(TransactionParams { nonce: 0, chain_id: String::new() }) };
    assert_eq!(unsigned.to_json(), obj(vec![("params", obj(vec![]))]));
    let fees = TransactionFeeResponse { height: 10, fees: vec![emb(vec![("asset", s("nria"))])] };
    let j = fees.to_json();
    assert_eq!(j, obj(vec![("height", s("10")), ("fees", Json::Array(vec![obj(vec![("asset", s("nria"))])]))]));
    assert_eq!(TransactionFeeResponse::from_json(&j), Ok(fees));
}

#[test]
fn a_string_oneof_member() {
    let j = obj(vec![("removal", s("nria"))]);
    let m = astria_core::protocol::transactions::v1alpha1::FeeAssetChange::from_json(&j).unwrap();
    assert_eq!(m.value, Some(fee_asset_change::Value::Removal("nria".to_string())));
    assert_eq!(m.to_json(), j);
    assert_eq!(
        astria_core::protocol::transactions::v1alpha1::FeeAssetChange::from_json(&obj(vec![("addition", Json::Unsigned(1))])),
        Err(JsonError::InvalidType)
    );
}

#[test]
fn other_full_names() {
    assert_eq!(genesis::v1::GenesisFees::full_name(), "astria.protocol.genesis.v1.GenesisFees");
    assert_eq!(IdWithCurrencyPair::full_name(), "astria.protocol.price_feed.v1.IdWithCurrencyPair");
    assert_eq!(transaction::v1alpha1::Transfer::full_name(), "astria.protocol.transaction.v1alpha1.Transfer");
    assert_eq!(SignedTransaction::full_name(), "astria.protocol.transactions.v1alpha1.SignedTransaction");
}

#[test]
fn fees_keys_read_alike_in_either_spelling() {
    let camel = obj(vec![("transferBaseFee", obj(vec![("lo", s("1"))])), ("ics20WithdrawalBaseFee", Json::Null)]);
    let snake = obj(vec![("transfer_base_fee", obj(vec![("lo", s("1"))])), ("ics20_withdrawal_base_fee", Json::Null)]);
    let a = genesis::v1alpha1::Fees::from_json(&camel);
    assert_eq!(a, genesis::v1alpha1::Fees::from_json(&snake));
    let fees = a.unwrap();
    assert_eq!(fees.transfer_base_fee, Some(emb(vec![("lo", s("1"))])));
    assert_eq!(fees.ics20_withdrawal_base_fee, None);
    let dup = obj(vec![("transferBaseFee", obj(vec![])), ("transfer_base_fee", obj(vec![]))]);
    assert_eq!(genesis::v1alpha1::Fees::from_json(&dup), Err(JsonError::DuplicateField("transferBaseFee".to_string())));
}

#[test]
fn absent_or_null_fields_are_unset() {
    let j = obj(vec![("bridgeLock", Json::Null), ("transfer", obj(vec![]))]);
    let fees = genesis::v1::GenesisFees::from_json(&j).unwrap();
    assert_eq!(fees.bridge_lock, None);
    assert_eq!(fees.validator_update, None);
    assert_eq!(fees.transfer, Some(emb(vec![])));
    assert_eq!(genesis::v1::GenesisFees::from_json(&obj(vec![])), Ok(genesis::v1::GenesisFees::default()));
}

#[test]
fn written_keys_are_the_fields_off_their_default() {
    let w = transaction::v1::Ics20Withdrawal::default();
    assert_eq!(w.to_json(), obj(vec![]));
    let w = transaction::v1::Ics20Withdrawal {
        denom: "nria".to_string(),
        timeout_time: 5,
        use_compat_address: true,
        ..Default::default()
    };
    match w.to_json() {
        Json::Object(es) => {
            let keys: Vec<&str> = es.iter().map(|(k, _)| k.as_str()).collect();
            assert_eq!(keys, vec!["denom", "timeoutTime", "useCompatAddress"]);
        }
        _ => panic!("not an object"),
    }
}
