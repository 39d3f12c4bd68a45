use astria_core::embedded::Embedded;
use astria_core::google::protobuf::Any;
use astria_core::json::{Json, JsonError};
use astria_core::protocol::orderbook::v1::{OrderSide, OrderTimeInForce, OrderType};
use astria_core::protocol::transaction::v1::action::Value;
use astria_core::protocol::transaction::v1::fee_change::FeeComponents;
use astria_core::protocol::transaction::v1::markets_change::Action as MarketsAction;
use astria_core::protocol::transaction::v1::{
    Action, CreateOrder, FeeChange, Markets, MarketsChange, RollupDataSubmission, Transaction,
    TransactionBody, TransactionParams, Transfer, ValidatorUpdate,
};

fn s(x: &str) -> Json {
    Json::Str(x.to_string())
}

fn obj(entries: Vec<(&str, Json)>) -> Json {
    Json::Object(entries.into_iter().map(|(k, v)| (k.to_string(), v)).collect())
}

fn emb(entries: Vec<(&str, Json)>) -> Embedded {
    Embedded { fields: entries.into_iter().map(|(k, v)| (k.to_string(), v)).collect() }
}

fn transfer_action() -> Action {
    Action {
        value: Some(Value::Transfer(Transfer {
            to: Some(emb(vec![("bech32m", s("astria1abc"))])),
            amount: Some(emb(vec![("lo", s("10"))])),
            asset: "nria".to_string(),
            fee_asset: String::new(),
        })),
    }
}

#[test]
fn bytes_are_written_in_base64() {
    let sub = RollupDataSubmission { rollup_id: None, data: vec![1, 2, 3], fee_asset: String::new() };
    let j = sub.to_json();
    assert_eq!(j, obj(vec![("data", s("AQID"))]));
    assert_eq!(RollupDataSubmission::from_json(&j), Ok(sub));
}

#[test]
fn bytes_are_read_from_either_base64_alphabet_with_or_without_padding() {
    let read = |t: &str| RollupDataSubmission::from_json(&obj(vec![("data", s(t))])).map(|m| m.data);
    assert_eq!(read("AQID"), Ok(vec![1, 2, 3]));
    assert_eq!(read("+/8="), Ok(vec![0xfb, 0xff]));
    assert_eq!(read("-_8"), Ok(vec![0xfb, 0xff]));
    assert_eq!(read(""), Ok(vec![]));
    assert_eq!(read("!!"), Err(JsonError::InvalidBase64));
    assert_eq!(
        RollupDataSubmission::from_json(&obj(vec![("data", Json::Unsigned(1))])),
        Err(JsonError::InvalidType)
    );
}

#[test]
fn transaction_roundtrip() {
    let tx = Transaction {
        signature: vec![0xde, 0xad, 0xbe, 0xef],
        public_key: vec![7; 32],
        body: Some(Any {
            type_url: "/astria.protocol.transaction.v1.TransactionBody".to_string(),
            value: vec![0],
        }),
    };
    let j = tx.to_json();
    match &j {
        Json::Object(es) => {
            assert_eq!(es[0], ("signature".to_string(), s("3q2+7w==")));
            assert_eq!(es[1].0, "publicKey");
        }
        _ => panic!("not an object"),
    }
    assert_eq!(Transaction::from_json(&j), Ok(tx));
}

#[test]
fn signed_numbers_are_written_as_strings() {
    let update = ValidatorUpdate { pub_key: None, power: -5, name: "v".to_string() };
    let j = update.to_json();
    assert_eq!(j, obj(vec![("power", s("-5")), ("name", s("v"))]));
    assert_eq!(ValidatorUpdate::from_json(&j), Ok(update));
    let min = ValidatorUpdate::from_json(&obj(vec![("power", s("-9223372036854775808"))])).unwrap();
    assert_eq!(min.power, i64::MIN);
    assert_eq!(
        ValidatorUpdate::from_json(&obj(vec![("power", Json::Unsigned(u64::MAX))])),
        Err(JsonError::InvalidNumber)
    );
    assert_eq!(ValidatorUpdate::from_json(&obj(vec![("power", Json::Signed(-2))])).unwrap().power, -2);
}

#[test]
fn action_oneof_writes_the_member_that_is_set() {
    let j = transfer_action().to_json().unwrap();
    assert_eq!(
        j,
        obj(vec![(
            "transfer",
            obj(vec![
                ("to", obj(vec![("bech32m", s("astria1abc"))])),
                ("amount", obj(vec![("lo", s("10"))])),
                ("asset", s("nria")),
            ])
        )])
    );
    assert_eq!(Action::from_json(&j), Ok(transfer_action()));
    assert_eq!(Action::default().to_json(), Ok(obj(vec![])));
}

#[test]
fn action_oneof_takes_one_member() {
    let j = obj(vec![("transfer", obj(vec![])), ("cancel_order", obj(vec![]))]);
    assert_eq!(Action::from_json(&j), Err(JsonError::DuplicateField("cancelOrder".to_string())));
    let j = obj(vec![("transfer", Json::Null), ("cancelOrder", obj(vec![("orderId", s("x"))]))]);
    match Action::from_json(&j).unwrap().value {
        Some(Value::CancelOrder(c)) => assert_eq!(c.order_id, "x"),
        other => panic!("{other:?}"),
    }
}

#[test]
fn create_order_with_a_bad_side_cannot_be_written_nor_its_transaction_body() {
    let order = CreateOrder {
        market: "m".to_string(),
        side: Some(OrderSide { inner: 4 }),
        order_type: Some(OrderType { inner: 1 }),
        price: None,
        quantity: None,
        time_in_force: Some(OrderTimeInForce { inner: 0 }),
        fee_asset: String::new(),
    };
    assert_eq!(order.to_json(), Err(JsonError::InvalidVariant(4)));
    let body = TransactionBody {
        params: Some(TransactionParams { nonce: 1, chain_id: "c".to_string() }),
        actions: vec![transfer_action(), Action { value: Some(Value::CreateOrder(order)) }],
    };
    assert_eq!(body.to_json(), Err(JsonError::InvalidVariant(4)));
}

#[test]
fn transaction_body_roundtrip() {
    let body = TransactionBody {
        params: Some(TransactionParams { nonce: 3, chain_id: "astria".to_string() }),
        actions: vec![
            transfer_action(),
            Action {
                value: Some(Value::CreateOrder(CreateOrder {
                    market: "BTC/USD".to_string(),
                    side: Some(OrderSide { inner: 1 }),
                    order_type: None,
                    price: None,
                    quantity: None,
                    time_in_force: None,
                    fee_asset: "nria".to_string(),
                })),
            },
        ],
    };
    let j = body.to_json().unwrap();
    match &j {
        Json::Object(es) => {
            assert_eq!(es[0], ("params".to_string(), obj(vec![("nonce", Json::Unsigned(3)), ("chainId", s("astria"))])));
        }
        _ => panic!("not an object"),
    }
    assert_eq!(TransactionBody::from_json(&j), Ok(body));
}

#[test]
fn fee_change_and_markets_change_oneofs() {
    let fc = FeeChange { fee_components: Some(FeeComponents::CreateMarket(emb(vec![("base", obj(vec![]))]))) };
    let j = fc.to_json();
    assert_eq!(j, obj(vec![("createMarket", obj(vec![("base", obj(vec![]))]))]));
    assert_eq!(FeeChange::from_json(&j), Ok(fc));
    assert_eq!(
        FeeChange::from_json(&obj(vec![("ics20_withdrawal", obj(vec![]))])).unwrap().fee_components,
        Some(FeeComponents::Ics20Withdrawal(emb(vec![])))
    );
    let mc = MarketsChange { action: Some(MarketsAction::Removal(Markets { markets: vec![emb(vec![])] })) };
    let j = mc.to_json();
    assert_eq!(j, obj(vec![("removal", obj(vec![("markets", Json::Array(vec![obj(vec![])]))]))]));
    assert_eq!(MarketsChange::from_json(&j), Ok(mc));
}

#[test]
fn nonce_is_a_plain_integer() {
    let p = TransactionParams::from_json(&obj(vec![("nonce", s("12"))])).unwrap();
    assert_eq!(p.nonce, 12);
    assert_eq!(
        TransactionParams::from_json(&obj(vec![("nonce", Json::Unsigned(1 << 32))])),
        Err(JsonError::InvalidNumber)
    );
    assert_eq!(TransactionParams { nonce: 9, chain_id: String::new() }.to_json(), obj(vec![("nonce", Json::Unsigned(9))]));
}

#[test]
fn transaction_v1_full_names() {
    assert_eq!(Action::full_name(), "astria.protocol.transaction.v1.Action");
    assert_eq!(TransactionBody::full_name(), "astria.protocol.transaction.v1.TransactionBody");
}

#[test]
fn any_reads_and_writes_its_two_fields() {
    let j = obj(vec![("type_url", s("/t")), ("value", s("AQI="))]);
    let any = Any::from_json(&j).unwrap();
    assert_eq!(any, Any { type_url: "/t".to_string(), value: vec![1, 2] });
    assert_eq!(any.to_json(), obj(vec![("typeUrl", s("/t")), ("value", s("AQI="))]));
    assert_eq!(Any::from_json(&obj(vec![("value", s("*"))])), Err(JsonError::InvalidBase64));
    assert_eq!(
        Any::from_json(&obj(vec![("@type", s("/t"))])),
        Err(JsonError::UnknownField("@type".to_string()))
    );
    assert_eq!(
        Transaction::from_json(&obj(vec![("body", obj(vec![("typeUrl", s("/t")), ("extra", Json::Null)]))])),
        Err(JsonError::UnknownField("extra".to_string()))
    );
    assert_eq!(Any::full_name(), "google.protobuf.Any");
}

#[test]
fn oneof_members_after_the_first_set_one_are_duplicates() {
    let j = obj(vec![("transfer", Json::Null), ("bridge_lock", obj(vec![])), ("transfer", Json::Null)]);
    assert_eq!(FeeChange::from_json(&j), Err(JsonError::DuplicateField("transfer".to_string())));
    let j = obj(vec![("transfer", obj(vec![])), ("bridge_lock", obj(vec![]))]);
    assert_eq!(Action::from_json(&j), Err(JsonError::DuplicateField("bridgeLock".to_string())));
    let j = obj(vec![("transfer", Json::Null), ("ibc_relay", obj(vec![]))]);
    assert_eq!(
        FeeChange::from_json(&j).unwrap().fee_components,
        Some(FeeComponents::IbcRelay(emb(vec![])))
    );
    assert_eq!(FeeChange::from_json(&obj(vec![("transfer", Json::Null)])), Ok(FeeChange::default()));
}

#[test]
fn decimal_writing_of_extreme_numbers() {
    let min = ValidatorUpdate { pub_key: None, power: i64::MIN, name: String::new() };
    assert_eq!(min.to_json(), obj(vec![("power", s("-9223372036854775808"))]));
    let max = ValidatorUpdate { pub_key: None, power: i64::MAX, name: String::new() };
    assert_eq!(max.to_json(), obj(vec![("power", s("9223372036854775807"))]));
    let ten = ValidatorUpdate { pub_key: None, power: 10, name: String::new() };
    assert_eq!(ten.to_json(), obj(vec![("power", s("10"))]));
}
