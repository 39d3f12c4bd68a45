use astria_core::embedded::Embedded;
use astria_core::json::{Json, JsonError};
use astria_core::protocol::orderbook::v1::{
    Order, OrderMatch, OrderSide, OrderSideInner, OrderTimeInForce, OrderTimeInForceInner,
    OrderType, OrderTypeInner, Orderbook, OrderbookEntry,
};

fn s(x: &str) -> Json {
    Json::Str(x.to_string())
}

fn obj(entries: Vec<(&str, Json)>) -> Json {
    Json::Object(entries.into_iter().map(|(k, v)| (k.to_string(), v)).collect())
}

fn amount(lo: u64) -> Embedded {
    Embedded { fields: vec![("lo".to_string(), s(&lo.to_string()))] }
}

#[test]
fn enumeration_names_and_numbers() {
    assert_eq!(OrderSideInner::Buy.as_str_name(), "ORDER_SIDE_INNER_BUY");
    assert_eq!(OrderSideInner::from_str_name("ORDER_SIDE_INNER_SELL"), Some(OrderSideInner::Sell));
    assert_eq!(OrderSideInner::from_str_name("SELL"), None);
    assert_eq!(OrderSideInner::Sell.value(), 2);
    assert_eq!(OrderSideInner::from_i32(1), Some(OrderSideInner::Buy));
    assert_eq!(OrderSideInner::from_i32(3), None);
    assert_eq!(OrderTimeInForceInner::Fok.as_str_name(), "ORDER_TIME_IN_FORCE_INNER_FOK");
    assert_eq!(OrderTimeInForceInner::from_i32(2), Some(OrderTimeInForceInner::Ioc));
    assert_eq!(OrderTypeInner::Market.value(), 2);
    assert_eq!(OrderTypeInner::from_str_name("ORDER_TYPE_INNER_LIMIT"), Some(OrderTypeInner::Limit));
    assert_eq!(OrderSideInner::default(), OrderSideInner::Unspecified);
}

#[test]
fn every_enumeration_value_reads_back() {
    for v in [OrderSideInner::Unspecified, OrderSideInner::Buy, OrderSideInner::Sell] {
        assert_eq!(OrderSideInner::from_json(&v.to_json()), Ok(v));
        assert_eq!(OrderSideInner::from_i32(v.value()), Some(v));
    }
    for v in [
        OrderTimeInForceInner::Unspecified,
        OrderTimeInForceInner::Gtc,
        OrderTimeInForceInner::Ioc,
        OrderTimeInForceInner::Fok,
    ] {
        assert_eq!(OrderTimeInForceInner::from_json(&v.to_json()), Ok(v));
        assert_eq!(OrderTimeInForceInner::from_str_name(v.as_str_name()), Some(v));
    }
}

#[test]
fn enumeration_read_from_json() {
    assert_eq!(OrderTypeInner::from_json(&Json::Unsigned(1)), Ok(OrderTypeInner::Limit));
    assert_eq!(OrderTypeInner::from_json(&Json::Signed(2)), Ok(OrderTypeInner::Market));
    assert_eq!(OrderTypeInner::from_json(&Json::Unsigned(3)), Err(JsonError::InvalidEnumValue));
    assert_eq!(OrderTypeInner::from_json(&Json::Signed(-1)), Err(JsonError::InvalidEnumValue));
    assert_eq!(
        OrderTypeInner::from_json(&Json::Unsigned(1 << 40)),
        Err(JsonError::InvalidEnumValue)
    );
    assert_eq!(
        OrderTypeInner::from_json(&s("LIMIT")),
        Err(JsonError::UnknownVariant("LIMIT".to_string()))
    );
    assert_eq!(OrderTypeInner::from_json(&Json::Null), Err(JsonError::InvalidType));
    assert_eq!(OrderTypeInner::from_json(&Json::Bool(true)), Err(JsonError::InvalidType));
}

#[test]
fn order_side_writes_its_enumeration_by_name() {
    let side = OrderSide { inner: 1 };
    let j = side.to_json().unwrap();
    assert_eq!(j, obj(vec![("inner", s("ORDER_SIDE_INNER_BUY"))]));
    assert_eq!(OrderSide::from_json(&j), Ok(side));
    assert_eq!(OrderSide { inner: 0 }.to_json(), Ok(obj(vec![])));
}

#[test]
fn order_side_with_an_unknown_number_cannot_be_written() {
    assert_eq!(OrderSide { inner: 7 }.to_json(), Err(JsonError::InvalidVariant(7)));
    assert_eq!(OrderType { inner: -1 }.to_json(), Err(JsonError::InvalidVariant(-1)));
}

#[test]
fn order_side_reads_names_and_numbers() {
    assert_eq!(OrderSide::from_json(&obj(vec![("inner", Json::Unsigned(2))])), Ok(OrderSide { inner: 2 }));
    assert_eq!(
        OrderSide::from_json(&obj(vec![("inner", s("ORDER_SIDE_INNER_SELL"))])),
        Ok(OrderSide { inner: 2 })
    );
    assert_eq!(
        OrderSide::from_json(&obj(vec![("inner", Json::Unsigned(5))])),
        Err(JsonError::InvalidEnumValue)
    );
    assert_eq!(
        OrderTimeInForce::from_json(&obj(vec![("inner", s("GTC"))])),
        Err(JsonError::UnknownVariant("GTC".to_string()))
    );
    assert_eq!(
        OrderTimeInForce::from_json(&obj(vec![("inner", s("ORDER_TIME_IN_FORCE_INNER_GTC")), ("inner", s("ORDER_TIME_IN_FORCE_INNER_IOC"))])),
        Err(JsonError::DuplicateField("inner".to_string()))
    );
}

fn sample_order() -> Order {
    Order {
        id: "o-1".to_string(),
        owner: Some(Embedded { fields: vec![("bech32m".to_string(), s("astria1xyz"))] }),
        market: "BTC/USD".to_string(),
        side: Some(OrderSide { inner: 2 }),
        order_type: Some(OrderType { inner: 1 }),
        price: Some(amount(100)),
        quantity: Some(amount(3)),
        remaining_quantity: None,
        created_at: 1_700_000_000,
        time_in_force: Some(OrderTimeInForce { inner: 1 }),
        fee_asset: "nria".to_string(),
    }
}

#[test]
fn order_roundtrip() {
    let order = sample_order();
    let j = order.to_json().unwrap();
    assert_eq!(
        j,
        obj(vec![
            ("id", s("o-1")),
            ("owner", obj(vec![("bech32m", s("astria1xyz"))])),
            ("market", s("BTC/USD")),
            ("side", obj(vec![("inner", s("ORDER_SIDE_INNER_SELL"))])),
            ("type", obj(vec![("inner", s("ORDER_TYPE_INNER_LIMIT"))])),
            ("price", obj(vec![("lo", s("100"))])),
            ("quantity", obj(vec![("lo", s("3"))])),
            ("createdAt", s("1700000000")),
            ("timeInForce", obj(vec![("inner", s("ORDER_TIME_IN_FORCE_INNER_GTC"))])),
            ("feeAsset", s("nria")),
        ])
    );
    assert_eq!(Order::from_json(&j), Ok(order));
}

#[test]
fn an_order_with_a_bad_side_is_not_written() {
    let mut order = sample_order();
    order.side = Some(OrderSide { inner: 9 });
    order.time_in_force = Some(OrderTimeInForce { inner: 8 });
    assert_eq!(order.to_json(), Err(JsonError::InvalidVariant(9)));
}

#[test]
fn null_leaves_an_optional_message_unset() {
    let j = obj(vec![("side", Json::Null), ("remaining_quantity", Json::Null), ("created_at", Json::Unsigned(5))]);
    let order = Order::from_json(&j).unwrap();
    assert_eq!(order.side, None);
    assert_eq!(order.remaining_quantity, None);
    assert_eq!(order.created_at, 5);
}

#[test]
fn an_embedded_message_must_be_an_object() {
    assert_eq!(
        Order::from_json(&obj(vec![("price", s("100"))])),
        Err(JsonError::ExpectedObject)
    );
}

#[test]
fn order_match_roundtrip() {
    let m = OrderMatch {
        id: "m".to_string(),
        market: "ETH/USD".to_string(),
        price: Some(amount(7)),
        quantity: None,
        maker_order_id: "a".to_string(),
        taker_order_id: "b".to_string(),
        taker_side: Some(OrderSide { inner: 1 }),
        timestamp: 12,
    };
    let j = m.to_json().unwrap();
    assert_eq!(OrderMatch::from_json(&j), Ok(m.clone()));
    let snake = obj(vec![("maker_order_id", s("a")), ("taker_side", obj(vec![("inner", Json::Unsigned(1))]))]);
    let read = OrderMatch::from_json(&snake).unwrap();
    assert_eq!(read.maker_order_id, "a");
    assert_eq!(read.taker_side, Some(OrderSide { inner: 1 }));
}

#[test]
fn orderbook_lists_roundtrip() {
    let book = Orderbook {
        market: "BTC/USD".to_string(),
        bids: vec![
            OrderbookEntry { price: Some(amount(99)), quantity: Some(amount(1)), order_count: 2 },
            OrderbookEntry { price: None, quantity: None, order_count: 0 },
        ],
        asks: vec![],
    };
    let j = book.to_json();
    assert_eq!(
        j,
        obj(vec![
            ("market", s("BTC/USD")),
            (
                "bids",
                Json::Array(vec![
                    obj(vec![
                        ("price", obj(vec![("lo", s("99"))])),
                        ("quantity", obj(vec![("lo", s("1"))])),
                        ("orderCount", Json::Unsigned(2)),
                    ]),
                    obj(vec![]),
                ])
            ),
        ])
    );
    assert_eq!(Orderbook::from_json(&j), Ok(book));
}

#[test]
fn a_list_must_be_an_array_of_objects() {
    assert_eq!(Orderbook::from_json(&obj(vec![("asks", obj(vec![]))])), Err(JsonError::InvalidType));
    assert_eq!(
        Orderbook::from_json(&obj(vec![("asks", Json::Array(vec![obj(vec![]), s("x")]))])),
        Err(JsonError::ExpectedObject)
    );
    assert_eq!(
        Orderbook::from_json(&obj(vec![("bids", Json::Array(vec![obj(vec![("orderCount", Json::Unsigned(1 << 33))])]))])),
        Err(JsonError::InvalidNumber)
    );
}

#[test]
fn orderbook_full_names() {
    assert_eq!(Order::full_name(), "astria.protocol.orderbook.v1.Order");
    assert_eq!(OrderbookEntry::full_name(), "astria.protocol.orderbook.v1.OrderbookEntry");
    assert_eq!(OrderTimeInForce::full_name(), "astria.protocol.orderbook.v1.OrderTimeInForce");
}
