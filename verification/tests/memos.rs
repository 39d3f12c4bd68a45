use astria_core::json::{Json, JsonError};
use astria_core::protocol::memos::v1alpha1::{
    BridgeUnlock, Ics20TransferDeposit, Ics20WithdrawalFromRollup,
};

fn s(x: &str) -> Json {
    Json::Str(x.to_string())
}

fn obj(entries: Vec<(&str, Json)>) -> Json {
    Json::Object(entries.into_iter().map(|(k, v)| (k.to_string(), v)).collect())
}

#[test]
fn bridge_unlock_writes_numbers_as_strings_and_skips_defaults() {
    let memo = BridgeUnlock {
        rollup_block_number: 42,
        rollup_transaction_hash: "0xabc".to_string(),
        rollup_exec_result_hash: String::new(),
    };
    let j = memo.to_json();
    assert_eq!(
        j,
        obj(vec![("rollupBlockNumber", s("42")), ("rollupTransactionHash", s("0xabc"))])
    );
    assert_eq!(BridgeUnlock::from_json(&j), Ok(memo));
}

#[test]
fn default_message_writes_empty_object() {
    let memo = BridgeUnlock::default();
    assert_eq!(memo.to_json(), obj(vec![]));
    assert_eq!(BridgeUnlock::from_json(&obj(vec![])), Ok(memo));
}

#[test]
fn both_spellings_of_a_key_are_read() {
    let camel = obj(vec![("rollupBlockNumber", s("7")), ("rollupReturnAddress", s("r"))]);
    let snake = obj(vec![("rollup_block_number", s("7")), ("rollup_return_address", s("r"))]);
    let a = Ics20WithdrawalFromRollup::from_json(&camel).unwrap();
    let b = Ics20WithdrawalFromRollup::from_json(&snake).unwrap();
    assert_eq!(a, b);
    assert_eq!(a.rollup_block_number, 7);
    assert_eq!(a.rollup_return_address, "r");
    assert_eq!(a.memo, "");
}

#[test]
fn a_field_given_twice_is_refused() {
    let j = obj(vec![("rollupBlockNumber", s("1")), ("rollup_block_number", s("2"))]);
    assert_eq!(
        BridgeUnlock::from_json(&j),
        Err(JsonError::DuplicateField("rollupBlockNumber".to_string()))
    );
}

#[test]
fn an_unknown_key_is_refused() {
    let j = obj(vec![("rollupDepositAddress", s("a")), ("extra", Json::Null)]);
    assert_eq!(
        Ics20TransferDeposit::from_json(&j),
        Err(JsonError::UnknownField("extra".to_string()))
    );
}

#[test]
fn a_value_that_is_no_object_is_refused() {
    assert_eq!(Ics20TransferDeposit::from_json(&s("x")), Err(JsonError::ExpectedObject));
    assert_eq!(Ics20TransferDeposit::from_json(&Json::Null), Err(JsonError::ExpectedObject));
}

#[test]
fn numbers_are_read_from_strings_and_integers() {
    let from_int = BridgeUnlock::from_json(&obj(vec![("rollupBlockNumber", Json::Unsigned(9))]));
    assert_eq!(from_int.unwrap().rollup_block_number, 9);
    let from_plus = BridgeUnlock::from_json(&obj(vec![("rollupBlockNumber", s("+9"))]));
    assert_eq!(from_plus.unwrap().rollup_block_number, 9);
    let max = BridgeUnlock::from_json(&obj(vec![("rollupBlockNumber", s("18446744073709551615"))]));
    assert_eq!(max.unwrap().rollup_block_number, u64::MAX);
    for bad in ["18446744073709551616", "-1", "", "1.5", " 1", "abc"] {
        assert_eq!(
            BridgeUnlock::from_json(&obj(vec![("rollupBlockNumber", s(bad))])),
            Err(JsonError::InvalidNumber),
            "{bad}"
        );
    }
    assert_eq!(
        BridgeUnlock::from_json(&obj(vec![("rollupBlockNumber", Json::Signed(-3))])),
        Err(JsonError::InvalidNumber)
    );
    assert_eq!(
        BridgeUnlock::from_json(&obj(vec![("rollupBlockNumber", Json::Bool(true))])),
        Err(JsonError::InvalidNumber)
    );
}

#[test]
fn a_string_field_takes_only_strings() {
    assert_eq!(
        Ics20TransferDeposit::from_json(&obj(vec![("rollupDepositAddress", Json::Unsigned(1))])),
        Err(JsonError::InvalidType)
    );
    assert_eq!(
        Ics20TransferDeposit::from_json(&obj(vec![("rollupDepositAddress", Json::Null)])),
        Err(JsonError::InvalidType)
    );
}

#[test]
fn the_first_refused_member_gives_the_error() {
    let j = obj(vec![("nope", s("a")), ("rollupBlockNumber", s("x"))]);
    assert_eq!(BridgeUnlock::from_json(&j), Err(JsonError::UnknownField("nope".to_string())));
    let j = obj(vec![("rollupBlockNumber", s("x")), ("nope", s("a"))]);
    assert_eq!(BridgeUnlock::from_json(&j), Err(JsonError::InvalidNumber));
}

#[test]
fn full_names() {
    assert_eq!(BridgeUnlock::full_name(), "astria.protocol.memos.v1alpha1.BridgeUnlock");
    assert_eq!(
        Ics20WithdrawalFromRollup::full_name(),
        "astria.protocol.memos.v1alpha1.Ics20WithdrawalFromRollup"
    );
    assert_eq!(
        Ics20TransferDeposit::full_name(),
        "astria.protocol.memos.v1alpha1.Ics20TransferDeposit"
    );
}

#[test]
fn ics20_withdrawal_roundtrip_keeps_every_field() {
    let memo = Ics20WithdrawalFromRollup {
        rollup_block_number: u64::MAX,
        rollup_transaction_hash: "h".to_string(),
        rollup_return_address: "ret".to_string(),
        memo: "hello".to_string(),
        rollup_exec_result_hash: "e".to_string(),
    };
    let j = memo.to_json();
    assert_eq!(
        j,
        obj(vec![
            ("rollupBlockNumber", s("18446744073709551615")),
            ("rollupTransactionHash", s("h")),
            ("rollupReturnAddress", s("ret")),
            ("memo", s("hello")),
            ("rollupExecResultHash", s("e")),
        ])
    );
    assert_eq!(Ics20WithdrawalFromRollup::from_json(&j), Ok(memo));
}
