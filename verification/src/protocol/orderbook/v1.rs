//! Orders and order books of the sequencer's markets.
//!
//! Each message is read from and written to JSON as the protobuf JSON mapping
//! does it (`astria.protocol.orderbook.v1`).

use vstd::prelude::*;
use crate::decimal::decimal;
use crate::embedded::{embedded_field, embedded_value, opt_embedded_view};
use crate::fields::{
    lemma_read_u64_value, read_embedded, read_string, read_u32, read_u64, string_field,
    string_value, u32_field, u64_field, u64_value,
};
use crate::json::{
    entry_if, fold_entries, lemma_fold_entries_append, lemma_fold_entries_step, lemma_fold_entry_if,
    lemma_view_entries_index, lemma_view_entries_len, lemma_view_items_index, lemma_view_items_len,
    push_entry, str_eq, view_entries, view_items, Json, JsonError, JsonErrorV, JsonV, entry_keys,
    key_if, lemma_entry_keys_if, lemma_entry_keys_append, lemma_fold_same_keys, lemma_fold_keeps,
};
use crate::lists::{
    lemma_read_list_next, lemma_read_list_prefix_error, lemma_read_list_roundtrip, read_array,
    read_list,
};
use crate::foreign::{Address, Uint128};

verus! {

/// The `astria.protocol.orderbook.v1.OrderSideInner` enumeration.
#[derive(Clone, Copy, Debug, PartialEq, Eq, Hash, PartialOrd, Ord)]
pub enum OrderSideInner {
    Unspecified,
    Buy,
    Sell,
}

impl Default for OrderSideInner {
    fn default() -> (r: Self)
        ensures r == OrderSideInner::Unspecified,
    {
        OrderSideInner::Unspecified
    }
}

impl OrderSideInner {
    /// The number of the value.
    pub open spec fn spec_value(self) -> i32 {
        match self {
            OrderSideInner::Unspecified => 0,
            OrderSideInner::Buy => 1,
            OrderSideInner::Sell => 2,
        }
    }

    /// The number of the value.
    pub fn value(&self) -> (r: i32)
        ensures r == self.spec_value(),
    {
        match self {
            OrderSideInner::Unspecified => 0,
            OrderSideInner::Buy => 1,
            OrderSideInner::Sell => 2,
        }
    }

    /// The value with a number, if there is one.
    pub open spec fn spec_from_i32(v: i32) -> Option<Self> {
        if v == 0 {
            Some(OrderSideInner::Unspecified)
        } else if v == 1 {
            Some(OrderSideInner::Buy)
        } else if v == 2 {
            Some(OrderSideInner::Sell)
        } else {
            None
        }
    }

    /// The value with a number, if there is one.
    pub fn from_i32(v: i32) -> (r: Option<Self>)
        ensures r == Self::spec_from_i32(v),
    {
        if v == 0 {
            Some(OrderSideInner::Unspecified)
        } else if v == 1 {
            Some(OrderSideInner::Buy)
        } else if v == 2 {
            Some(OrderSideInner::Sell)
        } else {
            None
        }
    }

    /// The name of the value in the protobuf definition.
    pub open spec fn spec_name(self) -> Seq<char> {
        match self {
            OrderSideInner::Unspecified => "ORDER_SIDE_INNER_UNSPECIFIED"@,
            OrderSideInner::Buy => "ORDER_SIDE_INNER_BUY"@,
            OrderSideInner::Sell => "ORDER_SIDE_INNER_SELL"@,
        }
    }

    /// The name of the value in the protobuf definition.
    pub fn as_str_name(&self) -> (r: &'static str)
        ensures r@ == self.spec_name(),
    {
        match self {
            OrderSideInner::Unspecified => "ORDER_SIDE_INNER_UNSPECIFIED",
            OrderSideInner::Buy => "ORDER_SIDE_INNER_BUY",
            OrderSideInner::Sell => "ORDER_SIDE_INNER_SELL",
        }
    }

    /// The value with a name, if there is one.
    pub open spec fn spec_from_name(s: Seq<char>) -> Option<Self> {
        if s == "ORDER_SIDE_INNER_UNSPECIFIED"@ {
            Some(OrderSideInner::Unspecified)
        } else if s == "ORDER_SIDE_INNER_BUY"@ {
            Some(OrderSideInner::Buy)
        } else if s == "ORDER_SIDE_INNER_SELL"@ {
            Some(OrderSideInner::Sell)
        } else {
            None
        }
    }

    /// The value with a name, if there is one.
    pub fn from_str_name(s: &str) -> (r: Option<Self>)
        ensures r == Self::spec_from_name(s@),
    {
        if str_eq(s, "ORDER_SIDE_INNER_UNSPECIFIED") {
            Some(OrderSideInner::Unspecified)
        } else if str_eq(s, "ORDER_SIDE_INNER_BUY") {
            Some(OrderSideInner::Buy)
        } else if str_eq(s, "ORDER_SIDE_INNER_SELL") {
            Some(OrderSideInner::Sell)
        } else {
            None
        }
    }

    /// Each value is found again by its number and by its name.
    pub proof fn lemma_names(x: Self)
        ensures
            Self::spec_from_i32(x.spec_value()) == Some(x),
            Self::spec_from_name(x.spec_name()) == Some(x),
    {
        reveal_strlit("ORDER_SIDE_INNER_UNSPECIFIED");
        reveal_strlit("ORDER_SIDE_INNER_BUY");
        reveal_strlit("ORDER_SIDE_INNER_SELL");
        assert("ORDER_SIDE_INNER_UNSPECIFIED"@.len() == 28);
        assert("ORDER_SIDE_INNER_BUY"@.len() == 20);
        assert("ORDER_SIDE_INNER_SELL"@.len() == 21);
        match x {
            OrderSideInner::Unspecified => {},
            OrderSideInner::Buy => {},
            OrderSideInner::Sell => {},
        }
    }

    /// The value that a JSON value describes: its name as a string, or its number as
    /// an integer. A string that names no value, a number that is no value's, and any
    /// other JSON value are refused.
    pub open spec fn spec_from_json(v: JsonV) -> Result<Self, JsonErrorV> {
        match v {
            JsonV::Str(s) => match Self::spec_from_name(s) {
                Some(x) => Ok(x),
                None => Err(JsonErrorV::UnknownVariant(s)),
            },
            JsonV::Unsigned(n) => if n <= 0x7fff_ffff {
                match Self::spec_from_i32(n as i32) {
                    Some(x) => Ok(x),
                    None => Err(JsonErrorV::InvalidEnumValue),
                }
            } else {
                Err(JsonErrorV::InvalidEnumValue)
            },
            JsonV::Signed(n) => if -0x8000_0000 <= n <= 0x7fff_ffff {
                match Self::spec_from_i32(n as i32) {
                    Some(x) => Ok(x),
                    None => Err(JsonErrorV::InvalidEnumValue),
                }
            } else {
                Err(JsonErrorV::InvalidEnumValue)
            },
            _ => Err(JsonErrorV::InvalidType),
        }
    }

    /// Reads the value from a JSON value, as [`Self::spec_from_json`] describes.
    pub fn from_json(v: &Json) -> (r: Result<Self, JsonError>)
        ensures
            match r {
                Ok(x) => Self::spec_from_json(v@) == Ok::<Self, JsonErrorV>(x),
                Err(e) => Self::spec_from_json(v@) == Err::<Self, JsonErrorV>(e@),
            },
    {
        match v {
            Json::Str(s) => match Self::from_str_name(s.as_str()) {
                Some(x) => Ok(x),
                None => Err(JsonError::UnknownVariant(s.clone())),
            },
            Json::Unsigned(n) => if *n <= 0x7fff_ffff {
                match Self::from_i32(*n as i32) {
                    Some(x) => Ok(x),
                    None => Err(JsonError::InvalidEnumValue),
                }
            } else {
                Err(JsonError::InvalidEnumValue)
            },
            Json::Signed(n) => if -0x8000_0000 <= *n && *n <= 0x7fff_ffff {
                match Self::from_i32(*n as i32) {
                    Some(x) => Ok(x),
                    None => Err(JsonError::InvalidEnumValue),
                }
            } else {
                Err(JsonError::InvalidEnumValue)
            },
            _ => Err(JsonError::InvalidType),
        }
    }

    /// Writes the value as its name; reading it back gives the value.
    pub fn to_json(&self) -> (r: Json)
        ensures
            r@ == JsonV::Str(self.spec_name()),
            Self::spec_from_json(r@) == Ok::<Self, JsonErrorV>(*self),
    {
        proof {
            Self::lemma_names(*self);
        }
        Json::Str(self.as_str_name().to_string())
    }

    /// The name written for an enumeration field that holds `v`.
    pub open spec fn spec_name_of(v: i32) -> Seq<char> {
        match Self::spec_from_i32(v) {
            Some(x) => x.spec_name(),
            None => Seq::empty(),
        }
    }

    /// An enumeration field: the number of the value that the JSON value describes.
    pub open spec fn spec_read_number(v: JsonV) -> Result<i32, JsonErrorV> {
        match Self::spec_from_json(v) {
            Ok(x) => Ok(x.spec_value()),
            Err(e) => Err(e),
        }
    }

    /// Reads an enumeration field, as [`Self::spec_read_number`] describes.
    pub fn number_field(v: &Json) -> (r: Result<i32, JsonError>)
        ensures
            match r {
                Ok(n) => Self::spec_read_number(v@) == Ok::<i32, JsonErrorV>(n),
                Err(e) => Self::spec_read_number(v@) == Err::<i32, JsonErrorV>(e@),
            },
    {
        match Self::from_json(v) {
            Ok(x) => Ok(x.value()),
            Err(e) => Err(e),
        }
    }

    /// The names and numbers of the values, as the protobuf definition gives them: each
    /// value has its name and number, and is read from either.
    pub proof fn lemma_value_table()
        ensures
            OrderSideInner::Unspecified.spec_name() == "ORDER_SIDE_INNER_UNSPECIFIED"@,
            OrderSideInner::Unspecified.spec_value() == 0,
            OrderSideInner::spec_from_name("ORDER_SIDE_INNER_UNSPECIFIED"@) == Some(OrderSideInner::Unspecified),
            OrderSideInner::spec_from_i32(0) == Some(OrderSideInner::Unspecified),
            OrderSideInner::spec_from_json(JsonV::Str("ORDER_SIDE_INNER_UNSPECIFIED"@)) == Ok::<OrderSideInner, JsonErrorV>(OrderSideInner::Unspecified),
            OrderSideInner::spec_from_json(JsonV::Unsigned(0)) == Ok::<OrderSideInner, JsonErrorV>(OrderSideInner::Unspecified),
            OrderSideInner::Buy.spec_name() == "ORDER_SIDE_INNER_BUY"@,
            OrderSideInner::Buy.spec_value() == 1,
            OrderSideInner::spec_from_name("ORDER_SIDE_INNER_BUY"@) == Some(OrderSideInner::Buy),
            OrderSideInner::spec_from_i32(1) == Some(OrderSideInner::Buy),
            OrderSideInner::spec_from_json(JsonV::Str("ORDER_SIDE_INNER_BUY"@)) == Ok::<OrderSideInner, JsonErrorV>(OrderSideInner::Buy),
            OrderSideInner::spec_from_json(JsonV::Unsigned(1)) == Ok::<OrderSideInner, JsonErrorV>(OrderSideInner::Buy),
            OrderSideInner::Sell.spec_name() == "ORDER_SIDE_INNER_SELL"@,
            OrderSideInner::Sell.spec_value() == 2,
            OrderSideInner::spec_from_name("ORDER_SIDE_INNER_SELL"@) == Some(OrderSideInner::Sell),
            OrderSideInner::spec_from_i32(2) == Some(OrderSideInner::Sell),
            OrderSideInner::spec_from_json(JsonV::Str("ORDER_SIDE_INNER_SELL"@)) == Ok::<OrderSideInner, JsonErrorV>(OrderSideInner::Sell),
            OrderSideInner::spec_from_json(JsonV::Unsigned(2)) == Ok::<OrderSideInner, JsonErrorV>(OrderSideInner::Sell),
    {
        reveal_strlit("ORDER_SIDE_INNER_UNSPECIFIED");
        reveal_strlit("ORDER_SIDE_INNER_BUY");
        reveal_strlit("ORDER_SIDE_INNER_SELL");
        assert("ORDER_SIDE_INNER_UNSPECIFIED"@.len() == 28);
        assert("ORDER_SIDE_INNER_BUY"@.len() == 20);
        assert("ORDER_SIDE_INNER_SELL"@.len() == 21);
    }

    /// An enumeration field that holds the number of a value reads back its number.
    pub proof fn lemma_number_roundtrip(v: i32)
        requires Self::spec_from_i32(v) is Some,
        ensures Self::spec_read_number(JsonV::Str(Self::spec_name_of(v))) == Ok::<i32, JsonErrorV>(v),
    {
        let x = Self::spec_from_i32(v).unwrap();
        Self::lemma_names(x);
    }
}

/// The `astria.protocol.orderbook.v1.OrderTimeInForceInner` enumeration.
#[derive(Clone, Copy, Debug, PartialEq, Eq, Hash, PartialOrd, Ord)]
pub enum OrderTimeInForceInner {
    Unspecified,
    Gtc,
    Ioc,
    Fok,
}

impl Default for OrderTimeInForceInner {
    fn default() -> (r: Self)
        ensures r == OrderTimeInForceInner::Unspecified,
    {
        OrderTimeInForceInner::Unspecified
    }
}

impl OrderTimeInForceInner {
    /// The number of the value.
    pub open spec fn spec_value(self) -> i32 {
        match self {
            OrderTimeInForceInner::Unspecified => 0,
            OrderTimeInForceInner::Gtc => 1,
            OrderTimeInForceInner::Ioc => 2,
            OrderTimeInForceInner::Fok => 3,
        }
    }

    /// The number of the value.
    pub fn value(&self) -> (r: i32)
        ensures r == self.spec_value(),
    {
        match self {
            OrderTimeInForceInner::Unspecified => 0,
            OrderTimeInForceInner::Gtc => 1,
            OrderTimeInForceInner::Ioc => 2,
            OrderTimeInForceInner::Fok => 3,
        }
    }

    /// The value with a number, if there is one.
    pub open spec fn spec_from_i32(v: i32) -> Option<Self> {
        if v == 0 {
            Some(OrderTimeInForceInner::Unspecified)
        } else if v == 1 {
            Some(OrderTimeInForceInner::Gtc)
        } else if v == 2 {
            Some(OrderTimeInForceInner::Ioc)
        } else if v == 3 {
            Some(OrderTimeInForceInner::Fok)
        } else {
            None
        }
    }

    /// The value with a number, if there is one.
    pub fn from_i32(v: i32) -> (r: Option<Self>)
        ensures r == Self::spec_from_i32(v),
    {
        if v == 0 {
            Some(OrderTimeInForceInner::Unspecified)
        } else if v == 1 {
            Some(OrderTimeInForceInner::Gtc)
        } else if v == 2 {
            Some(OrderTimeInForceInner::Ioc)
        } else if v == 3 {
            Some(OrderTimeInForceInner::Fok)
        } else {
            None
        }
    }

    /// The name of the value in the protobuf definition.
    pub open spec fn spec_name(self) -> Seq<char> {
        match self {
            OrderTimeInForceInner::Unspecified => "ORDER_TIME_IN_FORCE_INNER_UNSPECIFIED"@,
            OrderTimeInForceInner::Gtc => "ORDER_TIME_IN_FORCE_INNER_GTC"@,
            OrderTimeInForceInner::Ioc => "ORDER_TIME_IN_FORCE_INNER_IOC"@,
            OrderTimeInForceInner::Fok => "ORDER_TIME_IN_FORCE_INNER_FOK"@,
        }
    }

    /// The name of the value in the protobuf definition.
    pub fn as_str_name(&self) -> (r: &'static str)
        ensures r@ == self.spec_name(),
    {
        match self {
            OrderTimeInForceInner::Unspecified => "ORDER_TIME_IN_FORCE_INNER_UNSPECIFIED",
            OrderTimeInForceInner::Gtc => "ORDER_TIME_IN_FORCE_INNER_GTC",
            OrderTimeInForceInner::Ioc => "ORDER_TIME_IN_FORCE_INNER_IOC",
            OrderTimeInForceInner::Fok => "ORDER_TIME_IN_FORCE_INNER_FOK",
        }
    }

    /// The value with a name, if there is one.
    pub open spec fn spec_from_name(s: Seq<char>) -> Option<Self> {
        if s == "ORDER_TIME_IN_FORCE_INNER_UNSPECIFIED"@ {
            Some(OrderTimeInForceInner::Unspecified)
        } else if s == "ORDER_TIME_IN_FORCE_INNER_GTC"@ {
            Some(OrderTimeInForceInner::Gtc)
        } else if s == "ORDER_TIME_IN_FORCE_INNER_IOC"@ {
            Some(OrderTimeInForceInner::Ioc)
        } else if s == "ORDER_TIME_IN_FORCE_INNER_FOK"@ {
            Some(OrderTimeInForceInner::Fok)
        } else {
            None
        }
    }

    /// The value with a name, if there is one.
    pub fn from_str_name(s: &str) -> (r: Option<Self>)
        ensures r == Self::spec_from_name(s@),
    {
        if str_eq(s, "ORDER_TIME_IN_FORCE_INNER_UNSPECIFIED") {
            Some(OrderTimeInForceInner::Unspecified)
        } else if str_eq(s, "ORDER_TIME_IN_FORCE_INNER_GTC") {
            Some(OrderTimeInForceInner::Gtc)
        } else if str_eq(s, "ORDER_TIME_IN_FORCE_INNER_IOC") {
            Some(OrderTimeInForceInner::Ioc)
        } else if str_eq(s, "ORDER_TIME_IN_FORCE_INNER_FOK") {
            Some(OrderTimeInForceInner::Fok)
        } else {
            None
        }
    }

    /// Each value is found again by its number and by its name.
    pub proof fn lemma_names(x: Self)
        ensures
            Self::spec_from_i32(x.spec_value()) == Some(x),
            Self::spec_from_name(x.spec_name()) == Some(x),
    {
        reveal_strlit("ORDER_TIME_IN_FORCE_INNER_UNSPECIFIED");
        reveal_strlit("ORDER_TIME_IN_FORCE_INNER_GTC");
        reveal_strlit("ORDER_TIME_IN_FORCE_INNER_IOC");
        reveal_strlit("ORDER_TIME_IN_FORCE_INNER_FOK");
        assert("ORDER_TIME_IN_FORCE_INNER_UNSPECIFIED"@.len() == 37);
        assert("ORDER_TIME_IN_FORCE_INNER_GTC"@.len() == 29);
        assert("ORDER_TIME_IN_FORCE_INNER_IOC"@.len() == 29);
        assert("ORDER_TIME_IN_FORCE_INNER_FOK"@.len() == 29);
        assert("ORDER_TIME_IN_FORCE_INNER_GTC"@[26] != "ORDER_TIME_IN_FORCE_INNER_IOC"@[26]);
        assert("ORDER_TIME_IN_FORCE_INNER_GTC"@[26] != "ORDER_TIME_IN_FORCE_INNER_FOK"@[26]);
        assert("ORDER_TIME_IN_FORCE_INNER_IOC"@[26] != "ORDER_TIME_IN_FORCE_INNER_FOK"@[26]);
        match x {
            OrderTimeInForceInner::Unspecified => {},
            OrderTimeInForceInner::Gtc => {},
            OrderTimeInForceInner::Ioc => {},
            OrderTimeInForceInner::Fok => {},
        }
    }

    /// The value that a JSON value describes: its name as a string, or its number as
    /// an integer. A string that names no value, a number that is no value's, and any
    /// other JSON value are refused.
    pub open spec fn spec_from_json(v: JsonV) -> Result<Self, JsonErrorV> {
        match v {
            JsonV::Str(s) => match Self::spec_from_name(s) {
                Some(x) => Ok(x),
                None => Err(JsonErrorV::UnknownVariant(s)),
            },
            JsonV::Unsigned(n) => if n <= 0x7fff_ffff {
                match Self::spec_from_i32(n as i32) {
                    Some(x) => Ok(x),
                    None => Err(JsonErrorV::InvalidEnumValue),
                }
            } else {
                Err(JsonErrorV::InvalidEnumValue)
            },
            JsonV::Signed(n) => if -0x8000_0000 <= n <= 0x7fff_ffff {
                match Self::spec_from_i32(n as i32) {
                    Some(x) => Ok(x),
                    None => Err(JsonErrorV::InvalidEnumValue),
                }
            } else {
                Err(JsonErrorV::InvalidEnumValue)
            },
            _ => Err(JsonErrorV::InvalidType),
        }
    }

    /// Reads the value from a JSON value, as [`Self::spec_from_json`] describes.
    pub fn from_json(v: &Json) -> (r: Result<Self, JsonError>)
        ensures
            match r {
                Ok(x) => Self::spec_from_json(v@) == Ok::<Self, JsonErrorV>(x),
                Err(e) => Self::spec_from_json(v@) == Err::<Self, JsonErrorV>(e@),
            },
    {
        match v {
            Json::Str(s) => match Self::from_str_name(s.as_str()) {
                Some(x) => Ok(x),
                None => Err(JsonError::UnknownVariant(s.clone())),
            },
            Json::Unsigned(n) => if *n <= 0x7fff_ffff {
                match Self::from_i32(*n as i32) {
                    Some(x) => Ok(x),
                    None => Err(JsonError::InvalidEnumValue),
                }
            } else {
                Err(JsonError::InvalidEnumValue)
            },
            Json::Signed(n) => if -0x8000_0000 <= *n && *n <= 0x7fff_ffff {
                match Self::from_i32(*n as i32) {
                    Some(x) => Ok(x),
                    None => Err(JsonError::InvalidEnumValue),
                }
            } else {
                Err(JsonError::InvalidEnumValue)
            },
            _ => Err(JsonError::InvalidType),
        }
    }

    /// Writes the value as its name; reading it back gives the value.
    pub fn to_json(&self) -> (r: Json)
        ensures
            r@ == JsonV::Str(self.spec_name()),
            Self::spec_from_json(r@) == Ok::<Self, JsonErrorV>(*self),
    {
        proof {
            Self::lemma_names(*self);
        }
        Json::Str(self.as_str_name().to_string())
    }

    /// The name written for an enumeration field that holds `v`.
    pub open spec fn spec_name_of(v: i32) -> Seq<char> {
        match Self::spec_from_i32(v) {
            Some(x) => x.spec_name(),
            None => Seq::empty(),
        }
    }

    /// An enumeration field: the number of the value that the JSON value describes.
    pub open spec fn spec_read_number(v: JsonV) -> Result<i32, JsonErrorV> {
        match Self::spec_from_json(v) {
            Ok(x) => Ok(x.spec_value()),
            Err(e) => Err(e),
        }
    }

    /// Reads an enumeration field, as [`Self::spec_read_number`] describes.
    pub fn number_field(v: &Json) -> (r: Result<i32, JsonError>)
        ensures
            match r {
                Ok(n) => Self::spec_read_number(v@) == Ok::<i32, JsonErrorV>(n),
                Err(e) => Self::spec_read_number(v@) == Err::<i32, JsonErrorV>(e@),
            },
    {
        match Self::from_json(v) {
            Ok(x) => Ok(x.value()),
            Err(e) => Err(e),
        }
    }

    /// The names and numbers of the values, as the protobuf definition gives them: each
    /// value has its name and number, and is read from either.
    pub proof fn lemma_value_table()
        ensures
            OrderTimeInForceInner::Unspecified.spec_name() == "ORDER_TIME_IN_FORCE_INNER_UNSPECIFIED"@,
            OrderTimeInForceInner::Unspecified.spec_value() == 0,
            OrderTimeInForceInner::spec_from_name("ORDER_TIME_IN_FORCE_INNER_UNSPECIFIED"@) == Some(OrderTimeInForceInner::Unspecified),
            OrderTimeInForceInner::spec_from_i32(0) == Some(OrderTimeInForceInner::Unspecified),
            OrderTimeInForceInner::spec_from_json(JsonV::Str("ORDER_TIME_IN_FORCE_INNER_UNSPECIFIED"@)) == Ok::<OrderTimeInForceInner, JsonErrorV>(OrderTimeInForceInner::Unspecified),
            OrderTimeInForceInner::spec_from_json(JsonV::Unsigned(0)) == Ok::<OrderTimeInForceInner, JsonErrorV>(OrderTimeInForceInner::Unspecified),
            OrderTimeInForceInner::Gtc.spec_name() == "ORDER_TIME_IN_FORCE_INNER_GTC"@,
            OrderTimeInForceInner::Gtc.spec_value() == 1,
            OrderTimeInForceInner::spec_from_name("ORDER_TIME_IN_FORCE_INNER_GTC"@) == Some(OrderTimeInForceInner::Gtc),
            OrderTimeInForceInner::spec_from_i32(1) == Some(OrderTimeInForceInner::Gtc),
            OrderTimeInForceInner::spec_from_json(JsonV::Str("ORDER_TIME_IN_FORCE_INNER_GTC"@)) == Ok::<OrderTimeInForceInner, JsonErrorV>(OrderTimeInForceInner::Gtc),
            OrderTimeInForceInner::spec_from_json(JsonV::Unsigned(1)) == Ok::<OrderTimeInForceInner, JsonErrorV>(OrderTimeInForceInner::Gtc),
            OrderTimeInForceInner::Ioc.spec_name() == "ORDER_TIME_IN_FORCE_INNER_IOC"@,
            OrderTimeInForceInner::Ioc.spec_value() == 2,
            OrderTimeInForceInner::spec_from_name("ORDER_TIME_IN_FORCE_INNER_IOC"@) == Some(OrderTimeInForceInner::Ioc),
            OrderTimeInForceInner::spec_from_i32(2) == Some(OrderTimeInForceInner::Ioc),
            OrderTimeInForceInner::spec_from_json(JsonV::Str("ORDER_TIME_IN_FORCE_INNER_IOC"@)) == Ok::<OrderTimeInForceInner, JsonErrorV>(OrderTimeInForceInner::Ioc),
            OrderTimeInForceInner::spec_from_json(JsonV::Unsigned(2)) == Ok::<OrderTimeInForceInner, JsonErrorV>(OrderTimeInForceInner::Ioc),
            OrderTimeInForceInner::Fok.spec_name() == "ORDER_TIME_IN_FORCE_INNER_FOK"@,
            OrderTimeInForceInner::Fok.spec_value() == 3,
            OrderTimeInForceInner::spec_from_name("ORDER_TIME_IN_FORCE_INNER_FOK"@) == Some(OrderTimeInForceInner::Fok),
            OrderTimeInForceInner::spec_from_i32(3) == Some(OrderTimeInForceInner::Fok),
            OrderTimeInForceInner::spec_from_json(JsonV::Str("ORDER_TIME_IN_FORCE_INNER_FOK"@)) == Ok::<OrderTimeInForceInner, JsonErrorV>(OrderTimeInForceInner::Fok),
            OrderTimeInForceInner::spec_from_json(JsonV::Unsigned(3)) == Ok::<OrderTimeInForceInner, JsonErrorV>(OrderTimeInForceInner::Fok),
    {
        reveal_strlit("ORDER_TIME_IN_FORCE_INNER_UNSPECIFIED");
        reveal_strlit("ORDER_TIME_IN_FORCE_INNER_GTC");
        reveal_strlit("ORDER_TIME_IN_FORCE_INNER_IOC");
        reveal_strlit("ORDER_TIME_IN_FORCE_INNER_FOK");
        assert("ORDER_TIME_IN_FORCE_INNER_UNSPECIFIED"@.len() == 37);
        assert("ORDER_TIME_IN_FORCE_INNER_GTC"@.len() == 29);
        assert("ORDER_TIME_IN_FORCE_INNER_IOC"@.len() == 29);
        assert("ORDER_TIME_IN_FORCE_INNER_FOK"@.len() == 29);
        assert("ORDER_TIME_IN_FORCE_INNER_GTC"@[26] != "ORDER_TIME_IN_FORCE_INNER_IOC"@[26]);
        assert("ORDER_TIME_IN_FORCE_INNER_GTC"@[26] != "ORDER_TIME_IN_FORCE_INNER_FOK"@[26]);
        assert("ORDER_TIME_IN_FORCE_INNER_IOC"@[26] != "ORDER_TIME_IN_FORCE_INNER_FOK"@[26]);
    }

    /// An enumeration field that holds the number of a value reads back its number.
    pub proof fn lemma_number_roundtrip(v: i32)
        requires Self::spec_from_i32(v) is Some,
        ensures Self::spec_read_number(JsonV::Str(Self::spec_name_of(v))) == Ok::<i32, JsonErrorV>(v),
    {
        let x = Self::spec_from_i32(v).unwrap();
        Self::lemma_names(x);
    }
}

/// The `astria.protocol.orderbook.v1.OrderTypeInner` enumeration.
#[derive(Clone, Copy, Debug, PartialEq, Eq, Hash, PartialOrd, Ord)]
pub enum OrderTypeInner {
    Unspecified,
    Limit,
    Market,
}

impl Default for OrderTypeInner {
    fn default() -> (r: Self)
        ensures r == OrderTypeInner::Unspecified,
    {
        OrderTypeInner::Unspecified
    }
}

impl OrderTypeInner {
    /// The number of the value.
    pub open spec fn spec_value(self) -> i32 {
        match self {
            OrderTypeInner::Unspecified => 0,
            OrderTypeInner::Limit => 1,
            OrderTypeInner::Market => 2,
        }
    }

    /// The number of the value.
    pub fn value(&self) -> (r: i32)
        ensures r == self.spec_value(),
    {
        match self {
            OrderTypeInner::Unspecified => 0,
            OrderTypeInner::Limit => 1,
            OrderTypeInner::Market => 2,
        }
    }

    /// The value with a number, if there is one.
    pub open spec fn spec_from_i32(v: i32) -> Option<Self> {
        if v == 0 {
            Some(OrderTypeInner::Unspecified)
        } else if v == 1 {
            Some(OrderTypeInner::Limit)
        } else if v == 2 {
            Some(OrderTypeInner::Market)
        } else {
            None
        }
    }

    /// The value with a number, if there is one.
    pub fn from_i32(v: i32) -> (r: Option<Self>)
        ensures r == Self::spec_from_i32(v),
    {
        if v == 0 {
            Some(OrderTypeInner::Unspecified)
        } else if v == 1 {
            Some(OrderTypeInner::Limit)
        } else if v == 2 {
            Some(OrderTypeInner::Market)
        } else {
            None
        }
    }

    /// The name of the value in the protobuf definition.
    pub open spec fn spec_name(self) -> Seq<char> {
        match self {
            OrderTypeInner::Unspecified => "ORDER_TYPE_INNER_UNSPECIFIED"@,
            OrderTypeInner::Limit => "ORDER_TYPE_INNER_LIMIT"@,
            OrderTypeInner::Market => "ORDER_TYPE_INNER_MARKET"@,
        }
    }

    /// The name of the value in the protobuf definition.
    pub fn as_str_name(&self) -> (r: &'static str)
        ensures r@ == self.spec_name(),
    {
        match self {
            OrderTypeInner::Unspecified => "ORDER_TYPE_INNER_UNSPECIFIED",
            OrderTypeInner::Limit => "ORDER_TYPE_INNER_LIMIT",
            OrderTypeInner::Market => "ORDER_TYPE_INNER_MARKET",
        }
    }

    /// The value with a name, if there is one.
    pub open spec fn spec_from_name(s: Seq<char>) -> Option<Self> {
        if s == "ORDER_TYPE_INNER_UNSPECIFIED"@ {
            Some(OrderTypeInner::Unspecified)
        } else if s == "ORDER_TYPE_INNER_LIMIT"@ {
            Some(OrderTypeInner::Limit)
        } else if s == "ORDER_TYPE_INNER_MARKET"@ {
            Some(OrderTypeInner::Market)
        } else {
            None
        }
    }

    /// The value with a name, if there is one.
    pub fn from_str_name(s: &str) -> (r: Option<Self>)
        ensures r == Self::spec_from_name(s@),
    {
        if str_eq(s, "ORDER_TYPE_INNER_UNSPECIFIED") {
            Some(OrderTypeInner::Unspecified)
        } else if str_eq(s, "ORDER_TYPE_INNER_LIMIT") {
            Some(OrderTypeInner::Limit)
        } else if str_eq(s, "ORDER_TYPE_INNER_MARKET") {
            Some(OrderTypeInner::Market)
        } else {
            None
        }
    }

    /// Each value is found again by its number and by its name.
    pub proof fn lemma_names(x: Self)
        ensures
            Self::spec_from_i32(x.spec_value()) == Some(x),
            Self::spec_from_name(x.spec_name()) == Some(x),
    {
        reveal_strlit("ORDER_TYPE_INNER_UNSPECIFIED");
        reveal_strlit("ORDER_TYPE_INNER_LIMIT");
        reveal_strlit("ORDER_TYPE_INNER_MARKET");
        assert("ORDER_TYPE_INNER_UNSPECIFIED"@.len() == 28);
        assert("ORDER_TYPE_INNER_LIMIT"@.len() == 22);
        assert("ORDER_TYPE_INNER_MARKET"@.len() == 23);
        match x {
            OrderTypeInner::Unspecified => {},
            OrderTypeInner::Limit => {},
            OrderTypeInner::Market => {},
        }
    }

    /// The value that a JSON value describes: its name as a string, or its number as
    /// an integer. A string that names no value, a number that is no value's, and any
    /// other JSON value are refused.
    pub open spec fn spec_from_json(v: JsonV) -> Result<Self, JsonErrorV> {
        match v {
            JsonV::Str(s) => match Self::spec_from_name(s) {
                Some(x) => Ok(x),
                None => Err(JsonErrorV::UnknownVariant(s)),
            },
            JsonV::Unsigned(n) => if n <= 0x7fff_ffff {
                match Self::spec_from_i32(n as i32) {
                    Some(x) => Ok(x),
                    None => Err(JsonErrorV::InvalidEnumValue),
                }
            } else {
                Err(JsonErrorV::InvalidEnumValue)
            },
            JsonV::Signed(n) => if -0x8000_0000 <= n <= 0x7fff_ffff {
                match Self::spec_from_i32(n as i32) {
                    Some(x) => Ok(x),
                    None => Err(JsonErrorV::InvalidEnumValue),
                }
            } else {
                Err(JsonErrorV::InvalidEnumValue)
            },
            _ => Err(JsonErrorV::InvalidType),
        }
    }

    /// Reads the value from a JSON value, as [`Self::spec_from_json`] describes.
    pub fn from_json(v: &Json) -> (r: Result<Self, JsonError>)
        ensures
            match r {
                Ok(x) => Self::spec_from_json(v@) == Ok::<Self, JsonErrorV>(x),
                Err(e) => Self::spec_from_json(v@) == Err::<Self, JsonErrorV>(e@),
            },
    {
        match v {
            Json::Str(s) => match Self::from_str_name(s.as_str()) {
                Some(x) => Ok(x),
                None => Err(JsonError::UnknownVariant(s.clone())),
            },
            Json::Unsigned(n) => if *n <= 0x7fff_ffff {
                match Self::from_i32(*n as i32) {
                    Some(x) => Ok(x),
                    None => Err(JsonError::InvalidEnumValue),
                }
            } else {
                Err(JsonError::InvalidEnumValue)
            },
            Json::Signed(n) => if -0x8000_0000 <= *n && *n <= 0x7fff_ffff {
                match Self::from_i32(*n as i32) {
                    Some(x) => Ok(x),
                    None => Err(JsonError::InvalidEnumValue),
                }
            } else {
                Err(JsonError::InvalidEnumValue)
            },
            _ => Err(JsonError::InvalidType),
        }
    }

    /// Writes the value as its name; reading it back gives the value.
    pub fn to_json(&self) -> (r: Json)
        ensures
            r@ == JsonV::Str(self.spec_name()),
            Self::spec_from_json(r@) == Ok::<Self, JsonErrorV>(*self),
    {
        proof {
            Self::lemma_names(*self);
        }
        Json::Str(self.as_str_name().to_string())
    }

    /// The name written for an enumeration field that holds `v`.
    pub open spec fn spec_name_of(v: i32) -> Seq<char> {
        match Self::spec_from_i32(v) {
            Some(x) => x.spec_name(),
            None => Seq::empty(),
        }
    }

    /// An enumeration field: the number of the value that the JSON value describes.
    pub open spec fn spec_read_number(v: JsonV) -> Result<i32, JsonErrorV> {
        match Self::spec_from_json(v) {
            Ok(x) => Ok(x.spec_value()),
            Err(e) => Err(e),
        }
    }

    /// Reads an enumeration field, as [`Self::spec_read_number`] describes.
    pub fn number_field(v: &Json) -> (r: Result<i32, JsonError>)
        ensures
            match r {
                Ok(n) => Self::spec_read_number(v@) == Ok::<i32, JsonErrorV>(n),
                Err(e) => Self::spec_read_number(v@) == Err::<i32, JsonErrorV>(e@),
            },
    {
        match Self::from_json(v) {
            Ok(x) => Ok(x.value()),
            Err(e) => Err(e),
        }
    }

    /// The names and numbers of the values, as the protobuf definition gives them: each
    /// value has its name and number, and is read from either.
    pub proof fn lemma_value_table()
        ensures
            OrderTypeInner::Unspecified.spec_name() == "ORDER_TYPE_INNER_UNSPECIFIED"@,
            OrderTypeInner::Unspecified.spec_value() == 0,
            OrderTypeInner::spec_from_name("ORDER_TYPE_INNER_UNSPECIFIED"@) == Some(OrderTypeInner::Unspecified),
            OrderTypeInner::spec_from_i32(0) == Some(OrderTypeInner::Unspecified),
            OrderTypeInner::spec_from_json(JsonV::Str("ORDER_TYPE_INNER_UNSPECIFIED"@)) == Ok::<OrderTypeInner, JsonErrorV>(OrderTypeInner::Unspecified),
            OrderTypeInner::spec_from_json(JsonV::Unsigned(0)) == Ok::<OrderTypeInner, JsonErrorV>(OrderTypeInner::Unspecified),
            OrderTypeInner::Limit.spec_name() == "ORDER_TYPE_INNER_LIMIT"@,
            OrderTypeInner::Limit.spec_value() == 1,
            OrderTypeInner::spec_from_name("ORDER_TYPE_INNER_LIMIT"@) == Some(OrderTypeInner::Limit),
            OrderTypeInner::spec_from_i32(1) == Some(OrderTypeInner::Limit),
            OrderTypeInner::spec_from_json(JsonV::Str("ORDER_TYPE_INNER_LIMIT"@)) == Ok::<OrderTypeInner, JsonErrorV>(OrderTypeInner::Limit),
            OrderTypeInner::spec_from_json(JsonV::Unsigned(1)) == Ok::<OrderTypeInner, JsonErrorV>(OrderTypeInner::Limit),
            OrderTypeInner::Market.spec_name() == "ORDER_TYPE_INNER_MARKET"@,
            OrderTypeInner::Market.spec_value() == 2,
            OrderTypeInner::spec_from_name("ORDER_TYPE_INNER_MARKET"@) == Some(OrderTypeInner::Market),
            OrderTypeInner::spec_from_i32(2) == Some(OrderTypeInner::Market),
            OrderTypeInner::spec_from_json(JsonV::Str("ORDER_TYPE_INNER_MARKET"@)) == Ok::<OrderTypeInner, JsonErrorV>(OrderTypeInner::Market),
            OrderTypeInner::spec_from_json(JsonV::Unsigned(2)) == Ok::<OrderTypeInner, JsonErrorV>(OrderTypeInner::Market),
    {
        reveal_strlit("ORDER_TYPE_INNER_UNSPECIFIED");
        reveal_strlit("ORDER_TYPE_INNER_LIMIT");
        reveal_strlit("ORDER_TYPE_INNER_MARKET");
        assert("ORDER_TYPE_INNER_UNSPECIFIED"@.len() == 28);
        assert("ORDER_TYPE_INNER_LIMIT"@.len() == 22);
        assert("ORDER_TYPE_INNER_MARKET"@.len() == 23);
    }

    /// An enumeration field that holds the number of a value reads back its number.
    pub proof fn lemma_number_roundtrip(v: i32)
        requires Self::spec_from_i32(v) is Some,
        ensures Self::spec_read_number(JsonV::Str(Self::spec_name_of(v))) == Ok::<i32, JsonErrorV>(v),
    {
        let x = Self::spec_from_i32(v).unwrap();
        Self::lemma_names(x);
    }
}

/// The `astria.protocol.orderbook.v1.Order` message.
#[derive(Clone, Debug, PartialEq)]
pub struct Order {
    pub id: String,
    pub owner: Option<Address>,
    pub market: String,
    pub side: Option<OrderSide>,
    pub order_type: Option<OrderType>,
    pub price: Option<Uint128>,
    pub quantity: Option<Uint128>,
    pub remaining_quantity: Option<Uint128>,
    pub created_at: u64,
    pub time_in_force: Option<OrderTimeInForce>,
    pub fee_asset: String,
}

/// The mathematical content of an [`Order`].
pub struct OrderV {
    pub id: Seq<char>,
    pub owner: Option<Seq<(Seq<char>, JsonV)>>,
    pub market: Seq<char>,
    pub side: Option<OrderSideV>,
    pub order_type: Option<OrderTypeV>,
    pub price: Option<Seq<(Seq<char>, JsonV)>>,
    pub quantity: Option<Seq<(Seq<char>, JsonV)>>,
    pub remaining_quantity: Option<Seq<(Seq<char>, JsonV)>>,
    pub created_at: u64,
    pub time_in_force: Option<OrderTimeInForceV>,
    pub fee_asset: Seq<char>,
}

impl View for Order {
    type V = OrderV;

    open spec fn view(&self) -> OrderV {
        OrderV {
            id: self.id@,
            owner: opt_embedded_view(self.owner),
            market: self.market@,
            side: OrderSide::view_opt(self.side),
            order_type: OrderType::view_opt(self.order_type),
            price: opt_embedded_view(self.price),
            quantity: opt_embedded_view(self.quantity),
            remaining_quantity: opt_embedded_view(self.remaining_quantity),
            created_at: self.created_at,
            time_in_force: OrderTimeInForce::view_opt(self.time_in_force),
            fee_asset: self.fee_asset@,
        }
    }
}

impl Default for Order {
    fn default() -> (r: Self)
        ensures r@ == Order::spec_default(),
    {
        let r = Order {
            id: String::new(),
            owner: None,
            market: String::new(),
            side: None,
            order_type: None,
            price: None,
            quantity: None,
            remaining_quantity: None,
            created_at: 0,
            time_in_force: None,
            fee_asset: String::new(),
        };
        r
    }
}

impl Order {
    /// The fully qualified protobuf name of the message.
    pub fn full_name() -> (r: String)
        ensures r@ == "astria.protocol.orderbook.v1.Order"@,
    {
        "astria.protocol.orderbook.v1.Order".to_string()
    }

    /// Every field at its default: empty strings, bytes and lists, zero, `false`, unset.
    pub open spec fn spec_default() -> OrderV {
        OrderV {
            id: Seq::<char>::empty(),
            owner: None,
            market: Seq::<char>::empty(),
            side: None,
            order_type: None,
            price: None,
            quantity: None,
            remaining_quantity: None,
            created_at: 0,
            time_in_force: None,
            fee_asset: Seq::<char>::empty(),
        }
    }

    /// The view of an optional field of this message type.
    pub open spec fn view_opt(o: Option<Self>) -> Option<OrderV> {
        match o {
            Some(x) => Some(x@),
            None => None,
        }
    }

    /// The view of a repeated field of this message type.
    pub open spec fn view_list(v: Seq<Self>) -> Seq<OrderV> {
        v.map_values(|x: Self| x@)
    }

    /// The member that the field `id` writes: none where it holds its default.
    pub open spec fn spec_entry_id(m: OrderV) -> Seq<(Seq<char>, JsonV)> {
        entry_if(m.id.len() != 0, "id"@, JsonV::Str(m.id))
    }

    /// The member that the field `owner` writes: none where it holds its default.
    pub open spec fn spec_entry_owner(m: OrderV) -> Seq<(Seq<char>, JsonV)> {
        entry_if(m.owner is Some, "owner"@, JsonV::Object(m.owner.unwrap()))
    }

    /// The member that the field `market` writes: none where it holds its default.
    pub open spec fn spec_entry_market(m: OrderV) -> Seq<(Seq<char>, JsonV)> {
        entry_if(m.market.len() != 0, "market"@, JsonV::Str(m.market))
    }

    /// The member that the field `side` writes: none where it holds its default.
    pub open spec fn spec_entry_side(m: OrderV) -> Seq<(Seq<char>, JsonV)> {
        entry_if(m.side is Some, "side"@, OrderSide::spec_to_json(m.side.unwrap()))
    }

    /// The member that the field `order_type` writes: none where it holds its default.
    pub open spec fn spec_entry_order_type(m: OrderV) -> Seq<(Seq<char>, JsonV)> {
        entry_if(m.order_type is Some, "type"@, OrderType::spec_to_json(m.order_type.unwrap()))
    }

    /// The member that the field `price` writes: none where it holds its default.
    pub open spec fn spec_entry_price(m: OrderV) -> Seq<(Seq<char>, JsonV)> {
        entry_if(m.price is Some, "price"@, JsonV::Object(m.price.unwrap()))
    }

    /// The member that the field `quantity` writes: none where it holds its default.
    pub open spec fn spec_entry_quantity(m: OrderV) -> Seq<(Seq<char>, JsonV)> {
        entry_if(m.quantity is Some, "quantity"@, JsonV::Object(m.quantity.unwrap()))
    }

    /// The member that the field `remaining_quantity` writes: none where it holds its default.
    pub open spec fn spec_entry_remaining_quantity(m: OrderV) -> Seq<(Seq<char>, JsonV)> {
        entry_if(m.remaining_quantity is Some, "remainingQuantity"@, JsonV::Object(m.remaining_quantity.unwrap()))
    }

    /// The member that the field `created_at` writes: none where it holds its default.
    pub open spec fn spec_entry_created_at(m: OrderV) -> Seq<(Seq<char>, JsonV)> {
        entry_if(m.created_at != 0, "createdAt"@, JsonV::Str(decimal(m.created_at as nat)))
    }

    /// The member that the field `time_in_force` writes: none where it holds its default.
    pub open spec fn spec_entry_time_in_force(m: OrderV) -> Seq<(Seq<char>, JsonV)> {
        entry_if(m.time_in_force is Some, "timeInForce"@, OrderTimeInForce::spec_to_json(m.time_in_force.unwrap()))
    }

    /// The member that the field `fee_asset` writes: none where it holds its default.
    pub open spec fn spec_entry_fee_asset(m: OrderV) -> Seq<(Seq<char>, JsonV)> {
        entry_if(m.fee_asset.len() != 0, "feeAsset"@, JsonV::Str(m.fee_asset))
    }

    /// The members of the JSON object of the message: each field that does not hold
    /// its default, under its JSON name, in the order of the fields.
    pub open spec fn spec_entries(m: OrderV) -> Seq<(Seq<char>, JsonV)> {
        Self::spec_entry_id(m) + Self::spec_entry_owner(m) + Self::spec_entry_market(m) + Self::spec_entry_side(m) + Self::spec_entry_order_type(m) + Self::spec_entry_price(m) + Self::spec_entry_quantity(m) + Self::spec_entry_remaining_quantity(m) + Self::spec_entry_created_at(m) + Self::spec_entry_time_in_force(m) + Self::spec_entry_fee_asset(m)
    }

    /// The JSON object that the protobuf JSON mapping writes for the message.
    pub open spec fn spec_to_json(m: OrderV) -> JsonV {
        JsonV::Object(Self::spec_entries(m))
    }

    /// [`Self::spec_to_json`] as a function value, for repeated fields.
    pub open spec fn writer() -> spec_fn(OrderV) -> JsonV {
        |m: OrderV| Self::spec_to_json(m)
    }

    /// Why the field `side` cannot be written, if it cannot.
    pub open spec fn spec_error_side(m: OrderV) -> Option<JsonErrorV> {
        match m.side { Some(x) => OrderSide::spec_encode_error(x), None => None }
    }

    /// Why the field `order_type` cannot be written, if it cannot.
    pub open spec fn spec_error_order_type(m: OrderV) -> Option<JsonErrorV> {
        match m.order_type { Some(x) => OrderType::spec_encode_error(x), None => None }
    }

    /// Why the field `time_in_force` cannot be written, if it cannot.
    pub open spec fn spec_error_time_in_force(m: OrderV) -> Option<JsonErrorV> {
        match m.time_in_force { Some(x) => OrderTimeInForce::spec_encode_error(x), None => None }
    }

    /// The first field, in the order of the fields, that cannot be written: an
    /// enumeration field whose number names no value, or a message field that
    /// holds one. `None` when the whole message can be written.
    pub open spec fn spec_encode_error(m: OrderV) -> Option<JsonErrorV> {
        if Self::spec_error_side(m) is Some {
            Self::spec_error_side(m)
        } else if Self::spec_error_order_type(m) is Some {
            Self::spec_error_order_type(m)
        } else if Self::spec_error_time_in_force(m) is Some {
            Self::spec_error_time_in_force(m)
        } else {
            None
        }
    }

    fn write_id(&self, es: &mut Vec<(String, Json)>)
        ensures
            view_entries(final(es)@) == view_entries(old(es)@) + Self::spec_entry_id(self@),
    {
        if !self.id.as_str().is_empty() {
            push_entry(es, "id", string_value(&self.id));
        }
        assert(view_entries(es@) =~= view_entries(old(es)@) + Self::spec_entry_id(self@));
    }

    fn write_owner(&self, es: &mut Vec<(String, Json)>)
        ensures
            view_entries(final(es)@) == view_entries(old(es)@) + Self::spec_entry_owner(self@),
    {
        match &self.owner {
            Some(x) => push_entry(es, "owner", embedded_value(x)),
            None => {},
        }
        assert(view_entries(es@) =~= view_entries(old(es)@) + Self::spec_entry_owner(self@));
    }

    fn write_market(&self, es: &mut Vec<(String, Json)>)
        ensures
            view_entries(final(es)@) == view_entries(old(es)@) + Self::spec_entry_market(self@),
    {
        if !self.market.as_str().is_empty() {
            push_entry(es, "market", string_value(&self.market));
        }
        assert(view_entries(es@) =~= view_entries(old(es)@) + Self::spec_entry_market(self@));
    }

    fn write_side(&self, es: &mut Vec<(String, Json)>) -> (r: Result<(), JsonError>)
        ensures
            match r {
                Ok(_) => Self::spec_error_side(self@) is None
                    && view_entries(final(es)@) == view_entries(old(es)@) + Self::spec_entry_side(self@)
                ,
                Err(e) => Self::spec_error_side(self@) == Some(e@),
            },
    {
        match &self.side {
            Some(x) => match x.to_json() {
                Ok(j) => push_entry(es, "side", j),
                Err(e) => return Err(e),
            },
            None => {},
        }
        assert(view_entries(es@) =~= view_entries(old(es)@) + Self::spec_entry_side(self@));
        Ok(())
    }

    fn write_order_type(&self, es: &mut Vec<(String, Json)>) -> (r: Result<(), JsonError>)
        ensures
            match r {
                Ok(_) => Self::spec_error_order_type(self@) is None
                    && view_entries(final(es)@) == view_entries(old(es)@) + Self::spec_entry_order_type(self@)
                ,
                Err(e) => Self::spec_error_order_type(self@) == Some(e@),
            },
    {
        match &self.order_type {
            Some(x) => match x.to_json() {
                Ok(j) => push_entry(es, "type", j),
                Err(e) => return Err(e),
            },
            None => {},
        }
        assert(view_entries(es@) =~= view_entries(old(es)@) + Self::spec_entry_order_type(self@));
        Ok(())
    }

    fn write_price(&self, es: &mut Vec<(String, Json)>)
        ensures
            view_entries(final(es)@) == view_entries(old(es)@) + Self::spec_entry_price(self@),
    {
        match &self.price {
            Some(x) => push_entry(es, "price", embedded_value(x)),
            None => {},
        }
        assert(view_entries(es@) =~= view_entries(old(es)@) + Self::spec_entry_price(self@));
    }

    fn write_quantity(&self, es: &mut Vec<(String, Json)>)
        ensures
            view_entries(final(es)@) == view_entries(old(es)@) + Self::spec_entry_quantity(self@),
    {
        match &self.quantity {
            Some(x) => push_entry(es, "quantity", embedded_value(x)),
            None => {},
        }
        assert(view_entries(es@) =~= view_entries(old(es)@) + Self::spec_entry_quantity(self@));
    }

    fn write_remaining_quantity(&self, es: &mut Vec<(String, Json)>)
        ensures
            view_entries(final(es)@) == view_entries(old(es)@) + Self::spec_entry_remaining_quantity(self@),
    {
        match &self.remaining_quantity {
            Some(x) => push_entry(es, "remainingQuantity", embedded_value(x)),
            None => {},
        }
        assert(view_entries(es@) =~= view_entries(old(es)@) + Self::spec_entry_remaining_quantity(self@));
    }

    fn write_created_at(&self, es: &mut Vec<(String, Json)>)
        ensures
            view_entries(final(es)@) == view_entries(old(es)@) + Self::spec_entry_created_at(self@),
    {
        if self.created_at != 0 {
            push_entry(es, "createdAt", u64_value(self.created_at));
        }
        assert(view_entries(es@) =~= view_entries(old(es)@) + Self::spec_entry_created_at(self@));
    }

    fn write_time_in_force(&self, es: &mut Vec<(String, Json)>) -> (r: Result<(), JsonError>)
        ensures
            match r {
                Ok(_) => Self::spec_error_time_in_force(self@) is None
                    && view_entries(final(es)@) == view_entries(old(es)@) + Self::spec_entry_time_in_force(self@)
                ,
                Err(e) => Self::spec_error_time_in_force(self@) == Some(e@),
            },
    {
        match &self.time_in_force {
            Some(x) => match x.to_json() {
                Ok(j) => push_entry(es, "timeInForce", j),
                Err(e) => return Err(e),
            },
            None => {},
        }
        assert(view_entries(es@) =~= view_entries(old(es)@) + Self::spec_entry_time_in_force(self@));
        Ok(())
    }

    fn write_fee_asset(&self, es: &mut Vec<(String, Json)>)
        ensures
            view_entries(final(es)@) == view_entries(old(es)@) + Self::spec_entry_fee_asset(self@),
    {
        if !self.fee_asset.as_str().is_empty() {
            push_entry(es, "feeAsset", string_value(&self.fee_asset));
        }
        assert(view_entries(es@) =~= view_entries(old(es)@) + Self::spec_entry_fee_asset(self@));
    }

    /// Writes the message as a JSON object, or gives the error of the first field
    /// that cannot be written; reading the object back gives the message.
    pub fn to_json(&self) -> (r: Result<Json, JsonError>)
        ensures
            match r {
                Ok(j) => Self::spec_encode_error(self@) is None
                    && j@ == Self::spec_to_json(self@)
                    && Self::spec_from_json(j@) == Ok::<OrderV, JsonErrorV>(self@),
                Err(e) => Self::spec_encode_error(self@) == Some(e@),
            },
    {
        let mut es: Vec<(String, Json)> = Vec::new();
        let ghost mut acc: Seq<(Seq<char>, JsonV)> = Seq::empty();
        proof {
            assert(view_entries(es@) =~= acc);
        }
        self.write_id(&mut es);
        proof {
            acc = acc + Self::spec_entry_id(self@);
        }
        self.write_owner(&mut es);
        proof {
            acc = acc + Self::spec_entry_owner(self@);
        }
        self.write_market(&mut es);
        proof {
            acc = acc + Self::spec_entry_market(self@);
        }
        match self.write_side(&mut es) {
            Ok(_) => {},
            Err(e) => return Err(e),
        }
        proof {
            acc = acc + Self::spec_entry_side(self@);
        }
        match self.write_order_type(&mut es) {
            Ok(_) => {},
            Err(e) => return Err(e),
        }
        proof {
            acc = acc + Self::spec_entry_order_type(self@);
        }
        self.write_price(&mut es);
        proof {
            acc = acc + Self::spec_entry_price(self@);
        }
        self.write_quantity(&mut es);
        proof {
            acc = acc + Self::spec_entry_quantity(self@);
        }
        self.write_remaining_quantity(&mut es);
        proof {
            acc = acc + Self::spec_entry_remaining_quantity(self@);
        }
        self.write_created_at(&mut es);
        proof {
            acc = acc + Self::spec_entry_created_at(self@);
        }
        match self.write_time_in_force(&mut es) {
            Ok(_) => {},
            Err(e) => return Err(e),
        }
        proof {
            acc = acc + Self::spec_entry_time_in_force(self@);
        }
        self.write_fee_asset(&mut es);
        proof {
            acc = acc + Self::spec_entry_fee_asset(self@);
        }
        proof {
            assert(acc =~= Self::spec_entries(self@));
            Self::lemma_json_roundtrip(self@);
        }
        Ok(Json::Object(es))
    }

    /// Reads one member of the object into the message under construction; `seen`
    /// records which fields that have no unset state were already given.
    pub open spec fn spec_step(st: (OrderV, Seq<bool>), key: Seq<char>, v: JsonV) -> Result<(OrderV, Seq<bool>), JsonErrorV> {
        let m = st.0;
        let seen = st.1;
        if key == "id"@ {
            if seen[0] {
                Err(JsonErrorV::DuplicateField("id"@))
            } else {
                match read_string(v) {
                    Ok(x) => Ok((OrderV { id: x, ..m }, seen.update(0, true))),
                    Err(e) => Err(e),
                }
            }
        } else if key == "owner"@ {
            if m.owner is Some {
                Err(JsonErrorV::DuplicateField("owner"@))
            } else {
                match read_embedded(v) {
                    Ok(x) => Ok((OrderV { owner: x, ..m }, seen)),
                    Err(e) => Err(e),
                }
            }
        } else if key == "market"@ {
            if seen[1] {
                Err(JsonErrorV::DuplicateField("market"@))
            } else {
                match read_string(v) {
                    Ok(x) => Ok((OrderV { market: x, ..m }, seen.update(1, true))),
                    Err(e) => Err(e),
                }
            }
        } else if key == "side"@ {
            if m.side is Some {
                Err(JsonErrorV::DuplicateField("side"@))
            } else {
                match OrderSide::spec_read_opt(v) {
                    Ok(x) => Ok((OrderV { side: x, ..m }, seen)),
                    Err(e) => Err(e),
                }
            }
        } else if key == "type"@ {
            if m.order_type is Some {
                Err(JsonErrorV::DuplicateField("type"@))
            } else {
                match OrderType::spec_read_opt(v) {
                    Ok(x) => Ok((OrderV { order_type: x, ..m }, seen)),
                    Err(e) => Err(e),
                }
            }
        } else if key == "price"@ {
            if m.price is Some {
                Err(JsonErrorV::DuplicateField("price"@))
            } else {
                match read_embedded(v) {
                    Ok(x) => Ok((OrderV { price: x, ..m }, seen)),
                    Err(e) => Err(e),
                }
            }
        } else if key == "quantity"@ {
            if m.quantity is Some {
                Err(JsonErrorV::DuplicateField("quantity"@))
            } else {
                match read_embedded(v) {
                    Ok(x) => Ok((OrderV { quantity: x, ..m }, seen)),
                    Err(e) => Err(e),
                }
            }
        } else if key == "remainingQuantity"@ || key == "remaining_quantity"@ {
            if m.remaining_quantity is Some {
                Err(JsonErrorV::DuplicateField("remainingQuantity"@))
            } else {
                match read_embedded(v) {
                    Ok(x) => Ok((OrderV { remaining_quantity: x, ..m }, seen)),
                    Err(e) => Err(e),
                }
            }
        } else if key == "createdAt"@ || key == "created_at"@ {
            if seen[2] {
                Err(JsonErrorV::DuplicateField("createdAt"@))
            } else {
                match read_u64(v) {
                    Ok(x) => Ok((OrderV { created_at: x, ..m }, seen.update(2, true))),
                    Err(e) => Err(e),
                }
            }
        } else if key == "timeInForce"@ || key == "time_in_force"@ {
            if m.time_in_force is Some {
                Err(JsonErrorV::DuplicateField("timeInForce"@))
            } else {
                match OrderTimeInForce::spec_read_opt(v) {
                    Ok(x) => Ok((OrderV { time_in_force: x, ..m }, seen)),
                    Err(e) => Err(e),
                }
            }
        } else if key == "feeAsset"@ || key == "fee_asset"@ {
            if seen[3] {
                Err(JsonErrorV::DuplicateField("feeAsset"@))
            } else {
                match read_string(v) {
                    Ok(x) => Ok((OrderV { fee_asset: x, ..m }, seen.update(3, true))),
                    Err(e) => Err(e),
                }
            }
        } else {
            Err(JsonErrorV::UnknownField(key))
        }
    }

    /// [`Self::spec_step`] as a function value.
    pub open spec fn step_fn() -> spec_fn((OrderV, Seq<bool>), Seq<char>, JsonV) -> Result<(OrderV, Seq<bool>), JsonErrorV> {
        |st: (OrderV, Seq<bool>), key: Seq<char>, v: JsonV| Self::spec_step(st, key, v)
    }

    /// The state before the first member is read: the default message, no field seen.
    pub open spec fn spec_start() -> (OrderV, Seq<bool>) {
        (Self::spec_default(), seq![false, false, false, false])
    }

    /// The message that a JSON value describes: an object whose keys each name a field
    /// (by its JSON name or its protobuf name), at most once each; fields that are not
    /// given keep their default. The first member that is refused gives the error.
    pub open spec fn spec_from_json(j: JsonV) -> Result<OrderV, JsonErrorV> {
        match j {
            JsonV::Object(es) => match fold_entries(Self::spec_start(), es, Self::step_fn()) {
                Ok(st) => Ok(st.0),
                Err(e) => Err(e),
            },
            _ => Err(JsonErrorV::ExpectedObject),
        }
    }

    /// [`Self::spec_from_json`] as a function value, for repeated fields.
    pub open spec fn reader() -> spec_fn(JsonV) -> Result<OrderV, JsonErrorV> {
        |v: JsonV| Self::spec_from_json(v)
    }

    /// An optional field of this message type: `null` leaves it unset.
    pub open spec fn spec_read_opt(v: JsonV) -> Result<Option<OrderV>, JsonErrorV> {
        match v {
            JsonV::Null => Ok(None),
            _ => match Self::spec_from_json(v) {
                Ok(x) => Ok(Some(x)),
                Err(e) => Err(e),
            },
        }
    }

    fn step(m: Self, seen: Vec<bool>, key: &String, v: &Json) -> (r: Result<(Self, Vec<bool>), JsonError>)
        requires seen@.len() == 4,
        ensures
            match r {
                Ok((m2, seen2)) => Self::spec_step((m@, seen@), key@, v@) == Ok::<(OrderV, Seq<bool>), JsonErrorV>((m2@, seen2@)) && seen2@.len() == 4,
                Err(e) => Self::spec_step((m@, seen@), key@, v@) == Err::<(OrderV, Seq<bool>), JsonErrorV>(e@),
            },
    {
        let mut m = m;
        let mut seen = seen;
        let k = key.as_str();
        if str_eq(k, "id") {
            if seen[0] {
                return Err(JsonError::DuplicateField("id".to_string()));
            }
            match string_field(v) {
                Ok(x) => m.id = x,
                Err(e) => return Err(e),
            }
            seen.set(0, true);
        } else if str_eq(k, "owner") {
            if m.owner.is_some() {
                return Err(JsonError::DuplicateField("owner".to_string()));
            }
            match embedded_field(v) {
                Ok(x) => m.owner = x,
                Err(e) => return Err(e),
            }
        } else if str_eq(k, "market") {
            if seen[1] {
                return Err(JsonError::DuplicateField("market".to_string()));
            }
            match string_field(v) {
                Ok(x) => m.market = x,
                Err(e) => return Err(e),
            }
            seen.set(1, true);
        } else if str_eq(k, "side") {
            if m.side.is_some() {
                return Err(JsonError::DuplicateField("side".to_string()));
            }
            match OrderSide::opt_from_json(v) {
                Ok(x) => m.side = x,
                Err(e) => return Err(e),
            }
        } else if str_eq(k, "type") {
            if m.order_type.is_some() {
                return Err(JsonError::DuplicateField("type".to_string()));
            }
            match OrderType::opt_from_json(v) {
                Ok(x) => m.order_type = x,
                Err(e) => return Err(e),
            }
        } else if str_eq(k, "price") {
            if m.price.is_some() {
                return Err(JsonError::DuplicateField("price".to_string()));
            }
            match embedded_field(v) {
                Ok(x) => m.price = x,
                Err(e) => return Err(e),
            }
        } else if str_eq(k, "quantity") {
            if m.quantity.is_some() {
                return Err(JsonError::DuplicateField("quantity".to_string()));
            }
            match embedded_field(v) {
                Ok(x) => m.quantity = x,
                Err(e) => return Err(e),
            }
        } else if str_eq(k, "remainingQuantity") || str_eq(k, "remaining_quantity") {
            if m.remaining_quantity.is_some() {
                return Err(JsonError::DuplicateField("remainingQuantity".to_string()));
            }
            match embedded_field(v) {
                Ok(x) => m.remaining_quantity = x,
                Err(e) => return Err(e),
            }
        } else if str_eq(k, "createdAt") || str_eq(k, "created_at") {
            if seen[2] {
                return Err(JsonError::DuplicateField("createdAt".to_string()));
            }
            match u64_field(v) {
                Ok(x) => m.created_at = x,
                Err(e) => return Err(e),
            }
            seen.set(2, true);
        } else if str_eq(k, "timeInForce") || str_eq(k, "time_in_force") {
            if m.time_in_force.is_some() {
                return Err(JsonError::DuplicateField("timeInForce".to_string()));
            }
            match OrderTimeInForce::opt_from_json(v) {
                Ok(x) => m.time_in_force = x,
                Err(e) => return Err(e),
            }
        } else if str_eq(k, "feeAsset") || str_eq(k, "fee_asset") {
            if seen[3] {
                return Err(JsonError::DuplicateField("feeAsset".to_string()));
            }
            match string_field(v) {
                Ok(x) => m.fee_asset = x,
                Err(e) => return Err(e),
            }
            seen.set(3, true);
        } else {
            return Err(JsonError::UnknownField(key.clone()));
        }
        Ok((m, seen))
    }

    /// Reads the message from a JSON value, as [`Self::spec_from_json`] describes.
    pub fn from_json(j: &Json) -> (r: Result<Self, JsonError>)
        ensures
            match r {
                Ok(m) => Self::spec_from_json(j@) == Ok::<OrderV, JsonErrorV>(m@),
                Err(e) => Self::spec_from_json(j@) == Err::<OrderV, JsonErrorV>(e@),
            },
    {
        let es = match j {
            Json::Object(es) => es,
            _ => return Err(JsonError::ExpectedObject),
        };
        let ghost ves = view_entries(es@);
        proof {
            lemma_view_entries_len(es@);
            assert(j@ == JsonV::Object(ves));
        }
        let mut m = Self::default();
        let mut seen: Vec<bool> = vec![false, false, false, false];
        let mut i: usize = 0;
        proof {
            assert(seen@ =~= Self::spec_start().1);
            assert(ves.skip(0) == ves);
        }
        while i < es.len()
            invariant
                j@ == JsonV::Object(ves),
                ves == view_entries(es@),
                ves.len() == es@.len(),
                i <= es.len(),
                seen@.len() == 4,
                fold_entries(Self::spec_start(), ves, Self::step_fn())
                    == fold_entries((m@, seen@), ves.skip(i as int), Self::step_fn()),
            decreases es.len() - i,
        {
            proof {
                lemma_view_entries_index(es@, i as int);
                lemma_fold_entries_step((m@, seen@), ves, i as int, Self::step_fn());
            }
            match Self::step(m, seen, &es[i].0, &es[i].1) {
                Ok((m2, seen2)) => {
                    m = m2;
                    seen = seen2;
                },
                Err(e) => return Err(e),
            }
            i = i + 1;
        }
        proof {
            assert(ves.skip(ves.len() as int) == Seq::<(Seq<char>, JsonV)>::empty());
            assert(fold_entries((m@, seen@), ves.skip(ves.len() as int), Self::step_fn())
                == Ok::<(OrderV, Seq<bool>), JsonErrorV>((m@, seen@)));
        }
        Ok(m)
    }

    /// Reads an optional field of this message type.
    pub fn opt_from_json(v: &Json) -> (r: Result<Option<Self>, JsonError>)
        ensures
            match r {
                Ok(None) => Self::spec_read_opt(v@) == Ok::<Option<OrderV>, JsonErrorV>(None),
                Ok(Some(x)) => Self::spec_read_opt(v@) == Ok::<Option<OrderV>, JsonErrorV>(Some(x@)),
                Err(e) => Self::spec_read_opt(v@) == Err::<Option<OrderV>, JsonErrorV>(e@),
            },
    {
        match v {
            Json::Null => Ok(None),
            _ => match Self::from_json(v) {
                Ok(x) => Ok(Some(x)),
                Err(e) => Err(e),
            },
        }
    }

    /// Reading the member that the field `id` writes sets the field.
    pub proof fn lemma_entry_id(m: OrderV, st: (OrderV, Seq<bool>))
        requires
            st.1.len() == 4,
            !st.1[0],
            st.0.id == Seq::<char>::empty(),
        ensures
            fold_entries(st, Self::spec_entry_id(m), Self::step_fn()) == Ok::<(OrderV, Seq<bool>), JsonErrorV>((OrderV { id: m.id, ..st.0 }, if m.id.len() != 0 { st.1.update(0, true) } else { st.1 })),
    {
        reveal_strlit("id");
        reveal_strlit("owner");
        reveal_strlit("market");
        reveal_strlit("side");
        reveal_strlit("type");
        reveal_strlit("price");
        reveal_strlit("quantity");
        reveal_strlit("remainingQuantity");
        reveal_strlit("remaining_quantity");
        reveal_strlit("createdAt");
        reveal_strlit("created_at");
        reveal_strlit("timeInForce");
        reveal_strlit("time_in_force");
        reveal_strlit("feeAsset");
        reveal_strlit("fee_asset");
        assert("id"@.len() == 2);
        assert("owner"@.len() == 5);
        assert("market"@.len() == 6);
        assert("side"@.len() == 4);
        assert("type"@.len() == 4);
        assert("price"@.len() == 5);
        assert("quantity"@.len() == 8);
        assert("remainingQuantity"@.len() == 17);
        assert("remaining_quantity"@.len() == 18);
        assert("createdAt"@.len() == 9);
        assert("created_at"@.len() == 10);
        assert("timeInForce"@.len() == 11);
        assert("time_in_force"@.len() == 13);
        assert("feeAsset"@.len() == 8);
        assert("fee_asset"@.len() == 9);
        assert("owner"@[0] != "price"@[0]);
        assert("side"@[0] != "type"@[0]);
        assert("quantity"@[0] != "feeAsset"@[0]);
        assert("createdAt"@[0] != "fee_asset"@[0]);
        if m.id.len() == 0 {
            assert(m.id =~= Seq::<char>::empty());
        }
        lemma_fold_entry_if(st, m.id.len() != 0, "id"@, JsonV::Str(m.id), Self::step_fn());
    }

    /// Reading the member that the field `owner` writes sets the field.
    pub proof fn lemma_entry_owner(m: OrderV, st: (OrderV, Seq<bool>))
        requires
            st.1.len() == 4,
            st.0.owner is None,
        ensures
            fold_entries(st, Self::spec_entry_owner(m), Self::step_fn()) == Ok::<(OrderV, Seq<bool>), JsonErrorV>((OrderV { owner: m.owner, ..st.0 }, st.1)),
    {
        reveal_strlit("id");
        reveal_strlit("owner");
        reveal_strlit("market");
        reveal_strlit("side");
        reveal_strlit("type");
        reveal_strlit("price");
        reveal_strlit("quantity");
        reveal_strlit("remainingQuantity");
        reveal_strlit("remaining_quantity");
        reveal_strlit("createdAt");
        reveal_strlit("created_at");
        reveal_strlit("timeInForce");
        reveal_strlit("time_in_force");
        reveal_strlit("feeAsset");
        reveal_strlit("fee_asset");
        assert("id"@.len() == 2);
        assert("owner"@.len() == 5);
        assert("market"@.len() == 6);
        assert("side"@.len() == 4);
        assert("type"@.len() == 4);
        assert("price"@.len() == 5);
        assert("quantity"@.len() == 8);
        assert("remainingQuantity"@.len() == 17);
        assert("remaining_quantity"@.len() == 18);
        assert("createdAt"@.len() == 9);
        assert("created_at"@.len() == 10);
        assert("timeInForce"@.len() == 11);
        assert("time_in_force"@.len() == 13);
        assert("feeAsset"@.len() == 8);
        assert("fee_asset"@.len() == 9);
        assert("owner"@[0] != "price"@[0]);
        assert("side"@[0] != "type"@[0]);
        assert("quantity"@[0] != "feeAsset"@[0]);
        assert("createdAt"@[0] != "fee_asset"@[0]);
        lemma_fold_entry_if(st, m.owner is Some, "owner"@, JsonV::Object(m.owner.unwrap()), Self::step_fn());
    }

    /// Reading the member that the field `market` writes sets the field.
    pub proof fn lemma_entry_market(m: OrderV, st: (OrderV, Seq<bool>))
        requires
            st.1.len() == 4,
            !st.1[1],
            st.0.market == Seq::<char>::empty(),
        ensures
            fold_entries(st, Self::spec_entry_market(m), Self::step_fn()) == Ok::<(OrderV, Seq<bool>), JsonErrorV>((OrderV { market: m.market, ..st.0 }, if m.market.len() != 0 { st.1.update(1, true) } else { st.1 })),
    {
        reveal_strlit("id");
        reveal_strlit("owner");
        reveal_strlit("market");
        reveal_strlit("side");
        reveal_strlit("type");
        reveal_strlit("price");
        reveal_strlit("quantity");
        reveal_strlit("remainingQuantity");
        reveal_strlit("remaining_quantity");
        reveal_strlit("createdAt");
        reveal_strlit("created_at");
        reveal_strlit("timeInForce");
        reveal_strlit("time_in_force");
        reveal_strlit("feeAsset");
        reveal_strlit("fee_asset");
        assert("id"@.len() == 2);
        assert("owner"@.len() == 5);
        assert("market"@.len() == 6);
        assert("side"@.len() == 4);
        assert("type"@.len() == 4);
        assert("price"@.len() == 5);
        assert("quantity"@.len() == 8);
        assert("remainingQuantity"@.len() == 17);
        assert("remaining_quantity"@.len() == 18);
        assert("createdAt"@.len() == 9);
        assert("created_at"@.len() == 10);
        assert("timeInForce"@.len() == 11);
        assert("time_in_force"@.len() == 13);
        assert("feeAsset"@.len() == 8);
        assert("fee_asset"@.len() == 9);
        assert("owner"@[0] != "price"@[0]);
        assert("side"@[0] != "type"@[0]);
        assert("quantity"@[0] != "feeAsset"@[0]);
        assert("createdAt"@[0] != "fee_asset"@[0]);
        if m.market.len() == 0 {
            assert(m.market =~= Seq::<char>::empty());
        }
        lemma_fold_entry_if(st, m.market.len() != 0, "market"@, JsonV::Str(m.market), Self::step_fn());
    }

    /// Reading the member that the field `side` writes sets the field.
    pub proof fn lemma_entry_side(m: OrderV, st: (OrderV, Seq<bool>))
        requires
            st.1.len() == 4,
            st.0.side is None,
            Self::spec_error_side(m) is None,
        ensures
            fold_entries(st, Self::spec_entry_side(m), Self::step_fn()) == Ok::<(OrderV, Seq<bool>), JsonErrorV>((OrderV { side: m.side, ..st.0 }, st.1)),
    {
        reveal_strlit("id");
        reveal_strlit("owner");
        reveal_strlit("market");
        reveal_strlit("side");
        reveal_strlit("type");
        reveal_strlit("price");
        reveal_strlit("quantity");
        reveal_strlit("remainingQuantity");
        reveal_strlit("remaining_quantity");
        reveal_strlit("createdAt");
        reveal_strlit("created_at");
        reveal_strlit("timeInForce");
        reveal_strlit("time_in_force");
        reveal_strlit("feeAsset");
        reveal_strlit("fee_asset");
        assert("id"@.len() == 2);
        assert("owner"@.len() == 5);
        assert("market"@.len() == 6);
        assert("side"@.len() == 4);
        assert("type"@.len() == 4);
        assert("price"@.len() == 5);
        assert("quantity"@.len() == 8);
        assert("remainingQuantity"@.len() == 17);
        assert("remaining_quantity"@.len() == 18);
        assert("createdAt"@.len() == 9);
        assert("created_at"@.len() == 10);
        assert("timeInForce"@.len() == 11);
        assert("time_in_force"@.len() == 13);
        assert("feeAsset"@.len() == 8);
        assert("fee_asset"@.len() == 9);
        assert("owner"@[0] != "price"@[0]);
        assert("side"@[0] != "type"@[0]);
        assert("quantity"@[0] != "feeAsset"@[0]);
        assert("createdAt"@[0] != "fee_asset"@[0]);
        if m.side is Some {
            OrderSide::lemma_json_roundtrip(m.side.unwrap());
        }
        lemma_fold_entry_if(st, m.side is Some, "side"@, OrderSide::spec_to_json(m.side.unwrap()), Self::step_fn());
    }

    /// Reading the member that the field `order_type` writes sets the field.
    pub proof fn lemma_entry_order_type(m: OrderV, st: (OrderV, Seq<bool>))
        requires
            st.1.len() == 4,
            st.0.order_type is None,
            Self::spec_error_order_type(m) is None,
        ensures
            fold_entries(st, Self::spec_entry_order_type(m), Self::step_fn()) == Ok::<(OrderV, Seq<bool>), JsonErrorV>((OrderV { order_type: m.order_type, ..st.0 }, st.1)),
    {
        reveal_strlit("id");
        reveal_strlit("owner");
        reveal_strlit("market");
        reveal_strlit("side");
        reveal_strlit("type");
        reveal_strlit("price");
        reveal_strlit("quantity");
        reveal_strlit("remainingQuantity");
        reveal_strlit("remaining_quantity");
        reveal_strlit("createdAt");
        reveal_strlit("created_at");
        reveal_strlit("timeInForce");
        reveal_strlit("time_in_force");
        reveal_strlit("feeAsset");
        reveal_strlit("fee_asset");
        assert("id"@.len() == 2);
        assert("owner"@.len() == 5);
        assert("market"@.len() == 6);
        assert("side"@.len() == 4);
        assert("type"@.len() == 4);
        assert("price"@.len() == 5);
        assert("quantity"@.len() == 8);
        assert("remainingQuantity"@.len() == 17);
        assert("remaining_quantity"@.len() == 18);
        assert("createdAt"@.len() == 9);
        assert("created_at"@.len() == 10);
        assert("timeInForce"@.len() == 11);
        assert("time_in_force"@.len() == 13);
        assert("feeAsset"@.len() == 8);
        assert("fee_asset"@.len() == 9);
        assert("owner"@[0] != "price"@[0]);
        assert("side"@[0] != "type"@[0]);
        assert("quantity"@[0] != "feeAsset"@[0]);
        assert("createdAt"@[0] != "fee_asset"@[0]);
        if m.order_type is Some {
            OrderType::lemma_json_roundtrip(m.order_type.unwrap());
        }
        lemma_fold_entry_if(st, m.order_type is Some, "type"@, OrderType::spec_to_json(m.order_type.unwrap()), Self::step_fn());
    }

    /// Reading the member that the field `price` writes sets the field.
    pub proof fn lemma_entry_price(m: OrderV, st: (OrderV, Seq<bool>))
        requires
            st.1.len() == 4,
            st.0.price is None,
        ensures
            fold_entries(st, Self::spec_entry_price(m), Self::step_fn()) == Ok::<(OrderV, Seq<bool>), JsonErrorV>((OrderV { price: m.price, ..st.0 }, st.1)),
    {
        reveal_strlit("id");
        reveal_strlit("owner");
        reveal_strlit("market");
        reveal_strlit("side");
        reveal_strlit("type");
        reveal_strlit("price");
        reveal_strlit("quantity");
        reveal_strlit("remainingQuantity");
        reveal_strlit("remaining_quantity");
        reveal_strlit("createdAt");
        reveal_strlit("created_at");
        reveal_strlit("timeInForce");
        reveal_strlit("time_in_force");
        reveal_strlit("feeAsset");
        reveal_strlit("fee_asset");
        assert("id"@.len() == 2);
        assert("owner"@.len() == 5);
        assert("market"@.len() == 6);
        assert("side"@.len() == 4);
        assert("type"@.len() == 4);
        assert("price"@.len() == 5);
        assert("quantity"@.len() == 8);
        assert("remainingQuantity"@.len() == 17);
        assert("remaining_quantity"@.len() == 18);
        assert("createdAt"@.len() == 9);
        assert("created_at"@.len() == 10);
        assert("timeInForce"@.len() == 11);
        assert("time_in_force"@.len() == 13);
        assert("feeAsset"@.len() == 8);
        assert("fee_asset"@.len() == 9);
        assert("owner"@[0] != "price"@[0]);
        assert("side"@[0] != "type"@[0]);
        assert("quantity"@[0] != "feeAsset"@[0]);
        assert("createdAt"@[0] != "fee_asset"@[0]);
        lemma_fold_entry_if(st, m.price is Some, "price"@, JsonV::Object(m.price.unwrap()), Self::step_fn());
    }

    /// Reading the member that the field `quantity` writes sets the field.
    pub proof fn lemma_entry_quantity(m: OrderV, st: (OrderV, Seq<bool>))
        requires
            st.1.len() == 4,
            st.0.quantity is None,
        ensures
            fold_entries(st, Self::spec_entry_quantity(m), Self::step_fn()) == Ok::<(OrderV, Seq<bool>), JsonErrorV>((OrderV { quantity: m.quantity, ..st.0 }, st.1)),
    {
        reveal_strlit("id");
        reveal_strlit("owner");
        reveal_strlit("market");
        reveal_strlit("side");
        reveal_strlit("type");
        reveal_strlit("price");
        reveal_strlit("quantity");
        reveal_strlit("remainingQuantity");
        reveal_strlit("remaining_quantity");
        reveal_strlit("createdAt");
        reveal_strlit("created_at");
        reveal_strlit("timeInForce");
        reveal_strlit("time_in_force");
        reveal_strlit("feeAsset");
        reveal_strlit("fee_asset");
        assert("id"@.len() == 2);
        assert("owner"@.len() == 5);
        assert("market"@.len() == 6);
        assert("side"@.len() == 4);
        assert("type"@.len() == 4);
        assert("price"@.len() == 5);
        assert("quantity"@.len() == 8);
        assert("remainingQuantity"@.len() == 17);
        assert("remaining_quantity"@.len() == 18);
        assert("createdAt"@.len() == 9);
        assert("created_at"@.len() == 10);
        assert("timeInForce"@.len() == 11);
        assert("time_in_force"@.len() == 13);
        assert("feeAsset"@.len() == 8);
        assert("fee_asset"@.len() == 9);
        assert("owner"@[0] != "price"@[0]);
        assert("side"@[0] != "type"@[0]);
        assert("quantity"@[0] != "feeAsset"@[0]);
        assert("createdAt"@[0] != "fee_asset"@[0]);
        lemma_fold_entry_if(st, m.quantity is Some, "quantity"@, JsonV::Object(m.quantity.unwrap()), Self::step_fn());
    }

    /// Reading the member that the field `remaining_quantity` writes sets the field.
    pub proof fn lemma_entry_remaining_quantity(m: OrderV, st: (OrderV, Seq<bool>))
        requires
            st.1.len() == 4,
            st.0.remaining_quantity is None,
        ensures
            fold_entries(st, Self::spec_entry_remaining_quantity(m), Self::step_fn()) == Ok::<(OrderV, Seq<bool>), JsonErrorV>((OrderV { remaining_quantity: m.remaining_quantity, ..st.0 }, st.1)),
    {
        reveal_strlit("id");
        reveal_strlit("owner");
        reveal_strlit("market");
        reveal_strlit("side");
        reveal_strlit("type");
        reveal_strlit("price");
        reveal_strlit("quantity");
        reveal_strlit("remainingQuantity");
        reveal_strlit("remaining_quantity");
        reveal_strlit("createdAt");
        reveal_strlit("created_at");
        reveal_strlit("timeInForce");
        reveal_strlit("time_in_force");
        reveal_strlit("feeAsset");
        reveal_strlit("fee_asset");
        assert("id"@.len() == 2);
        assert("owner"@.len() == 5);
        assert("market"@.len() == 6);
        assert("side"@.len() == 4);
        assert("type"@.len() == 4);
        assert("price"@.len() == 5);
        assert("quantity"@.len() == 8);
        assert("remainingQuantity"@.len() == 17);
        assert("remaining_quantity"@.len() == 18);
        assert("createdAt"@.len() == 9);
        assert("created_at"@.len() == 10);
        assert("timeInForce"@.len() == 11);
        assert("time_in_force"@.len() == 13);
        assert("feeAsset"@.len() == 8);
        assert("fee_asset"@.len() == 9);
        assert("owner"@[0] != "price"@[0]);
        assert("side"@[0] != "type"@[0]);
        assert("quantity"@[0] != "feeAsset"@[0]);
        assert("createdAt"@[0] != "fee_asset"@[0]);
        lemma_fold_entry_if(st, m.remaining_quantity is Some, "remainingQuantity"@, JsonV::Object(m.remaining_quantity.unwrap()), Self::step_fn());
    }

    /// Reading the member that the field `created_at` writes sets the field.
    pub proof fn lemma_entry_created_at(m: OrderV, st: (OrderV, Seq<bool>))
        requires
            st.1.len() == 4,
            !st.1[2],
            st.0.created_at == 0,
        ensures
            fold_entries(st, Self::spec_entry_created_at(m), Self::step_fn()) == Ok::<(OrderV, Seq<bool>), JsonErrorV>((OrderV { created_at: m.created_at, ..st.0 }, if m.created_at != 0 { st.1.update(2, true) } else { st.1 })),
    {
        reveal_strlit("id");
        reveal_strlit("owner");
        reveal_strlit("market");
        reveal_strlit("side");
        reveal_strlit("type");
        reveal_strlit("price");
        reveal_strlit("quantity");
        reveal_strlit("remainingQuantity");
        reveal_strlit("remaining_quantity");
        reveal_strlit("createdAt");
        reveal_strlit("created_at");
        reveal_strlit("timeInForce");
        reveal_strlit("time_in_force");
        reveal_strlit("feeAsset");
        reveal_strlit("fee_asset");
        assert("id"@.len() == 2);
        assert("owner"@.len() == 5);
        assert("market"@.len() == 6);
        assert("side"@.len() == 4);
        assert("type"@.len() == 4);
        assert("price"@.len() == 5);
        assert("quantity"@.len() == 8);
        assert("remainingQuantity"@.len() == 17);
        assert("remaining_quantity"@.len() == 18);
        assert("createdAt"@.len() == 9);
        assert("created_at"@.len() == 10);
        assert("timeInForce"@.len() == 11);
        assert("time_in_force"@.len() == 13);
        assert("feeAsset"@.len() == 8);
        assert("fee_asset"@.len() == 9);
        assert("owner"@[0] != "price"@[0]);
        assert("side"@[0] != "type"@[0]);
        assert("quantity"@[0] != "feeAsset"@[0]);
        assert("createdAt"@[0] != "fee_asset"@[0]);
        lemma_read_u64_value(m.created_at);
        lemma_fold_entry_if(st, m.created_at != 0, "createdAt"@, JsonV::Str(decimal(m.created_at as nat)), Self::step_fn());
    }

    /// Reading the member that the field `time_in_force` writes sets the field.
    pub proof fn lemma_entry_time_in_force(m: OrderV, st: (OrderV, Seq<bool>))
        requires
            st.1.len() == 4,
            st.0.time_in_force is None,
            Self::spec_error_time_in_force(m) is None,
        ensures
            fold_entries(st, Self::spec_entry_time_in_force(m), Self::step_fn()) == Ok::<(OrderV, Seq<bool>), JsonErrorV>((OrderV { time_in_force: m.time_in_force, ..st.0 }, st.1)),
    {
        reveal_strlit("id");
        reveal_strlit("owner");
        reveal_strlit("market");
        reveal_strlit("side");
        reveal_strlit("type");
        reveal_strlit("price");
        reveal_strlit("quantity");
        reveal_strlit("remainingQuantity");
        reveal_strlit("remaining_quantity");
        reveal_strlit("createdAt");
        reveal_strlit("created_at");
        reveal_strlit("timeInForce");
        reveal_strlit("time_in_force");
        reveal_strlit("feeAsset");
        reveal_strlit("fee_asset");
        assert("id"@.len() == 2);
        assert("owner"@.len() == 5);
        assert("market"@.len() == 6);
        assert("side"@.len() == 4);
        assert("type"@.len() == 4);
        assert("price"@.len() == 5);
        assert("quantity"@.len() == 8);
        assert("remainingQuantity"@.len() == 17);
        assert("remaining_quantity"@.len() == 18);
        assert("createdAt"@.len() == 9);
        assert("created_at"@.len() == 10);
        assert("timeInForce"@.len() == 11);
        assert("time_in_force"@.len() == 13);
        assert("feeAsset"@.len() == 8);
        assert("fee_asset"@.len() == 9);
        assert("owner"@[0] != "price"@[0]);
        assert("side"@[0] != "type"@[0]);
        assert("quantity"@[0] != "feeAsset"@[0]);
        assert("createdAt"@[0] != "fee_asset"@[0]);
        if m.time_in_force is Some {
            OrderTimeInForce::lemma_json_roundtrip(m.time_in_force.unwrap());
        }
        lemma_fold_entry_if(st, m.time_in_force is Some, "timeInForce"@, OrderTimeInForce::spec_to_json(m.time_in_force.unwrap()), Self::step_fn());
    }

    /// Reading the member that the field `fee_asset` writes sets the field.
    pub proof fn lemma_entry_fee_asset(m: OrderV, st: (OrderV, Seq<bool>))
        requires
            st.1.len() == 4,
            !st.1[3],
            st.0.fee_asset == Seq::<char>::empty(),
        ensures
            fold_entries(st, Self::spec_entry_fee_asset(m), Self::step_fn()) == Ok::<(OrderV, Seq<bool>), JsonErrorV>((OrderV { fee_asset: m.fee_asset, ..st.0 }, if m.fee_asset.len() != 0 { st.1.update(3, true) } else { st.1 })),
    {
        reveal_strlit("id");
        reveal_strlit("owner");
        reveal_strlit("market");
        reveal_strlit("side");
        reveal_strlit("type");
        reveal_strlit("price");
        reveal_strlit("quantity");
        reveal_strlit("remainingQuantity");
        reveal_strlit("remaining_quantity");
        reveal_strlit("createdAt");
        reveal_strlit("created_at");
        reveal_strlit("timeInForce");
        reveal_strlit("time_in_force");
        reveal_strlit("feeAsset");
        reveal_strlit("fee_asset");
        assert("id"@.len() == 2);
        assert("owner"@.len() == 5);
        assert("market"@.len() == 6);
        assert("side"@.len() == 4);
        assert("type"@.len() == 4);
        assert("price"@.len() == 5);
        assert("quantity"@.len() == 8);
        assert("remainingQuantity"@.len() == 17);
        assert("remaining_quantity"@.len() == 18);
        assert("createdAt"@.len() == 9);
        assert("created_at"@.len() == 10);
        assert("timeInForce"@.len() == 11);
        assert("time_in_force"@.len() == 13);
        assert("feeAsset"@.len() == 8);
        assert("fee_asset"@.len() == 9);
        assert("owner"@[0] != "price"@[0]);
        assert("side"@[0] != "type"@[0]);
        assert("quantity"@[0] != "feeAsset"@[0]);
        assert("createdAt"@[0] != "fee_asset"@[0]);
        if m.fee_asset.len() == 0 {
            assert(m.fee_asset =~= Seq::<char>::empty());
        }
        lemma_fold_entry_if(st, m.fee_asset.len() != 0, "feeAsset"@, JsonV::Str(m.fee_asset), Self::step_fn());
    }

    /// The JSON spelling of a key: the protobuf name of a field becomes its JSON name;
    /// a JSON name, and any key that names no field, is left as it is.
    pub open spec fn spec_json_key(key: Seq<char>) -> Seq<char> {
        if key == "id"@ {
            "id"@
        } else if key == "owner"@ {
            "owner"@
        } else if key == "market"@ {
            "market"@
        } else if key == "side"@ {
            "side"@
        } else if key == "type"@ {
            "type"@
        } else if key == "price"@ {
            "price"@
        } else if key == "quantity"@ {
            "quantity"@
        } else if key == "remainingQuantity"@ || key == "remaining_quantity"@ {
            "remainingQuantity"@
        } else if key == "createdAt"@ || key == "created_at"@ {
            "createdAt"@
        } else if key == "timeInForce"@ || key == "time_in_force"@ {
            "timeInForce"@
        } else if key == "feeAsset"@ || key == "fee_asset"@ {
            "feeAsset"@
        } else {
            key
        }
    }

    /// [`Self::spec_json_key`] as a function value.
    pub open spec fn json_key_fn() -> spec_fn(Seq<char>) -> Seq<char> {
        |key: Seq<char>| Self::spec_json_key(key)
    }

    /// One member is read alike whichever spelling its key has.
    pub proof fn lemma_step_json_key(st: (OrderV, Seq<bool>), key: Seq<char>, v: JsonV)
        ensures Self::spec_step(st, key, v) == Self::spec_step(st, Self::spec_json_key(key), v),
    {
        reveal_strlit("id");
        reveal_strlit("owner");
        reveal_strlit("market");
        reveal_strlit("side");
        reveal_strlit("type");
        reveal_strlit("price");
        reveal_strlit("quantity");
        reveal_strlit("remainingQuantity");
        reveal_strlit("remaining_quantity");
        reveal_strlit("createdAt");
        reveal_strlit("created_at");
        reveal_strlit("timeInForce");
        reveal_strlit("time_in_force");
        reveal_strlit("feeAsset");
        reveal_strlit("fee_asset");
        assert("id"@.len() == 2);
        assert("owner"@.len() == 5);
        assert("market"@.len() == 6);
        assert("side"@.len() == 4);
        assert("type"@.len() == 4);
        assert("price"@.len() == 5);
        assert("quantity"@.len() == 8);
        assert("remainingQuantity"@.len() == 17);
        assert("remaining_quantity"@.len() == 18);
        assert("createdAt"@.len() == 9);
        assert("created_at"@.len() == 10);
        assert("timeInForce"@.len() == 11);
        assert("time_in_force"@.len() == 13);
        assert("feeAsset"@.len() == 8);
        assert("fee_asset"@.len() == 9);
        assert("owner"@[0] != "price"@[0]);
        assert("side"@[0] != "type"@[0]);
        assert("quantity"@[0] != "feeAsset"@[0]);
        assert("createdAt"@[0] != "fee_asset"@[0]);
        if key == "remaining_quantity"@ {
            assert(Self::spec_json_key(key) == "remainingQuantity"@);
        }
        if key == "created_at"@ {
            assert(Self::spec_json_key(key) == "createdAt"@);
        }
        if key == "time_in_force"@ {
            assert(Self::spec_json_key(key) == "timeInForce"@);
        }
        if key == "fee_asset"@ {
            assert(Self::spec_json_key(key) == "feeAsset"@);
        }
    }

    /// Reading an object gives the same result whichever spelling each of its keys has:
    /// two objects whose members hold the same values, in the same order, under keys of
    /// the same JSON spelling describe the same message, or are refused with the same error.
    pub proof fn lemma_key_spelling(es1: Seq<(Seq<char>, JsonV)>, es2: Seq<(Seq<char>, JsonV)>)
        requires
            es1.len() == es2.len(),
            forall|i: int| #![trigger es1[i], es2[i]] 0 <= i < es1.len() ==> es1[i].1 == es2[i].1 && Self::spec_json_key(es1[i].0) == Self::spec_json_key(es2[i].0),
        ensures Self::spec_from_json(JsonV::Object(es1)) == Self::spec_from_json(JsonV::Object(es2)),
    {
        assert forall|s: (OrderV, Seq<bool>), k: Seq<char>, v: JsonV|
            #![trigger Self::step_fn()(s, k, v), Self::json_key_fn()(k)]
            Self::step_fn()(s, k, v) == Self::step_fn()(s, Self::json_key_fn()(k), v) by {
            Self::lemma_step_json_key(s, k, v);
        }
        lemma_fold_same_keys(Self::spec_start(), es1, es2, Self::step_fn(), Self::json_key_fn());
    }

    /// The keys of the object that the message writes: the JSON names of the fields that
    /// do not hold their default (for a oneof, the JSON name of the member set), in the
    /// order of the fields.
    pub open spec fn spec_written_keys(m: OrderV) -> Seq<Seq<char>> {
        key_if(m.id.len() != 0, "id"@)
            + key_if(m.owner is Some, "owner"@)
            + key_if(m.market.len() != 0, "market"@)
            + key_if(m.side is Some, "side"@)
            + key_if(m.order_type is Some, "type"@)
            + key_if(m.price is Some, "price"@)
            + key_if(m.quantity is Some, "quantity"@)
            + key_if(m.remaining_quantity is Some, "remainingQuantity"@)
            + key_if(m.created_at != 0, "createdAt"@)
            + key_if(m.time_in_force is Some, "timeInForce"@)
            + key_if(m.fee_asset.len() != 0, "feeAsset"@)
    }

    /// The object that the message writes has exactly the keys of
    /// [`Self::spec_written_keys`], in that order.
    pub proof fn lemma_written_keys(m: OrderV)
        ensures
            Self::spec_to_json(m) == JsonV::Object(Self::spec_entries(m)),
            entry_keys(Self::spec_entries(m)) == Self::spec_written_keys(m),
    {
        lemma_entry_keys_if(m.id.len() != 0, "id"@, JsonV::Str(m.id));
        lemma_entry_keys_append(Self::spec_entry_id(m), m.owner is Some, "owner"@, JsonV::Object(m.owner.unwrap()));
        lemma_entry_keys_append(Self::spec_entry_id(m) + Self::spec_entry_owner(m), m.market.len() != 0, "market"@, JsonV::Str(m.market));
        lemma_entry_keys_append(Self::spec_entry_id(m) + Self::spec_entry_owner(m) + Self::spec_entry_market(m), m.side is Some, "side"@, OrderSide::spec_to_json(m.side.unwrap()));
        lemma_entry_keys_append(Self::spec_entry_id(m) + Self::spec_entry_owner(m) + Self::spec_entry_market(m) + Self::spec_entry_side(m), m.order_type is Some, "type"@, OrderType::spec_to_json(m.order_type.unwrap()));
        lemma_entry_keys_append(Self::spec_entry_id(m) + Self::spec_entry_owner(m) + Self::spec_entry_market(m) + Self::spec_entry_side(m) + Self::spec_entry_order_type(m), m.price is Some, "price"@, JsonV::Object(m.price.unwrap()));
        lemma_entry_keys_append(Self::spec_entry_id(m) + Self::spec_entry_owner(m) + Self::spec_entry_market(m) + Self::spec_entry_side(m) + Self::spec_entry_order_type(m) + Self::spec_entry_price(m), m.quantity is Some, "quantity"@, JsonV::Object(m.quantity.unwrap()));
        lemma_entry_keys_append(Self::spec_entry_id(m) + Self::spec_entry_owner(m) + Self::spec_entry_market(m) + Self::spec_entry_side(m) + Self::spec_entry_order_type(m) + Self::spec_entry_price(m) + Self::spec_entry_quantity(m), m.remaining_quantity is Some, "remainingQuantity"@, JsonV::Object(m.remaining_quantity.unwrap()));
        lemma_entry_keys_append(Self::spec_entry_id(m) + Self::spec_entry_owner(m) + Self::spec_entry_market(m) + Self::spec_entry_side(m) + Self::spec_entry_order_type(m) + Self::spec_entry_price(m) + Self::spec_entry_quantity(m) + Self::spec_entry_remaining_quantity(m), m.created_at != 0, "createdAt"@, JsonV::Str(decimal(m.created_at as nat)));
        lemma_entry_keys_append(Self::spec_entry_id(m) + Self::spec_entry_owner(m) + Self::spec_entry_market(m) + Self::spec_entry_side(m) + Self::spec_entry_order_type(m) + Self::spec_entry_price(m) + Self::spec_entry_quantity(m) + Self::spec_entry_remaining_quantity(m) + Self::spec_entry_created_at(m), m.time_in_force is Some, "timeInForce"@, OrderTimeInForce::spec_to_json(m.time_in_force.unwrap()));
        lemma_entry_keys_append(Self::spec_entry_id(m) + Self::spec_entry_owner(m) + Self::spec_entry_market(m) + Self::spec_entry_side(m) + Self::spec_entry_order_type(m) + Self::spec_entry_price(m) + Self::spec_entry_quantity(m) + Self::spec_entry_remaining_quantity(m) + Self::spec_entry_created_at(m) + Self::spec_entry_time_in_force(m), m.fee_asset.len() != 0, "feeAsset"@, JsonV::Str(m.fee_asset));
    }

    /// Whether the field whose JSON name is `name` holds its default in `m`; for a member
    /// of a oneof, whether the oneof is set to another member or unset. `true` for a name
    /// that names no field.
    pub open spec fn spec_holds_default(m: OrderV, name: Seq<char>) -> bool {
        if name == "id"@ {
            m.id == Seq::<char>::empty()
        } else if name == "owner"@ {
            m.owner is None
        } else if name == "market"@ {
            m.market == Seq::<char>::empty()
        } else if name == "side"@ {
            m.side is None
        } else if name == "type"@ {
            m.order_type is None
        } else if name == "price"@ {
            m.price is None
        } else if name == "quantity"@ {
            m.quantity is None
        } else if name == "remainingQuantity"@ {
            m.remaining_quantity is None
        } else if name == "createdAt"@ {
            m.created_at == 0
        } else if name == "timeInForce"@ {
            m.time_in_force is None
        } else if name == "feeAsset"@ {
            m.fee_asset == Seq::<char>::empty()
        } else {
            true
        }
    }

    /// Whether reading `v` for the field whose JSON name is `name` leaves the field at
    /// its default: `null`, for a field that takes it (a message field, a member of a
    /// oneof); nothing, for any other field. `true` for a name that names no field.
    pub open spec fn spec_leaves_default(name: Seq<char>, v: JsonV) -> bool {
        if name == "id"@ {
            false
        } else if name == "owner"@ {
            v is Null
        } else if name == "market"@ {
            false
        } else if name == "side"@ {
            v is Null
        } else if name == "type"@ {
            v is Null
        } else if name == "price"@ {
            v is Null
        } else if name == "quantity"@ {
            v is Null
        } else if name == "remainingQuantity"@ {
            v is Null
        } else if name == "createdAt"@ {
            false
        } else if name == "timeInForce"@ {
            v is Null
        } else if name == "feeAsset"@ {
            false
        } else {
            true
        }
    }

    /// Reading one member keeps a field at its default unless the key names the field
    /// and the value does not leave it there.
    pub proof fn lemma_step_keeps_default(st: (OrderV, Seq<bool>), key: Seq<char>, v: JsonV, name: Seq<char>)
        requires
            Self::spec_holds_default(st.0, name),
            Self::spec_json_key(key) == name ==> Self::spec_leaves_default(name, v),
        ensures
            Self::spec_step(st, key, v) is Ok ==> Self::spec_holds_default(Self::spec_step(st, key, v)->Ok_0.0, name),
    {
        reveal_strlit("id");
        reveal_strlit("owner");
        reveal_strlit("market");
        reveal_strlit("side");
        reveal_strlit("type");
        reveal_strlit("price");
        reveal_strlit("quantity");
        reveal_strlit("remainingQuantity");
        reveal_strlit("remaining_quantity");
        reveal_strlit("createdAt");
        reveal_strlit("created_at");
        reveal_strlit("timeInForce");
        reveal_strlit("time_in_force");
        reveal_strlit("feeAsset");
        reveal_strlit("fee_asset");
        assert("id"@.len() == 2);
        assert("owner"@.len() == 5);
        assert("market"@.len() == 6);
        assert("side"@.len() == 4);
        assert("type"@.len() == 4);
        assert("price"@.len() == 5);
        assert("quantity"@.len() == 8);
        assert("remainingQuantity"@.len() == 17);
        assert("remaining_quantity"@.len() == 18);
        assert("createdAt"@.len() == 9);
        assert("created_at"@.len() == 10);
        assert("timeInForce"@.len() == 11);
        assert("time_in_force"@.len() == 13);
        assert("feeAsset"@.len() == 8);
        assert("fee_asset"@.len() == 9);
        assert("owner"@[0] != "price"@[0]);
        assert("side"@[0] != "type"@[0]);
        assert("quantity"@[0] != "feeAsset"@[0]);
        assert("createdAt"@[0] != "fee_asset"@[0]);
        Self::lemma_step_json_key(st, key, v);
    }

    /// A field whose key appears in no member of an object, or only with values that
    /// leave it at its default (`null`, for a field that takes it), holds its default in
    /// the message that the object describes.
    pub proof fn lemma_absent_default(es: Seq<(Seq<char>, JsonV)>, name: Seq<char>)
        requires
            forall|i: int| 0 <= i < es.len() ==> (Self::spec_json_key((#[trigger] es[i]).0) == name
                ==> Self::spec_leaves_default(name, es[i].1)),
        ensures
            Self::spec_from_json(JsonV::Object(es)) is Ok
                ==> Self::spec_holds_default(Self::spec_from_json(JsonV::Object(es))->Ok_0, name),
    {
        let inv = |s: (OrderV, Seq<bool>)| Self::spec_holds_default(s.0, name);
        let allowed = |k: Seq<char>, v: JsonV| Self::spec_json_key(k) == name ==> Self::spec_leaves_default(name, v);
        assert forall|s: (OrderV, Seq<bool>), k: Seq<char>, v: JsonV| #![trigger Self::step_fn()(s, k, v)]
            inv(s) && allowed(k, v) && Self::step_fn()(s, k, v) is Ok implies inv(Self::step_fn()(s, k, v)->Ok_0) by {
            Self::lemma_step_keeps_default(s, k, v, name);
        }
        assert(inv(Self::spec_start()));
        lemma_fold_keeps(Self::spec_start(), es, Self::step_fn(), inv, allowed);
    }

    /// The field `id` alone: an object with one member under its JSON or protobuf
    /// name reads as the message with that field set and every other field at its
    /// default, and the message with only that field off its default writes that
    /// one member under the JSON name.
    pub proof fn lemma_field_id(s: Seq<char>)
        ensures
            Self::spec_from_json(JsonV::Object(seq![("id"@, JsonV::Str(s))])) == Ok::<OrderV, JsonErrorV>(OrderV { id: s, ..Self::spec_default() }),
            s.len() > 0 ==> Self::spec_to_json(OrderV { id: s, ..Self::spec_default() }) == JsonV::Object(seq![("id"@, JsonV::Str(s))]),
    {
        reveal_strlit("id");
        reveal_strlit("owner");
        reveal_strlit("market");
        reveal_strlit("side");
        reveal_strlit("type");
        reveal_strlit("price");
        reveal_strlit("quantity");
        reveal_strlit("remainingQuantity");
        reveal_strlit("remaining_quantity");
        reveal_strlit("createdAt");
        reveal_strlit("created_at");
        reveal_strlit("timeInForce");
        reveal_strlit("time_in_force");
        reveal_strlit("feeAsset");
        reveal_strlit("fee_asset");
        assert("id"@.len() == 2);
        assert("owner"@.len() == 5);
        assert("market"@.len() == 6);
        assert("side"@.len() == 4);
        assert("type"@.len() == 4);
        assert("price"@.len() == 5);
        assert("quantity"@.len() == 8);
        assert("remainingQuantity"@.len() == 17);
        assert("remaining_quantity"@.len() == 18);
        assert("createdAt"@.len() == 9);
        assert("created_at"@.len() == 10);
        assert("timeInForce"@.len() == 11);
        assert("time_in_force"@.len() == 13);
        assert("feeAsset"@.len() == 8);
        assert("fee_asset"@.len() == 9);
        assert("owner"@[0] != "price"@[0]);
        assert("side"@[0] != "type"@[0]);
        assert("quantity"@[0] != "feeAsset"@[0]);
        assert("createdAt"@[0] != "fee_asset"@[0]);
        lemma_fold_entry_if(Self::spec_start(), true, "id"@, JsonV::Str(s), Self::step_fn());
    }

    /// The field `owner` alone: an object with one member under its JSON or protobuf
    /// name reads as the message with that field set and every other field at its
    /// default, and the message with only that field off its default writes that
    /// one member under the JSON name.
    pub proof fn lemma_field_owner(es: Seq<(Seq<char>, JsonV)>)
        ensures
            Self::spec_from_json(JsonV::Object(seq![("owner"@, JsonV::Object(es))])) == Ok::<OrderV, JsonErrorV>(OrderV { owner: Some(es), ..Self::spec_default() }),
            Self::spec_from_json(JsonV::Object(seq![("owner"@, JsonV::Null)])) == Ok::<OrderV, JsonErrorV>(Self::spec_default()),
            Self::spec_to_json(OrderV { owner: Some(es), ..Self::spec_default() }) == JsonV::Object(seq![("owner"@, JsonV::Object(es))]),
    {
        reveal_strlit("id");
        reveal_strlit("owner");
        reveal_strlit("market");
        reveal_strlit("side");
        reveal_strlit("type");
        reveal_strlit("price");
        reveal_strlit("quantity");
        reveal_strlit("remainingQuantity");
        reveal_strlit("remaining_quantity");
        reveal_strlit("createdAt");
        reveal_strlit("created_at");
        reveal_strlit("timeInForce");
        reveal_strlit("time_in_force");
        reveal_strlit("feeAsset");
        reveal_strlit("fee_asset");
        assert("id"@.len() == 2);
        assert("owner"@.len() == 5);
        assert("market"@.len() == 6);
        assert("side"@.len() == 4);
        assert("type"@.len() == 4);
        assert("price"@.len() == 5);
        assert("quantity"@.len() == 8);
        assert("remainingQuantity"@.len() == 17);
        assert("remaining_quantity"@.len() == 18);
        assert("createdAt"@.len() == 9);
        assert("created_at"@.len() == 10);
        assert("timeInForce"@.len() == 11);
        assert("time_in_force"@.len() == 13);
        assert("feeAsset"@.len() == 8);
        assert("fee_asset"@.len() == 9);
        assert("owner"@[0] != "price"@[0]);
        assert("side"@[0] != "type"@[0]);
        assert("quantity"@[0] != "feeAsset"@[0]);
        assert("createdAt"@[0] != "fee_asset"@[0]);
        lemma_fold_entry_if(Self::spec_start(), true, "owner"@, JsonV::Object(es), Self::step_fn());
        lemma_fold_entry_if(Self::spec_start(), true, "owner"@, JsonV::Null, Self::step_fn());
    }

    /// The field `market` alone: an object with one member under its JSON or protobuf
    /// name reads as the message with that field set and every other field at its
    /// default, and the message with only that field off its default writes that
    /// one member under the JSON name.
    pub proof fn lemma_field_market(s: Seq<char>)
        ensures
            Self::spec_from_json(JsonV::Object(seq![("market"@, JsonV::Str(s))])) == Ok::<OrderV, JsonErrorV>(OrderV { market: s, ..Self::spec_default() }),
            s.len() > 0 ==> Self::spec_to_json(OrderV { market: s, ..Self::spec_default() }) == JsonV::Object(seq![("market"@, JsonV::Str(s))]),
    {
        reveal_strlit("id");
        reveal_strlit("owner");
        reveal_strlit("market");
        reveal_strlit("side");
        reveal_strlit("type");
        reveal_strlit("price");
        reveal_strlit("quantity");
        reveal_strlit("remainingQuantity");
        reveal_strlit("remaining_quantity");
        reveal_strlit("createdAt");
        reveal_strlit("created_at");
        reveal_strlit("timeInForce");
        reveal_strlit("time_in_force");
        reveal_strlit("feeAsset");
        reveal_strlit("fee_asset");
        assert("id"@.len() == 2);
        assert("owner"@.len() == 5);
        assert("market"@.len() == 6);
        assert("side"@.len() == 4);
        assert("type"@.len() == 4);
        assert("price"@.len() == 5);
        assert("quantity"@.len() == 8);
        assert("remainingQuantity"@.len() == 17);
        assert("remaining_quantity"@.len() == 18);
        assert("createdAt"@.len() == 9);
        assert("created_at"@.len() == 10);
        assert("timeInForce"@.len() == 11);
        assert("time_in_force"@.len() == 13);
        assert("feeAsset"@.len() == 8);
        assert("fee_asset"@.len() == 9);
        assert("owner"@[0] != "price"@[0]);
        assert("side"@[0] != "type"@[0]);
        assert("quantity"@[0] != "feeAsset"@[0]);
        assert("createdAt"@[0] != "fee_asset"@[0]);
        lemma_fold_entry_if(Self::spec_start(), true, "market"@, JsonV::Str(s), Self::step_fn());
    }

    /// The field `side` alone: an object with one member under its JSON or protobuf
    /// name reads as the message with that field set and every other field at its
    /// default, and the message with only that field off its default writes that
    /// one member under the JSON name.
    pub proof fn lemma_field_side(x: OrderSideV, es: Seq<(Seq<char>, JsonV)>)
        ensures
            Self::spec_from_json(JsonV::Object(seq![("side"@, JsonV::Object(es))])) == (match OrderSide::spec_from_json(JsonV::Object(es)) { Ok(y) => Ok::<OrderV, JsonErrorV>(OrderV { side: Some(y), ..Self::spec_default() }), Err(e) => Err(e) }),
            Self::spec_from_json(JsonV::Object(seq![("side"@, JsonV::Null)])) == Ok::<OrderV, JsonErrorV>(Self::spec_default()),
            Self::spec_to_json(OrderV { side: Some(x), ..Self::spec_default() }) == JsonV::Object(seq![("side"@, OrderSide::spec_to_json(x))]),
    {
        reveal_strlit("id");
        reveal_strlit("owner");
        reveal_strlit("market");
        reveal_strlit("side");
        reveal_strlit("type");
        reveal_strlit("price");
        reveal_strlit("quantity");
        reveal_strlit("remainingQuantity");
        reveal_strlit("remaining_quantity");
        reveal_strlit("createdAt");
        reveal_strlit("created_at");
        reveal_strlit("timeInForce");
        reveal_strlit("time_in_force");
        reveal_strlit("feeAsset");
        reveal_strlit("fee_asset");
        assert("id"@.len() == 2);
        assert("owner"@.len() == 5);
        assert("market"@.len() == 6);
        assert("side"@.len() == 4);
        assert("type"@.len() == 4);
        assert("price"@.len() == 5);
        assert("quantity"@.len() == 8);
        assert("remainingQuantity"@.len() == 17);
        assert("remaining_quantity"@.len() == 18);
        assert("createdAt"@.len() == 9);
        assert("created_at"@.len() == 10);
        assert("timeInForce"@.len() == 11);
        assert("time_in_force"@.len() == 13);
        assert("feeAsset"@.len() == 8);
        assert("fee_asset"@.len() == 9);
        assert("owner"@[0] != "price"@[0]);
        assert("side"@[0] != "type"@[0]);
        assert("quantity"@[0] != "feeAsset"@[0]);
        assert("createdAt"@[0] != "fee_asset"@[0]);
        lemma_fold_entry_if(Self::spec_start(), true, "side"@, JsonV::Object(es), Self::step_fn());
        lemma_fold_entry_if(Self::spec_start(), true, "side"@, JsonV::Null, Self::step_fn());
    }

    /// The field `type` alone: an object with one member under its JSON or protobuf
    /// name reads as the message with that field set and every other field at its
    /// default, and the message with only that field off its default writes that
    /// one member under the JSON name.
    pub proof fn lemma_field_order_type(x: OrderTypeV, es: Seq<(Seq<char>, JsonV)>)
        ensures
            Self::spec_from_json(JsonV::Object(seq![("type"@, JsonV::Object(es))])) == (match OrderType::spec_from_json(JsonV::Object(es)) { Ok(y) => Ok::<OrderV, JsonErrorV>(OrderV { order_type: Some(y), ..Self::spec_default() }), Err(e) => Err(e) }),
            Self::spec_from_json(JsonV::Object(seq![("type"@, JsonV::Null)])) == Ok::<OrderV, JsonErrorV>(Self::spec_default()),
            Self::spec_to_json(OrderV { order_type: Some(x), ..Self::spec_default() }) == JsonV::Object(seq![("type"@, OrderType::spec_to_json(x))]),
    {
        reveal_strlit("id");
        reveal_strlit("owner");
        reveal_strlit("market");
        reveal_strlit("side");
        reveal_strlit("type");
        reveal_strlit("price");
        reveal_strlit("quantity");
        reveal_strlit("remainingQuantity");
        reveal_strlit("remaining_quantity");
        reveal_strlit("createdAt");
        reveal_strlit("created_at");
        reveal_strlit("timeInForce");
        reveal_strlit("time_in_force");
        reveal_strlit("feeAsset");
        reveal_strlit("fee_asset");
        assert("id"@.len() == 2);
        assert("owner"@.len() == 5);
        assert("market"@.len() == 6);
        assert("side"@.len() == 4);
        assert("type"@.len() == 4);
        assert("price"@.len() == 5);
        assert("quantity"@.len() == 8);
        assert("remainingQuantity"@.len() == 17);
        assert("remaining_quantity"@.len() == 18);
        assert("createdAt"@.len() == 9);
        assert("created_at"@.len() == 10);
        assert("timeInForce"@.len() == 11);
        assert("time_in_force"@.len() == 13);
        assert("feeAsset"@.len() == 8);
        assert("fee_asset"@.len() == 9);
        assert("owner"@[0] != "price"@[0]);
        assert("side"@[0] != "type"@[0]);
        assert("quantity"@[0] != "feeAsset"@[0]);
        assert("createdAt"@[0] != "fee_asset"@[0]);
        lemma_fold_entry_if(Self::spec_start(), true, "type"@, JsonV::Object(es), Self::step_fn());
        lemma_fold_entry_if(Self::spec_start(), true, "type"@, JsonV::Null, Self::step_fn());
    }

    /// The field `price` alone: an object with one member under its JSON or protobuf
    /// name reads as the message with that field set and every other field at its
    /// default, and the message with only that field off its default writes that
    /// one member under the JSON name.
    pub proof fn lemma_field_price(es: Seq<(Seq<char>, JsonV)>)
        ensures
            Self::spec_from_json(JsonV::Object(seq![("price"@, JsonV::Object(es))])) == Ok::<OrderV, JsonErrorV>(OrderV { price: Some(es), ..Self::spec_default() }),
            Self::spec_from_json(JsonV::Object(seq![("price"@, JsonV::Null)])) == Ok::<OrderV, JsonErrorV>(Self::spec_default()),
            Self::spec_to_json(OrderV { price: Some(es), ..Self::spec_default() }) == JsonV::Object(seq![("price"@, JsonV::Object(es))]),
    {
        reveal_strlit("id");
        reveal_strlit("owner");
        reveal_strlit("market");
        reveal_strlit("side");
        reveal_strlit("type");
        reveal_strlit("price");
        reveal_strlit("quantity");
        reveal_strlit("remainingQuantity");
        reveal_strlit("remaining_quantity");
        reveal_strlit("createdAt");
        reveal_strlit("created_at");
        reveal_strlit("timeInForce");
        reveal_strlit("time_in_force");
        reveal_strlit("feeAsset");
        reveal_strlit("fee_asset");
        assert("id"@.len() == 2);
        assert("owner"@.len() == 5);
        assert("market"@.len() == 6);
        assert("side"@.len() == 4);
        assert("type"@.len() == 4);
        assert("price"@.len() == 5);
        assert("quantity"@.len() == 8);
        assert("remainingQuantity"@.len() == 17);
        assert("remaining_quantity"@.len() == 18);
        assert("createdAt"@.len() == 9);
        assert("created_at"@.len() == 10);
        assert("timeInForce"@.len() == 11);
        assert("time_in_force"@.len() == 13);
        assert("feeAsset"@.len() == 8);
        assert("fee_asset"@.len() == 9);
        assert("owner"@[0] != "price"@[0]);
        assert("side"@[0] != "type"@[0]);
        assert("quantity"@[0] != "feeAsset"@[0]);
        assert("createdAt"@[0] != "fee_asset"@[0]);
        lemma_fold_entry_if(Self::spec_start(), true, "price"@, JsonV::Object(es), Self::step_fn());
        lemma_fold_entry_if(Self::spec_start(), true, "price"@, JsonV::Null, Self::step_fn());
    }

    /// The field `quantity` alone: an object with one member under its JSON or protobuf
    /// name reads as the message with that field set and every other field at its
    /// default, and the message with only that field off its default writes that
    /// one member under the JSON name.
    pub proof fn lemma_field_quantity(es: Seq<(Seq<char>, JsonV)>)
        ensures
            Self::spec_from_json(JsonV::Object(seq![("quantity"@, JsonV::Object(es))])) == Ok::<OrderV, JsonErrorV>(OrderV { quantity: Some(es), ..Self::spec_default() }),
            Self::spec_from_json(JsonV::Object(seq![("quantity"@, JsonV::Null)])) == Ok::<OrderV, JsonErrorV>(Self::spec_default()),
            Self::spec_to_json(OrderV { quantity: Some(es), ..Self::spec_default() }) == JsonV::Object(seq![("quantity"@, JsonV::Object(es))]),
    {
        reveal_strlit("id");
        reveal_strlit("owner");
        reveal_strlit("market");
        reveal_strlit("side");
        reveal_strlit("type");
        reveal_strlit("price");
        reveal_strlit("quantity");
        reveal_strlit("remainingQuantity");
        reveal_strlit("remaining_quantity");
        reveal_strlit("createdAt");
        reveal_strlit("created_at");
        reveal_strlit("timeInForce");
        reveal_strlit("time_in_force");
        reveal_strlit("feeAsset");
        reveal_strlit("fee_asset");
        assert("id"@.len() == 2);
        assert("owner"@.len() == 5);
        assert("market"@.len() == 6);
        assert("side"@.len() == 4);
        assert("type"@.len() == 4);
        assert("price"@.len() == 5);
        assert("quantity"@.len() == 8);
        assert("remainingQuantity"@.len() == 17);
        assert("remaining_quantity"@.len() == 18);
        assert("createdAt"@.len() == 9);
        assert("created_at"@.len() == 10);
        assert("timeInForce"@.len() == 11);
        assert("time_in_force"@.len() == 13);
        assert("feeAsset"@.len() == 8);
        assert("fee_asset"@.len() == 9);
        assert("owner"@[0] != "price"@[0]);
        assert("side"@[0] != "type"@[0]);
        assert("quantity"@[0] != "feeAsset"@[0]);
        assert("createdAt"@[0] != "fee_asset"@[0]);
        lemma_fold_entry_if(Self::spec_start(), true, "quantity"@, JsonV::Object(es), Self::step_fn());
        lemma_fold_entry_if(Self::spec_start(), true, "quantity"@, JsonV::Null, Self::step_fn());
    }

    /// The field `remaining_quantity` alone: an object with one member under its JSON or protobuf
    /// name reads as the message with that field set and every other field at its
    /// default, and the message with only that field off its default writes that
    /// one member under the JSON name.
    pub proof fn lemma_field_remaining_quantity(es: Seq<(Seq<char>, JsonV)>)
        ensures
            Self::spec_from_json(JsonV::Object(seq![("remainingQuantity"@, JsonV::Object(es))])) == Ok::<OrderV, JsonErrorV>(OrderV { remaining_quantity: Some(es), ..Self::spec_default() }),
            Self::spec_from_json(JsonV::Object(seq![("remainingQuantity"@, JsonV::Null)])) == Ok::<OrderV, JsonErrorV>(Self::spec_default()),
            Self::spec_from_json(JsonV::Object(seq![("remaining_quantity"@, JsonV::Object(es))])) == Ok::<OrderV, JsonErrorV>(OrderV { remaining_quantity: Some(es), ..Self::spec_default() }),
            Self::spec_from_json(JsonV::Object(seq![("remaining_quantity"@, JsonV::Null)])) == Ok::<OrderV, JsonErrorV>(Self::spec_default()),
            Self::spec_to_json(OrderV { remaining_quantity: Some(es), ..Self::spec_default() }) == JsonV::Object(seq![("remainingQuantity"@, JsonV::Object(es))]),
    {
        reveal_strlit("id");
        reveal_strlit("owner");
        reveal_strlit("market");
        reveal_strlit("side");
        reveal_strlit("type");
        reveal_strlit("price");
        reveal_strlit("quantity");
        reveal_strlit("remainingQuantity");
        reveal_strlit("remaining_quantity");
        reveal_strlit("createdAt");
        reveal_strlit("created_at");
        reveal_strlit("timeInForce");
        reveal_strlit("time_in_force");
        reveal_strlit("feeAsset");
        reveal_strlit("fee_asset");
        assert("id"@.len() == 2);
        assert("owner"@.len() == 5);
        assert("market"@.len() == 6);
        assert("side"@.len() == 4);
        assert("type"@.len() == 4);
        assert("price"@.len() == 5);
        assert("quantity"@.len() == 8);
        assert("remainingQuantity"@.len() == 17);
        assert("remaining_quantity"@.len() == 18);
        assert("createdAt"@.len() == 9);
        assert("created_at"@.len() == 10);
        assert("timeInForce"@.len() == 11);
        assert("time_in_force"@.len() == 13);
        assert("feeAsset"@.len() == 8);
        assert("fee_asset"@.len() == 9);
        assert("owner"@[0] != "price"@[0]);
        assert("side"@[0] != "type"@[0]);
        assert("quantity"@[0] != "feeAsset"@[0]);
        assert("createdAt"@[0] != "fee_asset"@[0]);
        lemma_fold_entry_if(Self::spec_start(), true, "remainingQuantity"@, JsonV::Object(es), Self::step_fn());
        lemma_fold_entry_if(Self::spec_start(), true, "remainingQuantity"@, JsonV::Null, Self::step_fn());
        lemma_fold_entry_if(Self::spec_start(), true, "remaining_quantity"@, JsonV::Object(es), Self::step_fn());
        lemma_fold_entry_if(Self::spec_start(), true, "remaining_quantity"@, JsonV::Null, Self::step_fn());
    }

    /// The field `created_at` alone: an object with one member under its JSON or protobuf
    /// name reads as the message with that field set and every other field at its
    /// default, and the message with only that field off its default writes that
    /// one member under the JSON name.
    pub proof fn lemma_field_created_at(v: u64)
        ensures
            Self::spec_from_json(JsonV::Object(seq![("createdAt"@, JsonV::Unsigned(v))])) == Ok::<OrderV, JsonErrorV>(OrderV { created_at: v, ..Self::spec_default() }),
            Self::spec_from_json(JsonV::Object(seq![("createdAt"@, JsonV::Str(decimal(v as nat)))])) == Ok::<OrderV, JsonErrorV>(OrderV { created_at: v, ..Self::spec_default() }),
            Self::spec_from_json(JsonV::Object(seq![("created_at"@, JsonV::Unsigned(v))])) == Ok::<OrderV, JsonErrorV>(OrderV { created_at: v, ..Self::spec_default() }),
            Self::spec_from_json(JsonV::Object(seq![("created_at"@, JsonV::Str(decimal(v as nat)))])) == Ok::<OrderV, JsonErrorV>(OrderV { created_at: v, ..Self::spec_default() }),
            v != 0 ==> Self::spec_to_json(OrderV { created_at: v, ..Self::spec_default() }) == JsonV::Object(seq![("createdAt"@, JsonV::Str(decimal(v as nat)))]),
    {
        reveal_strlit("id");
        reveal_strlit("owner");
        reveal_strlit("market");
        reveal_strlit("side");
        reveal_strlit("type");
        reveal_strlit("price");
        reveal_strlit("quantity");
        reveal_strlit("remainingQuantity");
        reveal_strlit("remaining_quantity");
        reveal_strlit("createdAt");
        reveal_strlit("created_at");
        reveal_strlit("timeInForce");
        reveal_strlit("time_in_force");
        reveal_strlit("feeAsset");
        reveal_strlit("fee_asset");
        assert("id"@.len() == 2);
        assert("owner"@.len() == 5);
        assert("market"@.len() == 6);
        assert("side"@.len() == 4);
        assert("type"@.len() == 4);
        assert("price"@.len() == 5);
        assert("quantity"@.len() == 8);
        assert("remainingQuantity"@.len() == 17);
        assert("remaining_quantity"@.len() == 18);
        assert("createdAt"@.len() == 9);
        assert("created_at"@.len() == 10);
        assert("timeInForce"@.len() == 11);
        assert("time_in_force"@.len() == 13);
        assert("feeAsset"@.len() == 8);
        assert("fee_asset"@.len() == 9);
        assert("owner"@[0] != "price"@[0]);
        assert("side"@[0] != "type"@[0]);
        assert("quantity"@[0] != "feeAsset"@[0]);
        assert("createdAt"@[0] != "fee_asset"@[0]);
        lemma_read_u64_value(v);
        lemma_fold_entry_if(Self::spec_start(), true, "createdAt"@, JsonV::Unsigned(v), Self::step_fn());
        lemma_fold_entry_if(Self::spec_start(), true, "createdAt"@, JsonV::Str(decimal(v as nat)), Self::step_fn());
        lemma_fold_entry_if(Self::spec_start(), true, "created_at"@, JsonV::Unsigned(v), Self::step_fn());
        lemma_fold_entry_if(Self::spec_start(), true, "created_at"@, JsonV::Str(decimal(v as nat)), Self::step_fn());
    }

    /// The field `time_in_force` alone: an object with one member under its JSON or protobuf
    /// name reads as the message with that field set and every other field at its
    /// default, and the message with only that field off its default writes that
    /// one member under the JSON name.
    pub proof fn lemma_field_time_in_force(x: OrderTimeInForceV, es: Seq<(Seq<char>, JsonV)>)
        ensures
            Self::spec_from_json(JsonV::Object(seq![("timeInForce"@, JsonV::Object(es))])) == (match OrderTimeInForce::spec_from_json(JsonV::Object(es)) { Ok(y) => Ok::<OrderV, JsonErrorV>(OrderV { time_in_force: Some(y), ..Self::spec_default() }), Err(e) => Err(e) }),
            Self::spec_from_json(JsonV::Object(seq![("timeInForce"@, JsonV::Null)])) == Ok::<OrderV, JsonErrorV>(Self::spec_default()),
            Self::spec_from_json(JsonV::Object(seq![("time_in_force"@, JsonV::Object(es))])) == (match OrderTimeInForce::spec_from_json(JsonV::Object(es)) { Ok(y) => Ok::<OrderV, JsonErrorV>(OrderV { time_in_force: Some(y), ..Self::spec_default() }), Err(e) => Err(e) }),
            Self::spec_from_json(JsonV::Object(seq![("time_in_force"@, JsonV::Null)])) == Ok::<OrderV, JsonErrorV>(Self::spec_default()),
            Self::spec_to_json(OrderV { time_in_force: Some(x), ..Self::spec_default() }) == JsonV::Object(seq![("timeInForce"@, OrderTimeInForce::spec_to_json(x))]),
    {
        reveal_strlit("id");
        reveal_strlit("owner");
        reveal_strlit("market");
        reveal_strlit("side");
        reveal_strlit("type");
        reveal_strlit("price");
        reveal_strlit("quantity");
        reveal_strlit("remainingQuantity");
        reveal_strlit("remaining_quantity");
        reveal_strlit("createdAt");
        reveal_strlit("created_at");
        reveal_strlit("timeInForce");
        reveal_strlit("time_in_force");
        reveal_strlit("feeAsset");
        reveal_strlit("fee_asset");
        assert("id"@.len() == 2);
        assert("owner"@.len() == 5);
        assert("market"@.len() == 6);
        assert("side"@.len() == 4);
        assert("type"@.len() == 4);
        assert("price"@.len() == 5);
        assert("quantity"@.len() == 8);
        assert("remainingQuantity"@.len() == 17);
        assert("remaining_quantity"@.len() == 18);
        assert("createdAt"@.len() == 9);
        assert("created_at"@.len() == 10);
        assert("timeInForce"@.len() == 11);
        assert("time_in_force"@.len() == 13);
        assert("feeAsset"@.len() == 8);
        assert("fee_asset"@.len() == 9);
        assert("owner"@[0] != "price"@[0]);
        assert("side"@[0] != "type"@[0]);
        assert("quantity"@[0] != "feeAsset"@[0]);
        assert("createdAt"@[0] != "fee_asset"@[0]);
        lemma_fold_entry_if(Self::spec_start(), true, "timeInForce"@, JsonV::Object(es), Self::step_fn());
        lemma_fold_entry_if(Self::spec_start(), true, "timeInForce"@, JsonV::Null, Self::step_fn());
        lemma_fold_entry_if(Self::spec_start(), true, "time_in_force"@, JsonV::Object(es), Self::step_fn());
        lemma_fold_entry_if(Self::spec_start(), true, "time_in_force"@, JsonV::Null, Self::step_fn());
    }

    /// The field `fee_asset` alone: an object with one member under its JSON or protobuf
    /// name reads as the message with that field set and every other field at its
    /// default, and the message with only that field off its default writes that
    /// one member under the JSON name.
    pub proof fn lemma_field_fee_asset(s: Seq<char>)
        ensures
            Self::spec_from_json(JsonV::Object(seq![("feeAsset"@, JsonV::Str(s))])) == Ok::<OrderV, JsonErrorV>(OrderV { fee_asset: s, ..Self::spec_default() }),
            Self::spec_from_json(JsonV::Object(seq![("fee_asset"@, JsonV::Str(s))])) == Ok::<OrderV, JsonErrorV>(OrderV { fee_asset: s, ..Self::spec_default() }),
            s.len() > 0 ==> Self::spec_to_json(OrderV { fee_asset: s, ..Self::spec_default() }) == JsonV::Object(seq![("feeAsset"@, JsonV::Str(s))]),
    {
        reveal_strlit("id");
        reveal_strlit("owner");
        reveal_strlit("market");
        reveal_strlit("side");
        reveal_strlit("type");
        reveal_strlit("price");
        reveal_strlit("quantity");
        reveal_strlit("remainingQuantity");
        reveal_strlit("remaining_quantity");
        reveal_strlit("createdAt");
        reveal_strlit("created_at");
        reveal_strlit("timeInForce");
        reveal_strlit("time_in_force");
        reveal_strlit("feeAsset");
        reveal_strlit("fee_asset");
        assert("id"@.len() == 2);
        assert("owner"@.len() == 5);
        assert("market"@.len() == 6);
        assert("side"@.len() == 4);
        assert("type"@.len() == 4);
        assert("price"@.len() == 5);
        assert("quantity"@.len() == 8);
        assert("remainingQuantity"@.len() == 17);
        assert("remaining_quantity"@.len() == 18);
        assert("createdAt"@.len() == 9);
        assert("created_at"@.len() == 10);
        assert("timeInForce"@.len() == 11);
        assert("time_in_force"@.len() == 13);
        assert("feeAsset"@.len() == 8);
        assert("fee_asset"@.len() == 9);
        assert("owner"@[0] != "price"@[0]);
        assert("side"@[0] != "type"@[0]);
        assert("quantity"@[0] != "feeAsset"@[0]);
        assert("createdAt"@[0] != "fee_asset"@[0]);
        lemma_fold_entry_if(Self::spec_start(), true, "feeAsset"@, JsonV::Str(s), Self::step_fn());
        lemma_fold_entry_if(Self::spec_start(), true, "fee_asset"@, JsonV::Str(s), Self::step_fn());
    }

    /// Reading back the JSON object of a message gives the message.
    pub proof fn lemma_json_roundtrip(m: OrderV)
        requires
            Self::spec_encode_error(m) is None,
        ensures Self::spec_from_json(Self::spec_to_json(m)) == Ok::<OrderV, JsonErrorV>(m),
    {
        let step = Self::step_fn();
        let s0 = Self::spec_start();
        let s1 = (OrderV { id: m.id, ..s0.0 }, if m.id.len() != 0 { s0.1.update(0, true) } else { s0.1 });
        Self::lemma_entry_id(m, s0);
        let s2 = (OrderV { owner: m.owner, ..s1.0 }, s1.1);
        Self::lemma_entry_owner(m, s1);
        let s3 = (OrderV { market: m.market, ..s2.0 }, if m.market.len() != 0 { s2.1.update(1, true) } else { s2.1 });
        Self::lemma_entry_market(m, s2);
        let s4 = (OrderV { side: m.side, ..s3.0 }, s3.1);
        Self::lemma_entry_side(m, s3);
        let s5 = (OrderV { order_type: m.order_type, ..s4.0 }, s4.1);
        Self::lemma_entry_order_type(m, s4);
        let s6 = (OrderV { price: m.price, ..s5.0 }, s5.1);
        Self::lemma_entry_price(m, s5);
        let s7 = (OrderV { quantity: m.quantity, ..s6.0 }, s6.1);
        Self::lemma_entry_quantity(m, s6);
        let s8 = (OrderV { remaining_quantity: m.remaining_quantity, ..s7.0 }, s7.1);
        Self::lemma_entry_remaining_quantity(m, s7);
        let s9 = (OrderV { created_at: m.created_at, ..s8.0 }, if m.created_at != 0 { s8.1.update(2, true) } else { s8.1 });
        Self::lemma_entry_created_at(m, s8);
        let s10 = (OrderV { time_in_force: m.time_in_force, ..s9.0 }, s9.1);
        Self::lemma_entry_time_in_force(m, s9);
        let s11 = (OrderV { fee_asset: m.fee_asset, ..s10.0 }, if m.fee_asset.len() != 0 { s10.1.update(3, true) } else { s10.1 });
        Self::lemma_entry_fee_asset(m, s10);
        let p1 = Self::spec_entry_id(m);
        let p2 = p1 + Self::spec_entry_owner(m);
        lemma_fold_entries_append(s0, p1, Self::spec_entry_owner(m), step);
        let p3 = p2 + Self::spec_entry_market(m);
        lemma_fold_entries_append(s0, p2, Self::spec_entry_market(m), step);
        let p4 = p3 + Self::spec_entry_side(m);
        lemma_fold_entries_append(s0, p3, Self::spec_entry_side(m), step);
        let p5 = p4 + Self::spec_entry_order_type(m);
        lemma_fold_entries_append(s0, p4, Self::spec_entry_order_type(m), step);
        let p6 = p5 + Self::spec_entry_price(m);
        lemma_fold_entries_append(s0, p5, Self::spec_entry_price(m), step);
        let p7 = p6 + Self::spec_entry_quantity(m);
        lemma_fold_entries_append(s0, p6, Self::spec_entry_quantity(m), step);
        let p8 = p7 + Self::spec_entry_remaining_quantity(m);
        lemma_fold_entries_append(s0, p7, Self::spec_entry_remaining_quantity(m), step);
        let p9 = p8 + Self::spec_entry_created_at(m);
        lemma_fold_entries_append(s0, p8, Self::spec_entry_created_at(m), step);
        let p10 = p9 + Self::spec_entry_time_in_force(m);
        lemma_fold_entries_append(s0, p9, Self::spec_entry_time_in_force(m), step);
        let p11 = p10 + Self::spec_entry_fee_asset(m);
        lemma_fold_entries_append(s0, p10, Self::spec_entry_fee_asset(m), step);
        assert(s11.0 == m);
    }
}

/// The `astria.protocol.orderbook.v1.OrderMatch` message.
#[derive(Clone, Debug, PartialEq)]
pub struct OrderMatch {
    pub id: String,
    pub market: String,
    pub price: Option<Uint128>,
    pub quantity: Option<Uint128>,
    pub maker_order_id: String,
    pub taker_order_id: String,
    pub taker_side: Option<OrderSide>,
    pub timestamp: u64,
}

/// The mathematical content of an [`OrderMatch`].
pub struct OrderMatchV {
    pub id: Seq<char>,
    pub market: Seq<char>,
    pub price: Option<Seq<(Seq<char>, JsonV)>>,
    pub quantity: Option<Seq<(Seq<char>, JsonV)>>,
    pub maker_order_id: Seq<char>,
    pub taker_order_id: Seq<char>,
    pub taker_side: Option<OrderSideV>,
    pub timestamp: u64,
}

impl View for OrderMatch {
    type V = OrderMatchV;

    open spec fn view(&self) -> OrderMatchV {
        OrderMatchV {
            id: self.id@,
            market: self.market@,
            price: opt_embedded_view(self.price),
            quantity: opt_embedded_view(self.quantity),
            maker_order_id: self.maker_order_id@,
            taker_order_id: self.taker_order_id@,
            taker_side: OrderSide::view_opt(self.taker_side),
            timestamp: self.timestamp,
        }
    }
}

impl Default for OrderMatch {
    fn default() -> (r: Self)
        ensures r@ == OrderMatch::spec_default(),
    {
        let r = OrderMatch {
            id: String::new(),
            market: String::new(),
            price: None,
            quantity: None,
            maker_order_id: String::new(),
            taker_order_id: String::new(),
            taker_side: None,
            timestamp: 0,
        };
        r
    }
}

impl OrderMatch {
    /// The fully qualified protobuf name of the message.
    pub fn full_name() -> (r: String)
        ensures r@ == "astria.protocol.orderbook.v1.OrderMatch"@,
    {
        "astria.protocol.orderbook.v1.OrderMatch".to_string()
    }

    /// Every field at its default: empty strings, bytes and lists, zero, `false`, unset.
    pub open spec fn spec_default() -> OrderMatchV {
        OrderMatchV {
            id: Seq::<char>::empty(),
            market: Seq::<char>::empty(),
            price: None,
            quantity: None,
            maker_order_id: Seq::<char>::empty(),
            taker_order_id: Seq::<char>::empty(),
            taker_side: None,
            timestamp: 0,
        }
    }

    /// The view of an optional field of this message type.
    pub open spec fn view_opt(o: Option<Self>) -> Option<OrderMatchV> {
        match o {
            Some(x) => Some(x@),
            None => None,
        }
    }

    /// The view of a repeated field of this message type.
    pub open spec fn view_list(v: Seq<Self>) -> Seq<OrderMatchV> {
        v.map_values(|x: Self| x@)
    }

    /// The member that the field `id` writes: none where it holds its default.
    pub open spec fn spec_entry_id(m: OrderMatchV) -> Seq<(Seq<char>, JsonV)> {
        entry_if(m.id.len() != 0, "id"@, JsonV::Str(m.id))
    }

    /// The member that the field `market` writes: none where it holds its default.
    pub open spec fn spec_entry_market(m: OrderMatchV) -> Seq<(Seq<char>, JsonV)> {
        entry_if(m.market.len() != 0, "market"@, JsonV::Str(m.market))
    }

    /// The member that the field `price` writes: none where it holds its default.
    pub open spec fn spec_entry_price(m: OrderMatchV) -> Seq<(Seq<char>, JsonV)> {
        entry_if(m.price is Some, "price"@, JsonV::Object(m.price.unwrap()))
    }

    /// The member that the field `quantity` writes: none where it holds its default.
    pub open spec fn spec_entry_quantity(m: OrderMatchV) -> Seq<(Seq<char>, JsonV)> {
        entry_if(m.quantity is Some, "quantity"@, JsonV::Object(m.quantity.unwrap()))
    }

    /// The member that the field `maker_order_id` writes: none where it holds its default.
    pub open spec fn spec_entry_maker_order_id(m: OrderMatchV) -> Seq<(Seq<char>, JsonV)> {
        entry_if(m.maker_order_id.len() != 0, "makerOrderId"@, JsonV::Str(m.maker_order_id))
    }

    /// The member that the field `taker_order_id` writes: none where it holds its default.
    pub open spec fn spec_entry_taker_order_id(m: OrderMatchV) -> Seq<(Seq<char>, JsonV)> {
        entry_if(m.taker_order_id.len() != 0, "takerOrderId"@, JsonV::Str(m.taker_order_id))
    }

    /// The member that the field `taker_side` writes: none where it holds its default.
    pub open spec fn spec_entry_taker_side(m: OrderMatchV) -> Seq<(Seq<char>, JsonV)> {
        entry_if(m.taker_side is Some, "takerSide"@, OrderSide::spec_to_json(m.taker_side.unwrap()))
    }

    /// The member that the field `timestamp` writes: none where it holds its default.
    pub open spec fn spec_entry_timestamp(m: OrderMatchV) -> Seq<(Seq<char>, JsonV)> {
        entry_if(m.timestamp != 0, "timestamp"@, JsonV::Str(decimal(m.timestamp as nat)))
    }

    /// The members of the JSON object of the message: each field that does not hold
    /// its default, under its JSON name, in the order of the fields.
    pub open spec fn spec_entries(m: OrderMatchV) -> Seq<(Seq<char>, JsonV)> {
        Self::spec_entry_id(m) + Self::spec_entry_market(m) + Self::spec_entry_price(m) + Self::spec_entry_quantity(m) + Self::spec_entry_maker_order_id(m) + Self::spec_entry_taker_order_id(m) + Self::spec_entry_taker_side(m) + Self::spec_entry_timestamp(m)
    }

    /// The JSON object that the protobuf JSON mapping writes for the message.
    pub open spec fn spec_to_json(m: OrderMatchV) -> JsonV {
        JsonV::Object(Self::spec_entries(m))
    }

    /// [`Self::spec_to_json`] as a function value, for repeated fields.
    pub open spec fn writer() -> spec_fn(OrderMatchV) -> JsonV {
        |m: OrderMatchV| Self::spec_to_json(m)
    }

    /// Why the field `taker_side` cannot be written, if it cannot.
    pub open spec fn spec_error_taker_side(m: OrderMatchV) -> Option<JsonErrorV> {
        match m.taker_side { Some(x) => OrderSide::spec_encode_error(x), None => None }
    }

    /// The first field, in the order of the fields, that cannot be written: an
    /// enumeration field whose number names no value, or a message field that
    /// holds one. `None` when the whole message can be written.
    pub open spec fn spec_encode_error(m: OrderMatchV) -> Option<JsonErrorV> {
        if Self::spec_error_taker_side(m) is Some {
            Self::spec_error_taker_side(m)
        } else {
            None
        }
    }

    fn write_id(&self, es: &mut Vec<(String, Json)>)
        ensures
            view_entries(final(es)@) == view_entries(old(es)@) + Self::spec_entry_id(self@),
    {
        if !self.id.as_str().is_empty() {
            push_entry(es, "id", string_value(&self.id));
        }
        assert(view_entries(es@) =~= view_entries(old(es)@) + Self::spec_entry_id(self@));
    }

    fn write_market(&self, es: &mut Vec<(String, Json)>)
        ensures
            view_entries(final(es)@) == view_entries(old(es)@) + Self::spec_entry_market(self@),
    {
        if !self.market.as_str().is_empty() {
            push_entry(es, "market", string_value(&self.market));
        }
        assert(view_entries(es@) =~= view_entries(old(es)@) + Self::spec_entry_market(self@));
    }

    fn write_price(&self, es: &mut Vec<(String, Json)>)
        ensures
            view_entries(final(es)@) == view_entries(old(es)@) + Self::spec_entry_price(self@),
    {
        match &self.price {
            Some(x) => push_entry(es, "price", embedded_value(x)),
            None => {},
        }
        assert(view_entries(es@) =~= view_entries(old(es)@) + Self::spec_entry_price(self@));
    }

    fn write_quantity(&self, es: &mut Vec<(String, Json)>)
        ensures
            view_entries(final(es)@) == view_entries(old(es)@) + Self::spec_entry_quantity(self@),
    {
        match &self.quantity {
            Some(x) => push_entry(es, "quantity", embedded_value(x)),
            None => {},
        }
        assert(view_entries(es@) =~= view_entries(old(es)@) + Self::spec_entry_quantity(self@));
    }

    fn write_maker_order_id(&self, es: &mut Vec<(String, Json)>)
        ensures
            view_entries(final(es)@) == view_entries(old(es)@) + Self::spec_entry_maker_order_id(self@),
    {
        if !self.maker_order_id.as_str().is_empty() {
            push_entry(es, "makerOrderId", string_value(&self.maker_order_id));
        }
        assert(view_entries(es@) =~= view_entries(old(es)@) + Self::spec_entry_maker_order_id(self@));
    }

    fn write_taker_order_id(&self, es: &mut Vec<(String, Json)>)
        ensures
            view_entries(final(es)@) == view_entries(old(es)@) + Self::spec_entry_taker_order_id(self@),
    {
        if !self.taker_order_id.as_str().is_empty() {
            push_entry(es, "takerOrderId", string_value(&self.taker_order_id));
        }
        assert(view_entries(es@) =~= view_entries(old(es)@) + Self::spec_entry_taker_order_id(self@));
    }

    fn write_taker_side(&self, es: &mut Vec<(String, Json)>) -> (r: Result<(), JsonError>)
        ensures
            match r {
                Ok(_) => Self::spec_error_taker_side(self@) is None
                    && view_entries(final(es)@) == view_entries(old(es)@) + Self::spec_entry_taker_side(self@)
                ,
                Err(e) => Self::spec_error_taker_side(self@) == Some(e@),
            },
    {
        match &self.taker_side {
            Some(x) => match x.to_json() {
                Ok(j) => push_entry(es, "takerSide", j),
                Err(e) => return Err(e),
            },
            None => {},
        }
        assert(view_entries(es@) =~= view_entries(old(es)@) + Self::spec_entry_taker_side(self@));
        Ok(())
    }

    fn write_timestamp(&self, es: &mut Vec<(String, Json)>)
        ensures
            view_entries(final(es)@) == view_entries(old(es)@) + Self::spec_entry_timestamp(self@),
    {
        if self.timestamp != 0 {
            push_entry(es, "timestamp", u64_value(self.timestamp));
        }
        assert(view_entries(es@) =~= view_entries(old(es)@) + Self::spec_entry_timestamp(self@));
    }

    /// Writes the message as a JSON object, or gives the error of the first field
    /// that cannot be written; reading the object back gives the message.
    pub fn to_json(&self) -> (r: Result<Json, JsonError>)
        ensures
            match r {
                Ok(j) => Self::spec_encode_error(self@) is None
                    && j@ == Self::spec_to_json(self@)
                    && Self::spec_from_json(j@) == Ok::<OrderMatchV, JsonErrorV>(self@),
                Err(e) => Self::spec_encode_error(self@) == Some(e@),
            },
    {
        let mut es: Vec<(String, Json)> = Vec::new();
        let ghost mut acc: Seq<(Seq<char>, JsonV)> = Seq::empty();
        proof {
            assert(view_entries(es@) =~= acc);
        }
        self.write_id(&mut es);
        proof {
            acc = acc + Self::spec_entry_id(self@);
        }
        self.write_market(&mut es);
        proof {
            acc = acc + Self::spec_entry_market(self@);
        }
        self.write_price(&mut es);
        proof {
            acc = acc + Self::spec_entry_price(self@);
        }
        self.write_quantity(&mut es);
        proof {
            acc = acc + Self::spec_entry_quantity(self@);
        }
        self.write_maker_order_id(&mut es);
        proof {
            acc = acc + Self::spec_entry_maker_order_id(self@);
        }
        self.write_taker_order_id(&mut es);
        proof {
            acc = acc + Self::spec_entry_taker_order_id(self@);
        }
        match self.write_taker_side(&mut es) {
            Ok(_) => {},
            Err(e) => return Err(e),
        }
        proof {
            acc = acc + Self::spec_entry_taker_side(self@);
        }
        self.write_timestamp(&mut es);
        proof {
            acc = acc + Self::spec_entry_timestamp(self@);
        }
        proof {
            assert(acc =~= Self::spec_entries(self@));
            Self::lemma_json_roundtrip(self@);
        }
        Ok(Json::Object(es))
    }

    /// Reads one member of the object into the message under construction; `seen`
    /// records which fields that have no unset state were already given.
    pub open spec fn spec_step(st: (OrderMatchV, Seq<bool>), key: Seq<char>, v: JsonV) -> Result<(OrderMatchV, Seq<bool>), JsonErrorV> {
        let m = st.0;
        let seen = st.1;
        if key == "id"@ {
            if seen[0] {
                Err(JsonErrorV::DuplicateField("id"@))
            } else {
                match read_string(v) {
                    Ok(x) => Ok((OrderMatchV { id: x, ..m }, seen.update(0, true))),
                    Err(e) => Err(e),
                }
            }
        } else if key == "market"@ {
            if seen[1] {
                Err(JsonErrorV::DuplicateField("market"@))
            } else {
                match read_string(v) {
                    Ok(x) => Ok((OrderMatchV { market: x, ..m }, seen.update(1, true))),
                    Err(e) => Err(e),
                }
            }
        } else if key == "price"@ {
            if m.price is Some {
                Err(JsonErrorV::DuplicateField("price"@))
            } else {
                match read_embedded(v) {
                    Ok(x) => Ok((OrderMatchV { price: x, ..m }, seen)),
                    Err(e) => Err(e),
                }
            }
        } else if key == "quantity"@ {
            if m.quantity is Some {
                Err(JsonErrorV::DuplicateField("quantity"@))
            } else {
                match read_embedded(v) {
                    Ok(x) => Ok((OrderMatchV { quantity: x, ..m }, seen)),
                    Err(e) => Err(e),
                }
            }
        } else if key == "makerOrderId"@ || key == "maker_order_id"@ {
            if seen[2] {
                Err(JsonErrorV::DuplicateField("makerOrderId"@))
            } else {
                match read_string(v) {
                    Ok(x) => Ok((OrderMatchV { maker_order_id: x, ..m }, seen.update(2, true))),
                    Err(e) => Err(e),
                }
            }
        } else if key == "takerOrderId"@ || key == "taker_order_id"@ {
            if seen[3] {
                Err(JsonErrorV::DuplicateField("takerOrderId"@))
            } else {
                match read_string(v) {
                    Ok(x) => Ok((OrderMatchV { taker_order_id: x, ..m }, seen.update(3, true))),
                    Err(e) => Err(e),
                }
            }
        } else if key == "takerSide"@ || key == "taker_side"@ {
            if m.taker_side is Some {
                Err(JsonErrorV::DuplicateField("takerSide"@))
            } else {
                match OrderSide::spec_read_opt(v) {
                    Ok(x) => Ok((OrderMatchV { taker_side: x, ..m }, seen)),
                    Err(e) => Err(e),
                }
            }
        } else if key == "timestamp"@ {
            if seen[4] {
                Err(JsonErrorV::DuplicateField("timestamp"@))
            } else {
                match read_u64(v) {
                    Ok(x) => Ok((OrderMatchV { timestamp: x, ..m }, seen.update(4, true))),
                    Err(e) => Err(e),
                }
            }
        } else {
            Err(JsonErrorV::UnknownField(key))
        }
    }

    /// [`Self::spec_step`] as a function value.
    pub open spec fn step_fn() -> spec_fn((OrderMatchV, Seq<bool>), Seq<char>, JsonV) -> Result<(OrderMatchV, Seq<bool>), JsonErrorV> {
        |st: (OrderMatchV, Seq<bool>), key: Seq<char>, v: JsonV| Self::spec_step(st, key, v)
    }

    /// The state before the first member is read: the default message, no field seen.
    pub open spec fn spec_start() -> (OrderMatchV, Seq<bool>) {
        (Self::spec_default(), seq![false, false, false, false, false])
    }

    /// The message that a JSON value describes: an object whose keys each name a field
    /// (by its JSON name or its protobuf name), at most once each; fields that are not
    /// given keep their default. The first member that is refused gives the error.
    pub open spec fn spec_from_json(j: JsonV) -> Result<OrderMatchV, JsonErrorV> {
        match j {
            JsonV::Object(es) => match fold_entries(Self::spec_start(), es, Self::step_fn()) {
                Ok(st) => Ok(st.0),
                Err(e) => Err(e),
            },
            _ => Err(JsonErrorV::ExpectedObject),
        }
    }

    /// [`Self::spec_from_json`] as a function value, for repeated fields.
    pub open spec fn reader() -> spec_fn(JsonV) -> Result<OrderMatchV, JsonErrorV> {
        |v: JsonV| Self::spec_from_json(v)
    }

    /// An optional field of this message type: `null` leaves it unset.
    pub open spec fn spec_read_opt(v: JsonV) -> Result<Option<OrderMatchV>, JsonErrorV> {
        match v {
            JsonV::Null => Ok(None),
            _ => match Self::spec_from_json(v) {
                Ok(x) => Ok(Some(x)),
                Err(e) => Err(e),
            },
        }
    }

    fn step(m: Self, seen: Vec<bool>, key: &String, v: &Json) -> (r: Result<(Self, Vec<bool>), JsonError>)
        requires seen@.len() == 5,
        ensures
            match r {
                Ok((m2, seen2)) => Self::spec_step((m@, seen@), key@, v@) == Ok::<(OrderMatchV, Seq<bool>), JsonErrorV>((m2@, seen2@)) && seen2@.len() == 5,
                Err(e) => Self::spec_step((m@, seen@), key@, v@) == Err::<(OrderMatchV, Seq<bool>), JsonErrorV>(e@),
            },
    {
        let mut m = m;
        let mut seen = seen;
        let k = key.as_str();
        if str_eq(k, "id") {
            if seen[0] {
                return Err(JsonError::DuplicateField("id".to_string()));
            }
            match string_field(v) {
                Ok(x) => m.id = x,
                Err(e) => return Err(e),
            }
            seen.set(0, true);
        } else if str_eq(k, "market") {
            if seen[1] {
                return Err(JsonError::DuplicateField("market".to_string()));
            }
            match string_field(v) {
                Ok(x) => m.market = x,
                Err(e) => return Err(e),
            }
            seen.set(1, true);
        } else if str_eq(k, "price") {
            if m.price.is_some() {
                return Err(JsonError::DuplicateField("price".to_string()));
            }
            match embedded_field(v) {
                Ok(x) => m.price = x,
                Err(e) => return Err(e),
            }
        } else if str_eq(k, "quantity") {
            if m.quantity.is_some() {
                return Err(JsonError::DuplicateField("quantity".to_string()));
            }
            match embedded_field(v) {
                Ok(x) => m.quantity = x,
                Err(e) => return Err(e),
            }
        } else if str_eq(k, "makerOrderId") || str_eq(k, "maker_order_id") {
            if seen[2] {
                return Err(JsonError::DuplicateField("makerOrderId".to_string()));
            }
            match string_field(v) {
                Ok(x) => m.maker_order_id = x,
                Err(e) => return Err(e),
            }
            seen.set(2, true);
        } else if str_eq(k, "takerOrderId") || str_eq(k, "taker_order_id") {
            if seen[3] {
                return Err(JsonError::DuplicateField("takerOrderId".to_string()));
            }
            match string_field(v) {
                Ok(x) => m.taker_order_id = x,
                Err(e) => return Err(e),
            }
            seen.set(3, true);
        } else if str_eq(k, "takerSide") || str_eq(k, "taker_side") {
            if m.taker_side.is_some() {
                return Err(JsonError::DuplicateField("takerSide".to_string()));
            }
            match OrderSide::opt_from_json(v) {
                Ok(x) => m.taker_side = x,
                Err(e) => return Err(e),
            }
        } else if str_eq(k, "timestamp") {
            if seen[4] {
                return Err(JsonError::DuplicateField("timestamp".to_string()));
            }
            match u64_field(v) {
                Ok(x) => m.timestamp = x,
                Err(e) => return Err(e),
            }
            seen.set(4, true);
        } else {
            return Err(JsonError::UnknownField(key.clone()));
        }
        Ok((m, seen))
    }

    /// Reads the message from a JSON value, as [`Self::spec_from_json`] describes.
    pub fn from_json(j: &Json) -> (r: Result<Self, JsonError>)
        ensures
            match r {
                Ok(m) => Self::spec_from_json(j@) == Ok::<OrderMatchV, JsonErrorV>(m@),
                Err(e) => Self::spec_from_json(j@) == Err::<OrderMatchV, JsonErrorV>(e@),
            },
    {
        let es = match j {
            Json::Object(es) => es,
            _ => return Err(JsonError::ExpectedObject),
        };
        let ghost ves = view_entries(es@);
        proof {
            lemma_view_entries_len(es@);
            assert(j@ == JsonV::Object(ves));
        }
        let mut m = Self::default();
        let mut seen: Vec<bool> = vec![false, false, false, false, false];
        let mut i: usize = 0;
        proof {
            assert(seen@ =~= Self::spec_start().1);
            assert(ves.skip(0) == ves);
        }
        while i < es.len()
            invariant
                j@ == JsonV::Object(ves),
                ves == view_entries(es@),
                ves.len() == es@.len(),
                i <= es.len(),
                seen@.len() == 5,
                fold_entries(Self::spec_start(), ves, Self::step_fn())
                    == fold_entries((m@, seen@), ves.skip(i as int), Self::step_fn()),
            decreases es.len() - i,
        {
            proof {
                lemma_view_entries_index(es@, i as int);
                lemma_fold_entries_step((m@, seen@), ves, i as int, Self::step_fn());
            }
            match Self::step(m, seen, &es[i].0, &es[i].1) {
                Ok((m2, seen2)) => {
                    m = m2;
                    seen = seen2;
                },
                Err(e) => return Err(e),
            }
            i = i + 1;
        }
        proof {
            assert(ves.skip(ves.len() as int) == Seq::<(Seq<char>, JsonV)>::empty());
            assert(fold_entries((m@, seen@), ves.skip(ves.len() as int), Self::step_fn())
                == Ok::<(OrderMatchV, Seq<bool>), JsonErrorV>((m@, seen@)));
        }
        Ok(m)
    }

    /// Reads an optional field of this message type.
    pub fn opt_from_json(v: &Json) -> (r: Result<Option<Self>, JsonError>)
        ensures
            match r {
                Ok(None) => Self::spec_read_opt(v@) == Ok::<Option<OrderMatchV>, JsonErrorV>(None),
                Ok(Some(x)) => Self::spec_read_opt(v@) == Ok::<Option<OrderMatchV>, JsonErrorV>(Some(x@)),
                Err(e) => Self::spec_read_opt(v@) == Err::<Option<OrderMatchV>, JsonErrorV>(e@),
            },
    {
        match v {
            Json::Null => Ok(None),
            _ => match Self::from_json(v) {
                Ok(x) => Ok(Some(x)),
                Err(e) => Err(e),
            },
        }
    }

    /// Reading the member that the field `id` writes sets the field.
    pub proof fn lemma_entry_id(m: OrderMatchV, st: (OrderMatchV, Seq<bool>))
        requires
            st.1.len() == 5,
            !st.1[0],
            st.0.id == Seq::<char>::empty(),
        ensures
            fold_entries(st, Self::spec_entry_id(m), Self::step_fn()) == Ok::<(OrderMatchV, Seq<bool>), JsonErrorV>((OrderMatchV { id: m.id, ..st.0 }, if m.id.len() != 0 { st.1.update(0, true) } else { st.1 })),
    {
        reveal_strlit("id");
        reveal_strlit("market");
        reveal_strlit("price");
        reveal_strlit("quantity");
        reveal_strlit("makerOrderId");
        reveal_strlit("maker_order_id");
        reveal_strlit("takerOrderId");
        reveal_strlit("taker_order_id");
        reveal_strlit("takerSide");
        reveal_strlit("taker_side");
        reveal_strlit("timestamp");
        assert("id"@.len() == 2);
        assert("market"@.len() == 6);
        assert("price"@.len() == 5);
        assert("quantity"@.len() == 8);
        assert("makerOrderId"@.len() == 12);
        assert("maker_order_id"@.len() == 14);
        assert("takerOrderId"@.len() == 12);
        assert("taker_order_id"@.len() == 14);
        assert("takerSide"@.len() == 9);
        assert("taker_side"@.len() == 10);
        assert("timestamp"@.len() == 9);
        assert("makerOrderId"@[0] != "takerOrderId"@[0]);
        assert("maker_order_id"@[0] != "taker_order_id"@[0]);
        assert("takerSide"@[1] != "timestamp"@[1]);
        if m.id.len() == 0 {
            assert(m.id =~= Seq::<char>::empty());
        }
        lemma_fold_entry_if(st, m.id.len() != 0, "id"@, JsonV::Str(m.id), Self::step_fn());
    }

    /// Reading the member that the field `market` writes sets the field.
    pub proof fn lemma_entry_market(m: OrderMatchV, st: (OrderMatchV, Seq<bool>))
        requires
            st.1.len() == 5,
            !st.1[1],
            st.0.market == Seq::<char>::empty(),
        ensures
            fold_entries(st, Self::spec_entry_market(m), Self::step_fn()) == Ok::<(OrderMatchV, Seq<bool>), JsonErrorV>((OrderMatchV { market: m.market, ..st.0 }, if m.market.len() != 0 { st.1.update(1, true) } else { st.1 })),
    {
        reveal_strlit("id");
        reveal_strlit("market");
        reveal_strlit("price");
        reveal_strlit("quantity");
        reveal_strlit("makerOrderId");
        reveal_strlit("maker_order_id");
        reveal_strlit("takerOrderId");
        reveal_strlit("taker_order_id");
        reveal_strlit("takerSide");
        reveal_strlit("taker_side");
        reveal_strlit("timestamp");
        assert("id"@.len() == 2);
        assert("market"@.len() == 6);
        assert("price"@.len() == 5);
        assert("quantity"@.len() == 8);
        assert("makerOrderId"@.len() == 12);
        assert("maker_order_id"@.len() == 14);
        assert("takerOrderId"@.len() == 12);
        assert("taker_order_id"@.len() == 14);
        assert("takerSide"@.len() == 9);
        assert("taker_side"@.len() == 10);
        assert("timestamp"@.len() == 9);
        assert("makerOrderId"@[0] != "takerOrderId"@[0]);
        assert("maker_order_id"@[0] != "taker_order_id"@[0]);
        assert("takerSide"@[1] != "timestamp"@[1]);
        if m.market.len() == 0 {
            assert(m.market =~= Seq::<char>::empty());
        }
        lemma_fold_entry_if(st, m.market.len() != 0, "market"@, JsonV::Str(m.market), Self::step_fn());
    }

    /// Reading the member that the field `price` writes sets the field.
    pub proof fn lemma_entry_price(m: OrderMatchV, st: (OrderMatchV, Seq<bool>))
        requires
            st.1.len() == 5,
            st.0.price is None,
        ensures
            fold_entries(st, Self::spec_entry_price(m), Self::step_fn()) == Ok::<(OrderMatchV, Seq<bool>), JsonErrorV>((OrderMatchV { price: m.price, ..st.0 }, st.1)),
    {
        reveal_strlit("id");
        reveal_strlit("market");
        reveal_strlit("price");
        reveal_strlit("quantity");
        reveal_strlit("makerOrderId");
        reveal_strlit("maker_order_id");
        reveal_strlit("takerOrderId");
        reveal_strlit("taker_order_id");
        reveal_strlit("takerSide");
        reveal_strlit("taker_side");
        reveal_strlit("timestamp");
        assert("id"@.len() == 2);
        assert("market"@.len() == 6);
        assert("price"@.len() == 5);
        assert("quantity"@.len() == 8);
        assert("makerOrderId"@.len() == 12);
        assert("maker_order_id"@.len() == 14);
        assert("takerOrderId"@.len() == 12);
        assert("taker_order_id"@.len() == 14);
        assert("takerSide"@.len() == 9);
        assert("taker_side"@.len() == 10);
        assert("timestamp"@.len() == 9);
        assert("makerOrderId"@[0] != "takerOrderId"@[0]);
        assert("maker_order_id"@[0] != "taker_order_id"@[0]);
        assert("takerSide"@[1] != "timestamp"@[1]);
        lemma_fold_entry_if(st, m.price is Some, "price"@, JsonV::Object(m.price.unwrap()), Self::step_fn());
    }

    /// Reading the member that the field `quantity` writes sets the field.
    pub proof fn lemma_entry_quantity(m: OrderMatchV, st: (OrderMatchV, Seq<bool>))
        requires
            st.1.len() == 5,
            st.0.quantity is None,
        ensures
            fold_entries(st, Self::spec_entry_quantity(m), Self::step_fn()) == Ok::<(OrderMatchV, Seq<bool>), JsonErrorV>((OrderMatchV { quantity: m.quantity, ..st.0 }, st.1)),
    {
        reveal_strlit("id");
        reveal_strlit("market");
        reveal_strlit("price");
        reveal_strlit("quantity");
        reveal_strlit("makerOrderId");
        reveal_strlit("maker_order_id");
        reveal_strlit("takerOrderId");
        reveal_strlit("taker_order_id");
        reveal_strlit("takerSide");
        reveal_strlit("taker_side");
        reveal_strlit("timestamp");
        assert("id"@.len() == 2);
        assert("market"@.len() == 6);
        assert("price"@.len() == 5);
        assert("quantity"@.len() == 8);
        assert("makerOrderId"@.len() == 12);
        assert("maker_order_id"@.len() == 14);
        assert("takerOrderId"@.len() == 12);
        assert("taker_order_id"@.len() == 14);
        assert("takerSide"@.len() == 9);
        assert("taker_side"@.len() == 10);
        assert("timestamp"@.len() == 9);
        assert("makerOrderId"@[0] != "takerOrderId"@[0]);
        assert("maker_order_id"@[0] != "taker_order_id"@[0]);
        assert("takerSide"@[1] != "timestamp"@[1]);
        lemma_fold_entry_if(st, m.quantity is Some, "quantity"@, JsonV::Object(m.quantity.unwrap()), Self::step_fn());
    }

    /// Reading the member that the field `maker_order_id` writes sets the field.
    pub proof fn lemma_entry_maker_order_id(m: OrderMatchV, st: (OrderMatchV, Seq<bool>))
        requires
            st.1.len() == 5,
            !st.1[2],
            st.0.maker_order_id == Seq::<char>::empty(),
        ensures
            fold_entries(st, Self::spec_entry_maker_order_id(m), Self::step_fn()) == Ok::<(OrderMatchV, Seq<bool>), JsonErrorV>((OrderMatchV { maker_order_id: m.maker_order_id, ..st.0 }, if m.maker_order_id.len() != 0 { st.1.update(2, true) } else { st.1 })),
    {
        reveal_strlit("id");
        reveal_strlit("market");
        reveal_strlit("price");
        reveal_strlit("quantity");
        reveal_strlit("makerOrderId");
        reveal_strlit("maker_order_id");
        reveal_strlit("takerOrderId");
        reveal_strlit("taker_order_id");
        reveal_strlit("takerSide");
        reveal_strlit("taker_side");
        reveal_strlit("timestamp");
        assert("id"@.len() == 2);
        assert("market"@.len() == 6);
        assert("price"@.len() == 5);
        assert("quantity"@.len() == 8);
        assert("makerOrderId"@.len() == 12);
        assert("maker_order_id"@.len() == 14);
        assert("takerOrderId"@.len() == 12);
        assert("taker_order_id"@.len() == 14);
        assert("takerSide"@.len() == 9);
        assert("taker_side"@.len() == 10);
        assert("timestamp"@.len() == 9);
        assert("makerOrderId"@[0] != "takerOrderId"@[0]);
        assert("maker_order_id"@[0] != "taker_order_id"@[0]);
        assert("takerSide"@[1] != "timestamp"@[1]);
        if m.maker_order_id.len() == 0 {
            assert(m.maker_order_id =~= Seq::<char>::empty());
        }
        lemma_fold_entry_if(st, m.maker_order_id.len() != 0, "makerOrderId"@, JsonV::Str(m.maker_order_id), Self::step_fn());
    }

    /// Reading the member that the field `taker_order_id` writes sets the field.
    pub proof fn lemma_entry_taker_order_id(m: OrderMatchV, st: (OrderMatchV, Seq<bool>))
        requires
            st.1.len() == 5,
            !st.1[3],
            st.0.taker_order_id == Seq::<char>::empty(),
        ensures
            fold_entries(st, Self::spec_entry_taker_order_id(m), Self::step_fn()) == Ok::<(OrderMatchV, Seq<bool>), JsonErrorV>((OrderMatchV { taker_order_id: m.taker_order_id, ..st.0 }, if m.taker_order_id.len() != 0 { st.1.update(3, true) } else { st.1 })),
    {
        reveal_strlit("id");
        reveal_strlit("market");
        reveal_strlit("price");
        reveal_strlit("quantity");
        reveal_strlit("makerOrderId");
        reveal_strlit("maker_order_id");
        reveal_strlit("takerOrderId");
        reveal_strlit("taker_order_id");
        reveal_strlit("takerSide");
        reveal_strlit("taker_side");
        reveal_strlit("timestamp");
        assert("id"@.len() == 2);
        assert("market"@.len() == 6);
        assert("price"@.len() == 5);
        assert("quantity"@.len() == 8);
        assert("makerOrderId"@.len() == 12);
        assert("maker_order_id"@.len() == 14);
        assert("takerOrderId"@.len() == 12);
        assert("taker_order_id"@.len() == 14);
        assert("takerSide"@.len() == 9);
        assert("taker_side"@.len() == 10);
        assert("timestamp"@.len() == 9);
        assert("makerOrderId"@[0] != "takerOrderId"@[0]);
        assert("maker_order_id"@[0] != "taker_order_id"@[0]);
        assert("takerSide"@[1] != "timestamp"@[1]);
        if m.taker_order_id.len() == 0 {
            assert(m.taker_order_id =~= Seq::<char>::empty());
        }
        lemma_fold_entry_if(st, m.taker_order_id.len() != 0, "takerOrderId"@, JsonV::Str(m.taker_order_id), Self::step_fn());
    }

    /// Reading the member that the field `taker_side` writes sets the field.
    pub proof fn lemma_entry_taker_side(m: OrderMatchV, st: (OrderMatchV, Seq<bool>))
        requires
            st.1.len() == 5,
            st.0.taker_side is None,
            Self::spec_error_taker_side(m) is None,
        ensures
            fold_entries(st, Self::spec_entry_taker_side(m), Self::step_fn()) == Ok::<(OrderMatchV, Seq<bool>), JsonErrorV>((OrderMatchV { taker_side: m.taker_side, ..st.0 }, st.1)),
    {
        reveal_strlit("id");
        reveal_strlit("market");
        reveal_strlit("price");
        reveal_strlit("quantity");
        reveal_strlit("makerOrderId");
        reveal_strlit("maker_order_id");
        reveal_strlit("takerOrderId");
        reveal_strlit("taker_order_id");
        reveal_strlit("takerSide");
        reveal_strlit("taker_side");
        reveal_strlit("timestamp");
        assert("id"@.len() == 2);
        assert("market"@.len() == 6);
        assert("price"@.len() == 5);
        assert("quantity"@.len() == 8);
        assert("makerOrderId"@.len() == 12);
        assert("maker_order_id"@.len() == 14);
        assert("takerOrderId"@.len() == 12);
        assert("taker_order_id"@.len() == 14);
        assert("takerSide"@.len() == 9);
        assert("taker_side"@.len() == 10);
        assert("timestamp"@.len() == 9);
        assert("makerOrderId"@[0] != "takerOrderId"@[0]);
        assert("maker_order_id"@[0] != "taker_order_id"@[0]);
        assert("takerSide"@[1] != "timestamp"@[1]);
        if m.taker_side is Some {
            OrderSide::lemma_json_roundtrip(m.taker_side.unwrap());
        }
        lemma_fold_entry_if(st, m.taker_side is Some, "takerSide"@, OrderSide::spec_to_json(m.taker_side.unwrap()), Self::step_fn());
    }

    /// Reading the member that the field `timestamp` writes sets the field.
    pub proof fn lemma_entry_timestamp(m: OrderMatchV, st: (OrderMatchV, Seq<bool>))
        requires
            st.1.len() == 5,
            !st.1[4],
            st.0.timestamp == 0,
        ensures
            fold_entries(st, Self::spec_entry_timestamp(m), Self::step_fn()) == Ok::<(OrderMatchV, Seq<bool>), JsonErrorV>((OrderMatchV { timestamp: m.timestamp, ..st.0 }, if m.timestamp != 0 { st.1.update(4, true) } else { st.1 })),
    {
        reveal_strlit("id");
        reveal_strlit("market");
        reveal_strlit("price");
        reveal_strlit("quantity");
        reveal_strlit("makerOrderId");
        reveal_strlit("maker_order_id");
        reveal_strlit("takerOrderId");
        reveal_strlit("taker_order_id");
        reveal_strlit("takerSide");
        reveal_strlit("taker_side");
        reveal_strlit("timestamp");
        assert("id"@.len() == 2);
        assert("market"@.len() == 6);
        assert("price"@.len() == 5);
        assert("quantity"@.len() == 8);
        assert("makerOrderId"@.len() == 12);
        assert("maker_order_id"@.len() == 14);
        assert("takerOrderId"@.len() == 12);
        assert("taker_order_id"@.len() == 14);
        assert("takerSide"@.len() == 9);
        assert("taker_side"@.len() == 10);
        assert("timestamp"@.len() == 9);
        assert("makerOrderId"@[0] != "takerOrderId"@[0]);
        assert("maker_order_id"@[0] != "taker_order_id"@[0]);
        assert("takerSide"@[1] != "timestamp"@[1]);
        lemma_read_u64_value(m.timestamp);
        lemma_fold_entry_if(st, m.timestamp != 0, "timestamp"@, JsonV::Str(decimal(m.timestamp as nat)), Self::step_fn());
    }

    /// The JSON spelling of a key: the protobuf name of a field becomes its JSON name;
    /// a JSON name, and any key that names no field, is left as it is.
    pub open spec fn spec_json_key(key: Seq<char>) -> Seq<char> {
        if key == "id"@ {
            "id"@
        } else if key == "market"@ {
            "market"@
        } else if key == "price"@ {
            "price"@
        } else if key == "quantity"@ {
            "quantity"@
        } else if key == "makerOrderId"@ || key == "maker_order_id"@ {
            "makerOrderId"@
        } else if key == "takerOrderId"@ || key == "taker_order_id"@ {
            "takerOrderId"@
        } else if key == "takerSide"@ || key == "taker_side"@ {
            "takerSide"@
        } else if key == "timestamp"@ {
            "timestamp"@
        } else {
            key
        }
    }

    /// [`Self::spec_json_key`] as a function value.
    pub open spec fn json_key_fn() -> spec_fn(Seq<char>) -> Seq<char> {
        |key: Seq<char>| Self::spec_json_key(key)
    }

    /// One member is read alike whichever spelling its key has.
    pub proof fn lemma_step_json_key(st: (OrderMatchV, Seq<bool>), key: Seq<char>, v: JsonV)
        ensures Self::spec_step(st, key, v) == Self::spec_step(st, Self::spec_json_key(key), v),
    {
        reveal_strlit("id");
        reveal_strlit("market");
        reveal_strlit("price");
        reveal_strlit("quantity");
        reveal_strlit("makerOrderId");
        reveal_strlit("maker_order_id");
        reveal_strlit("takerOrderId");
        reveal_strlit("taker_order_id");
        reveal_strlit("takerSide");
        reveal_strlit("taker_side");
        reveal_strlit("timestamp");
        assert("id"@.len() == 2);
        assert("market"@.len() == 6);
        assert("price"@.len() == 5);
        assert("quantity"@.len() == 8);
        assert("makerOrderId"@.len() == 12);
        assert("maker_order_id"@.len() == 14);
        assert("takerOrderId"@.len() == 12);
        assert("taker_order_id"@.len() == 14);
        assert("takerSide"@.len() == 9);
        assert("taker_side"@.len() == 10);
        assert("timestamp"@.len() == 9);
        assert("makerOrderId"@[0] != "takerOrderId"@[0]);
        assert("maker_order_id"@[0] != "taker_order_id"@[0]);
        assert("takerSide"@[1] != "timestamp"@[1]);
        if key == "maker_order_id"@ {
            assert(Self::spec_json_key(key) == "makerOrderId"@);
        }
        if key == "taker_order_id"@ {
            assert(Self::spec_json_key(key) == "takerOrderId"@);
        }
        if key == "taker_side"@ {
            assert(Self::spec_json_key(key) == "takerSide"@);
        }
    }

    /// Reading an object gives the same result whichever spelling each of its keys has:
    /// two objects whose members hold the same values, in the same order, under keys of
    /// the same JSON spelling describe the same message, or are refused with the same error.
    pub proof fn lemma_key_spelling(es1: Seq<(Seq<char>, JsonV)>, es2: Seq<(Seq<char>, JsonV)>)
        requires
            es1.len() == es2.len(),
            forall|i: int| #![trigger es1[i], es2[i]] 0 <= i < es1.len() ==> es1[i].1 == es2[i].1 && Self::spec_json_key(es1[i].0) == Self::spec_json_key(es2[i].0),
        ensures Self::spec_from_json(JsonV::Object(es1)) == Self::spec_from_json(JsonV::Object(es2)),
    {
        assert forall|s: (OrderMatchV, Seq<bool>), k: Seq<char>, v: JsonV|
            #![trigger Self::step_fn()(s, k, v), Self::json_key_fn()(k)]
            Self::step_fn()(s, k, v) == Self::step_fn()(s, Self::json_key_fn()(k), v) by {
            Self::lemma_step_json_key(s, k, v);
        }
        lemma_fold_same_keys(Self::spec_start(), es1, es2, Self::step_fn(), Self::json_key_fn());
    }

    /// The keys of the object that the message writes: the JSON names of the fields that
    /// do not hold their default (for a oneof, the JSON name of the member set), in the
    /// order of the fields.
    pub open spec fn spec_written_keys(m: OrderMatchV) -> Seq<Seq<char>> {
        key_if(m.id.len() != 0, "id"@)
            + key_if(m.market.len() != 0, "market"@)
            + key_if(m.price is Some, "price"@)
            + key_if(m.quantity is Some, "quantity"@)
            + key_if(m.maker_order_id.len() != 0, "makerOrderId"@)
            + key_if(m.taker_order_id.len() != 0, "takerOrderId"@)
            + key_if(m.taker_side is Some, "takerSide"@)
            + key_if(m.timestamp != 0, "timestamp"@)
    }

    /// The object that the message writes has exactly the keys of
    /// [`Self::spec_written_keys`], in that order.
    pub proof fn lemma_written_keys(m: OrderMatchV)
        ensures
            Self::spec_to_json(m) == JsonV::Object(Self::spec_entries(m)),
            entry_keys(Self::spec_entries(m)) == Self::spec_written_keys(m),
    {
        lemma_entry_keys_if(m.id.len() != 0, "id"@, JsonV::Str(m.id));
        lemma_entry_keys_append(Self::spec_entry_id(m), m.market.len() != 0, "market"@, JsonV::Str(m.market));
        lemma_entry_keys_append(Self::spec_entry_id(m) + Self::spec_entry_market(m), m.price is Some, "price"@, JsonV::Object(m.price.unwrap()));
        lemma_entry_keys_append(Self::spec_entry_id(m) + Self::spec_entry_market(m) + Self::spec_entry_price(m), m.quantity is Some, "quantity"@, JsonV::Object(m.quantity.unwrap()));
        lemma_entry_keys_append(Self::spec_entry_id(m) + Self::spec_entry_market(m) + Self::spec_entry_price(m) + Self::spec_entry_quantity(m), m.maker_order_id.len() != 0, "makerOrderId"@, JsonV::Str(m.maker_order_id));
        lemma_entry_keys_append(Self::spec_entry_id(m) + Self::spec_entry_market(m) + Self::spec_entry_price(m) + Self::spec_entry_quantity(m) + Self::spec_entry_maker_order_id(m), m.taker_order_id.len() != 0, "takerOrderId"@, JsonV::Str(m.taker_order_id));
        lemma_entry_keys_append(Self::spec_entry_id(m) + Self::spec_entry_market(m) + Self::spec_entry_price(m) + Self::spec_entry_quantity(m) + Self::spec_entry_maker_order_id(m) + Self::spec_entry_taker_order_id(m), m.taker_side is Some, "takerSide"@, OrderSide::spec_to_json(m.taker_side.unwrap()));
        lemma_entry_keys_append(Self::spec_entry_id(m) + Self::spec_entry_market(m) + Self::spec_entry_price(m) + Self::spec_entry_quantity(m) + Self::spec_entry_maker_order_id(m) + Self::spec_entry_taker_order_id(m) + Self::spec_entry_taker_side(m), m.timestamp != 0, "timestamp"@, JsonV::Str(decimal(m.timestamp as nat)));
    }

    /// Whether the field whose JSON name is `name` holds its default in `m`; for a member
    /// of a oneof, whether the oneof is set to another member or unset. `true` for a name
    /// that names no field.
    pub open spec fn spec_holds_default(m: OrderMatchV, name: Seq<char>) -> bool {
        if name == "id"@ {
            m.id == Seq::<char>::empty()
        } else if name == "market"@ {
            m.market == Seq::<char>::empty()
        } else if name == "price"@ {
            m.price is None
        } else if name == "quantity"@ {
            m.quantity is None
        } else if name == "makerOrderId"@ {
            m.maker_order_id == Seq::<char>::empty()
        } else if name == "takerOrderId"@ {
            m.taker_order_id == Seq::<char>::empty()
        } else if name == "takerSide"@ {
            m.taker_side is None
        } else if name == "timestamp"@ {
            m.timestamp == 0
        } else {
            true
        }
    }

    /// Whether reading `v` for the field whose JSON name is `name` leaves the field at
    /// its default: `null`, for a field that takes it (a message field, a member of a
    /// oneof); nothing, for any other field. `true` for a name that names no field.
    pub open spec fn spec_leaves_default(name: Seq<char>, v: JsonV) -> bool {
        if name == "id"@ {
            false
        } else if name == "market"@ {
            false
        } else if name == "price"@ {
            v is Null
        } else if name == "quantity"@ {
            v is Null
        } else if name == "makerOrderId"@ {
            false
        } else if name == "takerOrderId"@ {
            false
        } else if name == "takerSide"@ {
            v is Null
        } else if name == "timestamp"@ {
            false
        } else {
            true
        }
    }

    /// Reading one member keeps a field at its default unless the key names the field
    /// and the value does not leave it there.
    pub proof fn lemma_step_keeps_default(st: (OrderMatchV, Seq<bool>), key: Seq<char>, v: JsonV, name: Seq<char>)
        requires
            Self::spec_holds_default(st.0, name),
            Self::spec_json_key(key) == name ==> Self::spec_leaves_default(name, v),
        ensures
            Self::spec_step(st, key, v) is Ok ==> Self::spec_holds_default(Self::spec_step(st, key, v)->Ok_0.0, name),
    {
        reveal_strlit("id");
        reveal_strlit("market");
        reveal_strlit("price");
        reveal_strlit("quantity");
        reveal_strlit("makerOrderId");
        reveal_strlit("maker_order_id");
        reveal_strlit("takerOrderId");
        reveal_strlit("taker_order_id");
        reveal_strlit("takerSide");
        reveal_strlit("taker_side");
        reveal_strlit("timestamp");
        assert("id"@.len() == 2);
        assert("market"@.len() == 6);
        assert("price"@.len() == 5);
        assert("quantity"@.len() == 8);
        assert("makerOrderId"@.len() == 12);
        assert("maker_order_id"@.len() == 14);
        assert("takerOrderId"@.len() == 12);
        assert("taker_order_id"@.len() == 14);
        assert("takerSide"@.len() == 9);
        assert("taker_side"@.len() == 10);
        assert("timestamp"@.len() == 9);
        assert("makerOrderId"@[0] != "takerOrderId"@[0]);
        assert("maker_order_id"@[0] != "taker_order_id"@[0]);
        assert("takerSide"@[1] != "timestamp"@[1]);
        Self::lemma_step_json_key(st, key, v);
    }

    /// A field whose key appears in no member of an object, or only with values that
    /// leave it at its default (`null`, for a field that takes it), holds its default in
    /// the message that the object describes.
    pub proof fn lemma_absent_default(es: Seq<(Seq<char>, JsonV)>, name: Seq<char>)
        requires
            forall|i: int| 0 <= i < es.len() ==> (Self::spec_json_key((#[trigger] es[i]).0) == name
                ==> Self::spec_leaves_default(name, es[i].1)),
        ensures
            Self::spec_from_json(JsonV::Object(es)) is Ok
                ==> Self::spec_holds_default(Self::spec_from_json(JsonV::Object(es))->Ok_0, name),
    {
        let inv = |s: (OrderMatchV, Seq<bool>)| Self::spec_holds_default(s.0, name);
        let allowed = |k: Seq<char>, v: JsonV| Self::spec_json_key(k) == name ==> Self::spec_leaves_default(name, v);
        assert forall|s: (OrderMatchV, Seq<bool>), k: Seq<char>, v: JsonV| #![trigger Self::step_fn()(s, k, v)]
            inv(s) && allowed(k, v) && Self::step_fn()(s, k, v) is Ok implies inv(Self::step_fn()(s, k, v)->Ok_0) by {
            Self::lemma_step_keeps_default(s, k, v, name);
        }
        assert(inv(Self::spec_start()));
        lemma_fold_keeps(Self::spec_start(), es, Self::step_fn(), inv, allowed);
    }

    /// The field `id` alone: an object with one member under its JSON or protobuf
    /// name reads as the message with that field set and every other field at its
    /// default, and the message with only that field off its default writes that
    /// one member under the JSON name.
    pub proof fn lemma_field_id(s: Seq<char>)
        ensures
            Self::spec_from_json(JsonV::Object(seq![("id"@, JsonV::Str(s))])) == Ok::<OrderMatchV, JsonErrorV>(OrderMatchV { id: s, ..Self::spec_default() }),
            s.len() > 0 ==> Self::spec_to_json(OrderMatchV { id: s, ..Self::spec_default() }) == JsonV::Object(seq![("id"@, JsonV::Str(s))]),
    {
        reveal_strlit("id");
        reveal_strlit("market");
        reveal_strlit("price");
        reveal_strlit("quantity");
        reveal_strlit("makerOrderId");
        reveal_strlit("maker_order_id");
        reveal_strlit("takerOrderId");
        reveal_strlit("taker_order_id");
        reveal_strlit("takerSide");
        reveal_strlit("taker_side");
        reveal_strlit("timestamp");
        assert("id"@.len() == 2);
        assert("market"@.len() == 6);
        assert("price"@.len() == 5);
        assert("quantity"@.len() == 8);
        assert("makerOrderId"@.len() == 12);
        assert("maker_order_id"@.len() == 14);
        assert("takerOrderId"@.len() == 12);
        assert("taker_order_id"@.len() == 14);
        assert("takerSide"@.len() == 9);
        assert("taker_side"@.len() == 10);
        assert("timestamp"@.len() == 9);
        assert("makerOrderId"@[0] != "takerOrderId"@[0]);
        assert("maker_order_id"@[0] != "taker_order_id"@[0]);
        assert("takerSide"@[1] != "timestamp"@[1]);
        lemma_fold_entry_if(Self::spec_start(), true, "id"@, JsonV::Str(s), Self::step_fn());
    }

    /// The field `market` alone: an object with one member under its JSON or protobuf
    /// name reads as the message with that field set and every other field at its
    /// default, and the message with only that field off its default writes that
    /// one member under the JSON name.
    pub proof fn lemma_field_market(s: Seq<char>)
        ensures
            Self::spec_from_json(JsonV::Object(seq![("market"@, JsonV::Str(s))])) == Ok::<OrderMatchV, JsonErrorV>(OrderMatchV { market: s, ..Self::spec_default() }),
            s.len() > 0 ==> Self::spec_to_json(OrderMatchV { market: s, ..Self::spec_default() }) == JsonV::Object(seq![("market"@, JsonV::Str(s))]),
    {
        reveal_strlit("id");
        reveal_strlit("market");
        reveal_strlit("price");
        reveal_strlit("quantity");
        reveal_strlit("makerOrderId");
        reveal_strlit("maker_order_id");
        reveal_strlit("takerOrderId");
        reveal_strlit("taker_order_id");
        reveal_strlit("takerSide");
        reveal_strlit("taker_side");
        reveal_strlit("timestamp");
        assert("id"@.len() == 2);
        assert("market"@.len() == 6);
        assert("price"@.len() == 5);
        assert("quantity"@.len() == 8);
        assert("makerOrderId"@.len() == 12);
        assert("maker_order_id"@.len() == 14);
        assert("takerOrderId"@.len() == 12);
        assert("taker_order_id"@.len() == 14);
        assert("takerSide"@.len() == 9);
        assert("taker_side"@.len() == 10);
        assert("timestamp"@.len() == 9);
        assert("makerOrderId"@[0] != "takerOrderId"@[0]);
        assert("maker_order_id"@[0] != "taker_order_id"@[0]);
        assert("takerSide"@[1] != "timestamp"@[1]);
        lemma_fold_entry_if(Self::spec_start(), true, "market"@, JsonV::Str(s), Self::step_fn());
    }

    /// The field `price` alone: an object with one member under its JSON or protobuf
    /// name reads as the message with that field set and every other field at its
    /// default, and the message with only that field off its default writes that
    /// one member under the JSON name.
    pub proof fn lemma_field_price(es: Seq<(Seq<char>, JsonV)>)
        ensures
            Self::spec_from_json(JsonV::Object(seq![("price"@, JsonV::Object(es))])) == Ok::<OrderMatchV, JsonErrorV>(OrderMatchV { price: Some(es), ..Self::spec_default() }),
            Self::spec_from_json(JsonV::Object(seq![("price"@, JsonV::Null)])) == Ok::<OrderMatchV, JsonErrorV>(Self::spec_default()),
            Self::spec_to_json(OrderMatchV { price: Some(es), ..Self::spec_default() }) == JsonV::Object(seq![("price"@, JsonV::Object(es))]),
    {
        reveal_strlit("id");
        reveal_strlit("market");
        reveal_strlit("price");
        reveal_strlit("quantity");
        reveal_strlit("makerOrderId");
        reveal_strlit("maker_order_id");
        reveal_strlit("takerOrderId");
        reveal_strlit("taker_order_id");
        reveal_strlit("takerSide");
        reveal_strlit("taker_side");
        reveal_strlit("timestamp");
        assert("id"@.len() == 2);
        assert("market"@.len() == 6);
        assert("price"@.len() == 5);
        assert("quantity"@.len() == 8);
        assert("makerOrderId"@.len() == 12);
        assert("maker_order_id"@.len() == 14);
        assert("takerOrderId"@.len() == 12);
        assert("taker_order_id"@.len() == 14);
        assert("takerSide"@.len() == 9);
        assert("taker_side"@.len() == 10);
        assert("timestamp"@.len() == 9);
        assert("makerOrderId"@[0] != "takerOrderId"@[0]);
        assert("maker_order_id"@[0] != "taker_order_id"@[0]);
        assert("takerSide"@[1] != "timestamp"@[1]);
        lemma_fold_entry_if(Self::spec_start(), true, "price"@, JsonV::Object(es), Self::step_fn());
        lemma_fold_entry_if(Self::spec_start(), true, "price"@, JsonV::Null, Self::step_fn());
    }

    /// The field `quantity` alone: an object with one member under its JSON or protobuf
    /// name reads as the message with that field set and every other field at its
    /// default, and the message with only that field off its default writes that
    /// one member under the JSON name.
    pub proof fn lemma_field_quantity(es: Seq<(Seq<char>, JsonV)>)
        ensures
            Self::spec_from_json(JsonV::Object(seq![("quantity"@, JsonV::Object(es))])) == Ok::<OrderMatchV, JsonErrorV>(OrderMatchV { quantity: Some(es), ..Self::spec_default() }),
            Self::spec_from_json(JsonV::Object(seq![("quantity"@, JsonV::Null)])) == Ok::<OrderMatchV, JsonErrorV>(Self::spec_default()),
            Self::spec_to_json(OrderMatchV { quantity: Some(es), ..Self::spec_default() }) == JsonV::Object(seq![("quantity"@, JsonV::Object(es))]),
    {
        reveal_strlit("id");
        reveal_strlit("market");
        reveal_strlit("price");
        reveal_strlit("quantity");
        reveal_strlit("makerOrderId");
        reveal_strlit("maker_order_id");
        reveal_strlit("takerOrderId");
        reveal_strlit("taker_order_id");
        reveal_strlit("takerSide");
        reveal_strlit("taker_side");
        reveal_strlit("timestamp");
        assert("id"@.len() == 2);
        assert("market"@.len() == 6);
        assert("price"@.len() == 5);
        assert("quantity"@.len() == 8);
        assert("makerOrderId"@.len() == 12);
        assert("maker_order_id"@.len() == 14);
        assert("takerOrderId"@.len() == 12);
        assert("taker_order_id"@.len() == 14);
        assert("takerSide"@.len() == 9);
        assert("taker_side"@.len() == 10);
        assert("timestamp"@.len() == 9);
        assert("makerOrderId"@[0] != "takerOrderId"@[0]);
        assert("maker_order_id"@[0] != "taker_order_id"@[0]);
        assert("takerSide"@[1] != "timestamp"@[1]);
        lemma_fold_entry_if(Self::spec_start(), true, "quantity"@, JsonV::Object(es), Self::step_fn());
        lemma_fold_entry_if(Self::spec_start(), true, "quantity"@, JsonV::Null, Self::step_fn());
    }

    /// The field `maker_order_id` alone: an object with one member under its JSON or protobuf
    /// name reads as the message with that field set and every other field at its
    /// default, and the message with only that field off its default writes that
    /// one member under the JSON name.
    pub proof fn lemma_field_maker_order_id(s: Seq<char>)
        ensures
            Self::spec_from_json(JsonV::Object(seq![("makerOrderId"@, JsonV::Str(s))])) == Ok::<OrderMatchV, JsonErrorV>(OrderMatchV { maker_order_id: s, ..Self::spec_default() }),
            Self::spec_from_json(JsonV::Object(seq![("maker_order_id"@, JsonV::Str(s))])) == Ok::<OrderMatchV, JsonErrorV>(OrderMatchV { maker_order_id: s, ..Self::spec_default() }),
            s.len() > 0 ==> Self::spec_to_json(OrderMatchV { maker_order_id: s, ..Self::spec_default() }) == JsonV::Object(seq![("makerOrderId"@, JsonV::Str(s))]),
    {
        reveal_strlit("id");
        reveal_strlit("market");
        reveal_strlit("price");
        reveal_strlit("quantity");
        reveal_strlit("makerOrderId");
        reveal_strlit("maker_order_id");
        reveal_strlit("takerOrderId");
        reveal_strlit("taker_order_id");
        reveal_strlit("takerSide");
        reveal_strlit("taker_side");
        reveal_strlit("timestamp");
        assert("id"@.len() == 2);
        assert("market"@.len() == 6);
        assert("price"@.len() == 5);
        assert("quantity"@.len() == 8);
        assert("makerOrderId"@.len() == 12);
        assert("maker_order_id"@.len() == 14);
        assert("takerOrderId"@.len() == 12);
        assert("taker_order_id"@.len() == 14);
        assert("takerSide"@.len() == 9);
        assert("taker_side"@.len() == 10);
        assert("timestamp"@.len() == 9);
        assert("makerOrderId"@[0] != "takerOrderId"@[0]);
        assert("maker_order_id"@[0] != "taker_order_id"@[0]);
        assert("takerSide"@[1] != "timestamp"@[1]);
        lemma_fold_entry_if(Self::spec_start(), true, "makerOrderId"@, JsonV::Str(s), Self::step_fn());
        lemma_fold_entry_if(Self::spec_start(), true, "maker_order_id"@, JsonV::Str(s), Self::step_fn());
    }

    /// The field `taker_order_id` alone: an object with one member under its JSON or protobuf
    /// name reads as the message with that field set and every other field at its
    /// default, and the message with only that field off its default writes that
    /// one member under the JSON name.
    pub proof fn lemma_field_taker_order_id(s: Seq<char>)
        ensures
            Self::spec_from_json(JsonV::Object(seq![("takerOrderId"@, JsonV::Str(s))])) == Ok::<OrderMatchV, JsonErrorV>(OrderMatchV { taker_order_id: s, ..Self::spec_default() }),
            Self::spec_from_json(JsonV::Object(seq![("taker_order_id"@, JsonV::Str(s))])) == Ok::<OrderMatchV, JsonErrorV>(OrderMatchV { taker_order_id: s, ..Self::spec_default() }),
            s.len() > 0 ==> Self::spec_to_json(OrderMatchV { taker_order_id: s, ..Self::spec_default() }) == JsonV::Object(seq![("takerOrderId"@, JsonV::Str(s))]),
    {
        reveal_strlit("id");
        reveal_strlit("market");
        reveal_strlit("price");
        reveal_strlit("quantity");
        reveal_strlit("makerOrderId");
        reveal_strlit("maker_order_id");
        reveal_strlit("takerOrderId");
        reveal_strlit("taker_order_id");
        reveal_strlit("takerSide");
        reveal_strlit("taker_side");
        reveal_strlit("timestamp");
        assert("id"@.len() == 2);
        assert("market"@.len() == 6);
        assert("price"@.len() == 5);
        assert("quantity"@.len() == 8);
        assert("makerOrderId"@.len() == 12);
        assert("maker_order_id"@.len() == 14);
        assert("takerOrderId"@.len() == 12);
        assert("taker_order_id"@.len() == 14);
        assert("takerSide"@.len() == 9);
        assert("taker_side"@.len() == 10);
        assert("timestamp"@.len() == 9);
        assert("makerOrderId"@[0] != "takerOrderId"@[0]);
        assert("maker_order_id"@[0] != "taker_order_id"@[0]);
        assert("takerSide"@[1] != "timestamp"@[1]);
        lemma_fold_entry_if(Self::spec_start(), true, "takerOrderId"@, JsonV::Str(s), Self::step_fn());
        lemma_fold_entry_if(Self::spec_start(), true, "taker_order_id"@, JsonV::Str(s), Self::step_fn());
    }

    /// The field `taker_side` alone: an object with one member under its JSON or protobuf
    /// name reads as the message with that field set and every other field at its
    /// default, and the message with only that field off its default writes that
    /// one member under the JSON name.
    pub proof fn lemma_field_taker_side(x: OrderSideV, es: Seq<(Seq<char>, JsonV)>)
        ensures
            Self::spec_from_json(JsonV::Object(seq![("takerSide"@, JsonV::Object(es))])) == (match OrderSide::spec_from_json(JsonV::Object(es)) { Ok(y) => Ok::<OrderMatchV, JsonErrorV>(OrderMatchV { taker_side: Some(y), ..Self::spec_default() }), Err(e) => Err(e) }),
            Self::spec_from_json(JsonV::Object(seq![("takerSide"@, JsonV::Null)])) == Ok::<OrderMatchV, JsonErrorV>(Self::spec_default()),
            Self::spec_from_json(JsonV::Object(seq![("taker_side"@, JsonV::Object(es))])) == (match OrderSide::spec_from_json(JsonV::Object(es)) { Ok(y) => Ok::<OrderMatchV, JsonErrorV>(OrderMatchV { taker_side: Some(y), ..Self::spec_default() }), Err(e) => Err(e) }),
            Self::spec_from_json(JsonV::Object(seq![("taker_side"@, JsonV::Null)])) == Ok::<OrderMatchV, JsonErrorV>(Self::spec_default()),
            Self::spec_to_json(OrderMatchV { taker_side: Some(x), ..Self::spec_default() }) == JsonV::Object(seq![("takerSide"@, OrderSide::spec_to_json(x))]),
    {
        reveal_strlit("id");
        reveal_strlit("market");
        reveal_strlit("price");
        reveal_strlit("quantity");
        reveal_strlit("makerOrderId");
        reveal_strlit("maker_order_id");
        reveal_strlit("takerOrderId");
        reveal_strlit("taker_order_id");
        reveal_strlit("takerSide");
        reveal_strlit("taker_side");
        reveal_strlit("timestamp");
        assert("id"@.len() == 2);
        assert("market"@.len() == 6);
        assert("price"@.len() == 5);
        assert("quantity"@.len() == 8);
        assert("makerOrderId"@.len() == 12);
        assert("maker_order_id"@.len() == 14);
        assert("takerOrderId"@.len() == 12);
        assert("taker_order_id"@.len() == 14);
        assert("takerSide"@.len() == 9);
        assert("taker_side"@.len() == 10);
        assert("timestamp"@.len() == 9);
        assert("makerOrderId"@[0] != "takerOrderId"@[0]);
        assert("maker_order_id"@[0] != "taker_order_id"@[0]);
        assert("takerSide"@[1] != "timestamp"@[1]);
        lemma_fold_entry_if(Self::spec_start(), true, "takerSide"@, JsonV::Object(es), Self::step_fn());
        lemma_fold_entry_if(Self::spec_start(), true, "takerSide"@, JsonV::Null, Self::step_fn());
        lemma_fold_entry_if(Self::spec_start(), true, "taker_side"@, JsonV::Object(es), Self::step_fn());
        lemma_fold_entry_if(Self::spec_start(), true, "taker_side"@, JsonV::Null, Self::step_fn());
    }

    /// The field `timestamp` alone: an object with one member under its JSON or protobuf
    /// name reads as the message with that field set and every other field at its
    /// default, and the message with only that field off its default writes that
    /// one member under the JSON name.
    pub proof fn lemma_field_timestamp(v: u64)
        ensures
            Self::spec_from_json(JsonV::Object(seq![("timestamp"@, JsonV::Unsigned(v))])) == Ok::<OrderMatchV, JsonErrorV>(OrderMatchV { timestamp: v, ..Self::spec_default() }),
            Self::spec_from_json(JsonV::Object(seq![("timestamp"@, JsonV::Str(decimal(v as nat)))])) == Ok::<OrderMatchV, JsonErrorV>(OrderMatchV { timestamp: v, ..Self::spec_default() }),
            v != 0 ==> Self::spec_to_json(OrderMatchV { timestamp: v, ..Self::spec_default() }) == JsonV::Object(seq![("timestamp"@, JsonV::Str(decimal(v as nat)))]),
    {
        reveal_strlit("id");
        reveal_strlit("market");
        reveal_strlit("price");
        reveal_strlit("quantity");
        reveal_strlit("makerOrderId");
        reveal_strlit("maker_order_id");
        reveal_strlit("takerOrderId");
        reveal_strlit("taker_order_id");
        reveal_strlit("takerSide");
        reveal_strlit("taker_side");
        reveal_strlit("timestamp");
        assert("id"@.len() == 2);
        assert("market"@.len() == 6);
        assert("price"@.len() == 5);
        assert("quantity"@.len() == 8);
        assert("makerOrderId"@.len() == 12);
        assert("maker_order_id"@.len() == 14);
        assert("takerOrderId"@.len() == 12);
        assert("taker_order_id"@.len() == 14);
        assert("takerSide"@.len() == 9);
        assert("taker_side"@.len() == 10);
        assert("timestamp"@.len() == 9);
        assert("makerOrderId"@[0] != "takerOrderId"@[0]);
        assert("maker_order_id"@[0] != "taker_order_id"@[0]);
        assert("takerSide"@[1] != "timestamp"@[1]);
        lemma_read_u64_value(v);
        lemma_fold_entry_if(Self::spec_start(), true, "timestamp"@, JsonV::Unsigned(v), Self::step_fn());
        lemma_fold_entry_if(Self::spec_start(), true, "timestamp"@, JsonV::Str(decimal(v as nat)), Self::step_fn());
    }

    /// Reading back the JSON object of a message gives the message.
    pub proof fn lemma_json_roundtrip(m: OrderMatchV)
        requires
            Self::spec_encode_error(m) is None,
        ensures Self::spec_from_json(Self::spec_to_json(m)) == Ok::<OrderMatchV, JsonErrorV>(m),
    {
        let step = Self::step_fn();
        let s0 = Self::spec_start();
        let s1 = (OrderMatchV { id: m.id, ..s0.0 }, if m.id.len() != 0 { s0.1.update(0, true) } else { s0.1 });
        Self::lemma_entry_id(m, s0);
        let s2 = (OrderMatchV { market: m.market, ..s1.0 }, if m.market.len() != 0 { s1.1.update(1, true) } else { s1.1 });
        Self::lemma_entry_market(m, s1);
        let s3 = (OrderMatchV { price: m.price, ..s2.0 }, s2.1);
        Self::lemma_entry_price(m, s2);
        let s4 = (OrderMatchV { quantity: m.quantity, ..s3.0 }, s3.1);
        Self::lemma_entry_quantity(m, s3);
        let s5 = (OrderMatchV { maker_order_id: m.maker_order_id, ..s4.0 }, if m.maker_order_id.len() != 0 { s4.1.update(2, true) } else { s4.1 });
        Self::lemma_entry_maker_order_id(m, s4);
        let s6 = (OrderMatchV { taker_order_id: m.taker_order_id, ..s5.0 }, if m.taker_order_id.len() != 0 { s5.1.update(3, true) } else { s5.1 });
        Self::lemma_entry_taker_order_id(m, s5);
        let s7 = (OrderMatchV { taker_side: m.taker_side, ..s6.0 }, s6.1);
        Self::lemma_entry_taker_side(m, s6);
        let s8 = (OrderMatchV { timestamp: m.timestamp, ..s7.0 }, if m.timestamp != 0 { s7.1.update(4, true) } else { s7.1 });
        Self::lemma_entry_timestamp(m, s7);
        let p1 = Self::spec_entry_id(m);
        let p2 = p1 + Self::spec_entry_market(m);
        lemma_fold_entries_append(s0, p1, Self::spec_entry_market(m), step);
        let p3 = p2 + Self::spec_entry_price(m);
        lemma_fold_entries_append(s0, p2, Self::spec_entry_price(m), step);
        let p4 = p3 + Self::spec_entry_quantity(m);
        lemma_fold_entries_append(s0, p3, Self::spec_entry_quantity(m), step);
        let p5 = p4 + Self::spec_entry_maker_order_id(m);
        lemma_fold_entries_append(s0, p4, Self::spec_entry_maker_order_id(m), step);
        let p6 = p5 + Self::spec_entry_taker_order_id(m);
        lemma_fold_entries_append(s0, p5, Self::spec_entry_taker_order_id(m), step);
        let p7 = p6 + Self::spec_entry_taker_side(m);
        lemma_fold_entries_append(s0, p6, Self::spec_entry_taker_side(m), step);
        let p8 = p7 + Self::spec_entry_timestamp(m);
        lemma_fold_entries_append(s0, p7, Self::spec_entry_timestamp(m), step);
        assert(s8.0 == m);
    }
}

/// The `astria.protocol.orderbook.v1.OrderSide` message.
#[derive(Clone, Debug, PartialEq)]
pub struct OrderSide {
    pub inner: i32,
}

/// The mathematical content of an [`OrderSide`].
pub struct OrderSideV {
    pub inner: i32,
}

impl View for OrderSide {
    type V = OrderSideV;

    open spec fn view(&self) -> OrderSideV {
        OrderSideV {
            inner: self.inner,
        }
    }
}

impl Default for OrderSide {
    fn default() -> (r: Self)
        ensures r@ == OrderSide::spec_default(),
    {
        let r = OrderSide {
            inner: 0,
        };
        r
    }
}

impl OrderSide {
    /// The fully qualified protobuf name of the message.
    pub fn full_name() -> (r: String)
        ensures r@ == "astria.protocol.orderbook.v1.OrderSide"@,
    {
        "astria.protocol.orderbook.v1.OrderSide".to_string()
    }

    /// Every field at its default: empty strings, bytes and lists, zero, `false`, unset.
    pub open spec fn spec_default() -> OrderSideV {
        OrderSideV {
            inner: 0,
        }
    }

    /// The view of an optional field of this message type.
    pub open spec fn view_opt(o: Option<Self>) -> Option<OrderSideV> {
        match o {
            Some(x) => Some(x@),
            None => None,
        }
    }

    /// The view of a repeated field of this message type.
    pub open spec fn view_list(v: Seq<Self>) -> Seq<OrderSideV> {
        v.map_values(|x: Self| x@)
    }

    /// The member that the field `inner` writes: none where it holds its default.
    pub open spec fn spec_entry_inner(m: OrderSideV) -> Seq<(Seq<char>, JsonV)> {
        entry_if(m.inner != 0, "inner"@, JsonV::Str(OrderSideInner::spec_name_of(m.inner)))
    }

    /// The members of the JSON object of the message: each field that does not hold
    /// its default, under its JSON name, in the order of the fields.
    pub open spec fn spec_entries(m: OrderSideV) -> Seq<(Seq<char>, JsonV)> {
        Self::spec_entry_inner(m)
    }

    /// The JSON object that the protobuf JSON mapping writes for the message.
    pub open spec fn spec_to_json(m: OrderSideV) -> JsonV {
        JsonV::Object(Self::spec_entries(m))
    }

    /// [`Self::spec_to_json`] as a function value, for repeated fields.
    pub open spec fn writer() -> spec_fn(OrderSideV) -> JsonV {
        |m: OrderSideV| Self::spec_to_json(m)
    }

    /// Why the field `inner` cannot be written, if it cannot.
    pub open spec fn spec_error_inner(m: OrderSideV) -> Option<JsonErrorV> {
        if m.inner != 0 && OrderSideInner::spec_from_i32(m.inner) is None { Some(JsonErrorV::InvalidVariant(m.inner)) } else { None }
    }

    /// The first field, in the order of the fields, that cannot be written: an
    /// enumeration field whose number names no value, or a message field that
    /// holds one. `None` when the whole message can be written.
    pub open spec fn spec_encode_error(m: OrderSideV) -> Option<JsonErrorV> {
        if Self::spec_error_inner(m) is Some {
            Self::spec_error_inner(m)
        } else {
            None
        }
    }

    fn write_inner(&self, es: &mut Vec<(String, Json)>) -> (r: Result<(), JsonError>)
        ensures
            match r {
                Ok(_) => Self::spec_error_inner(self@) is None
                    && view_entries(final(es)@) == view_entries(old(es)@) + Self::spec_entry_inner(self@)
                ,
                Err(e) => Self::spec_error_inner(self@) == Some(e@),
            },
    {
        if self.inner != 0 {
            match OrderSideInner::from_i32(self.inner) {
                Some(x) => push_entry(es, "inner", x.to_json()),
                None => return Err(JsonError::InvalidVariant(self.inner)),
            }
        }
        assert(view_entries(es@) =~= view_entries(old(es)@) + Self::spec_entry_inner(self@));
        Ok(())
    }

    /// Writes the message as a JSON object, or gives the error of the first field
    /// that cannot be written; reading the object back gives the message.
    pub fn to_json(&self) -> (r: Result<Json, JsonError>)
        ensures
            match r {
                Ok(j) => Self::spec_encode_error(self@) is None
                    && j@ == Self::spec_to_json(self@)
                    && Self::spec_from_json(j@) == Ok::<OrderSideV, JsonErrorV>(self@),
                Err(e) => Self::spec_encode_error(self@) == Some(e@),
            },
    {
        let mut es: Vec<(String, Json)> = Vec::new();
        let ghost mut acc: Seq<(Seq<char>, JsonV)> = Seq::empty();
        proof {
            assert(view_entries(es@) =~= acc);
        }
        match self.write_inner(&mut es) {
            Ok(_) => {},
            Err(e) => return Err(e),
        }
        proof {
            acc = acc + Self::spec_entry_inner(self@);
        }
        proof {
            assert(acc =~= Self::spec_entries(self@));
            Self::lemma_json_roundtrip(self@);
        }
        Ok(Json::Object(es))
    }

    /// Reads one member of the object into the message under construction; `seen`
    /// records which fields that have no unset state were already given.
    pub open spec fn spec_step(st: (OrderSideV, Seq<bool>), key: Seq<char>, v: JsonV) -> Result<(OrderSideV, Seq<bool>), JsonErrorV> {
        let m = st.0;
        let seen = st.1;
        if key == "inner"@ {
            if seen[0] {
                Err(JsonErrorV::DuplicateField("inner"@))
            } else {
                match OrderSideInner::spec_read_number(v) {
                    Ok(x) => Ok((OrderSideV { inner: x }, seen.update(0, true))),
                    Err(e) => Err(e),
                }
            }
        } else {
            Err(JsonErrorV::UnknownField(key))
        }
    }

    /// [`Self::spec_step`] as a function value.
    pub open spec fn step_fn() -> spec_fn((OrderSideV, Seq<bool>), Seq<char>, JsonV) -> Result<(OrderSideV, Seq<bool>), JsonErrorV> {
        |st: (OrderSideV, Seq<bool>), key: Seq<char>, v: JsonV| Self::spec_step(st, key, v)
    }

    /// The state before the first member is read: the default message, no field seen.
    pub open spec fn spec_start() -> (OrderSideV, Seq<bool>) {
        (Self::spec_default(), seq![false])
    }

    /// The message that a JSON value describes: an object whose keys each name a field
    /// (by its JSON name or its protobuf name), at most once each; fields that are not
    /// given keep their default. The first member that is refused gives the error.
    pub open spec fn spec_from_json(j: JsonV) -> Result<OrderSideV, JsonErrorV> {
        match j {
            JsonV::Object(es) => match fold_entries(Self::spec_start(), es, Self::step_fn()) {
                Ok(st) => Ok(st.0),
                Err(e) => Err(e),
            },
            _ => Err(JsonErrorV::ExpectedObject),
        }
    }

    /// [`Self::spec_from_json`] as a function value, for repeated fields.
    pub open spec fn reader() -> spec_fn(JsonV) -> Result<OrderSideV, JsonErrorV> {
        |v: JsonV| Self::spec_from_json(v)
    }

    /// An optional field of this message type: `null` leaves it unset.
    pub open spec fn spec_read_opt(v: JsonV) -> Result<Option<OrderSideV>, JsonErrorV> {
        match v {
            JsonV::Null => Ok(None),
            _ => match Self::spec_from_json(v) {
                Ok(x) => Ok(Some(x)),
                Err(e) => Err(e),
            },
        }
    }

    fn step(m: Self, seen: Vec<bool>, key: &String, v: &Json) -> (r: Result<(Self, Vec<bool>), JsonError>)
        requires seen@.len() == 1,
        ensures
            match r {
                Ok((m2, seen2)) => Self::spec_step((m@, seen@), key@, v@) == Ok::<(OrderSideV, Seq<bool>), JsonErrorV>((m2@, seen2@)) && seen2@.len() == 1,
                Err(e) => Self::spec_step((m@, seen@), key@, v@) == Err::<(OrderSideV, Seq<bool>), JsonErrorV>(e@),
            },
    {
        let mut m = m;
        let mut seen = seen;
        let k = key.as_str();
        if str_eq(k, "inner") {
            if seen[0] {
                return Err(JsonError::DuplicateField("inner".to_string()));
            }
            match OrderSideInner::number_field(v) {
                Ok(x) => m.inner = x,
                Err(e) => return Err(e),
            }
            seen.set(0, true);
        } else {
            return Err(JsonError::UnknownField(key.clone()));
        }
        Ok((m, seen))
    }

    /// Reads the message from a JSON value, as [`Self::spec_from_json`] describes.
    pub fn from_json(j: &Json) -> (r: Result<Self, JsonError>)
        ensures
            match r {
                Ok(m) => Self::spec_from_json(j@) == Ok::<OrderSideV, JsonErrorV>(m@),
                Err(e) => Self::spec_from_json(j@) == Err::<OrderSideV, JsonErrorV>(e@),
            },
    {
        let es = match j {
            Json::Object(es) => es,
            _ => return Err(JsonError::ExpectedObject),
        };
        let ghost ves = view_entries(es@);
        proof {
            lemma_view_entries_len(es@);
            assert(j@ == JsonV::Object(ves));
        }
        let mut m = Self::default();
        let mut seen: Vec<bool> = vec![false];
        let mut i: usize = 0;
        proof {
            assert(seen@ =~= Self::spec_start().1);
            assert(ves.skip(0) == ves);
        }
        while i < es.len()
            invariant
                j@ == JsonV::Object(ves),
                ves == view_entries(es@),
                ves.len() == es@.len(),
                i <= es.len(),
                seen@.len() == 1,
                fold_entries(Self::spec_start(), ves, Self::step_fn())
                    == fold_entries((m@, seen@), ves.skip(i as int), Self::step_fn()),
            decreases es.len() - i,
        {
            proof {
                lemma_view_entries_index(es@, i as int);
                lemma_fold_entries_step((m@, seen@), ves, i as int, Self::step_fn());
            }
            match Self::step(m, seen, &es[i].0, &es[i].1) {
                Ok((m2, seen2)) => {
                    m = m2;
                    seen = seen2;
                },
                Err(e) => return Err(e),
            }
            i = i + 1;
        }
        proof {
            assert(ves.skip(ves.len() as int) == Seq::<(Seq<char>, JsonV)>::empty());
            assert(fold_entries((m@, seen@), ves.skip(ves.len() as int), Self::step_fn())
                == Ok::<(OrderSideV, Seq<bool>), JsonErrorV>((m@, seen@)));
        }
        Ok(m)
    }

    /// Reads an optional field of this message type.
    pub fn opt_from_json(v: &Json) -> (r: Result<Option<Self>, JsonError>)
        ensures
            match r {
                Ok(None) => Self::spec_read_opt(v@) == Ok::<Option<OrderSideV>, JsonErrorV>(None),
                Ok(Some(x)) => Self::spec_read_opt(v@) == Ok::<Option<OrderSideV>, JsonErrorV>(Some(x@)),
                Err(e) => Self::spec_read_opt(v@) == Err::<Option<OrderSideV>, JsonErrorV>(e@),
            },
    {
        match v {
            Json::Null => Ok(None),
            _ => match Self::from_json(v) {
                Ok(x) => Ok(Some(x)),
                Err(e) => Err(e),
            },
        }
    }

    /// Reading the member that the field `inner` writes sets the field.
    pub proof fn lemma_entry_inner(m: OrderSideV, st: (OrderSideV, Seq<bool>))
        requires
            st.1.len() == 1,
            !st.1[0],
            st.0.inner == 0,
            Self::spec_error_inner(m) is None,
        ensures
            fold_entries(st, Self::spec_entry_inner(m), Self::step_fn()) == Ok::<(OrderSideV, Seq<bool>), JsonErrorV>((OrderSideV { inner: m.inner }, if m.inner != 0 { st.1.update(0, true) } else { st.1 })),
    {
        reveal_strlit("inner");
        assert("inner"@.len() == 5);
        if m.inner != 0 {
            OrderSideInner::lemma_number_roundtrip(m.inner);
        }
        lemma_fold_entry_if(st, m.inner != 0, "inner"@, JsonV::Str(OrderSideInner::spec_name_of(m.inner)), Self::step_fn());
    }

    /// The JSON spelling of a key: the protobuf name of a field becomes its JSON name;
    /// a JSON name, and any key that names no field, is left as it is.
    pub open spec fn spec_json_key(key: Seq<char>) -> Seq<char> {
        if key == "inner"@ {
            "inner"@
        } else {
            key
        }
    }

    /// [`Self::spec_json_key`] as a function value.
    pub open spec fn json_key_fn() -> spec_fn(Seq<char>) -> Seq<char> {
        |key: Seq<char>| Self::spec_json_key(key)
    }

    /// One member is read alike whichever spelling its key has.
    pub proof fn lemma_step_json_key(st: (OrderSideV, Seq<bool>), key: Seq<char>, v: JsonV)
        ensures Self::spec_step(st, key, v) == Self::spec_step(st, Self::spec_json_key(key), v),
    {
        reveal_strlit("inner");
        assert("inner"@.len() == 5);
    }

    /// Reading an object gives the same result whichever spelling each of its keys has:
    /// two objects whose members hold the same values, in the same order, under keys of
    /// the same JSON spelling describe the same message, or are refused with the same error.
    pub proof fn lemma_key_spelling(es1: Seq<(Seq<char>, JsonV)>, es2: Seq<(Seq<char>, JsonV)>)
        requires
            es1.len() == es2.len(),
            forall|i: int| #![trigger es1[i], es2[i]] 0 <= i < es1.len() ==> es1[i].1 == es2[i].1 && Self::spec_json_key(es1[i].0) == Self::spec_json_key(es2[i].0),
        ensures Self::spec_from_json(JsonV::Object(es1)) == Self::spec_from_json(JsonV::Object(es2)),
    {
        assert forall|s: (OrderSideV, Seq<bool>), k: Seq<char>, v: JsonV|
            #![trigger Self::step_fn()(s, k, v), Self::json_key_fn()(k)]
            Self::step_fn()(s, k, v) == Self::step_fn()(s, Self::json_key_fn()(k), v) by {
            Self::lemma_step_json_key(s, k, v);
        }
        lemma_fold_same_keys(Self::spec_start(), es1, es2, Self::step_fn(), Self::json_key_fn());
    }

    /// The keys of the object that the message writes: the JSON names of the fields that
    /// do not hold their default (for a oneof, the JSON name of the member set), in the
    /// order of the fields.
    pub open spec fn spec_written_keys(m: OrderSideV) -> Seq<Seq<char>> {
        key_if(m.inner != 0, "inner"@)
    }

    /// The object that the message writes has exactly the keys of
    /// [`Self::spec_written_keys`], in that order.
    pub proof fn lemma_written_keys(m: OrderSideV)
        ensures
            Self::spec_to_json(m) == JsonV::Object(Self::spec_entries(m)),
            entry_keys(Self::spec_entries(m)) == Self::spec_written_keys(m),
    {
        lemma_entry_keys_if(m.inner != 0, "inner"@, JsonV::Str(OrderSideInner::spec_name_of(m.inner)));
    }

    /// Whether the field whose JSON name is `name` holds its default in `m`; for a member
    /// of a oneof, whether the oneof is set to another member or unset. `true` for a name
    /// that names no field.
    pub open spec fn spec_holds_default(m: OrderSideV, name: Seq<char>) -> bool {
        if name == "inner"@ {
            m.inner == 0
        } else {
            true
        }
    }

    /// Whether reading `v` for the field whose JSON name is `name` leaves the field at
    /// its default: `null`, for a field that takes it (a message field, a member of a
    /// oneof); nothing, for any other field. `true` for a name that names no field.
    pub open spec fn spec_leaves_default(name: Seq<char>, v: JsonV) -> bool {
        if name == "inner"@ {
            false
        } else {
            true
        }
    }

    /// Reading one member keeps a field at its default unless the key names the field
    /// and the value does not leave it there.
    pub proof fn lemma_step_keeps_default(st: (OrderSideV, Seq<bool>), key: Seq<char>, v: JsonV, name: Seq<char>)
        requires
            Self::spec_holds_default(st.0, name),
            Self::spec_json_key(key) == name ==> Self::spec_leaves_default(name, v),
        ensures
            Self::spec_step(st, key, v) is Ok ==> Self::spec_holds_default(Self::spec_step(st, key, v)->Ok_0.0, name),
    {
        reveal_strlit("inner");
        assert("inner"@.len() == 5);
        Self::lemma_step_json_key(st, key, v);
    }

    /// A field whose key appears in no member of an object, or only with values that
    /// leave it at its default (`null`, for a field that takes it), holds its default in
    /// the message that the object describes.
    pub proof fn lemma_absent_default(es: Seq<(Seq<char>, JsonV)>, name: Seq<char>)
        requires
            forall|i: int| 0 <= i < es.len() ==> (Self::spec_json_key((#[trigger] es[i]).0) == name
                ==> Self::spec_leaves_default(name, es[i].1)),
        ensures
            Self::spec_from_json(JsonV::Object(es)) is Ok
                ==> Self::spec_holds_default(Self::spec_from_json(JsonV::Object(es))->Ok_0, name),
    {
        let inv = |s: (OrderSideV, Seq<bool>)| Self::spec_holds_default(s.0, name);
        let allowed = |k: Seq<char>, v: JsonV| Self::spec_json_key(k) == name ==> Self::spec_leaves_default(name, v);
        assert forall|s: (OrderSideV, Seq<bool>), k: Seq<char>, v: JsonV| #![trigger Self::step_fn()(s, k, v)]
            inv(s) && allowed(k, v) && Self::step_fn()(s, k, v) is Ok implies inv(Self::step_fn()(s, k, v)->Ok_0) by {
            Self::lemma_step_keeps_default(s, k, v, name);
        }
        assert(inv(Self::spec_start()));
        lemma_fold_keeps(Self::spec_start(), es, Self::step_fn(), inv, allowed);
    }

    /// The field `inner` alone: an object with one member under its JSON or protobuf
    /// name reads as the message with that field set and every other field at its
    /// default, and the message with only that field off its default writes that
    /// one member under the JSON name.
    pub proof fn lemma_field_inner()
        ensures
            Self::spec_from_json(JsonV::Object(seq![("inner"@, JsonV::Str("ORDER_SIDE_INNER_UNSPECIFIED"@))])) == Ok::<OrderSideV, JsonErrorV>(OrderSideV { inner: 0 }),
            Self::spec_from_json(JsonV::Object(seq![("inner"@, JsonV::Unsigned(0))])) == Ok::<OrderSideV, JsonErrorV>(OrderSideV { inner: 0 }),
            Self::spec_from_json(JsonV::Object(seq![("inner"@, JsonV::Str("ORDER_SIDE_INNER_BUY"@))])) == Ok::<OrderSideV, JsonErrorV>(OrderSideV { inner: 1 }),
            Self::spec_from_json(JsonV::Object(seq![("inner"@, JsonV::Unsigned(1))])) == Ok::<OrderSideV, JsonErrorV>(OrderSideV { inner: 1 }),
            Self::spec_from_json(JsonV::Object(seq![("inner"@, JsonV::Str("ORDER_SIDE_INNER_SELL"@))])) == Ok::<OrderSideV, JsonErrorV>(OrderSideV { inner: 2 }),
            Self::spec_from_json(JsonV::Object(seq![("inner"@, JsonV::Unsigned(2))])) == Ok::<OrderSideV, JsonErrorV>(OrderSideV { inner: 2 }),
            Self::spec_to_json(OrderSideV { inner: 1 }) == JsonV::Object(seq![("inner"@, JsonV::Str("ORDER_SIDE_INNER_BUY"@))]),
            Self::spec_to_json(OrderSideV { inner: 2 }) == JsonV::Object(seq![("inner"@, JsonV::Str("ORDER_SIDE_INNER_SELL"@))]),
    {
        reveal_strlit("inner");
        assert("inner"@.len() == 5);
        OrderSideInner::lemma_value_table();
        lemma_fold_entry_if(Self::spec_start(), true, "inner"@, JsonV::Str("ORDER_SIDE_INNER_UNSPECIFIED"@), Self::step_fn());
        lemma_fold_entry_if(Self::spec_start(), true, "inner"@, JsonV::Unsigned(0), Self::step_fn());
        lemma_fold_entry_if(Self::spec_start(), true, "inner"@, JsonV::Str("ORDER_SIDE_INNER_BUY"@), Self::step_fn());
        lemma_fold_entry_if(Self::spec_start(), true, "inner"@, JsonV::Unsigned(1), Self::step_fn());
        lemma_fold_entry_if(Self::spec_start(), true, "inner"@, JsonV::Str("ORDER_SIDE_INNER_SELL"@), Self::step_fn());
        lemma_fold_entry_if(Self::spec_start(), true, "inner"@, JsonV::Unsigned(2), Self::step_fn());
    }

    /// Reading back the JSON object of a message gives the message.
    pub proof fn lemma_json_roundtrip(m: OrderSideV)
        requires
            Self::spec_encode_error(m) is None,
        ensures Self::spec_from_json(Self::spec_to_json(m)) == Ok::<OrderSideV, JsonErrorV>(m),
    {
        let step = Self::step_fn();
        let s0 = Self::spec_start();
        let s1 = (OrderSideV { inner: m.inner }, if m.inner != 0 { s0.1.update(0, true) } else { s0.1 });
        Self::lemma_entry_inner(m, s0);
        let p1 = Self::spec_entry_inner(m);
        assert(s1.0 == m);
    }
}

/// The `astria.protocol.orderbook.v1.OrderTimeInForce` message.
#[derive(Clone, Debug, PartialEq)]
pub struct OrderTimeInForce {
    pub inner: i32,
}

/// The mathematical content of an [`OrderTimeInForce`].
pub struct OrderTimeInForceV {
    pub inner: i32,
}

impl View for OrderTimeInForce {
    type V = OrderTimeInForceV;

    open spec fn view(&self) -> OrderTimeInForceV {
        OrderTimeInForceV {
            inner: self.inner,
        }
    }
}

impl Default for OrderTimeInForce {
    fn default() -> (r: Self)
        ensures r@ == OrderTimeInForce::spec_default(),
    {
        let r = OrderTimeInForce {
            inner: 0,
        };
        r
    }
}

impl OrderTimeInForce {
    /// The fully qualified protobuf name of the message.
    pub fn full_name() -> (r: String)
        ensures r@ == "astria.protocol.orderbook.v1.OrderTimeInForce"@,
    {
        "astria.protocol.orderbook.v1.OrderTimeInForce".to_string()
    }

    /// Every field at its default: empty strings, bytes and lists, zero, `false`, unset.
    pub open spec fn spec_default() -> OrderTimeInForceV {
        OrderTimeInForceV {
            inner: 0,
        }
    }

    /// The view of an optional field of this message type.
    pub open spec fn view_opt(o: Option<Self>) -> Option<OrderTimeInForceV> {
        match o {
            Some(x) => Some(x@),
            None => None,
        }
    }

    /// The view of a repeated field of this message type.
    pub open spec fn view_list(v: Seq<Self>) -> Seq<OrderTimeInForceV> {
        v.map_values(|x: Self| x@)
    }

    /// The member that the field `inner` writes: none where it holds its default.
    pub open spec fn spec_entry_inner(m: OrderTimeInForceV) -> Seq<(Seq<char>, JsonV)> {
        entry_if(m.inner != 0, "inner"@, JsonV::Str(OrderTimeInForceInner::spec_name_of(m.inner)))
    }

    /// The members of the JSON object of the message: each field that does not hold
    /// its default, under its JSON name, in the order of the fields.
    pub open spec fn spec_entries(m: OrderTimeInForceV) -> Seq<(Seq<char>, JsonV)> {
        Self::spec_entry_inner(m)
    }

    /// The JSON object that the protobuf JSON mapping writes for the message.
    pub open spec fn spec_to_json(m: OrderTimeInForceV) -> JsonV {
        JsonV::Object(Self::spec_entries(m))
    }

    /// [`Self::spec_to_json`] as a function value, for repeated fields.
    pub open spec fn writer() -> spec_fn(OrderTimeInForceV) -> JsonV {
        |m: OrderTimeInForceV| Self::spec_to_json(m)
    }

    /// Why the field `inner` cannot be written, if it cannot.
    pub open spec fn spec_error_inner(m: OrderTimeInForceV) -> Option<JsonErrorV> {
        if m.inner != 0 && OrderTimeInForceInner::spec_from_i32(m.inner) is None { Some(JsonErrorV::InvalidVariant(m.inner)) } else { None }
    }

    /// The first field, in the order of the fields, that cannot be written: an
    /// enumeration field whose number names no value, or a message field that
    /// holds one. `None` when the whole message can be written.
    pub open spec fn spec_encode_error(m: OrderTimeInForceV) -> Option<JsonErrorV> {
        if Self::spec_error_inner(m) is Some {
            Self::spec_error_inner(m)
        } else {
            None
        }
    }

    fn write_inner(&self, es: &mut Vec<(String, Json)>) -> (r: Result<(), JsonError>)
        ensures
            match r {
                Ok(_) => Self::spec_error_inner(self@) is None
                    && view_entries(final(es)@) == view_entries(old(es)@) + Self::spec_entry_inner(self@)
                ,
                Err(e) => Self::spec_error_inner(self@) == Some(e@),
            },
    {
        if self.inner != 0 {
            match OrderTimeInForceInner::from_i32(self.inner) {
                Some(x) => push_entry(es, "inner", x.to_json()),
                None => return Err(JsonError::InvalidVariant(self.inner)),
            }
        }
        assert(view_entries(es@) =~= view_entries(old(es)@) + Self::spec_entry_inner(self@));
        Ok(())
    }

    /// Writes the message as a JSON object, or gives the error of the first field
    /// that cannot be written; reading the object back gives the message.
    pub fn to_json(&self) -> (r: Result<Json, JsonError>)
        ensures
            match r {
                Ok(j) => Self::spec_encode_error(self@) is None
                    && j@ == Self::spec_to_json(self@)
                    && Self::spec_from_json(j@) == Ok::<OrderTimeInForceV, JsonErrorV>(self@),
                Err(e) => Self::spec_encode_error(self@) == Some(e@),
            },
    {
        let mut es: Vec<(String, Json)> = Vec::new();
        let ghost mut acc: Seq<(Seq<char>, JsonV)> = Seq::empty();
        proof {
            assert(view_entries(es@) =~= acc);
        }
        match self.write_inner(&mut es) {
            Ok(_) => {},
            Err(e) => return Err(e),
        }
        proof {
            acc = acc + Self::spec_entry_inner(self@);
        }
        proof {
            assert(acc =~= Self::spec_entries(self@));
            Self::lemma_json_roundtrip(self@);
        }
        Ok(Json::Object(es))
    }

    /// Reads one member of the object into the message under construction; `seen`
    /// records which fields that have no unset state were already given.
    pub open spec fn spec_step(st: (OrderTimeInForceV, Seq<bool>), key: Seq<char>, v: JsonV) -> Result<(OrderTimeInForceV, Seq<bool>), JsonErrorV> {
        let m = st.0;
        let seen = st.1;
        if key == "inner"@ {
            if seen[0] {
                Err(JsonErrorV::DuplicateField("inner"@))
            } else {
                match OrderTimeInForceInner::spec_read_number(v) {
                    Ok(x) => Ok((OrderTimeInForceV { inner: x }, seen.update(0, true))),
                    Err(e) => Err(e),
                }
            }
        } else {
            Err(JsonErrorV::UnknownField(key))
        }
    }

    /// [`Self::spec_step`] as a function value.
    pub open spec fn step_fn() -> spec_fn((OrderTimeInForceV, Seq<bool>), Seq<char>, JsonV) -> Result<(OrderTimeInForceV, Seq<bool>), JsonErrorV> {
        |st: (OrderTimeInForceV, Seq<bool>), key: Seq<char>, v: JsonV| Self::spec_step(st, key, v)
    }

    /// The state before the first member is read: the default message, no field seen.
    pub open spec fn spec_start() -> (OrderTimeInForceV, Seq<bool>) {
        (Self::spec_default(), seq![false])
    }

    /// The message that a JSON value describes: an object whose keys each name a field
    /// (by its JSON name or its protobuf name), at most once each; fields that are not
    /// given keep their default. The first member that is refused gives the error.
    pub open spec fn spec_from_json(j: JsonV) -> Result<OrderTimeInForceV, JsonErrorV> {
        match j {
            JsonV::Object(es) => match fold_entries(Self::spec_start(), es, Self::step_fn()) {
                Ok(st) => Ok(st.0),
                Err(e) => Err(e),
            },
            _ => Err(JsonErrorV::ExpectedObject),
        }
    }

    /// [`Self::spec_from_json`] as a function value, for repeated fields.
    pub open spec fn reader() -> spec_fn(JsonV) -> Result<OrderTimeInForceV, JsonErrorV> {
        |v: JsonV| Self::spec_from_json(v)
    }

    /// An optional field of this message type: `null` leaves it unset.
    pub open spec fn spec_read_opt(v: JsonV) -> Result<Option<OrderTimeInForceV>, JsonErrorV> {
        match v {
            JsonV::Null => Ok(None),
            _ => match Self::spec_from_json(v) {
                Ok(x) => Ok(Some(x)),
                Err(e) => Err(e),
            },
        }
    }

    fn step(m: Self, seen: Vec<bool>, key: &String, v: &Json) -> (r: Result<(Self, Vec<bool>), JsonError>)
        requires seen@.len() == 1,
        ensures
            match r {
                Ok((m2, seen2)) => Self::spec_step((m@, seen@), key@, v@) == Ok::<(OrderTimeInForceV, Seq<bool>), JsonErrorV>((m2@, seen2@)) && seen2@.len() == 1,
                Err(e) => Self::spec_step((m@, seen@), key@, v@) == Err::<(OrderTimeInForceV, Seq<bool>), JsonErrorV>(e@),
            },
    {
        let mut m = m;
        let mut seen = seen;
        let k = key.as_str();
        if str_eq(k, "inner") {
            if seen[0] {
                return Err(JsonError::DuplicateField("inner".to_string()));
            }
            match OrderTimeInForceInner::number_field(v) {
                Ok(x) => m.inner = x,
                Err(e) => return Err(e),
            }
            seen.set(0, true);
        } else {
            return Err(JsonError::UnknownField(key.clone()));
        }
        Ok((m, seen))
    }

    /// Reads the message from a JSON value, as [`Self::spec_from_json`] describes.
    pub fn from_json(j: &Json) -> (r: Result<Self, JsonError>)
        ensures
            match r {
                Ok(m) => Self::spec_from_json(j@) == Ok::<OrderTimeInForceV, JsonErrorV>(m@),
                Err(e) => Self::spec_from_json(j@) == Err::<OrderTimeInForceV, JsonErrorV>(e@),
            },
    {
        let es = match j {
            Json::Object(es) => es,
            _ => return Err(JsonError::ExpectedObject),
        };
        let ghost ves = view_entries(es@);
        proof {
            lemma_view_entries_len(es@);
            assert(j@ == JsonV::Object(ves));
        }
        let mut m = Self::default();
        let mut seen: Vec<bool> = vec![false];
        let mut i: usize = 0;
        proof {
            assert(seen@ =~= Self::spec_start().1);
            assert(ves.skip(0) == ves);
        }
        while i < es.len()
            invariant
                j@ == JsonV::Object(ves),
                ves == view_entries(es@),
                ves.len() == es@.len(),
                i <= es.len(),
                seen@.len() == 1,
                fold_entries(Self::spec_start(), ves, Self::step_fn())
                    == fold_entries((m@, seen@), ves.skip(i as int), Self::step_fn()),
            decreases es.len() - i,
        {
            proof {
                lemma_view_entries_index(es@, i as int);
                lemma_fold_entries_step((m@, seen@), ves, i as int, Self::step_fn());
            }
            match Self::step(m, seen, &es[i].0, &es[i].1) {
                Ok((m2, seen2)) => {
                    m = m2;
                    seen = seen2;
                },
                Err(e) => return Err(e),
            }
            i = i + 1;
        }
        proof {
            assert(ves.skip(ves.len() as int) == Seq::<(Seq<char>, JsonV)>::empty());
            assert(fold_entries((m@, seen@), ves.skip(ves.len() as int), Self::step_fn())
                == Ok::<(OrderTimeInForceV, Seq<bool>), JsonErrorV>((m@, seen@)));
        }
        Ok(m)
    }

    /// Reads an optional field of this message type.
    pub fn opt_from_json(v: &Json) -> (r: Result<Option<Self>, JsonError>)
        ensures
            match r {
                Ok(None) => Self::spec_read_opt(v@) == Ok::<Option<OrderTimeInForceV>, JsonErrorV>(None),
                Ok(Some(x)) => Self::spec_read_opt(v@) == Ok::<Option<OrderTimeInForceV>, JsonErrorV>(Some(x@)),
                Err(e) => Self::spec_read_opt(v@) == Err::<Option<OrderTimeInForceV>, JsonErrorV>(e@),
            },
    {
        match v {
            Json::Null => Ok(None),
            _ => match Self::from_json(v) {
                Ok(x) => Ok(Some(x)),
                Err(e) => Err(e),
            },
        }
    }

    /// Reading the member that the field `inner` writes sets the field.
    pub proof fn lemma_entry_inner(m: OrderTimeInForceV, st: (OrderTimeInForceV, Seq<bool>))
        requires
            st.1.len() == 1,
            !st.1[0],
            st.0.inner == 0,
            Self::spec_error_inner(m) is None,
        ensures
            fold_entries(st, Self::spec_entry_inner(m), Self::step_fn()) == Ok::<(OrderTimeInForceV, Seq<bool>), JsonErrorV>((OrderTimeInForceV { inner: m.inner }, if m.inner != 0 { st.1.update(0, true) } else { st.1 })),
    {
        reveal_strlit("inner");
        assert("inner"@.len() == 5);
        if m.inner != 0 {
            OrderTimeInForceInner::lemma_number_roundtrip(m.inner);
        }
        lemma_fold_entry_if(st, m.inner != 0, "inner"@, JsonV::Str(OrderTimeInForceInner::spec_name_of(m.inner)), Self::step_fn());
    }

    /// The JSON spelling of a key: the protobuf name of a field becomes its JSON name;
    /// a JSON name, and any key that names no field, is left as it is.
    pub open spec fn spec_json_key(key: Seq<char>) -> Seq<char> {
        if key == "inner"@ {
            "inner"@
        } else {
            key
        }
    }

    /// [`Self::spec_json_key`] as a function value.
    pub open spec fn json_key_fn() -> spec_fn(Seq<char>) -> Seq<char> {
        |key: Seq<char>| Self::spec_json_key(key)
    }

    /// One member is read alike whichever spelling its key has.
    pub proof fn lemma_step_json_key(st: (OrderTimeInForceV, Seq<bool>), key: Seq<char>, v: JsonV)
        ensures Self::spec_step(st, key, v) == Self::spec_step(st, Self::spec_json_key(key), v),
    {
        reveal_strlit("inner");
        assert("inner"@.len() == 5);
    }

    /// Reading an object gives the same result whichever spelling each of its keys has:
    /// two objects whose members hold the same values, in the same order, under keys of
    /// the same JSON spelling describe the same message, or are refused with the same error.
    pub proof fn lemma_key_spelling(es1: Seq<(Seq<char>, JsonV)>, es2: Seq<(Seq<char>, JsonV)>)
        requires
            es1.len() == es2.len(),
            forall|i: int| #![trigger es1[i], es2[i]] 0 <= i < es1.len() ==> es1[i].1 == es2[i].1 && Self::spec_json_key(es1[i].0) == Self::spec_json_key(es2[i].0),
        ensures Self::spec_from_json(JsonV::Object(es1)) == Self::spec_from_json(JsonV::Object(es2)),
    {
        assert forall|s: (OrderTimeInForceV, Seq<bool>), k: Seq<char>, v: JsonV|
            #![trigger Self::step_fn()(s, k, v), Self::json_key_fn()(k)]
            Self::step_fn()(s, k, v) == Self::step_fn()(s, Self::json_key_fn()(k), v) by {
            Self::lemma_step_json_key(s, k, v);
        }
        lemma_fold_same_keys(Self::spec_start(), es1, es2, Self::step_fn(), Self::json_key_fn());
    }

    /// The keys of the object that the message writes: the JSON names of the fields that
    /// do not hold their default (for a oneof, the JSON name of the member set), in the
    /// order of the fields.
    pub open spec fn spec_written_keys(m: OrderTimeInForceV) -> Seq<Seq<char>> {
        key_if(m.inner != 0, "inner"@)
    }

    /// The object that the message writes has exactly the keys of
    /// [`Self::spec_written_keys`], in that order.
    pub proof fn lemma_written_keys(m: OrderTimeInForceV)
        ensures
            Self::spec_to_json(m) == JsonV::Object(Self::spec_entries(m)),
            entry_keys(Self::spec_entries(m)) == Self::spec_written_keys(m),
    {
        lemma_entry_keys_if(m.inner != 0, "inner"@, JsonV::Str(OrderTimeInForceInner::spec_name_of(m.inner)));
    }

    /// Whether the field whose JSON name is `name` holds its default in `m`; for a member
    /// of a oneof, whether the oneof is set to another member or unset. `true` for a name
    /// that names no field.
    pub open spec fn spec_holds_default(m: OrderTimeInForceV, name: Seq<char>) -> bool {
        if name == "inner"@ {
            m.inner == 0
        } else {
            true
        }
    }

    /// Whether reading `v` for the field whose JSON name is `name` leaves the field at
    /// its default: `null`, for a field that takes it (a message field, a member of a
    /// oneof); nothing, for any other field. `true` for a name that names no field.
    pub open spec fn spec_leaves_default(name: Seq<char>, v: JsonV) -> bool {
        if name == "inner"@ {
            false
        } else {
            true
        }
    }

    /// Reading one member keeps a field at its default unless the key names the field
    /// and the value does not leave it there.
    pub proof fn lemma_step_keeps_default(st: (OrderTimeInForceV, Seq<bool>), key: Seq<char>, v: JsonV, name: Seq<char>)
        requires
            Self::spec_holds_default(st.0, name),
            Self::spec_json_key(key) == name ==> Self::spec_leaves_default(name, v),
        ensures
            Self::spec_step(st, key, v) is Ok ==> Self::spec_holds_default(Self::spec_step(st, key, v)->Ok_0.0, name),
    {
        reveal_strlit("inner");
        assert("inner"@.len() == 5);
        Self::lemma_step_json_key(st, key, v);
    }

    /// A field whose key appears in no member of an object, or only with values that
    /// leave it at its default (`null`, for a field that takes it), holds its default in
    /// the message that the object describes.
    pub proof fn lemma_absent_default(es: Seq<(Seq<char>, JsonV)>, name: Seq<char>)
        requires
            forall|i: int| 0 <= i < es.len() ==> (Self::spec_json_key((#[trigger] es[i]).0) == name
                ==> Self::spec_leaves_default(name, es[i].1)),
        ensures
            Self::spec_from_json(JsonV::Object(es)) is Ok
                ==> Self::spec_holds_default(Self::spec_from_json(JsonV::Object(es))->Ok_0, name),
    {
        let inv = |s: (OrderTimeInForceV, Seq<bool>)| Self::spec_holds_default(s.0, name);
        let allowed = |k: Seq<char>, v: JsonV| Self::spec_json_key(k) == name ==> Self::spec_leaves_default(name, v);
        assert forall|s: (OrderTimeInForceV, Seq<bool>), k: Seq<char>, v: JsonV| #![trigger Self::step_fn()(s, k, v)]
            inv(s) && allowed(k, v) && Self::step_fn()(s, k, v) is Ok implies inv(Self::step_fn()(s, k, v)->Ok_0) by {
            Self::lemma_step_keeps_default(s, k, v, name);
        }
        assert(inv(Self::spec_start()));
        lemma_fold_keeps(Self::spec_start(), es, Self::step_fn(), inv, allowed);
    }

    /// The field `inner` alone: an object with one member under its JSON or protobuf
    /// name reads as the message with that field set and every other field at its
    /// default, and the message with only that field off its default writes that
    /// one member under the JSON name.
    pub proof fn lemma_field_inner()
        ensures
            Self::spec_from_json(JsonV::Object(seq![("inner"@, JsonV::Str("ORDER_TIME_IN_FORCE_INNER_UNSPECIFIED"@))])) == Ok::<OrderTimeInForceV, JsonErrorV>(OrderTimeInForceV { inner: 0 }),
            Self::spec_from_json(JsonV::Object(seq![("inner"@, JsonV::Unsigned(0))])) == Ok::<OrderTimeInForceV, JsonErrorV>(OrderTimeInForceV { inner: 0 }),
            Self::spec_from_json(JsonV::Object(seq![("inner"@, JsonV::Str("ORDER_TIME_IN_FORCE_INNER_GTC"@))])) == Ok::<OrderTimeInForceV, JsonErrorV>(OrderTimeInForceV { inner: 1 }),
            Self::spec_from_json(JsonV::Object(seq![("inner"@, JsonV::Unsigned(1))])) == Ok::<OrderTimeInForceV, JsonErrorV>(OrderTimeInForceV { inner: 1 }),
            Self::spec_from_json(JsonV::Object(seq![("inner"@, JsonV::Str("ORDER_TIME_IN_FORCE_INNER_IOC"@))])) == Ok::<OrderTimeInForceV, JsonErrorV>(OrderTimeInForceV { inner: 2 }),
            Self::spec_from_json(JsonV::Object(seq![("inner"@, JsonV::Unsigned(2))])) == Ok::<OrderTimeInForceV, JsonErrorV>(OrderTimeInForceV { inner: 2 }),
            Self::spec_from_json(JsonV::Object(seq![("inner"@, JsonV::Str("ORDER_TIME_IN_FORCE_INNER_FOK"@))])) == Ok::<OrderTimeInForceV, JsonErrorV>(OrderTimeInForceV { inner: 3 }),
            Self::spec_from_json(JsonV::Object(seq![("inner"@, JsonV::Unsigned(3))])) == Ok::<OrderTimeInForceV, JsonErrorV>(OrderTimeInForceV { inner: 3 }),
            Self::spec_to_json(OrderTimeInForceV { inner: 1 }) == JsonV::Object(seq![("inner"@, JsonV::Str("ORDER_TIME_IN_FORCE_INNER_GTC"@))]),
            Self::spec_to_json(OrderTimeInForceV { inner: 2 }) == JsonV::Object(seq![("inner"@, JsonV::Str("ORDER_TIME_IN_FORCE_INNER_IOC"@))]),
            Self::spec_to_json(OrderTimeInForceV { inner: 3 }) == JsonV::Object(seq![("inner"@, JsonV::Str("ORDER_TIME_IN_FORCE_INNER_FOK"@))]),
    {
        reveal_strlit("inner");
        assert("inner"@.len() == 5);
        OrderTimeInForceInner::lemma_value_table();
        lemma_fold_entry_if(Self::spec_start(), true, "inner"@, JsonV::Str("ORDER_TIME_IN_FORCE_INNER_UNSPECIFIED"@), Self::step_fn());
        lemma_fold_entry_if(Self::spec_start(), true, "inner"@, JsonV::Unsigned(0), Self::step_fn());
        lemma_fold_entry_if(Self::spec_start(), true, "inner"@, JsonV::Str("ORDER_TIME_IN_FORCE_INNER_GTC"@), Self::step_fn());
        lemma_fold_entry_if(Self::spec_start(), true, "inner"@, JsonV::Unsigned(1), Self::step_fn());
        lemma_fold_entry_if(Self::spec_start(), true, "inner"@, JsonV::Str("ORDER_TIME_IN_FORCE_INNER_IOC"@), Self::step_fn());
        lemma_fold_entry_if(Self::spec_start(), true, "inner"@, JsonV::Unsigned(2), Self::step_fn());
        lemma_fold_entry_if(Self::spec_start(), true, "inner"@, JsonV::Str("ORDER_TIME_IN_FORCE_INNER_FOK"@), Self::step_fn());
        lemma_fold_entry_if(Self::spec_start(), true, "inner"@, JsonV::Unsigned(3), Self::step_fn());
    }

    /// Reading back the JSON object of a message gives the message.
    pub proof fn lemma_json_roundtrip(m: OrderTimeInForceV)
        requires
            Self::spec_encode_error(m) is None,
        ensures Self::spec_from_json(Self::spec_to_json(m)) == Ok::<OrderTimeInForceV, JsonErrorV>(m),
    {
        let step = Self::step_fn();
        let s0 = Self::spec_start();
        let s1 = (OrderTimeInForceV { inner: m.inner }, if m.inner != 0 { s0.1.update(0, true) } else { s0.1 });
        Self::lemma_entry_inner(m, s0);
        let p1 = Self::spec_entry_inner(m);
        assert(s1.0 == m);
    }
}

/// The `astria.protocol.orderbook.v1.OrderType` message.
#[derive(Clone, Debug, PartialEq)]
pub struct OrderType {
    pub inner: i32,
}

/// The mathematical content of an [`OrderType`].
pub struct OrderTypeV {
    pub inner: i32,
}

impl View for OrderType {
    type V = OrderTypeV;

    open spec fn view(&self) -> OrderTypeV {
        OrderTypeV {
            inner: self.inner,
        }
    }
}

impl Default for OrderType {
    fn default() -> (r: Self)
        ensures r@ == OrderType::spec_default(),
    {
        let r = OrderType {
            inner: 0,
        };
        r
    }
}

impl OrderType {
    /// The fully qualified protobuf name of the message.
    pub fn full_name() -> (r: String)
        ensures r@ == "astria.protocol.orderbook.v1.OrderType"@,
    {
        "astria.protocol.orderbook.v1.OrderType".to_string()
    }

    /// Every field at its default: empty strings, bytes and lists, zero, `false`, unset.
    pub open spec fn spec_default() -> OrderTypeV {
        OrderTypeV {
            inner: 0,
        }
    }

    /// The view of an optional field of this message type.
    pub open spec fn view_opt(o: Option<Self>) -> Option<OrderTypeV> {
        match o {
            Some(x) => Some(x@),
            None => None,
        }
    }

    /// The view of a repeated field of this message type.
    pub open spec fn view_list(v: Seq<Self>) -> Seq<OrderTypeV> {
        v.map_values(|x: Self| x@)
    }

    /// The member that the field `inner` writes: none where it holds its default.
    pub open spec fn spec_entry_inner(m: OrderTypeV) -> Seq<(Seq<char>, JsonV)> {
        entry_if(m.inner != 0, "inner"@, JsonV::Str(OrderTypeInner::spec_name_of(m.inner)))
    }

    /// The members of the JSON object of the message: each field that does not hold
    /// its default, under its JSON name, in the order of the fields.
    pub open spec fn spec_entries(m: OrderTypeV) -> Seq<(Seq<char>, JsonV)> {
        Self::spec_entry_inner(m)
    }

    /// The JSON object that the protobuf JSON mapping writes for the message.
    pub open spec fn spec_to_json(m: OrderTypeV) -> JsonV {
        JsonV::Object(Self::spec_entries(m))
    }

    /// [`Self::spec_to_json`] as a function value, for repeated fields.
    pub open spec fn writer() -> spec_fn(OrderTypeV) -> JsonV {
        |m: OrderTypeV| Self::spec_to_json(m)
    }

    /// Why the field `inner` cannot be written, if it cannot.
    pub open spec fn spec_error_inner(m: OrderTypeV) -> Option<JsonErrorV> {
        if m.inner != 0 && OrderTypeInner::spec_from_i32(m.inner) is None { Some(JsonErrorV::InvalidVariant(m.inner)) } else { None }
    }

    /// The first field, in the order of the fields, that cannot be written: an
    /// enumeration field whose number names no value, or a message field that
    /// holds one. `None` when the whole message can be written.
    pub open spec fn spec_encode_error(m: OrderTypeV) -> Option<JsonErrorV> {
        if Self::spec_error_inner(m) is Some {
            Self::spec_error_inner(m)
        } else {
            None
        }
    }

    fn write_inner(&self, es: &mut Vec<(String, Json)>) -> (r: Result<(), JsonError>)
        ensures
            match r {
                Ok(_) => Self::spec_error_inner(self@) is None
                    && view_entries(final(es)@) == view_entries(old(es)@) + Self::spec_entry_inner(self@)
                ,
                Err(e) => Self::spec_error_inner(self@) == Some(e@),
            },
    {
        if self.inner != 0 {
            match OrderTypeInner::from_i32(self.inner) {
                Some(x) => push_entry(es, "inner", x.to_json()),
                None => return Err(JsonError::InvalidVariant(self.inner)),
            }
        }
        assert(view_entries(es@) =~= view_entries(old(es)@) + Self::spec_entry_inner(self@));
        Ok(())
    }

    /// Writes the message as a JSON object, or gives the error of the first field
    /// that cannot be written; reading the object back gives the message.
    pub fn to_json(&self) -> (r: Result<Json, JsonError>)
        ensures
            match r {
                Ok(j) => Self::spec_encode_error(self@) is None
                    && j@ == Self::spec_to_json(self@)
                    && Self::spec_from_json(j@) == Ok::<OrderTypeV, JsonErrorV>(self@),
                Err(e) => Self::spec_encode_error(self@) == Some(e@),
            },
    {
        let mut es: Vec<(String, Json)> = Vec::new();
        let ghost mut acc: Seq<(Seq<char>, JsonV)> = Seq::empty();
        proof {
            assert(view_entries(es@) =~= acc);
        }
        match self.write_inner(&mut es) {
            Ok(_) => {},
            Err(e) => return Err(e),
        }
        proof {
            acc = acc + Self::spec_entry_inner(self@);
        }
        proof {
            assert(acc =~= Self::spec_entries(self@));
            Self::lemma_json_roundtrip(self@);
        }
        Ok(Json::Object(es))
    }

    /// Reads one member of the object into the message under construction; `seen`
    /// records which fields that have no unset state were already given.
    pub open spec fn spec_step(st: (OrderTypeV, Seq<bool>), key: Seq<char>, v: JsonV) -> Result<(OrderTypeV, Seq<bool>), JsonErrorV> {
        let m = st.0;
        let seen = st.1;
        if key == "inner"@ {
            if seen[0] {
                Err(JsonErrorV::DuplicateField("inner"@))
            } else {
                match OrderTypeInner::spec_read_number(v) {
                    Ok(x) => Ok((OrderTypeV { inner: x }, seen.update(0, true))),
                    Err(e) => Err(e),
                }
            }
        } else {
            Err(JsonErrorV::UnknownField(key))
        }
    }

    /// [`Self::spec_step`] as a function value.
    pub open spec fn step_fn() -> spec_fn((OrderTypeV, Seq<bool>), Seq<char>, JsonV) -> Result<(OrderTypeV, Seq<bool>), JsonErrorV> {
        |st: (OrderTypeV, Seq<bool>), key: Seq<char>, v: JsonV| Self::spec_step(st, key, v)
    }

    /// The state before the first member is read: the default message, no field seen.
    pub open spec fn spec_start() -> (OrderTypeV, Seq<bool>) {
        (Self::spec_default(), seq![false])
    }

    /// The message that a JSON value describes: an object whose keys each name a field
    /// (by its JSON name or its protobuf name), at most once each; fields that are not
    /// given keep their default. The first member that is refused gives the error.
    pub open spec fn spec_from_json(j: JsonV) -> Result<OrderTypeV, JsonErrorV> {
        match j {
            JsonV::Object(es) => match fold_entries(Self::spec_start(), es, Self::step_fn()) {
                Ok(st) => Ok(st.0),
                Err(e) => Err(e),
            },
            _ => Err(JsonErrorV::ExpectedObject),
        }
    }

    /// [`Self::spec_from_json`] as a function value, for repeated fields.
    pub open spec fn reader() -> spec_fn(JsonV) -> Result<OrderTypeV, JsonErrorV> {
        |v: JsonV| Self::spec_from_json(v)
    }

    /// An optional field of this message type: `null` leaves it unset.
    pub open spec fn spec_read_opt(v: JsonV) -> Result<Option<OrderTypeV>, JsonErrorV> {
        match v {
            JsonV::Null => Ok(None),
            _ => match Self::spec_from_json(v) {
                Ok(x) => Ok(Some(x)),
                Err(e) => Err(e),
            },
        }
    }

    fn step(m: Self, seen: Vec<bool>, key: &String, v: &Json) -> (r: Result<(Self, Vec<bool>), JsonError>)
        requires seen@.len() == 1,
        ensures
            match r {
                Ok((m2, seen2)) => Self::spec_step((m@, seen@), key@, v@) == Ok::<(OrderTypeV, Seq<bool>), JsonErrorV>((m2@, seen2@)) && seen2@.len() == 1,
                Err(e) => Self::spec_step((m@, seen@), key@, v@) == Err::<(OrderTypeV, Seq<bool>), JsonErrorV>(e@),
            },
    {
        let mut m = m;
        let mut seen = seen;
        let k = key.as_str();
        if str_eq(k, "inner") {
            if seen[0] {
                return Err(JsonError::DuplicateField("inner".to_string()));
            }
            match OrderTypeInner::number_field(v) {
                Ok(x) => m.inner = x,
                Err(e) => return Err(e),
            }
            seen.set(0, true);
        } else {
            return Err(JsonError::UnknownField(key.clone()));
        }
        Ok((m, seen))
    }

    /// Reads the message from a JSON value, as [`Self::spec_from_json`] describes.
    pub fn from_json(j: &Json) -> (r: Result<Self, JsonError>)
        ensures
            match r {
                Ok(m) => Self::spec_from_json(j@) == Ok::<OrderTypeV, JsonErrorV>(m@),
                Err(e) => Self::spec_from_json(j@) == Err::<OrderTypeV, JsonErrorV>(e@),
            },
    {
        let es = match j {
            Json::Object(es) => es,
            _ => return Err(JsonError::ExpectedObject),
        };
        let ghost ves = view_entries(es@);
        proof {
            lemma_view_entries_len(es@);
            assert(j@ == JsonV::Object(ves));
        }
        let mut m = Self::default();
        let mut seen: Vec<bool> = vec![false];
        let mut i: usize = 0;
        proof {
            assert(seen@ =~= Self::spec_start().1);
            assert(ves.skip(0) == ves);
        }
        while i < es.len()
            invariant
                j@ == JsonV::Object(ves),
                ves == view_entries(es@),
                ves.len() == es@.len(),
                i <= es.len(),
                seen@.len() == 1,
                fold_entries(Self::spec_start(), ves, Self::step_fn())
                    == fold_entries((m@, seen@), ves.skip(i as int), Self::step_fn()),
            decreases es.len() - i,
        {
            proof {
                lemma_view_entries_index(es@, i as int);
                lemma_fold_entries_step((m@, seen@), ves, i as int, Self::step_fn());
            }
            match Self::step(m, seen, &es[i].0, &es[i].1) {
                Ok((m2, seen2)) => {
                    m = m2;
                    seen = seen2;
                },
                Err(e) => return Err(e),
            }
            i = i + 1;
        }
        proof {
            assert(ves.skip(ves.len() as int) == Seq::<(Seq<char>, JsonV)>::empty());
            assert(fold_entries((m@, seen@), ves.skip(ves.len() as int), Self::step_fn())
                == Ok::<(OrderTypeV, Seq<bool>), JsonErrorV>((m@, seen@)));
        }
        Ok(m)
    }

    /// Reads an optional field of this message type.
    pub fn opt_from_json(v: &Json) -> (r: Result<Option<Self>, JsonError>)
        ensures
            match r {
                Ok(None) => Self::spec_read_opt(v@) == Ok::<Option<OrderTypeV>, JsonErrorV>(None),
                Ok(Some(x)) => Self::spec_read_opt(v@) == Ok::<Option<OrderTypeV>, JsonErrorV>(Some(x@)),
                Err(e) => Self::spec_read_opt(v@) == Err::<Option<OrderTypeV>, JsonErrorV>(e@),
            },
    {
        match v {
            Json::Null => Ok(None),
            _ => match Self::from_json(v) {
                Ok(x) => Ok(Some(x)),
                Err(e) => Err(e),
            },
        }
    }

    /// Reading the member that the field `inner` writes sets the field.
    pub proof fn lemma_entry_inner(m: OrderTypeV, st: (OrderTypeV, Seq<bool>))
        requires
            st.1.len() == 1,
            !st.1[0],
            st.0.inner == 0,
            Self::spec_error_inner(m) is None,
        ensures
            fold_entries(st, Self::spec_entry_inner(m), Self::step_fn()) == Ok::<(OrderTypeV, Seq<bool>), JsonErrorV>((OrderTypeV { inner: m.inner }, if m.inner != 0 { st.1.update(0, true) } else { st.1 })),
    {
        reveal_strlit("inner");
        assert("inner"@.len() == 5);
        if m.inner != 0 {
            OrderTypeInner::lemma_number_roundtrip(m.inner);
        }
        lemma_fold_entry_if(st, m.inner != 0, "inner"@, JsonV::Str(OrderTypeInner::spec_name_of(m.inner)), Self::step_fn());
    }

    /// The JSON spelling of a key: the protobuf name of a field becomes its JSON name;
    /// a JSON name, and any key that names no field, is left as it is.
    pub open spec fn spec_json_key(key: Seq<char>) -> Seq<char> {
        if key == "inner"@ {
            "inner"@
        } else {
            key
        }
    }

    /// [`Self::spec_json_key`] as a function value.
    pub open spec fn json_key_fn() -> spec_fn(Seq<char>) -> Seq<char> {
        |key: Seq<char>| Self::spec_json_key(key)
    }

    /// One member is read alike whichever spelling its key has.
    pub proof fn lemma_step_json_key(st: (OrderTypeV, Seq<bool>), key: Seq<char>, v: JsonV)
        ensures Self::spec_step(st, key, v) == Self::spec_step(st, Self::spec_json_key(key), v),
    {
        reveal_strlit("inner");
        assert("inner"@.len() == 5);
    }

    /// Reading an object gives the same result whichever spelling each of its keys has:
    /// two objects whose members hold the same values, in the same order, under keys of
    /// the same JSON spelling describe the same message, or are refused with the same error.
    pub proof fn lemma_key_spelling(es1: Seq<(Seq<char>, JsonV)>, es2: Seq<(Seq<char>, JsonV)>)
        requires
            es1.len() == es2.len(),
            forall|i: int| #![trigger es1[i], es2[i]] 0 <= i < es1.len() ==> es1[i].1 == es2[i].1 && Self::spec_json_key(es1[i].0) == Self::spec_json_key(es2[i].0),
        ensures Self::spec_from_json(JsonV::Object(es1)) == Self::spec_from_json(JsonV::Object(es2)),
    {
        assert forall|s: (OrderTypeV, Seq<bool>), k: Seq<char>, v: JsonV|
            #![trigger Self::step_fn()(s, k, v), Self::json_key_fn()(k)]
            Self::step_fn()(s, k, v) == Self::step_fn()(s, Self::json_key_fn()(k), v) by {
            Self::lemma_step_json_key(s, k, v);
        }
        lemma_fold_same_keys(Self::spec_start(), es1, es2, Self::step_fn(), Self::json_key_fn());
    }

    /// The keys of the object that the message writes: the JSON names of the fields that
    /// do not hold their default (for a oneof, the JSON name of the member set), in the
    /// order of the fields.
    pub open spec fn spec_written_keys(m: OrderTypeV) -> Seq<Seq<char>> {
        key_if(m.inner != 0, "inner"@)
    }

    /// The object that the message writes has exactly the keys of
    /// [`Self::spec_written_keys`], in that order.
    pub proof fn lemma_written_keys(m: OrderTypeV)
        ensures
            Self::spec_to_json(m) == JsonV::Object(Self::spec_entries(m)),
            entry_keys(Self::spec_entries(m)) == Self::spec_written_keys(m),
    {
        lemma_entry_keys_if(m.inner != 0, "inner"@, JsonV::Str(OrderTypeInner::spec_name_of(m.inner)));
    }

    /// Whether the field whose JSON name is `name` holds its default in `m`; for a member
    /// of a oneof, whether the oneof is set to another member or unset. `true` for a name
    /// that names no field.
    pub open spec fn spec_holds_default(m: OrderTypeV, name: Seq<char>) -> bool {
        if name == "inner"@ {
            m.inner == 0
        } else {
            true
        }
    }

    /// Whether reading `v` for the field whose JSON name is `name` leaves the field at
    /// its default: `null`, for a field that takes it (a message field, a member of a
    /// oneof); nothing, for any other field. `true` for a name that names no field.
    pub open spec fn spec_leaves_default(name: Seq<char>, v: JsonV) -> bool {
        if name == "inner"@ {
            false
        } else {
            true
        }
    }

    /// Reading one member keeps a field at its default unless the key names the field
    /// and the value does not leave it there.
    pub proof fn lemma_step_keeps_default(st: (OrderTypeV, Seq<bool>), key: Seq<char>, v: JsonV, name: Seq<char>)
        requires
            Self::spec_holds_default(st.0, name),
            Self::spec_json_key(key) == name ==> Self::spec_leaves_default(name, v),
        ensures
            Self::spec_step(st, key, v) is Ok ==> Self::spec_holds_default(Self::spec_step(st, key, v)->Ok_0.0, name),
    {
        reveal_strlit("inner");
        assert("inner"@.len() == 5);
        Self::lemma_step_json_key(st, key, v);
    }

    /// A field whose key appears in no member of an object, or only with values that
    /// leave it at its default (`null`, for a field that takes it), holds its default in
    /// the message that the object describes.
    pub proof fn lemma_absent_default(es: Seq<(Seq<char>, JsonV)>, name: Seq<char>)
        requires
            forall|i: int| 0 <= i < es.len() ==> (Self::spec_json_key((#[trigger] es[i]).0) == name
                ==> Self::spec_leaves_default(name, es[i].1)),
        ensures
            Self::spec_from_json(JsonV::Object(es)) is Ok
                ==> Self::spec_holds_default(Self::spec_from_json(JsonV::Object(es))->Ok_0, name),
    {
        let inv = |s: (OrderTypeV, Seq<bool>)| Self::spec_holds_default(s.0, name);
        let allowed = |k: Seq<char>, v: JsonV| Self::spec_json_key(k) == name ==> Self::spec_leaves_default(name, v);
        assert forall|s: (OrderTypeV, Seq<bool>), k: Seq<char>, v: JsonV| #![trigger Self::step_fn()(s, k, v)]
            inv(s) && allowed(k, v) && Self::step_fn()(s, k, v) is Ok implies inv(Self::step_fn()(s, k, v)->Ok_0) by {
            Self::lemma_step_keeps_default(s, k, v, name);
        }
        assert(inv(Self::spec_start()));
        lemma_fold_keeps(Self::spec_start(), es, Self::step_fn(), inv, allowed);
    }

    /// The field `inner` alone: an object with one member under its JSON or protobuf
    /// name reads as the message with that field set and every other field at its
    /// default, and the message with only that field off its default writes that
    /// one member under the JSON name.
    pub proof fn lemma_field_inner()
        ensures
            Self::spec_from_json(JsonV::Object(seq![("inner"@, JsonV::Str("ORDER_TYPE_INNER_UNSPECIFIED"@))])) == Ok::<OrderTypeV, JsonErrorV>(OrderTypeV { inner: 0 }),
            Self::spec_from_json(JsonV::Object(seq![("inner"@, JsonV::Unsigned(0))])) == Ok::<OrderTypeV, JsonErrorV>(OrderTypeV { inner: 0 }),
            Self::spec_from_json(JsonV::Object(seq![("inner"@, JsonV::Str("ORDER_TYPE_INNER_LIMIT"@))])) == Ok::<OrderTypeV, JsonErrorV>(OrderTypeV { inner: 1 }),
            Self::spec_from_json(JsonV::Object(seq![("inner"@, JsonV::Unsigned(1))])) == Ok::<OrderTypeV, JsonErrorV>(OrderTypeV { inner: 1 }),
            Self::spec_from_json(JsonV::Object(seq![("inner"@, JsonV::Str("ORDER_TYPE_INNER_MARKET"@))])) == Ok::<OrderTypeV, JsonErrorV>(OrderTypeV { inner: 2 }),
            Self::spec_from_json(JsonV::Object(seq![("inner"@, JsonV::Unsigned(2))])) == Ok::<OrderTypeV, JsonErrorV>(OrderTypeV { inner: 2 }),
            Self::spec_to_json(OrderTypeV { inner: 1 }) == JsonV::Object(seq![("inner"@, JsonV::Str("ORDER_TYPE_INNER_LIMIT"@))]),
            Self::spec_to_json(OrderTypeV { inner: 2 }) == JsonV::Object(seq![("inner"@, JsonV::Str("ORDER_TYPE_INNER_MARKET"@))]),
    {
        reveal_strlit("inner");
        assert("inner"@.len() == 5);
        OrderTypeInner::lemma_value_table();
        lemma_fold_entry_if(Self::spec_start(), true, "inner"@, JsonV::Str("ORDER_TYPE_INNER_UNSPECIFIED"@), Self::step_fn());
        lemma_fold_entry_if(Self::spec_start(), true, "inner"@, JsonV::Unsigned(0), Self::step_fn());
        lemma_fold_entry_if(Self::spec_start(), true, "inner"@, JsonV::Str("ORDER_TYPE_INNER_LIMIT"@), Self::step_fn());
        lemma_fold_entry_if(Self::spec_start(), true, "inner"@, JsonV::Unsigned(1), Self::step_fn());
        lemma_fold_entry_if(Self::spec_start(), true, "inner"@, JsonV::Str("ORDER_TYPE_INNER_MARKET"@), Self::step_fn());
        lemma_fold_entry_if(Self::spec_start(), true, "inner"@, JsonV::Unsigned(2), Self::step_fn());
    }

    /// Reading back the JSON object of a message gives the message.
    pub proof fn lemma_json_roundtrip(m: OrderTypeV)
        requires
            Self::spec_encode_error(m) is None,
        ensures Self::spec_from_json(Self::spec_to_json(m)) == Ok::<OrderTypeV, JsonErrorV>(m),
    {
        let step = Self::step_fn();
        let s0 = Self::spec_start();
        let s1 = (OrderTypeV { inner: m.inner }, if m.inner != 0 { s0.1.update(0, true) } else { s0.1 });
        Self::lemma_entry_inner(m, s0);
        let p1 = Self::spec_entry_inner(m);
        assert(s1.0 == m);
    }
}

/// The `astria.protocol.orderbook.v1.Orderbook` message.
#[derive(Clone, Debug, PartialEq)]
pub struct Orderbook {
    pub market: String,
    pub bids: Vec<OrderbookEntry>,
    pub asks: Vec<OrderbookEntry>,
}

/// The mathematical content of an [`Orderbook`].
pub struct OrderbookV {
    pub market: Seq<char>,
    pub bids: Seq<OrderbookEntryV>,
    pub asks: Seq<OrderbookEntryV>,
}

impl View for Orderbook {
    type V = OrderbookV;

    open spec fn view(&self) -> OrderbookV {
        OrderbookV {
            market: self.market@,
            bids: OrderbookEntry::view_list(self.bids@),
            asks: OrderbookEntry::view_list(self.asks@),
        }
    }
}

impl Default for Orderbook {
    fn default() -> (r: Self)
        ensures r@ == Orderbook::spec_default(),
    {
        let r = Orderbook {
            market: String::new(),
            bids: Vec::new(),
            asks: Vec::new(),
        };
        proof {
            assert(OrderbookEntry::view_list(r.bids@) =~= Seq::<OrderbookEntryV>::empty());
            assert(OrderbookEntry::view_list(r.asks@) =~= Seq::<OrderbookEntryV>::empty());
        }
        r
    }
}

impl Orderbook {
    /// The fully qualified protobuf name of the message.
    pub fn full_name() -> (r: String)
        ensures r@ == "astria.protocol.orderbook.v1.Orderbook"@,
    {
        "astria.protocol.orderbook.v1.Orderbook".to_string()
    }

    /// Every field at its default: empty strings, bytes and lists, zero, `false`, unset.
    pub open spec fn spec_default() -> OrderbookV {
        OrderbookV {
            market: Seq::<char>::empty(),
            bids: Seq::<OrderbookEntryV>::empty(),
            asks: Seq::<OrderbookEntryV>::empty(),
        }
    }

    /// The view of an optional field of this message type.
    pub open spec fn view_opt(o: Option<Self>) -> Option<OrderbookV> {
        match o {
            Some(x) => Some(x@),
            None => None,
        }
    }

    /// The view of a repeated field of this message type.
    pub open spec fn view_list(v: Seq<Self>) -> Seq<OrderbookV> {
        v.map_values(|x: Self| x@)
    }

    /// The member that the field `market` writes: none where it holds its default.
    pub open spec fn spec_entry_market(m: OrderbookV) -> Seq<(Seq<char>, JsonV)> {
        entry_if(m.market.len() != 0, "market"@, JsonV::Str(m.market))
    }

    /// The member that the field `bids` writes: none where it holds its default.
    pub open spec fn spec_entry_bids(m: OrderbookV) -> Seq<(Seq<char>, JsonV)> {
        entry_if(m.bids.len() != 0, "bids"@, JsonV::Array(m.bids.map_values(OrderbookEntry::writer())))
    }

    /// The member that the field `asks` writes: none where it holds its default.
    pub open spec fn spec_entry_asks(m: OrderbookV) -> Seq<(Seq<char>, JsonV)> {
        entry_if(m.asks.len() != 0, "asks"@, JsonV::Array(m.asks.map_values(OrderbookEntry::writer())))
    }

    /// The members of the JSON object of the message: each field that does not hold
    /// its default, under its JSON name, in the order of the fields.
    pub open spec fn spec_entries(m: OrderbookV) -> Seq<(Seq<char>, JsonV)> {
        Self::spec_entry_market(m) + Self::spec_entry_bids(m) + Self::spec_entry_asks(m)
    }

    /// The JSON object that the protobuf JSON mapping writes for the message.
    pub open spec fn spec_to_json(m: OrderbookV) -> JsonV {
        JsonV::Object(Self::spec_entries(m))
    }

    /// [`Self::spec_to_json`] as a function value, for repeated fields.
    pub open spec fn writer() -> spec_fn(OrderbookV) -> JsonV {
        |m: OrderbookV| Self::spec_to_json(m)
    }

    fn write_market(&self, es: &mut Vec<(String, Json)>)
        ensures
            view_entries(final(es)@) == view_entries(old(es)@) + Self::spec_entry_market(self@),
    {
        if !self.market.as_str().is_empty() {
            push_entry(es, "market", string_value(&self.market));
        }
        assert(view_entries(es@) =~= view_entries(old(es)@) + Self::spec_entry_market(self@));
    }

    fn write_bids(&self, es: &mut Vec<(String, Json)>)
        ensures
            view_entries(final(es)@) == view_entries(old(es)@) + Self::spec_entry_bids(self@),
    {
        if self.bids.len() != 0 {
            push_entry(es, "bids", OrderbookEntry::list_to_json(&self.bids));
        }
        assert(view_entries(es@) =~= view_entries(old(es)@) + Self::spec_entry_bids(self@));
    }

    fn write_asks(&self, es: &mut Vec<(String, Json)>)
        ensures
            view_entries(final(es)@) == view_entries(old(es)@) + Self::spec_entry_asks(self@),
    {
        if self.asks.len() != 0 {
            push_entry(es, "asks", OrderbookEntry::list_to_json(&self.asks));
        }
        assert(view_entries(es@) =~= view_entries(old(es)@) + Self::spec_entry_asks(self@));
    }

    /// Writes the message as a JSON object; reading it back gives the message.
    pub fn to_json(&self) -> (r: Json)
        ensures
            r@ == Self::spec_to_json(self@),
            Self::spec_from_json(r@) == Ok::<OrderbookV, JsonErrorV>(self@),
    {
        let mut es: Vec<(String, Json)> = Vec::new();
        let ghost mut acc: Seq<(Seq<char>, JsonV)> = Seq::empty();
        proof {
            assert(view_entries(es@) =~= acc);
        }
        self.write_market(&mut es);
        proof {
            acc = acc + Self::spec_entry_market(self@);
        }
        self.write_bids(&mut es);
        proof {
            acc = acc + Self::spec_entry_bids(self@);
        }
        self.write_asks(&mut es);
        proof {
            acc = acc + Self::spec_entry_asks(self@);
        }
        proof {
            assert(acc =~= Self::spec_entries(self@));
            Self::lemma_json_roundtrip(self@);
        }
        Json::Object(es)
    }

    /// Reads one member of the object into the message under construction; `seen`
    /// records which fields that have no unset state were already given.
    pub open spec fn spec_step(st: (OrderbookV, Seq<bool>), key: Seq<char>, v: JsonV) -> Result<(OrderbookV, Seq<bool>), JsonErrorV> {
        let m = st.0;
        let seen = st.1;
        if key == "market"@ {
            if seen[0] {
                Err(JsonErrorV::DuplicateField("market"@))
            } else {
                match read_string(v) {
                    Ok(x) => Ok((OrderbookV { market: x, ..m }, seen.update(0, true))),
                    Err(e) => Err(e),
                }
            }
        } else if key == "bids"@ {
            if seen[1] {
                Err(JsonErrorV::DuplicateField("bids"@))
            } else {
                match read_array(v, OrderbookEntry::reader()) {
                    Ok(x) => Ok((OrderbookV { bids: x, ..m }, seen.update(1, true))),
                    Err(e) => Err(e),
                }
            }
        } else if key == "asks"@ {
            if seen[2] {
                Err(JsonErrorV::DuplicateField("asks"@))
            } else {
                match read_array(v, OrderbookEntry::reader()) {
                    Ok(x) => Ok((OrderbookV { asks: x, ..m }, seen.update(2, true))),
                    Err(e) => Err(e),
                }
            }
        } else {
            Err(JsonErrorV::UnknownField(key))
        }
    }

    /// [`Self::spec_step`] as a function value.
    pub open spec fn step_fn() -> spec_fn((OrderbookV, Seq<bool>), Seq<char>, JsonV) -> Result<(OrderbookV, Seq<bool>), JsonErrorV> {
        |st: (OrderbookV, Seq<bool>), key: Seq<char>, v: JsonV| Self::spec_step(st, key, v)
    }

    /// The state before the first member is read: the default message, no field seen.
    pub open spec fn spec_start() -> (OrderbookV, Seq<bool>) {
        (Self::spec_default(), seq![false, false, false])
    }

    /// The message that a JSON value describes: an object whose keys each name a field
    /// (by its JSON name or its protobuf name), at most once each; fields that are not
    /// given keep their default. The first member that is refused gives the error.
    pub open spec fn spec_from_json(j: JsonV) -> Result<OrderbookV, JsonErrorV> {
        match j {
            JsonV::Object(es) => match fold_entries(Self::spec_start(), es, Self::step_fn()) {
                Ok(st) => Ok(st.0),
                Err(e) => Err(e),
            },
            _ => Err(JsonErrorV::ExpectedObject),
        }
    }

    /// [`Self::spec_from_json`] as a function value, for repeated fields.
    pub open spec fn reader() -> spec_fn(JsonV) -> Result<OrderbookV, JsonErrorV> {
        |v: JsonV| Self::spec_from_json(v)
    }

    /// An optional field of this message type: `null` leaves it unset.
    pub open spec fn spec_read_opt(v: JsonV) -> Result<Option<OrderbookV>, JsonErrorV> {
        match v {
            JsonV::Null => Ok(None),
            _ => match Self::spec_from_json(v) {
                Ok(x) => Ok(Some(x)),
                Err(e) => Err(e),
            },
        }
    }

    fn step(m: Self, seen: Vec<bool>, key: &String, v: &Json) -> (r: Result<(Self, Vec<bool>), JsonError>)
        requires seen@.len() == 3,
        ensures
            match r {
                Ok((m2, seen2)) => Self::spec_step((m@, seen@), key@, v@) == Ok::<(OrderbookV, Seq<bool>), JsonErrorV>((m2@, seen2@)) && seen2@.len() == 3,
                Err(e) => Self::spec_step((m@, seen@), key@, v@) == Err::<(OrderbookV, Seq<bool>), JsonErrorV>(e@),
            },
    {
        let mut m = m;
        let mut seen = seen;
        let k = key.as_str();
        if str_eq(k, "market") {
            if seen[0] {
                return Err(JsonError::DuplicateField("market".to_string()));
            }
            match string_field(v) {
                Ok(x) => m.market = x,
                Err(e) => return Err(e),
            }
            seen.set(0, true);
        } else if str_eq(k, "bids") {
            if seen[1] {
                return Err(JsonError::DuplicateField("bids".to_string()));
            }
            match OrderbookEntry::list_from_json(v) {
                Ok(x) => m.bids = x,
                Err(e) => return Err(e),
            }
            seen.set(1, true);
        } else if str_eq(k, "asks") {
            if seen[2] {
                return Err(JsonError::DuplicateField("asks".to_string()));
            }
            match OrderbookEntry::list_from_json(v) {
                Ok(x) => m.asks = x,
                Err(e) => return Err(e),
            }
            seen.set(2, true);
        } else {
            return Err(JsonError::UnknownField(key.clone()));
        }
        Ok((m, seen))
    }

    /// Reads the message from a JSON value, as [`Self::spec_from_json`] describes.
    pub fn from_json(j: &Json) -> (r: Result<Self, JsonError>)
        ensures
            match r {
                Ok(m) => Self::spec_from_json(j@) == Ok::<OrderbookV, JsonErrorV>(m@),
                Err(e) => Self::spec_from_json(j@) == Err::<OrderbookV, JsonErrorV>(e@),
            },
    {
        let es = match j {
            Json::Object(es) => es,
            _ => return Err(JsonError::ExpectedObject),
        };
        let ghost ves = view_entries(es@);
        proof {
            lemma_view_entries_len(es@);
            assert(j@ == JsonV::Object(ves));
        }
        let mut m = Self::default();
        let mut seen: Vec<bool> = vec![false, false, false];
        let mut i: usize = 0;
        proof {
            assert(seen@ =~= Self::spec_start().1);
            assert(ves.skip(0) == ves);
        }
        while i < es.len()
            invariant
                j@ == JsonV::Object(ves),
                ves == view_entries(es@),
                ves.len() == es@.len(),
                i <= es.len(),
                seen@.len() == 3,
                fold_entries(Self::spec_start(), ves, Self::step_fn())
                    == fold_entries((m@, seen@), ves.skip(i as int), Self::step_fn()),
            decreases es.len() - i,
        {
            proof {
                lemma_view_entries_index(es@, i as int);
                lemma_fold_entries_step((m@, seen@), ves, i as int, Self::step_fn());
            }
            match Self::step(m, seen, &es[i].0, &es[i].1) {
                Ok((m2, seen2)) => {
                    m = m2;
                    seen = seen2;
                },
                Err(e) => return Err(e),
            }
            i = i + 1;
        }
        proof {
            assert(ves.skip(ves.len() as int) == Seq::<(Seq<char>, JsonV)>::empty());
            assert(fold_entries((m@, seen@), ves.skip(ves.len() as int), Self::step_fn())
                == Ok::<(OrderbookV, Seq<bool>), JsonErrorV>((m@, seen@)));
        }
        Ok(m)
    }

    /// Reads an optional field of this message type.
    pub fn opt_from_json(v: &Json) -> (r: Result<Option<Self>, JsonError>)
        ensures
            match r {
                Ok(None) => Self::spec_read_opt(v@) == Ok::<Option<OrderbookV>, JsonErrorV>(None),
                Ok(Some(x)) => Self::spec_read_opt(v@) == Ok::<Option<OrderbookV>, JsonErrorV>(Some(x@)),
                Err(e) => Self::spec_read_opt(v@) == Err::<Option<OrderbookV>, JsonErrorV>(e@),
            },
    {
        match v {
            Json::Null => Ok(None),
            _ => match Self::from_json(v) {
                Ok(x) => Ok(Some(x)),
                Err(e) => Err(e),
            },
        }
    }

    /// Reading the member that the field `market` writes sets the field.
    pub proof fn lemma_entry_market(m: OrderbookV, st: (OrderbookV, Seq<bool>))
        requires
            st.1.len() == 3,
            !st.1[0],
            st.0.market == Seq::<char>::empty(),
        ensures
            fold_entries(st, Self::spec_entry_market(m), Self::step_fn()) == Ok::<(OrderbookV, Seq<bool>), JsonErrorV>((OrderbookV { market: m.market, ..st.0 }, if m.market.len() != 0 { st.1.update(0, true) } else { st.1 })),
    {
        reveal_strlit("market");
        reveal_strlit("bids");
        reveal_strlit("asks");
        assert("market"@.len() == 6);
        assert("bids"@.len() == 4);
        assert("asks"@.len() == 4);
        assert("bids"@[0] != "asks"@[0]);
        if m.market.len() == 0 {
            assert(m.market =~= Seq::<char>::empty());
        }
        lemma_fold_entry_if(st, m.market.len() != 0, "market"@, JsonV::Str(m.market), Self::step_fn());
    }

    /// Reading the member that the field `bids` writes sets the field.
    pub proof fn lemma_entry_bids(m: OrderbookV, st: (OrderbookV, Seq<bool>))
        requires
            st.1.len() == 3,
            !st.1[1],
            st.0.bids == Seq::<OrderbookEntryV>::empty(),
        ensures
            fold_entries(st, Self::spec_entry_bids(m), Self::step_fn()) == Ok::<(OrderbookV, Seq<bool>), JsonErrorV>((OrderbookV { bids: m.bids, ..st.0 }, if m.bids.len() != 0 { st.1.update(1, true) } else { st.1 })),
    {
        reveal_strlit("market");
        reveal_strlit("bids");
        reveal_strlit("asks");
        assert("market"@.len() == 6);
        assert("bids"@.len() == 4);
        assert("asks"@.len() == 4);
        assert("bids"@[0] != "asks"@[0]);
        if m.bids.len() == 0 {
            assert(m.bids =~= Seq::<OrderbookEntryV>::empty());
        }
        OrderbookEntry::lemma_list_roundtrip(m.bids);
        lemma_fold_entry_if(st, m.bids.len() != 0, "bids"@, JsonV::Array(m.bids.map_values(OrderbookEntry::writer())), Self::step_fn());
    }

    /// Reading the member that the field `asks` writes sets the field.
    pub proof fn lemma_entry_asks(m: OrderbookV, st: (OrderbookV, Seq<bool>))
        requires
            st.1.len() == 3,
            !st.1[2],
            st.0.asks == Seq::<OrderbookEntryV>::empty(),
        ensures
            fold_entries(st, Self::spec_entry_asks(m), Self::step_fn()) == Ok::<(OrderbookV, Seq<bool>), JsonErrorV>((OrderbookV { asks: m.asks, ..st.0 }, if m.asks.len() != 0 { st.1.update(2, true) } else { st.1 })),
    {
        reveal_strlit("market");
        reveal_strlit("bids");
        reveal_strlit("asks");
        assert("market"@.len() == 6);
        assert("bids"@.len() == 4);
        assert("asks"@.len() == 4);
        assert("bids"@[0] != "asks"@[0]);
        if m.asks.len() == 0 {
            assert(m.asks =~= Seq::<OrderbookEntryV>::empty());
        }
        OrderbookEntry::lemma_list_roundtrip(m.asks);
        lemma_fold_entry_if(st, m.asks.len() != 0, "asks"@, JsonV::Array(m.asks.map_values(OrderbookEntry::writer())), Self::step_fn());
    }

    /// The JSON spelling of a key: the protobuf name of a field becomes its JSON name;
    /// a JSON name, and any key that names no field, is left as it is.
    pub open spec fn spec_json_key(key: Seq<char>) -> Seq<char> {
        if key == "market"@ {
            "market"@
        } else if key == "bids"@ {
            "bids"@
        } else if key == "asks"@ {
            "asks"@
        } else {
            key
        }
    }

    /// [`Self::spec_json_key`] as a function value.
    pub open spec fn json_key_fn() -> spec_fn(Seq<char>) -> Seq<char> {
        |key: Seq<char>| Self::spec_json_key(key)
    }

    /// One member is read alike whichever spelling its key has.
    pub proof fn lemma_step_json_key(st: (OrderbookV, Seq<bool>), key: Seq<char>, v: JsonV)
        ensures Self::spec_step(st, key, v) == Self::spec_step(st, Self::spec_json_key(key), v),
    {
        reveal_strlit("market");
        reveal_strlit("bids");
        reveal_strlit("asks");
        assert("market"@.len() == 6);
        assert("bids"@.len() == 4);
        assert("asks"@.len() == 4);
        assert("bids"@[0] != "asks"@[0]);
    }

    /// Reading an object gives the same result whichever spelling each of its keys has:
    /// two objects whose members hold the same values, in the same order, under keys of
    /// the same JSON spelling describe the same message, or are refused with the same error.
    pub proof fn lemma_key_spelling(es1: Seq<(Seq<char>, JsonV)>, es2: Seq<(Seq<char>, JsonV)>)
        requires
            es1.len() == es2.len(),
            forall|i: int| #![trigger es1[i], es2[i]] 0 <= i < es1.len() ==> es1[i].1 == es2[i].1 && Self::spec_json_key(es1[i].0) == Self::spec_json_key(es2[i].0),
        ensures Self::spec_from_json(JsonV::Object(es1)) == Self::spec_from_json(JsonV::Object(es2)),
    {
        assert forall|s: (OrderbookV, Seq<bool>), k: Seq<char>, v: JsonV|
            #![trigger Self::step_fn()(s, k, v), Self::json_key_fn()(k)]
            Self::step_fn()(s, k, v) == Self::step_fn()(s, Self::json_key_fn()(k), v) by {
            Self::lemma_step_json_key(s, k, v);
        }
        lemma_fold_same_keys(Self::spec_start(), es1, es2, Self::step_fn(), Self::json_key_fn());
    }

    /// The keys of the object that the message writes: the JSON names of the fields that
    /// do not hold their default (for a oneof, the JSON name of the member set), in the
    /// order of the fields.
    pub open spec fn spec_written_keys(m: OrderbookV) -> Seq<Seq<char>> {
        key_if(m.market.len() != 0, "market"@)
            + key_if(m.bids.len() != 0, "bids"@)
            + key_if(m.asks.len() != 0, "asks"@)
    }

    /// The object that the message writes has exactly the keys of
    /// [`Self::spec_written_keys`], in that order.
    pub proof fn lemma_written_keys(m: OrderbookV)
        ensures
            Self::spec_to_json(m) == JsonV::Object(Self::spec_entries(m)),
            entry_keys(Self::spec_entries(m)) == Self::spec_written_keys(m),
    {
        lemma_entry_keys_if(m.market.len() != 0, "market"@, JsonV::Str(m.market));
        lemma_entry_keys_append(Self::spec_entry_market(m), m.bids.len() != 0, "bids"@, JsonV::Array(m.bids.map_values(OrderbookEntry::writer())));
        lemma_entry_keys_append(Self::spec_entry_market(m) + Self::spec_entry_bids(m), m.asks.len() != 0, "asks"@, JsonV::Array(m.asks.map_values(OrderbookEntry::writer())));
    }

    /// Whether the field whose JSON name is `name` holds its default in `m`; for a member
    /// of a oneof, whether the oneof is set to another member or unset. `true` for a name
    /// that names no field.
    pub open spec fn spec_holds_default(m: OrderbookV, name: Seq<char>) -> bool {
        if name == "market"@ {
            m.market == Seq::<char>::empty()
        } else if name == "bids"@ {
            m.bids == Seq::<OrderbookEntryV>::empty()
        } else if name == "asks"@ {
            m.asks == Seq::<OrderbookEntryV>::empty()
        } else {
            true
        }
    }

    /// Whether reading `v` for the field whose JSON name is `name` leaves the field at
    /// its default: `null`, for a field that takes it (a message field, a member of a
    /// oneof); nothing, for any other field. `true` for a name that names no field.
    pub open spec fn spec_leaves_default(name: Seq<char>, v: JsonV) -> bool {
        if name == "market"@ {
            false
        } else if name == "bids"@ {
            false
        } else if name == "asks"@ {
            false
        } else {
            true
        }
    }

    /// Reading one member keeps a field at its default unless the key names the field
    /// and the value does not leave it there.
    pub proof fn lemma_step_keeps_default(st: (OrderbookV, Seq<bool>), key: Seq<char>, v: JsonV, name: Seq<char>)
        requires
            Self::spec_holds_default(st.0, name),
            Self::spec_json_key(key) == name ==> Self::spec_leaves_default(name, v),
        ensures
            Self::spec_step(st, key, v) is Ok ==> Self::spec_holds_default(Self::spec_step(st, key, v)->Ok_0.0, name),
    {
        reveal_strlit("market");
        reveal_strlit("bids");
        reveal_strlit("asks");
        assert("market"@.len() == 6);
        assert("bids"@.len() == 4);
        assert("asks"@.len() == 4);
        assert("bids"@[0] != "asks"@[0]);
        Self::lemma_step_json_key(st, key, v);
    }

    /// A field whose key appears in no member of an object, or only with values that
    /// leave it at its default (`null`, for a field that takes it), holds its default in
    /// the message that the object describes.
    pub proof fn lemma_absent_default(es: Seq<(Seq<char>, JsonV)>, name: Seq<char>)
        requires
            forall|i: int| 0 <= i < es.len() ==> (Self::spec_json_key((#[trigger] es[i]).0) == name
                ==> Self::spec_leaves_default(name, es[i].1)),
        ensures
            Self::spec_from_json(JsonV::Object(es)) is Ok
                ==> Self::spec_holds_default(Self::spec_from_json(JsonV::Object(es))->Ok_0, name),
    {
        let inv = |s: (OrderbookV, Seq<bool>)| Self::spec_holds_default(s.0, name);
        let allowed = |k: Seq<char>, v: JsonV| Self::spec_json_key(k) == name ==> Self::spec_leaves_default(name, v);
        assert forall|s: (OrderbookV, Seq<bool>), k: Seq<char>, v: JsonV| #![trigger Self::step_fn()(s, k, v)]
            inv(s) && allowed(k, v) && Self::step_fn()(s, k, v) is Ok implies inv(Self::step_fn()(s, k, v)->Ok_0) by {
            Self::lemma_step_keeps_default(s, k, v, name);
        }
        assert(inv(Self::spec_start()));
        lemma_fold_keeps(Self::spec_start(), es, Self::step_fn(), inv, allowed);
    }

    /// The field `market` alone: an object with one member under its JSON or protobuf
    /// name reads as the message with that field set and every other field at its
    /// default, and the message with only that field off its default writes that
    /// one member under the JSON name.
    pub proof fn lemma_field_market(s: Seq<char>)
        ensures
            Self::spec_from_json(JsonV::Object(seq![("market"@, JsonV::Str(s))])) == Ok::<OrderbookV, JsonErrorV>(OrderbookV { market: s, ..Self::spec_default() }),
            s.len() > 0 ==> Self::spec_to_json(OrderbookV { market: s, ..Self::spec_default() }) == JsonV::Object(seq![("market"@, JsonV::Str(s))]),
    {
        reveal_strlit("market");
        reveal_strlit("bids");
        reveal_strlit("asks");
        assert("market"@.len() == 6);
        assert("bids"@.len() == 4);
        assert("asks"@.len() == 4);
        assert("bids"@[0] != "asks"@[0]);
        lemma_fold_entry_if(Self::spec_start(), true, "market"@, JsonV::Str(s), Self::step_fn());
    }

    /// The field `bids` alone: an object with one member under its JSON or protobuf
    /// name reads as the message with that field set and every other field at its
    /// default, and the message with only that field off its default writes that
    /// one member under the JSON name.
    pub proof fn lemma_field_bids(xs: Seq<OrderbookEntryV>, items: Seq<JsonV>)
        ensures
            Self::spec_from_json(JsonV::Object(seq![("bids"@, JsonV::Array(items))])) == (match read_list(items, OrderbookEntry::reader()) { Ok(ys) => Ok::<OrderbookV, JsonErrorV>(OrderbookV { bids: ys, ..Self::spec_default() }), Err(e) => Err(e) }),
            xs.len() > 0 ==> Self::spec_to_json(OrderbookV { bids: xs, ..Self::spec_default() }) == JsonV::Object(seq![("bids"@, JsonV::Array(xs.map_values(|x: OrderbookEntryV| OrderbookEntry::spec_to_json(x))))]),
    {
        reveal_strlit("market");
        reveal_strlit("bids");
        reveal_strlit("asks");
        assert("market"@.len() == 6);
        assert("bids"@.len() == 4);
        assert("asks"@.len() == 4);
        assert("bids"@[0] != "asks"@[0]);
        assert(xs.map_values(|x: OrderbookEntryV| OrderbookEntry::spec_to_json(x)) =~= xs.map_values(OrderbookEntry::writer()));
        lemma_fold_entry_if(Self::spec_start(), true, "bids"@, JsonV::Array(items), Self::step_fn());
    }

    /// The field `asks` alone: an object with one member under its JSON or protobuf
    /// name reads as the message with that field set and every other field at its
    /// default, and the message with only that field off its default writes that
    /// one member under the JSON name.
    pub proof fn lemma_field_asks(xs: Seq<OrderbookEntryV>, items: Seq<JsonV>)
        ensures
            Self::spec_from_json(JsonV::Object(seq![("asks"@, JsonV::Array(items))])) == (match read_list(items, OrderbookEntry::reader()) { Ok(ys) => Ok::<OrderbookV, JsonErrorV>(OrderbookV { asks: ys, ..Self::spec_default() }), Err(e) => Err(e) }),
            xs.len() > 0 ==> Self::spec_to_json(OrderbookV { asks: xs, ..Self::spec_default() }) == JsonV::Object(seq![("asks"@, JsonV::Array(xs.map_values(|x: OrderbookEntryV| OrderbookEntry::spec_to_json(x))))]),
    {
        reveal_strlit("market");
        reveal_strlit("bids");
        reveal_strlit("asks");
        assert("market"@.len() == 6);
        assert("bids"@.len() == 4);
        assert("asks"@.len() == 4);
        assert("bids"@[0] != "asks"@[0]);
        assert(xs.map_values(|x: OrderbookEntryV| OrderbookEntry::spec_to_json(x)) =~= xs.map_values(OrderbookEntry::writer()));
        lemma_fold_entry_if(Self::spec_start(), true, "asks"@, JsonV::Array(items), Self::step_fn());
    }

    /// Reading back the JSON object of a message gives the message.
    pub proof fn lemma_json_roundtrip(m: OrderbookV)
        ensures Self::spec_from_json(Self::spec_to_json(m)) == Ok::<OrderbookV, JsonErrorV>(m),
    {
        let step = Self::step_fn();
        let s0 = Self::spec_start();
        let s1 = (OrderbookV { market: m.market, ..s0.0 }, if m.market.len() != 0 { s0.1.update(0, true) } else { s0.1 });
        Self::lemma_entry_market(m, s0);
        let s2 = (OrderbookV { bids: m.bids, ..s1.0 }, if m.bids.len() != 0 { s1.1.update(1, true) } else { s1.1 });
        Self::lemma_entry_bids(m, s1);
        let s3 = (OrderbookV { asks: m.asks, ..s2.0 }, if m.asks.len() != 0 { s2.1.update(2, true) } else { s2.1 });
        Self::lemma_entry_asks(m, s2);
        let p1 = Self::spec_entry_market(m);
        let p2 = p1 + Self::spec_entry_bids(m);
        lemma_fold_entries_append(s0, p1, Self::spec_entry_bids(m), step);
        let p3 = p2 + Self::spec_entry_asks(m);
        lemma_fold_entries_append(s0, p2, Self::spec_entry_asks(m), step);
        assert(s3.0 == m);
    }
}

/// The `astria.protocol.orderbook.v1.OrderbookEntry` message.
#[derive(Clone, Debug, PartialEq)]
pub struct OrderbookEntry {
    pub price: Option<Uint128>,
    pub quantity: Option<Uint128>,
    pub order_count: u32,
}

/// The mathematical content of an [`OrderbookEntry`].
pub struct OrderbookEntryV {
    pub price: Option<Seq<(Seq<char>, JsonV)>>,
    pub quantity: Option<Seq<(Seq<char>, JsonV)>>,
    pub order_count: u32,
}

impl View for OrderbookEntry {
    type V = OrderbookEntryV;

    open spec fn view(&self) -> OrderbookEntryV {
        OrderbookEntryV {
            price: opt_embedded_view(self.price),
            quantity: opt_embedded_view(self.quantity),
            order_count: self.order_count,
        }
    }
}

impl Default for OrderbookEntry {
    fn default() -> (r: Self)
        ensures r@ == OrderbookEntry::spec_default(),
    {
        let r = OrderbookEntry {
            price: None,
            quantity: None,
            order_count: 0,
        };
        r
    }
}

impl OrderbookEntry {
    /// The fully qualified protobuf name of the message.
    pub fn full_name() -> (r: String)
        ensures r@ == "astria.protocol.orderbook.v1.OrderbookEntry"@,
    {
        "astria.protocol.orderbook.v1.OrderbookEntry".to_string()
    }

    /// Every field at its default: empty strings, bytes and lists, zero, `false`, unset.
    pub open spec fn spec_default() -> OrderbookEntryV {
        OrderbookEntryV {
            price: None,
            quantity: None,
            order_count: 0,
        }
    }

    /// The view of an optional field of this message type.
    pub open spec fn view_opt(o: Option<Self>) -> Option<OrderbookEntryV> {
        match o {
            Some(x) => Some(x@),
            None => None,
        }
    }

    /// The view of a repeated field of this message type.
    pub open spec fn view_list(v: Seq<Self>) -> Seq<OrderbookEntryV> {
        v.map_values(|x: Self| x@)
    }

    /// The member that the field `price` writes: none where it holds its default.
    pub open spec fn spec_entry_price(m: OrderbookEntryV) -> Seq<(Seq<char>, JsonV)> {
        entry_if(m.price is Some, "price"@, JsonV::Object(m.price.unwrap()))
    }

    /// The member that the field `quantity` writes: none where it holds its default.
    pub open spec fn spec_entry_quantity(m: OrderbookEntryV) -> Seq<(Seq<char>, JsonV)> {
        entry_if(m.quantity is Some, "quantity"@, JsonV::Object(m.quantity.unwrap()))
    }

    /// The member that the field `order_count` writes: none where it holds its default.
    pub open spec fn spec_entry_order_count(m: OrderbookEntryV) -> Seq<(Seq<char>, JsonV)> {
        entry_if(m.order_count != 0, "orderCount"@, JsonV::Unsigned(m.order_count as u64))
    }

    /// The members of the JSON object of the message: each field that does not hold
    /// its default, under its JSON name, in the order of the fields.
    pub open spec fn spec_entries(m: OrderbookEntryV) -> Seq<(Seq<char>, JsonV)> {
        Self::spec_entry_price(m) + Self::spec_entry_quantity(m) + Self::spec_entry_order_count(m)
    }

    /// The JSON object that the protobuf JSON mapping writes for the message.
    pub open spec fn spec_to_json(m: OrderbookEntryV) -> JsonV {
        JsonV::Object(Self::spec_entries(m))
    }

    /// [`Self::spec_to_json`] as a function value, for repeated fields.
    pub open spec fn writer() -> spec_fn(OrderbookEntryV) -> JsonV {
        |m: OrderbookEntryV| Self::spec_to_json(m)
    }

    fn write_price(&self, es: &mut Vec<(String, Json)>)
        ensures
            view_entries(final(es)@) == view_entries(old(es)@) + Self::spec_entry_price(self@),
    {
        match &self.price {
            Some(x) => push_entry(es, "price", embedded_value(x)),
            None => {},
        }
        assert(view_entries(es@) =~= view_entries(old(es)@) + Self::spec_entry_price(self@));
    }

    fn write_quantity(&self, es: &mut Vec<(String, Json)>)
        ensures
            view_entries(final(es)@) == view_entries(old(es)@) + Self::spec_entry_quantity(self@),
    {
        match &self.quantity {
            Some(x) => push_entry(es, "quantity", embedded_value(x)),
            None => {},
        }
        assert(view_entries(es@) =~= view_entries(old(es)@) + Self::spec_entry_quantity(self@));
    }

    fn write_order_count(&self, es: &mut Vec<(String, Json)>)
        ensures
            view_entries(final(es)@) == view_entries(old(es)@) + Self::spec_entry_order_count(self@),
    {
        if self.order_count != 0 {
            push_entry(es, "orderCount", Json::Unsigned(self.order_count as u64));
        }
        assert(view_entries(es@) =~= view_entries(old(es)@) + Self::spec_entry_order_count(self@));
    }

    /// Writes the message as a JSON object; reading it back gives the message.
    pub fn to_json(&self) -> (r: Json)
        ensures
            r@ == Self::spec_to_json(self@),
            Self::spec_from_json(r@) == Ok::<OrderbookEntryV, JsonErrorV>(self@),
    {
        let mut es: Vec<(String, Json)> = Vec::new();
        let ghost mut acc: Seq<(Seq<char>, JsonV)> = Seq::empty();
        proof {
            assert(view_entries(es@) =~= acc);
        }
        self.write_price(&mut es);
        proof {
            acc = acc + Self::spec_entry_price(self@);
        }
        self.write_quantity(&mut es);
        proof {
            acc = acc + Self::spec_entry_quantity(self@);
        }
        self.write_order_count(&mut es);
        proof {
            acc = acc + Self::spec_entry_order_count(self@);
        }
        proof {
            assert(acc =~= Self::spec_entries(self@));
            Self::lemma_json_roundtrip(self@);
        }
        Json::Object(es)
    }

    /// Reads one member of the object into the message under construction; `seen`
    /// records which fields that have no unset state were already given.
    pub open spec fn spec_step(st: (OrderbookEntryV, Seq<bool>), key: Seq<char>, v: JsonV) -> Result<(OrderbookEntryV, Seq<bool>), JsonErrorV> {
        let m = st.0;
        let seen = st.1;
        if key == "price"@ {
            if m.price is Some {
                Err(JsonErrorV::DuplicateField("price"@))
            } else {
                match read_embedded(v) {
                    Ok(x) => Ok((OrderbookEntryV { price: x, ..m }, seen)),
                    Err(e) => Err(e),
                }
            }
        } else if key == "quantity"@ {
            if m.quantity is Some {
                Err(JsonErrorV::DuplicateField("quantity"@))
            } else {
                match read_embedded(v) {
                    Ok(x) => Ok((OrderbookEntryV { quantity: x, ..m }, seen)),
                    Err(e) => Err(e),
                }
            }
        } else if key == "orderCount"@ || key == "order_count"@ {
            if seen[0] {
                Err(JsonErrorV::DuplicateField("orderCount"@))
            } else {
                match read_u32(v) {
                    Ok(x) => Ok((OrderbookEntryV { order_count: x, ..m }, seen.update(0, true))),
                    Err(e) => Err(e),
                }
            }
        } else {
            Err(JsonErrorV::UnknownField(key))
        }
    }

    /// [`Self::spec_step`] as a function value.
    pub open spec fn step_fn() -> spec_fn((OrderbookEntryV, Seq<bool>), Seq<char>, JsonV) -> Result<(OrderbookEntryV, Seq<bool>), JsonErrorV> {
        |st: (OrderbookEntryV, Seq<bool>), key: Seq<char>, v: JsonV| Self::spec_step(st, key, v)
    }

    /// The state before the first member is read: the default message, no field seen.
    pub open spec fn spec_start() -> (OrderbookEntryV, Seq<bool>) {
        (Self::spec_default(), seq![false])
    }

    /// The message that a JSON value describes: an object whose keys each name a field
    /// (by its JSON name or its protobuf name), at most once each; fields that are not
    /// given keep their default. The first member that is refused gives the error.
    pub open spec fn spec_from_json(j: JsonV) -> Result<OrderbookEntryV, JsonErrorV> {
        match j {
            JsonV::Object(es) => match fold_entries(Self::spec_start(), es, Self::step_fn()) {
                Ok(st) => Ok(st.0),
                Err(e) => Err(e),
            },
            _ => Err(JsonErrorV::ExpectedObject),
        }
    }

    /// [`Self::spec_from_json`] as a function value, for repeated fields.
    pub open spec fn reader() -> spec_fn(JsonV) -> Result<OrderbookEntryV, JsonErrorV> {
        |v: JsonV| Self::spec_from_json(v)
    }

    /// An optional field of this message type: `null` leaves it unset.
    pub open spec fn spec_read_opt(v: JsonV) -> Result<Option<OrderbookEntryV>, JsonErrorV> {
        match v {
            JsonV::Null => Ok(None),
            _ => match Self::spec_from_json(v) {
                Ok(x) => Ok(Some(x)),
                Err(e) => Err(e),
            },
        }
    }

    fn step(m: Self, seen: Vec<bool>, key: &String, v: &Json) -> (r: Result<(Self, Vec<bool>), JsonError>)
        requires seen@.len() == 1,
        ensures
            match r {
                Ok((m2, seen2)) => Self::spec_step((m@, seen@), key@, v@) == Ok::<(OrderbookEntryV, Seq<bool>), JsonErrorV>((m2@, seen2@)) && seen2@.len() == 1,
                Err(e) => Self::spec_step((m@, seen@), key@, v@) == Err::<(OrderbookEntryV, Seq<bool>), JsonErrorV>(e@),
            },
    {
        let mut m = m;
        let mut seen = seen;
        let k = key.as_str();
        if str_eq(k, "price") {
            if m.price.is_some() {
                return Err(JsonError::DuplicateField("price".to_string()));
            }
            match embedded_field(v) {
                Ok(x) => m.price = x,
                Err(e) => return Err(e),
            }
        } else if str_eq(k, "quantity") {
            if m.quantity.is_some() {
                return Err(JsonError::DuplicateField("quantity".to_string()));
            }
            match embedded_field(v) {
                Ok(x) => m.quantity = x,
                Err(e) => return Err(e),
            }
        } else if str_eq(k, "orderCount") || str_eq(k, "order_count") {
            if seen[0] {
                return Err(JsonError::DuplicateField("orderCount".to_string()));
            }
            match u32_field(v) {
                Ok(x) => m.order_count = x,
                Err(e) => return Err(e),
            }
            seen.set(0, true);
        } else {
            return Err(JsonError::UnknownField(key.clone()));
        }
        Ok((m, seen))
    }

    /// Reads the message from a JSON value, as [`Self::spec_from_json`] describes.
    pub fn from_json(j: &Json) -> (r: Result<Self, JsonError>)
        ensures
            match r {
                Ok(m) => Self::spec_from_json(j@) == Ok::<OrderbookEntryV, JsonErrorV>(m@),
                Err(e) => Self::spec_from_json(j@) == Err::<OrderbookEntryV, JsonErrorV>(e@),
            },
    {
        let es = match j {
            Json::Object(es) => es,
            _ => return Err(JsonError::ExpectedObject),
        };
        let ghost ves = view_entries(es@);
        proof {
            lemma_view_entries_len(es@);
            assert(j@ == JsonV::Object(ves));
        }
        let mut m = Self::default();
        let mut seen: Vec<bool> = vec![false];
        let mut i: usize = 0;
        proof {
            assert(seen@ =~= Self::spec_start().1);
            assert(ves.skip(0) == ves);
        }
        while i < es.len()
            invariant
                j@ == JsonV::Object(ves),
                ves == view_entries(es@),
                ves.len() == es@.len(),
                i <= es.len(),
                seen@.len() == 1,
                fold_entries(Self::spec_start(), ves, Self::step_fn())
                    == fold_entries((m@, seen@), ves.skip(i as int), Self::step_fn()),
            decreases es.len() - i,
        {
            proof {
                lemma_view_entries_index(es@, i as int);
                lemma_fold_entries_step((m@, seen@), ves, i as int, Self::step_fn());
            }
            match Self::step(m, seen, &es[i].0, &es[i].1) {
                Ok((m2, seen2)) => {
                    m = m2;
                    seen = seen2;
                },
                Err(e) => return Err(e),
            }
            i = i + 1;
        }
        proof {
            assert(ves.skip(ves.len() as int) == Seq::<(Seq<char>, JsonV)>::empty());
            assert(fold_entries((m@, seen@), ves.skip(ves.len() as int), Self::step_fn())
                == Ok::<(OrderbookEntryV, Seq<bool>), JsonErrorV>((m@, seen@)));
        }
        Ok(m)
    }

    /// Reads an optional field of this message type.
    pub fn opt_from_json(v: &Json) -> (r: Result<Option<Self>, JsonError>)
        ensures
            match r {
                Ok(None) => Self::spec_read_opt(v@) == Ok::<Option<OrderbookEntryV>, JsonErrorV>(None),
                Ok(Some(x)) => Self::spec_read_opt(v@) == Ok::<Option<OrderbookEntryV>, JsonErrorV>(Some(x@)),
                Err(e) => Self::spec_read_opt(v@) == Err::<Option<OrderbookEntryV>, JsonErrorV>(e@),
            },
    {
        match v {
            Json::Null => Ok(None),
            _ => match Self::from_json(v) {
                Ok(x) => Ok(Some(x)),
                Err(e) => Err(e),
            },
        }
    }

    /// Reads a repeated field of this message type.
    pub fn list_from_json(v: &Json) -> (r: Result<Vec<Self>, JsonError>)
        ensures
            match r {
                Ok(xs) => read_array(v@, Self::reader()) == Ok::<Seq<OrderbookEntryV>, JsonErrorV>(Self::view_list(xs@)),
                Err(e) => read_array(v@, Self::reader()) == Err::<Seq<OrderbookEntryV>, JsonErrorV>(e@),
            },
    {
        let items = match v {
            Json::Array(items) => items,
            _ => return Err(JsonError::InvalidType),
        };
        let ghost vis = view_items(items@);
        proof {
            lemma_view_items_len(items@);
            assert(v@ == JsonV::Array(vis));
            assert(vis.take(0) == Seq::<JsonV>::empty());
        }
        let mut out: Vec<Self> = Vec::new();
        proof {
            assert(Self::view_list(out@) =~= Seq::<OrderbookEntryV>::empty());
        }
        let mut i: usize = 0;
        while i < items.len()
            invariant
                v@ == JsonV::Array(vis),
                vis == view_items(items@),
                vis.len() == items@.len(),
                i <= items.len(),
                read_list(vis.take(i as int), Self::reader()) == Ok::<Seq<OrderbookEntryV>, JsonErrorV>(Self::view_list(out@)),
            decreases items.len() - i,
        {
            proof {
                lemma_view_items_index(items@, i as int);
                lemma_read_list_next(vis, i as int, Self::reader());
            }
            match Self::from_json(&items[i]) {
                Ok(x) => {
                    let ghost before = out@;
                    out.push(x);
                    proof {
                        assert(Self::view_list(out@) =~= Self::view_list(before).push(x@));
                    }
                },
                Err(e) => {
                    proof {
                        lemma_read_list_prefix_error(vis, i + 1, Self::reader());
                    }
                    return Err(e);
                },
            }
            i = i + 1;
        }
        proof {
            assert(vis.take(i as int) == vis);
        }
        Ok(out)
    }

    /// Writes a repeated field of this message type as an array of objects.
    pub fn list_to_json(xs: &Vec<Self>) -> (r: Json)
        ensures
            r@ == JsonV::Array(Self::view_list(xs@).map_values(Self::writer())),
    {
        let mut out: Vec<Json> = Vec::new();
        let mut i: usize = 0;
        proof {
            assert(xs@.take(0) == Seq::<Self>::empty());
        }
        while i < xs.len()
            invariant
                i <= xs.len(),
                view_items(out@) == Self::view_list(xs@.take(i as int)).map_values(Self::writer()),
            decreases xs.len() - i,
        {
            let ghost before = out@;
            let item = xs[i].to_json();
            out.push(item);
            proof {
                assert(out@.drop_last() == before);
                assert(view_items(out@) == view_items(before).push(item@));
                assert(Self::view_list(xs@.take(i + 1)).map_values(Self::writer())
                    =~= Self::view_list(xs@.take(i as int)).map_values(Self::writer()).push(Self::spec_to_json(xs@[i as int]@)));
            }
            i = i + 1;
        }
        proof {
            assert(xs@.take(xs.len() as int) == xs@);
        }
        Json::Array(out)
    }

    /// Reading back a written repeated field gives its messages.
    pub proof fn lemma_list_roundtrip(xs: Seq<OrderbookEntryV>)
        ensures read_list(xs.map_values(Self::writer()), Self::reader()) == Ok::<Seq<OrderbookEntryV>, JsonErrorV>(xs),
    {
        assert forall|i: int| 0 <= i < xs.len() implies Self::reader()(Self::writer()(#[trigger] xs[i])) == Ok::<OrderbookEntryV, JsonErrorV>(xs[i]) by {
            Self::lemma_json_roundtrip(xs[i]);
        }
        lemma_read_list_roundtrip(xs, Self::writer(), Self::reader());
    }

    /// Reading the member that the field `price` writes sets the field.
    pub proof fn lemma_entry_price(m: OrderbookEntryV, st: (OrderbookEntryV, Seq<bool>))
        requires
            st.1.len() == 1,
            st.0.price is None,
        ensures
            fold_entries(st, Self::spec_entry_price(m), Self::step_fn()) == Ok::<(OrderbookEntryV, Seq<bool>), JsonErrorV>((OrderbookEntryV { price: m.price, ..st.0 }, st.1)),
    {
        reveal_strlit("price");
        reveal_strlit("quantity");
        reveal_strlit("orderCount");
        reveal_strlit("order_count");
        assert("price"@.len() == 5);
        assert("quantity"@.len() == 8);
        assert("orderCount"@.len() == 10);
        assert("order_count"@.len() == 11);
        lemma_fold_entry_if(st, m.price is Some, "price"@, JsonV::Object(m.price.unwrap()), Self::step_fn());
    }

    /// Reading the member that the field `quantity` writes sets the field.
    pub proof fn lemma_entry_quantity(m: OrderbookEntryV, st: (OrderbookEntryV, Seq<bool>))
        requires
            st.1.len() == 1,
            st.0.quantity is None,
        ensures
            fold_entries(st, Self::spec_entry_quantity(m), Self::step_fn()) == Ok::<(OrderbookEntryV, Seq<bool>), JsonErrorV>((OrderbookEntryV { quantity: m.quantity, ..st.0 }, st.1)),
    {
        reveal_strlit("price");
        reveal_strlit("quantity");
        reveal_strlit("orderCount");
        reveal_strlit("order_count");
        assert("price"@.len() == 5);
        assert("quantity"@.len() == 8);
        assert("orderCount"@.len() == 10);
        assert("order_count"@.len() == 11);
        lemma_fold_entry_if(st, m.quantity is Some, "quantity"@, JsonV::Object(m.quantity.unwrap()), Self::step_fn());
    }

    /// Reading the member that the field `order_count` writes sets the field.
    pub proof fn lemma_entry_order_count(m: OrderbookEntryV, st: (OrderbookEntryV, Seq<bool>))
        requires
            st.1.len() == 1,
            !st.1[0],
            st.0.order_count == 0,
        ensures
            fold_entries(st, Self::spec_entry_order_count(m), Self::step_fn()) == Ok::<(OrderbookEntryV, Seq<bool>), JsonErrorV>((OrderbookEntryV { order_count: m.order_count, ..st.0 }, if m.order_count != 0 { st.1.update(0, true) } else { st.1 })),
    {
        reveal_strlit("price");
        reveal_strlit("quantity");
        reveal_strlit("orderCount");
        reveal_strlit("order_count");
        assert("price"@.len() == 5);
        assert("quantity"@.len() == 8);
        assert("orderCount"@.len() == 10);
        assert("order_count"@.len() == 11);
        lemma_fold_entry_if(st, m.order_count != 0, "orderCount"@, JsonV::Unsigned(m.order_count as u64), Self::step_fn());
    }

    /// The JSON spelling of a key: the protobuf name of a field becomes its JSON name;
    /// a JSON name, and any key that names no field, is left as it is.
    pub open spec fn spec_json_key(key: Seq<char>) -> Seq<char> {
        if key == "price"@ {
            "price"@
        } else if key == "quantity"@ {
            "quantity"@
        } else if key == "orderCount"@ || key == "order_count"@ {
            "orderCount"@
        } else {
            key
        }
    }

    /// [`Self::spec_json_key`] as a function value.
    pub open spec fn json_key_fn() -> spec_fn(Seq<char>) -> Seq<char> {
        |key: Seq<char>| Self::spec_json_key(key)
    }

    /// One member is read alike whichever spelling its key has.
    pub proof fn lemma_step_json_key(st: (OrderbookEntryV, Seq<bool>), key: Seq<char>, v: JsonV)
        ensures Self::spec_step(st, key, v) == Self::spec_step(st, Self::spec_json_key(key), v),
    {
        reveal_strlit("price");
        reveal_strlit("quantity");
        reveal_strlit("orderCount");
        reveal_strlit("order_count");
        assert("price"@.len() == 5);
        assert("quantity"@.len() == 8);
        assert("orderCount"@.len() == 10);
        assert("order_count"@.len() == 11);
        if key == "order_count"@ {
            assert(Self::spec_json_key(key) == "orderCount"@);
        }
    }

    /// Reading an object gives the same result whichever spelling each of its keys has:
    /// two objects whose members hold the same values, in the same order, under keys of
    /// the same JSON spelling describe the same message, or are refused with the same error.
    pub proof fn lemma_key_spelling(es1: Seq<(Seq<char>, JsonV)>, es2: Seq<(Seq<char>, JsonV)>)
        requires
            es1.len() == es2.len(),
            forall|i: int| #![trigger es1[i], es2[i]] 0 <= i < es1.len() ==> es1[i].1 == es2[i].1 && Self::spec_json_key(es1[i].0) == Self::spec_json_key(es2[i].0),
        ensures Self::spec_from_json(JsonV::Object(es1)) == Self::spec_from_json(JsonV::Object(es2)),
    {
        assert forall|s: (OrderbookEntryV, Seq<bool>), k: Seq<char>, v: JsonV|
            #![trigger Self::step_fn()(s, k, v), Self::json_key_fn()(k)]
            Self::step_fn()(s, k, v) == Self::step_fn()(s, Self::json_key_fn()(k), v) by {
            Self::lemma_step_json_key(s, k, v);
        }
        lemma_fold_same_keys(Self::spec_start(), es1, es2, Self::step_fn(), Self::json_key_fn());
    }

    /// The keys of the object that the message writes: the JSON names of the fields that
    /// do not hold their default (for a oneof, the JSON name of the member set), in the
    /// order of the fields.
    pub open spec fn spec_written_keys(m: OrderbookEntryV) -> Seq<Seq<char>> {
        key_if(m.price is Some, "price"@)
            + key_if(m.quantity is Some, "quantity"@)
            + key_if(m.order_count != 0, "orderCount"@)
    }

    /// The object that the message writes has exactly the keys of
    /// [`Self::spec_written_keys`], in that order.
    pub proof fn lemma_written_keys(m: OrderbookEntryV)
        ensures
            Self::spec_to_json(m) == JsonV::Object(Self::spec_entries(m)),
            entry_keys(Self::spec_entries(m)) == Self::spec_written_keys(m),
    {
        lemma_entry_keys_if(m.price is Some, "price"@, JsonV::Object(m.price.unwrap()));
        lemma_entry_keys_append(Self::spec_entry_price(m), m.quantity is Some, "quantity"@, JsonV::Object(m.quantity.unwrap()));
        lemma_entry_keys_append(Self::spec_entry_price(m) + Self::spec_entry_quantity(m), m.order_count != 0, "orderCount"@, JsonV::Unsigned(m.order_count as u64));
    }

    /// Whether the field whose JSON name is `name` holds its default in `m`; for a member
    /// of a oneof, whether the oneof is set to another member or unset. `true` for a name
    /// that names no field.
    pub open spec fn spec_holds_default(m: OrderbookEntryV, name: Seq<char>) -> bool {
        if name == "price"@ {
            m.price is None
        } else if name == "quantity"@ {
            m.quantity is None
        } else if name == "orderCount"@ {
            m.order_count == 0
        } else {
            true
        }
    }

    /// Whether reading `v` for the field whose JSON name is `name` leaves the field at
    /// its default: `null`, for a field that takes it (a message field, a member of a
    /// oneof); nothing, for any other field. `true` for a name that names no field.
    pub open spec fn spec_leaves_default(name: Seq<char>, v: JsonV) -> bool {
        if name == "price"@ {
            v is Null
        } else if name == "quantity"@ {
            v is Null
        } else if name == "orderCount"@ {
            false
        } else {
            true
        }
    }

    /// Reading one member keeps a field at its default unless the key names the field
    /// and the value does not leave it there.
    pub proof fn lemma_step_keeps_default(st: (OrderbookEntryV, Seq<bool>), key: Seq<char>, v: JsonV, name: Seq<char>)
        requires
            Self::spec_holds_default(st.0, name),
            Self::spec_json_key(key) == name ==> Self::spec_leaves_default(name, v),
        ensures
            Self::spec_step(st, key, v) is Ok ==> Self::spec_holds_default(Self::spec_step(st, key, v)->Ok_0.0, name),
    {
        reveal_strlit("price");
        reveal_strlit("quantity");
        reveal_strlit("orderCount");
        reveal_strlit("order_count");
        assert("price"@.len() == 5);
        assert("quantity"@.len() == 8);
        assert("orderCount"@.len() == 10);
        assert("order_count"@.len() == 11);
        Self::lemma_step_json_key(st, key, v);
    }

    /// A field whose key appears in no member of an object, or only with values that
    /// leave it at its default (`null`, for a field that takes it), holds its default in
    /// the message that the object describes.
    pub proof fn lemma_absent_default(es: Seq<(Seq<char>, JsonV)>, name: Seq<char>)
        requires
            forall|i: int| 0 <= i < es.len() ==> (Self::spec_json_key((#[trigger] es[i]).0) == name
                ==> Self::spec_leaves_default(name, es[i].1)),
        ensures
            Self::spec_from_json(JsonV::Object(es)) is Ok
                ==> Self::spec_holds_default(Self::spec_from_json(JsonV::Object(es))->Ok_0, name),
    {
        let inv = |s: (OrderbookEntryV, Seq<bool>)| Self::spec_holds_default(s.0, name);
        let allowed = |k: Seq<char>, v: JsonV| Self::spec_json_key(k) == name ==> Self::spec_leaves_default(name, v);
        assert forall|s: (OrderbookEntryV, Seq<bool>), k: Seq<char>, v: JsonV| #![trigger Self::step_fn()(s, k, v)]
            inv(s) && allowed(k, v) && Self::step_fn()(s, k, v) is Ok implies inv(Self::step_fn()(s, k, v)->Ok_0) by {
            Self::lemma_step_keeps_default(s, k, v, name);
        }
        assert(inv(Self::spec_start()));
        lemma_fold_keeps(Self::spec_start(), es, Self::step_fn(), inv, allowed);
    }

    /// The field `price` alone: an object with one member under its JSON or protobuf
    /// name reads as the message with that field set and every other field at its
    /// default, and the message with only that field off its default writes that
    /// one member under the JSON name.
    pub proof fn lemma_field_price(es: Seq<(Seq<char>, JsonV)>)
        ensures
            Self::spec_from_json(JsonV::Object(seq![("price"@, JsonV::Object(es))])) == Ok::<OrderbookEntryV, JsonErrorV>(OrderbookEntryV { price: Some(es), ..Self::spec_default() }),
            Self::spec_from_json(JsonV::Object(seq![("price"@, JsonV::Null)])) == Ok::<OrderbookEntryV, JsonErrorV>(Self::spec_default()),
            Self::spec_to_json(OrderbookEntryV { price: Some(es), ..Self::spec_default() }) == JsonV::Object(seq![("price"@, JsonV::Object(es))]),
    {
        reveal_strlit("price");
        reveal_strlit("quantity");
        reveal_strlit("orderCount");
        reveal_strlit("order_count");
        assert("price"@.len() == 5);
        assert("quantity"@.len() == 8);
        assert("orderCount"@.len() == 10);
        assert("order_count"@.len() == 11);
        lemma_fold_entry_if(Self::spec_start(), true, "price"@, JsonV::Object(es), Self::step_fn());
        lemma_fold_entry_if(Self::spec_start(), true, "price"@, JsonV::Null, Self::step_fn());
    }

    /// The field `quantity` alone: an object with one member under its JSON or protobuf
    /// name reads as the message with that field set and every other field at its
    /// default, and the message with only that field off its default writes that
    /// one member under the JSON name.
    pub proof fn lemma_field_quantity(es: Seq<(Seq<char>, JsonV)>)
        ensures
            Self::spec_from_json(JsonV::Object(seq![("quantity"@, JsonV::Object(es))])) == Ok::<OrderbookEntryV, JsonErrorV>(OrderbookEntryV { quantity: Some(es), ..Self::spec_default() }),
            Self::spec_from_json(JsonV::Object(seq![("quantity"@, JsonV::Null)])) == Ok::<OrderbookEntryV, JsonErrorV>(Self::spec_default()),
            Self::spec_to_json(OrderbookEntryV { quantity: Some(es), ..Self::spec_default() }) == JsonV::Object(seq![("quantity"@, JsonV::Object(es))]),
    {
        reveal_strlit("price");
        reveal_strlit("quantity");
        reveal_strlit("orderCount");
        reveal_strlit("order_count");
        assert("price"@.len() == 5);
        assert("quantity"@.len() == 8);
        assert("orderCount"@.len() == 10);
        assert("order_count"@.len() == 11);
        lemma_fold_entry_if(Self::spec_start(), true, "quantity"@, JsonV::Object(es), Self::step_fn());
        lemma_fold_entry_if(Self::spec_start(), true, "quantity"@, JsonV::Null, Self::step_fn());
    }

    /// The field `order_count` alone: an object with one member under its JSON or protobuf
    /// name reads as the message with that field set and every other field at its
    /// default, and the message with only that field off its default writes that
    /// one member under the JSON name.
    pub proof fn lemma_field_order_count(v: u32)
        ensures
            Self::spec_from_json(JsonV::Object(seq![("orderCount"@, JsonV::Unsigned(v as u64))])) == Ok::<OrderbookEntryV, JsonErrorV>(OrderbookEntryV { order_count: v, ..Self::spec_default() }),
            Self::spec_from_json(JsonV::Object(seq![("order_count"@, JsonV::Unsigned(v as u64))])) == Ok::<OrderbookEntryV, JsonErrorV>(OrderbookEntryV { order_count: v, ..Self::spec_default() }),
            v != 0 ==> Self::spec_to_json(OrderbookEntryV { order_count: v, ..Self::spec_default() }) == JsonV::Object(seq![("orderCount"@, JsonV::Unsigned(v as u64))]),
    {
        reveal_strlit("price");
        reveal_strlit("quantity");
        reveal_strlit("orderCount");
        reveal_strlit("order_count");
        assert("price"@.len() == 5);
        assert("quantity"@.len() == 8);
        assert("orderCount"@.len() == 10);
        assert("order_count"@.len() == 11);
        lemma_fold_entry_if(Self::spec_start(), true, "orderCount"@, JsonV::Unsigned(v as u64), Self::step_fn());
        lemma_fold_entry_if(Self::spec_start(), true, "order_count"@, JsonV::Unsigned(v as u64), Self::step_fn());
    }

    /// Reading back the JSON object of a message gives the message.
    pub proof fn lemma_json_roundtrip(m: OrderbookEntryV)
        ensures Self::spec_from_json(Self::spec_to_json(m)) == Ok::<OrderbookEntryV, JsonErrorV>(m),
    {
        let step = Self::step_fn();
        let s0 = Self::spec_start();
        let s1 = (OrderbookEntryV { price: m.price, ..s0.0 }, s0.1);
        Self::lemma_entry_price(m, s0);
        let s2 = (OrderbookEntryV { quantity: m.quantity, ..s1.0 }, s1.1);
        Self::lemma_entry_quantity(m, s1);
        let s3 = (OrderbookEntryV { order_count: m.order_count, ..s2.0 }, if m.order_count != 0 { s2.1.update(0, true) } else { s2.1 });
        Self::lemma_entry_order_count(m, s2);
        let p1 = Self::spec_entry_price(m);
        let p2 = p1 + Self::spec_entry_quantity(m);
        lemma_fold_entries_append(s0, p1, Self::spec_entry_quantity(m), step);
        let p3 = p2 + Self::spec_entry_order_count(m);
        lemma_fold_entries_append(s0, p2, Self::spec_entry_order_count(m), step);
        assert(s3.0 == m);
    }
}
} // verus!
