use vstd::prelude::*;
use serde::Deserialize;
use crate::decimal::{
    decimal, digit_char, digits_value, is_digit, lemma_parse_i64_decimal, lemma_parse_u64_decimal,
    parse_i64, parse_u32, parse_u64, signed_decimal, unsigned_digits,
};
use crate::json::{Json, JsonError, JsonErrorV, JsonV};

verus! {

// ---------------------------------------------------------------------------
// Calls into pbjson and the standard library.
// ---------------------------------------------------------------------------

/// What pbjson's base64 reading gives for a string: the bytes, or nothing where the
/// string is neither standard nor URL-safe base64 (padding optional).
pub uninterp spec fn base64_decoded(s: Seq<char>) -> Option<Seq<u8>>;

/// What the base64 writing that pbjson re-exports (`base64::encode`, the standard
/// alphabet with padding) gives for some bytes.
pub uninterp spec fn base64_encoded(b: Seq<u8>) -> Seq<char>;

/// `pbjson::private::NumberDeserialize::<u64>` read from a JSON string: the string is
/// parsed by `u64::from_str`, which takes an optional `+` and one or more ASCII digits
/// whose value fits.
#[verifier::external_body]
fn u64_from_str(s: &str) -> (r: Option<u64>)
    ensures r == parse_u64(s@),
{
    pbjson::private::NumberDeserialize::<u64>::deserialize(
        serde::de::value::StrDeserializer::<serde::de::value::Error>::new(s),
    ).ok().map(|n| n.0)
}

/// `pbjson::private::NumberDeserialize::<u64>` read from a JSON unsigned integer: serde
/// hands the number over unchanged.
#[verifier::external_body]
fn u64_from_unsigned(n: u64) -> (r: Option<u64>)
    ensures r == Some(n),
{
    pbjson::private::NumberDeserialize::<u64>::deserialize(
        serde::de::value::U64Deserializer::<serde::de::value::Error>::new(n),
    ).ok().map(|n| n.0)
}

/// `pbjson::private::NumberDeserialize::<u64>` read from a JSON signed integer: serde
/// takes it where it is not negative.
#[verifier::external_body]
fn u64_from_signed(n: i64) -> (r: Option<u64>)
    ensures r == (if n >= 0 { Some(n as u64) } else { None::<u64> }),
{
    pbjson::private::NumberDeserialize::<u64>::deserialize(
        serde::de::value::I64Deserializer::<serde::de::value::Error>::new(n),
    ).ok().map(|n| n.0)
}

/// `pbjson::private::NumberDeserialize::<u32>` read from a JSON string, parsed by
/// `u32::from_str`.
#[verifier::external_body]
fn u32_from_str(s: &str) -> (r: Option<u32>)
    ensures r == parse_u32(s@),
{
    pbjson::private::NumberDeserialize::<u32>::deserialize(
        serde::de::value::StrDeserializer::<serde::de::value::Error>::new(s),
    ).ok().map(|n| n.0)
}

/// `pbjson::private::NumberDeserialize::<u32>` read from a JSON unsigned integer: serde
/// takes it where it fits in 32 bits.
#[verifier::external_body]
fn u32_from_unsigned(n: u64) -> (r: Option<u32>)
    ensures r == (if n <= u32::MAX { Some(n as u32) } else { None::<u32> }),
{
    pbjson::private::NumberDeserialize::<u32>::deserialize(
        serde::de::value::U64Deserializer::<serde::de::value::Error>::new(n),
    ).ok().map(|n| n.0)
}

/// `pbjson::private::NumberDeserialize::<u32>` read from a JSON signed integer: serde
/// takes it where it lies in the range of `u32`.
#[verifier::external_body]
fn u32_from_signed(n: i64) -> (r: Option<u32>)
    ensures r == (if 0 <= n <= u32::MAX { Some(n as u32) } else { None::<u32> }),
{
    pbjson::private::NumberDeserialize::<u32>::deserialize(
        serde::de::value::I64Deserializer::<serde::de::value::Error>::new(n),
    ).ok().map(|n| n.0)
}

/// `pbjson::private::NumberDeserialize::<i64>` read from a JSON string, parsed by
/// `i64::from_str`, which takes an optional `+` or `-` and one or more ASCII digits
/// whose value fits.
#[verifier::external_body]
fn i64_from_str(s: &str) -> (r: Option<i64>)
    ensures r == parse_i64(s@),
{
    pbjson::private::NumberDeserialize::<i64>::deserialize(
        serde::de::value::StrDeserializer::<serde::de::value::Error>::new(s),
    ).ok().map(|n| n.0)
}

/// `pbjson::private::NumberDeserialize::<i64>` read from a JSON unsigned integer: serde
/// takes it where it fits in 63 bits.
#[verifier::external_body]
fn i64_from_unsigned(n: u64) -> (r: Option<i64>)
    ensures r == (if n <= i64::MAX { Some(n as i64) } else { None::<i64> }),
{
    pbjson::private::NumberDeserialize::<i64>::deserialize(
        serde::de::value::U64Deserializer::<serde::de::value::Error>::new(n),
    ).ok().map(|n| n.0)
}

/// `pbjson::private::NumberDeserialize::<i64>` read from a JSON signed integer: serde
/// hands the number over unchanged.
#[verifier::external_body]
fn i64_from_signed(n: i64) -> (r: Option<i64>)
    ensures r == Some(n),
{
    pbjson::private::NumberDeserialize::<i64>::deserialize(
        serde::de::value::I64Deserializer::<serde::de::value::Error>::new(n),
    ).ok().map(|n| n.0)
}

/// `pbjson::private::BytesDeserialize::<Vec<u8>>` read from a JSON string.
#[verifier::external_body]
fn bytes_from_base64(s: &str) -> (r: Option<Vec<u8>>)
    ensures
        r is Some == base64_decoded(s@) is Some,
        r matches Some(b) ==> b@ == base64_decoded(s@).unwrap(),
{
    pbjson::private::BytesDeserialize::<Vec<u8>>::deserialize(
        serde::de::value::StrDeserializer::<serde::de::value::Error>::new(s),
    ).ok().map(|b| b.0)
}

/// `pbjson::private::base64::encode`: the standard base64 writing of some bytes, which
/// pbjson's reading gives back (as pbjson's own tests check).
#[verifier::external_body]
#[allow(deprecated)]
fn bytes_to_base64(b: &[u8]) -> (r: String)
    ensures
        r@ == base64_encoded(b@),
        base64_decoded(r@) == Some(b@),
{
    pbjson::private::base64::encode(b)
}

// ---------------------------------------------------------------------------
// Writing integers in decimal.
// ---------------------------------------------------------------------------

/// The one-character string of the decimal digit `d`.
fn digit_str(d: u64) -> (r: &'static str)
    requires d < 10,
    ensures r@ == seq![digit_char(d as nat)],
{
    proof {
        reveal_strlit("0");
        reveal_strlit("1");
        reveal_strlit("2");
        reveal_strlit("3");
        reveal_strlit("4");
        reveal_strlit("5");
        reveal_strlit("6");
        reveal_strlit("7");
        reveal_strlit("8");
        reveal_strlit("9");
    }
    if d == 0 {
        "0"
    } else if d == 1 {
        "1"
    } else if d == 2 {
        "2"
    } else if d == 3 {
        "3"
    } else if d == 4 {
        "4"
    } else if d == 5 {
        "5"
    } else if d == 6 {
        "6"
    } else if d == 7 {
        "7"
    } else if d == 8 {
        "8"
    } else {
        "9"
    }
}

/// Appends the decimal digits of `n` to `out`.
fn append_decimal(n: u64, out: &mut String)
    ensures final(out)@ == old(out)@ + decimal(n as nat),
    decreases n,
{
    if n >= 10 {
        append_decimal(n / 10, out);
    }
    let ghost mid = out@;
    out.append(digit_str(n % 10));
    proof {
        if n >= 10 {
            assert(decimal(n as nat) == decimal((n / 10) as nat).push(digit_char((n % 10) as nat)));
            assert(out@ =~= old(out)@ + decimal(n as nat));
        } else {
            assert(out@ =~= old(out)@ + decimal(n as nat));
        }
    }
}

/// The decimal writing of a `u64`, as `ToString::to_string` gives it.
fn u64_to_decimal(n: u64) -> (r: String)
    ensures r@ == decimal(n as nat),
{
    let mut out = String::new();
    append_decimal(n, &mut out);
    assert(out@ =~= decimal(n as nat));
    out
}

/// The decimal writing of an `i64`, as `ToString::to_string` gives it: a `-` before
/// the digits of a negative number.
fn i64_to_decimal(n: i64) -> (r: String)
    ensures r@ == signed_decimal(n as int),
{
    let mut out = String::new();
    if n < 0 {
        proof {
            reveal_strlit("-");
        }
        out.append("-");
        let m: u64 = if n == i64::MIN { 9223372036854775808u64 } else { (-n) as u64 };
        append_decimal(m, &mut out);
        assert(out@ =~= signed_decimal(n as int));
    } else {
        append_decimal(n as u64, &mut out);
        assert(out@ =~= signed_decimal(n as int));
    }
    out
}

// ---------------------------------------------------------------------------
// Reading field values.
// ---------------------------------------------------------------------------

/// A string field: only a JSON string is taken.
pub open spec fn read_string(v: JsonV) -> Result<Seq<char>, JsonErrorV> {
    match v {
        JsonV::Str(s) => Ok(s),
        _ => Err(JsonErrorV::InvalidType),
    }
}

/// A boolean field: only a JSON boolean is taken.
pub open spec fn read_bool(v: JsonV) -> Result<bool, JsonErrorV> {
    match v {
        JsonV::Bool(b) => Ok(b),
        _ => Err(JsonErrorV::InvalidType),
    }
}

/// A 64-bit unsigned field: a JSON integer that is not negative, or a string
/// that `u64::from_str` reads.
pub open spec fn read_u64(v: JsonV) -> Result<u64, JsonErrorV> {
    match v {
        JsonV::Unsigned(n) => Ok(n),
        JsonV::Signed(n) => if n >= 0 { Ok(n as u64) } else { Err(JsonErrorV::InvalidNumber) },
        JsonV::Str(s) => match parse_u64(s) {
            Some(n) => Ok(n),
            None => Err(JsonErrorV::InvalidNumber),
        },
        _ => Err(JsonErrorV::InvalidNumber),
    }
}

/// A 64-bit signed field: a JSON integer in range, or a string that
/// `i64::from_str` reads.
pub open spec fn read_i64(v: JsonV) -> Result<i64, JsonErrorV> {
    match v {
        JsonV::Unsigned(n) => if n <= i64::MAX { Ok(n as i64) } else { Err(JsonErrorV::InvalidNumber) },
        JsonV::Signed(n) => Ok(n),
        JsonV::Str(s) => match parse_i64(s) {
            Some(n) => Ok(n),
            None => Err(JsonErrorV::InvalidNumber),
        },
        _ => Err(JsonErrorV::InvalidNumber),
    }
}

/// A 32-bit unsigned field: a JSON integer in range, or a string that
/// `u32::from_str` reads.
pub open spec fn read_u32(v: JsonV) -> Result<u32, JsonErrorV> {
    match v {
        JsonV::Unsigned(n) => if n <= u32::MAX { Ok(n as u32) } else { Err(JsonErrorV::InvalidNumber) },
        JsonV::Signed(n) => if 0 <= n <= u32::MAX { Ok(n as u32) } else { Err(JsonErrorV::InvalidNumber) },
        JsonV::Str(s) => match parse_u32(s) {
            Some(n) => Ok(n),
            None => Err(JsonErrorV::InvalidNumber),
        },
        _ => Err(JsonErrorV::InvalidNumber),
    }
}

/// A bytes field: a JSON string in base64.
pub open spec fn read_bytes(v: JsonV) -> Result<Seq<u8>, JsonErrorV> {
    match v {
        JsonV::Str(s) => match base64_decoded(s) {
            Some(b) => Ok(b),
            None => Err(JsonErrorV::InvalidBase64),
        },
        _ => Err(JsonErrorV::InvalidType),
    }
}

/// An optional message field of a type defined outside this library: `null`
/// leaves it unset, an object sets it.
pub open spec fn read_embedded(v: JsonV) -> Result<Option<Seq<(Seq<char>, JsonV)>>, JsonErrorV> {
    match v {
        JsonV::Null => Ok(None),
        JsonV::Object(es) => Ok(Some(es)),
        _ => Err(JsonErrorV::ExpectedObject),
    }
}

/// An optional string (a string member of a oneof): `null` leaves it unset.
pub open spec fn read_string_opt(v: JsonV) -> Result<Option<Seq<char>>, JsonErrorV> {
    match v {
        JsonV::Null => Ok(None),
        JsonV::Str(s) => Ok(Some(s)),
        _ => Err(JsonErrorV::InvalidType),
    }
}

/// Reads a string field, as [`read_string`] describes.
pub fn string_field(v: &Json) -> (r: Result<String, JsonError>)
    ensures
        match r {
            Ok(s) => read_string(v@) == Ok::<Seq<char>, JsonErrorV>(s@),
            Err(e) => read_string(v@) == Err::<Seq<char>, JsonErrorV>(e@),
        },
{
    match v {
        Json::Str(s) => Ok(s.clone()),
        _ => Err(JsonError::InvalidType),
    }
}

/// Reads a boolean field, as [`read_bool`] describes.
pub fn bool_field(v: &Json) -> (r: Result<bool, JsonError>)
    ensures
        match r {
            Ok(b) => read_bool(v@) == Ok::<bool, JsonErrorV>(b),
            Err(e) => read_bool(v@) == Err::<bool, JsonErrorV>(e@),
        },
{
    match v {
        Json::Bool(b) => Ok(*b),
        _ => Err(JsonError::InvalidType),
    }
}

/// Reads a 64-bit unsigned field, as [`read_u64`] describes.
pub fn u64_field(v: &Json) -> (r: Result<u64, JsonError>)
    ensures
        match r {
            Ok(n) => read_u64(v@) == Ok::<u64, JsonErrorV>(n),
            Err(e) => read_u64(v@) == Err::<u64, JsonErrorV>(e@),
        },
{
    let got = match v {
        Json::Unsigned(n) => u64_from_unsigned(*n),
        Json::Signed(n) => u64_from_signed(*n),
        Json::Str(s) => u64_from_str(s.as_str()),
        _ => None,
    };
    match got {
        Some(n) => Ok(n),
        None => Err(JsonError::InvalidNumber),
    }
}

/// Reads a 64-bit signed field, as [`read_i64`] describes.
pub fn i64_field(v: &Json) -> (r: Result<i64, JsonError>)
    ensures
        match r {
            Ok(n) => read_i64(v@) == Ok::<i64, JsonErrorV>(n),
            Err(e) => read_i64(v@) == Err::<i64, JsonErrorV>(e@),
        },
{
    let got = match v {
        Json::Unsigned(n) => i64_from_unsigned(*n),
        Json::Signed(n) => i64_from_signed(*n),
        Json::Str(s) => i64_from_str(s.as_str()),
        _ => None,
    };
    match got {
        Some(n) => Ok(n),
        None => Err(JsonError::InvalidNumber),
    }
}

/// Reads a 32-bit unsigned field, as [`read_u32`] describes.
pub fn u32_field(v: &Json) -> (r: Result<u32, JsonError>)
    ensures
        match r {
            Ok(n) => read_u32(v@) == Ok::<u32, JsonErrorV>(n),
            Err(e) => read_u32(v@) == Err::<u32, JsonErrorV>(e@),
        },
{
    let got = match v {
        Json::Unsigned(n) => u32_from_unsigned(*n),
        Json::Signed(n) => u32_from_signed(*n),
        Json::Str(s) => u32_from_str(s.as_str()),
        _ => None,
    };
    match got {
        Some(n) => Ok(n),
        None => Err(JsonError::InvalidNumber),
    }
}

/// Reads a bytes field, as [`read_bytes`] describes.
pub fn bytes_field(v: &Json) -> (r: Result<Vec<u8>, JsonError>)
    ensures
        match r {
            Ok(b) => read_bytes(v@) == Ok::<Seq<u8>, JsonErrorV>(b@),
            Err(e) => read_bytes(v@) == Err::<Seq<u8>, JsonErrorV>(e@),
        },
{
    match v {
        Json::Str(s) => match bytes_from_base64(s.as_str()) {
            Some(b) => Ok(b),
            None => Err(JsonError::InvalidBase64),
        },
        _ => Err(JsonError::InvalidType),
    }
}

/// Reads a string member of a oneof, as [`read_string_opt`] describes.
pub fn string_opt_field(v: &Json) -> (r: Result<Option<String>, JsonError>)
    ensures
        match r {
            Ok(None) => read_string_opt(v@) == Ok::<Option<Seq<char>>, JsonErrorV>(None),
            Ok(Some(s)) => read_string_opt(v@) == Ok::<Option<Seq<char>>, JsonErrorV>(Some(s@)),
            Err(e) => read_string_opt(v@) == Err::<Option<Seq<char>>, JsonErrorV>(e@),
        },
{
    match v {
        Json::Null => Ok(None),
        Json::Str(s) => Ok(Some(s.clone())),
        _ => Err(JsonError::InvalidType),
    }
}

// ---------------------------------------------------------------------------
// Writing field values.
// ---------------------------------------------------------------------------

/// A 64-bit number is written as the string of its decimal digits.
pub fn u64_value(n: u64) -> (r: Json)
    ensures r@ == JsonV::Str(decimal(n as nat)),
{
    Json::Str(u64_to_decimal(n))
}

/// A signed 64-bit number is written as the string of its decimal writing.
pub fn i64_value(n: i64) -> (r: Json)
    ensures r@ == JsonV::Str(signed_decimal(n as int)),
{
    Json::Str(i64_to_decimal(n))
}

/// Bytes are written as a base64 string.
pub fn bytes_value(b: &Vec<u8>) -> (r: Json)
    ensures
        r@ == JsonV::Str(base64_encoded(b@)),
        read_bytes(r@) == Ok::<Seq<u8>, JsonErrorV>(b@),
{
    Json::Str(bytes_to_base64(b.as_slice()))
}

/// A string is written as itself.
pub fn string_value(s: &String) -> (r: Json)
    ensures r@ == JsonV::Str(s@),
{
    Json::Str(s.clone())
}

/// Reading back a written 64-bit number gives the number.
pub proof fn lemma_read_u64_value(n: u64)
    ensures read_u64(JsonV::Str(decimal(n as nat))) == Ok::<u64, JsonErrorV>(n),
{
    lemma_parse_u64_decimal(n);
}

/// Reading back a written signed 64-bit number gives the number.
pub proof fn lemma_read_i64_value(n: i64)
    ensures read_i64(JsonV::Str(signed_decimal(n as int))) == Ok::<i64, JsonErrorV>(n),
{
    lemma_parse_i64_decimal(n);
}

/// The forms in which the scalar fields are taken: a number field takes an integer in
/// its range or a string of its digits, a string field takes a string, a boolean field
/// a boolean, and each refuses `null`.
pub proof fn lemma_field_forms(n: u64, i: i64, b: bool, s: Seq<char>)
    ensures
        read_u64(JsonV::Unsigned(n)) == Ok::<u64, JsonErrorV>(n),
        read_u64(JsonV::Signed(i)) is Ok <==> i >= 0,
        i >= 0 ==> read_u64(JsonV::Signed(i)) == Ok::<u64, JsonErrorV>(i as u64),
        read_u64(JsonV::Bool(b)) is Err,
        read_u64(JsonV::Null) is Err,
        read_u32(JsonV::Unsigned(n)) is Ok <==> n <= u32::MAX,
        n <= u32::MAX ==> read_u32(JsonV::Unsigned(n)) == Ok::<u32, JsonErrorV>(n as u32),
        read_u32(JsonV::Null) is Err,
        read_i64(JsonV::Signed(i)) == Ok::<i64, JsonErrorV>(i),
        read_i64(JsonV::Unsigned(n)) is Ok <==> n <= i64::MAX,
        read_i64(JsonV::Null) is Err,
        read_string(JsonV::Str(s)) == Ok::<Seq<char>, JsonErrorV>(s),
        read_string(JsonV::Null) is Err,
        read_string(JsonV::Bool(b)) is Err,
        read_bool(JsonV::Bool(b)) == Ok::<bool, JsonErrorV>(b),
        read_bool(JsonV::Null) is Err,
        read_bool(JsonV::Str(s)) is Err,
        parse_u64(s) matches Some(v) ==> s.len() > 0 && (s[0] == '+' || is_digit(s[0]))
            && digits_value(unsigned_digits(s)) == v,
{
}

} // verus!
