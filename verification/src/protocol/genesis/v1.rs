//! The genesis state of the sequencer application, version one.
//!
//! Each message is read from and written to JSON as the protobuf JSON mapping
//! does it (`astria.protocol.genesis.v1`).

use vstd::prelude::*;
use crate::embedded::{embedded_field, embedded_value, opt_embedded_view};
use crate::fields::{bool_field, read_bool, read_embedded, read_string, string_field, string_value};
use crate::json::{
    entry_if, fold_entries, lemma_fold_entries_append, lemma_fold_entries_step, lemma_fold_entry_if,
    lemma_view_entries_index, lemma_view_entries_len, lemma_view_items_index, lemma_view_items_len,
    push_entry, str_eq, view_entries, view_items, Json, JsonError, JsonErrorV, JsonV, entry_keys,
    key_if, lemma_entry_keys_if, lemma_entry_keys_append, lemma_fold_same_keys, lemma_fold_keeps,
};
use crate::lists::{
    embedded_reader, embedded_writer, embeddeds_field, embeddeds_value, embeddeds_view,
    lemma_read_list_next, lemma_read_list_prefix_error, lemma_read_list_roundtrip, read_array,
    read_list, string_reader, string_writer, strings_field, strings_value, strings_view,
};
use crate::foreign::{
    Address, BridgeLockFeeComponents, BridgeSudoChangeFeeComponents, BridgeTransferFeeComponents,
    BridgeUnlockFeeComponents, FeeAssetChangeFeeComponents, FeeChangeFeeComponents,
    IbcRelayFeeComponents, IbcRelayerChangeFeeComponents, IbcSudoChangeFeeComponents,
    Ics20WithdrawalFeeComponents, InitBridgeAccountFeeComponents, RollupDataSubmissionFeeComponents,
    SudoAddressChangeFeeComponents, TransferFeeComponents, Uint128, ValidatorUpdateFeeComponents,
};

verus! {

/// The `astria.protocol.genesis.v1.Account` message.
#[derive(Clone, Debug, PartialEq)]
pub struct Account {
    pub address: Option<Address>,
    pub balance: Option<Uint128>,
}

/// The mathematical content of an [`Account`].
pub struct AccountV {
    pub address: Option<Seq<(Seq<char>, JsonV)>>,
    pub balance: Option<Seq<(Seq<char>, JsonV)>>,
}

impl View for Account {
    type V = AccountV;

    open spec fn view(&self) -> AccountV {
        AccountV {
            address: opt_embedded_view(self.address),
            balance: opt_embedded_view(self.balance),
        }
    }
}

impl Default for Account {
    fn default() -> (r: Self)
        ensures r@ == Account::spec_default(),
    {
        let r = Account {
            address: None,
            balance: None,
        };
        r
    }
}

impl Account {
    /// The fully qualified protobuf name of the message.
    pub fn full_name() -> (r: String)
        ensures r@ == "astria.protocol.genesis.v1.Account"@,
    {
        "astria.protocol.genesis.v1.Account".to_string()
    }

    /// Every field at its default: empty strings, bytes and lists, zero, `false`, unset.
    pub open spec fn spec_default() -> AccountV {
        AccountV {
            address: None,
            balance: None,
        }
    }

    /// The view of an optional field of this message type.
    pub open spec fn view_opt(o: Option<Self>) -> Option<AccountV> {
        match o {
            Some(x) => Some(x@),
            None => None,
        }
    }

    /// The view of a repeated field of this message type.
    pub open spec fn view_list(v: Seq<Self>) -> Seq<AccountV> {
        v.map_values(|x: Self| x@)
    }

    /// The member that the field `address` writes: none where it holds its default.
    pub open spec fn spec_entry_address(m: AccountV) -> Seq<(Seq<char>, JsonV)> {
        entry_if(m.address is Some, "address"@, JsonV::Object(m.address.unwrap()))
    }

    /// The member that the field `balance` writes: none where it holds its default.
    pub open spec fn spec_entry_balance(m: AccountV) -> Seq<(Seq<char>, JsonV)> {
        entry_if(m.balance is Some, "balance"@, JsonV::Object(m.balance.unwrap()))
    }

    /// The members of the JSON object of the message: each field that does not hold
    /// its default, under its JSON name, in the order of the fields.
    pub open spec fn spec_entries(m: AccountV) -> Seq<(Seq<char>, JsonV)> {
        Self::spec_entry_address(m) + Self::spec_entry_balance(m)
    }

    /// The JSON object that the protobuf JSON mapping writes for the message.
    pub open spec fn spec_to_json(m: AccountV) -> JsonV {
        JsonV::Object(Self::spec_entries(m))
    }

    /// [`Self::spec_to_json`] as a function value, for repeated fields.
    pub open spec fn writer() -> spec_fn(AccountV) -> JsonV {
        |m: AccountV| Self::spec_to_json(m)
    }

    fn write_address(&self, es: &mut Vec<(String, Json)>)
        ensures
            view_entries(final(es)@) == view_entries(old(es)@) + Self::spec_entry_address(self@),
    {
        match &self.address {
            Some(x) => push_entry(es, "address", embedded_value(x)),
            None => {},
        }
        assert(view_entries(es@) =~= view_entries(old(es)@) + Self::spec_entry_address(self@));
    }

    fn write_balance(&self, es: &mut Vec<(String, Json)>)
        ensures
            view_entries(final(es)@) == view_entries(old(es)@) + Self::spec_entry_balance(self@),
    {
        match &self.balance {
            Some(x) => push_entry(es, "balance", embedded_value(x)),
            None => {},
        }
        assert(view_entries(es@) =~= view_entries(old(es)@) + Self::spec_entry_balance(self@));
    }

    /// Writes the message as a JSON object; reading it back gives the message.
    pub fn to_json(&self) -> (r: Json)
        ensures
            r@ == Self::spec_to_json(self@),
            Self::spec_from_json(r@) == Ok::<AccountV, JsonErrorV>(self@),
    {
        let mut es: Vec<(String, Json)> = Vec::new();
        let ghost mut acc: Seq<(Seq<char>, JsonV)> = Seq::empty();
        proof {
            assert(view_entries(es@) =~= acc);
        }
        self.write_address(&mut es);
        proof {
            acc = acc + Self::spec_entry_address(self@);
        }
        self.write_balance(&mut es);
        proof {
            acc = acc + Self::spec_entry_balance(self@);
        }
        proof {
            assert(acc =~= Self::spec_entries(self@));
            Self::lemma_json_roundtrip(self@);
        }
        Json::Object(es)
    }

    /// Reads one member of the object into the message under construction; `seen`
    /// records which fields that have no unset state were already given.
    pub open spec fn spec_step(st: (AccountV, Seq<bool>), key: Seq<char>, v: JsonV) -> Result<(AccountV, Seq<bool>), JsonErrorV> {
        let m = st.0;
        let seen = st.1;
        if key == "address"@ {
            if m.address is Some {
                Err(JsonErrorV::DuplicateField("address"@))
            } else {
                match read_embedded(v) {
                    Ok(x) => Ok((AccountV { address: x, ..m }, seen)),
                    Err(e) => Err(e),
                }
            }
        } else if key == "balance"@ {
            if m.balance is Some {
                Err(JsonErrorV::DuplicateField("balance"@))
            } else {
                match read_embedded(v) {
                    Ok(x) => Ok((AccountV { balance: x, ..m }, seen)),
                    Err(e) => Err(e),
                }
            }
        } else {
            Err(JsonErrorV::UnknownField(key))
        }
    }

    /// [`Self::spec_step`] as a function value.
    pub open spec fn step_fn() -> spec_fn((AccountV, Seq<bool>), Seq<char>, JsonV) -> Result<(AccountV, Seq<bool>), JsonErrorV> {
        |st: (AccountV, Seq<bool>), key: Seq<char>, v: JsonV| Self::spec_step(st, key, v)
    }

    /// The state before the first member is read: the default message, no field seen.
    pub open spec fn spec_start() -> (AccountV, Seq<bool>) {
        (Self::spec_default(), Seq::<bool>::empty())
    }

    /// The message that a JSON value describes: an object whose keys each name a field
    /// (by its JSON name or its protobuf name), at most once each; fields that are not
    /// given keep their default. The first member that is refused gives the error.
    pub open spec fn spec_from_json(j: JsonV) -> Result<AccountV, JsonErrorV> {
        match j {
            JsonV::Object(es) => match fold_entries(Self::spec_start(), es, Self::step_fn()) {
                Ok(st) => Ok(st.0),
                Err(e) => Err(e),
            },
            _ => Err(JsonErrorV::ExpectedObject),
        }
    }

    /// [`Self::spec_from_json`] as a function value, for repeated fields.
    pub open spec fn reader() -> spec_fn(JsonV) -> Result<AccountV, JsonErrorV> {
        |v: JsonV| Self::spec_from_json(v)
    }

    /// An optional field of this message type: `null` leaves it unset.
    pub open spec fn spec_read_opt(v: JsonV) -> Result<Option<AccountV>, JsonErrorV> {
        match v {
            JsonV::Null => Ok(None),
            _ => match Self::spec_from_json(v) {
                Ok(x) => Ok(Some(x)),
                Err(e) => Err(e),
            },
        }
    }

    fn step(m: Self, seen: Vec<bool>, key: &String, v: &Json) -> (r: Result<(Self, Vec<bool>), JsonError>)
        requires seen@.len() == 0,
        ensures
            match r {
                Ok((m2, seen2)) => Self::spec_step((m@, seen@), key@, v@) == Ok::<(AccountV, Seq<bool>), JsonErrorV>((m2@, seen2@)) && seen2@.len() == 0,
                Err(e) => Self::spec_step((m@, seen@), key@, v@) == Err::<(AccountV, Seq<bool>), JsonErrorV>(e@),
            },
    {
        let mut m = m;
        let mut seen = seen;
        let k = key.as_str();
        if str_eq(k, "address") {
            if m.address.is_some() {
                return Err(JsonError::DuplicateField("address".to_string()));
            }
            match embedded_field(v) {
                Ok(x) => m.address = x,
                Err(e) => return Err(e),
            }
        } else if str_eq(k, "balance") {
            if m.balance.is_some() {
                return Err(JsonError::DuplicateField("balance".to_string()));
            }
            match embedded_field(v) {
                Ok(x) => m.balance = x,
                Err(e) => return Err(e),
            }
        } else {
            return Err(JsonError::UnknownField(key.clone()));
        }
        Ok((m, seen))
    }

    /// Reads the message from a JSON value, as [`Self::spec_from_json`] describes.
    pub fn from_json(j: &Json) -> (r: Result<Self, JsonError>)
        ensures
            match r {
                Ok(m) => Self::spec_from_json(j@) == Ok::<AccountV, JsonErrorV>(m@),
                Err(e) => Self::spec_from_json(j@) == Err::<AccountV, JsonErrorV>(e@),
            },
    {
        let es = match j {
            Json::Object(es) => es,
            _ => return Err(JsonError::ExpectedObject),
        };
        let ghost ves = view_entries(es@);
        proof {
            lemma_view_entries_len(es@);
            assert(j@ == JsonV::Object(ves));
        }
        let mut m = Self::default();
        let mut seen: Vec<bool> = Vec::new();
        let mut i: usize = 0;
        proof {
            assert(seen@ =~= Self::spec_start().1);
            assert(ves.skip(0) == ves);
        }
        while i < es.len()
            invariant
                j@ == JsonV::Object(ves),
                ves == view_entries(es@),
                ves.len() == es@.len(),
                i <= es.len(),
                seen@.len() == 0,
                fold_entries(Self::spec_start(), ves, Self::step_fn())
                    == fold_entries((m@, seen@), ves.skip(i as int), Self::step_fn()),
            decreases es.len() - i,
        {
            proof {
                lemma_view_entries_index(es@, i as int);
                lemma_fold_entries_step((m@, seen@), ves, i as int, Self::step_fn());
            }
            match Self::step(m, seen, &es[i].0, &es[i].1) {
                Ok((m2, seen2)) => {
                    m = m2;
                    seen = seen2;
                },
                Err(e) => return Err(e),
            }
            i = i + 1;
        }
        proof {
            assert(ves.skip(ves.len() as int) == Seq::<(Seq<char>, JsonV)>::empty());
            assert(fold_entries((m@, seen@), ves.skip(ves.len() as int), Self::step_fn())
                == Ok::<(AccountV, Seq<bool>), JsonErrorV>((m@, seen@)));
        }
        Ok(m)
    }

    /// Reads an optional field of this message type.
    pub fn opt_from_json(v: &Json) -> (r: Result<Option<Self>, JsonError>)
        ensures
            match r {
                Ok(None) => Self::spec_read_opt(v@) == Ok::<Option<AccountV>, JsonErrorV>(None),
                Ok(Some(x)) => Self::spec_read_opt(v@) == Ok::<Option<AccountV>, JsonErrorV>(Some(x@)),
                Err(e) => Self::spec_read_opt(v@) == Err::<Option<AccountV>, JsonErrorV>(e@),
            },
    {
        match v {
            Json::Null => Ok(None),
            _ => match Self::from_json(v) {
                Ok(x) => Ok(Some(x)),
                Err(e) => Err(e),
            },
        }
    }

    /// Reads a repeated field of this message type.
    pub fn list_from_json(v: &Json) -> (r: Result<Vec<Self>, JsonError>)
        ensures
            match r {
                Ok(xs) => read_array(v@, Self::reader()) == Ok::<Seq<AccountV>, JsonErrorV>(Self::view_list(xs@)),
                Err(e) => read_array(v@, Self::reader()) == Err::<Seq<AccountV>, JsonErrorV>(e@),
            },
    {
        let items = match v {
            Json::Array(items) => items,
            _ => return Err(JsonError::InvalidType),
        };
        let ghost vis = view_items(items@);
        proof {
            lemma_view_items_len(items@);
            assert(v@ == JsonV::Array(vis));
            assert(vis.take(0) == Seq::<JsonV>::empty());
        }
        let mut out: Vec<Self> = Vec::new();
        proof {
            assert(Self::view_list(out@) =~= Seq::<AccountV>::empty());
        }
        let mut i: usize = 0;
        while i < items.len()
            invariant
                v@ == JsonV::Array(vis),
                vis == view_items(items@),
                vis.len() == items@.len(),
                i <= items.len(),
                read_list(vis.take(i as int), Self::reader()) == Ok::<Seq<AccountV>, JsonErrorV>(Self::view_list(out@)),
            decreases items.len() - i,
        {
            proof {
                lemma_view_items_index(items@, i as int);
                lemma_read_list_next(vis, i as int, Self::reader());
            }
            match Self::from_json(&items[i]) {
                Ok(x) => {
                    let ghost before = out@;
                    out.push(x);
                    proof {
                        assert(Self::view_list(out@) =~= Self::view_list(before).push(x@));
                    }
                },
                Err(e) => {
                    proof {
                        lemma_read_list_prefix_error(vis, i + 1, Self::reader());
                    }
                    return Err(e);
                },
            }
            i = i + 1;
        }
        proof {
            assert(vis.take(i as int) == vis);
        }
        Ok(out)
    }

    /// Writes a repeated field of this message type as an array of objects.
    pub fn list_to_json(xs: &Vec<Self>) -> (r: Json)
        ensures
            r@ == JsonV::Array(Self::view_list(xs@).map_values(Self::writer())),
    {
        let mut out: Vec<Json> = Vec::new();
        let mut i: usize = 0;
        proof {
            assert(xs@.take(0) == Seq::<Self>::empty());
        }
        while i < xs.len()
            invariant
                i <= xs.len(),
                view_items(out@) == Self::view_list(xs@.take(i as int)).map_values(Self::writer()),
            decreases xs.len() - i,
        {
            let ghost before = out@;
            let item = xs[i].to_json();
            out.push(item);
            proof {
                assert(out@.drop_last() == before);
                assert(view_items(out@) == view_items(before).push(item@));
                assert(Self::view_list(xs@.take(i + 1)).map_values(Self::writer())
                    =~= Self::view_list(xs@.take(i as int)).map_values(Self::writer()).push(Self::spec_to_json(xs@[i as int]@)));
            }
            i = i + 1;
        }
        proof {
            assert(xs@.take(xs.len() as int) == xs@);
        }
        Json::Array(out)
    }

    /// Reading back a written repeated field gives its messages.
    pub proof fn lemma_list_roundtrip(xs: Seq<AccountV>)
        ensures read_list(xs.map_values(Self::writer()), Self::reader()) == Ok::<Seq<AccountV>, JsonErrorV>(xs),
    {
        assert forall|i: int| 0 <= i < xs.len() implies Self::reader()(Self::writer()(#[trigger] xs[i])) == Ok::<AccountV, JsonErrorV>(xs[i]) by {
            Self::lemma_json_roundtrip(xs[i]);
        }
        lemma_read_list_roundtrip(xs, Self::writer(), Self::reader());
    }

    /// Reading the member that the field `address` writes sets the field.
    pub proof fn lemma_entry_address(m: AccountV, st: (AccountV, Seq<bool>))
        requires
            st.1.len() == 0,
            st.0.address is None,
        ensures
            fold_entries(st, Self::spec_entry_address(m), Self::step_fn()) == Ok::<(AccountV, Seq<bool>), JsonErrorV>((AccountV { address: m.address, ..st.0 }, st.1)),
    {
        reveal_strlit("address");
        reveal_strlit("balance");
        assert("address"@.len() == 7);
        assert("balance"@.len() == 7);
        assert("address"@[0] != "balance"@[0]);
        lemma_fold_entry_if(st, m.address is Some, "address"@, JsonV::Object(m.address.unwrap()), Self::step_fn());
    }

    /// Reading the member that the field `balance` writes sets the field.
    pub proof fn lemma_entry_balance(m: AccountV, st: (AccountV, Seq<bool>))
        requires
            st.1.len() == 0,
            st.0.balance is None,
        ensures
            fold_entries(st, Self::spec_entry_balance(m), Self::step_fn()) == Ok::<(AccountV, Seq<bool>), JsonErrorV>((AccountV { balance: m.balance, ..st.0 }, st.1)),
    {
        reveal_strlit("address");
        reveal_strlit("balance");
        assert("address"@.len() == 7);
        assert("balance"@.len() == 7);
        assert("address"@[0] != "balance"@[0]);
        lemma_fold_entry_if(st, m.balance is Some, "balance"@, JsonV::Object(m.balance.unwrap()), Self::step_fn());
    }

    /// The JSON spelling of a key: the protobuf name of a field becomes its JSON name;
    /// a JSON name, and any key that names no field, is left as it is.
    pub open spec fn spec_json_key(key: Seq<char>) -> Seq<char> {
        if key == "address"@ {
            "address"@
        } else if key == "balance"@ {
            "balance"@
        } else {
            key
        }
    }

    /// [`Self::spec_json_key`] as a function value.
    pub open spec fn json_key_fn() -> spec_fn(Seq<char>) -> Seq<char> {
        |key: Seq<char>| Self::spec_json_key(key)
    }

    /// One member is read alike whichever spelling its key has.
    pub proof fn lemma_step_json_key(st: (AccountV, Seq<bool>), key: Seq<char>, v: JsonV)
        ensures Self::spec_step(st, key, v) == Self::spec_step(st, Self::spec_json_key(key), v),
    {
        reveal_strlit("address");
        reveal_strlit("balance");
        assert("address"@.len() == 7);
        assert("balance"@.len() == 7);
        assert("address"@[0] != "balance"@[0]);
    }

    /// Reading an object gives the same result whichever spelling each of its keys has:
    /// two objects whose members hold the same values, in the same order, under keys of
    /// the same JSON spelling describe the same message, or are refused with the same error.
    pub proof fn lemma_key_spelling(es1: Seq<(Seq<char>, JsonV)>, es2: Seq<(Seq<char>, JsonV)>)
        requires
            es1.len() == es2.len(),
            forall|i: int| #![trigger es1[i], es2[i]] 0 <= i < es1.len() ==> es1[i].1 == es2[i].1 && Self::spec_json_key(es1[i].0) == Self::spec_json_key(es2[i].0),
        ensures Self::spec_from_json(JsonV::Object(es1)) == Self::spec_from_json(JsonV::Object(es2)),
    {
        assert forall|s: (AccountV, Seq<bool>), k: Seq<char>, v: JsonV|
            #![trigger Self::step_fn()(s, k, v), Self::json_key_fn()(k)]
            Self::step_fn()(s, k, v) == Self::step_fn()(s, Self::json_key_fn()(k), v) by {
            Self::lemma_step_json_key(s, k, v);
        }
        lemma_fold_same_keys(Self::spec_start(), es1, es2, Self::step_fn(), Self::json_key_fn());
    }

    /// The keys of the object that the message writes: the JSON names of the fields that
    /// do not hold their default (for a oneof, the JSON name of the member set), in the
    /// order of the fields.
    pub open spec fn spec_written_keys(m: AccountV) -> Seq<Seq<char>> {
        key_if(m.address is Some, "address"@)
            + key_if(m.balance is Some, "balance"@)
    }

    /// The object that the message writes has exactly the keys of
    /// [`Self::spec_written_keys`], in that order.
    pub proof fn lemma_written_keys(m: AccountV)
        ensures
            Self::spec_to_json(m) == JsonV::Object(Self::spec_entries(m)),
            entry_keys(Self::spec_entries(m)) == Self::spec_written_keys(m),
    {
        lemma_entry_keys_if(m.address is Some, "address"@, JsonV::Object(m.address.unwrap()));
        lemma_entry_keys_append(Self::spec_entry_address(m), m.balance is Some, "balance"@, JsonV::Object(m.balance.unwrap()));
    }

    /// Whether the field whose JSON name is `name` holds its default in `m`; for a member
    /// of a oneof, whether the oneof is set to another member or unset. `true` for a name
    /// that names no field.
    pub open spec fn spec_holds_default(m: AccountV, name: Seq<char>) -> bool {
        if name == "address"@ {
            m.address is None
        } else if name == "balance"@ {
            m.balance is None
        } else {
            true
        }
    }

    /// Whether reading `v` for the field whose JSON name is `name` leaves the field at
    /// its default: `null`, for a field that takes it (a message field, a member of a
    /// oneof); nothing, for any other field. `true` for a name that names no field.
    pub open spec fn spec_leaves_default(name: Seq<char>, v: JsonV) -> bool {
        if name == "address"@ {
            v is Null
        } else if name == "balance"@ {
            v is Null
        } else {
            true
        }
    }

    /// Reading one member keeps a field at its default unless the key names the field
    /// and the value does not leave it there.
    pub proof fn lemma_step_keeps_default(st: (AccountV, Seq<bool>), key: Seq<char>, v: JsonV, name: Seq<char>)
        requires
            Self::spec_holds_default(st.0, name),
            Self::spec_json_key(key) == name ==> Self::spec_leaves_default(name, v),
        ensures
            Self::spec_step(st, key, v) is Ok ==> Self::spec_holds_default(Self::spec_step(st, key, v)->Ok_0.0, name),
    {
        reveal_strlit("address");
        reveal_strlit("balance");
        assert("address"@.len() == 7);
        assert("balance"@.len() == 7);
        assert("address"@[0] != "balance"@[0]);
        Self::lemma_step_json_key(st, key, v);
    }

    /// A field whose key appears in no member of an object, or only with values that
    /// leave it at its default (`null`, for a field that takes it), holds its default in
    /// the message that the object describes.
    pub proof fn lemma_absent_default(es: Seq<(Seq<char>, JsonV)>, name: Seq<char>)
        requires
            forall|i: int| 0 <= i < es.len() ==> (Self::spec_json_key((#[trigger] es[i]).0) == name
                ==> Self::spec_leaves_default(name, es[i].1)),
        ensures
            Self::spec_from_json(JsonV::Object(es)) is Ok
                ==> Self::spec_holds_default(Self::spec_from_json(JsonV::Object(es))->Ok_0, name),
    {
        let inv = |s: (AccountV, Seq<bool>)| Self::spec_holds_default(s.0, name);
        let allowed = |k: Seq<char>, v: JsonV| Self::spec_json_key(k) == name ==> Self::spec_leaves_default(name, v);
        assert forall|s: (AccountV, Seq<bool>), k: Seq<char>, v: JsonV| #![trigger Self::step_fn()(s, k, v)]
            inv(s) && allowed(k, v) && Self::step_fn()(s, k, v) is Ok implies inv(Self::step_fn()(s, k, v)->Ok_0) by {
            Self::lemma_step_keeps_default(s, k, v, name);
        }
        assert(inv(Self::spec_start()));
        lemma_fold_keeps(Self::spec_start(), es, Self::step_fn(), inv, allowed);
    }

    /// The field `address` alone: an object with one member under its JSON or protobuf
    /// name reads as the message with that field set and every other field at its
    /// default, and the message with only that field off its default writes that
    /// one member under the JSON name.
    pub proof fn lemma_field_address(es: Seq<(Seq<char>, JsonV)>)
        ensures
            Self::spec_from_json(JsonV::Object(seq![("address"@, JsonV::Object(es))])) == Ok::<AccountV, JsonErrorV>(AccountV { address: Some(es), ..Self::spec_default() }),
            Self::spec_from_json(JsonV::Object(seq![("address"@, JsonV::Null)])) == Ok::<AccountV, JsonErrorV>(Self::spec_default()),
            Self::spec_to_json(AccountV { address: Some(es), ..Self::spec_default() }) == JsonV::Object(seq![("address"@, JsonV::Object(es))]),
    {
        reveal_strlit("address");
        reveal_strlit("balance");
        assert("address"@.len() == 7);
        assert("balance"@.len() == 7);
        assert("address"@[0] != "balance"@[0]);
        lemma_fold_entry_if(Self::spec_start(), true, "address"@, JsonV::Object(es), Self::step_fn());
        lemma_fold_entry_if(Self::spec_start(), true, "address"@, JsonV::Null, Self::step_fn());
    }

    /// The field `balance` alone: an object with one member under its JSON or protobuf
    /// name reads as the message with that field set and every other field at its
    /// default, and the message with only that field off its default writes that
    /// one member under the JSON name.
    pub proof fn lemma_field_balance(es: Seq<(Seq<char>, JsonV)>)
        ensures
            Self::spec_from_json(JsonV::Object(seq![("balance"@, JsonV::Object(es))])) == Ok::<AccountV, JsonErrorV>(AccountV { balance: Some(es), ..Self::spec_default() }),
            Self::spec_from_json(JsonV::Object(seq![("balance"@, JsonV::Null)])) == Ok::<AccountV, JsonErrorV>(Self::spec_default()),
            Self::spec_to_json(AccountV { balance: Some(es), ..Self::spec_default() }) == JsonV::Object(seq![("balance"@, JsonV::Object(es))]),
    {
        reveal_strlit("address");
        reveal_strlit("balance");
        assert("address"@.len() == 7);
        assert("balance"@.len() == 7);
        assert("address"@[0] != "balance"@[0]);
        lemma_fold_entry_if(Self::spec_start(), true, "balance"@, JsonV::Object(es), Self::step_fn());
        lemma_fold_entry_if(Self::spec_start(), true, "balance"@, JsonV::Null, Self::step_fn());
    }

    /// Reading back the JSON object of a message gives the message.
    pub proof fn lemma_json_roundtrip(m: AccountV)
        ensures Self::spec_from_json(Self::spec_to_json(m)) == Ok::<AccountV, JsonErrorV>(m),
    {
        let step = Self::step_fn();
        let s0 = Self::spec_start();
        let s1 = (AccountV { address: m.address, ..s0.0 }, s0.1);
        Self::lemma_entry_address(m, s0);
        let s2 = (AccountV { balance: m.balance, ..s1.0 }, s1.1);
        Self::lemma_entry_balance(m, s1);
        let p1 = Self::spec_entry_address(m);
        let p2 = p1 + Self::spec_entry_balance(m);
        lemma_fold_entries_append(s0, p1, Self::spec_entry_balance(m), step);
        assert(s2.0 == m);
    }
}

/// The `astria.protocol.genesis.v1.AddressPrefixes` message.
#[derive(Clone, Debug, PartialEq)]
pub struct AddressPrefixes {
    pub base: String,
    pub ibc_compat: String,
}

/// The mathematical content of an [`AddressPrefixes`].
pub struct AddressPrefixesV {
    pub base: Seq<char>,
    pub ibc_compat: Seq<char>,
}

impl View for AddressPrefixes {
    type V = AddressPrefixesV;

    open spec fn view(&self) -> AddressPrefixesV {
        AddressPrefixesV {
            base: self.base@,
            ibc_compat: self.ibc_compat@,
        }
    }
}

impl Default for AddressPrefixes {
    fn default() -> (r: Self)
        ensures r@ == AddressPrefixes::spec_default(),
    {
        let r = AddressPrefixes {
            base: String::new(),
            ibc_compat: String::new(),
        };
        r
    }
}

impl AddressPrefixes {
    /// The fully qualified protobuf name of the message.
    pub fn full_name() -> (r: String)
        ensures r@ == "astria.protocol.genesis.v1.AddressPrefixes"@,
    {
        "astria.protocol.genesis.v1.AddressPrefixes".to_string()
    }

    /// Every field at its default: empty strings, bytes and lists, zero, `false`, unset.
    pub open spec fn spec_default() -> AddressPrefixesV {
        AddressPrefixesV {
            base: Seq::<char>::empty(),
            ibc_compat: Seq::<char>::empty(),
        }
    }

    /// The view of an optional field of this message type.
    pub open spec fn view_opt(o: Option<Self>) -> Option<AddressPrefixesV> {
        match o {
            Some(x) => Some(x@),
            None => None,
        }
    }

    /// The view of a repeated field of this message type.
    pub open spec fn view_list(v: Seq<Self>) -> Seq<AddressPrefixesV> {
        v.map_values(|x: Self| x@)
    }

    /// The member that the field `base` writes: none where it holds its default.
    pub open spec fn spec_entry_base(m: AddressPrefixesV) -> Seq<(Seq<char>, JsonV)> {
        entry_if(m.base.len() != 0, "base"@, JsonV::Str(m.base))
    }

    /// The member that the field `ibc_compat` writes: none where it holds its default.
    pub open spec fn spec_entry_ibc_compat(m: AddressPrefixesV) -> Seq<(Seq<char>, JsonV)> {
        entry_if(m.ibc_compat.len() != 0, "ibcCompat"@, JsonV::Str(m.ibc_compat))
    }

    /// The members of the JSON object of the message: each field that does not hold
    /// its default, under its JSON name, in the order of the fields.
    pub open spec fn spec_entries(m: AddressPrefixesV) -> Seq<(Seq<char>, JsonV)> {
        Self::spec_entry_base(m) + Self::spec_entry_ibc_compat(m)
    }

    /// The JSON object that the protobuf JSON mapping writes for the message.
    pub open spec fn spec_to_json(m: AddressPrefixesV) -> JsonV {
        JsonV::Object(Self::spec_entries(m))
    }

    /// [`Self::spec_to_json`] as a function value, for repeated fields.
    pub open spec fn writer() -> spec_fn(AddressPrefixesV) -> JsonV {
        |m: AddressPrefixesV| Self::spec_to_json(m)
    }

    fn write_base(&self, es: &mut Vec<(String, Json)>)
        ensures
            view_entries(final(es)@) == view_entries(old(es)@) + Self::spec_entry_base(self@),
    {
        if !self.base.as_str().is_empty() {
            push_entry(es, "base", string_value(&self.base));
        }
        assert(view_entries(es@) =~= view_entries(old(es)@) + Self::spec_entry_base(self@));
    }

    fn write_ibc_compat(&self, es: &mut Vec<(String, Json)>)
        ensures
            view_entries(final(es)@) == view_entries(old(es)@) + Self::spec_entry_ibc_compat(self@),
    {
        if !self.ibc_compat.as_str().is_empty() {
            push_entry(es, "ibcCompat", string_value(&self.ibc_compat));
        }
        assert(view_entries(es@) =~= view_entries(old(es)@) + Self::spec_entry_ibc_compat(self@));
    }

    /// Writes the message as a JSON object; reading it back gives the message.
    pub fn to_json(&self) -> (r: Json)
        ensures
            r@ == Self::spec_to_json(self@),
            Self::spec_from_json(r@) == Ok::<AddressPrefixesV, JsonErrorV>(self@),
    {
        let mut es: Vec<(String, Json)> = Vec::new();
        let ghost mut acc: Seq<(Seq<char>, JsonV)> = Seq::empty();
        proof {
            assert(view_entries(es@) =~= acc);
        }
        self.write_base(&mut es);
        proof {
            acc = acc + Self::spec_entry_base(self@);
        }
        self.write_ibc_compat(&mut es);
        proof {
            acc = acc + Self::spec_entry_ibc_compat(self@);
        }
        proof {
            assert(acc =~= Self::spec_entries(self@));
            Self::lemma_json_roundtrip(self@);
        }
        Json::Object(es)
    }

    /// Reads one member of the object into the message under construction; `seen`
    /// records which fields that have no unset state were already given.
    pub open spec fn spec_step(st: (AddressPrefixesV, Seq<bool>), key: Seq<char>, v: JsonV) -> Result<(AddressPrefixesV, Seq<bool>), JsonErrorV> {
        let m = st.0;
        let seen = st.1;
        if key == "base"@ {
            if seen[0] {
                Err(JsonErrorV::DuplicateField("base"@))
            } else {
                match read_string(v) {
                    Ok(x) => Ok((AddressPrefixesV { base: x, ..m }, seen.update(0, true))),
                    Err(e) => Err(e),
                }
            }
        } else if key == "ibcCompat"@ || key == "ibc_compat"@ {
            if seen[1] {
                Err(JsonErrorV::DuplicateField("ibcCompat"@))
            } else {
                match read_string(v) {
                    Ok(x) => Ok((AddressPrefixesV { ibc_compat: x, ..m }, seen.update(1, true))),
                    Err(e) => Err(e),
                }
            }
        } else {
            Err(JsonErrorV::UnknownField(key))
        }
    }

    /// [`Self::spec_step`] as a function value.
    pub open spec fn step_fn() -> spec_fn((AddressPrefixesV, Seq<bool>), Seq<char>, JsonV) -> Result<(AddressPrefixesV, Seq<bool>), JsonErrorV> {
        |st: (AddressPrefixesV, Seq<bool>), key: Seq<char>, v: JsonV| Self::spec_step(st, key, v)
    }

    /// The state before the first member is read: the default message, no field seen.
    pub open spec fn spec_start() -> (AddressPrefixesV, Seq<bool>) {
        (Self::spec_default(), seq![false, false])
    }

    /// The message that a JSON value describes: an object whose keys each name a field
    /// (by its JSON name or its protobuf name), at most once each; fields that are not
    /// given keep their default. The first member that is refused gives the error.
    pub open spec fn spec_from_json(j: JsonV) -> Result<AddressPrefixesV, JsonErrorV> {
        match j {
            JsonV::Object(es) => match fold_entries(Self::spec_start(), es, Self::step_fn()) {
                Ok(st) => Ok(st.0),
                Err(e) => Err(e),
            },
            _ => Err(JsonErrorV::ExpectedObject),
        }
    }

    /// [`Self::spec_from_json`] as a function value, for repeated fields.
    pub open spec fn reader() -> spec_fn(JsonV) -> Result<AddressPrefixesV, JsonErrorV> {
        |v: JsonV| Self::spec_from_json(v)
    }

    /// An optional field of this message type: `null` leaves it unset.
    pub open spec fn spec_read_opt(v: JsonV) -> Result<Option<AddressPrefixesV>, JsonErrorV> {
        match v {
            JsonV::Null => Ok(None),
            _ => match Self::spec_from_json(v) {
                Ok(x) => Ok(Some(x)),
                Err(e) => Err(e),
            },
        }
    }

    fn step(m: Self, seen: Vec<bool>, key: &String, v: &Json) -> (r: Result<(Self, Vec<bool>), JsonError>)
        requires seen@.len() == 2,
        ensures
            match r {
                Ok((m2, seen2)) => Self::spec_step((m@, seen@), key@, v@) == Ok::<(AddressPrefixesV, Seq<bool>), JsonErrorV>((m2@, seen2@)) && seen2@.len() == 2,
                Err(e) => Self::spec_step((m@, seen@), key@, v@) == Err::<(AddressPrefixesV, Seq<bool>), JsonErrorV>(e@),
            },
    {
        let mut m = m;
        let mut seen = seen;
        let k = key.as_str();
        if str_eq(k, "base") {
            if seen[0] {
                return Err(JsonError::DuplicateField("base".to_string()));
            }
            match string_field(v) {
                Ok(x) => m.base = x,
                Err(e) => return Err(e),
            }
            seen.set(0, true);
        } else if str_eq(k, "ibcCompat") || str_eq(k, "ibc_compat") {
            if seen[1] {
                return Err(JsonError::DuplicateField("ibcCompat".to_string()));
            }
            match string_field(v) {
                Ok(x) => m.ibc_compat = x,
                Err(e) => return Err(e),
            }
            seen.set(1, true);
        } else {
            return Err(JsonError::UnknownField(key.clone()));
        }
        Ok((m, seen))
    }

    /// Reads the message from a JSON value, as [`Self::spec_from_json`] describes.
    pub fn from_json(j: &Json) -> (r: Result<Self, JsonError>)
        ensures
            match r {
                Ok(m) => Self::spec_from_json(j@) == Ok::<AddressPrefixesV, JsonErrorV>(m@),
                Err(e) => Self::spec_from_json(j@) == Err::<AddressPrefixesV, JsonErrorV>(e@),
            },
    {
        let es = match j {
            Json::Object(es) => es,
            _ => return Err(JsonError::ExpectedObject),
        };
        let ghost ves = view_entries(es@);
        proof {
            lemma_view_entries_len(es@);
            assert(j@ == JsonV::Object(ves));
        }
        let mut m = Self::default();
        let mut seen: Vec<bool> = vec![false, false];
        let mut i: usize = 0;
        proof {
            assert(seen@ =~= Self::spec_start().1);
            assert(ves.skip(0) == ves);
        }
        while i < es.len()
            invariant
                j@ == JsonV::Object(ves),
                ves == view_entries(es@),
                ves.len() == es@.len(),
                i <= es.len(),
                seen@.len() == 2,
                fold_entries(Self::spec_start(), ves, Self::step_fn())
                    == fold_entries((m@, seen@), ves.skip(i as int), Self::step_fn()),
            decreases es.len() - i,
        {
            proof {
                lemma_view_entries_index(es@, i as int);
                lemma_fold_entries_step((m@, seen@), ves, i as int, Self::step_fn());
            }
            match Self::step(m, seen, &es[i].0, &es[i].1) {
                Ok((m2, seen2)) => {
                    m = m2;
                    seen = seen2;
                },
                Err(e) => return Err(e),
            }
            i = i + 1;
        }
        proof {
            assert(ves.skip(ves.len() as int) == Seq::<(Seq<char>, JsonV)>::empty());
            assert(fold_entries((m@, seen@), ves.skip(ves.len() as int), Self::step_fn())
                == Ok::<(AddressPrefixesV, Seq<bool>), JsonErrorV>((m@, seen@)));
        }
        Ok(m)
    }

    /// Reads an optional field of this message type.
    pub fn opt_from_json(v: &Json) -> (r: Result<Option<Self>, JsonError>)
        ensures
            match r {
                Ok(None) => Self::spec_read_opt(v@) == Ok::<Option<AddressPrefixesV>, JsonErrorV>(None),
                Ok(Some(x)) => Self::spec_read_opt(v@) == Ok::<Option<AddressPrefixesV>, JsonErrorV>(Some(x@)),
                Err(e) => Self::spec_read_opt(v@) == Err::<Option<AddressPrefixesV>, JsonErrorV>(e@),
            },
    {
        match v {
            Json::Null => Ok(None),
            _ => match Self::from_json(v) {
                Ok(x) => Ok(Some(x)),
                Err(e) => Err(e),
            },
        }
    }

    /// Reading the member that the field `base` writes sets the field.
    pub proof fn lemma_entry_base(m: AddressPrefixesV, st: (AddressPrefixesV, Seq<bool>))
        requires
            st.1.len() == 2,
            !st.1[0],
            st.0.base == Seq::<char>::empty(),
        ensures
            fold_entries(st, Self::spec_entry_base(m), Self::step_fn()) == Ok::<(AddressPrefixesV, Seq<bool>), JsonErrorV>((AddressPrefixesV { base: m.base, ..st.0 }, if m.base.len() != 0 { st.1.update(0, true) } else { st.1 })),
    {
        reveal_strlit("base");
        reveal_strlit("ibcCompat");
        reveal_strlit("ibc_compat");
        assert("base"@.len() == 4);
        assert("ibcCompat"@.len() == 9);
        assert("ibc_compat"@.len() == 10);
        if m.base.len() == 0 {
            assert(m.base =~= Seq::<char>::empty());
        }
        lemma_fold_entry_if(st, m.base.len() != 0, "base"@, JsonV::Str(m.base), Self::step_fn());
    }

    /// Reading the member that the field `ibc_compat` writes sets the field.
    pub proof fn lemma_entry_ibc_compat(m: AddressPrefixesV, st: (AddressPrefixesV, Seq<bool>))
        requires
            st.1.len() == 2,
            !st.1[1],
            st.0.ibc_compat == Seq::<char>::empty(),
        ensures
            fold_entries(st, Self::spec_entry_ibc_compat(m), Self::step_fn()) == Ok::<(AddressPrefixesV, Seq<bool>), JsonErrorV>((AddressPrefixesV { ibc_compat: m.ibc_compat, ..st.0 }, if m.ibc_compat.len() != 0 { st.1.update(1, true) } else { st.1 })),
    {
        reveal_strlit("base");
        reveal_strlit("ibcCompat");
        reveal_strlit("ibc_compat");
        assert("base"@.len() == 4);
        assert("ibcCompat"@.len() == 9);
        assert("ibc_compat"@.len() == 10);
        if m.ibc_compat.len() == 0 {
            assert(m.ibc_compat =~= Seq::<char>::empty());
        }
        lemma_fold_entry_if(st, m.ibc_compat.len() != 0, "ibcCompat"@, JsonV::Str(m.ibc_compat), Self::step_fn());
    }

    /// The JSON spelling of a key: the protobuf name of a field becomes its JSON name;
    /// a JSON name, and any key that names no field, is left as it is.
    pub open spec fn spec_json_key(key: Seq<char>) -> Seq<char> {
        if key == "base"@ {
            "base"@
        } else if key == "ibcCompat"@ || key == "ibc_compat"@ {
            "ibcCompat"@
        } else {
            key
        }
    }

    /// [`Self::spec_json_key`] as a function value.
    pub open spec fn json_key_fn() -> spec_fn(Seq<char>) -> Seq<char> {
        |key: Seq<char>| Self::spec_json_key(key)
    }

    /// One member is read alike whichever spelling its key has.
    pub proof fn lemma_step_json_key(st: (AddressPrefixesV, Seq<bool>), key: Seq<char>, v: JsonV)
        ensures Self::spec_step(st, key, v) == Self::spec_step(st, Self::spec_json_key(key), v),
    {
        reveal_strlit("base");
        reveal_strlit("ibcCompat");
        reveal_strlit("ibc_compat");
        assert("base"@.len() == 4);
        assert("ibcCompat"@.len() == 9);
        assert("ibc_compat"@.len() == 10);
        if key == "ibc_compat"@ {
            assert(Self::spec_json_key(key) == "ibcCompat"@);
        }
    }

    /// Reading an object gives the same result whichever spelling each of its keys has:
    /// two objects whose members hold the same values, in the same order, under keys of
    /// the same JSON spelling describe the same message, or are refused with the same error.
    pub proof fn lemma_key_spelling(es1: Seq<(Seq<char>, JsonV)>, es2: Seq<(Seq<char>, JsonV)>)
        requires
            es1.len() == es2.len(),
            forall|i: int| #![trigger es1[i], es2[i]] 0 <= i < es1.len() ==> es1[i].1 == es2[i].1 && Self::spec_json_key(es1[i].0) == Self::spec_json_key(es2[i].0),
        ensures Self::spec_from_json(JsonV::Object(es1)) == Self::spec_from_json(JsonV::Object(es2)),
    {
        assert forall|s: (AddressPrefixesV, Seq<bool>), k: Seq<char>, v: JsonV|
            #![trigger Self::step_fn()(s, k, v), Self::json_key_fn()(k)]
            Self::step_fn()(s, k, v) == Self::step_fn()(s, Self::json_key_fn()(k), v) by {
            Self::lemma_step_json_key(s, k, v);
        }
        lemma_fold_same_keys(Self::spec_start(), es1, es2, Self::step_fn(), Self::json_key_fn());
    }

    /// The keys of the object that the message writes: the JSON names of the fields that
    /// do not hold their default (for a oneof, the JSON name of the member set), in the
    /// order of the fields.
    pub open spec fn spec_written_keys(m: AddressPrefixesV) -> Seq<Seq<char>> {
        key_if(m.base.len() != 0, "base"@)
            + key_if(m.ibc_compat.len() != 0, "ibcCompat"@)
    }

    /// The object that the message writes has exactly the keys of
    /// [`Self::spec_written_keys`], in that order.
    pub proof fn lemma_written_keys(m: AddressPrefixesV)
        ensures
            Self::spec_to_json(m) == JsonV::Object(Self::spec_entries(m)),
            entry_keys(Self::spec_entries(m)) == Self::spec_written_keys(m),
    {
        lemma_entry_keys_if(m.base.len() != 0, "base"@, JsonV::Str(m.base));
        lemma_entry_keys_append(Self::spec_entry_base(m), m.ibc_compat.len() != 0, "ibcCompat"@, JsonV::Str(m.ibc_compat));
    }

    /// Whether the field whose JSON name is `name` holds its default in `m`; for a member
    /// of a oneof, whether the oneof is set to another member or unset. `true` for a name
    /// that names no field.
    pub open spec fn spec_holds_default(m: AddressPrefixesV, name: Seq<char>) -> bool {
        if name == "base"@ {
            m.base == Seq::<char>::empty()
        } else if name == "ibcCompat"@ {
            m.ibc_compat == Seq::<char>::empty()
        } else {
            true
        }
    }

    /// Whether reading `v` for the field whose JSON name is `name` leaves the field at
    /// its default: `null`, for a field that takes it (a message field, a member of a
    /// oneof); nothing, for any other field. `true` for a name that names no field.
    pub open spec fn spec_leaves_default(name: Seq<char>, v: JsonV) -> bool {
        if name == "base"@ {
            false
        } else if name == "ibcCompat"@ {
            false
        } else {
            true
        }
    }

    /// Reading one member keeps a field at its default unless the key names the field
    /// and the value does not leave it there.
    pub proof fn lemma_step_keeps_default(st: (AddressPrefixesV, Seq<bool>), key: Seq<char>, v: JsonV, name: Seq<char>)
        requires
            Self::spec_holds_default(st.0, name),
            Self::spec_json_key(key) == name ==> Self::spec_leaves_default(name, v),
        ensures
            Self::spec_step(st, key, v) is Ok ==> Self::spec_holds_default(Self::spec_step(st, key, v)->Ok_0.0, name),
    {
        reveal_strlit("base");
        reveal_strlit("ibcCompat");
        reveal_strlit("ibc_compat");
        assert("base"@.len() == 4);
        assert("ibcCompat"@.len() == 9);
        assert("ibc_compat"@.len() == 10);
        Self::lemma_step_json_key(st, key, v);
    }

    /// A field whose key appears in no member of an object, or only with values that
    /// leave it at its default (`null`, for a field that takes it), holds its default in
    /// the message that the object describes.
    pub proof fn lemma_absent_default(es: Seq<(Seq<char>, JsonV)>, name: Seq<char>)
        requires
            forall|i: int| 0 <= i < es.len() ==> (Self::spec_json_key((#[trigger] es[i]).0) == name
                ==> Self::spec_leaves_default(name, es[i].1)),
        ensures
            Self::spec_from_json(JsonV::Object(es)) is Ok
                ==> Self::spec_holds_default(Self::spec_from_json(JsonV::Object(es))->Ok_0, name),
    {
        let inv = |s: (AddressPrefixesV, Seq<bool>)| Self::spec_holds_default(s.0, name);
        let allowed = |k: Seq<char>, v: JsonV| Self::spec_json_key(k) == name ==> Self::spec_leaves_default(name, v);
        assert forall|s: (AddressPrefixesV, Seq<bool>), k: Seq<char>, v: JsonV| #![trigger Self::step_fn()(s, k, v)]
            inv(s) && allowed(k, v) && Self::step_fn()(s, k, v) is Ok implies inv(Self::step_fn()(s, k, v)->Ok_0) by {
            Self::lemma_step_keeps_default(s, k, v, name);
        }
        assert(inv(Self::spec_start()));
        lemma_fold_keeps(Self::spec_start(), es, Self::step_fn(), inv, allowed);
    }

    /// The field `base` alone: an object with one member under its JSON or protobuf
    /// name reads as the message with that field set and every other field at its
    /// default, and the message with only that field off its default writes that
    /// one member under the JSON name.
    pub proof fn lemma_field_base(s: Seq<char>)
        ensures
            Self::spec_from_json(JsonV::Object(seq![("base"@, JsonV::Str(s))])) == Ok::<AddressPrefixesV, JsonErrorV>(AddressPrefixesV { base: s, ..Self::spec_default() }),
            s.len() > 0 ==> Self::spec_to_json(AddressPrefixesV { base: s, ..Self::spec_default() }) == JsonV::Object(seq![("base"@, JsonV::Str(s))]),
    {
        reveal_strlit("base");
        reveal_strlit("ibcCompat");
        reveal_strlit("ibc_compat");
        assert("base"@.len() == 4);
        assert("ibcCompat"@.len() == 9);
        assert("ibc_compat"@.len() == 10);
        lemma_fold_entry_if(Self::spec_start(), true, "base"@, JsonV::Str(s), Self::step_fn());
    }

    /// The field `ibc_compat` alone: an object with one member under its JSON or protobuf
    /// name reads as the message with that field set and every other field at its
    /// default, and the message with only that field off its default writes that
    /// one member under the JSON name.
    pub proof fn lemma_field_ibc_compat(s: Seq<char>)
        ensures
            Self::spec_from_json(JsonV::Object(seq![("ibcCompat"@, JsonV::Str(s))])) == Ok::<AddressPrefixesV, JsonErrorV>(AddressPrefixesV { ibc_compat: s, ..Self::spec_default() }),
            Self::spec_from_json(JsonV::Object(seq![("ibc_compat"@, JsonV::Str(s))])) == Ok::<AddressPrefixesV, JsonErrorV>(AddressPrefixesV { ibc_compat: s, ..Self::spec_default() }),
            s.len() > 0 ==> Self::spec_to_json(AddressPrefixesV { ibc_compat: s, ..Self::spec_default() }) == JsonV::Object(seq![("ibcCompat"@, JsonV::Str(s))]),
    {
        reveal_strlit("base");
        reveal_strlit("ibcCompat");
        reveal_strlit("ibc_compat");
        assert("base"@.len() == 4);
        assert("ibcCompat"@.len() == 9);
        assert("ibc_compat"@.len() == 10);
        lemma_fold_entry_if(Self::spec_start(), true, "ibcCompat"@, JsonV::Str(s), Self::step_fn());
        lemma_fold_entry_if(Self::spec_start(), true, "ibc_compat"@, JsonV::Str(s), Self::step_fn());
    }

    /// Reading back the JSON object of a message gives the message.
    pub proof fn lemma_json_roundtrip(m: AddressPrefixesV)
        ensures Self::spec_from_json(Self::spec_to_json(m)) == Ok::<AddressPrefixesV, JsonErrorV>(m),
    {
        let step = Self::step_fn();
        let s0 = Self::spec_start();
        let s1 = (AddressPrefixesV { base: m.base, ..s0.0 }, if m.base.len() != 0 { s0.1.update(0, true) } else { s0.1 });
        Self::lemma_entry_base(m, s0);
        let s2 = (AddressPrefixesV { ibc_compat: m.ibc_compat, ..s1.0 }, if m.ibc_compat.len() != 0 { s1.1.update(1, true) } else { s1.1 });
        Self::lemma_entry_ibc_compat(m, s1);
        let p1 = Self::spec_entry_base(m);
        let p2 = p1 + Self::spec_entry_ibc_compat(m);
        lemma_fold_entries_append(s0, p1, Self::spec_entry_ibc_compat(m), step);
        assert(s2.0 == m);
    }
}

/// The `astria.protocol.genesis.v1.GenesisAppState` message.
#[derive(Clone, Debug, PartialEq)]
pub struct GenesisAppState {
    pub chain_id: String,
    pub address_prefixes: Option<AddressPrefixes>,
    pub accounts: Vec<Account>,
    pub authority_sudo_address: Option<Address>,
    pub ibc_sudo_address: Option<Address>,
    pub ibc_relayer_addresses: Vec<Address>,
    pub native_asset_base_denomination: String,
    pub ibc_parameters: Option<IbcParameters>,
    pub allowed_fee_assets: Vec<String>,
    pub fees: Option<GenesisFees>,
}

/// The mathematical content of a [`GenesisAppState`].
pub struct GenesisAppStateV {
    pub chain_id: Seq<char>,
    pub address_prefixes: Option<AddressPrefixesV>,
    pub accounts: Seq<AccountV>,
    pub authority_sudo_address: Option<Seq<(Seq<char>, JsonV)>>,
    pub ibc_sudo_address: Option<Seq<(Seq<char>, JsonV)>>,
    pub ibc_relayer_addresses: Seq<Seq<(Seq<char>, JsonV)>>,
    pub native_asset_base_denomination: Seq<char>,
    pub ibc_parameters: Option<IbcParametersV>,
    pub allowed_fee_assets: Seq<Seq<char>>,
    pub fees: Option<GenesisFeesV>,
}

impl View for GenesisAppState {
    type V = GenesisAppStateV;

    open spec fn view(&self) -> GenesisAppStateV {
        GenesisAppStateV {
            chain_id: self.chain_id@,
            address_prefixes: AddressPrefixes::view_opt(self.address_prefixes),
            accounts: Account::view_list(self.accounts@),
            authority_sudo_address: opt_embedded_view(self.authority_sudo_address),
            ibc_sudo_address: opt_embedded_view(self.ibc_sudo_address),
            ibc_relayer_addresses: embeddeds_view(self.ibc_relayer_addresses@),
            native_asset_base_denomination: self.native_asset_base_denomination@,
            ibc_parameters: IbcParameters::view_opt(self.ibc_parameters),
            allowed_fee_assets: strings_view(self.allowed_fee_assets@),
            fees: GenesisFees::view_opt(self.fees),
        }
    }
}

impl Default for GenesisAppState {
    fn default() -> (r: Self)
        ensures r@ == GenesisAppState::spec_default(),
    {
        let r = GenesisAppState {
            chain_id: String::new(),
            address_prefixes: None,
            accounts: Vec::new(),
            authority_sudo_address: None,
            ibc_sudo_address: None,
            ibc_relayer_addresses: Vec::new(),
            native_asset_base_denomination: String::new(),
            ibc_parameters: None,
            allowed_fee_assets: Vec::new(),
            fees: None,
        };
        proof {
            assert(Account::view_list(r.accounts@) =~= Seq::<AccountV>::empty());
            assert(embeddeds_view(r.ibc_relayer_addresses@) =~= Seq::<Seq<(Seq<char>, JsonV)>>::empty());
            assert(strings_view(r.allowed_fee_assets@) =~= Seq::<Seq<char>>::empty());
        }
        r
    }
}

impl GenesisAppState {
    /// The fully qualified protobuf name of the message.
    pub fn full_name() -> (r: String)
        ensures r@ == "astria.protocol.genesis.v1.GenesisAppState"@,
    {
        "astria.protocol.genesis.v1.GenesisAppState".to_string()
    }

    /// Every field at its default: empty strings, bytes and lists, zero, `false`, unset.
    pub open spec fn spec_default() -> GenesisAppStateV {
        GenesisAppStateV {
            chain_id: Seq::<char>::empty(),
            address_prefixes: None,
            accounts: Seq::<AccountV>::empty(),
            authority_sudo_address: None,
            ibc_sudo_address: None,
            ibc_relayer_addresses: Seq::<Seq<(Seq<char>, JsonV)>>::empty(),
            native_asset_base_denomination: Seq::<char>::empty(),
            ibc_parameters: None,
            allowed_fee_assets: Seq::<Seq<char>>::empty(),
            fees: None,
        }
    }

    /// The view of an optional field of this message type.
    pub open spec fn view_opt(o: Option<Self>) -> Option<GenesisAppStateV> {
        match o {
            Some(x) => Some(x@),
            None => None,
        }
    }

    /// The view of a repeated field of this message type.
    pub open spec fn view_list(v: Seq<Self>) -> Seq<GenesisAppStateV> {
        v.map_values(|x: Self| x@)
    }

    /// The member that the field `chain_id` writes: none where it holds its default.
    pub open spec fn spec_entry_chain_id(m: GenesisAppStateV) -> Seq<(Seq<char>, JsonV)> {
        entry_if(m.chain_id.len() != 0, "chainId"@, JsonV::Str(m.chain_id))
    }

    /// The member that the field `address_prefixes` writes: none where it holds its default.
    pub open spec fn spec_entry_address_prefixes(m: GenesisAppStateV) -> Seq<(Seq<char>, JsonV)> {
        entry_if(m.address_prefixes is Some, "addressPrefixes"@, AddressPrefixes::spec_to_json(m.address_prefixes.unwrap()))
    }

    /// The member that the field `accounts` writes: none where it holds its default.
    pub open spec fn spec_entry_accounts(m: GenesisAppStateV) -> Seq<(Seq<char>, JsonV)> {
        entry_if(m.accounts.len() != 0, "accounts"@, JsonV::Array(m.accounts.map_values(Account::writer())))
    }

    /// The member that the field `authority_sudo_address` writes: none where it holds its default.
    pub open spec fn spec_entry_authority_sudo_address(m: GenesisAppStateV) -> Seq<(Seq<char>, JsonV)> {
        entry_if(m.authority_sudo_address is Some, "authoritySudoAddress"@, JsonV::Object(m.authority_sudo_address.unwrap()))
    }

    /// The member that the field `ibc_sudo_address` writes: none where it holds its default.
    pub open spec fn spec_entry_ibc_sudo_address(m: GenesisAppStateV) -> Seq<(Seq<char>, JsonV)> {
        entry_if(m.ibc_sudo_address is Some, "ibcSudoAddress"@, JsonV::Object(m.ibc_sudo_address.unwrap()))
    }

    /// The member that the field `ibc_relayer_addresses` writes: none where it holds its default.
    pub open spec fn spec_entry_ibc_relayer_addresses(m: GenesisAppStateV) -> Seq<(Seq<char>, JsonV)> {
        entry_if(m.ibc_relayer_addresses.len() != 0, "ibcRelayerAddresses"@, JsonV::Array(m.ibc_relayer_addresses.map_values(embedded_writer())))
    }

    /// The member that the field `native_asset_base_denomination` writes: none where it holds its default.
    pub open spec fn spec_entry_native_asset_base_denomination(m: GenesisAppStateV) -> Seq<(Seq<char>, JsonV)> {
        entry_if(m.native_asset_base_denomination.len() != 0, "nativeAssetBaseDenomination"@, JsonV::Str(m.native_asset_base_denomination))
    }

    /// The member that the field `ibc_parameters` writes: none where it holds its default.
    pub open spec fn spec_entry_ibc_parameters(m: GenesisAppStateV) -> Seq<(Seq<char>, JsonV)> {
        entry_if(m.ibc_parameters is Some, "ibcParameters"@, IbcParameters::spec_to_json(m.ibc_parameters.unwrap()))
    }

    /// The member that the field `allowed_fee_assets` writes: none where it holds its default.
    pub open spec fn spec_entry_allowed_fee_assets(m: GenesisAppStateV) -> Seq<(Seq<char>, JsonV)> {
        entry_if(m.allowed_fee_assets.len() != 0, "allowedFeeAssets"@, JsonV::Array(m.allowed_fee_assets.map_values(string_writer())))
    }

    /// The member that the field `fees` writes: none where it holds its default.
    pub open spec fn spec_entry_fees(m: GenesisAppStateV) -> Seq<(Seq<char>, JsonV)> {
        entry_if(m.fees is Some, "fees"@, GenesisFees::spec_to_json(m.fees.unwrap()))
    }

    /// The members of the JSON object of the message: each field that does not hold
    /// its default, under its JSON name, in the order of the fields.
    pub open spec fn spec_entries(m: GenesisAppStateV) -> Seq<(Seq<char>, JsonV)> {
        Self::spec_entry_chain_id(m) + Self::spec_entry_address_prefixes(m) + Self::spec_entry_accounts(m) + Self::spec_entry_authority_sudo_address(m) + Self::spec_entry_ibc_sudo_address(m) + Self::spec_entry_ibc_relayer_addresses(m) + Self::spec_entry_native_asset_base_denomination(m) + Self::spec_entry_ibc_parameters(m) + Self::spec_entry_allowed_fee_assets(m) + Self::spec_entry_fees(m)
    }

    /// The JSON object that the protobuf JSON mapping writes for the message.
    pub open spec fn spec_to_json(m: GenesisAppStateV) -> JsonV {
        JsonV::Object(Self::spec_entries(m))
    }

    /// [`Self::spec_to_json`] as a function value, for repeated fields.
    pub open spec fn writer() -> spec_fn(GenesisAppStateV) -> JsonV {
        |m: GenesisAppStateV| Self::spec_to_json(m)
    }

    fn write_chain_id(&self, es: &mut Vec<(String, Json)>)
        ensures
            view_entries(final(es)@) == view_entries(old(es)@) + Self::spec_entry_chain_id(self@),
    {
        if !self.chain_id.as_str().is_empty() {
            push_entry(es, "chainId", string_value(&self.chain_id));
        }
        assert(view_entries(es@) =~= view_entries(old(es)@) + Self::spec_entry_chain_id(self@));
    }

    fn write_address_prefixes(&self, es: &mut Vec<(String, Json)>)
        ensures
            view_entries(final(es)@) == view_entries(old(es)@) + Self::spec_entry_address_prefixes(self@),
    {
        match &self.address_prefixes {
            Some(x) => push_entry(es, "addressPrefixes", x.to_json()),
            None => {},
        }
        assert(view_entries(es@) =~= view_entries(old(es)@) + Self::spec_entry_address_prefixes(self@));
    }

    fn write_accounts(&self, es: &mut Vec<(String, Json)>)
        ensures
            view_entries(final(es)@) == view_entries(old(es)@) + Self::spec_entry_accounts(self@),
    {
        if self.accounts.len() != 0 {
            push_entry(es, "accounts", Account::list_to_json(&self.accounts));
        }
        assert(view_entries(es@) =~= view_entries(old(es)@) + Self::spec_entry_accounts(self@));
    }

    fn write_authority_sudo_address(&self, es: &mut Vec<(String, Json)>)
        ensures
            view_entries(final(es)@) == view_entries(old(es)@) + Self::spec_entry_authority_sudo_address(self@),
    {
        match &self.authority_sudo_address {
            Some(x) => push_entry(es, "authoritySudoAddress", embedded_value(x)),
            None => {},
        }
        assert(view_entries(es@) =~= view_entries(old(es)@) + Self::spec_entry_authority_sudo_address(self@));
    }

    fn write_ibc_sudo_address(&self, es: &mut Vec<(String, Json)>)
        ensures
            view_entries(final(es)@) == view_entries(old(es)@) + Self::spec_entry_ibc_sudo_address(self@),
    {
        match &self.ibc_sudo_address {
            Some(x) => push_entry(es, "ibcSudoAddress", embedded_value(x)),
            None => {},
        }
        assert(view_entries(es@) =~= view_entries(old(es)@) + Self::spec_entry_ibc_sudo_address(self@));
    }

    fn write_ibc_relayer_addresses(&self, es: &mut Vec<(String, Json)>)
        ensures
            view_entries(final(es)@) == view_entries(old(es)@) + Self::spec_entry_ibc_relayer_addresses(self@),
    {
        if self.ibc_relayer_addresses.len() != 0 {
            push_entry(es, "ibcRelayerAddresses", embeddeds_value(&self.ibc_relayer_addresses));
        }
        assert(view_entries(es@) =~= view_entries(old(es)@) + Self::spec_entry_ibc_relayer_addresses(self@));
    }

    fn write_native_asset_base_denomination(&self, es: &mut Vec<(String, Json)>)
        ensures
            view_entries(final(es)@) == view_entries(old(es)@) + Self::spec_entry_native_asset_base_denomination(self@),
    {
        if !self.native_asset_base_denomination.as_str().is_empty() {
            push_entry(es, "nativeAssetBaseDenomination", string_value(&self.native_asset_base_denomination));
        }
        assert(view_entries(es@) =~= view_entries(old(es)@) + Self::spec_entry_native_asset_base_denomination(self@));
    }

    fn write_ibc_parameters(&self, es: &mut Vec<(String, Json)>)
        ensures
            view_entries(final(es)@) == view_entries(old(es)@) + Self::spec_entry_ibc_parameters(self@),
    {
        match &self.ibc_parameters {
            Some(x) => push_entry(es, "ibcParameters", x.to_json()),
            None => {},
        }
        assert(view_entries(es@) =~= view_entries(old(es)@) + Self::spec_entry_ibc_parameters(self@));
    }

    fn write_allowed_fee_assets(&self, es: &mut Vec<(String, Json)>)
        ensures
            view_entries(final(es)@) == view_entries(old(es)@) + Self::spec_entry_allowed_fee_assets(self@),
    {
        if self.allowed_fee_assets.len() != 0 {
            push_entry(es, "allowedFeeAssets", strings_value(&self.allowed_fee_assets));
        }
        assert(view_entries(es@) =~= view_entries(old(es)@) + Self::spec_entry_allowed_fee_assets(self@));
    }

    fn write_fees(&self, es: &mut Vec<(String, Json)>)
        ensures
            view_entries(final(es)@) == view_entries(old(es)@) + Self::spec_entry_fees(self@),
    {
        match &self.fees {
            Some(x) => push_entry(es, "fees", x.to_json()),
            None => {},
        }
        assert(view_entries(es@) =~= view_entries(old(es)@) + Self::spec_entry_fees(self@));
    }

    /// Writes the message as a JSON object; reading it back gives the message.
    pub fn to_json(&self) -> (r: Json)
        ensures
            r@ == Self::spec_to_json(self@),
            Self::spec_from_json(r@) == Ok::<GenesisAppStateV, JsonErrorV>(self@),
    {
        let mut es: Vec<(String, Json)> = Vec::new();
        let ghost mut acc: Seq<(Seq<char>, JsonV)> = Seq::empty();
        proof {
            assert(view_entries(es@) =~= acc);
        }
        self.write_chain_id(&mut es);
        proof {
            acc = acc + Self::spec_entry_chain_id(self@);
        }
        self.write_address_prefixes(&mut es);
        proof {
            acc = acc + Self::spec_entry_address_prefixes(self@);
        }
        self.write_accounts(&mut es);
        proof {
            acc = acc + Self::spec_entry_accounts(self@);
        }
        self.write_authority_sudo_address(&mut es);
        proof {
            acc = acc + Self::spec_entry_authority_sudo_address(self@);
        }
        self.write_ibc_sudo_address(&mut es);
        proof {
            acc = acc + Self::spec_entry_ibc_sudo_address(self@);
        }
        self.write_ibc_relayer_addresses(&mut es);
        proof {
            acc = acc + Self::spec_entry_ibc_relayer_addresses(self@);
        }
        self.write_native_asset_base_denomination(&mut es);
        proof {
            acc = acc + Self::spec_entry_native_asset_base_denomination(self@);
        }
        self.write_ibc_parameters(&mut es);
        proof {
            acc = acc + Self::spec_entry_ibc_parameters(self@);
        }
        self.write_allowed_fee_assets(&mut es);
        proof {
            acc = acc + Self::spec_entry_allowed_fee_assets(self@);
        }
        self.write_fees(&mut es);
        proof {
            acc = acc + Self::spec_entry_fees(self@);
        }
        proof {
            assert(acc =~= Self::spec_entries(self@));
            Self::lemma_json_roundtrip(self@);
        }
        Json::Object(es)
    }

    /// Reads one member of the object into the message under construction; `seen`
    /// records which fields that have no unset state were already given.
    pub open spec fn spec_step(st: (GenesisAppStateV, Seq<bool>), key: Seq<char>, v: JsonV) -> Result<(GenesisAppStateV, Seq<bool>), JsonErrorV> {
        let m = st.0;
        let seen = st.1;
        if key == "chainId"@ || key == "chain_id"@ {
            if seen[0] {
                Err(JsonErrorV::DuplicateField("chainId"@))
            } else {
                match read_string(v) {
                    Ok(x) => Ok((GenesisAppStateV { chain_id: x, ..m }, seen.update(0, true))),
                    Err(e) => Err(e),
                }
            }
        } else if key == "addressPrefixes"@ || key == "address_prefixes"@ {
            if m.address_prefixes is Some {
                Err(JsonErrorV::DuplicateField("addressPrefixes"@))
            } else {
                match AddressPrefixes::spec_read_opt(v) {
                    Ok(x) => Ok((GenesisAppStateV { address_prefixes: x, ..m }, seen)),
                    Err(e) => Err(e),
                }
            }
        } else if key == "accounts"@ {
            if seen[1] {
                Err(JsonErrorV::DuplicateField("accounts"@))
            } else {
                match read_array(v, Account::reader()) {
                    Ok(x) => Ok((GenesisAppStateV { accounts: x, ..m }, seen.update(1, true))),
                    Err(e) => Err(e),
                }
            }
        } else if key == "authoritySudoAddress"@ || key == "authority_sudo_address"@ {
            if m.authority_sudo_address is Some {
                Err(JsonErrorV::DuplicateField("authoritySudoAddress"@))
            } else {
                match read_embedded(v) {
                    Ok(x) => Ok((GenesisAppStateV { authority_sudo_address: x, ..m }, seen)),
                    Err(e) => Err(e),
                }
            }
        } else if key == "ibcSudoAddress"@ || key == "ibc_sudo_address"@ {
            if m.ibc_sudo_address is Some {
                Err(JsonErrorV::DuplicateField("ibcSudoAddress"@))
            } else {
                match read_embedded(v) {
                    Ok(x) => Ok((GenesisAppStateV { ibc_sudo_address: x, ..m }, seen)),
                    Err(e) => Err(e),
                }
            }
        } else if key == "ibcRelayerAddresses"@ || key == "ibc_relayer_addresses"@ {
            if seen[2] {
                Err(JsonErrorV::DuplicateField("ibcRelayerAddresses"@))
            } else {
                match read_array(v, embedded_reader()) {
                    Ok(x) => Ok((GenesisAppStateV { ibc_relayer_addresses: x, ..m }, seen.update(2, true))),
                    Err(e) => Err(e),
                }
            }
        } else if key == "nativeAssetBaseDenomination"@ || key == "native_asset_base_denomination"@ {
            if seen[3] {
                Err(JsonErrorV::DuplicateField("nativeAssetBaseDenomination"@))
            } else {
                match read_string(v) {
                    Ok(x) => Ok((GenesisAppStateV { native_asset_base_denomination: x, ..m }, seen.update(3, true))),
                    Err(e) => Err(e),
                }
            }
        } else if key == "ibcParameters"@ || key == "ibc_parameters"@ {
            if m.ibc_parameters is Some {
                Err(JsonErrorV::DuplicateField("ibcParameters"@))
            } else {
                match IbcParameters::spec_read_opt(v) {
                    Ok(x) => Ok((GenesisAppStateV { ibc_parameters: x, ..m }, seen)),
                    Err(e) => Err(e),
                }
            }
        } else if key == "allowedFeeAssets"@ || key == "allowed_fee_assets"@ {
            if seen[4] {
                Err(JsonErrorV::DuplicateField("allowedFeeAssets"@))
            } else {
                match read_array(v, string_reader()) {
                    Ok(x) => Ok((GenesisAppStateV { allowed_fee_assets: x, ..m }, seen.update(4, true))),
                    Err(e) => Err(e),
                }
            }
        } else if key == "fees"@ {
            if m.fees is Some {
                Err(JsonErrorV::DuplicateField("fees"@))
            } else {
                match GenesisFees::spec_read_opt(v) {
                    Ok(x) => Ok((GenesisAppStateV { fees: x, ..m }, seen)),
                    Err(e) => Err(e),
                }
            }
        } else {
            Err(JsonErrorV::UnknownField(key))
        }
    }

    /// [`Self::spec_step`] as a function value.
    pub open spec fn step_fn() -> spec_fn((GenesisAppStateV, Seq<bool>), Seq<char>, JsonV) -> Result<(GenesisAppStateV, Seq<bool>), JsonErrorV> {
        |st: (GenesisAppStateV, Seq<bool>), key: Seq<char>, v: JsonV| Self::spec_step(st, key, v)
    }

    /// The state before the first member is read: the default message, no field seen.
    pub open spec fn spec_start() -> (GenesisAppStateV, Seq<bool>) {
        (Self::spec_default(), seq![false, false, false, false, false])
    }

    /// The message that a JSON value describes: an object whose keys each name a field
    /// (by its JSON name or its protobuf name), at most once each; fields that are not
    /// given keep their default. The first member that is refused gives the error.
    pub open spec fn spec_from_json(j: JsonV) -> Result<GenesisAppStateV, JsonErrorV> {
        match j {
            JsonV::Object(es) => match fold_entries(Self::spec_start(), es, Self::step_fn()) {
                Ok(st) => Ok(st.0),
                Err(e) => Err(e),
            },
            _ => Err(JsonErrorV::ExpectedObject),
        }
    }

    /// [`Self::spec_from_json`] as a function value, for repeated fields.
    pub open spec fn reader() -> spec_fn(JsonV) -> Result<GenesisAppStateV, JsonErrorV> {
        |v: JsonV| Self::spec_from_json(v)
    }

    /// An optional field of this message type: `null` leaves it unset.
    pub open spec fn spec_read_opt(v: JsonV) -> Result<Option<GenesisAppStateV>, JsonErrorV> {
        match v {
            JsonV::Null => Ok(None),
            _ => match Self::spec_from_json(v) {
                Ok(x) => Ok(Some(x)),
                Err(e) => Err(e),
            },
        }
    }

    fn step(m: Self, seen: Vec<bool>, key: &String, v: &Json) -> (r: Result<(Self, Vec<bool>), JsonError>)
        requires seen@.len() == 5,
        ensures
            match r {
                Ok((m2, seen2)) => Self::spec_step((m@, seen@), key@, v@) == Ok::<(GenesisAppStateV, Seq<bool>), JsonErrorV>((m2@, seen2@)) && seen2@.len() == 5,
                Err(e) => Self::spec_step((m@, seen@), key@, v@) == Err::<(GenesisAppStateV, Seq<bool>), JsonErrorV>(e@),
            },
    {
        let mut m = m;
        let mut seen = seen;
        let k = key.as_str();
        if str_eq(k, "chainId") || str_eq(k, "chain_id") {
            if seen[0] {
                return Err(JsonError::DuplicateField("chainId".to_string()));
            }
            match string_field(v) {
                Ok(x) => m.chain_id = x,
                Err(e) => return Err(e),
            }
            seen.set(0, true);
        } else if str_eq(k, "addressPrefixes") || str_eq(k, "address_prefixes") {
            if m.address_prefixes.is_some() {
                return Err(JsonError::DuplicateField("addressPrefixes".to_string()));
            }
            match AddressPrefixes::opt_from_json(v) {
                Ok(x) => m.address_prefixes = x,
                Err(e) => return Err(e),
            }
        } else if str_eq(k, "accounts") {
            if seen[1] {
                return Err(JsonError::DuplicateField("accounts".to_string()));
            }
            match Account::list_from_json(v) {
                Ok(x) => m.accounts = x,
                Err(e) => return Err(e),
            }
            seen.set(1, true);
        } else if str_eq(k, "authoritySudoAddress") || str_eq(k, "authority_sudo_address") {
            if m.authority_sudo_address.is_some() {
                return Err(JsonError::DuplicateField("authoritySudoAddress".to_string()));
            }
            match embedded_field(v) {
                Ok(x) => m.authority_sudo_address = x,
                Err(e) => return Err(e),
            }
        } else if str_eq(k, "ibcSudoAddress") || str_eq(k, "ibc_sudo_address") {
            if m.ibc_sudo_address.is_some() {
                return Err(JsonError::DuplicateField("ibcSudoAddress".to_string()));
            }
            match embedded_field(v) {
                Ok(x) => m.ibc_sudo_address = x,
                Err(e) => return Err(e),
            }
        } else if str_eq(k, "ibcRelayerAddresses") || str_eq(k, "ibc_relayer_addresses") {
            if seen[2] {
                return Err(JsonError::DuplicateField("ibcRelayerAddresses".to_string()));
            }
            match embeddeds_field(v) {
                Ok(x) => m.ibc_relayer_addresses = x,
                Err(e) => return Err(e),
            }
            seen.set(2, true);
        } else if str_eq(k, "nativeAssetBaseDenomination") || str_eq(k, "native_asset_base_denomination") {
            if seen[3] {
                return Err(JsonError::DuplicateField("nativeAssetBaseDenomination".to_string()));
            }
            match string_field(v) {
                Ok(x) => m.native_asset_base_denomination = x,
                Err(e) => return Err(e),
            }
            seen.set(3, true);
        } else if str_eq(k, "ibcParameters") || str_eq(k, "ibc_parameters") {
            if m.ibc_parameters.is_some() {
                return Err(JsonError::DuplicateField("ibcParameters".to_string()));
            }
            match IbcParameters::opt_from_json(v) {
                Ok(x) => m.ibc_parameters = x,
                Err(e) => return Err(e),
            }
        } else if str_eq(k, "allowedFeeAssets") || str_eq(k, "allowed_fee_assets") {
            if seen[4] {
                return Err(JsonError::DuplicateField("allowedFeeAssets".to_string()));
            }
            match strings_field(v) {
                Ok(x) => m.allowed_fee_assets = x,
                Err(e) => return Err(e),
            }
            seen.set(4, true);
        } else if str_eq(k, "fees") {
            if m.fees.is_some() {
                return Err(JsonError::DuplicateField("fees".to_string()));
            }
            match GenesisFees::opt_from_json(v) {
                Ok(x) => m.fees = x,
                Err(e) => return Err(e),
            }
        } else {
            return Err(JsonError::UnknownField(key.clone()));
        }
        Ok((m, seen))
    }

    /// Reads the message from a JSON value, as [`Self::spec_from_json`] describes.
    pub fn from_json(j: &Json) -> (r: Result<Self, JsonError>)
        ensures
            match r {
                Ok(m) => Self::spec_from_json(j@) == Ok::<GenesisAppStateV, JsonErrorV>(m@),
                Err(e) => Self::spec_from_json(j@) == Err::<GenesisAppStateV, JsonErrorV>(e@),
            },
    {
        let es = match j {
            Json::Object(es) => es,
            _ => return Err(JsonError::ExpectedObject),
        };
        let ghost ves = view_entries(es@);
        proof {
            lemma_view_entries_len(es@);
            assert(j@ == JsonV::Object(ves));
        }
        let mut m = Self::default();
        let mut seen: Vec<bool> = vec![false, false, false, false, false];
        let mut i: usize = 0;
        proof {
            assert(seen@ =~= Self::spec_start().1);
            assert(ves.skip(0) == ves);
        }
        while i < es.len()
            invariant
                j@ == JsonV::Object(ves),
                ves == view_entries(es@),
                ves.len() == es@.len(),
                i <= es.len(),
                seen@.len() == 5,
                fold_entries(Self::spec_start(), ves, Self::step_fn())
                    == fold_entries((m@, seen@), ves.skip(i as int), Self::step_fn()),
            decreases es.len() - i,
        {
            proof {
                lemma_view_entries_index(es@, i as int);
                lemma_fold_entries_step((m@, seen@), ves, i as int, Self::step_fn());
            }
            match Self::step(m, seen, &es[i].0, &es[i].1) {
                Ok((m2, seen2)) => {
                    m = m2;
                    seen = seen2;
                },
                Err(e) => return Err(e),
            }
            i = i + 1;
        }
        proof {
            assert(ves.skip(ves.len() as int) == Seq::<(Seq<char>, JsonV)>::empty());
            assert(fold_entries((m@, seen@), ves.skip(ves.len() as int), Self::step_fn())
                == Ok::<(GenesisAppStateV, Seq<bool>), JsonErrorV>((m@, seen@)));
        }
        Ok(m)
    }

    /// Reads an optional field of this message type.
    pub fn opt_from_json(v: &Json) -> (r: Result<Option<Self>, JsonError>)
        ensures
            match r {
                Ok(None) => Self::spec_read_opt(v@) == Ok::<Option<GenesisAppStateV>, JsonErrorV>(None),
                Ok(Some(x)) => Self::spec_read_opt(v@) == Ok::<Option<GenesisAppStateV>, JsonErrorV>(Some(x@)),
                Err(e) => Self::spec_read_opt(v@) == Err::<Option<GenesisAppStateV>, JsonErrorV>(e@),
            },
    {
        match v {
            Json::Null => Ok(None),
            _ => match Self::from_json(v) {
                Ok(x) => Ok(Some(x)),
                Err(e) => Err(e),
            },
        }
    }

    /// Reading the member that the field `chain_id` writes sets the field.
    pub proof fn lemma_entry_chain_id(m: GenesisAppStateV, st: (GenesisAppStateV, Seq<bool>))
        requires
            st.1.len() == 5,
            !st.1[0],
            st.0.chain_id == Seq::<char>::empty(),
        ensures
            fold_entries(st, Self::spec_entry_chain_id(m), Self::step_fn()) == Ok::<(GenesisAppStateV, Seq<bool>), JsonErrorV>((GenesisAppStateV { chain_id: m.chain_id, ..st.0 }, if m.chain_id.len() != 0 { st.1.update(0, true) } else { st.1 })),
    {
        reveal_strlit("chainId");
        reveal_strlit("chain_id");
        reveal_strlit("addressPrefixes");
        reveal_strlit("address_prefixes");
        reveal_strlit("accounts");
        reveal_strlit("authoritySudoAddress");
        reveal_strlit("authority_sudo_address");
        reveal_strlit("ibcSudoAddress");
        reveal_strlit("ibc_sudo_address");
        reveal_strlit("ibcRelayerAddresses");
        reveal_strlit("ibc_relayer_addresses");
        reveal_strlit("nativeAssetBaseDenomination");
        reveal_strlit("native_asset_base_denomination");
        reveal_strlit("ibcParameters");
        reveal_strlit("ibc_parameters");
        reveal_strlit("allowedFeeAssets");
        reveal_strlit("allowed_fee_assets");
        reveal_strlit("fees");
        assert("chainId"@.len() == 7);
        assert("chain_id"@.len() == 8);
        assert("addressPrefixes"@.len() == 15);
        assert("address_prefixes"@.len() == 16);
        assert("accounts"@.len() == 8);
        assert("authoritySudoAddress"@.len() == 20);
        assert("authority_sudo_address"@.len() == 22);
        assert("ibcSudoAddress"@.len() == 14);
        assert("ibc_sudo_address"@.len() == 16);
        assert("ibcRelayerAddresses"@.len() == 19);
        assert("ibc_relayer_addresses"@.len() == 21);
        assert("nativeAssetBaseDenomination"@.len() == 27);
        assert("native_asset_base_denomination"@.len() == 30);
        assert("ibcParameters"@.len() == 13);
        assert("ibc_parameters"@.len() == 14);
        assert("allowedFeeAssets"@.len() == 16);
        assert("allowed_fee_assets"@.len() == 18);
        assert("fees"@.len() == 4);
        assert("chain_id"@[0] != "accounts"@[0]);
        assert("address_prefixes"@[0] != "ibc_sudo_address"@[0]);
        assert("address_prefixes"@[1] != "allowedFeeAssets"@[1]);
        assert("ibcSudoAddress"@[3] != "ibc_parameters"@[3]);
        assert("ibc_sudo_address"@[0] != "allowedFeeAssets"@[0]);
        if m.chain_id.len() == 0 {
            assert(m.chain_id =~= Seq::<char>::empty());
        }
        lemma_fold_entry_if(st, m.chain_id.len() != 0, "chainId"@, JsonV::Str(m.chain_id), Self::step_fn());
    }

    /// Reading the member that the field `address_prefixes` writes sets the field.
    pub proof fn lemma_entry_address_prefixes(m: GenesisAppStateV, st: (GenesisAppStateV, Seq<bool>))
        requires
            st.1.len() == 5,
            st.0.address_prefixes is None,
        ensures
            fold_entries(st, Self::spec_entry_address_prefixes(m), Self::step_fn()) == Ok::<(GenesisAppStateV, Seq<bool>), JsonErrorV>((GenesisAppStateV { address_prefixes: m.address_prefixes, ..st.0 }, st.1)),
    {
        reveal_strlit("chainId");
        reveal_strlit("chain_id");
        reveal_strlit("addressPrefixes");
        reveal_strlit("address_prefixes");
        reveal_strlit("accounts");
        reveal_strlit("authoritySudoAddress");
        reveal_strlit("authority_sudo_address");
        reveal_strlit("ibcSudoAddress");
        reveal_strlit("ibc_sudo_address");
        reveal_strlit("ibcRelayerAddresses");
        reveal_strlit("ibc_relayer_addresses");
        reveal_strlit("nativeAssetBaseDenomination");
        reveal_strlit("native_asset_base_denomination");
        reveal_strlit("ibcParameters");
        reveal_strlit("ibc_parameters");
        reveal_strlit("allowedFeeAssets");
        reveal_strlit("allowed_fee_assets");
        reveal_strlit("fees");
        assert("chainId"@.len() == 7);
        assert("chain_id"@.len() == 8);
        assert("addressPrefixes"@.len() == 15);
        assert("address_prefixes"@.len() == 16);
        assert("accounts"@.len() == 8);
        assert("authoritySudoAddress"@.len() == 20);
        assert("authority_sudo_address"@.len() == 22);
        assert("ibcSudoAddress"@.len() == 14);
        assert("ibc_sudo_address"@.len() == 16);
        assert("ibcRelayerAddresses"@.len() == 19);
        assert("ibc_relayer_addresses"@.len() == 21);
        assert("nativeAssetBaseDenomination"@.len() == 27);
        assert("native_asset_base_denomination"@.len() == 30);
        assert("ibcParameters"@.len() == 13);
        assert("ibc_parameters"@.len() == 14);
        assert("allowedFeeAssets"@.len() == 16);
        assert("allowed_fee_assets"@.len() == 18);
        assert("fees"@.len() == 4);
        assert("chain_id"@[0] != "accounts"@[0]);
        assert("address_prefixes"@[0] != "ibc_sudo_address"@[0]);
        assert("address_prefixes"@[1] != "allowedFeeAssets"@[1]);
        assert("ibcSudoAddress"@[3] != "ibc_parameters"@[3]);
        assert("ibc_sudo_address"@[0] != "allowedFeeAssets"@[0]);
        if m.address_prefixes is Some {
            AddressPrefixes::lemma_json_roundtrip(m.address_prefixes.unwrap());
        }
        lemma_fold_entry_if(st, m.address_prefixes is Some, "addressPrefixes"@, AddressPrefixes::spec_to_json(m.address_prefixes.unwrap()), Self::step_fn());
    }

    /// Reading the member that the field `accounts` writes sets the field.
    pub proof fn lemma_entry_accounts(m: GenesisAppStateV, st: (GenesisAppStateV, Seq<bool>))
        requires
            st.1.len() == 5,
            !st.1[1],
            st.0.accounts == Seq::<AccountV>::empty(),
        ensures
            fold_entries(st, Self::spec_entry_accounts(m), Self::step_fn()) == Ok::<(GenesisAppStateV, Seq<bool>), JsonErrorV>((GenesisAppStateV { accounts: m.accounts, ..st.0 }, if m.accounts.len() != 0 { st.1.update(1, true) } else { st.1 })),
    {
        reveal_strlit("chainId");
        reveal_strlit("chain_id");
        reveal_strlit("addressPrefixes");
        reveal_strlit("address_prefixes");
        reveal_strlit("accounts");
        reveal_strlit("authoritySudoAddress");
        reveal_strlit("authority_sudo_address");
        reveal_strlit("ibcSudoAddress");
        reveal_strlit("ibc_sudo_address");
        reveal_strlit("ibcRelayerAddresses");
        reveal_strlit("ibc_relayer_addresses");
        reveal_strlit("nativeAssetBaseDenomination");
        reveal_strlit("native_asset_base_denomination");
        reveal_strlit("ibcParameters");
        reveal_strlit("ibc_parameters");
        reveal_strlit("allowedFeeAssets");
        reveal_strlit("allowed_fee_assets");
        reveal_strlit("fees");
        assert("chainId"@.len() == 7);
        assert("chain_id"@.len() == 8);
        assert("addressPrefixes"@.len() == 15);
        assert("address_prefixes"@.len() == 16);
        assert("accounts"@.len() == 8);
        assert("authoritySudoAddress"@.len() == 20);
        assert("authority_sudo_address"@.len() == 22);
        assert("ibcSudoAddress"@.len() == 14);
        assert("ibc_sudo_address"@.len() == 16);
        assert("ibcRelayerAddresses"@.len() == 19);
        assert("ibc_relayer_addresses"@.len() == 21);
        assert("nativeAssetBaseDenomination"@.len() == 27);
        assert("native_asset_base_denomination"@.len() == 30);
        assert("ibcParameters"@.len() == 13);
        assert("ibc_parameters"@.len() == 14);
        assert("allowedFeeAssets"@.len() == 16);
        assert("allowed_fee_assets"@.len() == 18);
        assert("fees"@.len() == 4);
        assert("chain_id"@[0] != "accounts"@[0]);
        assert("address_prefixes"@[0] != "ibc_sudo_address"@[0]);
        assert("address_prefixes"@[1] != "allowedFeeAssets"@[1]);
        assert("ibcSudoAddress"@[3] != "ibc_parameters"@[3]);
        assert("ibc_sudo_address"@[0] != "allowedFeeAssets"@[0]);
        if m.accounts.len() == 0 {
            assert(m.accounts =~= Seq::<AccountV>::empty());
        }
        Account::lemma_list_roundtrip(m.accounts);
        lemma_fold_entry_if(st, m.accounts.len() != 0, "accounts"@, JsonV::Array(m.accounts.map_values(Account::writer())), Self::step_fn());
    }

    /// Reading the member that the field `authority_sudo_address` writes sets the field.
    pub proof fn lemma_entry_authority_sudo_address(m: GenesisAppStateV, st: (GenesisAppStateV, Seq<bool>))
        requires
            st.1.len() == 5,
            st.0.authority_sudo_address is None,
        ensures
            fold_entries(st, Self::spec_entry_authority_sudo_address(m), Self::step_fn()) == Ok::<(GenesisAppStateV, Seq<bool>), JsonErrorV>((GenesisAppStateV { authority_sudo_address: m.authority_sudo_address, ..st.0 }, st.1)),
    {
        reveal_strlit("chainId");
        reveal_strlit("chain_id");
        reveal_strlit("addressPrefixes");
        reveal_strlit("address_prefixes");
        reveal_strlit("accounts");
        reveal_strlit("authoritySudoAddress");
        reveal_strlit("authority_sudo_address");
        reveal_strlit("ibcSudoAddress");
        reveal_strlit("ibc_sudo_address");
        reveal_strlit("ibcRelayerAddresses");
        reveal_strlit("ibc_relayer_addresses");
        reveal_strlit("nativeAssetBaseDenomination");
        reveal_strlit("native_asset_base_denomination");
        reveal_strlit("ibcParameters");
        reveal_strlit("ibc_parameters");
        reveal_strlit("allowedFeeAssets");
        reveal_strlit("allowed_fee_assets");
        reveal_strlit("fees");
        assert("chainId"@.len() == 7);
        assert("chain_id"@.len() == 8);
        assert("addressPrefixes"@.len() == 15);
        assert("address_prefixes"@.len() == 16);
        assert("accounts"@.len() == 8);
        assert("authoritySudoAddress"@.len() == 20);
        assert("authority_sudo_address"@.len() == 22);
        assert("ibcSudoAddress"@.len() == 14);
        assert("ibc_sudo_address"@.len() == 16);
        assert("ibcRelayerAddresses"@.len() == 19);
        assert("ibc_relayer_addresses"@.len() == 21);
        assert("nativeAssetBaseDenomination"@.len() == 27);
        assert("native_asset_base_denomination"@.len() == 30);
        assert("ibcParameters"@.len() == 13);
        assert("ibc_parameters"@.len() == 14);
        assert("allowedFeeAssets"@.len() == 16);
        assert("allowed_fee_assets"@.len() == 18);
        assert("fees"@.len() == 4);
        assert("chain_id"@[0] != "accounts"@[0]);
        assert("address_prefixes"@[0] != "ibc_sudo_address"@[0]);
        assert("address_prefixes"@[1] != "allowedFeeAssets"@[1]);
        assert("ibcSudoAddress"@[3] != "ibc_parameters"@[3]);
        assert("ibc_sudo_address"@[0] != "allowedFeeAssets"@[0]);
        lemma_fold_entry_if(st, m.authority_sudo_address is Some, "authoritySudoAddress"@, JsonV::Object(m.authority_sudo_address.unwrap()), Self::step_fn());
    }

    /// Reading the member that the field `ibc_sudo_address` writes sets the field.
    pub proof fn lemma_entry_ibc_sudo_address(m: GenesisAppStateV, st: (GenesisAppStateV, Seq<bool>))
        requires
            st.1.len() == 5,
            st.0.ibc_sudo_address is None,
        ensures
            fold_entries(st, Self::spec_entry_ibc_sudo_address(m), Self::step_fn()) == Ok::<(GenesisAppStateV, Seq<bool>), JsonErrorV>((GenesisAppStateV { ibc_sudo_address: m.ibc_sudo_address, ..st.0 }, st.1)),
    {
        reveal_strlit("chainId");
        reveal_strlit("chain_id");
        reveal_strlit("addressPrefixes");
        reveal_strlit("address_prefixes");
        reveal_strlit("accounts");
        reveal_strlit("authoritySudoAddress");
        reveal_strlit("authority_sudo_address");
        reveal_strlit("ibcSudoAddress");
        reveal_strlit("ibc_sudo_address");
        reveal_strlit("ibcRelayerAddresses");
        reveal_strlit("ibc_relayer_addresses");
        reveal_strlit("nativeAssetBaseDenomination");
        reveal_strlit("native_asset_base_denomination");
        reveal_strlit("ibcParameters");
        reveal_strlit("ibc_parameters");
        reveal_strlit("allowedFeeAssets");
        reveal_strlit("allowed_fee_assets");
        reveal_strlit("fees");
        assert("chainId"@.len() == 7);
        assert("chain_id"@.len() == 8);
        assert("addressPrefixes"@.len() == 15);
        assert("address_prefixes"@.len() == 16);
        assert("accounts"@.len() == 8);
        assert("authoritySudoAddress"@.len() == 20);
        assert("authority_sudo_address"@.len() == 22);
        assert("ibcSudoAddress"@.len() == 14);
        assert("ibc_sudo_address"@.len() == 16);
        assert("ibcRelayerAddresses"@.len() == 19);
        assert("ibc_relayer_addresses"@.len() == 21);
        assert("nativeAssetBaseDenomination"@.len() == 27);
        assert("native_asset_base_denomination"@.len() == 30);
        assert("ibcParameters"@.len() == 13);
        assert("ibc_parameters"@.len() == 14);
        assert("allowedFeeAssets"@.len() == 16);
        assert("allowed_fee_assets"@.len() == 18);
        assert("fees"@.len() == 4);
        assert("chain_id"@[0] != "accounts"@[0]);
        assert("address_prefixes"@[0] != "ibc_sudo_address"@[0]);
        assert("address_prefixes"@[1] != "allowedFeeAssets"@[1]);
        assert("ibcSudoAddress"@[3] != "ibc_parameters"@[3]);
        assert("ibc_sudo_address"@[0] != "allowedFeeAssets"@[0]);
        lemma_fold_entry_if(st, m.ibc_sudo_address is Some, "ibcSudoAddress"@, JsonV::Object(m.ibc_sudo_address.unwrap()), Self::step_fn());
    }

    /// Reading the member that the field `ibc_relayer_addresses` writes sets the field.
    pub proof fn lemma_entry_ibc_relayer_addresses(m: GenesisAppStateV, st: (GenesisAppStateV, Seq<bool>))
        requires
            st.1.len() == 5,
            !st.1[2],
            st.0.ibc_relayer_addresses == Seq::<Seq<(Seq<char>, JsonV)>>::empty(),
        ensures
            fold_entries(st, Self::spec_entry_ibc_relayer_addresses(m), Self::step_fn()) == Ok::<(GenesisAppStateV, Seq<bool>), JsonErrorV>((GenesisAppStateV { ibc_relayer_addresses: m.ibc_relayer_addresses, ..st.0 }, if m.ibc_relayer_addresses.len() != 0 { st.1.update(2, true) } else { st.1 })),
    {
        reveal_strlit("chainId");
        reveal_strlit("chain_id");
        reveal_strlit("addressPrefixes");
        reveal_strlit("address_prefixes");
        reveal_strlit("accounts");
        reveal_strlit("authoritySudoAddress");
        reveal_strlit("authority_sudo_address");
        reveal_strlit("ibcSudoAddress");
        reveal_strlit("ibc_sudo_address");
        reveal_strlit("ibcRelayerAddresses");
        reveal_strlit("ibc_relayer_addresses");
        reveal_strlit("nativeAssetBaseDenomination");
        reveal_strlit("native_asset_base_denomination");
        reveal_strlit("ibcParameters");
        reveal_strlit("ibc_parameters");
        reveal_strlit("allowedFeeAssets");
        reveal_strlit("allowed_fee_assets");
        reveal_strlit("fees");
        assert("chainId"@.len() == 7);
        assert("chain_id"@.len() == 8);
        assert("addressPrefixes"@.len() == 15);
        assert("address_prefixes"@.len() == 16);
        assert("accounts"@.len() == 8);
        assert("authoritySudoAddress"@.len() == 20);
        assert("authority_sudo_address"@.len() == 22);
        assert("ibcSudoAddress"@.len() == 14);
        assert("ibc_sudo_address"@.len() == 16);
        assert("ibcRelayerAddresses"@.len() == 19);
        assert("ibc_relayer_addresses"@.len() == 21);
        assert("nativeAssetBaseDenomination"@.len() == 27);
        assert("native_asset_base_denomination"@.len() == 30);
        assert("ibcParameters"@.len() == 13);
        assert("ibc_parameters"@.len() == 14);
        assert("allowedFeeAssets"@.len() == 16);
        assert("allowed_fee_assets"@.len() == 18);
        assert("fees"@.len() == 4);
        assert("chain_id"@[0] != "accounts"@[0]);
        assert("address_prefixes"@[0] != "ibc_sudo_address"@[0]);
        assert("address_prefixes"@[1] != "allowedFeeAssets"@[1]);
        assert("ibcSudoAddress"@[3] != "ibc_parameters"@[3]);
        assert("ibc_sudo_address"@[0] != "allowedFeeAssets"@[0]);
        if m.ibc_relayer_addresses.len() == 0 {
            assert(m.ibc_relayer_addresses =~= Seq::<Seq<(Seq<char>, JsonV)>>::empty());
        }
        assert forall|i: int| 0 <= i < m.ibc_relayer_addresses.len() implies embedded_reader()(embedded_writer()(#[trigger] m.ibc_relayer_addresses[i])) == Ok::<Seq<(Seq<char>, JsonV)>, JsonErrorV>(m.ibc_relayer_addresses[i]) by {}
        lemma_read_list_roundtrip(m.ibc_relayer_addresses, embedded_writer(), embedded_reader());
        lemma_fold_entry_if(st, m.ibc_relayer_addresses.len() != 0, "ibcRelayerAddresses"@, JsonV::Array(m.ibc_relayer_addresses.map_values(embedded_writer())), Self::step_fn());
    }

    /// Reading the member that the field `native_asset_base_denomination` writes sets the field.
    pub proof fn lemma_entry_native_asset_base_denomination(m: GenesisAppStateV, st: (GenesisAppStateV, Seq<bool>))
        requires
            st.1.len() == 5,
            !st.1[3],
            st.0.native_asset_base_denomination == Seq::<char>::empty(),
        ensures
            fold_entries(st, Self::spec_entry_native_asset_base_denomination(m), Self::step_fn()) == Ok::<(GenesisAppStateV, Seq<bool>), JsonErrorV>((GenesisAppStateV { native_asset_base_denomination: m.native_asset_base_denomination, ..st.0 }, if m.native_asset_base_denomination.len() != 0 { st.1.update(3, true) } else { st.1 })),
    {
        reveal_strlit("chainId");
        reveal_strlit("chain_id");
        reveal_strlit("addressPrefixes");
        reveal_strlit("address_prefixes");
        reveal_strlit("accounts");
        reveal_strlit("authoritySudoAddress");
        reveal_strlit("authority_sudo_address");
        reveal_strlit("ibcSudoAddress");
        reveal_strlit("ibc_sudo_address");
        reveal_strlit("ibcRelayerAddresses");
        reveal_strlit("ibc_relayer_addresses");
        reveal_strlit("nativeAssetBaseDenomination");
        reveal_strlit("native_asset_base_denomination");
        reveal_strlit("ibcParameters");
        reveal_strlit("ibc_parameters");
        reveal_strlit("allowedFeeAssets");
        reveal_strlit("allowed_fee_assets");
        reveal_strlit("fees");
        assert("chainId"@.len() == 7);
        assert("chain_id"@.len() == 8);
        assert("addressPrefixes"@.len() == 15);
        assert("address_prefixes"@.len() == 16);
        assert("accounts"@.len() == 8);
        assert("authoritySudoAddress"@.len() == 20);
        assert("authority_sudo_address"@.len() == 22);
        assert("ibcSudoAddress"@.len() == 14);
        assert("ibc_sudo_address"@.len() == 16);
        assert("ibcRelayerAddresses"@.len() == 19);
        assert("ibc_relayer_addresses"@.len() == 21);
        assert("nativeAssetBaseDenomination"@.len() == 27);
        assert("native_asset_base_denomination"@.len() == 30);
        assert("ibcParameters"@.len() == 13);
        assert("ibc_parameters"@.len() == 14);
        assert("allowedFeeAssets"@.len() == 16);
        assert("allowed_fee_assets"@.len() == 18);
        assert("fees"@.len() == 4);
        assert("chain_id"@[0] != "accounts"@[0]);
        assert("address_prefixes"@[0] != "ibc_sudo_address"@[0]);
        assert("address_prefixes"@[1] != "allowedFeeAssets"@[1]);
        assert("ibcSudoAddress"@[3] != "ibc_parameters"@[3]);
        assert("ibc_sudo_address"@[0] != "allowedFeeAssets"@[0]);
        if m.native_asset_base_denomination.len() == 0 {
            assert(m.native_asset_base_denomination =~= Seq::<char>::empty());
        }
        lemma_fold_entry_if(st, m.native_asset_base_denomination.len() != 0, "nativeAssetBaseDenomination"@, JsonV::Str(m.native_asset_base_denomination), Self::step_fn());
    }

    /// Reading the member that the field `ibc_parameters` writes sets the field.
    pub proof fn lemma_entry_ibc_parameters(m: GenesisAppStateV, st: (GenesisAppStateV, Seq<bool>))
        requires
            st.1.len() == 5,
            st.0.ibc_parameters is None,
        ensures
            fold_entries(st, Self::spec_entry_ibc_parameters(m), Self::step_fn()) == Ok::<(GenesisAppStateV, Seq<bool>), JsonErrorV>((GenesisAppStateV { ibc_parameters: m.ibc_parameters, ..st.0 }, st.1)),
    {
        reveal_strlit("chainId");
        reveal_strlit("chain_id");
        reveal_strlit("addressPrefixes");
        reveal_strlit("address_prefixes");
        reveal_strlit("accounts");
        reveal_strlit("authoritySudoAddress");
        reveal_strlit("authority_sudo_address");
        reveal_strlit("ibcSudoAddress");
        reveal_strlit("ibc_sudo_address");
        reveal_strlit("ibcRelayerAddresses");
        reveal_strlit("ibc_relayer_addresses");
        reveal_strlit("nativeAssetBaseDenomination");
        reveal_strlit("native_asset_base_denomination");
        reveal_strlit("ibcParameters");
        reveal_strlit("ibc_parameters");
        reveal_strlit("allowedFeeAssets");
        reveal_strlit("allowed_fee_assets");
        reveal_strlit("fees");
        assert("chainId"@.len() == 7);
        assert("chain_id"@.len() == 8);
        assert("addressPrefixes"@.len() == 15);
        assert("address_prefixes"@.len() == 16);
        assert("accounts"@.len() == 8);
        assert("authoritySudoAddress"@.len() == 20);
        assert("authority_sudo_address"@.len() == 22);
        assert("ibcSudoAddress"@.len() == 14);
        assert("ibc_sudo_address"@.len() == 16);
        assert("ibcRelayerAddresses"@.len() == 19);
        assert("ibc_relayer_addresses"@.len() == 21);
        assert("nativeAssetBaseDenomination"@.len() == 27);
        assert("native_asset_base_denomination"@.len() == 30);
        assert("ibcParameters"@.len() == 13);
        assert("ibc_parameters"@.len() == 14);
        assert("allowedFeeAssets"@.len() == 16);
        assert("allowed_fee_assets"@.len() == 18);
        assert("fees"@.len() == 4);
        assert("chain_id"@[0] != "accounts"@[0]);
        assert("address_prefixes"@[0] != "ibc_sudo_address"@[0]);
        assert("address_prefixes"@[1] != "allowedFeeAssets"@[1]);
        assert("ibcSudoAddress"@[3] != "ibc_parameters"@[3]);
        assert("ibc_sudo_address"@[0] != "allowedFeeAssets"@[0]);
        if m.ibc_parameters is Some {
            IbcParameters::lemma_json_roundtrip(m.ibc_parameters.unwrap());
        }
        lemma_fold_entry_if(st, m.ibc_parameters is Some, "ibcParameters"@, IbcParameters::spec_to_json(m.ibc_parameters.unwrap()), Self::step_fn());
    }

    /// Reading the member that the field `allowed_fee_assets` writes sets the field.
    pub proof fn lemma_entry_allowed_fee_assets(m: GenesisAppStateV, st: (GenesisAppStateV, Seq<bool>))
        requires
            st.1.len() == 5,
            !st.1[4],
            st.0.allowed_fee_assets == Seq::<Seq<char>>::empty(),
        ensures
            fold_entries(st, Self::spec_entry_allowed_fee_assets(m), Self::step_fn()) == Ok::<(GenesisAppStateV, Seq<bool>), JsonErrorV>((GenesisAppStateV { allowed_fee_assets: m.allowed_fee_assets, ..st.0 }, if m.allowed_fee_assets.len() != 0 { st.1.update(4, true) } else { st.1 })),
    {
        reveal_strlit("chainId");
        reveal_strlit("chain_id");
        reveal_strlit("addressPrefixes");
        reveal_strlit("address_prefixes");
        reveal_strlit("accounts");
        reveal_strlit("authoritySudoAddress");
        reveal_strlit("authority_sudo_address");
        reveal_strlit("ibcSudoAddress");
        reveal_strlit("ibc_sudo_address");
        reveal_strlit("ibcRelayerAddresses");
        reveal_strlit("ibc_relayer_addresses");
        reveal_strlit("nativeAssetBaseDenomination");
        reveal_strlit("native_asset_base_denomination");
        reveal_strlit("ibcParameters");
        reveal_strlit("ibc_parameters");
        reveal_strlit("allowedFeeAssets");
        reveal_strlit("allowed_fee_assets");
        reveal_strlit("fees");
        assert("chainId"@.len() == 7);
        assert("chain_id"@.len() == 8);
        assert("addressPrefixes"@.len() == 15);
        assert("address_prefixes"@.len() == 16);
        assert("accounts"@.len() == 8);
        assert("authoritySudoAddress"@.len() == 20);
        assert("authority_sudo_address"@.len() == 22);
        assert("ibcSudoAddress"@.len() == 14);
        assert("ibc_sudo_address"@.len() == 16);
        assert("ibcRelayerAddresses"@.len() == 19);
        assert("ibc_relayer_addresses"@.len() == 21);
        assert("nativeAssetBaseDenomination"@.len() == 27);
        assert("native_asset_base_denomination"@.len() == 30);
        assert("ibcParameters"@.len() == 13);
        assert("ibc_parameters"@.len() == 14);
        assert("allowedFeeAssets"@.len() == 16);
        assert("allowed_fee_assets"@.len() == 18);
        assert("fees"@.len() == 4);
        assert("chain_id"@[0] != "accounts"@[0]);
        assert("address_prefixes"@[0] != "ibc_sudo_address"@[0]);
        assert("address_prefixes"@[1] != "allowedFeeAssets"@[1]);
        assert("ibcSudoAddress"@[3] != "ibc_parameters"@[3]);
        assert("ibc_sudo_address"@[0] != "allowedFeeAssets"@[0]);
        if m.allowed_fee_assets.len() == 0 {
            assert(m.allowed_fee_assets =~= Seq::<Seq<char>>::empty());
        }
        assert forall|i: int| 0 <= i < m.allowed_fee_assets.len() implies string_reader()(string_writer()(#[trigger] m.allowed_fee_assets[i])) == Ok::<Seq<char>, JsonErrorV>(m.allowed_fee_assets[i]) by {}
        lemma_read_list_roundtrip(m.allowed_fee_assets, string_writer(), string_reader());
        lemma_fold_entry_if(st, m.allowed_fee_assets.len() != 0, "allowedFeeAssets"@, JsonV::Array(m.allowed_fee_assets.map_values(string_writer())), Self::step_fn());
    }

    /// Reading the member that the field `fees` writes sets the field.
    pub proof fn lemma_entry_fees(m: GenesisAppStateV, st: (GenesisAppStateV, Seq<bool>))
        requires
            st.1.len() == 5,
            st.0.fees is None,
        ensures
            fold_entries(st, Self::spec_entry_fees(m), Self::step_fn()) == Ok::<(GenesisAppStateV, Seq<bool>), JsonErrorV>((GenesisAppStateV { fees: m.fees, ..st.0 }, st.1)),
    {
        reveal_strlit("chainId");
        reveal_strlit("chain_id");
        reveal_strlit("addressPrefixes");
        reveal_strlit("address_prefixes");
        reveal_strlit("accounts");
        reveal_strlit("authoritySudoAddress");
        reveal_strlit("authority_sudo_address");
        reveal_strlit("ibcSudoAddress");
        reveal_strlit("ibc_sudo_address");
        reveal_strlit("ibcRelayerAddresses");
        reveal_strlit("ibc_relayer_addresses");
        reveal_strlit("nativeAssetBaseDenomination");
        reveal_strlit("native_asset_base_denomination");
        reveal_strlit("ibcParameters");
        reveal_strlit("ibc_parameters");
        reveal_strlit("allowedFeeAssets");
        reveal_strlit("allowed_fee_assets");
        reveal_strlit("fees");
        assert("chainId"@.len() == 7);
        assert("chain_id"@.len() == 8);
        assert("addressPrefixes"@.len() == 15);
        assert("address_prefixes"@.len() == 16);
        assert("accounts"@.len() == 8);
        assert("authoritySudoAddress"@.len() == 20);
        assert("authority_sudo_address"@.len() == 22);
        assert("ibcSudoAddress"@.len() == 14);
        assert("ibc_sudo_address"@.len() == 16);
        assert("ibcRelayerAddresses"@.len() == 19);
        assert("ibc_relayer_addresses"@.len() == 21);
        assert("nativeAssetBaseDenomination"@.len() == 27);
        assert("native_asset_base_denomination"@.len() == 30);
        assert("ibcParameters"@.len() == 13);
        assert("ibc_parameters"@.len() == 14);
        assert("allowedFeeAssets"@.len() == 16);
        assert("allowed_fee_assets"@.len() == 18);
        assert("fees"@.len() == 4);
        assert("chain_id"@[0] != "accounts"@[0]);
        assert("address_prefixes"@[0] != "ibc_sudo_address"@[0]);
        assert("address_prefixes"@[1] != "allowedFeeAssets"@[1]);
        assert("ibcSudoAddress"@[3] != "ibc_parameters"@[3]);
        assert("ibc_sudo_address"@[0] != "allowedFeeAssets"@[0]);
        if m.fees is Some {
            GenesisFees::lemma_json_roundtrip(m.fees.unwrap());
        }
        lemma_fold_entry_if(st, m.fees is Some, "fees"@, GenesisFees::spec_to_json(m.fees.unwrap()), Self::step_fn());
    }

    /// The JSON spelling of a key: the protobuf name of a field becomes its JSON name;
    /// a JSON name, and any key that names no field, is left as it is.
    pub open spec fn spec_json_key(key: Seq<char>) -> Seq<char> {
        if key == "chainId"@ || key == "chain_id"@ {
            "chainId"@
        } else if key == "addressPrefixes"@ || key == "address_prefixes"@ {
            "addressPrefixes"@
        } else if key == "accounts"@ {
            "accounts"@
        } else if key == "authoritySudoAddress"@ || key == "authority_sudo_address"@ {
            "authoritySudoAddress"@
        } else if key == "ibcSudoAddress"@ || key == "ibc_sudo_address"@ {
            "ibcSudoAddress"@
        } else if key == "ibcRelayerAddresses"@ || key == "ibc_relayer_addresses"@ {
            "ibcRelayerAddresses"@
        } else if key == "nativeAssetBaseDenomination"@ || key == "native_asset_base_denomination"@ {
            "nativeAssetBaseDenomination"@
        } else if key == "ibcParameters"@ || key == "ibc_parameters"@ {
            "ibcParameters"@
        } else if key == "allowedFeeAssets"@ || key == "allowed_fee_assets"@ {
            "allowedFeeAssets"@
        } else if key == "fees"@ {
            "fees"@
        } else {
            key
        }
    }

    /// [`Self::spec_json_key`] as a function value.
    pub open spec fn json_key_fn() -> spec_fn(Seq<char>) -> Seq<char> {
        |key: Seq<char>| Self::spec_json_key(key)
    }

    /// One member is read alike whichever spelling its key has.
    pub proof fn lemma_step_json_key(st: (GenesisAppStateV, Seq<bool>), key: Seq<char>, v: JsonV)
        ensures Self::spec_step(st, key, v) == Self::spec_step(st, Self::spec_json_key(key), v),
    {
        reveal_strlit("chainId");
        reveal_strlit("chain_id");
        reveal_strlit("addressPrefixes");
        reveal_strlit("address_prefixes");
        reveal_strlit("accounts");
        reveal_strlit("authoritySudoAddress");
        reveal_strlit("authority_sudo_address");
        reveal_strlit("ibcSudoAddress");
        reveal_strlit("ibc_sudo_address");
        reveal_strlit("ibcRelayerAddresses");
        reveal_strlit("ibc_relayer_addresses");
        reveal_strlit("nativeAssetBaseDenomination");
        reveal_strlit("native_asset_base_denomination");
        reveal_strlit("ibcParameters");
        reveal_strlit("ibc_parameters");
        reveal_strlit("allowedFeeAssets");
        reveal_strlit("allowed_fee_assets");
        reveal_strlit("fees");
        assert("chainId"@.len() == 7);
        assert("chain_id"@.len() == 8);
        assert("addressPrefixes"@.len() == 15);
        assert("address_prefixes"@.len() == 16);
        assert("accounts"@.len() == 8);
        assert("authoritySudoAddress"@.len() == 20);
        assert("authority_sudo_address"@.len() == 22);
        assert("ibcSudoAddress"@.len() == 14);
        assert("ibc_sudo_address"@.len() == 16);
        assert("ibcRelayerAddresses"@.len() == 19);
        assert("ibc_relayer_addresses"@.len() == 21);
        assert("nativeAssetBaseDenomination"@.len() == 27);
        assert("native_asset_base_denomination"@.len() == 30);
        assert("ibcParameters"@.len() == 13);
        assert("ibc_parameters"@.len() == 14);
        assert("allowedFeeAssets"@.len() == 16);
        assert("allowed_fee_assets"@.len() == 18);
        assert("fees"@.len() == 4);
        assert("chain_id"@[0] != "accounts"@[0]);
        assert("address_prefixes"@[0] != "ibc_sudo_address"@[0]);
        assert("address_prefixes"@[1] != "allowedFeeAssets"@[1]);
        assert("ibcSudoAddress"@[3] != "ibc_parameters"@[3]);
        assert("ibc_sudo_address"@[0] != "allowedFeeAssets"@[0]);
        if key == "chain_id"@ {
            assert(Self::spec_json_key(key) == "chainId"@);
        }
        if key == "address_prefixes"@ {
            assert(Self::spec_json_key(key) == "addressPrefixes"@);
        }
        if key == "authority_sudo_address"@ {
            assert(Self::spec_json_key(key) == "authoritySudoAddress"@);
        }
        if key == "ibc_sudo_address"@ {
            assert(Self::spec_json_key(key) == "ibcSudoAddress"@);
        }
        if key == "ibc_relayer_addresses"@ {
            assert(Self::spec_json_key(key) == "ibcRelayerAddresses"@);
        }
        if key == "native_asset_base_denomination"@ {
            assert(Self::spec_json_key(key) == "nativeAssetBaseDenomination"@);
        }
        if key == "ibc_parameters"@ {
            assert(Self::spec_json_key(key) == "ibcParameters"@);
        }
        if key == "allowed_fee_assets"@ {
            assert(Self::spec_json_key(key) == "allowedFeeAssets"@);
        }
    }

    /// Reading an object gives the same result whichever spelling each of its keys has:
    /// two objects whose members hold the same values, in the same order, under keys of
    /// the same JSON spelling describe the same message, or are refused with the same error.
    pub proof fn lemma_key_spelling(es1: Seq<(Seq<char>, JsonV)>, es2: Seq<(Seq<char>, JsonV)>)
        requires
            es1.len() == es2.len(),
            forall|i: int| #![trigger es1[i], es2[i]] 0 <= i < es1.len() ==> es1[i].1 == es2[i].1 && Self::spec_json_key(es1[i].0) == Self::spec_json_key(es2[i].0),
        ensures Self::spec_from_json(JsonV::Object(es1)) == Self::spec_from_json(JsonV::Object(es2)),
    {
        assert forall|s: (GenesisAppStateV, Seq<bool>), k: Seq<char>, v: JsonV|
            #![trigger Self::step_fn()(s, k, v), Self::json_key_fn()(k)]
            Self::step_fn()(s, k, v) == Self::step_fn()(s, Self::json_key_fn()(k), v) by {
            Self::lemma_step_json_key(s, k, v);
        }
        lemma_fold_same_keys(Self::spec_start(), es1, es2, Self::step_fn(), Self::json_key_fn());
    }

    /// The keys of the object that the message writes: the JSON names of the fields that
    /// do not hold their default (for a oneof, the JSON name of the member set), in the
    /// order of the fields.
    pub open spec fn spec_written_keys(m: GenesisAppStateV) -> Seq<Seq<char>> {
        key_if(m.chain_id.len() != 0, "chainId"@)
            + key_if(m.address_prefixes is Some, "addressPrefixes"@)
            + key_if(m.accounts.len() != 0, "accounts"@)
            + key_if(m.authority_sudo_address is Some, "authoritySudoAddress"@)
            + key_if(m.ibc_sudo_address is Some, "ibcSudoAddress"@)
            + key_if(m.ibc_relayer_addresses.len() != 0, "ibcRelayerAddresses"@)
            + key_if(m.native_asset_base_denomination.len() != 0, "nativeAssetBaseDenomination"@)
            + key_if(m.ibc_parameters is Some, "ibcParameters"@)
            + key_if(m.allowed_fee_assets.len() != 0, "allowedFeeAssets"@)
            + key_if(m.fees is Some, "fees"@)
    }

    /// The object that the message writes has exactly the keys of
    /// [`Self::spec_written_keys`], in that order.
    pub proof fn lemma_written_keys(m: GenesisAppStateV)
        ensures
            Self::spec_to_json(m) == JsonV::Object(Self::spec_entries(m)),
            entry_keys(Self::spec_entries(m)) == Self::spec_written_keys(m),
    {
        lemma_entry_keys_if(m.chain_id.len() != 0, "chainId"@, JsonV::Str(m.chain_id));
        lemma_entry_keys_append(Self::spec_entry_chain_id(m), m.address_prefixes is Some, "addressPrefixes"@, AddressPrefixes::spec_to_json(m.address_prefixes.unwrap()));
        lemma_entry_keys_append(Self::spec_entry_chain_id(m) + Self::spec_entry_address_prefixes(m), m.accounts.len() != 0, "accounts"@, JsonV::Array(m.accounts.map_values(Account::writer())));
        lemma_entry_keys_append(Self::spec_entry_chain_id(m) + Self::spec_entry_address_prefixes(m) + Self::spec_entry_accounts(m), m.authority_sudo_address is Some, "authoritySudoAddress"@, JsonV::Object(m.authority_sudo_address.unwrap()));
        lemma_entry_keys_append(Self::spec_entry_chain_id(m) + Self::spec_entry_address_prefixes(m) + Self::spec_entry_accounts(m) + Self::spec_entry_authority_sudo_address(m), m.ibc_sudo_address is Some, "ibcSudoAddress"@, JsonV::Object(m.ibc_sudo_address.unwrap()));
        lemma_entry_keys_append(Self::spec_entry_chain_id(m) + Self::spec_entry_address_prefixes(m) + Self::spec_entry_accounts(m) + Self::spec_entry_authority_sudo_address(m) + Self::spec_entry_ibc_sudo_address(m), m.ibc_relayer_addresses.len() != 0, "ibcRelayerAddresses"@, JsonV::Array(m.ibc_relayer_addresses.map_values(embedded_writer())));
        lemma_entry_keys_append(Self::spec_entry_chain_id(m) + Self::spec_entry_address_prefixes(m) + Self::spec_entry_accounts(m) + Self::spec_entry_authority_sudo_address(m) + Self::spec_entry_ibc_sudo_address(m) + Self::spec_entry_ibc_relayer_addresses(m), m.native_asset_base_denomination.len() != 0, "nativeAssetBaseDenomination"@, JsonV::Str(m.native_asset_base_denomination));
        lemma_entry_keys_append(Self::spec_entry_chain_id(m) + Self::spec_entry_address_prefixes(m) + Self::spec_entry_accounts(m) + Self::spec_entry_authority_sudo_address(m) + Self::spec_entry_ibc_sudo_address(m) + Self::spec_entry_ibc_relayer_addresses(m) + Self::spec_entry_native_asset_base_denomination(m), m.ibc_parameters is Some, "ibcParameters"@, IbcParameters::spec_to_json(m.ibc_parameters.unwrap()));
        lemma_entry_keys_append(Self::spec_entry_chain_id(m) + Self::spec_entry_address_prefixes(m) + Self::spec_entry_accounts(m) + Self::spec_entry_authority_sudo_address(m) + Self::spec_entry_ibc_sudo_address(m) + Self::spec_entry_ibc_relayer_addresses(m) + Self::spec_entry_native_asset_base_denomination(m) + Self::spec_entry_ibc_parameters(m), m.allowed_fee_assets.len() != 0, "allowedFeeAssets"@, JsonV::Array(m.allowed_fee_assets.map_values(string_writer())));
        lemma_entry_keys_append(Self::spec_entry_chain_id(m) + Self::spec_entry_address_prefixes(m) + Self::spec_entry_accounts(m) + Self::spec_entry_authority_sudo_address(m) + Self::spec_entry_ibc_sudo_address(m) + Self::spec_entry_ibc_relayer_addresses(m) + Self::spec_entry_native_asset_base_denomination(m) + Self::spec_entry_ibc_parameters(m) + Self::spec_entry_allowed_fee_assets(m), m.fees is Some, "fees"@, GenesisFees::spec_to_json(m.fees.unwrap()));
    }

    /// Whether the field whose JSON name is `name` holds its default in `m`; for a member
    /// of a oneof, whether the oneof is set to another member or unset. `true` for a name
    /// that names no field.
    pub open spec fn spec_holds_default(m: GenesisAppStateV, name: Seq<char>) -> bool {
        if name == "chainId"@ {
            m.chain_id == Seq::<char>::empty()
        } else if name == "addressPrefixes"@ {
            m.address_prefixes is None
        } else if name == "accounts"@ {
            m.accounts == Seq::<AccountV>::empty()
        } else if name == "authoritySudoAddress"@ {
            m.authority_sudo_address is None
        } else if name == "ibcSudoAddress"@ {
            m.ibc_sudo_address is None
        } else if name == "ibcRelayerAddresses"@ {
            m.ibc_relayer_addresses == Seq::<Seq<(Seq<char>, JsonV)>>::empty()
        } else if name == "nativeAssetBaseDenomination"@ {
            m.native_asset_base_denomination == Seq::<char>::empty()
        } else if name == "ibcParameters"@ {
            m.ibc_parameters is None
        } else if name == "allowedFeeAssets"@ {
            m.allowed_fee_assets == Seq::<Seq<char>>::empty()
        } else if name == "fees"@ {
            m.fees is None
        } else {
            true
        }
    }

    /// Whether reading `v` for the field whose JSON name is `name` leaves the field at
    /// its default: `null`, for a field that takes it (a message field, a member of a
    /// oneof); nothing, for any other field. `true` for a name that names no field.
    pub open spec fn spec_leaves_default(name: Seq<char>, v: JsonV) -> bool {
        if name == "chainId"@ {
            false
        } else if name == "addressPrefixes"@ {
            v is Null
        } else if name == "accounts"@ {
            false
        } else if name == "authoritySudoAddress"@ {
            v is Null
        } else if name == "ibcSudoAddress"@ {
            v is Null
        } else if name == "ibcRelayerAddresses"@ {
            false
        } else if name == "nativeAssetBaseDenomination"@ {
            false
        } else if name == "ibcParameters"@ {
            v is Null
        } else if name == "allowedFeeAssets"@ {
            false
        } else if name == "fees"@ {
            v is Null
        } else {
            true
        }
    }

    /// Reading one member keeps a field at its default unless the key names the field
    /// and the value does not leave it there.
    pub proof fn lemma_step_keeps_default(st: (GenesisAppStateV, Seq<bool>), key: Seq<char>, v: JsonV, name: Seq<char>)
        requires
            Self::spec_holds_default(st.0, name),
            Self::spec_json_key(key) == name ==> Self::spec_leaves_default(name, v),
        ensures
            Self::spec_step(st, key, v) is Ok ==> Self::spec_holds_default(Self::spec_step(st, key, v)->Ok_0.0, name),
    {
        reveal_strlit("chainId");
        reveal_strlit("chain_id");
        reveal_strlit("addressPrefixes");
        reveal_strlit("address_prefixes");
        reveal_strlit("accounts");
        reveal_strlit("authoritySudoAddress");
        reveal_strlit("authority_sudo_address");
        reveal_strlit("ibcSudoAddress");
        reveal_strlit("ibc_sudo_address");
        reveal_strlit("ibcRelayerAddresses");
        reveal_strlit("ibc_relayer_addresses");
        reveal_strlit("nativeAssetBaseDenomination");
        reveal_strlit("native_asset_base_denomination");
        reveal_strlit("ibcParameters");
        reveal_strlit("ibc_parameters");
        reveal_strlit("allowedFeeAssets");
        reveal_strlit("allowed_fee_assets");
        reveal_strlit("fees");
        assert("chainId"@.len() == 7);
        assert("chain_id"@.len() == 8);
        assert("addressPrefixes"@.len() == 15);
        assert("address_prefixes"@.len() == 16);
        assert("accounts"@.len() == 8);
        assert("authoritySudoAddress"@.len() == 20);
        assert("authority_sudo_address"@.len() == 22);
        assert("ibcSudoAddress"@.len() == 14);
        assert("ibc_sudo_address"@.len() == 16);
        assert("ibcRelayerAddresses"@.len() == 19);
        assert("ibc_relayer_addresses"@.len() == 21);
        assert("nativeAssetBaseDenomination"@.len() == 27);
        assert("native_asset_base_denomination"@.len() == 30);
        assert("ibcParameters"@.len() == 13);
        assert("ibc_parameters"@.len() == 14);
        assert("allowedFeeAssets"@.len() == 16);
        assert("allowed_fee_assets"@.len() == 18);
        assert("fees"@.len() == 4);
        assert("chain_id"@[0] != "accounts"@[0]);
        assert("address_prefixes"@[0] != "ibc_sudo_address"@[0]);
        assert("address_prefixes"@[1] != "allowedFeeAssets"@[1]);
        assert("ibcSudoAddress"@[3] != "ibc_parameters"@[3]);
        assert("ibc_sudo_address"@[0] != "allowedFeeAssets"@[0]);
        Self::lemma_step_json_key(st, key, v);
    }

    /// A field whose key appears in no member of an object, or only with values that
    /// leave it at its default (`null`, for a field that takes it), holds its default in
    /// the message that the object describes.
    pub proof fn lemma_absent_default(es: Seq<(Seq<char>, JsonV)>, name: Seq<char>)
        requires
            forall|i: int| 0 <= i < es.len() ==> (Self::spec_json_key((#[trigger] es[i]).0) == name
                ==> Self::spec_leaves_default(name, es[i].1)),
        ensures
            Self::spec_from_json(JsonV::Object(es)) is Ok
                ==> Self::spec_holds_default(Self::spec_from_json(JsonV::Object(es))->Ok_0, name),
    {
        let inv = |s: (GenesisAppStateV, Seq<bool>)| Self::spec_holds_default(s.0, name);
        let allowed = |k: Seq<char>, v: JsonV| Self::spec_json_key(k) == name ==> Self::spec_leaves_default(name, v);
        assert forall|s: (GenesisAppStateV, Seq<bool>), k: Seq<char>, v: JsonV| #![trigger Self::step_fn()(s, k, v)]
            inv(s) && allowed(k, v) && Self::step_fn()(s, k, v) is Ok implies inv(Self::step_fn()(s, k, v)->Ok_0) by {
            Self::lemma_step_keeps_default(s, k, v, name);
        }
        assert(inv(Self::spec_start()));
        lemma_fold_keeps(Self::spec_start(), es, Self::step_fn(), inv, allowed);
    }

    /// The field `chain_id` alone: an object with one member under its JSON or protobuf
    /// name reads as the message with that field set and every other field at its
    /// default, and the message with only that field off its default writes that
    /// one member under the JSON name.
    pub proof fn lemma_field_chain_id(s: Seq<char>)
        ensures
            Self::spec_from_json(JsonV::Object(seq![("chainId"@, JsonV::Str(s))])) == Ok::<GenesisAppStateV, JsonErrorV>(GenesisAppStateV { chain_id: s, ..Self::spec_default() }),
            Self::spec_from_json(JsonV::Object(seq![("chain_id"@, JsonV::Str(s))])) == Ok::<GenesisAppStateV, JsonErrorV>(GenesisAppStateV { chain_id: s, ..Self::spec_default() }),
            s.len() > 0 ==> Self::spec_to_json(GenesisAppStateV { chain_id: s, ..Self::spec_default() }) == JsonV::Object(seq![("chainId"@, JsonV::Str(s))]),
    {
        reveal_strlit("chainId");
        reveal_strlit("chain_id");
        reveal_strlit("addressPrefixes");
        reveal_strlit("address_prefixes");
        reveal_strlit("accounts");
        reveal_strlit("authoritySudoAddress");
        reveal_strlit("authority_sudo_address");
        reveal_strlit("ibcSudoAddress");
        reveal_strlit("ibc_sudo_address");
        reveal_strlit("ibcRelayerAddresses");
        reveal_strlit("ibc_relayer_addresses");
        reveal_strlit("nativeAssetBaseDenomination");
        reveal_strlit("native_asset_base_denomination");
        reveal_strlit("ibcParameters");
        reveal_strlit("ibc_parameters");
        reveal_strlit("allowedFeeAssets");
        reveal_strlit("allowed_fee_assets");
        reveal_strlit("fees");
        assert("chainId"@.len() == 7);
        assert("chain_id"@.len() == 8);
        assert("addressPrefixes"@.len() == 15);
        assert("address_prefixes"@.len() == 16);
        assert("accounts"@.len() == 8);
        assert("authoritySudoAddress"@.len() == 20);
        assert("authority_sudo_address"@.len() == 22);
        assert("ibcSudoAddress"@.len() == 14);
        assert("ibc_sudo_address"@.len() == 16);
        assert("ibcRelayerAddresses"@.len() == 19);
        assert("ibc_relayer_addresses"@.len() == 21);
        assert("nativeAssetBaseDenomination"@.len() == 27);
        assert("native_asset_base_denomination"@.len() == 30);
        assert("ibcParameters"@.len() == 13);
        assert("ibc_parameters"@.len() == 14);
        assert("allowedFeeAssets"@.len() == 16);
        assert("allowed_fee_assets"@.len() == 18);
        assert("fees"@.len() == 4);
        assert("chain_id"@[0] != "accounts"@[0]);
        assert("address_prefixes"@[0] != "ibc_sudo_address"@[0]);
        assert("address_prefixes"@[1] != "allowedFeeAssets"@[1]);
        assert("ibcSudoAddress"@[3] != "ibc_parameters"@[3]);
        assert("ibc_sudo_address"@[0] != "allowedFeeAssets"@[0]);
        lemma_fold_entry_if(Self::spec_start(), true, "chainId"@, JsonV::Str(s), Self::step_fn());
        lemma_fold_entry_if(Self::spec_start(), true, "chain_id"@, JsonV::Str(s), Self::step_fn());
    }

    /// The field `address_prefixes` alone: an object with one member under its JSON or protobuf
    /// name reads as the message with that field set and every other field at its
    /// default, and the message with only that field off its default writes that
    /// one member under the JSON name.
    pub proof fn lemma_field_address_prefixes(x: AddressPrefixesV, es: Seq<(Seq<char>, JsonV)>)
        ensures
            Self::spec_from_json(JsonV::Object(seq![("addressPrefixes"@, JsonV::Object(es))])) == (match AddressPrefixes::spec_from_json(JsonV::Object(es)) { Ok(y) => Ok::<GenesisAppStateV, JsonErrorV>(GenesisAppStateV { address_prefixes: Some(y), ..Self::spec_default() }), Err(e) => Err(e) }),
            Self::spec_from_json(JsonV::Object(seq![("addressPrefixes"@, JsonV::Null)])) == Ok::<GenesisAppStateV, JsonErrorV>(Self::spec_default()),
            Self::spec_from_json(JsonV::Object(seq![("address_prefixes"@, JsonV::Object(es))])) == (match AddressPrefixes::spec_from_json(JsonV::Object(es)) { Ok(y) => Ok::<GenesisAppStateV, JsonErrorV>(GenesisAppStateV { address_prefixes: Some(y), ..Self::spec_default() }), Err(e) => Err(e) }),
            Self::spec_from_json(JsonV::Object(seq![("address_prefixes"@, JsonV::Null)])) == Ok::<GenesisAppStateV, JsonErrorV>(Self::spec_default()),
            Self::spec_to_json(GenesisAppStateV { address_prefixes: Some(x), ..Self::spec_default() }) == JsonV::Object(seq![("addressPrefixes"@, AddressPrefixes::spec_to_json(x))]),
    {
        reveal_strlit("chainId");
        reveal_strlit("chain_id");
        reveal_strlit("addressPrefixes");
        reveal_strlit("address_prefixes");
        reveal_strlit("accounts");
        reveal_strlit("authoritySudoAddress");
        reveal_strlit("authority_sudo_address");
        reveal_strlit("ibcSudoAddress");
        reveal_strlit("ibc_sudo_address");
        reveal_strlit("ibcRelayerAddresses");
        reveal_strlit("ibc_relayer_addresses");
        reveal_strlit("nativeAssetBaseDenomination");
        reveal_strlit("native_asset_base_denomination");
        reveal_strlit("ibcParameters");
        reveal_strlit("ibc_parameters");
        reveal_strlit("allowedFeeAssets");
        reveal_strlit("allowed_fee_assets");
        reveal_strlit("fees");
        assert("chainId"@.len() == 7);
        assert("chain_id"@.len() == 8);
        assert("addressPrefixes"@.len() == 15);
        assert("address_prefixes"@.len() == 16);
        assert("accounts"@.len() == 8);
        assert("authoritySudoAddress"@.len() == 20);
        assert("authority_sudo_address"@.len() == 22);
        assert("ibcSudoAddress"@.len() == 14);
        assert("ibc_sudo_address"@.len() == 16);
        assert("ibcRelayerAddresses"@.len() == 19);
        assert("ibc_relayer_addresses"@.len() == 21);
        assert("nativeAssetBaseDenomination"@.len() == 27);
        assert("native_asset_base_denomination"@.len() == 30);
        assert("ibcParameters"@.len() == 13);
        assert("ibc_parameters"@.len() == 14);
        assert("allowedFeeAssets"@.len() == 16);
        assert("allowed_fee_assets"@.len() == 18);
        assert("fees"@.len() == 4);
        assert("chain_id"@[0] != "accounts"@[0]);
        assert("address_prefixes"@[0] != "ibc_sudo_address"@[0]);
        assert("address_prefixes"@[1] != "allowedFeeAssets"@[1]);
        assert("ibcSudoAddress"@[3] != "ibc_parameters"@[3]);
        assert("ibc_sudo_address"@[0] != "allowedFeeAssets"@[0]);
        lemma_fold_entry_if(Self::spec_start(), true, "addressPrefixes"@, JsonV::Object(es), Self::step_fn());
        lemma_fold_entry_if(Self::spec_start(), true, "addressPrefixes"@, JsonV::Null, Self::step_fn());
        lemma_fold_entry_if(Self::spec_start(), true, "address_prefixes"@, JsonV::Object(es), Self::step_fn());
        lemma_fold_entry_if(Self::spec_start(), true, "address_prefixes"@, JsonV::Null, Self::step_fn());
    }

    /// The field `accounts` alone: an object with one member under its JSON or protobuf
    /// name reads as the message with that field set and every other field at its
    /// default, and the message with only that field off its default writes that
    /// one member under the JSON name.
    pub proof fn lemma_field_accounts(xs: Seq<AccountV>, items: Seq<JsonV>)
        ensures
            Self::spec_from_json(JsonV::Object(seq![("accounts"@, JsonV::Array(items))])) == (match read_list(items, Account::reader()) { Ok(ys) => Ok::<GenesisAppStateV, JsonErrorV>(GenesisAppStateV { accounts: ys, ..Self::spec_default() }), Err(e) => Err(e) }),
            xs.len() > 0 ==> Self::spec_to_json(GenesisAppStateV { accounts: xs, ..Self::spec_default() }) == JsonV::Object(seq![("accounts"@, JsonV::Array(xs.map_values(|x: AccountV| Account::spec_to_json(x))))]),
    {
        reveal_strlit("chainId");
        reveal_strlit("chain_id");
        reveal_strlit("addressPrefixes");
        reveal_strlit("address_prefixes");
        reveal_strlit("accounts");
        reveal_strlit("authoritySudoAddress");
        reveal_strlit("authority_sudo_address");
        reveal_strlit("ibcSudoAddress");
        reveal_strlit("ibc_sudo_address");
        reveal_strlit("ibcRelayerAddresses");
        reveal_strlit("ibc_relayer_addresses");
        reveal_strlit("nativeAssetBaseDenomination");
        reveal_strlit("native_asset_base_denomination");
        reveal_strlit("ibcParameters");
        reveal_strlit("ibc_parameters");
        reveal_strlit("allowedFeeAssets");
        reveal_strlit("allowed_fee_assets");
        reveal_strlit("fees");
        assert("chainId"@.len() == 7);
        assert("chain_id"@.len() == 8);
        assert("addressPrefixes"@.len() == 15);
        assert("address_prefixes"@.len() == 16);
        assert("accounts"@.len() == 8);
        assert("authoritySudoAddress"@.len() == 20);
        assert("authority_sudo_address"@.len() == 22);
        assert("ibcSudoAddress"@.len() == 14);
        assert("ibc_sudo_address"@.len() == 16);
        assert("ibcRelayerAddresses"@.len() == 19);
        assert("ibc_relayer_addresses"@.len() == 21);
        assert("nativeAssetBaseDenomination"@.len() == 27);
        assert("native_asset_base_denomination"@.len() == 30);
        assert("ibcParameters"@.len() == 13);
        assert("ibc_parameters"@.len() == 14);
        assert("allowedFeeAssets"@.len() == 16);
        assert("allowed_fee_assets"@.len() == 18);
        assert("fees"@.len() == 4);
        assert("chain_id"@[0] != "accounts"@[0]);
        assert("address_prefixes"@[0] != "ibc_sudo_address"@[0]);
        assert("address_prefixes"@[1] != "allowedFeeAssets"@[1]);
        assert("ibcSudoAddress"@[3] != "ibc_parameters"@[3]);
        assert("ibc_sudo_address"@[0] != "allowedFeeAssets"@[0]);
        assert(xs.map_values(|x: AccountV| Account::spec_to_json(x)) =~= xs.map_values(Account::writer()));
        lemma_fold_entry_if(Self::spec_start(), true, "accounts"@, JsonV::Array(items), Self::step_fn());
    }

    /// The field `authority_sudo_address` alone: an object with one member under its JSON or protobuf
    /// name reads as the message with that field set and every other field at its
    /// default, and the message with only that field off its default writes that
    /// one member under the JSON name.
    pub proof fn lemma_field_authority_sudo_address(es: Seq<(Seq<char>, JsonV)>)
        ensures
            Self::spec_from_json(JsonV::Object(seq![("authoritySudoAddress"@, JsonV::Object(es))])) == Ok::<GenesisAppStateV, JsonErrorV>(GenesisAppStateV { authority_sudo_address: Some(es), ..Self::spec_default() }),
            Self::spec_from_json(JsonV::Object(seq![("authoritySudoAddress"@, JsonV::Null)])) == Ok::<GenesisAppStateV, JsonErrorV>(Self::spec_default()),
            Self::spec_from_json(JsonV::Object(seq![("authority_sudo_address"@, JsonV::Object(es))])) == Ok::<GenesisAppStateV, JsonErrorV>(GenesisAppStateV { authority_sudo_address: Some(es), ..Self::spec_default() }),
            Self::spec_from_json(JsonV::Object(seq![("authority_sudo_address"@, JsonV::Null)])) == Ok::<GenesisAppStateV, JsonErrorV>(Self::spec_default()),
            Self::spec_to_json(GenesisAppStateV { authority_sudo_address: Some(es), ..Self::spec_default() }) == JsonV::Object(seq![("authoritySudoAddress"@, JsonV::Object(es))]),
    {
        reveal_strlit("chainId");
        reveal_strlit("chain_id");
        reveal_strlit("addressPrefixes");
        reveal_strlit("address_prefixes");
        reveal_strlit("accounts");
        reveal_strlit("authoritySudoAddress");
        reveal_strlit("authority_sudo_address");
        reveal_strlit("ibcSudoAddress");
        reveal_strlit("ibc_sudo_address");
        reveal_strlit("ibcRelayerAddresses");
        reveal_strlit("ibc_relayer_addresses");
        reveal_strlit("nativeAssetBaseDenomination");
        reveal_strlit("native_asset_base_denomination");
        reveal_strlit("ibcParameters");
        reveal_strlit("ibc_parameters");
        reveal_strlit("allowedFeeAssets");
        reveal_strlit("allowed_fee_assets");
        reveal_strlit("fees");
        assert("chainId"@.len() == 7);
        assert("chain_id"@.len() == 8);
        assert("addressPrefixes"@.len() == 15);
        assert("address_prefixes"@.len() == 16);
        assert("accounts"@.len() == 8);
        assert("authoritySudoAddress"@.len() == 20);
        assert("authority_sudo_address"@.len() == 22);
        assert("ibcSudoAddress"@.len() == 14);
        assert("ibc_sudo_address"@.len() == 16);
        assert("ibcRelayerAddresses"@.len() == 19);
        assert("ibc_relayer_addresses"@.len() == 21);
        assert("nativeAssetBaseDenomination"@.len() == 27);
        assert("native_asset_base_denomination"@.len() == 30);
        assert("ibcParameters"@.len() == 13);
        assert("ibc_parameters"@.len() == 14);
        assert("allowedFeeAssets"@.len() == 16);
        assert("allowed_fee_assets"@.len() == 18);
        assert("fees"@.len() == 4);
        assert("chain_id"@[0] != "accounts"@[0]);
        assert("address_prefixes"@[0] != "ibc_sudo_address"@[0]);
        assert("address_prefixes"@[1] != "allowedFeeAssets"@[1]);
        assert("ibcSudoAddress"@[3] != "ibc_parameters"@[3]);
        assert("ibc_sudo_address"@[0] != "allowedFeeAssets"@[0]);
        lemma_fold_entry_if(Self::spec_start(), true, "authoritySudoAddress"@, JsonV::Object(es), Self::step_fn());
        lemma_fold_entry_if(Self::spec_start(), true, "authoritySudoAddress"@, JsonV::Null, Self::step_fn());
        lemma_fold_entry_if(Self::spec_start(), true, "authority_sudo_address"@, JsonV::Object(es), Self::step_fn());
        lemma_fold_entry_if(Self::spec_start(), true, "authority_sudo_address"@, JsonV::Null, Self::step_fn());
    }

    /// The field `ibc_sudo_address` alone: an object with one member under its JSON or protobuf
    /// name reads as the message with that field set and every other field at its
    /// default, and the message with only that field off its default writes that
    /// one member under the JSON name.
    pub proof fn lemma_field_ibc_sudo_address(es: Seq<(Seq<char>, JsonV)>)
        ensures
            Self::spec_from_json(JsonV::Object(seq![("ibcSudoAddress"@, JsonV::Object(es))])) == Ok::<GenesisAppStateV, JsonErrorV>(GenesisAppStateV { ibc_sudo_address: Some(es), ..Self::spec_default() }),
            Self::spec_from_json(JsonV::Object(seq![("ibcSudoAddress"@, JsonV::Null)])) == Ok::<GenesisAppStateV, JsonErrorV>(Self::spec_default()),
            Self::spec_from_json(JsonV::Object(seq![("ibc_sudo_address"@, JsonV::Object(es))])) == Ok::<GenesisAppStateV, JsonErrorV>(GenesisAppStateV { ibc_sudo_address: Some(es), ..Self::spec_default() }),
            Self::spec_from_json(JsonV::Object(seq![("ibc_sudo_address"@, JsonV::Null)])) == Ok::<GenesisAppStateV, JsonErrorV>(Self::spec_default()),
            Self::spec_to_json(GenesisAppStateV { ibc_sudo_address: Some(es), ..Self::spec_default() }) == JsonV::Object(seq![("ibcSudoAddress"@, JsonV::Object(es))]),
    {
        reveal_strlit("chainId");
        reveal_strlit("chain_id");
        reveal_strlit("addressPrefixes");
        reveal_strlit("address_prefixes");
        reveal_strlit("accounts");
        reveal_strlit("authoritySudoAddress");
        reveal_strlit("authority_sudo_address");
        reveal_strlit("ibcSudoAddress");
        reveal_strlit("ibc_sudo_address");
        reveal_strlit("ibcRelayerAddresses");
        reveal_strlit("ibc_relayer_addresses");
        reveal_strlit("nativeAssetBaseDenomination");
        reveal_strlit("native_asset_base_denomination");
        reveal_strlit("ibcParameters");
        reveal_strlit("ibc_parameters");
        reveal_strlit("allowedFeeAssets");
        reveal_strlit("allowed_fee_assets");
        reveal_strlit("fees");
        assert("chainId"@.len() == 7);
        assert("chain_id"@.len() == 8);
        assert("addressPrefixes"@.len() == 15);
        assert("address_prefixes"@.len() == 16);
        assert("accounts"@.len() == 8);
        assert("authoritySudoAddress"@.len() == 20);
        assert("authority_sudo_address"@.len() == 22);
        assert("ibcSudoAddress"@.len() == 14);
        assert("ibc_sudo_address"@.len() == 16);
        assert("ibcRelayerAddresses"@.len() == 19);
        assert("ibc_relayer_addresses"@.len() == 21);
        assert("nativeAssetBaseDenomination"@.len() == 27);
        assert("native_asset_base_denomination"@.len() == 30);
        assert("ibcParameters"@.len() == 13);
        assert("ibc_parameters"@.len() == 14);
        assert("allowedFeeAssets"@.len() == 16);
        assert("allowed_fee_assets"@.len() == 18);
        assert("fees"@.len() == 4);
        assert("chain_id"@[0] != "accounts"@[0]);
        assert("address_prefixes"@[0] != "ibc_sudo_address"@[0]);
        assert("address_prefixes"@[1] != "allowedFeeAssets"@[1]);
        assert("ibcSudoAddress"@[3] != "ibc_parameters"@[3]);
        assert("ibc_sudo_address"@[0] != "allowedFeeAssets"@[0]);
        lemma_fold_entry_if(Self::spec_start(), true, "ibcSudoAddress"@, JsonV::Object(es), Self::step_fn());
        lemma_fold_entry_if(Self::spec_start(), true, "ibcSudoAddress"@, JsonV::Null, Self::step_fn());
        lemma_fold_entry_if(Self::spec_start(), true, "ibc_sudo_address"@, JsonV::Object(es), Self::step_fn());
        lemma_fold_entry_if(Self::spec_start(), true, "ibc_sudo_address"@, JsonV::Null, Self::step_fn());
    }

    /// The field `ibc_relayer_addresses` alone: an object with one member under its JSON or protobuf
    /// name reads as the message with that field set and every other field at its
    /// default, and the message with only that field off its default writes that
    /// one member under the JSON name.
    pub proof fn lemma_field_ibc_relayer_addresses(ess: Seq<Seq<(Seq<char>, JsonV)>>)
        ensures
            Self::spec_from_json(JsonV::Object(seq![("ibcRelayerAddresses"@, JsonV::Array(ess.map_values(|es: Seq<(Seq<char>, JsonV)>| JsonV::Object(es))))])) == Ok::<GenesisAppStateV, JsonErrorV>(GenesisAppStateV { ibc_relayer_addresses: ess, ..Self::spec_default() }),
            Self::spec_from_json(JsonV::Object(seq![("ibc_relayer_addresses"@, JsonV::Array(ess.map_values(|es: Seq<(Seq<char>, JsonV)>| JsonV::Object(es))))])) == Ok::<GenesisAppStateV, JsonErrorV>(GenesisAppStateV { ibc_relayer_addresses: ess, ..Self::spec_default() }),
            ess.len() > 0 ==> Self::spec_to_json(GenesisAppStateV { ibc_relayer_addresses: ess, ..Self::spec_default() }) == JsonV::Object(seq![("ibcRelayerAddresses"@, JsonV::Array(ess.map_values(|es: Seq<(Seq<char>, JsonV)>| JsonV::Object(es))))]),
    {
        reveal_strlit("chainId");
        reveal_strlit("chain_id");
        reveal_strlit("addressPrefixes");
        reveal_strlit("address_prefixes");
        reveal_strlit("accounts");
        reveal_strlit("authoritySudoAddress");
        reveal_strlit("authority_sudo_address");
        reveal_strlit("ibcSudoAddress");
        reveal_strlit("ibc_sudo_address");
        reveal_strlit("ibcRelayerAddresses");
        reveal_strlit("ibc_relayer_addresses");
        reveal_strlit("nativeAssetBaseDenomination");
        reveal_strlit("native_asset_base_denomination");
        reveal_strlit("ibcParameters");
        reveal_strlit("ibc_parameters");
        reveal_strlit("allowedFeeAssets");
        reveal_strlit("allowed_fee_assets");
        reveal_strlit("fees");
        assert("chainId"@.len() == 7);
        assert("chain_id"@.len() == 8);
        assert("addressPrefixes"@.len() == 15);
        assert("address_prefixes"@.len() == 16);
        assert("accounts"@.len() == 8);
        assert("authoritySudoAddress"@.len() == 20);
        assert("authority_sudo_address"@.len() == 22);
        assert("ibcSudoAddress"@.len() == 14);
        assert("ibc_sudo_address"@.len() == 16);
        assert("ibcRelayerAddresses"@.len() == 19);
        assert("ibc_relayer_addresses"@.len() == 21);
        assert("nativeAssetBaseDenomination"@.len() == 27);
        assert("native_asset_base_denomination"@.len() == 30);
        assert("ibcParameters"@.len() == 13);
        assert("ibc_parameters"@.len() == 14);
        assert("allowedFeeAssets"@.len() == 16);
        assert("allowed_fee_assets"@.len() == 18);
        assert("fees"@.len() == 4);
        assert("chain_id"@[0] != "accounts"@[0]);
        assert("address_prefixes"@[0] != "ibc_sudo_address"@[0]);
        assert("address_prefixes"@[1] != "allowedFeeAssets"@[1]);
        assert("ibcSudoAddress"@[3] != "ibc_parameters"@[3]);
        assert("ibc_sudo_address"@[0] != "allowedFeeAssets"@[0]);
        assert(ess.map_values(|es: Seq<(Seq<char>, JsonV)>| JsonV::Object(es)) =~= ess.map_values(embedded_writer()));
        assert forall|i: int| 0 <= i < ess.len() implies embedded_reader()(embedded_writer()(#[trigger] ess[i])) == Ok::<Seq<(Seq<char>, JsonV)>, JsonErrorV>(ess[i]) by {}
        lemma_read_list_roundtrip(ess, embedded_writer(), embedded_reader());
        lemma_fold_entry_if(Self::spec_start(), true, "ibcRelayerAddresses"@, JsonV::Array(ess.map_values(|es: Seq<(Seq<char>, JsonV)>| JsonV::Object(es))), Self::step_fn());
        lemma_fold_entry_if(Self::spec_start(), true, "ibc_relayer_addresses"@, JsonV::Array(ess.map_values(|es: Seq<(Seq<char>, JsonV)>| JsonV::Object(es))), Self::step_fn());
    }

    /// The field `native_asset_base_denomination` alone: an object with one member under its JSON or protobuf
    /// name reads as the message with that field set and every other field at its
    /// default, and the message with only that field off its default writes that
    /// one member under the JSON name.
    pub proof fn lemma_field_native_asset_base_denomination(s: Seq<char>)
        ensures
            Self::spec_from_json(JsonV::Object(seq![("nativeAssetBaseDenomination"@, JsonV::Str(s))])) == Ok::<GenesisAppStateV, JsonErrorV>(GenesisAppStateV { native_asset_base_denomination: s, ..Self::spec_default() }),
            Self::spec_from_json(JsonV::Object(seq![("native_asset_base_denomination"@, JsonV::Str(s))])) == Ok::<GenesisAppStateV, JsonErrorV>(GenesisAppStateV { native_asset_base_denomination: s, ..Self::spec_default() }),
            s.len() > 0 ==> Self::spec_to_json(GenesisAppStateV { native_asset_base_denomination: s, ..Self::spec_default() }) == JsonV::Object(seq![("nativeAssetBaseDenomination"@, JsonV::Str(s))]),
    {
        reveal_strlit("chainId");
        reveal_strlit("chain_id");
        reveal_strlit("addressPrefixes");
        reveal_strlit("address_prefixes");
        reveal_strlit("accounts");
        reveal_strlit("authoritySudoAddress");
        reveal_strlit("authority_sudo_address");
        reveal_strlit("ibcSudoAddress");
        reveal_strlit("ibc_sudo_address");
        reveal_strlit("ibcRelayerAddresses");
        reveal_strlit("ibc_relayer_addresses");
        reveal_strlit("nativeAssetBaseDenomination");
        reveal_strlit("native_asset_base_denomination");
        reveal_strlit("ibcParameters");
        reveal_strlit("ibc_parameters");
        reveal_strlit("allowedFeeAssets");
        reveal_strlit("allowed_fee_assets");
        reveal_strlit("fees");
        assert("chainId"@.len() == 7);
        assert("chain_id"@.len() == 8);
        assert("addressPrefixes"@.len() == 15);
        assert("address_prefixes"@.len() == 16);
        assert("accounts"@.len() == 8);
        assert("authoritySudoAddress"@.len() == 20);
        assert("authority_sudo_address"@.len() == 22);
        assert("ibcSudoAddress"@.len() == 14);
        assert("ibc_sudo_address"@.len() == 16);
        assert("ibcRelayerAddresses"@.len() == 19);
        assert("ibc_relayer_addresses"@.len() == 21);
        assert("nativeAssetBaseDenomination"@.len() == 27);
        assert("native_asset_base_denomination"@.len() == 30);
        assert("ibcParameters"@.len() == 13);
        assert("ibc_parameters"@.len() == 14);
        assert("allowedFeeAssets"@.len() == 16);
        assert("allowed_fee_assets"@.len() == 18);
        assert("fees"@.len() == 4);
        assert("chain_id"@[0] != "accounts"@[0]);
        assert("address_prefixes"@[0] != "ibc_sudo_address"@[0]);
        assert("address_prefixes"@[1] != "allowedFeeAssets"@[1]);
        assert("ibcSudoAddress"@[3] != "ibc_parameters"@[3]);
        assert("ibc_sudo_address"@[0] != "allowedFeeAssets"@[0]);
        lemma_fold_entry_if(Self::spec_start(), true, "nativeAssetBaseDenomination"@, JsonV::Str(s), Self::step_fn());
        lemma_fold_entry_if(Self::spec_start(), true, "native_asset_base_denomination"@, JsonV::Str(s), Self::step_fn());
    }

    /// The field `ibc_parameters` alone: an object with one member under its JSON or protobuf
    /// name reads as the message with that field set and every other field at its
    /// default, and the message with only that field off its default writes that
    /// one member under the JSON name.
    pub proof fn lemma_field_ibc_parameters(x: IbcParametersV, es: Seq<(Seq<char>, JsonV)>)
        ensures
            Self::spec_from_json(JsonV::Object(seq![("ibcParameters"@, JsonV::Object(es))])) == (match IbcParameters::spec_from_json(JsonV::Object(es)) { Ok(y) => Ok::<GenesisAppStateV, JsonErrorV>(GenesisAppStateV { ibc_parameters: Some(y), ..Self::spec_default() }), Err(e) => Err(e) }),
            Self::spec_from_json(JsonV::Object(seq![("ibcParameters"@, JsonV::Null)])) == Ok::<GenesisAppStateV, JsonErrorV>(Self::spec_default()),
            Self::spec_from_json(JsonV::Object(seq![("ibc_parameters"@, JsonV::Object(es))])) == (match IbcParameters::spec_from_json(JsonV::Object(es)) { Ok(y) => Ok::<GenesisAppStateV, JsonErrorV>(GenesisAppStateV { ibc_parameters: Some(y), ..Self::spec_default() }), Err(e) => Err(e) }),
            Self::spec_from_json(JsonV::Object(seq![("ibc_parameters"@, JsonV::Null)])) == Ok::<GenesisAppStateV, JsonErrorV>(Self::spec_default()),
            Self::spec_to_json(GenesisAppStateV { ibc_parameters: Some(x), ..Self::spec_default() }) == JsonV::Object(seq![("ibcParameters"@, IbcParameters::spec_to_json(x))]),
    {
        reveal_strlit("chainId");
        reveal_strlit("chain_id");
        reveal_strlit("addressPrefixes");
        reveal_strlit("address_prefixes");
        reveal_strlit("accounts");
        reveal_strlit("authoritySudoAddress");
        reveal_strlit("authority_sudo_address");
        reveal_strlit("ibcSudoAddress");
        reveal_strlit("ibc_sudo_address");
        reveal_strlit("ibcRelayerAddresses");
        reveal_strlit("ibc_relayer_addresses");
        reveal_strlit("nativeAssetBaseDenomination");
        reveal_strlit("native_asset_base_denomination");
        reveal_strlit("ibcParameters");
        reveal_strlit("ibc_parameters");
        reveal_strlit("allowedFeeAssets");
        reveal_strlit("allowed_fee_assets");
        reveal_strlit("fees");
        assert("chainId"@.len() == 7);
        assert("chain_id"@.len() == 8);
        assert("addressPrefixes"@.len() == 15);
        assert("address_prefixes"@.len() == 16);
        assert("accounts"@.len() == 8);
        assert("authoritySudoAddress"@.len() == 20);
        assert("authority_sudo_address"@.len() == 22);
        assert("ibcSudoAddress"@.len() == 14);
        assert("ibc_sudo_address"@.len() == 16);
        assert("ibcRelayerAddresses"@.len() == 19);
        assert("ibc_relayer_addresses"@.len() == 21);
        assert("nativeAssetBaseDenomination"@.len() == 27);
        assert("native_asset_base_denomination"@.len() == 30);
        assert("ibcParameters"@.len() == 13);
        assert("ibc_parameters"@.len() == 14);
        assert("allowedFeeAssets"@.len() == 16);
        assert("allowed_fee_assets"@.len() == 18);
        assert("fees"@.len() == 4);
        assert("chain_id"@[0] != "accounts"@[0]);
        assert("address_prefixes"@[0] != "ibc_sudo_address"@[0]);
        assert("address_prefixes"@[1] != "allowedFeeAssets"@[1]);
        assert("ibcSudoAddress"@[3] != "ibc_parameters"@[3]);
        assert("ibc_sudo_address"@[0] != "allowedFeeAssets"@[0]);
        lemma_fold_entry_if(Self::spec_start(), true, "ibcParameters"@, JsonV::Object(es), Self::step_fn());
        lemma_fold_entry_if(Self::spec_start(), true, "ibcParameters"@, JsonV::Null, Self::step_fn());
        lemma_fold_entry_if(Self::spec_start(), true, "ibc_parameters"@, JsonV::Object(es), Self::step_fn());
        lemma_fold_entry_if(Self::spec_start(), true, "ibc_parameters"@, JsonV::Null, Self::step_fn());
    }

    /// The field `allowed_fee_assets` alone: an object with one member under its JSON or protobuf
    /// name reads as the message with that field set and every other field at its
    /// default, and the message with only that field off its default writes that
    /// one member under the JSON name.
    pub proof fn lemma_field_allowed_fee_assets(ss: Seq<Seq<char>>)
        ensures
            Self::spec_from_json(JsonV::Object(seq![("allowedFeeAssets"@, JsonV::Array(ss.map_values(|s: Seq<char>| JsonV::Str(s))))])) == Ok::<GenesisAppStateV, JsonErrorV>(GenesisAppStateV { allowed_fee_assets: ss, ..Self::spec_default() }),
            Self::spec_from_json(JsonV::Object(seq![("allowed_fee_assets"@, JsonV::Array(ss.map_values(|s: Seq<char>| JsonV::Str(s))))])) == Ok::<GenesisAppStateV, JsonErrorV>(GenesisAppStateV { allowed_fee_assets: ss, ..Self::spec_default() }),
            ss.len() > 0 ==> Self::spec_to_json(GenesisAppStateV { allowed_fee_assets: ss, ..Self::spec_default() }) == JsonV::Object(seq![("allowedFeeAssets"@, JsonV::Array(ss.map_values(|s: Seq<char>| JsonV::Str(s))))]),
    {
        reveal_strlit("chainId");
        reveal_strlit("chain_id");
        reveal_strlit("addressPrefixes");
        reveal_strlit("address_prefixes");
        reveal_strlit("accounts");
        reveal_strlit("authoritySudoAddress");
        reveal_strlit("authority_sudo_address");
        reveal_strlit("ibcSudoAddress");
        reveal_strlit("ibc_sudo_address");
        reveal_strlit("ibcRelayerAddresses");
        reveal_strlit("ibc_relayer_addresses");
        reveal_strlit("nativeAssetBaseDenomination");
        reveal_strlit("native_asset_base_denomination");
        reveal_strlit("ibcParameters");
        reveal_strlit("ibc_parameters");
        reveal_strlit("allowedFeeAssets");
        reveal_strlit("allowed_fee_assets");
        reveal_strlit("fees");
        assert("chainId"@.len() == 7);
        assert("chain_id"@.len() == 8);
        assert("addressPrefixes"@.len() == 15);
        assert("address_prefixes"@.len() == 16);
        assert("accounts"@.len() == 8);
        assert("authoritySudoAddress"@.len() == 20);
        assert("authority_sudo_address"@.len() == 22);
        assert("ibcSudoAddress"@.len() == 14);
        assert("ibc_sudo_address"@.len() == 16);
        assert("ibcRelayerAddresses"@.len() == 19);
        assert("ibc_relayer_addresses"@.len() == 21);
        assert("nativeAssetBaseDenomination"@.len() == 27);
        assert("native_asset_base_denomination"@.len() == 30);
        assert("ibcParameters"@.len() == 13);
        assert("ibc_parameters"@.len() == 14);
        assert("allowedFeeAssets"@.len() == 16);
        assert("allowed_fee_assets"@.len() == 18);
        assert("fees"@.len() == 4);
        assert("chain_id"@[0] != "accounts"@[0]);
        assert("address_prefixes"@[0] != "ibc_sudo_address"@[0]);
        assert("address_prefixes"@[1] != "allowedFeeAssets"@[1]);
        assert("ibcSudoAddress"@[3] != "ibc_parameters"@[3]);
        assert("ibc_sudo_address"@[0] != "allowedFeeAssets"@[0]);
        assert(ss.map_values(|s: Seq<char>| JsonV::Str(s)) =~= ss.map_values(string_writer()));
        assert forall|i: int| 0 <= i < ss.len() implies string_reader()(string_writer()(#[trigger] ss[i])) == Ok::<Seq<char>, JsonErrorV>(ss[i]) by {}
        lemma_read_list_roundtrip(ss, string_writer(), string_reader());
        lemma_fold_entry_if(Self::spec_start(), true, "allowedFeeAssets"@, JsonV::Array(ss.map_values(|s: Seq<char>| JsonV::Str(s))), Self::step_fn());
        lemma_fold_entry_if(Self::spec_start(), true, "allowed_fee_assets"@, JsonV::Array(ss.map_values(|s: Seq<char>| JsonV::Str(s))), Self::step_fn());
    }

    /// The field `fees` alone: an object with one member under its JSON or protobuf
    /// name reads as the message with that field set and every other field at its
    /// default, and the message with only that field off its default writes that
    /// one member under the JSON name.
    pub proof fn lemma_field_fees(x: GenesisFeesV, es: Seq<(Seq<char>, JsonV)>)
        ensures
            Self::spec_from_json(JsonV::Object(seq![("fees"@, JsonV::Object(es))])) == (match GenesisFees::spec_from_json(JsonV::Object(es)) { Ok(y) => Ok::<GenesisAppStateV, JsonErrorV>(GenesisAppStateV { fees: Some(y), ..Self::spec_default() }), Err(e) => Err(e) }),
            Self::spec_from_json(JsonV::Object(seq![("fees"@, JsonV::Null)])) == Ok::<GenesisAppStateV, JsonErrorV>(Self::spec_default()),
            Self::spec_to_json(GenesisAppStateV { fees: Some(x), ..Self::spec_default() }) == JsonV::Object(seq![("fees"@, GenesisFees::spec_to_json(x))]),
    {
        reveal_strlit("chainId");
        reveal_strlit("chain_id");
        reveal_strlit("addressPrefixes");
        reveal_strlit("address_prefixes");
        reveal_strlit("accounts");
        reveal_strlit("authoritySudoAddress");
        reveal_strlit("authority_sudo_address");
        reveal_strlit("ibcSudoAddress");
        reveal_strlit("ibc_sudo_address");
        reveal_strlit("ibcRelayerAddresses");
        reveal_strlit("ibc_relayer_addresses");
        reveal_strlit("nativeAssetBaseDenomination");
        reveal_strlit("native_asset_base_denomination");
        reveal_strlit("ibcParameters");
        reveal_strlit("ibc_parameters");
        reveal_strlit("allowedFeeAssets");
        reveal_strlit("allowed_fee_assets");
        reveal_strlit("fees");
        assert("chainId"@.len() == 7);
        assert("chain_id"@.len() == 8);
        assert("addressPrefixes"@.len() == 15);
        assert("address_prefixes"@.len() == 16);
        assert("accounts"@.len() == 8);
        assert("authoritySudoAddress"@.len() == 20);
        assert("authority_sudo_address"@.len() == 22);
        assert("ibcSudoAddress"@.len() == 14);
        assert("ibc_sudo_address"@.len() == 16);
        assert("ibcRelayerAddresses"@.len() == 19);
        assert("ibc_relayer_addresses"@.len() == 21);
        assert("nativeAssetBaseDenomination"@.len() == 27);
        assert("native_asset_base_denomination"@.len() == 30);
        assert("ibcParameters"@.len() == 13);
        assert("ibc_parameters"@.len() == 14);
        assert("allowedFeeAssets"@.len() == 16);
        assert("allowed_fee_assets"@.len() == 18);
        assert("fees"@.len() == 4);
        assert("chain_id"@[0] != "accounts"@[0]);
        assert("address_prefixes"@[0] != "ibc_sudo_address"@[0]);
        assert("address_prefixes"@[1] != "allowedFeeAssets"@[1]);
        assert("ibcSudoAddress"@[3] != "ibc_parameters"@[3]);
        assert("ibc_sudo_address"@[0] != "allowedFeeAssets"@[0]);
        lemma_fold_entry_if(Self::spec_start(), true, "fees"@, JsonV::Object(es), Self::step_fn());
        lemma_fold_entry_if(Self::spec_start(), true, "fees"@, JsonV::Null, Self::step_fn());
    }

    /// Reading back the JSON object of a message gives the message.
    pub proof fn lemma_json_roundtrip(m: GenesisAppStateV)
        ensures Self::spec_from_json(Self::spec_to_json(m)) == Ok::<GenesisAppStateV, JsonErrorV>(m),
    {
        let step = Self::step_fn();
        let s0 = Self::spec_start();
        let s1 = (GenesisAppStateV { chain_id: m.chain_id, ..s0.0 }, if m.chain_id.len() != 0 { s0.1.update(0, true) } else { s0.1 });
        Self::lemma_entry_chain_id(m, s0);
        let s2 = (GenesisAppStateV { address_prefixes: m.address_prefixes, ..s1.0 }, s1.1);
        Self::lemma_entry_address_prefixes(m, s1);
        let s3 = (GenesisAppStateV { accounts: m.accounts, ..s2.0 }, if m.accounts.len() != 0 { s2.1.update(1, true) } else { s2.1 });
        Self::lemma_entry_accounts(m, s2);
        let s4 = (GenesisAppStateV { authority_sudo_address: m.authority_sudo_address, ..s3.0 }, s3.1);
        Self::lemma_entry_authority_sudo_address(m, s3);
        let s5 = (GenesisAppStateV { ibc_sudo_address: m.ibc_sudo_address, ..s4.0 }, s4.1);
        Self::lemma_entry_ibc_sudo_address(m, s4);
        let s6 = (GenesisAppStateV { ibc_relayer_addresses: m.ibc_relayer_addresses, ..s5.0 }, if m.ibc_relayer_addresses.len() != 0 { s5.1.update(2, true) } else { s5.1 });
        Self::lemma_entry_ibc_relayer_addresses(m, s5);
        let s7 = (GenesisAppStateV { native_asset_base_denomination: m.native_asset_base_denomination, ..s6.0 }, if m.native_asset_base_denomination.len() != 0 { s6.1.update(3, true) } else { s6.1 });
        Self::lemma_entry_native_asset_base_denomination(m, s6);
        let s8 = (GenesisAppStateV { ibc_parameters: m.ibc_parameters, ..s7.0 }, s7.1);
        Self::lemma_entry_ibc_parameters(m, s7);
        let s9 = (GenesisAppStateV { allowed_fee_assets: m.allowed_fee_assets, ..s8.0 }, if m.allowed_fee_assets.len() != 0 { s8.1.update(4, true) } else { s8.1 });
        Self::lemma_entry_allowed_fee_assets(m, s8);
        let s10 = (GenesisAppStateV { fees: m.fees, ..s9.0 }, s9.1);
        Self::lemma_entry_fees(m, s9);
        let p1 = Self::spec_entry_chain_id(m);
        let p2 = p1 + Self::spec_entry_address_prefixes(m);
        lemma_fold_entries_append(s0, p1, Self::spec_entry_address_prefixes(m), step);
        let p3 = p2 + Self::spec_entry_accounts(m);
        lemma_fold_entries_append(s0, p2, Self::spec_entry_accounts(m), step);
        let p4 = p3 + Self::spec_entry_authority_sudo_address(m);
        lemma_fold_entries_append(s0, p3, Self::spec_entry_authority_sudo_address(m), step);
        let p5 = p4 + Self::spec_entry_ibc_sudo_address(m);
        lemma_fold_entries_append(s0, p4, Self::spec_entry_ibc_sudo_address(m), step);
        let p6 = p5 + Self::spec_entry_ibc_relayer_addresses(m);
        lemma_fold_entries_append(s0, p5, Self::spec_entry_ibc_relayer_addresses(m), step);
        let p7 = p6 + Self::spec_entry_native_asset_base_denomination(m);
        lemma_fold_entries_append(s0, p6, Self::spec_entry_native_asset_base_denomination(m), step);
        let p8 = p7 + Self::spec_entry_ibc_parameters(m);
        lemma_fold_entries_append(s0, p7, Self::spec_entry_ibc_parameters(m), step);
        let p9 = p8 + Self::spec_entry_allowed_fee_assets(m);
        lemma_fold_entries_append(s0, p8, Self::spec_entry_allowed_fee_assets(m), step);
        let p10 = p9 + Self::spec_entry_fees(m);
        lemma_fold_entries_append(s0, p9, Self::spec_entry_fees(m), step);
        assert(s10.0 == m);
    }
}

/// The `astria.protocol.genesis.v1.GenesisFees` message.
#[derive(Clone, Debug, PartialEq)]
pub struct GenesisFees {
    pub bridge_lock: Option<BridgeLockFeeComponents>,
    pub bridge_sudo_change: Option<BridgeSudoChangeFeeComponents>,
    pub bridge_unlock: Option<BridgeUnlockFeeComponents>,
    pub fee_asset_change: Option<FeeAssetChangeFeeComponents>,
    pub fee_change: Option<FeeChangeFeeComponents>,
    pub ibc_relay: Option<IbcRelayFeeComponents>,
    pub ibc_relayer_change: Option<IbcRelayerChangeFeeComponents>,
    pub ibc_sudo_change: Option<IbcSudoChangeFeeComponents>,
    pub ics20_withdrawal: Option<Ics20WithdrawalFeeComponents>,
    pub init_bridge_account: Option<InitBridgeAccountFeeComponents>,
    pub rollup_data_submission: Option<RollupDataSubmissionFeeComponents>,
    pub sudo_address_change: Option<SudoAddressChangeFeeComponents>,
    pub transfer: Option<TransferFeeComponents>,
    pub validator_update: Option<ValidatorUpdateFeeComponents>,
    pub bridge_transfer: Option<BridgeTransferFeeComponents>,
}

/// The mathematical content of a [`GenesisFees`].
pub struct GenesisFeesV {
    pub bridge_lock: Option<Seq<(Seq<char>, JsonV)>>,
    pub bridge_sudo_change: Option<Seq<(Seq<char>, JsonV)>>,
    pub bridge_unlock: Option<Seq<(Seq<char>, JsonV)>>,
    pub fee_asset_change: Option<Seq<(Seq<char>, JsonV)>>,
    pub fee_change: Option<Seq<(Seq<char>, JsonV)>>,
    pub ibc_relay: Option<Seq<(Seq<char>, JsonV)>>,
    pub ibc_relayer_change: Option<Seq<(Seq<char>, JsonV)>>,
    pub ibc_sudo_change: Option<Seq<(Seq<char>, JsonV)>>,
    pub ics20_withdrawal: Option<Seq<(Seq<char>, JsonV)>>,
    pub init_bridge_account: Option<Seq<(Seq<char>, JsonV)>>,
    pub rollup_data_submission: Option<Seq<(Seq<char>, JsonV)>>,
    pub sudo_address_change: Option<Seq<(Seq<char>, JsonV)>>,
    pub transfer: Option<Seq<(Seq<char>, JsonV)>>,
    pub validator_update: Option<Seq<(Seq<char>, JsonV)>>,
    pub bridge_transfer: Option<Seq<(Seq<char>, JsonV)>>,
}

impl View for GenesisFees {
    type V = GenesisFeesV;

    open spec fn view(&self) -> GenesisFeesV {
        GenesisFeesV {
            bridge_lock: opt_embedded_view(self.bridge_lock),
            bridge_sudo_change: opt_embedded_view(self.bridge_sudo_change),
            bridge_unlock: opt_embedded_view(self.bridge_unlock),
            fee_asset_change: opt_embedded_view(self.fee_asset_change),
            fee_change: opt_embedded_view(self.fee_change),
            ibc_relay: opt_embedded_view(self.ibc_relay),
            ibc_relayer_change: opt_embedded_view(self.ibc_relayer_change),
            ibc_sudo_change: opt_embedded_view(self.ibc_sudo_change),
            ics20_withdrawal: opt_embedded_view(self.ics20_withdrawal),
            init_bridge_account: opt_embedded_view(self.init_bridge_account),
            rollup_data_submission: opt_embedded_view(self.rollup_data_submission),
            sudo_address_change: opt_embedded_view(self.sudo_address_change),
            transfer: opt_embedded_view(self.transfer),
            validator_update: opt_embedded_view(self.validator_update),
            bridge_transfer: opt_embedded_view(self.bridge_transfer),
        }
    }
}

impl Default for GenesisFees {
    fn default() -> (r: Self)
        ensures r@ == GenesisFees::spec_default(),
    {
        let r = GenesisFees {
            bridge_lock: None,
            bridge_sudo_change: None,
            bridge_unlock: None,
            fee_asset_change: None,
            fee_change: None,
            ibc_relay: None,
            ibc_relayer_change: None,
            ibc_sudo_change: None,
            ics20_withdrawal: None,
            init_bridge_account: None,
            rollup_data_submission: None,
            sudo_address_change: None,
            transfer: None,
            validator_update: None,
            bridge_transfer: None,
        };
        r
    }
}

impl GenesisFees {
    /// The fully qualified protobuf name of the message.
    pub fn full_name() -> (r: String)
        ensures r@ == "astria.protocol.genesis.v1.GenesisFees"@,
    {
        "astria.protocol.genesis.v1.GenesisFees".to_string()
    }

    /// Every field at its default: empty strings, bytes and lists, zero, `false`, unset.
    pub open spec fn spec_default() -> GenesisFeesV {
        GenesisFeesV {
            bridge_lock: None,
            bridge_sudo_change: None,
            bridge_unlock: None,
            fee_asset_change: None,
            fee_change: None,
            ibc_relay: None,
            ibc_relayer_change: None,
            ibc_sudo_change: None,
            ics20_withdrawal: None,
            init_bridge_account: None,
            rollup_data_submission: None,
            sudo_address_change: None,
            transfer: None,
            validator_update: None,
            bridge_transfer: None,
        }
    }

    /// The view of an optional field of this message type.
    pub open spec fn view_opt(o: Option<Self>) -> Option<GenesisFeesV> {
        match o {
            Some(x) => Some(x@),
            None => None,
        }
    }

    /// The view of a repeated field of this message type.
    pub open spec fn view_list(v: Seq<Self>) -> Seq<GenesisFeesV> {
        v.map_values(|x: Self| x@)
    }

    /// The member that the field `bridge_lock` writes: none where it holds its default.
    pub open spec fn spec_entry_bridge_lock(m: GenesisFeesV) -> Seq<(Seq<char>, JsonV)> {
        entry_if(m.bridge_lock is Some, "bridgeLock"@, JsonV::Object(m.bridge_lock.unwrap()))
    }

    /// The member that the field `bridge_sudo_change` writes: none where it holds its default.
    pub open spec fn spec_entry_bridge_sudo_change(m: GenesisFeesV) -> Seq<(Seq<char>, JsonV)> {
        entry_if(m.bridge_sudo_change is Some, "bridgeSudoChange"@, JsonV::Object(m.bridge_sudo_change.unwrap()))
    }

    /// The member that the field `bridge_unlock` writes: none where it holds its default.
    pub open spec fn spec_entry_bridge_unlock(m: GenesisFeesV) -> Seq<(Seq<char>, JsonV)> {
        entry_if(m.bridge_unlock is Some, "bridgeUnlock"@, JsonV::Object(m.bridge_unlock.unwrap()))
    }

    /// The member that the field `fee_asset_change` writes: none where it holds its default.
    pub open spec fn spec_entry_fee_asset_change(m: GenesisFeesV) -> Seq<(Seq<char>, JsonV)> {
        entry_if(m.fee_asset_change is Some, "feeAssetChange"@, JsonV::Object(m.fee_asset_change.unwrap()))
    }

    /// The member that the field `fee_change` writes: none where it holds its default.
    pub open spec fn spec_entry_fee_change(m: GenesisFeesV) -> Seq<(Seq<char>, JsonV)> {
        entry_if(m.fee_change is Some, "feeChange"@, JsonV::Object(m.fee_change.unwrap()))
    }

    /// The member that the field `ibc_relay` writes: none where it holds its default.
    pub open spec fn spec_entry_ibc_relay(m: GenesisFeesV) -> Seq<(Seq<char>, JsonV)> {
        entry_if(m.ibc_relay is Some, "ibcRelay"@, JsonV::Object(m.ibc_relay.unwrap()))
    }

    /// The member that the field `ibc_relayer_change` writes: none where it holds its default.
    pub open spec fn spec_entry_ibc_relayer_change(m: GenesisFeesV) -> Seq<(Seq<char>, JsonV)> {
        entry_if(m.ibc_relayer_change is Some, "ibcRelayerChange"@, JsonV::Object(m.ibc_relayer_change.unwrap()))
    }

    /// The member that the field `ibc_sudo_change` writes: none where it holds its default.
    pub open spec fn spec_entry_ibc_sudo_change(m: GenesisFeesV) -> Seq<(Seq<char>, JsonV)> {
        entry_if(m.ibc_sudo_change is Some, "ibcSudoChange"@, JsonV::Object(m.ibc_sudo_change.unwrap()))
    }

    /// The member that the field `ics20_withdrawal` writes: none where it holds its default.
    pub open spec fn spec_entry_ics20_withdrawal(m: GenesisFeesV) -> Seq<(Seq<char>, JsonV)> {
        entry_if(m.ics20_withdrawal is Some, "ics20Withdrawal"@, JsonV::Object(m.ics20_withdrawal.unwrap()))
    }

    /// The member that the field `init_bridge_account` writes: none where it holds its default.
    pub open spec fn spec_entry_init_bridge_account(m: GenesisFeesV) -> Seq<(Seq<char>, JsonV)> {
        entry_if(m.init_bridge_account is Some, "initBridgeAccount"@, JsonV::Object(m.init_bridge_account.unwrap()))
    }

    /// The member that the field `rollup_data_submission` writes: none where it holds its default.
    pub open spec fn spec_entry_rollup_data_submission(m: GenesisFeesV) -> Seq<(Seq<char>, JsonV)> {
        entry_if(m.rollup_data_submission is Some, "rollupDataSubmission"@, JsonV::Object(m.rollup_data_submission.unwrap()))
    }

    /// The member that the field `sudo_address_change` writes: none where it holds its default.
    pub open spec fn spec_entry_sudo_address_change(m: GenesisFeesV) -> Seq<(Seq<char>, JsonV)> {
        entry_if(m.sudo_address_change is Some, "sudoAddressChange"@, JsonV::Object(m.sudo_address_change.unwrap()))
    }

    /// The member that the field `transfer` writes: none where it holds its default.
    pub open spec fn spec_entry_transfer(m: GenesisFeesV) -> Seq<(Seq<char>, JsonV)> {
        entry_if(m.transfer is Some, "transfer"@, JsonV::Object(m.transfer.unwrap()))
    }

    /// The member that the field `validator_update` writes: none where it holds its default.
    pub open spec fn spec_entry_validator_update(m: GenesisFeesV) -> Seq<(Seq<char>, JsonV)> {
        entry_if(m.validator_update is Some, "validatorUpdate"@, JsonV::Object(m.validator_update.unwrap()))
    }

    /// The member that the field `bridge_transfer` writes: none where it holds its default.
    pub open spec fn spec_entry_bridge_transfer(m: GenesisFeesV) -> Seq<(Seq<char>, JsonV)> {
        entry_if(m.bridge_transfer is Some, "bridgeTransfer"@, JsonV::Object(m.bridge_transfer.unwrap()))
    }

    /// The members of the JSON object of the message: each field that does not hold
    /// its default, under its JSON name, in the order of the fields.
    pub open spec fn spec_entries(m: GenesisFeesV) -> Seq<(Seq<char>, JsonV)> {
        Self::spec_entry_bridge_lock(m) + Self::spec_entry_bridge_sudo_change(m) + Self::spec_entry_bridge_unlock(m) + Self::spec_entry_fee_asset_change(m) + Self::spec_entry_fee_change(m) + Self::spec_entry_ibc_relay(m) + Self::spec_entry_ibc_relayer_change(m) + Self::spec_entry_ibc_sudo_change(m) + Self::spec_entry_ics20_withdrawal(m) + Self::spec_entry_init_bridge_account(m) + Self::spec_entry_rollup_data_submission(m) + Self::spec_entry_sudo_address_change(m) + Self::spec_entry_transfer(m) + Self::spec_entry_validator_update(m) + Self::spec_entry_bridge_transfer(m)
    }

    /// The JSON object that the protobuf JSON mapping writes for the message.
    pub open spec fn spec_to_json(m: GenesisFeesV) -> JsonV {
        JsonV::Object(Self::spec_entries(m))
    }

    /// [`Self::spec_to_json`] as a function value, for repeated fields.
    pub open spec fn writer() -> spec_fn(GenesisFeesV) -> JsonV {
        |m: GenesisFeesV| Self::spec_to_json(m)
    }

    fn write_bridge_lock(&self, es: &mut Vec<(String, Json)>)
        ensures
            view_entries(final(es)@) == view_entries(old(es)@) + Self::spec_entry_bridge_lock(self@),
    {
        match &self.bridge_lock {
            Some(x) => push_entry(es, "bridgeLock", embedded_value(x)),
            None => {},
        }
        assert(view_entries(es@) =~= view_entries(old(es)@) + Self::spec_entry_bridge_lock(self@));
    }

    fn write_bridge_sudo_change(&self, es: &mut Vec<(String, Json)>)
        ensures
            view_entries(final(es)@) == view_entries(old(es)@) + Self::spec_entry_bridge_sudo_change(self@),
    {
        match &self.bridge_sudo_change {
            Some(x) => push_entry(es, "bridgeSudoChange", embedded_value(x)),
            None => {},
        }
        assert(view_entries(es@) =~= view_entries(old(es)@) + Self::spec_entry_bridge_sudo_change(self@));
    }

    fn write_bridge_unlock(&self, es: &mut Vec<(String, Json)>)
        ensures
            view_entries(final(es)@) == view_entries(old(es)@) + Self::spec_entry_bridge_unlock(self@),
    {
        match &self.bridge_unlock {
            Some(x) => push_entry(es, "bridgeUnlock", embedded_value(x)),
            None => {},
        }
        assert(view_entries(es@) =~= view_entries(old(es)@) + Self::spec_entry_bridge_unlock(self@));
    }

    fn write_fee_asset_change(&self, es: &mut Vec<(String, Json)>)
        ensures
            view_entries(final(es)@) == view_entries(old(es)@) + Self::spec_entry_fee_asset_change(self@),
    {
        match &self.fee_asset_change {
            Some(x) => push_entry(es, "feeAssetChange", embedded_value(x)),
            None => {},
        }
        assert(view_entries(es@) =~= view_entries(old(es)@) + Self::spec_entry_fee_asset_change(self@));
    }

    fn write_fee_change(&self, es: &mut Vec<(String, Json)>)
        ensures
            view_entries(final(es)@) == view_entries(old(es)@) + Self::spec_entry_fee_change(self@),
    {
        match &self.fee_change {
            Some(x) => push_entry(es, "feeChange", embedded_value(x)),
            None => {},
        }
        assert(view_entries(es@) =~= view_entries(old(es)@) + Self::spec_entry_fee_change(self@));
    }

    fn write_ibc_relay(&self, es: &mut Vec<(String, Json)>)
        ensures
            view_entries(final(es)@) == view_entries(old(es)@) + Self::spec_entry_ibc_relay(self@),
    {
        match &self.ibc_relay {
            Some(x) => push_entry(es, "ibcRelay", embedded_value(x)),
            None => {},
        }
        assert(view_entries(es@) =~= view_entries(old(es)@) + Self::spec_entry_ibc_relay(self@));
    }

    fn write_ibc_relayer_change(&self, es: &mut Vec<(String, Json)>)
        ensures
            view_entries(final(es)@) == view_entries(old(es)@) + Self::spec_entry_ibc_relayer_change(self@),
    {
        match &self.ibc_relayer_change {
            Some(x) => push_entry(es, "ibcRelayerChange", embedded_value(x)),
            None => {},
        }
        assert(view_entries(es@) =~= view_entries(old(es)@) + Self::spec_entry_ibc_relayer_change(self@));
    }

    fn write_ibc_sudo_change(&self, es: &mut Vec<(String, Json)>)
        ensures
            view_entries(final(es)@) == view_entries(old(es)@) + Self::spec_entry_ibc_sudo_change(self@),
    {
        match &self.ibc_sudo_change {
            Some(x) => push_entry(es, "ibcSudoChange", embedded_value(x)),
            None => {},
        }
        assert(view_entries(es@) =~= view_entries(old(es)@) + Self::spec_entry_ibc_sudo_change(self@));
    }

    fn write_ics20_withdrawal(&self, es: &mut Vec<(String, Json)>)
        ensures
            view_entries(final(es)@) == view_entries(old(es)@) + Self::spec_entry_ics20_withdrawal(self@),
    {
        match &self.ics20_withdrawal {
            Some(x) => push_entry(es, "ics20Withdrawal", embedded_value(x)),
            None => {},
        }
        assert(view_entries(es@) =~= view_entries(old(es)@) + Self::spec_entry_ics20_withdrawal(self@));
    }

    fn write_init_bridge_account(&self, es: &mut Vec<(String, Json)>)
        ensures
            view_entries(final(es)@) == view_entries(old(es)@) + Self::spec_entry_init_bridge_account(self@),
    {
        match &self.init_bridge_account {
            Some(x) => push_entry(es, "initBridgeAccount", embedded_value(x)),
            None => {},
        }
        assert(view_entries(es@) =~= view_entries(old(es)@) + Self::spec_entry_init_bridge_account(self@));
    }

    fn write_rollup_data_submission(&self, es: &mut Vec<(String, Json)>)
        ensures
            view_entries(final(es)@) == view_entries(old(es)@) + Self::spec_entry_rollup_data_submission(self@),
    {
        match &self.rollup_data_submission {
            Some(x) => push_entry(es, "rollupDataSubmission", embedded_value(x)),
            None => {},
        }
        assert(view_entries(es@) =~= view_entries(old(es)@) + Self::spec_entry_rollup_data_submission(self@));
    }

    fn write_sudo_address_change(&self, es: &mut Vec<(String, Json)>)
        ensures
            view_entries(final(es)@) == view_entries(old(es)@) + Self::spec_entry_sudo_address_change(self@),
    {
        match &self.sudo_address_change {
            Some(x) => push_entry(es, "sudoAddressChange", embedded_value(x)),
            None => {},
        }
        assert(view_entries(es@) =~= view_entries(old(es)@) + Self::spec_entry_sudo_address_change(self@));
    }

    fn write_transfer(&self, es: &mut Vec<(String, Json)>)
        ensures
            view_entries(final(es)@) == view_entries(old(es)@) + Self::spec_entry_transfer(self@),
    {
        match &self.transfer {
            Some(x) => push_entry(es, "transfer", embedded_value(x)),
            None => {},
        }
        assert(view_entries(es@) =~= view_entries(old(es)@) + Self::spec_entry_transfer(self@));
    }

    fn write_validator_update(&self, es: &mut Vec<(String, Json)>)
        ensures
            view_entries(final(es)@) == view_entries(old(es)@) + Self::spec_entry_validator_update(self@),
    {
        match &self.validator_update {
            Some(x) => push_entry(es, "validatorUpdate", embedded_value(x)),
            None => {},
        }
        assert(view_entries(es@) =~= view_entries(old(es)@) + Self::spec_entry_validator_update(self@));
    }

    fn write_bridge_transfer(&self, es: &mut Vec<(String, Json)>)
        ensures
            view_entries(final(es)@) == view_entries(old(es)@) + Self::spec_entry_bridge_transfer(self@),
    {
        match &self.bridge_transfer {
            Some(x) => push_entry(es, "bridgeTransfer", embedded_value(x)),
            None => {},
        }
        assert(view_entries(es@) =~= view_entries(old(es)@) + Self::spec_entry_bridge_transfer(self@));
    }

    /// Writes the message as a JSON object; reading it back gives the message.
    pub fn to_json(&self) -> (r: Json)
        ensures
            r@ == Self::spec_to_json(self@),
            Self::spec_from_json(r@) == Ok::<GenesisFeesV, JsonErrorV>(self@),
    {
        let mut es: Vec<(String, Json)> = Vec::new();
        let ghost mut acc: Seq<(Seq<char>, JsonV)> = Seq::empty();
        proof {
            assert(view_entries(es@) =~= acc);
        }
        self.write_bridge_lock(&mut es);
        proof {
            acc = acc + Self::spec_entry_bridge_lock(self@);
        }
        self.write_bridge_sudo_change(&mut es);
        proof {
            acc = acc + Self::spec_entry_bridge_sudo_change(self@);
        }
        self.write_bridge_unlock(&mut es);
        proof {
            acc = acc + Self::spec_entry_bridge_unlock(self@);
        }
        self.write_fee_asset_change(&mut es);
        proof {
            acc = acc + Self::spec_entry_fee_asset_change(self@);
        }
        self.write_fee_change(&mut es);
        proof {
            acc = acc + Self::spec_entry_fee_change(self@);
        }
        self.write_ibc_relay(&mut es);
        proof {
            acc = acc + Self::spec_entry_ibc_relay(self@);
        }
        self.write_ibc_relayer_change(&mut es);
        proof {
            acc = acc + Self::spec_entry_ibc_relayer_change(self@);
        }
        self.write_ibc_sudo_change(&mut es);
        proof {
            acc = acc + Self::spec_entry_ibc_sudo_change(self@);
        }
        self.write_ics20_withdrawal(&mut es);
        proof {
            acc = acc + Self::spec_entry_ics20_withdrawal(self@);
        }
        self.write_init_bridge_account(&mut es);
        proof {
            acc = acc + Self::spec_entry_init_bridge_account(self@);
        }
        self.write_rollup_data_submission(&mut es);
        proof {
            acc = acc + Self::spec_entry_rollup_data_submission(self@);
        }
        self.write_sudo_address_change(&mut es);
        proof {
            acc = acc + Self::spec_entry_sudo_address_change(self@);
        }
        self.write_transfer(&mut es);
        proof {
            acc = acc + Self::spec_entry_transfer(self@);
        }
        self.write_validator_update(&mut es);
        proof {
            acc = acc + Self::spec_entry_validator_update(self@);
        }
        self.write_bridge_transfer(&mut es);
        proof {
            acc = acc + Self::spec_entry_bridge_transfer(self@);
        }
        proof {
            assert(acc =~= Self::spec_entries(self@));
            Self::lemma_json_roundtrip(self@);
        }
        Json::Object(es)
    }

    /// Reads one member of the object into the message under construction; `seen`
    /// records which fields that have no unset state were already given.
    pub open spec fn spec_step(st: (GenesisFeesV, Seq<bool>), key: Seq<char>, v: JsonV) -> Result<(GenesisFeesV, Seq<bool>), JsonErrorV> {
        let m = st.0;
        let seen = st.1;
        if key == "bridgeLock"@ || key == "bridge_lock"@ {
            if m.bridge_lock is Some {
                Err(JsonErrorV::DuplicateField("bridgeLock"@))
            } else {
                match read_embedded(v) {
                    Ok(x) => Ok((GenesisFeesV { bridge_lock: x, ..m }, seen)),
                    Err(e) => Err(e),
                }
            }
        } else if key == "bridgeSudoChange"@ || key == "bridge_sudo_change"@ {
            if m.bridge_sudo_change is Some {
                Err(JsonErrorV::DuplicateField("bridgeSudoChange"@))
            } else {
                match read_embedded(v) {
                    Ok(x) => Ok((GenesisFeesV { bridge_sudo_change: x, ..m }, seen)),
                    Err(e) => Err(e),
                }
            }
        } else if key == "bridgeUnlock"@ || key == "bridge_unlock"@ {
            if m.bridge_unlock is Some {
                Err(JsonErrorV::DuplicateField("bridgeUnlock"@))
            } else {
                match read_embedded(v) {
                    Ok(x) => Ok((GenesisFeesV { bridge_unlock: x, ..m }, seen)),
                    Err(e) => Err(e),
                }
            }
        } else if key == "feeAssetChange"@ || key == "fee_asset_change"@ {
            if m.fee_asset_change is Some {
                Err(JsonErrorV::DuplicateField("feeAssetChange"@))
            } else {
                match read_embedded(v) {
                    Ok(x) => Ok((GenesisFeesV { fee_asset_change: x, ..m }, seen)),
                    Err(e) => Err(e),
                }
            }
        } else if key == "feeChange"@ || key == "fee_change"@ {
            if m.fee_change is Some {
                Err(JsonErrorV::DuplicateField("feeChange"@))
            } else {
                match read_embedded(v) {
                    Ok(x) => Ok((GenesisFeesV { fee_change: x, ..m }, seen)),
                    Err(e) => Err(e),
                }
            }
        } else if key == "ibcRelay"@ || key == "ibc_relay"@ {
            if m.ibc_relay is Some {
                Err(JsonErrorV::DuplicateField("ibcRelay"@))
            } else {
                match read_embedded(v) {
                    Ok(x) => Ok((GenesisFeesV { ibc_relay: x, ..m }, seen)),
                    Err(e) => Err(e),
                }
            }
        } else if key == "ibcRelayerChange"@ || key == "ibc_relayer_change"@ {
            if m.ibc_relayer_change is Some {
                Err(JsonErrorV::DuplicateField("ibcRelayerChange"@))
            } else {
                match read_embedded(v) {
                    Ok(x) => Ok((GenesisFeesV { ibc_relayer_change: x, ..m }, seen)),
                    Err(e) => Err(e),
                }
            }
        } else if key == "ibcSudoChange"@ || key == "ibc_sudo_change"@ {
            if m.ibc_sudo_change is Some {
                Err(JsonErrorV::DuplicateField("ibcSudoChange"@))
            } else {
                match read_embedded(v) {
                    Ok(x) => Ok((GenesisFeesV { ibc_sudo_change: x, ..m }, seen)),
                    Err(e) => Err(e),
                }
            }
        } else if key == "ics20Withdrawal"@ || key == "ics20_withdrawal"@ {
            if m.ics20_withdrawal is Some {
                Err(JsonErrorV::DuplicateField("ics20Withdrawal"@))
            } else {
                match read_embedded(v) {
                    Ok(x) => Ok((GenesisFeesV { ics20_withdrawal: x, ..m }, seen)),
                    Err(e) => Err(e),
                }
            }
        } else if key == "initBridgeAccount"@ || key == "init_bridge_account"@ {
            if m.init_bridge_account is Some {
                Err(JsonErrorV::DuplicateField("initBridgeAccount"@))
            } else {
                match read_embedded(v) {
                    Ok(x) => Ok((GenesisFeesV { init_bridge_account: x, ..m }, seen)),
                    Err(e) => Err(e),
                }
            }
        } else if key == "rollupDataSubmission"@ || key == "rollup_data_submission"@ {
            if m.rollup_data_submission is Some {
                Err(JsonErrorV::DuplicateField("rollupDataSubmission"@))
            } else {
                match read_embedded(v) {
                    Ok(x) => Ok((GenesisFeesV { rollup_data_submission: x, ..m }, seen)),
                    Err(e) => Err(e),
                }
            }
        } else if key == "sudoAddressChange"@ || key == "sudo_address_change"@ {
            if m.sudo_address_change is Some {
                Err(JsonErrorV::DuplicateField("sudoAddressChange"@))
            } else {
                match read_embedded(v) {
                    Ok(x) => Ok((GenesisFeesV { sudo_address_change: x, ..m }, seen)),
                    Err(e) => Err(e),
                }
            }
        } else if key == "transfer"@ {
            if m.transfer is Some {
                Err(JsonErrorV::DuplicateField("transfer"@))
            } else {
                match read_embedded(v) {
                    Ok(x) => Ok((GenesisFeesV { transfer: x, ..m }, seen)),
                    Err(e) => Err(e),
                }
            }
        } else if key == "validatorUpdate"@ || key == "validator_update"@ {
            if m.validator_update is Some {
                Err(JsonErrorV::DuplicateField("validatorUpdate"@))
            } else {
                match read_embedded(v) {
                    Ok(x) => Ok((GenesisFeesV { validator_update: x, ..m }, seen)),
                    Err(e) => Err(e),
                }
            }
        } else if key == "bridgeTransfer"@ || key == "bridge_transfer"@ {
            if m.bridge_transfer is Some {
                Err(JsonErrorV::DuplicateField("bridgeTransfer"@))
            } else {
                match read_embedded(v) {
                    Ok(x) => Ok((GenesisFeesV { bridge_transfer: x, ..m }, seen)),
                    Err(e) => Err(e),
                }
            }
        } else {
            Err(JsonErrorV::UnknownField(key))
        }
    }

    /// [`Self::spec_step`] as a function value.
    pub open spec fn step_fn() -> spec_fn((GenesisFeesV, Seq<bool>), Seq<char>, JsonV) -> Result<(GenesisFeesV, Seq<bool>), JsonErrorV> {
        |st: (GenesisFeesV, Seq<bool>), key: Seq<char>, v: JsonV| Self::spec_step(st, key, v)
    }

    /// The state before the first member is read: the default message, no field seen.
    pub open spec fn spec_start() -> (GenesisFeesV, Seq<bool>) {
        (Self::spec_default(), Seq::<bool>::empty())
    }

    /// The message that a JSON value describes: an object whose keys each name a field
    /// (by its JSON name or its protobuf name), at most once each; fields that are not
    /// given keep their default. The first member that is refused gives the error.
    pub open spec fn spec_from_json(j: JsonV) -> Result<GenesisFeesV, JsonErrorV> {
        match j {
            JsonV::Object(es) => match fold_entries(Self::spec_start(), es, Self::step_fn()) {
                Ok(st) => Ok(st.0),
                Err(e) => Err(e),
            },
            _ => Err(JsonErrorV::ExpectedObject),
        }
    }

    /// [`Self::spec_from_json`] as a function value, for repeated fields.
    pub open spec fn reader() -> spec_fn(JsonV) -> Result<GenesisFeesV, JsonErrorV> {
        |v: JsonV| Self::spec_from_json(v)
    }

    /// An optional field of this message type: `null` leaves it unset.
    pub open spec fn spec_read_opt(v: JsonV) -> Result<Option<GenesisFeesV>, JsonErrorV> {
        match v {
            JsonV::Null => Ok(None),
            _ => match Self::spec_from_json(v) {
                Ok(x) => Ok(Some(x)),
                Err(e) => Err(e),
            },
        }
    }

    fn step(m: Self, seen: Vec<bool>, key: &String, v: &Json) -> (r: Result<(Self, Vec<bool>), JsonError>)
        requires seen@.len() == 0,
        ensures
            match r {
                Ok((m2, seen2)) => Self::spec_step((m@, seen@), key@, v@) == Ok::<(GenesisFeesV, Seq<bool>), JsonErrorV>((m2@, seen2@)) && seen2@.len() == 0,
                Err(e) => Self::spec_step((m@, seen@), key@, v@) == Err::<(GenesisFeesV, Seq<bool>), JsonErrorV>(e@),
            },
    {
        let mut m = m;
        let mut seen = seen;
        let k = key.as_str();
        if str_eq(k, "bridgeLock") || str_eq(k, "bridge_lock") {
            if m.bridge_lock.is_some() {
                return Err(JsonError::DuplicateField("bridgeLock".to_string()));
            }
            match embedded_field(v) {
                Ok(x) => m.bridge_lock = x,
                Err(e) => return Err(e),
            }
        } else if str_eq(k, "bridgeSudoChange") || str_eq(k, "bridge_sudo_change") {
            if m.bridge_sudo_change.is_some() {
                return Err(JsonError::DuplicateField("bridgeSudoChange".to_string()));
            }
            match embedded_field(v) {
                Ok(x) => m.bridge_sudo_change = x,
                Err(e) => return Err(e),
            }
        } else if str_eq(k, "bridgeUnlock") || str_eq(k, "bridge_unlock") {
            if m.bridge_unlock.is_some() {
                return Err(JsonError::DuplicateField("bridgeUnlock".to_string()));
            }
            match embedded_field(v) {
                Ok(x) => m.bridge_unlock = x,
                Err(e) => return Err(e),
            }
        } else if str_eq(k, "feeAssetChange") || str_eq(k, "fee_asset_change") {
            if m.fee_asset_change.is_some() {
                return Err(JsonError::DuplicateField("feeAssetChange".to_string()));
            }
            match embedded_field(v) {
                Ok(x) => m.fee_asset_change = x,
                Err(e) => return Err(e),
            }
        } else if str_eq(k, "feeChange") || str_eq(k, "fee_change") {
            if m.fee_change.is_some() {
                return Err(JsonError::DuplicateField("feeChange".to_string()));
            }
            match embedded_field(v) {
                Ok(x) => m.fee_change = x,
                Err(e) => return Err(e),
            }
        } else if str_eq(k, "ibcRelay") || str_eq(k, "ibc_relay") {
            if m.ibc_relay.is_some() {
                return Err(JsonError::DuplicateField("ibcRelay".to_string()));
            }
            match embedded_field(v) {
                Ok(x) => m.ibc_relay = x,
                Err(e) => return Err(e),
            }
        } else if str_eq(k, "ibcRelayerChange") || str_eq(k, "ibc_relayer_change") {
            if m.ibc_relayer_change.is_some() {
                return Err(JsonError::DuplicateField("ibcRelayerChange".to_string()));
            }
            match embedded_field(v) {
                Ok(x) => m.ibc_relayer_change = x,
                Err(e) => return Err(e),
            }
        } else if str_eq(k, "ibcSudoChange") || str_eq(k, "ibc_sudo_change") {
            if m.ibc_sudo_change.is_some() {
                return Err(JsonError::DuplicateField("ibcSudoChange".to_string()));
            }
            match embedded_field(v) {
                Ok(x) => m.ibc_sudo_change = x,
                Err(e) => return Err(e),
            }
        } else if str_eq(k, "ics20Withdrawal") || str_eq(k, "ics20_withdrawal") {
            if m.ics20_withdrawal.is_some() {
                return Err(JsonError::DuplicateField("ics20Withdrawal".to_string()));
            }
            match embedded_field(v) {
                Ok(x) => m.ics20_withdrawal = x,
                Err(e) => return Err(e),
            }
        } else if str_eq(k, "initBridgeAccount") || str_eq(k, "init_bridge_account") {
            if m.init_bridge_account.is_some() {
                return Err(JsonError::DuplicateField("initBridgeAccount".to_string()));
            }
            match embedded_field(v) {
                Ok(x) => m.init_bridge_account = x,
                Err(e) => return Err(e),
            }
        } else if str_eq(k, "rollupDataSubmission") || str_eq(k, "rollup_data_submission") {
            if m.rollup_data_submission.is_some() {
                return Err(JsonError::DuplicateField("rollupDataSubmission".to_string()));
            }
            match embedded_field(v) {
                Ok(x) => m.rollup_data_submission = x,
                Err(e) => return Err(e),
            }
        } else if str_eq(k, "sudoAddressChange") || str_eq(k, "sudo_address_change") {
            if m.sudo_address_change.is_some() {
                return Err(JsonError::DuplicateField("sudoAddressChange".to_string()));
            }
            match embedded_field(v) {
                Ok(x) => m.sudo_address_change = x,
                Err(e) => return Err(e),
            }
        } else if str_eq(k, "transfer") {
            if m.transfer.is_some() {
                return Err(JsonError::DuplicateField("transfer".to_string()));
            }
            match embedded_field(v) {
                Ok(x) => m.transfer = x,
                Err(e) => return Err(e),
            }
        } else if str_eq(k, "validatorUpdate") || str_eq(k, "validator_update") {
            if m.validator_update.is_some() {
                return Err(JsonError::DuplicateField("validatorUpdate".to_string()));
            }
            match embedded_field(v) {
                Ok(x) => m.validator_update = x,
                Err(e) => return Err(e),
            }
        } else if str_eq(k, "bridgeTransfer") || str_eq(k, "bridge_transfer") {
            if m.bridge_transfer.is_some() {
                return Err(JsonError::DuplicateField("bridgeTransfer".to_string()));
            }
            match embedded_field(v) {
                Ok(x) => m.bridge_transfer = x,
                Err(e) => return Err(e),
            }
        } else {
            return Err(JsonError::UnknownField(key.clone()));
        }
        Ok((m, seen))
    }

    /// Reads the message from a JSON value, as [`Self::spec_from_json`] describes.
    pub fn from_json(j: &Json) -> (r: Result<Self, JsonError>)
        ensures
            match r {
                Ok(m) => Self::spec_from_json(j@) == Ok::<GenesisFeesV, JsonErrorV>(m@),
                Err(e) => Self::spec_from_json(j@) == Err::<GenesisFeesV, JsonErrorV>(e@),
            },
    {
        let es = match j {
            Json::Object(es) => es,
            _ => return Err(JsonError::ExpectedObject),
        };
        let ghost ves = view_entries(es@);
        proof {
            lemma_view_entries_len(es@);
            assert(j@ == JsonV::Object(ves));
        }
        let mut m = Self::default();
        let mut seen: Vec<bool> = Vec::new();
        let mut i: usize = 0;
        proof {
            assert(seen@ =~= Self::spec_start().1);
            assert(ves.skip(0) == ves);
        }
        while i < es.len()
            invariant
                j@ == JsonV::Object(ves),
                ves == view_entries(es@),
                ves.len() == es@.len(),
                i <= es.len(),
                seen@.len() == 0,
                fold_entries(Self::spec_start(), ves, Self::step_fn())
                    == fold_entries((m@, seen@), ves.skip(i as int), Self::step_fn()),
            decreases es.len() - i,
        {
            proof {
                lemma_view_entries_index(es@, i as int);
                lemma_fold_entries_step((m@, seen@), ves, i as int, Self::step_fn());
            }
            match Self::step(m, seen, &es[i].0, &es[i].1) {
                Ok((m2, seen2)) => {
                    m = m2;
                    seen = seen2;
                },
                Err(e) => return Err(e),
            }
            i = i + 1;
        }
        proof {
            assert(ves.skip(ves.len() as int) == Seq::<(Seq<char>, JsonV)>::empty());
            assert(fold_entries((m@, seen@), ves.skip(ves.len() as int), Self::step_fn())
                == Ok::<(GenesisFeesV, Seq<bool>), JsonErrorV>((m@, seen@)));
        }
        Ok(m)
    }

    /// Reads an optional field of this message type.
    pub fn opt_from_json(v: &Json) -> (r: Result<Option<Self>, JsonError>)
        ensures
            match r {
                Ok(None) => Self::spec_read_opt(v@) == Ok::<Option<GenesisFeesV>, JsonErrorV>(None),
                Ok(Some(x)) => Self::spec_read_opt(v@) == Ok::<Option<GenesisFeesV>, JsonErrorV>(Some(x@)),
                Err(e) => Self::spec_read_opt(v@) == Err::<Option<GenesisFeesV>, JsonErrorV>(e@),
            },
    {
        match v {
            Json::Null => Ok(None),
            _ => match Self::from_json(v) {
                Ok(x) => Ok(Some(x)),
                Err(e) => Err(e),
            },
        }
    }

    /// Reading the member that the field `bridge_lock` writes sets the field.
    pub proof fn lemma_entry_bridge_lock(m: GenesisFeesV, st: (GenesisFeesV, Seq<bool>))
        requires
            st.1.len() == 0,
            st.0.bridge_lock is None,
        ensures
            fold_entries(st, Self::spec_entry_bridge_lock(m), Self::step_fn()) == Ok::<(GenesisFeesV, Seq<bool>), JsonErrorV>((GenesisFeesV { bridge_lock: m.bridge_lock, ..st.0 }, st.1)),
    {
        reveal_strlit("bridgeLock");
        reveal_strlit("bridge_lock");
        reveal_strlit("bridgeSudoChange");
        reveal_strlit("bridge_sudo_change");
        reveal_strlit("bridgeUnlock");
        reveal_strlit("bridge_unlock");
        reveal_strlit("feeAssetChange");
        reveal_strlit("fee_asset_change");
        reveal_strlit("feeChange");
        reveal_strlit("fee_change");
        reveal_strlit("ibcRelay");
        reveal_strlit("ibc_relay");
        reveal_strlit("ibcRelayerChange");
        reveal_strlit("ibc_relayer_change");
        reveal_strlit("ibcSudoChange");
        reveal_strlit("ibc_sudo_change");
        reveal_strlit("ics20Withdrawal");
        reveal_strlit("ics20_withdrawal");
        reveal_strlit("initBridgeAccount");
        reveal_strlit("init_bridge_account");
        reveal_strlit("rollupDataSubmission");
        reveal_strlit("rollup_data_submission");
        reveal_strlit("sudoAddressChange");
        reveal_strlit("sudo_address_change");
        reveal_strlit("transfer");
        reveal_strlit("validatorUpdate");
        reveal_strlit("validator_update");
        reveal_strlit("bridgeTransfer");
        reveal_strlit("bridge_transfer");
        assert("bridgeLock"@.len() == 10);
        assert("bridge_lock"@.len() == 11);
        assert("bridgeSudoChange"@.len() == 16);
        assert("bridge_sudo_change"@.len() == 18);
        assert("bridgeUnlock"@.len() == 12);
        assert("bridge_unlock"@.len() == 13);
        assert("feeAssetChange"@.len() == 14);
        assert("fee_asset_change"@.len() == 16);
        assert("feeChange"@.len() == 9);
        assert("fee_change"@.len() == 10);
        assert("ibcRelay"@.len() == 8);
        assert("ibc_relay"@.len() == 9);
        assert("ibcRelayerChange"@.len() == 16);
        assert("ibc_relayer_change"@.len() == 18);
        assert("ibcSudoChange"@.len() == 13);
        assert("ibc_sudo_change"@.len() == 15);
        assert("ics20Withdrawal"@.len() == 15);
        assert("ics20_withdrawal"@.len() == 16);
        assert("initBridgeAccount"@.len() == 17);
        assert("init_bridge_account"@.len() == 19);
        assert("rollupDataSubmission"@.len() == 20);
        assert("rollup_data_submission"@.len() == 22);
        assert("sudoAddressChange"@.len() == 17);
        assert("sudo_address_change"@.len() == 19);
        assert("transfer"@.len() == 8);
        assert("validatorUpdate"@.len() == 15);
        assert("validator_update"@.len() == 16);
        assert("bridgeTransfer"@.len() == 14);
        assert("bridge_transfer"@.len() == 15);
        assert("bridgeLock"@[0] != "fee_change"@[0]);
        assert("bridgeSudoChange"@[0] != "fee_asset_change"@[0]);
        assert("bridgeSudoChange"@[0] != "ibcRelayerChange"@[0]);
        assert("bridgeSudoChange"@[0] != "ics20_withdrawal"@[0]);
        assert("bridgeSudoChange"@[0] != "validator_update"@[0]);
        assert("bridge_sudo_change"@[0] != "ibc_relayer_change"@[0]);
        assert("bridge_unlock"@[0] != "ibcSudoChange"@[0]);
        assert("feeAssetChange"@[0] != "bridgeTransfer"@[0]);
        assert("fee_asset_change"@[0] != "ibcRelayerChange"@[0]);
        assert("fee_asset_change"@[0] != "ics20_withdrawal"@[0]);
        assert("fee_asset_change"@[0] != "validator_update"@[0]);
        assert("feeChange"@[0] != "ibc_relay"@[0]);
        assert("ibcRelay"@[0] != "transfer"@[0]);
        assert("ibcRelayerChange"@[1] != "ics20_withdrawal"@[1]);
        assert("ibcRelayerChange"@[0] != "validator_update"@[0]);
        assert("ibc_sudo_change"@[1] != "ics20Withdrawal"@[1]);
        assert("ibc_sudo_change"@[0] != "validatorUpdate"@[0]);
        assert("ibc_sudo_change"@[0] != "bridge_transfer"@[0]);
        assert("ics20Withdrawal"@[0] != "validatorUpdate"@[0]);
        assert("ics20Withdrawal"@[0] != "bridge_transfer"@[0]);
        assert("ics20_withdrawal"@[0] != "validator_update"@[0]);
        assert("initBridgeAccount"@[0] != "sudoAddressChange"@[0]);
        assert("init_bridge_account"@[0] != "sudo_address_change"@[0]);
        assert("validatorUpdate"@[0] != "bridge_transfer"@[0]);
        lemma_fold_entry_if(st, m.bridge_lock is Some, "bridgeLock"@, JsonV::Object(m.bridge_lock.unwrap()), Self::step_fn());
    }

    /// Reading the member that the field `bridge_sudo_change` writes sets the field.
    pub proof fn lemma_entry_bridge_sudo_change(m: GenesisFeesV, st: (GenesisFeesV, Seq<bool>))
        requires
            st.1.len() == 0,
            st.0.bridge_sudo_change is None,
        ensures
            fold_entries(st, Self::spec_entry_bridge_sudo_change(m), Self::step_fn()) == Ok::<(GenesisFeesV, Seq<bool>), JsonErrorV>((GenesisFeesV { bridge_sudo_change: m.bridge_sudo_change, ..st.0 }, st.1)),
    {
        reveal_strlit("bridgeLock");
        reveal_strlit("bridge_lock");
        reveal_strlit("bridgeSudoChange");
        reveal_strlit("bridge_sudo_change");
        reveal_strlit("bridgeUnlock");
        reveal_strlit("bridge_unlock");
        reveal_strlit("feeAssetChange");
        reveal_strlit("fee_asset_change");
        reveal_strlit("feeChange");
        reveal_strlit("fee_change");
        reveal_strlit("ibcRelay");
        reveal_strlit("ibc_relay");
        reveal_strlit("ibcRelayerChange");
        reveal_strlit("ibc_relayer_change");
        reveal_strlit("ibcSudoChange");
        reveal_strlit("ibc_sudo_change");
        reveal_strlit("ics20Withdrawal");
        reveal_strlit("ics20_withdrawal");
        reveal_strlit("initBridgeAccount");
        reveal_strlit("init_bridge_account");
        reveal_strlit("rollupDataSubmission");
        reveal_strlit("rollup_data_submission");
        reveal_strlit("sudoAddressChange");
        reveal_strlit("sudo_address_change");
        reveal_strlit("transfer");
        reveal_strlit("validatorUpdate");
        reveal_strlit("validator_update");
        reveal_strlit("bridgeTransfer");
        reveal_strlit("bridge_transfer");
        assert("bridgeLock"@.len() == 10);
        assert("bridge_lock"@.len() == 11);
        assert("bridgeSudoChange"@.len() == 16);
        assert("bridge_sudo_change"@.len() == 18);
        assert("bridgeUnlock"@.len() == 12);
        assert("bridge_unlock"@.len() == 13);
        assert("feeAssetChange"@.len() == 14);
        assert("fee_asset_change"@.len() == 16);
        assert("feeChange"@.len() == 9);
        assert("fee_change"@.len() == 10);
        assert("ibcRelay"@.len() == 8);
        assert("ibc_relay"@.len() == 9);
        assert("ibcRelayerChange"@.len() == 16);
        assert("ibc_relayer_change"@.len() == 18);
        assert("ibcSudoChange"@.len() == 13);
        assert("ibc_sudo_change"@.len() == 15);
        assert("ics20Withdrawal"@.len() == 15);
        assert("ics20_withdrawal"@.len() == 16);
        assert("initBridgeAccount"@.len() == 17);
        assert("init_bridge_account"@.len() == 19);
        assert("rollupDataSubmission"@.len() == 20);
        assert("rollup_data_submission"@.len() == 22);
        assert("sudoAddressChange"@.len() == 17);
        assert("sudo_address_change"@.len() == 19);
        assert("transfer"@.len() == 8);
        assert("validatorUpdate"@.len() == 15);
        assert("validator_update"@.len() == 16);
        assert("bridgeTransfer"@.len() == 14);
        assert("bridge_transfer"@.len() == 15);
        assert("bridgeLock"@[0] != "fee_change"@[0]);
        assert("bridgeSudoChange"@[0] != "fee_asset_change"@[0]);
        assert("bridgeSudoChange"@[0] != "ibcRelayerChange"@[0]);
        assert("bridgeSudoChange"@[0] != "ics20_withdrawal"@[0]);
        assert("bridgeSudoChange"@[0] != "validator_update"@[0]);
        assert("bridge_sudo_change"@[0] != "ibc_relayer_change"@[0]);
        assert("bridge_unlock"@[0] != "ibcSudoChange"@[0]);
        assert("feeAssetChange"@[0] != "bridgeTransfer"@[0]);
        assert("fee_asset_change"@[0] != "ibcRelayerChange"@[0]);
        assert("fee_asset_change"@[0] != "ics20_withdrawal"@[0]);
        assert("fee_asset_change"@[0] != "validator_update"@[0]);
        assert("feeChange"@[0] != "ibc_relay"@[0]);
        assert("ibcRelay"@[0] != "transfer"@[0]);
        assert("ibcRelayerChange"@[1] != "ics20_withdrawal"@[1]);
        assert("ibcRelayerChange"@[0] != "validator_update"@[0]);
        assert("ibc_sudo_change"@[1] != "ics20Withdrawal"@[1]);
        assert("ibc_sudo_change"@[0] != "validatorUpdate"@[0]);
        assert("ibc_sudo_change"@[0] != "bridge_transfer"@[0]);
        assert("ics20Withdrawal"@[0] != "validatorUpdate"@[0]);
        assert("ics20Withdrawal"@[0] != "bridge_transfer"@[0]);
        assert("ics20_withdrawal"@[0] != "validator_update"@[0]);
        assert("initBridgeAccount"@[0] != "sudoAddressChange"@[0]);
        assert("init_bridge_account"@[0] != "sudo_address_change"@[0]);
        assert("validatorUpdate"@[0] != "bridge_transfer"@[0]);
        lemma_fold_entry_if(st, m.bridge_sudo_change is Some, "bridgeSudoChange"@, JsonV::Object(m.bridge_sudo_change.unwrap()), Self::step_fn());
    }

    /// Reading the member that the field `bridge_unlock` writes sets the field.
    pub proof fn lemma_entry_bridge_unlock(m: GenesisFeesV, st: (GenesisFeesV, Seq<bool>))
        requires
            st.1.len() == 0,
            st.0.bridge_unlock is None,
        ensures
            fold_entries(st, Self::spec_entry_bridge_unlock(m), Self::step_fn()) == Ok::<(GenesisFeesV, Seq<bool>), JsonErrorV>((GenesisFeesV { bridge_unlock: m.bridge_unlock, ..st.0 }, st.1)),
    {
        reveal_strlit("bridgeLock");
        reveal_strlit("bridge_lock");
        reveal_strlit("bridgeSudoChange");
        reveal_strlit("bridge_sudo_change");
        reveal_strlit("bridgeUnlock");
        reveal_strlit("bridge_unlock");
        reveal_strlit("feeAssetChange");
        reveal_strlit("fee_asset_change");
        reveal_strlit("feeChange");
        reveal_strlit("fee_change");
        reveal_strlit("ibcRelay");
        reveal_strlit("ibc_relay");
        reveal_strlit("ibcRelayerChange");
        reveal_strlit("ibc_relayer_change");
        reveal_strlit("ibcSudoChange");
        reveal_strlit("ibc_sudo_change");
        reveal_strlit("ics20Withdrawal");
        reveal_strlit("ics20_withdrawal");
        reveal_strlit("initBridgeAccount");
        reveal_strlit("init_bridge_account");
        reveal_strlit("rollupDataSubmission");
        reveal_strlit("rollup_data_submission");
        reveal_strlit("sudoAddressChange");
        reveal_strlit("sudo_address_change");
        reveal_strlit("transfer");
        reveal_strlit("validatorUpdate");
        reveal_strlit("validator_update");
        reveal_strlit("bridgeTransfer");
        reveal_strlit("bridge_transfer");
        assert("bridgeLock"@.len() == 10);
        assert("bridge_lock"@.len() == 11);
        assert("bridgeSudoChange"@.len() == 16);
        assert("bridge_sudo_change"@.len() == 18);
        assert("bridgeUnlock"@.len() == 12);
        assert("bridge_unlock"@.len() == 13);
        assert("feeAssetChange"@.len() == 14);
        assert("fee_asset_change"@.len() == 16);
        assert("feeChange"@.len() == 9);
        assert("fee_change"@.len() == 10);
        assert("ibcRelay"@.len() == 8);
        assert("ibc_relay"@.len() == 9);
        assert("ibcRelayerChange"@.len() == 16);
        assert("ibc_relayer_change"@.len() == 18);
        assert("ibcSudoChange"@.len() == 13);
        assert("ibc_sudo_change"@.len() == 15);
        assert("ics20Withdrawal"@.len() == 15);
        assert("ics20_withdrawal"@.len() == 16);
        assert("initBridgeAccount"@.len() == 17);
        assert("init_bridge_account"@.len() == 19);
        assert("rollupDataSubmission"@.len() == 20);
        assert("rollup_data_submission"@.len() == 22);
        assert("sudoAddressChange"@.len() == 17);
        assert("sudo_address_change"@.len() == 19);
        assert("transfer"@.len() == 8);
        assert("validatorUpdate"@.len() == 15);
        assert("validator_update"@.len() == 16);
        assert("bridgeTransfer"@.len() == 14);
        assert("bridge_transfer"@.len() == 15);
        assert("bridgeLock"@[0] != "fee_change"@[0]);
        assert("bridgeSudoChange"@[0] != "fee_asset_change"@[0]);
        assert("bridgeSudoChange"@[0] != "ibcRelayerChange"@[0]);
        assert("bridgeSudoChange"@[0] != "ics20_withdrawal"@[0]);
        assert("bridgeSudoChange"@[0] != "validator_update"@[0]);
        assert("bridge_sudo_change"@[0] != "ibc_relayer_change"@[0]);
        assert("bridge_unlock"@[0] != "ibcSudoChange"@[0]);
        assert("feeAssetChange"@[0] != "bridgeTransfer"@[0]);
        assert("fee_asset_change"@[0] != "ibcRelayerChange"@[0]);
        assert("fee_asset_change"@[0] != "ics20_withdrawal"@[0]);
        assert("fee_asset_change"@[0] != "validator_update"@[0]);
        assert("feeChange"@[0] != "ibc_relay"@[0]);
        assert("ibcRelay"@[0] != "transfer"@[0]);
        assert("ibcRelayerChange"@[1] != "ics20_withdrawal"@[1]);
        assert("ibcRelayerChange"@[0] != "validator_update"@[0]);
        assert("ibc_sudo_change"@[1] != "ics20Withdrawal"@[1]);
        assert("ibc_sudo_change"@[0] != "validatorUpdate"@[0]);
        assert("ibc_sudo_change"@[0] != "bridge_transfer"@[0]);
        assert("ics20Withdrawal"@[0] != "validatorUpdate"@[0]);
        assert("ics20Withdrawal"@[0] != "bridge_transfer"@[0]);
        assert("ics20_withdrawal"@[0] != "validator_update"@[0]);
        assert("initBridgeAccount"@[0] != "sudoAddressChange"@[0]);
        assert("init_bridge_account"@[0] != "sudo_address_change"@[0]);
        assert("validatorUpdate"@[0] != "bridge_transfer"@[0]);
        lemma_fold_entry_if(st, m.bridge_unlock is Some, "bridgeUnlock"@, JsonV::Object(m.bridge_unlock.unwrap()), Self::step_fn());
    }

    /// Reading the member that the field `fee_asset_change` writes sets the field.
    pub proof fn lemma_entry_fee_asset_change(m: GenesisFeesV, st: (GenesisFeesV, Seq<bool>))
        requires
            st.1.len() == 0,
            st.0.fee_asset_change is None,
        ensures
            fold_entries(st, Self::spec_entry_fee_asset_change(m), Self::step_fn()) == Ok::<(GenesisFeesV, Seq<bool>), JsonErrorV>((GenesisFeesV { fee_asset_change: m.fee_asset_change, ..st.0 }, st.1)),
    {
        reveal_strlit("bridgeLock");
        reveal_strlit("bridge_lock");
        reveal_strlit("bridgeSudoChange");
        reveal_strlit("bridge_sudo_change");
        reveal_strlit("bridgeUnlock");
        reveal_strlit("bridge_unlock");
        reveal_strlit("feeAssetChange");
        reveal_strlit("fee_asset_change");
        reveal_strlit("feeChange");
        reveal_strlit("fee_change");
        reveal_strlit("ibcRelay");
        reveal_strlit("ibc_relay");
        reveal_strlit("ibcRelayerChange");
        reveal_strlit("ibc_relayer_change");
        reveal_strlit("ibcSudoChange");
        reveal_strlit("ibc_sudo_change");
        reveal_strlit("ics20Withdrawal");
        reveal_strlit("ics20_withdrawal");
        reveal_strlit("initBridgeAccount");
        reveal_strlit("init_bridge_account");
        reveal_strlit("rollupDataSubmission");
        reveal_strlit("rollup_data_submission");
        reveal_strlit("sudoAddressChange");
        reveal_strlit("sudo_address_change");
        reveal_strlit("transfer");
        reveal_strlit("validatorUpdate");
        reveal_strlit("validator_update");
        reveal_strlit("bridgeTransfer");
        reveal_strlit("bridge_transfer");
        assert("bridgeLock"@.len() == 10);
        assert("bridge_lock"@.len() == 11);
        assert("bridgeSudoChange"@.len() == 16);
        assert("bridge_sudo_change"@.len() == 18);
        assert("bridgeUnlock"@.len() == 12);
        assert("bridge_unlock"@.len() == 13);
        assert("feeAssetChange"@.len() == 14);
        assert("fee_asset_change"@.len() == 16);
        assert("feeChange"@.len() == 9);
        assert("fee_change"@.len() == 10);
        assert("ibcRelay"@.len() == 8);
        assert("ibc_relay"@.len() == 9);
        assert("ibcRelayerChange"@.len() == 16);
        assert("ibc_relayer_change"@.len() == 18);
        assert("ibcSudoChange"@.len() == 13);
        assert("ibc_sudo_change"@.len() == 15);
        assert("ics20Withdrawal"@.len() == 15);
        assert("ics20_withdrawal"@.len() == 16);
        assert("initBridgeAccount"@.len() == 17);
        assert("init_bridge_account"@.len() == 19);
        assert("rollupDataSubmission"@.len() == 20);
        assert("rollup_data_submission"@.len() == 22);
        assert("sudoAddressChange"@.len() == 17);
        assert("sudo_address_change"@.len() == 19);
        assert("transfer"@.len() == 8);
        assert("validatorUpdate"@.len() == 15);
        assert("validator_update"@.len() == 16);
        assert("bridgeTransfer"@.len() == 14);
        assert("bridge_transfer"@.len() == 15);
        assert("bridgeLock"@[0] != "fee_change"@[0]);
        assert("bridgeSudoChange"@[0] != "fee_asset_change"@[0]);
        assert("bridgeSudoChange"@[0] != "ibcRelayerChange"@[0]);
        assert("bridgeSudoChange"@[0] != "ics20_withdrawal"@[0]);
        assert("bridgeSudoChange"@[0] != "validator_update"@[0]);
        assert("bridge_sudo_change"@[0] != "ibc_relayer_change"@[0]);
        assert("bridge_unlock"@[0] != "ibcSudoChange"@[0]);
        assert("feeAssetChange"@[0] != "bridgeTransfer"@[0]);
        assert("fee_asset_change"@[0] != "ibcRelayerChange"@[0]);
        assert("fee_asset_change"@[0] != "ics20_withdrawal"@[0]);
        assert("fee_asset_change"@[0] != "validator_update"@[0]);
        assert("feeChange"@[0] != "ibc_relay"@[0]);
        assert("ibcRelay"@[0] != "transfer"@[0]);
        assert("ibcRelayerChange"@[1] != "ics20_withdrawal"@[1]);
        assert("ibcRelayerChange"@[0] != "validator_update"@[0]);
        assert("ibc_sudo_change"@[1] != "ics20Withdrawal"@[1]);
        assert("ibc_sudo_change"@[0] != "validatorUpdate"@[0]);
        assert("ibc_sudo_change"@[0] != "bridge_transfer"@[0]);
        assert("ics20Withdrawal"@[0] != "validatorUpdate"@[0]);
        assert("ics20Withdrawal"@[0] != "bridge_transfer"@[0]);
        assert("ics20_withdrawal"@[0] != "validator_update"@[0]);
        assert("initBridgeAccount"@[0] != "sudoAddressChange"@[0]);
        assert("init_bridge_account"@[0] != "sudo_address_change"@[0]);
        assert("validatorUpdate"@[0] != "bridge_transfer"@[0]);
        lemma_fold_entry_if(st, m.fee_asset_change is Some, "feeAssetChange"@, JsonV::Object(m.fee_asset_change.unwrap()), Self::step_fn());
    }

    /// Reading the member that the field `fee_change` writes sets the field.
    pub proof fn lemma_entry_fee_change(m: GenesisFeesV, st: (GenesisFeesV, Seq<bool>))
        requires
            st.1.len() == 0,
            st.0.fee_change is None,
        ensures
            fold_entries(st, Self::spec_entry_fee_change(m), Self::step_fn()) == Ok::<(GenesisFeesV, Seq<bool>), JsonErrorV>((GenesisFeesV { fee_change: m.fee_change, ..st.0 }, st.1)),
    {
        reveal_strlit("bridgeLock");
        reveal_strlit("bridge_lock");
        reveal_strlit("bridgeSudoChange");
        reveal_strlit("bridge_sudo_change");
        reveal_strlit("bridgeUnlock");
        reveal_strlit("bridge_unlock");
        reveal_strlit("feeAssetChange");
        reveal_strlit("fee_asset_change");
        reveal_strlit("feeChange");
        reveal_strlit("fee_change");
        reveal_strlit("ibcRelay");
        reveal_strlit("ibc_relay");
        reveal_strlit("ibcRelayerChange");
        reveal_strlit("ibc_relayer_change");
        reveal_strlit("ibcSudoChange");
        reveal_strlit("ibc_sudo_change");
        reveal_strlit("ics20Withdrawal");
        reveal_strlit("ics20_withdrawal");
        reveal_strlit("initBridgeAccount");
        reveal_strlit("init_bridge_account");
        reveal_strlit("rollupDataSubmission");
        reveal_strlit("rollup_data_submission");
        reveal_strlit("sudoAddressChange");
        reveal_strlit("sudo_address_change");
        reveal_strlit("transfer");
        reveal_strlit("validatorUpdate");
        reveal_strlit("validator_update");
        reveal_strlit("bridgeTransfer");
        reveal_strlit("bridge_transfer");
        assert("bridgeLock"@.len() == 10);
        assert("bridge_lock"@.len() == 11);
        assert("bridgeSudoChange"@.len() == 16);
        assert("bridge_sudo_change"@.len() == 18);
        assert("bridgeUnlock"@.len() == 12);
        assert("bridge_unlock"@.len() == 13);
        assert("feeAssetChange"@.len() == 14);
        assert("fee_asset_change"@.len() == 16);
        assert("feeChange"@.len() == 9);
        assert("fee_change"@.len() == 10);
        assert("ibcRelay"@.len() == 8);
        assert("ibc_relay"@.len() == 9);
        assert("ibcRelayerChange"@.len() == 16);
        assert("ibc_relayer_change"@.len() == 18);
        assert("ibcSudoChange"@.len() == 13);
        assert("ibc_sudo_change"@.len() == 15);
        assert("ics20Withdrawal"@.len() == 15);
        assert("ics20_withdrawal"@.len() == 16);
        assert("initBridgeAccount"@.len() == 17);
        assert("init_bridge_account"@.len() == 19);
        assert("rollupDataSubmission"@.len() == 20);
        assert("rollup_data_submission"@.len() == 22);
        assert("sudoAddressChange"@.len() == 17);
        assert("sudo_address_change"@.len() == 19);
        assert("transfer"@.len() == 8);
        assert("validatorUpdate"@.len() == 15);
        assert("validator_update"@.len() == 16);
        assert("bridgeTransfer"@.len() == 14);
        assert("bridge_transfer"@.len() == 15);
        assert("bridgeLock"@[0] != "fee_change"@[0]);
        assert("bridgeSudoChange"@[0] != "fee_asset_change"@[0]);
        assert("bridgeSudoChange"@[0] != "ibcRelayerChange"@[0]);
        assert("bridgeSudoChange"@[0] != "ics20_withdrawal"@[0]);
        assert("bridgeSudoChange"@[0] != "validator_update"@[0]);
        assert("bridge_sudo_change"@[0] != "ibc_relayer_change"@[0]);
        assert("bridge_unlock"@[0] != "ibcSudoChange"@[0]);
        assert("feeAssetChange"@[0] != "bridgeTransfer"@[0]);
        assert("fee_asset_change"@[0] != "ibcRelayerChange"@[0]);
        assert("fee_asset_change"@[0] != "ics20_withdrawal"@[0]);
        assert("fee_asset_change"@[0] != "validator_update"@[0]);
        assert("feeChange"@[0] != "ibc_relay"@[0]);
        assert("ibcRelay"@[0] != "transfer"@[0]);
        assert("ibcRelayerChange"@[1] != "ics20_withdrawal"@[1]);
        assert("ibcRelayerChange"@[0] != "validator_update"@[0]);
        assert("ibc_sudo_change"@[1] != "ics20Withdrawal"@[1]);
        assert("ibc_sudo_change"@[0] != "validatorUpdate"@[0]);
        assert("ibc_sudo_change"@[0] != "bridge_transfer"@[0]);
        assert("ics20Withdrawal"@[0] != "validatorUpdate"@[0]);
        assert("ics20Withdrawal"@[0] != "bridge_transfer"@[0]);
        assert("ics20_withdrawal"@[0] != "validator_update"@[0]);
        assert("initBridgeAccount"@[0] != "sudoAddressChange"@[0]);
        assert("init_bridge_account"@[0] != "sudo_address_change"@[0]);
        assert("validatorUpdate"@[0] != "bridge_transfer"@[0]);
        lemma_fold_entry_if(st, m.fee_change is Some, "feeChange"@, JsonV::Object(m.fee_change.unwrap()), Self::step_fn());
    }

    /// Reading the member that the field `ibc_relay` writes sets the field.
    pub proof fn lemma_entry_ibc_relay(m: GenesisFeesV, st: (GenesisFeesV, Seq<bool>))
        requires
            st.1.len() == 0,
            st.0.ibc_relay is None,
        ensures
            fold_entries(st, Self::spec_entry_ibc_relay(m), Self::step_fn()) == Ok::<(GenesisFeesV, Seq<bool>), JsonErrorV>((GenesisFeesV { ibc_relay: m.ibc_relay, ..st.0 }, st.1)),
    {
        reveal_strlit("bridgeLock");
        reveal_strlit("bridge_lock");
        reveal_strlit("bridgeSudoChange");
        reveal_strlit("bridge_sudo_change");
        reveal_strlit("bridgeUnlock");
        reveal_strlit("bridge_unlock");
        reveal_strlit("feeAssetChange");
        reveal_strlit("fee_asset_change");
        reveal_strlit("feeChange");
        reveal_strlit("fee_change");
        reveal_strlit("ibcRelay");
        reveal_strlit("ibc_relay");
        reveal_strlit("ibcRelayerChange");
        reveal_strlit("ibc_relayer_change");
        reveal_strlit("ibcSudoChange");
        reveal_strlit("ibc_sudo_change");
        reveal_strlit("ics20Withdrawal");
        reveal_strlit("ics20_withdrawal");
        reveal_strlit("initBridgeAccount");
        reveal_strlit("init_bridge_account");
        reveal_strlit("rollupDataSubmission");
        reveal_strlit("rollup_data_submission");
        reveal_strlit("sudoAddressChange");
        reveal_strlit("sudo_address_change");
        reveal_strlit("transfer");
        reveal_strlit("validatorUpdate");
        reveal_strlit("validator_update");
        reveal_strlit("bridgeTransfer");
        reveal_strlit("bridge_transfer");
        assert("bridgeLock"@.len() == 10);
        assert("bridge_lock"@.len() == 11);
        assert("bridgeSudoChange"@.len() == 16);
        assert("bridge_sudo_change"@.len() == 18);
        assert("bridgeUnlock"@.len() == 12);
        assert("bridge_unlock"@.len() == 13);
        assert("feeAssetChange"@.len() == 14);
        assert("fee_asset_change"@.len() == 16);
        assert("feeChange"@.len() == 9);
        assert("fee_change"@.len() == 10);
        assert("ibcRelay"@.len() == 8);
        assert("ibc_relay"@.len() == 9);
        assert("ibcRelayerChange"@.len() == 16);
        assert("ibc_relayer_change"@.len() == 18);
        assert("ibcSudoChange"@.len() == 13);
        assert("ibc_sudo_change"@.len() == 15);
        assert("ics20Withdrawal"@.len() == 15);
        assert("ics20_withdrawal"@.len() == 16);
        assert("initBridgeAccount"@.len() == 17);
        assert("init_bridge_account"@.len() == 19);
        assert("rollupDataSubmission"@.len() == 20);
        assert("rollup_data_submission"@.len() == 22);
        assert("sudoAddressChange"@.len() == 17);
        assert("sudo_address_change"@.len() == 19);
        assert("transfer"@.len() == 8);
        assert("validatorUpdate"@.len() == 15);
        assert("validator_update"@.len() == 16);
        assert("bridgeTransfer"@.len() == 14);
        assert("bridge_transfer"@.len() == 15);
        assert("bridgeLock"@[0] != "fee_change"@[0]);
        assert("bridgeSudoChange"@[0] != "fee_asset_change"@[0]);
        assert("bridgeSudoChange"@[0] != "ibcRelayerChange"@[0]);
        assert("bridgeSudoChange"@[0] != "ics20_withdrawal"@[0]);
        assert("bridgeSudoChange"@[0] != "validator_update"@[0]);
        assert("bridge_sudo_change"@[0] != "ibc_relayer_change"@[0]);
        assert("bridge_unlock"@[0] != "ibcSudoChange"@[0]);
        assert("feeAssetChange"@[0] != "bridgeTransfer"@[0]);
        assert("fee_asset_change"@[0] != "ibcRelayerChange"@[0]);
        assert("fee_asset_change"@[0] != "ics20_withdrawal"@[0]);
        assert("fee_asset_change"@[0] != "validator_update"@[0]);
        assert("feeChange"@[0] != "ibc_relay"@[0]);
        assert("ibcRelay"@[0] != "transfer"@[0]);
        assert("ibcRelayerChange"@[1] != "ics20_withdrawal"@[1]);
        assert("ibcRelayerChange"@[0] != "validator_update"@[0]);
        assert("ibc_sudo_change"@[1] != "ics20Withdrawal"@[1]);
        assert("ibc_sudo_change"@[0] != "validatorUpdate"@[0]);
        assert("ibc_sudo_change"@[0] != "bridge_transfer"@[0]);
        assert("ics20Withdrawal"@[0] != "validatorUpdate"@[0]);
        assert("ics20Withdrawal"@[0] != "bridge_transfer"@[0]);
        assert("ics20_withdrawal"@[0] != "validator_update"@[0]);
        assert("initBridgeAccount"@[0] != "sudoAddressChange"@[0]);
        assert("init_bridge_account"@[0] != "sudo_address_change"@[0]);
        assert("validatorUpdate"@[0] != "bridge_transfer"@[0]);
        lemma_fold_entry_if(st, m.ibc_relay is Some, "ibcRelay"@, JsonV::Object(m.ibc_relay.unwrap()), Self::step_fn());
    }

    /// Reading the member that the field `ibc_relayer_change` writes sets the field.
    pub proof fn lemma_entry_ibc_relayer_change(m: GenesisFeesV, st: (GenesisFeesV, Seq<bool>))
        requires
            st.1.len() == 0,
            st.0.ibc_relayer_change is None,
        ensures
            fold_entries(st, Self::spec_entry_ibc_relayer_change(m), Self::step_fn()) == Ok::<(GenesisFeesV, Seq<bool>), JsonErrorV>((GenesisFeesV { ibc_relayer_change: m.ibc_relayer_change, ..st.0 }, st.1)),
    {
        reveal_strlit("bridgeLock");
        reveal_strlit("bridge_lock");
        reveal_strlit("bridgeSudoChange");
        reveal_strlit("bridge_sudo_change");
        reveal_strlit("bridgeUnlock");
        reveal_strlit("bridge_unlock");
        reveal_strlit("feeAssetChange");
        reveal_strlit("fee_asset_change");
        reveal_strlit("feeChange");
        reveal_strlit("fee_change");
        reveal_strlit("ibcRelay");
        reveal_strlit("ibc_relay");
        reveal_strlit("ibcRelayerChange");
        reveal_strlit("ibc_relayer_change");
        reveal_strlit("ibcSudoChange");
        reveal_strlit("ibc_sudo_change");
        reveal_strlit("ics20Withdrawal");
        reveal_strlit("ics20_withdrawal");
        reveal_strlit("initBridgeAccount");
        reveal_strlit("init_bridge_account");
        reveal_strlit("rollupDataSubmission");
        reveal_strlit("rollup_data_submission");
        reveal_strlit("sudoAddressChange");
        reveal_strlit("sudo_address_change");
        reveal_strlit("transfer");
        reveal_strlit("validatorUpdate");
        reveal_strlit("validator_update");
        reveal_strlit("bridgeTransfer");
        reveal_strlit("bridge_transfer");
        assert("bridgeLock"@.len() == 10);
        assert("bridge_lock"@.len() == 11);
        assert("bridgeSudoChange"@.len() == 16);
        assert("bridge_sudo_change"@.len() == 18);
        assert("bridgeUnlock"@.len() == 12);
        assert("bridge_unlock"@.len() == 13);
        assert("feeAssetChange"@.len() == 14);
        assert("fee_asset_change"@.len() == 16);
        assert("feeChange"@.len() == 9);
        assert("fee_change"@.len() == 10);
        assert("ibcRelay"@.len() == 8);
        assert("ibc_relay"@.len() == 9);
        assert("ibcRelayerChange"@.len() == 16);
        assert("ibc_relayer_change"@.len() == 18);
        assert("ibcSudoChange"@.len() == 13);
        assert("ibc_sudo_change"@.len() == 15);
        assert("ics20Withdrawal"@.len() == 15);
        assert("ics20_withdrawal"@.len() == 16);
        assert("initBridgeAccount"@.len() == 17);
        assert("init_bridge_account"@.len() == 19);
        assert("rollupDataSubmission"@.len() == 20);
        assert("rollup_data_submission"@.len() == 22);
        assert("sudoAddressChange"@.len() == 17);
        assert("sudo_address_change"@.len() == 19);
        assert("transfer"@.len() == 8);
        assert("validatorUpdate"@.len() == 15);
        assert("validator_update"@.len() == 16);
        assert("bridgeTransfer"@.len() == 14);
        assert("bridge_transfer"@.len() == 15);
        assert("bridgeLock"@[0] != "fee_change"@[0]);
        assert("bridgeSudoChange"@[0] != "fee_asset_change"@[0]);
        assert("bridgeSudoChange"@[0] != "ibcRelayerChange"@[0]);
        assert("bridgeSudoChange"@[0] != "ics20_withdrawal"@[0]);
        assert("bridgeSudoChange"@[0] != "validator_update"@[0]);
        assert("bridge_sudo_change"@[0] != "ibc_relayer_change"@[0]);
        assert("bridge_unlock"@[0] != "ibcSudoChange"@[0]);
        assert("feeAssetChange"@[0] != "bridgeTransfer"@[0]);
        assert("fee_asset_change"@[0] != "ibcRelayerChange"@[0]);
        assert("fee_asset_change"@[0] != "ics20_withdrawal"@[0]);
        assert("fee_asset_change"@[0] != "validator_update"@[0]);
        assert("feeChange"@[0] != "ibc_relay"@[0]);
        assert("ibcRelay"@[0] != "transfer"@[0]);
        assert("ibcRelayerChange"@[1] != "ics20_withdrawal"@[1]);
        assert("ibcRelayerChange"@[0] != "validator_update"@[0]);
        assert("ibc_sudo_change"@[1] != "ics20Withdrawal"@[1]);
        assert("ibc_sudo_change"@[0] != "validatorUpdate"@[0]);
        assert("ibc_sudo_change"@[0] != "bridge_transfer"@[0]);
        assert("ics20Withdrawal"@[0] != "validatorUpdate"@[0]);
        assert("ics20Withdrawal"@[0] != "bridge_transfer"@[0]);
        assert("ics20_withdrawal"@[0] != "validator_update"@[0]);
        assert("initBridgeAccount"@[0] != "sudoAddressChange"@[0]);
        assert("init_bridge_account"@[0] != "sudo_address_change"@[0]);
        assert("validatorUpdate"@[0] != "bridge_transfer"@[0]);
        lemma_fold_entry_if(st, m.ibc_relayer_change is Some, "ibcRelayerChange"@, JsonV::Object(m.ibc_relayer_change.unwrap()), Self::step_fn());
    }

    /// Reading the member that the field `ibc_sudo_change` writes sets the field.
    pub proof fn lemma_entry_ibc_sudo_change(m: GenesisFeesV, st: (GenesisFeesV, Seq<bool>))
        requires
            st.1.len() == 0,
            st.0.ibc_sudo_change is None,
        ensures
            fold_entries(st, Self::spec_entry_ibc_sudo_change(m), Self::step_fn()) == Ok::<(GenesisFeesV, Seq<bool>), JsonErrorV>((GenesisFeesV { ibc_sudo_change: m.ibc_sudo_change, ..st.0 }, st.1)),
    {
        reveal_strlit("bridgeLock");
        reveal_strlit("bridge_lock");
        reveal_strlit("bridgeSudoChange");
        reveal_strlit("bridge_sudo_change");
        reveal_strlit("bridgeUnlock");
        reveal_strlit("bridge_unlock");
        reveal_strlit("feeAssetChange");
        reveal_strlit("fee_asset_change");
        reveal_strlit("feeChange");
        reveal_strlit("fee_change");
        reveal_strlit("ibcRelay");
        reveal_strlit("ibc_relay");
        reveal_strlit("ibcRelayerChange");
        reveal_strlit("ibc_relayer_change");
        reveal_strlit("ibcSudoChange");
        reveal_strlit("ibc_sudo_change");
        reveal_strlit("ics20Withdrawal");
        reveal_strlit("ics20_withdrawal");
        reveal_strlit("initBridgeAccount");
        reveal_strlit("init_bridge_account");
        reveal_strlit("rollupDataSubmission");
        reveal_strlit("rollup_data_submission");
        reveal_strlit("sudoAddressChange");
        reveal_strlit("sudo_address_change");
        reveal_strlit("transfer");
        reveal_strlit("validatorUpdate");
        reveal_strlit("validator_update");
        reveal_strlit("bridgeTransfer");
        reveal_strlit("bridge_transfer");
        assert("bridgeLock"@.len() == 10);
        assert("bridge_lock"@.len() == 11);
        assert("bridgeSudoChange"@.len() == 16);
        assert("bridge_sudo_change"@.len() == 18);
        assert("bridgeUnlock"@.len() == 12);
        assert("bridge_unlock"@.len() == 13);
        assert("feeAssetChange"@.len() == 14);
        assert("fee_asset_change"@.len() == 16);
        assert("feeChange"@.len() == 9);
        assert("fee_change"@.len() == 10);
        assert("ibcRelay"@.len() == 8);
        assert("ibc_relay"@.len() == 9);
        assert("ibcRelayerChange"@.len() == 16);
        assert("ibc_relayer_change"@.len() == 18);
        assert("ibcSudoChange"@.len() == 13);
        assert("ibc_sudo_change"@.len() == 15);
        assert("ics20Withdrawal"@.len() == 15);
        assert("ics20_withdrawal"@.len() == 16);
        assert("initBridgeAccount"@.len() == 17);
        assert("init_bridge_account"@.len() == 19);
        assert("rollupDataSubmission"@.len() == 20);
        assert("rollup_data_submission"@.len() == 22);
        assert("sudoAddressChange"@.len() == 17);
        assert("sudo_address_change"@.len() == 19);
        assert("transfer"@.len() == 8);
        assert("validatorUpdate"@.len() == 15);
        assert("validator_update"@.len() == 16);
        assert("bridgeTransfer"@.len() == 14);
        assert("bridge_transfer"@.len() == 15);
        assert("bridgeLock"@[0] != "fee_change"@[0]);
        assert("bridgeSudoChange"@[0] != "fee_asset_change"@[0]);
        assert("bridgeSudoChange"@[0] != "ibcRelayerChange"@[0]);
        assert("bridgeSudoChange"@[0] != "ics20_withdrawal"@[0]);
        assert("bridgeSudoChange"@[0] != "validator_update"@[0]);
        assert("bridge_sudo_change"@[0] != "ibc_relayer_change"@[0]);
        assert("bridge_unlock"@[0] != "ibcSudoChange"@[0]);
        assert("feeAssetChange"@[0] != "bridgeTransfer"@[0]);
        assert("fee_asset_change"@[0] != "ibcRelayerChange"@[0]);
        assert("fee_asset_change"@[0] != "ics20_withdrawal"@[0]);
        assert("fee_asset_change"@[0] != "validator_update"@[0]);
        assert("feeChange"@[0] != "ibc_relay"@[0]);
        assert("ibcRelay"@[0] != "transfer"@[0]);
        assert("ibcRelayerChange"@[1] != "ics20_withdrawal"@[1]);
        assert("ibcRelayerChange"@[0] != "validator_update"@[0]);
        assert("ibc_sudo_change"@[1] != "ics20Withdrawal"@[1]);
        assert("ibc_sudo_change"@[0] != "validatorUpdate"@[0]);
        assert("ibc_sudo_change"@[0] != "bridge_transfer"@[0]);
        assert("ics20Withdrawal"@[0] != "validatorUpdate"@[0]);
        assert("ics20Withdrawal"@[0] != "bridge_transfer"@[0]);
        assert("ics20_withdrawal"@[0] != "validator_update"@[0]);
        assert("initBridgeAccount"@[0] != "sudoAddressChange"@[0]);
        assert("init_bridge_account"@[0] != "sudo_address_change"@[0]);
        assert("validatorUpdate"@[0] != "bridge_transfer"@[0]);
        lemma_fold_entry_if(st, m.ibc_sudo_change is Some, "ibcSudoChange"@, JsonV::Object(m.ibc_sudo_change.unwrap()), Self::step_fn());
    }

    /// Reading the member that the field `ics20_withdrawal` writes sets the field.
    pub proof fn lemma_entry_ics20_withdrawal(m: GenesisFeesV, st: (GenesisFeesV, Seq<bool>))
        requires
            st.1.len() == 0,
            st.0.ics20_withdrawal is None,
        ensures
            fold_entries(st, Self::spec_entry_ics20_withdrawal(m), Self::step_fn()) == Ok::<(GenesisFeesV, Seq<bool>), JsonErrorV>((GenesisFeesV { ics20_withdrawal: m.ics20_withdrawal, ..st.0 }, st.1)),
    {
        reveal_strlit("bridgeLock");
        reveal_strlit("bridge_lock");
        reveal_strlit("bridgeSudoChange");
        reveal_strlit("bridge_sudo_change");
        reveal_strlit("bridgeUnlock");
        reveal_strlit("bridge_unlock");
        reveal_strlit("feeAssetChange");
        reveal_strlit("fee_asset_change");
        reveal_strlit("feeChange");
        reveal_strlit("fee_change");
        reveal_strlit("ibcRelay");
        reveal_strlit("ibc_relay");
        reveal_strlit("ibcRelayerChange");
        reveal_strlit("ibc_relayer_change");
        reveal_strlit("ibcSudoChange");
        reveal_strlit("ibc_sudo_change");
        reveal_strlit("ics20Withdrawal");
        reveal_strlit("ics20_withdrawal");
        reveal_strlit("initBridgeAccount");
        reveal_strlit("init_bridge_account");
        reveal_strlit("rollupDataSubmission");
        reveal_strlit("rollup_data_submission");
        reveal_strlit("sudoAddressChange");
        reveal_strlit("sudo_address_change");
        reveal_strlit("transfer");
        reveal_strlit("validatorUpdate");
        reveal_strlit("validator_update");
        reveal_strlit("bridgeTransfer");
        reveal_strlit("bridge_transfer");
        assert("bridgeLock"@.len() == 10);
        assert("bridge_lock"@.len() == 11);
        assert("bridgeSudoChange"@.len() == 16);
        assert("bridge_sudo_change"@.len() == 18);
        assert("bridgeUnlock"@.len() == 12);
        assert("bridge_unlock"@.len() == 13);
        assert("feeAssetChange"@.len() == 14);
        assert("fee_asset_change"@.len() == 16);
        assert("feeChange"@.len() == 9);
        assert("fee_change"@.len() == 10);
        assert("ibcRelay"@.len() == 8);
        assert("ibc_relay"@.len() == 9);
        assert("ibcRelayerChange"@.len() == 16);
        assert("ibc_relayer_change"@.len() == 18);
        assert("ibcSudoChange"@.len() == 13);
        assert("ibc_sudo_change"@.len() == 15);
        assert("ics20Withdrawal"@.len() == 15);
        assert("ics20_withdrawal"@.len() == 16);
        assert("initBridgeAccount"@.len() == 17);
        assert("init_bridge_account"@.len() == 19);
        assert("rollupDataSubmission"@.len() == 20);
        assert("rollup_data_submission"@.len() == 22);
        assert("sudoAddressChange"@.len() == 17);
        assert("sudo_address_change"@.len() == 19);
        assert("transfer"@.len() == 8);
        assert("validatorUpdate"@.len() == 15);
        assert("validator_update"@.len() == 16);
        assert("bridgeTransfer"@.len() == 14);
        assert("bridge_transfer"@.len() == 15);
        assert("bridgeLock"@[0] != "fee_change"@[0]);
        assert("bridgeSudoChange"@[0] != "fee_asset_change"@[0]);
        assert("bridgeSudoChange"@[0] != "ibcRelayerChange"@[0]);
        assert("bridgeSudoChange"@[0] != "ics20_withdrawal"@[0]);
        assert("bridgeSudoChange"@[0] != "validator_update"@[0]);
        assert("bridge_sudo_change"@[0] != "ibc_relayer_change"@[0]);
        assert("bridge_unlock"@[0] != "ibcSudoChange"@[0]);
        assert("feeAssetChange"@[0] != "bridgeTransfer"@[0]);
        assert("fee_asset_change"@[0] != "ibcRelayerChange"@[0]);
        assert("fee_asset_change"@[0] != "ics20_withdrawal"@[0]);
        assert("fee_asset_change"@[0] != "validator_update"@[0]);
        assert("feeChange"@[0] != "ibc_relay"@[0]);
        assert("ibcRelay"@[0] != "transfer"@[0]);
        assert("ibcRelayerChange"@[1] != "ics20_withdrawal"@[1]);
        assert("ibcRelayerChange"@[0] != "validator_update"@[0]);
        assert("ibc_sudo_change"@[1] != "ics20Withdrawal"@[1]);
        assert("ibc_sudo_change"@[0] != "validatorUpdate"@[0]);
        assert("ibc_sudo_change"@[0] != "bridge_transfer"@[0]);
        assert("ics20Withdrawal"@[0] != "validatorUpdate"@[0]);
        assert("ics20Withdrawal"@[0] != "bridge_transfer"@[0]);
        assert("ics20_withdrawal"@[0] != "validator_update"@[0]);
        assert("initBridgeAccount"@[0] != "sudoAddressChange"@[0]);
        assert("init_bridge_account"@[0] != "sudo_address_change"@[0]);
        assert("validatorUpdate"@[0] != "bridge_transfer"@[0]);
        lemma_fold_entry_if(st, m.ics20_withdrawal is Some, "ics20Withdrawal"@, JsonV::Object(m.ics20_withdrawal.unwrap()), Self::step_fn());
    }

    /// Reading the member that the field `init_bridge_account` writes sets the field.
    pub proof fn lemma_entry_init_bridge_account(m: GenesisFeesV, st: (GenesisFeesV, Seq<bool>))
        requires
            st.1.len() == 0,
            st.0.init_bridge_account is None,
        ensures
            fold_entries(st, Self::spec_entry_init_bridge_account(m), Self::step_fn()) == Ok::<(GenesisFeesV, Seq<bool>), JsonErrorV>((GenesisFeesV { init_bridge_account: m.init_bridge_account, ..st.0 }, st.1)),
    {
        reveal_strlit("bridgeLock");
        reveal_strlit("bridge_lock");
        reveal_strlit("bridgeSudoChange");
        reveal_strlit("bridge_sudo_change");
        reveal_strlit("bridgeUnlock");
        reveal_strlit("bridge_unlock");
        reveal_strlit("feeAssetChange");
        reveal_strlit("fee_asset_change");
        reveal_strlit("feeChange");
        reveal_strlit("fee_change");
        reveal_strlit("ibcRelay");
        reveal_strlit("ibc_relay");
        reveal_strlit("ibcRelayerChange");
        reveal_strlit("ibc_relayer_change");
        reveal_strlit("ibcSudoChange");
        reveal_strlit("ibc_sudo_change");
        reveal_strlit("ics20Withdrawal");
        reveal_strlit("ics20_withdrawal");
        reveal_strlit("initBridgeAccount");
        reveal_strlit("init_bridge_account");
        reveal_strlit("rollupDataSubmission");
        reveal_strlit("rollup_data_submission");
        reveal_strlit("sudoAddressChange");
        reveal_strlit("sudo_address_change");
        reveal_strlit("transfer");
        reveal_strlit("validatorUpdate");
        reveal_strlit("validator_update");
        reveal_strlit("bridgeTransfer");
        reveal_strlit("bridge_transfer");
        assert("bridgeLock"@.len() == 10);
        assert("bridge_lock"@.len() == 11);
        assert("bridgeSudoChange"@.len() == 16);
        assert("bridge_sudo_change"@.len() == 18);
        assert("bridgeUnlock"@.len() == 12);
        assert("bridge_unlock"@.len() == 13);
        assert("feeAssetChange"@.len() == 14);
        assert("fee_asset_change"@.len() == 16);
        assert("feeChange"@.len() == 9);
        assert("fee_change"@.len() == 10);
        assert("ibcRelay"@.len() == 8);
        assert("ibc_relay"@.len() == 9);
        assert("ibcRelayerChange"@.len() == 16);
        assert("ibc_relayer_change"@.len() == 18);
        assert("ibcSudoChange"@.len() == 13);
        assert("ibc_sudo_change"@.len() == 15);
        assert("ics20Withdrawal"@.len() == 15);
        assert("ics20_withdrawal"@.len() == 16);
        assert("initBridgeAccount"@.len() == 17);
        assert("init_bridge_account"@.len() == 19);
        assert("rollupDataSubmission"@.len() == 20);
        assert("rollup_data_submission"@.len() == 22);
        assert("sudoAddressChange"@.len() == 17);
        assert("sudo_address_change"@.len() == 19);
        assert("transfer"@.len() == 8);
        assert("validatorUpdate"@.len() == 15);
        assert("validator_update"@.len() == 16);
        assert("bridgeTransfer"@.len() == 14);
        assert("bridge_transfer"@.len() == 15);
        assert("bridgeLock"@[0] != "fee_change"@[0]);
        assert("bridgeSudoChange"@[0] != "fee_asset_change"@[0]);
        assert("bridgeSudoChange"@[0] != "ibcRelayerChange"@[0]);
        assert("bridgeSudoChange"@[0] != "ics20_withdrawal"@[0]);
        assert("bridgeSudoChange"@[0] != "validator_update"@[0]);
        assert("bridge_sudo_change"@[0] != "ibc_relayer_change"@[0]);
        assert("bridge_unlock"@[0] != "ibcSudoChange"@[0]);
        assert("feeAssetChange"@[0] != "bridgeTransfer"@[0]);
        assert("fee_asset_change"@[0] != "ibcRelayerChange"@[0]);
        assert("fee_asset_change"@[0] != "ics20_withdrawal"@[0]);
        assert("fee_asset_change"@[0] != "validator_update"@[0]);
        assert("feeChange"@[0] != "ibc_relay"@[0]);
        assert("ibcRelay"@[0] != "transfer"@[0]);
        assert("ibcRelayerChange"@[1] != "ics20_withdrawal"@[1]);
        assert("ibcRelayerChange"@[0] != "validator_update"@[0]);
        assert("ibc_sudo_change"@[1] != "ics20Withdrawal"@[1]);
        assert("ibc_sudo_change"@[0] != "validatorUpdate"@[0]);
        assert("ibc_sudo_change"@[0] != "bridge_transfer"@[0]);
        assert("ics20Withdrawal"@[0] != "validatorUpdate"@[0]);
        assert("ics20Withdrawal"@[0] != "bridge_transfer"@[0]);
        assert("ics20_withdrawal"@[0] != "validator_update"@[0]);
        assert("initBridgeAccount"@[0] != "sudoAddressChange"@[0]);
        assert("init_bridge_account"@[0] != "sudo_address_change"@[0]);
        assert("validatorUpdate"@[0] != "bridge_transfer"@[0]);
        lemma_fold_entry_if(st, m.init_bridge_account is Some, "initBridgeAccount"@, JsonV::Object(m.init_bridge_account.unwrap()), Self::step_fn());
    }

    /// Reading the member that the field `rollup_data_submission` writes sets the field.
    pub proof fn lemma_entry_rollup_data_submission(m: GenesisFeesV, st: (GenesisFeesV, Seq<bool>))
        requires
            st.1.len() == 0,
            st.0.rollup_data_submission is None,
        ensures
            fold_entries(st, Self::spec_entry_rollup_data_submission(m), Self::step_fn()) == Ok::<(GenesisFeesV, Seq<bool>), JsonErrorV>((GenesisFeesV { rollup_data_submission: m.rollup_data_submission, ..st.0 }, st.1)),
    {
        reveal_strlit("bridgeLock");
        reveal_strlit("bridge_lock");
        reveal_strlit("bridgeSudoChange");
        reveal_strlit("bridge_sudo_change");
        reveal_strlit("bridgeUnlock");
        reveal_strlit("bridge_unlock");
        reveal_strlit("feeAssetChange");
        reveal_strlit("fee_asset_change");
        reveal_strlit("feeChange");
        reveal_strlit("fee_change");
        reveal_strlit("ibcRelay");
        reveal_strlit("ibc_relay");
        reveal_strlit("ibcRelayerChange");
        reveal_strlit("ibc_relayer_change");
        reveal_strlit("ibcSudoChange");
        reveal_strlit("ibc_sudo_change");
        reveal_strlit("ics20Withdrawal");
        reveal_strlit("ics20_withdrawal");
        reveal_strlit("initBridgeAccount");
        reveal_strlit("init_bridge_account");
        reveal_strlit("rollupDataSubmission");
        reveal_strlit("rollup_data_submission");
        reveal_strlit("sudoAddressChange");
        reveal_strlit("sudo_address_change");
        reveal_strlit("transfer");
        reveal_strlit("validatorUpdate");
        reveal_strlit("validator_update");
        reveal_strlit("bridgeTransfer");
        reveal_strlit("bridge_transfer");
        assert("bridgeLock"@.len() == 10);
        assert("bridge_lock"@.len() == 11);
        assert("bridgeSudoChange"@.len() == 16);
        assert("bridge_sudo_change"@.len() == 18);
        assert("bridgeUnlock"@.len() == 12);
        assert("bridge_unlock"@.len() == 13);
        assert("feeAssetChange"@.len() == 14);
        assert("fee_asset_change"@.len() == 16);
        assert("feeChange"@.len() == 9);
        assert("fee_change"@.len() == 10);
        assert("ibcRelay"@.len() == 8);
        assert("ibc_relay"@.len() == 9);
        assert("ibcRelayerChange"@.len() == 16);
        assert("ibc_relayer_change"@.len() == 18);
        assert("ibcSudoChange"@.len() == 13);
        assert("ibc_sudo_change"@.len() == 15);
        assert("ics20Withdrawal"@.len() == 15);
        assert("ics20_withdrawal"@.len() == 16);
        assert("initBridgeAccount"@.len() == 17);
        assert("init_bridge_account"@.len() == 19);
        assert("rollupDataSubmission"@.len() == 20);
        assert("rollup_data_submission"@.len() == 22);
        assert("sudoAddressChange"@.len() == 17);
        assert("sudo_address_change"@.len() == 19);
        assert("transfer"@.len() == 8);
        assert("validatorUpdate"@.len() == 15);
        assert("validator_update"@.len() == 16);
        assert("bridgeTransfer"@.len() == 14);
        assert("bridge_transfer"@.len() == 15);
        assert("bridgeLock"@[0] != "fee_change"@[0]);
        assert("bridgeSudoChange"@[0] != "fee_asset_change"@[0]);
        assert("bridgeSudoChange"@[0] != "ibcRelayerChange"@[0]);
        assert("bridgeSudoChange"@[0] != "ics20_withdrawal"@[0]);
        assert("bridgeSudoChange"@[0] != "validator_update"@[0]);
        assert("bridge_sudo_change"@[0] != "ibc_relayer_change"@[0]);
        assert("bridge_unlock"@[0] != "ibcSudoChange"@[0]);
        assert("feeAssetChange"@[0] != "bridgeTransfer"@[0]);
        assert("fee_asset_change"@[0] != "ibcRelayerChange"@[0]);
        assert("fee_asset_change"@[0] != "ics20_withdrawal"@[0]);
        assert("fee_asset_change"@[0] != "validator_update"@[0]);
        assert("feeChange"@[0] != "ibc_relay"@[0]);
        assert("ibcRelay"@[0] != "transfer"@[0]);
        assert("ibcRelayerChange"@[1] != "ics20_withdrawal"@[1]);
        assert("ibcRelayerChange"@[0] != "validator_update"@[0]);
        assert("ibc_sudo_change"@[1] != "ics20Withdrawal"@[1]);
        assert("ibc_sudo_change"@[0] != "validatorUpdate"@[0]);
        assert("ibc_sudo_change"@[0] != "bridge_transfer"@[0]);
        assert("ics20Withdrawal"@[0] != "validatorUpdate"@[0]);
        assert("ics20Withdrawal"@[0] != "bridge_transfer"@[0]);
        assert("ics20_withdrawal"@[0] != "validator_update"@[0]);
        assert("initBridgeAccount"@[0] != "sudoAddressChange"@[0]);
        assert("init_bridge_account"@[0] != "sudo_address_change"@[0]);
        assert("validatorUpdate"@[0] != "bridge_transfer"@[0]);
        lemma_fold_entry_if(st, m.rollup_data_submission is Some, "rollupDataSubmission"@, JsonV::Object(m.rollup_data_submission.unwrap()), Self::step_fn());
    }

    /// Reading the member that the field `sudo_address_change` writes sets the field.
    pub proof fn lemma_entry_sudo_address_change(m: GenesisFeesV, st: (GenesisFeesV, Seq<bool>))
        requires
            st.1.len() == 0,
            st.0.sudo_address_change is None,
        ensures
            fold_entries(st, Self::spec_entry_sudo_address_change(m), Self::step_fn()) == Ok::<(GenesisFeesV, Seq<bool>), JsonErrorV>((GenesisFeesV { sudo_address_change: m.sudo_address_change, ..st.0 }, st.1)),
    {
        reveal_strlit("bridgeLock");
        reveal_strlit("bridge_lock");
        reveal_strlit("bridgeSudoChange");
        reveal_strlit("bridge_sudo_change");
        reveal_strlit("bridgeUnlock");
        reveal_strlit("bridge_unlock");
        reveal_strlit("feeAssetChange");
        reveal_strlit("fee_asset_change");
        reveal_strlit("feeChange");
        reveal_strlit("fee_change");
        reveal_strlit("ibcRelay");
        reveal_strlit("ibc_relay");
        reveal_strlit("ibcRelayerChange");
        reveal_strlit("ibc_relayer_change");
        reveal_strlit("ibcSudoChange");
        reveal_strlit("ibc_sudo_change");
        reveal_strlit("ics20Withdrawal");
        reveal_strlit("ics20_withdrawal");
        reveal_strlit("initBridgeAccount");
        reveal_strlit("init_bridge_account");
        reveal_strlit("rollupDataSubmission");
        reveal_strlit("rollup_data_submission");
        reveal_strlit("sudoAddressChange");
        reveal_strlit("sudo_address_change");
        reveal_strlit("transfer");
        reveal_strlit("validatorUpdate");
        reveal_strlit("validator_update");
        reveal_strlit("bridgeTransfer");
        reveal_strlit("bridge_transfer");
        assert("bridgeLock"@.len() == 10);
        assert("bridge_lock"@.len() == 11);
        assert("bridgeSudoChange"@.len() == 16);
        assert("bridge_sudo_change"@.len() == 18);
        assert("bridgeUnlock"@.len() == 12);
        assert("bridge_unlock"@.len() == 13);
        assert("feeAssetChange"@.len() == 14);
        assert("fee_asset_change"@.len() == 16);
        assert("feeChange"@.len() == 9);
        assert("fee_change"@.len() == 10);
        assert("ibcRelay"@.len() == 8);
        assert("ibc_relay"@.len() == 9);
        assert("ibcRelayerChange"@.len() == 16);
        assert("ibc_relayer_change"@.len() == 18);
        assert("ibcSudoChange"@.len() == 13);
        assert("ibc_sudo_change"@.len() == 15);
        assert("ics20Withdrawal"@.len() == 15);
        assert("ics20_withdrawal"@.len() == 16);
        assert("initBridgeAccount"@.len() == 17);
        assert("init_bridge_account"@.len() == 19);
        assert("rollupDataSubmission"@.len() == 20);
        assert("rollup_data_submission"@.len() == 22);
        assert("sudoAddressChange"@.len() == 17);
        assert("sudo_address_change"@.len() == 19);
        assert("transfer"@.len() == 8);
        assert("validatorUpdate"@.len() == 15);
        assert("validator_update"@.len() == 16);
        assert("bridgeTransfer"@.len() == 14);
        assert("bridge_transfer"@.len() == 15);
        assert("bridgeLock"@[0] != "fee_change"@[0]);
        assert("bridgeSudoChange"@[0] != "fee_asset_change"@[0]);
        assert("bridgeSudoChange"@[0] != "ibcRelayerChange"@[0]);
        assert("bridgeSudoChange"@[0] != "ics20_withdrawal"@[0]);
        assert("bridgeSudoChange"@[0] != "validator_update"@[0]);
        assert("bridge_sudo_change"@[0] != "ibc_relayer_change"@[0]);
        assert("bridge_unlock"@[0] != "ibcSudoChange"@[0]);
        assert("feeAssetChange"@[0] != "bridgeTransfer"@[0]);
        assert("fee_asset_change"@[0] != "ibcRelayerChange"@[0]);
        assert("fee_asset_change"@[0] != "ics20_withdrawal"@[0]);
        assert("fee_asset_change"@[0] != "validator_update"@[0]);
        assert("feeChange"@[0] != "ibc_relay"@[0]);
        assert("ibcRelay"@[0] != "transfer"@[0]);
        assert("ibcRelayerChange"@[1] != "ics20_withdrawal"@[1]);
        assert("ibcRelayerChange"@[0] != "validator_update"@[0]);
        assert("ibc_sudo_change"@[1] != "ics20Withdrawal"@[1]);
        assert("ibc_sudo_change"@[0] != "validatorUpdate"@[0]);
        assert("ibc_sudo_change"@[0] != "bridge_transfer"@[0]);
        assert("ics20Withdrawal"@[0] != "validatorUpdate"@[0]);
        assert("ics20Withdrawal"@[0] != "bridge_transfer"@[0]);
        assert("ics20_withdrawal"@[0] != "validator_update"@[0]);
        assert("initBridgeAccount"@[0] != "sudoAddressChange"@[0]);
        assert("init_bridge_account"@[0] != "sudo_address_change"@[0]);
        assert("validatorUpdate"@[0] != "bridge_transfer"@[0]);
        lemma_fold_entry_if(st, m.sudo_address_change is Some, "sudoAddressChange"@, JsonV::Object(m.sudo_address_change.unwrap()), Self::step_fn());
    }

    /// Reading the member that the field `transfer` writes sets the field.
    pub proof fn lemma_entry_transfer(m: GenesisFeesV, st: (GenesisFeesV, Seq<bool>))
        requires
            st.1.len() == 0,
            st.0.transfer is None,
        ensures
            fold_entries(st, Self::spec_entry_transfer(m), Self::step_fn()) == Ok::<(GenesisFeesV, Seq<bool>), JsonErrorV>((GenesisFeesV { transfer: m.transfer, ..st.0 }, st.1)),
    {
        reveal_strlit("bridgeLock");
        reveal_strlit("bridge_lock");
        reveal_strlit("bridgeSudoChange");
        reveal_strlit("bridge_sudo_change");
        reveal_strlit("bridgeUnlock");
        reveal_strlit("bridge_unlock");
        reveal_strlit("feeAssetChange");
        reveal_strlit("fee_asset_change");
        reveal_strlit("feeChange");
        reveal_strlit("fee_change");
        reveal_strlit("ibcRelay");
        reveal_strlit("ibc_relay");
        reveal_strlit("ibcRelayerChange");
        reveal_strlit("ibc_relayer_change");
        reveal_strlit("ibcSudoChange");
        reveal_strlit("ibc_sudo_change");
        reveal_strlit("ics20Withdrawal");
        reveal_strlit("ics20_withdrawal");
        reveal_strlit("initBridgeAccount");
        reveal_strlit("init_bridge_account");
        reveal_strlit("rollupDataSubmission");
        reveal_strlit("rollup_data_submission");
        reveal_strlit("sudoAddressChange");
        reveal_strlit("sudo_address_change");
        reveal_strlit("transfer");
        reveal_strlit("validatorUpdate");
        reveal_strlit("validator_update");
        reveal_strlit("bridgeTransfer");
        reveal_strlit("bridge_transfer");
        assert("bridgeLock"@.len() == 10);
        assert("bridge_lock"@.len() == 11);
        assert("bridgeSudoChange"@.len() == 16);
        assert("bridge_sudo_change"@.len() == 18);
        assert("bridgeUnlock"@.len() == 12);
        assert("bridge_unlock"@.len() == 13);
        assert("feeAssetChange"@.len() == 14);
        assert("fee_asset_change"@.len() == 16);
        assert("feeChange"@.len() == 9);
        assert("fee_change"@.len() == 10);
        assert("ibcRelay"@.len() == 8);
        assert("ibc_relay"@.len() == 9);
        assert("ibcRelayerChange"@.len() == 16);
        assert("ibc_relayer_change"@.len() == 18);
        assert("ibcSudoChange"@.len() == 13);
        assert("ibc_sudo_change"@.len() == 15);
        assert("ics20Withdrawal"@.len() == 15);
        assert("ics20_withdrawal"@.len() == 16);
        assert("initBridgeAccount"@.len() == 17);
        assert("init_bridge_account"@.len() == 19);
        assert("rollupDataSubmission"@.len() == 20);
        assert("rollup_data_submission"@.len() == 22);
        assert("sudoAddressChange"@.len() == 17);
        assert("sudo_address_change"@.len() == 19);
        assert("transfer"@.len() == 8);
        assert("validatorUpdate"@.len() == 15);
        assert("validator_update"@.len() == 16);
        assert("bridgeTransfer"@.len() == 14);
        assert("bridge_transfer"@.len() == 15);
        assert("bridgeLock"@[0] != "fee_change"@[0]);
        assert("bridgeSudoChange"@[0] != "fee_asset_change"@[0]);
        assert("bridgeSudoChange"@[0] != "ibcRelayerChange"@[0]);
        assert("bridgeSudoChange"@[0] != "ics20_withdrawal"@[0]);
        assert("bridgeSudoChange"@[0] != "validator_update"@[0]);
        assert("bridge_sudo_change"@[0] != "ibc_relayer_change"@[0]);
        assert("bridge_unlock"@[0] != "ibcSudoChange"@[0]);
        assert("feeAssetChange"@[0] != "bridgeTransfer"@[0]);
        assert("fee_asset_change"@[0] != "ibcRelayerChange"@[0]);
        assert("fee_asset_change"@[0] != "ics20_withdrawal"@[0]);
        assert("fee_asset_change"@[0] != "validator_update"@[0]);
        assert("feeChange"@[0] != "ibc_relay"@[0]);
        assert("ibcRelay"@[0] != "transfer"@[0]);
        assert("ibcRelayerChange"@[1] != "ics20_withdrawal"@[1]);
        assert("ibcRelayerChange"@[0] != "validator_update"@[0]);
        assert("ibc_sudo_change"@[1] != "ics20Withdrawal"@[1]);
        assert("ibc_sudo_change"@[0] != "validatorUpdate"@[0]);
        assert("ibc_sudo_change"@[0] != "bridge_transfer"@[0]);
        assert("ics20Withdrawal"@[0] != "validatorUpdate"@[0]);
        assert("ics20Withdrawal"@[0] != "bridge_transfer"@[0]);
        assert("ics20_withdrawal"@[0] != "validator_update"@[0]);
        assert("initBridgeAccount"@[0] != "sudoAddressChange"@[0]);
        assert("init_bridge_account"@[0] != "sudo_address_change"@[0]);
        assert("validatorUpdate"@[0] != "bridge_transfer"@[0]);
        lemma_fold_entry_if(st, m.transfer is Some, "transfer"@, JsonV::Object(m.transfer.unwrap()), Self::step_fn());
    }

    /// Reading the member that the field `validator_update` writes sets the field.
    pub proof fn lemma_entry_validator_update(m: GenesisFeesV, st: (GenesisFeesV, Seq<bool>))
        requires
            st.1.len() == 0,
            st.0.validator_update is None,
        ensures
            fold_entries(st, Self::spec_entry_validator_update(m), Self::step_fn()) == Ok::<(GenesisFeesV, Seq<bool>), JsonErrorV>((GenesisFeesV { validator_update: m.validator_update, ..st.0 }, st.1)),
    {
        reveal_strlit("bridgeLock");
        reveal_strlit("bridge_lock");
        reveal_strlit("bridgeSudoChange");
        reveal_strlit("bridge_sudo_change");
        reveal_strlit("bridgeUnlock");
        reveal_strlit("bridge_unlock");
        reveal_strlit("feeAssetChange");
        reveal_strlit("fee_asset_change");
        reveal_strlit("feeChange");
        reveal_strlit("fee_change");
        reveal_strlit("ibcRelay");
        reveal_strlit("ibc_relay");
        reveal_strlit("ibcRelayerChange");
        reveal_strlit("ibc_relayer_change");
        reveal_strlit("ibcSudoChange");
        reveal_strlit("ibc_sudo_change");
        reveal_strlit("ics20Withdrawal");
        reveal_strlit("ics20_withdrawal");
        reveal_strlit("initBridgeAccount");
        reveal_strlit("init_bridge_account");
        reveal_strlit("rollupDataSubmission");
        reveal_strlit("rollup_data_submission");
        reveal_strlit("sudoAddressChange");
        reveal_strlit("sudo_address_change");
        reveal_strlit("transfer");
        reveal_strlit("validatorUpdate");
        reveal_strlit("validator_update");
        reveal_strlit("bridgeTransfer");
        reveal_strlit("bridge_transfer");
        assert("bridgeLock"@.len() == 10);
        assert("bridge_lock"@.len() == 11);
        assert("bridgeSudoChange"@.len() == 16);
        assert("bridge_sudo_change"@.len() == 18);
        assert("bridgeUnlock"@.len() == 12);
        assert("bridge_unlock"@.len() == 13);
        assert("feeAssetChange"@.len() == 14);
        assert("fee_asset_change"@.len() == 16);
        assert("feeChange"@.len() == 9);
        assert("fee_change"@.len() == 10);
        assert("ibcRelay"@.len() == 8);
        assert("ibc_relay"@.len() == 9);
        assert("ibcRelayerChange"@.len() == 16);
        assert("ibc_relayer_change"@.len() == 18);
        assert("ibcSudoChange"@.len() == 13);
        assert("ibc_sudo_change"@.len() == 15);
        assert("ics20Withdrawal"@.len() == 15);
        assert("ics20_withdrawal"@.len() == 16);
        assert("initBridgeAccount"@.len() == 17);
        assert("init_bridge_account"@.len() == 19);
        assert("rollupDataSubmission"@.len() == 20);
        assert("rollup_data_submission"@.len() == 22);
        assert("sudoAddressChange"@.len() == 17);
        assert("sudo_address_change"@.len() == 19);
        assert("transfer"@.len() == 8);
        assert("validatorUpdate"@.len() == 15);
        assert("validator_update"@.len() == 16);
        assert("bridgeTransfer"@.len() == 14);
        assert("bridge_transfer"@.len() == 15);
        assert("bridgeLock"@[0] != "fee_change"@[0]);
        assert("bridgeSudoChange"@[0] != "fee_asset_change"@[0]);
        assert("bridgeSudoChange"@[0] != "ibcRelayerChange"@[0]);
        assert("bridgeSudoChange"@[0] != "ics20_withdrawal"@[0]);
        assert("bridgeSudoChange"@[0] != "validator_update"@[0]);
        assert("bridge_sudo_change"@[0] != "ibc_relayer_change"@[0]);
        assert("bridge_unlock"@[0] != "ibcSudoChange"@[0]);
        assert("feeAssetChange"@[0] != "bridgeTransfer"@[0]);
        assert("fee_asset_change"@[0] != "ibcRelayerChange"@[0]);
        assert("fee_asset_change"@[0] != "ics20_withdrawal"@[0]);
        assert("fee_asset_change"@[0] != "validator_update"@[0]);
        assert("feeChange"@[0] != "ibc_relay"@[0]);
        assert("ibcRelay"@[0] != "transfer"@[0]);
        assert("ibcRelayerChange"@[1] != "ics20_withdrawal"@[1]);
        assert("ibcRelayerChange"@[0] != "validator_update"@[0]);
        assert("ibc_sudo_change"@[1] != "ics20Withdrawal"@[1]);
        assert("ibc_sudo_change"@[0] != "validatorUpdate"@[0]);
        assert("ibc_sudo_change"@[0] != "bridge_transfer"@[0]);
        assert("ics20Withdrawal"@[0] != "validatorUpdate"@[0]);
        assert("ics20Withdrawal"@[0] != "bridge_transfer"@[0]);
        assert("ics20_withdrawal"@[0] != "validator_update"@[0]);
        assert("initBridgeAccount"@[0] != "sudoAddressChange"@[0]);
        assert("init_bridge_account"@[0] != "sudo_address_change"@[0]);
        assert("validatorUpdate"@[0] != "bridge_transfer"@[0]);
        lemma_fold_entry_if(st, m.validator_update is Some, "validatorUpdate"@, JsonV::Object(m.validator_update.unwrap()), Self::step_fn());
    }

    /// Reading the member that the field `bridge_transfer` writes sets the field.
    pub proof fn lemma_entry_bridge_transfer(m: GenesisFeesV, st: (GenesisFeesV, Seq<bool>))
        requires
            st.1.len() == 0,
            st.0.bridge_transfer is None,
        ensures
            fold_entries(st, Self::spec_entry_bridge_transfer(m), Self::step_fn()) == Ok::<(GenesisFeesV, Seq<bool>), JsonErrorV>((GenesisFeesV { bridge_transfer: m.bridge_transfer, ..st.0 }, st.1)),
    {
        reveal_strlit("bridgeLock");
        reveal_strlit("bridge_lock");
        reveal_strlit("bridgeSudoChange");
        reveal_strlit("bridge_sudo_change");
        reveal_strlit("bridgeUnlock");
        reveal_strlit("bridge_unlock");
        reveal_strlit("feeAssetChange");
        reveal_strlit("fee_asset_change");
        reveal_strlit("feeChange");
        reveal_strlit("fee_change");
        reveal_strlit("ibcRelay");
        reveal_strlit("ibc_relay");
        reveal_strlit("ibcRelayerChange");
        reveal_strlit("ibc_relayer_change");
        reveal_strlit("ibcSudoChange");
        reveal_strlit("ibc_sudo_change");
        reveal_strlit("ics20Withdrawal");
        reveal_strlit("ics20_withdrawal");
        reveal_strlit("initBridgeAccount");
        reveal_strlit("init_bridge_account");
        reveal_strlit("rollupDataSubmission");
        reveal_strlit("rollup_data_submission");
        reveal_strlit("sudoAddressChange");
        reveal_strlit("sudo_address_change");
        reveal_strlit("transfer");
        reveal_strlit("validatorUpdate");
        reveal_strlit("validator_update");
        reveal_strlit("bridgeTransfer");
        reveal_strlit("bridge_transfer");
        assert("bridgeLock"@.len() == 10);
        assert("bridge_lock"@.len() == 11);
        assert("bridgeSudoChange"@.len() == 16);
        assert("bridge_sudo_change"@.len() == 18);
        assert("bridgeUnlock"@.len() == 12);
        assert("bridge_unlock"@.len() == 13);
        assert("feeAssetChange"@.len() == 14);
        assert("fee_asset_change"@.len() == 16);
        assert("feeChange"@.len() == 9);
        assert("fee_change"@.len() == 10);
        assert("ibcRelay"@.len() == 8);
        assert("ibc_relay"@.len() == 9);
        assert("ibcRelayerChange"@.len() == 16);
        assert("ibc_relayer_change"@.len() == 18);
        assert("ibcSudoChange"@.len() == 13);
        assert("ibc_sudo_change"@.len() == 15);
        assert("ics20Withdrawal"@.len() == 15);
        assert("ics20_withdrawal"@.len() == 16);
        assert("initBridgeAccount"@.len() == 17);
        assert("init_bridge_account"@.len() == 19);
        assert("rollupDataSubmission"@.len() == 20);
        assert("rollup_data_submission"@.len() == 22);
        assert("sudoAddressChange"@.len() == 17);
        assert("sudo_address_change"@.len() == 19);
        assert("transfer"@.len() == 8);
        assert("validatorUpdate"@.len() == 15);
        assert("validator_update"@.len() == 16);
        assert("bridgeTransfer"@.len() == 14);
        assert("bridge_transfer"@.len() == 15);
        assert("bridgeLock"@[0] != "fee_change"@[0]);
        assert("bridgeSudoChange"@[0] != "fee_asset_change"@[0]);
        assert("bridgeSudoChange"@[0] != "ibcRelayerChange"@[0]);
        assert("bridgeSudoChange"@[0] != "ics20_withdrawal"@[0]);
        assert("bridgeSudoChange"@[0] != "validator_update"@[0]);
        assert("bridge_sudo_change"@[0] != "ibc_relayer_change"@[0]);
        assert("bridge_unlock"@[0] != "ibcSudoChange"@[0]);
        assert("feeAssetChange"@[0] != "bridgeTransfer"@[0]);
        assert("fee_asset_change"@[0] != "ibcRelayerChange"@[0]);
        assert("fee_asset_change"@[0] != "ics20_withdrawal"@[0]);
        assert("fee_asset_change"@[0] != "validator_update"@[0]);
        assert("feeChange"@[0] != "ibc_relay"@[0]);
        assert("ibcRelay"@[0] != "transfer"@[0]);
        assert("ibcRelayerChange"@[1] != "ics20_withdrawal"@[1]);
        assert("ibcRelayerChange"@[0] != "validator_update"@[0]);
        assert("ibc_sudo_change"@[1] != "ics20Withdrawal"@[1]);
        assert("ibc_sudo_change"@[0] != "validatorUpdate"@[0]);
        assert("ibc_sudo_change"@[0] != "bridge_transfer"@[0]);
        assert("ics20Withdrawal"@[0] != "validatorUpdate"@[0]);
        assert("ics20Withdrawal"@[0] != "bridge_transfer"@[0]);
        assert("ics20_withdrawal"@[0] != "validator_update"@[0]);
        assert("initBridgeAccount"@[0] != "sudoAddressChange"@[0]);
        assert("init_bridge_account"@[0] != "sudo_address_change"@[0]);
        assert("validatorUpdate"@[0] != "bridge_transfer"@[0]);
        lemma_fold_entry_if(st, m.bridge_transfer is Some, "bridgeTransfer"@, JsonV::Object(m.bridge_transfer.unwrap()), Self::step_fn());
    }

    /// The JSON spelling of a key: the protobuf name of a field becomes its JSON name;
    /// a JSON name, and any key that names no field, is left as it is.
    pub open spec fn spec_json_key(key: Seq<char>) -> Seq<char> {
        if key == "bridgeLock"@ || key == "bridge_lock"@ {
            "bridgeLock"@
        } else if key == "bridgeSudoChange"@ || key == "bridge_sudo_change"@ {
            "bridgeSudoChange"@
        } else if key == "bridgeUnlock"@ || key == "bridge_unlock"@ {
            "bridgeUnlock"@
        } else if key == "feeAssetChange"@ || key == "fee_asset_change"@ {
            "feeAssetChange"@
        } else if key == "feeChange"@ || key == "fee_change"@ {
            "feeChange"@
        } else if key == "ibcRelay"@ || key == "ibc_relay"@ {
            "ibcRelay"@
        } else if key == "ibcRelayerChange"@ || key == "ibc_relayer_change"@ {
            "ibcRelayerChange"@
        } else if key == "ibcSudoChange"@ || key == "ibc_sudo_change"@ {
            "ibcSudoChange"@
        } else if key == "ics20Withdrawal"@ || key == "ics20_withdrawal"@ {
            "ics20Withdrawal"@
        } else if key == "initBridgeAccount"@ || key == "init_bridge_account"@ {
            "initBridgeAccount"@
        } else if key == "rollupDataSubmission"@ || key == "rollup_data_submission"@ {
            "rollupDataSubmission"@
        } else if key == "sudoAddressChange"@ || key == "sudo_address_change"@ {
            "sudoAddressChange"@
        } else if key == "transfer"@ {
            "transfer"@
        } else if key == "validatorUpdate"@ || key == "validator_update"@ {
            "validatorUpdate"@
        } else if key == "bridgeTransfer"@ || key == "bridge_transfer"@ {
            "bridgeTransfer"@
        } else {
            key
        }
    }

    /// [`Self::spec_json_key`] as a function value.
    pub open spec fn json_key_fn() -> spec_fn(Seq<char>) -> Seq<char> {
        |key: Seq<char>| Self::spec_json_key(key)
    }

    /// One member is read alike whichever spelling its key has.
    pub proof fn lemma_step_json_key(st: (GenesisFeesV, Seq<bool>), key: Seq<char>, v: JsonV)
        ensures Self::spec_step(st, key, v) == Self::spec_step(st, Self::spec_json_key(key), v),
    {
        reveal_strlit("bridgeLock");
        reveal_strlit("bridge_lock");
        reveal_strlit("bridgeSudoChange");
        reveal_strlit("bridge_sudo_change");
        reveal_strlit("bridgeUnlock");
        reveal_strlit("bridge_unlock");
        reveal_strlit("feeAssetChange");
        reveal_strlit("fee_asset_change");
        reveal_strlit("feeChange");
        reveal_strlit("fee_change");
        reveal_strlit("ibcRelay");
        reveal_strlit("ibc_relay");
        reveal_strlit("ibcRelayerChange");
        reveal_strlit("ibc_relayer_change");
        reveal_strlit("ibcSudoChange");
        reveal_strlit("ibc_sudo_change");
        reveal_strlit("ics20Withdrawal");
        reveal_strlit("ics20_withdrawal");
        reveal_strlit("initBridgeAccount");
        reveal_strlit("init_bridge_account");
        reveal_strlit("rollupDataSubmission");
        reveal_strlit("rollup_data_submission");
        reveal_strlit("sudoAddressChange");
        reveal_strlit("sudo_address_change");
        reveal_strlit("transfer");
        reveal_strlit("validatorUpdate");
        reveal_strlit("validator_update");
        reveal_strlit("bridgeTransfer");
        reveal_strlit("bridge_transfer");
        assert("bridgeLock"@.len() == 10);
        assert("bridge_lock"@.len() == 11);
        assert("bridgeSudoChange"@.len() == 16);
        assert("bridge_sudo_change"@.len() == 18);
        assert("bridgeUnlock"@.len() == 12);
        assert("bridge_unlock"@.len() == 13);
        assert("feeAssetChange"@.len() == 14);
        assert("fee_asset_change"@.len() == 16);
        assert("feeChange"@.len() == 9);
        assert("fee_change"@.len() == 10);
        assert("ibcRelay"@.len() == 8);
        assert("ibc_relay"@.len() == 9);
        assert("ibcRelayerChange"@.len() == 16);
        assert("ibc_relayer_change"@.len() == 18);
        assert("ibcSudoChange"@.len() == 13);
        assert("ibc_sudo_change"@.len() == 15);
        assert("ics20Withdrawal"@.len() == 15);
        assert("ics20_withdrawal"@.len() == 16);
        assert("initBridgeAccount"@.len() == 17);
        assert("init_bridge_account"@.len() == 19);
        assert("rollupDataSubmission"@.len() == 20);
        assert("rollup_data_submission"@.len() == 22);
        assert("sudoAddressChange"@.len() == 17);
        assert("sudo_address_change"@.len() == 19);
        assert("transfer"@.len() == 8);
        assert("validatorUpdate"@.len() == 15);
        assert("validator_update"@.len() == 16);
        assert("bridgeTransfer"@.len() == 14);
        assert("bridge_transfer"@.len() == 15);
        assert("bridgeLock"@[0] != "fee_change"@[0]);
        assert("bridgeSudoChange"@[0] != "fee_asset_change"@[0]);
        assert("bridgeSudoChange"@[0] != "ibcRelayerChange"@[0]);
        assert("bridgeSudoChange"@[0] != "ics20_withdrawal"@[0]);
        assert("bridgeSudoChange"@[0] != "validator_update"@[0]);
        assert("bridge_sudo_change"@[0] != "ibc_relayer_change"@[0]);
        assert("bridge_unlock"@[0] != "ibcSudoChange"@[0]);
        assert("feeAssetChange"@[0] != "bridgeTransfer"@[0]);
        assert("fee_asset_change"@[0] != "ibcRelayerChange"@[0]);
        assert("fee_asset_change"@[0] != "ics20_withdrawal"@[0]);
        assert("fee_asset_change"@[0] != "validator_update"@[0]);
        assert("feeChange"@[0] != "ibc_relay"@[0]);
        assert("ibcRelay"@[0] != "transfer"@[0]);
        assert("ibcRelayerChange"@[1] != "ics20_withdrawal"@[1]);
        assert("ibcRelayerChange"@[0] != "validator_update"@[0]);
        assert("ibc_sudo_change"@[1] != "ics20Withdrawal"@[1]);
        assert("ibc_sudo_change"@[0] != "validatorUpdate"@[0]);
        assert("ibc_sudo_change"@[0] != "bridge_transfer"@[0]);
        assert("ics20Withdrawal"@[0] != "validatorUpdate"@[0]);
        assert("ics20Withdrawal"@[0] != "bridge_transfer"@[0]);
        assert("ics20_withdrawal"@[0] != "validator_update"@[0]);
        assert("initBridgeAccount"@[0] != "sudoAddressChange"@[0]);
        assert("init_bridge_account"@[0] != "sudo_address_change"@[0]);
        assert("validatorUpdate"@[0] != "bridge_transfer"@[0]);
        if key == "bridge_lock"@ {
            assert(Self::spec_json_key(key) == "bridgeLock"@);
        }
        if key == "bridge_sudo_change"@ {
            assert(Self::spec_json_key(key) == "bridgeSudoChange"@);
        }
        if key == "bridge_unlock"@ {
            assert(Self::spec_json_key(key) == "bridgeUnlock"@);
        }
        if key == "fee_asset_change"@ {
            assert(Self::spec_json_key(key) == "feeAssetChange"@);
        }
        if key == "fee_change"@ {
            assert(Self::spec_json_key(key) == "feeChange"@);
        }
        if key == "ibc_relay"@ {
            assert(Self::spec_json_key(key) == "ibcRelay"@);
        }
        if key == "ibc_relayer_change"@ {
            assert(Self::spec_json_key(key) == "ibcRelayerChange"@);
        }
        if key == "ibc_sudo_change"@ {
            assert(Self::spec_json_key(key) == "ibcSudoChange"@);
        }
        if key == "ics20_withdrawal"@ {
            assert(Self::spec_json_key(key) == "ics20Withdrawal"@);
        }
        if key == "init_bridge_account"@ {
            assert(Self::spec_json_key(key) == "initBridgeAccount"@);
        }
        if key == "rollup_data_submission"@ {
            assert(Self::spec_json_key(key) == "rollupDataSubmission"@);
        }
        if key == "sudo_address_change"@ {
            assert(Self::spec_json_key(key) == "sudoAddressChange"@);
        }
        if key == "validator_update"@ {
            assert(Self::spec_json_key(key) == "validatorUpdate"@);
        }
        if key == "bridge_transfer"@ {
            assert(Self::spec_json_key(key) == "bridgeTransfer"@);
        }
    }

    /// Reading an object gives the same result whichever spelling each of its keys has:
    /// two objects whose members hold the same values, in the same order, under keys of
    /// the same JSON spelling describe the same message, or are refused with the same error.
    pub proof fn lemma_key_spelling(es1: Seq<(Seq<char>, JsonV)>, es2: Seq<(Seq<char>, JsonV)>)
        requires
            es1.len() == es2.len(),
            forall|i: int| #![trigger es1[i], es2[i]] 0 <= i < es1.len() ==> es1[i].1 == es2[i].1 && Self::spec_json_key(es1[i].0) == Self::spec_json_key(es2[i].0),
        ensures Self::spec_from_json(JsonV::Object(es1)) == Self::spec_from_json(JsonV::Object(es2)),
    {
        assert forall|s: (GenesisFeesV, Seq<bool>), k: Seq<char>, v: JsonV|
            #![trigger Self::step_fn()(s, k, v), Self::json_key_fn()(k)]
            Self::step_fn()(s, k, v) == Self::step_fn()(s, Self::json_key_fn()(k), v) by {
            Self::lemma_step_json_key(s, k, v);
        }
        lemma_fold_same_keys(Self::spec_start(), es1, es2, Self::step_fn(), Self::json_key_fn());
    }

    /// The keys of the object that the message writes: the JSON names of the fields that
    /// do not hold their default (for a oneof, the JSON name of the member set), in the
    /// order of the fields.
    pub open spec fn spec_written_keys(m: GenesisFeesV) -> Seq<Seq<char>> {
        key_if(m.bridge_lock is Some, "bridgeLock"@)
            + key_if(m.bridge_sudo_change is Some, "bridgeSudoChange"@)
            + key_if(m.bridge_unlock is Some, "bridgeUnlock"@)
            + key_if(m.fee_asset_change is Some, "feeAssetChange"@)
            + key_if(m.fee_change is Some, "feeChange"@)
            + key_if(m.ibc_relay is Some, "ibcRelay"@)
            + key_if(m.ibc_relayer_change is Some, "ibcRelayerChange"@)
            + key_if(m.ibc_sudo_change is Some, "ibcSudoChange"@)
            + key_if(m.ics20_withdrawal is Some, "ics20Withdrawal"@)
            + key_if(m.init_bridge_account is Some, "initBridgeAccount"@)
            + key_if(m.rollup_data_submission is Some, "rollupDataSubmission"@)
            + key_if(m.sudo_address_change is Some, "sudoAddressChange"@)
            + key_if(m.transfer is Some, "transfer"@)
            + key_if(m.validator_update is Some, "validatorUpdate"@)
            + key_if(m.bridge_transfer is Some, "bridgeTransfer"@)
    }

    /// The object that the message writes has exactly the keys of
    /// [`Self::spec_written_keys`], in that order.
    pub proof fn lemma_written_keys(m: GenesisFeesV)
        ensures
            Self::spec_to_json(m) == JsonV::Object(Self::spec_entries(m)),
            entry_keys(Self::spec_entries(m)) == Self::spec_written_keys(m),
    {
        lemma_entry_keys_if(m.bridge_lock is Some, "bridgeLock"@, JsonV::Object(m.bridge_lock.unwrap()));
        lemma_entry_keys_append(Self::spec_entry_bridge_lock(m), m.bridge_sudo_change is Some, "bridgeSudoChange"@, JsonV::Object(m.bridge_sudo_change.unwrap()));
        lemma_entry_keys_append(Self::spec_entry_bridge_lock(m) + Self::spec_entry_bridge_sudo_change(m), m.bridge_unlock is Some, "bridgeUnlock"@, JsonV::Object(m.bridge_unlock.unwrap()));
        lemma_entry_keys_append(Self::spec_entry_bridge_lock(m) + Self::spec_entry_bridge_sudo_change(m) + Self::spec_entry_bridge_unlock(m), m.fee_asset_change is Some, "feeAssetChange"@, JsonV::Object(m.fee_asset_change.unwrap()));
        lemma_entry_keys_append(Self::spec_entry_bridge_lock(m) + Self::spec_entry_bridge_sudo_change(m) + Self::spec_entry_bridge_unlock(m) + Self::spec_entry_fee_asset_change(m), m.fee_change is Some, "feeChange"@, JsonV::Object(m.fee_change.unwrap()));
        lemma_entry_keys_append(Self::spec_entry_bridge_lock(m) + Self::spec_entry_bridge_sudo_change(m) + Self::spec_entry_bridge_unlock(m) + Self::spec_entry_fee_asset_change(m) + Self::spec_entry_fee_change(m), m.ibc_relay is Some, "ibcRelay"@, JsonV::Object(m.ibc_relay.unwrap()));
        lemma_entry_keys_append(Self::spec_entry_bridge_lock(m) + Self::spec_entry_bridge_sudo_change(m) + Self::spec_entry_bridge_unlock(m) + Self::spec_entry_fee_asset_change(m) + Self::spec_entry_fee_change(m) + Self::spec_entry_ibc_relay(m), m.ibc_relayer_change is Some, "ibcRelayerChange"@, JsonV::Object(m.ibc_relayer_change.unwrap()));
        lemma_entry_keys_append(Self::spec_entry_bridge_lock(m) + Self::spec_entry_bridge_sudo_change(m) + Self::spec_entry_bridge_unlock(m) + Self::spec_entry_fee_asset_change(m) + Self::spec_entry_fee_change(m) + Self::spec_entry_ibc_relay(m) + Self::spec_entry_ibc_relayer_change(m), m.ibc_sudo_change is Some, "ibcSudoChange"@, JsonV::Object(m.ibc_sudo_change.unwrap()));
        lemma_entry_keys_append(Self::spec_entry_bridge_lock(m) + Self::spec_entry_bridge_sudo_change(m) + Self::spec_entry_bridge_unlock(m) + Self::spec_entry_fee_asset_change(m) + Self::spec_entry_fee_change(m) + Self::spec_entry_ibc_relay(m) + Self::spec_entry_ibc_relayer_change(m) + Self::spec_entry_ibc_sudo_change(m), m.ics20_withdrawal is Some, "ics20Withdrawal"@, JsonV::Object(m.ics20_withdrawal.unwrap()));
        lemma_entry_keys_append(Self::spec_entry_bridge_lock(m) + Self::spec_entry_bridge_sudo_change(m) + Self::spec_entry_bridge_unlock(m) + Self::spec_entry_fee_asset_change(m) + Self::spec_entry_fee_change(m) + Self::spec_entry_ibc_relay(m) + Self::spec_entry_ibc_relayer_change(m) + Self::spec_entry_ibc_sudo_change(m) + Self::spec_entry_ics20_withdrawal(m), m.init_bridge_account is Some, "initBridgeAccount"@, JsonV::Object(m.init_bridge_account.unwrap()));
        lemma_entry_keys_append(Self::spec_entry_bridge_lock(m) + Self::spec_entry_bridge_sudo_change(m) + Self::spec_entry_bridge_unlock(m) + Self::spec_entry_fee_asset_change(m) + Self::spec_entry_fee_change(m) + Self::spec_entry_ibc_relay(m) + Self::spec_entry_ibc_relayer_change(m) + Self::spec_entry_ibc_sudo_change(m) + Self::spec_entry_ics20_withdrawal(m) + Self::spec_entry_init_bridge_account(m), m.rollup_data_submission is Some, "rollupDataSubmission"@, JsonV::Object(m.rollup_data_submission.unwrap()));
        lemma_entry_keys_append(Self::spec_entry_bridge_lock(m) + Self::spec_entry_bridge_sudo_change(m) + Self::spec_entry_bridge_unlock(m) + Self::spec_entry_fee_asset_change(m) + Self::spec_entry_fee_change(m) + Self::spec_entry_ibc_relay(m) + Self::spec_entry_ibc_relayer_change(m) + Self::spec_entry_ibc_sudo_change(m) + Self::spec_entry_ics20_withdrawal(m) + Self::spec_entry_init_bridge_account(m) + Self::spec_entry_rollup_data_submission(m), m.sudo_address_change is Some, "sudoAddressChange"@, JsonV::Object(m.sudo_address_change.unwrap()));
        lemma_entry_keys_append(Self::spec_entry_bridge_lock(m) + Self::spec_entry_bridge_sudo_change(m) + Self::spec_entry_bridge_unlock(m) + Self::spec_entry_fee_asset_change(m) + Self::spec_entry_fee_change(m) + Self::spec_entry_ibc_relay(m) + Self::spec_entry_ibc_relayer_change(m) + Self::spec_entry_ibc_sudo_change(m) + Self::spec_entry_ics20_withdrawal(m) + Self::spec_entry_init_bridge_account(m) + Self::spec_entry_rollup_data_submission(m) + Self::spec_entry_sudo_address_change(m), m.transfer is Some, "transfer"@, JsonV::Object(m.transfer.unwrap()));
        lemma_entry_keys_append(Self::spec_entry_bridge_lock(m) + Self::spec_entry_bridge_sudo_change(m) + Self::spec_entry_bridge_unlock(m) + Self::spec_entry_fee_asset_change(m) + Self::spec_entry_fee_change(m) + Self::spec_entry_ibc_relay(m) + Self::spec_entry_ibc_relayer_change(m) + Self::spec_entry_ibc_sudo_change(m) + Self::spec_entry_ics20_withdrawal(m) + Self::spec_entry_init_bridge_account(m) + Self::spec_entry_rollup_data_submission(m) + Self::spec_entry_sudo_address_change(m) + Self::spec_entry_transfer(m), m.validator_update is Some, "validatorUpdate"@, JsonV::Object(m.validator_update.unwrap()));
        lemma_entry_keys_append(Self::spec_entry_bridge_lock(m) + Self::spec_entry_bridge_sudo_change(m) + Self::spec_entry_bridge_unlock(m) + Self::spec_entry_fee_asset_change(m) + Self::spec_entry_fee_change(m) + Self::spec_entry_ibc_relay(m) + Self::spec_entry_ibc_relayer_change(m) + Self::spec_entry_ibc_sudo_change(m) + Self::spec_entry_ics20_withdrawal(m) + Self::spec_entry_init_bridge_account(m) + Self::spec_entry_rollup_data_submission(m) + Self::spec_entry_sudo_address_change(m) + Self::spec_entry_transfer(m) + Self::spec_entry_validator_update(m), m.bridge_transfer is Some, "bridgeTransfer"@, JsonV::Object(m.bridge_transfer.unwrap()));
    }

    /// Whether the field whose JSON name is `name` holds its default in `m`; for a member
    /// of a oneof, whether the oneof is set to another member or unset. `true` for a name
    /// that names no field.
    pub open spec fn spec_holds_default(m: GenesisFeesV, name: Seq<char>) -> bool {
        if name == "bridgeLock"@ {
            m.bridge_lock is None
        } else if name == "bridgeSudoChange"@ {
            m.bridge_sudo_change is None
        } else if name == "bridgeUnlock"@ {
            m.bridge_unlock is None
        } else if name == "feeAssetChange"@ {
            m.fee_asset_change is None
        } else if name == "feeChange"@ {
            m.fee_change is None
        } else if name == "ibcRelay"@ {
            m.ibc_relay is None
        } else if name == "ibcRelayerChange"@ {
            m.ibc_relayer_change is None
        } else if name == "ibcSudoChange"@ {
            m.ibc_sudo_change is None
        } else if name == "ics20Withdrawal"@ {
            m.ics20_withdrawal is None
        } else if name == "initBridgeAccount"@ {
            m.init_bridge_account is None
        } else if name == "rollupDataSubmission"@ {
            m.rollup_data_submission is None
        } else if name == "sudoAddressChange"@ {
            m.sudo_address_change is None
        } else if name == "transfer"@ {
            m.transfer is None
        } else if name == "validatorUpdate"@ {
            m.validator_update is None
        } else if name == "bridgeTransfer"@ {
            m.bridge_transfer is None
        } else {
            true
        }
    }

    /// Whether reading `v` for the field whose JSON name is `name` leaves the field at
    /// its default: `null`, for a field that takes it (a message field, a member of a
    /// oneof); nothing, for any other field. `true` for a name that names no field.
    pub open spec fn spec_leaves_default(name: Seq<char>, v: JsonV) -> bool {
        if name == "bridgeLock"@ {
            v is Null
        } else if name == "bridgeSudoChange"@ {
            v is Null
        } else if name == "bridgeUnlock"@ {
            v is Null
        } else if name == "feeAssetChange"@ {
            v is Null
        } else if name == "feeChange"@ {
            v is Null
        } else if name == "ibcRelay"@ {
            v is Null
        } else if name == "ibcRelayerChange"@ {
            v is Null
        } else if name == "ibcSudoChange"@ {
            v is Null
        } else if name == "ics20Withdrawal"@ {
            v is Null
        } else if name == "initBridgeAccount"@ {
            v is Null
        } else if name == "rollupDataSubmission"@ {
            v is Null
        } else if name == "sudoAddressChange"@ {
            v is Null
        } else if name == "transfer"@ {
            v is Null
        } else if name == "validatorUpdate"@ {
            v is Null
        } else if name == "bridgeTransfer"@ {
            v is Null
        } else {
            true
        }
    }

    /// Reading one member keeps a field at its default unless the key names the field
    /// and the value does not leave it there.
    pub proof fn lemma_step_keeps_default(st: (GenesisFeesV, Seq<bool>), key: Seq<char>, v: JsonV, name: Seq<char>)
        requires
            Self::spec_holds_default(st.0, name),
            Self::spec_json_key(key) == name ==> Self::spec_leaves_default(name, v),
        ensures
            Self::spec_step(st, key, v) is Ok ==> Self::spec_holds_default(Self::spec_step(st, key, v)->Ok_0.0, name),
    {
        reveal_strlit("bridgeLock");
        reveal_strlit("bridge_lock");
        reveal_strlit("bridgeSudoChange");
        reveal_strlit("bridge_sudo_change");
        reveal_strlit("bridgeUnlock");
        reveal_strlit("bridge_unlock");
        reveal_strlit("feeAssetChange");
        reveal_strlit("fee_asset_change");
        reveal_strlit("feeChange");
        reveal_strlit("fee_change");
        reveal_strlit("ibcRelay");
        reveal_strlit("ibc_relay");
        reveal_strlit("ibcRelayerChange");
        reveal_strlit("ibc_relayer_change");
        reveal_strlit("ibcSudoChange");
        reveal_strlit("ibc_sudo_change");
        reveal_strlit("ics20Withdrawal");
        reveal_strlit("ics20_withdrawal");
        reveal_strlit("initBridgeAccount");
        reveal_strlit("init_bridge_account");
        reveal_strlit("rollupDataSubmission");
        reveal_strlit("rollup_data_submission");
        reveal_strlit("sudoAddressChange");
        reveal_strlit("sudo_address_change");
        reveal_strlit("transfer");
        reveal_strlit("validatorUpdate");
        reveal_strlit("validator_update");
        reveal_strlit("bridgeTransfer");
        reveal_strlit("bridge_transfer");
        assert("bridgeLock"@.len() == 10);
        assert("bridge_lock"@.len() == 11);
        assert("bridgeSudoChange"@.len() == 16);
        assert("bridge_sudo_change"@.len() == 18);
        assert("bridgeUnlock"@.len() == 12);
        assert("bridge_unlock"@.len() == 13);
        assert("feeAssetChange"@.len() == 14);
        assert("fee_asset_change"@.len() == 16);
        assert("feeChange"@.len() == 9);
        assert("fee_change"@.len() == 10);
        assert("ibcRelay"@.len() == 8);
        assert("ibc_relay"@.len() == 9);
        assert("ibcRelayerChange"@.len() == 16);
        assert("ibc_relayer_change"@.len() == 18);
        assert("ibcSudoChange"@.len() == 13);
        assert("ibc_sudo_change"@.len() == 15);
        assert("ics20Withdrawal"@.len() == 15);
        assert("ics20_withdrawal"@.len() == 16);
        assert("initBridgeAccount"@.len() == 17);
        assert("init_bridge_account"@.len() == 19);
        assert("rollupDataSubmission"@.len() == 20);
        assert("rollup_data_submission"@.len() == 22);
        assert("sudoAddressChange"@.len() == 17);
        assert("sudo_address_change"@.len() == 19);
        assert("transfer"@.len() == 8);
        assert("validatorUpdate"@.len() == 15);
        assert("validator_update"@.len() == 16);
        assert("bridgeTransfer"@.len() == 14);
        assert("bridge_transfer"@.len() == 15);
        assert("bridgeLock"@[0] != "fee_change"@[0]);
        assert("bridgeSudoChange"@[0] != "fee_asset_change"@[0]);
        assert("bridgeSudoChange"@[0] != "ibcRelayerChange"@[0]);
        assert("bridgeSudoChange"@[0] != "ics20_withdrawal"@[0]);
        assert("bridgeSudoChange"@[0] != "validator_update"@[0]);
        assert("bridge_sudo_change"@[0] != "ibc_relayer_change"@[0]);
        assert("bridge_unlock"@[0] != "ibcSudoChange"@[0]);
        assert("feeAssetChange"@[0] != "bridgeTransfer"@[0]);
        assert("fee_asset_change"@[0] != "ibcRelayerChange"@[0]);
        assert("fee_asset_change"@[0] != "ics20_withdrawal"@[0]);
        assert("fee_asset_change"@[0] != "validator_update"@[0]);
        assert("feeChange"@[0] != "ibc_relay"@[0]);
        assert("ibcRelay"@[0] != "transfer"@[0]);
        assert("ibcRelayerChange"@[1] != "ics20_withdrawal"@[1]);
        assert("ibcRelayerChange"@[0] != "validator_update"@[0]);
        assert("ibc_sudo_change"@[1] != "ics20Withdrawal"@[1]);
        assert("ibc_sudo_change"@[0] != "validatorUpdate"@[0]);
        assert("ibc_sudo_change"@[0] != "bridge_transfer"@[0]);
        assert("ics20Withdrawal"@[0] != "validatorUpdate"@[0]);
        assert("ics20Withdrawal"@[0] != "bridge_transfer"@[0]);
        assert("ics20_withdrawal"@[0] != "validator_update"@[0]);
        assert("initBridgeAccount"@[0] != "sudoAddressChange"@[0]);
        assert("init_bridge_account"@[0] != "sudo_address_change"@[0]);
        assert("validatorUpdate"@[0] != "bridge_transfer"@[0]);
        Self::lemma_step_json_key(st, key, v);
    }

    /// A field whose key appears in no member of an object, or only with values that
    /// leave it at its default (`null`, for a field that takes it), holds its default in
    /// the message that the object describes.
    pub proof fn lemma_absent_default(es: Seq<(Seq<char>, JsonV)>, name: Seq<char>)
        requires
            forall|i: int| 0 <= i < es.len() ==> (Self::spec_json_key((#[trigger] es[i]).0) == name
                ==> Self::spec_leaves_default(name, es[i].1)),
        ensures
            Self::spec_from_json(JsonV::Object(es)) is Ok
                ==> Self::spec_holds_default(Self::spec_from_json(JsonV::Object(es))->Ok_0, name),
    {
        let inv = |s: (GenesisFeesV, Seq<bool>)| Self::spec_holds_default(s.0, name);
        let allowed = |k: Seq<char>, v: JsonV| Self::spec_json_key(k) == name ==> Self::spec_leaves_default(name, v);
        assert forall|s: (GenesisFeesV, Seq<bool>), k: Seq<char>, v: JsonV| #![trigger Self::step_fn()(s, k, v)]
            inv(s) && allowed(k, v) && Self::step_fn()(s, k, v) is Ok implies inv(Self::step_fn()(s, k, v)->Ok_0) by {
            Self::lemma_step_keeps_default(s, k, v, name);
        }
        assert(inv(Self::spec_start()));
        lemma_fold_keeps(Self::spec_start(), es, Self::step_fn(), inv, allowed);
    }

    /// The field `bridge_lock` alone: an object with one member under its JSON or protobuf
    /// name reads as the message with that field set and every other field at its
    /// default, and the message with only that field off its default writes that
    /// one member under the JSON name.
    pub proof fn lemma_field_bridge_lock(es: Seq<(Seq<char>, JsonV)>)
        ensures
            Self::spec_from_json(JsonV::Object(seq![("bridgeLock"@, JsonV::Object(es))])) == Ok::<GenesisFeesV, JsonErrorV>(GenesisFeesV { bridge_lock: Some(es), ..Self::spec_default() }),
            Self::spec_from_json(JsonV::Object(seq![("bridgeLock"@, JsonV::Null)])) == Ok::<GenesisFeesV, JsonErrorV>(Self::spec_default()),
            Self::spec_from_json(JsonV::Object(seq![("bridge_lock"@, JsonV::Object(es))])) == Ok::<GenesisFeesV, JsonErrorV>(GenesisFeesV { bridge_lock: Some(es), ..Self::spec_default() }),
            Self::spec_from_json(JsonV::Object(seq![("bridge_lock"@, JsonV::Null)])) == Ok::<GenesisFeesV, JsonErrorV>(Self::spec_default()),
            Self::spec_to_json(GenesisFeesV { bridge_lock: Some(es), ..Self::spec_default() }) == JsonV::Object(seq![("bridgeLock"@, JsonV::Object(es))]),
    {
        reveal_strlit("bridgeLock");
        reveal_strlit("bridge_lock");
        reveal_strlit("bridgeSudoChange");
        reveal_strlit("bridge_sudo_change");
        reveal_strlit("bridgeUnlock");
        reveal_strlit("bridge_unlock");
        reveal_strlit("feeAssetChange");
        reveal_strlit("fee_asset_change");
        reveal_strlit("feeChange");
        reveal_strlit("fee_change");
        reveal_strlit("ibcRelay");
        reveal_strlit("ibc_relay");
        reveal_strlit("ibcRelayerChange");
        reveal_strlit("ibc_relayer_change");
        reveal_strlit("ibcSudoChange");
        reveal_strlit("ibc_sudo_change");
        reveal_strlit("ics20Withdrawal");
        reveal_strlit("ics20_withdrawal");
        reveal_strlit("initBridgeAccount");
        reveal_strlit("init_bridge_account");
        reveal_strlit("rollupDataSubmission");
        reveal_strlit("rollup_data_submission");
        reveal_strlit("sudoAddressChange");
        reveal_strlit("sudo_address_change");
        reveal_strlit("transfer");
        reveal_strlit("validatorUpdate");
        reveal_strlit("validator_update");
        reveal_strlit("bridgeTransfer");
        reveal_strlit("bridge_transfer");
        assert("bridgeLock"@.len() == 10);
        assert("bridge_lock"@.len() == 11);
        assert("bridgeSudoChange"@.len() == 16);
        assert("bridge_sudo_change"@.len() == 18);
        assert("bridgeUnlock"@.len() == 12);
        assert("bridge_unlock"@.len() == 13);
        assert("feeAssetChange"@.len() == 14);
        assert("fee_asset_change"@.len() == 16);
        assert("feeChange"@.len() == 9);
        assert("fee_change"@.len() == 10);
        assert("ibcRelay"@.len() == 8);
        assert("ibc_relay"@.len() == 9);
        assert("ibcRelayerChange"@.len() == 16);
        assert("ibc_relayer_change"@.len() == 18);
        assert("ibcSudoChange"@.len() == 13);
        assert("ibc_sudo_change"@.len() == 15);
        assert("ics20Withdrawal"@.len() == 15);
        assert("ics20_withdrawal"@.len() == 16);
        assert("initBridgeAccount"@.len() == 17);
        assert("init_bridge_account"@.len() == 19);
        assert("rollupDataSubmission"@.len() == 20);
        assert("rollup_data_submission"@.len() == 22);
        assert("sudoAddressChange"@.len() == 17);
        assert("sudo_address_change"@.len() == 19);
        assert("transfer"@.len() == 8);
        assert("validatorUpdate"@.len() == 15);
        assert("validator_update"@.len() == 16);
        assert("bridgeTransfer"@.len() == 14);
        assert("bridge_transfer"@.len() == 15);
        assert("bridgeLock"@[0] != "fee_change"@[0]);
        assert("bridgeSudoChange"@[0] != "fee_asset_change"@[0]);
        assert("bridgeSudoChange"@[0] != "ibcRelayerChange"@[0]);
        assert("bridgeSudoChange"@[0] != "ics20_withdrawal"@[0]);
        assert("bridgeSudoChange"@[0] != "validator_update"@[0]);
        assert("bridge_sudo_change"@[0] != "ibc_relayer_change"@[0]);
        assert("bridge_unlock"@[0] != "ibcSudoChange"@[0]);
        assert("feeAssetChange"@[0] != "bridgeTransfer"@[0]);
        assert("fee_asset_change"@[0] != "ibcRelayerChange"@[0]);
        assert("fee_asset_change"@[0] != "ics20_withdrawal"@[0]);
        assert("fee_asset_change"@[0] != "validator_update"@[0]);
        assert("feeChange"@[0] != "ibc_relay"@[0]);
        assert("ibcRelay"@[0] != "transfer"@[0]);
        assert("ibcRelayerChange"@[1] != "ics20_withdrawal"@[1]);
        assert("ibcRelayerChange"@[0] != "validator_update"@[0]);
        assert("ibc_sudo_change"@[1] != "ics20Withdrawal"@[1]);
        assert("ibc_sudo_change"@[0] != "validatorUpdate"@[0]);
        assert("ibc_sudo_change"@[0] != "bridge_transfer"@[0]);
        assert("ics20Withdrawal"@[0] != "validatorUpdate"@[0]);
        assert("ics20Withdrawal"@[0] != "bridge_transfer"@[0]);
        assert("ics20_withdrawal"@[0] != "validator_update"@[0]);
        assert("initBridgeAccount"@[0] != "sudoAddressChange"@[0]);
        assert("init_bridge_account"@[0] != "sudo_address_change"@[0]);
        assert("validatorUpdate"@[0] != "bridge_transfer"@[0]);
        lemma_fold_entry_if(Self::spec_start(), true, "bridgeLock"@, JsonV::Object(es), Self::step_fn());
        lemma_fold_entry_if(Self::spec_start(), true, "bridgeLock"@, JsonV::Null, Self::step_fn());
        lemma_fold_entry_if(Self::spec_start(), true, "bridge_lock"@, JsonV::Object(es), Self::step_fn());
        lemma_fold_entry_if(Self::spec_start(), true, "bridge_lock"@, JsonV::Null, Self::step_fn());
    }

    /// The field `bridge_sudo_change` alone: an object with one member under its JSON or protobuf
    /// name reads as the message with that field set and every other field at its
    /// default, and the message with only that field off its default writes that
    /// one member under the JSON name.
    pub proof fn lemma_field_bridge_sudo_change(es: Seq<(Seq<char>, JsonV)>)
        ensures
            Self::spec_from_json(JsonV::Object(seq![("bridgeSudoChange"@, JsonV::Object(es))])) == Ok::<GenesisFeesV, JsonErrorV>(GenesisFeesV { bridge_sudo_change: Some(es), ..Self::spec_default() }),
            Self::spec_from_json(JsonV::Object(seq![("bridgeSudoChange"@, JsonV::Null)])) == Ok::<GenesisFeesV, JsonErrorV>(Self::spec_default()),
            Self::spec_from_json(JsonV::Object(seq![("bridge_sudo_change"@, JsonV::Object(es))])) == Ok::<GenesisFeesV, JsonErrorV>(GenesisFeesV { bridge_sudo_change: Some(es), ..Self::spec_default() }),
            Self::spec_from_json(JsonV::Object(seq![("bridge_sudo_change"@, JsonV::Null)])) == Ok::<GenesisFeesV, JsonErrorV>(Self::spec_default()),
            Self::spec_to_json(GenesisFeesV { bridge_sudo_change: Some(es), ..Self::spec_default() }) == JsonV::Object(seq![("bridgeSudoChange"@, JsonV::Object(es))]),
    {
        reveal_strlit("bridgeLock");
        reveal_strlit("bridge_lock");
        reveal_strlit("bridgeSudoChange");
        reveal_strlit("bridge_sudo_change");
        reveal_strlit("bridgeUnlock");
        reveal_strlit("bridge_unlock");
        reveal_strlit("feeAssetChange");
        reveal_strlit("fee_asset_change");
        reveal_strlit("feeChange");
        reveal_strlit("fee_change");
        reveal_strlit("ibcRelay");
        reveal_strlit("ibc_relay");
        reveal_strlit("ibcRelayerChange");
        reveal_strlit("ibc_relayer_change");
        reveal_strlit("ibcSudoChange");
        reveal_strlit("ibc_sudo_change");
        reveal_strlit("ics20Withdrawal");
        reveal_strlit("ics20_withdrawal");
        reveal_strlit("initBridgeAccount");
        reveal_strlit("init_bridge_account");
        reveal_strlit("rollupDataSubmission");
        reveal_strlit("rollup_data_submission");
        reveal_strlit("sudoAddressChange");
        reveal_strlit("sudo_address_change");
        reveal_strlit("transfer");
        reveal_strlit("validatorUpdate");
        reveal_strlit("validator_update");
        reveal_strlit("bridgeTransfer");
        reveal_strlit("bridge_transfer");
        assert("bridgeLock"@.len() == 10);
        assert("bridge_lock"@.len() == 11);
        assert("bridgeSudoChange"@.len() == 16);
        assert("bridge_sudo_change"@.len() == 18);
        assert("bridgeUnlock"@.len() == 12);
        assert("bridge_unlock"@.len() == 13);
        assert("feeAssetChange"@.len() == 14);
        assert("fee_asset_change"@.len() == 16);
        assert("feeChange"@.len() == 9);
        assert("fee_change"@.len() == 10);
        assert("ibcRelay"@.len() == 8);
        assert("ibc_relay"@.len() == 9);
        assert("ibcRelayerChange"@.len() == 16);
        assert("ibc_relayer_change"@.len() == 18);
        assert("ibcSudoChange"@.len() == 13);
        assert("ibc_sudo_change"@.len() == 15);
        assert("ics20Withdrawal"@.len() == 15);
        assert("ics20_withdrawal"@.len() == 16);
        assert("initBridgeAccount"@.len() == 17);
        assert("init_bridge_account"@.len() == 19);
        assert("rollupDataSubmission"@.len() == 20);
        assert("rollup_data_submission"@.len() == 22);
        assert("sudoAddressChange"@.len() == 17);
        assert("sudo_address_change"@.len() == 19);
        assert("transfer"@.len() == 8);
        assert("validatorUpdate"@.len() == 15);
        assert("validator_update"@.len() == 16);
        assert("bridgeTransfer"@.len() == 14);
        assert("bridge_transfer"@.len() == 15);
        assert("bridgeLock"@[0] != "fee_change"@[0]);
        assert("bridgeSudoChange"@[0] != "fee_asset_change"@[0]);
        assert("bridgeSudoChange"@[0] != "ibcRelayerChange"@[0]);
        assert("bridgeSudoChange"@[0] != "ics20_withdrawal"@[0]);
        assert("bridgeSudoChange"@[0] != "validator_update"@[0]);
        assert("bridge_sudo_change"@[0] != "ibc_relayer_change"@[0]);
        assert("bridge_unlock"@[0] != "ibcSudoChange"@[0]);
        assert("feeAssetChange"@[0] != "bridgeTransfer"@[0]);
        assert("fee_asset_change"@[0] != "ibcRelayerChange"@[0]);
        assert("fee_asset_change"@[0] != "ics20_withdrawal"@[0]);
        assert("fee_asset_change"@[0] != "validator_update"@[0]);
        assert("feeChange"@[0] != "ibc_relay"@[0]);
        assert("ibcRelay"@[0] != "transfer"@[0]);
        assert("ibcRelayerChange"@[1] != "ics20_withdrawal"@[1]);
        assert("ibcRelayerChange"@[0] != "validator_update"@[0]);
        assert("ibc_sudo_change"@[1] != "ics20Withdrawal"@[1]);
        assert("ibc_sudo_change"@[0] != "validatorUpdate"@[0]);
        assert("ibc_sudo_change"@[0] != "bridge_transfer"@[0]);
        assert("ics20Withdrawal"@[0] != "validatorUpdate"@[0]);
        assert("ics20Withdrawal"@[0] != "bridge_transfer"@[0]);
        assert("ics20_withdrawal"@[0] != "validator_update"@[0]);
        assert("initBridgeAccount"@[0] != "sudoAddressChange"@[0]);
        assert("init_bridge_account"@[0] != "sudo_address_change"@[0]);
        assert("validatorUpdate"@[0] != "bridge_transfer"@[0]);
        lemma_fold_entry_if(Self::spec_start(), true, "bridgeSudoChange"@, JsonV::Object(es), Self::step_fn());
        lemma_fold_entry_if(Self::spec_start(), true, "bridgeSudoChange"@, JsonV::Null, Self::step_fn());
        lemma_fold_entry_if(Self::spec_start(), true, "bridge_sudo_change"@, JsonV::Object(es), Self::step_fn());
        lemma_fold_entry_if(Self::spec_start(), true, "bridge_sudo_change"@, JsonV::Null, Self::step_fn());
    }

    /// The field `bridge_unlock` alone: an object with one member under its JSON or protobuf
    /// name reads as the message with that field set and every other field at its
    /// default, and the message with only that field off its default writes that
    /// one member under the JSON name.
    pub proof fn lemma_field_bridge_unlock(es: Seq<(Seq<char>, JsonV)>)
        ensures
            Self::spec_from_json(JsonV::Object(seq![("bridgeUnlock"@, JsonV::Object(es))])) == Ok::<GenesisFeesV, JsonErrorV>(GenesisFeesV { bridge_unlock: Some(es), ..Self::spec_default() }),
            Self::spec_from_json(JsonV::Object(seq![("bridgeUnlock"@, JsonV::Null)])) == Ok::<GenesisFeesV, JsonErrorV>(Self::spec_default()),
            Self::spec_from_json(JsonV::Object(seq![("bridge_unlock"@, JsonV::Object(es))])) == Ok::<GenesisFeesV, JsonErrorV>(GenesisFeesV { bridge_unlock: Some(es), ..Self::spec_default() }),
            Self::spec_from_json(JsonV::Object(seq![("bridge_unlock"@, JsonV::Null)])) == Ok::<GenesisFeesV, JsonErrorV>(Self::spec_default()),
            Self::spec_to_json(GenesisFeesV { bridge_unlock: Some(es), ..Self::spec_default() }) == JsonV::Object(seq![("bridgeUnlock"@, JsonV::Object(es))]),
    {
        reveal_strlit("bridgeLock");
        reveal_strlit("bridge_lock");
        reveal_strlit("bridgeSudoChange");
        reveal_strlit("bridge_sudo_change");
        reveal_strlit("bridgeUnlock");
        reveal_strlit("bridge_unlock");
        reveal_strlit("feeAssetChange");
        reveal_strlit("fee_asset_change");
        reveal_strlit("feeChange");
        reveal_strlit("fee_change");
        reveal_strlit("ibcRelay");
        reveal_strlit("ibc_relay");
        reveal_strlit("ibcRelayerChange");
        reveal_strlit("ibc_relayer_change");
        reveal_strlit("ibcSudoChange");
        reveal_strlit("ibc_sudo_change");
        reveal_strlit("ics20Withdrawal");
        reveal_strlit("ics20_withdrawal");
        reveal_strlit("initBridgeAccount");
        reveal_strlit("init_bridge_account");
        reveal_strlit("rollupDataSubmission");
        reveal_strlit("rollup_data_submission");
        reveal_strlit("sudoAddressChange");
        reveal_strlit("sudo_address_change");
        reveal_strlit("transfer");
        reveal_strlit("validatorUpdate");
        reveal_strlit("validator_update");
        reveal_strlit("bridgeTransfer");
        reveal_strlit("bridge_transfer");
        assert("bridgeLock"@.len() == 10);
        assert("bridge_lock"@.len() == 11);
        assert("bridgeSudoChange"@.len() == 16);
        assert("bridge_sudo_change"@.len() == 18);
        assert("bridgeUnlock"@.len() == 12);
        assert("bridge_unlock"@.len() == 13);
        assert("feeAssetChange"@.len() == 14);
        assert("fee_asset_change"@.len() == 16);
        assert("feeChange"@.len() == 9);
        assert("fee_change"@.len() == 10);
        assert("ibcRelay"@.len() == 8);
        assert("ibc_relay"@.len() == 9);
        assert("ibcRelayerChange"@.len() == 16);
        assert("ibc_relayer_change"@.len() == 18);
        assert("ibcSudoChange"@.len() == 13);
        assert("ibc_sudo_change"@.len() == 15);
        assert("ics20Withdrawal"@.len() == 15);
        assert("ics20_withdrawal"@.len() == 16);
        assert("initBridgeAccount"@.len() == 17);
        assert("init_bridge_account"@.len() == 19);
        assert("rollupDataSubmission"@.len() == 20);
        assert("rollup_data_submission"@.len() == 22);
        assert("sudoAddressChange"@.len() == 17);
        assert("sudo_address_change"@.len() == 19);
        assert("transfer"@.len() == 8);
        assert("validatorUpdate"@.len() == 15);
        assert("validator_update"@.len() == 16);
        assert("bridgeTransfer"@.len() == 14);
        assert("bridge_transfer"@.len() == 15);
        assert("bridgeLock"@[0] != "fee_change"@[0]);
        assert("bridgeSudoChange"@[0] != "fee_asset_change"@[0]);
        assert("bridgeSudoChange"@[0] != "ibcRelayerChange"@[0]);
        assert("bridgeSudoChange"@[0] != "ics20_withdrawal"@[0]);
        assert("bridgeSudoChange"@[0] != "validator_update"@[0]);
        assert("bridge_sudo_change"@[0] != "ibc_relayer_change"@[0]);
        assert("bridge_unlock"@[0] != "ibcSudoChange"@[0]);
        assert("feeAssetChange"@[0] != "bridgeTransfer"@[0]);
        assert("fee_asset_change"@[0] != "ibcRelayerChange"@[0]);
        assert("fee_asset_change"@[0] != "ics20_withdrawal"@[0]);
        assert("fee_asset_change"@[0] != "validator_update"@[0]);
        assert("feeChange"@[0] != "ibc_relay"@[0]);
        assert("ibcRelay"@[0] != "transfer"@[0]);
        assert("ibcRelayerChange"@[1] != "ics20_withdrawal"@[1]);
        assert("ibcRelayerChange"@[0] != "validator_update"@[0]);
        assert("ibc_sudo_change"@[1] != "ics20Withdrawal"@[1]);
        assert("ibc_sudo_change"@[0] != "validatorUpdate"@[0]);
        assert("ibc_sudo_change"@[0] != "bridge_transfer"@[0]);
        assert("ics20Withdrawal"@[0] != "validatorUpdate"@[0]);
        assert("ics20Withdrawal"@[0] != "bridge_transfer"@[0]);
        assert("ics20_withdrawal"@[0] != "validator_update"@[0]);
        assert("initBridgeAccount"@[0] != "sudoAddressChange"@[0]);
        assert("init_bridge_account"@[0] != "sudo_address_change"@[0]);
        assert("validatorUpdate"@[0] != "bridge_transfer"@[0]);
        lemma_fold_entry_if(Self::spec_start(), true, "bridgeUnlock"@, JsonV::Object(es), Self::step_fn());
        lemma_fold_entry_if(Self::spec_start(), true, "bridgeUnlock"@, JsonV::Null, Self::step_fn());
        lemma_fold_entry_if(Self::spec_start(), true, "bridge_unlock"@, JsonV::Object(es), Self::step_fn());
        lemma_fold_entry_if(Self::spec_start(), true, "bridge_unlock"@, JsonV::Null, Self::step_fn());
    }

    /// The field `fee_asset_change` alone: an object with one member under its JSON or protobuf
    /// name reads as the message with that field set and every other field at its
    /// default, and the message with only that field off its default writes that
    /// one member under the JSON name.
    pub proof fn lemma_field_fee_asset_change(es: Seq<(Seq<char>, JsonV)>)
        ensures
            Self::spec_from_json(JsonV::Object(seq![("feeAssetChange"@, JsonV::Object(es))])) == Ok::<GenesisFeesV, JsonErrorV>(GenesisFeesV { fee_asset_change: Some(es), ..Self::spec_default() }),
            Self::spec_from_json(JsonV::Object(seq![("feeAssetChange"@, JsonV::Null)])) == Ok::<GenesisFeesV, JsonErrorV>(Self::spec_default()),
            Self::spec_from_json(JsonV::Object(seq![("fee_asset_change"@, JsonV::Object(es))])) == Ok::<GenesisFeesV, JsonErrorV>(GenesisFeesV { fee_asset_change: Some(es), ..Self::spec_default() }),
            Self::spec_from_json(JsonV::Object(seq![("fee_asset_change"@, JsonV::Null)])) == Ok::<GenesisFeesV, JsonErrorV>(Self::spec_default()),
            Self::spec_to_json(GenesisFeesV { fee_asset_change: Some(es), ..Self::spec_default() }) == JsonV::Object(seq![("feeAssetChange"@, JsonV::Object(es))]),
    {
        reveal_strlit("bridgeLock");
        reveal_strlit("bridge_lock");
        reveal_strlit("bridgeSudoChange");
        reveal_strlit("bridge_sudo_change");
        reveal_strlit("bridgeUnlock");
        reveal_strlit("bridge_unlock");
        reveal_strlit("feeAssetChange");
        reveal_strlit("fee_asset_change");
        reveal_strlit("feeChange");
        reveal_strlit("fee_change");
        reveal_strlit("ibcRelay");
        reveal_strlit("ibc_relay");
        reveal_strlit("ibcRelayerChange");
        reveal_strlit("ibc_relayer_change");
        reveal_strlit("ibcSudoChange");
        reveal_strlit("ibc_sudo_change");
        reveal_strlit("ics20Withdrawal");
        reveal_strlit("ics20_withdrawal");
        reveal_strlit("initBridgeAccount");
        reveal_strlit("init_bridge_account");
        reveal_strlit("rollupDataSubmission");
        reveal_strlit("rollup_data_submission");
        reveal_strlit("sudoAddressChange");
        reveal_strlit("sudo_address_change");
        reveal_strlit("transfer");
        reveal_strlit("validatorUpdate");
        reveal_strlit("validator_update");
        reveal_strlit("bridgeTransfer");
        reveal_strlit("bridge_transfer");
        assert("bridgeLock"@.len() == 10);
        assert("bridge_lock"@.len() == 11);
        assert("bridgeSudoChange"@.len() == 16);
        assert("bridge_sudo_change"@.len() == 18);
        assert("bridgeUnlock"@.len() == 12);
        assert("bridge_unlock"@.len() == 13);
        assert("feeAssetChange"@.len() == 14);
        assert("fee_asset_change"@.len() == 16);
        assert("feeChange"@.len() == 9);
        assert("fee_change"@.len() == 10);
        assert("ibcRelay"@.len() == 8);
        assert("ibc_relay"@.len() == 9);
        assert("ibcRelayerChange"@.len() == 16);
        assert("ibc_relayer_change"@.len() == 18);
        assert("ibcSudoChange"@.len() == 13);
        assert("ibc_sudo_change"@.len() == 15);
        assert("ics20Withdrawal"@.len() == 15);
        assert("ics20_withdrawal"@.len() == 16);
        assert("initBridgeAccount"@.len() == 17);
        assert("init_bridge_account"@.len() == 19);
        assert("rollupDataSubmission"@.len() == 20);
        assert("rollup_data_submission"@.len() == 22);
        assert("sudoAddressChange"@.len() == 17);
        assert("sudo_address_change"@.len() == 19);
        assert("transfer"@.len() == 8);
        assert("validatorUpdate"@.len() == 15);
        assert("validator_update"@.len() == 16);
        assert("bridgeTransfer"@.len() == 14);
        assert("bridge_transfer"@.len() == 15);
        assert("bridgeLock"@[0] != "fee_change"@[0]);
        assert("bridgeSudoChange"@[0] != "fee_asset_change"@[0]);
        assert("bridgeSudoChange"@[0] != "ibcRelayerChange"@[0]);
        assert("bridgeSudoChange"@[0] != "ics20_withdrawal"@[0]);
        assert("bridgeSudoChange"@[0] != "validator_update"@[0]);
        assert("bridge_sudo_change"@[0] != "ibc_relayer_change"@[0]);
        assert("bridge_unlock"@[0] != "ibcSudoChange"@[0]);
        assert("feeAssetChange"@[0] != "bridgeTransfer"@[0]);
        assert("fee_asset_change"@[0] != "ibcRelayerChange"@[0]);
        assert("fee_asset_change"@[0] != "ics20_withdrawal"@[0]);
        assert("fee_asset_change"@[0] != "validator_update"@[0]);
        assert("feeChange"@[0] != "ibc_relay"@[0]);
        assert("ibcRelay"@[0] != "transfer"@[0]);
        assert("ibcRelayerChange"@[1] != "ics20_withdrawal"@[1]);
        assert("ibcRelayerChange"@[0] != "validator_update"@[0]);
        assert("ibc_sudo_change"@[1] != "ics20Withdrawal"@[1]);
        assert("ibc_sudo_change"@[0] != "validatorUpdate"@[0]);
        assert("ibc_sudo_change"@[0] != "bridge_transfer"@[0]);
        assert("ics20Withdrawal"@[0] != "validatorUpdate"@[0]);
        assert("ics20Withdrawal"@[0] != "bridge_transfer"@[0]);
        assert("ics20_withdrawal"@[0] != "validator_update"@[0]);
        assert("initBridgeAccount"@[0] != "sudoAddressChange"@[0]);
        assert("init_bridge_account"@[0] != "sudo_address_change"@[0]);
        assert("validatorUpdate"@[0] != "bridge_transfer"@[0]);
        lemma_fold_entry_if(Self::spec_start(), true, "feeAssetChange"@, JsonV::Object(es), Self::step_fn());
        lemma_fold_entry_if(Self::spec_start(), true, "feeAssetChange"@, JsonV::Null, Self::step_fn());
        lemma_fold_entry_if(Self::spec_start(), true, "fee_asset_change"@, JsonV::Object(es), Self::step_fn());
        lemma_fold_entry_if(Self::spec_start(), true, "fee_asset_change"@, JsonV::Null, Self::step_fn());
    }

    /// The field `fee_change` alone: an object with one member under its JSON or protobuf
    /// name reads as the message with that field set and every other field at its
    /// default, and the message with only that field off its default writes that
    /// one member under the JSON name.
    pub proof fn lemma_field_fee_change(es: Seq<(Seq<char>, JsonV)>)
        ensures
            Self::spec_from_json(JsonV::Object(seq![("feeChange"@, JsonV::Object(es))])) == Ok::<GenesisFeesV, JsonErrorV>(GenesisFeesV { fee_change: Some(es), ..Self::spec_default() }),
            Self::spec_from_json(JsonV::Object(seq![("feeChange"@, JsonV::Null)])) == Ok::<GenesisFeesV, JsonErrorV>(Self::spec_default()),
            Self::spec_from_json(JsonV::Object(seq![("fee_change"@, JsonV::Object(es))])) == Ok::<GenesisFeesV, JsonErrorV>(GenesisFeesV { fee_change: Some(es), ..Self::spec_default() }),
            Self::spec_from_json(JsonV::Object(seq![("fee_change"@, JsonV::Null)])) == Ok::<GenesisFeesV, JsonErrorV>(Self::spec_default()),
            Self::spec_to_json(GenesisFeesV { fee_change: Some(es), ..Self::spec_default() }) == JsonV::Object(seq![("feeChange"@, JsonV::Object(es))]),
    {
        reveal_strlit("bridgeLock");
        reveal_strlit("bridge_lock");
        reveal_strlit("bridgeSudoChange");
        reveal_strlit("bridge_sudo_change");
        reveal_strlit("bridgeUnlock");
        reveal_strlit("bridge_unlock");
        reveal_strlit("feeAssetChange");
        reveal_strlit("fee_asset_change");
        reveal_strlit("feeChange");
        reveal_strlit("fee_change");
        reveal_strlit("ibcRelay");
        reveal_strlit("ibc_relay");
        reveal_strlit("ibcRelayerChange");
        reveal_strlit("ibc_relayer_change");
        reveal_strlit("ibcSudoChange");
        reveal_strlit("ibc_sudo_change");
        reveal_strlit("ics20Withdrawal");
        reveal_strlit("ics20_withdrawal");
        reveal_strlit("initBridgeAccount");
        reveal_strlit("init_bridge_account");
        reveal_strlit("rollupDataSubmission");
        reveal_strlit("rollup_data_submission");
        reveal_strlit("sudoAddressChange");
        reveal_strlit("sudo_address_change");
        reveal_strlit("transfer");
        reveal_strlit("validatorUpdate");
        reveal_strlit("validator_update");
        reveal_strlit("bridgeTransfer");
        reveal_strlit("bridge_transfer");
        assert("bridgeLock"@.len() == 10);
        assert("bridge_lock"@.len() == 11);
        assert("bridgeSudoChange"@.len() == 16);
        assert("bridge_sudo_change"@.len() == 18);
        assert("bridgeUnlock"@.len() == 12);
        assert("bridge_unlock"@.len() == 13);
        assert("feeAssetChange"@.len() == 14);
        assert("fee_asset_change"@.len() == 16);
        assert("feeChange"@.len() == 9);
        assert("fee_change"@.len() == 10);
        assert("ibcRelay"@.len() == 8);
        assert("ibc_relay"@.len() == 9);
        assert("ibcRelayerChange"@.len() == 16);
        assert("ibc_relayer_change"@.len() == 18);
        assert("ibcSudoChange"@.len() == 13);
        assert("ibc_sudo_change"@.len() == 15);
        assert("ics20Withdrawal"@.len() == 15);
        assert("ics20_withdrawal"@.len() == 16);
        assert("initBridgeAccount"@.len() == 17);
        assert("init_bridge_account"@.len() == 19);
        assert("rollupDataSubmission"@.len() == 20);
        assert("rollup_data_submission"@.len() == 22);
        assert("sudoAddressChange"@.len() == 17);
        assert("sudo_address_change"@.len() == 19);
        assert("transfer"@.len() == 8);
        assert("validatorUpdate"@.len() == 15);
        assert("validator_update"@.len() == 16);
        assert("bridgeTransfer"@.len() == 14);
        assert("bridge_transfer"@.len() == 15);
        assert("bridgeLock"@[0] != "fee_change"@[0]);
        assert("bridgeSudoChange"@[0] != "fee_asset_change"@[0]);
        assert("bridgeSudoChange"@[0] != "ibcRelayerChange"@[0]);
        assert("bridgeSudoChange"@[0] != "ics20_withdrawal"@[0]);
        assert("bridgeSudoChange"@[0] != "validator_update"@[0]);
        assert("bridge_sudo_change"@[0] != "ibc_relayer_change"@[0]);
        assert("bridge_unlock"@[0] != "ibcSudoChange"@[0]);
        assert("feeAssetChange"@[0] != "bridgeTransfer"@[0]);
        assert("fee_asset_change"@[0] != "ibcRelayerChange"@[0]);
        assert("fee_asset_change"@[0] != "ics20_withdrawal"@[0]);
        assert("fee_asset_change"@[0] != "validator_update"@[0]);
        assert("feeChange"@[0] != "ibc_relay"@[0]);
        assert("ibcRelay"@[0] != "transfer"@[0]);
        assert("ibcRelayerChange"@[1] != "ics20_withdrawal"@[1]);
        assert("ibcRelayerChange"@[0] != "validator_update"@[0]);
        assert("ibc_sudo_change"@[1] != "ics20Withdrawal"@[1]);
        assert("ibc_sudo_change"@[0] != "validatorUpdate"@[0]);
        assert("ibc_sudo_change"@[0] != "bridge_transfer"@[0]);
        assert("ics20Withdrawal"@[0] != "validatorUpdate"@[0]);
        assert("ics20Withdrawal"@[0] != "bridge_transfer"@[0]);
        assert("ics20_withdrawal"@[0] != "validator_update"@[0]);
        assert("initBridgeAccount"@[0] != "sudoAddressChange"@[0]);
        assert("init_bridge_account"@[0] != "sudo_address_change"@[0]);
        assert("validatorUpdate"@[0] != "bridge_transfer"@[0]);
        lemma_fold_entry_if(Self::spec_start(), true, "feeChange"@, JsonV::Object(es), Self::step_fn());
        lemma_fold_entry_if(Self::spec_start(), true, "feeChange"@, JsonV::Null, Self::step_fn());
        lemma_fold_entry_if(Self::spec_start(), true, "fee_change"@, JsonV::Object(es), Self::step_fn());
        lemma_fold_entry_if(Self::spec_start(), true, "fee_change"@, JsonV::Null, Self::step_fn());
    }

    /// The field `ibc_relay` alone: an object with one member under its JSON or protobuf
    /// name reads as the message with that field set and every other field at its
    /// default, and the message with only that field off its default writes that
    /// one member under the JSON name.
    pub proof fn lemma_field_ibc_relay(es: Seq<(Seq<char>, JsonV)>)
        ensures
            Self::spec_from_json(JsonV::Object(seq![("ibcRelay"@, JsonV::Object(es))])) == Ok::<GenesisFeesV, JsonErrorV>(GenesisFeesV { ibc_relay: Some(es), ..Self::spec_default() }),
            Self::spec_from_json(JsonV::Object(seq![("ibcRelay"@, JsonV::Null)])) == Ok::<GenesisFeesV, JsonErrorV>(Self::spec_default()),
            Self::spec_from_json(JsonV::Object(seq![("ibc_relay"@, JsonV::Object(es))])) == Ok::<GenesisFeesV, JsonErrorV>(GenesisFeesV { ibc_relay: Some(es), ..Self::spec_default() }),
            Self::spec_from_json(JsonV::Object(seq![("ibc_relay"@, JsonV::Null)])) == Ok::<GenesisFeesV, JsonErrorV>(Self::spec_default()),
            Self::spec_to_json(GenesisFeesV { ibc_relay: Some(es), ..Self::spec_default() }) == JsonV::Object(seq![("ibcRelay"@, JsonV::Object(es))]),
    {
        reveal_strlit("bridgeLock");
        reveal_strlit("bridge_lock");
        reveal_strlit("bridgeSudoChange");
        reveal_strlit("bridge_sudo_change");
        reveal_strlit("bridgeUnlock");
        reveal_strlit("bridge_unlock");
        reveal_strlit("feeAssetChange");
        reveal_strlit("fee_asset_change");
        reveal_strlit("feeChange");
        reveal_strlit("fee_change");
        reveal_strlit("ibcRelay");
        reveal_strlit("ibc_relay");
        reveal_strlit("ibcRelayerChange");
        reveal_strlit("ibc_relayer_change");
        reveal_strlit("ibcSudoChange");
        reveal_strlit("ibc_sudo_change");
        reveal_strlit("ics20Withdrawal");
        reveal_strlit("ics20_withdrawal");
        reveal_strlit("initBridgeAccount");
        reveal_strlit("init_bridge_account");
        reveal_strlit("rollupDataSubmission");
        reveal_strlit("rollup_data_submission");
        reveal_strlit("sudoAddressChange");
        reveal_strlit("sudo_address_change");
        reveal_strlit("transfer");
        reveal_strlit("validatorUpdate");
        reveal_strlit("validator_update");
        reveal_strlit("bridgeTransfer");
        reveal_strlit("bridge_transfer");
        assert("bridgeLock"@.len() == 10);
        assert("bridge_lock"@.len() == 11);
        assert("bridgeSudoChange"@.len() == 16);
        assert("bridge_sudo_change"@.len() == 18);
        assert("bridgeUnlock"@.len() == 12);
        assert("bridge_unlock"@.len() == 13);
        assert("feeAssetChange"@.len() == 14);
        assert("fee_asset_change"@.len() == 16);
        assert("feeChange"@.len() == 9);
        assert("fee_change"@.len() == 10);
        assert("ibcRelay"@.len() == 8);
        assert("ibc_relay"@.len() == 9);
        assert("ibcRelayerChange"@.len() == 16);
        assert("ibc_relayer_change"@.len() == 18);
        assert("ibcSudoChange"@.len() == 13);
        assert("ibc_sudo_change"@.len() == 15);
        assert("ics20Withdrawal"@.len() == 15);
        assert("ics20_withdrawal"@.len() == 16);
        assert("initBridgeAccount"@.len() == 17);
        assert("init_bridge_account"@.len() == 19);
        assert("rollupDataSubmission"@.len() == 20);
        assert("rollup_data_submission"@.len() == 22);
        assert("sudoAddressChange"@.len() == 17);
        assert("sudo_address_change"@.len() == 19);
        assert("transfer"@.len() == 8);
        assert("validatorUpdate"@.len() == 15);
        assert("validator_update"@.len() == 16);
        assert("bridgeTransfer"@.len() == 14);
        assert("bridge_transfer"@.len() == 15);
        assert("bridgeLock"@[0] != "fee_change"@[0]);
        assert("bridgeSudoChange"@[0] != "fee_asset_change"@[0]);
        assert("bridgeSudoChange"@[0] != "ibcRelayerChange"@[0]);
        assert("bridgeSudoChange"@[0] != "ics20_withdrawal"@[0]);
        assert("bridgeSudoChange"@[0] != "validator_update"@[0]);
        assert("bridge_sudo_change"@[0] != "ibc_relayer_change"@[0]);
        assert("bridge_unlock"@[0] != "ibcSudoChange"@[0]);
        assert("feeAssetChange"@[0] != "bridgeTransfer"@[0]);
        assert("fee_asset_change"@[0] != "ibcRelayerChange"@[0]);
        assert("fee_asset_change"@[0] != "ics20_withdrawal"@[0]);
        assert("fee_asset_change"@[0] != "validator_update"@[0]);
        assert("feeChange"@[0] != "ibc_relay"@[0]);
        assert("ibcRelay"@[0] != "transfer"@[0]);
        assert("ibcRelayerChange"@[1] != "ics20_withdrawal"@[1]);
        assert("ibcRelayerChange"@[0] != "validator_update"@[0]);
        assert("ibc_sudo_change"@[1] != "ics20Withdrawal"@[1]);
        assert("ibc_sudo_change"@[0] != "validatorUpdate"@[0]);
        assert("ibc_sudo_change"@[0] != "bridge_transfer"@[0]);
        assert("ics20Withdrawal"@[0] != "validatorUpdate"@[0]);
        assert("ics20Withdrawal"@[0] != "bridge_transfer"@[0]);
        assert("ics20_withdrawal"@[0] != "validator_update"@[0]);
        assert("initBridgeAccount"@[0] != "sudoAddressChange"@[0]);
        assert("init_bridge_account"@[0] != "sudo_address_change"@[0]);
        assert("validatorUpdate"@[0] != "bridge_transfer"@[0]);
        lemma_fold_entry_if(Self::spec_start(), true, "ibcRelay"@, JsonV::Object(es), Self::step_fn());
        lemma_fold_entry_if(Self::spec_start(), true, "ibcRelay"@, JsonV::Null, Self::step_fn());
        lemma_fold_entry_if(Self::spec_start(), true, "ibc_relay"@, JsonV::Object(es), Self::step_fn());
        lemma_fold_entry_if(Self::spec_start(), true, "ibc_relay"@, JsonV::Null, Self::step_fn());
    }

    /// The field `ibc_relayer_change` alone: an object with one member under its JSON or protobuf
    /// name reads as the message with that field set and every other field at its
    /// default, and the message with only that field off its default writes that
    /// one member under the JSON name.
    pub proof fn lemma_field_ibc_relayer_change(es: Seq<(Seq<char>, JsonV)>)
        ensures
            Self::spec_from_json(JsonV::Object(seq![("ibcRelayerChange"@, JsonV::Object(es))])) == Ok::<GenesisFeesV, JsonErrorV>(GenesisFeesV { ibc_relayer_change: Some(es), ..Self::spec_default() }),
            Self::spec_from_json(JsonV::Object(seq![("ibcRelayerChange"@, JsonV::Null)])) == Ok::<GenesisFeesV, JsonErrorV>(Self::spec_default()),
            Self::spec_from_json(JsonV::Object(seq![("ibc_relayer_change"@, JsonV::Object(es))])) == Ok::<GenesisFeesV, JsonErrorV>(GenesisFeesV { ibc_relayer_change: Some(es), ..Self::spec_default() }),
            Self::spec_from_json(JsonV::Object(seq![("ibc_relayer_change"@, JsonV::Null)])) == Ok::<GenesisFeesV, JsonErrorV>(Self::spec_default()),
            Self::spec_to_json(GenesisFeesV { ibc_relayer_change: Some(es), ..Self::spec_default() }) == JsonV::Object(seq![("ibcRelayerChange"@, JsonV::Object(es))]),
    {
        reveal_strlit("bridgeLock");
        reveal_strlit("bridge_lock");
        reveal_strlit("bridgeSudoChange");
        reveal_strlit("bridge_sudo_change");
        reveal_strlit("bridgeUnlock");
        reveal_strlit("bridge_unlock");
        reveal_strlit("feeAssetChange");
        reveal_strlit("fee_asset_change");
        reveal_strlit("feeChange");
        reveal_strlit("fee_change");
        reveal_strlit("ibcRelay");
        reveal_strlit("ibc_relay");
        reveal_strlit("ibcRelayerChange");
        reveal_strlit("ibc_relayer_change");
        reveal_strlit("ibcSudoChange");
        reveal_strlit("ibc_sudo_change");
        reveal_strlit("ics20Withdrawal");
        reveal_strlit("ics20_withdrawal");
        reveal_strlit("initBridgeAccount");
        reveal_strlit("init_bridge_account");
        reveal_strlit("rollupDataSubmission");
        reveal_strlit("rollup_data_submission");
        reveal_strlit("sudoAddressChange");
        reveal_strlit("sudo_address_change");
        reveal_strlit("transfer");
        reveal_strlit("validatorUpdate");
        reveal_strlit("validator_update");
        reveal_strlit("bridgeTransfer");
        reveal_strlit("bridge_transfer");
        assert("bridgeLock"@.len() == 10);
        assert("bridge_lock"@.len() == 11);
        assert("bridgeSudoChange"@.len() == 16);
        assert("bridge_sudo_change"@.len() == 18);
        assert("bridgeUnlock"@.len() == 12);
        assert("bridge_unlock"@.len() == 13);
        assert("feeAssetChange"@.len() == 14);
        assert("fee_asset_change"@.len() == 16);
        assert("feeChange"@.len() == 9);
        assert("fee_change"@.len() == 10);
        assert("ibcRelay"@.len() == 8);
        assert("ibc_relay"@.len() == 9);
        assert("ibcRelayerChange"@.len() == 16);
        assert("ibc_relayer_change"@.len() == 18);
        assert("ibcSudoChange"@.len() == 13);
        assert("ibc_sudo_change"@.len() == 15);
        assert("ics20Withdrawal"@.len() == 15);
        assert("ics20_withdrawal"@.len() == 16);
        assert("initBridgeAccount"@.len() == 17);
        assert("init_bridge_account"@.len() == 19);
        assert("rollupDataSubmission"@.len() == 20);
        assert("rollup_data_submission"@.len() == 22);
        assert("sudoAddressChange"@.len() == 17);
        assert("sudo_address_change"@.len() == 19);
        assert("transfer"@.len() == 8);
        assert("validatorUpdate"@.len() == 15);
        assert("validator_update"@.len() == 16);
        assert("bridgeTransfer"@.len() == 14);
        assert("bridge_transfer"@.len() == 15);
        assert("bridgeLock"@[0] != "fee_change"@[0]);
        assert("bridgeSudoChange"@[0] != "fee_asset_change"@[0]);
        assert("bridgeSudoChange"@[0] != "ibcRelayerChange"@[0]);
        assert("bridgeSudoChange"@[0] != "ics20_withdrawal"@[0]);
        assert("bridgeSudoChange"@[0] != "validator_update"@[0]);
        assert("bridge_sudo_change"@[0] != "ibc_relayer_change"@[0]);
        assert("bridge_unlock"@[0] != "ibcSudoChange"@[0]);
        assert("feeAssetChange"@[0] != "bridgeTransfer"@[0]);
        assert("fee_asset_change"@[0] != "ibcRelayerChange"@[0]);
        assert("fee_asset_change"@[0] != "ics20_withdrawal"@[0]);
        assert("fee_asset_change"@[0] != "validator_update"@[0]);
        assert("feeChange"@[0] != "ibc_relay"@[0]);
        assert("ibcRelay"@[0] != "transfer"@[0]);
        assert("ibcRelayerChange"@[1] != "ics20_withdrawal"@[1]);
        assert("ibcRelayerChange"@[0] != "validator_update"@[0]);
        assert("ibc_sudo_change"@[1] != "ics20Withdrawal"@[1]);
        assert("ibc_sudo_change"@[0] != "validatorUpdate"@[0]);
        assert("ibc_sudo_change"@[0] != "bridge_transfer"@[0]);
        assert("ics20Withdrawal"@[0] != "validatorUpdate"@[0]);
        assert("ics20Withdrawal"@[0] != "bridge_transfer"@[0]);
        assert("ics20_withdrawal"@[0] != "validator_update"@[0]);
        assert("initBridgeAccount"@[0] != "sudoAddressChange"@[0]);
        assert("init_bridge_account"@[0] != "sudo_address_change"@[0]);
        assert("validatorUpdate"@[0] != "bridge_transfer"@[0]);
        lemma_fold_entry_if(Self::spec_start(), true, "ibcRelayerChange"@, JsonV::Object(es), Self::step_fn());
        lemma_fold_entry_if(Self::spec_start(), true, "ibcRelayerChange"@, JsonV::Null, Self::step_fn());
        lemma_fold_entry_if(Self::spec_start(), true, "ibc_relayer_change"@, JsonV::Object(es), Self::step_fn());
        lemma_fold_entry_if(Self::spec_start(), true, "ibc_relayer_change"@, JsonV::Null, Self::step_fn());
    }

    /// The field `ibc_sudo_change` alone: an object with one member under its JSON or protobuf
    /// name reads as the message with that field set and every other field at its
    /// default, and the message with only that field off its default writes that
    /// one member under the JSON name.
    pub proof fn lemma_field_ibc_sudo_change(es: Seq<(Seq<char>, JsonV)>)
        ensures
            Self::spec_from_json(JsonV::Object(seq![("ibcSudoChange"@, JsonV::Object(es))])) == Ok::<GenesisFeesV, JsonErrorV>(GenesisFeesV { ibc_sudo_change: Some(es), ..Self::spec_default() }),
            Self::spec_from_json(JsonV::Object(seq![("ibcSudoChange"@, JsonV::Null)])) == Ok::<GenesisFeesV, JsonErrorV>(Self::spec_default()),
            Self::spec_from_json(JsonV::Object(seq![("ibc_sudo_change"@, JsonV::Object(es))])) == Ok::<GenesisFeesV, JsonErrorV>(GenesisFeesV { ibc_sudo_change: Some(es), ..Self::spec_default() }),
            Self::spec_from_json(JsonV::Object(seq![("ibc_sudo_change"@, JsonV::Null)])) == Ok::<GenesisFeesV, JsonErrorV>(Self::spec_default()),
            Self::spec_to_json(GenesisFeesV { ibc_sudo_change: Some(es), ..Self::spec_default() }) == JsonV::Object(seq![("ibcSudoChange"@, JsonV::Object(es))]),
    {
        reveal_strlit("bridgeLock");
        reveal_strlit("bridge_lock");
        reveal_strlit("bridgeSudoChange");
        reveal_strlit("bridge_sudo_change");
        reveal_strlit("bridgeUnlock");
        reveal_strlit("bridge_unlock");
        reveal_strlit("feeAssetChange");
        reveal_strlit("fee_asset_change");
        reveal_strlit("feeChange");
        reveal_strlit("fee_change");
        reveal_strlit("ibcRelay");
        reveal_strlit("ibc_relay");
        reveal_strlit("ibcRelayerChange");
        reveal_strlit("ibc_relayer_change");
        reveal_strlit("ibcSudoChange");
        reveal_strlit("ibc_sudo_change");
        reveal_strlit("ics20Withdrawal");
        reveal_strlit("ics20_withdrawal");
        reveal_strlit("initBridgeAccount");
        reveal_strlit("init_bridge_account");
        reveal_strlit("rollupDataSubmission");
        reveal_strlit("rollup_data_submission");
        reveal_strlit("sudoAddressChange");
        reveal_strlit("sudo_address_change");
        reveal_strlit("transfer");
        reveal_strlit("validatorUpdate");
        reveal_strlit("validator_update");
        reveal_strlit("bridgeTransfer");
        reveal_strlit("bridge_transfer");
        assert("bridgeLock"@.len() == 10);
        assert("bridge_lock"@.len() == 11);
        assert("bridgeSudoChange"@.len() == 16);
        assert("bridge_sudo_change"@.len() == 18);
        assert("bridgeUnlock"@.len() == 12);
        assert("bridge_unlock"@.len() == 13);
        assert("feeAssetChange"@.len() == 14);
        assert("fee_asset_change"@.len() == 16);
        assert("feeChange"@.len() == 9);
        assert("fee_change"@.len() == 10);
        assert("ibcRelay"@.len() == 8);
        assert("ibc_relay"@.len() == 9);
        assert("ibcRelayerChange"@.len() == 16);
        assert("ibc_relayer_change"@.len() == 18);
        assert("ibcSudoChange"@.len() == 13);
        assert("ibc_sudo_change"@.len() == 15);
        assert("ics20Withdrawal"@.len() == 15);
        assert("ics20_withdrawal"@.len() == 16);
        assert("initBridgeAccount"@.len() == 17);
        assert("init_bridge_account"@.len() == 19);
        assert("rollupDataSubmission"@.len() == 20);
        assert("rollup_data_submission"@.len() == 22);
        assert("sudoAddressChange"@.len() == 17);
        assert("sudo_address_change"@.len() == 19);
        assert("transfer"@.len() == 8);
        assert("validatorUpdate"@.len() == 15);
        assert("validator_update"@.len() == 16);
        assert("bridgeTransfer"@.len() == 14);
        assert("bridge_transfer"@.len() == 15);
        assert("bridgeLock"@[0] != "fee_change"@[0]);
        assert("bridgeSudoChange"@[0] != "fee_asset_change"@[0]);
        assert("bridgeSudoChange"@[0] != "ibcRelayerChange"@[0]);
        assert("bridgeSudoChange"@[0] != "ics20_withdrawal"@[0]);
        assert("bridgeSudoChange"@[0] != "validator_update"@[0]);
        assert("bridge_sudo_change"@[0] != "ibc_relayer_change"@[0]);
        assert("bridge_unlock"@[0] != "ibcSudoChange"@[0]);
        assert("feeAssetChange"@[0] != "bridgeTransfer"@[0]);
        assert("fee_asset_change"@[0] != "ibcRelayerChange"@[0]);
        assert("fee_asset_change"@[0] != "ics20_withdrawal"@[0]);
        assert("fee_asset_change"@[0] != "validator_update"@[0]);
        assert("feeChange"@[0] != "ibc_relay"@[0]);
        assert("ibcRelay"@[0] != "transfer"@[0]);
        assert("ibcRelayerChange"@[1] != "ics20_withdrawal"@[1]);
        assert("ibcRelayerChange"@[0] != "validator_update"@[0]);
        assert("ibc_sudo_change"@[1] != "ics20Withdrawal"@[1]);
        assert("ibc_sudo_change"@[0] != "validatorUpdate"@[0]);
        assert("ibc_sudo_change"@[0] != "bridge_transfer"@[0]);
        assert("ics20Withdrawal"@[0] != "validatorUpdate"@[0]);
        assert("ics20Withdrawal"@[0] != "bridge_transfer"@[0]);
        assert("ics20_withdrawal"@[0] != "validator_update"@[0]);
        assert("initBridgeAccount"@[0] != "sudoAddressChange"@[0]);
        assert("init_bridge_account"@[0] != "sudo_address_change"@[0]);
        assert("validatorUpdate"@[0] != "bridge_transfer"@[0]);
        lemma_fold_entry_if(Self::spec_start(), true, "ibcSudoChange"@, JsonV::Object(es), Self::step_fn());
        lemma_fold_entry_if(Self::spec_start(), true, "ibcSudoChange"@, JsonV::Null, Self::step_fn());
        lemma_fold_entry_if(Self::spec_start(), true, "ibc_sudo_change"@, JsonV::Object(es), Self::step_fn());
        lemma_fold_entry_if(Self::spec_start(), true, "ibc_sudo_change"@, JsonV::Null, Self::step_fn());
    }

    /// The field `ics20_withdrawal` alone: an object with one member under its JSON or protobuf
    /// name reads as the message with that field set and every other field at its
    /// default, and the message with only that field off its default writes that
    /// one member under the JSON name.
    pub proof fn lemma_field_ics20_withdrawal(es: Seq<(Seq<char>, JsonV)>)
        ensures
            Self::spec_from_json(JsonV::Object(seq![("ics20Withdrawal"@, JsonV::Object(es))])) == Ok::<GenesisFeesV, JsonErrorV>(GenesisFeesV { ics20_withdrawal: Some(es), ..Self::spec_default() }),
            Self::spec_from_json(JsonV::Object(seq![("ics20Withdrawal"@, JsonV::Null)])) == Ok::<GenesisFeesV, JsonErrorV>(Self::spec_default()),
            Self::spec_from_json(JsonV::Object(seq![("ics20_withdrawal"@, JsonV::Object(es))])) == Ok::<GenesisFeesV, JsonErrorV>(GenesisFeesV { ics20_withdrawal: Some(es), ..Self::spec_default() }),
            Self::spec_from_json(JsonV::Object(seq![("ics20_withdrawal"@, JsonV::Null)])) == Ok::<GenesisFeesV, JsonErrorV>(Self::spec_default()),
            Self::spec_to_json(GenesisFeesV { ics20_withdrawal: Some(es), ..Self::spec_default() }) == JsonV::Object(seq![("ics20Withdrawal"@, JsonV::Object(es))]),
    {
        reveal_strlit("bridgeLock");
        reveal_strlit("bridge_lock");
        reveal_strlit("bridgeSudoChange");
        reveal_strlit("bridge_sudo_change");
        reveal_strlit("bridgeUnlock");
        reveal_strlit("bridge_unlock");
        reveal_strlit("feeAssetChange");
        reveal_strlit("fee_asset_change");
        reveal_strlit("feeChange");
        reveal_strlit("fee_change");
        reveal_strlit("ibcRelay");
        reveal_strlit("ibc_relay");
        reveal_strlit("ibcRelayerChange");
        reveal_strlit("ibc_relayer_change");
        reveal_strlit("ibcSudoChange");
        reveal_strlit("ibc_sudo_change");
        reveal_strlit("ics20Withdrawal");
        reveal_strlit("ics20_withdrawal");
        reveal_strlit("initBridgeAccount");
        reveal_strlit("init_bridge_account");
        reveal_strlit("rollupDataSubmission");
        reveal_strlit("rollup_data_submission");
        reveal_strlit("sudoAddressChange");
        reveal_strlit("sudo_address_change");
        reveal_strlit("transfer");
        reveal_strlit("validatorUpdate");
        reveal_strlit("validator_update");
        reveal_strlit("bridgeTransfer");
        reveal_strlit("bridge_transfer");
        assert("bridgeLock"@.len() == 10);
        assert("bridge_lock"@.len() == 11);
        assert("bridgeSudoChange"@.len() == 16);
        assert("bridge_sudo_change"@.len() == 18);
        assert("bridgeUnlock"@.len() == 12);
        assert("bridge_unlock"@.len() == 13);
        assert("feeAssetChange"@.len() == 14);
        assert("fee_asset_change"@.len() == 16);
        assert("feeChange"@.len() == 9);
        assert("fee_change"@.len() == 10);
        assert("ibcRelay"@.len() == 8);
        assert("ibc_relay"@.len() == 9);
        assert("ibcRelayerChange"@.len() == 16);
        assert("ibc_relayer_change"@.len() == 18);
        assert("ibcSudoChange"@.len() == 13);
        assert("ibc_sudo_change"@.len() == 15);
        assert("ics20Withdrawal"@.len() == 15);
        assert("ics20_withdrawal"@.len() == 16);
        assert("initBridgeAccount"@.len() == 17);
        assert("init_bridge_account"@.len() == 19);
        assert("rollupDataSubmission"@.len() == 20);
        assert("rollup_data_submission"@.len() == 22);
        assert("sudoAddressChange"@.len() == 17);
        assert("sudo_address_change"@.len() == 19);
        assert("transfer"@.len() == 8);
        assert("validatorUpdate"@.len() == 15);
        assert("validator_update"@.len() == 16);
        assert("bridgeTransfer"@.len() == 14);
        assert("bridge_transfer"@.len() == 15);
        assert("bridgeLock"@[0] != "fee_change"@[0]);
        assert("bridgeSudoChange"@[0] != "fee_asset_change"@[0]);
        assert("bridgeSudoChange"@[0] != "ibcRelayerChange"@[0]);
        assert("bridgeSudoChange"@[0] != "ics20_withdrawal"@[0]);
        assert("bridgeSudoChange"@[0] != "validator_update"@[0]);
        assert("bridge_sudo_change"@[0] != "ibc_relayer_change"@[0]);
        assert("bridge_unlock"@[0] != "ibcSudoChange"@[0]);
        assert("feeAssetChange"@[0] != "bridgeTransfer"@[0]);
        assert("fee_asset_change"@[0] != "ibcRelayerChange"@[0]);
        assert("fee_asset_change"@[0] != "ics20_withdrawal"@[0]);
        assert("fee_asset_change"@[0] != "validator_update"@[0]);
        assert("feeChange"@[0] != "ibc_relay"@[0]);
        assert("ibcRelay"@[0] != "transfer"@[0]);
        assert("ibcRelayerChange"@[1] != "ics20_withdrawal"@[1]);
        assert("ibcRelayerChange"@[0] != "validator_update"@[0]);
        assert("ibc_sudo_change"@[1] != "ics20Withdrawal"@[1]);
        assert("ibc_sudo_change"@[0] != "validatorUpdate"@[0]);
        assert("ibc_sudo_change"@[0] != "bridge_transfer"@[0]);
        assert("ics20Withdrawal"@[0] != "validatorUpdate"@[0]);
        assert("ics20Withdrawal"@[0] != "bridge_transfer"@[0]);
        assert("ics20_withdrawal"@[0] != "validator_update"@[0]);
        assert("initBridgeAccount"@[0] != "sudoAddressChange"@[0]);
        assert("init_bridge_account"@[0] != "sudo_address_change"@[0]);
        assert("validatorUpdate"@[0] != "bridge_transfer"@[0]);
        lemma_fold_entry_if(Self::spec_start(), true, "ics20Withdrawal"@, JsonV::Object(es), Self::step_fn());
        lemma_fold_entry_if(Self::spec_start(), true, "ics20Withdrawal"@, JsonV::Null, Self::step_fn());
        lemma_fold_entry_if(Self::spec_start(), true, "ics20_withdrawal"@, JsonV::Object(es), Self::step_fn());
        lemma_fold_entry_if(Self::spec_start(), true, "ics20_withdrawal"@, JsonV::Null, Self::step_fn());
    }

    /// The field `init_bridge_account` alone: an object with one member under its JSON or protobuf
    /// name reads as the message with that field set and every other field at its
    /// default, and the message with only that field off its default writes that
    /// one member under the JSON name.
    pub proof fn lemma_field_init_bridge_account(es: Seq<(Seq<char>, JsonV)>)
        ensures
            Self::spec_from_json(JsonV::Object(seq![("initBridgeAccount"@, JsonV::Object(es))])) == Ok::<GenesisFeesV, JsonErrorV>(GenesisFeesV { init_bridge_account: Some(es), ..Self::spec_default() }),
            Self::spec_from_json(JsonV::Object(seq![("initBridgeAccount"@, JsonV::Null)])) == Ok::<GenesisFeesV, JsonErrorV>(Self::spec_default()),
            Self::spec_from_json(JsonV::Object(seq![("init_bridge_account"@, JsonV::Object(es))])) == Ok::<GenesisFeesV, JsonErrorV>(GenesisFeesV { init_bridge_account: Some(es), ..Self::spec_default() }),
            Self::spec_from_json(JsonV::Object(seq![("init_bridge_account"@, JsonV::Null)])) == Ok::<GenesisFeesV, JsonErrorV>(Self::spec_default()),
            Self::spec_to_json(GenesisFeesV { init_bridge_account: Some(es), ..Self::spec_default() }) == JsonV::Object(seq![("initBridgeAccount"@, JsonV::Object(es))]),
    {
        reveal_strlit("bridgeLock");
        reveal_strlit("bridge_lock");
        reveal_strlit("bridgeSudoChange");
        reveal_strlit("bridge_sudo_change");
        reveal_strlit("bridgeUnlock");
        reveal_strlit("bridge_unlock");
        reveal_strlit("feeAssetChange");
        reveal_strlit("fee_asset_change");
        reveal_strlit("feeChange");
        reveal_strlit("fee_change");
        reveal_strlit("ibcRelay");
        reveal_strlit("ibc_relay");
        reveal_strlit("ibcRelayerChange");
        reveal_strlit("ibc_relayer_change");
        reveal_strlit("ibcSudoChange");
        reveal_strlit("ibc_sudo_change");
        reveal_strlit("ics20Withdrawal");
        reveal_strlit("ics20_withdrawal");
        reveal_strlit("initBridgeAccount");
        reveal_strlit("init_bridge_account");
        reveal_strlit("rollupDataSubmission");
        reveal_strlit("rollup_data_submission");
        reveal_strlit("sudoAddressChange");
        reveal_strlit("sudo_address_change");
        reveal_strlit("transfer");
        reveal_strlit("validatorUpdate");
        reveal_strlit("validator_update");
        reveal_strlit("bridgeTransfer");
        reveal_strlit("bridge_transfer");
        assert("bridgeLock"@.len() == 10);
        assert("bridge_lock"@.len() == 11);
        assert("bridgeSudoChange"@.len() == 16);
        assert("bridge_sudo_change"@.len() == 18);
        assert("bridgeUnlock"@.len() == 12);
        assert("bridge_unlock"@.len() == 13);
        assert("feeAssetChange"@.len() == 14);
        assert("fee_asset_change"@.len() == 16);
        assert("feeChange"@.len() == 9);
        assert("fee_change"@.len() == 10);
        assert("ibcRelay"@.len() == 8);
        assert("ibc_relay"@.len() == 9);
        assert("ibcRelayerChange"@.len() == 16);
        assert("ibc_relayer_change"@.len() == 18);
        assert("ibcSudoChange"@.len() == 13);
        assert("ibc_sudo_change"@.len() == 15);
        assert("ics20Withdrawal"@.len() == 15);
        assert("ics20_withdrawal"@.len() == 16);
        assert("initBridgeAccount"@.len() == 17);
        assert("init_bridge_account"@.len() == 19);
        assert("rollupDataSubmission"@.len() == 20);
        assert("rollup_data_submission"@.len() == 22);
        assert("sudoAddressChange"@.len() == 17);
        assert("sudo_address_change"@.len() == 19);
        assert("transfer"@.len() == 8);
        assert("validatorUpdate"@.len() == 15);
        assert("validator_update"@.len() == 16);
        assert("bridgeTransfer"@.len() == 14);
        assert("bridge_transfer"@.len() == 15);
        assert("bridgeLock"@[0] != "fee_change"@[0]);
        assert("bridgeSudoChange"@[0] != "fee_asset_change"@[0]);
        assert("bridgeSudoChange"@[0] != "ibcRelayerChange"@[0]);
        assert("bridgeSudoChange"@[0] != "ics20_withdrawal"@[0]);
        assert("bridgeSudoChange"@[0] != "validator_update"@[0]);
        assert("bridge_sudo_change"@[0] != "ibc_relayer_change"@[0]);
        assert("bridge_unlock"@[0] != "ibcSudoChange"@[0]);
        assert("feeAssetChange"@[0] != "bridgeTransfer"@[0]);
        assert("fee_asset_change"@[0] != "ibcRelayerChange"@[0]);
        assert("fee_asset_change"@[0] != "ics20_withdrawal"@[0]);
        assert("fee_asset_change"@[0] != "validator_update"@[0]);
        assert("feeChange"@[0] != "ibc_relay"@[0]);
        assert("ibcRelay"@[0] != "transfer"@[0]);
        assert("ibcRelayerChange"@[1] != "ics20_withdrawal"@[1]);
        assert("ibcRelayerChange"@[0] != "validator_update"@[0]);
        assert("ibc_sudo_change"@[1] != "ics20Withdrawal"@[1]);
        assert("ibc_sudo_change"@[0] != "validatorUpdate"@[0]);
        assert("ibc_sudo_change"@[0] != "bridge_transfer"@[0]);
        assert("ics20Withdrawal"@[0] != "validatorUpdate"@[0]);
        assert("ics20Withdrawal"@[0] != "bridge_transfer"@[0]);
        assert("ics20_withdrawal"@[0] != "validator_update"@[0]);
        assert("initBridgeAccount"@[0] != "sudoAddressChange"@[0]);
        assert("init_bridge_account"@[0] != "sudo_address_change"@[0]);
        assert("validatorUpdate"@[0] != "bridge_transfer"@[0]);
        lemma_fold_entry_if(Self::spec_start(), true, "initBridgeAccount"@, JsonV::Object(es), Self::step_fn());
        lemma_fold_entry_if(Self::spec_start(), true, "initBridgeAccount"@, JsonV::Null, Self::step_fn());
        lemma_fold_entry_if(Self::spec_start(), true, "init_bridge_account"@, JsonV::Object(es), Self::step_fn());
        lemma_fold_entry_if(Self::spec_start(), true, "init_bridge_account"@, JsonV::Null, Self::step_fn());
    }

    /// The field `rollup_data_submission` alone: an object with one member under its JSON or protobuf
    /// name reads as the message with that field set and every other field at its
    /// default, and the message with only that field off its default writes that
    /// one member under the JSON name.
    pub proof fn lemma_field_rollup_data_submission(es: Seq<(Seq<char>, JsonV)>)
        ensures
            Self::spec_from_json(JsonV::Object(seq![("rollupDataSubmission"@, JsonV::Object(es))])) == Ok::<GenesisFeesV, JsonErrorV>(GenesisFeesV { rollup_data_submission: Some(es), ..Self::spec_default() }),
            Self::spec_from_json(JsonV::Object(seq![("rollupDataSubmission"@, JsonV::Null)])) == Ok::<GenesisFeesV, JsonErrorV>(Self::spec_default()),
            Self::spec_from_json(JsonV::Object(seq![("rollup_data_submission"@, JsonV::Object(es))])) == Ok::<GenesisFeesV, JsonErrorV>(GenesisFeesV { rollup_data_submission: Some(es), ..Self::spec_default() }),
            Self::spec_from_json(JsonV::Object(seq![("rollup_data_submission"@, JsonV::Null)])) == Ok::<GenesisFeesV, JsonErrorV>(Self::spec_default()),
            Self::spec_to_json(GenesisFeesV { rollup_data_submission: Some(es), ..Self::spec_default() }) == JsonV::Object(seq![("rollupDataSubmission"@, JsonV::Object(es))]),
    {
        reveal_strlit("bridgeLock");
        reveal_strlit("bridge_lock");
        reveal_strlit("bridgeSudoChange");
        reveal_strlit("bridge_sudo_change");
        reveal_strlit("bridgeUnlock");
        reveal_strlit("bridge_unlock");
        reveal_strlit("feeAssetChange");
        reveal_strlit("fee_asset_change");
        reveal_strlit("feeChange");
        reveal_strlit("fee_change");
        reveal_strlit("ibcRelay");
        reveal_strlit("ibc_relay");
        reveal_strlit("ibcRelayerChange");
        reveal_strlit("ibc_relayer_change");
        reveal_strlit("ibcSudoChange");
        reveal_strlit("ibc_sudo_change");
        reveal_strlit("ics20Withdrawal");
        reveal_strlit("ics20_withdrawal");
        reveal_strlit("initBridgeAccount");
        reveal_strlit("init_bridge_account");
        reveal_strlit("rollupDataSubmission");
        reveal_strlit("rollup_data_submission");
        reveal_strlit("sudoAddressChange");
        reveal_strlit("sudo_address_change");
        reveal_strlit("transfer");
        reveal_strlit("validatorUpdate");
        reveal_strlit("validator_update");
        reveal_strlit("bridgeTransfer");
        reveal_strlit("bridge_transfer");
        assert("bridgeLock"@.len() == 10);
        assert("bridge_lock"@.len() == 11);
        assert("bridgeSudoChange"@.len() == 16);
        assert("bridge_sudo_change"@.len() == 18);
        assert("bridgeUnlock"@.len() == 12);
        assert("bridge_unlock"@.len() == 13);
        assert("feeAssetChange"@.len() == 14);
        assert("fee_asset_change"@.len() == 16);
        assert("feeChange"@.len() == 9);
        assert("fee_change"@.len() == 10);
        assert("ibcRelay"@.len() == 8);
        assert("ibc_relay"@.len() == 9);
        assert("ibcRelayerChange"@.len() == 16);
        assert("ibc_relayer_change"@.len() == 18);
        assert("ibcSudoChange"@.len() == 13);
        assert("ibc_sudo_change"@.len() == 15);
        assert("ics20Withdrawal"@.len() == 15);
        assert("ics20_withdrawal"@.len() == 16);
        assert("initBridgeAccount"@.len() == 17);
        assert("init_bridge_account"@.len() == 19);
        assert("rollupDataSubmission"@.len() == 20);
        assert("rollup_data_submission"@.len() == 22);
        assert("sudoAddressChange"@.len() == 17);
        assert("sudo_address_change"@.len() == 19);
        assert("transfer"@.len() == 8);
        assert("validatorUpdate"@.len() == 15);
        assert("validator_update"@.len() == 16);
        assert("bridgeTransfer"@.len() == 14);
        assert("bridge_transfer"@.len() == 15);
        assert("bridgeLock"@[0] != "fee_change"@[0]);
        assert("bridgeSudoChange"@[0] != "fee_asset_change"@[0]);
        assert("bridgeSudoChange"@[0] != "ibcRelayerChange"@[0]);
        assert("bridgeSudoChange"@[0] != "ics20_withdrawal"@[0]);
        assert("bridgeSudoChange"@[0] != "validator_update"@[0]);
        assert("bridge_sudo_change"@[0] != "ibc_relayer_change"@[0]);
        assert("bridge_unlock"@[0] != "ibcSudoChange"@[0]);
        assert("feeAssetChange"@[0] != "bridgeTransfer"@[0]);
        assert("fee_asset_change"@[0] != "ibcRelayerChange"@[0]);
        assert("fee_asset_change"@[0] != "ics20_withdrawal"@[0]);
        assert("fee_asset_change"@[0] != "validator_update"@[0]);
        assert("feeChange"@[0] != "ibc_relay"@[0]);
        assert("ibcRelay"@[0] != "transfer"@[0]);
        assert("ibcRelayerChange"@[1] != "ics20_withdrawal"@[1]);
        assert("ibcRelayerChange"@[0] != "validator_update"@[0]);
        assert("ibc_sudo_change"@[1] != "ics20Withdrawal"@[1]);
        assert("ibc_sudo_change"@[0] != "validatorUpdate"@[0]);
        assert("ibc_sudo_change"@[0] != "bridge_transfer"@[0]);
        assert("ics20Withdrawal"@[0] != "validatorUpdate"@[0]);
        assert("ics20Withdrawal"@[0] != "bridge_transfer"@[0]);
        assert("ics20_withdrawal"@[0] != "validator_update"@[0]);
        assert("initBridgeAccount"@[0] != "sudoAddressChange"@[0]);
        assert("init_bridge_account"@[0] != "sudo_address_change"@[0]);
        assert("validatorUpdate"@[0] != "bridge_transfer"@[0]);
        lemma_fold_entry_if(Self::spec_start(), true, "rollupDataSubmission"@, JsonV::Object(es), Self::step_fn());
        lemma_fold_entry_if(Self::spec_start(), true, "rollupDataSubmission"@, JsonV::Null, Self::step_fn());
        lemma_fold_entry_if(Self::spec_start(), true, "rollup_data_submission"@, JsonV::Object(es), Self::step_fn());
        lemma_fold_entry_if(Self::spec_start(), true, "rollup_data_submission"@, JsonV::Null, Self::step_fn());
    }

    /// The field `sudo_address_change` alone: an object with one member under its JSON or protobuf
    /// name reads as the message with that field set and every other field at its
    /// default, and the message with only that field off its default writes that
    /// one member under the JSON name.
    pub proof fn lemma_field_sudo_address_change(es: Seq<(Seq<char>, JsonV)>)
        ensures
            Self::spec_from_json(JsonV::Object(seq![("sudoAddressChange"@, JsonV::Object(es))])) == Ok::<GenesisFeesV, JsonErrorV>(GenesisFeesV { sudo_address_change: Some(es), ..Self::spec_default() }),
            Self::spec_from_json(JsonV::Object(seq![("sudoAddressChange"@, JsonV::Null)])) == Ok::<GenesisFeesV, JsonErrorV>(Self::spec_default()),
            Self::spec_from_json(JsonV::Object(seq![("sudo_address_change"@, JsonV::Object(es))])) == Ok::<GenesisFeesV, JsonErrorV>(GenesisFeesV { sudo_address_change: Some(es), ..Self::spec_default() }),
            Self::spec_from_json(JsonV::Object(seq![("sudo_address_change"@, JsonV::Null)])) == Ok::<GenesisFeesV, JsonErrorV>(Self::spec_default()),
            Self::spec_to_json(GenesisFeesV { sudo_address_change: Some(es), ..Self::spec_default() }) == JsonV::Object(seq![("sudoAddressChange"@, JsonV::Object(es))]),
    {
        reveal_strlit("bridgeLock");
        reveal_strlit("bridge_lock");
        reveal_strlit("bridgeSudoChange");
        reveal_strlit("bridge_sudo_change");
        reveal_strlit("bridgeUnlock");
        reveal_strlit("bridge_unlock");
        reveal_strlit("feeAssetChange");
        reveal_strlit("fee_asset_change");
        reveal_strlit("feeChange");
        reveal_strlit("fee_change");
        reveal_strlit("ibcRelay");
        reveal_strlit("ibc_relay");
        reveal_strlit("ibcRelayerChange");
        reveal_strlit("ibc_relayer_change");
        reveal_strlit("ibcSudoChange");
        reveal_strlit("ibc_sudo_change");
        reveal_strlit("ics20Withdrawal");
        reveal_strlit("ics20_withdrawal");
        reveal_strlit("initBridgeAccount");
        reveal_strlit("init_bridge_account");
        reveal_strlit("rollupDataSubmission");
        reveal_strlit("rollup_data_submission");
        reveal_strlit("sudoAddressChange");
        reveal_strlit("sudo_address_change");
        reveal_strlit("transfer");
        reveal_strlit("validatorUpdate");
        reveal_strlit("validator_update");
        reveal_strlit("bridgeTransfer");
        reveal_strlit("bridge_transfer");
        assert("bridgeLock"@.len() == 10);
        assert("bridge_lock"@.len() == 11);
        assert("bridgeSudoChange"@.len() == 16);
        assert("bridge_sudo_change"@.len() == 18);
        assert("bridgeUnlock"@.len() == 12);
        assert("bridge_unlock"@.len() == 13);
        assert("feeAssetChange"@.len() == 14);
        assert("fee_asset_change"@.len() == 16);
        assert("feeChange"@.len() == 9);
        assert("fee_change"@.len() == 10);
        assert("ibcRelay"@.len() == 8);
        assert("ibc_relay"@.len() == 9);
        assert("ibcRelayerChange"@.len() == 16);
        assert("ibc_relayer_change"@.len() == 18);
        assert("ibcSudoChange"@.len() == 13);
        assert("ibc_sudo_change"@.len() == 15);
        assert("ics20Withdrawal"@.len() == 15);
        assert("ics20_withdrawal"@.len() == 16);
        assert("initBridgeAccount"@.len() == 17);
        assert("init_bridge_account"@.len() == 19);
        assert("rollupDataSubmission"@.len() == 20);
        assert("rollup_data_submission"@.len() == 22);
        assert("sudoAddressChange"@.len() == 17);
        assert("sudo_address_change"@.len() == 19);
        assert("transfer"@.len() == 8);
        assert("validatorUpdate"@.len() == 15);
        assert("validator_update"@.len() == 16);
        assert("bridgeTransfer"@.len() == 14);
        assert("bridge_transfer"@.len() == 15);
        assert("bridgeLock"@[0] != "fee_change"@[0]);
        assert("bridgeSudoChange"@[0] != "fee_asset_change"@[0]);
        assert("bridgeSudoChange"@[0] != "ibcRelayerChange"@[0]);
        assert("bridgeSudoChange"@[0] != "ics20_withdrawal"@[0]);
        assert("bridgeSudoChange"@[0] != "validator_update"@[0]);
        assert("bridge_sudo_change"@[0] != "ibc_relayer_change"@[0]);
        assert("bridge_unlock"@[0] != "ibcSudoChange"@[0]);
        assert("feeAssetChange"@[0] != "bridgeTransfer"@[0]);
        assert("fee_asset_change"@[0] != "ibcRelayerChange"@[0]);
        assert("fee_asset_change"@[0] != "ics20_withdrawal"@[0]);
        assert("fee_asset_change"@[0] != "validator_update"@[0]);
        assert("feeChange"@[0] != "ibc_relay"@[0]);
        assert("ibcRelay"@[0] != "transfer"@[0]);
        assert("ibcRelayerChange"@[1] != "ics20_withdrawal"@[1]);
        assert("ibcRelayerChange"@[0] != "validator_update"@[0]);
        assert("ibc_sudo_change"@[1] != "ics20Withdrawal"@[1]);
        assert("ibc_sudo_change"@[0] != "validatorUpdate"@[0]);
        assert("ibc_sudo_change"@[0] != "bridge_transfer"@[0]);
        assert("ics20Withdrawal"@[0] != "validatorUpdate"@[0]);
        assert("ics20Withdrawal"@[0] != "bridge_transfer"@[0]);
        assert("ics20_withdrawal"@[0] != "validator_update"@[0]);
        assert("initBridgeAccount"@[0] != "sudoAddressChange"@[0]);
        assert("init_bridge_account"@[0] != "sudo_address_change"@[0]);
        assert("validatorUpdate"@[0] != "bridge_transfer"@[0]);
        lemma_fold_entry_if(Self::spec_start(), true, "sudoAddressChange"@, JsonV::Object(es), Self::step_fn());
        lemma_fold_entry_if(Self::spec_start(), true, "sudoAddressChange"@, JsonV::Null, Self::step_fn());
        lemma_fold_entry_if(Self::spec_start(), true, "sudo_address_change"@, JsonV::Object(es), Self::step_fn());
        lemma_fold_entry_if(Self::spec_start(), true, "sudo_address_change"@, JsonV::Null, Self::step_fn());
    }

    /// The field `transfer` alone: an object with one member under its JSON or protobuf
    /// name reads as the message with that field set and every other field at its
    /// default, and the message with only that field off its default writes that
    /// one member under the JSON name.
    pub proof fn lemma_field_transfer(es: Seq<(Seq<char>, JsonV)>)
        ensures
            Self::spec_from_json(JsonV::Object(seq![("transfer"@, JsonV::Object(es))])) == Ok::<GenesisFeesV, JsonErrorV>(GenesisFeesV { transfer: Some(es), ..Self::spec_default() }),
            Self::spec_from_json(JsonV::Object(seq![("transfer"@, JsonV::Null)])) == Ok::<GenesisFeesV, JsonErrorV>(Self::spec_default()),
            Self::spec_to_json(GenesisFeesV { transfer: Some(es), ..Self::spec_default() }) == JsonV::Object(seq![("transfer"@, JsonV::Object(es))]),
    {
        reveal_strlit("bridgeLock");
        reveal_strlit("bridge_lock");
        reveal_strlit("bridgeSudoChange");
        reveal_strlit("bridge_sudo_change");
        reveal_strlit("bridgeUnlock");
        reveal_strlit("bridge_unlock");
        reveal_strlit("feeAssetChange");
        reveal_strlit("fee_asset_change");
        reveal_strlit("feeChange");
        reveal_strlit("fee_change");
        reveal_strlit("ibcRelay");
        reveal_strlit("ibc_relay");
        reveal_strlit("ibcRelayerChange");
        reveal_strlit("ibc_relayer_change");
        reveal_strlit("ibcSudoChange");
        reveal_strlit("ibc_sudo_change");
        reveal_strlit("ics20Withdrawal");
        reveal_strlit("ics20_withdrawal");
        reveal_strlit("initBridgeAccount");
        reveal_strlit("init_bridge_account");
        reveal_strlit("rollupDataSubmission");
        reveal_strlit("rollup_data_submission");
        reveal_strlit("sudoAddressChange");
        reveal_strlit("sudo_address_change");
        reveal_strlit("transfer");
        reveal_strlit("validatorUpdate");
        reveal_strlit("validator_update");
        reveal_strlit("bridgeTransfer");
        reveal_strlit("bridge_transfer");
        assert("bridgeLock"@.len() == 10);
        assert("bridge_lock"@.len() == 11);
        assert("bridgeSudoChange"@.len() == 16);
        assert("bridge_sudo_change"@.len() == 18);
        assert("bridgeUnlock"@.len() == 12);
        assert("bridge_unlock"@.len() == 13);
        assert("feeAssetChange"@.len() == 14);
        assert("fee_asset_change"@.len() == 16);
        assert("feeChange"@.len() == 9);
        assert("fee_change"@.len() == 10);
        assert("ibcRelay"@.len() == 8);
        assert("ibc_relay"@.len() == 9);
        assert("ibcRelayerChange"@.len() == 16);
        assert("ibc_relayer_change"@.len() == 18);
        assert("ibcSudoChange"@.len() == 13);
        assert("ibc_sudo_change"@.len() == 15);
        assert("ics20Withdrawal"@.len() == 15);
        assert("ics20_withdrawal"@.len() == 16);
        assert("initBridgeAccount"@.len() == 17);
        assert("init_bridge_account"@.len() == 19);
        assert("rollupDataSubmission"@.len() == 20);
        assert("rollup_data_submission"@.len() == 22);
        assert("sudoAddressChange"@.len() == 17);
        assert("sudo_address_change"@.len() == 19);
        assert("transfer"@.len() == 8);
        assert("validatorUpdate"@.len() == 15);
        assert("validator_update"@.len() == 16);
        assert("bridgeTransfer"@.len() == 14);
        assert("bridge_transfer"@.len() == 15);
        assert("bridgeLock"@[0] != "fee_change"@[0]);
        assert("bridgeSudoChange"@[0] != "fee_asset_change"@[0]);
        assert("bridgeSudoChange"@[0] != "ibcRelayerChange"@[0]);
        assert("bridgeSudoChange"@[0] != "ics20_withdrawal"@[0]);
        assert("bridgeSudoChange"@[0] != "validator_update"@[0]);
        assert("bridge_sudo_change"@[0] != "ibc_relayer_change"@[0]);
        assert("bridge_unlock"@[0] != "ibcSudoChange"@[0]);
        assert("feeAssetChange"@[0] != "bridgeTransfer"@[0]);
        assert("fee_asset_change"@[0] != "ibcRelayerChange"@[0]);
        assert("fee_asset_change"@[0] != "ics20_withdrawal"@[0]);
        assert("fee_asset_change"@[0] != "validator_update"@[0]);
        assert("feeChange"@[0] != "ibc_relay"@[0]);
        assert("ibcRelay"@[0] != "transfer"@[0]);
        assert("ibcRelayerChange"@[1] != "ics20_withdrawal"@[1]);
        assert("ibcRelayerChange"@[0] != "validator_update"@[0]);
        assert("ibc_sudo_change"@[1] != "ics20Withdrawal"@[1]);
        assert("ibc_sudo_change"@[0] != "validatorUpdate"@[0]);
        assert("ibc_sudo_change"@[0] != "bridge_transfer"@[0]);
        assert("ics20Withdrawal"@[0] != "validatorUpdate"@[0]);
        assert("ics20Withdrawal"@[0] != "bridge_transfer"@[0]);
        assert("ics20_withdrawal"@[0] != "validator_update"@[0]);
        assert("initBridgeAccount"@[0] != "sudoAddressChange"@[0]);
        assert("init_bridge_account"@[0] != "sudo_address_change"@[0]);
        assert("validatorUpdate"@[0] != "bridge_transfer"@[0]);
        lemma_fold_entry_if(Self::spec_start(), true, "transfer"@, JsonV::Object(es), Self::step_fn());
        lemma_fold_entry_if(Self::spec_start(), true, "transfer"@, JsonV::Null, Self::step_fn());
    }

    /// The field `validator_update` alone: an object with one member under its JSON or protobuf
    /// name reads as the message with that field set and every other field at its
    /// default, and the message with only that field off its default writes that
    /// one member under the JSON name.
    pub proof fn lemma_field_validator_update(es: Seq<(Seq<char>, JsonV)>)
        ensures
            Self::spec_from_json(JsonV::Object(seq![("validatorUpdate"@, JsonV::Object(es))])) == Ok::<GenesisFeesV, JsonErrorV>(GenesisFeesV { validator_update: Some(es), ..Self::spec_default() }),
            Self::spec_from_json(JsonV::Object(seq![("validatorUpdate"@, JsonV::Null)])) == Ok::<GenesisFeesV, JsonErrorV>(Self::spec_default()),
            Self::spec_from_json(JsonV::Object(seq![("validator_update"@, JsonV::Object(es))])) == Ok::<GenesisFeesV, JsonErrorV>(GenesisFeesV { validator_update: Some(es), ..Self::spec_default() }),
            Self::spec_from_json(JsonV::Object(seq![("validator_update"@, JsonV::Null)])) == Ok::<GenesisFeesV, JsonErrorV>(Self::spec_default()),
            Self::spec_to_json(GenesisFeesV { validator_update: Some(es), ..Self::spec_default() }) == JsonV::Object(seq![("validatorUpdate"@, JsonV::Object(es))]),
    {
        reveal_strlit("bridgeLock");
        reveal_strlit("bridge_lock");
        reveal_strlit("bridgeSudoChange");
        reveal_strlit("bridge_sudo_change");
        reveal_strlit("bridgeUnlock");
        reveal_strlit("bridge_unlock");
        reveal_strlit("feeAssetChange");
        reveal_strlit("fee_asset_change");
        reveal_strlit("feeChange");
        reveal_strlit("fee_change");
        reveal_strlit("ibcRelay");
        reveal_strlit("ibc_relay");
        reveal_strlit("ibcRelayerChange");
        reveal_strlit("ibc_relayer_change");
        reveal_strlit("ibcSudoChange");
        reveal_strlit("ibc_sudo_change");
        reveal_strlit("ics20Withdrawal");
        reveal_strlit("ics20_withdrawal");
        reveal_strlit("initBridgeAccount");
        reveal_strlit("init_bridge_account");
        reveal_strlit("rollupDataSubmission");
        reveal_strlit("rollup_data_submission");
        reveal_strlit("sudoAddressChange");
        reveal_strlit("sudo_address_change");
        reveal_strlit("transfer");
        reveal_strlit("validatorUpdate");
        reveal_strlit("validator_update");
        reveal_strlit("bridgeTransfer");
        reveal_strlit("bridge_transfer");
        assert("bridgeLock"@.len() == 10);
        assert("bridge_lock"@.len() == 11);
        assert("bridgeSudoChange"@.len() == 16);
        assert("bridge_sudo_change"@.len() == 18);
        assert("bridgeUnlock"@.len() == 12);
        assert("bridge_unlock"@.len() == 13);
        assert("feeAssetChange"@.len() == 14);
        assert("fee_asset_change"@.len() == 16);
        assert("feeChange"@.len() == 9);
        assert("fee_change"@.len() == 10);
        assert("ibcRelay"@.len() == 8);
        assert("ibc_relay"@.len() == 9);
        assert("ibcRelayerChange"@.len() == 16);
        assert("ibc_relayer_change"@.len() == 18);
        assert("ibcSudoChange"@.len() == 13);
        assert("ibc_sudo_change"@.len() == 15);
        assert("ics20Withdrawal"@.len() == 15);
        assert("ics20_withdrawal"@.len() == 16);
        assert("initBridgeAccount"@.len() == 17);
        assert("init_bridge_account"@.len() == 19);
        assert("rollupDataSubmission"@.len() == 20);
        assert("rollup_data_submission"@.len() == 22);
        assert("sudoAddressChange"@.len() == 17);
        assert("sudo_address_change"@.len() == 19);
        assert("transfer"@.len() == 8);
        assert("validatorUpdate"@.len() == 15);
        assert("validator_update"@.len() == 16);
        assert("bridgeTransfer"@.len() == 14);
        assert("bridge_transfer"@.len() == 15);
        assert("bridgeLock"@[0] != "fee_change"@[0]);
        assert("bridgeSudoChange"@[0] != "fee_asset_change"@[0]);
        assert("bridgeSudoChange"@[0] != "ibcRelayerChange"@[0]);
        assert("bridgeSudoChange"@[0] != "ics20_withdrawal"@[0]);
        assert("bridgeSudoChange"@[0] != "validator_update"@[0]);
        assert("bridge_sudo_change"@[0] != "ibc_relayer_change"@[0]);
        assert("bridge_unlock"@[0] != "ibcSudoChange"@[0]);
        assert("feeAssetChange"@[0] != "bridgeTransfer"@[0]);
        assert("fee_asset_change"@[0] != "ibcRelayerChange"@[0]);
        assert("fee_asset_change"@[0] != "ics20_withdrawal"@[0]);
        assert("fee_asset_change"@[0] != "validator_update"@[0]);
        assert("feeChange"@[0] != "ibc_relay"@[0]);
        assert("ibcRelay"@[0] != "transfer"@[0]);
        assert("ibcRelayerChange"@[1] != "ics20_withdrawal"@[1]);
        assert("ibcRelayerChange"@[0] != "validator_update"@[0]);
        assert("ibc_sudo_change"@[1] != "ics20Withdrawal"@[1]);
        assert("ibc_sudo_change"@[0] != "validatorUpdate"@[0]);
        assert("ibc_sudo_change"@[0] != "bridge_transfer"@[0]);
        assert("ics20Withdrawal"@[0] != "validatorUpdate"@[0]);
        assert("ics20Withdrawal"@[0] != "bridge_transfer"@[0]);
        assert("ics20_withdrawal"@[0] != "validator_update"@[0]);
        assert("initBridgeAccount"@[0] != "sudoAddressChange"@[0]);
        assert("init_bridge_account"@[0] != "sudo_address_change"@[0]);
        assert("validatorUpdate"@[0] != "bridge_transfer"@[0]);
        lemma_fold_entry_if(Self::spec_start(), true, "validatorUpdate"@, JsonV::Object(es), Self::step_fn());
        lemma_fold_entry_if(Self::spec_start(), true, "validatorUpdate"@, JsonV::Null, Self::step_fn());
        lemma_fold_entry_if(Self::spec_start(), true, "validator_update"@, JsonV::Object(es), Self::step_fn());
        lemma_fold_entry_if(Self::spec_start(), true, "validator_update"@, JsonV::Null, Self::step_fn());
    }

    /// The field `bridge_transfer` alone: an object with one member under its JSON or protobuf
    /// name reads as the message with that field set and every other field at its
    /// default, and the message with only that field off its default writes that
    /// one member under the JSON name.
    pub proof fn lemma_field_bridge_transfer(es: Seq<(Seq<char>, JsonV)>)
        ensures
            Self::spec_from_json(JsonV::Object(seq![("bridgeTransfer"@, JsonV::Object(es))])) == Ok::<GenesisFeesV, JsonErrorV>(GenesisFeesV { bridge_transfer: Some(es), ..Self::spec_default() }),
            Self::spec_from_json(JsonV::Object(seq![("bridgeTransfer"@, JsonV::Null)])) == Ok::<GenesisFeesV, JsonErrorV>(Self::spec_default()),
            Self::spec_from_json(JsonV::Object(seq![("bridge_transfer"@, JsonV::Object(es))])) == Ok::<GenesisFeesV, JsonErrorV>(GenesisFeesV { bridge_transfer: Some(es), ..Self::spec_default() }),
            Self::spec_from_json(JsonV::Object(seq![("bridge_transfer"@, JsonV::Null)])) == Ok::<GenesisFeesV, JsonErrorV>(Self::spec_default()),
            Self::spec_to_json(GenesisFeesV { bridge_transfer: Some(es), ..Self::spec_default() }) == JsonV::Object(seq![("bridgeTransfer"@, JsonV::Object(es))]),
    {
        reveal_strlit("bridgeLock");
        reveal_strlit("bridge_lock");
        reveal_strlit("bridgeSudoChange");
        reveal_strlit("bridge_sudo_change");
        reveal_strlit("bridgeUnlock");
        reveal_strlit("bridge_unlock");
        reveal_strlit("feeAssetChange");
        reveal_strlit("fee_asset_change");
        reveal_strlit("feeChange");
        reveal_strlit("fee_change");
        reveal_strlit("ibcRelay");
        reveal_strlit("ibc_relay");
        reveal_strlit("ibcRelayerChange");
        reveal_strlit("ibc_relayer_change");
        reveal_strlit("ibcSudoChange");
        reveal_strlit("ibc_sudo_change");
        reveal_strlit("ics20Withdrawal");
        reveal_strlit("ics20_withdrawal");
        reveal_strlit("initBridgeAccount");
        reveal_strlit("init_bridge_account");
        reveal_strlit("rollupDataSubmission");
        reveal_strlit("rollup_data_submission");
        reveal_strlit("sudoAddressChange");
        reveal_strlit("sudo_address_change");
        reveal_strlit("transfer");
        reveal_strlit("validatorUpdate");
        reveal_strlit("validator_update");
        reveal_strlit("bridgeTransfer");
        reveal_strlit("bridge_transfer");
        assert("bridgeLock"@.len() == 10);
        assert("bridge_lock"@.len() == 11);
        assert("bridgeSudoChange"@.len() == 16);
        assert("bridge_sudo_change"@.len() == 18);
        assert("bridgeUnlock"@.len() == 12);
        assert("bridge_unlock"@.len() == 13);
        assert("feeAssetChange"@.len() == 14);
        assert("fee_asset_change"@.len() == 16);
        assert("feeChange"@.len() == 9);
        assert("fee_change"@.len() == 10);
        assert("ibcRelay"@.len() == 8);
        assert("ibc_relay"@.len() == 9);
        assert("ibcRelayerChange"@.len() == 16);
        assert("ibc_relayer_change"@.len() == 18);
        assert("ibcSudoChange"@.len() == 13);
        assert("ibc_sudo_change"@.len() == 15);
        assert("ics20Withdrawal"@.len() == 15);
        assert("ics20_withdrawal"@.len() == 16);
        assert("initBridgeAccount"@.len() == 17);
        assert("init_bridge_account"@.len() == 19);
        assert("rollupDataSubmission"@.len() == 20);
        assert("rollup_data_submission"@.len() == 22);
        assert("sudoAddressChange"@.len() == 17);
        assert("sudo_address_change"@.len() == 19);
        assert("transfer"@.len() == 8);
        assert("validatorUpdate"@.len() == 15);
        assert("validator_update"@.len() == 16);
        assert("bridgeTransfer"@.len() == 14);
        assert("bridge_transfer"@.len() == 15);
        assert("bridgeLock"@[0] != "fee_change"@[0]);
        assert("bridgeSudoChange"@[0] != "fee_asset_change"@[0]);
        assert("bridgeSudoChange"@[0] != "ibcRelayerChange"@[0]);
        assert("bridgeSudoChange"@[0] != "ics20_withdrawal"@[0]);
        assert("bridgeSudoChange"@[0] != "validator_update"@[0]);
        assert("bridge_sudo_change"@[0] != "ibc_relayer_change"@[0]);
        assert("bridge_unlock"@[0] != "ibcSudoChange"@[0]);
        assert("feeAssetChange"@[0] != "bridgeTransfer"@[0]);
        assert("fee_asset_change"@[0] != "ibcRelayerChange"@[0]);
        assert("fee_asset_change"@[0] != "ics20_withdrawal"@[0]);
        assert("fee_asset_change"@[0] != "validator_update"@[0]);
        assert("feeChange"@[0] != "ibc_relay"@[0]);
        assert("ibcRelay"@[0] != "transfer"@[0]);
        assert("ibcRelayerChange"@[1] != "ics20_withdrawal"@[1]);
        assert("ibcRelayerChange"@[0] != "validator_update"@[0]);
        assert("ibc_sudo_change"@[1] != "ics20Withdrawal"@[1]);
        assert("ibc_sudo_change"@[0] != "validatorUpdate"@[0]);
        assert("ibc_sudo_change"@[0] != "bridge_transfer"@[0]);
        assert("ics20Withdrawal"@[0] != "validatorUpdate"@[0]);
        assert("ics20Withdrawal"@[0] != "bridge_transfer"@[0]);
        assert("ics20_withdrawal"@[0] != "validator_update"@[0]);
        assert("initBridgeAccount"@[0] != "sudoAddressChange"@[0]);
        assert("init_bridge_account"@[0] != "sudo_address_change"@[0]);
        assert("validatorUpdate"@[0] != "bridge_transfer"@[0]);
        lemma_fold_entry_if(Self::spec_start(), true, "bridgeTransfer"@, JsonV::Object(es), Self::step_fn());
        lemma_fold_entry_if(Self::spec_start(), true, "bridgeTransfer"@, JsonV::Null, Self::step_fn());
        lemma_fold_entry_if(Self::spec_start(), true, "bridge_transfer"@, JsonV::Object(es), Self::step_fn());
        lemma_fold_entry_if(Self::spec_start(), true, "bridge_transfer"@, JsonV::Null, Self::step_fn());
    }

    /// Reading back the JSON object of a message gives the message.
    pub proof fn lemma_json_roundtrip(m: GenesisFeesV)
        ensures Self::spec_from_json(Self::spec_to_json(m)) == Ok::<GenesisFeesV, JsonErrorV>(m),
    {
        let step = Self::step_fn();
        let s0 = Self::spec_start();
        let s1 = (GenesisFeesV { bridge_lock: m.bridge_lock, ..s0.0 }, s0.1);
        Self::lemma_entry_bridge_lock(m, s0);
        let s2 = (GenesisFeesV { bridge_sudo_change: m.bridge_sudo_change, ..s1.0 }, s1.1);
        Self::lemma_entry_bridge_sudo_change(m, s1);
        let s3 = (GenesisFeesV { bridge_unlock: m.bridge_unlock, ..s2.0 }, s2.1);
        Self::lemma_entry_bridge_unlock(m, s2);
        let s4 = (GenesisFeesV { fee_asset_change: m.fee_asset_change, ..s3.0 }, s3.1);
        Self::lemma_entry_fee_asset_change(m, s3);
        let s5 = (GenesisFeesV { fee_change: m.fee_change, ..s4.0 }, s4.1);
        Self::lemma_entry_fee_change(m, s4);
        let s6 = (GenesisFeesV { ibc_relay: m.ibc_relay, ..s5.0 }, s5.1);
        Self::lemma_entry_ibc_relay(m, s5);
        let s7 = (GenesisFeesV { ibc_relayer_change: m.ibc_relayer_change, ..s6.0 }, s6.1);
        Self::lemma_entry_ibc_relayer_change(m, s6);
        let s8 = (GenesisFeesV { ibc_sudo_change: m.ibc_sudo_change, ..s7.0 }, s7.1);
        Self::lemma_entry_ibc_sudo_change(m, s7);
        let s9 = (GenesisFeesV { ics20_withdrawal: m.ics20_withdrawal, ..s8.0 }, s8.1);
        Self::lemma_entry_ics20_withdrawal(m, s8);
        let s10 = (GenesisFeesV { init_bridge_account: m.init_bridge_account, ..s9.0 }, s9.1);
        Self::lemma_entry_init_bridge_account(m, s9);
        let s11 = (GenesisFeesV { rollup_data_submission: m.rollup_data_submission, ..s10.0 }, s10.1);
        Self::lemma_entry_rollup_data_submission(m, s10);
        let s12 = (GenesisFeesV { sudo_address_change: m.sudo_address_change, ..s11.0 }, s11.1);
        Self::lemma_entry_sudo_address_change(m, s11);
        let s13 = (GenesisFeesV { transfer: m.transfer, ..s12.0 }, s12.1);
        Self::lemma_entry_transfer(m, s12);
        let s14 = (GenesisFeesV { validator_update: m.validator_update, ..s13.0 }, s13.1);
        Self::lemma_entry_validator_update(m, s13);
        let s15 = (GenesisFeesV { bridge_transfer: m.bridge_transfer, ..s14.0 }, s14.1);
        Self::lemma_entry_bridge_transfer(m, s14);
        let p1 = Self::spec_entry_bridge_lock(m);
        let p2 = p1 + Self::spec_entry_bridge_sudo_change(m);
        lemma_fold_entries_append(s0, p1, Self::spec_entry_bridge_sudo_change(m), step);
        let p3 = p2 + Self::spec_entry_bridge_unlock(m);
        lemma_fold_entries_append(s0, p2, Self::spec_entry_bridge_unlock(m), step);
        let p4 = p3 + Self::spec_entry_fee_asset_change(m);
        lemma_fold_entries_append(s0, p3, Self::spec_entry_fee_asset_change(m), step);
        let p5 = p4 + Self::spec_entry_fee_change(m);
        lemma_fold_entries_append(s0, p4, Self::spec_entry_fee_change(m), step);
        let p6 = p5 + Self::spec_entry_ibc_relay(m);
        lemma_fold_entries_append(s0, p5, Self::spec_entry_ibc_relay(m), step);
        let p7 = p6 + Self::spec_entry_ibc_relayer_change(m);
        lemma_fold_entries_append(s0, p6, Self::spec_entry_ibc_relayer_change(m), step);
        let p8 = p7 + Self::spec_entry_ibc_sudo_change(m);
        lemma_fold_entries_append(s0, p7, Self::spec_entry_ibc_sudo_change(m), step);
        let p9 = p8 + Self::spec_entry_ics20_withdrawal(m);
        lemma_fold_entries_append(s0, p8, Self::spec_entry_ics20_withdrawal(m), step);
        let p10 = p9 + Self::spec_entry_init_bridge_account(m);
        lemma_fold_entries_append(s0, p9, Self::spec_entry_init_bridge_account(m), step);
        let p11 = p10 + Self::spec_entry_rollup_data_submission(m);
        lemma_fold_entries_append(s0, p10, Self::spec_entry_rollup_data_submission(m), step);
        let p12 = p11 + Self::spec_entry_sudo_address_change(m);
        lemma_fold_entries_append(s0, p11, Self::spec_entry_sudo_address_change(m), step);
        let p13 = p12 + Self::spec_entry_transfer(m);
        lemma_fold_entries_append(s0, p12, Self::spec_entry_transfer(m), step);
        let p14 = p13 + Self::spec_entry_validator_update(m);
        lemma_fold_entries_append(s0, p13, Self::spec_entry_validator_update(m), step);
        let p15 = p14 + Self::spec_entry_bridge_transfer(m);
        lemma_fold_entries_append(s0, p14, Self::spec_entry_bridge_transfer(m), step);
        assert(s15.0 == m);
    }
}

/// The `astria.protocol.genesis.v1.IbcParameters` message.
#[derive(Clone, Debug, PartialEq)]
pub struct IbcParameters {
    pub ibc_enabled: bool,
    pub inbound_ics20_transfers_enabled: bool,
    pub outbound_ics20_transfers_enabled: bool,
}

/// The mathematical content of an [`IbcParameters`].
pub struct IbcParametersV {
    pub ibc_enabled: bool,
    pub inbound_ics20_transfers_enabled: bool,
    pub outbound_ics20_transfers_enabled: bool,
}

impl View for IbcParameters {
    type V = IbcParametersV;

    open spec fn view(&self) -> IbcParametersV {
        IbcParametersV {
            ibc_enabled: self.ibc_enabled,
            inbound_ics20_transfers_enabled: self.inbound_ics20_transfers_enabled,
            outbound_ics20_transfers_enabled: self.outbound_ics20_transfers_enabled,
        }
    }
}

impl Default for IbcParameters {
    fn default() -> (r: Self)
        ensures r@ == IbcParameters::spec_default(),
    {
        let r = IbcParameters {
            ibc_enabled: false,
            inbound_ics20_transfers_enabled: false,
            outbound_ics20_transfers_enabled: false,
        };
        r
    }
}

impl IbcParameters {
    /// The fully qualified protobuf name of the message.
    pub fn full_name() -> (r: String)
        ensures r@ == "astria.protocol.genesis.v1.IbcParameters"@,
    {
        "astria.protocol.genesis.v1.IbcParameters".to_string()
    }

    /// Every field at its default: empty strings, bytes and lists, zero, `false`, unset.
    pub open spec fn spec_default() -> IbcParametersV {
        IbcParametersV {
            ibc_enabled: false,
            inbound_ics20_transfers_enabled: false,
            outbound_ics20_transfers_enabled: false,
        }
    }

    /// The view of an optional field of this message type.
    pub open spec fn view_opt(o: Option<Self>) -> Option<IbcParametersV> {
        match o {
            Some(x) => Some(x@),
            None => None,
        }
    }

    /// The view of a repeated field of this message type.
    pub open spec fn view_list(v: Seq<Self>) -> Seq<IbcParametersV> {
        v.map_values(|x: Self| x@)
    }

    /// The member that the field `ibc_enabled` writes: none where it holds its default.
    pub open spec fn spec_entry_ibc_enabled(m: IbcParametersV) -> Seq<(Seq<char>, JsonV)> {
        entry_if(m.ibc_enabled, "ibcEnabled"@, JsonV::Bool(m.ibc_enabled))
    }

    /// The member that the field `inbound_ics20_transfers_enabled` writes: none where it holds its default.
    pub open spec fn spec_entry_inbound_ics20_transfers_enabled(m: IbcParametersV) -> Seq<(Seq<char>, JsonV)> {
        entry_if(m.inbound_ics20_transfers_enabled, "inboundIcs20TransfersEnabled"@, JsonV::Bool(m.inbound_ics20_transfers_enabled))
    }

    /// The member that the field `outbound_ics20_transfers_enabled` writes: none where it holds its default.
    pub open spec fn spec_entry_outbound_ics20_transfers_enabled(m: IbcParametersV) -> Seq<(Seq<char>, JsonV)> {
        entry_if(m.outbound_ics20_transfers_enabled, "outboundIcs20TransfersEnabled"@, JsonV::Bool(m.outbound_ics20_transfers_enabled))
    }

    /// The members of the JSON object of the message: each field that does not hold
    /// its default, under its JSON name, in the order of the fields.
    pub open spec fn spec_entries(m: IbcParametersV) -> Seq<(Seq<char>, JsonV)> {
        Self::spec_entry_ibc_enabled(m) + Self::spec_entry_inbound_ics20_transfers_enabled(m) + Self::spec_entry_outbound_ics20_transfers_enabled(m)
    }

    /// The JSON object that the protobuf JSON mapping writes for the message.
    pub open spec fn spec_to_json(m: IbcParametersV) -> JsonV {
        JsonV::Object(Self::spec_entries(m))
    }

    /// [`Self::spec_to_json`] as a function value, for repeated fields.
    pub open spec fn writer() -> spec_fn(IbcParametersV) -> JsonV {
        |m: IbcParametersV| Self::spec_to_json(m)
    }

    fn write_ibc_enabled(&self, es: &mut Vec<(String, Json)>)
        ensures
            view_entries(final(es)@) == view_entries(old(es)@) + Self::spec_entry_ibc_enabled(self@),
    {
        if self.ibc_enabled {
            push_entry(es, "ibcEnabled", Json::Bool(self.ibc_enabled));
        }
        assert(view_entries(es@) =~= view_entries(old(es)@) + Self::spec_entry_ibc_enabled(self@));
    }

    fn write_inbound_ics20_transfers_enabled(&self, es: &mut Vec<(String, Json)>)
        ensures
            view_entries(final(es)@) == view_entries(old(es)@) + Self::spec_entry_inbound_ics20_transfers_enabled(self@),
    {
        if self.inbound_ics20_transfers_enabled {
            push_entry(es, "inboundIcs20TransfersEnabled", Json::Bool(self.inbound_ics20_transfers_enabled));
        }
        assert(view_entries(es@) =~= view_entries(old(es)@) + Self::spec_entry_inbound_ics20_transfers_enabled(self@));
    }

    fn write_outbound_ics20_transfers_enabled(&self, es: &mut Vec<(String, Json)>)
        ensures
            view_entries(final(es)@) == view_entries(old(es)@) + Self::spec_entry_outbound_ics20_transfers_enabled(self@),
    {
        if self.outbound_ics20_transfers_enabled {
            push_entry(es, "outboundIcs20TransfersEnabled", Json::Bool(self.outbound_ics20_transfers_enabled));
        }
        assert(view_entries(es@) =~= view_entries(old(es)@) + Self::spec_entry_outbound_ics20_transfers_enabled(self@));
    }

    /// Writes the message as a JSON object; reading it back gives the message.
    pub fn to_json(&self) -> (r: Json)
        ensures
            r@ == Self::spec_to_json(self@),
            Self::spec_from_json(r@) == Ok::<IbcParametersV, JsonErrorV>(self@),
    {
        let mut es: Vec<(String, Json)> = Vec::new();
        let ghost mut acc: Seq<(Seq<char>, JsonV)> = Seq::empty();
        proof {
            assert(view_entries(es@) =~= acc);
        }
        self.write_ibc_enabled(&mut es);
        proof {
            acc = acc + Self::spec_entry_ibc_enabled(self@);
        }
        self.write_inbound_ics20_transfers_enabled(&mut es);
        proof {
            acc = acc + Self::spec_entry_inbound_ics20_transfers_enabled(self@);
        }
        self.write_outbound_ics20_transfers_enabled(&mut es);
        proof {
            acc = acc + Self::spec_entry_outbound_ics20_transfers_enabled(self@);
        }
        proof {
            assert(acc =~= Self::spec_entries(self@));
            Self::lemma_json_roundtrip(self@);
        }
        Json::Object(es)
    }

    /// Reads one member of the object into the message under construction; `seen`
    /// records which fields that have no unset state were already given.
    pub open spec fn spec_step(st: (IbcParametersV, Seq<bool>), key: Seq<char>, v: JsonV) -> Result<(IbcParametersV, Seq<bool>), JsonErrorV> {
        let m = st.0;
        let seen = st.1;
        if key == "ibcEnabled"@ || key == "ibc_enabled"@ {
            if seen[0] {
                Err(JsonErrorV::DuplicateField("ibcEnabled"@))
            } else {
                match read_bool(v) {
                    Ok(x) => Ok((IbcParametersV { ibc_enabled: x, ..m }, seen.update(0, true))),
                    Err(e) => Err(e),
                }
            }
        } else if key == "inboundIcs20TransfersEnabled"@ || key == "inbound_ics20_transfers_enabled"@ {
            if seen[1] {
                Err(JsonErrorV::DuplicateField("inboundIcs20TransfersEnabled"@))
            } else {
                match read_bool(v) {
                    Ok(x) => Ok((IbcParametersV { inbound_ics20_transfers_enabled: x, ..m }, seen.update(1, true))),
                    Err(e) => Err(e),
                }
            }
        } else if key == "outboundIcs20TransfersEnabled"@ || key == "outbound_ics20_transfers_enabled"@ {
            if seen[2] {
                Err(JsonErrorV::DuplicateField("outboundIcs20TransfersEnabled"@))
            } else {
                match read_bool(v) {
                    Ok(x) => Ok((IbcParametersV { outbound_ics20_transfers_enabled: x, ..m }, seen.update(2, true))),
                    Err(e) => Err(e),
                }
            }
        } else {
            Err(JsonErrorV::UnknownField(key))
        }
    }

    /// [`Self::spec_step`] as a function value.
    pub open spec fn step_fn() -> spec_fn((IbcParametersV, Seq<bool>), Seq<char>, JsonV) -> Result<(IbcParametersV, Seq<bool>), JsonErrorV> {
        |st: (IbcParametersV, Seq<bool>), key: Seq<char>, v: JsonV| Self::spec_step(st, key, v)
    }

    /// The state before the first member is read: the default message, no field seen.
    pub open spec fn spec_start() -> (IbcParametersV, Seq<bool>) {
        (Self::spec_default(), seq![false, false, false])
    }

    /// The message that a JSON value describes: an object whose keys each name a field
    /// (by its JSON name or its protobuf name), at most once each; fields that are not
    /// given keep their default. The first member that is refused gives the error.
    pub open spec fn spec_from_json(j: JsonV) -> Result<IbcParametersV, JsonErrorV> {
        match j {
            JsonV::Object(es) => match fold_entries(Self::spec_start(), es, Self::step_fn()) {
                Ok(st) => Ok(st.0),
                Err(e) => Err(e),
            },
            _ => Err(JsonErrorV::ExpectedObject),
        }
    }

    /// [`Self::spec_from_json`] as a function value, for repeated fields.
    pub open spec fn reader() -> spec_fn(JsonV) -> Result<IbcParametersV, JsonErrorV> {
        |v: JsonV| Self::spec_from_json(v)
    }

    /// An optional field of this message type: `null` leaves it unset.
    pub open spec fn spec_read_opt(v: JsonV) -> Result<Option<IbcParametersV>, JsonErrorV> {
        match v {
            JsonV::Null => Ok(None),
            _ => match Self::spec_from_json(v) {
                Ok(x) => Ok(Some(x)),
                Err(e) => Err(e),
            },
        }
    }

    fn step(m: Self, seen: Vec<bool>, key: &String, v: &Json) -> (r: Result<(Self, Vec<bool>), JsonError>)
        requires seen@.len() == 3,
        ensures
            match r {
                Ok((m2, seen2)) => Self::spec_step((m@, seen@), key@, v@) == Ok::<(IbcParametersV, Seq<bool>), JsonErrorV>((m2@, seen2@)) && seen2@.len() == 3,
                Err(e) => Self::spec_step((m@, seen@), key@, v@) == Err::<(IbcParametersV, Seq<bool>), JsonErrorV>(e@),
            },
    {
        let mut m = m;
        let mut seen = seen;
        let k = key.as_str();
        if str_eq(k, "ibcEnabled") || str_eq(k, "ibc_enabled") {
            if seen[0] {
                return Err(JsonError::DuplicateField("ibcEnabled".to_string()));
            }
            match bool_field(v) {
                Ok(x) => m.ibc_enabled = x,
                Err(e) => return Err(e),
            }
            seen.set(0, true);
        } else if str_eq(k, "inboundIcs20TransfersEnabled") || str_eq(k, "inbound_ics20_transfers_enabled") {
            if seen[1] {
                return Err(JsonError::DuplicateField("inboundIcs20TransfersEnabled".to_string()));
            }
            match bool_field(v) {
                Ok(x) => m.inbound_ics20_transfers_enabled = x,
                Err(e) => return Err(e),
            }
            seen.set(1, true);
        } else if str_eq(k, "outboundIcs20TransfersEnabled") || str_eq(k, "outbound_ics20_transfers_enabled") {
            if seen[2] {
                return Err(JsonError::DuplicateField("outboundIcs20TransfersEnabled".to_string()));
            }
            match bool_field(v) {
                Ok(x) => m.outbound_ics20_transfers_enabled = x,
                Err(e) => return Err(e),
            }
            seen.set(2, true);
        } else {
            return Err(JsonError::UnknownField(key.clone()));
        }
        Ok((m, seen))
    }

    /// Reads the message from a JSON value, as [`Self::spec_from_json`] describes.
    pub fn from_json(j: &Json) -> (r: Result<Self, JsonError>)
        ensures
            match r {
                Ok(m) => Self::spec_from_json(j@) == Ok::<IbcParametersV, JsonErrorV>(m@),
                Err(e) => Self::spec_from_json(j@) == Err::<IbcParametersV, JsonErrorV>(e@),
            },
    {
        let es = match j {
            Json::Object(es) => es,
            _ => return Err(JsonError::ExpectedObject),
        };
        let ghost ves = view_entries(es@);
        proof {
            lemma_view_entries_len(es@);
            assert(j@ == JsonV::Object(ves));
        }
        let mut m = Self::default();
        let mut seen: Vec<bool> = vec![false, false, false];
        let mut i: usize = 0;
        proof {
            assert(seen@ =~= Self::spec_start().1);
            assert(ves.skip(0) == ves);
        }
        while i < es.len()
            invariant
                j@ == JsonV::Object(ves),
                ves == view_entries(es@),
                ves.len() == es@.len(),
                i <= es.len(),
                seen@.len() == 3,
                fold_entries(Self::spec_start(), ves, Self::step_fn())
                    == fold_entries((m@, seen@), ves.skip(i as int), Self::step_fn()),
            decreases es.len() - i,
        {
            proof {
                lemma_view_entries_index(es@, i as int);
                lemma_fold_entries_step((m@, seen@), ves, i as int, Self::step_fn());
            }
            match Self::step(m, seen, &es[i].0, &es[i].1) {
                Ok((m2, seen2)) => {
                    m = m2;
                    seen = seen2;
                },
                Err(e) => return Err(e),
            }
            i = i + 1;
        }
        proof {
            assert(ves.skip(ves.len() as int) == Seq::<(Seq<char>, JsonV)>::empty());
            assert(fold_entries((m@, seen@), ves.skip(ves.len() as int), Self::step_fn())
                == Ok::<(IbcParametersV, Seq<bool>), JsonErrorV>((m@, seen@)));
        }
        Ok(m)
    }

    /// Reads an optional field of this message type.
    pub fn opt_from_json(v: &Json) -> (r: Result<Option<Self>, JsonError>)
        ensures
            match r {
                Ok(None) => Self::spec_read_opt(v@) == Ok::<Option<IbcParametersV>, JsonErrorV>(None),
                Ok(Some(x)) => Self::spec_read_opt(v@) == Ok::<Option<IbcParametersV>, JsonErrorV>(Some(x@)),
                Err(e) => Self::spec_read_opt(v@) == Err::<Option<IbcParametersV>, JsonErrorV>(e@),
            },
    {
        match v {
            Json::Null => Ok(None),
            _ => match Self::from_json(v) {
                Ok(x) => Ok(Some(x)),
                Err(e) => Err(e),
            },
        }
    }

    /// Reading the member that the field `ibc_enabled` writes sets the field.
    pub proof fn lemma_entry_ibc_enabled(m: IbcParametersV, st: (IbcParametersV, Seq<bool>))
        requires
            st.1.len() == 3,
            !st.1[0],
            st.0.ibc_enabled == false,
        ensures
            fold_entries(st, Self::spec_entry_ibc_enabled(m), Self::step_fn()) == Ok::<(IbcParametersV, Seq<bool>), JsonErrorV>((IbcParametersV { ibc_enabled: m.ibc_enabled, ..st.0 }, if m.ibc_enabled { st.1.update(0, true) } else { st.1 })),
    {
        reveal_strlit("ibcEnabled");
        reveal_strlit("ibc_enabled");
        reveal_strlit("inboundIcs20TransfersEnabled");
        reveal_strlit("inbound_ics20_transfers_enabled");
        reveal_strlit("outboundIcs20TransfersEnabled");
        reveal_strlit("outbound_ics20_transfers_enabled");
        assert("ibcEnabled"@.len() == 10);
        assert("ibc_enabled"@.len() == 11);
        assert("inboundIcs20TransfersEnabled"@.len() == 28);
        assert("inbound_ics20_transfers_enabled"@.len() == 31);
        assert("outboundIcs20TransfersEnabled"@.len() == 29);
        assert("outbound_ics20_transfers_enabled"@.len() == 32);
        lemma_fold_entry_if(st, m.ibc_enabled, "ibcEnabled"@, JsonV::Bool(m.ibc_enabled), Self::step_fn());
    }

    /// Reading the member that the field `inbound_ics20_transfers_enabled` writes sets the field.
    pub proof fn lemma_entry_inbound_ics20_transfers_enabled(m: IbcParametersV, st: (IbcParametersV, Seq<bool>))
        requires
            st.1.len() == 3,
            !st.1[1],
            st.0.inbound_ics20_transfers_enabled == false,
        ensures
            fold_entries(st, Self::spec_entry_inbound_ics20_transfers_enabled(m), Self::step_fn()) == Ok::<(IbcParametersV, Seq<bool>), JsonErrorV>((IbcParametersV { inbound_ics20_transfers_enabled: m.inbound_ics20_transfers_enabled, ..st.0 }, if m.inbound_ics20_transfers_enabled { st.1.update(1, true) } else { st.1 })),
    {
        reveal_strlit("ibcEnabled");
        reveal_strlit("ibc_enabled");
        reveal_strlit("inboundIcs20TransfersEnabled");
        reveal_strlit("inbound_ics20_transfers_enabled");
        reveal_strlit("outboundIcs20TransfersEnabled");
        reveal_strlit("outbound_ics20_transfers_enabled");
        assert("ibcEnabled"@.len() == 10);
        assert("ibc_enabled"@.len() == 11);
        assert("inboundIcs20TransfersEnabled"@.len() == 28);
        assert("inbound_ics20_transfers_enabled"@.len() == 31);
        assert("outboundIcs20TransfersEnabled"@.len() == 29);
        assert("outbound_ics20_transfers_enabled"@.len() == 32);
        lemma_fold_entry_if(st, m.inbound_ics20_transfers_enabled, "inboundIcs20TransfersEnabled"@, JsonV::Bool(m.inbound_ics20_transfers_enabled), Self::step_fn());
    }

    /// Reading the member that the field `outbound_ics20_transfers_enabled` writes sets the field.
    pub proof fn lemma_entry_outbound_ics20_transfers_enabled(m: IbcParametersV, st: (IbcParametersV, Seq<bool>))
        requires
            st.1.len() == 3,
            !st.1[2],
            st.0.outbound_ics20_transfers_enabled == false,
        ensures
            fold_entries(st, Self::spec_entry_outbound_ics20_transfers_enabled(m), Self::step_fn()) == Ok::<(IbcParametersV, Seq<bool>), JsonErrorV>((IbcParametersV { outbound_ics20_transfers_enabled: m.outbound_ics20_transfers_enabled, ..st.0 }, if m.outbound_ics20_transfers_enabled { st.1.update(2, true) } else { st.1 })),
    {
        reveal_strlit("ibcEnabled");
        reveal_strlit("ibc_enabled");
        reveal_strlit("inboundIcs20TransfersEnabled");
        reveal_strlit("inbound_ics20_transfers_enabled");
        reveal_strlit("outboundIcs20TransfersEnabled");
        reveal_strlit("outbound_ics20_transfers_enabled");
        assert("ibcEnabled"@.len() == 10);
        assert("ibc_enabled"@.len() == 11);
        assert("inboundIcs20TransfersEnabled"@.len() == 28);
        assert("inbound_ics20_transfers_enabled"@.len() == 31);
        assert("outboundIcs20TransfersEnabled"@.len() == 29);
        assert("outbound_ics20_transfers_enabled"@.len() == 32);
        lemma_fold_entry_if(st, m.outbound_ics20_transfers_enabled, "outboundIcs20TransfersEnabled"@, JsonV::Bool(m.outbound_ics20_transfers_enabled), Self::step_fn());
    }

    /// The JSON spelling of a key: the protobuf name of a field becomes its JSON name;
    /// a JSON name, and any key that names no field, is left as it is.
    pub open spec fn spec_json_key(key: Seq<char>) -> Seq<char> {
        if key == "ibcEnabled"@ || key == "ibc_enabled"@ {
            "ibcEnabled"@
        } else if key == "inboundIcs20TransfersEnabled"@ || key == "inbound_ics20_transfers_enabled"@ {
            "inboundIcs20TransfersEnabled"@
        } else if key == "outboundIcs20TransfersEnabled"@ || key == "outbound_ics20_transfers_enabled"@ {
            "outboundIcs20TransfersEnabled"@
        } else {
            key
        }
    }

    /// [`Self::spec_json_key`] as a function value.
    pub open spec fn json_key_fn() -> spec_fn(Seq<char>) -> Seq<char> {
        |key: Seq<char>| Self::spec_json_key(key)
    }

    /// One member is read alike whichever spelling its key has.
    pub proof fn lemma_step_json_key(st: (IbcParametersV, Seq<bool>), key: Seq<char>, v: JsonV)
        ensures Self::spec_step(st, key, v) == Self::spec_step(st, Self::spec_json_key(key), v),
    {
        reveal_strlit("ibcEnabled");
        reveal_strlit("ibc_enabled");
        reveal_strlit("inboundIcs20TransfersEnabled");
        reveal_strlit("inbound_ics20_transfers_enabled");
        reveal_strlit("outboundIcs20TransfersEnabled");
        reveal_strlit("outbound_ics20_transfers_enabled");
        assert("ibcEnabled"@.len() == 10);
        assert("ibc_enabled"@.len() == 11);
        assert("inboundIcs20TransfersEnabled"@.len() == 28);
        assert("inbound_ics20_transfers_enabled"@.len() == 31);
        assert("outboundIcs20TransfersEnabled"@.len() == 29);
        assert("outbound_ics20_transfers_enabled"@.len() == 32);
        if key == "ibc_enabled"@ {
            assert(Self::spec_json_key(key) == "ibcEnabled"@);
        }
        if key == "inbound_ics20_transfers_enabled"@ {
            assert(Self::spec_json_key(key) == "inboundIcs20TransfersEnabled"@);
        }
        if key == "outbound_ics20_transfers_enabled"@ {
            assert(Self::spec_json_key(key) == "outboundIcs20TransfersEnabled"@);
        }
    }

    /// Reading an object gives the same result whichever spelling each of its keys has:
    /// two objects whose members hold the same values, in the same order, under keys of
    /// the same JSON spelling describe the same message, or are refused with the same error.
    pub proof fn lemma_key_spelling(es1: Seq<(Seq<char>, JsonV)>, es2: Seq<(Seq<char>, JsonV)>)
        requires
            es1.len() == es2.len(),
            forall|i: int| #![trigger es1[i], es2[i]] 0 <= i < es1.len() ==> es1[i].1 == es2[i].1 && Self::spec_json_key(es1[i].0) == Self::spec_json_key(es2[i].0),
        ensures Self::spec_from_json(JsonV::Object(es1)) == Self::spec_from_json(JsonV::Object(es2)),
    {
        assert forall|s: (IbcParametersV, Seq<bool>), k: Seq<char>, v: JsonV|
            #![trigger Self::step_fn()(s, k, v), Self::json_key_fn()(k)]
            Self::step_fn()(s, k, v) == Self::step_fn()(s, Self::json_key_fn()(k), v) by {
            Self::lemma_step_json_key(s, k, v);
        }
        lemma_fold_same_keys(Self::spec_start(), es1, es2, Self::step_fn(), Self::json_key_fn());
    }

    /// The keys of the object that the message writes: the JSON names of the fields that
    /// do not hold their default (for a oneof, the JSON name of the member set), in the
    /// order of the fields.
    pub open spec fn spec_written_keys(m: IbcParametersV) -> Seq<Seq<char>> {
        key_if(m.ibc_enabled, "ibcEnabled"@)
            + key_if(m.inbound_ics20_transfers_enabled, "inboundIcs20TransfersEnabled"@)
            + key_if(m.outbound_ics20_transfers_enabled, "outboundIcs20TransfersEnabled"@)
    }

    /// The object that the message writes has exactly the keys of
    /// [`Self::spec_written_keys`], in that order.
    pub proof fn lemma_written_keys(m: IbcParametersV)
        ensures
            Self::spec_to_json(m) == JsonV::Object(Self::spec_entries(m)),
            entry_keys(Self::spec_entries(m)) == Self::spec_written_keys(m),
    {
        lemma_entry_keys_if(m.ibc_enabled, "ibcEnabled"@, JsonV::Bool(m.ibc_enabled));
        lemma_entry_keys_append(Self::spec_entry_ibc_enabled(m), m.inbound_ics20_transfers_enabled, "inboundIcs20TransfersEnabled"@, JsonV::Bool(m.inbound_ics20_transfers_enabled));
        lemma_entry_keys_append(Self::spec_entry_ibc_enabled(m) + Self::spec_entry_inbound_ics20_transfers_enabled(m), m.outbound_ics20_transfers_enabled, "outboundIcs20TransfersEnabled"@, JsonV::Bool(m.outbound_ics20_transfers_enabled));
    }

    /// Whether the field whose JSON name is `name` holds its default in `m`; for a member
    /// of a oneof, whether the oneof is set to another member or unset. `true` for a name
    /// that names no field.
    pub open spec fn spec_holds_default(m: IbcParametersV, name: Seq<char>) -> bool {
        if name == "ibcEnabled"@ {
            m.ibc_enabled == false
        } else if name == "inboundIcs20TransfersEnabled"@ {
            m.inbound_ics20_transfers_enabled == false
        } else if name == "outboundIcs20TransfersEnabled"@ {
            m.outbound_ics20_transfers_enabled == false
        } else {
            true
        }
    }

    /// Whether reading `v` for the field whose JSON name is `name` leaves the field at
    /// its default: `null`, for a field that takes it (a message field, a member of a
    /// oneof); nothing, for any other field. `true` for a name that names no field.
    pub open spec fn spec_leaves_default(name: Seq<char>, v: JsonV) -> bool {
        if name == "ibcEnabled"@ {
            false
        } else if name == "inboundIcs20TransfersEnabled"@ {
            false
        } else if name == "outboundIcs20TransfersEnabled"@ {
            false
        } else {
            true
        }
    }

    /// Reading one member keeps a field at its default unless the key names the field
    /// and the value does not leave it there.
    pub proof fn lemma_step_keeps_default(st: (IbcParametersV, Seq<bool>), key: Seq<char>, v: JsonV, name: Seq<char>)
        requires
            Self::spec_holds_default(st.0, name),
            Self::spec_json_key(key) == name ==> Self::spec_leaves_default(name, v),
        ensures
            Self::spec_step(st, key, v) is Ok ==> Self::spec_holds_default(Self::spec_step(st, key, v)->Ok_0.0, name),
    {
        reveal_strlit("ibcEnabled");
        reveal_strlit("ibc_enabled");
        reveal_strlit("inboundIcs20TransfersEnabled");
        reveal_strlit("inbound_ics20_transfers_enabled");
        reveal_strlit("outboundIcs20TransfersEnabled");
        reveal_strlit("outbound_ics20_transfers_enabled");
        assert("ibcEnabled"@.len() == 10);
        assert("ibc_enabled"@.len() == 11);
        assert("inboundIcs20TransfersEnabled"@.len() == 28);
        assert("inbound_ics20_transfers_enabled"@.len() == 31);
        assert("outboundIcs20TransfersEnabled"@.len() == 29);
        assert("outbound_ics20_transfers_enabled"@.len() == 32);
        Self::lemma_step_json_key(st, key, v);
    }

    /// A field whose key appears in no member of an object, or only with values that
    /// leave it at its default (`null`, for a field that takes it), holds its default in
    /// the message that the object describes.
    pub proof fn lemma_absent_default(es: Seq<(Seq<char>, JsonV)>, name: Seq<char>)
        requires
            forall|i: int| 0 <= i < es.len() ==> (Self::spec_json_key((#[trigger] es[i]).0) == name
                ==> Self::spec_leaves_default(name, es[i].1)),
        ensures
            Self::spec_from_json(JsonV::Object(es)) is Ok
                ==> Self::spec_holds_default(Self::spec_from_json(JsonV::Object(es))->Ok_0, name),
    {
        let inv = |s: (IbcParametersV, Seq<bool>)| Self::spec_holds_default(s.0, name);
        let allowed = |k: Seq<char>, v: JsonV| Self::spec_json_key(k) == name ==> Self::spec_leaves_default(name, v);
        assert forall|s: (IbcParametersV, Seq<bool>), k: Seq<char>, v: JsonV| #![trigger Self::step_fn()(s, k, v)]
            inv(s) && allowed(k, v) && Self::step_fn()(s, k, v) is Ok implies inv(Self::step_fn()(s, k, v)->Ok_0) by {
            Self::lemma_step_keeps_default(s, k, v, name);
        }
        assert(inv(Self::spec_start()));
        lemma_fold_keeps(Self::spec_start(), es, Self::step_fn(), inv, allowed);
    }

    /// The field `ibc_enabled` alone: an object with one member under its JSON or protobuf
    /// name reads as the message with that field set and every other field at its
    /// default, and the message with only that field off its default writes that
    /// one member under the JSON name.
    pub proof fn lemma_field_ibc_enabled(b: bool)
        ensures
            Self::spec_from_json(JsonV::Object(seq![("ibcEnabled"@, JsonV::Bool(b))])) == Ok::<IbcParametersV, JsonErrorV>(IbcParametersV { ibc_enabled: b, ..Self::spec_default() }),
            Self::spec_from_json(JsonV::Object(seq![("ibc_enabled"@, JsonV::Bool(b))])) == Ok::<IbcParametersV, JsonErrorV>(IbcParametersV { ibc_enabled: b, ..Self::spec_default() }),
            b ==> Self::spec_to_json(IbcParametersV { ibc_enabled: b, ..Self::spec_default() }) == JsonV::Object(seq![("ibcEnabled"@, JsonV::Bool(true))]),
            !b ==> Self::spec_to_json(IbcParametersV { ibc_enabled: b, ..Self::spec_default() }) == JsonV::Object(Seq::empty()),
    {
        reveal_strlit("ibcEnabled");
        reveal_strlit("ibc_enabled");
        reveal_strlit("inboundIcs20TransfersEnabled");
        reveal_strlit("inbound_ics20_transfers_enabled");
        reveal_strlit("outboundIcs20TransfersEnabled");
        reveal_strlit("outbound_ics20_transfers_enabled");
        assert("ibcEnabled"@.len() == 10);
        assert("ibc_enabled"@.len() == 11);
        assert("inboundIcs20TransfersEnabled"@.len() == 28);
        assert("inbound_ics20_transfers_enabled"@.len() == 31);
        assert("outboundIcs20TransfersEnabled"@.len() == 29);
        assert("outbound_ics20_transfers_enabled"@.len() == 32);
        lemma_fold_entry_if(Self::spec_start(), true, "ibcEnabled"@, JsonV::Bool(b), Self::step_fn());
        lemma_fold_entry_if(Self::spec_start(), true, "ibc_enabled"@, JsonV::Bool(b), Self::step_fn());
    }

    /// The field `inbound_ics20_transfers_enabled` alone: an object with one member under its JSON or protobuf
    /// name reads as the message with that field set and every other field at its
    /// default, and the message with only that field off its default writes that
    /// one member under the JSON name.
    pub proof fn lemma_field_inbound_ics20_transfers_enabled(b: bool)
        ensures
            Self::spec_from_json(JsonV::Object(seq![("inboundIcs20TransfersEnabled"@, JsonV::Bool(b))])) == Ok::<IbcParametersV, JsonErrorV>(IbcParametersV { inbound_ics20_transfers_enabled: b, ..Self::spec_default() }),
            Self::spec_from_json(JsonV::Object(seq![("inbound_ics20_transfers_enabled"@, JsonV::Bool(b))])) == Ok::<IbcParametersV, JsonErrorV>(IbcParametersV { inbound_ics20_transfers_enabled: b, ..Self::spec_default() }),
            b ==> Self::spec_to_json(IbcParametersV { inbound_ics20_transfers_enabled: b, ..Self::spec_default() }) == JsonV::Object(seq![("inboundIcs20TransfersEnabled"@, JsonV::Bool(true))]),
            !b ==> Self::spec_to_json(IbcParametersV { inbound_ics20_transfers_enabled: b, ..Self::spec_default() }) == JsonV::Object(Seq::empty()),
    {
        reveal_strlit("ibcEnabled");
        reveal_strlit("ibc_enabled");
        reveal_strlit("inboundIcs20TransfersEnabled");
        reveal_strlit("inbound_ics20_transfers_enabled");
        reveal_strlit("outboundIcs20TransfersEnabled");
        reveal_strlit("outbound_ics20_transfers_enabled");
        assert("ibcEnabled"@.len() == 10);
        assert("ibc_enabled"@.len() == 11);
        assert("inboundIcs20TransfersEnabled"@.len() == 28);
        assert("inbound_ics20_transfers_enabled"@.len() == 31);
        assert("outboundIcs20TransfersEnabled"@.len() == 29);
        assert("outbound_ics20_transfers_enabled"@.len() == 32);
        lemma_fold_entry_if(Self::spec_start(), true, "inboundIcs20TransfersEnabled"@, JsonV::Bool(b), Self::step_fn());
        lemma_fold_entry_if(Self::spec_start(), true, "inbound_ics20_transfers_enabled"@, JsonV::Bool(b), Self::step_fn());
    }

    /// The field `outbound_ics20_transfers_enabled` alone: an object with one member under its JSON or protobuf
    /// name reads as the message with that field set and every other field at its
    /// default, and the message with only that field off its default writes that
    /// one member under the JSON name.
    pub proof fn lemma_field_outbound_ics20_transfers_enabled(b: bool)
        ensures
            Self::spec_from_json(JsonV::Object(seq![("outboundIcs20TransfersEnabled"@, JsonV::Bool(b))])) == Ok::<IbcParametersV, JsonErrorV>(IbcParametersV { outbound_ics20_transfers_enabled: b, ..Self::spec_default() }),
            Self::spec_from_json(JsonV::Object(seq![("outbound_ics20_transfers_enabled"@, JsonV::Bool(b))])) == Ok::<IbcParametersV, JsonErrorV>(IbcParametersV { outbound_ics20_transfers_enabled: b, ..Self::spec_default() }),
            b ==> Self::spec_to_json(IbcParametersV { outbound_ics20_transfers_enabled: b, ..Self::spec_default() }) == JsonV::Object(seq![("outboundIcs20TransfersEnabled"@, JsonV::Bool(true))]),
            !b ==> Self::spec_to_json(IbcParametersV { outbound_ics20_transfers_enabled: b, ..Self::spec_default() }) == JsonV::Object(Seq::empty()),
    {
        reveal_strlit("ibcEnabled");
        reveal_strlit("ibc_enabled");
        reveal_strlit("inboundIcs20TransfersEnabled");
        reveal_strlit("inbound_ics20_transfers_enabled");
        reveal_strlit("outboundIcs20TransfersEnabled");
        reveal_strlit("outbound_ics20_transfers_enabled");
        assert("ibcEnabled"@.len() == 10);
        assert("ibc_enabled"@.len() == 11);
        assert("inboundIcs20TransfersEnabled"@.len() == 28);
        assert("inbound_ics20_transfers_enabled"@.len() == 31);
        assert("outboundIcs20TransfersEnabled"@.len() == 29);
        assert("outbound_ics20_transfers_enabled"@.len() == 32);
        lemma_fold_entry_if(Self::spec_start(), true, "outboundIcs20TransfersEnabled"@, JsonV::Bool(b), Self::step_fn());
        lemma_fold_entry_if(Self::spec_start(), true, "outbound_ics20_transfers_enabled"@, JsonV::Bool(b), Self::step_fn());
    }

    /// Reading back the JSON object of a message gives the message.
    pub proof fn lemma_json_roundtrip(m: IbcParametersV)
        ensures Self::spec_from_json(Self::spec_to_json(m)) == Ok::<IbcParametersV, JsonErrorV>(m),
    {
        let step = Self::step_fn();
        let s0 = Self::spec_start();
        let s1 = (IbcParametersV { ibc_enabled: m.ibc_enabled, ..s0.0 }, if m.ibc_enabled { s0.1.update(0, true) } else { s0.1 });
        Self::lemma_entry_ibc_enabled(m, s0);
        let s2 = (IbcParametersV { inbound_ics20_transfers_enabled: m.inbound_ics20_transfers_enabled, ..s1.0 }, if m.inbound_ics20_transfers_enabled { s1.1.update(1, true) } else { s1.1 });
        Self::lemma_entry_inbound_ics20_transfers_enabled(m, s1);
        let s3 = (IbcParametersV { outbound_ics20_transfers_enabled: m.outbound_ics20_transfers_enabled, ..s2.0 }, if m.outbound_ics20_transfers_enabled { s2.1.update(2, true) } else { s2.1 });
        Self::lemma_entry_outbound_ics20_transfers_enabled(m, s2);
        let p1 = Self::spec_entry_ibc_enabled(m);
        let p2 = p1 + Self::spec_entry_inbound_ics20_transfers_enabled(m);
        lemma_fold_entries_append(s0, p1, Self::spec_entry_inbound_ics20_transfers_enabled(m), step);
        let p3 = p2 + Self::spec_entry_outbound_ics20_transfers_enabled(m);
        lemma_fold_entries_append(s0, p2, Self::spec_entry_outbound_ics20_transfers_enabled(m), step);
        assert(s3.0 == m);
    }
}
} // verus!
