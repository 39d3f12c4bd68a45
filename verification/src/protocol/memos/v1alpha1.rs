//! Memos that travel with bridge and IBC transfers.
//!
//! Each message is read from and written to JSON as the protobuf JSON mapping
//! does it (`astria.protocol.memos.v1alpha1`).

use vstd::prelude::*;
use crate::decimal::decimal;
use crate::fields::{
    lemma_read_u64_value, read_string, read_u64, string_field, string_value, u64_field, u64_value,
};
use crate::json::{
    entry_if, fold_entries, lemma_fold_entries_append, lemma_fold_entries_step, lemma_fold_entry_if,
    lemma_view_entries_index, lemma_view_entries_len, push_entry, str_eq, view_entries, Json,
    JsonError, JsonErrorV, JsonV, entry_keys, key_if, lemma_entry_keys_if, lemma_entry_keys_append,
    lemma_fold_same_keys, lemma_fold_keeps,
};

verus! {

/// The `astria.protocol.memos.v1alpha1.BridgeUnlock` message.
#[derive(Clone, Debug, PartialEq)]
pub struct BridgeUnlock {
    /// The block number on the rollup that triggered the transaction underlying
    /// this bridge unlock memo.
    pub rollup_block_number: u64,
    /// The hash of the original rollup transaction that triggered a bridge unlock
    /// and that is underlying this bridge unlock memo. This can be utilized for
    /// tracing from the bridge back to distinct rollup transactions.
    ///
    /// This field is of type `string` so that it can be formatted in the preferred
    /// format of the rollup when targeting plain text encoding.
    pub rollup_transaction_hash: String,
    /// A hash of the execution proof that transaction was executed on the rollup.
    /// This is included because in many rollups simply including the transaction
    /// is not the same as executing, inclusion of this data enables future
    /// verification of the execution.
    ///
    /// This field is of type `string` so that it can be formatted in the preferred
    /// format of the rollup when targeting plain text encoding.
    pub rollup_exec_result_hash: String,
}

/// The mathematical content of a [`BridgeUnlock`].
pub struct BridgeUnlockV {
    pub rollup_block_number: u64,
    pub rollup_transaction_hash: Seq<char>,
    pub rollup_exec_result_hash: Seq<char>,
}

impl View for BridgeUnlock {
    type V = BridgeUnlockV;

    open spec fn view(&self) -> BridgeUnlockV {
        BridgeUnlockV {
            rollup_block_number: self.rollup_block_number,
            rollup_transaction_hash: self.rollup_transaction_hash@,
            rollup_exec_result_hash: self.rollup_exec_result_hash@,
        }
    }
}

impl Default for BridgeUnlock {
    fn default() -> (r: Self)
        ensures r@ == BridgeUnlock::spec_default(),
    {
        let r = BridgeUnlock {
            rollup_block_number: 0,
            rollup_transaction_hash: String::new(),
            rollup_exec_result_hash: String::new(),
        };
        r
    }
}

impl BridgeUnlock {
    /// The fully qualified protobuf name of the message.
    pub fn full_name() -> (r: String)
        ensures r@ == "astria.protocol.memos.v1alpha1.BridgeUnlock"@,
    {
        "astria.protocol.memos.v1alpha1.BridgeUnlock".to_string()
    }

    /// Every field at its default: empty strings, bytes and lists, zero, `false`, unset.
    pub open spec fn spec_default() -> BridgeUnlockV {
        BridgeUnlockV {
            rollup_block_number: 0,
            rollup_transaction_hash: Seq::<char>::empty(),
            rollup_exec_result_hash: Seq::<char>::empty(),
        }
    }

    /// The view of an optional field of this message type.
    pub open spec fn view_opt(o: Option<Self>) -> Option<BridgeUnlockV> {
        match o {
            Some(x) => Some(x@),
            None => None,
        }
    }

    /// The view of a repeated field of this message type.
    pub open spec fn view_list(v: Seq<Self>) -> Seq<BridgeUnlockV> {
        v.map_values(|x: Self| x@)
    }

    /// The member that the field `rollup_block_number` writes: none where it holds its default.
    pub open spec fn spec_entry_rollup_block_number(m: BridgeUnlockV) -> Seq<(Seq<char>, JsonV)> {
        entry_if(m.rollup_block_number != 0, "rollupBlockNumber"@, JsonV::Str(decimal(m.rollup_block_number as nat)))
    }

    /// The member that the field `rollup_transaction_hash` writes: none where it holds its default.
    pub open spec fn spec_entry_rollup_transaction_hash(m: BridgeUnlockV) -> Seq<(Seq<char>, JsonV)> {
        entry_if(m.rollup_transaction_hash.len() != 0, "rollupTransactionHash"@, JsonV::Str(m.rollup_transaction_hash))
    }

    /// The member that the field `rollup_exec_result_hash` writes: none where it holds its default.
    pub open spec fn spec_entry_rollup_exec_result_hash(m: BridgeUnlockV) -> Seq<(Seq<char>, JsonV)> {
        entry_if(m.rollup_exec_result_hash.len() != 0, "rollupExecResultHash"@, JsonV::Str(m.rollup_exec_result_hash))
    }

    /// The members of the JSON object of the message: each field that does not hold
    /// its default, under its JSON name, in the order of the fields.
    pub open spec fn spec_entries(m: BridgeUnlockV) -> Seq<(Seq<char>, JsonV)> {
        Self::spec_entry_rollup_block_number(m) + Self::spec_entry_rollup_transaction_hash(m) + Self::spec_entry_rollup_exec_result_hash(m)
    }

    /// The JSON object that the protobuf JSON mapping writes for the message.
    pub open spec fn spec_to_json(m: BridgeUnlockV) -> JsonV {
        JsonV::Object(Self::spec_entries(m))
    }

    /// [`Self::spec_to_json`] as a function value, for repeated fields.
    pub open spec fn writer() -> spec_fn(BridgeUnlockV) -> JsonV {
        |m: BridgeUnlockV| Self::spec_to_json(m)
    }

    fn write_rollup_block_number(&self, es: &mut Vec<(String, Json)>)
        ensures
            view_entries(final(es)@) == view_entries(old(es)@) + Self::spec_entry_rollup_block_number(self@),
    {
        if self.rollup_block_number != 0 {
            push_entry(es, "rollupBlockNumber", u64_value(self.rollup_block_number));
        }
        assert(view_entries(es@) =~= view_entries(old(es)@) + Self::spec_entry_rollup_block_number(self@));
    }

    fn write_rollup_transaction_hash(&self, es: &mut Vec<(String, Json)>)
        ensures
            view_entries(final(es)@) == view_entries(old(es)@) + Self::spec_entry_rollup_transaction_hash(self@),
    {
        if !self.rollup_transaction_hash.as_str().is_empty() {
            push_entry(es, "rollupTransactionHash", string_value(&self.rollup_transaction_hash));
        }
        assert(view_entries(es@) =~= view_entries(old(es)@) + Self::spec_entry_rollup_transaction_hash(self@));
    }

    fn write_rollup_exec_result_hash(&self, es: &mut Vec<(String, Json)>)
        ensures
            view_entries(final(es)@) == view_entries(old(es)@) + Self::spec_entry_rollup_exec_result_hash(self@),
    {
        if !self.rollup_exec_result_hash.as_str().is_empty() {
            push_entry(es, "rollupExecResultHash", string_value(&self.rollup_exec_result_hash));
        }
        assert(view_entries(es@) =~= view_entries(old(es)@) + Self::spec_entry_rollup_exec_result_hash(self@));
    }

    /// Writes the message as a JSON object; reading it back gives the message.
    pub fn to_json(&self) -> (r: Json)
        ensures
            r@ == Self::spec_to_json(self@),
            Self::spec_from_json(r@) == Ok::<BridgeUnlockV, JsonErrorV>(self@),
    {
        let mut es: Vec<(String, Json)> = Vec::new();
        let ghost mut acc: Seq<(Seq<char>, JsonV)> = Seq::empty();
        proof {
            assert(view_entries(es@) =~= acc);
        }
        self.write_rollup_block_number(&mut es);
        proof {
            acc = acc + Self::spec_entry_rollup_block_number(self@);
        }
        self.write_rollup_transaction_hash(&mut es);
        proof {
            acc = acc + Self::spec_entry_rollup_transaction_hash(self@);
        }
        self.write_rollup_exec_result_hash(&mut es);
        proof {
            acc = acc + Self::spec_entry_rollup_exec_result_hash(self@);
        }
        proof {
            assert(acc =~= Self::spec_entries(self@));
            Self::lemma_json_roundtrip(self@);
        }
        Json::Object(es)
    }

    /// Reads one member of the object into the message under construction; `seen`
    /// records which fields that have no unset state were already given.
    pub open spec fn spec_step(st: (BridgeUnlockV, Seq<bool>), key: Seq<char>, v: JsonV) -> Result<(BridgeUnlockV, Seq<bool>), JsonErrorV> {
        let m = st.0;
        let seen = st.1;
        if key == "rollupBlockNumber"@ || key == "rollup_block_number"@ {
            if seen[0] {
                Err(JsonErrorV::DuplicateField("rollupBlockNumber"@))
            } else {
                match read_u64(v) {
                    Ok(x) => Ok((BridgeUnlockV { rollup_block_number: x, ..m }, seen.update(0, true))),
                    Err(e) => Err(e),
                }
            }
        } else if key == "rollupTransactionHash"@ || key == "rollup_transaction_hash"@ {
            if seen[1] {
                Err(JsonErrorV::DuplicateField("rollupTransactionHash"@))
            } else {
                match read_string(v) {
                    Ok(x) => Ok((BridgeUnlockV { rollup_transaction_hash: x, ..m }, seen.update(1, true))),
                    Err(e) => Err(e),
                }
            }
        } else if key == "rollupExecResultHash"@ || key == "rollup_exec_result_hash"@ {
            if seen[2] {
                Err(JsonErrorV::DuplicateField("rollupExecResultHash"@))
            } else {
                match read_string(v) {
                    Ok(x) => Ok((BridgeUnlockV { rollup_exec_result_hash: x, ..m }, seen.update(2, true))),
                    Err(e) => Err(e),
                }
            }
        } else {
            Err(JsonErrorV::UnknownField(key))
        }
    }

    /// [`Self::spec_step`] as a function value.
    pub open spec fn step_fn() -> spec_fn((BridgeUnlockV, Seq<bool>), Seq<char>, JsonV) -> Result<(BridgeUnlockV, Seq<bool>), JsonErrorV> {
        |st: (BridgeUnlockV, Seq<bool>), key: Seq<char>, v: JsonV| Self::spec_step(st, key, v)
    }

    /// The state before the first member is read: the default message, no field seen.
    pub open spec fn spec_start() -> (BridgeUnlockV, Seq<bool>) {
        (Self::spec_default(), seq![false, false, false])
    }

    /// The message that a JSON value describes: an object whose keys each name a field
    /// (by its JSON name or its protobuf name), at most once each; fields that are not
    /// given keep their default. The first member that is refused gives the error.
    pub open spec fn spec_from_json(j: JsonV) -> Result<BridgeUnlockV, JsonErrorV> {
        match j {
            JsonV::Object(es) => match fold_entries(Self::spec_start(), es, Self::step_fn()) {
                Ok(st) => Ok(st.0),
                Err(e) => Err(e),
            },
            _ => Err(JsonErrorV::ExpectedObject),
        }
    }

    /// [`Self::spec_from_json`] as a function value, for repeated fields.
    pub open spec fn reader() -> spec_fn(JsonV) -> Result<BridgeUnlockV, JsonErrorV> {
        |v: JsonV| Self::spec_from_json(v)
    }

    /// An optional field of this message type: `null` leaves it unset.
    pub open spec fn spec_read_opt(v: JsonV) -> Result<Option<BridgeUnlockV>, JsonErrorV> {
        match v {
            JsonV::Null => Ok(None),
            _ => match Self::spec_from_json(v) {
                Ok(x) => Ok(Some(x)),
                Err(e) => Err(e),
            },
        }
    }

    fn step(m: Self, seen: Vec<bool>, key: &String, v: &Json) -> (r: Result<(Self, Vec<bool>), JsonError>)
        requires seen@.len() == 3,
        ensures
            match r {
                Ok((m2, seen2)) => Self::spec_step((m@, seen@), key@, v@) == Ok::<(BridgeUnlockV, Seq<bool>), JsonErrorV>((m2@, seen2@)) && seen2@.len() == 3,
                Err(e) => Self::spec_step((m@, seen@), key@, v@) == Err::<(BridgeUnlockV, Seq<bool>), JsonErrorV>(e@),
            },
    {
        let mut m = m;
        let mut seen = seen;
        let k = key.as_str();
        if str_eq(k, "rollupBlockNumber") || str_eq(k, "rollup_block_number") {
            if seen[0] {
                return Err(JsonError::DuplicateField("rollupBlockNumber".to_string()));
            }
            match u64_field(v) {
                Ok(x) => m.rollup_block_number = x,
                Err(e) => return Err(e),
            }
            seen.set(0, true);
        } else if str_eq(k, "rollupTransactionHash") || str_eq(k, "rollup_transaction_hash") {
            if seen[1] {
                return Err(JsonError::DuplicateField("rollupTransactionHash".to_string()));
            }
            match string_field(v) {
                Ok(x) => m.rollup_transaction_hash = x,
                Err(e) => return Err(e),
            }
            seen.set(1, true);
        } else if str_eq(k, "rollupExecResultHash") || str_eq(k, "rollup_exec_result_hash") {
            if seen[2] {
                return Err(JsonError::DuplicateField("rollupExecResultHash".to_string()));
            }
            match string_field(v) {
                Ok(x) => m.rollup_exec_result_hash = x,
                Err(e) => return Err(e),
            }
            seen.set(2, true);
        } else {
            return Err(JsonError::UnknownField(key.clone()));
        }
        Ok((m, seen))
    }

    /// Reads the message from a JSON value, as [`Self::spec_from_json`] describes.
    pub fn from_json(j: &Json) -> (r: Result<Self, JsonError>)
        ensures
            match r {
                Ok(m) => Self::spec_from_json(j@) == Ok::<BridgeUnlockV, JsonErrorV>(m@),
                Err(e) => Self::spec_from_json(j@) == Err::<BridgeUnlockV, JsonErrorV>(e@),
            },
    {
        let es = match j {
            Json::Object(es) => es,
            _ => return Err(JsonError::ExpectedObject),
        };
        let ghost ves = view_entries(es@);
        proof {
            lemma_view_entries_len(es@);
            assert(j@ == JsonV::Object(ves));
        }
        let mut m = Self::default();
        let mut seen: Vec<bool> = vec![false, false, false];
        let mut i: usize = 0;
        proof {
            assert(seen@ =~= Self::spec_start().1);
            assert(ves.skip(0) == ves);
        }
        while i < es.len()
            invariant
                j@ == JsonV::Object(ves),
                ves == view_entries(es@),
                ves.len() == es@.len(),
                i <= es.len(),
                seen@.len() == 3,
                fold_entries(Self::spec_start(), ves, Self::step_fn())
                    == fold_entries((m@, seen@), ves.skip(i as int), Self::step_fn()),
            decreases es.len() - i,
        {
            proof {
                lemma_view_entries_index(es@, i as int);
                lemma_fold_entries_step((m@, seen@), ves, i as int, Self::step_fn());
            }
            match Self::step(m, seen, &es[i].0, &es[i].1) {
                Ok((m2, seen2)) => {
                    m = m2;
                    seen = seen2;
                },
                Err(e) => return Err(e),
            }
            i = i + 1;
        }
        proof {
            assert(ves.skip(ves.len() as int) == Seq::<(Seq<char>, JsonV)>::empty());
            assert(fold_entries((m@, seen@), ves.skip(ves.len() as int), Self::step_fn())
                == Ok::<(BridgeUnlockV, Seq<bool>), JsonErrorV>((m@, seen@)));
        }
        Ok(m)
    }

    /// Reads an optional field of this message type.
    pub fn opt_from_json(v: &Json) -> (r: Result<Option<Self>, JsonError>)
        ensures
            match r {
                Ok(None) => Self::spec_read_opt(v@) == Ok::<Option<BridgeUnlockV>, JsonErrorV>(None),
                Ok(Some(x)) => Self::spec_read_opt(v@) == Ok::<Option<BridgeUnlockV>, JsonErrorV>(Some(x@)),
                Err(e) => Self::spec_read_opt(v@) == Err::<Option<BridgeUnlockV>, JsonErrorV>(e@),
            },
    {
        match v {
            Json::Null => Ok(None),
            _ => match Self::from_json(v) {
                Ok(x) => Ok(Some(x)),
                Err(e) => Err(e),
            },
        }
    }

    /// Reading the member that the field `rollup_block_number` writes sets the field.
    pub proof fn lemma_entry_rollup_block_number(m: BridgeUnlockV, st: (BridgeUnlockV, Seq<bool>))
        requires
            st.1.len() == 3,
            !st.1[0],
            st.0.rollup_block_number == 0,
        ensures
            fold_entries(st, Self::spec_entry_rollup_block_number(m), Self::step_fn()) == Ok::<(BridgeUnlockV, Seq<bool>), JsonErrorV>((BridgeUnlockV { rollup_block_number: m.rollup_block_number, ..st.0 }, if m.rollup_block_number != 0 { st.1.update(0, true) } else { st.1 })),
    {
        reveal_strlit("rollupBlockNumber");
        reveal_strlit("rollup_block_number");
        reveal_strlit("rollupTransactionHash");
        reveal_strlit("rollup_transaction_hash");
        reveal_strlit("rollupExecResultHash");
        reveal_strlit("rollup_exec_result_hash");
        assert("rollupBlockNumber"@.len() == 17);
        assert("rollup_block_number"@.len() == 19);
        assert("rollupTransactionHash"@.len() == 21);
        assert("rollup_transaction_hash"@.len() == 23);
        assert("rollupExecResultHash"@.len() == 20);
        assert("rollup_exec_result_hash"@.len() == 23);
        assert("rollup_transaction_hash"@[7] != "rollup_exec_result_hash"@[7]);
        lemma_read_u64_value(m.rollup_block_number);
        lemma_fold_entry_if(st, m.rollup_block_number != 0, "rollupBlockNumber"@, JsonV::Str(decimal(m.rollup_block_number as nat)), Self::step_fn());
    }

    /// Reading the member that the field `rollup_transaction_hash` writes sets the field.
    pub proof fn lemma_entry_rollup_transaction_hash(m: BridgeUnlockV, st: (BridgeUnlockV, Seq<bool>))
        requires
            st.1.len() == 3,
            !st.1[1],
            st.0.rollup_transaction_hash == Seq::<char>::empty(),
        ensures
            fold_entries(st, Self::spec_entry_rollup_transaction_hash(m), Self::step_fn()) == Ok::<(BridgeUnlockV, Seq<bool>), JsonErrorV>((BridgeUnlockV { rollup_transaction_hash: m.rollup_transaction_hash, ..st.0 }, if m.rollup_transaction_hash.len() != 0 { st.1.update(1, true) } else { st.1 })),
    {
        reveal_strlit("rollupBlockNumber");
        reveal_strlit("rollup_block_number");
        reveal_strlit("rollupTransactionHash");
        reveal_strlit("rollup_transaction_hash");
        reveal_strlit("rollupExecResultHash");
        reveal_strlit("rollup_exec_result_hash");
        assert("rollupBlockNumber"@.len() == 17);
        assert("rollup_block_number"@.len() == 19);
        assert("rollupTransactionHash"@.len() == 21);
        assert("rollup_transaction_hash"@.len() == 23);
        assert("rollupExecResultHash"@.len() == 20);
        assert("rollup_exec_result_hash"@.len() == 23);
        assert("rollup_transaction_hash"@[7] != "rollup_exec_result_hash"@[7]);
        if m.rollup_transaction_hash.len() == 0 {
            assert(m.rollup_transaction_hash =~= Seq::<char>::empty());
        }
        lemma_fold_entry_if(st, m.rollup_transaction_hash.len() != 0, "rollupTransactionHash"@, JsonV::Str(m.rollup_transaction_hash), Self::step_fn());
    }

    /// Reading the member that the field `rollup_exec_result_hash` writes sets the field.
    pub proof fn lemma_entry_rollup_exec_result_hash(m: BridgeUnlockV, st: (BridgeUnlockV, Seq<bool>))
        requires
            st.1.len() == 3,
            !st.1[2],
            st.0.rollup_exec_result_hash == Seq::<char>::empty(),
        ensures
            fold_entries(st, Self::spec_entry_rollup_exec_result_hash(m), Self::step_fn()) == Ok::<(BridgeUnlockV, Seq<bool>), JsonErrorV>((BridgeUnlockV { rollup_exec_result_hash: m.rollup_exec_result_hash, ..st.0 }, if m.rollup_exec_result_hash.len() != 0 { st.1.update(2, true) } else { st.1 })),
    {
        reveal_strlit("rollupBlockNumber");
        reveal_strlit("rollup_block_number");
        reveal_strlit("rollupTransactionHash");
        reveal_strlit("rollup_transaction_hash");
        reveal_strlit("rollupExecResultHash");
        reveal_strlit("rollup_exec_result_hash");
        assert("rollupBlockNumber"@.len() == 17);
        assert("rollup_block_number"@.len() == 19);
        assert("rollupTransactionHash"@.len() == 21);
        assert("rollup_transaction_hash"@.len() == 23);
        assert("rollupExecResultHash"@.len() == 20);
        assert("rollup_exec_result_hash"@.len() == 23);
        assert("rollup_transaction_hash"@[7] != "rollup_exec_result_hash"@[7]);
        if m.rollup_exec_result_hash.len() == 0 {
            assert(m.rollup_exec_result_hash =~= Seq::<char>::empty());
        }
        lemma_fold_entry_if(st, m.rollup_exec_result_hash.len() != 0, "rollupExecResultHash"@, JsonV::Str(m.rollup_exec_result_hash), Self::step_fn());
    }

    /// The JSON spelling of a key: the protobuf name of a field becomes its JSON name;
    /// a JSON name, and any key that names no field, is left as it is.
    pub open spec fn spec_json_key(key: Seq<char>) -> Seq<char> {
        if key == "rollupBlockNumber"@ || key == "rollup_block_number"@ {
            "rollupBlockNumber"@
        } else if key == "rollupTransactionHash"@ || key == "rollup_transaction_hash"@ {
            "rollupTransactionHash"@
        } else if key == "rollupExecResultHash"@ || key == "rollup_exec_result_hash"@ {
            "rollupExecResultHash"@
        } else {
            key
        }
    }

    /// [`Self::spec_json_key`] as a function value.
    pub open spec fn json_key_fn() -> spec_fn(Seq<char>) -> Seq<char> {
        |key: Seq<char>| Self::spec_json_key(key)
    }

    /// One member is read alike whichever spelling its key has.
    pub proof fn lemma_step_json_key(st: (BridgeUnlockV, Seq<bool>), key: Seq<char>, v: JsonV)
        ensures Self::spec_step(st, key, v) == Self::spec_step(st, Self::spec_json_key(key), v),
    {
        reveal_strlit("rollupBlockNumber");
        reveal_strlit("rollup_block_number");
        reveal_strlit("rollupTransactionHash");
        reveal_strlit("rollup_transaction_hash");
        reveal_strlit("rollupExecResultHash");
        reveal_strlit("rollup_exec_result_hash");
        assert("rollupBlockNumber"@.len() == 17);
        assert("rollup_block_number"@.len() == 19);
        assert("rollupTransactionHash"@.len() == 21);
        assert("rollup_transaction_hash"@.len() == 23);
        assert("rollupExecResultHash"@.len() == 20);
        assert("rollup_exec_result_hash"@.len() == 23);
        assert("rollup_transaction_hash"@[7] != "rollup_exec_result_hash"@[7]);
        if key == "rollup_block_number"@ {
            assert(Self::spec_json_key(key) == "rollupBlockNumber"@);
        }
        if key == "rollup_transaction_hash"@ {
            assert(Self::spec_json_key(key) == "rollupTransactionHash"@);
        }
        if key == "rollup_exec_result_hash"@ {
            assert(Self::spec_json_key(key) == "rollupExecResultHash"@);
        }
    }

    /// Reading an object gives the same result whichever spelling each of its keys has:
    /// two objects whose members hold the same values, in the same order, under keys of
    /// the same JSON spelling describe the same message, or are refused with the same error.
    pub proof fn lemma_key_spelling(es1: Seq<(Seq<char>, JsonV)>, es2: Seq<(Seq<char>, JsonV)>)
        requires
            es1.len() == es2.len(),
            forall|i: int| #![trigger es1[i], es2[i]] 0 <= i < es1.len() ==> es1[i].1 == es2[i].1 && Self::spec_json_key(es1[i].0) == Self::spec_json_key(es2[i].0),
        ensures Self::spec_from_json(JsonV::Object(es1)) == Self::spec_from_json(JsonV::Object(es2)),
    {
        assert forall|s: (BridgeUnlockV, Seq<bool>), k: Seq<char>, v: JsonV|
            #![trigger Self::step_fn()(s, k, v), Self::json_key_fn()(k)]
            Self::step_fn()(s, k, v) == Self::step_fn()(s, Self::json_key_fn()(k), v) by {
            Self::lemma_step_json_key(s, k, v);
        }
        lemma_fold_same_keys(Self::spec_start(), es1, es2, Self::step_fn(), Self::json_key_fn());
    }

    /// The keys of the object that the message writes: the JSON names of the fields that
    /// do not hold their default (for a oneof, the JSON name of the member set), in the
    /// order of the fields.
    pub open spec fn spec_written_keys(m: BridgeUnlockV) -> Seq<Seq<char>> {
        key_if(m.rollup_block_number != 0, "rollupBlockNumber"@)
            + key_if(m.rollup_transaction_hash.len() != 0, "rollupTransactionHash"@)
            + key_if(m.rollup_exec_result_hash.len() != 0, "rollupExecResultHash"@)
    }

    /// The object that the message writes has exactly the keys of
    /// [`Self::spec_written_keys`], in that order.
    pub proof fn lemma_written_keys(m: BridgeUnlockV)
        ensures
            Self::spec_to_json(m) == JsonV::Object(Self::spec_entries(m)),
            entry_keys(Self::spec_entries(m)) == Self::spec_written_keys(m),
    {
        lemma_entry_keys_if(m.rollup_block_number != 0, "rollupBlockNumber"@, JsonV::Str(decimal(m.rollup_block_number as nat)));
        lemma_entry_keys_append(Self::spec_entry_rollup_block_number(m), m.rollup_transaction_hash.len() != 0, "rollupTransactionHash"@, JsonV::Str(m.rollup_transaction_hash));
        lemma_entry_keys_append(Self::spec_entry_rollup_block_number(m) + Self::spec_entry_rollup_transaction_hash(m), m.rollup_exec_result_hash.len() != 0, "rollupExecResultHash"@, JsonV::Str(m.rollup_exec_result_hash));
    }

    /// Whether the field whose JSON name is `name` holds its default in `m`; for a member
    /// of a oneof, whether the oneof is set to another member or unset. `true` for a name
    /// that names no field.
    pub open spec fn spec_holds_default(m: BridgeUnlockV, name: Seq<char>) -> bool {
        if name == "rollupBlockNumber"@ {
            m.rollup_block_number == 0
        } else if name == "rollupTransactionHash"@ {
            m.rollup_transaction_hash == Seq::<char>::empty()
        } else if name == "rollupExecResultHash"@ {
            m.rollup_exec_result_hash == Seq::<char>::empty()
        } else {
            true
        }
    }

    /// Whether reading `v` for the field whose JSON name is `name` leaves the field at
    /// its default: `null`, for a field that takes it (a message field, a member of a
    /// oneof); nothing, for any other field. `true` for a name that names no field.
    pub open spec fn spec_leaves_default(name: Seq<char>, v: JsonV) -> bool {
        if name == "rollupBlockNumber"@ {
            false
        } else if name == "rollupTransactionHash"@ {
            false
        } else if name == "rollupExecResultHash"@ {
            false
        } else {
            true
        }
    }

    /// Reading one member keeps a field at its default unless the key names the field
    /// and the value does not leave it there.
    pub proof fn lemma_step_keeps_default(st: (BridgeUnlockV, Seq<bool>), key: Seq<char>, v: JsonV, name: Seq<char>)
        requires
            Self::spec_holds_default(st.0, name),
            Self::spec_json_key(key) == name ==> Self::spec_leaves_default(name, v),
        ensures
            Self::spec_step(st, key, v) is Ok ==> Self::spec_holds_default(Self::spec_step(st, key, v)->Ok_0.0, name),
    {
        reveal_strlit("rollupBlockNumber");
        reveal_strlit("rollup_block_number");
        reveal_strlit("rollupTransactionHash");
        reveal_strlit("rollup_transaction_hash");
        reveal_strlit("rollupExecResultHash");
        reveal_strlit("rollup_exec_result_hash");
        assert("rollupBlockNumber"@.len() == 17);
        assert("rollup_block_number"@.len() == 19);
        assert("rollupTransactionHash"@.len() == 21);
        assert("rollup_transaction_hash"@.len() == 23);
        assert("rollupExecResultHash"@.len() == 20);
        assert("rollup_exec_result_hash"@.len() == 23);
        assert("rollup_transaction_hash"@[7] != "rollup_exec_result_hash"@[7]);
        Self::lemma_step_json_key(st, key, v);
    }

    /// A field whose key appears in no member of an object, or only with values that
    /// leave it at its default (`null`, for a field that takes it), holds its default in
    /// the message that the object describes.
    pub proof fn lemma_absent_default(es: Seq<(Seq<char>, JsonV)>, name: Seq<char>)
        requires
            forall|i: int| 0 <= i < es.len() ==> (Self::spec_json_key((#[trigger] es[i]).0) == name
                ==> Self::spec_leaves_default(name, es[i].1)),
        ensures
            Self::spec_from_json(JsonV::Object(es)) is Ok
                ==> Self::spec_holds_default(Self::spec_from_json(JsonV::Object(es))->Ok_0, name),
    {
        let inv = |s: (BridgeUnlockV, Seq<bool>)| Self::spec_holds_default(s.0, name);
        let allowed = |k: Seq<char>, v: JsonV| Self::spec_json_key(k) == name ==> Self::spec_leaves_default(name, v);
        assert forall|s: (BridgeUnlockV, Seq<bool>), k: Seq<char>, v: JsonV| #![trigger Self::step_fn()(s, k, v)]
            inv(s) && allowed(k, v) && Self::step_fn()(s, k, v) is Ok implies inv(Self::step_fn()(s, k, v)->Ok_0) by {
            Self::lemma_step_keeps_default(s, k, v, name);
        }
        assert(inv(Self::spec_start()));
        lemma_fold_keeps(Self::spec_start(), es, Self::step_fn(), inv, allowed);
    }

    /// The field `rollup_block_number` alone: an object with one member under its JSON or protobuf
    /// name reads as the message with that field set and every other field at its
    /// default, and the message with only that field off its default writes that
    /// one member under the JSON name.
    pub proof fn lemma_field_rollup_block_number(v: u64)
        ensures
            Self::spec_from_json(JsonV::Object(seq![("rollupBlockNumber"@, JsonV::Unsigned(v))])) == Ok::<BridgeUnlockV, JsonErrorV>(BridgeUnlockV { rollup_block_number: v, ..Self::spec_default() }),
            Self::spec_from_json(JsonV::Object(seq![("rollupBlockNumber"@, JsonV::Str(decimal(v as nat)))])) == Ok::<BridgeUnlockV, JsonErrorV>(BridgeUnlockV { rollup_block_number: v, ..Self::spec_default() }),
            Self::spec_from_json(JsonV::Object(seq![("rollup_block_number"@, JsonV::Unsigned(v))])) == Ok::<BridgeUnlockV, JsonErrorV>(BridgeUnlockV { rollup_block_number: v, ..Self::spec_default() }),
            Self::spec_from_json(JsonV::Object(seq![("rollup_block_number"@, JsonV::Str(decimal(v as nat)))])) == Ok::<BridgeUnlockV, JsonErrorV>(BridgeUnlockV { rollup_block_number: v, ..Self::spec_default() }),
            v != 0 ==> Self::spec_to_json(BridgeUnlockV { rollup_block_number: v, ..Self::spec_default() }) == JsonV::Object(seq![("rollupBlockNumber"@, JsonV::Str(decimal(v as nat)))]),
    {
        reveal_strlit("rollupBlockNumber");
        reveal_strlit("rollup_block_number");
        reveal_strlit("rollupTransactionHash");
        reveal_strlit("rollup_transaction_hash");
        reveal_strlit("rollupExecResultHash");
        reveal_strlit("rollup_exec_result_hash");
        assert("rollupBlockNumber"@.len() == 17);
        assert("rollup_block_number"@.len() == 19);
        assert("rollupTransactionHash"@.len() == 21);
        assert("rollup_transaction_hash"@.len() == 23);
        assert("rollupExecResultHash"@.len() == 20);
        assert("rollup_exec_result_hash"@.len() == 23);
        assert("rollup_transaction_hash"@[7] != "rollup_exec_result_hash"@[7]);
        lemma_read_u64_value(v);
        lemma_fold_entry_if(Self::spec_start(), true, "rollupBlockNumber"@, JsonV::Unsigned(v), Self::step_fn());
        lemma_fold_entry_if(Self::spec_start(), true, "rollupBlockNumber"@, JsonV::Str(decimal(v as nat)), Self::step_fn());
        lemma_fold_entry_if(Self::spec_start(), true, "rollup_block_number"@, JsonV::Unsigned(v), Self::step_fn());
        lemma_fold_entry_if(Self::spec_start(), true, "rollup_block_number"@, JsonV::Str(decimal(v as nat)), Self::step_fn());
    }

    /// The field `rollup_transaction_hash` alone: an object with one member under its JSON or protobuf
    /// name reads as the message with that field set and every other field at its
    /// default, and the message with only that field off its default writes that
    /// one member under the JSON name.
    pub proof fn lemma_field_rollup_transaction_hash(s: Seq<char>)
        ensures
            Self::spec_from_json(JsonV::Object(seq![("rollupTransactionHash"@, JsonV::Str(s))])) == Ok::<BridgeUnlockV, JsonErrorV>(BridgeUnlockV { rollup_transaction_hash: s, ..Self::spec_default() }),
            Self::spec_from_json(JsonV::Object(seq![("rollup_transaction_hash"@, JsonV::Str(s))])) == Ok::<BridgeUnlockV, JsonErrorV>(BridgeUnlockV { rollup_transaction_hash: s, ..Self::spec_default() }),
            s.len() > 0 ==> Self::spec_to_json(BridgeUnlockV { rollup_transaction_hash: s, ..Self::spec_default() }) == JsonV::Object(seq![("rollupTransactionHash"@, JsonV::Str(s))]),
    {
        reveal_strlit("rollupBlockNumber");
        reveal_strlit("rollup_block_number");
        reveal_strlit("rollupTransactionHash");
        reveal_strlit("rollup_transaction_hash");
        reveal_strlit("rollupExecResultHash");
        reveal_strlit("rollup_exec_result_hash");
        assert("rollupBlockNumber"@.len() == 17);
        assert("rollup_block_number"@.len() == 19);
        assert("rollupTransactionHash"@.len() == 21);
        assert("rollup_transaction_hash"@.len() == 23);
        assert("rollupExecResultHash"@.len() == 20);
        assert("rollup_exec_result_hash"@.len() == 23);
        assert("rollup_transaction_hash"@[7] != "rollup_exec_result_hash"@[7]);
        lemma_fold_entry_if(Self::spec_start(), true, "rollupTransactionHash"@, JsonV::Str(s), Self::step_fn());
        lemma_fold_entry_if(Self::spec_start(), true, "rollup_transaction_hash"@, JsonV::Str(s), Self::step_fn());
    }

    /// The field `rollup_exec_result_hash` alone: an object with one member under its JSON or protobuf
    /// name reads as the message with that field set and every other field at its
    /// default, and the message with only that field off its default writes that
    /// one member under the JSON name.
    pub proof fn lemma_field_rollup_exec_result_hash(s: Seq<char>)
        ensures
            Self::spec_from_json(JsonV::Object(seq![("rollupExecResultHash"@, JsonV::Str(s))])) == Ok::<BridgeUnlockV, JsonErrorV>(BridgeUnlockV { rollup_exec_result_hash: s, ..Self::spec_default() }),
            Self::spec_from_json(JsonV::Object(seq![("rollup_exec_result_hash"@, JsonV::Str(s))])) == Ok::<BridgeUnlockV, JsonErrorV>(BridgeUnlockV { rollup_exec_result_hash: s, ..Self::spec_default() }),
            s.len() > 0 ==> Self::spec_to_json(BridgeUnlockV { rollup_exec_result_hash: s, ..Self::spec_default() }) == JsonV::Object(seq![("rollupExecResultHash"@, JsonV::Str(s))]),
    {
        reveal_strlit("rollupBlockNumber");
        reveal_strlit("rollup_block_number");
        reveal_strlit("rollupTransactionHash");
        reveal_strlit("rollup_transaction_hash");
        reveal_strlit("rollupExecResultHash");
        reveal_strlit("rollup_exec_result_hash");
        assert("rollupBlockNumber"@.len() == 17);
        assert("rollup_block_number"@.len() == 19);
        assert("rollupTransactionHash"@.len() == 21);
        assert("rollup_transaction_hash"@.len() == 23);
        assert("rollupExecResultHash"@.len() == 20);
        assert("rollup_exec_result_hash"@.len() == 23);
        assert("rollup_transaction_hash"@[7] != "rollup_exec_result_hash"@[7]);
        lemma_fold_entry_if(Self::spec_start(), true, "rollupExecResultHash"@, JsonV::Str(s), Self::step_fn());
        lemma_fold_entry_if(Self::spec_start(), true, "rollup_exec_result_hash"@, JsonV::Str(s), Self::step_fn());
    }

    /// Reading back the JSON object of a message gives the message.
    pub proof fn lemma_json_roundtrip(m: BridgeUnlockV)
        ensures Self::spec_from_json(Self::spec_to_json(m)) == Ok::<BridgeUnlockV, JsonErrorV>(m),
    {
        let step = Self::step_fn();
        let s0 = Self::spec_start();
        let s1 = (BridgeUnlockV { rollup_block_number: m.rollup_block_number, ..s0.0 }, if m.rollup_block_number != 0 { s0.1.update(0, true) } else { s0.1 });
        Self::lemma_entry_rollup_block_number(m, s0);
        let s2 = (BridgeUnlockV { rollup_transaction_hash: m.rollup_transaction_hash, ..s1.0 }, if m.rollup_transaction_hash.len() != 0 { s1.1.update(1, true) } else { s1.1 });
        Self::lemma_entry_rollup_transaction_hash(m, s1);
        let s3 = (BridgeUnlockV { rollup_exec_result_hash: m.rollup_exec_result_hash, ..s2.0 }, if m.rollup_exec_result_hash.len() != 0 { s2.1.update(2, true) } else { s2.1 });
        Self::lemma_entry_rollup_exec_result_hash(m, s2);
        let p1 = Self::spec_entry_rollup_block_number(m);
        let p2 = p1 + Self::spec_entry_rollup_transaction_hash(m);
        lemma_fold_entries_append(s0, p1, Self::spec_entry_rollup_transaction_hash(m), step);
        let p3 = p2 + Self::spec_entry_rollup_exec_result_hash(m);
        lemma_fold_entries_append(s0, p2, Self::spec_entry_rollup_exec_result_hash(m), step);
        assert(s3.0 == m);
    }
}

/// The `astria.protocol.memos.v1alpha1.Ics20WithdrawalFromRollup` message.
///
/// Memo for an ICS20 withdrawal from the rollup which is sent to
/// an external IBC-enabled chain.
#[derive(Clone, Debug, PartialEq)]
pub struct Ics20WithdrawalFromRollup {
    /// The block number on the rollup that triggered the transaction underlying
    /// this ics20 withdrawal memo.
    pub rollup_block_number: u64,
    /// The hash of the original rollup transaction that triggered this ics20
    /// withdrawal and that is underlying this bridge unlock memo.
    ///
    /// This field is of type `string` so that it can be formatted in the preferred
    /// format of the rollup when targeting plain text encoding.
    pub rollup_transaction_hash: String,
    /// The return address on the rollup to which funds should returned in case of
    /// failure. This field exists so that the rollup can identify which account
    /// the returned funds originated from.
    ///
    /// This field is of type `string` so that it can be formatted in the preferred
    /// format of the rollup when targeting plain text encoding.
    pub rollup_return_address: String,
    /// A field that can be populated by the rollup. It is assumed that this field
    /// will be consumed by the downstream chain.
    pub memo: String,
    /// A hash of the execution proof that transaction was executed on the rollup.
    /// This is included because in many rollups simply including the transaction
    /// is not the same as executing, inclusion of this data enables future
    /// verification of the execution.
    ///
    /// This field is of type `string` so that it can be formatted in the preferred
    /// format of the rollup when targeting plain text encoding.
    pub rollup_exec_result_hash: String,
}

/// The mathematical content of an [`Ics20WithdrawalFromRollup`].
pub struct Ics20WithdrawalFromRollupV {
    pub rollup_block_number: u64,
    pub rollup_transaction_hash: Seq<char>,
    pub rollup_return_address: Seq<char>,
    pub memo: Seq<char>,
    pub rollup_exec_result_hash: Seq<char>,
}

impl View for Ics20WithdrawalFromRollup {
    type V = Ics20WithdrawalFromRollupV;

    open spec fn view(&self) -> Ics20WithdrawalFromRollupV {
        Ics20WithdrawalFromRollupV {
            rollup_block_number: self.rollup_block_number,
            rollup_transaction_hash: self.rollup_transaction_hash@,
            rollup_return_address: self.rollup_return_address@,
            memo: self.memo@,
            rollup_exec_result_hash: self.rollup_exec_result_hash@,
        }
    }
}

impl Default for Ics20WithdrawalFromRollup {
    fn default() -> (r: Self)
        ensures r@ == Ics20WithdrawalFromRollup::spec_default(),
    {
        let r = Ics20WithdrawalFromRollup {
            rollup_block_number: 0,
            rollup_transaction_hash: String::new(),
            rollup_return_address: String::new(),
            memo: String::new(),
            rollup_exec_result_hash: String::new(),
        };
        r
    }
}

impl Ics20WithdrawalFromRollup {
    /// The fully qualified protobuf name of the message.
    pub fn full_name() -> (r: String)
        ensures r@ == "astria.protocol.memos.v1alpha1.Ics20WithdrawalFromRollup"@,
    {
        "astria.protocol.memos.v1alpha1.Ics20WithdrawalFromRollup".to_string()
    }

    /// Every field at its default: empty strings, bytes and lists, zero, `false`, unset.
    pub open spec fn spec_default() -> Ics20WithdrawalFromRollupV {
        Ics20WithdrawalFromRollupV {
            rollup_block_number: 0,
            rollup_transaction_hash: Seq::<char>::empty(),
            rollup_return_address: Seq::<char>::empty(),
            memo: Seq::<char>::empty(),
            rollup_exec_result_hash: Seq::<char>::empty(),
        }
    }

    /// The view of an optional field of this message type.
    pub open spec fn view_opt(o: Option<Self>) -> Option<Ics20WithdrawalFromRollupV> {
        match o {
            Some(x) => Some(x@),
            None => None,
        }
    }

    /// The view of a repeated field of this message type.
    pub open spec fn view_list(v: Seq<Self>) -> Seq<Ics20WithdrawalFromRollupV> {
        v.map_values(|x: Self| x@)
    }

    /// The member that the field `rollup_block_number` writes: none where it holds its default.
    pub open spec fn spec_entry_rollup_block_number(m: Ics20WithdrawalFromRollupV) -> Seq<(Seq<char>, JsonV)> {
        entry_if(m.rollup_block_number != 0, "rollupBlockNumber"@, JsonV::Str(decimal(m.rollup_block_number as nat)))
    }

    /// The member that the field `rollup_transaction_hash` writes: none where it holds its default.
    pub open spec fn spec_entry_rollup_transaction_hash(m: Ics20WithdrawalFromRollupV) -> Seq<(Seq<char>, JsonV)> {
        entry_if(m.rollup_transaction_hash.len() != 0, "rollupTransactionHash"@, JsonV::Str(m.rollup_transaction_hash))
    }

    /// The member that the field `rollup_return_address` writes: none where it holds its default.
    pub open spec fn spec_entry_rollup_return_address(m: Ics20WithdrawalFromRollupV) -> Seq<(Seq<char>, JsonV)> {
        entry_if(m.rollup_return_address.len() != 0, "rollupReturnAddress"@, JsonV::Str(m.rollup_return_address))
    }

    /// The member that the field `memo` writes: none where it holds its default.
    pub open spec fn spec_entry_memo(m: Ics20WithdrawalFromRollupV) -> Seq<(Seq<char>, JsonV)> {
        entry_if(m.memo.len() != 0, "memo"@, JsonV::Str(m.memo))
    }

    /// The member that the field `rollup_exec_result_hash` writes: none where it holds its default.
    pub open spec fn spec_entry_rollup_exec_result_hash(m: Ics20WithdrawalFromRollupV) -> Seq<(Seq<char>, JsonV)> {
        entry_if(m.rollup_exec_result_hash.len() != 0, "rollupExecResultHash"@, JsonV::Str(m.rollup_exec_result_hash))
    }

    /// The members of the JSON object of the message: each field that does not hold
    /// its default, under its JSON name, in the order of the fields.
    pub open spec fn spec_entries(m: Ics20WithdrawalFromRollupV) -> Seq<(Seq<char>, JsonV)> {
        Self::spec_entry_rollup_block_number(m) + Self::spec_entry_rollup_transaction_hash(m) + Self::spec_entry_rollup_return_address(m) + Self::spec_entry_memo(m) + Self::spec_entry_rollup_exec_result_hash(m)
    }

    /// The JSON object that the protobuf JSON mapping writes for the message.
    pub open spec fn spec_to_json(m: Ics20WithdrawalFromRollupV) -> JsonV {
        JsonV::Object(Self::spec_entries(m))
    }

    /// [`Self::spec_to_json`] as a function value, for repeated fields.
    pub open spec fn writer() -> spec_fn(Ics20WithdrawalFromRollupV) -> JsonV {
        |m: Ics20WithdrawalFromRollupV| Self::spec_to_json(m)
    }

    fn write_rollup_block_number(&self, es: &mut Vec<(String, Json)>)
        ensures
            view_entries(final(es)@) == view_entries(old(es)@) + Self::spec_entry_rollup_block_number(self@),
    {
        if self.rollup_block_number != 0 {
            push_entry(es, "rollupBlockNumber", u64_value(self.rollup_block_number));
        }
        assert(view_entries(es@) =~= view_entries(old(es)@) + Self::spec_entry_rollup_block_number(self@));
    }

    fn write_rollup_transaction_hash(&self, es: &mut Vec<(String, Json)>)
        ensures
            view_entries(final(es)@) == view_entries(old(es)@) + Self::spec_entry_rollup_transaction_hash(self@),
    {
        if !self.rollup_transaction_hash.as_str().is_empty() {
            push_entry(es, "rollupTransactionHash", string_value(&self.rollup_transaction_hash));
        }
        assert(view_entries(es@) =~= view_entries(old(es)@) + Self::spec_entry_rollup_transaction_hash(self@));
    }

    fn write_rollup_return_address(&self, es: &mut Vec<(String, Json)>)
        ensures
            view_entries(final(es)@) == view_entries(old(es)@) + Self::spec_entry_rollup_return_address(self@),
    {
        if !self.rollup_return_address.as_str().is_empty() {
            push_entry(es, "rollupReturnAddress", string_value(&self.rollup_return_address));
        }
        assert(view_entries(es@) =~= view_entries(old(es)@) + Self::spec_entry_rollup_return_address(self@));
    }

    fn write_memo(&self, es: &mut Vec<(String, Json)>)
        ensures
            view_entries(final(es)@) == view_entries(old(es)@) + Self::spec_entry_memo(self@),
    {
        if !self.memo.as_str().is_empty() {
            push_entry(es, "memo", string_value(&self.memo));
        }
        assert(view_entries(es@) =~= view_entries(old(es)@) + Self::spec_entry_memo(self@));
    }

    fn write_rollup_exec_result_hash(&self, es: &mut Vec<(String, Json)>)
        ensures
            view_entries(final(es)@) == view_entries(old(es)@) + Self::spec_entry_rollup_exec_result_hash(self@),
    {
        if !self.rollup_exec_result_hash.as_str().is_empty() {
            push_entry(es, "rollupExecResultHash", string_value(&self.rollup_exec_result_hash));
        }
        assert(view_entries(es@) =~= view_entries(old(es)@) + Self::spec_entry_rollup_exec_result_hash(self@));
    }

    /// Writes the message as a JSON object; reading it back gives the message.
    pub fn to_json(&self) -> (r: Json)
        ensures
            r@ == Self::spec_to_json(self@),
            Self::spec_from_json(r@) == Ok::<Ics20WithdrawalFromRollupV, JsonErrorV>(self@),
    {
        let mut es: Vec<(String, Json)> = Vec::new();
        let ghost mut acc: Seq<(Seq<char>, JsonV)> = Seq::empty();
        proof {
            assert(view_entries(es@) =~= acc);
        }
        self.write_rollup_block_number(&mut es);
        proof {
            acc = acc + Self::spec_entry_rollup_block_number(self@);
        }
        self.write_rollup_transaction_hash(&mut es);
        proof {
            acc = acc + Self::spec_entry_rollup_transaction_hash(self@);
        }
        self.write_rollup_return_address(&mut es);
        proof {
            acc = acc + Self::spec_entry_rollup_return_address(self@);
        }
        self.write_memo(&mut es);
        proof {
            acc = acc + Self::spec_entry_memo(self@);
        }
        self.write_rollup_exec_result_hash(&mut es);
        proof {
            acc = acc + Self::spec_entry_rollup_exec_result_hash(self@);
        }
        proof {
            assert(acc =~= Self::spec_entries(self@));
            Self::lemma_json_roundtrip(self@);
        }
        Json::Object(es)
    }

    /// Reads one member of the object into the message under construction; `seen`
    /// records which fields that have no unset state were already given.
    pub open spec fn spec_step(st: (Ics20WithdrawalFromRollupV, Seq<bool>), key: Seq<char>, v: JsonV) -> Result<(Ics20WithdrawalFromRollupV, Seq<bool>), JsonErrorV> {
        let m = st.0;
        let seen = st.1;
        if key == "rollupBlockNumber"@ || key == "rollup_block_number"@ {
            if seen[0] {
                Err(JsonErrorV::DuplicateField("rollupBlockNumber"@))
            } else {
                match read_u64(v) {
                    Ok(x) => Ok((Ics20WithdrawalFromRollupV { rollup_block_number: x, ..m }, seen.update(0, true))),
                    Err(e) => Err(e),
                }
            }
        } else if key == "rollupTransactionHash"@ || key == "rollup_transaction_hash"@ {
            if seen[1] {
                Err(JsonErrorV::DuplicateField("rollupTransactionHash"@))
            } else {
                match read_string(v) {
                    Ok(x) => Ok((Ics20WithdrawalFromRollupV { rollup_transaction_hash: x, ..m }, seen.update(1, true))),
                    Err(e) => Err(e),
                }
            }
        } else if key == "rollupReturnAddress"@ || key == "rollup_return_address"@ {
            if seen[2] {
                Err(JsonErrorV::DuplicateField("rollupReturnAddress"@))
            } else {
                match read_string(v) {
                    Ok(x) => Ok((Ics20WithdrawalFromRollupV { rollup_return_address: x, ..m }, seen.update(2, true))),
                    Err(e) => Err(e),
                }
            }
        } else if key == "memo"@ {
            if seen[3] {
                Err(JsonErrorV::DuplicateField("memo"@))
            } else {
                match read_string(v) {
                    Ok(x) => Ok((Ics20WithdrawalFromRollupV { memo: x, ..m }, seen.update(3, true))),
                    Err(e) => Err(e),
                }
            }
        } else if key == "rollupExecResultHash"@ || key == "rollup_exec_result_hash"@ {
            if seen[4] {
                Err(JsonErrorV::DuplicateField("rollupExecResultHash"@))
            } else {
                match read_string(v) {
                    Ok(x) => Ok((Ics20WithdrawalFromRollupV { rollup_exec_result_hash: x, ..m }, seen.update(4, true))),
                    Err(e) => Err(e),
                }
            }
        } else {
            Err(JsonErrorV::UnknownField(key))
        }
    }

    /// [`Self::spec_step`] as a function value.
    pub open spec fn step_fn() -> spec_fn((Ics20WithdrawalFromRollupV, Seq<bool>), Seq<char>, JsonV) -> Result<(Ics20WithdrawalFromRollupV, Seq<bool>), JsonErrorV> {
        |st: (Ics20WithdrawalFromRollupV, Seq<bool>), key: Seq<char>, v: JsonV| Self::spec_step(st, key, v)
    }

    /// The state before the first member is read: the default message, no field seen.
    pub open spec fn spec_start() -> (Ics20WithdrawalFromRollupV, Seq<bool>) {
        (Self::spec_default(), seq![false, false, false, false, false])
    }

    /// The message that a JSON value describes: an object whose keys each name a field
    /// (by its JSON name or its protobuf name), at most once each; fields that are not
    /// given keep their default. The first member that is refused gives the error.
    pub open spec fn spec_from_json(j: JsonV) -> Result<Ics20WithdrawalFromRollupV, JsonErrorV> {
        match j {
            JsonV::Object(es) => match fold_entries(Self::spec_start(), es, Self::step_fn()) {
                Ok(st) => Ok(st.0),
                Err(e) => Err(e),
            },
            _ => Err(JsonErrorV::ExpectedObject),
        }
    }

    /// [`Self::spec_from_json`] as a function value, for repeated fields.
    pub open spec fn reader() -> spec_fn(JsonV) -> Result<Ics20WithdrawalFromRollupV, JsonErrorV> {
        |v: JsonV| Self::spec_from_json(v)
    }

    /// An optional field of this message type: `null` leaves it unset.
    pub open spec fn spec_read_opt(v: JsonV) -> Result<Option<Ics20WithdrawalFromRollupV>, JsonErrorV> {
        match v {
            JsonV::Null => Ok(None),
            _ => match Self::spec_from_json(v) {
                Ok(x) => Ok(Some(x)),
                Err(e) => Err(e),
            },
        }
    }

    fn step(m: Self, seen: Vec<bool>, key: &String, v: &Json) -> (r: Result<(Self, Vec<bool>), JsonError>)
        requires seen@.len() == 5,
        ensures
            match r {
                Ok((m2, seen2)) => Self::spec_step((m@, seen@), key@, v@) == Ok::<(Ics20WithdrawalFromRollupV, Seq<bool>), JsonErrorV>((m2@, seen2@)) && seen2@.len() == 5,
                Err(e) => Self::spec_step((m@, seen@), key@, v@) == Err::<(Ics20WithdrawalFromRollupV, Seq<bool>), JsonErrorV>(e@),
            },
    {
        let mut m = m;
        let mut seen = seen;
        let k = key.as_str();
        if str_eq(k, "rollupBlockNumber") || str_eq(k, "rollup_block_number") {
            if seen[0] {
                return Err(JsonError::DuplicateField("rollupBlockNumber".to_string()));
            }
            match u64_field(v) {
                Ok(x) => m.rollup_block_number = x,
                Err(e) => return Err(e),
            }
            seen.set(0, true);
        } else if str_eq(k, "rollupTransactionHash") || str_eq(k, "rollup_transaction_hash") {
            if seen[1] {
                return Err(JsonError::DuplicateField("rollupTransactionHash".to_string()));
            }
            match string_field(v) {
                Ok(x) => m.rollup_transaction_hash = x,
                Err(e) => return Err(e),
            }
            seen.set(1, true);
        } else if str_eq(k, "rollupReturnAddress") || str_eq(k, "rollup_return_address") {
            if seen[2] {
                return Err(JsonError::DuplicateField("rollupReturnAddress".to_string()));
            }
            match string_field(v) {
                Ok(x) => m.rollup_return_address = x,
                Err(e) => return Err(e),
            }
            seen.set(2, true);
        } else if str_eq(k, "memo") {
            if seen[3] {
                return Err(JsonError::DuplicateField("memo".to_string()));
            }
            match string_field(v) {
                Ok(x) => m.memo = x,
                Err(e) => return Err(e),
            }
            seen.set(3, true);
        } else if str_eq(k, "rollupExecResultHash") || str_eq(k, "rollup_exec_result_hash") {
            if seen[4] {
                return Err(JsonError::DuplicateField("rollupExecResultHash".to_string()));
            }
            match string_field(v) {
                Ok(x) => m.rollup_exec_result_hash = x,
                Err(e) => return Err(e),
            }
            seen.set(4, true);
        } else {
            return Err(JsonError::UnknownField(key.clone()));
        }
        Ok((m, seen))
    }

    /// Reads the message from a JSON value, as [`Self::spec_from_json`] describes.
    pub fn from_json(j: &Json) -> (r: Result<Self, JsonError>)
        ensures
            match r {
                Ok(m) => Self::spec_from_json(j@) == Ok::<Ics20WithdrawalFromRollupV, JsonErrorV>(m@),
                Err(e) => Self::spec_from_json(j@) == Err::<Ics20WithdrawalFromRollupV, JsonErrorV>(e@),
            },
    {
        let es = match j {
            Json::Object(es) => es,
            _ => return Err(JsonError::ExpectedObject),
        };
        let ghost ves = view_entries(es@);
        proof {
            lemma_view_entries_len(es@);
            assert(j@ == JsonV::Object(ves));
        }
        let mut m = Self::default();
        let mut seen: Vec<bool> = vec![false, false, false, false, false];
        let mut i: usize = 0;
        proof {
            assert(seen@ =~= Self::spec_start().1);
            assert(ves.skip(0) == ves);
        }
        while i < es.len()
            invariant
                j@ == JsonV::Object(ves),
                ves == view_entries(es@),
                ves.len() == es@.len(),
                i <= es.len(),
                seen@.len() == 5,
                fold_entries(Self::spec_start(), ves, Self::step_fn())
                    == fold_entries((m@, seen@), ves.skip(i as int), Self::step_fn()),
            decreases es.len() - i,
        {
            proof {
                lemma_view_entries_index(es@, i as int);
                lemma_fold_entries_step((m@, seen@), ves, i as int, Self::step_fn());
            }
            match Self::step(m, seen, &es[i].0, &es[i].1) {
                Ok((m2, seen2)) => {
                    m = m2;
                    seen = seen2;
                },
                Err(e) => return Err(e),
            }
            i = i + 1;
        }
        proof {
            assert(ves.skip(ves.len() as int) == Seq::<(Seq<char>, JsonV)>::empty());
            assert(fold_entries((m@, seen@), ves.skip(ves.len() as int), Self::step_fn())
                == Ok::<(Ics20WithdrawalFromRollupV, Seq<bool>), JsonErrorV>((m@, seen@)));
        }
        Ok(m)
    }

    /// Reads an optional field of this message type.
    pub fn opt_from_json(v: &Json) -> (r: Result<Option<Self>, JsonError>)
        ensures
            match r {
                Ok(None) => Self::spec_read_opt(v@) == Ok::<Option<Ics20WithdrawalFromRollupV>, JsonErrorV>(None),
                Ok(Some(x)) => Self::spec_read_opt(v@) == Ok::<Option<Ics20WithdrawalFromRollupV>, JsonErrorV>(Some(x@)),
                Err(e) => Self::spec_read_opt(v@) == Err::<Option<Ics20WithdrawalFromRollupV>, JsonErrorV>(e@),
            },
    {
        match v {
            Json::Null => Ok(None),
            _ => match Self::from_json(v) {
                Ok(x) => Ok(Some(x)),
                Err(e) => Err(e),
            },
        }
    }

    /// Reading the member that the field `rollup_block_number` writes sets the field.
    pub proof fn lemma_entry_rollup_block_number(m: Ics20WithdrawalFromRollupV, st: (Ics20WithdrawalFromRollupV, Seq<bool>))
        requires
            st.1.len() == 5,
            !st.1[0],
            st.0.rollup_block_number == 0,
        ensures
            fold_entries(st, Self::spec_entry_rollup_block_number(m), Self::step_fn()) == Ok::<(Ics20WithdrawalFromRollupV, Seq<bool>), JsonErrorV>((Ics20WithdrawalFromRollupV { rollup_block_number: m.rollup_block_number, ..st.0 }, if m.rollup_block_number != 0 { st.1.update(0, true) } else { st.1 })),
    {
        reveal_strlit("rollupBlockNumber");
        reveal_strlit("rollup_block_number");
        reveal_strlit("rollupTransactionHash");
        reveal_strlit("rollup_transaction_hash");
        reveal_strlit("rollupReturnAddress");
        reveal_strlit("rollup_return_address");
        reveal_strlit("memo");
        reveal_strlit("rollupExecResultHash");
        reveal_strlit("rollup_exec_result_hash");
        assert("rollupBlockNumber"@.len() == 17);
        assert("rollup_block_number"@.len() == 19);
        assert("rollupTransactionHash"@.len() == 21);
        assert("rollup_transaction_hash"@.len() == 23);
        assert("rollupReturnAddress"@.len() == 19);
        assert("rollup_return_address"@.len() == 21);
        assert("memo"@.len() == 4);
        assert("rollupExecResultHash"@.len() == 20);
        assert("rollup_exec_result_hash"@.len() == 23);
        assert("rollup_block_number"@[6] != "rollupReturnAddress"@[6]);
        assert("rollupTransactionHash"@[6] != "rollup_return_address"@[6]);
        assert("rollup_transaction_hash"@[7] != "rollup_exec_result_hash"@[7]);
        lemma_read_u64_value(m.rollup_block_number);
        lemma_fold_entry_if(st, m.rollup_block_number != 0, "rollupBlockNumber"@, JsonV::Str(decimal(m.rollup_block_number as nat)), Self::step_fn());
    }

    /// Reading the member that the field `rollup_transaction_hash` writes sets the field.
    pub proof fn lemma_entry_rollup_transaction_hash(m: Ics20WithdrawalFromRollupV, st: (Ics20WithdrawalFromRollupV, Seq<bool>))
        requires
            st.1.len() == 5,
            !st.1[1],
            st.0.rollup_transaction_hash == Seq::<char>::empty(),
        ensures
            fold_entries(st, Self::spec_entry_rollup_transaction_hash(m), Self::step_fn()) == Ok::<(Ics20WithdrawalFromRollupV, Seq<bool>), JsonErrorV>((Ics20WithdrawalFromRollupV { rollup_transaction_hash: m.rollup_transaction_hash, ..st.0 }, if m.rollup_transaction_hash.len() != 0 { st.1.update(1, true) } else { st.1 })),
    {
        reveal_strlit("rollupBlockNumber");
        reveal_strlit("rollup_block_number");
        reveal_strlit("rollupTransactionHash");
        reveal_strlit("rollup_transaction_hash");
        reveal_strlit("rollupReturnAddress");
        reveal_strlit("rollup_return_address");
        reveal_strlit("memo");
        reveal_strlit("rollupExecResultHash");
        reveal_strlit("rollup_exec_result_hash");
        assert("rollupBlockNumber"@.len() == 17);
        assert("rollup_block_number"@.len() == 19);
        assert("rollupTransactionHash"@.len() == 21);
        assert("rollup_transaction_hash"@.len() == 23);
        assert("rollupReturnAddress"@.len() == 19);
        assert("rollup_return_address"@.len() == 21);
        assert("memo"@.len() == 4);
        assert("rollupExecResultHash"@.len() == 20);
        assert("rollup_exec_result_hash"@.len() == 23);
        assert("rollup_block_number"@[6] != "rollupReturnAddress"@[6]);
        assert("rollupTransactionHash"@[6] != "rollup_return_address"@[6]);
        assert("rollup_transaction_hash"@[7] != "rollup_exec_result_hash"@[7]);
        if m.rollup_transaction_hash.len() == 0 {
            assert(m.rollup_transaction_hash =~= Seq::<char>::empty());
        }
        lemma_fold_entry_if(st, m.rollup_transaction_hash.len() != 0, "rollupTransactionHash"@, JsonV::Str(m.rollup_transaction_hash), Self::step_fn());
    }

    /// Reading the member that the field `rollup_return_address` writes sets the field.
    pub proof fn lemma_entry_rollup_return_address(m: Ics20WithdrawalFromRollupV, st: (Ics20WithdrawalFromRollupV, Seq<bool>))
        requires
            st.1.len() == 5,
            !st.1[2],
            st.0.rollup_return_address == Seq::<char>::empty(),
        ensures
            fold_entries(st, Self::spec_entry_rollup_return_address(m), Self::step_fn()) == Ok::<(Ics20WithdrawalFromRollupV, Seq<bool>), JsonErrorV>((Ics20WithdrawalFromRollupV { rollup_return_address: m.rollup_return_address, ..st.0 }, if m.rollup_return_address.len() != 0 { st.1.update(2, true) } else { st.1 })),
    {
        reveal_strlit("rollupBlockNumber");
        reveal_strlit("rollup_block_number");
        reveal_strlit("rollupTransactionHash");
        reveal_strlit("rollup_transaction_hash");
        reveal_strlit("rollupReturnAddress");
        reveal_strlit("rollup_return_address");
        reveal_strlit("memo");
        reveal_strlit("rollupExecResultHash");
        reveal_strlit("rollup_exec_result_hash");
        assert("rollupBlockNumber"@.len() == 17);
        assert("rollup_block_number"@.len() == 19);
        assert("rollupTransactionHash"@.len() == 21);
        assert("rollup_transaction_hash"@.len() == 23);
        assert("rollupReturnAddress"@.len() == 19);
        assert("rollup_return_address"@.len() == 21);
        assert("memo"@.len() == 4);
        assert("rollupExecResultHash"@.len() == 20);
        assert("rollup_exec_result_hash"@.len() == 23);
        assert("rollup_block_number"@[6] != "rollupReturnAddress"@[6]);
        assert("rollupTransactionHash"@[6] != "rollup_return_address"@[6]);
        assert("rollup_transaction_hash"@[7] != "rollup_exec_result_hash"@[7]);
        if m.rollup_return_address.len() == 0 {
            assert(m.rollup_return_address =~= Seq::<char>::empty());
        }
        lemma_fold_entry_if(st, m.rollup_return_address.len() != 0, "rollupReturnAddress"@, JsonV::Str(m.rollup_return_address), Self::step_fn());
    }

    /// Reading the member that the field `memo` writes sets the field.
    pub proof fn lemma_entry_memo(m: Ics20WithdrawalFromRollupV, st: (Ics20WithdrawalFromRollupV, Seq<bool>))
        requires
            st.1.len() == 5,
            !st.1[3],
            st.0.memo == Seq::<char>::empty(),
        ensures
            fold_entries(st, Self::spec_entry_memo(m), Self::step_fn()) == Ok::<(Ics20WithdrawalFromRollupV, Seq<bool>), JsonErrorV>((Ics20WithdrawalFromRollupV { memo: m.memo, ..st.0 }, if m.memo.len() != 0 { st.1.update(3, true) } else { st.1 })),
    {
        reveal_strlit("rollupBlockNumber");
        reveal_strlit("rollup_block_number");
        reveal_strlit("rollupTransactionHash");
        reveal_strlit("rollup_transaction_hash");
        reveal_strlit("rollupReturnAddress");
        reveal_strlit("rollup_return_address");
        reveal_strlit("memo");
        reveal_strlit("rollupExecResultHash");
        reveal_strlit("rollup_exec_result_hash");
        assert("rollupBlockNumber"@.len() == 17);
        assert("rollup_block_number"@.len() == 19);
        assert("rollupTransactionHash"@.len() == 21);
        assert("rollup_transaction_hash"@.len() == 23);
        assert("rollupReturnAddress"@.len() == 19);
        assert("rollup_return_address"@.len() == 21);
        assert("memo"@.len() == 4);
        assert("rollupExecResultHash"@.len() == 20);
        assert("rollup_exec_result_hash"@.len() == 23);
        assert("rollup_block_number"@[6] != "rollupReturnAddress"@[6]);
        assert("rollupTransactionHash"@[6] != "rollup_return_address"@[6]);
        assert("rollup_transaction_hash"@[7] != "rollup_exec_result_hash"@[7]);
        if m.memo.len() == 0 {
            assert(m.memo =~= Seq::<char>::empty());
        }
        lemma_fold_entry_if(st, m.memo.len() != 0, "memo"@, JsonV::Str(m.memo), Self::step_fn());
    }

    /// Reading the member that the field `rollup_exec_result_hash` writes sets the field.
    pub proof fn lemma_entry_rollup_exec_result_hash(m: Ics20WithdrawalFromRollupV, st: (Ics20WithdrawalFromRollupV, Seq<bool>))
        requires
            st.1.len() == 5,
            !st.1[4],
            st.0.rollup_exec_result_hash == Seq::<char>::empty(),
        ensures
            fold_entries(st, Self::spec_entry_rollup_exec_result_hash(m), Self::step_fn()) == Ok::<(Ics20WithdrawalFromRollupV, Seq<bool>), JsonErrorV>((Ics20WithdrawalFromRollupV { rollup_exec_result_hash: m.rollup_exec_result_hash, ..st.0 }, if m.rollup_exec_result_hash.len() != 0 { st.1.update(4, true) } else { st.1 })),
    {
        reveal_strlit("rollupBlockNumber");
        reveal_strlit("rollup_block_number");
        reveal_strlit("rollupTransactionHash");
        reveal_strlit("rollup_transaction_hash");
        reveal_strlit("rollupReturnAddress");
        reveal_strlit("rollup_return_address");
        reveal_strlit("memo");
        reveal_strlit("rollupExecResultHash");
        reveal_strlit("rollup_exec_result_hash");
        assert("rollupBlockNumber"@.len() == 17);
        assert("rollup_block_number"@.len() == 19);
        assert("rollupTransactionHash"@.len() == 21);
        assert("rollup_transaction_hash"@.len() == 23);
        assert("rollupReturnAddress"@.len() == 19);
        assert("rollup_return_address"@.len() == 21);
        assert("memo"@.len() == 4);
        assert("rollupExecResultHash"@.len() == 20);
        assert("rollup_exec_result_hash"@.len() == 23);
        assert("rollup_block_number"@[6] != "rollupReturnAddress"@[6]);
        assert("rollupTransactionHash"@[6] != "rollup_return_address"@[6]);
        assert("rollup_transaction_hash"@[7] != "rollup_exec_result_hash"@[7]);
        if m.rollup_exec_result_hash.len() == 0 {
            assert(m.rollup_exec_result_hash =~= Seq::<char>::empty());
        }
        lemma_fold_entry_if(st, m.rollup_exec_result_hash.len() != 0, "rollupExecResultHash"@, JsonV::Str(m.rollup_exec_result_hash), Self::step_fn());
    }

    /// The JSON spelling of a key: the protobuf name of a field becomes its JSON name;
    /// a JSON name, and any key that names no field, is left as it is.
    pub open spec fn spec_json_key(key: Seq<char>) -> Seq<char> {
        if key == "rollupBlockNumber"@ || key == "rollup_block_number"@ {
            "rollupBlockNumber"@
        } else if key == "rollupTransactionHash"@ || key == "rollup_transaction_hash"@ {
            "rollupTransactionHash"@
        } else if key == "rollupReturnAddress"@ || key == "rollup_return_address"@ {
            "rollupReturnAddress"@
        } else if key == "memo"@ {
            "memo"@
        } else if key == "rollupExecResultHash"@ || key == "rollup_exec_result_hash"@ {
            "rollupExecResultHash"@
        } else {
            key
        }
    }

    /// [`Self::spec_json_key`] as a function value.
    pub open spec fn json_key_fn() -> spec_fn(Seq<char>) -> Seq<char> {
        |key: Seq<char>| Self::spec_json_key(key)
    }

    /// One member is read alike whichever spelling its key has.
    pub proof fn lemma_step_json_key(st: (Ics20WithdrawalFromRollupV, Seq<bool>), key: Seq<char>, v: JsonV)
        ensures Self::spec_step(st, key, v) == Self::spec_step(st, Self::spec_json_key(key), v),
    {
        reveal_strlit("rollupBlockNumber");
        reveal_strlit("rollup_block_number");
        reveal_strlit("rollupTransactionHash");
        reveal_strlit("rollup_transaction_hash");
        reveal_strlit("rollupReturnAddress");
        reveal_strlit("rollup_return_address");
        reveal_strlit("memo");
        reveal_strlit("rollupExecResultHash");
        reveal_strlit("rollup_exec_result_hash");
        assert("rollupBlockNumber"@.len() == 17);
        assert("rollup_block_number"@.len() == 19);
        assert("rollupTransactionHash"@.len() == 21);
        assert("rollup_transaction_hash"@.len() == 23);
        assert("rollupReturnAddress"@.len() == 19);
        assert("rollup_return_address"@.len() == 21);
        assert("memo"@.len() == 4);
        assert("rollupExecResultHash"@.len() == 20);
        assert("rollup_exec_result_hash"@.len() == 23);
        assert("rollup_block_number"@[6] != "rollupReturnAddress"@[6]);
        assert("rollupTransactionHash"@[6] != "rollup_return_address"@[6]);
        assert("rollup_transaction_hash"@[7] != "rollup_exec_result_hash"@[7]);
        if key == "rollup_block_number"@ {
            assert(Self::spec_json_key(key) == "rollupBlockNumber"@);
        }
        if key == "rollup_transaction_hash"@ {
            assert(Self::spec_json_key(key) == "rollupTransactionHash"@);
        }
        if key == "rollup_return_address"@ {
            assert(Self::spec_json_key(key) == "rollupReturnAddress"@);
        }
        if key == "rollup_exec_result_hash"@ {
            assert(Self::spec_json_key(key) == "rollupExecResultHash"@);
        }
    }

    /// Reading an object gives the same result whichever spelling each of its keys has:
    /// two objects whose members hold the same values, in the same order, under keys of
    /// the same JSON spelling describe the same message, or are refused with the same error.
    pub proof fn lemma_key_spelling(es1: Seq<(Seq<char>, JsonV)>, es2: Seq<(Seq<char>, JsonV)>)
        requires
            es1.len() == es2.len(),
            forall|i: int| #![trigger es1[i], es2[i]] 0 <= i < es1.len() ==> es1[i].1 == es2[i].1 && Self::spec_json_key(es1[i].0) == Self::spec_json_key(es2[i].0),
        ensures Self::spec_from_json(JsonV::Object(es1)) == Self::spec_from_json(JsonV::Object(es2)),
    {
        assert forall|s: (Ics20WithdrawalFromRollupV, Seq<bool>), k: Seq<char>, v: JsonV|
            #![trigger Self::step_fn()(s, k, v), Self::json_key_fn()(k)]
            Self::step_fn()(s, k, v) == Self::step_fn()(s, Self::json_key_fn()(k), v) by {
            Self::lemma_step_json_key(s, k, v);
        }
        lemma_fold_same_keys(Self::spec_start(), es1, es2, Self::step_fn(), Self::json_key_fn());
    }

    /// The keys of the object that the message writes: the JSON names of the fields that
    /// do not hold their default (for a oneof, the JSON name of the member set), in the
    /// order of the fields.
    pub open spec fn spec_written_keys(m: Ics20WithdrawalFromRollupV) -> Seq<Seq<char>> {
        key_if(m.rollup_block_number != 0, "rollupBlockNumber"@)
            + key_if(m.rollup_transaction_hash.len() != 0, "rollupTransactionHash"@)
            + key_if(m.rollup_return_address.len() != 0, "rollupReturnAddress"@)
            + key_if(m.memo.len() != 0, "memo"@)
            + key_if(m.rollup_exec_result_hash.len() != 0, "rollupExecResultHash"@)
    }

    /// The object that the message writes has exactly the keys of
    /// [`Self::spec_written_keys`], in that order.
    pub proof fn lemma_written_keys(m: Ics20WithdrawalFromRollupV)
        ensures
            Self::spec_to_json(m) == JsonV::Object(Self::spec_entries(m)),
            entry_keys(Self::spec_entries(m)) == Self::spec_written_keys(m),
    {
        lemma_entry_keys_if(m.rollup_block_number != 0, "rollupBlockNumber"@, JsonV::Str(decimal(m.rollup_block_number as nat)));
        lemma_entry_keys_append(Self::spec_entry_rollup_block_number(m), m.rollup_transaction_hash.len() != 0, "rollupTransactionHash"@, JsonV::Str(m.rollup_transaction_hash));
        lemma_entry_keys_append(Self::spec_entry_rollup_block_number(m) + Self::spec_entry_rollup_transaction_hash(m), m.rollup_return_address.len() != 0, "rollupReturnAddress"@, JsonV::Str(m.rollup_return_address));
        lemma_entry_keys_append(Self::spec_entry_rollup_block_number(m) + Self::spec_entry_rollup_transaction_hash(m) + Self::spec_entry_rollup_return_address(m), m.memo.len() != 0, "memo"@, JsonV::Str(m.memo));
        lemma_entry_keys_append(Self::spec_entry_rollup_block_number(m) + Self::spec_entry_rollup_transaction_hash(m) + Self::spec_entry_rollup_return_address(m) + Self::spec_entry_memo(m), m.rollup_exec_result_hash.len() != 0, "rollupExecResultHash"@, JsonV::Str(m.rollup_exec_result_hash));
    }

    /// Whether the field whose JSON name is `name` holds its default in `m`; for a member
    /// of a oneof, whether the oneof is set to another member or unset. `true` for a name
    /// that names no field.
    pub open spec fn spec_holds_default(m: Ics20WithdrawalFromRollupV, name: Seq<char>) -> bool {
        if name == "rollupBlockNumber"@ {
            m.rollup_block_number == 0
        } else if name == "rollupTransactionHash"@ {
            m.rollup_transaction_hash == Seq::<char>::empty()
        } else if name == "rollupReturnAddress"@ {
            m.rollup_return_address == Seq::<char>::empty()
        } else if name == "memo"@ {
            m.memo == Seq::<char>::empty()
        } else if name == "rollupExecResultHash"@ {
            m.rollup_exec_result_hash == Seq::<char>::empty()
        } else {
            true
        }
    }

    /// Whether reading `v` for the field whose JSON name is `name` leaves the field at
    /// its default: `null`, for a field that takes it (a message field, a member of a
    /// oneof); nothing, for any other field. `true` for a name that names no field.
    pub open spec fn spec_leaves_default(name: Seq<char>, v: JsonV) -> bool {
        if name == "rollupBlockNumber"@ {
            false
        } else if name == "rollupTransactionHash"@ {
            false
        } else if name == "rollupReturnAddress"@ {
            false
        } else if name == "memo"@ {
            false
        } else if name == "rollupExecResultHash"@ {
            false
        } else {
            true
        }
    }

    /// Reading one member keeps a field at its default unless the key names the field
    /// and the value does not leave it there.
    pub proof fn lemma_step_keeps_default(st: (Ics20WithdrawalFromRollupV, Seq<bool>), key: Seq<char>, v: JsonV, name: Seq<char>)
        requires
            Self::spec_holds_default(st.0, name),
            Self::spec_json_key(key) == name ==> Self::spec_leaves_default(name, v),
        ensures
            Self::spec_step(st, key, v) is Ok ==> Self::spec_holds_default(Self::spec_step(st, key, v)->Ok_0.0, name),
    {
        reveal_strlit("rollupBlockNumber");
        reveal_strlit("rollup_block_number");
        reveal_strlit("rollupTransactionHash");
        reveal_strlit("rollup_transaction_hash");
        reveal_strlit("rollupReturnAddress");
        reveal_strlit("rollup_return_address");
        reveal_strlit("memo");
        reveal_strlit("rollupExecResultHash");
        reveal_strlit("rollup_exec_result_hash");
        assert("rollupBlockNumber"@.len() == 17);
        assert("rollup_block_number"@.len() == 19);
        assert("rollupTransactionHash"@.len() == 21);
        assert("rollup_transaction_hash"@.len() == 23);
        assert("rollupReturnAddress"@.len() == 19);
        assert("rollup_return_address"@.len() == 21);
        assert("memo"@.len() == 4);
        assert("rollupExecResultHash"@.len() == 20);
        assert("rollup_exec_result_hash"@.len() == 23);
        assert("rollup_block_number"@[6] != "rollupReturnAddress"@[6]);
        assert("rollupTransactionHash"@[6] != "rollup_return_address"@[6]);
        assert("rollup_transaction_hash"@[7] != "rollup_exec_result_hash"@[7]);
        Self::lemma_step_json_key(st, key, v);
    }

    /// A field whose key appears in no member of an object, or only with values that
    /// leave it at its default (`null`, for a field that takes it), holds its default in
    /// the message that the object describes.
    pub proof fn lemma_absent_default(es: Seq<(Seq<char>, JsonV)>, name: Seq<char>)
        requires
            forall|i: int| 0 <= i < es.len() ==> (Self::spec_json_key((#[trigger] es[i]).0) == name
                ==> Self::spec_leaves_default(name, es[i].1)),
        ensures
            Self::spec_from_json(JsonV::Object(es)) is Ok
                ==> Self::spec_holds_default(Self::spec_from_json(JsonV::Object(es))->Ok_0, name),
    {
        let inv = |s: (Ics20WithdrawalFromRollupV, Seq<bool>)| Self::spec_holds_default(s.0, name);
        let allowed = |k: Seq<char>, v: JsonV| Self::spec_json_key(k) == name ==> Self::spec_leaves_default(name, v);
        assert forall|s: (Ics20WithdrawalFromRollupV, Seq<bool>), k: Seq<char>, v: JsonV| #![trigger Self::step_fn()(s, k, v)]
            inv(s) && allowed(k, v) && Self::step_fn()(s, k, v) is Ok implies inv(Self::step_fn()(s, k, v)->Ok_0) by {
            Self::lemma_step_keeps_default(s, k, v, name);
        }
        assert(inv(Self::spec_start()));
        lemma_fold_keeps(Self::spec_start(), es, Self::step_fn(), inv, allowed);
    }

    /// The field `rollup_block_number` alone: an object with one member under its JSON or protobuf
    /// name reads as the message with that field set and every other field at its
    /// default, and the message with only that field off its default writes that
    /// one member under the JSON name.
    pub proof fn lemma_field_rollup_block_number(v: u64)
        ensures
            Self::spec_from_json(JsonV::Object(seq![("rollupBlockNumber"@, JsonV::Unsigned(v))])) == Ok::<Ics20WithdrawalFromRollupV, JsonErrorV>(Ics20WithdrawalFromRollupV { rollup_block_number: v, ..Self::spec_default() }),
            Self::spec_from_json(JsonV::Object(seq![("rollupBlockNumber"@, JsonV::Str(decimal(v as nat)))])) == Ok::<Ics20WithdrawalFromRollupV, JsonErrorV>(Ics20WithdrawalFromRollupV { rollup_block_number: v, ..Self::spec_default() }),
            Self::spec_from_json(JsonV::Object(seq![("rollup_block_number"@, JsonV::Unsigned(v))])) == Ok::<Ics20WithdrawalFromRollupV, JsonErrorV>(Ics20WithdrawalFromRollupV { rollup_block_number: v, ..Self::spec_default() }),
            Self::spec_from_json(JsonV::Object(seq![("rollup_block_number"@, JsonV::Str(decimal(v as nat)))])) == Ok::<Ics20WithdrawalFromRollupV, JsonErrorV>(Ics20WithdrawalFromRollupV { rollup_block_number: v, ..Self::spec_default() }),
            v != 0 ==> Self::spec_to_json(Ics20WithdrawalFromRollupV { rollup_block_number: v, ..Self::spec_default() }) == JsonV::Object(seq![("rollupBlockNumber"@, JsonV::Str(decimal(v as nat)))]),
    {
        reveal_strlit("rollupBlockNumber");
        reveal_strlit("rollup_block_number");
        reveal_strlit("rollupTransactionHash");
        reveal_strlit("rollup_transaction_hash");
        reveal_strlit("rollupReturnAddress");
        reveal_strlit("rollup_return_address");
        reveal_strlit("memo");
        reveal_strlit("rollupExecResultHash");
        reveal_strlit("rollup_exec_result_hash");
        assert("rollupBlockNumber"@.len() == 17);
        assert("rollup_block_number"@.len() == 19);
        assert("rollupTransactionHash"@.len() == 21);
        assert("rollup_transaction_hash"@.len() == 23);
        assert("rollupReturnAddress"@.len() == 19);
        assert("rollup_return_address"@.len() == 21);
        assert("memo"@.len() == 4);
        assert("rollupExecResultHash"@.len() == 20);
        assert("rollup_exec_result_hash"@.len() == 23);
        assert("rollup_block_number"@[6] != "rollupReturnAddress"@[6]);
        assert("rollupTransactionHash"@[6] != "rollup_return_address"@[6]);
        assert("rollup_transaction_hash"@[7] != "rollup_exec_result_hash"@[7]);
        lemma_read_u64_value(v);
        lemma_fold_entry_if(Self::spec_start(), true, "rollupBlockNumber"@, JsonV::Unsigned(v), Self::step_fn());
        lemma_fold_entry_if(Self::spec_start(), true, "rollupBlockNumber"@, JsonV::Str(decimal(v as nat)), Self::step_fn());
        lemma_fold_entry_if(Self::spec_start(), true, "rollup_block_number"@, JsonV::Unsigned(v), Self::step_fn());
        lemma_fold_entry_if(Self::spec_start(), true, "rollup_block_number"@, JsonV::Str(decimal(v as nat)), Self::step_fn());
    }

    /// The field `rollup_transaction_hash` alone: an object with one member under its JSON or protobuf
    /// name reads as the message with that field set and every other field at its
    /// default, and the message with only that field off its default writes that
    /// one member under the JSON name.
    pub proof fn lemma_field_rollup_transaction_hash(s: Seq<char>)
        ensures
            Self::spec_from_json(JsonV::Object(seq![("rollupTransactionHash"@, JsonV::Str(s))])) == Ok::<Ics20WithdrawalFromRollupV, JsonErrorV>(Ics20WithdrawalFromRollupV { rollup_transaction_hash: s, ..Self::spec_default() }),
            Self::spec_from_json(JsonV::Object(seq![("rollup_transaction_hash"@, JsonV::Str(s))])) == Ok::<Ics20WithdrawalFromRollupV, JsonErrorV>(Ics20WithdrawalFromRollupV { rollup_transaction_hash: s, ..Self::spec_default() }),
            s.len() > 0 ==> Self::spec_to_json(Ics20WithdrawalFromRollupV { rollup_transaction_hash: s, ..Self::spec_default() }) == JsonV::Object(seq![("rollupTransactionHash"@, JsonV::Str(s))]),
    {
        reveal_strlit("rollupBlockNumber");
        reveal_strlit("rollup_block_number");
        reveal_strlit("rollupTransactionHash");
        reveal_strlit("rollup_transaction_hash");
        reveal_strlit("rollupReturnAddress");
        reveal_strlit("rollup_return_address");
        reveal_strlit("memo");
        reveal_strlit("rollupExecResultHash");
        reveal_strlit("rollup_exec_result_hash");
        assert("rollupBlockNumber"@.len() == 17);
        assert("rollup_block_number"@.len() == 19);
        assert("rollupTransactionHash"@.len() == 21);
        assert("rollup_transaction_hash"@.len() == 23);
        assert("rollupReturnAddress"@.len() == 19);
        assert("rollup_return_address"@.len() == 21);
        assert("memo"@.len() == 4);
        assert("rollupExecResultHash"@.len() == 20);
        assert("rollup_exec_result_hash"@.len() == 23);
        assert("rollup_block_number"@[6] != "rollupReturnAddress"@[6]);
        assert("rollupTransactionHash"@[6] != "rollup_return_address"@[6]);
        assert("rollup_transaction_hash"@[7] != "rollup_exec_result_hash"@[7]);
        lemma_fold_entry_if(Self::spec_start(), true, "rollupTransactionHash"@, JsonV::Str(s), Self::step_fn());
        lemma_fold_entry_if(Self::spec_start(), true, "rollup_transaction_hash"@, JsonV::Str(s), Self::step_fn());
    }

    /// The field `rollup_return_address` alone: an object with one member under its JSON or protobuf
    /// name reads as the message with that field set and every other field at its
    /// default, and the message with only that field off its default writes that
    /// one member under the JSON name.
    pub proof fn lemma_field_rollup_return_address(s: Seq<char>)
        ensures
            Self::spec_from_json(JsonV::Object(seq![("rollupReturnAddress"@, JsonV::Str(s))])) == Ok::<Ics20WithdrawalFromRollupV, JsonErrorV>(Ics20WithdrawalFromRollupV { rollup_return_address: s, ..Self::spec_default() }),
            Self::spec_from_json(JsonV::Object(seq![("rollup_return_address"@, JsonV::Str(s))])) == Ok::<Ics20WithdrawalFromRollupV, JsonErrorV>(Ics20WithdrawalFromRollupV { rollup_return_address: s, ..Self::spec_default() }),
            s.len() > 0 ==> Self::spec_to_json(Ics20WithdrawalFromRollupV { rollup_return_address: s, ..Self::spec_default() }) == JsonV::Object(seq![("rollupReturnAddress"@, JsonV::Str(s))]),
    {
        reveal_strlit("rollupBlockNumber");
        reveal_strlit("rollup_block_number");
        reveal_strlit("rollupTransactionHash");
        reveal_strlit("rollup_transaction_hash");
        reveal_strlit("rollupReturnAddress");
        reveal_strlit("rollup_return_address");
        reveal_strlit("memo");
        reveal_strlit("rollupExecResultHash");
        reveal_strlit("rollup_exec_result_hash");
        assert("rollupBlockNumber"@.len() == 17);
        assert("rollup_block_number"@.len() == 19);
        assert("rollupTransactionHash"@.len() == 21);
        assert("rollup_transaction_hash"@.len() == 23);
        assert("rollupReturnAddress"@.len() == 19);
        assert("rollup_return_address"@.len() == 21);
        assert("memo"@.len() == 4);
        assert("rollupExecResultHash"@.len() == 20);
        assert("rollup_exec_result_hash"@.len() == 23);
        assert("rollup_block_number"@[6] != "rollupReturnAddress"@[6]);
        assert("rollupTransactionHash"@[6] != "rollup_return_address"@[6]);
        assert("rollup_transaction_hash"@[7] != "rollup_exec_result_hash"@[7]);
        lemma_fold_entry_if(Self::spec_start(), true, "rollupReturnAddress"@, JsonV::Str(s), Self::step_fn());
        lemma_fold_entry_if(Self::spec_start(), true, "rollup_return_address"@, JsonV::Str(s), Self::step_fn());
    }

    /// The field `memo` alone: an object with one member under its JSON or protobuf
    /// name reads as the message with that field set and every other field at its
    /// default, and the message with only that field off its default writes that
    /// one member under the JSON name.
    pub proof fn lemma_field_memo(s: Seq<char>)
        ensures
            Self::spec_from_json(JsonV::Object(seq![("memo"@, JsonV::Str(s))])) == Ok::<Ics20WithdrawalFromRollupV, JsonErrorV>(Ics20WithdrawalFromRollupV { memo: s, ..Self::spec_default() }),
            s.len() > 0 ==> Self::spec_to_json(Ics20WithdrawalFromRollupV { memo: s, ..Self::spec_default() }) == JsonV::Object(seq![("memo"@, JsonV::Str(s))]),
    {
        reveal_strlit("rollupBlockNumber");
        reveal_strlit("rollup_block_number");
        reveal_strlit("rollupTransactionHash");
        reveal_strlit("rollup_transaction_hash");
        reveal_strlit("rollupReturnAddress");
        reveal_strlit("rollup_return_address");
        reveal_strlit("memo");
        reveal_strlit("rollupExecResultHash");
        reveal_strlit("rollup_exec_result_hash");
        assert("rollupBlockNumber"@.len() == 17);
        assert("rollup_block_number"@.len() == 19);
        assert("rollupTransactionHash"@.len() == 21);
        assert("rollup_transaction_hash"@.len() == 23);
        assert("rollupReturnAddress"@.len() == 19);
        assert("rollup_return_address"@.len() == 21);
        assert("memo"@.len() == 4);
        assert("rollupExecResultHash"@.len() == 20);
        assert("rollup_exec_result_hash"@.len() == 23);
        assert("rollup_block_number"@[6] != "rollupReturnAddress"@[6]);
        assert("rollupTransactionHash"@[6] != "rollup_return_address"@[6]);
        assert("rollup_transaction_hash"@[7] != "rollup_exec_result_hash"@[7]);
        lemma_fold_entry_if(Self::spec_start(), true, "memo"@, JsonV::Str(s), Self::step_fn());
    }

    /// The field `rollup_exec_result_hash` alone: an object with one member under its JSON or protobuf
    /// name reads as the message with that field set and every other field at its
    /// default, and the message with only that field off its default writes that
    /// one member under the JSON name.
    pub proof fn lemma_field_rollup_exec_result_hash(s: Seq<char>)
        ensures
            Self::spec_from_json(JsonV::Object(seq![("rollupExecResultHash"@, JsonV::Str(s))])) == Ok::<Ics20WithdrawalFromRollupV, JsonErrorV>(Ics20WithdrawalFromRollupV { rollup_exec_result_hash: s, ..Self::spec_default() }),
            Self::spec_from_json(JsonV::Object(seq![("rollup_exec_result_hash"@, JsonV::Str(s))])) == Ok::<Ics20WithdrawalFromRollupV, JsonErrorV>(Ics20WithdrawalFromRollupV { rollup_exec_result_hash: s, ..Self::spec_default() }),
            s.len() > 0 ==> Self::spec_to_json(Ics20WithdrawalFromRollupV { rollup_exec_result_hash: s, ..Self::spec_default() }) == JsonV::Object(seq![("rollupExecResultHash"@, JsonV::Str(s))]),
    {
        reveal_strlit("rollupBlockNumber");
        reveal_strlit("rollup_block_number");
        reveal_strlit("rollupTransactionHash");
        reveal_strlit("rollup_transaction_hash");
        reveal_strlit("rollupReturnAddress");
        reveal_strlit("rollup_return_address");
        reveal_strlit("memo");
        reveal_strlit("rollupExecResultHash");
        reveal_strlit("rollup_exec_result_hash");
        assert("rollupBlockNumber"@.len() == 17);
        assert("rollup_block_number"@.len() == 19);
        assert("rollupTransactionHash"@.len() == 21);
        assert("rollup_transaction_hash"@.len() == 23);
        assert("rollupReturnAddress"@.len() == 19);
        assert("rollup_return_address"@.len() == 21);
        assert("memo"@.len() == 4);
        assert("rollupExecResultHash"@.len() == 20);
        assert("rollup_exec_result_hash"@.len() == 23);
        assert("rollup_block_number"@[6] != "rollupReturnAddress"@[6]);
        assert("rollupTransactionHash"@[6] != "rollup_return_address"@[6]);
        assert("rollup_transaction_hash"@[7] != "rollup_exec_result_hash"@[7]);
        lemma_fold_entry_if(Self::spec_start(), true, "rollupExecResultHash"@, JsonV::Str(s), Self::step_fn());
        lemma_fold_entry_if(Self::spec_start(), true, "rollup_exec_result_hash"@, JsonV::Str(s), Self::step_fn());
    }

    /// Reading back the JSON object of a message gives the message.
    pub proof fn lemma_json_roundtrip(m: Ics20WithdrawalFromRollupV)
        ensures Self::spec_from_json(Self::spec_to_json(m)) == Ok::<Ics20WithdrawalFromRollupV, JsonErrorV>(m),
    {
        let step = Self::step_fn();
        let s0 = Self::spec_start();
        let s1 = (Ics20WithdrawalFromRollupV { rollup_block_number: m.rollup_block_number, ..s0.0 }, if m.rollup_block_number != 0 { s0.1.update(0, true) } else { s0.1 });
        Self::lemma_entry_rollup_block_number(m, s0);
        let s2 = (Ics20WithdrawalFromRollupV { rollup_transaction_hash: m.rollup_transaction_hash, ..s1.0 }, if m.rollup_transaction_hash.len() != 0 { s1.1.update(1, true) } else { s1.1 });
        Self::lemma_entry_rollup_transaction_hash(m, s1);
        let s3 = (Ics20WithdrawalFromRollupV { rollup_return_address: m.rollup_return_address, ..s2.0 }, if m.rollup_return_address.len() != 0 { s2.1.update(2, true) } else { s2.1 });
        Self::lemma_entry_rollup_return_address(m, s2);
        let s4 = (Ics20WithdrawalFromRollupV { memo: m.memo, ..s3.0 }, if m.memo.len() != 0 { s3.1.update(3, true) } else { s3.1 });
        Self::lemma_entry_memo(m, s3);
        let s5 = (Ics20WithdrawalFromRollupV { rollup_exec_result_hash: m.rollup_exec_result_hash, ..s4.0 }, if m.rollup_exec_result_hash.len() != 0 { s4.1.update(4, true) } else { s4.1 });
        Self::lemma_entry_rollup_exec_result_hash(m, s4);
        let p1 = Self::spec_entry_rollup_block_number(m);
        let p2 = p1 + Self::spec_entry_rollup_transaction_hash(m);
        lemma_fold_entries_append(s0, p1, Self::spec_entry_rollup_transaction_hash(m), step);
        let p3 = p2 + Self::spec_entry_rollup_return_address(m);
        lemma_fold_entries_append(s0, p2, Self::spec_entry_rollup_return_address(m), step);
        let p4 = p3 + Self::spec_entry_memo(m);
        lemma_fold_entries_append(s0, p3, Self::spec_entry_memo(m), step);
        let p5 = p4 + Self::spec_entry_rollup_exec_result_hash(m);
        lemma_fold_entries_append(s0, p4, Self::spec_entry_rollup_exec_result_hash(m), step);
        assert(s5.0 == m);
    }
}

/// The `astria.protocol.memos.v1alpha1.Ics20TransferDeposit` message.
///
/// Memo for an ICS20 transfer to Astria which is sent to a
/// bridge account, which will then be deposited into the rollup.
#[derive(Clone, Debug, PartialEq)]
pub struct Ics20TransferDeposit {
    /// The destination address for the deposit on the rollup.
    ///
    /// This field is of type `string` so that it can be formatted in the preferred
    /// format of the rollup when targeting plain text encoding.
    pub rollup_deposit_address: String,
}

/// The mathematical content of an [`Ics20TransferDeposit`].
pub struct Ics20TransferDepositV {
    pub rollup_deposit_address: Seq<char>,
}

impl View for Ics20TransferDeposit {
    type V = Ics20TransferDepositV;

    open spec fn view(&self) -> Ics20TransferDepositV {
        Ics20TransferDepositV {
            rollup_deposit_address: self.rollup_deposit_address@,
        }
    }
}

impl Default for Ics20TransferDeposit {
    fn default() -> (r: Self)
        ensures r@ == Ics20TransferDeposit::spec_default(),
    {
        let r = Ics20TransferDeposit {
            rollup_deposit_address: String::new(),
        };
        r
    }
}

impl Ics20TransferDeposit {
    /// The fully qualified protobuf name of the message.
    pub fn full_name() -> (r: String)
        ensures r@ == "astria.protocol.memos.v1alpha1.Ics20TransferDeposit"@,
    {
        "astria.protocol.memos.v1alpha1.Ics20TransferDeposit".to_string()
    }

    /// Every field at its default: empty strings, bytes and lists, zero, `false`, unset.
    pub open spec fn spec_default() -> Ics20TransferDepositV {
        Ics20TransferDepositV {
            rollup_deposit_address: Seq::<char>::empty(),
        }
    }

    /// The view of an optional field of this message type.
    pub open spec fn view_opt(o: Option<Self>) -> Option<Ics20TransferDepositV> {
        match o {
            Some(x) => Some(x@),
            None => None,
        }
    }

    /// The view of a repeated field of this message type.
    pub open spec fn view_list(v: Seq<Self>) -> Seq<Ics20TransferDepositV> {
        v.map_values(|x: Self| x@)
    }

    /// The member that the field `rollup_deposit_address` writes: none where it holds its default.
    pub open spec fn spec_entry_rollup_deposit_address(m: Ics20TransferDepositV) -> Seq<(Seq<char>, JsonV)> {
        entry_if(m.rollup_deposit_address.len() != 0, "rollupDepositAddress"@, JsonV::Str(m.rollup_deposit_address))
    }

    /// The members of the JSON object of the message: each field that does not hold
    /// its default, under its JSON name, in the order of the fields.
    pub open spec fn spec_entries(m: Ics20TransferDepositV) -> Seq<(Seq<char>, JsonV)> {
        Self::spec_entry_rollup_deposit_address(m)
    }

    /// The JSON object that the protobuf JSON mapping writes for the message.
    pub open spec fn spec_to_json(m: Ics20TransferDepositV) -> JsonV {
        JsonV::Object(Self::spec_entries(m))
    }

    /// [`Self::spec_to_json`] as a function value, for repeated fields.
    pub open spec fn writer() -> spec_fn(Ics20TransferDepositV) -> JsonV {
        |m: Ics20TransferDepositV| Self::spec_to_json(m)
    }

    fn write_rollup_deposit_address(&self, es: &mut Vec<(String, Json)>)
        ensures
            view_entries(final(es)@) == view_entries(old(es)@) + Self::spec_entry_rollup_deposit_address(self@),
    {
        if !self.rollup_deposit_address.as_str().is_empty() {
            push_entry(es, "rollupDepositAddress", string_value(&self.rollup_deposit_address));
        }
        assert(view_entries(es@) =~= view_entries(old(es)@) + Self::spec_entry_rollup_deposit_address(self@));
    }

    /// Writes the message as a JSON object; reading it back gives the message.
    pub fn to_json(&self) -> (r: Json)
        ensures
            r@ == Self::spec_to_json(self@),
            Self::spec_from_json(r@) == Ok::<Ics20TransferDepositV, JsonErrorV>(self@),
    {
        let mut es: Vec<(String, Json)> = Vec::new();
        let ghost mut acc: Seq<(Seq<char>, JsonV)> = Seq::empty();
        proof {
            assert(view_entries(es@) =~= acc);
        }
        self.write_rollup_deposit_address(&mut es);
        proof {
            acc = acc + Self::spec_entry_rollup_deposit_address(self@);
        }
        proof {
            assert(acc =~= Self::spec_entries(self@));
            Self::lemma_json_roundtrip(self@);
        }
        Json::Object(es)
    }

    /// Reads one member of the object into the message under construction; `seen`
    /// records which fields that have no unset state were already given.
    pub open spec fn spec_step(st: (Ics20TransferDepositV, Seq<bool>), key: Seq<char>, v: JsonV) -> Result<(Ics20TransferDepositV, Seq<bool>), JsonErrorV> {
        let m = st.0;
        let seen = st.1;
        if key == "rollupDepositAddress"@ || key == "rollup_deposit_address"@ {
            if seen[0] {
                Err(JsonErrorV::DuplicateField("rollupDepositAddress"@))
            } else {
                match read_string(v) {
                    Ok(x) => Ok((Ics20TransferDepositV { rollup_deposit_address: x }, seen.update(0, true))),
                    Err(e) => Err(e),
                }
            }
        } else {
            Err(JsonErrorV::UnknownField(key))
        }
    }

    /// [`Self::spec_step`] as a function value.
    pub open spec fn step_fn() -> spec_fn((Ics20TransferDepositV, Seq<bool>), Seq<char>, JsonV) -> Result<(Ics20TransferDepositV, Seq<bool>), JsonErrorV> {
        |st: (Ics20TransferDepositV, Seq<bool>), key: Seq<char>, v: JsonV| Self::spec_step(st, key, v)
    }

    /// The state before the first member is read: the default message, no field seen.
    pub open spec fn spec_start() -> (Ics20TransferDepositV, Seq<bool>) {
        (Self::spec_default(), seq![false])
    }

    /// The message that a JSON value describes: an object whose keys each name a field
    /// (by its JSON name or its protobuf name), at most once each; fields that are not
    /// given keep their default. The first member that is refused gives the error.
    pub open spec fn spec_from_json(j: JsonV) -> Result<Ics20TransferDepositV, JsonErrorV> {
        match j {
            JsonV::Object(es) => match fold_entries(Self::spec_start(), es, Self::step_fn()) {
                Ok(st) => Ok(st.0),
                Err(e) => Err(e),
            },
            _ => Err(JsonErrorV::ExpectedObject),
        }
    }

    /// [`Self::spec_from_json`] as a function value, for repeated fields.
    pub open spec fn reader() -> spec_fn(JsonV) -> Result<Ics20TransferDepositV, JsonErrorV> {
        |v: JsonV| Self::spec_from_json(v)
    }

    /// An optional field of this message type: `null` leaves it unset.
    pub open spec fn spec_read_opt(v: JsonV) -> Result<Option<Ics20TransferDepositV>, JsonErrorV> {
        match v {
            JsonV::Null => Ok(None),
            _ => match Self::spec_from_json(v) {
                Ok(x) => Ok(Some(x)),
                Err(e) => Err(e),
            },
        }
    }

    fn step(m: Self, seen: Vec<bool>, key: &String, v: &Json) -> (r: Result<(Self, Vec<bool>), JsonError>)
        requires seen@.len() == 1,
        ensures
            match r {
                Ok((m2, seen2)) => Self::spec_step((m@, seen@), key@, v@) == Ok::<(Ics20TransferDepositV, Seq<bool>), JsonErrorV>((m2@, seen2@)) && seen2@.len() == 1,
                Err(e) => Self::spec_step((m@, seen@), key@, v@) == Err::<(Ics20TransferDepositV, Seq<bool>), JsonErrorV>(e@),
            },
    {
        let mut m = m;
        let mut seen = seen;
        let k = key.as_str();
        if str_eq(k, "rollupDepositAddress") || str_eq(k, "rollup_deposit_address") {
            if seen[0] {
                return Err(JsonError::DuplicateField("rollupDepositAddress".to_string()));
            }
            match string_field(v) {
                Ok(x) => m.rollup_deposit_address = x,
                Err(e) => return Err(e),
            }
            seen.set(0, true);
        } else {
            return Err(JsonError::UnknownField(key.clone()));
        }
        Ok((m, seen))
    }

    /// Reads the message from a JSON value, as [`Self::spec_from_json`] describes.
    pub fn from_json(j: &Json) -> (r: Result<Self, JsonError>)
        ensures
            match r {
                Ok(m) => Self::spec_from_json(j@) == Ok::<Ics20TransferDepositV, JsonErrorV>(m@),
                Err(e) => Self::spec_from_json(j@) == Err::<Ics20TransferDepositV, JsonErrorV>(e@),
            },
    {
        let es = match j {
            Json::Object(es) => es,
            _ => return Err(JsonError::ExpectedObject),
        };
        let ghost ves = view_entries(es@);
        proof {
            lemma_view_entries_len(es@);
            assert(j@ == JsonV::Object(ves));
        }
        let mut m = Self::default();
        let mut seen: Vec<bool> = vec![false];
        let mut i: usize = 0;
        proof {
            assert(seen@ =~= Self::spec_start().1);
            assert(ves.skip(0) == ves);
        }
        while i < es.len()
            invariant
                j@ == JsonV::Object(ves),
                ves == view_entries(es@),
                ves.len() == es@.len(),
                i <= es.len(),
                seen@.len() == 1,
                fold_entries(Self::spec_start(), ves, Self::step_fn())
                    == fold_entries((m@, seen@), ves.skip(i as int), Self::step_fn()),
            decreases es.len() - i,
        {
            proof {
                lemma_view_entries_index(es@, i as int);
                lemma_fold_entries_step((m@, seen@), ves, i as int, Self::step_fn());
            }
            match Self::step(m, seen, &es[i].0, &es[i].1) {
                Ok((m2, seen2)) => {
                    m = m2;
                    seen = seen2;
                },
                Err(e) => return Err(e),
            }
            i = i + 1;
        }
        proof {
            assert(ves.skip(ves.len() as int) == Seq::<(Seq<char>, JsonV)>::empty());
            assert(fold_entries((m@, seen@), ves.skip(ves.len() as int), Self::step_fn())
                == Ok::<(Ics20TransferDepositV, Seq<bool>), JsonErrorV>((m@, seen@)));
        }
        Ok(m)
    }

    /// Reads an optional field of this message type.
    pub fn opt_from_json(v: &Json) -> (r: Result<Option<Self>, JsonError>)
        ensures
            match r {
                Ok(None) => Self::spec_read_opt(v@) == Ok::<Option<Ics20TransferDepositV>, JsonErrorV>(None),
                Ok(Some(x)) => Self::spec_read_opt(v@) == Ok::<Option<Ics20TransferDepositV>, JsonErrorV>(Some(x@)),
                Err(e) => Self::spec_read_opt(v@) == Err::<Option<Ics20TransferDepositV>, JsonErrorV>(e@),
            },
    {
        match v {
            Json::Null => Ok(None),
            _ => match Self::from_json(v) {
                Ok(x) => Ok(Some(x)),
                Err(e) => Err(e),
            },
        }
    }

    /// Reading the member that the field `rollup_deposit_address` writes sets the field.
    pub proof fn lemma_entry_rollup_deposit_address(m: Ics20TransferDepositV, st: (Ics20TransferDepositV, Seq<bool>))
        requires
            st.1.len() == 1,
            !st.1[0],
            st.0.rollup_deposit_address == Seq::<char>::empty(),
        ensures
            fold_entries(st, Self::spec_entry_rollup_deposit_address(m), Self::step_fn()) == Ok::<(Ics20TransferDepositV, Seq<bool>), JsonErrorV>((Ics20TransferDepositV { rollup_deposit_address: m.rollup_deposit_address }, if m.rollup_deposit_address.len() != 0 { st.1.update(0, true) } else { st.1 })),
    {
        reveal_strlit("rollupDepositAddress");
        reveal_strlit("rollup_deposit_address");
        assert("rollupDepositAddress"@.len() == 20);
        assert("rollup_deposit_address"@.len() == 22);
        if m.rollup_deposit_address.len() == 0 {
            assert(m.rollup_deposit_address =~= Seq::<char>::empty());
        }
        lemma_fold_entry_if(st, m.rollup_deposit_address.len() != 0, "rollupDepositAddress"@, JsonV::Str(m.rollup_deposit_address), Self::step_fn());
    }

    /// The JSON spelling of a key: the protobuf name of a field becomes its JSON name;
    /// a JSON name, and any key that names no field, is left as it is.
    pub open spec fn spec_json_key(key: Seq<char>) -> Seq<char> {
        if key == "rollupDepositAddress"@ || key == "rollup_deposit_address"@ {
            "rollupDepositAddress"@
        } else {
            key
        }
    }

    /// [`Self::spec_json_key`] as a function value.
    pub open spec fn json_key_fn() -> spec_fn(Seq<char>) -> Seq<char> {
        |key: Seq<char>| Self::spec_json_key(key)
    }

    /// One member is read alike whichever spelling its key has.
    pub proof fn lemma_step_json_key(st: (Ics20TransferDepositV, Seq<bool>), key: Seq<char>, v: JsonV)
        ensures Self::spec_step(st, key, v) == Self::spec_step(st, Self::spec_json_key(key), v),
    {
        reveal_strlit("rollupDepositAddress");
        reveal_strlit("rollup_deposit_address");
        assert("rollupDepositAddress"@.len() == 20);
        assert("rollup_deposit_address"@.len() == 22);
        if key == "rollup_deposit_address"@ {
            assert(Self::spec_json_key(key) == "rollupDepositAddress"@);
        }
    }

    /// Reading an object gives the same result whichever spelling each of its keys has:
    /// two objects whose members hold the same values, in the same order, under keys of
    /// the same JSON spelling describe the same message, or are refused with the same error.
    pub proof fn lemma_key_spelling(es1: Seq<(Seq<char>, JsonV)>, es2: Seq<(Seq<char>, JsonV)>)
        requires
            es1.len() == es2.len(),
            forall|i: int| #![trigger es1[i], es2[i]] 0 <= i < es1.len() ==> es1[i].1 == es2[i].1 && Self::spec_json_key(es1[i].0) == Self::spec_json_key(es2[i].0),
        ensures Self::spec_from_json(JsonV::Object(es1)) == Self::spec_from_json(JsonV::Object(es2)),
    {
        assert forall|s: (Ics20TransferDepositV, Seq<bool>), k: Seq<char>, v: JsonV|
            #![trigger Self::step_fn()(s, k, v), Self::json_key_fn()(k)]
            Self::step_fn()(s, k, v) == Self::step_fn()(s, Self::json_key_fn()(k), v) by {
            Self::lemma_step_json_key(s, k, v);
        }
        lemma_fold_same_keys(Self::spec_start(), es1, es2, Self::step_fn(), Self::json_key_fn());
    }

    /// The keys of the object that the message writes: the JSON names of the fields that
    /// do not hold their default (for a oneof, the JSON name of the member set), in the
    /// order of the fields.
    pub open spec fn spec_written_keys(m: Ics20TransferDepositV) -> Seq<Seq<char>> {
        key_if(m.rollup_deposit_address.len() != 0, "rollupDepositAddress"@)
    }

    /// The object that the message writes has exactly the keys of
    /// [`Self::spec_written_keys`], in that order.
    pub proof fn lemma_written_keys(m: Ics20TransferDepositV)
        ensures
            Self::spec_to_json(m) == JsonV::Object(Self::spec_entries(m)),
            entry_keys(Self::spec_entries(m)) == Self::spec_written_keys(m),
    {
        lemma_entry_keys_if(m.rollup_deposit_address.len() != 0, "rollupDepositAddress"@, JsonV::Str(m.rollup_deposit_address));
    }

    /// Whether the field whose JSON name is `name` holds its default in `m`; for a member
    /// of a oneof, whether the oneof is set to another member or unset. `true` for a name
    /// that names no field.
    pub open spec fn spec_holds_default(m: Ics20TransferDepositV, name: Seq<char>) -> bool {
        if name == "rollupDepositAddress"@ {
            m.rollup_deposit_address == Seq::<char>::empty()
        } else {
            true
        }
    }

    /// Whether reading `v` for the field whose JSON name is `name` leaves the field at
    /// its default: `null`, for a field that takes it (a message field, a member of a
    /// oneof); nothing, for any other field. `true` for a name that names no field.
    pub open spec fn spec_leaves_default(name: Seq<char>, v: JsonV) -> bool {
        if name == "rollupDepositAddress"@ {
            false
        } else {
            true
        }
    }

    /// Reading one member keeps a field at its default unless the key names the field
    /// and the value does not leave it there.
    pub proof fn lemma_step_keeps_default(st: (Ics20TransferDepositV, Seq<bool>), key: Seq<char>, v: JsonV, name: Seq<char>)
        requires
            Self::spec_holds_default(st.0, name),
            Self::spec_json_key(key) == name ==> Self::spec_leaves_default(name, v),
        ensures
            Self::spec_step(st, key, v) is Ok ==> Self::spec_holds_default(Self::spec_step(st, key, v)->Ok_0.0, name),
    {
        reveal_strlit("rollupDepositAddress");
        reveal_strlit("rollup_deposit_address");
        assert("rollupDepositAddress"@.len() == 20);
        assert("rollup_deposit_address"@.len() == 22);
        Self::lemma_step_json_key(st, key, v);
    }

    /// A field whose key appears in no member of an object, or only with values that
    /// leave it at its default (`null`, for a field that takes it), holds its default in
    /// the message that the object describes.
    pub proof fn lemma_absent_default(es: Seq<(Seq<char>, JsonV)>, name: Seq<char>)
        requires
            forall|i: int| 0 <= i < es.len() ==> (Self::spec_json_key((#[trigger] es[i]).0) == name
                ==> Self::spec_leaves_default(name, es[i].1)),
        ensures
            Self::spec_from_json(JsonV::Object(es)) is Ok
                ==> Self::spec_holds_default(Self::spec_from_json(JsonV::Object(es))->Ok_0, name),
    {
        let inv = |s: (Ics20TransferDepositV, Seq<bool>)| Self::spec_holds_default(s.0, name);
        let allowed = |k: Seq<char>, v: JsonV| Self::spec_json_key(k) == name ==> Self::spec_leaves_default(name, v);
        assert forall|s: (Ics20TransferDepositV, Seq<bool>), k: Seq<char>, v: JsonV| #![trigger Self::step_fn()(s, k, v)]
            inv(s) && allowed(k, v) && Self::step_fn()(s, k, v) is Ok implies inv(Self::step_fn()(s, k, v)->Ok_0) by {
            Self::lemma_step_keeps_default(s, k, v, name);
        }
        assert(inv(Self::spec_start()));
        lemma_fold_keeps(Self::spec_start(), es, Self::step_fn(), inv, allowed);
    }

    /// The field `rollup_deposit_address` alone: an object with one member under its JSON or protobuf
    /// name reads as the message with that field set and every other field at its
    /// default, and the message with only that field off its default writes that
    /// one member under the JSON name.
    pub proof fn lemma_field_rollup_deposit_address(s: Seq<char>)
        ensures
            Self::spec_from_json(JsonV::Object(seq![("rollupDepositAddress"@, JsonV::Str(s))])) == Ok::<Ics20TransferDepositV, JsonErrorV>(Ics20TransferDepositV { rollup_deposit_address: s }),
            Self::spec_from_json(JsonV::Object(seq![("rollup_deposit_address"@, JsonV::Str(s))])) == Ok::<Ics20TransferDepositV, JsonErrorV>(Ics20TransferDepositV { rollup_deposit_address: s }),
            s.len() > 0 ==> Self::spec_to_json(Ics20TransferDepositV { rollup_deposit_address: s }) == JsonV::Object(seq![("rollupDepositAddress"@, JsonV::Str(s))]),
    {
        reveal_strlit("rollupDepositAddress");
        reveal_strlit("rollup_deposit_address");
        assert("rollupDepositAddress"@.len() == 20);
        assert("rollup_deposit_address"@.len() == 22);
        lemma_fold_entry_if(Self::spec_start(), true, "rollupDepositAddress"@, JsonV::Str(s), Self::step_fn());
        lemma_fold_entry_if(Self::spec_start(), true, "rollup_deposit_address"@, JsonV::Str(s), Self::step_fn());
    }

    /// Reading back the JSON object of a message gives the message.
    pub proof fn lemma_json_roundtrip(m: Ics20TransferDepositV)
        ensures Self::spec_from_json(Self::spec_to_json(m)) == Ok::<Ics20TransferDepositV, JsonErrorV>(m),
    {
        let step = Self::step_fn();
        let s0 = Self::spec_start();
        let s1 = (Ics20TransferDepositV { rollup_deposit_address: m.rollup_deposit_address }, if m.rollup_deposit_address.len() != 0 { s0.1.update(0, true) } else { s0.1 });
        Self::lemma_entry_rollup_deposit_address(m, s0);
        let p1 = Self::spec_entry_rollup_deposit_address(m);
        assert(s1.0 == m);
    }
}
} // verus!
