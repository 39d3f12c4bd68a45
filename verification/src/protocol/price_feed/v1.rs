//! Prices reported to the sequencer with the commits of its validators.
//!
//! Each message is read from and written to JSON as the protobuf JSON mapping
//! does it (`astria.protocol.price_feed.v1`).

use vstd::prelude::*;
use crate::decimal::decimal;
use crate::embedded::{embedded_field, embedded_value, opt_embedded_view};
use crate::fields::{lemma_read_u64_value, read_embedded, read_u64, u64_field, u64_value};
use crate::json::{
    entry_if, fold_entries, lemma_fold_entries_append, lemma_fold_entries_step, lemma_fold_entry_if,
    lemma_view_entries_index, lemma_view_entries_len, lemma_view_items_index, lemma_view_items_len,
    push_entry, str_eq, view_entries, view_items, Json, JsonError, JsonErrorV, JsonV, entry_keys,
    key_if, lemma_entry_keys_if, lemma_entry_keys_append, lemma_fold_same_keys, lemma_fold_keeps,
};
use crate::lists::{
    lemma_read_list_next, lemma_read_list_prefix_error, lemma_read_list_roundtrip, read_array,
    read_list,
};
use crate::foreign::{CurrencyPair, ExtendedCommitInfo};

verus! {

/// The `astria.protocol.price_feed.v1.ExtendedCommitInfoWithCurrencyPairMapping` message.
#[derive(Clone, Debug, PartialEq)]
pub struct ExtendedCommitInfoWithCurrencyPairMapping {
    pub extended_commit_info: Option<ExtendedCommitInfo>,
    pub id_to_currency_pair: Vec<IdWithCurrencyPair>,
}

/// The mathematical content of an [`ExtendedCommitInfoWithCurrencyPairMapping`].
pub struct ExtendedCommitInfoWithCurrencyPairMappingV {
    pub extended_commit_info: Option<Seq<(Seq<char>, JsonV)>>,
    pub id_to_currency_pair: Seq<IdWithCurrencyPairV>,
}

impl View for ExtendedCommitInfoWithCurrencyPairMapping {
    type V = ExtendedCommitInfoWithCurrencyPairMappingV;

    open spec fn view(&self) -> ExtendedCommitInfoWithCurrencyPairMappingV {
        ExtendedCommitInfoWithCurrencyPairMappingV {
            extended_commit_info: opt_embedded_view(self.extended_commit_info),
            id_to_currency_pair: IdWithCurrencyPair::view_list(self.id_to_currency_pair@),
        }
    }
}

impl Default for ExtendedCommitInfoWithCurrencyPairMapping {
    fn default() -> (r: Self)
        ensures r@ == ExtendedCommitInfoWithCurrencyPairMapping::spec_default(),
    {
        let r = ExtendedCommitInfoWithCurrencyPairMapping {
            extended_commit_info: None,
            id_to_currency_pair: Vec::new(),
        };
        proof {
            assert(IdWithCurrencyPair::view_list(r.id_to_currency_pair@) =~= Seq::<IdWithCurrencyPairV>::empty());
        }
        r
    }
}

impl ExtendedCommitInfoWithCurrencyPairMapping {
    /// The fully qualified protobuf name of the message.
    pub fn full_name() -> (r: String)
        ensures r@ == "astria.protocol.price_feed.v1.ExtendedCommitInfoWithCurrencyPairMapping"@,
    {
        "astria.protocol.price_feed.v1.ExtendedCommitInfoWithCurrencyPairMapping".to_string()
    }

    /// Every field at its default: empty strings, bytes and lists, zero, `false`, unset.
    pub open spec fn spec_default() -> ExtendedCommitInfoWithCurrencyPairMappingV {
        ExtendedCommitInfoWithCurrencyPairMappingV {
            extended_commit_info: None,
            id_to_currency_pair: Seq::<IdWithCurrencyPairV>::empty(),
        }
    }

    /// The view of an optional field of this message type.
    pub open spec fn view_opt(o: Option<Self>) -> Option<ExtendedCommitInfoWithCurrencyPairMappingV> {
        match o {
            Some(x) => Some(x@),
            None => None,
        }
    }

    /// The view of a repeated field of this message type.
    pub open spec fn view_list(v: Seq<Self>) -> Seq<ExtendedCommitInfoWithCurrencyPairMappingV> {
        v.map_values(|x: Self| x@)
    }

    /// The member that the field `extended_commit_info` writes: none where it holds its default.
    pub open spec fn spec_entry_extended_commit_info(m: ExtendedCommitInfoWithCurrencyPairMappingV) -> Seq<(Seq<char>, JsonV)> {
        entry_if(m.extended_commit_info is Some, "extendedCommitInfo"@, JsonV::Object(m.extended_commit_info.unwrap()))
    }

    /// The member that the field `id_to_currency_pair` writes: none where it holds its default.
    pub open spec fn spec_entry_id_to_currency_pair(m: ExtendedCommitInfoWithCurrencyPairMappingV) -> Seq<(Seq<char>, JsonV)> {
        entry_if(m.id_to_currency_pair.len() != 0, "idToCurrencyPair"@, JsonV::Array(m.id_to_currency_pair.map_values(IdWithCurrencyPair::writer())))
    }

    /// The members of the JSON object of the message: each field that does not hold
    /// its default, under its JSON name, in the order of the fields.
    pub open spec fn spec_entries(m: ExtendedCommitInfoWithCurrencyPairMappingV) -> Seq<(Seq<char>, JsonV)> {
        Self::spec_entry_extended_commit_info(m) + Self::spec_entry_id_to_currency_pair(m)
    }

    /// The JSON object that the protobuf JSON mapping writes for the message.
    pub open spec fn spec_to_json(m: ExtendedCommitInfoWithCurrencyPairMappingV) -> JsonV {
        JsonV::Object(Self::spec_entries(m))
    }

    /// [`Self::spec_to_json`] as a function value, for repeated fields.
    pub open spec fn writer() -> spec_fn(ExtendedCommitInfoWithCurrencyPairMappingV) -> JsonV {
        |m: ExtendedCommitInfoWithCurrencyPairMappingV| Self::spec_to_json(m)
    }

    fn write_extended_commit_info(&self, es: &mut Vec<(String, Json)>)
        ensures
            view_entries(final(es)@) == view_entries(old(es)@) + Self::spec_entry_extended_commit_info(self@),
    {
        match &self.extended_commit_info {
            Some(x) => push_entry(es, "extendedCommitInfo", embedded_value(x)),
            None => {},
        }
        assert(view_entries(es@) =~= view_entries(old(es)@) + Self::spec_entry_extended_commit_info(self@));
    }

    fn write_id_to_currency_pair(&self, es: &mut Vec<(String, Json)>)
        ensures
            view_entries(final(es)@) == view_entries(old(es)@) + Self::spec_entry_id_to_currency_pair(self@),
    {
        if self.id_to_currency_pair.len() != 0 {
            push_entry(es, "idToCurrencyPair", IdWithCurrencyPair::list_to_json(&self.id_to_currency_pair));
        }
        assert(view_entries(es@) =~= view_entries(old(es)@) + Self::spec_entry_id_to_currency_pair(self@));
    }

    /// Writes the message as a JSON object; reading it back gives the message.
    pub fn to_json(&self) -> (r: Json)
        ensures
            r@ == Self::spec_to_json(self@),
            Self::spec_from_json(r@) == Ok::<ExtendedCommitInfoWithCurrencyPairMappingV, JsonErrorV>(self@),
    {
        let mut es: Vec<(String, Json)> = Vec::new();
        let ghost mut acc: Seq<(Seq<char>, JsonV)> = Seq::empty();
        proof {
            assert(view_entries(es@) =~= acc);
        }
        self.write_extended_commit_info(&mut es);
        proof {
            acc = acc + Self::spec_entry_extended_commit_info(self@);
        }
        self.write_id_to_currency_pair(&mut es);
        proof {
            acc = acc + Self::spec_entry_id_to_currency_pair(self@);
        }
        proof {
            assert(acc =~= Self::spec_entries(self@));
            Self::lemma_json_roundtrip(self@);
        }
        Json::Object(es)
    }

    /// Reads one member of the object into the message under construction; `seen`
    /// records which fields that have no unset state were already given.
    pub open spec fn spec_step(st: (ExtendedCommitInfoWithCurrencyPairMappingV, Seq<bool>), key: Seq<char>, v: JsonV) -> Result<(ExtendedCommitInfoWithCurrencyPairMappingV, Seq<bool>), JsonErrorV> {
        let m = st.0;
        let seen = st.1;
        if key == "extendedCommitInfo"@ || key == "extended_commit_info"@ {
            if m.extended_commit_info is Some {
                Err(JsonErrorV::DuplicateField("extendedCommitInfo"@))
            } else {
                match read_embedded(v) {
                    Ok(x) => Ok((ExtendedCommitInfoWithCurrencyPairMappingV { extended_commit_info: x, ..m }, seen)),
                    Err(e) => Err(e),
                }
            }
        } else if key == "idToCurrencyPair"@ || key == "id_to_currency_pair"@ {
            if seen[0] {
                Err(JsonErrorV::DuplicateField("idToCurrencyPair"@))
            } else {
                match read_array(v, IdWithCurrencyPair::reader()) {
                    Ok(x) => Ok((ExtendedCommitInfoWithCurrencyPairMappingV { id_to_currency_pair: x, ..m }, seen.update(0, true))),
                    Err(e) => Err(e),
                }
            }
        } else {
            Err(JsonErrorV::UnknownField(key))
        }
    }

    /// [`Self::spec_step`] as a function value.
    pub open spec fn step_fn() -> spec_fn((ExtendedCommitInfoWithCurrencyPairMappingV, Seq<bool>), Seq<char>, JsonV) -> Result<(ExtendedCommitInfoWithCurrencyPairMappingV, Seq<bool>), JsonErrorV> {
        |st: (ExtendedCommitInfoWithCurrencyPairMappingV, Seq<bool>), key: Seq<char>, v: JsonV| Self::spec_step(st, key, v)
    }

    /// The state before the first member is read: the default message, no field seen.
    pub open spec fn spec_start() -> (ExtendedCommitInfoWithCurrencyPairMappingV, Seq<bool>) {
        (Self::spec_default(), seq![false])
    }

    /// The message that a JSON value describes: an object whose keys each name a field
    /// (by its JSON name or its protobuf name), at most once each; fields that are not
    /// given keep their default. The first member that is refused gives the error.
    pub open spec fn spec_from_json(j: JsonV) -> Result<ExtendedCommitInfoWithCurrencyPairMappingV, JsonErrorV> {
        match j {
            JsonV::Object(es) => match fold_entries(Self::spec_start(), es, Self::step_fn()) {
                Ok(st) => Ok(st.0),
                Err(e) => Err(e),
            },
            _ => Err(JsonErrorV::ExpectedObject),
        }
    }

    /// [`Self::spec_from_json`] as a function value, for repeated fields.
    pub open spec fn reader() -> spec_fn(JsonV) -> Result<ExtendedCommitInfoWithCurrencyPairMappingV, JsonErrorV> {
        |v: JsonV| Self::spec_from_json(v)
    }

    /// An optional field of this message type: `null` leaves it unset.
    pub open spec fn spec_read_opt(v: JsonV) -> Result<Option<ExtendedCommitInfoWithCurrencyPairMappingV>, JsonErrorV> {
        match v {
            JsonV::Null => Ok(None),
            _ => match Self::spec_from_json(v) {
                Ok(x) => Ok(Some(x)),
                Err(e) => Err(e),
            },
        }
    }

    fn step(m: Self, seen: Vec<bool>, key: &String, v: &Json) -> (r: Result<(Self, Vec<bool>), JsonError>)
        requires seen@.len() == 1,
        ensures
            match r {
                Ok((m2, seen2)) => Self::spec_step((m@, seen@), key@, v@) == Ok::<(ExtendedCommitInfoWithCurrencyPairMappingV, Seq<bool>), JsonErrorV>((m2@, seen2@)) && seen2@.len() == 1,
                Err(e) => Self::spec_step((m@, seen@), key@, v@) == Err::<(ExtendedCommitInfoWithCurrencyPairMappingV, Seq<bool>), JsonErrorV>(e@),
            },
    {
        let mut m = m;
        let mut seen = seen;
        let k = key.as_str();
        if str_eq(k, "extendedCommitInfo") || str_eq(k, "extended_commit_info") {
            if m.extended_commit_info.is_some() {
                return Err(JsonError::DuplicateField("extendedCommitInfo".to_string()));
            }
            match embedded_field(v) {
                Ok(x) => m.extended_commit_info = x,
                Err(e) => return Err(e),
            }
        } else if str_eq(k, "idToCurrencyPair") || str_eq(k, "id_to_currency_pair") {
            if seen[0] {
                return Err(JsonError::DuplicateField("idToCurrencyPair".to_string()));
            }
            match IdWithCurrencyPair::list_from_json(v) {
                Ok(x) => m.id_to_currency_pair = x,
                Err(e) => return Err(e),
            }
            seen.set(0, true);
        } else {
            return Err(JsonError::UnknownField(key.clone()));
        }
        Ok((m, seen))
    }

    /// Reads the message from a JSON value, as [`Self::spec_from_json`] describes.
    pub fn from_json(j: &Json) -> (r: Result<Self, JsonError>)
        ensures
            match r {
                Ok(m) => Self::spec_from_json(j@) == Ok::<ExtendedCommitInfoWithCurrencyPairMappingV, JsonErrorV>(m@),
                Err(e) => Self::spec_from_json(j@) == Err::<ExtendedCommitInfoWithCurrencyPairMappingV, JsonErrorV>(e@),
            },
    {
        let es = match j {
            Json::Object(es) => es,
            _ => return Err(JsonError::ExpectedObject),
        };
        let ghost ves = view_entries(es@);
        proof {
            lemma_view_entries_len(es@);
            assert(j@ == JsonV::Object(ves));
        }
        let mut m = Self::default();
        let mut seen: Vec<bool> = vec![false];
        let mut i: usize = 0;
        proof {
            assert(seen@ =~= Self::spec_start().1);
            assert(ves.skip(0) == ves);
        }
        while i < es.len()
            invariant
                j@ == JsonV::Object(ves),
                ves == view_entries(es@),
                ves.len() == es@.len(),
                i <= es.len(),
                seen@.len() == 1,
                fold_entries(Self::spec_start(), ves, Self::step_fn())
                    == fold_entries((m@, seen@), ves.skip(i as int), Self::step_fn()),
            decreases es.len() - i,
        {
            proof {
                lemma_view_entries_index(es@, i as int);
                lemma_fold_entries_step((m@, seen@), ves, i as int, Self::step_fn());
            }
            match Self::step(m, seen, &es[i].0, &es[i].1) {
                Ok((m2, seen2)) => {
                    m = m2;
                    seen = seen2;
                },
                Err(e) => return Err(e),
            }
            i = i + 1;
        }
        proof {
            assert(ves.skip(ves.len() as int) == Seq::<(Seq<char>, JsonV)>::empty());
            assert(fold_entries((m@, seen@), ves.skip(ves.len() as int), Self::step_fn())
                == Ok::<(ExtendedCommitInfoWithCurrencyPairMappingV, Seq<bool>), JsonErrorV>((m@, seen@)));
        }
        Ok(m)
    }

    /// Reads an optional field of this message type.
    pub fn opt_from_json(v: &Json) -> (r: Result<Option<Self>, JsonError>)
        ensures
            match r {
                Ok(None) => Self::spec_read_opt(v@) == Ok::<Option<ExtendedCommitInfoWithCurrencyPairMappingV>, JsonErrorV>(None),
                Ok(Some(x)) => Self::spec_read_opt(v@) == Ok::<Option<ExtendedCommitInfoWithCurrencyPairMappingV>, JsonErrorV>(Some(x@)),
                Err(e) => Self::spec_read_opt(v@) == Err::<Option<ExtendedCommitInfoWithCurrencyPairMappingV>, JsonErrorV>(e@),
            },
    {
        match v {
            Json::Null => Ok(None),
            _ => match Self::from_json(v) {
                Ok(x) => Ok(Some(x)),
                Err(e) => Err(e),
            },
        }
    }

    /// Reading the member that the field `extended_commit_info` writes sets the field.
    pub proof fn lemma_entry_extended_commit_info(m: ExtendedCommitInfoWithCurrencyPairMappingV, st: (ExtendedCommitInfoWithCurrencyPairMappingV, Seq<bool>))
        requires
            st.1.len() == 1,
            st.0.extended_commit_info is None,
        ensures
            fold_entries(st, Self::spec_entry_extended_commit_info(m), Self::step_fn()) == Ok::<(ExtendedCommitInfoWithCurrencyPairMappingV, Seq<bool>), JsonErrorV>((ExtendedCommitInfoWithCurrencyPairMappingV { extended_commit_info: m.extended_commit_info, ..st.0 }, st.1)),
    {
        reveal_strlit("extendedCommitInfo");
        reveal_strlit("extended_commit_info");
        reveal_strlit("idToCurrencyPair");
        reveal_strlit("id_to_currency_pair");
        assert("extendedCommitInfo"@.len() == 18);
        assert("extended_commit_info"@.len() == 20);
        assert("idToCurrencyPair"@.len() == 16);
        assert("id_to_currency_pair"@.len() == 19);
        lemma_fold_entry_if(st, m.extended_commit_info is Some, "extendedCommitInfo"@, JsonV::Object(m.extended_commit_info.unwrap()), Self::step_fn());
    }

    /// Reading the member that the field `id_to_currency_pair` writes sets the field.
    pub proof fn lemma_entry_id_to_currency_pair(m: ExtendedCommitInfoWithCurrencyPairMappingV, st: (ExtendedCommitInfoWithCurrencyPairMappingV, Seq<bool>))
        requires
            st.1.len() == 1,
            !st.1[0],
            st.0.id_to_currency_pair == Seq::<IdWithCurrencyPairV>::empty(),
        ensures
            fold_entries(st, Self::spec_entry_id_to_currency_pair(m), Self::step_fn()) == Ok::<(ExtendedCommitInfoWithCurrencyPairMappingV, Seq<bool>), JsonErrorV>((ExtendedCommitInfoWithCurrencyPairMappingV { id_to_currency_pair: m.id_to_currency_pair, ..st.0 }, if m.id_to_currency_pair.len() != 0 { st.1.update(0, true) } else { st.1 })),
    {
        reveal_strlit("extendedCommitInfo");
        reveal_strlit("extended_commit_info");
        reveal_strlit("idToCurrencyPair");
        reveal_strlit("id_to_currency_pair");
        assert("extendedCommitInfo"@.len() == 18);
        assert("extended_commit_info"@.len() == 20);
        assert("idToCurrencyPair"@.len() == 16);
        assert("id_to_currency_pair"@.len() == 19);
        if m.id_to_currency_pair.len() == 0 {
            assert(m.id_to_currency_pair =~= Seq::<IdWithCurrencyPairV>::empty());
        }
        IdWithCurrencyPair::lemma_list_roundtrip(m.id_to_currency_pair);
        lemma_fold_entry_if(st, m.id_to_currency_pair.len() != 0, "idToCurrencyPair"@, JsonV::Array(m.id_to_currency_pair.map_values(IdWithCurrencyPair::writer())), Self::step_fn());
    }

    /// The JSON spelling of a key: the protobuf name of a field becomes its JSON name;
    /// a JSON name, and any key that names no field, is left as it is.
    pub open spec fn spec_json_key(key: Seq<char>) -> Seq<char> {
        if key == "extendedCommitInfo"@ || key == "extended_commit_info"@ {
            "extendedCommitInfo"@
        } else if key == "idToCurrencyPair"@ || key == "id_to_currency_pair"@ {
            "idToCurrencyPair"@
        } else {
            key
        }
    }

    /// [`Self::spec_json_key`] as a function value.
    pub open spec fn json_key_fn() -> spec_fn(Seq<char>) -> Seq<char> {
        |key: Seq<char>| Self::spec_json_key(key)
    }

    /// One member is read alike whichever spelling its key has.
    pub proof fn lemma_step_json_key(st: (ExtendedCommitInfoWithCurrencyPairMappingV, Seq<bool>), key: Seq<char>, v: JsonV)
        ensures Self::spec_step(st, key, v) == Self::spec_step(st, Self::spec_json_key(key), v),
    {
        reveal_strlit("extendedCommitInfo");
        reveal_strlit("extended_commit_info");
        reveal_strlit("idToCurrencyPair");
        reveal_strlit("id_to_currency_pair");
        assert("extendedCommitInfo"@.len() == 18);
        assert("extended_commit_info"@.len() == 20);
        assert("idToCurrencyPair"@.len() == 16);
        assert("id_to_currency_pair"@.len() == 19);
        if key == "extended_commit_info"@ {
            assert(Self::spec_json_key(key) == "extendedCommitInfo"@);
        }
        if key == "id_to_currency_pair"@ {
            assert(Self::spec_json_key(key) == "idToCurrencyPair"@);
        }
    }

    /// Reading an object gives the same result whichever spelling each of its keys has:
    /// two objects whose members hold the same values, in the same order, under keys of
    /// the same JSON spelling describe the same message, or are refused with the same error.
    pub proof fn lemma_key_spelling(es1: Seq<(Seq<char>, JsonV)>, es2: Seq<(Seq<char>, JsonV)>)
        requires
            es1.len() == es2.len(),
            forall|i: int| #![trigger es1[i], es2[i]] 0 <= i < es1.len() ==> es1[i].1 == es2[i].1 && Self::spec_json_key(es1[i].0) == Self::spec_json_key(es2[i].0),
        ensures Self::spec_from_json(JsonV::Object(es1)) == Self::spec_from_json(JsonV::Object(es2)),
    {
        assert forall|s: (ExtendedCommitInfoWithCurrencyPairMappingV, Seq<bool>), k: Seq<char>, v: JsonV|
            #![trigger Self::step_fn()(s, k, v), Self::json_key_fn()(k)]
            Self::step_fn()(s, k, v) == Self::step_fn()(s, Self::json_key_fn()(k), v) by {
            Self::lemma_step_json_key(s, k, v);
        }
        lemma_fold_same_keys(Self::spec_start(), es1, es2, Self::step_fn(), Self::json_key_fn());
    }

    /// The keys of the object that the message writes: the JSON names of the fields that
    /// do not hold their default (for a oneof, the JSON name of the member set), in the
    /// order of the fields.
    pub open spec fn spec_written_keys(m: ExtendedCommitInfoWithCurrencyPairMappingV) -> Seq<Seq<char>> {
        key_if(m.extended_commit_info is Some, "extendedCommitInfo"@)
            + key_if(m.id_to_currency_pair.len() != 0, "idToCurrencyPair"@)
    }

    /// The object that the message writes has exactly the keys of
    /// [`Self::spec_written_keys`], in that order.
    pub proof fn lemma_written_keys(m: ExtendedCommitInfoWithCurrencyPairMappingV)
        ensures
            Self::spec_to_json(m) == JsonV::Object(Self::spec_entries(m)),
            entry_keys(Self::spec_entries(m)) == Self::spec_written_keys(m),
    {
        lemma_entry_keys_if(m.extended_commit_info is Some, "extendedCommitInfo"@, JsonV::Object(m.extended_commit_info.unwrap()));
        lemma_entry_keys_append(Self::spec_entry_extended_commit_info(m), m.id_to_currency_pair.len() != 0, "idToCurrencyPair"@, JsonV::Array(m.id_to_currency_pair.map_values(IdWithCurrencyPair::writer())));
    }

    /// Whether the field whose JSON name is `name` holds its default in `m`; for a member
    /// of a oneof, whether the oneof is set to another member or unset. `true` for a name
    /// that names no field.
    pub open spec fn spec_holds_default(m: ExtendedCommitInfoWithCurrencyPairMappingV, name: Seq<char>) -> bool {
        if name == "extendedCommitInfo"@ {
            m.extended_commit_info is None
        } else if name == "idToCurrencyPair"@ {
            m.id_to_currency_pair == Seq::<IdWithCurrencyPairV>::empty()
        } else {
            true
        }
    }

    /// Whether reading `v` for the field whose JSON name is `name` leaves the field at
    /// its default: `null`, for a field that takes it (a message field, a member of a
    /// oneof); nothing, for any other field. `true` for a name that names no field.
    pub open spec fn spec_leaves_default(name: Seq<char>, v: JsonV) -> bool {
        if name == "extendedCommitInfo"@ {
            v is Null
        } else if name == "idToCurrencyPair"@ {
            false
        } else {
            true
        }
    }

    /// Reading one member keeps a field at its default unless the key names the field
    /// and the value does not leave it there.
    pub proof fn lemma_step_keeps_default(st: (ExtendedCommitInfoWithCurrencyPairMappingV, Seq<bool>), key: Seq<char>, v: JsonV, name: Seq<char>)
        requires
            Self::spec_holds_default(st.0, name),
            Self::spec_json_key(key) == name ==> Self::spec_leaves_default(name, v),
        ensures
            Self::spec_step(st, key, v) is Ok ==> Self::spec_holds_default(Self::spec_step(st, key, v)->Ok_0.0, name),
    {
        reveal_strlit("extendedCommitInfo");
        reveal_strlit("extended_commit_info");
        reveal_strlit("idToCurrencyPair");
        reveal_strlit("id_to_currency_pair");
        assert("extendedCommitInfo"@.len() == 18);
        assert("extended_commit_info"@.len() == 20);
        assert("idToCurrencyPair"@.len() == 16);
        assert("id_to_currency_pair"@.len() == 19);
        Self::lemma_step_json_key(st, key, v);
    }

    /// A field whose key appears in no member of an object, or only with values that
    /// leave it at its default (`null`, for a field that takes it), holds its default in
    /// the message that the object describes.
    pub proof fn lemma_absent_default(es: Seq<(Seq<char>, JsonV)>, name: Seq<char>)
        requires
            forall|i: int| 0 <= i < es.len() ==> (Self::spec_json_key((#[trigger] es[i]).0) == name
                ==> Self::spec_leaves_default(name, es[i].1)),
        ensures
            Self::spec_from_json(JsonV::Object(es)) is Ok
                ==> Self::spec_holds_default(Self::spec_from_json(JsonV::Object(es))->Ok_0, name),
    {
        let inv = |s: (ExtendedCommitInfoWithCurrencyPairMappingV, Seq<bool>)| Self::spec_holds_default(s.0, name);
        let allowed = |k: Seq<char>, v: JsonV| Self::spec_json_key(k) == name ==> Self::spec_leaves_default(name, v);
        assert forall|s: (ExtendedCommitInfoWithCurrencyPairMappingV, Seq<bool>), k: Seq<char>, v: JsonV| #![trigger Self::step_fn()(s, k, v)]
            inv(s) && allowed(k, v) && Self::step_fn()(s, k, v) is Ok implies inv(Self::step_fn()(s, k, v)->Ok_0) by {
            Self::lemma_step_keeps_default(s, k, v, name);
        }
        assert(inv(Self::spec_start()));
        lemma_fold_keeps(Self::spec_start(), es, Self::step_fn(), inv, allowed);
    }

    /// The field `extended_commit_info` alone: an object with one member under its JSON or protobuf
    /// name reads as the message with that field set and every other field at its
    /// default, and the message with only that field off its default writes that
    /// one member under the JSON name.
    pub proof fn lemma_field_extended_commit_info(es: Seq<(Seq<char>, JsonV)>)
        ensures
            Self::spec_from_json(JsonV::Object(seq![("extendedCommitInfo"@, JsonV::Object(es))])) == Ok::<ExtendedCommitInfoWithCurrencyPairMappingV, JsonErrorV>(ExtendedCommitInfoWithCurrencyPairMappingV { extended_commit_info: Some(es), ..Self::spec_default() }),
            Self::spec_from_json(JsonV::Object(seq![("extendedCommitInfo"@, JsonV::Null)])) == Ok::<ExtendedCommitInfoWithCurrencyPairMappingV, JsonErrorV>(Self::spec_default()),
            Self::spec_from_json(JsonV::Object(seq![("extended_commit_info"@, JsonV::Object(es))])) == Ok::<ExtendedCommitInfoWithCurrencyPairMappingV, JsonErrorV>(ExtendedCommitInfoWithCurrencyPairMappingV { extended_commit_info: Some(es), ..Self::spec_default() }),
            Self::spec_from_json(JsonV::Object(seq![("extended_commit_info"@, JsonV::Null)])) == Ok::<ExtendedCommitInfoWithCurrencyPairMappingV, JsonErrorV>(Self::spec_default()),
            Self::spec_to_json(ExtendedCommitInfoWithCurrencyPairMappingV { extended_commit_info: Some(es), ..Self::spec_default() }) == JsonV::Object(seq![("extendedCommitInfo"@, JsonV::Object(es))]),
    {
        reveal_strlit("extendedCommitInfo");
        reveal_strlit("extended_commit_info");
        reveal_strlit("idToCurrencyPair");
        reveal_strlit("id_to_currency_pair");
        assert("extendedCommitInfo"@.len() == 18);
        assert("extended_commit_info"@.len() == 20);
        assert("idToCurrencyPair"@.len() == 16);
        assert("id_to_currency_pair"@.len() == 19);
        lemma_fold_entry_if(Self::spec_start(), true, "extendedCommitInfo"@, JsonV::Object(es), Self::step_fn());
        lemma_fold_entry_if(Self::spec_start(), true, "extendedCommitInfo"@, JsonV::Null, Self::step_fn());
        lemma_fold_entry_if(Self::spec_start(), true, "extended_commit_info"@, JsonV::Object(es), Self::step_fn());
        lemma_fold_entry_if(Self::spec_start(), true, "extended_commit_info"@, JsonV::Null, Self::step_fn());
    }

    /// The field `id_to_currency_pair` alone: an object with one member under its JSON or protobuf
    /// name reads as the message with that field set and every other field at its
    /// default, and the message with only that field off its default writes that
    /// one member under the JSON name.
    pub proof fn lemma_field_id_to_currency_pair(xs: Seq<IdWithCurrencyPairV>, items: Seq<JsonV>)
        ensures
            Self::spec_from_json(JsonV::Object(seq![("idToCurrencyPair"@, JsonV::Array(items))])) == (match read_list(items, IdWithCurrencyPair::reader()) { Ok(ys) => Ok::<ExtendedCommitInfoWithCurrencyPairMappingV, JsonErrorV>(ExtendedCommitInfoWithCurrencyPairMappingV { id_to_currency_pair: ys, ..Self::spec_default() }), Err(e) => Err(e) }),
            Self::spec_from_json(JsonV::Object(seq![("id_to_currency_pair"@, JsonV::Array(items))])) == (match read_list(items, IdWithCurrencyPair::reader()) { Ok(ys) => Ok::<ExtendedCommitInfoWithCurrencyPairMappingV, JsonErrorV>(ExtendedCommitInfoWithCurrencyPairMappingV { id_to_currency_pair: ys, ..Self::spec_default() }), Err(e) => Err(e) }),
            xs.len() > 0 ==> Self::spec_to_json(ExtendedCommitInfoWithCurrencyPairMappingV { id_to_currency_pair: xs, ..Self::spec_default() }) == JsonV::Object(seq![("idToCurrencyPair"@, JsonV::Array(xs.map_values(|x: IdWithCurrencyPairV| IdWithCurrencyPair::spec_to_json(x))))]),
    {
        reveal_strlit("extendedCommitInfo");
        reveal_strlit("extended_commit_info");
        reveal_strlit("idToCurrencyPair");
        reveal_strlit("id_to_currency_pair");
        assert("extendedCommitInfo"@.len() == 18);
        assert("extended_commit_info"@.len() == 20);
        assert("idToCurrencyPair"@.len() == 16);
        assert("id_to_currency_pair"@.len() == 19);
        assert(xs.map_values(|x: IdWithCurrencyPairV| IdWithCurrencyPair::spec_to_json(x)) =~= xs.map_values(IdWithCurrencyPair::writer()));
        lemma_fold_entry_if(Self::spec_start(), true, "idToCurrencyPair"@, JsonV::Array(items), Self::step_fn());
        lemma_fold_entry_if(Self::spec_start(), true, "id_to_currency_pair"@, JsonV::Array(items), Self::step_fn());
    }

    /// Reading back the JSON object of a message gives the message.
    pub proof fn lemma_json_roundtrip(m: ExtendedCommitInfoWithCurrencyPairMappingV)
        ensures Self::spec_from_json(Self::spec_to_json(m)) == Ok::<ExtendedCommitInfoWithCurrencyPairMappingV, JsonErrorV>(m),
    {
        let step = Self::step_fn();
        let s0 = Self::spec_start();
        let s1 = (ExtendedCommitInfoWithCurrencyPairMappingV { extended_commit_info: m.extended_commit_info, ..s0.0 }, s0.1);
        Self::lemma_entry_extended_commit_info(m, s0);
        let s2 = (ExtendedCommitInfoWithCurrencyPairMappingV { id_to_currency_pair: m.id_to_currency_pair, ..s1.0 }, if m.id_to_currency_pair.len() != 0 { s1.1.update(0, true) } else { s1.1 });
        Self::lemma_entry_id_to_currency_pair(m, s1);
        let p1 = Self::spec_entry_extended_commit_info(m);
        let p2 = p1 + Self::spec_entry_id_to_currency_pair(m);
        lemma_fold_entries_append(s0, p1, Self::spec_entry_id_to_currency_pair(m), step);
        assert(s2.0 == m);
    }
}

/// The `astria.protocol.price_feed.v1.IdWithCurrencyPair` message.
#[derive(Clone, Debug, PartialEq)]
pub struct IdWithCurrencyPair {
    pub id: u64,
    pub currency_pair: Option<CurrencyPair>,
    pub decimals: u64,
}

/// The mathematical content of an [`IdWithCurrencyPair`].
pub struct IdWithCurrencyPairV {
    pub id: u64,
    pub currency_pair: Option<Seq<(Seq<char>, JsonV)>>,
    pub decimals: u64,
}

impl View for IdWithCurrencyPair {
    type V = IdWithCurrencyPairV;

    open spec fn view(&self) -> IdWithCurrencyPairV {
        IdWithCurrencyPairV {
            id: self.id,
            currency_pair: opt_embedded_view(self.currency_pair),
            decimals: self.decimals,
        }
    }
}

impl Default for IdWithCurrencyPair {
    fn default() -> (r: Self)
        ensures r@ == IdWithCurrencyPair::spec_default(),
    {
        let r = IdWithCurrencyPair {
            id: 0,
            currency_pair: None,
            decimals: 0,
        };
        r
    }
}

impl IdWithCurrencyPair {
    /// The fully qualified protobuf name of the message.
    pub fn full_name() -> (r: String)
        ensures r@ == "astria.protocol.price_feed.v1.IdWithCurrencyPair"@,
    {
        "astria.protocol.price_feed.v1.IdWithCurrencyPair".to_string()
    }

    /// Every field at its default: empty strings, bytes and lists, zero, `false`, unset.
    pub open spec fn spec_default() -> IdWithCurrencyPairV {
        IdWithCurrencyPairV {
            id: 0,
            currency_pair: None,
            decimals: 0,
        }
    }

    /// The view of an optional field of this message type.
    pub open spec fn view_opt(o: Option<Self>) -> Option<IdWithCurrencyPairV> {
        match o {
            Some(x) => Some(x@),
            None => None,
        }
    }

    /// The view of a repeated field of this message type.
    pub open spec fn view_list(v: Seq<Self>) -> Seq<IdWithCurrencyPairV> {
        v.map_values(|x: Self| x@)
    }

    /// The member that the field `id` writes: none where it holds its default.
    pub open spec fn spec_entry_id(m: IdWithCurrencyPairV) -> Seq<(Seq<char>, JsonV)> {
        entry_if(m.id != 0, "id"@, JsonV::Str(decimal(m.id as nat)))
    }

    /// The member that the field `currency_pair` writes: none where it holds its default.
    pub open spec fn spec_entry_currency_pair(m: IdWithCurrencyPairV) -> Seq<(Seq<char>, JsonV)> {
        entry_if(m.currency_pair is Some, "currencyPair"@, JsonV::Object(m.currency_pair.unwrap()))
    }

    /// The member that the field `decimals` writes: none where it holds its default.
    pub open spec fn spec_entry_decimals(m: IdWithCurrencyPairV) -> Seq<(Seq<char>, JsonV)> {
        entry_if(m.decimals != 0, "decimals"@, JsonV::Str(decimal(m.decimals as nat)))
    }

    /// The members of the JSON object of the message: each field that does not hold
    /// its default, under its JSON name, in the order of the fields.
    pub open spec fn spec_entries(m: IdWithCurrencyPairV) -> Seq<(Seq<char>, JsonV)> {
        Self::spec_entry_id(m) + Self::spec_entry_currency_pair(m) + Self::spec_entry_decimals(m)
    }

    /// The JSON object that the protobuf JSON mapping writes for the message.
    pub open spec fn spec_to_json(m: IdWithCurrencyPairV) -> JsonV {
        JsonV::Object(Self::spec_entries(m))
    }

    /// [`Self::spec_to_json`] as a function value, for repeated fields.
    pub open spec fn writer() -> spec_fn(IdWithCurrencyPairV) -> JsonV {
        |m: IdWithCurrencyPairV| Self::spec_to_json(m)
    }

    fn write_id(&self, es: &mut Vec<(String, Json)>)
        ensures
            view_entries(final(es)@) == view_entries(old(es)@) + Self::spec_entry_id(self@),
    {
        if self.id != 0 {
            push_entry(es, "id", u64_value(self.id));
        }
        assert(view_entries(es@) =~= view_entries(old(es)@) + Self::spec_entry_id(self@));
    }

    fn write_currency_pair(&self, es: &mut Vec<(String, Json)>)
        ensures
            view_entries(final(es)@) == view_entries(old(es)@) + Self::spec_entry_currency_pair(self@),
    {
        match &self.currency_pair {
            Some(x) => push_entry(es, "currencyPair", embedded_value(x)),
            None => {},
        }
        assert(view_entries(es@) =~= view_entries(old(es)@) + Self::spec_entry_currency_pair(self@));
    }

    fn write_decimals(&self, es: &mut Vec<(String, Json)>)
        ensures
            view_entries(final(es)@) == view_entries(old(es)@) + Self::spec_entry_decimals(self@),
    {
        if self.decimals != 0 {
            push_entry(es, "decimals", u64_value(self.decimals));
        }
        assert(view_entries(es@) =~= view_entries(old(es)@) + Self::spec_entry_decimals(self@));
    }

    /// Writes the message as a JSON object; reading it back gives the message.
    pub fn to_json(&self) -> (r: Json)
        ensures
            r@ == Self::spec_to_json(self@),
            Self::spec_from_json(r@) == Ok::<IdWithCurrencyPairV, JsonErrorV>(self@),
    {
        let mut es: Vec<(String, Json)> = Vec::new();
        let ghost mut acc: Seq<(Seq<char>, JsonV)> = Seq::empty();
        proof {
            assert(view_entries(es@) =~= acc);
        }
        self.write_id(&mut es);
        proof {
            acc = acc + Self::spec_entry_id(self@);
        }
        self.write_currency_pair(&mut es);
        proof {
            acc = acc + Self::spec_entry_currency_pair(self@);
        }
        self.write_decimals(&mut es);
        proof {
            acc = acc + Self::spec_entry_decimals(self@);
        }
        proof {
            assert(acc =~= Self::spec_entries(self@));
            Self::lemma_json_roundtrip(self@);
        }
        Json::Object(es)
    }

    /// Reads one member of the object into the message under construction; `seen`
    /// records which fields that have no unset state were already given.
    pub open spec fn spec_step(st: (IdWithCurrencyPairV, Seq<bool>), key: Seq<char>, v: JsonV) -> Result<(IdWithCurrencyPairV, Seq<bool>), JsonErrorV> {
        let m = st.0;
        let seen = st.1;
        if key == "id"@ {
            if seen[0] {
                Err(JsonErrorV::DuplicateField("id"@))
            } else {
                match read_u64(v) {
                    Ok(x) => Ok((IdWithCurrencyPairV { id: x, ..m }, seen.update(0, true))),
                    Err(e) => Err(e),
                }
            }
        } else if key == "currencyPair"@ || key == "currency_pair"@ {
            if m.currency_pair is Some {
                Err(JsonErrorV::DuplicateField("currencyPair"@))
            } else {
                match read_embedded(v) {
                    Ok(x) => Ok((IdWithCurrencyPairV { currency_pair: x, ..m }, seen)),
                    Err(e) => Err(e),
                }
            }
        } else if key == "decimals"@ {
            if seen[1] {
                Err(JsonErrorV::DuplicateField("decimals"@))
            } else {
                match read_u64(v) {
                    Ok(x) => Ok((IdWithCurrencyPairV { decimals: x, ..m }, seen.update(1, true))),
                    Err(e) => Err(e),
                }
            }
        } else {
            Err(JsonErrorV::UnknownField(key))
        }
    }

    /// [`Self::spec_step`] as a function value.
    pub open spec fn step_fn() -> spec_fn((IdWithCurrencyPairV, Seq<bool>), Seq<char>, JsonV) -> Result<(IdWithCurrencyPairV, Seq<bool>), JsonErrorV> {
        |st: (IdWithCurrencyPairV, Seq<bool>), key: Seq<char>, v: JsonV| Self::spec_step(st, key, v)
    }

    /// The state before the first member is read: the default message, no field seen.
    pub open spec fn spec_start() -> (IdWithCurrencyPairV, Seq<bool>) {
        (Self::spec_default(), seq![false, false])
    }

    /// The message that a JSON value describes: an object whose keys each name a field
    /// (by its JSON name or its protobuf name), at most once each; fields that are not
    /// given keep their default. The first member that is refused gives the error.
    pub open spec fn spec_from_json(j: JsonV) -> Result<IdWithCurrencyPairV, JsonErrorV> {
        match j {
            JsonV::Object(es) => match fold_entries(Self::spec_start(), es, Self::step_fn()) {
                Ok(st) => Ok(st.0),
                Err(e) => Err(e),
            },
            _ => Err(JsonErrorV::ExpectedObject),
        }
    }

    /// [`Self::spec_from_json`] as a function value, for repeated fields.
    pub open spec fn reader() -> spec_fn(JsonV) -> Result<IdWithCurrencyPairV, JsonErrorV> {
        |v: JsonV| Self::spec_from_json(v)
    }

    /// An optional field of this message type: `null` leaves it unset.
    pub open spec fn spec_read_opt(v: JsonV) -> Result<Option<IdWithCurrencyPairV>, JsonErrorV> {
        match v {
            JsonV::Null => Ok(None),
            _ => match Self::spec_from_json(v) {
                Ok(x) => Ok(Some(x)),
                Err(e) => Err(e),
            },
        }
    }

    fn step(m: Self, seen: Vec<bool>, key: &String, v: &Json) -> (r: Result<(Self, Vec<bool>), JsonError>)
        requires seen@.len() == 2,
        ensures
            match r {
                Ok((m2, seen2)) => Self::spec_step((m@, seen@), key@, v@) == Ok::<(IdWithCurrencyPairV, Seq<bool>), JsonErrorV>((m2@, seen2@)) && seen2@.len() == 2,
                Err(e) => Self::spec_step((m@, seen@), key@, v@) == Err::<(IdWithCurrencyPairV, Seq<bool>), JsonErrorV>(e@),
            },
    {
        let mut m = m;
        let mut seen = seen;
        let k = key.as_str();
        if str_eq(k, "id") {
            if seen[0] {
                return Err(JsonError::DuplicateField("id".to_string()));
            }
            match u64_field(v) {
                Ok(x) => m.id = x,
                Err(e) => return Err(e),
            }
            seen.set(0, true);
        } else if str_eq(k, "currencyPair") || str_eq(k, "currency_pair") {
            if m.currency_pair.is_some() {
                return Err(JsonError::DuplicateField("currencyPair".to_string()));
            }
            match embedded_field(v) {
                Ok(x) => m.currency_pair = x,
                Err(e) => return Err(e),
            }
        } else if str_eq(k, "decimals") {
            if seen[1] {
                return Err(JsonError::DuplicateField("decimals".to_string()));
            }
            match u64_field(v) {
                Ok(x) => m.decimals = x,
                Err(e) => return Err(e),
            }
            seen.set(1, true);
        } else {
            return Err(JsonError::UnknownField(key.clone()));
        }
        Ok((m, seen))
    }

    /// Reads the message from a JSON value, as [`Self::spec_from_json`] describes.
    pub fn from_json(j: &Json) -> (r: Result<Self, JsonError>)
        ensures
            match r {
                Ok(m) => Self::spec_from_json(j@) == Ok::<IdWithCurrencyPairV, JsonErrorV>(m@),
                Err(e) => Self::spec_from_json(j@) == Err::<IdWithCurrencyPairV, JsonErrorV>(e@),
            },
    {
        let es = match j {
            Json::Object(es) => es,
            _ => return Err(JsonError::ExpectedObject),
        };
        let ghost ves = view_entries(es@);
        proof {
            lemma_view_entries_len(es@);
            assert(j@ == JsonV::Object(ves));
        }
        let mut m = Self::default();
        let mut seen: Vec<bool> = vec![false, false];
        let mut i: usize = 0;
        proof {
            assert(seen@ =~= Self::spec_start().1);
            assert(ves.skip(0) == ves);
        }
        while i < es.len()
            invariant
                j@ == JsonV::Object(ves),
                ves == view_entries(es@),
                ves.len() == es@.len(),
                i <= es.len(),
                seen@.len() == 2,
                fold_entries(Self::spec_start(), ves, Self::step_fn())
                    == fold_entries((m@, seen@), ves.skip(i as int), Self::step_fn()),
            decreases es.len() - i,
        {
            proof {
                lemma_view_entries_index(es@, i as int);
                lemma_fold_entries_step((m@, seen@), ves, i as int, Self::step_fn());
            }
            match Self::step(m, seen, &es[i].0, &es[i].1) {
                Ok((m2, seen2)) => {
                    m = m2;
                    seen = seen2;
                },
                Err(e) => return Err(e),
            }
            i = i + 1;
        }
        proof {
            assert(ves.skip(ves.len() as int) == Seq::<(Seq<char>, JsonV)>::empty());
            assert(fold_entries((m@, seen@), ves.skip(ves.len() as int), Self::step_fn())
                == Ok::<(IdWithCurrencyPairV, Seq<bool>), JsonErrorV>((m@, seen@)));
        }
        Ok(m)
    }

    /// Reads an optional field of this message type.
    pub fn opt_from_json(v: &Json) -> (r: Result<Option<Self>, JsonError>)
        ensures
            match r {
                Ok(None) => Self::spec_read_opt(v@) == Ok::<Option<IdWithCurrencyPairV>, JsonErrorV>(None),
                Ok(Some(x)) => Self::spec_read_opt(v@) == Ok::<Option<IdWithCurrencyPairV>, JsonErrorV>(Some(x@)),
                Err(e) => Self::spec_read_opt(v@) == Err::<Option<IdWithCurrencyPairV>, JsonErrorV>(e@),
            },
    {
        match v {
            Json::Null => Ok(None),
            _ => match Self::from_json(v) {
                Ok(x) => Ok(Some(x)),
                Err(e) => Err(e),
            },
        }
    }

    /// Reads a repeated field of this message type.
    pub fn list_from_json(v: &Json) -> (r: Result<Vec<Self>, JsonError>)
        ensures
            match r {
                Ok(xs) => read_array(v@, Self::reader()) == Ok::<Seq<IdWithCurrencyPairV>, JsonErrorV>(Self::view_list(xs@)),
                Err(e) => read_array(v@, Self::reader()) == Err::<Seq<IdWithCurrencyPairV>, JsonErrorV>(e@),
            },
    {
        let items = match v {
            Json::Array(items) => items,
            _ => return Err(JsonError::InvalidType),
        };
        let ghost vis = view_items(items@);
        proof {
            lemma_view_items_len(items@);
            assert(v@ == JsonV::Array(vis));
            assert(vis.take(0) == Seq::<JsonV>::empty());
        }
        let mut out: Vec<Self> = Vec::new();
        proof {
            assert(Self::view_list(out@) =~= Seq::<IdWithCurrencyPairV>::empty());
        }
        let mut i: usize = 0;
        while i < items.len()
            invariant
                v@ == JsonV::Array(vis),
                vis == view_items(items@),
                vis.len() == items@.len(),
                i <= items.len(),
                read_list(vis.take(i as int), Self::reader()) == Ok::<Seq<IdWithCurrencyPairV>, JsonErrorV>(Self::view_list(out@)),
            decreases items.len() - i,
        {
            proof {
                lemma_view_items_index(items@, i as int);
                lemma_read_list_next(vis, i as int, Self::reader());
            }
            match Self::from_json(&items[i]) {
                Ok(x) => {
                    let ghost before = out@;
                    out.push(x);
                    proof {
                        assert(Self::view_list(out@) =~= Self::view_list(before).push(x@));
                    }
                },
                Err(e) => {
                    proof {
                        lemma_read_list_prefix_error(vis, i + 1, Self::reader());
                    }
                    return Err(e);
                },
            }
            i = i + 1;
        }
        proof {
            assert(vis.take(i as int) == vis);
        }
        Ok(out)
    }

    /// Writes a repeated field of this message type as an array of objects.
    pub fn list_to_json(xs: &Vec<Self>) -> (r: Json)
        ensures
            r@ == JsonV::Array(Self::view_list(xs@).map_values(Self::writer())),
    {
        let mut out: Vec<Json> = Vec::new();
        let mut i: usize = 0;
        proof {
            assert(xs@.take(0) == Seq::<Self>::empty());
        }
        while i < xs.len()
            invariant
                i <= xs.len(),
                view_items(out@) == Self::view_list(xs@.take(i as int)).map_values(Self::writer()),
            decreases xs.len() - i,
        {
            let ghost before = out@;
            let item = xs[i].to_json();
            out.push(item);
            proof {
                assert(out@.drop_last() == before);
                assert(view_items(out@) == view_items(before).push(item@));
                assert(Self::view_list(xs@.take(i + 1)).map_values(Self::writer())
                    =~= Self::view_list(xs@.take(i as int)).map_values(Self::writer()).push(Self::spec_to_json(xs@[i as int]@)));
            }
            i = i + 1;
        }
        proof {
            assert(xs@.take(xs.len() as int) == xs@);
        }
        Json::Array(out)
    }

    /// Reading back a written repeated field gives its messages.
    pub proof fn lemma_list_roundtrip(xs: Seq<IdWithCurrencyPairV>)
        ensures read_list(xs.map_values(Self::writer()), Self::reader()) == Ok::<Seq<IdWithCurrencyPairV>, JsonErrorV>(xs),
    {
        assert forall|i: int| 0 <= i < xs.len() implies Self::reader()(Self::writer()(#[trigger] xs[i])) == Ok::<IdWithCurrencyPairV, JsonErrorV>(xs[i]) by {
            Self::lemma_json_roundtrip(xs[i]);
        }
        lemma_read_list_roundtrip(xs, Self::writer(), Self::reader());
    }

    /// Reading the member that the field `id` writes sets the field.
    pub proof fn lemma_entry_id(m: IdWithCurrencyPairV, st: (IdWithCurrencyPairV, Seq<bool>))
        requires
            st.1.len() == 2,
            !st.1[0],
            st.0.id == 0,
        ensures
            fold_entries(st, Self::spec_entry_id(m), Self::step_fn()) == Ok::<(IdWithCurrencyPairV, Seq<bool>), JsonErrorV>((IdWithCurrencyPairV { id: m.id, ..st.0 }, if m.id != 0 { st.1.update(0, true) } else { st.1 })),
    {
        reveal_strlit("id");
        reveal_strlit("currencyPair");
        reveal_strlit("currency_pair");
        reveal_strlit("decimals");
        assert("id"@.len() == 2);
        assert("currencyPair"@.len() == 12);
        assert("currency_pair"@.len() == 13);
        assert("decimals"@.len() == 8);
        lemma_read_u64_value(m.id);
        lemma_fold_entry_if(st, m.id != 0, "id"@, JsonV::Str(decimal(m.id as nat)), Self::step_fn());
    }

    /// Reading the member that the field `currency_pair` writes sets the field.
    pub proof fn lemma_entry_currency_pair(m: IdWithCurrencyPairV, st: (IdWithCurrencyPairV, Seq<bool>))
        requires
            st.1.len() == 2,
            st.0.currency_pair is None,
        ensures
            fold_entries(st, Self::spec_entry_currency_pair(m), Self::step_fn()) == Ok::<(IdWithCurrencyPairV, Seq<bool>), JsonErrorV>((IdWithCurrencyPairV { currency_pair: m.currency_pair, ..st.0 }, st.1)),
    {
        reveal_strlit("id");
        reveal_strlit("currencyPair");
        reveal_strlit("currency_pair");
        reveal_strlit("decimals");
        assert("id"@.len() == 2);
        assert("currencyPair"@.len() == 12);
        assert("currency_pair"@.len() == 13);
        assert("decimals"@.len() == 8);
        lemma_fold_entry_if(st, m.currency_pair is Some, "currencyPair"@, JsonV::Object(m.currency_pair.unwrap()), Self::step_fn());
    }

    /// Reading the member that the field `decimals` writes sets the field.
    pub proof fn lemma_entry_decimals(m: IdWithCurrencyPairV, st: (IdWithCurrencyPairV, Seq<bool>))
        requires
            st.1.len() == 2,
            !st.1[1],
            st.0.decimals == 0,
        ensures
            fold_entries(st, Self::spec_entry_decimals(m), Self::step_fn()) == Ok::<(IdWithCurrencyPairV, Seq<bool>), JsonErrorV>((IdWithCurrencyPairV { decimals: m.decimals, ..st.0 }, if m.decimals != 0 { st.1.update(1, true) } else { st.1 })),
    {
        reveal_strlit("id");
        reveal_strlit("currencyPair");
        reveal_strlit("currency_pair");
        reveal_strlit("decimals");
        assert("id"@.len() == 2);
        assert("currencyPair"@.len() == 12);
        assert("currency_pair"@.len() == 13);
        assert("decimals"@.len() == 8);
        lemma_read_u64_value(m.decimals);
        lemma_fold_entry_if(st, m.decimals != 0, "decimals"@, JsonV::Str(decimal(m.decimals as nat)), Self::step_fn());
    }

    /// The JSON spelling of a key: the protobuf name of a field becomes its JSON name;
    /// a JSON name, and any key that names no field, is left as it is.
    pub open spec fn spec_json_key(key: Seq<char>) -> Seq<char> {
        if key == "id"@ {
            "id"@
        } else if key == "currencyPair"@ || key == "currency_pair"@ {
            "currencyPair"@
        } else if key == "decimals"@ {
            "decimals"@
        } else {
            key
        }
    }

    /// [`Self::spec_json_key`] as a function value.
    pub open spec fn json_key_fn() -> spec_fn(Seq<char>) -> Seq<char> {
        |key: Seq<char>| Self::spec_json_key(key)
    }

    /// One member is read alike whichever spelling its key has.
    pub proof fn lemma_step_json_key(st: (IdWithCurrencyPairV, Seq<bool>), key: Seq<char>, v: JsonV)
        ensures Self::spec_step(st, key, v) == Self::spec_step(st, Self::spec_json_key(key), v),
    {
        reveal_strlit("id");
        reveal_strlit("currencyPair");
        reveal_strlit("currency_pair");
        reveal_strlit("decimals");
        assert("id"@.len() == 2);
        assert("currencyPair"@.len() == 12);
        assert("currency_pair"@.len() == 13);
        assert("decimals"@.len() == 8);
        if key == "currency_pair"@ {
            assert(Self::spec_json_key(key) == "currencyPair"@);
        }
    }

    /// Reading an object gives the same result whichever spelling each of its keys has:
    /// two objects whose members hold the same values, in the same order, under keys of
    /// the same JSON spelling describe the same message, or are refused with the same error.
    pub proof fn lemma_key_spelling(es1: Seq<(Seq<char>, JsonV)>, es2: Seq<(Seq<char>, JsonV)>)
        requires
            es1.len() == es2.len(),
            forall|i: int| #![trigger es1[i], es2[i]] 0 <= i < es1.len() ==> es1[i].1 == es2[i].1 && Self::spec_json_key(es1[i].0) == Self::spec_json_key(es2[i].0),
        ensures Self::spec_from_json(JsonV::Object(es1)) == Self::spec_from_json(JsonV::Object(es2)),
    {
        assert forall|s: (IdWithCurrencyPairV, Seq<bool>), k: Seq<char>, v: JsonV|
            #![trigger Self::step_fn()(s, k, v), Self::json_key_fn()(k)]
            Self::step_fn()(s, k, v) == Self::step_fn()(s, Self::json_key_fn()(k), v) by {
            Self::lemma_step_json_key(s, k, v);
        }
        lemma_fold_same_keys(Self::spec_start(), es1, es2, Self::step_fn(), Self::json_key_fn());
    }

    /// The keys of the object that the message writes: the JSON names of the fields that
    /// do not hold their default (for a oneof, the JSON name of the member set), in the
    /// order of the fields.
    pub open spec fn spec_written_keys(m: IdWithCurrencyPairV) -> Seq<Seq<char>> {
        key_if(m.id != 0, "id"@)
            + key_if(m.currency_pair is Some, "currencyPair"@)
            + key_if(m.decimals != 0, "decimals"@)
    }

    /// The object that the message writes has exactly the keys of
    /// [`Self::spec_written_keys`], in that order.
    pub proof fn lemma_written_keys(m: IdWithCurrencyPairV)
        ensures
            Self::spec_to_json(m) == JsonV::Object(Self::spec_entries(m)),
            entry_keys(Self::spec_entries(m)) == Self::spec_written_keys(m),
    {
        lemma_entry_keys_if(m.id != 0, "id"@, JsonV::Str(decimal(m.id as nat)));
        lemma_entry_keys_append(Self::spec_entry_id(m), m.currency_pair is Some, "currencyPair"@, JsonV::Object(m.currency_pair.unwrap()));
        lemma_entry_keys_append(Self::spec_entry_id(m) + Self::spec_entry_currency_pair(m), m.decimals != 0, "decimals"@, JsonV::Str(decimal(m.decimals as nat)));
    }

    /// Whether the field whose JSON name is `name` holds its default in `m`; for a member
    /// of a oneof, whether the oneof is set to another member or unset. `true` for a name
    /// that names no field.
    pub open spec fn spec_holds_default(m: IdWithCurrencyPairV, name: Seq<char>) -> bool {
        if name == "id"@ {
            m.id == 0
        } else if name == "currencyPair"@ {
            m.currency_pair is None
        } else if name == "decimals"@ {
            m.decimals == 0
        } else {
            true
        }
    }

    /// Whether reading `v` for the field whose JSON name is `name` leaves the field at
    /// its default: `null`, for a field that takes it (a message field, a member of a
    /// oneof); nothing, for any other field. `true` for a name that names no field.
    pub open spec fn spec_leaves_default(name: Seq<char>, v: JsonV) -> bool {
        if name == "id"@ {
            false
        } else if name == "currencyPair"@ {
            v is Null
        } else if name == "decimals"@ {
            false
        } else {
            true
        }
    }

    /// Reading one member keeps a field at its default unless the key names the field
    /// and the value does not leave it there.
    pub proof fn lemma_step_keeps_default(st: (IdWithCurrencyPairV, Seq<bool>), key: Seq<char>, v: JsonV, name: Seq<char>)
        requires
            Self::spec_holds_default(st.0, name),
            Self::spec_json_key(key) == name ==> Self::spec_leaves_default(name, v),
        ensures
            Self::spec_step(st, key, v) is Ok ==> Self::spec_holds_default(Self::spec_step(st, key, v)->Ok_0.0, name),
    {
        reveal_strlit("id");
        reveal_strlit("currencyPair");
        reveal_strlit("currency_pair");
        reveal_strlit("decimals");
        assert("id"@.len() == 2);
        assert("currencyPair"@.len() == 12);
        assert("currency_pair"@.len() == 13);
        assert("decimals"@.len() == 8);
        Self::lemma_step_json_key(st, key, v);
    }

    /// A field whose key appears in no member of an object, or only with values that
    /// leave it at its default (`null`, for a field that takes it), holds its default in
    /// the message that the object describes.
    pub proof fn lemma_absent_default(es: Seq<(Seq<char>, JsonV)>, name: Seq<char>)
        requires
            forall|i: int| 0 <= i < es.len() ==> (Self::spec_json_key((#[trigger] es[i]).0) == name
                ==> Self::spec_leaves_default(name, es[i].1)),
        ensures
            Self::spec_from_json(JsonV::Object(es)) is Ok
                ==> Self::spec_holds_default(Self::spec_from_json(JsonV::Object(es))->Ok_0, name),
    {
        let inv = |s: (IdWithCurrencyPairV, Seq<bool>)| Self::spec_holds_default(s.0, name);
        let allowed = |k: Seq<char>, v: JsonV| Self::spec_json_key(k) == name ==> Self::spec_leaves_default(name, v);
        assert forall|s: (IdWithCurrencyPairV, Seq<bool>), k: Seq<char>, v: JsonV| #![trigger Self::step_fn()(s, k, v)]
            inv(s) && allowed(k, v) && Self::step_fn()(s, k, v) is Ok implies inv(Self::step_fn()(s, k, v)->Ok_0) by {
            Self::lemma_step_keeps_default(s, k, v, name);
        }
        assert(inv(Self::spec_start()));
        lemma_fold_keeps(Self::spec_start(), es, Self::step_fn(), inv, allowed);
    }

    /// The field `id` alone: an object with one member under its JSON or protobuf
    /// name reads as the message with that field set and every other field at its
    /// default, and the message with only that field off its default writes that
    /// one member under the JSON name.
    pub proof fn lemma_field_id(v: u64)
        ensures
            Self::spec_from_json(JsonV::Object(seq![("id"@, JsonV::Unsigned(v))])) == Ok::<IdWithCurrencyPairV, JsonErrorV>(IdWithCurrencyPairV { id: v, ..Self::spec_default() }),
            Self::spec_from_json(JsonV::Object(seq![("id"@, JsonV::Str(decimal(v as nat)))])) == Ok::<IdWithCurrencyPairV, JsonErrorV>(IdWithCurrencyPairV { id: v, ..Self::spec_default() }),
            v != 0 ==> Self::spec_to_json(IdWithCurrencyPairV { id: v, ..Self::spec_default() }) == JsonV::Object(seq![("id"@, JsonV::Str(decimal(v as nat)))]),
    {
        reveal_strlit("id");
        reveal_strlit("currencyPair");
        reveal_strlit("currency_pair");
        reveal_strlit("decimals");
        assert("id"@.len() == 2);
        assert("currencyPair"@.len() == 12);
        assert("currency_pair"@.len() == 13);
        assert("decimals"@.len() == 8);
        lemma_read_u64_value(v);
        lemma_fold_entry_if(Self::spec_start(), true, "id"@, JsonV::Unsigned(v), Self::step_fn());
        lemma_fold_entry_if(Self::spec_start(), true, "id"@, JsonV::Str(decimal(v as nat)), Self::step_fn());
    }

    /// The field `currency_pair` alone: an object with one member under its JSON or protobuf
    /// name reads as the message with that field set and every other field at its
    /// default, and the message with only that field off its default writes that
    /// one member under the JSON name.
    pub proof fn lemma_field_currency_pair(es: Seq<(Seq<char>, JsonV)>)
        ensures
            Self::spec_from_json(JsonV::Object(seq![("currencyPair"@, JsonV::Object(es))])) == Ok::<IdWithCurrencyPairV, JsonErrorV>(IdWithCurrencyPairV { currency_pair: Some(es), ..Self::spec_default() }),
            Self::spec_from_json(JsonV::Object(seq![("currencyPair"@, JsonV::Null)])) == Ok::<IdWithCurrencyPairV, JsonErrorV>(Self::spec_default()),
            Self::spec_from_json(JsonV::Object(seq![("currency_pair"@, JsonV::Object(es))])) == Ok::<IdWithCurrencyPairV, JsonErrorV>(IdWithCurrencyPairV { currency_pair: Some(es), ..Self::spec_default() }),
            Self::spec_from_json(JsonV::Object(seq![("currency_pair"@, JsonV::Null)])) == Ok::<IdWithCurrencyPairV, JsonErrorV>(Self::spec_default()),
            Self::spec_to_json(IdWithCurrencyPairV { currency_pair: Some(es), ..Self::spec_default() }) == JsonV::Object(seq![("currencyPair"@, JsonV::Object(es))]),
    {
        reveal_strlit("id");
        reveal_strlit("currencyPair");
        reveal_strlit("currency_pair");
        reveal_strlit("decimals");
        assert("id"@.len() == 2);
        assert("currencyPair"@.len() == 12);
        assert("currency_pair"@.len() == 13);
        assert("decimals"@.len() == 8);
        lemma_fold_entry_if(Self::spec_start(), true, "currencyPair"@, JsonV::Object(es), Self::step_fn());
        lemma_fold_entry_if(Self::spec_start(), true, "currencyPair"@, JsonV::Null, Self::step_fn());
        lemma_fold_entry_if(Self::spec_start(), true, "currency_pair"@, JsonV::Object(es), Self::step_fn());
        lemma_fold_entry_if(Self::spec_start(), true, "currency_pair"@, JsonV::Null, Self::step_fn());
    }

    /// The field `decimals` alone: an object with one member under its JSON or protobuf
    /// name reads as the message with that field set and every other field at its
    /// default, and the message with only that field off its default writes that
    /// one member under the JSON name.
    pub proof fn lemma_field_decimals(v: u64)
        ensures
            Self::spec_from_json(JsonV::Object(seq![("decimals"@, JsonV::Unsigned(v))])) == Ok::<IdWithCurrencyPairV, JsonErrorV>(IdWithCurrencyPairV { decimals: v, ..Self::spec_default() }),
            Self::spec_from_json(JsonV::Object(seq![("decimals"@, JsonV::Str(decimal(v as nat)))])) == Ok::<IdWithCurrencyPairV, JsonErrorV>(IdWithCurrencyPairV { decimals: v, ..Self::spec_default() }),
            v != 0 ==> Self::spec_to_json(IdWithCurrencyPairV { decimals: v, ..Self::spec_default() }) == JsonV::Object(seq![("decimals"@, JsonV::Str(decimal(v as nat)))]),
    {
        reveal_strlit("id");
        reveal_strlit("currencyPair");
        reveal_strlit("currency_pair");
        reveal_strlit("decimals");
        assert("id"@.len() == 2);
        assert("currencyPair"@.len() == 12);
        assert("currency_pair"@.len() == 13);
        assert("decimals"@.len() == 8);
        lemma_read_u64_value(v);
        lemma_fold_entry_if(Self::spec_start(), true, "decimals"@, JsonV::Unsigned(v), Self::step_fn());
        lemma_fold_entry_if(Self::spec_start(), true, "decimals"@, JsonV::Str(decimal(v as nat)), Self::step_fn());
    }

    /// Reading back the JSON object of a message gives the message.
    pub proof fn lemma_json_roundtrip(m: IdWithCurrencyPairV)
        ensures Self::spec_from_json(Self::spec_to_json(m)) == Ok::<IdWithCurrencyPairV, JsonErrorV>(m),
    {
        let step = Self::step_fn();
        let s0 = Self::spec_start();
        let s1 = (IdWithCurrencyPairV { id: m.id, ..s0.0 }, if m.id != 0 { s0.1.update(0, true) } else { s0.1 });
        Self::lemma_entry_id(m, s0);
        let s2 = (IdWithCurrencyPairV { currency_pair: m.currency_pair, ..s1.0 }, s1.1);
        Self::lemma_entry_currency_pair(m, s1);
        let s3 = (IdWithCurrencyPairV { decimals: m.decimals, ..s2.0 }, if m.decimals != 0 { s2.1.update(1, true) } else { s2.1 });
        Self::lemma_entry_decimals(m, s2);
        let p1 = Self::spec_entry_id(m);
        let p2 = p1 + Self::spec_entry_currency_pair(m);
        lemma_fold_entries_append(s0, p1, Self::spec_entry_currency_pair(m), step);
        let p3 = p2 + Self::spec_entry_decimals(m);
        lemma_fold_entries_append(s0, p2, Self::spec_entry_decimals(m), step);
        assert(s3.0 == m);
    }
}
} // verus!
