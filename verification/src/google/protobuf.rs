//! The `google.protobuf` messages that the protocol messages hold, in the JSON form that
//! `pbjson_types` gives them.
//!
//! Each message is read from and written to JSON as the protobuf JSON mapping
//! does it (`google.protobuf`).

use vstd::prelude::*;
use crate::fields::{
    base64_decoded, base64_encoded, bytes_field, bytes_value, read_bytes, read_string, string_field,
    string_value,
};
use crate::json::{
    entry_if, fold_entries, lemma_fold_entries_append, lemma_fold_entries_step, lemma_fold_entry_if,
    lemma_view_entries_index, lemma_view_entries_len, push_entry, str_eq, view_entries, Json,
    JsonError, JsonErrorV, JsonV, entry_keys, key_if, lemma_entry_keys_if, lemma_entry_keys_append,
    lemma_fold_same_keys, lemma_fold_keeps,
};

verus! {

/// The `google.protobuf.Any` message.
#[derive(Clone, Debug, PartialEq)]
pub struct Any {
    pub type_url: String,
    pub value: Vec<u8>,
}

/// The mathematical content of an [`Any`].
pub struct AnyV {
    pub type_url: Seq<char>,
    pub value: Seq<u8>,
}

impl View for Any {
    type V = AnyV;

    open spec fn view(&self) -> AnyV {
        AnyV {
            type_url: self.type_url@,
            value: self.value@,
        }
    }
}

impl Default for Any {
    fn default() -> (r: Self)
        ensures r@ == Any::spec_default(),
    {
        let r = Any {
            type_url: String::new(),
            value: Vec::new(),
        };
        r
    }
}

impl Any {
    /// The fully qualified protobuf name of the message.
    pub fn full_name() -> (r: String)
        ensures r@ == "google.protobuf.Any"@,
    {
        "google.protobuf.Any".to_string()
    }

    /// Every field at its default: empty strings, bytes and lists, zero, `false`, unset.
    pub open spec fn spec_default() -> AnyV {
        AnyV {
            type_url: Seq::<char>::empty(),
            value: Seq::<u8>::empty(),
        }
    }

    /// The view of an optional field of this message type.
    pub open spec fn view_opt(o: Option<Self>) -> Option<AnyV> {
        match o {
            Some(x) => Some(x@),
            None => None,
        }
    }

    /// The view of a repeated field of this message type.
    pub open spec fn view_list(v: Seq<Self>) -> Seq<AnyV> {
        v.map_values(|x: Self| x@)
    }

    /// The member that the field `type_url` writes: none where it holds its default.
    pub open spec fn spec_entry_type_url(m: AnyV) -> Seq<(Seq<char>, JsonV)> {
        entry_if(m.type_url.len() != 0, "typeUrl"@, JsonV::Str(m.type_url))
    }

    /// The member that the field `value` writes: none where it holds its default.
    pub open spec fn spec_entry_value(m: AnyV) -> Seq<(Seq<char>, JsonV)> {
        entry_if(m.value.len() != 0, "value"@, JsonV::Str(base64_encoded(m.value)))
    }

    /// The members of the JSON object of the message: each field that does not hold
    /// its default, under its JSON name, in the order of the fields.
    pub open spec fn spec_entries(m: AnyV) -> Seq<(Seq<char>, JsonV)> {
        Self::spec_entry_type_url(m) + Self::spec_entry_value(m)
    }

    /// The JSON object that the protobuf JSON mapping writes for the message.
    pub open spec fn spec_to_json(m: AnyV) -> JsonV {
        JsonV::Object(Self::spec_entries(m))
    }

    /// [`Self::spec_to_json`] as a function value, for repeated fields.
    pub open spec fn writer() -> spec_fn(AnyV) -> JsonV {
        |m: AnyV| Self::spec_to_json(m)
    }

    pub open spec fn spec_readable_value(m: AnyV) -> bool {
        (m.value.len() == 0 || base64_decoded(base64_encoded(m.value)) == Some(m.value))
    }

    /// The bytes that the message holds, written in base64, read back as themselves.
    pub open spec fn spec_bytes_readable(m: AnyV) -> bool {
        &&& Self::spec_readable_value(m)
    }

    fn write_type_url(&self, es: &mut Vec<(String, Json)>)
        ensures
            view_entries(final(es)@) == view_entries(old(es)@) + Self::spec_entry_type_url(self@),
    {
        if !self.type_url.as_str().is_empty() {
            push_entry(es, "typeUrl", string_value(&self.type_url));
        }
        assert(view_entries(es@) =~= view_entries(old(es)@) + Self::spec_entry_type_url(self@));
    }

    fn write_value(&self, es: &mut Vec<(String, Json)>)
        ensures
            view_entries(final(es)@) == view_entries(old(es)@) + Self::spec_entry_value(self@),
            Self::spec_readable_value(self@),
    {
        if self.value.len() != 0 {
            push_entry(es, "value", bytes_value(&self.value));
        }
        assert(view_entries(es@) =~= view_entries(old(es)@) + Self::spec_entry_value(self@));
    }

    /// Writes the message as a JSON object; reading it back gives the message.
    pub fn to_json(&self) -> (r: Json)
        ensures
            r@ == Self::spec_to_json(self@),
            Self::spec_bytes_readable(self@),
            Self::spec_from_json(r@) == Ok::<AnyV, JsonErrorV>(self@),
    {
        let mut es: Vec<(String, Json)> = Vec::new();
        let ghost mut acc: Seq<(Seq<char>, JsonV)> = Seq::empty();
        proof {
            assert(view_entries(es@) =~= acc);
        }
        self.write_type_url(&mut es);
        proof {
            acc = acc + Self::spec_entry_type_url(self@);
        }
        self.write_value(&mut es);
        proof {
            acc = acc + Self::spec_entry_value(self@);
        }
        proof {
            assert(acc =~= Self::spec_entries(self@));
            Self::lemma_json_roundtrip(self@);
        }
        Json::Object(es)
    }

    /// Reads one member of the object into the message under construction; `seen`
    /// records which fields that have no unset state were already given.
    pub open spec fn spec_step(st: (AnyV, Seq<bool>), key: Seq<char>, v: JsonV) -> Result<(AnyV, Seq<bool>), JsonErrorV> {
        let m = st.0;
        let seen = st.1;
        if key == "typeUrl"@ || key == "type_url"@ {
            if seen[0] {
                Err(JsonErrorV::DuplicateField("typeUrl"@))
            } else {
                match read_string(v) {
                    Ok(x) => Ok((AnyV { type_url: x, ..m }, seen.update(0, true))),
                    Err(e) => Err(e),
                }
            }
        } else if key == "value"@ {
            if seen[1] {
                Err(JsonErrorV::DuplicateField("value"@))
            } else {
                match read_bytes(v) {
                    Ok(x) => Ok((AnyV { value: x, ..m }, seen.update(1, true))),
                    Err(e) => Err(e),
                }
            }
        } else {
            Err(JsonErrorV::UnknownField(key))
        }
    }

    /// [`Self::spec_step`] as a function value.
    pub open spec fn step_fn() -> spec_fn((AnyV, Seq<bool>), Seq<char>, JsonV) -> Result<(AnyV, Seq<bool>), JsonErrorV> {
        |st: (AnyV, Seq<bool>), key: Seq<char>, v: JsonV| Self::spec_step(st, key, v)
    }

    /// The state before the first member is read: the default message, no field seen.
    pub open spec fn spec_start() -> (AnyV, Seq<bool>) {
        (Self::spec_default(), seq![false, false])
    }

    /// The message that a JSON value describes: an object whose keys each name a field
    /// (by its JSON name or its protobuf name), at most once each; fields that are not
    /// given keep their default. The first member that is refused gives the error.
    pub open spec fn spec_from_json(j: JsonV) -> Result<AnyV, JsonErrorV> {
        match j {
            JsonV::Object(es) => match fold_entries(Self::spec_start(), es, Self::step_fn()) {
                Ok(st) => Ok(st.0),
                Err(e) => Err(e),
            },
            _ => Err(JsonErrorV::ExpectedObject),
        }
    }

    /// [`Self::spec_from_json`] as a function value, for repeated fields.
    pub open spec fn reader() -> spec_fn(JsonV) -> Result<AnyV, JsonErrorV> {
        |v: JsonV| Self::spec_from_json(v)
    }

    /// An optional field of this message type: `null` leaves it unset.
    pub open spec fn spec_read_opt(v: JsonV) -> Result<Option<AnyV>, JsonErrorV> {
        match v {
            JsonV::Null => Ok(None),
            _ => match Self::spec_from_json(v) {
                Ok(x) => Ok(Some(x)),
                Err(e) => Err(e),
            },
        }
    }

    fn step(m: Self, seen: Vec<bool>, key: &String, v: &Json) -> (r: Result<(Self, Vec<bool>), JsonError>)
        requires seen@.len() == 2,
        ensures
            match r {
                Ok((m2, seen2)) => Self::spec_step((m@, seen@), key@, v@) == Ok::<(AnyV, Seq<bool>), JsonErrorV>((m2@, seen2@)) && seen2@.len() == 2,
                Err(e) => Self::spec_step((m@, seen@), key@, v@) == Err::<(AnyV, Seq<bool>), JsonErrorV>(e@),
            },
    {
        let mut m = m;
        let mut seen = seen;
        let k = key.as_str();
        if str_eq(k, "typeUrl") || str_eq(k, "type_url") {
            if seen[0] {
                return Err(JsonError::DuplicateField("typeUrl".to_string()));
            }
            match string_field(v) {
                Ok(x) => m.type_url = x,
                Err(e) => return Err(e),
            }
            seen.set(0, true);
        } else if str_eq(k, "value") {
            if seen[1] {
                return Err(JsonError::DuplicateField("value".to_string()));
            }
            match bytes_field(v) {
                Ok(x) => m.value = x,
                Err(e) => return Err(e),
            }
            seen.set(1, true);
        } else {
            return Err(JsonError::UnknownField(key.clone()));
        }
        Ok((m, seen))
    }

    /// Reads the message from a JSON value, as [`Self::spec_from_json`] describes.
    pub fn from_json(j: &Json) -> (r: Result<Self, JsonError>)
        ensures
            match r {
                Ok(m) => Self::spec_from_json(j@) == Ok::<AnyV, JsonErrorV>(m@),
                Err(e) => Self::spec_from_json(j@) == Err::<AnyV, JsonErrorV>(e@),
            },
    {
        let es = match j {
            Json::Object(es) => es,
            _ => return Err(JsonError::ExpectedObject),
        };
        let ghost ves = view_entries(es@);
        proof {
            lemma_view_entries_len(es@);
            assert(j@ == JsonV::Object(ves));
        }
        let mut m = Self::default();
        let mut seen: Vec<bool> = vec![false, false];
        let mut i: usize = 0;
        proof {
            assert(seen@ =~= Self::spec_start().1);
            assert(ves.skip(0) == ves);
        }
        while i < es.len()
            invariant
                j@ == JsonV::Object(ves),
                ves == view_entries(es@),
                ves.len() == es@.len(),
                i <= es.len(),
                seen@.len() == 2,
                fold_entries(Self::spec_start(), ves, Self::step_fn())
                    == fold_entries((m@, seen@), ves.skip(i as int), Self::step_fn()),
            decreases es.len() - i,
        {
            proof {
                lemma_view_entries_index(es@, i as int);
                lemma_fold_entries_step((m@, seen@), ves, i as int, Self::step_fn());
            }
            match Self::step(m, seen, &es[i].0, &es[i].1) {
                Ok((m2, seen2)) => {
                    m = m2;
                    seen = seen2;
                },
                Err(e) => return Err(e),
            }
            i = i + 1;
        }
        proof {
            assert(ves.skip(ves.len() as int) == Seq::<(Seq<char>, JsonV)>::empty());
            assert(fold_entries((m@, seen@), ves.skip(ves.len() as int), Self::step_fn())
                == Ok::<(AnyV, Seq<bool>), JsonErrorV>((m@, seen@)));
        }
        Ok(m)
    }

    /// Reads an optional field of this message type.
    pub fn opt_from_json(v: &Json) -> (r: Result<Option<Self>, JsonError>)
        ensures
            match r {
                Ok(None) => Self::spec_read_opt(v@) == Ok::<Option<AnyV>, JsonErrorV>(None),
                Ok(Some(x)) => Self::spec_read_opt(v@) == Ok::<Option<AnyV>, JsonErrorV>(Some(x@)),
                Err(e) => Self::spec_read_opt(v@) == Err::<Option<AnyV>, JsonErrorV>(e@),
            },
    {
        match v {
            Json::Null => Ok(None),
            _ => match Self::from_json(v) {
                Ok(x) => Ok(Some(x)),
                Err(e) => Err(e),
            },
        }
    }

    /// Reading the member that the field `type_url` writes sets the field.
    pub proof fn lemma_entry_type_url(m: AnyV, st: (AnyV, Seq<bool>))
        requires
            st.1.len() == 2,
            !st.1[0],
            st.0.type_url == Seq::<char>::empty(),
        ensures
            fold_entries(st, Self::spec_entry_type_url(m), Self::step_fn()) == Ok::<(AnyV, Seq<bool>), JsonErrorV>((AnyV { type_url: m.type_url, ..st.0 }, if m.type_url.len() != 0 { st.1.update(0, true) } else { st.1 })),
    {
        reveal_strlit("typeUrl");
        reveal_strlit("type_url");
        reveal_strlit("value");
        assert("typeUrl"@.len() == 7);
        assert("type_url"@.len() == 8);
        assert("value"@.len() == 5);
        if m.type_url.len() == 0 {
            assert(m.type_url =~= Seq::<char>::empty());
        }
        lemma_fold_entry_if(st, m.type_url.len() != 0, "typeUrl"@, JsonV::Str(m.type_url), Self::step_fn());
    }

    /// Reading the member that the field `value` writes sets the field.
    pub proof fn lemma_entry_value(m: AnyV, st: (AnyV, Seq<bool>))
        requires
            st.1.len() == 2,
            !st.1[1],
            st.0.value == Seq::<u8>::empty(),
            Self::spec_readable_value(m),
        ensures
            fold_entries(st, Self::spec_entry_value(m), Self::step_fn()) == Ok::<(AnyV, Seq<bool>), JsonErrorV>((AnyV { value: m.value, ..st.0 }, if m.value.len() != 0 { st.1.update(1, true) } else { st.1 })),
    {
        reveal_strlit("typeUrl");
        reveal_strlit("type_url");
        reveal_strlit("value");
        assert("typeUrl"@.len() == 7);
        assert("type_url"@.len() == 8);
        assert("value"@.len() == 5);
        if m.value.len() == 0 {
            assert(m.value =~= Seq::<u8>::empty());
        }
        lemma_fold_entry_if(st, m.value.len() != 0, "value"@, JsonV::Str(base64_encoded(m.value)), Self::step_fn());
    }

    /// The JSON spelling of a key: the protobuf name of a field becomes its JSON name;
    /// a JSON name, and any key that names no field, is left as it is.
    pub open spec fn spec_json_key(key: Seq<char>) -> Seq<char> {
        if key == "typeUrl"@ || key == "type_url"@ {
            "typeUrl"@
        } else if key == "value"@ {
            "value"@
        } else {
            key
        }
    }

    /// [`Self::spec_json_key`] as a function value.
    pub open spec fn json_key_fn() -> spec_fn(Seq<char>) -> Seq<char> {
        |key: Seq<char>| Self::spec_json_key(key)
    }

    /// One member is read alike whichever spelling its key has.
    pub proof fn lemma_step_json_key(st: (AnyV, Seq<bool>), key: Seq<char>, v: JsonV)
        ensures Self::spec_step(st, key, v) == Self::spec_step(st, Self::spec_json_key(key), v),
    {
        reveal_strlit("typeUrl");
        reveal_strlit("type_url");
        reveal_strlit("value");
        assert("typeUrl"@.len() == 7);
        assert("type_url"@.len() == 8);
        assert("value"@.len() == 5);
        if key == "type_url"@ {
            assert(Self::spec_json_key(key) == "typeUrl"@);
        }
    }

    /// Reading an object gives the same result whichever spelling each of its keys has:
    /// two objects whose members hold the same values, in the same order, under keys of
    /// the same JSON spelling describe the same message, or are refused with the same error.
    pub proof fn lemma_key_spelling(es1: Seq<(Seq<char>, JsonV)>, es2: Seq<(Seq<char>, JsonV)>)
        requires
            es1.len() == es2.len(),
            forall|i: int| #![trigger es1[i], es2[i]] 0 <= i < es1.len() ==> es1[i].1 == es2[i].1 && Self::spec_json_key(es1[i].0) == Self::spec_json_key(es2[i].0),
        ensures Self::spec_from_json(JsonV::Object(es1)) == Self::spec_from_json(JsonV::Object(es2)),
    {
        assert forall|s: (AnyV, Seq<bool>), k: Seq<char>, v: JsonV|
            #![trigger Self::step_fn()(s, k, v), Self::json_key_fn()(k)]
            Self::step_fn()(s, k, v) == Self::step_fn()(s, Self::json_key_fn()(k), v) by {
            Self::lemma_step_json_key(s, k, v);
        }
        lemma_fold_same_keys(Self::spec_start(), es1, es2, Self::step_fn(), Self::json_key_fn());
    }

    /// The keys of the object that the message writes: the JSON names of the fields that
    /// do not hold their default (for a oneof, the JSON name of the member set), in the
    /// order of the fields.
    pub open spec fn spec_written_keys(m: AnyV) -> Seq<Seq<char>> {
        key_if(m.type_url.len() != 0, "typeUrl"@)
            + key_if(m.value.len() != 0, "value"@)
    }

    /// The object that the message writes has exactly the keys of
    /// [`Self::spec_written_keys`], in that order.
    pub proof fn lemma_written_keys(m: AnyV)
        ensures
            Self::spec_to_json(m) == JsonV::Object(Self::spec_entries(m)),
            entry_keys(Self::spec_entries(m)) == Self::spec_written_keys(m),
    {
        lemma_entry_keys_if(m.type_url.len() != 0, "typeUrl"@, JsonV::Str(m.type_url));
        lemma_entry_keys_append(Self::spec_entry_type_url(m), m.value.len() != 0, "value"@, JsonV::Str(base64_encoded(m.value)));
    }

    /// Whether the field whose JSON name is `name` holds its default in `m`; for a member
    /// of a oneof, whether the oneof is set to another member or unset. `true` for a name
    /// that names no field.
    pub open spec fn spec_holds_default(m: AnyV, name: Seq<char>) -> bool {
        if name == "typeUrl"@ {
            m.type_url == Seq::<char>::empty()
        } else if name == "value"@ {
            m.value == Seq::<u8>::empty()
        } else {
            true
        }
    }

    /// Whether reading `v` for the field whose JSON name is `name` leaves the field at
    /// its default: `null`, for a field that takes it (a message field, a member of a
    /// oneof); nothing, for any other field. `true` for a name that names no field.
    pub open spec fn spec_leaves_default(name: Seq<char>, v: JsonV) -> bool {
        if name == "typeUrl"@ {
            false
        } else if name == "value"@ {
            false
        } else {
            true
        }
    }

    /// Reading one member keeps a field at its default unless the key names the field
    /// and the value does not leave it there.
    pub proof fn lemma_step_keeps_default(st: (AnyV, Seq<bool>), key: Seq<char>, v: JsonV, name: Seq<char>)
        requires
            Self::spec_holds_default(st.0, name),
            Self::spec_json_key(key) == name ==> Self::spec_leaves_default(name, v),
        ensures
            Self::spec_step(st, key, v) is Ok ==> Self::spec_holds_default(Self::spec_step(st, key, v)->Ok_0.0, name),
    {
        reveal_strlit("typeUrl");
        reveal_strlit("type_url");
        reveal_strlit("value");
        assert("typeUrl"@.len() == 7);
        assert("type_url"@.len() == 8);
        assert("value"@.len() == 5);
        Self::lemma_step_json_key(st, key, v);
    }

    /// A field whose key appears in no member of an object, or only with values that
    /// leave it at its default (`null`, for a field that takes it), holds its default in
    /// the message that the object describes.
    pub proof fn lemma_absent_default(es: Seq<(Seq<char>, JsonV)>, name: Seq<char>)
        requires
            forall|i: int| 0 <= i < es.len() ==> (Self::spec_json_key((#[trigger] es[i]).0) == name
                ==> Self::spec_leaves_default(name, es[i].1)),
        ensures
            Self::spec_from_json(JsonV::Object(es)) is Ok
                ==> Self::spec_holds_default(Self::spec_from_json(JsonV::Object(es))->Ok_0, name),
    {
        let inv = |s: (AnyV, Seq<bool>)| Self::spec_holds_default(s.0, name);
        let allowed = |k: Seq<char>, v: JsonV| Self::spec_json_key(k) == name ==> Self::spec_leaves_default(name, v);
        assert forall|s: (AnyV, Seq<bool>), k: Seq<char>, v: JsonV| #![trigger Self::step_fn()(s, k, v)]
            inv(s) && allowed(k, v) && Self::step_fn()(s, k, v) is Ok implies inv(Self::step_fn()(s, k, v)->Ok_0) by {
            Self::lemma_step_keeps_default(s, k, v, name);
        }
        assert(inv(Self::spec_start()));
        lemma_fold_keeps(Self::spec_start(), es, Self::step_fn(), inv, allowed);
    }

    /// The field `type_url` alone: an object with one member under its JSON or protobuf
    /// name reads as the message with that field set and every other field at its
    /// default, and the message with only that field off its default writes that
    /// one member under the JSON name.
    pub proof fn lemma_field_type_url(s: Seq<char>)
        ensures
            Self::spec_from_json(JsonV::Object(seq![("typeUrl"@, JsonV::Str(s))])) == Ok::<AnyV, JsonErrorV>(AnyV { type_url: s, ..Self::spec_default() }),
            Self::spec_from_json(JsonV::Object(seq![("type_url"@, JsonV::Str(s))])) == Ok::<AnyV, JsonErrorV>(AnyV { type_url: s, ..Self::spec_default() }),
            s.len() > 0 ==> Self::spec_to_json(AnyV { type_url: s, ..Self::spec_default() }) == JsonV::Object(seq![("typeUrl"@, JsonV::Str(s))]),
    {
        reveal_strlit("typeUrl");
        reveal_strlit("type_url");
        reveal_strlit("value");
        assert("typeUrl"@.len() == 7);
        assert("type_url"@.len() == 8);
        assert("value"@.len() == 5);
        lemma_fold_entry_if(Self::spec_start(), true, "typeUrl"@, JsonV::Str(s), Self::step_fn());
        lemma_fold_entry_if(Self::spec_start(), true, "type_url"@, JsonV::Str(s), Self::step_fn());
    }

    /// The field `value` alone: an object with one member under its JSON or protobuf
    /// name reads as the message with that field set and every other field at its
    /// default, and the message with only that field off its default writes that
    /// one member under the JSON name.
    pub proof fn lemma_field_value(t: Seq<char>, b: Seq<u8>)
        ensures
            Self::spec_from_json(JsonV::Object(seq![("value"@, JsonV::Str(t))])) == (match base64_decoded(t) { Some(d) => Ok::<AnyV, JsonErrorV>(AnyV { value: d, ..Self::spec_default() }), None => Err(JsonErrorV::InvalidBase64) }),
            b.len() > 0 ==> Self::spec_to_json(AnyV { value: b, ..Self::spec_default() }) == JsonV::Object(seq![("value"@, JsonV::Str(base64_encoded(b)))]),
    {
        reveal_strlit("typeUrl");
        reveal_strlit("type_url");
        reveal_strlit("value");
        assert("typeUrl"@.len() == 7);
        assert("type_url"@.len() == 8);
        assert("value"@.len() == 5);
        lemma_fold_entry_if(Self::spec_start(), true, "value"@, JsonV::Str(t), Self::step_fn());
    }

    /// Reading back the JSON object of a message gives the message.
    pub proof fn lemma_json_roundtrip(m: AnyV)
        requires
            Self::spec_bytes_readable(m),
        ensures Self::spec_from_json(Self::spec_to_json(m)) == Ok::<AnyV, JsonErrorV>(m),
    {
        let step = Self::step_fn();
        let s0 = Self::spec_start();
        let s1 = (AnyV { type_url: m.type_url, ..s0.0 }, if m.type_url.len() != 0 { s0.1.update(0, true) } else { s0.1 });
        Self::lemma_entry_type_url(m, s0);
        let s2 = (AnyV { value: m.value, ..s1.0 }, if m.value.len() != 0 { s1.1.update(1, true) } else { s1.1 });
        Self::lemma_entry_value(m, s1);
        let p1 = Self::spec_entry_type_url(m);
        let p2 = p1 + Self::spec_entry_value(m);
        lemma_fold_entries_append(s0, p1, Self::spec_entry_value(m), step);
        assert(s2.0 == m);
    }
}
} // verus!
