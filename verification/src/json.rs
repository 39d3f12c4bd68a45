use vstd::prelude::*;

verus! {

/// A value of the JSON data model as the protobuf JSON mapping uses it:
/// objects keep their keys in the order in which they were written.
#[derive(Debug, PartialEq)]
pub enum Json {
    Null,
    Bool(bool),
    Unsigned(u64),
    Signed(i64),
    Str(String),
    Array(Vec<Json>),
    Object(Vec<(String, Json)>),
}

/// The mathematical content of a [`Json`] value.
pub enum JsonV {
    Null,
    Bool(bool),
    Unsigned(u64),
    Signed(i64),
    Str(Seq<char>),
    Array(Seq<JsonV>),
    Object(Seq<(Seq<char>, JsonV)>),
}

/// The views of the items of an array.
pub open spec fn view_items(s: Seq<Json>) -> Seq<JsonV>
    decreases s,
{
    if s.len() == 0 {
        Seq::empty()
    } else {
        view_items(s.drop_last()).push(s.last().view_json())
    }
}

/// The views of the members of an object.
pub open spec fn view_entries(s: Seq<(String, Json)>) -> Seq<(Seq<char>, JsonV)>
    decreases s,
{
    if s.len() == 0 {
        Seq::empty()
    } else {
        view_entries(s.drop_last()).push((s.last().0@, s.last().1.view_json()))
    }
}

impl View for Json {
    type V = JsonV;

    open spec fn view(&self) -> JsonV {
        self.view_json()
    }
}

impl Json {
    pub open spec fn view_json(self) -> JsonV
        decreases self,
    {
        match self {
            Json::Null => JsonV::Null,
            Json::Bool(b) => JsonV::Bool(b),
            Json::Unsigned(n) => JsonV::Unsigned(n),
            Json::Signed(n) => JsonV::Signed(n),
            Json::Str(s) => JsonV::Str(s@),
            Json::Array(v) => JsonV::Array(view_items(v@)),
            Json::Object(v) => JsonV::Object(view_entries(v@)),
        }
    }
}

} // verus!

verus! {

/// The view of an item of an array is the view of the item.
pub proof fn lemma_view_items_index(s: Seq<Json>, i: int)
    requires 0 <= i < s.len(),
    ensures view_items(s).len() == s.len(), view_items(s)[i] == s[i].view_json(),
    decreases s.len(),
{
    if i < s.len() - 1 {
        lemma_view_items_index(s.drop_last(), i);
    } else {
        lemma_view_items_len(s.drop_last());
    }
}

/// An array has as many item views as items.
pub proof fn lemma_view_items_len(s: Seq<Json>)
    ensures view_items(s).len() == s.len(),
    decreases s.len(),
{
    if s.len() > 0 {
        lemma_view_items_len(s.drop_last());
    }
}

impl Clone for Json {
    fn clone(&self) -> (r: Json)
        ensures r@ == self@,
    {
        clone_json(self)
    }
}

/// A copy of the entries of an object.
pub fn clone_entries(v: &Vec<(String, Json)>) -> (r: Vec<(String, Json)>)
    ensures view_entries(r@) == view_entries(v@),
    decreases v,
{
    let mut out: Vec<(String, Json)> = Vec::new();
    let mut i: usize = 0;
    while i < v.len()
        invariant
            i <= v.len(),
            view_entries(out@) == view_entries(v@.take(i as int)),
        decreases v.len() - i,
    {
        proof {
            assert(decreases_to!(*v => v@));
            assert(decreases_to!(v@ => v@[i as int]));
            assert(decreases_to!(v@[i as int] => v@[i as int].1));
        }
        let c = clone_json(&v[i].1);
        let k = v[i].0.clone();
        proof {
            assert(v@.take(i + 1).drop_last() == v@.take(i as int));
        }
        let ghost before = out@;
        out.push((k, c));
        proof {
            assert(out@.drop_last() == before);
        }
        i = i + 1;
    }
    proof { assert(v@.take(v.len() as int) == v@); }
    out
}

/// A copy of a JSON value.
pub fn clone_json(j: &Json) -> (r: Json)
    ensures r.view_json() == j.view_json(),
    decreases j,
{
    match j {
        Json::Null => Json::Null,
        Json::Bool(b) => Json::Bool(*b),
        Json::Unsigned(n) => Json::Unsigned(*n),
        Json::Signed(n) => Json::Signed(*n),
        Json::Str(s) => Json::Str(s.clone()),
        Json::Array(v) => {
            let mut out: Vec<Json> = Vec::new();
            let mut i: usize = 0;
            while i < v.len()
                invariant
                    *j == Json::Array(*v),
                    i <= v.len(),
                    view_items(out@) == view_items(v@.take(i as int)),
                decreases v.len() - i,
            {
                proof {
                    assert(decreases_to!(*j => (*j)->Array_0));
                    assert(decreases_to!(*v => v@));
                    assert(decreases_to!(v@ => v@[i as int]));
                }
                let c = clone_json(&v[i]);
                proof {
                    assert(v@.take(i + 1).drop_last() == v@.take(i as int));
                }
                let ghost before = out@;
                out.push(c);
                proof {
                    assert(out@.drop_last() == before);
                }
                i = i + 1;
            }
            proof { assert(v@.take(v.len() as int) == v@); }
            Json::Array(out)
        },
        Json::Object(v) => {
            proof {
                assert(decreases_to!(*j => (*j)->Object_0));
            }
            Json::Object(clone_entries(v))
        },
    }
}

} // verus!

verus! {

/// The view of a member of an object is the view of the member.
pub proof fn lemma_view_entries_index(s: Seq<(String, Json)>, i: int)
    requires 0 <= i < s.len(),
    ensures
        view_entries(s).len() == s.len(),
        view_entries(s)[i] == (s[i].0@, s[i].1.view_json()),
    decreases s.len(),
{
    if i < s.len() - 1 {
        lemma_view_entries_index(s.drop_last(), i);
    } else {
        lemma_view_entries_len(s.drop_last());
    }
}

/// An object has as many member views as members.
pub proof fn lemma_view_entries_len(s: Seq<(String, Json)>)
    ensures view_entries(s).len() == s.len(),
    decreases s.len(),
{
    if s.len() > 0 {
        lemma_view_entries_len(s.drop_last());
    }
}

/// Why a JSON value was refused where a message of this library was expected.
#[derive(Clone, Debug, PartialEq)]
pub enum JsonError {
    /// A message was expected and the value is not a JSON object.
    ExpectedObject,
    /// The object holds a key that names no field of the message.
    UnknownField(String),
    /// Two keys of the object name the same field (or the same oneof);
    /// the payload is the JSON name of the field met the second time.
    DuplicateField(String),
    /// The value of a field has the wrong JSON type.
    InvalidType,
    /// A numeric field holds a number out of range or a string that is no number.
    InvalidNumber,
    /// A bytes field holds a string that is no base64.
    InvalidBase64,
    /// An enumeration is given a name that none of its values has.
    UnknownVariant(String),
    /// An enumeration is given a number that none of its values has.
    InvalidEnumValue,
    /// A message holds, in an enumeration field, a number that none of the values
    /// of the enumeration has, and cannot be written (an error of writing, not of reading).
    InvalidVariant(i32),
}

/// The mathematical content of a [`JsonError`].
pub enum JsonErrorV {
    ExpectedObject,
    UnknownField(Seq<char>),
    DuplicateField(Seq<char>),
    InvalidType,
    InvalidNumber,
    InvalidBase64,
    UnknownVariant(Seq<char>),
    InvalidEnumValue,
    InvalidVariant(i32),
}

impl View for JsonError {
    type V = JsonErrorV;

    open spec fn view(&self) -> JsonErrorV {
        match self {
            JsonError::ExpectedObject => JsonErrorV::ExpectedObject,
            JsonError::UnknownField(k) => JsonErrorV::UnknownField(k@),
            JsonError::DuplicateField(k) => JsonErrorV::DuplicateField(k@),
            JsonError::InvalidType => JsonErrorV::InvalidType,
            JsonError::InvalidNumber => JsonErrorV::InvalidNumber,
            JsonError::InvalidBase64 => JsonErrorV::InvalidBase64,
            JsonError::UnknownVariant(k) => JsonErrorV::UnknownVariant(k@),
            JsonError::InvalidEnumValue => JsonErrorV::InvalidEnumValue,
            JsonError::InvalidVariant(n) => JsonErrorV::InvalidVariant(*n),
        }
    }
}

/// Runs `step` over the entries of an object, in order, from the state `st`;
/// the first refused entry ends the run with its error.
pub open spec fn fold_entries<S>(
    st: S,
    es: Seq<(Seq<char>, JsonV)>,
    step: spec_fn(S, Seq<char>, JsonV) -> Result<S, JsonErrorV>,
) -> Result<S, JsonErrorV>
    decreases es.len(),
{
    if es.len() == 0 {
        Ok(st)
    } else {
        match step(st, es[0].0, es[0].1) {
            Ok(next) => fold_entries(next, es.drop_first(), step),
            Err(e) => Err(e),
        }
    }
}

/// Reading the members from the `i`-th on is reading the `i`-th, then the rest.
pub proof fn lemma_fold_entries_step<S>(
    st: S,
    es: Seq<(Seq<char>, JsonV)>,
    i: int,
    step: spec_fn(S, Seq<char>, JsonV) -> Result<S, JsonErrorV>,
)
    requires 0 <= i < es.len(),
    ensures
        fold_entries(st, es.skip(i), step) == (match step(st, es[i].0, es[i].1) {
            Ok(next) => fold_entries(next, es.skip(i + 1), step),
            Err(e) => Err(e),
        }),
{
    assert(es.skip(i).drop_first() == es.skip(i + 1));
    assert(es.skip(i)[0] == es[i]);
}

/// Whether two strings hold the same characters.
pub fn str_eq(a: &str, b: &str) -> (r: bool)
    ensures r == (a@ == b@),
{
    let x = a.as_bytes();
    let y = b.as_bytes();
    proof {
        vstd::utf8::encode_utf8_decode_utf8(a@);
        vstd::utf8::encode_utf8_decode_utf8(b@);
    }
    if x.len() != y.len() {
        assert(a@ != b@) by {
            if a@ == b@ {
                assert(vstd::utf8::encode_utf8(a@) == vstd::utf8::encode_utf8(b@));
            }
        }
        return false;
    }
    let mut i: usize = 0;
    while i < x.len()
        invariant
            x@ == vstd::utf8::encode_utf8(a@),
            y@ == vstd::utf8::encode_utf8(b@),
            x@.len() == y@.len(),
            i <= x@.len(),
            forall|k: int| 0 <= k < i ==> x@[k] == y@[k],
        decreases x@.len() - i,
    {
        if x[i] != y[i] {
            assert(a@ != b@) by {
                if a@ == b@ {
                    assert(vstd::utf8::encode_utf8(a@) == vstd::utf8::encode_utf8(b@));
                }
            }
            return false;
        }
        i = i + 1;
    }
    assert(x@ == y@);
    true
}

} // verus!

verus! {

/// Reading two runs of members one after the other is reading them in turn.
pub proof fn lemma_fold_entries_append<S>(
    st: S,
    a: Seq<(Seq<char>, JsonV)>,
    b: Seq<(Seq<char>, JsonV)>,
    step: spec_fn(S, Seq<char>, JsonV) -> Result<S, JsonErrorV>,
)
    ensures
        fold_entries(st, a + b, step) == (match fold_entries(st, a, step) {
            Ok(next) => fold_entries(next, b, step),
            Err(e) => Err(e),
        }),
    decreases a.len(),
{
    if a.len() == 0 {
        assert(a + b == b);
    } else {
        assert((a + b).drop_first() == a.drop_first() + b);
        assert((a + b)[0] == a[0]);
        match step(st, a[0].0, a[0].1) {
            Ok(next) => lemma_fold_entries_append(next, a.drop_first(), b, step),
            Err(e) => {},
        }
    }
}

/// Reading the entry that [`entry_if`] gives is one step where it is present.
pub proof fn lemma_fold_entry_if<S>(
    st: S,
    present: bool,
    key: Seq<char>,
    v: JsonV,
    step: spec_fn(S, Seq<char>, JsonV) -> Result<S, JsonErrorV>,
)
    ensures
        fold_entries(st, entry_if(present, key, v), step) == (if present {
            step(st, key, v)
        } else {
            Ok(st)
        }),
{
    if present {
        let e = entry_if(present, key, v);
        assert(e.drop_first() == Seq::<(Seq<char>, JsonV)>::empty());
        match step(st, key, v) {
            Ok(next) => {
                assert(fold_entries(next, Seq::<(Seq<char>, JsonV)>::empty(), step) == Ok::<S, JsonErrorV>(next));
            },
            Err(_) => {},
        }
    }
}

/// One entry when `present`, none otherwise.
pub open spec fn entry_if(present: bool, key: Seq<char>, v: JsonV) -> Seq<(Seq<char>, JsonV)> {
    if present {
        seq![(key, v)]
    } else {
        Seq::empty()
    }
}

/// Adds an entry to an object under construction.
pub fn push_entry(es: &mut Vec<(String, Json)>, key: &str, v: Json)
    ensures view_entries(final(es)@) == view_entries(old(es)@).push((key@, v@)),
{
    let ghost before = es@;
    es.push((key.to_string(), v));
    proof {
        assert(es@.drop_last() == before);
    }
}

} // verus!

verus! {

/// The keys of the members of an object, in order.
pub open spec fn entry_keys(es: Seq<(Seq<char>, JsonV)>) -> Seq<Seq<char>> {
    es.map_values(|e: (Seq<char>, JsonV)| e.0)
}

/// One key when `present`, none otherwise.
pub open spec fn key_if(present: bool, key: Seq<char>) -> Seq<Seq<char>> {
    if present {
        seq![key]
    } else {
        Seq::empty()
    }
}

/// The keys of the entry that [`entry_if`] gives.
pub proof fn lemma_entry_keys_if(present: bool, key: Seq<char>, v: JsonV)
    ensures entry_keys(entry_if(present, key, v)) == key_if(present, key),
{
    assert(entry_keys(entry_if(present, key, v)) =~= key_if(present, key));
}

/// The keys of members followed by the entry that [`entry_if`] gives.
pub proof fn lemma_entry_keys_append(es: Seq<(Seq<char>, JsonV)>, present: bool, key: Seq<char>, v: JsonV)
    ensures entry_keys(es + entry_if(present, key, v)) == entry_keys(es) + key_if(present, key),
{
    assert(entry_keys(es + entry_if(present, key, v)) =~= entry_keys(es) + key_if(present, key));
}

/// Two runs of members that hold the same values, in the same order, under keys that
/// `canon` maps alike are read alike by a step that sees a key only through `canon`.
pub proof fn lemma_fold_same_keys<S>(
    st: S,
    es1: Seq<(Seq<char>, JsonV)>,
    es2: Seq<(Seq<char>, JsonV)>,
    step: spec_fn(S, Seq<char>, JsonV) -> Result<S, JsonErrorV>,
    canon: spec_fn(Seq<char>) -> Seq<char>,
)
    requires
        es1.len() == es2.len(),
        forall|i: int| #![trigger es1[i], es2[i]]
            0 <= i < es1.len() ==> es1[i].1 == es2[i].1 && canon(es1[i].0) == canon(es2[i].0),
        forall|s: S, k: Seq<char>, v: JsonV| #![trigger step(s, k, v), canon(k)]
            step(s, k, v) == step(s, canon(k), v),
    ensures fold_entries(st, es1, step) == fold_entries(st, es2, step),
    decreases es1.len(),
{
    if es1.len() > 0 {
        assert(es1[0].1 == es2[0].1 && canon(es1[0].0) == canon(es2[0].0));
        assert(step(st, es1[0].0, es1[0].1) == step(st, canon(es1[0].0), es1[0].1));
        assert(step(st, es2[0].0, es2[0].1) == step(st, canon(es2[0].0), es2[0].1));
        match step(st, es1[0].0, es1[0].1) {
            Ok(next) => {
                let r1 = es1.drop_first();
                let r2 = es2.drop_first();
                assert forall|i: int| #![trigger r1[i], r2[i]]
                    0 <= i < r1.len() implies r1[i].1 == r2[i].1 && canon(r1[i].0) == canon(r2[i].0) by {
                    assert(r1[i] == es1[i + 1] && r2[i] == es2[i + 1]);
                }
                lemma_fold_same_keys(next, r1, r2, step, canon);
            },
            Err(_) => {},
        }
    }
}

/// A property of the state that holds at the start, and that every step on an allowed
/// member keeps, holds of the state that reading allowed members gives.
pub proof fn lemma_fold_keeps<S>(
    st: S,
    es: Seq<(Seq<char>, JsonV)>,
    step: spec_fn(S, Seq<char>, JsonV) -> Result<S, JsonErrorV>,
    inv: spec_fn(S) -> bool,
    allowed: spec_fn(Seq<char>, JsonV) -> bool,
)
    requires
        inv(st),
        forall|i: int| 0 <= i < es.len() ==> allowed((#[trigger] es[i]).0, es[i].1),
        forall|s: S, k: Seq<char>, v: JsonV| #![trigger step(s, k, v)]
            inv(s) && allowed(k, v) && step(s, k, v) is Ok ==> inv(step(s, k, v)->Ok_0),
    ensures fold_entries(st, es, step) is Ok ==> inv(fold_entries(st, es, step)->Ok_0),
    decreases es.len(),
{
    if es.len() > 0 {
        assert(allowed(es[0].0, es[0].1));
        match step(st, es[0].0, es[0].1) {
            Ok(next) => {
                let rest = es.drop_first();
                assert forall|i: int| 0 <= i < rest.len() implies allowed((#[trigger] rest[i]).0, rest[i].1) by {
                    assert(rest[i] == es[i + 1]);
                }
                lemma_fold_keeps(next, rest, step, inv, allowed);
            },
            Err(_) => {},
        }
    }
}

/// The position of the first member whose value is not `null`; the number of members
/// when every value is `null`.
pub open spec fn first_set(es: Seq<(Seq<char>, JsonV)>) -> int
    decreases es.len(),
{
    if es.len() == 0 {
        0
    } else if !(es[0].1 is Null) {
        0
    } else {
        1 + first_set(es.drop_first())
    }
}

/// The members before [`first_set`] are `null`, and the member there is not.
pub proof fn lemma_first_set(es: Seq<(Seq<char>, JsonV)>)
    ensures
        0 <= first_set(es) <= es.len(),
        forall|j: int| 0 <= j < first_set(es) ==> (#[trigger] es[j]).1 is Null,
        first_set(es) < es.len() ==> !(es[first_set(es)].1 is Null),
    decreases es.len(),
{
    if es.len() > 0 && es[0].1 is Null {
        let rest = es.drop_first();
        lemma_first_set(rest);
        assert forall|j: int| 0 <= j < first_set(es) implies (#[trigger] es[j]).1 is Null by {
            if j > 0 {
                assert(es[j] == rest[j - 1]);
            }
        }
        if first_set(es) < es.len() {
            assert(es[first_set(es)] == rest[first_set(rest)]);
        }
    }
}

} // verus!
