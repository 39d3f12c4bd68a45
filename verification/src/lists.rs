use vstd::prelude::*;
use crate::embedded::Embedded;
use crate::fields::{read_string, string_field};
use crate::json::{clone_entries, lemma_view_items_index, lemma_view_items_len, view_items, Json, JsonError, JsonErrorV, JsonV};

verus! {

/// Reads the items of a JSON array with `rd`, in order; the first refused item
/// refuses the whole array with its error.
pub open spec fn read_list<T>(items: Seq<JsonV>, rd: spec_fn(JsonV) -> Result<T, JsonErrorV>) -> Result<Seq<T>, JsonErrorV>
    decreases items.len(),
{
    if items.len() == 0 {
        Ok(Seq::empty())
    } else {
        match read_list(items.drop_last(), rd) {
            Ok(xs) => match rd(items.last()) {
                Ok(x) => Ok(xs.push(x)),
                Err(e) => Err(e),
            },
            Err(e) => Err(e),
        }
    }
}

/// A repeated field: a JSON array whose items `rd` reads.
pub open spec fn read_array<T>(v: JsonV, rd: spec_fn(JsonV) -> Result<T, JsonErrorV>) -> Result<Seq<T>, JsonErrorV> {
    match v {
        JsonV::Array(items) => read_list(items, rd),
        _ => Err(JsonErrorV::InvalidType),
    }
}

/// An error met in a prefix of the items is the error of the whole array.
pub proof fn lemma_read_list_prefix_error<T>(items: Seq<JsonV>, i: int, rd: spec_fn(JsonV) -> Result<T, JsonErrorV>)
    requires
        0 <= i <= items.len(),
        read_list(items.take(i), rd) is Err,
    ensures
        read_list(items, rd) == read_list(items.take(i), rd),
    decreases items.len() - i,
{
    if i < items.len() {
        let t = items.take(i + 1);
        assert(t.drop_last() == items.take(i));
        lemma_read_list_prefix_error(items, i + 1, rd);
    } else {
        assert(items.take(i) == items);
    }
}

/// One more item read.
pub proof fn lemma_read_list_next<T>(items: Seq<JsonV>, i: int, rd: spec_fn(JsonV) -> Result<T, JsonErrorV>)
    requires 0 <= i < items.len(),
    ensures
        read_list(items.take(i + 1), rd) == (match read_list(items.take(i), rd) {
            Ok(xs) => match rd(items[i]) {
                Ok(x) => Ok(xs.push(x)),
                Err(e) => Err(e),
            },
            Err(e) => Err(e),
        }),
{
    assert(items.take(i + 1).drop_last() == items.take(i));
    assert(items.take(i + 1).last() == items[i]);
}

/// Reading back the items that `wr` wrote gives the values, when `rd` reads back
/// each written item.
pub proof fn lemma_read_list_roundtrip<T>(
    xs: Seq<T>,
    wr: spec_fn(T) -> JsonV,
    rd: spec_fn(JsonV) -> Result<T, JsonErrorV>,
)
    requires forall|i: int| 0 <= i < xs.len() ==> rd(wr(#[trigger] xs[i])) == Ok::<T, JsonErrorV>(xs[i]),
    ensures read_list(xs.map_values(wr), rd) == Ok::<Seq<T>, JsonErrorV>(xs),
    decreases xs.len(),
{
    if xs.len() > 0 {
        lemma_read_list_roundtrip(xs.drop_last(), wr, rd);
        assert(xs.map_values(wr).drop_last() == xs.drop_last().map_values(wr));
        assert(xs.drop_last().push(xs.last()) == xs);
    } else {
        assert(xs.map_values(wr).len() == 0);
        assert(xs == Seq::<T>::empty());
    }
}

/// Reads one item of a repeated string field.
pub open spec fn string_reader() -> spec_fn(JsonV) -> Result<Seq<char>, JsonErrorV> {
    |v: JsonV| read_string(v)
}

/// Writes one item of a repeated string field.
pub open spec fn string_writer() -> spec_fn(Seq<char>) -> JsonV {
    |s: Seq<char>| JsonV::Str(s)
}

/// Reads one item of a repeated field of a message defined outside this library.
pub open spec fn embedded_reader() -> spec_fn(JsonV) -> Result<Seq<(Seq<char>, JsonV)>, JsonErrorV> {
    |v: JsonV| match v {
        JsonV::Object(es) => Ok(es),
        _ => Err(JsonErrorV::ExpectedObject),
    }
}

/// Writes one item of a repeated field of a message defined outside this library.
pub open spec fn embedded_writer() -> spec_fn(Seq<(Seq<char>, JsonV)>) -> JsonV {
    |es: Seq<(Seq<char>, JsonV)>| JsonV::Object(es)
}

/// The view of a repeated string field.
pub open spec fn strings_view(v: Seq<String>) -> Seq<Seq<char>> {
    v.map_values(|s: String| s@)
}

/// The view of a repeated field of messages defined outside this library.
pub open spec fn embeddeds_view(v: Seq<Embedded>) -> Seq<Seq<(Seq<char>, JsonV)>> {
    v.map_values(|e: Embedded| e@)
}

/// A repeated string field.
pub fn strings_field(v: &Json) -> (r: Result<Vec<String>, JsonError>)
    ensures
        match r {
            Ok(xs) => read_array(v@, string_reader()) == Ok::<Seq<Seq<char>>, JsonErrorV>(strings_view(xs@)),
            Err(e) => read_array(v@, string_reader()) == Err::<Seq<Seq<char>>, JsonErrorV>(e@),
        },
{
    let items = match v {
        Json::Array(items) => items,
        _ => return Err(JsonError::InvalidType),
    };
    let ghost vis = view_items(items@);
    proof {
        lemma_view_items_len(items@);
        assert(v@ == JsonV::Array(vis));
        assert(vis.take(0) == Seq::<JsonV>::empty());
    }
    let mut out: Vec<String> = Vec::new();
    proof {
        assert(strings_view(out@) =~= Seq::<Seq<char>>::empty());
    }
    let mut i: usize = 0;
    while i < items.len()
        invariant
            v@ == JsonV::Array(vis),
            vis == view_items(items@),
            vis.len() == items@.len(),
            i <= items.len(),
            read_list(vis.take(i as int), string_reader()) == Ok::<Seq<Seq<char>>, JsonErrorV>(strings_view(out@)),
        decreases items.len() - i,
    {
        proof {
            lemma_view_items_index(items@, i as int);
            lemma_read_list_next(vis, i as int, string_reader());
        }
        match string_field(&items[i]) {
            Ok(s) => {
                let ghost before = out@;
                out.push(s);
                proof {
                    assert(strings_view(out@) =~= strings_view(before).push(s@));
                }
            },
            Err(e) => {
                proof {
                    lemma_read_list_prefix_error(vis, i + 1, string_reader());
                }
                return Err(e);
            },
        }
        i = i + 1;
    }
    proof {
        assert(vis.take(i as int) == vis);
    }
    Ok(out)
}

/// A repeated string field is written as an array of strings.
pub fn strings_value(xs: &Vec<String>) -> (r: Json)
    ensures r@ == JsonV::Array(strings_view(xs@).map_values(string_writer())),
{
    let mut out: Vec<Json> = Vec::new();
    let mut i: usize = 0;
    proof {
        assert(xs@.take(0) == Seq::<String>::empty());
    }
    while i < xs.len()
        invariant
            i <= xs.len(),
            view_items(out@) == strings_view(xs@.take(i as int)).map_values(string_writer()),
        decreases xs.len() - i,
    {
        let ghost before = out@;
        let item = Json::Str(xs[i].clone());
        out.push(item);
        proof {
            assert(out@.drop_last() == before);
            assert(view_items(out@) == view_items(before).push(item@));
            assert(strings_view(xs@.take(i + 1)).map_values(string_writer())
                =~= strings_view(xs@.take(i as int)).map_values(string_writer()).push(JsonV::Str(xs@[i as int]@)));
        }
        i = i + 1;
    }
    proof {
        assert(xs@.take(xs.len() as int) == xs@);
    }
    Json::Array(out)
}

/// A repeated field of messages defined outside this library.
pub fn embeddeds_field(v: &Json) -> (r: Result<Vec<Embedded>, JsonError>)
    ensures
        match r {
            Ok(xs) => read_array(v@, embedded_reader()) == Ok::<Seq<Seq<(Seq<char>, JsonV)>>, JsonErrorV>(embeddeds_view(xs@)),
            Err(e) => read_array(v@, embedded_reader()) == Err::<Seq<Seq<(Seq<char>, JsonV)>>, JsonErrorV>(e@),
        },
{
    let items = match v {
        Json::Array(items) => items,
        _ => return Err(JsonError::InvalidType),
    };
    let ghost vis = view_items(items@);
    proof {
        lemma_view_items_len(items@);
        assert(v@ == JsonV::Array(vis));
        assert(vis.take(0) == Seq::<JsonV>::empty());
    }
    let mut out: Vec<Embedded> = Vec::new();
    proof {
        assert(embeddeds_view(out@) =~= Seq::<Seq<(Seq<char>, JsonV)>>::empty());
    }
    let mut i: usize = 0;
    while i < items.len()
        invariant
            v@ == JsonV::Array(vis),
            vis == view_items(items@),
            vis.len() == items@.len(),
            i <= items.len(),
            read_list(vis.take(i as int), embedded_reader()) == Ok::<Seq<Seq<(Seq<char>, JsonV)>>, JsonErrorV>(embeddeds_view(out@)),
        decreases items.len() - i,
    {
        proof {
            lemma_view_items_index(items@, i as int);
            lemma_read_list_next(vis, i as int, embedded_reader());
        }
        match &items[i] {
            Json::Object(fields) => {
                let e = Embedded { fields: clone_entries(fields) };
                let ghost before = out@;
                out.push(e);
                proof {
                    assert(embeddeds_view(out@) =~= embeddeds_view(before).push(e@));
                }
            },
            _ => {
                proof {
                    lemma_read_list_prefix_error(vis, i + 1, embedded_reader());
                }
                return Err(JsonError::ExpectedObject);
            },
        }
        i = i + 1;
    }
    proof {
        assert(vis.take(i as int) == vis);
    }
    Ok(out)
}

/// A repeated field of messages defined outside this library is written as an
/// array of their objects.
pub fn embeddeds_value(xs: &Vec<Embedded>) -> (r: Json)
    ensures r@ == JsonV::Array(embeddeds_view(xs@).map_values(embedded_writer())),
{
    let mut out: Vec<Json> = Vec::new();
    let mut i: usize = 0;
    while i < xs.len()
        invariant
            i <= xs.len(),
            view_items(out@) == embeddeds_view(xs@.take(i as int)).map_values(embedded_writer()),
        decreases xs.len() - i,
    {
        let ghost before = out@;
        let item = Json::Object(clone_entries(&xs[i].fields));
        out.push(item);
        proof {
            assert(out@.drop_last() == before);
            assert(view_items(out@) == view_items(before).push(item@));
            assert(embeddeds_view(xs@.take(i + 1)).map_values(embedded_writer())
                =~= embeddeds_view(xs@.take(i as int)).map_values(embedded_writer()).push(JsonV::Object(xs@[i as int]@)));
        }
        i = i + 1;
    }
    proof {
        assert(xs@.take(xs.len() as int) == xs@);
    }
    Json::Array(out)
}

} // verus!
