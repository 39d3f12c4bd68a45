use vstd::prelude::*;
use crate::json::{clone_entries, view_entries, Json, JsonError, JsonErrorV, JsonV};
use crate::fields::read_embedded;

verus! {

/// A message whose type is defined outside this library (an address, an amount,
/// a fee schedule, ...), held as the fields of the JSON object that carries it.
#[derive(Clone, Debug, PartialEq)]
pub struct Embedded {
    pub fields: Vec<(String, Json)>,
}

impl View for Embedded {
    type V = Seq<(Seq<char>, JsonV)>;

    open spec fn view(&self) -> Seq<(Seq<char>, JsonV)> {
        view_entries(self.fields@)
    }
}

/// The view of an optional field of a message defined outside this library.
pub open spec fn opt_embedded_view(o: Option<Embedded>) -> Option<Seq<(Seq<char>, JsonV)>> {
    match o {
        Some(e) => Some(e@),
        None => None,
    }
}

/// An optional field holding a message defined outside this library.
pub fn embedded_field(v: &Json) -> (r: Result<Option<Embedded>, JsonError>)
    ensures
        match r {
            Ok(None) => read_embedded(v@) == Ok::<Option<Seq<(Seq<char>, JsonV)>>, JsonErrorV>(None),
            Ok(Some(e)) => read_embedded(v@) == Ok::<Option<Seq<(Seq<char>, JsonV)>>, JsonErrorV>(Some(e@)),
            Err(e) => read_embedded(v@) == Err::<Option<Seq<(Seq<char>, JsonV)>>, JsonErrorV>(e@),
        },
{
    match v {
        Json::Null => Ok(None),
        Json::Object(fields) => Ok(Some(Embedded { fields: clone_entries(fields) })),
        _ => Err(JsonError::ExpectedObject),
    }
}

/// A message defined outside this library is written as the object that carries it.
pub fn embedded_value(e: &Embedded) -> (r: Json)
    ensures
        r@ == JsonV::Object(e@),
        read_embedded(r@) == Ok::<Option<Seq<(Seq<char>, JsonV)>>, JsonErrorV>(Some(e@)),
{
    Json::Object(clone_entries(&e.fields))
}

} // verus!
