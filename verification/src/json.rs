//! The JSON value tree that the wire format is modelled on.
//!
//! `Json` is the executable tree; `JsonV` is its mathematical model, used by
//! every codec contract in the crate. Objects keep their fields in order as a
//! sequence of key/value pairs, so that re-encoding preserves field content.

use vstd::prelude::*;
use crate::error::DecodeError;
use crate::text::str_eq;

verus! {

/// The mathematical model of a JSON value.
#[verifier::ext_equal]
pub enum JsonV {
    Null,
    Bool(bool),
    Int(int),
    Str(Seq<char>),
    Arr(Seq<JsonV>),
    Obj(Seq<(Seq<char>, JsonV)>),
}

/// A JSON value. Numbers are restricted to signed 64-bit integers: the wire
/// format never carries fractional numbers, and every timestamp is an `i64`.
#[derive(Debug, PartialEq, Eq)]
pub enum Json {
    Null,
    Bool(bool),
    Int(i64),
    Str(String),
    Arr(Vec<Json>),
    Obj(Vec<(String, Json)>),
}

impl View for Json {
    type V = JsonV;

    open spec fn view(&self) -> JsonV
        decreases self,
    {
        match self {
            Json::Null => JsonV::Null,
            Json::Bool(b) => JsonV::Bool(*b),
            Json::Int(i) => JsonV::Int(*i as int),
            Json::Str(s) => JsonV::Str(s@),
            Json::Arr(items) => JsonV::Arr(items_view(*items)),
            Json::Obj(fields) => JsonV::Obj(fields_view(*fields)),
        }
    }
}

/// The model of an array's element list.
pub open spec fn items_view(items: Vec<Json>) -> Seq<JsonV>
    decreases items,
{
    Seq::new(
        items@.len(),
        |i: int|
            if 0 <= i < items@.len() {
                items@[i]@
            } else {
                JsonV::Null
            },
    )
}

/// The model of an object's field list.
pub open spec fn fields_view(fields: Vec<(String, Json)>) -> Seq<(Seq<char>, JsonV)>
    decreases fields,
{
    Seq::new(
        fields@.len(),
        |i: int|
            if 0 <= i < fields@.len() {
                (fields@[i].0@, fields@[i].1@)
            } else {
                (Seq::empty(), JsonV::Null)
            },
    )
}

/// Looks a key up in an object's field list; the first occurrence wins.
pub open spec fn lookup(o: Seq<(Seq<char>, JsonV)>, k: Seq<char>) -> Option<JsonV>
    decreases o.len(),
{
    if o.len() == 0 {
        None
    } else if o[0].0 == k {
        Some(o[0].1)
    } else {
        lookup(o.drop_first(), k)
    }
}

proof fn lemma_lookup_step(o: Seq<(Seq<char>, JsonV)>, k: Seq<char>, i: int)
    requires
        0 <= i < o.len(),
        forall|j: int| 0 <= j < i ==> o[j].0 != k,
    ensures
        lookup(o, k) == lookup(o.skip(i), k),
    decreases i,
{
    if i > 0 {
        lemma_lookup_step(o.drop_first(), k, i - 1);
        assert(o.drop_first().skip(i - 1) =~= o.skip(i));
    } else {
        assert(o.skip(0) =~= o);
    }
}

/// A found value is one of the object's own entries.
pub proof fn lemma_lookup_element(o: Seq<(Seq<char>, JsonV)>, k: Seq<char>)
    ensures
        match lookup(o, k) {
            Some(v) => exists|i: int| 0 <= i < o.len() && o[i].1 == v,
            None => true,
        },
    decreases o.len(),
{
    if o.len() > 0 && o[0].0 != k {
        lemma_lookup_element(o.drop_first(), k);
        if lookup(o, k) is Some {
            let i = choose|i: int|
                0 <= i < o.drop_first().len() && o.drop_first()[i].1 == lookup(o, k)->0;
            assert(o[i + 1].1 == lookup(o, k)->0);
        }
    }
}

proof fn lemma_lookup_none(o: Seq<(Seq<char>, JsonV)>, k: Seq<char>)
    requires
        forall|j: int| 0 <= j < o.len() ==> o[j].0 != k,
    ensures
        lookup(o, k) == None::<JsonV>,
    decreases o.len(),
{
    if o.len() > 0 {
        lemma_lookup_none(o.drop_first(), k);
    }
}

impl Clone for Json {
    /// The clone models the same JSON value.
    #[verifier::loop_isolation(false)]
    fn clone(&self) -> (r: Json)
        ensures
            r@ == self@,
        decreases self,
    {
        match self {
            Json::Null => Json::Null,
            Json::Bool(b) => Json::Bool(*b),
            Json::Int(i) => Json::Int(*i),
            Json::Str(s) => Json::Str(s.clone()),
            Json::Arr(items) => {
                let n = items.len();
                let mut out: Vec<Json> = Vec::new();
                let mut i: usize = 0;
                while i < n
                    invariant
                        n == items@.len(),
                        i <= n,
                        out@.len() == i,
                        forall|j: int| 0 <= j < i ==> (#[trigger] out@[j])@ == items@[j]@,
                    decreases n - i,
                {
                    proof {
                        assert(decreases_to!(self => self->Arr_0));
                        assert(self->Arr_0 == *items);
                        assert(decreases_to!(*items => items@));
                        assert(decreases_to!(items@ => items@[i as int]));
                        assert(decreases_to!(self => items@[i as int]));
                    }
                    out.push(items[i].clone());
                    i += 1;
                }
                proof {
                    assert(items_view(out) =~= items_view(*items));
                }
                Json::Arr(out)
            },
            Json::Obj(fields) => {
                let n = fields.len();
                let mut out: Vec<(String, Json)> = Vec::new();
                let mut i: usize = 0;
                while i < n
                    invariant
                        n == fields@.len(),
                        i <= n,
                        out@.len() == i,
                        forall|j: int|
                            0 <= j < i ==> (#[trigger] out@[j]).0@ == fields@[j].0@ && out@[j].1@
                                == fields@[j].1@,
                    decreases n - i,
                {
                    proof {
                        assert(decreases_to!(self => self->Obj_0));
                        assert(self->Obj_0 == *fields);
                        assert(decreases_to!(*fields => fields@));
                        assert(decreases_to!(fields@ => fields@[i as int]));
                        assert(decreases_to!(fields@[i as int] => fields@[i as int].1));
                        assert(decreases_to!(self => fields@[i as int].1));
                    }
                    out.push((fields[i].0.clone(), fields[i].1.clone()));
                    i += 1;
                }
                proof {
                    assert(fields_view(out) =~= fields_view(*fields));
                }
                Json::Obj(out)
            },
        }
    }
}

impl Json {
    /// Finds the first field with the given key in this object's field list.
    pub fn obj_get<'a>(fields: &'a Vec<(String, Json)>, key: &str) -> (r: Option<&'a Json>)
        ensures
            match r {
                Some(j) => lookup(fields_view(*fields), key@) == Some(j@) && (exists|i: int|
                    0 <= i < fields@.len() && fields@[i].1 == *j),
                None => lookup(fields_view(*fields), key@) is None,
            },
    {
        let ghost o = fields_view(*fields);
        let mut i: usize = 0;
        while i < fields.len()
            invariant
                o == fields_view(*fields),
                o.len() == fields@.len(),
                i <= fields@.len(),
                forall|j: int| 0 <= j < i ==> o[j].0 != key@,
            decreases fields@.len() - i,
        {
            if str_eq(fields[i].0.as_str(), key) {
                proof {
                    lemma_lookup_step(o, key@, i as int);
                    assert(o.skip(i as int)[0] == o[i as int]);
                    assert(fields@[i as int].1 == fields@[i as int].1);
                }
                return Some(&fields[i].1);
            }
            i += 1;
        }
        proof {
            lemma_lookup_none(o, key@);
        }
        None
    }
}

/// What decoding each element of an array yields: the decoded elements in
/// order, or the first element error.
pub open spec fn arr_decoded<A>(
    f: spec_fn(JsonV) -> Result<A, DecodeError>,
    items: Seq<JsonV>,
) -> Result<Seq<A>, DecodeError>
    decreases items.len(),
{
    if items.len() == 0 {
        Ok(Seq::empty())
    } else {
        match f(items[0]) {
            Ok(a) => match arr_decoded(f, items.drop_first()) {
                Ok(rest) => Ok(seq![a] + rest),
                Err(e) => Err(e),
            },
            Err(e) => Err(e),
        }
    }
}

/// If every element decodes, the array decodes to the element values.
pub proof fn lemma_arr_decoded_ok<A>(
    f: spec_fn(JsonV) -> Result<A, DecodeError>,
    items: Seq<JsonV>,
    vals: Seq<A>,
)
    requires
        vals.len() == items.len(),
        forall|j: int| 0 <= j < items.len() ==> f(#[trigger] items[j]) == Ok::<A, DecodeError>(
            vals[j],
        ),
    ensures
        arr_decoded(f, items) == Ok::<Seq<A>, DecodeError>(vals),
    decreases items.len(),
{
    if items.len() == 0 {
        assert(vals =~= Seq::<A>::empty());
    } else {
        lemma_arr_decoded_ok(f, items.drop_first(), vals.drop_first());
        assert(vals =~= seq![vals[0]] + vals.drop_first());
    }
}

/// If a prefix decodes and the next element fails, the array fails with
/// that element's error.
pub proof fn lemma_arr_decoded_err<A>(
    f: spec_fn(JsonV) -> Result<A, DecodeError>,
    items: Seq<JsonV>,
    i: int,
    e: DecodeError,
)
    requires
        0 <= i < items.len(),
        forall|j: int| 0 <= j < i ==> f(#[trigger] items[j]) is Ok,
        f(items[i]) == Err::<A, DecodeError>(e),
    ensures
        arr_decoded(f, items) == Err::<Seq<A>, DecodeError>(e),
    decreases i,
{
    if i > 0 {
        lemma_arr_decoded_err(f, items.drop_first(), i - 1, e);
    }
}

} // verus!
