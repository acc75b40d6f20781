//! A model of the JSON values the offset decoder inspects.
//!
//! An offset record arrives as raw JSON; the decoder reads it through this
//! type. An object keeps its bindings in wire order; a lookup finds the
//! first binding of a key.

use vstd::prelude::*;

verus! {

/// One JSON value.
#[derive(Debug, PartialEq, Eq)]
pub enum Json {
    Null,
    Bool(bool),
    /// A number with an integral value.
    Int(i64),
    Str(String),
    Arr(Vec<Json>),
    /// An object, as its bindings in wire order.
    Obj(Vec<(String, Json)>),
    /// A value outside this model (such as a fractional number), carried
    /// opaquely; it matches no decoded shape.
    Other,
}

/// The first binding of `key` among `fields`, if any.
pub open spec fn spec_lookup(fields: Seq<(String, Json)>, key: Seq<char>) -> Option<Json>
    decreases fields.len(),
{
    if fields.len() == 0 {
        None
    } else if fields[0].0@ == key {
        Some(fields[0].1)
    } else {
        spec_lookup(fields.drop_first(), key)
    }
}

/// Finds the first binding of `key` among `fields`.
pub fn lookup<'a>(fields: &'a Vec<(String, Json)>, key: &str) -> (r: Option<&'a Json>)
    ensures
        r is Some <==> spec_lookup(fields@, key@) is Some,
        r matches Some(v) ==> spec_lookup(fields@, key@) == Some(*v),
{
    let owned_key: String = key.to_owned();
    let mut i: usize = 0;
    proof {
        assert(fields@.skip(0) =~= fields@);
    }
    while i < fields.len()
        invariant
            i <= fields@.len(),
            owned_key@ == key@,
            spec_lookup(fields@, key@) == spec_lookup(fields@.skip(i as int), key@),
        decreases fields@.len() - i,
    {
        proof {
            assert(fields@.skip(i as int)[0] == fields@[i as int]);
            assert(fields@.skip(i as int).drop_first() =~= fields@.skip(i as int + 1));
        }
        if fields[i].0 == owned_key {
            return Some(&fields[i].1);
        }
        i = i + 1;
    }
    proof {
        assert(fields@.skip(fields@.len() as int).len() == 0);
    }
    None
}

} // verus!
