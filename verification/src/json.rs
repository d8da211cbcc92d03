//! A plain model of the JSON values that the chain gateway exchanges.
//!
//! The gateway speaks JSON over HTTP; the transport and the serializer live
//! outside the library, which works on this explicit tree so that every
//! field lookup and every response classification is verified. Numbers
//! carry only the unsigned 64-bit range the protocol uses; anything else a
//! peer might send maps to `Null` at the boundary and is treated as absent.

use vstd::prelude::*;

verus! {

/// A JSON document.
#[derive(Debug)]
pub enum JsonValue {
    Null,
    Bool(bool),
    UInt(u64),
    Str(String),
    Arr(Vec<JsonValue>),
    Obj(Vec<(String, JsonValue)>),
}

/// First binding of `key` in an object's field list.
pub open spec fn seq_lookup(fields: Seq<(String, JsonValue)>, key: Seq<char>) -> Option<
    JsonValue,
>
    decreases fields.len(),
{
    if fields.len() == 0 {
        None
    } else if fields[0].0@ == key {
        Some(fields[0].1)
    } else {
        seq_lookup(fields.drop_first(), key)
    }
}

/// Field lookup: `Some` only on objects that bind `key`.
pub open spec fn obj_get(v: JsonValue, key: Seq<char>) -> Option<JsonValue> {
    match v {
        JsonValue::Obj(fields) => seq_lookup(fields@, key),
        _ => None,
    }
}

/// The string content of a value, if it is a string.
pub open spec fn spec_as_str(v: JsonValue) -> Option<Seq<char>> {
    match v {
        JsonValue::Str(s) => Some(s@),
        _ => None,
    }
}

/// The numeric content of a value, if it is a number.
pub open spec fn spec_as_u64(v: JsonValue) -> Option<u64> {
    match v {
        JsonValue::UInt(n) => Some(n),
        _ => None,
    }
}

/// The elements of a value, if it is an array.
pub open spec fn spec_as_arr(v: JsonValue) -> Option<Seq<JsonValue>> {
    match v {
        JsonValue::Arr(items) => Some(items@),
        _ => None,
    }
}

/// Character-for-character string comparison.
pub fn str_eq(a: &str, b: &str) -> (r: bool)
    ensures
        r == (a@ == b@),
{
    let n = a.unicode_len();
    if n != b.unicode_len() {
        proof {
            assert(a@ != b@) by {
                assert(a@.len() != b@.len());
            }
        }
        return false;
    }
    let mut i: usize = 0;
    while i < n
        invariant
            n == a@.len(),
            n == b@.len(),
            0 <= i <= n,
            forall|j: int| 0 <= j < i ==> a@[j] == b@[j],
        decreases n - i,
    {
        if a.get_char(i) != b.get_char(i) {
            return false;
        }
        i = i + 1;
    }
    proof {
        assert(a@ =~= b@);
    }
    true
}

impl JsonValue {
    /// Look a key up in an object; `None` on any other shape of value.
    pub fn get<'a>(&'a self, key: &str) -> (res: Option<&'a JsonValue>)
        ensures
            match res {
                Some(r) => obj_get(*self, key@) == Some(*r),
                None => obj_get(*self, key@) is None,
            },
    {
        match self {
            JsonValue::Obj(fields) => {
                let n = fields.len();
                let mut i: usize = 0;
                proof {
                    assert(fields@.skip(0) =~= fields@);
                }
                while i < n
                    invariant
                        *self == JsonValue::Obj(*fields),
                        n == fields@.len(),
                        0 <= i <= n,
                        seq_lookup(fields@, key@) == seq_lookup(
                            fields@.skip(i as int),
                            key@,
                        ),
                    decreases n - i,
                {
                    let pair = &fields[i];
                    proof {
                        assert(fields@.skip(i as int)[0] == fields@[i as int]);
                        assert(fields@.skip(i as int).drop_first() =~= fields@.skip(
                            i + 1,
                        ));
                    }
                    if str_eq(pair.0.as_str(), key) {
                        proof {
                            assert(seq_lookup(fields@.skip(i as int), key@)
                                == Some(fields@[i as int].1));
                        }
                        return Some(&pair.1);
                    }
                    i = i + 1;
                }
                proof {
                    assert(fields@.skip(n as int).len() == 0);
                }
                None
            },
            _ => None,
        }
    }

    /// The string content, if this value is a string.
    pub fn as_str<'a>(&'a self) -> (res: Option<&'a String>)
        ensures
            match res {
                Some(s) => spec_as_str(*self) == Some(s@),
                None => spec_as_str(*self) is None,
            },
    {
        match self {
            JsonValue::Str(s) => Some(s),
            _ => None,
        }
    }

    /// The numeric content, if this value is a number.
    pub fn as_u64(&self) -> (res: Option<u64>)
        ensures
            res == spec_as_u64(*self),
    {
        match self {
            JsonValue::UInt(n) => Some(*n),
            _ => None,
        }
    }

    /// The elements, if this value is an array.
    pub fn as_arr<'a>(&'a self) -> (res: Option<&'a Vec<JsonValue>>)
        ensures
            match res {
                Some(items) => spec_as_arr(*self) == Some(items@),
                None => spec_as_arr(*self) is None,
            },
    {
        match self {
            JsonValue::Arr(items) => Some(items),
            _ => None,
        }
    }
}

} // verus!
