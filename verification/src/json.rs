//! The JSON shape the response-extraction logic reads: strings, arrays
//! and objects, with every other kind of value (numbers, booleans, null)
//! collapsed into one opaque variant that the logic never consults. The
//! boundary that performs the HTTP call parses the wire body and hands
//! a value of this type in.

use vstd::prelude::*;

verus! {

#[derive(Debug)]
pub enum JsonValue {
    Text(String),
    List(Vec<JsonValue>),
    Object(Vec<(String, JsonValue)>),
    Other,
}

/// The value of the first field named `key`, if any.
pub open spec fn lookup_field(fields: Seq<(String, JsonValue)>, key: Seq<char>) -> Option<
    JsonValue,
>
    decreases fields.len(),
{
    if fields.len() == 0 {
        None
    } else if fields[0].0@ == key {
        Some(fields[0].1)
    } else {
        lookup_field(fields.drop_first(), key)
    }
}

impl JsonValue {
    /// Member lookup: the value under `key` when `self` is an object with
    /// such a field, `None` otherwise.
    pub open spec fn spec_get(self, key: Seq<char>) -> Option<JsonValue> {
        match self {
            JsonValue::Object(fields) => lookup_field(fields@, key),
            _ => None,
        }
    }

    pub fn get<'a>(&'a self, key: &str) -> (r: Option<&'a JsonValue>)
        ensures
            match r {
                Some(v) => self.spec_get(key@) == Some(*v),
                None => self.spec_get(key@) is None,
            },
    {
        match self {
            JsonValue::Object(fields) => {
                let wanted: String = key.to_owned();
                let n: usize = fields.len();
                let mut i: usize = 0;
                proof {
                    assert(fields@.skip(0) =~= fields@);
                }
                while i < n
                    invariant
                        i <= n,
                        n == fields@.len(),
                        wanted@ == key@,
                        self.spec_get(key@) == lookup_field(fields@.skip(i as int), key@),
                    decreases n - i,
                {
                    let pair = &fields[i];
                    proof {
                        assert(fields@.skip(i as int)[0] == fields@[i as int]);
                        assert(fields@.skip(i as int).drop_first() =~= fields@.skip(
                            i + 1 as int,
                        ));
                    }
                    if pair.0 == wanted {
                        proof {
                            assert(fields@.skip(i as int).len() > 0);
                            assert(fields@.skip(i as int)[0].0@ == key@);
                            assert(lookup_field(fields@.skip(i as int), key@) == Some(
                                fields@[i as int].1,
                            ));
                        }
                        return Some(&pair.1);
                    }
                    i = i + 1;
                }
                proof {
                    assert(fields@.skip(n as int) =~= Seq::<(String, JsonValue)>::empty());
                }
                None
            },
            _ => None,
        }
    }
}

} // verus!
