use vstd::prelude::*;

verus! {

/// A JSON document as this library models it. The wallet service only ever
/// puts nonnegative integers in numeric positions, so a number is kept as
/// its `u64` value where it has one and as `Num(None)` otherwise.
#[derive(Debug)]
pub enum JsonValue {
    Null,
    Bool(bool),
    Num(Option<u64>),
    Text(String),
    Arr(Vec<JsonValue>),
    Obj(Vec<(String, JsonValue)>),
}

/// The document that a string holds, exactly as `parse_json` reports it:
/// `None` when the string is not valid JSON.
pub uninterp spec fn json_of(s: Seq<char>) -> Option<JsonValue>;

#[verifier::external_type_specification]
#[verifier::external_body]
pub struct ExSerdeValue(serde_json::Value);

/// Moves a `serde_json` tree into the library's own `JsonValue`, one variant
/// to one. Object entries come out in the order `serde_json` iterates them
/// (sorted by key); a number becomes its `u64` value where it has one.
#[verifier::external_body]
fn json_tree(v: &serde_json::Value) -> JsonValue {
    match v {
        serde_json::Value::Null => JsonValue::Null,
        serde_json::Value::Bool(b) => JsonValue::Bool(*b),
        serde_json::Value::Number(n) => JsonValue::Num(n.as_u64()),
        serde_json::Value::String(s) => JsonValue::Text(s.clone()),
        serde_json::Value::Array(a) => JsonValue::Arr(a.iter().map(json_tree).collect()),
        serde_json::Value::Object(m) => {
            JsonValue::Obj(m.iter().map(|(k, x)| (k.clone(), json_tree(x))).collect())
        },
    }
}

/// Relies on `serde_json::from_str::<serde_json::Value>`: whether a string
/// is valid JSON, and what document it holds, depend on the string alone.
/// Object keys are iterated in sorted order and a repeated key keeps its
/// last value, so the resulting tree is a function of the input string and
/// every object in it has distinct keys.
#[verifier::external_body]
pub(crate) fn parse_json(s: &str) -> (r: Option<JsonValue>)
    ensures
        r == json_of(s@),
        r matches Some(v) ==> distinct_keys(v),
{
    match serde_json::from_str::<serde_json::Value>(s) {
        Ok(v) => Some(json_tree(&v)),
        Err(_) => None,
    }
}

/// Every object in this document has pairwise-distinct keys. This is true
/// of every tree `parse_json` hands out: a `serde_json` map keeps one
/// entry per key.
pub open spec fn distinct_keys(j: JsonValue) -> bool
    decreases j,
{
    match j {
        JsonValue::Obj(fs) => (forall|i: int, q: int|
            0 <= i < q < fs@.len() ==> (#[trigger] fs@[i].0)@ != (#[trigger] fs@[q].0)@) && (forall|
            i: int,
        |
            0 <= i < fs@.len() ==> distinct_keys(#[trigger] fs@[i].1)),
        JsonValue::Arr(es) => forall|i: int|
            0 <= i < es@.len() ==> distinct_keys(#[trigger] es@[i]),
        _ => true,
    }
}

/// The first entry under `key` in a list of object entries.
pub open spec fn lookup_entries(fs: Seq<(String, JsonValue)>, key: Seq<char>) -> Option<JsonValue>
    decreases fs.len(),
{
    if fs.len() == 0 {
        None
    } else if fs[0].0@ == key {
        Some(fs[0].1)
    } else {
        lookup_entries(fs.drop_first(), key)
    }
}

/// The value under `key`, where `j` is an object that holds the key.
pub open spec fn field_of(j: JsonValue, key: Seq<char>) -> Option<JsonValue> {
    match j {
        JsonValue::Obj(fs) => lookup_entries(fs@, key),
        _ => None,
    }
}

proof fn lemma_lookup_distinct(fs: Seq<(String, JsonValue)>, key: Seq<char>)
    requires
        forall|i: int| 0 <= i < fs.len() ==> distinct_keys(#[trigger] fs[i].1),
        lookup_entries(fs, key) is Some,
    ensures
        distinct_keys(lookup_entries(fs, key)->Some_0),
    decreases fs.len(),
{
    if fs.len() == 0 {
    } else if fs[0].0@ == key {
    } else {
        assert forall|i: int| 0 <= i < fs.drop_first().len() implies distinct_keys(
            #[trigger] fs.drop_first()[i].1,
        ) by {
            assert(fs.drop_first()[i] == fs[i + 1]);
        }
        lemma_lookup_distinct(fs.drop_first(), key);
    }
}

/// A field of a distinct-keyed document is itself a distinct-keyed
/// document.
pub proof fn lemma_field_distinct(j: JsonValue, key: Seq<char>)
    requires
        distinct_keys(j),
        field_of(j, key) is Some,
    ensures
        distinct_keys(field_of(j, key)->Some_0),
{
    match j {
        JsonValue::Obj(fs) => {
            lemma_lookup_distinct(fs@, key);
        },
        _ => {},
    }
}

/// The string under `key`, where `j` is an object whose entry there is a
/// JSON string.
pub open spec fn str_field(j: JsonValue, key: Seq<char>) -> Option<Seq<char>> {
    match field_of(j, key) {
        Some(JsonValue::Text(s)) => Some(s@),
        _ => None,
    }
}

/// The integer under `key`, where `j` is an object whose entry there is a
/// nonnegative integer that fits in `u64`.
pub open spec fn u64_field(j: JsonValue, key: Seq<char>) -> Option<u64> {
    match field_of(j, key) {
        Some(JsonValue::Num(n)) => n,
        _ => None,
    }
}

/// The boolean under `key`, where `j` is an object whose entry there is a
/// JSON boolean.
pub open spec fn bool_field(j: JsonValue, key: Seq<char>) -> Option<bool> {
    match field_of(j, key) {
        Some(JsonValue::Bool(b)) => Some(b),
        _ => None,
    }
}

/// An optional string field: `Some(None)` when the key is absent or null,
/// `Some(Some(s))` when it holds a string, and `None` when it holds a value
/// of any other type (a shape error).
pub open spec fn opt_str_field(j: JsonValue, key: Seq<char>) -> Option<Option<Seq<char>>> {
    match field_of(j, key) {
        None => Some(None),
        Some(JsonValue::Null) => Some(None),
        Some(JsonValue::Text(s)) => Some(Some(s@)),
        Some(_) => None,
    }
}

impl JsonValue {
    /// The entry under `key`, where this value is an object that holds it.
    pub fn get<'a>(&'a self, key: &str) -> (r: Option<&'a JsonValue>)
        ensures
            match r {
                Some(v) => field_of(*self, key@) == Some(*v),
                None => field_of(*self, key@) is None,
            },
    {
        match self {
            JsonValue::Obj(fs) => {
                let k: String = key.to_owned();
                let n = fs.len();
                let mut i: usize = 0;
                proof {
                    assert(fs@.skip(0) =~= fs@);
                }
                while i < n
                    invariant
                        *self == JsonValue::Obj(*fs),
                        n == fs.len(),
                        0 <= i <= n,
                        k@ == key@,
                        lookup_entries(fs@, key@) == lookup_entries(fs@.skip(i as int), key@),
                    decreases n - i,
                {
                    if fs[i].0 == k {
                        proof {
                            assert(fs@.skip(i as int).len() > 0);
                            assert(fs@.skip(i as int)[0] == fs@[i as int]);
                            assert(lookup_entries(fs@.skip(i as int), key@) == Some(
                                fs@[i as int].1,
                            ));
                            assert(field_of(*self, key@) == lookup_entries(fs@, key@));
                        }
                        return Some(&fs[i].1);
                    }
                    proof {
                        assert(fs@.skip(i as int).drop_first() =~= fs@.skip(i as int + 1));
                    }
                    i = i + 1;
                }
                proof {
                    assert(fs@.skip(n as int).len() == 0);
                }
                None
            },
            _ => None,
        }
    }

    /// The string under `key`, copied out, where this value is an object
    /// whose entry there is a JSON string.
    pub fn get_str(&self, key: &str) -> (r: Option<String>)
        ensures
            match r {
                Some(s) => str_field(*self, key@) == Some(s@),
                None => str_field(*self, key@) is None,
            },
    {
        match self.get(key) {
            Some(JsonValue::Text(s)) => Some(s.clone()),
            _ => None,
        }
    }

    /// The integer under `key`, where this value is an object whose entry
    /// there is a nonnegative integer that fits in `u64`.
    pub fn get_u64(&self, key: &str) -> (r: Option<u64>)
        ensures
            r == u64_field(*self, key@),
    {
        match self.get(key) {
            Some(JsonValue::Num(n)) => *n,
            _ => None,
        }
    }

    /// The boolean under `key`, where this value is an object whose entry
    /// there is a JSON boolean.
    pub fn get_bool(&self, key: &str) -> (r: Option<bool>)
        ensures
            r == bool_field(*self, key@),
    {
        match self.get(key) {
            Some(JsonValue::Bool(b)) => Some(*b),
            _ => None,
        }
    }

    /// An optional string field, as `opt_str_field` classifies it: the outer
    /// `None` reports a value of the wrong type under the key.
    pub fn get_opt_str(&self, key: &str) -> (r: Option<Option<String>>)
        ensures
            match r {
                Some(Some(s)) => opt_str_field(*self, key@) == Some(Some(s@)),
                Some(None) => opt_str_field(*self, key@) == Some(None::<Seq<char>>),
                None => opt_str_field(*self, key@) is None,
            },
    {
        match self.get(key) {
            None => Some(None),
            Some(JsonValue::Null) => Some(None),
            Some(JsonValue::Text(s)) => Some(Some(s.clone())),
            Some(_) => None,
        }
    }

    /// The entries of this value, where it is an object.
    pub fn entries(&self) -> (r: Option<&Vec<(String, JsonValue)>>)
        ensures
            match r {
                Some(fs) => *self == JsonValue::Obj(*fs),
                None => !(*self is Obj),
            },
    {
        match self {
            JsonValue::Obj(fs) => Some(fs),
            _ => None,
        }
    }

    /// The elements of this value, where it is an array.
    pub fn elements(&self) -> (r: Option<&Vec<JsonValue>>)
        ensures
            match r {
                Some(es) => *self == JsonValue::Arr(*es),
                None => !(*self is Arr),
            },
    {
        match self {
            JsonValue::Arr(es) => Some(es),
            _ => None,
        }
    }
}

} // verus!
