use vstd::prelude::*;

verus! {

/// A JSON value as the admin layer reads it. Numbers keep their JSON text,
/// and arrays or objects nested inside an item keep their compact JSON text:
/// the layer passes them through without looking inside.
#[derive(Debug, Clone, PartialEq)]
pub enum JsonValue {
    Null,
    Bool(bool),
    Number(String),
    Str(String),
    Array(String),
    Object(String),
}

/// The mathematical content of a `JsonValue`.
pub enum JsonData {
    Null,
    Bool(bool),
    Number(Seq<char>),
    Str(Seq<char>),
    Array(Seq<char>),
    Object(Seq<char>),
}

impl View for JsonValue {
    type V = JsonData;

    open spec fn view(&self) -> JsonData {
        match self {
            JsonValue::Null => JsonData::Null,
            JsonValue::Bool(b) => JsonData::Bool(*b),
            JsonValue::Number(t) => JsonData::Number(t@),
            JsonValue::Str(s) => JsonData::Str(s@),
            JsonValue::Array(t) => JsonData::Array(t@),
            JsonValue::Object(t) => JsonData::Object(t@),
        }
    }
}

impl JsonValue {
    /// A copy of the value.
    pub fn duplicate(&self) -> (r: JsonValue)
        ensures
            r == *self,
    {
        match self {
            JsonValue::Null => JsonValue::Null,
            JsonValue::Bool(b) => JsonValue::Bool(*b),
            JsonValue::Number(t) => JsonValue::Number(t.clone()),
            JsonValue::Str(s) => JsonValue::Str(s.clone()),
            JsonValue::Array(t) => JsonValue::Array(t.clone()),
            JsonValue::Object(t) => JsonValue::Object(t.clone()),
        }
    }
}

/// The members of a JSON object, in order, as keys and values.
pub type Members = Seq<(Seq<char>, JsonData)>;

/// No key occurs twice.
pub open spec fn keys_distinct(m: Members) -> bool {
    forall|i: int, j: int| 0 <= i < j < m.len() ==> #[trigger] m[i].0 != #[trigger] m[j].0
}

/// Some member has key `k`.
pub open spec fn has_key(m: Members, k: Seq<char>) -> bool {
    exists|i: int| 0 <= i < m.len() && #[trigger] m[i].0 == k
}

/// Where key `k` first stands (meaningful when `has_key(m, k)`).
pub open spec fn key_index(m: Members, k: Seq<char>) -> int {
    choose|i: int|
        0 <= i < m.len() && #[trigger] m[i].0 == k && forall|j: int| 0 <= j < i ==> #[trigger] m[j].0 != k
}

/// When `k` is a key, `key_index` finds its first position.
pub proof fn lemma_key_index(m: Members, k: Seq<char>)
    requires
        has_key(m, k),
    ensures
        0 <= key_index(m, k) < m.len(),
        m[key_index(m, k)].0 == k,
        forall|j: int| 0 <= j < key_index(m, k) ==> #[trigger] m[j].0 != k,
    decreases m.len(),
{
    let init = m.drop_last();
    if has_key(init, k) {
        lemma_key_index(init, k);
        let i = key_index(init, k);
        assert(m[i].0 == k);
        assert forall|j: int| 0 <= j < i implies #[trigger] m[j].0 != k by {
            assert(m[j] == init[j]);
        }
    } else {
        let i = m.len() - 1;
        let w = choose|w: int| 0 <= w < m.len() && #[trigger] m[w].0 == k;
        if w < i {
            assert(init[w].0 == k);
        }
        assert forall|j: int| 0 <= j < i implies #[trigger] m[j].0 != k by {
            assert(m[j] == init[j]);
        }
        assert(m[i].0 == k);
    }
}

/// The value under key `k`, if any.
#[verifier::opaque]
pub open spec fn lookup(m: Members, k: Seq<char>) -> Option<JsonData> {
    if has_key(m, k) {
        Some(m[key_index(m, k)].1)
    } else {
        None
    }
}

/// `m` with key `k` set to `v`: in place when `k` is there, else appended.
pub open spec fn upsert(m: Members, k: Seq<char>, v: JsonData) -> Members {
    if has_key(m, k) {
        m.update(key_index(m, k), (k, v))
    } else {
        m.push((k, v))
    }
}

/// A flat JSON object whose members keep their order.
#[derive(Debug, Clone, PartialEq)]
pub struct JsonObject {
    pub entries: Vec<(String, JsonValue)>,
}

impl View for JsonObject {
    type V = Members;

    open spec fn view(&self) -> Members {
        self.entries@.map_values(|e: (String, JsonValue)| (e.0@, e.1@))
    }
}

impl JsonObject {
    /// Well formed: keys are distinct.
    pub open spec fn wf(&self) -> bool {
        keys_distinct(self@)
    }

    /// The empty object.
    pub fn new() -> (r: JsonObject)
        ensures
            r@ == Seq::<(Seq<char>, JsonData)>::empty(),
            r.wf(),
    {
        JsonObject { entries: Vec::new() }
    }

    /// Where `key` stands among the members, if it is there.
    fn position(&self, key: &String) -> (r: Option<usize>)
        ensures
            match r {
                Some(i) => i < self@.len() && self@[i as int].0 == key@ && forall|j: int|
                    0 <= j < i ==> #[trigger] self@[j].0 != key@,
                None => !has_key(self@, key@),
            },
    {
        let mut i: usize = 0;
        while i < self.entries.len()
            invariant
                i <= self.entries@.len(),
                forall|j: int| 0 <= j < i ==> #[trigger] self@[j].0 != key@,
            decreases self.entries@.len() - i,
        {
            if self.entries[i].0 == *key {
                return Some(i);
            }
            i = i + 1;
        }
        None
    }

    /// The value under `key`.
    pub fn get(&self, key: &String) -> (r: Option<&JsonValue>)
        ensures
            match r {
                Some(v) => lookup(self@, key@) == Some(v@),
                None => lookup(self@, key@) is None,
            },
    {
        proof {
            reveal(lookup);
        }
        match self.position(key) {
            Some(i) => {
                proof {
                    let k = key_index(self@, key@);
                    assert(self@[k].0 == key@);
                    if k < i {
                        assert(self@[k].0 != key@);
                    }
                    if i < k {
                        assert(self@[i as int].0 != key@);
                    }
                }
                Some(&self.entries[i].1)
            },
            None => None,
        }
    }

    /// Sets `key` to `value`, in place when the key is there, else at the end.
    pub fn insert(&mut self, key: String, value: JsonValue)
        requires
            old(self).wf(),
        ensures
            final(self).wf(),
            final(self)@ == upsert(old(self)@, key@, value@),
    {
        match self.position(&key) {
            Some(i) => {
                proof {
                    let k = key_index(self@, key@);
                    assert(self@[k].0 == key@);
                    if k < i {
                        assert(self@[k].0 != key@);
                    }
                    if i < k {
                        assert(self@[i as int].0 != key@);
                    }
                }
                self.entries.set(i, (key, value));
                assert(self@ =~= upsert(old(self)@, key@, value@));
            },
            None => {
                self.entries.push((key, value));
                assert(self@ =~= upsert(old(self)@, key@, value@));
            },
        }
    }
}

impl JsonObject {
    /// A copy of the object.
    pub fn duplicate(&self) -> (r: JsonObject)
        ensures
            r.entries@ == self.entries@,
            r@ == self@,
    {
        let mut entries: Vec<(String, JsonValue)> = Vec::new();
        let mut i: usize = 0;
        while i < self.entries.len()
            invariant
                i <= self.entries@.len(),
                entries@ == self.entries@.take(i as int),
            decreases self.entries@.len() - i,
        {
            let e = &self.entries[i];
            entries.push((e.0.clone(), e.1.duplicate()));
            assert(entries@ =~= self.entries@.take(i + 1));
            i = i + 1;
        }
        assert(self.entries@.take(self.entries@.len() as int) =~= self.entries@);
        JsonObject { entries }
    }
}

/// What serialising one item produced: an object, or some other value.
#[derive(Debug, Clone, PartialEq)]
pub enum Encoded {
    Object(JsonObject),
    Value(JsonValue),
}

/// The mathematical content of an `Encoded`.
pub enum EncodedData {
    Object(Members),
    Value(JsonData),
}

impl View for Encoded {
    type V = EncodedData;

    open spec fn view(&self) -> EncodedData {
        match self {
            Encoded::Object(o) => EncodedData::Object(o@),
            Encoded::Value(v) => EncodedData::Value(v@),
        }
    }
}

} // verus!
