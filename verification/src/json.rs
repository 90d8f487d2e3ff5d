use vstd::prelude::*;

verus! {

/// A JSON document as the launcher reads it: objects keep their entries in
/// the order in which they are walked.
pub enum JsonValue {
    Null,
    Bool(bool),
    /// A number, held by its textual form.
    Number(String),
    String(String),
    Array(Vec<JsonValue>),
    Object(Vec<(String, JsonValue)>),
}

/// The value stored under `key` in `entries`: the first entry with that key.
pub open spec fn entries_get(entries: Seq<(String, JsonValue)>, key: Seq<char>) -> Option<JsonValue>
    decreases entries.len(),
{
    if entries.len() == 0 {
        None
    } else if entries[0].0@ == key {
        Some(entries[0].1)
    } else {
        entries_get(entries.drop_first(), key)
    }
}

impl JsonValue {
    /// What `get` gives: the value under `key` of an object, nothing for any other value.
    pub open spec fn spec_get(self, key: Seq<char>) -> Option<JsonValue> {
        match self {
            JsonValue::Object(entries) => entries_get(entries@, key),
            _ => None,
        }
    }

    pub fn get(&self, key: &str) -> (res: Option<&JsonValue>)
        ensures
            match res {
                Some(v) => self.spec_get(key@) == Some(*v),
                None => self.spec_get(key@) is None,
            },
    {
        match self {
            JsonValue::Object(entries) => {
                let key_string = key.to_owned();
                let mut i: usize = 0;
                assert(entries@.skip(0) =~= entries@);
                while i < entries.len()
                    invariant
                        0 <= i <= entries@.len(),
                        key_string@ == key@,
                        self.spec_get(key@) == entries_get(entries@, key@),
                        entries_get(entries@, key@) == entries_get(entries@.skip(i as int), key@),
                    decreases entries@.len() - i,
                {
                    assert(entries@.skip(i as int).drop_first() =~= entries@.skip(i + 1));
                    assert(entries@.skip(i as int)[0] == entries@[i as int]);
                    let same = entries[i].0.eq(&key_string);
                    if same {
                        assert(entries@[i as int].0@ == key@);
                        assert(entries_get(entries@.skip(i as int), key@) == Some(entries@[i as int].1));
                        assert(self.spec_get(key@) == Some(entries@[i as int].1));
                        let found = &entries[i].1;
                        assert(*found == entries@[i as int].1);
                        return Some(found);
                    }
                    i += 1;
                }
                assert(entries@.skip(i as int).len() == 0);
                None
            },
            _ => None,
        }
    }
}

} // verus!

verus! {

impl JsonValue {
    /// The entries of an object.
    pub fn as_object(&self) -> (res: Option<&Vec<(String, JsonValue)>>)
        ensures
            match res {
                Some(entries) => *self == JsonValue::Object(*entries),
                None => !(*self is Object),
            },
    {
        match self {
            JsonValue::Object(entries) => Some(entries),
            _ => None,
        }
    }

    /// The entries of the object stored under `key` of this object, if there is one.
    pub open spec fn section(self, key: Seq<char>) -> Option<Seq<(String, JsonValue)>> {
        match self.spec_get(key) {
            Some(JsonValue::Object(entries)) => Some(entries@),
            _ => None,
        }
    }

    /// `get(key).and_then(|v| v.as_object())`.
    pub fn get_section(&self, key: &str) -> (res: Option<&Vec<(String, JsonValue)>>)
        ensures
            match res {
                Some(entries) => self.section(key@) == Some(entries@),
                None => self.section(key@) is None,
            },
    {
        match self.get(key) {
            Some(v) => v.as_object(),
            None => None,
        }
    }
}

/// Looking a key up gives the value of the first entry with that key, and
/// nothing where no entry has it.
pub proof fn law_get_first_match(entries: Seq<(String, JsonValue)>, key: Seq<char>, k: int)
    requires
        0 <= k <= entries.len(),
        forall|j: int| 0 <= j < k ==> entries[j].0@ != key,
    ensures
        k < entries.len() && entries[k].0@ == key ==> entries_get(entries, key) == Some(entries[k].1),
        k == entries.len() ==> entries_get(entries, key) is None,
    decreases k,
{
    if k > 0 {
        let rest = entries.drop_first();
        assert forall|j: int| 0 <= j < k - 1 implies rest[j].0@ != key by {
            assert(rest[j] == entries[j + 1]);
        }
        law_get_first_match(rest, key, k - 1);
        assert(entries[0].0@ != key);
        if k < entries.len() {
            assert(rest[k - 1] == entries[k]);
        }
    }
}

} // verus!
