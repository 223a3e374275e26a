//! A JSON document model that the library reads and builds.
use vstd::prelude::*;

verus! {

/// A JSON number as serde_json distinguishes it: a non-negative integer,
/// a negative integer, or a floating-point number held by its bit pattern.
#[derive(Clone, Copy, Debug, PartialEq, Eq, Structural)]
pub enum JsonNumber {
    PosInt(u64),
    NegInt(i64),
    FloatBits(u64),
}

/// A JSON value. Object entries keep their order; keys are distinct.
#[derive(Debug, PartialEq)]
pub enum JsonValue {
    Null,
    Bool(bool),
    Number(JsonNumber),
    Text(String),
    Array(Vec<JsonValue>),
    Object(Vec<(String, JsonValue)>),
}

/// The mathematical model of a JSON value.
pub enum Json {
    Null,
    Bool(bool),
    Number(JsonNumber),
    Text(Seq<char>),
    Array(Seq<Json>),
    Object(Seq<(Seq<char>, Json)>),
}

/// The model of a value: strings by their characters, arrays and objects
/// element by element.
pub open spec fn model(v: &JsonValue) -> Json
    decreases v,
{
    match v {
        JsonValue::Null => Json::Null,
        JsonValue::Bool(b) => Json::Bool(*b),
        JsonValue::Number(n) => Json::Number(*n),
        JsonValue::Text(s) => Json::Text(s@),
        JsonValue::Array(items) => Json::Array(
            Seq::new(
                items@.len(),
                |i: int|
                    if 0 <= i < items@.len() {
                        model(&items@[i])
                    } else {
                        Json::Null
                    },
            ),
        ),
        JsonValue::Object(entries) => Json::Object(
            Seq::new(
                entries@.len(),
                |i: int|
                    if 0 <= i < entries@.len() {
                        (entries@[i].0@, model(&entries@[i].1))
                    } else {
                        (Seq::empty(), Json::Null)
                    },
            ),
        ),
    }
}

impl View for JsonValue {
    type V = Json;

    open spec fn view(&self) -> Json {
        model(self)
    }
}

} // verus!

verus! {

/// The value stored under `key` at or after position `i`: the first entry
/// whose key matches, as `serde_json::Map::get` finds the one entry.
pub open spec fn lookup_from(entries: Seq<(Seq<char>, Json)>, key: Seq<char>, i: int) -> Option<Json>
    decreases entries.len() - i,
{
    if i < 0 || i >= entries.len() {
        None
    } else if entries[i].0 == key {
        Some(entries[i].1)
    } else {
        lookup_from(entries, key, i + 1)
    }
}

/// A member is found at the first position that holds its name.
pub proof fn lemma_lookup_found(entries: Seq<(Seq<char>, Json)>, key: Seq<char>, from: int, at: int)
    requires
        0 <= from <= at < entries.len(),
        entries[at].0 == key,
        forall|m: int| from <= m < at ==> (#[trigger] entries[m]).0 != key,
    ensures
        lookup_from(entries, key, from) == Some(entries[at].1),
    decreases at - from,
{
    if from < at {
        lemma_lookup_found(entries, key, from + 1, at);
    }
}

/// A name that no member from `from` on holds is not found.
pub proof fn lemma_lookup_absent(entries: Seq<(Seq<char>, Json)>, key: Seq<char>, from: int)
    requires
        0 <= from,
        forall|m: int| from <= m < entries.len() ==> (#[trigger] entries[m]).0 != key,
    ensures
        lookup_from(entries, key, from) is None,
    decreases entries.len() - from,
{
    if from < entries.len() {
        lemma_lookup_absent(entries, key, from + 1);
    }
}

/// The view of a sequence of object entries.
pub open spec fn entries_view(entries: Seq<(String, JsonValue)>) -> Seq<(Seq<char>, Json)> {
    Seq::new(entries.len(), |i: int| (entries[i].0@, entries[i].1@))
}

/// The view of a sequence of values.
pub open spec fn items_view(items: Seq<JsonValue>) -> Seq<Json> {
    Seq::new(items.len(), |i: int| items[i]@)
}

impl Json {
    /// `value.get(key)`: the member `key` of an object; nothing for other values.
    pub open spec fn field(self, key: Seq<char>) -> Option<Json> {
        match self {
            Json::Object(entries) => lookup_from(entries, key, 0),
            _ => None,
        }
    }

    /// `value.as_str()`.
    pub open spec fn text(self) -> Option<Seq<char>> {
        match self {
            Json::Text(s) => Some(s),
            _ => None,
        }
    }

    /// `value.as_u64()`: a non-negative integer.
    pub open spec fn uint(self) -> Option<u64> {
        match self {
            Json::Number(JsonNumber::PosInt(n)) => Some(n),
            _ => None,
        }
    }

    /// `value.as_bool()`.
    pub open spec fn boolean(self) -> Option<bool> {
        match self {
            Json::Bool(b) => Some(b),
            _ => None,
        }
    }

    /// `value.as_array()`.
    pub open spec fn items(self) -> Option<Seq<Json>> {
        match self {
            Json::Array(items) => Some(items),
            _ => None,
        }
    }

    /// The text found under `key`, if `key` holds a string.
    pub open spec fn field_text(self, key: Seq<char>) -> Option<Seq<char>> {
        match self.field(key) {
            Some(v) => v.text(),
            None => None,
        }
    }

    /// The non-negative integer found under `key`, if any.
    pub open spec fn field_uint(self, key: Seq<char>) -> Option<u64> {
        match self.field(key) {
            Some(v) => v.uint(),
            None => None,
        }
    }
}

/// The view of an optional borrowed value.
pub open spec fn opt_view(v: Option<&JsonValue>) -> Option<Json> {
    match v {
        Some(x) => Some(x@),
        None => None,
    }
}

pub proof fn lemma_object_view(entries: Vec<(String, JsonValue)>)
    ensures
        JsonValue::Object(entries)@ == Json::Object(entries_view(entries@)),
{
    let v = JsonValue::Object(entries)@->Object_0;
    assert forall|i: int| 0 <= i < entries@.len() implies v[i] == entries_view(entries@)[i] by {}
    assert(v =~= entries_view(entries@));
}

pub proof fn lemma_array_view(items: Vec<JsonValue>)
    ensures
        JsonValue::Array(items)@ == Json::Array(items_view(items@)),
{
    let v = JsonValue::Array(items)@->Array_0;
    assert forall|i: int| 0 <= i < items@.len() implies v[i] == items_view(items@)[i] by {}
    assert(v =~= items_view(items@));
}

/// `map.get(key)` on the members of an object.
pub fn map_get<'a>(entries: &'a Vec<(String, JsonValue)>, key: &str) -> (r: Option<&'a JsonValue>)
    ensures
        opt_view(r) == lookup_from(entries_view(entries@), key@, 0),
{
    let ghost es = entries_view(entries@);
    let mut i: usize = 0;
    while i < entries.len()
        invariant
            es == entries_view(entries@),
            i <= entries@.len(),
            lookup_from(es, key@, 0) == lookup_from(es, key@, i as int),
        decreases entries@.len() - i,
    {
        if crate::text::str_eq(entries[i].0.as_str(), key) {
            return Some(&entries[i].1);
        }
        i = i + 1;
    }
    None
}

impl JsonValue {
    /// `value.get(key)`.
    pub fn get(&self, key: &str) -> (r: Option<&JsonValue>)
        ensures
            opt_view(r) == self@.field(key@),
    {
        match self {
            JsonValue::Object(entries) => {
                proof {
                    lemma_object_view(*entries);
                }
                map_get(entries, key)
            },
            _ => None,
        }
    }

    /// `value.as_str()`.
    pub fn as_str(&self) -> (r: Option<&str>)
        ensures
            match r {
                Some(s) => self@.text() == Some(s@),
                None => self@.text() is None,
            },
    {
        match self {
            JsonValue::Text(s) => Some(s.as_str()),
            _ => None,
        }
    }

    /// `value.as_u64()`.
    pub fn as_u64(&self) -> (r: Option<u64>)
        ensures
            r == self@.uint(),
    {
        match self {
            JsonValue::Number(JsonNumber::PosInt(n)) => Some(*n),
            _ => None,
        }
    }

    /// `value.as_bool()`.
    pub fn as_bool(&self) -> (r: Option<bool>)
        ensures
            r == self@.boolean(),
    {
        match self {
            JsonValue::Bool(b) => Some(*b),
            _ => None,
        }
    }

    /// `value.is_null()`.
    pub fn is_null(&self) -> (r: bool)
        ensures
            r == (self@ is Null),
    {
        match self {
            JsonValue::Null => true,
            _ => false,
        }
    }

    /// `value.as_array()`.
    pub fn as_array(&self) -> (r: Option<&Vec<JsonValue>>)
        ensures
            match r {
                Some(items) => self@.items() == Some(items_view(items@)),
                None => self@.items() is None,
            },
    {
        match self {
            JsonValue::Array(items) => {
                proof {
                    lemma_array_view(*items);
                }
                Some(items)
            },
            _ => None,
        }
    }

    /// A copy of this value.
    pub fn deep_clone(&self) -> (r: JsonValue)
        ensures
            r@ == self@,
        decreases self,
    {
        match self {
            JsonValue::Null => JsonValue::Null,
            JsonValue::Bool(b) => JsonValue::Bool(*b),
            JsonValue::Number(n) => JsonValue::Number(*n),
            JsonValue::Text(s) => JsonValue::Text(s.clone()),
            JsonValue::Array(items) => {
                let mut out: Vec<JsonValue> = Vec::new();
                let mut i: usize = 0;
                while i < items.len()
                    invariant
                        *self is Array,
                        *items == (*self)->Array_0,
                        i <= items@.len(),
                        out@.len() == i,
                        forall|j: int| 0 <= j < i ==> out@[j]@ == items@[j]@,
                    decreases items@.len() - i,
                {
                    proof {
                        assert(decreases_to!(*self => (*self)->Array_0));
                        assert(decreases_to!(*items => items@));
                        assert(decreases_to!(items@ => items@[i as int]));
                        assert(decreases_to!(*self => items@[i as int]));
                    }
                    let c = items[i].deep_clone();
                    out.push(c);
                    i = i + 1;
                }
                proof {
                    lemma_array_view(*items);
                    lemma_array_view(out);
                    assert(items_view(out@) =~= items_view(items@));
                }
                JsonValue::Array(out)
            },
            JsonValue::Object(entries) => {
                let mut out: Vec<(String, JsonValue)> = Vec::new();
                let mut i: usize = 0;
                while i < entries.len()
                    invariant
                        *self is Object,
                        *entries == (*self)->Object_0,
                        i <= entries@.len(),
                        out@.len() == i,
                        forall|j: int| 0 <= j < i ==> out@[j].0@ == entries@[j].0@ && out@[j].1@ == entries@[j].1@,
                    decreases entries@.len() - i,
                {
                    let k = entries[i].0.clone();
                    proof {
                        assert(decreases_to!(*self => (*self)->Object_0));
                        assert(decreases_to!(*entries => entries@));
                        assert(decreases_to!(entries@ => entries@[i as int]));
                        assert(decreases_to!(entries@[i as int] => entries@[i as int].1));
                        assert(decreases_to!(*self => entries@[i as int].1));
                    }
                    let v = entries[i].1.deep_clone();
                    out.push((k, v));
                    i = i + 1;
                }
                proof {
                    lemma_object_view(*entries);
                    lemma_object_view(out);
                    assert(entries_view(out@) =~= entries_view(entries@));
                }
                JsonValue::Object(out)
            },
        }
    }
}

} // verus!

verus! {

/// The entries an object keeps when null members are dropped.
pub open spec fn keep_entry() -> spec_fn((Seq<char>, Json)) -> bool {
    |e: (Seq<char>, Json)| !(e.1 is Null)
}

/// A value with every null-valued object member removed, at every depth;
/// array elements (nulls included) stay in place.
pub open spec fn pruned(j: Json) -> Json
    decreases j,
{
    match j {
        Json::Array(items) => Json::Array(
            Seq::new(
                items.len(),
                |i: int|
                    if 0 <= i < items.len() {
                        pruned(items[i])
                    } else {
                        Json::Null
                    },
            ),
        ),
        Json::Object(entries) => Json::Object(pruned_members(entries).filter(keep_entry())),
        _ => j,
    }
}

/// The members of an object, each value pruned, before the nulls are dropped.
pub open spec fn pruned_members(entries: Seq<(Seq<char>, Json)>) -> Seq<(Seq<char>, Json)>
    decreases entries,
{
    Seq::new(
        entries.len(),
        |i: int|
            if 0 <= i < entries.len() {
                (entries[i].0, pruned(entries[i].1))
            } else {
                (Seq::empty(), Json::Null)
            },
    )
}

/// Pruning leaves a value null exactly when it was null.
pub proof fn lemma_pruned_null(j: Json)
    ensures
        (pruned(j) is Null) <==> (j is Null),
{
}

/// Removes null-valued object members at every depth, so that a receiver's
/// "absent means default" handling is not defeated by explicit nulls.
pub fn prune_nulls(value: &JsonValue) -> (r: JsonValue)
    ensures
        r@ == pruned(value@),
    decreases value,
{
    match value {
        JsonValue::Array(items) => {
            let mut out: Vec<JsonValue> = Vec::new();
            let mut i: usize = 0;
            while i < items.len()
                invariant
                    *value is Array,
                    *items == (*value)->Array_0,
                    i <= items@.len(),
                    out@.len() == i,
                    forall|j: int| 0 <= j < i ==> out@[j]@ == pruned(items@[j]@),
                decreases items@.len() - i,
            {
                proof {
                    assert(decreases_to!(*value => (*value)->Array_0));
                    assert(decreases_to!(*items => items@));
                    assert(decreases_to!(items@ => items@[i as int]));
                }
                let p = prune_nulls(&items[i]);
                out.push(p);
                i = i + 1;
            }
            proof {
                lemma_array_view(*items);
                lemma_array_view(out);
                assert(value@ == JsonValue::Array(*items)@);
                assert(value@ is Array);
                assert(pruned(value@) is Array);
                assert(items_view(out@) =~= pruned(value@)->Array_0);
            }
            let r = JsonValue::Array(out);
            proof {
                lemma_array_view(out);
                assert(r@ == pruned(value@));
            }
            r
        },
        JsonValue::Object(entries) => {
            let ghost es = entries_view(entries@);
            let ghost all = pruned_members(es);
            proof {
                lemma_object_view(*entries);
            }
            let mut out: Vec<(String, JsonValue)> = Vec::new();
            let mut i: usize = 0;
            while i < entries.len()
                invariant
                    *value is Object,
                    *entries == (*value)->Object_0,
                    es == entries_view(entries@),
                    all == pruned_members(es),
                    i <= entries@.len(),
                    entries_view(out@) == all.take(i as int).filter(keep_entry()),
                decreases entries@.len() - i,
            {
                proof {
                    assert(all.take(i as int).push(all[i as int]) =~= all.take(i + 1));
                    all.take(i as int).lemma_filter_push(all[i as int], keep_entry());
                    lemma_pruned_null(es[i as int].1);
                }
                if !entries[i].1.is_null() {
                    proof {
                        assert(decreases_to!(*value => (*value)->Object_0));
                        assert(decreases_to!(*entries => entries@));
                        assert(decreases_to!(entries@ => entries@[i as int]));
                        assert(decreases_to!(entries@[i as int] => entries@[i as int].1));
                    }
                    let k = entries[i].0.clone();
                    let p = prune_nulls(&entries[i].1);
                    let ghost before = out@;
                    out.push((k, p));
                    proof {
                        assert(entries_view(out@) =~= entries_view(before).push(all[i as int]));
                    }
                }
                i = i + 1;
            }
            proof {
                lemma_object_view(out);
                assert(all.take(entries@.len() as int) =~= all);
                assert(value@ == JsonValue::Object(*entries)@);
                assert(value@->Object_0 == es);
                assert(all =~= pruned_members(value@->Object_0));
            }
            let r = JsonValue::Object(out);
            proof {
                lemma_object_view(out);
                assert(pruned(value@) == Json::Object(all.filter(keep_entry())));
                assert(r@ == pruned(value@));
            }
            r
        },
        _ => value.deep_clone(),
    }
}

} // verus!

verus! {

/// The members of an object being built.
pub type Members = Vec<(String, JsonValue)>;

/// A JSON string.
pub fn text_value(s: &str) -> (r: JsonValue)
    ensures
        r@ == Json::Text(s@),
{
    JsonValue::Text(crate::text::owned(s))
}

/// A JSON object with no members.
pub fn members_new() -> (m: Members)
    ensures
        entries_view(m@) == Seq::<(Seq<char>, Json)>::empty(),
{
    let m: Members = Vec::new();
    proof {
        assert(entries_view(m@) =~= Seq::<(Seq<char>, Json)>::empty());
    }
    m
}

/// Appends the member `key: value`.
pub fn push_member(m: &mut Members, key: &str, value: JsonValue)
    ensures
        entries_view(final(m)@) == entries_view(old(m)@).push((key@, value@)),
{
    let ghost before = m@;
    m.push((crate::text::owned(key), value));
    proof {
        assert(entries_view(m@) =~= entries_view(before).push((key@, value@)));
    }
}

/// The object with members `m`.
pub fn object_value(m: Members) -> (r: JsonValue)
    ensures
        r@ == Json::Object(entries_view(m@)),
{
    proof {
        lemma_object_view(m);
    }
    JsonValue::Object(m)
}

/// A copy of the members of an object.
pub fn copy_members(m: &Members) -> (r: Members)
    ensures
        entries_view(r@) == entries_view(m@),
{
    let mut out: Members = Vec::new();
    let mut i: usize = 0;
    while i < m.len()
        invariant
            i <= m@.len(),
            out@.len() == i,
            forall|j: int| 0 <= j < i ==> out@[j].0@ == m@[j].0@ && out@[j].1@ == m@[j].1@,
        decreases m@.len() - i,
    {
        let k = m[i].0.clone();
        let v = m[i].1.deep_clone();
        out.push((k, v));
        i = i + 1;
    }
    proof {
        assert(entries_view(out@) =~= entries_view(m@));
    }
    out
}

} // verus!

verus! {

impl Clone for JsonValue {
    fn clone(&self) -> (r: Self)
        ensures
            r@ == self@,
    {
        self.deep_clone()
    }
}

} // verus!

verus! {

/// Whether no object member holds null, at any depth.
pub open spec fn null_free(j: Json) -> bool
    decreases j,
{
    match j {
        Json::Array(items) => forall|i: int| 0 <= i < items.len() ==> null_free(#[trigger] items[i]),
        Json::Object(entries) => forall|i: int|
            0 <= i < entries.len() ==> !((#[trigger] entries[i]).1 is Null) && null_free(entries[i].1),
        _ => true,
    }
}

/// After pruning, no object member holds null, at any depth.
pub proof fn lemma_pruned_null_free(j: Json)
    ensures
        null_free(pruned(j)),
    decreases j,
{
    match j {
        Json::Array(items) => {
            let p = pruned(j)->Array_0;
            assert forall|i: int| 0 <= i < p.len() implies null_free(#[trigger] p[i]) by {
                lemma_pruned_null_free(items[i]);
            }
        },
        Json::Object(entries) => {
            let all = pruned_members(entries);
            let kept = all.filter(keep_entry());
            assert forall|i: int| 0 <= i < kept.len() implies !((#[trigger] kept[i]).1 is Null)
                && null_free(kept[i].1) by {
                all.lemma_filter_pred(keep_entry(), i);
                assert(kept.contains(kept[i]));
                all.lemma_filter_contains_rev(keep_entry(), kept[i]);
                let k = choose|k: int| 0 <= k < all.len() && all[k] == kept[i];
                lemma_pruned_null_free(entries[k].1);
            }
        },
        _ => {},
    }
}

/// Pruning a value that holds no null member changes nothing.
pub proof fn lemma_pruned_fixes_null_free(j: Json)
    requires
        null_free(j),
    ensures
        pruned(j) == j,
    decreases j,
{
    match j {
        Json::Array(items) => {
            let p = pruned(j)->Array_0;
            assert forall|i: int| 0 <= i < items.len() implies p[i] == items[i] by {
                lemma_pruned_fixes_null_free(items[i]);
            }
            assert(p =~= items);
        },
        Json::Object(entries) => {
            let all = pruned_members(entries);
            assert forall|i: int| 0 <= i < entries.len() implies all[i] == entries[i] by {
                lemma_pruned_fixes_null_free(entries[i].1);
            }
            assert(all =~= entries);
            lemma_filter_keeps_all(entries);
        },
        _ => {},
    }
}

/// Filtering members that are all non-null keeps them all.
proof fn lemma_filter_keeps_all(entries: Seq<(Seq<char>, Json)>)
    requires
        forall|i: int| 0 <= i < entries.len() ==> !((#[trigger] entries[i]).1 is Null),
    ensures
        entries.filter(keep_entry()) == entries,
    decreases entries.len(),
{
    reveal(Seq::filter);
    if entries.len() > 0 {
        let rest = entries.drop_last();
        assert forall|i: int| 0 <= i < rest.len() implies !((#[trigger] rest[i]).1 is Null) by {
            assert(rest[i] == entries[i]);
        }
        lemma_filter_keeps_all(rest);
        assert(rest.push(entries.last()) =~= entries);
    }
}

/// Pruning is idempotent: pruning twice is pruning once.
pub proof fn lemma_prune_idempotent(j: Json)
    ensures
        pruned(pruned(j)) == pruned(j),
{
    lemma_pruned_null_free(j);
    lemma_pruned_fixes_null_free(pruned(j));
}

} // verus!
