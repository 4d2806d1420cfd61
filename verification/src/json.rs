//! A JSON value model used for the socket protocol, with the helpers that
//! build request parameters and read replies.

use vstd::prelude::*;

verus! {

/// A JSON value as the plugin protocol exchanges it.
#[derive(Debug, PartialEq)]
pub enum JsonValue {
    Null,
    Bool(bool),
    UInt(u64),
    Int(i64),
    /// A number that is not an integer, given by its decimal text.
    Decimal(String),
    Text(String),
    Array(Vec<JsonValue>),
    Object(Vec<JsonMember>),
}

/// One `"key": value` member of a JSON object.
#[derive(Debug, PartialEq)]
pub struct JsonMember {
    pub key: String,
    pub value: JsonValue,
}

/// The mathematical model of a JSON value.
pub enum Json {
    Null,
    Bool(bool),
    UInt(u64),
    Int(i64),
    Decimal(Seq<char>),
    Text(Seq<char>),
    Array(Seq<Json>),
    Object(Seq<(Seq<char>, Json)>),
}

/// The models of a sequence of values.
pub open spec fn json_items(items: Seq<JsonValue>) -> Seq<Json>
    decreases items,
{
    if items.len() == 0 {
        Seq::empty()
    } else {
        json_items(items.subrange(0, items.len() - 1)).push(items[items.len() - 1].model())
    }
}

/// The models of a sequence of object members, in order.
pub open spec fn json_members(members: Seq<JsonMember>) -> Seq<(Seq<char>, Json)>
    decreases members,
{
    if members.len() == 0 {
        Seq::empty()
    } else {
        let last = members[members.len() - 1];
        json_members(members.subrange(0, members.len() - 1)).push((last.key@, last.value.model()))
    }
}

impl JsonValue {
    /// The model of this value.
    pub open spec fn model(self) -> Json
        decreases self,
    {
        match self {
            JsonValue::Null => Json::Null,
            JsonValue::Bool(b) => Json::Bool(b),
            JsonValue::UInt(n) => Json::UInt(n),
            JsonValue::Int(n) => Json::Int(n),
            JsonValue::Decimal(s) => Json::Decimal(s@),
            JsonValue::Text(s) => Json::Text(s@),
            JsonValue::Array(items) => Json::Array(json_items(items@)),
            JsonValue::Object(members) => Json::Object(json_members(members@)),
        }
    }
}

/// The value of the last member of `members` whose key is `key`, if any:
/// where a key repeats, the later member wins, as in a JSON map.
pub open spec fn member_lookup(members: Seq<(Seq<char>, Json)>, key: Seq<char>) -> Option<Json>
    decreases members.len(),
{
    if members.len() == 0 {
        None
    } else if members.last().0 == key {
        Some(members.last().1)
    } else {
        member_lookup(members.drop_last(), key)
    }
}

/// The text value of an option, when it is set.
pub open spec fn opt_text_json(v: Option<String>) -> Option<Json> {
    match v {
        Some(s) => Some(Json::Text(s@)),
        None => None,
    }
}

/// The boolean value of an option, when it is set.
pub open spec fn opt_bool_json(v: Option<bool>) -> Option<Json> {
    match v {
        Some(b) => Some(Json::Bool(b)),
        None => None,
    }
}

/// Looking a key up in two runs of members: the later run wins where it has
/// the key.
pub proof fn lemma_lookup_concat(a: Seq<(Seq<char>, Json)>, b: Seq<(Seq<char>, Json)>, key: Seq<char>)
    ensures
        member_lookup(a + b, key) == match member_lookup(b, key) {
            Some(v) => Some(v),
            None => member_lookup(a, key),
        },
    decreases b.len(),
{
    if b.len() == 0 {
        assert(a + b =~= a);
    } else {
        assert((a + b).drop_last() =~= a + b.drop_last());
        assert((a + b).last() == b.last());
        lemma_lookup_concat(a, b.drop_last(), key);
    }
}

/// What an optional member holds under each key.
pub proof fn lemma_lookup_opt_members(k: Seq<char>, key: Seq<char>, t: Option<Seq<char>>, b: Option<bool>)
    ensures
        member_lookup(opt_text_member(k, t), key) == (if key == k {
            match t {
                Some(v) => Some(Json::Text(v)),
                None => None,
            }
        } else {
            None
        }),
        member_lookup(opt_bool_member(k, b), key) == (if key == k {
            match b {
                Some(v) => Some(Json::Bool(v)),
                None => None,
            }
        } else {
            None
        }),
{
    let none = Seq::<(Seq<char>, Json)>::empty();
    assert(member_lookup(none, key) == None::<Json>);
    if let Some(v) = t {
        let m = opt_text_member(k, t);
        assert(m.len() == 1);
        assert(m.last() == (k, Json::Text(v)));
        assert(m.drop_last() =~= none);
    } else {
        assert(opt_text_member(k, t) =~= none);
    }
    if let Some(v) = b {
        let m = opt_bool_member(k, b);
        assert(m.len() == 1);
        assert(m.last() == (k, Json::Bool(v)));
        assert(m.drop_last() =~= none);
    } else {
        assert(opt_bool_member(k, b) =~= none);
    }
}

/// What the `env` member holds under each key: the pairs as an object, when
/// there are any.
pub proof fn lemma_lookup_env_member(pairs: Seq<(String, String)>, key: Seq<char>)
    ensures
        member_lookup(env_member(pairs), key) == (if key == "env"@ && pairs.len() > 0 {
            Some(Json::Object(text_object(pairs)))
        } else {
            None
        }),
{
    let none = Seq::<(Seq<char>, Json)>::empty();
    assert(member_lookup(none, key) == None::<Json>);
    if pairs.len() > 0 {
        let m = env_member(pairs);
        assert(m.len() == 1);
        assert(m.last() == ("env"@, Json::Object(text_object(pairs))));
        assert(m.drop_last() =~= none);
    } else {
        assert(env_member(pairs) =~= none);
    }
}

/// Every member of `run` is among `members`.
pub open spec fn includes(members: Seq<(Seq<char>, Json)>, run: Seq<(Seq<char>, Json)>) -> bool {
    forall|j: int| 0 <= j < run.len() ==> members.contains(#[trigger] run[j])
}

/// A run of members at the end of the members is among them.
pub proof fn lemma_run_at_end(pre: Seq<(Seq<char>, Json)>, run: Seq<(Seq<char>, Json)>)
    ensures
        includes(pre + run, run),
{
    assert forall|j: int| 0 <= j < run.len() implies (pre + run).contains(#[trigger] run[j]) by {
        assert((pre + run)[pre.len() + j] == run[j]);
    }
}

/// Members stay among the members when more follow.
pub proof fn lemma_includes_extend(members: Seq<(Seq<char>, Json)>, more: Seq<(Seq<char>, Json)>, run: Seq<(Seq<char>, Json)>)
    requires
        includes(members, run),
    ensures
        includes(members + more, run),
{
    assert forall|j: int| 0 <= j < run.len() implies (members + more).contains(#[trigger] run[j]) by {
        assert(members.contains(run[j]));
        let i = choose|i: int| 0 <= i < members.len() && members[i] == run[j];
        assert((members + more)[i] == run[j]);
    }
}


/// The member `key` of an object, as `serde_json::Value::get` reads it.
pub open spec fn json_get(value: Json, key: Seq<char>) -> Option<Json> {
    match value {
        Json::Object(members) => member_lookup(members, key),
        _ => None,
    }
}

/// The text of a string value.
pub open spec fn json_str(value: Json) -> Option<Seq<char>> {
    match value {
        Json::Text(s) => Some(s),
        _ => None,
    }
}

/// A text member when the option is set, nothing otherwise.
pub open spec fn opt_text_member(key: Seq<char>, value: Option<Seq<char>>) -> Seq<(Seq<char>, Json)> {
    match value {
        Some(v) => seq![(key, Json::Text(v))],
        None => Seq::empty(),
    }
}

/// A boolean member when the option is set, nothing otherwise.
pub open spec fn opt_bool_member(key: Seq<char>, value: Option<bool>) -> Seq<(Seq<char>, Json)> {
    match value {
        Some(v) => seq![(key, Json::Bool(v))],
        None => Seq::empty(),
    }
}

/// An integer member when the option is set, nothing otherwise.
pub open spec fn opt_uint_member(key: Seq<char>, value: Option<u64>) -> Seq<(Seq<char>, Json)> {
    match value {
        Some(v) => seq![(key, Json::UInt(v))],
        None => Seq::empty(),
    }
}

/// A decimal member when the option is set, nothing otherwise.
pub open spec fn opt_decimal_member(key: Seq<char>, value: Option<Seq<char>>) -> Seq<(Seq<char>, Json)> {
    match value {
        Some(v) => seq![(key, Json::Decimal(v))],
        None => Seq::empty(),
    }
}

/// A member holding `value` when it is set, nothing otherwise.
pub open spec fn opt_value_member(key: Seq<char>, value: Option<JsonValue>) -> Seq<(Seq<char>, Json)> {
    match value {
        Some(v) => seq![(key, v.model())],
        None => Seq::empty(),
    }
}

/// The view of an optional string.
pub open spec fn opt_view(value: Option<String>) -> Option<Seq<char>> {
    match value {
        Some(v) => Some(v@),
        None => None,
    }
}

/// The views of a sequence of strings.
pub open spec fn strs(v: Seq<String>) -> Seq<Seq<char>> {
    v.map_values(|s: String| s@)
}

/// The object `{ key: value, ... }` made of `pairs` in order, every value a string.
pub open spec fn text_object(pairs: Seq<(String, String)>) -> Seq<(Seq<char>, Json)> {
    pairs.map_values(|p: (String, String)| (p.0@, Json::Text(p.1@)))
}

/// An `env` member holding `pairs` when there is at least one, nothing otherwise.
pub open spec fn env_member(pairs: Seq<(String, String)>) -> Seq<(Seq<char>, Json)> {
    if pairs.len() == 0 {
        Seq::empty()
    } else {
        seq![("env"@, Json::Object(text_object(pairs)))]
    }
}

/// Appending a member appends its model.
pub proof fn lemma_json_members_push(members: Seq<JsonMember>, m: JsonMember)
    ensures
        json_members(members.push(m)) == json_members(members).push((m.key@, m.value.model())),
{
    assert(members.push(m).subrange(0, members.len() as int) =~= members);
}

/// Appending a value appends its model.
pub proof fn lemma_json_items_push(items: Seq<JsonValue>, v: JsonValue)
    ensures
        json_items(items.push(v)) == json_items(items).push(v.model()),
{
    assert(items.push(v).subrange(0, items.len() as int) =~= items);
}

/// No members model no members.
pub proof fn lemma_json_members_empty(members: Seq<JsonMember>)
    requires
        members.len() == 0,
    ensures
        json_members(members) == Seq::<(Seq<char>, Json)>::empty(),
{
}

/// No values model no values.
pub proof fn lemma_json_items_empty(items: Seq<JsonValue>)
    requires
        items.len() == 0,
    ensures
        json_items(items) == Seq::<Json>::empty(),
{
}

/// Appending a string appends its view.
pub proof fn lemma_strs_push(v: Seq<String>, s: String)
    ensures
        strs(v.push(s)) == strs(v).push(s@),
{
    assert(strs(v.push(s)) =~= strs(v).push(s@));
}

/// A string value holding `s`.
pub fn text(s: &str) -> (r: JsonValue)
    ensures
        r.model() == Json::Text(s@),
{
    JsonValue::Text(s.to_owned())
}

/// An object with no members.
pub fn empty_params() -> (r: JsonValue)
    ensures
        r.model() == Json::Object(Seq::empty()),
{
    let members: Vec<JsonMember> = Vec::new();
    proof {
        lemma_json_members_empty(members@);
    }
    JsonValue::Object(members)
}

/// Appends the member `key: value`.
pub fn push_member(members: &mut Vec<JsonMember>, key: &str, value: JsonValue)
    ensures
        json_members(final(members)@) == json_members(old(members)@).push((key@, value.model())),
{
    let ghost before = members@;
    let m = JsonMember { key: key.to_owned(), value };
    members.push(m);
    proof {
        lemma_json_members_push(before, m);
    }
}

/// Appends the member `key: value` when the value is set.
pub fn insert_opt(members: &mut Vec<JsonMember>, key: &str, value: Option<String>)
    ensures
        json_members(final(members)@) == json_members(old(members)@) + opt_text_member(key@, opt_view(value)),
{
    match value {
        Some(v) => {
            let ghost before = json_members(members@);
            let ghost vv = v@;
            push_member(members, key, JsonValue::Text(v));
            assert(json_members(members@) =~= before + opt_text_member(key@, Some(vv)));
        },
        None => {
            assert(json_members(members@) =~= json_members(members@) + Seq::empty());
        },
    }
}

/// Appends the member `key: value` when the value is set.
pub fn insert_opt_bool(members: &mut Vec<JsonMember>, key: &str, value: Option<bool>)
    ensures
        json_members(final(members)@) == json_members(old(members)@) + opt_bool_member(key@, value),
{
    match value {
        Some(v) => {
            let ghost before = json_members(members@);
            push_member(members, key, JsonValue::Bool(v));
            assert(json_members(members@) =~= before + opt_bool_member(key@, Some(v)));
        },
        None => {
            assert(json_members(members@) =~= json_members(members@) + Seq::empty());
        },
    }
}

/// Appends the member `key: value` when the value is set.
pub fn insert_opt_uint(members: &mut Vec<JsonMember>, key: &str, value: Option<u64>)
    ensures
        json_members(final(members)@) == json_members(old(members)@) + opt_uint_member(key@, value),
{
    match value {
        Some(v) => {
            let ghost before = json_members(members@);
            push_member(members, key, JsonValue::UInt(v));
            assert(json_members(members@) =~= before + opt_uint_member(key@, Some(v)));
        },
        None => {
            assert(json_members(members@) =~= json_members(members@) + Seq::empty());
        },
    }
}

/// Appends the member `key: value` when the value is set, `value` being decimal text.
pub fn insert_opt_decimal(members: &mut Vec<JsonMember>, key: &str, value: Option<String>)
    ensures
        json_members(final(members)@) == json_members(old(members)@) + opt_decimal_member(key@, opt_view(value)),
{
    match value {
        Some(v) => {
            let ghost before = json_members(members@);
            let ghost vv = v@;
            push_member(members, key, JsonValue::Decimal(v));
            assert(json_members(members@) =~= before + opt_decimal_member(key@, Some(vv)));
        },
        None => {
            assert(json_members(members@) =~= json_members(members@) + Seq::empty());
        },
    }
}

/// Appends the member `key: value` when the value is set.
pub fn insert_opt_value(members: &mut Vec<JsonMember>, key: &str, value: Option<JsonValue>)
    ensures
        json_members(final(members)@) == json_members(old(members)@) + opt_value_member(key@, value),
{
    let ghost before = json_members(members@);
    let ghost o = value;
    match value {
        Some(v) => push_member(members, key, v),
        None => {},
    }
    assert(json_members(members@) =~= before + opt_value_member(key@, o));
}

/// The object whose members are the `pairs`, each value a string.
pub fn env_object(pairs: Vec<(String, String)>) -> (r: JsonValue)
    ensures
        r.model() == Json::Object(text_object(pairs@)),
{
    let mut members: Vec<JsonMember> = Vec::new();
    let n = pairs.len();
    let mut i: usize = 0;
    proof {
        lemma_json_members_empty(members@);
    }
    while i < n
        invariant
            n == pairs.len(),
            i <= n,
            json_members(members@) == text_object(pairs@.subrange(0, i as int)),
        decreases n - i,
    {
        let k = pairs[i].0.clone();
        let v = pairs[i].1.clone();
        let ghost before = json_members(members@);
        let ghost pair = pairs@[i as int];
        push_member(&mut members, k.as_str(), JsonValue::Text(v));
        assert(pairs@.subrange(0, i + 1) =~= pairs@.subrange(0, i as int).push(pair));
        assert(text_object(pairs@.subrange(0, i + 1)) =~= text_object(pairs@.subrange(0, i as int)).push((pair.0@, Json::Text(pair.1@))));
        i += 1;
    }
    assert(pairs@.subrange(0, n as int) =~= pairs@);
    JsonValue::Object(members)
}

/// Appends an `env` member holding `pairs` when there is at least one.
pub fn insert_env(members: &mut Vec<JsonMember>, pairs: Vec<(String, String)>)
    ensures
        json_members(final(members)@) == json_members(old(members)@) + env_member(pairs@),
{
    if pairs.len() == 0 {
        assert(json_members(members@) =~= json_members(members@) + env_member(pairs@));
    } else {
        let ghost before = json_members(members@);
        let ghost p = pairs@;
        let env = env_object(pairs);
        push_member(members, "env", env);
        assert(json_members(members@) =~= before + env_member(p));
    }
}

/// The member `key` of an object value, if the value is an object that has one.
pub fn get<'a>(value: &'a JsonValue, key: &str) -> (r: Option<&'a JsonValue>)
    ensures
        match r {
            Some(v) => json_get(value.model(), key@) == Some(v.model()),
            None => json_get(value.model(), key@) is None,
        },
{
    match value {
        JsonValue::Object(members) => {
            let n = members.len();
            let wanted = key.to_owned();
            let mut i: usize = n;
            proof {
                lemma_json_members_len(members@);
                assert(json_members(members@).take(n as int) =~= json_members(members@));
            }
            while i > 0
                invariant
                    n == members.len(),
                    i <= n,
                    wanted@ == key@,
                    value.model() == Json::Object(json_members(members@)),
                    json_members(members@).len() == n,
                    member_lookup(json_members(members@), key@) == member_lookup(
                        json_members(members@).take(i as int),
                        key@,
                    ),
                decreases i,
            {
                proof {
                    lemma_json_members_index(members@, i - 1);
                    let front = json_members(members@).take(i as int);
                    assert(front.drop_last() =~= json_members(members@).take(i - 1));
                    assert(front.last() == json_members(members@)[i - 1]);
                }
                if members[i - 1].key == wanted {
                    return Some(&members[i - 1].value);
                }
                i -= 1;
            }
            None
        },
        _ => None,
    }
}

/// The text of a string value.
pub fn as_str<'a>(value: &'a JsonValue) -> (r: Option<&'a str>)
    ensures
        match r {
            Some(s) => json_str(value.model()) == Some(s@),
            None => json_str(value.model()) is None,
        },
{
    match value {
        JsonValue::Text(s) => Some(s.as_str()),
        _ => None,
    }
}

/// Members and their models are as many.
pub proof fn lemma_json_members_len(members: Seq<JsonMember>)
    ensures
        json_members(members).len() == members.len(),
    decreases members.len(),
{
    if members.len() > 0 {
        lemma_json_members_len(members.subrange(0, members.len() - 1));
    }
}

/// Each member models to its key and value model.
pub proof fn lemma_json_members_index(members: Seq<JsonMember>, i: int)
    requires
        0 <= i < members.len(),
    ensures
        json_members(members).len() == members.len(),
        json_members(members)[i] == (members[i].key@, members[i].value.model()),
    decreases members.len(),
{
    lemma_json_members_len(members);
    if i < members.len() - 1 {
        let front = members.subrange(0, members.len() - 1);
        lemma_json_members_index(front, i);
        assert(front[i] == members[i]);
    }
}

} // verus!
