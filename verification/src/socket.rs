//! Requests sent to Herdr over its socket, and the replies to them.

use vstd::prelude::*;
use crate::json::{Json, JsonValue, JsonMember, json_members, json_items, json_get, json_str, member_lookup, lemma_json_members_empty, lemma_json_items_empty, lemma_json_items_push, push_member, text, get, as_str};
use crate::error::{HerdrCommandError, RuntimeError};
use crate::events::{EventKind, kind_dot_name, kind_key};

verus! {

/// A request for the Herdr socket: its id, the method it calls, and the parameters.
pub struct SocketRequest {
    pub id: String,
    pub method: String,
    pub params: JsonValue,
}

/// The JSON object that carries a request.
pub open spec fn request_json(id: Seq<char>, method: Seq<char>, params: Json) -> Json {
    Json::Object(seq![("id"@, Json::Text(id)), ("method"@, Json::Text(method)), ("params"@, params)])
}

/// A request whose parameters are the object made of `members`.
pub open spec fn is_request(r: SocketRequest, id: Seq<char>, method: Seq<char>, members: Seq<(Seq<char>, Json)>) -> bool {
    &&& r.id@ == id
    &&& r.method@ == method
    &&& r.params.model() == Json::Object(members)
}

impl SocketRequest {
    /// The request with id `id` that calls `method` with `params`.
    pub fn new(id: &str, method: &str, params: JsonValue) -> (r: Self)
        ensures
            r.id@ == id@,
            r.method@ == method@,
            r.params == params,
    {
        SocketRequest { id: id.to_owned(), method: method.to_owned(), params }
    }

    /// The request with id `id` that calls `method` with the object made of `members`.
    pub fn with_members(id: &str, method: &str, members: Vec<JsonMember>) -> (r: Self)
        ensures
            is_request(r, id@, method@, json_members(members@)),
    {
        SocketRequest::new(id, method, JsonValue::Object(members))
    }

    /// The JSON object that carries this request.
    pub fn into_json(self) -> (v: JsonValue)
        ensures
            v.model() == request_json(self.id@, self.method@, self.params.model()),
    {
        let ghost id = self.id@;
        let ghost method = self.method@;
        let ghost params = self.params.model();
        let mut members: Vec<JsonMember> = Vec::new();
        proof {
            lemma_json_members_empty(members@);
        }
        push_member(&mut members, "id", JsonValue::Text(self.id));
        push_member(&mut members, "method", JsonValue::Text(self.method));
        push_member(&mut members, "params", self.params);
        assert(json_members(members@) =~= seq![("id"@, Json::Text(id)), ("method"@, Json::Text(method)), ("params"@, params)]);
        JsonValue::Object(members)
    }
}

/// One member of a new object.
pub fn members1(key: &str, value: JsonValue) -> (m: Vec<JsonMember>)
    ensures
        json_members(m@) == seq![(key@, value.model())],
{
    let mut m: Vec<JsonMember> = Vec::new();
    proof {
        lemma_json_members_empty(m@);
    }
    push_member(&mut m, key, value);
    assert(json_members(m@) =~= seq![(key@, value.model())]);
    m
}

/// Two members of a new object.
pub fn members2(key1: &str, value1: JsonValue, key2: &str, value2: JsonValue) -> (m: Vec<JsonMember>)
    ensures
        json_members(m@) == seq![(key1@, value1.model()), (key2@, value2.model())],
{
    let mut m = members1(key1, value1);
    push_member(&mut m, key2, value2);
    assert(json_members(m@) =~= seq![(key1@, value1.model()), (key2@, value2.model())]);
    m
}

/// A request whose parameters are `{ key: text }`.
pub fn request1(id: &str, method: &str, key: &str, value: &str) -> (r: SocketRequest)
    ensures
        is_request(r, id@, method@, seq![(key@, Json::Text(value@))]),
{
    SocketRequest::with_members(id, method, members1(key, text(value)))
}

/// A request whose parameters are `{ key1: text1, key2: text2 }`.
pub fn request2(id: &str, method: &str, key1: &str, value1: &str, key2: &str, value2: &str) -> (r: SocketRequest)
    ensures
        is_request(r, id@, method@, seq![(key1@, Json::Text(value1@)), (key2@, Json::Text(value2@))]),
{
    SocketRequest::with_members(id, method, members2(key1, text(value1), key2, text(value2)))
}

/// A request with no parameters.
pub fn request0(id: &str, method: &str) -> (r: SocketRequest)
    ensures
        is_request(r, id@, method@, Seq::empty()),
{
    let m: Vec<JsonMember> = Vec::new();
    proof {
        lemma_json_members_empty(m@);
    }
    SocketRequest::with_members(id, method, m)
}

/// A text value, or `null` when absent, as `json!` writes an `Option<&str>`.
pub open spec fn text_or_null(value: Option<Seq<char>>) -> Json {
    match value {
        Some(v) => Json::Text(v),
        None => Json::Null,
    }
}

/// A text value, or `null` when absent.
pub fn opt_text(value: Option<&str>) -> (v: JsonValue)
    ensures
        v.model() == text_or_null(match value {
            Some(s) => Some(s@),
            None => None,
        }),
{
    match value {
        Some(s) => text(s),
        None => JsonValue::Null,
    }
}

/// An integer value, or `null` when absent.
pub open spec fn uint_or_null(value: Option<u64>) -> Json {
    match value {
        Some(v) => Json::UInt(v),
        None => Json::Null,
    }
}

/// An integer value, or `null` when absent.
pub fn opt_uint(value: Option<u64>) -> (v: JsonValue)
    ensures
        v.model() == uint_or_null(value),
{
    match value {
        Some(n) => JsonValue::UInt(n),
        None => JsonValue::Null,
    }
}

/// An array of text values.
pub open spec fn text_array(items: Seq<String>) -> Json {
    Json::Array(items.map_values(|s: String| Json::Text(s@)))
}

/// An array of text values.
pub fn texts(items: Vec<String>) -> (v: JsonValue)
    ensures
        v.model() == text_array(items@),
{
    let mut out: Vec<JsonValue> = Vec::new();
    let n = items.len();
    let mut i: usize = 0;
    proof {
        lemma_json_items_empty(out@);
    }
    while i < n
        invariant
            n == items.len(),
            i <= n,
            json_items(out@) == items@.subrange(0, i as int).map_values(|s: String| Json::Text(s@)),
        decreases n - i,
    {
        let ghost before = out@;
        let item = JsonValue::Text(items[i].clone());
        proof {
            lemma_json_items_push(before, item);
        }
        out.push(item);
        assert(items@.subrange(0, i + 1).map_values(|s: String| Json::Text(s@)) =~= items@.subrange(
            0,
            i as int,
        ).map_values(|s: String| Json::Text(s@)).push(Json::Text(items@[i as int]@)));
        i += 1;
    }
    assert(items@.subrange(0, n as int) =~= items@);
    JsonValue::Array(out)
}

/// An array of boolean values.
pub open spec fn bool_array(items: Seq<bool>) -> Json {
    Json::Array(items.map_values(|b: bool| Json::Bool(b)))
}

/// An array of boolean values.
pub fn bools(items: Vec<bool>) -> (v: JsonValue)
    ensures
        v.model() == bool_array(items@),
{
    let mut out: Vec<JsonValue> = Vec::new();
    let n = items.len();
    let mut i: usize = 0;
    proof {
        lemma_json_items_empty(out@);
    }
    while i < n
        invariant
            n == items.len(),
            i <= n,
            json_items(out@) == items@.subrange(0, i as int).map_values(|b: bool| Json::Bool(b)),
        decreases n - i,
    {
        let ghost before = out@;
        let item = JsonValue::Bool(items[i]);
        proof {
            lemma_json_items_push(before, item);
        }
        out.push(item);
        assert(items@.subrange(0, i + 1).map_values(|b: bool| Json::Bool(b)) =~= items@.subrange(
            0,
            i as int,
        ).map_values(|b: bool| Json::Bool(b)).push(Json::Bool(items@[i as int])));
        i += 1;
    }
    assert(items@.subrange(0, n as int) =~= items@);
    JsonValue::Array(out)
}

/// The socket event subscriptions a runtime can ask for.
#[derive(Clone, Copy, Debug, Eq, PartialEq, Structural)]
pub enum SocketSubscription {
    Event(EventKind),
}

/// The JSON form of a subscription: `{ "type": <dotted event name> }`.
pub open spec fn subscription_json(s: SocketSubscription) -> Json {
    match s {
        SocketSubscription::Event(kind) => Json::Object(seq![("type"@, Json::Text(kind_dot_name(kind)))]),
    }
}

impl SocketSubscription {
    /// The JSON form of this subscription.
    pub fn to_json(&self) -> (v: JsonValue)
        ensures
            v.model() == subscription_json(*self),
    {
        match self {
            SocketSubscription::Event(kind) => JsonValue::Object(members1("type", text(kind.dot_name()))),
        }
    }
}

/// The kinds a socket runtime subscribes to unless told otherwise: every
/// kind but `PaneOutputChanged` and `PaneAgentStatusChanged`.
pub open spec fn default_subscription_kinds() -> Seq<EventKind> {
    seq![
        EventKind::WorkspaceCreated,
        EventKind::WorkspaceUpdated,
        EventKind::WorkspaceClosed,
        EventKind::WorkspaceRenamed,
        EventKind::WorkspaceMoved,
        EventKind::WorkspaceFocused,
        EventKind::TabCreated,
        EventKind::TabClosed,
        EventKind::TabRenamed,
        EventKind::TabMoved,
        EventKind::TabFocused,
        EventKind::PaneCreated,
        EventKind::PaneClosed,
        EventKind::PaneFocused,
        EventKind::PaneMoved,
        EventKind::PaneExited,
        EventKind::PaneAgentDetected,
    ]
}

/// The default subscriptions name every event kind except
/// `PaneOutputChanged` and `PaneAgentStatusChanged`, each kind once.
pub proof fn lemma_default_subscriptions_cover_kinds(k: EventKind)
    ensures
        subscriptions_for(default_subscription_kinds()).contains(SocketSubscription::Event(k)) <==> (k
            != EventKind::PaneOutputChanged && k != EventKind::PaneAgentStatusChanged),
        subscriptions_for(default_subscription_kinds()).no_duplicates(),
{
    let d = default_subscription_kinds();
    let subs = subscriptions_for(d);
    assert(subs.len() == 17);
    assert forall|i: int| 0 <= i < 17 implies #[trigger] subs[i] == SocketSubscription::Event(d[i]) by {}
    assert forall|i: int, j: int| 0 <= i < 17 && 0 <= j < 17 && i != j implies #[trigger] d[i] != #[trigger] d[j] by {
        assert(kind_key(d[i]) != kind_key(d[j]));
    }
    assert forall|i: int, j: int| 0 <= i < subs.len() && 0 <= j < subs.len() && i != j implies subs[i] != subs[j] by {
        assert(d[i] != d[j]);
    }
    if k != EventKind::PaneOutputChanged && k != EventKind::PaneAgentStatusChanged {
        let i: int = if kind_key(k) < 15 { kind_key(k) as int } else { kind_key(k) - 1 };
        assert(d[i] == k);
        assert(subs[i] == SocketSubscription::Event(k));
    } else {
        assert forall|i: int| 0 <= i < subs.len() implies subs[i] != SocketSubscription::Event(k) by {
            assert(subs[i] == SocketSubscription::Event(d[i]));
        }
    }
}

/// The subscriptions for a sequence of kinds.
pub open spec fn subscriptions_for(kinds: Seq<EventKind>) -> Seq<SocketSubscription> {
    kinds.map_values(|k: EventKind| SocketSubscription::Event(k))
}

/// The subscriptions for `kinds`, in order.
pub fn subscriptions(kinds: Vec<EventKind>) -> (s: Vec<SocketSubscription>)
    ensures
        s@ == subscriptions_for(kinds@),
{
    let mut s: Vec<SocketSubscription> = Vec::new();
    let n = kinds.len();
    let mut i: usize = 0;
    while i < n
        invariant
            n == kinds.len(),
            i <= n,
            s@ == subscriptions_for(kinds@.subrange(0, i as int)),
        decreases n - i,
    {
        s.push(SocketSubscription::Event(kinds[i]));
        assert(subscriptions_for(kinds@.subrange(0, i + 1)) =~= subscriptions_for(
            kinds@.subrange(0, i as int),
        ).push(SocketSubscription::Event(kinds@[i as int])));
        i += 1;
    }
    assert(kinds@.subrange(0, n as int) =~= kinds@);
    s
}

/// The subscriptions a socket runtime starts with.
pub fn default_socket_subscriptions() -> (s: Vec<SocketSubscription>)
    ensures
        s@ == subscriptions_for(default_subscription_kinds()),
        forall|k: EventKind|
            #![trigger s@.contains(SocketSubscription::Event(k))]
            s@.contains(SocketSubscription::Event(k)) <==> (k != EventKind::PaneOutputChanged && k
                != EventKind::PaneAgentStatusChanged),
        s@.no_duplicates(),
{
    proof {
        assert forall|k: EventKind|
            #![trigger subscriptions_for(default_subscription_kinds()).contains(SocketSubscription::Event(k))]
            subscriptions_for(default_subscription_kinds()).contains(SocketSubscription::Event(k)) <==> (k
                != EventKind::PaneOutputChanged && k != EventKind::PaneAgentStatusChanged) by {
            lemma_default_subscriptions_cover_kinds(k);
        }
        lemma_default_subscriptions_cover_kinds(EventKind::TabClosed);
    }
    let kinds = vec![
        EventKind::WorkspaceCreated,
        EventKind::WorkspaceUpdated,
        EventKind::WorkspaceClosed,
        EventKind::WorkspaceRenamed,
        EventKind::WorkspaceMoved,
        EventKind::WorkspaceFocused,
        EventKind::TabCreated,
        EventKind::TabClosed,
        EventKind::TabRenamed,
        EventKind::TabMoved,
        EventKind::TabFocused,
        EventKind::PaneCreated,
        EventKind::PaneClosed,
        EventKind::PaneFocused,
        EventKind::PaneMoved,
        EventKind::PaneExited,
        EventKind::PaneAgentDetected,
    ];
    assert(kinds@ =~= default_subscription_kinds());
    subscriptions(kinds)
}

/// The array of the JSON forms of `subs`.
pub open spec fn subscriptions_json(subs: Seq<SocketSubscription>) -> Json {
    Json::Array(subs.map_values(|s: SocketSubscription| subscription_json(s)))
}

/// The request that starts the event subscription.
pub open spec fn subscribe_request_json(subs: Seq<SocketSubscription>) -> Json {
    request_json(
        "herdr-plugin:events"@,
        "events.subscribe"@,
        Json::Object(seq![("subscriptions"@, subscriptions_json(subs))]),
    )
}

/// The subscription request calls `events.subscribe`, and its parameters
/// list under `subscriptions`, in order, one `{ "type": <dotted name> }`
/// object per subscription.
pub proof fn lemma_subscribe_request_lists_kinds(subs: Seq<SocketSubscription>, i: int)
    requires
        0 <= i < subs.len(),
    ensures
        json_get(subscribe_request_json(subs), "method"@) == Some(Json::Text("events.subscribe"@)),
        json_get(subscribe_request_json(subs), "params"@) matches Some(params) && (json_get(
            params,
            "subscriptions"@,
        ) matches Some(Json::Array(items)) && items.len() == subs.len() && items[i] == Json::Object(
            seq![("type"@, Json::Text(kind_dot_name(subs[i]->Event_0)))],
        )),
{
    reveal_strlit("params");
    reveal_strlit("method");
    reveal_strlit("subscriptions");
    let params = Json::Object(seq![("subscriptions"@, subscriptions_json(subs))]);
    let m = seq![("id"@, Json::Text("herdr-plugin:events"@)), ("method"@, Json::Text("events.subscribe"@)), ("params"@, params)];
    assert("params"@[0] != "method"@[0]);
    assert(m.last().0 == "params"@);
    assert(m.last().0 != "method"@);
    let first = seq![("id"@, Json::Text("herdr-plugin:events"@)), ("method"@, Json::Text("events.subscribe"@))];
    assert(m.drop_last() =~= first);
    assert(first.last().0 == "method"@);
    assert(member_lookup(first, "method"@) == Some(Json::Text("events.subscribe"@)));
    assert(member_lookup(m, "method"@) == member_lookup(m.drop_last(), "method"@));
    assert(json_get(subscribe_request_json(subs), "params"@) == Some(params));
    assert(json_get(subscribe_request_json(subs), "method"@) == Some(Json::Text("events.subscribe"@)));
    let p = seq![("subscriptions"@, subscriptions_json(subs))];
    assert(p.last().0 == "subscriptions"@);
}

/// The request that starts the event subscription for `subs`.
pub fn socket_subscribe_request(subs: &Vec<SocketSubscription>) -> (v: JsonValue)
    ensures
        v.model() == subscribe_request_json(subs@),
{
    let mut items: Vec<JsonValue> = Vec::new();
    let n = subs.len();
    let mut i: usize = 0;
    proof {
        lemma_json_items_empty(items@);
    }
    while i < n
        invariant
            n == subs.len(),
            i <= n,
            json_items(items@) == subs@.subrange(0, i as int).map_values(
                |s: SocketSubscription| subscription_json(s),
            ),
        decreases n - i,
    {
        let ghost before = items@;
        let item = subs[i].to_json();
        proof {
            lemma_json_items_push(before, item);
        }
        items.push(item);
        assert(subs@.subrange(0, i + 1).map_values(|s: SocketSubscription| subscription_json(s))
            =~= subs@.subrange(0, i as int).map_values(
            |s: SocketSubscription| subscription_json(s),
        ).push(subscription_json(subs@[i as int])));
        i += 1;
    }
    assert(subs@.subrange(0, n as int) =~= subs@);
    let params = JsonValue::Object(members1("subscriptions", JsonValue::Array(items)));
    SocketRequest::new("herdr-plugin:events", "events.subscribe", params).into_json()
}

/// A parsed line of JSON: the value, and its compact text.
pub struct ParsedJson {
    pub value: JsonValue,
    pub compact: String,
}

/// What the subscription acknowledgement says.
pub open spec fn ack_outcome_ok(value: Json) -> bool {
    match json_get(value, "result"@) {
        Some(result) => match json_get(result, "type"@) {
            Some(t) => json_str(t) == Some("subscription_started"@),
            None => false,
        },
        None => false,
    }
}

/// The error message an acknowledgement carries, if any.
pub open spec fn ack_error_message(value: Json) -> Option<Seq<char>> {
    match json_get(value, "error"@) {
        Some(error) => match json_get(error, "message"@) {
            Some(m) => json_str(m),
            None => None,
        },
        None => None,
    }
}

/// A reply starts the subscription whenever its last `result` member holds,
/// as its last `type` member, the text `subscription_started`, whatever comes
/// before them; a reply that holds only an `error` does not, and its error is
/// the text of that error's last `message` member.
pub proof fn lemma_ack_outcomes(
    before: Seq<(Seq<char>, Json)>,
    result: Seq<(Seq<char>, Json)>,
    error: Seq<(Seq<char>, Json)>,
    message: Seq<char>,
)
    ensures
        ack_outcome_ok(
            Json::Object(
                before + seq![("result"@, Json::Object(result + seq![("type"@, Json::Text("subscription_started"@))]))],
            ),
        ),
        !ack_outcome_ok(Json::Object(seq![("error"@, Json::Object(error + seq![("message"@, Json::Text(message))]))])),
        ack_error_message(Json::Object(seq![("error"@, Json::Object(error + seq![("message"@, Json::Text(message))]))]))
            == Some(message),
{
    reveal_strlit("error");
    reveal_strlit("result");
    let r = before + seq![("result"@, Json::Object(result + seq![("type"@, Json::Text("subscription_started"@))]))];
    assert(r.last().0 == "result"@);
    let t = result + seq![("type"@, Json::Text("subscription_started"@))];
    assert(t.last().0 == "type"@);
    let e = seq![("error"@, Json::Object(error + seq![("message"@, Json::Text(message))]))];
    assert("error"@.len() != "result"@.len());
    assert(e.last().0 != "result"@);
    assert(e.drop_last() =~= Seq::<(Seq<char>, Json)>::empty());
    assert(member_lookup(e.drop_last(), "result"@) == None::<Json>);
    assert(json_get(Json::Object(e), "result"@) == None::<Json>);
    let m = error + seq![("message"@, Json::Text(message))];
    assert(m.last().0 == "message"@);
}

/// Whether the socket's reply to the subscription request starts the
/// subscription: it parses, and its `result.type` is `subscription_started`.
pub open spec fn ack_accepted(ack: Option<(String, Result<ParsedJson, String>)>) -> bool {
    match ack {
        Some((_, Ok(parsed))) => ack_outcome_ok(parsed.value.model()),
        _ => false,
    }
}

/// `e` is the error for a reply that does not start the subscription.
pub open spec fn ack_rejection(ack: Option<(String, Result<ParsedJson, String>)>, e: RuntimeError) -> bool {
    match ack {
        None => e matches RuntimeError::SocketSubscription { message }
            && message@ == "socket closed before subscription ack"@,
        Some((line, Err(detail))) => e == RuntimeError::InvalidSocketJson { json: line, detail },
        Some((_, Ok(parsed))) => e matches RuntimeError::SocketSubscription { message }
            && message@ == match ack_error_message(parsed.value.model()) {
            Some(m) => m,
            None => "unexpected subscription ack: "@ + parsed.compact@,
        },
    }
}

/// Checks the socket's reply to the subscription request. `ack` is the
/// reply line, if the socket sent one, and what it parses to (a value with
/// its compact text, or the parser's message).
///
/// The subscription stands when `result.type` is `subscription_started`.
/// Otherwise the reply's `error.message` is the error; failing that, the
/// reply itself is reported as unexpected. A line that does not parse is an
/// `InvalidSocketJson` error; no line at all means the socket closed.
pub fn validate_subscription_ack(ack: Option<(String, Result<ParsedJson, String>)>) -> (r: Result<(), RuntimeError>)
    ensures
        ack_accepted(ack) ==> r is Ok,
        !ack_accepted(ack) ==> (r matches Err(e) && ack_rejection(ack, e)),
{
    let (line, parsed) = match ack {
        None => {
            return Err(RuntimeError::SocketSubscription {
                message: "socket closed before subscription ack".to_owned(),
            });
        },
        Some(pair) => pair,
    };
    let parsed = match parsed {
        Err(detail) => {
            return Err(RuntimeError::InvalidSocketJson { json: line, detail });
        },
        Ok(p) => p,
    };
    let value = &parsed.value;
    let started = match get(value, "result") {
        Some(result) => match get(result, "type") {
            Some(t) => match as_str(t) {
                Some(s) => s.to_owned() == "subscription_started".to_owned(),
                None => false,
            },
            None => false,
        },
        None => false,
    };
    if started {
        return Ok(());
    }
    let message = match get(value, "error") {
        Some(error) => match get(error, "message") {
            Some(m) => as_str(m),
            None => None,
        },
        None => None,
    };
    match message {
        Some(m) => Err(RuntimeError::SocketSubscription { message: m.to_owned() }),
        None => {
            let mut message = "unexpected subscription ack: ".to_owned();
            vstd::string::StringExecFns::append(&mut message, parsed.compact.as_str());
            Err(RuntimeError::SocketSubscription { message })
        },
    }
}

} // verus!
