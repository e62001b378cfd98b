//! One-shot JSON-RPC calls over HTTP.
//!
//! [`HttpClient::jsonrpc`] builds the request body and returns at once: the
//! consumer keeps an [`HttpConnection`] to poll, and whoever performs the
//! POST keeps a [`PendingRequest`], which hands exactly one outcome to the
//! connection when it is completed.
use vstd::prelude::*;

use crate::error::RecvError;

verus! {

#[verifier::external_type_specification]
#[verifier::external_body]
pub struct ExValue(serde_json::Value);

#[verifier::external_type_specification]
#[verifier::external_body]
#[verifier::reject_recursive_types(K)]
#[verifier::reject_recursive_types(V)]
pub struct ExObject<K, V>(serde_json::Map<K, V>);

/// The member `key` of a JSON value, when it is an object holding that key.
pub uninterp spec fn json_member(v: serde_json::Value, key: Seq<char>) -> Option<serde_json::Value>;

/// The JSON value that the bytes encode, when they are valid JSON.
pub uninterp spec fn json_parse(bytes: Seq<u8>) -> Option<serde_json::Value>;

/// The JSON string holding the given text.
pub uninterp spec fn json_string(s: Seq<char>) -> serde_json::Value;

/// The JSON number holding the given integer.
pub uninterp spec fn json_u64(n: u64) -> serde_json::Value;

/// The JSON object holding exactly the given members.
pub uninterp spec fn json_object(entries: Map<Seq<char>, serde_json::Value>) -> serde_json::Value;

/// The compact JSON text of a value.
pub uninterp spec fn json_text(v: serde_json::Value) -> Seq<char>;

/// The members of a JSON object under construction.
pub uninterp spec fn object_entries(m: serde_json::Map<String, serde_json::Value>) -> Map<
    Seq<char>,
    serde_json::Value,
>;

/// Relies on serde_json::Value::get with a string key: the member of that
/// name, when the value is an object that has it.
#[verifier::external_body]
fn member(v: &serde_json::Value, key: &str) -> (r: Option<serde_json::Value>)
    ensures
        r == json_member(*v, key@),
{
    v.get(key).cloned()
}

/// Relies on serde_json::from_slice into a `Value`: the decoded value, or
/// nothing when the bytes are not JSON.
#[verifier::external_body]
fn parse_json(bytes: &[u8]) -> (r: Option<serde_json::Value>)
    ensures
        r == json_parse(bytes@),
{
    serde_json::from_slice::<serde_json::Value>(bytes).ok()
}

/// Relies on `From<&str> for serde_json::Value`: a JSON string.
#[verifier::external_body]
fn string_value(s: &str) -> (r: serde_json::Value)
    ensures
        r == json_string(s@),
{
    serde_json::Value::from(s)
}

/// Relies on `From<u64> for serde_json::Value`: a JSON number.
#[verifier::external_body]
fn number_value(n: u64) -> (r: serde_json::Value)
    ensures
        r == json_u64(n),
{
    serde_json::Value::from(n)
}

/// Relies on serde_json::Map::new: an object with no members.
#[verifier::external_body]
fn empty_object() -> (r: serde_json::Map<String, serde_json::Value>)
    ensures
        object_entries(r) == no_members(),
{
    serde_json::Map::new()
}

/// Relies on serde_json::Map::insert: the key now maps to the value, and any
/// earlier value under it is replaced.
#[verifier::external_body]
fn put(m: &mut serde_json::Map<String, serde_json::Value>, k: String, v: serde_json::Value)
    ensures
        object_entries(*final(m)) == object_entries(*old(m)).insert(k@, v),
{
    m.insert(k, v);
}

/// Relies on serde_json::Value::Object: the object value with those members.
#[verifier::external_body]
fn object_value(m: serde_json::Map<String, serde_json::Value>) -> (r: serde_json::Value)
    ensures
        r == json_object(object_entries(m)),
{
    serde_json::Value::Object(m)
}

/// Relies on serde_json::to_string: the compact JSON text of the value (a
/// `Value` always serializes).
#[verifier::external_body]
fn encode(v: &serde_json::Value) -> (r: String)
    ensures
        r@ == json_text(*v),
{
    serde_json::to_string(v).unwrap_or_default()
}

/// The members of an empty object.
pub open spec fn no_members() -> Map<Seq<char>, serde_json::Value> {
    Map::empty()
}

/// The fixed members of a request envelope.
pub open spec fn base_entries(method: Seq<char>, gid: u64, params: serde_json::Value) -> Map<
    Seq<char>,
    serde_json::Value,
> {
    Map::empty()
        .insert("jsonrpc"@, json_string("2.0"@))
        .insert("id"@, json_u64(0))
        .insert("gid"@, json_u64(gid))
        .insert("method"@, json_string(method))
        .insert("params"@, params)
}

/// `base` with the pairs of `extra` written over it in order, so that a
/// later pair wins over an earlier one and over `base`.
pub open spec fn merged(
    base: Map<Seq<char>, serde_json::Value>,
    extra: Seq<(String, serde_json::Value)>,
) -> Map<Seq<char>, serde_json::Value>
    decreases extra.len(),
{
    if extra.len() == 0 {
        base
    } else {
        merged(base, extra.drop_last()).insert(extra.last().0@, extra.last().1)
    }
}

/// The members of the request envelope.
pub open spec fn envelope_entries(
    method: Seq<char>,
    gid: u64,
    params: serde_json::Value,
    extra: Seq<(String, serde_json::Value)>,
) -> Map<Seq<char>, serde_json::Value> {
    merged(base_entries(method, gid, params), extra)
}

/// In a merge, the last pair of `extra` with key `k` decides the value of `k`,
/// whatever `base` and the earlier pairs held.
pub proof fn lemma_last_write_wins(
    base: Map<Seq<char>, serde_json::Value>,
    extra: Seq<(String, serde_json::Value)>,
    k: Seq<char>,
    i: int,
)
    requires
        0 <= i < extra.len(),
        extra[i].0@ == k,
        forall|j: int| i < j < extra.len() ==> (#[trigger] extra[j]).0@ != k,
    ensures
        merged(base, extra).contains_key(k),
        merged(base, extra)[k] == extra[i].1,
    decreases extra.len(),
{
    if i < extra.len() - 1 {
        let init = extra.drop_last();
        assert forall|j: int| i < j < init.len() implies (#[trigger] init[j]).0@ != k by {
            assert(init[j] == extra[j]);
        }
        assert(extra.last() == extra[extra.len() - 1]);
        lemma_last_write_wins(base, init, k, i);
    }
}

/// In a merge, a key that no pair of `extra` names keeps what `base` has.
pub proof fn lemma_untouched_key(
    base: Map<Seq<char>, serde_json::Value>,
    extra: Seq<(String, serde_json::Value)>,
    k: Seq<char>,
)
    requires
        forall|j: int| 0 <= j < extra.len() ==> (#[trigger] extra[j]).0@ != k,
    ensures
        merged(base, extra).contains_key(k) == base.contains_key(k),
        merged(base, extra)[k] == base[k],
    decreases extra.len(),
{
    if extra.len() > 0 {
        let init = extra.drop_last();
        assert forall|j: int| 0 <= j < init.len() implies (#[trigger] init[j]).0@ != k by {
            assert(init[j] == extra[j]);
        }
        assert(extra.last() == extra[extra.len() - 1]);
        lemma_untouched_key(base, init, k);
    }
}

/// What the consumer receives, given the members `result` and `error` of a
/// well-formed response: success when `result` is present, otherwise the
/// application error when `error` is present, otherwise a generic error.
pub open spec fn classify(
    result: Option<serde_json::Value>,
    error: Option<serde_json::Value>,
) -> Result<serde_json::Value, serde_json::Value> {
    match result {
        Some(r) => Ok(r),
        None => match error {
            Some(e) => Err(e),
            None => Err(json_string("Invalid response"@)),
        },
    }
}

/// What the consumer receives when the exchange produced a decoded JSON
/// value, or failed with a text: the failure text as a JSON string, or the
/// classification of the response.
pub open spec fn decoded_outcome(decoded: Result<serde_json::Value, Seq<char>>) -> Result<
    serde_json::Value,
    serde_json::Value,
> {
    match decoded {
        Err(msg) => Err(json_string(msg)),
        Ok(v) => classify(json_member(v, "result"@), json_member(v, "error"@)),
    }
}

/// What the consumer receives when the exchange produced a response body,
/// or failed with a text: a body that is not JSON is the failure `Failure`.
pub open spec fn outcome_spec(transport: Result<Seq<u8>, Seq<char>>) -> Result<
    serde_json::Value,
    serde_json::Value,
> {
    match transport {
        Err(msg) => decoded_outcome(Err(msg)),
        Ok(body) => match json_parse(body) {
            None => decoded_outcome(Err("Failure"@)),
            Some(v) => decoded_outcome(Ok(v)),
        },
    }
}

/// Builds the request envelope: version tag, numeric id, correlation id,
/// method and parameters, then each extra pair in order, a later pair
/// replacing an earlier member of the same name.
pub fn envelope(
    method: &str,
    gid: u64,
    params: serde_json::Value,
    extra: Vec<(String, serde_json::Value)>,
) -> (r: serde_json::Value)
    ensures
        r == json_object(envelope_entries(method@, gid, params, extra@)),
{
    let ghost pairs = extra@;
    let mut obj = empty_object();
    put(&mut obj, "jsonrpc".to_string(), string_value("2.0"));
    put(&mut obj, "id".to_string(), number_value(0));
    put(&mut obj, "gid".to_string(), number_value(gid));
    put(&mut obj, "method".to_string(), string_value(method));
    put(&mut obj, "params".to_string(), params);
    proof {
        reveal_strlit("jsonrpc");
        reveal_strlit("id");
        reveal_strlit("gid");
        reveal_strlit("method");
        reveal_strlit("params");
        assert(object_entries(obj) =~= base_entries(method@, gid, params));
    }
    let mut rest = extra;
    let ghost mut done: int = 0;
    while rest.len() > 0
        invariant
            0 <= done <= pairs.len(),
            rest@ =~= pairs.skip(done),
            object_entries(obj) == merged(base_entries(method@, gid, params), pairs.take(done)),
        decreases rest@.len(),
    {
        let (k, v) = rest.remove(0);
        proof {
            assert(pairs.take(done + 1).drop_last() =~= pairs.take(done));
            assert(pairs.take(done + 1).last() == pairs[done]);
        }
        put(&mut obj, k, v);
        proof {
            done = done + 1;
        }
    }
    proof {
        assert(pairs.take(done) =~= pairs);
    }
    object_value(obj)
}

/// Chooses the outcome from the members `result` and `error` of a response.
pub fn classify_members(
    result: Option<serde_json::Value>,
    error: Option<serde_json::Value>,
) -> (r: Result<serde_json::Value, serde_json::Value>)
    ensures
        r == classify(result, error),
{
    match result {
        Some(v) => Ok(v),
        None => match error {
            Some(e) => Err(e),
            None => Err(string_value("Invalid response")),
        },
    }
}

/// Classifies a decoded response by its members `result` and `error`.
pub fn classify_response(v: &serde_json::Value) -> (r: Result<serde_json::Value, serde_json::Value>)
    ensures
        r == classify(json_member(*v, "result"@), json_member(*v, "error"@)),
{
    classify_members(member(v, "result"), member(v, "error"))
}

/// Turns a decoded response, or the text of a failure, into the single
/// value delivered to the consumer.
pub fn settle_decoded(decoded: Result<serde_json::Value, String>) -> (r: Result<
    serde_json::Value,
    serde_json::Value,
>)
    ensures
        r == decoded_outcome(
            match decoded {
                Ok(v) => Ok(v),
                Err(s) => Err(s@),
            },
        ),
{
    match decoded {
        Err(msg) => Err(string_value(msg.as_str())),
        Ok(v) => classify_response(&v),
    }
}

/// Turns a response body, or the text of a failure, into the single value
/// delivered to the consumer.
pub fn settle_response(transport: Result<Vec<u8>, String>) -> (r: Result<
    serde_json::Value,
    serde_json::Value,
>)
    ensures
        r == outcome_spec(
            match transport {
                Ok(b) => Ok(b@),
                Err(s) => Err(s@),
            },
        ),
{
    let decoded = match transport {
        Err(msg) => Err(msg),
        Ok(body) => match parse_json(body.as_slice()) {
            None => Err("Failure".to_string()),
            Some(v) => Ok(v),
        },
    };
    proof {
        reveal_strlit("Failure");
    }
    settle_decoded(decoded)
}

/// The handle for issuing one-shot JSON-RPC calls.
pub struct HttpClient;

/// The consumer's side of one call: the method name and the receiving end of
/// the queue into which exactly one outcome is delivered.
pub struct HttpConnection {
    pub method: String,
    rx: async_channel::Receiver<Result<serde_json::Value, serde_json::Value>>,
}

/// The performer's side of one call: where to POST, the body, and the
/// sending end of the reply queue. Completing it consumes it, so the
/// consumer gets at most one outcome, and then the queue closes.
pub struct PendingRequest {
    url: String,
    body: String,
    reply: async_channel::Sender<Result<serde_json::Value, serde_json::Value>>,
}

impl HttpClient {
    /// Starts a call: builds the envelope, returns the consumer's handle and
    /// the request to perform. Nothing here waits.
    pub fn jsonrpc(
        &self,
        url: &str,
        method: &str,
        gid: u64,
        params: serde_json::Value,
        extra: Vec<(String, serde_json::Value)>,
    ) -> (r: (HttpConnection, PendingRequest))
        ensures
            r.0.method_view() == method@,
            r.1.url_view() == url@,
            r.1.body_view() == json_text(json_object(envelope_entries(method@, gid, params, extra@))),
    {
        let (reply, rx) = async_channel::unbounded::<Result<serde_json::Value, serde_json::Value>>();
        let body = encode(&envelope(method, gid, params, extra));
        (
            HttpConnection { method: method.to_string(), rx },
            PendingRequest { url: url.to_string(), body, reply },
        )
    }
}

impl PendingRequest {
    pub closed spec fn url_view(&self) -> Seq<char> {
        self.url@
    }

    pub closed spec fn body_view(&self) -> Seq<char> {
        self.body@
    }

    /// Where to POST.
    pub fn url(&self) -> (r: &str)
        ensures
            r@ == self.url_view(),
    {
        self.url.as_str()
    }

    /// The JSON text to POST.
    pub fn body(&self) -> (r: &str)
        ensures
            r@ == self.body_view(),
    {
        self.body.as_str()
    }

    /// Delivers the call's one outcome and lets go of the reply queue, which
    /// then reads as closed once the outcome is taken. When the consumer is
    /// gone and the queue refuses the outcome, it comes back unchanged.
    pub fn complete(self, outcome: Result<serde_json::Value, serde_json::Value>) -> (r: Option<
        Result<serde_json::Value, serde_json::Value>,
    >)
        ensures
            r matches Some(v) ==> v == outcome,
    {
        match self.reply.try_send(outcome) {
            Ok(()) => None,
            Err(async_channel::TrySendError::Full(v)) => Some(v),
            Err(async_channel::TrySendError::Closed(v)) => Some(v),
        }
    }
}

impl HttpConnection {
    pub closed spec fn method_view(&self) -> Seq<char> {
        self.method@
    }

    /// Takes the call's outcome without waiting: `Err(Empty)` while it is
    /// still pending, `Err(Closed)` once it has been taken (or the call was
    /// abandoned without one).
    pub fn recv(&self) -> (r: Result<Result<serde_json::Value, serde_json::Value>, RecvError>) {
        crate::connection::settle_recv(self.rx.try_recv())
    }
}

} // verus!
