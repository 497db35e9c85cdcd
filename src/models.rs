//! Request and response envelopes exchanged with the feed server.
use vstd::prelude::*;
use vstd::string::*;
use crate::wire::{
    DecodeError, is_escape_free, quoted, json_string_literal, lemma_escape_free_literal, is_json_text, object_array,
    json_string, check_json, parse_objects,
};

verus! {

/// Length in bytes of the secret that the standard feed expects.
pub const SECRET_LEN: usize = 32;

/// Length in bytes of the secret that the polygon feed expects.
pub const POLYGON_SECRET_LEN: usize = 33;

/// Inbound batches without the awaited acknowledgement that a handshake phase
/// tolerates before it gives up.
pub const IDLE_LIMIT: u64 = 16;

/// The constants that tell one feed's wire contract from another's.
#[derive(Clone, Debug)]
pub struct FeedConfig {
    /// Exact length in bytes of the authentication secret.
    pub secret_len: usize,
    /// Written in front of the comma-joined subscription targets.
    pub topic_prefix: String,
    /// Inbound batches without the awaited acknowledgement tolerated per phase.
    pub idle_limit: u64,
}

impl FeedConfig {
    /// The standard feed: 32-byte secrets, topics under `A.`.
    pub fn standard() -> (r: FeedConfig)
        ensures
            r.secret_len == SECRET_LEN,
            r.topic_prefix@ == "A."@,
            r.idle_limit == IDLE_LIMIT,
    {
        FeedConfig { secret_len: SECRET_LEN, topic_prefix: String::from_str("A."), idle_limit: IDLE_LIMIT }
    }

    /// The polygon feed: 33-byte secrets, topics without a prefix.
    pub fn polygon() -> (r: FeedConfig)
        ensures
            r.secret_len == POLYGON_SECRET_LEN,
            r.topic_prefix@ == Seq::<char>::empty(),
            r.idle_limit == IDLE_LIMIT,
    {
        proof {
            reveal_strlit("");
        }
        FeedConfig { secret_len: POLYGON_SECRET_LEN, topic_prefix: String::from_str(""), idle_limit: IDLE_LIMIT }
    }
}

/// The kind of an outbound control message.
#[derive(Clone, Copy, Debug, PartialEq, Eq, Structural)]
pub enum Action {
    Auth,
    Subscribe,
}

/// Why a request could not be built.
#[derive(Clone, Copy, Debug, PartialEq, Eq, Structural)]
pub enum ConstructionError {
    /// The secret does not have the length that the feed expects.
    InvalidSecretLength,
    /// A subscription needs at least one target.
    EmptyTargetList,
}

/// An outbound control message.
#[derive(Clone, Debug, PartialEq, Eq)]
pub struct Request {
    action: Action,
    params: String,
}

/// What a request holds, as mathematical values.
pub struct RequestView {
    pub action: Action,
    pub params: Seq<char>,
}

impl View for Request {
    type V = RequestView;

    closed spec fn view(&self) -> RequestView {
        RequestView { action: self.action, params: self.params@ }
    }
}

/// The views of a list of strings.
pub open spec fn str_views(ts: Seq<&str>) -> Seq<Seq<char>> {
    ts.map_values(|t: &str| t@)
}

/// The strings of `ts`, in order, with a comma between two neighbours.
pub open spec fn comma_joined(ts: Seq<Seq<char>>) -> Seq<char>
    decreases ts.len(),
{
    if ts.len() == 0 {
        Seq::empty()
    } else if ts.len() == 1 {
        ts[0]
    } else {
        comma_joined(ts.drop_last()) + seq![','] + ts.last()
    }
}

/// The JSON text of a request up to its params value: the keys in the order
/// action, params, and the action's wire name.
pub open spec fn json_head(a: Action) -> Seq<char> {
    match a {
        Action::Auth => "{\"action\":\"auth\",\"params\":"@,
        Action::Subscribe => "{\"action\":\"subscribe\",\"params\":"@,
    }
}

/// The JSON text of a request.
pub open spec fn request_json(r: RequestView) -> Seq<char> {
    json_head(r.action) + json_string_literal(r.params) + "}"@
}

/// The JSON text of a request whose params need no escape sequence.
pub open spec fn plain_request_json(r: RequestView) -> Seq<char> {
    json_head(r.action) + quoted(r.params) + "}"@
}

impl Request {
    /// The request's kind.
    pub fn action(&self) -> (r: Action)
        ensures
            r == self@.action,
    {
        self.action
    }

    /// The request's params: the secret, or the subscription topics.
    pub fn params(&self) -> (r: &str)
        ensures
            r@ == self@.params,
    {
        self.params.as_str()
    }

    /// An authentication request for the standard feed.
    pub fn auth(secret: &str) -> (r: Result<Request, ConstructionError>)
        ensures
            r is Ok <==> secret.len() == SECRET_LEN,
            r matches Ok(req) ==> req@ == (RequestView { action: Action::Auth, params: secret@ }),
            r matches Err(e) ==> e == ConstructionError::InvalidSecretLength,
    {
        let config = FeedConfig::standard();
        Request::auth_for(&config, secret)
    }

    /// An authentication request for the feed that `config` describes: the
    /// secret must have exactly the configured length in bytes.
    pub fn auth_for(config: &FeedConfig, secret: &str) -> (r: Result<Request, ConstructionError>)
        ensures
            r is Ok <==> secret.len() == config.secret_len,
            r matches Ok(req) ==> req@ == (RequestView { action: Action::Auth, params: secret@ }),
            r matches Err(e) ==> e == ConstructionError::InvalidSecretLength,
    {
        if secret.len() != config.secret_len {
            return Err(ConstructionError::InvalidSecretLength);
        }
        Ok(Request { action: Action::Auth, params: secret.to_owned() })
    }

    /// A subscription request for the standard feed.
    pub fn subscribe(targets: Vec<&str>) -> (r: Result<Request, ConstructionError>)
        ensures
            r is Ok <==> targets@.len() > 0,
            r matches Ok(req) ==> req@ == (RequestView {
                action: Action::Subscribe,
                params: "A."@ + comma_joined(str_views(targets@)),
            }),
            r matches Err(e) ==> e == ConstructionError::EmptyTargetList,
    {
        let config = FeedConfig::standard();
        Request::subscribe_for(&config, targets)
    }

    /// A subscription request for the feed that `config` describes: the
    /// configured prefix, then the targets in order, joined by commas.
    pub fn subscribe_for(config: &FeedConfig, targets: Vec<&str>) -> (r: Result<Request, ConstructionError>)
        ensures
            r is Ok <==> targets@.len() > 0,
            r matches Ok(req) ==> req@ == (RequestView {
                action: Action::Subscribe,
                params: config.topic_prefix@ + comma_joined(str_views(targets@)),
            }),
            r matches Err(e) ==> e == ConstructionError::EmptyTargetList,
    {
        if targets.len() == 0 {
            return Err(ConstructionError::EmptyTargetList);
        }
        let mut params = String::from_str(config.topic_prefix.as_str());
        params.append(targets[0]);
        proof {
            assert(str_views(targets@.take(1)) =~= seq![targets@[0]@]);
        }
        let mut i: usize = 1;
        while i < targets.len()
            invariant
                1 <= i <= targets@.len(),
                params@ == config.topic_prefix@ + comma_joined(str_views(targets@.take(i as int))),
            decreases targets@.len() - i,
        {
            proof {
                reveal_strlit(",");
            }
            params.append(",");
            params.append(targets[i]);
            proof {
                let next = str_views(targets@.take(i + 1));
                assert(next.drop_last() =~= str_views(targets@.take(i as int)));
                assert(next.last() == targets@[i as int]@);
            }
            i = i + 1;
        }
        proof {
            assert(targets@.take(i as int) =~= targets@);
        }
        Ok(Request { action: Action::Subscribe, params })
    }

    /// The JSON text of the request: `{"action":...,"params":...}`, keys in that
    /// order, the action as its lowercase wire name, the params as a JSON string.
    pub fn to_json(&self) -> (r: String)
        ensures
            r@ == request_json(self@),
            is_escape_free(self@.params) ==> r@ == plain_request_json(self@),
    {
        let mut out = match self.action {
            Action::Auth => String::from_str("{\"action\":\"auth\",\"params\":"),
            Action::Subscribe => String::from_str("{\"action\":\"subscribe\",\"params\":"),
        };
        let value = json_string(self.params.as_str());
        proof {
            if is_escape_free(self@.params) {
                lemma_escape_free_literal(self@.params);
            }
        }
        out.append(value.as_str());
        out.append("}");
        out
    }
}

/// The status vocabulary of the server's acknowledgements.
#[derive(Clone, Copy, Debug, PartialEq, Eq, Structural)]
pub enum Status {
    Connected,
    AuthFailed,
    AuthSuccess,
    Success,
}

/// The status whose wire name is `s`.
pub open spec fn status_named(s: Seq<char>) -> Option<Status> {
    if s == "connected"@ {
        Some(Status::Connected)
    } else if s == "auth_failed"@ {
        Some(Status::AuthFailed)
    } else if s == "auth_success"@ {
        Some(Status::AuthSuccess)
    } else if s == "success"@ {
        Some(Status::Success)
    } else {
        None
    }
}

/// One field of a decoded object: its key, its value if the value is a string,
/// and the value's JSON text.
pub type Field = (String, Option<String>, String);

/// A field as mathematical values.
pub type FieldView = (Seq<char>, Option<Seq<char>>, Seq<char>);

/// One inbound message: a status acknowledgement or a data event.
#[derive(Clone, Debug, PartialEq, Eq)]
pub struct Response {
    /// The event tag: `status`, or a data-event tag.
    pub ev: String,
    /// Present on status events.
    pub status: Option<Status>,
    /// A human-readable text, where the event has one.
    pub message: Option<String>,
    /// Every field of the event, in ascending key order.
    pub fields: Vec<Field>,
}

/// What a response holds, as mathematical values.
pub struct ResponseView {
    pub ev: Seq<char>,
    pub status: Option<Status>,
    pub message: Option<Seq<char>>,
    pub fields: Seq<FieldView>,
}

impl View for Response {
    type V = ResponseView;

    open spec fn view(&self) -> ResponseView {
        ResponseView {
            ev: self.ev@,
            status: self.status,
            message: match self.message {
                Some(m) => Some(m@),
                None => None,
            },
            fields: self.fields.deep_view(),
        }
    }
}

/// The first field of `obj` named `key`, as its value if that is a string
/// (`Some(None)` for a value of another type); `None` where there is no such
/// field.
pub open spec fn entry(obj: Seq<FieldView>, key: Seq<char>) -> Option<Option<Seq<char>>>
    decreases obj.len(),
{
    if obj.len() == 0 {
        None
    } else if obj[0].0 == key {
        Some(obj[0].1)
    } else {
        entry(obj.drop_first(), key)
    }
}

/// The status that a `status` entry gives: none where the field is absent, the
/// named status for a known wire name; `None` for anything else.
pub open spec fn status_entry(e: Option<Option<Seq<char>>>) -> Option<Option<Status>> {
    match e {
        None => Some(None),
        Some(Some(s)) => match status_named(s) {
            Some(st) => Some(Some(st)),
            None => None,
        },
        Some(None) => None,
    }
}

/// The message that a `message` entry gives: none where the field is absent,
/// the text for a string; `None` for a value of another type.
pub open spec fn message_entry(e: Option<Option<Seq<char>>>) -> Option<Option<Seq<char>>> {
    match e {
        None => Some(None),
        Some(Some(m)) => Some(Some(m)),
        Some(None) => None,
    }
}

/// The response that one decoded object stands for: it has a string field
/// `ev`; a `status` field, if any, holds a known wire name; a `message` field,
/// if any, is a string. Every field is kept.
pub open spec fn response_of(obj: Seq<FieldView>) -> Option<ResponseView> {
    match entry(obj, "ev"@) {
        Some(Some(ev)) => match (status_entry(entry(obj, "status"@)), message_entry(entry(obj, "message"@))) {
            (Some(status), Some(message)) => Some(ResponseView { ev, status, message, fields: obj }),
            _ => None,
        },
        _ => None,
    }
}

/// Every object of `objs` stands for a response.
pub open spec fn all_responses(objs: Seq<Seq<FieldView>>) -> bool {
    forall|i: int| 0 <= i < objs.len() ==> (#[trigger] response_of(objs[i])) is Some
}

/// The responses that the objects of `objs` stand for, in order.
pub open spec fn responses_of(objs: Seq<Seq<FieldView>>) -> Seq<ResponseView> {
    objs.map_values(|o: Seq<FieldView>| response_of(o)->Some_0)
}

/// What decoding the frame `text` gives: its responses in order, or why it
/// holds none.
pub open spec fn decoded_frame(text: Seq<char>) -> Result<Seq<ResponseView>, DecodeError> {
    if !is_json_text(text) {
        Err(DecodeError::MalformedFrame)
    } else {
        match object_array(text) {
            None => Err(DecodeError::UnexpectedShape),
            Some(objs) => if all_responses(objs) {
                Ok(responses_of(objs))
            } else {
                Err(DecodeError::UnexpectedShape)
            },
        }
    }
}

/// The views of a list of responses.
pub open spec fn response_views(rs: Seq<Response>) -> Seq<ResponseView> {
    rs.map_values(|r: Response| r@)
}

/// A response of `rs` has status `st`.
pub open spec fn has_status(rs: Seq<ResponseView>, st: Status) -> bool {
    exists|i: int| 0 <= i < rs.len() && (#[trigger] rs[i]).status == Some(st)
}

/// The first field of `obj` named `key`, searched from the front.
fn find_entry(obj: &Vec<Field>, key: &String) -> (r: Option<Option<String>>)
    ensures
        r matches Some(Some(v)) ==> entry(obj.deep_view(), key@) == Some(Some(v@)),
        r matches Some(None) ==> entry(obj.deep_view(), key@) == Some(None::<Seq<char>>),
        r is None ==> entry(obj.deep_view(), key@) is None,
{
    let ghost all = obj.deep_view();
    let mut j: usize = 0;
    assert(all.subrange(0, all.len() as int) =~= all);
    while j < obj.len()
        invariant
            j <= obj@.len(),
            all == obj.deep_view(),
            entry(all, key@) == entry(all.subrange(j as int, all.len() as int), key@),
        decreases obj@.len() - j,
    {
        let ghost rest = all.subrange(j as int, all.len() as int);
        assert(rest.drop_first() =~= all.subrange(j + 1, all.len() as int));
        assert(rest[0] == all[j as int]);
        if obj[j].0 == *key {
            return match &obj[j].1 {
                Some(v) => Some(Some(v.clone())),
                None => Some(None),
            };
        }
        j = j + 1;
    }
    assert(all.subrange(j as int, all.len() as int).len() == 0);
    None
}

/// A copy of the fields of `obj`.
fn copy_fields(obj: &Vec<Field>) -> (r: Vec<Field>)
    ensures
        r.deep_view() == obj.deep_view(),
{
    let mut out: Vec<Field> = Vec::new();
    let mut j: usize = 0;
    while j < obj.len()
        invariant
            j <= obj@.len(),
            out@.len() == j,
            forall|k: int| 0 <= k < j ==> (#[trigger] out@[k]).deep_view() == obj@[k].deep_view(),
        decreases obj@.len() - j,
    {
        let value = match &obj[j].1 {
            Some(v) => Some(v.clone()),
            None => None,
        };
        let item = (obj[j].0.clone(), value, obj[j].2.clone());
        assert(item.deep_view() == obj@[j as int].deep_view());
        out.push(item);
        j = j + 1;
    }
    assert(out.deep_view() =~= obj.deep_view()) by {
        assert forall|k: int| 0 <= k < obj@.len() implies out.deep_view()[k] == obj.deep_view()[k] by {
            assert(out@[k].deep_view() == obj@[k].deep_view());
        }
    }
    out
}

/// The status whose wire name is `s`, if any.
fn parse_status(s: &String) -> (r: Option<Status>)
    ensures
        r == status_named(s@),
{
    if *s == String::from_str("connected") {
        Some(Status::Connected)
    } else if *s == String::from_str("auth_failed") {
        Some(Status::AuthFailed)
    } else if *s == String::from_str("auth_success") {
        Some(Status::AuthSuccess)
    } else if *s == String::from_str("success") {
        Some(Status::Success)
    } else {
        None
    }
}

impl Response {
    /// The response reports a successful connection.
    pub fn is_connected(&self) -> (r: bool)
        ensures
            r == (self.status == Some(Status::Connected)),
    {
        match self.status {
            Some(st) => st == Status::Connected,
            None => false,
        }
    }

    /// The response reports a successful authentication.
    pub fn is_auth_success(&self) -> (r: bool)
        ensures
            r == (self.status == Some(Status::AuthSuccess)),
    {
        match self.status {
            Some(st) => st == Status::AuthSuccess,
            None => false,
        }
    }

    /// The response reports a successful subscription.
    pub fn is_success(&self) -> (r: bool)
        ensures
            r == (self.status == Some(Status::Success)),
    {
        match self.status {
            Some(st) => st == Status::Success,
            None => false,
        }
    }

    /// The response that one decoded object stands for.
    fn from_object(obj: &Vec<Field>) -> (r: Option<Response>)
        ensures
            r matches Some(resp) ==> response_of(obj.deep_view()) == Some(resp@),
            r is None ==> response_of(obj.deep_view()) is None,
    {
        let ev = match find_entry(obj, &String::from_str("ev")) {
            Some(Some(ev)) => ev,
            _ => return None,
        };
        let status = match find_entry(obj, &String::from_str("status")) {
            None => None,
            Some(Some(st)) => match parse_status(&st) {
                Some(status) => Some(status),
                None => return None,
            },
            Some(None) => return None,
        };
        let message = match find_entry(obj, &String::from_str("message")) {
            None => None,
            Some(Some(m)) => Some(m),
            Some(None) => return None,
        };
        Some(Response { ev, status, message, fields: copy_fields(obj) })
    }

    /// The responses that decoded objects stand for, in order:
    /// `UnexpectedShape` where an object lacks the string field `ev`, has a
    /// status that is no known wire name, or a message that is no string.
    pub fn from_objects(objs: &Vec<Vec<Field>>) -> (r: Result<Vec<Response>, DecodeError>)
        ensures
            r is Ok <==> all_responses(objs.deep_view()),
            r matches Ok(rs) ==> response_views(rs@) == responses_of(objs.deep_view()),
            r matches Err(e) ==> e == DecodeError::UnexpectedShape,
    {
        let ghost all = objs.deep_view();
        let mut out: Vec<Response> = Vec::new();
        let mut i: usize = 0;
        while i < objs.len()
            invariant
                i <= objs@.len(),
                all == objs.deep_view(),
                out@.len() == i,
                forall|k: int| 0 <= k < i ==> response_of(all[k]) == Some(#[trigger] out@[k]@),
            decreases objs@.len() - i,
        {
            proof {
                assert(all[i as int] == objs@[i as int].deep_view());
            }
            match Response::from_object(&objs[i]) {
                Some(resp) => out.push(resp),
                None => {
                    assert(!all_responses(all)) by {
                        assert(response_of(all[i as int]) is None);
                    }
                    return Err(DecodeError::UnexpectedShape);
                },
            }
            i = i + 1;
        }
        assert(all_responses(all)) by {
            assert forall|k: int| 0 <= k < all.len() implies (#[trigger] response_of(all[k])) is Some by {
                assert(response_of(all[k]) == Some(out@[k]@));
            }
        }
        assert(response_views(out@) =~= responses_of(all));
        Ok(out)
    }

    /// Decodes one inbound frame, a JSON array of objects, into its responses
    /// in order. Not JSON: `MalformedFrame`; JSON of another shape, or an object
    /// that does not stand for a response (see `response_of`): `UnexpectedShape`.
    pub fn decode_frame(text: &str) -> (r: Result<Vec<Response>, DecodeError>)
        ensures
            match r {
                Ok(rs) => decoded_frame(text@) == Ok::<Seq<ResponseView>, DecodeError>(response_views(rs@)),
                Err(e) => decoded_frame(text@) == Err::<Seq<ResponseView>, DecodeError>(e),
            },
    {
        if !check_json(text) {
            return Err(DecodeError::MalformedFrame);
        }
        match parse_objects(text) {
            Some(objs) => Response::from_objects(&objs),
            None => Err(DecodeError::UnexpectedShape),
        }
    }
}

/// Single-message outbound streams of the handshake's requests, as the texts
/// to send.
pub struct StreamOne {}

impl StreamOne {
    /// The messages that authenticate with `secret` on the standard feed: one
    /// text, `{"action":"auth","params":...}`.
    pub fn auth(secret: &str) -> (r: Result<Vec<String>, ConstructionError>)
        ensures
            r is Ok <==> secret.len() == SECRET_LEN,
            r matches Ok(msgs) ==> msgs@.len() == 1
                && msgs@[0]@ == request_json(RequestView { action: Action::Auth, params: secret@ }),
            r matches Ok(msgs) ==> is_escape_free(secret@) ==> msgs@[0]@
                == "{\"action\":\"auth\",\"params\":"@ + quoted(secret@) + "}"@,
            r matches Err(e) ==> e == ConstructionError::InvalidSecretLength,
    {
        match Request::auth(secret) {
            Ok(req) => Ok(vec![req.to_json()]),
            Err(e) => Err(e),
        }
    }

    /// The messages that subscribe to `targets` on the standard feed: one text,
    /// `{"action":"subscribe","params":"A.<targets joined by commas>"}`.
    pub fn subscribe(targets: Vec<&str>) -> (r: Result<Vec<String>, ConstructionError>)
        ensures
            r is Ok <==> targets@.len() > 0,
            r matches Ok(msgs) ==> msgs@.len() == 1 && msgs@[0]@ == request_json(RequestView {
                action: Action::Subscribe,
                params: "A."@ + comma_joined(str_views(targets@)),
            }),
            r matches Ok(msgs) ==> is_escape_free("A."@ + comma_joined(str_views(targets@))) ==> msgs@[0]@
                == "{\"action\":\"subscribe\",\"params\":"@ + quoted("A."@ + comma_joined(str_views(targets@)))
                + "}"@,
            r matches Err(e) ==> e == ConstructionError::EmptyTargetList,
    {
        match Request::subscribe(targets) {
            Ok(req) => Ok(vec![req.to_json()]),
            Err(e) => Err(e),
        }
    }
}

} // verus!
