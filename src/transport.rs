//! JSON-RPC 2.0 envelopes: requests, responses, notifications and errors,
//! how each is recognised in a JSON value and how each is written out.
use vstd::prelude::*;
use crate::json::{
    Json, JsonModel, JsonNumber, NumberModel, lookup, members, owned, lemma_lookup_found, lemma_lookup_absent, entries_model, lemma_object_model,
    push_member, push_optional,
};

verus! {

/// Identifier that pairs a response with its request.
pub type RequestId = u64;

/// The `jsonrpc` member of every message; `"2.0"` unless the peer said otherwise.
#[derive(Debug, Clone, PartialEq)]
pub struct JsonRpcVersion(String);

impl View for JsonRpcVersion {
    type V = Seq<char>;

    closed spec fn view(&self) -> Seq<char> {
        self.0@
    }
}

impl JsonRpcVersion {
    pub fn as_str(&self) -> (r: &str)
        ensures
            r@ == self@,
    {
        self.0.as_str()
    }

    pub fn from_string(s: String) -> (r: JsonRpcVersion)
        ensures
            r@ == s@,
    {
        JsonRpcVersion(s)
    }

    pub fn duplicate(&self) -> (r: JsonRpcVersion)
        ensures
            r@ == self@,
    {
        JsonRpcVersion(self.0.clone())
    }
}

impl Default for JsonRpcVersion {
    fn default() -> (r: JsonRpcVersion)
        ensures
            r@ == "2.0"@,
    {
        JsonRpcVersion(owned("2.0"))
    }
}

/// A request that expects a response carrying the same id.
#[derive(Debug, Clone, PartialEq)]
pub struct JsonRpcRequest {
    pub id: RequestId,
    pub method: String,
    pub params: Option<Json>,
    pub jsonrpc: JsonRpcVersion,
}

/// A one-way message.
#[derive(Debug, Clone, PartialEq)]
pub struct JsonRpcNotification {
    pub method: String,
    pub params: Option<Json>,
    pub jsonrpc: JsonRpcVersion,
}

/// The reply to a request.
#[derive(Debug, Clone, PartialEq)]
pub struct JsonRpcResponse {
    pub id: RequestId,
    pub result: Option<Json>,
    pub error: Option<JsonRpcError>,
    pub jsonrpc: JsonRpcVersion,
}

/// The error member of a failed response.
#[derive(Debug, Clone, PartialEq)]
pub struct JsonRpcError {
    pub code: i32,
    pub message: String,
    pub data: Option<Json>,
}

/// Any message of the protocol.
#[derive(Debug, Clone, PartialEq)]
pub enum JsonRpcMessage {
    Response(JsonRpcResponse),
    Request(JsonRpcRequest),
    Notification(JsonRpcNotification),
}

/// Why a JSON value is not a message.
#[derive(Debug, PartialEq, Eq, Structural)]
pub enum EnvelopeError {
    /// The value is not an object.
    NotAnObject,
    /// The object has neither an `id` nor a `method`.
    NoIdOrMethod,
    /// A member that this kind of message does not have.
    UnknownField,
    /// A member with a value of the wrong type.
    InvalidField,
}

pub struct RequestModel {
    pub id: u64,
    pub method: Seq<char>,
    pub params: Option<JsonModel>,
    pub jsonrpc: Seq<char>,
}

pub struct NotificationModel {
    pub method: Seq<char>,
    pub params: Option<JsonModel>,
    pub jsonrpc: Seq<char>,
}

pub struct ErrorModel {
    pub code: i32,
    pub message: Seq<char>,
    pub data: Option<JsonModel>,
}

pub struct ResponseModel {
    pub id: u64,
    pub result: Option<JsonModel>,
    pub error: Option<ErrorModel>,
    pub jsonrpc: Seq<char>,
}

pub enum MessageModel {
    Response(ResponseModel),
    Request(RequestModel),
    Notification(NotificationModel),
}

pub open spec fn opt_model(o: Option<Json>) -> Option<JsonModel> {
    match o {
        Some(j) => Some(j@),
        None => None,
    }
}

impl View for JsonRpcError {
    type V = ErrorModel;

    open spec fn view(&self) -> ErrorModel {
        ErrorModel { code: self.code, message: self.message@, data: opt_model(self.data) }
    }
}

pub open spec fn opt_error_model(o: Option<JsonRpcError>) -> Option<ErrorModel> {
    match o {
        Some(e) => Some(e@),
        None => None,
    }
}

impl View for JsonRpcRequest {
    type V = RequestModel;

    open spec fn view(&self) -> RequestModel {
        RequestModel {
            id: self.id,
            method: self.method@,
            params: opt_model(self.params),
            jsonrpc: self.jsonrpc@,
        }
    }
}

impl View for JsonRpcNotification {
    type V = NotificationModel;

    open spec fn view(&self) -> NotificationModel {
        NotificationModel { method: self.method@, params: opt_model(self.params), jsonrpc: self.jsonrpc@ }
    }
}

impl View for JsonRpcResponse {
    type V = ResponseModel;

    open spec fn view(&self) -> ResponseModel {
        ResponseModel {
            id: self.id,
            result: opt_model(self.result),
            error: opt_error_model(self.error),
            jsonrpc: self.jsonrpc@,
        }
    }
}

impl View for JsonRpcMessage {
    type V = MessageModel;

    open spec fn view(&self) -> MessageModel {
        match self {
            JsonRpcMessage::Response(r) => MessageModel::Response(r@),
            JsonRpcMessage::Request(r) => MessageModel::Request(r@),
            JsonRpcMessage::Notification(n) => MessageModel::Notification(n@),
        }
    }
}

/// The member `key` of `j`, if `j` is an object that has it.
pub open spec fn field(j: JsonModel, key: Seq<char>) -> Option<JsonModel> {
    lookup(members(j), key)
}

/// An optional member: absent and `null` both mean "not given".
pub open spec fn optional_field(j: JsonModel, key: Seq<char>) -> Option<JsonModel> {
    match field(j, key) {
        Some(JsonModel::Null) => None,
        o => o,
    }
}

/// The three kinds of message, told apart by which of `id` and `method` are present.
pub enum EnvelopeKind {
    Request,
    Response,
    Notification,
}

pub open spec fn envelope_kind(j: JsonModel) -> Option<EnvelopeKind> {
    let has_id = field(j, "id"@) is Some;
    let has_method = field(j, "method"@) is Some;
    if has_id && has_method {
        Some(EnvelopeKind::Request)
    } else if has_id {
        Some(EnvelopeKind::Response)
    } else if has_method {
        Some(EnvelopeKind::Notification)
    } else {
        None
    }
}

/// The members that an envelope of each kind may have.
pub open spec fn allowed_key(kind: EnvelopeKind, k: Seq<char>) -> bool {
    match kind {
        EnvelopeKind::Request => k == "id"@ || k == "method"@ || k == "params"@ || k == "jsonrpc"@,
        EnvelopeKind::Response => k == "id"@ || k == "result"@ || k == "error"@ || k == "jsonrpc"@,
        EnvelopeKind::Notification => k == "method"@ || k == "params"@ || k == "jsonrpc"@,
    }
}

pub open spec fn only_allowed_keys(j: JsonModel, kind: EnvelopeKind) -> bool {
    forall|i: int| 0 <= i < members(j).len() ==> allowed_key(kind, #[trigger] members(j)[i].0)
}

/// The id of a request or response: a non-negative integer.
pub open spec fn id_value(v: Option<JsonModel>) -> Option<u64> {
    match v {
        Some(JsonModel::Number(NumberModel::PosInt(n))) => Some(n),
        _ => None,
    }
}

pub open spec fn string_value(v: Option<JsonModel>) -> Option<Seq<char>> {
    match v {
        Some(JsonModel::Str(s)) => Some(s),
        _ => None,
    }
}

/// The `jsonrpc` member, `"2.0"` when absent.
pub open spec fn version_value(v: Option<JsonModel>) -> Option<Seq<char>> {
    match v {
        None => Some("2.0"@),
        Some(JsonModel::Str(s)) => Some(s),
        _ => None,
    }
}

/// An error code: an integer that fits in 32 bits; 0 when absent.
pub open spec fn code_value(v: Option<JsonModel>) -> Option<i32> {
    match v {
        None => Some(0i32),
        Some(JsonModel::Number(NumberModel::PosInt(n))) => if n <= i32::MAX as u64 {
            Some(n as i32)
        } else {
            None
        },
        Some(JsonModel::Number(NumberModel::NegInt(n))) => if i32::MIN as i64 <= n {
            Some(n as i32)
        } else {
            None
        },
        _ => None,
    }
}

/// An error message: a string; empty when absent.
pub open spec fn message_value(v: Option<JsonModel>) -> Option<Seq<char>> {
    match v {
        None => Some(Seq::empty()),
        Some(JsonModel::Str(s)) => Some(s),
        _ => None,
    }
}

/// The error object of a response. Members other than `code`, `message` and
/// `data` are ignored.
pub open spec fn error_value(j: JsonModel) -> Option<ErrorModel> {
    if j is Object && code_value(field(j, "code"@)) is Some && message_value(field(j, "message"@)) is Some {
        Some(
            ErrorModel {
                code: code_value(field(j, "code"@))->0,
                message: message_value(field(j, "message"@))->0,
                data: optional_field(j, "data"@),
            },
        )
    } else {
        None
    }
}

/// The message that a JSON value holds, if it holds one.
pub open spec fn message_value_of(j: JsonModel) -> Option<MessageModel> {
    if !(j is Object) {
        None
    } else {
        match envelope_kind(j) {
            None => None,
            Some(kind) => {
                let version = version_value(field(j, "jsonrpc"@));
                if !only_allowed_keys(j, kind) || version is None {
                    None
                } else {
                    match kind {
                        EnvelopeKind::Request => match (id_value(field(j, "id"@)), string_value(field(j, "method"@))) {
                            (Some(id), Some(method)) => Some(MessageModel::Request(RequestModel {
                                id,
                                method,
                                params: optional_field(j, "params"@),
                                jsonrpc: version->0,
                            })),
                            _ => None,
                        },
                        EnvelopeKind::Notification => match string_value(field(j, "method"@)) {
                            Some(method) => Some(MessageModel::Notification(NotificationModel {
                                method,
                                params: optional_field(j, "params"@),
                                jsonrpc: version->0,
                            })),
                            None => None,
                        },
                        EnvelopeKind::Response => {
                            let err = optional_field(j, "error"@);
                            match id_value(field(j, "id"@)) {
                                Some(id) => if err is Some && error_value(err->0) is None {
                                    None
                                } else {
                                    Some(MessageModel::Response(ResponseModel {
                                        id,
                                        result: optional_field(j, "result"@),
                                        error: match err {
                                            Some(e) => error_value(e),
                                            None => None,
                                        },
                                        jsonrpc: version->0,
                                    }))
                                },
                                None => None,
                            }
                        },
                    }
                }
            },
        }
    }
}

/// Which error `from_json` reports for a value that holds no message.
pub open spec fn envelope_error(j: JsonModel) -> EnvelopeError {
    if !(j is Object) {
        EnvelopeError::NotAnObject
    } else if envelope_kind(j) is None {
        EnvelopeError::NoIdOrMethod
    } else if !only_allowed_keys(j, envelope_kind(j)->0) {
        EnvelopeError::UnknownField
    } else {
        EnvelopeError::InvalidField
    }
}

fn get_field<'a>(j: &'a Json, key: &str) -> (r: Option<&'a Json>)
    ensures
        match r {
            Some(v) => field(j@, key@) == Some(v@),
            None => field(j@, key@) is None,
        },
{
    let k = owned(key);
    j.get(&k)
}

/// An optional member, with `null` read as absent.
pub fn read_optional(j: &Json, key: &str) -> (r: Option<Json>)
    ensures
        opt_model(r) == optional_field(j@, key@),
{
    match get_field(j, key) {
        None => None,
        Some(Json::Null) => None,
        Some(v) => Some(v.duplicate()),
    }
}

/// A string member.
pub fn read_string(j: &Json, key: &str) -> (r: Option<String>)
    ensures
        match r {
            Some(s) => string_value(field(j@, key@)) == Some(s@),
            None => string_value(field(j@, key@)) is None,
        },
{
    match get_field(j, key) {
        Some(Json::String(s)) => Some(s.clone()),
        _ => None,
    }
}

fn read_id(j: &Json) -> (r: Option<u64>)
    ensures
        r == id_value(field(j@, "id"@)),
{
    match get_field(j, "id") {
        Some(Json::Number(JsonNumber::PosInt(n))) => Some(*n),
        _ => None,
    }
}

fn read_version(j: &Json) -> (r: Option<JsonRpcVersion>)
    ensures
        match r {
            Some(v) => version_value(field(j@, "jsonrpc"@)) == Some(v@),
            None => version_value(field(j@, "jsonrpc"@)) is None,
        },
{
    match get_field(j, "jsonrpc") {
        None => Some(JsonRpcVersion::default()),
        Some(Json::String(s)) => Some(JsonRpcVersion::from_string(s.clone())),
        _ => None,
    }
}

fn read_code(j: &Json) -> (r: Option<i32>)
    ensures
        r == code_value(field(j@, "code"@)),
{
    match get_field(j, "code") {
        None => Some(0),
        Some(Json::Number(JsonNumber::PosInt(n))) => if *n <= i32::MAX as u64 {
            Some(*n as i32)
        } else {
            None
        },
        Some(Json::Number(JsonNumber::NegInt(n))) => if i32::MIN as i64 <= *n {
            Some(*n as i32)
        } else {
            None
        },
        _ => None,
    }
}

fn read_message(j: &Json) -> (r: Option<String>)
    ensures
        match r {
            Some(s) => message_value(field(j@, "message"@)) == Some(s@),
            None => message_value(field(j@, "message"@)) is None,
        },
{
    match get_field(j, "message") {
        None => Some(String::new()),
        Some(Json::String(s)) => Some(s.clone()),
        _ => None,
    }
}

impl JsonRpcError {
    /// Reads the error member of a response.
    pub fn from_json(j: &Json) -> (r: Option<JsonRpcError>)
        ensures
            match r {
                Some(e) => error_value(j@) == Some(e@),
                None => error_value(j@) is None,
            },
    {
        match j {
            Json::Object(_) => {},
            _ => return None,
        }
        let code = match read_code(j) {
            Some(c) => c,
            None => return None,
        };
        let message = match read_message(j) {
            Some(m) => m,
            None => return None,
        };
        Some(JsonRpcError { code, message, data: read_optional(j, "data") })
    }
}

fn is_allowed(kind: &EnvelopeKind, k: &String) -> (r: bool)
    ensures
        r == allowed_key(*kind, k@),
{
    let id = owned("id");
    let method = owned("method");
    let params = owned("params");
    let jsonrpc = owned("jsonrpc");
    let result = owned("result");
    let error = owned("error");
    match kind {
        EnvelopeKind::Request => *k == id || *k == method || *k == params || *k == jsonrpc,
        EnvelopeKind::Response => *k == id || *k == result || *k == error || *k == jsonrpc,
        EnvelopeKind::Notification => *k == method || *k == params || *k == jsonrpc,
    }
}

fn keys_allowed(j: &Json, kind: &EnvelopeKind) -> (r: bool)
    ensures
        r == only_allowed_keys(j@, *kind),
{
    match j {
        Json::Object(entries) => {
            let mut i: usize = 0;
            while i < entries.len()
                invariant
                    i <= entries@.len(),
                    members(j@).len() == entries@.len(),
                    forall|k: int| 0 <= k < entries@.len() ==> #[trigger] members(j@)[k].0 == entries@[k].0@,
                    forall|k: int| 0 <= k < i ==> allowed_key(*kind, #[trigger] members(j@)[k].0),
                decreases entries.len() - i,
            {
                if !is_allowed(kind, &entries[i].0) {
                    assert(!allowed_key(*kind, members(j@)[i as int].0));
                    return false;
                }
                i = i + 1;
            }
            true
        },
        _ => true,
    }
}

impl JsonRpcMessage {
    /// Recognises the message that `j` holds: `id` and `method` make a
    /// request, `id` alone a response, `method` alone a notification; a
    /// member that the kind does not have is refused.
    pub fn from_json(j: &Json) -> (r: Result<JsonRpcMessage, EnvelopeError>)
        ensures
            match r {
                Ok(m) => message_value_of(j@) == Some(m@),
                Err(e) => message_value_of(j@) is None && e == envelope_error(j@),
            },
    {
        match j {
            Json::Object(_) => {},
            _ => return Err(EnvelopeError::NotAnObject),
        }
        let has_id = get_field(j, "id").is_some();
        let has_method = get_field(j, "method").is_some();
        let kind = if has_id && has_method {
            EnvelopeKind::Request
        } else if has_id {
            EnvelopeKind::Response
        } else if has_method {
            EnvelopeKind::Notification
        } else {
            return Err(EnvelopeError::NoIdOrMethod);
        };
        assert(envelope_kind(j@) == Some(kind));
        if !keys_allowed(j, &kind) {
            return Err(EnvelopeError::UnknownField);
        }
        let jsonrpc = match read_version(j) {
            Some(v) => v,
            None => return Err(EnvelopeError::InvalidField),
        };
        match kind {
            EnvelopeKind::Request => {
                let id = match read_id(j) {
                    Some(id) => id,
                    None => return Err(EnvelopeError::InvalidField),
                };
                let method = match read_string(j, "method") {
                    Some(m) => m,
                    None => return Err(EnvelopeError::InvalidField),
                };
                Ok(JsonRpcMessage::Request(JsonRpcRequest { id, method, params: read_optional(j, "params"), jsonrpc }))
            },
            EnvelopeKind::Notification => {
                let method = match read_string(j, "method") {
                    Some(m) => m,
                    None => return Err(EnvelopeError::InvalidField),
                };
                Ok(JsonRpcMessage::Notification(JsonRpcNotification { method, params: read_optional(j, "params"), jsonrpc }))
            },
            EnvelopeKind::Response => {
                let id = match read_id(j) {
                    Some(id) => id,
                    None => return Err(EnvelopeError::InvalidField),
                };
                let error = match read_optional(j, "error") {
                    None => None,
                    Some(e) => match JsonRpcError::from_json(&e) {
                        Some(err) => Some(err),
                        None => return Err(EnvelopeError::InvalidField),
                    },
                };
                Ok(JsonRpcMessage::Response(JsonRpcResponse { id, result: read_optional(j, "result"), error, jsonrpc }))
            },
        }
    }
}

/// `entries` followed by `key: v` when `v` is given.
pub open spec fn with_optional(
    entries: Seq<(Seq<char>, JsonModel)>,
    key: Seq<char>,
    v: Option<JsonModel>,
) -> Seq<(Seq<char>, JsonModel)> {
    match v {
        Some(x) => entries.push((key, x)),
        None => entries,
    }
}

/// A 32-bit integer as a JSON number.
pub open spec fn int_json(c: i32) -> JsonModel {
    if c >= 0 {
        JsonModel::Number(NumberModel::PosInt(c as u64))
    } else {
        JsonModel::Number(NumberModel::NegInt(c as i64))
    }
}

pub open spec fn error_json(e: ErrorModel) -> JsonModel {
    JsonModel::Object(
        with_optional(seq![("code"@, int_json(e.code)), ("message"@, JsonModel::Str(e.message))], "data"@, e.data),
    )
}

pub open spec fn request_json(m: RequestModel) -> JsonModel {
    JsonModel::Object(
        with_optional(
            seq![("id"@, JsonModel::Number(NumberModel::PosInt(m.id))), ("method"@, JsonModel::Str(m.method))],
            "params"@,
            m.params,
        ).push(("jsonrpc"@, JsonModel::Str(m.jsonrpc))),
    )
}

pub open spec fn notification_json(m: NotificationModel) -> JsonModel {
    JsonModel::Object(
        with_optional(seq![("method"@, JsonModel::Str(m.method))], "params"@, m.params).push(
            ("jsonrpc"@, JsonModel::Str(m.jsonrpc)),
        ),
    )
}

pub open spec fn response_json(m: ResponseModel) -> JsonModel {
    JsonModel::Object(
        with_optional(
            with_optional(seq![("id"@, JsonModel::Number(NumberModel::PosInt(m.id)))], "result"@, m.result),
            "error"@,
            match m.error {
                Some(e) => Some(error_json(e)),
                None => None,
            },
        ).push(("jsonrpc"@, JsonModel::Str(m.jsonrpc))),
    )
}

pub open spec fn message_json(m: MessageModel) -> JsonModel {
    match m {
        MessageModel::Request(r) => request_json(r),
        MessageModel::Response(r) => response_json(r),
        MessageModel::Notification(n) => notification_json(n),
    }
}

fn int_to_json(c: i32) -> (r: Json)
    ensures
        r@ == int_json(c),
{
    if c >= 0 {
        Json::Number(JsonNumber::PosInt(c as u64))
    } else {
        Json::Number(JsonNumber::NegInt(c as i64))
    }
}

impl JsonRpcError {
    /// The error as written on the wire; `data` is left out when absent.
    pub fn to_json(&self) -> (r: Json)
        ensures
            r@ == error_json(self@),
    {
        let mut out: Vec<(String, Json)> = Vec::new();
        push_member(&mut out, "code", int_to_json(self.code));
        push_member(&mut out, "message", Json::String(self.message.clone()));
        push_optional(&mut out, "data", &self.data);
        proof {
            lemma_object_model(out);
            assert(entries_model(out@) =~= with_optional(
                seq![("code"@, int_json(self.code)), ("message"@, JsonModel::Str(self.message@))],
                "data"@,
                opt_model(self.data),
            ));
        }
        Json::Object(out)
    }

    pub fn duplicate(&self) -> (r: JsonRpcError)
        ensures
            r@ == self@,
    {
        JsonRpcError {
            code: self.code,
            message: self.message.clone(),
            data: match &self.data {
                Some(d) => Some(d.duplicate()),
                None => None,
            },
        }
    }
}

impl JsonRpcRequest {
    /// The request as written on the wire; `params` is left out when absent.
    pub fn to_json(&self) -> (r: Json)
        ensures
            r@ == request_json(self@),
    {
        let mut out: Vec<(String, Json)> = Vec::new();
        push_member(&mut out, "id", Json::Number(JsonNumber::PosInt(self.id)));
        push_member(&mut out, "method", Json::String(self.method.clone()));
        push_optional(&mut out, "params", &self.params);
        push_member(&mut out, "jsonrpc", Json::String(owned(self.jsonrpc.as_str())));
        proof {
            lemma_object_model(out);
            assert(entries_model(out@) =~= request_json(self@)->Object_0);
        }
        Json::Object(out)
    }
}

impl JsonRpcNotification {
    /// The notification as written on the wire; `params` is left out when absent.
    pub fn to_json(&self) -> (r: Json)
        ensures
            r@ == notification_json(self@),
    {
        let mut out: Vec<(String, Json)> = Vec::new();
        push_member(&mut out, "method", Json::String(self.method.clone()));
        push_optional(&mut out, "params", &self.params);
        push_member(&mut out, "jsonrpc", Json::String(owned(self.jsonrpc.as_str())));
        proof {
            lemma_object_model(out);
            assert(entries_model(out@) =~= notification_json(self@)->Object_0);
        }
        Json::Object(out)
    }
}

impl JsonRpcResponse {
    /// The response as written on the wire; `result` and `error` are left out
    /// when absent.
    pub fn to_json(&self) -> (r: Json)
        ensures
            r@ == response_json(self@),
    {
        let mut out: Vec<(String, Json)> = Vec::new();
        push_member(&mut out, "id", Json::Number(JsonNumber::PosInt(self.id)));
        push_optional(&mut out, "result", &self.result);
        let err = match &self.error {
            Some(e) => Some(e.to_json()),
            None => None,
        };
        push_optional(&mut out, "error", &err);
        push_member(&mut out, "jsonrpc", Json::String(owned(self.jsonrpc.as_str())));
        proof {
            lemma_object_model(out);
            assert(entries_model(out@) =~= response_json(self@)->Object_0);
        }
        Json::Object(out)
    }

    pub fn duplicate(&self) -> (r: JsonRpcResponse)
        ensures
            r@ == self@,
    {
        JsonRpcResponse {
            id: self.id,
            result: match &self.result {
                Some(d) => Some(d.duplicate()),
                None => None,
            },
            error: match &self.error {
                Some(e) => Some(e.duplicate()),
                None => None,
            },
            jsonrpc: self.jsonrpc.duplicate(),
        }
    }
}

impl JsonRpcMessage {
    /// The message as written on the wire.
    pub fn to_json(&self) -> (r: Json)
        ensures
            r@ == message_json(self@),
    {
        match self {
            JsonRpcMessage::Request(q) => q.to_json(),
            JsonRpcMessage::Response(p) => p.to_json(),
            JsonRpcMessage::Notification(n) => n.to_json(),
        }
    }
}

/// What one poll of a transport gave.
#[derive(Debug, Clone, Copy, PartialEq, Eq, Structural)]
pub enum PollEvent {
    /// A whole message.
    Message,
    /// The peer closed the channel, or sent a control event with no message.
    Nothing,
    /// Reading or parsing failed.
    Failure,
}

/// The reader loops that drive a dispatcher.
#[derive(Debug, Clone, Copy, PartialEq, Eq, Structural)]
pub enum ReaderKind {
    /// Client side of a child process's pipes.
    ClientStdio,
    /// Server side of standard input and output.
    ServerStdio,
    /// Client side of an SSE stream.
    ClientSse,
}

/// What a reader loop does after a poll.
#[derive(Debug, Clone, Copy, PartialEq, Eq, Structural)]
pub enum ReaderAction {
    /// Hand the message to the dispatcher, then poll again.
    Dispatch,
    /// Leave the loop.
    Stop,
    /// Poll again.
    Continue,
    /// Wait this many seconds, then poll again.
    RetryAfterSecs(u64),
}

/// The reader loops: the pipes end at end of input and on a failure; the
/// server's standard input ends at end of input and skips a bad line; the
/// SSE stream never ends, and waits a second after a failure.
pub fn reader_action(kind: ReaderKind, event: PollEvent) -> (r: ReaderAction)
    ensures
        event == PollEvent::Message ==> r == ReaderAction::Dispatch,
        event == PollEvent::Nothing ==> r == (if kind == ReaderKind::ClientSse {
            ReaderAction::Continue
        } else {
            ReaderAction::Stop
        }),
        event == PollEvent::Failure ==> r == match kind {
            ReaderKind::ClientStdio => ReaderAction::Stop,
            ReaderKind::ServerStdio => ReaderAction::Continue,
            ReaderKind::ClientSse => ReaderAction::RetryAfterSecs(1),
        },
{
    match event {
        PollEvent::Message => ReaderAction::Dispatch,
        PollEvent::Nothing => match kind {
            ReaderKind::ClientSse => ReaderAction::Continue,
            _ => ReaderAction::Stop,
        },
        PollEvent::Failure => match kind {
            ReaderKind::ClientStdio => ReaderAction::Stop,
            ReaderKind::ServerStdio => ReaderAction::Continue,
            ReaderKind::ClientSse => ReaderAction::RetryAfterSecs(1),
        },
    }
}

/// An optional member that is given as `null` reads back as absent; every
/// other message reads back as written.
pub open spec fn not_null(o: Option<JsonModel>) -> bool {
    o != Some(JsonModel::Null)
}

pub open spec fn writable(m: MessageModel) -> bool {
    match m {
        MessageModel::Request(r) => not_null(r.params),
        MessageModel::Notification(n) => not_null(n.params),
        MessageModel::Response(r) => not_null(r.result) && match r.error {
            Some(e) => not_null(e.data),
            None => true,
        },
    }
}

/// A message written by `to_json` reads back, through `from_json`, as the
/// same message.
pub proof fn lemma_message_round_trip(m: MessageModel)
    requires
        writable(m),
    ensures
        message_value_of(message_json(m)) == Some(m),
{
    reveal_strlit("id");
    reveal_strlit("method");
    reveal_strlit("params");
    reveal_strlit("jsonrpc");
    reveal_strlit("result");
    reveal_strlit("error");
    reveal_strlit("code");
    reveal_strlit("message");
    reveal_strlit("data");
    let id_k = "id"@;
    let method_k = "method"@;
    let params_k = "params"@;
    let jsonrpc_k = "jsonrpc"@;
    let result_k = "result"@;
    let error_k = "error"@;
    assert(id_k[0] == 'i' && method_k[0] == 'm' && params_k[0] == 'p' && jsonrpc_k[0] == 'j');
    assert(result_k[0] == 'r' && error_k[0] == 'e');
    assert("code"@[0] == 'c' && "message"@[0] == 'm' && "data"@[0] == 'd');
    assert(id_k != method_k && id_k != params_k && id_k != jsonrpc_k && id_k != result_k && id_k != error_k);
    assert(method_k != params_k && method_k != jsonrpc_k && method_k != result_k && method_k != error_k);
    assert(params_k != jsonrpc_k && params_k != result_k && params_k != error_k);
    assert(jsonrpc_k != result_k && jsonrpc_k != error_k && result_k != error_k);
    assert("code"@ != "message"@ && "code"@ != "data"@ && "message"@ != "data"@);
    match m {
        MessageModel::Request(r) => {
            let es = members(message_json(m));
            let idv = (id_k, JsonModel::Number(NumberModel::PosInt(r.id)));
            let mv = (method_k, JsonModel::Str(r.method));
            let jv = (jsonrpc_k, JsonModel::Str(r.jsonrpc));
            match r.params {
                Some(p) => {
                    assert(es =~= seq![idv, mv, (params_k, p), jv]);
                    lemma_lookup_found(es, params_k, 2);
                },
                None => {
                    assert(es =~= seq![idv, mv, jv]);
                    lemma_lookup_absent(es, params_k);
                },
            }
            lemma_lookup_found(es, id_k, 0);
            lemma_lookup_found(es, method_k, 1);
            lemma_lookup_found(es, jsonrpc_k, es.len() - 1);
        },
        MessageModel::Notification(n) => {
            let es = members(message_json(m));
            let mv = (method_k, JsonModel::Str(n.method));
            let jv = (jsonrpc_k, JsonModel::Str(n.jsonrpc));
            match n.params {
                Some(p) => {
                    assert(es =~= seq![mv, (params_k, p), jv]);
                    lemma_lookup_found(es, params_k, 1);
                },
                None => {
                    assert(es =~= seq![mv, jv]);
                    lemma_lookup_absent(es, params_k);
                },
            }
            lemma_lookup_absent(es, id_k);
            lemma_lookup_found(es, method_k, 0);
            lemma_lookup_found(es, jsonrpc_k, es.len() - 1);
        },
        MessageModel::Response(r) => {
            let es = members(message_json(m));
            let idv = (id_k, JsonModel::Number(NumberModel::PosInt(r.id)));
            let jv = (jsonrpc_k, JsonModel::Str(r.jsonrpc));
            let ej = match r.error {
                Some(e) => Some(error_json(e)),
                None => None,
            };
            match (r.result, ej) {
                (Some(x), Some(y)) => {
                    assert(es =~= seq![idv, (result_k, x), (error_k, y), jv]);
                    lemma_lookup_found(es, result_k, 1);
                    lemma_lookup_found(es, error_k, 2);
                },
                (Some(x), None) => {
                    assert(es =~= seq![idv, (result_k, x), jv]);
                    lemma_lookup_found(es, result_k, 1);
                    lemma_lookup_absent(es, error_k);
                },
                (None, Some(y)) => {
                    assert(es =~= seq![idv, (error_k, y), jv]);
                    lemma_lookup_absent(es, result_k);
                    lemma_lookup_found(es, error_k, 1);
                },
                (None, None) => {
                    assert(es =~= seq![idv, jv]);
                    lemma_lookup_absent(es, result_k);
                    lemma_lookup_absent(es, error_k);
                },
            }
            lemma_lookup_found(es, id_k, 0);
            lemma_lookup_absent(es, method_k);
            lemma_lookup_found(es, jsonrpc_k, es.len() - 1);
            if let Some(e) = r.error {
                let fs = members(error_json(e));
                let cv = ("code"@, int_json(e.code));
                let msg = ("message"@, JsonModel::Str(e.message));
                match e.data {
                    Some(d) => {
                        assert(fs =~= seq![cv, msg, ("data"@, d)]);
                        lemma_lookup_found(fs, "data"@, 2);
                    },
                    None => {
                        assert(fs =~= seq![cv, msg]);
                        lemma_lookup_absent(fs, "data"@);
                    },
                }
                lemma_lookup_found(fs, "code"@, 0);
                lemma_lookup_found(fs, "message"@, 1);
                assert(error_value(error_json(e)) == Some(e));
            }
        },
    }
}

/// How a message is recognised: a request has both `id` and `method`, a
/// response has `id` and no `method`, a notification has `method` and no
/// `id`; a member that its kind does not have makes the value no message.
pub proof fn lemma_envelope_kinds(j: JsonModel)
    ensures
        message_value_of(j) matches Some(MessageModel::Request(_)) ==> field(j, "id"@) is Some && field(j, "method"@) is Some,
        message_value_of(j) matches Some(MessageModel::Response(_)) ==> field(j, "id"@) is Some && field(j, "method"@) is None,
        message_value_of(j) matches Some(MessageModel::Notification(_)) ==> field(j, "id"@) is None && field(j, "method"@) is Some,
        (exists|i: int| 0 <= i < members(j).len() && !(#[trigger] allowed_key(envelope_kind(j)->0, members(j)[i].0)))
            ==> message_value_of(j) is None,
{
}

} // verus!


