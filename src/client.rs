//! The client side of a session: the handshake, the requests it sends and
//! the substitution of configured secure values into tool arguments.
use vstd::prelude::*;
use crate::json::{Json, JsonModel, lookup, find_key, lemma_lookup_found, lemma_lookup_absent, owned};
use crate::registry::Registry;
use crate::transport::{JsonRpcError, JsonRpcResponse, opt_model};
use crate::types::{
    CallToolRequest, ClientCapabilities, Implementation, InitializeRequest, InitializeResponse, ListRequest,
    ProtocolVersion, LATEST_PROTOCOL_VERSION, version_text,
};

verus! {

/// Where a secure value comes from.
#[derive(Debug, Clone, PartialEq)]
pub enum SecureValue {
    /// A fixed string.
    Static(String),
    /// The process environment variable of this name.
    Env(String),
}

pub enum SecureModel {
    Static(Seq<char>),
    Env(Seq<char>),
}

impl View for SecureValue {
    type V = SecureModel;

    open spec fn view(&self) -> SecureModel {
        match self {
            SecureValue::Static(s) => SecureModel::Static(s@),
            SecureValue::Env(s) => SecureModel::Env(s@),
        }
    }
}

/// The configured secure values, keyed by argument name.
pub open spec fn secure_table(v: Seq<(String, SecureValue)>) -> Seq<(Seq<char>, SecureModel)> {
    Seq::new(v.len(), |i: int| (v[i].0@, v[i].1@))
}

/// Environment variables, as (name, value) pairs.
pub open spec fn env_table(v: Seq<(String, String)>) -> Seq<(Seq<char>, Seq<char>)> {
    Seq::new(v.len(), |i: int| (v[i].0@, v[i].1@))
}

/// The string that replaces `original` under the secure value `sv`: a static
/// string, or the variable's value, or `original` when the variable is unset.
pub open spec fn replacement(
    sv: SecureModel,
    env: Seq<(Seq<char>, Seq<char>)>,
    original: Seq<char>,
) -> Seq<char> {
    match sv {
        SecureModel::Static(s) => s,
        SecureModel::Env(name) => match lookup(env, name) {
            Some(v) => v,
            None => original,
        },
    }
}

/// Secure substitution over a whole value: every string member whose key is
/// configured is replaced; everything else is walked recursively.
pub open spec fn substituted(
    j: JsonModel,
    cfg: Seq<(Seq<char>, SecureModel)>,
    env: Seq<(Seq<char>, Seq<char>)>,
) -> JsonModel
    decreases j,
{
    match j {
        JsonModel::Object(es) => JsonModel::Object(
            Seq::new(
                es.len(),
                |i: int|
                    if 0 <= i < es.len() {
                        (
                            es[i].0,
                            if es[i].1 is Str && lookup(cfg, es[i].0) is Some {
                                JsonModel::Str(replacement(lookup(cfg, es[i].0)->0, env, es[i].1->Str_0))
                            } else {
                                substituted(es[i].1, cfg, env)
                            },
                        )
                    } else {
                        (Seq::empty(), JsonModel::Null)
                    },
            ),
        ),
        JsonModel::Array(xs) => JsonModel::Array(
            Seq::new(
                xs.len(),
                |i: int|
                    if 0 <= i < xs.len() {
                        substituted(xs[i], cfg, env)
                    } else {
                        JsonModel::Null
                    },
            ),
        ),
        _ => j,
    }
}

/// Applying secure substitution twice with the same configuration and
/// environment gives the same value as applying it once.
pub proof fn lemma_substitution_idempotent(
    j: JsonModel,
    cfg: Seq<(Seq<char>, SecureModel)>,
    env: Seq<(Seq<char>, Seq<char>)>,
)
    ensures
        substituted(substituted(j, cfg, env), cfg, env) == substituted(j, cfg, env),
    decreases j,
{
    let once = substituted(j, cfg, env);
    match j {
        JsonModel::Object(es) => {
            let es1 = once->Object_0;
            let es2 = substituted(once, cfg, env)->Object_0;
            assert forall|i: int| 0 <= i < es.len() implies #[trigger] es2[i] == es1[i] by {
                let v = es[i].1;
                if v is Str && lookup(cfg, es[i].0) is Some {
                } else {
                    assert(decreases_to!(j => j->Object_0));
                    assert(decreases_to!(j->Object_0 => j->Object_0[i]));
                    assert(decreases_to!(j->Object_0[i] => j->Object_0[i].1));
                    lemma_substitution_idempotent(v, cfg, env);
                }
            }
            assert(es2 =~= es1);
        },
        JsonModel::Array(xs) => {
            let xs1 = once->Array_0;
            let xs2 = substituted(once, cfg, env)->Array_0;
            assert forall|i: int| 0 <= i < xs.len() implies #[trigger] xs2[i] == xs1[i] by {
                assert(decreases_to!(j => j->Array_0));
                assert(decreases_to!(j->Array_0 => j->Array_0[i]));
                lemma_substitution_idempotent(xs[i], cfg, env);
            }
            assert(xs2 =~= xs1);
        },
        _ => {},
    }
}

fn find_secure<'a>(secure_values: &'a Vec<(String, SecureValue)>, key: &String) -> (r: Option<&'a SecureValue>)
    ensures
        match r {
            Some(sv) => lookup(secure_table(secure_values@), key@) == Some(sv@),
            None => lookup(secure_table(secure_values@), key@) is None,
        },
{
    let ghost tbl = secure_table(secure_values@);
    match find_key(secure_values, key) {
        Some(i) => {
            proof {
                assert forall|k: int| 0 <= k < i implies #[trigger] tbl[k].0 != key@ by {
                    assert(secure_values@[k].0@ != key@);
                }
                lemma_lookup_found(tbl, key@, i as int);
            }
            Some(&secure_values[i].1)
        },
        None => {
            proof {
                assert forall|k: int| 0 <= k < tbl.len() implies #[trigger] tbl[k].0 != key@ by {
                    assert(secure_values@[k].0@ != key@);
                }
                lemma_lookup_absent(tbl, key@);
            }
            None
        },
    }
}

fn find_env<'a>(env: &'a Vec<(String, String)>, name: &String) -> (r: Option<&'a String>)
    ensures
        match r {
            Some(v) => lookup(env_table(env@), name@) == Some(v@),
            None => lookup(env_table(env@), name@) is None,
        },
{
    let ghost tbl = env_table(env@);
    match find_key(env, name) {
        Some(i) => {
            proof {
                assert forall|k: int| 0 <= k < i implies #[trigger] tbl[k].0 != name@ by {
                    assert(env@[k].0@ != name@);
                }
                lemma_lookup_found(tbl, name@, i as int);
            }
            Some(&env[i].1)
        },
        None => {
            proof {
                assert forall|k: int| 0 <= k < tbl.len() implies #[trigger] tbl[k].0 != name@ by {
                    assert(env@[k].0@ != name@);
                }
                lemma_lookup_absent(tbl, name@);
            }
            None
        },
    }
}

fn resolve(sv: &SecureValue, env: &Vec<(String, String)>, original: &String) -> (r: String)
    ensures
        r@ == replacement(sv@, env_table(env@), original@),
{
    match sv {
        SecureValue::Static(s) => s.clone(),
        SecureValue::Env(name) => match find_env(env, name) {
            Some(v) => v.clone(),
            None => original.clone(),
        },
    }
}

/// Walks `value` and replaces every string member whose key has a configured
/// secure value. `env` holds the environment variables as read at the time
/// of the call.
#[verifier::loop_isolation(false)]
pub fn apply_secure_replacements(
    value: &Json,
    secure_values: &Vec<(String, SecureValue)>,
    env: &Vec<(String, String)>,
) -> (r: Json)
    ensures
        r@ == substituted(value@, secure_table(secure_values@), env_table(env@)),
    decreases value,
{
    let ghost cfg = secure_table(secure_values@);
    let ghost envt = env_table(env@);
    match value {
        Json::Object(entries) => {
            let mut out: Vec<(String, Json)> = Vec::new();
            let mut i: usize = 0;
            while i < entries.len()
                invariant
                    i <= entries@.len(),
                    out@.len() == i,
                    forall|k: int| 0 <= k < i ==> #[trigger] out@[k].0@ == entries@[k].0@
                        && out@[k].1@ == substituted(value@, cfg, envt)->Object_0[k].1,
                decreases entries.len() - i,
            {
                let key = &entries[i].0;
                let v = &entries[i].1;
                let ghost vm = value@->Object_0[i as int].1;
                assert(vm == v@);
                let nv = match v {
                    Json::String(orig) => match find_secure(secure_values, key) {
                        Some(sv) => Json::String(resolve(sv, env, orig)),
                        None => {
                            proof {
                                assert(decreases_to!(*value => value->Object_0));
                                assert(decreases_to!(value->Object_0 => value->Object_0[i as int]));
                                assert(decreases_to!(value->Object_0[i as int] => value->Object_0[i as int].1));
                            }
                            apply_secure_replacements(v, secure_values, env)
                        },
                    },
                    _ => {
                        proof {
                            assert(decreases_to!(*value => value->Object_0));
                            assert(decreases_to!(value->Object_0 => value->Object_0[i as int]));
                            assert(decreases_to!(value->Object_0[i as int] => value->Object_0[i as int].1));
                        }
                        apply_secure_replacements(v, secure_values, env)
                    },
                };
                out.push((key.clone(), nv));
                i = i + 1;
            }
            let r = Json::Object(out);
            assert(r@->Object_0 =~= substituted(value@, cfg, envt)->Object_0);
            r
        },
        Json::Array(items) => {
            let mut out: Vec<Json> = Vec::new();
            let mut i: usize = 0;
            while i < items.len()
                invariant
                    i <= items@.len(),
                    out@.len() == i,
                    forall|k: int| 0 <= k < i ==> #[trigger] out@[k]@ == substituted(value@, cfg, envt)->Array_0[k],
                decreases items.len() - i,
            {
                proof {
                    assert(decreases_to!(*value => value->Array_0));
                    assert(decreases_to!(value->Array_0 => value->Array_0[i as int]));
                }
                let nv = apply_secure_replacements(&items[i], secure_values, env);
                out.push(nv);
                i = i + 1;
            }
            let r = Json::Array(out);
            assert(r@->Array_0 =~= substituted(value@, cfg, envt)->Array_0) by {
                assert forall|k: int| 0 <= k < out@.len() implies #[trigger] r@->Array_0[k]
                    == substituted(value@, cfg, envt)->Array_0[k] by {
                    assert(out@[k]@ == substituted(value@, cfg, envt)->Array_0[k]);
                }
            }
            r
        },
        _ => value.duplicate(),
    }
}

impl SecureValue {
    pub fn duplicate(&self) -> (r: SecureValue)
        ensures
            r == *self,
    {
        match self {
            SecureValue::Static(s) => SecureValue::Static(s.clone()),
            SecureValue::Env(s) => SecureValue::Env(s.clone()),
        }
    }
}

/// Why a client operation did not succeed.
#[derive(Debug, Clone, PartialEq)]
pub enum ClientError {
    /// Strict mode and `initialize` has not completed.
    NotInitialized,
    /// The server answered `initialize` with another protocol version.
    UnsupportedProtocolVersion(String),
    /// The response carried no result; the server's error, if it sent one.
    RequestFailed(Option<JsonRpcError>),
}

/// Builder of a client over the transport `T`.
pub struct ClientBuilder<T> {
    pub transport: T,
    pub strict: bool,
    pub env: Option<Registry<SecureValue>>,
    pub protocol_version: ProtocolVersion,
    pub client_info: Implementation,
    pub capabilities: ClientCapabilities,
}

/// A client session over the transport `T`.
pub struct Client<T> {
    pub transport: T,
    pub strict: bool,
    pub protocol_version: ProtocolVersion,
    /// The server's answer to `initialize`, once the handshake is done.
    pub initialize_res: Option<InitializeResponse>,
    pub env: Option<Registry<SecureValue>>,
    pub client_info: Implementation,
    pub capabilities: ClientCapabilities,
}

impl<T> ClientBuilder<T> {
    /// A builder for the latest protocol version, not strict, with no
    /// capability and no secure value.
    pub fn new(transport: T) -> (r: ClientBuilder<T>)
        ensures
            r.transport == transport,
            !r.strict,
            r.env is None,
            r.protocol_version == LATEST_PROTOCOL_VERSION,
            r.client_info.name@ == "mcp-client"@,
            r.client_info.version@ == "0.1.0"@,
            r.capabilities == ClientCapabilities::empty_spec(),
    {
        ClientBuilder {
            transport,
            strict: false,
            env: None,
            protocol_version: LATEST_PROTOCOL_VERSION,
            client_info: Implementation { name: owned("mcp-client"), version: owned("0.1.0") },
            capabilities: ClientCapabilities::empty(),
        }
    }

    pub fn set_protocol_version(self, protocol_version: ProtocolVersion) -> (r: ClientBuilder<T>)
        ensures
            r == (ClientBuilder { protocol_version, ..self }),
    {
        ClientBuilder { protocol_version, ..self }
    }

    pub fn set_client_info(self, name: String, version: String) -> (r: ClientBuilder<T>)
        ensures
            r == (ClientBuilder { client_info: Implementation { name, version }, ..self }),
    {
        ClientBuilder { client_info: Implementation { name, version }, ..self }
    }

    pub fn set_capabilities(self, capabilities: ClientCapabilities) -> (r: ClientBuilder<T>)
        ensures
            r == (ClientBuilder { capabilities, ..self }),
    {
        ClientBuilder { capabilities, ..self }
    }

    /// Adds (or replaces) the secure value for the argument `key`.
    pub fn with_secure_value(self, key: String, value: SecureValue) -> (r: ClientBuilder<T>)
        requires
            self.env matches Some(e) ==> e.wf(),
        ensures
            r.env matches Some(e) && e.wf() && e.value_of(key@) == Some(value),
            forall|k: Seq<char>| k != key@ ==> (r.env->0.value_of(k) == match self.env {
                Some(e) => e.value_of(k),
                None => None,
            }),
            r.transport == self.transport,
            r.strict == self.strict,
            r.protocol_version == self.protocol_version,
            r.client_info == self.client_info,
            r.capabilities == self.capabilities,
    {
        let mut b = self;
        let mut env = match b.env {
            Some(e) => e,
            None => Registry::new(),
        };
        env.insert(key, value);
        ClientBuilder { env: Some(env), ..b }
    }

    /// Requires `initialize` before every other operation.
    pub fn use_strict(self) -> (r: ClientBuilder<T>)
        ensures
            r == (ClientBuilder { strict: true, ..self }),
    {
        ClientBuilder { strict: true, ..self }
    }

    pub fn with_strict(self, strict: bool) -> (r: ClientBuilder<T>)
        ensures
            r == (ClientBuilder { strict, ..self }),
    {
        ClientBuilder { strict, ..self }
    }

    /// The client, not yet initialized.
    pub fn build(self) -> (r: Client<T>)
        ensures
            r.transport == self.transport,
            r.strict == self.strict,
            r.protocol_version == self.protocol_version,
            r.initialize_res is None,
            r.env == self.env,
            r.client_info == self.client_info,
            r.capabilities == self.capabilities,
    {
        Client {
            transport: self.transport,
            strict: self.strict,
            protocol_version: self.protocol_version,
            initialize_res: None,
            env: self.env,
            client_info: self.client_info,
            capabilities: self.capabilities,
        }
    }
}

/// The environment variables that the secure values of `tbl` read, in order.
pub open spec fn env_names(tbl: Seq<(Seq<char>, SecureModel)>) -> Seq<Seq<char>>
    decreases tbl.len(),
{
    if tbl.len() == 0 {
        Seq::empty()
    } else {
        let rest = env_names(tbl.drop_last());
        match tbl.last().1 {
            SecureModel::Env(name) => rest.push(name),
            SecureModel::Static(_) => rest,
        }
    }
}

pub open spec fn names_model(v: Seq<String>) -> Seq<Seq<char>> {
    Seq::new(v.len(), |i: int| v[i]@)
}

/// The secure values of a client, as a table.
pub open spec fn client_secure_table(env: Option<Registry<SecureValue>>) -> Seq<(Seq<char>, SecureModel)> {
    match env {
        Some(e) => secure_table(e.pairs()),
        None => Seq::empty(),
    }
}

/// The arguments a tool call sends: the caller's value after secure
/// substitution, read as the members of an object (none if it is not one).
pub open spec fn call_arguments(
    arguments: Option<JsonModel>,
    env: Option<Registry<SecureValue>>,
    vars: Seq<(Seq<char>, Seq<char>)>,
) -> Option<Seq<(Seq<char>, JsonModel)>> {
    match arguments {
        None => None,
        Some(a) => {
            let s = match env {
                Some(_) => substituted(a, client_secure_table(env), vars),
                None => a,
            };
            match s {
                JsonModel::Object(es) => Some(es),
                _ => Some(Seq::empty()),
            }
        },
    }
}

pub open spec fn opt_entries_model(o: Option<Vec<(String, Json)>>) -> Option<Seq<(Seq<char>, JsonModel)>> {
    match o {
        Some(v) => Some(crate::json::entries_model(v@)),
        None => None,
    }
}

impl<T> Client<T> {
    /// A builder of a client over `transport`.
    pub fn builder(transport: T) -> (r: ClientBuilder<T>)
        ensures
            r.transport == transport,
            !r.strict,
            r.env is None,
            r.protocol_version == LATEST_PROTOCOL_VERSION,
            r.client_info.name@ == "mcp-client"@,
            r.client_info.version@ == "0.1.0"@,
            r.capabilities == ClientCapabilities::empty_spec(),
    {
        ClientBuilder::new(transport)
    }

    pub fn set_protocol_version(self, protocol_version: ProtocolVersion) -> (r: Client<T>)
        ensures
            r == (Client { protocol_version, ..self }),
    {
        Client { protocol_version, ..self }
    }

    /// `Ok` once `initialize` has completed.
    pub fn assert_initialized(&self) -> (r: Result<(), ClientError>)
        ensures
            r is Ok <==> self.initialize_res is Some,
            r matches Err(e) ==> e == ClientError::NotInitialized,
    {
        match &self.initialize_res {
            Some(_) => Ok(()),
            None => Err(ClientError::NotInitialized),
        }
    }

    /// The check made before every operation but `initialize`: in strict
    /// mode the handshake must have completed.
    pub fn check_ready(&self) -> (r: Result<(), ClientError>)
        ensures
            r is Ok <==> (!self.strict || self.initialize_res is Some),
            r matches Err(e) ==> e == ClientError::NotInitialized,
    {
        if self.strict {
            self.assert_initialized()
        } else {
            Ok(())
        }
    }

    /// The parameters of the `initialize` request.
    pub fn initialize_request(&self) -> (r: InitializeRequest)
        ensures
            r.protocol_version@ == version_text(self.protocol_version),
            r.client_info == self.client_info,
            r.capabilities.roots == self.capabilities.roots,
            opt_model(r.capabilities.experimental) == opt_model(self.capabilities.experimental),
            opt_model(r.capabilities.sampling) == opt_model(self.capabilities.sampling),
    {
        InitializeRequest {
            protocol_version: owned(self.protocol_version.as_str()),
            capabilities: ClientCapabilities {
                experimental: match &self.capabilities.experimental {
                    Some(j) => Some(j.duplicate()),
                    None => None,
                },
                sampling: match &self.capabilities.sampling {
                    Some(j) => Some(j.duplicate()),
                    None => None,
                },
                roots: match &self.capabilities.roots {
                    Some(r) => Some(crate::types::RootCapabilities { list_changed: r.list_changed }),
                    None => None,
                },
            },
            client_info: Implementation { name: self.client_info.name.clone(), version: self.client_info.version.clone() },
        }
    }

    /// Completes the handshake with the server's answer: accepted, and
    /// kept, only when it names the configured protocol version.
    pub fn complete_initialize(&mut self, response: InitializeResponse) -> (r: Result<(), ClientError>)
        ensures
            r is Ok <==> response.protocol_version@ == version_text(old(self).protocol_version),
            r is Ok ==> final(self).initialize_res == Some(response),
            r matches Err(e) ==> e == ClientError::UnsupportedProtocolVersion(response.protocol_version)
                && final(self).initialize_res == old(self).initialize_res,
            final(self).strict == old(self).strict,
            final(self).protocol_version == old(self).protocol_version,
            final(self).transport == old(self).transport,
            final(self).env == old(self).env,
    {
        let expected = owned(self.protocol_version.as_str());
        if response.protocol_version != expected {
            return Err(ClientError::UnsupportedProtocolVersion(response.protocol_version));
        }
        self.initialize_res = Some(response);
        Ok(())
    }

    /// The names of the environment variables that secure substitution
    /// reads, in the order of the secure values.
    pub fn secure_env_names(&self) -> (r: Vec<String>)
        ensures
            names_model(r@) == env_names(client_secure_table(self.env)),
    {
        let mut out: Vec<String> = Vec::new();
        match &self.env {
            None => {
                assert(names_model(out@) =~= Seq::<Seq<char>>::empty());
            },
            Some(e) => {
                let v = e.as_vec();
                let ghost tbl = client_secure_table(self.env);
                let mut i: usize = 0;
                assert(tbl.subrange(0, 0) =~= Seq::<(Seq<char>, SecureModel)>::empty());
                assert(names_model(out@) =~= Seq::<Seq<char>>::empty());
                while i < v.len()
                    invariant
                        i <= v@.len(),
                        v@ == e.pairs(),
                        tbl == secure_table(e.pairs()),
                        names_model(out@) == env_names(tbl.subrange(0, i as int)),
                    decreases v@.len() - i,
                {
                    let ghost before = out@;
                    assert(tbl.subrange(0, i + 1).drop_last() =~= tbl.subrange(0, i as int));
                    match &v[i].1 {
                        SecureValue::Env(name) => {
                            out.push(name.clone());
                            assert(names_model(out@) =~= names_model(before).push(name@));
                        },
                        SecureValue::Static(_) => {},
                    }
                    i = i + 1;
                }
                assert(tbl.subrange(0, v@.len() as int) =~= tbl);
            },
        }
        out
    }

    /// The parameters of `tools/call`. `vars` holds the environment
    /// variables as read now; secure substitution applies when the client
    /// has secure values.
    pub fn call_tool_request(&self, name: &String, arguments: Option<Json>, vars: &Vec<(String, String)>) -> (r: CallToolRequest)
        ensures
            r.name == *name,
            opt_entries_model(r.arguments) == call_arguments(opt_model(arguments), self.env, env_table(vars@)),
            r.meta is None,
    {
        let args = match arguments {
            None => None,
            Some(a) => {
                let s = match &self.env {
                    Some(e) => apply_secure_replacements(&a, e.as_vec(), vars),
                    None => a,
                };
                match s {
                    Json::Object(es) => {
                        proof { crate::json::lemma_object_model(es); }
                        Some(es)
                    },
                    _ => {
                        let empty: Vec<(String, Json)> = Vec::new();
                        assert(crate::json::entries_model(empty@) =~= Seq::empty());
                        Some(empty)
                    },
                }
            },
        };
        CallToolRequest { name: name.clone(), arguments: args, meta: None }
    }

    /// The parameters of a listing request.
    pub fn list_request(cursor: Option<String>) -> (r: ListRequest)
        ensures
            r.cursor == cursor,
            r.meta is None,
    {
        ListRequest { cursor, meta: None }
    }
}

/// The result of a response, or the error it carried instead.
pub fn response_result(response: JsonRpcResponse) -> (r: Result<Json, ClientError>)
    ensures
        match response.result {
            Some(v) => r matches Ok(x) && x@ == v@,
            None => r == Err::<Json, ClientError>(ClientError::RequestFailed(response.error)),
        },
{
    match response.result {
        Some(v) => Ok(v),
        None => Err(ClientError::RequestFailed(response.error)),
    }
}

} // verus!

