//! Configuration of a pi session and the JSON-RPC messages exchanged with it.
use vstd::prelude::*;
use vstd::string::*;
use crate::ids::AgentId;
use crate::agent::{opt_text, texts, AgentStatus};

verus! {

/// How a pi session is started: the model provider and its settings.
#[derive(Debug)]
pub struct PiConfig {
    pub provider: String,
    pub model: Option<String>,
    pub api_key: Option<String>,
    pub session_file: Option<String>,
}

impl Default for PiConfig {
    fn default() -> (r: Self)
        ensures
            r.provider@ == "anthropic"@,
            r.model is None,
            r.api_key is None,
            r.session_file is None,
    {
        PiConfig {
            provider: String::from_str("anthropic"),
            model: None,
            api_key: None,
            session_file: None,
        }
    }
}

/// The environment variable that carries the API key of a provider, if the
/// provider is one that pi reads a key for.
pub open spec fn api_key_variable(provider: Seq<char>) -> Option<Seq<char>> {
    if provider == "anthropic"@ {
        Some("ANTHROPIC_API_KEY"@)
    } else if provider == "openai"@ {
        Some("OPENAI_API_KEY"@)
    } else if provider == "google"@ {
        Some("GOOGLE_API_KEY"@)
    } else {
        None
    }
}

/// The environment variables that a pi process is started with, in the order
/// they are set: the API key (for a known provider), the model, the provider.
pub open spec fn config_env(
    provider: Seq<char>,
    model: Option<Seq<char>>,
    api_key: Option<Seq<char>>,
) -> Seq<(Seq<char>, Seq<char>)> {
    let key_part = match (api_key, api_key_variable(provider)) {
        (Some(k), Some(var)) => seq![(var, k)],
        _ => Seq::empty(),
    };
    let model_part = match model {
        Some(m) => seq![("PI_MODEL"@, m)],
        None => Seq::empty(),
    };
    key_part + model_part + seq![("PI_PROVIDER"@, provider)]
}

/// The view of a list of environment assignments.
pub open spec fn env_view(env: Seq<(String, String)>) -> Seq<(Seq<char>, Seq<char>)> {
    env.map_values(|p: (String, String)| (p.0@, p.1@))
}

fn push_env(env: &mut Vec<(String, String)>, name: &str, value: &String)
    ensures
        env_view(final(env)@) == env_view(old(env)@).push((name@, value@)),
{
    env.push((String::from_str(name), value.clone()));
    assert(env_view(env@) =~= env_view(old(env)@).push((name@, value@)));
}

impl PiConfig {
    /// Appends to `env` the environment variables that a pi process for this
    /// configuration is started with.
    pub fn apply_env(&self, env: &mut Vec<(String, String)>)
        ensures
            env_view(final(env)@) == env_view(old(env)@) + config_env(
                self.provider@,
                opt_text(self.model),
                opt_text(self.api_key),
            ),
    {
        let ghost start = env_view(env@);
        let ghost key_part = match (opt_text(self.api_key), api_key_variable(self.provider@)) {
            (Some(k), Some(var)) => seq![(var, k)],
            _ => Seq::empty(),
        };
        if let Some(api_key) = &self.api_key {
            let p = self.provider.as_str();
            if crate::text::str_eq(p, "anthropic") {
                push_env(env, "ANTHROPIC_API_KEY", api_key);
            } else if crate::text::str_eq(p, "openai") {
                push_env(env, "OPENAI_API_KEY", api_key);
            } else if crate::text::str_eq(p, "google") {
                push_env(env, "GOOGLE_API_KEY", api_key);
            }
        }
        assert(env_view(env@) =~= start + key_part);
        let ghost after_key = env_view(env@);
        if let Some(model) = &self.model {
            push_env(env, "PI_MODEL", model);
        }
        let ghost model_part = match opt_text(self.model) {
            Some(m) => seq![("PI_MODEL"@, m)],
            None => Seq::<(Seq<char>, Seq<char>)>::empty(),
        };
        assert(env_view(env@) =~= after_key + model_part);
        push_env(env, "PI_PROVIDER", &self.provider);
        assert(env_view(env@) =~= start + (key_part + model_part + seq![("PI_PROVIDER"@, self.provider@)]));
    }
}

/// A JSON value as carried in the `params` and `result` of a message.
/// Numbers keep their JSON text.
#[derive(Debug, PartialEq)]
pub enum JsonValue {
    Null,
    Bool(bool),
    Number(String),
    Str(String),
    Array(Vec<JsonValue>),
    Object(Vec<(String, JsonValue)>),
}

/// The error member of a JSON-RPC response.
#[derive(Debug)]
pub struct JsonRpcError {
    pub code: i32,
    pub message: String,
}

/// A JSON-RPC 2.0 message exchanged with a pi session.
#[derive(Debug)]
pub struct PiMessage {
    pub jsonrpc: String,
    pub id: Option<i32>,
    pub method: Option<String>,
    pub params: Option<JsonValue>,
    pub result: Option<JsonValue>,
    pub error: Option<JsonRpcError>,
}

/// Whether `v` is the JSON string `s`.
pub open spec fn is_json_str(v: JsonValue, s: Seq<char>) -> bool {
    v matches JsonValue::Str(t) && t@ == s
}

/// Whether `v` is the JSON object `{"prompt": prompt}`.
pub open spec fn is_prompt_params(v: JsonValue, prompt: Seq<char>) -> bool {
    &&& v matches JsonValue::Object(fields)
    &&& fields@.len() == 1
    &&& fields@[0].0@ == "prompt"@
    &&& is_json_str(fields@[0].1, prompt)
}

/// Whether `v` is the JSON array of the strings `items`.
pub open spec fn is_json_str_array(v: JsonValue, items: Seq<Seq<char>>) -> bool {
    &&& v matches JsonValue::Array(elems)
    &&& elems@.len() == items.len()
    &&& forall|i: int| 0 <= i < items.len() ==> is_json_str(#[trigger] elems@[i], items[i])
}

/// Whether `v` is the JSON object `{"name": tool, "args": args}`.
pub open spec fn is_tool_params(v: JsonValue, tool: Seq<char>, args: Seq<Seq<char>>) -> bool {
    &&& v matches JsonValue::Object(fields)
    &&& fields@.len() == 2
    &&& fields@[0].0@ == "name"@
    &&& is_json_str(fields@[0].1, tool)
    &&& fields@[1].0@ == "args"@
    &&& is_json_str_array(fields@[1].1, args)
}

/// Whether `m` is a request of pi session protocol version 2.0 with id 1,
/// the given method, and no result or error.
pub open spec fn is_request(m: PiMessage, method: Seq<char>) -> bool {
    &&& m.jsonrpc@ == "2.0"@
    &&& m.id == Some(1i32)
    &&& opt_text(m.method) == Some(method)
    &&& m.result is None
    &&& m.error is None
}

fn request(method: &str, params: Option<JsonValue>) -> (r: PiMessage)
    ensures
        is_request(r, method@),
        r.params == params,
{
    PiMessage {
        jsonrpc: String::from_str("2.0"),
        id: Some(1),
        method: Some(String::from_str(method)),
        params,
        result: None,
        error: None,
    }
}

fn json_str(s: &str) -> (r: JsonValue)
    ensures
        is_json_str(r, s@),
{
    JsonValue::Str(String::from_str(s))
}

impl PiMessage {
    /// A request that pi run a prompt.
    pub fn new_execute(prompt: &str) -> (r: Self)
        ensures
            is_request(r, "execute"@),
            r.params matches Some(p) && is_prompt_params(p, prompt@),
    {
        let fields = vec![(String::from_str("prompt"), json_str(prompt))];
        request("execute", Some(JsonValue::Object(fields)))
    }

    /// A request that pi run a tool with arguments.
    pub fn new_tool(tool: &str, args: Vec<String>) -> (r: Self)
        ensures
            is_request(r, "tool"@),
            r.params matches Some(p) && is_tool_params(p, tool@, texts(args@)),
    {
        let mut elems: Vec<JsonValue> = Vec::new();
        let mut i: usize = 0;
        while i < args.len()
            invariant
                i <= args.len(),
                elems@.len() == i,
                forall|j: int| 0 <= j < i ==> is_json_str(#[trigger] elems@[j], args@[j]@),
            decreases args.len() - i,
        {
            elems.push(JsonValue::Str(args[i].clone()));
            i = i + 1;
        }
        let array = JsonValue::Array(elems);
        assert(is_json_str_array(array, texts(args@)));
        let fields = vec![
            (String::from_str("name"), json_str(tool)),
            (String::from_str("args"), array),
        ];
        request("tool", Some(JsonValue::Object(fields)))
    }

    /// A request for a snapshot of the session.
    pub fn new_snapshot() -> (r: Self)
        ensures
            is_request(r, "snapshot"@),
            r.params is None,
    {
        request("snapshot", None)
    }

    /// A request that the session exit.
    pub fn new_exit() -> (r: Self)
        ensures
            is_request(r, "exit"@),
            r.params is None,
    {
        request("exit", None)
    }
}

/// A snapshot of an agent's state, as a pi session reports it.
#[derive(Debug)]
pub struct SnapshotResponse {
    pub id: AgentId,
    pub name: String,
    pub branch: String,
    pub worktree_path: String,
    pub status: AgentStatus,
    pub output: Vec<String>,
    pub tmux_session: String,
}

} // verus!
