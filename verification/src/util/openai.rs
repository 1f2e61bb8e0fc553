use vstd::prelude::*;
use reqwest::header::HeaderMap;
use crate::types::openai_completion::{
    FunctionModel, OpenAiCallableFunction, OpenAiCompletion, function_json, functions_model,
};
use crate::util::backend_server_error::BackendServerError;
use crate::util::header_map::{
    authorization_name, content_type_name, header_map_insert, header_map_new, header_map_values,
    header_value_parse, header_value_static, no_headers, spec_valid_header_value,
};
use crate::util::json_extract::{
    object_lookup,
    JsonModel, JsonValue, entries_model, items_model, lemma_entries_model, lemma_items_model,
};
use crate::util::text::{concat2, owned};
use vstd::utf8::encode_utf8;

verus! {

/// The system prompt used when no other is given.
pub const BASE_SYSTEM_PROMPT: &'static str = "You are a helpful assistant.";

/// A message of a chat request.
pub struct CompletionMessage {
    pub role: String,
    pub content: String,
}

/// A function offered to the model as a tool.
pub struct FunctionTool {
    /// Always `function`; written as `type` in JSON.
    pub tool_type: String,
    pub function: OpenAiCallableFunction,
}

/// A client of the chat completions API.
pub struct OpenAiClient {
    pub api_url: String,
    pub openai_api_key: String,
    pub system_message: Option<String>,
    pub model: String,
}

/// A chat request, ready to be posted.
pub struct ChatCompletionRequest {
    pub url: String,
    pub headers: HeaderMap,
    pub body: JsonValue,
}

/// How a chat request went, as far as the transport and the JSON reader tell.
pub enum ChatReply {
    /// The request could not be sent; holds the transport's description.
    SendFailed(String),
    /// The reply body is not JSON.
    NotJson,
    /// The reply body is JSON; holds the completion it denotes, if any.
    Json(Option<OpenAiCompletion>),
}

/// The JSON form of a chat message: `{"role", "content"}`.
pub open spec fn message_json(role: Seq<char>, content: Seq<char>) -> JsonModel {
    JsonModel::Object(seq![("role"@, JsonModel::Text(role)), ("content"@, JsonModel::Text(content))])
}

/// The JSON form of a function offered as a tool: `{"type": "function", "function"}`.
pub open spec fn tool_json(f: FunctionModel) -> JsonModel {
    JsonModel::Object(seq![("type"@, JsonModel::Text("function"@)), ("function"@, function_json(f))])
}

/// The body of a chat request: the model, a system and a user message, and,
/// when there are functions, the functions as tools with a tool call required.
pub open spec fn chat_body(
    model: Seq<char>,
    system: Seq<char>,
    prompt: Seq<char>,
    functions: Seq<FunctionModel>,
) -> JsonModel {
    let base = seq![
        ("model"@, JsonModel::Text(model)),
        ("messages"@, JsonModel::Array(seq![message_json("system"@, system), message_json("user"@, prompt)])),
    ];
    if functions.len() == 0 {
        JsonModel::Object(base)
    } else {
        JsonModel::Object(
            base + seq![
                ("tools"@, JsonModel::Array(functions.map_values(|f: FunctionModel| tool_json(f)))),
                ("tool_choice"@, JsonModel::Text("required"@)),
            ],
        )
    }
}

/// The headers of a chat request: JSON content and the bearer key.
pub open spec fn chat_headers(api_key: Seq<char>) -> Map<Seq<char>, Seq<Seq<u8>>> {
    no_headers().insert("content-type"@, seq![encode_utf8("application/json"@)]).insert(
        "authorization"@,
        seq![encode_utf8("Bearer "@ + api_key)],
    )
}

/// What a chat reply means: a completion, or the error that the client reports.
pub open spec fn spec_chat_outcome(reply: ChatReply) -> Result<OpenAiCompletion, BackendServerError> {
    match reply {
        ChatReply::SendFailed(e) => Err(BackendServerError::ReqwestError(e)),
        ChatReply::NotJson => Err(BackendServerError::InputParsingError),
        ChatReply::Json(Some(c)) => Ok(c),
        ChatReply::Json(None) => Err(BackendServerError::UnknownError),
    }
}

impl CompletionMessage {
    pub fn to_json(&self) -> (r: JsonValue)
        ensures
            r@ == message_json(self.role@, self.content@),
    {
        let entries = vec![
            (owned("role"), JsonValue::Text(self.role.clone())),
            (owned("content"), JsonValue::Text(self.content.clone())),
        ];
        proof {
            lemma_entries_model(entries@);
            assert(entries_model(entries@) =~= message_json(self.role@, self.content@)->Object_0);
        }
        JsonValue::Object(entries)
    }
}

impl FunctionTool {
    pub fn to_json(&self) -> (r: JsonValue)
        requires
            self.tool_type@ == "function"@,
        ensures
            r@ == tool_json(self.function@),
    {
        let entries = vec![
            (owned("type"), JsonValue::Text(self.tool_type.clone())),
            (owned("function"), self.function.to_json()),
        ];
        proof {
            lemma_entries_model(entries@);
            assert(entries_model(entries@) =~= tool_json(self.function@)->Object_0);
        }
        JsonValue::Object(entries)
    }
}

impl OpenAiClient {
    /// A client of the chat completions API with the `gpt-4o` model.
    pub fn new(system_message: Option<String>, openai_api_key: String) -> (r: OpenAiClient)
        ensures
            r.api_url@ == "https://api.openai.com/v1/chat/completions"@,
            r.openai_api_key == openai_api_key,
            r.system_message == system_message,
            r.model@ == "gpt-4o"@,
    {
        OpenAiClient {
            api_url: owned("https://api.openai.com/v1/chat/completions"),
            openai_api_key,
            system_message,
            model: owned("gpt-4o"),
        }
    }

    pub fn set_system_prompt(&mut self, system_msg: Option<String>)
        ensures
            final(self).system_message == system_msg,
            final(self).api_url == old(self).api_url,
            final(self).openai_api_key == old(self).openai_api_key,
            final(self).model == old(self).model,
    {
        self.system_message = system_msg;
    }

    /// The system prompt of a request: the one given for it, else the
    /// client's own, else the base prompt.
    pub open spec fn spec_system_prompt(&self, system_message_override: Option<String>) -> Seq<char> {
        match system_message_override {
            Some(s) => s@,
            None => match self.system_message {
                Some(s) => s@,
                None => BASE_SYSTEM_PROMPT@,
            },
        }
    }

    /// Whether the key can stand in an `Authorization` header.
    pub open spec fn key_usable(&self) -> bool {
        spec_valid_header_value("Bearer "@ + self.openai_api_key@)
    }

    /// The request that asks the model to answer `prompt_base`, offering it
    /// `functions` (and then requiring a tool call) when there are any.
    pub fn chat_request(
        &self,
        prompt_base: String,
        system_message_override: Option<String>,
        functions: Vec<OpenAiCallableFunction>,
    ) -> (r: ChatCompletionRequest)
        requires
            self.key_usable(),
        ensures
            r.url@ == self.api_url@,
            header_map_values(r.headers) == chat_headers(self.openai_api_key@),
            r.body@ == chat_body(
                self.model@,
                self.spec_system_prompt(system_message_override),
                prompt_base@,
                functions_model(functions@),
            ),
    {
        let mut headers = header_map_new();
        proof {
            reveal_strlit("application/json");
        }
        header_map_insert(&mut headers, content_type_name(), header_value_static("application/json"));
        let auth = concat2("Bearer ", self.openai_api_key.as_str());
        let auth_value = header_value_parse(auth.as_str()).unwrap();
        header_map_insert(&mut headers, authorization_name(), auth_value);

        let system_content = match system_message_override {
            Some(s) => s,
            None => match &self.system_message {
                Some(s) => s.clone(),
                None => owned(BASE_SYSTEM_PROMPT),
            },
        };
        let ghost prompt_view = prompt_base@;
        let messages = vec![
            CompletionMessage { role: owned("system"), content: system_content },
            CompletionMessage { role: owned("user"), content: prompt_base },
        ];
        let enable_function_calling = functions.len() != 0;
        let ghost functions_view = functions_model(functions@);

        let mut message_items: Vec<JsonValue> = Vec::new();
        message_items.push(messages[0].to_json());
        message_items.push(messages[1].to_json());
        proof {
            lemma_items_model(message_items@);
            assert(items_model(message_items@) =~= seq![
                message_json("system"@, messages@[0].content@),
                message_json("user"@, prompt_view),
            ]);
        }

        let mut rest = functions;
        let n = rest.len();
        let ghost all = rest@;
        let mut tool_items: Vec<JsonValue> = Vec::new();
        let mut i: usize = 0;
        assert(all.skip(0) =~= all);
        while i < n
            invariant
                n == all.len(),
                i <= n,
                rest@ == all.skip(i as int),
                tool_items@.len() == i,
                forall|j: int| 0 <= j < i ==> (#[trigger] tool_items@[j])@ == tool_json(all[j]@),
            decreases n - i,
        {
            let function = rest.remove(0);
            assert(rest@ =~= all.skip(i + 1));
            let tool = FunctionTool { tool_type: owned("function"), function };
            tool_items.push(tool.to_json());
            i = i + 1;
        }
        proof {
            lemma_items_model(tool_items@);
            assert(items_model(tool_items@) =~= functions_view.map_values(|f: FunctionModel| tool_json(f)));
        }

        let mut entries = vec![
            (owned("model"), JsonValue::Text(self.model.clone())),
            (owned("messages"), JsonValue::Array(message_items)),
        ];
        if enable_function_calling {
            entries.push((owned("tools"), JsonValue::Array(tool_items)));
            entries.push((owned("tool_choice"), JsonValue::Text(owned("required"))));
        }
        proof {
            lemma_entries_model(entries@);
            let expected = chat_body(
                self.model@,
                self.spec_system_prompt(system_message_override),
                prompt_view,
                functions_view,
            );
            assert(entries_model(entries@) =~= expected->Object_0);
        }
        ChatCompletionRequest { url: self.api_url.clone(), headers, body: JsonValue::Object(entries) }
    }
}

/// The completion a reply carries, or the error the client reports: a reply
/// that could not be sent is a transport error, one that is not JSON an input
/// error, and JSON that is not a completion an unknown error.
pub fn interpret_chat_reply(reply: ChatReply) -> (r: Result<OpenAiCompletion, BackendServerError>)
    ensures
        r == spec_chat_outcome(reply),
{
    match reply {
        ChatReply::SendFailed(e) => Err(BackendServerError::ReqwestError(e)),
        ChatReply::NotJson => Err(BackendServerError::InputParsingError),
        ChatReply::Json(Some(c)) => Ok(c),
        ChatReply::Json(None) => Err(BackendServerError::UnknownError),
    }
}

/// A chat request body names the model and holds the system and user
/// messages; when functions are offered, every one of them becomes a tool, in
/// order, and a tool call is required; with none, neither is there.
pub proof fn law_chat_body_offers_every_function(
    model: Seq<char>,
    system: Seq<char>,
    prompt: Seq<char>,
    functions: Seq<FunctionModel>,
)
    ensures
        chat_body(model, system, prompt, functions).member("model"@) == Some(JsonModel::Text(model)),
        chat_body(model, system, prompt, functions).member("messages"@) == Some(
            JsonModel::Array(seq![message_json("system"@, system), message_json("user"@, prompt)]),
        ),
        functions.len() == 0 ==> chat_body(model, system, prompt, functions).member("tools"@) is None
            && chat_body(model, system, prompt, functions).member("tool_choice"@) is None,
        functions.len() > 0 ==> (chat_body(model, system, prompt, functions).member("tools"@) matches Some(
            JsonModel::Array(tools),
        ) && tools.len() == functions.len() && forall|i: int|
            0 <= i < functions.len() ==> #[trigger] tools[i] == tool_json(functions[i])),
        functions.len() > 0 ==> chat_body(model, system, prompt, functions).member("tool_choice"@) == Some(
            JsonModel::Text("required"@),
        ),
{
    reveal_strlit("model");
    reveal_strlit("messages");
    reveal_strlit("tools");
    reveal_strlit("tool_choice");
    let body = chat_body(model, system, prompt, functions);
    let entries = body->Object_0;
    assert(entries[0].0 == "model"@);
    assert(entries[1].0 == "messages"@);
    assert("model"@ != "messages"@);
    assert("model"@[0] != "tools"@[0]);
    assert("model"@ != "tools"@);
    assert("model"@ != "tool_choice"@);
    assert("messages"@ != "tools"@);
    assert("messages"@ != "tool_choice"@);
    assert("tools"@[4] != "tool_choice"@[4]);
    assert("tools"@ != "tool_choice"@);
    assert(entries.drop_first()[0].0 == "messages"@);
    let rest1 = entries.drop_first();
    let rest2 = rest1.drop_first();
    assert(object_lookup(entries, "model"@) == Some(entries[0].1));
    assert(object_lookup(entries, "messages"@) == object_lookup(rest1, "messages"@));
    assert(object_lookup(rest1, "messages"@) == Some(rest1[0].1));
    assert(rest1[0].0 == "messages"@);
    assert(object_lookup(entries, "tools"@) == object_lookup(rest1, "tools"@));
    assert(object_lookup(rest1, "tools"@) == object_lookup(rest2, "tools"@));
    assert(object_lookup(entries, "tool_choice"@) == object_lookup(rest1, "tool_choice"@));
    assert(object_lookup(rest1, "tool_choice"@) == object_lookup(rest2, "tool_choice"@));
    if functions.len() == 0 {
        assert(rest2.len() == 0);
        assert(object_lookup(rest2, "tools"@) is None);
        assert(object_lookup(rest2, "tool_choice"@) is None);
    } else {
        assert(rest2[0].0 == "tools"@);
        assert(object_lookup(rest2, "tools"@) == Some(rest2[0].1));
        let rest3 = rest2.drop_first();
        assert(rest3[0].0 == "tool_choice"@);
        assert(object_lookup(rest2, "tool_choice"@) == object_lookup(rest3, "tool_choice"@));
        assert(object_lookup(rest3, "tool_choice"@) == Some(rest3[0].1));
    }
}

} // verus!
