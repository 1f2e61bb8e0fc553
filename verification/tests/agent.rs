use indiefuture_template_agent::ai::action_set::{ActionSetType, AiFunctionSets};
use indiefuture_template_agent::ai::ai_engine::{AiEngineData, ChatAiOutputBody};
use indiefuture_template_agent::tools::mpc_tool::{
    handle_tool_call, MpcToolType, LIST_TOOLS_PREFIX, LIST_TOOLS_SUFFIX,
};
use indiefuture_template_agent::types::indiefuture_types::AvailableTools;
use indiefuture_template_agent::types::openai_completion::{
    CompletionChoice, CompletionChoiceMessage, GptFunctionCall, GptToolCall, OpenAiCallableFunction,
    OpenAiCompletion,
};
use indiefuture_template_agent::util::backend_server_error::BackendServerError;
use indiefuture_template_agent::util::json_extract::{JsonNumber, JsonValue};
use indiefuture_template_agent::util::openai::{interpret_chat_reply, ChatReply, OpenAiClient};

fn text(s: &str) -> JsonValue {
    JsonValue::Text(s.to_string())
}

fn object(entries: Vec<(&str, JsonValue)>) -> JsonValue {
    JsonValue::Object(entries.into_iter().map(|(k, v)| (k.to_string(), v)).collect())
}

fn list_tools_function() -> OpenAiCallableFunction {
    OpenAiCallableFunction {
        name: "ListTools".to_string(),
        description: "Lists tools".to_string(),
        parameters: object(vec![("type", text("object"))]),
    }
}

fn function_json() -> JsonValue {
    object(vec![
        ("name", text("ListTools")),
        ("description", text("Lists tools")),
        ("parameters", object(vec![("type", text("object"))])),
    ])
}

fn engine() -> AiEngineData {
    let sets = ActionSetType::load_map(vec![(ActionSetType::OuterActions, vec![list_tools_function()])]);
    AiEngineData::new(None, "sk-test".to_string(), sets)
}

fn tool_call(name: &str) -> GptToolCall {
    GptToolCall {
        id: "call_1".to_string(),
        function: GptFunctionCall { name: name.to_string(), arguments: "{}".to_string() },
    }
}

fn completion(content: Option<&str>, calls: Option<Vec<GptToolCall>>) -> OpenAiCompletion {
    OpenAiCompletion {
        choices: vec![CompletionChoice {
            message: CompletionChoiceMessage { content: content.map(|c| c.to_string()), tool_calls: calls },
        }],
    }
}

#[test]
fn action_sets_load_and_get() {
    let empty = AiFunctionSets::new();
    assert!(empty.get(ActionSetType::OuterActions).is_none());
    let sets = ActionSetType::load_map(vec![
        (ActionSetType::OuterActions, vec![]),
        (ActionSetType::OuterActions, vec![list_tools_function()]),
    ]);
    let got = sets.get(ActionSetType::OuterActions).unwrap();
    assert_eq!(got.len(), 1);
    assert_eq!(got[0].name, "ListTools");
    assert_eq!(ActionSetType::sets_to_load(), vec![ActionSetType::OuterActions]);
    assert!(ActionSetType::OuterActions.get_action_set_file_contents().contains("ListTools"));
}

#[test]
fn chat_request_with_functions() {
    let client = OpenAiClient::new(Some("client prompt".to_string()), "sk-test".to_string());
    let req = client.chat_request("hello".to_string(), None, vec![list_tools_function()]);
    assert_eq!(req.url, "https://api.openai.com/v1/chat/completions");
    assert_eq!(req.headers.get("authorization").unwrap().to_str().unwrap(), "Bearer sk-test");
    assert_eq!(req.headers.get("content-type").unwrap().to_str().unwrap(), "application/json");
    let expected = object(vec![
        ("model", text("gpt-4o")),
        (
            "messages",
            JsonValue::Array(vec![
                object(vec![("role", text("system")), ("content", text("client prompt"))]),
                object(vec![("role", text("user")), ("content", text("hello"))]),
            ]),
        ),
        (
            "tools",
            JsonValue::Array(vec![object(vec![("type", text("function")), ("function", function_json())])]),
        ),
        ("tool_choice", text("required")),
    ]);
    assert_eq!(req.body, expected);
}

#[test]
fn chat_request_prompt_precedence_and_no_functions() {
    let mut client = OpenAiClient::new(None, "k".to_string());
    let req = client.chat_request("q".to_string(), None, vec![]);
    let expected = object(vec![
        ("model", text("gpt-4o")),
        (
            "messages",
            JsonValue::Array(vec![
                object(vec![("role", text("system")), ("content", text("You are a helpful assistant."))]),
                object(vec![("role", text("user")), ("content", text("q"))]),
            ]),
        ),
    ]);
    assert_eq!(req.body, expected);
    client.set_system_prompt(Some("own".to_string()));
    let req = client.chat_request("q".to_string(), Some("override".to_string()), vec![]);
    match &req.body {
        JsonValue::Object(entries) => match &entries[1].1 {
            JsonValue::Array(messages) => {
                assert_eq!(messages[0], object(vec![("role", text("system")), ("content", text("override"))]))
            }
            _ => panic!("messages"),
        },
        _ => panic!("body"),
    }
}

#[test]
fn chat_reply_outcomes() {
    assert_eq!(
        interpret_chat_reply(ChatReply::SendFailed("down".to_string())),
        Err(BackendServerError::ReqwestError("down".to_string()))
    );
    assert_eq!(interpret_chat_reply(ChatReply::NotJson), Err(BackendServerError::InputParsingError));
    assert_eq!(interpret_chat_reply(ChatReply::Json(None)), Err(BackendServerError::UnknownError));
    let c = completion(Some("hi"), None);
    assert_eq!(interpret_chat_reply(ChatReply::Json(Some(completion(Some("hi"), None)))), Ok(c));
}

#[test]
fn completion_request_uses_the_action_set() {
    let e = engine();
    let req = e.completion_request("find".to_string(), Some("sys".to_string()), ActionSetType::OuterActions);
    match &req.body {
        JsonValue::Object(entries) => {
            assert_eq!(entries.len(), 4);
            assert_eq!(entries[2].0, "tools");
        }
        _ => panic!("body"),
    }
}

#[test]
fn tool_call_selection() {
    assert_eq!(
        AiEngineData::select_tool_call(Ok(OpenAiCompletion { choices: vec![] })),
        Err(BackendServerError::UnknownError)
    );
    assert_eq!(AiEngineData::select_tool_call(Ok(completion(Some("x"), None))), Ok(None));
    assert_eq!(AiEngineData::select_tool_call(Ok(completion(None, Some(vec![])))), Ok(None));
    assert_eq!(
        AiEngineData::select_tool_call(Ok(completion(None, Some(vec![tool_call("ListTools"), tool_call("Other")])))),
        Ok(Some(tool_call("ListTools")))
    );
    assert_eq!(
        AiEngineData::select_tool_call(Err(BackendServerError::InputParsingError)),
        Err(BackendServerError::InputParsingError)
    );
}

#[test]
fn answering_with_list_tools() {
    let e = engine();
    assert_eq!(
        e.answer_with_tool(None, None, "q".to_string()).unwrap_err(),
        BackendServerError::UnknownError
    );
    let out: ChatAiOutputBody = e.answer_with_tool(Some(tool_call("ListTools")), None, "q".to_string()).unwrap();
    let expected = format!(
        "{}{:?}{}",
        LIST_TOOLS_PREFIX,
        Some(&vec![list_tools_function()]),
        LIST_TOOLS_SUFFIX
    );
    assert_eq!(out.message, expected);
    assert!(out.message.contains("ListTools"));
    assert!(out.tx_array.is_none());
    assert_eq!(
        out.structured_data,
        Some(object(vec![("tools", JsonValue::Array(vec![function_json()]))]))
    );
}

#[test]
fn list_tools_without_the_outer_set() {
    let e = AiEngineData::new(None, "k".to_string(), AiFunctionSets::new());
    let out = handle_tool_call(&tool_call("ListTools"), Some(JsonValue::Null), "q".to_string(), &e);
    assert_eq!(out.message, Some(format!("{}None{}", LIST_TOOLS_PREFIX, LIST_TOOLS_SUFFIX)));
    assert!(out.structured_data.is_none());
}

#[test]
fn tool_names() {
    assert!(matches!(MpcToolType::parse_from_str("ListTools"), Some(MpcToolType::ListTools)));
    assert!(MpcToolType::parse_from_str("listtools").is_none());
    assert!(MpcToolType::parse_from_str("").is_none());
}

#[test]
fn available_tools_json() {
    let tools = AvailableTools::new(vec![list_tools_function()]);
    assert_eq!(tools.to_json(), object(vec![("tools", JsonValue::Array(vec![function_json()]))]));
}

#[test]
fn output_pass() {
    let e = engine();
    let body = ChatAiOutputBody { message: "msg".to_string(), tx_array: None, structured_data: None };
    let req = e.output_pass_request(&body);
    match &req.body {
        JsonValue::Object(entries) => match &entries[1].1 {
            JsonValue::Array(messages) => assert_eq!(
                messages[1],
                object(vec![
                    ("role", text("user")),
                    (
                        "content",
                        text("  msg    \n\n            ---------------    \n\n            None\n        ")
                    ),
                ])
            ),
            _ => panic!("messages"),
        },
        _ => panic!("body"),
    }
    let data = object(vec![("a", JsonValue::Number(JsonNumber::PosInt(1))), ("b", text("x\"y"))]);
    let with_data = ChatAiOutputBody { message: "m".to_string(), tx_array: None, structured_data: Some(data) };
    let req = e.output_pass_request(&with_data);
    let shown: serde_json::Value = serde_json::from_str("{\"a\": 1, \"b\": \"x\\\"y\"}").unwrap();
    let expected = format!("  m    \n\n            ---------------    \n\n            {:?}\n        ", Some(shown));
    assert!(expected.contains("Object {\"a\": Number(1), \"b\": String(\"x\\\"y\")}"));
    match &req.body {
        JsonValue::Object(entries) => match &entries[1].1 {
            JsonValue::Array(messages) => {
                assert_eq!(messages[1], object(vec![("role", text("user")), ("content", text(&expected))]))
            },
            _ => panic!("messages"),
        },
        _ => panic!("body"),
    }
    let reply = AiEngineData::output_pass_reply(Ok(completion(Some("prose"), None)), body);
    assert_eq!(reply, "prose");
    let body = ChatAiOutputBody { message: "msg".to_string(), tx_array: None, structured_data: None };
    assert_eq!(AiEngineData::output_pass_reply(Ok(completion(None, None)), body), "msg");
    let body = ChatAiOutputBody { message: "msg".to_string(), tx_array: None, structured_data: None };
    assert_eq!(AiEngineData::output_pass_reply(Err(BackendServerError::UnknownError), body), "msg");
}
