use vstd::prelude::*;
use crate::ai::action_set::{ActionSetType, AiFunctionSets};
use crate::tools::mpc_tool::{handle_tool_call, list_tools_output, tool_is_known};
use crate::types::evm_types::RawTxInput;
use crate::types::openai_completion::{GptToolCall, OpenAiCompletion, functions_model};
use crate::util::backend_server_error::BackendServerError;
use crate::util::header_map::header_map_values;
use crate::util::json_extract::JsonValue;
use crate::util::json_debug::{json_debug_text, json_debug_text_of, optional_json_model};
use crate::util::openai::{ChatCompletionRequest, OpenAiClient, chat_body, chat_headers};
use crate::types::openai_completion::duplicate_functions;

verus! {

/// What the agent answers a chat message with.
#[derive(Debug)]
pub struct ChatAiOutputBody {
    pub message: String,
    pub tx_array: Option<Vec<RawTxInput>>,
    pub structured_data: Option<JsonValue>,
}

/// The state the agent answers with: its action sets and its model client.
pub struct AiEngineData {
    pub ai_function_sets: AiFunctionSets,
    pub ai_client: OpenAiClient,
}

/// The system prompt of the pass that turns structured data into prose.
pub const OUTPUT_PASS_SYSTEM_PROMPT: &'static str = "You are a helpful agent assistant helping users access api data .  Using this users origin input query and the structured data provided b  as context, help answer their question using this structured data, omitting unnecessary data.";

/// The tool call a completion asks for: the first call of its first choice.
/// A completion without choices is an unknown error.
pub open spec fn spec_first_tool_call(c: OpenAiCompletion) -> Result<Option<GptToolCall>, BackendServerError> {
    if c.choices@.len() == 0 {
        Err(BackendServerError::UnknownError)
    } else {
        match c.choices@[0].message.tool_calls {
            Some(calls) => if calls@.len() > 0 {
                Ok(Some(calls@[0]))
            } else {
                Ok(None)
            },
            None => Ok(None),
        }
    }
}

/// The prompt of the output pass: the message, a rule, and the structured
/// data as its debug text.
pub open spec fn output_pass_prompt(message: Seq<char>, structured_data_debug: Seq<char>) -> Seq<char> {
    "  "@ + message + "    \n\n            ---------------    \n\n            "@ + structured_data_debug
        + "\n        "@
}

/// The text the output pass ends with: the first choice's content when the
/// completion came and has it, the answer's own message otherwise.
pub open spec fn spec_output_pass_reply(
    result: Result<OpenAiCompletion, BackendServerError>,
    message: Seq<char>,
) -> Seq<char> {
    match result {
        Ok(c) => if c.choices@.len() > 0 && c.choices@[0].message.content is Some {
            c.choices@[0].message.content.unwrap()@
        } else {
            message
        },
        Err(_) => message,
    }
}

impl AiEngineData {
    pub fn new(system_prompt: Option<String>, openai_api_key: String, ai_function_sets: AiFunctionSets) -> (r: AiEngineData)
        ensures
            r.ai_function_sets@ == ai_function_sets@,
            r.ai_client.system_message == system_prompt,
            r.ai_client.openai_api_key == openai_api_key,
            r.ai_client.api_url@ == "https://api.openai.com/v1/chat/completions"@,
            r.ai_client.model@ == "gpt-4o"@,
    {
        AiEngineData { ai_client: OpenAiClient::new(system_prompt, openai_api_key), ai_function_sets }
    }

    /// The request for a chat message: the message as the prompt, the given
    /// system prompt, and the functions of the chosen action set.
    pub fn completion_request(
        &self,
        input_body: String,
        system_prompt: Option<String>,
        action_set: ActionSetType,
    ) -> (r: ChatCompletionRequest)
        requires
            self.ai_function_sets@.contains_key(action_set),
            self.ai_client.key_usable(),
        ensures
            r.url@ == self.ai_client.api_url@,
            header_map_values(r.headers) == chat_headers(self.ai_client.openai_api_key@),
            r.body@ == chat_body(
                self.ai_client.model@,
                self.ai_client.spec_system_prompt(system_prompt),
                input_body@,
                self.ai_function_sets@[action_set],
            ),
    {
        let functions = self.ai_function_sets.get(action_set).unwrap();
        let functions = duplicate_functions(functions);
        self.ai_client.chat_request(input_body, system_prompt, functions)
    }

    /// The tool call that the completion (or the error in its place) leads to.
    pub fn select_tool_call(result: Result<OpenAiCompletion, BackendServerError>) -> (r: Result<Option<GptToolCall>, BackendServerError>)
        ensures
            r == match result {
                Ok(c) => spec_first_tool_call(c),
                Err(e) => Err(e),
            },
    {
        match result {
            Err(e) => Err(e),
            Ok(completion) => {
                let mut choices = completion.choices;
                if choices.len() == 0 {
                    return Err(BackendServerError::UnknownError);
                }
                let choice = choices.remove(0);
                match choice.message.tool_calls {
                    Some(calls) => {
                        let mut calls = calls;
                        if calls.len() > 0 {
                            Ok(Some(calls.remove(0)))
                        } else {
                            Ok(None)
                        }
                    },
                    None => Ok(None),
                }
            },
        }
    }

    /// Answers a chat message with the tool the model called: its message
    /// and its data. Without a tool call there is no answer (an unknown error).
    pub fn answer_with_tool(
        &self,
        tool_call: Option<GptToolCall>,
        tool_arguments: Option<JsonValue>,
        input_body: String,
    ) -> (r: Result<ChatAiOutputBody, BackendServerError>)
        requires
            tool_call matches Some(c) ==> tool_is_known(c.function.name@),
        ensures
            tool_call is None ==> r == Err::<ChatAiOutputBody, _>(BackendServerError::UnknownError),
            tool_call is Some ==> (r matches Ok(out) && out.tx_array is None
                && list_tools_output(
                    self.ai_function_sets@,
                    crate::tools::mpc_tool::MpcToolOutput {
                        message: Some(out.message),
                        structured_data: out.structured_data,
                    },
                )),
    {
        let output = match &tool_call {
            Some(call) => Some(handle_tool_call(call, tool_arguments, input_body, self)),
            None => None,
        };
        match output {
            None => Err(BackendServerError::UnknownError),
            Some(o) => match o.message {
                None => Err(BackendServerError::UnknownError),
                Some(message) => Ok(ChatAiOutputBody { message, tx_array: None, structured_data: o.structured_data }),
            },
        }
    }

    /// The request of the output pass: the answer's message and the debug
    /// text of its data as the prompt, under the output-pass system prompt,
    /// with no functions.
    pub fn output_pass_request(&self, input: &ChatAiOutputBody) -> (r: ChatCompletionRequest)
        requires
            self.ai_client.key_usable(),
        ensures
            r.url@ == self.ai_client.api_url@,
            header_map_values(r.headers) == chat_headers(self.ai_client.openai_api_key@),
            r.body@ == chat_body(
                self.ai_client.model@,
                OUTPUT_PASS_SYSTEM_PROMPT@,
                output_pass_prompt(input.message@, json_debug_text(optional_json_model(input.structured_data))),
                functions_model(Seq::empty()),
            ),
    {
        let mut prompt = crate::util::text::concat2("  ", input.message.as_str());
        prompt.append("    \n\n            ---------------    \n\n            ");
        let structured_data_debug = json_debug_text_of(&input.structured_data);
        prompt.append(structured_data_debug.as_str());
        prompt.append("\n        ");
        self.ai_client.chat_request(prompt, Some(crate::util::text::owned(OUTPUT_PASS_SYSTEM_PROMPT)), Vec::new())
    }

    /// The text the output pass ends with.
    pub fn output_pass_reply(result: Result<OpenAiCompletion, BackendServerError>, input: ChatAiOutputBody) -> (r: String)
        ensures
            r@ == spec_output_pass_reply(result, input.message@),
    {
        match result {
            Ok(completion) => {
                let mut choices = completion.choices;
                if choices.len() > 0 {
                    let first = choices.remove(0);
                    if let Some(content) = first.message.content {
                        return content;
                    }
                }
                input.message
            },
            Err(_) => input.message,
        }
    }
}

} // verus!
