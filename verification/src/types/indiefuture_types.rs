use vstd::prelude::*;
use crate::types::openai_completion::{
    FunctionModel, GptFunctionCall, OpenAiCallableFunction, function_call_json, function_json,
    functions_model,
};
use crate::util::json_extract::{JsonModel, JsonValue, items_model, lemma_entries_model, lemma_items_model, entries_model};
use crate::util::text::owned;

verus! {

/// The tools an agent offers.
#[derive(Debug)]
pub struct AvailableTools {
    pub tools: Vec<OpenAiCallableFunction>,
}

/// The JSON form of a list of tools: `{"tools": [...]}`.
pub open spec fn available_tools_json(tools: Seq<FunctionModel>) -> JsonModel {
    JsonModel::Object(seq![("tools"@, JsonModel::Array(tools.map_values(|f: FunctionModel| function_json(f))))])
}

impl AvailableTools {
    pub fn new(input: Vec<OpenAiCallableFunction>) -> (r: AvailableTools)
        ensures
            r.tools == input,
    {
        AvailableTools { tools: input }
    }

    /// The JSON form of these tools.
    pub fn to_json(&self) -> (r: JsonValue)
        ensures
            r@ == available_tools_json(functions_model(self.tools@)),
    {
        let mut items: Vec<JsonValue> = Vec::new();
        let n = self.tools.len();
        let mut i: usize = 0;
        while i < n
            invariant
                n == self.tools@.len(),
                i <= n,
                items@.len() == i,
                forall|j: int| 0 <= j < i ==> (#[trigger] items@[j])@ == function_json(self.tools@[j]@),
            decreases n - i,
        {
            items.push(self.tools[i].to_json());
            i = i + 1;
        }
        proof {
            lemma_items_model(items@);
            assert(items_model(items@) =~= functions_model(self.tools@).map_values(
                |f: FunctionModel| function_json(f),
            ));
        }
        let entries = vec![(owned("tools"), JsonValue::Array(items))];
        proof {
            lemma_entries_model(entries@);
            assert(entries_model(entries@) =~= seq![
                ("tools"@, JsonModel::Array(functions_model(self.tools@).map_values(|f: FunctionModel| function_json(f)))),
            ]);
        }
        JsonValue::Object(entries)
    }
}

/// The message that an agent hands back.
#[derive(Debug)]
pub struct IndiefutureAgentMessagePrimitives {
    pub input_prompt: Option<String>,
    pub message: Option<String>,
    pub structured_data: Option<JsonValue>,
    pub tool_call: Option<GptFunctionCall>,
}

/// A text that may be missing, as JSON: the text, or `null`.
pub open spec fn optional_text_json(t: Option<String>) -> JsonModel {
    match t {
        Some(s) => JsonModel::Text(s@),
        None => JsonModel::Null,
    }
}

/// The JSON form of an agent message, with every field present
/// (`null` where a field is missing).
pub open spec fn primitives_json(p: IndiefutureAgentMessagePrimitives) -> JsonModel {
    JsonModel::Object(
        seq![
            ("input_prompt"@, optional_text_json(p.input_prompt)),
            ("message"@, optional_text_json(p.message)),
            ("structured_data"@, match p.structured_data {
                Some(v) => v@,
                None => JsonModel::Null,
            }),
            ("tool_call"@, match p.tool_call {
                Some(c) => function_call_json(c),
                None => JsonModel::Null,
            }),
        ],
    )
}

fn optional_text_to_json(t: &Option<String>) -> (r: JsonValue)
    ensures
        r@ == optional_text_json(*t),
{
    match t {
        Some(s) => JsonValue::Text(s.clone()),
        None => JsonValue::Null,
    }
}

impl Default for IndiefutureAgentMessagePrimitives {
    /// A message with every field missing.
    fn default() -> (r: IndiefutureAgentMessagePrimitives)
        ensures
            r.input_prompt is None,
            r.message is None,
            r.structured_data is None,
            r.tool_call is None,
    {
        IndiefutureAgentMessagePrimitives {
            input_prompt: None,
            message: None,
            structured_data: None,
            tool_call: None,
        }
    }
}

impl IndiefutureAgentMessagePrimitives {

    /// The JSON form of this message.
    pub fn to_json(&self) -> (r: JsonValue)
        ensures
            r@ == primitives_json(*self),
    {
        let structured = match &self.structured_data {
            Some(v) => v.duplicate(),
            None => JsonValue::Null,
        };
        let call = match &self.tool_call {
            Some(c) => c.to_json(),
            None => JsonValue::Null,
        };
        let entries = vec![
            (owned("input_prompt"), optional_text_to_json(&self.input_prompt)),
            (owned("message"), optional_text_to_json(&self.message)),
            (owned("structured_data"), structured),
            (owned("tool_call"), call),
        ];
        proof {
            lemma_entries_model(entries@);
            assert(entries_model(entries@) =~= primitives_json(*self)->Object_0);
        }
        JsonValue::Object(entries)
    }
}

} // verus!
