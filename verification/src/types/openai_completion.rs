use vstd::prelude::*;
use crate::util::json_extract::{JsonModel, JsonValue};
use crate::util::text::owned;

verus! {

/// A function that the model may call: its name, what it does, and the JSON
/// schema of its arguments.
#[derive(Debug)]
pub struct OpenAiCallableFunction {
    pub name: String,
    pub description: String,
    pub parameters: JsonValue,
}

/// The mathematical content of an [`OpenAiCallableFunction`].
pub struct FunctionModel {
    pub name: Seq<char>,
    pub description: Seq<char>,
    pub parameters: JsonModel,
}

impl View for OpenAiCallableFunction {
    type V = FunctionModel;

    open spec fn view(&self) -> FunctionModel {
        FunctionModel { name: self.name@, description: self.description@, parameters: self.parameters@ }
    }
}

/// The models of a list of functions, one for one.
pub open spec fn functions_model(s: Seq<OpenAiCallableFunction>) -> Seq<FunctionModel> {
    s.map_values(|f: OpenAiCallableFunction| f@)
}

/// The JSON form of a function: `{"name", "description", "parameters"}`.
pub open spec fn function_json(f: FunctionModel) -> JsonModel {
    JsonModel::Object(
        seq![
            ("name"@, JsonModel::Text(f.name)),
            ("description"@, JsonModel::Text(f.description)),
            ("parameters"@, f.parameters),
        ],
    )
}

impl OpenAiCallableFunction {
    /// A copy of this function.
    pub fn duplicate(&self) -> (r: OpenAiCallableFunction)
        ensures
            r@ == self@,
    {
        OpenAiCallableFunction {
            name: self.name.clone(),
            description: self.description.clone(),
            parameters: self.parameters.duplicate(),
        }
    }

    /// The JSON form of this function.
    pub fn to_json(&self) -> (r: JsonValue)
        ensures
            r@ == function_json(self@),
    {
        let entries = vec![
            (owned("name"), JsonValue::Text(self.name.clone())),
            (owned("description"), JsonValue::Text(self.description.clone())),
            (owned("parameters"), self.parameters.duplicate()),
        ];
        proof {
            crate::util::json_extract::lemma_entries_model(entries@);
        }
        let r = JsonValue::Object(entries);
        assert(r@ == function_json(self@)) by {
            assert(crate::util::json_extract::entries_model(entries@) =~= seq![
                ("name"@, JsonModel::Text(self.name@)),
                ("description"@, JsonModel::Text(self.description@)),
                ("parameters"@, self.parameters@),
            ]);
        }
        r
    }
}

/// Copies of a list of functions.
pub fn duplicate_functions(s: &Vec<OpenAiCallableFunction>) -> (r: Vec<OpenAiCallableFunction>)
    ensures
        functions_model(r@) == functions_model(s@),
{
    let mut out: Vec<OpenAiCallableFunction> = Vec::new();
    let n = s.len();
    let mut i: usize = 0;
    while i < n
        invariant
            n == s@.len(),
            i <= n,
            out@.len() == i,
            forall|j: int| 0 <= j < i ==> (#[trigger] out@[j])@ == s@[j]@,
        decreases n - i,
    {
        out.push(s[i].duplicate());
        i = i + 1;
    }
    assert(functions_model(out@) =~= functions_model(s@));
    out
}

/// A call of a function that the model asks for.
#[derive(Debug, PartialEq, Eq)]
pub struct GptFunctionCall {
    pub name: String,
    /// The arguments, as JSON text.
    pub arguments: String,
}

/// A tool call in a completion.
#[derive(Debug, PartialEq, Eq)]
pub struct GptToolCall {
    pub id: String,
    pub function: GptFunctionCall,
}

/// The message of a completion choice.
#[derive(Debug, PartialEq, Eq)]
pub struct CompletionChoiceMessage {
    pub content: Option<String>,
    pub tool_calls: Option<Vec<GptToolCall>>,
}

/// One choice of a completion.
#[derive(Debug, PartialEq, Eq)]
pub struct CompletionChoice {
    pub message: CompletionChoiceMessage,
}

/// A chat completion as the API returns it.
#[derive(Debug, PartialEq, Eq)]
pub struct OpenAiCompletion {
    pub choices: Vec<CompletionChoice>,
}

impl GptFunctionCall {
    /// A copy of this call.
    pub fn duplicate(&self) -> (r: GptFunctionCall)
        ensures
            r == *self,
    {
        GptFunctionCall { name: self.name.clone(), arguments: self.arguments.clone() }
    }

    /// The JSON form of this call: `{"name", "arguments"}`.
    pub fn to_json(&self) -> (r: JsonValue)
        ensures
            r@ == function_call_json(*self),
    {
        let entries = vec![
            (owned("name"), JsonValue::Text(self.name.clone())),
            (owned("arguments"), JsonValue::Text(self.arguments.clone())),
        ];
        proof {
            crate::util::json_extract::lemma_entries_model(entries@);
            assert(crate::util::json_extract::entries_model(entries@) =~= seq![
                ("name"@, JsonModel::Text(self.name@)),
                ("arguments"@, JsonModel::Text(self.arguments@)),
            ]);
        }
        JsonValue::Object(entries)
    }
}

/// The JSON form of a function call.
pub open spec fn function_call_json(c: GptFunctionCall) -> JsonModel {
    JsonModel::Object(
        seq![("name"@, JsonModel::Text(c.name@)), ("arguments"@, JsonModel::Text(c.arguments@))],
    )
}

} // verus!
