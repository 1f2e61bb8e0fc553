use vstd::prelude::*;
use crate::ai::action_set::{ActionSetType, AiActionSet};
use crate::ai::ai_engine::AiEngineData;
use crate::types::indiefuture_types::{AvailableTools, available_tools_json};
use crate::types::openai_completion::{FunctionModel, GptToolCall, OpenAiCallableFunction, duplicate_functions, functions_model};
use crate::util::json_extract::{JsonModel, JsonValue};
use crate::util::text::{concat3, owned, str_eq};

verus! {

/// What a tool hands back: a message and data for the user.
#[derive(Debug)]
pub struct MpcToolOutput {
    pub message: Option<String>,
    pub structured_data: Option<JsonValue>,
}

/// The text that opens the message of `ListTools`.
pub const LIST_TOOLS_PREFIX: &'static str = " \n\n\t \t \t\t     Here is some information about available actions :  \n\n\t \t \t\t  \t";

/// The text that closes the message of `ListTools`.
pub const LIST_TOOLS_SUFFIX: &'static str = "\n\n\t \t \t\t ";

/// A tool the model can call.
pub trait MpcTool {
    /// Whether `r` is what this tool hands back for the given input, with
    /// the engine offering the action sets `sets`.
    spec fn handles(
        &self,
        input_body: Seq<char>,
        input_props: JsonModel,
        sets: Map<ActionSetType, Seq<FunctionModel>>,
        r: MpcToolOutput,
    ) -> bool;

    fn handle_mpc_tool(
        &self,
        input_body: String,
        input_props: JsonValue,
        ai_engine_data: &AiEngineData,
    ) -> (r: MpcToolOutput)
        ensures
            self.handles(input_body@, input_props@, ai_engine_data.ai_function_sets@, r),
    ;
}

/// The text that `format!("{:?}", ..)` gives for an optional action set, by
/// the derived `Debug` impls; it depends on the functions of the set alone.
pub uninterp spec fn tools_debug_text(tools: Option<Seq<FunctionModel>>) -> Seq<char>;

/// The outer action set of `sets`, if the engine has it.
pub open spec fn outer_actions(sets: Map<ActionSetType, Seq<FunctionModel>>) -> Option<Seq<FunctionModel>> {
    if sets.contains_key(ActionSetType::OuterActions) {
        Some(sets[ActionSetType::OuterActions])
    } else {
        None
    }
}

/// The message of `ListTools`: the debug text of the outer action set between
/// a fixed opening and closing text.
pub open spec fn list_tools_message(sets: Map<ActionSetType, Seq<FunctionModel>>) -> Seq<char> {
    LIST_TOOLS_PREFIX@ + tools_debug_text(outer_actions(sets)) + LIST_TOOLS_SUFFIX@
}

/// Whether `r` is what `ListTools` hands back when the engine offers `sets`:
/// a message that shows the outer actions, and those actions as data when the
/// engine has them.
pub open spec fn list_tools_output(sets: Map<ActionSetType, Seq<FunctionModel>>, r: MpcToolOutput) -> bool {
    &&& r.message matches Some(m) && m@ == list_tools_message(sets)
    &&& match outer_actions(sets) {
        Some(t) => r.structured_data matches Some(d) && d@ == available_tools_json(t),
        None => r.structured_data is None,
    }
}

/// `format!("{:?}", tools)` over the derived `Debug` impls: the text is
/// `tools_debug_text` of the functions the set holds (or of `None`).
#[verifier::external_body]
fn debug_text_of_tools(tools: Option<&AiActionSet>) -> (r: String)
    ensures
        r@ == tools_debug_text(
            match tools {
                Some(t) => Some(functions_model(t@)),
                None => None,
            },
        ),
{
    format!("{:?}", tools)
}

/// Lists the actions the agent offers.
pub struct ListTools;

impl MpcTool for ListTools {
    open spec fn handles(
        &self,
        input_body: Seq<char>,
        input_props: JsonModel,
        sets: Map<ActionSetType, Seq<FunctionModel>>,
        r: MpcToolOutput,
    ) -> bool {
        list_tools_output(sets, r)
    }

    fn handle_mpc_tool(
        &self,
        input_body: String,
        input_props: JsonValue,
        ai_engine_data: &AiEngineData,
    ) -> (r: MpcToolOutput) {
        let tools = ai_engine_data.ai_function_sets.get(ActionSetType::OuterActions);
        let shown = debug_text_of_tools(tools);
        let msg = concat3(LIST_TOOLS_PREFIX, shown.as_str(), LIST_TOOLS_SUFFIX);
        let structured_data = match tools {
            Some(x) => Some(AvailableTools::new(duplicate_functions(x)).to_json()),
            None => None,
        };
        MpcToolOutput { message: Some(msg), structured_data }
    }
}

/// The tools the model may call.
pub enum MpcToolType {
    ListTools,
}

/// Whether a tool call names a known tool.
pub open spec fn tool_is_known(name: Seq<char>) -> bool {
    name == "ListTools"@
}

impl MpcToolType {
    /// The tool a name stands for.
    pub fn parse_from_str(input: &str) -> (r: Option<MpcToolType>)
        ensures
            r is Some <==> tool_is_known(input@),
            r matches Some(t) ==> t is ListTools,
    {
        if str_eq(input, "ListTools") {
            Some(MpcToolType::ListTools)
        } else {
            None
        }
    }

    /// The tool that handles calls of this type.
    pub fn get_tool(&self) -> (r: ListTools) {
        match self {
            MpcToolType::ListTools => ListTools,
        }
    }
}

/// Runs the tool that a tool call names, with the call's arguments as its
/// input (the JSON text `{}` where they could not be read as JSON).
pub fn handle_tool_call(
    ai_body_tool_call: &GptToolCall,
    tool_arguments: Option<JsonValue>,
    input_body: String,
    ai_engine_data: &AiEngineData,
) -> (r: MpcToolOutput)
    requires
        tool_is_known(ai_body_tool_call.function.name@),
    ensures
        list_tools_output(ai_engine_data.ai_function_sets@, r),
{
    let tool_type = MpcToolType::parse_from_str(ai_body_tool_call.function.name.as_str()).unwrap();
    let tool = tool_type.get_tool();
    let input_props = match tool_arguments {
        Some(v) => v,
        None => JsonValue::Text(owned("{}")),
    };
    tool.handle_mpc_tool(input_body, input_props, ai_engine_data)
}

} // verus!
