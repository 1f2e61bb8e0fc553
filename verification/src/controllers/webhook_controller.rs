use vstd::prelude::*;
use reqwest::header::HeaderMap;
use crate::controllers::web_controller::AuthResponse;
use crate::types::domains::decimal::DomainDecimal;
use crate::types::domains::eth_address::{DomainEthAddress, spec_address_text};
use crate::types::indiefuture_types::{IndiefutureAgentMessagePrimitives, primitives_json};
use crate::types::selected_record::SelectedRecord;
use crate::util::header_map::header_map_values;
use crate::util::header_map_preset::HeaderMapPreset;
use crate::util::http_request::{EndpointType, IntoHttpRequest};
use crate::util::json_extract::{
    JsonModel, JsonNumber, JsonValue, NumberModel, entries_model, fetch_from_serde_json,
    lemma_entries_model,
};
use crate::util::text::{concat2, owned};

verus! {

/// The controller that serves the agent's webhook.
pub struct WebhookController {}

/// The workspace whose credits pay for the webhook.
pub const WORKSPACE_UUID: &'static str = "0xd857721b5385e27d";

/// The fewest credits, in cents, a client must hold to be served.
pub const MIN_CREDITS_CENTS: i64 = 25;

/// The credits, in cents, one use of the webhook costs.
pub const CREDIT_DEDUCTION_AMOUNT_CENTS: i64 = 2;

/// The JSON form of an `i64`.
pub open spec fn i64_json(n: i64) -> JsonModel {
    if n >= 0 {
        JsonModel::Number(NumberModel::PosInt(n as u64))
    } else {
        JsonModel::Number(NumberModel::NegInt(n))
    }
}

fn i64_to_json(n: i64) -> (r: JsonValue)
    ensures
        r@ == i64_json(n),
{
    if n >= 0 {
        JsonValue::Number(JsonNumber::PosInt(n as u64))
    } else {
        JsonValue::Number(JsonNumber::NegInt(n))
    }
}

/// The credits of a client key, as the relay reports them.
#[derive(Debug)]
pub struct GetApiCreditsOutput {
    pub credits: DomainDecimal,
    pub credits_cents: i64,
}

/// Asks the relay how many credits a client key has left in a workspace.
#[derive(Debug)]
pub struct GetCreditsAmountEndpoint {
    pub workspace_uuid: String,
    pub client_api_key: String,
}

/// Asks the relay for the record of a client key.
#[derive(Debug)]
pub struct GetClientKeyDataEndpoint {
    pub client_key: String,
}

/// The relay's record of a client key.
#[derive(Debug)]
pub struct RefillClientKeyData {
    pub name: Option<String>,
    pub client_key: String,
    pub client_address: DomainEthAddress,
    pub workspace_uuid: String,
    pub credits: DomainDecimal,
}

/// Asks the relay to take credits from a client.
#[derive(Debug)]
pub struct DeductCreditsEndpoint {
    pub session_token: String,
    pub workspace_uuid: String,
    pub client_address: String,
    pub credits_delta_cents: i64,
}

/// The credits a client has left after a deduction.
#[derive(Debug)]
pub struct UpdateApiCreditsOutput {
    pub new_credits: DomainDecimal,
    pub new_credits_cents: i64,
}

/// The headers of every request to the relay: JSON in and out.
pub open spec fn relay_headers() -> Map<Seq<char>, Seq<Seq<u8>>> {
    HeaderMapPreset::ApplicationJson.preset_headers()
}

fn relay_header_map() -> (r: Option<HeaderMap>)
    ensures
        r matches Some(m) && header_map_values(m) == relay_headers(),
{
    Some(HeaderMapPreset::ApplicationJson.build())
}

impl IntoHttpRequest for GetCreditsAmountEndpoint {
    open spec fn spec_url(&self) -> Seq<char> {
        "https://api.defirelay.com/api/client_key/get_api_credits"@
    }

    open spec fn spec_data(&self) -> JsonModel {
        JsonModel::Object(
            seq![
                ("workspace_uuid"@, JsonModel::Text(self.workspace_uuid@)),
                ("client_api_key"@, JsonModel::Text(self.client_api_key@)),
            ],
        )
    }

    open spec fn spec_headers(&self) -> Option<Map<Seq<char>, Seq<Seq<u8>>>> {
        Some(relay_headers())
    }

    open spec fn spec_endpoint_type(&self) -> EndpointType {
        EndpointType::GET
    }

    fn get_url(&self) -> (r: String) {
        owned("https://api.defirelay.com/api/client_key/get_api_credits")
    }

    fn get_data(&self) -> (r: JsonValue) {
        let entries = vec![
            (owned("workspace_uuid"), JsonValue::Text(self.workspace_uuid.clone())),
            (owned("client_api_key"), JsonValue::Text(self.client_api_key.clone())),
        ];
        proof {
            lemma_entries_model(entries@);
            assert(entries_model(entries@) =~= self.spec_data()->Object_0);
        }
        JsonValue::Object(entries)
    }

    fn get_headers(&self) -> (r: Option<HeaderMap>) {
        relay_header_map()
    }

    fn get_endpoint_type(&self) -> (r: EndpointType)
        ensures
            r == EndpointType::GET,
    {
        EndpointType::GET
    }
}

impl IntoHttpRequest for GetClientKeyDataEndpoint {
    open spec fn spec_url(&self) -> Seq<char> {
        "https://api.defirelay.com/api/client_key/find_by_client_key"@
    }

    open spec fn spec_data(&self) -> JsonModel {
        JsonModel::Object(seq![("client_key"@, JsonModel::Text(self.client_key@))])
    }

    open spec fn spec_headers(&self) -> Option<Map<Seq<char>, Seq<Seq<u8>>>> {
        Some(relay_headers())
    }

    open spec fn spec_endpoint_type(&self) -> EndpointType {
        EndpointType::POST
    }

    fn get_url(&self) -> (r: String) {
        owned("https://api.defirelay.com/api/client_key/find_by_client_key")
    }

    fn get_data(&self) -> (r: JsonValue) {
        let entries = vec![(owned("client_key"), JsonValue::Text(self.client_key.clone()))];
        proof {
            lemma_entries_model(entries@);
            assert(entries_model(entries@) =~= self.spec_data()->Object_0);
        }
        JsonValue::Object(entries)
    }

    fn get_headers(&self) -> (r: Option<HeaderMap>) {
        relay_header_map()
    }

    fn get_endpoint_type(&self) -> (r: EndpointType)
        ensures
            r == EndpointType::POST,
    {
        EndpointType::POST
    }
}

impl IntoHttpRequest for DeductCreditsEndpoint {
    open spec fn spec_url(&self) -> Seq<char> {
        "https://api.defirelay.com/api/client_key/deduct_api_credits"@
    }

    open spec fn spec_data(&self) -> JsonModel {
        JsonModel::Object(
            seq![
                ("session_token"@, JsonModel::Text(self.session_token@)),
                ("workspace_uuid"@, JsonModel::Text(self.workspace_uuid@)),
                ("client_address"@, JsonModel::Text(self.client_address@)),
                ("credits_delta_cents"@, i64_json(self.credits_delta_cents)),
            ],
        )
    }

    open spec fn spec_headers(&self) -> Option<Map<Seq<char>, Seq<Seq<u8>>>> {
        Some(relay_headers())
    }

    open spec fn spec_endpoint_type(&self) -> EndpointType {
        EndpointType::POST
    }

    fn get_url(&self) -> (r: String) {
        owned("https://api.defirelay.com/api/client_key/deduct_api_credits")
    }

    fn get_data(&self) -> (r: JsonValue) {
        let entries = vec![
            (owned("session_token"), JsonValue::Text(self.session_token.clone())),
            (owned("workspace_uuid"), JsonValue::Text(self.workspace_uuid.clone())),
            (owned("client_address"), JsonValue::Text(self.client_address.clone())),
            (owned("credits_delta_cents"), i64_to_json(self.credits_delta_cents)),
        ];
        proof {
            lemma_entries_model(entries@);
            assert(entries_model(entries@) =~= self.spec_data()->Object_0);
        }
        JsonValue::Object(entries)
    }

    fn get_headers(&self) -> (r: Option<HeaderMap>) {
        relay_header_map()
    }

    fn get_endpoint_type(&self) -> (r: EndpointType)
        ensures
            r == EndpointType::POST,
    {
        EndpointType::POST
    }
}

/// The credits, in cents, that a reply of the credits endpoint reports:
/// nothing when the request failed, the reply could not be read, or it holds
/// no data.
pub fn credits_cents_from_response(response: Option<AuthResponse<GetApiCreditsOutput>>) -> (r: Option<i64>)
    ensures
        r == match response {
            Some(res) => match res.data {
                Some(d) => Some(d.credits_cents),
                None => None,
            },
            None => None,
        },
{
    match response {
        Some(res) => match res.data {
            Some(d) => Some(d.credits_cents),
            None => None,
        },
        None => None,
    }
}

} // verus!

verus! {

/// The answers the webhook can give.
#[derive(Debug, PartialEq, Eq, Structural, Clone, Copy)]
pub enum WebhookReply {
    /// The request names no client key.
    MissingClientApiKey,
    /// The client holds fewer credits than a use costs at least.
    InsufficientCredits,
    /// The relay has no record of the client key.
    ClientDataUnavailable,
    /// The workspace's own key is not configured.
    Misconfiguration,
    /// The relay did not take the credits.
    DeductionFailed,
    /// The client paid and is served.
    Served,
}

/// Where a webhook request stands, between two outside steps.
#[derive(Debug)]
pub enum WebhookStage {
    /// Waiting for the client's credits.
    AwaitingCredits { client_api_key: String },
    /// Waiting for the relay's record of the client key.
    AwaitingClientData { client_api_key: String },
    /// Waiting for the workspace's own key.
    AwaitingWorkspaceKey { client_address: String },
    /// Waiting for the relay to take the credits.
    AwaitingDeduction,
    /// Answered.
    Done,
}

/// What an outside step brought back.
#[derive(Debug)]
pub enum WebhookEvent {
    /// The client's credits in cents (nothing if they could not be had).
    CreditsAmount(Option<i64>),
    /// The relay's record of the client key (nothing if it could not be had).
    ClientData(Option<SelectedRecord<RefillClientKeyData>>),
    /// The workspace's own key (nothing if it is not configured).
    WorkspaceApiKey(Option<String>),
    /// The relay's reply to the deduction (nothing if there is none).
    CreditsDeducted(Option<AuthResponse<UpdateApiCreditsOutput>>),
}

/// What the webhook asks to be done next.
#[derive(Debug)]
pub enum WebhookAction {
    FetchCredits(GetCreditsAmountEndpoint),
    FetchClientData(GetClientKeyDataEndpoint),
    ReadWorkspaceApiKey,
    DeductCredits(DeductCreditsEndpoint),
    Respond(WebhookReply),
}

/// How a request begins: with its client key, the webhook asks for the
/// client's credits in the workspace; without one, it answers at once.
pub open spec fn begins(input: JsonModel, stage: WebhookStage, action: WebhookAction) -> bool {
    match input.member("indiefuture_client_api_key"@) {
        Some(JsonModel::Text(k)) => {
            &&& stage matches WebhookStage::AwaitingCredits { client_api_key } && client_api_key@ == k
            &&& action matches WebhookAction::FetchCredits(e) && e.workspace_uuid@ == WORKSPACE_UUID@
                && e.client_api_key@ == k
        },
        _ => stage is Done && action == WebhookAction::Respond(WebhookReply::MissingClientApiKey),
    }
}

/// Whether `event` is what `stage` waits for.
pub open spec fn expects(stage: WebhookStage, event: WebhookEvent) -> bool {
    match stage {
        WebhookStage::AwaitingCredits { .. } => event is CreditsAmount,
        WebhookStage::AwaitingClientData { .. } => event is ClientData,
        WebhookStage::AwaitingWorkspaceKey { .. } => event is WorkspaceApiKey,
        WebhookStage::AwaitingDeduction => event is CreditsDeducted,
        WebhookStage::Done => false,
    }
}

/// One step of a request: the stage and event before, the stage and action after.
pub open spec fn steps(stage: WebhookStage, event: WebhookEvent, next: WebhookStage, action: WebhookAction) -> bool {
    match (stage, event) {
        (WebhookStage::AwaitingCredits { client_api_key: k }, WebhookEvent::CreditsAmount(c)) => {
            let amount = match c {
                Some(a) => a,
                None => 0,
            };
            if amount >= MIN_CREDITS_CENTS {
                &&& next matches WebhookStage::AwaitingClientData { client_api_key } && client_api_key@ == k@
                &&& action matches WebhookAction::FetchClientData(e) && e.client_key@ == k@
            } else {
                next is Done && action == WebhookAction::Respond(WebhookReply::InsufficientCredits)
            }
        },
        (WebhookStage::AwaitingClientData { .. }, WebhookEvent::ClientData(d)) => match d {
            Some(record) => {
                &&& next matches WebhookStage::AwaitingWorkspaceKey { client_address }
                    && client_address@ == spec_address_text(record.entry.client_address.0@)
                &&& action is ReadWorkspaceApiKey
            },
            None => next is Done && action == WebhookAction::Respond(WebhookReply::ClientDataUnavailable),
        },
        (WebhookStage::AwaitingWorkspaceKey { client_address: a }, WebhookEvent::WorkspaceApiKey(key)) => match key {
            Some(key) => {
                &&& next is AwaitingDeduction
                &&& action matches WebhookAction::DeductCredits(e) && e.workspace_uuid@ == WORKSPACE_UUID@
                    && e.session_token@ == key@ && e.client_address@ == a@
                    && e.credits_delta_cents == CREDIT_DEDUCTION_AMOUNT_CENTS
            },
            None => next is Done && action == WebhookAction::Respond(WebhookReply::Misconfiguration),
        },
        (WebhookStage::AwaitingDeduction, WebhookEvent::CreditsDeducted(r)) => {
            &&& next is Done
            &&& action == WebhookAction::Respond(
                if r is Some {
                    WebhookReply::Served
                } else {
                    WebhookReply::DeductionFailed
                },
            )
        },
        _ => false,
    }
}

/// Starts a webhook request from its JSON body.
pub fn webhook_begin(input: &JsonValue) -> (r: (WebhookStage, WebhookAction))
    ensures
        begins(input@, r.0, r.1),
{
    match fetch_from_serde_json::<String>(input, "indiefuture_client_api_key") {
        Some(client_api_key) => {
            let endpoint = GetCreditsAmountEndpoint {
                workspace_uuid: owned(WORKSPACE_UUID),
                client_api_key: client_api_key.clone(),
            };
            (WebhookStage::AwaitingCredits { client_api_key }, WebhookAction::FetchCredits(endpoint))
        },
        None => (WebhookStage::Done, WebhookAction::Respond(WebhookReply::MissingClientApiKey)),
    }
}

/// Takes a request one step on, from what the last outside step brought back.
pub fn webhook_step(stage: WebhookStage, event: WebhookEvent) -> (r: (WebhookStage, WebhookAction))
    requires
        expects(stage, event),
    ensures
        steps(stage, event, r.0, r.1),
{
    match (stage, event) {
        (WebhookStage::AwaitingCredits { client_api_key }, WebhookEvent::CreditsAmount(c)) => {
            let amount = match c {
                Some(a) => a,
                None => 0,
            };
            if amount >= MIN_CREDITS_CENTS {
                let endpoint = GetClientKeyDataEndpoint { client_key: client_api_key.clone() };
                (WebhookStage::AwaitingClientData { client_api_key }, WebhookAction::FetchClientData(endpoint))
            } else {
                (WebhookStage::Done, WebhookAction::Respond(WebhookReply::InsufficientCredits))
            }
        },
        (WebhookStage::AwaitingClientData { .. }, WebhookEvent::ClientData(d)) => match d {
            Some(record) => {
                let client_address = record.entry.client_address.to_string_full();
                (WebhookStage::AwaitingWorkspaceKey { client_address }, WebhookAction::ReadWorkspaceApiKey)
            },
            None => (WebhookStage::Done, WebhookAction::Respond(WebhookReply::ClientDataUnavailable)),
        },
        (WebhookStage::AwaitingWorkspaceKey { client_address }, WebhookEvent::WorkspaceApiKey(key)) => match key {
            Some(workspace_api_key) => {
                let endpoint = DeductCreditsEndpoint {
                    session_token: workspace_api_key,
                    workspace_uuid: owned(WORKSPACE_UUID),
                    client_address,
                    credits_delta_cents: CREDIT_DEDUCTION_AMOUNT_CENTS,
                };
                (WebhookStage::AwaitingDeduction, WebhookAction::DeductCredits(endpoint))
            },
            None => (WebhookStage::Done, WebhookAction::Respond(WebhookReply::Misconfiguration)),
        },
        (WebhookStage::AwaitingDeduction, WebhookEvent::CreditsDeducted(r)) => {
            let reply = match r {
                Some(_) => WebhookReply::Served,
                None => WebhookReply::DeductionFailed,
            };
            (WebhookStage::Done, WebhookAction::Respond(reply))
        },
        (_, _) => vstd::pervasive::unreached(),
    }
}

} // verus!

verus! {

/// An agent message as JSON: the given message and data, with the prompt and
/// the tool call empty.
pub open spec fn agent_message_json(message: Option<Seq<char>>, data: JsonModel) -> JsonModel {
    JsonModel::Object(
        seq![
            ("input_prompt"@, JsonModel::Null),
            ("message"@, match message {
                Some(m) => JsonModel::Text(m),
                None => JsonModel::Null,
            }),
            ("structured_data"@, data),
            ("tool_call"@, JsonModel::Null),
        ],
    )
}

/// An error body: `{"error": message}`.
pub open spec fn error_json(message: Seq<char>) -> JsonModel {
    JsonModel::Object(seq![("error"@, JsonModel::Text(message))])
}

/// The data of a refusal that names the workspace.
pub open spec fn workspace_error_json(error: Seq<char>) -> JsonModel {
    JsonModel::Object(
        seq![("error"@, JsonModel::Text(error)), ("workspace_uuid"@, JsonModel::Text(WORKSPACE_UUID@))],
    )
}

/// The HTTP status of a reply: 200 for an answer the agent gives (served or
/// refused for the client's sake), 500 when the service itself failed.
pub open spec fn reply_status(r: WebhookReply) -> u16 {
    match r {
        WebhookReply::MissingClientApiKey | WebhookReply::InsufficientCredits | WebhookReply::Served => 200,
        _ => 500,
    }
}

/// The JSON body of a reply.
pub open spec fn reply_body(r: WebhookReply) -> JsonModel {
    match r {
        WebhookReply::MissingClientApiKey => agent_message_json(
            Some("missing client_api_key for workspace "@ + WORKSPACE_UUID@),
            workspace_error_json("MissingClientApiKey"@),
        ),
        WebhookReply::InsufficientCredits => agent_message_json(
            Some("InsufficientCreditsForWorkspace "@ + WORKSPACE_UUID@),
            workspace_error_json("InsufficientCreditsForWorkspace"@),
        ),
        WebhookReply::ClientDataUnavailable => error_json("Could not get client data"@),
        WebhookReply::Misconfiguration => error_json("Misconfiguration"@),
        WebhookReply::DeductionFailed => error_json("Unable to deduct credits "@),
        WebhookReply::Served => agent_message_json(
            None,
            JsonModel::Object(seq![("data"@, JsonModel::Text(" Heres the special data!!"@))]),
        ),
    }
}

fn text_entry(key: &str, value: String) -> (r: (String, JsonValue))
    ensures
        r.0@ == key@,
        r.1@ == JsonModel::Text(value@),
{
    (owned(key), JsonValue::Text(value))
}

fn workspace_error(error: &str) -> (r: JsonValue)
    ensures
        r@ == workspace_error_json(error@),
{
    let entries = vec![text_entry("error", owned(error)), text_entry("workspace_uuid", owned(WORKSPACE_UUID))];
    proof {
        lemma_entries_model(entries@);
        assert(entries_model(entries@) =~= workspace_error_json(error@)->Object_0);
    }
    JsonValue::Object(entries)
}

fn error_body(message: &str) -> (r: JsonValue)
    ensures
        r@ == error_json(message@),
{
    let entries = vec![text_entry("error", owned(message))];
    proof {
        lemma_entries_model(entries@);
        assert(entries_model(entries@) =~= error_json(message@)->Object_0);
    }
    JsonValue::Object(entries)
}

impl WebhookReply {
    /// The agent message of a reply that the agent gives (status 200).
    pub fn agent_message(&self) -> (r: Option<IndiefutureAgentMessagePrimitives>)
        ensures
            reply_status(*self) == 200 <==> r is Some,
            r matches Some(p) ==> primitives_json(p) == reply_body(*self),
    {
        match self {
            WebhookReply::MissingClientApiKey => {
                let mut p = IndiefutureAgentMessagePrimitives::default();
                p.message = Some(concat2("missing client_api_key for workspace ", WORKSPACE_UUID));
                p.structured_data = Some(workspace_error("MissingClientApiKey"));
                assert(primitives_json(p)->Object_0 =~= reply_body(*self)->Object_0);
                Some(p)
            },
            WebhookReply::InsufficientCredits => {
                let mut p = IndiefutureAgentMessagePrimitives::default();
                p.message = Some(concat2("InsufficientCreditsForWorkspace ", WORKSPACE_UUID));
                p.structured_data = Some(workspace_error("InsufficientCreditsForWorkspace"));
                assert(primitives_json(p)->Object_0 =~= reply_body(*self)->Object_0);
                Some(p)
            },
            WebhookReply::Served => {
                let mut p = IndiefutureAgentMessagePrimitives::default();
                let entries = vec![text_entry("data", owned(" Heres the special data!!"))];
                proof {
                    lemma_entries_model(entries@);
                    assert(entries_model(entries@) =~= seq![("data"@, JsonModel::Text(" Heres the special data!!"@))]);
                }
                p.structured_data = Some(JsonValue::Object(entries));
                assert(primitives_json(p)->Object_0 =~= reply_body(*self)->Object_0);
                Some(p)
            },
            _ => None,
        }
    }

    /// The HTTP status of this reply.
    pub fn status_code(&self) -> (r: u16)
        ensures
            r == reply_status(*self),
    {
        match self {
            WebhookReply::MissingClientApiKey | WebhookReply::InsufficientCredits | WebhookReply::Served => 200,
            _ => 500,
        }
    }

    /// The JSON body of this reply.
    pub fn body(&self) -> (r: JsonValue)
        ensures
            r@ == reply_body(*self),
    {
        match self.agent_message() {
            Some(p) => p.to_json(),
            None => match self {
                WebhookReply::ClientDataUnavailable => error_body("Could not get client data"),
                WebhookReply::Misconfiguration => error_body("Misconfiguration"),
                _ => error_body("Unable to deduct credits "),
            },
        }
    }
}

} // verus!

verus! {

/// Whether `stages`, `actions` and `events` are the run of one request from
/// the body `input`: it begins from `input`, and each event is what its stage
/// waits for and takes the request one step on.
pub open spec fn is_run(
    input: JsonModel,
    stages: Seq<WebhookStage>,
    actions: Seq<WebhookAction>,
    events: Seq<WebhookEvent>,
) -> bool {
    &&& stages.len() == events.len() + 1
    &&& actions.len() == events.len() + 1
    &&& begins(input, stages[0], actions[0])
    &&& forall|i: int|
        0 <= i < events.len() ==> #[trigger] expects(stages[i], events[i]) && steps(
            stages[i],
            events[i],
            stages[i + 1],
            actions[i + 1],
        )
}

/// Whether one of the first `k` events reported at least the minimum credits.
pub open spec fn credits_cleared(events: Seq<WebhookEvent>, k: int) -> bool {
    exists|i: int|
        0 <= i < k && (#[trigger] events[i] matches WebhookEvent::CreditsAmount(Some(c)) && c >= MIN_CREDITS_CENTS)
}

proof fn lemma_run_step(
    input: JsonModel,
    stages: Seq<WebhookStage>,
    actions: Seq<WebhookAction>,
    events: Seq<WebhookEvent>,
    i: int,
)
    requires
        is_run(input, stages, actions, events),
        0 <= i < events.len(),
    ensures
        expects(stages[i], events[i]),
        steps(stages[i], events[i], stages[i + 1], actions[i + 1]),
{
    assert(expects(stages[i], events[i]));
}

proof fn lemma_stage_facts(
    input: JsonModel,
    stages: Seq<WebhookStage>,
    actions: Seq<WebhookAction>,
    events: Seq<WebhookEvent>,
    k: int,
)
    requires
        is_run(input, stages, actions, events),
        0 <= k <= events.len(),
    ensures
        stages[k] is AwaitingClientData || stages[k] is AwaitingWorkspaceKey || stages[k] is AwaitingDeduction
            ==> credits_cleared(events, k),
        stages[k] is Done <==> actions[k] is Respond,
        k > 0 && stages[k - 1] is Done ==> false,
    decreases k,
{
    if k > 0 {
        lemma_stage_facts(input, stages, actions, events, k - 1);
        lemma_run_step(input, stages, actions, events, k - 1);
        if stages[k - 1] is AwaitingCredits && stages[k] is AwaitingClientData {
            assert(events[k - 1] matches WebhookEvent::CreditsAmount(Some(c)) && c >= MIN_CREDITS_CENTS);
        }
        if credits_cleared(events, k - 1) {
            let i = choose|i: int|
                0 <= i < k - 1 && (#[trigger] events[i] matches WebhookEvent::CreditsAmount(Some(c)) && c
                    >= MIN_CREDITS_CENTS);
            assert(events[i] matches WebhookEvent::CreditsAmount(Some(c)) && c >= MIN_CREDITS_CENTS);
        }
    }
}

/// A request is served only when the client's credits were seen to reach the
/// minimum and, as the last step, the relay took the cost.
pub proof fn law_served_only_when_paid(
    input: JsonModel,
    stages: Seq<WebhookStage>,
    actions: Seq<WebhookAction>,
    events: Seq<WebhookEvent>,
    j: int,
)
    requires
        is_run(input, stages, actions, events),
        0 <= j < actions.len(),
        actions[j] == WebhookAction::Respond(WebhookReply::Served),
    ensures
        j >= 1,
        credits_cleared(events, j),
        events[j - 1] matches WebhookEvent::CreditsDeducted(Some(_)),
{
    if j == 0 {
        assert(false);
    }
    lemma_run_step(input, stages, actions, events, j - 1);
    lemma_stage_facts(input, stages, actions, events, j - 1);
    assert(stages[j - 1] is AwaitingDeduction);
    assert(credits_cleared(events, j - 1));
    let i = choose|i: int|
        0 <= i < j - 1 && (#[trigger] events[i] matches WebhookEvent::CreditsAmount(Some(c)) && c
            >= MIN_CREDITS_CENTS);
    assert(events[i] matches WebhookEvent::CreditsAmount(Some(c)) && c >= MIN_CREDITS_CENTS);
}

/// Credits are taken only after the client's credits were seen to reach the
/// minimum, and then always the fixed cost, from the webhook's workspace.
pub proof fn law_deduction_only_after_credit_check(
    input: JsonModel,
    stages: Seq<WebhookStage>,
    actions: Seq<WebhookAction>,
    events: Seq<WebhookEvent>,
    j: int,
)
    requires
        is_run(input, stages, actions, events),
        0 <= j < actions.len(),
        actions[j] is DeductCredits,
    ensures
        credits_cleared(events, j),
        actions[j] matches WebhookAction::DeductCredits(e) && e.credits_delta_cents == CREDIT_DEDUCTION_AMOUNT_CENTS
            && e.workspace_uuid@ == WORKSPACE_UUID@,
{
    if j == 0 {
        assert(false);
    }
    lemma_run_step(input, stages, actions, events, j - 1);
    lemma_stage_facts(input, stages, actions, events, j - 1);
    assert(stages[j - 1] is AwaitingWorkspaceKey);
    let i = choose|i: int|
        0 <= i < j - 1 && (#[trigger] events[i] matches WebhookEvent::CreditsAmount(Some(c)) && c
            >= MIN_CREDITS_CENTS);
    assert(events[i] matches WebhookEvent::CreditsAmount(Some(c)) && c >= MIN_CREDITS_CENTS);
}

/// A request is answered once and then stops: an answer is the last action of
/// any run.
pub proof fn law_answer_ends_run(
    input: JsonModel,
    stages: Seq<WebhookStage>,
    actions: Seq<WebhookAction>,
    events: Seq<WebhookEvent>,
    j: int,
)
    requires
        is_run(input, stages, actions, events),
        0 <= j < actions.len(),
        actions[j] is Respond,
    ensures
        j == events.len(),
{
    lemma_stage_facts(input, stages, actions, events, j);
    if j < events.len() {
        lemma_run_step(input, stages, actions, events, j);
    }
}

/// The relay's routes take their requests in fixed forms: the credits read is
/// a GET, the client lookup and the deduction are POSTs, each to its own route
/// of the relay, always with JSON headers.
pub proof fn law_relay_request_forms(g: GetCreditsAmountEndpoint, c: GetClientKeyDataEndpoint, d: DeductCreditsEndpoint)
    ensures
        g.spec_endpoint_type() == EndpointType::GET,
        c.spec_endpoint_type() == EndpointType::POST,
        d.spec_endpoint_type() == EndpointType::POST,
        g.spec_url() == "https://api.defirelay.com/api/client_key/get_api_credits"@,
        c.spec_url() == "https://api.defirelay.com/api/client_key/find_by_client_key"@,
        d.spec_url() == "https://api.defirelay.com/api/client_key/deduct_api_credits"@,
        g.spec_headers() == Some(HeaderMapPreset::ApplicationJson.preset_headers()),
        c.spec_headers() == Some(HeaderMapPreset::ApplicationJson.preset_headers()),
        d.spec_headers() == Some(HeaderMapPreset::ApplicationJson.preset_headers()),
{
}

/// Every deduction a run asks for is POSTed to the relay's deduction route
/// and takes the fixed cost.
pub proof fn law_run_deduction_is_posted(
    input: JsonModel,
    stages: Seq<WebhookStage>,
    actions: Seq<WebhookAction>,
    events: Seq<WebhookEvent>,
    j: int,
)
    requires
        is_run(input, stages, actions, events),
        0 <= j < actions.len(),
        actions[j] is DeductCredits,
    ensures
        actions[j] matches WebhookAction::DeductCredits(e) && e.spec_endpoint_type() == EndpointType::POST
            && e.spec_url() == "https://api.defirelay.com/api/client_key/deduct_api_credits"@
            && e.credits_delta_cents == 2,
{
    law_deduction_only_after_credit_check(input, stages, actions, events, j);
}

} // verus!
