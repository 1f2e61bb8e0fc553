use indiefuture_template_agent::controllers::web_controller::{
    AuthResponse, WebControllerErrorResponse, WebControllerSuccessResponse,
};
use indiefuture_template_agent::controllers::webhook_controller::{
    credits_cents_from_response, webhook_begin, webhook_step, GetApiCreditsOutput, RefillClientKeyData,
    UpdateApiCreditsOutput, WebhookAction, WebhookEvent, WebhookReply, WebhookStage,
};
use indiefuture_template_agent::types::domains::bytes::DomainBytes;
use indiefuture_template_agent::types::domains::decimal::DomainDecimal;
use indiefuture_template_agent::types::domains::eth_address::DomainEthAddress;
use indiefuture_template_agent::types::selected_record::SelectedRecord;
use indiefuture_template_agent::util::http_request::{EndpointType, IntoHttpRequest};
use indiefuture_template_agent::util::json_extract::{JsonNumber, JsonValue};

fn text(s: &str) -> JsonValue {
    JsonValue::Text(s.to_string())
}

fn object(entries: Vec<(&str, JsonValue)>) -> JsonValue {
    JsonValue::Object(entries.into_iter().map(|(k, v)| (k.to_string(), v)).collect())
}

fn record() -> SelectedRecord<RefillClientKeyData> {
    SelectedRecord {
        id: 7,
        entry: RefillClientKeyData {
            name: None,
            client_key: "ck".to_string(),
            client_address: DomainEthAddress::parse("0x5AEDA56215b167893e80B4fE645BA6d5Bab767DE").unwrap(),
            workspace_uuid: "0xd857721b5385e27d".to_string(),
            credits: DomainDecimal { negative: false, magnitude: 100, scale: 2 },
        },
    }
}

fn deduction_reply() -> AuthResponse<UpdateApiCreditsOutput> {
    AuthResponse {
        success: true,
        data: Some(UpdateApiCreditsOutput { new_credits: DomainDecimal { negative: false, magnitude: 98, scale: 2 }, new_credits_cents: 98 }),
        error: None,
    }
}

#[test]
fn missing_client_key_is_answered_at_once() {
    let (stage, action) = webhook_begin(&object(vec![("message", text("hi"))]));
    assert!(matches!(stage, WebhookStage::Done));
    assert!(matches!(action, WebhookAction::Respond(WebhookReply::MissingClientApiKey)));
    let (_, action) = webhook_begin(&object(vec![("indiefuture_client_api_key", JsonValue::Null)]));
    assert!(matches!(action, WebhookAction::Respond(WebhookReply::MissingClientApiKey)));
}

#[test]
fn a_paying_client_is_served() {
    let (stage, action) = webhook_begin(&object(vec![("indiefuture_client_api_key", text("ck"))]));
    match &action {
        WebhookAction::FetchCredits(e) => {
            assert_eq!(e.workspace_uuid, "0xd857721b5385e27d");
            assert_eq!(e.client_api_key, "ck");
            assert_eq!(e.get_endpoint_type(), EndpointType::GET);
            assert_eq!(e.get_url(), "https://api.defirelay.com/api/client_key/get_api_credits");
            assert_eq!(
                e.get_data(),
                object(vec![("workspace_uuid", text("0xd857721b5385e27d")), ("client_api_key", text("ck"))])
            );
            let h = e.get_headers().unwrap();
            assert_eq!(h.get("accept").unwrap().to_str().unwrap(), "application/json");
        }
        _ => panic!("expected a credits request"),
    }
    let (stage, action) = webhook_step(stage, WebhookEvent::CreditsAmount(Some(25)));
    match &action {
        WebhookAction::FetchClientData(e) => {
            assert_eq!(e.client_key, "ck");
            assert_eq!(e.get_endpoint_type(), EndpointType::POST);
            assert_eq!(e.get_data(), object(vec![("client_key", text("ck"))]));
        }
        _ => panic!("expected a client data request"),
    }
    let (stage, action) = webhook_step(stage, WebhookEvent::ClientData(Some(record())));
    assert!(matches!(action, WebhookAction::ReadWorkspaceApiKey));
    let (stage, action) = webhook_step(stage, WebhookEvent::WorkspaceApiKey(Some("ws-key".to_string())));
    match &action {
        WebhookAction::DeductCredits(e) => {
            assert_eq!(e.session_token, "ws-key");
            assert_eq!(e.workspace_uuid, "0xd857721b5385e27d");
            assert_eq!(e.client_address, "0x5aeda56215b167893e80b4fe645ba6d5bab767de");
            assert_eq!(e.credits_delta_cents, 2);
            assert_eq!(
                e.get_data(),
                object(vec![
                    ("session_token", text("ws-key")),
                    ("workspace_uuid", text("0xd857721b5385e27d")),
                    ("client_address", text("0x5aeda56215b167893e80b4fe645ba6d5bab767de")),
                    ("credits_delta_cents", JsonValue::Number(JsonNumber::PosInt(2))),
                ])
            );
        }
        _ => panic!("expected a deduction"),
    }
    let (stage, action) = webhook_step(stage, WebhookEvent::CreditsDeducted(Some(deduction_reply())));
    assert!(matches!(stage, WebhookStage::Done));
    assert!(matches!(action, WebhookAction::Respond(WebhookReply::Served)));
}

#[test]
fn refusals_along_the_way() {
    let begin = || webhook_begin(&object(vec![("indiefuture_client_api_key", text("ck"))])).0;
    let (_, a) = webhook_step(begin(), WebhookEvent::CreditsAmount(Some(24)));
    assert!(matches!(a, WebhookAction::Respond(WebhookReply::InsufficientCredits)));
    let (_, a) = webhook_step(begin(), WebhookEvent::CreditsAmount(None));
    assert!(matches!(a, WebhookAction::Respond(WebhookReply::InsufficientCredits)));
    let (s, _) = webhook_step(begin(), WebhookEvent::CreditsAmount(Some(100)));
    let (_, a) = webhook_step(s, WebhookEvent::ClientData(None));
    assert!(matches!(a, WebhookAction::Respond(WebhookReply::ClientDataUnavailable)));
    let (s, _) = webhook_step(begin(), WebhookEvent::CreditsAmount(Some(100)));
    let (s, _) = webhook_step(s, WebhookEvent::ClientData(Some(record())));
    let (_, a) = webhook_step(s, WebhookEvent::WorkspaceApiKey(None));
    assert!(matches!(a, WebhookAction::Respond(WebhookReply::Misconfiguration)));
    let (s, _) = webhook_step(begin(), WebhookEvent::CreditsAmount(Some(100)));
    let (s, _) = webhook_step(s, WebhookEvent::ClientData(Some(record())));
    let (s, _) = webhook_step(s, WebhookEvent::WorkspaceApiKey(Some("k".to_string())));
    let (_, a) = webhook_step(s, WebhookEvent::CreditsDeducted(None));
    assert!(matches!(a, WebhookAction::Respond(WebhookReply::DeductionFailed)));
}

fn agent_body(message: JsonValue, data: JsonValue) -> JsonValue {
    object(vec![
        ("input_prompt", JsonValue::Null),
        ("message", message),
        ("structured_data", data),
        ("tool_call", JsonValue::Null),
    ])
}

#[test]
fn reply_statuses_and_bodies() {
    let r = WebhookReply::MissingClientApiKey;
    assert_eq!(r.status_code(), 200);
    assert_eq!(
        r.body(),
        agent_body(
            text("missing client_api_key for workspace 0xd857721b5385e27d"),
            object(vec![("error", text("MissingClientApiKey")), ("workspace_uuid", text("0xd857721b5385e27d"))])
        )
    );
    let r = WebhookReply::InsufficientCredits;
    assert_eq!(r.status_code(), 200);
    assert_eq!(
        r.body(),
        agent_body(
            text("InsufficientCreditsForWorkspace 0xd857721b5385e27d"),
            object(vec![
                ("error", text("InsufficientCreditsForWorkspace")),
                ("workspace_uuid", text("0xd857721b5385e27d")),
            ])
        )
    );
    let r = WebhookReply::Served;
    assert_eq!(r.status_code(), 200);
    assert_eq!(r.body(), agent_body(JsonValue::Null, object(vec![("data", text(" Heres the special data!!"))])));
    assert_eq!(WebhookReply::ClientDataUnavailable.status_code(), 500);
    assert_eq!(WebhookReply::ClientDataUnavailable.body(), object(vec![("error", text("Could not get client data"))]));
    assert_eq!(WebhookReply::Misconfiguration.body(), object(vec![("error", text("Misconfiguration"))]));
    assert_eq!(WebhookReply::DeductionFailed.status_code(), 500);
    assert_eq!(WebhookReply::DeductionFailed.body(), object(vec![("error", text("Unable to deduct credits "))]));
    assert!(WebhookReply::DeductionFailed.agent_message().is_none());
}

#[test]
fn credits_read_from_the_relay_reply() {
    let reply = AuthResponse {
        success: true,
        data: Some(GetApiCreditsOutput { credits: DomainDecimal { negative: false, magnitude: 30, scale: 2 }, credits_cents: 30 }),
        error: None,
    };
    assert_eq!(credits_cents_from_response(Some(reply)), Some(30));
    let empty: AuthResponse<GetApiCreditsOutput> = AuthResponse { success: false, data: None, error: Some("no".to_string()) };
    assert_eq!(credits_cents_from_response(Some(empty)), None);
    assert_eq!(credits_cents_from_response(None), None);
    assert_eq!(AuthResponse::into_data(Some(AuthResponse { success: true, data: Some(5), error: None })), Some(5));
    assert_eq!(AuthResponse::<u8>::into_data(None), None);
}

#[test]
fn web_controller_bodies() {
    assert_eq!(WebControllerSuccessResponse.to_json(), object(vec![("success", JsonValue::Bool(true))]));
    let e = WebControllerErrorResponse::new("boom");
    assert_eq!(e.error_message, "boom");
    assert_eq!(e.to_json(), object(vec![("error_message", text("boom"))]));
}

#[test]
fn domain_bytes_roundtrip() {
    let b = DomainBytes::from_sql_bytes(&[0xde, 0xad, 0xbe, 0xef]);
    assert_eq!(b, DomainBytes(vec![0xde, 0xad, 0xbe, 0xef]));
    assert_eq!(b.as_sql_bytes(), &[0xde, 0xad, 0xbe, 0xef]);
}
