use vstd::prelude::*;
use crate::util::json_extract::{JsonModel, JsonValue, entries_model, lemma_entries_model};
use crate::util::text::owned;

verus! {

/// The body of a request that succeeded: `{"success": true}`.
#[derive(Debug)]
pub struct WebControllerSuccessResponse;

/// The body of a request that failed, with a message.
#[derive(Debug)]
pub struct WebControllerErrorResponse {
    pub error_message: String,
}

/// A session the auth service hands out.
#[derive(Debug)]
pub struct AuthSessionOutput {
    pub public_address: String,
    pub session_token: String,
    pub expires_at: i64,
}

/// The envelope of the relay's replies.
#[derive(Debug)]
pub struct AuthResponse<T> {
    pub success: bool,
    pub data: Option<T>,
    pub error: Option<String>,
}

impl WebControllerSuccessResponse {
    pub fn to_json(&self) -> (r: JsonValue)
        ensures
            r@ == JsonModel::Object(seq![("success"@, JsonModel::Bool(true))]),
    {
        let entries = vec![(owned("success"), JsonValue::Bool(true))];
        proof {
            lemma_entries_model(entries@);
            assert(entries_model(entries@) =~= seq![("success"@, JsonModel::Bool(true))]);
        }
        JsonValue::Object(entries)
    }
}

impl WebControllerErrorResponse {
    pub fn new(input: &str) -> (r: WebControllerErrorResponse)
        ensures
            r.error_message@ == input@,
    {
        WebControllerErrorResponse { error_message: owned(input) }
    }

    pub fn to_json(&self) -> (r: JsonValue)
        ensures
            r@ == JsonModel::Object(seq![("error_message"@, JsonModel::Text(self.error_message@))]),
    {
        let entries = vec![(owned("error_message"), JsonValue::Text(self.error_message.clone()))];
        proof {
            lemma_entries_model(entries@);
            assert(entries_model(entries@) =~= seq![
                ("error_message"@, JsonModel::Text(self.error_message@)),
            ]);
        }
        JsonValue::Object(entries)
    }
}

impl<T> AuthResponse<T> {
    /// The data of a reply that came and could be read; nothing otherwise.
    pub fn into_data(response: Option<AuthResponse<T>>) -> (r: Option<T>)
        ensures
            r == match response {
                Some(res) => res.data,
                None => None,
            },
    {
        match response {
            Some(res) => res.data,
            None => None,
        }
    }
}

} // verus!
