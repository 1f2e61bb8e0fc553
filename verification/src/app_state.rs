use vstd::prelude::*;
use std::sync::Arc;
use crate::ai::ai_engine::AiEngineData;

verus! {

/// What every request handler shares.
pub struct AppState {
    pub ai_engine_data: Arc<AiEngineData>,
}

} // verus!
