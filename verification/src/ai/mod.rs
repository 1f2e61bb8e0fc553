pub mod action_set;
pub mod ai_engine;
