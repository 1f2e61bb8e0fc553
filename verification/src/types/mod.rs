pub mod domains;
pub mod evm_types;
pub mod indiefuture_types;
pub mod openai_completion;
pub mod selected_record;
