pub mod backend_server_error;
pub mod header_map;
pub mod header_map_preset;
pub mod http_request;
pub mod json_extract;
pub mod openai;
pub mod text;
pub mod json_debug;
