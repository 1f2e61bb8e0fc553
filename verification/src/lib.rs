pub mod ai;
pub mod app_state;
pub mod controllers;
pub mod tools;
pub mod types;
pub mod util;
