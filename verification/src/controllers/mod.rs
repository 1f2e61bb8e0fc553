pub mod web_controller;
pub mod webhook_controller;
