pub mod chatbot;
pub mod conversation;
pub mod lexicon;
pub mod localization;
pub mod metrics_manager;
pub mod report_generator;
pub mod session_manager;
pub mod store_model;
pub mod text;
pub mod theorems;
pub mod topics;
