//! Pieces shared by every API variant.
pub mod api_request;
pub mod settings;
