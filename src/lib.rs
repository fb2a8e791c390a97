//! Request handling for a dream-analysis endpoint: method dispatch, body
//! validation, inference-payload assembly and response shaping, each stated
//! as a contract over plain values.

pub mod json;
pub mod http;
pub mod handler;
