//! Request and response types of the Gemini generative-language API, with the
//! names their enumerations take on the JSON wire.

pub mod json;
pub mod types;
pub mod wire;
