//! Responses of the language-model inference pipeline.

use vstd::prelude::*;

verus! {

/// The response to an inference request.
#[derive(Debug, Clone)]
pub struct InferenceResponse {
    /// The request id this response corresponds to.
    pub id: u64,
    /// The generated text (empty on error).
    pub text: String,
    /// Error message if the request failed.
    pub error: Option<String>,
}

impl InferenceResponse {
    /// The response to request `id` given the generation's outcome: its
    /// text, or no text and the error's message.
    pub fn from_result(id: u64, outcome: Result<String, String>) -> (r: Self)
        ensures
            r.id == id,
            match outcome {
                Ok(text) => r.text == text && r.error is None,
                Err(e) => r.text@ == Seq::<char>::empty() && r.error == Some(e),
            },
    {
        match outcome {
            Ok(text) => InferenceResponse { id, text, error: None },
            Err(e) => InferenceResponse { id, text: String::new(), error: Some(e) },
        }
    }
}

} // verus!
