use vstd::prelude::*;
use vstd::string::StringExecFns;
use crate::errors::AiServiceError;
use crate::gemini_request::GeminiRequest;

verus! {

/// What is asked of the generative backend: an instruction and its context.
pub struct AiRequest {
    pub prompt: String,
    pub context: String,
}

/// What the generative backend answered, reduced to one text.
pub struct AiResponse {
    pub content: String,
}

/// A generative backend; hosts implement it for their transport.
pub trait AiService {
    /// Sends one request and returns the backend's answer.
    fn process_request(&self, request: AiRequest) -> Result<AiResponse, AiServiceError>;
}

/// The backend request body an [`AiRequest`] becomes: one text fragment
/// holding the prompt, a line break, and the context.
pub fn gemini_request_for(request: &AiRequest) -> (r: GeminiRequest)
    ensures
        r.contents@.len() == 1,
        r.contents@[0].parts@.len() == 1,
        r.contents@[0].parts@[0].text@ == request.prompt@ + "\n"@ + request.context@,
{
    let mut text = request.prompt.clone();
    text.append("\n");
    text.append(request.context.as_str());
    proof {
        assert(text@ =~= request.prompt@ + "\n"@ + request.context@);
    }
    GeminiRequest::new(text)
}

} // verus!
