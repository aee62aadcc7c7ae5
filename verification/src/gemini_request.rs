use vstd::prelude::*;

verus! {

/// One text fragment of an outbound backend request.
pub struct Part {
    pub text: String,
}

/// One content block of an outbound backend request.
pub struct Content {
    pub parts: Vec<Part>,
}

/// The body of an outbound backend request.
pub struct GeminiRequest {
    pub contents: Vec<Content>,
}

impl GeminiRequest {
    /// A request carrying a single text fragment.
    pub fn new(text: String) -> (r: Self)
        ensures
            r.contents@.len() == 1,
            r.contents@[0].parts@.len() == 1,
            r.contents@[0].parts@[0].text == text,
    {
        Self { contents: vec![Content { parts: vec![Part { text }] }] }
    }
}

} // verus!
