use vstd::prelude::*;

verus! {

/// One text fragment of a backend answer.
pub struct Part {
    pub text: String,
}

/// Ghost image of a [`Part`].
pub ghost struct PartView {
    pub text: Seq<char>,
}

impl View for Part {
    type V = PartView;

    open spec fn view(&self) -> PartView {
        PartView { text: self.text@ }
    }
}

/// The content of one candidate answer: its fragments and the author role.
pub struct Content {
    pub parts: Vec<Part>,
    pub role: String,
}

/// Ghost image of a [`Content`].
pub ghost struct ContentView {
    pub parts: Seq<PartView>,
    pub role: Seq<char>,
}

impl View for Content {
    type V = ContentView;

    open spec fn view(&self) -> ContentView {
        ContentView { parts: self.parts@.map_values(|p: Part| p@), role: self.role@ }
    }
}

/// One candidate answer of the backend.
pub struct Candidate {
    pub content: Content,
    pub finish_reason: String,
}

/// Ghost image of a [`Candidate`].
pub ghost struct CandidateView {
    pub content: ContentView,
    pub finish_reason: Seq<char>,
}

impl View for Candidate {
    type V = CandidateView;

    open spec fn view(&self) -> CandidateView {
        CandidateView { content: self.content@, finish_reason: self.finish_reason@ }
    }
}

/// A backend answer: an ordered list of candidate answers.
pub struct GeminiResponse {
    pub candidates: Vec<Candidate>,
}

/// Ghost image of a [`GeminiResponse`].
pub ghost struct GeminiResponseView {
    pub candidates: Seq<CandidateView>,
}

impl View for GeminiResponse {
    type V = GeminiResponseView;

    open spec fn view(&self) -> GeminiResponseView {
        GeminiResponseView { candidates: self.candidates@.map_values(|c: Candidate| c@) }
    }
}

} // verus!
