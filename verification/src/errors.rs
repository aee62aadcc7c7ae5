use vstd::prelude::*;
use vstd::string::StringExecFns;

verus! {

/// A prefix followed by a detail message.
pub(crate) fn prefixed(prefix: &str, detail: &str) -> (r: String)
    ensures
        r@ == prefix@ + detail@,
{
    let mut m = String::from_str(prefix);
    m.append(detail);
    m
}

/// A failure while producing a structured summary.
#[derive(Debug)]
pub enum RssSummaryError {
    HttpError(String),
    EnvVarError(String),
    JsonError(String),
    Base64Error(String),
    Utf8Error(String),
    SummaryError(String),
}

impl RssSummaryError {
    /// A readable description of the failure.
    pub fn message(&self) -> (r: String)
        ensures
            self matches RssSummaryError::HttpError(e) ==> r@ == "HTTP error: "@ + e@,
            self matches RssSummaryError::EnvVarError(e) ==> r@ == "Environment variable error: "@
                + e@,
            self matches RssSummaryError::JsonError(e) ==> r@ == "JSON error: "@ + e@,
            self matches RssSummaryError::Base64Error(e) ==> r@ == "Base64 error: "@ + e@,
            self matches RssSummaryError::Utf8Error(e) ==> r@ == "UTF-8 error: "@ + e@,
            self matches RssSummaryError::SummaryError(e) ==> r@ == "Summary error: "@ + e@,
    {
        match self {
            RssSummaryError::HttpError(e) => prefixed("HTTP error: ", e.as_str()),
            RssSummaryError::EnvVarError(e) => prefixed("Environment variable error: ", e.as_str()),
            RssSummaryError::JsonError(e) => prefixed("JSON error: ", e.as_str()),
            RssSummaryError::Base64Error(e) => prefixed("Base64 error: ", e.as_str()),
            RssSummaryError::Utf8Error(e) => prefixed("UTF-8 error: ", e.as_str()),
            RssSummaryError::SummaryError(e) => prefixed("Summary error: ", e.as_str()),
        }
    }
}

/// A failure while talking to the generative backend.
#[derive(Debug)]
pub enum AiServiceError {
    RequestError(String),
    ResponseError(String),
    ParseError(String),
}

impl AiServiceError {
    /// A readable description of the failure.
    pub fn message(&self) -> (r: String)
        ensures
            self matches AiServiceError::RequestError(e) ==> r@ == "AI request error: "@ + e@,
            self matches AiServiceError::ResponseError(e) ==> r@ == "AI response error: "@ + e@,
            self matches AiServiceError::ParseError(e) ==> r@ == "AI parse error: "@ + e@,
    {
        match self {
            AiServiceError::RequestError(e) => prefixed("AI request error: ", e.as_str()),
            AiServiceError::ResponseError(e) => prefixed("AI response error: ", e.as_str()),
            AiServiceError::ParseError(e) => prefixed("AI parse error: ", e.as_str()),
        }
    }
}

/// A failure while obtaining or reading the feed.
#[derive(Debug)]
pub enum RssRepositoryError {
    FetchError(String),
    ParseError(String),
}

impl RssRepositoryError {
    /// A readable description of the failure.
    pub fn message(&self) -> (r: String)
        ensures
            self matches RssRepositoryError::FetchError(e) ==> r@ == "Failed to fetch RSS feed: "@
                + e@,
            self matches RssRepositoryError::ParseError(e) ==> r@ == "Failed to parse RSS feed: "@
                + e@,
    {
        match self {
            RssRepositoryError::FetchError(e) => prefixed("Failed to fetch RSS feed: ", e.as_str()),
            RssRepositoryError::ParseError(e) => prefixed("Failed to parse RSS feed: ", e.as_str()),
        }
    }
}

} // verus!
