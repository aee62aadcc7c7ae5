use vstd::prelude::*;
use vstd::string::StringExecFns;
use base64::Engine;
use crate::errors::RssSummaryError;

verus! {

/// The bytes a text decodes to under standard-alphabet base64, if it is
/// well-formed.
pub uninterp spec fn b64_standard_decoded(s: Seq<char>) -> Option<Seq<u8>>;

/// The text a byte sequence decodes to, if it is well-formed UTF-8.
pub uninterp spec fn utf8_decoded(bytes: Seq<u8>) -> Option<Seq<char>>;

/// Relies on base64's STANDARD engine: decoding is a function of the input
/// text alone and succeeds exactly on well-formed standard-alphabet base64.
#[verifier::external_body]
fn base64_decode(s: &str) -> (r: Result<Vec<u8>, String>)
    ensures
        r is Ok <==> b64_standard_decoded(s@) is Some,
        r matches Ok(v) ==> b64_standard_decoded(s@) == Some(v@),
{
    base64::engine::general_purpose::STANDARD.decode(s).map_err(|e| e.to_string())
}

/// Relies on String::from_utf8: succeeds exactly on well-formed UTF-8, and
/// returns the text those bytes spell.
#[verifier::external_body]
fn utf8_to_string(bytes: Vec<u8>) -> (r: Result<String, String>)
    ensures
        r is Ok <==> utf8_decoded(bytes@) is Some,
        r matches Ok(s) ==> utf8_decoded(bytes@) == Some(s@),
{
    String::from_utf8(bytes).map_err(|e| e.to_string())
}

/// The prompt template a configured setting stands for: the text behind its
/// base64 encoding, when both decodings succeed.
pub open spec fn decoded_config(s: Seq<char>) -> Option<Seq<char>> {
    match b64_standard_decoded(s) {
        None => None,
        Some(bytes) => utf8_decoded(bytes),
    }
}

/// Decodes the base64-encoded prompt setting. An absent setting is reported
/// as no prompt; a present one must be well-formed base64 spelling
/// well-formed UTF-8, and each failure is a distinct error.
pub fn get_decoded_config(encoded: Option<&String>) -> (r: Result<Option<String>, RssSummaryError>)
    ensures
        encoded is None ==> (r matches Ok(c) && c is None),
        encoded matches Some(s) ==> (b64_standard_decoded(s@) is None ==> (r matches Err(e)
            && e is Base64Error)),
        encoded matches Some(s) ==> (decoded_config(s@) matches Some(t) ==> (r matches Ok(c)
            && c matches Some(p) && p@ == t)),
        encoded matches Some(s) ==> ((b64_standard_decoded(s@) is Some && decoded_config(s@)
            is None) ==> (r matches Err(e) && e is Utf8Error)),
{
    let encoded_config = match encoded {
        Some(s) => s,
        None => return Ok(None),
    };
    let decoded = match base64_decode(encoded_config.as_str()) {
        Ok(v) => v,
        Err(m) => return Err(RssSummaryError::Base64Error(m)),
    };
    let config_str = match utf8_to_string(decoded) {
        Ok(s) => s,
        Err(m) => return Err(RssSummaryError::Utf8Error(m)),
    };
    Ok(Some(config_str))
}

/// Validates the configured backend address: a missing or empty setting is a
/// distinct, early failure; anything else passes through unchanged.
pub fn get_gemini_api_url(env_value: Option<String>) -> (r: Result<String, RssSummaryError>)
    ensures
        env_value matches Some(u) ==> (u@.len() > 0 ==> (r matches Ok(x) && x == u)),
        env_value is None ==> (r matches Err(e) && e matches RssSummaryError::EnvVarError(m) && m@
            == "GEMINI_API_URL is empty"@),
        env_value matches Some(u) ==> (u@.len() == 0 ==> (r matches Err(e)
            && e matches RssSummaryError::EnvVarError(m) && m@ == "GEMINI_API_URL is empty"@)),
{
    match env_value {
        Some(url) => {
            if url.as_str().is_empty() {
                Err(
                    RssSummaryError::EnvVarError(String::from_str("GEMINI_API_URL is empty")),
                )
            } else {
                Ok(url)
            }
        },
        None => Err(RssSummaryError::EnvVarError(String::from_str("GEMINI_API_URL is empty"))),
    }
}

} // verus!
