//! Classification of the outcome of one dictionary request: the three
//! failure stages the operation distinguishes, and the parsing of a
//! successful response body as JSON.
use vstd::prelude::*;

verus! {

#[verifier::external_type_specification]
#[verifier::external_body]
pub struct ExValue(serde_json::Value);

/// What `serde_json::from_str::<Value>` returns for a given input:
/// `None` when the input parses as a JSON document, otherwise the
/// parser's error message.
pub uninterp spec fn json_parse_error(s: Seq<char>) -> Option<Seq<char>>;

/// Relies on `serde_json::from_str::<Value>`: parses the whole input as
/// one JSON document, succeeding exactly on valid documents; both the
/// outcome and the error message depend on the input alone.
#[verifier::external_body]
fn parse_json(s: &str) -> (r: Result<serde_json::Value, String>)
    ensures
        match r {
            Ok(_) => json_parse_error(s@) is None,
            Err(m) => json_parse_error(s@) == Some(m@),
        },
{
    match serde_json::from_str::<serde_json::Value>(s) {
        Ok(v) => Ok(v),
        Err(e) => Err(e.to_string()),
    }
}

/// What the transport hands back for one request: the response body
/// read in full, or a failure at one of the two earlier stages.
pub enum TransportOutcome {
    /// The GET succeeded and the whole body was read as text.
    Response(String),
    /// The GET itself failed; the transport's error text.
    SendFailure(String),
    /// The GET succeeded but reading the body failed; the error text.
    ReadFailure(String),
}

/// Why a lookup failed, by the stage that failed first; each variant
/// carries the underlying error's text.
pub enum LookupError {
    Network(String),
    BodyRead(String),
    ParseFailure(String),
}

impl LookupError {
    /// The underlying error text, as the caller-facing description.
    pub fn message(self) -> (r: String)
        ensures
            match self {
                LookupError::Network(m) => r@ == m@,
                LookupError::BodyRead(m) => r@ == m@,
                LookupError::ParseFailure(m) => r@ == m@,
            },
    {
        match self {
            LookupError::Network(m) => m,
            LookupError::BodyRead(m) => m,
            LookupError::ParseFailure(m) => m,
        }
    }
}

/// Turns the transport's outcome for one request into the lookup's
/// result: a transport failure becomes a `Network` error, a body-read
/// failure a `BodyRead` error, and a body that is not valid JSON a
/// `ParseFailure` error, each carrying the underlying error text; a
/// body that parses is returned as its JSON value, unchanged.
pub fn lookup_outcome(t: TransportOutcome) -> (r: Result<serde_json::Value, LookupError>)
    ensures
        match t {
            TransportOutcome::SendFailure(e) => r matches Err(LookupError::Network(m)) && m@ == e@,
            TransportOutcome::ReadFailure(e) => r matches Err(LookupError::BodyRead(m)) && m@
                == e@,
            TransportOutcome::Response(body) => {
                &&& r is Ok <==> json_parse_error(body@) is None
                &&& (json_parse_error(body@) matches Some(pe) ==> r matches Err(
                    LookupError::ParseFailure(m),
                ) && m@ == pe)
            },
        },
{
    match t {
        TransportOutcome::SendFailure(e) => Err(LookupError::Network(e)),
        TransportOutcome::ReadFailure(e) => Err(LookupError::BodyRead(e)),
        TransportOutcome::Response(body) => match parse_json(body.as_str()) {
            Ok(v) => Ok(v),
            Err(m) => Err(LookupError::ParseFailure(m)),
        },
    }
}

} // verus!
