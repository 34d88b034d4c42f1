//! The closed error taxonomy: the sixteen documented API error codes,
//! the classifier that reads them out of a raw response, and the
//! outcome type every call path reports its failures through.
use vstd::prelude::*;
use vstd::string::StringExecFns;

use crate::deserializer::DecodeError;
use crate::json::JsonValue;
use crate::json::json_of;
use crate::json::lookup_field;
use crate::json::obj_lookup;
use crate::json::parse_json;
use crate::text::all_digits;
use crate::text::digits_only;
use crate::text::digits_val;
use crate::text::parse_usize_text;
use crate::text::strip_leading_plus;
use crate::text::uint_text_val;

verus! {

/// A failure condition the API's published reference documents, each
/// bound to a fixed numeric code.
#[derive(Debug, Clone, PartialEq, Eq)]
pub enum DocumentedErrorCode {
    /// 30 — unknown error.
    Unknown,
    /// 100 — authorization error, wrong key.
    Key,
    /// 105 — access from a wrong IP, or a wrong address format.
    Ip,
    /// 110 — wrong method.
    Method,
    /// 200 — wrong proxy quantity.
    Count,
    /// 210 — wrong period.
    Period,
    /// 220 — wrong country.
    Country,
    /// 230 — malformed list of proxy numbers.
    Ids,
    /// 240 — wrong proxy version.
    Version,
    /// 250 — malformed technical description.
    Description,
    /// 260 — wrong proxy type.
    Type,
    /// 270 — wrong proxy port.
    Port,
    /// 280 — malformed proxy string for the check method.
    ProxyString,
    /// 300 — more proxies requested than the service holds.
    ActiveProxyAllow,
    /// 400 — zero or low balance.
    NoMoney,
    /// 404 — the requested item was not found.
    NotFound,
    /// 410 — the computed cost is not positive.
    Price,
}

impl DocumentedErrorCode {
    /// The fixed code-to-meaning table.
    pub open spec fn spec_from_numeric_code(code: usize) -> Option<DocumentedErrorCode> {
        if code == 30 {
            Some(DocumentedErrorCode::Unknown)
        } else if code == 100 {
            Some(DocumentedErrorCode::Key)
        } else if code == 105 {
            Some(DocumentedErrorCode::Ip)
        } else if code == 110 {
            Some(DocumentedErrorCode::Method)
        } else if code == 200 {
            Some(DocumentedErrorCode::Count)
        } else if code == 210 {
            Some(DocumentedErrorCode::Period)
        } else if code == 220 {
            Some(DocumentedErrorCode::Country)
        } else if code == 230 {
            Some(DocumentedErrorCode::Ids)
        } else if code == 240 {
            Some(DocumentedErrorCode::Version)
        } else if code == 250 {
            Some(DocumentedErrorCode::Description)
        } else if code == 260 {
            Some(DocumentedErrorCode::Type)
        } else if code == 270 {
            Some(DocumentedErrorCode::Port)
        } else if code == 280 {
            Some(DocumentedErrorCode::ProxyString)
        } else if code == 300 {
            Some(DocumentedErrorCode::ActiveProxyAllow)
        } else if code == 400 {
            Some(DocumentedErrorCode::NoMoney)
        } else if code == 404 {
            Some(DocumentedErrorCode::NotFound)
        } else if code == 410 {
            Some(DocumentedErrorCode::Price)
        } else {
            None
        }
    }

    /// Looks a numeric code up in the documented table.
    pub fn from_numeric_code(code: usize) -> (r: Option<DocumentedErrorCode>)
        ensures
            r == DocumentedErrorCode::spec_from_numeric_code(code),
    {
        match code {
            30 => Some(DocumentedErrorCode::Unknown),
            100 => Some(DocumentedErrorCode::Key),
            105 => Some(DocumentedErrorCode::Ip),
            110 => Some(DocumentedErrorCode::Method),
            200 => Some(DocumentedErrorCode::Count),
            210 => Some(DocumentedErrorCode::Period),
            220 => Some(DocumentedErrorCode::Country),
            230 => Some(DocumentedErrorCode::Ids),
            240 => Some(DocumentedErrorCode::Version),
            250 => Some(DocumentedErrorCode::Description),
            260 => Some(DocumentedErrorCode::Type),
            270 => Some(DocumentedErrorCode::Port),
            280 => Some(DocumentedErrorCode::ProxyString),
            300 => Some(DocumentedErrorCode::ActiveProxyAllow),
            400 => Some(DocumentedErrorCode::NoMoney),
            404 => Some(DocumentedErrorCode::NotFound),
            410 => Some(DocumentedErrorCode::Price),
            _ => None,
        }
    }

    pub open spec fn spec_message(&self) -> Seq<char> {
        match self {
            DocumentedErrorCode::Unknown => "Unknown error"@,
            DocumentedErrorCode::Key => "Authorization error, wrong key"@,
            DocumentedErrorCode::Ip => "The API was accessed from an incorrect IP (if the restriction is enabled), or an incorrect IP address format"@,
            DocumentedErrorCode::Method => "Wrong method"@,
            DocumentedErrorCode::Count => "Wrong proxies quantity, wrong amount or no quantity input"@,
            DocumentedErrorCode::Period => "Period error, wrong period input (days) or no input"@,
            DocumentedErrorCode::Country => "Country error, wrong country input (iso2 for country input) or no input"@,
            DocumentedErrorCode::Ids => "Error of the list of the proxy numbers. Proxy numbers have to divided with comas"@,
            DocumentedErrorCode::Version => "The proxy version is specified incorrectly"@,
            DocumentedErrorCode::Description => "Technical description error"@,
            DocumentedErrorCode::Type => "Proxy type (protocol) error. Incorrect or missing"@,
            DocumentedErrorCode::Port => "Proxy port error, incorrectly specified or missing"@,
            DocumentedErrorCode::ProxyString => "Proxy string error for the check method, incorrectly specified"@,
            DocumentedErrorCode::ActiveProxyAllow => "Proxy amount error. Appears after attempt of purchase of more proxies than available on the service"@,
            DocumentedErrorCode::NoMoney => "Balance error. Zero or low balance on your account"@,
            DocumentedErrorCode::NotFound => "Element error. The requested item was not found"@,
            DocumentedErrorCode::Price => "Error calculating the cost. The total cost is less than or equal to zero"@,
        }
    }

    /// The documented meaning of the code.
    pub fn message(&self) -> (r: &'static str)
        ensures
            r@ == self.spec_message(),
    {
        match self {
            DocumentedErrorCode::Unknown => "Unknown error",
            DocumentedErrorCode::Key => "Authorization error, wrong key",
            DocumentedErrorCode::Ip => "The API was accessed from an incorrect IP (if the restriction is enabled), or an incorrect IP address format",
            DocumentedErrorCode::Method => "Wrong method",
            DocumentedErrorCode::Count => "Wrong proxies quantity, wrong amount or no quantity input",
            DocumentedErrorCode::Period => "Period error, wrong period input (days) or no input",
            DocumentedErrorCode::Country => "Country error, wrong country input (iso2 for country input) or no input",
            DocumentedErrorCode::Ids => "Error of the list of the proxy numbers. Proxy numbers have to divided with comas",
            DocumentedErrorCode::Version => "The proxy version is specified incorrectly",
            DocumentedErrorCode::Description => "Technical description error",
            DocumentedErrorCode::Type => "Proxy type (protocol) error. Incorrect or missing",
            DocumentedErrorCode::Port => "Proxy port error, incorrectly specified or missing",
            DocumentedErrorCode::ProxyString => "Proxy string error for the check method, incorrectly specified",
            DocumentedErrorCode::ActiveProxyAllow => "Proxy amount error. Appears after attempt of purchase of more proxies than available on the service",
            DocumentedErrorCode::NoMoney => "Balance error. Zero or low balance on your account",
            DocumentedErrorCode::NotFound => "Element error. The requested item was not found",
            DocumentedErrorCode::Price => "Error calculating the cost. The total cost is less than or equal to zero",
        }
    }

    /// A parsed body carries a documented code when it is an object
    /// whose `error_id` member is a JSON number written as plain
    /// digits, in range, and listed in the documented table.
    pub open spec fn spec_code_of_json(v: JsonValue) -> Option<DocumentedErrorCode> {
        match v {
            JsonValue::Object(fields) => match obj_lookup(fields@, "error_id"@) {
                Some(JsonValue::Number(t)) => if t@.len() > 0 && all_digits(t@) && digits_val(t@)
                    <= usize::MAX as nat {
                    DocumentedErrorCode::spec_from_numeric_code(digits_val(t@) as usize)
                } else {
                    None
                },
                _ => None,
            },
            _ => None,
        }
    }

    /// What `parse_from_response_body` finds in raw body text.
    pub open spec fn spec_parse_from_response_body(s: Seq<char>) -> Option<DocumentedErrorCode> {
        match json_of(s) {
            Some(v) => DocumentedErrorCode::spec_code_of_json(v),
            None => None,
        }
    }

    /// Reads a documented error code out of an already parsed body.
    pub fn code_of_json(v: &JsonValue) -> (r: Option<DocumentedErrorCode>)
        ensures
            r == DocumentedErrorCode::spec_code_of_json(*v),
    {
        match v {
            JsonValue::Object(fields) => match lookup_field(fields, "error_id") {
                Some(member) => match member {
                    JsonValue::Number(t) => {
                        if digits_only(t.as_str()) {
                            proof {
                                assert(t@[0] != '+');
                                assert(strip_leading_plus(t@) == t@);
                            }
                            match parse_usize_text(t.as_str()) {
                                Some(code) => DocumentedErrorCode::from_numeric_code(code),
                                None => None,
                            }
                        } else {
                            None
                        }
                    },
                    _ => None,
                },
                None => None,
            },
            _ => None,
        }
    }

    /// Reads a documented error code out of raw body text: the body
    /// must be a JSON object whose `error_id` is a documented number.
    pub fn parse_from_response_body(body: &str) -> (r: Option<DocumentedErrorCode>)
        ensures
            r == DocumentedErrorCode::spec_parse_from_response_body(body@),
    {
        match parse_json(body) {
            Some(v) => DocumentedErrorCode::code_of_json(&v),
            None => None,
        }
    }
}

/// Every way a call can fail, one variant per outcome of the taxonomy.
#[derive(Debug)]
pub enum ApiError {
    /// The body carried a documented error code.
    DocumentedError { code: DocumentedErrorCode, response: String },
    /// The transport failed before a response was obtained.
    TransportError { message: String },
    /// The API throttled the call.
    TooManyRequests { response: String },
    /// A failing status with an unrecognized body.
    UnknownError { response: String },
    /// A success status whose body does not fit the expected shape.
    SuccessButCannotParse { source: DecodeError, response: String },
}

impl ApiError {
    pub open spec fn spec_message(&self) -> Seq<char> {
        match self {
            ApiError::DocumentedError { code, response } => "Documented error occurred: "@
                + code.spec_message() + ", response body: "@ + response@,
            ApiError::TransportError { message } => "Transport error: "@ + message@,
            ApiError::TooManyRequests { response } => "Too many requests: "@ + response@,
            ApiError::UnknownError { response } => "Unknown API error: "@ + response@,
            ApiError::SuccessButCannotParse { source, response } => "Success response but cannot parse body: "@
                + source.spec_message() + ", response: "@ + response@,
        }
    }

    /// Human-readable description of the outcome.
    pub fn message(&self) -> (r: String)
        ensures
            r@ == self.spec_message(),
    {
        let mut out = String::new();
        match self {
            ApiError::DocumentedError { code, response } => {
                out.append("Documented error occurred: ");
                out.append(code.message());
                out.append(", response body: ");
                out.append(response.as_str());
            },
            ApiError::TransportError { message } => {
                out.append("Transport error: ");
                out.append(message.as_str());
            },
            ApiError::TooManyRequests { response } => {
                out.append("Too many requests: ");
                out.append(response.as_str());
            },
            ApiError::UnknownError { response } => {
                out.append("Unknown API error: ");
                out.append(response.as_str());
            },
            ApiError::SuccessButCannotParse { source, response } => {
                out.append("Success response but cannot parse body: ");
                out.append(source.message());
                out.append(", response: ");
                out.append(response.as_str());
            },
        }
        proof {
            assert(out@ =~= self.spec_message());
        }
        out
    }
}

/// Decides the error outcome of a completed HTTP exchange before any
/// success-path decoding: the throttling status wins, then a
/// documented code in the body — whatever the status, success
/// included — then any failing status.  A success status with no
/// documented code yields no error here.
pub fn classify_error(status: u16, body: &String) -> (r: Option<ApiError>)
    ensures
        status == 429 ==> (r matches Some(ApiError::TooManyRequests { response }) && response@
            == body@),
        status != 429 ==> match DocumentedErrorCode::spec_parse_from_response_body(body@) {
            Some(c) => (r matches Some(ApiError::DocumentedError { code, response }) && code == c
                && response@ == body@),
            None => if !(200 <= status < 300) {
                (r matches Some(ApiError::UnknownError { response }) && response@ == body@)
            } else {
                r is None
            },
        },
{
    if status == 429 {
        return Some(ApiError::TooManyRequests { response: body.clone() });
    }
    match DocumentedErrorCode::parse_from_response_body(body.as_str()) {
        Some(code) => {
            return Some(ApiError::DocumentedError { code, response: body.clone() });
        },
        None => {},
    }
    if !(200 <= status && status < 300) {
        return Some(ApiError::UnknownError { response: body.clone() });
    }
    None
}

} // verus!
