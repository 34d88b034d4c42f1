//! Typed response shapes and their decoders.  Every decoder takes a
//! parsed JSON tree, checks the fields its shape asks for — in
//! declaration order, first failure wins — and applies the tolerant
//! coercions where the API is known to mix numbers and strings.
use vstd::prelude::*;
use vstd::string::StringExecFns;

use crate::deserializer::DecodeError;
use crate::deserializer::spec_parse_proxy_status;
use crate::deserializer::spec_to_text;
use crate::deserializer::spec_to_u16;
use crate::deserializer::parse_proxy_status;
use crate::deserializer::to_string;
use crate::deserializer::to_u16;
use crate::error::ApiError;
use crate::error::DocumentedErrorCode;
use crate::error::classify_error;
use crate::ip::IpAddress;
use crate::ip::is_ipv4_text;
use crate::json::JsonValue;
use crate::json::json_of;
use crate::json::lookup_field;
use crate::json::obj_lookup;
use crate::json::parse_json;
use crate::json::str_eq;
use crate::text::all_digits;
use crate::text::digits_only;
use crate::text::digits_val;
use crate::text::parse_u64_text;
use crate::text::parse_usize_text;
use crate::text::strip_leading_plus;
use crate::value_object::Country;
use crate::value_object::Currency;
use crate::value_object::Password;
use crate::value_object::Port;
use crate::value_object::Proxy;
use crate::value_object::ProxyDescription;
use crate::value_object::ProxyId;
use crate::value_object::ProxyType;
use crate::value_object::ProxyView;
use crate::value_object::ResponseStatus;
use crate::value_object::UserBalance;
use crate::value_object::UserId;
use crate::value_object::Username;

verus! {

/// A decode result with its payload abstracted to the payload's view.
pub open spec fn result_view<T: View>(r: Result<T, DecodeError>) -> Result<T::V, DecodeError> {
    match r {
        Ok(t) => Ok(t@),
        Err(e) => Err(e),
    }
}

/// What judging a completed exchange yields, given what decoding its
/// body would yield (`decoded`, with `Syntax` standing for a body that
/// is not JSON at all): the throttling status wins, then a documented
/// code in the body — whatever the status, success included — then
/// any failing status, and only then the decode outcome.
pub open spec fn api_response_ensures<T: View>(
    status: u16,
    body: Seq<char>,
    decoded: Result<T::V, DecodeError>,
    r: Result<T, ApiError>,
) -> bool {
    &&& (status == 429 ==> (r matches Err(ApiError::TooManyRequests { response }) && response@
        == body))
    &&& (status != 429 ==> match DocumentedErrorCode::spec_parse_from_response_body(body) {
        Some(c) => (r matches Err(ApiError::DocumentedError { code, response }) && code == c
            && response@ == body),
        None => if !(200 <= status < 300) {
            (r matches Err(ApiError::UnknownError { response }) && response@ == body)
        } else {
            match decoded {
                Ok(m) => (r matches Ok(g) && g@ == m),
                Err(e) => (r matches Err(ApiError::SuccessButCannotParse { source, response })
                    && source == e && response@ == body),
            }
        },
    })
}

// ---------------------------------------------------------------------------
// Field decoders
// ---------------------------------------------------------------------------
/// A plain string member: present and a JSON string.
pub open spec fn spec_text_field(f: Seq<(String, JsonValue)>, key: Seq<char>) -> Result<
    Seq<char>,
    DecodeError,
> {
    match obj_lookup(f, key) {
        None => Err(DecodeError::MissingField),
        Some(JsonValue::Text(s)) => Ok(s@),
        Some(_) => Err(DecodeError::ExpectedString),
    }
}

fn text_field(fields: &Vec<(String, JsonValue)>, key: &str) -> (r: Result<String, DecodeError>)
    ensures
        crate::deserializer::text_result_view(r) == spec_text_field(fields@, key@),
{
    match lookup_field(fields, key) {
        None => Err(DecodeError::MissingField),
        Some(v) => match v {
            JsonValue::Text(s) => Ok(s.clone()),
            _ => Err(DecodeError::ExpectedString),
        },
    }
}

/// A plain unsigned integer member: present, a JSON number written as
/// plain digits, and within the `usize` range.
pub open spec fn spec_usize_field(f: Seq<(String, JsonValue)>, key: Seq<char>) -> Result<
    usize,
    DecodeError,
> {
    match obj_lookup(f, key) {
        None => Err(DecodeError::MissingField),
        Some(JsonValue::Number(t)) => if t@.len() > 0 && all_digits(t@) && digits_val(t@)
            <= usize::MAX as nat {
            Ok(digits_val(t@) as usize)
        } else {
            Err(DecodeError::ExpectedInteger)
        },
        Some(_) => Err(DecodeError::ExpectedInteger),
    }
}

fn usize_field(fields: &Vec<(String, JsonValue)>, key: &str) -> (r: Result<usize, DecodeError>)
    ensures
        r == spec_usize_field(fields@, key@),
{
    match lookup_field(fields, key) {
        None => Err(DecodeError::MissingField),
        Some(v) => match v {
            JsonValue::Number(t) => {
                if digits_only(t.as_str()) {
                    proof {
                        assert(t@[0] != '+');
                        assert(strip_leading_plus(t@) == t@);
                    }
                    match parse_usize_text(t.as_str()) {
                        Some(x) => Ok(x),
                        None => Err(DecodeError::ExpectedInteger),
                    }
                } else {
                    Err(DecodeError::ExpectedInteger)
                }
            },
            _ => Err(DecodeError::ExpectedInteger),
        },
    }
}

/// A plain unsigned integer member within the `u64` range.
pub open spec fn spec_u64_field(f: Seq<(String, JsonValue)>, key: Seq<char>) -> Result<
    u64,
    DecodeError,
> {
    match obj_lookup(f, key) {
        None => Err(DecodeError::MissingField),
        Some(JsonValue::Number(t)) => if t@.len() > 0 && all_digits(t@) && digits_val(t@)
            <= u64::MAX as nat {
            Ok(digits_val(t@) as u64)
        } else {
            Err(DecodeError::ExpectedInteger)
        },
        Some(_) => Err(DecodeError::ExpectedInteger),
    }
}

fn u64_field(fields: &Vec<(String, JsonValue)>, key: &str) -> (r: Result<u64, DecodeError>)
    ensures
        r == spec_u64_field(fields@, key@),
{
    match lookup_field(fields, key) {
        None => Err(DecodeError::MissingField),
        Some(v) => match v {
            JsonValue::Number(t) => {
                if digits_only(t.as_str()) {
                    proof {
                        assert(t@[0] != '+');
                        assert(strip_leading_plus(t@) == t@);
                    }
                    match parse_u64_text(t.as_str()) {
                        Some(x) => Ok(x),
                        None => Err(DecodeError::ExpectedInteger),
                    }
                } else {
                    Err(DecodeError::ExpectedInteger)
                }
            },
            _ => Err(DecodeError::ExpectedInteger),
        },
    }
}

/// A member read through the number-or-string text coercion.
pub open spec fn spec_coerced_text_field(f: Seq<(String, JsonValue)>, key: Seq<char>) -> Result<
    Seq<char>,
    DecodeError,
> {
    match obj_lookup(f, key) {
        None => Err(DecodeError::MissingField),
        Some(v) => spec_to_text(v),
    }
}

fn coerced_text_field(fields: &Vec<(String, JsonValue)>, key: &str) -> (r: Result<
    String,
    DecodeError,
>)
    ensures
        crate::deserializer::text_result_view(r) == spec_coerced_text_field(fields@, key@),
{
    match lookup_field(fields, key) {
        None => Err(DecodeError::MissingField),
        Some(v) => to_string(v),
    }
}

/// A member read through the number-or-numeric-string `u16` coercion.
pub open spec fn spec_port_field(f: Seq<(String, JsonValue)>, key: Seq<char>) -> Result<
    u16,
    DecodeError,
> {
    match obj_lookup(f, key) {
        None => Err(DecodeError::MissingField),
        Some(v) => spec_to_u16(v),
    }
}

fn port_field(fields: &Vec<(String, JsonValue)>, key: &str) -> (r: Result<u16, DecodeError>)
    ensures
        r == spec_port_field(fields@, key@),
{
    match lookup_field(fields, key) {
        None => Err(DecodeError::MissingField),
        Some(v) => to_u16(v),
    }
}

/// A member read through the `"0"` / `"1"` status coercion.
pub open spec fn spec_status_field(f: Seq<(String, JsonValue)>, key: Seq<char>) -> Result<
    bool,
    DecodeError,
> {
    match obj_lookup(f, key) {
        None => Err(DecodeError::MissingField),
        Some(v) => spec_parse_proxy_status(v),
    }
}

fn status_field(fields: &Vec<(String, JsonValue)>, key: &str) -> (r: Result<bool, DecodeError>)
    ensures
        r == spec_status_field(fields@, key@),
{
    match lookup_field(fields, key) {
        None => Err(DecodeError::MissingField),
        Some(v) => parse_proxy_status(v),
    }
}

/// A member holding a dotted-quad address as a JSON string.
pub open spec fn spec_ip_field(f: Seq<(String, JsonValue)>, key: Seq<char>) -> Result<
    Seq<char>,
    DecodeError,
> {
    match obj_lookup(f, key) {
        None => Err(DecodeError::MissingField),
        Some(JsonValue::Text(s)) => if is_ipv4_text(s@) {
            Ok(s@)
        } else {
            Err(DecodeError::InvalidIpAddress)
        },
        Some(_) => Err(DecodeError::ExpectedString),
    }
}

fn ip_field(fields: &Vec<(String, JsonValue)>, key: &str) -> (r: Result<IpAddress, DecodeError>)
    ensures
        match r {
            Ok(a) => spec_ip_field(fields@, key@) == Ok::<Seq<char>, DecodeError>(a@) && a.wf(),
            Err(e) => spec_ip_field(fields@, key@) == Err::<Seq<char>, DecodeError>(e),
        },
{
    match lookup_field(fields, key) {
        None => Err(DecodeError::MissingField),
        Some(v) => match v {
            JsonValue::Text(s) => match IpAddress::parse(s.as_str()) {
                Some(a) => Ok(a),
                None => Err(DecodeError::InvalidIpAddress),
            },
            _ => Err(DecodeError::ExpectedString),
        },
    }
}

/// A member naming a proxy protocol: the JSON string `"http"` or
/// `"socks"`.
pub open spec fn spec_protocol_field(f: Seq<(String, JsonValue)>, key: Seq<char>) -> Result<
    ProxyType,
    DecodeError,
> {
    match obj_lookup(f, key) {
        None => Err(DecodeError::MissingField),
        Some(JsonValue::Text(s)) => if s@ == "http"@ {
            Ok(ProxyType::Http)
        } else if s@ == "socks"@ {
            Ok(ProxyType::Socks5)
        } else {
            Err(DecodeError::UnknownVariant)
        },
        Some(_) => Err(DecodeError::ExpectedString),
    }
}

fn protocol_field(fields: &Vec<(String, JsonValue)>, key: &str) -> (r: Result<
    ProxyType,
    DecodeError,
>)
    ensures
        r == spec_protocol_field(fields@, key@),
{
    match lookup_field(fields, key) {
        None => Err(DecodeError::MissingField),
        Some(v) => match v {
            JsonValue::Text(s) => {
                if str_eq(s.as_str(), "http") {
                    Ok(ProxyType::Http)
                } else if str_eq(s.as_str(), "socks") {
                    Ok(ProxyType::Socks5)
                } else {
                    Err(DecodeError::UnknownVariant)
                }
            },
            _ => Err(DecodeError::ExpectedString),
        },
    }
}

// ---------------------------------------------------------------------------
// The common response header
// ---------------------------------------------------------------------------
/// The mathematical content of a `SuccessResponse`.
pub ghost struct SuccessResponseView {
    pub status: Seq<char>,
    pub user_id: Seq<char>,
    pub balance: Seq<char>,
    pub currency: Seq<char>,
}

/// The four members every success body carries, in declaration order.
pub open spec fn spec_header(f: Seq<(String, JsonValue)>) -> Result<
    SuccessResponseView,
    DecodeError,
> {
    match spec_text_field(f, "status"@) {
        Err(e) => Err(e),
        Ok(status) => match spec_text_field(f, "user_id"@) {
            Err(e) => Err(e),
            Ok(user_id) => match spec_text_field(f, "balance"@) {
                Err(e) => Err(e),
                Ok(balance) => match spec_text_field(f, "currency"@) {
                    Err(e) => Err(e),
                    Ok(currency) => Ok(SuccessResponseView { status, user_id, balance, currency }),
                },
            },
        },
    }
}

/// Decodes the four header members every response carries.
fn decode_header(fields: &Vec<(String, JsonValue)>) -> (r: Result<
    (ResponseStatus, UserId, UserBalance, Currency),
    DecodeError,
>)
    ensures
        match r {
            Ok(h) => spec_header(fields@) == Ok::<SuccessResponseView, DecodeError>(
                SuccessResponseView {
                    status: h.0@,
                    user_id: h.1@,
                    balance: h.2@,
                    currency: h.3@,
                },
            ),
            Err(e) => spec_header(fields@) == Err::<SuccessResponseView, DecodeError>(e),
        },
{
    let status = match text_field(fields, "status") {
        Ok(s) => s,
        Err(e) => {
            return Err(e);
        },
    };
    let user_id = match text_field(fields, "user_id") {
        Ok(s) => s,
        Err(e) => {
            return Err(e);
        },
    };
    let balance = match text_field(fields, "balance") {
        Ok(s) => s,
        Err(e) => {
            return Err(e);
        },
    };
    let currency = match text_field(fields, "currency") {
        Ok(s) => s,
        Err(e) => {
            return Err(e);
        },
    };
    Ok(
        (
            ResponseStatus::new(status),
            UserId::new(user_id),
            UserBalance::new(balance),
            Currency::new(currency),
        ),
    )
}

// ---------------------------------------------------------------------------
// SuccessResponse
// ---------------------------------------------------------------------------
/// The bare acknowledgement shape: header members only.
#[derive(Debug, Clone)]
pub struct SuccessResponse {
    pub status: ResponseStatus,
    pub user_id: UserId,
    pub balance: UserBalance,
    pub currency: Currency,
}

impl View for SuccessResponse {
    type V = SuccessResponseView;

    open spec fn view(&self) -> SuccessResponseView {
        SuccessResponseView {
            status: self.status@,
            user_id: self.user_id@,
            balance: self.balance@,
            currency: self.currency@,
        }
    }
}

impl SuccessResponse {
    /// What decoding a parsed body into this shape yields.
    pub open spec fn spec_from_json(v: JsonValue) -> Result<SuccessResponseView, DecodeError> {
        match v {
            JsonValue::Object(f) => spec_header(f@),
            _ => Err(DecodeError::ExpectedObject),
        }
    }

    /// Decodes a parsed body into this shape.
    pub fn from_json(v: &JsonValue) -> (r: Result<Self, DecodeError>)
        ensures
            result_view(r) == Self::spec_from_json(*v),
    {
        let fields = match v {
            JsonValue::Object(f) => f,
            _ => {
                return Err(DecodeError::ExpectedObject);
            },
        };
        let (status, user_id, balance, currency) = match decode_header(fields) {
            Ok(h) => h,
            Err(e) => {
                return Err(e);
            },
        };
        Ok(SuccessResponse { status, user_id, balance, currency })
    }

    /// What decoding raw body text into this shape yields.
    pub open spec fn spec_decoded_body(body: Seq<char>) -> Result<SuccessResponseView, DecodeError> {
        match json_of(body) {
            None => Err(DecodeError::Syntax),
            Some(v) => Self::spec_from_json(v),
        }
    }

    /// Judges a completed exchange and decodes its body into this
    /// shape: throttling first, then a documented code whatever the
    /// status, then any failing status, then the decode itself.
    pub fn from_api_response(status: u16, body: String) -> (r: Result<Self, ApiError>)
        ensures
            api_response_ensures::<Self>(status, body@, Self::spec_decoded_body(body@), r),
    {
        match classify_error(status, &body) {
            Some(e) => {
                return Err(e);
            },
            None => {},
        }
        match parse_json(body.as_str()) {
            None => Err(ApiError::SuccessButCannotParse { source: DecodeError::Syntax, response: body }),
            Some(v) => match Self::from_json(&v) {
                Ok(g) => Ok(g),
                Err(e) => Err(ApiError::SuccessButCannotParse { source: e, response: body }),
            },
        }
    }
}

// ---------------------------------------------------------------------------
// GetCount
// ---------------------------------------------------------------------------
/// The mathematical content of a `GetCount` response.
pub ghost struct GetCountView {
    pub status: Seq<char>,
    pub user_id: Seq<char>,
    pub balance: Seq<char>,
    pub currency: Seq<char>,
    pub count: usize,
}

/// How many proxies are available for purchase.
#[derive(Debug, Clone)]
pub struct GetCount {
    pub status: ResponseStatus,
    pub user_id: UserId,
    pub balance: UserBalance,
    pub currency: Currency,
    pub count: usize,
}

impl View for GetCount {
    type V = GetCountView;

    open spec fn view(&self) -> GetCountView {
        GetCountView {
            status: self.status@,
            user_id: self.user_id@,
            balance: self.balance@,
            currency: self.currency@,
            count: self.count,
        }
    }
}

impl GetCount {
    /// What decoding a parsed body into this shape yields.
    pub open spec fn spec_from_json(v: JsonValue) -> Result<GetCountView, DecodeError> {
        match v {
            JsonValue::Object(f) => match spec_header(f@) {
                Err(e) => Err(e),
                Ok(h) => match spec_usize_field(f@, "count"@) {
                    Err(e) => Err(e),
                    Ok(count) => Ok(
                        GetCountView {
                            status: h.status,
                            user_id: h.user_id,
                            balance: h.balance,
                            currency: h.currency,
                            count,
                        },
                    ),
                },
            },
            _ => Err(DecodeError::ExpectedObject),
        }
    }

    /// Decodes a parsed body into this shape.
    pub fn from_json(v: &JsonValue) -> (r: Result<Self, DecodeError>)
        ensures
            result_view(r) == Self::spec_from_json(*v),
    {
        let fields = match v {
            JsonValue::Object(f) => f,
            _ => {
                return Err(DecodeError::ExpectedObject);
            },
        };
        let (status, user_id, balance, currency) = match decode_header(fields) {
            Ok(h) => h,
            Err(e) => {
                return Err(e);
            },
        };
        let count = match usize_field(fields, "count") {
            Ok(c) => c,
            Err(e) => {
                return Err(e);
            },
        };
        Ok(GetCount { status, user_id, balance, currency, count })
    }

    /// What decoding raw body text into this shape yields.
    pub open spec fn spec_decoded_body(body: Seq<char>) -> Result<GetCountView, DecodeError> {
        match json_of(body) {
            None => Err(DecodeError::Syntax),
            Some(v) => Self::spec_from_json(v),
        }
    }

    /// Judges a completed exchange and decodes its body into this
    /// shape: throttling first, then a documented code whatever the
    /// status, then any failing status, then the decode itself.
    pub fn from_api_response(status: u16, body: String) -> (r: Result<Self, ApiError>)
        ensures
            api_response_ensures::<Self>(status, body@, Self::spec_decoded_body(body@), r),
    {
        match classify_error(status, &body) {
            Some(e) => {
                return Err(e);
            },
            None => {},
        }
        match parse_json(body.as_str()) {
            None => Err(ApiError::SuccessButCannotParse { source: DecodeError::Syntax, response: body }),
            Some(v) => match Self::from_json(&v) {
                Ok(g) => Ok(g),
                Err(e) => Err(ApiError::SuccessButCannotParse { source: e, response: body }),
            },
        }
    }
}

// ---------------------------------------------------------------------------
// SetDescription
// ---------------------------------------------------------------------------
/// The mathematical content of a `SetDescription` response.
pub ghost struct SetDescriptionView {
    pub status: Seq<char>,
    pub user_id: Seq<char>,
    pub balance: Seq<char>,
    pub currency: Seq<char>,
    pub count: usize,
}

/// How many proxies had their description rewritten.
#[derive(Debug, Clone)]
pub struct SetDescription {
    pub status: ResponseStatus,
    pub user_id: UserId,
    pub balance: UserBalance,
    pub currency: Currency,
    pub count: usize,
}

impl View for SetDescription {
    type V = SetDescriptionView;

    open spec fn view(&self) -> SetDescriptionView {
        SetDescriptionView {
            status: self.status@,
            user_id: self.user_id@,
            balance: self.balance@,
            currency: self.currency@,
            count: self.count,
        }
    }
}

impl SetDescription {
    /// What decoding a parsed body into this shape yields.
    pub open spec fn spec_from_json(v: JsonValue) -> Result<SetDescriptionView, DecodeError> {
        match v {
            JsonValue::Object(f) => match spec_header(f@) {
                Err(e) => Err(e),
                Ok(h) => match spec_usize_field(f@, "count"@) {
                    Err(e) => Err(e),
                    Ok(count) => Ok(
                        SetDescriptionView {
                            status: h.status,
                            user_id: h.user_id,
                            balance: h.balance,
                            currency: h.currency,
                            count,
                        },
                    ),
                },
            },
            _ => Err(DecodeError::ExpectedObject),
        }
    }

    /// Decodes a parsed body into this shape.
    pub fn from_json(v: &JsonValue) -> (r: Result<Self, DecodeError>)
        ensures
            result_view(r) == Self::spec_from_json(*v),
    {
        let fields = match v {
            JsonValue::Object(f) => f,
            _ => {
                return Err(DecodeError::ExpectedObject);
            },
        };
        let (status, user_id, balance, currency) = match decode_header(fields) {
            Ok(h) => h,
            Err(e) => {
                return Err(e);
            },
        };
        let count = match usize_field(fields, "count") {
            Ok(c) => c,
            Err(e) => {
                return Err(e);
            },
        };
        Ok(SetDescription { status, user_id, balance, currency, count })
    }

    /// What decoding raw body text into this shape yields.
    pub open spec fn spec_decoded_body(body: Seq<char>) -> Result<SetDescriptionView, DecodeError> {
        match json_of(body) {
            None => Err(DecodeError::Syntax),
            Some(v) => Self::spec_from_json(v),
        }
    }

    /// Judges a completed exchange and decodes its body into this
    /// shape: throttling first, then a documented code whatever the
    /// status, then any failing status, then the decode itself.
    pub fn from_api_response(status: u16, body: String) -> (r: Result<Self, ApiError>)
        ensures
            api_response_ensures::<Self>(status, body@, Self::spec_decoded_body(body@), r),
    {
        match classify_error(status, &body) {
            Some(e) => {
                return Err(e);
            },
            None => {},
        }
        match parse_json(body.as_str()) {
            None => Err(ApiError::SuccessButCannotParse { source: DecodeError::Syntax, response: body }),
            Some(v) => match Self::from_json(&v) {
                Ok(g) => Ok(g),
                Err(e) => Err(ApiError::SuccessButCannotParse { source: e, response: body }),
            },
        }
    }
}

// ---------------------------------------------------------------------------
// Delete
// ---------------------------------------------------------------------------
/// The mathematical content of a `Delete` response.
pub ghost struct DeleteView {
    pub status: Seq<char>,
    pub user_id: Seq<char>,
    pub balance: Seq<char>,
    pub currency: Seq<char>,
    pub count: usize,
}

/// How many proxies were deleted.
#[derive(Debug, Clone)]
pub struct Delete {
    pub status: ResponseStatus,
    pub user_id: UserId,
    pub balance: UserBalance,
    pub currency: Currency,
    pub count: usize,
}

impl View for Delete {
    type V = DeleteView;

    open spec fn view(&self) -> DeleteView {
        DeleteView {
            status: self.status@,
            user_id: self.user_id@,
            balance: self.balance@,
            currency: self.currency@,
            count: self.count,
        }
    }
}

impl Delete {
    /// What decoding a parsed body into this shape yields.
    pub open spec fn spec_from_json(v: JsonValue) -> Result<DeleteView, DecodeError> {
        match v {
            JsonValue::Object(f) => match spec_header(f@) {
                Err(e) => Err(e),
                Ok(h) => match spec_usize_field(f@, "count"@) {
                    Err(e) => Err(e),
                    Ok(count) => Ok(
                        DeleteView {
                            status: h.status,
                            user_id: h.user_id,
                            balance: h.balance,
                            currency: h.currency,
                            count,
                        },
                    ),
                },
            },
            _ => Err(DecodeError::ExpectedObject),
        }
    }

    /// Decodes a parsed body into this shape.
    pub fn from_json(v: &JsonValue) -> (r: Result<Self, DecodeError>)
        ensures
            result_view(r) == Self::spec_from_json(*v),
    {
        let fields = match v {
            JsonValue::Object(f) => f,
            _ => {
                return Err(DecodeError::ExpectedObject);
            },
        };
        let (status, user_id, balance, currency) = match decode_header(fields) {
            Ok(h) => h,
            Err(e) => {
                return Err(e);
            },
        };
        let count = match usize_field(fields, "count") {
            Ok(c) => c,
            Err(e) => {
                return Err(e);
            },
        };
        Ok(Delete { status, user_id, balance, currency, count })
    }

    /// What decoding raw body text into this shape yields.
    pub open spec fn spec_decoded_body(body: Seq<char>) -> Result<DeleteView, DecodeError> {
        match json_of(body) {
            None => Err(DecodeError::Syntax),
            Some(v) => Self::spec_from_json(v),
        }
    }

    /// Judges a completed exchange and decodes its body into this
    /// shape: throttling first, then a documented code whatever the
    /// status, then any failing status, then the decode itself.
    pub fn from_api_response(status: u16, body: String) -> (r: Result<Self, ApiError>)
        ensures
            api_response_ensures::<Self>(status, body@, Self::spec_decoded_body(body@), r),
    {
        match classify_error(status, &body) {
            Some(e) => {
                return Err(e);
            },
            None => {},
        }
        match parse_json(body.as_str()) {
            None => Err(ApiError::SuccessButCannotParse { source: DecodeError::Syntax, response: body }),
            Some(v) => match Self::from_json(&v) {
                Ok(g) => Ok(g),
                Err(e) => Err(ApiError::SuccessButCannotParse { source: e, response: body }),
            },
        }
    }
}

// ---------------------------------------------------------------------------
// GetCountry
// ---------------------------------------------------------------------------
/// A prefix of decoded pieces put in front of the rest of a list
/// decode.
pub open spec fn prepend_texts(
    pref: Seq<Seq<char>>,
    rest: Result<Seq<Seq<char>>, DecodeError>,
) -> Result<Seq<Seq<char>>, DecodeError> {
    match rest {
        Ok(r) => Ok(pref + r),
        Err(e) => Err(e),
    }
}

/// Decoding a list of country codes: every element must be a JSON
/// string, read in order, first failure wins.
pub open spec fn spec_country_list(items: Seq<JsonValue>) -> Result<Seq<Seq<char>>, DecodeError>
    decreases items.len(),
{
    if items.len() == 0 {
        Ok(Seq::<Seq<char>>::empty())
    } else {
        match items[0] {
            JsonValue::Text(s) => match spec_country_list(items.drop_first()) {
                Ok(rest) => Ok(seq![s@] + rest),
                Err(e) => Err(e),
            },
            _ => Err(DecodeError::ExpectedString),
        }
    }
}

/// Decodes a list of country codes.
fn decode_country_list(items: &Vec<JsonValue>) -> (r: Result<Vec<Country>, DecodeError>)
    ensures
        match r {
            Ok(list) => spec_country_list(items@) == Ok::<Seq<Seq<char>>, DecodeError>(
                list.deep_view(),
            ),
            Err(e) => spec_country_list(items@) == Err::<Seq<Seq<char>>, DecodeError>(e),
        },
{
    let mut out: Vec<Country> = Vec::new();
    let mut i: usize = 0;
    proof {
        assert(items@.subrange(0, items@.len() as int) =~= items@);
        assert(out.deep_view() =~= Seq::<Seq<char>>::empty());
        if spec_country_list(items@) is Ok {
            assert(out.deep_view() + spec_country_list(items@)->Ok_0 =~~= spec_country_list(
                items@,
            )->Ok_0);
        }
    }
    while i < items.len()
        invariant
            i <= items@.len(),
            spec_country_list(items@) == prepend_texts(
                out.deep_view(),
                spec_country_list(items@.subrange(i as int, items@.len() as int)),
            ),
        decreases items@.len() - i,
    {
        let ghost suffix = items@.subrange(i as int, items@.len() as int);
        let ghost rest = items@.subrange(i + 1, items@.len() as int);
        proof {
            assert(suffix[0] == items@[i as int]);
            assert(suffix.drop_first() =~= rest);
        }
        match &items[i] {
            JsonValue::Text(s) => {
                let ghost prev = out.deep_view();
                out.push(Country::from_raw(s.clone()));
                proof {
                    assert(out.deep_view() =~= prev.push(s@));
                    if spec_country_list(rest) is Ok {
                        assert(prev + (seq![s@] + spec_country_list(rest)->Ok_0) =~~= prev.push(s@)
                            + spec_country_list(rest)->Ok_0);
                    }
                }
            },
            _ => {
                return Err(DecodeError::ExpectedString);
            },
        }
        i = i + 1;
    }
    proof {
        assert(items@.subrange(items@.len() as int, items@.len() as int) =~= Seq::<
            JsonValue,
        >::empty());
        assert(out.deep_view() + Seq::<Seq<char>>::empty() =~~= out.deep_view());
    }
    Ok(out)
}

/// The mathematical content of a `GetCountry` response.
pub ghost struct GetCountryView {
    pub status: Seq<char>,
    pub user_id: Seq<char>,
    pub balance: Seq<char>,
    pub currency: Seq<char>,
    pub list: Seq<Seq<char>>,
}

/// The countries proxies can be bought in.
#[derive(Debug, Clone)]
pub struct GetCountry {
    pub status: ResponseStatus,
    pub user_id: UserId,
    pub balance: UserBalance,
    pub currency: Currency,
    pub list: Vec<Country>,
}

impl View for GetCountry {
    type V = GetCountryView;

    open spec fn view(&self) -> GetCountryView {
        GetCountryView {
            status: self.status@,
            user_id: self.user_id@,
            balance: self.balance@,
            currency: self.currency@,
            list: self.list.deep_view(),
        }
    }
}

impl GetCountry {
    /// What decoding a parsed body into this shape yields.
    pub open spec fn spec_from_json(v: JsonValue) -> Result<GetCountryView, DecodeError> {
        match v {
            JsonValue::Object(f) => match spec_header(f@) {
                Err(e) => Err(e),
                Ok(h) => match obj_lookup(f@, "list"@) {
                    None => Err(DecodeError::MissingField),
                    Some(JsonValue::Array(items)) => match spec_country_list(items@) {
                        Err(e) => Err(e),
                        Ok(list) => Ok(
                            GetCountryView {
                                status: h.status,
                                user_id: h.user_id,
                                balance: h.balance,
                                currency: h.currency,
                                list,
                            },
                        ),
                    },
                    Some(_) => Err(DecodeError::ExpectedArray),
                },
            },
            _ => Err(DecodeError::ExpectedObject),
        }
    }

    /// Decodes a parsed body into this shape.
    pub fn from_json(v: &JsonValue) -> (r: Result<Self, DecodeError>)
        ensures
            result_view(r) == Self::spec_from_json(*v),
    {
        let fields = match v {
            JsonValue::Object(f) => f,
            _ => {
                return Err(DecodeError::ExpectedObject);
            },
        };
        let (status, user_id, balance, currency) = match decode_header(fields) {
            Ok(h) => h,
            Err(e) => {
                return Err(e);
            },
        };
        let items = match lookup_field(fields, "list") {
            None => {
                return Err(DecodeError::MissingField);
            },
            Some(v) => match v {
                JsonValue::Array(items) => items,
                _ => {
                    return Err(DecodeError::ExpectedArray);
                },
            },
        };
        let list = match decode_country_list(items) {
            Ok(l) => l,
            Err(e) => {
                return Err(e);
            },
        };
        Ok(GetCountry { status, user_id, balance, currency, list })
    }

    /// What decoding raw body text into this shape yields.
    pub open spec fn spec_decoded_body(body: Seq<char>) -> Result<GetCountryView, DecodeError> {
        match json_of(body) {
            None => Err(DecodeError::Syntax),
            Some(v) => Self::spec_from_json(v),
        }
    }

    /// Judges a completed exchange and decodes its body into this
    /// shape: throttling first, then a documented code whatever the
    /// status, then any failing status, then the decode itself.
    pub fn from_api_response(status: u16, body: String) -> (r: Result<Self, ApiError>)
        ensures
            api_response_ensures::<Self>(status, body@, Self::spec_decoded_body(body@), r),
    {
        match classify_error(status, &body) {
            Some(e) => {
                return Err(e);
            },
            None => {},
        }
        match parse_json(body.as_str()) {
            None => Err(ApiError::SuccessButCannotParse { source: DecodeError::Syntax, response: body }),
            Some(v) => match Self::from_json(&v) {
                Ok(g) => Ok(g),
                Err(e) => Err(ApiError::SuccessButCannotParse { source: e, response: body }),
            },
        }
    }
}

// ---------------------------------------------------------------------------
// Proxy decoding
// ---------------------------------------------------------------------------
impl Proxy {
    /// Decoding one proxy record, field by field in declaration
    /// order, first failure wins.
    pub open spec fn spec_from_fields(f: Seq<(String, JsonValue)>) -> Result<
        ProxyView,
        DecodeError,
    > {
        let id = spec_coerced_text_field(f, "id"@);
        let ip = spec_ip_field(f, "ip"@);
        let host = spec_ip_field(f, "host"@);
        let port = spec_port_field(f, "port"@);
        let user = spec_text_field(f, "user"@);
        let password = spec_text_field(f, "pass"@);
        let protocol = spec_protocol_field(f, "type"@);
        let country = spec_text_field(f, "country"@);
        let date = spec_text_field(f, "date"@);
        let date_end = spec_text_field(f, "date_end"@);
        let unixtime = spec_u64_field(f, "unixtime"@);
        let unixtime_end = spec_u64_field(f, "unixtime_end"@);
        let description = spec_text_field(f, "descr"@);
        let active = spec_status_field(f, "active"@);
        if id is Err {
            Err(id->Err_0)
        } else if ip is Err {
            Err(ip->Err_0)
        } else if host is Err {
            Err(host->Err_0)
        } else if port is Err {
            Err(port->Err_0)
        } else if user is Err {
            Err(user->Err_0)
        } else if password is Err {
            Err(password->Err_0)
        } else if protocol is Err {
            Err(protocol->Err_0)
        } else if country is Err {
            Err(country->Err_0)
        } else if date is Err {
            Err(date->Err_0)
        } else if date_end is Err {
            Err(date_end->Err_0)
        } else if unixtime is Err {
            Err(unixtime->Err_0)
        } else if unixtime_end is Err {
            Err(unixtime_end->Err_0)
        } else if description is Err {
            Err(description->Err_0)
        } else if active is Err {
            Err(active->Err_0)
        } else {
            Ok(
                ProxyView {
                    id: id->Ok_0,
                    ip: ip->Ok_0,
                    host: host->Ok_0,
                    port: port->Ok_0,
                    user: user->Ok_0,
                    password: password->Ok_0,
                    protocol: protocol->Ok_0,
                    country: country->Ok_0,
                    date: date->Ok_0,
                    date_end: date_end->Ok_0,
                    unixtime: unixtime->Ok_0,
                    unixtime_end: unixtime_end->Ok_0,
                    description: description->Ok_0,
                    active: active->Ok_0,
                },
            )
        }
    }

    /// What decoding a parsed value into one proxy record yields.
    pub open spec fn spec_from_json(v: JsonValue) -> Result<ProxyView, DecodeError> {
        match v {
            JsonValue::Object(f) => Self::spec_from_fields(f@),
            _ => Err(DecodeError::ExpectedObject),
        }
    }

    /// Decodes one proxy record.
    pub fn from_json(v: &JsonValue) -> (r: Result<Self, DecodeError>)
        ensures
            result_view(r) == Self::spec_from_json(*v),
    {
        let fields = match v {
            JsonValue::Object(f) => f,
            _ => {
                return Err(DecodeError::ExpectedObject);
            },
        };
        let id = match coerced_text_field(fields, "id") {
            Ok(x) => x,
            Err(e) => {
                return Err(e);
            },
        };
        let ip = match ip_field(fields, "ip") {
            Ok(x) => x,
            Err(e) => {
                return Err(e);
            },
        };
        let host = match ip_field(fields, "host") {
            Ok(x) => x,
            Err(e) => {
                return Err(e);
            },
        };
        let port = match port_field(fields, "port") {
            Ok(x) => x,
            Err(e) => {
                return Err(e);
            },
        };
        let user = match text_field(fields, "user") {
            Ok(x) => x,
            Err(e) => {
                return Err(e);
            },
        };
        let password = match text_field(fields, "pass") {
            Ok(x) => x,
            Err(e) => {
                return Err(e);
            },
        };
        let protocol = match protocol_field(fields, "type") {
            Ok(x) => x,
            Err(e) => {
                return Err(e);
            },
        };
        let country = match text_field(fields, "country") {
            Ok(x) => x,
            Err(e) => {
                return Err(e);
            },
        };
        let date = match text_field(fields, "date") {
            Ok(x) => x,
            Err(e) => {
                return Err(e);
            },
        };
        let date_end = match text_field(fields, "date_end") {
            Ok(x) => x,
            Err(e) => {
                return Err(e);
            },
        };
        let unixtime = match u64_field(fields, "unixtime") {
            Ok(x) => x,
            Err(e) => {
                return Err(e);
            },
        };
        let unixtime_end = match u64_field(fields, "unixtime_end") {
            Ok(x) => x,
            Err(e) => {
                return Err(e);
            },
        };
        let description = match text_field(fields, "descr") {
            Ok(x) => x,
            Err(e) => {
                return Err(e);
            },
        };
        let active = match status_field(fields, "active") {
            Ok(x) => x,
            Err(e) => {
                return Err(e);
            },
        };
        Ok(
            Proxy {
                id: ProxyId::new(id.as_str()),
                ip,
                host,
                port: Port::new(port),
                user: Username::new(user),
                password: Password::new(password),
                protocol,
                country: Country::from_raw(country),
                date,
                date_end,
                unixtime,
                unixtime_end,
                description: ProxyDescription::from_raw(description),
                active,
            },
        )
    }
}

// ---------------------------------------------------------------------------
// GetProxy
// ---------------------------------------------------------------------------
/// A prefix of decoded proxy records put in front of the rest of a
/// list decode.
pub open spec fn prepend_proxies(
    pref: Seq<ProxyView>,
    rest: Result<Seq<ProxyView>, DecodeError>,
) -> Result<Seq<ProxyView>, DecodeError> {
    match rest {
        Ok(r) => Ok(pref + r),
        Err(e) => Err(e),
    }
}

/// Decoding a list of proxy records, in order, first failure wins.
pub open spec fn spec_proxy_list(items: Seq<JsonValue>) -> Result<Seq<ProxyView>, DecodeError>
    decreases items.len(),
{
    if items.len() == 0 {
        Ok(Seq::<ProxyView>::empty())
    } else {
        match Proxy::spec_from_json(items[0]) {
            Ok(p) => match spec_proxy_list(items.drop_first()) {
                Ok(rest) => Ok(seq![p] + rest),
                Err(e) => Err(e),
            },
            Err(e) => Err(e),
        }
    }
}

/// Decodes a list of proxy records.
fn decode_proxy_list(items: &Vec<JsonValue>) -> (r: Result<Vec<Proxy>, DecodeError>)
    ensures
        match r {
            Ok(list) => spec_proxy_list(items@) == Ok::<Seq<ProxyView>, DecodeError>(
                list.deep_view(),
            ),
            Err(e) => spec_proxy_list(items@) == Err::<Seq<ProxyView>, DecodeError>(e),
        },
{
    let mut out: Vec<Proxy> = Vec::new();
    let mut i: usize = 0;
    proof {
        assert(items@.subrange(0, items@.len() as int) =~= items@);
        assert(out.deep_view() =~= Seq::<ProxyView>::empty());
        if spec_proxy_list(items@) is Ok {
            assert(out.deep_view() + spec_proxy_list(items@)->Ok_0 =~= spec_proxy_list(
                items@,
            )->Ok_0);
        }
    }
    while i < items.len()
        invariant
            i <= items@.len(),
            spec_proxy_list(items@) == prepend_proxies(
                out.deep_view(),
                spec_proxy_list(items@.subrange(i as int, items@.len() as int)),
            ),
        decreases items@.len() - i,
    {
        let ghost suffix = items@.subrange(i as int, items@.len() as int);
        let ghost rest = items@.subrange(i + 1, items@.len() as int);
        proof {
            assert(suffix[0] == items@[i as int]);
            assert(suffix.drop_first() =~= rest);
        }
        match Proxy::from_json(&items[i]) {
            Ok(p) => {
                let ghost prev = out.deep_view();
                let ghost pv = p@;
                out.push(p);
                proof {
                    assert(out.deep_view() =~= prev.push(pv));
                    if spec_proxy_list(rest) is Ok {
                        assert(prev + (seq![pv] + spec_proxy_list(rest)->Ok_0) =~= prev.push(pv)
                            + spec_proxy_list(rest)->Ok_0);
                    }
                }
            },
            Err(e) => {
                return Err(e);
            },
        }
        i = i + 1;
    }
    proof {
        assert(items@.subrange(items@.len() as int, items@.len() as int) =~= Seq::<
            JsonValue,
        >::empty());
        assert(out.deep_view() + Seq::<ProxyView>::empty() =~= out.deep_view());
    }
    Ok(out)
}

/// The mathematical content of a `GetProxy` response.
pub ghost struct GetProxyView {
    pub status: Seq<char>,
    pub user_id: Seq<char>,
    pub balance: Seq<char>,
    pub currency: Seq<char>,
    pub list_count: usize,
    pub list: Seq<ProxyView>,
}

/// The proxies of the account.
#[derive(Debug, Clone)]
pub struct GetProxy {
    pub status: ResponseStatus,
    pub user_id: UserId,
    pub balance: UserBalance,
    pub currency: Currency,
    pub list_count: usize,
    pub list: Vec<Proxy>,
}

impl View for GetProxy {
    type V = GetProxyView;

    open spec fn view(&self) -> GetProxyView {
        GetProxyView {
            status: self.status@,
            user_id: self.user_id@,
            balance: self.balance@,
            currency: self.currency@,
            list_count: self.list_count,
            list: self.list.deep_view(),
        }
    }
}

impl GetProxy {
    /// What decoding a parsed body into this shape yields.
    pub open spec fn spec_from_json(v: JsonValue) -> Result<GetProxyView, DecodeError> {
        match v {
            JsonValue::Object(f) => match spec_header(f@) {
                Err(e) => Err(e),
                Ok(h) => match spec_usize_field(f@, "list_count"@) {
                    Err(e) => Err(e),
                    Ok(list_count) => match obj_lookup(f@, "list"@) {
                        None => Err(DecodeError::MissingField),
                        Some(JsonValue::Array(items)) => match spec_proxy_list(items@) {
                            Err(e) => Err(e),
                            Ok(list) => Ok(
                                GetProxyView {
                                    status: h.status,
                                    user_id: h.user_id,
                                    balance: h.balance,
                                    currency: h.currency,
                                    list_count,
                                    list,
                                },
                            ),
                        },
                        Some(_) => Err(DecodeError::ExpectedArray),
                    },
                },
            },
            _ => Err(DecodeError::ExpectedObject),
        }
    }

    /// Decodes a parsed body into this shape.
    pub fn from_json(v: &JsonValue) -> (r: Result<Self, DecodeError>)
        ensures
            result_view(r) == Self::spec_from_json(*v),
    {
        let fields = match v {
            JsonValue::Object(f) => f,
            _ => {
                return Err(DecodeError::ExpectedObject);
            },
        };
        let (status, user_id, balance, currency) = match decode_header(fields) {
            Ok(h) => h,
            Err(e) => {
                return Err(e);
            },
        };
        let list_count = match usize_field(fields, "list_count") {
            Ok(c) => c,
            Err(e) => {
                return Err(e);
            },
        };
        let items = match lookup_field(fields, "list") {
            None => {
                return Err(DecodeError::MissingField);
            },
            Some(v) => match v {
                JsonValue::Array(items) => items,
                _ => {
                    return Err(DecodeError::ExpectedArray);
                },
            },
        };
        let list = match decode_proxy_list(items) {
            Ok(l) => l,
            Err(e) => {
                return Err(e);
            },
        };
        Ok(GetProxy { status, user_id, balance, currency, list_count, list })
    }

    /// What decoding raw body text into this shape yields.
    pub open spec fn spec_decoded_body(body: Seq<char>) -> Result<GetProxyView, DecodeError> {
        match json_of(body) {
            None => Err(DecodeError::Syntax),
            Some(v) => Self::spec_from_json(v),
        }
    }

    /// Judges a completed exchange and decodes its body into this
    /// shape: throttling first, then a documented code whatever the
    /// status, then any failing status, then the decode itself.
    pub fn from_api_response(status: u16, body: String) -> (r: Result<Self, ApiError>)
        ensures
            api_response_ensures::<Self>(status, body@, Self::spec_decoded_body(body@), r),
    {
        match classify_error(status, &body) {
            Some(e) => {
                return Err(e);
            },
            None => {},
        }
        match parse_json(body.as_str()) {
            None => Err(ApiError::SuccessButCannotParse { source: DecodeError::Syntax, response: body }),
            Some(v) => match Self::from_json(&v) {
                Ok(g) => Ok(g),
                Err(e) => Err(ApiError::SuccessButCannotParse { source: e, response: body }),
            },
        }
    }
}

// ---------------------------------------------------------------------------
// ProlongedProxy
// ---------------------------------------------------------------------------
/// The mathematical content of a `ProlongedProxy`.
pub ghost struct ProlongedProxyView {
    pub id: Seq<char>,
    pub date_end: Seq<char>,
    pub unixtime_end: u64,
}

/// One prolonged proxy, as the prolong endpoint lists them.
#[derive(Debug, Clone)]
pub struct ProlongedProxy {
    pub id: ProxyId,
    pub date_end: String,
    pub unixtime_end: u64,
}

impl View for ProlongedProxy {
    type V = ProlongedProxyView;

    open spec fn view(&self) -> ProlongedProxyView {
        ProlongedProxyView {
            id: self.id@,
            date_end: self.date_end@,
            unixtime_end: self.unixtime_end,
        }
    }
}

impl ProlongedProxy {
    /// What decoding a parsed value into this shape yields.
    pub open spec fn spec_from_json(v: JsonValue) -> Result<ProlongedProxyView, DecodeError> {
        match v {
            JsonValue::Object(f) => match spec_coerced_text_field(f@, "id"@) {
                Err(e) => Err(e),
                Ok(id) => match spec_text_field(f@, "date_end"@) {
                    Err(e) => Err(e),
                    Ok(date_end) => match spec_u64_field(f@, "unixtime_end"@) {
                        Err(e) => Err(e),
                        Ok(unixtime_end) => Ok(ProlongedProxyView { id, date_end, unixtime_end }),
                    },
                },
            },
            _ => Err(DecodeError::ExpectedObject),
        }
    }

    /// Decodes one prolonged-proxy record.
    pub fn from_json(v: &JsonValue) -> (r: Result<Self, DecodeError>)
        ensures
            result_view(r) == Self::spec_from_json(*v),
    {
        let fields = match v {
            JsonValue::Object(f) => f,
            _ => {
                return Err(DecodeError::ExpectedObject);
            },
        };
        let id = match coerced_text_field(fields, "id") {
            Ok(x) => x,
            Err(e) => {
                return Err(e);
            },
        };
        let date_end = match text_field(fields, "date_end") {
            Ok(x) => x,
            Err(e) => {
                return Err(e);
            },
        };
        let unixtime_end = match u64_field(fields, "unixtime_end") {
            Ok(x) => x,
            Err(e) => {
                return Err(e);
            },
        };
        Ok(ProlongedProxy { id: ProxyId::new(id.as_str()), date_end, unixtime_end })
    }
}

} // verus!
