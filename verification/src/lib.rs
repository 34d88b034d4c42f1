//! Typed client library for the px6 proxy-seller HTTP API: validated
//! request value objects, a deterministic query-string encoder, a
//! tolerant JSON response decoder, and a classifier that maps raw HTTP
//! responses onto a closed error taxonomy.  The HTTP transport itself
//! stays outside; this crate builds the request URL and judges the
//! response it is handed back.
use vstd::prelude::*;
use vstd::string::StringExecFns;

pub mod deserializer;
pub mod error;
pub mod ip;
pub mod json;
pub mod method;
pub mod params;
pub mod response;
pub mod text;
pub mod value_object;

pub use ip::IpAddress;
pub use value_object::BuildError;
pub use value_object::Country;
pub use value_object::Currency;
pub use value_object::IpsToConnect;
pub use value_object::OrderId;
pub use value_object::PageLimit;
pub use value_object::Password;
pub use value_object::Port;
pub use value_object::Proxy;
pub use value_object::ProxyDescription;
pub use value_object::ProxyId;
pub use value_object::ProxyPeriod;
pub use value_object::ProxyStatus;
pub use value_object::ProxyString;
pub use value_object::ProxyType;
pub use value_object::ProxyVersion;
pub use value_object::ProxyView;
pub use value_object::ResponseStatus;
pub use value_object::UserBalance;
pub use value_object::UserId;
pub use value_object::Username;

use crate::method::ApiMethod;
use crate::params::render_query;

verus! {

/// Errors raised while assembling a client configuration.
#[derive(Debug, PartialEq, Eq)]
pub enum ClientBuildError {
    ApiKeyMustBeSet,
}

impl ClientBuildError {
    pub open spec fn spec_message(&self) -> Seq<char> {
        match self {
            ClientBuildError::ApiKeyMustBeSet => "API key must be set"@,
        }
    }

    /// Human-readable description of the missing configuration.
    pub fn message(&self) -> (r: &'static str)
        ensures
            r@ == self.spec_message(),
    {
        match self {
            ClientBuildError::ApiKeyMustBeSet => "API key must be set",
        }
    }
}

/// The URL a call of `method` is sent to:
/// `{base_url}/api/{api_key}/{method_name}?{query_string}`.
pub open spec fn spec_request_url(
    base_url: Seq<char>,
    api_key: Seq<char>,
    method: ApiMethod,
) -> Seq<char> {
    base_url + "/api/"@ + api_key + "/"@ + method.spec_name() + "?"@ + render_query(
        method.spec_query_pairs(),
    )
}

/// Builds the full request URL for one call.
pub fn request_url(base_url: &str, api_key: &str, method: &ApiMethod) -> (r: String)
    ensures
        r@ == spec_request_url(base_url@, api_key@, *method),
{
    let mut url = String::new();
    url.append(base_url);
    url.append("/api/");
    url.append(api_key);
    url.append("/");
    url.append(method.method_name());
    url.append("?");
    let query = method.query_string();
    url.append(query.as_str());
    proof {
        assert(url@ =~= spec_request_url(base_url@, api_key@, *method));
    }
    url
}

} // verus!
