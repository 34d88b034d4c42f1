//! The eleven API methods, each carrying its parameter object, with
//! the path segment the API names it by.
use vstd::prelude::*;

use crate::params;
use crate::params::render_pairs;
use crate::params::render_query;

verus! {

/// One call of the API: the method and its parameters.
#[derive(Debug, Clone)]
pub enum ApiMethod {
    GetPrice(params::GetPrice),
    GetCount(params::GetCount),
    GetCountry(params::GetCountry),
    GetProxy(params::GetProxy),
    SetType(params::SetType),
    SetDescription(params::SetDescription),
    Buy(params::Buy),
    Prolong(params::Prolong),
    Delete(params::Delete),
    Check(params::Check),
    IpAuth(params::IpAuth),
}

impl ApiMethod {
    /// The path segment the API names this method by.
    pub open spec fn spec_name(&self) -> Seq<char> {
        match self {
            ApiMethod::GetPrice(_) => "getprice"@,
            ApiMethod::GetCount(_) => "getcount"@,
            ApiMethod::GetCountry(_) => "getcountry"@,
            ApiMethod::GetProxy(_) => "getproxy"@,
            ApiMethod::SetType(_) => "settype"@,
            ApiMethod::SetDescription(_) => "setdescr"@,
            ApiMethod::Buy(_) => "buy"@,
            ApiMethod::Prolong(_) => "prolong"@,
            ApiMethod::Delete(_) => "delete"@,
            ApiMethod::Check(_) => "check"@,
            ApiMethod::IpAuth(_) => "ipauth"@,
        }
    }

    /// The path segment the API names this method by.
    pub fn method_name(&self) -> (r: &'static str)
        ensures
            r@ == self.spec_name(),
    {
        match self {
            ApiMethod::GetPrice(_) => "getprice",
            ApiMethod::GetCount(_) => "getcount",
            ApiMethod::GetCountry(_) => "getcountry",
            ApiMethod::GetProxy(_) => "getproxy",
            ApiMethod::SetType(_) => "settype",
            ApiMethod::SetDescription(_) => "setdescr",
            ApiMethod::Buy(_) => "buy",
            ApiMethod::Prolong(_) => "prolong",
            ApiMethod::Delete(_) => "delete",
            ApiMethod::Check(_) => "check",
            ApiMethod::IpAuth(_) => "ipauth",
        }
    }

    /// The ordered pairs the carried parameter object encodes to.
    pub open spec fn spec_query_pairs(&self) -> Seq<(Seq<char>, Option<Seq<char>>)> {
        match self {
            ApiMethod::GetPrice(p) => p.spec_query_pairs(),
            ApiMethod::GetCount(p) => p.spec_query_pairs(),
            ApiMethod::GetCountry(p) => p.spec_query_pairs(),
            ApiMethod::GetProxy(p) => p.spec_query_pairs(),
            ApiMethod::SetType(p) => p.spec_query_pairs(),
            ApiMethod::SetDescription(p) => p.spec_query_pairs(),
            ApiMethod::Buy(p) => p.spec_query_pairs(),
            ApiMethod::Prolong(p) => p.spec_query_pairs(),
            ApiMethod::Delete(p) => p.spec_query_pairs(),
            ApiMethod::Check(p) => p.spec_query_pairs(),
            ApiMethod::IpAuth(p) => p.spec_query_pairs(),
        }
    }

    /// The ordered key-value pairs of the carried parameter object.
    pub fn get_params(&self) -> (r: Vec<(String, Option<String>)>)
        ensures
            r.deep_view() == self.spec_query_pairs(),
    {
        match self {
            ApiMethod::GetPrice(p) => p.to_query_tuple(),
            ApiMethod::GetCount(p) => p.to_query_tuple(),
            ApiMethod::GetCountry(p) => p.to_query_tuple(),
            ApiMethod::GetProxy(p) => p.to_query_tuple(),
            ApiMethod::SetType(p) => p.to_query_tuple(),
            ApiMethod::SetDescription(p) => p.to_query_tuple(),
            ApiMethod::Buy(p) => p.to_query_tuple(),
            ApiMethod::Prolong(p) => p.to_query_tuple(),
            ApiMethod::Delete(p) => p.to_query_tuple(),
            ApiMethod::Check(p) => p.to_query_tuple(),
            ApiMethod::IpAuth(p) => p.to_query_tuple(),
        }
    }

    /// The rendered query string of the carried parameter object.
    pub fn query_string(&self) -> (r: String)
        ensures
            r@ == render_query(self.spec_query_pairs()),
    {
        let pairs = self.get_params();
        render_pairs(&pairs)
    }
}

} // verus!
