//! Validated value objects for request parameters, plus the plain
//! wrappers the API's responses are decoded into.  Each validated type
//! has a single fallible constructor; construction is the only
//! validation point.
use vstd::prelude::*;
use vstd::string::StrSliceExecFns;
use vstd::string::StringExecFns;

use crate::ip::IpAddress;
use crate::ip::is_ipv4;
use crate::ip::is_ipv4_text;
use crate::text::join_with;
use crate::text::parse_u16_text;
use crate::text::split_char;
use crate::text::split_on;
use crate::text::uint_text_ok;

verus! {

/// Errors raised while constructing a value object, before any network
/// activity.
#[derive(Debug, PartialEq, Eq)]
pub enum BuildError {
    ProxyPeriodTooLow,
    CountryMustBeIso2,
    PageLimitTooLow,
    PageLimitTooHigh,
    ProxyDescriptionTooLong,
    ProxyStringIncorrectFormat,
}

impl BuildError {
    pub open spec fn spec_message(&self) -> Seq<char> {
        match self {
            BuildError::ProxyPeriodTooLow => "Proxy period must be greater than zero"@,
            BuildError::CountryMustBeIso2 => "Country must be ISO2 format"@,
            BuildError::PageLimitTooLow => "Page limit must be greater than zero"@,
            BuildError::PageLimitTooHigh => "Page limit must be less than or equal to 1000"@,
            BuildError::ProxyDescriptionTooLong => "Proxy description must be less than or equal to 50 symbols"@,
            BuildError::ProxyStringIncorrectFormat => "Proxy string format must be `ip:port:user:pass`, user and password must be non-empty"@,
        }
    }

    /// Human-readable description of the constraint that was violated.
    pub fn message(&self) -> (r: &'static str)
        ensures
            r@ == self.spec_message(),
    {
        match self {
            BuildError::ProxyPeriodTooLow => "Proxy period must be greater than zero",
            BuildError::CountryMustBeIso2 => "Country must be ISO2 format",
            BuildError::PageLimitTooLow => "Page limit must be greater than zero",
            BuildError::PageLimitTooHigh => "Page limit must be less than or equal to 1000",
            BuildError::ProxyDescriptionTooLong => "Proxy description must be less than or equal to 50 symbols",
            BuildError::ProxyStringIncorrectFormat => "Proxy string format must be `ip:port:user:pass`, user and password must be non-empty",
        }
    }
}

// ---------------------------------------------------------------------------
// ProxyPeriod
// ---------------------------------------------------------------------------
/// A proxy rental period in days; always at least one day.
#[derive(Debug, Clone, PartialEq, Eq)]
pub struct ProxyPeriod {
    days: usize,
}

impl View for ProxyPeriod {
    type V = usize;

    closed spec fn view(&self) -> usize {
        self.days
    }
}

impl ProxyPeriod {
    /// Accepts every period of at least one day, and nothing else.
    pub fn new(period: usize) -> (r: Result<Self, BuildError>)
        ensures
            r is Ok <==> period >= 1,
            r matches Ok(p) ==> p@ == period,
            r is Err ==> r == Err::<Self, BuildError>(BuildError::ProxyPeriodTooLow),
    {
        if period == 0 {
            Err(BuildError::ProxyPeriodTooLow)
        } else {
            Ok(ProxyPeriod { days: period })
        }
    }

    pub fn as_usize(&self) -> (r: usize)
        ensures
            r == self@,
    {
        self.days
    }
}

// ---------------------------------------------------------------------------
// Country
// ---------------------------------------------------------------------------
/// What `str::to_lowercase` returns; it depends on the characters alone.
pub uninterp spec fn lower_of(s: Seq<char>) -> Seq<char>;

/// Relies on `str::to_lowercase`: the lowercase equivalent of `s`, a
/// function of the characters alone.
#[verifier::external_body]
fn to_lowercase_text(s: &str) -> (r: String)
    ensures
        r@ == lower_of(s@),
{
    s.to_lowercase()
}

/// An ISO 3166-1 alpha-2 country code, held in lowercase.
#[derive(Debug, Clone, PartialEq, Eq)]
pub struct Country {
    code: String,
}

impl View for Country {
    type V = Seq<char>;

    closed spec fn view(&self) -> Seq<char> {
        self.code@
    }
}

impl DeepView for Country {
    type V = Seq<char>;

    open spec fn deep_view(&self) -> Seq<char> {
        self.view()
    }
}

impl Country {
    /// Accepts exactly the two-character codes and stores the lowercase
    /// form, whatever the case of the input.
    pub fn new(iso2: &str) -> (r: Result<Self, BuildError>)
        ensures
            r is Ok <==> iso2@.len() == 2,
            r matches Ok(c) ==> c@ == lower_of(iso2@),
            r is Err ==> r == Err::<Self, BuildError>(BuildError::CountryMustBeIso2),
    {
        if iso2.unicode_len() == 2 {
            Ok(Country { code: to_lowercase_text(iso2) })
        } else {
            Err(BuildError::CountryMustBeIso2)
        }
    }

    /// Carries a code out of a decoded response without validation, as
    /// the wire format itself never re-validates.
    pub(crate) fn from_raw(code: String) -> (r: Self)
        ensures
            r@ == code@,
    {
        Country { code }
    }

    pub fn as_str(&self) -> (r: &str)
        ensures
            r@ == self@,
    {
        self.code.as_str()
    }
}

// ---------------------------------------------------------------------------
// PageLimit
// ---------------------------------------------------------------------------
/// How many proxies one page of the listing may hold: 1 through 1000.
#[derive(Debug, Clone, PartialEq, Eq)]
pub struct PageLimit {
    limit: u16,
}

impl View for PageLimit {
    type V = u16;

    closed spec fn view(&self) -> u16 {
        self.limit
    }
}

impl PageLimit {
    /// Accepts exactly the limits between 1 and 1000.
    pub fn new(limit: u16) -> (r: Result<Self, BuildError>)
        ensures
            r is Ok <==> 1 <= limit <= 1000,
            r matches Ok(l) ==> l@ == limit,
            limit == 0 ==> r == Err::<Self, BuildError>(BuildError::PageLimitTooLow),
            limit > 1000 ==> r == Err::<Self, BuildError>(BuildError::PageLimitTooHigh),
    {
        if limit == 0 {
            Err(BuildError::PageLimitTooLow)
        } else if limit > 1000 {
            Err(BuildError::PageLimitTooHigh)
        } else {
            Ok(PageLimit { limit })
        }
    }

    pub fn as_u16(&self) -> (r: u16)
        ensures
            r == self@,
    {
        self.limit
    }
}

// ---------------------------------------------------------------------------
// ProxyDescription
// ---------------------------------------------------------------------------
/// Free-text comment attached to proxies; at most 50 characters.
#[derive(Debug, Clone, PartialEq, Eq)]
pub struct ProxyDescription {
    text: String,
}

impl View for ProxyDescription {
    type V = Seq<char>;

    closed spec fn view(&self) -> Seq<char> {
        self.text@
    }
}

impl ProxyDescription {
    /// Accepts exactly the descriptions of at most 50 characters.
    pub fn new(description: &str) -> (r: Result<Self, BuildError>)
        ensures
            r is Ok <==> description@.len() <= 50,
            r matches Ok(d) ==> d@ == description@,
            r is Err ==> r == Err::<Self, BuildError>(BuildError::ProxyDescriptionTooLong),
    {
        if description.unicode_len() > 50 {
            Err(BuildError::ProxyDescriptionTooLong)
        } else {
            Ok(ProxyDescription { text: description.to_owned() })
        }
    }

    /// Carries a description out of a decoded response without
    /// validation, as the wire format itself never re-validates.
    pub(crate) fn from_raw(text: String) -> (r: Self)
        ensures
            r@ == text@,
    {
        ProxyDescription { text }
    }

    pub fn as_str(&self) -> (r: &str)
        ensures
            r@ == self@,
    {
        self.text.as_str()
    }
}

// ---------------------------------------------------------------------------
// ProxyId
// ---------------------------------------------------------------------------
/// An opaque proxy identifier; the API emits it inconsistently as a
/// number or a string, so any text is accepted.
#[derive(Debug, Clone, PartialEq, Eq)]
pub struct ProxyId {
    id: String,
}

impl View for ProxyId {
    type V = Seq<char>;

    closed spec fn view(&self) -> Seq<char> {
        self.id@
    }
}

impl DeepView for ProxyId {
    type V = Seq<char>;

    open spec fn deep_view(&self) -> Seq<char> {
        self.view()
    }
}

impl ProxyId {
    pub fn new(proxy_id: &str) -> (r: Self)
        ensures
            r@ == proxy_id@,
    {
        ProxyId { id: proxy_id.to_owned() }
    }

    pub fn as_str(&self) -> (r: &str)
        ensures
            r@ == self@,
    {
        self.id.as_str()
    }
}

// ---------------------------------------------------------------------------
// ProxyString
// ---------------------------------------------------------------------------
/// `s` has the shape `ip:port:user:pass`: four colon-separated parts,
/// the first a dotted-quad address, the second a 16-bit port, the last
/// two non-empty.  The parts of a colon split are colon-free, so only
/// the dotted-quad form of an address can stand in the first part.
pub open spec fn proxy_string_valid(s: Seq<char>) -> bool {
    let parts = split_on(s, ':');
    &&& parts.len() == 4
    &&& is_ipv4_text(parts[0])
    &&& uint_text_ok(parts[1], u16::MAX as nat)
    &&& parts[2].len() > 0
    &&& parts[3].len() > 0
}

/// A full proxy address in `ip:port:user:pass` form, kept as the text
/// it was built from.
#[derive(Debug, Clone, PartialEq, Eq)]
pub struct ProxyString {
    text: String,
}

impl View for ProxyString {
    type V = Seq<char>;

    closed spec fn view(&self) -> Seq<char> {
        self.text@
    }
}

impl ProxyString {
    /// Accepts exactly the well-shaped `ip:port:user:pass` strings and
    /// stores the input unchanged.
    pub fn new(proxy_string: &str) -> (r: Result<Self, BuildError>)
        ensures
            r is Ok <==> proxy_string_valid(proxy_string@),
            r matches Ok(p) ==> p@ == proxy_string@,
            r is Err ==> r == Err::<Self, BuildError>(BuildError::ProxyStringIncorrectFormat),
    {
        let parts = split_char(proxy_string, ':');
        proof {
            assert(parts.deep_view().len() == parts@.len());
        }
        if parts.len() != 4 {
            return Err(BuildError::ProxyStringIncorrectFormat);
        }
        proof {
            assert(parts[0int]@ == split_on(proxy_string@, ':')[0]);
            assert(parts[1int]@ == split_on(proxy_string@, ':')[1]);
            assert(parts[2int]@ == split_on(proxy_string@, ':')[2]);
            assert(parts[3int]@ == split_on(proxy_string@, ':')[3]);
        }
        if !is_ipv4(parts[0].as_str()) {
            return Err(BuildError::ProxyStringIncorrectFormat);
        }
        if parse_u16_text(parts[1].as_str()).is_none() {
            return Err(BuildError::ProxyStringIncorrectFormat);
        }
        if parts[2].as_str().is_empty() || parts[3].as_str().is_empty() {
            return Err(BuildError::ProxyStringIncorrectFormat);
        }
        Ok(ProxyString { text: proxy_string.to_owned() })
    }

    pub fn as_str(&self) -> (r: &str)
        ensures
            r@ == self@,
    {
        self.text.as_str()
    }
}

// ---------------------------------------------------------------------------
// IpsToConnect
// ---------------------------------------------------------------------------
/// The argument of the ip-auth endpoint: either drop the address
/// authorization or attach it to a list of addresses.
#[derive(Debug, Clone, PartialEq, Eq)]
pub enum IpsToConnect {
    Delete,
    Connect(Vec<IpAddress>),
}

impl IpsToConnect {
    /// External text form: the word `delete`, or the addresses joined
    /// with commas.
    pub open spec fn spec_text(&self) -> Seq<char> {
        match self {
            IpsToConnect::Delete => "delete"@,
            IpsToConnect::Connect(ips) => join_with(ips.deep_view(), ','),
        }
    }

    pub fn to_text(&self) -> (r: String)
        ensures
            r@ == self.spec_text(),
    {
        match self {
            IpsToConnect::Delete => "delete".to_owned(),
            IpsToConnect::Connect(ips) => {
                let mut texts: Vec<String> = Vec::new();
                let mut i: usize = 0;
                while i < ips.len()
                    invariant
                        i <= ips.len(),
                        texts.deep_view() == ips.deep_view().subrange(0, i as int),
                    decreases ips.len() - i,
                {
                    let ghost prev = texts.deep_view();
                    texts.push(ips[i].as_str().to_owned());
                    proof {
                        assert(texts.deep_view() =~= prev.push(ips.deep_view()[i as int]));
                        assert(ips.deep_view().subrange(0, i + 1) =~= prev.push(
                            ips.deep_view()[i as int],
                        ));
                    }
                    i = i + 1;
                }
                proof {
                    assert(ips.deep_view().subrange(0, ips.len() as int) =~= ips.deep_view());
                }
                crate::text::join_strings(&texts, ',')
            },
        }
    }
}

// ---------------------------------------------------------------------------
// Closed enumerations with fixed external text forms
// ---------------------------------------------------------------------------
/// The protocol a proxy speaks.
#[derive(Debug, Clone, PartialEq, Eq)]
pub enum ProxyType {
    Http,
    Socks5,
}

impl ProxyType {
    pub open spec fn spec_code(&self) -> Seq<char> {
        match self {
            ProxyType::Http => "http"@,
            ProxyType::Socks5 => "socks"@,
        }
    }

    /// External text form, as the API spells it.
    pub fn as_str(&self) -> (r: &'static str)
        ensures
            r@ == self.spec_code(),
    {
        match self {
            ProxyType::Http => "http",
            ProxyType::Socks5 => "socks",
        }
    }
}

/// Which proxies a listing request selects.
#[derive(Debug, Clone, PartialEq, Eq)]
pub enum ProxyStatus {
    Active,
    Inactive,
    Expiring,
    All,
}

impl ProxyStatus {
    pub open spec fn spec_code(&self) -> Seq<char> {
        match self {
            ProxyStatus::Active => "active"@,
            ProxyStatus::Inactive => "inactive"@,
            ProxyStatus::Expiring => "expiring"@,
            ProxyStatus::All => "all"@,
        }
    }

    /// External text form, as the API spells it.
    pub fn as_str(&self) -> (r: &'static str)
        ensures
            r@ == self.spec_code(),
    {
        match self {
            ProxyStatus::Active => "active",
            ProxyStatus::Inactive => "inactive",
            ProxyStatus::Expiring => "expiring",
            ProxyStatus::All => "all",
        }
    }
}

/// The IP version of a proxy; the API names each by a digit.
#[derive(Debug, Clone, PartialEq, Eq)]
pub enum ProxyVersion {
    Ipv4,
    Ipv6,
    Ipv4Shared,
}

impl ProxyVersion {
    pub open spec fn spec_code(&self) -> Seq<char> {
        match self {
            ProxyVersion::Ipv4 => "4"@,
            ProxyVersion::Ipv6 => "6"@,
            ProxyVersion::Ipv4Shared => "3"@,
        }
    }

    /// External text form, as the API spells it.
    pub fn as_str(&self) -> (r: &'static str)
        ensures
            r@ == self.spec_code(),
    {
        match self {
            ProxyVersion::Ipv4 => "4",
            ProxyVersion::Ipv6 => "6",
            ProxyVersion::Ipv4Shared => "3",
        }
    }
}

// ---------------------------------------------------------------------------
// Plain wrappers over response primitives
// ---------------------------------------------------------------------------
/// A TCP port as the API reports it.
#[derive(Debug, Clone, PartialEq, Eq)]
pub struct Port {
    port: u16,
}

impl View for Port {
    type V = u16;

    closed spec fn view(&self) -> u16 {
        self.port
    }
}

impl Port {
    pub fn new(port: u16) -> (r: Self)
        ensures
            r@ == port,
    {
        Port { port }
    }

    pub fn as_u16(&self) -> (r: u16)
        ensures
            r == self@,
    {
        self.port
    }
}

/// Login name of a proxy credential pair.
#[derive(Debug, Clone, PartialEq, Eq)]
pub struct Username {
    name: String,
}

impl View for Username {
    type V = Seq<char>;

    closed spec fn view(&self) -> Seq<char> {
        self.name@
    }
}

impl Username {
    pub fn new(username: String) -> (r: Self)
        ensures
            r@ == username@,
    {
        Username { name: username }
    }

    pub fn as_str(&self) -> (r: &str)
        ensures
            r@ == self@,
    {
        self.name.as_str()
    }
}

/// Password of a proxy credential pair.
#[derive(Debug, Clone, PartialEq, Eq)]
pub struct Password {
    secret: String,
}

impl View for Password {
    type V = Seq<char>;

    closed spec fn view(&self) -> Seq<char> {
        self.secret@
    }
}

impl Password {
    pub fn new(password: String) -> (r: Self)
        ensures
            r@ == password@,
    {
        Password { secret: password }
    }

    pub fn as_str(&self) -> (r: &str)
        ensures
            r@ == self@,
    {
        self.secret.as_str()
    }
}

/// The `status` field every response carries.
#[derive(Debug, Clone, PartialEq, Eq)]
pub struct ResponseStatus {
    status: String,
}

impl View for ResponseStatus {
    type V = Seq<char>;

    closed spec fn view(&self) -> Seq<char> {
        self.status@
    }
}

impl ResponseStatus {
    pub fn new(status: String) -> (r: Self)
        ensures
            r@ == status@,
    {
        ResponseStatus { status }
    }

    pub fn as_str(&self) -> (r: &str)
        ensures
            r@ == self@,
    {
        self.status.as_str()
    }
}

/// The account identifier every response carries.
#[derive(Debug, Clone, PartialEq, Eq)]
pub struct UserId {
    id: String,
}

impl View for UserId {
    type V = Seq<char>;

    closed spec fn view(&self) -> Seq<char> {
        self.id@
    }
}

impl UserId {
    pub fn new(id: String) -> (r: Self)
        ensures
            r@ == id@,
    {
        UserId { id }
    }

    pub fn as_str(&self) -> (r: &str)
        ensures
            r@ == self@,
    {
        self.id.as_str()
    }
}

/// The account balance every response carries, as the API's own text.
#[derive(Debug, Clone, PartialEq, Eq)]
pub struct UserBalance {
    balance: String,
}

impl View for UserBalance {
    type V = Seq<char>;

    closed spec fn view(&self) -> Seq<char> {
        self.balance@
    }
}

impl UserBalance {
    pub fn new(balance: String) -> (r: Self)
        ensures
            r@ == balance@,
    {
        UserBalance { balance }
    }

    pub fn as_str(&self) -> (r: &str)
        ensures
            r@ == self@,
    {
        self.balance.as_str()
    }
}

/// The currency code every response carries.
#[derive(Debug, Clone, PartialEq, Eq)]
pub struct Currency {
    currency: String,
}

impl View for Currency {
    type V = Seq<char>;

    closed spec fn view(&self) -> Seq<char> {
        self.currency@
    }
}

impl Currency {
    pub fn new(currency: String) -> (r: Self)
        ensures
            r@ == currency@,
    {
        Currency { currency }
    }

    pub fn as_str(&self) -> (r: &str)
        ensures
            r@ == self@,
    {
        self.currency.as_str()
    }
}

/// A numeric order identifier.
#[derive(Debug, Clone, PartialEq, Eq)]
pub struct OrderId {
    id: usize,
}

impl View for OrderId {
    type V = usize;

    closed spec fn view(&self) -> usize {
        self.id
    }
}

impl OrderId {
    pub fn new(id: usize) -> (r: Self)
        ensures
            r@ == id,
    {
        OrderId { id }
    }

    pub fn as_usize(&self) -> (r: usize)
        ensures
            r == self@,
    {
        self.id
    }
}

// ---------------------------------------------------------------------------
// Proxy
// ---------------------------------------------------------------------------
/// One proxy of the account, as the listing endpoint reports it.
#[derive(Debug, Clone)]
pub struct Proxy {
    pub id: ProxyId,
    pub ip: IpAddress,
    pub host: IpAddress,
    pub port: Port,
    pub user: Username,
    pub password: Password,
    pub protocol: ProxyType,
    pub country: Country,
    pub date: String,
    pub date_end: String,
    pub unixtime: u64,
    pub unixtime_end: u64,
    pub description: ProxyDescription,
    pub active: bool,
}

/// The mathematical content of a `Proxy`.
pub ghost struct ProxyView {
    pub id: Seq<char>,
    pub ip: Seq<char>,
    pub host: Seq<char>,
    pub port: u16,
    pub user: Seq<char>,
    pub password: Seq<char>,
    pub protocol: ProxyType,
    pub country: Seq<char>,
    pub date: Seq<char>,
    pub date_end: Seq<char>,
    pub unixtime: u64,
    pub unixtime_end: u64,
    pub description: Seq<char>,
    pub active: bool,
}

impl View for Proxy {
    type V = ProxyView;

    open spec fn view(&self) -> ProxyView {
        ProxyView {
            id: self.id@,
            ip: self.ip@,
            host: self.host@,
            port: self.port@,
            user: self.user@,
            password: self.password@,
            protocol: self.protocol,
            country: self.country@,
            date: self.date@,
            date_end: self.date_end@,
            unixtime: self.unixtime,
            unixtime_end: self.unixtime_end,
            description: self.description@,
            active: self.active,
        }
    }
}

impl DeepView for Proxy {
    type V = ProxyView;

    open spec fn deep_view(&self) -> ProxyView {
        self.view()
    }
}

} // verus!
