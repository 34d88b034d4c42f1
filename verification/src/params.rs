//! Request parameter objects, one per API method, and the encoder
//! that turns each into its ordered query string.  A pair with an
//! absent value is omitted, a pair with a present-but-empty value
//! renders as the bare key, and everything else renders as
//! `key=value`; pairs keep field declaration order and are joined
//! with `&`.
use vstd::prelude::*;
use vstd::string::StrSliceExecFns;
use vstd::string::StringExecFns;

use crate::text::decimal_string;
use crate::text::dec_str;
use crate::text::join_strings;
use crate::text::join_with;
use crate::value_object::Country;
use crate::value_object::IpsToConnect;
use crate::value_object::PageLimit;
use crate::value_object::ProxyDescription;
use crate::value_object::ProxyId;
use crate::value_object::ProxyPeriod;
use crate::value_object::ProxyStatus;
use crate::value_object::ProxyString;
use crate::value_object::ProxyType;
use crate::value_object::ProxyVersion;

verus! {

// ---------------------------------------------------------------------------
// Rendering
// ---------------------------------------------------------------------------
/// One rendered pair: the bare key for an empty value, `key=value`
/// otherwise.
pub open spec fn render_piece(key: Seq<char>, val: Seq<char>) -> Seq<char> {
    if val.len() == 0 {
        key
    } else {
        key + seq!['='] + val
    }
}

/// The rendered pieces of a pair list, in order, pairs with an absent
/// value omitted.
pub open spec fn rendered_pieces(ps: Seq<(Seq<char>, Option<Seq<char>>)>) -> Seq<Seq<char>>
    decreases ps.len(),
{
    if ps.len() == 0 {
        Seq::<Seq<char>>::empty()
    } else {
        let rest = rendered_pieces(ps.drop_first());
        match ps[0].1 {
            None => rest,
            Some(v) => seq![render_piece(ps[0].0, v)] + rest,
        }
    }
}

/// The full query string of a pair list.
pub open spec fn render_query(ps: Seq<(Seq<char>, Option<Seq<char>>)>) -> Seq<char> {
    join_with(rendered_pieces(ps), '&')
}

/// Rendering one more pair appends its piece, or nothing for an
/// absent value.
pub proof fn lemma_rendered_pieces_push(
    ps: Seq<(Seq<char>, Option<Seq<char>>)>,
    p: (Seq<char>, Option<Seq<char>>),
)
    ensures
        rendered_pieces(ps.push(p)) == rendered_pieces(ps) + (match p.1 {
            None => Seq::<Seq<char>>::empty(),
            Some(v) => seq![render_piece(p.0, v)],
        }),
    decreases ps.len(),
{
    let tail = match p.1 {
        None => Seq::<Seq<char>>::empty(),
        Some(v) => seq![render_piece(p.0, v)],
    };
    if ps.len() == 0 {
        assert(ps.push(p).drop_first() =~= ps);
        assert(ps.push(p)[0] == p);
        assert(rendered_pieces(ps) == Seq::<Seq<char>>::empty());
        assert(rendered_pieces(ps.push(p)) =~~= rendered_pieces(ps) + tail);
    } else {
        assert(ps.push(p)[0] == ps[0]);
        assert(ps.push(p).drop_first() =~= ps.drop_first().push(p));
        lemma_rendered_pieces_push(ps.drop_first(), p);
        assert(rendered_pieces(ps.push(p)) =~~= rendered_pieces(ps) + tail);
    }
}

/// Renders a pair list into its query string.
pub fn render_pairs(pairs: &Vec<(String, Option<String>)>) -> (r: String)
    ensures
        r@ == render_query(pairs.deep_view()),
{
    let mut pieces: Vec<String> = Vec::new();
    let mut i: usize = 0;
    proof {
        assert(pairs.deep_view().subrange(0, 0) =~= Seq::<(Seq<char>, Option<Seq<char>>)>::empty());
    }
    while i < pairs.len()
        invariant
            i <= pairs.len(),
            pairs@.len() == pairs.deep_view().len(),
            pieces.deep_view() == rendered_pieces(pairs.deep_view().subrange(0, i as int)),
        decreases pairs.len() - i,
    {
        proof {
            let pref = pairs.deep_view().subrange(0, i as int);
            assert(pairs.deep_view().subrange(0, i + 1) =~= pref.push(
                pairs.deep_view()[i as int],
            ));
            lemma_rendered_pieces_push(pref, pairs.deep_view()[i as int]);
        }
        match &pairs[i].1 {
            None => {},
            Some(v) => {
                let piece = if v.as_str().is_empty() {
                    pairs[i].0.clone()
                } else {
                    let mut p = pairs[i].0.clone();
                    p.append("=");
                    p.append(v.as_str());
                    proof {
                        reveal_strlit("=");
                        assert("="@ =~= seq!['=']);
                    }
                    p
                };
                let ghost prev = pieces.deep_view();
                proof {
                    assert(piece@ =~= render_piece(
                        pairs.deep_view()[i as int].0,
                        pairs.deep_view()[i as int].1->0,
                    ));
                }
                pieces.push(piece);
                proof {
                    assert(pieces.deep_view() =~= prev.push(piece@));
                    assert(prev.push(piece@) =~= prev + seq![piece@]);
                }
            },
        }
        i = i + 1;
    }
    proof {
        assert(pairs.deep_view().subrange(0, pairs@.len() as int) =~= pairs.deep_view());
    }
    join_strings(&pieces, '&')
}

/// Encoding is idempotent: any two renderings of the same ordered
/// pair list — and so of the same parameter object — are the same
/// string.
pub proof fn lemma_query_encoding_deterministic(
    ps: Seq<(Seq<char>, Option<Seq<char>>)>,
    a: Seq<char>,
    b: Seq<char>,
)
    requires
        a == render_query(ps),
        b == render_query(ps),
    ensures
        a == b,
{
}

/// Proxy identifiers joined with commas, as list-valued fields render.
fn ids_joined(ids: &Vec<ProxyId>) -> (r: String)
    ensures
        r@ == join_with(ids.deep_view(), ','),
{
    let mut texts: Vec<String> = Vec::new();
    let mut i: usize = 0;
    while i < ids.len()
        invariant
            i <= ids.len(),
            texts.deep_view() == ids.deep_view().subrange(0, i as int),
        decreases ids.len() - i,
    {
        let ghost prev = texts.deep_view();
        texts.push(ids[i].as_str().to_owned());
        proof {
            assert(texts.deep_view() =~= prev.push(ids.deep_view()[i as int]));
            assert(ids.deep_view().subrange(0, i + 1) =~= prev.push(ids.deep_view()[i as int]));
        }
        i = i + 1;
    }
    proof {
        assert(ids.deep_view().subrange(0, ids@.len() as int) =~= ids.deep_view());
    }
    join_strings(&texts, ',')
}

// ---------------------------------------------------------------------------
// Parameter objects
// ---------------------------------------------------------------------------
/// Parameters of the get-price method.
#[derive(Debug, Clone, PartialEq, Eq)]
pub struct GetPrice {
    pub count: usize,
    pub period: ProxyPeriod,
    pub version: Option<ProxyVersion>,
}

impl GetPrice {
    /// The ordered pairs this object encodes to.
    pub open spec fn spec_query_pairs(&self) -> Seq<(Seq<char>, Option<Seq<char>>)> {
        seq![
            ("count"@, Some(dec_str(self.count as nat))),
            ("period"@, Some(dec_str(self.period@ as nat))),
            (
                "version"@,
                match self.version {
                    Some(v) => Some(v.spec_code()),
                    None => None,
                },
            ),
        ]
    }

    /// The ordered key-value pairs, one per field.
    pub fn to_query_tuple(&self) -> (r: Vec<(String, Option<String>)>)
        ensures
            r.deep_view() == self.spec_query_pairs(),
    {
        let mut v: Vec<(String, Option<String>)> = Vec::new();
        v.push(("count".to_owned(), Some(decimal_string(self.count))));
        v.push(("period".to_owned(), Some(decimal_string(self.period.as_usize()))));
        let version = match &self.version {
            Some(x) => Some(x.as_str().to_owned()),
            None => None,
        };
        v.push(("version".to_owned(), version));
        proof {
            assert(v.deep_view() =~~= self.spec_query_pairs());
        }
        v
    }

    /// The rendered query string of this object.
    pub fn to_query_string(&self) -> (r: String)
        ensures
            r@ == render_query(self.spec_query_pairs()),
    {
        let pairs = self.to_query_tuple();
        render_pairs(&pairs)
    }
}

/// Parameters of the get-count method.
#[derive(Debug, Clone, PartialEq, Eq)]
pub struct GetCount {
    pub country: Country,
    pub version: Option<ProxyVersion>,
}

impl GetCount {
    /// The ordered pairs this object encodes to.
    pub open spec fn spec_query_pairs(&self) -> Seq<(Seq<char>, Option<Seq<char>>)> {
        seq![
            ("country"@, Some(self.country@)),
            (
                "version"@,
                match self.version {
                    Some(v) => Some(v.spec_code()),
                    None => None,
                },
            ),
        ]
    }

    /// The ordered key-value pairs, one per field.
    pub fn to_query_tuple(&self) -> (r: Vec<(String, Option<String>)>)
        ensures
            r.deep_view() == self.spec_query_pairs(),
    {
        let mut v: Vec<(String, Option<String>)> = Vec::new();
        v.push(("country".to_owned(), Some(self.country.as_str().to_owned())));
        let version = match &self.version {
            Some(x) => Some(x.as_str().to_owned()),
            None => None,
        };
        v.push(("version".to_owned(), version));
        proof {
            assert(v.deep_view() =~~= self.spec_query_pairs());
        }
        v
    }

    /// The rendered query string of this object.
    pub fn to_query_string(&self) -> (r: String)
        ensures
            r@ == render_query(self.spec_query_pairs()),
    {
        let pairs = self.to_query_tuple();
        render_pairs(&pairs)
    }
}

/// Parameters of the get-country method.
#[derive(Debug, Clone, PartialEq, Eq)]
pub struct GetCountry {
    pub version: Option<ProxyVersion>,
}

impl GetCountry {
    /// The ordered pairs this object encodes to.
    pub open spec fn spec_query_pairs(&self) -> Seq<(Seq<char>, Option<Seq<char>>)> {
        seq![
            (
                "version"@,
                match self.version {
                    Some(v) => Some(v.spec_code()),
                    None => None,
                },
            ),
        ]
    }

    /// The ordered key-value pairs, one per field.
    pub fn to_query_tuple(&self) -> (r: Vec<(String, Option<String>)>)
        ensures
            r.deep_view() == self.spec_query_pairs(),
    {
        let mut v: Vec<(String, Option<String>)> = Vec::new();
        let version = match &self.version {
            Some(x) => Some(x.as_str().to_owned()),
            None => None,
        };
        v.push(("version".to_owned(), version));
        proof {
            assert(v.deep_view() =~~= self.spec_query_pairs());
        }
        v
    }

    /// The rendered query string of this object.
    pub fn to_query_string(&self) -> (r: String)
        ensures
            r@ == render_query(self.spec_query_pairs()),
    {
        let pairs = self.to_query_tuple();
        render_pairs(&pairs)
    }
}

/// Parameters of the get-proxy listing method.
#[derive(Debug, Clone, PartialEq, Eq)]
pub struct GetProxy {
    pub state: Option<ProxyStatus>,
    pub description: Option<ProxyDescription>,
    pub page: Option<usize>,
    pub limit: Option<PageLimit>,
}

impl GetProxy {
    /// The ordered pairs this object encodes to; `nokey` is always
    /// present as a bare flag.
    pub open spec fn spec_query_pairs(&self) -> Seq<(Seq<char>, Option<Seq<char>>)> {
        seq![
            (
                "state"@,
                match self.state {
                    Some(s) => Some(s.spec_code()),
                    None => None,
                },
            ),
            (
                "descr"@,
                match self.description {
                    Some(d) => Some(d@),
                    None => None,
                },
            ),
            (
                "page"@,
                match self.page {
                    Some(p) => Some(dec_str(p as nat)),
                    None => None,
                },
            ),
            (
                "limit"@,
                match self.limit {
                    Some(l) => Some(dec_str(l@ as nat)),
                    None => None,
                },
            ),
            ("nokey"@, Some(Seq::<char>::empty())),
        ]
    }

    /// The ordered key-value pairs, one per field.
    pub fn to_query_tuple(&self) -> (r: Vec<(String, Option<String>)>)
        ensures
            r.deep_view() == self.spec_query_pairs(),
    {
        let mut v: Vec<(String, Option<String>)> = Vec::new();
        let state = match &self.state {
            Some(s) => Some(s.as_str().to_owned()),
            None => None,
        };
        v.push(("state".to_owned(), state));
        let descr = match &self.description {
            Some(d) => Some(d.as_str().to_owned()),
            None => None,
        };
        v.push(("descr".to_owned(), descr));
        let page = match &self.page {
            Some(p) => Some(decimal_string(*p)),
            None => None,
        };
        v.push(("page".to_owned(), page));
        let limit = match &self.limit {
            Some(l) => Some(decimal_string(l.as_u16() as usize)),
            None => None,
        };
        v.push(("limit".to_owned(), limit));
        v.push(("nokey".to_owned(), Some(String::new())));
        proof {
            assert(v.deep_view() =~~= self.spec_query_pairs());
        }
        v
    }

    /// The rendered query string of this object.
    pub fn to_query_string(&self) -> (r: String)
        ensures
            r@ == render_query(self.spec_query_pairs()),
    {
        let pairs = self.to_query_tuple();
        render_pairs(&pairs)
    }
}

/// Parameters of the set-type method.
#[derive(Debug, Clone, PartialEq, Eq)]
pub struct SetType {
    pub ids: Vec<ProxyId>,
    pub protocol: ProxyType,
}

impl SetType {
    /// The ordered pairs this object encodes to.
    pub open spec fn spec_query_pairs(&self) -> Seq<(Seq<char>, Option<Seq<char>>)> {
        seq![
            ("ids"@, Some(join_with(self.ids.deep_view(), ','))),
            ("type"@, Some(self.protocol.spec_code())),
        ]
    }

    /// The ordered key-value pairs, one per field.
    pub fn to_query_tuple(&self) -> (r: Vec<(String, Option<String>)>)
        ensures
            r.deep_view() == self.spec_query_pairs(),
    {
        let mut v: Vec<(String, Option<String>)> = Vec::new();
        v.push(("ids".to_owned(), Some(ids_joined(&self.ids))));
        v.push(("type".to_owned(), Some(self.protocol.as_str().to_owned())));
        proof {
            assert(v.deep_view() =~~= self.spec_query_pairs());
        }
        v
    }

    /// The rendered query string of this object.
    pub fn to_query_string(&self) -> (r: String)
        ensures
            r@ == render_query(self.spec_query_pairs()),
    {
        let pairs = self.to_query_tuple();
        render_pairs(&pairs)
    }
}

/// Parameters of the set-description method; the old description or
/// an id list selects the proxies to rewrite.
#[derive(Debug, Clone, PartialEq, Eq)]
pub struct SetDescription {
    pub new: ProxyDescription,
    pub old: Option<ProxyDescription>,
    pub ids: Option<Vec<ProxyId>>,
}

impl SetDescription {
    /// The ordered pairs this object encodes to.
    pub open spec fn spec_query_pairs(&self) -> Seq<(Seq<char>, Option<Seq<char>>)> {
        seq![
            ("new"@, Some(self.new@)),
            (
                "old"@,
                match self.old {
                    Some(d) => Some(d@),
                    None => None,
                },
            ),
            (
                "ids"@,
                match self.ids {
                    Some(ids) => Some(join_with(ids.deep_view(), ',')),
                    None => None,
                },
            ),
        ]
    }

    /// The ordered key-value pairs, one per field.
    pub fn to_query_tuple(&self) -> (r: Vec<(String, Option<String>)>)
        ensures
            r.deep_view() == self.spec_query_pairs(),
    {
        let mut v: Vec<(String, Option<String>)> = Vec::new();
        v.push(("new".to_owned(), Some(self.new.as_str().to_owned())));
        let old = match &self.old {
            Some(d) => Some(d.as_str().to_owned()),
            None => None,
        };
        v.push(("old".to_owned(), old));
        let ids = match &self.ids {
            Some(ids) => Some(ids_joined(ids)),
            None => None,
        };
        v.push(("ids".to_owned(), ids));
        proof {
            assert(v.deep_view() =~~= self.spec_query_pairs());
        }
        v
    }

    /// The rendered query string of this object.
    pub fn to_query_string(&self) -> (r: String)
        ensures
            r@ == render_query(self.spec_query_pairs()),
    {
        let pairs = self.to_query_tuple();
        render_pairs(&pairs)
    }
}

/// Parameters of the buy method.
#[derive(Debug, Clone, PartialEq, Eq)]
pub struct Buy {
    pub count: usize,
    pub period: ProxyPeriod,
    pub country: Country,
    pub version: Option<ProxyVersion>,
    pub protocol: Option<ProxyType>,
    pub description: Option<ProxyDescription>,
    pub auto_prolong: bool,
}

impl Buy {
    /// The ordered pairs this object encodes to; `auto_prolong` is a
    /// bare flag when set, and `nokey` is always present.
    pub open spec fn spec_query_pairs(&self) -> Seq<(Seq<char>, Option<Seq<char>>)> {
        seq![
            ("count"@, Some(dec_str(self.count as nat))),
            ("period"@, Some(dec_str(self.period@ as nat))),
            ("country"@, Some(self.country@)),
            (
                "version"@,
                match self.version {
                    Some(v) => Some(v.spec_code()),
                    None => None,
                },
            ),
            (
                "type"@,
                match self.protocol {
                    Some(t) => Some(t.spec_code()),
                    None => None,
                },
            ),
            (
                "descr"@,
                match self.description {
                    Some(d) => Some(d@),
                    None => None,
                },
            ),
            (
                "auto_prolong"@,
                if self.auto_prolong {
                    Some(Seq::<char>::empty())
                } else {
                    None
                },
            ),
            ("nokey"@, Some(Seq::<char>::empty())),
        ]
    }

    /// The ordered key-value pairs, one per field.
    pub fn to_query_tuple(&self) -> (r: Vec<(String, Option<String>)>)
        ensures
            r.deep_view() == self.spec_query_pairs(),
    {
        let mut v: Vec<(String, Option<String>)> = Vec::new();
        v.push(("count".to_owned(), Some(decimal_string(self.count))));
        v.push(("period".to_owned(), Some(decimal_string(self.period.as_usize()))));
        v.push(("country".to_owned(), Some(self.country.as_str().to_owned())));
        let version = match &self.version {
            Some(x) => Some(x.as_str().to_owned()),
            None => None,
        };
        v.push(("version".to_owned(), version));
        let protocol = match &self.protocol {
            Some(t) => Some(t.as_str().to_owned()),
            None => None,
        };
        v.push(("type".to_owned(), protocol));
        let descr = match &self.description {
            Some(d) => Some(d.as_str().to_owned()),
            None => None,
        };
        v.push(("descr".to_owned(), descr));
        let auto_prolong = if self.auto_prolong {
            Some(String::new())
        } else {
            None
        };
        v.push(("auto_prolong".to_owned(), auto_prolong));
        v.push(("nokey".to_owned(), Some(String::new())));
        proof {
            assert(v.deep_view() =~~= self.spec_query_pairs());
        }
        v
    }

    /// The rendered query string of this object.
    pub fn to_query_string(&self) -> (r: String)
        ensures
            r@ == render_query(self.spec_query_pairs()),
    {
        let pairs = self.to_query_tuple();
        render_pairs(&pairs)
    }
}

/// Parameters of the prolong method.
#[derive(Debug, Clone, PartialEq, Eq)]
pub struct Prolong {
    pub period: ProxyPeriod,
    pub ids: Vec<ProxyId>,
}

impl Prolong {
    /// The ordered pairs this object encodes to; `nokey` is always
    /// present as a bare flag.
    pub open spec fn spec_query_pairs(&self) -> Seq<(Seq<char>, Option<Seq<char>>)> {
        seq![
            ("period"@, Some(dec_str(self.period@ as nat))),
            ("ids"@, Some(join_with(self.ids.deep_view(), ','))),
            ("nokey"@, Some(Seq::<char>::empty())),
        ]
    }

    /// The ordered key-value pairs, one per field.
    pub fn to_query_tuple(&self) -> (r: Vec<(String, Option<String>)>)
        ensures
            r.deep_view() == self.spec_query_pairs(),
    {
        let mut v: Vec<(String, Option<String>)> = Vec::new();
        v.push(("period".to_owned(), Some(decimal_string(self.period.as_usize()))));
        v.push(("ids".to_owned(), Some(ids_joined(&self.ids))));
        v.push(("nokey".to_owned(), Some(String::new())));
        proof {
            assert(v.deep_view() =~~= self.spec_query_pairs());
        }
        v
    }

    /// The rendered query string of this object.
    pub fn to_query_string(&self) -> (r: String)
        ensures
            r@ == render_query(self.spec_query_pairs()),
    {
        let pairs = self.to_query_tuple();
        render_pairs(&pairs)
    }
}

/// Parameters of the delete method; an id list or a description
/// selects the proxies to drop.
#[derive(Debug, Clone, PartialEq, Eq)]
pub struct Delete {
    pub ids: Option<Vec<ProxyId>>,
    pub description: Option<ProxyDescription>,
}

impl Delete {
    /// The ordered pairs this object encodes to.
    pub open spec fn spec_query_pairs(&self) -> Seq<(Seq<char>, Option<Seq<char>>)> {
        seq![
            (
                "ids"@,
                match self.ids {
                    Some(ids) => Some(join_with(ids.deep_view(), ',')),
                    None => None,
                },
            ),
            (
                "descr"@,
                match self.description {
                    Some(d) => Some(d@),
                    None => None,
                },
            ),
        ]
    }

    /// The ordered key-value pairs, one per field.
    pub fn to_query_tuple(&self) -> (r: Vec<(String, Option<String>)>)
        ensures
            r.deep_view() == self.spec_query_pairs(),
    {
        let mut v: Vec<(String, Option<String>)> = Vec::new();
        let ids = match &self.ids {
            Some(ids) => Some(ids_joined(ids)),
            None => None,
        };
        v.push(("ids".to_owned(), ids));
        let descr = match &self.description {
            Some(d) => Some(d.as_str().to_owned()),
            None => None,
        };
        v.push(("descr".to_owned(), descr));
        proof {
            assert(v.deep_view() =~~= self.spec_query_pairs());
        }
        v
    }

    /// The rendered query string of this object.
    pub fn to_query_string(&self) -> (r: String)
        ensures
            r@ == render_query(self.spec_query_pairs()),
    {
        let pairs = self.to_query_tuple();
        render_pairs(&pairs)
    }
}

/// Parameters of the check method; an id list or a full proxy string
/// names what to check.
#[derive(Debug, Clone, PartialEq, Eq)]
pub struct Check {
    pub ids: Option<Vec<ProxyId>>,
    pub proxy_string: Option<ProxyString>,
}

impl Check {
    /// The ordered pairs this object encodes to.
    pub open spec fn spec_query_pairs(&self) -> Seq<(Seq<char>, Option<Seq<char>>)> {
        seq![
            (
                "ids"@,
                match self.ids {
                    Some(ids) => Some(join_with(ids.deep_view(), ',')),
                    None => None,
                },
            ),
            (
                "proxy"@,
                match self.proxy_string {
                    Some(p) => Some(p@),
                    None => None,
                },
            ),
        ]
    }

    /// The ordered key-value pairs, one per field.
    pub fn to_query_tuple(&self) -> (r: Vec<(String, Option<String>)>)
        ensures
            r.deep_view() == self.spec_query_pairs(),
    {
        let mut v: Vec<(String, Option<String>)> = Vec::new();
        let ids = match &self.ids {
            Some(ids) => Some(ids_joined(ids)),
            None => None,
        };
        v.push(("ids".to_owned(), ids));
        let proxy = match &self.proxy_string {
            Some(p) => Some(p.as_str().to_owned()),
            None => None,
        };
        v.push(("proxy".to_owned(), proxy));
        proof {
            assert(v.deep_view() =~~= self.spec_query_pairs());
        }
        v
    }

    /// The rendered query string of this object.
    pub fn to_query_string(&self) -> (r: String)
        ensures
            r@ == render_query(self.spec_query_pairs()),
    {
        let pairs = self.to_query_tuple();
        render_pairs(&pairs)
    }
}

/// Parameters of the ip-auth method.
#[derive(Debug, Clone, PartialEq, Eq)]
pub struct IpAuth {
    pub ip: IpsToConnect,
}

impl IpAuth {
    /// The ordered pairs this object encodes to.
    pub open spec fn spec_query_pairs(&self) -> Seq<(Seq<char>, Option<Seq<char>>)> {
        seq![("ip"@, Some(self.ip.spec_text()))]
    }

    /// The ordered key-value pairs, one per field.
    pub fn to_query_tuple(&self) -> (r: Vec<(String, Option<String>)>)
        ensures
            r.deep_view() == self.spec_query_pairs(),
    {
        let mut v: Vec<(String, Option<String>)> = Vec::new();
        v.push(("ip".to_owned(), Some(self.ip.to_text())));
        proof {
            assert(v.deep_view() =~~= self.spec_query_pairs());
        }
        v
    }

    /// The rendered query string of this object.
    pub fn to_query_string(&self) -> (r: String)
        ensures
            r@ == render_query(self.spec_query_pairs()),
    {
        let pairs = self.to_query_tuple();
        render_pairs(&pairs)
    }
}

} // verus!
