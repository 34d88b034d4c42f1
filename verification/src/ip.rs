//! Textual IPv4 addresses.  The API carries addresses as dotted-quad
//! strings, both inside `ip:port:user:pass` proxy strings (whose parts
//! are colon-free, so only the IPv4 form can occur there) and in the
//! address lists handed to the ip-auth endpoint.
use vstd::prelude::*;
use vstd::string::StrSliceExecFns;
use vstd::string::StringExecFns;

use crate::text::all_digits;
use crate::text::digit_char_val;
use crate::text::digits_val;
use crate::text::is_digit_char;
use crate::text::split_char;
use crate::text::split_on;

verus! {

/// One octet of a dotted-quad address: one to three digits, value at
/// most 255, and no leading zero.
pub open spec fn is_ipv4_octet(s: Seq<char>) -> bool {
    &&& 1 <= s.len() <= 3
    &&& all_digits(s)
    &&& digits_val(s) <= 255
    &&& (s.len() > 1 ==> s[0] != '0')
}

/// `s` is a dotted-quad IPv4 address: four octets separated by dots.
pub open spec fn is_ipv4_text(s: Seq<char>) -> bool {
    let parts = split_on(s, '.');
    parts.len() == 4 && (forall|i: int| 0 <= i < 4 ==> is_ipv4_octet(#[trigger] parts[i]))
}

/// A digit string of at most three characters stays below 1000.
proof fn lemma_short_digits_val(s: Seq<char>)
    requires
        all_digits(s),
    ensures
        s.len() == 0 ==> digits_val(s) == 0,
        s.len() <= 1 ==> digits_val(s) <= 9,
        s.len() <= 2 ==> digits_val(s) <= 99,
        s.len() <= 3 ==> digits_val(s) <= 999,
    decreases s.len(),
{
    if s.len() > 0 {
        assert(all_digits(s.drop_last())) by {
            assert(forall|i: int|
                0 <= i < s.len() - 1 ==> is_digit_char(#[trigger] s.drop_last()[i]));
        }
        lemma_short_digits_val(s.drop_last());
        assert(digit_char_val(s.last()) <= 9);
    }
}

/// Checks one candidate octet.
fn check_octet(s: &str) -> (r: bool)
    ensures
        r == is_ipv4_octet(s@),
{
    let n = s.unicode_len();
    if n < 1 || n > 3 {
        return false;
    }
    if n > 1 && s.get_char(0) == '0' {
        return false;
    }
    let mut acc: u32 = 0;
    let mut i: usize = 0;
    while i < n
        invariant
            i <= n,
            n == s@.len(),
            1 <= n <= 3,
            all_digits(s@.subrange(0, i as int)),
            acc == digits_val(s@.subrange(0, i as int)),
            acc <= 999,
        decreases n - i,
    {
        let c = s.get_char(i);
        if c < '0' || c > '9' {
            assert(!all_digits(s@)) by {
                assert(!is_digit_char(s@[i as int]));
            }
            return false;
        }
        let d: u32 = (c as u32) - 48;
        proof {
            let p = s@.subrange(0, i as int);
            assert(s@.subrange(0, i + 1) =~= p.push(s@[i as int]));
            crate::text::lemma_digits_val_push(p, s@[i as int]);
            assert(all_digits(s@.subrange(0, i + 1)));
            lemma_short_digits_val(s@.subrange(0, i + 1));
        }
        acc = acc * 10 + d;
        i = i + 1;
    }
    proof {
        assert(s@.subrange(0, n as int) =~= s@);
    }
    acc <= 255
}

/// Checks a whole dotted-quad address.
pub fn is_ipv4(s: &str) -> (r: bool)
    ensures
        r == is_ipv4_text(s@),
{
    let parts = split_char(s, '.');
    let ghost sparts = split_on(s@, '.');
    if parts.len() != 4 {
        return false;
    }
    let mut i: usize = 0;
    while i < 4
        invariant
            i <= 4,
            sparts == split_on(s@, '.'),
            parts.deep_view() == sparts,
            parts.len() == 4,
            sparts.len() == 4,
            forall|j: int| 0 <= j < i ==> is_ipv4_octet(#[trigger] sparts[j]),
        decreases 4 - i,
    {
        proof {
            assert(parts[i as int]@ == sparts[i as int]);
        }
        if !check_octet(parts[i].as_str()) {
            assert(!is_ipv4_octet(split_on(s@, '.')[i as int]));
            return false;
        }
        i = i + 1;
    }
    true
}

/// A validated dotted-quad IPv4 address, kept in its textual form.
#[derive(Debug, Clone, PartialEq, Eq)]
pub struct IpAddress {
    text: String,
}

impl View for IpAddress {
    type V = Seq<char>;

    closed spec fn view(&self) -> Seq<char> {
        self.text@
    }
}

impl DeepView for IpAddress {
    type V = Seq<char>;

    open spec fn deep_view(&self) -> Seq<char> {
        self.view()
    }
}

impl IpAddress {
    /// The stored text is always a well-formed dotted quad.
    pub open spec fn wf(&self) -> bool {
        is_ipv4_text(self@)
    }

    /// Accepts exactly the well-formed dotted-quad addresses.
    pub fn parse(s: &str) -> (r: Option<IpAddress>)
        ensures
            match r {
                Some(a) => is_ipv4_text(s@) && a@ == s@ && a.wf(),
                None => !is_ipv4_text(s@),
            },
    {
        if is_ipv4(s) {
            Some(IpAddress { text: s.to_owned() })
        } else {
            None
        }
    }

    pub fn as_str(&self) -> (r: &str)
        ensures
            r@ == self@,
    {
        self.text.as_str()
    }
}

} // verus!
