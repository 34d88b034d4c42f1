//! Verified text utilities shared by the whole crate: decimal digit
//! sequences, parsing and rendering of unsigned integers, and splitting
//! and joining of character sequences.
use vstd::prelude::*;
use vstd::string::StrSliceExecFns;
use vstd::string::StringExecFns;

verus! {

// ---------------------------------------------------------------------------
// Digits
// ---------------------------------------------------------------------------
/// `c` is one of the ten ASCII decimal digits.
pub open spec fn is_digit_char(c: char) -> bool {
    '0' <= c && c <= '9'
}

/// Numeric value of a digit character; `0` for anything below `'0'`.
pub open spec fn digit_char_val(c: char) -> nat {
    ((c as int) - ('0' as int)) as nat
}

/// Every character of `s` is a decimal digit.
pub open spec fn all_digits(s: Seq<char>) -> bool {
    forall|i: int| 0 <= i < s.len() ==> is_digit_char(#[trigger] s[i])
}

/// Value of a digit string read in base ten, most significant digit first.
pub open spec fn digits_val(s: Seq<char>) -> nat
    decreases s.len(),
{
    if s.len() == 0 {
        0
    } else {
        digits_val(s.drop_last()) * 10 + digit_char_val(s.last())
    }
}

/// Extending a digit string on the right multiplies its value by ten.
pub proof fn lemma_digits_val_push(s: Seq<char>, c: char)
    ensures
        digits_val(s.push(c)) == digits_val(s) * 10 + digit_char_val(c),
{
    assert(s.push(c).drop_last() =~= s);
}

/// The value of a digit string is at least the value of any of its prefixes.
pub proof fn lemma_digits_val_prefix_le(s: Seq<char>, k: int)
    requires
        0 <= k <= s.len(),
    ensures
        digits_val(s.subrange(0, k)) <= digits_val(s),
    decreases s.len() - k,
{
    if k < s.len() {
        let p = s.subrange(0, k);
        let q = s.subrange(0, k + 1);
        assert(q =~= p.push(s[k]));
        lemma_digits_val_push(p, s[k]);
        lemma_digits_val_prefix_le(s, k + 1);
    } else {
        assert(s.subrange(0, k) =~= s);
    }
}

// ---------------------------------------------------------------------------
// Unsigned integers written in text, as `str::parse` on an unsigned
// target accepts them: an optional leading '+', then one or more digits.
// ---------------------------------------------------------------------------
/// `s` with a single leading '+' removed, if there is one.
pub open spec fn strip_leading_plus(s: Seq<char>) -> Seq<char> {
    if s.len() > 0 && s[0] == '+' {
        s.drop_first()
    } else {
        s
    }
}

/// `s` is a textual unsigned integer whose value is at most `max`.
pub open spec fn uint_text_ok(s: Seq<char>, max: nat) -> bool {
    let t = strip_leading_plus(s);
    t.len() > 0 && all_digits(t) && digits_val(t) <= max
}

/// Value of a textual unsigned integer.
pub open spec fn uint_text_val(s: Seq<char>) -> nat {
    digits_val(strip_leading_plus(s))
}

/// Parses `s` as a `u16`, accepting an optional leading '+' and
/// rejecting any other non-digit and any value above `u16::MAX`.
pub fn parse_u16_text(s: &str) -> (r: Option<u16>)
    ensures
        match r {
            Some(v) => uint_text_ok(s@, u16::MAX as nat) && v == uint_text_val(s@),
            None => !uint_text_ok(s@, u16::MAX as nat),
        },
{
    let n = s.unicode_len();
    let start: usize = if n > 0 && s.get_char(0) == '+' {
        1
    } else {
        0
    };
    let ghost t = strip_leading_plus(s@);
    assert(t =~= s@.subrange(start as int, n as int));
    if start >= n {
        return None;
    }
    let mut acc: u32 = 0;
    let mut i: usize = start;
    while i < n
        invariant
            start <= i <= n,
            n == s@.len(),
            start == 1 ==> n > 0 && s@[0] == '+',
            start == 0 ==> (n == 0 || s@[0] != '+'),
            t == strip_leading_plus(s@),
            t =~= s@.subrange(start as int, n as int),
            acc <= u16::MAX,
            all_digits(t.subrange(0, i - start)),
            acc == digits_val(t.subrange(0, i - start)),
        decreases n - i,
    {
        let c = s.get_char(i);
        proof {
            assert(t[i - start] == s@[i as int]);
        }
        if c < '0' || c > '9' {
            assert(!all_digits(t)) by {
                assert(!is_digit_char(t[i - start]));
            }
            return None;
        }
        let d: u32 = (c as u32) - 48;
        proof {
            assert(('0' as u32) == 48);
            assert(d == digit_char_val(c));
        }
        let next: u32 = acc * 10 + d;
        proof {
            let p = t.subrange(0, i - start);
            assert(t.subrange(0, i + 1 - start) =~= p.push(t[i - start]));
            lemma_digits_val_push(p, t[i - start]);
        }
        if next > u16::MAX as u32 {
            proof {
                lemma_digits_val_prefix_le(t, i + 1 - start);
            }
            return None;
        }
        acc = next;
        i = i + 1;
    }
    proof {
        assert(t.subrange(0, n - start) =~= t);
    }
    Some(acc as u16)
}

/// Parses `s` as a `usize`, accepting an optional leading '+' and
/// rejecting any other non-digit and any value above `usize::MAX`.
pub fn parse_usize_text(s: &str) -> (r: Option<usize>)
    ensures
        match r {
            Some(v) => uint_text_ok(s@, usize::MAX as nat) && v == uint_text_val(s@),
            None => !uint_text_ok(s@, usize::MAX as nat),
        },
{
    let n = s.unicode_len();
    let start: usize = if n > 0 && s.get_char(0) == '+' {
        1
    } else {
        0
    };
    let ghost t = strip_leading_plus(s@);
    assert(t =~= s@.subrange(start as int, n as int));
    if start >= n {
        return None;
    }
    let mut acc: usize = 0;
    let mut i: usize = start;
    while i < n
        invariant
            start <= i <= n,
            n == s@.len(),
            start == 1 ==> n > 0 && s@[0] == '+',
            start == 0 ==> (n == 0 || s@[0] != '+'),
            t == strip_leading_plus(s@),
            t =~= s@.subrange(start as int, n as int),
            all_digits(t.subrange(0, i - start)),
            acc == digits_val(t.subrange(0, i - start)),
        decreases n - i,
    {
        let c = s.get_char(i);
        proof {
            assert(t[i - start] == s@[i as int]);
        }
        if c < '0' || c > '9' {
            assert(!all_digits(t)) by {
                assert(!is_digit_char(t[i - start]));
            }
            return None;
        }
        let d: u32 = (c as u32) - 48;
        proof {
            assert(('0' as u32) == 48);
            assert(d == digit_char_val(c));
        }
        proof {
            let p = t.subrange(0, i - start);
            assert(t.subrange(0, i + 1 - start) =~= p.push(t[i - start]));
            lemma_digits_val_push(p, t[i - start]);
        }
        let next = match acc.checked_mul(10) {
            Some(m) => m.checked_add(d as usize),
            None => None,
        };
        match next {
            Some(v) => {
                acc = v;
            },
            None => {
                proof {
                    lemma_digits_val_prefix_le(t, i + 1 - start);
                }
                return None;
            },
        }
        i = i + 1;
    }
    proof {
        assert(t.subrange(0, n - start) =~= t);
    }
    Some(acc)
}

/// Parses `s` as a `u64`, accepting an optional leading '+' and
/// rejecting any other non-digit and any value above `u64::MAX`.
pub fn parse_u64_text(s: &str) -> (r: Option<u64>)
    ensures
        match r {
            Some(v) => uint_text_ok(s@, u64::MAX as nat) && v == uint_text_val(s@),
            None => !uint_text_ok(s@, u64::MAX as nat),
        },
{
    let n = s.unicode_len();
    let start: usize = if n > 0 && s.get_char(0) == '+' {
        1
    } else {
        0
    };
    let ghost t = strip_leading_plus(s@);
    assert(t =~= s@.subrange(start as int, n as int));
    if start >= n {
        return None;
    }
    let mut acc: u64 = 0;
    let mut i: usize = start;
    while i < n
        invariant
            start <= i <= n,
            n == s@.len(),
            start == 1 ==> n > 0 && s@[0] == '+',
            start == 0 ==> (n == 0 || s@[0] != '+'),
            t == strip_leading_plus(s@),
            t =~= s@.subrange(start as int, n as int),
            all_digits(t.subrange(0, i - start)),
            acc == digits_val(t.subrange(0, i - start)),
        decreases n - i,
    {
        let c = s.get_char(i);
        proof {
            assert(t[i - start] == s@[i as int]);
        }
        if c < '0' || c > '9' {
            assert(!all_digits(t)) by {
                assert(!is_digit_char(t[i - start]));
            }
            return None;
        }
        let d: u32 = (c as u32) - 48;
        proof {
            assert(('0' as u32) == 48);
            assert(d == digit_char_val(c));
        }
        proof {
            let p = t.subrange(0, i - start);
            assert(t.subrange(0, i + 1 - start) =~= p.push(t[i - start]));
            lemma_digits_val_push(p, t[i - start]);
        }
        let next = match acc.checked_mul(10) {
            Some(m) => m.checked_add(d as u64),
            None => None,
        };
        match next {
            Some(v) => {
                acc = v;
            },
            None => {
                proof {
                    lemma_digits_val_prefix_le(t, i + 1 - start);
                }
                return None;
            },
        }
        i = i + 1;
    }
    proof {
        assert(t.subrange(0, n - start) =~= t);
    }
    Some(acc)
}

/// Whether `s` is one or more digits and nothing else — no sign and no
/// leading '+'.
pub fn digits_only(s: &str) -> (r: bool)
    ensures
        r == (s@.len() > 0 && all_digits(s@)),
{
    let n = s.unicode_len();
    if n == 0 {
        return false;
    }
    let mut i: usize = 0;
    while i < n
        invariant
            i <= n,
            n == s@.len(),
            all_digits(s@.subrange(0, i as int)),
        decreases n - i,
    {
        let c = s.get_char(i);
        if c < '0' || c > '9' {
            assert(!all_digits(s@)) by {
                assert(!is_digit_char(s@[i as int]));
            }
            return false;
        }
        proof {
            assert(s@.subrange(0, i + 1) =~= s@.subrange(0, i as int).push(s@[i as int]));
        }
        i = i + 1;
    }
    proof {
        assert(s@.subrange(0, n as int) =~= s@);
    }
    true
}

// ---------------------------------------------------------------------------
// Rendering unsigned integers in decimal
// ---------------------------------------------------------------------------
/// The digit character for a value below ten.
pub open spec fn dec_digit(d: nat) -> char
    recommends
        d < 10,
{
    ((d + ('0' as nat)) as u8) as char
}

/// Decimal rendering of `n`, most significant digit first, no sign and
/// no leading zeros (a single `'0'` for zero).
pub open spec fn dec_str(n: nat) -> Seq<char>
    decreases n,
{
    if n < 10 {
        seq![dec_digit(n)]
    } else {
        dec_str(n / 10).push(dec_digit(n % 10))
    }
}

/// Relies on `String::push`: appends one character at the end.
#[verifier::external_body]
pub fn push_char(s: &mut String, c: char)
    ensures
        final(s)@ == old(s)@.push(c),
{
    s.push(c);
}

/// Appends the decimal rendering of `n` to `out`.
pub fn push_decimal(n: usize, out: &mut String)
    ensures
        final(out)@ == old(out)@ + dec_str(n as nat),
    decreases n,
{
    if n >= 10 {
        push_decimal(n / 10, out);
    }
    let d: u8 = (n % 10) as u8 + 48;
    push_char(out, d as char);
    proof {
        assert(('0' as nat) == 48);
        if n < 10 {
            assert(old(out)@ + dec_str(n as nat) =~= old(out)@.push(dec_digit(n as nat)));
        } else {
            assert(old(out)@ + dec_str(n as nat) =~= (old(out)@ + dec_str((n as nat) / 10)).push(
                dec_digit((n as nat) % 10),
            ));
        }
    }
}

/// The decimal rendering of `n`, as a fresh string.
pub fn decimal_string(n: usize) -> (r: String)
    ensures
        r@ == dec_str(n as nat),
{
    let mut out = String::new();
    push_decimal(n, &mut out);
    proof {
        assert(Seq::<char>::empty() + dec_str(n as nat) =~= dec_str(n as nat));
    }
    out
}

// ---------------------------------------------------------------------------
// Splitting on a separator character
// ---------------------------------------------------------------------------
/// The pieces of `s` between occurrences of `sep`, in order.  An empty
/// string yields one empty piece, and each separator opens a new piece,
/// so the result always holds one more piece than `s` has separators.
pub open spec fn split_on(s: Seq<char>, sep: char) -> Seq<Seq<char>>
    decreases s.len(),
{
    if s.len() == 0 {
        seq![Seq::<char>::empty()]
    } else if s[0] == sep {
        seq![Seq::<char>::empty()] + split_on(s.drop_first(), sep)
    } else {
        let rest = split_on(s.drop_first(), sep);
        seq![seq![s[0]] + rest[0]] + rest.drop_first()
    }
}

/// A split always produces at least one piece.
pub proof fn lemma_split_on_nonempty(s: Seq<char>, sep: char)
    ensures
        split_on(s, sep).len() >= 1,
    decreases s.len(),
{
    if s.len() > 0 {
        lemma_split_on_nonempty(s.drop_first(), sep);
    }
}

/// `parts` with `p` prepended onto its first piece.
pub open spec fn prepend_first(p: Seq<char>, parts: Seq<Seq<char>>) -> Seq<Seq<char>>
    recommends
        parts.len() >= 1,
{
    seq![p + parts[0]] + parts.drop_first()
}

/// Splits `s` at every occurrence of `sep`.
pub fn split_char(s: &str, sep: char) -> (r: Vec<String>)
    ensures
        r.deep_view() == split_on(s@, sep),
{
    let n = s.unicode_len();
    let mut parts: Vec<String> = Vec::new();
    let mut cur = String::new();
    let mut i: usize = 0;
    proof {
        assert(s@.subrange(0, n as int) =~= s@);
        lemma_split_on_nonempty(s@, sep);
        assert(parts.deep_view() =~= Seq::<Seq<char>>::empty());
        assert(parts.deep_view() + prepend_first(Seq::<char>::empty(), split_on(s@, sep))
            =~~= split_on(s@, sep));
    }
    while i < n
        invariant
            i <= n,
            n == s@.len(),
            split_on(s@, sep) == parts.deep_view() + prepend_first(
                cur@,
                split_on(s@.subrange(i as int, n as int), sep),
            ),
        decreases n - i,
    {
        let ghost before = s@.subrange(i as int, n as int);
        let ghost after = s@.subrange(i + 1, n as int);
        proof {
            assert(before.len() > 0);
            assert(before[0] == s@[i as int]);
            assert(before.drop_first() =~= after);
            lemma_split_on_nonempty(after, sep);
        }
        let c = s.get_char(i);
        if c == sep {
            proof {
                assert(prepend_first(cur@, split_on(before, sep)) =~~= seq![cur@] + prepend_first(
                    Seq::<char>::empty(),
                    split_on(after, sep),
                ));
            }
            let ghost prev = parts.deep_view();
            let ghost curv = cur@;
            parts.push(cur);
            cur = String::new();
            proof {
                assert(parts.deep_view() =~= prev.push(curv));
                assert(prev.push(curv) + prepend_first(Seq::<char>::empty(), split_on(after, sep))
                    =~~= prev + (seq![curv] + prepend_first(
                    Seq::<char>::empty(),
                    split_on(after, sep),
                )));
            }
        } else {
            let ghost rest = split_on(after, sep);
            proof {
                assert(split_on(before, sep) =~~= seq![seq![before[0]] + rest[0]]
                    + rest.drop_first());
                assert(prepend_first(cur@, split_on(before, sep)) =~~= prepend_first(
                    cur@.push(c),
                    rest,
                ));
            }
            push_char(&mut cur, c);
        }
        i = i + 1;
    }
    proof {
        assert(s@.subrange(n as int, n as int) =~= Seq::<char>::empty());
        assert(prepend_first(cur@, split_on(Seq::<char>::empty(), sep)) =~~= seq![cur@]);
    }
    let ghost prev = parts.deep_view();
    let ghost curv = cur@;
    parts.push(cur);
    proof {
        assert(parts.deep_view() =~= prev.push(curv));
        assert(prev.push(curv) =~= prev + seq![curv]);
    }
    parts
}

// ---------------------------------------------------------------------------
// Joining with a separator character
// ---------------------------------------------------------------------------
/// The pieces of `parts` concatenated with `sep` between them.
pub open spec fn join_with(parts: Seq<Seq<char>>, sep: char) -> Seq<char>
    decreases parts.len(),
{
    if parts.len() == 0 {
        Seq::<char>::empty()
    } else if parts.len() == 1 {
        parts[0]
    } else {
        parts[0] + seq![sep] + join_with(parts.drop_first(), sep)
    }
}

/// Joining one more piece appends a separator and the piece.
pub proof fn lemma_join_with_push(parts: Seq<Seq<char>>, p: Seq<char>, sep: char)
    ensures
        join_with(parts.push(p), sep) == if parts.len() == 0 {
            p
        } else {
            join_with(parts, sep) + seq![sep] + p
        },
    decreases parts.len(),
{
    if parts.len() == 0 {
        assert(parts.push(p) =~= seq![p]);
        assert(join_with(parts.push(p), sep) == p);
    } else {
        assert(parts.push(p).drop_first() =~= parts.drop_first().push(p));
        lemma_join_with_push(parts.drop_first(), p, sep);
        if parts.len() == 1 {
            assert(parts.drop_first() =~= Seq::<Seq<char>>::empty());
            assert(join_with(parts, sep) == parts[0]);
        }
    }
}

/// Joins the strings of `parts` with `sep` between them.
pub fn join_strings(parts: &Vec<String>, sep: char) -> (r: String)
    ensures
        r@ == join_with(parts.deep_view(), sep),
{
    let mut out = String::new();
    let mut i: usize = 0;
    while i < parts.len()
        invariant
            i <= parts.len(),
            out@ == join_with(parts.deep_view().subrange(0, i as int), sep),
        decreases parts.len() - i,
    {
        proof {
            let pref = parts.deep_view().subrange(0, i as int);
            assert(parts.deep_view().subrange(0, i + 1) =~= pref.push(parts.deep_view()[i as int]));
            lemma_join_with_push(pref, parts.deep_view()[i as int], sep);
        }
        if i > 0 {
            push_char(&mut out, sep);
        }
        out.append(parts[i].as_str());
        proof {
            assert(parts.deep_view()[i as int] == parts[i as int]@);
        }
        i = i + 1;
    }
    proof {
        assert(parts.deep_view().subrange(0, parts.len() as int) =~= parts.deep_view());
    }
    out
}

} // verus!
