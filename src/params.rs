//! Query-string parameters: decoding the query into (name, value) pairs and
//! resolving one of them as a signed 32-bit decimal integer with a fallback.
use vstd::prelude::*;

verus! {

/// What the form-urlencoded decoder yields for a query string: the
/// percent-decoded (name, value) pairs in the order they appear.
pub uninterp spec fn form_pairs(query: Seq<char>) -> Seq<(Seq<char>, Seq<char>)>;

/// The character sequences of a list of owned (name, value) pairs.
pub open spec fn pairs_view(v: Seq<(String, String)>) -> Seq<(Seq<char>, Seq<char>)> {
    v.map_values(|p: (String, String)| (p.0@, p.1@))
}

/// Relies on `form_urlencoded::parse`: it yields the decoded pairs of the query,
/// and none at all for an empty query.
#[verifier::external_body]
fn decode_form(query: &str) -> (r: Vec<(String, String)>)
    ensures
        pairs_view(r@) == form_pairs(query@),
        query@.len() == 0 ==> r@.len() == 0,
{
    form_urlencoded::parse(query.as_bytes()).map(|(k, v)| (k.into_owned(), v.into_owned())).collect()
}

/// The value bound to `name`; the last binding wins when a name repeats.
pub open spec fn lookup(pairs: Seq<(Seq<char>, Seq<char>)>, name: Seq<char>) -> Option<Seq<char>>
    decreases pairs.len(),
{
    if pairs.len() == 0 {
        None
    } else if pairs.last().0 == name {
        Some(pairs.last().1)
    } else {
        lookup(pairs.drop_last(), name)
    }
}

pub open spec fn is_digit(c: char) -> bool {
    '0' <= c && c <= '9'
}

pub open spec fn digit_value(c: char) -> int {
    c as int - '0' as int
}

pub open spec fn all_digits(s: Seq<char>) -> bool {
    forall|i: int| 0 <= i < s.len() ==> is_digit(#[trigger] s[i])
}

/// The number that a sequence of decimal digits denotes.
pub open spec fn digits_value(s: Seq<char>) -> int
    decreases s.len(),
{
    if s.len() == 0 {
        0
    } else {
        10 * digits_value(s.drop_last()) + digit_value(s.last())
    }
}

pub open spec fn has_sign(s: Seq<char>) -> bool {
    s.len() > 0 && (s[0] == '-' || s[0] == '+')
}

/// The digits of a decimal literal, after an optional leading sign.
pub open spec fn magnitude_digits(s: Seq<char>) -> Seq<char> {
    if has_sign(s) {
        s.drop_first()
    } else {
        s
    }
}

/// The signed value of a decimal literal.
pub open spec fn decimal_value(s: Seq<char>) -> int {
    if s.len() > 0 && s[0] == '-' {
        -digits_value(magnitude_digits(s))
    } else {
        digits_value(magnitude_digits(s))
    }
}

/// Reading text as an `i32`: an optional `+` or `-`, then at least one ASCII
/// digit and nothing else, denoting a value within the range of `i32`.
pub open spec fn parse_i32_spec(s: Seq<char>) -> Option<i32> {
    let d = magnitude_digits(s);
    if d.len() > 0 && all_digits(d) && i32::MIN <= decimal_value(s) <= i32::MAX {
        Some(decimal_value(s) as i32)
    } else {
        None
    }
}

/// The integer parameter `name`, or `default` when it is absent or does not
/// read as an `i32`.
pub open spec fn resolve_i32(pairs: Seq<(Seq<char>, Seq<char>)>, name: Seq<char>, default: i32) -> i32 {
    match lookup(pairs, name) {
        Some(v) => match parse_i32_spec(v) {
            Some(n) => n,
            None => default,
        },
        None => default,
    }
}

proof fn lemma_digits_value_nonneg(s: Seq<char>)
    requires
        all_digits(s),
    ensures
        digits_value(s) >= 0,
    decreases s.len(),
{
    if s.len() > 0 {
        assert(is_digit(s[s.len() - 1]));
        lemma_digits_value_nonneg(s.drop_last());
    }
}

proof fn lemma_digits_prefix_le(s: Seq<char>, k: int)
    requires
        all_digits(s),
        0 <= k <= s.len(),
    ensures
        digits_value(s.take(k)) <= digits_value(s),
    decreases s.len(),
{
    if k == s.len() {
        assert(s.take(k) =~= s);
    } else {
        let p = s.drop_last();
        assert(is_digit(s[s.len() - 1]));
        lemma_digits_prefix_le(p, k);
        assert(p.take(k) =~= s.take(k));
        lemma_digits_value_nonneg(p);
    }
}

/// Reads `s` as an `i32` the way `str::parse::<i32>` does.
pub fn parse_i32(s: &str) -> (r: Option<i32>)
    ensures
        r == parse_i32_spec(s@),
{
    let n = s.unicode_len();
    if n == 0 {
        return None;
    }
    let c0 = s.get_char(0);
    let negative = c0 == '-';
    let start: usize = if c0 == '-' || c0 == '+' { 1 } else { 0 };
    let ghost d = magnitude_digits(s@);
    proof {
        assert(d =~= s@.subrange(start as int, n as int));
    }
    if start == n {
        return None;
    }
    let mut acc: i64 = 0;
    let mut i: usize = start;
    while i < n
        invariant
            start <= i <= n,
            n == s@.len(),
            d == s@.subrange(start as int, n as int),
            d == magnitude_digits(s@),
            0 <= acc <= 2147483648,
            acc == digits_value(d.take(i - start)),
            all_digits(d.take(i - start)),
        decreases n - i,
    {
        let c = s.get_char(i);
        if !('0' <= c && c <= '9') {
            proof {
                assert(d[i - start] == c);
                assert(!is_digit(d[i - start]));
            }
            return None;
        }
        let next: i64 = acc * 10 + (c as u32 - '0' as u32) as i64;
        proof {
            let k = i - start;
            assert(d.take(k + 1).drop_last() =~= d.take(k));
            assert(d.take(k + 1).last() == c);
            assert(next == digits_value(d.take(k + 1)));
        }
        if next > 2147483648 {
            proof {
                let k = i - start + 1;
                if all_digits(d) {
                    lemma_digits_prefix_le(d, k);
                    assert(digits_value(d) > 2147483648);
                }
            }
            return None;
        }
        acc = next;
        i = i + 1;
        proof {
            let k = i - start;
            assert forall|j: int| 0 <= j < k implies is_digit(#[trigger] d.take(k)[j]) by {
                if j < k - 1 {
                    assert(d.take(k)[j] == d.take(k - 1)[j]);
                }
            }
        }
    }
    proof {
        assert(d.take(n - start) =~= d);
    }
    if negative {
        Some((-acc) as i32)
    } else if acc > 2147483647 {
        None
    } else {
        Some(acc as i32)
    }
}

/// The query parameters of one request, in the order they were given.
pub struct Params {
    pairs: Vec<(String, String)>,
}

impl View for Params {
    type V = Seq<(Seq<char>, Seq<char>)>;

    closed spec fn view(&self) -> Seq<(Seq<char>, Seq<char>)> {
        pairs_view(self.pairs@)
    }
}

/// The pairs of an optional query string; none when there is no query.
pub open spec fn query_pairs(query: Option<Seq<char>>) -> Seq<(Seq<char>, Seq<char>)> {
    match query {
        Some(q) => form_pairs(q),
        None => Seq::empty(),
    }
}

/// Decodes the query part of a request target into its parameters.
pub fn get_params(query: Option<&str>) -> (r: Params)
    ensures
        r@ == query_pairs(
            match query {
                Some(q) => Some(q@),
                None => None,
            },
        ),
{
    match query {
        Some(q) => Params { pairs: decode_form(q) },
        None => {
            let r = Params { pairs: Vec::new() };
            proof {
                assert(r@ =~= Seq::<(Seq<char>, Seq<char>)>::empty());
            }
            r
        },
    }
}

/// The parameter `name` read as an `i32`, or `default` when it is absent or
/// malformed; this never fails.
pub fn parse_i32_params(params: &Params, name: &str, default: i32) -> (r: i32)
    ensures
        r == resolve_i32(params@, name@, default),
{
    let key = name.to_owned();
    let ghost pairs = params@;
    let mut i: usize = params.pairs.len();
    proof {
        assert(pairs.take(i as int) =~= pairs);
    }
    while i > 0
        invariant
            i <= params.pairs.len(),
            pairs == params@,
            pairs.len() == params.pairs.len(),
            key@ == name@,
            lookup(pairs, name@) == lookup(pairs.take(i as int), name@),
        decreases i,
    {
        let pair = &params.pairs[i - 1];
        proof {
            assert(pairs[i - 1] == (pair.0@, pair.1@));
            assert(pairs.take(i as int).drop_last() =~= pairs.take(i - 1));
        }
        if pair.0 == key {
            return match parse_i32(pair.1.as_str()) {
                Some(n) => n,
                None => default,
            };
        }
        i = i - 1;
    }
    default
}

} // verus!
