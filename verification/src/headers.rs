//! A small collection of response headers, looked up by ASCII-case-insensitive
//! name, together with the decimal parser used on header values.

use vstd::prelude::*;

verus! {

use vstd::string::StrSliceExecFns;

/// Code point of `c`, with the ASCII capital letters folded to lower case.
pub open spec fn spec_lower_code(c: char) -> int {
    if 65 <= c as u32 && c as u32 <= 90 {
        c as u32 + 32
    } else {
        (c as u32) as int
    }
}

/// Character equality up to ASCII case.
pub open spec fn spec_char_eq_ic(a: char, b: char) -> bool {
    spec_lower_code(a) == spec_lower_code(b)
}

/// String equality up to ASCII case.
pub open spec fn spec_str_eq_ic(a: Seq<char>, b: Seq<char>) -> bool {
    a.len() == b.len() && forall|i: int| 0 <= i < a.len() ==> spec_char_eq_ic(a[i], b[i])
}

fn char_eq_ic(a: char, b: char) -> (r: bool)
    ensures
        r == spec_char_eq_ic(a, b),
{
    let x: u32 = a as u32;
    let y: u32 = b as u32;
    let xl: u32 = if 65 <= x && x <= 90 { x + 32 } else { x };
    let yl: u32 = if 65 <= y && y <= 90 { y + 32 } else { y };
    xl == yl
}

/// Compares two strings for equality up to ASCII case.
fn str_eq_ignore_ascii_case(a: &str, b: &str) -> (r: bool)
    ensures
        r == spec_str_eq_ic(a@, b@),
{
    let n: usize = a.unicode_len();
    if n != b.unicode_len() {
        return false;
    }
    let mut i: usize = 0;
    while i < n
        invariant
            n == a@.len(),
            n == b@.len(),
            i <= n,
            forall|j: int| 0 <= j < i ==> spec_char_eq_ic(a@[j], b@[j]),
        decreases n - i,
    {
        if !char_eq_ic(a.get_char(i), b.get_char(i)) {
            assert(!spec_char_eq_ic(a@[i as int], b@[i as int]));
            return false;
        }
        i = i + 1;
    }
    true
}

/// The value of the first pair of `h` whose name matches `name` up to ASCII
/// case, if any.
pub open spec fn spec_lookup(h: Seq<(Seq<char>, Seq<char>)>, name: Seq<char>) -> Option<Seq<char>>
    decreases h.len(),
{
    if h.len() == 0 {
        None
    } else if spec_str_eq_ic(h[0].0, name) {
        Some(h[0].1)
    } else {
        spec_lookup(h.drop_first(), name)
    }
}

/// Response headers as name/value pairs.  Lookup is by ASCII-case-insensitive
/// name, as HTTP header names are; a later insertion shadows an earlier one
/// with the same name.
#[derive(Debug, Clone)]
pub struct Headers {
    pairs: Vec<(String, String)>,
}

impl View for Headers {
    type V = Seq<(Seq<char>, Seq<char>)>;

    closed spec fn view(&self) -> Seq<(Seq<char>, Seq<char>)> {
        self.pairs@.map_values(|p: (String, String)| (p.0@, p.1@))
    }
}

impl Headers {
    /// Creates an empty header collection.
    pub fn new() -> (r: Headers)
        ensures
            r@ == Seq::<(Seq<char>, Seq<char>)>::empty(),
    {
        let r = Headers { pairs: Vec::new() };
        proof {
            assert(r@ =~= Seq::<(Seq<char>, Seq<char>)>::empty());
        }
        r
    }

    /// Records `value` under `name`, shadowing any earlier pair with the same
    /// name (up to ASCII case).
    pub fn insert(&mut self, name: String, value: String)
        ensures
            forall|q: Seq<char>|
                #[trigger] spec_lookup(final(self)@, q) == (if spec_str_eq_ic(name@, q) {
                    Some(value@)
                } else {
                    spec_lookup(old(self)@, q)
                }),
    {
        let ghost old_view = self@;
        let ghost n = name@;
        let ghost v = value@;
        self.pairs.insert(0, (name, value));
        proof {
            assert(self@ =~= seq![(n, v)].add(old_view));
            assert forall|q: Seq<char>|
                #[trigger] spec_lookup(self@, q) == (if spec_str_eq_ic(n, q) {
                    Some(v)
                } else {
                    spec_lookup(old_view, q)
                }) by {
                assert(self@[0] == (n, v));
                assert(self@.drop_first() =~= old_view);
            }
        }
    }

    /// The pairs as stored, most recently inserted first.
    pub fn entries(&self) -> (r: &Vec<(String, String)>)
        ensures
            r@.len() == self@.len(),
            forall|i: int| 0 <= i < r@.len() ==> self@[i] == (#[trigger] r@[i].0@, r@[i].1@),
    {
        &self.pairs
    }

    /// Looks `name` up, ASCII-case-insensitively.
    pub fn get(&self, name: &str) -> (r: Option<&str>)
        ensures
            match r {
                Some(v) => spec_lookup(self@, name@) == Some(v@),
                None => spec_lookup(self@, name@) is None,
            },
    {
        let n: usize = self.pairs.len();
        let mut i: usize = 0;
        proof {
            assert(self@.skip(0) =~= self@);
        }
        while i < n
            invariant
                n == self.pairs.len(),
                i <= n,
                self@.len() == n,
                spec_lookup(self@, name@) == spec_lookup(self@.skip(i as int), name@),
            decreases n - i,
        {
            let p = &self.pairs[i];
            proof {
                assert(self@[i as int] == (self.pairs[i as int].0@, self.pairs[i as int].1@));
                assert(self@.skip(i as int)[0] == self@[i as int]);
            }
            if str_eq_ignore_ascii_case(p.0.as_str(), name) {
                return Some(p.1.as_str());
            }
            proof {
                assert(self@.skip(i as int).drop_first() =~= self@.skip(i as int + 1));
            }
            i = i + 1;
        }
        proof {
            assert(self@.skip(n as int) =~= Seq::<(Seq<char>, Seq<char>)>::empty());
        }
        None
    }
}

/// Whether `c` is an ASCII decimal digit.
pub open spec fn spec_is_digit(c: char) -> bool {
    48 <= c as u32 && c as u32 <= 57
}

/// The integer denoted by a sequence of decimal digits, most significant
/// first.
pub open spec fn spec_digits_val(s: Seq<char>) -> int
    decreases s.len(),
{
    if s.len() == 0 {
        0
    } else {
        spec_digits_val(s.drop_last()) * 10 + (s.last() as u32 - 48)
    }
}

/// Whether every character of `s` is an ASCII decimal digit.
pub open spec fn spec_all_digits(s: Seq<char>) -> bool {
    forall|i: int| 0 <= i < s.len() ==> spec_is_digit(s[i])
}

/// The number denoted by `s` in the form `u64::from_str` accepts: an optional
/// leading `+`, then one or more decimal digits, the value fitting in a
/// `u64`.
pub open spec fn spec_parse_u64(s: Seq<char>) -> Option<u64> {
    let t = if s.len() > 0 && s[0] == '+' {
        s.drop_first()
    } else {
        s
    };
    if t.len() > 0 && spec_all_digits(t) && spec_digits_val(t) <= u64::MAX {
        Some(spec_digits_val(t) as u64)
    } else {
        None
    }
}

proof fn lemma_digits_val_nonneg(s: Seq<char>)
    requires
        spec_all_digits(s),
    ensures
        spec_digits_val(s) >= 0,
    decreases s.len(),
{
    if s.len() > 0 {
        assert(spec_all_digits(s.drop_last()));
        lemma_digits_val_nonneg(s.drop_last());
    }
}

proof fn lemma_digits_val_prefix_le(s: Seq<char>, k: int)
    requires
        spec_all_digits(s),
        0 <= k <= s.len(),
    ensures
        spec_digits_val(s.take(k)) <= spec_digits_val(s),
    decreases s.len() - k,
{
    if k == s.len() {
        assert(s.take(k) =~= s);
    } else {
        lemma_digits_val_prefix_le(s, k + 1);
        let t = s.take(k + 1);
        assert(t.drop_last() =~= s.take(k));
        assert(spec_all_digits(t.drop_last()));
        lemma_digits_val_nonneg(t.drop_last());
        assert(spec_digits_val(t) == spec_digits_val(s.take(k)) * 10 + (t.last() as u32 - 48));
        assert(spec_is_digit(s[k]));
        assert(spec_digits_val(s.take(k)) <= spec_digits_val(s.take(k + 1)));
    }
}

/// What `http::HeaderName::try_from` denotes on a string: the validated,
/// lower-cased header name, or the error's message; a function of the input
/// alone.
pub uninterp spec fn header_name_parse(s: Seq<char>) -> Result<Seq<char>, Seq<char>>;

/// Relies on `http::HeaderName::try_from(&str)`: validates a header name and
/// folds it to lower case.
#[verifier::external_body]
pub(crate) fn parse_header_name_str(s: &str) -> (r: Result<String, String>)
    ensures
        match (r, header_name_parse(s@)) {
            (Ok(a), Ok(b)) => a@ == b,
            (Err(a), Err(b)) => a@ == b,
            _ => false,
        },
{
    match http::HeaderName::try_from(s) {
        Ok(n) => Ok(n.as_str().to_string()),
        Err(e) => Err(e.to_string()),
    }
}

/// Whether `s` is a valid header value: every character is a horizontal tab
/// or has code 32 or above, code 127 (DEL) excluded.  Characters beyond
/// ASCII qualify, since their codes lie above 127.
pub open spec fn spec_header_value_ok(s: Seq<char>) -> bool {
    forall|i: int| 0 <= i < s.len() ==> (s[i] as u32 == 9 || (32 <= s[i] as u32 && s[i] as u32 != 127))
}

/// Relies on `http::HeaderValue::try_from(&str)`: it checks each byte for
/// tab or a code of 32 and up other than DEL — on characters this is
/// `spec_header_value_ok`, every byte of a character beyond ASCII passing —
/// and its error displays as one constant message.
#[verifier::external_body]
pub(crate) fn check_header_value_str(s: &str) -> (r: Option<String>)
    ensures
        (r is None) == spec_header_value_ok(s@),
        (r matches Some(m) ==> m@ == "failed to parse header value"@),
{
    match http::HeaderValue::try_from(s) {
        Ok(_) => None,
        Err(e) => Some(e.to_string()),
    }
}

/// Parses `s` as `u64::from_str` does: an optional leading `+`, then one or
/// more decimal digits, rejecting anything else and values over `u64::MAX`.
pub fn parse_u64_str(s: &str) -> (r: Option<u64>)
    ensures
        r == spec_parse_u64(s@),
{
    let len: usize = s.unicode_len();
    if len == 0 {
        return None;
    }
    let start: usize = if s.get_char(0) == '+' {
        1
    } else {
        0
    };
    let ghost t = if start == 1 {
        s@.drop_first()
    } else {
        s@
    };
    proof {
        assert(t =~= s@.skip(start as int));
    }
    if start == len {
        return None;
    }
    let mut val: u64 = 0;
    let mut i: usize = start;
    while i < len
        invariant
            len == s@.len(),
            0 < len,
            start <= i <= len,
            start <= 1,
            start < len,
            (start == 1) == (s@[0] == '+'),
            t == s@.skip(start as int),
            forall|j: int| start <= j < i ==> spec_is_digit(s@[j]),
            val == spec_digits_val(s@.subrange(start as int, i as int)),
        decreases len - i,
    {
        let c = s.get_char(i);
        let x: u32 = c as u32;
        proof {
            if start == 1 {
                assert(s@.skip(1) =~= s@.drop_first());
            } else {
                assert(s@.skip(0) =~= s@);
            }
            assert(t[i - start] == s@[i as int]);
        }
        if x < 48 || x > 57 {
            assert(!spec_all_digits(t));
            return None;
        }
        let d: u64 = (x - 48) as u64;
        let ghost pre = s@.subrange(start as int, i as int);
        let ghost cur = s@.subrange(start as int, i as int + 1);
        proof {
            assert(cur.drop_last() =~= pre);
            assert(cur.last() == s@[i as int]);
            assert(spec_digits_val(cur) == val * 10 + d);
        }
        let next = match val.checked_mul(10) {
            Some(v10) => v10.checked_add(d),
            None => None,
        };
        match next {
            Some(v) => {
                val = v;
            },
            None => {
                proof {
                    assert(val * 10 + d > u64::MAX);
                    if spec_all_digits(t) {
                        assert(cur =~= t.take(i - start + 1));
                        lemma_digits_val_prefix_le(t, i - start + 1);
                    }
                }
                return None;
            },
        }
        i = i + 1;
    }
    proof {
        if start == 1 {
            assert(s@.skip(1) =~= s@.drop_first());
        } else {
            assert(s@.skip(0) =~= s@);
        }
        assert(s@.subrange(start as int, len as int) =~= t);
        assert(spec_all_digits(t));
        lemma_digits_val_nonneg(t);
    }
    Some(val)
}

} // verus!
