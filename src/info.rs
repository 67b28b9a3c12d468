//! Small rules of the info feed, weather and backup features: weather codes,
//! push times, keyword lists, sensitive setting names and SQL identifiers.
use vstd::prelude::*;
use vstd::string::StringExecFns;
use crate::chat::{decimal, decimal_text, digit_char};
use crate::runtime::{lowercase_of, to_lowercase, strings_view};
use crate::text::{chars_of, chars_equal, contains, contains_chars, string_from_chars, trim,
    trim_chars, trim_string, find_first, first_at, occurs_at};
use crate::tooling::ascii_lower;

verus! {

/// The condition that a WMO weather code stands for.
pub open spec fn condition_of(code: i32) -> Seq<char> {
    if code == 0 {
        "clear"@
    } else if 1 <= code <= 3 {
        "cloudy"@
    } else if code == 45 || code == 48 {
        "fog"@
    } else if code == 51 || code == 53 || code == 55 || code == 56 || code == 57 || code == 61
        || code == 63 || code == 65 || code == 66 || code == 67 || code == 80 || code == 81 || code
        == 82 {
        "rain"@
    } else if code == 71 || code == 73 || code == 75 || code == 77 || code == 85 || code == 86 {
        "snow"@
    } else if code == 95 || code == 96 || code == 99 {
        "thunder"@
    } else {
        "unknown"@
    }
}

/// The condition that a WMO weather code stands for.
pub fn weather_code_to_condition(code: i32) -> (r: &'static str)
    ensures
        r@ == condition_of(code),
{
    match code {
        0 => "clear",
        1 | 2 | 3 => "cloudy",
        45 | 48 => "fog",
        51 | 53 | 55 | 56 | 57 | 61 | 63 | 65 | 66 | 67 | 80 | 81 | 82 => "rain",
        71 | 73 | 75 | 77 | 85 | 86 => "snow",
        95 | 96 | 99 => "thunder",
        _ => "unknown",
    }
}

/// The type of an info source that names none.
pub fn default_info_source_type() -> (r: String)
    ensures
        r@ == "rss"@,
{
    String::from_str("rss")
}

/// A setting name that marks a secret: in ASCII lower case it holds
/// `api_key`, `apikey`, `token`, `secret` or `password`.
pub open spec fn sensitive(key: Seq<char>) -> bool {
    let k = key.map_values(|c: char| ascii_lower(c));
    contains(k, "api_key"@) || contains(k, "apikey"@) || contains(k, "token"@) || contains(
        k,
        "secret"@,
    ) || contains(k, "password"@)
}

/// Whether a setting name marks a secret.
pub fn is_sensitive_key(key: &str) -> (r: bool)
    ensures
        r == sensitive(key@),
{
    let cs = chars_of(key);
    let mut k: Vec<char> = Vec::new();
    let mut i: usize = 0;
    while i < cs.len()
        invariant
            i <= cs@.len(),
            k@ == cs@.take(i as int).map_values(|c: char| ascii_lower(c)),
        decreases cs.len() - i,
    {
        let c = cs[i];
        let l = if 'A' <= c && c <= 'Z' {
            let u = (c as u8) + 32;
            assert((c as u32) + 32 == u as u32);
            u as char
        } else {
            c
        };
        k.push(l);
        i += 1;
        assert(k@ =~= cs@.take(i as int).map_values(|c: char| ascii_lower(c)));
    }
    assert(cs@.take(i as int) =~= cs@);
    contains_chars(&k, &chars_of("api_key")) || contains_chars(&k, &chars_of("apikey"))
        || contains_chars(&k, &chars_of("token")) || contains_chars(&k, &chars_of("secret"))
        || contains_chars(&k, &chars_of("password"))
}

/// `s` with every `"` doubled.
pub open spec fn doubled_quotes(s: Seq<char>) -> Seq<char>
    decreases s.len(),
{
    if s.len() == 0 {
        Seq::empty()
    } else if s.last() == '"' {
        doubled_quotes(s.drop_last()) + seq!['"', '"']
    } else {
        doubled_quotes(s.drop_last()).push(s.last())
    }
}

/// A quoted SQL identifier: `name` in double quotes, inner quotes doubled.
pub fn quote_ident(name: &str) -> (r: String)
    ensures
        r@ == seq!['"'] + doubled_quotes(name@) + seq!['"'],
{
    let cs = chars_of(name);
    let mut out: Vec<char> = Vec::new();
    out.push('"');
    let mut i: usize = 0;
    while i < cs.len()
        invariant
            i <= cs@.len(),
            out@ == seq!['"'] + doubled_quotes(cs@.take(i as int)),
        decreases cs.len() - i,
    {
        assert(cs@.take(i + 1).drop_last() =~= cs@.take(i as int));
        let ghost prev = out@;
        if cs[i] == '"' {
            out.push('"');
            out.push('"');
        } else {
            out.push(cs[i]);
        }
        i += 1;
        assert(out@ =~= seq!['"'] + doubled_quotes(cs@.take(i as int)));
    }
    assert(cs@.take(i as int) =~= cs@);
    out.push('"');
    string_from_chars(out.as_slice())
}

/// The value of an ASCII decimal digit.
pub open spec fn digit_value(c: char) -> nat {
    ((c as u32) - ('0' as u32)) as nat
}

pub open spec fn is_digit(c: char) -> bool {
    '0' <= c && c <= '9'
}

/// The value of a string of decimal digits.
pub open spec fn digits_value(s: Seq<char>) -> nat
    decreases s.len(),
{
    if s.len() == 0 {
        0
    } else {
        digits_value(s.drop_last()) * 10 + digit_value(s.last())
    }
}

/// `s` without a leading `+`.
pub open spec fn unsigned_part(s: Seq<char>) -> Seq<char> {
    if s.len() > 0 && s[0] == '+' {
        s.drop_first()
    } else {
        s
    }
}

/// What `u32::from_str` gives: an optional `+`, then one or more digits whose
/// value fits.
pub open spec fn parse_u32_spec(s: Seq<char>) -> Option<u32> {
    let d = unsigned_part(s);
    if d.len() > 0 && (forall|i: int| 0 <= i < d.len() ==> is_digit(#[trigger] d[i]))
        && digits_value(d) <= u32::MAX {
        Some(digits_value(d) as u32)
    } else {
        None
    }
}

proof fn lemma_digits_monotone(s: Seq<char>, n: int)
    requires
        0 <= n <= s.len(),
        forall|i: int| 0 <= i < s.len() ==> is_digit(#[trigger] s[i]),
    ensures
        digits_value(s.take(n)) <= digits_value(s),
    decreases s.len() - n,
{
    if n < s.len() {
        lemma_digits_monotone(s, n + 1);
        assert(s.take(n + 1).drop_last() =~= s.take(n));
    } else {
        assert(s.take(n) =~= s);
    }
}

/// A decimal `u32`, as `u32::from_str` reads it.
pub fn parse_u32(s: &Vec<char>) -> (r: Option<u32>)
    ensures
        r == parse_u32_spec(s@),
{
    let start: usize = if s.len() > 0 && s[0] == '+' { 1 } else { 0 };
    let ghost d = unsigned_part(s@);
    assert(d =~= s@.subrange(start as int, s@.len() as int));
    if start >= s.len() {
        return None;
    }
    let mut value: u64 = 0;
    let mut i = start;
    while i < s.len()
        invariant
            start <= i <= s@.len(),
            d == unsigned_part(s@),
            d == s@.subrange(start as int, s@.len() as int),
            forall|k: int| 0 <= k < i - start ==> is_digit(#[trigger] d[k]),
            value as nat == digits_value(d.take(i - start)),
            value <= u32::MAX,
        decreases s.len() - i,
    {
        let c = s[i];
        assert(d[i - start] == c);
        if !('0' <= c && c <= '9') {
            assert(!is_digit(d[i - start]));
            return None;
        }
        let v = (c as u64) - ('0' as u64);
        assert(v == digit_value(c));
        assert(d.take(i - start + 1).drop_last() =~= d.take(i - start));
        assert(d.take(i - start + 1).last() == c);
        assert(digits_value(d.take(i - start + 1)) == digits_value(d.take(i - start)) * 10 + v);
        if value > (u32::MAX as u64 - v) / 10 {
            proof {
                assert(digits_value(d.take(i - start + 1)) > u32::MAX) by (nonlinear_arith)
                    requires
                        digits_value(d.take(i - start + 1)) == value * 10 + v,
                        value > (u32::MAX - v) / 10,
                        v <= 9,
                ;
                let ghost all_digits = forall|k: int| 0 <= k < d.len() ==> is_digit(#[trigger] d[k]);
                if all_digits {
                    lemma_digits_monotone(d, i - start + 1);
                }
            }
            return None;
        }
        value = value * 10 + v;
        i += 1;
    }
    assert(d.take(d.len() as int) =~= d);
    Some(value as u32)
}

/// A number below 100 as two digits.
pub open spec fn two_digits(n: nat) -> Seq<char> {
    if n < 10 {
        seq!['0', digit_char(n)]
    } else {
        decimal_text(n)
    }
}

fn pad2(n: u32) -> (r: String)
    requires
        n < 100,
    ensures
        r@ == two_digits(n as nat),
{
    proof {
        reveal_strlit("0");
    }
    if n < 10 {
        assert(decimal_text(n as nat) == seq![digit_char(n as nat)]);
        let mut s = String::from_str("0");
        s.append(decimal(n as u64).as_str());
        s
    } else {
        decimal(n as u64)
    }
}

/// The push time that `input` gives: `HH:MM` from the parts around its first
/// `:`, an hour that does not parse counting as 9 and a minute as 0, capped at
/// 23 and 59; `09:00` where there is no `:`.
pub open spec fn push_time(input: Seq<char>) -> Seq<char> {
    let t = trim(input);
    if contains(t, seq![':']) {
        let at = choose|i: int| first_at(t, seq![':'], i);
        let h = match parse_u32_spec(t.subrange(0, at)) {
            Some(v) => v,
            None => 9,
        };
        let m = match parse_u32_spec(t.subrange(at + 1, t.len() as int)) {
            Some(v) => v,
            None => 0,
        };
        two_digits(if h > 23 { 23 } else { h as nat }) + seq![':'] + two_digits(if m > 59 { 59 } else { m as nat })
    } else {
        "09:00"@
    }
}

/// The push time that `input` gives.
pub fn normalize_push_time(input: &str) -> (r: String)
    ensures
        r@ == push_time(input@),
{
    proof {
        reveal_strlit(":");
    }
    let t = trim_chars(&chars_of(input));
    let colon = vec![':'];
    assert(colon@ =~= seq![':']);
    match find_first(&t, &colon) {
        Some(at) => {
            assert(at + 1 <= t@.len() == t.len());
            proof {
                let c = choose|i: int| first_at(t@, seq![':'], i);
                assert(first_at(t@, seq![':'], at as int));
                if c < at {
                    assert(!occurs_at(t@, seq![':'], c));
                } else if c > at {
                    assert(!occurs_at(t@, seq![':'], at as int));
                }
                assert(c == at);
            }
            let h = match parse_u32(&crate::text::slice_chars(&t, 0, at)) {
                Some(v) => v,
                None => 9,
            };
            let m = match parse_u32(&crate::text::slice_chars(&t, at + 1, t.len())) {
                Some(v) => v,
                None => 0,
            };
            let mut s = pad2(if h > 23 { 23 } else { h });
            s.append(":");
            s.append(pad2(if m > 59 { 59 } else { m }).as_str());
            s
        },
        None => String::from_str("09:00"),
    }
}

/// The keywords trimmed and folded to lower case, without empty ones, each
/// kept at its first occurrence.
pub open spec fn keywords_spec(ks: Seq<Seq<char>>) -> Seq<Seq<char>>
    decreases ks.len(),
{
    if ks.len() == 0 {
        Seq::empty()
    } else {
        let rest = keywords_spec(ks.drop_last());
        let k = lowercase_of(trim(ks.last()));
        if k.len() == 0 || rest.contains(k) {
            rest
        } else {
            rest.push(k)
        }
    }
}

/// The keywords trimmed, folded to lower case, without empty ones or repeats.
pub fn normalize_keywords(keywords: Vec<String>) -> (r: Vec<String>)
    ensures
        strings_view(r@) == keywords_spec(strings_view(keywords@)),
{
    let ghost ks = strings_view(keywords@);
    let mut out: Vec<String> = Vec::new();
    let mut i: usize = 0;
    while i < keywords.len()
        invariant
            i <= keywords@.len(),
            ks == strings_view(keywords@),
            strings_view(out@) == keywords_spec(ks.take(i as int)),
        decreases keywords.len() - i,
    {
        assert(ks.take(i + 1).drop_last() =~= ks.take(i as int));
        assert(ks.take(i + 1).last() == keywords@[i as int]@);
        let t = trim_string(keywords[i].as_str());
        let k = to_lowercase(t.as_str());
        let kc = chars_of(k.as_str());
        let mut seen = false;
        let mut j: usize = 0;
        while j < out.len()
            invariant
                j <= out@.len(),
                kc@ == k@,
                seen == (exists|m: int| 0 <= m < j && strings_view(out@)[m] == k@),
            decreases out.len() - j,
        {
            let ghost was = seen;
            assert(strings_view(out@)[j as int] == out@[j as int]@);
            if chars_equal(&chars_of(out[j].as_str()), &kc) {
                seen = true;
            }
            j += 1;
            proof {
                if seen && !was {
                    assert(strings_view(out@)[j - 1] == k@);
                }
                if !seen {
                    assert forall|m: int| 0 <= m < j implies strings_view(out@)[m] != k@ by {
                        if m < j - 1 {
                        } else {
                            assert(strings_view(out@)[m] == out@[m]@);
                        }
                    }
                }
            }
        }
        proof {
            if strings_view(out@).contains(k@) {
                let m = choose|m: int| 0 <= m < strings_view(out@).len() && strings_view(out@)[m] == k@;
                assert(strings_view(out@)[m] == k@);
            }
        }
        if kc.len() > 0 && !seen {
            let ghost prev = out@;
            out.push(k);
            assert(strings_view(out@) =~= strings_view(prev).push(kc@));
        }
        i += 1;
    }
    assert(ks.take(i as int) =~= ks);
    out
}

} // verus!
