//! Which origins may call the server from a browser.

use vstd::prelude::*;
use crate::text::{chars_of, string_of_range, trim_bounds, trimmed};

verus! {

/// The position of the first comma of `s`, or its length where it has none.
pub open spec fn first_comma(s: Seq<char>) -> int
    decreases s.len(),
{
    if s.len() == 0 || s[0] == ',' {
        0
    } else {
        1 + first_comma(s.drop_first())
    }
}

/// The origins that a comma-separated list names: its items, trimmed, the
/// empty ones left out.
pub open spec fn origins_of(list: Seq<char>) -> Seq<Seq<char>>
    decreases list.len(),
{
    let i = first_comma(list);
    let head = trimmed(list.take(i));
    let rest = if 0 <= i < list.len() {
        origins_of(list.skip(i + 1))
    } else {
        seq![]
    };
    if head.len() > 0 {
        seq![head] + rest
    } else {
        rest
    }
}

/// The views of a list of strings.
pub open spec fn string_views(list: Seq<String>) -> Seq<Seq<char>> {
    list.map_values(|s: String| s@)
}

proof fn lemma_first_comma(s: Seq<char>)
    ensures
        0 <= first_comma(s) <= s.len(),
        first_comma(s) < s.len() ==> s[first_comma(s)] == ',',
        forall|k: int| 0 <= k < first_comma(s) ==> s[k] != ',',
    decreases s.len(),
{
    if s.len() > 0 && s[0] != ',' {
        let rest = s.drop_first();
        lemma_first_comma(rest);
        assert forall|k: int| 0 <= k < first_comma(s) implies s[k] != ',' by {
            if k > 0 {
                assert(rest[k - 1] == s[k]);
            }
        }
    }
}

proof fn lemma_first_comma_is(s: Seq<char>, i: int)
    requires
        0 <= i <= s.len(),
        i < s.len() ==> s[i] == ',',
        forall|k: int| 0 <= k < i ==> s[k] != ',',
    ensures
        first_comma(s) == i,
{
    lemma_first_comma(s);
    let j = first_comma(s);
    if j < i {
        assert(s[j] == ',');
    }
    if i < j {
        assert(s[i] == ',');
    }
}

/// The origins that the comma-separated `list` names.
pub fn parse_origins(list: &str) -> (origins: Vec<String>)
    ensures
        string_views(origins@) == origins_of(list@),
{
    let chars = chars_of(list);
    let n = chars.len();
    let mut origins: Vec<String> = Vec::new();
    let mut start: usize = 0;
    let mut done = false;
    assert(chars@.skip(0) =~= chars@);
    assert(string_views(origins@) =~= seq![]);
    while !done
        invariant
            start <= n == chars@.len(),
            chars@ == list@,
            !done ==> origins_of(list@) == string_views(origins@) + origins_of(
                chars@.skip(start as int),
            ),
            done ==> origins_of(list@) == string_views(origins@),
        decreases n - start + if done { 0int } else { 1int },
    {
        let ghost rest = chars@.skip(start as int);
        let mut end: usize = start;
        while end < n && chars[end] != ','
            invariant
                start <= end <= n == chars@.len(),
                forall|k: int| start <= k < end ==> chars@[k] != ',',
            decreases n - end,
        {
            end += 1;
        }
        proof {
            assert forall|k: int| 0 <= k < end - start implies rest[k] != ',' by {
                assert(rest[k] == chars@[start + k]);
            }
            lemma_first_comma_is(rest, end - start);
        }
        let mut item: Vec<char> = Vec::new();
        let mut k: usize = start;
        while k < end
            invariant
                start <= k <= end <= n == chars@.len(),
                item@ == chars@.subrange(start as int, k as int),
            decreases end - k,
        {
            item.push(chars[k]);
            k += 1;
            assert(item@ =~= chars@.subrange(start as int, k as int));
        }
        assert(item@ =~= rest.take(end - start));
        let (from, to) = trim_bounds(&item);
        let ghost before = origins@;
        if to > from {
            origins.push(string_of_range(&item, from, to));
            assert(string_views(origins@) =~= string_views(before) + seq![trimmed(item@)]);
        }
        if end < n {
            assert(rest.skip(end - start + 1) =~= chars@.skip(end + 1));
            start = end + 1;
        } else {
            done = true;
        }
    }
    origins
}

/// Which origins are allowed.
#[derive(Debug)]
pub enum CorsPolicy {
    /// Every origin, with credentials: outside production, and in production
    /// where no origin is named.
    AnyOrigin,
    /// These origins only, with credentials.
    Origins(Vec<String>),
}

/// The policy that an environment and a list of origins give.
pub open spec fn policy_is(policy: CorsPolicy, production: bool, list: Seq<char>) -> bool {
    match policy {
        CorsPolicy::AnyOrigin => !production || origins_of(list).len() == 0,
        CorsPolicy::Origins(origins) => production && origins_of(list).len() > 0
            && string_views(origins@) == origins_of(list),
    }
}

/// The policy for the environment named `environment` (development where it
/// has no name) and the comma-separated list of allowed origins.
pub fn cors_policy(environment: Option<&str>, allowed_origins: &str) -> (policy: CorsPolicy)
    ensures
        policy_is(
            policy,
            environment matches Some(name) && name@ == "production"@,
            allowed_origins@,
        ),
{
    let production = match environment {
        Some(name) => name.to_string() == "production".to_string(),
        None => false,
    };
    let origins = parse_origins(allowed_origins);
    if !production || origins.len() == 0 {
        CorsPolicy::AnyOrigin
    } else {
        CorsPolicy::Origins(origins)
    }
}

} // verus!
