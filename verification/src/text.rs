//! Character-level helpers shared by the validators, the access control and the
//! token codec. Strings are viewed as sequences of `char`.

use vstd::prelude::*;

verus! {

/// Whether `c` has the Unicode `White_Space` property.
pub uninterp spec fn unicode_whitespace(c: char) -> bool;

/// Whether `c` has the Unicode `Uppercase` property.
pub uninterp spec fn unicode_uppercase(c: char) -> bool;

/// Whether `c` has the Unicode `Lowercase` property.
pub uninterp spec fn unicode_lowercase(c: char) -> bool;

/// The Unicode lowercase mapping of a whole string.
pub uninterp spec fn lowercased(s: Seq<char>) -> Seq<char>;

/// `char::is_whitespace`: the result is the `White_Space` property of `c`,
/// which this library only names.
pub assume_specification[ char::is_whitespace ](c: char) -> (b: bool)
    ensures
        b == unicode_whitespace(c),
;

/// `char::is_uppercase`: the result is the `Uppercase` property of `c`,
/// which this library only names.
pub assume_specification[ char::is_uppercase ](c: char) -> (b: bool)
    ensures
        b == unicode_uppercase(c),
;

/// `char::is_lowercase`: the result is the `Lowercase` property of `c`,
/// which this library only names.
pub assume_specification[ char::is_lowercase ](c: char) -> (b: bool)
    ensures
        b == unicode_lowercase(c),
;

/// `str::to_lowercase`: the result is the lowercase mapping of the input,
/// a function of the input alone, which this library only names.
pub assume_specification[ str::to_lowercase ](s: &str) -> (r: String)
    ensures
        r@ == lowercased(s@),
;

/// `String::push`: appends exactly one character at the end.
pub assume_specification[ String::push ](s: &mut String, c: char)
    ensures
        final(s)@ == old(s)@.push(c),
;

/// The characters of `s`, in order.
pub(crate) fn chars_of(s: &str) -> (out: Vec<char>)
    ensures
        out@ == s@,
{
    let mut out: Vec<char> = Vec::new();
    for c in it: s.chars()
        invariant
            it.seq() == s@,
            out@ == it.seq().take(it.index() as int),
    {
        out.push(c);
    }
    out
}

/// The string made of `chars[from..to]`.
pub(crate) fn string_of_range(chars: &Vec<char>, from: usize, to: usize) -> (out: String)
    requires
        from <= to <= chars@.len(),
    ensures
        out@ == chars@.subrange(from as int, to as int),
{
    let mut out = String::new();
    let mut i: usize = from;
    while i < to
        invariant
            from <= i <= to <= chars@.len(),
            out@ == chars@.subrange(from as int, i as int),
        decreases to - i,
    {
        out.push(chars[i]);
        i += 1;
        assert(out@ =~= chars@.subrange(from as int, i as int));
    }
    out
}

/// `s` without its leading whitespace.
pub open spec fn skip_leading_whitespace(s: Seq<char>) -> Seq<char>
    decreases s.len(),
{
    if s.len() > 0 && unicode_whitespace(s[0]) {
        skip_leading_whitespace(s.drop_first())
    } else {
        s
    }
}

/// `s` without its trailing whitespace.
pub open spec fn drop_trailing_whitespace(s: Seq<char>) -> Seq<char>
    decreases s.len(),
{
    if s.len() > 0 && unicode_whitespace(s.last()) {
        drop_trailing_whitespace(s.drop_last())
    } else {
        s
    }
}

/// `s` with leading and trailing whitespace removed.
pub open spec fn trimmed(s: Seq<char>) -> Seq<char> {
    drop_trailing_whitespace(skip_leading_whitespace(s))
}

/// The bounds `(from, to)` of what trimming keeps of `chars`.
pub(crate) fn trim_bounds(chars: &Vec<char>) -> (bounds: (usize, usize))
    ensures
        bounds.0 <= bounds.1 <= chars@.len(),
        trimmed(chars@) == chars@.subrange(bounds.0 as int, bounds.1 as int),
{
    let n = chars.len();
    let mut i: usize = 0;
    assert(chars@.subrange(0, n as int) =~= chars@);
    while i < n && chars[i].is_whitespace()
        invariant
            i <= n == chars@.len(),
            skip_leading_whitespace(chars@) == skip_leading_whitespace(
                chars@.subrange(i as int, n as int),
            ),
        decreases n - i,
    {
        assert(chars@.subrange(i as int, n as int).drop_first() =~= chars@.subrange(
            i + 1,
            n as int,
        ));
        i += 1;
    }
    let mut j: usize = n;
    while j > i && chars[j - 1].is_whitespace()
        invariant
            i <= j <= n == chars@.len(),
            drop_trailing_whitespace(chars@.subrange(i as int, n as int))
                == drop_trailing_whitespace(chars@.subrange(i as int, j as int)),
        decreases j - i,
    {
        assert(chars@.subrange(i as int, j as int).drop_last() =~= chars@.subrange(
            i as int,
            j - 1,
        ));
        j -= 1;
    }
    (i, j)
}

/// Whether `prefix` stands at the start of `s`.
pub open spec fn has_prefix(s: Seq<char>, prefix: Seq<char>) -> bool {
    prefix.len() <= s.len() && s.subrange(0, prefix.len() as int) == prefix
}

/// Whether `prefix` stands in `chars` at position `at`.
pub(crate) fn prefix_at(chars: &Vec<char>, at: usize, prefix: &Vec<char>) -> (b: bool)
    requires
        at <= chars@.len(),
    ensures
        b == has_prefix(chars@.subrange(at as int, chars@.len() as int), prefix@),
{
    let n = chars.len();
    let m = prefix.len();
    let ghost rest = chars@.subrange(at as int, n as int);
    if m > n - at {
        return false;
    }
    let mut k: usize = 0;
    while k < m
        invariant
            k <= m == prefix@.len(),
            n == chars@.len(),
            at + m <= n,
            rest == chars@.subrange(at as int, n as int),
            rest.subrange(0, k as int) == prefix@.subrange(0, k as int),
        decreases m - k,
    {
        if chars[at + k] != prefix[k] {
            assert(rest.subrange(0, m as int)[k as int] != prefix@[k as int]);
            return false;
        }
        k += 1;
        assert(rest.subrange(0, k as int) =~= rest.subrange(0, k - 1).push(rest[k - 1]));
        assert(prefix@.subrange(0, k as int) =~= prefix@.subrange(0, k - 1).push(prefix@[k - 1]));
    }
    assert(prefix@.subrange(0, m as int) =~= prefix@);
    true
}

/// Whether `needle` stands somewhere in `s`.
pub open spec fn contains_text(s: Seq<char>, needle: Seq<char>) -> bool {
    exists|i: int| 0 <= i <= s.len() && has_prefix(#[trigger] s.subrange(i, s.len() as int), needle)
}

/// Whether `needle` stands somewhere in `chars`.
pub(crate) fn find_text(chars: &Vec<char>, needle: &Vec<char>) -> (b: bool)
    ensures
        b == contains_text(chars@, needle@),
{
    let n = chars.len();
    let mut i: usize = 0;
    while i < n
        invariant
            i <= n == chars@.len(),
            forall|k: int|
                0 <= k < i ==> !has_prefix(#[trigger] chars@.subrange(k, n as int), needle@),
        decreases n - i,
    {
        if prefix_at(chars, i, needle) {
            return true;
        }
        i += 1;
    }
    prefix_at(chars, n, needle)
}

/// `s` without the copies of `prefix` that stand at its start, one after
/// the other.
pub open spec fn strip_repeated(s: Seq<char>, prefix: Seq<char>) -> Seq<char>
    decreases s.len(),
{
    if prefix.len() > 0 && has_prefix(s, prefix) {
        strip_repeated(s.skip(prefix.len() as int), prefix)
    } else {
        s
    }
}

/// The position in `chars` after the copies of `prefix` at its start.
pub(crate) fn skip_repeated(chars: &Vec<char>, prefix: &Vec<char>) -> (at: usize)
    ensures
        at <= chars@.len(),
        strip_repeated(chars@, prefix@) == chars@.skip(at as int),
{
    let n = chars.len();
    let m = prefix.len();
    let mut at: usize = 0;
    assert(chars@.skip(0) =~= chars@);
    if m == 0 {
        return 0;
    }
    while prefix_at(chars, at, prefix)
        invariant
            at <= n == chars@.len(),
            m == prefix@.len(),
            m > 0,
            strip_repeated(chars@, prefix@) == strip_repeated(chars@.skip(at as int), prefix@),
        decreases n - at,
    {
        assert(chars@.subrange(at as int, n as int) =~= chars@.skip(at as int));
        assert(chars@.skip(at as int).skip(m as int) =~= chars@.skip(at + m));
        at += m;
    }
    assert(chars@.subrange(at as int, n as int) =~= chars@.skip(at as int));
    at
}

/// The characters of `chars` from position `from` on.
pub(crate) fn tail_of(chars: &Vec<char>, from: usize) -> (out: Vec<char>)
    requires
        from <= chars@.len(),
    ensures
        out@ == chars@.skip(from as int),
{
    let mut out: Vec<char> = Vec::new();
    let mut i: usize = from;
    while i < chars.len()
        invariant
            from <= i <= chars@.len(),
            out@ == chars@.subrange(from as int, i as int),
        decreases chars@.len() - i,
    {
        out.push(chars[i]);
        i += 1;
        assert(out@ =~= chars@.subrange(from as int, i as int));
    }
    assert(chars@.subrange(from as int, chars@.len() as int) =~= chars@.skip(from as int));
    out
}

} // verus!
