//! Search directives parsed from query strings.
//!
//! A query has the shape `kind , term`: the text before the first comma
//! names the kind of match, the text between the first and second comma
//! (if any) is the term, and both are trimmed of surrounding whitespace.

use vstd::prelude::*;

verus! {

/// Why a query string could not be turned into a search directive.
#[derive(Debug, PartialEq)]
pub enum SearchParseError {
    Kind(String),
    Term(String),
}

/// Search for a field that cannot be null.
///
/// Use a `NullableSearch<T>` when a field could be null instead of
/// `Search<Option<T>>`.
#[derive(Debug, PartialEq)]
pub enum Search<T> {
    /// Field partially matches
    Partial(T),
    /// Field fully matches
    Exact(T),
    /// Do not search by this field
    NoSearch,
}

/// Search for a field that can be null.
///
/// `NonNull` and `Null` match non-null and null fields outright, so the
/// unclear meaning of `Search<Option<T>>` for those cases never arises.
#[derive(Debug, PartialEq)]
pub enum NullableSearch<T> {
    /// Field is not null and partially matches
    Partial(T),
    /// Field is not null and exactly matches
    Exact(T),
    /// Field is not null
    NonNull,
    /// Field is null
    Null,
    /// Do not search by this field
    NoSearch,
}

/// The characters that trimming removes: the Unicode white-space set.
pub open spec fn char_is_space(c: char) -> bool {
    let u = c as u32;
    u == 0x20 || (0x9 <= u && u <= 0xD) || u == 0x85 || u == 0xA0 || u == 0x1680 || (0x2000 <= u
        && u <= 0x200A) || u == 0x2028 || u == 0x2029 || u == 0x202F || u == 0x205F || u == 0x3000
}

fn is_space(c: char) -> (r: bool)
    ensures
        r == char_is_space(c),
{
    let u = c as u32;
    u == 0x20 || (0x9 <= u && u <= 0xD) || u == 0x85 || u == 0xA0 || u == 0x1680 || (0x2000 <= u
        && u <= 0x200A) || u == 0x2028 || u == 0x2029 || u == 0x202F || u == 0x205F || u == 0x3000
}

/// `s` with leading and trailing white space removed.
pub open spec fn trim_of(s: Seq<char>) -> Seq<char>
    decreases s.len(),
{
    if s.len() == 0 {
        s
    } else if char_is_space(s[0]) {
        trim_of(s.drop_first())
    } else if char_is_space(s[s.len() - 1]) {
        trim_of(s.drop_last())
    } else {
        s
    }
}

/// The index of the first comma in `s`, or `s.len()` if there is none.
pub open spec fn find_comma(s: Seq<char>) -> int
    decreases s.len(),
{
    if s.len() == 0 {
        0
    } else if s[0] == ',' {
        0
    } else {
        1 + find_comma(s.drop_first())
    }
}

/// The kind named by a query: the trimmed text before the first comma.
pub open spec fn query_kind(q: Seq<char>) -> Seq<char> {
    trim_of(q.subrange(0, find_comma(q)))
}

/// The term of a query: the trimmed text between the first and second
/// comma, or nothing when the query has no comma at all.
pub open spec fn query_term(q: Seq<char>) -> Option<Seq<char>> {
    if find_comma(q) == q.len() {
        Option::None
    } else {
        let rest = q.subrange(find_comma(q) + 1, q.len() as int);
        Option::Some(trim_of(rest.subrange(0, find_comma(rest))))
    }
}

proof fn lemma_find_comma_at(s: Seq<char>, i: int)
    requires
        0 <= i <= s.len(),
        forall|j: int| 0 <= j < i ==> s[j] != ',',
        i < s.len() ==> s[i] == ',',
    ensures
        find_comma(s) == i,
    decreases s.len(),
{
    if s.len() == 0 {
    } else if i == 0 {
    } else {
        assert(s[0] != ',');
        lemma_find_comma_at(s.drop_first(), i - 1);
    }
}

/// `s` trimmed of surrounding white space, as a fresh `String`.
fn trim_str(s: &str) -> (r: String)
    ensures
        r@ == trim_of(s@),
{
    let n = s.unicode_len();
    proof {
        assert(s@.subrange(0, n as int) =~= s@);
    }
    let mut start: usize = 0;
    while start < n && is_space(s.get_char(start))
        invariant
            0 <= start <= n,
            n == s@.len(),
            trim_of(s@) == trim_of(s@.subrange(start as int, n as int)),
        decreases n - start,
    {
        proof {
            assert(s@.subrange(start as int, n as int).drop_first() =~= s@.subrange(
                start as int + 1,
                n as int,
            ));
        }
        start += 1;
    }
    let mut end: usize = n;
    while end > start && is_space(s.get_char(end - 1))
        invariant
            0 <= start <= end <= n,
            n == s@.len(),
            trim_of(s@) == trim_of(s@.subrange(start as int, end as int)),
            start < n ==> !char_is_space(s@[start as int]),
        decreases end,
    {
        proof {
            assert(s@.subrange(start as int, end as int).drop_last() =~= s@.subrange(
                start as int,
                end as int - 1,
            ));
        }
        end -= 1;
    }
    let out = s.substring_char(start, end);
    proof {
        let t = s@.subrange(start as int, end as int);
        if start < end {
            assert(!char_is_space(t[0]));
            assert(!char_is_space(t[t.len() - 1]));
            assert(trim_of(t) == t);
        } else {
            assert(t.len() == 0);
        }
    }
    out.to_owned()
}

/// Character-for-character string equality.
pub fn str_eq(a: &str, b: &str) -> (r: bool)
    ensures
        r == (a@ == b@),
{
    let na = a.unicode_len();
    let nb = b.unicode_len();
    if na != nb {
        proof {
            assert(a@ != b@);
        }
        return false;
    }
    let mut i: usize = 0;
    while i < na
        invariant
            0 <= i <= na,
            na == a@.len(),
            na == b@.len(),
            forall|j: int| 0 <= j < i ==> a@[j] == b@[j],
        decreases na - i,
    {
        if a.get_char(i) != b.get_char(i) {
            proof {
                assert(a@[i as int] != b@[i as int]);
            }
            return false;
        }
        i += 1;
    }
    proof {
        assert(a@ =~= b@);
    }
    true
}

/// The kind and term of `query`, each trimmed; the term is absent when
/// the query holds no comma.
fn split_query(query: &str) -> (r: (String, Option<String>))
    ensures
        r.0@ == query_kind(query@),
        match r.1 {
            Option::Some(t) => query_term(query@) == Option::Some(t@),
            Option::None => query_term(query@) is None,
        },
{
    let n = query.unicode_len();
    let mut i: usize = 0;
    while i < n && !(query.get_char(i) == ',')
        invariant
            0 <= i <= n,
            n == query@.len(),
            forall|j: int| 0 <= j < i ==> query@[j] != ',',
        decreases n - i,
    {
        i += 1;
    }
    proof {
        lemma_find_comma_at(query@, i as int);
    }
    let kind = trim_str(query.substring_char(0, i));
    if i < n {
        let mut j: usize = i + 1;
        while j < n && !(query.get_char(j) == ',')
            invariant
                i + 1 <= j <= n,
                n == query@.len(),
                forall|k: int| i + 1 <= k < j ==> query@[k] != ',',
            decreases n - j,
        {
            j += 1;
        }
        let ghost rest = query@.subrange(i as int + 1, n as int);
        proof {
            assert(forall|k: int| 0 <= k < j - (i + 1) ==> rest[k] != ',');
            lemma_find_comma_at(rest, j - (i + 1));
            assert(query@.subrange(i as int + 1, j as int) =~= rest.subrange(
                0,
                find_comma(rest),
            ));
        }
        let term = trim_str(query.substring_char(i + 1, j));
        (kind, Option::Some(term))
    } else {
        (kind, Option::None)
    }
}

impl Search<String> {
    /// Parse a search directive whose term is taken verbatim.
    ///
    /// The result is `Partial` or `Exact` exactly when the query names
    /// that kind and carries a term; a known kind without a term is a
    /// term error, and any other kind is a kind error.
    pub fn from_query(query: &str) -> (r: Result<Search<String>, SearchParseError>)
        ensures
            ({
                let k = query_kind(query@);
                let t = query_term(query@);
                match r {
                    Ok(Search::Partial(s)) => k == "partial"@ && t == Option::Some(s@),
                    Ok(Search::Exact(s)) => k == "exact"@ && t == Option::Some(s@),
                    Ok(Search::NoSearch) => false,
                    Err(SearchParseError::Term(s)) => (k == "partial"@ || k == "exact"@)
                        && t is None && s@.len() == 0,
                    Err(SearchParseError::Kind(s)) => k != "partial"@ && k != "exact"@ && s@ == k,
                }
            }),
    {
        let (kind, term) = split_query(query);
        match term {
            Option::Some(t) => {
                if str_eq(kind.as_str(), "partial") {
                    Ok(Search::Partial(t))
                } else if str_eq(kind.as_str(), "exact") {
                    Ok(Search::Exact(t))
                } else {
                    Err(SearchParseError::Kind(kind))
                }
            },
            Option::None => {
                if str_eq(kind.as_str(), "partial") || str_eq(kind.as_str(), "exact") {
                    Err(SearchParseError::Term(String::new()))
                } else {
                    Err(SearchParseError::Kind(kind))
                }
            },
        }
    }
}

impl NullableSearch<String> {
    /// Parse a search directive for a nullable field.
    ///
    /// Beyond the `partial` and `exact` kinds, the kinds `some` and
    /// `none` select non-null and null fields and take no term: given
    /// one anyway, the term is rejected.
    pub fn from_query(query: &str) -> (r: Result<NullableSearch<String>, SearchParseError>)
        ensures
            ({
                let k = query_kind(query@);
                let t = query_term(query@);
                match r {
                    Ok(NullableSearch::Partial(s)) => k == "partial"@ && t == Option::Some(s@),
                    Ok(NullableSearch::Exact(s)) => k == "exact"@ && t == Option::Some(s@),
                    Ok(NullableSearch::NonNull) => k == "some"@ && t is None,
                    Ok(NullableSearch::Null) => k == "none"@ && t is None,
                    Ok(NullableSearch::NoSearch) => false,
                    Err(SearchParseError::Term(s)) => ((k == "partial"@ || k == "exact"@)
                        && t is None && s@.len() == 0) || ((k == "some"@ || k == "none"@)
                        && t == Option::Some(s@)),
                    Err(SearchParseError::Kind(s)) => k != "partial"@ && k != "exact"@
                        && k != "some"@ && k != "none"@ && s@ == k,
                }
            }),
    {
        let (kind, term) = split_query(query);
        match term {
            Option::Some(t) => {
                if str_eq(kind.as_str(), "partial") {
                    Ok(NullableSearch::Partial(t))
                } else if str_eq(kind.as_str(), "exact") {
                    Ok(NullableSearch::Exact(t))
                } else if str_eq(kind.as_str(), "some") || str_eq(kind.as_str(), "none") {
                    Err(SearchParseError::Term(t))
                } else {
                    Err(SearchParseError::Kind(kind))
                }
            },
            Option::None => {
                if str_eq(kind.as_str(), "some") {
                    Ok(NullableSearch::NonNull)
                } else if str_eq(kind.as_str(), "none") {
                    Ok(NullableSearch::Null)
                } else if str_eq(kind.as_str(), "partial") || str_eq(kind.as_str(), "exact") {
                    Err(SearchParseError::Term(String::new()))
                } else {
                    Err(SearchParseError::Kind(kind))
                }
            },
        }
    }
}


/// Does `hay` contain `needle` as a contiguous run of characters?
pub open spec fn contains_sub(hay: Seq<char>, needle: Seq<char>) -> bool {
    exists|k: int|
        0 <= k <= hay.len() - needle.len() && #[trigger] hay.subrange(k, k + needle.len())
            == needle
}

/// Character-run containment, the `%needle%` match of a like-filter.
pub fn str_contains(hay: &str, needle: &str) -> (r: bool)
    ensures
        r == contains_sub(hay@, needle@),
{
    let nh = hay.unicode_len();
    let nn = needle.unicode_len();
    if nn > nh {
        proof {
            assert(!contains_sub(hay@, needle@)) by {
                if contains_sub(hay@, needle@) {
                    let k = choose|k: int|
                        0 <= k <= hay@.len() - needle@.len() && #[trigger] hay@.subrange(
                            k,
                            k + needle@.len(),
                        ) == needle@;
                    assert(false);
                }
            }
        }
        return false;
    }
    if nn == 0 {
        proof {
            let z: int = 0;
            assert(hay@.subrange(z, z + needle@.len()) =~= needle@);
        }
        return true;
    }
    let mut k: usize = 0;
    while k <= nh - nn
        invariant
            0 < nn <= nh,
            nh == hay@.len(),
            nn == needle@.len(),
            0 <= k <= nh - nn + 1,
            forall|k2: int|
                0 <= k2 < k ==> #[trigger] hay@.subrange(k2, k2 + needle@.len()) != needle@,
        decreases nh - nn + 1 - k,
    {
        let mut m: usize = 0;
        let mut matched = true;
        while m < nn
            invariant
                nn <= nh,
                nh == hay@.len(),
                nn == needle@.len(),
                0 <= k <= nh - nn,
                0 <= m <= nn,
                matched ==> forall|t: int| 0 <= t < m ==> hay@[k + t] == needle@[t],
                !matched ==> hay@.subrange(k as int, k + needle@.len()) != needle@,
            decreases nn - m,
        {
            if hay.get_char(k + m) != needle.get_char(m) {
                proof {
                    assert(hay@.subrange(k as int, k + needle@.len())[m as int]
                        != needle@[m as int]);
                }
                matched = false;
            }
            m += 1;
        }
        if matched {
            proof {
                assert(hay@.subrange(k as int, k + needle@.len()) =~= needle@);
            }
            return true;
        }
        k += 1;
    }
    proof {
        assert(!contains_sub(hay@, needle@)) by {
            if contains_sub(hay@, needle@) {
                let k2 = choose|k2: int|
                    0 <= k2 <= hay@.len() - needle@.len() && #[trigger] hay@.subrange(
                        k2,
                        k2 + needle@.len(),
                    ) == needle@;
                assert(false);
            }
        }
    }
    false
}

} // verus!
