use vstd::prelude::*;

verus! {

/// The token that introduces the category in a request's query string.
pub open spec fn category_token() -> Seq<char> {
    seq!['c', 'a', 't', 'e', 'g', 'o', 'r', 'y', '=']
}

/// `s` with every occurrence of the category token taken out, matches found
/// left to right without overlap.
pub open spec fn remove_token(s: Seq<char>) -> Seq<char>
    decreases s.len(),
{
    if s.len() == 0 {
        s
    } else if s.len() >= 9 && s.subrange(0, 9) == category_token() {
        remove_token(s.subrange(9, s.len() as int))
    } else {
        seq![s[0]] + remove_token(s.subrange(1, s.len() as int))
    }
}

/// The characters that carry the Unicode `White_Space` property.
pub open spec fn is_white_space(c: char) -> bool {
    ('\u{9}' <= c && c <= '\u{d}') || c == ' ' || c == '\u{85}' || c == '\u{a0}'
        || c == '\u{1680}' || ('\u{2000}' <= c && c <= '\u{200a}') || c == '\u{2028}'
        || c == '\u{2029}' || c == '\u{202f}' || c == '\u{205f}' || c == '\u{3000}'
}

/// `s` without its leading white space.
pub open spec fn trim_start(s: Seq<char>) -> Seq<char>
    decreases s.len(),
{
    if s.len() > 0 && is_white_space(s[0]) {
        trim_start(s.subrange(1, s.len() as int))
    } else {
        s
    }
}

/// `s` without its trailing white space.
pub open spec fn trim_end(s: Seq<char>) -> Seq<char>
    decreases s.len(),
{
    if s.len() > 0 && is_white_space(s.last()) {
        trim_end(s.drop_last())
    } else {
        s
    }
}

/// `s` without white space at either end.
pub open spec fn trim(s: Seq<char>) -> Seq<char> {
    trim_end(trim_start(s))
}

/// The category that a request asks for: its query string with the
/// category token taken out and white space trimmed; empty without a query.
pub open spec fn requested_category(query: Option<Seq<char>>) -> Seq<char> {
    match query {
        Some(q) => trim(remove_token(q)),
        None => Seq::empty(),
    }
}

/// True when `c` carries the Unicode `White_Space` property.
pub fn is_space(c: char) -> (r: bool)
    ensures
        r == is_white_space(c),
{
    ('\u{9}' <= c && c <= '\u{d}') || c == ' ' || c == '\u{85}' || c == '\u{a0}'
        || c == '\u{1680}' || ('\u{2000}' <= c && c <= '\u{200a}') || c == '\u{2028}'
        || c == '\u{2029}' || c == '\u{202f}' || c == '\u{205f}' || c == '\u{3000}'
}

fn token_at(s: &str, n: usize, i: usize) -> (r: bool)
    requires
        n == s@.len(),
        i <= n,
    ensures
        r == (n - i >= 9 && s@.subrange(i as int, i + 9) == category_token()),
{
    if n - i < 9 {
        return false;
    }
    let token = "category=";
    proof {
        reveal_strlit("category=");
    }
    let mut k: usize = 0;
    while k < 9
        invariant
            n == s@.len(),
            i + 9 <= n,
            k <= 9,
            token@ == category_token(),
            forall|j: int| 0 <= j < k ==> s@[i + j] == category_token()[j],
        decreases 9 - k,
    {
        if s.get_char(i + k) != token.get_char(k) {
            assert(s@.subrange(i as int, i + 9)[k as int] != category_token()[k as int]);
            return false;
        }
        k = k + 1;
    }
    assert(s@.subrange(i as int, i + 9) =~= category_token());
    true
}

/// The query string with every occurrence of `category=` taken out.
pub fn strip_category_token(query: &str) -> (r: String)
    ensures
        r@ == remove_token(query@),
{
    let n = query.unicode_len();
    let mut out = String::new();
    let mut i: usize = 0;
    assert(query@.subrange(0, n as int) =~= query@);
    assert(out@ + query@ =~= query@);
    while i < n
        invariant
            n == query@.len(),
            i <= n,
            out@ + remove_token(query@.subrange(i as int, n as int)) == remove_token(query@),
        decreases n - i,
    {
        let ghost rest = query@.subrange(i as int, n as int);
        if token_at(query, n, i) {
            assert(rest.subrange(0, 9) =~= query@.subrange(i as int, i + 9));
            assert(rest.subrange(9, rest.len() as int) =~= query@.subrange(i + 9, n as int));
            i = i + 9;
        } else {
            assert(rest.len() >= 9 ==> rest.subrange(0, 9) =~= query@.subrange(i as int, i + 9));
            assert(rest.subrange(1, rest.len() as int) =~= query@.subrange(i + 1, n as int));
            let ghost before = out@;
            out.append(query.substring_char(i, i + 1));
            assert(out@ =~= before + seq![rest[0]]);
            assert(seq![rest[0]] + remove_token(query@.subrange(i + 1, n as int)) == remove_token(rest));
            assert(out@ + remove_token(query@.subrange(i + 1, n as int)) =~= before + remove_token(rest));
            i = i + 1;
        }
    }
    assert(remove_token(query@.subrange(n as int, n as int)) =~= Seq::<char>::empty());
    assert(out@ =~= out@ + Seq::<char>::empty());
    out
}

/// `s` without white space at either end.
pub fn trim_spaces(s: &str) -> (r: String)
    ensures
        r@ == trim(s@),
{
    let n = s.unicode_len();
    let mut i: usize = 0;
    assert(s@.subrange(0, n as int) =~= s@);
    while i < n && is_space(s.get_char(i))
        invariant
            n == s@.len(),
            i <= n,
            trim_start(s@.subrange(i as int, n as int)) == trim_start(s@),
        decreases n - i,
    {
        let ghost rest = s@.subrange(i as int, n as int);
        assert(rest.subrange(1, rest.len() as int) =~= s@.subrange(i + 1, n as int));
        i = i + 1;
    }
    assert(trim_start(s@) == s@.subrange(i as int, n as int));
    let mut j: usize = n;
    while j > i && is_space(s.get_char(j - 1))
        invariant
            n == s@.len(),
            i <= j <= n,
            trim_end(s@.subrange(i as int, j as int)) == trim(s@),
        decreases j,
    {
        let ghost part = s@.subrange(i as int, j as int);
        assert(part.drop_last() =~= s@.subrange(i as int, j - 1));
        j = j - 1;
    }
    s.substring_char(i, j).to_owned()
}

/// The category named by a request's query string, or the empty string when
/// there is no query.
pub fn category_from_query(query: Option<&str>) -> (r: String)
    ensures
        r@ == requested_category(
            match query {
                Some(q) => Some(q@),
                None => None,
            },
        ),
{
    match query {
        Some(q) => {
            let stripped = strip_category_token(q);
            trim_spaces(stripped.as_str())
        },
        None => String::new(),
    }
}

} // verus!
