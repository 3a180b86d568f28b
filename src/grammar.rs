//! The lexical grammar of an accepted link, matched against the whole text:
//! an `http` or `https` scheme, an optional `www.`, a host of 1 to 256
//! domain characters, a dot, a top-level label of 1 to 30 characters that
//! ends on a word boundary, and a tail of path, query and fragment
//! characters up to the end.
use vstd::prelude::*;

verus! {

pub open spec fn is_ascii_alnum(c: char) -> bool {
    ('a' <= c && c <= 'z') || ('A' <= c && c <= 'Z') || ('0' <= c && c <= '9')
}

/// Characters allowed in the host part before the final dot.
pub open spec fn is_domain_char(c: char) -> bool {
    is_ascii_alnum(c) || c == '-' || c == '@' || c == ':' || c == '%' || c == '.' || c == '_'
        || c == '+' || c == '~' || c == '#' || c == '='
}

/// Characters allowed in the top-level label.
pub open spec fn is_label_char(c: char) -> bool {
    is_ascii_alnum(c) || c == '(' || c == ')'
}

/// Characters allowed in the tail after the top-level label.
pub open spec fn is_tail_char(c: char) -> bool {
    is_ascii_alnum(c) || c == '-' || c == '(' || c == ')' || c == '!' || c == '@' || c == ':'
        || c == '%' || c == '_' || c == '+' || c == '.' || c == '~' || c == '#' || c == '?'
        || c == '&' || c == '/' || c == '='
}

/// Word characters, for the boundary that ends the top-level label
/// (ASCII letters, digits and the underscore).
pub open spec fn is_word_char(c: char) -> bool {
    is_ascii_alnum(c) || c == '_'
}

pub open spec fn all_domain(s: Seq<char>, a: int, b: int) -> bool {
    forall|t: int| a <= t < b ==> #[trigger] is_domain_char(s[t])
}

pub open spec fn all_label(s: Seq<char>, a: int, b: int) -> bool {
    forall|t: int| a <= t < b ==> #[trigger] is_label_char(s[t])
}

pub open spec fn all_tail(s: Seq<char>, a: int, b: int) -> bool {
    forall|t: int| a <= t < b ==> #[trigger] is_tail_char(s[t])
}

/// A word boundary just before position `m` (with `0 < m <= s.len()`).
pub open spec fn boundary_at(s: Seq<char>, m: int) -> bool {
    is_word_char(s[m - 1]) != (m < s.len() && is_word_char(s[m]))
}

/// The top-level label starting at `start` may end at `m`, the rest of the
/// text being a tail.
pub open spec fn label_end(s: Seq<char>, start: int, m: int) -> bool {
    start < m <= start + 30 && m <= s.len() && all_label(s, start, m) && boundary_at(s, m)
        && all_tail(s, m, s.len() as int)
}

pub open spec fn label_ok(s: Seq<char>, start: int) -> bool {
    exists|m: int| label_end(s, start, m)
}

/// The host starting at `j` may have its final dot at `k`.
pub open spec fn dot_at(s: Seq<char>, j: int, k: int) -> bool {
    j < k <= j + 256 && k < s.len() && all_domain(s, j, k) && s[k] == '.' && label_ok(s, k + 1)
}

pub open spec fn host_ok(s: Seq<char>, j: int) -> bool {
    exists|k: int| dot_at(s, j, k)
}

pub open spec fn http_prefix() -> Seq<char> {
    seq!['h', 't', 't', 'p', ':', '/', '/']
}

pub open spec fn https_prefix() -> Seq<char> {
    seq!['h', 't', 't', 'p', 's', ':', '/', '/']
}

pub open spec fn has_at(s: Seq<char>, i: int, p: Seq<char>) -> bool {
    0 <= i && i + p.len() <= s.len() && s.subrange(i, i + p.len()) == p
}

pub open spec fn www_prefix() -> Seq<char> {
    seq!['w', 'w', 'w', '.']
}

/// The part after the scheme, starting at `j`, with or without `www.`.
pub open spec fn authority_ok(s: Seq<char>, j: int) -> bool {
    host_ok(s, j) || (has_at(s, j, www_prefix()) && host_ok(s, j + 4))
}

/// The whole text is a link of the grammar.
pub open spec fn url_grammar(s: Seq<char>) -> bool {
    (has_at(s, 0, http_prefix()) && authority_ok(s, 7)) || (has_at(s, 0, https_prefix())
        && authority_ok(s, 8))
}

fn is_ascii_alnum_exec(c: char) -> (r: bool)
    ensures
        r == is_ascii_alnum(c),
{
    ('a' <= c && c <= 'z') || ('A' <= c && c <= 'Z') || ('0' <= c && c <= '9')
}

fn is_domain_char_exec(c: char) -> (r: bool)
    ensures
        r == is_domain_char(c),
{
    is_ascii_alnum_exec(c) || c == '-' || c == '@' || c == ':' || c == '%' || c == '.' || c == '_'
        || c == '+' || c == '~' || c == '#' || c == '='
}

fn is_label_char_exec(c: char) -> (r: bool)
    ensures
        r == is_label_char(c),
{
    is_ascii_alnum_exec(c) || c == '(' || c == ')'
}

fn is_tail_char_exec(c: char) -> (r: bool)
    ensures
        r == is_tail_char(c),
{
    is_ascii_alnum_exec(c) || c == '-' || c == '(' || c == ')' || c == '!' || c == '@' || c == ':'
        || c == '%' || c == '_' || c == '+' || c == '.' || c == '~' || c == '#' || c == '?'
        || c == '&' || c == '/' || c == '='
}

fn all_tail_exec(s: &Vec<char>, from: usize) -> (r: bool)
    requires
        from <= s@.len(),
    ensures
        r == all_tail(s@, from as int, s@.len() as int),
{
    let mut t: usize = from;
    while t < s.len()
        invariant
            from <= t <= s@.len(),
            all_tail(s@, from as int, t as int),
        decreases s@.len() - t,
    {
        if !is_tail_char_exec(s[t]) {
            return false;
        }
        t = t + 1;
    }
    true
}

fn is_word_char_exec(c: char) -> (r: bool)
    ensures
        r == is_word_char(c),
{
    is_ascii_alnum_exec(c) || c == '_'
}

fn label_ok_exec(s: &Vec<char>, start: usize) -> (r: bool)
    requires
        s@.len() < usize::MAX - 64,
        start <= s@.len(),
    ensures
        r == label_ok(s@, start as int),
{
    let n = s.len();
    let mut m: usize = start + 1;
    while m <= n && m <= start + 30 && is_label_char_exec(s[m - 1])
        invariant
            n == s@.len(),
            s@.len() < usize::MAX - 64,
            start < m <= start + 31,
            m <= n + 1,
            all_label(s@, start as int, m - 1),
            forall|p: int| start < p < m ==> !#[trigger] label_end(s@, start as int, p),
        decreases start + 31 - m,
    {
        let before = is_word_char_exec(s[m - 1]);
        let after = m < n && is_word_char_exec(s[m]);
        if before != after && all_tail_exec(s, m) {
            assert(label_end(s@, start as int, m as int));
            return true;
        }
        m = m + 1;
    }
    assert forall|p: int| !#[trigger] label_end(s@, start as int, p) by {
        if p >= m && label_end(s@, start as int, p) {
            assert(is_label_char(s@[m - 1]));
        }
    }
    false
}

fn host_ok_exec(s: &Vec<char>, j: usize) -> (r: bool)
    requires
        s@.len() < usize::MAX - 512,
        j <= s@.len() + 8,
    ensures
        r == host_ok(s@, j as int),
{
    let n = s.len();
    let mut k: usize = j + 1;
    while k <= j + 256 && k < n && is_domain_char_exec(s[k - 1])
        invariant
            n == s@.len(),
            s@.len() < usize::MAX - 512,
            j <= s@.len() + 8,
            j < k <= j + 257,
            all_domain(s@, j as int, k - 1),
            forall|p: int| j < p < k ==> !#[trigger] dot_at(s@, j as int, p),
        decreases j + 257 - k,
    {
        if s[k] == '.' && label_ok_exec(s, k + 1) {
            assert(dot_at(s@, j as int, k as int));
            return true;
        }
        k = k + 1;
    }
    assert forall|p: int| !#[trigger] dot_at(s@, j as int, p) by {
        if p >= k && dot_at(s@, j as int, p) {
            assert(is_domain_char(s@[k - 1]));
        }
    }
    false
}

fn has_at_exec(s: &Vec<char>, i: usize, p: &Vec<char>) -> (r: bool)
    requires
        s@.len() < usize::MAX - 512,
        p@.len() < 512,
        i <= s@.len(),
    ensures
        r == has_at(s@, i as int, p@),
{
    if i + p.len() > s.len() {
        return false;
    }
    let mut t: usize = 0;
    while t < p.len()
        invariant
            i + p@.len() <= s@.len(),
            s@.len() < usize::MAX - 512,
            t <= p@.len(),
            forall|u: int| 0 <= u < t ==> s@[i + u] == p@[u],
        decreases p@.len() - t,
    {
        if s[i + t] != p[t] {
            assert(s@.subrange(i as int, i + p@.len())[t as int] != p@[t as int]);
            return false;
        }
        t = t + 1;
    }
    assert(s@.subrange(i as int, i + p@.len()) =~= p@);
    true
}

fn authority_ok_exec(s: &Vec<char>, j: usize) -> (r: bool)
    requires
        s@.len() < usize::MAX - 512,
        j <= 8,
    ensures
        r == authority_ok(s@, j as int),
{
    if host_ok_exec(s, j) {
        return true;
    }
    let www: Vec<char> = vec!['w', 'w', 'w', '.'];
    assert(www@ =~= www_prefix());
    if j <= s.len() && has_at_exec(s, j, &www) {
        host_ok_exec(s, j + 4)
    } else {
        false
    }
}

/// Whether the characters of `s` are, as a whole, a link of the grammar.
pub fn matches_url_grammar(s: &Vec<char>) -> (r: bool)
    requires
        s@.len() < usize::MAX - 512,
    ensures
        r == url_grammar(s@),
{
    let http: Vec<char> = vec!['h', 't', 't', 'p', ':', '/', '/'];
    let https: Vec<char> = vec!['h', 't', 't', 'p', 's', ':', '/', '/'];
    assert(http@ =~= http_prefix());
    assert(https@ =~= https_prefix());
    (has_at_exec(s, 0, &http) && authority_ok_exec(s, 7)) || (has_at_exec(s, 0, &https)
        && authority_ok_exec(s, 8))
}

} // verus!
