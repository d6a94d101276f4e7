use vstd::prelude::*;
use vstd::string::StrSliceExecFns;
use crate::json::string_eq_str;

verus! {

// ------------------------------------------------------------------------
// Parsed URLs
// ------------------------------------------------------------------------

/// The plain parts of a parsed absolute URL that the video-reference
/// logic reads: the host, the decoded query pairs in order, and the path
/// segments.
#[derive(Debug, PartialEq)]
pub struct UrlParts {
    pub host: Option<String>,
    pub query: Vec<(String, String)>,
    pub path_segments: Vec<String>,
}

/// What the URL parser returns for the given text: `None` where the text
/// is not an absolute URL.
pub uninterp spec fn url_parts_of(s: Seq<char>) -> Option<UrlParts>;

/// Relies on url::Url::parse and its accessors host_str, query_pairs and
/// path_segments: splits an absolute URL into its host, its decoded query
/// pairs and its path segments.  The result is a function of the text
/// alone, so it carries the name `url_parts_of`.
#[verifier::external_body]
fn parse_url_parts(s: &str) -> (r: Option<UrlParts>)
    ensures
        r == url_parts_of(s@),
{
    match url::Url::parse(s) {
        Ok(u) => Some(
            UrlParts {
                host: u.host_str().map(|h| h.to_string()),
                query: u.query_pairs().map(|(k, v)| (k.to_string(), v.to_string())).collect(),
                path_segments: match u.path_segments() {
                    Some(p) => p.map(|x| x.to_string()).collect(),
                    None => Vec::new(),
                },
            },
        ),
        Err(_) => None,
    }
}

// ------------------------------------------------------------------------
// Trimming
// ------------------------------------------------------------------------

/// The whitespace the reference syntax tolerates around a video
/// reference.
pub open spec fn is_space(c: char) -> bool {
    c == ' ' || c == '\t' || c == '\r' || c == '\n'
}

/// `s` without leading whitespace.
pub open spec fn trim_front(s: Seq<char>) -> Seq<char>
    decreases s.len(),
{
    if s.len() > 0 && is_space(s[0]) {
        trim_front(s.drop_first())
    } else {
        s
    }
}

/// `s` without trailing whitespace.
pub open spec fn trim_back(s: Seq<char>) -> Seq<char>
    decreases s.len(),
{
    if s.len() > 0 && is_space(s.last()) {
        trim_back(s.drop_last())
    } else {
        s
    }
}

/// `s` without surrounding whitespace.
pub open spec fn spec_trim(s: Seq<char>) -> Seq<char> {
    trim_back(trim_front(s))
}

proof fn lemma_trim_front_skip(s: Seq<char>, a: int)
    requires
        0 <= a <= s.len(),
        forall|i: int| 0 <= i < a ==> is_space(s[i]),
        a < s.len() ==> !is_space(s[a]),
    ensures
        trim_front(s) == s.skip(a),
    decreases a,
{
    if a == 0 {
        assert(s.skip(0) =~= s);
    } else {
        assert(is_space(s[0]));
        lemma_trim_front_skip(s.drop_first(), a - 1);
        assert(s.drop_first().skip(a - 1) =~= s.skip(a));
    }
}

proof fn lemma_trim_back_take(s: Seq<char>, b: int)
    requires
        0 <= b <= s.len(),
        forall|i: int| b <= i < s.len() ==> is_space(s[i]),
        b > 0 ==> !is_space(s[b - 1]),
    ensures
        trim_back(s) == s.take(b),
    decreases s.len() - b,
{
    if b == s.len() {
        assert(s.take(b) =~= s);
    } else {
        assert(is_space(s.last()));
        lemma_trim_back_take(s.drop_last(), b);
        assert(s.drop_last().take(b) =~= s.take(b));
    }
}

fn is_space_char(c: char) -> (r: bool)
    ensures
        r == is_space(c),
{
    c == ' ' || c == '\t' || c == '\r' || c == '\n'
}

/// The slice of `s` without surrounding whitespace.
fn trim_str(s: &str) -> (r: &str)
    ensures
        r@ == spec_trim(s@),
{
    let n = s.unicode_len();
    let mut a: usize = 0;
    while a < n && is_space_char(s.get_char(a))
        invariant
            n == s@.len(),
            a <= n,
            forall|i: int| 0 <= i < a ==> is_space(s@[i]),
        decreases n - a,
    {
        a = a + 1;
    }
    proof {
        lemma_trim_front_skip(s@, a as int);
    }
    let mut b: usize = n;
    while b > a && is_space_char(s.get_char(b - 1))
        invariant
            n == s@.len(),
            a <= b <= n,
            forall|i: int| 0 <= i < a ==> is_space(s@[i]),
            a < n ==> !is_space(s@[a as int]),
            forall|i: int| b <= i < n ==> is_space(s@[i]),
        decreases b,
    {
        b = b - 1;
    }
    proof {
        let t = s@.skip(a as int);
        lemma_trim_back_take(t, b - a);
        assert(t.take(b - a) =~= s@.subrange(a as int, b as int));
    }
    s.substring_char(a, b)
}

// ------------------------------------------------------------------------
// Video identifiers
// ------------------------------------------------------------------------

/// A character a bare video identifier may contain.
pub open spec fn is_id_char(c: char) -> bool {
    ||| ('a' as u32) <= (c as u32) <= ('z' as u32)
    ||| ('A' as u32) <= (c as u32) <= ('Z' as u32)
    ||| ('0' as u32) <= (c as u32) <= ('9' as u32)
    ||| c == '-'
    ||| c == '_'
}

/// A bare video identifier: exactly eleven characters, each a letter, a
/// digit, a dash or an underscore.
pub open spec fn is_video_id(s: Seq<char>) -> bool {
    s.len() == 11 && forall|i: int| 0 <= i < s.len() ==> is_id_char(#[trigger] s[i])
}

fn id_char(c: char) -> (r: bool)
    ensures
        r == is_id_char(c),
{
    let u = c as u32;
    (('a' as u32) <= u && u <= ('z' as u32)) || (('A' as u32) <= u && u <= ('Z' as u32)) || ((
    '0' as u32) <= u && u <= ('9' as u32)) || c == '-' || c == '_'
}

fn is_video_id_str(s: &str) -> (r: bool)
    ensures
        r == is_video_id(s@),
{
    let n = s.unicode_len();
    if n != 11 {
        return false;
    }
    let mut i: usize = 0;
    while i < n
        invariant
            n == s@.len(),
            n == 11,
            i <= n,
            forall|k: int| 0 <= k < i ==> is_id_char(#[trigger] s@[k]),
        decreases n - i,
    {
        if !id_char(s.get_char(i)) {
            return false;
        }
        i = i + 1;
    }
    true
}

// ------------------------------------------------------------------------
// Substring search and query lookup
// ------------------------------------------------------------------------

/// Whether `n` occurs inside `h`.
pub open spec fn contains_seq(h: Seq<char>, n: Seq<char>) -> bool {
    exists|i: int| 0 <= i && i + n.len() <= h.len() && #[trigger] h.subrange(i, i + n.len()) == n
}

/// Whether `needle` occurs inside `hay`.
fn str_contains(hay: &str, needle: &str) -> (r: bool)
    ensures
        r == contains_seq(hay@, needle@),
{
    let hn = hay.unicode_len();
    let nn = needle.unicode_len();
    if nn > hn {
        return false;
    }
    if nn == 0 {
        proof {
            assert(hay@.subrange(0, 0 + needle@.len() as int) =~= needle@);
        }
        return true;
    }
    let mut i: usize = 0;
    while i <= hn - nn
        invariant
            hn == hay@.len(),
            nn == needle@.len(),
            1 <= nn <= hn,
            i <= hn - nn + 1,
            forall|x: int|
                0 <= x < i ==> #[trigger] hay@.subrange(x, x + needle@.len()) != needle@,
        decreases hn - nn + 1 - i,
    {
        let mut j: usize = 0;
        let mut hit = true;
        while j < nn
            invariant
                hn == hay@.len(),
                nn == needle@.len(),
                i + nn <= hn,
                j <= nn,
                hit ==> forall|y: int| 0 <= y < j ==> hay@[i + y] == needle@[y],
                !hit ==> hay@.subrange(i as int, i + needle@.len()) != needle@,
            decreases nn - j,
        {
            if hay.get_char(i + j) != needle.get_char(j) {
                proof {
                    assert(hay@.subrange(i as int, i + needle@.len())[j as int] != needle@[j as int]);
                }
                hit = false;
                j = nn;
            } else {
                j = j + 1;
            }
        }
        if hit {
            proof {
                assert(hay@.subrange(i as int, i + needle@.len()) =~= needle@);
            }
            return true;
        }
        i = i + 1;
    }
    false
}

/// The first value under `key` among the query pairs.
pub open spec fn query_lookup(q: Seq<(String, String)>, key: Seq<char>) -> Option<Seq<char>>
    decreases q.len(),
{
    if q.len() == 0 {
        None
    } else if q[0].0@ == key {
        Some(q[0].1@)
    } else {
        query_lookup(q.drop_first(), key)
    }
}

fn query_get(q: &Vec<(String, String)>, key: &str) -> (r: Option<String>)
    ensures
        match r {
            Some(v) => query_lookup(q@, key@) == Some(v@),
            None => query_lookup(q@, key@) is None,
        },
{
    let mut i: usize = 0;
    assert(q@.skip(0) =~= q@);
    while i < q.len()
        invariant
            i <= q@.len(),
            query_lookup(q@, key@) == query_lookup(q@.skip(i as int), key@),
        decreases q@.len() - i,
    {
        assert(q@.skip(i as int)[0] == q@[i as int]);
        if string_eq_str(&q[i].0, key) {
            return Some(q[i].1.clone());
        }
        assert(q@.skip(i as int).drop_first() =~= q@.skip(i as int + 1));
        i = i + 1;
    }
    assert(q@.skip(i as int).len() == 0);
    None
}

// ------------------------------------------------------------------------
// Extraction
// ------------------------------------------------------------------------

/// What a video reference resolves to, on the trimmed text: a bare
/// eleven-character identifier stands for itself; a URL whose host
/// contains `youtube.com` yields its `v` query parameter; a URL with host
/// `youtu.be` yields its first, non-empty path segment; anything else is
/// rejected.
pub open spec fn spec_extract(input: Seq<char>) -> Option<Seq<char>> {
    let t = spec_trim(input);
    if is_video_id(t) {
        Some(t)
    } else {
        match url_parts_of(t) {
            Some(parts) => match parts.host {
                Some(h) => if contains_seq(h@, "youtube.com"@) && query_lookup(
                    parts.query@,
                    "v"@,
                ) is Some {
                    query_lookup(parts.query@, "v"@)
                } else if h@ == "youtu.be"@ && parts.path_segments@.len() > 0
                    && parts.path_segments@[0]@.len() > 0 {
                    Some(parts.path_segments@[0]@)
                } else {
                    None
                },
                None => None,
            },
            None => None,
        }
    }
}

/// Resolves a video reference — a bare video identifier, a
/// `youtube.com/watch?v=…` URL, or a `youtu.be/…` URL — to the video
/// identifier it names; anything else is rejected as invalid input.
pub fn extract_video_id(url_or_id: &str) -> (r: Result<String, String>)
    ensures
        match r {
            Ok(id) => spec_extract(url_or_id@) == Some(id@),
            Err(e) => spec_extract(url_or_id@) is None && e@ == "Invalid YouTube URL or video ID"@,
        },
{
    let t = trim_str(url_or_id);
    if is_video_id_str(t) {
        return Ok(t.to_owned());
    }
    match parse_url_parts(t) {
        Some(parts) => {
            match &parts.host {
                Some(h) => {
                    if str_contains(h.as_str(), "youtube.com") {
                        match query_get(&parts.query, "v") {
                            Some(v) => {
                                return Ok(v);
                            },
                            None => {},
                        }
                    }
                    if string_eq_str(h, "youtu.be") && parts.path_segments.len() > 0 {
                        let seg = &parts.path_segments[0];
                        if seg.unicode_len() > 0 {
                            return Ok(seg.clone());
                        }
                    }
                    Err("Invalid YouTube URL or video ID".to_owned())
                },
                None => Err("Invalid YouTube URL or video ID".to_owned()),
            }
        },
        None => Err("Invalid YouTube URL or video ID".to_owned()),
    }
}

} // verus!
