//! The movie search request: the search term is cut down to start at its
//! first letter or digit, and the suggestion URL is built from it.
use vstd::prelude::*;
use crate::imdb_types::ImdbQuery;
use crate::text::{chars_vec, concat, push_char, substring};
use reqwest::Url;

verus! {

#[verifier::external_type_specification]
#[verifier::external_body]
pub struct ExUrl(Url);

/// Why a search request could not be built.
#[derive(Debug, Clone, Copy, PartialEq, Eq, Structural)]
pub enum SearchError {
    /// The search term holds no letter or digit.
    EmptySearchTerm,
    /// The URL built from the term does not parse.
    InvalidUrl,
}

/// Whether `char::is_alphanumeric` holds of `c`.
pub uninterp spec fn char_is_alphanumeric(c: char) -> bool;

/// The ASCII letters and digits.
pub open spec fn is_ascii_alphanumeric(c: char) -> bool {
    ('a' <= c && c <= 'z') || ('A' <= c && c <= 'Z') || ('0' <= c && c <= '9')
}

/// Calls `char::is_alphanumeric`, which the standard library documents as
/// `is_alphabetic() || is_numeric()` over the Unicode tables. The contract
/// names the result, and states what those tables give on ASCII: exactly the
/// letters and digits.
#[verifier::external_body]
fn is_alphanumeric(c: char) -> (res: bool)
    ensures
        res == char_is_alphanumeric(c),
        (c as u32) < 128 ==> (res == is_ascii_alphanumeric(c)),
{
    c.is_alphanumeric()
}

/// `s` from its first letter or digit on; empty where it has none.
pub open spec fn skip_to_alphanumeric(s: Seq<char>) -> Seq<char>
    decreases s.len(),
{
    if s.len() == 0 || char_is_alphanumeric(s[0]) {
        s
    } else {
        skip_to_alphanumeric(s.drop_first())
    }
}

proof fn lemma_skip_suffix(s: Seq<char>, i: int)
    requires
        0 <= i <= s.len(),
        forall|k: int| 0 <= k < i ==> !char_is_alphanumeric(#[trigger] s[k]),
    ensures
        skip_to_alphanumeric(s) == skip_to_alphanumeric(s.subrange(i, s.len() as int)),
    decreases i,
{
    if i > 0 {
        let t = s.drop_first();
        assert forall|k: int| 0 <= k < i - 1 implies !char_is_alphanumeric(#[trigger] t[k]) by {
            assert(t[k] == s[k + 1]);
        }
        lemma_skip_suffix(t, i - 1);
        assert(t.subrange(i - 1, t.len() as int) =~= s.subrange(i, s.len() as int));
        assert(!char_is_alphanumeric(s[0]));
    } else {
        assert(s.subrange(0, s.len() as int) =~= s);
    }
}

/// How many characters the cut removes from the front of `s`.
pub open spec fn cut_length(s: Seq<char>) -> int {
    s.len() - skip_to_alphanumeric(s).len()
}

/// What the cut of `s` is on ASCII: each ASCII character that it removes is
/// not an ASCII letter or digit, and the first character that it keeps, where
/// ASCII, is one.
pub open spec fn cut_agrees_on_ascii(s: Seq<char>) -> bool {
    &&& forall|i: int|
        0 <= i < cut_length(s) && (s[i] as u32) < 128 ==> !is_ascii_alphanumeric(#[trigger] s[i])
    &&& cut_length(s) < s.len() && (s[cut_length(s)] as u32) < 128 ==> is_ascii_alphanumeric(
        s[cut_length(s)],
    )
}

/// The search term from its first letter or digit on. Fails when it holds
/// none.
pub fn filter_search_term(search_term: String) -> (res: Result<String, SearchError>)
    ensures
        skip_to_alphanumeric(search_term@).len() == 0 ==> res == Err::<String, SearchError>(
            SearchError::EmptySearchTerm,
        ),
        skip_to_alphanumeric(search_term@).len() > 0 ==> (res matches Ok(t) && t@
            == skip_to_alphanumeric(search_term@)),
        cut_agrees_on_ascii(search_term@),
{
    let chars = chars_vec(search_term.as_str());
    let n = chars.len();
    let mut i: usize = 0;
    while i < n
        invariant
            i <= n,
            n == chars@.len(),
            chars@ == search_term@,
            forall|k: int| 0 <= k < i ==> !char_is_alphanumeric(#[trigger] chars@[k]),
            forall|k: int|
                0 <= k < i && (chars@[k] as u32) < 128 ==> !is_ascii_alphanumeric(
                    #[trigger] chars@[k],
                ),
        decreases n - i,
    {
        if is_alphanumeric(chars[i]) {
            proof {
                lemma_skip_suffix(search_term@, i as int);
                let s = search_term@;
                assert(s.subrange(i as int, s.len() as int)[0] == s[i as int]);
                assert(cut_length(s) == i);
            }
            return Ok(substring(search_term.as_str(), i, n));
        }
        i = i + 1;
    }
    proof {
        lemma_skip_suffix(search_term@, n as int);
        assert(search_term@.subrange(n as int, n as int).len() == 0);
        assert(cut_length(search_term@) == n);
    }
    Err(SearchError::EmptySearchTerm)
}

/// `c` with an ASCII capital made small, as `char::to_ascii_lowercase` does.
pub open spec fn ascii_lower(c: char) -> char {
    if 'A' <= c && c <= 'Z' {
        ((c as u32) + 32) as char
    } else {
        c
    }
}

/// `c` with an ASCII capital made small.
fn to_ascii_lower(c: char) -> (res: char)
    ensures
        res == ascii_lower(c),
{
    if 'A' <= c && c <= 'Z' {
        let code: u8 = (c as u8) + 32;
        code as char
    } else {
        c
    }
}

/// The folder of the suggestion service that a term is looked up in: its
/// first character made small, or `_` for the empty term.
pub open spec fn first_letter(term: Seq<char>) -> Seq<char> {
    if term.len() == 0 {
        "_"@
    } else {
        seq![ascii_lower(term[0])]
    }
}

/// The address of the suggestions for `term`.
pub open spec fn search_url(term: Seq<char>) -> Seq<char> {
    "https://sg.media-imdb.com/suggests/"@ + first_letter(term) + "/"@ + term + ".json"@
}

/// Whether a term's first character fits the two-byte buffer that its small
/// form is encoded into: a character below U+0800, or no character at all.
pub open spec fn first_char_fits(term: Seq<char>) -> bool {
    term.len() == 0 || (term[0] as u32) < 0x800
}

/// The address of the suggestions for `term`, as text.
pub fn search_url_text(term: &str) -> (res: String)
    ensures
        res@ == search_url(term@),
{
    let chars = chars_vec(term);
    let mut letter = String::new();
    if chars.len() == 0 {
        push_char(&mut letter, '_');
        proof {
            reveal_strlit("_");
            assert(letter@ =~= "_"@);
        }
    } else {
        push_char(&mut letter, to_ascii_lower(chars[0]));
        proof {
            assert(letter@ =~= seq![ascii_lower(term@[0])]);
        }
    }
    let a = concat("https://sg.media-imdb.com/suggests/", letter.as_str());
    let b = concat(a.as_str(), "/");
    let c = concat(b.as_str(), term);
    concat(c.as_str(), ".json")
}

/// What `Url::parse` makes of the text: the parsed URL, or `None` where the
/// text does not parse.
pub uninterp spec fn url_parse_of(text: Seq<char>) -> Option<Url>;

/// Parses the text with `reqwest::Url::parse` (the `url` crate's parser);
/// `None` where it fails. The parse depends on the text alone, so the
/// contract names its result; what a parsed URL holds is opaque here.
#[verifier::external_body]
fn parse_url(text: &str) -> (res: Option<Url>)
    ensures
        res == url_parse_of(text@),
{
    Url::parse(text).ok()
}

/// The URL of the suggestions for a search term that has been cut down to
/// its first letter or digit. Fails when the address does not parse.
pub fn build_search_url(filtered_search_term: String) -> (res: Result<Url, SearchError>)
    requires
        first_char_fits(filtered_search_term@),
    ensures
        res == match url_parse_of(search_url(filtered_search_term@)) {
            Some(u) => Ok::<Url, SearchError>(u),
            None => Err::<Url, SearchError>(SearchError::InvalidUrl),
        },
{
    let text = search_url_text(filtered_search_term.as_str());
    match parse_url(text.as_str()) {
        Some(url) => Ok(url),
        None => Err(SearchError::InvalidUrl),
    }
}

/// The search term cut down to its first letter or digit, and the URL of
/// its suggestions. Fails when the term holds no letter or digit, or the
/// address does not parse.
pub fn build_url(search_term: ImdbQuery) -> (res: Result<(String, Url), SearchError>)
    requires
        first_char_fits(skip_to_alphanumeric(search_term.query@)),
    ensures
        cut_agrees_on_ascii(search_term.query@),
        ({
            let t = skip_to_alphanumeric(search_term.query@);
            if t.len() == 0 {
                res == Err::<(String, Url), SearchError>(SearchError::EmptySearchTerm)
            } else {
                match url_parse_of(search_url(t)) {
                    Some(u) => res matches Ok(p) && p.0@ == t && p.1 == u,
                    None => res == Err::<(String, Url), SearchError>(SearchError::InvalidUrl),
                }
            }
        }),
{
    let term = match filter_search_term(search_term.query) {
        Ok(t) => t,
        Err(e) => {
            return Err(e);
        },
    };
    let copy = term.clone();
    match build_search_url(copy) {
        Ok(url) => Ok((term, url)),
        Err(e) => Err(e),
    }
}

/// Whether a search for `search_term` can be built: its cut-down term's
/// first character fits the two-byte buffer that its small form is encoded
/// into.
pub fn search_term_fits(search_term: &ImdbQuery) -> (res: bool)
    ensures
        cut_agrees_on_ascii(search_term.query@),
        res == first_char_fits(skip_to_alphanumeric(search_term.query@)),
{
    match filter_search_term(search_term.query.clone()) {
        Ok(t) => {
            let chars = chars_vec(t.as_str());
            (chars[0] as u32) < 0x800
        },
        Err(_) => true,
    }
}

/// The search request for `search_term`, where its cut-down term's first
/// character fits the buffer that it is encoded into; `None` where it does
/// not.
pub fn build_url_checked(search_term: ImdbQuery) -> (res: Option<Result<(String, Url), SearchError>>)
    ensures
        cut_agrees_on_ascii(search_term.query@),
        ({
            let t = skip_to_alphanumeric(search_term.query@);
            if !first_char_fits(t) {
                res is None
            } else if t.len() == 0 {
                res == Some(Err::<(String, Url), SearchError>(SearchError::EmptySearchTerm))
            } else {
                match url_parse_of(search_url(t)) {
                    Some(u) => res matches Some(Ok(p)) && p.0@ == t && p.1 == u,
                    None => res == Some(Err::<(String, Url), SearchError>(SearchError::InvalidUrl)),
                }
            }
        }),
{
    if search_term_fits(&search_term) {
        Some(build_url(search_term))
    } else {
        None
    }
}

/// A term that starts with a letter or digit is left as it is.
pub proof fn law_filter_keeps_alphanumeric_start(s: Seq<char>)
    requires
        s.len() > 0,
        char_is_alphanumeric(s[0]),
    ensures
        skip_to_alphanumeric(s) == s,
{
}

/// Cutting a term down twice is the same as cutting it down once.
pub proof fn law_filter_idempotent(s: Seq<char>)
    ensures
        skip_to_alphanumeric(skip_to_alphanumeric(s)) == skip_to_alphanumeric(s),
    decreases s.len(),
{
    if s.len() > 0 && !char_is_alphanumeric(s[0]) {
        law_filter_idempotent(s.drop_first());
    }
}

/// The cut-down term is the end of the term: what was cut holds no letter or
/// digit.
pub proof fn law_filter_is_suffix(s: Seq<char>)
    ensures
        ({
            let t = skip_to_alphanumeric(s);
            let k = s.len() - t.len();
            &&& t.len() <= s.len()
            &&& t == s.subrange(k, s.len() as int)
            &&& forall|i: int| 0 <= i < k ==> !char_is_alphanumeric(#[trigger] s[i])
        }),
    decreases s.len(),
{
    if s.len() > 0 && !char_is_alphanumeric(s[0]) {
        let r = s.drop_first();
        law_filter_is_suffix(r);
        let t = skip_to_alphanumeric(r);
        let k = r.len() - t.len();
        assert(r.subrange(k, r.len() as int) =~= s.subrange(k + 1, s.len() as int));
        assert forall|i: int| 0 <= i < k + 1 implies !char_is_alphanumeric(#[trigger] s[i]) by {
            if i > 0 {
                assert(s[i] == r[i - 1]);
            }
        }
    } else {
        assert(s.subrange(0, s.len() as int) =~= s);
    }
}

} // verus!
