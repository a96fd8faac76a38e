//! What the movie search sends and what it gets back: the query, the kinds
//! of media the suggestions describe, the raw suggestion records, and image
//! data.
use vstd::prelude::*;
use crate::text::{decimal, decimal_string};
use vstd::std_specs::convert::FromSpecImpl;

verus! {

/// A search query.
#[derive(Debug, Clone)]
pub struct ImdbQuery {
    pub query: String,
}

impl From<String> for ImdbQuery {
    fn from(s: String) -> (res: Self) {
        Self { query: s }
    }
}

impl FromSpecImpl<String> for ImdbQuery {
    open spec fn obeys_from_spec() -> bool {
        true
    }

    open spec fn from_spec(v: String) -> Self {
        ImdbQuery { query: v }
    }
}

impl<'a> From<&'a str> for ImdbQuery {
    fn from(s: &'a str) -> (res: Self)
        ensures
            res.query@ == s@,
    {
        Self { query: s.to_owned() }
    }
}

impl<'a> FromSpecImpl<&'a str> for ImdbQuery {
    /// A `String` made from a `&str` is known by its characters only, so no
    /// single value is named here; the method's own `ensures` gives the text.
    open spec fn obeys_from_spec() -> bool {
        false
    }

    open spec fn from_spec(v: &'a str) -> Self {
        choose|q: ImdbQuery| q.query@ == v@
    }
}

impl From<usize> for ImdbQuery {
    fn from(n: usize) -> (res: Self)
        ensures
            res.query@ == decimal(n as nat),
    {
        Self { query: decimal_string(n as u64) }
    }
}

impl FromSpecImpl<usize> for ImdbQuery {
    /// As for `&str`: the method's own `ensures` gives the decimal text.
    open spec fn obeys_from_spec() -> bool {
        false
    }

    open spec fn from_spec(v: usize) -> Self {
        choose|q: ImdbQuery| q.query@ == decimal(v as nat)
    }
}

} // verus!

verus! {

/// The kinds of media a suggestion can describe.
#[derive(Debug, PartialEq, Eq, Structural)]
pub enum MediaType {
    Movie,
    MiniSeries,
    TV,
    Other,
    /// No `q` field at all.
    NoMedia,
}

/// The media type named by the `q` field of a suggestion.
pub open spec fn media_type_of(input: Option<Seq<char>>) -> MediaType {
    match input {
        Some(media) => if media == "feature"@ {
            MediaType::Movie
        } else if media == "TV mini series"@ {
            MediaType::MiniSeries
        } else if media == "TV series"@ {
            MediaType::TV
        } else {
            MediaType::Other
        },
        None => MediaType::NoMedia,
    }
}

/// Whether two texts are equal, character by character.
pub fn same_text(a: &str, b: &str) -> (res: bool)
    ensures
        res == (a@ == b@),
{
    let x = crate::text::chars_vec(a);
    let y = crate::text::chars_vec(b);
    if x.len() != y.len() {
        return false;
    }
    let n = x.len();
    let mut i: usize = 0;
    while i < n
        invariant
            i <= n,
            n == x@.len(),
            n == y@.len(),
            x@ == a@,
            y@ == b@,
            forall|k: int| 0 <= k < i ==> x@[k] == y@[k],
        decreases n - i,
    {
        if x[i] != y[i] {
            return false;
        }
        i = i + 1;
    }
    proof {
        assert(x@ =~= y@);
    }
    true
}

impl MediaType {
    /// The media type that the `q` field of a suggestion names.
    pub fn new(input: Option<String>) -> (res: Self)
        ensures
            res == media_type_of(
                match input {
                    Some(m) => Some(m@),
                    None => None,
                },
            ),
    {
        match input {
            Some(media) => {
                let m = media.as_str();
                if same_text(m, "feature") {
                    MediaType::Movie
                } else if same_text(m, "TV mini series") {
                    MediaType::MiniSeries
                } else if same_text(m, "TV series") {
                    MediaType::TV
                } else {
                    MediaType::Other
                }
            },
            None => MediaType::NoMedia,
        }
    }
}

/// The picture attached to a suggestion.
#[derive(Debug)]
pub struct ImageData {
    pub url: String,
    pub width: u32,
    pub height: u32,
}

impl Clone for ImageData {
    fn clone(&self) -> (res: Self)
        ensures
            res == *self,
    {
        ImageData { url: self.url.clone(), width: self.width, height: self.height }
    }
}

/// What an `ImageData` holds, as plain values.
pub ghost struct ImageDataView {
    pub url: Seq<char>,
    pub width: u32,
    pub height: u32,
}

impl View for ImageData {
    type V = ImageDataView;

    open spec fn view(&self) -> ImageDataView {
        ImageDataView { url: self.url@, width: self.width, height: self.height }
    }
}

/// The `i` field of a suggestion: the picture, or a value that does not
/// describe one.
#[derive(Debug, Clone)]
pub enum ImageField {
    Parsed(ImageData),
    Invalid,
}

/// One suggestion as the search service sends it.
#[derive(Debug, Clone)]
pub struct MovieInfo {
    pub l: Option<String>,
    pub i: Option<ImageField>,
    pub y: Option<u32>,
    pub q: Option<String>,
    pub s: Option<String>,
    pub id: Option<String>,
}

/// The whole answer of the search service.
#[derive(Debug, Clone)]
pub struct JsonQuery {
    pub v: u32,
    pub q: String,
    pub d: Option<Vec<MovieInfo>>,
}

} // verus!
