//! The answer of the suggestion service: the JSON is cut out of its
//! `imdb$<term>(...)` wrapper, and the suggestions that are movies, mini
//! series or series become the movies the site shows.
use vstd::prelude::*;
use vstd::utf8::{decode_utf8, encode_utf8, is_char_boundary};
use crate::imdb_types::{media_type_of, ImageField, JsonQuery, MediaType, MovieInfo};
use crate::shared_types::{MovieDisplay, MovieDisplayView};
use crate::system::display_views;

verus! {

/// The bytes between the wrapper `imdb$<query>(` and the closing `)` of a
/// body: from byte `query.len() + 6` up to, not including, the last byte.
pub open spec fn trimmed_body(body: Seq<char>, query: Seq<char>) -> Seq<u8> {
    encode_utf8(body).subrange(encode_utf8(query).len() + 6int, encode_utf8(body).len() - 1)
}

/// Whether the body can be cut: it is long enough to hold the wrapper and
/// both cuts fall between characters.
pub open spec fn body_can_be_trimmed(body: Seq<char>, query: Seq<char>) -> bool {
    let b = encode_utf8(body);
    let start: int = encode_utf8(query).len() + 6int;
    &&& b.len() >= 1
    &&& start <= b.len() - 1
    &&& is_char_boundary(b, start)
    &&& is_char_boundary(b, b.len() - 1)
}

/// The JSON inside the service's `imdb$<query>(...)` wrapper.
pub fn trim_body_string(body_string: String, query: String) -> (res: String)
    requires
        body_can_be_trimmed(body_string@, query@),
    ensures
        encode_utf8(res@) == trimmed_body(body_string@, query@),
{
    broadcast use vstd::utf8::valid_utf8_split, vstd::utf8::encode_utf8_valid_utf8,
        vstd::utf8::is_char_boundary_iff_not_is_continuation_byte;

    let body = body_string.as_str();
    let ghost b = encode_utf8(body@);
    let body_len: usize = body.as_bytes().len();
    proof {
        assert(encode_utf8(query@).len() + 6 <= b.len() - 1);
    }
    let start_len: usize = query.as_str().len() + 6;
    let end_len: usize = body_len - 1;
    let (head, _tail) = body.split_at(end_len);
    proof {
        let hb = encode_utf8(head@);
        assert(hb =~= b.subrange(0, end_len as int));
        vstd::utf8::encode_utf8_valid_utf8(body@);
        vstd::utf8::valid_utf8_split(b, end_len as int);
        if start_len < end_len {
            vstd::utf8::is_char_boundary_iff_not_is_continuation_byte(b, start_len as int);
            vstd::utf8::is_char_boundary_iff_not_is_continuation_byte(hb, start_len as int);
            assert(hb[start_len as int] == b[start_len as int]);
        } else {
            vstd::utf8::is_char_boundary_start_end_of_seq(hb);
        }
        assert(is_char_boundary(hb, start_len as int));
    }
    let (_wrapper, json) = head.split_at(start_len);
    proof {
        assert(encode_utf8(json@) =~= b.subrange(start_len as int, end_len as int));
    }
    json.to_owned()
}

/// Whether the body can be cut out of its wrapper.
pub fn body_fits(body_string: &str, query: &str) -> (res: bool)
    ensures
        res == body_can_be_trimmed(body_string@, query@),
{
    let blen: usize = body_string.as_bytes().len();
    let qlen: usize = query.as_bytes().len();
    if blen < 1 || qlen > blen || blen - qlen < 7 {
        return false;
    }
    let start: usize = qlen + 6;
    let end: usize = blen - 1;
    body_string.is_char_boundary(start) && body_string.is_char_boundary(end)
}

/// What becomes of one suggestion.
pub ghost enum SuggestionOutcome {
    /// Not a movie, mini series or series: left out.
    Skip,
    /// Shown as this movie.
    Keep(MovieDisplayView),
    /// Its picture is not a picture record: the whole answer is refused.
    Fails,
    /// A field that a shown suggestion must have is missing.
    Panics,
}

/// What the whole answer gives.
pub ghost enum AnswerOutcome {
    Movies(Seq<MovieDisplayView>),
    Fails,
    Panics,
}

/// The text of an optional field, by its view.
pub open spec fn opt_view(o: Option<String>) -> Option<Seq<char>> {
    match o {
        Some(s) => Some(s@),
        None => None,
    }
}

/// Whether a media type is one the site shows.
pub open spec fn is_shown(t: MediaType) -> bool {
    t is Movie || t is MiniSeries || t is TV
}

/// What becomes of the suggestion `m`.
pub open spec fn suggestion_outcome(m: MovieInfo) -> SuggestionOutcome {
    if !is_shown(media_type_of(opt_view(m.q))) {
        SuggestionOutcome::Skip
    } else {
        match m.i {
            None => SuggestionOutcome::Panics,
            Some(ImageField::Invalid) => SuggestionOutcome::Fails,
            Some(ImageField::Parsed(img)) => match (m.y, m.id, m.l) {
                (Some(year), Some(id), Some(title)) => SuggestionOutcome::Keep(
                    MovieDisplayView {
                        movie_id: id@,
                        movie_title: title@,
                        movie_year: year,
                        movie_images: img@,
                        movie_stars: match m.s {
                            Some(s) => s@,
                            None => Seq::empty(),
                        },
                    },
                ),
                _ => SuggestionOutcome::Panics,
            },
        }
    }
}

/// What the suggestions give, taken in order: the first that fails or
/// misses a field decides; otherwise the kept movies, in order.
pub open spec fn answer_outcome(ms: Seq<MovieInfo>) -> AnswerOutcome
    decreases ms.len(),
{
    if ms.len() == 0 {
        AnswerOutcome::Movies(Seq::empty())
    } else {
        match answer_outcome(ms.drop_last()) {
            AnswerOutcome::Movies(ds) => match suggestion_outcome(ms.last()) {
                SuggestionOutcome::Skip => AnswerOutcome::Movies(ds),
                SuggestionOutcome::Keep(d) => AnswerOutcome::Movies(ds.push(d)),
                SuggestionOutcome::Fails => AnswerOutcome::Fails,
                SuggestionOutcome::Panics => AnswerOutcome::Panics,
            },
            other => other,
        }
    }
}

/// What the answer `q` gives: no suggestions at all give no movies.
pub open spec fn query_outcome(q: JsonQuery) -> AnswerOutcome {
    match q.d {
        Some(ms) => answer_outcome(ms@),
        None => AnswerOutcome::Movies(Seq::empty()),
    }
}

/// Why an answer of the suggestion service was refused.
#[derive(Debug, Clone, Copy, PartialEq, Eq, Structural)]
pub enum ResultsError {
    /// The answer is not the service's JSON.
    InvalidJson,
    /// A shown suggestion's picture is not a picture record.
    InvalidImage,
}

/// The movie a kept suggestion shows, or why none is shown.
fn suggestion_display(m: &MovieInfo) -> (res: Result<Option<MovieDisplay>, ResultsError>)
    requires
        !(suggestion_outcome(*m) is Panics),
    ensures
        match suggestion_outcome(*m) {
            SuggestionOutcome::Skip => res matches Ok(None),
            SuggestionOutcome::Keep(d) => res matches Ok(Some(x)) && x@ == d,
            _ => res == Err::<Option<MovieDisplay>, ResultsError>(ResultsError::InvalidImage),
        },
{
    let q = match &m.q {
        Some(q) => Some(q.clone()),
        None => None,
    };
    let media_type = MediaType::new(q);
    let shown = match media_type {
        MediaType::Movie => true,
        MediaType::MiniSeries => true,
        MediaType::TV => true,
        _ => false,
    };
    if !shown {
        return Ok(None);
    }
    let stars = match &m.s {
        Some(s) => s.clone(),
        None => String::new(),
    };
    match &m.i {
        Some(ImageField::Parsed(img)) => {
            match (&m.y, &m.id, &m.l) {
                (Some(year), Some(id), Some(title)) => {
                    Ok(
                        Some(
                            MovieDisplay {
                                movie_id: id.clone(),
                                movie_title: title.clone(),
                                movie_year: *year,
                                movie_images: img.clone(),
                                movie_stars: stars,
                            },
                        ),
                    )
                },
                _ => Err(ResultsError::InvalidImage),
            }
        },
        _ => Err(ResultsError::InvalidImage),
    }
}

/// The movies that the answer `json_query` shows: its suggestions that are
/// movies, mini series or series, in order. Fails when the picture of such a
/// suggestion is not a picture record.
pub fn movies_from_query(json_query: &JsonQuery) -> (res: Result<Vec<MovieDisplay>, ResultsError>)
    requires
        !(query_outcome(*json_query) is Panics),
    ensures
        match query_outcome(*json_query) {
            AnswerOutcome::Movies(ds) => res matches Ok(v) && display_views(v@) == ds,
            _ => res == Err::<Vec<MovieDisplay>, ResultsError>(ResultsError::InvalidImage),
        },
{
    let mut result_vec: Vec<MovieDisplay> = Vec::new();
    match &json_query.d {
        None => {
            proof {
                assert(display_views(result_vec@) =~= Seq::<MovieDisplayView>::empty());
            }
            Ok(result_vec)
        },
        Some(movies) => {
            let ghost ms = movies@;
            assert(query_outcome(*json_query) == answer_outcome(ms));
            let mut i: usize = 0;
            while i < movies.len()
                invariant
                    i <= movies.len(),
                    ms == movies@,
                    query_outcome(*json_query) == answer_outcome(ms),
                    !(answer_outcome(ms) is Panics),
                    answer_outcome(ms.take(i as int)) matches AnswerOutcome::Movies(ds)
                        && display_views(result_vec@) == ds,
                decreases movies.len() - i,
            {
                proof {
                    lemma_prefix_outcome(ms, (i + 1) as int);
                    assert(ms.take(i + 1).drop_last() =~= ms.take(i as int));
                    assert(ms.take(i + 1).last() == ms[i as int]);
                }
                let ghost prev = display_views(result_vec@);
                match suggestion_display(&movies[i]) {
                    Ok(Some(d)) => {
                        result_vec.push(d);
                        proof {
                            assert(display_views(result_vec@) =~= prev.push(
                                result_vec@[result_vec@.len() - 1]@,
                            ));
                        }
                    },
                    Ok(None) => {},
                    Err(e) => {
                        proof {
                            assert(suggestion_outcome(ms[i as int]) is Fails);
                            assert(answer_outcome(ms.take(i + 1)) is Fails);
                            lemma_fails_stays(ms, (i + 1) as int);
                        }
                        return Err(e);
                    },
                }
                i = i + 1;
            }
            proof {
                assert(ms.take(i as int) =~= ms);
            }
            Ok(result_vec)
        },
    }
}

/// Whether a suggestion that the site shows misses a field before any
/// suggestion fails.
pub fn answer_misses_field(json_query: &JsonQuery) -> (res: bool)
    ensures
        res == (query_outcome(*json_query) is Panics),
{
    match &json_query.d {
        None => false,
        Some(movies) => {
            let ghost ms = movies@;
            assert(query_outcome(*json_query) == answer_outcome(ms));
            let mut i: usize = 0;
            while i < movies.len()
                invariant
                    i <= movies.len(),
                    ms == movies@,
                    query_outcome(*json_query) == answer_outcome(ms),
                    answer_outcome(ms.take(i as int)) is Movies,
                decreases movies.len() - i,
            {
                proof {
                    assert(ms.take(i + 1).drop_last() =~= ms.take(i as int));
                    assert(ms.take(i + 1).last() == ms[i as int]);
                }
                let m = &movies[i];
                let q = match &m.q {
                    Some(q) => Some(q.clone()),
                    None => None,
                };
                let shown = match MediaType::new(q) {
                    MediaType::Movie => true,
                    MediaType::MiniSeries => true,
                    MediaType::TV => true,
                    _ => false,
                };
                if shown {
                    match &m.i {
                        None => {
                            proof {
                                lemma_outcome_settles(ms, (i + 1) as int);
                            }
                            return true;
                        },
                        Some(ImageField::Invalid) => {
                            proof {
                                lemma_outcome_settles(ms, (i + 1) as int);
                            }
                            return false;
                        },
                        Some(ImageField::Parsed(_)) => {
                            if m.y.is_none() || m.id.is_none() || m.l.is_none() {
                                proof {
                                    lemma_outcome_settles(ms, (i + 1) as int);
                                }
                                return true;
                            }
                        },
                    }
                }
                i = i + 1;
            }
            proof {
                assert(ms.take(i as int) =~= ms);
            }
            false
        },
    }
}

/// Once a prefix of the suggestions fails or misses a field, the whole does
/// the same.
proof fn lemma_outcome_settles(ms: Seq<MovieInfo>, k: int)
    requires
        0 <= k <= ms.len(),
        !(answer_outcome(ms.take(k)) is Movies),
    ensures
        answer_outcome(ms) == answer_outcome(ms.take(k)),
    decreases ms.len() - k,
{
    if k < ms.len() {
        assert(ms.take(k + 1).drop_last() =~= ms.take(k));
        lemma_outcome_settles(ms, k + 1);
    } else {
        assert(ms.take(k) =~= ms);
    }
}

/// A prefix of the suggestions does not miss a field where the whole does
/// not.
proof fn lemma_prefix_outcome(ms: Seq<MovieInfo>, k: int)
    requires
        0 <= k <= ms.len(),
        !(answer_outcome(ms) is Panics),
    ensures
        !(answer_outcome(ms.take(k)) is Panics),
    decreases ms.len() - k,
{
    if k < ms.len() {
        lemma_prefix_outcome(ms, k + 1);
        assert(ms.take(k + 1).drop_last() =~= ms.take(k));
    } else {
        assert(ms.take(k) =~= ms);
    }
}

/// Once a prefix of the suggestions fails, the whole fails.
proof fn lemma_fails_stays(ms: Seq<MovieInfo>, k: int)
    requires
        0 <= k <= ms.len(),
        answer_outcome(ms.take(k)) is Fails,
    ensures
        answer_outcome(ms) is Fails,
    decreases ms.len() - k,
{
    if k < ms.len() {
        assert(ms.take(k + 1).drop_last() =~= ms.take(k));
        lemma_fails_stays(ms, k + 1);
    } else {
        assert(ms.take(k) =~= ms);
    }
}

/// The encoding of two texts one after the other is their encodings one
/// after the other.
pub proof fn lemma_encode_concat(a: Seq<char>, b: Seq<char>)
    ensures
        encode_utf8(a + b) == encode_utf8(a) + encode_utf8(b),
    decreases a.len(),
{
    if a.len() > 0 {
        lemma_encode_concat(a.drop_first(), b);
        assert((a + b).drop_first() =~= a.drop_first() + b);
        assert((a + b)[0] == a[0]);
        assert(encode_utf8(a) + encode_utf8(b) =~= vstd::utf8::encode_scalar(a[0] as u32) + (
        encode_utf8(a.drop_first()) + encode_utf8(b)));
    } else {
        assert(a + b =~= b);
        assert(encode_utf8(a) + encode_utf8(b) =~= encode_utf8(b));
    }
}

/// The encoding of a text of ASCII characters is one byte per character.
proof fn lemma_encode_ascii(s: Seq<char>)
    requires
        vstd::utf8::is_ascii_chars(s),
    ensures
        encode_utf8(s).len() == s.len(),
        forall|i: int| 0 <= i < s.len() ==> encode_utf8(s)[i] == s[i] as u8,
{
    vstd::utf8::is_ascii_chars_encode_utf8(s);
}

/// An answer built as `imdb$<callback>(<json>)`, with a callback as long in
/// bytes as the query, can be cut, and cutting it gives back the JSON.
pub proof fn law_trim_round_trip(callback: Seq<char>, json: Seq<char>, query: Seq<char>)
    requires
        encode_utf8(callback).len() == encode_utf8(query).len(),
    ensures
        ({
            let body = "imdb$"@ + callback + "("@ + json + ")"@;
            &&& body_can_be_trimmed(body, query)
            &&& trimmed_body(body, query) == encode_utf8(json)
            &&& decode_utf8(trimmed_body(body, query)) == json
        }),
{
    reveal_strlit("imdb$");
    reveal_strlit("(");
    reveal_strlit(")");
    let p = "imdb$"@;
    let o = "("@;
    let c = ")"@;
    let body = p + callback + o + json + c;
    assert(vstd::utf8::is_ascii_chars(p));
    assert(vstd::utf8::is_ascii_chars(o));
    assert(vstd::utf8::is_ascii_chars(c));
    lemma_encode_ascii(p);
    lemma_encode_ascii(o);
    lemma_encode_ascii(c);
    lemma_encode_concat(p, callback);
    lemma_encode_concat(p + callback, o);
    lemma_encode_concat(p + callback + o, json);
    lemma_encode_concat(p + callback + o + json, c);
    let e = encode_utf8(body);
    let ej = encode_utf8(json);
    let start: int = encode_utf8(query).len() + 6int;
    let end: int = e.len() - 1;
    assert(e =~= encode_utf8(p) + encode_utf8(callback) + encode_utf8(o) + ej + encode_utf8(c));
    assert(start == 5 + encode_utf8(callback).len() + 1);
    assert(end == start + ej.len());
    assert(e.subrange(start, end) =~= ej);
    assert(e[end] == 0x29u8);
    vstd::utf8::encode_utf8_valid_utf8(body);
    vstd::utf8::encode_utf8_valid_utf8(json);
    vstd::utf8::is_char_boundary_iff_not_is_continuation_byte(e, end);
    if ej.len() > 0 {
        vstd::utf8::is_char_boundary_iff_not_is_continuation_byte(ej, 0);
        assert(is_char_boundary(ej, 0));
        assert(e[start] == ej[0]);
        vstd::utf8::is_char_boundary_iff_not_is_continuation_byte(e, start);
    }
    vstd::utf8::encode_utf8_decode_utf8(json);
}

/// Whether the suggestion names one of the kinds the site shows ("feature",
/// "TV mini series" or "TV series") and has its picture record, year, id and
/// title.
pub open spec fn complete_shown_suggestion(m: MovieInfo) -> bool {
    &&& m.q matches Some(q) && (q@ == "feature"@ || q@ == "TV mini series"@ || q@ == "TV series"@)
    &&& m.i matches Some(ImageField::Parsed(_))
    &&& m.y is Some
    &&& m.id is Some
    &&& m.l is Some
}

/// Whether the suggestion names no kind the site shows: no kind at all, or
/// one that is not "feature", "TV mini series" or "TV series".
pub open spec fn unshown_suggestion(m: MovieInfo) -> bool {
    m.q matches Some(q) ==> (q@ != "feature"@ && q@ != "TV mini series"@ && q@ != "TV series"@)
}

/// Every feature, mini series and series among the suggestions is shown:
/// where each suggestion is one of these with its picture, year, id and
/// title, the answer gives one movie per suggestion, in order, carrying that
/// suggestion's id, title, year, picture and stars (no stars: empty).
pub proof fn law_shown_suggestions_all_kept(ms: Seq<MovieInfo>)
    requires
        forall|k: int| 0 <= k < ms.len() ==> complete_shown_suggestion(#[trigger] ms[k]),
    ensures
        answer_outcome(ms) matches AnswerOutcome::Movies(ds) && ds.len() == ms.len() && forall|
            k: int,
        |
            #![trigger ds[k]]
            0 <= k < ms.len() ==> {
                &&& ds[k].movie_id == ms[k].id.unwrap()@
                &&& ds[k].movie_title == ms[k].l.unwrap()@
                &&& ds[k].movie_year == ms[k].y.unwrap()
                &&& ms[k].i matches Some(ImageField::Parsed(img)) && ds[k].movie_images == img@
                &&& ds[k].movie_stars == match ms[k].s {
                    Some(s) => s@,
                    None => Seq::empty(),
                }
            },
    decreases ms.len(),
{
    reveal_strlit("feature");
    reveal_strlit("TV mini series");
    reveal_strlit("TV series");
    if ms.len() > 0 {
        let init = ms.drop_last();
        assert forall|k: int| 0 <= k < init.len() implies complete_shown_suggestion(
            #[trigger] init[k],
        ) by {
            assert(init[k] == ms[k]);
        }
        law_shown_suggestions_all_kept(init);
        let m = ms.last();
        assert(complete_shown_suggestion(ms[ms.len() - 1]));
        assert(is_shown(media_type_of(opt_view(m.q))));
        assert(suggestion_outcome(m) is Keep);
    }
}

/// Suggestions of any other kind are left out: where no suggestion names a
/// feature, mini series or series, the answer shows no movie, whatever the
/// suggestions' other fields hold.
pub proof fn law_unshown_suggestions_dropped(ms: Seq<MovieInfo>)
    requires
        forall|k: int| 0 <= k < ms.len() ==> unshown_suggestion(#[trigger] ms[k]),
    ensures
        answer_outcome(ms) == AnswerOutcome::Movies(Seq::empty()),
    decreases ms.len(),
{
    reveal_strlit("feature");
    reveal_strlit("TV mini series");
    reveal_strlit("TV series");
    if ms.len() > 0 {
        let init = ms.drop_last();
        assert forall|k: int| 0 <= k < init.len() implies unshown_suggestion(#[trigger] init[k]) by {
            assert(init[k] == ms[k]);
        }
        law_unshown_suggestions_dropped(init);
        assert(unshown_suggestion(ms[ms.len() - 1]));
        assert(!is_shown(media_type_of(opt_view(ms.last().q))));
    }
}

} // verus!
