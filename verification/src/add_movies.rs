//! The page on which a member searches for movies and collects the ones to
//! put forward for a group. Found movies are kept by id, collected movies by
//! the key under which they were collected; a collected movie replaces an
//! earlier one under the same key.
use vstd::prelude::*;
use crate::imdb_types::{same_text, ImdbQuery};
use crate::keyed::{
    keys_of, lemma_with_key, lemma_with_key_keys, lemma_without_key, lemma_without_key_keys,
    pairs_map, values_of, with_key, without_key, key_differs,
};
use crate::shared_types::{
    yew_view_of, MovieDisplay, MovieDisplayView, YewMovieDisplay, YewMovieDisplayView,
};

verus! {

/// A found movie under its id.
#[derive(Debug)]
pub struct FoundMovie {
    pub key: String,
    pub movie: MovieDisplay,
}

/// A collected movie under its key.
#[derive(Debug)]
pub struct AddedMovie {
    pub key: String,
    pub movie: YewMovieDisplay,
}

impl Clone for AddedMovie {
    fn clone(&self) -> (res: Self)
        ensures
            res == *self,
    {
        AddedMovie { key: self.key.clone(), movie: self.movie.clone() }
    }
}

/// The found movies as key and value pairs.
pub open spec fn found_pairs(v: Seq<FoundMovie>) -> Seq<(Seq<char>, MovieDisplayView)> {
    v.map_values(|e: FoundMovie| (e.key@, e.movie@))
}

/// The collected movies as key and value pairs.
pub open spec fn added_pairs(v: Seq<AddedMovie>) -> Seq<(Seq<char>, YewMovieDisplayView)> {
    v.map_values(|e: AddedMovie| (e.key@, e.movie@))
}

/// The state of the page.
#[derive(Debug)]
pub struct AddMovies {
    pub autocomplete_movies: Vec<FoundMovie>,
    pub username: String,
    pub added_movies: Vec<AddedMovie>,
    pub group_name: String,
}

/// The page is well formed when no key is used twice.
pub open spec fn add_movies_well_formed(p: &AddMovies) -> bool {
    &&& keys_of(found_pairs(p.autocomplete_movies@)).no_duplicates()
    &&& keys_of(added_pairs(p.added_movies@)).no_duplicates()
}

/// What happens on the page. The element that a click or a key stroke came
/// from arrives as its text (the title of a delete button, the id of an add
/// button, the text of the search box), or `None` where there is no such
/// element.
#[derive(Debug)]
pub enum AddMoviesMsg {
    SaveMovies,
    Noop,
    GetMovies,
    DeleteEntry(Option<String>),
    UpdateCurrentMovies(Vec<YewMovieDisplay>),
    QueryAutocomplete(Option<String>),
    UpdateAutocomplete(Vec<MovieDisplay>),
    AddMovie(Option<String>),
    Error(String),
}

/// What the page asks to be done after a message.
#[derive(Debug)]
pub enum AddMoviesAction {
    /// Store these movies in the browser as the collected movies.
    StoreAddedMovies(Vec<YewMovieDisplay>),
    /// Save these movies for the stored user's stored group; the answer
    /// comes back as `Noop`.
    SaveMovies(Vec<YewMovieDisplay>),
    /// Fetch the stored group's movies; the answer comes back as
    /// `UpdateCurrentMovies`, or `Error`.
    FetchMovies,
    /// Search for movies; the answer comes back as `UpdateAutocomplete`, or
    /// as `UpdateAutocomplete` of nothing and then `Error`.
    Search(ImdbQuery),
}

/// The views of a vector of movies put forward.
pub open spec fn yew_views(v: Seq<YewMovieDisplay>) -> Seq<YewMovieDisplayView> {
    v.map_values(|m: YewMovieDisplay| m@)
}

/// `ps` with each movie of `ms` put in under its id, in order.
pub open spec fn put_all(ps: Seq<(Seq<char>, YewMovieDisplayView)>, ms: Seq<YewMovieDisplayView>) -> Seq<
    (Seq<char>, YewMovieDisplayView),
>
    decreases ms.len(),
{
    if ms.len() == 0 {
        ps
    } else {
        with_key(put_all(ps, ms.drop_last()), ms.last().movie_id, ms.last())
    }
}

/// `ps` with each found movie of `ms` put in under its id, in order.
pub open spec fn put_all_found(ps: Seq<(Seq<char>, MovieDisplayView)>, ms: Seq<MovieDisplayView>) -> Seq<
    (Seq<char>, MovieDisplayView),
>
    decreases ms.len(),
{
    if ms.len() == 0 {
        ps
    } else {
        with_key(put_all_found(ps, ms.drop_last()), ms.last().movie_id, ms.last())
    }
}

/// The views of a vector of found movies.
pub open spec fn found_views(v: Seq<MovieDisplay>) -> Seq<MovieDisplayView> {
    v.map_values(|m: MovieDisplay| m@)
}

/// Drops the collected movies under `key`.
fn remove_added(v: &mut Vec<AddedMovie>, key: &str)
    ensures
        added_pairs(final(v)@) == without_key(added_pairs(old(v)@), key@),
{
    let ghost p = key_differs::<YewMovieDisplayView>(key@);
    let ghost orig = added_pairs(v@);
    let mut kept: Vec<AddedMovie> = Vec::new();
    let mut i: usize = 0;
    while i < v.len()
        invariant
            i <= v.len(),
            orig == added_pairs(v@),
            p == key_differs::<YewMovieDisplayView>(key@),
            added_pairs(kept@) == orig.take(i as int).filter(p),
        decreases v.len() - i,
    {
        proof {
            assert(orig.take(i + 1) =~= orig.take(i as int).push(orig[i as int]));
            orig.take(i as int).lemma_filter_push(orig[i as int], p);
        }
        if !same_text(v[i].key.as_str(), key) {
            kept.push(v[i].clone());
            proof {
                assert(added_pairs(kept@) =~= orig.take(i as int).filter(p).push(orig[i as int]));
            }
        }
        i = i + 1;
    }
    proof {
        assert(orig.take(i as int) =~= orig);
    }
    *v = kept;
}

/// Puts `movie` in under `key`, in place of any earlier movie under it.
fn put_added(v: &mut Vec<AddedMovie>, key: String, movie: YewMovieDisplay)
    ensures
        added_pairs(final(v)@) == with_key(added_pairs(old(v)@), key@, movie@),
{
    remove_added(v, key.as_str());
    let ghost before = added_pairs(v@);
    let ghost kv = key@;
    let ghost mv = movie@;
    v.push(AddedMovie { key, movie });
    proof {
        assert(added_pairs(v@) =~= before.push((kv, mv)));
    }
}

/// The collected movies, in order.
fn added_values(v: &Vec<AddedMovie>) -> (res: Vec<YewMovieDisplay>)
    ensures
        yew_views(res@) == values_of(added_pairs(v@)),
{
    let mut res: Vec<YewMovieDisplay> = Vec::new();
    let mut i: usize = 0;
    while i < v.len()
        invariant
            i <= v.len(),
            yew_views(res@) == values_of(added_pairs(v@)).take(i as int),
        decreases v.len() - i,
    {
        let ghost prev = res@;
        let m = v[i].movie.clone();
        res.push(m);
        proof {
            let vals = values_of(added_pairs(v@));
            assert(vals[i as int] == v@[i as int].movie@);
            assert(yew_views(res@) =~= yew_views(prev).push(m@));
            assert(vals.take(i + 1) =~= vals.take(i as int).push(vals[i as int]));
        }
        i = i + 1;
    }
    proof {
        assert(values_of(added_pairs(v@)).take(i as int) =~= values_of(added_pairs(v@)));
    }
    res
}

/// The found movie under `key`, if there is one.
fn find_found(v: &Vec<FoundMovie>, key: &str) -> (res: Option<usize>)
    ensures
        match res {
            Some(i) => i < v.len() && v@[i as int].key@ == key@,
            None => !keys_of(found_pairs(v@)).contains(key@),
        },
{
    let mut i: usize = 0;
    while i < v.len()
        invariant
            i <= v.len(),
            forall|k: int| 0 <= k < i ==> v@[k].key@ != key@,
        decreases v.len() - i,
    {
        if same_text(v[i].key.as_str(), key) {
            return Some(i);
        }
        i = i + 1;
    }
    proof {
        let ks = keys_of(found_pairs(v@));
        if ks.contains(key@) {
            let k = choose|k: int| 0 <= k < ks.len() && ks[k] == key@;
            assert(v@[k].key@ == ks[k]);
        }
    }
    None
}

/// Puts `movie` in under `key` among the found movies, in place of any
/// earlier one.
fn put_found(v: &mut Vec<FoundMovie>, key: String, movie: MovieDisplay)
    ensures
        found_pairs(final(v)@) == with_key(found_pairs(old(v)@), key@, movie@),
{
    let ghost p = key_differs::<MovieDisplayView>(key@);
    let ghost orig = found_pairs(v@);
    let mut kept: Vec<FoundMovie> = Vec::new();
    let mut i: usize = 0;
    while i < v.len()
        invariant
            i <= v.len(),
            orig == found_pairs(v@),
            p == key_differs::<MovieDisplayView>(key@),
            found_pairs(kept@) == orig.take(i as int).filter(p),
        decreases v.len() - i,
    {
        proof {
            assert(orig.take(i + 1) =~= orig.take(i as int).push(orig[i as int]));
            orig.take(i as int).lemma_filter_push(orig[i as int], p);
        }
        if !same_text(v[i].key.as_str(), key.as_str()) {
            let e = FoundMovie { key: v[i].key.clone(), movie: v[i].movie.clone() };
            kept.push(e);
            proof {
                assert(found_pairs(kept@) =~= orig.take(i as int).filter(p).push(orig[i as int]));
            }
        }
        i = i + 1;
    }
    proof {
        assert(orig.take(i as int) =~= orig);
    }
    let ghost before = found_pairs(kept@);
    let ghost kv = key@;
    let ghost mv = movie@;
    kept.push(FoundMovie { key, movie });
    proof {
        assert(found_pairs(kept@) =~= before.push((kv, mv)));
    }
    *v = kept;
}

impl AddMovies {
    /// Takes the message `msg` and returns what is to be done.
    pub fn update(&mut self, msg: AddMoviesMsg) -> (actions: Vec<AddMoviesAction>)
        requires
            add_movies_well_formed(&*old(self)),
            msg matches AddMoviesMsg::AddMovie(Some(id)) ==> keys_of(
                found_pairs(old(self).autocomplete_movies@),
            ).contains(id@),
        ensures
            add_movies_well_formed(&*final(self)),
            final(self).username == old(self).username,
            final(self).group_name == old(self).group_name,
            match msg {
                AddMoviesMsg::UpdateCurrentMovies(ms) => {
                    &&& added_pairs(final(self).added_movies@) == put_all(
                        added_pairs(old(self).added_movies@),
                        yew_views(ms@),
                    )
                    &&& final(self).autocomplete_movies@ == old(self).autocomplete_movies@
                    &&& actions@.len() == 1
                    &&& actions@[0] matches AddMoviesAction::StoreAddedMovies(v) && yew_views(v@)
                        == yew_views(ms@)
                },
                AddMoviesMsg::SaveMovies => {
                    &&& final(self).added_movies@ == old(self).added_movies@
                    &&& final(self).autocomplete_movies@ == old(self).autocomplete_movies@
                    &&& actions@.len() == 1
                    &&& actions@[0] matches AddMoviesAction::SaveMovies(v) && yew_views(v@)
                        == values_of(added_pairs(old(self).added_movies@))
                },
                AddMoviesMsg::GetMovies => {
                    &&& final(self).added_movies@ == old(self).added_movies@
                    &&& final(self).autocomplete_movies@ == old(self).autocomplete_movies@
                    &&& actions@.len() == 1
                    &&& actions@[0] is FetchMovies
                },
                AddMoviesMsg::DeleteEntry(title) => {
                    &&& added_pairs(final(self).added_movies@) == match title {
                        Some(t) => without_key(added_pairs(old(self).added_movies@), t@),
                        None => added_pairs(old(self).added_movies@),
                    }
                    &&& final(self).autocomplete_movies@ == old(self).autocomplete_movies@
                    &&& actions@.len() == 0
                },
                AddMoviesMsg::AddMovie(id) => match id {
                    Some(k) => {
                        let m = pairs_map(found_pairs(old(self).autocomplete_movies@))[k@];
                        let after = with_key(
                            added_pairs(old(self).added_movies@),
                            k@,
                            yew_view_of(m, old(self).username@),
                        );
                        &&& added_pairs(final(self).added_movies@) == after
                        &&& final(self).autocomplete_movies@ == old(self).autocomplete_movies@
                        &&& actions@.len() == 1
                        &&& actions@[0] matches AddMoviesAction::StoreAddedMovies(v) && yew_views(
                            v@,
                        ) == values_of(after)
                    },
                    None => {
                        &&& final(self).added_movies@ == old(self).added_movies@
                        &&& final(self).autocomplete_movies@ == old(self).autocomplete_movies@
                        &&& actions@.len() == 0
                    },
                },
                AddMoviesMsg::QueryAutocomplete(text) => {
                    &&& final(self).added_movies@ == old(self).added_movies@
                    &&& final(self).autocomplete_movies@ == old(self).autocomplete_movies@
                    &&& match text {
                        Some(t) => actions@.len() == 1 && (actions@[0] matches AddMoviesAction::Search(
                            q,
                        ) && q.query@ == t@),
                        None => actions@.len() == 0,
                    }
                },
                AddMoviesMsg::UpdateAutocomplete(ms) => {
                    &&& found_pairs(final(self).autocomplete_movies@) == put_all_found(
                        Seq::empty(),
                        found_views(ms@),
                    )
                    &&& final(self).added_movies@ == old(self).added_movies@
                    &&& actions@.len() == 0
                },
                _ => {
                    &&& final(self).added_movies@ == old(self).added_movies@
                    &&& final(self).autocomplete_movies@ == old(self).autocomplete_movies@
                    &&& actions@.len() == 0
                },
            },
    {
        let mut actions: Vec<AddMoviesAction> = Vec::new();
        match msg {
            AddMoviesMsg::UpdateCurrentMovies(movies) => {
                let mut i: usize = 0;
                let ghost start = added_pairs(self.added_movies@);
                let ghost user = self.username;
                let ghost group = self.group_name;
                let ghost auto = self.autocomplete_movies@;
                while i < movies.len()
                    invariant
                        i <= movies.len(),
                        self.username == user,
                        self.group_name == group,
                        self.autocomplete_movies@ == auto,
                        keys_of(found_pairs(auto)).no_duplicates(),
                        added_pairs(self.added_movies@) == put_all(
                            start,
                            yew_views(movies@).take(i as int),
                        ),
                        keys_of(added_pairs(self.added_movies@)).no_duplicates(),
                    decreases movies.len() - i,
                {
                    let m = movies[i].clone();
                    let key = m.movie_id.clone();
                    proof {
                        let ms = yew_views(movies@);
                        assert(ms.take(i + 1).drop_last() =~= ms.take(i as int));
                        assert(ms.take(i + 1).last() == m@);
                        lemma_with_key_keys(added_pairs(self.added_movies@), key@, m@);
                    }
                    put_added(&mut self.added_movies, key, m);
                    i = i + 1;
                }
                proof {
                    assert(yew_views(movies@).take(i as int) =~= yew_views(movies@));
                }
                actions.push(AddMoviesAction::StoreAddedMovies(movies));
            },
            AddMoviesMsg::SaveMovies => {
                let current = added_values(&self.added_movies);
                actions.push(AddMoviesAction::SaveMovies(current));
            },
            AddMoviesMsg::GetMovies => {
                actions.push(AddMoviesAction::FetchMovies);
            },
            AddMoviesMsg::Noop => {},
            AddMoviesMsg::DeleteEntry(title) => {
                match title {
                    Some(t) => {
                        proof {
                            lemma_without_key_keys(added_pairs(self.added_movies@), t@);
                        }
                        remove_added(&mut self.added_movies, t.as_str());
                    },
                    None => {},
                }
            },
            AddMoviesMsg::AddMovie(id) => {
                match id {
                    Some(k) => {
                        match find_found(&self.autocomplete_movies, k.as_str()) {
                            Some(i) => {
                                proof {
                                    lemma_found_lookup(self.autocomplete_movies@, i as int);
                                }
                                let found = self.autocomplete_movies[i].movie.clone();
                                let shown = found.into_yew_display(self.username.clone());
                                proof {
                                    lemma_with_key_keys(
                                        added_pairs(self.added_movies@),
                                        k@,
                                        shown@,
                                    );
                                }
                                put_added(&mut self.added_movies, k, shown);
                                let all = added_values(&self.added_movies);
                                actions.push(AddMoviesAction::StoreAddedMovies(all));
                            },
                            None => {},
                        }
                    },
                    None => {},
                }
            },
            AddMoviesMsg::QueryAutocomplete(text) => {
                match text {
                    Some(t) => {
                        actions.push(AddMoviesAction::Search(ImdbQuery { query: t }));
                    },
                    None => {},
                }
            },
            AddMoviesMsg::UpdateAutocomplete(movies) => {
                let mut found: Vec<FoundMovie> = Vec::new();
                let mut i: usize = 0;
                proof {
                    assert(found_pairs(found@) =~= Seq::<(Seq<char>, MovieDisplayView)>::empty());
                    assert(found_views(movies@).take(0) =~= Seq::<MovieDisplayView>::empty());
                }
                while i < movies.len()
                    invariant
                        i <= movies.len(),
                        found_pairs(found@) == put_all_found(
                            Seq::empty(),
                            found_views(movies@).take(i as int),
                        ),
                        keys_of(found_pairs(found@)).no_duplicates(),
                    decreases movies.len() - i,
                {
                    let m = movies[i].clone();
                    let key = m.movie_id.clone();
                    proof {
                        let ms = found_views(movies@);
                        assert(ms.take(i + 1).drop_last() =~= ms.take(i as int));
                        assert(ms.take(i + 1).last() == m@);
                        lemma_with_key_keys(found_pairs(found@), key@, m@);
                    }
                    put_found(&mut found, key, m);
                    i = i + 1;
                }
                proof {
                    assert(found_views(movies@).take(i as int) =~= found_views(movies@));
                }
                self.autocomplete_movies = found;
            },
            AddMoviesMsg::Error(_) => {},
        }
        actions
    }
}

/// With keys apart, the found movie at a position is the one the map gives
/// for its key.
proof fn lemma_found_lookup(v: Seq<FoundMovie>, i: int)
    requires
        0 <= i < v.len(),
        keys_of(found_pairs(v)).no_duplicates(),
    ensures
        pairs_map(found_pairs(v))[v[i].key@] == v[i].movie@,
{
    lemma_pairs_lookup(found_pairs(v), i);
}

/// With keys apart, the value at a position is the one the map gives for its
/// key.
proof fn lemma_pairs_lookup<V>(ps: Seq<(Seq<char>, V)>, i: int)
    requires
        0 <= i < ps.len(),
        keys_of(ps).no_duplicates(),
    ensures
        pairs_map(ps).contains_key(ps[i].0),
        pairs_map(ps)[ps[i].0] == ps[i].1,
    decreases ps.len(),
{
    if i < ps.len() - 1 {
        let t = ps.drop_last();
        assert(keys_of(t).no_duplicates()) by {
            assert forall|a: int, b: int|
                0 <= a < keys_of(t).len() && 0 <= b < keys_of(t).len() && a != b implies keys_of(
                t,
            )[a] != keys_of(t)[b] by {
                assert(keys_of(ps)[a] == keys_of(t)[a]);
                assert(keys_of(ps)[b] == keys_of(t)[b]);
            }
        }
        lemma_pairs_lookup(t, i);
        assert(keys_of(ps)[i] != keys_of(ps)[ps.len() - 1]);
        assert(t[i] == ps[i]);
    }
}

/// Collecting a movie under a key and then deleting under that key leaves
/// the key out of the collection; whatever stood under other keys stays.
pub proof fn law_delete_after_add(ps: Seq<(Seq<char>, YewMovieDisplayView)>, k: Seq<char>, m: YewMovieDisplayView)
    ensures
        pairs_map(without_key(with_key(ps, k, m), k)) == pairs_map(ps).remove(k),
        pairs_map(with_key(ps, k, m)) == pairs_map(ps).insert(k, m),
{
    lemma_with_key(ps, k, m);
    lemma_without_key(with_key(ps, k, m), k);
    assert(pairs_map(ps).insert(k, m).remove(k) =~= pairs_map(ps).remove(k));
}

} // verus!
