//! The "system" by which a group picks a movie. Members put movies forward
//! and say when they are ready; once every member is ready the members take
//! turns, in a fixed rotation, striking out one movie each, until one movie
//! is left. The page's decisions are a function from its state and a message
//! to its next state and the requests to make; the page itself performs the
//! requests and hands their answers back as messages.
use vstd::prelude::*;
use crate::group_types::{
    copy_movies, group_well_formed, member_names, member_views, movie_views, text_views,
    DBGroupStruct, GroupData, GroupDataView, GroupMember, GroupMemberView, UserStatusView,
};
use crate::imdb_types::{same_text, ImageData, ImdbQuery};
use crate::membership::find_member;
use crate::setlike::{
    differs_from, lemma_insert, lemma_remove, lemma_remove_inserted, seq_insert, seq_remove,
};
use crate::shared_types::{
    same_movie, same_yew_movie, yew_view_of, MovieDisplay, MovieDisplayView, SystemState,
    YewMovieDisplay, YewMovieDisplayView,
};
use crate::text::{concat, substring};

verus! {

/// The state of a group's system page.
#[derive(Debug)]
pub struct System {
    pub username: String,
    pub group_id: String,
    pub group_data: GroupData,
    pub autocomplete_movies: Vec<MovieDisplay>,
    pub current_movies: Vec<YewMovieDisplay>,
    pub loaded: bool,
}

/// What a `System` holds, as plain values.
pub ghost struct SystemView {
    pub username: Seq<char>,
    pub group_id: Seq<char>,
    pub group_data: GroupDataView,
    pub autocomplete_movies: Seq<MovieDisplayView>,
    pub current_movies: Seq<YewMovieDisplayView>,
    pub loaded: bool,
}

/// The views of a vector of found movies.
pub open spec fn display_views(v: Seq<MovieDisplay>) -> Seq<MovieDisplayView> {
    v.map_values(|m: MovieDisplay| m@)
}

impl View for System {
    type V = SystemView;

    open spec fn view(&self) -> SystemView {
        SystemView {
            username: self.username@,
            group_id: self.group_id@,
            group_data: self.group_data@,
            autocomplete_movies: display_views(self.autocomplete_movies@),
            current_movies: movie_views(self.current_movies@),
            loaded: self.loaded,
        }
    }
}

/// The page is well formed when its group is, and neither the suggestions
/// nor the movies shown hold anything twice.
pub open spec fn system_well_formed(s: SystemView) -> bool {
    &&& group_well_formed(s.group_data)
    &&& s.autocomplete_movies.no_duplicates()
    &&& s.current_movies.no_duplicates()
}

/// What happens on the page. Text typed in the search box arrives as the
/// box's text, or `None` where the event came from no input box.
#[derive(Debug)]
pub enum SystemMsg {
    Noop,
    GetGroupData,
    UpdateGroupData(DBGroupStruct),
    Error(String),
    SaveMovies,
    DeleteEntry(YewMovieDisplay),
    DeleteEntryChangeTurn(YewMovieDisplay),
    QueryAutocomplete(Option<String>),
    UpdateAutocomplete(Vec<MovieDisplay>),
    AddMovie(MovieDisplay),
    SetReady,
    UnsetReady,
}

/// What the page asks to be done after a message.
#[derive(Debug)]
pub enum SystemAction {
    /// Fetch the group with this id; the answer comes back as
    /// `UpdateGroupData`, or `Error`.
    FetchGroupData(String),
    /// Store this group under this id; the answer comes back as `Noop`.
    SaveGroupData(String, GroupData),
    /// Search for movies; the answer comes back as `UpdateAutocomplete`, or
    /// as `UpdateAutocomplete` of nothing and then `Error`.
    Search(ImdbQuery),
    /// Hand this message to the page.
    Deliver(SystemMsg),
}

/// The members with the ready flag of `name` set to `ready`.
pub open spec fn with_ready(ms: Seq<GroupMemberView>, name: Seq<char>, ready: bool) -> Seq<
    GroupMemberView,
> {
    ms.map_values(
        |m: GroupMemberView|
            if m.username == name {
                GroupMemberView {
                    username: m.username,
                    status: UserStatusView { ready_status: ready, color: m.status.color },
                }
            } else {
                m
            },
    )
}

/// Every member is ready.
pub open spec fn all_ready(ms: Seq<GroupMemberView>) -> bool {
    forall|i: int| 0 <= i < ms.len() ==> #[trigger] ms[i].status.ready_status
}

/// The first name moved to the end.
pub open spec fn rotate(order: Seq<Seq<char>>) -> Seq<Seq<char>> {
    order.drop_first().push(order[0])
}

/// The group once its system has started: the first member has the turn and
/// the rotation holds the other members, then the first.
pub open spec fn started(g: GroupDataView) -> GroupDataView {
    let names = member_names(g.members);
    GroupDataView {
        system_state: SystemState::SystemStarted,
        turn: names[0],
        system_order: rotate(names),
        ..g
    }
}

/// `xs` with every repeated item dropped, first occurrences kept in order.
pub open spec fn dedup<A>(xs: Seq<A>) -> Seq<A>
    decreases xs.len(),
{
    if xs.len() == 0 {
        xs
    } else {
        seq_insert(dedup(xs.drop_last()), xs.last())
    }
}

/// The group after the movie `m` is struck out by the member whose turn it
/// is: the turn passes on in the rotation, and the pick is finished when one
/// movie is left.
pub open spec fn struck_out(g: GroupDataView, m: YewMovieDisplayView) -> GroupDataView {
    let cur = seq_remove(g.current_movies, m);
    GroupDataView {
        current_movies: cur,
        turn: g.system_order[0],
        system_order: rotate(g.system_order),
        system_state: if cur.len() == 1 {
            SystemState::Finished
        } else {
            g.system_state
        },
        ..g
    }
}

/// The page after the message `msg`, where `stored_user` is the name that
/// the browser has stored for the signed-in user.
pub open spec fn system_next(s: SystemView, stored_user: Seq<char>, msg: SystemMsg) -> SystemView {
    let g = s.group_data;
    let s0 = SystemView { current_movies: g.current_movies, ..s };
    match msg {
        SystemMsg::SetReady => {
            let g1 = GroupDataView { members: with_ready(g.members, stored_user, true), ..g };
            SystemView {
                group_data: if all_ready(g1.members) {
                    started(g1)
                } else {
                    g1
                },
                ..s0
            }
        },
        SystemMsg::UnsetReady => SystemView {
            group_data: GroupDataView { members: with_ready(g.members, stored_user, false), ..g },
            ..s0
        },
        SystemMsg::DeleteEntry(m) => {
            let cur = seq_remove(g.current_movies, m@);
            SystemView {
                current_movies: cur,
                group_data: GroupDataView { current_movies: cur, ..g },
                ..s0
            }
        },
        SystemMsg::DeleteEntryChangeTurn(m) => {
            let g1 = struck_out(g, m@);
            SystemView { current_movies: g1.current_movies, group_data: g1, ..s0 }
        },
        SystemMsg::AddMovie(m) => {
            let cur = seq_insert(g.current_movies, yew_view_of(m@, s.username));
            SystemView {
                current_movies: cur,
                group_data: GroupDataView { current_movies: cur, ..g },
                ..s0
            }
        },
        SystemMsg::UpdateAutocomplete(v) => SystemView {
            autocomplete_movies: dedup(display_views(v@)),
            ..s0
        },
        SystemMsg::UpdateGroupData(gs) => SystemView {
            group_data: gs.group_data@,
            current_movies: gs.group_data@.current_movies,
            group_id: gs.id@,
            loaded: true,
            ..s0
        },
        _ => s0,
    }
}

/// The request to store the group as it now is.
pub open spec fn is_save_of(a: SystemAction, after: SystemView) -> bool {
    a matches SystemAction::SaveGroupData(id, d) && id@ == after.group_id && d@ == after.group_data
}

/// The requests that the page makes after `msg`, given the page before and
/// after it.
pub open spec fn system_actions_are(
    before: SystemView,
    after: SystemView,
    msg: SystemMsg,
    acts: Seq<SystemAction>,
) -> bool {
    match msg {
        SystemMsg::SetReady => acts.len() == 1 && is_save_of(acts[0], after),
        SystemMsg::UnsetReady => acts.len() == 1 && is_save_of(acts[0], after),
        SystemMsg::SaveMovies => acts.len() == 1 && is_save_of(acts[0], after),
        SystemMsg::DeleteEntry(_) => acts.len() == 1 && is_save_of(acts[0], after),
        SystemMsg::DeleteEntryChangeTurn(_) => {
            &&& acts.len() == 2
            &&& acts[0] matches SystemAction::Deliver(SystemMsg::UpdateGroupData(gs))
            &&& gs.id@ == after.group_id
            &&& gs.group_data@ == after.group_data
            &&& is_save_of(acts[1], after)
        },
        SystemMsg::QueryAutocomplete(t) => match t {
            Some(text) => acts.len() == 1 && (acts[0] matches SystemAction::Search(q)
                && q.query@ == text@),
            None => acts.len() == 0,
        },
        SystemMsg::GetGroupData => acts.len() == 1 && (acts[0] matches SystemAction::FetchGroupData(
            id,
        ) && id@ == before.group_id),
        _ => acts.len() == 0,
    }
}

/// The conditions under which the page can take `msg`: a member must be
/// there to take the first turn when everyone is ready, someone must be in
/// the rotation when a movie is struck out, and a group that arrives holds
/// nothing twice.
pub open spec fn system_accepts(s: SystemView, msg: SystemMsg) -> bool {
    &&& msg is SetReady ==> s.group_data.members.len() > 0
    &&& msg is DeleteEntryChangeTurn ==> s.group_data.system_order.len() > 0
    &&& msg matches SystemMsg::UpdateGroupData(gs) ==> group_well_formed(gs.group_data@)
}

/// Sets the ready flag of the member `name`, if there is one.
fn set_ready_status(members: &mut Vec<GroupMember>, name: &str, ready: bool)
    requires
        member_names(member_views(old(members)@)).no_duplicates(),
    ensures
        member_views(final(members)@) == with_ready(member_views(old(members)@), name@, ready),
{
    let ghost ms = member_views(members@);
    match find_member(members, name) {
        Some(i) => {
            let mut m = members[i].clone();
            m.status.ready_status = ready;
            members.set(i, m);
            proof {
                assert forall|j: int| 0 <= j < ms.len() && j != i implies ms[j].username
                    != name@ by {
                    assert(member_names(ms)[j] == ms[j].username);
                    assert(member_names(ms)[i as int] == ms[i as int].username);
                }
                assert(member_views(members@) =~= with_ready(ms, name@, ready));
            }
        },
        None => {
            proof {
                assert forall|j: int| 0 <= j < ms.len() implies ms[j].username != name@ by {
                    assert(member_names(ms)[j] == ms[j].username);
                }
                assert(ms =~= with_ready(ms, name@, ready));
            }
        },
    }
}

/// Whether every member is ready.
fn all_members_ready(members: &Vec<GroupMember>) -> (res: bool)
    ensures
        res == all_ready(member_views(members@)),
{
    let mut i: usize = 0;
    while i < members.len()
        invariant
            i <= members.len(),
            forall|k: int| 0 <= k < i ==> #[trigger] members@[k].status.ready_status,
        decreases members.len() - i,
    {
        if !members[i].status.ready_status {
            assert(!member_views(members@)[i as int].status.ready_status);
            return false;
        }
        i = i + 1;
    }
    proof {
        let ms = member_views(members@);
        assert forall|k: int| 0 <= k < ms.len() implies #[trigger] ms[k].status.ready_status by {
            assert(members@[k].status.ready_status);
        }
    }
    true
}

/// The members' names, in order.
fn member_name_list(members: &Vec<GroupMember>) -> (res: Vec<String>)
    ensures
        text_views(res@) == member_names(member_views(members@)),
{
    let mut res: Vec<String> = Vec::new();
    let mut i: usize = 0;
    while i < members.len()
        invariant
            i <= members.len(),
            text_views(res@) == member_names(member_views(members@)).take(i as int),
        decreases members.len() - i,
    {
        let ghost prev = res@;
        let name = members[i].username.clone();
        res.push(name);
        proof {
            let names = member_names(member_views(members@));
            assert(res@ == prev.push(name));
            assert(names[i as int] == members@[i as int].username@);
            assert(text_views(res@) =~= text_views(prev).push(name@));
            assert(names.take(i + 1) =~= names.take(i as int).push(names[i as int]));
        }
        i = i + 1;
    }
    proof {
        assert(member_names(member_views(members@)).take(i as int) =~= member_names(
            member_views(members@),
        ));
    }
    res
}

/// Moves the first name of the rotation to the end and returns it.
fn rotate_order(order: &mut Vec<String>) -> (first: String)
    requires
        old(order).len() > 0,
    ensures
        first@ == text_views(old(order)@)[0],
        text_views(final(order)@) == rotate(text_views(old(order)@)),
{
    let first = order.remove(0);
    order.push(first.clone());
    proof {
        assert(text_views(order@) =~= rotate(text_views(old(order)@)));
    }
    first
}

/// The movies without `m`.
fn remove_movie(v: &Vec<YewMovieDisplay>, m: &YewMovieDisplay) -> (res: Vec<YewMovieDisplay>)
    ensures
        movie_views(res@) == seq_remove(movie_views(v@), m@),
{
    let ghost p = differs_from(m@);
    let ghost orig = movie_views(v@);
    let mut kept: Vec<YewMovieDisplay> = Vec::new();
    let mut i: usize = 0;
    while i < v.len()
        invariant
            i <= v.len(),
            orig == movie_views(v@),
            p == differs_from(m@),
            movie_views(kept@) == orig.take(i as int).filter(p),
        decreases v.len() - i,
    {
        proof {
            assert(orig.take(i + 1) =~= orig.take(i as int).push(orig[i as int]));
            orig.take(i as int).lemma_filter_push(orig[i as int], p);
        }
        if !same_yew_movie(&v[i], m) {
            kept.push(v[i].clone());
            proof {
                assert(movie_views(kept@) =~= orig.take(i as int).filter(p).push(orig[i as int]));
            }
        }
        i = i + 1;
    }
    proof {
        assert(orig.take(i as int) =~= orig);
    }
    kept
}

/// Whether the movies hold `m`.
fn has_movie(v: &Vec<YewMovieDisplay>, m: &YewMovieDisplay) -> (res: bool)
    ensures
        res == movie_views(v@).contains(m@),
{
    let mut i: usize = 0;
    while i < v.len()
        invariant
            i <= v.len(),
            forall|k: int| 0 <= k < i ==> v@[k]@ != m@,
        decreases v.len() - i,
    {
        if same_yew_movie(&v[i], m) {
            assert(movie_views(v@)[i as int] == m@);
            return true;
        }
        i = i + 1;
    }
    proof {
        let w = movie_views(v@);
        if w.contains(m@) {
            let k = choose|k: int| 0 <= k < w.len() && w[k] == m@;
            assert(v@[k]@ == w[k]);
        }
    }
    false
}

/// Adds `m` at the end of the movies, unless it is there already.
fn insert_movie(v: &mut Vec<YewMovieDisplay>, m: YewMovieDisplay)
    ensures
        movie_views(final(v)@) == seq_insert(movie_views(old(v)@), m@),
{
    if !has_movie(v, &m) {
        let ghost mv = m@;
        v.push(m);
        proof {
            assert(movie_views(v@) =~= movie_views(old(v)@).push(mv));
        }
    }
}

/// Whether the found movies hold `m`.
fn has_display(v: &Vec<MovieDisplay>, m: &MovieDisplay) -> (res: bool)
    ensures
        res == display_views(v@).contains(m@),
{
    let mut i: usize = 0;
    while i < v.len()
        invariant
            i <= v.len(),
            forall|k: int| 0 <= k < i ==> v@[k]@ != m@,
        decreases v.len() - i,
    {
        if same_movie(&v[i], m) {
            assert(display_views(v@)[i as int] == m@);
            return true;
        }
        i = i + 1;
    }
    proof {
        let w = display_views(v@);
        if w.contains(m@) {
            let k = choose|k: int| 0 <= k < w.len() && w[k] == m@;
            assert(v@[k]@ == w[k]);
        }
    }
    false
}

/// The found movies with every repeat dropped.
fn dedup_displays(v: Vec<MovieDisplay>) -> (res: Vec<MovieDisplay>)
    ensures
        display_views(res@) == dedup(display_views(v@)),
{
    let ghost orig = display_views(v@);
    let mut res: Vec<MovieDisplay> = Vec::new();
    let mut i: usize = 0;
    while i < v.len()
        invariant
            i <= v.len(),
            orig == display_views(v@),
            display_views(res@) == dedup(orig.take(i as int)),
        decreases v.len() - i,
    {
        proof {
            assert(orig.take(i + 1).drop_last() =~= orig.take(i as int));
            assert(orig.take(i + 1).last() == orig[i as int]);
        }
        if !has_display(&res, &v[i]) {
            let ghost prev = display_views(res@);
            let m = v[i].clone();
            res.push(m);
            proof {
                assert(display_views(res@) =~= prev.push(orig[i as int]));
            }
        }
        i = i + 1;
    }
    proof {
        assert(orig.take(i as int) =~= orig);
    }
    res
}

impl System {
    /// The page for the group `id`, shown to `stored_user` (the name the
    /// browser has stored, or none): nothing loaded yet, and a first request
    /// for the group's data.
    pub fn new(stored_user: Option<String>, id: String) -> (res: (System, Vec<SystemAction>))
        ensures
            res.0@.username == (match stored_user {
                Some(u) => u@,
                None => Seq::<char>::empty(),
            }),
            res.0@.group_id == id@,
            res.0@.group_data == crate::group_types::empty_group(),
            res.0@.autocomplete_movies.len() == 0,
            res.0@.current_movies.len() == 0,
            !res.0@.loaded,
            system_well_formed(res.0@),
            res.1@.len() == 1,
            res.1@[0] matches SystemAction::Deliver(SystemMsg::GetGroupData),
    {
        let username = match stored_user {
            Some(u) => u,
            None => String::new(),
        };
        let sys = System {
            username,
            group_id: id,
            group_data: GroupData::new_empty(),
            autocomplete_movies: Vec::new(),
            current_movies: Vec::new(),
            loaded: false,
        };
        proof {
            assert(sys@.autocomplete_movies =~= Seq::<MovieDisplayView>::empty());
            assert(sys@.current_movies =~= Seq::<YewMovieDisplayView>::empty());
        }
        let mut actions: Vec<SystemAction> = Vec::new();
        actions.push(SystemAction::Deliver(SystemMsg::GetGroupData));
        (sys, actions)
    }

    /// Takes the message `msg`; `stored_user` is the name the browser has
    /// stored for the signed-in user. Returns the requests to make, in order.
    pub fn update(&mut self, stored_user: String, msg: SystemMsg) -> (actions: Vec<SystemAction>)
        requires
            system_well_formed(old(self)@),
            system_accepts(old(self)@, msg),
        ensures
            final(self)@ == system_next(old(self)@, stored_user@, msg),
            system_well_formed(final(self)@),
            system_actions_are(old(self)@, final(self)@, msg, actions@),
    {
        proof {
            law_step_keeps_well_formed(self@, stored_user@, msg);
        }
        let ghost before = self@;
        let id = self.group_id.clone();
        self.current_movies = copy_movies(&self.group_data.current_movies);
        let mut actions: Vec<SystemAction> = Vec::new();
        match msg {
            SystemMsg::Noop => {},
            SystemMsg::SetReady => {
                set_ready_status(&mut self.group_data.members, stored_user.as_str(), true);
                if all_members_ready(&self.group_data.members) {
                    self.group_data.system_state = SystemState::SystemStarted;
                    let mut order = member_name_list(&self.group_data.members);
                    let first = rotate_order(&mut order);
                    self.group_data.turn = first;
                    self.group_data.system_order = order;
                }
                actions.push(
                    SystemAction::SaveGroupData(self.group_id.clone(), self.group_data.clone()),
                );
            },
            SystemMsg::UnsetReady => {
                set_ready_status(&mut self.group_data.members, stored_user.as_str(), false);
                actions.push(
                    SystemAction::SaveGroupData(self.group_id.clone(), self.group_data.clone()),
                );
            },
            SystemMsg::SaveMovies => {
                self.group_data.current_movies = copy_movies(&self.current_movies);
                actions.push(
                    SystemAction::SaveGroupData(self.group_id.clone(), self.group_data.clone()),
                );
            },
            SystemMsg::DeleteEntry(movie) => {
                self.current_movies = remove_movie(&self.current_movies, &movie);
                self.group_data.current_movies = copy_movies(&self.current_movies);
                actions.push(
                    SystemAction::SaveGroupData(self.group_id.clone(), self.group_data.clone()),
                );
            },
            SystemMsg::DeleteEntryChangeTurn(movie) => {
                self.current_movies = remove_movie(&self.current_movies, &movie);
                self.group_data.current_movies = copy_movies(&self.current_movies);
                let first = rotate_order(&mut self.group_data.system_order);
                self.group_data.turn = first;
                if self.current_movies.len() == 1 {
                    self.group_data.system_state = SystemState::Finished;
                }
                let reload = self.group_data.clone().into_db_group_struct(self.group_id.as_str());
                actions.push(SystemAction::Deliver(SystemMsg::UpdateGroupData(reload)));
                actions.push(
                    SystemAction::SaveGroupData(self.group_id.clone(), self.group_data.clone()),
                );
            },
            SystemMsg::AddMovie(movie) => {
                let shown = movie.clone().into_yew_display(self.username.clone());
                let kept = movie.into_yew_display(self.username.clone());
                insert_movie(&mut self.current_movies, shown);
                insert_movie(&mut self.group_data.current_movies, kept);
            },
            SystemMsg::QueryAutocomplete(text) => {
                match text {
                    Some(t) => {
                        actions.push(SystemAction::Search(ImdbQuery { query: t }));
                    },
                    None => {},
                }
            },
            SystemMsg::UpdateAutocomplete(movies) => {
                self.autocomplete_movies = dedup_displays(movies);
            },
            SystemMsg::GetGroupData => {
                actions.push(SystemAction::FetchGroupData(id));
            },
            SystemMsg::UpdateGroupData(group_struct) => {
                self.current_movies = copy_movies(&group_struct.group_data.current_movies);
                self.group_data = group_struct.group_data;
                self.group_id = group_struct.id;
                self.loaded = true;
            },
            SystemMsg::Error(_) => {},
        }
        proof {
            assert(self@ =~~= system_next(before, stored_user@, msg));
        }
        actions
    }

    /// The delete button shown beside the movie `movie`, as the message it
    /// sends, or `None` where no button is shown. While movies are being
    /// added, whoever put a movie forward can take it back until they say
    /// they are ready; once the system has started, the member whose turn it
    /// is can strike out any movie.
    pub fn delete_movie_button(&self, movie: &YewMovieDisplay) -> (res: Option<SystemMsg>)
        requires
            system_well_formed(self@),
            self.group_data.system_state == SystemState::AddingMovies && self.username@
                == movie.added_by@ ==> member_names(self@.group_data.members).contains(
                self.username@,
            ),
        ensures
            ({
                let g = self@.group_data;
                if g.system_state == SystemState::AddingMovies && self.username@ == movie.added_by@
                    && !exists|i: int|
                    0 <= i < g.members.len() && g.members[i].username == self.username@
                        && g.members[i].status.ready_status {
                    res matches Some(SystemMsg::DeleteEntry(m)) && m@ == movie@
                } else if g.system_state == SystemState::SystemStarted && g.turn
                    == self.username@ {
                    res matches Some(SystemMsg::DeleteEntryChangeTurn(m)) && m@ == movie@
                } else {
                    res is None
                }
            }),
    {
        let adding = match self.group_data.system_state {
            SystemState::AddingMovies => true,
            _ => false,
        };
        let started = match self.group_data.system_state {
            SystemState::SystemStarted => true,
            _ => false,
        };
        if adding && same_text(self.username.as_str(), movie.added_by.as_str()) {
            match find_member(&self.group_data.members, self.username.as_str()) {
                Some(i) => {
                    let ready = self.group_data.members[i].status.ready_status;
                    proof {
                        let g = self@.group_data;
                        assert(g.members[i as int].username == self.username@);
                        assert(g.members[i as int].status.ready_status == ready);
                        if !ready {
                            assert forall|k: int|
                                0 <= k < g.members.len() && g.members[k].username
                                    == self.username@ implies !g.members[k].status.ready_status by {
                                assert(member_names(g.members)[k] == g.members[k].username);
                                assert(member_names(g.members)[i as int] == g.members[
                                    i as int
                                ].username);
                            }
                        }
                    }
                    if !ready {
                        return Some(SystemMsg::DeleteEntry(movie.clone()));
                    }
                },
                None => {},
            }
        }
        if started && same_text(self.group_data.turn.as_str(), self.username.as_str()) {
            Some(SystemMsg::DeleteEntryChangeTurn(movie.clone()))
        } else {
            None
        }
    }
}

/// How the page shows a movie's picture: the URL's `.jpg` replaced by the
/// resizing suffix for an 80-pixel-wide column.
pub open spec fn thumbnail_url(url: Seq<char>) -> Seq<char> {
    url.subrange(0, url.len() - 4) + "QL75_UX80_CR0,5,80,120_.jpg"@
}

/// The picture's URL, resized for the page's movie list. The URL must end in
/// `.jpg`.
pub fn image_processing(image: &ImageData) -> (res: String)
    requires
        crate::images::ends_in_jpg(image.url@),
    ensures
        res@ == thumbnail_url(image.url@),
{
    let n = image.url.as_str().unicode_len();
    let stem = substring(image.url.as_str(), 0, n - 4);
    concat(stem.as_str(), "QL75_UX80_CR0,5,80,120_.jpg")
}

/// The names are unchanged when a ready flag is set.
proof fn lemma_with_ready_names(ms: Seq<GroupMemberView>, name: Seq<char>, ready: bool)
    ensures
        member_names(with_ready(ms, name, ready)) == member_names(ms),
{
    assert(member_names(with_ready(ms, name, ready)) =~= member_names(ms));
}

/// A list with its repeats dropped holds nothing twice.
proof fn lemma_dedup_no_dups<A>(xs: Seq<A>)
    ensures
        dedup(xs).no_duplicates(),
    decreases xs.len(),
{
    if xs.len() > 0 {
        lemma_dedup_no_dups(xs.drop_last());
        lemma_insert(dedup(xs.drop_last()), xs.last());
    }
}

/// Every message keeps the page well formed: no member is there twice, and
/// no movie is shown or put forward twice.
pub proof fn law_step_keeps_well_formed(s: SystemView, stored_user: Seq<char>, msg: SystemMsg)
    requires
        system_well_formed(s),
        system_accepts(s, msg),
    ensures
        system_well_formed(system_next(s, stored_user, msg)),
{
    let g = s.group_data;
    match msg {
        SystemMsg::SetReady => {
            lemma_with_ready_names(g.members, stored_user, true);
        },
        SystemMsg::UnsetReady => {
            lemma_with_ready_names(g.members, stored_user, false);
        },
        SystemMsg::DeleteEntry(m) => {
            lemma_remove(g.current_movies, m@);
        },
        SystemMsg::DeleteEntryChangeTurn(m) => {
            lemma_remove(g.current_movies, m@);
        },
        SystemMsg::AddMovie(m) => {
            lemma_insert(g.current_movies, yew_view_of(m@, s.username));
        },
        SystemMsg::UpdateAutocomplete(v) => {
            lemma_dedup_no_dups(display_views(v@));
        },
        _ => {},
    }
}

/// The rotation after `k` turns.
pub open spec fn rotate_times(order: Seq<Seq<char>>, k: nat) -> Seq<Seq<char>>
    decreases k,
{
    if k == 0 {
        order
    } else {
        rotate(rotate_times(order, (k - 1) as nat))
    }
}

/// After the page takes any message, the movies it shows are the movies the
/// group has put forward.
pub proof fn law_movies_in_sync(s: SystemView, stored_user: Seq<char>, msg: SystemMsg)
    ensures
        system_next(s, stored_user, msg).current_movies == system_next(
            s,
            stored_user,
            msg,
        ).group_data.current_movies,
{
}

/// Striking out a movie passes the turn to the first member of the rotation
/// and moves them to its end; the rotation keeps the same names.
pub proof fn law_turn_rotates(g: GroupDataView, m: YewMovieDisplayView)
    requires
        g.system_order.len() > 0,
    ensures
        struck_out(g, m).turn == g.system_order[0],
        struck_out(g, m).system_order.len() == g.system_order.len(),
        struck_out(g, m).system_order.last() == g.system_order[0],
        forall|i: int|
            0 <= i < g.system_order.len() - 1 ==> #[trigger] struck_out(g, m).system_order[i]
                == g.system_order[i + 1],
        struck_out(g, m).system_order.to_multiset() == g.system_order.to_multiset(),
{
    let o = g.system_order;
    assert(o =~= seq![o[0]] + o.drop_first());
    vstd::seq_lib::lemma_multiset_commutative(seq![o[0]], o.drop_first());
    vstd::seq_lib::lemma_multiset_commutative(o.drop_first(), seq![o[0]]);
    assert(rotate(o) =~= o.drop_first() + seq![o[0]]);
}

/// Members take turns in the order of the rotation: after `k` turns the
/// rotation is its last `len - k` names followed by its first `k`, so the
/// member who strikes next is the `k`-th, and after a full round the
/// rotation is back where it began.
pub proof fn law_turns_follow_rotation(order: Seq<Seq<char>>, k: nat)
    requires
        k <= order.len(),
    ensures
        rotate_times(order, k) == order.skip(k as int) + order.take(k as int),
        k < order.len() ==> rotate_times(order, k)[0] == order[k as int],
        rotate_times(order, order.len()) == order,
{
    lemma_rotate_times(order, k);
    lemma_rotate_times(order, order.len());
    assert(order.skip(order.len() as int) + order.take(order.len() as int) =~= order);
}

proof fn lemma_rotate_times(order: Seq<Seq<char>>, k: nat)
    requires
        k <= order.len(),
    ensures
        rotate_times(order, k) == order.skip(k as int) + order.take(k as int),
    decreases k,
{
    if k > 0 {
        lemma_rotate_times(order, (k - 1) as nat);
        let prev = rotate_times(order, (k - 1) as nat);
        assert(prev[0] == order[k - 1]);
        assert(rotate(prev) =~= order.skip(k as int) + order.take(k as int));
    } else {
        assert(order.skip(0) + order.take(0) =~= order);
    }
}

/// The pick is finished when two movies are left and the member whose turn
/// it is strikes one of them out.
pub proof fn law_finished_when_one_left(g: GroupDataView, m: YewMovieDisplayView)
    requires
        g.current_movies.no_duplicates(),
        g.current_movies.len() == 2,
        g.current_movies.contains(m),
    ensures
        struck_out(g, m).system_state == SystemState::Finished,
        struck_out(g, m).current_movies.len() == 1,
{
    lemma_remove(g.current_movies, m);
}

/// Striking out a movie that is put forward removes exactly that movie and
/// keeps the others; the pick is over exactly when one movie is left (or it
/// was over already).
pub proof fn law_strike_removes_one(g: GroupDataView, m: YewMovieDisplayView, other: YewMovieDisplayView)
    requires
        g.current_movies.no_duplicates(),
        g.current_movies.contains(m),
    ensures
        struck_out(g, m).current_movies.len() == g.current_movies.len() - 1,
        !struck_out(g, m).current_movies.contains(m),
        other != m ==> (struck_out(g, m).current_movies.contains(other)
            <==> g.current_movies.contains(other)),
        (struck_out(g, m).system_state == SystemState::Finished) <==> (g.current_movies.len() == 2
            || g.system_state == SystemState::Finished),
{
    lemma_remove(g.current_movies, m);
}

/// When the last member who was not ready says they are ready, the system
/// starts: the first member has the turn, and the rotation holds every
/// member's name exactly once.
pub proof fn law_ready_starts_system(s: SystemView, stored_user: Seq<char>)
    requires
        system_well_formed(s),
        s.group_data.members.len() > 0,
        forall|i: int|
            0 <= i < s.group_data.members.len() && s.group_data.members[i].username
                != stored_user ==> #[trigger] s.group_data.members[i].status.ready_status,
    ensures
        ({
            let g = system_next(s, stored_user, SystemMsg::SetReady).group_data;
            let names = member_names(s.group_data.members);
            &&& g.system_state == SystemState::SystemStarted
            &&& g.turn == names[0]
            &&& g.system_order.to_multiset() == names.to_multiset()
            &&& g.system_order.no_duplicates()
            &&& member_names(g.members) == names
        }),
{
    let g = s.group_data;
    let ms = with_ready(g.members, stored_user, true);
    assert forall|i: int| 0 <= i < ms.len() implies #[trigger] ms[i].status.ready_status by {
        if g.members[i].username != stored_user {
            assert(g.members[i].status.ready_status);
        }
    }
    lemma_with_ready_names(g.members, stored_user, true);
    let names = member_names(g.members);
    let g1 = GroupDataView { members: ms, ..g };
    let g2 = GroupDataView { system_order: names, ..g1 };
    law_turn_rotates(g2, YewMovieDisplayView {
        movie_id: Seq::empty(),
        movie_title: Seq::empty(),
        movie_year: 0,
        movie_images: crate::imdb_types::ImageDataView { url: Seq::empty(), width: 0, height: 0 },
        movie_stars: Seq::empty(),
        added_by: Seq::empty(),
    });
    names.lemma_multiset_has_no_duplicates();
    let r = rotate(names);
    assert(r.to_multiset() == names.to_multiset());
    r.lemma_multiset_has_no_duplicates_conv();
}

/// Taking back a movie that one has just put forward leaves the movies as
/// they were.
pub proof fn law_delete_undoes_add(s: SystemView, stored_user: Seq<char>, m: MovieDisplay, y: YewMovieDisplay)
    requires
        y@ == yew_view_of(m@, s.username),
        !s.group_data.current_movies.contains(y@),
    ensures
        system_next(
            system_next(s, stored_user, SystemMsg::AddMovie(m)),
            stored_user,
            SystemMsg::DeleteEntry(y),
        ).group_data.current_movies == s.group_data.current_movies,
{
    lemma_remove_inserted(s.group_data.current_movies, y@);
}

/// Putting the same movie forward twice is the same as putting it forward
/// once.
pub proof fn law_add_movie_idempotent(s: SystemView, stored_user: Seq<char>, m: MovieDisplay)
    ensures
        system_next(
            system_next(s, stored_user, SystemMsg::AddMovie(m)),
            stored_user,
            SystemMsg::AddMovie(m),
        ) == system_next(s, stored_user, SystemMsg::AddMovie(m)),
{
    let y = yew_view_of(m@, s.username);
    let cur = seq_insert(s.group_data.current_movies, y);
    if !s.group_data.current_movies.contains(y) {
        assert(cur[s.group_data.current_movies.len() as int] == y);
    }
    assert(cur.contains(y));
}

} // verus!
