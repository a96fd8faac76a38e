//! What the site stores about users and groups, and the forms that carry
//! group requests. Collections that the site treats as sets are vectors in
//! which nothing occurs twice; a group's members are kept in the order in
//! which they joined, one entry per name.
use vstd::prelude::*;
use crate::shared_types::{SystemState, YewMovieDisplay, YewMovieDisplayView};
use crate::text::concat;

verus! {

/// Where a member stands in a group's pick.
#[derive(Debug)]
pub struct UserStatus {
    pub ready_status: bool,
    pub color: String,
}

/// What a `UserStatus` holds, as plain values.
pub ghost struct UserStatusView {
    pub ready_status: bool,
    pub color: Seq<char>,
}

impl View for UserStatus {
    type V = UserStatusView;

    open spec fn view(&self) -> UserStatusView {
        UserStatusView { ready_status: self.ready_status, color: self.color@ }
    }
}

impl Clone for UserStatus {
    fn clone(&self) -> (res: Self)
        ensures
            res == *self,
    {
        UserStatus { ready_status: self.ready_status, color: self.color.clone() }
    }
}

impl UserStatus {
    /// The status of a member who has just joined: not ready, no colour.
    pub fn new() -> (res: Self)
        ensures
            res@ == fresh_status(),
    {
        UserStatus { ready_status: false, color: String::new() }
    }
}

/// The status of a member who has just joined.
pub open spec fn fresh_status() -> UserStatusView {
    UserStatusView { ready_status: false, color: Seq::empty() }
}

/// One member of a group and their status.
#[derive(Debug)]
pub struct GroupMember {
    pub username: String,
    pub status: UserStatus,
}

/// What a `GroupMember` holds, as plain values.
pub ghost struct GroupMemberView {
    pub username: Seq<char>,
    pub status: UserStatusView,
}

impl View for GroupMember {
    type V = GroupMemberView;

    open spec fn view(&self) -> GroupMemberView {
        GroupMemberView { username: self.username@, status: self.status@ }
    }
}

impl Clone for GroupMember {
    fn clone(&self) -> (res: Self)
        ensures
            res == *self,
    {
        GroupMember { username: self.username.clone(), status: self.status.clone() }
    }
}

/// A group as a member's list of groups names it.
#[derive(Debug)]
pub struct GroupInfo {
    pub name: String,
    pub uuid: String,
}

/// What a `GroupInfo` holds, as plain values.
pub ghost struct GroupInfoView {
    pub name: Seq<char>,
    pub uuid: Seq<char>,
}

impl View for GroupInfo {
    type V = GroupInfoView;

    open spec fn view(&self) -> GroupInfoView {
        GroupInfoView { name: self.name@, uuid: self.uuid@ }
    }
}

impl Clone for GroupInfo {
    fn clone(&self) -> (res: Self)
        ensures
            res == *self,
    {
        GroupInfo { name: self.name.clone(), uuid: self.uuid.clone() }
    }
}

/// How a `GroupInfo` is printed.
pub open spec fn group_info_text(g: GroupInfoView) -> Seq<char> {
    "(GroupInfo: uuid: "@ + g.uuid + ", name: "@ + g.name + ")"@
}

impl GroupInfo {
    /// The printed form: `(GroupInfo: uuid: <uuid>, name: <name>)`.
    pub fn display_string(&self) -> (res: String)
        ensures
            res@ == group_info_text(self@),
    {
        let a = concat("(GroupInfo: uuid: ", self.uuid.as_str());
        let b = concat(a.as_str(), ", name: ");
        let c = concat(b.as_str(), self.name.as_str());
        concat(c.as_str(), ")")
    }
}

/// The names of the members, in order.
pub open spec fn member_names(members: Seq<GroupMemberView>) -> Seq<Seq<char>> {
    members.map_values(|m: GroupMemberView| m.username)
}

/// The views of a vector of members.
pub open spec fn member_views(v: Seq<GroupMember>) -> Seq<GroupMemberView> {
    v.map_values(|m: GroupMember| m@)
}

/// The views of a vector of strings.
pub open spec fn text_views(v: Seq<String>) -> Seq<Seq<char>> {
    v.map_values(|s: String| s@)
}

/// The views of a vector of movies put forward.
pub open spec fn movie_views(v: Seq<YewMovieDisplay>) -> Seq<YewMovieDisplayView> {
    v.map_values(|m: YewMovieDisplay| m@)
}

/// The views of a vector of group entries.
pub open spec fn info_views(v: Seq<GroupInfo>) -> Seq<GroupInfoView> {
    v.map_values(|g: GroupInfo| g@)
}

/// Everything the site knows about a group.
#[derive(Debug)]
pub struct GroupData {
    pub group_name: String,
    pub members: Vec<GroupMember>,
    pub system_order: Vec<String>,
    pub movies_watched: Vec<String>,
    pub current_movies: Vec<YewMovieDisplay>,
    pub system_state: SystemState,
    pub turn: String,
    pub date_created: i64,
    pub date_modified: i64,
}

/// What a `GroupData` holds, as plain values.
pub ghost struct GroupDataView {
    pub group_name: Seq<char>,
    pub members: Seq<GroupMemberView>,
    pub system_order: Seq<Seq<char>>,
    pub movies_watched: Seq<Seq<char>>,
    pub current_movies: Seq<YewMovieDisplayView>,
    pub system_state: SystemState,
    pub turn: Seq<char>,
    pub date_created: i64,
    pub date_modified: i64,
}

impl View for GroupData {
    type V = GroupDataView;

    open spec fn view(&self) -> GroupDataView {
        GroupDataView {
            group_name: self.group_name@,
            members: member_views(self.members@),
            system_order: text_views(self.system_order@),
            movies_watched: text_views(self.movies_watched@),
            current_movies: movie_views(self.current_movies@),
            system_state: self.system_state,
            turn: self.turn@,
            date_created: self.date_created,
            date_modified: self.date_modified,
        }
    }
}

/// A group is well formed when no name is a member twice and neither the
/// watched movies nor the movies put forward hold anything twice.
pub open spec fn group_well_formed(g: GroupDataView) -> bool {
    &&& member_names(g.members).no_duplicates()
    &&& g.movies_watched.no_duplicates()
    &&& g.current_movies.no_duplicates()
}

/// A copy of a vector of members.
pub fn copy_members(v: &Vec<GroupMember>) -> (res: Vec<GroupMember>)
    ensures
        res@ == v@,
{
    let res = v.clone();
    proof {
        assert(res@ =~= v@);
    }
    res
}

/// A copy of a vector of strings.
pub fn copy_texts(v: &Vec<String>) -> (res: Vec<String>)
    ensures
        res@ == v@,
{
    let res = v.clone();
    proof {
        assert(res@ =~= v@);
    }
    res
}

/// A copy of a vector of movies put forward.
pub fn copy_movies(v: &Vec<YewMovieDisplay>) -> (res: Vec<YewMovieDisplay>)
    ensures
        res@ == v@,
{
    let res = v.clone();
    proof {
        assert(res@ =~= v@);
    }
    res
}

impl Clone for GroupData {
    fn clone(&self) -> (res: Self)
        ensures
            res@ == self@,
    {
        GroupData {
            group_name: self.group_name.clone(),
            members: copy_members(&self.members),
            system_order: copy_texts(&self.system_order),
            movies_watched: copy_texts(&self.movies_watched),
            current_movies: copy_movies(&self.current_movies),
            system_state: self.system_state,
            turn: self.turn.clone(),
            date_created: self.date_created,
            date_modified: self.date_modified,
        }
    }
}

/// The empty group: no name, no members, nothing watched or put forward,
/// adding movies, nobody's turn, dated zero.
pub open spec fn empty_group() -> GroupDataView {
    GroupDataView {
        group_name: Seq::empty(),
        members: Seq::empty(),
        system_order: Seq::empty(),
        movies_watched: Seq::empty(),
        current_movies: Seq::empty(),
        system_state: SystemState::AddingMovies,
        turn: Seq::empty(),
        date_created: 0,
        date_modified: 0,
    }
}

/// A group together with its id, as the database holds it.
#[derive(Debug)]
pub struct DBGroupStruct {
    pub id: String,
    pub group_data: GroupData,
}

impl Clone for DBGroupStruct {
    fn clone(&self) -> (res: Self)
        ensures
            res.id == self.id,
            res.group_data@ == self.group_data@,
    {
        DBGroupStruct { id: self.id.clone(), group_data: self.group_data.clone() }
    }
}

impl GroupData {
    /// The empty group.
    pub fn new_empty() -> (res: GroupData)
        ensures
            res@ == empty_group(),
            group_well_formed(res@),
    {
        let res = GroupData {
            group_name: String::new(),
            members: Vec::new(),
            system_order: Vec::new(),
            movies_watched: Vec::new(),
            current_movies: Vec::new(),
            system_state: SystemState::AddingMovies,
            turn: String::new(),
            date_created: 0,
            date_modified: 0,
        };
        proof {
            assert(res@.members =~= Seq::<GroupMemberView>::empty());
            assert(res@.system_order =~= Seq::<Seq<char>>::empty());
            assert(res@.movies_watched =~= Seq::<Seq<char>>::empty());
            assert(res@.current_movies =~= Seq::<YewMovieDisplayView>::empty());
            assert(member_names(res@.members) =~= Seq::<Seq<char>>::empty());
        }
        res
    }

    /// This group under the id `id`.
    pub fn into_db_group_struct(self, id: &str) -> (res: DBGroupStruct)
        ensures
            res.id@ == id@,
            res.group_data == self,
    {
        DBGroupStruct { id: id.to_owned(), group_data: self }
    }
}

/// A stored group row: its id and its data as JSON text.
#[derive(Debug)]
pub struct DBGroup {
    pub id: String,
    pub data: String,
}

/// A stored user row: the name and the data as JSON text.
#[derive(Debug)]
pub struct DBUser {
    pub username: String,
    pub data: String,
}

/// What the site knows about a user.
#[derive(Debug)]
pub struct UserData {
    pub id: String,
    pub hashed_password: String,
    pub salt: String,
    pub groups: Vec<GroupInfo>,
    pub date_created: i64,
    pub date_modified: i64,
}

/// What a `UserData` holds, as plain values.
pub ghost struct UserDataView {
    pub id: Seq<char>,
    pub hashed_password: Seq<char>,
    pub salt: Seq<char>,
    pub groups: Seq<GroupInfoView>,
    pub date_created: i64,
    pub date_modified: i64,
}

impl View for UserData {
    type V = UserDataView;

    open spec fn view(&self) -> UserDataView {
        UserDataView {
            id: self.id@,
            hashed_password: self.hashed_password@,
            salt: self.salt@,
            groups: info_views(self.groups@),
            date_created: self.date_created,
            date_modified: self.date_modified,
        }
    }
}

/// A user together with their name, as the database holds it.
#[derive(Debug)]
pub struct DBUserStruct {
    pub username: String,
    pub user_data: UserData,
}

/// What a user submits to register or log in.
#[derive(Debug)]
pub struct UserInfo {
    pub username: String,
    pub password: String,
}

/// A request to create a group.
#[derive(Debug)]
pub struct GroupForm {
    pub username: String,
    pub group_name: String,
}

/// The movies a member saves for a group.
#[derive(Debug)]
pub struct GroupMoviesForm {
    pub username: String,
    pub group_id: String,
    pub current_movies: Vec<YewMovieDisplay>,
}

/// The stored text that lists a user's groups, if any.
#[derive(Debug)]
pub struct GroupNames {
    pub groups: Option<String>,
}

/// A user's groups.
#[derive(Debug)]
pub struct UserGroupsJson {
    pub groups: Vec<GroupInfo>,
}

/// The ids of a user's groups.
#[derive(Debug)]
pub struct GroupsId {
    pub groups: Vec<String>,
}

/// The user to add to a group.
#[derive(Debug)]
pub struct AddUser {
    pub username: String,
}

/// A user and the group they are adding movies to.
#[derive(Debug)]
pub struct UserGroup {
    pub username: String,
    pub group_name: String,
}

/// The members column of a stored group.
#[derive(Debug)]
pub struct GroupMembers {
    pub members: String,
}

/// The name column of a stored group.
#[derive(Debug)]
pub struct GroupName {
    pub name: String,
}

/// The groups column of a stored user.
#[derive(Debug)]
pub struct UserGroups {
    pub groups: Option<String>,
}

/// The current-movies column of a stored group.
#[derive(Debug)]
pub struct GroupCurrentMovies {
    pub current_movies: Option<String>,
}

/// The id column of a stored group.
#[derive(Debug)]
pub struct GroupId {
    pub id: String,
}

/// One rating of a movie as the OMDb service reports it.
#[allow(non_snake_case)]
#[derive(Debug)]
pub struct OmdbRatings {
    pub Source: String,
    pub Value: String,
}

/// A movie as the OMDb service reports it.
#[allow(non_snake_case)]
#[derive(Debug)]
pub struct OmdbStruct {
    pub Title: String,
    pub Year: String,
    pub Rated: String,
    pub Released: String,
    pub Runtime: String,
    pub Genre: String,
    pub Director: String,
    pub Writer: String,
    pub Actors: String,
    pub Plot: String,
    pub Language: String,
    pub Country: String,
    pub Awards: String,
    pub Poster: String,
    pub Ratings: Vec<OmdbRatings>,
    pub Metascore: String,
    pub imdbRating: String,
    pub imdbVotes: String,
    pub imdbID: String,
    pub Type: String,
    pub DVD: String,
    pub BoxOffice: String,
    pub Production: String,
    pub Website: String,
    pub Response: String,
}

} // verus!
