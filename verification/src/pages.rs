//! The decisions of the site's smaller pages: the login form, the list of a
//! user's groups, a group's page, and the sign-in status of the whole site.
//! Each page takes a message and returns what is to be done; the page itself
//! performs the requests and the browser storage.
use vstd::prelude::*;
use crate::auth::Claims;
use crate::front_error::Error;
use crate::group_types::{info_views, DBGroupStruct, GroupData, GroupDataView, GroupInfo, UserInfo};
use crate::membership::insert_info;
use crate::system::dedup;

verus! {

/// The tokens that a successful login hands out.
#[derive(Debug)]
pub struct TokenResponse {
    pub access_token: String,
    pub refresh_token: Option<String>,
}

/// The login form.
#[derive(Debug)]
pub struct Login {
    pub username: String,
    pub password: String,
    pub error: Option<Error>,
}

/// What happens on the login form. Typed text arrives as the input box's
/// text, or `None` where the event came from no input box.
#[derive(Debug)]
pub enum LoginMsg {
    SetUsername(Option<String>),
    SetPassword(Option<String>),
    VerifyLogin,
    SetToken(TokenResponse),
    AuthorizeCheck,
    Logout,
    Noop,
    SetError(Option<Error>),
}

/// What the login form asks to be done.
#[derive(Debug)]
pub enum LoginAction {
    Nothing,
    /// Empty the browser's storage.
    ClearStorage,
    /// Confirm the stored tokens; the answer comes back as `Noop`.
    CheckAuthorization,
    /// Log in with these credentials; the answer is handed to
    /// `login_answer`.
    RequestLogin(UserInfo),
    /// Store these tokens in the browser.
    StoreTokens { access_token: String, refresh_token: String },
}

impl Login {
    /// An empty form.
    pub fn new() -> (res: Self)
        ensures
            res.username@.len() == 0 && res.password@.len() == 0 && res.error is None,
    {
        Login { username: String::new(), password: String::new(), error: None }
    }

    /// Takes the message `msg` and returns what is to be done. The tokens of
    /// a successful login always hold a refresh token.
    pub fn update(&mut self, msg: LoginMsg) -> (action: LoginAction)
        requires
            msg matches LoginMsg::SetToken(t) ==> t.refresh_token is Some,
        ensures
            match msg {
                LoginMsg::SetUsername(t) => {
                    &&& final(self).username@ == (match t {
                        Some(v) => v@,
                        None => old(self).username@,
                    })
                    &&& final(self).password@ == old(self).password@
                    &&& final(self).error == old(self).error
                    &&& action is Nothing
                },
                LoginMsg::SetPassword(t) => {
                    &&& final(self).password@ == (match t {
                        Some(v) => v@,
                        None => old(self).password@,
                    })
                    &&& final(self).username@ == old(self).username@
                    &&& final(self).error == old(self).error
                    &&& action is Nothing
                },
                LoginMsg::SetError(e) => {
                    &&& final(self).error == e
                    &&& final(self).username@ == old(self).username@
                    &&& final(self).password@ == old(self).password@
                    &&& action is Nothing
                },
                LoginMsg::VerifyLogin => {
                    &&& final(self).username@ == old(self).username@
                    &&& final(self).password@ == old(self).password@
                    &&& final(self).error == old(self).error
                    &&& action matches LoginAction::RequestLogin(u) && u.username@
                        == old(self).username@ && u.password@ == old(self).password@
                },
                LoginMsg::SetToken(t) => {
                    &&& final(self).username@ == old(self).username@
                    &&& final(self).password@ == old(self).password@
                    &&& final(self).error == old(self).error
                    &&& action matches LoginAction::StoreTokens { access_token, refresh_token }
                        && access_token@ == t.access_token@ && refresh_token@
                        == t.refresh_token.unwrap()@
                },
                LoginMsg::AuthorizeCheck => {
                    &&& final(self).username@ == old(self).username@
                    &&& final(self).password@ == old(self).password@
                    &&& final(self).error == old(self).error
                    &&& action is CheckAuthorization
                },
                LoginMsg::Logout => {
                    &&& final(self).username@ == old(self).username@
                    &&& final(self).password@ == old(self).password@
                    &&& final(self).error == old(self).error
                    &&& action is ClearStorage
                },
                LoginMsg::Noop => {
                    &&& final(self).username@ == old(self).username@
                    &&& final(self).password@ == old(self).password@
                    &&& final(self).error == old(self).error
                    &&& action is Nothing
                },
            },
    {
        match msg {
            LoginMsg::SetUsername(text) => {
                match text {
                    Some(v) => {
                        self.username = v;
                    },
                    None => {},
                }
                LoginAction::Nothing
            },
            LoginMsg::SetPassword(text) => {
                match text {
                    Some(v) => {
                        self.password = v;
                    },
                    None => {},
                }
                LoginAction::Nothing
            },
            LoginMsg::SetError(err) => {
                self.error = err;
                LoginAction::Nothing
            },
            LoginMsg::Logout => LoginAction::ClearStorage,
            LoginMsg::Noop => LoginAction::Nothing,
            LoginMsg::AuthorizeCheck => LoginAction::CheckAuthorization,
            LoginMsg::VerifyLogin => LoginAction::RequestLogin(
                UserInfo { username: self.username.clone(), password: self.password.clone() },
            ),
            LoginMsg::SetToken(token) => {
                let refresh_token = match token.refresh_token {
                    Some(r) => r,
                    None => String::new(),
                };
                LoginAction::StoreTokens { access_token: token.access_token, refresh_token }
            },
        }
    }
}

/// The message that the answer to a login request becomes: the tokens, or
/// the login error where the request failed.
pub fn login_answer(answer: Option<TokenResponse>) -> (res: LoginMsg)
    ensures
        match answer {
            Some(t) => res matches LoginMsg::SetToken(u) && u.access_token == t.access_token
                && u.refresh_token == t.refresh_token,
            None => res matches LoginMsg::SetError(Some(Error::LogInError)),
        },
{
    match answer {
        Some(t) => LoginMsg::SetToken(t),
        None => LoginMsg::SetError(Some(Error::LogInError)),
    }
}

/// Whether the site has a signed-in user, and who, until when.
#[derive(Debug)]
pub struct AuthStatus {
    pub status: bool,
    pub username: Option<String>,
    pub exp: Option<i64>,
}

/// The sign-in status that confirming the token gives: signed in as the token's
/// user until its expiry, or signed out where the token was not confirmed.
pub fn auth_status_from(claims: Option<Claims>) -> (res: AuthStatus)
    ensures
        match claims {
            Some(c) => res.status && res.username == Some(c.username) && res.exp == Some(c.exp),
            None => !res.status && res.username is None && res.exp is None,
        },
{
    match claims {
        Some(c) => AuthStatus { status: true, username: Some(c.username), exp: Some(c.exp) },
        None => AuthStatus { status: false, username: None, exp: None },
    }
}

/// The page that lists a user's groups and creates new ones.
#[derive(Debug)]
pub struct Groups {
    pub add_user: String,
    pub create_group_name: String,
    pub leave_group_name: String,
    pub group_add: String,
    pub current_groups: Vec<GroupInfo>,
}

/// What happens on the groups page.
#[derive(Debug)]
pub enum GroupsMsg {
    Noop,
    UpdateGroups(Vec<GroupInfo>),
    CreateGroup,
    CreateGroupName(Option<String>),
    GetAllGroups,
}

/// What the groups page asks to be done.
#[derive(Debug)]
pub enum GroupsAction {
    Nothing,
    /// Store this list of groups in the browser.
    StoreGroups(Vec<GroupInfo>),
    /// Fetch the user's groups; the answer comes back as `UpdateGroups`.
    FetchGroups,
    /// Create the group `group_name` for `username`; the answer comes back as
    /// `GetAllGroups`.
    CreateGroup { username: String, group_name: String },
}

impl Groups {
    /// An empty page, and the first request for the user's groups.
    pub fn new() -> (res: (Self, GroupsMsg))
        ensures
            res.0.current_groups@.len() == 0,
            res.0.create_group_name@.len() == 0,
            res.1 is GetAllGroups,
    {
        (
            Groups {
                add_user: String::new(),
                create_group_name: String::new(),
                leave_group_name: String::new(),
                group_add: String::new(),
                current_groups: Vec::new(),
            },
            GroupsMsg::GetAllGroups,
        )
    }

    /// Takes the message `msg`; `username` is the name the browser has
    /// stored. Returns what is to be done.
    pub fn update(&mut self, username: String, msg: GroupsMsg) -> (action: GroupsAction)
        ensures
            final(self).add_user == old(self).add_user,
            final(self).leave_group_name == old(self).leave_group_name,
            final(self).group_add == old(self).group_add,
            match msg {
                GroupsMsg::UpdateGroups(gs) => {
                    &&& info_views(final(self).current_groups@) == dedup(info_views(gs@))
                    &&& final(self).create_group_name@ == old(self).create_group_name@
                    &&& action matches GroupsAction::StoreGroups(v) && info_views(v@)
                        == info_views(gs@)
                },
                GroupsMsg::CreateGroupName(t) => {
                    &&& final(self).create_group_name@ == (match t {
                        Some(v) => v@,
                        None => old(self).create_group_name@,
                    })
                    &&& final(self).current_groups@ == old(self).current_groups@
                    &&& action is Nothing
                },
                GroupsMsg::CreateGroup => {
                    &&& final(self).create_group_name@ == old(self).create_group_name@
                    &&& final(self).current_groups@ == old(self).current_groups@
                    &&& action matches GroupsAction::CreateGroup { username: u, group_name: g }
                        && u@ == username@ && g@ == old(self).create_group_name@
                },
                GroupsMsg::GetAllGroups => {
                    &&& final(self).create_group_name@ == old(self).create_group_name@
                    &&& final(self).current_groups@ == old(self).current_groups@
                    &&& action is FetchGroups
                },
                GroupsMsg::Noop => {
                    &&& final(self).create_group_name@ == old(self).create_group_name@
                    &&& final(self).current_groups@ == old(self).current_groups@
                    &&& action is Nothing
                },
            },
    {
        match msg {
            GroupsMsg::Noop => GroupsAction::Nothing,
            GroupsMsg::UpdateGroups(groups) => {
                let mut set: Vec<GroupInfo> = Vec::new();
                let mut i: usize = 0;
                proof {
                    assert(info_views(groups@).take(0) =~= Seq::<crate::group_types::GroupInfoView>::empty());
                    assert(info_views(set@) =~= Seq::<crate::group_types::GroupInfoView>::empty());
                }
                while i < groups.len()
                    invariant
                        i <= groups.len(),
                        info_views(set@) == dedup(info_views(groups@).take(i as int)),
                    decreases groups.len() - i,
                {
                    proof {
                        let gv = info_views(groups@);
                        assert(gv.take(i + 1).drop_last() =~= gv.take(i as int));
                        assert(gv.take(i + 1).last() == groups@[i as int]@);
                    }
                    insert_info(&mut set, groups[i].clone());
                    i = i + 1;
                }
                proof {
                    assert(info_views(groups@).take(i as int) =~= info_views(groups@));
                }
                self.current_groups = set;
                GroupsAction::StoreGroups(groups)
            },
            GroupsMsg::GetAllGroups => GroupsAction::FetchGroups,
            GroupsMsg::CreateGroupName(text) => {
                match text {
                    Some(v) => {
                        self.create_group_name = v;
                    },
                    None => {},
                }
                GroupsAction::Nothing
            },
            GroupsMsg::CreateGroup => GroupsAction::CreateGroup {
                username,
                group_name: self.create_group_name.clone(),
            },
        }
    }
}

/// The page of all of a user's groups.
#[derive(Debug)]
pub struct AllGroups {
    pub username: Option<String>,
    pub add_user: String,
    pub create_group_name: String,
    pub leave_group_name: String,
    pub group_add: String,
    pub current_groups: Vec<GroupInfo>,
}

/// What happens on the page of all groups.
#[derive(Debug)]
pub enum AllGroupsMsg {
    Noop,
    UpdateGroups(Vec<GroupInfo>),
    CreateGroup,
    CreateGroupName(Option<String>),
    GetAllGroups,
}

impl AllGroups {
    /// The page for the stored user, if any, and the first request for the
    /// groups.
    pub fn new(username: Option<String>) -> (res: (Self, AllGroupsMsg))
        ensures
            res.0.username == username,
            res.0.current_groups@.len() == 0,
            res.0.create_group_name@.len() == 0,
            res.1 is GetAllGroups,
    {
        (
            AllGroups {
                username,
                add_user: String::new(),
                create_group_name: String::new(),
                leave_group_name: String::new(),
                group_add: String::new(),
                current_groups: Vec::new(),
            },
            AllGroupsMsg::GetAllGroups,
        )
    }

    /// Takes the message `msg` and returns what is to be done; a group is
    /// only created for a stored user.
    pub fn update(&mut self, msg: AllGroupsMsg) -> (action: GroupsAction)
        ensures
            final(self).username == old(self).username,
            final(self).add_user == old(self).add_user,
            match msg {
                AllGroupsMsg::UpdateGroups(gs) => {
                    &&& final(self).current_groups@ == gs@
                    &&& final(self).create_group_name == old(self).create_group_name
                    &&& action is Nothing
                },
                AllGroupsMsg::CreateGroupName(t) => {
                    &&& final(self).create_group_name@ == (match t {
                        Some(v) => v@,
                        None => old(self).create_group_name@,
                    })
                    &&& final(self).current_groups@ == old(self).current_groups@
                    &&& action is Nothing
                },
                AllGroupsMsg::CreateGroup => {
                    &&& final(self).create_group_name == old(self).create_group_name
                    &&& final(self).current_groups@ == old(self).current_groups@
                    &&& match old(self).username {
                        Some(u) => action matches GroupsAction::CreateGroup {
                            username,
                            group_name,
                        } && username@ == u@ && group_name@ == old(self).create_group_name@,
                        None => action is Nothing,
                    }
                },
                AllGroupsMsg::GetAllGroups => {
                    &&& final(self).create_group_name == old(self).create_group_name
                    &&& final(self).current_groups@ == old(self).current_groups@
                    &&& action is FetchGroups
                },
                AllGroupsMsg::Noop => {
                    &&& final(self).create_group_name == old(self).create_group_name
                    &&& final(self).current_groups@ == old(self).current_groups@
                    &&& action is Nothing
                },
            },
    {
        match msg {
            AllGroupsMsg::Noop => GroupsAction::Nothing,
            AllGroupsMsg::UpdateGroups(groups) => {
                self.current_groups = groups;
                GroupsAction::Nothing
            },
            AllGroupsMsg::GetAllGroups => GroupsAction::FetchGroups,
            AllGroupsMsg::CreateGroupName(text) => {
                match text {
                    Some(v) => {
                        self.create_group_name = v;
                    },
                    None => {},
                }
                GroupsAction::Nothing
            },
            AllGroupsMsg::CreateGroup => match &self.username {
                Some(u) => GroupsAction::CreateGroup {
                    username: u.clone(),
                    group_name: self.create_group_name.clone(),
                },
                None => GroupsAction::Nothing,
            },
        }
    }
}

/// A user's page; `P` is the profile that the server sends, which the page
/// only keeps.
#[derive(Debug)]
pub struct User<P> {
    pub username: String,
    pub user_profile: Option<P>,
    pub create_group_name: String,
    pub all_groups: Vec<GroupInfo>,
}

/// What happens on a user's page.
#[derive(Debug)]
pub enum UserMsg<P> {
    Noop,
    GetUserProfile,
    CreateGroup,
    CreateGroupName(Option<String>),
    GetAllGroups,
    UpdateGroups(Vec<GroupInfo>),
    UpdateUserProfile(P),
}

/// What a user's page asks to be done.
#[derive(Debug)]
pub enum UserAction {
    Nothing,
    /// Fetch the profile of this user; the answer comes back as
    /// `UpdateUserProfile`, or `Noop`.
    FetchProfile(String),
    /// Fetch the user's groups; the answer comes back as `UpdateGroups`, or
    /// `Noop`.
    FetchGroups,
    /// Create the group `group_name` for `username`; the answer comes back
    /// as `GetAllGroups`.
    CreateGroup { username: String, group_name: String },
    /// Hand `GetAllGroups` to the page.
    AskForGroups,
}

impl<P> User<P> {
    /// The page of `username`, nothing loaded yet, and the first request
    /// for the profile.
    pub fn new(username: String) -> (res: (Self, UserMsg<P>))
        ensures
            res.0.username == username,
            res.0.user_profile is None,
            res.0.create_group_name@.len() == 0,
            res.0.all_groups@.len() == 0,
            res.1 is GetUserProfile,
    {
        (
            User {
                username,
                user_profile: None,
                create_group_name: String::new(),
                all_groups: Vec::new(),
            },
            UserMsg::GetUserProfile,
        )
    }

    /// Takes the message `msg` and returns what is to be done.
    pub fn update(&mut self, msg: UserMsg<P>) -> (action: UserAction)
        ensures
            final(self).username == old(self).username,
            match msg {
                UserMsg::UpdateUserProfile(p) => {
                    &&& final(self).user_profile == Some(p)
                    &&& final(self).create_group_name == old(self).create_group_name
                    &&& final(self).all_groups@ == old(self).all_groups@
                    &&& action is AskForGroups
                },
                UserMsg::UpdateGroups(gs) => {
                    &&& final(self).all_groups@ == gs@
                    &&& final(self).user_profile == old(self).user_profile
                    &&& final(self).create_group_name == old(self).create_group_name
                    &&& action is Nothing
                },
                UserMsg::CreateGroupName(t) => {
                    &&& final(self).create_group_name@ == (match t {
                        Some(v) => v@,
                        None => old(self).create_group_name@,
                    })
                    &&& final(self).user_profile == old(self).user_profile
                    &&& final(self).all_groups@ == old(self).all_groups@
                    &&& action is Nothing
                },
                _ => {
                    &&& final(self).user_profile == old(self).user_profile
                    &&& final(self).create_group_name == old(self).create_group_name
                    &&& final(self).all_groups@ == old(self).all_groups@
                    &&& match msg {
                        UserMsg::GetUserProfile => action matches UserAction::FetchProfile(u)
                            && u@ == old(self).username@,
                        UserMsg::GetAllGroups => action is FetchGroups,
                        UserMsg::CreateGroup => action matches UserAction::CreateGroup {
                            username,
                            group_name,
                        } && username@ == old(self).username@ && group_name@ == old(
                            self,
                        ).create_group_name@,
                        _ => action is Nothing,
                    }
                },
            },
    {
        match msg {
            UserMsg::Noop => UserAction::Nothing,
            UserMsg::GetUserProfile => UserAction::FetchProfile(self.username.clone()),
            UserMsg::GetAllGroups => UserAction::FetchGroups,
            UserMsg::CreateGroupName(text) => {
                match text {
                    Some(v) => {
                        self.create_group_name = v;
                    },
                    None => {},
                }
                UserAction::Nothing
            },
            UserMsg::CreateGroup => UserAction::CreateGroup {
                username: self.username.clone(),
                group_name: self.create_group_name.clone(),
            },
            UserMsg::UpdateGroups(groups) => {
                self.all_groups = groups;
                UserAction::Nothing
            },
            UserMsg::UpdateUserProfile(profile) => {
                self.user_profile = Some(profile);
                UserAction::AskForGroups
            },
        }
    }
}

/// A group's page.
#[derive(Debug)]
pub struct Group {
    pub group_id: String,
    pub group_data: Option<GroupData>,
    pub add_user: String,
}

/// What happens on a group's page.
#[derive(Debug)]
pub enum GroupMsg {
    Noop,
    GetGroupData,
    UpdateGroupData(DBGroupStruct),
    SetAddUser(Option<String>),
    AddUser,
    Leave,
    Error(String),
}

/// What a group's page asks to be done.
#[derive(Debug)]
pub enum GroupAction {
    Nothing,
    /// Fetch this group; the answer comes back as `UpdateGroupData`, or
    /// `Error`.
    FetchGroupData(String),
    /// Add the user to the group; the answer comes back as `Noop`.
    AddUser { group_id: String, username: String },
    /// Leave the group; the answer comes back as `Noop`.
    Leave(String),
}

/// The group shown, by its view.
pub open spec fn shown_group(g: Option<GroupData>) -> Option<GroupDataView> {
    match g {
        Some(d) => Some(d@),
        None => None,
    }
}

impl Group {
    /// The page of the group `id`, nothing loaded yet, and the first request
    /// for its data.
    pub fn new(id: String) -> (res: (Self, GroupMsg))
        ensures
            res.0.group_id == id,
            res.0.group_data is None,
            res.0.add_user@.len() == 0,
            res.1 is GetGroupData,
    {
        (Group { group_id: id, group_data: None, add_user: String::new() }, GroupMsg::GetGroupData)
    }

    /// Takes the message `msg` and returns what is to be done.
    pub fn update(&mut self, msg: GroupMsg) -> (action: GroupAction)
        ensures
            match msg {
                GroupMsg::UpdateGroupData(gs) => {
                    &&& shown_group(final(self).group_data) == Some(gs.group_data@)
                    &&& final(self).group_id == gs.id
                    &&& final(self).add_user == old(self).add_user
                    &&& action is Nothing
                },
                GroupMsg::SetAddUser(t) => {
                    &&& final(self).add_user@ == (match t {
                        Some(v) => v@,
                        None => old(self).add_user@,
                    })
                    &&& final(self).group_id == old(self).group_id
                    &&& shown_group(final(self).group_data) == shown_group(old(self).group_data)
                    &&& action is Nothing
                },
                _ => {
                    &&& final(self).group_id == old(self).group_id
                    &&& final(self).add_user == old(self).add_user
                    &&& shown_group(final(self).group_data) == shown_group(old(self).group_data)
                    &&& match msg {
                        GroupMsg::GetGroupData => action matches GroupAction::FetchGroupData(id)
                            && id@ == old(self).group_id@,
                        GroupMsg::AddUser => action matches GroupAction::AddUser {
                            group_id,
                            username,
                        } && group_id@ == old(self).group_id@ && username@ == old(self).add_user@,
                        GroupMsg::Leave => action matches GroupAction::Leave(id) && id@ == old(
                            self,
                        ).group_id@,
                        _ => action is Nothing,
                    }
                },
            },
    {
        let group_id = self.group_id.clone();
        match msg {
            GroupMsg::Noop => GroupAction::Nothing,
            GroupMsg::GetGroupData => GroupAction::FetchGroupData(group_id),
            GroupMsg::UpdateGroupData(group_struct) => {
                self.group_data = Some(group_struct.group_data);
                self.group_id = group_struct.id;
                GroupAction::Nothing
            },
            GroupMsg::AddUser => GroupAction::AddUser {
                group_id,
                username: self.add_user.clone(),
            },
            GroupMsg::SetAddUser(text) => {
                match text {
                    Some(v) => {
                        self.add_user = v;
                    },
                    None => {},
                }
                GroupAction::Nothing
            },
            GroupMsg::Leave => GroupAction::Leave(group_id),
            GroupMsg::Error(_) => GroupAction::Nothing,
        }
    }
}

} // verus!
