//! Who belongs to which group: checking a member, adding a user to a group,
//! a user leaving a group, and the records made when a group or a user is
//! created.
use vstd::prelude::*;
use crate::errors::WarpRejections;
use crate::group_types::{
    fresh_status, group_well_formed, info_views, member_names, member_views, DBGroupStruct,
    DBUserStruct, GroupData, GroupDataView, GroupForm, GroupInfo, GroupInfoView, GroupMember,
    GroupMemberView, UserData, UserDataView, UserInfo, UserStatus,
};
use crate::imdb_types::same_text;
use crate::setlike::{differs_from, lemma_insert, lemma_remove, lemma_remove_inserted, seq_insert, seq_remove};
use crate::shared_types::SystemState;

verus! {

/// The members `ms` with `name` added as a fresh member at the end, unless
/// the name is a member already.
pub open spec fn members_with(ms: Seq<GroupMemberView>, name: Seq<char>) -> Seq<GroupMemberView> {
    if member_names(ms).contains(name) {
        ms
    } else {
        ms.push(GroupMemberView { username: name, status: fresh_status() })
    }
}

/// The members `ms` without the one named `name`.
pub open spec fn members_without(ms: Seq<GroupMemberView>, name: Seq<char>) -> Seq<
    GroupMemberView,
> {
    ms.filter(not_named(name))
}

/// The test that keeps the members not named `name`.
pub open spec fn not_named(name: Seq<char>) -> spec_fn(GroupMemberView) -> bool {
    |m: GroupMemberView| m.username != name
}

/// The entry by which a user's list names the group `id` called `name`.
pub open spec fn info_of(id: Seq<char>, name: Seq<char>) -> GroupInfoView {
    GroupInfoView { name, uuid: id }
}

/// The position of `name` among the members, if it is one.
pub fn find_member(members: &Vec<GroupMember>, name: &str) -> (res: Option<usize>)
    ensures
        match res {
            Some(i) => i < members.len() && members@[i as int].username@ == name@,
            None => !member_names(member_views(members@)).contains(name@),
        },
{
    let mut i: usize = 0;
    while i < members.len()
        invariant
            i <= members.len(),
            forall|k: int| 0 <= k < i ==> members@[k].username@ != name@,
        decreases members.len() - i,
    {
        if same_text(members[i].username.as_str(), name) {
            return Some(i);
        }
        i = i + 1;
    }
    proof {
        let names = member_names(member_views(members@));
        if names.contains(name@) {
            let k = choose|k: int| 0 <= k < names.len() && names[k] == name@;
            assert(members@[k].username@ == names[k]);
        }
    }
    None
}

/// Adds `name` as a fresh member at the end, unless it is a member already.
pub fn add_member(members: &mut Vec<GroupMember>, name: &str)
    ensures
        member_views(final(members)@) == members_with(member_views(old(members)@), name@),
{
    match find_member(members, name) {
        Some(i) => {
            proof {
                assert(member_names(member_views(members@))[i as int] == name@);
            }
        },
        None => {
            members.push(GroupMember { username: name.to_owned(), status: UserStatus::new() });
            proof {
                assert(member_views(members@) =~= member_views(old(members)@).push(
                    GroupMemberView { username: name@, status: fresh_status() },
                ));
            }
        },
    }
}

/// Removes the member named `name`, if there is one.
pub fn remove_member(members: &mut Vec<GroupMember>, name: &str)
    ensures
        member_views(final(members)@) == members_without(member_views(old(members)@), name@),
{
    let ghost p = not_named(name@);
    let ghost orig = member_views(members@);
    let mut kept: Vec<GroupMember> = Vec::new();
    let mut i: usize = 0;
    while i < members.len()
        invariant
            i <= members.len(),
            orig == member_views(members@),
            p == not_named(name@),
            member_views(kept@) == orig.take(i as int).filter(p),
        decreases members.len() - i,
    {
        proof {
            assert(orig.take(i + 1) =~= orig.take(i as int).push(orig[i as int]));
            orig.take(i as int).lemma_filter_push(orig[i as int], p);
        }
        if !same_text(members[i].username.as_str(), name) {
            let m = members[i].clone();
            kept.push(m);
            proof {
                assert(member_views(kept@) =~= orig.take(i as int).filter(p).push(orig[i as int]));
            }
        }
        i = i + 1;
    }
    proof {
        assert(orig.take(i as int) =~= orig);
    }
    *members = kept;
}

/// The names of the members after a removal are the names before, with the
/// removed one taken out.
pub proof fn lemma_names_without(ms: Seq<GroupMemberView>, name: Seq<char>)
    ensures
        member_names(members_without(ms, name)) == seq_remove(member_names(ms), name),
    decreases ms.len(),
{
    let p = not_named(name);
    let q = differs_from(name);
    if ms.len() == 0 {
        assert(ms.filter(p) =~= ms);
        assert(member_names(ms).filter(q) =~= member_names(ms));
    } else {
        let t = ms.drop_last();
        let a = ms.last();
        lemma_names_without(t, name);
        assert(t.push(a) =~= ms);
        t.lemma_filter_push(a, p);
        assert(member_names(ms) =~= member_names(t).push(a.username));
        member_names(t).lemma_filter_push(a.username, q);
        assert(seq_remove(member_names(t), name) == member_names(t).filter(q));
        assert(seq_remove(member_names(ms), name) == member_names(ms).filter(q));
        assert(members_without(ms, name) == ms.filter(p));
        assert(members_without(t, name) == t.filter(p));
        if a.username != name {
            assert(member_names(t.filter(p).push(a)) =~= member_names(t.filter(p)).push(
                a.username,
            ));
        } else {
            assert(ms.filter(p) == t.filter(p));
            assert(member_names(ms).filter(q) == member_names(t).filter(q));
        }
    }
}

/// The names of the members after an addition are the names before, with the
/// added one inserted.
pub proof fn lemma_names_with(ms: Seq<GroupMemberView>, name: Seq<char>)
    ensures
        member_names(members_with(ms, name)) == seq_insert(member_names(ms), name),
{
    if !member_names(ms).contains(name) {
        assert(member_names(members_with(ms, name)) =~= member_names(ms).push(name));
    }
}

/// The members are unchanged by a removal of a name that is not a member.
pub proof fn lemma_without_absent_member(ms: Seq<GroupMemberView>, name: Seq<char>)
    requires
        !member_names(ms).contains(name),
    ensures
        members_without(ms, name) == ms,
    decreases ms.len(),
{
    let p = not_named(name);
    if ms.len() == 0 {
        assert(ms.filter(p) =~= ms);
    } else {
        let t = ms.drop_last();
        assert(member_names(ms) =~= member_names(t).push(ms.last().username));
        assert(!member_names(t).contains(name)) by {
            if member_names(t).contains(name) {
                let k = choose|k: int|
                    0 <= k < member_names(t).len() && member_names(t)[k] == name;
                assert(member_names(ms)[k] == name);
            }
        }
        lemma_without_absent_member(t, name);
        assert(t.push(ms.last()) =~= ms);
        t.lemma_filter_push(ms.last(), p);
        assert(ms.last().username != name) by {
            assert(member_names(ms)[ms.len() - 1] == ms.last().username);
        }
    }
}

/// Whether the list holds the entry `g`.
pub fn find_info(v: &Vec<GroupInfo>, g: &GroupInfo) -> (res: bool)
    ensures
        res == info_views(v@).contains(g@),
{
    let mut i: usize = 0;
    while i < v.len()
        invariant
            i <= v.len(),
            forall|k: int| 0 <= k < i ==> v@[k]@ != g@,
        decreases v.len() - i,
    {
        if same_text(v[i].uuid.as_str(), g.uuid.as_str()) && same_text(
            v[i].name.as_str(),
            g.name.as_str(),
        ) {
            assert(info_views(v@)[i as int] == g@);
            return true;
        }
        i = i + 1;
    }
    proof {
        let w = info_views(v@);
        if w.contains(g@) {
            let k = choose|k: int| 0 <= k < w.len() && w[k] == g@;
            assert(v@[k]@ == w[k]);
        }
    }
    false
}

/// Adds the entry `g` at the end of the list, unless it is there already.
pub fn insert_info(v: &mut Vec<GroupInfo>, g: GroupInfo)
    ensures
        info_views(final(v)@) == seq_insert(info_views(old(v)@), g@),
{
    if !find_info(v, &g) {
        let ghost gv = g@;
        v.push(g);
        proof {
            assert(info_views(v@) =~= info_views(old(v)@).push(gv));
        }
    }
}

/// Removes the entry `g` from the list, if it is there.
pub fn remove_info(v: &mut Vec<GroupInfo>, g: &GroupInfo)
    ensures
        info_views(final(v)@) == seq_remove(info_views(old(v)@), g@),
{
    let ghost p = differs_from(g@);
    let ghost orig = info_views(v@);
    let mut kept: Vec<GroupInfo> = Vec::new();
    let mut i: usize = 0;
    while i < v.len()
        invariant
            i <= v.len(),
            orig == info_views(v@),
            p == differs_from(g@),
            info_views(kept@) == orig.take(i as int).filter(p),
        decreases v.len() - i,
    {
        proof {
            assert(orig.take(i + 1) =~= orig.take(i as int).push(orig[i as int]));
            orig.take(i as int).lemma_filter_push(orig[i as int], p);
        }
        let same = same_text(v[i].uuid.as_str(), g.uuid.as_str()) && same_text(
            v[i].name.as_str(),
            g.name.as_str(),
        );
        if !same {
            let e = v[i].clone();
            kept.push(e);
            proof {
                assert(info_views(kept@) =~= orig.take(i as int).filter(p).push(orig[i as int]));
            }
        }
        i = i + 1;
    }
    proof {
        assert(orig.take(i as int) =~= orig);
    }
    *v = kept;
}

/// The group, if `username` is one of its members; otherwise the refusal
/// that the user is not in the group.
pub fn verify_group_member(group_struct: DBGroupStruct, username: &str) -> (res: Result<
    DBGroupStruct,
    WarpRejections,
>)
    ensures
        member_names(group_struct.group_data@.members).contains(username@) ==> (res matches Ok(
            g,
        ) && g.id == group_struct.id && g.group_data@ == group_struct.group_data@),
        !member_names(group_struct.group_data@.members).contains(username@) ==> (res matches Err(
            WarpRejections::UserNotInGroup(m),
        ) && m@ == "file name is: src/new_db_stuff.rs | line number is: 27"@),
{
    match find_member(&group_struct.group_data.members, username) {
        Some(i) => {
            proof {
                let names = member_names(group_struct.group_data@.members);
                assert(names[i as int] == username@);
            }
            Ok(group_struct)
        },
        None => Err(WarpRejections::UserNotInGroup("file name is: src/new_db_stuff.rs | line number is: 27".to_owned())),
    }
}

/// Adds `new_member` to the group `group_id` and the group to the user's
/// list of groups.
pub fn add_user_to_group(
    group_struct: &mut DBGroupStruct,
    user_struct: &mut DBUserStruct,
    group_id: &str,
    new_member: &str,
)
    ensures
        final(group_struct).id == old(group_struct).id,
        final(group_struct).group_data@ == (GroupDataView {
            members: members_with(old(group_struct).group_data@.members, new_member@),
            ..old(group_struct).group_data@
        }),
        final(user_struct).username == old(user_struct).username,
        final(user_struct).user_data@ == (UserDataView {
            groups: seq_insert(
                old(user_struct).user_data@.groups,
                info_of(group_id@, old(group_struct).group_data@.group_name),
            ),
            ..old(user_struct).user_data@
        }),
{
    add_member(&mut group_struct.group_data.members, new_member);
    let info = GroupInfo {
        uuid: group_id.to_owned(),
        name: group_struct.group_data.group_name.clone(),
    };
    insert_info(&mut user_struct.user_data.groups, info);
}

/// Takes `username` out of the group `group_id` and the group out of the
/// user's list; returns whether the group is left without members, in which
/// case it is to be deleted.
pub fn user_leave_group(
    group_struct: &mut DBGroupStruct,
    user_struct: &mut DBUserStruct,
    username: &str,
    group_id: &str,
) -> (delete_group: bool)
    ensures
        final(group_struct).id == old(group_struct).id,
        final(group_struct).group_data@ == (GroupDataView {
            members: members_without(old(group_struct).group_data@.members, username@),
            ..old(group_struct).group_data@
        }),
        final(user_struct).username == old(user_struct).username,
        final(user_struct).user_data@ == (UserDataView {
            groups: seq_remove(
                old(user_struct).user_data@.groups,
                info_of(group_id@, old(group_struct).group_data@.group_name),
            ),
            ..old(user_struct).user_data@
        }),
        delete_group == (final(group_struct).group_data@.members.len() == 0),
{
    let info = GroupInfo {
        uuid: group_id.to_owned(),
        name: group_struct.group_data.group_name.clone(),
    };
    remove_info(&mut user_struct.user_data.groups, &info);
    remove_member(&mut group_struct.group_data.members, username);
    group_struct.group_data.members.len() == 0
}

/// Adds the group `uuid` called `name` to the user's list of groups.
pub fn add_group_to_user(user_struct: &mut DBUserStruct, uuid: &str, name: &str)
    ensures
        final(user_struct).username == old(user_struct).username,
        final(user_struct).user_data@ == (UserDataView {
            groups: seq_insert(old(user_struct).user_data@.groups, info_of(uuid@, name@)),
            ..old(user_struct).user_data@
        }),
{
    let info = GroupInfo { uuid: uuid.to_owned(), name: name.to_owned() };
    insert_info(&mut user_struct.user_data.groups, info);
}

/// The group that `input` asks for, created at `now`: its creator is its
/// only member, nothing is watched or put forward, movies are being added
/// and it is nobody's turn.
pub open spec fn new_group(creator: Seq<char>, name: Seq<char>, now: i64) -> GroupDataView {
    GroupDataView {
        group_name: name,
        members: seq![GroupMemberView { username: creator, status: fresh_status() }],
        system_order: Seq::empty(),
        movies_watched: Seq::empty(),
        current_movies: Seq::empty(),
        system_state: SystemState::AddingMovies,
        turn: Seq::empty(),
        date_created: now,
        date_modified: now,
    }
}

/// The group that `input` asks for, created at `now`.
pub fn group_data_at(input: &GroupForm, now: i64) -> (res: GroupData)
    ensures
        res@ == new_group(input.username@, input.group_name@, now),
        group_well_formed(res@),
{
    let mut members: Vec<GroupMember> = Vec::new();
    members.push(GroupMember { username: input.username.clone(), status: UserStatus::new() });
    let res = GroupData {
        group_name: input.group_name.clone(),
        members,
        system_order: Vec::new(),
        movies_watched: Vec::new(),
        current_movies: Vec::new(),
        system_state: SystemState::AddingMovies,
        turn: String::new(),
        date_created: now,
        date_modified: now,
    };
    proof {
        let g = new_group(input.username@, input.group_name@, now);
        assert(res@.members =~= g.members);
        assert(res@.system_order =~= g.system_order);
        assert(res@.movies_watched =~= g.movies_watched);
        assert(res@.current_movies =~= g.current_movies);
        assert(member_names(g.members) =~= seq![input.username@]);
    }
    res
}

/// Reads the clock, through `chrono::Utc::now` as `sqlx` re-exports it: the
/// current time in whole seconds since the Unix epoch. Nothing is promised of
/// the value.
#[verifier::external_body]
fn now_timestamp() -> i64 {
    sqlx::types::chrono::Utc::now().timestamp()
}

/// The group that `input` asks for, created now.
pub fn create_group_data(input: &GroupForm) -> (res: GroupData)
    ensures
        exists|now: i64| res@ == new_group(input.username@, input.group_name@, now),
        group_well_formed(res@),
{
    let now = now_timestamp();
    group_data_at(input, now)
}

/// The record of a new user: no groups, created and modified at `now`.
pub open spec fn new_user(id: Seq<char>, hashed: Seq<char>, salt: Seq<char>, now: i64) -> UserDataView {
    UserDataView {
        id,
        hashed_password: hashed,
        salt,
        groups: Seq::empty(),
        date_created: now,
        date_modified: now,
    }
}

/// The record of the user `username` with the id, password hash and salt
/// given, created at `now`.
pub fn user_struct_at(username: String, id: String, hashed_password: String, salt: String, now: i64) -> (res: DBUserStruct)
    ensures
        res.username == username,
        res.user_data@ == new_user(id@, hashed_password@, salt@, now),
{
    let res = DBUserStruct {
        username,
        user_data: UserData {
            id,
            hashed_password,
            salt,
            groups: Vec::new(),
            date_created: now,
            date_modified: now,
        },
    };
    proof {
        assert(res.user_data@.groups =~= Seq::<GroupInfoView>::empty());
    }
    res
}

/// Whether a character is a lowercase hexadecimal digit.
pub open spec fn is_lower_hex_digit(c: char) -> bool {
    ('0' <= c && c <= '9') || ('a' <= c && c <= 'f')
}

/// Whether a text is a version 4 UUID in its hyphenated lowercase form: 36
/// characters, hyphens at 8, 13, 18 and 23 and lowercase hexadecimal digits
/// elsewhere, with the version digit `4` at 14 and a variant digit `8`, `9`,
/// `a` or `b` at 19.
pub open spec fn is_v4_uuid_text(s: Seq<char>) -> bool {
    &&& s.len() == 36
    &&& forall|i: int|
        #![trigger s[i]]
        0 <= i < s.len() ==> if i == 8 || i == 13 || i == 18 || i == 23 {
            s[i] == '-'
        } else {
            is_lower_hex_digit(s[i])
        }
    &&& s[14] == '4'
    &&& s[19] == '8' || s[19] == '9' || s[19] == 'a' || s[19] == 'b'
}

/// A fresh random id, through `uuid::Uuid::new_v4` in its text form. Which id
/// comes back is not stated; what holds of every one is what the `uuid`
/// source shows: `new_v4` sets the version bits to 4 and the variant bits to
/// `10`, and `Display` writes the hyphenated lowercase form.
#[verifier::external_body]
fn new_uuid_text() -> (res: String)
    ensures
        is_v4_uuid_text(res@),
{
    uuid::Uuid::new_v4().to_string()
}

/// The record of a newly registered user: a fresh id, the password hashed
/// with a fresh salt, no groups, dated now. Fails when the password cannot be
/// hashed.
pub fn create_user_data(user_info: UserInfo) -> (res: Result<DBUserStruct, WarpRejections>)
    ensures
        res matches Ok(u) ==> u.username == user_info.username && u.user_data@.groups.len() == 0
            && u.user_data@.date_created == u.user_data@.date_modified
            && crate::auth::argon2_hash_of(user_info.password@, u.user_data@.salt) == Some(
            u.user_data@.hashed_password,
        ) && is_v4_uuid_text(u.user_data@.id) && crate::auth::is_generated_salt(u.user_data@.salt),
        res matches Err(e) ==> e is AuthError,
        crate::auth::password_fits(user_info.password@) ==> res is Ok,
{
    let id = new_uuid_text();
    let username = user_info.username;
    match crate::auth::hasher(user_info.password.as_str()) {
        Ok(pair) => {
            let (hashed_password, salt) = pair;
            let now = now_timestamp();
            Ok(user_struct_at(username, id, hashed_password, salt, now))
        },
        Err(e) => Err(e),
    }
}

/// What a password change does to a user's record `u`, giving `v`: an old
/// password that cannot be hashed is refused; a wrong one changes nothing;
/// a right one sets a fresh salt and the new password's hash, dated `now`,
/// unless hashing the new password fails.
pub open spec fn password_change(
    u: UserDataView,
    v: UserDataView,
    old_password: Seq<char>,
    new_password: Seq<char>,
    now: i64,
    ok: bool,
) -> bool {
    match crate::auth::password_verdict(old_password, u.salt, u.hashed_password) {
        None => !ok && v == u,
        Some(false) => ok && v == u,
        Some(true) => if ok {
            v == (UserDataView {
                hashed_password: v.hashed_password,
                salt: v.salt,
                date_modified: now,
                ..u
            }) && crate::auth::argon2_hash_of(new_password, v.salt) == Some(v.hashed_password)
                && crate::auth::is_generated_salt(v.salt)
        } else {
            v == u && !crate::auth::password_fits(new_password)
        },
    }
}

/// What a confirmed change of a user's details does to the record `u`,
/// giving `v`: a password that cannot be hashed is refused; a wrong one
/// changes nothing; a right one dates the record `now`.
pub open spec fn password_touch(u: UserDataView, v: UserDataView, password: Seq<char>, now: i64, ok: bool) -> bool {
    match crate::auth::password_verdict(password, u.salt, u.hashed_password) {
        None => !ok && v == u,
        Some(false) => ok && v == u,
        Some(true) => ok && v == (UserDataView { date_modified: now, ..u }),
    }
}

/// Changes a user's password: where `old_password` verifies against the
/// stored hash, the new password is hashed with a fresh salt and the record
/// marked modified at `now`; where it does not, the record stays as it was.
/// Fails when a password cannot be hashed.
pub fn change_password_at(
    user_struct: &mut DBUserStruct,
    old_password: String,
    new_password: &str,
    now: i64,
) -> (res: Result<(), WarpRejections>)
    ensures
        final(user_struct).username == old(user_struct).username,
        password_change(
            old(user_struct).user_data@,
            final(user_struct).user_data@,
            old_password@,
            new_password@,
            now,
            res is Ok,
        ),
{
    let ok = crate::auth::verify_pass(
        old_password,
        user_struct.user_data.salt.clone(),
        user_struct.user_data.hashed_password.clone(),
    );
    match ok {
        Err(e) => Err(e),
        Ok(false) => Ok(()),
        Ok(true) => match crate::auth::hasher(new_password) {
            Ok(pair) => {
                let (hashed, salt) = pair;
                user_struct.user_data.salt = salt;
                user_struct.user_data.hashed_password = hashed;
                user_struct.user_data.date_modified = now;
                Ok(())
            },
            Err(e) => Err(e),
        },
    }
}

/// Marks a user's record modified at `now` where `password` verifies
/// against the stored hash; leaves it as it was otherwise. Fails when the
/// password cannot be hashed under the stored salt.
pub fn touch_user_at(user_struct: &mut DBUserStruct, password: String, now: i64) -> (res: Result<
    (),
    WarpRejections,
>)
    ensures
        final(user_struct).username == old(user_struct).username,
        password_touch(old(user_struct).user_data@, final(user_struct).user_data@, password@, now, res is Ok),
{
    let ok = crate::auth::verify_pass(
        password,
        user_struct.user_data.salt.clone(),
        user_struct.user_data.hashed_password.clone(),
    );
    match ok {
        Err(e) => Err(e),
        Ok(false) => Ok(()),
        Ok(true) => {
            user_struct.user_data.date_modified = now;
            Ok(())
        },
    }
}

/// Changes a user's password, dating the record now.
pub fn change_password(user_struct: &mut DBUserStruct, old_password: String, new_password: &str) -> (res: Result<(), WarpRejections>)
    ensures
        final(user_struct).username == old(user_struct).username,
        exists|now: i64|
            #[trigger] password_change(
                old(user_struct).user_data@,
                final(user_struct).user_data@,
                old_password@,
                new_password@,
                now,
                res is Ok,
            ),
{
    let now = now_timestamp();
    change_password_at(user_struct, old_password, new_password, now)
}

/// Dates a user's record now where the password verifies.
pub fn touch_user(user_struct: &mut DBUserStruct, password: String) -> (res: Result<(), WarpRejections>)
    ensures
        final(user_struct).username == old(user_struct).username,
        exists|now: i64|
            #[trigger] password_touch(old(user_struct).user_data@, final(user_struct).user_data@, password@, now, res is Ok),
{
    let now = now_timestamp();
    touch_user_at(user_struct, password, now)
}

/// Renames a user: where `password` verifies against the stored hash, the
/// user takes the name `new_username` and the record is dated `now`; where
/// it does not, nothing changes. Fails when the password cannot be hashed
/// under the stored salt.
pub fn rename_user_at(
    user_struct: &mut DBUserStruct,
    new_username: String,
    password: String,
    now: i64,
) -> (res: Result<(), WarpRejections>)
    ensures
        password_touch(
            old(user_struct).user_data@,
            final(user_struct).user_data@,
            password@,
            now,
            res is Ok,
        ),
        final(user_struct).username@ == if crate::auth::password_verdict(
            password@,
            old(user_struct).user_data@.salt,
            old(user_struct).user_data@.hashed_password,
        ) == Some(true) {
            new_username@
        } else {
            old(user_struct).username@
        },
{
    let ok = crate::auth::verify_pass(
        password,
        user_struct.user_data.salt.clone(),
        user_struct.user_data.hashed_password.clone(),
    );
    match ok {
        Err(e) => Err(e),
        Ok(false) => Ok(()),
        Ok(true) => {
            user_struct.username = new_username;
            user_struct.user_data.date_modified = now;
            Ok(())
        },
    }
}

/// Renames a user, dating the record now, where the password verifies.
pub fn rename_user(user_struct: &mut DBUserStruct, new_username: String, password: String) -> (res: Result<(), WarpRejections>)
    ensures
        exists|now: i64|
            #[trigger] password_touch(
                old(user_struct).user_data@,
                final(user_struct).user_data@,
                password@,
                now,
                res is Ok,
            ),
        final(user_struct).username@ == if crate::auth::password_verdict(
            password@,
            old(user_struct).user_data@.salt,
            old(user_struct).user_data@.hashed_password,
        ) == Some(true) {
            new_username@
        } else {
            old(user_struct).username@
        },
{
    let now = now_timestamp();
    rename_user_at(user_struct, new_username, password, now)
}

/// Adding a user to a group makes them a member who passes the membership
/// check, and puts the group in their list; every other member stays.
pub proof fn law_added_user_is_member(ms: Seq<GroupMemberView>, name: Seq<char>, other: Seq<char>)
    ensures
        member_names(members_with(ms, name)).contains(name),
        member_names(ms).contains(other) ==> member_names(members_with(ms, name)).contains(other),
{
    if !member_names(ms).contains(name) {
        let r = members_with(ms, name);
        assert(member_names(r)[ms.len() as int] == name);
        if member_names(ms).contains(other) {
            let k = choose|k: int| 0 <= k < member_names(ms).len() && member_names(ms)[k] == other;
            assert(member_names(r)[k] == other);
        }
    }
}

/// A user who joins a group they were not in is added last, not ready and
/// with no colour, so the pick waits until they say they are ready; the
/// members before them keep their places and statuses. Joining a group one
/// is already in changes no member.
pub proof fn law_newcomer_joins_not_ready(ms: Seq<GroupMemberView>, name: Seq<char>)
    ensures
        !member_names(ms).contains(name) ==> {
            let r = members_with(ms, name);
            &&& r.len() == ms.len() + 1
            &&& r.subrange(0, ms.len() as int) == ms
            &&& r[ms.len() as int].username == name
            &&& !r[ms.len() as int].status.ready_status
            &&& r[ms.len() as int].status.color.len() == 0
        },
        member_names(ms).contains(name) ==> members_with(ms, name) == ms,
{
    if !member_names(ms).contains(name) {
        let r = members_with(ms, name);
        assert(r.subrange(0, ms.len() as int) =~= ms);
    }
}

/// After a user leaves a group they are no longer a member, and the other
/// members stay.
pub proof fn law_left_user_is_not_member(ms: Seq<GroupMemberView>, name: Seq<char>, other: Seq<char>)
    requires
        member_names(ms).no_duplicates(),
    ensures
        !member_names(members_without(ms, name)).contains(name),
        other != name ==> (member_names(members_without(ms, name)).contains(other)
            <==> member_names(ms).contains(other)),
{
    lemma_names_without(ms, name);
    lemma_remove(member_names(ms), name);
}

/// Leaving a group that one has just joined gives back the group's members
/// and the user's list of groups as they were.
pub proof fn law_leave_undoes_add(
    ms: Seq<GroupMemberView>,
    groups: Seq<GroupInfoView>,
    name: Seq<char>,
    g: GroupInfoView,
)
    requires
        !member_names(ms).contains(name),
        !groups.contains(g),
    ensures
        members_without(members_with(ms, name), name) == ms,
        seq_remove(seq_insert(groups, g), g) == groups,
{
    let p = not_named(name);
    let fresh = GroupMemberView { username: name, status: fresh_status() };
    ms.lemma_filter_push(fresh, p);
    lemma_without_absent_member(ms, name);
    lemma_remove_inserted(groups, g);
}

/// Joining and leaving keep a group well formed: no name is a member twice.
pub proof fn law_membership_keeps_well_formed(g: GroupDataView, name: Seq<char>)
    requires
        group_well_formed(g),
    ensures
        group_well_formed(GroupDataView { members: members_with(g.members, name), ..g }),
        group_well_formed(GroupDataView { members: members_without(g.members, name), ..g }),
{
    lemma_names_with(g.members, name);
    lemma_insert(member_names(g.members), name);
    lemma_names_without(g.members, name);
    lemma_remove(member_names(g.members), name);
}

/// A group is to be deleted exactly when its last member leaves it.
pub proof fn law_group_deleted_when_last_member_leaves(ms: Seq<GroupMemberView>, name: Seq<char>)
    requires
        member_names(ms).no_duplicates(),
    ensures
        (members_without(ms, name).len() == 0) <==> (ms.len() == 0 || (ms.len() == 1
            && ms[0].username == name)),
{
    lemma_names_without(ms, name);
    lemma_remove(member_names(ms), name);
    if ms.len() == 1 {
        assert(member_names(ms)[0] == ms[0].username);
        if ms[0].username == name {
            assert(member_names(ms).contains(name));
        } else {
            assert(!member_names(ms).contains(name)) by {
                if member_names(ms).contains(name) {
                    let k = choose|k: int|
                        0 <= k < member_names(ms).len() && member_names(ms)[k] == name;
                }
            }
        }
    }
    if ms.len() >= 2 {
        if member_names(ms).contains(name) {
        }
    }
}

} // verus!
