use movie_rating_site::errors::WarpRejections;
use movie_rating_site::group_types::{
    DBGroupStruct, DBUserStruct, GroupForm, GroupInfo, UserData,
};
use movie_rating_site::membership::{
    add_group_to_user, add_user_to_group, group_data_at, user_leave_group, verify_group_member,
};
use movie_rating_site::shared_types::SystemState;

fn group() -> DBGroupStruct {
    let form = GroupForm { username: "ann".to_string(), group_name: "club".to_string() };
    DBGroupStruct { id: "g1".to_string(), group_data: group_data_at(&form, 100) }
}

fn user(name: &str) -> DBUserStruct {
    DBUserStruct {
        username: name.to_string(),
        user_data: UserData {
            id: "id".to_string(),
            hashed_password: "h".to_string(),
            salt: "s".to_string(),
            groups: Vec::new(),
            date_created: 1,
            date_modified: 1,
        },
    }
}

#[test]
fn a_new_group_has_its_creator_only() {
    let g = group().group_data;
    assert_eq!(g.group_name, "club");
    assert_eq!(g.members.len(), 1);
    assert_eq!(g.members[0].username, "ann");
    assert!(!g.members[0].status.ready_status);
    assert_eq!(g.system_state, SystemState::AddingMovies);
    assert_eq!(g.turn, "");
    assert_eq!(g.date_created, 100);
    assert_eq!(g.date_modified, 100);
}

#[test]
fn members_pass_the_check_and_others_do_not() {
    assert!(verify_group_member(group(), "ann").is_ok());
    match verify_group_member(group(), "bob") {
        Err(WarpRejections::UserNotInGroup(m)) => assert_eq!(m, "file name is: src/new_db_stuff.rs | line number is: 27"),
        other => panic!("unexpected {:?}", other.map(|g| g.id)),
    }
}

#[test]
fn adding_a_user_makes_them_a_member() {
    let mut g = group();
    let mut u = user("bob");
    add_user_to_group(&mut g, &mut u, "g1", "bob");
    assert_eq!(g.group_data.members.len(), 2);
    assert_eq!(g.group_data.members[1].username, "bob");
    assert_eq!(u.user_data.groups.len(), 1);
    assert_eq!(u.user_data.groups[0].uuid, "g1");
    assert_eq!(u.user_data.groups[0].name, "club");
    assert!(verify_group_member(g, "bob").is_ok());
}

#[test]
fn adding_twice_is_adding_once() {
    let mut g = group();
    let mut u = user("bob");
    add_user_to_group(&mut g, &mut u, "g1", "bob");
    add_user_to_group(&mut g, &mut u, "g1", "bob");
    assert_eq!(g.group_data.members.len(), 2);
    assert_eq!(u.user_data.groups.len(), 1);
}

#[test]
fn leaving_undoes_joining() {
    let mut g = group();
    let mut u = user("bob");
    add_user_to_group(&mut g, &mut u, "g1", "bob");
    let delete = user_leave_group(&mut g, &mut u, "bob", "g1");
    assert!(!delete);
    assert_eq!(g.group_data.members.len(), 1);
    assert_eq!(g.group_data.members[0].username, "ann");
    assert!(u.user_data.groups.is_empty());
}

#[test]
fn the_last_member_leaving_deletes_the_group() {
    let mut g = group();
    let mut u = user("ann");
    add_group_to_user(&mut u, "g1", "club");
    let delete = user_leave_group(&mut g, &mut u, "ann", "g1");
    assert!(delete);
    assert!(g.group_data.members.is_empty());
    assert!(u.user_data.groups.is_empty());
}

#[test]
fn group_info_prints() {
    let g = GroupInfo { name: "club".to_string(), uuid: "g1".to_string() };
    assert_eq!(g.display_string(), "(GroupInfo: uuid: g1, name: club)");
}
