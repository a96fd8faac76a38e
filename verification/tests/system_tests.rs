use movie_rating_site::group_types::{
    DBGroupStruct, GroupData, GroupMember, UserStatus,
};
use movie_rating_site::imdb_types::ImageData;
use movie_rating_site::shared_types::{MovieDisplay, SystemState, YewMovieDisplay};
use movie_rating_site::system::{image_processing, System, SystemAction, SystemMsg};

fn movie(id: &str) -> MovieDisplay {
    MovieDisplay {
        movie_id: id.to_string(),
        movie_title: format!("title {}", id),
        movie_year: 2000,
        movie_images: ImageData { url: format!("{}.jpg", id), width: 1, height: 1 },
        movie_stars: String::new(),
    }
}

fn member(name: &str, ready: bool) -> GroupMember {
    GroupMember {
        username: name.to_string(),
        status: UserStatus { ready_status: ready, color: String::new() },
    }
}

fn page(me: &str, members: Vec<GroupMember>) -> System {
    let (mut sys, actions) = System::new(Some(me.to_string()), "g1".to_string());
    assert_eq!(actions.len(), 1);
    assert!(matches!(actions[0], SystemAction::Deliver(SystemMsg::GetGroupData)));
    let mut data = GroupData::new_empty();
    data.group_name = "film club".to_string();
    data.members = members;
    let acts = sys.update(
        me.to_string(),
        SystemMsg::UpdateGroupData(DBGroupStruct { id: "g1".to_string(), group_data: data }),
    );
    assert!(acts.is_empty());
    assert!(sys.loaded);
    sys
}

fn shown(_sys: &System, me: &str, m: &MovieDisplay) -> YewMovieDisplay {
    m.clone().into_yew_display(me.to_string())
}

#[test]
fn get_group_data_asks_for_the_group() {
    let (mut sys, _) = System::new(None, "abc".to_string());
    assert_eq!(sys.username, "");
    let acts = sys.update("u".to_string(), SystemMsg::GetGroupData);
    assert_eq!(acts.len(), 1);
    match &acts[0] {
        SystemAction::FetchGroupData(id) => assert_eq!(id, "abc"),
        other => panic!("unexpected {:?}", other),
    }
}

#[test]
fn adding_a_movie_twice_keeps_one() {
    let mut sys = page("ann", vec![member("ann", false)]);
    sys.update("ann".to_string(), SystemMsg::AddMovie(movie("m1")));
    sys.update("ann".to_string(), SystemMsg::AddMovie(movie("m1")));
    assert_eq!(sys.current_movies.len(), 1);
    assert_eq!(sys.group_data.current_movies.len(), 1);
    assert_eq!(sys.current_movies[0].added_by, "ann");
}

#[test]
fn delete_takes_back_an_added_movie() {
    let mut sys = page("ann", vec![member("ann", false)]);
    sys.update("ann".to_string(), SystemMsg::AddMovie(movie("m1")));
    let m = shown(&sys, "ann", &movie("m1"));
    let acts = sys.update("ann".to_string(), SystemMsg::DeleteEntry(m));
    assert!(sys.current_movies.is_empty());
    assert!(sys.group_data.current_movies.is_empty());
    assert_eq!(acts.len(), 1);
    assert!(matches!(acts[0], SystemAction::SaveGroupData(_, _)));
}

#[test]
fn system_starts_when_everyone_is_ready() {
    let mut sys = page("bob", vec![member("ann", true), member("bob", false), member("cat", true)]);
    let acts = sys.update("bob".to_string(), SystemMsg::SetReady);
    assert_eq!(sys.group_data.system_state, SystemState::SystemStarted);
    assert_eq!(sys.group_data.turn, "ann");
    assert_eq!(sys.group_data.system_order, vec!["bob", "cat", "ann"]);
    match &acts[0] {
        SystemAction::SaveGroupData(id, data) => {
            assert_eq!(id, "g1");
            assert_eq!(data.turn, "ann");
        }
        other => panic!("unexpected {:?}", other),
    }
}

#[test]
fn system_waits_for_the_others() {
    let mut sys = page("bob", vec![member("ann", false), member("bob", false)]);
    sys.update("bob".to_string(), SystemMsg::SetReady);
    assert_eq!(sys.group_data.system_state, SystemState::AddingMovies);
    assert!(sys.group_data.members[1].status.ready_status);
    sys.update("bob".to_string(), SystemMsg::UnsetReady);
    assert!(!sys.group_data.members[1].status.ready_status);
}

#[test]
fn turns_rotate_and_the_pick_finishes() {
    let mut sys = page("ann", vec![member("ann", false), member("bob", true)]);
    sys.update("ann".to_string(), SystemMsg::AddMovie(movie("m1")));
    sys.update("ann".to_string(), SystemMsg::AddMovie(movie("m2")));
    sys.update("ann".to_string(), SystemMsg::AddMovie(movie("m3")));
    sys.update("ann".to_string(), SystemMsg::SetReady);
    assert_eq!(sys.group_data.turn, "ann");
    assert_eq!(sys.group_data.system_order, vec!["bob", "ann"]);

    let m1 = shown(&sys, "ann", &movie("m1"));
    let acts = sys.update("ann".to_string(), SystemMsg::DeleteEntryChangeTurn(m1));
    assert_eq!(sys.group_data.turn, "bob");
    assert_eq!(sys.group_data.system_order, vec!["ann", "bob"]);
    assert_eq!(sys.group_data.system_state, SystemState::SystemStarted);
    assert_eq!(acts.len(), 2);
    assert!(matches!(acts[0], SystemAction::Deliver(SystemMsg::UpdateGroupData(_))));

    let m2 = shown(&sys, "ann", &movie("m2"));
    sys.update("bob".to_string(), SystemMsg::DeleteEntryChangeTurn(m2));
    assert_eq!(sys.group_data.turn, "ann");
    assert_eq!(sys.group_data.system_state, SystemState::Finished);
    assert_eq!(sys.current_movies.len(), 1);
    assert_eq!(sys.current_movies[0].movie_id, "m3");
}

#[test]
fn delete_buttons() {
    let mut sys = page("ann", vec![member("ann", false), member("bob", false)]);
    sys.update("ann".to_string(), SystemMsg::AddMovie(movie("m1")));
    let mine = shown(&sys, "ann", &movie("m1"));
    assert!(matches!(sys.delete_movie_button(&mine), Some(SystemMsg::DeleteEntry(_))));
    let theirs = movie("m2").into_yew_display("bob".to_string());
    assert!(sys.delete_movie_button(&theirs).is_none());
    sys.update("ann".to_string(), SystemMsg::SetReady);
    assert!(sys.delete_movie_button(&mine).is_none());
}

#[test]
fn search_box_asks_for_a_search() {
    let mut sys = page("ann", vec![member("ann", false)]);
    let acts = sys.update("ann".to_string(), SystemMsg::QueryAutocomplete(Some("dune".to_string())));
    match &acts[0] {
        SystemAction::Search(q) => assert_eq!(q.query, "dune"),
        other => panic!("unexpected {:?}", other),
    }
    assert!(sys.update("ann".to_string(), SystemMsg::QueryAutocomplete(None)).is_empty());
    sys.update("ann".to_string(), SystemMsg::UpdateAutocomplete(vec![movie("a"), movie("a"), movie("b")]));
    assert_eq!(sys.autocomplete_movies.len(), 2);
}

#[test]
fn thumbnail_url() {
    let img = ImageData { url: "https://m.media-amazon.com/images/M/abc.jpg".to_string(), width: 1, height: 1 };
    assert_eq!(
        image_processing(&img),
        "https://m.media-amazon.com/images/M/abcQL75_UX80_CR0,5,80,120_.jpg"
    );
}
