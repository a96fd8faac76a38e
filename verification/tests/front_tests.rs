use movie_rating_site::add_movies::{AddMovies, AddMoviesAction, AddMoviesMsg};
use movie_rating_site::auth::{Claims, Token};
use movie_rating_site::auth_flow::{auth_step, AuthAction, AuthEvent, AuthFlow, AuthFlowError};
use movie_rating_site::front_error::Error;
use movie_rating_site::group_types::{DBGroupStruct, GroupData, GroupInfo};
use movie_rating_site::images::image_processing;
use movie_rating_site::imdb_types::ImageData;
use movie_rating_site::pages::{
    auth_status_from, login_answer, Group, GroupAction, GroupMsg, Groups, GroupsAction, GroupsMsg,
    Login, LoginAction, LoginMsg, TokenResponse,
};
use movie_rating_site::register::{input_class, strength_bar, BarClass, Register, RegisterAction, RegisterMsg};
use movie_rating_site::shared_types::MovieDisplay;

fn movie(id: &str) -> MovieDisplay {
    MovieDisplay {
        movie_id: id.to_string(),
        movie_title: format!("t{}", id),
        movie_year: 1990,
        movie_images: ImageData { url: "p.jpg".to_string(), width: 1, height: 1 },
        movie_stars: String::new(),
    }
}

#[test]
fn thumbnails_and_placeholder() {
    let img = ImageData { url: "https://x/y.jpg".to_string(), width: 1, height: 1 };
    assert_eq!(image_processing(Some(&img)), "https://x/y._V1_QL75_UY74_CR30,0,50,74_.jpg");
    assert_eq!(image_processing(None), "need to get a decent no pic available pic");
}

#[test]
fn error_messages() {
    assert_eq!(Error::Unauthorized.message(), "Unauthorized");
    assert_eq!(Error::NotFound.message(), "Not Found");
    assert_eq!(Error::RequestError.message(), "Http Request Error");
    assert_eq!(Error::PasswordNotMatchError.message(), "Repeated password doesn't match");
    assert_eq!(Error::LogInError.message(), "Login Error");
}

#[test]
fn registration_needs_every_check() {
    let mut form = Register::new();
    form.update(RegisterMsg::SetUsername(Some("Indiana".to_string())));
    assert!(!form.validation.email_valid);
    form.update(RegisterMsg::SetUsername(Some("Indiana@jones.ark".to_string())));
    assert!(form.validation.email_valid);
    form.update(RegisterMsg::SetPassword(Some("TheLostArKKK123!@#".to_string())));
    assert_eq!(form.validation.password_score, Some(4));
    assert!(form.validation.password_strong);
    form.update(RegisterMsg::ConfirmPassword(Some("TheLostArKKK123!@".to_string())));
    assert!(!form.validation.password_match);
    assert!(matches!(form.update(RegisterMsg::RegisterUser), RegisterAction::Nothing));
    assert!(!form.validation.all_valid);
    form.update(RegisterMsg::ConfirmPassword(Some("TheLostArKKK123!@#".to_string())));
    match form.update(RegisterMsg::RegisterUser) {
        RegisterAction::SendRegistration(u) => {
            assert_eq!(u.username, "Indiana@jones.ark");
            assert_eq!(u.password, "TheLostArKKK123!@#");
        }
        other => panic!("unexpected {:?}", other),
    }
}

#[test]
fn weak_and_empty_passwords() {
    let mut form = Register::new();
    form.update(RegisterMsg::SetPassword(Some("password".to_string())));
    assert!(!form.validation.password_strong);
    assert!(form.validation.password_score.unwrap() < 4);
    form.update(RegisterMsg::SetPassword(Some(String::new())));
    assert_eq!(form.validation.password_score, None);
    assert!(!form.validation.password_strong);
}

#[test]
fn auth_flow_with_a_good_access_token() {
    let (s, a) = auth_step(
        AuthFlow::Start,
        AuthEvent::Stored { access: Some("acc".to_string()), refresh: Some("ref".to_string()) },
    );
    assert!(matches!(a, AuthAction::Send(ref t) if t == "acc"));
    let (s, a) = auth_step(s, AuthEvent::Answered(200));
    assert!(matches!(a, AuthAction::Accept));
    assert!(matches!(s, AuthFlow::Done));
}

#[test]
fn auth_flow_renews_once_on_401() {
    let (s, _) = auth_step(
        AuthFlow::Start,
        AuthEvent::Stored { access: Some("acc".to_string()), refresh: Some("ref".to_string()) },
    );
    let (s, a) = auth_step(s, AuthEvent::Answered(401));
    assert!(matches!(a, AuthAction::Refresh(ref t) if t == "ref"));
    let (s, a) = auth_step(s, AuthEvent::Refreshed(Some("new".to_string())));
    assert!(matches!(a, AuthAction::Send(ref t) if t == "new"));
    let (s, a) = auth_step(s, AuthEvent::Answered(401));
    assert!(matches!(a, AuthAction::Accept));
    assert!(matches!(s, AuthFlow::Done));
}

#[test]
fn auth_flow_failures() {
    let (_, a) = auth_step(AuthFlow::Start, AuthEvent::Stored { access: None, refresh: None });
    assert!(matches!(a, AuthAction::Fail(AuthFlowError::NoToken)));
    let (s, _) = auth_step(
        AuthFlow::Start,
        AuthEvent::Stored { access: Some("acc".to_string()), refresh: None },
    );
    let (_, a) = auth_step(s, AuthEvent::Answered(500));
    assert!(matches!(a, AuthAction::Fail(AuthFlowError::UnexpectedStatus(500))));
    let (_, a) = auth_step(
        AuthFlow::Start,
        AuthEvent::Stored { access: None, refresh: Some("ref".to_string()) },
    );
    assert!(matches!(a, AuthAction::Refresh(ref t) if t == "ref"));
}

#[test]
fn collecting_movies() {
    let mut page = AddMovies {
        autocomplete_movies: Vec::new(),
        username: "ann".to_string(),
        added_movies: Vec::new(),
        group_name: "club".to_string(),
    };
    page.update(AddMoviesMsg::UpdateAutocomplete(vec![movie("1"), movie("2"), movie("1")]));
    assert_eq!(page.autocomplete_movies.len(), 2);
    let acts = page.update(AddMoviesMsg::AddMovie(Some("2".to_string())));
    assert_eq!(page.added_movies.len(), 1);
    assert_eq!(page.added_movies[0].movie.added_by, "ann");
    assert!(matches!(acts[0], AddMoviesAction::StoreAddedMovies(ref v) if v.len() == 1));
    page.update(AddMoviesMsg::AddMovie(Some("2".to_string())));
    assert_eq!(page.added_movies.len(), 1);
    match &page.update(AddMoviesMsg::SaveMovies)[0] {
        AddMoviesAction::SaveMovies(v) => assert_eq!(v[0].movie_id, "2"),
        other => panic!("unexpected {:?}", other),
    }
    page.update(AddMoviesMsg::DeleteEntry(Some("2".to_string())));
    assert!(page.added_movies.is_empty());
    let fetched = vec![movie("7").into_yew_display("bob".to_string())];
    page.update(AddMoviesMsg::UpdateCurrentMovies(fetched));
    assert_eq!(page.added_movies[0].key, "7");
}

#[test]
fn login_page() {
    let mut login = Login::new();
    login.update(LoginMsg::SetUsername(Some("ann".to_string())));
    login.update(LoginMsg::SetPassword(Some("pw".to_string())));
    match login.update(LoginMsg::VerifyLogin) {
        LoginAction::RequestLogin(u) => {
            assert_eq!(u.username, "ann");
            assert_eq!(u.password, "pw");
        }
        other => panic!("unexpected {:?}", other),
    }
    assert!(matches!(login_answer(None), LoginMsg::SetError(Some(Error::LogInError))));
    let t = TokenResponse { access_token: "a".to_string(), refresh_token: Some("r".to_string()) };
    match login.update(login_answer(Some(t))) {
        LoginAction::StoreTokens { access_token, refresh_token } => {
            assert_eq!(access_token, "a");
            assert_eq!(refresh_token, "r");
        }
        other => panic!("unexpected {:?}", other),
    }
    assert!(matches!(login.update(LoginMsg::Logout), LoginAction::ClearStorage));
}

#[test]
fn sign_in_status() {
    let s = auth_status_from(Some(Claims { username: "ann".to_string(), exp: 99, token: Token::Access }));
    assert!(s.status);
    assert_eq!(s.username, Some("ann".to_string()));
    assert_eq!(s.exp, Some(99));
    let s = auth_status_from(None);
    assert!(!s.status && s.username.is_none() && s.exp.is_none());
}

#[test]
fn groups_page() {
    let (mut page, first) = Groups::new();
    assert!(matches!(first, GroupsMsg::GetAllGroups));
    let g = |n: &str| GroupInfo { name: n.to_string(), uuid: format!("id-{}", n) };
    page.update("ann".to_string(), GroupsMsg::UpdateGroups(vec![g("a"), g("b"), g("a")]));
    assert_eq!(page.current_groups.len(), 2);
    page.update("ann".to_string(), GroupsMsg::CreateGroupName(Some("club".to_string())));
    match page.update("ann".to_string(), GroupsMsg::CreateGroup) {
        GroupsAction::CreateGroup { username, group_name } => {
            assert_eq!(username, "ann");
            assert_eq!(group_name, "club");
        }
        other => panic!("unexpected {:?}", other),
    }
}

#[test]
fn group_page() {
    let (mut page, first) = Group::new("g1".to_string());
    assert!(matches!(first, GroupMsg::GetGroupData));
    page.update(GroupMsg::SetAddUser(Some("bob".to_string())));
    match page.update(GroupMsg::AddUser) {
        GroupAction::AddUser { group_id, username } => {
            assert_eq!(group_id, "g1");
            assert_eq!(username, "bob");
        }
        other => panic!("unexpected {:?}", other),
    }
    let data = GroupData::new_empty();
    page.update(GroupMsg::UpdateGroupData(DBGroupStruct { id: "g2".to_string(), group_data: data }));
    assert_eq!(page.group_id, "g2");
    assert!(page.group_data.is_some());
    assert!(matches!(page.update(GroupMsg::Leave), GroupAction::Leave(ref id) if id == "g2"));
}

#[test]
fn user_page() {
    use_user_page();
}

fn use_user_page() {
    let (mut page, first) = movie_rating_site::pages::User::<u8>::new("ann".to_string());
    assert!(matches!(first, movie_rating_site::pages::UserMsg::GetUserProfile));
    match page.update(movie_rating_site::pages::UserMsg::GetUserProfile) {
        movie_rating_site::pages::UserAction::FetchProfile(u) => assert_eq!(u, "ann"),
        other => panic!("unexpected {:?}", other),
    }
    let a = page.update(movie_rating_site::pages::UserMsg::UpdateUserProfile(7));
    assert!(matches!(a, movie_rating_site::pages::UserAction::AskForGroups));
    assert_eq!(page.user_profile, Some(7));
    page.update(movie_rating_site::pages::UserMsg::CreateGroupName(Some("club".to_string())));
    match page.update(movie_rating_site::pages::UserMsg::CreateGroup) {
        movie_rating_site::pages::UserAction::CreateGroup { username, group_name } => {
            assert_eq!(username, "ann");
            assert_eq!(group_name, "club");
        }
        other => panic!("unexpected {:?}", other),
    }
}

#[test]
fn all_groups_page() {
    use_all_groups_page();
}

fn use_all_groups_page() {
    let (mut page, _) = movie_rating_site::pages::AllGroups::new(None);
    page.update(movie_rating_site::pages::AllGroupsMsg::CreateGroupName(Some("club".to_string())));
    assert!(matches!(
        page.update(movie_rating_site::pages::AllGroupsMsg::CreateGroup),
        GroupsAction::Nothing
    ));
    let (mut page, _) = movie_rating_site::pages::AllGroups::new(Some("ann".to_string()));
    page.update(movie_rating_site::pages::AllGroupsMsg::CreateGroupName(Some("club".to_string())));
    match page.update(movie_rating_site::pages::AllGroupsMsg::CreateGroup) {
        GroupsAction::CreateGroup { username, group_name } => {
            assert_eq!(username, "ann");
            assert_eq!(group_name, "club");
        }
        other => panic!("unexpected {:?}", other),
    }
}

#[test]
fn strength_bar_and_box_classes() {
    assert_eq!(strength_bar(Some(0)), (0, BarClass::Danger));
    assert_eq!(strength_bar(Some(1)), (25, BarClass::Danger));
    assert_eq!(strength_bar(Some(2)), (50, BarClass::Warning));
    assert_eq!(strength_bar(Some(3)), (75, BarClass::Warning));
    assert_eq!(strength_bar(Some(4)), (100, BarClass::Primary));
    assert_eq!(strength_bar(None), (0, BarClass::Primary));
    assert_eq!(BarClass::Danger.class_name(), "progress is-danger");
    assert_eq!(BarClass::Primary.class_name(), "progress is-primary");
    assert_eq!(input_class(true), "input is-primary");
    assert_eq!(input_class(false), "input");
}

#[test]
fn the_gate_needs_a_score_of_four() {
    let mut form = Register::new();
    form.update(RegisterMsg::SetUsername(Some("a@b.com".to_string())));
    form.update(RegisterMsg::SetPassword(Some("pw".to_string())));
    form.update(RegisterMsg::ConfirmPassword(Some("pw".to_string())));
    form.full_validation_check_with(Some(3));
    assert!(!form.validation.all_valid);
    assert!(!form.validation.password_strong);
    form.full_validation_check_with(Some(4));
    assert!(form.validation.all_valid);
    assert_eq!(form.validation.password_score, Some(4));
    form.set_password_score(None);
    assert!(!form.validation.password_strong);
    assert!(form.validation.all_valid);
}
