use movie_rating_site::auth::{hasher, make_claims, make_double_claims, verify_pass, Token};
use movie_rating_site::errors::WarpRejections;
use movie_rating_site::group_types::UserInfo;
use movie_rating_site::membership::{change_password_at, create_user_data, rename_user_at, touch_user_at};

#[test]
fn a_hashed_password_verifies() {
    let (hash, salt) = hasher("password123").unwrap();
    assert_ne!(hash, "password123");
    assert!(verify_pass("password123".to_string(), salt.clone(), hash.clone()).unwrap());
    assert!(!verify_pass("password124".to_string(), salt, hash).unwrap());
}

#[test]
fn same_password_different_salt_and_hash() {
    let (h1, s1) = hasher("password123").unwrap();
    let (h2, s2) = hasher("password123").unwrap();
    assert_ne!(s1, s2);
    assert_ne!(h1, h2);
}

#[test]
fn a_bad_salt_is_an_auth_error() {
    match verify_pass("pw".to_string(), "!".to_string(), "x".to_string()) {
        Err(WarpRejections::AuthError(m)) => assert_eq!(m, "file name is: src/auth.rs | line number is: 166"),
        other => panic!("unexpected {:?}", other),
    }
}

#[test]
fn a_new_user_has_a_verifying_hash() {
    let info = UserInfo { username: "Indiana".to_string(), password: "password123".to_string() };
    let u = create_user_data(info).unwrap();
    assert_eq!(u.username, "Indiana");
    assert_eq!(u.user_data.id.len(), 36);
    assert!(u.user_data.date_created > 0);
    assert!(u.user_data.groups.is_empty());
    assert_eq!(u.user_data.date_created, u.user_data.date_modified);
    assert_ne!(u.user_data.hashed_password, "password123");
    assert!(verify_pass("password123".to_string(), u.user_data.salt, u.user_data.hashed_password).unwrap());
}

#[test]
fn claims_expire_after_their_lifetime() {
    let c = make_claims("ann".to_string(), 1000, 60, Token::Access);
    assert_eq!(c.exp, 1060);
    assert_eq!(c.token, Token::Access);
    let (a, r) = make_double_claims("ann".to_string(), 1000, 60, 3600);
    assert_eq!(a.exp, 1060);
    assert_eq!(r.exp, 4600);
    assert_eq!(a.token, Token::Access);
    assert_eq!(r.token, Token::Refresh);
    assert_eq!(r.username, "ann");
}

fn registered(password: &str) -> movie_rating_site::group_types::DBUserStruct {
    let info = UserInfo { username: "Indiana".to_string(), password: password.to_string() };
    create_user_data(info).unwrap()
}

#[test]
fn check_change_password_with_the_right_password() {
    let mut u = registered("password123");
    let created = u.user_data.date_created;
    change_password_at(&mut u, "password123".to_string(), "ummm378!", created + 5).unwrap();
    assert_eq!(u.user_data.date_modified, created + 5);
    assert!(verify_pass("ummm378!".to_string(), u.user_data.salt.clone(), u.user_data.hashed_password.clone()).unwrap());
    assert!(!verify_pass("password123".to_string(), u.user_data.salt, u.user_data.hashed_password).unwrap());
}

#[test]
fn check_change_password_with_a_wrong_password() {
    let mut u = registered("password123");
    let before = u.user_data.hashed_password.clone();
    change_password_at(&mut u, "nope".to_string(), "ummm378!", 5).unwrap();
    assert_eq!(u.user_data.hashed_password, before);
    assert_eq!(u.user_data.date_modified, u.user_data.date_created);
}

#[test]
fn check_date_modified_after_a_confirmed_change() {
    let mut u = registered("password123");
    let created = u.user_data.date_created;
    touch_user_at(&mut u, "password123".to_string(), created + 1).unwrap();
    assert_ne!(u.user_data.date_modified, u.user_data.date_created);
}

#[test]
fn check_change_username() {
    let mut u = registered("password123");
    let created = u.user_data.date_created;
    rename_user_at(&mut u, "Jones".to_string(), "wrong".to_string(), created + 1).unwrap();
    assert_eq!(u.username, "Indiana");
    rename_user_at(&mut u, "Jones".to_string(), "password123".to_string(), created + 1).unwrap();
    assert_eq!(u.username, "Jones");
    assert_eq!(u.user_data.date_modified, created + 1);
}

#[test]
fn another_password_is_answered_not_refused() {
    let (hash, salt) = hasher("password123").unwrap();
    assert_eq!(verify_pass("".to_string(), salt.clone(), hash.clone()).unwrap(), false);
    assert_eq!(verify_pass("x".repeat(300), salt, hash).unwrap(), false);
}

fn is_b64(c: char) -> bool {
    c.is_ascii_alphanumeric() || c == '+' || c == '/'
}

#[test]
fn a_salt_is_22_b64_characters() {
    let (_hash, salt) = hasher("password123").unwrap();
    assert_eq!(salt.chars().count(), 22);
    assert!(salt.chars().all(is_b64));
}

#[test]
fn a_new_user_id_is_a_v4_uuid() {
    let info = UserInfo { username: "Marion".to_string(), password: "raven".to_string() };
    let u = create_user_data(info).unwrap();
    let id: Vec<char> = u.user_data.id.chars().collect();
    assert_eq!(id.len(), 36);
    for (i, c) in id.iter().enumerate() {
        if i == 8 || i == 13 || i == 18 || i == 23 {
            assert_eq!(*c, '-');
        } else {
            assert!(c.is_ascii_digit() || ('a'..='f').contains(c));
        }
    }
    assert_eq!(id[14], '4');
    assert!(['8', '9', 'a', 'b'].contains(&id[19]));
    assert_eq!(u.user_data.salt.chars().count(), 22);
    assert!(u.user_data.salt.chars().all(is_b64));
}
