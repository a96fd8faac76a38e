use movie_rating_site::errors::{rejection_reply, WarpRejections};
use movie_rating_site::omdb::{api_key_from_file, query_url};

#[test]
fn refusals_print_like_debug() {
    let e = WarpRejections::AuthError("auth".to_string());
    assert_eq!(e.text(), "AuthError(\"auth\")");
    let s: String = WarpRejections::UserNotInGroup("a \"q\"".to_string()).into();
    assert_eq!(s, "UserNotInGroup(\"a \\\"q\\\"\")");
}

#[test]
fn refusal_replies() {
    let e = WarpRejections::SqlxError("db".to_string());
    let r = rejection_reply(Some(&e), "ignored");
    assert_eq!(r.code, 400);
    assert_eq!(r.message, "SqlxError(\"db\")");
    let r = rejection_reply(None, "Rejection(NotFound)");
    assert_eq!(r.code, 500);
    assert_eq!(r.message, "unhandled error: Rejection(NotFound)");
}

#[test]
fn omdb_request() {
    assert_eq!(api_key_from_file("  k3y\n"), "k3y");
    assert_eq!(
        query_url("tt1160419", "k3y"),
        "http://www.omdbapi.com/?i=tt1160419&plot=full&apikey=k3y"
    );
}
