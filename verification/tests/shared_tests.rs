use movie_rating_site::imdb_types::ImdbQuery;

#[test]
fn check_query() {
    let test_1: &str = "is this a query?";
    let query_1: ImdbQuery = test_1.into();
    println!("{:?}", &query_1);

    let test_2: String = String::from("another query");
    let query_2: ImdbQuery = test_2.into();
    println!("{:?}", &query_2);

    let test_3: usize = 47;
    let query_3: ImdbQuery = test_3.into();
    println!("{:?}", &query_3);
}

#[test]
fn query_from_each_kind_holds_its_text() {
    let a: ImdbQuery = "is this a query?".into();
    assert_eq!(a.query, "is this a query?");
    let b: ImdbQuery = String::from("another query").into();
    assert_eq!(b.query, "another query");
    let c: ImdbQuery = 47usize.into();
    assert_eq!(c.query, "47");
    let d: ImdbQuery = 0usize.into();
    assert_eq!(d.query, "0");
    let e: ImdbQuery = 1234567890usize.into();
    assert_eq!(e.query, "1234567890");
}
