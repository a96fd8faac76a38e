use movie_rating_site::list_text::{add_one_to_list, remove_one_from_list, string_to_vec, vec_to_string};

fn strings(v: &[&str]) -> Vec<String> {
    v.iter().map(|s| s.to_string()).collect()
}

#[test]
fn reads_a_stored_list() {
    assert_eq!(string_to_vec("a , b , c".to_string()), strings(&["a", "b", "c"]));
    assert_eq!(string_to_vec("a,b,,c".to_string()), strings(&["a", "b", "", "c"]));
    assert_eq!(string_to_vec("  single  ".to_string()), strings(&["  single  "]));
    assert_eq!(string_to_vec(String::new()), Vec::<String>::new());
    assert_eq!(string_to_vec(",".to_string()), strings(&["", ""]));
}

#[test]
fn writes_a_list() {
    assert_eq!(vec_to_string(strings(&["a", "b", "c"])), "a , b , c");
    assert_eq!(vec_to_string(strings(&["only"])), "only");
    assert_eq!(vec_to_string(Vec::new()), "");
}

#[test]
fn written_list_reads_back() {
    let v = strings(&["alice", "bob", "carol"]);
    assert_eq!(string_to_vec(vec_to_string(v.clone())), v);
}

#[test]
fn removes_every_occurrence() {
    assert_eq!(remove_one_from_list("a , b , a".to_string(), "a".to_string()).unwrap(), "b");
    assert_eq!(remove_one_from_list("a , b".to_string(), "z".to_string()).unwrap(), "a , b");
    assert_eq!(remove_one_from_list(String::new(), "z".to_string()).unwrap(), "");
}

#[test]
fn adds_at_the_end() {
    assert_eq!(add_one_to_list("a , b".to_string(), "c".to_string()).unwrap(), "a , b , c");
    assert_eq!(add_one_to_list(String::new(), "c".to_string()).unwrap(), "c");
}

#[test]
fn remove_undoes_add() {
    let added = add_one_to_list("a , b".to_string(), "c".to_string()).unwrap();
    assert_eq!(remove_one_from_list(added, "c".to_string()).unwrap(), "a , b");
}
