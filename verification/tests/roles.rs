use rbac_user::roles::{distinct_roles, has_role, insert_role};

fn names(given: &[&str]) -> Vec<String> {
    given.iter().map(|s| s.to_string()).collect()
}

#[test]
fn insert_into_empty() {
    let mut roles: Vec<String> = Vec::new();
    assert!(insert_role(&mut roles, String::from("reader")));
    assert_eq!(roles, names(&["reader"]));
}

#[test]
fn insert_twice_leaves_one() {
    let mut roles = names(&["writer"]);
    assert!(insert_role(&mut roles, String::from("reader")));
    assert!(!insert_role(&mut roles, String::from("reader")));
    assert_eq!(roles, names(&["writer", "reader"]));
    assert_eq!(roles.iter().filter(|r| r.as_str() == "reader").count(), 1);
}

#[test]
fn insert_tells_names_apart_by_case() {
    let mut roles = names(&["admin"]);
    assert!(insert_role(&mut roles, String::from("Admin")));
    assert!(insert_role(&mut roles, String::from("")));
    assert!(!insert_role(&mut roles, String::from("")));
    assert_eq!(roles, names(&["admin", "Admin", ""]));
}

#[test]
fn has_role_finds_what_is_there() {
    let roles = names(&["a", "b", "c"]);
    assert!(has_role(&roles, &String::from("a")));
    assert!(has_role(&roles, &String::from("c")));
    assert!(!has_role(&roles, &String::from("d")));
    assert!(!has_role(&roles, &String::from("")));
    assert!(!has_role(&Vec::new(), &String::from("a")));
}

#[test]
fn distinct_keeps_first_occurrences_in_order() {
    assert_eq!(
        distinct_roles(&names(&["b", "a", "b", "c", "a", "a"])),
        names(&["b", "a", "c"])
    );
}

#[test]
fn distinct_of_distinct_is_the_same() {
    assert_eq!(distinct_roles(&names(&["x", "y"])), names(&["x", "y"]));
    assert_eq!(distinct_roles(&Vec::new()), Vec::<String>::new());
}
