use dma_conflicts::models::User;
use std::cmp::Ordering;

fn user(id: i64, name: &str) -> User {
    User {
        id,
        name: name.to_string(),
        avatar: String::new(),
        display_name: name.to_string(),
    }
}

#[test]
fn users_with_the_same_id_are_equal_whatever_their_names() {
    assert!(user(7, "a") == user(7, "b"));
    assert!(user(7, "a") != user(8, "a"));
}

#[test]
fn users_are_ordered_by_id() {
    assert_eq!(user(1, "z").partial_cmp(&user(2, "a")), Some(Ordering::Less));
    assert_eq!(user(2, "a").partial_cmp(&user(1, "z")), Some(Ordering::Greater));
    assert_eq!(user(3, "a").partial_cmp(&user(3, "b")), Some(Ordering::Equal));
    assert!(user(-5, "x") < user(0, "x"));
}

#[test]
fn user_equality_is_an_equivalence() {
    let a = user(4, "a");
    let b = user(4, "b");
    let c = user(4, "c");
    assert!(a == a);
    assert!(a == b && b == a);
    assert!(a == b && b == c && a == c);
}

#[test]
fn the_total_order_compares_all_fields_in_turn() {
    assert_eq!(user(1, "b").cmp(&user(1, "a")), Ordering::Greater);
    assert_eq!(user(1, "a").cmp(&user(2, "a")), Ordering::Less);
    assert_eq!(user(1, "a").cmp(&user(1, "a")), Ordering::Equal);
}
