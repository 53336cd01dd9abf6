use game_core::protocol::UserId;
use game_core::session::Users;

#[test]
fn identifiers_start_at_one_and_count_up() {
    let mut users = Users::new();
    assert_eq!(users.len(), 0);
    assert_eq!(users.add_next(), UserId(1));
    assert_eq!(users.add_next(), UserId(2));
    assert_eq!(users.add_next(), UserId(3));
    assert_eq!(users.len(), 3);
    assert!(users.contains(UserId(2)));
    assert!(!users.contains(UserId(4)));
}

#[test]
fn freed_identifier_is_the_next_allocated() {
    let mut users = Users::new();
    users.add_next();
    users.add_next();
    users.add_next();
    users.free(UserId(2));
    assert!(!users.contains(UserId(2)));
    assert_eq!(users.add_next(), UserId(2));
}

#[test]
fn smallest_free_identifier_wins() {
    let mut users = Users::new();
    users.add_next();
    users.add_next();
    users.add_next();
    users.free(UserId(3));
    users.free(UserId(1));
    assert_eq!(users.add_next(), UserId(1));
    assert_eq!(users.add_next(), UserId(3));
    assert_eq!(users.add_next(), UserId(4));
}

#[test]
fn freeing_an_unknown_identifier_changes_nothing() {
    let mut users = Users::new();
    users.add_next();
    users.free(UserId(9));
    assert_eq!(users.len(), 1);
    assert!(users.contains(UserId(1)));
}
