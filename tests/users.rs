use azas_tower::components::Point;
use azas_tower::users::{InnerGameState, User, UserUpdate};

fn user(name: &str, x: i32, y: i32) -> User {
    User { name: name.to_string(), position: Point(x, y) }
}

#[test]
fn add_get_and_replace_user() {
    let mut state = InnerGameState::new();
    assert!(state.get_user(&"s1".to_string()).is_none());
    state.add_user("s1".to_string(), user("anon-s1", 0, 128));
    state.add_user("s2".to_string(), user("anon-s2", 1, 1));
    let got = state.get_user(&"s1".to_string()).unwrap();
    assert_eq!(got.name, "anon-s1");
    assert_eq!(got.position, Point(0, 128));
    state.add_user("s1".to_string(), user("again", 5, 5));
    assert_eq!(state.users.len(), 2);
    assert_eq!(state.get_user(&"s1".to_string()).unwrap().name, "again");
}

#[test]
fn remove_user_only_removes_that_user() {
    let mut state = InnerGameState::new();
    state.add_user("a".to_string(), user("A", 0, 0));
    state.add_user("b".to_string(), user("B", 0, 0));
    state.remove_user(&"a".to_string());
    assert!(state.get_user(&"a".to_string()).is_none());
    assert_eq!(state.get_user(&"b".to_string()).unwrap().name, "B");
    state.remove_user(&"missing".to_string());
    assert_eq!(state.users.len(), 1);
}

#[test]
fn update_user_replaces_given_fields() {
    let mut state = InnerGameState::new();
    state.add_user("a".to_string(), user("A", 1, 2));
    let moved = state
        .update_user(&"a".to_string(), UserUpdate { name: None, position: Some(Point(7, -3)) })
        .unwrap();
    assert_eq!(moved.name, "A");
    assert_eq!(moved.position, Point(7, -3));
    let renamed = state
        .update_user(&"a".to_string(), UserUpdate { name: Some("Z".to_string()), position: None })
        .unwrap();
    assert_eq!(renamed.name, "Z");
    assert_eq!(renamed.position, Point(7, -3));
    assert!(state
        .update_user(&"nobody".to_string(), UserUpdate { name: Some("Q".to_string()), position: None })
        .is_none());
}

#[test]
fn snapshot_is_an_equal_copy() {
    let mut state = InnerGameState::new();
    state.add_user("a".to_string(), user("A", 1, 2));
    let snap = state.get_snapshot();
    state.remove_user(&"a".to_string());
    assert_eq!(snap.users.len(), 1);
    assert_eq!(snap.users[0].id, "a");
    assert_eq!(snap.get_user(&"a".to_string()).unwrap().position, Point(1, 2));
    let d = User::default();
    assert_eq!(d.name, "");
    assert_eq!(d.position, Point(0, 0));
}
