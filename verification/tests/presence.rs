use chat_room::presence::UserCnt;

#[test]
fn counter_starts_at_zero() {
    let users = UserCnt::new();
    assert_eq!(users.current(), 0);
}

#[test]
fn add_user_returns_the_new_count() {
    let mut users = UserCnt::new();
    assert_eq!(users.add_user(), 1);
    assert_eq!(users.add_user(), 2);
    assert_eq!(users.add_user(), 3);
    assert_eq!(users.current(), 3);
}

#[test]
fn remove_user_returns_the_new_count() {
    let mut users = UserCnt::new();
    users.add_user();
    users.add_user();
    assert_eq!(users.remove_user(), 1);
    assert_eq!(users.remove_user(), 0);
    assert_eq!(users.current(), 0);
}

#[test]
fn remove_user_has_no_floor_at_zero() {
    let mut users = UserCnt::new();
    assert_eq!(users.remove_user(), -1);
    assert_eq!(users.remove_user(), -2);
    assert_eq!(users.current(), -2);
    assert_eq!(users.add_user(), -1);
}

#[test]
fn add_and_remove_cancel() {
    let mut users = UserCnt::new();
    for _ in 0..100 {
        users.add_user();
    }
    for _ in 0..40 {
        users.remove_user();
    }
    assert_eq!(users.current(), 60);
}

#[test]
fn counter_reaches_the_largest_count() {
    let mut users = UserCnt::new();
    for _ in 0..1000 {
        users.add_user();
    }
    assert_eq!(users.current(), 1000);
    assert!(users.current() < isize::MAX);
}
