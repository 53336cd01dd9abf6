use game_core::mapping::PlayerMapping;
use game_core::protocol::UserId;

#[test]
fn slots_are_assigned_in_order() {
    let mut pm = PlayerMapping::new();
    assert_eq!(pm.connect_lowest_num(&UserId(10)), Some(1));
    assert_eq!(pm.connect_lowest_num(&UserId(11)), Some(2));
    assert_eq!(pm.connect_lowest_num(&UserId(12)), Some(3));
    assert_eq!(pm.get(1), Some(UserId(10)));
    assert_eq!(pm.get(2), Some(UserId(11)));
    assert_eq!(pm.get(3), Some(UserId(12)));
}

#[test]
fn freed_slot_is_reused() {
    let mut pm = PlayerMapping::new();
    assert_eq!(pm.connect_lowest_num(&UserId(10)), Some(1));
    assert_eq!(pm.connect_lowest_num(&UserId(11)), Some(2));
    assert_eq!(pm.remove(&UserId(10)), Some(1));
    // the freed slot 1 is taken again, not 3
    assert_eq!(pm.connect_lowest_num(&UserId(12)), Some(1));
    assert_eq!(pm.get(1), Some(UserId(12)));
}

#[test]
fn remove_of_unknown_user_is_none() {
    let mut pm = PlayerMapping::new();
    pm.connect_lowest_num(&UserId(10));
    assert_eq!(pm.remove(&UserId(99)), None);
    assert_eq!(pm.get(1), Some(UserId(10)));
}

#[test]
fn players_are_listed_in_ascending_order() {
    let mut pm = PlayerMapping::new();
    pm.connect_lowest_num(&UserId(10));
    pm.connect_lowest_num(&UserId(11));
    pm.connect_lowest_num(&UserId(12));
    pm.remove(&UserId(11));
    assert_eq!(pm.get_players(), vec![1, 3]);
}

#[test]
fn all_slots_taken_rejects_the_next_connection() {
    let mut pm = PlayerMapping::new();
    for i in 0..255u64 {
        assert_eq!(pm.connect_lowest_num(&UserId(1000 + i)), Some((i + 1) as u8));
    }
    assert_eq!(pm.connect_lowest_num(&UserId(2000)), None);
    // a freed slot opens the door again
    assert_eq!(pm.remove(&UserId(1000 + 41)), Some(42));
    assert_eq!(pm.connect_lowest_num(&UserId(2000)), Some(42));
}
