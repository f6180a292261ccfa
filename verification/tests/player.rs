use skat_engine::state::player::PlayerId;

#[test]
fn players_take_turns_in_a_cycle() {
    assert_eq!(PlayerId::FIRST.next(), PlayerId::SECOND);
    assert_eq!(PlayerId::SECOND.next(), PlayerId::THIRD);
    assert_eq!(PlayerId::THIRD.next(), PlayerId::FIRST);
    assert_eq!(PlayerId::SECOND.next().next().next(), PlayerId::SECOND);
}

#[test]
fn player_ids_and_indices() {
    assert_eq!(PlayerId::THIRD.into_inner(), 2);
    assert_eq!(usize::from(PlayerId::SECOND), 1);
    assert_eq!(PlayerId::try_from(0), Ok(PlayerId::FIRST));
    assert_eq!(PlayerId::try_from(3), Err("Player ID must be less than 3"));
}

#[test]
fn none_player() {
    assert!(PlayerId::none().is_none());
    assert!(!PlayerId::FIRST.is_none());
    assert_eq!(PlayerId::none().into_option(), None);
    assert_eq!(PlayerId::THIRD.into_option(), Some(PlayerId::THIRD));
}
