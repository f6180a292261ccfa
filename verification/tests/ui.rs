use skat_engine::ui::UiState;

#[test]
fn focus_moves_around_the_hand() {
    let mut ui = UiState::new();
    ui.focus_next_card(3);
    assert_eq!(ui.focused_card, Some(0));
    ui.focus_next_card(3);
    ui.focus_next_card(3);
    assert_eq!(ui.focused_card, Some(2));
    ui.focus_next_card(3);
    assert_eq!(ui.focused_card, Some(0));
    ui.focus_prev_card(3);
    assert_eq!(ui.focused_card, Some(2));
    ui.unfocus_card();
    assert_eq!(ui.focused_card, None);
    ui.focus_prev_card(3);
    assert_eq!(ui.focused_card, Some(2));
    ui.focus_card(3);
    assert_eq!(ui.focused_card, Some(2));
    ui.focus_next_card(0);
    assert_eq!(ui.focused_card, None);
    ui.focus_card(4);
    assert_eq!(ui.focused_card, Some(0));
}

#[test]
fn playing_without_focus_asks_for_a_card() {
    let mut ui = UiState::new();
    assert_eq!(ui.card_to_play(), None);
    assert_eq!(ui.error, Some("Please select a card to play."));
    ui.focus_card(2);
    assert_eq!(ui.error, None);
    assert_eq!(ui.card_to_play(), Some(0));
    ui.card_played(false);
    assert_eq!(ui.error, Some("Invalid card."));
    assert_eq!(ui.focused_card, Some(0));
    ui.card_played(true);
    assert_eq!(ui.focused_card, None);
}

#[test]
fn help_and_exit() {
    let mut ui = UiState::new();
    assert!(!ui.show_help);
    ui.show_help();
    assert!(ui.show_help);
    ui.hide_help();
    assert!(!ui.show_help);
    ui.exit();
    assert!(ui.exit);
}
