use vstd::prelude::*;

verus! {

/// What the interactive table shows besides the game: the card of the hand
/// that has the focus, whether the help is open, the last error, and whether
/// the player asked to quit. Each method takes the number of cards on the hand
/// of the player to play where it needs it.
pub struct UiState {
    pub focused_card: Option<usize>,
    pub show_help: bool,
    pub error: Option<&'static str>,
    pub exit: bool,
}



impl UiState {
    pub fn new() -> (r: Self)
        ensures
            r.focused_card is None,
            !r.show_help,
            r.error is None,
            !r.exit,
    {
        UiState { focused_card: None, show_help: false, error: None, exit: false }
    }

    pub fn exit(&mut self)
        ensures
            final(self).exit,
            final(self).focused_card == old(self).focused_card,
            final(self).show_help == old(self).show_help,
            final(self).error == old(self).error,
    {
        self.exit = true;
    }

    pub fn clear_error(&mut self)
        ensures
            final(self).error is None,
            final(self).focused_card == old(self).focused_card,
            final(self).show_help == old(self).show_help,
            final(self).exit == old(self).exit,
    {
        if self.error.is_some() {
            self.error = None;
        }
    }

    pub fn set_focused_card(&mut self, card: Option<usize>)
        ensures
            final(self).focused_card == card,
            final(self).show_help == old(self).show_help,
            final(self).error == old(self).error,
            final(self).exit == old(self).exit,
    {
        if self.focused_card != card {
            self.focused_card = card;
        }
    }

    /// Moves the focus to the next card of the hand, from the last card back
    /// to the first; without a focus, to the first card.
    pub fn focus_next_card(&mut self, hand_len: usize)
        requires
            old(self).focused_card != Some(usize::MAX),
        ensures
            final(self).error is None,
            final(self).focused_card == (if hand_len == 0 {
                None
            } else {
                match old(self).focused_card {
                    Some(focused) => Some(((focused + 1) % (hand_len as int)) as usize),
                    None => Some(0usize),
                }
            }),
            final(self).show_help == old(self).show_help,
            final(self).exit == old(self).exit,
    {
        self.clear_error();

        if hand_len == 0 {
            self.set_focused_card(None);
            return;
        }

        let next_card = if let Some(focused_card) = self.focused_card {
            (focused_card + 1) % hand_len
        } else {
            0
        };

        self.set_focused_card(Some(next_card));
    }

    /// Moves the focus to the previous card of the hand, from the first card
    /// back to the last; without a focus, to the last card.
    pub fn focus_prev_card(&mut self, hand_len: usize)
        ensures
            final(self).error is None,
            final(self).focused_card == (if hand_len == 0 {
                None
            } else {
                match old(self).focused_card {
                    Some(focused) => if focused > 0 {
                        Some((focused - 1) as usize)
                    } else {
                        Some((hand_len - 1) as usize)
                    },
                    None => Some((hand_len - 1) as usize),
                }
            }),
            final(self).show_help == old(self).show_help,
            final(self).exit == old(self).exit,
    {
        self.clear_error();

        if hand_len == 0 {
            self.focused_card = None;
            return;
        }

        let next_card = if let Some(focused_card) = self.focused_card {
            if focused_card > 0 {
                focused_card - 1
            } else {
                hand_len - 1
            }
        } else {
            hand_len - 1
        };

        self.set_focused_card(Some(next_card));
    }

    /// Focuses the first card of the hand, unless a card has the focus.
    pub fn focus_card(&mut self, hand_len: usize)
        ensures
            final(self).error is None,
            final(self).focused_card == (if hand_len == 0 {
                None
            } else if old(self).focused_card is None {
                Some(0usize)
            } else {
                old(self).focused_card
            }),
            final(self).show_help == old(self).show_help,
            final(self).exit == old(self).exit,
    {
        self.clear_error();

        if hand_len == 0 {
            self.set_focused_card(None);
            return;
        }

        if self.focused_card.is_none() {
            self.set_focused_card(Some(0));
        }
    }

    pub fn unfocus_card(&mut self)
        ensures
            final(self).error is None,
            final(self).focused_card is None,
            final(self).show_help == old(self).show_help,
            final(self).exit == old(self).exit,
    {
        self.clear_error();
        self.set_focused_card(None);
    }

    /// The card the player asks to play: the focused one. Without a focus
    /// the player is asked to select a card.
    pub fn card_to_play(&mut self) -> (r: Option<usize>)
        ensures
            r == old(self).focused_card,
            final(self).focused_card == old(self).focused_card,
            final(self).error == (if r is None {
                Some("Please select a card to play.")
            } else {
                old(self).error
            }),
            final(self).show_help == old(self).show_help,
            final(self).exit == old(self).exit,
    {
        match self.focused_card {
            Some(focused_card) => Some(focused_card),
            None => {
                self.error = Some("Please select a card to play.");
                None
            },
        }
    }

    /// Records the answer of the game to the focused card: once played, the
    /// focus is cleared; a refused card is reported as invalid.
    pub fn card_played(&mut self, accepted: bool)
        ensures
            final(self).focused_card == (if accepted { None } else { old(self).focused_card }),
            final(self).error == (if accepted { old(self).error } else { Some("Invalid card.") }),
            final(self).show_help == old(self).show_help,
            final(self).exit == old(self).exit,
    {
        if accepted {
            self.set_focused_card(None);
        } else {
            self.error = Some("Invalid card.");
        }
    }

    pub fn show_help(&mut self)
        ensures
            final(self).show_help,
            final(self).focused_card == old(self).focused_card,
            final(self).error == old(self).error,
            final(self).exit == old(self).exit,
    {
        if !self.show_help {
            self.show_help = true;
        }
    }

    pub fn hide_help(&mut self)
        ensures
            !final(self).show_help,
            final(self).focused_card == old(self).focused_card,
            final(self).error == old(self).error,
            final(self).exit == old(self).exit,
    {
        if self.show_help {
            self.show_help = false;
        }
    }
}

} // verus!
