use vstd::prelude::*;

verus! {

/// An edge transition of one of the six buttons of a client, or no action.
#[derive(Clone, Copy, PartialEq, Eq, Structural, Debug, Hash)]
pub enum ActionEvent {
    UpPressed,
    UpReleased,
    RightPressed,
    RightReleased,
    DownPressed,
    DownReleased,
    LeftPressed,
    LeftReleased,
    APressed,
    AReleased,
    BPressed,
    BReleased,
    NoAction,
}

impl Default for ActionEvent {
    fn default() -> (r: Self)
        ensures
            r == ActionEvent::NoAction,
    {
        ActionEvent::NoAction
    }
}

/// The action that a wire code (the byte after the action tag) stands for.
pub open spec fn action_of_code(code: u8) -> Option<ActionEvent> {
    match code {
        0 => Some(ActionEvent::UpPressed),
        1 => Some(ActionEvent::UpReleased),
        2 => Some(ActionEvent::RightPressed),
        3 => Some(ActionEvent::RightReleased),
        4 => Some(ActionEvent::DownPressed),
        5 => Some(ActionEvent::DownReleased),
        6 => Some(ActionEvent::LeftPressed),
        7 => Some(ActionEvent::LeftReleased),
        8 => Some(ActionEvent::APressed),
        9 => Some(ActionEvent::AReleased),
        10 => Some(ActionEvent::BPressed),
        11 => Some(ActionEvent::BReleased),
        _ => None,
    }
}

/// The wire code of an action; `ActionEvent::NoAction` has none and maps to 12.
pub open spec fn code_of_action(a: ActionEvent) -> u8 {
    match a {
        ActionEvent::UpPressed => 0,
        ActionEvent::UpReleased => 1,
        ActionEvent::RightPressed => 2,
        ActionEvent::RightReleased => 3,
        ActionEvent::DownPressed => 4,
        ActionEvent::DownReleased => 5,
        ActionEvent::LeftPressed => 6,
        ActionEvent::LeftReleased => 7,
        ActionEvent::APressed => 8,
        ActionEvent::AReleased => 9,
        ActionEvent::BPressed => 10,
        ActionEvent::BReleased => 11,
        ActionEvent::NoAction => 12,
    }
}

/// The buttons a player currently holds, with the latest action applied.
#[derive(Debug, Clone, Copy, PartialEq, Eq, Structural)]
pub struct PlayerAction {
    pub up_pressed: bool,
    pub right_pressed: bool,
    pub down_pressed: bool,
    pub left_pressed: bool,
    pub a_pressed: bool,
    pub b_pressed: bool,
    /// The latest action that was applied.
    pub prev_action: ActionEvent,
    /// Set when an action was applied since `prev_action` was last read.
    pub new_action_since_last_read: bool,
}

impl Default for PlayerAction {
    fn default() -> (r: Self)
        ensures
            r == PlayerAction::idle(),
    {
        PlayerAction {
            up_pressed: false,
            right_pressed: false,
            down_pressed: false,
            left_pressed: false,
            a_pressed: false,
            b_pressed: false,
            prev_action: ActionEvent::NoAction,
            new_action_since_last_read: false,
        }
    }
}

impl PlayerAction {
    /// No button held, no action applied yet.
    pub open spec fn idle() -> PlayerAction {
        PlayerAction {
            up_pressed: false,
            right_pressed: false,
            down_pressed: false,
            left_pressed: false,
            a_pressed: false,
            b_pressed: false,
            prev_action: ActionEvent::NoAction,
            new_action_since_last_read: false,
        }
    }

    /// The state after `e` is applied: the button that `e` names goes down or
    /// up, `e` becomes the latest action and is marked unread.
    pub open spec fn applied(self, e: ActionEvent) -> PlayerAction {
        let s = PlayerAction { prev_action: e, new_action_since_last_read: true, ..self };
        match e {
            ActionEvent::UpPressed => PlayerAction { up_pressed: true, ..s },
            ActionEvent::UpReleased => PlayerAction { up_pressed: false, ..s },
            ActionEvent::RightPressed => PlayerAction { right_pressed: true, ..s },
            ActionEvent::RightReleased => PlayerAction { right_pressed: false, ..s },
            ActionEvent::DownPressed => PlayerAction { down_pressed: true, ..s },
            ActionEvent::DownReleased => PlayerAction { down_pressed: false, ..s },
            ActionEvent::LeftPressed => PlayerAction { left_pressed: true, ..s },
            ActionEvent::LeftReleased => PlayerAction { left_pressed: false, ..s },
            ActionEvent::APressed => PlayerAction { a_pressed: true, ..s },
            ActionEvent::AReleased => PlayerAction { a_pressed: false, ..s },
            ActionEvent::BPressed => PlayerAction { b_pressed: true, ..s },
            ActionEvent::BReleased => PlayerAction { b_pressed: false, ..s },
            ActionEvent::NoAction => s,
        }
    }

    /// True when no button is held.
    pub open spec fn no_button_held(self) -> bool {
        !self.up_pressed && !self.right_pressed && !self.down_pressed && !self.left_pressed
            && !self.a_pressed && !self.b_pressed
    }

    /// Direction along one axis: 1 when only the positive button is held, -1
    /// when only the negative one is, 0 otherwise.
    pub open spec fn axis(positive: bool, negative: bool) -> int {
        if positive && !negative {
            1
        } else if negative && !positive {
            -1
        } else {
            0
        }
    }

    pub fn apply(&mut self, e: ActionEvent)
        ensures
            *final(self) == old(self).applied(e),
    {
        match e {
            ActionEvent::UpPressed => self.up_pressed = true,
            ActionEvent::UpReleased => self.up_pressed = false,
            ActionEvent::RightPressed => self.right_pressed = true,
            ActionEvent::RightReleased => self.right_pressed = false,
            ActionEvent::DownPressed => self.down_pressed = true,
            ActionEvent::DownReleased => self.down_pressed = false,
            ActionEvent::LeftPressed => self.left_pressed = true,
            ActionEvent::LeftReleased => self.left_pressed = false,
            ActionEvent::APressed => self.a_pressed = true,
            ActionEvent::AReleased => self.a_pressed = false,
            ActionEvent::BPressed => self.b_pressed = true,
            ActionEvent::BReleased => self.b_pressed = false,
            ActionEvent::NoAction => {},
        }
        self.prev_action = e;
        self.new_action_since_last_read = true;
    }

    pub fn release_all(&mut self)
        ensures
            *final(self) == (PlayerAction {
                up_pressed: false,
                right_pressed: false,
                down_pressed: false,
                left_pressed: false,
                a_pressed: false,
                b_pressed: false,
                ..*old(self)
            }),
    {
        self.up_pressed = false;
        self.right_pressed = false;
        self.down_pressed = false;
        self.left_pressed = false;
        self.a_pressed = false;
        self.b_pressed = false;
    }

    pub fn is_idle(&self) -> (r: bool)
        ensures
            r == self.no_button_held(),
    {
        !self.up_pressed && !self.right_pressed && !self.down_pressed && !self.left_pressed
            && !self.a_pressed && !self.b_pressed
    }

    /// Hands out the latest action once: `Some` when an action was applied
    /// since the last read, and then `None` until the next one.
    pub fn take_new_action(&mut self) -> (r: Option<ActionEvent>)
        ensures
            old(self).new_action_since_last_read ==> r == Some(old(self).prev_action),
            !old(self).new_action_since_last_read ==> r is None,
            *final(self) == (PlayerAction { new_action_since_last_read: false, ..*old(self) }),
    {
        if self.new_action_since_last_read {
            self.new_action_since_last_read = false;
            Some(self.prev_action)
        } else {
            None
        }
    }

    /// Horizontal direction: right is positive.
    pub fn direction_x(&self) -> (r: i8)
        ensures
            r as int == PlayerAction::axis(self.right_pressed, self.left_pressed),
    {
        if self.right_pressed && self.left_pressed {
            0
        } else if self.right_pressed {
            1
        } else if self.left_pressed {
            -1
        } else {
            0
        }
    }

    /// Vertical direction: up is positive.
    pub fn direction_y(&self) -> (r: i8)
        ensures
            r as int == PlayerAction::axis(self.up_pressed, self.down_pressed),
    {
        if self.up_pressed && self.down_pressed {
            0
        } else if self.up_pressed {
            1
        } else if self.down_pressed {
            -1
        } else {
            0
        }
    }
}

} // verus!
