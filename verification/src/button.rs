//! The mouse buttons a client can name.

use vstd::prelude::*;
use crate::text::same_text;

verus! {

/// A button of the mouse, or one notch of the wheel in one direction.
#[derive(Clone, Copy, Debug, PartialEq, Eq, Structural)]
pub enum MouseButton {
    Left,
    Middle,
    Right,
    ScrollUp,
    ScrollDown,
    ScrollLeft,
    ScrollRight,
}

impl MouseButton {
    /// The name of the button on the wire and in status lines.
    pub open spec fn name_spec(self) -> Seq<char> {
        match self {
            MouseButton::Left => "Left"@,
            MouseButton::Middle => "Middle"@,
            MouseButton::Right => "Right"@,
            MouseButton::ScrollUp => "ScrollUp"@,
            MouseButton::ScrollDown => "ScrollDown"@,
            MouseButton::ScrollLeft => "ScrollLeft"@,
            MouseButton::ScrollRight => "ScrollRight"@,
        }
    }

    /// The button that a name stands for, if it is the name of a button.
    pub open spec fn named(text: Seq<char>) -> Option<MouseButton> {
        if text == "Left"@ {
            Some(MouseButton::Left)
        } else if text == "Middle"@ {
            Some(MouseButton::Middle)
        } else if text == "Right"@ {
            Some(MouseButton::Right)
        } else if text == "ScrollUp"@ {
            Some(MouseButton::ScrollUp)
        } else if text == "ScrollDown"@ {
            Some(MouseButton::ScrollDown)
        } else if text == "ScrollLeft"@ {
            Some(MouseButton::ScrollLeft)
        } else if text == "ScrollRight"@ {
            Some(MouseButton::ScrollRight)
        } else {
            None
        }
    }

    /// The name of the button, exactly as a request spells it.
    pub fn name(&self) -> (text: &'static str)
        ensures
            text@ == self.name_spec(),
    {
        match self {
            MouseButton::Left => "Left",
            MouseButton::Middle => "Middle",
            MouseButton::Right => "Right",
            MouseButton::ScrollUp => "ScrollUp",
            MouseButton::ScrollDown => "ScrollDown",
            MouseButton::ScrollLeft => "ScrollLeft",
            MouseButton::ScrollRight => "ScrollRight",
        }
    }

    /// Reads a button's name. Names are case-sensitive; anything that is not
    /// one of the seven names gives `None`.
    pub fn from_name(text: &str) -> (button: Option<MouseButton>)
        ensures
            button == MouseButton::named(text@),
    {
        if same_text(text, "Left") {
            Some(MouseButton::Left)
        } else if same_text(text, "Middle") {
            Some(MouseButton::Middle)
        } else if same_text(text, "Right") {
            Some(MouseButton::Right)
        } else if same_text(text, "ScrollUp") {
            Some(MouseButton::ScrollUp)
        } else if same_text(text, "ScrollDown") {
            Some(MouseButton::ScrollDown)
        } else if same_text(text, "ScrollLeft") {
            Some(MouseButton::ScrollLeft)
        } else if same_text(text, "ScrollRight") {
            Some(MouseButton::ScrollRight)
        } else {
            None
        }
    }

    /// No two buttons share a name: reading a button's name gives the button
    /// back.
    pub proof fn lemma_name_identifies(self)
        ensures
            MouseButton::named(self.name_spec()) == Some(self),
    {
        reveal_strlit("Left");
        reveal_strlit("Middle");
        reveal_strlit("Right");
        reveal_strlit("ScrollUp");
        reveal_strlit("ScrollDown");
        reveal_strlit("ScrollLeft");
        reveal_strlit("ScrollRight");
        match self {
            MouseButton::Left => {},
            MouseButton::Middle => {
                assert("Middle"@[0] != "Left"@[0]);
            },
            MouseButton::Right => {
                assert("Right"@[0] != "Left"@[0]);
                assert("Right"@[0] != "Middle"@[0]);
            },
            MouseButton::ScrollUp => {
                assert("ScrollUp"@[0] != "Left"@[0]);
                assert("ScrollUp"@[0] != "Middle"@[0]);
                assert("ScrollUp"@[0] != "Right"@[0]);
            },
            MouseButton::ScrollDown => {
                assert("ScrollDown"@[0] != "Left"@[0]);
                assert("ScrollDown"@[0] != "Middle"@[0]);
                assert("ScrollDown"@[0] != "Right"@[0]);
                assert("ScrollDown"@.len() != "ScrollUp"@.len());
            },
            MouseButton::ScrollLeft => {
                assert("ScrollLeft"@[0] != "Left"@[0]);
                assert("ScrollLeft"@[0] != "Middle"@[0]);
                assert("ScrollLeft"@[0] != "Right"@[0]);
                assert("ScrollLeft"@.len() != "ScrollUp"@.len());
                assert("ScrollLeft"@[6] != "ScrollDown"@[6]);
            },
            MouseButton::ScrollRight => {
                assert("ScrollRight"@[0] != "Left"@[0]);
                assert("ScrollRight"@[0] != "Middle"@[0]);
                assert("ScrollRight"@[0] != "Right"@[0]);
                assert("ScrollRight"@.len() != "ScrollUp"@.len());
                assert("ScrollRight"@.len() != "ScrollDown"@.len());
                assert("ScrollRight"@.len() != "ScrollLeft"@.len());
            },
        }
    }
}

} // verus!
