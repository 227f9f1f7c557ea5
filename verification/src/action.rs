//! Mouse actions, batches of them, and the line that reports one.

use vstd::prelude::*;
use vstd::string::*;
use crate::button::MouseButton;
use crate::number::Number;
use crate::text::{decimal, decimal_string};

verus! {

/// One thing to do with the mouse.
#[derive(Clone, Copy, Debug, PartialEq, Eq, Structural)]
pub enum MouseAction {
    /// Press a button and hold it.
    MouseDown(MouseButton),
    /// Let a button go.
    MouseUp(MouseButton),
    /// Move the cursor to a place on the screen, given as x and y from the
    /// top left corner.
    MouseMove(Number, Number),
}

impl MouseAction {
    /// The line that reports the action.
    pub open spec fn describe_spec(self) -> Seq<char> {
        match self {
            MouseAction::MouseDown(button) => "Mouse down button: "@ + button.name_spec(),
            MouseAction::MouseUp(button) => "Mouse up button: "@ + button.name_spec(),
            MouseAction::MouseMove(x, y) => "Mouse move to ("@ + decimal(x.pixel_spec()) + ", "@
                + decimal(y.pixel_spec()) + ")"@,
        }
    }

    /// Writes the line that reports the action: the button by its name, a
    /// move by the pixel it goes to.
    pub fn describe(&self) -> (line: String)
        ensures
            line@ == self.describe_spec(),
    {
        match self {
            MouseAction::MouseDown(button) => {
                let mut line = String::from_str("Mouse down button: ");
                line.append(button.name());
                line
            },
            MouseAction::MouseUp(button) => {
                let mut line = String::from_str("Mouse up button: ");
                line.append(button.name());
                line
            },
            MouseAction::MouseMove(x, y) => {
                let mut line = String::from_str("Mouse move to (");
                line.append(decimal_string(x.pixel()).as_str());
                line.append(", ");
                line.append(decimal_string(y.pixel()).as_str());
                line.append(")");
                line
            },
        }
    }
}

/// What one request asks for: actions in the order to carry them out, and
/// the time to wait between one action and the next, in milliseconds.
#[derive(Clone, Debug, PartialEq, Eq)]
pub struct ActionBatch {
    pub actions: Vec<MouseAction>,
    pub delay_between: Option<u64>,
}

/// What a batch holds, as plain mathematics.
pub struct BatchView {
    pub actions: Seq<MouseAction>,
    pub delay_between: Option<u64>,
}

impl View for ActionBatch {
    type V = BatchView;

    open spec fn view(&self) -> BatchView {
        BatchView { actions: self.actions@, delay_between: self.delay_between }
    }
}

impl ActionBatch {
    /// A batch of the given actions.
    pub fn new(actions: Vec<MouseAction>, delay_between: Option<u64>) -> (batch: ActionBatch)
        ensures
            batch@ == (BatchView { actions: actions@, delay_between }),
    {
        ActionBatch { actions, delay_between }
    }

    /// The batch that holds one action and asks for no waiting.
    pub fn single(action: MouseAction) -> (batch: ActionBatch)
        ensures
            batch@ == (BatchView { actions: seq![action], delay_between: None }),
    {
        let mut actions = Vec::new();
        actions.push(action);
        ActionBatch { actions, delay_between: None }
    }
}

} // verus!
