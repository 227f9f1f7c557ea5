//! The wire format of requests.
//!
//! A request is a JSON object. Its member `actions` is required and holds a
//! list of actions; its member `delay_between` may be left out or be `null`,
//! and otherwise holds a whole number of milliseconds from zero up. Other
//! members are ignored.
//!
//! An action is an object with exactly one member, whose key names the kind
//! of action: `{"MouseDown": "Left"}`, `{"MouseUp": "Right"}`,
//! `{"MouseMove": [123.0, 456.0]}`. A button is written as its name, a place
//! as a list of two numbers, x before y.

use vstd::prelude::*;
use vstd::string::*;
use crate::action::{ActionBatch, BatchView, MouseAction};
use crate::button::MouseButton;
use crate::json::{
    find_member, items_view, member, members_view, parse, parsed, settled, Json, Tree,
};
use crate::number::Number;
use crate::text::same_text;

verus! {

/// Why a request was not understood.
#[derive(Clone, Copy, Debug, PartialEq, Eq, Structural)]
pub enum DecodeError {
    /// The body is not JSON text that the reader accepts: it is not the text
    /// of exactly one value, or it nests values deeper than 128 levels, or it
    /// holds a number beyond the range of a double.
    Malformed,
    /// The request has no member `actions`.
    MissingField,
    /// A value is of another JSON type than its place asks for, or a list or
    /// an object has the wrong number of entries.
    WrongType,
    /// An action's key is not the name of a kind of action, or a button's
    /// name is not the name of a button.
    UnknownTag,
}

/// The button that a JSON value stands for.
pub open spec fn button_of(tree: Tree) -> Result<MouseButton, DecodeError> {
    match tree {
        Tree::Text(name) => match MouseButton::named(name) {
            Some(button) => Ok(button),
            None => Err(DecodeError::UnknownTag),
        },
        _ => Err(DecodeError::WrongType),
    }
}

/// The place that a JSON value stands for: a list of exactly two numbers.
pub open spec fn place_of(tree: Tree) -> Result<(Number, Number), DecodeError> {
    match tree {
        Tree::Array(items) => if items.len() == 2 && items[0] is Number && items[1] is Number {
            Ok((items[0]->Number_0, items[1]->Number_0))
        } else {
            Err(DecodeError::WrongType)
        },
        _ => Err(DecodeError::WrongType),
    }
}

/// The action that a JSON value stands for.
pub open spec fn action_of(tree: Tree) -> Result<MouseAction, DecodeError> {
    match tree {
        Tree::Object(members) => if members.len() != 1 {
            Err(DecodeError::WrongType)
        } else if members[0].0 == "MouseDown"@ {
            match button_of(members[0].1) {
                Ok(button) => Ok(MouseAction::MouseDown(button)),
                Err(error) => Err(error),
            }
        } else if members[0].0 == "MouseUp"@ {
            match button_of(members[0].1) {
                Ok(button) => Ok(MouseAction::MouseUp(button)),
                Err(error) => Err(error),
            }
        } else if members[0].0 == "MouseMove"@ {
            match place_of(members[0].1) {
                Ok(place) => Ok(MouseAction::MouseMove(place.0, place.1)),
                Err(error) => Err(error),
            }
        } else {
            Err(DecodeError::UnknownTag)
        },
        _ => Err(DecodeError::WrongType),
    }
}

/// The actions that a list of JSON values stands for, in the same order;
/// where some of them stand for none, the error of the first such value.
pub open spec fn actions_of(items: Seq<Tree>) -> Result<Seq<MouseAction>, DecodeError>
    decreases items.len(),
{
    if items.len() == 0 {
        Ok(Seq::empty())
    } else {
        match actions_of(items.drop_last()) {
            Err(error) => Err(error),
            Ok(front) => match action_of(items.last()) {
                Err(error) => Err(error),
                Ok(action) => Ok(front.push(action)),
            },
        }
    }
}

/// The delay that the members of a request ask for.
pub open spec fn delay_of(members: Seq<(Seq<char>, Tree)>) -> Result<Option<u64>, DecodeError> {
    match member(members, "delay_between"@) {
        None => Ok(None),
        Some(Tree::Null) => Ok(None),
        Some(Tree::Number(Number::Unsigned(millis))) => Ok(Some(millis)),
        Some(_) => Err(DecodeError::WrongType),
    }
}

/// The batch that a JSON value stands for. The actions are looked at before
/// the delay, so that an error among the actions comes first.
pub open spec fn batch_of(tree: Tree) -> Result<BatchView, DecodeError> {
    match tree {
        Tree::Object(members) => match member(members, "actions"@) {
            None => Err(DecodeError::MissingField),
            Some(Tree::Array(items)) => match actions_of(items) {
                Err(error) => Err(error),
                Ok(actions) => match delay_of(members) {
                    Err(error) => Err(error),
                    Ok(delay_between) => Ok(BatchView { actions, delay_between }),
                },
            },
            Some(_) => Err(DecodeError::WrongType),
        },
        _ => Err(DecodeError::WrongType),
    }
}

/// The batch that the body of a request stands for.
pub open spec fn request_of(bytes: Seq<u8>) -> Result<BatchView, DecodeError> {
    match parsed(bytes) {
        None => Err(DecodeError::Malformed),
        Some(raw) => batch_of(settled(raw)),
    }
}

/// The JSON value that stands for an action.
pub open spec fn action_tree(action: MouseAction) -> Tree {
    match action {
        MouseAction::MouseDown(button) => Tree::Object(
            seq![("MouseDown"@, Tree::Text(button.name_spec()))],
        ),
        MouseAction::MouseUp(button) => Tree::Object(
            seq![("MouseUp"@, Tree::Text(button.name_spec()))],
        ),
        MouseAction::MouseMove(x, y) => Tree::Object(
            seq![("MouseMove"@, Tree::Array(seq![Tree::Number(x), Tree::Number(y)]))],
        ),
    }
}

/// Reads a button: its name as a JSON string.
pub fn decode_button(json: &Json) -> (button: Result<MouseButton, DecodeError>)
    ensures
        button == button_of(json@),
{
    match json {
        Json::Text(name) => match MouseButton::from_name(name.as_str()) {
            Some(button) => Ok(button),
            None => Err(DecodeError::UnknownTag),
        },
        _ => Err(DecodeError::WrongType),
    }
}

/// Reads a place: a JSON list of two numbers, x before y.
pub fn decode_place(json: &Json) -> (place: Result<(Number, Number), DecodeError>)
    ensures
        place == place_of(json@),
{
    match json {
        Json::Array(items) => {
            assert(items_view(items@).len() == items@.len());
            if items.len() != 2 {
                return Err(DecodeError::WrongType);
            }
            assert(items_view(items@)[0] == items@[0]@);
            assert(items_view(items@)[1] == items@[1]@);
            match (&items[0], &items[1]) {
                (Json::Number(x), Json::Number(y)) => Ok((*x, *y)),
                _ => Err(DecodeError::WrongType),
            }
        },
        _ => Err(DecodeError::WrongType),
    }
}

/// Reads an action: a JSON object with one member, the kind of action as its
/// key and the button or the place as its value.
pub fn decode_action(json: &Json) -> (action: Result<MouseAction, DecodeError>)
    ensures
        action == action_of(json@),
{
    match json {
        Json::Object(members) => {
            assert(members_view(members@).len() == members@.len());
            if members.len() != 1 {
                return Err(DecodeError::WrongType);
            }
            assert(members_view(members@)[0] == (members@[0].0@, members@[0].1@));
            let tag = members[0].0.as_str();
            let payload = &members[0].1;
            if same_text(tag, "MouseDown") {
                match decode_button(payload) {
                    Ok(button) => Ok(MouseAction::MouseDown(button)),
                    Err(error) => Err(error),
                }
            } else if same_text(tag, "MouseUp") {
                match decode_button(payload) {
                    Ok(button) => Ok(MouseAction::MouseUp(button)),
                    Err(error) => Err(error),
                }
            } else if same_text(tag, "MouseMove") {
                match decode_place(payload) {
                    Ok(place) => Ok(MouseAction::MouseMove(place.0, place.1)),
                    Err(error) => Err(error),
                }
            } else {
                Err(DecodeError::UnknownTag)
            }
        },
        _ => Err(DecodeError::WrongType),
    }
}

/// Once a front part of a list holds a value that stands for no action, the
/// whole list has the error of that front part.
proof fn lemma_error_persists(items: Seq<Tree>, k: int)
    requires
        0 <= k <= items.len(),
        actions_of(items.take(k)) is Err,
    ensures
        actions_of(items) == actions_of(items.take(k)),
    decreases items.len(),
{
    if k == items.len() {
        assert(items.take(k) =~= items);
    } else {
        assert(items.drop_last().take(k) =~= items.take(k));
        lemma_error_persists(items.drop_last(), k);
    }
}

/// Reads a list of actions, in order. The first value that stands for no
/// action ends the reading with its error.
pub fn decode_actions(items: &Vec<Json>) -> (actions: Result<Vec<MouseAction>, DecodeError>)
    ensures
        match actions {
            Ok(list) => actions_of(items_view(items@)) == Ok::<Seq<MouseAction>, DecodeError>(
                list@,
            ),
            Err(error) => actions_of(items_view(items@)) == Err::<Seq<MouseAction>, DecodeError>(
                error,
            ),
        },
{
    let ghost all = items_view(items@);
    let mut list: Vec<MouseAction> = Vec::new();
    let mut i: usize = 0;
    assert(all.take(0) =~= Seq::<Tree>::empty());
    while i < items.len()
        invariant
            i <= items.len(),
            all == items_view(items@),
            actions_of(all.take(i as int)) == Ok::<Seq<MouseAction>, DecodeError>(list@),
        decreases items.len() - i,
    {
        proof {
            assert(all.take(i + 1).drop_last() =~= all.take(i as int));
            assert(all.take(i + 1).last() == items@[i as int]@);
        }
        match decode_action(&items[i]) {
            Ok(action) => {
                list.push(action);
            },
            Err(error) => {
                proof {
                    lemma_error_persists(all, i + 1);
                }
                return Err(error);
            },
        }
        i += 1;
    }
    assert(all.take(i as int) =~= all);
    Ok(list)
}

/// Reads the delay of a request from its members.
pub fn decode_delay(members: &Vec<(String, Json)>) -> (delay: Result<Option<u64>, DecodeError>)
    ensures
        delay == delay_of(members_view(members@)),
{
    match find_member(members, "delay_between") {
        None => Ok(None),
        Some(Json::Null) => Ok(None),
        Some(Json::Number(Number::Unsigned(millis))) => Ok(Some(*millis)),
        Some(_) => Err(DecodeError::WrongType),
    }
}

/// Reads a request from a JSON value.
pub fn decode_batch(json: &Json) -> (batch: Result<ActionBatch, DecodeError>)
    ensures
        match batch {
            Ok(read) => batch_of(json@) == Ok::<BatchView, DecodeError>(read@),
            Err(error) => batch_of(json@) == Err::<BatchView, DecodeError>(error),
        },
{
    match json {
        Json::Object(members) => match find_member(members, "actions") {
            None => Err(DecodeError::MissingField),
            Some(Json::Array(items)) => match decode_actions(items) {
                Err(error) => Err(error),
                Ok(actions) => match decode_delay(members) {
                    Err(error) => Err(error),
                    Ok(delay_between) => Ok(ActionBatch::new(actions, delay_between)),
                },
            },
            Some(_) => Err(DecodeError::WrongType),
        },
        _ => Err(DecodeError::WrongType),
    }
}

/// Reads a request from the bytes of its body.
pub fn decode_request(body: &[u8]) -> (batch: Result<ActionBatch, DecodeError>)
    ensures
        match batch {
            Ok(read) => request_of(body@) == Ok::<BatchView, DecodeError>(read@),
            Err(error) => request_of(body@) == Err::<BatchView, DecodeError>(error),
        },
{
    match parse(body) {
        None => Err(DecodeError::Malformed),
        Some(json) => decode_batch(&json),
    }
}

/// Writes an action as a JSON value.
pub fn encode_action(action: &MouseAction) -> (json: Json)
    ensures
        json@ == action_tree(*action),
{
    let mut members: Vec<(String, Json)> = Vec::new();
    match action {
        MouseAction::MouseDown(button) => {
            let name = Json::Text(String::from_str(button.name()));
            members.push((String::from_str("MouseDown"), name));
        },
        MouseAction::MouseUp(button) => {
            let name = Json::Text(String::from_str(button.name()));
            members.push((String::from_str("MouseUp"), name));
        },
        MouseAction::MouseMove(x, y) => {
            let mut place: Vec<Json> = Vec::new();
            place.push(Json::Number(*x));
            place.push(Json::Number(*y));
            assert(items_view(place@) =~= seq![Tree::Number(*x), Tree::Number(*y)]);
            members.push((String::from_str("MouseMove"), Json::Array(place)));
        },
    }
    assert(members_view(members@) =~= seq![(members@[0].0@, members@[0].1@)]);
    Json::Object(members)
}

/// Writing an action and reading it back gives the same action: for every
/// kind of action, every button and every pair of coordinates.
pub proof fn lemma_action_round_trip(action: MouseAction)
    ensures
        action_of(action_tree(action)) == Ok::<MouseAction, DecodeError>(action),
{
    reveal_strlit("MouseDown");
    reveal_strlit("MouseUp");
    reveal_strlit("MouseMove");
    assert("MouseUp"@.len() != "MouseDown"@.len());
    assert("MouseMove"@[5] != "MouseDown"@[5]);
    assert("MouseMove"@.len() != "MouseUp"@.len());
    match action {
        MouseAction::MouseDown(button) => {
            button.lemma_name_identifies();
        },
        MouseAction::MouseUp(button) => {
            button.lemma_name_identifies();
        },
        MouseAction::MouseMove(x, y) => {},
    }
}

/// A request without the member `actions` is refused for that reason,
/// whatever else it holds.
pub proof fn lemma_missing_actions_refused(members: Seq<(Seq<char>, Tree)>)
    requires
        member(members, "actions"@) is None,
    ensures
        batch_of(Tree::Object(members)) == Err::<BatchView, DecodeError>(DecodeError::MissingField),
{
}

} // verus!
