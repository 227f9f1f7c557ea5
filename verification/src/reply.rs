//! What goes back to the client.
//!
//! A batch that was carried out is answered with status 200 and the JSON
//! object `{"messages": [...]}`, one status line for each action. Every
//! failure is answered with a status from 400 up and a short plain text.

use vstd::prelude::*;
use vstd::string::*;
use crate::decode::DecodeError;
use crate::json::{items_view, members_view, Json, Tree};

verus! {

/// Why a request is answered with a failure.
#[derive(Clone, Copy, Debug, PartialEq, Eq, Structural)]
pub enum Failure {
    /// No route matches the request.
    NotFound,
    /// The body of the request was not understood.
    Decode(DecodeError),
    /// Letting a button go failed. Nothing in this crate raises this kind;
    /// it is kept for drivers that tell it apart.
    MouseUp,
    /// Anything else.
    Other,
}

/// The body of a reply.
#[derive(Debug, PartialEq)]
pub enum Body {
    Json(Json),
    Plain(String),
}

/// A reply: an HTTP status code and a body.
#[derive(Debug, PartialEq)]
pub struct Reply {
    pub status: u16,
    pub body: Body,
}

/// What a body holds.
pub enum BodyView {
    Json(Tree),
    Plain(Seq<char>),
}

/// What a reply holds.
pub struct ReplyView {
    pub status: u16,
    pub body: BodyView,
}

impl View for Reply {
    type V = ReplyView;

    open spec fn view(&self) -> ReplyView {
        ReplyView {
            status: self.status,
            body: match self.body {
                Body::Json(json) => BodyView::Json(json@),
                Body::Plain(text) => BodyView::Plain(text@),
            },
        }
    }
}

impl DecodeError {
    /// The error in words.
    pub open spec fn describe_spec(self) -> Seq<char> {
        match self {
            DecodeError::Malformed => "Request body cannot be read as JSON"@,
            DecodeError::MissingField => "Missing field: actions"@,
            DecodeError::WrongType => "Wrong type in request body"@,
            DecodeError::UnknownTag => "Unknown action or button"@,
        }
    }

    /// The error in words.
    pub fn describe(&self) -> (text: &'static str)
        ensures
            text@ == self.describe_spec(),
    {
        match self {
            DecodeError::Malformed => "Request body cannot be read as JSON",
            DecodeError::MissingField => "Missing field: actions",
            DecodeError::WrongType => "Wrong type in request body",
            DecodeError::UnknownTag => "Unknown action or button",
        }
    }
}

impl Failure {
    /// The status code that answers the failure: 404 where no route
    /// matches, 400 where the request was not understood, 500 otherwise.
    pub open spec fn status_spec(self) -> u16 {
        match self {
            Failure::NotFound => 404,
            Failure::Decode(_) => 400,
            Failure::MouseUp => 500,
            Failure::Other => 500,
        }
    }

    /// The text that answers the failure.
    pub open spec fn text_spec(self) -> Seq<char> {
        match self {
            Failure::NotFound => "Not found"@,
            Failure::Decode(error) => error.describe_spec(),
            Failure::MouseUp => "Mouse up error"@,
            Failure::Other => "Internal server error"@,
        }
    }

    /// The status code that answers the failure.
    pub fn status(&self) -> (code: u16)
        ensures
            code == self.status_spec(),
    {
        match self {
            Failure::NotFound => 404,
            Failure::Decode(_) => 400,
            Failure::MouseUp => 500,
            Failure::Other => 500,
        }
    }

    /// The text that answers the failure.
    pub fn text(&self) -> (text: &'static str)
        ensures
            text@ == self.text_spec(),
    {
        match self {
            Failure::NotFound => "Not found",
            Failure::Decode(error) => error.describe(),
            Failure::MouseUp => "Mouse up error",
            Failure::Other => "Internal server error",
        }
    }
}

/// The JSON object that reports the status lines of a batch.
pub open spec fn messages_tree(lines: Seq<Seq<char>>) -> Tree {
    Tree::Object(
        seq![("messages"@, Tree::Array(Seq::new(lines.len(), |i: int| Tree::Text(lines[i]))))],
    )
}

/// The reply to a request, given how it went.
pub open spec fn reply_of(outcome: Result<Seq<Seq<char>>, Failure>) -> ReplyView {
    match outcome {
        Ok(lines) => ReplyView { status: 200, body: BodyView::Json(messages_tree(lines)) },
        Err(failure) => ReplyView {
            status: failure.status_spec(),
            body: BodyView::Plain(failure.text_spec()),
        },
    }
}

/// Puts the status lines of a batch into the JSON object that reports them.
pub fn messages_body(lines: &Vec<String>) -> (json: Json)
    ensures
        json@ == messages_tree(lines.deep_view()),
{
    let mut items: Vec<Json> = Vec::new();
    let mut i: usize = 0;
    while i < lines.len()
        invariant
            i <= lines.len(),
            items@.len() == i,
            forall|k: int| 0 <= k < i ==> items@[k]@ == Tree::Text(lines@[k]@),
        decreases lines.len() - i,
    {
        items.push(Json::Text(lines[i].clone()));
        i += 1;
    }
    let ghost texts = lines.deep_view();
    assert(items_view(items@) =~= Seq::new(texts.len(), |i: int| Tree::Text(texts[i])));
    let mut members: Vec<(String, Json)> = Vec::new();
    members.push((String::from_str("messages"), Json::Array(items)));
    assert(members_view(members@) =~= seq![(members@[0].0@, members@[0].1@)]);
    Json::Object(members)
}

/// Makes the reply to a request: for a batch that was carried out, its
/// status lines; for a failure, the status code and the text of its kind.
pub fn respond(outcome: Result<Vec<String>, Failure>) -> (reply: Reply)
    ensures
        reply@ == reply_of(
            match outcome {
                Ok(lines) => Ok(lines.deep_view()),
                Err(failure) => Err(failure),
            },
        ),
{
    match outcome {
        Ok(lines) => Reply { status: 200, body: Body::Json(messages_body(&lines)) },
        Err(failure) => Reply {
            status: failure.status(),
            body: Body::Plain(String::from_str(failure.text())),
        },
    }
}

/// No failure is answered as a success: the status code of a failure lies
/// from 400 up to 599, and only a batch that was carried out gets 200.
pub proof fn lemma_failure_is_no_success(outcome: Result<Seq<Seq<char>>, Failure>)
    ensures
        outcome is Ok <==> reply_of(outcome).status == 200,
        outcome is Err ==> 400 <= reply_of(outcome).status < 600,
        outcome == Err::<Seq<Seq<char>>, Failure>(Failure::NotFound) ==> reply_of(outcome).status
            == 404,
{
}

} // verus!
