//! JSON values as trees, and the reading of JSON text.
//!
//! The text is read by `serde_json`. What it finds is handed out as a
//! [`Raw`] tree, in which a number is still its three readings; [`settle`]
//! decides each number and gives the [`Json`] tree that the rest of the
//! crate works on.

use vstd::prelude::*;
use crate::number::Number;
use crate::text::same_text;

verus! {

/// A JSON value.
#[derive(Debug, PartialEq)]
pub enum Json {
    Null,
    Bool(bool),
    Number(Number),
    Text(String),
    Array(Vec<Json>),
    /// The members of an object, each a key with its value, in the order in
    /// which they were handed over.
    Object(Vec<(String, Json)>),
}

/// A JSON value as a mathematical tree: what a [`Json`] stands for.
pub enum Tree {
    Null,
    Bool(bool),
    Number(Number),
    Text(Seq<char>),
    Array(Seq<Tree>),
    Object(Seq<(Seq<char>, Tree)>),
}

impl View for Json {
    type V = Tree;

    open spec fn view(&self) -> Tree
        decreases self,
    {
        match self {
            Json::Null => Tree::Null,
            Json::Bool(b) => Tree::Bool(*b),
            Json::Number(n) => Tree::Number(*n),
            Json::Text(s) => Tree::Text(s@),
            Json::Array(items) => Tree::Array(items_view(items@)),
            Json::Object(members) => Tree::Object(members_view(members@)),
        }
    }
}

/// The trees of a list of values.
pub open spec fn items_view(items: Seq<Json>) -> Seq<Tree>
    decreases items,
{
    Seq::new(
        items.len(),
        |i: int|
            if 0 <= i < items.len() {
                items[i].view()
            } else {
                Tree::Null
            },
    )
}

/// The keys and trees of a list of members.
pub open spec fn members_view(members: Seq<(String, Json)>) -> Seq<(Seq<char>, Tree)>
    decreases members,
{
    Seq::new(
        members.len(),
        |i: int|
            if 0 <= i < members.len() {
                (members[i].0@, members[i].1.view())
            } else {
                (Seq::empty(), Tree::Null)
            },
    )
}

/// The value of the first member that has the given key.
pub open spec fn member(members: Seq<(Seq<char>, Tree)>, key: Seq<char>) -> Option<Tree>
    decreases members.len(),
{
    if members.len() == 0 {
        None
    } else if members[0].0 == key {
        Some(members[0].1)
    } else {
        member(members.skip(1), key)
    }
}

/// Looks a key up among the members of an object. Where several members
/// have the key, the first one counts.
pub fn find_member<'a>(members: &'a Vec<(String, Json)>, key: &str) -> (found: Option<&'a Json>)
    ensures
        match found {
            Some(value) => member(members_view(members@), key@) == Some(value@),
            None => member(members_view(members@), key@) is None,
        },
{
    let ghost all = members_view(members@);
    let mut i: usize = 0;
    assert(all.skip(0) =~= all);
    while i < members.len()
        invariant
            i <= members.len(),
            all == members_view(members@),
            member(all, key@) == member(all.skip(i as int), key@),
        decreases members.len() - i,
    {
        let ghost rest = all.skip(i as int);
        assert(rest[0] == all[i as int]);
        assert(rest.skip(1) =~= all.skip(i + 1));
        if same_text(members[i].0.as_str(), key) {
            return Some(&members[i].1);
        }
        i += 1;
    }
    assert(all.skip(i as int).len() == 0);
    None
}

/// A JSON value as `serde_json` hands it over, before anything is decided
/// about it. It differs from a [`Json`] in its numbers only.
#[derive(Debug, PartialEq)]
pub enum Raw {
    Null,
    Bool(bool),
    /// A number by its three readings: as an unsigned whole number, as a
    /// signed whole number, and as the bits of a double. Each reading is
    /// there where the number has it.
    Number(Option<u64>, Option<i64>, Option<u64>),
    Text(String),
    Array(Vec<Raw>),
    Object(Vec<(String, Raw)>),
}

/// What a [`Raw`] stands for.
pub enum RawTree {
    Null,
    Bool(bool),
    Number(Option<u64>, Option<i64>, Option<u64>),
    Text(Seq<char>),
    Array(Seq<RawTree>),
    Object(Seq<(Seq<char>, RawTree)>),
}

impl View for Raw {
    type V = RawTree;

    open spec fn view(&self) -> RawTree
        decreases self,
    {
        match self {
            Raw::Null => RawTree::Null,
            Raw::Bool(b) => RawTree::Bool(*b),
            Raw::Number(unsigned, signed, double) => RawTree::Number(*unsigned, *signed, *double),
            Raw::Text(s) => RawTree::Text(s@),
            Raw::Array(items) => RawTree::Array(raw_items_view(items@)),
            Raw::Object(members) => RawTree::Object(raw_members_view(members@)),
        }
    }
}

/// The trees of a list of raw values.
pub open spec fn raw_items_view(items: Seq<Raw>) -> Seq<RawTree>
    decreases items,
{
    Seq::new(
        items.len(),
        |i: int|
            if 0 <= i < items.len() {
                items[i].view()
            } else {
                RawTree::Null
            },
    )
}

/// The keys and trees of a list of raw members.
pub open spec fn raw_members_view(members: Seq<(String, Raw)>) -> Seq<(Seq<char>, RawTree)>
    decreases members,
{
    Seq::new(
        members.len(),
        |i: int|
            if 0 <= i < members.len() {
                (members[i].0@, members[i].1.view())
            } else {
                (Seq::empty(), RawTree::Null)
            },
    )
}

/// `serde_json::Value`, carried from the reading of a text to its taking
/// apart. Nothing is known of what is inside but through [`contents`].
#[verifier::external_type_specification]
#[verifier::external_body]
pub struct ExValue(serde_json::Value);

/// `serde_json::Error`, of which only its being there is used.
#[verifier::external_type_specification]
#[verifier::external_body]
pub struct ExError(serde_json::Error);

/// What `serde_json` reads from a text: the raw tree of the value, or
/// nothing where `serde_json` refuses the text. It refuses what is not the
/// JSON text of exactly one value, and also JSON text that it cannot hold:
/// values nested deeper than 128 levels, and numbers beyond the range of a
/// double.
pub uninterp spec fn parsed(bytes: Seq<u8>) -> Option<RawTree>;

/// The raw tree that a `serde_json::Value` holds: its variant and what the
/// variant carries, a number by its three readings, the members of an object
/// in the order in which the map walks them.
pub uninterp spec fn contents(value: serde_json::Value) -> RawTree;

/// `serde_json::from_slice`, reading a `serde_json::Value`.
///
/// Believed of it: whether it succeeds, and what the value holds when it
/// does, depends on the bytes alone.
#[verifier::external_body]
fn read_value(bytes: &[u8]) -> (read: Result<serde_json::Value, serde_json::Error>)
    ensures
        match read {
            Ok(value) => parsed(bytes@) == Some(contents(value)),
            Err(_) => parsed(bytes@) is None,
        },
{
    serde_json::from_slice::<serde_json::Value>(bytes)
}

/// Takes a `serde_json::Value` apart, variant by variant, into a [`Raw`].
///
/// A number is handed out as what `Number::as_u64`, `Number::as_i64` and
/// `Number::as_f64` return, the last as the bits of the double; the members
/// of an object come out in the order in which `serde_json::Map` walks
/// them. Believed of it: the tree of the result is what the value holds.
#[verifier::external_body]
fn lift(value: serde_json::Value) -> (raw: Raw)
    ensures
        raw@ == contents(value),
{
    match value {
        serde_json::Value::Null => Raw::Null,
        serde_json::Value::Bool(b) => Raw::Bool(b),
        serde_json::Value::Number(n) => Raw::Number(
            n.as_u64(),
            n.as_i64(),
            n.as_f64().map(|x| x.to_bits()),
        ),
        serde_json::Value::String(s) => Raw::Text(s),
        serde_json::Value::Array(items) => Raw::Array(items.into_iter().map(lift).collect()),
        serde_json::Value::Object(members) => Raw::Object(
            members.into_iter().map(|(key, value)| (key, lift(value))).collect(),
        ),
    }
}

/// The JSON value of a number, from its three readings: as an unsigned
/// whole number, as a signed whole number, and as the bits of a double. The
/// first reading that is there decides; a number with none of them is
/// `null`.
pub open spec fn reading_tree(
    unsigned: Option<u64>,
    signed: Option<i64>,
    double: Option<u64>,
) -> Tree {
    match (unsigned, signed, double) {
        (Some(u), _, _) => Tree::Number(Number::Unsigned(u)),
        (None, Some(i), _) => Tree::Number(Number::Negative(i)),
        (None, None, Some(bits)) => Tree::Number(Number::Real(bits)),
        (None, None, None) => Tree::Null,
    }
}

/// The JSON value that a raw value settles to: the same value, with each
/// number decided by [`reading_tree`].
pub open spec fn settled(raw: RawTree) -> Tree
    decreases raw,
{
    match raw {
        RawTree::Null => Tree::Null,
        RawTree::Bool(b) => Tree::Bool(b),
        RawTree::Number(unsigned, signed, double) => reading_tree(unsigned, signed, double),
        RawTree::Text(s) => Tree::Text(s),
        RawTree::Array(items) => Tree::Array(
            Seq::new(
                items.len(),
                |i: int|
                    if 0 <= i < items.len() {
                        settled(items[i])
                    } else {
                        Tree::Null
                    },
            ),
        ),
        RawTree::Object(members) => Tree::Object(
            Seq::new(
                members.len(),
                |i: int|
                    if 0 <= i < members.len() {
                        (members[i].0, settled(members[i].1))
                    } else {
                        (Seq::empty(), Tree::Null)
                    },
            ),
        ),
    }
}

/// Makes the JSON value of a number from its three readings.
pub fn number_from_readings(
    unsigned: Option<u64>,
    signed: Option<i64>,
    double: Option<u64>,
) -> (json: Json)
    ensures
        json@ == reading_tree(unsigned, signed, double),
{
    match (unsigned, signed, double) {
        (Some(u), _, _) => Json::Number(Number::Unsigned(u)),
        (None, Some(i), _) => Json::Number(Number::Negative(i)),
        (None, None, Some(bits)) => Json::Number(Number::Real(bits)),
        (None, None, None) => Json::Null,
    }
}

/// Settles a raw value: decides each number, and keeps everything else as
/// it is.
pub fn settle(raw: &Raw) -> (json: Json)
    ensures
        json@ == settled(raw@),
    decreases raw,
{
    match raw {
        Raw::Null => Json::Null,
        Raw::Bool(b) => Json::Bool(*b),
        Raw::Number(unsigned, signed, double) => number_from_readings(*unsigned, *signed, *double),
        Raw::Text(s) => Json::Text(s.clone()),
        Raw::Array(items) => {
            let mut out: Vec<Json> = Vec::new();
            let mut i: usize = 0;
            while i < items.len()
                invariant
                    i <= items.len(),
                    out@.len() == i,
                    decreases_to!(raw => items@),
                    forall|k: int| 0 <= k < i ==> out@[k]@ == settled(items@[k]@),
                decreases items.len() - i,
            {
                out.push(settle(&items[i]));
                i += 1;
            }
            proof {
                let rows = raw_items_view(items@);
                assert(raw@ == RawTree::Array(rows));
                assert(settled(raw@) is Array);
                let goal = settled(raw@)->Array_0;
                assert(goal.len() == rows.len());
                assert forall|k: int| 0 <= k < out@.len() implies items_view(out@)[k] == goal[k] by {
                    assert(rows[k] == items@[k]@);
                    assert(goal[k] == settled(rows[k]));
                }
                assert(items_view(out@) =~= goal);
            }
            Json::Array(out)
        },
        Raw::Object(members) => {
            let mut out: Vec<(String, Json)> = Vec::new();
            let mut i: usize = 0;
            while i < members.len()
                invariant
                    i <= members.len(),
                    out@.len() == i,
                    decreases_to!(raw => members@),
                    forall|k: int|
                        0 <= k < i ==> out@[k].0@ == members@[k].0@ && out@[k].1@ == settled(
                            members@[k].1@,
                        ),
                decreases members.len() - i,
            {
                out.push((members[i].0.clone(), settle(&members[i].1)));
                i += 1;
            }
            proof {
                let rows = raw_members_view(members@);
                assert(raw@ == RawTree::Object(rows));
                assert(settled(raw@) is Object);
                let goal = settled(raw@)->Object_0;
                assert(goal.len() == rows.len());
                assert forall|k: int| 0 <= k < out@.len() implies members_view(out@)[k]
                    == goal[k] by {
                    assert(rows[k] == (members@[k].0@, members@[k].1@));
                    assert(goal[k] == (rows[k].0, settled(rows[k].1)));
                }
                assert(members_view(out@) =~= goal);
            }
            Json::Object(out)
        },
    }
}

/// Reads JSON text: what `serde_json` reads from it, settled. Gives `None`
/// where `serde_json` refuses the bytes: where they are not the JSON text of
/// exactly one value, where values are nested deeper than 128 levels, and
/// where a number lies beyond the range of a double.
pub fn parse(bytes: &[u8]) -> (json: Option<Json>)
    ensures
        match json {
            Some(tree) => parsed(bytes@) is Some && tree@ == settled(parsed(bytes@)->Some_0),
            None => parsed(bytes@) is None,
        },
{
    match read_value(bytes) {
        Ok(value) => {
            let raw = lift(value);
            Some(settle(&raw))
        },
        Err(_) => None,
    }
}

} // verus!
