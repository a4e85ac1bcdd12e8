//! JSON values as trees, and their passage to and from text.
//!
//! A number is kept as the literal that writes it, so that no precision is
//! lost between the wire and the reader that knows which kind of number it
//! expects.

use vstd::prelude::*;
use crate::numeral::{integer_literal, point_literal};
use crate::text::owned;

verus! {

/// One member of a JSON object: a name and the value under it.
#[derive(Debug, PartialEq, Eq)]
pub struct Member {
    pub name: String,
    pub value: Json,
}

/// The view of `Member`.
pub struct MemberView {
    pub name: Seq<char>,
    pub value: JsonView,
}

/// A JSON value.
#[derive(Debug, PartialEq, Eq)]
pub enum Json {
    Null,
    Bool(bool),
    /// A number, as its literal.
    Number(String),
    Text(String),
    List(Vec<Json>),
    /// The members of an object, in the order in which they are written.
    Object(Vec<Member>),
}

/// The view of `Json`: its strings as sequences of characters, its lists as
/// sequences.
pub enum JsonView {
    Null,
    Bool(bool),
    Number(Seq<char>),
    Text(Seq<char>),
    List(Seq<JsonView>),
    Object(Seq<MemberView>),
}

impl View for Json {
    type V = JsonView;

    open spec fn view(&self) -> JsonView
        decreases self,
    {
        match self {
            Json::Null => JsonView::Null,
            Json::Bool(b) => JsonView::Bool(*b),
            Json::Number(n) => JsonView::Number(n@),
            Json::Text(s) => JsonView::Text(s@),
            Json::List(items) => JsonView::List(
                Seq::new(
                    items.len() as nat,
                    |i: int|
                        if 0 <= i < items.len() {
                            items[i].view()
                        } else {
                            JsonView::Null
                        },
                ),
            ),
            Json::Object(members) => JsonView::Object(
                Seq::new(
                    members.len() as nat,
                    |i: int|
                        if 0 <= i < members.len() {
                            MemberView { name: members[i].name@, value: members[i].value.view() }
                        } else {
                            MemberView { name: Seq::empty(), value: JsonView::Null }
                        },
                ),
            ),
        }
    }
}

/// The views of the items of a list.
pub open spec fn item_views(items: Seq<Json>) -> Seq<JsonView> {
    Seq::new(items.len(), |i: int| items[i]@)
}

/// The views of the members of an object.
pub open spec fn member_views(members: Seq<Member>) -> Seq<MemberView> {
    Seq::new(members.len(), |i: int| MemberView { name: members[i].name@, value: members[i].value@ })
}

/// The view of a list is the list of the views of its items.
pub proof fn view_of_list(items: Vec<Json>)
    ensures
        Json::List(items)@ == JsonView::List(item_views(items@)),
{
    assert(Json::List(items)@->List_0 =~= item_views(items@));
}

/// The view of an object is the object of the views of its members.
pub proof fn view_of_object(members: Vec<Member>)
    ensures
        Json::Object(members)@ == JsonView::Object(member_views(members@)),
{
    assert(Json::Object(members)@->Object_0 =~= member_views(members@));
}

/// The value of the first member named `key`, if there is one.
pub open spec fn lookup(members: Seq<MemberView>, key: Seq<char>) -> Option<JsonView>
    decreases members.len(),
{
    if members.len() == 0 {
        None
    } else if members[0].name == key {
        Some(members[0].value)
    } else {
        lookup(members.skip(1), key)
    }
}

/// Whether every member is named by one of `allowed`.
pub open spec fn only_keys(members: Seq<MemberView>, allowed: Seq<Seq<char>>) -> bool {
    forall|i: int| 0 <= i < members.len() ==> allowed.contains(#[trigger] members[i].name)
}

/// The tree that a `serde_json::Value` holds: its variants one for one, an
/// object's members in the order of its map, a number as the literal that
/// `serde_json` prints for it.
pub uninterp spec fn value_tree(v: serde_json::Value) -> JsonView;

/// The tree that `serde_json` reads from a text, if the text is JSON.
pub uninterp spec fn parsed_json(text: Seq<char>) -> Option<JsonView>;

/// The literal that `serde_json` prints for the number that it reads from
/// the literal `lit`, if it reads one.
pub uninterp spec fn number_literal(lit: Seq<char>) -> Option<Seq<char>>;

/// The compact text that `serde_json` prints for a value that holds `tree`.
pub uninterp spec fn printed_json(tree: JsonView) -> Option<Seq<char>>;

/// No two members have the same name.
pub open spec fn distinct_names(members: Seq<MemberView>) -> bool {
    forall|i: int, j: int| 0 <= i < j < members.len() ==> members[i].name != members[j].name
}

/// The tree as the JSON writer takes it: each number as the writer prints it.
/// There is none where a literal is no number, or where an object names a
/// member twice.
pub open spec fn settled_json(tree: JsonView) -> Option<JsonView>
    decreases tree,
{
    match tree {
        JsonView::Number(lit) => match number_literal(lit) {
            Some(printed) => Some(JsonView::Number(printed)),
            None => None,
        },
        JsonView::List(items) => if forall|i: int|
            0 <= i < items.len() ==> settled_json(#[trigger] items[i]) is Some {
            Some(
                JsonView::List(
                    Seq::new(
                        items.len(),
                        |i: int|
                            if 0 <= i < items.len() {
                                settled_json(items[i])->0
                            } else {
                                JsonView::Null
                            },
                    ),
                ),
            )
        } else {
            None
        },
        JsonView::Object(members) => if !distinct_names(members) {
            None
        } else if forall|i: int|
            0 <= i < members.len() ==> settled_json((#[trigger] members[i]).value) is Some {
            Some(
                JsonView::Object(
                    Seq::new(
                        members.len(),
                        |i: int|
                            if 0 <= i < members.len() {
                                MemberView {
                                    name: members[i].name,
                                    value: settled_json(members[i].value)->0,
                                }
                            } else {
                                MemberView { name: Seq::empty(), value: JsonView::Null }
                            },
                    ),
                ),
            )
        } else {
            None
        },
        _ => Some(tree),
    }
}

/// A tree that the JSON writer takes as it stands: every number in it is an
/// integer literal, and no object in it names a member twice.
pub open spec fn written_plainly(tree: JsonView) -> bool
    decreases tree,
{
    match tree {
        JsonView::Number(lit) => integer_literal(lit),
        JsonView::List(items) => forall|i: int|
            0 <= i < items.len() ==> written_plainly(#[trigger] items[i]),
        JsonView::Object(members) => distinct_names(members) && forall|i: int|
            0 <= i < members.len() ==> written_plainly((#[trigger] members[i]).value),
        _ => true,
    }
}

/// A tree that the JSON writer takes: every number in it is an integer
/// literal or a point literal, and no object in it names a member twice.
pub open spec fn writable(tree: JsonView) -> bool
    decreases tree,
{
    match tree {
        JsonView::Number(lit) => integer_literal(lit) || point_literal(lit),
        JsonView::List(items) => forall|i: int|
            0 <= i < items.len() ==> writable(#[trigger] items[i]),
        JsonView::Object(members) => distinct_names(members) && forall|i: int|
            0 <= i < members.len() ==> writable((#[trigger] members[i]).value),
        _ => true,
    }
}

/// What holds of a list holds of its items.
proof fn list_item_holds(items: Seq<JsonView>, i: int)
    requires
        0 <= i < items.len(),
    ensures
        writable(JsonView::List(items)) ==> writable(items[i]),
        written_plainly(JsonView::List(items)) ==> written_plainly(items[i]),
{
    let tree = JsonView::List(items);
    vstd::seq::axiom_seq_index_decreases(items, i);
    assert(decreases_to!(tree => tree->List_0));
}

/// What holds of an object holds of the values of its members.
proof fn object_member_holds(members: Seq<MemberView>, i: int)
    requires
        0 <= i < members.len(),
    ensures
        writable(JsonView::Object(members)) ==> writable(members[i].value),
        written_plainly(JsonView::Object(members)) ==> written_plainly(members[i].value),
{
    let tree = JsonView::Object(members);
    vstd::seq::axiom_seq_index_decreases(members, i);
    assert(decreases_to!(tree => tree->Object_0));
    assert(decreases_to!(members[i] => members[i].value));
}

/// A list with an item that the writer does not take is not taken.
proof fn list_refused(items: Seq<JsonView>, i: int)
    requires
        0 <= i < items.len(),
        settled_json(items[i]) is None,
    ensures
        settled_json(JsonView::List(items)) is None,
{
    let tree = JsonView::List(items);
    vstd::seq::axiom_seq_index_decreases(items, i);
    assert(decreases_to!(tree => tree->List_0));
}

/// An object with a member that the writer does not take is not taken.
proof fn object_refused(members: Seq<MemberView>, i: int)
    requires
        0 <= i < members.len(),
        settled_json(members[i].value) is None,
    ensures
        settled_json(JsonView::Object(members)) is None,
{
    let tree = JsonView::Object(members);
    vstd::seq::axiom_seq_index_decreases(members, i);
    assert(decreases_to!(tree => tree->Object_0));
    assert(decreases_to!(members[i] => members[i].value));
}

/// The list that the writer takes a list for.
proof fn list_settled(items: Seq<JsonView>, settled: Seq<JsonView>)
    requires
        settled.len() == items.len(),
        forall|i: int| 0 <= i < items.len() ==> settled_json(#[trigger] items[i]) == Some(settled[i]),
    ensures
        settled_json(JsonView::List(items)) == Some(JsonView::List(settled)),
{
    assert(settled_json(JsonView::List(items))->0->List_0 =~= settled);
}

/// The object that the writer takes an object for.
proof fn object_settled(members: Seq<MemberView>, settled: Seq<MemberView>)
    requires
        distinct_names(members),
        settled.len() == members.len(),
        forall|i: int|
            0 <= i < members.len() ==> settled_json((#[trigger] members[i]).value) == Some(
                settled[i].value,
            ) && settled[i].name == members[i].name,
    ensures
        settled_json(JsonView::Object(members)) == Some(JsonView::Object(settled)),
{
    assert(settled_json(JsonView::Object(members))->0->Object_0 =~= settled);
}

/// The text of a tree: what the JSON writer prints for the tree as it takes
/// it.
pub open spec fn rendered_json(tree: JsonView) -> Option<Seq<char>> {
    match settled_json(tree) {
        Some(settled) => printed_json(settled),
        None => None,
    }
}

/// `serde_json::Value`, of which nothing is seen but through the functions
/// below.
#[verifier::external_type_specification]
#[verifier::external_body]
pub struct ExValue(serde_json::Value);

/// `serde_json::from_str` at the type `serde_json::Value`: the value read from
/// a text, or nothing where the text is not JSON.
#[verifier::external_body]
fn value_from_text(text: &str) -> (r: Option<serde_json::Value>)
    ensures
        match r {
            Some(v) => parsed_json(text@) == Some(value_tree(v)),
            None => parsed_json(text@) is None,
        },
{
    serde_json::from_str::<serde_json::Value>(text).ok()
}

/// `serde_json::to_string` on a `serde_json::Value`: the compact text of the
/// value. Writing a value never fails: the writer fails only where a type
/// refuses to be written or a map has a key that is no string, and a value
/// does neither. The text holds no line feed: the compact form puts no white space
/// between tokens, and inside a string every control character, the line
/// feed among them, is written as an escape.
#[verifier::external_body]
fn text_of_value(v: &serde_json::Value) -> (r: Option<String>)
    ensures
        r is Some,
        printed_json(value_tree(*v)) == Some(r->0@),
        !r->0@.contains('\n'),
{
    serde_json::to_string(v).ok()
}

/// `serde_json::Value::as_bool`: the truth value of a value that is one.
#[verifier::external_body]
fn value_bool(v: &serde_json::Value) -> (r: Option<bool>)
    ensures
        r == match value_tree(*v) {
            JsonView::Bool(b) => Some(b),
            _ => None,
        },
{
    v.as_bool()
}

/// `serde_json::Value::as_number`, and `Display` of `serde_json::Number`:
/// the literal of a value that is a number.
#[verifier::external_body]
fn value_number(v: &serde_json::Value) -> (r: Option<String>)
    ensures
        match value_tree(*v) {
            JsonView::Number(lit) => r is Some && r->0@ == lit,
            _ => r is None,
        },
{
    match v.as_number() {
        Some(n) => Some(n.to_string()),
        None => None,
    }
}

/// `serde_json::Value::as_str`: the characters of a value that is a string.
#[verifier::external_body]
fn value_text<'a>(v: &'a serde_json::Value) -> (r: Option<&'a str>)
    ensures
        match value_tree(*v) {
            JsonView::Text(s) => r is Some && r->0@ == s,
            _ => r is None,
        },
{
    v.as_str()
}

/// `serde_json::Value::as_array`: the items of a value that is a list, in
/// order.
#[verifier::external_body]
fn value_items<'a>(v: &'a serde_json::Value) -> (r: Option<Vec<&'a serde_json::Value>>)
    ensures
        match value_tree(*v) {
            JsonView::List(items) => r is Some && r->0.len() == items.len() && forall|i: int|
                0 <= i < items.len() ==> value_tree(*(#[trigger] r->0[i])) == items[i],
            _ => r is None,
        },
{
    match v.as_array() {
        Some(a) => Some(a.iter().collect()),
        None => None,
    }
}

/// `serde_json::Value::as_object`: the members of a value that is an object,
/// in the order of its map.
#[verifier::external_body]
fn value_members<'a>(v: &'a serde_json::Value) -> (r: Option<
    Vec<(&'a String, &'a serde_json::Value)>,
>)
    ensures
        match value_tree(*v) {
            JsonView::Object(members) => r is Some && r->0.len() == members.len() && forall|i: int|
                0 <= i < members.len() ==> (#[trigger] r->0[i]).0@ == members[i].name
                    && value_tree(*r->0[i].1) == members[i].value,
            _ => r is None,
        },
{
    match v.as_object() {
        Some(m) => Some(m.iter().collect()),
        None => None,
    }
}

/// `serde_json::Value::Null`.
#[verifier::external_body]
fn null_value() -> (v: serde_json::Value)
    ensures
        value_tree(v) == JsonView::Null,
{
    serde_json::Value::Null
}

/// `serde_json::Value::Bool`.
#[verifier::external_body]
fn bool_value(b: bool) -> (v: serde_json::Value)
    ensures
        value_tree(v) == JsonView::Bool(b),
{
    serde_json::Value::Bool(b)
}

/// `FromStr` of `serde_json::Number`, and `serde_json::Value::Number`: the
/// number that a literal writes, if it writes one.
///
/// An integer literal is read as an integer of sixty-four bits and printed
/// digit for digit as it was written. A point literal is read as a number,
/// of which no more is said than that.
#[verifier::external_body]
fn number_value(lit: &str) -> (r: Option<serde_json::Value>)
    ensures
        match number_literal(lit@) {
            Some(printed) => r is Some && value_tree(r->0) == JsonView::Number(printed),
            None => r is None,
        },
        integer_literal(lit@) ==> r is Some && value_tree(r->0) == JsonView::Number(lit@),
        point_literal(lit@) ==> r is Some,
{
    match lit.parse::<serde_json::Number>() {
        Ok(n) => Some(serde_json::Value::Number(n)),
        Err(_) => None,
    }
}

/// `serde_json::Value::String`.
#[verifier::external_body]
fn text_value(s: String) -> (v: serde_json::Value)
    ensures
        value_tree(v) == JsonView::Text(s@),
{
    serde_json::Value::String(s)
}

/// The trees of a list of values, in order.
pub open spec fn value_trees(items: Seq<serde_json::Value>) -> Seq<JsonView> {
    Seq::new(items.len(), |i: int| value_tree(items[i]))
}

/// `serde_json::Value::Array`: the list of the given items, in order.
#[verifier::external_body]
fn list_value(items: Vec<serde_json::Value>) -> (v: serde_json::Value)
    ensures
        value_tree(v) == JsonView::List(value_trees(items@)),
{
    serde_json::Value::Array(items)
}

/// The members that pairs of a name and a value make, in order.
pub open spec fn pair_members(pairs: Seq<(String, serde_json::Value)>) -> Seq<MemberView> {
    Seq::new(pairs.len(), |i: int| MemberView { name: pairs[i].0@, value: value_tree(pairs[i].1) })
}

/// `FromIterator` of `serde_json::Map`, and `serde_json::Value::Object`: the
/// object of the given members, in order. The map keeps the order in which
/// it is filled as long as no name comes twice.
#[verifier::external_body]
fn object_value(pairs: Vec<(String, serde_json::Value)>) -> (v: serde_json::Value)
    requires
        distinct_names(pair_members(pairs@)),
    ensures
        value_tree(v) == JsonView::Object(pair_members(pairs@)),
{
    serde_json::Value::Object(pairs.into_iter().collect())
}

/// Reads a `serde_json::Value` into a tree.
fn tree_of_value(v: &serde_json::Value) -> (j: Json)
    ensures
        j@ == value_tree(*v),
    decreases value_tree(*v),
{
    if let Some(b) = value_bool(v) {
        Json::Bool(b)
    } else if let Some(lit) = value_number(v) {
        Json::Number(lit)
    } else if let Some(s) = value_text(v) {
        Json::Text(owned(s))
    } else if let Some(items) = value_items(v) {
        let ghost trees = value_tree(*v)->List_0;
        let mut out: Vec<Json> = Vec::new();
        let mut i: usize = 0;
        while i < items.len()
            invariant
                i <= items.len(),
                out.len() == i,
                value_tree(*v) == JsonView::List(trees),
                items.len() == trees.len(),
                forall|k: int| 0 <= k < trees.len() ==> value_tree(*(#[trigger] items[k])) == trees[k],
                forall|k: int| 0 <= k < i ==> (#[trigger] out[k])@ == trees[k],
            decreases items.len() - i,
        {
            proof {
                vstd::seq::axiom_seq_index_decreases(trees, i as int);
                assert(trees == value_tree(*v)->List_0);
                assert(decreases_to!(value_tree(*v) => value_tree(*v)->List_0));
                assert(decreases_to!(value_tree(*v) => trees[i as int]));
            }
            out.push(tree_of_value(items[i]));
            i += 1;
        }
        proof {
            view_of_list(out);
            assert(item_views(out@) =~= trees);
        }
        Json::List(out)
    } else if let Some(pairs) = value_members(v) {
        let ghost members = value_tree(*v)->Object_0;
        let mut out: Vec<Member> = Vec::new();
        let mut i: usize = 0;
        while i < pairs.len()
            invariant
                i <= pairs.len(),
                out.len() == i,
                value_tree(*v) == JsonView::Object(members),
                pairs.len() == members.len(),
                forall|k: int|
                    0 <= k < members.len() ==> (#[trigger] pairs[k]).0@ == members[k].name
                        && value_tree(*pairs[k].1) == members[k].value,
                forall|k: int| 0 <= k < i ==> (#[trigger] out[k]).name@ == members[k].name,
                forall|k: int| 0 <= k < i ==> (#[trigger] out[k]).value@ == members[k].value,
            decreases pairs.len() - i,
        {
            proof {
                vstd::seq::axiom_seq_index_decreases(members, i as int);
                assert(members == value_tree(*v)->Object_0);
                assert(decreases_to!(value_tree(*v) => value_tree(*v)->Object_0));
                assert(decreases_to!(members[i as int] => members[i as int].value));
            }
            let name = pairs[i].0.clone();
            let value = tree_of_value(pairs[i].1);
            out.push(Member { name, value });
            i += 1;
        }
        proof {
            view_of_object(out);
            assert(member_views(out@) =~= members);
        }
        Json::Object(out)
    } else {
        Json::Null
    }
}

/// Whether no two members have the same name.
fn has_distinct_names(members: &Vec<Member>) -> (r: bool)
    ensures
        r == distinct_names(member_views(members@)),
{
    let ghost all = member_views(members@);
    let mut j: usize = 0;
    while j < members.len()
        invariant
            j <= members.len(),
            all == member_views(members@),
            forall|a: int, b: int| 0 <= a < b < j ==> all[a].name != all[b].name,
        decreases members.len() - j,
    {
        let mut i: usize = 0;
        while i < j
            invariant
                i <= j < members.len(),
                all == member_views(members@),
                forall|a: int| 0 <= a < i ==> all[a].name != all[j as int].name,
            decreases j - i,
        {
            if crate::text::same_text(members[i].name.as_str(), members[j].name.as_str()) {
                assert(all[i as int].name == all[j as int].name);
                return false;
            }
            i += 1;
        }
        j += 1;
    }
    true
}

/// Builds a `serde_json::Value` from a tree. A writable tree always gives a
/// value, and a tree that is written plainly gives the value that holds it.
fn value_of_tree(j: &Json) -> (r: Option<serde_json::Value>)
    ensures
        match settled_json(j@) {
            Some(settled) => r is Some && value_tree(r->0) == settled,
            None => r is None,
        },
        writable(j@) ==> r is Some,
        written_plainly(j@) ==> r is Some && value_tree(r->0) == j@,
    decreases j,
{
    match j {
        Json::Null => Some(null_value()),
        Json::Bool(b) => Some(bool_value(*b)),
        Json::Number(lit) => number_value(lit.as_str()),
        Json::Text(s) => Some(text_value(s.clone())),
        Json::List(items) => {
            proof {
                view_of_list(*items);
            }
            let ghost trees = item_views(items@);
            let mut out: Vec<serde_json::Value> = Vec::new();
            let mut i: usize = 0;
            while i < items.len()
                invariant
                    i <= items.len(),
                    out.len() == i,
                    trees == item_views(items@),
                    j@ == JsonView::List(trees),
                    *j == Json::List(*items),
                    forall|k: int| 0 <= k < i ==> (#[trigger] settled_json(trees[k])) is Some,
                    forall|k: int|
                        0 <= k < i ==> value_tree(#[trigger] out[k]) == settled_json(trees[k])->0,
                    forall|k: int|
                        0 <= k < i && written_plainly(#[trigger] trees[k]) ==> settled_json(
                            trees[k],
                        ) == Some(trees[k]),
                decreases items.len() - i,
            {
                proof {
                    vstd::std_specs::vec::axiom_vec_index_decreases(*items, i as int);
                }
                match value_of_tree(&items[i]) {
                    Some(v) => {
                        out.push(v);
                    },
                    None => {
                        proof {
                            list_refused(trees, i as int);
                            list_item_holds(trees, i as int);
                        }
                        return None;
                    },
                }
                i += 1;
            }
            proof {
                list_settled(trees, value_trees(out@));
                if written_plainly(j@) {
                    assert forall|k: int| 0 <= k < trees.len() implies value_trees(out@)[k]
                        == trees[k] by {
                        list_item_holds(trees, k);
                    }
                    assert(value_trees(out@) =~= trees);
                }
            }
            Some(list_value(out))
        },
        Json::Object(members) => {
            proof {
                view_of_object(*members);
            }
            let ghost all = member_views(members@);
            if !has_distinct_names(members) {
                return None;
            }
            let mut out: Vec<(String, serde_json::Value)> = Vec::new();
            let mut i: usize = 0;
            while i < members.len()
                invariant
                    i <= members.len(),
                    out.len() == i,
                    all == member_views(members@),
                    j@ == JsonView::Object(all),
                    *j == Json::Object(*members),
                    distinct_names(all),
                    forall|k: int| 0 <= k < i ==> (#[trigger] settled_json(all[k].value)) is Some,
                    forall|k: int| 0 <= k < i ==> (#[trigger] out[k]).0@ == all[k].name,
                    forall|k: int|
                        0 <= k < i ==> value_tree((#[trigger] out[k]).1) == settled_json(
                            all[k].value,
                        )->0,
                    forall|k: int|
                        0 <= k < i && written_plainly((#[trigger] all[k]).value) ==> settled_json(
                            all[k].value,
                        ) == Some(all[k].value),
                decreases members.len() - i,
            {
                proof {
                    vstd::std_specs::vec::axiom_vec_index_decreases(*members, i as int);
                }
                match value_of_tree(&members[i].value) {
                    Some(v) => {
                        out.push((members[i].name.clone(), v));
                    },
                    None => {
                        proof {
                            object_refused(all, i as int);
                            object_member_holds(all, i as int);
                        }
                        return None;
                    },
                }
                i += 1;
            }
            proof {
                let made = pair_members(out@);
                assert forall|a: int, b: int| 0 <= a < b < made.len() implies made[a].name
                    != made[b].name by {
                    assert(made[a].name == all[a].name);
                    assert(made[b].name == all[b].name);
                }
                object_settled(all, made);
                if written_plainly(j@) {
                    assert forall|k: int| 0 <= k < all.len() implies made[k] == all[k] by {
                        object_member_holds(all, k);
                    }
                    assert(made =~= all);
                }
            }
            Some(object_value(out))
        },
    }
}

/// Reads a JSON text into a tree.
pub fn parse_json(text: &str) -> (r: Option<Json>)
    ensures
        match parsed_json(text@) {
            Some(tree) => r is Some && r->0@ == tree,
            None => r is None,
        },
{
    match value_from_text(text) {
        Some(v) => Some(tree_of_value(&v)),
        None => None,
    }
}

/// Writes a tree as compact JSON text, on one line. A writable tree is
/// always written, and a tree that is written plainly is written as the
/// writer prints that very tree.
pub fn render_json(j: &Json) -> (r: Option<String>)
    ensures
        match rendered_json(j@) {
            Some(text) => r is Some && r->0@ == text,
            None => r is None,
        },
        r matches Some(s) ==> !s@.contains('\n'),
        writable(j@) ==> r is Some,
        written_plainly(j@) ==> r is Some && printed_json(j@) == Some(r->0@),
{
    match value_of_tree(j) {
        Some(v) => text_of_value(&v),
        None => None,
    }
}

/// The first member named `key`, if there is one.
pub fn get<'a>(members: &'a Vec<Member>, key: &str) -> (r: Option<&'a Json>)
    ensures
        match lookup(member_views(members@), key@) {
            Some(tree) => r is Some && r->0@ == tree,
            None => r is None,
        },
{
    let ghost all = member_views(members@);
    let mut i: usize = 0;
    assert(all.skip(0) == all);
    while i < members.len()
        invariant
            i <= members.len(),
            all == member_views(members@),
            lookup(all, key@) == lookup(all.skip(i as int), key@),
        decreases members.len() - i,
    {
        let ghost rest = all.skip(i as int);
        assert(rest[0] == all[i as int]);
        assert(rest.skip(1) == all.skip(i + 1));
        if crate::text::same_text(members[i].name.as_str(), key) {
            return Some(&members[i].value);
        }
        i += 1;
    }
    None
}

/// Whether `key` is one of `allowed`.
fn is_one_of(key: &str, allowed: &[&str]) -> (r: bool)
    ensures
        r == key_views(allowed@).contains(key@),
{
    let ghost names = key_views(allowed@);
    let mut i: usize = 0;
    while i < allowed.len()
        invariant
            i <= allowed.len(),
            names == key_views(allowed@),
            forall|j: int| 0 <= j < i ==> names[j] != key@,
        decreases allowed.len() - i,
    {
        if crate::text::same_text(allowed[i], key) {
            assert(names[i as int] == key@);
            return true;
        }
        i += 1;
    }
    false
}

/// The names in a list of string slices.
pub open spec fn key_views(keys: Seq<&str>) -> Seq<Seq<char>> {
    Seq::new(keys.len(), |i: int| keys[i]@)
}

/// Whether every member is named by one of `allowed`.
pub fn has_only_keys(members: &Vec<Member>, allowed: &[&str]) -> (r: bool)
    ensures
        r == only_keys(member_views(members@), key_views(allowed@)),
{
    let ghost all = member_views(members@);
    let mut i: usize = 0;
    while i < members.len()
        invariant
            i <= members.len(),
            all == member_views(members@),
            forall|j: int| 0 <= j < i ==> key_views(allowed@).contains(#[trigger] all[j].name),
        decreases members.len() - i,
    {
        if !is_one_of(members[i].name.as_str(), allowed) {
            assert(all[i as int].name == members@[i as int].name@);
            return false;
        }
        i += 1;
    }
    true
}

/// Appends a member to the members of an object under construction.
pub fn put(members: &mut Vec<Member>, key: &str, value: Json)
    ensures
        member_views(final(members)@) == member_views(old(members)@).push(
            MemberView { name: key@, value: value@ },
        ),
{
    members.push(Member { name: owned(key), value });
    assert(member_views(members@) =~= member_views(old(members)@).push(
        MemberView { name: key@, value: value@ },
    ));
}

/// The object with the given members.
pub fn object(members: Vec<Member>) -> (j: Json)
    ensures
        j@ == JsonView::Object(member_views(members@)),
{
    proof {
        view_of_object(members);
    }
    Json::Object(members)
}

/// The JSON string with the characters of `s`.
pub fn text(s: &str) -> (j: Json)
    ensures
        j@ == JsonView::Text(s@),
{
    Json::Text(owned(s))
}

} // verus!
