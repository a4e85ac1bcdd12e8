//! Reading and writing the members of JSON objects: one reader and one
//! writer for each kind of value that the wire protocol carries.

use vstd::prelude::*;
use crate::fraction::{six_decimals, Fraction};
use crate::json::{lookup, Json, JsonView, MemberView};
use crate::numeral::{
    fraction_of, read_fraction, read_i32, read_unsigned, signed_literal, signed_of, unsigned_of,
    write_fraction, write_signed, write_unsigned,
};
use crate::text::decimal;

verus! {

/// Whether a decoded value, or its absence, is the expected one.
pub open spec fn opt_is<T: View>(r: Option<T>, expected: Option<T::V>) -> bool {
    match expected {
        Some(v) => r is Some && r->0@ == v,
        None => r is None,
    }
}

/// The member named `name` with the value `value`.
pub open spec fn member(name: Seq<char>, value: JsonView) -> MemberView {
    MemberView { name, value }
}

/// The names of the members, in order.
pub open spec fn names_of(members: Seq<MemberView>) -> Seq<Seq<char>> {
    Seq::new(members.len(), |i: int| members[i].name)
}

/// In an object that names no member twice, each name leads to the value
/// written under it, and the object holds no name but its own.
pub proof fn members_found(members: Seq<MemberView>)
    requires
        crate::json::distinct_names(members),
    ensures
        forall|i: int|
            0 <= i < members.len() ==> lookup(members, (#[trigger] members[i]).name) == Some(
                members[i].value,
            ),
        crate::json::only_keys(members, names_of(members)),
{
    assert forall|i: int| 0 <= i < members.len() implies lookup(
        members,
        (#[trigger] members[i]).name,
    ) == Some(members[i].value) by {
        assert(members.contains(members[i]));
        member_is_looked_up(members, members[i]);
    }
    let names = names_of(members);
    assert forall|i: int| 0 <= i < members.len() implies names.contains(
        #[trigger] members[i].name,
    ) by {
        assert(names[i] == members[i].name);
    }
}

/// Two objects hold the same members, whatever their order.
pub open spec fn same_members(a: Seq<MemberView>, b: Seq<MemberView>) -> bool {
    forall|m: MemberView| a.contains(m) <==> b.contains(m)
}

/// What a name leads to is a member of that name; where it leads to nothing,
/// no member has that name.
pub proof fn lookup_is_member(members: Seq<MemberView>, key: Seq<char>)
    ensures
        match lookup(members, key) {
            Some(value) => members.contains(MemberView { name: key, value }),
            None => forall|i: int| 0 <= i < members.len() ==> (#[trigger] members[i]).name != key,
        },
    decreases members.len(),
{
    if members.len() > 0 {
        let rest = members.skip(1);
        if members[0].name == key {
            assert(members[0] == MemberView { name: key, value: members[0].value });
        } else {
            lookup_is_member(rest, key);
            match lookup(rest, key) {
                Some(value) => {
                    let m = MemberView { name: key, value };
                    let i = choose|i: int| 0 <= i < rest.len() && rest[i] == m;
                    assert(members[i + 1] == m);
                },
                None => {
                    assert forall|i: int| 0 <= i < members.len() implies (#[trigger] members[i]).name
                        != key by {
                        if i > 0 {
                            assert(rest[i - 1] == members[i]);
                        }
                    }
                },
            }
        }
    }
}

/// In an object that names no member twice, the name of a member leads to
/// its value.
pub proof fn member_is_looked_up(members: Seq<MemberView>, m: MemberView)
    requires
        crate::json::distinct_names(members),
        members.contains(m),
    ensures
        lookup(members, m.name) == Some(m.value),
{
    let i = choose|i: int| 0 <= i < members.len() && members[i] == m;
    lookup_is_member(members, m.name);
    match lookup(members, m.name) {
        Some(value) => {
            let found = MemberView { name: m.name, value };
            let j = choose|j: int| 0 <= j < members.len() && members[j] == found;
            if i != j {
                assert(members[i].name == members[j].name);
            }
        },
        None => {
            assert(members[i].name == m.name);
        },
    }
}

/// The order of the members of an object is free: two objects with the same
/// members, none named twice, lead from every name to the same value, and
/// keep to the same lists of names.
pub proof fn order_is_free(a: Seq<MemberView>, b: Seq<MemberView>)
    requires
        crate::json::distinct_names(a),
        crate::json::distinct_names(b),
        same_members(a, b),
    ensures
        forall|key: Seq<char>| #[trigger] lookup(a, key) == lookup(b, key),
        forall|allowed: Seq<Seq<char>>|
            #[trigger] crate::json::only_keys(a, allowed) == crate::json::only_keys(b, allowed),
{
    assert forall|key: Seq<char>| #[trigger] lookup(a, key) == lookup(b, key) by {
        lookup_is_member(a, key);
        lookup_is_member(b, key);
        match lookup(a, key) {
            Some(value) => {
                let m = MemberView { name: key, value };
                assert(b.contains(m));
                member_is_looked_up(b, m);
            },
            None => {
                match lookup(b, key) {
                    Some(value) => {
                        let m = MemberView { name: key, value };
                        assert(a.contains(m));
                        let i = choose|i: int| 0 <= i < a.len() && a[i] == m;
                        assert(a[i].name == key);
                    },
                    None => {},
                }
            },
        }
    }
    assert forall|allowed: Seq<Seq<char>>|
        #[trigger] crate::json::only_keys(a, allowed) == crate::json::only_keys(b, allowed) by {
        if crate::json::only_keys(a, allowed) {
            assert forall|i: int| 0 <= i < b.len() implies allowed.contains(
                #[trigger] b[i].name,
            ) by {
                assert(b.contains(b[i]));
                let k = choose|k: int| 0 <= k < a.len() && a[k] == b[i];
                assert(allowed.contains(a[k].name));
            }
        }
        if crate::json::only_keys(b, allowed) {
            assert forall|i: int| 0 <= i < a.len() implies allowed.contains(
                #[trigger] a[i].name,
            ) by {
                assert(a.contains(a[i]));
                let k = choose|k: int| 0 <= k < b.len() && b[k] == a[i];
                assert(allowed.contains(b[k].name));
            }
        }
    }
}

/// A natural number as a JSON number.
pub open spec fn natural(n: nat) -> JsonView {
    JsonView::Number(decimal(n))
}

/// An integer as a JSON number.
pub open spec fn integer(i: int) -> JsonView {
    JsonView::Number(signed_literal(i))
}

/// A proportion as a JSON number with six decimals.
pub open spec fn proportion(q: Fraction) -> JsonView {
    JsonView::Number(six_decimals(q.value()))
}

/// An optional number: `null` where there is none.
pub open spec fn optional_natural(n: Option<u32>) -> JsonView {
    match n {
        Some(n) => natural(n as nat),
        None => JsonView::Null,
    }
}

/// The 32-bit natural number under a member, if it holds one.
pub open spec fn u32_of(t: Option<JsonView>) -> Option<u32> {
    match t {
        Some(JsonView::Number(lit)) => match unsigned_of(lit, u32::MAX as nat) {
            Some(n) => Some(n as u32),
            None => None,
        },
        _ => None,
    }
}

/// The 64-bit natural number under a member, if it holds one.
pub open spec fn u64_of(t: Option<JsonView>) -> Option<u64> {
    match t {
        Some(JsonView::Number(lit)) => match unsigned_of(lit, u64::MAX as nat) {
            Some(n) => Some(n as u64),
            None => None,
        },
        _ => None,
    }
}

/// The 32-bit integer under a member, if it holds one.
pub open spec fn i32_of(t: Option<JsonView>) -> Option<i32> {
    match t {
        Some(JsonView::Number(lit)) => match signed_of(lit, i32::MIN as int, i32::MAX as int) {
            Some(i) => Some(i as i32),
            None => None,
        },
        _ => None,
    }
}

/// The proportion under a member, if it holds one.
pub open spec fn fraction_from(t: Option<JsonView>) -> Option<Fraction> {
    match t {
        Some(JsonView::Number(lit)) => match fraction_of(lit) {
            Some(n) => Some(Fraction::with_value(n)),
            None => None,
        },
        _ => None,
    }
}

/// The truth value under a member, if it holds one.
pub open spec fn bool_of(t: Option<JsonView>) -> Option<bool> {
    match t {
        Some(JsonView::Bool(b)) => Some(b),
        _ => None,
    }
}

/// A truth value that may be left out: `default` stands for a missing member.
pub open spec fn bool_or(t: Option<JsonView>, default: bool) -> Option<bool> {
    match t {
        None => Some(default),
        Some(JsonView::Bool(b)) => Some(b),
        _ => None,
    }
}

/// The string under a member, if it holds one.
pub open spec fn text_of(t: Option<JsonView>) -> Option<Seq<char>> {
    match t {
        Some(JsonView::Text(s)) => Some(s),
        _ => None,
    }
}

/// A number that may be left out or written as `null`.
pub open spec fn optional_u32_of(t: Option<JsonView>) -> Option<Option<u32>> {
    match t {
        None => Some(None),
        Some(JsonView::Null) => Some(None),
        Some(JsonView::Number(lit)) => match unsigned_of(lit, u32::MAX as nat) {
            Some(n) => Some(Some(n as u32)),
            None => None,
        },
        _ => None,
    }
}

/// Reads a 32-bit natural number from a member.
pub fn read_u32(j: Option<&Json>) -> (r: Option<u32>)
    ensures
        r == u32_of(
            match j {
                Some(j) => Some(j@),
                None => None,
            },
        ),
{
    match j {
        Some(Json::Number(lit)) => match read_unsigned(lit.as_str(), 4_294_967_295) {
            Some(n) => Some(n as u32),
            None => None,
        },
        _ => None,
    }
}

/// Reads a 64-bit natural number from a member.
pub fn read_u64(j: Option<&Json>) -> (r: Option<u64>)
    ensures
        r == u64_of(
            match j {
                Some(j) => Some(j@),
                None => None,
            },
        ),
{
    match j {
        Some(Json::Number(lit)) => read_unsigned(lit.as_str(), u64::MAX),
        _ => None,
    }
}

/// Reads a 32-bit integer from a member.
pub fn read_int(j: Option<&Json>) -> (r: Option<i32>)
    ensures
        r == i32_of(
            match j {
                Some(j) => Some(j@),
                None => None,
            },
        ),
{
    match j {
        Some(Json::Number(lit)) => read_i32(lit.as_str()),
        _ => None,
    }
}

/// Reads a proportion from a member.
pub fn read_proportion(j: Option<&Json>) -> (r: Option<Fraction>)
    ensures
        r == fraction_from(
            match j {
                Some(j) => Some(j@),
                None => None,
            },
        ),
{
    match j {
        Some(Json::Number(lit)) => read_fraction(lit.as_str()),
        _ => None,
    }
}

/// Reads a truth value from a member.
pub fn read_bool(j: Option<&Json>) -> (r: Option<bool>)
    ensures
        r == bool_of(
            match j {
                Some(j) => Some(j@),
                None => None,
            },
        ),
{
    match j {
        Some(Json::Bool(b)) => Some(*b),
        _ => None,
    }
}

/// Reads a truth value from a member that may be left out.
pub fn read_bool_or(j: Option<&Json>, default: bool) -> (r: Option<bool>)
    ensures
        r == bool_or(
            match j {
                Some(j) => Some(j@),
                None => None,
            },
            default,
        ),
{
    match j {
        None => Some(default),
        Some(Json::Bool(b)) => Some(*b),
        _ => None,
    }
}

/// Reads a string from a member.
pub fn read_text(j: Option<&Json>) -> (r: Option<String>)
    ensures
        match text_of(
            match j {
                Some(j) => Some(j@),
                None => None,
            },
        ) {
            Some(s) => r is Some && r->0@ == s,
            None => r is None,
        },
{
    match j {
        Some(Json::Text(s)) => Some(s.clone()),
        _ => None,
    }
}

/// Reads a 32-bit natural number from a member that may be left out or `null`.
pub fn read_optional_u32(j: Option<&Json>) -> (r: Option<Option<u32>>)
    ensures
        r == optional_u32_of(
            match j {
                Some(j) => Some(j@),
                None => None,
            },
        ),
{
    match j {
        None => Some(None),
        Some(Json::Null) => Some(None),
        Some(Json::Number(lit)) => match read_unsigned(lit.as_str(), 4_294_967_295) {
            Some(n) => Some(Some(n as u32)),
            None => None,
        },
        _ => None,
    }
}

/// Writes a natural number as a JSON number.
pub fn natural_json(n: u64) -> (j: Json)
    ensures
        j@ == natural(n as nat),
{
    Json::Number(write_unsigned(n))
}

/// Writes an integer as a JSON number.
pub fn integer_json(i: i32) -> (j: Json)
    ensures
        j@ == integer(i as int),
{
    Json::Number(write_signed(i as i64))
}

/// Writes a proportion as a JSON number.
pub fn proportion_json(q: Fraction) -> (j: Json)
    ensures
        j@ == proportion(q),
{
    Json::Number(write_fraction(q))
}

/// Writes an optional natural number as a JSON number or `null`.
pub fn optional_natural_json(n: Option<u32>) -> (j: Json)
    ensures
        j@ == optional_natural(n),
{
    match n {
        Some(n) => natural_json(n as u64),
        None => Json::Null,
    }
}

/// Writes a string as a JSON string.
pub fn text_json(s: &String) -> (j: Json)
    ensures
        j@ == JsonView::Text(s@),
{
    Json::Text(s.clone())
}

/// What is written is read back: numbers.
pub proof fn numbers_read_back(n32: u32, n64: u64, i: i32, q: Fraction)
    requires
        q.valid(),
    ensures
        u32_of(Some(natural(n32 as nat))) == Some(n32),
        u64_of(Some(natural(n64 as nat))) == Some(n64),
        i32_of(Some(integer(i as int))) == Some(i),
        fraction_from(Some(proportion(q))) == Some(q),
        optional_u32_of(Some(optional_natural(Some(n32)))) == Some(Some(n32)),
        optional_u32_of(Some(optional_natural(None))) == Some(None::<u32>),
{
    crate::numeral::decimal_reads_back(n32 as nat, u32::MAX as nat);
    crate::numeral::decimal_reads_back(n64 as nat, u64::MAX as nat);
    crate::numeral::signed_literal_reads_back(i as int, i32::MIN as int, i32::MAX as int);
    crate::numeral::six_decimals_read_back(q.value());
    q.with_value_of_value();
}

/// A natural number of the wire protocol is written as the JSON writer
/// prints it, and so is one that may be left out.
pub proof fn natural_is_written_plainly(n: u64)
    ensures
        crate::json::written_plainly(natural(n as nat)),
        crate::json::written_plainly(optional_natural(None)),
        n <= u32::MAX ==> crate::json::written_plainly(optional_natural(Some(n as u32))),
{
    crate::numeral::signed_literal_is_integer(n as int);
}

/// An integer of the wire protocol is written as the JSON writer prints it.
pub proof fn integer_is_written_plainly(i: i32)
    ensures
        crate::json::written_plainly(integer(i as int)),
{
    crate::numeral::signed_literal_is_integer(i as int);
}

/// A proportion is written so that the JSON writer takes it.
pub proof fn proportions_are_writable(q: Fraction)
    requires
        q.valid(),
    ensures
        crate::json::writable(proportion(q)),
{
    crate::numeral::six_decimals_is_point_literal(q.value());
}

/// An object is written plainly where no member is named twice and every
/// value is written plainly; it is writable where the same holds with
/// writable values.
pub proof fn object_is_writable(members: Seq<MemberView>)
    requires
        crate::json::distinct_names(members),
    ensures
        (forall|i: int|
            0 <= i < members.len() ==> crate::json::written_plainly((#[trigger] members[i]).value))
            ==> crate::json::written_plainly(JsonView::Object(members)),
        (forall|i: int|
            0 <= i < members.len() ==> crate::json::writable((#[trigger] members[i]).value))
            ==> crate::json::writable(JsonView::Object(members)),
{
}

/// A list is written plainly, or writable, where each of its items is.
pub proof fn list_is_writable(items: Seq<JsonView>)
    ensures
        (forall|i: int| 0 <= i < items.len() ==> crate::json::written_plainly(#[trigger] items[i]))
            ==> crate::json::written_plainly(JsonView::List(items)),
        (forall|i: int| 0 <= i < items.len() ==> crate::json::writable(#[trigger] items[i]))
            ==> crate::json::writable(JsonView::List(items)),
{
}

/// What is written plainly is writable.
pub proof fn plain_is_writable(tree: JsonView)
    requires
        crate::json::written_plainly(tree),
    ensures
        crate::json::writable(tree),
    decreases tree,
{
    match tree {
        JsonView::List(items) => {
            assert forall|i: int| 0 <= i < items.len() implies crate::json::writable(
                #[trigger] items[i],
            ) by {
                vstd::seq::axiom_seq_index_decreases(items, i);
                assert(decreases_to!(tree => tree->List_0));
                plain_is_writable(items[i]);
            }
        },
        JsonView::Object(members) => {
            assert forall|i: int| 0 <= i < members.len() implies crate::json::writable(
                (#[trigger] members[i]).value,
            ) by {
                vstd::seq::axiom_seq_index_decreases(members, i);
                assert(decreases_to!(tree => tree->Object_0));
                assert(decreases_to!(members[i] => members[i].value));
                plain_is_writable(members[i].value);
            }
        },
        _ => {},
    }
}

} // verus!
