use vstd::prelude::*;

verus! {

/// A JSON value, as the host hands over the options of a plugin.
pub enum JsonValue {
    Null,
    Bool(bool),
    /// A number, kept as the text it is written in.
    Number(String),
    Str(String),
    Array(Vec<JsonValue>),
    /// The members of an object, in order.
    Object(Vec<(String, JsonValue)>),
}

/// The value of the last member of `members` whose key is `key`.
///
/// An object read from text keeps the last of two members with one key,
/// so a later member hides an earlier one.
pub open spec fn member_value(members: Seq<(String, JsonValue)>, key: Seq<char>) -> Option<
    JsonValue,
>
    decreases members.len(),
{
    if members.len() == 0 {
        None
    } else if members.last().0@ == key {
        Some(members.last().1)
    } else {
        member_value(members.drop_last(), key)
    }
}

/// The value under `key` when `v` is an object that has such a member.
pub open spec fn field(v: JsonValue, key: Seq<char>) -> Option<JsonValue> {
    match v {
        JsonValue::Object(members) => member_value(members@, key),
        _ => None,
    }
}

/// The texts of the string elements of `items`, in order; other elements
/// are left out.
pub open spec fn string_items(items: Seq<JsonValue>) -> Seq<Seq<char>>
    decreases items.len(),
{
    if items.len() == 0 {
        seq![]
    } else {
        let before = string_items(items.drop_last());
        match items.last() {
            JsonValue::Str(s) => before.push(s@),
            _ => before,
        }
    }
}

/// The texts of a sequence of strings.
pub open spec fn texts(v: Seq<String>) -> Seq<Seq<char>> {
    v.map_values(|s: String| s@)
}

/// Looks up the member `key` of `v`, when `v` is an object.
pub fn get<'a>(v: &'a JsonValue, key: &str) -> (r: Option<&'a JsonValue>)
    ensures
        match r {
            Some(x) => field(*v, key@) == Some(*x),
            None => field(*v, key@) is None,
        },
{
    match v {
        JsonValue::Object(members) => {
            let wanted = key.to_owned();
            let mut found: Option<usize> = None;
            let mut i: usize = 0;
            while i < members.len()
                invariant
                    i <= members@.len(),
                    wanted@ == key@,
                    match found {
                        Some(j) => j < i && member_value(members@.subrange(0, i as int), key@)
                            == Some(members@[j as int].1),
                        None => member_value(members@.subrange(0, i as int), key@) is None,
                    },
                decreases members@.len() - i,
            {
                assert(members@.subrange(0, i + 1).drop_last() =~= members@.subrange(0, i as int));
                if members[i].0 == wanted {
                    found = Some(i);
                }
                i = i + 1;
            }
            assert(members@.subrange(0, i as int) =~= members@);
            match found {
                Some(j) => Some(&members[j].1),
                None => None,
            }
        },
        _ => None,
    }
}

/// The string elements of `items`, in order, skipping every other element.
pub fn string_elements(items: &Vec<JsonValue>) -> (r: Vec<String>)
    ensures
        texts(r@) == string_items(items@),
{
    let mut out: Vec<String> = Vec::new();
    let mut i: usize = 0;
    while i < items.len()
        invariant
            i <= items@.len(),
            texts(out@) == string_items(items@.subrange(0, i as int)),
        decreases items@.len() - i,
    {
        assert(items@.subrange(0, i + 1).drop_last() =~= items@.subrange(0, i as int));
        match &items[i] {
            JsonValue::Str(s) => {
                let ghost before = out@;
                out.push(s.clone());
                assert(texts(out@) =~= texts(before).push(s@));
            },
            _ => {},
        }
        i = i + 1;
    }
    assert(items@.subrange(0, i as int) =~= items@);
    out
}

} // verus!
