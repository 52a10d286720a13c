//! The values that the music service answers with.
use vstd::prelude::*;

use crate::text::same_text;

verus! {

/// A JSON value. Of a number, only what fits in 64 bits is kept.
pub enum Json {
    Null,
    Bool(bool),
    /// A whole number that is not negative.
    Unsigned(u64),
    /// A whole number that is negative.
    Negative(i64),
    /// Any other number.
    Fraction,
    Text(String),
    List(Vec<Json>),
    Object(Vec<(String, Json)>),
}

/// The value of the first field with this name.
pub open spec fn field(fields: Seq<(String, Json)>, name: Seq<char>) -> Option<Json>
    decreases fields.len(),
{
    if fields.len() == 0 {
        None
    } else if fields[0].0@ == name {
        Some(fields[0].1)
    } else {
        field(fields.drop_first(), name)
    }
}

/// The member of a value that may be absent.
pub open spec fn member_of(value: Option<Json>, name: Seq<char>) -> Option<Json> {
    match value {
        Some(value) => value.member(name),
        None => None,
    }
}

/// The number that a value is, if it is one that is not negative.
pub open spec fn u64_of(value: Option<Json>) -> Option<u64> {
    match value {
        Some(Json::Unsigned(number)) => Some(number),
        _ => None,
    }
}

/// The number that a value is, if it is one that fits.
pub open spec fn i64_of(value: Option<Json>) -> Option<i64> {
    match value {
        Some(Json::Unsigned(number)) => if number <= i64::MAX {
            Some(number as i64)
        } else {
            None
        },
        Some(Json::Negative(number)) => Some(number),
        _ => None,
    }
}

/// The truth value that a value is, if it is one.
pub open spec fn bool_of(value: Option<Json>) -> Option<bool> {
    match value {
        Some(Json::Bool(truth)) => Some(truth),
        _ => None,
    }
}

/// The text that a value is, if it is one.
pub open spec fn text_of(value: Option<Json>) -> Option<Seq<char>> {
    match value {
        Some(Json::Text(text)) => Some(text@),
        _ => None,
    }
}

/// The values of a list, if a value is one.
pub open spec fn list_of(value: Option<Json>) -> Option<Seq<Json>> {
    match value {
        Some(Json::List(values)) => Some(values@),
        _ => None,
    }
}

/// The characters of a text that may be absent.
pub open spec fn optional_text(text: Option<String>) -> Option<Seq<char>> {
    match text {
        Some(text) => Some(text@),
        None => None,
    }
}

impl Json {
    /// The member of an object with this name.
    pub open spec fn member(self, name: Seq<char>) -> Option<Json> {
        match self {
            Json::Object(fields) => field(fields@, name),
            _ => None,
        }
    }

    /// The member of an object with this name. Other values have no members.
    pub fn get(&self, name: &str) -> (value: Option<&Json>)
        ensures
            match value {
                Some(value) => self.member(name@) == Some(*value),
                None => self.member(name@) is None,
            },
    {
        match self {
            Json::Object(fields) => {
                let mut i: usize = 0;
                assert(fields@.skip(0) =~= fields@);
                while i < fields.len()
                    invariant
                        i <= fields.len(),
                        self.member(name@) == field(fields@, name@),
                        field(fields@, name@) == field(fields@.skip(i as int), name@),
                    decreases fields.len() - i,
                {
                    assert(fields@.skip(i as int).drop_first() =~= fields@.skip(i + 1));
                    if same_text(fields[i].0.as_str(), name) {
                        return Some(&fields[i].1);
                    }
                    i += 1;
                }
                None
            },
            _ => None,
        }
    }

    /// The member of a member.
    pub fn get_in(&self, outer: &str, inner: &str) -> (value: Option<&Json>)
        ensures
            match value {
                Some(value) => member_of(self.member(outer@), inner@) == Some(*value),
                None => member_of(self.member(outer@), inner@) is None,
            },
    {
        match self.get(outer) {
            Some(value) => value.get(inner),
            None => None,
        }
    }
}

/// A value that may be absent, without the reference.
pub open spec fn deref_json(value: Option<&Json>) -> Option<Json> {
    match value {
        Some(value) => Some(*value),
        None => None,
    }
}

/// Reads a number that is not negative.
pub fn as_u64(value: Option<&Json>) -> (number: Option<u64>)
    ensures
        number == u64_of(deref_json(value)),
{
    match value {
        Some(Json::Unsigned(number)) => Some(*number),
        _ => None,
    }
}

/// Reads a number.
pub fn as_i64(value: Option<&Json>) -> (number: Option<i64>)
    ensures
        number == i64_of(deref_json(value)),
{
    match value {
        Some(Json::Unsigned(number)) => {
            if *number <= i64::MAX as u64 {
                Some(*number as i64)
            } else {
                None
            }
        },
        Some(Json::Negative(number)) => Some(*number),
        _ => None,
    }
}

/// Reads a truth value.
pub fn as_bool(value: Option<&Json>) -> (truth: Option<bool>)
    ensures
        truth == bool_of(deref_json(value)),
{
    match value {
        Some(Json::Bool(truth)) => Some(*truth),
        _ => None,
    }
}

/// Reads a text.
pub fn as_text(value: Option<&Json>) -> (text: Option<String>)
    ensures
        optional_text(text) == text_of(deref_json(value)),
{
    match value {
        Some(Json::Text(text)) => Some(text.clone()),
        _ => None,
    }
}

/// Reads a list.
pub fn as_list<'a>(value: Option<&'a Json>) -> (values: Option<&'a Vec<Json>>)
    ensures
        match values {
            Some(values) => list_of(deref_json(value)) == Some(values@),
            None => list_of(deref_json(value)) is None,
        },
{
    match value {
        Some(Json::List(values)) => Some(values),
        _ => None,
    }
}

/// A member is the value of the first field with its name; there is none exactly if no field has
/// that name. What is not an object has no members.
pub proof fn lemma_member_is_the_first_field(fields: Seq<(String, Json)>, name: Seq<char>, i: int)
    requires
        0 <= i < fields.len(),
        fields[i].0@ == name,
        forall|j: int| 0 <= j < i ==> (#[trigger] fields[j]).0@ != name,
    ensures
        field(fields, name) == Some(fields[i].1),
    decreases fields.len(),
{
    if i > 0 {
        assert(fields[0].0@ != name);
        let rest = fields.drop_first();
        assert forall|j: int| 0 <= j < i - 1 implies (#[trigger] rest[j]).0@ != name by {
            assert(rest[j] == fields[j + 1]);
        }
        lemma_member_is_the_first_field(rest, name, i - 1);
    }
}

/// Without a field of a name there is no member of that name.
pub proof fn lemma_no_member_without_a_field(fields: Seq<(String, Json)>, name: Seq<char>)
    requires
        forall|j: int| 0 <= j < fields.len() ==> (#[trigger] fields[j]).0@ != name,
    ensures
        field(fields, name) is None,
    decreases fields.len(),
{
    if fields.len() > 0 {
        let rest = fields.drop_first();
        assert forall|j: int| 0 <= j < rest.len() implies (#[trigger] rest[j]).0@ != name by {
            assert(rest[j] == fields[j + 1]);
        }
        assert(fields[0].0@ != name);
        lemma_no_member_without_a_field(rest, name);
    }
}

/// A value is read as what it is and as nothing else: a number that is not negative, a number that
/// fits, a truth value, a text or a list.
pub proof fn lemma_values_are_read_as_what_they_are(
    number: u64,
    negative: i64,
    truth: bool,
    text: String,
    list: Vec<Json>,
    fields: Vec<(String, Json)>,
    name: Seq<char>,
)
    ensures
        u64_of(Some(Json::Unsigned(number))) == Some(number),
        u64_of(Some(Json::Negative(negative))) is None,
        u64_of(Some(Json::Text(text))) is None,
        u64_of(None) is None,
        number <= i64::MAX ==> i64_of(Some(Json::Unsigned(number))) == Some(number as i64),
        number > i64::MAX ==> i64_of(Some(Json::Unsigned(number))) is None,
        i64_of(Some(Json::Negative(negative))) == Some(negative),
        i64_of(None) is None,
        bool_of(Some(Json::Bool(truth))) == Some(truth),
        bool_of(Some(Json::Null)) is None,
        bool_of(None) is None,
        text_of(Some(Json::Text(text))) == Some(text@),
        text_of(Some(Json::Null)) is None,
        text_of(Some(Json::Unsigned(number))) is None,
        text_of(None) is None,
        list_of(Some(Json::List(list))) == Some(list@),
        list_of(Some(Json::Null)) is None,
        list_of(None) is None,
        Json::Object(fields).member(name) == field(fields@, name),
        Json::Null.member(name) is None,
        Json::List(list).member(name) is None,
        member_of(Some(Json::Object(fields)), name) == field(fields@, name),
        member_of(None, name) is None,
{
}

} // verus!
