//! A parsed JSON document as plain data, and the few ways of reading it that the
//! decoding of the provider's answers needs. Parsing text into this form is the
//! caller's part.

use vstd::prelude::*;
use vstd::string::StringExecFns;

verus! {

/// A JSON number: its text as it stands in the document, with what it is as a whole
/// number and in millionths where it is either.
#[derive(Clone, Debug)]
pub struct JsonNumber {
    pub text: String,
    /// The number, if it is a whole number that 64 bits hold.
    pub integer: Option<i64>,
    /// The number times one million, rounded to the nearest whole number, if 64 bits
    /// hold that.
    pub millionths: Option<i64>,
}

/// One member of a JSON object.
#[derive(Debug)]
pub struct Member {
    pub key: String,
    pub value: Json,
}

/// A JSON value.
#[derive(Debug)]
pub enum Json {
    Null,
    Bool(bool),
    Number(JsonNumber),
    Text(String),
    Array(Vec<Json>),
    /// The members in the order of the document.
    Object(Vec<Member>),
}

/// The value of the first member with the key given, if there is one.
pub open spec fn member_value(members: Seq<Member>, key: Seq<char>) -> Option<Json>
    decreases members.len(),
{
    if members.len() == 0 {
        None
    } else if members.first().key@ == key {
        Some(members.first().value)
    } else {
        member_value(members.drop_first(), key)
    }
}

/// The value of the first member with the key given, if there is one.
pub fn find_member<'a>(members: &'a Vec<Member>, key: &str) -> (r: Option<&'a Json>)
    ensures
        match r {
            Some(v) => member_value(members@, key@) == Some(*v),
            None => member_value(members@, key@) is None,
        },
{
    let wanted = String::from_str(key);
    let mut i: usize = 0;
    assert(members@.skip(0) =~= members@);
    while i < members.len()
        invariant
            i <= members.len(),
            wanted@ == key@,
            member_value(members@, key@) == member_value(members@.skip(i as int), key@),
        decreases members.len() - i,
    {
        proof {
            assert(members@.skip(i as int).drop_first() =~= members@.skip(i + 1));
            assert(members@.skip(i as int).first() == members@[i as int]);
        }
        if members[i].key == wanted {
            return Some(&members[i].value);
        }
        i = i + 1;
    }
    assert(members@.skip(i as int).len() == 0);
    None
}

impl Json {
    /// The member `key` of an object; nothing for any other value.
    pub open spec fn field(self, key: Seq<char>) -> Option<Json> {
        match self {
            Json::Object(members) => member_value(members@, key),
            _ => None,
        }
    }

    /// The element at `index` of an array; nothing for any other value.
    pub open spec fn element(self, index: int) -> Option<Json> {
        match self {
            Json::Array(items) => if 0 <= index < items@.len() {
                Some(items@[index])
            } else {
                None
            },
            _ => None,
        }
    }

    /// The text of a string; nothing for any other value.
    pub open spec fn text(self) -> Option<Seq<char>> {
        match self {
            Json::Text(s) => Some(s@),
            _ => None,
        }
    }

    /// The whole number that a number is; nothing for any other value.
    pub open spec fn integer(self) -> Option<i64> {
        match self {
            Json::Number(n) => n.integer,
            _ => None,
        }
    }

    /// A number in millionths; nothing for any other value.
    pub open spec fn millionths(self) -> Option<i64> {
        match self {
            Json::Number(n) => n.millionths,
            _ => None,
        }
    }

    /// The member `key` of an object.
    pub fn get(&self, key: &str) -> (r: Option<&Json>)
        ensures
            match r {
                Some(v) => self.field(key@) == Some(*v),
                None => self.field(key@) is None,
            },
    {
        match self {
            Json::Object(members) => find_member(members, key),
            _ => None,
        }
    }

    /// The element at `index` of an array.
    pub fn get_index(&self, index: usize) -> (r: Option<&Json>)
        ensures
            match r {
                Some(v) => self.element(index as int) == Some(*v),
                None => self.element(index as int) is None,
            },
    {
        match self {
            Json::Array(items) => if index < items.len() {
                Some(&items[index])
            } else {
                None
            },
            _ => None,
        }
    }

    /// The text of a string.
    pub fn as_str(&self) -> (r: Option<&str>)
        ensures
            match r {
                Some(s) => self.text() == Some(s@),
                None => self.text() is None,
            },
    {
        match self {
            Json::Text(s) => Some(s.as_str()),
            _ => None,
        }
    }

    /// The whole number that a number is.
    pub fn as_i64(&self) -> (r: Option<i64>)
        ensures
            r == self.integer(),
    {
        match self {
            Json::Number(n) => n.integer,
            _ => None,
        }
    }

    /// A number in millionths.
    pub fn as_millionths(&self) -> (r: Option<i64>)
        ensures
            r == self.millionths(),
    {
        match self {
            Json::Number(n) => n.millionths,
            _ => None,
        }
    }

    /// The members of an object.
    pub fn as_object(&self) -> (r: Option<&Vec<Member>>)
        ensures
            match r {
                Some(members) => *self == Json::Object(*members),
                None => !(self is Object),
            },
    {
        match self {
            Json::Object(members) => Some(members),
            _ => None,
        }
    }

    /// The elements of an array.
    pub fn as_array(&self) -> (r: Option<&Vec<Json>>)
        ensures
            match r {
                Some(items) => *self == Json::Array(*items),
                None => !(self is Array),
            },
    {
        match self {
            Json::Array(items) => Some(items),
            _ => None,
        }
    }
}

} // verus!
