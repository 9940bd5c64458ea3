//! Records to JSON and back.
//!
//! A record is written as an object with one member per field. It is read
//! from such an object, in which members of other names are passed over, or
//! from an array that holds exactly the fields, in the order of their
//! declaration.
//!
//! A text is always read as one whole JSON document first, and the record is
//! taken from the document. What `serde_json` does not read as a document is
//! no record, wherever in the text the fault lies; and where a text writes a
//! member twice, the document has it once, as written last.

use crate::json::{
    as_elements, as_members, as_natural, as_text, content, empty_object, lists_members, member,
    natural_value, parse, parsed, set_member, text_value, Json,
};
use crate::record::{Response, ResponseView, User, UserView};
use serde_json::Value;
use vstd::prelude::*;

verus! {

/// Why a text could not be read as a record.
#[derive(Debug, Clone, Copy, PartialEq, Eq, Structural)]
pub enum DecodeError {
    /// The text is not a JSON document.
    Syntax,
    /// The text is a JSON document, but not of the record asked for.
    Shape,
}

/// The field of a record in a document: the member of that name in an
/// object, the element at the field's position in an array of `count`
/// elements.
pub open spec fn field(document: Json, name: Seq<char>, position: int, count: nat) -> Option<Json> {
    match document {
        Json::Object(_) => document.member(name),
        Json::Array(items) => if items.len() == count && 0 <= position < count {
            Some(items[position])
        } else {
            None
        },
        _ => None,
    }
}

/// The characters of a field that has to be a string.
pub open spec fn text_field(found: Option<Json>) -> Option<Seq<char>> {
    match found {
        Some(document) => document.text(),
        None => None,
    }
}

/// The value of a field that has to be a whole number from 0 to `u32::MAX`.
pub open spec fn age_field(found: Option<Json>) -> Option<nat> {
    match found {
        Some(Json::Natural(n)) => if n <= u32::MAX {
            Some(n as nat)
        } else {
            None
        },
        _ => None,
    }
}

/// The user that a document stands for, if it stands for one.
pub open spec fn user_of(document: Json) -> Option<UserView> {
    match (
        text_field(field(document, "name"@, 0, 3)),
        age_field(field(document, "age"@, 1, 3)),
        text_field(field(document, "email"@, 2, 3)),
    ) {
        (Some(name), Some(age), Some(email)) => Some(UserView { name, age, email }),
        _ => None,
    }
}

/// The response that a document stands for, if it stands for one.
pub open spec fn response_of(document: Json) -> Option<ResponseView> {
    match text_field(field(document, "name"@, 0, 1)) {
        Some(name) => Some(ResponseView { name }),
        None => None,
    }
}

/// The users that a document stands for, each under its name, if it stands
/// for a directory of users: an object whose members are all users.
pub open spec fn users_of(document: Json) -> Option<Map<Seq<char>, UserView>> {
    match document {
        Json::Object(members) => if forall|name: Seq<char>|
            members.contains_key(name) ==> user_of(#[trigger] members[name]) is Some {
            Some(members.map_values(|member: Json| user_of(member).unwrap()))
        } else {
            None
        },
        _ => None,
    }
}

/// Whether a row of named users lists exactly the users of a directory:
/// every name once, each with the user that the directory has under it.
pub open spec fn lists_users(entries: Seq<(String, User)>, users: Map<Seq<char>, UserView>) -> bool {
    &&& forall|i: int, j: int|
        0 <= i < j < entries.len() ==> (#[trigger] entries[i]).0@ != (#[trigger] entries[j]).0@
    &&& forall|i: int|
        0 <= i < entries.len() ==> users.contains_key((#[trigger] entries[i]).0@)
            && users[entries[i].0@] == entries[i].1@
    &&& forall|name: Seq<char>| #[trigger]
        users.contains_key(name) ==> exists|i: int|
            0 <= i < entries.len() && (#[trigger] entries[i]).0@ == name
}

/// The document that stands for a user.
pub open spec fn json_of_user(user: UserView) -> Json {
    Json::Object(
        Map::empty().insert("name"@, Json::Text(user.name)).insert(
            "age"@,
            Json::Natural(user.age as u64),
        ).insert("email"@, Json::Text(user.email)),
    )
}

/// What reading a text as a user gives.
pub open spec fn user_of_text(text: Seq<char>) -> Result<UserView, DecodeError> {
    match parsed(text) {
        None => Err(DecodeError::Syntax),
        Some(document) => match user_of(document) {
            Some(user) => Ok(user),
            None => Err(DecodeError::Shape),
        },
    }
}

/// What reading a text as a directory of users gives.
pub open spec fn users_of_text(text: Seq<char>) -> Result<Map<Seq<char>, UserView>, DecodeError> {
    match parsed(text) {
        None => Err(DecodeError::Syntax),
        Some(document) => match users_of(document) {
            Some(users) => Ok(users),
            None => Err(DecodeError::Shape),
        },
    }
}

/// What reading a text as a response gives.
pub open spec fn response_of_text(text: Seq<char>) -> Result<ResponseView, DecodeError> {
    match parsed(text) {
        None => Err(DecodeError::Syntax),
        Some(document) => match response_of(document) {
            Some(response) => Ok(response),
            None => Err(DecodeError::Shape),
        },
    }
}

/// Looks a field up as [`field`] describes it.
fn find_field<'a>(value: &'a Value, name: &str, position: usize, count: usize) -> (found: Option<
    &'a Value,
>)
    ensures
        match field(content(*value), name@, position as int, count as nat) {
            Some(document) => found matches Some(v) && content(*v) == document,
            None => found is None,
        },
{
    match as_elements(value) {
        Some(items) => {
            if items.len() == count && position < count {
                Some(&items[position])
            } else {
                None
            }
        },
        None => member(value, name),
    }
}

/// Reads a field that has to be a string.
fn read_text(found: Option<&Value>) -> (text: Option<String>)
    ensures
        match found {
            Some(value) => match content(*value).text() {
                Some(chars) => text matches Some(t) && t@ == chars,
                None => text is None,
            },
            None => text is None,
        },
{
    match found {
        Some(value) => match as_text(value) {
            Some(chars) => Some(chars.to_owned()),
            None => None,
        },
        None => None,
    }
}

/// Reads a field that has to be a whole number from 0 to `u32::MAX`.
fn read_age(found: Option<&Value>) -> (age: Option<u32>)
    ensures
        match found {
            Some(value) => match age_field(Some(content(*value))) {
                Some(n) => age matches Some(a) && a == n,
                None => age is None,
            },
            None => age is None,
        },
{
    match found {
        Some(value) => match as_natural(value) {
            Some(n) => if n <= 0xffff_ffff {
                Some(n as u32)
            } else {
                None
            },
            None => None,
        },
        None => None,
    }
}

/// Reads a user from a document.
///
/// The document must be an object with the strings `name` and `email` and the
/// number `age`, which must be whole and lie between 0 and `u32::MAX`, or an
/// array of exactly these three in the order name, age, email.
pub fn decode_user(value: &Value) -> (user: Option<User>)
    ensures
        match user_of(content(*value)) {
            Some(expected) => user matches Some(u) && u@ == expected,
            None => user is None,
        },
{
    let name = read_text(find_field(value, "name", 0, 3));
    let age = read_age(find_field(value, "age", 1, 3));
    let email = read_text(find_field(value, "email", 2, 3));
    match (name, age, email) {
        (Some(name), Some(age), Some(email)) => Some(User { name, age, email }),
        _ => None,
    }
}

/// Reads a response from a document.
///
/// The document must be an object with the string `name`, or an array of
/// exactly that one string.
pub fn decode_response(value: &Value) -> (response: Option<Response>)
    ensures
        match response_of(content(*value)) {
            Some(expected) => response matches Some(r) && r@ == expected,
            None => response is None,
        },
{
    match read_text(find_field(value, "name", 0, 1)) {
        Some(name) => Some(Response { name }),
        None => None,
    }
}

/// Reads a directory of users from a document.
///
/// The document must be an object, and each of its members a user as
/// [`decode_user`] reads one. The users come with the names of their members,
/// every name once.
pub fn decode_users(value: &Value) -> (users: Option<Vec<(String, User)>>)
    ensures
        match users_of(content(*value)) {
            Some(expected) => users matches Some(list) && lists_users(list@, expected),
            None => users is None,
        },
{
    let members = match as_members(value) {
        Some(members) => members,
        None => return None,
    };
    let ghost documents = content(*value).members().unwrap();
    let mut users: Vec<(String, User)> = Vec::new();
    let mut i: usize = 0;
    while i < members.len()
        invariant
            i <= members.len(),
            users.len() == i,
            content(*value) == Json::Object(documents),
            lists_members(members@, documents),
            forall|k: int|
                0 <= k < i ==> (#[trigger] users[k]).0@ == members[k].0@ && user_of(
                    content(*members[k].1),
                ) == Some(users[k].1@),
        decreases members.len() - i,
    {
        let (name, document) = members[i];
        match decode_user(document) {
            Some(user) => users.push((name.clone(), user)),
            None => {
                assert(documents.contains_key(members[i as int].0@));
                assert(user_of(documents[members[i as int].0@]) is None);
                return None;
            },
        }
        i += 1;
    }
    proof {
        assert forall|name: Seq<char>| documents.contains_key(name) implies user_of(
            #[trigger] documents[name],
        ) is Some by {
            let k = choose|k: int| 0 <= k < members.len() && (#[trigger] members[k]).0@ == name;
            assert(users[k].0@ == name);
        }
        let expected = users_of(content(*value)).unwrap();
        assert forall|k: int| 0 <= k < users.len() implies expected.contains_key(
            (#[trigger] users[k]).0@,
        ) && expected[users[k].0@] == users[k].1@ by {
            assert(documents.contains_key(members[k].0@));
        }
        assert forall|name: Seq<char>| #[trigger] expected.contains_key(name) implies exists|
            k: int,
        |
            0 <= k < users.len() && (#[trigger] users[k]).0@ == name by {
            assert(documents.contains_key(name));
            let k = choose|k: int| 0 <= k < members.len() && (#[trigger] members[k]).0@ == name;
            assert(users[k].0@ == name);
        }
    }
    Some(users)
}

/// Writes a user as a document: an object with the members `name`, `age` and
/// `email`.
pub fn encode_user(user: &User) -> (value: Value)
    ensures
        content(value) == json_of_user(user@),
{
    let mut value = empty_object();
    set_member(&mut value, "name", text_value(user.name.as_str()));
    set_member(&mut value, "age", natural_value(user.age));
    set_member(&mut value, "email", text_value(user.email.as_str()));
    value
}

/// Reads a text as a user. The text has to be one that stands for a user;
/// [`read_user`] takes every text.
///
/// The whole text is read as one JSON document before the user is taken
/// from it. So a member written twice counts once, the last; and a member
/// that a user does not have must still be something that `serde_json` reads
/// as a document.
pub fn string_to_user(text: &str) -> (user: User)
    requires
        user_of_text(text@) is Ok,
    ensures
        Ok::<UserView, DecodeError>(user@) == user_of_text(text@),
{
    let value = parse(text).unwrap();
    decode_user(&value).unwrap()
}

/// Reads a text as a directory of users. The text has to be one that stands
/// for a directory; [`read_users`] takes every text.
///
/// The whole text is read as one JSON document first, so of two users
/// written under one name the last counts.
pub fn string_to_users(text: &str) -> (users: Vec<(String, User)>)
    requires
        users_of_text(text@) is Ok,
    ensures
        lists_users(users@, users_of_text(text@)->Ok_0),
{
    let value = parse(text).unwrap();
    decode_users(&value).unwrap()
}

/// Reads a text as a response. The text has to be one that stands for a
/// response; [`read_response`] takes every text.
///
/// The whole text is read as one JSON document before the response is taken
/// from it. So a member written twice counts once, the last; and a member
/// that a response does not have must still be something that `serde_json`
/// reads as a document.
pub fn string_to_response(text: &str) -> (response: Response)
    requires
        response_of_text(text@) is Ok,
    ensures
        Ok::<ResponseView, DecodeError>(response@) == response_of_text(text@),
{
    let value = parse(text).unwrap();
    decode_response(&value).unwrap()
}

/// Reads a text as a user where it stands for one, as [`string_to_user`]
/// does, and says why where it stands for none.
pub fn read_user(text: &str) -> (outcome: Result<User, DecodeError>)
    ensures
        match user_of_text(text@) {
            Ok(expected) => outcome matches Ok(u) && u@ == expected,
            Err(error) => outcome == Err::<User, DecodeError>(error),
        },
{
    match parse(text) {
        Ok(value) => match decode_user(&value) {
            Some(_) => Ok(string_to_user(text)),
            None => Err(DecodeError::Shape),
        },
        Err(_) => Err(DecodeError::Syntax),
    }
}

/// Reads a text as a directory of users where it stands for one, as
/// [`string_to_users`] does, and says why where it stands for none.
pub fn read_users(text: &str) -> (outcome: Result<Vec<(String, User)>, DecodeError>)
    ensures
        match users_of_text(text@) {
            Ok(expected) => outcome matches Ok(list) && lists_users(list@, expected),
            Err(error) => outcome == Err::<Vec<(String, User)>, DecodeError>(error),
        },
{
    match parse(text) {
        Ok(value) => match decode_users(&value) {
            Some(_) => Ok(string_to_users(text)),
            None => Err(DecodeError::Shape),
        },
        Err(_) => Err(DecodeError::Syntax),
    }
}

/// Reads a text as a response where it stands for one, as
/// [`string_to_response`] does, and says why where it stands for none.
pub fn read_response(text: &str) -> (outcome: Result<Response, DecodeError>)
    ensures
        match response_of_text(text@) {
            Ok(expected) => outcome matches Ok(r) && r@ == expected,
            Err(error) => outcome == Err::<Response, DecodeError>(error),
        },
{
    match parse(text) {
        Ok(value) => match decode_response(&value) {
            Some(_) => Ok(string_to_response(text)),
            None => Err(DecodeError::Shape),
        },
        Err(_) => Err(DecodeError::Syntax),
    }
}

/// A user that is written as a document and read from it again is the same
/// user.
pub proof fn user_round_trip(user: UserView)
    requires
        user.age <= u32::MAX,
    ensures
        user_of(json_of_user(user)) == Some(user),
{
    reveal_strlit("name");
    reveal_strlit("age");
    reveal_strlit("email");
    assert("name"@.len() == 4 && "age"@.len() == 3 && "email"@.len() == 5);
}

/// Members that a record does not have change nothing: a document that
/// stands for a user stands for the same user with one more member, as long
/// as that member is none of `name`, `age` and `email`.
pub proof fn user_ignores_other_members(document: Json, name: Seq<char>, value: Json)
    requires
        document is Object,
        name != "name"@,
        name != "age"@,
        name != "email"@,
    ensures
        user_of(document.with_member(name, value)) == user_of(document),
{
}

} // verus!
