//! Where the records live: the places of a Firebase Realtime Database.
//!
//! A place is a `firebase_rs::Firebase`, which is a web address and nothing
//! else. The crate `firebase_rs` works the addresses out; [`address`],
//! [`root_address`] and [`child_address`] name its results, and the functions
//! of this file say over these names which place each request of the program
//! goes to.

use firebase_rs::{Firebase, UrlParseError};
use vstd::prelude::*;
use vstd::utf8::encode_utf8;

verus! {

/// The address of the database that the program works on.
pub const DATABASE_URL: &'static str = "https://rust-crud-ef9ab-default-rtdb.firebaseio.com/";

/// The name of the place below the root that holds the users.
pub const USERS: &'static str = "users";

/// The number of bytes up to which an address can be extended by a path, and
/// a path can extend an address.
///
/// `firebase_rs` keeps an address in a `url::Url`, which holds at most
/// `u32::MAX` bytes and panics when a new path takes it beyond that. The new
/// address takes at most five times the bytes of the old one, three times
/// those of the path, and sixteen more; with both within this limit that
/// stays far below what a `Url` holds.
pub const LONGEST: usize = 0x0fff_ffff;

#[verifier::external_type_specification]
#[verifier::external_body]
pub struct ExFirebase(firebase_rs::Firebase);

#[verifier::external_type_specification]
#[verifier::external_body]
pub struct ExUrlParseError(firebase_rs::UrlParseError);

/// The address of a place, as `Firebase::get_uri` gives it.
pub uninterp spec fn address(place: Firebase) -> Seq<char>;

/// The address of the place that `Firebase::new` makes of a text, or `None`
/// where it reports an error.
pub uninterp spec fn root_address(text: Seq<char>) -> Option<Seq<char>>;

/// The address of the place that `Firebase::at` finds under a path, from the
/// address of the place it starts at.
pub uninterp spec fn child_address(parent: Seq<char>, path: Seq<char>) -> Seq<char>;

/// The number of bytes that a text takes.
pub open spec fn bytes(text: Seq<char>) -> nat {
    encode_utf8(text).len()
}

/// The address of the place under a path; `None` where the address to start
/// from or the path is longer than [`LONGEST`].
pub open spec fn child_of(parent: Seq<char>, path: Seq<char>) -> Option<Seq<char>> {
    if bytes(parent) <= LONGEST && bytes(path) <= LONGEST {
        Some(child_address(parent, path))
    } else {
        None
    }
}

/// The address of the place that holds the users of a database.
pub open spec fn users_address(root: Seq<char>) -> Option<Seq<char>> {
    child_of(root, USERS@)
}

/// The address of the place that holds one user of a database.
pub open spec fn user_address(root: Seq<char>, id: Seq<char>) -> Option<Seq<char>> {
    match users_address(root) {
        Some(users) => child_of(users, id),
        None => None,
    }
}

/// `Firebase::new`: the outcome depends on the text alone, and
/// [`root_address`] is its name. The text has to be a web address with the
/// scheme `https`.
#[verifier::external_body]
pub(crate) fn new_place(text: &str) -> (outcome: Result<Firebase, UrlParseError>)
    ensures
        match outcome {
            Ok(place) => root_address(text@) == Some(address(place)),
            Err(_) => root_address(text@) is None,
        },
{
    Firebase::new(text)
}

/// `Firebase::get_uri`: the address of a place as a text.
#[verifier::external_body]
pub(crate) fn address_of(place: &Firebase) -> (text: String)
    ensures
        text@ == address(*place),
{
    place.get_uri()
}

/// `Firebase::at`: the place under a path. Its address depends on the address
/// of the starting place and on the path alone, and [`child_address`] is its
/// name. Both have to be short enough for the new address to be held.
#[verifier::external_body]
pub(crate) fn place_at(place: &Firebase, path: &str) -> (below: Firebase)
    requires
        bytes(address(*place)) <= LONGEST,
        bytes(path@) <= LONGEST,
    ensures
        address(below) == child_address(address(*place), path@),
{
    place.at(path)
}

/// The root of the database at a web address; `None` where the text is not
/// an address that `firebase_rs` accepts.
pub fn connect(text: &str) -> (root: Option<Firebase>)
    ensures
        match root_address(text@) {
            Some(expected) => root matches Some(place) && address(place) == expected,
            None => root is None,
        },
{
    match new_place(text) {
        Ok(place) => Some(place),
        Err(_) => None,
    }
}

/// The place under a path, as [`child_of`] describes it.
fn child(place: &Firebase, path: &str) -> (below: Option<Firebase>)
    ensures
        match child_of(address(*place), path@) {
            Some(expected) => below matches Some(found) && address(found) == expected,
            None => below is None,
        },
{
    let from = address_of(place);
    if from.as_str().as_bytes().len() <= LONGEST && path.as_bytes().len() <= LONGEST {
        Some(place_at(place, path))
    } else {
        None
    }
}

/// The place that holds the users; `None` where the address of the root is
/// longer than [`LONGEST`].
pub fn users_place(root: &Firebase) -> (place: Option<Firebase>)
    ensures
        match users_address(address(*root)) {
            Some(expected) => place matches Some(found) && address(found) == expected,
            None => place is None,
        },
{
    child(root, USERS)
}

/// The place that holds the user of the given name; `None` where the name,
/// the address of the root or that of the users is longer than [`LONGEST`].
pub fn user_place(root: &Firebase, id: &str) -> (place: Option<Firebase>)
    ensures
        match user_address(address(*root), id@) {
            Some(expected) => place matches Some(found) && address(found) == expected,
            None => place is None,
        },
{
    match child(root, USERS) {
        Some(users) => child(&users, id),
        None => None,
    }
}

} // verus!
