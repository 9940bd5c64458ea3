//! The two records that travel between the program and the database.

use vstd::prelude::*;
use vstd::std_specs::cmp::PartialEqSpecImpl;

verus! {

/// What a [`User`] holds, as mathematical values.
pub struct UserView {
    pub name: Seq<char>,
    pub age: nat,
    pub email: Seq<char>,
}

/// One entry of the user directory.
#[derive(Debug)]
pub struct User {
    pub name: String,
    pub age: u32,
    pub email: String,
}

impl View for User {
    type V = UserView;

    open spec fn view(&self) -> UserView {
        UserView { name: self.name@, age: self.age as nat, email: self.email@ }
    }
}

impl User {
    /// A user with the given name, age and address.
    pub fn new(name: &str, age: u32, email: &str) -> (user: User)
        ensures
            user@ == (UserView { name: name@, age: age as nat, email: email@ }),
    {
        User { name: name.to_owned(), age, email: email.to_owned() }
    }

    /// The same user with another address; name and age stay.
    pub fn with_email(self, email: &str) -> (user: User)
        ensures
            user@ == (UserView { email: email@, ..self@ }),
    {
        User { name: self.name, age: self.age, email: email.to_owned() }
    }
}

impl Clone for User {
    fn clone(&self) -> (copy: User)
        ensures
            copy@ == self@,
    {
        User { name: self.name.clone(), age: self.age, email: self.email.clone() }
    }
}

impl PartialEq for User {
    fn eq(&self, other: &User) -> (equal: bool) {
        self.name == other.name && self.age == other.age && self.email == other.email
    }
}

impl PartialEqSpecImpl for User {
    open spec fn obeys_eq_spec() -> bool {
        true
    }

    open spec fn eq_spec(&self, other: &User) -> bool {
        self@ == other@
    }
}

/// What a [`Response`] holds, as a mathematical value.
pub struct ResponseView {
    pub name: Seq<char>,
}

/// The database's answer to a record that was stored: the name under which
/// the record can be found again.
#[derive(Debug)]
pub struct Response {
    pub name: String,
}

impl View for Response {
    type V = ResponseView;

    open spec fn view(&self) -> ResponseView {
        ResponseView { name: self.name@ }
    }
}

impl Response {
    /// The answer that carries the given name.
    pub fn new(name: &str) -> (response: Response)
        ensures
            response@ == (ResponseView { name: name@ }),
    {
        Response { name: name.to_owned() }
    }
}

impl Clone for Response {
    fn clone(&self) -> (copy: Response)
        ensures
            copy@ == self@,
    {
        Response { name: self.name.clone() }
    }
}

impl PartialEq for Response {
    fn eq(&self, other: &Response) -> (equal: bool) {
        self.name == other.name
    }
}

impl PartialEqSpecImpl for Response {
    open spec fn obeys_eq_spec() -> bool {
        true
    }

    open spec fn eq_spec(&self, other: &Response) -> bool {
        self@ == other@
    }
}

} // verus!
