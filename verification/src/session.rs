//! The walk through the database: one user is stored, read back alone and
//! together with all others, given a new address, stored again and deleted.
//!
//! The walk itself talks to nobody. It says which request comes next and
//! takes the database's reply to it; whoever runs it performs the requests.

use crate::record::{Response, ResponseView, User, UserView};
use vstd::prelude::*;

verus! {

/// The name of the user that the walk stores.
pub const FIRST_NAME: &'static str = "John Doe";

/// The age of the user that the walk stores.
pub const FIRST_AGE: u32 = 25;

/// The address of the user that the walk stores.
pub const FIRST_EMAIL: &'static str = "johndoe@gmail.com";

/// The address that the walk gives the user once it has read it back.
pub const NEW_EMAIL: &'static str = "newupdatedemail@gmail.com";

/// A request to the database.
#[derive(Debug)]
pub enum Action {
    /// Store the user as a new record among the users.
    Store(User),
    /// Read the user of the given name.
    Fetch(String),
    /// Read all users.
    FetchAll,
    /// Overwrite the fields of the user of the given name.
    Update(String, User),
    /// Delete the user of the given name.
    Delete(String),
    /// Nothing is left to do.
    Finish,
}

/// What an [`Action`] holds, as mathematical values.
pub enum ActionView {
    Store(UserView),
    Fetch(Seq<char>),
    FetchAll,
    Update(Seq<char>, UserView),
    Delete(Seq<char>),
    Finish,
}

impl View for Action {
    type V = ActionView;

    open spec fn view(&self) -> ActionView {
        match self {
            Action::Store(user) => ActionView::Store(user@),
            Action::Fetch(id) => ActionView::Fetch(id@),
            Action::FetchAll => ActionView::FetchAll,
            Action::Update(id, user) => ActionView::Update(id@, user@),
            Action::Delete(id) => ActionView::Delete(id@),
            Action::Finish => ActionView::Finish,
        }
    }
}

/// The database's reply to a request, as far as the walk goes by it.
#[derive(Debug)]
pub enum Reply {
    /// The user was stored; the response names the new record.
    Stored(Response),
    /// The user that was read.
    Fetched(User),
    /// All users were read.
    FetchedAll,
    /// The user was overwritten.
    Updated,
    /// The user was deleted.
    Deleted,
}

/// What a [`Reply`] holds, as mathematical values.
pub enum ReplyView {
    Stored(ResponseView),
    Fetched(UserView),
    FetchedAll,
    Updated,
    Deleted,
}

impl View for Reply {
    type V = ReplyView;

    open spec fn view(&self) -> ReplyView {
        match self {
            Reply::Stored(response) => ReplyView::Stored(response@),
            Reply::Fetched(user) => ReplyView::Fetched(user@),
            Reply::FetchedAll => ReplyView::FetchedAll,
            Reply::Updated => ReplyView::Updated,
            Reply::Deleted => ReplyView::Deleted,
        }
    }
}

/// How far the walk has come: the reply it waits for, and what it has to
/// remember for the requests to come.
#[derive(Debug)]
pub enum Session {
    /// The user is being stored.
    Storing,
    /// The user stored under `id` is being read.
    Fetching { id: String },
    /// All users are being read; `user` is what was read under `id`.
    Listing { id: String, user: User },
    /// The user under `id` is being overwritten.
    Updating { id: String },
    /// The user is being deleted.
    Deleting,
    /// The walk is over.
    Done,
}

/// What a [`Session`] holds, as mathematical values.
pub enum SessionView {
    Storing,
    Fetching { id: Seq<char> },
    Listing { id: Seq<char>, user: UserView },
    Updating { id: Seq<char> },
    Deleting,
    Done,
}

impl View for Session {
    type V = SessionView;

    open spec fn view(&self) -> SessionView {
        match self {
            Session::Storing => SessionView::Storing,
            Session::Fetching { id } => SessionView::Fetching { id: id@ },
            Session::Listing { id, user } => SessionView::Listing { id: id@, user: user@ },
            Session::Updating { id } => SessionView::Updating { id: id@ },
            Session::Deleting => SessionView::Deleting,
            Session::Done => SessionView::Done,
        }
    }
}

/// The user that the walk stores.
pub open spec fn first_user() -> UserView {
    UserView { name: FIRST_NAME@, age: FIRST_AGE as nat, email: FIRST_EMAIL@ }
}

/// Where a reply takes the walk, and the request that follows it; `None`
/// where the reply is not the one that the walk waits for.
pub open spec fn next(session: SessionView, reply: ReplyView) -> Option<(SessionView, ActionView)> {
    match (session, reply) {
        (SessionView::Storing, ReplyView::Stored(response)) => Some(
            (SessionView::Fetching { id: response.name }, ActionView::Fetch(response.name)),
        ),
        (SessionView::Fetching { id }, ReplyView::Fetched(user)) => Some(
            (SessionView::Listing { id, user }, ActionView::FetchAll),
        ),
        (SessionView::Listing { id, user }, ReplyView::FetchedAll) => Some(
            (
                SessionView::Updating { id },
                ActionView::Update(id, UserView { email: NEW_EMAIL@, ..user }),
            ),
        ),
        (SessionView::Updating { id }, ReplyView::Updated) => Some(
            (SessionView::Deleting, ActionView::Delete(id)),
        ),
        (SessionView::Deleting, ReplyView::Deleted) => Some(
            (SessionView::Done, ActionView::Finish),
        ),
        _ => None,
    }
}

impl Session {
    /// The start of the walk and its first request: to store the first user.
    pub fn begin() -> (start: (Session, Action))
        ensures
            start.0@ == SessionView::Storing,
            start.1@ == ActionView::Store(first_user()),
    {
        (Session::Storing, Action::Store(User::new(FIRST_NAME, FIRST_AGE, FIRST_EMAIL)))
    }

    /// Takes the reply to the last request and gives the next one.
    ///
    /// The result is `None` where the reply does not answer the request that
    /// is under way, and always once the walk is over.
    pub fn advance(self, reply: Reply) -> (step: Option<(Session, Action)>)
        ensures
            match next(self@, reply@) {
                Some((session, action)) => step matches Some((s, a)) && s@ == session && a@
                    == action,
                None => step is None,
            },
    {
        match (self, reply) {
            (Session::Storing, Reply::Stored(response)) => {
                let id = response.name;
                let asked = id.clone();
                Some((Session::Fetching { id }, Action::Fetch(asked)))
            },
            (Session::Fetching { id }, Reply::Fetched(user)) => Some(
                (Session::Listing { id, user }, Action::FetchAll),
            ),
            (Session::Listing { id, user }, Reply::FetchedAll) => {
                let asked = id.clone();
                Some((Session::Updating { id }, Action::Update(asked, user.with_email(NEW_EMAIL))))
            },
            (Session::Updating { id }, Reply::Updated) => Some(
                (Session::Deleting, Action::Delete(id)),
            ),
            (Session::Deleting, Reply::Deleted) => Some((Session::Done, Action::Finish)),
            _ => None,
        }
    }

    /// Whether the walk is over.
    pub fn is_done(&self) -> (done: bool)
        ensures
            done == (self@ is Done),
    {
        match self {
            Session::Done => true,
            _ => false,
        }
    }
}

impl SessionView {
    /// The number of replies that the walk still takes.
    pub open spec fn remaining(self) -> nat {
        match self {
            SessionView::Storing => 5,
            SessionView::Fetching { .. } => 4,
            SessionView::Listing { .. } => 3,
            SessionView::Updating { .. } => 2,
            SessionView::Deleting => 1,
            SessionView::Done => 0,
        }
    }

    /// The name of the stored record, while the walk has requests for it
    /// ahead.
    pub open spec fn record(self) -> Option<Seq<char>> {
        match self {
            SessionView::Fetching { id } => Some(id),
            SessionView::Listing { id, .. } => Some(id),
            SessionView::Updating { id } => Some(id),
            _ => None,
        }
    }
}

impl ActionView {
    /// The name of the record that a request is about, if it is about one.
    pub open spec fn record(self) -> Option<Seq<char>> {
        match self {
            ActionView::Fetch(id) => Some(id),
            ActionView::Update(id, _) => Some(id),
            ActionView::Delete(id) => Some(id),
            _ => None,
        }
    }
}

/// Every reply that the walk takes brings it one step closer to its end, so
/// it takes five of them and no more; the request that follows is
/// [`ActionView::Finish`] exactly when the walk is over.
pub proof fn step_counts_down(session: SessionView, reply: ReplyView)
    requires
        next(session, reply) is Some,
    ensures
        next(session, reply).unwrap().0.remaining() + 1 == session.remaining(),
        next(session, reply).unwrap().1 is Finish <==> next(session, reply).unwrap().0 is Done,
{
}

/// The walk stays with one record: once the database has named it, every
/// request about a record is about that one, and the walk remembers no other.
pub proof fn step_keeps_record(session: SessionView, reply: ReplyView)
    requires
        next(session, reply) is Some,
        session.record() is Some,
    ensures
        ({
            let (after, action) = next(session, reply).unwrap();
            &&& action.record() is Some ==> action.record() == session.record()
            &&& after.record() is Some ==> after.record() == session.record()
        }),
{
}

/// The user that is sent back to the database is the one that was read from
/// it, with the new address and nothing else changed.
pub proof fn update_changes_the_address_only(id: Seq<char>, user: UserView)
    ensures
        next(SessionView::Listing { id, user }, ReplyView::FetchedAll) matches Some((_, action))
            && action == ActionView::Update(
            id,
            UserView { name: user.name, age: user.age, email: NEW_EMAIL@ },
        ),
{
}

} // verus!
