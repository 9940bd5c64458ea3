use user_crud::record::{Response, User};
use user_crud::session::{
    Action, Reply, Session, FIRST_AGE, FIRST_EMAIL, FIRST_NAME, NEW_EMAIL,
};

fn john() -> User {
    User::new("John Doe", 25, "johndoe@gmail.com")
}

#[test]
fn the_first_user_is_john_doe() {
    assert_eq!(FIRST_NAME, "John Doe");
    assert_eq!(FIRST_AGE, 25);
    assert_eq!(FIRST_EMAIL, "johndoe@gmail.com");
    assert_eq!(NEW_EMAIL, "newupdatedemail@gmail.com");
}

#[test]
fn the_walk_begins_by_storing_the_first_user() {
    let (session, action) = Session::begin();
    assert!(matches!(session, Session::Storing));
    assert!(!session.is_done());
    match action {
        Action::Store(user) => assert_eq!(user, john()),
        other => panic!("{:?}", other),
    }
}

#[test]
fn the_walk_goes_through_all_five_requests() {
    let (session, _) = Session::begin();

    let (session, action) = session.advance(Reply::Stored(Response::new("-N1"))).unwrap();
    match (&session, &action) {
        (Session::Fetching { id }, Action::Fetch(asked)) => {
            assert_eq!(id, "-N1");
            assert_eq!(asked, "-N1");
        }
        other => panic!("{:?}", other),
    }
    assert!(!session.is_done());

    let read = User::new("John Doe", 25, "johndoe@gmail.com");
    let (session, action) = session.advance(Reply::Fetched(read)).unwrap();
    match (&session, &action) {
        (Session::Listing { id, user }, Action::FetchAll) => {
            assert_eq!(id, "-N1");
            assert_eq!(*user, john());
        }
        other => panic!("{:?}", other),
    }

    let (session, action) = session.advance(Reply::FetchedAll).unwrap();
    match (&session, &action) {
        (Session::Updating { id }, Action::Update(asked, user)) => {
            assert_eq!(id, "-N1");
            assert_eq!(asked, "-N1");
            assert_eq!(*user, User::new("John Doe", 25, "newupdatedemail@gmail.com"));
        }
        other => panic!("{:?}", other),
    }

    let (session, action) = session.advance(Reply::Updated).unwrap();
    match (&session, &action) {
        (Session::Deleting, Action::Delete(asked)) => assert_eq!(asked, "-N1"),
        other => panic!("{:?}", other),
    }
    assert!(!session.is_done());

    let (session, action) = session.advance(Reply::Deleted).unwrap();
    assert!(matches!(action, Action::Finish));
    assert!(matches!(session, Session::Done));
    assert!(session.is_done());
}

#[test]
fn the_user_that_is_sent_back_is_the_one_that_was_read() {
    let (session, _) = Session::begin();
    let (session, _) = session.advance(Reply::Stored(Response::new("key"))).unwrap();
    let (session, _) = session.advance(Reply::Fetched(User::new("Jane", 31, "jane@example.com"))).unwrap();
    let (_, action) = session.advance(Reply::FetchedAll).unwrap();
    match action {
        Action::Update(id, user) => {
            assert_eq!(id, "key");
            assert_eq!(user, User::new("Jane", 31, "newupdatedemail@gmail.com"));
        }
        other => panic!("{:?}", other),
    }
}

#[test]
fn a_reply_to_another_request_is_not_taken() {
    let (session, _) = Session::begin();
    assert!(session.advance(Reply::Deleted).is_none());
    let (session, _) = Session::begin();
    assert!(session.advance(Reply::Fetched(john())).is_none());
    let (session, _) = Session::begin();
    assert!(session.advance(Reply::FetchedAll).is_none());
    let (session, _) = Session::begin();
    assert!(session.advance(Reply::Updated).is_none());

    let (session, _) = Session::begin();
    let (session, _) = session.advance(Reply::Stored(Response::new("-N1"))).unwrap();
    assert!(session.advance(Reply::Stored(Response::new("-N2"))).is_none());
}

#[test]
fn a_walk_that_is_over_takes_no_reply() {
    assert!(Session::Done.advance(Reply::Deleted).is_none());
    assert!(Session::Done.advance(Reply::Updated).is_none());
    assert!(Session::Done.advance(Reply::FetchedAll).is_none());
    assert!(Session::Done.advance(Reply::Fetched(john())).is_none());
    assert!(Session::Done.advance(Reply::Stored(Response::new("-N1"))).is_none());
}
