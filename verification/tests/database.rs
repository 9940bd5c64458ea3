use user_crud::database::{connect, user_place, users_place, DATABASE_URL, LONGEST, USERS};

#[test]
fn the_database_of_the_program_can_be_addressed() {
    let root = connect(DATABASE_URL).unwrap();
    assert_eq!(root.get_uri(), "https://rust-crud-ef9ab-default-rtdb.firebaseio.com/");
}

#[test]
fn the_users_live_under_users() {
    assert_eq!(USERS, "users");
    let root = connect(DATABASE_URL).unwrap();
    assert_eq!(
        users_place(&root).unwrap().get_uri(),
        "https://rust-crud-ef9ab-default-rtdb.firebaseio.com/users.json"
    );
}

#[test]
fn a_user_lives_under_its_name_among_the_users() {
    let root = connect("https://example.firebaseio.com").unwrap();
    assert_eq!(
        user_place(&root, "-NabcDEF123").unwrap().get_uri(),
        "https://example.firebaseio.com/users/-NabcDEF123.json"
    );
}

#[test]
fn a_name_is_escaped_where_an_address_needs_it() {
    let root = connect("https://example.firebaseio.com").unwrap();
    assert_eq!(
        user_place(&root, "a b").unwrap().get_uri(),
        "https://example.firebaseio.com/users/a%20b.json"
    );
    assert_eq!(
        user_place(&root, "jörg").unwrap().get_uri(),
        "https://example.firebaseio.com/users/j%C3%B6rg.json"
    );
}

#[test]
fn places_do_not_depend_on_a_slash_at_the_end() {
    let with = connect("https://example.firebaseio.com/").unwrap();
    let without = connect("https://example.firebaseio.com").unwrap();
    assert_eq!(with.get_uri(), without.get_uri());
    assert_eq!(users_place(&with).unwrap().get_uri(), users_place(&without).unwrap().get_uri());
    assert_eq!(
        user_place(&with, "k").unwrap().get_uri(),
        user_place(&without, "k").unwrap().get_uri()
    );
}

#[test]
fn the_same_root_and_name_give_the_same_place() {
    let root = connect("https://example.firebaseio.com").unwrap();
    let again = connect("https://example.firebaseio.com").unwrap();
    assert_eq!(
        user_place(&root, "k").unwrap().get_uri(),
        user_place(&again, "k").unwrap().get_uri()
    );
    assert_ne!(
        user_place(&root, "k").unwrap().get_uri(),
        user_place(&root, "l").unwrap().get_uri()
    );
}

#[test]
fn the_root_is_left_as_it_was() {
    let root = connect("https://example.firebaseio.com").unwrap();
    let _ = user_place(&root, "k");
    let _ = users_place(&root);
    assert_eq!(root.get_uri(), "https://example.firebaseio.com/");
}

#[test]
fn an_address_without_https_is_refused() {
    assert!(connect("http://example.firebaseio.com").is_none());
    assert!(connect("ftp://example.firebaseio.com").is_none());
}

#[test]
fn a_text_that_is_no_address_is_refused() {
    assert!(connect("").is_none());
    assert!(connect("example.firebaseio.com").is_none());
    assert!(connect("https://").is_none());
}

#[test]
fn a_name_beyond_the_longest_has_no_place() {
    assert_eq!(LONGEST, 268_435_455);
    let root = connect("https://example.firebaseio.com").unwrap();
    let name = "a".repeat(LONGEST + 1);
    assert!(user_place(&root, &name).is_none());
}
