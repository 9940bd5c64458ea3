use user_crud::record::{Response, User};

#[test]
fn new_user_holds_what_it_was_given() {
    let user = User::new("John Doe", 25, "johndoe@gmail.com");
    assert_eq!(user.name, "John Doe");
    assert_eq!(user.age, 25);
    assert_eq!(user.email, "johndoe@gmail.com");
}

#[test]
fn with_email_changes_the_address_only() {
    let user = User::new("John Doe", 25, "johndoe@gmail.com").with_email("newupdatedemail@gmail.com");
    assert_eq!(user.name, "John Doe");
    assert_eq!(user.age, 25);
    assert_eq!(user.email, "newupdatedemail@gmail.com");
}

#[test]
fn users_are_equal_when_all_fields_are() {
    let user = User::new("a", 1, "b");
    assert_eq!(user, User::new("a", 1, "b"));
    assert_ne!(user, User::new("x", 1, "b"));
    assert_ne!(user, User::new("a", 2, "b"));
    assert_ne!(user, User::new("a", 1, "x"));
}

#[test]
fn clone_of_a_user_is_equal_to_it() {
    let user = User::new("John Doe", 25, "johndoe@gmail.com");
    assert_eq!(user.clone(), user);
}

#[test]
fn user_is_shown_with_its_fields() {
    let user = User::new("John Doe", 25, "johndoe@gmail.com");
    assert_eq!(
        format!("{:?}", user),
        "User { name: \"John Doe\", age: 25, email: \"johndoe@gmail.com\" }"
    );
}

#[test]
fn new_response_holds_the_name() {
    let response = Response::new("-NabcDEF");
    assert_eq!(response.name, "-NabcDEF");
    assert_eq!(response, Response::new("-NabcDEF"));
    assert_ne!(response, Response::new("-Nother"));
    assert_eq!(response.clone(), response);
}

#[test]
fn response_is_shown_with_its_name() {
    assert_eq!(format!("{:?}", Response::new("-N1")), "Response { name: \"-N1\" }");
}
