use autocommit::names::{EVERY_PATH, HEAD, REFSPEC, REMOTE, USER_EMAIL, USER_NAME};

#[test]
fn every_path_is_the_wildcard() {
    assert_eq!(EVERY_PATH, "*");
}

#[test]
fn identity_comes_from_user_name_and_user_email() {
    assert_eq!(USER_NAME, "user.name");
    assert_eq!(USER_EMAIL, "user.email");
}

#[test]
fn head_is_the_reference_that_moves() {
    assert_eq!(HEAD, "HEAD");
}

#[test]
fn push_goes_to_origin_master() {
    assert_eq!(REMOTE, "origin");
    assert_eq!(REFSPEC, "refs/heads/master:refs/heads/master");
}
