use autocommit::failure::{Failure, Kind};

#[test]
fn staging_context() {
    assert_eq!(Failure::Stage.context(), String::from("error while writing the tree to the index"));
}

#[test]
fn tree_write_context() {
    assert_eq!(
        Failure::TreeWrite.context(),
        String::from("error while writing the tree to the index")
    );
}

#[test]
fn tree_lookup_context() {
    assert_eq!(
        Failure::TreeLookup.context(),
        String::from("error while writing the tree to the index")
    );
}

#[test]
fn config_context() {
    assert_eq!(
        Failure::Config.context(),
        String::from("Could not get the config from the repo")
    );
}

#[test]
fn user_name_context_names_the_field() {
    assert_eq!(
        Failure::UserName.context(),
        String::from("Username is not set in the Git config; Please set username")
    );
}

#[test]
fn user_email_context_names_the_field() {
    assert_eq!(
        Failure::UserEmail.context(),
        String::from("Email is not set in the Git config; Please set email")
    );
}

#[test]
fn signature_context_holds_both_values() {
    let failure = Failure::Signature {
        name: String::from("Ada <Lovelace>"),
        email: String::from("ada@example.org"),
    };
    assert_eq!(
        failure.context(),
        String::from("Could not generate the signature from Ada <Lovelace> and ada@example.org")
    );
}

#[test]
fn signature_context_with_empty_values() {
    let failure = Failure::Signature { name: String::new(), email: String::new() };
    assert_eq!(
        failure.context(),
        String::from("Could not generate the signature from  and ")
    );
}

#[test]
fn head_context() {
    assert_eq!(Failure::Head.context(), String::from("Could not commit changes"));
}

#[test]
fn commit_context() {
    assert_eq!(Failure::Commit.context(), String::from("Could not commit changes"));
}

#[test]
fn initial_commit_context() {
    assert_eq!(
        Failure::InitialCommit.context(),
        String::from("Could not commit the changes to the repository")
    );
}

#[test]
fn remote_context() {
    assert_eq!(
        Failure::Remote.context(),
        String::from("error while pushing changes to remote using ssh config")
    );
}

#[test]
fn push_context() {
    assert_eq!(
        Failure::Push.context(),
        String::from("error while pushing changes to remote using ssh config")
    );
}

#[test]
fn every_failure_has_its_kind() {
    let signature = Failure::Signature { name: String::from("a"), email: String::from("b") };
    assert_eq!(Failure::Stage.kind(), Kind::Index);
    assert_eq!(Failure::TreeWrite.kind(), Kind::Index);
    assert_eq!(Failure::TreeLookup.kind(), Kind::Index);
    assert_eq!(Failure::Config.kind(), Kind::Configuration);
    assert_eq!(Failure::UserName.kind(), Kind::Configuration);
    assert_eq!(Failure::UserEmail.kind(), Kind::Configuration);
    assert_eq!(signature.kind(), Kind::Signature);
    assert_eq!(Failure::Head.kind(), Kind::Commit);
    assert_eq!(Failure::Commit.kind(), Kind::Commit);
    assert_eq!(Failure::InitialCommit.kind(), Kind::Commit);
    assert_eq!(Failure::Remote.kind(), Kind::Push);
    assert_eq!(Failure::Push.kind(), Kind::Push);
}
