use std::convert::TryInto;

use commons::database::collections::{
    edge_lookup_query,
    remove_by_address_query, resolve_or_reject, CollectionKind, UndefinedDocumentError,
};
use commons::database::documents::{DBDocumentField, SignatureAction};

#[test]
fn check_try_into() {
    for value in CollectionKind::enum_list() {
        let name = value.name();
        let value2: CollectionKind = name
            .try_into()
            .unwrap_or_else(|_| panic!("The value {:?} cannot be got from name", value));

        assert_eq!(*value, value2, "The value {:?} is incorrect", value);
    }
}

#[test]
fn collection_names() {
    assert_eq!(CollectionKind::Configuration.name(), "Configuration");
    assert_eq!(CollectionKind::Emails.name(), "Emails");
    assert_eq!(CollectionKind::enum_list().len(), 8);
}

#[test]
fn collection_unknown_name() {
    let r: Result<CollectionKind, ()> = "Unknown".try_into();
    assert_eq!(r, Err(()));
    let r: Result<CollectionKind, ()> = "bets".try_into();
    assert_eq!(r, Err(()));
    let r: Result<CollectionKind, ()> = "Bets".try_into();
    assert_eq!(r, Ok(CollectionKind::Bets));
}

#[test]
fn document_field_paths() {
    assert_eq!(DBDocumentField::Key.path(), "_key");
    assert_eq!(DBDocumentField::Id.path(), "_id");
    assert_eq!(DBDocumentField::Rev.path(), "_rev");
    assert_eq!(DBDocumentField::To.path(), "_to");
    assert_eq!(DBDocumentField::From.path(), "_from");
    assert_eq!(DBDocumentField::Mutex.path(), "_l");
}

#[test]
fn signature_login_message() {
    let message = SignatureAction::Login.build_message("Addr1", "42");
    assert_eq!(
        message,
        "Approve this message to login into the app. \nUser=Addr1 \nNonce=42"
    );
}

#[test]
fn locked_collections() {
    let locked: Vec<CollectionKind> = CollectionKind::enum_list()
        .iter()
        .copied()
        .filter(|k| k.holds_document_locks())
        .collect();
    assert_eq!(
        locked,
        vec![
            CollectionKind::Mutexes,
            CollectionKind::Challenges,
            CollectionKind::Participants,
            CollectionKind::Bets
        ]
    );
}

#[test]
fn missing_documents_are_rejected() {
    assert_eq!(resolve_or_reject(Some(7), CollectionKind::Bets), Ok(7));
    let error = resolve_or_reject::<u8>(None, CollectionKind::Bets).unwrap_err();
    assert_eq!(error, UndefinedDocumentError { collection: CollectionKind::Bets });
    assert_eq!(error.status_code(), 400);
    assert_eq!(error.message(), "Undefined bet");
    let messages: Vec<&str> = [
        CollectionKind::Mutexes,
        CollectionKind::Challenges,
        CollectionKind::Participants,
        CollectionKind::Signatures,
        CollectionKind::Authentications,
        CollectionKind::Emails,
    ]
    .iter()
    .map(|k| UndefinedDocumentError { collection: *k }.message())
    .collect();
    assert_eq!(
        messages,
        vec![
            "Undefined mutex",
            "Undefined challenge",
            "Undefined participant",
            "Undefined signature",
            "Undefined authentication",
            "Undefined email"
        ]
    );
}

#[test]
fn authentication_removal_query() {
    let aql = remove_by_address_query("Addr1");
    assert_eq!(
        aql.build_query(),
        "FOR i IN Authentications FILTER i.A == \"Addr1\" REMOVE i IN Authentications OPTIONS { ignoreRevs: false, ignoreErrors: true }"
    );
}

#[test]
fn edge_lookup() {
    let aql = edge_lookup_query("Links", "Bets/1", "Challenges/2");
    assert_eq!(
        aql.build_query(),
        "FOR i IN Links FILTER i._from == \"Bets/1\" && i._to == \"Challenges/2\" RETURN i"
    );
}

#[test]
fn addresses_are_escaped() {
    let aql = remove_by_address_query("a\"b\\c\t\u{1f}");
    assert!(aql.build_query().contains("i.A == \"a\\\"b\\\\c\\t\\u001f\" REMOVE"));
}
