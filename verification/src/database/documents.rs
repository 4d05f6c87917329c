//! Fields shared by every document and the actions a signature approves.

use vstd::prelude::*;
use vstd::string::StringExecFns;

verus! {

/// A field that every document of the database can have.
#[derive(Debug, Clone, Copy, PartialEq, Eq, Structural)]
pub enum DBDocumentField {
    Key,
    Id,
    Rev,
    To,
    From,
    Mutex,
}

/// The path of a document field in the database.
pub open spec fn document_field_path(field: DBDocumentField) -> Seq<char> {
    match field {
        DBDocumentField::Key => "_key"@,
        DBDocumentField::Id => "_id"@,
        DBDocumentField::Rev => "_rev"@,
        DBDocumentField::To => "_to"@,
        DBDocumentField::From => "_from"@,
        DBDocumentField::Mutex => "_l"@,
    }
}

impl DBDocumentField {
    /// The path of this field in the database.
    pub fn path(&self) -> (r: &'static str)
        ensures
            r@ == document_field_path(*self),
    {
        match self {
            DBDocumentField::Key => "_key",
            DBDocumentField::Id => "_id",
            DBDocumentField::Rev => "_rev",
            DBDocumentField::To => "_to",
            DBDocumentField::From => "_from",
            DBDocumentField::Mutex => "_l",
        }
    }
}

/// What a user approves by signing a message.
#[derive(Debug, Clone, Copy, PartialEq, Eq, Structural)]
pub enum SignatureAction {
    /// Logging into the app.
    Login,
}

/// The message a user signs to approve `action` for `address` with `nonce`.
pub open spec fn signature_message(action: SignatureAction, address: Seq<char>, nonce: Seq<char>) -> Seq<char> {
    match action {
        SignatureAction::Login => "Approve this message to login into the app. \nUser="@ + address
            + " \nNonce="@ + nonce,
    }
}

impl SignatureAction {
    /// Builds the message that will be signed by the user.
    pub fn build_message(&self, address: &str, nonce: &str) -> (r: String)
        ensures
            r@ == signature_message(*self, address@, nonce@),
    {
        match self {
            SignatureAction::Login => {
                let mut message = String::from_str("Approve this message to login into the app. \nUser=");
                message.append(address);
                message.append(" \nNonce=");
                message.append(nonce);
                message
            },
        }
    }
}

} // verus!
