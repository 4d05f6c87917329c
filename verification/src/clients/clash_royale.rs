//! Requests to the Clash Royale API, and what it answers about arenas and
//! cards.

use vstd::prelude::*;
use crate::text::{concat, concat_all, views};
use crate::data::validators::{clash_royale_tag_validator, valid_clash_royale_tag};

verus! {

/// An arena in an answer of the Clash Royale API; `id` is the identifier of
/// a `ClashRoyaleArena`.
#[derive(Debug, Clone, Copy, PartialEq, Eq, Structural)]
pub struct ClashRoyaleArenaResponse {
    pub id: u64,
}

/// A card in an answer of the Clash Royale API.
#[derive(Debug, Clone, Copy, PartialEq, Eq, Structural)]
pub struct ClashRoyaleCardResponse {
    pub id: u64,
    pub level: Option<u16>,
    pub count: Option<u16>,
}

/// Why a request about a Clash Royale player fails.
#[derive(Debug, Clone, Copy, PartialEq, Eq, Structural)]
pub enum ClashRoyaleError {
    /// The tag is not a well-formed Clash Royale tag.
    IncorrectTag,
    /// The API does not know the player.
    MissingPlayer,
}

impl ClashRoyaleError {
    /// The HTTP status that answers the request: a bad request.
    pub fn status_code(&self) -> (r: u16)
        ensures
            r == 400,
    {
        400
    }

    /// The code of the error.
    pub fn code(&self) -> (r: &'static str)
        ensures
            r@ == match *self {
                ClashRoyaleError::IncorrectTag => "incorrect_clash_royale_tag"@,
                ClashRoyaleError::MissingPlayer => "undefined_clash_royale_player"@,
            },
    {
        match self {
            ClashRoyaleError::IncorrectTag => "incorrect_clash_royale_tag",
            ClashRoyaleError::MissingPlayer => "undefined_clash_royale_player",
        }
    }

    /// The message of the error.
    pub fn message(&self) -> (r: &'static str)
        ensures
            r@ == match *self {
                ClashRoyaleError::IncorrectTag => "The Clash Royale tag is incorrect"@,
                ClashRoyaleError::MissingPlayer => "Missing Clash Royale player"@,
            },
    {
        match self {
            ClashRoyaleError::IncorrectTag => "The Clash Royale tag is incorrect",
            ClashRoyaleError::MissingPlayer => "Missing Clash Royale player",
        }
    }
}

/// What is asked about a player.
#[derive(Debug, Clone, Copy, PartialEq, Eq, Structural)]
pub enum PlayerRequest {
    /// The profile of the player.
    Info,
    /// The last battles of the player.
    Battlelog,
}

/// `<api url>/players/%23<tag>`, followed by `/battlelog` for the battles:
/// the tag's leading `#` is sent encoded.
pub open spec fn player_url(api_url: Seq<char>, tag: Seq<char>, request: PlayerRequest) -> Seq<char> {
    concat_all(seq![
        api_url,
        "/players/%23"@,
        tag,
        match request {
            PlayerRequest::Info => Seq::<char>::empty(),
            PlayerRequest::Battlelog => "/battlelog"@,
        },
    ])
}

/// The URL to ask the API at `api_url` about the player `tag`; a malformed
/// tag is rejected before anything is sent.
pub fn player_request_url(api_url: &str, tag: &str, request: PlayerRequest) -> (r: Result<String, ClashRoyaleError>)
    ensures
        valid_clash_royale_tag(tag) ==> r == Ok::<String, ClashRoyaleError>(r->Ok_0) && r->Ok_0@ == player_url(
            api_url@,
            tag@,
            request,
        ),
        !valid_clash_royale_tag(tag) ==> r == Err::<String, ClashRoyaleError>(ClashRoyaleError::IncorrectTag),
{
    if !clash_royale_tag_validator(tag) {
        return Err(ClashRoyaleError::IncorrectTag);
    }
    let suffix = match request {
        PlayerRequest::Info => "",
        PlayerRequest::Battlelog => "/battlelog",
    };
    let parts = [api_url, "/players/%23", tag, suffix];
    proof {
        reveal_strlit("");
        assert(suffix@ == match request {
            PlayerRequest::Info => Seq::<char>::empty(),
            PlayerRequest::Battlelog => "/battlelog"@,
        });
        assert(views(parts@) =~= seq![
            api_url@,
            "/players/%23"@,
            tag@,
            match request {
                PlayerRequest::Info => Seq::<char>::empty(),
                PlayerRequest::Battlelog => "/battlelog"@,
            },
        ]);
    }
    Ok(concat(&parts))
}

/// The HTTP status of a successful answer.
pub const HTTP_OK: u16 = 200;

/// Whether the answer of the API about a player can be read: only a
/// successful (200) answer can; any other means the player is missing.
pub fn check_player_answer(status: u16) -> (r: Result<(), ClashRoyaleError>)
    ensures
        status == HTTP_OK ==> r is Ok,
        status != HTTP_OK ==> r == Err::<(), ClashRoyaleError>(ClashRoyaleError::MissingPlayer),
{
    if status != HTTP_OK {
        Err(ClashRoyaleError::MissingPlayer)
    } else {
        Ok(())
    }
}

} // verus!
