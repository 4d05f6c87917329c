//! Settings of a service that are read from its configuration file.

use vstd::prelude::*;

verus! {

/// The settings of the backend: the token that its internal requests
/// authenticate with.
#[derive(Debug, Clone)]
pub struct BackendConfig {
    pub handy_game_token: String,
}

/// The wallet that signs the transactions of the backend: the bytes of its
/// keypair.
#[derive(Debug, Clone)]
pub struct WalletConfig {
    pub keypair: Vec<u8>,
}

} // verus!
