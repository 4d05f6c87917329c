//! The bets and challenges of the Solana programs, as they are handed to the
//! clients of the backend.

use vstd::prelude::*;
use core::convert::From;
use crate::clients::solana::{Pubkey, SerializedBetState, SerializedChallengeState};

verus! {

/// The state of a bet in the bet program.
#[derive(Debug, Copy, Clone, PartialEq, Eq, Structural)]
pub enum BetState {
    Uninitialized,
    Initiated,
    Applied,
    Won,
}

/// The state of a challenge in the challenge program.
#[derive(Debug, Copy, Clone, PartialEq, Eq, Structural)]
pub enum ChallengeState {
    Uninitialized,
    Initiated,
    Active,
}

/// The serialized form of each bet state.
pub open spec fn serialized_bet_state(state: BetState) -> SerializedBetState {
    match state {
        BetState::Uninitialized => SerializedBetState::Uninitialized,
        BetState::Initiated => SerializedBetState::Initiated,
        BetState::Applied => SerializedBetState::Applied,
        BetState::Won => SerializedBetState::Won,
    }
}

/// The serialized form of each challenge state.
pub open spec fn serialized_challenge_state(state: ChallengeState) -> SerializedChallengeState {
    match state {
        ChallengeState::Uninitialized => SerializedChallengeState::Uninitialized,
        ChallengeState::Initiated => SerializedChallengeState::Initiated,
        ChallengeState::Active => SerializedChallengeState::Active,
    }
}

impl From<BetState> for SerializedBetState {
    fn from(state: BetState) -> (r: SerializedBetState) {
        match state {
            BetState::Uninitialized => SerializedBetState::Uninitialized,
            BetState::Initiated => SerializedBetState::Initiated,
            BetState::Applied => SerializedBetState::Applied,
            BetState::Won => SerializedBetState::Won,
        }
    }
}

impl vstd::std_specs::convert::FromSpecImpl<BetState> for SerializedBetState {
    open spec fn obeys_from_spec() -> bool {
        true
    }

    open spec fn from_spec(state: BetState) -> SerializedBetState {
        serialized_bet_state(state)
    }
}

impl From<ChallengeState> for SerializedChallengeState {
    fn from(state: ChallengeState) -> (r: SerializedChallengeState) {
        match state {
            ChallengeState::Uninitialized => SerializedChallengeState::Uninitialized,
            ChallengeState::Initiated => SerializedChallengeState::Initiated,
            ChallengeState::Active => SerializedChallengeState::Active,
        }
    }
}

impl vstd::std_specs::convert::FromSpecImpl<ChallengeState> for SerializedChallengeState {
    open spec fn obeys_from_spec() -> bool {
        true
    }

    open spec fn from_spec(state: ChallengeState) -> SerializedChallengeState {
        serialized_challenge_state(state)
    }
}

/// Whether an address is the default one, made of zeros only, which the
/// programs store for an account that is not set.
pub open spec fn is_default_pubkey(key: Pubkey) -> bool {
    forall|i: int| 0 <= i < 32 ==> #[trigger] key@[i] == 0
}

/// An account field of a program: absent when it holds the default address.
pub open spec fn optional_account(key: Pubkey) -> Option<Pubkey> {
    if is_default_pubkey(key) { None } else { Some(key) }
}

/// `None` when `key` is the default address, made of zeros only; `Some(key)`
/// otherwise.
pub fn optional_account_of(key: &Pubkey) -> (r: Option<Pubkey>)
    ensures
        r == optional_account(*key),
{
    let mut i: usize = 0;
    while i < 32
        invariant
            0 <= i <= 32,
            forall|j: int| 0 <= j < i ==> #[trigger] key@[j] == 0,
        decreases 32 - i,
    {
        if key[i] != 0 {
            return Some(*key);
        }
        i = i + 1;
    }
    None
}

/// The data of a bet account of the bet program; times are in seconds since
/// the Unix epoch.
pub struct BetAccountData {
    pub owner_account: Pubkey,
    pub receiver_account: Pubkey,
    pub receiver_authority_account: Pubkey,
    pub state: BetState,
    pub bump_seed: u8,
    pub amount: u64,
    pub won_amount: u64,
    pub applied_at: i64,
    pub expires_at: i64,
    pub fungible_token_account: Pubkey,
}

/// A bet as the backend hands it to its clients; times are in seconds since
/// the Unix epoch.
#[derive(Debug, Clone, Copy, PartialEq, Eq)]
pub struct SerializableBet {
    pub owner_account: Pubkey,
    pub receiver_account: Option<Pubkey>,
    pub receiver_authority_account: Option<Pubkey>,
    pub state: SerializedBetState,
    pub bump_seed: u8,
    pub amount: u64,
    pub won_amount: u64,
    pub applied_at: i64,
    pub expires_at: i64,
    pub fungible_token_account: Pubkey,
}

/// The bet handed to clients for the data of a bet account: the receiver
/// accounts are left out while they hold the default address.
pub open spec fn serializable_bet(bet: BetAccountData) -> SerializableBet {
    SerializableBet {
        owner_account: bet.owner_account,
        receiver_account: optional_account(bet.receiver_account),
        receiver_authority_account: optional_account(bet.receiver_authority_account),
        state: serialized_bet_state(bet.state),
        bump_seed: bet.bump_seed,
        amount: bet.amount,
        won_amount: bet.won_amount,
        applied_at: bet.applied_at,
        expires_at: bet.expires_at,
        fungible_token_account: bet.fungible_token_account,
    }
}

impl<'a> From<&'a BetAccountData> for SerializableBet {
    fn from(bet: &'a BetAccountData) -> (r: SerializableBet) {
        SerializableBet {
            owner_account: bet.owner_account,
            receiver_account: optional_account_of(&bet.receiver_account),
            receiver_authority_account: optional_account_of(&bet.receiver_authority_account),
            state: SerializedBetState::from(bet.state),
            bump_seed: bet.bump_seed,
            amount: bet.amount,
            won_amount: bet.won_amount,
            applied_at: bet.applied_at,
            expires_at: bet.expires_at,
            fungible_token_account: bet.fungible_token_account,
        }
    }
}

impl<'a> vstd::std_specs::convert::FromSpecImpl<&'a BetAccountData> for SerializableBet {
    open spec fn obeys_from_spec() -> bool {
        true
    }

    open spec fn from_spec(bet: &'a BetAccountData) -> SerializableBet {
        serializable_bet(*bet)
    }
}

/// The data of a challenge account of the challenge program, with its url
/// already read as text.
pub struct ChallengeAccountData {
    pub creator_account: Pubkey,
    pub validator_account: Pubkey,
    pub state: ChallengeState,
    pub bump_seed: u8,
    pub url: String,
    pub authorized_investments: bool,
    pub authorized_bets: bool,
    pub allow_redeem_many_nfts: bool,
    pub bets_expiration_delay: i64,
    pub min_bet_amount: u64,
    pub max_bet_amount: u64,
    pub reward_times: u64,
    pub wins: u64,
    pub losses: u64,
    pub expirations: u64,
    pub total_nfts: u64,
    pub max_nfts: u64,
    pub investments: u64,
    pub max_investments: u64,
    pub min_investment_amount: u64,
    pub max_investment_amount: u64,
    pub total_invested: u64,
    pub max_fungible_tokens: u64,
    pub parallel_bets: u64,
    pub max_parallel_bets: u64,
    pub history_bets: u64,
    pub max_history_bets: u64,
    pub token_accumulator_account: Pubkey,
    pub creator_fee_account: Pubkey,
    pub bet_fee: u64,
    pub bet_fee_percentage: u8,
    pub investment_fee: u64,
    pub investment_fee_percentage: u8,
    pub withdraw_investment_fee: u64,
    pub withdraw_investment_fee_percentage: u8,
}

/// A challenge as the backend hands it to its clients.
#[derive(Debug, Clone, PartialEq, Eq)]
pub struct SerializableChallenge {
    pub creator_account: Pubkey,
    pub validator_account: Pubkey,
    pub state: SerializedChallengeState,
    pub bump_seed: u8,
    pub url: String,
    pub authorized_investments: bool,
    pub authorized_bets: bool,
    pub allow_redeem_many_nfts: bool,
    pub bets_expiration_delay: i64,
    pub min_bet_amount: u64,
    pub max_bet_amount: u64,
    pub reward_times: u64,
    pub wins: u64,
    pub losses: u64,
    pub expirations: u64,
    pub total_nfts: u64,
    pub max_nfts: u64,
    pub investments: u64,
    pub max_investments: u64,
    pub min_investment_amount: u64,
    pub max_investment_amount: u64,
    pub total_invested: u64,
    pub max_fungible_tokens: u64,
    pub parallel_bets: u64,
    pub max_parallel_bets: u64,
    pub history_bets: u64,
    pub max_history_bets: u64,
    pub token_accumulator_account: Pubkey,
    pub creator_fee_account: Pubkey,
    pub bet_fee: u64,
    pub bet_fee_percentage: u8,
    pub investment_fee: u64,
    pub investment_fee_percentage: u8,
    pub withdraw_investment_fee: u64,
    pub withdraw_investment_fee_percentage: u8,
}

/// The challenge handed to clients for the data of a challenge account: every
/// field is kept, the state in its serialized form.
pub open spec fn serializable_challenge(challenge: ChallengeAccountData) -> SerializableChallenge {
    SerializableChallenge {
        creator_account: challenge.creator_account,
        validator_account: challenge.validator_account,
        state: serialized_challenge_state(challenge.state),
        bump_seed: challenge.bump_seed,
        url: challenge.url,
        authorized_investments: challenge.authorized_investments,
        authorized_bets: challenge.authorized_bets,
        allow_redeem_many_nfts: challenge.allow_redeem_many_nfts,
        bets_expiration_delay: challenge.bets_expiration_delay,
        min_bet_amount: challenge.min_bet_amount,
        max_bet_amount: challenge.max_bet_amount,
        reward_times: challenge.reward_times,
        wins: challenge.wins,
        losses: challenge.losses,
        expirations: challenge.expirations,
        total_nfts: challenge.total_nfts,
        max_nfts: challenge.max_nfts,
        investments: challenge.investments,
        max_investments: challenge.max_investments,
        min_investment_amount: challenge.min_investment_amount,
        max_investment_amount: challenge.max_investment_amount,
        total_invested: challenge.total_invested,
        max_fungible_tokens: challenge.max_fungible_tokens,
        parallel_bets: challenge.parallel_bets,
        max_parallel_bets: challenge.max_parallel_bets,
        history_bets: challenge.history_bets,
        max_history_bets: challenge.max_history_bets,
        token_accumulator_account: challenge.token_accumulator_account,
        creator_fee_account: challenge.creator_fee_account,
        bet_fee: challenge.bet_fee,
        bet_fee_percentage: challenge.bet_fee_percentage,
        investment_fee: challenge.investment_fee,
        investment_fee_percentage: challenge.investment_fee_percentage,
        withdraw_investment_fee: challenge.withdraw_investment_fee,
        withdraw_investment_fee_percentage: challenge.withdraw_investment_fee_percentage,
    }
}

impl<'a> From<&'a ChallengeAccountData> for SerializableChallenge {
    fn from(challenge: &'a ChallengeAccountData) -> (r: SerializableChallenge) {
        SerializableChallenge {
            creator_account: challenge.creator_account,
            validator_account: challenge.validator_account,
            state: SerializedChallengeState::from(challenge.state),
            bump_seed: challenge.bump_seed,
            url: challenge.url.clone(),
            authorized_investments: challenge.authorized_investments,
            authorized_bets: challenge.authorized_bets,
            allow_redeem_many_nfts: challenge.allow_redeem_many_nfts,
            bets_expiration_delay: challenge.bets_expiration_delay,
            min_bet_amount: challenge.min_bet_amount,
            max_bet_amount: challenge.max_bet_amount,
            reward_times: challenge.reward_times,
            wins: challenge.wins,
            losses: challenge.losses,
            expirations: challenge.expirations,
            total_nfts: challenge.total_nfts,
            max_nfts: challenge.max_nfts,
            investments: challenge.investments,
            max_investments: challenge.max_investments,
            min_investment_amount: challenge.min_investment_amount,
            max_investment_amount: challenge.max_investment_amount,
            total_invested: challenge.total_invested,
            max_fungible_tokens: challenge.max_fungible_tokens,
            parallel_bets: challenge.parallel_bets,
            max_parallel_bets: challenge.max_parallel_bets,
            history_bets: challenge.history_bets,
            max_history_bets: challenge.max_history_bets,
            token_accumulator_account: challenge.token_accumulator_account,
            creator_fee_account: challenge.creator_fee_account,
            bet_fee: challenge.bet_fee,
            bet_fee_percentage: challenge.bet_fee_percentage,
            investment_fee: challenge.investment_fee,
            investment_fee_percentage: challenge.investment_fee_percentage,
            withdraw_investment_fee: challenge.withdraw_investment_fee,
            withdraw_investment_fee_percentage: challenge.withdraw_investment_fee_percentage,
        }
    }
}

impl<'a> vstd::std_specs::convert::FromSpecImpl<&'a ChallengeAccountData> for SerializableChallenge {
    open spec fn obeys_from_spec() -> bool {
        true
    }

    open spec fn from_spec(challenge: &'a ChallengeAccountData) -> SerializableChallenge {
        serializable_challenge(*challenge)
    }
}

} // verus!
