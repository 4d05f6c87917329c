use commons::clients::battle_time::{is_valid_battle_date, parse_clash_royale_battle_time, BattleTime, BattleTimeError};
use commons::clients::clash_royale::{
    check_player_answer, player_request_url, ClashRoyaleError, PlayerRequest,
};
use commons::clients::solana::{
    accounts_owned_by, pubkey_eq, SerializedBetState, SerializedChallengeState, SolanaAccount,
    SolanaProgramAccount,
};
use commons::clients::solana_models::{
    optional_account_of, BetAccountData, BetState, ChallengeAccountData, ChallengeState,
    SerializableBet, SerializableChallenge,
};

#[test]
fn battle_time_parsing() {
    assert_eq!(
        parse_clash_royale_battle_time("20211014T123745.000Z"),
        Ok(BattleTime { year: 2021, month: 10, day: 14, hour: 12, minute: 37, second: 45, millis: 0 })
    );
    assert_eq!(
        parse_clash_royale_battle_time("+20+1+1T+1+2+3.+99Z"),
        Err(BattleTimeError::IncorrectString)
    );
    assert_eq!(
        parse_clash_royale_battle_time("-9991231T235959.999Z"),
        Ok(BattleTime { year: -999, month: 12, day: 31, hour: 23, minute: 59, second: 59, millis: 999 })
    );
    assert_eq!(
        parse_clash_royale_battle_time("2021+1+1T+1+2+3.+99Z"),
        Ok(BattleTime { year: 2021, month: 1, day: 1, hour: 1, minute: 2, second: 3, millis: 99 })
    );
    assert_eq!(
        parse_clash_royale_battle_time("2021101XT123745.000Z"),
        Err(BattleTimeError::InvalidDigit)
    );
    assert_eq!(
        parse_clash_royale_battle_time("2021-014T123745.000Z"),
        Err(BattleTimeError::InvalidDigit)
    );
    assert_eq!(parse_clash_royale_battle_time("2021"), Err(BattleTimeError::IncorrectString));
    assert_eq!(BattleTimeError::IncorrectString.message(), "incorrect string");
}

fn account(owner: u8, data: Vec<u8>) -> SolanaAccount {
    SolanaAccount { lamports: 1, data, owner: [owner; 32], executable: false, rent_epoch: 0 }
}

#[test]
fn program_account_data() {
    let program = SolanaProgramAccount::new(account(1, vec![1, 2, 3, 4, 5, 6, 7, 8, 9, 10]));
    assert_eq!(program.load_data(&[1, 2, 3, 4, 5, 6, 7, 8], 2), Some(&[9u8, 10][..]));
    assert_eq!(program.load_data(&[1, 2, 3, 4, 5, 6, 7, 0], 2), None);
    assert_eq!(program.account().lamports, 1);
    assert_eq!(program.account().data, vec![1, 2, 3, 4, 5, 6, 7, 8, 9, 10]);
    assert_eq!(program.account().owner, [1; 32]);
    assert!(!program.account().executable);
    assert_eq!(program.account().rent_epoch, 0);
    let empty = SolanaProgramAccount::new(account(1, vec![0; 8]));
    assert_eq!(empty.load_data(&[0; 8], 0), Some(&[][..]));
}

#[test]
fn owned_accounts() {
    let keys = vec![[10; 32], [11; 32], [12; 32]];
    let accounts = vec![Some(account(1, vec![])), Some(account(2, vec![])), None];
    let result = accounts_owned_by(keys, accounts, &[1; 32]);
    assert_eq!(result.len(), 3);
    assert_eq!(result[0].as_ref().unwrap().0, [10; 32]);
    assert!(result[1].is_none());
    assert!(result[2].is_none());
    let result = accounts_owned_by(vec![[10; 32]], vec![], &[1; 32]);
    assert_eq!(result.len(), 0);
    assert!(pubkey_eq(&[3; 32], &[3; 32]));
    assert!(!pubkey_eq(&[3; 32], &[4; 32]));
}

#[test]
fn default_accounts_are_absent() {
    assert_eq!(optional_account_of(&[0u8; 32]), None);
    let mut key = [0u8; 32];
    key[31] = 1;
    assert_eq!(optional_account_of(&key), Some(key));
}

#[test]
fn bet_for_clients() {
    let data = BetAccountData {
        owner_account: [1u8; 32],
        receiver_account: [0u8; 32],
        receiver_authority_account: [3u8; 32],
        state: BetState::Applied,
        bump_seed: 254,
        amount: 1000,
        won_amount: 20,
        applied_at: 1_600_000_000,
        expires_at: 1_600_003_600,
        fungible_token_account: [4u8; 32],
    };
    let bet = SerializableBet::from(&data);
    assert_eq!(bet.owner_account, [1u8; 32]);
    assert_eq!(bet.receiver_account, None);
    assert_eq!(bet.receiver_authority_account, Some([3u8; 32]));
    assert_eq!(bet.state, SerializedBetState::Applied);
    assert_eq!(bet.bump_seed, 254);
    assert_eq!(bet.amount, 1000);
    assert_eq!(bet.won_amount, 20);
    assert_eq!(bet.applied_at, 1_600_000_000);
    assert_eq!(bet.expires_at, 1_600_003_600);
    assert_eq!(bet.fungible_token_account, [4u8; 32]);
    assert_eq!(SerializedBetState::from(BetState::Won), SerializedBetState::Won);
    assert_eq!(SerializedBetState::from(BetState::Uninitialized), SerializedBetState::Uninitialized);
}

#[test]
fn challenge_for_clients() {
    let data = ChallengeAccountData {
        creator_account: [1u8; 32],
        validator_account: [2u8; 32],
        state: ChallengeState::Active,
        bump_seed: 255,
        url: "https://example.com/c".to_string(),
        authorized_investments: true,
        authorized_bets: false,
        allow_redeem_many_nfts: true,
        bets_expiration_delay: -5,
        min_bet_amount: 1,
        max_bet_amount: 2,
        reward_times: 3,
        wins: 4,
        losses: 5,
        expirations: 6,
        total_nfts: 7,
        max_nfts: 8,
        investments: 9,
        max_investments: 10,
        min_investment_amount: 11,
        max_investment_amount: 12,
        total_invested: 13,
        max_fungible_tokens: 14,
        parallel_bets: 15,
        max_parallel_bets: 16,
        history_bets: 17,
        max_history_bets: 18,
        token_accumulator_account: [3u8; 32],
        creator_fee_account: [4u8; 32],
        bet_fee: 19,
        bet_fee_percentage: 20,
        investment_fee: 21,
        investment_fee_percentage: 22,
        withdraw_investment_fee: 23,
        withdraw_investment_fee_percentage: 24,
    };
    let c = SerializableChallenge::from(&data);
    assert_eq!(c.state, SerializedChallengeState::Active);
    assert_eq!(c.url, "https://example.com/c");
    assert_eq!(c.bets_expiration_delay, -5);
    assert_eq!(c.max_history_bets, 18);
    assert_eq!(c.token_accumulator_account, [3u8; 32]);
    assert_eq!(c.withdraw_investment_fee_percentage, 24);
    assert!(c.authorized_investments && !c.authorized_bets && c.allow_redeem_many_nfts);
    assert_eq!(SerializedChallengeState::from(ChallengeState::Initiated), SerializedChallengeState::Initiated);
}

#[test]
fn clash_royale_requests() {
    assert_eq!(
        player_request_url("https://api.example", "2PP0YCL8", PlayerRequest::Info),
        Ok("https://api.example/players/%232PP0YCL8".to_string())
    );
    assert_eq!(
        player_request_url("https://api.example", "2PP0YCL8", PlayerRequest::Battlelog),
        Ok("https://api.example/players/%232PP0YCL8/battlelog".to_string())
    );
    assert_eq!(
        player_request_url("https://api.example", "#2PP0YCL8", PlayerRequest::Info),
        Err(ClashRoyaleError::IncorrectTag)
    );
    assert_eq!(check_player_answer(200), Ok(()));
    assert_eq!(check_player_answer(404), Err(ClashRoyaleError::MissingPlayer));
    let e = ClashRoyaleError::IncorrectTag;
    assert_eq!((e.status_code(), e.code(), e.message()), (400, "incorrect_clash_royale_tag", "The Clash Royale tag is incorrect"));
    let e = ClashRoyaleError::MissingPlayer;
    assert_eq!((e.code(), e.message()), ("undefined_clash_royale_player", "Missing Clash Royale player"));
}

#[test]
fn battle_date_validity() {
    let t = BattleTime { year: 2021, month: 10, day: 14, hour: 12, minute: 37, second: 45, millis: 0 };
    assert!(is_valid_battle_date(t));
    assert!(is_valid_battle_date(BattleTime { year: 2024, month: 2, day: 29, ..t }));
    assert!(!is_valid_battle_date(BattleTime { year: 2023, month: 2, day: 29, ..t }));
    assert!(is_valid_battle_date(BattleTime { year: 2000, month: 2, day: 29, ..t }));
    assert!(!is_valid_battle_date(BattleTime { year: 1900, month: 2, day: 29, ..t }));
    assert!(!is_valid_battle_date(BattleTime { month: 13, ..t }));
    assert!(!is_valid_battle_date(BattleTime { month: 4, day: 31, ..t }));
    assert!(!is_valid_battle_date(BattleTime { hour: 24, ..t }));
    assert!(is_valid_battle_date(BattleTime { second: 59, millis: 1999, ..t }));
    assert!(!is_valid_battle_date(BattleTime { second: 58, millis: 1000, ..t }));
    assert!(!is_valid_battle_date(BattleTime { year: 262143, month: 1, day: 1, ..t }));
    assert!(is_valid_battle_date(BattleTime { year: -999, month: 12, day: 31, ..t }));
}
