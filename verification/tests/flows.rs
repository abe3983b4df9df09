use std::collections::HashMap;

use simple_accounts::configuration::AdminConfiguration;
use simple_accounts::protocol::{Command, Reply, Response, Status};
use simple_accounts::sessions::endpoints::login_request::LoginRequestFlow;
use simple_accounts::sessions::endpoints::sessions_validate::SessionValidateFlow;
use simple_accounts::tokens::endpoints::new::NewTokenFlow;
use simple_accounts::tokens::endpoints::token_validate::TokenValidateFlow;
use simple_accounts::tokens::models::Token;
use simple_accounts::users::endpoints::balance_change::{BalanceChangeRequest, UserBalanceChangeFlow};
use simple_accounts::users::endpoints::user_delete::UserDeleteFlow;
use simple_accounts::users::endpoints::user_new::UserNewFlow;
use simple_accounts::users::endpoints::users_delete::UsersDeleteFlow;
use simple_accounts::users::endpoints::users_new::UsersNewFlow;
use simple_accounts::users::models::User;
use simple_accounts::wallets::endpoints::balance_change::WalletBalanceChangeFlow;
use simple_accounts::wallets::endpoints::balance_get::BalanceGetFlow;
use simple_accounts::wallets::models::Wallet;

fn s(text: &str) -> String {
    String::from(text)
}

fn admin() -> AdminConfiguration {
    AdminConfiguration { key: s("admin-key") }
}

fn stored_user(identifier: &str) -> User {
    User { identifier: s(identifier), method: s("totp"), secret: s("otpauth://totp/x") }
}

fn stored_wallet(identifier: &str, balance: i32) -> Wallet {
    Wallet { identifier: s(identifier), balance }
}

fn status_of(command: &Command) -> Option<u16> {
    match command {
        Command::Reply { response: Response::Status(status) } => Some(status.code()),
        _ => None,
    }
}

#[test]
fn session_validate_known_and_unknown() {
    let (flow, command) = SessionValidateFlow::start(s("sid"));
    assert!(matches!(&command, Command::GetSession { session_id } if session_id == "sid"));
    let (flow2, answer) = flow.step(Reply::Session(Ok(s("user-1"))));
    assert!(matches!(flow2, SessionValidateFlow::Finished));
    assert!(matches!(&answer, Command::Reply { response: Response::UserId(id) } if id == "user-1"));
    let (flow, _) = SessionValidateFlow::start(s("sid"));
    let (_, answer) = flow.step(Reply::Session(Err(())));
    assert_eq!(status_of(&answer), Some(400));
    let (flow, _) = SessionValidateFlow::start(s("sid"));
    let (_, answer) = flow.step(Reply::Done(Ok(())));
    assert_eq!(status_of(&answer), Some(400));
}

#[test]
fn login_request_for_totp_unknown_and_broken_pgp() {
    let (flow, command) = LoginRequestFlow::start(s("u1"));
    assert!(matches!(&command, Command::SelectUser { identifier } if identifier == "u1"));
    let (_, answer) = flow.step(Reply::FoundUser(Ok(stored_user("u1"))));
    assert!(matches!(&answer, Command::Reply { response: Response::LoginChallenge { method, proof: None } } if method == "totp"));
    let (flow, _) = LoginRequestFlow::start(s("u1"));
    let (_, answer) = flow.step(Reply::FoundUser(Err(())));
    assert_eq!(status_of(&answer), Some(400));
    let (flow, _) = LoginRequestFlow::start(s("u1"));
    let broken = User { identifier: s("u1"), method: s("pgp"), secret: s("garbage") };
    let (_, answer) = flow.step(Reply::FoundUser(Ok(broken)));
    assert_eq!(status_of(&answer), Some(500));
}

#[test]
fn new_token_recorded_then_handed_out() {
    let (flow, command) = NewTokenFlow::start();
    let seed = match &command {
        Command::PutTokenState { seed, value: 0 } => seed.clone(),
        _ => panic!("expected a cache write"),
    };
    assert_eq!(seed.len(), 16);
    let (_, answer) = flow.step(Reply::Done(Ok(())));
    match answer {
        Command::Reply { response: Response::NewToken(token) } => {
            assert_eq!(token.seed, seed);
            assert_eq!(token.bits, 20);
            assert_eq!(token.stamp, "");
        },
        _ => panic!("expected the token"),
    }
    let (flow, _) = NewTokenFlow::start();
    let (_, answer) = flow.step(Reply::Done(Err(())));
    assert_eq!(status_of(&answer), Some(500));
}

#[test]
fn token_validate_refused_stamp() {
    let (flow, answer) = TokenValidateFlow::start(Token::from(&s("seed"), &s("not-a-stamp")));
    assert!(matches!(flow, TokenValidateFlow::Finished));
    assert_eq!(status_of(&answer), Some(406));
}

#[test]
fn token_validate_with_verdicts() {
    let (_, answer) = TokenValidateFlow::start_with_verdict(Token::from(&s("a"), &s("b")), Err(()));
    assert_eq!(status_of(&answer), Some(406));
    let (flow, command) = TokenValidateFlow::start_with_verdict(Token::from(&s("a"), &s("b")), Ok(()));
    assert!(matches!(&command, Command::SelectToken { seed } if seed == "a"));
    let (_, answer) = flow.step(Reply::FoundToken(Err(())));
    assert_eq!(status_of(&answer), Some(406));
    let (flow, _) = TokenValidateFlow::start_with_verdict(Token::from(&s("a"), &s("b")), Ok(()));
    let (flow, _) = flow.step(Reply::FoundToken(Ok(Token::from(&s("a"), &s("")))));
    let (_, answer) = flow.step(Reply::Done(Err(())));
    assert_eq!(status_of(&answer), Some(500));
}

#[test]
fn user_delete_needs_key() {
    let (_, answer) = UserDeleteFlow::start(&admin(), None, s("u1"));
    assert_eq!(status_of(&answer), Some(400));
    let (_, answer) = UserDeleteFlow::start(&admin(), Some(s("wrong")), s("u1"));
    assert_eq!(status_of(&answer), Some(401));
    let (flow, command) = UserDeleteFlow::start(&admin(), Some(s("admin-key")), s("u1"));
    assert!(matches!(&command, Command::SelectUser { identifier } if identifier == "u1"));
    let (flow, command) = flow.step(Reply::FoundUser(Ok(stored_user("u1"))));
    assert!(matches!(&command, Command::DeleteUser { user } if user.identifier == "u1"));
    let (_, answer) = flow.step(Reply::Done(Ok(())));
    assert_eq!(status_of(&answer), Some(200));
    let (flow, _) = UserDeleteFlow::start(&admin(), Some(s("admin-key")), s("u1"));
    let (_, answer) = flow.step(Reply::FoundUser(Err(())));
    assert_eq!(status_of(&answer), Some(400));
}

#[test]
fn user_new_spends_solved_token() {
    assert_eq!(status_of(&UserNewFlow::start(None).1), Some(400));
    let (flow, command) = UserNewFlow::start(Some(s("seed")));
    assert!(matches!(&command, Command::GetTokenState { seed } if seed == "seed"));
    let (flow, command) = flow.step(Reply::TokenState(Ok(1)));
    assert!(matches!(&command, Command::DeleteTokenState { seed } if seed == "seed"));
    let (flow, command) = flow.step(Reply::Done(Ok(())));
    let identifier = match &command {
        Command::InsertUser { user } => {
            assert_eq!(user.method, "totp");
            user.identifier.clone()
        },
        _ => panic!("expected an insert"),
    };
    let (_, answer) = flow.step(Reply::Done(Ok(())));
    assert!(matches!(&answer, Command::Reply { response: Response::NewUser(user) } if user.identifier == identifier));
}

#[test]
fn refused_accounts_are_bad_requests() {
    assert_eq!(status_of(&UserNewFlow::store_created(Err(())).1), Some(400));
    assert_eq!(status_of(&UsersNewFlow::store_created(Err(())).1), Some(400));
}

#[test]
fn user_new_refuses_unsolved_token() {
    let (flow, _) = UserNewFlow::start(Some(s("seed")));
    let (_, answer) = flow.step(Reply::TokenState(Ok(0)));
    assert_eq!(status_of(&answer), Some(400));
    let (flow, _) = UserNewFlow::start(Some(s("seed")));
    let (_, answer) = flow.step(Reply::TokenState(Err(())));
    assert_eq!(status_of(&answer), Some(400));
    let (flow, _) = UserNewFlow::start(Some(s("seed")));
    let (flow, _) = flow.step(Reply::TokenState(Ok(1)));
    let (_, answer) = flow.step(Reply::Done(Err(())));
    assert_eq!(status_of(&answer), Some(500));
}

#[test]
fn users_delete_removes_wallet_then_account() {
    let (_, answer) = UsersDeleteFlow::start(&admin(), s("nope"), s("u1"));
    assert_eq!(status_of(&answer), Some(401));
    let (flow, command) = UsersDeleteFlow::start(&admin(), s("admin-key"), s("u1"));
    assert!(matches!(&command, Command::SelectUser { identifier } if identifier == "u1"));
    let (flow, command) = flow.step(Reply::FoundUser(Ok(stored_user("u1"))));
    assert!(matches!(&command, Command::SelectWallet { identifier } if identifier == "u1"));
    let (flow, command) = flow.step(Reply::FoundWallet(Ok(stored_wallet("u1", 3))));
    assert!(matches!(&command, Command::DeleteWallet { wallet } if wallet.identifier == "u1"));
    let (flow, command) = flow.step(Reply::Done(Ok(())));
    assert!(matches!(&command, Command::DeleteUser { user } if user.identifier == "u1"));
    let (_, answer) = flow.step(Reply::Done(Ok(())));
    assert!(matches!(&answer, Command::Reply { response: Response::Identifier(id) } if id == "u1"));
}

#[test]
fn users_delete_attempts_account_even_if_wallet_fails() {
    let (flow, _) = UsersDeleteFlow::start(&admin(), s("admin-key"), s("u1"));
    let (flow, _) = flow.step(Reply::FoundUser(Ok(stored_user("u1"))));
    let (flow, _) = flow.step(Reply::FoundWallet(Ok(stored_wallet("u1", 3))));
    let (flow, command) = flow.step(Reply::Done(Err(())));
    assert!(matches!(&command, Command::DeleteUser { .. }));
    let (_, answer) = flow.step(Reply::Done(Ok(())));
    assert_eq!(status_of(&answer), Some(500));
    let (flow, _) = UsersDeleteFlow::start(&admin(), s("admin-key"), s("u1"));
    let (flow, _) = flow.step(Reply::FoundUser(Ok(stored_user("u1"))));
    let (_, answer) = flow.step(Reply::FoundWallet(Err(())));
    assert_eq!(status_of(&answer), Some(400));
}

#[test]
fn users_new_opens_account_with_wallet_and_session() {
    let (flow, command) = UsersNewFlow::start(s("seed"), s("totp"), None);
    assert!(matches!(&command, Command::GetTokenState { seed } if seed == "seed"));
    let (flow, command) = flow.step(Reply::TokenState(Ok(1)));
    assert!(matches!(&command, Command::DeleteTokenState { seed } if seed == "seed"));
    let (flow, command) = flow.step(Reply::Done(Ok(())));
    let (identifier, secret) = match &command {
        Command::InsertUser { user } => (user.identifier.clone(), user.secret.clone()),
        _ => panic!("expected an insert"),
    };
    let (flow, command) = flow.step(Reply::Done(Ok(())));
    assert!(matches!(&command, Command::InsertWallet { wallet } if wallet.identifier == identifier && wallet.balance == 0));
    let (flow, command) = flow.step(Reply::Done(Ok(())));
    let session = match &command {
        Command::PutSession { session_id, user_id } => {
            assert_eq!(user_id, &identifier);
            session_id.clone()
        },
        _ => panic!("expected a session write"),
    };
    let (_, answer) = flow.step(Reply::Done(Ok(())));
    match answer {
        Command::Reply { response: Response::NewAccount { session_id, identifier: id, secret: sec } } => {
            assert_eq!(session_id, session);
            assert_eq!(id, identifier);
            assert_eq!(sec, secret);
        },
        _ => panic!("expected the new account"),
    }
}

#[test]
fn users_new_refusals() {
    let (flow, _) = UsersNewFlow::start(s("seed"), s("totp"), None);
    let (_, answer) = flow.step(Reply::TokenState(Ok(0)));
    assert_eq!(status_of(&answer), Some(400));
    let (flow, _) = UsersNewFlow::start(s("seed"), s("pgp"), Some(s("key")));
    let (flow, _) = flow.step(Reply::TokenState(Ok(1)));
    let (_, answer) = flow.step(Reply::Done(Ok(())));
    assert_eq!(status_of(&answer), Some(400));
    let (flow, _) = UsersNewFlow::start(s("seed"), s("totp"), None);
    let (flow, _) = flow.step(Reply::TokenState(Ok(1)));
    let (flow, _) = flow.step(Reply::Done(Ok(())));
    let (_, answer) = flow.step(Reply::Done(Err(())));
    assert_eq!(status_of(&answer), Some(500));
}

#[test]
fn user_balance_change_flow() {
    let request = || BalanceChangeRequest { amount: 5, multiplier: -1 };
    assert_eq!(status_of(&UserBalanceChangeFlow::start(&admin(), None, Some(s("u1")), request()).1), Some(400));
    assert_eq!(status_of(&UserBalanceChangeFlow::start(&admin(), Some(s("x")), None, request()).1), Some(400));
    assert_eq!(status_of(&UserBalanceChangeFlow::start(&admin(), Some(s("admin-key")), Some(s("u1")), request()).1), Some(401));
    let (flow, command) = UserBalanceChangeFlow::start(&admin(), Some(s("other")), Some(s("u1")), request());
    assert!(matches!(&command, Command::SelectUser { identifier } if identifier == "u1"));
    let (flow, command) = flow.step(Reply::FoundUser(Ok(stored_user("u1"))));
    assert!(matches!(&command, Command::SelectWallet { identifier } if identifier == "u1"));
    let (flow, command) = flow.step(Reply::FoundWallet(Ok(stored_wallet("u1", 12))));
    assert!(matches!(&command, Command::UpdateWallet { wallet } if wallet.balance == 7 && wallet.identifier == "u1"));
    let (_, answer) = flow.step(Reply::Done(Ok(())));
    assert_eq!(status_of(&answer), Some(200));
    let (flow, _) = UserBalanceChangeFlow::start(&admin(), Some(s("other")), Some(s("u1")), request());
    let (flow, _) = flow.step(Reply::FoundUser(Ok(stored_user("u1"))));
    let (_, answer) = flow.step(Reply::FoundWallet(Ok(stored_wallet("u1", 4))));
    assert_eq!(status_of(&answer), Some(500));
}

#[test]
fn balance_get_flow() {
    let (flow, command) = BalanceGetFlow::start(s("sid"));
    assert!(matches!(&command, Command::GetSession { session_id } if session_id == "sid"));
    let (flow, command) = flow.step(Reply::Session(Ok(s("u1"))));
    assert!(matches!(&command, Command::SelectWallet { identifier } if identifier == "u1"));
    let (_, answer) = flow.step(Reply::FoundWallet(Ok(stored_wallet("u1", 42))));
    assert!(matches!(answer, Command::Reply { response: Response::Balance(42) }));
    let (flow, _) = BalanceGetFlow::start(s("sid"));
    let (_, answer) = flow.step(Reply::Session(Err(())));
    assert_eq!(status_of(&answer), Some(401));
    let (flow, _) = BalanceGetFlow::start(s("sid"));
    let (flow, _) = flow.step(Reply::Session(Ok(s("u1"))));
    let (_, answer) = flow.step(Reply::FoundWallet(Err(())));
    assert_eq!(status_of(&answer), Some(500));
}

#[test]
fn wallet_balance_change_flow() {
    let (_, answer) = WalletBalanceChangeFlow::start(&admin(), s("admin-key"), s("u1"), 5, 1);
    assert_eq!(status_of(&answer), Some(401));
    let (flow, command) = WalletBalanceChangeFlow::start(&admin(), s("someone"), s("u1"), 5, 1);
    assert!(matches!(&command, Command::SelectWallet { identifier } if identifier == "u1"));
    let (flow, command) = flow.step(Reply::FoundWallet(Ok(stored_wallet("u1", 10))));
    assert!(matches!(&command, Command::UpdateWallet { wallet } if wallet.balance == 15));
    let (_, answer) = flow.step(Reply::Done(Ok(())));
    assert!(matches!(answer, Command::Reply { response: Response::Balance(15) }));
    let (flow, _) = WalletBalanceChangeFlow::start(&admin(), s("someone"), s("u1"), 0, 1);
    let (_, answer) = flow.step(Reply::FoundWallet(Ok(stored_wallet("u1", 10))));
    assert_eq!(status_of(&answer), Some(500));
    let (flow, _) = WalletBalanceChangeFlow::start(&admin(), s("someone"), s("u1"), 5, 1);
    let (_, answer) = flow.step(Reply::FoundWallet(Err(())));
    assert_eq!(status_of(&answer), Some(400));
    let (flow, _) = WalletBalanceChangeFlow::start(&admin(), s("someone"), s("u1"), 5, 1);
    let (flow, _) = flow.step(Reply::FoundWallet(Ok(stored_wallet("u1", 10))));
    let (_, answer) = flow.step(Reply::Done(Err(())));
    assert_eq!(status_of(&answer), Some(500));
}

#[test]
fn challenge_lifecycle_one_account_per_solved_challenge() {
    let mut cache: HashMap<String, i32> = HashMap::new();
    let answer = |cache: &HashMap<String, i32>, seed: &String| match cache.get(seed) {
        Some(state) => Reply::TokenState(Ok(*state)),
        None => Reply::TokenState(Err(())),
    };

    // handed out: recorded as issued
    let (_, command) = NewTokenFlow::start();
    let seed = match command {
        Command::PutTokenState { seed, value } => {
            cache.insert(seed.clone(), value);
            seed
        },
        _ => panic!("expected a cache write"),
    };
    // an issued challenge opens no account
    let (flow, _) = UsersNewFlow::start(seed.clone(), s("totp"), None);
    let (_, reply) = flow.step(answer(&cache, &seed));
    assert_eq!(status_of(&reply), Some(400));

    // validated: recorded as solved
    let (flow, _) = TokenValidateFlow::start_with_verdict(Token::from(&seed, &s("stamp")), Ok(()));
    let (_, command) = flow.step(Reply::FoundToken(Ok(Token::from(&seed, &s("")))));
    match command {
        Command::PutTokenState { seed: key, value } => {
            cache.insert(key, value);
        },
        _ => panic!("expected a cache write"),
    }

    // the solved challenge is spent on one account
    let (flow, _) = UsersNewFlow::start(seed.clone(), s("totp"), None);
    let (_, command) = flow.step(answer(&cache, &seed));
    match command {
        Command::DeleteTokenState { seed: key } => {
            cache.remove(&key);
        },
        _ => panic!("expected the challenge to be spent"),
    }
    let (flow, _) = UsersNewFlow::start(seed.clone(), s("totp"), None);
    let (_, reply) = flow.step(answer(&cache, &seed));
    assert_eq!(status_of(&reply), Some(400));
}
