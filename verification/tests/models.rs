use sequoia_openpgp::cert::CertBuilder;
use sequoia_openpgp::serialize::SerializeInto;
use simple_accounts::protocol::{Command, Reply, Response};
use simple_accounts::sessions::models::Session;
use simple_accounts::tokens::endpoints::token_validate::TokenValidateFlow;
use simple_accounts::tokens::models::{Token, DEFAULT_BITS};
use simple_accounts::users::endpoints::BalanceOperation;
use simple_accounts::users::models::User;
use simple_accounts::wallets::models::{Wallet, DEFAULT_BALANCE};

fn is_alphanumeric(s: &str) -> bool {
    s.chars().all(|c| c.is_ascii_alphanumeric())
}

fn wallet(balance: i32) -> Wallet {
    Wallet { identifier: String::from("00000000000000000001"), balance }
}

fn user(method: &str, secret: &str) -> User {
    User { identifier: String::from("abcdefghij0123456789"), method: String::from(method), secret: String::from(secret) }
}

#[test]
fn new_totp_user() {
    let created = User::new(&String::from("totp"), &None).unwrap();
    assert_eq!(created.method, "totp");
    assert_eq!(created.identifier.len(), 20);
    assert!(is_alphanumeric(&created.identifier));
    let prefix = format!("otpauth://totp/Simple%20Accounts:{}?secret=", created.identifier);
    assert!(created.secret.starts_with(&prefix), "{}", created.secret);
    assert!(created.secret.ends_with("&issuer=Simple%20Accounts"), "{}", created.secret);
    let other = User::new(&String::from("totp"), &Some(String::from("ignored"))).unwrap();
    assert_ne!(created.identifier, other.identifier);
}

#[test]
fn new_user_refuses_other_methods() {
    assert!(User::new(&String::from("pgp"), &None).is_err());
    assert!(User::new(&String::from("pgp"), &Some(String::from("-----BEGIN PGP PUBLIC KEY BLOCK-----"))).is_err());
    assert!(User::new(&String::from("sms"), &None).is_err());
    assert!(User::new(&String::from("TOTP"), &None).is_err());
    assert!(User::new(&String::from(""), &None).is_err());
}

#[test]
fn pgp_public_keys_are_not_accepted_yet() {
    assert_eq!(User::validate_pgp_pubkey(&None), Err(()));
    assert_eq!(User::validate_pgp_pubkey(&Some(String::from("key"))), Err(()));
}

#[test]
fn totp_secret_for_account() {
    let url = User::generate_totp_secret(&String::from("alice")).unwrap();
    assert!(url.starts_with("otpauth://totp/Simple%20Accounts:alice?secret="), "{}", url);
    let secret = &url["otpauth://totp/Simple%20Accounts:alice?secret=".len()..url.len() - "&issuer=Simple%20Accounts".len()];
    // 64 bytes in base32 without padding
    assert_eq!(secret.len(), 103);
    assert!(User::generate_totp_secret(&String::from("ali:ce")).is_err());
}

#[test]
fn totp_accounts_need_no_challenge() {
    assert_eq!(user("totp", "otpauth://totp/x").generate_pgp_challenge(), Ok(None));
}

#[test]
fn pgp_challenge_needs_a_certificate() {
    assert_eq!(user("pgp", "not a certificate").generate_pgp_challenge(), Err(()));
}

#[test]
fn pgp_challenge_is_an_encrypted_message() {
    let (cert, _) = CertBuilder::general_purpose(None, Some("alice@example.org")).generate().unwrap();
    let armored = String::from_utf8(cert.armored().to_vec().unwrap()).unwrap();
    let challenge = user("pgp", &armored).generate_pgp_challenge().unwrap().unwrap();
    assert!(challenge.starts_with("-----BEGIN PGP MESSAGE-----"), "{}", challenge);
    assert_eq!(User::challenge_from_ciphertext(None), Err(()));
    assert_eq!(User::challenge_from_ciphertext(Some(String::from("m"))), Ok(Some(String::from("m"))));
}

#[test]
fn new_wallet_starts_at_default_balance() {
    let owner = user("totp", "s");
    let w = Wallet::new(&owner);
    assert_eq!(w.identifier, owner.identifier);
    assert_eq!(w.balance, DEFAULT_BALANCE);
    assert_eq!(w.balance, 0);
}

#[test]
fn balance_change_deposit_and_withdrawal() {
    let mut w = wallet(10);
    assert_eq!(w.balance_change(5, 1), Ok(()));
    assert_eq!(w.balance, 15);
    assert_eq!(w.balance_change(15, -1), Ok(()));
    assert_eq!(w.balance, 0);
}

#[test]
fn balance_change_refusals_leave_wallet_unchanged() {
    let mut w = wallet(10);
    assert_eq!(w.balance_change(0, 1), Err(()));
    assert_eq!(w.balance_change(5, 2), Err(()));
    assert_eq!(w.balance_change(5, 0), Err(()));
    assert_eq!(w.balance_change(11, -1), Err(()));
    assert_eq!(w.balance, 10);
    assert_eq!(w.identifier, "00000000000000000001");
}

#[test]
fn balance_change_amount_above_i32_is_taken_as_negative() {
    // `amount as i32` wraps: 4294967295 is -1.
    let mut w = wallet(10);
    assert_eq!(w.balance_change(u32::MAX, 1), Ok(()));
    assert_eq!(w.balance, 9);
}

#[test]
fn withdrawal_undoes_deposit() {
    let mut w = wallet(7);
    w.balance_change(1000, 1).unwrap();
    w.balance_change(1000, -1).unwrap();
    assert_eq!(w.balance, 7);
    let mut v = wallet(1000);
    v.balance_change(1000, -1).unwrap();
    v.balance_change(1000, 1).unwrap();
    assert_eq!(v.balance, 1000);
}

#[test]
fn withdrawal_undoes_wrapped_deposit() {
    // an amount above i32::MAX is taken as negative, and the round trip still holds
    let mut w = wallet(10);
    w.balance_change(u32::MAX, 1).unwrap();
    assert_eq!(w.balance, 9);
    w.balance_change(u32::MAX, -1).unwrap();
    assert_eq!(w.balance, 10);
}

#[test]
fn balance_operation_multipliers() {
    assert_eq!(BalanceOperation::Deposit.multiplier(), 1);
    assert_eq!(BalanceOperation::Withdrawal.multiplier(), -1);
}

#[test]
fn new_session_belongs_to_user() {
    let owner = user("totp", "s");
    let session = Session::new(&owner);
    assert_eq!(session.user_id, owner.identifier);
    assert_eq!(session.session_id.len(), 36);
    assert_eq!(session.session_id.chars().nth(14), Some('4'));
}

#[test]
fn new_token_is_an_unsolved_challenge() {
    let token = Token::new();
    assert_eq!(token.seed.len(), 16);
    assert!(is_alphanumeric(&token.seed));
    assert_eq!(token.bits, DEFAULT_BITS);
    assert_eq!(token.bits, 20);
    assert_eq!(token.stamp, "");
    assert_ne!(Token::new().seed, token.seed);
}

#[test]
fn token_from_request() {
    let token = Token::from(&String::from("seed"), &String::from("stamp"));
    assert_eq!(token.seed, "seed");
    assert_eq!(token.stamp, "stamp");
    assert_eq!(token.bits, DEFAULT_BITS);
}

#[test]
fn stamp_fits_checks_difficulty_and_resource() {
    let token = Token::from(&String::from("seed"), &String::new());
    assert!(token.stamp_fits(20, &String::from("seed")));
    assert!(!token.stamp_fits(4, &String::from("seed")));
    assert!(!token.stamp_fits(20, &String::from("other")));
}

#[test]
fn verdict_after_the_work_check() {
    let token = Token::from(&String::from("seed"), &String::new());
    assert_eq!(token.accepts(20, &String::from("seed"), true), Ok(()));
    assert_eq!(token.accepts(20, &String::from("seed"), false), Err(()));
    assert_eq!(token.accepts(4, &String::from("seed"), true), Err(()));
    assert_eq!(token.accepts(20, &String::from("other"), true), Err(()));
}

#[test]
fn malformed_stamps_are_refused() {
    let empty = Token::new();
    assert_eq!(empty.validate(), Err(()));
    let six_fields = Token::from(&String::from("example"), &String::from("1:20:180606122628:example::OfZIJujxSu6ojd08LI0hLg"));
    assert_eq!(six_fields.validate(), Err(()));
    let bad_date = Token::from(&String::from("example"), &String::from("1:20:notadate:example::OfZIJujxSu6ojd08LI0hLg:AAHz1w"));
    assert_eq!(bad_date.validate(), Err(()));
}

#[test]
fn stamps_for_another_seed_or_difficulty_are_refused() {
    let minted = hashcash::Token::new(String::from("seedA"), 4).to_string();
    let token = Token::from(&String::from("seedA"), &minted);
    assert_eq!(token.validate(), Err(()));
    let declared20 = minted.replacen(":4:", ":20:", 1);
    let underworked = Token::from(&String::from("seedA"), &declared20);
    assert_eq!(underworked.validate(), Err(()));
    let wrong_seed = Token::from(&String::from("seedC"), &declared20);
    assert_eq!(wrong_seed.validate(), Err(()));
}

fn sha1(data: &[u8]) -> [u8; 20] {
    let mut h: [u32; 5] = [0x67452301, 0xEFCDAB89, 0x98BADCFE, 0x10325476, 0xC3D2E1F0];
    let mut msg = data.to_vec();
    let bit_len = (data.len() as u64) * 8;
    msg.push(0x80);
    while msg.len() % 64 != 56 {
        msg.push(0);
    }
    msg.extend_from_slice(&bit_len.to_be_bytes());
    for chunk in msg.chunks(64) {
        let mut w = [0u32; 80];
        for i in 0..16 {
            w[i] = u32::from_be_bytes([chunk[4 * i], chunk[4 * i + 1], chunk[4 * i + 2], chunk[4 * i + 3]]);
        }
        for i in 16..80 {
            w[i] = (w[i - 3] ^ w[i - 8] ^ w[i - 14] ^ w[i - 16]).rotate_left(1);
        }
        let (mut a, mut b, mut c, mut d, mut e) = (h[0], h[1], h[2], h[3], h[4]);
        for (i, wi) in w.iter().enumerate() {
            let (f, k) = if i < 20 {
                ((b & c) | (!b & d), 0x5A827999u32)
            } else if i < 40 {
                (b ^ c ^ d, 0x6ED9EBA1)
            } else if i < 60 {
                ((b & c) | (b & d) | (c & d), 0x8F1BBCDC)
            } else {
                (b ^ c ^ d, 0xCA62C1D6)
            };
            let t = a.rotate_left(5).wrapping_add(f).wrapping_add(e).wrapping_add(k).wrapping_add(*wi);
            e = d;
            d = c;
            c = b.rotate_left(30);
            b = a;
            a = t;
        }
        h[0] = h[0].wrapping_add(a);
        h[1] = h[1].wrapping_add(b);
        h[2] = h[2].wrapping_add(c);
        h[3] = h[3].wrapping_add(d);
        h[4] = h[4].wrapping_add(e);
    }
    let mut out = [0u8; 20];
    for i in 0..5 {
        out[4 * i..4 * i + 4].copy_from_slice(&h[i].to_be_bytes());
    }
    out
}

fn base64_unpadded(bytes: &[u8]) -> String {
    const ALPHABET: &[u8] = b"ABCDEFGHIJKLMNOPQRSTUVWXYZabcdefghijklmnopqrstuvwxyz0123456789+/";
    let mut out = String::new();
    for group in bytes.chunks(3) {
        let b = [group[0], *group.get(1).unwrap_or(&0), *group.get(2).unwrap_or(&0)];
        let n = ((b[0] as u32) << 16) | ((b[1] as u32) << 8) | b[2] as u32;
        for j in 0..=group.len() {
            out.push(ALPHABET[((n >> (18 - 6 * j)) & 63) as usize] as char);
        }
    }
    out
}

fn utc_stamp_date() -> String {
    let secs = std::time::SystemTime::now().duration_since(std::time::UNIX_EPOCH).unwrap().as_secs() as i64;
    let (days, rem) = (secs.div_euclid(86400), secs.rem_euclid(86400));
    let z = days + 719468;
    let era = z.div_euclid(146097);
    let doe = z - era * 146097;
    let yoe = (doe - doe / 1460 + doe / 36524 - doe / 146096) / 365;
    let doy = doe - (365 * yoe + yoe / 4 - yoe / 100);
    let mp = (5 * doy + 2) / 153;
    let day = doy - (153 * mp + 2) / 5 + 1;
    let month = if mp < 10 { mp + 3 } else { mp - 9 };
    let year = yoe + era * 400 + if month <= 2 { 1 } else { 0 };
    format!("{:02}{:02}{:02}{:02}{:02}{:02}", year % 100, month, day, rem / 3600, rem % 3600 / 60, rem % 60)
}

fn leading_zero_bits(hash: &[u8; 20]) -> u32 {
    let mut zeros = 0;
    for byte in hash {
        zeros += byte.leading_zeros();
        if byte.leading_zeros() < 8 {
            break;
        }
    }
    zeros
}

/// A hashcash stamp for `resource` with 20 bits of work, dated now.
fn mint_stamp(resource: &str) -> String {
    let prefix = format!("1:20:{}:{}::{}:", utc_stamp_date(), resource, base64_unpadded(&[7u8; 16]));
    let mut counter: u32 = 1;
    loop {
        let stamp = format!("{}{}", prefix, base64_unpadded(&counter.to_be_bytes()));
        if leading_zero_bits(&sha1(stamp.as_bytes())) >= 20 {
            return stamp;
        }
        counter += 1;
    }
}

#[test]
fn sha1_of_abc() {
    let hash = sha1(b"abc");
    assert_eq!(hash[..4], [0xa9, 0x99, 0x3e, 0x36]);
}

#[test]
fn solved_stamp_is_accepted() {
    let stamp = mint_stamp("seedB");
    let right = Token::from(&String::from("seedB"), &stamp);
    assert_eq!(right.validate(), Ok(()));
    let wrong_seed = Token::from(&String::from("seedC"), &stamp);
    assert_eq!(wrong_seed.validate(), Err(()));
}

#[test]
fn token_validate_full_run() {
    let stamp = mint_stamp("seedZ");
    let (flow, command) = TokenValidateFlow::start(Token::from(&String::from("seedZ"), &stamp));
    assert!(matches!(&command, Command::SelectToken { seed } if seed == "seedZ"));
    let known = Token::from(&String::from("seedZ"), &String::new());
    let (flow, command) = flow.step(Reply::FoundToken(Ok(known)));
    assert!(matches!(&command, Command::PutTokenState { seed, value: 1 } if seed == "seedZ"));
    let (flow, command) = flow.step(Reply::Done(Ok(())));
    assert!(matches!(&command, Command::InsertToken { token } if token.seed == "seedZ" && token.stamp == stamp));
    let (_, answer) = flow.step(Reply::Done(Ok(())));
    assert!(matches!(answer, Command::Reply { response: Response::Status(status) } if status.code() == 200));
}
