use vstd::prelude::*;
use vstd::utf8::encode_utf8;

use crate::randoms::{alphanumeric_string, is_alphanumeric_char, is_alphanumeric_text, numeric_string};
use crate::text::str_equals;
use crate::users::openpgp::{
    encrypt_for_certificate, is_armored_message, openpgp_cert_parses, openpgp_encrypted_for, parse_certificate,
};

verus! {

/// An account: its identifier, its authentication method (`totp` or `pgp`)
/// and the secret of that method (a TOTP provisioning URL, or an OpenPGP
/// certificate).
pub struct User {
    pub identifier: String,
    pub method: String,
    pub secret: String,
}

impl Clone for User {
    fn clone(&self) -> (copy: User)
        ensures
            copy == *self,
    {
        User { identifier: self.identifier.clone(), method: self.method.clone(), secret: self.secret.clone() }
    }
}

/// The hash function of a time-based one-time password.
pub enum TotpAlgorithm {
    SHA1,
    SHA256,
    SHA512,
}

/// The `otpauth://` provisioning URL that `totp_rs` builds for a TOTP with
/// these parameters (its `get_url`).
pub uninterp spec fn totp_url(
    algorithm: TotpAlgorithm,
    digits: usize,
    skew: u8,
    step: u64,
    secret: Seq<char>,
    issuer: Option<Seq<char>>,
    account_name: Seq<char>,
) -> Seq<char>;

/// The view of an optional string.
pub open spec fn opt_view(s: Option<String>) -> Option<Seq<char>> {
    match s {
        Some(t) => Some(t@),
        None => None,
    }
}

/// The parameters that `totp_rs::TOTP::new` accepts: 6 to 8 digits, a
/// secret of at least 16 bytes, and no `:` in the issuer or account name.
pub open spec fn totp_parameters_valid(
    digits: usize,
    secret: Seq<char>,
    issuer: Option<Seq<char>>,
    account_name: Seq<char>,
) -> bool {
    &&& 6 <= digits <= 8
    &&& encode_utf8(secret).len() >= 16
    &&& (issuer matches Some(i) ==> !i.contains(':'))
    &&& !account_name.contains(':')
}

/// `totp_rs::TOTP::new` (with the `otpauth` feature) followed by
/// `TOTP::get_url`. The source of `totp_rs` refuses exactly the parameters
/// that `totp_parameters_valid` rules out, and builds the URL from the
/// parameters alone, always under the `otpauth://totp/` scheme and host;
/// the contract claims that, and names the URL.
#[verifier::external_body]
fn totp_provisioning_url(
    algorithm: TotpAlgorithm,
    digits: usize,
    skew: u8,
    step: u64,
    secret: String,
    issuer: Option<String>,
    account_name: String,
) -> (url: Option<String>)
    ensures
        url is Some <==> totp_parameters_valid(digits, secret@, opt_view(issuer), account_name@),
        url matches Some(u) ==> u@ == totp_url(
            algorithm,
            digits,
            skew,
            step,
            secret@,
            opt_view(issuer),
            account_name@,
        ),
        url matches Some(u) ==> u@.len() >= 15 && u@.take(15) == "otpauth://totp/"@,
{
    let algorithm = match algorithm {
        TotpAlgorithm::SHA1 => totp_rs::Algorithm::SHA1,
        TotpAlgorithm::SHA256 => totp_rs::Algorithm::SHA256,
        TotpAlgorithm::SHA512 => totp_rs::Algorithm::SHA512,
    };
    totp_rs::TOTP::new(algorithm, digits, skew, step, secret.into_bytes(), issuer, account_name)
        .ok()
        .map(|totp| totp.get_url())
}

/// The issuer named in the provisioning URL of every account.
pub open spec fn totp_issuer() -> Seq<char> {
    "Simple Accounts"@
}

/// `url` is an `otpauth://totp/` URL that provisions a SHA-1, 6-digit,
/// 30-second TOTP for `account`, under the service's issuer name, with some
/// secret of 64 letters and digits.
pub open spec fn is_totp_provisioning_url(url: Seq<char>, account: Seq<char>) -> bool {
    &&& url.len() >= 15
    &&& url.take(15) == "otpauth://totp/"@
    &&& exists|secret: Seq<char>|
        {
            &&& secret.len() == 64
            &&& is_alphanumeric_text(secret)
            &&& url == totp_url(TotpAlgorithm::SHA1, 6, 1, 30, secret, Some(totp_issuer()), account)
        }
}

proof fn lemma_alphanumeric_is_ascii(s: Seq<char>)
    requires
        is_alphanumeric_text(s),
    ensures
        vstd::utf8::is_ascii_chars(s),
        encode_utf8(s).len() == s.len(),
        !s.contains(':'),
{
    assert forall|i: int| 0 <= i < s.len() implies '\0' <= #[trigger] s[i] <= '\u{7f}' by {
        assert(is_alphanumeric_char(s[i]));
    }
    vstd::utf8::is_ascii_chars_encode_utf8(s);
    if s.contains(':') {
        let i = choose|i: int| 0 <= i < s.len() && s[i] == ':';
        assert(is_alphanumeric_char(s[i]));
    }
}

/// What `User::new` may give for `method`: an account exactly for `totp`,
/// with the method, a 20-character alphanumeric identifier and a TOTP
/// provisioning URL for that identifier.
pub open spec fn is_new_user_outcome(method: Seq<char>, res: Result<User, ()>) -> bool {
    &&& res is Ok <==> method == "totp"@
    &&& res matches Ok(user) ==> {
        &&& user.method@ == method
        &&& user.identifier@.len() == 20
        &&& is_alphanumeric_text(user.identifier@)
        &&& is_totp_provisioning_url(user.secret@, user.identifier@)
    }
}

/// What `User::generate_pgp_challenge` may give for `user`.
pub open spec fn is_challenge_outcome(user: User, res: Result<Option<String>, ()>) -> bool {
    &&& user.method@ == "totp"@ ==> res == Ok::<Option<String>, ()>(None)
    &&& user.method@ != "totp"@ && !openpgp_cert_parses(user.secret@) ==> res is Err
    &&& res matches Ok(p) ==> (p is None <==> user.method@ == "totp"@)
    &&& res matches Ok(Some(m)) ==> user.method@ != "totp"@ && openpgp_cert_parses(user.secret@)
        && is_armored_message(m@) && is_encrypted_challenge(user.secret@, m@)
}

/// `message` encrypts, for the certificate in `cert`, some challenge of 64
/// letters and digits.
pub open spec fn is_encrypted_challenge(cert: Seq<char>, message: Seq<char>) -> bool {
    exists|challenge: Seq<char>|
        {
            &&& challenge.len() == 64
            &&& is_alphanumeric_text(challenge)
            &&& openpgp_encrypted_for(cert, challenge, message)
        }
}

impl User {
    /// Creates an account for the authentication `method`. Only `totp` is
    /// supported: the account gets a random identifier of 20 characters and
    /// a fresh TOTP provisioning URL as its secret. `pgp` is refused, since
    /// public keys are not accepted yet, and so is every other method.
    pub fn new(method: &String, pubkey: &Option<String>) -> (res: Result<User, ()>)
        ensures
            res is Ok <==> method@ == "totp"@,
            res matches Ok(user) ==> {
                &&& user.method@ == method@
                &&& user.identifier@.len() == 20
                &&& is_alphanumeric_text(user.identifier@)
                &&& is_totp_provisioning_url(user.secret@, user.identifier@)
            },
    {
        let identifier = numeric_string(20);
        let secret = if str_equals(method.as_str(), "totp") {
            proof {
                lemma_alphanumeric_is_ascii(identifier@);
            }
            match Self::generate_totp_secret(&identifier) {
                Ok(value) => value,
                Err(_) => return Err(()),
            }
        } else if str_equals(method.as_str(), "pgp") {
            match Self::validate_pgp_pubkey(pubkey) {
                Ok(value) => value,
                Err(_) => return Err(()),
            }
        } else {
            return Err(());
        };
        Ok(User { identifier, method: method.clone(), secret })
    }

    /// A fresh TOTP provisioning URL for `account`: SHA-1, 6 digits, a
    /// 30-second step, one step of skew, and a random secret of 64 letters
    /// and digits, issued by "Simple Accounts". It fails exactly when the
    /// account name holds a `:`.
    pub fn generate_totp_secret(account: &String) -> (res: Result<String, ()>)
        ensures
            res is Ok <==> !account@.contains(':'),
            res matches Ok(url) ==> is_totp_provisioning_url(url@, account@),
    {
        let secret = alphanumeric_string(64);
        let issuer = "Simple Accounts".to_owned();
        proof {
            lemma_alphanumeric_is_ascii(secret@);
            reveal_strlit("Simple Accounts");
        }
        let ghost secret_view = secret@;
        match totp_provisioning_url(TotpAlgorithm::SHA1, 6, 1, 30, secret, Some(issuer), account.clone()) {
            Some(url) => {
                assert(url@ == totp_url(TotpAlgorithm::SHA1, 6, 1, 30, secret_view, Some(totp_issuer()), account@));
                Ok(url)
            },
            None => Err(()),
        }
    }

    /// Checks an OpenPGP public key offered for a new account. Keys are not
    /// accepted yet: every key, and a missing one, is refused.
    pub fn validate_pgp_pubkey(pubkey: &Option<String>) -> (res: Result<String, ()>)
        ensures
            res is Err,
    {
        if pubkey.is_none() {
            return Err(());
        }
        Err(())
    }

    /// The login challenge of this account. A `totp` account needs none.
    /// Otherwise the secret must hold an OpenPGP certificate, and the
    /// challenge is a random text of 64 letters and digits encrypted for it.
    pub fn generate_pgp_challenge(&self) -> (res: Result<Option<String>, ()>)
        ensures
            self.method@ == "totp"@ ==> res == Ok::<Option<String>, ()>(None),
            self.method@ != "totp"@ && !openpgp_cert_parses(self.secret@) ==> res is Err,
            res matches Ok(p) ==> (p is None <==> self.method@ == "totp"@),
            res matches Ok(Some(m)) ==> self.method@ != "totp"@ && openpgp_cert_parses(self.secret@)
                && is_armored_message(m@),
            res matches Ok(Some(m)) ==> is_encrypted_challenge(self.secret@, m@),
    {
        if str_equals(self.method.as_str(), "totp") {
            return Ok(None);
        }
        let cert = match parse_certificate(self.secret.as_str()) {
            Some(cert) => cert,
            None => return Err(()),
        };
        let challenge = alphanumeric_string(64);
        let res = Self::challenge_from_ciphertext(encrypt_for_certificate(&cert, challenge.as_str()));
        if let Ok(Some(m)) = &res {
            assert(openpgp_encrypted_for(self.secret@, challenge@, m@));
        }
        res
    }

    /// The answer to a login request once the challenge was encrypted:
    /// the armored message, or a failure where encryption failed.
    pub fn challenge_from_ciphertext(armored: Option<String>) -> (res: Result<Option<String>, ()>)
        ensures
            armored is None ==> res is Err,
            armored matches Some(a) ==> res == Ok::<Option<String>, ()>(Some(a)),
    {
        match armored {
            Some(a) => Ok(Some(a)),
            None => Err(()),
        }
    }
}

} // verus!
