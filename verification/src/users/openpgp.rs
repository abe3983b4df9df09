use vstd::prelude::*;
use sequoia_openpgp::parse::Parse;
use sequoia_openpgp::serialize::stream::{Armorer, Encryptor2, LiteralWriter, Message};
use std::io::Write;

verus! {

/// `sequoia_openpgp::Cert`, an OpenPGP certificate, carried through opaque.
#[verifier::external_type_specification]
#[verifier::external_body]
pub struct ExCert(sequoia_openpgp::Cert);

/// An OpenPGP certificate with the text it was read from. Only
/// `parse_certificate` makes one, so the two always belong together.
pub struct Certificate {
    cert: sequoia_openpgp::Cert,
    text: String,
}

impl Certificate {
    /// The text the certificate was read from.
    pub closed spec fn source(self) -> Seq<char> {
        self.text@
    }
}

/// Whether an OpenPGP certificate can be read from this text
/// (`sequoia_openpgp::Cert::from_bytes` on its UTF-8 bytes).
pub uninterp spec fn openpgp_cert_parses(text: Seq<char>) -> bool;

/// `message` is an OpenPGP message that encrypts `plaintext` for the
/// transport-encryption keys of the certificate read from `cert`. This is a
/// relation, not a function: encryption draws a random session key, so one
/// plaintext has many such messages.
pub uninterp spec fn openpgp_encrypted_for(cert: Seq<char>, plaintext: Seq<char>, message: Seq<char>) -> bool;

/// The text opens with the ASCII-armor header of an OpenPGP message.
pub open spec fn is_armored_message(text: Seq<char>) -> bool {
    text.len() >= 27 && text.take(27) == "-----BEGIN PGP MESSAGE-----"@
}

/// `sequoia_openpgp::Cert::from_bytes` on the bytes of `text`. Parsing
/// depends on the text alone, so its success is named.
#[verifier::external_body]
pub(crate) fn parse_certificate(text: &str) -> (cert: Option<Certificate>)
    ensures
        cert is Some <==> openpgp_cert_parses(text@),
        cert matches Some(c) ==> c.source() == text@,
{
    match sequoia_openpgp::Cert::from_bytes(text.as_bytes()) {
        Ok(cert) => Some(Certificate { cert, text: text.to_string() }),
        Err(_) => None,
    }
}

/// Encrypts `plaintext` with `sequoia_openpgp`'s streaming writers
/// (`Message`, `Armorer`, `Encryptor2`, `LiteralWriter`) for the
/// transport-encryption keys of `cert` that the standard policy accepts,
/// and returns the ASCII-armored message. The session key is random and the
/// policy reads the clock, so whether a message comes back is not claimed;
/// a message that does come back encrypts `plaintext` for `cert` and opens
/// with the armor header that the source writes first.
#[verifier::external_body]
pub(crate) fn encrypt_for_certificate(cert: &Certificate, plaintext: &str) -> (armored: Option<String>)
    ensures
        armored matches Some(m) ==> is_armored_message(m@) && openpgp_encrypted_for(cert.source(), plaintext@, m@),
{
    let policy = sequoia_openpgp::policy::StandardPolicy::new();
    let keys = cert.cert.keys().with_policy(&policy, None).supported().alive().revoked(false).for_transport_encryption();
    let mut sink: Vec<u8> = Vec::new();
    let message = Armorer::new(Message::new(&mut sink)).build().ok()?;
    let message = Encryptor2::for_recipients(message, keys).build().ok()?;
    let mut message = LiteralWriter::new(message).build().ok()?;
    message.write_all(plaintext.as_bytes()).ok()?;
    message.finalize().ok()?;
    String::from_utf8(sink).ok()
}

} // verus!
