use vstd::prelude::*;

use crate::randoms::{alphanumeric_string, is_alphanumeric_text};
use crate::tokens::stamps::{colon_fields, hashcash_fields, hashcash_work_done, parse_stamp, stamp_holds};

verus! {

/// The proof-of-work difficulty, in leading zero bits, that every stamp
/// must declare.
pub const DEFAULT_BITS: i32 = 20;

/// A proof-of-work challenge: a random seed that a client must solve as a
/// hashcash stamp (`stamp`) of the required difficulty (`bits`).
pub struct Token {
    pub seed: String,
    pub bits: i32,
    pub stamp: String,
}

/// What `Token::new` gives: a random seed of 16 letters and digits, the
/// default difficulty and an empty stamp.
pub open spec fn is_fresh_token(token: Token) -> bool {
    &&& token.seed@.len() == 16
    &&& is_alphanumeric_text(token.seed@)
    &&& token.bits == DEFAULT_BITS
    &&& token.stamp@ == Seq::<char>::empty()
}

/// What `Token::validate` may answer for `token`: acceptance only for a
/// stamp that matches the token and carries the work it declares, refusal
/// for every stamp that does not match.
pub open spec fn is_validation_outcome(token: Token, res: Result<(), ()>) -> bool {
    &&& res is Ok ==> token.stamp_matches() && token.work_done()
    &&& !token.stamp_matches() ==> res is Err
}

impl Clone for Token {
    fn clone(&self) -> (copy: Token)
        ensures
            copy == *self,
    {
        Token { seed: self.seed.clone(), bits: self.bits, stamp: self.stamp.clone() }
    }
}

impl Token {
    /// A fresh challenge: a random seed of 16 letters and digits, the
    /// default difficulty and no stamp yet.
    pub fn new() -> (token: Token)
        ensures
            token.seed@.len() == 16,
            is_alphanumeric_text(token.seed@),
            token.bits == DEFAULT_BITS,
            token.stamp@ == Seq::<char>::empty(),
    {
        Token { seed: alphanumeric_string(16), bits: DEFAULT_BITS, stamp: String::new() }
    }

    /// A solved challenge as a client sends it: its seed and its stamp, at
    /// the default difficulty.
    pub fn from(seed: &String, stamp: &String) -> (token: Token)
        ensures
            token.seed == *seed,
            token.stamp == *stamp,
            token.bits == DEFAULT_BITS,
    {
        Token { seed: seed.clone(), bits: DEFAULT_BITS, stamp: stamp.clone() }
    }

    /// The stamp, as hashcash reads it, declares the default difficulty and
    /// names this token's seed as its resource.
    pub open spec fn stamp_matches(self) -> bool {
        hashcash_fields(self.stamp@) == Some((DEFAULT_BITS as u32, self.seed@))
    }

    /// The stamp carries the proof of work it declares.
    pub open spec fn work_done(self) -> bool {
        hashcash_work_done(self.stamp@)
    }

    /// Whether a stamp's difficulty and resource are the ones this token
    /// asks for.
    pub fn stamp_fits(&self, bits: u32, resource: &String) -> (res: bool)
        ensures
            res == (bits == DEFAULT_BITS as u32 && resource@ == self.seed@),
    {
        bits == DEFAULT_BITS as u32 && resource.eq(&self.seed)
    }

    /// The verdict on a stamp with difficulty `bits` and resource `resource`
    /// once hashcash's own check of its work and age came back as
    /// `work_checked`: accepted exactly when the stamp fits this token and
    /// the check passed.
    pub fn accepts(&self, bits: u32, resource: &String, work_checked: bool) -> (res: Result<(), ()>)
        ensures
            res is Ok <==> (bits == DEFAULT_BITS as u32 && resource@ == self.seed@ && work_checked),
    {
        if self.stamp_fits(bits, resource) && work_checked {
            return Ok(());
        }
        Err(())
    }

    /// Accepts the token when its stamp parses, declares the default
    /// difficulty, is minted for this token's seed, and passes hashcash's
    /// own check of the work done and of its age.
    pub fn validate(&self) -> (res: Result<(), ()>)
        ensures
            res is Ok ==> self.stamp_matches() && self.work_done(),
            !self.stamp_matches() ==> res is Err,
            colon_fields(self.stamp@).len() != 7 ==> res is Err,
    {
        let parsed = match parse_stamp(self.stamp.as_str()) {
            Some(value) => value,
            None => return Err(()),
        };
        if !self.stamp_fits(parsed.bits(), parsed.resource()) {
            return Err(());
        }
        let work_checked = stamp_holds(&parsed);
        self.accepts(parsed.bits(), parsed.resource(), work_checked)
    }
}

} // verus!
