use vstd::prelude::*;
use hashcash::Token as HashcashStamp;

verus! {

/// `hashcash::Token`, a parsed hashcash stamp, carried through opaque.
#[verifier::external_type_specification]
#[verifier::external_body]
pub struct ExHashcashStamp(HashcashStamp);

/// A hashcash stamp as `hashcash` parsed it, with the fields that the
/// validation reads. Only `parse_stamp` makes one, so the parsed stamp and
/// the text it was read from always belong together.
pub struct ParsedStamp {
    parsed: HashcashStamp,
    text: String,
    bits: u32,
    resource: String,
}

impl ParsedStamp {
    /// The text the stamp was read from.
    pub closed spec fn stamp_text(self) -> Seq<char> {
        self.text@
    }

    /// The difficulty the stamp declares.
    pub closed spec fn declared_bits(self) -> u32 {
        self.bits
    }

    /// The resource the stamp was minted for.
    pub closed spec fn resource_text(self) -> Seq<char> {
        self.resource@
    }

    /// The difficulty the stamp declares.
    pub fn bits(&self) -> (bits: u32)
        ensures
            bits == self.declared_bits(),
    {
        self.bits
    }

    /// The resource the stamp was minted for.
    pub fn resource(&self) -> (resource: &String)
        ensures
            resource@ == self.resource_text(),
    {
        &self.resource
    }
}

/// Whether the SHA-1 hash of the stamp read from this text, written out
/// again as `hashcash` writes stamps, has at least the number of leading zero
/// bits that the stamp declares: the proof-of-work part of
/// `hashcash::Token::check`, which depends on the text alone.
pub uninterp spec fn hashcash_work_done(stamp: Seq<char>) -> bool;

/// The difficulty and resource that `hashcash::Token::from_str` reads from
/// a stamp, or `None` where it refuses the stamp.
pub uninterp spec fn hashcash_fields(stamp: Seq<char>) -> Option<(u32, Seq<char>)>;

/// The fields of a text separated by `:` (as `str::split(":")` gives them).
pub open spec fn colon_fields(s: Seq<char>) -> Seq<Seq<char>>
    decreases s.len(),
{
    if s.len() == 0 {
        seq![Seq::<char>::empty()]
    } else {
        let rest = colon_fields(s.drop_first());
        if s[0] == ':' {
            seq![Seq::<char>::empty()] + rest
        } else {
            rest.update(0, seq![s[0]] + rest[0])
        }
    }
}

/// `hashcash::Token::from_str`. The source of `hashcash` splits the stamp
/// at `:`, refuses it unless there are exactly seven fields, reads the
/// difficulty from the second field and takes the fourth as the resource;
/// the contract claims that and names the result, which depends on the
/// stamp alone.
#[verifier::external_body]
pub(crate) fn parse_stamp(stamp: &str) -> (res: Option<ParsedStamp>)
    ensures
        res is Some <==> hashcash_fields(stamp@) is Some,
        res matches Some(p) ==> hashcash_fields(stamp@) == Some((p.declared_bits(), p.resource_text())),
        res matches Some(p) ==> colon_fields(stamp@).len() == 7 && p.resource_text() == colon_fields(
            stamp@,
        )[3],
        colon_fields(stamp@).len() != 7 ==> res is None,
        res matches Some(p) ==> p.stamp_text() == stamp@,
{
    match HashcashStamp::from_str(stamp) {
        Ok(parsed) => {
            let bits = parsed.bits;
            let resource = parsed.resource.clone();
            Some(ParsedStamp { parsed, text: stamp.to_string(), bits, resource })
        },
        Err(_) => None,
    }
}

/// `hashcash::Token::check`: whether the SHA-1 hash of the stamp has the
/// declared number of leading zero bits and the stamp is less than two days
/// old by the local clock. The age part reads the clock, so the contract
/// claims only that a stamp that passes has its work done.
#[verifier::external_body]
pub(crate) fn stamp_holds(stamp: &ParsedStamp) -> (ok: bool)
    ensures
        ok ==> hashcash_work_done(stamp.stamp_text()),
{
    stamp.parsed.check().is_ok()
}

} // verus!
