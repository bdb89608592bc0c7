//! GUIDs, carried on the wire as their hyphenated text.
use vstd::prelude::*;

use crate::error::PduError;
use crate::string::{varstr_fits, NowVarStr};

verus! {

/// The lower-case hyphenated text that uuid writes for the UUID of `bytes`.
pub uninterp spec fn uuid_text(bytes: Seq<u8>) -> Seq<char>;

/// The 16 bytes of the UUID that uuid reads from `text`, or `None` when uuid
/// rejects the text.
pub uninterp spec fn uuid_parse(text: Seq<char>) -> Option<Seq<u8>>;

/// Relies on `uuid::fmt::Hyphenated::encode_lower`: the 36-character lower-case
/// hyphenated text of the UUID whose bytes are `bytes`.
#[verifier::external_body]
fn format_uuid(bytes: [u8; 16]) -> (r: String)
    ensures
        r@ == uuid_text(bytes@),
        r@.len() == 36,
{
    let mut buf = [0u8; uuid::fmt::Hyphenated::LENGTH];
    uuid::fmt::Hyphenated::from_uuid(uuid::Uuid::from_bytes(bytes)).encode_lower(&mut buf).to_string()
}

/// Relies on `uuid::Uuid::try_parse`: the bytes of the UUID that `text` spells,
/// or `None` when uuid rejects the text.
#[verifier::external_body]
fn parse_uuid(text: &str) -> (r: Option<[u8; 16]>)
    ensures
        r is None <==> uuid_parse(text@) is None,
        r matches Some(b) ==> uuid_parse(text@) == Some(b@),
{
    uuid::Uuid::try_parse(text).ok().map(|u| u.into_bytes())
}

/// A GUID: its text as sent on the wire, and the 16 bytes that text stands for.
#[derive(Debug)]
pub struct NowGuid {
    text: NowVarStr,
    bytes: [u8; 16],
}

impl View for NowGuid {
    type V = Seq<char>;

    closed spec fn view(&self) -> Seq<char> {
        self.text@
    }
}

/// `text` is a GUID text that fits a string field and that uuid accepts.
pub open spec fn guid_text_ok(text: Seq<char>) -> bool {
    varstr_fits(text) && uuid_parse(text) is Some
}

impl NowGuid {
    #[verifier::type_invariant]
    spec fn inv(self) -> bool {
        guid_text_ok(self.text@) && uuid_parse(self.text@) == Some(self.bytes@)
    }

    /// The GUID of `bytes`, as uuid writes it; `InvalidField` if uuid does not
    /// read its own text back.
    pub fn from_bytes(bytes: [u8; 16]) -> (r: Result<NowGuid, PduError>)
        ensures
            r matches Ok(g) ==> g@ == uuid_text(bytes@),
            r is Ok <==> uuid_parse(uuid_text(bytes@)) is Some,
    {
        let text = format_uuid(bytes);
        proof {
            assert(varstr_fits(text@)) by {
                crate::string::lemma_short_fits(text@);
            }
        }
        let text = NowVarStr::new(text)?;
        match parse_uuid(text.value()) {
            Some(b) => Ok(NowGuid { text, bytes: b }),
            None => Err(PduError::invalid_field("NOW_GUID", "invalid UUID format")),
        }
    }

    /// The GUID that `text` spells; `InvalidField` when uuid rejects it.
    pub fn from_text(text: NowVarStr) -> (r: Result<NowGuid, PduError>)
        ensures
            r is Ok <==> uuid_parse(text@) is Some,
            r matches Ok(g) ==> g@ == text@,
            r matches Err(e) ==> e is InvalidField,
    {
        match parse_uuid(text.value()) {
            Some(b) => Ok(NowGuid { text, bytes: b }),
            None => Err(PduError::invalid_field("NOW_GUID", "invalid UUID format")),
        }
    }

    /// The 16 bytes of the GUID.
    pub fn bytes(&self) -> (r: [u8; 16])
        ensures
            uuid_parse(self@) == Some(r@),
    {
        proof {
            use_type_invariant(self);
        }
        self.bytes
    }

    /// The text of the GUID.
    pub fn text(&self) -> (r: &NowVarStr)
        ensures
            r@ == self@,
            guid_text_ok(self@),
    {
        proof {
            use_type_invariant(self);
        }
        &self.text
    }

    /// A GUID of the same text.
    pub fn duplicate(&self) -> (r: NowGuid)
        ensures
            r@ == self@,
            guid_text_ok(self@),
    {
        proof {
            use_type_invariant(self);
        }
        NowGuid { text: self.text.duplicate(), bytes: self.bytes }
    }
}

} // verus!
