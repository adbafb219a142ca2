//! A host name as text, for those who can live with a lossy reading.

use vstd::prelude::*;
use vstd::utf8::{decode_utf8, valid_utf8};
use crate::value::NameUnits;

verus! {

/// The text that std's lossy UTF-8 reading makes of `bytes`: the text itself
/// where the bytes are valid UTF-8, and U+FFFD in place of what is not.
pub uninterp spec fn utf8_lossy(bytes: Seq<u8>) -> Seq<char>;

/// The text that std's lossy UTF-16 reading makes of `units`, with U+FFFD in
/// place of each surrogate that has no partner.
pub uninterp spec fn utf16_lossy(units: Seq<u16>) -> Seq<char>;

/// The lossy reading of a name in either encoding.
pub open spec fn lossy_text(name: NameUnits) -> Seq<char> {
    match name {
        NameUnits::Bytes(bytes) => utf8_lossy(bytes),
        NameUnits::Wide(units) => utf16_lossy(units),
    }
}

/// Calls `String::from_utf8_lossy` and owns what it returns.
///
/// Taken on trust: the result depends on the bytes alone, and bytes that are
/// valid UTF-8 come back as the text they encode, with nothing replaced.
#[verifier::external_body]
pub(crate) fn text_of_bytes(bytes: &Vec<u8>) -> (text: String)
    ensures
        text@ == utf8_lossy(bytes@),
        valid_utf8(bytes@) ==> text@ == decode_utf8(bytes@),
{
    String::from_utf8_lossy(bytes).into_owned()
}

/// Calls `String::from_utf16_lossy`.
///
/// Taken on trust: the result depends on the units alone.
#[verifier::external_body]
pub(crate) fn text_of_units(units: &Vec<u16>) -> (text: String)
    ensures
        text@ == utf16_lossy(units@),
{
    String::from_utf16_lossy(units)
}

} // verus!
