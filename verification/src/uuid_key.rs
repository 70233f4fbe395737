//! Reading a channel key as a UUID, through the `uuid` crate.
use vstd::prelude::*;

verus! {

/// The 128-bit value of the UUID that `uuid::Uuid`'s parser reads from a
/// text, or `None` where the parser refuses the text.
pub uninterp spec fn uuid_text_value(text: Seq<char>) -> Option<u128>;

/// Calls `str::parse::<uuid::Uuid>` (that is `Uuid::parse_str`) and turns the
/// UUID into its big-endian 128-bit value with `Uuid::as_u128`. The contract
/// claims only that the outcome is a function of the text, named
/// `uuid_text_value`; which texts the parser accepts (simple, hyphenated,
/// braced and URN forms) is left unsaid.
#[verifier::external_body]
pub(crate) fn parse_uuid(text: &str) -> (r: Option<u128>)
    ensures
        r == uuid_text_value(text@),
{
    match text.parse::<uuid::Uuid>() {
        Ok(u) => Some(u.as_u128()),
        Err(_) => None,
    }
}

} // verus!
