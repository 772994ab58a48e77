//! Parsing of the configured ballot-token-owner address string, delegated
//! to `ergo_lib`.  Only the serialized group element of a
//! pay-to-public-key address matters to the validator, so that is all the
//! wrapper hands back.

use vstd::prelude::*;

use ergo_lib::ergotree_ir::chain::address::Address;
use ergo_lib::ergotree_ir::chain::address::AddressEncoder;

verus! {

/// What an address string parses to: `None` for a string that is no
/// well-formed address, `Some(None)` for a well-formed address of a kind
/// other than pay-to-public-key, and `Some(Some(b))` for a
/// pay-to-public-key address whose group element serializes to `b`.
pub uninterp spec fn spec_address_p2pk_bytes(s: Seq<char>) -> Option<Option<Seq<u8>>>;

/// Relies on `ergo_lib`'s `AddressEncoder::unchecked_parse_address_from_str`:
/// Base58 decoding, checksum verification and address-type dispatch are
/// functions of the string alone; and on `Address::content_bytes`, which
/// for a pay-to-public-key address is the serialized group element, a
/// function of the parsed address alone.
#[verifier::external_body]
pub(crate) fn parse_owner_address(s: &String) -> (r: Result<Option<Vec<u8>>, ()>)
    ensures
        match r {
            Ok(Some(b)) => spec_address_p2pk_bytes(s@) == Some(Some(b@)),
            Ok(None) => spec_address_p2pk_bytes(s@) == Some(None::<Seq<u8>>),
            Err(_) => spec_address_p2pk_bytes(s@) is None,
        },
{
    match AddressEncoder::unchecked_parse_address_from_str(s) {
        Ok(a) => match a {
            Address::P2Pk(_) => Ok(Some(a.content_bytes())),
            _ => Ok(None),
        },
        Err(_) => Err(()),
    }
}

} // verus!
