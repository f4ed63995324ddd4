//! Addresses, as locking scripts encode them on the private test network.

use vstd::prelude::*;
use crate::error::ReportError;

verus! {

/// What the `bitcoin` crate makes of a locking script under the parameters
/// of the regtest network: the text of the address that the script encodes,
/// or `None` where the script is of no pattern that encodes one.
pub uninterp spec fn regtest_address(script: Seq<u8>) -> Option<Seq<char>>;

/// Hands the script to `bitcoin::Address::from_script` with
/// `bitcoin::Network::Regtest` and renders the address it returns by its
/// `Display`. Trusted: the result is [`regtest_address`] of the script's
/// bytes; an error of the crate, whichever it is, comes back as `None`.
#[verifier::external_body]
fn regtest_address_of_script(script: &Vec<u8>) -> (rendered: Option<String>)
    ensures
        match rendered {
            Some(text) => regtest_address(script@) == Some(text@),
            None => regtest_address(script@) is None,
        },
{
    let script = bitcoin::Script::from_bytes(script.as_slice());
    match bitcoin::Address::from_script(script, bitcoin::Network::Regtest) {
        Ok(address) => Some(address.to_string()),
        Err(_) => None,
    }
}

/// What counts as a decoded address: a text of at least one character.
pub open spec fn accepted(rendered: Option<Seq<char>>) -> Option<Seq<char>> {
    match rendered {
        Some(text) => if text.len() > 0 {
            Some(text)
        } else {
            None
        },
        None => None,
    }
}

/// The address that a locking script decodes to, if it decodes.
pub open spec fn address_of(script: Seq<u8>) -> Option<Seq<char>> {
    accepted(regtest_address(script))
}

/// Whether the locking script decodes to `address`.
pub open spec fn pays_to(script: Seq<u8>, address: Seq<char>) -> bool {
    address_of(script) == Some(address)
}

/// The characters of a text that may be missing.
pub open spec fn text_of(rendered: Option<String>) -> Option<Seq<char>> {
    match rendered {
        Some(text) => Some(text@),
        None => None,
    }
}

/// Turns what the script was rendered to into an address or a failure. An
/// empty text is no address and is refused like a script that did not render.
pub fn accept_address(rendered: Option<String>) -> (decoded: Result<String, ReportError>)
    ensures
        match decoded {
            Ok(address) => accepted(text_of(rendered)) == Some(address@),
            Err(error) => error == ReportError::AddressDecodeFailure && accepted(
                text_of(rendered),
            ) is None,
        },
{
    match rendered {
        Some(text) => {
            if text.as_str().is_empty() {
                Err(ReportError::AddressDecodeFailure)
            } else {
                Ok(text)
            }
        },
        None => Err(ReportError::AddressDecodeFailure),
    }
}

/// Decodes a locking script into the address it pays to.
///
/// Fails with `AddressDecodeFailure` exactly when the script encodes no address.
pub fn decode_address(script: &Vec<u8>) -> (decoded: Result<String, ReportError>)
    ensures
        match decoded {
            Ok(address) => address_of(script@) == Some(address@),
            Err(error) => error == ReportError::AddressDecodeFailure && address_of(script@) is None,
        },
{
    accept_address(regtest_address_of_script(script))
}

/// A decoded address is never the empty text.
pub proof fn lemma_address_nonempty(script: Seq<u8>)
    ensures
        address_of(script) matches Some(address) ==> address.len() > 0,
{
}

} // verus!
