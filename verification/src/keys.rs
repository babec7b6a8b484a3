//! Account addresses and transaction signatures, and their base-58 text.
use std::str::FromStr;

use vstd::prelude::*;

verus! {

/// The address of an account.
#[derive(Clone, Copy, Debug, Eq)]
pub struct Pubkey {
    pub bytes: [u8; 32],
}

/// The signature of a transaction. The first one of a transaction is its hash.
#[derive(Clone, Copy, Debug, PartialEq, Eq)]
pub struct Signature {
    pub bytes: [u8; 64],
}

impl PartialEq for Pubkey {
    fn eq(&self, other: &Self) -> (same: bool) {
        let mut i: usize = 0;
        while i < 32
            invariant
                i <= 32,
                forall|j: int| 0 <= j < i ==> self.bytes@[j] == other.bytes@[j],
            decreases 32 - i,
        {
            if self.bytes[i] != other.bytes[i] {
                return false;
            }
            i += 1;
        }
        assert(self.bytes =~= other.bytes);
        true
    }
}

impl vstd::std_specs::cmp::PartialEqSpecImpl for Pubkey {
    open spec fn obeys_eq_spec() -> bool {
        true
    }

    open spec fn eq_spec(&self, other: &Self) -> bool {
        *self == *other
    }
}

/// What `solana_sdk::pubkey::Pubkey::from_str` reads from a text: an address, or
/// `None` where it reports an error.
pub uninterp spec fn parsed_pubkey(text: Seq<char>) -> Option<Pubkey>;

/// The text that `solana_sdk::pubkey::Pubkey` displays for an address.
pub uninterp spec fn pubkey_text(key: Pubkey) -> Seq<char>;

/// What `solana_sdk::signature::Signature::from_str` reads from a text: a signature,
/// or `None` where it reports an error.
pub uninterp spec fn parsed_signature(text: Seq<char>) -> Option<Signature>;

/// The text that `solana_sdk::signature::Signature` displays for a signature.
pub uninterp spec fn signature_text(signature: Signature) -> Seq<char>;

/// Calls `solana_sdk::pubkey::Pubkey::from_str`. Its result depends on the text alone
/// and is named by `parsed_pubkey`. Base 58 writes an address in one way only, so a
/// text that is accepted is the text that its address displays.
#[verifier::external_body]
pub(crate) fn parse_pubkey(text: &str) -> (key: Option<Pubkey>)
    ensures
        key == parsed_pubkey(text@),
        key matches Some(k) ==> pubkey_text(k) == text@,
{
    match solana_sdk::pubkey::Pubkey::from_str(text) {
        Ok(key) => Some(Pubkey { bytes: key.to_bytes() }),
        Err(_) => None,
    }
}

/// Calls `to_string` on a `solana_sdk::pubkey::Pubkey`. The text depends on the 32
/// bytes alone, is named by `pubkey_text`, and is read back as the same address.
#[verifier::external_body]
pub(crate) fn pubkey_to_string(key: &Pubkey) -> (text: String)
    ensures
        text@ == pubkey_text(*key),
        parsed_pubkey(text@) == Some(*key),
{
    solana_sdk::pubkey::Pubkey::new_from_array(key.bytes).to_string()
}

/// Calls `solana_sdk::signature::Signature::from_str`. Its result depends on the text
/// alone and is named by `parsed_signature`. Base 58 writes a signature in one way
/// only, so a text that is accepted is the text that its signature displays.
#[verifier::external_body]
pub(crate) fn parse_signature(text: &str) -> (signature: Option<Signature>)
    ensures
        signature == parsed_signature(text@),
        signature matches Some(s) ==> signature_text(s) == text@,
{
    match solana_sdk::signature::Signature::from_str(text) {
        Ok(signature) => Some(Signature { bytes: signature.into() }),
        Err(_) => None,
    }
}

/// Calls `to_string` on a `solana_sdk::signature::Signature`. The text depends on the
/// 64 bytes alone, is named by `signature_text`, and is read back as the same
/// signature.
#[verifier::external_body]
pub(crate) fn signature_to_string(signature: &Signature) -> (text: String)
    ensures
        text@ == signature_text(*signature),
        parsed_signature(text@) == Some(*signature),
{
    solana_sdk::signature::Signature::from(signature.bytes).to_string()
}

} // verus!
