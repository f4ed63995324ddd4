//! Wallet provisioning: what has to be done to a wallet before it is used.

use vstd::prelude::*;
use crate::text::texts;

verus! {

/// How many confirmations a block reward needs before it can be spent.
pub const COINBASE_MATURITY: u64 = 100;

/// How many blocks have to be mined for the first reward to be spendable:
/// the block that pays it and those that mature it.
pub const BLOCKS_TO_FIRST_SPENDABLE_REWARD: u64 = COINBASE_MATURITY + 1;

/// What the node is asked to do with a wallet.
#[derive(Clone, Copy, Debug, PartialEq, Eq, Structural)]
pub enum WalletAction {
    /// Create the wallet; a created wallet is loaded as well.
    Create,
    /// Load the wallet from the wallet directory.
    Load,
    /// Leave the wallet as it is.
    Nothing,
}

/// Whether `name` is one of `names`.
pub fn is_listed(names: &Vec<String>, name: &str) -> (listed: bool)
    ensures
        listed == texts(names@).contains(name@),
{
    let wanted = String::from_str(name);
    let mut i: usize = 0;
    while i < names.len()
        invariant
            i <= names.len(),
            wanted@ == name@,
            forall|j: int| 0 <= j < i ==> texts(names@)[j] != name@,
        decreases names.len() - i,
    {
        if names[i] == wanted {
            assert(texts(names@)[i as int] == name@);
            return true;
        }
        i = i + 1;
    }
    false
}

/// What to do once the wallet directory has been listed: a wallet that is
/// not in the directory is created.
pub fn after_directory_listing(in_directory: &Vec<String>, name: &str) -> (action: WalletAction)
    ensures
        action == if texts(in_directory@).contains(name@) {
            WalletAction::Nothing
        } else {
            WalletAction::Create
        },
{
    if is_listed(in_directory, name) {
        WalletAction::Nothing
    } else {
        WalletAction::Create
    }
}

/// What to do once the loaded wallets have been listed: a wallet that is
/// not among them is loaded.
pub fn after_loaded_listing(loaded: &Vec<String>, name: &str) -> (action: WalletAction)
    ensures
        action == if texts(loaded@).contains(name@) {
            WalletAction::Nothing
        } else {
            WalletAction::Load
        },
{
    if is_listed(loaded, name) {
        WalletAction::Nothing
    } else {
        WalletAction::Load
    }
}

/// The address under which a node serves one wallet: the node's address,
/// then `/wallet/`, then the wallet's name.
pub open spec fn endpoint_text(node: Seq<char>, name: Seq<char>) -> Seq<char> {
    node + "/wallet/"@ + name
}

/// The address under which the node at `node` serves the wallet `name`.
pub fn wallet_endpoint(node: &str, name: &str) -> (endpoint: String)
    ensures
        endpoint@ == endpoint_text(node@, name@),
{
    let mut endpoint = String::from_str(node);
    endpoint.append("/wallet/");
    endpoint.append(name);
    endpoint
}

} // verus!
