use vstd::prelude::*;

verus! {

/// The network an index configuration is generated for.
#[derive(Clone, Copy, Debug, PartialEq, Eq)]
pub enum Network {
    Mainnet,
    Testnet,
    Regtest,
}

impl Network {
    /// The label the generated configuration names this network by.
    pub fn label(&self) -> (r: &'static str)
        ensures
            *self is Mainnet ==> r@ == "mainnet"@,
            *self is Testnet ==> r@ == "testnet"@,
            *self is Regtest ==> r@ == "regtest"@,
    {
        match self {
            Network::Mainnet => "mainnet",
            Network::Testnet => "testnet",
            Network::Regtest => "regtest",
        }
    }
}

/// Picks the network from the three exclusive flags; any combination other
/// than exactly one set flag is an invalid selection.
pub fn select_network(mainnet: bool, testnet: bool, regtest: bool) -> (r: Option<Network>)
    ensures
        r == (if mainnet && !testnet && !regtest {
            Some(Network::Mainnet)
        } else if !mainnet && testnet && !regtest {
            Some(Network::Testnet)
        } else if !mainnet && !testnet && regtest {
            Some(Network::Regtest)
        } else {
            None::<Network>
        }),
{
    match (mainnet, testnet, regtest) {
        (true, false, false) => Some(Network::Mainnet),
        (false, true, false) => Some(Network::Testnet),
        (false, false, true) => Some(Network::Regtest),
        _ => None,
    }
}

/// The index the chain tip moves back to when `blocks` blocks are dropped;
/// there is nothing to move back to when more blocks would be dropped than
/// the tip stands at.
pub fn rollback_target(tip_index: u64, blocks: u32) -> (r: Option<u64>)
    ensures
        blocks as u64 <= tip_index ==> r == Some((tip_index - blocks as u64) as u64),
        blocks as u64 > tip_index ==> r is None,
{
    if blocks as u64 <= tip_index {
        Some(tip_index - blocks as u64)
    } else {
        None
    }
}

/// The byte the letter 'n' is encoded as.
pub const REPLY_NO: u8 = 110;

/// The byte the digit '1' is encoded as.
pub const FLAG_ON: u8 = 49;

/// A reply to the rollback prompt confirms the deletion unless it starts
/// with 'n'.
pub fn rollback_confirmed(reply: &Vec<u8>) -> (r: bool)
    ensures
        r == !(reply@.len() > 0 && reply@[0] == REPLY_NO),
{
    !(reply.len() > 0 && reply[0] == REPLY_NO)
}

/// Maintenance mode is requested exactly when the environment variable is
/// present and set to the single character '1'.
pub fn maintenance_mode_requested(value: &Option<Vec<u8>>) -> (r: bool)
    ensures
        r == (*value matches Some(v) && v@.len() == 1 && v@[0] == FLAG_ON),
{
    match value {
        Some(v) => v.len() == 1 && v[0] == FLAG_ON,
        None => false,
    }
}

} // verus!
