//! The chains a block can come from, and what differs between them.

use vstd::prelude::*;

verus! {

/// A chain whose blocks can be scanned. The chain decides whether a block
/// may carry merge-mining data and how the addresses of its outputs are
/// written.
#[derive(Clone, Copy, Debug, PartialEq, Eq, Structural)]
pub enum Network {
    Dogecoin,
    Litecoin,
    Bitcoin,
}

/// The selector handed in at the boundary names no known chain.
#[derive(Clone, Copy, Debug, PartialEq, Eq, Structural)]
pub struct UnsupportedNetworkError {
    /// The selector that was refused.
    pub selector: usize,
}

/// The chain that a numeric selector stands for, if any.
pub open spec fn spec_network_from_selector(selector: usize) -> Result<
    Network,
    UnsupportedNetworkError,
> {
    if selector == 1 {
        Ok(Network::Dogecoin)
    } else if selector == 2 {
        Ok(Network::Litecoin)
    } else if selector == 3 {
        Ok(Network::Bitcoin)
    } else {
        Err(UnsupportedNetworkError { selector })
    }
}

/// Maps the numeric selector used at the boundary (1 = Dogecoin,
/// 2 = Litecoin, 3 = Bitcoin) to a chain.
pub fn network_from_selector(selector: usize) -> (r: Result<Network, UnsupportedNetworkError>)
    ensures
        r == spec_network_from_selector(selector),
{
    match selector {
        1 => Ok(Network::Dogecoin),
        2 => Ok(Network::Litecoin),
        3 => Ok(Network::Bitcoin),
        _ => Err(UnsupportedNetworkError { selector }),
    }
}

impl Network {
    /// Whether blocks of this chain may carry merge-mining data after the header.
    pub open spec fn spec_merge_mined(self) -> bool {
        self == Network::Dogecoin || self == Network::Litecoin
    }

    /// Whether blocks of this chain may carry merge-mining data after the header.
    #[verifier::when_used_as_spec(spec_merge_mined)]
    pub fn merge_mined(self) -> (r: bool)
        ensures
            r == self.spec_merge_mined(),
    {
        match self {
            Network::Dogecoin => true,
            Network::Litecoin => true,
            Network::Bitcoin => false,
        }
    }
}

} // verus!
