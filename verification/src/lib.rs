//! Configuration values for a Blockfrost API client.

use vstd::prelude::*;

pub mod api;

verus! {

/// Base endpoint of the Cardano mainnet API.
pub const CARDANO_MAINNET_NETWORK: &'static str = "https://cardano-mainnet.blockfrost.io/api/v0";

/// Base endpoint of the Cardano testnet API.
pub const CARDANO_TESTNET_NETWORK: &'static str = "https://cardano-testnet.blockfrost.io/api/v0";

} // verus!
