//! Registering a collateral asset: its pool and its first price.
use vstd::prelude::*;

use crate::key::Key;
use crate::structs::{Config, Price};

verus! {

/// The pool of a newly registered asset, empty, and its first price.
pub fn initialize_token(token_mint: Key, vault: Key, admin: Key, price: u64) -> (r: (Config, Price))
    ensures
        r.0 == (Config {
            token_mint,
            total_liq: 0,
            total_collected: 0,
            protocol_fees: 0,
            vault,
            authority: admin,
        }),
        r.1 == (Price { token_mint, price }),
{
    (
        Config {
            token_mint,
            total_liq: 0,
            total_collected: 0,
            protocol_fees: 0,
            vault,
            authority: admin,
        },
        Price { token_mint, price },
    )
}

} // verus!
