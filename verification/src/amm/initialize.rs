//! `initialize`: create the pool's configuration.
use vstd::prelude::*;
use crate::amm::state::{Config, Pubkey};

verus! {

/// The bump seeds found for the accounts that `initialize` creates.
#[derive(Debug, Clone, Copy, PartialEq, Eq)]
pub struct InitializeBumps {
    /// Bump of the config account (`["config", seed]`).
    pub config: u8,
    /// Bump of the LP mint (`["lp", config]`).
    pub mint_lp: u8,
}

/// What `initialize` reads of its accounts.
#[derive(Debug, Clone, Copy, PartialEq, Eq)]
pub struct Initialize {
    /// Address of mint X.
    pub mint_x_key: Pubkey,
    /// Address of mint Y.
    pub mint_y_key: Pubkey,
}

impl Initialize {
    /// The configuration of a new pool: unlocked, trading the two given mints
    /// at `fee`, with the bumps found for its accounts.
    pub fn init(&self, seed: u64, fee: u16, authority: Option<Pubkey>, bumps: InitializeBumps) -> (config:
        Config)
        ensures
            config == (Config {
                seed,
                authority,
                mint_x: self.mint_x_key,
                mint_y: self.mint_y_key,
                fee,
                locked: false,
                config_bump: bumps.config,
                lp_bump: bumps.mint_lp,
            }),
    {
        Config {
            seed,
            authority,
            mint_x: self.mint_x_key,
            mint_y: self.mint_y_key,
            fee,
            locked: false,
            config_bump: bumps.config,
            lp_bump: bumps.mint_lp,
        }
    }
}

} // verus!
