use vstd::prelude::*;

verus! {

/// The global protocol configuration, created once by the administrator and
/// read-only to the three operations. Principals and account identifiers are
/// carried as opaque words for the storage layer around the engine.
#[derive(Clone, Copy, Debug, PartialEq, Eq)]
pub struct Config {
    /// Principal allowed to create the configuration.
    pub authority: u64,
    /// Identifier of the USD-pegged debt token.
    pub mint_address: u64,
    /// Liquidation threshold: numerator of the health-factor ratio, scaled by
    /// `BASIS_POINT_SCALE`.
    pub liq_thx: u64,
    /// Liquidator incentive scalar, scaled by `LIQ_BONUS_SCALE`.
    pub liq_bonus: u64,
    /// Floor below which withdrawals are rejected.
    pub min_health_factor: u64,
    /// Largest fraction of a position liquidatable in one call, scaled by
    /// `BASIS_POINT_SCALE`.
    pub close_factor: u64,
    /// Addressing nonce of the configuration record, used only by the storage
    /// layer around the engine.
    pub bump: u8,
    /// Addressing nonce of the mint authority, used only by the storage layer
    /// around the engine.
    pub bump_mint_acc: u8,
}

/// One user's collateral/debt record, created lazily on first deposit and
/// mutated exclusively by the three operations. A fully repaid, zero-balance
/// record is a valid state; it is never deleted.
#[derive(Clone, Copy, Debug, PartialEq, Eq)]
pub struct Collateral {
    /// Principal that owns the position.
    pub depositer: u64,
    /// Identifier of the custodial account holding the collateral.
    pub sol_account: u64,
    /// Identifier of the owner's debt-token account.
    pub coin_token_account: u64,
    /// Whether the record has been populated by a first deposit.
    pub is_initialized: bool,
    /// Total collateral base units held on the owner's behalf.
    pub lamports: u64,
    /// Total debt-token units minted against this position.
    pub coins: u64,
    /// Addressing nonce of the record, for the storage layer.
    pub bump: u8,
    /// Addressing nonce of the custodial account, for the storage layer.
    pub bump_sol_account: u8,
}

impl Config {
    /// Builds the one-time protocol configuration from the administrator's
    /// parameters and the token identity it is bound to.
    pub fn new(
        authority: u64,
        mint_address: u64,
        liq_thx: u64,
        liq_bonus: u64,
        min_health_factor: u64,
        close_factor: u64,
        bump: u8,
        bump_mint_acc: u8,
    ) -> (r: Config)
        ensures
            r == (Config {
                authority,
                mint_address,
                liq_thx,
                liq_bonus,
                min_health_factor,
                close_factor,
                bump,
                bump_mint_acc,
            }),
    {
        Config {
            authority,
            mint_address,
            liq_thx,
            liq_bonus,
            min_health_factor,
            close_factor,
            bump,
            bump_mint_acc,
        }
    }
}

impl Collateral {
    /// A freshly initialized, empty position for a first-time depositor:
    /// no collateral, no debt.
    pub fn new(
        depositer: u64,
        sol_account: u64,
        coin_token_account: u64,
        bump: u8,
        bump_sol_account: u8,
    ) -> (r: Collateral)
        ensures
            r == (Collateral {
                depositer,
                sol_account,
                coin_token_account,
                is_initialized: true,
                lamports: 0u64,
                coins: 0u64,
                bump,
                bump_sol_account,
            }),
    {
        Collateral {
            depositer,
            sol_account,
            coin_token_account,
            is_initialized: true,
            lamports: 0,
            coins: 0,
            bump,
            bump_sol_account,
        }
    }
}

/// Creates the protocol configuration: the administration entry point's
/// state-building step (registration of the token's metadata is a collaborator
/// effect around the engine).
pub fn process_config(
    authority: u64,
    mint_address: u64,
    liq_thx: u64,
    liq_bonus: u64,
    min_health_factor: u64,
    close_factor: u64,
    bump: u8,
    bump_mint_acc: u8,
) -> (r: Config)
    ensures
        r.authority == authority,
        r.mint_address == mint_address,
        r.liq_thx == liq_thx,
        r.liq_bonus == liq_bonus,
        r.min_health_factor == min_health_factor,
        r.close_factor == close_factor,
        r.bump == bump,
        r.bump_mint_acc == bump_mint_acc,
{
    Config::new(
        authority,
        mint_address,
        liq_thx,
        liq_bonus,
        min_health_factor,
        close_factor,
        bump,
        bump_mint_acc,
    )
}

} // verus!
