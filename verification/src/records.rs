use vstd::prelude::*;
use vstd::utf8::encode_utf8;
use crate::identity::Identity;
use crate::pricing::{asset_amount_for, lemma_round_trip_bound, usdc_amount_for, PRICE_SCALE};

verus! {

/// The most bytes an asset's name may take.
pub const MAX_NAME_LEN: usize = 50;

/// The most bytes an asset's ticker may take.
pub const MAX_TICKER_LEN: usize = 10;

/// The number of bytes that a text takes when stored.
pub open spec fn byte_len(text: Seq<char>) -> nat {
    encode_utf8(text).len()
}

/// The administrator record: one per deployment.
#[derive(Clone, Copy, Debug, PartialEq, Eq)]
pub struct Admin {
    /// The identity allowed to draw on every vault's reserve.
    pub authority: Identity,
}

impl Admin {
    /// Stored size in bytes.
    pub const LEN: usize = 32;
}

/// A synthetic asset, sold and bought back at a fixed price.
#[derive(Clone, Debug, PartialEq, Eq)]
pub struct Asset {
    pub name: String,
    pub ticker: String,
    /// Stablecoin units per asset token, with six decimals.
    pub price: u64,
    pub mint: Identity,
    pub vault: Identity,
    pub authority: Identity,
}

impl Asset {
    /// Stored size in bytes, name and ticker padded to their limits.
    pub const LEN: usize = MAX_NAME_LEN + MAX_TICKER_LEN + 8 + 32 + 32 + 32;

    /// Name and ticker fit the space a record has for them.
    pub open spec fn wf(&self) -> bool {
        &&& byte_len(self.name@) <= MAX_NAME_LEN
        &&& byte_len(self.ticker@) <= MAX_TICKER_LEN
    }
}

/// The reserve behind one asset.
#[derive(Clone, Copy, Debug, PartialEq, Eq, Structural)]
pub struct Vault {
    /// Stablecoin units held in reserve.
    pub total_usdc: u64,
    /// Asset tokens issued against the reserve.
    pub total_assets: u64,
    /// The most stablecoin units the reserve may hold.
    pub deposit_limit: u64,
}

impl Vault {
    /// Stored size in bytes.
    pub const LEN: usize = 8 + 8 + 8;

    /// The reserve is within its limit.
    pub open spec fn within_limit(&self) -> bool {
        self.total_usdc <= self.deposit_limit
    }

    /// An empty vault with the given limit.
    pub open spec fn opened(deposit_limit: u64) -> Vault {
        Vault { total_usdc: 0, total_assets: 0, deposit_limit }
    }

    /// Whether a deposit of `amount` stays within the limit.
    pub open spec fn accepts_deposit(&self, amount: u64) -> bool {
        self.total_usdc + amount <= self.deposit_limit
    }

    /// Whether the arithmetic of a deposit of `amount` at `price` stays within
    /// range: the new reserve fits in 64 bits and, where the deposit is
    /// accepted, so do the scaled amount and the new issue, and the price is
    /// not zero.
    pub open spec fn deposit_defined(&self, amount: u64, price: u64) -> bool {
        &&& self.total_usdc + amount <= u64::MAX
        &&& self.accepts_deposit(amount) ==> {
            &&& price != 0
            &&& amount * PRICE_SCALE <= u64::MAX
            &&& self.total_assets + asset_amount_for(amount as int, price as int) <= u64::MAX
        }
    }

    /// The vault after an accepted deposit of `amount` at `price`.
    pub open spec fn after_deposit(&self, amount: u64, price: u64) -> Vault {
        Vault {
            total_usdc: (self.total_usdc + amount) as u64,
            total_assets: (self.total_assets + asset_amount_for(amount as int, price as int)) as u64,
            deposit_limit: self.deposit_limit,
        }
    }

    /// Whether the arithmetic of redeeming `amount` asset tokens at `price`
    /// stays within range: the product fits in 64 bits, the reserve covers the
    /// payout and the issue covers the tokens.
    pub open spec fn redeem_defined(&self, amount: u64, price: u64) -> bool {
        &&& amount * price <= u64::MAX
        &&& usdc_amount_for(amount as int, price as int) <= self.total_usdc
        &&& amount <= self.total_assets
    }

    /// The vault after `amount` asset tokens were redeemed at `price`.
    pub open spec fn after_redeem(&self, amount: u64, price: u64) -> Vault {
        Vault {
            total_usdc: (self.total_usdc - usdc_amount_for(amount as int, price as int)) as u64,
            total_assets: (self.total_assets - amount) as u64,
            deposit_limit: self.deposit_limit,
        }
    }

    /// Whether the reserve covers a withdrawal of `amount`.
    pub open spec fn withdrawal_defined(&self, amount: u64) -> bool {
        amount <= self.total_usdc
    }

    /// The vault after the administrator withdrew `amount` from the reserve.
    /// The issue stays as it is.
    pub open spec fn after_withdrawal(&self, amount: u64) -> Vault {
        Vault {
            total_usdc: (self.total_usdc - amount) as u64,
            total_assets: self.total_assets,
            deposit_limit: self.deposit_limit,
        }
    }

    /// Redeeming at once what a deposit bought always goes through, brings the
    /// issue back to where it was, and pays back no more than was deposited:
    /// the reserve ends no lower than it began, and what rounding withheld
    /// stays in it.
    pub proof fn lemma_deposit_then_redeem(vault: Vault, amount: u64, price: u64)
        requires
            vault.deposit_defined(amount, price),
            vault.accepts_deposit(amount),
        ensures
            ({
                let minted = asset_amount_for(amount as int, price as int) as u64;
                let mid = vault.after_deposit(amount, price);
                let end = mid.after_redeem(minted, price);
                &&& minted == asset_amount_for(amount as int, price as int)
                &&& mid.redeem_defined(minted, price)
                &&& usdc_amount_for(minted as int, price as int) <= amount
                &&& end.total_assets == vault.total_assets
                &&& end.total_usdc == vault.total_usdc + amount - usdc_amount_for(
                    minted as int,
                    price as int,
                )
                &&& vault.total_usdc <= end.total_usdc <= vault.total_usdc + amount
                &&& end.deposit_limit == vault.deposit_limit
                &&& end.within_limit()
            }),
    {
        lemma_round_trip_bound(amount as int, price as int);
    }

    /// No operation lifts the reserve above the limit: a deposit is accepted
    /// only within it, and the others only lower the reserve.
    pub proof fn lemma_limit_kept(vault: Vault, amount: u64, price: u64)
        requires
            vault.within_limit(),
        ensures
            vault.deposit_defined(amount, price) && vault.accepts_deposit(amount)
                ==> vault.after_deposit(amount, price).within_limit(),
            vault.redeem_defined(amount, price) ==> vault.after_redeem(amount, price).within_limit(),
            vault.withdrawal_defined(amount) ==> vault.after_withdrawal(amount).within_limit(),
    {
        if vault.redeem_defined(amount, price) {
            assert(0 <= usdc_amount_for(amount as int, price as int)) by (nonlinear_arith)
                requires
                    amount >= 0,
                    price >= 0,
                    usdc_amount_for(amount as int, price as int) == (amount * price) / 1_000_000,
            ;
        }
    }
}

} // verus!
