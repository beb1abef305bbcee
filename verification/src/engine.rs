use vstd::prelude::*;
use crate::error::ErrorCode;
use crate::identity::Identity;
use crate::pricing::{
    asset_amount, asset_amount_for, lemma_round_trip_bound, usdc_amount, usdc_amount_for,
};
use crate::records::{byte_len, Admin, Asset, Vault, MAX_NAME_LEN, MAX_TICKER_LEN};
use crate::token::{total_credit, total_issue, TokenCall, TokenInstruction, VaultSigner};

verus! {

/// What `initialize` works on.
#[derive(Clone, Copy, Debug, PartialEq, Eq)]
pub struct Initialize {
    /// The administrator record to fill.
    pub admin: Admin,
    /// The caller, who becomes the administrator.
    pub authority: Identity,
}

/// What `create_asset` works on.
#[derive(Clone, Debug, PartialEq, Eq)]
pub struct CreateAsset {
    /// The asset record to fill.
    pub asset: Asset,
    /// The vault record to fill.
    pub vault: Vault,
    /// The address of the vault record.
    pub vault_address: Identity,
    /// The mint of the asset's tokens.
    pub mint: Identity,
    /// The caller, who becomes the asset's authority.
    pub authority: Identity,
}

/// Binds the caller as the administrator.
pub fn initialize(ctx: &mut Initialize) -> (result: Result<(), ErrorCode>)
    ensures
        result is Ok,
        final(ctx).admin.authority == old(ctx).authority,
        final(ctx).authority == old(ctx).authority,
{
    ctx.admin.authority = ctx.authority;
    Ok(())
}

impl CreateAsset {
    /// The asset record that `create_asset` writes.
    pub open spec fn new_asset(self, name: String, ticker: String, price: u64) -> Asset {
        Asset {
            name,
            ticker,
            price,
            mint: self.mint,
            vault: self.vault_address,
            authority: self.authority,
        }
    }
}

/// Registers an asset and opens its vault, empty, with the given limit.
///
/// A name of more than 50 bytes is rejected, then a ticker of more than 10
/// bytes; a rejected call leaves the records as they were.
pub fn create_asset(
    ctx: &mut CreateAsset,
    name: String,
    ticker: String,
    price: u64,
    deposit_limit: u64,
) -> (result: Result<(), ErrorCode>)
    ensures
        byte_len(name@) > MAX_NAME_LEN ==> result == Err::<(), ErrorCode>(ErrorCode::NameTooLong),
        byte_len(name@) <= MAX_NAME_LEN && byte_len(ticker@) > MAX_TICKER_LEN ==> result == Err::<
            (),
            ErrorCode,
        >(ErrorCode::TickerTooLong),
        byte_len(name@) <= MAX_NAME_LEN && byte_len(ticker@) <= MAX_TICKER_LEN ==> result is Ok,
        result is Err ==> *final(ctx) == *old(ctx),
        result is Ok ==> *final(ctx) == (CreateAsset {
            asset: old(ctx).new_asset(name, ticker, price),
            vault: Vault::opened(deposit_limit),
            ..*old(ctx)
        }),
        result is Ok ==> final(ctx).asset.wf() && final(ctx).vault.within_limit(),
{
    if name.as_str().as_bytes().len() > MAX_NAME_LEN {
        return Err(ErrorCode::NameTooLong);
    }
    if ticker.as_str().as_bytes().len() > MAX_TICKER_LEN {
        return Err(ErrorCode::TickerTooLong);
    }
    ctx.asset.name = name;
    ctx.asset.ticker = ticker;
    ctx.asset.price = price;
    ctx.asset.mint = ctx.mint;
    ctx.asset.vault = ctx.vault_address;
    ctx.asset.authority = ctx.authority;
    ctx.vault.total_usdc = 0;
    ctx.vault.total_assets = 0;
    ctx.vault.deposit_limit = deposit_limit;
    Ok(())
}

/// What `deposit` works on.
#[derive(Clone, Debug, PartialEq, Eq)]
pub struct Deposit {
    /// The asset bought.
    pub asset: Asset,
    /// The asset's vault.
    pub vault: Vault,
    /// The address of the vault record, which is the mint's authority.
    pub vault_address: Identity,
    /// The mint of the asset's tokens.
    pub asset_mint: Identity,
    /// The caller's stablecoin account, which pays.
    pub user_usdc_account: Identity,
    /// The vault's stablecoin account, which holds the reserve.
    pub vault_usdc_account: Identity,
    /// The caller's asset token account, which receives the new tokens.
    pub user_asset_account: Identity,
    /// The caller.
    pub user: Identity,
    /// The token program that moves and mints.
    pub token_program: Identity,
}

impl Deposit {
    /// Whether the arithmetic of a deposit of `amount` stays within range.
    pub open spec fn defined(self, amount: u64) -> bool {
        self.vault.deposit_defined(amount, self.asset.price)
    }

    /// Whether a deposit of `amount` stays within the vault's limit.
    pub open spec fn accepted(self, amount: u64) -> bool {
        self.vault.accepts_deposit(amount)
    }

    /// The asset tokens that a deposit of `amount` buys.
    pub open spec fn minted(self, amount: u64) -> u64 {
        asset_amount_for(amount as int, self.asset.price as int) as u64
    }

    /// What an accepted deposit asks of the token program: first the caller
    /// pays `amount` into the reserve, then the tokens bought are minted to the
    /// caller.
    pub open spec fn calls(self, amount: u64) -> Seq<TokenCall> {
        seq![
            TokenCall {
                program: self.token_program,
                instruction: TokenInstruction::Transfer {
                    from: self.user_usdc_account,
                    to: self.vault_usdc_account,
                    authority: self.user,
                    amount,
                },
                signer: None,
            },
            TokenCall {
                program: self.token_program,
                instruction: TokenInstruction::MintTo {
                    mint: self.asset_mint,
                    to: self.user_asset_account,
                    authority: self.vault_address,
                    amount: self.minted(amount),
                },
                signer: None,
            },
        ]
    }

    /// The records after an accepted deposit of `amount`.
    pub open spec fn after(self, amount: u64) -> Deposit {
        Deposit { vault: self.vault.after_deposit(amount, self.asset.price), ..self }
    }

    /// The books move with the tokens: what an accepted deposit adds to the
    /// reserve is what its calls bring into the vault's stablecoin account, and
    /// what it adds to the issue is what they mint. The caller's accounts are
    /// other accounts than the vault's.
    pub proof fn lemma_books_match(self, amount: u64)
        requires
            self.defined(amount),
            self.accepted(amount),
            self.user_usdc_account != self.vault_usdc_account,
            self.user_asset_account != self.vault_usdc_account,
        ensures
            total_credit(self.calls(amount), self.vault_usdc_account) == self.after(
                amount,
            ).vault.total_usdc - self.vault.total_usdc,
            total_issue(self.calls(amount), self.asset_mint) == self.after(
                amount,
            ).vault.total_assets - self.vault.total_assets,
    {
        let calls = self.calls(amount);
        assert(calls.drop_last().drop_last() =~= Seq::<TokenCall>::empty());
        assert(calls.drop_last().last() == calls[0]);
        reveal_with_fuel(total_credit, 3);
        reveal_with_fuel(total_issue, 3);
        lemma_round_trip_bound(amount as int, self.asset.price as int);
    }

    /// Tells whether the arithmetic of a deposit of `amount` stays within
    /// range, which `deposit` requires.
    pub fn is_defined(&self, amount: u64) -> (ok: bool)
        ensures
            ok == self.defined(amount),
    {
        match self.vault.total_usdc.checked_add(amount) {
            None => false,
            Some(new_total) => {
                if new_total > self.vault.deposit_limit {
                    true
                } else {
                    match asset_amount(amount, self.asset.price) {
                        None => false,
                        Some(minted) => self.vault.total_assets.checked_add(minted).is_some(),
                    }
                }
            },
        }
    }
}

/// Takes `amount` stablecoin units into the reserve and issues the asset
/// tokens that they buy at the asset's price, rounded down.
///
/// A deposit that would lift the reserve above the vault's limit is rejected
/// and changes nothing. An accepted one adds `amount` to the reserve and the
/// tokens bought to the issue, and returns the requests to the token program.
pub fn deposit(ctx: &mut Deposit, amount: u64) -> (result: Result<Vec<TokenCall>, ErrorCode>)
    requires
        old(ctx).defined(amount),
    ensures
        result is Ok <==> old(ctx).accepted(amount),
        result matches Ok(calls) ==> calls@ == old(ctx).calls(amount),
        result is Ok ==> *final(ctx) == old(ctx).after(amount),
        result is Ok ==> final(ctx).vault.total_usdc == old(ctx).vault.total_usdc + amount,
        result is Ok ==> final(ctx).vault.total_assets == old(ctx).vault.total_assets
            + asset_amount_for(amount as int, old(ctx).asset.price as int),
        result is Ok ==> final(ctx).vault.within_limit(),
        result matches Err(e) ==> e == ErrorCode::DepositLimitExceeded && *final(ctx) == *old(ctx),
{
    let new_total: u64 = ctx.vault.total_usdc + amount;
    if new_total > ctx.vault.deposit_limit {
        return Err(ErrorCode::DepositLimitExceeded);
    }
    let bought: Option<u64> = asset_amount(amount, ctx.asset.price);
    let minted: u64 = bought.unwrap();
    let mut calls: Vec<TokenCall> = Vec::new();
    calls.push(
        TokenCall {
            program: ctx.token_program,
            instruction: TokenInstruction::Transfer {
                from: ctx.user_usdc_account,
                to: ctx.vault_usdc_account,
                authority: ctx.user,
                amount,
            },
            signer: None,
        },
    );
    calls.push(
        TokenCall {
            program: ctx.token_program,
            instruction: TokenInstruction::MintTo {
                mint: ctx.asset_mint,
                to: ctx.user_asset_account,
                authority: ctx.vault_address,
                amount: minted,
            },
            signer: None,
        },
    );
    assert(calls@ =~= old(ctx).calls(amount));
    ctx.vault.total_usdc = new_total;
    ctx.vault.total_assets = ctx.vault.total_assets + minted;
    Ok(calls)
}

/// What `redeem` works on.
#[derive(Clone, Debug, PartialEq, Eq)]
pub struct Redeem {
    /// The asset sold back.
    pub asset: Asset,
    /// The asset's vault.
    pub vault: Vault,
    /// The address of the vault record, which owns the reserve account.
    pub vault_address: Identity,
    /// The bump with which the vault's address was derived.
    pub vault_bump: u8,
    /// The mint of the asset's tokens.
    pub asset_mint: Identity,
    /// The caller's stablecoin account, which is paid.
    pub user_usdc_account: Identity,
    /// The vault's stablecoin account, which holds the reserve.
    pub vault_usdc_account: Identity,
    /// The caller's asset token account, which gives up the tokens.
    pub user_asset_account: Identity,
    /// The caller.
    pub user: Identity,
    /// The token program that burns and moves.
    pub token_program: Identity,
}

impl Redeem {
    /// Whether the arithmetic of redeeming `amount` stays within range.
    pub open spec fn defined(self, amount: u64) -> bool {
        self.vault.redeem_defined(amount, self.asset.price)
    }

    /// The stablecoin units paid for `amount` asset tokens.
    pub open spec fn paid(self, amount: u64) -> u64 {
        usdc_amount_for(amount as int, self.asset.price as int) as u64
    }

    /// What redeeming asks of the token program: first the caller's tokens are
    /// burnt, then the vault pays the caller from the reserve, signing for
    /// itself.
    pub open spec fn calls(self, amount: u64) -> Seq<TokenCall> {
        seq![
            TokenCall {
                program: self.token_program,
                instruction: TokenInstruction::Burn {
                    mint: self.asset_mint,
                    from: self.user_asset_account,
                    authority: self.user,
                    amount,
                },
                signer: None,
            },
            TokenCall {
                program: self.token_program,
                instruction: TokenInstruction::Transfer {
                    from: self.vault_usdc_account,
                    to: self.user_usdc_account,
                    authority: self.vault_address,
                    amount: self.paid(amount),
                },
                signer: Some(VaultSigner { mint: self.asset.mint, bump: self.vault_bump }),
            },
        ]
    }

    /// The records after `amount` asset tokens were redeemed.
    pub open spec fn after(self, amount: u64) -> Redeem {
        Redeem { vault: self.vault.after_redeem(amount, self.asset.price), ..self }
    }

    /// The books move with the tokens: what redeeming takes from the reserve
    /// is what its calls take out of the vault's stablecoin account, and what
    /// it takes from the issue is what they burn. The caller's accounts are
    /// other accounts than the vault's.
    pub proof fn lemma_books_match(self, amount: u64)
        requires
            self.defined(amount),
            self.user_usdc_account != self.vault_usdc_account,
            self.user_asset_account != self.vault_usdc_account,
        ensures
            total_credit(self.calls(amount), self.vault_usdc_account) == self.after(
                amount,
            ).vault.total_usdc - self.vault.total_usdc,
            total_issue(self.calls(amount), self.asset_mint) == self.after(
                amount,
            ).vault.total_assets - self.vault.total_assets,
    {
        let calls = self.calls(amount);
        assert(calls.drop_last().drop_last() =~= Seq::<TokenCall>::empty());
        assert(calls.drop_last().last() == calls[0]);
        reveal_with_fuel(total_credit, 3);
        reveal_with_fuel(total_issue, 3);
        assert(0 <= usdc_amount_for(amount as int, self.asset.price as int)) by (nonlinear_arith)
            requires
                amount >= 0,
                self.asset.price >= 0,
                usdc_amount_for(amount as int, self.asset.price as int) == (amount
                    * self.asset.price) / 1_000_000,
        ;
    }

    /// Tells whether the arithmetic of redeeming `amount` stays within range,
    /// which `redeem` requires.
    pub fn is_defined(&self, amount: u64) -> (ok: bool)
        ensures
            ok == self.defined(amount),
    {
        match usdc_amount(amount, self.asset.price) {
            None => false,
            Some(paid) => paid <= self.vault.total_usdc && amount <= self.vault.total_assets,
        }
    }
}

/// Takes back `amount` asset tokens and pays their price from the reserve,
/// rounded down.
///
/// Takes the payout from the reserve and the tokens from the issue, and
/// returns the requests to the token program. Whether the caller holds the
/// tokens is for the token program to say.
pub fn redeem(ctx: &mut Redeem, amount: u64) -> (result: Result<Vec<TokenCall>, ErrorCode>)
    requires
        old(ctx).defined(amount),
    ensures
        result matches Ok(calls) && calls@ == old(ctx).calls(amount),
        *final(ctx) == old(ctx).after(amount),
        final(ctx).vault.total_usdc == old(ctx).vault.total_usdc - usdc_amount_for(
            amount as int,
            old(ctx).asset.price as int,
        ),
        final(ctx).vault.total_assets == old(ctx).vault.total_assets - amount,
        old(ctx).vault.within_limit() ==> final(ctx).vault.within_limit(),
{
    let priced: Option<u64> = usdc_amount(amount, ctx.asset.price);
    let paid: u64 = priced.unwrap();
    let mut calls: Vec<TokenCall> = Vec::new();
    calls.push(
        TokenCall {
            program: ctx.token_program,
            instruction: TokenInstruction::Burn {
                mint: ctx.asset_mint,
                from: ctx.user_asset_account,
                authority: ctx.user,
                amount,
            },
            signer: None,
        },
    );
    calls.push(
        TokenCall {
            program: ctx.token_program,
            instruction: TokenInstruction::Transfer {
                from: ctx.vault_usdc_account,
                to: ctx.user_usdc_account,
                authority: ctx.vault_address,
                amount: paid,
            },
            signer: Some(VaultSigner { mint: ctx.asset.mint, bump: ctx.vault_bump }),
        },
    );
    assert(calls@ =~= old(ctx).calls(amount));
    ctx.vault.total_usdc = ctx.vault.total_usdc - paid;
    ctx.vault.total_assets = ctx.vault.total_assets - amount;
    Ok(calls)
}

/// What `admin_withdraw` works on.
#[derive(Clone, Debug, PartialEq, Eq)]
pub struct AdminWithdraw {
    /// The administrator record.
    pub admin: Admin,
    /// The asset whose reserve is drawn on.
    pub asset: Asset,
    /// The asset's vault.
    pub vault: Vault,
    /// The address of the vault record, which owns the reserve account.
    pub vault_address: Identity,
    /// The bump with which the vault's address was derived.
    pub vault_bump: u8,
    /// The vault's stablecoin account, which holds the reserve.
    pub vault_usdc_account: Identity,
    /// The stablecoin account that the administrator names, which is paid.
    pub admin_usdc_account: Identity,
    /// The caller.
    pub authority: Identity,
    /// The token program that moves.
    pub token_program: Identity,
}

impl AdminWithdraw {
    /// Whether the caller is the administrator.
    pub open spec fn authorized(self) -> bool {
        self.admin.authority == self.authority
    }

    /// Whether the arithmetic of withdrawing `amount` stays within range: the
    /// reserve covers what an authorized caller withdraws.
    pub open spec fn defined(self, amount: u64) -> bool {
        self.authorized() ==> self.vault.withdrawal_defined(amount)
    }

    /// What an authorized withdrawal asks of the token program: the vault pays
    /// `amount` from the reserve, signing for itself.
    pub open spec fn calls(self, amount: u64) -> Seq<TokenCall> {
        seq![
            TokenCall {
                program: self.token_program,
                instruction: TokenInstruction::Transfer {
                    from: self.vault_usdc_account,
                    to: self.admin_usdc_account,
                    authority: self.vault_address,
                    amount,
                },
                signer: Some(VaultSigner { mint: self.asset.mint, bump: self.vault_bump }),
            },
        ]
    }

    /// The records after an authorized withdrawal of `amount`.
    pub open spec fn after(self, amount: u64) -> AdminWithdraw {
        AdminWithdraw { vault: self.vault.after_withdrawal(amount), ..self }
    }

    /// The books move with the tokens: what an authorized withdrawal takes
    /// from the reserve is what its call takes out of the vault's stablecoin
    /// account, and it neither mints nor burns. The account paid is another
    /// account than the vault's.
    pub proof fn lemma_books_match(self, amount: u64, mint: Identity)
        requires
            self.defined(amount),
            self.authorized(),
            self.admin_usdc_account != self.vault_usdc_account,
        ensures
            total_credit(self.calls(amount), self.vault_usdc_account) == self.after(
                amount,
            ).vault.total_usdc - self.vault.total_usdc,
            total_issue(self.calls(amount), mint) == 0,
            self.after(amount).vault.total_assets == self.vault.total_assets,
    {
        let calls = self.calls(amount);
        assert(calls.drop_last() =~= Seq::<TokenCall>::empty());
        reveal_with_fuel(total_credit, 2);
        reveal_with_fuel(total_issue, 2);
    }

    /// Tells whether the arithmetic of withdrawing `amount` stays within range,
    /// which `admin_withdraw` requires.
    pub fn is_defined(&self, amount: u64) -> (ok: bool)
        ensures
            ok == self.defined(amount),
    {
        !self.admin.authority.same_as(&self.authority) || amount <= self.vault.total_usdc
    }
}

/// Pays `amount` stablecoin units from the reserve to the account that the
/// administrator names.
///
/// A caller other than the administrator is rejected, and nothing changes. An
/// authorized withdrawal takes `amount` from the reserve and leaves the issue
/// as it is, and returns the request to the token program.
pub fn admin_withdraw(ctx: &mut AdminWithdraw, amount: u64) -> (result: Result<
    Vec<TokenCall>,
    ErrorCode,
>)
    requires
        old(ctx).defined(amount),
    ensures
        result is Ok <==> old(ctx).authorized(),
        result matches Ok(calls) ==> calls@ == old(ctx).calls(amount),
        result is Ok ==> *final(ctx) == old(ctx).after(amount),
        result is Ok ==> final(ctx).vault.total_usdc == old(ctx).vault.total_usdc - amount,
        result is Ok ==> final(ctx).vault.total_assets == old(ctx).vault.total_assets,
        old(ctx).vault.within_limit() ==> final(ctx).vault.within_limit(),
        result matches Err(e) ==> e == ErrorCode::Unauthorized && *final(ctx) == *old(ctx),
{
    if !ctx.admin.authority.same_as(&ctx.authority) {
        return Err(ErrorCode::Unauthorized);
    }
    let mut calls: Vec<TokenCall> = Vec::new();
    calls.push(
        TokenCall {
            program: ctx.token_program,
            instruction: TokenInstruction::Transfer {
                from: ctx.vault_usdc_account,
                to: ctx.admin_usdc_account,
                authority: ctx.vault_address,
                amount,
            },
            signer: Some(VaultSigner { mint: ctx.asset.mint, bump: ctx.vault_bump }),
        },
    );
    assert(calls@ =~= old(ctx).calls(amount));
    ctx.vault.total_usdc = ctx.vault.total_usdc - amount;
    Ok(calls)
}

} // verus!
