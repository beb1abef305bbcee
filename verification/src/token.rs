use vstd::prelude::*;
use crate::identity::Identity;

verus! {

/// The tag that opens the seeds of every vault address: the bytes of "vault".
pub const VAULT_TAG: [u8; 5] = [0x76, 0x61, 0x75, 0x6c, 0x74];

/// The vault signing for itself. A vault has no key of its own: the host
/// accepts its signature from the seeds that its address was derived from.
#[derive(Clone, Copy, Debug, PartialEq, Eq)]
pub struct VaultSigner {
    /// The mint of the asset that the vault backs.
    pub mint: Identity,
    /// The bump with which the vault's address was derived.
    pub bump: u8,
}

impl VaultSigner {
    /// The seeds of the vault's address: the tag, the mint, the bump.
    pub open spec fn spec_seeds(self) -> Seq<Seq<u8>> {
        seq![VAULT_TAG@, self.mint@, seq![self.bump]]
    }

    /// The seeds to hand to the host with a call that the vault signs.
    pub fn seeds(&self) -> (seeds: Vec<Vec<u8>>)
        ensures
            seeds@.len() == self.spec_seeds().len(),
            forall|i: int| 0 <= i < seeds@.len() ==> (#[trigger] seeds@[i])@ == self.spec_seeds()[i],
    {
        let mut tag: Vec<u8> = Vec::new();
        let mut i: usize = 0;
        while i < 5
            invariant
                i <= 5,
                tag@ == VAULT_TAG@.subrange(0, i as int),
            decreases 5 - i,
        {
            tag.push(VAULT_TAG[i]);
            assert(tag@ =~= VAULT_TAG@.subrange(0, i + 1));
            i += 1;
        }
        assert(tag@ =~= VAULT_TAG@);
        let mut mint: Vec<u8> = Vec::new();
        let mut j: usize = 0;
        while j < 32
            invariant
                j <= 32,
                mint@ == self.mint@.subrange(0, j as int),
            decreases 32 - j,
        {
            mint.push(self.mint.bytes[j]);
            assert(mint@ =~= self.mint@.subrange(0, j + 1));
            j += 1;
        }
        assert(mint@ =~= self.mint@);
        let mut bump: Vec<u8> = Vec::new();
        bump.push(self.bump);
        assert(bump@ =~= seq![self.bump]);
        let mut seeds: Vec<Vec<u8>> = Vec::new();
        seeds.push(tag);
        seeds.push(mint);
        seeds.push(bump);
        seeds
    }
}

/// One request to the token program.
#[derive(Clone, Copy, Debug, PartialEq, Eq)]
pub enum TokenInstruction {
    /// Move `amount` units from one token account to another.
    Transfer { from: Identity, to: Identity, authority: Identity, amount: u64 },
    /// Create `amount` units of `mint` in the token account `to`.
    MintTo { mint: Identity, to: Identity, authority: Identity, amount: u64 },
    /// Destroy `amount` units of `mint` held in the token account `from`.
    Burn { mint: Identity, from: Identity, authority: Identity, amount: u64 },
}

impl TokenInstruction {
    /// The number of units that the request moves, creates or destroys.
    pub open spec fn spec_amount(self) -> u64 {
        match self {
            TokenInstruction::Transfer { amount, .. } => amount,
            TokenInstruction::MintTo { amount, .. } => amount,
            TokenInstruction::Burn { amount, .. } => amount,
        }
    }

    /// The units that the request adds to the token account `account`: what a
    /// transfer or a mint brings in, less what a transfer or a burn takes out.
    pub open spec fn credit(self, account: Identity) -> int {
        match self {
            TokenInstruction::Transfer { from, to, amount, .. } => {
                (if to == account { amount as int } else { 0 })
                    - (if from == account { amount as int } else { 0 })
            },
            TokenInstruction::MintTo { to, amount, .. } => {
                if to == account { amount as int } else { 0 }
            },
            TokenInstruction::Burn { from, amount, .. } => {
                if from == account { -(amount as int) } else { 0 }
            },
        }
    }

    /// The units that the request adds to the supply of `mint`: what is minted,
    /// less what is burnt.
    pub open spec fn issue(self, mint: Identity) -> int {
        match self {
            TokenInstruction::Transfer { .. } => 0,
            TokenInstruction::MintTo { mint: minted, amount, .. } => {
                if minted == mint { amount as int } else { 0 }
            },
            TokenInstruction::Burn { mint: burnt, amount, .. } => {
                if burnt == mint { -(amount as int) } else { 0 }
            },
        }
    }

    /// The number of units that the request moves, creates or destroys.
    pub fn amount(&self) -> (amount: u64)
        ensures
            amount == self.spec_amount(),
    {
        match self {
            TokenInstruction::Transfer { amount, .. } => *amount,
            TokenInstruction::MintTo { amount, .. } => *amount,
            TokenInstruction::Burn { amount, .. } => *amount,
        }
    }
}

/// A request addressed to a token program, and who signs it besides the
/// caller. The engine decides the requests of an operation; its caller carries
/// them out, in order, and gives the operation up as a whole if one fails.
#[derive(Clone, Copy, Debug, PartialEq, Eq)]
pub struct TokenCall {
    /// The token program that is to carry out the request.
    pub program: Identity,
    pub instruction: TokenInstruction,
    /// Present where the vault signs for an account of its own.
    pub signer: Option<VaultSigner>,
}

/// The units that the calls together add to the token account `account`.
pub open spec fn total_credit(calls: Seq<TokenCall>, account: Identity) -> int
    decreases calls.len(),
{
    if calls.len() == 0 {
        0
    } else {
        total_credit(calls.drop_last(), account) + calls.last().instruction.credit(account)
    }
}

/// The units that the calls together add to the supply of `mint`.
pub open spec fn total_issue(calls: Seq<TokenCall>, mint: Identity) -> int
    decreases calls.len(),
{
    if calls.len() == 0 {
        0
    } else {
        total_issue(calls.drop_last(), mint) + calls.last().instruction.issue(mint)
    }
}

} // verus!
