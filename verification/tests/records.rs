use solana4626::error::ErrorCode;
use solana4626::identity::Identity;
use solana4626::records::{Admin, Asset, Vault, MAX_NAME_LEN, MAX_TICKER_LEN};
use solana4626::token::{TokenInstruction, VaultSigner, VAULT_TAG};

fn identity_of(byte: u8) -> Identity {
    Identity { bytes: [byte; 32] }
}

#[test]
fn identity_equals_itself() {
    let a: Identity = identity_of(7);
    let b: Identity = identity_of(7);
    assert!(a.same_as(&a));
    assert!(a.same_as(&b));
    assert!(b.same_as(&a));
}

#[test]
fn identity_differs_in_any_byte() {
    let a: Identity = identity_of(7);
    for i in 0..32usize {
        let mut b: Identity = a;
        b.bytes[i] = 8;
        assert!(!a.same_as(&b), "byte {i}");
        assert!(!b.same_as(&a), "byte {i}");
    }
}

#[test]
fn identity_same_as_agrees_with_equality() {
    let a: Identity = identity_of(0);
    let mut b: Identity = identity_of(0);
    assert_eq!(a.same_as(&b), a == b);
    b.bytes[31] = 1;
    assert_eq!(a.same_as(&b), a == b);
}

#[test]
fn record_sizes() {
    assert_eq!(Admin::LEN, 32);
    assert_eq!(Asset::LEN, 164);
    assert_eq!(Asset::LEN, 50 + 10 + 8 + 32 + 32 + 32);
    assert_eq!(Vault::LEN, 24);
}

#[test]
fn text_limits() {
    assert_eq!(MAX_NAME_LEN, 50);
    assert_eq!(MAX_TICKER_LEN, 10);
}

#[test]
fn error_messages() {
    assert_eq!(ErrorCode::NameTooLong.message(), "Name is too long");
    assert_eq!(ErrorCode::TickerTooLong.message(), "Ticker is too long");
    assert_eq!(ErrorCode::Unauthorized.message(), "Unauthorized");
    assert_eq!(ErrorCode::DepositLimitExceeded.message(), "Deposit would exceed limit");
}

#[test]
fn vault_tag_spells_vault() {
    assert_eq!(&VAULT_TAG, b"vault");
}

#[test]
fn vault_signer_seeds_are_tag_mint_bump() {
    let mut mint: Identity = identity_of(0);
    for i in 0..32usize {
        mint.bytes[i] = i as u8;
    }
    let signer: VaultSigner = VaultSigner { mint, bump: 254 };
    let seeds: Vec<Vec<u8>> = signer.seeds();
    assert_eq!(seeds.len(), 3);
    assert_eq!(seeds[0], b"vault".to_vec());
    assert_eq!(seeds[1], mint.bytes.to_vec());
    assert_eq!(seeds[1].len(), 32);
    assert_eq!(seeds[2], vec![254u8]);
}

#[test]
fn token_instruction_amounts() {
    let a: Identity = identity_of(1);
    let b: Identity = identity_of(2);
    let c: Identity = identity_of(3);
    assert_eq!(TokenInstruction::Transfer { from: a, to: b, authority: c, amount: 11 }.amount(), 11);
    assert_eq!(TokenInstruction::MintTo { mint: a, to: b, authority: c, amount: 12 }.amount(), 12);
    assert_eq!(TokenInstruction::Burn { mint: a, from: b, authority: c, amount: 13 }.amount(), 13);
}
