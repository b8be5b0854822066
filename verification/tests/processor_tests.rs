use synchrony_vc::authority::{derive_address, find_derived_address, verify};
use synchrony_vc::error::ErrorCode;
use synchrony_vc::keys::Pubkey;
use synchrony_vc::processor::{
    token_program_id, AccountView, Processor, VestingAction, VestingIx,
};
use synchrony_vc::state::{unpack_releases, VestingHeader, VestingInfo, HEADER_LEN};

fn key(n: u8) -> Pubkey {
    Pubkey([n; 32])
}

/// A 32-byte seed that actually derives an address under `program_id`,
/// with the vesting account address it derives.
fn usable_seed(program_id: &Pubkey) -> (Pubkey, Pubkey) {
    let mut seed = [11u8; 32];
    for b in 0..=255u8 {
        seed[0] = b;
        let candidate = Pubkey(seed);
        if let Some(pda) = derive_address(&candidate, program_id) {
            return (candidate, pda);
        }
    }
    panic!("no usable seed found");
}

/// Packed token-account bytes in the asset program's fixed layout.
fn token_account_bytes(mint: &Pubkey, owner: &Pubkey, amount: u64, delegate: bool, close: bool) -> Vec<u8> {
    let mut data = vec![0u8; 165];
    data[0..32].copy_from_slice(&mint.0);
    data[32..64].copy_from_slice(&owner.0);
    data[64..72].copy_from_slice(&amount.to_le_bytes());
    if delegate {
        data[72] = 1;
        data[76..108].copy_from_slice(&[9u8; 32]);
    }
    data[108] = 1; // initialized
    if close {
        data[129] = 1;
        data[133..165].copy_from_slice(&[9u8; 32]);
    }
    data
}

fn releases_fixture() -> Vec<VestingInfo> {
    vec![
        VestingInfo { timestamp: 1_000, quantity: 400 },
        VestingInfo { timestamp: 2_000, quantity: 300 },
        VestingInfo { timestamp: 3_000, quantity: 300 },
    ]
}

struct Fixture {
    program_id: Pubkey,
    seed: Pubkey,
    pda: Pubkey,
    mint: Pubkey,
    beneficiary: Pubkey,
    authority: AccountView,
    vesting: AccountView,
    vesting_data: Vec<u8>,
    token_account_key: Pubkey,
    vault_key: Pubkey,
}

fn fixture() -> Fixture {
    let program_id = key(1);
    let (seed, pda) = usable_seed(&program_id);
    Fixture {
        program_id,
        seed,
        pda,
        mint: key(2),
        beneficiary: key(3),
        authority: AccountView { key: key(4), owner: key(0), is_signer: true },
        vesting: AccountView { key: pda, owner: program_id, is_signer: false },
        vesting_data: vec![0u8; HEADER_LEN + 3 * 12],
        token_account_key: key(5),
        vault_key: key(6),
    }
}

/// Runs Create on the fixture and returns the written account data.
fn created_fixture() -> (Fixture, Vec<u8>) {
    let f = fixture();
    let mut data = f.vesting_data.clone();
    let vault = token_account_bytes(&f.mint, &f.pda, 0, false, false);
    let funding = token_account_bytes(&f.mint, &f.authority.key, 10_000, false, false);
    let transfer = Processor::process_create_vesting(
        &f.program_id,
        &f.authority,
        &f.token_account_key,
        &funding,
        &f.vesting,
        &mut data,
        &f.vault_key,
        &vault,
        &f.seed,
        f.mint,
        f.beneficiary,
        &releases_fixture(),
    )
    .unwrap();
    assert_eq!(transfer.amount, 1_000);
    assert_eq!(transfer.from, f.token_account_key);
    assert_eq!(transfer.to, f.vault_key);
    (f, data)
}

#[test]
fn verify_recomputes_the_address() {
    let program_id = key(1);
    let (seed, pda) = usable_seed(&program_id);
    assert!(verify(&pda, &seed, &program_id));
    assert!(!verify(&key(9), &seed, &program_id));
}

#[test]
fn init_sizes_the_account() {
    let f = fixture();
    let action =
        Processor::process_init(&f.program_id, &f.authority.key, &f.pda, &f.seed, 24).unwrap();
    assert_eq!(action.size, 65 + 24 * 12);
    assert_eq!(action.new_address, f.pda);
    assert_eq!(action.owner, f.program_id);

    let wrong = Processor::process_init(&f.program_id, &f.authority.key, &key(9), &f.seed, 24);
    assert_eq!(wrong, Err(ErrorCode::InvalidSeeds));
}

#[test]
fn create_writes_header_and_schedule() {
    let (f, data) = created_fixture();
    assert_eq!(data.len(), f.vesting_data.len());
    let header = VestingHeader::unpack(&data).unwrap();
    assert!(header.is_initialized);
    assert_eq!(header.mint, f.mint);
    assert_eq!(header.beneficiary, f.beneficiary);
    assert_eq!(unpack_releases(&data, HEADER_LEN).unwrap(), releases_fixture());
}

#[test]
fn create_rejects_foreign_vault_owner() {
    // The vault belongs to some other wallet: nothing is written and
    // nothing moves.
    let f = fixture();
    let mut data = f.vesting_data.clone();
    let vault = token_account_bytes(&f.mint, &key(9), 0, false, false);
    let funding = token_account_bytes(&f.mint, &f.authority.key, 10_000, false, false);
    let r = Processor::process_create_vesting(
        &f.program_id,
        &f.authority,
        &f.token_account_key,
        &funding,
        &f.vesting,
        &mut data,
        &f.vault_key,
        &vault,
        &f.seed,
        f.mint,
        f.beneficiary,
        &releases_fixture(),
    );
    assert_eq!(r, Err(ErrorCode::InvalidVaultOwner));
    assert_eq!(data, f.vesting_data);
}

#[test]
fn create_rejects_vault_with_delegate_or_close_authority() {
    let f = fixture();
    let funding = token_account_bytes(&f.mint, &f.authority.key, 10_000, false, false);
    for (delegate, close) in [(true, false), (false, true)] {
        let mut data = f.vesting_data.clone();
        let vault = token_account_bytes(&f.mint, &f.pda, 0, delegate, close);
        let r = Processor::process_create_vesting(
            &f.program_id,
            &f.authority,
            &f.token_account_key,
            &funding,
            &f.vesting,
            &mut data,
            &f.vault_key,
            &vault,
            &f.seed,
            f.mint,
            f.beneficiary,
            &releases_fixture(),
        );
        assert_eq!(r, Err(ErrorCode::InvalidVaultAmount));
        assert_eq!(data, f.vesting_data);
    }
}

#[test]
fn create_rejects_insufficient_funding() {
    let f = fixture();
    let mut data = f.vesting_data.clone();
    let vault = token_account_bytes(&f.mint, &f.pda, 0, false, false);
    let funding = token_account_bytes(&f.mint, &f.authority.key, 999, false, false);
    let r = Processor::process_create_vesting(
        &f.program_id,
        &f.authority,
        &f.token_account_key,
        &funding,
        &f.vesting,
        &mut data,
        &f.vault_key,
        &vault,
        &f.seed,
        f.mint,
        f.beneficiary,
        &releases_fixture(),
    );
    assert_eq!(r, Err(ErrorCode::InsufficientFunds));
    assert_eq!(data, f.vesting_data);
}

#[test]
fn create_rejects_unsigned_authority_and_repeat() {
    let f = fixture();
    let vault = token_account_bytes(&f.mint, &f.pda, 0, false, false);
    let funding = token_account_bytes(&f.mint, &f.authority.key, 10_000, false, false);

    let mut data = f.vesting_data.clone();
    let unsigned = AccountView { is_signer: false, ..f.authority };
    let r = Processor::process_create_vesting(
        &f.program_id,
        &unsigned,
        &f.token_account_key,
        &funding,
        &f.vesting,
        &mut data,
        &f.vault_key,
        &vault,
        &f.seed,
        f.mint,
        f.beneficiary,
        &releases_fixture(),
    );
    assert_eq!(r, Err(ErrorCode::Unauthorized));

    // Repeating Create on the written account observes the
    // initialization flag and is rejected.
    let (_, mut written) = created_fixture();
    let r = Processor::process_create_vesting(
        &f.program_id,
        &f.authority,
        &f.token_account_key,
        &funding,
        &f.vesting,
        &mut written,
        &f.vault_key,
        &vault,
        &f.seed,
        f.mint,
        f.beneficiary,
        &releases_fixture(),
    );
    assert_eq!(r, Err(ErrorCode::AlreadyInitialized));
}

#[test]
fn create_rejects_foreign_account_owner_and_bad_size() {
    let f = fixture();
    let vault = token_account_bytes(&f.mint, &f.pda, 0, false, false);
    let funding = token_account_bytes(&f.mint, &f.authority.key, 10_000, false, false);

    // The vesting account is owned by another program.
    let mut data = f.vesting_data.clone();
    let foreign = AccountView { owner: key(9), ..f.vesting };
    let r = Processor::process_create_vesting(
        &f.program_id,
        &f.authority,
        &f.token_account_key,
        &funding,
        &foreign,
        &mut data,
        &f.vault_key,
        &vault,
        &f.seed,
        f.mint,
        f.beneficiary,
        &releases_fixture(),
    );
    assert_eq!(r, Err(ErrorCode::IllegalOwner));

    // The account was sized for a different schedule.
    let mut short = vec![0u8; HEADER_LEN + 12];
    let r = Processor::process_create_vesting(
        &f.program_id,
        &f.authority,
        &f.token_account_key,
        &funding,
        &f.vesting,
        &mut short,
        &f.vault_key,
        &vault,
        &f.seed,
        f.mint,
        f.beneficiary,
        &releases_fixture(),
    );
    assert_eq!(r, Err(ErrorCode::InvalidSchedule));
}

#[test]
fn unlock_rejects_account_without_schedule() {
    // Init has allocated the account but Create has not run: the header
    // is still uninitialized.
    let f = fixture();
    let mut data = f.vesting_data.clone();
    assert_eq!(unlock_at(&f, &mut data, 2_500), Err(ErrorCode::UnrealizedVesting));
    assert_eq!(data, f.vesting_data);
}

#[test]
fn create_rejects_overflowing_schedule() {
    let f = fixture();
    let mut data = vec![0u8; HEADER_LEN + 2 * 12];
    let vault = token_account_bytes(&f.mint, &f.pda, 0, false, false);
    let funding = token_account_bytes(&f.mint, &f.authority.key, 10_000, false, false);
    let releases = vec![
        VestingInfo { timestamp: 1, quantity: u64::MAX },
        VestingInfo { timestamp: 2, quantity: 1 },
    ];
    let r = Processor::process_create_vesting(
        &f.program_id,
        &f.authority,
        &f.token_account_key,
        &funding,
        &f.vesting,
        &mut data,
        &f.vault_key,
        &vault,
        &f.seed,
        f.mint,
        f.beneficiary,
        &releases,
    );
    assert_eq!(r, Err(ErrorCode::Overflow));
}

fn unlock_at(f: &Fixture, data: &mut Vec<u8>, now: u32) -> Result<u64, ErrorCode> {
    let vault = token_account_bytes(&f.mint, &f.pda, 1_000, false, false);
    Processor::process_unlock_tokens(
        &f.program_id,
        &f.vesting,
        data,
        &f.vault_key,
        &vault,
        &f.beneficiary,
        &key(7),
        &token_program_id(),
        &f.seed,
        now,
    )
    .map(|t| t.amount)
}

#[test]
fn unlock_before_any_release_is_rejected() {
    // The clock sits before every release timestamp: the call fails and
    // no quantity changes.
    let (f, mut data) = created_fixture();
    let before = data.clone();
    assert_eq!(unlock_at(&f, &mut data, 999), Err(ErrorCode::NoEligibleRelease));
    assert_eq!(data, before);
}

#[test]
fn unlock_twice_pays_once() {
    // First call transfers the sum of the two due releases and zeroes
    // them; the second call, with no time elapsed, is rejected.
    let (f, mut data) = created_fixture();
    assert_eq!(unlock_at(&f, &mut data, 2_500), Ok(700));
    let releases = unpack_releases(&data, HEADER_LEN).unwrap();
    assert_eq!(
        releases,
        vec![
            VestingInfo { timestamp: 1_000, quantity: 0 },
            VestingInfo { timestamp: 2_000, quantity: 0 },
            VestingInfo { timestamp: 3_000, quantity: 300 },
        ]
    );
    assert_eq!(unlock_at(&f, &mut data, 2_500), Err(ErrorCode::NoEligibleRelease));
    // Later, the remaining release becomes claimable.
    assert_eq!(unlock_at(&f, &mut data, 3_000), Ok(300));
}

#[test]
fn unlock_validates_accounts() {
    let (f, mut data) = created_fixture();
    let vault = token_account_bytes(&f.mint, &f.pda, 1_000, false, false);

    // Wrong recipient.
    let r = Processor::process_unlock_tokens(
        &f.program_id,
        &f.vesting,
        &mut data,
        &f.vault_key,
        &vault,
        &key(9),
        &key(7),
        &token_program_id(),
        &f.seed,
        2_500,
    );
    assert_eq!(r.map(|t| t.amount), Err(ErrorCode::Unauthorized));

    // Wrong token program.
    let r = Processor::process_unlock_tokens(
        &f.program_id,
        &f.vesting,
        &mut data,
        &f.vault_key,
        &vault,
        &f.beneficiary,
        &key(7),
        &key(8),
        &f.seed,
        2_500,
    );
    assert_eq!(r.map(|t| t.amount), Err(ErrorCode::InvalidProgramAddress));

    // Vault owned by someone else.
    let foreign_vault = token_account_bytes(&f.mint, &key(9), 1_000, false, false);
    let r = Processor::process_unlock_tokens(
        &f.program_id,
        &f.vesting,
        &mut data,
        &f.vault_key,
        &foreign_vault,
        &f.beneficiary,
        &key(7),
        &token_program_id(),
        &f.seed,
        2_500,
    );
    assert_eq!(r.map(|t| t.amount), Err(ErrorCode::InvalidVaultOwner));
}

#[test]
fn dispatch_decodes_and_delegates() {
    let f = fixture();
    let mut data = f.vesting_data.clone();
    let vault = token_account_bytes(&f.mint, &f.pda, 0, false, false);
    let funding = token_account_bytes(&f.mint, &f.authority.key, 10_000, false, false);
    let record = VestingIx::Create {
        seed: f.seed,
        mint: f.mint,
        recipient: f.beneficiary,
        releases: releases_fixture(),
    }
    .pack();
    let r = Processor::process_instruction(
        &f.program_id,
        &f.authority,
        &f.token_account_key,
        &funding,
        &f.vesting,
        &mut data,
        &f.vault_key,
        &vault,
        &f.beneficiary,
        &key(7),
        &token_program_id(),
        &record,
        0,
    );
    match r {
        Ok(VestingAction::Transfer(t)) => assert_eq!(t.amount, 1_000),
        other => panic!("unexpected outcome: {:?}", other),
    }
    assert!(VestingHeader::unpack(&data).unwrap().is_initialized);

    let bad = Processor::process_instruction(
        &f.program_id,
        &f.authority,
        &f.token_account_key,
        &funding,
        &f.vesting,
        &mut data,
        &f.vault_key,
        &vault,
        &f.beneficiary,
        &key(7),
        &token_program_id(),
        &vec![9u8, 9u8],
        0,
    );
    assert!(matches!(bad, Err(ErrorCode::InvalidInstruction)));
}

#[test]
fn token_program_id_matches_the_asset_program() {
    // The wrapper must hand back the asset program's deployed address,
    // not anything derived from its inputs.
    assert_eq!(token_program_id().0, spl_token::id().to_bytes());
}

#[test]
fn derivation_matches_the_ledger_sdk() {
    let program_id = key(1);
    let (seed, pda) = usable_seed(&program_id);
    let expected = solana_program::pubkey::Pubkey::create_program_address(
        &[&seed.0],
        &solana_program::pubkey::Pubkey::new_from_array(program_id.0),
    )
    .unwrap();
    assert_eq!(pda.0, expected.to_bytes());

    let seeds = vec![vec![5u8; 20]];
    let found = find_derived_address(&seeds, &program_id).unwrap();
    let (exp_addr, exp_bump) = solana_program::pubkey::Pubkey::find_program_address(
        &[&[5u8; 20]],
        &solana_program::pubkey::Pubkey::new_from_array(program_id.0),
    );
    assert_eq!(found.0 .0, exp_addr.to_bytes());
    assert_eq!(found.1, exp_bump);
}

#[test]
fn error_text() {
    assert_eq!(ErrorCode::type_of(), "SCY Lockup Error");
    assert_eq!(ErrorCode::NoEligibleRelease.message(), "No vesting periods have elapsed.");
    assert_eq!(ErrorCode::InvalidVaultOwner.message(), "Invalid vault owner.");
}
