use synchrony_vc::associated::{
    get_associated_vesting_address, get_associated_vesting_address_and_bump_seed,
    AssociatedVestingIx, CreatePlan, Processor,
};
use synchrony_vc::associated::plan_pda_account;
use synchrony_vc::error::ErrorCode;
use synchrony_vc::keys::Pubkey;
use synchrony_vc::metadata;
use synchrony_vc::state::STATE_LEN;

fn key(n: u8) -> Pubkey {
    Pubkey([n; 32])
}

#[test]
fn associated_address_matches_the_ledger_sdk() {
    let wallet = key(1);
    let mint = key(2);
    let program_id = key(3);
    let vesting_program = key(4);
    let (addr, bump) =
        get_associated_vesting_address_and_bump_seed(&wallet, &mint, &program_id, &vesting_program)
            .unwrap();
    let (exp_addr, exp_bump) = solana_program::pubkey::Pubkey::find_program_address(
        &[&wallet.0, &vesting_program.0, &mint.0],
        &solana_program::pubkey::Pubkey::new_from_array(program_id.0),
    );
    assert_eq!(addr.0, exp_addr.to_bytes());
    assert_eq!(bump, exp_bump);
    let addr_only =
        get_associated_vesting_address(&wallet, &mint, &program_id, &vesting_program).unwrap();
    assert_eq!(addr_only, addr);
}

#[test]
fn associated_ix_decoding() {
    assert_eq!(AssociatedVestingIx::unpack(&vec![]), Ok(AssociatedVestingIx::Create));
    assert_eq!(AssociatedVestingIx::unpack(&vec![0]), Ok(AssociatedVestingIx::Create));
    assert_eq!(AssociatedVestingIx::unpack(&vec![1]), Err(ErrorCode::InvalidInstruction));
}

#[test]
fn pda_creation_plans() {
    assert_eq!(
        plan_pda_account(0, 1_000, 242),
        CreatePlan::CreateAccount { lamports: 1_000, space: 242 }
    );
    assert_eq!(plan_pda_account(0, 0, 242), CreatePlan::CreateAccount { lamports: 1, space: 242 });
    assert_eq!(
        plan_pda_account(300, 1_000, 242),
        CreatePlan::TopUp { transfer_amount: 700, space: 242 }
    );
    assert_eq!(
        plan_pda_account(2_000, 1_000, 242),
        CreatePlan::TopUp { transfer_amount: 0, space: 242 }
    );
}

#[test]
fn associated_create_checks_address_and_owner() {
    let wallet = key(1);
    let mint = key(2);
    let program_id = key(3);
    let vesting_program = key(4);
    let (addr, bump) =
        get_associated_vesting_address_and_bump_seed(&wallet, &mint, &program_id, &vesting_program)
            .unwrap();
    let system_program = Pubkey([0u8; 32]);

    let ok = Processor::process_create_associated_vesting_account(
        &program_id,
        &wallet,
        &mint,
        &addr,
        &system_program,
        &vesting_program,
        0,
        5_000,
    )
    .unwrap();
    assert_eq!(ok.0, bump);
    assert_eq!(ok.1, CreatePlan::CreateAccount { lamports: 5_000, space: STATE_LEN as u64 });

    let wrong_addr = Processor::process_create_associated_vesting_account(
        &program_id,
        &wallet,
        &mint,
        &key(9),
        &system_program,
        &vesting_program,
        0,
        5_000,
    );
    assert_eq!(wrong_addr, Err(ErrorCode::InvalidSeeds));

    let wrong_owner = Processor::process_create_associated_vesting_account(
        &program_id,
        &wallet,
        &mint,
        &addr,
        &key(9),
        &vesting_program,
        0,
        5_000,
    );
    assert_eq!(wrong_owner, Err(ErrorCode::IllegalOwner));
}

#[test]
fn metadata_create_and_update_write_the_record() {
    let ctx = metadata::IxCtx {
        authority: key(1),
        vault: key(2),
        duration: 60,
        apr: 9,
        withdrawal_timelock: 120,
        early_withdrawal_fee: 2,
        lifetime: 9_999,
    };
    let mut data = vec![0u8; 105];
    metadata::Processor::process_create(&ctx, &mut data).unwrap();
    let state = metadata::MetadataState::unpack_from_slice(&data).unwrap();
    assert!(state.is_initialized());
    assert_eq!(state.authority, ctx.authority);
    assert_eq!(state.lifetime, 9_999);

    let mut short = vec![0u8; 10];
    assert_eq!(
        metadata::Processor::process_create(&ctx, &mut short),
        Err(metadata::ErrorCode::InvalidInstruction)
    );
    assert_eq!(short, vec![0u8; 10]);

    // Closure is not provided: a Delete record is rejected.
    let record = metadata::MetadataInstruction::Delete(ctx).pack();
    assert_eq!(
        metadata::Processor::process(&record, &mut data),
        Err(metadata::ErrorCode::InvalidInstruction)
    );

    let update_record = metadata::MetadataInstruction::Update(ctx).pack();
    metadata::Processor::process(&update_record, &mut data).unwrap();
    assert_eq!(metadata::ErrorCode::type_of(), "Metadata Error");
    assert_eq!(metadata::ErrorCode::RemainingBalance.message(), "Account has remaining balance.");
}
