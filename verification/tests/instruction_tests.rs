use synchrony_vc::instruction::{
    create_vesting, init, set_beneficiary, withdraw, AccountMeta, VestingInstruction,
};
use synchrony_vc::keys::Pubkey;
use synchrony_vc::metadata::{self, EndpointCtx, MetadataInstruction};
use synchrony_vc::processor::{self, VestingIx};
use synchrony_vc::state::VestingInfo;

fn key(n: u8) -> Pubkey {
    let mut bytes = [n; 32];
    bytes[31] = n.wrapping_mul(3);
    Pubkey(bytes)
}

#[test]
fn test_create_api() {
    let program_id = key(1);
    let vesting = key(2);
    let vault = key(3);
    let authority = key(4);
    let token_account = key(5);
    let metadata = key(6);
    let token_program = key(7);
    let beneficiary = key(8);
    let deposit_amount = 69_420_000;
    let nonce = 42;
    let start_ts = 69_000_000;
    let end_ts = 420_000_000;
    let period_count = 690;

    let create = create_vesting(
        &program_id,
        &vesting,
        &vault,
        &authority,
        &token_account,
        &metadata,
        &token_program,
        beneficiary,
        start_ts,
        end_ts,
        period_count,
        nonce,
        deposit_amount,
    )
    .unwrap();

    let accounts = vec![
        AccountMeta::new(vesting, false),
        AccountMeta::new(vault, false),
        AccountMeta::new(authority, true),
        AccountMeta::new(token_account, false),
        AccountMeta::new_readonly(metadata, false),
        AccountMeta::new_readonly(token_program, false),
    ];

    let data = VestingInstruction::CreateVesting {
        beneficiary,
        start_ts,
        end_ts,
        period_count,
        nonce,
        amount: deposit_amount,
    }
    .pack();

    assert_eq!(create.accounts, accounts);
    assert_eq!(create.data, data);
    assert_eq!(create.program_id, program_id);
}

#[test]
fn test_withdraw_api() {
    let program_id = key(1);
    let vesting = key(2);
    let vault = key(3);
    let authority = key(4);
    let token_account = key(5);
    let metadata = key(6);
    let token_program = key(7);
    let amount = 420;

    let withdraw_ix = withdraw(
        &program_id,
        &vesting,
        &vault,
        &authority,
        &token_account,
        &metadata,
        &token_program,
        amount,
    )
    .unwrap();

    let accounts = vec![
        AccountMeta::new(vesting, false),
        AccountMeta::new(vault, false),
        AccountMeta::new(authority, true),
        AccountMeta::new(token_account, false),
        AccountMeta::new_readonly(metadata, false),
        AccountMeta::new_readonly(token_program, false),
    ];

    let data = VestingInstruction::Withdraw { amount }.pack();

    assert_eq!(withdraw_ix.accounts, accounts);
    assert_eq!(withdraw_ix.data, data);
}

#[test]
fn init_api() {
    let program_id = key(1);
    let payer = key(2);
    let vesting = key(3);
    let system_program = key(4);
    let ins = init(&program_id, &payer, &vesting, &system_program).unwrap();
    assert_eq!(
        ins.accounts,
        vec![
            AccountMeta::new(payer, true),
            AccountMeta::new(vesting, false),
            AccountMeta::new_readonly(system_program, false),
        ]
    );
    assert_eq!(ins.data, VestingInstruction::Init.pack());
}

#[test]
fn set_beneficiary_api() {
    let program_id = key(1);
    let authority = key(2);
    let new_beneficiary = key(3);
    let nb_vesting = key(4);
    let nb_token = key(5);
    let token_program = key(6);
    let ins = set_beneficiary(
        &program_id,
        &authority,
        &new_beneficiary,
        &nb_vesting,
        &nb_token,
        &token_program,
    )
    .unwrap();
    assert_eq!(
        ins.accounts,
        vec![
            AccountMeta::new(authority, true),
            AccountMeta::new(new_beneficiary, false),
            AccountMeta::new(nb_vesting, false),
            AccountMeta::new(nb_token, false),
            AccountMeta::new_readonly(token_program, false),
        ]
    );
    assert_eq!(ins.data, VestingInstruction::SetBeneficiary { new_beneficiary }.pack());
}

#[test]
fn processor_builder_apis() {
    let program_id = key(1);
    let payer = key(2);
    let vesting = key(3);
    let system_program = key(4);
    let token_account = key(5);
    let vault = key(6);
    let token_program = key(7);
    let seed = key(8);
    let mint = key(9);
    let beneficiary = key(10);
    let releases = vec![VestingInfo { timestamp: 7, quantity: 11 }];

    let init_ins =
        processor::init(&program_id, &payer, &vesting, &system_program, seed, 24).unwrap();
    assert_eq!(init_ins.data, VestingIx::Init { seed, release_count: 24 }.pack());
    assert_eq!(init_ins.accounts.len(), 3);

    let create_ins = processor::create(
        &program_id,
        &payer,
        &token_account,
        &vesting,
        &vault,
        &token_program,
        seed,
        mint,
        beneficiary,
        releases.clone(),
    )
    .unwrap();
    assert_eq!(
        create_ins.data,
        VestingIx::Create { seed, mint, recipient: beneficiary, releases }.pack()
    );
    assert_eq!(create_ins.accounts.len(), 5);

    let unlock_ins = processor::unlock(
        &program_id,
        &vesting,
        &vault,
        &beneficiary,
        &token_account,
        &token_program,
        seed,
    )
    .unwrap();
    assert_eq!(unlock_ins.data, VestingIx::Unlock { seed }.pack());
    assert_eq!(unlock_ins.accounts.len(), 5);
}

#[test]
fn metadata_endpoint_apis() {
    let ctx = EndpointCtx {
        program_id: key(1),
        tx_auth: key(2),
        metadata: key(3),
        authority: key(4),
        vault: key(5),
        duration: 10,
        apr: 20,
        withdrawal_timelock: 30,
        early_withdrawal_fee: 40,
        lifetime: 50,
    };
    let payload = metadata::IxCtx {
        authority: ctx.authority,
        vault: ctx.vault,
        duration: ctx.duration,
        apr: ctx.apr,
        withdrawal_timelock: ctx.withdrawal_timelock,
        early_withdrawal_fee: ctx.early_withdrawal_fee,
        lifetime: ctx.lifetime,
    };
    let create_ins = metadata::create(&ctx).unwrap();
    assert_eq!(create_ins.data, MetadataInstruction::Create(payload).pack());
    let update_ins = metadata::update(&ctx).unwrap();
    assert_eq!(update_ins.data, MetadataInstruction::Update(payload).pack());
    assert_eq!(create_ins.accounts.len(), 2);
    assert!(create_ins.accounts[0].is_signer);
}
