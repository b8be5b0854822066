use synchrony_vc::error::{DecodeError, ErrorCode};
use synchrony_vc::instruction::{LockupInstruction, VestingInstruction};
use synchrony_vc::keys::Pubkey;
use synchrony_vc::metadata::{IxCtx, MetadataInstruction, MetadataState};
use synchrony_vc::processor::VestingIx;
use synchrony_vc::state::{
    unpack_releases, VestingHeader, VestingInfo, VestingState, HEADER_LEN, RELEASE_LEN,
};

fn key(n: u8) -> Pubkey {
    let mut bytes = [n; 32];
    bytes[0] = n.wrapping_add(1);
    Pubkey(bytes)
}

#[test]
fn release_round_trip() {
    for quantity in [0u64, 1, 123_456_789, u64::MAX] {
        for timestamp in [0u32, 1, 1_700_000_000, u32::MAX] {
            let release = VestingInfo { timestamp, quantity };
            let packed = release.pack();
            assert_eq!(packed.len(), RELEASE_LEN);
            assert_eq!(VestingInfo::unpack(&packed, 0).unwrap(), release);
        }
    }
}

#[test]
fn release_truncated() {
    let packed = VestingInfo { timestamp: 5, quantity: 6 }.pack();
    assert_eq!(VestingInfo::unpack(&packed, 1), Err(DecodeError::Truncated));
}

#[test]
fn header_round_trip() {
    for is_initialized in [false, true] {
        let header = VestingHeader { is_initialized, mint: key(3), beneficiary: key(4) };
        let packed = header.pack();
        assert_eq!(packed.len(), HEADER_LEN);
        assert_eq!(VestingHeader::unpack(&packed).unwrap(), header);
    }
}

#[test]
fn header_truncated_and_out_of_range() {
    assert_eq!(VestingHeader::unpack(&vec![0u8; 64]), Err(DecodeError::Truncated));
    assert_eq!(VestingHeader::unpack(&vec![2u8; 65]), Err(DecodeError::OutOfRange));
}

#[test]
fn releases_round_trip() {
    let releases = vec![
        VestingInfo { timestamp: 10, quantity: 100 },
        VestingInfo { timestamp: 20, quantity: 0 },
        VestingInfo { timestamp: 30, quantity: u64::MAX },
    ];
    let mut packed: Vec<u8> = Vec::new();
    for release in &releases {
        packed.extend_from_slice(&release.pack());
    }
    assert_eq!(unpack_releases(&packed, 0).unwrap(), releases);
}

#[test]
fn releases_reject_ragged_length() {
    assert_eq!(unpack_releases(&vec![0u8; 13], 0), Err(DecodeError::Truncated));
}

#[test]
fn state_round_trip() {
    let state = VestingState {
        is_initialized: true,
        authority: key(1),
        beneficiary: key(2),
        vault: key(3),
        mint: key(4),
        grantor: key(5),
        metadata: key(6),
        outstanding: 11,
        start_balance: 22,
        created_ts: 33,
        start_ts: 44,
        end_ts: 55,
        period_count: 66,
        nonce: 77,
    };
    let packed = state.pack();
    assert_eq!(packed.len(), 242);
    assert_eq!(VestingState::unpack(&packed).unwrap(), state);
}

#[test]
fn test_pack_unpack_vesting_instructions() {
    let create = VestingInstruction::CreateVesting {
        beneficiary: key(9),
        start_ts: 69_696_696,
        end_ts: 420_420_420,
        period_count: 420,
        nonce: 69,
        amount: 69_420_000,
    };
    let withdraw = VestingInstruction::Withdraw { amount: 420 };
    let init = VestingInstruction::Init;
    let set_beneficiary = VestingInstruction::SetBeneficiary { new_beneficiary: key(8) };

    let packed_create = create.pack();
    let packed_withdraw = withdraw.pack();
    let packed_init = init.pack();
    let packed_set = set_beneficiary.pack();

    assert_eq!(VestingInstruction::unpack(&packed_create).unwrap(), create);
    assert_eq!(VestingInstruction::unpack(&packed_withdraw).unwrap(), withdraw);
    assert_eq!(VestingInstruction::unpack(&packed_init).unwrap(), init);
    assert_eq!(VestingInstruction::unpack(&packed_set).unwrap(), set_beneficiary);
}

#[test]
fn vesting_instruction_rejects_unknown_and_ragged() {
    assert_eq!(VestingInstruction::unpack(&vec![]), Err(ErrorCode::InvalidInstruction));
    assert_eq!(VestingInstruction::unpack(&vec![9u8]), Err(ErrorCode::InvalidInstruction));
    assert_eq!(VestingInstruction::unpack(&vec![2u8; 8]), Err(ErrorCode::InvalidInstruction));
}

#[test]
fn vesting_ix_round_trip() {
    let init = VestingIx::Init { seed: key(1), release_count: 24 };
    let create = VestingIx::Create {
        seed: key(1),
        mint: key(2),
        recipient: key(3),
        releases: vec![
            VestingInfo { timestamp: 100, quantity: 10 },
            VestingInfo { timestamp: 200, quantity: 20 },
        ],
    };
    let unlock = VestingIx::Unlock { seed: key(1) };
    assert_eq!(VestingIx::unpack(&init.pack()).unwrap(), init);
    assert_eq!(VestingIx::unpack(&create.pack()).unwrap(), create);
    assert_eq!(VestingIx::unpack(&unlock.pack()).unwrap(), unlock);
}

#[test]
fn lockup_instruction_round_trip() {
    let cases = vec![
        LockupInstruction::New,
        LockupInstruction::WhitelistAdd { entry: key(5) },
        LockupInstruction::WhitelistDelete { entry: key(6) },
        LockupInstruction::WhitelistAuthority { entry: key(7) },
    ];
    for case in cases {
        assert_eq!(LockupInstruction::unpack(&case.pack()).unwrap(), case);
    }
}

#[test]
fn metadata_codec_round_trips() {
    let ctx = IxCtx {
        authority: key(1),
        vault: key(2),
        duration: 3600,
        apr: 12,
        withdrawal_timelock: 86400,
        early_withdrawal_fee: 5,
        lifetime: 1_000_000,
    };
    assert_eq!(IxCtx::unpack(&ctx.pack(), 0).unwrap(), ctx);
    for ix in [
        MetadataInstruction::Create(ctx),
        MetadataInstruction::Update(ctx),
        MetadataInstruction::Delete(ctx),
    ] {
        assert_eq!(MetadataInstruction::unpack(&ix.pack()).unwrap(), ix);
    }
    let state = MetadataState {
        is_initialized: true,
        authority: key(1),
        vault: key(2),
        duration: 3600,
        apr: 12,
        withdrawal_timelock: 86400,
        early_withdrawal_fee: 5,
        lifetime: 1_000_000,
    };
    assert_eq!(MetadataState::unpack_from_slice(&state.pack()).unwrap(), state);
}
