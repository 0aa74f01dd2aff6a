use solana_donations::constants::{MAX_DESCRIPTION_LEN, MAX_NICKNAME_LEN, TOP_SIZE};
use solana_donations::donate;
use solana_donations::donor_index::create_or_check_donor_index;
use solana_donations::errors::ErrorCode;
use solana_donations::initialize_config;
use solana_donations::set_admin;
use solana_donations::set_paused;
use solana_donations::set_treasury;
use solana_donations::state::{Address, Config, Donor, DonorIndex, IndexSlot};
use solana_donations::update_profile;

fn addr(tag: u8) -> Address {
    Address { bytes: [tag; 32] }
}

fn fresh_donor() -> Donor {
    Donor {
        donor_wallet: Address { bytes: [0u8; 32] },
        donor_id: 0,
        lifetime_amount: 0,
        donations_count: 0,
        nickname: String::new(),
        description: String::new(),
        last_donation_ts: 0,
    }
}

/// The real derived index address, computed with the same host primitive
/// the library relies on.
fn index_addr_for(donor_id: u64, program: &Address) -> Address {
    let pid = anchor_lang::prelude::Pubkey::new_from_array(program.bytes);
    let id_bytes = donor_id.to_le_bytes();
    let (key, _bump) = anchor_lang::prelude::Pubkey::try_find_program_address(
        &[b"donor_index", &id_bytes],
        &pid,
    )
    .unwrap();
    Address { bytes: key.to_bytes() }
}

#[test]
fn initialize_config_sets_defaults() {
    let config = initialize_config(addr(1), addr(2));
    assert_eq!(config.admin, addr(1));
    assert_eq!(config.treasury, addr(2));
    assert!(!config.paused);
    assert_eq!(config.next_donor_id, 1);
    assert_eq!(config.total_donated, 0);
    assert_eq!(config.top10.len(), TOP_SIZE);
    for entry in &config.top10 {
        assert_eq!(entry.donor_id, 0);
        assert_eq!(entry.lifetime_amount, 0);
        assert_eq!(entry.donor_wallet, Address { bytes: [0u8; 32] });
    }
}

#[test]
fn first_donation_creates_donor() {
    let program = addr(9);
    let wallet_a = addr(10);
    let pda_a = addr(11);
    let mut config = initialize_config(addr(1), addr(2));
    let mut donor = fresh_donor();
    let mut slot = IndexSlot::Empty;
    let ev = donate(
        &mut config,
        &mut donor,
        &mut slot,
        wallet_a,
        pda_a,
        index_addr_for(1, &program),
        program,
        1000,
        100,
        None,
    )
    .unwrap();
    assert_eq!(donor.donor_id, 1);
    assert_eq!(donor.donor_wallet, wallet_a);
    assert_eq!(donor.lifetime_amount, 100);
    assert_eq!(donor.donations_count, 1);
    assert_eq!(donor.last_donation_ts, 1000);
    assert_eq!(config.next_donor_id, 2);
    assert_eq!(config.total_donated, 100);
    assert_eq!(config.top10[0].donor_id, 1);
    assert_eq!(config.top10[0].lifetime_amount, 100);
    assert!(ev.created_new);
    assert_eq!(ev.amount_lamports, 100);
    assert_eq!(ev.treasury, addr(2));
    assert_eq!(ev.lifetime_amount_after, 100);
    assert_eq!(
        slot,
        IndexSlot::Allocated {
            owner: program,
            record: DonorIndex { donor_id: 1, donor_wallet: wallet_a, donor_pda: pda_a },
        }
    );
}

#[test]
fn leaderboard_scenario_two_donors_and_refresh() {
    let program = addr(9);
    let wallet_a = addr(10);
    let pda_a = addr(11);
    let wallet_b = addr(20);
    let pda_b = addr(21);
    let mut config = initialize_config(addr(1), addr(2));
    let mut donor_a = fresh_donor();
    let mut donor_b = fresh_donor();
    let mut slot_a = IndexSlot::Empty;
    let mut slot_b = IndexSlot::Empty;

    donate(
        &mut config,
        &mut donor_a,
        &mut slot_a,
        wallet_a,
        pda_a,
        index_addr_for(1, &program),
        program,
        1000,
        100,
        None,
    )
    .unwrap();
    assert_eq!(donor_a.donor_id, 1);
    assert_eq!(config.top10[0].donor_id, 1);
    assert_eq!(config.top10[0].lifetime_amount, 100);

    donate(
        &mut config,
        &mut donor_b,
        &mut slot_b,
        wallet_b,
        pda_b,
        index_addr_for(2, &program),
        program,
        1001,
        150,
        None,
    )
    .unwrap();
    assert_eq!(donor_b.donor_id, 2);
    assert_eq!(config.top10[0].donor_id, 2);
    assert_eq!(config.top10[0].lifetime_amount, 150);
    assert_eq!(config.top10[1].donor_id, 1);
    assert_eq!(config.top10[1].lifetime_amount, 100);

    let ev = donate(
        &mut config,
        &mut donor_a,
        &mut slot_a,
        wallet_a,
        pda_a,
        index_addr_for(1, &program),
        program,
        1002,
        200,
        None,
    )
    .unwrap();
    assert!(!ev.created_new);
    assert_eq!(donor_a.donor_id, 1);
    assert_eq!(donor_a.lifetime_amount, 300);
    assert_eq!(donor_a.donations_count, 2);
    assert_eq!(config.total_donated, 450);
    // The running total equals the sum of all lifetime amounts.
    assert_eq!(
        config.total_donated,
        donor_a.lifetime_amount + donor_b.lifetime_amount
    );
    assert_eq!(config.top10[0].donor_id, 1);
    assert_eq!(config.top10[0].lifetime_amount, 300);
    assert_eq!(config.top10[1].donor_id, 2);
    assert_eq!(config.top10[1].lifetime_amount, 150);
    assert_eq!(config.top10[2].donor_id, 0);
}

#[test]
fn zero_amount_rejected_state_unchanged() {
    let program = addr(9);
    let mut config = initialize_config(addr(1), addr(2));
    let mut donor = fresh_donor();
    let mut slot = IndexSlot::Empty;
    let before = config.clone();
    let r = donate(
        &mut config,
        &mut donor,
        &mut slot,
        addr(10),
        addr(11),
        index_addr_for(1, &program),
        program,
        1000,
        0,
        None,
    );
    assert_eq!(r, Err(ErrorCode::InvalidAmount));
    assert_eq!(config, before);
    assert_eq!(donor, fresh_donor());
    assert_eq!(slot, IndexSlot::Empty);
}

#[test]
fn paused_rejects_then_resumes() {
    let admin = addr(1);
    let program = addr(9);
    let mut config = initialize_config(admin, addr(2));
    let mut donor = fresh_donor();
    let mut slot = IndexSlot::Empty;
    set_paused(&mut config, &admin, true).unwrap();
    let r = donate(
        &mut config,
        &mut donor,
        &mut slot,
        addr(10),
        addr(11),
        index_addr_for(1, &program),
        program,
        1000,
        100,
        None,
    );
    assert_eq!(r, Err(ErrorCode::Paused));
    assert_eq!(config.total_donated, 0);
    assert_eq!(donor.donor_id, 0);
    set_paused(&mut config, &admin, false).unwrap();
    donate(
        &mut config,
        &mut donor,
        &mut slot,
        addr(10),
        addr(11),
        index_addr_for(1, &program),
        program,
        1000,
        100,
        None,
    )
    .unwrap();
    assert_eq!(config.total_donated, 100);
}

#[test]
fn wrong_wallet_rejected() {
    let program = addr(9);
    let wallet_a = addr(10);
    let mut config = initialize_config(addr(1), addr(2));
    let mut donor = fresh_donor();
    let mut slot = IndexSlot::Empty;
    donate(
        &mut config,
        &mut donor,
        &mut slot,
        wallet_a,
        addr(11),
        index_addr_for(1, &program),
        program,
        1000,
        100,
        None,
    )
    .unwrap();
    let before_donor = donor.clone();
    let before_config = config.clone();
    let r = donate(
        &mut config,
        &mut donor,
        &mut slot,
        addr(99),
        addr(11),
        index_addr_for(1, &program),
        program,
        1001,
        50,
        None,
    );
    assert_eq!(r, Err(ErrorCode::Unauthorized));
    assert_eq!(donor, before_donor);
    assert_eq!(config, before_config);
}

#[test]
fn nickname_too_long_rejected() {
    let program = addr(9);
    let mut config = initialize_config(addr(1), addr(2));
    let mut donor = fresh_donor();
    let mut slot = IndexSlot::Empty;
    let long_name = "x".repeat(MAX_NICKNAME_LEN + 1);
    let r = donate(
        &mut config,
        &mut donor,
        &mut slot,
        addr(10),
        addr(11),
        index_addr_for(1, &program),
        program,
        1000,
        100,
        Some(long_name),
    );
    assert_eq!(r, Err(ErrorCode::NicknameTooLong));
    assert_eq!(donor.donor_id, 0);
    assert_eq!(config.next_donor_id, 1);
}

#[test]
fn nickname_bound_counts_bytes_not_chars() {
    let program = addr(9);
    let mut config = initialize_config(addr(1), addr(2));
    let mut donor = fresh_donor();
    let mut slot = IndexSlot::Empty;
    // 17 two-byte characters: 17 chars, 34 bytes, over a 32-byte bound.
    let name = "é".repeat(17);
    assert_eq!(name.chars().count(), 17);
    let r = donate(
        &mut config,
        &mut donor,
        &mut slot,
        addr(10),
        addr(11),
        index_addr_for(1, &program),
        program,
        1000,
        100,
        Some(name),
    );
    assert_eq!(r, Err(ErrorCode::NicknameTooLong));
}

#[test]
fn nickname_at_bound_accepted_and_stored() {
    let program = addr(9);
    let mut config = initialize_config(addr(1), addr(2));
    let mut donor = fresh_donor();
    let mut slot = IndexSlot::Empty;
    let name = "n".repeat(MAX_NICKNAME_LEN);
    donate(
        &mut config,
        &mut donor,
        &mut slot,
        addr(10),
        addr(11),
        index_addr_for(1, &program),
        program,
        1000,
        100,
        Some(name.clone()),
    )
    .unwrap();
    assert_eq!(donor.nickname, name);
}

#[test]
fn empty_nickname_not_stored() {
    let program = addr(9);
    let mut config = initialize_config(addr(1), addr(2));
    let mut donor = fresh_donor();
    let mut slot = IndexSlot::Empty;
    donate(
        &mut config,
        &mut donor,
        &mut slot,
        addr(10),
        addr(11),
        index_addr_for(1, &program),
        program,
        1000,
        100,
        Some("keep".to_string()),
    )
    .unwrap();
    donate(
        &mut config,
        &mut donor,
        &mut slot,
        addr(10),
        addr(11),
        index_addr_for(1, &program),
        program,
        1001,
        10,
        Some(String::new()),
    )
    .unwrap();
    assert_eq!(donor.nickname, "keep");
}

#[test]
fn donor_id_overflow_rejected() {
    let program = addr(9);
    let mut config = initialize_config(addr(1), addr(2));
    config.next_donor_id = u64::MAX;
    let mut donor = fresh_donor();
    let mut slot = IndexSlot::Empty;
    let r = donate(
        &mut config,
        &mut donor,
        &mut slot,
        addr(10),
        addr(11),
        index_addr_for(u64::MAX, &program),
        program,
        1000,
        100,
        None,
    );
    assert_eq!(r, Err(ErrorCode::Overflow));
    assert_eq!(donor.donor_id, 0);
    assert_eq!(config.next_donor_id, u64::MAX);
}

#[test]
fn lifetime_overflow_rejected() {
    let program = addr(9);
    let wallet = addr(10);
    let mut config = initialize_config(addr(1), addr(2));
    let mut donor = fresh_donor();
    let mut slot = IndexSlot::Empty;
    donate(
        &mut config,
        &mut donor,
        &mut slot,
        wallet,
        addr(11),
        index_addr_for(1, &program),
        program,
        1000,
        u64::MAX,
        None,
    )
    .unwrap();
    let before = donor.clone();
    let r = donate(
        &mut config,
        &mut donor,
        &mut slot,
        wallet,
        addr(11),
        index_addr_for(1, &program),
        program,
        1001,
        1,
        None,
    );
    assert_eq!(r, Err(ErrorCode::Overflow));
    assert_eq!(donor, before);
}

#[test]
fn wrong_index_address_rejected() {
    let program = addr(9);
    let mut config = initialize_config(addr(1), addr(2));
    let mut donor = fresh_donor();
    let mut slot = IndexSlot::Empty;
    let r = donate(
        &mut config,
        &mut donor,
        &mut slot,
        addr(10),
        addr(11),
        addr(77),
        program,
        1000,
        100,
        None,
    );
    assert_eq!(r, Err(ErrorCode::InvalidDonorIndex));
    assert_eq!(slot, IndexSlot::Empty);
    assert_eq!(config.total_donated, 0);
    assert_eq!(donor.donor_id, 0);
}

#[test]
fn foreign_owned_index_rejected() {
    let program = addr(9);
    let wallet = addr(10);
    let pda = addr(11);
    let index_addr = index_addr_for(1, &program);
    let mut slot = IndexSlot::Allocated {
        owner: addr(66),
        record: DonorIndex { donor_id: 1, donor_wallet: wallet, donor_pda: pda },
    };
    let r = create_or_check_donor_index(&mut slot, &index_addr, &program, 1, wallet, pda);
    assert_eq!(r, Err(ErrorCode::InvalidDonorIndexOwner));
}

#[test]
fn index_create_then_verify_idempotent() {
    let program = addr(9);
    let wallet = addr(10);
    let pda = addr(11);
    let index_addr = index_addr_for(7, &program);
    let mut slot = IndexSlot::Empty;
    create_or_check_donor_index(&mut slot, &index_addr, &program, 7, wallet, pda).unwrap();
    let once = slot;
    create_or_check_donor_index(&mut slot, &index_addr, &program, 7, wallet, pda).unwrap();
    assert_eq!(slot, once);
    assert_eq!(
        slot,
        IndexSlot::Allocated {
            owner: program,
            record: DonorIndex { donor_id: 7, donor_wallet: wallet, donor_pda: pda },
        }
    );
}

#[test]
fn index_self_heals_zeroed_record() {
    let program = addr(9);
    let wallet = addr(10);
    let pda = addr(11);
    let index_addr = index_addr_for(3, &program);
    let zero = Address { bytes: [0u8; 32] };
    let mut slot = IndexSlot::Allocated {
        owner: program,
        record: DonorIndex { donor_id: 0, donor_wallet: zero, donor_pda: zero },
    };
    create_or_check_donor_index(&mut slot, &index_addr, &program, 3, wallet, pda).unwrap();
    assert_eq!(
        slot,
        IndexSlot::Allocated {
            owner: program,
            record: DonorIndex { donor_id: 3, donor_wallet: wallet, donor_pda: pda },
        }
    );
}

#[test]
fn index_mismatched_record_rejected() {
    let program = addr(9);
    let wallet = addr(10);
    let pda = addr(11);
    let index_addr = index_addr_for(3, &program);
    let mut slot = IndexSlot::Allocated {
        owner: program,
        record: DonorIndex { donor_id: 3, donor_wallet: addr(55), donor_pda: pda },
    };
    let before = slot;
    let r = create_or_check_donor_index(&mut slot, &index_addr, &program, 3, wallet, pda);
    assert_eq!(r, Err(ErrorCode::InvalidDonorIndex));
    assert_eq!(slot, before);
}

#[test]
fn update_profile_sets_fields() {
    let wallet = addr(10);
    let mut donor = fresh_donor();
    donor.donor_wallet = wallet;
    donor.donor_id = 1;
    let ev = update_profile(
        &mut donor,
        &wallet,
        addr(11),
        2000,
        Some("nick".to_string()),
        Some("about me".to_string()),
    )
    .unwrap();
    assert_eq!(donor.nickname, "nick");
    assert_eq!(donor.description, "about me");
    assert_eq!(ev.donor_id, 1);
    assert_eq!(ev.timestamp, 2000);
    // Unlike a donation, a profile update may clear the nickname.
    update_profile(&mut donor, &wallet, addr(11), 2001, Some(String::new()), None).unwrap();
    assert_eq!(donor.nickname, "");
    assert_eq!(donor.description, "about me");
}

#[test]
fn update_profile_rejects_wrong_wallet_and_long_fields() {
    let wallet = addr(10);
    let mut donor = fresh_donor();
    donor.donor_wallet = wallet;
    donor.donor_id = 1;
    let r = update_profile(&mut donor, &addr(99), addr(11), 2000, Some("n".to_string()), None);
    assert_eq!(r, Err(ErrorCode::Unauthorized));
    let r = update_profile(
        &mut donor,
        &wallet,
        addr(11),
        2000,
        Some("x".repeat(MAX_NICKNAME_LEN + 1)),
        None,
    );
    assert_eq!(r, Err(ErrorCode::NicknameTooLong));
    let r = update_profile(
        &mut donor,
        &wallet,
        addr(11),
        2000,
        None,
        Some("y".repeat(MAX_DESCRIPTION_LEN + 1)),
    );
    assert_eq!(r, Err(ErrorCode::DescriptionTooLong));
    assert_eq!(donor.nickname, "");
    assert_eq!(donor.description, "");
}

#[test]
fn admin_handlers_gate_on_admin() {
    let admin = addr(1);
    let mut config = initialize_config(admin, addr(2));
    assert_eq!(
        set_treasury(&mut config, &addr(99), addr(3)),
        Err(ErrorCode::Unauthorized)
    );
    assert_eq!(config.treasury, addr(2));
    set_treasury(&mut config, &admin, addr(3)).unwrap();
    assert_eq!(config.treasury, addr(3));

    assert_eq!(
        set_paused(&mut config, &addr(99), true),
        Err(ErrorCode::Unauthorized)
    );
    assert!(!config.paused);

    set_admin(&mut config, &admin, addr(5)).unwrap();
    assert_eq!(config.admin, addr(5));
    // The old admin lost the role.
    assert_eq!(
        set_paused(&mut config, &admin, true),
        Err(ErrorCode::Unauthorized)
    );
    set_paused(&mut config, &addr(5), true).unwrap();
    assert!(config.paused);
}

#[test]
fn event_carries_current_treasury() {
    let admin = addr(1);
    let program = addr(9);
    let mut config = initialize_config(admin, addr(2));
    set_treasury(&mut config, &admin, addr(4)).unwrap();
    let mut donor = fresh_donor();
    let mut slot = IndexSlot::Empty;
    let ev = donate(
        &mut config,
        &mut donor,
        &mut slot,
        addr(10),
        addr(11),
        index_addr_for(1, &program),
        program,
        1000,
        25,
        None,
    )
    .unwrap();
    assert_eq!(ev.treasury, addr(4));
}
