use solana_donations::constants::TOP_SIZE;
use solana_donations::leaderboard::update_top10;
use solana_donations::state::{Address, TopEntry};

fn addr(tag: u8) -> Address {
    Address { bytes: [tag; 32] }
}

fn entry(donor_id: u64, amount: u64) -> TopEntry {
    TopEntry {
        donor_id,
        donor_wallet: addr(donor_id as u8),
        donor_pda: addr(donor_id as u8),
        lifetime_amount: amount,
    }
}

fn sentinel() -> TopEntry {
    TopEntry {
        donor_id: 0,
        donor_wallet: Address { bytes: [0u8; 32] },
        donor_pda: Address { bytes: [0u8; 32] },
        lifetime_amount: 0,
    }
}

fn board(entries: &[TopEntry]) -> Vec<TopEntry> {
    let mut v: Vec<TopEntry> = entries.to_vec();
    while v.len() < TOP_SIZE {
        v.push(sentinel());
    }
    v
}

fn assert_board_sorted(v: &[TopEntry]) {
    for w in v.windows(2) {
        let (a, b) = (&w[0], &w[1]);
        assert!(
            a.lifetime_amount > b.lifetime_amount
                || (a.lifetime_amount == b.lifetime_amount && a.donor_id <= b.donor_id),
            "board out of order"
        );
    }
}

#[test]
fn candidate_fills_empty_board_front() {
    let mut top = board(&[]);
    update_top10(&mut top, entry(4, 50));
    assert_eq!(top[0], entry(4, 50));
    assert_eq!(top[1], sentinel());
    assert_board_sorted(&top);
}

#[test]
fn reapplying_identical_candidate_is_noop() {
    let mut top = board(&[entry(2, 300), entry(5, 200), entry(9, 100)]);
    let before = top.clone();
    update_top10(&mut top, entry(5, 200));
    assert_eq!(top, before);
}

#[test]
fn refresh_existing_entry_resorts() {
    let mut top = board(&[entry(2, 300), entry(5, 200), entry(9, 100)]);
    update_top10(&mut top, entry(9, 400));
    assert_eq!(top[0], entry(9, 400));
    assert_eq!(top[1], entry(2, 300));
    assert_eq!(top[2], entry(5, 200));
    assert_board_sorted(&top);
}

#[test]
fn full_board_evicts_minimum() {
    let mut top: Vec<TopEntry> = (1..=TOP_SIZE as u64).map(|i| entry(i, i * 100)).collect();
    top.reverse();
    assert_board_sorted(&top);
    // Minimum is donor 1 with 100; a stronger newcomer displaces it.
    update_top10(&mut top, entry(42, 150));
    assert_eq!(top.len(), TOP_SIZE);
    assert!(top.iter().all(|e| e.donor_id != 1));
    assert!(top.iter().any(|e| *e == entry(42, 150)));
    assert_board_sorted(&top);
}

#[test]
fn full_board_rejects_weaker_candidate() {
    let mut top: Vec<TopEntry> = (1..=TOP_SIZE as u64).map(|i| entry(i, i * 100)).collect();
    top.reverse();
    let before = top.clone();
    update_top10(&mut top, entry(42, 50));
    assert_eq!(top, before);
}

#[test]
fn equal_amount_lower_id_wins_tie() {
    let mut top: Vec<TopEntry> = (1..=TOP_SIZE as u64).map(|i| entry(i, i * 100)).collect();
    top.reverse();
    // Ties the minimum (donor 1 at 100) with a lower donor id: displaces.
    update_top10(&mut top, entry(0, 0));
    // donor id 0 with amount 0 is weaker, nothing happens
    let with_min = top.clone();
    update_top10(&mut top, entry(42, 100));
    // equal amount but higher id than donor 1: stays out
    assert_eq!(top, with_min);
}

#[test]
fn equal_amount_fills_sentinel_slot() {
    let mut top = board(&[entry(3, 10)]);
    // A sentinel slot has amount 0; an equal-amount candidate... must have
    // amount 0 to tie, which real donors never do; a 1-unit donor simply
    // outranks the sentinel minimum.
    update_top10(&mut top, entry(7, 1));
    assert!(top.iter().any(|e| *e == entry(7, 1)));
    assert_eq!(top[0], entry(3, 10));
    assert_eq!(top[1], entry(7, 1));
    assert_board_sorted(&top);
}

#[test]
fn sentinels_stay_after_occupied_slots() {
    let mut top = board(&[]);
    update_top10(&mut top, entry(5, 40));
    update_top10(&mut top, entry(6, 60));
    update_top10(&mut top, entry(7, 50));
    assert_eq!(top[0], entry(6, 60));
    assert_eq!(top[1], entry(7, 50));
    assert_eq!(top[2], entry(5, 40));
    for e in &top[3..] {
        assert_eq!(*e, sentinel());
    }
    assert_board_sorted(&top);
}
