use gas_donator::gas::{token_slot, ChainTally, TokenSlot, TopUpDecision};
use gas_donator::wallet::{claimed_status, status_after_scan, WalletStatus, CLAIM_BATCH_LIMIT};
use gas_donator::wei::{min_top_up, Wei};

fn dust() -> Wei {
    min_top_up()
}

fn tally(usdc: u64, usdt: u64, units: u64) -> ChainTally {
    let mut t = ChainTally::new();
    t.record_balance(TokenSlot::Usdc, Wei::from_u64(usdc));
    t.record_balance(TokenSlot::Usdt, Wei::from_u64(usdt));
    t.add_gas_units(units);
    t
}

#[test]
fn usdc_is_the_only_usdc_name() {
    assert_eq!(token_slot("USDC"), TokenSlot::Usdc);
    assert_eq!(token_slot("USDT"), TokenSlot::Usdt);
    assert_eq!(token_slot("usdc"), TokenSlot::Usdt);
    assert_eq!(token_slot("DAI"), TokenSlot::Usdt);
}

#[test]
fn recording_a_balance_asks_for_an_estimate_only_when_positive() {
    let mut t = ChainTally::new();
    assert!(!t.record_balance(TokenSlot::Usdc, Wei::zero()));
    assert!(t.record_balance(TokenSlot::Usdt, Wei::from_u64(4)));
    assert!(t.record_balance(TokenSlot::Usdt, Wei::from_u64(9)));
    assert_eq!(t.usdt_balance().limbs(), [9, 0, 0, 0]);
    assert_eq!(t.usdc_balance().limbs(), [0, 0, 0, 0]);
    assert_eq!(t.gas_units(), 0);
}

#[test]
fn gas_units_add_up_until_they_overflow() {
    let mut t = ChainTally::new();
    t.add_gas_units(65_000);
    t.add_gas_units(50_000);
    assert_eq!(t.gas_units(), 115_000);
    assert!(t.can_add_gas_units(u64::MAX - 115_000));
    assert!(!t.can_add_gas_units(u64::MAX - 114_999));
}

#[test]
fn no_token_balance_means_nothing_to_do() {
    let plan = tally(0, 0, 0).plan(&Wei::zero(), 1_000_000_000, &dust());
    assert!(matches!(plan.decision, TopUpDecision::NoTokenBalance));
    assert!(!plan.decision.marks_sweepable());
}

#[test]
fn donation_tops_up_to_twice_the_transfer_cost() {
    // 100_000 gas at 2 gwei, doubled: 4 * 10^14 wei; the wallet holds 10^14.
    let plan = tally(5_000_000, 0, 100_000).plan(&Wei::from_u64(100_000_000_000_000), 2_000_000_000, &dust());
    assert_eq!(plan.minimum_gas.limbs(), [400_000_000_000_000, 0, 0, 0]);
    assert_eq!(plan.deficit.limbs(), [300_000_000_000_000, 0, 0, 0]);
    match plan.decision {
        TopUpDecision::Donate(amount) => assert_eq!(amount.limbs(), [300_000_000_000_000, 0, 0, 0]),
        other => panic!("expected a donation, got {:?}", other),
    }
    assert!(plan.decision.marks_sweepable());
}

#[test]
fn funded_wallet_gets_nothing_but_is_sweepable() {
    let plan = tally(0, 7, 21_000).plan(&Wei::from_u64(10_000_000_000_000_000), 1_000_000_000, &dust());
    assert!(matches!(plan.decision, TopUpDecision::AlreadyFunded));
    assert_eq!(plan.deficit.limbs(), [0, 0, 0, 0]);
    assert!(plan.decision.marks_sweepable());
}

#[test]
fn shortfall_below_dust_is_not_sent() {
    // minimum 2 * 1000 * 1000 = 2_000_000 wei; the wallet holds 1_000_000.
    let plan = tally(1, 0, 1_000).plan(&Wei::from_u64(1_000_000), 1_000, &dust());
    assert!(matches!(plan.decision, TopUpDecision::BelowDust));
    assert_eq!(plan.deficit.limbs(), [1_000_000, 0, 0, 0]);
    assert!(plan.decision.marks_sweepable());
}

#[test]
fn balance_equal_to_minimum_needs_no_donation() {
    let plan = tally(1, 0, 21_000).plan(&Wei::from_u64(42_000_000_000_000), 1_000_000_000, &dust());
    assert!(matches!(plan.decision, TopUpDecision::BelowDust));
    assert_eq!(plan.deficit.limbs(), [0, 0, 0, 0]);
}

#[test]
fn shortfall_equal_to_dust_is_sent() {
    // minimum 2 * 5 * 10^9 = 10^10 wei = the dust threshold; the wallet holds nothing.
    let plan = tally(1, 0, 5).plan(&Wei::zero(), 1_000_000_000, &dust());
    match plan.decision {
        TopUpDecision::Donate(amount) => assert_eq!(amount.limbs(), [10_000_000_000, 0, 0, 0]),
        other => panic!("expected a donation, got {:?}", other),
    }
}

#[test]
fn huge_price_does_not_wrap() {
    let plan = tally(1, 0, u64::MAX).plan(&Wei::zero(), u128::MAX, &dust());
    // (2^64 - 1) * (2^128 - 1) * 2 lies below 2^193, far below 2^256.
    let expected = {
        let a = Wei::from_u64(u64::MAX).wrapping_mul(&Wei::from_u128(u128::MAX));
        a.wrapping_mul(&Wei::from_u64(2))
    };
    assert_eq!(plan.minimum_gas.limbs(), expected.limbs());
    // = 2^193 - 2^129 - 2^65 + 2
    assert_eq!(plan.minimum_gas.limbs(), [2, u64::MAX - 1, u64::MAX - 2, 1]);
}

#[test]
fn status_texts() {
    assert_eq!(WalletStatus::Free.as_str(), "FREE");
    assert_eq!(WalletStatus::InProgress.as_str(), "IN_PROGRESS");
    assert_eq!(WalletStatus::Sweepable.as_str(), "SWEEPABLE");
    assert_eq!(CLAIM_BATCH_LIMIT, 100);
}

#[test]
fn wallet_is_sweepable_when_any_chain_says_so() {
    assert_eq!(status_after_scan(&vec![]), WalletStatus::Free);
    assert_eq!(
        status_after_scan(&vec![TopUpDecision::NoTokenBalance, TopUpDecision::NoTokenBalance]),
        WalletStatus::Free
    );
    assert_eq!(
        status_after_scan(&vec![TopUpDecision::NoTokenBalance, TopUpDecision::BelowDust]),
        WalletStatus::Sweepable
    );
    assert_eq!(
        status_after_scan(&vec![TopUpDecision::Donate(Wei::from_u64(1)), TopUpDecision::NoTokenBalance]),
        WalletStatus::Sweepable
    );
}

#[test]
fn a_claimed_wallet_leaves_the_cycle_sweepable_or_free() {
    assert_eq!(claimed_status(), WalletStatus::InProgress);
    assert_eq!(claimed_status().as_str(), "IN_PROGRESS");
    for decisions in [
        vec![],
        vec![TopUpDecision::NoTokenBalance],
        vec![TopUpDecision::AlreadyFunded, TopUpDecision::NoTokenBalance],
    ] {
        let after = status_after_scan(&decisions);
        assert!(after == WalletStatus::Sweepable || after == WalletStatus::Free);
        assert_ne!(after, claimed_status());
    }
}
