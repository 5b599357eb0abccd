use sv2_bitcoin_core::mining::{block_create_options, MIN_BLOCK_RESERVED_WEIGHT};
use sv2_bitcoin_core::tip::{TipAction, TipEvent, TipTracker};

#[test]
fn small_coinbase_outputs_reserve_the_minimum_weight() {
    let options = block_create_options(1, 1);
    assert_eq!(options.block_reserved_weight, MIN_BLOCK_RESERVED_WEIGHT);
    assert_eq!(options.block_reserved_weight, 2000);
    assert_eq!(options.coinbase_output_max_additional_sigops, 1);
    assert!(options.use_mempool);
}

#[test]
fn large_coinbase_outputs_reserve_four_weight_units_per_byte() {
    let options = block_create_options(1000, 400);
    assert_eq!(options.block_reserved_weight, 4000);
    assert_eq!(options.coinbase_output_max_additional_sigops, 400);
    assert_eq!(block_create_options(500, 0).block_reserved_weight, 2000);
    assert_eq!(block_create_options(501, 0).block_reserved_weight, 2004);
}

#[test]
fn a_higher_tip_renews_the_templates() {
    let mut tip = TipTracker::new(100, vec![1, 2]);
    let action = tip.on_event(TipEvent::TipReported { height: 101, hash: vec![3, 4] });
    assert_eq!(action, TipAction::RenewTemplates);
    assert_eq!(tip.height(), 101);
    assert_eq!(tip.hash(), &vec![3u8, 4]);
}

#[test]
fn a_tip_at_the_same_or_a_lower_height_is_ignored() {
    let mut tip = TipTracker::new(100, vec![1, 2]);
    assert_eq!(tip.on_event(TipEvent::TipReported { height: 100, hash: vec![5] }), TipAction::KeepWaiting);
    assert_eq!(tip.on_event(TipEvent::TipReported { height: 99, hash: vec![6] }), TipAction::KeepWaiting);
    assert_eq!(tip.height(), 100);
    assert_eq!(tip.hash(), &vec![1u8, 2]);
}

#[test]
fn failures_keep_waiting_and_cancellation_stops() {
    let mut tip = TipTracker::new(7, vec![0]);
    assert_eq!(tip.on_event(TipEvent::Failed), TipAction::KeepWaiting);
    assert_eq!(tip.on_event(TipEvent::Cancelled), TipAction::Stop);
    assert_eq!(tip.height(), 7);
}
