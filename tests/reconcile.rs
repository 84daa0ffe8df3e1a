use funding_bot::reconcile::{
    is_outside_band, offered_rate, reconcile, reconcile_existing, sole, ActiveOffer,
    Reconciliation,
};

fn offer(rate: u64) -> ActiveOffer {
    ActiveOffer { amount: 10_000_000_000, rate }
}

#[test]
fn offered_rate_is_one_percent_under() {
    assert_eq!(offered_rate(400_000_000), 396_000_000);
    assert_eq!(offered_rate(150), 148);
}

#[test]
fn offer_far_below_new_rate_is_cancelled() {
    let rate = offered_rate(400_000_000);
    assert_eq!(rate, 396_000_000);
    assert_eq!(reconcile(&vec![offer(300_000_000)], rate), Reconciliation::Cancel);
}

#[test]
fn offer_at_new_rate_is_held() {
    assert_eq!(reconcile(&vec![offer(500_000_000)], 500_000_000), Reconciliation::Hold);
}

#[test]
fn several_offers_are_cancelled_whatever_the_rates() {
    let offers = vec![offer(500_000_000), offer(500_000_000)];
    assert_eq!(reconcile(&offers, 500_000_000), Reconciliation::Cancel);
    let offers = vec![offer(1), offer(2), offer(3)];
    assert_eq!(reconcile(&offers, 0), Reconciliation::Cancel);
}

#[test]
fn no_offer_means_submit() {
    assert_eq!(reconcile(&Vec::new(), 396_000_000), Reconciliation::Submit);
}

#[test]
fn band_edges_are_inside() {
    // rate 100: band is [99, 101]
    assert!(!is_outside_band(100, 101));
    assert!(!is_outside_band(100, 99));
    assert!(is_outside_band(100, 102));
    assert!(is_outside_band(100, 98));
    assert_eq!(reconcile(&vec![offer(101)], 100), Reconciliation::Hold);
    assert_eq!(reconcile(&vec![offer(102)], 100), Reconciliation::Cancel);
}

#[test]
fn sole_offer_only_when_exactly_one() {
    assert_eq!(sole(&vec![offer(7)]), Some(offer(7)));
    assert_eq!(sole(&Vec::new()), None);
    assert_eq!(sole(&vec![offer(7), offer(8)]), None);
}

#[test]
fn reconcile_existing_decides_for_one_offer() {
    assert_eq!(reconcile_existing(None, 396_000_000), Reconciliation::Submit);
    assert_eq!(reconcile_existing(Some(offer(300_000_000)), 396_000_000), Reconciliation::Cancel);
    assert_eq!(reconcile_existing(Some(offer(396_000_000)), 396_000_000), Reconciliation::Hold);
}
