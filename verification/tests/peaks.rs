use mixxc::server::peaks::{peak_message, peak_rate, PeakMeterPool, DEFAULT_PEAK_RATE};
use mixxc::server::{Message, MessageClient};

#[test]
fn attach_records_one_meter_per_id() {
    let mut pool = PeakMeterPool::new();
    assert!(pool.attach(7, true));
    assert!(pool.contains(7));
    // A second meter for the same id is refused.
    assert!(!pool.attach(7, true));
}

#[test]
fn attach_refuses_the_synthetic_master_and_failed_streams() {
    let mut pool = PeakMeterPool::new();
    assert!(!pool.attach(0, true));
    assert!(!pool.contains(0));
    assert!(!pool.attach(9, false));
    assert!(!pool.contains(9));
}

#[test]
fn detach_is_idempotent_and_safe_on_unknown_ids() {
    let mut pool = PeakMeterPool::new();
    assert!(pool.attach(7, true));
    assert!(pool.attach(9, true));
    pool.detach(7);
    assert!(!pool.contains(7));
    assert!(pool.contains(9));
    // Detaching the same id again, and an id never attached, changes nothing.
    pool.detach(7);
    pool.detach(1234);
    assert!(!pool.contains(7));
    assert!(pool.contains(9));
}

#[test]
fn clear_drops_every_meter() {
    let mut pool = PeakMeterPool::new();
    assert!(pool.attach(1, true));
    assert!(pool.attach(2, true));
    pool.clear();
    assert!(!pool.contains(1));
    assert!(!pool.contains(2));
}

#[test]
fn zero_samples_are_suppressed() {
    assert!(peak_message(7, 0f32.to_bits()).is_none());
    assert!(peak_message(7, (-0f32).to_bits()).is_none());
    let bits = 0.5f32.to_bits();
    match peak_message(7, bits) {
        Some(Message::OutputClient(MessageClient::Peak(7, b))) => assert_eq!(b, bits),
        _ => panic!("a non-zero sample must pass through"),
    }
}

#[test]
fn peak_rate_reads_the_environment_override() {
    assert_eq!(peak_rate(None), DEFAULT_PEAK_RATE);
    assert_eq!(peak_rate(Some("60".to_string())), 60);
    assert_eq!(peak_rate(Some("+144".to_string())), 144);
    assert_eq!(peak_rate(Some("oops".to_string())), DEFAULT_PEAK_RATE);
    assert_eq!(peak_rate(Some("".to_string())), DEFAULT_PEAK_RATE);
    assert_eq!(peak_rate(Some("99999999999".to_string())), DEFAULT_PEAK_RATE);
}
