use mixxc::levels::{VolumeLevels, VOLUME_MAX, VOLUME_NORM};
use mixxc::volume::{Strategy, Volume};

fn volume(levels: Vec<u32>, strategy: Strategy) -> Volume {
    Volume::new(VolumeLevels::new(levels), strategy)
}

#[test]
fn levels_round_trip_through_vec() {
    let levels = VolumeLevels::new(vec![100, 200, 300]);
    assert_eq!(levels.len(), 3);
    assert_eq!(levels.get(0), 100);
    assert_eq!(levels.get(1), 200);
    assert_eq!(levels.get(2), 300);
    assert_eq!(levels.to_vec(), vec![100, 200, 300]);
}

#[test]
fn levels_set_overwrites_one_channel() {
    let mut levels = VolumeLevels::new(vec![5, 6]);
    levels.set(1, 42);
    assert_eq!(levels.to_vec(), vec![5, 42]);
}

#[test]
fn levels_clone_is_independent() {
    let mut levels = VolumeLevels::new(vec![7, 8]);
    let copy = levels.clone();
    levels.set(0, 9);
    assert_eq!(copy.to_vec(), vec![7, 8]);
    assert_eq!(levels.to_vec(), vec![9, 8]);
}

#[test]
fn peak_percent_is_loudest_channel() {
    let v = volume(vec![100, 65536, 3000], Strategy::Peak);
    assert_eq!(v.percent(), 65536);
}

#[test]
fn average_percent_is_mean_channel() {
    let v = volume(vec![100, 200, 300], Strategy::Average);
    assert_eq!(v.percent(), 200);
}

#[test]
fn average_percent_rounds_down() {
    let v = volume(vec![1, 2], Strategy::Average);
    assert_eq!(v.percent(), 1);
}

#[test]
fn set_percent_rescales_proportionally() {
    let mut v = volume(vec![1000, 2000, 4000], Strategy::Peak);
    v.set_percent(2000);
    assert_eq!(v.levels.to_vec(), vec![500, 1000, 2000]);
}

#[test]
fn set_percent_round_trip_peak() {
    let mut v = volume(vec![123, 65536, 40000], Strategy::Peak);
    let p = v.percent();
    v.set_percent(p);
    assert_eq!(v.levels.to_vec(), vec![123, 65536, 40000]);
}

#[test]
fn set_percent_round_trip_average() {
    let mut v = volume(vec![100, 200, 300], Strategy::Average);
    let p = v.percent();
    v.set_percent(p);
    assert_eq!(v.levels.to_vec(), vec![100, 200, 300]);
}

#[test]
fn set_percent_keeps_channel_count() {
    let mut v = volume(vec![10, 20, 30, 40], Strategy::Peak);
    v.set_percent(12345);
    assert_eq!(v.levels.len(), 4);
    let mut w = volume(vec![0, 0], Strategy::Average);
    w.set_percent(777);
    assert_eq!(w.levels.len(), 2);
}

#[test]
fn set_percent_from_silence_writes_flat_value() {
    // A fully muted volume has no balance to preserve: the new level goes
    // to every channel as it is, not scaled up from zero.
    let mut v = volume(vec![0, 0], Strategy::Peak);
    v.set_percent(VOLUME_NORM / 2);
    assert_eq!(v.levels.to_vec(), vec![VOLUME_NORM / 2, VOLUME_NORM / 2]);
    assert_eq!(v.percent(), VOLUME_NORM / 2);
}

#[test]
fn set_percent_clamps_at_the_native_ceiling() {
    let mut v = volume(vec![2, VOLUME_MAX], Strategy::Average);
    v.set_percent(VOLUME_MAX);
    assert_eq!(v.levels.get(1), VOLUME_MAX);
}

#[test]
fn volume_equality_follows_first_channel() {
    let a = volume(vec![5, 9], Strategy::Peak);
    let b = volume(vec![5, 100], Strategy::Peak);
    let c = volume(vec![6, 9], Strategy::Peak);
    assert!(a == b);
    assert!(a != c);
}
