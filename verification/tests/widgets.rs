use mixxc::anchor::{Anchor, ANCHOR_BOTTOM, ANCHOR_LEFT, ANCHOR_RIGHT, ANCHOR_TOP};
use mixxc::app::handle_msg_output;
use mixxc::error::CLIError;
use mixxc::kind::Kind;
use mixxc::levels::VolumeLevels;
use mixxc::server::{MessageOutput, Output, OutputClient};
use mixxc::volume::{Strategy, Volume};
use mixxc::widgets::sliderbox::{client_icon, Slider, Sliders, SmallClient};
use mixxc::widgets::switchbox::{icon, Switch, SwitchMessage, Switches};
use mixxc::widgets::{GrowthDirection, Orientation};

fn client(id: u32, process: Option<u32>, description: &str) -> OutputClient {
    OutputClient {
        id,
        process,
        name: "app".to_string(),
        description: description.to_string(),
        icon: None,
        volume: Volume::new(VolumeLevels::new(vec![65536]), Strategy::Peak),
        max_volume: 255,
        muted: false,
        corked: false,
        kind: Kind::out().union(Kind::software()),
    }
}

fn small(id: u32, description: &str, corked: bool, muted: bool) -> SmallClient {
    SmallClient { id, description: description.to_string(), corked, muted }
}

#[test]
fn score_weighs_cork_mute_and_description() {
    assert_eq!(small(1, "x", false, false).score(), 13);
    assert_eq!(small(1, "", false, false).score(), 12);
    assert_eq!(small(1, "x", false, true).score(), 9);
    assert_eq!(small(1, "x", true, false).score(), 5);
    assert_eq!(small(1, "", true, true).score(), 0);
}

#[test]
fn client_icon_prefers_the_client_s_own() {
    assert_eq!(client_icon(Some("spotify".to_string()), 50, false), "spotify");
    assert_eq!(client_icon(None, 50, true), "audio-volume-muted");
    assert_eq!(client_icon(None, 25, false), "audio-volume-low");
    assert_eq!(client_icon(None, 26, false), "audio-volume-medium");
    assert_eq!(client_icon(None, 75, false), "audio-volume-medium");
    assert_eq!(client_icon(None, 76, false), "audio-volume-high");
}

#[test]
fn description_folds_over_the_clients() {
    let slider = Slider { clients: vec![small(1, "only", false, false)], process: None };
    assert_eq!(slider.description(), "only");
    // The fold hands the description to the challenger whenever the
    // accumulated candidate scores higher, or ties with a lower id.
    let slider = Slider {
        clients: vec![
            small(1, "loud", false, false),
            small(2, "quiet", false, true),
            small(3, "late", false, true),
        ],
        process: None,
    };
    assert_eq!(slider.description(), "late");
    let empty = Slider { clients: Vec::new(), process: None };
    assert_eq!(empty.description(), "");
}

#[test]
fn cork_and_mute_hold_only_when_every_client_does() {
    let all = Slider {
        clients: vec![small(1, "a", true, true), small(2, "b", true, true)],
        process: None,
    };
    assert!(all.is_corked());
    assert!(all.is_muted());
    let mixed = Slider {
        clients: vec![small(1, "a", true, false), small(2, "b", false, true)],
        process: None,
    };
    assert!(!mixed.is_corked());
    assert!(!mixed.is_muted());
    let none = Slider { clients: Vec::new(), process: None };
    assert!(none.is_corked());
    assert!(none.is_muted());
}

#[test]
fn sliders_grow_in_the_set_direction() {
    let mut sliders = Sliders::new();
    assert!(sliders.push_client(client(1, None, "a")).is_none());
    assert!(sliders.push_client(client(2, None, "b")).is_none());
    assert!(sliders.contains(1));
    assert!(sliders.contains(2));
    assert_eq!(sliders.position(2), Some(1));
    let mut flipped = Sliders::new();
    flipped.set_direction(
        Anchor { bits: ANCHOR_BOTTOM },
        Orientation::Vertical,
    );
    assert_eq!(flipped.direction, GrowthDirection::TopLeft);
    assert!(flipped.push_client(client(1, None, "a")).is_none());
    assert!(flipped.push_client(client(2, None, "b")).is_none());
    assert_eq!(flipped.position(2), Some(0));
}

#[test]
fn set_direction_follows_anchor_and_orientation() {
    let mut sliders = Sliders::new();
    sliders.set_direction(Anchor { bits: ANCHOR_RIGHT }, Orientation::Horizontal);
    assert_eq!(sliders.direction, GrowthDirection::TopLeft);
    sliders.set_direction(Anchor { bits: ANCHOR_RIGHT }, Orientation::Vertical);
    assert_eq!(sliders.direction, GrowthDirection::BottomRight);
    sliders.set_direction(Anchor { bits: ANCHOR_TOP }, Orientation::Horizontal);
    assert_eq!(sliders.direction, GrowthDirection::BottomRight);
}

#[test]
fn per_process_clients_share_a_slider() {
    let mut sliders = Sliders::new();
    sliders.per_process = true;
    assert!(sliders.push_client(client(1, Some(100), "a")).is_none());
    assert_eq!(sliders.push_client(client(2, Some(100), "b")), Some(0));
    assert!(sliders.push_client(client(3, Some(200), "c")).is_none());
    assert_eq!(sliders.sliders.len(), 2);
    assert!(sliders.contains(1));
    assert!(sliders.contains(2));
    assert_eq!(sliders.position(2), Some(0));
}

#[test]
fn remove_drops_clients_then_empty_sliders() {
    let mut sliders = Sliders::new();
    sliders.per_process = true;
    assert!(sliders.push_client(client(1, Some(100), "a")).is_none());
    assert_eq!(sliders.push_client(client(2, Some(100), "b")), Some(0));
    assert!(sliders.push_client(client(3, Some(200), "c")).is_none());
    // The shared slider keeps living after losing one of its two clients.
    assert_eq!(sliders.remove(1), Some(0));
    assert!(!sliders.contains(1));
    assert!(sliders.contains(2));
    assert_eq!(sliders.sliders.len(), 2);
    // Losing its last client removes the slider itself.
    assert_eq!(sliders.remove(2), None);
    assert_eq!(sliders.sliders.len(), 1);
    // An unknown id changes nothing.
    assert_eq!(sliders.remove(99), None);
    assert_eq!(sliders.sliders.len(), 1);
    sliders.clear();
    assert_eq!(sliders.sliders.len(), 0);
}

fn output(name: &str, port: &str, master: bool) -> Output {
    Output { name: name.to_string(), port: port.to_string(), master }
}

#[test]
fn switches_activate_exactly_one_output() {
    let mut switches = Switches::new();
    switches.push(output("card", "analog", false));
    switches.push(output("card", "hdmi", false));
    switches.push(output("usb", "analog", false));
    switches.set_active(&output("card", "hdmi", true));
    let active: Vec<bool> = switches.switches.iter().map(|s| s.active).collect();
    assert_eq!(active, vec![false, true, false]);
    // Switching again moves the mark.
    switches.set_active(&output("usb", "analog", true));
    let active: Vec<bool> = switches.switches.iter().map(|s| s.active).collect();
    assert_eq!(active, vec![true, false, false]);
    // An unknown output deactivates everything.
    switches.set_active(&output("gone", "analog", true));
    assert!(switches.switches.iter().all(|s| !s.active));
}

#[test]
fn switch_update_answers_clicks_with_its_output() {
    let mut switch = Switch::init_model(output("card", "hdmi", false));
    assert!(!switch.active);
    assert!(switch.update(SwitchMessage::Activate).is_none());
    assert!(switch.active);
    assert!(switch.update(SwitchMessage::Deactivate).is_none());
    assert!(!switch.active);
    let reply = switch.update(SwitchMessage::Click);
    assert_eq!(reply, Some(("card".to_string(), "hdmi".to_string())));
}

#[test]
fn port_icons_match_known_port_names() {
    assert_eq!(icon("Analog Headphones"), "audio-headphones-symbolic");
    assert_eq!(icon("HDMI / DisplayPort"), "computer-symbolic");
    assert_eq!(icon("Speaker"), "multimedia-player-symbolic");
}

#[test]
fn output_messages_drive_the_switch_row() {
    let mut switches = Switches::new();
    handle_msg_output(&mut switches, MessageOutput::New(output("card", "analog", false)));
    handle_msg_output(&mut switches, MessageOutput::New(output("card", "hdmi", false)));
    handle_msg_output(&mut switches, MessageOutput::Master(output("card", "analog", true)));
    let active: Vec<bool> = switches.switches.iter().map(|s| s.active).collect();
    assert_eq!(active, vec![false, true]);
}

#[test]
fn anchors_parse_from_their_first_letter() {
    let top = Anchor::try_from(&"top".to_string()).unwrap();
    assert_eq!(top.bits, ANCHOR_TOP);
    let left = Anchor::try_from(&"Left".to_string()).unwrap();
    assert_eq!(left.bits, ANCHOR_LEFT);
    let bottom = Anchor::try_from(&"b".to_string()).unwrap();
    assert_eq!(bottom.bits, ANCHOR_BOTTOM);
    let right = Anchor::try_from(&"RIGHT".to_string()).unwrap();
    assert_eq!(right.bits, ANCHOR_RIGHT);
    match Anchor::try_from(&"middle".to_string()) {
        Err(CLIError::Anchor(s)) => assert_eq!(s, "middle"),
        _ => panic!("an unknown anchor must be refused"),
    }
    assert!(Anchor::try_from(&"".to_string()).is_err());
}

#[test]
fn position_measures_from_the_anchored_edges() {
    let screen = (1920u32, 1080u32);
    let window = (350u32, 30u32);
    let anchor = Anchor { bits: ANCHOR_TOP | ANCHOR_LEFT };
    assert_eq!(anchor.position(&vec![10, 20], screen, window), (20, 10));
    let anchor = Anchor { bits: ANCHOR_BOTTOM | ANCHOR_RIGHT };
    // Bottom first (bit order), then right: margins pair in that order.
    assert_eq!(
        anchor.position(&vec![5, 7], screen, window),
        (1920 - 350 - 7, 1080 - 30 - 5)
    );
    let anchor = Anchor { bits: ANCHOR_TOP };
    assert_eq!(anchor.position(&Vec::new(), screen, window), (0, 0));
}
