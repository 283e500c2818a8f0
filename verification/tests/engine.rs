use mixxc::kind::Kind;
use mixxc::levels::VolumeLevels;
use mixxc::server::error::{Error, PulseError};
use mixxc::server::pulse::{
    facility_from_raw, operation_from_raw, state_from_raw, ConnectionState, Facility,
    IterateDecision, Operation, OutputSwitchPlan, Pulse, RouterQuery, VolumeTarget, MASK_SERVER,
    MASK_SINK, MASK_SINK_INPUT,
};
use mixxc::server::{
    Message, MessageClient, MessageOutput, PortRecord, SinkInputRecord, SinkRecord,
};

fn stream_record(index: u32) -> SinkInputRecord {
    SinkInputRecord {
        index,
        name: Some("Music".to_string()),
        app_name: Some("player".to_string()),
        icon: None,
        process_id: Some("4242".to_string()),
        volume: vec![65536, 65536],
        mute: false,
        corked: false,
        has_volume: true,
    }
}

fn ready_engine() -> Pulse {
    let mut pulse = Pulse::new();
    assert!(pulse.connect().is_ok());
    let msg = pulse.on_state_change(ConnectionState::Ready, 0);
    assert!(matches!(msg, Some(Message::Ready)));
    pulse
}

#[test]
fn connect_starts_a_fresh_attempt() {
    let mut pulse = Pulse::new();
    assert!(!pulse.is_connected());
    assert!(pulse.connect().is_ok());
    assert!(!pulse.is_connected());
    assert!(!pulse.is_terminated());
}

#[test]
fn connect_while_ready_fails_without_disturbing_the_session() {
    let mut pulse = ready_engine();
    assert!(pulse.is_connected());
    let second = pulse.connect();
    assert!(matches!(second, Err(Error::AlreadyConnected)));
    // The first session is untouched: still ready, commands still go through.
    assert!(pulse.is_connected());
    assert!(pulse.request_software().is_ok());
}

#[test]
fn ready_message_is_emitted_exactly_once() {
    let mut pulse = Pulse::new();
    assert!(pulse.connect().is_ok());
    let first = pulse.on_state_change(ConnectionState::Ready, 0);
    assert!(matches!(first, Some(Message::Ready)));
    let again = pulse.on_state_change(ConnectionState::Ready, 0);
    assert!(again.is_none());
}

#[test]
fn failure_emits_one_disconnected_with_its_cause() {
    let mut pulse = Pulse::new();
    assert!(pulse.connect().is_ok());
    let msg = pulse.on_state_change(ConnectionState::Failed, 6);
    match msg {
        Some(Message::Disconnected(Some(Error::Pulse(PulseError::Connection(6))))) => {}
        other => panic!("unexpected message: {:?}", kind_of(&other)),
    }
    // The session is over: later native changes are absorbed silently.
    assert!(pulse.on_state_change(ConnectionState::Ready, 0).is_none());
}

#[test]
fn disconnect_emits_exactly_one_clean_disconnected() {
    let mut pulse = ready_engine();
    let msg = pulse.disconnect();
    assert!(matches!(msg, Some(Message::Disconnected(None))));
    assert!(pulse.is_terminated());
    // Idempotent: a second disconnect is a safe no-op.
    assert!(pulse.disconnect().is_none());
    assert!(pulse.is_terminated());
}

#[test]
fn no_client_messages_after_disconnect() {
    let mut pulse = ready_engine();
    assert!(pulse.disconnect().is_some());
    let (q, m) = pulse.subscribe_callback(Some(Facility::SinkInput), Some(Operation::New), 7);
    assert!(matches!(q, RouterQuery::Nothing));
    assert!(m.is_none());
    let (nm, meter) = pulse.add_sink_input(Some(stream_record(7)));
    assert!(nm.is_none());
    assert!(meter.is_none());
    assert!(pulse.sink_input_changed(Some(stream_record(7))).is_none());
    assert!(pulse.handle_peak(7, 0x3F000000).is_none());
    assert!(pulse.outputs_listed(Some(sink_record())).is_empty());
    assert!(pulse.master_listed(Some(sink_record())).is_empty());
}

#[test]
fn new_for_an_id_comes_before_its_changed() {
    let mut pulse = ready_engine();
    let mut seen: Vec<&'static str> = Vec::new();

    let mask = pulse.subscribe(Kind::software().union(Kind::out())).unwrap();
    assert_eq!(mask, MASK_SINK_INPUT);

    let (q, _) = pulse.subscribe_callback(Some(Facility::SinkInput), Some(Operation::New), 7);
    assert!(matches!(q, RouterQuery::SinkInputNew(7)));
    let (msg, meter) = pulse.add_sink_input(Some(stream_record(7)));
    match msg {
        Some(Message::OutputClient(MessageClient::New(c))) => {
            assert_eq!(c.id, 7);
            seen.push("new");
        }
        _ => panic!("expected the New message first"),
    }
    assert_eq!(meter, Some(7));

    let (q, _) = pulse.subscribe_callback(Some(Facility::SinkInput), Some(Operation::Changed), 7);
    assert!(matches!(q, RouterQuery::SinkInputChanged(7)));
    match pulse.sink_input_changed(Some(stream_record(7))) {
        Some(Message::OutputClient(MessageClient::Changed(c))) => {
            assert_eq!(c.id, 7);
            seen.push("changed");
        }
        _ => panic!("expected the Changed message"),
    }

    let (q, removed) =
        pulse.subscribe_callback(Some(Facility::SinkInput), Some(Operation::Removed), 7);
    assert!(matches!(q, RouterQuery::Nothing));
    match removed {
        Some(Message::OutputClient(MessageClient::Removed(7))) => seen.push("removed"),
        _ => panic!("expected the Removed message"),
    }

    assert_eq!(seen, vec!["new", "changed", "removed"]);
}

#[test]
fn router_routes_sink_and_server_events() {
    let mut pulse = ready_engine();
    let (q, m) = pulse.subscribe_callback(Some(Facility::Sink), Some(Operation::Changed), 0);
    assert!(matches!(q, RouterQuery::SinkChanged));
    assert!(m.is_none());
    let (q, m) = pulse.subscribe_callback(Some(Facility::Server), Some(Operation::Changed), 0);
    assert!(matches!(q, RouterQuery::ServerInfo));
    assert!(m.is_none());
    let (q, m) = pulse.subscribe_callback(Some(Facility::Card), Some(Operation::New), 3);
    assert!(matches!(q, RouterQuery::Nothing));
    assert!(m.is_none());
    let (q, m) = pulse.subscribe_callback(Some(Facility::SinkInput), None, 3);
    assert!(matches!(q, RouterQuery::Nothing));
    assert!(m.is_none());
}

#[test]
fn subscribe_builds_the_interest_mask() {
    let pulse = ready_engine();
    let sw = pulse.subscribe(Kind::software().union(Kind::out())).unwrap();
    assert_eq!(sw, MASK_SINK_INPUT);
    let hw = pulse.subscribe(Kind::hardware()).unwrap();
    assert_eq!(hw, MASK_SINK | MASK_SERVER);
    let both = pulse.subscribe(Kind::software().union(Kind::hardware())).unwrap();
    assert_eq!(both, MASK_SINK_INPUT | MASK_SINK | MASK_SERVER);
    let neither = pulse.subscribe(Kind::out()).unwrap();
    assert_eq!(neither, 0);
}

#[test]
fn queries_fail_while_not_ready() {
    let pulse = Pulse::new();
    let not_connected = Error::Pulse(PulseError::NotConnected);
    assert_eq!(pulse.request_software(), Err(not_connected));
    assert_eq!(pulse.request_master(), Err(not_connected));
    assert_eq!(pulse.request_outputs(), Err(not_connected));
    assert!(pulse.subscribe(Kind::software()).is_err());
}

#[test]
fn set_volume_routes_by_capability() {
    let pulse = ready_engine();
    let levels = VolumeLevels::new(vec![65536]);
    let ids = vec![7, 9];
    let plan = pulse.set_volume(&ids, Kind::out().union(Kind::software()), &levels);
    assert_eq!(plan, vec![(7, VolumeTarget::SinkInput), (9, VolumeTarget::SinkInput)]);
    let plan = pulse.set_volume(&ids, Kind::out().union(Kind::hardware()), &levels);
    assert_eq!(plan, vec![(7, VolumeTarget::Sink), (9, VolumeTarget::Sink)]);
    let plan = pulse.set_volume(&ids, Kind::input(), &levels);
    assert!(plan.is_empty());
    let idle = Pulse::new();
    assert!(idle.set_volume(&ids, Kind::out().union(Kind::software()), &levels).is_empty());
}

#[test]
fn set_mute_routes_by_capability() {
    let pulse = ready_engine();
    let ids = vec![3];
    let plan = pulse.set_mute(&ids, Kind::out().union(Kind::software()), true);
    assert_eq!(plan, vec![(3, VolumeTarget::SinkInput)]);
    let plan = pulse.set_mute(&ids, Kind::out().union(Kind::hardware()), false);
    assert_eq!(plan, vec![(3, VolumeTarget::Sink)]);
    assert!(pulse.set_mute(&ids, Kind::none(), true).is_empty());
}

#[test]
fn set_output_by_name_plans_the_switch() {
    let pulse = ready_engine();
    let with_port = pulse.set_output_by_name("alsa.card", Some("hdmi"));
    assert_eq!(with_port, OutputSwitchPlan { set_port: true, set_default: true });
    let without_port = pulse.set_output_by_name("alsa.card", None);
    assert_eq!(without_port, OutputSwitchPlan { set_port: false, set_default: true });
    let empty = pulse.set_output_by_name("", Some("hdmi"));
    assert_eq!(empty, OutputSwitchPlan { set_port: false, set_default: false });
    let idle = Pulse::new();
    let plan = idle.set_output_by_name("alsa.card", Some("hdmi"));
    assert_eq!(plan, OutputSwitchPlan { set_port: false, set_default: false });
}

#[test]
fn iterate_outcome_sorts_failures() {
    let mut pulse = ready_engine();
    assert!(matches!(pulse.iterate_outcome(Ok(3)), IterateDecision::Continue));
    assert!(matches!(pulse.iterate_outcome(Err(-2)), IterateDecision::Quit));
    match pulse.iterate_outcome(Err(8)) {
        IterateDecision::Report(Message::Error(Error::Pulse(PulseError::Other(8)))) => {}
        _ => panic!("a timeout should be reported as a non-fatal error"),
    }
}

#[test]
fn error_codes_map_to_their_variants() {
    assert_eq!(PulseError::from_code(-2), PulseError::MainloopQuit);
    assert_eq!(PulseError::from_code(11), PulseError::Disconnected);
    assert_eq!(PulseError::from_code(6), PulseError::Connection(6));
    assert_eq!(PulseError::from_code(13), PulseError::Connection(13));
    assert_eq!(PulseError::from_code(0), PulseError::Other(0));
    assert_eq!(PulseError::from_code(8), PulseError::Other(8));
    assert_eq!(PulseError::from_code(99), PulseError::Other(20));
    assert_eq!(PulseError::from_code(-7), PulseError::Other(20));
    assert_eq!(Error::from(PulseError::NotConnected), Error::Pulse(PulseError::NotConnected));
}

#[test]
fn raw_decoders_follow_the_native_values() {
    assert_eq!(state_from_raw(4), ConnectionState::Ready);
    assert_eq!(state_from_raw(6), ConnectionState::Terminated);
    assert_eq!(state_from_raw(0), ConnectionState::Unconnected);
    assert_eq!(state_from_raw(200), ConnectionState::Unconnected);
    assert_eq!(facility_from_raw(2), Some(Facility::SinkInput));
    assert_eq!(facility_from_raw(0), Some(Facility::Sink));
    assert_eq!(facility_from_raw(7), Some(Facility::Server));
    assert_eq!(facility_from_raw(8), None);
    assert_eq!(operation_from_raw(0), Some(Operation::New));
    assert_eq!(operation_from_raw(0x10), Some(Operation::Changed));
    assert_eq!(operation_from_raw(0x20), Some(Operation::Removed));
    assert_eq!(operation_from_raw(5), None);
}

fn sink_record() -> SinkRecord {
    SinkRecord {
        index: 0,
        name: Some("alsa.card".to_string()),
        active_port: Some(PortRecord {
            name: Some("analog-output".to_string()),
            description: Some("Speakers".to_string()),
            available: true,
        }),
        ports: vec![
            PortRecord {
                name: Some("analog-output".to_string()),
                description: Some("Speakers".to_string()),
                available: true,
            },
            PortRecord {
                name: Some("hdmi-output".to_string()),
                description: Some("HDMI".to_string()),
                available: false,
            },
        ],
        volume: vec![65536, 32768],
        mute: false,
    }
}

#[test]
fn outputs_listing_skips_unavailable_ports() {
    let mut pulse = ready_engine();
    let msgs = pulse.outputs_listed(Some(sink_record()));
    assert_eq!(msgs.len(), 1);
    match &msgs[0] {
        Message::Output(MessageOutput::New(o)) => {
            assert_eq!(o.name, "alsa.card");
            assert_eq!(o.port, "analog-output");
            assert!(!o.master);
        }
        _ => panic!("expected one selectable output"),
    }
}

#[test]
fn outputs_listing_reports_nameless_sinks() {
    let mut pulse = ready_engine();
    let mut rec = sink_record();
    rec.name = None;
    let msgs = pulse.outputs_listed(Some(rec));
    assert_eq!(msgs.len(), 1);
    assert!(matches!(
        msgs[0],
        Message::Error(Error::Pulse(PulseError::NamelessSink(0)))
    ));
}

#[test]
fn outputs_listing_reports_nameless_ports() {
    let mut pulse = ready_engine();
    let mut rec = sink_record();
    rec.ports[0].name = None;
    let msgs = pulse.outputs_listed(Some(rec));
    assert_eq!(msgs.len(), 1);
    assert!(matches!(
        msgs[0],
        Message::Error(Error::Pulse(PulseError::NamelessPort(0)))
    ));
}

#[test]
fn master_query_yields_client_and_master_output() {
    let mut pulse = ready_engine();
    let msgs = pulse.master_listed(Some(sink_record()));
    assert_eq!(msgs.len(), 2);
    match &msgs[0] {
        Message::OutputClient(MessageClient::New(c)) => {
            assert_eq!(c.id, 0);
            assert_eq!(c.name, "Master");
            assert_eq!(c.description, "Speakers");
            // The averaging master folds (65536 + 32768) / 2.
            assert_eq!(c.volume.percent(), 49152);
        }
        _ => panic!("expected the master client first"),
    }
    match &msgs[1] {
        Message::Output(MessageOutput::Master(o)) => {
            assert_eq!(o.name, "alsa.card");
            assert_eq!(o.port, "analog-output");
            assert!(o.master);
        }
        _ => panic!("expected the master output second"),
    }
}

#[test]
fn master_change_resolves_the_new_default() {
    let mut pulse = ready_engine();
    let name = "alsa.card".to_string();
    let msgs = pulse.master_changed(&name, Some(sink_record()));
    assert_eq!(msgs.len(), 2);
    assert!(matches!(&msgs[0], Message::Output(MessageOutput::Master(_))));
    assert!(matches!(
        &msgs[1],
        Message::OutputClient(MessageClient::Changed(_))
    ));
    let mut rec = sink_record();
    rec.active_port = None;
    assert!(pulse.master_changed(&name, Some(rec)).is_empty());
}

#[test]
fn streams_without_their_own_volume_are_skipped() {
    let mut pulse = ready_engine();
    let mut rec = stream_record(5);
    rec.has_volume = false;
    let (msg, meter) = pulse.add_sink_input(Some(rec));
    assert!(msg.is_none());
    assert!(meter.is_none());
}

#[test]
fn converted_stream_carries_its_process_and_ceiling() {
    let mut pulse = ready_engine();
    let (msg, _) = pulse.add_sink_input(Some(stream_record(7)));
    match msg {
        Some(Message::OutputClient(MessageClient::New(c))) => {
            assert_eq!(c.id, 7);
            assert_eq!(c.process, Some(4242));
            assert_eq!(c.name, "player");
            assert_eq!(c.description, "Music");
            assert_eq!(c.max_volume, 255);
            assert!(!c.muted);
            assert!(!c.corked);
            assert!(c.kind.contains(Kind::out()));
            assert!(c.kind.contains(Kind::software()));
            assert!(!c.kind.contains(Kind::hardware()));
            assert_eq!(c.volume.percent(), 65536);
        }
        _ => panic!("expected a New client"),
    }
}

fn kind_of(msg: &Option<Message>) -> &'static str {
    match msg {
        None => "none",
        Some(Message::Ready) => "ready",
        Some(Message::Error(_)) => "error",
        Some(Message::Disconnected(_)) => "disconnected",
        Some(Message::Output(_)) => "output",
        Some(Message::OutputClient(_)) => "client",
    }
}
