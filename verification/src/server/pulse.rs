use vstd::prelude::*;

use crate::kind::Kind;
use crate::levels::VolumeLevels;
use crate::server::error::{pulse_error_from_spec, Error, PulseError};
use crate::server::gate::{CommandGate, GateHandle};
use crate::server::peaks::{peak_message, PeakMeterPool};
use crate::server::{
    master_messages, master_messages_spec, models_of, sink_outputs, sink_outputs_spec,
    spec_sink_client, valid_levels, ClientMsgModel, Message, MessageClient, MessageOutput,
    MsgModel, Output, OutputClient, OutputMsgModel, SinkInputRecord, SinkRecord,
};

verus! {

/// The states a native session connection passes through.
#[derive(Clone, Copy, Debug, PartialEq, Eq, Structural)]
pub enum ConnectionState {
    /// No connection was started.
    Unconnected,
    /// The handshake is under way.
    Connecting,
    /// The server is checking authentication.
    Authorizing,
    /// The client name is being registered.
    SettingName,
    /// The session is live; commands and queries may be issued.
    Ready,
    /// The connection attempt or the session failed.
    Failed,
    /// The session was terminated cleanly.
    Terminated,
}

/// A state that ends the session: no attempt survives it.
pub open spec fn closed_state(s: ConnectionState) -> bool {
    s is Failed || s is Terminated
}

/// The [`ConnectionState`] a raw native state value denotes.
pub open spec fn state_from_raw_spec(s: u8) -> ConnectionState {
    if s == 1 {
        ConnectionState::Connecting
    } else if s == 2 {
        ConnectionState::Authorizing
    } else if s == 3 {
        ConnectionState::SettingName
    } else if s == 4 {
        ConnectionState::Ready
    } else if s == 5 {
        ConnectionState::Failed
    } else if s == 6 {
        ConnectionState::Terminated
    } else {
        ConnectionState::Unconnected
    }
}

/// Decode a raw native state value; every value outside the native range
/// counts as unconnected.
pub fn state_from_raw(s: u8) -> (r: ConnectionState)
    ensures
        r == state_from_raw_spec(s),
{
    if s == 1 {
        ConnectionState::Connecting
    } else if s == 2 {
        ConnectionState::Authorizing
    } else if s == 3 {
        ConnectionState::SettingName
    } else if s == 4 {
        ConnectionState::Ready
    } else if s == 5 {
        ConnectionState::Failed
    } else if s == 6 {
        ConnectionState::Terminated
    } else {
        ConnectionState::Unconnected
    }
}

/// Interest bit for hardware-sink events.
pub const MASK_SINK: u32 = 0x1;

/// Interest bit for software-stream events.
pub const MASK_SINK_INPUT: u32 = 0x4;

/// Interest bit for global server events.
pub const MASK_SERVER: u32 = 0x80;

/// The facility a change notification speaks of, as the server tags it.
#[derive(Clone, Copy, Debug, PartialEq, Eq, Structural)]
pub enum Facility {
    Sink,
    Source,
    SinkInput,
    SourceOutput,
    Module,
    Client,
    SampleCache,
    Server,
    Card,
}

/// The [`Facility`] a raw facility value denotes, where it denotes one.
pub open spec fn facility_from_raw_spec(f: u32) -> Option<Facility> {
    if f == 0 {
        Option::Some(Facility::Sink)
    } else if f == 1 {
        Option::Some(Facility::Source)
    } else if f == 2 {
        Option::Some(Facility::SinkInput)
    } else if f == 3 {
        Option::Some(Facility::SourceOutput)
    } else if f == 4 {
        Option::Some(Facility::Module)
    } else if f == 5 {
        Option::Some(Facility::Client)
    } else if f == 6 {
        Option::Some(Facility::SampleCache)
    } else if f == 7 {
        Option::Some(Facility::Server)
    } else if f == 9 {
        Option::Some(Facility::Card)
    } else {
        Option::<Facility>::None
    }
}

/// Decode a raw facility value.
pub fn facility_from_raw(f: u32) -> (r: Option<Facility>)
    ensures
        r == facility_from_raw_spec(f),
{
    if f == 0 {
        Option::Some(Facility::Sink)
    } else if f == 1 {
        Option::Some(Facility::Source)
    } else if f == 2 {
        Option::Some(Facility::SinkInput)
    } else if f == 3 {
        Option::Some(Facility::SourceOutput)
    } else if f == 4 {
        Option::Some(Facility::Module)
    } else if f == 5 {
        Option::Some(Facility::Client)
    } else if f == 6 {
        Option::Some(Facility::SampleCache)
    } else if f == 7 {
        Option::Some(Facility::Server)
    } else if f == 9 {
        Option::Some(Facility::Card)
    } else {
        Option::None
    }
}

/// What happened to the entity a change notification speaks of.
#[derive(Clone, Copy, Debug, PartialEq, Eq, Structural)]
pub enum Operation {
    /// The entity appeared.
    New,
    /// The entity changed.
    Changed,
    /// The entity disappeared.
    Removed,
}

/// The [`Operation`] a raw operation value denotes, where it denotes one.
pub open spec fn operation_from_raw_spec(o: u32) -> Option<Operation> {
    if o == 0 {
        Option::Some(Operation::New)
    } else if o == 0x10 {
        Option::Some(Operation::Changed)
    } else if o == 0x20 {
        Option::Some(Operation::Removed)
    } else {
        Option::<Operation>::None
    }
}

/// Decode a raw operation value.
pub fn operation_from_raw(o: u32) -> (r: Option<Operation>)
    ensures
        r == operation_from_raw_spec(o),
{
    if o == 0 {
        Option::Some(Operation::New)
    } else if o == 0x10 {
        Option::Some(Operation::Changed)
    } else if o == 0x20 {
        Option::Some(Operation::Removed)
    } else {
        Option::None
    }
}

/// What the event loop should do after one iteration's outcome.
pub enum IterateDecision {
    /// Keep iterating.
    Continue,
    /// The loop was quit deliberately; leave it.
    Quit,
    /// Keep iterating, but report this non-fatal failure.
    Report(Message),
}

/// The native query the router asks for after a change notification.
#[derive(Clone, Copy, Debug, PartialEq, Eq, Structural)]
pub enum RouterQuery {
    /// Nothing to ask.
    Nothing,
    /// Query the software stream with this index; it is new, so its answer
    /// goes to [`Pulse::add_sink_input`].
    SinkInputNew(u32),
    /// Query the software stream with this index; it changed, so its
    /// answer goes to [`Pulse::sink_input_changed`].
    SinkInputChanged(u32),
    /// Query the master sink; its answer goes to [`Pulse::sink_changed`].
    SinkChanged,
    /// Query the server's default output; the answer chain ends in
    /// [`Pulse::master_changed`].
    ServerInfo,
}

/// Which native call a volume or mute command routes to.
#[derive(Clone, Copy, Debug, PartialEq, Eq, Structural)]
pub enum VolumeTarget {
    /// The per-stream call.
    SinkInput,
    /// The per-sink call.
    Sink,
}

/// The target a capability tag routes volume and mute commands to, where
/// it routes them anywhere.
pub open spec fn volume_target_spec(kind: Kind) -> Option<VolumeTarget> {
    if kind.spec_bits() & (crate::kind::KIND_OUT | crate::kind::KIND_SOFTWARE) == (
    crate::kind::KIND_OUT | crate::kind::KIND_SOFTWARE) {
        Option::Some(VolumeTarget::SinkInput)
    } else if kind.spec_bits() & (crate::kind::KIND_OUT | crate::kind::KIND_HARDWARE) == (
    crate::kind::KIND_OUT | crate::kind::KIND_HARDWARE) {
        Option::Some(VolumeTarget::Sink)
    } else {
        Option::<VolumeTarget>::None
    }
}

/// What switching the active output requires of the native layer.
#[derive(Clone, Copy, Debug, PartialEq, Eq, Structural)]
pub struct OutputSwitchPlan {
    /// Whether to set the sink's active port first.
    pub set_port: bool,
    /// Whether to set the sink as the default output.
    pub set_default: bool,
}

/// How many `Ready` messages a history holds.
pub open spec fn count_ready(h: Seq<MsgModel>) -> int
    decreases h.len(),
{
    if h.len() == 0 {
        0
    } else {
        count_ready(h.drop_last()) + if h.last() is Ready {
            1int
        } else {
            0int
        }
    }
}

/// How many `Disconnected` messages a history holds.
pub open spec fn count_disconnected(h: Seq<MsgModel>) -> int
    decreases h.len(),
{
    if h.len() == 0 {
        0
    } else {
        count_disconnected(h.drop_last()) + if h.last() is Disconnected {
            1int
        } else {
            0int
        }
    }
}

/// A history block of routine traffic: entity, output and error messages,
/// never a `Ready` or a `Disconnected`.
pub open spec fn routine(h: Seq<MsgModel>) -> bool {
    forall|i: int| 0 <= i < h.len() ==> !((#[trigger] h[i]) is Ready) && !(h[i] is Disconnected)
}

proof fn lemma_counts_push(h: Seq<MsgModel>, m: MsgModel)
    ensures
        count_ready(h.push(m)) == count_ready(h) + if m is Ready {
            1int
        } else {
            0int
        },
        count_disconnected(h.push(m)) == count_disconnected(h) + if m is Disconnected {
            1int
        } else {
            0int
        },
{
    assert(h.push(m).drop_last() =~= h);
    assert(h.push(m).last() == m);
}

proof fn lemma_counts_append_routine(h: Seq<MsgModel>, t: Seq<MsgModel>)
    requires
        routine(t),
    ensures
        count_ready(h + t) == count_ready(h),
        count_disconnected(h + t) == count_disconnected(h),
    decreases t.len(),
{
    if t.len() == 0 {
        assert(h + t =~= h);
    } else {
        assert(forall|i: int| 0 <= i < t.len() - 1 ==> t.drop_last()[i] == t[i]);
        lemma_counts_append_routine(h, t.drop_last());
        assert((h + t).drop_last() =~= h + t.drop_last());
        assert((h + t).last() == t.last());
        assert(!(t.last() is Ready) && !(t.last() is Disconnected));
    }
}

proof fn lemma_sink_outputs_routine(name: Seq<char>, ports: Seq<crate::server::PortRecord>, index: u32)
    ensures
        routine(sink_outputs_spec(name, ports, index)),
    decreases ports.len(),
{
    if ports.len() > 0 {
        lemma_sink_outputs_routine(name, ports.drop_last(), index);
    }
}

/// The engine around one native session: the connection state machine, the
/// command gate, the peak-meter pool, and the router that turns raw change
/// notifications into typed messages.  The event loop thread drives it;
/// messages the methods yield are handed to the interface layer, queries
/// and stream work they decide on are performed by the native layer and
/// their answers fed back in.
pub struct Pulse {
    /// Where the connection stands.  Mirrored into a lock-free byte for
    /// cross-thread reads; written only by the loop thread.
    pub state: ConnectionState,
    /// The cross-thread handshake guarding the session.
    pub gate: CommandGate,
    /// The peak meters of the live clients.
    pub peakers: PeakMeterPool,
    /// Everything emitted since the current connection attempt began.
    pub history: Ghost<Seq<MsgModel>>,
    /// Whether this attempt's `Ready` message went out already.
    pub ready_seen: bool,
}

impl Pulse {
    /// Validity: gate and pool are valid; the history of the current
    /// attempt holds one `Ready` entry exactly when the ready flag is
    /// set, and one `Disconnected` entry exactly when the session is
    /// over.
    pub open spec fn wf(&self) -> bool {
        &&& self.gate.wf()
        &&& self.peakers.wf()
        &&& count_ready(self.history@) == if self.ready_seen {
            1int
        } else {
            0int
        }
        &&& self.state is Ready ==> self.ready_seen
        &&& count_disconnected(self.history@) == if closed_state(self.state) {
            1int
        } else {
            0int
        }
    }

    /// A fresh, unconnected engine.
    pub fn new() -> (r: Pulse)
        ensures
            r.wf(),
            r.state is Unconnected,
            r.gate.spec_state() is Idle,
            r.peakers@ == Seq::<u32>::empty(),
            r.history@ == Seq::<MsgModel>::empty(),
    {
        Pulse {
            state: ConnectionState::Unconnected,
            gate: CommandGate::new(),
            peakers: PeakMeterPool::new(),
            history: Ghost(Seq::empty()),
            ready_seen: false,
        }
    }

    /// The lock-free cross-thread read: whether the session is ready.
    pub fn is_connected(&self) -> (r: bool)
        ensures
            r == (self.state is Ready),
    {
        self.state == ConnectionState::Ready
    }

    /// The lock-free cross-thread read: whether the session was terminated.
    pub fn is_terminated(&self) -> (r: bool)
        ensures
            r == (self.state is Terminated),
    {
        self.state == ConnectionState::Terminated
    }

    /// Begin a connection attempt.  Refused while a session is already
    /// live, without disturbing it; otherwise a fresh attempt starts, with
    /// an empty history, and the caller must drive the event loop until
    /// the attempt ends.
    pub fn connect(&mut self) -> (r: Result<(), Error>)
        requires
            old(self).wf(),
        ensures
            final(self).wf(),
            old(self).state is Ready ==> r == Result::<(), Error>::Err(Error::AlreadyConnected)
                && *final(self) == *old(self),
            !(old(self).state is Ready) ==> {
                &&& r == Result::<(), Error>::Ok(())
                &&& final(self).state is Connecting
                &&& final(self).history@ == Seq::<MsgModel>::empty()
                &&& final(self).peakers@ == old(self).peakers@
                &&& final(self).gate == old(self).gate
            },
    {
        if self.is_connected() {
            return Result::Err(Error::AlreadyConnected);
        }
        self.state = ConnectionState::Connecting;
        self.history = Ghost(Seq::empty());
        self.ready_seen = false;
        Result::Ok(())
    }

    /// The state callback: the native session moved to `s`, with `errno`
    /// as the server's error code.  Reaching the ready state emits the one
    /// `Ready` of this attempt; failing emits the one `Disconnected` with
    /// its cause; a clean native termination emits the one `Disconnected`
    /// without one.  A session already over absorbs every further change
    /// silently.
    pub fn on_state_change(&mut self, s: ConnectionState, errno: i32) -> (r: Option<Message>)
        requires
            old(self).wf(),
        ensures
            final(self).wf(),
            closed_state(old(self).state) ==> *final(self) == *old(self) && r is None,
            !closed_state(old(self).state) ==> {
                &&& final(self).state == s
                &&& final(self).gate == old(self).gate
                &&& final(self).peakers == old(self).peakers
                &&& (s is Ready && !old(self).ready_seen ==> (r matches Option::Some(m)
                    && m.model() == MsgModel::Ready))
                &&& (s is Ready && old(self).ready_seen ==> r is None)
                &&& (s is Failed ==> (r matches Option::Some(m) && m.model()
                    == MsgModel::Disconnected(
                    Option::Some(Error::Pulse(pulse_error_from_spec(errno))),
                )))
                &&& (s is Terminated ==> (r matches Option::Some(m) && m.model()
                    == MsgModel::Disconnected(Option::<Error>::None)))
                &&& (!(s is Ready) && !(s is Failed) && !(s is Terminated) ==> r is None)
                &&& final(self).history@ == match r {
                    Option::Some(m) => old(self).history@.push(m.model()),
                    Option::None => old(self).history@,
                }
            },
    {
        if self.state == ConnectionState::Failed || self.state == ConnectionState::Terminated {
            return Option::None;
        }
        self.state = s;
        match s {
            ConnectionState::Ready => {
                if self.ready_seen {
                    Option::None
                } else {
                    self.ready_seen = true;
                    let msg = Message::Ready;
                    proof {
                        lemma_counts_push(self.history@, msg.model());
                    }
                    self.history = Ghost(self.history@.push(msg.model()));
                    Option::Some(msg)
                }
            },
            ConnectionState::Failed => {
                let e = PulseError::from_code(errno);
                let msg = Message::Disconnected(Option::Some(Error::Pulse(e)));
                proof {
                    lemma_counts_push(self.history@, msg.model());
                }
                self.history = Ghost(self.history@.push(msg.model()));
                Option::Some(msg)
            },
            ConnectionState::Terminated => {
                let msg = Message::Disconnected(Option::None);
                proof {
                    lemma_counts_push(self.history@, msg.model());
                }
                self.history = Ghost(self.history@.push(msg.model()));
                Option::Some(msg)
            },
            _ => Option::None,
        }
    }

    /// Request termination, from any thread and in any state.  The first
    /// call on a live attempt yields this attempt's one clean
    /// `Disconnected`; on a session already over it is a safe no-op that
    /// yields nothing.
    pub fn disconnect(&mut self) -> (r: Option<Message>)
        requires
            old(self).wf(),
        ensures
            final(self).wf(),
            final(self).state is Terminated,
            final(self).gate == old(self).gate,
            final(self).peakers == old(self).peakers,
            r is Some <==> !closed_state(old(self).state),
            r matches Option::Some(m) ==> m.model() == MsgModel::Disconnected(
                Option::<Error>::None,
            ) && final(self).history@ == old(self).history@.push(m.model()),
            r is None ==> final(self).history@ == old(self).history@,
            count_disconnected(final(self).history@) == 1,
    {
        if self.state == ConnectionState::Failed || self.state == ConnectionState::Terminated {
            self.state = ConnectionState::Terminated;
            return Option::None;
        }
        self.state = ConnectionState::Terminated;
        let msg = Message::Disconnected(Option::None);
        proof {
            lemma_counts_push(self.history@, msg.model());
        }
        self.history = Ghost(self.history@.push(msg.model()));
        Option::Some(msg)
    }

    /// The event loop has exited: every peak meter is force-dropped.
    pub fn loop_exited(&mut self)
        requires
            old(self).wf(),
        ensures
            final(self).wf(),
            final(self).peakers@ == Seq::<u32>::empty(),
            final(self).state == old(self).state,
            final(self).gate == old(self).gate,
            final(self).history@ == old(self).history@,
    {
        self.peakers.clear();
    }

    /// The outcome of one loop iteration: keep going on success, leave the
    /// loop on the deliberate quit sentinel, and report any other failure
    /// as non-fatal while going on.
    pub fn iterate_outcome(&mut self, outcome: Result<u32, i32>) -> (d: IterateDecision)
        requires
            old(self).wf(),
        ensures
            final(self).wf(),
            final(self).state == old(self).state,
            final(self).gate == old(self).gate,
            final(self).peakers == old(self).peakers,
            match outcome {
                Result::Ok(_) => d is Continue && final(self).history@ == old(self).history@,
                Result::Err(code) => {
                    if pulse_error_from_spec(code) is MainloopQuit {
                        d is Quit && final(self).history@ == old(self).history@
                    } else {
                        d matches IterateDecision::Report(m) && m.model() == MsgModel::Error(
                            Error::Pulse(pulse_error_from_spec(code)),
                        ) && final(self).history@ == old(self).history@.push(m.model())
                    }
                },
            },
    {
        match outcome {
            Result::Ok(_) => IterateDecision::Continue,
            Result::Err(code) => {
                let e = PulseError::from_code(code);
                if e == PulseError::MainloopQuit {
                    IterateDecision::Quit
                } else {
                    let msg = Message::Error(Error::Pulse(e));
                    proof {
                        lemma_counts_push(self.history@, msg.model());
                    }
                    self.history = Ghost(self.history@.push(msg.model()));
                    IterateDecision::Report(msg)
                }
            },
        }
    }

    /// The loop thread's boundary check, between iterations: where a
    /// caller posted a request, grant it and yield the one handle to hand
    /// over before parking; anywhere else nothing changes.
    pub fn is_locked(&mut self) -> (r: Option<GateHandle>)
        requires
            old(self).wf(),
        ensures
            final(self).wf(),
            final(self).state == old(self).state,
            final(self).peakers == old(self).peakers,
            final(self).history@ == old(self).history@,
            r is Some <==> old(self).gate.spec_state() is RequestPending,
            r is Some ==> final(self).gate.spec_state() is Granted,
            r is None ==> final(self).gate == old(self).gate,
    {
        self.gate.try_grant()
    }

    /// A waiting caller's staleness check, made before and while it waits
    /// for the session: once the session is over the loop thread will
    /// never grant again, so the caller must stop waiting and take this
    /// error instead of hanging forever.
    pub fn lock_check(&self) -> (r: Result<(), Error>)
        ensures
            r is Ok <==> !closed_state(self.state),
            r matches Result::Err(e) ==> e == Error::Pulse(PulseError::NotConnected),
    {
        if self.state == ConnectionState::Failed || self.state == ConnectionState::Terminated {
            return Result::Err(Error::Pulse(PulseError::NotConnected));
        }
        Result::Ok(())
    }

    /// Build the native interest mask a subscription plan asks for:
    /// software means stream-level events, hardware means sink-level and
    /// server-level events.  Refused while the session is not ready.
    pub fn subscribe(&self, plan: Kind) -> (r: Result<u32, Error>)
        ensures
            r is Ok <==> self.state is Ready,
            r matches Result::Err(e) ==> e == Error::Pulse(PulseError::NotConnected),
            r matches Result::Ok(mask) ==> mask == (if plan.spec_contains(
                crate::kind::Kind::software_spec(),
            ) {
                MASK_SINK_INPUT
            } else {
                0u32
            }) | (if plan.spec_contains(crate::kind::Kind::hardware_spec()) {
                MASK_SINK | MASK_SERVER
            } else {
                0u32
            }),
    {
        if !self.is_connected() {
            return Result::Err(Error::Pulse(PulseError::NotConnected));
        }
        let sw_mask: u32 = if plan.contains(Kind::software()) {
            MASK_SINK_INPUT
        } else {
            0
        };
        let hw_mask: u32 = if plan.contains(Kind::hardware()) {
            MASK_SINK | MASK_SERVER
        } else {
            0
        };
        let mask = sw_mask | hw_mask;
        Result::Ok(mask)
    }

    /// A one-shot listing of the software streams may be issued exactly
    /// while the session is ready; its answers go to
    /// [`Pulse::add_sink_input`].
    pub fn request_software(&self) -> (r: Result<(), Error>)
        ensures
            r is Ok <==> self.state is Ready,
            r matches Result::Err(e) ==> e == Error::Pulse(PulseError::NotConnected),
    {
        if !self.is_connected() {
            return Result::Err(Error::Pulse(PulseError::NotConnected));
        }
        Result::Ok(())
    }

    /// A one-shot master query may be issued exactly while the session is
    /// ready; its answer goes to [`Pulse::master_listed`].
    pub fn request_master(&self) -> (r: Result<(), Error>)
        ensures
            r is Ok <==> self.state is Ready,
            r matches Result::Err(e) ==> e == Error::Pulse(PulseError::NotConnected),
    {
        if !self.is_connected() {
            return Result::Err(Error::Pulse(PulseError::NotConnected));
        }
        Result::Ok(())
    }

    /// A one-shot listing of the hardware outputs may be issued exactly
    /// while the session is ready; its answers go to
    /// [`Pulse::outputs_listed`].
    pub fn request_outputs(&self) -> (r: Result<(), Error>)
        ensures
            r is Ok <==> self.state is Ready,
            r matches Result::Err(e) ==> e == Error::Pulse(PulseError::NotConnected),
    {
        if !self.is_connected() {
            return Result::Err(Error::Pulse(PulseError::NotConnected));
        }
        Result::Ok(())
    }

    /// Route a volume change: which native call applies to each id.  An
    /// output-software command goes to the per-stream call, an
    /// output-hardware command to the per-sink call; any other capability
    /// set, or a session not ready, applies nowhere.
    pub fn set_volume(&self, ids: &Vec<u32>, kind: Kind, levels: &VolumeLevels) -> (plan: Vec<
        (u32, VolumeTarget),
    >)
        ensures
            !(self.state is Ready) ==> plan@.len() == 0,
            self.state is Ready ==> match volume_target_spec(kind) {
                Option::Some(t) => plan@.len() == ids@.len() && forall|i: int|
                    0 <= i < plan@.len() ==> plan@[i] == (ids@[i], t),
                Option::None => plan@.len() == 0,
            },
    {
        let mut plan: Vec<(u32, VolumeTarget)> = Vec::new();
        if !self.is_connected() {
            return plan;
        }
        let target: Option<VolumeTarget> = if kind.contains(Kind::out().union(Kind::software())) {
            Option::Some(VolumeTarget::SinkInput)
        } else if kind.contains(Kind::out().union(Kind::hardware())) {
            Option::Some(VolumeTarget::Sink)
        } else {
            Option::None
        };
        let t = match target {
            Option::Some(t) => t,
            Option::None => {
                return plan;
            },
        };
        let n = ids.len();
        let mut i: usize = 0;
        while i < n
            invariant
                i <= n,
                n == ids@.len(),
                plan@.len() == i,
                forall|j: int| 0 <= j < i ==> plan@[j] == (ids@[j], t),
            decreases n - i,
        {
            plan.push((ids[i], t));
            i += 1;
        }
        plan
    }

    /// Route a mute change; the same routing as a volume change.
    pub fn set_mute(&self, ids: &Vec<u32>, kind: Kind, flag: bool) -> (plan: Vec<
        (u32, VolumeTarget),
    >)
        ensures
            !(self.state is Ready) ==> plan@.len() == 0,
            self.state is Ready ==> match volume_target_spec(kind) {
                Option::Some(t) => plan@.len() == ids@.len() && forall|i: int|
                    0 <= i < plan@.len() ==> plan@[i] == (ids@[i], t),
                Option::None => plan@.len() == 0,
            },
    {
        let mut plan: Vec<(u32, VolumeTarget)> = Vec::new();
        if !self.is_connected() {
            return plan;
        }
        let target: Option<VolumeTarget> = if kind.contains(Kind::out().union(Kind::software())) {
            Option::Some(VolumeTarget::SinkInput)
        } else if kind.contains(Kind::out().union(Kind::hardware())) {
            Option::Some(VolumeTarget::Sink)
        } else {
            Option::None
        };
        let t = match target {
            Option::Some(t) => t,
            Option::None => {
                return plan;
            },
        };
        let n = ids.len();
        let mut i: usize = 0;
        while i < n
            invariant
                i <= n,
                n == ids@.len(),
                plan@.len() == i,
                forall|j: int| 0 <= j < i ==> plan@[j] == (ids@[j], t),
            decreases n - i,
        {
            plan.push((ids[i], t));
            i += 1;
        }
        plan
    }

    /// Plan the switch of the active hardware output: nothing while the
    /// session is not ready or the name is empty; otherwise the port is
    /// set first where one was named, then the sink becomes the default.
    pub fn set_output_by_name(&self, name: &str, port: Option<&str>) -> (plan: OutputSwitchPlan)
        ensures
            (!(self.state is Ready) || name@.len() == 0) ==> plan == (OutputSwitchPlan {
                set_port: false,
                set_default: false,
            }),
            self.state is Ready && name@.len() > 0 ==> plan == (OutputSwitchPlan {
                set_port: port is Some,
                set_default: true,
            }),
    {
        if !self.is_connected() || name.is_empty() {
            return OutputSwitchPlan { set_port: false, set_default: false };
        }
        OutputSwitchPlan { set_port: port.is_some(), set_default: true }
    }

    /// Route one raw change notification: stream-level events go to the
    /// entity handlers, sink-level and server-level events re-query the
    /// default output.  A removed stream loses its meter and its `Removed`
    /// goes out at once; the other answers arrive through the query named
    /// by the returned [`RouterQuery`].  Nothing happens while the session
    /// is not ready.
    pub fn subscribe_callback(&mut self, facility: Option<Facility>, op: Option<Operation>, id: u32)
        -> (r: (RouterQuery, Option<Message>))
        requires
            old(self).wf(),
        ensures
            final(self).wf(),
            final(self).state == old(self).state,
            final(self).gate == old(self).gate,
            !(old(self).state is Ready) ==> *final(self) == *old(self) && r.0 is Nothing && r.1
                is None,
            old(self).state is Ready ==> match (facility, op) {
                (Option::Some(Facility::SinkInput), Option::Some(Operation::New)) => r.0
                    == RouterQuery::SinkInputNew(id) && r.1 is None && *final(self) == *old(self),
                (Option::Some(Facility::SinkInput), Option::Some(Operation::Changed)) => r.0
                    == RouterQuery::SinkInputChanged(id) && r.1 is None && *final(self) == *old(
                    self,
                ),
                (Option::Some(Facility::SinkInput), Option::Some(Operation::Removed)) => {
                    &&& r.0 is Nothing
                    &&& r.1 matches Option::Some(m) && m.model() == MsgModel::Client(
                        ClientMsgModel::Removed(id),
                    )
                    &&& final(self).peakers@ == old(self).peakers@.remove_value(id)
                    &&& final(self).history@ == old(self).history@.push(
                        MsgModel::Client(ClientMsgModel::Removed(id)),
                    )
                },
                (Option::Some(Facility::Sink), Option::Some(_)) => r.0 == RouterQuery::SinkChanged
                    && r.1 is None && *final(self) == *old(self),
                (Option::Some(Facility::Server), Option::Some(_)) => r.0 == RouterQuery::ServerInfo
                    && r.1 is None && *final(self) == *old(self),
                (_, Option::None) => r.0 is Nothing && r.1 is None && *final(self) == *old(self),
                _ => r.0 is Nothing && r.1 is None && *final(self) == *old(self),
            },
    {
        if !self.is_connected() {
            return (RouterQuery::Nothing, Option::None);
        }
        let o = match op {
            Option::Some(o) => o,
            Option::None => {
                return (RouterQuery::Nothing, Option::None);
            },
        };
        match facility {
            Option::Some(Facility::SinkInput) => match o {
                Operation::New => (RouterQuery::SinkInputNew(id), Option::None),
                Operation::Changed => (RouterQuery::SinkInputChanged(id), Option::None),
                Operation::Removed => {
                    self.peakers.detach(id);
                    let msg = Message::OutputClient(MessageClient::Removed(id));
                    proof {
                        lemma_counts_push(self.history@, msg.model());
                    }
                    self.history = Ghost(self.history@.push(msg.model()));
                    (RouterQuery::Nothing, Option::Some(msg))
                },
            },
            Option::Some(Facility::Sink) => (RouterQuery::SinkChanged, Option::None),
            Option::Some(Facility::Server) => (RouterQuery::ServerInfo, Option::None),
            _ => (RouterQuery::Nothing, Option::None),
        }
    }

    /// A queried software stream arrived: where the session is ready and
    /// the stream carries a volume of its own, its `New` goes out and —
    /// where the id carries no meter yet and is not the synthetic master —
    /// the returned id asks the native layer for a monitoring stream,
    /// whose outcome comes back through [`Pulse::meter_created`].
    pub fn add_sink_input(&mut self, info: Option<SinkInputRecord>) -> (r: (
        Option<Message>,
        Option<u32>,
    ))
        requires
            old(self).wf(),
            info matches Option::Some(rec) ==> valid_levels(rec.volume@),
        ensures
            final(self).wf(),
            final(self).state == old(self).state,
            final(self).gate == old(self).gate,
            final(self).peakers == old(self).peakers,
            !(old(self).state is Ready) ==> *final(self) == *old(self) && r.0 is None && r.1
                is None,
            old(self).state is Ready ==> match info {
                Option::Some(rec) => {
                    if rec.has_volume {
                        &&& r.0 matches Option::Some(m) && m.model() == MsgModel::Client(
                            ClientMsgModel::New(crate::server::spec_sink_input_client(rec)),
                        )
                        &&& final(self).history@ == old(self).history@.push(
                            MsgModel::Client(
                                ClientMsgModel::New(crate::server::spec_sink_input_client(rec)),
                            ),
                        )
                        &&& r.1 == Option::Some(rec.index)
                    } else {
                        r.0 is None && r.1 is None && *final(self) == *old(self)
                    }
                },
                Option::None => r.0 is None && r.1 is None && *final(self) == *old(self),
            },
    {
        if !self.is_connected() {
            return (Option::None, Option::None);
        }
        let rec = match info {
            Option::Some(rec) => rec,
            Option::None => {
                return (Option::None, Option::None);
            },
        };
        if !rec.has_volume {
            return (Option::None, Option::None);
        }
        let id = rec.index;
        let client = OutputClient::from_sink_input(rec);
        let msg = Message::OutputClient(MessageClient::New(client));
        proof {
            lemma_counts_push(self.history@, msg.model());
        }
        self.history = Ghost(self.history@.push(msg.model()));
        (Option::Some(msg), Option::Some(id))
    }

    /// The native layer reports whether the monitoring stream for `id`
    /// came up; the pool records it as [`PeakMeterPool::attach`] says.
    pub fn meter_created(&mut self, id: u32, created: bool) -> (attached: bool)
        requires
            old(self).wf(),
        ensures
            final(self).wf(),
            final(self).state == old(self).state,
            final(self).gate == old(self).gate,
            final(self).history@ == old(self).history@,
            attached == (id != crate::server::MASTER_ID && created && !old(
                self,
            ).peakers@.contains(id)),
            final(self).peakers@ == if attached {
                old(self).peakers@.push(id)
            } else {
                old(self).peakers@
            },
    {
        self.peakers.attach(id, created)
    }

    /// A queried software stream changed: where the session is ready, its
    /// `Changed` goes out.
    pub fn sink_input_changed(&mut self, info: Option<SinkInputRecord>) -> (r: Option<Message>)
        requires
            old(self).wf(),
            info matches Option::Some(rec) ==> valid_levels(rec.volume@),
        ensures
            final(self).wf(),
            final(self).state == old(self).state,
            final(self).gate == old(self).gate,
            final(self).peakers == old(self).peakers,
            !(old(self).state is Ready) ==> *final(self) == *old(self) && r is None,
            old(self).state is Ready ==> match info {
                Option::Some(rec) => {
                    &&& r matches Option::Some(m) && m.model() == MsgModel::Client(
                        ClientMsgModel::Changed(crate::server::spec_sink_input_client(rec)),
                    )
                    &&& final(self).history@ == old(self).history@.push(
                        MsgModel::Client(
                            ClientMsgModel::Changed(crate::server::spec_sink_input_client(rec)),
                        ),
                    )
                },
                Option::None => r is None && *final(self) == *old(self),
            },
    {
        if !self.is_connected() {
            return Option::None;
        }
        let rec = match info {
            Option::Some(rec) => rec,
            Option::None => {
                return Option::None;
            },
        };
        let client = OutputClient::from_sink_input(rec);
        let msg = Message::OutputClient(MessageClient::Changed(client));
        proof {
            lemma_counts_push(self.history@, msg.model());
        }
        self.history = Ghost(self.history@.push(msg.model()));
        Option::Some(msg)
    }

    /// The queried master sink changed: where the session is ready, its
    /// `Changed` goes out.
    pub fn sink_changed(&mut self, info: Option<SinkRecord>) -> (r: Option<Message>)
        requires
            old(self).wf(),
            info matches Option::Some(rec) ==> valid_levels(rec.volume@),
        ensures
            final(self).wf(),
            final(self).state == old(self).state,
            final(self).gate == old(self).gate,
            final(self).peakers == old(self).peakers,
            !(old(self).state is Ready) ==> *final(self) == *old(self) && r is None,
            old(self).state is Ready ==> match info {
                Option::Some(rec) => {
                    &&& r matches Option::Some(m) && m.model() == MsgModel::Client(
                        ClientMsgModel::Changed(spec_sink_client(rec)),
                    )
                    &&& final(self).history@ == old(self).history@.push(
                        MsgModel::Client(ClientMsgModel::Changed(spec_sink_client(rec))),
                    )
                },
                Option::None => r is None && *final(self) == *old(self),
            },
    {
        if !self.is_connected() {
            return Option::None;
        }
        let rec = match info {
            Option::Some(rec) => rec,
            Option::None => {
                return Option::None;
            },
        };
        let client = OutputClient::from_sink(rec);
        let msg = Message::OutputClient(MessageClient::Changed(client));
        proof {
            lemma_counts_push(self.history@, msg.model());
        }
        self.history = Ghost(self.history@.push(msg.model()));
        Option::Some(msg)
    }

    /// The default output resolved to a named sink whose record arrived:
    /// where the session is ready and the sink has a named active port,
    /// the new master output and the master client's `Changed` go out.
    pub fn master_changed(&mut self, output_name: &String, info: Option<SinkRecord>) -> (msgs: Vec<
        Message,
    >)
        requires
            old(self).wf(),
            info matches Option::Some(rec) ==> valid_levels(rec.volume@),
        ensures
            final(self).wf(),
            final(self).state == old(self).state,
            final(self).gate == old(self).gate,
            final(self).peakers == old(self).peakers,
            final(self).history@ == old(self).history@ + models_of(msgs@),
            !(old(self).state is Ready) ==> msgs@.len() == 0,
            old(self).state is Ready ==> match info {
                Option::Some(rec) => match crate::server::active_port_name(rec) {
                    Option::Some(p) => models_of(msgs@) == seq![
                        MsgModel::Output(
                            OutputMsgModel::Master(
                                crate::server::OutputModel {
                                    name: output_name@,
                                    port: p,
                                    master: true,
                                },
                            ),
                        ),
                        MsgModel::Client(ClientMsgModel::Changed(spec_sink_client(rec))),
                    ],
                    Option::None => msgs@.len() == 0,
                },
                Option::None => msgs@.len() == 0,
            },
    {
        let mut msgs: Vec<Message> = Vec::new();
        if !self.is_connected() {
            proof {
                assert(old(self).history@ + models_of(msgs@) =~= old(self).history@);
            }
            return msgs;
        }
        let rec = match info {
            Option::Some(rec) => rec,
            Option::None => {
                proof {
                    assert(old(self).history@ + models_of(msgs@) =~= old(self).history@);
                }
                return msgs;
            },
        };
        let port: String = match &rec.active_port {
            Option::Some(p) => match &p.name {
                Option::Some(s) => s.clone(),
                Option::None => {
                    proof {
                        assert(old(self).history@ + models_of(msgs@) =~= old(self).history@);
                    }
                    return msgs;
                },
            },
            Option::None => {
                proof {
                    assert(old(self).history@ + models_of(msgs@) =~= old(self).history@);
                }
                return msgs;
            },
        };
        let output = Output { name: output_name.clone(), port, master: true };
        msgs.push(Message::Output(MessageOutput::Master(output)));
        let client = OutputClient::from_sink(rec);
        msgs.push(Message::OutputClient(MessageClient::Changed(client)));
        proof {
            assert(routine(models_of(msgs@)));
            lemma_counts_append_routine(self.history@, models_of(msgs@));
        }
        self.history = Ghost(self.history@ + models_of(msgs@));
        msgs
    }

    /// An answer of the output listing arrived: where the session is
    /// ready, the sink's selectable outputs (or the errors its missing
    /// names warrant) go out.
    pub fn outputs_listed(&mut self, info: Option<SinkRecord>) -> (msgs: Vec<Message>)
        requires
            old(self).wf(),
        ensures
            final(self).wf(),
            final(self).state == old(self).state,
            final(self).gate == old(self).gate,
            final(self).peakers == old(self).peakers,
            final(self).history@ == old(self).history@ + models_of(msgs@),
            !(old(self).state is Ready) ==> msgs@.len() == 0,
            old(self).state is Ready ==> match info {
                Option::Some(rec) => models_of(msgs@) == match rec.name {
                    Option::Some(n) => sink_outputs_spec(n@, rec.ports@, rec.index),
                    Option::None => seq![
                        MsgModel::Error(Error::Pulse(PulseError::NamelessSink(rec.index))),
                    ],
                },
                Option::None => msgs@.len() == 0,
            },
    {
        let mut empty: Vec<Message> = Vec::new();
        if !self.is_connected() {
            proof {
                assert(old(self).history@ + models_of(empty@) =~= old(self).history@);
            }
            return empty;
        }
        let rec = match info {
            Option::Some(rec) => rec,
            Option::None => {
                proof {
                    assert(old(self).history@ + models_of(empty@) =~= old(self).history@);
                }
                return empty;
            },
        };
        let msgs = sink_outputs(&rec);
        proof {
            match rec.name {
                Option::Some(n) => {
                    lemma_sink_outputs_routine(n@, rec.ports@, rec.index);
                },
                Option::None => {},
            }
            assert(routine(models_of(msgs@)));
            lemma_counts_append_routine(self.history@, models_of(msgs@));
        }
        self.history = Ghost(self.history@ + models_of(msgs@));
        msgs
    }

    /// The master query's answer arrived: where the session is ready, the
    /// master client and its output (or the errors its missing names
    /// warrant) go out.
    pub fn master_listed(&mut self, info: Option<SinkRecord>) -> (msgs: Vec<Message>)
        requires
            old(self).wf(),
            info matches Option::Some(rec) ==> valid_levels(rec.volume@),
        ensures
            final(self).wf(),
            final(self).state == old(self).state,
            final(self).gate == old(self).gate,
            final(self).peakers == old(self).peakers,
            final(self).history@ == old(self).history@ + models_of(msgs@),
            !(old(self).state is Ready) ==> msgs@.len() == 0,
            old(self).state is Ready ==> match info {
                Option::Some(rec) => models_of(msgs@) == master_messages_spec(
                    rec,
                    spec_sink_client(rec),
                ),
                Option::None => msgs@.len() == 0,
            },
    {
        let mut empty: Vec<Message> = Vec::new();
        if !self.is_connected() {
            proof {
                assert(old(self).history@ + models_of(empty@) =~= old(self).history@);
            }
            return empty;
        }
        let rec = match info {
            Option::Some(rec) => rec,
            Option::None => {
                proof {
                    assert(old(self).history@ + models_of(empty@) =~= old(self).history@);
                }
                return empty;
            },
        };
        let msgs = master_messages(rec);
        proof {
            assert(routine(models_of(msgs@)));
            lemma_counts_append_routine(self.history@, models_of(msgs@));
        }
        self.history = Ghost(self.history@ + models_of(msgs@));
        msgs
    }

    /// One peak sample arrived for `id`: where the session is ready and
    /// the sample is not exactly zero, it goes out.
    pub fn handle_peak(&mut self, id: u32, bits: u32) -> (r: Option<Message>)
        requires
            old(self).wf(),
        ensures
            final(self).wf(),
            final(self).state == old(self).state,
            final(self).gate == old(self).gate,
            final(self).peakers == old(self).peakers,
            !(old(self).state is Ready) ==> *final(self) == *old(self) && r is None,
            old(self).state is Ready ==> {
                &&& r is Some <==> bits & 0x7FFF_FFFFu32 != 0
                &&& r matches Option::Some(m) ==> m.model() == MsgModel::Client(
                    ClientMsgModel::Peak(id, bits),
                ) && final(self).history@ == old(self).history@.push(m.model())
                &&& r is None ==> *final(self) == *old(self)
            },
    {
        if !self.is_connected() {
            return Option::None;
        }
        match peak_message(id, bits) {
            Option::Some(msg) => {
                proof {
                    lemma_counts_push(self.history@, msg.model());
                }
                self.history = Ghost(self.history@.push(msg.model()));
                Option::Some(msg)
            },
            Option::None => Option::None,
        }
    }
}

/// Quiet-after-close law: a valid engine whose session is over holds
/// exactly one `Disconnected` in this attempt's history, and — as every
/// emitting method above ensures — no method of a session that left the
/// ready state appends anything further.
pub proof fn lemma_closed_session_messages(p: Pulse)
    requires
        p.wf(),
        closed_state(p.state),
    ensures
        count_disconnected(p.history@) == 1,
        !(p.state is Ready),
{
}

/// Single-ready law: a valid engine's history holds at most one `Ready`,
/// and exactly one once the session stands ready.
pub proof fn lemma_ready_emitted_once(p: Pulse)
    requires
        p.wf(),
    ensures
        count_ready(p.history@) <= 1,
        p.state is Ready ==> count_ready(p.history@) == 1,
{
}

} // verus!
