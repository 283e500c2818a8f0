use vstd::prelude::*;

use crate::kind::Kind;
use crate::levels::{VolumeLevels, CHANNELS_MAX, VOLUME_MAX};
use crate::text::{digits_of, decimal_val, parses_to_u32, parse_u32};
use crate::volume::{Strategy, Volume};

pub mod error;
pub mod gate;
pub mod peaks;
pub mod pulse;

use error::{Error, PulseError};
use vstd::string::StringExecFns;

verus! {

/// Ceiling every client volume slider gets, in percent (2.55 times the
/// neutral level), applied uniformly whatever the backend reports.
pub const MAX_VOLUME_PERCENT: u32 = 255;

/// Index the hardware master sink is addressed by; it stands for whichever
/// sink is the default and has no addressable monitor target of its own.
pub const MASTER_ID: u32 = 0;

/// A software stream or hardware sink as the engine hands it to the
/// interface layer.
pub struct OutputClient {
    /// Server-side index of the entity.
    pub id: u32,
    /// Id of the owning process, where the server reported one.
    pub process: Option<u32>,
    /// Display name.
    pub name: String,
    /// Longer description.
    pub description: String,
    /// Icon name, where the entity carries one.
    pub icon: Option<String>,
    /// The entity's volume.
    pub volume: Volume,
    /// Slider ceiling in percent.
    pub max_volume: u32,
    /// Whether the entity is muted.
    pub muted: bool,
    /// Whether the stream is corked (suspended by its provider).
    pub corked: bool,
    /// Capability tag: routes commands for this entity.
    pub kind: Kind,
}

/// A hardware sink port, independent of any client.
pub struct Output {
    /// Sink name.
    pub name: String,
    /// Port name.
    pub port: String,
    /// Whether this is the active default output.
    pub master: bool,
}

/// Events about one client entity.
pub enum MessageClient {
    /// The entity appeared.
    New(OutputClient),
    /// The entity changed.
    Changed(OutputClient),
    /// The entity disappeared; holds its id.
    Removed(u32),
    /// A peak-meter sample for the entity; holds the id and the sample as
    /// raw bits of a native single-precision level.
    Peak(u32, u32),
}

/// Events about hardware outputs.
pub enum MessageOutput {
    /// A selectable output was listed.
    New(Output),
    /// The default output changed to this one.
    Master(Output),
}

/// Everything the engine tells the interface layer.
pub enum Message {
    /// An output event.
    Output(MessageOutput),
    /// A client event.
    OutputClient(MessageClient),
    /// The session ended; the cause, or nothing for a clean shutdown.
    Disconnected(Option<Error>),
    /// A non-fatal failure while the session keeps running.
    Error(Error),
    /// The session reached the ready state.
    Ready,
}

/// Mathematical stand-in for an [`OutputClient`].
pub struct ClientModel {
    pub id: u32,
    pub process: Option<u32>,
    pub name: Seq<char>,
    pub description: Seq<char>,
    pub icon: Option<Seq<char>>,
    pub levels: Seq<u32>,
    pub strategy: Strategy,
    pub max_volume: u32,
    pub muted: bool,
    pub corked: bool,
    pub kind: u8,
}

/// Mathematical stand-in for an [`Output`].
pub struct OutputModel {
    pub name: Seq<char>,
    pub port: Seq<char>,
    pub master: bool,
}

/// Mathematical stand-in for a [`MessageClient`].
pub enum ClientMsgModel {
    New(ClientModel),
    Changed(ClientModel),
    Removed(u32),
    Peak(u32, u32),
}

/// Mathematical stand-in for a [`MessageOutput`].
pub enum OutputMsgModel {
    New(OutputModel),
    Master(OutputModel),
}

/// Mathematical stand-in for a [`Message`].
pub enum MsgModel {
    Output(OutputMsgModel),
    Client(ClientMsgModel),
    Disconnected(Option<Error>),
    Error(Error),
    Ready,
}

/// The view of an optional string, empty when absent.
pub open spec fn opt_or_empty(o: Option<String>) -> Seq<char> {
    match o {
        Option::Some(s) => s@,
        Option::None => Seq::<char>::empty(),
    }
}

/// The view of an optional string, kept optional.
pub open spec fn opt_view(o: Option<String>) -> Option<Seq<char>> {
    match o {
        Option::Some(s) => Option::Some(s@),
        Option::None => Option::<Seq<char>>::None,
    }
}

impl OutputClient {
    /// The mathematical value of this client.
    pub open spec fn model(&self) -> ClientModel {
        ClientModel {
            id: self.id,
            process: self.process,
            name: self.name@,
            description: self.description@,
            icon: opt_view(self.icon),
            levels: self.volume.levels@,
            strategy: self.volume.spec_strategy(),
            max_volume: self.max_volume,
            muted: self.muted,
            corked: self.corked,
            kind: self.kind.spec_bits(),
        }
    }
}

impl Output {
    /// The mathematical value of this output.
    pub open spec fn model(&self) -> OutputModel {
        OutputModel { name: self.name@, port: self.port@, master: self.master }
    }
}

impl MessageClient {
    /// The mathematical value of this event.
    pub open spec fn model(&self) -> ClientMsgModel {
        match self {
            MessageClient::New(c) => ClientMsgModel::New(c.model()),
            MessageClient::Changed(c) => ClientMsgModel::Changed(c.model()),
            MessageClient::Removed(id) => ClientMsgModel::Removed(*id),
            MessageClient::Peak(id, bits) => ClientMsgModel::Peak(*id, *bits),
        }
    }
}

impl MessageOutput {
    /// The mathematical value of this event.
    pub open spec fn model(&self) -> OutputMsgModel {
        match self {
            MessageOutput::New(o) => OutputMsgModel::New(o.model()),
            MessageOutput::Master(o) => OutputMsgModel::Master(o.model()),
        }
    }
}

impl Message {
    /// The mathematical value of this message.
    pub open spec fn model(&self) -> MsgModel {
        match self {
            Message::Output(m) => MsgModel::Output(m.model()),
            Message::OutputClient(m) => MsgModel::Client(m.model()),
            Message::Disconnected(e) => MsgModel::Disconnected(*e),
            Message::Error(e) => MsgModel::Error(*e),
            Message::Ready => MsgModel::Ready,
        }
    }
}

impl From<MessageClient> for Message {
    /// Wrap a client event as an engine message.
    fn from(msg: MessageClient) -> (r: Message) {
        Message::OutputClient(msg)
    }
}

impl vstd::std_specs::convert::FromSpecImpl<MessageClient> for Message {
    open spec fn obeys_from_spec() -> bool {
        true
    }

    open spec fn from_spec(msg: MessageClient) -> Message {
        Message::OutputClient(msg)
    }
}

impl From<MessageOutput> for Message {
    /// Wrap an output event as an engine message.
    fn from(msg: MessageOutput) -> (r: Message) {
        Message::Output(msg)
    }
}

impl vstd::std_specs::convert::FromSpecImpl<MessageOutput> for Message {
    open spec fn obeys_from_spec() -> bool {
        true
    }

    open spec fn from_spec(msg: MessageOutput) -> Message {
        Message::Output(msg)
    }
}

/// The models of a vector of messages, in order.
pub open spec fn models_of(msgs: Seq<Message>) -> Seq<MsgModel> {
    msgs.map_values(|m: Message| m.model())
}

/// A software stream as the server reports it, reduced to the plain values
/// the engine reads.
pub struct SinkInputRecord {
    /// Server-side index.
    pub index: u32,
    /// The stream's own name (shown as the description).
    pub name: Option<String>,
    /// The owning application's name.
    pub app_name: Option<String>,
    /// The application's icon name.
    pub icon: Option<String>,
    /// The application's process id, as the undecoded property text.
    pub process_id: Option<String>,
    /// Per-channel raw volume levels.
    pub volume: Vec<u32>,
    /// Whether the stream is muted.
    pub mute: bool,
    /// Whether the stream is corked.
    pub corked: bool,
    /// Whether the stream has a volume of its own.
    pub has_volume: bool,
}

/// One port of a hardware sink, reduced to plain values.
pub struct PortRecord {
    /// Port name.
    pub name: Option<String>,
    /// Port description.
    pub description: Option<String>,
    /// Whether the port is available (not known to be unplugged).
    pub available: bool,
}

/// A hardware sink as the server reports it, reduced to plain values.
pub struct SinkRecord {
    /// Server-side index.
    pub index: u32,
    /// Sink name.
    pub name: Option<String>,
    /// The currently active port, where one is.
    pub active_port: Option<PortRecord>,
    /// All ports of the sink.
    pub ports: Vec<PortRecord>,
    /// Per-channel raw volume levels.
    pub volume: Vec<u32>,
    /// Whether the sink is muted.
    pub mute: bool,
}

/// Valid per-channel levels: the count and each level within the native
/// scale's bounds.
pub open spec fn valid_levels(v: Seq<u32>) -> bool {
    &&& 1 <= v.len() <= CHANNELS_MAX
    &&& forall|i: int| 0 <= i < v.len() ==> v[i] <= VOLUME_MAX
}

/// The process id a reported property text denotes, if it denotes one.
pub open spec fn process_of(o: Option<String>) -> Option<u32> {
    match o {
        Option::Some(s) => if parses_to_u32(s@) {
            Option::Some(decimal_val(digits_of(s@)) as u32)
        } else {
            Option::<u32>::None
        },
        Option::None => Option::<u32>::None,
    }
}

/// The client model a reported software stream maps to.
pub open spec fn spec_sink_input_client(rec: SinkInputRecord) -> ClientModel {
    ClientModel {
        id: rec.index,
        process: process_of(rec.process_id),
        name: opt_or_empty(rec.app_name),
        description: opt_or_empty(rec.name),
        icon: opt_view(rec.icon),
        levels: rec.volume@,
        strategy: Strategy::Peak,
        max_volume: MAX_VOLUME_PERCENT,
        muted: rec.mute,
        corked: rec.corked,
        kind: crate::kind::KIND_OUT | crate::kind::KIND_SOFTWARE,
    }
}

impl OutputClient {
    /// Map a reported software stream to a client record: the application
    /// name becomes the display name, the stream name the description, the
    /// volume folds by its loudest channel, and the uniform slider ceiling
    /// applies.
    pub fn from_sink_input(rec: SinkInputRecord) -> (r: OutputClient)
        requires
            valid_levels(rec.volume@),
        ensures
            r.model() == spec_sink_input_client(rec),
            r.volume.wf(),
    {
        let process = match &rec.process_id {
            Option::Some(s) => parse_u32(s.as_str()),
            Option::None => Option::None,
        };
        let name = match rec.app_name {
            Option::Some(s) => s,
            Option::None => String::new(),
        };
        let description = match rec.name {
            Option::Some(s) => s,
            Option::None => String::new(),
        };
        OutputClient {
            id: rec.index,
            process,
            name,
            description,
            icon: rec.icon,
            volume: Volume::new(VolumeLevels::new(rec.volume), Strategy::Peak),
            max_volume: MAX_VOLUME_PERCENT,
            muted: rec.mute,
            corked: rec.corked,
            kind: Kind::out().union(Kind::software()),
        }
    }

    /// Map a reported hardware sink to the synthetic master client: fixed
    /// id and name, the active port's description, the volume folds by its
    /// channel average so dragging the one slider keeps the balance.
    pub fn from_sink(rec: SinkRecord) -> (r: OutputClient)
        requires
            valid_levels(rec.volume@),
        ensures
            r.model() == spec_sink_client(rec),
            r.volume.wf(),
    {
        let description = match rec.active_port {
            Option::Some(p) => match p.description {
                Option::Some(s) => s,
                Option::None => String::new(),
            },
            Option::None => String::new(),
        };
        OutputClient {
            id: MASTER_ID,
            process: Option::None,
            name: String::from_str("Master"),
            description,
            icon: Option::None,
            volume: Volume::new(VolumeLevels::new(rec.volume), Strategy::Average),
            max_volume: MAX_VOLUME_PERCENT,
            muted: rec.mute,
            corked: false,
            kind: Kind::out().union(Kind::hardware()),
        }
    }
}

/// The messages one listed sink yields: an error for a nameless sink, else
/// one selectable output per named available port and an error per
/// nameless available port.
pub open spec fn sink_outputs_spec(
    name: Seq<char>,
    ports: Seq<PortRecord>,
    index: u32,
) -> Seq<MsgModel>
    decreases ports.len(),
{
    if ports.len() == 0 {
        Seq::<MsgModel>::empty()
    } else {
        sink_outputs_spec(name, ports.drop_last(), index) + (if ports.last().available {
            match ports.last().name {
                Option::Some(p) => seq![
                    MsgModel::Output(
                        OutputMsgModel::New(OutputModel { name: name, port: p@, master: false }),
                    ),
                ],
                Option::None => seq![
                    MsgModel::Error(Error::Pulse(PulseError::NamelessPort(index))),
                ],
            }
        } else {
            Seq::<MsgModel>::empty()
        })
    }
}

/// Turn one listed hardware sink into the outputs it offers, as the
/// output-listing request reports them.
pub fn sink_outputs(rec: &SinkRecord) -> (msgs: Vec<Message>)
    ensures
        models_of(msgs@) == match rec.name {
            Option::Some(n) => sink_outputs_spec(n@, rec.ports@, rec.index),
            Option::None => seq![MsgModel::Error(Error::Pulse(PulseError::NamelessSink(rec.index)))],
        },
{
    let mut msgs: Vec<Message> = Vec::new();
    let name = match &rec.name {
        Option::Some(n) => n,
        Option::None => {
            msgs.push(Message::Error(Error::Pulse(PulseError::NamelessSink(rec.index))));
            proof {
                assert(models_of(msgs@) =~= seq![
                    MsgModel::Error(Error::Pulse(PulseError::NamelessSink(rec.index))),
                ]);
            }
            return msgs;
        },
    };
    let n = rec.ports.len();
    let mut i: usize = 0;
    while i < n
        invariant
            i <= n,
            n == rec.ports@.len(),
            rec.name matches Option::Some(nm) && nm@ == name@,
            models_of(msgs@) == sink_outputs_spec(name@, rec.ports@.take(i as int), rec.index),
        decreases n - i,
    {
        let port = &rec.ports[i];
        proof {
            assert(rec.ports@.take(i + 1).drop_last() =~= rec.ports@.take(i as int));
            assert(rec.ports@.take(i + 1).last() == rec.ports@[i as int]);
        }
        if port.available {
            match &port.name {
                Option::Some(p) => {
                    let output = Output {
                        name: name.clone(),
                        port: p.clone(),
                        master: false,
                    };
                    msgs.push(Message::Output(MessageOutput::New(output)));
                },
                Option::None => {
                    msgs.push(
                        Message::Error(Error::Pulse(PulseError::NamelessPort(rec.index))),
                    );
                },
            }
        }
        proof {
            assert(models_of(msgs@) =~= sink_outputs_spec(
                name@,
                rec.ports@.take(i + 1),
                rec.index,
            ));
        }
        i += 1;
    }
    proof {
        assert(rec.ports@.take(n as int) =~= rec.ports@);
    }
    msgs
}

/// The messages a master-sink query yields: always the client itself;
/// then an error where the sink is nameless, nothing more where it has no
/// named active port, else the master output.
pub open spec fn master_messages_spec(rec: SinkRecord, client: ClientModel) -> Seq<MsgModel> {
    seq![MsgModel::Client(ClientMsgModel::New(client))] + (match rec.name {
        Option::None => seq![MsgModel::Error(Error::Pulse(PulseError::NamelessSink(rec.index)))],
        Option::Some(n) => match active_port_name(rec) {
            Option::Some(p) => seq![
                MsgModel::Output(
                    OutputMsgModel::Master(OutputModel { name: n@, port: p, master: true }),
                ),
            ],
            Option::None => Seq::<MsgModel>::empty(),
        },
    })
}

/// The name of the active port, where the sink has an active port and the
/// port has a name.
pub open spec fn active_port_name(rec: SinkRecord) -> Option<Seq<char>> {
    match rec.active_port {
        Option::Some(p) => opt_view(p.name),
        Option::None => Option::<Seq<char>>::None,
    }
}

/// Turn the master-sink query's answer into its messages.
pub fn master_messages(rec: SinkRecord) -> (msgs: Vec<Message>)
    requires
        valid_levels(rec.volume@),
    ensures
        models_of(msgs@) == master_messages_spec(rec, spec_sink_client(rec)),
{
    let ghost grec = rec;
    let name_opt: Option<String> = match &rec.name {
        Option::Some(n) => Option::Some(n.clone()),
        Option::None => Option::None,
    };
    let port_opt: Option<String> = match &rec.active_port {
        Option::Some(p) => match &p.name {
            Option::Some(s) => Option::Some(s.clone()),
            Option::None => Option::None,
        },
        Option::None => Option::None,
    };
    let index: u32 = rec.index;
    let client = OutputClient::from_sink(rec);
    let mut msgs: Vec<Message> = Vec::new();
    let ghost cm = client.model();
    msgs.push(Message::OutputClient(MessageClient::New(client)));
    match name_opt {
        Option::None => {
            msgs.push(Message::Error(Error::Pulse(PulseError::NamelessSink(index))));
            proof {
                assert(models_of(msgs@) =~= master_messages_spec(grec, cm));
            }
        },
        Option::Some(n) => {
            match port_opt {
                Option::Some(p) => {
                    msgs.push(
                        Message::Output(
                            MessageOutput::Master(Output { name: n, port: p, master: true }),
                        ),
                    );
                    proof {
                        assert(models_of(msgs@) =~= master_messages_spec(grec, cm));
                    }
                },
                Option::None => {
                    proof {
                        assert(models_of(msgs@) =~= master_messages_spec(grec, cm));
                    }
                },
            }
        },
    }
    msgs
}

/// The client model a reported hardware sink maps to.
pub open spec fn spec_sink_client(rec: SinkRecord) -> ClientModel {
    ClientModel {
        id: MASTER_ID,
        process: Option::<u32>::None,
        name: "Master"@,
        description: match rec.active_port {
            Option::Some(p) => opt_or_empty(p.description),
            Option::None => Seq::<char>::empty(),
        },
        icon: Option::<Seq<char>>::None,
        levels: rec.volume@,
        strategy: Strategy::Average,
        max_volume: MAX_VOLUME_PERCENT,
        muted: rec.mute,
        corked: false,
        kind: crate::kind::KIND_OUT | crate::kind::KIND_HARDWARE,
    }
}

} // verus!
