use vstd::prelude::*;

use crate::anchor::Anchor;
use crate::kind::Kind;
use crate::levels::VolumeLevels;
use crate::server::{Message, MessageOutput};
use crate::widgets::switchbox::Switches;

verus! {

/// Window-manager placement settings, fixed before the interface starts.
pub struct WMConfig {
    /// The screen edges the window sticks to.
    pub anchors: Anchor,
    /// The margin for each anchored edge, in order.
    pub margins: Vec<i32>,
    /// Milliseconds of inactivity before the window closes; zero keeps it.
    pub close_after: u32,
}

/// What the interface's command handlers deliver back to the main
/// component.
pub enum CommandMessage {
    /// A message from the audio engine.
    Server(Message),
    /// A stylesheet to apply.
    SetStyle(String),
    /// A command finished with nothing to report.
    Success,
    /// Ask for a fresh connection attempt.
    Connect,
    /// Show the window.
    Show,
    /// Leave the application.
    Quit,
}

/// What the widgets ask the main component to do.
pub enum ElementMessage {
    /// Mute or unmute these entities.
    SetMute { ids: Vec<u32>, kind: Kind, flag: bool },
    /// Set the volume of these entities.
    SetVolume { ids: Vec<u32>, kind: Kind, levels: VolumeLevels },
    /// Switch the active hardware output.
    SetOutput { name: String, port: String },
    /// Drop the slider entry of this client.
    Remove { id: u32 },
    /// Cancel a pending close.
    InterruptClose,
    /// Close after the configured delay.
    Close,
}

/// Apply one output event to the switch row: a listed output joins the
/// row, a master change marks the named output, and it alone, active.
pub fn handle_msg_output(switches: &mut Switches, msg: MessageOutput)
    ensures
        match msg {
            MessageOutput::New(output) => {
                &&& final(switches).switches@.len() == old(switches).switches@.len() + 1
                &&& final(switches).switches@[0].name == output.name
                &&& final(switches).switches@[0].port == output.port
                &&& final(switches).switches@[0].active == output.master
                &&& forall|j: int|
                    0 <= j < old(switches).switches@.len() ==> final(switches).switches@[j + 1]
                        == old(switches).switches@[j]
            },
            MessageOutput::Master(output) => {
                &&& final(switches).switches@.len() == old(switches).switches@.len()
                &&& forall|i: int|
                    0 <= i < old(switches).switches@.len() ==> {
                        &&& (#[trigger] final(switches).switches@[i]).name == old(
                            switches,
                        ).switches@[i].name
                        &&& final(switches).switches@[i].port == old(switches).switches@[i].port
                        &&& final(switches).switches@[i].active == (
                        crate::widgets::switchbox::switch_matches(
                            old(switches).switches@,
                            i,
                            output.name@,
                            output.port@,
                        ) && forall|j: int|
                            0 <= j < i ==> !crate::widgets::switchbox::switch_matches(
                                old(switches).switches@,
                                j,
                                output.name@,
                                output.port@,
                            ))
                    }
            },
        },
{
    match msg {
        MessageOutput::New(output) => {
            switches.push(output);
        },
        MessageOutput::Master(output) => {
            switches.set_active(&output);
        },
    }
}

} // verus!
