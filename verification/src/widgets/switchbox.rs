use vstd::prelude::*;

use crate::server::Output;
use crate::text::{ascii_lowercase, contains_sub, find_sub, lower_bytes};
use vstd::string::{StringExecFns, StringSliceAdditionalSpecFns};

verus! {

/// What a switch is told to do.
#[derive(Clone, Copy, Debug, PartialEq, Eq, Structural)]
pub enum SwitchMessage {
    /// Show as the active output.
    Activate,
    /// Show as inactive.
    Deactivate,
    /// The user clicked the switch.
    Click,
}

/// One selectable hardware output in the switch row.
#[derive(Clone, Debug, PartialEq)]
pub struct Switch {
    /// Sink name.
    pub name: String,
    /// Port name.
    pub port: String,
    /// Whether this output is the active one.
    pub active: bool,
}

/// Whether the switch at position `i` stands for the named output.
pub open spec fn switch_matches(s: Seq<Switch>, i: int, name: Seq<char>, port: Seq<char>) -> bool {
    0 <= i < s.len() && s[i].name@ == name && s[i].port@ == port
}

impl Switch {
    /// The switch a listed output becomes; it starts active when the
    /// output is the master.
    pub fn init_model(init: Output) -> (r: Switch)
        ensures
            r.name == init.name,
            r.port == init.port,
            r.active == init.master,
    {
        Switch { name: init.name, port: init.port, active: init.master }
    }

    /// Apply one message: activation and deactivation set the flag, and a
    /// click asks for the switch's output, yielding its name and port for
    /// the command.
    pub fn update(&mut self, message: SwitchMessage) -> (r: Option<(String, String)>)
        ensures
            final(self).name == old(self).name,
            final(self).port == old(self).port,
            match message {
                SwitchMessage::Activate => final(self).active == true && r is None,
                SwitchMessage::Deactivate => final(self).active == false && r is None,
                SwitchMessage::Click => final(self).active == old(self).active && (r matches
                    Option::Some(p) && p.0 == old(self).name && p.1 == old(self).port),
            },
    {
        match message {
            SwitchMessage::Activate => {
                self.active = true;
                Option::None
            },
            SwitchMessage::Deactivate => {
                self.active = false;
                Option::None
            },
            SwitchMessage::Click => Option::Some((self.name.clone(), self.port.clone())),
        }
    }
}

/// The icon a port shows, from its name: headphones, a monitor for an
/// HDMI port, a media player for anything else.  The name is matched
/// case-insensitively on its ASCII letters.
pub fn icon(s: &str) -> (r: &'static str)
    ensures
        contains_sub(lower_bytes(s.spec_bytes()), "headphones"@.map_values(|c: char| c as u8))
            ==> r@ == "audio-headphones-symbolic"@,
        !contains_sub(lower_bytes(s.spec_bytes()), "headphones"@.map_values(|c: char| c as u8))
            && contains_sub(lower_bytes(s.spec_bytes()), "hdmi"@.map_values(|c: char| c as u8))
            ==> r@ == "computer-symbolic"@,
        !contains_sub(lower_bytes(s.spec_bytes()), "headphones"@.map_values(|c: char| c as u8))
            && !contains_sub(lower_bytes(s.spec_bytes()), "hdmi"@.map_values(|c: char| c as u8))
            ==> r@ == "multimedia-player-symbolic"@,
{
    let bytes = s.as_bytes_vec();
    let lowered = ascii_lowercase(&bytes);
    let headphones = "headphones".as_bytes_vec();
    let hdmi = "hdmi".as_bytes_vec();
    proof {
        reveal_strlit("headphones");
        reveal_strlit("hdmi");
        vstd::string::is_ascii_spec_bytes("headphones");
        vstd::string::is_ascii_spec_bytes("hdmi");
        assert(headphones@ =~= "headphones"@.map_values(|c: char| c as u8));
        assert(hdmi@ =~= "hdmi"@.map_values(|c: char| c as u8));
    }
    let has_headphones = match find_sub(&lowered, &headphones) {
        Option::Some(_) => true,
        Option::None => false,
    };
    if has_headphones {
        return "audio-headphones-symbolic";
    }
    let has_hdmi = match find_sub(&lowered, &hdmi) {
        Option::Some(_) => true,
        Option::None => false,
    };
    if has_hdmi {
        "computer-symbolic"
    } else {
        "multimedia-player-symbolic"
    }
}

/// The row of output switches the mixer shows.
pub struct Switches {
    /// The switches, in display order; new ones go to the front.
    pub switches: Vec<Switch>,
}

impl Switches {
    /// An empty row.
    pub fn new() -> (r: Switches)
        ensures
            r.switches@.len() == 0,
    {
        Switches { switches: Vec::new() }
    }

    /// Take a listed output in at the front of the row.
    pub fn push(&mut self, output: Output)
        ensures
            final(self).switches@.len() == old(self).switches@.len() + 1,
            final(self).switches@[0].name == output.name,
            final(self).switches@[0].port == output.port,
            final(self).switches@[0].active == output.master,
            forall|j: int|
                0 <= j < old(self).switches@.len() ==> final(self).switches@[j + 1] == old(
                    self,
                ).switches@[j],
    {
        let switch = Switch::init_model(output);
        self.switches.insert(0, switch);
    }

    /// The position of the first switch standing for this output, where
    /// one does.
    pub fn position(&self, output: &Output) -> (r: Option<usize>)
        ensures
            r matches Option::Some(i) ==> switch_matches(
                self.switches@,
                i as int,
                output.name@,
                output.port@,
            ) && forall|j: int|
                0 <= j < i ==> !switch_matches(self.switches@, j, output.name@, output.port@),
            r is None ==> forall|j: int|
                !switch_matches(self.switches@, j, output.name@, output.port@),
    {
        let n = self.switches.len();
        let mut i: usize = 0;
        while i < n
            invariant
                i <= n,
                n == self.switches@.len(),
                forall|j: int|
                    0 <= j < i ==> !switch_matches(self.switches@, j, output.name@, output.port@),
            decreases n - i,
        {
            let s = &self.switches[i];
            if s.name == output.name && s.port == output.port {
                return Option::Some(i);
            }
            proof {
                assert(!switch_matches(self.switches@, i as int, output.name@, output.port@));
            }
            i = i + 1;
        }
        Option::None
    }

    /// Mark the named output, and it alone, as the active one: every
    /// switch deactivates, then the first one standing for the output —
    /// where one does — activates.  Names and ports stay as they were.
    pub fn set_active(&mut self, output: &Output)
        ensures
            final(self).switches@.len() == old(self).switches@.len(),
            forall|i: int|
                0 <= i < old(self).switches@.len() ==> {
                    &&& (#[trigger] final(self).switches@[i]).name == old(self).switches@[i].name
                    &&& final(self).switches@[i].port == old(self).switches@[i].port
                    &&& final(self).switches@[i].active == (switch_matches(
                        old(self).switches@,
                        i,
                        output.name@,
                        output.port@,
                    ) && forall|j: int|
                        0 <= j < i ==> !switch_matches(
                            old(self).switches@,
                            j,
                            output.name@,
                            output.port@,
                        ))
                },
    {
        let n = self.switches.len();
        let mut i: usize = 0;
        while i < n
            invariant
                i <= n,
                n == self.switches@.len(),
                n == old(self).switches@.len(),
                forall|j: int| i <= j < n ==> self.switches@[j] == old(self).switches@[j],
                forall|j: int|
                    0 <= j < i ==> {
                        &&& (#[trigger] self.switches@[j]).name == old(self).switches@[j].name
                        &&& self.switches@[j].port == old(self).switches@[j].port
                        &&& self.switches@[j].active == false
                    },
            decreases n - i,
        {
            let s = self.switches.remove(i);
            let deactivated = Switch { name: s.name, port: s.port, active: false };
            self.switches.insert(i, deactivated);
            i = i + 1;
        }
        let ghost mid = self.switches@;
        let pos = self.position(output);
        match pos {
            Option::Some(p) => {
                let s = self.switches.remove(p);
                let activated = Switch { name: s.name, port: s.port, active: true };
                self.switches.insert(p, activated);
                proof {
                    assert forall|j: int|
                        0 <= j < old(self).switches@.len() implies (switch_matches(
                        mid,
                        j,
                        output.name@,
                        output.port@,
                    ) == switch_matches(old(self).switches@, j, output.name@, output.port@)) by {
                        assert(mid[j].name == old(self).switches@[j].name);
                        assert(mid[j].port == old(self).switches@[j].port);
                    }
                    assert forall|x: int| 0 <= x < old(self).switches@.len() implies (
                    self.switches@[x].active == (switch_matches(
                        old(self).switches@,
                        x,
                        output.name@,
                        output.port@,
                    ) && forall|j: int|
                        0 <= j < x ==> !switch_matches(
                            old(self).switches@,
                            j,
                            output.name@,
                            output.port@,
                        ))) by {
                        if x == p as int {
                            assert(self.switches@[x].active);
                            assert(switch_matches(old(self).switches@, x, output.name@, output.port@));
                            assert forall|j: int| 0 <= j < x implies !switch_matches(
                                old(self).switches@,
                                j,
                                output.name@,
                                output.port@,
                            ) by {
                                assert(!switch_matches(mid, j, output.name@, output.port@));
                            }
                        } else {
                            assert(self.switches@[x] == mid[x]);
                            assert(!self.switches@[x].active);
                            if x < p as int {
                                assert(!switch_matches(mid, x, output.name@, output.port@));
                                assert(!switch_matches(
                                    old(self).switches@,
                                    x,
                                    output.name@,
                                    output.port@,
                                ));
                            } else {
                                assert(switch_matches(
                                    old(self).switches@,
                                    p as int,
                                    output.name@,
                                    output.port@,
                                ));
                                assert(0 <= p as int && (p as int) < x);
                                assert(!(forall|j: int|
                                    0 <= j < x ==> !switch_matches(
                                        old(self).switches@,
                                        j,
                                        output.name@,
                                        output.port@,
                                    )));
                            }
                        }
                    }
                }
            },
            Option::None => {
                proof {
                    assert forall|j: int|
                        0 <= j < old(self).switches@.len() implies !switch_matches(
                        old(self).switches@,
                        j,
                        output.name@,
                        output.port@,
                    ) by {
                        assert(!switch_matches(mid, j, output.name@, output.port@));
                        assert(mid[j].name == old(self).switches@[j].name);
                        assert(mid[j].port == old(self).switches@[j].port);
                    }
                }
            },
        }
    }
}

} // verus!
