use vstd::prelude::*;

use crate::anchor::{Anchor, ANCHOR_BOTTOM, ANCHOR_RIGHT};
use crate::server::OutputClient;
use crate::widgets::{GrowthDirection, Orientation};
use vstd::string::StringExecFns;

verus! {

/// What a slider reduces each of the clients it stands for to.
#[derive(Clone, Debug, PartialEq)]
pub struct SmallClient {
    /// Server-side index of the client.
    pub id: u32,
    /// The client's description.
    pub description: String,
    /// Whether the client is corked.
    pub corked: bool,
    /// Whether the client is muted.
    pub muted: bool,
}

/// How preferable a client's description is: live beats corked, audible
/// beats muted, a description beats none.
pub open spec fn score_spec(c: SmallClient) -> int {
    (if !c.corked {
        8int
    } else {
        0int
    }) + (if !c.muted {
        4int
    } else {
        0int
    }) + (if c.description@.len() > 0 {
        1int
    } else {
        0int
    })
}

/// The small record a client reduces to.
pub open spec fn small_of(c: OutputClient) -> SmallClient {
    SmallClient { id: c.id, description: c.description, corked: c.corked, muted: c.muted }
}

impl SmallClient {
    /// How preferable this client's description is.
    pub fn score(&self) -> (r: u8)
        ensures
            r as int == score_spec(*self),
    {
        let live: u8 = if !self.corked {
            8
        } else {
            0
        };
        let audible: u8 = if !self.muted {
            4
        } else {
            0
        };
        let described: u8 = if !self.description.as_str().is_empty() {
            1
        } else {
            0
        };
        live + audible + described
    }

    /// Reduce a client to its small record.
    pub fn from_client(c: &OutputClient) -> (r: SmallClient)
        ensures
            r == small_of(*c),
    {
        SmallClient {
            id: c.id,
            description: c.description.clone(),
            corked: c.corked,
            muted: c.muted,
        }
    }
}

/// The icon a client shows: its own where it names one, else a speaker at
/// the muted, low, medium or high step.
pub fn client_icon(icon: Option<String>, volume_percent: u8, muted: bool) -> (r: String)
    ensures
        match icon {
            Option::Some(name) => r@ == name@,
            Option::None => {
                if muted {
                    r@ == "audio-volume-muted"@
                } else if volume_percent <= 25 {
                    r@ == "audio-volume-low"@
                } else if volume_percent <= 75 {
                    r@ == "audio-volume-medium"@
                } else {
                    r@ == "audio-volume-high"@
                }
            },
        },
{
    match icon {
        Option::Some(name) => name,
        Option::None => {
            if muted {
                String::from_str("audio-volume-muted")
            } else if volume_percent <= 25 {
                String::from_str("audio-volume-low")
            } else if volume_percent <= 75 {
                String::from_str("audio-volume-medium")
            } else {
                String::from_str("audio-volume-high")
            }
        },
    }
}

/// Of two candidates, the one whose description a slider shows: the
/// accumulated one yields to the challenger when it scores higher than
/// the challenger, or they tie and the challenger's id is higher.
pub open spec fn pick(acc: SmallClient, c: SmallClient) -> SmallClient {
    if score_spec(acc) > score_spec(c) || (score_spec(acc) == score_spec(c) && c.id > acc.id) {
        c
    } else {
        acc
    }
}

/// The candidate left after folding [`pick`] over the whole list, front
/// to back.
pub open spec fn pick_all(s: Seq<SmallClient>) -> SmallClient
    recommends
        s.len() > 0,
    decreases s.len(),
{
    if s.len() <= 1 {
        s[0]
    } else {
        pick(pick_all(s.drop_last()), s.last())
    }
}

/// What a slider's background work reports: the periodic tick that lets a
/// shown peak level decay, and the delayed settling of a cork change.
#[derive(Clone, Copy, Debug, PartialEq, Eq, Structural)]
pub enum SliderCommand {
    /// One decay tick of the peak indicator.
    Peak,
    /// The pending cork change takes effect.
    Cork,
}

/// The bookkeeping state of one volume slider: the clients it stands
/// for, and the process they share where sliders merge by process.
pub struct Slider {
    /// The clients this slider stands for.
    pub clients: Vec<SmallClient>,
    /// The owning process, where one was reported.
    pub process: Option<u32>,
}

impl Slider {
    /// Whether any of this slider's clients carries the id.
    pub open spec fn spec_has(&self, id: u32) -> bool {
        exists|j: int| 0 <= j < self.clients@.len() && self.clients@[j].id == id
    }

    /// Whether every client of this slider is corked.
    pub fn is_corked(&self) -> (r: bool)
        ensures
            r == forall|j: int| 0 <= j < self.clients@.len() ==> (#[trigger] self.clients@[j]).corked,
    {
        let n = self.clients.len();
        let mut i: usize = 0;
        while i < n
            invariant
                i <= n,
                n == self.clients@.len(),
                forall|j: int| 0 <= j < i ==> (#[trigger] self.clients@[j]).corked,
            decreases n - i,
        {
            let c = &self.clients[i];
            if !c.corked {
                return false;
            }
            i = i + 1;
        }
        true
    }

    /// Whether every client of this slider is muted.
    pub fn is_muted(&self) -> (r: bool)
        ensures
            r == forall|j: int| 0 <= j < self.clients@.len() ==> (#[trigger] self.clients@[j]).muted,
    {
        let n = self.clients.len();
        let mut i: usize = 0;
        while i < n
            invariant
                i <= n,
                n == self.clients@.len(),
                forall|j: int| 0 <= j < i ==> (#[trigger] self.clients@[j]).muted,
            decreases n - i,
        {
            let c = &self.clients[i];
            if !c.muted {
                return false;
            }
            i = i + 1;
        }
        true
    }

    /// The description this slider shows: with one client its own, among
    /// several the one [`pick_all`] selects, and none without clients.
    pub fn description(&self) -> (r: String)
        ensures
            self.clients@.len() == 0 ==> r@ == Seq::<char>::empty(),
            self.clients@.len() == 1 ==> r@ == self.clients@[0].description@,
            self.clients@.len() > 1 ==> r@ == pick_all(self.clients@).description@,
    {
        let n = self.clients.len();
        if n == 0 {
            return String::new();
        }
        if n == 1 {
            let c = &self.clients[0];
            return c.description.clone();
        }
        let mut best: usize = 0;
        let mut i: usize = 1;
        while i < n
            invariant
                1 <= i <= n,
                n == self.clients@.len(),
                best < i,
                self.clients@[best as int] == pick_all(self.clients@.take(i as int)),
            decreases n - i,
        {
            let acc = &self.clients[best];
            let c = &self.clients[i];
            let acc_score = acc.score();
            let c_score = c.score();
            proof {
                assert(self.clients@.take(i + 1).drop_last() =~= self.clients@.take(i as int));
                assert(self.clients@.take(i + 1).last() == self.clients@[i as int]);
            }
            if acc_score > c_score || (acc_score == c_score && c.id > acc.id) {
                best = i;
            }
            i = i + 1;
        }
        proof {
            assert(self.clients@.take(n as int) =~= self.clients@);
        }
        let b = &self.clients[best];
        b.description.clone()
    }
}

/// Whether `csnew` is `csold` without its first client carrying `id`.
pub open spec fn removed_first(csold: Seq<SmallClient>, csnew: Seq<SmallClient>, id: u32) -> bool {
    exists|k: int|
        0 <= k < csold.len() && csold[k].id == id && (forall|t: int|
            0 <= t < k ==> csold[t].id != id) && csnew == csold.remove(k)
}

/// The position of the first client carrying `id`, where one does.
fn client_position(clients: &Vec<SmallClient>, id: u32) -> (r: Option<usize>)
    ensures
        r matches Option::Some(k) ==> k < clients@.len() && clients@[k as int].id == id && forall|
            t: int,
        | 0 <= t < k ==> clients@[t].id != id,
        r is None ==> forall|t: int| 0 <= t < clients@.len() ==> clients@[t].id != id,
{
    let n = clients.len();
    let mut t: usize = 0;
    while t < n
        invariant
            t <= n,
            n == clients@.len(),
            forall|u: int| 0 <= u < t ==> clients@[u].id != id,
        decreases n - t,
    {
        let c = &clients[t];
        if c.id == id {
            return Option::Some(t);
        }
        t = t + 1;
    }
    Option::None
}

/// Whether position `i` holds the first slider standing for `id`.
pub open spec fn first_with_id(s: Seq<Slider>, id: u32, i: int) -> bool {
    &&& 0 <= i < s.len()
    &&& s[i].spec_has(id)
    &&& forall|j: int| 0 <= j < i ==> !s[j].spec_has(id)
}

/// The ordered collection of volume sliders the mixer shows, with the
/// direction new ones grow in and whether sliders merge by process.
pub struct Sliders {
    /// The sliders, in display order.
    pub sliders: Vec<Slider>,
    /// Where a new slider appears.
    pub direction: GrowthDirection,
    /// Whether clients of one process share a slider.
    pub per_process: bool,
}

impl Sliders {
    /// An empty collection, growing towards the bottom right, one slider
    /// per client.
    pub fn new() -> (r: Sliders)
        ensures
            r.sliders@.len() == 0,
            r.direction is BottomRight,
            r.per_process == false,
    {
        Sliders { sliders: Vec::new(), direction: GrowthDirection::BottomRight, per_process: false }
    }

    /// New sliders grow towards the anchored edge: with horizontal bars a
    /// right anchor, with vertical bars a bottom anchor, flips growth to
    /// the top left.
    pub fn set_direction(&mut self, anchor: Anchor, orientation: Orientation)
        ensures
            final(self).sliders@ == old(self).sliders@,
            final(self).per_process == old(self).per_process,
            final(self).direction == (if (orientation is Horizontal && anchor.bits & ANCHOR_RIGHT
                == ANCHOR_RIGHT) || (orientation is Vertical && anchor.bits & ANCHOR_BOTTOM
                == ANCHOR_BOTTOM) {
                GrowthDirection::TopLeft
            } else {
                GrowthDirection::BottomRight
            }),
    {
        let flipped = match orientation {
            Orientation::Horizontal => self.anchored(anchor, ANCHOR_RIGHT),
            Orientation::Vertical => self.anchored(anchor, ANCHOR_BOTTOM),
        };
        self.direction = if flipped {
            GrowthDirection::TopLeft
        } else {
            GrowthDirection::BottomRight
        };
    }

    fn anchored(&self, anchor: Anchor, flag: u8) -> (r: bool)
        ensures
            r == (anchor.bits & flag == flag),
    {
        anchor.contains(Anchor { bits: flag })
    }

    /// Whether any slider stands for the client with this id.
    pub fn contains(&self, id: u32) -> (r: bool)
        ensures
            r == exists|i: int| 0 <= i < self.sliders@.len() && self.sliders@[i].spec_has(id),
    {
        match self.position(id) {
            Option::Some(_) => true,
            Option::None => false,
        }
    }

    /// The position of the first slider standing for this id, where one
    /// does.
    pub fn position(&self, id: u32) -> (r: Option<usize>)
        ensures
            r matches Option::Some(i) ==> i < self.sliders@.len() && self.sliders@[
                i as int
            ].spec_has(id) && forall|j: int| 0 <= j < i ==> !self.sliders@[j].spec_has(id),
            r is None ==> forall|i: int|
                0 <= i < self.sliders@.len() ==> !self.sliders@[i].spec_has(id),
    {
        let n = self.sliders.len();
        let mut i: usize = 0;
        while i < n
            invariant
                i <= n,
                n == self.sliders@.len(),
                forall|j: int| 0 <= j < i ==> !self.sliders@[j].spec_has(id),
            decreases n - i,
        {
            let s = &self.sliders[i];
            let m = s.clients.len();
            let mut j: usize = 0;
            while j < m
                invariant
                    j <= m,
                    i < n,
                    n == self.sliders@.len(),
                    m == self.sliders@[i as int].clients@.len(),
                    s == self.sliders@[i as int],
                    forall|k: int| 0 <= k < i ==> !self.sliders@[k].spec_has(id),
                    forall|k: int| 0 <= k < j ==> self.sliders@[i as int].clients@[k].id != id,
                decreases m - j,
            {
                let c = &s.clients[j];
                if c.id == id {
                    proof {
                        assert(self.sliders@[i as int].spec_has(id));
                    }
                    return Option::Some(i);
                }
                j = j + 1;
            }
            proof {
                assert(!self.sliders@[i as int].spec_has(id));
            }
            i = i + 1;
        }
        Option::None
    }

    /// Take a new client in.  Where sliders merge by process and one
    /// already stands for this client's process, the client joins that
    /// slider and its position is yielded so the view can refresh;
    /// otherwise a fresh slider appears at the growing end.
    pub fn push_client(&mut self, client: OutputClient) -> (merged: Option<usize>)
        ensures
            final(self).direction == old(self).direction,
            final(self).per_process == old(self).per_process,
            match merged {
                Option::Some(i) => {
                    &&& old(self).per_process && client.process is Some
                    &&& i < old(self).sliders@.len()
                    &&& old(self).sliders@[i as int].process == client.process
                    &&& forall|j: int|
                        0 <= j < i ==> old(self).sliders@[j].process != client.process
                    &&& final(self).sliders@.len() == old(self).sliders@.len()
                    &&& forall|j: int|
                        0 <= j < old(self).sliders@.len() && j != i ==> final(self).sliders@[j]
                            == old(self).sliders@[j]
                    &&& final(self).sliders@[i as int].process == old(
                        self,
                    ).sliders@[i as int].process
                    &&& final(self).sliders@[i as int].clients@ == old(
                        self,
                    ).sliders@[i as int].clients@.push(small_of(client))
                },
                Option::None => {
                    &&& (old(self).per_process && client.process is Some ==> forall|j: int|
                        0 <= j < old(self).sliders@.len() ==> old(self).sliders@[j].process
                            != client.process)
                    &&& final(self).sliders@.len() == old(self).sliders@.len() + 1
                    &&& {
                        let at = if old(self).direction is TopLeft {
                            0int
                        } else {
                            old(self).sliders@.len() as int
                        };
                        &&& final(self).sliders@[at].clients@ == seq![small_of(client)]
                        &&& final(self).sliders@[at].process == client.process
                        &&& (old(self).direction is TopLeft ==> forall|j: int|
                            0 <= j < old(self).sliders@.len() ==> final(self).sliders@[j + 1]
                                == old(self).sliders@[j])
                        &&& (old(self).direction is BottomRight ==> forall|j: int|
                            0 <= j < old(self).sliders@.len() ==> final(self).sliders@[j] == old(
                                self,
                            ).sliders@[j])
                    }
                },
            },
    {
        if self.per_process && client.process.is_some() {
            let n = self.sliders.len();
            let mut i: usize = 0;
            while i < n
                invariant
                    i <= n,
                    n == self.sliders@.len(),
                    *self == *old(self),
                    old(self).per_process,
                    client.process is Some,
                    forall|j: int| 0 <= j < i ==> self.sliders@[j].process != client.process,
                decreases n - i,
            {
                let s = &self.sliders[i];
                let here = match (&s.process, &client.process) {
                    (Option::Some(a), Option::Some(b)) => *a == *b,
                    _ => false,
                };
                if here {
                    proof {
                        assert(self.sliders@[i as int].process == client.process);
                    }
                    let small = SmallClient::from_client(&client);
                    let mut slider = self.sliders.remove(i);
                    slider.clients.push(small);
                    self.sliders.insert(i, slider);
                    proof {
                        assert(forall|j: int|
                            0 <= j < old(self).sliders@.len() && j != i as int
                                ==> self.sliders@[j] == old(self).sliders@[j]);
                    }
                    return Option::Some(i);
                }
                i = i + 1;
            }
        }
        let small = SmallClient::from_client(&client);
        let mut clients: Vec<SmallClient> = Vec::new();
        clients.push(small);
        proof {
            assert(clients@ =~= seq![small_of(client)]);
        }
        let slider = Slider { clients, process: client.process };
        match self.direction {
            GrowthDirection::TopLeft => {
                self.sliders.insert(0, slider);
            },
            GrowthDirection::BottomRight => {
                self.sliders.push(slider);
            },
        }
        Option::None
    }

    /// Remove the client with this id from the first slider standing for
    /// it: the slider loses that client, and disappears entirely when it
    /// was its last.  The position of a slider that stays but changed is
    /// yielded so the view can refresh; nothing happens for an unknown
    /// id.
    pub fn remove(&mut self, id: u32) -> (refresh: Option<usize>)
        ensures
            final(self).direction == old(self).direction,
            final(self).per_process == old(self).per_process,
            (forall|i: int| 0 <= i < old(self).sliders@.len() ==> !old(self).sliders@[i].spec_has(id))
                ==> final(self).sliders@ == old(self).sliders@ && refresh is None,
            (exists|i: int| first_with_id(old(self).sliders@, id, i)) ==> exists|i: int|
                #[trigger] first_with_id(old(self).sliders@, id, i) && ({
                    let cs = old(self).sliders@[i].clients;
                    if cs@.len() <= 1 {
                        &&& refresh is None
                        &&& final(self).sliders@ == old(self).sliders@.remove(i)
                    } else {
                        &&& refresh == Option::Some(i as usize)
                        &&& final(self).sliders@.len() == old(self).sliders@.len()
                        &&& (forall|j: int|
                            0 <= j < old(self).sliders@.len() && j != i ==> final(self).sliders@[j]
                                == old(self).sliders@[j])
                        &&& final(self).sliders@[i].process == old(self).sliders@[i].process
                        &&& removed_first(
                            cs@,
                            final(self).sliders@[i].clients@,
                            id,
                        )
                    }
                }),
    {
        let pos = self.position(id);
        let i = match pos {
            Option::Some(i) => i,
            Option::None => {
                return Option::None;
            },
        };
        proof {
            assert(first_with_id(self.sliders@, id, i as int));
        }
        let sl = &self.sliders[i];
        let k = match client_position(&sl.clients, id) {
            Option::Some(k) => k,
            Option::None => {
                proof {
                    let t = choose|t: int|
                        0 <= t < sl.clients@.len() && sl.clients@[t].id == id;
                    assert(sl.clients@[t].id != id);
                }
                return Option::None;
            },
        };
        let ghost cs = self.sliders@[i as int].clients;
        if sl.clients.len() == 1 {
            self.sliders.remove(i);
            proof {
                assert(first_with_id(old(self).sliders@, id, i as int));
            }
            return Option::None;
        }
        let mut slider = self.sliders.remove(i);
        slider.clients.remove(k);
        self.sliders.insert(i, slider);
        proof {
            assert(first_with_id(old(self).sliders@, id, i as int));
            assert(forall|j: int|
                0 <= j < old(self).sliders@.len() && j != i as int ==> self.sliders@[j] == old(
                    self,
                ).sliders@[j]);
            assert(0 <= (k as int) < cs@.len() && cs@[k as int].id == id && (forall|t: int|
                0 <= t < (k as int) ==> cs@[t].id != id) && self.sliders@[i as int].clients@
                == cs@.remove(k as int));
            assert(removed_first(cs@, self.sliders@[i as int].clients@, id));
        }
        return Option::Some(i);
    }

    /// Drop every slider.
    pub fn clear(&mut self)
        ensures
            final(self).sliders@.len() == 0,
            final(self).direction == old(self).direction,
            final(self).per_process == old(self).per_process,
    {
        self.sliders.clear();
    }
}

/// The first slider standing for an id is unique: two positions that both
/// claim it coincide.
pub proof fn lemma_first_with_id_unique(s: Seq<Slider>, id: u32, a: int, b: int)
    requires
        first_with_id(s, id, a),
        first_with_id(s, id, b),
    ensures
        a == b,
{
    if a < b {
        assert(!s[a].spec_has(id));
    }
    if b < a {
        assert(!s[b].spec_has(id));
    }
}

} // verus!
