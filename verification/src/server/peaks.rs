use vstd::prelude::*;

use crate::server::{Message, MessageClient, MASTER_ID};
use crate::text::{digits_of, decimal_val, parses_to_u32, parse_u32};

verus! {

/// Default sampling rate of a peak meter, in hertz.
pub const DEFAULT_PEAK_RATE: u32 = 30;

/// The ids whose peak meters the pool keeps, one low-bandwidth monitoring
/// sub-stream each.  The native streams themselves live with the event
/// loop; the pool decides which ids carry one.  Only the loop thread's
/// own callback path mutates it.
pub struct PeakMeterPool {
    ids: Vec<u32>,
}

impl View for PeakMeterPool {
    type V = Seq<u32>;

    closed spec fn view(&self) -> Seq<u32> {
        self.ids@
    }
}

impl PeakMeterPool {
    /// Validity: no id carries two meters.
    pub open spec fn wf(&self) -> bool {
        forall|i: int, j: int| 0 <= i < j < self@.len() ==> self@[i] != self@[j]
    }

    /// An empty pool.
    pub fn new() -> (r: PeakMeterPool)
        ensures
            r@ == Seq::<u32>::empty(),
            r.wf(),
    {
        PeakMeterPool { ids: Vec::new() }
    }

    /// Whether this id carries a meter.
    pub fn contains(&self, id: u32) -> (r: bool)
        ensures
            r == self@.contains(id),
    {
        let n = self.ids.len();
        let mut i: usize = 0;
        while i < n
            invariant
                i <= n,
                n == self@.len(),
                self@ == self.ids@,
                forall|j: int| 0 <= j < i ==> self@[j] != id,
            decreases n - i,
        {
            if self.ids[i] == id {
                return true;
            }
            i += 1;
        }
        false
    }

    /// Record a meter for `id`.  `created` reports whether the native
    /// monitoring stream came up.  Nothing is recorded — and `false` says
    /// so — for the synthetic master id (its fixed index addresses no real
    /// monitor source), for a stream that did not come up, or for an id
    /// that already carries a meter.
    pub fn attach(&mut self, id: u32, created: bool) -> (r: bool)
        requires
            old(self).wf(),
        ensures
            final(self).wf(),
            r == (id != MASTER_ID && created && !old(self)@.contains(id)),
            final(self)@ == if r {
                old(self)@.push(id)
            } else {
                old(self)@
            },
    {
        if id == MASTER_ID || !created {
            return false;
        }
        if self.contains(id) {
            return false;
        }
        self.ids.push(id);
        true
    }

    /// Drop the meter of `id`, where it carries one: the first (and, the
    /// pool being valid, only) entry goes away.  Detaching an id that
    /// carries none — never attached, or already detached — changes
    /// nothing.
    pub fn detach(&mut self, id: u32)
        requires
            old(self).wf(),
        ensures
            final(self).wf(),
            final(self)@ == old(self)@.remove_value(id),
            !old(self)@.contains(id) ==> final(self)@ == old(self)@,
    {
        let n = self.ids.len();
        let mut i: usize = 0;
        while i < n
            invariant
                i <= n,
                n == self@.len(),
                self@ == self.ids@,
                old(self)@ == self@,
                old(self).wf(),
                forall|j: int| 0 <= j < i ==> self@[j] != id,
            decreases n - i,
        {
            if self.ids[i] == id {
                proof {
                    self.ids@.index_of_first_ensures(id);
                    let index = self.ids@.index_of_first(id).unwrap();
                    assert(self.ids@[i as int] == id);
                    if index < i as int {
                        assert(self.ids@[index] != id);
                    }
                    if (i as int) < index {
                        assert(self.ids@[i as int] != id);
                    }
                    assert(index == i as int);
                }
                let ghost pre = self.ids@;
                self.ids.remove(i);
                proof {
                    pre.remove_ensures(i as int);
                    assert forall|a: int, b: int|
                        0 <= a < b < self.ids@.len() implies self.ids@[a] != self.ids@[b] by {
                        let aa = if a < i as int {
                            a
                        } else {
                            a + 1
                        };
                        let bb = if b < i as int {
                            b
                        } else {
                            b + 1
                        };
                        assert(self.ids@[a] == pre[aa]);
                        assert(self.ids@[b] == pre[bb]);
                        assert(0 <= aa < bb < pre.len());
                        assert(pre[aa] != pre[bb]);
                    }
                }
                return;
            }
            i += 1;
        }
        proof {
            self.ids@.index_of_first_ensures(id);
            assert(!self@.contains(id)) by {
                assert(forall|j: int| 0 <= j < self@.len() ==> self@[j] != id);
            }
        }
    }

    /// Drop every meter, as the teardown of a session does.
    pub fn clear(&mut self)
        ensures
            final(self)@ == Seq::<u32>::empty(),
            final(self).wf(),
    {
        self.ids.clear();
    }
}

/// Detach idempotence law: detaching the same id twice leaves exactly what
/// one detach leaves, and detaching an id that was never attached leaves
/// the pool untouched; none of it can fail.
pub proof fn lemma_detach_idempotent(s: Seq<u32>, id: u32)
    requires
        forall|i: int, j: int| 0 <= i < j < s.len() ==> s[i] != s[j],
    ensures
        s.remove_value(id).remove_value(id) == s.remove_value(id),
        !s.contains(id) ==> s.remove_value(id) == s,
{
    s.index_of_first_ensures(id);
    match s.index_of_first(id) {
        Option::Some(i) => {
            let removed = s.remove(i);
            assert(forall|j: int| 0 <= j < removed.len() ==> removed[j] != id) by {
                assert(forall|j: int|
                    0 <= j < i ==> #[trigger] removed[j] == s[j] && removed[j] != id);
                assert(forall|j: int|
                    i <= j < removed.len() ==> #[trigger] removed[j] == s[j + 1] && removed[j]
                        != id);
            }
            removed.index_of_first_ensures(id);
            assert(!removed.contains(id));
        },
        Option::None => {
        },
    }
}

/// The message one peak sample yields: the sample's raw bits carried to
/// the interface, except that samples of exactly zero (either signed
/// zero) are suppressed so silence does not flood the listeners.
pub fn peak_message(id: u32, bits: u32) -> (r: Option<Message>)
    ensures
        r is Some <==> bits & 0x7FFF_FFFFu32 != 0,
        r is Some ==> r->0.model() == crate::server::MsgModel::Client(
            crate::server::ClientMsgModel::Peak(id, bits),
        ),
{
    if bits & 0x7FFF_FFFF != 0 {
        Option::Some(Message::OutputClient(MessageClient::Peak(id, bits)))
    } else {
        Option::None
    }
}

/// The sampling rate a peak meter runs at: the environment's override
/// where it holds a number, the default everywhere else.
pub fn peak_rate(env_value: Option<String>) -> (r: u32)
    ensures
        r as int == match env_value {
            Option::Some(s) => if parses_to_u32(s@) {
                decimal_val(digits_of(s@))
            } else {
                DEFAULT_PEAK_RATE as int
            },
            Option::None => DEFAULT_PEAK_RATE as int,
        },
{
    match env_value {
        Option::Some(s) => match parse_u32(s.as_str()) {
            Option::Some(v) => v,
            Option::None => DEFAULT_PEAK_RATE,
        },
        Option::None => DEFAULT_PEAK_RATE,
    }
}

} // verus!
