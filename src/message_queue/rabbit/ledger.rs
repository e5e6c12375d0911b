use vstd::prelude::*;

use crate::message_queue::rabbit::ReceiveError;

verus! {

/// How a delivery was settled. Each of these is terminal.
#[derive(PartialEq, Eq, Structural, Clone, Copy, Debug)]
pub enum Settlement {
    Acked,
    /// Negatively acknowledged and handed back to the queue for redelivery.
    Requeued,
    /// Negatively acknowledged and dead-lettered or dropped by the broker.
    Dropped,
}

/// Where a delivery stands on its channel.
#[derive(PartialEq, Eq, Structural, Clone, Copy, Debug)]
pub enum TagState {
    Delivered,
    Settled(Settlement),
}

/// Why an acknowledgement was refused before anything was sent.
#[derive(PartialEq, Eq, Structural, Clone, Copy, Debug)]
pub enum AckError {
    /// The message was received on another channel.
    WrongChannel,
    /// The message is not awaiting settlement on this channel: it was
    /// settled already, or never delivered here.
    NotOutstanding,
}

/// The command to send to the broker for a settlement that was accepted.
#[derive(PartialEq, Eq, Structural, Clone, Copy, Debug)]
pub struct Acknowledgement {
    pub delivery_tag: u64,
    pub multiple: bool,
    pub settlement: Settlement,
}

/// The state of one channel's deliveries: the highest tag seen and, for
/// every tag delivered, where it stands.
pub struct LedgerView {
    pub channel_id: u16,
    pub last_tag: u64,
    pub states: Map<u64, TagState>,
}

pub open spec fn is_outstanding(v: LedgerView, tag: u64) -> bool {
    v.states.contains_key(tag) && v.states[tag] == TagState::Delivered
}

/// A new delivery is accepted when its tag is above every earlier one.
pub open spec fn accepts_tag(v: LedgerView, tag: u64) -> bool {
    tag > v.last_tag
}

pub open spec fn record_delivery(v: LedgerView, tag: u64) -> LedgerView {
    LedgerView { channel_id: v.channel_id, last_tag: tag, states: v.states.insert(tag, TagState::Delivered) }
}

/// Whether settling `tag` (with `multiple`) settles delivery `t`: the tag
/// itself, and with `multiple` every outstanding delivery below it.
pub open spec fn is_settled_by(v: LedgerView, tag: u64, multiple: bool, t: u64) -> bool {
    is_outstanding(v, t) && (t == tag || (multiple && t < tag))
}

pub open spec fn settle_deliveries(v: LedgerView, tag: u64, multiple: bool, how: Settlement) -> LedgerView {
    LedgerView {
        channel_id: v.channel_id,
        last_tag: v.last_tag,
        states: Map::new(
            |t: u64| v.states.contains_key(t),
            |t: u64|
                if is_settled_by(v, tag, multiple, t) {
                    TagState::Settled(how)
                } else {
                    v.states[t]
                },
        ),
    }
}

/// The outcome of a settlement asked for on channel `channel_id`.
pub open spec fn settle_outcome(
    v: LedgerView,
    channel_id: u16,
    tag: u64,
    multiple: bool,
    how: Settlement,
) -> Result<LedgerView, AckError> {
    if channel_id != v.channel_id {
        Err(AckError::WrongChannel)
    } else if !is_outstanding(v, tag) {
        Err(AckError::NotOutstanding)
    } else {
        Ok(settle_deliveries(v, tag, multiple, how))
    }
}

/// Settling is terminal: once a settlement of a delivery has been accepted,
/// the delivery holds the state it gave, and any second settlement of it
/// (ack or nack, single or multiple) is refused and changes nothing.
pub proof fn lemma_settlement_is_terminal(
    v: LedgerView,
    channel_id: u16,
    tag: u64,
    multiple: bool,
    how: Settlement,
    multiple2: bool,
    how2: Settlement,
)
    requires
        settle_outcome(v, channel_id, tag, multiple, how) is Ok,
    ensures
        settle_outcome(v, channel_id, tag, multiple, how)->Ok_0.states[tag] == TagState::Settled(how),
        settle_outcome(settle_outcome(v, channel_id, tag, multiple, how)->Ok_0, channel_id, tag, multiple2, how2)
            == Err::<LedgerView, AckError>(AckError::NotOutstanding),
{
}

/// A settled delivery keeps the state it was settled with through every
/// later settlement that is accepted.
pub proof fn lemma_settled_state_kept(
    v: LedgerView,
    t: u64,
    channel_id: u16,
    tag: u64,
    multiple: bool,
    how: Settlement,
)
    requires
        v.states.contains_key(t),
        v.states[t] is Settled,
        settle_outcome(v, channel_id, tag, multiple, how) is Ok,
    ensures
        settle_outcome(v, channel_id, tag, multiple, how)->Ok_0.states.contains_key(t),
        settle_outcome(v, channel_id, tag, multiple, how)->Ok_0.states[t] == v.states[t],
{
}

pub open spec fn strictly_increasing(s: Seq<u64>) -> bool {
    forall|i: int, j: int| 0 <= i < j < s.len() ==> s[i] < s[j]
}

/// The deliveries of one channel and where each stands.
pub struct AckLedger {
    channel_id: u16,
    last_tag: u64,
    /// The tags still awaiting settlement, in increasing order.
    outstanding: Vec<u64>,
    states: Ghost<Map<u64, TagState>>,
}

impl View for AckLedger {
    type V = LedgerView;

    closed spec fn view(&self) -> LedgerView {
        LedgerView { channel_id: self.channel_id, last_tag: self.last_tag, states: self.states@ }
    }
}

impl AckLedger {
    pub closed spec fn wf(&self) -> bool {
        &&& strictly_increasing(self.outstanding@)
        &&& forall|t: u64| #[trigger] self.states@.contains_key(t) ==> 0 < t <= self.last_tag
        &&& forall|t: u64|
            #[trigger] self.outstanding@.contains(t) <==> (self.states@.contains_key(t)
                && self.states@[t] == TagState::Delivered)
    }

    pub fn new(channel_id: u16) -> (r: AckLedger)
        ensures
            r.wf(),
            r@.channel_id == channel_id,
            r@.last_tag == 0,
            r@.states == Map::<u64, TagState>::empty(),
    {
        AckLedger { channel_id, last_tag: 0, outstanding: Vec::new(), states: Ghost(Map::empty()) }
    }

    pub fn channel_id(&self) -> (r: u16)
        ensures
            r == self@.channel_id,
    {
        self.channel_id
    }

    /// Records a delivery with tag `tag`; tags must rise on a channel.
    pub fn record(&mut self, tag: u64) -> (r: Result<(), ReceiveError>)
        requires
            old(self).wf(),
        ensures
            final(self).wf(),
            r is Ok <==> accepts_tag(old(self)@, tag),
            r is Ok ==> final(self)@ == record_delivery(old(self)@, tag),
            r is Err ==> final(self)@ == old(self)@ && r == Err::<(), ReceiveError>(
                ReceiveError::TagNotIncreasing,
            ),
    {
        if tag <= self.last_tag {
            return Err(ReceiveError::TagNotIncreasing);
        }
        let ghost old_out = self.outstanding@;
        assert forall|k: int| 0 <= k < old_out.len() implies old_out[k] < tag by {
            assert(old_out.contains(old_out[k]));
        }
        self.outstanding.push(tag);
        self.last_tag = tag;
        self.states = Ghost(self.states@.insert(tag, TagState::Delivered));
        assert forall|t: u64| #[trigger] self.outstanding@.contains(t) <==> (self.states@.contains_key(t)
            && self.states@[t] == TagState::Delivered) by {
            if t != tag {
                assert(self.outstanding@.contains(t) <==> old_out.contains(t)) by {
                    if old_out.contains(t) {
                        let k = choose|k: int| 0 <= k < old_out.len() && old_out[k] == t;
                        assert(self.outstanding@[k] == t);
                    }
                    if self.outstanding@.contains(t) {
                        let k = choose|k: int| 0 <= k < self.outstanding@.len() && self.outstanding@[k] == t;
                        assert(k < old_out.len());
                        assert(old_out[k] == t);
                    }
                }
            } else {
                assert(self.outstanding@[old_out.len() as int] == tag);
            }
        }
        Ok(())
    }

    /// Finds where `tag` stands in the outstanding tags: the first index
    /// whose tag is not below it.
    fn position(&self, tag: u64) -> (i: usize)
        requires
            self.wf(),
        ensures
            i <= self.outstanding@.len(),
            forall|k: int| 0 <= k < i ==> self.outstanding@[k] < tag,
            i < self.outstanding@.len() ==> self.outstanding@[i as int] >= tag,
    {
        let mut i: usize = 0;
        while i < self.outstanding.len()
            invariant
                i <= self.outstanding@.len(),
                forall|k: int| 0 <= k < i ==> self.outstanding@[k] < tag,
            decreases self.outstanding@.len() - i,
        {
            if self.outstanding[i] >= tag {
                return i;
            }
            i = i + 1;
        }
        i
    }

    /// Settles the delivery `tag` of channel `channel_id` (and with
    /// `multiple` every outstanding delivery below it) as `how`, and returns
    /// the command for the broker.
    pub fn settle(&mut self, channel_id: u16, tag: u64, multiple: bool, how: Settlement) -> (r: Result<
        Acknowledgement,
        AckError,
    >)
        requires
            old(self).wf(),
        ensures
            final(self).wf(),
            r is Ok <==> settle_outcome(old(self)@, channel_id, tag, multiple, how) is Ok,
            settle_outcome(old(self)@, channel_id, tag, multiple, how) matches Ok(v) ==> {
                &&& final(self)@ == v
                &&& r == Ok::<Acknowledgement, AckError>(
                    Acknowledgement { delivery_tag: tag, multiple, settlement: how },
                )
            },
            settle_outcome(old(self)@, channel_id, tag, multiple, how) matches Err(e) ==> {
                &&& final(self)@ == old(self)@
                &&& r == Err::<Acknowledgement, AckError>(e)
            },
    {
        if channel_id != self.channel_id {
            return Err(AckError::WrongChannel);
        }
        let i = self.position(tag);
        let ghost old_out = self.outstanding@;
        let ghost old_states = self.states@;
        let ghost v = self@;
        if i >= self.outstanding.len() || self.outstanding[i] != tag {
            assert(!old_out.contains(tag)) by {
                if old_out.contains(tag) {
                    let k = choose|k: int| 0 <= k < old_out.len() && old_out[k] == tag;
                    if k < i {
                    } else if k > i {
                        assert(old_out[i as int] < old_out[k]);
                    }
                }
            }
            return Err(AckError::NotOutstanding);
        }
        assert(old_out[i as int] == tag);
        assert(old_out.contains(tag));
        assert(is_outstanding(v, tag));
        if multiple {
            let rest = self.outstanding.split_off(i + 1);
            self.outstanding = rest;
        } else {
            self.outstanding.remove(i);
        }
        let ghost new_states = settle_deliveries(v, tag, multiple, how).states;
        self.states = Ghost(new_states);
        assert(self.states@ =~= new_states);
        let ghost new_out = self.outstanding@;
        assert(strictly_increasing(new_out)) by {
            assert forall|a: int, b: int| 0 <= a < b < new_out.len() implies new_out[a] < new_out[b] by {
                if multiple {
                    assert(new_out[a] == old_out[a + i + 1]);
                    assert(new_out[b] == old_out[b + i + 1]);
                } else {
                    if a >= i {
                        assert(new_out[a] == old_out[a + 1]);
                    }
                    if b >= i {
                        assert(new_out[b] == old_out[b + 1]);
                    }
                }
            }
        }
        assert forall|t: u64| #[trigger] new_out.contains(t) <==> (new_states.contains_key(t)
            && new_states[t] == TagState::Delivered) by {
            if new_out.contains(t) {
                let k = choose|k: int| 0 <= k < new_out.len() && new_out[k] == t;
                let j: int = if multiple {
                    k + i + 1
                } else if k >= i {
                    k + 1
                } else {
                    k
                };
                assert(old_out[j] == t);
                assert(old_out.contains(t));
                assert(j != i);
                if j < i {
                    assert(t < tag);
                    assert(!multiple);
                } else {
                    assert(old_out[i as int] < old_out[j]);
                }
            }
            if new_states.contains_key(t) && new_states[t] == TagState::Delivered {
                assert(!is_settled_by(v, tag, multiple, t));
                assert(old_states[t] == TagState::Delivered);
                assert(old_out.contains(t));
                let j = choose|j: int| 0 <= j < old_out.len() && old_out[j] == t;
                assert(j != i);
                if multiple {
                    if j < i {
                        assert(t < tag);
                    }
                    assert(new_out[j - i - 1] == t);
                } else if j < i {
                    assert(new_out[j] == t);
                } else {
                    assert(new_out[j - 1] == t);
                }
            }
        }
        Ok(Acknowledgement { delivery_tag: tag, multiple, settlement: how })
    }
}

} // verus!
