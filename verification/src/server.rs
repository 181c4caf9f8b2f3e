use vstd::prelude::*;

use bytes::Bytes;

use crate::ClientId;

verus! {

/// Abstract state of one registered peer on the server: its identifier and
/// the inbound queue of every channel (index is the channel id).
#[verifier::ext_equal]
pub struct PeerView {
    pub id: ClientId,
    pub inbound: Seq<Seq<Bytes>>,
}

/// Abstract state of a server transport: the running flag, the configured
/// channel count, every registered peer with its inbound queues, and the
/// outbound buffer in insertion order.
#[verifier::ext_equal]
pub struct ServerView {
    pub running: bool,
    pub channel_count: nat,
    pub peers: Seq<PeerView>,
    pub outbound: Seq<(ClientId, u8, Bytes)>,
}

/// One registered peer and its channel table.
struct PeerState {
    id: ClientId,
    received_messages: Vec<Vec<Bytes>>,
}

impl View for PeerState {
    type V = PeerView;

    closed spec fn view(&self) -> PeerView {
        PeerView {
            id: self.id,
            inbound: self.received_messages@.map_values(|queue: Vec<Bytes>| queue@),
        }
    }
}

/// Stores information about the server independent from the messaging
/// backend: the multi-peer mirror of the client transport.
///
/// The messaging backend is responsible for updating this state:
/// - When the server starts or stops, [`Self::set_running`] should be used
///   to reflect this.
/// - For receiving messages, [`Self::insert_received`] should be used.
/// - For sending messages, [`Self::drain_sent`] should be used to drain all
///   sent messages once per tick.
///
/// The session layer registers a peer with [`Self::add_peer`] when it
/// connects and drops it with [`Self::remove_peer`] when it disconnects.
pub struct RepliconServer {
    /// Whether the server accepts peer-scoped operations.
    running: bool,
    /// Channel count every registered peer's queue table is sized to.
    channels_count: usize,
    /// Registered peers and their received messages.
    peers: Vec<PeerState>,
    /// List of sent messages with their peer and channel since the last tick.
    sent_messages: Vec<(ClientId, u8, Bytes)>,
}

impl View for RepliconServer {
    type V = ServerView;

    closed spec fn view(&self) -> ServerView {
        ServerView {
            running: self.running,
            channel_count: self.channels_count as nat,
            peers: self.peers@.map_values(|peer: PeerState| peer@),
            outbound: self.sent_messages@,
        }
    }
}

impl RepliconServer {
    /// Whether a peer with this ID is registered.
    pub open spec fn has_peer(&self, peer_id: ClientId) -> bool {
        exists|i: int| 0 <= i < self@.peers.len() && self@.peers[i].id == peer_id
    }

    /// Position of the registered peer with this ID; with distinct peers it
    /// is the one index whose entry carries `peer_id`.
    pub open spec fn peer_index(&self, peer_id: ClientId) -> int {
        choose|i: int| 0 <= i < self@.peers.len() && self@.peers[i].id == peer_id
    }

    /// No two registered peers share an ID.
    pub open spec fn peers_distinct(&self) -> bool {
        forall|i: int, j: int|
            0 <= i < j < self@.peers.len() ==> self@.peers[i].id != self@.peers[j].id
    }

    /// Every registered peer has one inbound queue per configured channel.
    pub open spec fn peers_sized(&self) -> bool {
        forall|i: int|
            0 <= i < self@.peers.len() ==> self@.peers[i].inbound.len() == self@.channel_count
    }

    /// Every peer's inbound queues and the outbound buffer are empty.
    pub open spec fn buffers_empty(&self) -> bool {
        &&& self@.outbound.len() == 0
        &&& forall|i: int, ch: int|
            0 <= i < self@.peers.len() && 0 <= ch < self@.peers[i].inbound.len()
                ==> self@.peers[i].inbound[ch].len() == 0
    }

    /// Peers are distinct and fully sized, and while the server is stopped
    /// nothing sits in the queues: peer-scoped operations are no-ops in that
    /// state, and stopping discards everything.
    pub open spec fn wf(&self) -> bool {
        &&& self.peers_distinct()
        &&& self.peers_sized()
        &&& !self@.running ==> self.buffers_empty()
    }

    /// Creates a stopped server with no channels, no peers and empty buffers.
    pub fn new() -> (result: Self)
        ensures
            result.wf(),
            !result@.running,
            result@.channel_count == 0,
            result@.peers.len() == 0,
            result@.outbound.len() == 0,
    {
        RepliconServer {
            running: false,
            channels_count: 0,
            peers: Vec::new(),
            sent_messages: Vec::new(),
        }
    }

    /// Establishes the channel count that each peer's queue table is sized
    /// to.
    ///
    /// Every registered peer's queues are recreated empty with the new
    /// count: a structural reconfiguration, not an additive resize.
    pub fn setup_channels(&mut self, channels_count: usize)
        requires
            old(self).wf(),
        ensures
            final(self).wf(),
            final(self)@.running == old(self)@.running,
            final(self)@.channel_count == channels_count,
            final(self)@.outbound == old(self)@.outbound,
            final(self)@.peers.len() == old(self)@.peers.len(),
            forall|i: int|
                0 <= i < old(self)@.peers.len()
                    ==> final(self)@.peers[i].id == old(self)@.peers[i].id,
            forall|i: int, ch: int|
                0 <= i < final(self)@.peers.len() && 0 <= ch < channels_count
                    ==> final(self)@.peers[i].inbound[ch].len() == 0,
    {
        self.channels_count = channels_count;
        let peer_count: usize = self.peers.len();
        let mut i: usize = 0;
        while i < peer_count
            invariant
                i <= peer_count,
                self.running == old(self).running,
                self.channels_count == channels_count,
                self.sent_messages == old(self).sent_messages,
                self.peers@.len() == peer_count,
                peer_count == old(self).peers@.len(),
                forall|p: int|
                    0 <= p < peer_count ==> self.peers@[p].id == old(self).peers@[p].id,
                forall|p: int|
                    0 <= p < i ==> self.peers@[p].received_messages@.len() == channels_count,
                forall|p: int, ch: int|
                    0 <= p < i && 0 <= ch < channels_count
                        ==> self.peers@[p].received_messages@[ch]@.len() == 0,
                forall|p: int|
                    i <= p < peer_count
                        ==> self.peers@[p].received_messages
                            == old(self).peers@[p].received_messages,
            decreases peer_count - i,
        {
            let peer = &mut self.peers[i];
            peer.received_messages = crate::channels::make_queues(channels_count);
            i = i + 1;
        }
        proof {
            assert forall|p: int, q: int| 0 <= p < q < self@.peers.len() implies
                self@.peers[p].id != self@.peers[q].id by {
                assert(old(self)@.peers[p] == old(self).peers@[p]@);
                assert(old(self)@.peers[q] == old(self).peers@[q]@);
            }
            assert(self.peers_distinct());
        }
    }

    /// Returns whether the server is currently running.
    pub fn is_running(&self) -> (result: bool)
        ensures
            result == self@.running,
    {
        self.running
    }

    /// Sets whether the server is running.
    ///
    /// Should be called only from the messaging backend when the server
    /// starts or stops. Stopping discards every peer's queued messages and
    /// the whole outbound buffer — the same leakage-prevention rule as the
    /// client's disconnect — while the peers themselves stay registered.
    pub fn set_running(&mut self, running: bool)
        requires
            old(self).wf(),
        ensures
            final(self).wf(),
            final(self)@.running == running,
            final(self)@.channel_count == old(self)@.channel_count,
            final(self)@.peers.len() == old(self)@.peers.len(),
            forall|i: int|
                0 <= i < old(self)@.peers.len()
                    ==> final(self)@.peers[i].id == old(self)@.peers[i].id,
            !running ==> final(self).buffers_empty(),
            running ==> final(self)@.peers == old(self)@.peers
                && final(self)@.outbound == old(self)@.outbound,
    {
        if !running {
            self.clear_buffers();
        }
        let ghost mid: RepliconServer = *self;
        self.running = running;
        proof {
            assert(self@.peers == mid@.peers);
            assert(self@.outbound == mid@.outbound);
        }
    }

    /// Empties every peer's inbound queues in place and clears the outbound
    /// buffer.
    fn clear_buffers(&mut self)
        ensures
            final(self)@.running == old(self)@.running,
            final(self)@.channel_count == old(self)@.channel_count,
            final(self)@.peers.len() == old(self)@.peers.len(),
            forall|i: int|
                0 <= i < old(self)@.peers.len()
                    ==> final(self)@.peers[i].id == old(self)@.peers[i].id
                        && final(self)@.peers[i].inbound.len()
                            == old(self)@.peers[i].inbound.len(),
            final(self).buffers_empty(),
    {
        let peer_count: usize = self.peers.len();
        let mut i: usize = 0;
        while i < peer_count
            invariant
                i <= peer_count,
                self.running == old(self).running,
                self.channels_count == old(self).channels_count,
                self.sent_messages == old(self).sent_messages,
                self.peers@.len() == peer_count,
                peer_count == old(self).peers@.len(),
                forall|p: int|
                    0 <= p < peer_count ==> self.peers@[p].id == old(self).peers@[p].id
                        && self.peers@[p].received_messages@.len()
                            == old(self).peers@[p].received_messages@.len(),
                forall|p: int, ch: int|
                    0 <= p < i && 0 <= ch < self.peers@[p].received_messages@.len()
                        ==> self.peers@[p].received_messages@[ch]@.len() == 0,
            decreases peer_count - i,
        {
            let peer = &mut self.peers[i];
            crate::channels::clear_queues(&mut peer.received_messages);
            i = i + 1;
        }
        self.sent_messages.clear();
    }

    /// Finds the position of a registered peer in the peer table.
    fn peer_position(&self, peer_id: ClientId) -> (result: Option<usize>)
        ensures
            (match result {
                Some(i) => (i as int) < self@.peers.len() && self@.peers[i as int].id == peer_id
                    && self.has_peer(peer_id)
                    && (self.peers_distinct() ==> self.peer_index(peer_id) == i as int),
                None => !self.has_peer(peer_id),
            }),
    {
        let count: usize = self.peers.len();
        let mut i: usize = 0;
        while i < count
            invariant
                i <= count,
                count == self.peers@.len(),
                forall|j: int| 0 <= j < i ==> self.peers@[j].id != peer_id,
            decreases count - i,
        {
            let peer = &self.peers[i];
            if peer.id == peer_id {
                proof {
                    lemma_peers_view(*self);
                    assert(self@.peers[i as int].id == peer_id);
                    assert(self.has_peer(peer_id));
                    if self.peers_distinct() {
                        let k = self.peer_index(peer_id);
                        assert(0 <= k < self@.peers.len() && self@.peers[k].id == peer_id);
                        assert(k == i as int);
                    }
                }
                return Some(i);
            }
            i = i + 1;
        }
        proof {
            lemma_peers_view(*self);
        }
        None
    }

    /// Registers a peer that just connected, giving it one empty inbound
    /// queue per configured channel.
    ///
    /// Should be called by the session layer when a peer connects; while the
    /// server is not running the call is a no-op. Re-adding a registered
    /// peer recreates its queues empty.
    pub fn add_peer(&mut self, peer_id: ClientId)
        requires
            old(self).wf(),
        ensures
            final(self).wf(),
            !old(self)@.running ==> *final(self) == *old(self),
            old(self)@.running ==> final(self)@.running == old(self)@.running
                && final(self)@.channel_count == old(self)@.channel_count
                && final(self)@.outbound == old(self)@.outbound
                && final(self).has_peer(peer_id)
                && final(self).peer_index(peer_id) == (if old(self).has_peer(peer_id) {
                    old(self).peer_index(peer_id)
                } else {
                    old(self)@.peers.len() as int
                })
                && final(self)@.peers[final(self).peer_index(peer_id)].id == peer_id
                && final(self)@.peers[final(self).peer_index(peer_id)].inbound.len()
                    == old(self)@.channel_count
                && (forall|ch: int|
                    0 <= ch < old(self)@.channel_count
                        ==> final(self)@.peers[final(self).peer_index(peer_id)].inbound[ch].len()
                            == 0)
                && final(self)@.peers.len() == (if old(self).has_peer(peer_id) {
                    old(self)@.peers.len() as int
                } else {
                    old(self)@.peers.len() + 1 as int
                })
                && (forall|i: int|
                    0 <= i < old(self)@.peers.len() && old(self)@.peers[i].id != peer_id
                        ==> final(self)@.peers[i] == old(self)@.peers[i]),
    {
        if !self.running {
            return;
        }
        let count: usize = self.channels_count;
        let pos = self.peer_position(peer_id);
        match pos {
            Some(i) => {
                let peer = &mut self.peers[i];
                peer.received_messages = crate::channels::make_queues(count);
                proof {
                    lemma_peers_view(*old(self));
                    lemma_peers_view(*self);
                    assert(self@.peers[i as int].id == peer_id);
                    assert(self.has_peer(peer_id));
                    assert forall|p: int, q: int| 0 <= p < q < self@.peers.len() implies
                        self@.peers[p].id != self@.peers[q].id by {
                        assert(old(self)@.peers[p].id == self@.peers[p].id);
                        assert(old(self)@.peers[q].id == self@.peers[q].id);
                    }
                    assert(self.peer_index(peer_id) == i as int);
                    assert(old(self).peer_index(peer_id) == i as int);
                    assert forall|p: int| 0 <= p < self@.peers.len() implies
                        #[trigger] self@.peers[p].inbound.len() == self@.channel_count by {
                        if p == i as int {
                            lemma_peer_view(self.peers@[p]);
                        } else {
                            assert(self@.peers[p] == old(self)@.peers[p]);
                        }
                    }
                    assert(self.peers_sized());
                }
            },
            None => {
                let peer = PeerState {
                    id: peer_id,
                    received_messages: crate::channels::make_queues(count),
                };
                self.peers.push(peer);
                proof {
                    lemma_peers_view(*old(self));
                    lemma_peers_view(*self);
                    let ni = old(self)@.peers.len() as int;
                    assert(self@.peers[ni].id == peer_id);
                    assert(self.has_peer(peer_id));
                    assert forall|p: int, q: int| 0 <= p < q < self@.peers.len() implies
                        self@.peers[p].id != self@.peers[q].id by {
                        if q < ni {
                            assert(old(self)@.peers[p].id == self@.peers[p].id);
                            assert(old(self)@.peers[q].id == self@.peers[q].id);
                        } else {
                            assert(old(self)@.peers[p].id == self@.peers[p].id);
                        }
                    }
                    assert(self.peer_index(peer_id) == ni);
                    assert forall|p: int| 0 <= p < self@.peers.len() implies
                        #[trigger] self@.peers[p].inbound.len() == self@.channel_count by {
                        if p == ni {
                            lemma_peer_view(self.peers@[p]);
                        } else {
                            assert(self@.peers[p] == old(self)@.peers[p]);
                        }
                    }
                    assert(self.peers_sized());
                }
            },
        }
    }

    /// Removes a peer that disconnected, dropping its queue table.
    ///
    /// Should be called by the session layer when a peer disconnects; while
    /// the server is not running, or when the peer is unknown, the call is
    /// a no-op.
    pub fn remove_peer(&mut self, peer_id: ClientId)
        requires
            old(self).wf(),
        ensures
            final(self).wf(),
            !(old(self)@.running && old(self).has_peer(peer_id)) ==> *final(self) == *old(self),
            old(self)@.running && old(self).has_peer(peer_id)
                ==> final(self)@.running == old(self)@.running
                && final(self)@.channel_count == old(self)@.channel_count
                && final(self)@.outbound == old(self)@.outbound
                && !final(self).has_peer(peer_id)
                && final(self)@.peers == old(self)@.peers.remove(old(self).peer_index(peer_id)),
    {
        if !self.running {
            return;
        }
        let pos = self.peer_position(peer_id);
        match pos {
            None => {},
            Some(i) => {
                self.peers.remove(i);
                proof {
                    lemma_peers_view(*old(self));
                    lemma_peers_view(*self);
                    let oi = i as int;
                    assert(self@.peers =~= old(self)@.peers.remove(oi));
                    assert forall|p: int| 0 <= p < self@.peers.len() implies
                        self@.peers[p].id != peer_id by {
                        if p < oi {
                            assert(self@.peers[p] == old(self)@.peers[p]);
                        } else {
                            assert(self@.peers[p] == old(self)@.peers[p + 1]);
                        }
                        assert(old(self)@.peers[oi].id == peer_id);
                    }
                    assert forall|p: int, q: int| 0 <= p < q < self@.peers.len() implies
                        self@.peers[p].id != self@.peers[q].id by {
                        let p0: int = if p < oi { p } else { p + 1 };
                        let q0: int = if q < oi { q } else { q + 1 };
                        assert(self@.peers[p] == old(self)@.peers[p0]);
                        assert(self@.peers[q] == old(self)@.peers[q0]);
                    }
                }
            },
        }
    }

    /// Sends a message to a peer over a channel.
    ///
    /// Appends to the outbound buffer only while the server is running and
    /// the peer is registered; otherwise the call is a no-op and the whole
    /// state is left unchanged (the peer may have disconnected this tick).
    /// Referencing a channel outside the configured range is a configuration
    /// error, ruled out by the precondition.
    pub fn send(&mut self, peer_id: ClientId, channel_id: u8, message: Bytes)
        requires
            old(self).wf(),
            old(self)@.running && old(self).has_peer(peer_id)
                ==> (channel_id as int) < old(self)@.channel_count,
        ensures
            final(self).wf(),
            !(old(self)@.running && old(self).has_peer(peer_id)) ==> *final(self) == *old(self),
            old(self)@.running && old(self).has_peer(peer_id)
                ==> final(self)@.running == old(self)@.running
                && final(self)@.channel_count == old(self)@.channel_count
                && final(self)@.peers == old(self)@.peers
                && final(self)@.outbound
                    == old(self)@.outbound.push((peer_id, channel_id, message)),
    {
        if !self.running {
            return;
        }
        let pos = self.peer_position(peer_id);
        if pos.is_none() {
            return;
        }
        self.sent_messages.push((peer_id, channel_id, message));
        proof {
            assert(self@.peers == old(self)@.peers);
        }
    }

    /// Pops the next available message a peer sent over a channel.
    ///
    /// The most recently inserted message of that peer's channel comes back
    /// first; while the server is not running, or when the peer is unknown,
    /// the call returns `None` and changes nothing.
    pub fn receive(&mut self, peer_id: ClientId, channel_id: u8) -> (result: Option<Bytes>)
        requires
            old(self).wf(),
            old(self)@.running && old(self).has_peer(peer_id)
                ==> (channel_id as int) < old(self)@.channel_count,
        ensures
            final(self).wf(),
            !(old(self)@.running && old(self).has_peer(peer_id))
                ==> *final(self) == *old(self) && result is None,
            old(self)@.running && old(self).has_peer(peer_id) ==> ({
                let oi = old(self).peer_index(peer_id);
                let oq = old(self)@.peers[oi].inbound[channel_id as int];
                &&& final(self)@.running == old(self)@.running
                &&& final(self)@.channel_count == old(self)@.channel_count
                &&& final(self)@.outbound == old(self)@.outbound
                &&& final(self)@.peers.len() == old(self)@.peers.len()
                &&& (forall|i: int|
                    0 <= i < old(self)@.peers.len() && i != oi
                        ==> final(self)@.peers[i] == old(self)@.peers[i])
                &&& final(self)@.peers[oi].id == peer_id
                &&& final(self)@.peers[oi].inbound.len() == old(self)@.peers[oi].inbound.len()
                &&& (forall|ch: int|
                    0 <= ch < old(self)@.peers[oi].inbound.len() && ch != channel_id as int
                        ==> final(self)@.peers[oi].inbound[ch]
                            == old(self)@.peers[oi].inbound[ch])
                &&& (oq.len() == 0 ==> result is None
                    && final(self)@.peers[oi].inbound[channel_id as int] == oq)
                &&& (oq.len() > 0 ==> result == Some(oq.last())
                    && final(self)@.peers[oi].inbound[channel_id as int] == oq.drop_last())
            }),
    {
        if !self.running {
            return None;
        }
        let pos = self.peer_position(peer_id);
        let i: usize = match pos {
            None => {
                return None;
            },
            Some(i) => i,
        };
        proof {
            lemma_peers_view(*old(self));
            lemma_peer_view(old(self).peers@[i as int]);
        }
        let peer = &mut self.peers[i];
        let queue = &mut peer.received_messages[channel_id as usize];
        let message = queue.pop();
        proof {
            lemma_peers_view(*self);
            assert forall|p: int| 0 <= p < self@.peers.len() implies
                #[trigger] self@.peers[p].id == old(self)@.peers[p].id
                    && self@.peers[p].inbound.len() == old(self)@.peers[p].inbound.len() by {
                if p != i as int {
                    assert(self@.peers[p] == old(self)@.peers[p]);
                } else {
                    lemma_peer_view(old(self).peers@[p]);
                    lemma_peer_view(self.peers@[p]);
                }
            }
            assert(self.peers_distinct());
            assert forall|p: int| 0 <= p < self@.peers.len() implies
                #[trigger] self@.peers[p].inbound.len() == self@.channel_count by {
                if p != i as int {
                    assert(self@.peers[p] == old(self)@.peers[p]);
                } else {
                    lemma_peer_view(old(self).peers@[p]);
                    lemma_peer_view(self.peers@[p]);
                }
                assert(old(self)@.peers[p].inbound.len() == old(self)@.channel_count);
            }
            assert(self.peers_sized());
        }
        message
    }

    /// Adds a message from a peer to its list of received messages.
    ///
    /// Should be called only from the messaging backend. Appends to the
    /// peer's inbound queue only while the server is running and the peer is
    /// registered; otherwise the call is a no-op and the whole state is left
    /// unchanged.
    pub fn insert_received(&mut self, peer_id: ClientId, channel_id: u8, message: Bytes)
        requires
            old(self).wf(),
            old(self)@.running && old(self).has_peer(peer_id)
                ==> (channel_id as int) < old(self)@.channel_count,
        ensures
            final(self).wf(),
            !(old(self)@.running && old(self).has_peer(peer_id)) ==> *final(self) == *old(self),
            old(self)@.running && old(self).has_peer(peer_id) ==> ({
                let oi = old(self).peer_index(peer_id);
                &&& final(self)@.running == old(self)@.running
                &&& final(self)@.channel_count == old(self)@.channel_count
                &&& final(self)@.outbound == old(self)@.outbound
                &&& final(self)@.peers.len() == old(self)@.peers.len()
                &&& (forall|i: int|
                    0 <= i < old(self)@.peers.len() && i != oi
                        ==> final(self)@.peers[i] == old(self)@.peers[i])
                &&& final(self)@.peers[oi].id == peer_id
                &&& final(self)@.peers[oi].inbound.len() == old(self)@.peers[oi].inbound.len()
                &&& (forall|ch: int|
                    0 <= ch < old(self)@.peers[oi].inbound.len() && ch != channel_id as int
                        ==> final(self)@.peers[oi].inbound[ch]
                            == old(self)@.peers[oi].inbound[ch])
                &&& final(self)@.peers[oi].inbound[channel_id as int]
                    == old(self)@.peers[oi].inbound[channel_id as int].push(message)
            }),
    {
        if !self.running {
            return;
        }
        let pos = self.peer_position(peer_id);
        let i: usize = match pos {
            None => {
                return;
            },
            Some(i) => i,
        };
        proof {
            lemma_peers_view(*old(self));
            lemma_peer_view(old(self).peers@[i as int]);
        }
        let peer = &mut self.peers[i];
        let queue = &mut peer.received_messages[channel_id as usize];
        queue.push(message);
        proof {
            lemma_peers_view(*self);
            assert forall|p: int| 0 <= p < self@.peers.len() implies
                #[trigger] self@.peers[p].id == old(self)@.peers[p].id
                    && self@.peers[p].inbound.len() == old(self)@.peers[p].inbound.len() by {
                if p != i as int {
                    assert(self@.peers[p] == old(self)@.peers[p]);
                } else {
                    lemma_peer_view(old(self).peers@[p]);
                    lemma_peer_view(self.peers@[p]);
                }
            }
            assert(self.peers_distinct());
            assert forall|p: int| 0 <= p < self@.peers.len() implies
                #[trigger] self@.peers[p].inbound.len() == self@.channel_count by {
                if p != i as int {
                    assert(self@.peers[p] == old(self)@.peers[p]);
                } else {
                    lemma_peer_view(old(self).peers@[p]);
                    lemma_peer_view(self.peers@[p]);
                }
                assert(old(self)@.peers[p].inbound.len() == old(self)@.channel_count);
            }
            assert(self.peers_sized());
        }
    }

    /// Removes all sent messages, returning them with their peers and
    /// channels in insertion order.
    ///
    /// Should be called only from the messaging backend, which routes each
    /// entry to the correct wire connection. The outbound buffer is empty
    /// afterwards, so an immediate second call yields nothing.
    pub fn drain_sent(&mut self) -> (result: Vec<(ClientId, u8, Bytes)>)
        requires
            old(self).wf(),
        ensures
            final(self).wf(),
            result@ == old(self)@.outbound,
            final(self)@.running == old(self)@.running,
            final(self)@.channel_count == old(self)@.channel_count,
            final(self)@.peers == old(self)@.peers,
            final(self)@.outbound.len() == 0,
    {
        let mut result: Vec<(ClientId, u8, Bytes)> = Vec::new();
        core::mem::swap(&mut result, &mut self.sent_messages);
        proof {
            assert(self@.peers == old(self)@.peers);
        }
        result
    }
}

impl Default for RepliconServer {
    /// Same as [`RepliconServer::new`]: stopped, no channels, no peers,
    /// empty buffers.
    fn default() -> (result: Self)
        ensures
            result.wf(),
            !result@.running,
            result@.channel_count == 0,
            result@.peers.len() == 0,
            result@.outbound.len() == 0,
    {
        RepliconServer::new()
    }
}

/// The view of the peer table is the peer table's elements, viewed.
proof fn lemma_peers_view(server: RepliconServer)
    ensures
        server@.peers.len() == server.peers@.len(),
        forall|i: int|
            0 <= i < server.peers@.len() ==> #[trigger] server@.peers[i] == server.peers@[i]@,
{
}

/// The view of one peer's channel table is its queues, viewed.
proof fn lemma_peer_view(peer: PeerState)
    ensures
        peer@.id == peer.id,
        peer@.inbound.len() == peer.received_messages@.len(),
        forall|ch: int|
            0 <= ch < peer.received_messages@.len()
                ==> #[trigger] peer@.inbound[ch] == peer.received_messages@[ch]@,
{
}

} // verus!
