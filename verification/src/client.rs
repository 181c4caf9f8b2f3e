use vstd::prelude::*;

use bytes::Bytes;

use crate::ClientId;

verus! {

/// Connection status of a [`RepliconClient`].
#[derive(Clone, Copy, Debug, PartialEq)]
pub enum RepliconClientStatus {
    /// Not connected or trying to connect.
    Disconnected,
    /// Trying to connect to the server.
    Connecting,
    /// Connected to the server.
    ///
    /// Stores the assigned ID if one was assigned by the server.
    Connected { client_id: Option<ClientId> },
}

/// Abstract state of a client transport: the connection status, the inbound
/// queue of every channel (outer index is the channel id), and the outbound
/// buffer in insertion order.
#[verifier::ext_equal]
pub struct ClientView {
    pub status: RepliconClientStatus,
    pub inbound: Seq<Seq<Bytes>>,
    pub outbound: Seq<(u8, Bytes)>,
}

/// Stores information about a client independent from the messaging backend.
///
/// The messaging backend is responsible for updating this state:
/// - When the messaging client changes its status (connected, connecting and
///   disconnected), [`Self::set_status`] should be used to reflect this.
/// - For receiving messages, [`Self::insert_received`] should be used.
/// - For sending messages, [`Self::drain_sent`] should be used to drain all
///   sent messages once per tick.
pub struct RepliconClient {
    /// Client connection status.
    status: RepliconClientStatus,
    /// List of received messages for each channel, top index is channel ID.
    received_messages: Vec<Vec<Bytes>>,
    /// List of sent messages and their channels since the last tick.
    sent_messages: Vec<(u8, Bytes)>,
}

impl View for RepliconClient {
    type V = ClientView;

    closed spec fn view(&self) -> ClientView {
        ClientView {
            status: self.status,
            inbound: self.received_messages@.map_values(|queue: Vec<Bytes>| queue@),
            outbound: self.sent_messages@,
        }
    }
}

impl RepliconClient {
    /// Whether the client is currently connected.
    pub open spec fn connected(&self) -> bool {
        self@.status is Connected
    }

    /// Number of channels the inbound storage was set up with.
    pub open spec fn channel_count(&self) -> nat {
        self@.inbound.len()
    }

    /// Every inbound queue and the outbound buffer are empty.
    pub open spec fn buffers_empty(&self) -> bool {
        &&& self@.outbound.len() == 0
        &&& forall|ch: int| 0 <= ch < self@.inbound.len() ==> self@.inbound[ch].len() == 0
    }

    /// While not connected nothing sits in the queues: sends and inserts are
    /// no-ops in that state, and leaving `Connected` discards everything.
    pub open spec fn wf(&self) -> bool {
        !self.connected() ==> self.buffers_empty()
    }

    /// Creates a disconnected client with no channels and empty buffers.
    pub fn new() -> (result: Self)
        ensures
            result.wf(),
            result@.status is Disconnected,
            result@.inbound.len() == 0,
            result@.outbound.len() == 0,
    {
        RepliconClient {
            status: RepliconClientStatus::Disconnected,
            received_messages: Vec::new(),
            sent_messages: Vec::new(),
        }
    }

    /// Changes the size of the receive messages storage according to the
    /// number of server channels.
    ///
    /// Every queue is recreated empty: calling this again with a different
    /// count is a structural reconfiguration, not an additive resize.
    pub fn setup_server_channels(&mut self, channels_count: usize)
        requires
            old(self).wf(),
        ensures
            final(self).wf(),
            final(self)@.status == old(self)@.status,
            final(self)@.outbound == old(self)@.outbound,
            final(self)@.inbound.len() == channels_count,
            forall|ch: int| 0 <= ch < channels_count ==> final(self)@.inbound[ch].len() == 0,
    {
        self.received_messages = crate::channels::make_queues(channels_count);
    }

    /// Returns the current client status.
    ///
    /// See also [`Self::set_status`].
    pub fn status(&self) -> (result: RepliconClientStatus)
        ensures
            result == self@.status,
    {
        self.status
    }

    /// Returns `true` if the client is disconnected.
    pub fn is_disconnected(&self) -> (result: bool)
        ensures
            result == (self@.status is Disconnected),
    {
        matches!(self.status, RepliconClientStatus::Disconnected)
    }

    /// Returns `true` if the client is connecting.
    pub fn is_connecting(&self) -> (result: bool)
        ensures
            result == (self@.status is Connecting),
    {
        matches!(self.status, RepliconClientStatus::Connecting)
    }

    /// Returns `true` if the client is connected.
    pub fn is_connected(&self) -> (result: bool)
        ensures
            result == self.connected(),
    {
        matches!(self.status, RepliconClientStatus::Connected { .. })
    }

    /// Returns the client's ID.
    ///
    /// The ID is available only if the client is connected and the server
    /// has assigned one.
    pub fn id(&self) -> (result: Option<ClientId>)
        ensures
            result == (match self@.status {
                RepliconClientStatus::Connected { client_id } => client_id,
                _ => None,
            }),
    {
        if let RepliconClientStatus::Connected { client_id } = self.status {
            client_id
        } else {
            None
        }
    }

    /// Sets the client connection status.
    ///
    /// Should be called only from the messaging backend when the client
    /// status changes. Moving from `Connected` to any other status discards
    /// all buffered messages, so nothing queued against a dead session can
    /// leak into the next one; together with the no-op rule while not
    /// connected, every transition to a non-connected status leaves every
    /// buffer empty.
    pub fn set_status(&mut self, status: RepliconClientStatus)
        requires
            old(self).wf(),
        ensures
            final(self).wf(),
            final(self)@.status == status,
            final(self)@.inbound.len() == old(self)@.inbound.len(),
            !(status is Connected) ==> final(self).buffers_empty(),
            status is Connected ==> final(self)@.inbound == old(self)@.inbound
                && final(self)@.outbound == old(self)@.outbound,
    {
        if self.is_connected() && !matches!(status, RepliconClientStatus::Connected { .. }) {
            self.clear_buffers();
        }
        let ghost mid: RepliconClient = *self;
        self.status = status;
        proof {
            assert(self@.inbound == mid@.inbound);
            assert(self@.outbound == mid@.outbound);
        }
    }

    /// Empties every inbound queue in place and clears the outbound buffer.
    fn clear_buffers(&mut self)
        ensures
            final(self)@.status == old(self)@.status,
            final(self)@.inbound.len() == old(self)@.inbound.len(),
            final(self).buffers_empty(),
    {
        crate::channels::clear_queues(&mut self.received_messages);
        self.sent_messages.clear();
    }

    /// Sends a message to the server over a channel.
    ///
    /// Appends to the outbound buffer only while connected; otherwise the
    /// call is a no-op and the whole state is left unchanged. Referencing a
    /// channel outside the configured range while connected is a
    /// configuration error, ruled out by the precondition.
    pub fn send(&mut self, channel_id: u8, message: Bytes)
        requires
            old(self).wf(),
            old(self).connected() ==> (channel_id as int) < old(self).channel_count(),
        ensures
            final(self).wf(),
            !old(self).connected() ==> *final(self) == *old(self),
            old(self).connected() ==> final(self)@.status == old(self)@.status
                && final(self)@.inbound == old(self)@.inbound
                && final(self)@.outbound == old(self)@.outbound.push((channel_id, message)),
    {
        if !self.is_connected() {
            return;
        }
        self.sent_messages.push((channel_id, message));
    }

    /// Pops the next available message from the server over a channel.
    ///
    /// The most recently inserted message of that channel comes back first;
    /// while not connected the call returns `None` and changes nothing.
    pub fn receive(&mut self, channel_id: u8) -> (result: Option<Bytes>)
        requires
            old(self).wf(),
            old(self).connected() ==> (channel_id as int) < old(self).channel_count(),
        ensures
            final(self).wf(),
            !old(self).connected() ==> *final(self) == *old(self) && result is None,
            old(self).connected() ==> final(self)@.status == old(self)@.status
                && final(self)@.outbound == old(self)@.outbound
                && final(self)@.inbound.len() == old(self)@.inbound.len()
                && (forall|ch: int|
                    0 <= ch < old(self)@.inbound.len() && ch != channel_id as int
                        ==> final(self)@.inbound[ch] == old(self)@.inbound[ch])
                && (old(self)@.inbound[channel_id as int].len() == 0 ==> result is None
                    && final(self)@.inbound[channel_id as int]
                        == old(self)@.inbound[channel_id as int])
                && (old(self)@.inbound[channel_id as int].len() > 0
                    ==> result == Some(old(self)@.inbound[channel_id as int].last())
                    && final(self)@.inbound[channel_id as int]
                        == old(self)@.inbound[channel_id as int].drop_last()),
    {
        if !self.is_connected() {
            return None;
        }
        let queue = &mut self.received_messages[channel_id as usize];
        queue.pop()
    }

    /// Adds a message from the server to the list of received messages.
    ///
    /// Should be called only from the messaging backend. Appends to the
    /// channel's inbound queue only while connected; otherwise the call is
    /// a no-op and the whole state is left unchanged.
    pub fn insert_received(&mut self, channel_id: u8, message: Bytes)
        requires
            old(self).wf(),
            old(self).connected() ==> (channel_id as int) < old(self).channel_count(),
        ensures
            final(self).wf(),
            !old(self).connected() ==> *final(self) == *old(self),
            old(self).connected() ==> final(self)@.status == old(self)@.status
                && final(self)@.outbound == old(self)@.outbound
                && final(self)@.inbound.len() == old(self)@.inbound.len()
                && (forall|ch: int|
                    0 <= ch < old(self)@.inbound.len() && ch != channel_id as int
                        ==> final(self)@.inbound[ch] == old(self)@.inbound[ch])
                && final(self)@.inbound[channel_id as int]
                    == old(self)@.inbound[channel_id as int].push(message),
    {
        if !self.is_connected() {
            return;
        }
        let queue = &mut self.received_messages[channel_id as usize];
        queue.push(message);
    }

    /// Removes all sent messages, returning them with their channels in
    /// insertion order.
    ///
    /// Should be called only from the messaging backend. The outbound buffer
    /// is empty afterwards, so an immediate second call yields nothing.
    pub fn drain_sent(&mut self) -> (result: Vec<(u8, Bytes)>)
        requires
            old(self).wf(),
        ensures
            final(self).wf(),
            result@ == old(self)@.outbound,
            final(self)@.status == old(self)@.status,
            final(self)@.inbound == old(self)@.inbound,
            final(self)@.outbound.len() == 0,
    {
        let mut result: Vec<(u8, Bytes)> = Vec::new();
        core::mem::swap(&mut result, &mut self.sent_messages);
        proof {
            assert(self@.inbound == old(self)@.inbound);
        }
        result
    }
}

impl Default for RepliconClientStatus {
    /// The initial status: not connected.
    fn default() -> (result: Self)
        ensures
            result is Disconnected,
    {
        RepliconClientStatus::Disconnected
    }
}

impl Default for RepliconClient {
    /// Same as [`RepliconClient::new`]: disconnected, no channels, empty
    /// buffers.
    fn default() -> (result: Self)
        ensures
            result.wf(),
            result@.status is Disconnected,
            result@.inbound.len() == 0,
            result@.outbound.len() == 0,
    {
        RepliconClient::new()
    }
}

/// FIFO-append / LIFO-pop: appending two payloads to a channel's queue and
/// then popping twice yields the most recent payload first, then the earlier
/// one, leaving the queue as it started. Stated over the queue model that
/// [`RepliconClient::insert_received`] appends to and
/// [`RepliconClient::receive`] pops from.
pub proof fn lemma_lifo_pop(queue: Seq<Bytes>, first: Bytes, second: Bytes)
    ensures
        queue.push(first).push(second).last() == second,
        queue.push(first).push(second).drop_last() == queue.push(first),
        queue.push(first).last() == first,
        queue.push(first).drop_last() == queue,
{
    assert(queue.push(first).push(second).drop_last() =~= queue.push(first));
    assert(queue.push(first).drop_last() =~= queue);
}

} // verus!
