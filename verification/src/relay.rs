//! The relay: admission of clients and blind fan-out of their frames.
//!
//! The relay keeps one record per admitted client, each with a bounded
//! queue of frames waiting to be written to that client. A frame read from
//! one client is appended to the queue of every other client that has room;
//! the sender is never blocked and never hears its own frame. The relay
//! looks at nothing but the length of a frame.

use vstd::prelude::*;
use crate::network::{check_frame_length, frame_length, framed, prefixed, NetworkError};
use crate::primitives::{os_random, uuid_v4_from_random, uuid_v4_value};

verus! {

/// Frames a client's outbound queue holds at most.
pub const QUEUE_CAPACITY: usize = 64;

// ---------------------------------------------------------------------------
// The relay as mathematics
// ---------------------------------------------------------------------------

/// The abstract content of a client record.
pub ghost struct ClientView {
    /// The identifier minted at admission.
    pub client_id: u128,
    /// The client's address in text form.
    pub peer_addr: Seq<char>,
    /// Frames waiting to be written to the client, oldest first. An empty
    /// frame is the signal to stop.
    pub outbound: Seq<Seq<u8>>,
    /// Whether the client's writer still drains the queue.
    pub open: bool,
}

/// The abstract state of a relay.
pub ghost struct RelayView {
    /// The registered clients in order of admission.
    pub clients: Seq<ClientView>,
    /// Clients the relay holds at most.
    pub max_clients: usize,
    /// The longest frame the relay reads.
    pub max_message_size: usize,
}

/// Whether a client with this identifier is registered.
pub open spec fn is_registered(clients: Seq<ClientView>, id: u128) -> bool {
    exists|i: int| 0 <= i < clients.len() && (#[trigger] clients[i]).client_id == id
}

/// Where the client with this identifier stands among the registered ones.
pub open spec fn position(clients: Seq<ClientView>, id: u128) -> int {
    choose|i: int| 0 <= i < clients.len() && (#[trigger] clients[i]).client_id == id
}

/// The validity of a relay state: the number of clients is within the
/// bound, no identifier occurs twice, no queue is over capacity, and every
/// queued frame has a length the prefix can express.
pub open spec fn well_formed(relay: RelayView) -> bool {
    &&& relay.clients.len() <= relay.max_clients
    &&& forall|i: int, j: int|
        0 <= i < j < relay.clients.len() ==> (#[trigger] relay.clients[i]).client_id != (
        #[trigger] relay.clients[j]).client_id
    &&& forall|i: int|
        0 <= i < relay.clients.len() ==> (#[trigger] relay.clients[i]).outbound.len()
            <= QUEUE_CAPACITY
    &&& forall|i: int, k: int|
        0 <= i < relay.clients.len() && 0 <= k < relay.clients[i].outbound.len() ==> (
        #[trigger] relay.clients[i].outbound[k]).len() <= u32::MAX
}

/// The record a client starts with: an empty queue and a running writer.
pub open spec fn fresh_client(id: u128, peer_addr: Seq<char>) -> ClientView {
    ClientView { client_id: id, peer_addr, outbound: Seq::empty(), open: true }
}

/// The relay after a client asked for admission under this identifier. A
/// full relay stays as it is. Otherwise the client is appended; should the
/// identifier be in use, its record is replaced.
pub open spec fn after_register(relay: RelayView, id: u128, peer_addr: Seq<char>) -> RelayView {
    if relay.clients.len() >= relay.max_clients {
        relay
    } else if is_registered(relay.clients, id) {
        RelayView {
            clients: relay.clients.update(position(relay.clients, id), fresh_client(id, peer_addr)),
            ..relay
        }
    } else {
        RelayView { clients: relay.clients.push(fresh_client(id, peer_addr)), ..relay }
    }
}

/// The relay after a client's teardown.
pub open spec fn after_remove(relay: RelayView, id: u128) -> RelayView {
    if is_registered(relay.clients, id) {
        RelayView { clients: relay.clients.remove(position(relay.clients, id)), ..relay }
    } else {
        relay
    }
}

/// Whether the relay forwards a frame of this length: it is not empty and
/// within the limit the reader enforces.
pub open spec fn forwardable(len: nat, max_message_size: usize) -> bool {
    0 < len <= max_message_size && len <= u32::MAX
}

/// What a broadcast does to one client's record: the frame joins the queue
/// unless the client is the sender, its writer has stopped, or the queue is
/// full.
pub open spec fn deliver(client: ClientView, sender_id: u128, frame: Seq<u8>) -> ClientView {
    if client.client_id != sender_id && client.open && client.outbound.len() < QUEUE_CAPACITY {
        ClientView { outbound: client.outbound.push(frame), ..client }
    } else {
        client
    }
}

/// The relay after fanning out a frame read from `sender_id`.
pub open spec fn after_broadcast(relay: RelayView, sender_id: u128, frame: Seq<u8>) -> RelayView {
    if forwardable(frame.len(), relay.max_message_size) {
        RelayView {
            clients: relay.clients.map_values(|c: ClientView| deliver(c, sender_id, frame)),
            ..relay
        }
    } else {
        relay
    }
}

/// The clients other than the sender whose writer has stopped, in order of
/// admission.
pub open spec fn closed_targets(clients: Seq<ClientView>, sender_id: u128) -> Seq<u128>
    decreases clients.len(),
{
    if clients.len() == 0 {
        Seq::empty()
    } else {
        let rest = closed_targets(clients.drop_last(), sender_id);
        if clients.last().client_id != sender_id && !clients.last().open {
            rest.push(clients.last().client_id)
        } else {
            rest
        }
    }
}

/// What a writer finds when it turns to its queue.
pub ghost enum Drained {
    /// A frame to write, given with its length prefix.
    Write(Seq<u8>),
    /// Nothing is waiting.
    Idle,
    /// The writer is to stop.
    Closed,
}

/// What a client's writer finds, and the client's record afterwards. A
/// stopped writer finds nothing. The oldest frame leaves the queue; an empty
/// frame stops the writer.
pub open spec fn drain(client: ClientView) -> (ClientView, Drained) {
    if !client.open {
        (client, Drained::Closed)
    } else if client.outbound.len() == 0 {
        (client, Drained::Idle)
    } else if client.outbound[0].len() == 0 {
        (ClientView { outbound: client.outbound.drop_first(), open: false, ..client }, Drained::Closed)
    } else {
        (
            ClientView { outbound: client.outbound.drop_first(), ..client },
            Drained::Write(framed(client.outbound[0])),
        )
    }
}

/// The relay after the writer of `id` turned to its queue.
pub open spec fn after_drain(relay: RelayView, id: u128) -> RelayView {
    if is_registered(relay.clients, id) {
        let i = position(relay.clients, id);
        RelayView { clients: relay.clients.update(i, drain(relay.clients[i]).0), ..relay }
    } else {
        relay
    }
}

/// What the writer of `id` finds; an unregistered client's writer is to
/// stop.
pub open spec fn drained(relay: RelayView, id: u128) -> Drained {
    if is_registered(relay.clients, id) {
        drain(relay.clients[position(relay.clients, id)]).1
    } else {
        Drained::Closed
    }
}

/// What the writer's exit does to a client's record.
pub open spec fn close(client: ClientView) -> ClientView {
    ClientView { open: false, ..client }
}

/// The relay after the writer of `id` has exited.
pub open spec fn after_close(relay: RelayView, id: u128) -> RelayView {
    if is_registered(relay.clients, id) {
        let i = position(relay.clients, id);
        RelayView { clients: relay.clients.update(i, close(relay.clients[i])), ..relay }
    } else {
        relay
    }
}

/// What shutdown does to one client's record: the stop signal joins the
/// queue of a running writer, in place of the newest frame where the queue
/// is full.
pub open spec fn signal(client: ClientView) -> ClientView {
    if !client.open {
        client
    } else if client.outbound.len() < QUEUE_CAPACITY {
        ClientView { outbound: client.outbound.push(Seq::empty()), ..client }
    } else {
        ClientView {
            outbound: client.outbound.update(client.outbound.len() - 1, Seq::empty()),
            ..client
        }
    }
}

/// The relay after shutdown was signalled.
pub open spec fn after_shutdown(relay: RelayView) -> RelayView {
    RelayView { clients: relay.clients.map_values(|c: ClientView| signal(c)), ..relay }
}

// ---------------------------------------------------------------------------
// What holds of every relay
// ---------------------------------------------------------------------------

/// The admission bound is never exceeded: whatever a valid relay does next,
/// it stays valid, and so holds no more than `max_clients` records.
pub proof fn lemma_steps_keep_well_formed(
    relay: RelayView,
    id: u128,
    peer_addr: Seq<char>,
    frame: Seq<u8>,
)
    requires
        well_formed(relay),
    ensures
        well_formed(after_register(relay, id, peer_addr)),
        well_formed(after_remove(relay, id)),
        well_formed(after_broadcast(relay, id, frame)),
        well_formed(after_drain(relay, id)),
        well_formed(after_close(relay, id)),
        well_formed(after_shutdown(relay)),
        after_register(relay, id, peer_addr).clients.len() <= relay.max_clients,
{
    lemma_register_keeps_well_formed(relay, id, peer_addr);
    lemma_remove_keeps_well_formed(relay, id);
}

proof fn lemma_register_keeps_well_formed(relay: RelayView, id: u128, peer_addr: Seq<char>)
    requires
        well_formed(relay),
    ensures
        well_formed(after_register(relay, id, peer_addr)),
{
    let after = after_register(relay, id, peer_addr);
    if relay.clients.len() < relay.max_clients && !is_registered(relay.clients, id) {
        assert forall|i: int, j: int| 0 <= i < j < after.clients.len() implies (
        #[trigger] after.clients[i]).client_id != (#[trigger] after.clients[j]).client_id by {
            if j == relay.clients.len() {
                assert(relay.clients[i].client_id != id);
            }
        }
    }
}

proof fn lemma_remove_keeps_well_formed(relay: RelayView, id: u128)
    requires
        well_formed(relay),
    ensures
        well_formed(after_remove(relay, id)),
{
    let after = after_remove(relay, id);
    if is_registered(relay.clients, id) {
        let p = position(relay.clients, id);
        assert forall|i: int| 0 <= i < after.clients.len() implies #[trigger] after.clients[i] == (
        if i < p {
            relay.clients[i]
        } else {
            relay.clients[i + 1]
        }) by {}
        assert forall|i: int, j: int| 0 <= i < j < after.clients.len() implies (
        #[trigger] after.clients[i]).client_id != (#[trigger] after.clients[j]).client_id by {
            let a = if i < p { i } else { i + 1 };
            let b = if j < p { j } else { j + 1 };
            assert(relay.clients[a].client_id != relay.clients[b].client_id);
        }
    }
}

/// In a valid relay an identifier names one record only.
pub proof fn lemma_position_is_unique(relay: RelayView, i: int)
    requires
        well_formed(relay),
        0 <= i < relay.clients.len(),
    ensures
        is_registered(relay.clients, relay.clients[i].client_id),
        position(relay.clients, relay.clients[i].client_id) == i,
{
    let id = relay.clients[i].client_id;
    let p = position(relay.clients, id);
    assert(relay.clients[p].client_id == relay.clients[i].client_id);
}

/// Sender exclusion: a broadcast never touches the record of the client the
/// frame came from, so no client is handed its own frame.
pub proof fn lemma_sender_exclusion(relay: RelayView, sender_id: u128, frame: Seq<u8>, i: int)
    requires
        0 <= i < relay.clients.len(),
        relay.clients[i].client_id == sender_id,
    ensures
        after_broadcast(relay, sender_id, frame).clients[i] == relay.clients[i],
{
}

/// Relay transparency: when a client sends a frame, every other client whose
/// writer runs and whose queue is empty is handed, next, that very frame
/// behind its length prefix; reading the prefix yields the frame's length,
/// and the bytes that follow are the frame, byte for byte.
pub proof fn lemma_relay_transparency(
    relay: RelayView,
    sender_id: u128,
    receiver: int,
    frame: Seq<u8>,
)
    requires
        well_formed(relay),
        0 <= receiver < relay.clients.len(),
        relay.clients[receiver].client_id != sender_id,
        relay.clients[receiver].open,
        relay.clients[receiver].outbound.len() == 0,
        forwardable(frame.len(), relay.max_message_size),
    ensures
        drained(
            after_broadcast(relay, sender_id, frame),
            relay.clients[receiver].client_id,
        ) == Drained::Write(framed(frame)),
        frame_length(framed(frame).subrange(0, 4), relay.max_message_size) == Ok::<
            usize,
            NetworkError,
        >(frame.len() as usize),
        framed(frame).subrange(4, framed(frame).len() as int) == frame,
{
    let after = after_broadcast(relay, sender_id, frame);
    assert(well_formed(after));
    assert(after.clients[receiver].client_id == relay.clients[receiver].client_id);
    lemma_position_is_unique(after, receiver);
    assert(after.clients[receiver].outbound =~= seq![frame]);
    crate::network::lemma_frame_length_of_framed(frame, relay.max_message_size);
}

/// Per-pair order: a frame that is taken joins the end of the queue, behind
/// everything the client is still owed, and the writer is handed the oldest
/// frame first.
pub proof fn lemma_frames_keep_their_order(client: ClientView, sender_id: u128, frame: Seq<u8>)
    requires
        client.client_id != sender_id,
        client.open,
        0 < client.outbound.len() < QUEUE_CAPACITY,
        client.outbound[0].len() > 0,
    ensures
        deliver(client, sender_id, frame).outbound == client.outbound.push(frame),
        drain(deliver(client, sender_id, frame)).1 == Drained::Write(framed(client.outbound[0])),
        drain(deliver(client, sender_id, frame)).0.outbound == client.outbound.drop_first().push(
            frame,
        ),
{
    let taken = deliver(client, sender_id, frame);
    assert(taken.outbound.drop_first() =~= client.outbound.drop_first().push(frame));
}

/// A fan-out and a writer's turn act on one record at a time: what they do
/// to a client is what `deliver` and `drain` do to its record, and a
/// writer's turn leaves every other record as it was.
pub proof fn lemma_steps_act_on_one_record(
    relay: RelayView,
    sender_id: u128,
    frame: Seq<u8>,
    i: int,
    j: int,
)
    requires
        well_formed(relay),
        0 <= i < relay.clients.len(),
        0 <= j < relay.clients.len(),
        i != j,
        forwardable(frame.len(), relay.max_message_size),
    ensures
        after_broadcast(relay, sender_id, frame).clients[i] == deliver(
            relay.clients[i],
            sender_id,
            frame,
        ),
        after_drain(relay, relay.clients[i].client_id).clients[i] == drain(relay.clients[i]).0,
        drained(relay, relay.clients[i].client_id) == drain(relay.clients[i]).1,
        after_drain(relay, relay.clients[i].client_id).clients[j] == relay.clients[j],
{
    lemma_position_is_unique(relay, i);
}

/// One thing that happens to a client's queue.
pub ghost enum QueueStep {
    /// A frame from another client is fanned out.
    Frame(Seq<u8>),
    /// The client's writer turns to the queue.
    WriterTurn,
}

/// A client's record after a run of steps, together with the frames its
/// writer was handed on the way, oldest first.
pub open spec fn replay(client: ClientView, sender_id: u128, steps: Seq<QueueStep>) -> (
    ClientView,
    Seq<Seq<u8>>,
)
    decreases steps.len(),
{
    if steps.len() == 0 {
        (client, Seq::empty())
    } else {
        let (before, handed) = replay(client, sender_id, steps.drop_last());
        match steps.last() {
            QueueStep::Frame(frame) => (deliver(before, sender_id, frame), handed),
            QueueStep::WriterTurn => (
                drain(before).0,
                if drain(before).1 is Write {
                    handed.push(before.outbound[0])
                } else {
                    handed
                },
            ),
        }
    }
}

/// The frames fanned out in a run of steps, in order.
pub open spec fn frames_of(steps: Seq<QueueStep>) -> Seq<Seq<u8>>
    decreases steps.len(),
{
    if steps.len() == 0 {
        Seq::empty()
    } else {
        match steps.last() {
            QueueStep::Frame(frame) => frames_of(steps.drop_last()).push(frame),
            QueueStep::WriterTurn => frames_of(steps.drop_last()),
        }
    }
}

/// Whether the client's queue has room whenever a frame of the run arrives.
pub open spec fn has_room_throughout(client: ClientView, sender_id: u128, steps: Seq<QueueStep>) -> bool {
    forall|k: int|
        0 <= k < steps.len() && steps[k] is Frame ==> (#[trigger] replay(
            client,
            sender_id,
            steps.take(k),
        )).0.outbound.len() < QUEUE_CAPACITY
}

/// Whether every frame of the run has content.
pub open spec fn frames_have_content(steps: Seq<QueueStep>) -> bool {
    forall|k: int| 0 <= k < steps.len() ==> (#[trigger] steps[k] matches QueueStep::Frame(frame)
        ==> frame.len() > 0)
}

/// Per-pair order without loss: however the frames of one sender and the
/// turns of a receiver's writer interleave, as long as the receiver's queue
/// has room whenever a frame arrives, the frames handed to the writer
/// followed by those still queued are exactly the frames sent, each once and
/// in the order sent. A fan-out and a writer's turn act on the receiver's
/// record alone, so this holds whatever state the other clients are in.
pub proof fn lemma_no_frame_lost_or_reordered(
    client: ClientView,
    sender_id: u128,
    steps: Seq<QueueStep>,
)
    requires
        client.client_id != sender_id,
        client.open,
        client.outbound.len() == 0,
        frames_have_content(steps),
        has_room_throughout(client, sender_id, steps),
    ensures
        replay(client, sender_id, steps).0.open,
        replay(client, sender_id, steps).0.client_id == client.client_id,
        replay(client, sender_id, steps).1 + replay(client, sender_id, steps).0.outbound
            == frames_of(steps),
        forall|i: int|
            0 <= i < replay(client, sender_id, steps).0.outbound.len() ==> (#[trigger] replay(
                client,
                sender_id,
                steps,
            ).0.outbound[i]).len() > 0,
        replay(client, sender_id, steps).0.outbound.len() == 0 ==> replay(
            client,
            sender_id,
            steps,
        ).1 == frames_of(steps),
    decreases steps.len(),
{
    if steps.len() == 0 {
        assert(Seq::<Seq<u8>>::empty() + client.outbound =~= Seq::<Seq<u8>>::empty());
    } else {
        let earlier = steps.drop_last();
        assert forall|k: int| 0 <= k < earlier.len() && earlier[k] is Frame implies (
        #[trigger] replay(client, sender_id, earlier.take(k))).0.outbound.len()
            < QUEUE_CAPACITY by {
            assert(earlier.take(k) =~= steps.take(k));
            assert(steps[k] is Frame);
        }
        assert forall|k: int| 0 <= k < earlier.len() implies (#[trigger] earlier[k] matches QueueStep::Frame(
            frame,
        ) ==> frame.len() > 0) by {
            assert(earlier[k] == steps[k]);
        }
        lemma_no_frame_lost_or_reordered(client, sender_id, earlier);
        let (before, handed) = replay(client, sender_id, earlier);
        let (after, handed_after) = replay(client, sender_id, steps);
        match steps.last() {
            QueueStep::Frame(frame) => {
                assert(steps.take(steps.len() - 1) =~= earlier);
                assert(steps[steps.len() - 1] is Frame);
                assert(before.outbound.len() < QUEUE_CAPACITY);
                assert(after.outbound == before.outbound.push(frame));
                assert(handed + before.outbound.push(frame) =~= (handed + before.outbound).push(
                    frame,
                ));
            },
            QueueStep::WriterTurn => {
                if before.outbound.len() > 0 {
                    assert(before.outbound[0].len() > 0);
                    assert(handed.push(before.outbound[0]) + before.outbound.drop_first() =~= handed
                        + before.outbound);
                }
            },
        }
        if after.outbound.len() == 0 {
            assert(handed_after + after.outbound =~= handed_after);
        }
    }
}

/// Back-pressure isolation: what a broadcast does to one client depends on
/// that client's record alone. A receiver with room is handed the frame
/// whatever state any other receiver is in, and a receiver whose queue is
/// full merely misses the frame.
pub proof fn lemma_backpressure_isolation(
    relay: RelayView,
    sender_id: u128,
    frame: Seq<u8>,
    stalled: int,
    receiver: int,
)
    requires
        0 <= stalled < relay.clients.len(),
        0 <= receiver < relay.clients.len(),
        relay.clients[stalled].outbound.len() >= QUEUE_CAPACITY,
        relay.clients[receiver].client_id != sender_id,
        relay.clients[receiver].open,
        relay.clients[receiver].outbound.len() < QUEUE_CAPACITY,
        forwardable(frame.len(), relay.max_message_size),
    ensures
        after_broadcast(relay, sender_id, frame).clients[receiver].outbound
            == relay.clients[receiver].outbound.push(frame),
        after_broadcast(relay, sender_id, frame).clients[stalled] == relay.clients[stalled],
        after_broadcast(relay, sender_id, frame).clients.len() == relay.clients.len(),
{
}

// ---------------------------------------------------------------------------
// The relay as data
// ---------------------------------------------------------------------------

/// What the relay keeps of one client.
pub struct ClientRecord {
    client_id: u128,
    peer_addr: String,
    outbound: Vec<Vec<u8>>,
    open: bool,
}

/// The frames of a queue.
pub closed spec fn queue_view(queue: Seq<Vec<u8>>) -> Seq<Seq<u8>> {
    queue.map_values(|frame: Vec<u8>| frame@)
}

impl View for ClientRecord {
    type V = ClientView;

    closed spec fn view(&self) -> ClientView {
        ClientView {
            client_id: self.client_id,
            peer_addr: self.peer_addr@,
            outbound: queue_view(self.outbound@),
            open: self.open,
        }
    }
}

/// The content of a list of records.
pub closed spec fn clients_view(clients: Seq<ClientRecord>) -> Seq<ClientView> {
    clients.map_values(|record: ClientRecord| record@)
}

/// The relay's state: its clients and its limits.
pub struct RelayServer {
    clients: Vec<ClientRecord>,
    max_clients: usize,
    max_message_size: usize,
}

impl View for RelayServer {
    type V = RelayView;

    closed spec fn view(&self) -> RelayView {
        RelayView {
            clients: clients_view(self.clients@),
            max_clients: self.max_clients,
            max_message_size: self.max_message_size,
        }
    }
}

/// The answer to a request for admission.
#[derive(Debug, Clone, Copy, PartialEq, Eq, Structural)]
pub enum Admission {
    /// The client is registered under this identifier.
    Accepted(u128),
    /// The relay is full; the connection is to be closed at once.
    Full,
    /// No identifier could be minted; the connection is to be closed.
    NoIdentifier,
}

/// What a writer is to do next.
#[derive(Debug, Clone, PartialEq, Eq)]
pub enum Outbound {
    /// Write these bytes: a frame behind its length prefix.
    Write(Vec<u8>),
    /// Nothing is waiting; wait for the next frame.
    Idle,
    /// Stop writing and close the stream.
    Closed,
}

impl View for Outbound {
    type V = Drained;

    open spec fn view(&self) -> Drained {
        match self {
            Outbound::Write(wire) => Drained::Write(wire@),
            Outbound::Idle => Drained::Idle,
            Outbound::Closed => Drained::Closed,
        }
    }
}

/// Copies a frame.
fn copy_bytes(source: &[u8]) -> (copy: Vec<u8>)
    ensures
        copy@ == source@,
{
    let mut copy: Vec<u8> = Vec::new();
    let mut i: usize = 0;
    while i < source.len()
        invariant
            i <= source@.len(),
            copy@ == source@.subrange(0, i as int),
        decreases source@.len() - i,
    {
        copy.push(source[i]);
        assert(source@.subrange(0, i + 1) =~= source@.subrange(0, i as int).push(source@[i as int]));
        i += 1;
    }
    assert(source@.subrange(0, i as int) =~= source@);
    copy
}

/// Looks a client up by its identifier.
fn find(clients: &Vec<ClientRecord>, id: u128) -> (found: Option<usize>)
    ensures
        found matches Some(i) ==> i < clients@.len() && clients@[i as int]@.client_id == id,
        found is None ==> !is_registered(clients_view(clients@), id),
{
    let mut i: usize = 0;
    while i < clients.len()
        invariant
            i <= clients@.len(),
            forall|k: int| 0 <= k < i ==> (#[trigger] clients@[k])@.client_id != id,
        decreases clients@.len() - i,
    {
        if clients[i].client_id == id {
            return Some(i);
        }
        i += 1;
    }
    assert forall|k: int| 0 <= k < clients_view(clients@).len() implies (#[trigger] clients_view(
        clients@,
    )[k]).client_id != id by {
        assert(clients@[k]@.client_id != id);
    }
    None
}

impl ClientRecord {
    /// The identifier minted at admission.
    pub fn client_id(&self) -> (id: u128)
        ensures
            id == self@.client_id,
    {
        self.client_id
    }

    /// The client's address.
    pub fn peer_addr(&self) -> (addr: &str)
        ensures
            addr@ == self@.peer_addr,
    {
        self.peer_addr.as_str()
    }

    /// The number of frames waiting to be written.
    pub fn pending(&self) -> (count: usize)
        ensures
            count == self@.outbound.len(),
    {
        self.outbound.len()
    }

    /// Whether the client's writer still drains the queue.
    pub fn is_open(&self) -> (open: bool)
        ensures
            open == self@.open,
    {
        self.open
    }
}

impl RelayServer {
    #[verifier::type_invariant]
    spec fn valid(self) -> bool {
        well_formed(self@)
    }

    /// A relay without clients.
    pub fn new(max_clients: usize, max_message_size: usize) -> (relay: Self)
        ensures
            relay@ == (RelayView { clients: Seq::empty(), max_clients, max_message_size }),
            well_formed(relay@),
    {
        let relay = RelayServer { clients: Vec::new(), max_clients, max_message_size };
        assert(relay@.clients =~= Seq::empty());
        relay
    }

    /// The number of registered clients, never above `max_clients`.
    pub fn client_count(&self) -> (count: usize)
        ensures
            count == self@.clients.len(),
            count <= self@.max_clients,
            well_formed(self@),
    {
        proof {
            use_type_invariant(self);
        }
        self.clients.len()
    }

    /// Clients the relay holds at most.
    pub fn max_clients(&self) -> (max: usize)
        ensures
            max == self@.max_clients,
    {
        self.max_clients
    }

    /// The longest frame the relay reads.
    pub fn max_message_size(&self) -> (max: usize)
        ensures
            max == self@.max_message_size,
    {
        self.max_message_size
    }

    /// The record of a client, if it is registered.
    pub fn client(&self, client_id: u128) -> (record: Option<&ClientRecord>)
        ensures
            record is Some <==> is_registered(self@.clients, client_id),
            record matches Some(r) ==> r@ == self@.clients[position(self@.clients, client_id)],
    {
        proof {
            use_type_invariant(self);
        }
        match find(&self.clients, client_id) {
            Some(i) => {
                proof {
                    assert(self@.clients[i as int] == self.clients@[i as int]@);
                    lemma_position_is_unique(self@, i as int);
                }
                Some(&self.clients[i])
            },
            None => None,
        }
    }

    /// Decides what to do after reading a length prefix from a client: how
    /// many payload bytes to read, or why the client is torn down.
    pub fn accept_length(&self, prefix: &[u8; 4]) -> (len: Result<usize, NetworkError>)
        ensures
            len == frame_length(prefix@, self@.max_message_size),
    {
        check_frame_length(prefix, self.max_message_size)
    }

    /// Registers a client under a given identifier, unless the relay is
    /// full. Should the identifier be in use, the record is replaced.
    pub fn register(&mut self, client_id: u128, peer_addr: String) -> (registered: bool)
        ensures
            registered == (old(self)@.clients.len() < old(self)@.max_clients),
            final(self)@ == after_register(old(self)@, client_id, peer_addr@),
            well_formed(final(self)@),
    {
        proof {
            use_type_invariant(&*self);
            lemma_register_keeps_well_formed(self@, client_id, peer_addr@);
        }
        if self.clients.len() >= self.max_clients {
            return false;
        }
        let ghost before = self@;
        let record = ClientRecord { client_id, peer_addr, outbound: Vec::new(), open: true };
        assert(record@ == fresh_client(client_id, peer_addr@)) by {
            assert(record@.outbound =~= Seq::empty());
        }
        let mut clients: Vec<ClientRecord> = Vec::new();
        std::mem::swap(&mut self.clients, &mut clients);
        match find(&clients, client_id) {
            Some(i) => {
                proof {
                    assert(before.clients[i as int] == clients@[i as int]@);
                    lemma_position_is_unique(before, i as int);
                }
                clients.set(i, record);
                assert(clients_view(clients@) =~= before.clients.update(i as int, record@));
            },
            None => {
                clients.push(record);
                assert(clients_view(clients@) =~= before.clients.push(record@));
            },
        }
        self.clients = clients;
        true
    }

    /// Answers a client that has just connected, given the random bytes its
    /// identifier is made from. A full relay turns it away; otherwise the
    /// client is registered under the version-4 UUID the bytes determine.
    pub fn accept_client_with(&mut self, random: [u8; 16], peer_addr: String) -> (answer: Admission)
        ensures
            well_formed(final(self)@),
            answer == if old(self)@.clients.len() >= old(self)@.max_clients {
                Admission::Full
            } else {
                Admission::Accepted(uuid_v4_value(random@))
            },
            final(self)@ == after_register(old(self)@, uuid_v4_value(random@), peer_addr@),
    {
        proof {
            use_type_invariant(&*self);
        }
        if self.clients.len() >= self.max_clients {
            return Admission::Full;
        }
        let id = uuid_v4_from_random(random);
        self.register(id, peer_addr);
        Admission::Accepted(id)
    }

    /// Answers a client that has just connected. A full relay, and only a
    /// full relay, turns it away as `Full`. Otherwise a random identifier is
    /// minted and the client registered under it; `NoIdentifier` is the
    /// answer where the operating system delivers no randomness.
    pub fn accept_client(&mut self, peer_addr: String) -> (answer: Admission)
        ensures
            well_formed(final(self)@),
            answer is Full <==> old(self)@.clients.len() >= old(self)@.max_clients,
            answer matches Admission::Accepted(id) ==> final(self)@ == after_register(
                old(self)@,
                id,
                peer_addr@,
            ) && exists|random: Seq<u8>| random.len() == 16 && id == #[trigger] uuid_v4_value(random),
            !(answer is Accepted) ==> final(self)@ == old(self)@,
    {
        proof {
            use_type_invariant(&*self);
        }
        if self.clients.len() >= self.max_clients {
            return Admission::Full;
        }
        match os_random::<16>() {
            Ok(random) => self.accept_client_with(random, peer_addr),
            Err(_) => Admission::NoIdentifier,
        }
    }

    /// Tears a client down: its record leaves the relay.
    pub fn remove(&mut self, client_id: u128) -> (removed: bool)
        ensures
            removed == is_registered(old(self)@.clients, client_id),
            final(self)@ == after_remove(old(self)@, client_id),
            well_formed(final(self)@),
    {
        proof {
            use_type_invariant(&*self);
            lemma_remove_keeps_well_formed(self@, client_id);
        }
        let ghost before = self@;
        match find(&self.clients, client_id) {
            Some(i) => {
                proof {
                    assert(before.clients[i as int] == self.clients@[i as int]@);
                    lemma_position_is_unique(before, i as int);
                }
                let mut clients: Vec<ClientRecord> = Vec::new();
                std::mem::swap(&mut self.clients, &mut clients);
                clients.remove(i);
                assert(clients_view(clients@) =~= before.clients.remove(i as int));
                self.clients = clients;
                true
            },
            None => false,
        }
    }

    /// Fans a frame read from `sender_id` out to every other client. The
    /// frame joins each queue that has room and whose writer runs; a full
    /// queue misses it. Returns the clients whose writer has stopped. A
    /// frame the reader would have refused is forwarded to nobody.
    pub fn broadcast(&mut self, sender_id: u128, frame: &[u8]) -> (failed: Vec<u128>)
        ensures
            final(self)@ == after_broadcast(old(self)@, sender_id, frame@),
            well_formed(final(self)@),
            failed@ == if forwardable(frame@.len(), old(self)@.max_message_size) {
                closed_targets(old(self)@.clients, sender_id)
            } else {
                Seq::empty()
            },
    {
        proof {
            use_type_invariant(&*self);
        }
        let mut failed: Vec<u128> = Vec::new();
        if frame.len() == 0 || frame.len() > self.max_message_size || frame.len() as u64
            > u32::MAX as u64 {
            return failed;
        }
        let ghost before = self@;
        let mut clients: Vec<ClientRecord> = Vec::new();
        std::mem::swap(&mut self.clients, &mut clients);
        let mut i: usize = 0;
        while i < clients.len()
            invariant
                i <= clients@.len(),
                clients@.len() == before.clients.len(),
                forall|k: int|
                    0 <= k < i ==> (#[trigger] clients@[k])@ == deliver(
                        before.clients[k],
                        sender_id,
                        frame@,
                    ),
                forall|k: int| i <= k < clients@.len() ==> (#[trigger] clients@[k])@ == before.clients[k],
                failed@ == closed_targets(before.clients.take(i as int), sender_id),
            decreases clients@.len() - i,
        {
            let ghost record = clients@[i as int]@;
            assert(before.clients.take(i + 1).drop_last() =~= before.clients.take(i as int));
            if clients[i].client_id != sender_id {
                if !clients[i].open {
                    failed.push(clients[i].client_id);
                } else if clients[i].outbound.len() < QUEUE_CAPACITY {
                    let copy = copy_bytes(frame);
                    clients[i].outbound.push(copy);
                    assert(clients@[i as int]@.outbound =~= record.outbound.push(frame@));
                }
            }
            i += 1;
        }
        assert(before.clients.take(i as int) =~= before.clients);
        assert(clients_view(clients@) =~= before.clients.map_values(
            |c: ClientView| deliver(c, sender_id, frame@),
        ));
        self.clients = clients;
        failed
    }

    /// Hands the writer of `client_id` what to do next. The oldest waiting
    /// frame leaves the queue and is returned behind its length prefix; an
    /// empty frame stops the writer, which then counts as exited.
    pub fn next_outbound(&mut self, client_id: u128) -> (next: Outbound)
        ensures
            final(self)@ == after_drain(old(self)@, client_id),
            next@ == drained(old(self)@, client_id),
            well_formed(final(self)@),
    {
        proof {
            use_type_invariant(&*self);
        }
        let ghost before = self@;
        let i = match find(&self.clients, client_id) {
            Some(i) => i,
            None => {
                return Outbound::Closed;
            },
        };
        proof {
            assert(before.clients[i as int] == self.clients@[i as int]@);
            lemma_position_is_unique(before, i as int);
        }
        if !self.clients[i].open {
            assert(self@.clients =~= after_drain(before, client_id).clients);
            return Outbound::Closed;
        }
        if self.clients[i].outbound.len() == 0 {
            assert(self@.clients =~= after_drain(before, client_id).clients);
            return Outbound::Idle;
        }
        let mut clients: Vec<ClientRecord> = Vec::new();
        std::mem::swap(&mut self.clients, &mut clients);
        let ghost record = clients@[i as int]@;
        let head = clients[i].outbound.remove(0);
        assert(head@ == record.outbound[0]);
        assert(clients@[i as int]@.outbound =~= record.outbound.drop_first());
        let next = if head.len() == 0 {
            clients[i].open = false;
            Outbound::Closed
        } else {
            assert(record.outbound[0].len() <= u32::MAX);
            Outbound::Write(prefixed(head.as_slice()))
        };
        assert(clients_view(clients@) =~= before.clients.update(i as int, drain(record).0));
        self.clients = clients;
        next
    }

    /// Takes note that the writer of `client_id` has exited, as after a
    /// failed write. Frames sent to the client from now on report it.
    pub fn close_outbound(&mut self, client_id: u128)
        ensures
            final(self)@ == after_close(old(self)@, client_id),
            well_formed(final(self)@),
    {
        proof {
            use_type_invariant(&*self);
        }
        let ghost before = self@;
        match find(&self.clients, client_id) {
            Some(i) => {
                proof {
                    assert(before.clients[i as int] == self.clients@[i as int]@);
                    lemma_position_is_unique(before, i as int);
                }
                let mut clients: Vec<ClientRecord> = Vec::new();
                std::mem::swap(&mut self.clients, &mut clients);
                clients[i].open = false;
                assert(clients_view(clients@) =~= before.clients.update(
                    i as int,
                    close(before.clients[i as int]),
                ));
                self.clients = clients;
            },
            None => {},
        }
    }

    /// Signals shutdown: the stop signal is queued for every client whose
    /// writer runs, so that each writer exits once it has written what was
    /// queued before.
    pub fn shutdown(&mut self)
        ensures
            final(self)@ == after_shutdown(old(self)@),
            well_formed(final(self)@),
    {
        proof {
            use_type_invariant(&*self);
        }
        let ghost before = self@;
        let mut clients: Vec<ClientRecord> = Vec::new();
        std::mem::swap(&mut self.clients, &mut clients);
        let mut i: usize = 0;
        while i < clients.len()
            invariant
                i <= clients@.len(),
                clients@.len() == before.clients.len(),
                well_formed(before),
                forall|k: int| 0 <= k < i ==> (#[trigger] clients@[k])@ == signal(before.clients[k]),
                forall|k: int| i <= k < clients@.len() ==> (#[trigger] clients@[k])@ == before.clients[k],
            decreases clients@.len() - i,
        {
            let ghost record = clients@[i as int]@;
            if clients[i].open {
                let pending = clients[i].outbound.len();
                if pending < QUEUE_CAPACITY {
                    clients[i].outbound.push(Vec::new());
                    assert(clients@[i as int]@.outbound =~= record.outbound.push(Seq::empty()));
                } else {
                    clients[i].outbound.set(pending - 1, Vec::new());
                    assert(clients@[i as int]@.outbound =~= record.outbound.update(
                        pending - 1,
                        Seq::empty(),
                    ));
                }
            }
            i += 1;
        }
        assert(clients_view(clients@) =~= before.clients.map_values(|c: ClientView| signal(c)));
        self.clients = clients;
    }
}

} // verus!
