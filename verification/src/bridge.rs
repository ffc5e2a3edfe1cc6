//! The object the host holds, and the decision steps of the two background
//! loops that pump it.
//!
//! The host's frame thread calls `enqueue` (and the per-operation wrappers),
//! `get_received_messages`, and the snapshot accessors.  The embedding's
//! sender loop repeatedly asks `sender_step` what to do next and performs the
//! network send it is told to; its receiver loop hands every decoded inbound
//! message to `receiver_step`.  All waiting — for queue capacity, for network
//! completions — happens in those outer loops; nothing here ever blocks, so
//! the frame thread is stalled by nothing but the bounded backpressure the
//! outer loop chooses to apply.
//!
//! Connection lifecycle: a bridge only exists once a handshake has succeeded
//! (the disconnected and connecting phases live in the embedding, inside the
//! connection factory call).  It starts `Connected` and moves to `Closed` when
//! either background loop observes termination — a closed queue, a transport
//! failure, or the server ending the connection.  `Closed` is terminal: no
//! method ever reopens a queue, and a later connect builds a fresh bridge.

use vstd::prelude::*;
use crate::protocol::{
    ClientStatus, Command, DataStorageOperation, DataPackageSnapshot, Event, GdArchipelagoError,
    HandshakeOutcome, NetworkVersion, RoomInfoSnapshot,
};
use crate::queue::{BoundedQueue, PopOutcome, PushOutcome};
use crate::value::{HostValue, ValueConversionError, converts_to, representable, to_wire};

verus! {

/// Default capacity of the command queue and of the event queue.
pub const QUEUE_CAPACITY: usize = 1000;

/// The connection as the host observes it.
#[derive(Clone, Copy, Debug, PartialEq, Eq, Structural)]
pub enum ConnectionStatus {
    Connected,
    Closed,
}

/// What one attempt to hand a command over did.  `MustWait` returns the
/// command so the caller can retry once the sender loop has freed a slot.
#[derive(Debug, PartialEq)]
pub enum EnqueueAttempt {
    Accepted,
    MustWait(Command),
    Rejected(Command),
}

/// What the sender loop is to do next.
#[derive(Debug, PartialEq)]
pub enum SenderStep {
    /// Send this command to the network outbound half, then ask again.
    Forward(Command),
    /// Nothing is pending; wait for the host to enqueue more.
    Idle,
    /// The queue is closed and drained: terminal, stop the loop.
    Exit,
}

/// What the receiver loop is to do after handing over one inbound result.
#[derive(Debug, PartialEq)]
pub enum ReceiverStep {
    /// The event was appended to the event queue.
    Stored,
    /// The event queue is full; wait for the host to drain, then retry.
    MustWait(Event),
    /// The connection is over: terminal, stop the loop.
    Exit,
}

/// The bridge between the host's frame thread and the room connection: the
/// two bounded queues, the immutable connect-time snapshots, and the
/// observable connection status.
///
/// The ghost fields record the four histories the ordering guarantees speak
/// of: every command accepted from the host, every command handed to the
/// sender loop, every event accepted from the receiver loop, every event
/// delivered to the host.
pub struct GodotArchipelagoClient {
    url: String,
    room_info: RoomInfoSnapshot,
    data_package: DataPackageSnapshot,
    commands: BoundedQueue<Command>,
    events: BoundedQueue<Event>,
    status: ConnectionStatus,
    enqueued: Ghost<Seq<Command>>,
    forwarded: Ghost<Seq<Command>>,
    produced: Ghost<Seq<Event>>,
    drained: Ghost<Seq<Event>>,
}

impl GodotArchipelagoClient {
    /// The commands accepted from the host and not yet handed to the sender
    /// loop, oldest first.
    pub closed spec fn pending_commands(&self) -> Seq<Command> {
        self.commands.contents()
    }

    /// The events accepted from the receiver loop and not yet delivered to
    /// the host, oldest first.
    pub closed spec fn pending_events(&self) -> Seq<Event> {
        self.events.contents()
    }

    /// Every command ever accepted from the host, in acceptance order.
    pub closed spec fn enqueued(&self) -> Seq<Command> {
        self.enqueued@
    }

    /// Every command ever handed to the sender loop, in hand-over order.
    pub closed spec fn forwarded(&self) -> Seq<Command> {
        self.forwarded@
    }

    /// Every event ever accepted from the receiver loop, in production order.
    pub closed spec fn produced(&self) -> Seq<Event> {
        self.produced@
    }

    /// Every event ever delivered to the host, in delivery order.
    pub closed spec fn drained(&self) -> Seq<Event> {
        self.drained@
    }

    /// Whether the command queue still accepts commands.
    pub closed spec fn commands_open(&self) -> bool {
        self.commands.is_open()
    }

    /// Whether the event queue still accepts events.
    pub closed spec fn events_open(&self) -> bool {
        self.events.is_open()
    }

    /// Capacity of the command queue.
    pub closed spec fn command_capacity(&self) -> int {
        self.commands.cap()
    }

    /// Capacity of the event queue.
    pub closed spec fn event_capacity(&self) -> int {
        self.events.cap()
    }

    /// The room metadata snapshot captured at connect time.
    pub closed spec fn room_info_spec(&self) -> RoomInfoSnapshot {
        self.room_info
    }

    /// The game-data catalog snapshot captured at connect time.
    pub closed spec fn data_package_spec(&self) -> DataPackageSnapshot {
        self.data_package
    }

    /// The address this bridge was connected to.
    pub closed spec fn url_spec(&self) -> String {
        self.url
    }

    /// The connection status as the host observes it.
    pub closed spec fn status_spec(&self) -> ConnectionStatus {
        self.status
    }

    /// Well-formedness: the queues respect their capacities, and the four
    /// histories tie to the queues — what was accepted is exactly what was
    /// handed on followed by what is still pending, on both sides.
    pub closed spec fn wf(&self) -> bool {
        &&& self.commands.wf()
        &&& self.events.wf()
        &&& self.enqueued@ == self.forwarded@ + self.commands.contents()
        &&& self.produced@ == self.drained@ + self.events.contents()
    }

    /// Whether an `enqueue` can run without waiting: the queue is closed (the
    /// command will be refused) or it has a free slot.  When this is false the
    /// caller holds the backpressure wait; `try_enqueue` reports that case.
    pub open spec fn can_take_command(&self) -> bool {
        ||| !self.commands_open()
        ||| self.pending_commands().len() < self.command_capacity()
    }

    /// The snapshots, the address and the queue capacities never change after
    /// construction.
    pub open spec fn same_identity(pre: Self, post: Self) -> bool {
        &&& post.room_info_spec() == pre.room_info_spec()
        &&& post.data_package_spec() == pre.data_package_spec()
        &&& post.url_spec() == pre.url_spec()
        &&& post.command_capacity() == pre.command_capacity()
        &&& post.event_capacity() == pre.event_capacity()
    }

    /// The event side — queue, histories, openness — is untouched.
    pub open spec fn same_event_side(pre: Self, post: Self) -> bool {
        &&& post.pending_events() == pre.pending_events()
        &&& post.produced() == pre.produced()
        &&& post.drained() == pre.drained()
        &&& post.events_open() == pre.events_open()
    }

    /// The command side — queue, histories, openness — is untouched.
    pub open spec fn same_command_side(pre: Self, post: Self) -> bool {
        &&& post.pending_commands() == pre.pending_commands()
        &&& post.enqueued() == pre.enqueued()
        &&& post.forwarded() == pre.forwarded()
        &&& post.commands_open() == pre.commands_open()
    }

    /// What every enqueue-shaped call leaves untouched: the identity, the
    /// whole event side, the status, the sender history, and the openness of
    /// the command queue.
    pub open spec fn enqueue_frame(pre: Self, post: Self) -> bool {
        &&& Self::same_identity(pre, post)
        &&& Self::same_event_side(pre, post)
        &&& post.status_spec() == pre.status_spec()
        &&& post.commands_open() == pre.commands_open()
        &&& post.forwarded() == pre.forwarded()
    }

    /// Nothing observable changed at all.
    pub open spec fn same_state(pre: Self, post: Self) -> bool {
        &&& Self::same_identity(pre, post)
        &&& Self::same_command_side(pre, post)
        &&& Self::same_event_side(pre, post)
        &&& post.status_spec() == pre.status_spec()
    }

    /// Builds the bridge for an established connection, with both queues
    /// empty and open at the given capacity; for a failed handshake, reports
    /// the classified error and keeps nothing.
    pub fn create_client_with_capacity(
        url: String,
        handshake: HandshakeOutcome,
        capacity: usize,
    ) -> (r: Result<GodotArchipelagoClient, GdArchipelagoError>)
        requires
            1 <= capacity,
        ensures
            match r {
                Ok(b) => {
                    &&& handshake matches HandshakeOutcome::Established { room_info, data_package }
                        && b.room_info_spec() == room_info && b.data_package_spec() == data_package
                    &&& b.wf()
                    &&& b.url_spec() == url
                    &&& b.pending_commands() == Seq::<Command>::empty()
                    &&& b.pending_events() == Seq::<Event>::empty()
                    &&& b.enqueued() == Seq::<Command>::empty()
                    &&& b.forwarded() == Seq::<Command>::empty()
                    &&& b.produced() == Seq::<Event>::empty()
                    &&& b.drained() == Seq::<Event>::empty()
                    &&& b.commands_open()
                    &&& b.events_open()
                    &&& b.command_capacity() == capacity
                    &&& b.event_capacity() == capacity
                    &&& b.status_spec() == ConnectionStatus::Connected
                },
                Err(e) => handshake matches HandshakeOutcome::Failed { error } && e
                    == crate::protocol::gd_error_of(error),
            },
    {
        match handshake {
            HandshakeOutcome::Established { room_info, data_package } => {
                let bridge = GodotArchipelagoClient {
                    url,
                    room_info,
                    data_package,
                    commands: BoundedQueue::new(capacity),
                    events: BoundedQueue::new(capacity),
                    status: ConnectionStatus::Connected,
                    enqueued: Ghost(Seq::empty()),
                    forwarded: Ghost(Seq::empty()),
                    produced: Ghost(Seq::empty()),
                    drained: Ghost(Seq::empty()),
                };
                proof {
                    assert(bridge.enqueued@ =~= bridge.forwarded@ + bridge.commands.contents());
                    assert(bridge.produced@ =~= bridge.drained@ + bridge.events.contents());
                }
                Ok(bridge)
            },
            HandshakeOutcome::Failed { error } => Err(GdArchipelagoError::from_ap_error(error)),
        }
    }

    /// `create_client_with_capacity` at the default queue capacity.
    pub fn create_client(url: String, handshake: HandshakeOutcome) -> (r: Result<
        GodotArchipelagoClient,
        GdArchipelagoError,
    >)
        ensures
            match r {
                Ok(b) => {
                    &&& handshake matches HandshakeOutcome::Established { room_info, data_package }
                        && b.room_info_spec() == room_info && b.data_package_spec() == data_package
                    &&& b.wf()
                    &&& b.url_spec() == url
                    &&& b.pending_commands() == Seq::<Command>::empty()
                    &&& b.pending_events() == Seq::<Event>::empty()
                    &&& b.enqueued() == Seq::<Command>::empty()
                    &&& b.forwarded() == Seq::<Command>::empty()
                    &&& b.produced() == Seq::<Event>::empty()
                    &&& b.drained() == Seq::<Event>::empty()
                    &&& b.commands_open()
                    &&& b.events_open()
                    &&& b.command_capacity() == QUEUE_CAPACITY
                    &&& b.event_capacity() == QUEUE_CAPACITY
                    &&& b.status_spec() == ConnectionStatus::Connected
                },
                Err(e) => handshake matches HandshakeOutcome::Failed { error } && e
                    == crate::protocol::gd_error_of(error),
            },
    {
        Self::create_client_with_capacity(url, handshake, QUEUE_CAPACITY)
    }

    /// Hands one command to the command queue without ever waiting: accepted,
    /// or returned because the queue is full (`MustWait` — the embedding waits
    /// for the sender loop and retries), or refused for good because the
    /// sender side is gone (`Rejected`).
    pub fn try_enqueue(&mut self, command: Command) -> (r: EnqueueAttempt)
        requires
            old(self).wf(),
        ensures
            final(self).wf(),
            Self::same_identity(*old(self), *final(self)),
            Self::same_event_side(*old(self), *final(self)),
            final(self).status_spec() == old(self).status_spec(),
            final(self).commands_open() == old(self).commands_open(),
            final(self).forwarded() == old(self).forwarded(),
            !old(self).commands_open() ==> r == EnqueueAttempt::Rejected(command)
                && Self::same_command_side(*old(self), *final(self)),
            old(self).commands_open() && old(self).pending_commands().len()
                == old(self).command_capacity() ==> r == EnqueueAttempt::MustWait(command)
                && Self::same_command_side(*old(self), *final(self)),
            old(self).commands_open() && old(self).pending_commands().len()
                < old(self).command_capacity() ==> r == EnqueueAttempt::Accepted
                && final(self).pending_commands() == old(self).pending_commands().push(command)
                && final(self).enqueued() == old(self).enqueued().push(command),
    {
        let ghost cmd = command;
        match self.commands.push(command) {
            PushOutcome::Pushed => {
                self.enqueued = Ghost(self.enqueued@.push(cmd));
                proof {
                    assert(self.enqueued@ =~= self.forwarded@ + self.commands.contents());
                }
                EnqueueAttempt::Accepted
            },
            PushOutcome::Full(c) => EnqueueAttempt::MustWait(c),
            PushOutcome::Closed(c) => EnqueueAttempt::Rejected(c),
        }
    }

    /// Hands one command to the command queue.  Returns `true` when the
    /// command was accepted and `false` — dropping the command, immediately,
    /// without waiting — when the sender side has terminated; so every call
    /// after closure returns `false`.  The caller has already waited out any
    /// backpressure (`can_take_command`), so a full open queue cannot occur.
    pub fn enqueue(&mut self, command: Command) -> (r: bool)
        requires
            old(self).wf(),
            old(self).can_take_command(),
        ensures
            final(self).wf(),
            Self::same_identity(*old(self), *final(self)),
            Self::same_event_side(*old(self), *final(self)),
            final(self).status_spec() == old(self).status_spec(),
            final(self).commands_open() == old(self).commands_open(),
            final(self).forwarded() == old(self).forwarded(),
            r == old(self).commands_open(),
            r ==> final(self).pending_commands() == old(self).pending_commands().push(command)
                && final(self).enqueued() == old(self).enqueued().push(command),
            !r ==> Self::same_command_side(*old(self), *final(self)),
    {
        match self.try_enqueue(command) {
            EnqueueAttempt::Accepted => true,
            EnqueueAttempt::MustWait(_c) => {
                proof {
                    assert(false);
                }
                false
            },
            EnqueueAttempt::Rejected(_c) => false,
        }
    }

    /// Builds the connect request — the caller's arguments plus the empty
    /// uuid and the fixed protocol version the bridge advertises — and hands
    /// it to the command queue.
    pub fn connect(
        &mut self,
        game: String,
        name: String,
        password: Option<String>,
        items_handling: Option<i32>,
        tags: Vec<String>,
    ) -> (r: bool)
        requires
            old(self).wf(),
            old(self).can_take_command(),
        ensures
            final(self).wf(),
            Self::enqueue_frame(*old(self), *final(self)),
            r == old(self).commands_open(),
            !r ==> Self::same_command_side(*old(self), *final(self)),
            r ==> {
                let c = final(self).enqueued().last();
                &&& crate::protocol::is_connect_command(c, game, name, password, items_handling, tags)
                &&& final(self).enqueued() == old(self).enqueued().push(c)
                &&& final(self).pending_commands() == old(self).pending_commands().push(c)
            },
    {
        let command = Command::Connect {
            game,
            name,
            password,
            items_handling,
            tags,
            uuid: String::new(),
            version: NetworkVersion { major: 0, minor: 4, build: 4, class: "Version".to_owned() },
        };
        let ghost c0 = command;
        let r = self.enqueue(command);
        proof {
            if r {
                assert(self.enqueued@.last() == c0);
            }
        }
        r
    }

    /// Builds the connect request like `connect`, reporting a closed sender
    /// side as the explicit connection-closed error instead of a flag.
    pub fn send_connect(
        &mut self,
        game: String,
        name: String,
        password: Option<String>,
        items_handling: Option<i32>,
        tags: Vec<String>,
    ) -> (r: Result<(), GdArchipelagoError>)
        requires
            old(self).wf(),
            old(self).can_take_command(),
        ensures
            final(self).wf(),
            Self::enqueue_frame(*old(self), *final(self)),
            r is Ok <==> old(self).commands_open(),
            r is Err ==> r == Err::<(), GdArchipelagoError>(GdArchipelagoError::ConnectionClosed)
                && Self::same_command_side(*old(self), *final(self)),
            r is Ok ==> {
                let c = final(self).enqueued().last();
                &&& crate::protocol::is_connect_command(c, game, name, password, items_handling, tags)
                &&& final(self).enqueued() == old(self).enqueued().push(c)
                &&& final(self).pending_commands() == old(self).pending_commands().push(c)
            },
    {
        if self.connect(game, name, password, items_handling, tags) {
            Ok(())
        } else {
            Err(GdArchipelagoError::ConnectionClosed)
        }
    }

    /// Builds a chat-message command and hands it to the command queue.
    pub fn say(&mut self, message: String) -> (r: bool)
        requires
            old(self).wf(),
            old(self).can_take_command(),
        ensures
            final(self).wf(),
            Self::enqueue_frame(*old(self), *final(self)),
            r == old(self).commands_open(),
            !r ==> Self::same_command_side(*old(self), *final(self)),
            r ==> final(self).enqueued() == old(self).enqueued().push(
                Command::Say { text: message },
            ) && final(self).pending_commands() == old(self).pending_commands().push(
                Command::Say { text: message },
            ),
    {
        self.enqueue(Command::Say { text: message })
    }

    /// Builds a synchronisation request and hands it to the command queue.
    pub fn sync(&mut self) -> (r: bool)
        requires
            old(self).wf(),
            old(self).can_take_command(),
        ensures
            final(self).wf(),
            Self::enqueue_frame(*old(self), *final(self)),
            r == old(self).commands_open(),
            !r ==> Self::same_command_side(*old(self), *final(self)),
            r ==> final(self).enqueued() == old(self).enqueued().push(Command::Sync)
                && final(self).pending_commands() == old(self).pending_commands().push(
                Command::Sync,
            ),
    {
        self.enqueue(Command::Sync)
    }

    /// Builds a location-check report and hands it to the command queue.
    pub fn location_checks(&mut self, locations: Vec<i32>) -> (r: bool)
        requires
            old(self).wf(),
            old(self).can_take_command(),
        ensures
            final(self).wf(),
            Self::enqueue_frame(*old(self), *final(self)),
            r == old(self).commands_open(),
            !r ==> Self::same_command_side(*old(self), *final(self)),
            r ==> final(self).enqueued() == old(self).enqueued().push(
                Command::LocationChecks { locations },
            ) && final(self).pending_commands() == old(self).pending_commands().push(
                Command::LocationChecks { locations },
            ),
    {
        self.enqueue(Command::LocationChecks { locations })
    }

    /// Builds a location-scout request and hands it to the command queue.
    pub fn location_scouts(&mut self, locations: Vec<i32>, create_as_hint: i32) -> (r: bool)
        requires
            old(self).wf(),
            old(self).can_take_command(),
        ensures
            final(self).wf(),
            Self::enqueue_frame(*old(self), *final(self)),
            r == old(self).commands_open(),
            !r ==> Self::same_command_side(*old(self), *final(self)),
            r ==> final(self).enqueued() == old(self).enqueued().push(
                Command::LocationScouts { locations, create_as_hint },
            ) && final(self).pending_commands() == old(self).pending_commands().push(
                Command::LocationScouts { locations, create_as_hint },
            ),
    {
        self.enqueue(Command::LocationScouts { locations, create_as_hint })
    }

    /// Builds a status-update command and hands it to the command queue.
    pub fn status_update(&mut self, status: ClientStatus) -> (r: bool)
        requires
            old(self).wf(),
            old(self).can_take_command(),
        ensures
            final(self).wf(),
            Self::enqueue_frame(*old(self), *final(self)),
            r == old(self).commands_open(),
            !r ==> Self::same_command_side(*old(self), *final(self)),
            r ==> final(self).enqueued() == old(self).enqueued().push(
                Command::StatusUpdate { status },
            ) && final(self).pending_commands() == old(self).pending_commands().push(
                Command::StatusUpdate { status },
            ),
    {
        self.enqueue(Command::StatusUpdate { status })
    }

    /// Builds a key/value read request and hands it to the command queue.
    pub fn get(&mut self, keys: Vec<String>) -> (r: bool)
        requires
            old(self).wf(),
            old(self).can_take_command(),
        ensures
            final(self).wf(),
            Self::enqueue_frame(*old(self), *final(self)),
            r == old(self).commands_open(),
            !r ==> Self::same_command_side(*old(self), *final(self)),
            r ==> final(self).enqueued() == old(self).enqueued().push(Command::Get { keys })
                && final(self).pending_commands() == old(self).pending_commands().push(
                Command::Get { keys },
            ),
    {
        self.enqueue(Command::Get { keys })
    }

    /// Converts the host-supplied payload into its wire image and hands the
    /// broadcast to the command queue; a payload with no wire representation
    /// is refused as the typed conversion error and nothing changes.
    pub fn bounce(
        &mut self,
        games: Option<Vec<String>>,
        slots: Option<Vec<String>>,
        tags: Option<Vec<String>>,
        data: HostValue,
    ) -> (r: Result<bool, ValueConversionError>)
        requires
            old(self).wf(),
            old(self).can_take_command(),
        ensures
            final(self).wf(),
            match r {
                Ok(accepted) => {
                    &&& representable(data)
                    &&& Self::enqueue_frame(*old(self), *final(self))
                    &&& accepted == old(self).commands_open()
                    &&& !accepted ==> Self::same_command_side(*old(self), *final(self))
                    &&& accepted ==> {
                        let c = final(self).enqueued().last();
                        &&& crate::protocol::is_bounce_command(c, games, slots, tags, data)
                        &&& final(self).enqueued() == old(self).enqueued().push(c)
                        &&& final(self).pending_commands() == old(self).pending_commands().push(c)
                    }
                },
                Err(_) => !representable(data) && Self::same_state(*old(self), *final(self)),
            },
    {
        let ghost data0 = data;
        match to_wire(&data) {
            Ok(wire) => {
                let command = Command::Bounce { games, slots, tags, data: wire };
                let ghost c0 = command;
                let accepted = self.enqueue(command);
                proof {
                    if accepted {
                        assert(self.enqueued@.last() == c0);
                    }
                }
                Ok(accepted)
            },
            Err(e) => Err(e),
        }
    }

    /// Converts the default and every operation value into their wire images
    /// and hands the key/value store request to the command queue; any
    /// component with no wire representation makes the whole call fail with
    /// the typed conversion error, and nothing changes.
    pub fn set(
        &mut self,
        key: String,
        default: HostValue,
        want_reply: bool,
        operations: Vec<(String, HostValue)>,
    ) -> (r: Result<bool, ValueConversionError>)
        requires
            old(self).wf(),
            old(self).can_take_command(),
        ensures
            final(self).wf(),
            match r {
                Ok(accepted) => {
                    &&& representable(default)
                    &&& crate::protocol::all_ops_representable(operations@)
                    &&& Self::enqueue_frame(*old(self), *final(self))
                    &&& accepted == old(self).commands_open()
                    &&& !accepted ==> Self::same_command_side(*old(self), *final(self))
                    &&& accepted ==> {
                        let c = final(self).enqueued().last();
                        &&& crate::protocol::is_set_command(c, key, default, want_reply, operations@)
                        &&& final(self).enqueued() == old(self).enqueued().push(c)
                        &&& final(self).pending_commands() == old(self).pending_commands().push(c)
                    }
                },
                Err(_) => (!representable(default) || !crate::protocol::all_ops_representable(
                    operations@,
                )) && Self::same_state(*old(self), *final(self)),
            },
    {
        let default_wire = match to_wire(&default) {
            Ok(w) => w,
            Err(e) => {
                return Err(e);
            },
        };
        let mut ops: Vec<DataStorageOperation> = Vec::new();
        let mut i: usize = 0;
        while i < operations.len()
            invariant
                *self == *old(self),
                old(self).wf(),
                i as int <= operations@.len(),
                ops@.len() == i as int,
                forall|j: int| 0 <= j < i as int ==> representable((#[trigger] operations@[j]).1),
                forall|j: int|
                    0 <= j < i as int ==> (#[trigger] ops@[j]).replace == operations@[j].0
                        && converts_to(operations@[j].1, ops@[j].value),
            decreases operations@.len() - i as int,
        {
            let op_key = operations[i].0.clone();
            match to_wire(&operations[i].1) {
                Ok(w) => ops.push(DataStorageOperation { replace: op_key, value: w }),
                Err(e) => {
                    proof {
                        if crate::protocol::all_ops_representable(operations@) {
                            assert(representable((operations@[i as int]).1));
                        }
                    }
                    return Err(e);
                },
            }
            i = i + 1;
        }
        let command = Command::SetValue { key, default: default_wire, want_reply, operations: ops };
        let ghost c0 = command;
        let accepted = self.enqueue(command);
        proof {
            if accepted {
                assert(self.enqueued@.last() == c0);
            }
        }
        Ok(accepted)
    }

    /// Delivers every event already pending, oldest first, and nothing else:
    /// one pass over the queue, never waiting for new network data.  When
    /// nothing is pending the result is empty and the call does no work.
    pub fn get_received_messages(&mut self) -> (r: Vec<Event>)
        requires
            old(self).wf(),
        ensures
            final(self).wf(),
            Self::same_identity(*old(self), *final(self)),
            Self::same_command_side(*old(self), *final(self)),
            final(self).status_spec() == old(self).status_spec(),
            final(self).events_open() == old(self).events_open(),
            r@ == old(self).pending_events(),
            final(self).pending_events() == Seq::<Event>::empty(),
            final(self).drained() == old(self).drained() + r@,
            final(self).produced() == old(self).produced(),
    {
        let out = self.events.drain_all();
        self.drained = Ghost(self.drained@ + out@);
        proof {
            assert(self.produced@ =~= self.drained@ + self.events.contents());
        }
        out
    }

    /// The room metadata captured at connect time: the same value on every
    /// call, forever.
    pub fn room_info(&self) -> (r: &RoomInfoSnapshot)
        ensures
            *r == self.room_info_spec(),
    {
        &self.room_info
    }

    /// The game-data catalog captured at connect time: the same value on
    /// every call, forever.
    pub fn data_package(&self) -> (r: &DataPackageSnapshot)
        ensures
            *r == self.data_package_spec(),
    {
        &self.data_package
    }

    /// The address this bridge was connected to.
    pub fn url(&self) -> (r: &String)
        ensures
            *r == self.url_spec(),
    {
        &self.url
    }

    /// The connection status as the host observes it.
    pub fn status(&self) -> (r: ConnectionStatus)
        ensures
            r == self.status_spec(),
    {
        self.status
    }

    /// The sender loop's next decision: hand over the oldest pending command;
    /// report that nothing is pending yet; or, once the queue is closed and
    /// drained, exit for good — the terminal state for that loop, made
    /// observable by the `Closed` status.
    pub fn sender_step(&mut self) -> (r: SenderStep)
        requires
            old(self).wf(),
        ensures
            final(self).wf(),
            Self::same_identity(*old(self), *final(self)),
            Self::same_event_side(*old(self), *final(self)),
            final(self).commands_open() == old(self).commands_open(),
            final(self).enqueued() == old(self).enqueued(),
            old(self).pending_commands().len() > 0 ==> r == SenderStep::Forward(
                old(self).pending_commands()[0],
            ) && final(self).pending_commands() == old(self).pending_commands().drop_first()
                && final(self).forwarded() == old(self).forwarded().push(
                old(self).pending_commands()[0],
            ) && final(self).status_spec() == old(self).status_spec(),
            old(self).pending_commands().len() == 0 && old(self).commands_open() ==> r
                == SenderStep::Idle && Self::same_state(*old(self), *final(self)),
            old(self).pending_commands().len() == 0 && !old(self).commands_open() ==> r
                == SenderStep::Exit && final(self).status_spec() == ConnectionStatus::Closed
                && Self::same_command_side(*old(self), *final(self)),
    {
        match self.commands.pop() {
            PopOutcome::Item(command) => {
                self.forwarded = Ghost(self.forwarded@.push(command));
                proof {
                    assert(self.enqueued@ =~= self.forwarded@ + self.commands.contents());
                }
                SenderStep::Forward(command)
            },
            PopOutcome::Empty => SenderStep::Idle,
            PopOutcome::Finished => {
                self.status = ConnectionStatus::Closed;
                SenderStep::Exit
            },
        }
    }

    /// Records that a network send failed.  The failure becomes observable:
    /// the status turns `Closed` and the command queue closes, so no further
    /// command is forwarded and every later `enqueue` returns `false` —
    /// deterministically, instead of a silent abort of the sender loop.
    pub fn note_send_failure(&mut self)
        requires
            old(self).wf(),
        ensures
            final(self).wf(),
            Self::same_identity(*old(self), *final(self)),
            Self::same_event_side(*old(self), *final(self)),
            final(self).status_spec() == ConnectionStatus::Closed,
            !final(self).commands_open(),
            final(self).pending_commands() == old(self).pending_commands(),
            final(self).enqueued() == old(self).enqueued(),
            final(self).forwarded() == old(self).forwarded(),
    {
        self.commands.close();
        self.status = ConnectionStatus::Closed;
    }

    /// The receiver loop's hand-over of one inbound result.  `Some` is a
    /// decoded event: it is appended to the event queue, or returned as
    /// `MustWait` when the queue is at capacity (that loop is not
    /// frame-critical, so it simply waits for the host to drain and retries).
    /// `None` is the connection's end — closure or a transport/decode
    /// failure: both queues close, the status turns `Closed`, and the loop
    /// exits; nothing already accepted is lost.
    pub fn receiver_step(&mut self, incoming: Option<Event>) -> (r: ReceiverStep)
        requires
            old(self).wf(),
        ensures
            final(self).wf(),
            Self::same_identity(*old(self), *final(self)),
            final(self).drained() == old(self).drained(),
            final(self).pending_commands() == old(self).pending_commands(),
            final(self).enqueued() == old(self).enqueued(),
            final(self).forwarded() == old(self).forwarded(),
            incoming matches Some(e) ==> {
                &&& final(self).commands_open() == old(self).commands_open()
                &&& final(self).status_spec() == old(self).status_spec()
                &&& old(self).events_open() && old(self).pending_events().len()
                    < old(self).event_capacity() ==> r == ReceiverStep::Stored
                    && final(self).pending_events() == old(self).pending_events().push(e)
                    && final(self).produced() == old(self).produced().push(e)
                    && final(self).events_open()
                &&& old(self).events_open() && old(self).pending_events().len()
                    == old(self).event_capacity() ==> r == ReceiverStep::MustWait(e)
                    && Self::same_event_side(*old(self), *final(self))
                &&& !old(self).events_open() ==> r == ReceiverStep::Exit
                    && Self::same_event_side(*old(self), *final(self))
            },
            incoming is None ==> r == ReceiverStep::Exit && final(self).status_spec()
                == ConnectionStatus::Closed && !final(self).events_open()
                && !final(self).commands_open() && final(self).pending_events()
                == old(self).pending_events() && final(self).produced() == old(self).produced(),
    {
        match incoming {
            Some(event) => {
                let ghost ev = event;
                match self.events.push(event) {
                    PushOutcome::Pushed => {
                        self.produced = Ghost(self.produced@.push(ev));
                        proof {
                            assert(self.produced@ =~= self.drained@ + self.events.contents());
                        }
                        ReceiverStep::Stored
                    },
                    PushOutcome::Full(e) => ReceiverStep::MustWait(e),
                    PushOutcome::Closed(_e) => ReceiverStep::Exit,
                }
            },
            None => {
                self.events.close();
                self.commands.close();
                self.status = ConnectionStatus::Closed;
                ReceiverStep::Exit
            },
        }
    }
}

/// While the bridge lives, the commands accepted from the host are exactly
/// the commands already handed to the sender loop followed by those still
/// pending — so the sender forwards them in the exact order enqueued, with no
/// reordering, no duplication and no loss while the queue is open.
pub proof fn lemma_commands_forwarded_in_order(b: &GodotArchipelagoClient)
    requires
        b.wf(),
    ensures
        b.enqueued() == b.forwarded() + b.pending_commands(),
        b.forwarded() == b.enqueued().take(b.forwarded().len() as int),
{
    assert(b.forwarded() =~= (b.forwarded() + b.pending_commands()).take(
        b.forwarded().len() as int,
    ));
}

/// While the bridge lives, the events accepted from the receiver loop are
/// exactly the concatenation of everything the drain calls have delivered
/// followed by those still pending — the drains partition the produced events
/// in original production order, with no duplicates and no reordering; once
/// nothing is pending, the host has seen precisely what was produced.
pub proof fn lemma_events_drained_in_order(b: &GodotArchipelagoClient)
    requires
        b.wf(),
    ensures
        b.produced() == b.drained() + b.pending_events(),
        b.drained() == b.produced().take(b.drained().len() as int),
        b.pending_events().len() == 0 ==> b.drained() == b.produced(),
{
    assert(b.drained() =~= (b.drained() + b.pending_events()).take(b.drained().len() as int));
    if b.pending_events().len() == 0 {
        assert(b.drained() =~= b.drained() + b.pending_events());
    }
}

} // verus!
