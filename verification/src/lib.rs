//! A frame-driven bridge between a synchronous host application and an
//! asynchronous room-protocol connection.
//!
//! The host calls into this library from a single frame thread and must never
//! be stalled waiting for network data.  The network side is pumped by two
//! background loops that the embedding runs; their decisions — what to forward,
//! when to stop, what becomes observable when a transport fails — live here as
//! verified step functions over plain values.  The library owns the bounded
//! command and event queues, the immutable connect-time snapshots, and the
//! conversion of host-supplied dynamic values into the wire value model.

pub mod bridge;
pub mod protocol;
pub mod queue;
pub mod value;

pub use bridge::{
    ConnectionStatus, EnqueueAttempt, GodotArchipelagoClient, ReceiverStep, SenderStep,
    QUEUE_CAPACITY,
};
pub use protocol::{
    ApError, ClientStatus, Command, DataPackageSnapshot, DataStorageOperation, Event, GameData,
    GdArchipelagoError, HandshakeOutcome, NetworkVersion, RoomInfoSnapshot,
};
pub use queue::{BoundedQueue, PopOutcome, PushOutcome};
pub use value::{HostValue, ValueConversionError, WireValue};
