//! The bridge's own model of the room protocol's data: outbound commands,
//! inbound events, the connect-time snapshots, and the error taxonomy.
//!
//! The wire encoding of these values belongs to the protocol library that the
//! embedding links; here each carries, as plain values, exactly what the
//! bridge's logic and the host read.

use vstd::prelude::*;
use crate::value::WireValue;

verus! {

/// Protocol version advertised in a connect request.
#[derive(Debug, PartialEq)]
pub struct NetworkVersion {
    pub major: i64,
    pub minor: i64,
    pub build: i64,
    pub class: String,
}

/// The client's self-reported play status.
#[derive(Clone, Copy, Debug, PartialEq, Eq, Structural)]
pub enum ClientStatus {
    Unknown,
    Ready,
    Playing,
    Goal,
}

/// One replace-style mutation of a server-side key/value entry.
#[derive(Debug, PartialEq)]
pub struct DataStorageOperation {
    pub replace: String,
    pub value: WireValue,
}

/// An outbound request, tagged by operation kind.  Each variant carries only
/// the fields its operation needs.  A command is built once by the host side
/// of the bridge and consumed exactly once by the sender loop.
#[derive(Debug, PartialEq)]
#[allow(inconsistent_fields)]
pub enum Command {
    Connect {
        game: String,
        name: String,
        password: Option<String>,
        items_handling: Option<i32>,
        tags: Vec<String>,
        uuid: String,
        version: NetworkVersion,
    },
    Say { text: String },
    Sync,
    LocationChecks { locations: Vec<i32> },
    LocationScouts { locations: Vec<i32>, create_as_hint: i32 },
    StatusUpdate { status: ClientStatus },
    Bounce {
        games: Option<Vec<String>>,
        slots: Option<Vec<String>>,
        tags: Option<Vec<String>>,
        data: WireValue,
    },
    Get { keys: Vec<String> },
    SetValue {
        key: String,
        default: WireValue,
        want_reply: bool,
        operations: Vec<DataStorageOperation>,
    },
}

/// An inbound server message, decoded by the protocol library and delivered
/// to the host at most once.  The host interprets it; the bridge only moves
/// it across the event queue.
#[derive(Debug, PartialEq)]
pub enum Event {
    Connected { team: i64, slot: i64 },
    ReceivedItems { index: i64, item_ids: Vec<i64> },
    PrintText { text: String },
    ConnectionRefused { errors: Vec<String> },
    Other { kind: String },
}

/// Per-game metadata from the server's game-data catalog.
#[derive(Debug, PartialEq)]
pub struct GameData {
    pub item_name_to_id: Vec<(String, i64)>,
    pub location_name_to_id: Vec<(String, i64)>,
}

/// Immutable room metadata captured once when the connection is established.
#[derive(Debug, PartialEq)]
pub struct RoomInfoSnapshot {
    pub version: NetworkVersion,
    pub tags: Vec<String>,
    pub password_required: bool,
    pub hint_cost: i64,
    pub location_check_points: i64,
    pub games: Vec<String>,
    pub seed_name: String,
}

/// Immutable game-data catalog captured once when the connection is
/// established: one entry per game name.
#[derive(Debug, PartialEq)]
pub struct DataPackageSnapshot {
    pub games: Vec<(String, GameData)>,
}

/// A failure reported by the protocol library, reduced to what the host-facing
/// error keeps of it.
#[derive(Debug, PartialEq)]
pub enum ApError {
    IllegalResponse { received: Event, expected: String },
    ConnectionClosed,
    FailedSerialize,
    NonTextWebsocketResult,
    NetworkError,
}

/// The error the bridge reports to the host.
#[derive(Debug, PartialEq)]
pub enum GdArchipelagoError {
    IllegalResponse { received: Event, expected: String },
    ConnectionClosed,
    FailedSerialize,
    NonTextWebsocketResult,
    NetworkError,
}

/// What the host-facing error keeps of a protocol-library failure: the same
/// classification, variant for variant, with the illegal-response details
/// carried across.
pub open spec fn gd_error_of(err: ApError) -> GdArchipelagoError {
    match err {
        ApError::IllegalResponse { received, expected } => GdArchipelagoError::IllegalResponse {
            received,
            expected,
        },
        ApError::ConnectionClosed => GdArchipelagoError::ConnectionClosed,
        ApError::FailedSerialize => GdArchipelagoError::FailedSerialize,
        ApError::NonTextWebsocketResult => GdArchipelagoError::NonTextWebsocketResult,
        ApError::NetworkError => GdArchipelagoError::NetworkError,
    }
}

/// The fixed description of each error, as a character sequence.
pub open spec fn error_text(err: GdArchipelagoError) -> Seq<char> {
    match err {
        GdArchipelagoError::IllegalResponse { received, expected } =>
            "illegal response from server"@,
        GdArchipelagoError::ConnectionClosed => "connection closed by server"@,
        GdArchipelagoError::FailedSerialize => "data failed to serialze"@,
        GdArchipelagoError::NonTextWebsocketResult => "unexpected non-text result form websocket"@,
        GdArchipelagoError::NetworkError => "network error"@,
    }
}

impl GdArchipelagoError {
    /// Classifies a protocol-library failure for the host.
    pub fn from_ap_error(err: ApError) -> (r: GdArchipelagoError)
        ensures
            r == gd_error_of(err),
    {
        match err {
            ApError::IllegalResponse { received, expected } => {
                GdArchipelagoError::IllegalResponse { received, expected }
            },
            ApError::ConnectionClosed => GdArchipelagoError::ConnectionClosed,
            ApError::FailedSerialize => GdArchipelagoError::FailedSerialize,
            ApError::NonTextWebsocketResult => GdArchipelagoError::NonTextWebsocketResult,
            ApError::NetworkError => GdArchipelagoError::NetworkError,
        }
    }

    /// The description the host shows for this error.
    pub fn message(&self) -> (r: String)
        ensures
            r@ == error_text(*self),
    {
        match self {
            GdArchipelagoError::IllegalResponse { .. } => "illegal response from server".to_owned(),
            GdArchipelagoError::ConnectionClosed => "connection closed by server".to_owned(),
            GdArchipelagoError::FailedSerialize => "data failed to serialze".to_owned(),
            GdArchipelagoError::NonTextWebsocketResult => {
                "unexpected non-text result form websocket".to_owned()
            },
            GdArchipelagoError::NetworkError => "network error".to_owned(),
        }
    }
}

/// Whether `c` is the connect request built from these host arguments: the
/// caller's fields carried through unchanged, an empty uuid, and the fixed
/// protocol version the bridge advertises.
pub open spec fn is_connect_command(
    c: Command,
    game: String,
    name: String,
    password: Option<String>,
    items_handling: Option<i32>,
    tags: Vec<String>,
) -> bool {
    match c {
        Command::Connect { game: g, name: n, password: p, items_handling: ih, tags: t, uuid, version } => {
            &&& g == game
            &&& n == name
            &&& p == password
            &&& ih == items_handling
            &&& t == tags
            &&& uuid@ == Seq::<char>::empty()
            &&& version.major == 0
            &&& version.minor == 4
            &&& version.build == 4
            &&& version.class@ == "Version"@
        },
        _ => false,
    }
}

/// Whether `c` is the broadcast built from these host arguments, with the
/// payload the lossless wire image of `data`.
pub open spec fn is_bounce_command(
    c: Command,
    games: Option<Vec<String>>,
    slots: Option<Vec<String>>,
    tags: Option<Vec<String>>,
    data: crate::value::HostValue,
) -> bool {
    match c {
        Command::Bounce { games: g, slots: s, tags: t, data: d } => {
            &&& g == games
            &&& s == slots
            &&& t == tags
            &&& crate::value::converts_to(data, d)
        },
        _ => false,
    }
}

/// Whether every operation value in the list has a wire representation.
pub open spec fn all_ops_representable(ops: Seq<(String, crate::value::HostValue)>) -> bool {
    forall|i: int| 0 <= i < ops.len() ==> crate::value::representable((#[trigger] ops[i]).1)
}

/// Whether `c` is the key/value store request built from these host
/// arguments: the key and reply flag carried through, the default and every
/// operation value replaced by their lossless wire images, the operation
/// names and their order preserved.
pub open spec fn is_set_command(
    c: Command,
    key: String,
    default: crate::value::HostValue,
    want_reply: bool,
    ops: Seq<(String, crate::value::HostValue)>,
) -> bool {
    match c {
        Command::SetValue { key: k, default: d, want_reply: w, operations: o } => {
            &&& k == key
            &&& w == want_reply
            &&& crate::value::converts_to(default, d)
            &&& o@.len() == ops.len()
            &&& forall|i: int|
                0 <= i < ops.len() ==> (#[trigger] o@[i]).replace == ops[i].0
                    && crate::value::converts_to(ops[i].1, o@[i].value)
        },
        _ => false,
    }
}

/// How the asynchronous handshake ended, as the embedding reports it back:
/// either the connection stands, with the two immutable snapshots the server
/// sent, or it failed and no resources were kept.
#[derive(Debug, PartialEq)]
pub enum HandshakeOutcome {
    Established { room_info: RoomInfoSnapshot, data_package: DataPackageSnapshot },
    Failed { error: ApError },
}

} // verus!
