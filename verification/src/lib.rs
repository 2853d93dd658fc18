//! A verified cross-consensus message routing core.
//!
//! Given the caller's own universal location and a destination, the library
//! decides whether the destination is remote, re-addresses outgoing messages
//! so the remote system can attribute their origin, and drives one of three
//! transport strategies, optionally through a bridge looked up from a
//! routing table. A companion module carries the hash-chained block
//! execution routine of a minimal parachain.

pub mod codec;
pub mod exporters;
pub mod location;
pub mod message;
pub mod parachain;
pub mod routing;

pub use exporters::{
    ExecuteXcm, ExportXcm, ExporterFor, LocalUnpaidExecutingExporter, LocalUnpaidExporter,
    NetworkExportTable, Outcome, PreparedXcm, SendError, SendXcm, UnpaidRemoteExporter,
};
pub use location::{InteriorLocation, Junction, Location, NetworkId};
pub use message::{Instruction, Xcm};
pub use parachain::{
    execute, execute_checked, execute_transaction, hash_state, BlockData, GraveyardState, HeadData,
    StateMismatch,
};
pub use routing::ensure_is_remote;
