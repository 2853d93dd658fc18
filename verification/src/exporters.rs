//! The exporter table and the three sender strategies.
//!
//! Each strategy resolves the destination, wraps the message so its origin
//! can be reconstructed, and then moves it by a different means: straight
//! through a transport capability, through the local execution engine via
//! an export instruction, or through a bridge looked up from an exporter
//! table and reached by a second send capability.

use vstd::prelude::*;

use crate::location::{InteriorLocation, Junction, Location, LocationView, NetworkId};
use crate::message::{wrap_message, Instruction, InstructionView, Xcm};
use crate::routing::{ensure_is_remote, resolve_spec};

verus! {

broadcast use vstd::std_specs::vec::group_vec_axioms, vstd::seq::group_seq_axioms;

/// Why a send failed. `CannotReachDestination` hands the untouched
/// destination and message back so the caller can retry through another
/// strategy without losing either.
#[derive(Debug, PartialEq, Eq)]
pub enum SendError {
    CannotReachDestination(Location, Xcm),
    Transport,
    Unroutable,
    DestinationUnsupported,
    ExceedsMaxMessageSize,
}

/// Holds when `r` is the routing failure that returns the original
/// destination and message intact.
pub open spec fn is_cannot_reach(
    r: Result<(), SendError>,
    dest: LocationView,
    xcm: Seq<InstructionView>,
) -> bool {
    r matches Err(SendError::CannotReachDestination(d, m)) && d@ == dest && m@ == xcm
}

/// A transport capability: moves an already-wrapped message toward a
/// network. Implemented outside this layer; nothing is assumed of it.
pub trait ExportXcm {
    fn export_xcm(
        &mut self,
        network: NetworkId,
        channel: u32,
        destination: InteriorLocation,
        message: Xcm,
    ) -> Result<(), SendError>;
}

/// A send capability: moves a message toward a location. Implemented
/// outside this layer; nothing is assumed of it.
pub trait SendXcm {
    fn send_xcm(&mut self, dest: Location, xcm: Xcm) -> Result<(), SendError>;
}

/// A message validated by the execution engine, together with the resource
/// budget its execution was weighed at.
pub struct PreparedXcm {
    pub message: Xcm,
    pub weight: u64,
}

impl PreparedXcm {
    pub fn weight_of(&self) -> (r: u64)
        ensures
            r == self.weight,
    {
        self.weight
    }
}

/// What executing a prepared message came to.
pub enum Outcome {
    Complete(u64),
    Incomplete(u64),
    Error,
}

/// A local execution engine capability: validates a message, then executes
/// it at a given origin within a budget. Implemented outside this layer;
/// nothing is assumed of it.
pub trait ExecuteXcm {
    fn prepare(&mut self, message: Xcm) -> Result<PreparedXcm, Xcm>;

    fn execute(&mut self, origin: InteriorLocation, pre: PreparedXcm, weight_credit: u64)
        -> Outcome;
}

/// A lookup capability from a remote network and interior path to the
/// bridge location able to forward messages there.
pub trait ExporterFor {
    /// The model of this table: what the lookup returns, if anything.
    spec fn exporter_spec(
        &self,
        network: NetworkId,
        remote_location: Seq<Junction>,
    ) -> Option<LocationView>;

    fn exporter_for(&self, network: &NetworkId, remote_location: &InteriorLocation) -> (r: Option<
        Location,
    >)
        ensures
            match r {
                Some(l) => self.exporter_spec(*network, remote_location@) == Some(l@),
                None => self.exporter_spec(*network, remote_location@) is None,
            },
    ;
}

/// The first entry of `entries` carrying `network`, if any.
pub open spec fn table_lookup(
    entries: Seq<(NetworkId, Location)>,
    network: NetworkId,
) -> Option<LocationView>
    decreases entries.len(),
{
    if entries.len() == 0 {
        None
    } else if entries[0].0 == network {
        Some(entries[0].1@)
    } else {
        table_lookup(entries.skip(1), network)
    }
}

proof fn lemma_table_lookup_skip(entries: Seq<(NetworkId, Location)>, network: NetworkId, k: int)
    requires
        0 <= k <= entries.len(),
        forall|j: int| 0 <= j < k ==> entries[j].0 != network,
    ensures
        table_lookup(entries, network) == table_lookup(entries.skip(k), network),
    decreases k,
{
    if k > 0 {
        lemma_table_lookup_skip(entries.skip(1), network, k - 1);
        assert(entries.skip(1).skip(k - 1) =~= entries.skip(k));
    } else {
        assert(entries.skip(0) =~= entries);
    }
}

/// A static exporter table: an ordered list of `(network, bridge)` pairs,
/// scanned in order and matched on the network identifier alone. The
/// remote interior path takes no part in the match: the table holds one
/// bridge per network.
#[derive(Debug, PartialEq, Eq)]
pub struct NetworkExportTable {
    pub table: Vec<(NetworkId, Location)>,
}

impl NetworkExportTable {
    pub fn new(table: Vec<(NetworkId, Location)>) -> (r: Self)
        ensures
            r.table@ == table@,
    {
        NetworkExportTable { table }
    }
}

impl ExporterFor for NetworkExportTable {
    open spec fn exporter_spec(
        &self,
        network: NetworkId,
        remote_location: Seq<Junction>,
    ) -> Option<LocationView> {
        table_lookup(self.table@, network)
    }

    #[verifier::loop_isolation(false)]
    fn exporter_for(&self, network: &NetworkId, remote_location: &InteriorLocation) -> (r: Option<
        Location,
    >) {
        let mut k: usize = 0;
        while k < self.table.len()
            invariant
                k <= self.table@.len(),
                forall|j: int| 0 <= j < k ==> self.table@[j].0 != *network,
            decreases self.table@.len() - k,
        {
            let entry = &self.table[k];
            if entry.0 == *network {
                proof {
                    lemma_table_lookup_skip(self.table@, *network, k as int);
                }
                return Some(entry.1.clone());
            }
            k = k + 1;
        }
        proof {
            lemma_table_lookup_skip(self.table@, *network, self.table@.len() as int);
            assert(self.table@.skip(self.table@.len() as int) =~= Seq::<
                (NetworkId, Location),
            >::empty());
        }
        None
    }
}

/// The first hit among an ordered sequence of tables, each consulted in
/// turn.
pub open spec fn chain_lookup<T: ExporterFor>(
    entries: Seq<T>,
    network: NetworkId,
    remote_location: Seq<Junction>,
) -> Option<LocationView>
    decreases entries.len(),
{
    if entries.len() == 0 {
        None
    } else if entries[0].exporter_spec(network, remote_location) is Some {
        entries[0].exporter_spec(network, remote_location)
    } else {
        chain_lookup(entries.skip(1), network, remote_location)
    }
}

proof fn lemma_chain_lookup_skip<T: ExporterFor>(
    entries: Seq<T>,
    network: NetworkId,
    remote_location: Seq<Junction>,
    k: int,
)
    requires
        0 <= k <= entries.len(),
        forall|j: int| 0 <= j < k ==> entries[j].exporter_spec(network, remote_location) is None,
    ensures
        chain_lookup(entries, network, remote_location) == chain_lookup(
            entries.skip(k),
            network,
            remote_location,
        ),
    decreases k,
{
    if k > 0 {
        lemma_chain_lookup_skip(entries.skip(1), network, remote_location, k - 1);
        assert(entries.skip(1).skip(k - 1) =~= entries.skip(k));
    } else {
        assert(entries.skip(0) =~= entries);
    }
}

/// An ordered sequence of tables is itself a table: each is tried in order
/// and the first hit wins.
impl<T: ExporterFor> ExporterFor for Vec<T> {
    open spec fn exporter_spec(
        &self,
        network: NetworkId,
        remote_location: Seq<Junction>,
    ) -> Option<LocationView> {
        chain_lookup(self@, network, remote_location)
    }

    #[verifier::loop_isolation(false)]
    fn exporter_for(&self, network: &NetworkId, remote_location: &InteriorLocation) -> (r: Option<
        Location,
    >) {
        let mut k: usize = 0;
        while k < self.len()
            invariant
                k <= self@.len(),
                forall|j: int| 0 <= j < k ==> self@[j].exporter_spec(
                    *network,
                    remote_location@,
                ) is None,
            decreases self@.len() - k,
        {
            let hit = self[k].exporter_for(network, remote_location);
            if hit.is_some() {
                proof {
                    lemma_chain_lookup_skip(self@, *network, remote_location@, k as int);
                }
                return hit;
            }
            k = k + 1;
        }
        proof {
            lemma_chain_lookup_skip(self@, *network, remote_location@, self@.len() as int);
            assert(self@.skip(self@.len() as int) =~= Seq::<T>::empty());
        }
        None
    }
}

/// Sender strategy that hands the wrapped message straight to a transport
/// capability, with no fee accounting. Only for callers known incapable of
/// abuse.
pub struct LocalUnpaidExporter<E: ExportXcm> {
    /// The transport that moves the wrapped message.
    pub exporter: E,
    /// The caller's universal location.
    pub ancestry: InteriorLocation,
}

impl<E: ExportXcm> LocalUnpaidExporter<E> {
    /// Resolve `dest`; on failure hand destination and message back in a
    /// `CannotReachDestination`. On success wrap `xcm` with the local
    /// origin and give it to the transport for the remote network; the
    /// transport's own verdict is returned unchanged.
    pub fn send_xcm(&mut self, dest: Location, xcm: Xcm) -> (r: Result<(), SendError>)
        ensures
            final(self).ancestry@ == old(self).ancestry@,
            resolve_spec(old(self).ancestry@, dest@.parents as int, dest@.interior) is None
                ==> is_cannot_reach(r, dest@, xcm@),
            r is Ok ==> resolve_spec(
                old(self).ancestry@,
                dest@.parents as int,
                dest@.interior,
            ) is Some,
    {
        let devolved = match ensure_is_remote(&self.ancestry, &dest) {
            Ok(x) => x,
            Err(d) => {
                return Err(SendError::CannotReachDestination(d, xcm));
            },
        };
        let (network, destination, local_network, local_location) = devolved;
        let message = wrap_message(local_network, local_location, xcm);
        self.exporter.export_xcm(network, 0, destination, message)
    }
}

/// Sender strategy that triggers the locally running export handler: the
/// wrapped message is put inside a single export instruction, which the
/// local execution engine validates and executes at the neutral origin.
pub struct LocalUnpaidExecutingExporter<X: ExecuteXcm> {
    /// The local execution engine.
    pub executor: X,
    /// The caller's universal location.
    pub ancestry: InteriorLocation,
}

impl<X: ExecuteXcm> LocalUnpaidExecutingExporter<X> {
    /// Resolve `dest` and build a one-instruction message requesting the
    /// export of the wrapped `xcm`; validate and execute it locally.
    /// Succeeds only when execution reports full completion; every other
    /// outcome hands the original destination and message back in a
    /// `CannotReachDestination`.
    pub fn send_xcm(&mut self, dest: Location, xcm: Xcm) -> (r: Result<(), SendError>)
        ensures
            final(self).ancestry@ == old(self).ancestry@,
            resolve_spec(old(self).ancestry@, dest@.parents as int, dest@.interior) is None
                ==> is_cannot_reach(r, dest@, xcm@),
            r is Err ==> is_cannot_reach(r, dest@, xcm@),
            r is Ok ==> resolve_spec(
                old(self).ancestry@,
                dest@.parents as int,
                dest@.interior,
            ) is Some,
    {
        let err_dest = dest.clone();
        let err_xcm = xcm.clone();
        let devolved = match ensure_is_remote(&self.ancestry, &dest) {
            Ok(x) => x,
            Err(_) => {
                return Err(SendError::CannotReachDestination(err_dest, err_xcm));
            },
        };
        let (remote_network, remote_location, local_network, local_location) = devolved;
        let inner = wrap_message(local_network, local_location, xcm);
        let mut instructions: Vec<Instruction> = Vec::new();
        instructions.push(
            Instruction::ExportMessage {
                network: remote_network,
                destination: remote_location,
                xcm: inner,
            },
        );
        let message = Xcm { instructions };
        let pre = match self.executor.prepare(message) {
            Ok(x) => x,
            Err(_) => {
                return Err(SendError::CannotReachDestination(err_dest, err_xcm));
            },
        };
        let weight_credit = pre.weight_of();
        match self.executor.execute(InteriorLocation::here(), pre, weight_credit) {
            Outcome::Complete(_) => Ok(()),
            _ => Err(SendError::CannotReachDestination(err_dest, err_xcm)),
        }
    }
}

/// Sender strategy that routes through a bridge: the wrapped message is put
/// inside an export instruction and sent to the bridge location the
/// exporter table names for the remote network.
pub struct UnpaidRemoteExporter<B: ExporterFor, R: SendXcm> {
    /// The exporter table naming a bridge for each reachable network.
    pub bridges: B,
    /// The send capability that carries the export request to the bridge.
    pub router: R,
    /// The caller's universal location.
    pub ancestry: InteriorLocation,
}

impl<B: ExporterFor, R: SendXcm> UnpaidRemoteExporter<B, R> {
    /// Resolve `dest`, look the remote network up in the exporter table,
    /// and send the export request to the bridge found there. Resolution
    /// failure and a table miss both hand the original destination and
    /// message back in a `CannotReachDestination`; once the bridge is
    /// found, the router's own verdict is returned unchanged.
    pub fn send_xcm(&mut self, dest: Location, xcm: Xcm) -> (r: Result<(), SendError>)
        ensures
            final(self).ancestry@ == old(self).ancestry@,
            final(self).bridges == old(self).bridges,
            resolve_spec(old(self).ancestry@, dest@.parents as int, dest@.interior) is None
                ==> is_cannot_reach(r, dest@, xcm@),
            (match resolve_spec(old(self).ancestry@, dest@.parents as int, dest@.interior) {
                Some(t) => old(self).bridges.exporter_spec(t.0, t.1) is None ==> is_cannot_reach(
                    r,
                    dest@,
                    xcm@,
                ),
                None => true,
            }),
            r is Ok ==> (resolve_spec(old(self).ancestry@, dest@.parents as int, dest@.interior)
                matches Some(t) && old(self).bridges.exporter_spec(t.0, t.1) is Some),
    {
        let devolved = match ensure_is_remote(&self.ancestry, &dest) {
            Ok(x) => x,
            Err(d) => {
                return Err(SendError::CannotReachDestination(d, xcm));
            },
        };
        let (remote_network, remote_location, local_network, local_location) = devolved;
        let bridge = match self.bridges.exporter_for(&remote_network, &remote_location) {
            Some(b) => b,
            None => {
                return Err(SendError::CannotReachDestination(dest, xcm));
            },
        };
        let inner = wrap_message(local_network, local_location, xcm);
        let mut instructions: Vec<Instruction> = Vec::new();
        instructions.push(
            Instruction::ExportMessage {
                network: remote_network,
                destination: remote_location,
                xcm: inner,
            },
        );
        let message = Xcm { instructions };
        self.router.send_xcm(bridge, message)
    }
}

impl<E: ExportXcm> SendXcm for LocalUnpaidExporter<E> {
    fn send_xcm(&mut self, dest: Location, xcm: Xcm) -> Result<(), SendError> {
        self.send_xcm(dest, xcm)
    }
}

impl<X: ExecuteXcm> SendXcm for LocalUnpaidExecutingExporter<X> {
    fn send_xcm(&mut self, dest: Location, xcm: Xcm) -> Result<(), SendError> {
        self.send_xcm(dest, xcm)
    }
}

impl<B: ExporterFor, R: SendXcm> SendXcm for UnpaidRemoteExporter<B, R> {
    fn send_xcm(&mut self, dest: Location, xcm: Xcm) -> Result<(), SendError> {
        self.send_xcm(dest, xcm)
    }
}

} // verus!
