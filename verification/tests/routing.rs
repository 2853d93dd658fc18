use xcm_builder::{
    ensure_is_remote, ExecuteXcm, ExportXcm, ExporterFor, Instruction, InteriorLocation, Junction,
    LocalUnpaidExecutingExporter, LocalUnpaidExporter, Location, NetworkExportTable, NetworkId,
    Outcome, PreparedXcm, SendError, SendXcm, UnpaidRemoteExporter, Xcm,
};
use xcm_builder::message::{unwrap_message, wrap_message};

fn interior(junctions: Vec<Junction>) -> InteriorLocation {
    InteriorLocation::new(junctions)
}

fn loc(parents: u8, junctions: Vec<Junction>) -> Location {
    Location::new(parents, InteriorLocation::new(junctions))
}

fn polkadot() -> Junction {
    Junction::GlobalConsensus(NetworkId::Polkadot)
}

fn kusama() -> Junction {
    Junction::GlobalConsensus(NetworkId::Kusama)
}

#[test]
fn ensure_is_remote_works() {
    // A Kusama parachain is remote from the Polkadot Relay.
    let x = ensure_is_remote(&interior(vec![polkadot()]), &loc(1, vec![kusama(), Junction::Parachain(1000)]));
    assert_eq!(
        x,
        Ok((NetworkId::Kusama, interior(vec![Junction::Parachain(1000)]), NetworkId::Polkadot, interior(vec![])))
    );

    // Polkadot Relay is remote from a Kusama parachain.
    let x = ensure_is_remote(&interior(vec![kusama(), Junction::Parachain(1000)]), &loc(2, vec![polkadot()]));
    assert_eq!(
        x,
        Ok((NetworkId::Polkadot, interior(vec![]), NetworkId::Kusama, interior(vec![Junction::Parachain(1000)])))
    );

    // Our own parachain is local.
    let x = ensure_is_remote(&interior(vec![polkadot()]), &loc(0, vec![Junction::Parachain(1000)]));
    assert_eq!(x, Err(loc(0, vec![Junction::Parachain(1000)])));

    // Polkadot's parachain is not remote if we are Polkadot.
    let x = ensure_is_remote(&interior(vec![polkadot()]), &loc(1, vec![polkadot(), Junction::Parachain(1000)]));
    assert_eq!(x, Err(loc(1, vec![polkadot(), Junction::Parachain(1000)])));

    // If we don't have a consensus ancestor, then we cannot determine remoteness.
    let x = ensure_is_remote(&interior(vec![]), &loc(1, vec![polkadot(), Junction::Parachain(1000)]));
    assert_eq!(x, Err(loc(1, vec![polkadot(), Junction::Parachain(1000)])));
}

#[test]
fn ensure_is_remote_rejects_climb_above_root() {
    // The destination climbs higher than the universal location reaches.
    let x = ensure_is_remote(&interior(vec![polkadot()]), &loc(2, vec![kusama()]));
    assert_eq!(x, Err(loc(2, vec![kusama()])));
}

#[test]
fn wrap_message_prepends_origin_and_keeps_body() {
    let body = Xcm { instructions: vec![Instruction::ClearOrigin, Instruction::Trap(7)] };
    let wrapped = wrap_message(NetworkId::Kusama, interior(vec![Junction::Parachain(1000)]), body);
    assert_eq!(
        wrapped.instructions,
        vec![
            Instruction::UniversalOrigin(kusama()),
            Instruction::DescendOrigin(interior(vec![Junction::Parachain(1000)])),
            Instruction::ClearOrigin,
            Instruction::Trap(7),
        ]
    );
}

#[test]
fn unwrap_message_inverts_wrap_message() {
    let body = Xcm { instructions: vec![Instruction::Trap(3), Instruction::ClearOrigin] };
    let wrapped = wrap_message(NetworkId::Polkadot, interior(vec![Junction::PalletInstance(4)]), body.clone());
    let unwrapped = unwrap_message(wrapped);
    assert_eq!(
        unwrapped,
        Some((NetworkId::Polkadot, interior(vec![Junction::PalletInstance(4)]), body))
    );
}

#[test]
fn unwrap_message_rejects_unwrapped_input() {
    let bare = Xcm { instructions: vec![Instruction::ClearOrigin, Instruction::Trap(1)] };
    assert_eq!(unwrap_message(bare), None);
}

#[test]
fn network_export_table_matches_on_network_only() {
    let table = NetworkExportTable::new(vec![
        (NetworkId::Kusama, loc(1, vec![Junction::Parachain(1002)])),
        (NetworkId::Westend, loc(1, vec![Junction::Parachain(1003)])),
    ]);
    let hit = table.exporter_for(&NetworkId::Kusama, &interior(vec![Junction::Parachain(42)]));
    assert_eq!(hit, Some(loc(1, vec![Junction::Parachain(1002)])));
    let miss = table.exporter_for(&NetworkId::Rococo, &interior(vec![]));
    assert_eq!(miss, None);
}

#[test]
fn chained_tables_take_first_hit_in_order() {
    let chain = vec![
        NetworkExportTable::new(vec![(NetworkId::Kusama, loc(0, vec![Junction::Parachain(1)]))]),
        NetworkExportTable::new(vec![
            (NetworkId::Kusama, loc(0, vec![Junction::Parachain(2)])),
            (NetworkId::Westend, loc(0, vec![Junction::Parachain(3)])),
        ]),
    ];
    let first = chain.exporter_for(&NetworkId::Kusama, &interior(vec![]));
    assert_eq!(first, Some(loc(0, vec![Junction::Parachain(1)])));
    let second = chain.exporter_for(&NetworkId::Westend, &interior(vec![]));
    assert_eq!(second, Some(loc(0, vec![Junction::Parachain(3)])));
    assert_eq!(chain.exporter_for(&NetworkId::Rococo, &interior(vec![])), None);
}

struct RecordingTransport {
    calls: Vec<(NetworkId, u32, InteriorLocation, Xcm)>,
}

impl ExportXcm for RecordingTransport {
    fn export_xcm(
        &mut self,
        network: NetworkId,
        channel: u32,
        destination: InteriorLocation,
        message: Xcm,
    ) -> Result<(), SendError> {
        self.calls.push((network, channel, destination, message));
        Ok(())
    }
}

#[test]
fn local_unpaid_exporter_hands_wrapped_message_to_transport() {
    let mut sender = LocalUnpaidExporter {
        exporter: RecordingTransport { calls: vec![] },
        ancestry: interior(vec![polkadot()]),
    };
    let body = Xcm { instructions: vec![Instruction::Trap(9)] };
    let r = sender.send_xcm(loc(1, vec![kusama(), Junction::Parachain(1000)]), body);
    assert_eq!(r, Ok(()));
    assert_eq!(sender.exporter.calls.len(), 1);
    let (network, channel, destination, message) = &sender.exporter.calls[0];
    assert_eq!(*network, NetworkId::Kusama);
    assert_eq!(*channel, 0);
    assert_eq!(*destination, interior(vec![Junction::Parachain(1000)]));
    assert_eq!(
        message.instructions,
        vec![
            Instruction::UniversalOrigin(polkadot()),
            Instruction::DescendOrigin(interior(vec![])),
            Instruction::Trap(9),
        ]
    );
}

#[test]
fn local_unpaid_exporter_fails_on_local_destination() {
    let mut sender = LocalUnpaidExporter {
        exporter: RecordingTransport { calls: vec![] },
        ancestry: interior(vec![polkadot()]),
    };
    let body = Xcm { instructions: vec![Instruction::Trap(9)] };
    let r = sender.send_xcm(loc(0, vec![Junction::Parachain(1000)]), body);
    assert_eq!(
        r,
        Err(SendError::CannotReachDestination(
            loc(0, vec![Junction::Parachain(1000)]),
            Xcm { instructions: vec![Instruction::Trap(9)] },
        ))
    );
    assert_eq!(sender.exporter.calls.len(), 0);
}

struct RecordingExecutor {
    prepared: Vec<Xcm>,
    executed: Vec<(InteriorLocation, u64)>,
    complete: bool,
}

impl ExecuteXcm for RecordingExecutor {
    fn prepare(&mut self, message: Xcm) -> Result<PreparedXcm, Xcm> {
        self.prepared.push(message.clone());
        Ok(PreparedXcm { message, weight: 42 })
    }

    fn execute(&mut self, origin: InteriorLocation, pre: PreparedXcm, weight_credit: u64) -> Outcome {
        self.executed.push((origin, weight_credit));
        if self.complete {
            Outcome::Complete(pre.weight)
        } else {
            Outcome::Incomplete(0)
        }
    }
}

#[test]
fn executing_exporter_runs_export_instruction_locally() {
    let mut sender = LocalUnpaidExecutingExporter {
        executor: RecordingExecutor { prepared: vec![], executed: vec![], complete: true },
        ancestry: interior(vec![kusama(), Junction::Parachain(1000)]),
    };
    let body = Xcm { instructions: vec![Instruction::ClearOrigin] };
    let r = sender.send_xcm(loc(2, vec![polkadot()]), body);
    assert_eq!(r, Ok(()));
    assert_eq!(sender.executor.prepared.len(), 1);
    let inner = Xcm {
        instructions: vec![
            Instruction::UniversalOrigin(kusama()),
            Instruction::DescendOrigin(interior(vec![Junction::Parachain(1000)])),
            Instruction::ClearOrigin,
        ],
    };
    assert_eq!(
        sender.executor.prepared[0].instructions,
        vec![Instruction::ExportMessage {
            network: NetworkId::Polkadot,
            destination: interior(vec![]),
            xcm: inner,
        }]
    );
    // Executed at the neutral origin, with the budget the validation reported.
    assert_eq!(sender.executor.executed, vec![(interior(vec![]), 42)]);
}

#[test]
fn executing_exporter_folds_incomplete_outcome_into_cannot_reach() {
    let mut sender = LocalUnpaidExecutingExporter {
        executor: RecordingExecutor { prepared: vec![], executed: vec![], complete: false },
        ancestry: interior(vec![polkadot()]),
    };
    let body = Xcm { instructions: vec![Instruction::Trap(1)] };
    let dest = loc(1, vec![kusama()]);
    let r = sender.send_xcm(dest, body);
    assert_eq!(
        r,
        Err(SendError::CannotReachDestination(
            loc(1, vec![kusama()]),
            Xcm { instructions: vec![Instruction::Trap(1)] },
        ))
    );
}

struct RecordingRouter {
    calls: Vec<(Location, Xcm)>,
}

impl SendXcm for RecordingRouter {
    fn send_xcm(&mut self, dest: Location, xcm: Xcm) -> Result<(), SendError> {
        self.calls.push((dest, xcm));
        Ok(())
    }
}

#[test]
fn remote_exporter_routes_export_through_bridge() {
    let bridges = NetworkExportTable::new(vec![(
        NetworkId::Kusama,
        loc(1, vec![Junction::Parachain(1002)]),
    )]);
    let mut sender = UnpaidRemoteExporter {
        bridges,
        router: RecordingRouter { calls: vec![] },
        ancestry: interior(vec![polkadot()]),
    };
    let body = Xcm { instructions: vec![Instruction::Trap(5)] };
    let r = sender.send_xcm(loc(1, vec![kusama(), Junction::Parachain(1000)]), body);
    assert_eq!(r, Ok(()));
    assert_eq!(sender.router.calls.len(), 1);
    let (bridge, message) = &sender.router.calls[0];
    assert_eq!(*bridge, loc(1, vec![Junction::Parachain(1002)]));
    let inner = Xcm {
        instructions: vec![
            Instruction::UniversalOrigin(polkadot()),
            Instruction::DescendOrigin(interior(vec![])),
            Instruction::Trap(5),
        ],
    };
    assert_eq!(
        message.instructions,
        vec![Instruction::ExportMessage {
            network: NetworkId::Kusama,
            destination: interior(vec![Junction::Parachain(1000)]),
            xcm: inner,
        }]
    );
}

#[test]
fn remote_exporter_fails_on_table_miss_with_inputs_intact() {
    let bridges = NetworkExportTable::new(vec![(
        NetworkId::Westend,
        loc(1, vec![Junction::Parachain(1002)]),
    )]);
    let mut sender = UnpaidRemoteExporter {
        bridges,
        router: RecordingRouter { calls: vec![] },
        ancestry: interior(vec![polkadot()]),
    };
    let body = Xcm { instructions: vec![Instruction::Trap(5)] };
    let dest = loc(1, vec![kusama(), Junction::Parachain(1000)]);
    let r = sender.send_xcm(dest, body);
    assert_eq!(
        r,
        Err(SendError::CannotReachDestination(
            loc(1, vec![kusama(), Junction::Parachain(1000)]),
            Xcm { instructions: vec![Instruction::Trap(5)] },
        ))
    );
    assert_eq!(sender.router.calls.len(), 0);
}

#[test]
fn wrapped_message_received_by_peer_recovers_body() {
    // A message sent through the transport strategy, unwrapped by the peer,
    // yields the original body.
    let mut sender = LocalUnpaidExporter {
        exporter: RecordingTransport { calls: vec![] },
        ancestry: interior(vec![kusama(), Junction::Parachain(1000)]),
    };
    let body = Xcm { instructions: vec![Instruction::Trap(11), Instruction::ClearOrigin] };
    let r = sender.send_xcm(loc(2, vec![polkadot()]), body.clone());
    assert_eq!(r, Ok(()));
    let (_, _, _, message) = sender.exporter.calls.remove(0);
    let unwrapped = unwrap_message(message);
    assert_eq!(
        unwrapped,
        Some((NetworkId::Kusama, interior(vec![Junction::Parachain(1000)]), body))
    );
}
