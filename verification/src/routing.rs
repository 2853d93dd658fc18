//! The remoteness resolver: given the caller's universal location and a
//! destination relative to it, decide whether the destination lies in a
//! different global network, and if so under which network and interior
//! path each side stands.

use vstd::prelude::*;

use crate::location::{InteriorLocation, Junction, Location, NetworkId};

verus! {

broadcast use vstd::std_specs::vec::group_vec_axioms, vstd::seq::group_seq_axioms;

/// The anchor junction of the destination once resolved against the whole
/// universal location: the first junction left after the destination's
/// `Parent` moves have consumed junctions from the end of `universal`.
/// `None` when the destination climbs above the universal location, or when
/// nothing at all is left.
pub open spec fn resolved_anchor(
    universal: Seq<Junction>,
    parents: int,
    dest_interior: Seq<Junction>,
) -> Option<Junction> {
    if 0 <= parents <= universal.len() {
        let absolute = universal.take(universal.len() - parents) + dest_interior;
        if absolute.len() > 0 {
            Some(absolute[0])
        } else {
            None
        }
    } else {
        None
    }
}

/// What resolving a destination against a universal location yields:
/// `(remote_network, remote_interior_path, local_network, local_interior_path)`
/// when the destination's resolved anchor is a global-network marker of a
/// network other than the caller's own; `None` in every other case — no
/// local anchor, a structural failure of the append, no resolved anchor,
/// or an anchor equal to the local network.
pub open spec fn resolve_spec(
    universal: Seq<Junction>,
    parents: int,
    dest_interior: Seq<Junction>,
) -> Option<(NetworkId, Seq<Junction>, NetworkId, Seq<Junction>)> {
    if universal.len() > 0 && universal[0] is GlobalConsensus {
        let local = universal[0]->GlobalConsensus_0;
        if 0 <= parents <= universal.len() {
            let absolute = universal.take(universal.len() - parents) + dest_interior;
            if absolute.len() > 0 && absolute[0] is GlobalConsensus
                && absolute[0]->GlobalConsensus_0 != local {
                Some((absolute[0]->GlobalConsensus_0, absolute.skip(1), local, universal.skip(1)))
            } else {
                None
            }
        } else {
            None
        }
    } else {
        None
    }
}

/// Decide whether `dest`, read relative to the caller's position, lies in a
/// global network other than the caller's own. On success the remote
/// network and interior path and the local network and interior path come
/// back; in every other case the original destination comes back unchanged,
/// signalling that it is to be treated as local.
pub fn ensure_is_remote(universal_local: &InteriorLocation, dest: &Location) -> (r: Result<
    (NetworkId, InteriorLocation, NetworkId, InteriorLocation),
    Location,
>)
    ensures
        match resolve_spec(universal_local@, dest@.parents as int, dest@.interior) {
            Some(t) => r matches Ok(d) && d.0 == t.0 && d.1@ == t.1 && d.2 == t.2 && d.3@ == t.3,
            None => r matches Err(e) && e@ == dest@,
        },
{
    let (local_loc, first) = universal_local.clone().split_first();
    let local_net = match first {
        Some(Junction::GlobalConsensus(n)) => n,
        _ => {
            return Err(dest.clone());
        },
    };
    let universal_destination = match universal_local.clone().into_location().appended_with(
        dest.clone(),
    ) {
        Ok(x) => x,
        Err(_) => {
            return Err(dest.clone());
        },
    };
    let (remote_dest, remote_first) = universal_destination.interior.split_first();
    match remote_first {
        Some(Junction::GlobalConsensus(remote_net)) => {
            if remote_net != local_net {
                Ok((remote_net, remote_dest, local_net, local_loc))
            } else {
                Err(dest.clone())
            }
        },
        _ => Err(dest.clone()),
    }
}

/// Law: a destination whose resolved anchor is the caller's own network is
/// never remote, regardless of how many `Parent` moves the path took.
pub proof fn lemma_same_network_is_local(
    universal: Seq<Junction>,
    parents: int,
    dest_interior: Seq<Junction>,
    n: NetworkId,
)
    requires
        universal.len() > 0,
        universal[0] == Junction::GlobalConsensus(n),
        resolved_anchor(universal, parents, dest_interior) == Some(Junction::GlobalConsensus(n)),
    ensures
        resolve_spec(universal, parents, dest_interior) is None,
{
}

/// Law: a caller whose universal location carries no global-network anchor
/// cannot resolve any destination as remote.
pub proof fn lemma_no_anchor_never_remote(
    universal: Seq<Junction>,
    parents: int,
    dest_interior: Seq<Junction>,
)
    requires
        universal.len() == 0 || !(universal[0] is GlobalConsensus),
    ensures
        resolve_spec(universal, parents, dest_interior) is None,
{
}

/// Law: whenever resolution succeeds, the remote network differs from the
/// local one.
pub proof fn lemma_remote_network_differs(
    universal: Seq<Junction>,
    parents: int,
    dest_interior: Seq<Junction>,
)
    requires
        resolve_spec(universal, parents, dest_interior) is Some,
    ensures
        resolve_spec(universal, parents, dest_interior)->Some_0.0
            != resolve_spec(universal, parents, dest_interior)->Some_0.2,
{
}

} // verus!
