//! The location model: hierarchical addresses of consensus systems.
//!
//! A location is an ordered sequence of junctions, possibly preceded by a
//! number of `Parent` moves up the hierarchy. An interior location carries
//! no `Parent` moves: it only descends. A universal location is an interior
//! location whose outermost (first) junction is a global-network marker,
//! anchoring the whole path to that network.

use vstd::prelude::*;

verus! {

broadcast use vstd::std_specs::vec::group_vec_axioms, vstd::seq::group_seq_axioms;

/// Identifier of a global consensus network.
#[derive(Clone, Copy, PartialEq, Eq, Structural, Debug)]
pub enum NetworkId {
    Polkadot,
    Kusama,
    Westend,
    Rococo,
}

/// One step of a location: a global-network marker, or a named child system
/// within the current one.
#[derive(Clone, Copy, PartialEq, Eq, Structural, Debug)]
pub enum Junction {
    /// Anchor to a global consensus network.
    GlobalConsensus(NetworkId),
    /// A parachain of the current network, by its id.
    Parachain(u32),
    /// A pallet within the current system, by its instance index.
    PalletInstance(u8),
}

/// A location made only of descending junctions: a position inside one
/// consensus system, with no `Parent` moves.
#[derive(Debug, PartialEq, Eq)]
pub struct InteriorLocation {
    pub junctions: Vec<Junction>,
}

impl View for InteriorLocation {
    type V = Seq<Junction>;

    open spec fn view(&self) -> Seq<Junction> {
        self.junctions@
    }
}

impl Clone for InteriorLocation {
    fn clone(&self) -> (r: Self)
        ensures
            r@ == self@,
    {
        let j = self.junctions.clone();
        proof {
            assert(j@ =~= self.junctions@);
        }
        InteriorLocation { junctions: j }
    }
}

/// Mathematical model of a [`Location`]: the count of leading `Parent`
/// moves and the sequence of junctions that follows them.
pub struct LocationView {
    pub parents: u8,
    pub interior: Seq<Junction>,
}

/// A location relative to some frame: first `parents` moves up the
/// hierarchy, then the junctions of `interior` downward.
#[derive(Debug, PartialEq, Eq)]
pub struct Location {
    pub parents: u8,
    pub interior: InteriorLocation,
}

impl View for Location {
    type V = LocationView;

    open spec fn view(&self) -> LocationView {
        LocationView { parents: self.parents, interior: self.interior@ }
    }
}

impl Clone for Location {
    fn clone(&self) -> (r: Self)
        ensures
            r@ == self@,
    {
        Location { parents: self.parents, interior: self.interior.clone() }
    }
}

impl InteriorLocation {
    /// The interior location of the current position itself: no junctions.
    pub fn here() -> (r: Self)
        ensures
            r@ == Seq::<Junction>::empty(),
    {
        InteriorLocation { junctions: Vec::new() }
    }

    pub fn new(junctions: Vec<Junction>) -> (r: Self)
        ensures
            r@ == junctions@,
    {
        InteriorLocation { junctions }
    }

    /// Split off the outermost element: the first junction, which anchors
    /// the rest of the path.
    pub fn split_first(self) -> (r: (Self, Option<Junction>))
        ensures
            self@.len() == 0 ==> r.0@ == self@ && r.1 is None,
            self@.len() > 0 ==> r.0@ == self@.skip(1) && r.1 == Some(self@[0]),
    {
        let mut junctions = self.junctions;
        if junctions.len() == 0 {
            (InteriorLocation { junctions }, None)
        } else {
            let first = junctions.remove(0);
            proof {
                assert(junctions@ =~= self@.skip(1));
            }
            (InteriorLocation { junctions }, Some(first))
        }
    }

    /// This interior path as a full location, relative to nothing.
    pub fn into_location(self) -> (r: Location)
        ensures
            r@.parents == 0,
            r@.interior == self@,
    {
        Location { parents: 0, interior: self }
    }
}

/// What concatenating `suffix` onto `base` yields: each leading `Parent` of
/// `suffix` strips one junction off the end of `base`'s interior, and the
/// rest of `suffix` is appended. `None` when `suffix` climbs above what
/// `base`'s interior holds.
pub open spec fn appended_spec(base: LocationView, suffix: LocationView) -> Option<LocationView> {
    if suffix.parents <= base.interior.len() {
        Some(LocationView {
            parents: base.parents,
            interior: base.interior.take(base.interior.len() - suffix.parents) + suffix.interior,
        })
    } else {
        None
    }
}

impl Location {
    pub fn new(parents: u8, interior: InteriorLocation) -> (r: Self)
        ensures
            r@.parents == parents,
            r@.interior == interior@,
    {
        Location { parents, interior }
    }

    /// Concatenate `suffix` onto `self`, resolving each leading `Parent` of
    /// `suffix` against the junctions already in place. Fails structurally,
    /// handing `suffix` back, when it climbs higher than `self`'s interior
    /// reaches.
    pub fn appended_with(self, suffix: Location) -> (r: Result<Location, Location>)
        ensures
            match appended_spec(self@, suffix@) {
                Some(v) => r matches Ok(l) && l@ == v,
                None => r matches Err(s) && s == suffix,
            },
    {
        let mut junctions = self.interior.junctions;
        let up = suffix.parents as usize;
        if up > junctions.len() {
            return Err(suffix);
        }
        let keep = junctions.len() - up;
        junctions.truncate(keep);
        let mut tail = suffix.interior.junctions;
        junctions.append(&mut tail);
        proof {
            assert(junctions@ =~= self@.interior.take(self@.interior.len() - suffix@.parents)
                + suffix@.interior);
        }
        Ok(Location { parents: self.parents, interior: InteriorLocation { junctions } })
    }
}

} // verus!
