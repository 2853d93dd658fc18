//! The hash-chained block execution routine of a minimal parachain: a head
//! carries the block number, its parent's hash and a digest of the
//! post-execution state; executing a block checks the chain, erects the
//! requested tombstones in the graveyard, and produces the next head.

use vstd::prelude::*;

use tiny_keccak::{Hasher, Keccak};

use crate::codec::{
    bytes32_eq, compact_len_encoding, push_bytes32, push_compact_len, push_u64_le, u64_le_bytes,
    u64_seq_encoding, lemma_u64_seq_encoding_push,
};

verus! {

broadcast use vstd::std_specs::vec::group_vec_axioms, vstd::seq::group_seq_axioms;

/// The keccak-256 digest of a byte string. The digest is a function of the
/// input bytes alone; nothing further is assumed of it.
pub uninterp spec fn keccak_of(input: Seq<u8>) -> Seq<u8>;

/// Relies on tiny_keccak's `Keccak::v256` with `update` and `finalize`:
/// the 32-byte keccak-256 digest depends on the input bytes alone.
#[verifier::external_body]
fn keccak256(input: &Vec<u8>) -> (out: [u8; 32])
    ensures
        out@ == keccak_of(input@),
{
    let mut out = [0u8; 32];
    let mut hasher = Keccak::v256();
    hasher.update(input.as_slice());
    hasher.finalize(&mut out);
    out
}

/// Head data for this parachain.
#[derive(Clone, Copy, Debug, PartialEq, Eq)]
pub struct HeadData {
    /// Block number.
    pub number: u64,
    /// Keccak-256 digest of the parent block's head data.
    pub parent_hash: [u8; 32],
    /// Digest of the post-execution state.
    pub post_state: [u8; 32],
}

/// The encoding a head is hashed under: the block number little-endian,
/// then the two digests as they stand.
pub open spec fn head_data_encoding(h: HeadData) -> Seq<u8> {
    u64_le_bytes(h.number) + h.parent_hash@ + h.post_state@
}

impl HeadData {
    /// The byte encoding of this head.
    pub fn encode(&self) -> (r: Vec<u8>)
        ensures
            r@ == head_data_encoding(*self),
    {
        let mut out: Vec<u8> = Vec::new();
        push_u64_le(&mut out, self.number);
        push_bytes32(&mut out, &self.parent_hash);
        push_bytes32(&mut out, &self.post_state);
        proof {
            assert(out@ =~= head_data_encoding(*self));
        }
        out
    }

    /// The keccak-256 digest of this head's encoding.
    pub fn hash(&self) -> (r: [u8; 32])
        ensures
            r@ == keccak_of(head_data_encoding(*self)),
    {
        let bytes = self.encode();
        keccak256(&bytes)
    }
}

/// The graveyard the parachain keeps as its state: a grid of graves, each
/// counting the tombstones erected on it, and the index the next block
/// starts erecting at.
#[derive(Debug, PartialEq, Eq)]
pub struct GraveyardState {
    /// The grave index of the last tombstone.
    pub index: u64,
    /// Each element counts the tombstones erected on one grave.
    pub graveyard: Vec<u64>,
}

/// The encoding a state is hashed under: the index little-endian, then the
/// graveyard behind its compact-encoded length.
pub open spec fn graveyard_state_encoding(g: GraveyardState) -> Seq<u8> {
    u64_le_bytes(g.index) + compact_len_encoding(g.graveyard@.len() as u32) + u64_seq_encoding(
        g.graveyard@,
    )
}

impl GraveyardState {
    /// The byte encoding of this state.
    #[verifier::loop_isolation(false)]
    pub fn encode(&self) -> (r: Vec<u8>)
        requires
            self.graveyard@.len() <= u32::MAX,
        ensures
            r@ == graveyard_state_encoding(*self),
    {
        let mut out: Vec<u8> = Vec::new();
        push_u64_le(&mut out, self.index);
        push_compact_len(&mut out, self.graveyard.len() as u32);
        let ghost header = out@;
        let mut k: usize = 0;
        while k < self.graveyard.len()
            invariant
                k <= self.graveyard@.len(),
                out@ == header + u64_seq_encoding(self.graveyard@.take(k as int)),
            decreases self.graveyard@.len() - k,
        {
            push_u64_le(&mut out, self.graveyard[k]);
            proof {
                lemma_u64_seq_encoding_push(self.graveyard@.take(k as int), self.graveyard@[
                    k as int
                ]);
                assert(self.graveyard@.take(k as int).push(self.graveyard@[k as int])
                    =~= self.graveyard@.take(k + 1 as int));
                assert(out@ =~= header + u64_seq_encoding(self.graveyard@.take(k + 1 as int)));
            }
            k = k + 1;
        }
        proof {
            assert(self.graveyard@.take(self.graveyard@.len() as int) =~= self.graveyard@);
            assert(out@ =~= graveyard_state_encoding(*self));
        }
        out
    }
}

/// The keccak-256 digest of the state's encoding.
pub fn hash_state(state: &GraveyardState) -> (r: [u8; 32])
    requires
        state.graveyard@.len() <= u32::MAX,
    ensures
        r@ == keccak_of(graveyard_state_encoding(*state)),
{
    let bytes = state.encode();
    keccak256(&bytes)
}

/// Block data for this parachain.
#[derive(Debug, PartialEq, Eq)]
pub struct BlockData {
    /// The state the block starts from.
    pub state: GraveyardState,
    /// The number of tombstones to erect.
    pub tombstones: u64,
}

/// Start state mismatched with the parent header's state hash.
#[derive(Debug, PartialEq, Eq)]
pub struct StateMismatch;

/// A counter after one more tombstone, wrapping at the top.
pub open spec fn wrap_inc(x: u64) -> u64 {
    if x == u64::MAX {
        0
    } else {
        (x + 1) as u64
    }
}

/// The graveyard after a block: one more tombstone on each grave from
/// `index` up to but not including `index + tombstones`, the rest as they
/// were.
pub open spec fn graveyard_after(g: Seq<u64>, index: u64, tombstones: u64) -> Seq<u64> {
    Seq::new(g.len(), |j: int| if index <= j < index + tombstones {
        wrap_inc(g[j])
    } else {
        g[j]
    })
}

/// The index the next block starts at: past the erected tombstones,
/// wrapped around the graveyard; the sum saturates at the top of `u64`.
pub open spec fn index_after(index: u64, tombstones: u64, len: int) -> int {
    let sum: int = if index + tombstones <= u64::MAX {
        index + tombstones
    } else {
        u64::MAX as int
    };
    sum % len
}

/// Erect the block's tombstones: add one, wrapping, to every grave from
/// the state's index up to but not including `index + tombstones`, and move
/// the index past them, wrapped around the graveyard.
#[verifier::loop_isolation(false)]
pub fn execute_transaction(block_data: BlockData) -> (r: GraveyardState)
    requires
        block_data.state.graveyard@.len() > 0,
        block_data.tombstones > 0 ==> block_data.state.index + block_data.tombstones
            <= block_data.state.graveyard@.len(),
    ensures
        r.graveyard@ == graveyard_after(
            block_data.state.graveyard@,
            block_data.state.index,
            block_data.tombstones,
        ),
        r.index == index_after(
            block_data.state.index,
            block_data.tombstones,
            block_data.state.graveyard@.len() as int,
        ),
{
    let mut state = block_data.state;
    let tombstones = block_data.tombstones;
    let ghost orig = state.graveyard@;
    let glen = state.graveyard.len();
    let mut i: u64 = 0;
    while i < tombstones
        invariant
            i <= tombstones,
            state.index == block_data.state.index,
            state.graveyard@.len() == orig.len(),
            orig.len() == glen as int,
            tombstones > 0 ==> state.index + tombstones <= glen,
            forall|j: int| 0 <= j < orig.len() && state.index <= j < state.index + i
                ==> state.graveyard@[j] == wrap_inc(orig[j]),
            forall|j: int| 0 <= j < orig.len() && !(state.index <= j < state.index + i)
                ==> state.graveyard@[j] == orig[j],
        decreases tombstones - i,
    {
        proof {
            assert(state.index + i < glen);
        }
        let idx = (state.index + i) as usize;
        let cur = state.graveyard[idx];
        state.graveyard[idx] = cur.wrapping_add(1);
        i = i + 1;
    }
    proof {
        assert(state.graveyard@ =~= graveyard_after(orig, block_data.state.index, tombstones));
    }
    let len = state.graveyard.len() as u64;
    state.index = state.index.saturating_add(tombstones) % len;
    state
}

/// Execute a block body on top of the given parent head, producing the new
/// head and the new state if the block's start state matches the head's
/// state digest. `StateMismatch` comes back exactly when it does not.
pub fn execute(parent_hash: [u8; 32], parent_head: HeadData, block_data: BlockData) -> (r: Result<
    (HeadData, GraveyardState),
    StateMismatch,
>)
    requires
        parent_hash@ == keccak_of(head_data_encoding(parent_head)),
        parent_head.number < u64::MAX,
        block_data.state.graveyard@.len() > 0,
        block_data.state.graveyard@.len() <= u32::MAX,
        block_data.tombstones > 0 ==> block_data.state.index + block_data.tombstones
            <= block_data.state.graveyard@.len(),
    ensures
        match r {
            Ok(p) => keccak_of(graveyard_state_encoding(block_data.state))
                == parent_head.post_state@ && p.0.number == parent_head.number + 1
                && p.0.parent_hash@ == parent_hash@ && p.1.graveyard@ == graveyard_after(
                block_data.state.graveyard@,
                block_data.state.index,
                block_data.tombstones,
            ) && p.1.index == index_after(
                block_data.state.index,
                block_data.tombstones,
                block_data.state.graveyard@.len() as int,
            ) && p.0.post_state@ == keccak_of(graveyard_state_encoding(p.1)),
            Err(_) => keccak_of(graveyard_state_encoding(block_data.state))
                != parent_head.post_state@,
        },
{
    let start_state_hash = hash_state(&block_data.state);
    if !bytes32_eq(&start_state_hash, &parent_head.post_state) {
        return Err(StateMismatch);
    }
    let new_state = execute_transaction(block_data);
    let post_state = hash_state(&new_state);
    let head = HeadData { number: parent_head.number + 1, parent_hash, post_state };
    Ok((head, new_state))
}

/// Check that `parent_hash` really is the digest of `parent_head` before
/// executing: `None` when it is not, otherwise the verdict of [`execute`].
pub fn execute_checked(parent_hash: [u8; 32], parent_head: HeadData, block_data: BlockData) -> (r:
    Option<Result<(HeadData, GraveyardState), StateMismatch>>)
    requires
        parent_head.number < u64::MAX,
        block_data.state.graveyard@.len() > 0,
        block_data.state.graveyard@.len() <= u32::MAX,
        block_data.tombstones > 0 ==> block_data.state.index + block_data.tombstones
            <= block_data.state.graveyard@.len(),
    ensures
        r is Some <==> parent_hash@ == keccak_of(head_data_encoding(parent_head)),
        match r {
            Some(Ok(p)) => keccak_of(graveyard_state_encoding(block_data.state))
                == parent_head.post_state@ && p.0.number == parent_head.number + 1
                && p.0.parent_hash@ == parent_hash@ && p.1.graveyard@ == graveyard_after(
                block_data.state.graveyard@,
                block_data.state.index,
                block_data.tombstones,
            ) && p.1.index == index_after(
                block_data.state.index,
                block_data.tombstones,
                block_data.state.graveyard@.len() as int,
            ) && p.0.post_state@ == keccak_of(graveyard_state_encoding(p.1)),
            Some(Err(_)) => keccak_of(graveyard_state_encoding(block_data.state))
                != parent_head.post_state@,
            None => true,
        },
{
    let own_hash = parent_head.hash();
    if bytes32_eq(&parent_hash, &own_hash) {
        Some(execute(parent_hash, parent_head, block_data))
    } else {
        None
    }
}

} // verus!
