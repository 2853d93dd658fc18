//! Messages and the origin-attribution wrapper.
//!
//! A message is an ordered sequence of instructions, opaque to this layer
//! except for the three instructions it builds itself: the origin marker,
//! the path descent, and the export request. Wrapping prepends the first
//! two so a remote system can reconstruct the sender's origin without
//! trusting the transport.

use vstd::prelude::*;

use crate::location::{InteriorLocation, Junction, NetworkId};

verus! {

broadcast use vstd::std_specs::vec::group_vec_axioms, vstd::seq::group_seq_axioms;

/// One instruction of a message. Only the first three variants mean
/// anything to this layer; the rest stand for payload instructions it
/// carries through untouched.
#[derive(Debug, PartialEq, Eq)]
pub enum Instruction {
    /// Declares that the message originates from the given global-network
    /// anchor.
    UniversalOrigin(Junction),
    /// Descends the attributed origin into an interior path.
    DescendOrigin(InteriorLocation),
    /// Requests that the executing system hand `xcm` off to a bridge for
    /// the named remote network and interior path.
    ExportMessage { network: NetworkId, destination: InteriorLocation, xcm: Xcm },
    /// A payload instruction: clears the attributed origin.
    ClearOrigin,
    /// A payload instruction: aborts with the given code.
    Trap(u64),
}

/// An ordered sequence of instructions.
#[derive(Debug, PartialEq, Eq)]
pub struct Xcm {
    pub instructions: Vec<Instruction>,
}

/// Mathematical model of an [`Instruction`], with sequences in place of
/// vectors throughout.
pub enum InstructionView {
    UniversalOrigin(Junction),
    DescendOrigin(Seq<Junction>),
    ExportMessage { network: NetworkId, destination: Seq<Junction>, xcm: Seq<InstructionView> },
    ClearOrigin,
    Trap(u64),
}

pub open spec fn instruction_view(i: Instruction) -> InstructionView
    decreases i,
{
    match i {
        Instruction::UniversalOrigin(j) => InstructionView::UniversalOrigin(j),
        Instruction::DescendOrigin(l) => InstructionView::DescendOrigin(l@),
        Instruction::ExportMessage { network, destination, xcm } => InstructionView::ExportMessage {
            network,
            destination: destination@,
            xcm: instructions_view(xcm.instructions@),
        },
        Instruction::ClearOrigin => InstructionView::ClearOrigin,
        Instruction::Trap(x) => InstructionView::Trap(x),
    }
}

pub open spec fn instructions_view(s: Seq<Instruction>) -> Seq<InstructionView>
    decreases s,
{
    if s.len() == 0 {
        Seq::empty()
    } else {
        seq![instruction_view(s[0])] + instructions_view(s.skip(1))
    }
}

impl View for Instruction {
    type V = InstructionView;

    open spec fn view(&self) -> InstructionView {
        instruction_view(*self)
    }
}

impl View for Xcm {
    type V = Seq<InstructionView>;

    open spec fn view(&self) -> Seq<InstructionView> {
        instructions_view(self.instructions@)
    }
}

pub proof fn lemma_instructions_view_index(s: Seq<Instruction>)
    ensures
        instructions_view(s).len() == s.len(),
        forall|j: int| 0 <= j < s.len() ==> instructions_view(s)[j] == instruction_view(s[j]),
    decreases s.len(),
{
    if s.len() > 0 {
        lemma_instructions_view_index(s.skip(1));
    }
}

pub proof fn lemma_instructions_view_concat(a: Seq<Instruction>, b: Seq<Instruction>)
    ensures
        instructions_view(a + b) == instructions_view(a) + instructions_view(b),
    decreases a.len(),
{
    if a.len() == 0 {
        assert(a + b =~= b);
        assert(instructions_view(a) + instructions_view(b) =~= instructions_view(b));
    } else {
        lemma_instructions_view_concat(a.skip(1), b);
        assert((a + b).skip(1) =~= a.skip(1) + b);
        assert(seq![instruction_view((a + b)[0])] + (instructions_view(a.skip(1))
            + instructions_view(b)) =~= (seq![instruction_view(a[0])]
            + instructions_view(a.skip(1))) + instructions_view(b));
    }
}

#[verifier::loop_isolation(false)]
fn clone_instructions(v: &Vec<Instruction>) -> (r: Vec<Instruction>)
    ensures
        instructions_view(r@) == instructions_view(v@),
    decreases v,
{
    let mut out: Vec<Instruction> = Vec::new();
    let mut k: usize = 0;
    while k < v.len()
        invariant
            k <= v@.len(),
            out@.len() == k as int,
            forall|j: int| 0 <= j < k ==> instruction_view(out@[j]) == instruction_view(v@[j]),
        decreases v@.len() - k,
    {
        let c = clone_instruction(&v[k]);
        out.push(c);
        k = k + 1;
    }
    proof {
        lemma_instructions_view_index(out@);
        lemma_instructions_view_index(v@);
        assert(instructions_view(out@) =~= instructions_view(v@));
    }
    out
}

fn clone_instruction(i: &Instruction) -> (r: Instruction)
    ensures
        instruction_view(r) == instruction_view(*i),
    decreases i,
{
    match i {
        Instruction::UniversalOrigin(j) => Instruction::UniversalOrigin(*j),
        Instruction::DescendOrigin(l) => Instruction::DescendOrigin(l.clone()),
        Instruction::ExportMessage { network, destination, xcm } => {
            let inner = clone_instructions(&xcm.instructions);
            Instruction::ExportMessage {
                network: *network,
                destination: destination.clone(),
                xcm: Xcm { instructions: inner },
            }
        },
        Instruction::ClearOrigin => Instruction::ClearOrigin,
        Instruction::Trap(x) => Instruction::Trap(*x),
    }
}

impl Clone for Instruction {
    fn clone(&self) -> (r: Self)
        ensures
            r@ == self@,
    {
        clone_instruction(self)
    }
}

impl Clone for Xcm {
    fn clone(&self) -> (r: Self)
        ensures
            r@ == self@,
    {
        Xcm { instructions: clone_instructions(&self.instructions) }
    }
}

/// What wrapping yields: the two attribution instructions, then every
/// instruction of `body` in its original order.
pub open spec fn wrap_spec(
    local_network: NetworkId,
    local_location: Seq<Junction>,
    body: Seq<InstructionView>,
) -> Seq<InstructionView> {
    seq![
        InstructionView::UniversalOrigin(Junction::GlobalConsensus(local_network)),
        InstructionView::DescendOrigin(local_location),
    ] + body
}

/// Prefix the message with the caller's origin: first the global-network
/// marker of `local_network`, then a descent into `local_location`, then
/// every instruction of `xcm` unchanged and in order.
pub fn wrap_message(local_network: NetworkId, local_location: InteriorLocation, xcm: Xcm) -> (r:
    Xcm)
    ensures
        r@ == wrap_spec(local_network, local_location@, xcm@),
{
    let mut instructions: Vec<Instruction> = Vec::new();
    instructions.push(Instruction::UniversalOrigin(Junction::GlobalConsensus(local_network)));
    instructions.push(Instruction::DescendOrigin(local_location));
    let ghost prefix = instructions@;
    let mut body = xcm.instructions;
    instructions.append(&mut body);
    proof {
        lemma_instructions_view_concat(prefix, xcm.instructions@);
        lemma_instructions_view_index(prefix);
        assert(instructions_view(prefix) =~= seq![
            InstructionView::UniversalOrigin(Junction::GlobalConsensus(local_network)),
            InstructionView::DescendOrigin(local_location@),
        ]);
    }
    Xcm { instructions }
}

/// The inverse reading of a wrapped message: the origin network, the
/// descent path, and the body that follows them. `None` when the message
/// does not start with the two attribution instructions.
pub open spec fn unwrap_spec(m: Seq<InstructionView>) -> Option<
    (NetworkId, Seq<Junction>, Seq<InstructionView>),
> {
    if m.len() >= 2 && (m[0] matches InstructionView::UniversalOrigin(Junction::GlobalConsensus(_)))
        && (m[1] is DescendOrigin) {
        Some(
            (
                m[0]->UniversalOrigin_0->GlobalConsensus_0,
                m[1]->DescendOrigin_0,
                m.skip(2),
            ),
        )
    } else {
        None
    }
}

/// Law: a peer that applies the inverse of the wrap operation to a wrapped
/// message recovers the origin, the descent path, and the original body.
pub proof fn lemma_wrap_round_trip(
    local_network: NetworkId,
    local_location: Seq<Junction>,
    body: Seq<InstructionView>,
)
    ensures
        unwrap_spec(wrap_spec(local_network, local_location, body)) == Some(
            (local_network, local_location, body),
        ),
{
    assert(wrap_spec(local_network, local_location, body).skip(2) =~= body);
}

/// Strip the two attribution instructions off the front of a wrapped
/// message, recovering the origin network, the descent path, and the body.
pub fn unwrap_message(message: Xcm) -> (r: Option<(NetworkId, InteriorLocation, Xcm)>)
    ensures
        match unwrap_spec(message@) {
            Some(t) => r matches Some(u) && u.0 == t.0 && u.1@ == t.1 && u.2@ == t.2,
            None => r is None,
        },
{
    proof {
        lemma_instructions_view_index(message.instructions@);
    }
    let mut instructions = message.instructions;
    if instructions.len() < 2 {
        return None;
    }
    let first = instructions.remove(0);
    let second = instructions.remove(0);
    proof {
        assert(instructions@ =~= message.instructions@.skip(2));
        lemma_instructions_view_skip(message.instructions@, 2);
    }
    match (first, second) {
        (Instruction::UniversalOrigin(Junction::GlobalConsensus(n)), Instruction::DescendOrigin(
            p,
        )) => Some((n, p, Xcm { instructions })),
        _ => None,
    }
}

pub proof fn lemma_instructions_view_skip(s: Seq<Instruction>, k: int)
    requires
        0 <= k <= s.len(),
    ensures
        instructions_view(s.skip(k)) == instructions_view(s).skip(k),
{
    lemma_instructions_view_index(s);
    lemma_instructions_view_index(s.skip(k));
    assert(instructions_view(s.skip(k)) =~= instructions_view(s).skip(k));
}

} // verus!
