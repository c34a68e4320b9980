//! What a module puts into the next consensus round.

use vstd::prelude::*;

verus! {

#[derive(Debug)]
pub enum ConsensusProposal<CI> {
    /// Trigger new epoch immediately including these consensus items
    Trigger(Vec<CI>),
    /// Contribute consensus items if other module triggers an epoch
    Contribute(Vec<CI>),
}

/// `outputs` holds, in order, what `f` gives for each of `inputs`.
pub open spec fn mapped<F: FnMut(A) -> B, A, B>(f: F, inputs: Seq<A>, outputs: Seq<B>) -> bool {
    &&& outputs.len() == inputs.len()
    &&& forall|i: int|
        0 <= i < inputs.len() ==> call_ensures(f, (#[trigger] inputs[i],), outputs[i])
}

impl<CI> ConsensusProposal<CI> {
    /// The consensus items, in order.
    pub open spec fn contents(self) -> Seq<CI> {
        match self {
            ConsensusProposal::Trigger(items) => items@,
            ConsensusProposal::Contribute(items) => items@,
        }
    }

    /// Nothing to contribute, and no epoch forced.
    pub fn empty() -> (proposal: Self)
        ensures
            proposal is Contribute,
            proposal.contents() == Seq::<CI>::empty(),
    {
        ConsensusProposal::Contribute(Vec::new())
    }

    /// Trigger new epoch if contains any elements, otherwise contribute
    /// nothing.
    pub fn new_auto_trigger(ci: Vec<CI>) -> (proposal: Self)
        ensures
            proposal is Trigger <==> ci@.len() > 0,
            proposal.contents() == ci@,
    {
        if ci.is_empty() {
            let proposal = ConsensusProposal::Contribute(Vec::new());
            assert(proposal.contents() =~= ci@);
            proposal
        } else {
            ConsensusProposal::Trigger(ci)
        }
    }

    /// Replaces each item by what `f` gives for it. Whether the proposal forces an
    /// epoch stays as it is.
    pub fn map<F, CIO>(self, f: F) -> (proposal: ConsensusProposal<CIO>) where F: FnMut(CI) -> CIO
        requires
            forall|i: int|
                0 <= i < self.contents().len() ==> call_requires(
                    f,
                    (#[trigger] self.contents()[i],),
                ),
        ensures
            proposal is Trigger <==> self is Trigger,
            mapped(f, self.contents(), proposal.contents()),
    {
        let ghost inputs = self.contents();
        match self {
            ConsensusProposal::Trigger(items) => {
                assert(items@ == inputs);
                ConsensusProposal::Trigger(map_items(items, f))
            },
            ConsensusProposal::Contribute(items) => {
                assert(items@ == inputs);
                ConsensusProposal::Contribute(map_items(items, f))
            },
        }
    }

    pub fn forces_new_epoch(&self) -> (forces: bool)
        ensures
            forces == (self is Trigger),
    {
        match self {
            ConsensusProposal::Trigger(_) => true,
            ConsensusProposal::Contribute(_) => false,
        }
    }

    pub fn items(&self) -> (items: &[CI])
        ensures
            items@ == self.contents(),
    {
        match self {
            ConsensusProposal::Trigger(items) => items.as_slice(),
            ConsensusProposal::Contribute(items) => items.as_slice(),
        }
    }

    pub fn into_items(self) -> (items: Vec<CI>)
        ensures
            items@ == self.contents(),
    {
        match self {
            ConsensusProposal::Trigger(items) => items,
            ConsensusProposal::Contribute(items) => items,
        }
    }
}

fn map_items<F, CI, CIO>(items: Vec<CI>, f: F) -> (outputs: Vec<CIO>) where F: FnMut(CI) -> CIO
    requires
        forall|i: int| 0 <= i < items@.len() ==> call_requires(f, (#[trigger] items@[i],)),
    ensures
        mapped(f, items@, outputs@),
{
    let mut f = f;
    let ghost f_at_start = f;
    let ghost inputs = items@;
    let mut outputs: Vec<CIO> = Vec::new();
    for item in it: items
        invariant
            it.seq() == inputs,
            f == f_at_start,
            forall|i: int| 0 <= i < inputs.len() ==> call_requires(f, (#[trigger] inputs[i],)),
            outputs@.len() == it.index(),
            forall|i: int|
                0 <= i < outputs@.len() ==> call_ensures(f, (#[trigger] inputs[i],), outputs@[i]),
    {
        outputs.push(f(item));
    }
    outputs
}

/// The contents of a proposal are the items that it was made of, all and in order, whether or
/// not it forces an epoch.
pub proof fn law_contents_are_the_items<CI>(items: Vec<CI>)
    ensures
        ConsensusProposal::Trigger(items).contents() == items@,
        ConsensusProposal::Contribute(items).contents() == items@,
{
}

/// Mapping keeps the number of items and their order: the item at each place comes from the
/// item at the same place.
pub proof fn law_mapping_goes_item_by_item<F: FnMut(A) -> B, A, B>(
    f: F,
    inputs: Seq<A>,
    outputs: Seq<B>,
    input: A,
    output: B,
)
    ensures
        mapped(f, Seq::<A>::empty(), outputs) <==> outputs.len() == 0,
        mapped(f, inputs, outputs) ==> outputs.len() == inputs.len(),
        mapped(f, inputs, outputs) && call_ensures(f, (input,), output) ==> mapped(
            f,
            inputs.push(input),
            outputs.push(output),
        ),
        mapped(f, inputs.push(input), outputs.push(output)) ==> call_ensures(f, (input,), output),
{
    if mapped(f, inputs.push(input), outputs.push(output)) {
        let last = inputs.len() as int;
        assert(inputs.push(input)[last] == input);
        assert(outputs.push(output)[last] == output);
    }
}

/// What each item becomes is what the function gives for it and for no other.
pub proof fn law_mapped_items_come_from_their_place<F: FnMut(A) -> B, A, B>(
    f: F,
    inputs: Seq<A>,
    outputs: Seq<B>,
    i: int,
)
    requires
        mapped(f, inputs, outputs),
        0 <= i < inputs.len(),
    ensures
        call_ensures(f, (inputs[i],), outputs[i]),
{
}

} // verus!
