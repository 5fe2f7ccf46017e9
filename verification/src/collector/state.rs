//! What the collector contract keeps between commands.

use crate::addr::Addr;
use crate::owners::{with_owners, OwnerSet};
use vstd::prelude::*;

verus! {

/// The owners of the contract.
#[derive(Debug, PartialEq, Eq)]
pub struct State {
    /// The principals that may issue commands.
    pub owners: OwnerSet,
}

/// What a `State` stands for.
pub struct StateView {
    pub owners: Seq<Seq<char>>,
}

impl View for State {
    type V = StateView;

    open spec fn view(&self) -> StateView {
        StateView { owners: self.owners@ }
    }
}

impl Clone for State {
    fn clone(&self) -> (copy: Self)
        ensures
            copy@ == self@,
    {
        State { owners: self.owners.clone() }
    }
}

impl State {
    /// The state with the principals of `owners`, each once.
    pub fn new(owners: &Vec<Addr>) -> (state: Self)
        ensures
            state@ == (StateView { owners: with_owners(Seq::empty(), owners.deep_view()) }),
            state@.owners.no_duplicates(),
    {
        State { owners: OwnerSet::from_list(owners) }
    }
}

} // verus!
