//! What the manager contract keeps between commands.

use crate::addr::Addr;
use crate::owners::{with_owners, OwnerSet};
use vstd::prelude::*;

pub use crate::registry::{ChainRegistry, ChainSetting, ChainSettingView};

verus! {

/// The owners and the configuration of the contract.
#[derive(Debug, PartialEq, Eq)]
pub struct State {
    /// The principals that may issue commands.
    pub owners: OwnerSet,
    /// The delay after which the relay retries; this contract only keeps it.
    pub retry_delay: u64,
}

/// What a `State` stands for.
pub struct StateView {
    pub owners: Seq<Seq<char>>,
    pub retry_delay: u64,
}

impl View for State {
    type V = StateView;

    open spec fn view(&self) -> StateView {
        StateView { owners: self.owners@, retry_delay: self.retry_delay }
    }
}

impl Clone for State {
    fn clone(&self) -> (copy: Self)
        ensures
            copy@ == self@,
    {
        State { owners: self.owners.clone(), retry_delay: self.retry_delay }
    }
}

impl State {
    /// The state with the principals of `owners`, each once, and this delay.
    pub fn new(owners: &Vec<Addr>, retry_delay: u64) -> (state: Self)
        ensures
            state@ == (StateView {
                owners: with_owners(Seq::empty(), owners.deep_view()),
                retry_delay,
            }),
            state@.owners.no_duplicates(),
    {
        State { owners: OwnerSet::from_list(owners), retry_delay }
    }
}

} // verus!
