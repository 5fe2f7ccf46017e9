//! Routing metadata of the destination chains.

use crate::error::ContractError;
use vstd::prelude::*;

verus! {

/// The relay jobs of one destination chain.
#[derive(Debug, PartialEq, Eq)]
pub struct ChainSetting {
    /// The job that carries deployment calls.
    pub compass_job_id: String,
    /// The job that carries every other call.
    pub main_job_id: String,
}

/// What a `ChainSetting` stands for.
pub struct ChainSettingView {
    pub compass_job_id: Seq<char>,
    pub main_job_id: Seq<char>,
}

impl View for ChainSetting {
    type V = ChainSettingView;

    open spec fn view(&self) -> ChainSettingView {
        ChainSettingView { compass_job_id: self.compass_job_id@, main_job_id: self.main_job_id@ }
    }
}

impl Clone for ChainSetting {
    fn clone(&self) -> (copy: Self)
        ensures
            copy@ == self@,
    {
        ChainSetting {
            compass_job_id: self.compass_job_id.clone(),
            main_job_id: self.main_job_id.clone(),
        }
    }
}

/// One chain with its setting.
#[derive(Debug)]
struct Entry {
    chain_id: String,
    setting: ChainSetting,
}

/// The settings of the registered chains, keyed by chain identifier.
#[derive(Debug)]
pub struct ChainRegistry {
    entries: Vec<Entry>,
}

impl View for ChainRegistry {
    type V = Map<Seq<char>, ChainSettingView>;

    /// The setting of each registered chain.
    closed spec fn view(&self) -> Map<Seq<char>, ChainSettingView> {
        Map::new(
            |chain_id: Seq<char>| self.chain_ids().contains(chain_id),
            |chain_id: Seq<char>| self.entries@[self.chain_ids().index_of(chain_id)].setting@,
        )
    }
}

impl ChainRegistry {
    /// The identifiers of the registered chains, in the order of the entries.
    closed spec fn chain_ids(&self) -> Seq<Seq<char>> {
        Seq::new(self.entries@.len(), |i: int| self.entries@[i].chain_id@)
    }

    #[verifier::type_invariant]
    spec fn no_chain_twice(&self) -> bool {
        self.chain_ids().no_duplicates()
    }

    /// The registry without any chain.
    pub fn new() -> (registry: Self)
        ensures
            registry@ == Map::<Seq<char>, ChainSettingView>::empty(),
    {
        let registry = ChainRegistry { entries: Vec::new() };
        assert(registry@ =~= Map::<Seq<char>, ChainSettingView>::empty());
        registry
    }

    /// The position of the entry of `chain_id`.
    fn position(&self, chain_id: &String) -> (at: Option<usize>)
        ensures
            match at {
                Some(i) => i < self.chain_ids().len() && self.chain_ids()[i as int] == chain_id@,
                None => !self.chain_ids().contains(chain_id@),
            },
    {
        let mut i: usize = 0;
        while i < self.entries.len()
            invariant
                0 <= i <= self.entries.len(),
                forall|j: int| 0 <= j < i ==> self.chain_ids()[j] != chain_id@,
            decreases self.entries.len() - i,
        {
            if self.entries[i].chain_id == *chain_id {
                return Some(i);
            }
            i = i + 1;
        }
        None
    }

    /// Whether `chain_id` is registered.
    pub fn contains(&self, chain_id: &String) -> (found: bool)
        ensures
            found == self@.contains_key(chain_id@),
    {
        self.position(chain_id).is_some()
    }

    /// The setting of `chain_id`. Fails with `NotFound` if the chain is not
    /// registered.
    pub fn get(&self, chain_id: &String) -> (r: Result<ChainSetting, ContractError>)
        ensures
            match r {
                Ok(setting) => self@.contains_key(chain_id@) && setting@ == self@[chain_id@],
                Err(e) => e == ContractError::NotFound && !self@.contains_key(chain_id@),
            },
    {
        proof {
            use_type_invariant(self);
        }
        match self.position(chain_id) {
            Some(at) => {
                assert(self.chain_ids().index_of(chain_id@) == at);
                Ok(self.entries[at].setting.clone())
            },
            None => Err(ContractError::NotFound),
        }
    }

    /// Registers `chain_id` with `setting`, in place of any setting that the
    /// chain had.
    pub fn set(&mut self, chain_id: String, setting: ChainSetting)
        ensures
            final(self)@ == old(self)@.insert(chain_id@, setting@),
    {
        proof {
            use_type_invariant(&*self);
        }
        let ghost before = *self;
        let ghost ids = self.chain_ids();
        let found = self.position(&chain_id);
        let mut entries: Vec<Entry> = Vec::new();
        assert(Seq::new(entries@.len(), |i: int| entries@[i].chain_id@).no_duplicates());
        std::mem::swap(&mut self.entries, &mut entries);
        let entry = Entry { chain_id, setting };
        match found {
            Some(at) => {
                entries[at] = entry;
                assert(Seq::new(entries@.len(), |i: int| entries@[i].chain_id@) =~= ids);
            },
            None => {
                entries.push(entry);
                assert(Seq::new(entries@.len(), |i: int| entries@[i].chain_id@) =~= ids.push(
                    entry.chain_id@,
                ));
                assert forall|i: int, j: int|
                    0 <= i < ids.len() + 1 && 0 <= j < ids.len() + 1 && i != j implies ids.push(
                    entry.chain_id@,
                )[i] != ids.push(entry.chain_id@)[j] by {
                    if i == ids.len() {
                        assert(ids.contains(ids[j]));
                    }
                    if j == ids.len() {
                        assert(ids.contains(ids[i]));
                    }
                }
            },
        }
        std::mem::swap(&mut self.entries, &mut entries);
        proof {
            let after = self.chain_ids();
            let target = before@.insert(entry.chain_id@, entry.setting@);
            assert forall|key: Seq<char>| self@.contains_key(key) == target.contains_key(key) by {
                if ids.contains(key) {
                    let k = ids.index_of(key);
                    assert(after[k] == key);
                }
                if after.contains(key) && key != entry.chain_id@ {
                    let k = after.index_of(key);
                    assert(ids[k] == key);
                }
                if key == entry.chain_id@ {
                    match found {
                        Some(at) => {
                            assert(after[at as int] == key);
                        },
                        None => {
                            assert(after[ids.len() as int] == key);
                        },
                    }
                }
            }
            assert forall|key: Seq<char>| self@.contains_key(key) implies self@[key]
                == target[key] by {
                let k = after.index_of(key);
                if key == entry.chain_id@ {
                    match found {
                        Some(at) => {
                            assert(after[at as int] == key);
                        },
                        None => {
                            assert(after[ids.len() as int] == key);
                        },
                    }
                } else {
                    assert(ids[k] == key);
                    assert(ids.index_of(key) == k);
                }
            }
            assert(self@ =~= target);
        }
    }
}

} // verus!
