//! The set of principals that may issue commands.

use crate::addr::Addr;
use crate::error::ContractError;
use vstd::prelude::*;

verus! {

/// `owners` with `owner` added at the end, unless it is a member already.
pub open spec fn with_owner(owners: Seq<Seq<char>>, owner: Seq<char>) -> Seq<Seq<char>> {
    if owners.contains(owner) {
        owners
    } else {
        owners.push(owner)
    }
}

/// `owners` with each of `added` added in turn.
pub open spec fn with_owners(owners: Seq<Seq<char>>, added: Seq<Seq<char>>) -> Seq<Seq<char>>
    decreases added.len(),
{
    if added.len() == 0 {
        owners
    } else {
        with_owner(with_owners(owners, added.drop_last()), added.last())
    }
}

/// `owners` with the member `owner` taken out; the others keep their order.
pub open spec fn without_owner(owners: Seq<Seq<char>>, owner: Seq<char>) -> Seq<Seq<char>>
    recommends
        owners.contains(owner),
{
    owners.remove(owners.index_of(owner))
}

/// Adding a principal keeps a list free of duplicates.
pub proof fn lemma_with_owner_no_duplicates(owners: Seq<Seq<char>>, owner: Seq<char>)
    requires
        owners.no_duplicates(),
    ensures
        with_owner(owners, owner).no_duplicates(),
{
    if !owners.contains(owner) {
        let grown = owners.push(owner);
        assert forall|i: int, j: int| 0 <= i < grown.len() && 0 <= j < grown.len() && i != j implies grown[i] != grown[j] by {
            if i == owners.len() {
                assert(owners.contains(grown[j]));
            }
            if j == owners.len() {
                assert(owners.contains(grown[i]));
            }
        }
    }
}

/// Adding principals keeps a list free of duplicates.
pub proof fn lemma_with_owners_no_duplicates(owners: Seq<Seq<char>>, added: Seq<Seq<char>>)
    requires
        owners.no_duplicates(),
    ensures
        with_owners(owners, added).no_duplicates(),
    decreases added.len(),
{
    if added.len() > 0 {
        lemma_with_owners_no_duplicates(owners, added.drop_last());
        lemma_with_owner_no_duplicates(with_owners(owners, added.drop_last()), added.last());
    }
}

/// Adding a principal that is a member changes nothing; so adding any
/// principal twice is the same as adding it once.
pub proof fn lemma_with_owner_idempotent(owners: Seq<Seq<char>>, owner: Seq<char>)
    ensures
        owners.contains(owner) ==> with_owner(owners, owner) == owners,
        with_owner(with_owner(owners, owner), owner) == with_owner(owners, owner),
        with_owner(owners, owner).contains(owner),
{
    if !owners.contains(owner) {
        assert(owners.push(owner)[owners.len() as int] == owner);
    }
}

/// Adding principals takes no member out, and each of them is a member
/// afterwards.
pub proof fn lemma_with_owners_grows(owners: Seq<Seq<char>>, added: Seq<Seq<char>>)
    ensures
        forall|member: Seq<char>|
            owners.contains(member) ==> #[trigger] with_owners(owners, added).contains(member),
        forall|i: int|
            0 <= i < added.len() ==> with_owners(owners, added).contains(#[trigger] added[i]),
        owners.len() <= with_owners(owners, added).len(),
    decreases added.len(),
{
    if added.len() > 0 {
        let before = with_owners(owners, added.drop_last());
        let after = with_owners(owners, added);
        lemma_with_owners_grows(owners, added.drop_last());
        lemma_with_owner_idempotent(before, added.last());
        assert forall|member: Seq<char>| before.contains(member) implies after.contains(
            member,
        ) by {
            if !before.contains(added.last()) {
                let k = before.index_of(member);
                assert(after[k] == member);
            }
        }
        assert forall|i: int| 0 <= i < added.len() implies after.contains(
            #[trigger] added[i],
        ) by {
            if i < added.len() - 1 {
                assert(added.drop_last()[i] == added[i]);
            }
        }
    }
}

/// Adding principals that are all members changes nothing.
pub proof fn lemma_with_owners_of_members(owners: Seq<Seq<char>>, added: Seq<Seq<char>>)
    requires
        forall|i: int| 0 <= i < added.len() ==> owners.contains(#[trigger] added[i]),
    ensures
        with_owners(owners, added) == owners,
    decreases added.len(),
{
    if added.len() > 0 {
        assert forall|i: int| 0 <= i < added.drop_last().len() implies owners.contains(
            #[trigger] added.drop_last()[i],
        ) by {
            assert(added.drop_last()[i] == added[i]);
        }
        lemma_with_owners_of_members(owners, added.drop_last());
        assert(owners.contains(added[added.len() - 1]));
    }
}

/// Taking a member out of a list free of duplicates leaves a list free of
/// duplicates that holds every other member and no longer holds that one.
pub proof fn lemma_without_owner(owners: Seq<Seq<char>>, owner: Seq<char>)
    requires
        owners.no_duplicates(),
        owners.contains(owner),
    ensures
        without_owner(owners, owner).no_duplicates(),
        without_owner(owners, owner).len() == owners.len() - 1,
        !without_owner(owners, owner).contains(owner),
        forall|other: Seq<char>|
            other != owner ==> (#[trigger] without_owner(owners, owner).contains(other)
                <==> owners.contains(other)),
{
    let at = owners.index_of(owner);
    let rest = owners.remove(at);
    assert forall|i: int| 0 <= i < rest.len() implies #[trigger] rest[i] == owners[if i < at {
        i
    } else {
        i + 1
    }] by {}
    assert forall|other: Seq<char>| other != owner implies (#[trigger] rest.contains(other)
        <==> owners.contains(other)) by {
        if owners.contains(other) {
            let k = owners.index_of(other);
            if k < at {
                assert(rest[k] == other);
            } else {
                assert(rest[k - 1] == other);
            }
        }
    }
}

/// A list of principals in which none occurs twice, in the order in which
/// they were added.
#[derive(Debug, PartialEq, Eq)]
pub struct OwnerSet {
    owners: Vec<Addr>,
}

impl View for OwnerSet {
    type V = Seq<Seq<char>>;

    /// The texts of the members, in order.
    closed spec fn view(&self) -> Seq<Seq<char>> {
        self.owners.deep_view()
    }
}

impl Clone for OwnerSet {
    fn clone(&self) -> (copy: Self)
        ensures
            copy@ == self@,
    {
        proof {
            use_type_invariant(self);
        }
        OwnerSet { owners: self.to_vec() }
    }
}

impl OwnerSet {
    #[verifier::type_invariant]
    spec fn no_member_twice(&self) -> bool {
        self.owners.deep_view().no_duplicates()
    }

    /// The empty set.
    pub fn new() -> (set: Self)
        ensures
            set@ == Seq::<Seq<char>>::empty(),
    {
        let set = OwnerSet { owners: Vec::new() };
        assert(set.owners.deep_view() =~= Seq::<Seq<char>>::empty());
        set
    }

    /// The set that holds each principal of `initial` once, in the order of
    /// their first occurrence.
    pub fn from_list(initial: &Vec<Addr>) -> (set: Self)
        ensures
            set@ == with_owners(Seq::empty(), initial.deep_view()),
            set@.no_duplicates(),
    {
        let mut set = OwnerSet::new();
        set.add_all(initial);
        set
    }

    /// The number of members; none of them occurs twice.
    pub fn len(&self) -> (n: usize)
        ensures
            n == self@.len(),
            self@.no_duplicates(),
    {
        proof {
            use_type_invariant(self);
        }
        self.owners.len()
    }

    /// The position of `principal` among the members.
    fn position(&self, principal: &Addr) -> (at: Option<usize>)
        ensures
            match at {
                Some(i) => i < self@.len() && self@[i as int] == principal@,
                None => !self@.contains(principal@),
            },
    {
        let mut i: usize = 0;
        while i < self.owners.len()
            invariant
                0 <= i <= self.owners.len(),
                forall|j: int| 0 <= j < i ==> self.owners.deep_view()[j] != principal@,
            decreases self.owners.len() - i,
        {
            if self.owners[i].same(principal) {
                return Some(i);
            }
            i = i + 1;
        }
        None
    }

    /// Whether `principal` is a member.
    pub fn is_owner(&self, principal: &Addr) -> (member: bool)
        ensures
            member == self@.contains(principal@),
    {
        self.position(principal).is_some()
    }

    /// Fails with `Unauthorized` unless `principal` is a member.
    pub fn authorize(&self, principal: &Addr) -> (r: Result<(), ContractError>)
        ensures
            r == if self@.contains(principal@) {
                Ok::<(), ContractError>(())
            } else {
                Err(ContractError::Unauthorized)
            },
    {
        if self.is_owner(principal) {
            Ok(())
        } else {
            Err(ContractError::Unauthorized)
        }
    }

    /// Adds `principal` at the end, unless it is a member already.
    pub fn add(&mut self, principal: Addr)
        ensures
            final(self)@ == with_owner(old(self)@, principal@),
            final(self)@.no_duplicates(),
    {
        proof {
            use_type_invariant(&*self);
            lemma_with_owner_no_duplicates(self@, principal@);
        }
        if !self.is_owner(&principal) {
            let ghost before = self.owners.deep_view();
            let mut owners: Vec<Addr> = Vec::new();
            assert(owners.deep_view() =~= Seq::<Seq<char>>::empty());
            std::mem::swap(&mut self.owners, &mut owners);
            owners.push(principal);
            assert(owners.deep_view() =~= before.push(principal@));
            std::mem::swap(&mut self.owners, &mut owners);
        }
    }

    /// Adds each principal of `principals`, in order.
    pub fn add_all(&mut self, principals: &Vec<Addr>)
        ensures
            final(self)@ == with_owners(old(self)@, principals.deep_view()),
            final(self)@.no_duplicates(),
    {
        let ghost added = principals.deep_view();
        let mut i: usize = 0;
        proof {
            use_type_invariant(&*self);
            assert(added.take(0) =~= Seq::<Seq<char>>::empty());
        }
        while i < principals.len()
            invariant
                0 <= i <= principals.len(),
                added == principals.deep_view(),
                self@ == with_owners(old(self)@, added.take(i as int)),
                self@.no_duplicates(),
            decreases principals.len() - i,
        {
            proof {
                assert(added.take(i + 1).drop_last() =~= added.take(i as int));
                assert(added.take(i + 1).last() == principals[i as int]@);
            }
            self.add(principals[i].clone());
            i = i + 1;
        }
        proof {
            assert(added.take(i as int) =~= added);
        }
    }

    /// Takes `principal` out. Fails with `NotFound`, and changes nothing,
    /// if it is not a member.
    pub fn remove(&mut self, principal: &Addr) -> (r: Result<(), ContractError>)
        ensures
            old(self)@.contains(principal@) ==> r is Ok && final(self)@ == without_owner(
                old(self)@,
                principal@,
            ),
            !old(self)@.contains(principal@) ==> r == Err::<(), ContractError>(
                ContractError::NotFound,
            ) && final(self)@ == old(self)@,
            final(self)@.no_duplicates(),
    {
        proof {
            use_type_invariant(&*self);
        }
        match self.position(principal) {
            Some(at) => {
                let ghost before = self.owners.deep_view();
                proof {
                    lemma_without_owner(before, principal@);
                    assert(before.index_of(principal@) == at);
                }
                let mut owners: Vec<Addr> = Vec::new();
                assert(owners.deep_view() =~= Seq::<Seq<char>>::empty());
                std::mem::swap(&mut self.owners, &mut owners);
                owners.remove(at);
                assert(owners.deep_view() =~= before.remove(at as int));
                std::mem::swap(&mut self.owners, &mut owners);
                Ok(())
            },
            None => Err(ContractError::NotFound),
        }
    }

    /// The members, in order; none of them occurs twice.
    pub fn to_vec(&self) -> (list: Vec<Addr>)
        ensures
            list.deep_view() == self@,
            list.deep_view().no_duplicates(),
    {
        proof {
            use_type_invariant(self);
        }
        let mut list: Vec<Addr> = Vec::new();
        let mut i: usize = 0;
        while i < self.owners.len()
            invariant
                0 <= i <= self.owners.len(),
                list.deep_view() == self.owners.deep_view().take(i as int),
            decreases self.owners.len() - i,
        {
            let ghost before = list.deep_view();
            list.push(self.owners[i].clone());
            assert(list.deep_view() =~= before.push(self.owners[i as int]@));
            assert(self.owners.deep_view().take(i + 1) =~= self.owners.deep_view().take(
                i as int,
            ).push(self.owners[i as int]@));
            i = i + 1;
        }
        assert(self.owners.deep_view().take(i as int) =~= self.owners.deep_view());
        list
    }
}

} // verus!
