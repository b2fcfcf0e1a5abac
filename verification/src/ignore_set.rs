//! The guard against self-inflicted update events.
//!
//! When the engine is about to edit a member's nickname it arms the guard for
//! that member. The platform then reports the edit back as an update event;
//! the guard swallows that one event and disarms. The guard holds at most a
//! fixed number of members: arming one more drops the one armed longest ago,
//! so an echo that never arrives cannot make it grow.

use vstd::prelude::*;

verus! {

/// The members of `armed` with `id` armed as well: unchanged where `id` is
/// armed already, else `id` goes last, and the first leaves where there is no
/// room.
pub open spec fn with_member(armed: Seq<u64>, bound: nat, id: u64) -> Seq<u64> {
    if armed.contains(id) {
        armed
    } else if armed.len() >= bound {
        armed.drop_first().push(id)
    } else {
        armed.push(id)
    }
}

/// The members of `armed` other than `id`, in their order.
pub open spec fn without_member(armed: Seq<u64>, id: u64) -> Seq<u64> {
    armed.remove_value(id)
}

/// A bounded set of member identifiers, oldest first.
pub struct IgnoreSet {
    members: Vec<u64>,
    bound: usize,
}

impl View for IgnoreSet {
    type V = Seq<u64>;

    closed spec fn view(&self) -> Seq<u64> {
        self.members@
    }
}

impl IgnoreSet {
    /// The most members the guard holds at once.
    pub closed spec fn spec_bound(&self) -> usize {
        self.bound
    }

    /// The most members the guard holds at once: at least one.
    #[verifier::when_used_as_spec(spec_bound)]
    pub fn bound(&self) -> (bound: usize)
        ensures
            bound == self.spec_bound(),
            bound >= 1,
    {
        proof {
            use_type_invariant(self);
        }
        self.bound
    }

    #[verifier::type_invariant]
    spec fn well_formed(&self) -> bool {
        &&& self.bound >= 1
        &&& self.members@.len() <= self.bound
        &&& self.members@.no_duplicates()
    }

    /// An empty guard that holds at most `bound` members.
    pub fn new(bound: usize) -> (set: IgnoreSet)
        requires
            bound >= 1,
        ensures
            set@ == Seq::<u64>::empty(),
            set.bound() == bound,
    {
        IgnoreSet { members: Vec::new(), bound }
    }

    /// How many members are armed: never more than the bound, and none of
    /// them twice.
    pub fn len(&self) -> (n: usize)
        ensures
            n == self@.len(),
            n <= self.bound(),
            self@.no_duplicates(),
    {
        proof {
            use_type_invariant(self);
        }
        self.members.len()
    }

    fn position(&self, id: u64) -> (at: Option<usize>)
        ensures
            match at {
                Some(i) => i < self@.len() && self@[i as int] == id,
                None => !self@.contains(id),
            },
    {
        proof {
            use_type_invariant(self);
        }
        let mut i: usize = 0;
        while i < self.members.len()
            invariant
                i <= self.members.len(),
                forall|j: int| 0 <= j < i ==> self.members@[j] != id,
            decreases self.members.len() - i,
        {
            if self.members[i] == id {
                return Some(i);
            }
            i += 1;
        }
        None
    }

    /// Whether `id` is armed.
    pub fn contains(&self, id: u64) -> (armed: bool)
        ensures
            armed == self@.contains(id),
    {
        self.position(id).is_some()
    }

    /// Arms the guard for `id`.
    pub fn insert(&mut self, id: u64)
        ensures
            final(self)@ == with_member(old(self)@, old(self).bound() as nat, id),
            final(self).bound() == old(self).bound(),
            final(self)@.contains(id),
    {
        proof {
            use_type_invariant(&*self);
        }
        if self.position(id).is_some() {
            return ;
        }
        let mut members: Vec<u64> = Vec::new();
        std::mem::swap(&mut self.members, &mut members);
        if members.len() >= self.bound {
            members.remove(0);
        }
        members.push(id);
        assert(members@.last() == id);
        self.members = members;
    }

    /// Disarms the guard for `id`, and says whether it was armed.
    pub fn take(&mut self, id: u64) -> (was_armed: bool)
        ensures
            was_armed == old(self)@.contains(id),
            final(self)@ == without_member(old(self)@, id),
            final(self).bound() == old(self).bound(),
            !final(self)@.contains(id),
    {
        proof {
            use_type_invariant(&*self);
        }
        match self.position(id) {
            None => {
                proof {
                    self@.index_of_first_ensures(id);
                }
                false
            },
            Some(i) => {
                let mut members: Vec<u64> = Vec::new();
                std::mem::swap(&mut self.members, &mut members);
                members.remove(i);
                proof {
                    let before = old(self).members@;
                    before.index_of_first_ensures(id);
                    lemma_without_member(before, id);
                }
                self.members = members;
                true
            },
        }
    }
}

/// Arming a member and then seeing that member's echo disarms the guard
/// again: the echo is swallowed, the next event for the member is not, and
/// everyone else who was armed and kept their place stays armed.
pub proof fn lemma_echo_swallowed_once(armed: Seq<u64>, bound: nat, id: u64)
    requires
        bound >= 1,
        armed.len() <= bound,
        armed.no_duplicates(),
    ensures
        with_member(armed, bound, id).contains(id),
        with_member(armed, bound, id).no_duplicates(),
        with_member(armed, bound, id).len() <= bound,
        !without_member(with_member(armed, bound, id), id).contains(id),
        !armed.contains(id) && armed.len() < bound ==> without_member(
            with_member(armed, bound, id),
            id,
        ) == armed,
{
    let next = with_member(armed, bound, id);
    if !armed.contains(id) {
        assert(next.last() == id);
    }
    lemma_without_member(next, id);
    next.index_of_first_ensures(id);
}

/// Disarming removes the member and nobody else.
pub proof fn lemma_without_member(armed: Seq<u64>, id: u64)
    requires
        armed.no_duplicates(),
    ensures
        !without_member(armed, id).contains(id),
        without_member(armed, id).no_duplicates(),
        forall|other: u64|
            other != id ==> (#[trigger] without_member(armed, id).contains(other)
                <==> armed.contains(other)),
{
    let rest = without_member(armed, id);
    armed.index_of_first_ensures(id);
    if armed.contains(id) {
        let at = armed.index_of_first(id).unwrap();
        assert forall|other: u64| other != id && armed.contains(other) implies rest.contains(
            other,
        ) by {
            let k = armed.index_of(other);
            if k > at {
                assert(rest[k - 1] == other);
            }
        }
    }
}

} // verus!
