//! A list of what is allowed: the shape of every set the contract keeps.

use crate::types::{same_bytes, Measurements};
use vstd::prelude::*;

verus! {

/// What can be kept on an allow-list: a value with a mark by which it is
/// told from others, and a test for the same mark.
pub trait Member: Sized {
    /// The mathematical value by which members are told apart.
    type Mark;

    /// The mark of this member.
    spec fn mark(&self) -> Self::Mark;

    /// Whether `self` and `other` bear the same mark.
    fn same(&self, other: &Self) -> (same: bool)
        ensures
            same == (self.mark() == other.mark()),
    ;
}

impl Member for String {
    type Mark = Seq<char>;

    open spec fn mark(&self) -> Seq<char> {
        self@
    }

    fn same(&self, other: &String) -> (same: bool) {
        *self == *other
    }
}

impl<const N: usize> Member for [u8; N] {
    type Mark = Seq<u8>;

    open spec fn mark(&self) -> Seq<u8> {
        self@
    }

    fn same(&self, other: &[u8; N]) -> (same: bool) {
        same_bytes(self, other)
    }
}

impl Member for Measurements {
    type Mark = Measurements;

    open spec fn mark(&self) -> Measurements {
        *self
    }

    fn same(&self, other: &Measurements) -> (same: bool) {
        let same = same_bytes(&self.mrtd, &other.mrtd) && same_bytes(&self.rtmr0, &other.rtmr0)
            && same_bytes(&self.rtmr1, &other.rtmr1) && same_bytes(&self.rtmr2, &other.rtmr2)
            && same_bytes(&self.key_provider_event_digest, &other.key_provider_event_digest)
            && same_bytes(&self.app_compose_hash_payload, &other.app_compose_hash_payload);
        proof {
            if same {
                assert(self.mrtd =~= other.mrtd);
                assert(self.rtmr0 =~= other.rtmr0);
                assert(self.rtmr1 =~= other.rtmr1);
                assert(self.rtmr2 =~= other.rtmr2);
                assert(self.key_provider_event_digest =~= other.key_provider_event_digest);
                assert(self.app_compose_hash_payload =~= other.app_compose_hash_payload);
            }
        }
        same
    }
}

/// Some member of `members` bears `mark`.
pub open spec fn bears<T: Member>(members: Seq<T>, mark: T::Mark) -> bool {
    exists|i: int| 0 <= i < members.len() && (#[trigger] members[i]).mark() == mark
}

/// The marks that `members` bear.
pub open spec fn marks_of<T: Member>(members: Seq<T>) -> Set<T::Mark> {
    Set::new(|mark: T::Mark| bears(members, mark))
}

/// No two members bear the same mark.
pub open spec fn marks_distinct<T: Member>(members: Seq<T>) -> bool {
    forall|i: int, j: int|
        0 <= i < j < members.len() ==> (#[trigger] members[i]).mark() != (
        #[trigger] members[j]).mark()
}

/// A finite set, held as a list in which nothing occurs twice. Its view is
/// the set of the marks of its members.
pub struct AllowList<T: Member> {
    members: Vec<T>,
}

impl<T: Member> View for AllowList<T> {
    type V = Set<T::Mark>;

    closed spec fn view(&self) -> Set<T::Mark> {
        marks_of(self.members@)
    }
}

impl<T: Member> AllowList<T> {
    #[verifier::type_invariant]
    spec fn well_formed(self) -> bool {
        marks_distinct(self.members@)
    }

    /// The members in the order in which the list holds them.
    pub closed spec fn listed(&self) -> Seq<T> {
        self.members@
    }

    /// The list holds no member exactly where it allows nothing.
    pub proof fn lemma_nothing_listed(&self)
        ensures
            (self.listed().len() == 0) == (self@ == Set::<T::Mark>::empty()),
    {
        if self.listed().len() == 0 {
            assert(self@ =~= Set::<T::Mark>::empty());
        } else {
            assert(self@.contains(self.listed()[0].mark()));
        }
    }

    /// The list that allows nothing.
    pub fn new() -> (list: Self)
        ensures
            list@ == Set::<T::Mark>::empty(),
    {
        let list = AllowList { members: Vec::new() };
        assert(list@ =~= Set::<T::Mark>::empty());
        list
    }

    /// Whether the list names nothing at all.
    pub fn is_empty(&self) -> (empty: bool)
        ensures
            empty == (self@ == Set::<T::Mark>::empty()),
            empty == (self.listed().len() == 0),
    {
        let empty = self.members.len() == 0;
        proof {
            if empty {
                assert(self@ =~= Set::<T::Mark>::empty());
            } else {
                assert(self@.contains(self.members@[0].mark()));
            }
        }
        empty
    }

    /// Whether `member` is on the list.
    pub fn contains(&self, member: &T) -> (listed: bool)
        ensures
            listed == self@.contains(member.mark()),
    {
        let mut i: usize = 0;
        while i < self.members.len()
            invariant
                i <= self.members@.len(),
                forall|j: int| 0 <= j < i ==> (#[trigger] self.members@[j]).mark() != member.mark(),
            decreases self.members@.len() - i,
        {
            if self.members[i].same(member) {
                return true;
            }
            i += 1;
        }
        false
    }

    /// Puts `member` on the list. Returns whether it was not there before.
    pub fn insert(&mut self, member: T) -> (added: bool)
        ensures
            final(self)@ == old(self)@.insert(member.mark()),
            added == !old(self)@.contains(member.mark()),
    {
        proof {
            use_type_invariant(&*self);
        }
        if self.contains(&member) {
            assert(self@ =~= self@.insert(member.mark()));
            return false;
        }
        let mut members: Vec<T> = Vec::new();
        std::mem::swap(&mut members, &mut self.members);
        let ghost before = members@;
        members.push(member);
        proof {
            let after = members@;
            assert forall|mark: T::Mark| bears(after, mark) == (mark == member.mark() || bears(
                before,
                mark,
            )) by {
                if bears(before, mark) {
                    let i = choose|i: int| 0 <= i < before.len() && (#[trigger] before[i]).mark() == mark;
                    assert(after[i].mark() == mark);
                }
                if mark == member.mark() {
                    assert(after[before.len() as int].mark() == mark);
                }
                if bears(after, mark) {
                    let i = choose|i: int| 0 <= i < after.len() && (#[trigger] after[i]).mark() == mark;
                    if i < before.len() {
                        assert(before[i].mark() == mark);
                    }
                }
            }
            assert(marks_of(after) =~= marks_of(before).insert(member.mark()));
            assert forall|i: int, j: int| 0 <= i < j < after.len() implies (#[trigger] after[i]).mark()
                != (#[trigger] after[j]).mark() by {
                assert(after[i] == before[i]);
                if j < before.len() {
                    assert(after[j] == before[j]);
                }
            }
        }
        self.members = members;
        true
    }

    /// The members, each once.
    pub fn members(&self) -> (members: &Vec<T>)
        ensures
            members@ == self.listed(),
            marks_distinct(members@),
            marks_of(members@) == self@,
    {
        proof {
            use_type_invariant(self);
        }
        &self.members
    }
}

} // verus!
