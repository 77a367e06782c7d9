use crate::error::WorkflowError;
use crate::snowflake::Snowflake;
use crate::structs::vouch::{Vouch, VouchView};
use vstd::prelude::*;

verus! {

/// What a list of vouches stands for, item by item.
pub open spec fn views(list: Seq<Vouch>) -> Seq<VouchView> {
    list.map_values(|v: Vouch| v@)
}

/// No subject has two records in `s`.
pub open spec fn distinct_subjects(s: Seq<VouchView>) -> bool {
    forall|i: int, j: int|
        #![trigger s[i], s[j]]
        0 <= i < j < s.len() ==> s[i].user.id != s[j].user.id
}

/// A record for `subject` is in `s`.
pub open spec fn is_pending(s: Seq<VouchView>, subject: u64) -> bool {
    exists|i: int| 0 <= i < s.len() && (#[trigger] s[i]).user.id == subject
}

/// Where the record for `subject` stands in `s`, if `s` holds one.
pub open spec fn position(s: Seq<VouchView>, subject: u64) -> int {
    choose|i: int| 0 <= i < s.len() && (#[trigger] s[i]).user.id == subject
}

/// The record for `subject` in `s`, if `s` holds one.
pub open spec fn pending_record(s: Seq<VouchView>, subject: u64) -> VouchView {
    s[position(s, subject)]
}

/// `s` after an attempt to add `record`: it goes to the end, unless its
/// subject already has a record, in which case nothing changes.
pub open spec fn after_insert(s: Seq<VouchView>, record: VouchView) -> Seq<VouchView> {
    if is_pending(s, record.user.id) {
        s
    } else {
        s.push(record)
    }
}

/// `s` after the record for `subject` was taken out; the others keep their
/// order.
pub open spec fn after_take(s: Seq<VouchView>, subject: u64) -> Seq<VouchView> {
    if is_pending(s, subject) {
        s.remove(position(s, subject))
    } else {
        s
    }
}

/// In a list without duplicates, the record for a subject stands at the one
/// index where that subject is found.
pub proof fn lemma_position_unique(s: Seq<VouchView>, subject: u64, i: int)
    requires
        distinct_subjects(s),
        0 <= i < s.len(),
        s[i].user.id == subject,
    ensures
        is_pending(s, subject),
        position(s, subject) == i,
{
    let p = position(s, subject);
    assert(0 <= p < s.len() && s[p].user.id == subject);
    if p < i {
        assert(s[p].user.id != s[i].user.id);
    } else if i < p {
        assert(s[i].user.id != s[p].user.id);
    }
}

/// The pending vouches, oldest first, at most one for each subject.
pub struct Registry {
    records: Vec<Vouch>,
}

impl View for Registry {
    type V = Seq<VouchView>;

    closed spec fn view(&self) -> Seq<VouchView> {
        views(self.records@)
    }
}

impl Registry {
    #[verifier::type_invariant]
    spec fn one_record_per_subject(self) -> bool {
        distinct_subjects(views(self.records@))
    }

    /// A registry with nothing pending.
    pub fn new() -> (registry: Registry)
        ensures
            registry@ == Seq::<VouchView>::empty(),
    {
        Registry { records: Vec::new() }
    }

    /// The number of pending vouches.
    pub fn len(&self) -> (n: usize)
        ensures
            n == self@.len(),
    {
        self.records.len()
    }

    /// Where the record for `subject` stands, if there is one.
    fn find(&self, subject: u64) -> (found: Option<usize>)
        ensures
            found is Some <==> is_pending(self@, subject),
            found matches Some(i) ==> i < self@.len() && i == position(self@, subject),
            distinct_subjects(self@),
    {
        proof {
            use_type_invariant(self);
        }
        let mut i: usize = 0;
        while i < self.records.len()
            invariant
                i <= self.records.len(),
                distinct_subjects(self@),
                forall|k: int| 0 <= k < i ==> (#[trigger] self@[k]).user.id != subject,
            decreases self.records.len() - i,
        {
            if self.records[i].user.id.get() == subject {
                proof {
                    lemma_position_unique(self@, subject, i as int);
                }
                return Some(i);
            }
            i += 1;
        }
        None
    }

    /// Whether a vouch for `subject` is pending.
    pub fn contains(&self, subject: Snowflake) -> (held: bool)
        ensures
            held == is_pending(self@, subject@),
    {
        self.find(subject.get()).is_some()
    }

    /// Adds `record` behind the others, unless its subject already has a
    /// pending vouch: then the registry stays as it is and the error says so.
    pub fn insert(&mut self, record: Vouch) -> (res: Result<(), WorkflowError>)
        ensures
            final(self)@ == after_insert(old(self)@, record@),
            res == if is_pending(old(self)@, record@.user.id) {
                Err::<(), WorkflowError>(WorkflowError::DuplicateRequest)
            } else {
                Ok::<(), WorkflowError>(())
            },
            distinct_subjects(final(self)@),
    {
        match self.find(record.user.id.get()) {
            Some(_) => Err(WorkflowError::DuplicateRequest),
            None => {
                let ghost before = self@;
                let mut records = Vec::new();
                std::mem::swap(&mut records, &mut self.records);
                records.push(record);
                assert(views(records@) =~= before.push(record@));
                self.records = records;
                Ok(())
            },
        }
    }

    /// Takes the vouch for `subject` out of the registry and hands it over;
    /// the other vouches keep their order. With none pending, nothing changes.
    pub fn take(&mut self, subject: Snowflake) -> (res: Option<Vouch>)
        ensures
            final(self)@ == after_take(old(self)@, subject@),
            res is Some <==> is_pending(old(self)@, subject@),
            res matches Some(v) ==> v@ == pending_record(old(self)@, subject@),
            !is_pending(final(self)@, subject@),
            distinct_subjects(final(self)@),
    {
        match self.find(subject.get()) {
            Some(i) => {
                let ghost before = self@;
                let mut records = Vec::new();
                std::mem::swap(&mut records, &mut self.records);
                let record = records.remove(i);
                assert(views(records@) =~= before.remove(i as int));
                self.records = records;
                Some(record)
            },
            None => None,
        }
    }

    /// A copy of the pending vouches, oldest first.
    pub fn snapshot(&self) -> (list: Vec<Vouch>)
        ensures
            views(list@) == self@,
            distinct_subjects(self@),
    {
        proof {
            use_type_invariant(self);
        }
        let mut list: Vec<Vouch> = Vec::new();
        let mut i: usize = 0;
        while i < self.records.len()
            invariant
                i <= self.records.len(),
                list@ == self.records@.subrange(0, i as int),
            decreases self.records.len() - i,
        {
            list.push(self.records[i].clone());
            assert(list@ =~= self.records@.subrange(0, i + 1));
            i += 1;
        }
        assert(list@ =~= self.records@);
        list
    }
}

} // verus!
