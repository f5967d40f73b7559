//! The correlation id allocator and the ledger of pending continuations.
use vstd::prelude::*;
use std::collections::HashMap;
use crate::types::SubMessageDetails;

verus! {

broadcast use vstd::std_specs::hash::group_hash_axioms;

/// `id` lies in `1..=last_id`.
pub open spec fn issued_by(last_id: Option<u64>, id: u64) -> bool {
    match last_id {
        Some(last) => 1 <= id <= last,
        None => false,
    }
}

/// Stored continuations that can make up a ledger whose last id is
/// `last_id`: each carries an issued id, and no two the same.
pub open spec fn restorable(last_id: Option<u64>, records: Seq<SubMessageDetails>) -> bool {
    &&& forall|i: int| 0 <= i < records.len() ==> issued_by(last_id, #[trigger] records[i].sub_req_id)
    &&& forall|i: int, j: int|
        0 <= i < j < records.len() ==> #[trigger] records[i].sub_req_id != #[trigger] records[j].sub_req_id
}

/// What a ledger holds: the last id issued, if any, and the continuation
/// waiting on each pending id.
pub struct LedgerModel {
    pub last_id: Option<u64>,
    pub records: Map<u64, SubMessageDetails>,
}

impl LedgerModel {
    /// Every pending id has been issued, and its record carries that id.
    pub open spec fn wf(self) -> bool {
        forall|id: u64| #[trigger] self.records.contains_key(id) ==> {
            &&& self.issued(id)
            &&& self.records[id].sub_req_id == id
        }
    }

    /// `id` lies among the ids issued so far: `1..=last_id`.
    pub open spec fn issued(self, id: u64) -> bool {
        issued_by(self.last_id, id)
    }

    /// The id that the next allocation hands out: 1 first, then one more
    /// than the last; none once `u64::MAX` has been issued.
    pub open spec fn next_id(self) -> Option<u64> {
        match self.last_id {
            None => Some(1u64),
            Some(last) => if last < u64::MAX {
                Some((last + 1) as u64)
            } else {
                None
            },
        }
    }

    /// The ledger after one allocation; unchanged when no id is left.
    pub open spec fn allocated(self) -> LedgerModel {
        match self.next_id() {
            Some(id) => LedgerModel { last_id: Some(id), records: self.records },
            None => self,
        }
    }

    /// The ledger with `record` pending on `id`.
    pub open spec fn with(self, id: u64, record: SubMessageDetails) -> LedgerModel {
        LedgerModel { last_id: self.last_id, records: self.records.insert(id, record) }
    }

    /// The continuation pending on `id`, if any.
    pub open spec fn lookup(self, id: u64) -> Option<SubMessageDetails> {
        if self.records.contains_key(id) {
            Some(self.records[id])
        } else {
            None
        }
    }

    /// The ledger once the continuation of `id` is taken out.
    pub open spec fn without(self, id: u64) -> LedgerModel {
        LedgerModel { last_id: self.last_id, records: self.records.remove(id) }
    }
}

/// Whether `records` can make up a ledger whose last id is `last_id`.
fn check_restorable(last_id: Option<u64>, records: &Vec<SubMessageDetails>) -> (r: bool)
    ensures
        r == restorable(last_id, records@),
{
    let mut i: usize = 0;
    while i < records.len()
        invariant
            i <= records@.len(),
            restorable(last_id, records@.subrange(0, i as int)),
        decreases records@.len() - i,
    {
        let id = records[i].sub_req_id;
        let issued = match last_id {
            Some(last) => 1 <= id && id <= last,
            None => false,
        };
        if !issued {
            assert(!issued_by(last_id, records@[i as int].sub_req_id));
            return false;
        }
        let mut j: usize = 0;
        while j < i
            invariant
                j <= i < records@.len(),
                id == records@[i as int].sub_req_id,
                forall|k: int| 0 <= k < j ==> records@[k].sub_req_id != id,
            decreases i - j,
        {
            if records[j].sub_req_id == id {
                assert(records@[j as int].sub_req_id == records@[i as int].sub_req_id);
                return false;
            }
            j += 1;
        }
        assert(restorable(last_id, records@.subrange(0, i as int + 1))) by {
            let s = records@.subrange(0, i as int + 1);
            let t = records@.subrange(0, i as int);
            assert forall|a: int| 0 <= a < s.len() implies issued_by(last_id, #[trigger] s[a].sub_req_id) by {
                if a < i {
                    assert(s[a] == t[a]);
                }
            }
            assert forall|a: int, b: int| 0 <= a < b < s.len() implies #[trigger] s[a].sub_req_id
                != #[trigger] s[b].sub_req_id by {
                if b < i {
                    assert(s[a] == t[a] && s[b] == t[b]);
                }
            }
        }
        i += 1;
    }
    assert(records@.subrange(0, i as int) =~= records@);
    true
}

/// Correlation ids and the continuations pending on them.
pub struct PendingLedger {
    last_id: Option<u64>,
    records: HashMap<u64, SubMessageDetails>,
}

impl View for PendingLedger {
    type V = LedgerModel;

    closed spec fn view(&self) -> LedgerModel {
        LedgerModel { last_id: self.last_id, records: self.records@ }
    }
}

impl PendingLedger {
    /// A ledger that has issued no id and holds no continuation.
    pub fn new() -> (r: PendingLedger)
        ensures
            r@.last_id is None,
            r@.records == Map::<u64, SubMessageDetails>::empty(),
            r@.wf(),
    {
        PendingLedger { last_id: None, records: HashMap::new() }
    }

    /// A ledger rebuilt from its stored parts: the last id issued and the
    /// pending continuations, each under its own id. `None` when the parts
    /// cannot make up a ledger.
    pub fn restore(last_id: Option<u64>, records: Vec<SubMessageDetails>) -> (r: Option<PendingLedger>)
        ensures
            r is Some <==> restorable(last_id, records@),
            r matches Some(l) ==> {
                &&& l@.wf()
                &&& l@.last_id == last_id
                &&& forall|i: int| 0 <= i < records@.len()
                    ==> #[trigger] l@.records.contains_key(records@[i].sub_req_id)
                        && l@.records[records@[i].sub_req_id] == records@[i]
                &&& forall|id: u64| #[trigger] l@.records.contains_key(id)
                    ==> exists|i: int| 0 <= i < records@.len() && records@[i].sub_req_id == id
            },
    {
        if !check_restorable(last_id, &records) {
            return None;
        }
        let ghost all = records@;
        let mut remaining = records;
        let mut map: HashMap<u64, SubMessageDetails> = HashMap::new();
        while remaining.len() > 0
            invariant
                restorable(last_id, all),
                remaining@ == all.subrange(0, remaining@.len() as int),
                remaining@.len() <= all.len(),
                forall|i: int| remaining@.len() <= i < all.len()
                    ==> #[trigger] map@.contains_key(all[i].sub_req_id) && map@[all[i].sub_req_id] == all[i],
                forall|id: u64| #[trigger] map@.contains_key(id)
                    ==> exists|i: int| remaining@.len() <= i < all.len() && all[i].sub_req_id == id,
            decreases remaining@.len(),
        {
            let ghost n = remaining@.len() as int;
            let rec = remaining.pop().unwrap();
            assert(rec == all[n - 1]);
            let ghost before = map@;
            assert forall|i: int| n <= i < all.len() implies all[i].sub_req_id != rec.sub_req_id by {
                assert(all[n - 1].sub_req_id != all[i].sub_req_id);
            }
            map.insert(rec.sub_req_id, rec);
        }
        Some(PendingLedger { last_id, records: map })
    }

    /// The continuation pending on `id`, if any, left in place.
    pub fn pending_record(&self, id: u64) -> (r: Option<&SubMessageDetails>)
        ensures
            r matches Some(d) ==> self@.lookup(id) == Some(*d),
            r is None ==> self@.lookup(id) is None,
    {
        self.records.get(&id)
    }

    /// The last id issued, if any.
    pub fn last_id(&self) -> (r: Option<u64>)
        ensures
            r == self@.last_id,
    {
        self.last_id
    }

    /// Whether an id is left to issue.
    pub fn can_allocate(&self) -> (r: bool)
        ensures
            r == self@.next_id() is Some,
    {
        match self.last_id {
            None => true,
            Some(last) => last < u64::MAX,
        }
    }

    /// Issues the next correlation id: 1 first, then one more than the last.
    /// Returns `None`, and changes nothing, once `u64::MAX` has been issued.
    pub fn allocate_next_id(&mut self) -> (r: Option<u64>)
        requires
            old(self)@.wf(),
        ensures
            r == old(self)@.next_id(),
            final(self)@ == old(self)@.allocated(),
            final(self)@.wf(),
    {
        match self.last_id {
            None => {
                self.last_id = Some(1);
                Some(1)
            },
            Some(last) => {
                if last < u64::MAX {
                    self.last_id = Some(last + 1);
                    Some(last + 1)
                } else {
                    None
                }
            },
        }
    }

    /// Stores the continuation of an issued id, which must have none yet.
    pub fn record_continuation(&mut self, id: u64, record: SubMessageDetails)
        requires
            old(self)@.wf(),
            old(self)@.issued(id),
            !old(self)@.records.contains_key(id),
            record.sub_req_id == id,
        ensures
            final(self)@ == old(self)@.with(id, record),
            final(self)@.wf(),
    {
        self.records.insert(id, record);
        assert(self@.records == old(self)@.records.insert(id, record));
    }

    /// Whether a continuation is pending on `id`.
    pub fn is_pending(&self, id: u64) -> (r: bool)
        ensures
            r == self@.records.contains_key(id),
    {
        self.records.contains_key(&id)
    }

    /// Reads and removes the continuation of `id`; `None` when there is none.
    pub fn take_continuation(&mut self, id: u64) -> (r: Option<SubMessageDetails>)
        requires
            old(self)@.wf(),
        ensures
            r == old(self)@.lookup(id),
            final(self)@ == old(self)@.without(id),
            final(self)@.wf(),
    {
        let r = self.records.remove(&id);
        assert(self@.records == old(self)@.records.remove(id));
        r
    }
}

/// An allocated id is fresh: no continuation is pending on it, and it is
/// greater than every id issued before.
pub proof fn allocated_id_is_fresh(m: LedgerModel, id: u64)
    requires
        m.wf(),
        m.next_id() == Some(id),
    ensures
        !m.records.contains_key(id),
        forall|earlier: u64| m.issued(earlier) ==> earlier < id,
        m.allocated().issued(id),
{
}

/// Ids strictly increase: two allocations in a row hand out two ids, the
/// second greater than the first.
pub proof fn ids_strictly_increase(m: LedgerModel, first: u64, second: u64)
    requires
        m.next_id() == Some(first),
        m.allocated().next_id() == Some(second),
    ensures
        first < second,
{
}

/// A continuation is taken at most once: after it was taken, taking it again
/// finds nothing and leaves the ledger as it is.
pub proof fn take_at_most_once(m: LedgerModel, id: u64)
    ensures
        m.without(id).lookup(id) is None,
        m.without(id).without(id) == m.without(id),
{
    assert(m.without(id).without(id).records =~= m.without(id).records);
}

} // verus!
