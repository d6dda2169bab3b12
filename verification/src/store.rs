//! The proposal store: persisted proposal records and their state
//! transitions.
//!
//! A proposal is created open (`watched_at` empty, `veto_count` zero),
//! accumulates vetoes one at a time, and is marked watched exactly once:
//! once `watched_at` is set it never changes again. Catalog identifiers are
//! unique across the store. Mutations on an identifier with no record fail
//! with `ServiceError::NotFound`; inserting a duplicate identifier fails
//! with `ServiceError::Conflict` and leaves the store unchanged.

use vstd::prelude::*;

use crate::errors::ServiceError;
use crate::text::str_eq;

verus! {

/// Mathematical model of one stored proposal. Timestamps are whole seconds
/// since the Unix epoch, UTC.
pub ghost struct ProposalModel {
    pub catalog_id: Seq<char>,
    pub proposed_at: int,
    pub proposed_by: Seq<char>,
    pub watched_at: Option<int>,
    pub veto_count: int,
}

/// One stored proposal. Timestamps are whole seconds since the Unix epoch,
/// UTC; `watched_at` empty means the proposal is still open.
pub struct Proposal {
    pub catalog_id: String,
    pub proposed_at: i64,
    pub proposed_by: String,
    pub watched_at: Option<i64>,
    pub veto_count: u64,
}

impl View for Proposal {
    type V = ProposalModel;

    open spec fn view(&self) -> ProposalModel {
        ProposalModel {
            catalog_id: self.catalog_id@,
            proposed_at: self.proposed_at as int,
            proposed_by: self.proposed_by@,
            watched_at: match self.watched_at {
                Some(t) => Some(t as int),
                None => None,
            },
            veto_count: self.veto_count as int,
        }
    }
}

/// An exact copy of a proposal record.
pub fn clone_proposal(p: &Proposal) -> (r: Proposal)
    ensures
        r@ == p@,
{
    Proposal {
        catalog_id: p.catalog_id.clone(),
        proposed_at: p.proposed_at,
        proposed_by: p.proposed_by.clone(),
        watched_at: p.watched_at,
        veto_count: p.veto_count,
    }
}

/// The models of a sequence of records.
pub open spec fn views(s: Seq<Proposal>) -> Seq<ProposalModel> {
    s.map_values(|p: Proposal| p@)
}

/// Some record in `s` bears the identifier `id`.
pub open spec fn contains_id(s: Seq<ProposalModel>, id: Seq<char>) -> bool {
    exists|i: int| 0 <= i < s.len() && s[i].catalog_id == id
}

/// The index of the record bearing `id` (unique when the store is
/// well-formed).
pub open spec fn id_index(s: Seq<ProposalModel>, id: Seq<char>) -> int {
    choose|i: int| 0 <= i < s.len() && s[i].catalog_id == id
}

/// The record as the veto transition leaves it: the count one higher,
/// everything else untouched.
pub open spec fn with_veto(p: ProposalModel) -> ProposalModel {
    ProposalModel { veto_count: p.veto_count + 1, ..p }
}

/// The record as the watch transition leaves it: `watched_at` set to `t` if
/// it was empty, untouched otherwise (watching is one-way and idempotent).
pub open spec fn with_watched(p: ProposalModel, t: int) -> ProposalModel {
    if p.watched_at is Some {
        p
    } else {
        ProposalModel { watched_at: Some(t), ..p }
    }
}

/// The store after one veto lands on the record at index `i`.
pub open spec fn veto_applied(s: Seq<ProposalModel>, i: int) -> Seq<ProposalModel> {
    s.update(i, with_veto(s[i]))
}

/// The store after the record at index `i` is marked watched at time `t`.
pub open spec fn watch_applied(s: Seq<ProposalModel>, i: int, t: int) -> Seq<ProposalModel> {
    s.update(i, with_watched(s[i], t))
}

/// The store after `n` vetoes land, one at a time, on the record at
/// index `i`.
pub open spec fn after_vetoes(s: Seq<ProposalModel>, i: int, n: nat) -> Seq<ProposalModel>
    decreases n,
{
    if n == 0 {
        s
    } else {
        veto_applied(after_vetoes(s, i, (n - 1) as nat), i)
    }
}

/// A proposal that has not been watched yet.
pub open spec fn is_open(p: ProposalModel) -> bool {
    p.watched_at is None
}

/// The open records of `s`, in order.
pub open spec fn open_listing(s: Seq<ProposalModel>) -> Seq<ProposalModel> {
    s.filter(|p: ProposalModel| is_open(p))
}

/// Which records a listing request selects.
#[derive(Clone, Copy, Debug, PartialEq, Eq, Structural)]
pub enum ListFilter {
    All,
    WatchedOnly,
    OpenOnly,
}

/// Whether `f` selects the record `p`.
pub open spec fn keeps(f: ListFilter, p: ProposalModel) -> bool {
    match f {
        ListFilter::All => true,
        ListFilter::WatchedOnly => p.watched_at is Some,
        ListFilter::OpenOnly => p.watched_at is None,
    }
}

impl ListFilter {
    /// The filter a listing request's optional `watched` query parameter
    /// names: absent selects everything, `true` the watched records,
    /// `false` the open ones.
    pub fn from_query(watched: Option<bool>) -> (r: ListFilter)
        ensures
            r == match watched {
                None => ListFilter::All,
                Some(true) => ListFilter::WatchedOnly,
                Some(false) => ListFilter::OpenOnly,
            },
    {
        match watched {
            None => ListFilter::All,
            Some(true) => ListFilter::WatchedOnly,
            Some(false) => ListFilter::OpenOnly,
        }
    }
}

/// The proposal store: records in insertion order, identifiers unique.
pub struct ProposalStore {
    proposals: Vec<Proposal>,
}

impl View for ProposalStore {
    type V = Seq<ProposalModel>;

    closed spec fn view(&self) -> Seq<ProposalModel> {
        views(self.proposals@)
    }
}

impl ProposalStore {
    /// Well-formed: no two records share a catalog identifier.
    pub open spec fn wf(&self) -> bool {
        forall|i: int, j: int|
            0 <= i < j < self@.len() ==> self@[i].catalog_id != self@[j].catalog_id
    }

    /// An empty store.
    pub fn new() -> (r: ProposalStore)
        ensures
            r.wf(),
            r@ =~= Seq::<ProposalModel>::empty(),
    {
        ProposalStore { proposals: Vec::new() }
    }

    /// How many records the store holds.
    pub fn len(&self) -> (r: usize)
        ensures
            r == self@.len(),
    {
        self.proposals.len()
    }

    /// The index of the record bearing `catalog_id`: the first one, and
    /// under `wf` the only one.
    fn find_index(&self, catalog_id: &str) -> (r: Option<usize>)
        ensures
            match r {
                Some(idx) => idx < self@.len() && self@[idx as int].catalog_id == catalog_id@
                    && forall|j: int| 0 <= j < idx ==> self@[j].catalog_id != catalog_id@,
                None => !contains_id(self@, catalog_id@),
            },
    {
        let n = self.proposals.len();
        let mut k: usize = 0;
        while k < n
            invariant
                n == self@.len(),
                k <= n,
                forall|j: int| 0 <= j < k ==> self@[j].catalog_id != catalog_id@,
            decreases n - k,
        {
            if str_eq(self.proposals[k].catalog_id.as_str(), catalog_id) {
                return Some(k);
            }
            k = k + 1;
        }
        None
    }

    /// Insert a new proposal at time `now`.
    ///
    /// Fails with `ServiceError::Conflict` when a record with the same
    /// identifier exists, leaving the store unchanged; otherwise appends a
    /// fresh open record with no vetoes, `proposed_at` equal to `now`, and
    /// returns a copy of it.
    pub fn insert(&mut self, catalog_id: String, proposed_by: String, now: i64) -> (r: Result<
        Proposal,
        ServiceError,
    >)
        requires
            old(self).wf(),
        ensures
            final(self).wf(),
            match r {
                Ok(p) => !contains_id(old(self)@, catalog_id@) && p@ == (ProposalModel {
                    catalog_id: catalog_id@,
                    proposed_at: now as int,
                    proposed_by: proposed_by@,
                    watched_at: None,
                    veto_count: 0,
                }) && final(self)@ =~= old(self)@.push(p@),
                Err(e) => e == ServiceError::Conflict && contains_id(old(self)@, catalog_id@)
                    && final(self)@ == old(self)@,
            },
    {
        if self.find_index(catalog_id.as_str()).is_some() {
            return Err(ServiceError::Conflict);
        }
        let p = Proposal {
            catalog_id,
            proposed_at: now,
            proposed_by,
            watched_at: None,
            veto_count: 0,
        };
        let copy = clone_proposal(&p);
        let ghost prior = self@;
        self.proposals.push(p);
        proof {
            assert(self@ =~= prior.push(copy@));
            assert forall|i: int, j: int| 0 <= i < j < self@.len() implies self@[i].catalog_id
                != self@[j].catalog_id by {
                if j == self@.len() - 1 {
                    assert(!contains_id(prior, self@[j].catalog_id));
                }
            }
        }
        Ok(copy)
    }

    /// Mark the proposal bearing `catalog_id` watched at time `now`.
    ///
    /// Sets `watched_at` to `now` when the record is open; a record already
    /// watched is left exactly as it is (the outcome is idempotent). Fails
    /// with `ServiceError::NotFound`, changing nothing, when no record
    /// bears the identifier.
    pub fn mark_watched(&mut self, catalog_id: &str, now: i64) -> (r: Result<(), ServiceError>)
        requires
            old(self).wf(),
        ensures
            final(self).wf(),
            match r {
                Ok(()) => contains_id(old(self)@, catalog_id@) && final(self)@ =~= watch_applied(
                    old(self)@,
                    id_index(old(self)@, catalog_id@),
                    now as int,
                ),
                Err(e) => e == ServiceError::NotFound && !contains_id(old(self)@, catalog_id@)
                    && final(self)@ == old(self)@,
            },
    {
        match self.find_index(catalog_id) {
            None => Err(ServiceError::NotFound),
            Some(idx) => {
                proof {
                    lemma_id_index_unique(self@, catalog_id@, idx as int);
                }
                let ghost prior = self@;
                if self.proposals[idx].watched_at.is_none() {
                    self.proposals[idx].watched_at = Some(now);
                }
                proof {
                    assert(self@ =~= watch_applied(prior, idx as int, now as int));
                }
                Ok(())
            },
        }
    }

    /// Record one veto against the proposal bearing `catalog_id`.
    ///
    /// Raises its `veto_count` by exactly one and touches nothing else.
    /// Fails with `ServiceError::NotFound`, changing nothing, when no
    /// record bears the identifier. The counter is required not to be at
    /// its machine maximum.
    pub fn add_veto(&mut self, catalog_id: &str) -> (r: Result<(), ServiceError>)
        requires
            old(self).wf(),
            contains_id(old(self)@, catalog_id@) ==> old(self)@[id_index(
                old(self)@,
                catalog_id@,
            )].veto_count < u64::MAX,
        ensures
            final(self).wf(),
            match r {
                Ok(()) => contains_id(old(self)@, catalog_id@) && final(self)@ =~= veto_applied(
                    old(self)@,
                    id_index(old(self)@, catalog_id@),
                ) && final(self)@ =~= after_vetoes(
                    old(self)@,
                    id_index(old(self)@, catalog_id@),
                    1,
                ),
                Err(e) => e == ServiceError::NotFound && !contains_id(old(self)@, catalog_id@)
                    && final(self)@ == old(self)@,
            },
    {
        match self.find_index(catalog_id) {
            None => Err(ServiceError::NotFound),
            Some(idx) => {
                proof {
                    lemma_id_index_unique(self@, catalog_id@, idx as int);
                }
                let ghost prior = self@;
                let count = self.proposals[idx].veto_count;
                self.proposals[idx].veto_count = count + 1;
                proof {
                    assert(self@ =~= veto_applied(prior, idx as int));
                    assert(after_vetoes(prior, idx as int, 1) == veto_applied(
                        after_vetoes(prior, idx as int, 0),
                        idx as int,
                    ));
                }
                Ok(())
            },
        }
    }

    /// All open proposals, in store order. Never returns a watched record.
    pub fn list_open(&self) -> (r: Vec<Proposal>)
        ensures
            views(r@) =~= open_listing(self@),
            forall|k: int| 0 <= k < r@.len() ==> is_open(#[trigger] r@[k]@),
    {
        let n = self.proposals.len();
        let mut out: Vec<Proposal> = Vec::new();
        let mut k: usize = 0;
        while k < n
            invariant
                n == self@.len(),
                k <= n,
                views(out@) =~= self@.take(k as int).filter(|p: ProposalModel| is_open(p)),
                forall|m: int| 0 <= m < out@.len() ==> is_open(#[trigger] out@[m]@),
            decreases n - k,
        {
            let ghost prefix = self@.take(k as int);
            let ghost next = self@.take(k + 1);
            if self.proposals[k].watched_at.is_none() {
                out.push(clone_proposal(&self.proposals[k]));
            }
            proof {
                reveal(Seq::filter);
                assert(next.drop_last() =~= prefix);
                assert(next.last() == self@[k as int]);
                assert(views(out@) =~= next.filter(|p: ProposalModel| is_open(p)));
            }
            k = k + 1;
        }
        proof {
            assert(self@.take(n as int) =~= self@);
        }
        out
    }

    /// The proposals `filter` selects, in store order.
    pub fn list_all(&self, filter: ListFilter) -> (r: Vec<Proposal>)
        ensures
            views(r@) =~= self@.filter(|p: ProposalModel| keeps(filter, p)),
    {
        let n = self.proposals.len();
        let mut out: Vec<Proposal> = Vec::new();
        let mut k: usize = 0;
        while k < n
            invariant
                n == self@.len(),
                k <= n,
                views(out@) =~= self@.take(k as int).filter(|p: ProposalModel| keeps(filter, p)),
            decreases n - k,
        {
            let ghost prefix = self@.take(k as int);
            let ghost next = self@.take(k + 1);
            let selected = match filter {
                ListFilter::All => true,
                ListFilter::WatchedOnly => self.proposals[k].watched_at.is_some(),
                ListFilter::OpenOnly => self.proposals[k].watched_at.is_none(),
            };
            if selected {
                out.push(clone_proposal(&self.proposals[k]));
            }
            proof {
                reveal(Seq::filter);
                assert(next.drop_last() =~= prefix);
                assert(next.last() == self@[k as int]);
                assert(views(out@) =~= next.filter(|p: ProposalModel| keeps(filter, p)));
            }
            k = k + 1;
        }
        proof {
            assert(self@.take(n as int) =~= self@);
        }
        out
    }

    /// A copy of the record bearing `catalog_id`, if any.
    pub fn get(&self, catalog_id: &str) -> (r: Option<Proposal>)
        requires
            self.wf(),
        ensures
            match r {
                Some(p) => contains_id(self@, catalog_id@) && p@ == self@[id_index(
                    self@,
                    catalog_id@,
                )],
                None => !contains_id(self@, catalog_id@),
            },
    {
        match self.find_index(catalog_id) {
            None => None,
            Some(idx) => {
                proof {
                    lemma_id_index_unique(self@, catalog_id@, idx as int);
                }
                Some(clone_proposal(&self.proposals[idx]))
            },
        }
    }
}

/// In a well-formed store, any index whose record bears `id` is the one
/// `id_index` names.
proof fn lemma_id_index_unique(s: Seq<ProposalModel>, id: Seq<char>, idx: int)
    requires
        forall|i: int, j: int| 0 <= i < j < s.len() ==> s[i].catalog_id != s[j].catalog_id,
        0 <= idx < s.len(),
        s[idx].catalog_id == id,
    ensures
        contains_id(s, id),
        id_index(s, id) == idx,
{
    assert(contains_id(s, id));
    let c = id_index(s, id);
    if c != idx {
        if c < idx {
            assert(s[c].catalog_id != s[idx].catalog_id);
        } else {
            assert(s[idx].catalog_id != s[c].catalog_id);
        }
    }
}

/// Law: vetoes accumulate. Landing `n` vetoes, one at a time, on the
/// record at index `i` raises its `veto_count` by exactly `n` and changes
/// nothing else about the store — no update is lost and no other record is
/// touched.
pub proof fn lemma_vetoes_accumulate(s: Seq<ProposalModel>, i: int, n: nat)
    requires
        0 <= i < s.len(),
    ensures
        after_vetoes(s, i, n).len() == s.len(),
        after_vetoes(s, i, n)[i].veto_count == s[i].veto_count + n,
        after_vetoes(s, i, n)[i].catalog_id == s[i].catalog_id,
        after_vetoes(s, i, n)[i].proposed_at == s[i].proposed_at,
        after_vetoes(s, i, n)[i].proposed_by == s[i].proposed_by,
        after_vetoes(s, i, n)[i].watched_at == s[i].watched_at,
        forall|j: int| 0 <= j < s.len() && j != i ==> after_vetoes(s, i, n)[j] == s[j],
    decreases n,
{
    if n > 0 {
        lemma_vetoes_accumulate(s, i, (n - 1) as nat);
    }
}

/// Law: marking watched is idempotent at the record level. A second watch
/// transition, at any later (or any other) time, leaves the record exactly
/// as the first left it.
pub proof fn lemma_watch_record_idempotent(p: ProposalModel, t1: int, t2: int)
    ensures
        with_watched(with_watched(p, t1), t2) == with_watched(p, t1),
{
}

/// Law: marking watched is idempotent at the store level. Applying the
/// watch transition twice to the record at index `i` leaves the store as
/// the first application left it.
pub proof fn lemma_watch_store_idempotent(s: Seq<ProposalModel>, i: int, t1: int, t2: int)
    requires
        0 <= i < s.len(),
    ensures
        watch_applied(watch_applied(s, i, t1), i, t2) =~= watch_applied(s, i, t1),
{
    lemma_watch_record_idempotent(s[i], t1, t2);
}

/// Law: the transitions are one-way. Whatever single transition the store
/// takes, a watched timestamp already set is never changed or cleared, and
/// no veto count ever decreases.
pub proof fn lemma_transitions_one_way(s: Seq<ProposalModel>, i: int, j: int, t: int)
    requires
        0 <= i < s.len(),
        0 <= j < s.len(),
    ensures
        s[j].watched_at is Some ==> watch_applied(s, i, t)[j].watched_at == s[j].watched_at,
        s[j].watched_at is Some ==> veto_applied(s, i)[j].watched_at == s[j].watched_at,
        watch_applied(s, i, t)[j].veto_count == s[j].veto_count,
        veto_applied(s, i)[j].veto_count >= s[j].veto_count,
{
}

/// Law: a filtered listing of open proposals holds open records only,
/// whatever the store.
pub proof fn lemma_open_listing_all_open(s: Seq<ProposalModel>)
    ensures
        forall|k: int| 0 <= k < open_listing(s).len() ==> is_open(#[trigger] open_listing(s)[k]),
{
    assert forall|k: int| 0 <= k < open_listing(s).len() implies is_open(open_listing(s)[k]) by {
        s.lemma_filter_pred(|p: ProposalModel| is_open(p), k);
    }
}

} // verus!
