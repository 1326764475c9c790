use vstd::prelude::*;

use crate::address::Address;
use crate::constants::{MAX_DESCRIPTION_LENGTH, MAX_SOURCE_LENGTH, TOTAL_BASIS_POINTS};
use crate::error::CustomError;
use crate::revenue_tracker::{
    lemma_record_order_irrelevant, record_fits, recorded, RevenueTracker, TrackerView,
};
use crate::royalty_nft::{payout_outcome, ClaimPayout, RoyaltyNft};
use crate::royalty_split::{
    allocated_to, byte_len, collaborators_error, granted_to, Collaborator, RoyaltySplit,
    ShareGrant, SplitView,
};
use crate::treasury::Treasury;

verus! {

/// One work's accounts: its royalty split and, once revenue was recorded for
/// it, its revenue tracker.
#[derive(Debug)]
pub struct WorkAccount {
    pub split: RoyaltySplit,
    pub tracker: Option<RevenueTracker>,
}

/// What a work's accounts say.
pub struct WorkView {
    pub split: SplitView,
    pub tracker: Option<TrackerView>,
}

impl View for WorkAccount {
    type V = WorkView;

    open spec fn view(&self) -> WorkView {
        WorkView {
            split: self.split@,
            tracker: match self.tracker {
                Some(t) => Some(t@),
                None => None,
            },
        }
    }
}

/// The tracker of a work, or the empty one that its first revenue creates.
pub open spec fn tracker_or_new(w: WorkView, now: int) -> TrackerView {
    match w.tracker {
        Some(t) => t,
        None => TrackerView {
            master_nft: w.split.master_nft,
            total: 0,
            streaming: 0,
            sales: 0,
            other: 0,
            log: Seq::empty(),
            created_at: now,
            last_revenue_timestamp: 0,
        },
    }
}

/// Whether revenue `amount` from `source` fits in the tracker and the split.
pub open spec fn revenue_fits(w: WorkView, amount: nat, source: Seq<char>, now: int) -> bool {
    &&& record_fits(tracker_or_new(w, now), amount, source)
    &&& w.split.total_revenue + amount <= u64::MAX
}

/// A work's accounts after revenue `amount` from `source` is recorded at `now`.
pub open spec fn with_revenue(
    w: WorkView,
    amount: nat,
    source: Seq<char>,
    description: Seq<char>,
    now: int,
) -> WorkView {
    WorkView {
        split: SplitView {
            total_revenue: w.split.total_revenue + amount,
            last_revenue_timestamp: now,
            ..w.split
        },
        tracker: Some(recorded(tracker_or_new(w, now), amount, source, description, now)),
    }
}

/// Recording two revenue events for a work in either order gives the same
/// total, the same per-source buckets and the same split total; and the two
/// orders either both stay in range or both do not.
pub proof fn lemma_revenue_order_irrelevant(
    w: WorkView,
    a1: nat,
    s1: Seq<char>,
    d1: Seq<char>,
    n1: int,
    a2: nat,
    s2: Seq<char>,
    d2: Seq<char>,
    n2: int,
)
    ensures
        ({
            let x = with_revenue(with_revenue(w, a1, s1, d1, n1), a2, s2, d2, n2);
            let y = with_revenue(with_revenue(w, a2, s2, d2, n2), a1, s1, d1, n1);
            &&& x.tracker->Some_0.total == y.tracker->Some_0.total
            &&& x.tracker->Some_0.streaming == y.tracker->Some_0.streaming
            &&& x.tracker->Some_0.sales == y.tracker->Some_0.sales
            &&& x.tracker->Some_0.other == y.tracker->Some_0.other
            &&& x.split.total_revenue == y.split.total_revenue
        }),
        revenue_fits(w, a1, s1, n1) && revenue_fits(with_revenue(w, a1, s1, d1, n1), a2, s2, n2)
            <==> revenue_fits(w, a2, s2, n2) && revenue_fits(
            with_revenue(w, a2, s2, d2, n2),
            a1,
            s1,
            n1,
        ),
{
    let t1 = tracker_or_new(w, n1);
    let t2 = tracker_or_new(w, n2);
    lemma_record_order_irrelevant(t1, a1, s1, d1, n1, a2, s2, d2, n2);
    lemma_record_order_irrelevant(t2, a1, s1, d1, n1, a2, s2, d2, n2);
}

impl WorkAccount {
    /// The split is valid, and the tracker, if any, belongs to the same work and
    /// agrees with the split on the revenue so far.
    pub open spec fn wf(&self) -> bool {
        &&& self.split.wf()
        &&& match self.tracker {
            Some(t) => {
                &&& t.wf()
                &&& t.master_nft@ == self.split.master_nft@
                &&& t.total_revenue == self.split.total_revenue_collected
            },
            None => self.split.total_revenue_collected == 0,
        }
    }

    /// A copy of these accounts.
    pub fn duplicate(&self) -> (r: WorkAccount)
        ensures
            r@ == self@,
            r.wf() == self.wf(),
    {
        let tracker = match &self.tracker {
            Some(t) => Some(t.duplicate()),
            None => None,
        };
        WorkAccount { split: self.split.duplicate(), tracker }
    }

    /// Records revenue `amount` from `source` in the tracker (creating it on
    /// first revenue) and in the split's total. If a sum leaves the range of
    /// `u64`, fails with `Overflow` and changes nothing.
    pub fn add_revenue(&mut self, amount: u64, source: String, description: String, now: i64) -> (r:
        Result<(), CustomError>)
        requires
            old(self).wf(),
        ensures
            final(self).wf(),
            r is Ok <==> revenue_fits(old(self)@, amount as nat, source@, now as int),
            r is Err ==> r == Err::<(), CustomError>(CustomError::Overflow) && *final(self)
                == *old(self),
            r is Ok ==> final(self)@ == with_revenue(
                old(self)@,
                amount as nat,
                source@,
                description@,
                now as int,
            ),
    {
        let split_total = match self.split.total_revenue_collected.checked_add(amount) {
            Some(v) => v,
            None => return Err(CustomError::Overflow),
        };
        match &mut self.tracker {
            Some(t) => {
                match t.add_revenue(amount, source, description, now) {
                    Ok(()) => {},
                    Err(e) => return Err(e),
                }
            },
            None => {
                let mut t = RevenueTracker::new(self.split.master_nft, now);
                match t.add_revenue(amount, source, description, now) {
                    Ok(()) => {},
                    Err(e) => return Err(e),
                }
                self.tracker = Some(t);
            },
        }
        self.split.total_revenue_collected = split_total;
        self.split.last_revenue_timestamp = now;
        Ok(())
    }
}

/// The accounts of all works, each work at most once.
#[derive(Debug)]
pub struct Registry {
    pub works: Vec<WorkAccount>,
}

impl View for Registry {
    type V = Seq<WorkView>;

    open spec fn view(&self) -> Seq<WorkView> {
        self.works@.map_values(|w: WorkAccount| w@)
    }
}

/// No two works share a key.
pub open spec fn keys_unique(ws: Seq<WorkView>) -> bool {
    forall|i: int, j: int|
        0 <= i < ws.len() && 0 <= j < ws.len() && i != j ==> #[trigger] ws[i].split.master_nft
            != #[trigger] ws[j].split.master_nft
}

/// Where the work `key` stands, if anywhere.
pub open spec fn work_index(ws: Seq<WorkView>, key: Seq<u8>) -> Option<int>
    decreases ws.len(),
{
    if ws.len() == 0 {
        None
    } else if ws.last().split.master_nft == key {
        Some(ws.len() - 1)
    } else {
        work_index(ws.drop_last(), key)
    }
}

/// `work_index` finds the work with the key, and reports none only when no
/// work has it.
pub proof fn lemma_work_index(ws: Seq<WorkView>, key: Seq<u8>)
    ensures
        match work_index(ws, key) {
            Some(i) => 0 <= i < ws.len() && ws[i].split.master_nft == key,
            None => forall|i: int| 0 <= i < ws.len() ==> ws[i].split.master_nft != key,
        },
    decreases ws.len(),
{
    if ws.len() > 0 && ws.last().split.master_nft != key {
        lemma_work_index(ws.drop_last(), key);
        assert forall|i: int| 0 <= i < ws.len() - 1 implies ws[i].split.master_nft
            == ws.drop_last()[i].split.master_nft by {}
    }
}

proof fn lemma_work_index_unique(ws: Seq<WorkView>, key: Seq<u8>, i: int)
    requires
        keys_unique(ws),
        0 <= i < ws.len(),
        ws[i].split.master_nft == key,
    ensures
        work_index(ws, key) == Some(i),
{
    lemma_work_index(ws, key);
}

/// Two lists of works with the same keys in the same places find a key at the
/// same place.
pub proof fn lemma_work_index_same_keys(a: Seq<WorkView>, b: Seq<WorkView>, key: Seq<u8>)
    requires
        a.len() == b.len(),
        forall|i: int| 0 <= i < a.len() ==> a[i].split.master_nft == b[i].split.master_nft,
    ensures
        work_index(a, key) == work_index(b, key),
    decreases a.len(),
{
    if a.len() > 0 {
        lemma_work_index_same_keys(a.drop_last(), b.drop_last(), key);
    }
}

/// The outcome of recording revenue for the work `key`, checking in this
/// order: a zero amount, a long source label, a long description, an unknown
/// work, then the range of the sums.
pub open spec fn track_outcome(
    ws: Seq<WorkView>,
    key: Seq<u8>,
    amount: nat,
    source: Seq<char>,
    description: Seq<char>,
    now: int,
) -> Result<(), CustomError> {
    if amount == 0 {
        Err(CustomError::InvalidAmount)
    } else if byte_len(source) > MAX_SOURCE_LENGTH {
        Err(CustomError::StringTooLong)
    } else if byte_len(description) > MAX_DESCRIPTION_LENGTH {
        Err(CustomError::StringTooLong)
    } else {
        match work_index(ws, key) {
            None => Err(CustomError::RoyaltySplitNotFound),
            Some(i) => if revenue_fits(ws[i], amount, source, now) {
                Ok(())
            } else {
                Err(CustomError::Overflow)
            },
        }
    }
}

impl Registry {
    /// Every work's accounts are well formed and no key occurs twice.
    pub open spec fn wf(&self) -> bool {
        &&& forall|i: int| 0 <= i < self.works@.len() ==> (#[trigger] self.works@[i]).wf()
        &&& keys_unique(self@)
    }

    /// An empty registry.
    pub fn new() -> (r: Registry)
        ensures
            r.wf(),
            r@ == Seq::<WorkView>::empty(),
    {
        let r = Registry { works: Vec::new() };
        assert(r@ =~= Seq::<WorkView>::empty());
        r
    }

    /// Where the work `master_nft` stands, if anywhere.
    pub fn find(&self, master_nft: &Address) -> (r: Option<usize>)
        requires
            self.wf(),
        ensures
            match r {
                Some(i) => i < self.works@.len() && work_index(self@, master_nft@) == Some(
                    i as int,
                ),
                None => work_index(self@, master_nft@) is None,
            },
    {
        let mut i: usize = 0;
        while i < self.works.len()
            invariant
                0 <= i <= self.works@.len(),
                self.wf(),
                forall|j: int| 0 <= j < i ==> self@[j].split.master_nft != master_nft@,
            decreases self.works@.len() - i,
        {
            if self.works[i].split.master_nft.same_as(master_nft) {
                proof {
                    lemma_work_index_unique(self@, master_nft@, i as int);
                }
                return Some(i);
            }
            i = i + 1;
        }
        proof {
            lemma_work_index(self@, master_nft@);
        }
        None
    }

    /// The split of the work `master_nft`, if it has one.
    pub fn split(&self, master_nft: &Address) -> (r: Option<&RoyaltySplit>)
        requires
            self.wf(),
        ensures
            match work_index(self@, master_nft@) {
                Some(i) => r is Some && r->Some_0@ == self@[i].split,
                None => r is None,
            },
    {
        match self.find(master_nft) {
            Some(i) => Some(&self.works[i].split),
            None => None,
        }
    }

    /// The revenue tracker of the work `master_nft`, if revenue was recorded
    /// for it.
    pub fn tracker(&self, master_nft: &Address) -> (r: Option<&RevenueTracker>)
        requires
            self.wf(),
        ensures
            match work_index(self@, master_nft@) {
                Some(i) => match self@[i].tracker {
                    Some(t) => r is Some && r->Some_0@ == t,
                    None => r is None,
                },
                None => r is None,
            },
    {
        match self.find(master_nft) {
            Some(i) => match &self.works[i].tracker {
                Some(t) => Some(t),
                None => None,
            },
            None => None,
        }
    }

    /// Creates the split of the work `master_nft`, once per work: a second
    /// creation fails with `AlreadyExists`; invalid collaborators fail as
    /// `collaborators_error` says. On failure nothing changes.
    pub fn create_royalty_split(
        &mut self,
        master_nft: Address,
        collaborators: Vec<Collaborator>,
        now: i64,
    ) -> (r: Result<(), CustomError>)
        requires
            old(self).wf(),
        ensures
            final(self).wf(),
            r == (if work_index(old(self)@, master_nft@) is Some {
                Err(CustomError::AlreadyExists)
            } else {
                match collaborators_error(collaborators@) {
                    Some(e) => Err(e),
                    None => Ok(()),
                }
            }),
            r is Err ==> *final(self) == *old(self),
            r is Ok ==> final(self)@ == old(self)@.push(
                WorkView {
                    split: SplitView {
                        master_nft: master_nft@,
                        collaborators: collaborators@,
                        grants: Seq::empty(),
                        total_basis_points: TOTAL_BASIS_POINTS as nat,
                        total_revenue: 0,
                        created_at: now as int,
                        last_revenue_timestamp: 0,
                    },
                    tracker: None,
                },
            ),
    {
        if self.find(&master_nft).is_some() {
            return Err(CustomError::AlreadyExists);
        }
        let split = match RoyaltySplit::create(master_nft, collaborators, now) {
            Ok(s) => s,
            Err(e) => return Err(e),
        };
        let ghost before = self@;
        proof {
            lemma_work_index(before, master_nft@);
        }
        self.works.push(WorkAccount { split, tracker: None });
        assert(self@ =~= before.push(self@.last()));
        assert(self@.last().split.grants =~= Seq::<ShareGrant>::empty());
        Ok(())
    }

    /// Issues a claim token of `share_basis_points` of the work `master_nft` to
    /// `holder`, within what the split allocates to them. Fails with
    /// `RoyaltySplitNotFound` for an unknown work and `InvalidRoyaltyShares`
    /// beyond the allocation; on failure nothing changes.
    pub fn mint_royalty_nft(
        &mut self,
        master_nft: &Address,
        holder: Address,
        mint: Address,
        share_basis_points: u16,
        now: i64,
    ) -> (r: Result<RoyaltyNft, CustomError>)
        requires
            old(self).wf(),
        ensures
            final(self).wf(),
            r is Err ==> final(self)@ == old(self)@,
            match work_index(old(self)@, master_nft@) {
                None => r == Err::<RoyaltyNft, CustomError>(CustomError::RoyaltySplitNotFound),
                Some(i) => {
                    let s = old(self)@[i].split;
                    &&& r is Ok <==> granted_to(s.grants, holder@) + share_basis_points
                        <= allocated_to(s.collaborators, holder@)
                    &&& r is Err ==> r == Err::<RoyaltyNft, CustomError>(
                        CustomError::InvalidRoyaltyShares,
                    )
                    &&& r is Ok ==> {
                        &&& r->Ok_0.master_nft@ == master_nft@
                        &&& r->Ok_0.mint == mint
                        &&& r->Ok_0.share_basis_points == share_basis_points
                        &&& r->Ok_0.amount_claimed == 0
                        &&& r->Ok_0.last_claimed_at == 0
                        &&& r->Ok_0.created_at == now
                        &&& final(self)@ == old(self)@.update(
                            i,
                            WorkView {
                                split: SplitView {
                                    grants: s.grants.push(
                                        ShareGrant { holder, share_basis_points },
                                    ),
                                    ..s
                                },
                                ..old(self)@[i]
                            },
                        )
                    }
                },
            },
    {
        let i = match self.find(master_nft) {
            Some(i) => i,
            None => return Err(CustomError::RoyaltySplitNotFound),
        };
        proof {
            lemma_work_index(self@, master_nft@);
        }
        let ghost before = self@;
        let r = self.works[i].split.mint_royalty_nft(holder, mint, share_basis_points, now);
        proof {
            if r is Ok {
                assert(self@ =~= before.update(i as int, self@[i as int]));
            } else {
                assert(self@ =~= before);
            }
        }
        r
    }

    /// Records revenue `amount` from `source` for the work `master_nft`: the
    /// total, the source's bucket and the split's total grow by `amount`, the
    /// tracker (created on first revenue) logs the event, and both are stamped
    /// with `now`. Fails as `track_outcome` says; on failure nothing changes.
    pub fn track_revenue(
        &mut self,
        master_nft: &Address,
        amount: u64,
        source: String,
        description: String,
        now: i64,
    ) -> (r: Result<(), CustomError>)
        requires
            old(self).wf(),
        ensures
            final(self).wf(),
            r == track_outcome(
                old(self)@,
                master_nft@,
                amount as nat,
                source@,
                description@,
                now as int,
            ),
            r is Err ==> final(self)@ == old(self)@,
            r is Ok ==> {
                let i = work_index(old(self)@, master_nft@)->Some_0;
                final(self)@ == old(self)@.update(
                    i,
                    with_revenue(old(self)@[i], amount as nat, source@, description@, now as int),
                )
            },
    {
        if amount == 0 {
            return Err(CustomError::InvalidAmount);
        }
        if source.as_str().as_bytes().len() > MAX_SOURCE_LENGTH {
            return Err(CustomError::StringTooLong);
        }
        if description.as_str().as_bytes().len() > MAX_DESCRIPTION_LENGTH {
            return Err(CustomError::StringTooLong);
        }
        let i = match self.find(master_nft) {
            Some(i) => i,
            None => return Err(CustomError::RoyaltySplitNotFound),
        };
        let ghost before = self@;
        assert(before[i as int] == self.works@[i as int]@);
        let r = self.works[i].add_revenue(amount, source, description, now);
        proof {
            assert(self@ =~= before.update(i as int, self@[i as int]));
            assert forall|a: int, b: int|
                0 <= a < self@.len() && 0 <= b < self@.len() && a
                    != b implies #[trigger] self@[a].split.master_nft
                != #[trigger] self@[b].split.master_nft by {
                assert(before[a].split.master_nft != before[b].split.master_nft);
            }
        }
        match r {
            Ok(()) => Ok(()),
            Err(e) => Err(e),
        }
    }

    /// Claims for `token` against the split of its own work, as
    /// `RoyaltyNft::claim_revenue` does. A token of an unknown work fails with
    /// `RoyaltySplitNotFound`. On failure the token does not change.
    pub fn claim_revenue(&self, token: &mut RoyaltyNft, treasury: &Treasury, now: i64) -> (r:
        Result<ClaimPayout, CustomError>)
        requires
            self.wf(),
        ensures
            match work_index(self@, old(token).master_nft@) {
                None => r == Err::<ClaimPayout, CustomError>(CustomError::RoyaltySplitNotFound),
                Some(i) => r == payout_outcome(
                    *old(token),
                    self@[i].split.master_nft,
                    self@[i].split.total_revenue,
                    *treasury,
                ),
            },
            r is Err ==> *final(token) == *old(token),
            r is Ok ==> *final(token) == (RoyaltyNft {
                amount_claimed: r->Ok_0.amounts.gross_share,
                last_claimed_at: now,
                ..*old(token)
            }),
    {
        let work = token.master_nft;
        match self.split(&work) {
            Some(split) => token.claim_revenue(split, treasury, now),
            None => Err(CustomError::RoyaltySplitNotFound),
        }
    }

    /// A copy of the registry.
    pub fn duplicate(&self) -> (r: Registry)
        requires
            self.wf(),
        ensures
            r.wf(),
            r@ == self@,
    {
        let mut works: Vec<WorkAccount> = Vec::new();
        let mut i: usize = 0;
        while i < self.works.len()
            invariant
                0 <= i <= self.works@.len(),
                self.wf(),
                works@.len() == i,
                forall|j: int| 0 <= j < i ==> (#[trigger] works@[j])@ == self@[j],
                forall|j: int| 0 <= j < i ==> (#[trigger] works@[j]).wf(),
            decreases self.works@.len() - i,
        {
            let w = self.works[i].duplicate();
            works.push(w);
            i = i + 1;
        }
        let r = Registry { works };
        assert(r@ =~= self@);
        r
    }
}

} // verus!
