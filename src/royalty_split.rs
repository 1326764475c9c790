use vstd::prelude::*;

use crate::address::Address;
use crate::constants::{MAX_COLLABORATORS, MAX_COLLABORATOR_NAME_LENGTH, TOTAL_BASIS_POINTS};
use crate::error::CustomError;
use crate::royalty_nft::RoyaltyNft;

verus! {

/// A rights holder of a work and the share of its revenue they own.
#[derive(Debug)]
pub struct Collaborator {
    pub address: Address,
    pub name: String,
    pub share_basis_points: u16,
    pub amount_claimed: u64,
}

/// A part of a collaborator's allocation issued as a claim token.
#[derive(Clone, Copy, Debug)]
pub struct ShareGrant {
    pub holder: Address,
    pub share_basis_points: u16,
}

/// How the revenue of one work is shared.
#[derive(Debug)]
pub struct RoyaltySplit {
    /// The work this split belongs to.
    pub master_nft: Address,
    pub collaborators: Vec<Collaborator>,
    /// The shares issued as claim tokens so far, in issue order.
    pub grants: Vec<ShareGrant>,
    pub total_basis_points: u16,
    /// Revenue recorded for the work so far.
    pub total_revenue_collected: u64,
    pub created_at: i64,
    pub last_revenue_timestamp: i64,
}

/// What a split says, with amounts as natural numbers.
pub struct SplitView {
    pub master_nft: Seq<u8>,
    pub collaborators: Seq<Collaborator>,
    pub grants: Seq<ShareGrant>,
    pub total_basis_points: nat,
    pub total_revenue: nat,
    pub created_at: int,
    pub last_revenue_timestamp: int,
}

impl View for RoyaltySplit {
    type V = SplitView;

    open spec fn view(&self) -> SplitView {
        SplitView {
            master_nft: self.master_nft@,
            collaborators: self.collaborators@,
            grants: self.grants@,
            total_basis_points: self.total_basis_points as nat,
            total_revenue: self.total_revenue_collected as nat,
            created_at: self.created_at as int,
            last_revenue_timestamp: self.last_revenue_timestamp as int,
        }
    }
}

/// The length of a text in bytes (UTF-8).
pub open spec fn byte_len(s: Seq<char>) -> nat {
    vstd::utf8::encode_utf8(s).len()
}

/// The sum of the collaborators' shares.
pub open spec fn share_sum(c: Seq<Collaborator>) -> nat
    decreases c.len(),
{
    if c.len() == 0 {
        0
    } else {
        share_sum(c.drop_last()) + c.last().share_basis_points as nat
    }
}

/// The sum of the shares listed for `holder`.
pub open spec fn allocated_to(c: Seq<Collaborator>, holder: Seq<u8>) -> nat
    decreases c.len(),
{
    if c.len() == 0 {
        0
    } else {
        allocated_to(c.drop_last(), holder) + if c.last().address@ == holder {
            c.last().share_basis_points as nat
        } else {
            0
        }
    }
}

/// The sum of the shares issued to `holder`.
pub open spec fn granted_to(g: Seq<ShareGrant>, holder: Seq<u8>) -> nat
    decreases g.len(),
{
    if g.len() == 0 {
        0
    } else {
        granted_to(g.drop_last(), holder) + if g.last().holder@ == holder {
            g.last().share_basis_points as nat
        } else {
            0
        }
    }
}

/// A collaborator list that a split accepts: one to `MAX_COLLABORATORS`
/// entries, each with a positive share and a name of at most
/// `MAX_COLLABORATOR_NAME_LENGTH` bytes, shares adding up to 100%.
pub open spec fn valid_collaborators(c: Seq<Collaborator>) -> bool {
    &&& 1 <= c.len() <= MAX_COLLABORATORS
    &&& forall|i: int| 0 <= i < c.len() ==> #[trigger] c[i].share_basis_points > 0
    &&& forall|i: int|
        0 <= i < c.len() ==> byte_len(#[trigger] c[i].name@) <= MAX_COLLABORATOR_NAME_LENGTH
    &&& share_sum(c) == TOTAL_BASIS_POINTS
}

/// The error that `create` reports for a collaborator list, checking in this
/// order: emptiness, length, then each entry in turn (a zero share, then a long
/// name), then the sum of the shares.
pub open spec fn collaborators_error(c: Seq<Collaborator>) -> Option<CustomError> {
    if c.len() == 0 {
        Some(CustomError::InvalidRoyaltySplit)
    } else if c.len() > MAX_COLLABORATORS {
        Some(CustomError::TooManyCollaborators)
    } else {
        match entry_error(c, c.len() as int) {
            Some(e) => Some(e),
            None => if share_sum(c) != TOTAL_BASIS_POINTS {
                Some(CustomError::InvalidRoyaltyShares)
            } else {
                None
            },
        }
    }
}

/// The first error among the first `n` entries.
pub open spec fn entry_error(c: Seq<Collaborator>, n: int) -> Option<CustomError>
    decreases n,
{
    if n <= 0 {
        None
    } else {
        match entry_error(c, n - 1) {
            Some(e) => Some(e),
            None => if c[n - 1].share_basis_points == 0 {
                Some(CustomError::InvalidRoyaltyShares)
            } else if byte_len(c[n - 1].name@) > MAX_COLLABORATOR_NAME_LENGTH {
                Some(CustomError::StringTooLong)
            } else {
                None
            },
        }
    }
}

proof fn lemma_entry_error_none(c: Seq<Collaborator>, n: int)
    requires
        0 <= n <= c.len(),
    ensures
        entry_error(c, n) is None <==> forall|i: int|
            0 <= i < n ==> c[i].share_basis_points > 0 && byte_len(c[i].name@)
                <= MAX_COLLABORATOR_NAME_LENGTH,
    decreases n,
{
    if n > 0 {
        lemma_entry_error_none(c, n - 1);
    }
}

proof fn lemma_entry_error_sticky(c: Seq<Collaborator>, k: int, n: int)
    requires
        0 < k <= n,
        entry_error(c, k) is Some,
    ensures
        entry_error(c, n) == entry_error(c, k),
    decreases n - k,
{
    if n > k {
        lemma_entry_error_sticky(c, k, n - 1);
    }
}

proof fn lemma_share_sum_bound(c: Seq<Collaborator>)
    ensures
        share_sum(c) <= c.len() * 0xffff,
    decreases c.len(),
{
    if c.len() > 0 {
        lemma_share_sum_bound(c.drop_last());
    }
}

proof fn lemma_allocated_bound(c: Seq<Collaborator>, holder: Seq<u8>)
    ensures
        allocated_to(c, holder) <= share_sum(c),
    decreases c.len(),
{
    if c.len() > 0 {
        lemma_allocated_bound(c.drop_last(), holder);
    }
}

proof fn lemma_granted_prefix(g: Seq<ShareGrant>, i: int, holder: Seq<u8>)
    requires
        0 <= i <= g.len(),
    ensures
        granted_to(g.take(i), holder) <= granted_to(g, holder),
    decreases g.len(),
{
    if i < g.len() {
        assert(g.drop_last().take(i) =~= g.take(i));
        lemma_granted_prefix(g.drop_last(), i, holder);
    } else {
        assert(g.take(i) =~= g);
    }
}

impl RoyaltySplit {
    /// Shares add up to 100% and no holder was issued more than allocated.
    pub open spec fn wf(&self) -> bool {
        &&& valid_collaborators(self.collaborators@)
        &&& self.total_basis_points == TOTAL_BASIS_POINTS
        &&& forall|h: Seq<u8>|
            #[trigger] granted_to(self.grants@, h) <= allocated_to(self.collaborators@, h)
    }

    /// A split for `master_nft` among `collaborators`, with nothing collected
    /// and nothing issued yet. Fails as `collaborators_error` says.
    pub fn create(master_nft: Address, collaborators: Vec<Collaborator>, now: i64) -> (r: Result<
        RoyaltySplit,
        CustomError,
    >)
        ensures
            match r {
                Ok(s) => {
                    &&& collaborators_error(collaborators@) is None
                    &&& s.wf()
                    &&& s.master_nft == master_nft
                    &&& s.collaborators@ == collaborators@
                    &&& s.grants@.len() == 0
                    &&& s.total_basis_points == TOTAL_BASIS_POINTS
                    &&& s.total_revenue_collected == 0
                    &&& s.created_at == now
                    &&& s.last_revenue_timestamp == 0
                },
                Err(e) => collaborators_error(collaborators@) == Some(e),
            },
            r is Ok <==> valid_collaborators(collaborators@),
            r is Ok ==> share_sum(r->Ok_0.collaborators@) == TOTAL_BASIS_POINTS,
            share_sum(collaborators@) != TOTAL_BASIS_POINTS ==> r is Err,
    {
        if collaborators.len() == 0 {
            return Err(CustomError::InvalidRoyaltySplit);
        }
        if collaborators.len() > MAX_COLLABORATORS {
            return Err(CustomError::TooManyCollaborators);
        }
        let mut total: u32 = 0;
        let mut i: usize = 0;
        while i < collaborators.len()
            invariant
                0 <= i <= collaborators@.len() <= MAX_COLLABORATORS,
                entry_error(collaborators@, i as int) is None,
                total == share_sum(collaborators@.take(i as int)),
                total <= i * 0xffff,
            decreases collaborators@.len() - i,
        {
            let c = &collaborators[i];
            proof {
                assert(collaborators@.take(i + 1).drop_last() =~= collaborators@.take(i as int));
            }
            let ghost n = collaborators@.len() as int;
            if c.share_basis_points == 0 {
                proof {
                    lemma_entry_error_sticky(collaborators@, i + 1, n);
                }
                return Err(CustomError::InvalidRoyaltyShares);
            }
            if c.name.as_str().as_bytes().len() > MAX_COLLABORATOR_NAME_LENGTH {
                proof {
                    lemma_entry_error_sticky(collaborators@, i + 1, n);
                }
                return Err(CustomError::StringTooLong);
            }
            total = total + c.share_basis_points as u32;
            i = i + 1;
        }
        proof {
            assert(collaborators@.take(i as int) =~= collaborators@);
            lemma_entry_error_none(collaborators@, collaborators@.len() as int);
        }
        if total != TOTAL_BASIS_POINTS as u32 {
            return Err(CustomError::InvalidRoyaltyShares);
        }
        let s = RoyaltySplit {
            master_nft,
            collaborators,
            grants: Vec::new(),
            total_basis_points: TOTAL_BASIS_POINTS,
            total_revenue_collected: 0,
            created_at: now,
            last_revenue_timestamp: 0,
        };
        assert forall|h: Seq<u8>| #[trigger] granted_to(s.grants@, h) <= allocated_to(
            s.collaborators@,
            h,
        ) by {
            assert(granted_to(s.grants@, h) == 0);
        }
        Ok(s)
    }

    /// A copy of this split.
    pub fn duplicate(&self) -> (r: RoyaltySplit)
        ensures
            r@ == self@,
    {
        let mut collaborators: Vec<Collaborator> = Vec::new();
        let mut i: usize = 0;
        while i < self.collaborators.len()
            invariant
                0 <= i <= self.collaborators@.len(),
                collaborators@ == self.collaborators@.take(i as int),
            decreases self.collaborators@.len() - i,
        {
            let c = &self.collaborators[i];
            collaborators.push(
                Collaborator {
                    address: c.address,
                    name: c.name.clone(),
                    share_basis_points: c.share_basis_points,
                    amount_claimed: c.amount_claimed,
                },
            );
            assert(collaborators@ =~= self.collaborators@.take(i + 1));
            i = i + 1;
        }
        let mut grants: Vec<ShareGrant> = Vec::new();
        let mut j: usize = 0;
        while j < self.grants.len()
            invariant
                0 <= j <= self.grants@.len(),
                grants@ == self.grants@.take(j as int),
            decreases self.grants@.len() - j,
        {
            let g = &self.grants[j];
            grants.push(ShareGrant { holder: g.holder, share_basis_points: g.share_basis_points });
            assert(grants@ =~= self.grants@.take(j + 1));
            j = j + 1;
        }
        assert(collaborators@ =~= self.collaborators@);
        assert(grants@ =~= self.grants@);
        let r = RoyaltySplit {
            master_nft: self.master_nft,
            collaborators,
            grants,
            total_basis_points: self.total_basis_points,
            total_revenue_collected: self.total_revenue_collected,
            created_at: self.created_at,
            last_revenue_timestamp: self.last_revenue_timestamp,
        };
        r
    }

    /// The sum of the shares this split allocates to `holder`.
    pub fn allocated_share(&self, holder: &Address) -> (r: u16)
        requires
            self.wf(),
        ensures
            r == allocated_to(self.collaborators@, holder@),
    {
        let ghost c = self.collaborators@;
        let mut total: u32 = 0;
        let mut i: usize = 0;
        while i < self.collaborators.len()
            invariant
                0 <= i <= c.len(),
                c == self.collaborators@,
                c.len() <= MAX_COLLABORATORS,
                total == allocated_to(c.take(i as int), holder@),
                total <= i * 0xffff,
            decreases c.len() - i,
        {
            let entry = &self.collaborators[i];
            proof {
                assert(c.take(i + 1).drop_last() =~= c.take(i as int));
            }
            if entry.address.same_as(holder) {
                total = total + entry.share_basis_points as u32;
            }
            i = i + 1;
        }
        proof {
            assert(c.take(i as int) =~= c);
            lemma_allocated_bound(c, holder@);
        }
        total as u16
    }

    /// The sum of the shares issued to `holder` so far.
    pub fn granted_share(&self, holder: &Address) -> (r: u16)
        requires
            self.wf(),
        ensures
            r == granted_to(self.grants@, holder@),
    {
        let ghost g = self.grants@;
        proof {
            lemma_allocated_bound(self.collaborators@, holder@);
            assert(granted_to(g, holder@) <= allocated_to(self.collaborators@, holder@));
        }
        let mut total: u32 = 0;
        let mut i: usize = 0;
        while i < self.grants.len()
            invariant
                0 <= i <= g.len(),
                g == self.grants@,
                granted_to(g, holder@) <= TOTAL_BASIS_POINTS,
                total == granted_to(g.take(i as int), holder@),
            decreases g.len() - i,
        {
            let grant = &self.grants[i];
            proof {
                assert(g.take(i + 1).drop_last() =~= g.take(i as int));
                lemma_granted_prefix(g, i + 1, holder@);
            }
            if grant.holder.same_as(holder) {
                total = total + grant.share_basis_points as u32;
            }
            i = i + 1;
        }
        proof {
            assert(g.take(i as int) =~= g);
        }
        total as u16
    }

    /// Issues a claim token of `share_basis_points` to `holder`. The shares
    /// issued to a holder may not exceed what the split allocates to them;
    /// otherwise fails with `InvalidRoyaltyShares` and changes nothing.
    pub fn mint_royalty_nft(
        &mut self,
        holder: Address,
        mint: Address,
        share_basis_points: u16,
        now: i64,
    ) -> (r: Result<RoyaltyNft, CustomError>)
        requires
            old(self).wf(),
        ensures
            final(self).wf(),
            r is Ok <==> granted_to(old(self).grants@, holder@) + share_basis_points
                <= allocated_to(old(self).collaborators@, holder@),
            r is Err ==> r == Err::<RoyaltyNft, CustomError>(CustomError::InvalidRoyaltyShares)
                && *final(self) == *old(self),
            r is Ok ==> {
                &&& r->Ok_0 == RoyaltyNft {
                    master_nft: old(self).master_nft,
                    mint,
                    share_basis_points,
                    amount_claimed: 0,
                    last_claimed_at: 0,
                    created_at: now,
                }
                &&& final(self).grants@ == old(self).grants@.push(
                    ShareGrant { holder, share_basis_points },
                )
                &&& final(self).master_nft == old(self).master_nft
                &&& final(self).collaborators == old(self).collaborators
                &&& final(self).total_basis_points == old(self).total_basis_points
                &&& final(self).total_revenue_collected == old(self).total_revenue_collected
                &&& final(self).created_at == old(self).created_at
                &&& final(self).last_revenue_timestamp == old(self).last_revenue_timestamp
            },
    {
        let allocated = self.allocated_share(&holder);
        let granted = self.granted_share(&holder);
        if granted as u32 + share_basis_points as u32 > allocated as u32 {
            return Err(CustomError::InvalidRoyaltyShares);
        }
        let grant = ShareGrant { holder, share_basis_points };
        let ghost g = self.grants@;
        self.grants.push(grant);
        assert forall|h: Seq<u8>| #[trigger] granted_to(self.grants@, h) <= allocated_to(
            self.collaborators@,
            h,
        ) by {
            assert(self.grants@.drop_last() =~= g);
            assert(granted_to(g, h) <= allocated_to(self.collaborators@, h));
        }
        Ok(
            RoyaltyNft {
                master_nft: self.master_nft,
                mint,
                share_basis_points,
                amount_claimed: 0,
                last_claimed_at: 0,
                created_at: now,
            },
        )
    }
}

} // verus!
