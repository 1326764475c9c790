use vstd::prelude::*;

use crate::address::Address;
use crate::constants::TOTAL_BASIS_POINTS;
use crate::error::CustomError;
use crate::royalty_split::RoyaltySplit;
use crate::treasury::{Transfer, Treasury};

verus! {

/// A claim token: its holder's right to a share of a work's revenue.
#[derive(Clone, Copy, Debug)]
pub struct RoyaltyNft {
    /// The work whose revenue the token shares in.
    pub master_nft: Address,
    /// The token's own mint.
    pub mint: Address,
    pub share_basis_points: u16,
    /// Gross revenue claimed so far, fees included.
    pub amount_claimed: u64,
    pub last_claimed_at: i64,
    pub created_at: i64,
}

/// The amounts of one claim.
#[derive(Clone, Copy, Debug, PartialEq, Eq, Structural)]
pub struct ClaimAmounts {
    /// The holder's share of all revenue so far.
    pub gross_share: u64,
    /// What is owed now: the gross share less what was claimed before.
    pub claimable: u64,
    /// The platform's part of `claimable`.
    pub platform_fee: u64,
    /// What the holder receives.
    pub net_amount: u64,
}

/// The transfers of a claim, for the caller to carry out: `platform_fee` to
/// `fee_destination` (none when it is zero), then `net_amount` to the holder.
#[derive(Clone, Copy, Debug)]
pub struct ClaimPayout {
    pub amounts: ClaimAmounts,
    pub fee_destination: Address,
}

impl ClaimPayout {
    /// The transfers to make, in order, to pay `claimant`: the platform fee to
    /// the fee destination unless it is zero, then the net amount to the
    /// claimant.
    pub fn transfers(&self, claimant: Address) -> (r: Vec<Transfer>)
        ensures
            r@ == (if self.amounts.platform_fee == 0 {
                seq![Transfer { to: claimant, amount: self.amounts.net_amount }]
            } else {
                seq![
                    Transfer { to: self.fee_destination, amount: self.amounts.platform_fee },
                    Transfer { to: claimant, amount: self.amounts.net_amount },
                ]
            }),
    {
        let mut r: Vec<Transfer> = Vec::new();
        if self.amounts.platform_fee > 0 {
            r.push(Transfer { to: self.fee_destination, amount: self.amounts.platform_fee });
        }
        r.push(Transfer { to: claimant, amount: self.amounts.net_amount });
        proof {
            if self.amounts.platform_fee == 0 {
                assert(r@ =~= seq![Transfer { to: claimant, amount: self.amounts.net_amount }]);
            } else {
                assert(r@ =~= seq![
                    Transfer { to: self.fee_destination, amount: self.amounts.platform_fee },
                    Transfer { to: claimant, amount: self.amounts.net_amount },
                ]);
            }
        }
        r
    }
}

/// The outcome of a claim on a share of `share_bps` of `total` revenue, of which
/// `claimed` was claimed before, at a platform fee of `fee_bps`. Each product
/// must stay in the range of `u64`; a fee rate above 100%, which would make the
/// fee exceed the claim, is reported as `Overflow` too.
pub open spec fn claim_outcome(total: nat, share_bps: nat, claimed: nat, fee_bps: nat) -> Result<
    ClaimAmounts,
    CustomError,
> {
    if total * share_bps > u64::MAX {
        Err(CustomError::Overflow)
    } else {
        let gross = total * share_bps / (TOTAL_BASIS_POINTS as nat);
        if gross <= claimed {
            Err(CustomError::NoRevenueToClaim)
        } else {
            let claimable = (gross - claimed) as nat;
            if claimable * fee_bps > u64::MAX {
                Err(CustomError::Overflow)
            } else {
                let fee = claimable * fee_bps / (TOTAL_BASIS_POINTS as nat);
                if fee > claimable {
                    Err(CustomError::Overflow)
                } else if fee == claimable {
                    Err(CustomError::AmountTooSmall)
                } else {
                    Ok(
                        ClaimAmounts {
                            gross_share: gross as u64,
                            claimable: claimable as u64,
                            platform_fee: fee as u64,
                            net_amount: (claimable - fee) as u64,
                        },
                    )
                }
            }
        }
    }
}

/// Computes a claim: the gross share of `total` revenue, less what was
/// `claimed` before, split into the platform fee and the holder's part.
pub fn compute_claim(total: u64, share_bps: u16, claimed: u64, fee_bps: u16) -> (r: Result<
    ClaimAmounts,
    CustomError,
>)
    ensures
        r == claim_outcome(total as nat, share_bps as nat, claimed as nat, fee_bps as nat),
{
    let product = match total.checked_mul(share_bps as u64) {
        Some(p) => p,
        None => return Err(CustomError::Overflow),
    };
    let gross = product / (TOTAL_BASIS_POINTS as u64);
    if gross <= claimed {
        return Err(CustomError::NoRevenueToClaim);
    }
    let claimable = gross - claimed;
    let fee_product = match claimable.checked_mul(fee_bps as u64) {
        Some(p) => p,
        None => return Err(CustomError::Overflow),
    };
    let fee = fee_product / (TOTAL_BASIS_POINTS as u64);
    if fee > claimable {
        return Err(CustomError::Overflow);
    }
    let net = claimable - fee;
    if net == 0 {
        return Err(CustomError::AmountTooSmall);
    }
    Ok(ClaimAmounts { gross_share: gross, claimable, platform_fee: fee, net_amount: net })
}

/// The outcome of a claim by `token` against the split of the work
/// `split_work`, whose revenue so far is `total`, under `treasury`'s fee.
pub open spec fn payout_outcome(
    token: RoyaltyNft,
    split_work: Seq<u8>,
    total: nat,
    treasury: Treasury,
) -> Result<ClaimPayout, CustomError> {
    if token.master_nft@ != split_work {
        Err(CustomError::InvalidRoyaltySplit)
    } else {
        match claim_outcome(
            total,
            token.share_basis_points as nat,
            token.amount_claimed as nat,
            treasury.platform_fee_basis_points as nat,
        ) {
            Ok(a) => Ok(ClaimPayout { amounts: a, fee_destination: treasury.treasury_wallet }),
            Err(e) => Err(e),
        }
    }
}

impl RoyaltyNft {
    /// Works out what the holder may claim now from `split`'s revenue, without
    /// changing anything. A split of another work is refused.
    pub fn prepare_claim(&self, split: &RoyaltySplit, treasury: &Treasury) -> (r: Result<
        ClaimPayout,
        CustomError,
    >)
        ensures
            r == payout_outcome(
                *self,
                split.master_nft@,
                split.total_revenue_collected as nat,
                *treasury,
            ),
    {
        if !self.master_nft.same_as(&split.master_nft) {
            return Err(CustomError::InvalidRoyaltySplit);
        }
        match compute_claim(
            split.total_revenue_collected,
            self.share_basis_points,
            self.amount_claimed,
            treasury.platform_fee_basis_points,
        ) {
            Ok(amounts) => Ok(ClaimPayout { amounts, fee_destination: treasury.treasury_wallet }),
            Err(e) => Err(e),
        }
    }

    /// Records a claim whose transfers were made: the gross claimable amount
    /// (fee included) is added to what was claimed, and the time is stamped.
    /// If the sum leaves the range of `u64`, fails with `Overflow` and changes
    /// nothing.
    pub fn commit_claim(&mut self, amounts: &ClaimAmounts, now: i64) -> (r: Result<(), CustomError>)
        ensures
            r is Ok <==> old(self).amount_claimed + amounts.claimable <= u64::MAX,
            r is Err ==> r == Err::<(), CustomError>(CustomError::Overflow) && *final(self)
                == *old(self),
            r is Ok ==> *final(self) == (RoyaltyNft {
                amount_claimed: (old(self).amount_claimed + amounts.claimable) as u64,
                last_claimed_at: now,
                ..*old(self)
            }),
    {
        match self.amount_claimed.checked_add(amounts.claimable) {
            Some(v) => {
                self.amount_claimed = v;
                self.last_claimed_at = now;
                Ok(())
            },
            None => Err(CustomError::Overflow),
        }
    }

    /// Claims the holder's revenue: computes the payout and records it at once.
    /// Suited to a caller whose transfers roll back together with this state;
    /// otherwise use `prepare_claim`, make the transfers, then `commit_claim`.
    /// On failure nothing changes.
    pub fn claim_revenue(&mut self, split: &RoyaltySplit, treasury: &Treasury, now: i64) -> (r:
        Result<ClaimPayout, CustomError>)
        ensures
            r == payout_outcome(
                *old(self),
                split.master_nft@,
                split.total_revenue_collected as nat,
                *treasury,
            ),
            r is Err ==> *final(self) == *old(self),
            r is Ok ==> *final(self) == (RoyaltyNft {
                amount_claimed: r->Ok_0.amounts.gross_share,
                last_claimed_at: now,
                ..*old(self)
            }),
    {
        let payout = match self.prepare_claim(split, treasury) {
            Ok(p) => p,
            Err(e) => return Err(e),
        };
        match self.commit_claim(&payout.amounts, now) {
            Ok(()) => Ok(payout),
            Err(e) => Err(e),
        }
    }
}

/// A successful claim leaves nothing to claim: claiming again before more
/// revenue arrives fails with `NoRevenueToClaim`, whatever the fee rate then.
pub proof fn lemma_claim_then_nothing_left(
    total: nat,
    share_bps: nat,
    claimed: nat,
    fee_bps: nat,
    next_fee_bps: nat,
)
    requires
        claim_outcome(total, share_bps, claimed, fee_bps) is Ok,
    ensures
        claimed + claim_outcome(total, share_bps, claimed, fee_bps)->Ok_0.claimable
            == claim_outcome(total, share_bps, claimed, fee_bps)->Ok_0.gross_share,
        claim_outcome(
            total,
            share_bps,
            (claimed + claim_outcome(total, share_bps, claimed, fee_bps)->Ok_0.claimable) as nat,
            next_fee_bps,
        ) == Err::<ClaimAmounts, CustomError>(CustomError::NoRevenueToClaim),
{
}

/// Claiming twice in a row on the same revenue: when the first claim succeeds,
/// the token it leaves behind has claimed its whole gross share, and the second
/// claim fails with `NoRevenueToClaim`, whatever the treasury's fee then.
pub proof fn lemma_repeat_claim_fails(
    token: RoyaltyNft,
    work: Seq<u8>,
    total: nat,
    treasury: Treasury,
    later_treasury: Treasury,
    now: i64,
)
    requires
        payout_outcome(token, work, total, treasury) is Ok,
    ensures
        payout_outcome(
            RoyaltyNft {
                amount_claimed: payout_outcome(
                    token,
                    work,
                    total,
                    treasury,
                )->Ok_0.amounts.gross_share,
                last_claimed_at: now,
                ..token
            },
            work,
            total,
            later_treasury,
        ) == Err::<ClaimPayout, CustomError>(CustomError::NoRevenueToClaim),
{
    lemma_claim_then_nothing_left(
        total,
        token.share_basis_points as nat,
        token.amount_claimed as nat,
        treasury.platform_fee_basis_points as nat,
        later_treasury.platform_fee_basis_points as nat,
    );
}

} // verus!
