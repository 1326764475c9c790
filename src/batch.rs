use vstd::prelude::*;

use crate::address::Address;
use crate::constants::{MAX_STREAMING_BATCH_SIZE, TOTAL_BASIS_POINTS};
use crate::error::CustomError;
use crate::registry::{
    lemma_work_index, lemma_work_index_same_keys, revenue_fits, with_revenue,
    work_index, Registry, WorkView,
};
use crate::treasury::{Transfer, Treasury};

verus! {

/// One record of a streaming batch: revenue `amount` for the work `master_nft`.
#[derive(Clone, Copy, Debug)]
pub struct StreamingData {
    pub master_nft: Address,
    pub amount: u64,
}

/// Why a batch record was passed over.
#[derive(Clone, Copy, Debug, PartialEq, Eq, Structural)]
pub enum SkipReason {
    /// No split exists for the work.
    NoRoyaltySplit,
    /// The work has no revenue tracker yet.
    NoRevenueTracker,
}

/// What became of one batch record.
#[derive(Clone, Copy, Debug, PartialEq, Eq, Structural)]
pub enum RecordOutcome {
    Applied,
    Skipped(SkipReason),
}

/// The result of a streaming batch: what became of each record, and the
/// platform fee for the caller to transfer to `fee_destination`.
#[derive(Debug)]
pub struct BatchReport {
    pub outcomes: Vec<RecordOutcome>,
    pub total_fee: u64,
    pub fee_destination: Address,
}

impl BatchReport {
    /// The fee transfer to make from the provider, none when the fee is zero.
    pub fn fee_transfer(&self) -> (r: Option<Transfer>)
        ensures
            r == (if self.total_fee == 0 {
                None
            } else {
                Some(Transfer { to: self.fee_destination, amount: self.total_fee })
            }),
    {
        if self.total_fee == 0 {
            None
        } else {
            Some(Transfer { to: self.fee_destination, amount: self.total_fee })
        }
    }
}

/// The source label of batch revenue.
pub open spec fn streaming_label() -> Seq<char> {
    "streaming"@
}

/// The description logged for batch revenue.
pub open spec fn batch_description() -> Seq<char> {
    "Batch streaming revenue"@
}

/// The platform fee on `amount` at `fee_bps`, rounded down.
pub open spec fn fee_of(amount: nat, fee_bps: nat) -> nat {
    amount * fee_bps / (TOTAL_BASIS_POINTS as nat)
}

/// What becomes of a batch record: records of works without a split or
/// without a tracker are passed over.
pub open spec fn record_outcome(ws: Seq<WorkView>, rec: StreamingData) -> RecordOutcome {
    match work_index(ws, rec.master_nft@) {
        None => RecordOutcome::Skipped(SkipReason::NoRoyaltySplit),
        Some(i) => if ws[i].tracker is None {
            RecordOutcome::Skipped(SkipReason::NoRevenueTracker)
        } else {
            RecordOutcome::Applied
        },
    }
}

/// Applies one record to the works and the fee so far; `None` when a sum
/// leaves the range of `u64`.
pub open spec fn batch_step(
    ws: Seq<WorkView>,
    fee: nat,
    rec: StreamingData,
    fee_bps: nat,
    now: int,
) -> Option<(Seq<WorkView>, nat)> {
    if record_outcome(ws, rec) != RecordOutcome::Applied {
        Some((ws, fee))
    } else {
        let i = work_index(ws, rec.master_nft@)->Some_0;
        let amount = rec.amount as nat;
        if amount * fee_bps > u64::MAX || fee + fee_of(amount, fee_bps) > u64::MAX
            || !revenue_fits(ws[i], amount, streaming_label(), now) {
            None
        } else {
            Some(
                (
                    ws.update(
                        i,
                        with_revenue(ws[i], amount, streaming_label(), batch_description(), now),
                    ),
                    fee + fee_of(amount, fee_bps),
                ),
            )
        }
    }
}

/// Applies the records in order, starting from no fee.
pub open spec fn batch_apply(
    ws: Seq<WorkView>,
    records: Seq<StreamingData>,
    fee_bps: nat,
    now: int,
) -> Option<(Seq<WorkView>, nat)>
    decreases records.len(),
{
    if records.len() == 0 {
        Some((ws, 0))
    } else {
        match batch_apply(ws, records.drop_last(), fee_bps, now) {
            None => None,
            Some(st) => batch_step(st.0, st.1, records.last(), fee_bps, now),
        }
    }
}

/// The outcome of a streaming batch submitted by `provider`: the works after
/// it and the total fee, or the error, checking in this order: an empty batch,
/// an oversized one, a provider other than the treasury's, a zero amount, then
/// the range of every sum, the treasury's collected fees included.
pub open spec fn batch_outcome(
    ws: Seq<WorkView>,
    treasury: Treasury,
    provider: Seq<u8>,
    records: Seq<StreamingData>,
    now: int,
) -> Result<(Seq<WorkView>, nat), CustomError> {
    if records.len() == 0 {
        Err(CustomError::InvalidData)
    } else if records.len() > MAX_STREAMING_BATCH_SIZE {
        Err(CustomError::BatchTooLarge)
    } else if provider != treasury.streaming_provider@ {
        Err(CustomError::Unauthorized)
    } else if exists|k: int| 0 <= k < records.len() && #[trigger] records[k].amount == 0 {
        Err(CustomError::InvalidAmount)
    } else {
        match batch_apply(ws, records, treasury.platform_fee_basis_points as nat, now) {
            None => Err(CustomError::Overflow),
            Some(st) => if treasury.total_revenue_collected + st.1 > u64::MAX {
                Err(CustomError::Overflow)
            } else {
                Ok(st)
            },
        }
    }
}

/// Works with the same keys in the same places, each with a tracker exactly
/// when the other has one.
pub open spec fn same_shape(a: Seq<WorkView>, b: Seq<WorkView>) -> bool {
    &&& a.len() == b.len()
    &&& forall|i: int|
        0 <= i < a.len() ==> (#[trigger] a[i]).split.master_nft == b[i].split.master_nft && (
        a[i].tracker is Some <==> b[i].tracker is Some)
}

proof fn lemma_same_shape_outcome(a: Seq<WorkView>, b: Seq<WorkView>, rec: StreamingData)
    requires
        same_shape(a, b),
    ensures
        record_outcome(a, rec) == record_outcome(b, rec),
        work_index(a, rec.master_nft@) == work_index(b, rec.master_nft@),
{
    lemma_work_index_same_keys(a, b, rec.master_nft@);
    lemma_work_index(a, rec.master_nft@);
}

/// A batch changes no key and creates no tracker.
proof fn lemma_batch_apply_shape(
    ws: Seq<WorkView>,
    records: Seq<StreamingData>,
    fee_bps: nat,
    now: int,
)
    requires
        batch_apply(ws, records, fee_bps, now) is Some,
    ensures
        same_shape(batch_apply(ws, records, fee_bps, now)->Some_0.0, ws),
    decreases records.len(),
{
    if records.len() > 0 {
        lemma_batch_apply_shape(ws, records.drop_last(), fee_bps, now);
        let st = batch_apply(ws, records.drop_last(), fee_bps, now)->Some_0;
        let rec = records.last();
        lemma_work_index(st.0, rec.master_nft@);
    }
}

/// Once a prefix of a batch fails, the whole batch fails.
proof fn lemma_batch_apply_none(
    ws: Seq<WorkView>,
    records: Seq<StreamingData>,
    n: int,
    fee_bps: nat,
    now: int,
)
    requires
        0 <= n <= records.len(),
        batch_apply(ws, records.take(n), fee_bps, now) is None,
    ensures
        batch_apply(ws, records, fee_bps, now) is None,
    decreases records.len() - n,
{
    if n < records.len() {
        assert(records.take(n + 1).drop_last() =~= records.take(n));
        lemma_batch_apply_none(ws, records, n + 1, fee_bps, now);
    } else {
        assert(records.take(n) =~= records);
    }
}

/// A record for a work without a split changes nothing, wherever it stands in
/// the batch: the batch has the same result without it, and the record is
/// reported as skipped.
pub proof fn lemma_unknown_work_skipped(
    ws: Seq<WorkView>,
    records: Seq<StreamingData>,
    k: int,
    fee_bps: nat,
    now: int,
)
    requires
        0 <= k < records.len(),
        work_index(ws, records[k].master_nft@) is None,
    ensures
        batch_apply(ws, records, fee_bps, now) == batch_apply(ws, records.remove(k), fee_bps, now),
        record_outcome(ws, records[k]) == RecordOutcome::Skipped(SkipReason::NoRoyaltySplit),
    decreases records.len(),
{
    let rest = records.drop_last();
    if k == records.len() - 1 {
        assert(records.remove(k) =~= rest);
        match batch_apply(ws, rest, fee_bps, now) {
            None => {},
            Some(st) => {
                lemma_batch_apply_shape(ws, rest, fee_bps, now);
                lemma_same_shape_outcome(st.0, ws, records[k]);
            },
        }
    } else {
        lemma_unknown_work_skipped(ws, rest, k, fee_bps, now);
        assert(records.remove(k).drop_last() =~= rest.remove(k));
        assert(records.remove(k).last() == records.last());
    }
}

impl Registry {
    /// Applies a batch of streaming revenue records submitted by `provider`.
    /// Each record for a work with a split and a tracker adds its amount to the
    /// work's total and streaming revenue, logs it, and adds its platform fee to
    /// the batch's fee; other records are passed over and reported as skipped.
    /// The treasury's collected fees grow by the batch's fee, which the caller
    /// transfers from the provider to the treasury wallet. The batch is all or
    /// nothing: it fails as `batch_outcome` says, and on failure neither the
    /// registry nor the treasury changes.
    pub fn register_streaming_batch(
        &mut self,
        treasury: &mut Treasury,
        provider: &Address,
        records: &Vec<StreamingData>,
        now: i64,
    ) -> (r: Result<BatchReport, CustomError>)
        requires
            old(self).wf(),
            old(treasury).wf(),
        ensures
            final(self).wf(),
            final(treasury).wf(),
            match batch_outcome(old(self)@, *old(treasury), provider@, records@, now as int) {
                Err(e) => {
                    &&& r == Err::<BatchReport, CustomError>(e)
                    &&& *final(self) == *old(self)
                    &&& *final(treasury) == *old(treasury)
                },
                Ok(st) => {
                    &&& r is Ok
                    &&& final(self)@ == st.0
                    &&& r->Ok_0.total_fee == st.1
                    &&& r->Ok_0.fee_destination == old(treasury).treasury_wallet
                    &&& r->Ok_0.outcomes@ == records@.map_values(
                        |rec: StreamingData| record_outcome(old(self)@, rec),
                    )
                    &&& *final(treasury) == (Treasury {
                        total_revenue_collected: (old(treasury).total_revenue_collected
                            + st.1) as u64,
                        ..*old(treasury)
                    })
                },
            },
    {
        if records.len() == 0 {
            return Err(CustomError::InvalidData);
        }
        if records.len() > MAX_STREAMING_BATCH_SIZE {
            return Err(CustomError::BatchTooLarge);
        }
        if !provider.same_as(&treasury.streaming_provider) {
            return Err(CustomError::Unauthorized);
        }
        let mut k: usize = 0;
        while k < records.len()
            invariant
                0 <= k <= records@.len(),
                *self == *old(self),
                *treasury == *old(treasury),
                old(self).wf(),
                old(treasury).wf(),
                0 < records@.len() <= MAX_STREAMING_BATCH_SIZE,
                provider@ == old(treasury).streaming_provider@,
                forall|j: int| 0 <= j < k ==> records@[j].amount != 0,
            decreases records@.len() - k,
        {
            if records[k].amount == 0 {
                assert(records@[k as int].amount == 0);
                return Err(CustomError::InvalidAmount);
            }
            k = k + 1;
        }
        let fee_bps = treasury.platform_fee_basis_points as u64;
        let ghost start = self@;
        let mut next = self.duplicate();
        let mut total_fee: u64 = 0;
        let mut outcomes: Vec<RecordOutcome> = Vec::new();
        let mut k: usize = 0;
        while k < records.len()
            invariant
                0 <= k <= records@.len(),
                *self == *old(self),
                *treasury == *old(treasury),
                old(self).wf(),
                old(treasury).wf(),
                0 < records@.len() <= MAX_STREAMING_BATCH_SIZE,
                provider@ == old(treasury).streaming_provider@,
                forall|j: int| 0 <= j < records@.len() ==> records@[j].amount != 0,
                start == old(self)@,
                fee_bps == old(treasury).platform_fee_basis_points,
                next.wf(),
                same_shape(next@, start),
                batch_apply(start, records@.take(k as int), fee_bps as nat, now as int) == Some(
                    (next@, total_fee as nat),
                ),
                outcomes@ == records@.take(k as int).map_values(
                    |rec: StreamingData| record_outcome(start, rec),
                ),
            decreases records@.len() - k,
        {
            let rec = records[k];
            let ghost before = next@;
            proof {
                assert(records@.take(k + 1).drop_last() =~= records@.take(k as int));
                lemma_same_shape_outcome(before, start, rec);
                lemma_work_index(before, rec.master_nft@);
            }
            let outcome = match next.find(&rec.master_nft) {
                None => RecordOutcome::Skipped(SkipReason::NoRoyaltySplit),
                Some(i) => {
                    assert(before[i as int] == next.works@[i as int]@);
                    if next.works[i].tracker.is_none() {
                        RecordOutcome::Skipped(SkipReason::NoRevenueTracker)
                    } else {
                        let product = match rec.amount.checked_mul(fee_bps) {
                            Some(p) => p,
                            None => {
                                proof {
                                    lemma_batch_apply_none(
                                        start,
                                        records@,
                                        k + 1,
                                        fee_bps as nat,
                                        now as int,
                                    );
                                }
                                return Err(CustomError::Overflow);
                            },
                        };
                        let fee = product / (TOTAL_BASIS_POINTS as u64);
                        let new_fee = match total_fee.checked_add(fee) {
                            Some(v) => v,
                            None => {
                                proof {
                                    lemma_batch_apply_none(
                                        start,
                                        records@,
                                        k + 1,
                                        fee_bps as nat,
                                        now as int,
                                    );
                                }
                                return Err(CustomError::Overflow);
                            },
                        };
                        let added = next.works[i].add_revenue(
                            rec.amount,
                            String::from_str("streaming"),
                            String::from_str("Batch streaming revenue"),
                            now,
                        );
                        if added.is_err() {
                            proof {
                                lemma_batch_apply_none(
                                    start,
                                    records@,
                                    k + 1,
                                    fee_bps as nat,
                                    now as int,
                                );
                            }
                            return Err(CustomError::Overflow);
                        }
                        total_fee = new_fee;
                        proof {
                            assert(next@ =~= before.update(i as int, next@[i as int]));
                            assert forall|a: int, b: int|
                                0 <= a < next@.len() && 0 <= b < next@.len() && a
                                    != b implies #[trigger] next@[a].split.master_nft
                                != #[trigger] next@[b].split.master_nft by {
                                assert(before[a].split.master_nft != before[b].split.master_nft);
                            }
                        }
                        RecordOutcome::Applied
                    }
                },
            };
            outcomes.push(outcome);
            proof {
                assert(outcomes@ =~= records@.take(k + 1).map_values(
                    |rec: StreamingData| record_outcome(start, rec),
                ));
            }
            k = k + 1;
        }
        proof {
            assert(records@.take(k as int) =~= records@);
        }
        let collected = match treasury.total_revenue_collected.checked_add(total_fee) {
            Some(v) => v,
            None => return Err(CustomError::Overflow),
        };
        treasury.total_revenue_collected = collected;
        *self = next;
        Ok(BatchReport { outcomes, total_fee, fee_destination: treasury.treasury_wallet })
    }
}

} // verus!
