use vstd::prelude::*;

use crate::address::Address;
use crate::constants::MAX_TRANSACTIONS;
use crate::error::CustomError;

verus! {

/// One revenue event in a tracker's log.
#[derive(Debug)]
pub struct RevenueTransaction {
    pub amount: u64,
    pub source: String,
    pub description: String,
    pub timestamp: i64,
}

/// What a log entry says.
pub struct TransactionView {
    pub amount: nat,
    pub source: Seq<char>,
    pub description: Seq<char>,
    pub timestamp: int,
}

impl View for RevenueTransaction {
    type V = TransactionView;

    open spec fn view(&self) -> TransactionView {
        TransactionView {
            amount: self.amount as nat,
            source: self.source@,
            description: self.description@,
            timestamp: self.timestamp as int,
        }
    }
}

/// The bucket that a revenue source label is counted in.
#[derive(Clone, Copy, Debug, PartialEq, Eq, Structural)]
pub enum RevenueSource {
    Streaming,
    Sales,
    Other,
}

/// `"streaming"` and `"sales"` have buckets of their own; every other label
/// counts as other revenue.
pub open spec fn source_kind(source: Seq<char>) -> RevenueSource {
    if source == "streaming"@ {
        RevenueSource::Streaming
    } else if source == "sales"@ {
        RevenueSource::Sales
    } else {
        RevenueSource::Other
    }
}

/// Classifies a revenue source label.
pub fn classify_source(source: &String) -> (r: RevenueSource)
    ensures
        r == source_kind(source@),
{
    let streaming = String::from_str("streaming");
    let sales = String::from_str("sales");
    if *source == streaming {
        RevenueSource::Streaming
    } else if *source == sales {
        RevenueSource::Sales
    } else {
        RevenueSource::Other
    }
}

/// Cumulative revenue of one work.
#[derive(Debug)]
pub struct RevenueTracker {
    /// The work this tracker belongs to.
    pub master_nft: Address,
    pub total_revenue: u64,
    pub streaming_revenue: u64,
    pub sales_revenue: u64,
    pub other_revenue: u64,
    /// The most recent revenue events, oldest first, at most `MAX_TRANSACTIONS`.
    pub transactions: Vec<RevenueTransaction>,
    pub created_at: i64,
    pub last_revenue_timestamp: i64,
}

/// What a tracker says, with amounts as natural numbers.
pub struct TrackerView {
    pub master_nft: Seq<u8>,
    pub total: nat,
    pub streaming: nat,
    pub sales: nat,
    pub other: nat,
    pub log: Seq<TransactionView>,
    pub created_at: int,
    pub last_revenue_timestamp: int,
}

impl View for RevenueTracker {
    type V = TrackerView;

    open spec fn view(&self) -> TrackerView {
        TrackerView {
            master_nft: self.master_nft@,
            total: self.total_revenue as nat,
            streaming: self.streaming_revenue as nat,
            sales: self.sales_revenue as nat,
            other: self.other_revenue as nat,
            log: self.transactions@.map_values(|t: RevenueTransaction| t@),
            created_at: self.created_at as int,
            last_revenue_timestamp: self.last_revenue_timestamp as int,
        }
    }
}

/// The bucket of `t` that revenue from `source` is added to.
pub open spec fn bucket(t: TrackerView, source: Seq<char>) -> nat {
    match source_kind(source) {
        RevenueSource::Streaming => t.streaming,
        RevenueSource::Sales => t.sales,
        RevenueSource::Other => t.other,
    }
}

/// The log after `tx` is appended: once the log is full, the oldest entry
/// makes room for the new one.
pub open spec fn log_append(
    log: Seq<TransactionView>,
    tx: TransactionView,
) -> Seq<TransactionView> {
    if log.len() < MAX_TRANSACTIONS {
        log.push(tx)
    } else {
        log.drop_first().push(tx)
    }
}

/// Whether adding `amount` from `source` keeps the total and the bucket in range.
pub open spec fn record_fits(t: TrackerView, amount: nat, source: Seq<char>) -> bool {
    &&& t.total + amount <= u64::MAX
    &&& bucket(t, source) + amount <= u64::MAX
}

/// The tracker after revenue `amount` from `source` is recorded at time `now`.
pub open spec fn recorded(
    t: TrackerView,
    amount: nat,
    source: Seq<char>,
    description: Seq<char>,
    now: int,
) -> TrackerView {
    let kind = source_kind(source);
    TrackerView {
        total: t.total + amount,
        streaming: if kind == RevenueSource::Streaming {
            t.streaming + amount
        } else {
            t.streaming
        },
        sales: if kind == RevenueSource::Sales {
            t.sales + amount
        } else {
            t.sales
        },
        other: if kind == RevenueSource::Other {
            t.other + amount
        } else {
            t.other
        },
        log: log_append(
            t.log,
            TransactionView { amount, source, description, timestamp: now },
        ),
        last_revenue_timestamp: now,
        ..t
    }
}

impl RevenueTracker {
    /// The log holds at most `MAX_TRANSACTIONS` entries.
    pub open spec fn wf(&self) -> bool {
        self.transactions@.len() <= MAX_TRANSACTIONS
    }

    /// An empty tracker for `master_nft`.
    pub fn new(master_nft: Address, now: i64) -> (r: RevenueTracker)
        ensures
            r.wf(),
            r@ == (TrackerView {
                master_nft: master_nft@,
                total: 0,
                streaming: 0,
                sales: 0,
                other: 0,
                log: Seq::empty(),
                created_at: now as int,
                last_revenue_timestamp: 0,
            }),
    {
        let r = RevenueTracker {
            master_nft,
            total_revenue: 0,
            streaming_revenue: 0,
            sales_revenue: 0,
            other_revenue: 0,
            transactions: Vec::new(),
            created_at: now,
            last_revenue_timestamp: 0,
        };
        assert(r@.log =~= Seq::<TransactionView>::empty());
        r
    }

    /// A copy of this tracker.
    pub fn duplicate(&self) -> (r: RevenueTracker)
        ensures
            r@ == self@,
            r.wf() == self.wf(),
    {
        let mut transactions: Vec<RevenueTransaction> = Vec::new();
        let mut i: usize = 0;
        while i < self.transactions.len()
            invariant
                0 <= i <= self.transactions@.len(),
                transactions@ == self.transactions@.take(i as int),
            decreases self.transactions@.len() - i,
        {
            let t = &self.transactions[i];
            transactions.push(
                RevenueTransaction {
                    amount: t.amount,
                    source: t.source.clone(),
                    description: t.description.clone(),
                    timestamp: t.timestamp,
                },
            );
            assert(transactions@ =~= self.transactions@.take(i + 1));
            i = i + 1;
        }
        assert(transactions@ =~= self.transactions@);
        RevenueTracker {
            master_nft: self.master_nft,
            total_revenue: self.total_revenue,
            streaming_revenue: self.streaming_revenue,
            sales_revenue: self.sales_revenue,
            other_revenue: self.other_revenue,
            transactions,
            created_at: self.created_at,
            last_revenue_timestamp: self.last_revenue_timestamp,
        }
    }

    /// Appends an entry to the log, evicting the oldest one when it is full.
    fn push_transaction(&mut self, tx: RevenueTransaction)
        requires
            old(self).wf(),
        ensures
            final(self).wf(),
            final(self)@ == (TrackerView { log: log_append(old(self)@.log, tx@), ..old(self)@ }),
    {
        let ghost old_log = self@.log;
        if self.transactions.len() >= MAX_TRANSACTIONS {
            let ghost before = self.transactions@;
            self.transactions.remove(0);
            assert(self.transactions@ =~= before.drop_first());
        }
        self.transactions.push(tx);
        assert(self@.log =~= log_append(old_log, tx@));
    }

    /// Adds `amount` from `source` to the total and to the source's bucket,
    /// logs the event and stamps it with `now`. If either sum leaves the range
    /// of `u64`, fails with `Overflow` and changes nothing.
    pub fn add_revenue(&mut self, amount: u64, source: String, description: String, now: i64) -> (r:
        Result<(), CustomError>)
        requires
            old(self).wf(),
        ensures
            final(self).wf(),
            r is Ok <==> record_fits(old(self)@, amount as nat, source@),
            r is Ok ==> final(self)@ == recorded(
                old(self)@,
                amount as nat,
                source@,
                description@,
                now as int,
            ),
            r is Err ==> r == Err::<(), CustomError>(CustomError::Overflow) && *final(self)
                == *old(self),
    {
        let total = match self.total_revenue.checked_add(amount) {
            Some(v) => v,
            None => return Err(CustomError::Overflow),
        };
        let kind = classify_source(&source);
        let current = match kind {
            RevenueSource::Streaming => self.streaming_revenue,
            RevenueSource::Sales => self.sales_revenue,
            RevenueSource::Other => self.other_revenue,
        };
        let in_bucket = match current.checked_add(amount) {
            Some(v) => v,
            None => return Err(CustomError::Overflow),
        };
        self.total_revenue = total;
        match kind {
            RevenueSource::Streaming => self.streaming_revenue = in_bucket,
            RevenueSource::Sales => self.sales_revenue = in_bucket,
            RevenueSource::Other => self.other_revenue = in_bucket,
        }
        let tx = RevenueTransaction { amount, source, description, timestamp: now };
        self.push_transaction(tx);
        self.last_revenue_timestamp = now;
        Ok(())
    }
}

/// Recording two revenue events in either order gives the same total and the
/// same per-source buckets (the log keeps them in the order they came).
pub proof fn lemma_record_order_irrelevant(
    t: TrackerView,
    a1: nat,
    s1: Seq<char>,
    d1: Seq<char>,
    n1: int,
    a2: nat,
    s2: Seq<char>,
    d2: Seq<char>,
    n2: int,
)
    ensures
        recorded(recorded(t, a1, s1, d1, n1), a2, s2, d2, n2).total == recorded(
            recorded(t, a2, s2, d2, n2),
            a1,
            s1,
            d1,
            n1,
        ).total,
        recorded(recorded(t, a1, s1, d1, n1), a2, s2, d2, n2).streaming == recorded(
            recorded(t, a2, s2, d2, n2),
            a1,
            s1,
            d1,
            n1,
        ).streaming,
        recorded(recorded(t, a1, s1, d1, n1), a2, s2, d2, n2).sales == recorded(
            recorded(t, a2, s2, d2, n2),
            a1,
            s1,
            d1,
            n1,
        ).sales,
        recorded(recorded(t, a1, s1, d1, n1), a2, s2, d2, n2).other == recorded(
            recorded(t, a2, s2, d2, n2),
            a1,
            s1,
            d1,
            n1,
        ).other,
        record_fits(t, a1, s1) && record_fits(recorded(t, a1, s1, d1, n1), a2, s2) <==> record_fits(
            t,
            a2,
            s2,
        ) && record_fits(recorded(t, a2, s2, d2, n2), a1, s1),
{
}

} // verus!
