//! Accounting core of a crowdfunding campaign.
//!
//! The campaign is configured exactly once with a funding target and a
//! deadline, accepts donations only until that deadline, and reports its
//! status at any time.  The state machine here is pure: the host that embeds
//! it supplies the current ledger time and the authenticator's verdict as
//! plain values, persists the state between calls, and publishes a
//! notification for each accepted donation.

use vstd::prelude::*;

verus! {

/// The faults a campaign operation can report.  Every fault leaves the
/// campaign state exactly as it was.
#[derive(Clone, Copy, Debug, PartialEq, Eq, Structural)]
pub enum CampaignError {
    /// `initialize` was called on a campaign that is already configured.
    AlreadyInitialized,
    /// The caller could not authenticate as the stated donor.
    Unauthorized,
    /// `donate` was called strictly after the configured deadline.
    DeadlinePassed,
    /// `donate` was called before any successful `initialize`.
    Uninitialized,
}

/// Mathematical model of a campaign: the four durable fields together with
/// the sequence of donation amounts accepted so far.
pub ghost struct CampaignView {
    pub initialized: bool,
    pub target: int,
    pub deadline: int,
    pub total: int,
    pub history: Seq<int>,
}

/// Sum of a sequence of donation amounts.
pub open spec fn sum(s: Seq<int>) -> int
    decreases s.len(),
{
    if s.len() == 0 {
        0
    } else {
        sum(s.drop_last()) + s.last()
    }
}

/// What `get_status` reports: the running total, the target, the deadline.
pub open spec fn status_of(v: CampaignView) -> (int, int, int) {
    (v.total, v.target, v.deadline)
}

impl CampaignView {
    /// Well-formedness: the running total is exactly the sum of the accepted
    /// donations, and before initialization every field is at its zero
    /// default with nothing accepted yet.
    pub open spec fn wf(self) -> bool {
        &&& self.total == sum(self.history)
        &&& !self.initialized ==> {
            &&& self.target == 0
            &&& self.deadline == 0
            &&& self.total == 0
            &&& self.history.len() == 0
        }
    }
}

/// Appending one amount to a history adds exactly that amount to its sum.
proof fn lemma_sum_push(s: Seq<int>, x: int)
    ensures
        sum(s.push(x)) == sum(s) + x,
{
    assert(s.push(x).drop_last() =~= s);
    assert(s.push(x).last() == x);
}

/// A history of one donation sums to that donation.
proof fn lemma_sum_singleton(x: int)
    ensures
        sum(seq![x]) == x,
{
    assert(sum(Seq::<int>::empty()) == 0);
    assert(seq![x].drop_last() =~= Seq::<int>::empty());
    assert(seq![x].last() == x);
}

/// The campaign state machine.  One value of this type stands for the whole
/// durable state of one deployed campaign.
pub struct CrowdfundingContract {
    initialized: bool,
    target_amount: i128,
    deadline_timestamp: u64,
    total_donations: i128,
    history: Ghost<Seq<int>>,
}

impl View for CrowdfundingContract {
    type V = CampaignView;

    closed spec fn view(&self) -> CampaignView {
        CampaignView {
            initialized: self.initialized,
            target: self.target_amount as int,
            deadline: self.deadline_timestamp as int,
            total: self.total_donations as int,
            history: self.history@,
        }
    }
}

impl CrowdfundingContract {
    /// A campaign on which `initialize` has not yet succeeded: every status
    /// field reads as zero and no donation has been accepted.
    pub fn new() -> (c: Self)
        ensures
            c@.wf(),
            !c@.initialized,
            c@.target == 0,
            c@.deadline == 0,
            c@.total == 0,
            c@.history == Seq::<int>::empty(),
    {
        let c = CrowdfundingContract {
            initialized: false,
            target_amount: 0,
            deadline_timestamp: 0,
            total_donations: 0,
            history: Ghost(Seq::empty()),
        };
        proof {
            assert(c@.history =~= Seq::<int>::empty());
        }
        c
    }

    /// Rebuild a campaign from the values its host read back from durable
    /// storage.  An uninitialized campaign stores nothing, so all its fields
    /// must read as their zero defaults.  The donations accepted before the
    /// reload are known only in aggregate, so the rebuilt history records
    /// the running total as one entry.
    pub fn from_parts(
        initialized: bool,
        target_amount: i128,
        deadline_timestamp: u64,
        total_donations: i128,
    ) -> (c: Self)
        requires
            !initialized ==> target_amount == 0 && deadline_timestamp == 0 && total_donations == 0,
        ensures
            c@.wf(),
            c@.initialized == initialized,
            c@.target == target_amount as int,
            c@.deadline == deadline_timestamp as int,
            c@.total == total_donations as int,
    {
        if initialized {
            let ghost h: Seq<int> = seq![total_donations as int];
            let c = CrowdfundingContract {
                initialized: true,
                target_amount,
                deadline_timestamp,
                total_donations,
                history: Ghost(h),
            };
            proof {
                lemma_sum_singleton(total_donations as int);
            }
            c
        } else {
            Self::new()
        }
    }

    /// Configure the campaign: record the funding target and fix the
    /// deadline at `now + deadline_step`, starting the running total at
    /// zero.  Faults with `AlreadyInitialized`, changing nothing, if a
    /// previous `initialize` already succeeded.
    pub fn initialize(&mut self, now: u64, target_amount: i128, deadline_step: u64) -> (r: Result<
        (),
        CampaignError,
    >)
        requires
            old(self)@.wf(),
            !old(self)@.initialized ==> now + deadline_step <= u64::MAX,
        ensures
            final(self)@.wf(),
            old(self)@.initialized ==> r == Err::<(), CampaignError>(
                CampaignError::AlreadyInitialized,
            ) && final(self)@ == old(self)@,
            !old(self)@.initialized ==> {
                &&& r == Ok::<(), CampaignError>(())
                &&& final(self)@.initialized
                &&& final(self)@.target == target_amount as int
                &&& final(self)@.deadline == now + deadline_step
                &&& final(self)@.total == 0
                &&& final(self)@.history == Seq::<int>::empty()
            },
    {
        if self.initialized {
            return Err(CampaignError::AlreadyInitialized);
        }
        self.target_amount = target_amount;
        self.deadline_timestamp = now + deadline_step;
        self.total_donations = 0;
        self.initialized = true;
        self.history = Ghost(Seq::empty());
        proof {
            assert(self@.history =~= Seq::<int>::empty());
        }
        Ok(())
    }

    /// Accept a donation of `amount` at ledger time `now`, provided the
    /// caller authenticated as the donor, the campaign is configured, and
    /// the deadline has not passed.  The checks run in that order, so the
    /// first failing one names the fault; every fault changes nothing.  The
    /// amount itself is not validated: zero and negative donations are
    /// accepted as the accounting rules stand.
    pub fn donate(&mut self, authenticated: bool, now: u64, amount: i128) -> (r: Result<
        (),
        CampaignError,
    >)
        requires
            old(self)@.wf(),
            authenticated && old(self)@.initialized && now <= old(self)@.deadline
                ==> i128::MIN <= old(self)@.total + amount <= i128::MAX,
        ensures
            final(self)@.wf(),
            !authenticated ==> r == Err::<(), CampaignError>(CampaignError::Unauthorized)
                && final(self)@ == old(self)@,
            authenticated && !old(self)@.initialized ==> r == Err::<(), CampaignError>(
                CampaignError::Uninitialized,
            ) && final(self)@ == old(self)@,
            authenticated && old(self)@.initialized && now > old(self)@.deadline ==> r == Err::<
                (),
                CampaignError,
            >(CampaignError::DeadlinePassed) && final(self)@ == old(self)@,
            authenticated && old(self)@.initialized && now <= old(self)@.deadline ==> {
                &&& r == Ok::<(), CampaignError>(())
                &&& final(self)@.initialized == old(self)@.initialized
                &&& final(self)@.target == old(self)@.target
                &&& final(self)@.deadline == old(self)@.deadline
                &&& final(self)@.total == old(self)@.total + amount
                &&& final(self)@.history == old(self)@.history.push(amount as int)
            },
    {
        if !authenticated {
            return Err(CampaignError::Unauthorized);
        }
        if !self.initialized {
            return Err(CampaignError::Uninitialized);
        }
        if now > self.deadline_timestamp {
            return Err(CampaignError::DeadlinePassed);
        }
        proof {
            lemma_sum_push(self.history@, amount as int);
        }
        self.total_donations = self.total_donations + amount;
        self.history = Ghost(self.history@.push(amount as int));
        Ok(())
    }

    /// Report `(total_donations, target_amount, deadline_timestamp)`,
    /// reading zero for any field not yet set.  Never faults and never
    /// changes anything.
    pub fn get_status(&self) -> (r: (i128, i128, u64))
        ensures
            (r.0 as int, r.1 as int, r.2 as int) == status_of(self@),
    {
        (self.total_donations, self.target_amount, self.deadline_timestamp)
    }
}

/// Law: in every well-formed campaign the running total equals the sum of
/// the amounts of all accepted donations, in the order they were accepted.
pub proof fn lemma_total_is_sum_of_donations(v: CampaignView)
    requires
        v.wf(),
    ensures
        v.total == sum(v.history),
{
}

/// Law: the reported status is a function of the campaign state alone, so
/// repeated queries with no intervening mutation report the same triple.
pub proof fn lemma_status_deterministic(v1: CampaignView, v2: CampaignView)
    requires
        v1 == v2,
    ensures
        status_of(v1) == status_of(v2),
{
}

} // verus!
