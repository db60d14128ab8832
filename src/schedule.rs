//! Per-endpoint scheduling: a countdown that says when an endpoint is due,
//! and the shared result table holding each endpoint's latest row.

use vstd::prelude::*;
use vstd::arithmetic::div_mod::lemma_fundamental_div_mod_converse;
use crate::app::ListRequests;

verus! {

/// The seconds between two polls: the configured interval, at least one.
pub open spec fn period_of(interval: u64) -> nat {
    if interval == 0 {
        1
    } else {
        interval as nat
    }
}

/// Seconds left before the next poll, `k` one-second ticks after a
/// countdown of `period` started.
pub open spec fn remaining_after(period: nat, k: nat) -> nat
    decreases k,
{
    if k == 0 {
        period
    } else if remaining_after(period, (k - 1) as nat) <= 1 {
        period
    } else {
        (remaining_after(period, (k - 1) as nat) - 1) as nat
    }
}

/// How many of the first `k` ticks of a countdown of `period` were due.
pub open spec fn polls_after(period: nat, k: nat) -> nat
    decreases k,
{
    if k == 0 {
        0
    } else if remaining_after(period, (k - 1) as nat) <= 1 {
        polls_after(period, (k - 1) as nat) + 1
    } else {
        polls_after(period, (k - 1) as nat)
    }
}

/// One endpoint's countdown to its next poll.
pub struct Countdown {
    period: u64,
    remaining: u64,
    ticks: Ghost<nat>,
    polls: Ghost<nat>,
}

impl Countdown {
    #[verifier::type_invariant]
    spec fn inv(&self) -> bool {
        &&& 1 <= self.remaining <= self.period
        &&& self.remaining == remaining_after(self.period as nat, self.ticks@)
        &&& self.polls@ == polls_after(self.period as nat, self.ticks@)
    }

    /// The ticks since the countdown was made.
    pub closed spec fn ticks(&self) -> nat {
        self.ticks@
    }

    /// How many of those ticks were due.
    pub closed spec fn polls(&self) -> nat {
        self.polls@
    }

    /// The seconds between two polls.
    pub closed spec fn period(&self) -> nat {
        self.period as nat
    }

    /// The seconds left before the next poll.
    pub closed spec fn left(&self) -> nat {
        self.remaining as nat
    }

    /// A countdown that is due `interval` ticks from now, then every
    /// `interval` ticks (an interval of zero counts as one).
    pub fn new(interval: u64) -> (r: Countdown)
        ensures
            r.period() == period_of(interval),
            r.left() == r.period(),
            r.ticks() == 0,
            r.polls() == 0,
            r.left() == remaining_after(r.period(), r.ticks()),
    {
        let period = if interval == 0 {
            1
        } else {
            interval
        };
        Countdown { period, remaining: period, ticks: Ghost(0), polls: Ghost(0) }
    }

    /// The seconds left before the next poll.
    pub fn remaining(&self) -> (r: u64)
        ensures
            r == self.left(),
            r >= 1,
    {
        proof {
            use_type_invariant(self);
        }
        self.remaining
    }

    /// One second passes. Returns whether the endpoint is due now, in
    /// which case the countdown starts again from its period.
    pub fn tick(&mut self) -> (due: bool)
        ensures
            final(self).period() == old(self).period(),
            final(self).ticks() == old(self).ticks() + 1,
            final(self).polls() == old(self).polls() + if due {
                1nat
            } else {
                0nat
            },
            due == (old(self).left() <= 1),
            final(self).left() == remaining_after(final(self).period(), final(self).ticks()),
            final(self).polls() == polls_after(final(self).period(), final(self).ticks()),
            final(self).polls() == final(self).ticks() / final(self).period(),
            final(self).left() == if due {
                old(self).period()
            } else {
                (old(self).left() - 1) as nat
            },
    {
        proof {
            use_type_invariant(&*self);
        }
        let ghost k = self.ticks@;
        let due = self.remaining <= 1;
        let remaining = if due {
            self.period
        } else {
            self.remaining - 1
        };
        let ghost polls = self.polls@ + if due {
            1nat
        } else {
            0nat
        };
        *self = Countdown {
            period: self.period,
            remaining,
            ticks: Ghost(k + 1),
            polls: Ghost(polls),
        };
        proof {
            law_cadence(self.period as nat, self.ticks@);
        }
        due
    }
}

/// A countdown of `period` is due exactly every `period` ticks: after `k`
/// ticks it has been due `k / period` times and has `period - k % period`
/// seconds left, whatever the other endpoints do.
pub proof fn law_cadence(period: nat, k: nat)
    requires
        period >= 1,
    ensures
        polls_after(period, k) == k / period,
        remaining_after(period, k) == period - k % period,
    decreases k,
{
    if k == 0 {
        lemma_fundamental_div_mod_converse(0, period as int, 0, 0);
    } else {
        let j = (k - 1) as nat;
        law_cadence(period, j);
        let q = j / period;
        let r = j % period;
        vstd::arithmetic::div_mod::lemma_mod_bound(j as int, period as int);
        assert(j == q * period + r) by {
            vstd::arithmetic::div_mod::lemma_fundamental_div_mod(j as int, period as int);
        }
        if r + 1 == period {
            assert(k == (q + 1) * period + 0) by (nonlinear_arith)
                requires
                    k == j + 1,
                    j == q * period + r,
                    r + 1 == period,
            ;
            lemma_fundamental_div_mod_converse(k as int, period as int, (q + 1) as int, 0);
        } else {
            assert(k == q * period + (r + 1)) by (nonlinear_arith)
                requires
                    k == j + 1,
                    j == q * period + r,
            ;
            lemma_fundamental_div_mod_converse(k as int, period as int, q as int, (r + 1) as int);
        }
    }
}

/// Endpoints run side by side each keep their own cadence: after `k`
/// ticks, the endpoint with period `periods[i]` has been due
/// `k / periods[i]` times.
pub proof fn law_independent_cadences(periods: Seq<nat>, k: nat)
    requires
        forall|i: int| 0 <= i < periods.len() ==> periods[i] >= 1,
    ensures
        forall|i: int|
            0 <= i < periods.len() ==> #[trigger] polls_after(periods[i], k) == k / periods[i],
{
    assert forall|i: int| 0 <= i < periods.len() implies #[trigger] polls_after(periods[i], k) == k
        / periods[i] by {
        law_cadence(periods[i], k);
    }
}

/// Whether some row of `rows` belongs to endpoint `id`.
pub open spec fn has_row(rows: Seq<ListRequests>, id: usize) -> bool {
    exists|k: int| 0 <= k < rows.len() && (#[trigger] rows[k]).id == id
}

/// No two rows of `rows` belong to the same endpoint.
pub open spec fn one_row_per_endpoint(rows: Seq<ListRequests>) -> bool {
    forall|i: int, j: int| 0 <= i < j < rows.len() ==> (#[trigger] rows[i]).id != (#[trigger] rows[j]).id
}

/// The latest row of each endpoint. Rows are written whole and read as a
/// copy; the caller shares it behind one lock.
pub struct ResultTable {
    rows: Vec<ListRequests>,
}

impl ResultTable {
    #[verifier::type_invariant]
    spec fn inv(&self) -> bool {
        one_row_per_endpoint(self.rows@)
    }

    /// The rows, in the order endpoints first reported.
    pub closed spec fn rows(&self) -> Seq<ListRequests> {
        self.rows@
    }

    /// An empty table.
    pub fn new() -> (r: ResultTable)
        ensures
            r.rows().len() == 0,
            one_row_per_endpoint(r.rows()),
    {
        ResultTable { rows: Vec::new() }
    }

    /// The position of endpoint `id`'s row.
    fn position(&self, id: usize) -> (r: Option<usize>)
        ensures
            r is Some ==> r->0 < self.rows().len() && self.rows()[r->0 as int].id == id,
            r is None ==> !has_row(self.rows(), id),
    {
        let mut k: usize = 0;
        while k < self.rows.len()
            invariant
                k <= self.rows@.len(),
                forall|j: int| 0 <= j < k ==> (#[trigger] self.rows@[j]).id != id,
            decreases self.rows.len() - k,
        {
            if self.rows[k].id == id {
                return Some(k);
            }
            k = k + 1;
        }
        None
    }

    /// Writes `row` as its endpoint's latest: it replaces that endpoint's
    /// row where there is one, else it is added at the end.
    pub fn record(&mut self, row: ListRequests)
        ensures
            one_row_per_endpoint(final(self).rows()),
            has_row(old(self).rows(), row.id) ==> final(self).rows().len() == old(self).rows().len(),
            !has_row(old(self).rows(), row.id) ==> final(self).rows().len() == old(self).rows().len() + 1
                && final(self).rows().last() == row,
            forall|k: int|
                0 <= k < old(self).rows().len() ==> #[trigger] final(self).rows()[k] == if old(
                    self,
                ).rows()[k].id == row.id {
                    row
                } else {
                    old(self).rows()[k]
                },
    {
        proof {
            use_type_invariant(&*self);
        }
        match self.position(row.id) {
            Some(k) => {
                let ghost id = row.id;
                let mut rows: Vec<ListRequests> = Vec::new();
                std::mem::swap(&mut self.rows, &mut rows);
                rows.set(k, row);
                self.rows = rows;
                assert forall|j: int| 0 <= j < self.rows@.len() && j != k implies (
                #[trigger] old(self).rows@[j]).id != id by {
                    if j < k {
                        assert(old(self).rows@[j].id != old(self).rows@[k as int].id);
                    } else {
                        assert(old(self).rows@[k as int].id != old(self).rows@[j].id);
                    }
                }
            },
            None => {
                let mut rows: Vec<ListRequests> = Vec::new();
                std::mem::swap(&mut self.rows, &mut rows);
                rows.push(row);
                self.rows = rows;
            },
        }
    }

    /// Updates the seconds left on endpoint `id`'s row, if it has one.
    pub fn set_countdown(&mut self, id: usize, remaining: u64)
        ensures
            one_row_per_endpoint(final(self).rows()),
            final(self).rows().len() == old(self).rows().len(),
            forall|k: int|
                0 <= k < old(self).rows().len() ==> {
                    &&& (#[trigger] final(self).rows()[k]).id == old(self).rows()[k].id
                    &&& final(self).rows()[k].data == old(self).rows()[k].data
                    &&& final(self).rows()[k].interval == if old(self).rows()[k].id == id {
                        remaining
                    } else {
                        old(self).rows()[k].interval
                    }
                },
    {
        proof {
            use_type_invariant(&*self);
        }
        match self.position(id) {
            Some(k) => {
                let row = ListRequests {
                    id: self.rows[k].id,
                    data: self.rows[k].data.copy(),
                    interval: remaining,
                };
                let mut rows: Vec<ListRequests> = Vec::new();
                std::mem::swap(&mut self.rows, &mut rows);
                rows.set(k, row);
                self.rows = rows;
            },
            None => {},
        }
    }

    /// A copy of every row.
    pub fn snapshot(&self) -> (r: Vec<ListRequests>)
        ensures
            r@ == self.rows(),
            one_row_per_endpoint(r@),
    {
        proof {
            use_type_invariant(self);
        }
        let mut r: Vec<ListRequests> = Vec::new();
        let mut k: usize = 0;
        while k < self.rows.len()
            invariant
                k <= self.rows@.len(),
                r@ == self.rows@.take(k as int),
            decreases self.rows.len() - k,
        {
            r.push(self.rows[k].copy());
            k = k + 1;
            assert(r@ =~= self.rows@.take(k as int));
        }
        assert(self.rows@.take(k as int) =~= self.rows@);
        r
    }
}

} // verus!
