use vstd::prelude::*;
use crate::dice::{
    roll, health_response, count_accepted, describes_roll, spec_count_error,
    spec_requested_count, thrown, Die, HealthResponse, Rejection, RollResult, BAD_REQUEST,
};
use crate::metrics::{
    request_close_ops, request_open_ops, roll_endpoint, spec_close_ops, spec_open_ops, spec_request_ops,
    spec_roll_endpoint, lemma_request_balances_active, lemma_request_counts, net_shift,
    total_added, all_well_formed, Endpoint, Instrument, MetricOp,
};

verus! {

/// What a request to endpoint `e` records, first at arrival then at the
/// answer: exactly the endpoint's plan, which moves the active-requests
/// counter up one and back, and counts the calls and connections it should.
pub open spec fn records_request(opened: Seq<MetricOp>, closed: Seq<MetricOp>, e: Endpoint) -> bool {
    &&& opened == spec_open_ops(e)
    &&& closed == spec_close_ops(e)
    &&& all_well_formed(opened + closed)
    &&& net_shift(opened, Instrument::ActiveRequests) == 1
    &&& net_shift(opened + closed, Instrument::ActiveRequests) == 0
    &&& total_added(opened + closed, Instrument::TotalConnections) == if e == Endpoint::Health {
        0int
    } else {
        1int
    }
    &&& total_added(opened + closed, Instrument::RollCalls(Die::D6)) == if e == Endpoint::D6 {
        1int
    } else {
        0int
    }
    &&& total_added(opened + closed, Instrument::RollCalls(Die::D8)) == if e == Endpoint::D8 {
        1int
    } else {
        0int
    }
}

proof fn lemma_records_request(e: Endpoint)
    ensures
        records_request(spec_open_ops(e), spec_close_ops(e), e),
{
    lemma_request_balances_active(e);
    lemma_request_counts(e);
    assert(spec_request_ops(e) == spec_open_ops(e) + spec_close_ops(e));
}

/// A dice request that has arrived, whose arrival has been measured, and
/// whose throws and answer are still to come.
pub struct PendingRoll {
    die: Die,
    count: Option<i32>,
}

impl PendingRoll {
    /// The kind of dice the request asks for.
    pub closed spec fn spec_die(self) -> Die {
        self.die
    }

    /// The count the request carries, if any.
    pub closed spec fn spec_count(self) -> Option<i32> {
        self.count
    }

    /// Rolls and answers the request, and hands out what is measured once the
    /// answer is ready: the request is no longer active. Together with what
    /// was measured at arrival, the request has counted one call of its
    /// endpoint and one connection, and left active-requests as it found it.
    pub fn finish(self) -> (r: (Result<RollResult, Rejection>, Vec<MetricOp>))
        ensures
            r.1@ == spec_close_ops(spec_roll_endpoint(self.spec_die())),
            records_request(
                spec_open_ops(spec_roll_endpoint(self.spec_die())),
                r.1@,
                spec_roll_endpoint(self.spec_die()),
            ),
            r.0 is Ok <==> count_accepted(self.spec_die(), spec_requested_count(self.spec_count()) as int),
            r.0 matches Ok(res) ==> describes_roll(
                res,
                self.spec_die(),
                spec_requested_count(self.spec_count()) as int,
            ),
            r.0 matches Ok(res) ==> thrown(self.spec_die(), res.rolls@),
            r.0 matches Err(e) ==> e.status == BAD_REQUEST && e.body.error@ == spec_count_error(
                self.spec_die(),
                spec_requested_count(self.spec_count()) as int,
            ),
    {
        let answer = roll(self.die, self.count);
        let e = roll_endpoint(self.die);
        let closed = request_close_ops(e);
        proof {
            lemma_records_request(e);
        }
        (answer, closed)
    }
}

/// A health check that has arrived and whose arrival has been measured.
pub struct PendingHealth {}

impl PendingHealth {
    /// Answers `ok`, and hands out what is measured once the answer is ready:
    /// the check is no longer active. The check counts no call and no
    /// connection, and leaves active-requests as it found it.
    pub fn finish(self) -> (r: (HealthResponse, Vec<MetricOp>))
        ensures
            r.0.status@ == "ok"@,
            r.1@ == spec_close_ops(Endpoint::Health),
            records_request(spec_open_ops(Endpoint::Health), r.1@, Endpoint::Health),
    {
        let answer = health_response();
        let closed = request_close_ops(Endpoint::Health);
        proof {
            lemma_records_request(Endpoint::Health);
        }
        (answer, closed)
    }
}

/// Receives a request for `count` dice of kind `die`, before any check of the
/// count: hands out what is measured at arrival (one call of the endpoint, one
/// connection, one more active request) and the request, still to be finished.
pub fn arrive_roll(die: Die, count: Option<i32>) -> (r: (PendingRoll, Vec<MetricOp>))
    ensures
        r.0.spec_die() == die,
        r.0.spec_count() == count,
        r.1@ == spec_open_ops(spec_roll_endpoint(die)),
        records_request(r.1@, spec_close_ops(spec_roll_endpoint(die)), spec_roll_endpoint(die)),
{
    let e = roll_endpoint(die);
    let opened = request_open_ops(e);
    proof {
        lemma_records_request(e);
    }
    (PendingRoll { die, count }, opened)
}

/// The `/d6` handler, at arrival: counts the call and the connection and marks
/// the request active, whatever the count; `finish` then rolls up to 18
/// six-sided dice or refuses, and marks the request inactive again, so that
/// active-requests ends where it began.
pub fn roll_d6(count: Option<i32>) -> (r: (PendingRoll, Vec<MetricOp>))
    ensures
        r.0.spec_die() == Die::D6,
        r.0.spec_count() == count,
        r.1@ == spec_open_ops(Endpoint::D6),
        records_request(r.1@, spec_close_ops(Endpoint::D6), Endpoint::D6),
{
    arrive_roll(Die::D6, count)
}

/// The `/d8` handler, at arrival: counts the call and the connection and marks
/// the request active, whatever the count; `finish` then rolls up to 10
/// eight-sided dice or refuses, and marks the request inactive again, so that
/// active-requests ends where it began.
pub fn roll_d8(count: Option<i32>) -> (r: (PendingRoll, Vec<MetricOp>))
    ensures
        r.0.spec_die() == Die::D8,
        r.0.spec_count() == count,
        r.1@ == spec_open_ops(Endpoint::D8),
        records_request(r.1@, spec_close_ops(Endpoint::D8), Endpoint::D8),
{
    arrive_roll(Die::D8, count)
}

/// The `/health` handler, at arrival: marks the check active; `finish` answers
/// `ok` and marks it inactive again.
pub fn health() -> (r: (PendingHealth, Vec<MetricOp>))
    ensures
        r.1@ == spec_open_ops(Endpoint::Health),
        records_request(r.1@, spec_close_ops(Endpoint::Health), Endpoint::Health),
{
    let opened = request_open_ops(Endpoint::Health);
    proof {
        lemma_records_request(Endpoint::Health);
    }
    (PendingHealth {}, opened)
}

/// Whatever count a `/d6` or `/d8` request carries, the measurements taken at
/// its arrival and at its answer leave active-requests where it was, and count
/// exactly one call of that endpoint and one connection.
pub proof fn lemma_roll_request_balanced(p: PendingRoll, opened: Seq<MetricOp>, closed: Seq<MetricOp>)
    requires
        opened == spec_open_ops(spec_roll_endpoint(p.spec_die())),
        closed == spec_close_ops(spec_roll_endpoint(p.spec_die())),
    ensures
        net_shift(opened + closed, Instrument::ActiveRequests) == 0,
        total_added(opened + closed, Instrument::TotalConnections) == 1,
        total_added(opened + closed, Instrument::RollCalls(p.spec_die())) == 1,
{
    lemma_records_request(spec_roll_endpoint(p.spec_die()));
}

} // verus!
