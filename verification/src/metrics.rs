use vstd::prelude::*;
use crate::attribute::{Attribute, attribute, attribute_pairs};
use crate::dice::Die;
use crate::random::random_u64;

verus! {

/// How an instrument takes measurements.
#[derive(Clone, Copy, Debug, PartialEq, Eq, Structural)]
pub enum InstrumentKind {
    /// A monotonic `u64` counter.
    Counter,
    /// An `i64` counter that may go up and down.
    UpDownCounter,
    /// A `u64` histogram.
    Histogram,
}

/// The instruments the services record on.
#[derive(Clone, Copy, Debug, PartialEq, Eq, Structural)]
pub enum Instrument {
    /// Calls of one dice endpoint.
    RollCalls(Die),
    /// Connections served over time.
    TotalConnections,
    /// Requests currently being executed.
    ActiveRequests,
    /// HTTP requests received by the scrape service.
    HttpRequests,
    /// Sizes of the scrape service's metrics responses.
    HttpResponseSize,
}

/// Which handler a measurement is attributed to.
#[derive(Clone, Copy, Debug, PartialEq, Eq, Structural)]
pub enum Handler {
    RollD6,
    RollD8,
    Health,
    /// Every request of the scrape service.
    All,
}

/// The attributes a measurement carries.
#[derive(Clone, Copy, Debug, PartialEq, Eq, Structural)]
pub enum Labels {
    /// No attribute.
    Empty,
    /// `handler = <handler>`.
    Handler(Handler),
    /// `example_key = example_value`.
    Example,
}

/// One measurement to take.
#[derive(Clone, Copy, Debug, PartialEq, Eq, Structural)]
pub enum MetricOp {
    /// Adds `amount` to a counter.
    Add { instrument: Instrument, amount: u64, labels: Labels },
    /// Moves an up-down counter by `delta`.
    Shift { instrument: Instrument, delta: i64, labels: Labels },
    /// Records `value` in a histogram.
    Record { instrument: Instrument, value: u64, labels: Labels },
}

/// The endpoints of the dice service.
#[derive(Clone, Copy, Debug, PartialEq, Eq, Structural)]
pub enum Endpoint {
    D6,
    D8,
    Health,
}

impl Instrument {
    pub open spec fn spec_kind(self) -> InstrumentKind {
        match self {
            Instrument::ActiveRequests => InstrumentKind::UpDownCounter,
            Instrument::HttpResponseSize => InstrumentKind::Histogram,
            _ => InstrumentKind::Counter,
        }
    }

    pub open spec fn spec_name(self) -> Seq<char> {
        match self {
            Instrument::RollCalls(Die::D6) => "roll_d6_calls"@,
            Instrument::RollCalls(Die::D8) => "roll_d8_calls"@,
            Instrument::TotalConnections => "total_connections"@,
            Instrument::ActiveRequests => "active_requests"@,
            Instrument::HttpRequests => "http_requests_total"@,
            Instrument::HttpResponseSize => "example.http_response_size"@,
        }
    }

    pub open spec fn spec_description(self) -> Seq<char> {
        match self {
            Instrument::RollCalls(Die::D6) => "Number of times the roll_d6 endpoint was called"@,
            Instrument::RollCalls(Die::D8) => "Number of times the roll_d8 endpoint was called"@,
            Instrument::TotalConnections => "Total connections over time"@,
            Instrument::ActiveRequests => "Number of requests currently being executed"@,
            Instrument::HttpRequests => "Total number of HTTP requests made."@,
            Instrument::HttpResponseSize => "The metrics HTTP response sizes in bytes."@,
        }
    }

    /// Whether the instrument declares a unit, and which.
    pub open spec fn spec_unit(self) -> Option<Seq<char>> {
        match self {
            Instrument::HttpResponseSize => Some("By"@),
            _ => None,
        }
    }

    pub fn kind(&self) -> (k: InstrumentKind)
        ensures
            k == self.spec_kind(),
    {
        match self {
            Instrument::ActiveRequests => InstrumentKind::UpDownCounter,
            Instrument::HttpResponseSize => InstrumentKind::Histogram,
            _ => InstrumentKind::Counter,
        }
    }

    /// The name under which the instrument is created.
    pub fn name(&self) -> (s: &'static str)
        ensures
            s@ == self.spec_name(),
    {
        match self {
            Instrument::RollCalls(Die::D6) => "roll_d6_calls",
            Instrument::RollCalls(Die::D8) => "roll_d8_calls",
            Instrument::TotalConnections => "total_connections",
            Instrument::ActiveRequests => "active_requests",
            Instrument::HttpRequests => "http_requests_total",
            Instrument::HttpResponseSize => "example.http_response_size",
        }
    }

    /// The description the instrument is created with.
    pub fn description(&self) -> (s: &'static str)
        ensures
            s@ == self.spec_description(),
    {
        match self {
            Instrument::RollCalls(Die::D6) => "Number of times the roll_d6 endpoint was called",
            Instrument::RollCalls(Die::D8) => "Number of times the roll_d8 endpoint was called",
            Instrument::TotalConnections => "Total connections over time",
            Instrument::ActiveRequests => "Number of requests currently being executed",
            Instrument::HttpRequests => "Total number of HTTP requests made.",
            Instrument::HttpResponseSize => "The metrics HTTP response sizes in bytes.",
        }
    }

    /// The unit the instrument is created with, if any.
    pub fn unit(&self) -> (u: Option<&'static str>)
        ensures
            u matches Some(s) ==> self.spec_unit() == Some(s@),
            u is None ==> self.spec_unit() is None,
    {
        match self {
            Instrument::HttpResponseSize => Some("By"),
            _ => None,
        }
    }
}

impl Handler {
    pub open spec fn spec_name(self) -> Seq<char> {
        match self {
            Handler::RollD6 => "roll_d6"@,
            Handler::RollD8 => "roll_d8"@,
            Handler::Health => "health"@,
            Handler::All => "all"@,
        }
    }

    pub fn name(&self) -> (s: &'static str)
        ensures
            s@ == self.spec_name(),
    {
        match self {
            Handler::RollD6 => "roll_d6",
            Handler::RollD8 => "roll_d8",
            Handler::Health => "health",
            Handler::All => "all",
        }
    }
}

impl Labels {
    /// The attribute pairs a measurement with these labels carries.
    pub open spec fn spec_pairs(self) -> Seq<(Seq<char>, Seq<char>)> {
        match self {
            Labels::Empty => Seq::empty(),
            Labels::Handler(h) => seq![("handler"@, h.spec_name())],
            Labels::Example => seq![("example_key"@, "example_value"@)],
        }
    }

    pub fn pairs(&self) -> (v: Vec<Attribute>)
        ensures
            attribute_pairs(v@) == self.spec_pairs(),
    {
        let mut v: Vec<Attribute> = Vec::new();
        match self {
            Labels::Empty => {},
            Labels::Handler(h) => {
                v.push(attribute("handler", h.name()));
            },
            Labels::Example => {
                v.push(attribute("example_key", "example_value"));
            },
        }
        assert(attribute_pairs(v@) =~= self.spec_pairs());
        v
    }
}

impl MetricOp {
    /// The instrument the measurement goes to.
    pub open spec fn spec_instrument(self) -> Instrument {
        match self {
            MetricOp::Add { instrument, .. } => instrument,
            MetricOp::Shift { instrument, .. } => instrument,
            MetricOp::Record { instrument, .. } => instrument,
        }
    }

    /// The kind of instrument the measurement calls for.
    pub open spec fn spec_required_kind(self) -> InstrumentKind {
        match self {
            MetricOp::Add { .. } => InstrumentKind::Counter,
            MetricOp::Shift { .. } => InstrumentKind::UpDownCounter,
            MetricOp::Record { .. } => InstrumentKind::Histogram,
        }
    }

    /// The measurement fits its instrument's kind.
    pub open spec fn well_formed(self) -> bool {
        self.spec_instrument().spec_kind() == self.spec_required_kind()
    }
}

/// Every measurement of `ops` fits its instrument.
pub open spec fn all_well_formed(ops: Seq<MetricOp>) -> bool {
    forall|i: int| 0 <= i < ops.len() ==> (#[trigger] ops[i]).well_formed()
}

/// The net change that `ops` make to the up-down counter `instrument`.
pub open spec fn net_shift(ops: Seq<MetricOp>, instrument: Instrument) -> int
    decreases ops.len(),
{
    if ops.len() == 0 {
        0
    } else {
        net_shift(ops.drop_last(), instrument) + match ops.last() {
            MetricOp::Shift { instrument: i, delta, .. } => if i == instrument {
                delta as int
            } else {
                0
            },
            _ => 0,
        }
    }
}

/// The total that `ops` add to the counter `instrument`.
pub open spec fn total_added(ops: Seq<MetricOp>, instrument: Instrument) -> int
    decreases ops.len(),
{
    if ops.len() == 0 {
        0
    } else {
        total_added(ops.drop_last(), instrument) + match ops.last() {
            MetricOp::Add { instrument: i, amount, .. } => if i == instrument {
                amount as int
            } else {
                0
            },
            _ => 0,
        }
    }
}

/// The endpoint that rolls dice of kind `die`.
pub open spec fn spec_roll_endpoint(die: Die) -> Endpoint {
    match die {
        Die::D6 => Endpoint::D6,
        Die::D8 => Endpoint::D8,
    }
}

/// The endpoint that rolls dice of kind `die`.
pub fn roll_endpoint(die: Die) -> (e: Endpoint)
    ensures
        e == spec_roll_endpoint(die),
{
    match die {
        Die::D6 => Endpoint::D6,
        Die::D8 => Endpoint::D8,
    }
}

impl Endpoint {
    pub open spec fn spec_handler(self) -> Handler {
        match self {
            Endpoint::D6 => Handler::RollD6,
            Endpoint::D8 => Handler::RollD8,
            Endpoint::Health => Handler::Health,
        }
    }
}

/// What an endpoint of the dice service records when a request arrives:
/// a dice endpoint counts the call and the connection; every endpoint
/// marks one more request as active.
pub open spec fn spec_open_ops(e: Endpoint) -> Seq<MetricOp> {
    let active = MetricOp::Shift {
        instrument: Instrument::ActiveRequests,
        delta: 1,
        labels: Labels::Handler(e.spec_handler()),
    };
    match e {
        Endpoint::D6 => seq![
            MetricOp::Add { instrument: Instrument::RollCalls(Die::D6), amount: 1, labels: Labels::Empty },
            MetricOp::Add { instrument: Instrument::TotalConnections, amount: 1, labels: Labels::Empty },
            active,
        ],
        Endpoint::D8 => seq![
            MetricOp::Add { instrument: Instrument::RollCalls(Die::D8), amount: 1, labels: Labels::Empty },
            MetricOp::Add { instrument: Instrument::TotalConnections, amount: 1, labels: Labels::Empty },
            active,
        ],
        Endpoint::Health => seq![active],
    }
}

/// What an endpoint records when its answer is ready, whichever it is:
/// the request is no longer active.
pub open spec fn spec_close_ops(e: Endpoint) -> Seq<MetricOp> {
    seq![
        MetricOp::Shift {
            instrument: Instrument::ActiveRequests,
            delta: -1i64,
            labels: Labels::Handler(e.spec_handler()),
        },
    ]
}

/// Everything one request to `e` records, from arrival to answer.
pub open spec fn spec_request_ops(e: Endpoint) -> Seq<MetricOp> {
    spec_open_ops(e) + spec_close_ops(e)
}

/// Everything a sequence of requests records, one request after the other.
pub open spec fn spec_requests_ops(es: Seq<Endpoint>) -> Seq<MetricOp>
    decreases es.len(),
{
    if es.len() == 0 {
        Seq::empty()
    } else {
        spec_requests_ops(es.drop_last()) + spec_request_ops(es.last())
    }
}

/// The number of requests in `es` that roll dice.
pub open spec fn roll_requests(es: Seq<Endpoint>) -> int
    decreases es.len(),
{
    if es.len() == 0 {
        0
    } else {
        roll_requests(es.drop_last()) + if es.last() == Endpoint::Health {
            0int
        } else {
            1int
        }
    }
}

impl Endpoint {
    /// The handler the endpoint's measurements are attributed to: `/d6` to
    /// roll_d6, `/d8` to roll_d8, `/health` to health.
    pub fn handler(&self) -> (h: Handler)
        ensures
            h == self.spec_handler(),
            *self == Endpoint::D6 ==> h == Handler::RollD6,
            *self == Endpoint::D8 ==> h == Handler::RollD8,
            *self == Endpoint::Health ==> h == Handler::Health,
    {
        match self {
            Endpoint::D6 => Handler::RollD6,
            Endpoint::D8 => Handler::RollD8,
            Endpoint::Health => Handler::Health,
        }
    }
}

/// The measurements an endpoint takes when a request arrives.
pub fn request_open_ops(e: Endpoint) -> (ops: Vec<MetricOp>)
    ensures
        ops@ == spec_open_ops(e),
{
    let mut ops: Vec<MetricOp> = Vec::new();
    match e {
        Endpoint::D6 => {
            ops.push(MetricOp::Add { instrument: Instrument::RollCalls(Die::D6), amount: 1, labels: Labels::Empty });
            ops.push(MetricOp::Add { instrument: Instrument::TotalConnections, amount: 1, labels: Labels::Empty });
        },
        Endpoint::D8 => {
            ops.push(MetricOp::Add { instrument: Instrument::RollCalls(Die::D8), amount: 1, labels: Labels::Empty });
            ops.push(MetricOp::Add { instrument: Instrument::TotalConnections, amount: 1, labels: Labels::Empty });
        },
        Endpoint::Health => {},
    }
    ops.push(MetricOp::Shift { instrument: Instrument::ActiveRequests, delta: 1, labels: Labels::Handler(e.handler()) });
    assert(ops@ =~= spec_open_ops(e));
    ops
}

/// The measurements an endpoint takes when its answer is ready.
pub fn request_close_ops(e: Endpoint) -> (ops: Vec<MetricOp>)
    ensures
        ops@ == spec_close_ops(e),
{
    let mut ops: Vec<MetricOp> = Vec::new();
    ops.push(MetricOp::Shift { instrument: Instrument::ActiveRequests, delta: -1, labels: Labels::Handler(e.handler()) });
    assert(ops@ =~= spec_close_ops(e));
    ops
}

proof fn lemma_net_shift_append(a: Seq<MetricOp>, b: Seq<MetricOp>, instrument: Instrument)
    ensures
        net_shift(a + b, instrument) == net_shift(a, instrument) + net_shift(b, instrument),
    decreases b.len(),
{
    if b.len() == 0 {
        assert(a + b =~= a);
    } else {
        assert((a + b).drop_last() =~= a + b.drop_last());
        lemma_net_shift_append(a, b.drop_last(), instrument);
    }
}

proof fn lemma_total_added_append(a: Seq<MetricOp>, b: Seq<MetricOp>, instrument: Instrument)
    ensures
        total_added(a + b, instrument) == total_added(a, instrument) + total_added(b, instrument),
    decreases b.len(),
{
    if b.len() == 0 {
        assert(a + b =~= a);
    } else {
        assert((a + b).drop_last() =~= a + b.drop_last());
        lemma_total_added_append(a, b.drop_last(), instrument);
    }
}

/// A request to any endpoint leaves the active-requests counter where it found
/// it, moves no other up-down counter, and records only measurements that fit
/// their instruments.
pub proof fn lemma_request_balances_active(e: Endpoint)
    ensures
        net_shift(spec_request_ops(e), Instrument::ActiveRequests) == 0,
        net_shift(spec_open_ops(e), Instrument::ActiveRequests) == 1,
        all_well_formed(spec_request_ops(e)),
{
    reveal_with_fuel(net_shift, 4);
    lemma_net_shift_append(spec_open_ops(e), spec_close_ops(e), Instrument::ActiveRequests);
}

/// Every active-requests measurement of `ops` moves the counter by `delta`
/// under the label `labels`.
pub open spec fn active_shifts_are(ops: Seq<MetricOp>, delta: i64, labels: Labels) -> bool {
    forall|i: int|
        0 <= i < ops.len() && (#[trigger] ops[i]).spec_instrument() == Instrument::ActiveRequests
            ==> ops[i] == (MetricOp::Shift { instrument: Instrument::ActiveRequests, delta, labels })
}

/// A request to `/d6` moves active-requests up by one at arrival and down by
/// one at the answer, both attributed to the roll_d6 handler; `/d8` does the
/// same under roll_d8, and `/health` under health.
pub proof fn lemma_active_requests_labelled(e: Endpoint)
    ensures
        e == Endpoint::D6 ==> active_shifts_are(spec_open_ops(e), 1i64, Labels::Handler(Handler::RollD6))
            && active_shifts_are(spec_close_ops(e), -1i64, Labels::Handler(Handler::RollD6)),
        e == Endpoint::D8 ==> active_shifts_are(spec_open_ops(e), 1i64, Labels::Handler(Handler::RollD8))
            && active_shifts_are(spec_close_ops(e), -1i64, Labels::Handler(Handler::RollD8)),
        e == Endpoint::Health ==> active_shifts_are(spec_open_ops(e), 1i64, Labels::Handler(Handler::Health))
            && active_shifts_are(spec_close_ops(e), -1i64, Labels::Handler(Handler::Health)),
        net_shift(spec_open_ops(e), Instrument::ActiveRequests) == 1,
        net_shift(spec_close_ops(e), Instrument::ActiveRequests) == -1,
{
    reveal_with_fuel(net_shift, 4);
}

/// The call and connection counters of a request are added to without any
/// attribute: only the active-requests measurements name a handler.
pub proof fn lemma_request_counters_unlabelled(e: Endpoint)
    ensures
        forall|i: int|
            0 <= i < spec_request_ops(e).len() && (#[trigger] spec_request_ops(e)[i]) is Add
                ==> spec_request_ops(e)[i]->Add_labels == Labels::Empty,
{
    assert forall|i: int|
        0 <= i < spec_request_ops(e).len() && (#[trigger] spec_request_ops(e)[i]) is Add
            implies spec_request_ops(e)[i]->Add_labels == Labels::Empty by {
        let ops = spec_request_ops(e);
        if i < spec_open_ops(e).len() {
            assert(ops[i] == spec_open_ops(e)[i]);
        } else {
            assert(ops[i] == spec_close_ops(e)[i - spec_open_ops(e).len()]);
        }
    }
}

/// A dice request counts one call of its endpoint and one connection; the
/// health check counts neither.
pub proof fn lemma_request_counts(e: Endpoint)
    ensures
        total_added(spec_request_ops(e), Instrument::TotalConnections) == if e == Endpoint::Health {
            0int
        } else {
            1int
        },
        total_added(spec_request_ops(e), Instrument::RollCalls(Die::D6)) == if e == Endpoint::D6 {
            1int
        } else {
            0int
        },
        total_added(spec_request_ops(e), Instrument::RollCalls(Die::D8)) == if e == Endpoint::D8 {
            1int
        } else {
            0int
        },
{
    reveal_with_fuel(total_added, 4);
    lemma_total_added_append(spec_open_ops(e), spec_close_ops(e), Instrument::TotalConnections);
    lemma_total_added_append(spec_open_ops(e), spec_close_ops(e), Instrument::RollCalls(Die::D6));
    lemma_total_added_append(spec_open_ops(e), spec_close_ops(e), Instrument::RollCalls(Die::D8));
}

/// Once every request of a sequence has been answered, the active-requests
/// counter is back where it started, and the connection counter has grown by
/// the number of dice requests among them.
pub proof fn lemma_served_requests(es: Seq<Endpoint>)
    ensures
        net_shift(spec_requests_ops(es), Instrument::ActiveRequests) == 0,
        total_added(spec_requests_ops(es), Instrument::TotalConnections) == roll_requests(es),
    decreases es.len(),
{
    if es.len() > 0 {
        lemma_served_requests(es.drop_last());
        lemma_request_balances_active(es.last());
        lemma_request_counts(es.last());
        lemma_net_shift_append(
            spec_requests_ops(es.drop_last()),
            spec_request_ops(es.last()),
            Instrument::ActiveRequests,
        );
        lemma_total_added_append(
            spec_requests_ops(es.drop_last()),
            spec_request_ops(es.last()),
            Instrument::TotalConnections,
        );
    }
}

/// The scrape service's measurement when a request arrives: one more request,
/// attributed to every handler.
pub fn scrape_open_ops() -> (ops: Vec<MetricOp>)
    ensures
        ops@ == seq![
            MetricOp::Add { instrument: Instrument::HttpRequests, amount: 1, labels: Labels::Handler(Handler::All) },
        ],
{
    let mut ops: Vec<MetricOp> = Vec::new();
    ops.push(MetricOp::Add { instrument: Instrument::HttpRequests, amount: 1, labels: Labels::Handler(Handler::All) });
    assert(ops@ =~= seq![
        MetricOp::Add { instrument: Instrument::HttpRequests, amount: 1, labels: Labels::Handler(Handler::All) },
    ]);
    ops
}

/// The metrics service's first measurement: one connection.
pub fn startup_connection_op() -> (op: MetricOp)
    ensures
        op == (MetricOp::Add { instrument: Instrument::TotalConnections, amount: 1, labels: Labels::Example }),
{
    MetricOp::Add { instrument: Instrument::TotalConnections, amount: 1, labels: Labels::Example }
}

/// The measurement of one tick of the metrics service, from a random `sample`:
/// between zero and nine more connections, `sample % 10`.
pub fn connection_tick_op(sample: u64) -> (op: MetricOp)
    ensures
        op == (MetricOp::Add {
            instrument: Instrument::TotalConnections,
            amount: (sample % 10) as u64,
            labels: Labels::Example,
        }),
{
    MetricOp::Add { instrument: Instrument::TotalConnections, amount: sample % 10, labels: Labels::Example }
}

/// Draws one sample for a tick from the thread-local generator, uniform over
/// all `u64` values.
pub fn draw_sample() -> (s: u64) {
    random_u64()
}

/// `s` is a value that a draw of a tick's sample can come back with.
pub open spec fn is_drawn_sample(s: u64) -> bool {
    call_ensures(draw_sample, (), s)
}

/// Draws the next tick's measurement from the thread-local generator: the
/// tick adds `sample % 10` connections for a freshly drawn `sample`.
pub fn draw_connection_tick_op() -> (op: MetricOp)
    ensures
        op matches MetricOp::Add { instrument, amount, labels } && instrument
            == Instrument::TotalConnections && amount < 10 && labels == Labels::Example,
        exists|sample: u64|
            #[trigger] is_drawn_sample(sample) && op == (MetricOp::Add {
                instrument: Instrument::TotalConnections,
                amount: (sample % 10) as u64,
                labels: Labels::Example,
            }),
{
    let draw = draw_sample;
    let sample = draw();
    assert(is_drawn_sample(sample));
    connection_tick_op(sample)
}

} // verus!
