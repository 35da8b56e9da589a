use vstd::prelude::*;
use rand::rngs::ThreadRng;
use crate::decimal::{signed_decimal, push_signed_decimal};
use crate::random::{thread_rng, random_in_range};

verus! {

/// The dice the service can roll.
#[derive(Clone, Copy, Debug, PartialEq, Eq, Structural)]
pub enum Die {
    D6,
    D8,
}

impl Die {
    /// Number of faces: the highest value one throw can show.
    pub open spec fn spec_faces(self) -> u32 {
        match self {
            Die::D6 => 6,
            Die::D8 => 8,
        }
    }

    /// The largest number of dice one request may ask for.
    pub open spec fn spec_max_count(self) -> i32 {
        match self {
            Die::D6 => 18,
            Die::D8 => 10,
        }
    }

    /// The name under which the die appears in a roll result.
    pub open spec fn spec_label(self) -> Seq<char> {
        match self {
            Die::D6 => "d6"@,
            Die::D8 => "d8"@,
        }
    }

    pub fn faces(&self) -> (n: u32)
        ensures
            n == self.spec_faces(),
    {
        match self {
            Die::D6 => 6,
            Die::D8 => 8,
        }
    }

    pub fn max_count(&self) -> (n: i32)
        ensures
            n == self.spec_max_count(),
    {
        match self {
            Die::D6 => 18,
            Die::D8 => 10,
        }
    }

    pub fn label(&self) -> (s: String)
        ensures
            s@ == self.spec_label(),
    {
        match self {
            Die::D6 => String::from_str("d6"),
            Die::D8 => String::from_str("d8"),
        }
    }
}

/// A successful roll: which die, how many, each throw and their sum.
#[derive(Debug)]
pub struct RollResult {
    pub dice: String,
    pub count: i32,
    pub rolls: Vec<u32>,
    pub total: u32,
}

/// The body of a refused request.
#[derive(Debug)]
pub struct ErrorResponse {
    pub error: String,
}

/// The body of the health check.
#[derive(Debug)]
pub struct HealthResponse {
    pub status: String,
}

/// A refused request: the HTTP status and the body sent with it.
#[derive(Debug)]
pub struct Rejection {
    pub status: u16,
    pub body: ErrorResponse,
}

/// HTTP status of a refused roll (400 Bad Request).
pub const BAD_REQUEST: u16 = 400;

/// The count a request asks for: the one given, else a single die.
pub open spec fn spec_requested_count(count: Option<i32>) -> i32 {
    match count {
        Some(c) => c,
        None => 1,
    }
}

/// Whether a request may roll `count` dice of kind `die`.
pub open spec fn count_accepted(die: Die, count: int) -> bool {
    1 <= count <= die.spec_max_count()
}

/// The message that refuses `count` dice of kind `die`.
pub open spec fn spec_count_error(die: Die, count: int) -> Seq<char> {
    "count must be between 1 and "@ + signed_decimal(die.spec_max_count() as int) + ", got "@
        + signed_decimal(count)
}

/// The sum of a sequence of throws.
pub open spec fn sum_rolls(rolls: Seq<u32>) -> int
    decreases rolls.len(),
{
    if rolls.len() == 0 {
        0
    } else {
        sum_rolls(rolls.drop_last()) + rolls.last()
    }
}

/// `rolls` holds exactly `count` throws of `die`, each showing one of its faces.
pub open spec fn valid_rolls(die: Die, rolls: Seq<u32>, count: int) -> bool {
    &&& rolls.len() == count
    &&& forall|i: int| 0 <= i < rolls.len() ==> 1 <= #[trigger] rolls[i] <= die.spec_faces()
}

/// What a roll result says of a request for `count` dice of kind `die`.
pub open spec fn describes_roll(r: RollResult, die: Die, count: int) -> bool {
    &&& r.dice@ == die.spec_label()
    &&& r.count == count
    &&& valid_rolls(die, r.rolls@, count)
    &&& r.total == sum_rolls(r.rolls@)
}

/// A request without a count asks for a single die; one with a count asks
/// for exactly that many.
pub proof fn lemma_requested_count(count: Option<i32>)
    ensures
        count is None ==> spec_requested_count(count) == 1,
        count matches Some(c) ==> spec_requested_count(count) == c,
{
}

/// A six-sided die shows 1 to 6 and may be thrown up to 18 times in one
/// request, an eight-sided die shows 1 to 8 and may be thrown up to 10 times;
/// a request is accepted exactly when it asks for at least one die and no more
/// than that.
pub proof fn lemma_die_rules(die: Die, count: int)
    ensures
        die == Die::D6 ==> die.spec_faces() == 6 && die.spec_label() == "d6"@
            && (count_accepted(die, count) <==> 1 <= count <= 18),
        die == Die::D8 ==> die.spec_faces() == 8 && die.spec_label() == "d8"@
            && (count_accepted(die, count) <==> 1 <= count <= 10),
{
}

/// The sum of throws is additive: the throws of two runs, one after the
/// other, total what the two runs total; no throws total zero and a single
/// throw totals its value.
pub proof fn lemma_sum_rolls_append(a: Seq<u32>, b: Seq<u32>)
    ensures
        sum_rolls(a + b) == sum_rolls(a) + sum_rolls(b),
        sum_rolls(Seq::<u32>::empty()) == 0,
        b.len() == 1 ==> sum_rolls(b) == b[0],
    decreases b.len(),
{
    if b.len() == 0 {
        assert(a + b =~= a);
    } else {
        assert((a + b).drop_last() =~= a + b.drop_last());
        lemma_sum_rolls_append(a, b.drop_last());
        if b.len() == 1 {
            assert(b.drop_last() =~= Seq::<u32>::empty());
        }
    }
}

/// Every throw shows one of its die's faces, so `count` throws total at least
/// `count` and at most `count` times the number of faces.
pub proof fn lemma_roll_total_bounds(die: Die, rolls: Seq<u32>, count: int)
    requires
        valid_rolls(die, rolls, count),
    ensures
        count <= sum_rolls(rolls) <= count * die.spec_faces(),
    decreases rolls.len(),
{
    if rolls.len() > 0 {
        let init = rolls.drop_last();
        assert forall|i: int| 0 <= i < init.len() implies 1 <= #[trigger] init[i]
            <= die.spec_faces() by {
            assert(init[i] == rolls[i]);
        }
        lemma_roll_total_bounds(die, init, count - 1);
        let f = die.spec_faces() as int;
        assert((count - 1) * f + f == count * f) by (nonlinear_arith);
        assert(1 <= rolls[rolls.len() - 1] <= f);
    }
}

/// The count a request asks for: `count.unwrap_or(1)`.
pub fn requested_count(count: Option<i32>) -> (c: i32)
    ensures
        c == spec_requested_count(count),
{
    match count {
        Some(c) => c,
        None => 1,
    }
}

/// The refusal message for `count` dice of kind `die`,
/// `count must be between 1 and {max}, got {count}`.
pub fn count_error_message(die: Die, count: i32) -> (s: String)
    ensures
        s@ == spec_count_error(die, count as int),
{
    let mut s = String::from_str("count must be between 1 and ");
    push_signed_decimal(&mut s, die.max_count() as i64);
    s.append(", got ");
    push_signed_decimal(&mut s, count as i64);
    s
}

/// Accepts `count` when it lies between one and the die's maximum, and
/// otherwise builds the 400 answer that names the maximum and the count.
pub fn check_count(die: Die, count: i32) -> (res: Result<i32, Rejection>)
    ensures
        res is Ok <==> count_accepted(die, count as int),
        res matches Ok(c) ==> c == count,
        res matches Err(e) ==> e.status == BAD_REQUEST && e.body.error@ == spec_count_error(
            die,
            count as int,
        ),
{
    if count < 1 || count > die.max_count() {
        Err(Rejection { status: BAD_REQUEST, body: ErrorResponse { error: count_error_message(die, count) } })
    } else {
        Ok(count)
    }
}

/// Throws one die of kind `die` with the generator `rng`: the `nth` throw of
/// a roll, counting from zero. The value comes from the generator, uniform
/// over the die's faces.
pub fn throw_die(rng: &mut ThreadRng, die: Die, Ghost(nth): Ghost<int>) -> (r: u32)
    ensures
        1 <= r <= die.spec_faces(),
{
    random_in_range(rng, 1, die.faces())
}

/// `r` is a value that the `nth` throw of a die of kind `die` can come back with.
pub open spec fn is_throw(die: Die, nth: int, r: u32) -> bool {
    exists|g: &mut ThreadRng| call_ensures(throw_die, (g, die, Ghost(nth)), r)
}

/// Each entry of `rolls` is what the throw at its own position came back
/// with: no entry is fixed, copied from another or moved.
pub open spec fn thrown(die: Die, rolls: Seq<u32>) -> bool {
    forall|i: int| 0 <= i < rolls.len() ==> is_throw(die, i, #[trigger] rolls[i])
}

/// Whatever a throw comes back with is one of the die's faces.
pub proof fn lemma_thrown_shows_faces(die: Die, rolls: Seq<u32>)
    requires
        thrown(die, rolls),
    ensures
        valid_rolls(die, rolls, rolls.len() as int),
{
    assert forall|i: int| 0 <= i < rolls.len() implies 1 <= #[trigger] rolls[i]
        <= die.spec_faces() by {
        assert(is_throw(die, i, rolls[i]));
    }
}

/// Throws `count` dice of kind `die` with the generator `rng`, one throw
/// after the other, and keeps each value where it was thrown.
pub fn roll_dice(die: Die, count: i32, rng: &mut ThreadRng) -> (rolls: Vec<u32>)
    requires
        0 <= count,
    ensures
        valid_rolls(die, rolls@, count as int),
        thrown(die, rolls@),
{
    let mut rolls: Vec<u32> = Vec::new();
    let mut i: i32 = 0;
    while i < count
        invariant
            0 <= i <= count,
            valid_rolls(die, rolls@, i as int),
            thrown(die, rolls@),
        decreases count - i,
    {
        let throw = throw_die;
        let r = throw(rng, die, Ghost(i as int));
        rolls.push(r);
        i = i + 1;
    }
    rolls
}

/// Builds the result of a roll from its throws: the die's label, the count,
/// the throws in the order they came, and their sum.
pub fn summarize_rolls(die: Die, count: i32, rolls: Vec<u32>) -> (r: RollResult)
    requires
        count <= die.spec_max_count(),
        valid_rolls(die, rolls@, count as int),
    ensures
        describes_roll(r, die, count as int),
        r.rolls@ == rolls@,
{
    let mut total: u32 = 0;
    let n = rolls.len();
    let mut i: usize = 0;
    while i < n
        invariant
            n == rolls@.len(),
            0 <= i <= n,
            valid_rolls(die, rolls@, count as int),
            count <= die.spec_max_count(),
            total == sum_rolls(rolls@.take(i as int)),
            total <= 8 * i,
        decreases n - i,
    {
        proof {
            assert(rolls@.take(i + 1).drop_last() =~= rolls@.take(i as int));
            assert(die.spec_faces() <= 8);
            assert(rolls@[i as int] <= 8);
        }
        total = total + rolls[i];
        i = i + 1;
    }
    proof {
        assert(rolls@.take(n as int) =~= rolls@);
    }
    RollResult { dice: die.label(), count, rolls, total }
}

/// Answers a request for `count` dice of kind `die` (one die when no count
/// is given): a result with fresh throws when the count is accepted, else the
/// 400 refusal. The throws come from the thread-local generator.
pub fn roll(die: Die, count: Option<i32>) -> (res: Result<RollResult, Rejection>)
    ensures
        res is Ok <==> count_accepted(die, spec_requested_count(count) as int),
        res matches Ok(r) ==> describes_roll(r, die, spec_requested_count(count) as int),
        res matches Ok(r) ==> thrown(die, r.rolls@),
        res matches Err(e) ==> e.status == BAD_REQUEST && e.body.error@ == spec_count_error(
            die,
            spec_requested_count(count) as int,
        ),
{
    let count = requested_count(count);
    match check_count(die, count) {
        Err(e) => Err(e),
        Ok(count) => {
            let mut rng = thread_rng();
            let rolls = roll_dice(die, count, &mut rng);
            Ok(summarize_rolls(die, count, rolls))
        },
    }
}

/// The health check's answer, `{"status": "ok"}`.
pub fn health_response() -> (h: HealthResponse)
    ensures
        h.status@ == "ok"@,
{
    HealthResponse { status: String::from_str("ok") }
}

} // verus!
