use telemetry_lab::service::{arrive_roll, health as health_handler, roll_d6, roll_d8};
use telemetry_lab::dice::{
    check_count, count_error_message, health_response, requested_count, roll,
    summarize_rolls, Die, BAD_REQUEST,
};
use telemetry_lab::metrics::{
    request_close_ops, request_open_ops, Endpoint, Handler, Instrument, Labels, MetricOp,
};

fn assert_valid_roll(die: Die, count: i32, faces: u32) {
    let r = roll(die, Some(count)).expect("count in range");
    assert_eq!(r.count, count);
    assert_eq!(r.rolls.len(), count as usize);
    assert!(r.rolls.iter().all(|&x| 1 <= x && x <= faces));
    assert_eq!(r.total, r.rolls.iter().sum::<u32>());
    assert!(count as u32 <= r.total && r.total <= count as u32 * faces);
}

#[test]
fn d6_without_count_rolls_one_die() {
    let r = roll(Die::D6, None).expect("default count is accepted");
    assert_eq!(r.dice, "d6");
    assert_eq!(r.count, 1);
    assert_eq!(r.rolls.len(), 1);
    assert!(1 <= r.rolls[0] && r.rolls[0] <= 6);
    assert_eq!(r.total, r.rolls[0]);
}

#[test]
fn d6_accepts_the_full_range() {
    for count in 1..=18 {
        assert_valid_roll(Die::D6, count, 6);
    }
}

#[test]
fn d8_accepts_the_full_range() {
    for count in 1..=10 {
        assert_valid_roll(Die::D8, count, 8);
    }
    let r = roll(Die::D8, Some(10)).unwrap();
    assert_eq!(r.dice, "d8");
}

#[test]
fn d6_refuses_zero_and_negative_counts() {
    let e = roll(Die::D6, Some(0)).unwrap_err();
    assert_eq!(e.status, 400);
    assert_eq!(e.body.error, "count must be between 1 and 18, got 0");
    let e = roll(Die::D6, Some(-5)).unwrap_err();
    assert_eq!(e.body.error, "count must be between 1 and 18, got -5");
}

#[test]
fn d6_refuses_too_many_dice() {
    let e = roll(Die::D6, Some(19)).unwrap_err();
    assert_eq!(e.status, BAD_REQUEST);
    assert_eq!(e.body.error, "count must be between 1 and 18, got 19");
}

#[test]
fn d8_refuses_out_of_range_counts() {
    let e = roll(Die::D8, Some(11)).unwrap_err();
    assert_eq!(e.status, 400);
    assert_eq!(e.body.error, "count must be between 1 and 10, got 11");
    let e = roll(Die::D8, Some(0)).unwrap_err();
    assert_eq!(e.body.error, "count must be between 1 and 10, got 0");
    let e = roll(Die::D8, Some(i32::MIN)).unwrap_err();
    assert_eq!(e.body.error, "count must be between 1 and 10, got -2147483648");
    let e = roll(Die::D8, Some(i32::MAX)).unwrap_err();
    assert_eq!(e.body.error, "count must be between 1 and 10, got 2147483647");
}

#[test]
fn requested_count_defaults_to_one() {
    assert_eq!(requested_count(None), 1);
    assert_eq!(requested_count(Some(7)), 7);
    assert_eq!(requested_count(Some(-3)), -3);
}

#[test]
fn check_count_bounds() {
    assert_eq!(check_count(Die::D6, 18).unwrap(), 18);
    assert_eq!(check_count(Die::D6, 1).unwrap(), 1);
    assert!(check_count(Die::D8, 11).is_err());
    assert_eq!(count_error_message(Die::D8, 12), "count must be between 1 and 10, got 12");
}

#[test]
fn summary_sums_the_given_throws() {
    let r = summarize_rolls(Die::D6, 3, vec![1, 6, 4]);
    assert_eq!(r.dice, "d6");
    assert_eq!(r.count, 3);
    assert_eq!(r.rolls, vec![1, 6, 4]);
    assert_eq!(r.total, 11);
    let r = summarize_rolls(Die::D8, 0, vec![]);
    assert_eq!(r.total, 0);
    assert_eq!(r.dice, "d8");
}

#[test]
fn throws_vary_between_requests() {
    // A generator that kept answering its lower bound would show 1 on every die.
    let mut seen_other_than_one = false;
    for _ in 0..20 {
        let r = roll(Die::D6, Some(18)).unwrap();
        if r.rolls.iter().any(|&x| x != 1) {
            seen_other_than_one = true;
        }
    }
    assert!(seen_other_than_one);
}

#[test]
fn health_answers_ok() {
    assert_eq!(health_response().status, "ok");
}

#[test]
fn dice_request_records_call_connection_and_active() {
    let open = request_open_ops(Endpoint::D6);
    assert_eq!(
        open,
        vec![
            MetricOp::Add { instrument: Instrument::RollCalls(Die::D6), amount: 1, labels: Labels::Empty },
            MetricOp::Add { instrument: Instrument::TotalConnections, amount: 1, labels: Labels::Empty },
            MetricOp::Shift {
                instrument: Instrument::ActiveRequests,
                delta: 1,
                labels: Labels::Handler(Handler::RollD6)
            },
        ]
    );
    let close = request_close_ops(Endpoint::D6);
    assert_eq!(
        close,
        vec![MetricOp::Shift {
            instrument: Instrument::ActiveRequests,
            delta: -1,
            labels: Labels::Handler(Handler::RollD6)
        }]
    );
}

#[test]
fn health_request_records_only_activity() {
    let open = request_open_ops(Endpoint::Health);
    assert_eq!(
        open,
        vec![MetricOp::Shift {
            instrument: Instrument::ActiveRequests,
            delta: 1,
            labels: Labels::Handler(Handler::Health)
        }]
    );
    let close = request_close_ops(Endpoint::Health);
    assert_eq!(close.len(), 1);
}

#[test]
fn served_requests_leave_active_unchanged() {
    let mut active: i64 = 0;
    let mut connections: u64 = 0;
    let endpoints = [Endpoint::D6, Endpoint::Health, Endpoint::D8, Endpoint::D8, Endpoint::Health];
    for e in endpoints {
        for op in request_open_ops(e).into_iter().chain(request_close_ops(e)) {
            match op {
                MetricOp::Shift { instrument: Instrument::ActiveRequests, delta, .. } => active += delta,
                MetricOp::Add { instrument: Instrument::TotalConnections, amount, .. } => connections += amount,
                _ => {}
            }
        }
    }
    assert_eq!(active, 0);
    assert_eq!(connections, 3);
}

#[test]
fn handlers_measure_arrival_before_the_answer() {
    for count in [None, Some(0), Some(5), Some(18), Some(19)] {
        let (pending, opened) = roll_d6(count);
        assert_eq!(opened, request_open_ops(Endpoint::D6));
        let (answer, closed) = pending.finish();
        assert_eq!(closed, request_close_ops(Endpoint::D6));
        assert_eq!(answer.is_ok(), matches!(count.unwrap_or(1), 1..=18));
    }
    let (pending, opened) = roll_d8(Some(11));
    assert_eq!(opened, request_open_ops(Endpoint::D8));
    let (answer, closed) = pending.finish();
    assert_eq!(closed, request_close_ops(Endpoint::D8));
    assert_eq!(answer.unwrap_err().body.error, "count must be between 1 and 10, got 11");
    let (pending, opened) = arrive_roll(Die::D8, Some(3));
    assert_eq!(opened, request_open_ops(Endpoint::D8));
    assert_eq!(pending.finish().0.unwrap().rolls.len(), 3);
    let (pending, opened) = health_handler();
    assert_eq!(opened, request_open_ops(Endpoint::Health));
    let (answer, closed) = pending.finish();
    assert_eq!(answer.status, "ok");
    assert_eq!(closed, request_close_ops(Endpoint::Health));
}

#[test]
fn every_face_shows_up() {
    for (die, faces) in [(Die::D6, 6u32), (Die::D8, 8u32)] {
        let mut seen = vec![false; faces as usize + 1];
        for _ in 0..50 {
            for x in roll(die, Some(10)).unwrap().rolls {
                seen[x as usize] = true;
            }
        }
        assert!((1..=faces as usize).all(|f| seen[f]), "a face of {:?} never showed", die);
    }
}
