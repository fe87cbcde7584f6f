use onion_lifecycle::cell::AddressReader;
use onion_lifecycle::discovery::{
    DiscoveryAction, DiscoveryEvent, DiscoveryOutcome, DiscoveryPhase, DiscoveryTask, QueryReport,
    DISCOVERY_TIMEOUT_MS, INITIAL_DELAY_MS, RETRY_INTERVAL_MS,
};

const GOOD: &str = "abcdefghijklmnopqrstuvwxyz234567abcdefghijklmnopqrstuvwx.onion";

fn task() -> (DiscoveryTask, AddressReader) {
    DiscoveryTask::new().expect("the address pattern compiles")
}

fn completed(success: bool, stdout: &str) -> QueryReport {
    QueryReport::Completed { success, stdout: stdout.to_string() }
}

fn finished(report: QueryReport, now_ms: u64) -> DiscoveryEvent {
    DiscoveryEvent::QueryFinished { report, now_ms }
}

fn seen(reader: &AddressReader) -> Option<String> {
    reader.get().map(|address| address.into_string())
}

/// A task that began at `started_at` and whose first query runs, the
/// initial delay being over.
fn querying(started_at: u64) -> (DiscoveryTask, AddressReader) {
    let (mut task, reader) = task();
    assert_eq!(
        task.step(DiscoveryEvent::Begin { now_ms: started_at }),
        Some(DiscoveryAction::Sleep { millis: INITIAL_DELAY_MS })
    );
    assert_eq!(
        task.step(DiscoveryEvent::DelayElapsed {
            now_ms: started_at.saturating_add(INITIAL_DELAY_MS)
        }),
        Some(DiscoveryAction::RunQuery)
    );
    (task, reader)
}

#[test]
fn the_delays_are_two_thirty_and_five_seconds() {
    assert_eq!(INITIAL_DELAY_MS, 2_000);
    assert_eq!(DISCOVERY_TIMEOUT_MS, 30_000);
    assert_eq!(RETRY_INTERVAL_MS, 5_000);
}

#[test]
fn a_task_made_with_a_matcher_publishes_into_the_cell_of_its_reader() {
    let matcher = onion_lifecycle::address::AddressMatcher::new().expect("the pattern compiles");
    let (mut task, reader) = DiscoveryTask::with_matcher(matcher);
    assert_eq!(task.phase(), DiscoveryPhase::Idle);
    assert_eq!(seen(&reader), None);
    task.step(DiscoveryEvent::Begin { now_ms: 0 });
    task.step(DiscoveryEvent::DelayElapsed { now_ms: 0 });
    task.step(finished(completed(true, GOOD), 1));
    assert_eq!(seen(&reader), Some(GOOD.to_string()));
}

#[test]
fn a_new_task_is_idle_and_its_cell_unset() {
    let (task, reader) = task();
    assert_eq!(task.phase(), DiscoveryPhase::Idle);
    assert_eq!(seen(&reader), None);
}

#[test]
fn the_task_waits_before_its_first_query() {
    let (mut task, reader) = task();
    assert_eq!(
        task.step(DiscoveryEvent::Begin { now_ms: 0 }),
        Some(DiscoveryAction::Sleep { millis: 2_000 })
    );
    assert_eq!(task.phase(), DiscoveryPhase::Warming);
    assert_eq!(
        task.step(DiscoveryEvent::DelayElapsed { now_ms: 2_000 }),
        Some(DiscoveryAction::RunQuery)
    );
    assert_eq!(task.phase(), DiscoveryPhase::Querying);
    assert_eq!(seen(&reader), None);
}

#[test]
fn query_output_with_an_address_in_the_middle_sets_the_cell() {
    let (mut task, reader) = querying(2_000);
    let stdout = format!("foo\n{}\nbar", GOOD);
    assert_eq!(
        task.step(finished(completed(true, &stdout), 2_100)),
        Some(DiscoveryAction::Finish(DiscoveryOutcome::Found))
    );
    assert_eq!(task.phase(), DiscoveryPhase::Done(DiscoveryOutcome::Found));
    assert_eq!(seen(&reader), Some(GOOD.to_string()));
}

#[test]
fn the_published_address_is_the_trimmed_line() {
    let (mut task, reader) = querying(0);
    let stdout = format!("noise\n   {}\t\r\n", GOOD);
    task.step(finished(completed(true, &stdout), 1));
    assert_eq!(seen(&reader), Some(GOOD.to_string()));
}

#[test]
fn a_failed_query_publishes_nothing_even_if_it_printed_an_address() {
    let (mut task, reader) = querying(0);
    assert_eq!(
        task.step(finished(completed(false, GOOD), 10)),
        Some(DiscoveryAction::Sleep { millis: RETRY_INTERVAL_MS })
    );
    assert_eq!(task.phase(), DiscoveryPhase::Pausing);
    assert_eq!(seen(&reader), None);
}

#[test]
fn a_query_that_could_not_run_is_retried() {
    let (mut task, reader) = querying(0);
    assert_eq!(
        task.step(finished(QueryReport::Failed, 10)),
        Some(DiscoveryAction::Sleep { millis: 5_000 })
    );
    assert_eq!(
        task.step(DiscoveryEvent::DelayElapsed { now_ms: 5_010 }),
        Some(DiscoveryAction::RunQuery)
    );
    assert_eq!(task.phase(), DiscoveryPhase::Querying);
    assert_eq!(seen(&reader), None);
}

#[test]
fn malformed_lines_are_never_published() {
    let (mut task, reader) = querying(0);
    let short = format!("{}.onion", "a".repeat(55));
    let long = format!("{}.onion", "a".repeat(57));
    let upper = GOOD.to_uppercase();
    let digit = format!("{}1.onion", "a".repeat(55));
    let stdout = format!("{}\n{}\n{}\n{}\nhttp://{}\n", short, long, upper, digit, GOOD);
    assert_eq!(
        task.step(finished(completed(true, &stdout), 100)),
        Some(DiscoveryAction::Sleep { millis: 5_000 })
    );
    assert_eq!(seen(&reader), None);
    task.step(DiscoveryEvent::DelayElapsed { now_ms: 5_100 });
    let mixed = format!("{}\n{}\n{}\n", short, GOOD, long);
    assert_eq!(
        task.step(finished(completed(true, &mixed), 5_200)),
        Some(DiscoveryAction::Finish(DiscoveryOutcome::Found))
    );
    assert_eq!(seen(&reader), Some(GOOD.to_string()));
}

#[test]
fn the_deadline_is_thirty_seconds_after_the_start() {
    // one millisecond before the deadline the task goes on
    let (mut task, _reader) = querying(0);
    assert_eq!(
        task.step(finished(completed(true, "nothing"), 29_999)),
        Some(DiscoveryAction::Sleep { millis: 5_000 })
    );
    // at the deadline it stops
    let (mut task, reader) = querying(0);
    assert_eq!(
        task.step(finished(completed(true, "nothing"), 30_000)),
        Some(DiscoveryAction::Finish(DiscoveryOutcome::TimedOut))
    );
    assert_eq!(task.phase(), DiscoveryPhase::Done(DiscoveryOutcome::TimedOut));
    assert_eq!(seen(&reader), None);
    // the start need not be zero
    let (mut task, _reader) = querying(1_000);
    assert_eq!(
        task.step(finished(QueryReport::Failed, 30_999)),
        Some(DiscoveryAction::Sleep { millis: 5_000 })
    );
    let (mut task, _reader) = querying(1_000);
    assert_eq!(
        task.step(finished(QueryReport::Failed, 31_000)),
        Some(DiscoveryAction::Finish(DiscoveryOutcome::TimedOut))
    );
}

#[test]
fn the_initial_delay_is_part_of_the_thirty_seconds() {
    // the task began at 0 and its initial delay was over at 2 s: a query that
    // ends 30 s after the start is the last one, though only 28 s have
    // passed since the delay
    let (mut task, _reader) = task();
    task.step(DiscoveryEvent::Begin { now_ms: 0 });
    task.step(DiscoveryEvent::DelayElapsed { now_ms: 2_000 });
    assert_eq!(
        task.step(finished(QueryReport::Failed, 30_000)),
        Some(DiscoveryAction::Finish(DiscoveryOutcome::TimedOut))
    );
}

#[test]
fn a_late_end_of_the_initial_delay_does_not_move_the_deadline() {
    let (mut task, _reader) = task();
    task.step(DiscoveryEvent::Begin { now_ms: 0 });
    task.step(DiscoveryEvent::DelayElapsed { now_ms: 29_000 });
    assert_eq!(
        task.step(finished(QueryReport::Failed, 29_999)),
        Some(DiscoveryAction::Sleep { millis: 5_000 })
    );
    task.step(DiscoveryEvent::DelayElapsed { now_ms: 34_999 });
    assert_eq!(
        task.step(finished(QueryReport::Failed, 35_000)),
        Some(DiscoveryAction::Finish(DiscoveryOutcome::TimedOut))
    );
}

#[test]
fn the_deadline_is_not_moved_by_later_delays() {
    let (mut task, _reader) = querying(1_000);
    task.step(finished(QueryReport::Failed, 3_500));
    task.step(DiscoveryEvent::DelayElapsed { now_ms: 20_000 });
    assert_eq!(
        task.step(finished(QueryReport::Failed, 30_999)),
        Some(DiscoveryAction::Sleep { millis: 5_000 })
    );
    task.step(DiscoveryEvent::DelayElapsed { now_ms: 30_999 });
    assert_eq!(
        task.step(finished(QueryReport::Failed, 31_000)),
        Some(DiscoveryAction::Finish(DiscoveryOutcome::TimedOut))
    );
}

#[test]
fn queries_that_take_no_time_are_seven_before_the_task_gives_up() {
    let (mut task, reader) = task();
    let mut now = 0;
    let mut queries = 0;
    let mut started = Vec::new();
    let mut action = task.step(DiscoveryEvent::Begin { now_ms: now });
    loop {
        action = match action {
            Some(DiscoveryAction::Sleep { millis }) => {
                now += millis;
                task.step(DiscoveryEvent::DelayElapsed { now_ms: now })
            }
            Some(DiscoveryAction::RunQuery) => {
                queries += 1;
                started.push(now);
                task.step(finished(completed(true, "not yet\n"), now))
            }
            Some(DiscoveryAction::Finish(outcome)) => {
                assert_eq!(outcome, DiscoveryOutcome::TimedOut);
                break;
            }
            None => panic!("the task asked for nothing"),
        };
    }
    assert_eq!(queries, 7);
    assert_eq!(started, vec![2_000, 7_000, 12_000, 17_000, 22_000, 27_000, 32_000]);
    assert_eq!(seen(&reader), None);
}

#[test]
fn without_a_match_the_cell_stays_unset_for_good() {
    let (mut task, reader) = querying(0);
    let mut now = 2_000;
    loop {
        now += 100;
        match task.step(finished(completed(true, "still starting\n"), now)) {
            Some(DiscoveryAction::Sleep { millis }) => {
                assert!(now < 30_000);
                now += millis;
                assert_eq!(
                    task.step(DiscoveryEvent::DelayElapsed { now_ms: now }),
                    Some(DiscoveryAction::RunQuery)
                );
            }
            Some(DiscoveryAction::Finish(outcome)) => {
                assert_eq!(outcome, DiscoveryOutcome::TimedOut);
                break;
            }
            other => panic!("unexpected action {:?}", other),
        }
    }
    assert!(now >= 30_000);
    assert_eq!(seen(&reader), None);
    // whatever is reported afterwards, the cell stays unset
    assert_eq!(task.step(finished(completed(true, GOOD), now + 1)), None);
    assert_eq!(task.step(DiscoveryEvent::Begin { now_ms: now + 2 }), None);
    assert_eq!(task.step(DiscoveryEvent::DelayElapsed { now_ms: now + 2 }), None);
    assert_eq!(task.phase(), DiscoveryPhase::Done(DiscoveryOutcome::TimedOut));
    assert_eq!(seen(&reader), None);
}

#[test]
fn a_match_that_arrives_after_the_deadline_still_counts() {
    let (mut task, reader) = querying(2_000);
    assert_eq!(
        task.step(finished(completed(true, GOOD), 90_000)),
        Some(DiscoveryAction::Finish(DiscoveryOutcome::Found))
    );
    assert_eq!(seen(&reader), Some(GOOD.to_string()));
}

#[test]
fn the_cell_is_set_once_and_keeps_its_value() {
    let (mut task, reader) = querying(0);
    task.step(finished(completed(true, GOOD), 10));
    assert_eq!(seen(&reader), Some(GOOD.to_string()));
    let other = format!("{}.onion", "b".repeat(56));
    assert_eq!(task.step(finished(completed(true, &other), 20)), None);
    assert_eq!(task.step(DiscoveryEvent::DelayElapsed { now_ms: 30 }), None);
    assert_eq!(task.step(finished(completed(true, &other), 40)), None);
    assert_eq!(task.phase(), DiscoveryPhase::Done(DiscoveryOutcome::Found));
    assert_eq!(seen(&reader), Some(GOOD.to_string()));
    assert_eq!(seen(&reader.clone()), Some(GOOD.to_string()));
}

#[test]
fn events_out_of_place_change_nothing() {
    let (mut task, reader) = task();
    assert_eq!(task.step(DiscoveryEvent::DelayElapsed { now_ms: 5 }), None);
    assert_eq!(task.step(finished(completed(true, GOOD), 6)), None);
    assert_eq!(task.phase(), DiscoveryPhase::Idle);
    assert_eq!(seen(&reader), None);
    task.step(DiscoveryEvent::Begin { now_ms: 0 });
    assert_eq!(task.step(DiscoveryEvent::Begin { now_ms: 0 }), None);
    assert_eq!(task.step(finished(completed(true, GOOD), 7)), None);
    assert_eq!(task.phase(), DiscoveryPhase::Warming);
    task.step(DiscoveryEvent::DelayElapsed { now_ms: 8 });
    assert_eq!(task.step(DiscoveryEvent::DelayElapsed { now_ms: 9 }), None);
    assert_eq!(task.phase(), DiscoveryPhase::Querying);
    assert_eq!(seen(&reader), None);
}

#[test]
fn a_clock_that_reads_less_than_at_the_start_does_not_end_the_task() {
    let (mut task, _reader) = querying(50_000);
    assert_eq!(
        task.step(finished(QueryReport::Failed, 10)),
        Some(DiscoveryAction::Sleep { millis: 5_000 })
    );
}

#[test]
fn the_largest_clock_value_is_taken_in() {
    let (mut task, _reader) = querying(u64::MAX);
    assert_eq!(
        task.step(finished(QueryReport::Failed, u64::MAX)),
        Some(DiscoveryAction::Sleep { millis: 5_000 })
    );
    let (mut task, _reader) = querying(u64::MAX - 30_000);
    assert_eq!(
        task.step(finished(QueryReport::Failed, u64::MAX - 1)),
        Some(DiscoveryAction::Sleep { millis: 5_000 })
    );
    let (mut task, _reader) = querying(u64::MAX - 30_000);
    assert_eq!(
        task.step(finished(QueryReport::Failed, u64::MAX)),
        Some(DiscoveryAction::Finish(DiscoveryOutcome::TimedOut))
    );
}
