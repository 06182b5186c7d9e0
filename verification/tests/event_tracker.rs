use gitjobs_server::event_tracker::{
    aggregator_step, current_day, flush_sent, plan_flush, AggregatorAction, AggregatorInput,
    Batches, Event, DATE_FORMAT,
};
use gitjobs_server::tally::{prepare_batch_data, Tally};

const JOB1_ID: u128 = 1;
const JOB2_ID: u128 = 2;

fn today() -> String {
    current_day().expect("day to be formatted")
}

fn track(batches: &mut Batches, event: Event, day: &str) {
    assert!(batches.can_record(&event, &day.to_string()));
    let action = aggregator_step(
        batches,
        AggregatorInput::Track {
            event,
            day: day.to_string(),
        },
    );
    assert!(matches!(action, AggregatorAction::Wait));
}

fn stop(batches: &mut Batches) -> Option<Batches> {
    match aggregator_step(batches, AggregatorInput::Cancelled) {
        AggregatorAction::FlushAndStop(b) => Some(b),
        AggregatorAction::Stop => None,
        other => panic!("unexpected action {other:?}"),
    }
}

fn rows(day: &str, items: &[(u128, u32)]) -> Vec<(u128, String, u32)> {
    items.iter().map(|(id, n)| (*id, day.to_string(), *n)).collect()
}

#[test]
fn flush_job_views_on_stop() {
    let day = today();
    let mut batches = Batches::new();
    track(&mut batches, Event::JobView { job_id: JOB1_ID }, &day);
    track(&mut batches, Event::JobView { job_id: JOB1_ID }, &day);
    track(&mut batches, Event::JobView { job_id: JOB2_ID }, &day);

    let flushed = stop(&mut batches).expect("pending events to be flushed");
    let plan = plan_flush(&flushed);
    assert_eq!(plan.job_views, Some(rows(&day, &[(JOB1_ID, 2), (JOB2_ID, 1)])));
    assert_eq!(plan.search_appearances, None);
}

#[test]
fn flush_job_views_periodically() {
    let day = today();
    let mut batches = Batches::new();
    track(&mut batches, Event::JobView { job_id: JOB1_ID }, &day);
    track(&mut batches, Event::JobView { job_id: JOB1_ID }, &day);
    track(&mut batches, Event::JobView { job_id: JOB2_ID }, &day);

    // Periodic flush.
    let flushed = match aggregator_step(&mut batches, AggregatorInput::Tick) {
        AggregatorAction::Flush(b) => b,
        other => panic!("unexpected action {other:?}"),
    };
    flush_sent(&mut batches, true);
    let plan = plan_flush(&flushed);
    assert_eq!(plan.job_views, Some(rows(&day, &[(JOB1_ID, 2), (JOB2_ID, 1)])));
    assert_eq!(plan.search_appearances, None);

    // Later ticks and the final stop have nothing else to write (one write only).
    assert!(matches!(aggregator_step(&mut batches, AggregatorInput::Tick), AggregatorAction::Wait));
    assert!(stop(&mut batches).is_none());
}

#[test]
fn no_events_tracked_nothing_to_flush() {
    let mut batches = Batches::new();
    assert!(matches!(aggregator_step(&mut batches, AggregatorInput::Tick), AggregatorAction::Wait));
    assert!(stop(&mut batches).is_none());
}

#[test]
fn flush_search_appearances() {
    let day = today();
    let mut batches = Batches::new();
    track(
        &mut batches,
        Event::SearchAppearances {
            job_ids: vec![JOB1_ID, JOB2_ID],
        },
        &day,
    );

    let flushed = stop(&mut batches).expect("pending events to be flushed");
    let plan = plan_flush(&flushed);
    assert_eq!(plan.job_views, None);
    assert_eq!(plan.search_appearances, Some(rows(&day, &[(JOB1_ID, 1), (JOB2_ID, 1)])));
}

#[test]
fn flush_mixed_events() {
    let day = today();
    let mut batches = Batches::new();
    track(&mut batches, Event::JobView { job_id: JOB1_ID }, &day);
    track(
        &mut batches,
        Event::SearchAppearances {
            job_ids: vec![JOB1_ID, JOB2_ID],
        },
        &day,
    );
    track(&mut batches, Event::JobView { job_id: JOB1_ID }, &day);

    let flushed = stop(&mut batches).expect("pending events to be flushed");
    let plan = plan_flush(&flushed);
    assert_eq!(plan.job_views, Some(rows(&day, &[(JOB1_ID, 2)])));
    assert_eq!(plan.search_appearances, Some(rows(&day, &[(JOB1_ID, 1), (JOB2_ID, 1)])));
}

#[test]
fn undelivered_batch_is_kept_for_next_tick() {
    let mut batches = Batches::new();
    track(&mut batches, Event::JobView { job_id: 7 }, "2024-06-01");
    match aggregator_step(&mut batches, AggregatorInput::Tick) {
        AggregatorAction::Flush(_) => {}
        other => panic!("unexpected action {other:?}"),
    }
    // The flusher queue was full: nothing is lost.
    flush_sent(&mut batches, false);
    assert!(!batches.is_empty());
    assert_eq!(batches.job_views.get(7, &"2024-06-01".to_string()), 1);
    match aggregator_step(&mut batches, AggregatorInput::Tick) {
        AggregatorAction::Flush(b) => {
            assert_eq!(plan_flush(&b).job_views, Some(rows("2024-06-01", &[(7, 1)])));
        }
        other => panic!("unexpected action {other:?}"),
    }
    flush_sent(&mut batches, true);
    assert!(batches.is_empty());
}

#[test]
fn rows_sorted_by_job_then_day() {
    let mut tally = Tally::new();
    tally.add(3, &"2024-06-02".to_string());
    tally.add(1, &"2024-06-02".to_string());
    tally.add(3, &"2024-06-01".to_string());
    tally.add(1, &"2024-06-02".to_string());
    tally.add(2, &"2024-05-31".to_string());
    let rows = prepare_batch_data(&tally);
    assert_eq!(
        rows,
        vec![
            (1, "2024-06-02".to_string(), 2),
            (2, "2024-05-31".to_string(), 1),
            (3, "2024-06-01".to_string(), 1),
            (3, "2024-06-02".to_string(), 1),
        ]
    );
    assert_eq!(tally.len(), 4);
}

#[test]
fn rows_order_days_as_text() {
    let mut tally = Tally::new();
    tally.add(5, &"2024-10-01".to_string());
    tally.add(5, &"2024-9-30".to_string());
    tally.add(5, &"2024-10".to_string());
    let rows = prepare_batch_data(&tally);
    let days: Vec<&str> = rows.iter().map(|r| r.1.as_str()).collect();
    let mut expected = vec!["2024-10-01", "2024-9-30", "2024-10"];
    expected.sort();
    assert_eq!(days, expected);
}

#[test]
fn repeated_jobs_in_search_results_count_twice() {
    let mut tally = Tally::new();
    tally.add_all(&vec![4, 4, 9, 4], &"2024-06-01".to_string());
    assert_eq!(tally.get(4, &"2024-06-01".to_string()), 3);
    assert_eq!(tally.get(9, &"2024-06-01".to_string()), 1);
    assert_eq!(tally.get(9, &"2024-06-02".to_string()), 0);
}

#[test]
fn split_and_reordered_events_give_same_counts() {
    let day = "2024-06-01".to_string();
    let mut once = Tally::new();
    once.add_all(&vec![1, 2, 1, 3], &day);
    let mut split = Tally::new();
    split.add_all(&vec![3, 1], &day);
    split.add_all(&vec![2, 1], &day);
    assert_eq!(prepare_batch_data(&once), prepare_batch_data(&split));
}

#[test]
fn counters_below_the_limit_take_more_events() {
    let day = "2024-06-01".to_string();
    let mut batches = Batches::new();
    for _ in 0..3 {
        batches.record(&Event::JobView { job_id: 1 }, &day);
    }
    assert!(batches.can_record(&Event::JobView { job_id: 1 }, &day));
    assert!(batches.can_record(&Event::SearchAppearances { job_ids: vec![1, 1] }, &day));
    let huge = vec![8u128; 3];
    assert!(batches.can_record(&Event::SearchAppearances { job_ids: huge }, &day));
}

#[test]
fn duplicate_keeps_counters() {
    let day = "2024-06-01".to_string();
    let mut batches = Batches::new();
    batches.record(&Event::JobView { job_id: 1 }, &day);
    batches.record(&Event::SearchAppearances { job_ids: vec![2] }, &day);
    let copy = batches.duplicate();
    assert_eq!(prepare_batch_data(&copy.job_views), prepare_batch_data(&batches.job_views));
    assert_eq!(
        prepare_batch_data(&copy.search_appearances),
        prepare_batch_data(&batches.search_appearances)
    );
    batches.clear();
    assert!(batches.is_empty());
    assert!(!copy.is_empty());
}

#[test]
fn current_day_has_date_shape() {
    assert_eq!(DATE_FORMAT, "[year]-[month]-[day]");
    let day = today();
    assert_eq!(day.len(), 10);
    let bytes = day.as_bytes();
    assert_eq!(bytes[4], b'-');
    assert_eq!(bytes[7], b'-');
    assert!(day.chars().enumerate().all(|(i, c)| i == 4 || i == 7 || c.is_ascii_digit()));
}

#[test]
fn whole_run_flushes_every_event_once() {
    let day = "2024-06-01";
    let mut batches = Batches::new();
    let mut written: Vec<(u128, String, u32)> = Vec::new();
    let mut write = |b: Batches, written: &mut Vec<(u128, String, u32)>| {
        assert!(!b.is_empty());
        let plan = plan_flush(&b);
        written.extend(plan.job_views.unwrap_or_default());
        written.extend(plan.search_appearances.unwrap_or_default());
    };

    track(&mut batches, Event::JobView { job_id: 1 }, day);
    track(&mut batches, Event::SearchAppearances { job_ids: vec![1, 2, 2] }, day);
    match aggregator_step(&mut batches, AggregatorInput::Tick) {
        AggregatorAction::Flush(b) => {
            write(b, &mut written);
            flush_sent(&mut batches, true);
        }
        other => panic!("unexpected action {other:?}"),
    }
    assert!(matches!(aggregator_step(&mut batches, AggregatorInput::Tick), AggregatorAction::Wait));
    track(&mut batches, Event::JobView { job_id: 1 }, day);
    track(&mut batches, Event::JobView { job_id: 2 }, day);
    if let Some(b) = stop(&mut batches) {
        write(b, &mut written);
    }

    // Job views: job 1 twice, job 2 once; search appearances: job 1 once, job 2 twice.
    let total = |id: u128| -> u32 { written.iter().filter(|r| r.0 == id).map(|r| r.2).sum() };
    assert_eq!(total(1), 2 + 1);
    assert_eq!(total(2), 1 + 2);
    assert_eq!(written.len(), 1 + 2 + 2);
}
