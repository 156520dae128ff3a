use std::cell::Cell;
use timeslots::adapter::SinkAction;
use timeslots::encoder::StreamingJsonEncoder;
use timeslots::generator::TimeSlotGenerator;
use timeslots::handler::render_fetched;
use timeslots::handler::render_records;
use timeslots::handler::route;
use timeslots::handler::times_handler;
use timeslots::handler::write_object;
use timeslots::handler::Handler;
use timeslots::handler::Route;
use timeslots::handler::StoreFailure;
use timeslots::record::OutputRecord;
use timeslots::record::TimeRecord;
use timeslots::store::SharedStore;

const OFFSET: i32 = 39_600;

fn at(epoch_seconds: i64) -> TimeRecord {
    TimeRecord::new(epoch_seconds, OFFSET).unwrap()
}

/// Plays the sink that takes every write, and returns the bytes it was given.
fn body_of(mut encoder: StreamingJsonEncoder) -> String {
    let mut body = Vec::new();
    while let Some(action) = encoder.next_action() {
        match action {
            SinkAction::Write { bytes, .. } => {
                let taken = bytes.len();
                body.extend(bytes);
                assert_eq!(encoder.settle(Ok(taken)), Ok(()));
            }
            SinkAction::Skip => panic!("a document has no empty fragment"),
        }
    }
    assert!(encoder.is_finished());
    String::from_utf8(body).unwrap()
}

#[test]
fn only_the_exact_path_names_the_endpoint() {
    assert_eq!(route("/times"), Route::Times);
    assert_eq!(route("/times/"), Route::Unmatched);
    assert_eq!(route("/time"), Route::Unmatched);
    assert_eq!(route("/Times"), Route::Unmatched);
    assert_eq!(route("times"), Route::Unmatched);
    assert_eq!(route("/times?all"), Route::Unmatched);
    assert_eq!(route("/timex"), Route::Unmatched);
    assert_eq!(route("/"), Route::Unmatched);
    assert_eq!(route(""), Route::Unmatched);
}

#[test]
fn records_are_rendered_in_the_order_given() {
    let rows = vec![at(1_451_593_080), at(1_451_592_360), at(1_451_592_720)];
    let times: Vec<String> = render_records(&rows).into_iter().map(|r| r.time).collect();
    assert_eq!(
        times,
        vec![
            "2016-01-01T07:18:00+11:00",
            "2016-01-01T07:06:00+11:00",
            "2016-01-01T07:12:00+11:00"
        ]
    );
    assert!(render_records(&Vec::new()).is_empty());
}

#[test]
fn fetched_rows_are_rendered_and_failures_handed_on() {
    assert_eq!(
        render_fetched(Ok(vec![at(1_451_592_360)])),
        Ok(vec![OutputRecord { time: String::from("2016-01-01T07:06:00+11:00") }])
    );
    assert_eq!(render_fetched(Err(StoreFailure::Prepare)), Err(StoreFailure::Prepare));
    assert_eq!(render_fetched(Err(StoreFailure::Row)), Err(StoreFailure::Row));
}

#[test]
fn object_is_written_to_a_fresh_response() {
    let mut encoder = write_object(vec![OutputRecord { time: String::from("X") }]);
    assert_eq!(
        encoder.next_action(),
        Some(SinkAction::Write { head_first: true, bytes: vec![b'['] })
    );
    assert_eq!(encoder.settle(Ok(1)), Ok(()));
    assert_eq!(body_of(encoder), "{\"time\":\"X\"}]\n");
}

#[test]
fn records_endpoint_returns_the_store_in_its_own_order() {
    let seeded = TimeSlotGenerator::new(at(1_451_592_000), at(1_451_593_440), 360)
        .unwrap()
        .collect();
    let handler = Handler::new(seeded);
    let reply = handler.handle(Some("/times"), |rows: &Vec<TimeRecord>| Ok(rows.clone()));
    let encoder = reply.unwrap().unwrap();
    assert_eq!(
        body_of(encoder),
        "[{\"time\":\"2016-01-01T07:06:00+11:00\"},{\"time\":\"2016-01-01T07:12:00+11:00\"},{\"time\":\"2016-01-01T07:18:00+11:00\"}]\n"
    );
}

#[test]
fn unmatched_path_is_not_answered_and_reads_nothing() {
    let handler = Handler::new(Cell::new(0));
    for path in [Some("/"), Some("/time"), Some("/times/all"), None] {
        let reply = handler.handle(path, |reads: &Cell<i32>| {
            reads.set(reads.get() + 1);
            Ok(Vec::new())
        });
        assert!(reply.is_none());
    }
    let reply = handler.handle(Some("/times"), |reads: &Cell<i32>| {
        assert_eq!(reads.get(), 0);
        Ok(Vec::new())
    });
    assert_eq!(body_of(reply.unwrap().unwrap()), "[]\n");
}

#[test]
fn store_failure_is_the_answer() {
    let handler = Handler::new(());
    let prepare = handler.handle(Some("/times"), |_: &()| Err(StoreFailure::Prepare));
    assert_eq!(prepare.unwrap().err(), Some(StoreFailure::Prepare));
    let row = handler.handle(Some("/times"), |_: &()| Err(StoreFailure::Row));
    assert_eq!(row.unwrap().err(), Some(StoreFailure::Row));
}

#[test]
fn failed_request_does_not_starve_the_next() {
    let store = SharedStore::new(vec![at(1_451_592_360)]);
    let failed = times_handler(&store, |_: &Vec<TimeRecord>| Err(StoreFailure::Row));
    assert_eq!(failed.err(), Some(StoreFailure::Row));
    let served = times_handler(&store, |rows: &Vec<TimeRecord>| Ok(rows.clone()));
    assert_eq!(body_of(served.unwrap()), "[{\"time\":\"2016-01-01T07:06:00+11:00\"}]\n");
}

#[test]
fn every_request_reads_the_whole_store_once() {
    let store = SharedStore::new(Cell::new(0));
    for round in 1..4 {
        let served = times_handler(&store, |reads: &Cell<i32>| {
            reads.set(reads.get() + 1);
            Ok(vec![at(1_451_592_360), at(1_451_592_720)])
        });
        assert!(served.is_ok());
        assert_eq!(store.with_connection(|reads| reads.get()), round);
    }
}
