use clinic::booking::{
    add_new_appointment, begin, conflicts, BookingAction, BookingEvent, BookingState,
    APPOINTMENT_STATEMENT, CANCELLED, DOCTOR_APPOINTMENTS_QUERY, TIMESTAMP_FORMAT,
};
use clinic::db_structs::DoctorAppointments;
use clinic::error::Failure;
use clinic::statement::{Param, Statement, Timestamp};

const T: &str = "2023-05-01 10:30:00";

fn at(year: i32, month: u32, day: u32, hour: u32, minute: u32, second: u32) -> Timestamp {
    Timestamp { year, month, day, hour, minute, second, nanosecond: 0 }
}

fn existing(datetime: &str, status: &str) -> DoctorAppointments {
    DoctorAppointments {
        id: 1,
        patient_id: 2,
        apptype: 3,
        datetime: datetime.to_string(),
        phyorvirt: "physical".to_string(),
        status: status.to_string(),
        prescription: String::new(),
    }
}

fn step(datetime: &str, state: BookingState, event: BookingEvent) -> (BookingState, BookingAction) {
    add_new_appointment(7, 8, 9, datetime, "virtual", "booked", "none", state, event)
}

/// Books against a store that holds `listing` for the doctor and accepts
/// or rejects the write. Tells how it ended and whether a write was asked
/// for.
fn run_booking(datetime: &str, listing: Vec<DoctorAppointments>, accept: bool) -> (Result<(), Failure>, bool, bool) {
    let mut state = BookingState::Start;
    let mut event = BookingEvent::Begin;
    let mut listed = false;
    let mut written = false;
    for _ in 0..4 {
        let (next, action) = step(datetime, state, event);
        state = next;
        event = match action {
            BookingAction::ListAppointments(statement) => {
                assert_eq!(statement.text, DOCTOR_APPOINTMENTS_QUERY);
                assert_eq!(statement.params, vec![Param::Int(7)]);
                listed = true;
                BookingEvent::Listing(listing.clone())
            }
            BookingAction::Insert(statement) => {
                assert_eq!(statement.text, APPOINTMENT_STATEMENT);
                written = true;
                BookingEvent::Stored(accept)
            }
            BookingAction::Return(outcome) => {
                assert_eq!(state, BookingState::Finished);
                return (outcome, listed, written);
            }
        };
    }
    panic!("the booking did not end");
}

#[test]
fn the_format_and_the_status_are_fixed() {
    assert_eq!(TIMESTAMP_FORMAT, "%Y-%m-%d %H:%M:%S");
    assert_eq!(CANCELLED, "cancelled");
}

#[test]
fn conflicts_finds_a_live_appointment_at_the_time() {
    assert!(conflicts(&vec![existing(T, "booked")], T));
    assert!(conflicts(&vec![existing(T, "")], T));
    assert!(conflicts(&vec![existing("2023-05-01 09:00:00", "booked"), existing(T, "done")], T));
    assert!(conflicts(&vec![existing(T, "cancelled"), existing(T, "booked")], T));
}

#[test]
fn conflicts_passes_cancelled_appointments() {
    assert!(!conflicts(&vec![existing(T, "cancelled")], T));
    assert!(!conflicts(&vec![existing(T, "cancelled"), existing(T, "cancelled")], T));
}

#[test]
fn conflicts_passes_other_times() {
    assert!(!conflicts(&vec![], T));
    assert!(!conflicts(&vec![existing("2023-05-01 10:30:01", "booked")], T));
    assert!(!conflicts(&vec![existing("2023-05-02 10:30:00", "booked")], T));
}

#[test]
fn conflicts_compares_the_texts_exactly() {
    assert!(!conflicts(&vec![existing("2023-05-01 10:30:00 ", "booked")], T));
    assert!(!conflicts(&vec![existing("2023-5-1 10:30:00", "booked")], T));
    assert!(!conflicts(&vec![existing("2023-05-01T10:30:00", "booked")], T));
    assert!(conflicts(&vec![existing(T, "Cancelled")], T));
    assert!(conflicts(&vec![existing(T, "cancelled ")], T));
    assert!(conflicts(&vec![existing(T, "canceled")], T));
}

#[test]
fn begin_asks_for_the_listing_or_refuses() {
    assert_eq!(
        begin(7, Some(at(2023, 5, 1, 10, 30, 0))),
        (
            BookingState::AwaitListing { at: at(2023, 5, 1, 10, 30, 0) },
            BookingAction::ListAppointments(Statement {
                text: DOCTOR_APPOINTMENTS_QUERY,
                params: vec![Param::Int(7)],
            })
        )
    );
    assert_eq!(
        begin(7, None),
        (BookingState::Finished, BookingAction::Return(Err(Failure::Validation)))
    );
}

#[test]
fn booking_reads_the_requested_time() {
    let (state, action) = step(T, BookingState::Start, BookingEvent::Begin);
    assert_eq!(state, BookingState::AwaitListing { at: at(2023, 5, 1, 10, 30, 0) });
    assert_eq!(
        action,
        BookingAction::ListAppointments(Statement {
            text: DOCTOR_APPOINTMENTS_QUERY,
            params: vec![Param::Int(7)],
        })
    );
    let (state, _) = step("1999-12-31 23:59:59", BookingState::Start, BookingEvent::Begin);
    assert_eq!(state, BookingState::AwaitListing { at: at(1999, 12, 31, 23, 59, 59) });
    let (state, _) = step("2024-02-29 00:00:00", BookingState::Start, BookingEvent::Begin);
    assert_eq!(state, BookingState::AwaitListing { at: at(2024, 2, 29, 0, 0, 0) });
}

#[test]
fn booking_reads_a_leap_second() {
    let (state, _) = step("2016-12-31 23:59:60", BookingState::Start, BookingEvent::Begin);
    assert_eq!(
        state,
        BookingState::AwaitListing {
            at: Timestamp {
                year: 2016,
                month: 12,
                day: 31,
                hour: 23,
                minute: 59,
                second: 59,
                nanosecond: 1_000_000_000,
            }
        }
    );
}

#[test]
fn booking_with_an_unreadable_time_fails_before_any_store_access() {
    for datetime in [
        "not-a-date",
        "",
        "2023-05-01",
        "10:30:00",
        "2023-05-01 10:30",
        "2023-13-01 10:30:00",
        "2023-02-30 10:30:00",
        "2023-05-01 24:00:00",
        "2023-05-01 10:60:00",
        "2023-05-01T10:30:00",
        "2023-05-01 10:30:00 tail",
        "01/05/2023 10:30:00",
    ] {
        assert_eq!(
            step(datetime, BookingState::Start, BookingEvent::Begin),
            (BookingState::Finished, BookingAction::Return(Err(Failure::Validation))),
            "on {:?}",
            datetime
        );
        assert_eq!(
            run_booking(datetime, vec![], true),
            (Err(Failure::Validation), false, false),
            "on {:?}",
            datetime
        );
    }
}

#[test]
fn booking_a_taken_time_fails_as_a_conflict() {
    assert_eq!(
        run_booking(T, vec![existing(T, "booked")], true),
        (Err(Failure::Conflict), true, false)
    );
}

#[test]
fn booking_a_cancelled_time_succeeds() {
    assert_eq!(run_booking(T, vec![existing(T, "cancelled")], true), (Ok(()), true, true));
}

#[test]
fn booking_a_free_time_succeeds() {
    assert_eq!(run_booking(T, vec![], true), (Ok(()), true, true));
    assert_eq!(
        run_booking(T, vec![existing("2023-05-01 11:30:00", "booked")], true),
        (Ok(()), true, true)
    );
}

#[test]
fn booking_fails_as_persistence_where_the_store_rejects_the_write() {
    assert_eq!(run_booking(T, vec![], false), (Err(Failure::Persistence), true, true));
}

#[test]
fn booking_writes_what_was_requested() {
    let (state, action) = step(
        T,
        BookingState::AwaitListing { at: at(2023, 5, 1, 10, 30, 0) },
        BookingEvent::Listing(vec![existing(T, "cancelled")]),
    );
    assert_eq!(state, BookingState::AwaitInsert);
    assert_eq!(
        action,
        BookingAction::Insert(Statement {
            text: APPOINTMENT_STATEMENT,
            params: vec![
                Param::Int(7),
                Param::Int(8),
                Param::Int(9),
                Param::Time(at(2023, 5, 1, 10, 30, 0)),
                Param::Text("virtual".to_string()),
                Param::Text("booked".to_string()),
                Param::Text("none".to_string()),
            ],
        })
    );
}

#[test]
fn booking_keeps_hostile_input_out_of_the_text() {
    let (_, action) = add_new_appointment(
        1,
        2,
        3,
        T,
        "x'); drop table appointments; --",
        "'",
        "\"",
        BookingState::AwaitListing { at: at(2023, 5, 1, 10, 30, 0) },
        BookingEvent::Listing(vec![]),
    );
    match action {
        BookingAction::Insert(statement) => {
            assert_eq!(statement.text, APPOINTMENT_STATEMENT);
            assert_eq!(statement.params[4], Param::Text("x'); drop table appointments; --".to_string()));
        }
        other => panic!("no write: {:?}", other),
    }
}

#[test]
fn booking_ends_with_the_answer_to_the_write() {
    assert_eq!(
        step(T, BookingState::AwaitInsert, BookingEvent::Stored(true)),
        (BookingState::Finished, BookingAction::Return(Ok(())))
    );
    assert_eq!(
        step(T, BookingState::AwaitInsert, BookingEvent::Stored(false)),
        (BookingState::Finished, BookingAction::Return(Err(Failure::Persistence)))
    );
}

#[test]
fn booking_refuses_an_answer_out_of_turn() {
    let refusal = (BookingState::Finished, BookingAction::Return(Err(Failure::Persistence)));
    assert_eq!(step(T, BookingState::Start, BookingEvent::Stored(true)), refusal);
    assert_eq!(step(T, BookingState::Start, BookingEvent::Listing(vec![])), refusal);
    assert_eq!(step(T, BookingState::AwaitInsert, BookingEvent::Begin), refusal);
    assert_eq!(step(T, BookingState::AwaitInsert, BookingEvent::Listing(vec![])), refusal);
    assert_eq!(
        step(T, BookingState::AwaitListing { at: at(2023, 5, 1, 10, 30, 0) }, BookingEvent::Stored(true)),
        refusal
    );
    assert_eq!(step(T, BookingState::Finished, BookingEvent::Begin), refusal);
    assert_eq!(step(T, BookingState::Finished, BookingEvent::Stored(true)), refusal);
}
