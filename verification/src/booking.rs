//! Booking an appointment, and the guard against double booking.
//!
//! A doctor holds at most one appointment that is not cancelled at any one
//! time. The guard reads the doctor's appointments before every write and
//! refuses the write where one of them stands at the requested time. It
//! reads and then writes: two bookings that run at once can both pass it.

use vstd::prelude::*;
use vstd::string::*;
use crate::db_structs::DoctorAppointments;
use crate::error::Failure;
use crate::statement::{statement, ParamView, Statement, StatementView, Timestamp};

verus! {

/// The format of a requested time: year, month, day, hour, minute and
/// second, as in `2023-05-01 10:30:00`.
pub const TIMESTAMP_FORMAT: &'static str = "%Y-%m-%d %H:%M:%S";

/// The status of an appointment that no longer blocks its time.
pub const CANCELLED: &'static str = "cancelled";

/// Lists the appointments of the doctor `$1`, whatever their status, with
/// their times written in the format of a requested time.
pub const DOCTOR_APPOINTMENTS_QUERY: &'static str =
    "select id, patient_id, appointment_type as apptype, TO_CHAR(date_time, 'YYYY-MM-DD HH24:MI:SS') as datetime, type as phyorvirt, status, prescription from appointments where doctor_id = $1 order by date_time";

/// Stores an appointment: doctor, patient, appointment type, time,
/// modality, status and prescription.
pub const APPOINTMENT_STATEMENT: &'static str =
    "insert into appointments (doctor_id, patient_id, appointment_type, date_time, type, status, prescription) values ($1, $2, $3, $4, $5, $6, $7)";

/// The error type of `chrono`'s parsers.
#[verifier::external_type_specification]
#[verifier::external_body]
pub struct ExParseError(chrono::ParseError);

/// The date and time that `chrono::NaiveDateTime::parse_from_str` reads
/// from `text` under `format`, or `None` where it reads none.
pub uninterp spec fn parsed_datetime(text: Seq<char>, format: Seq<char>) -> Option<Timestamp>;

/// Calls `chrono::NaiveDateTime::parse_from_str` and hands out the fields
/// of what it read. The result is a function of the text and the format,
/// named [`parsed_datetime`].
#[verifier::external_body]
fn parse_datetime(text: &str, format: &str) -> (r: Result<Timestamp, chrono::ParseError>)
    ensures
        match r {
            Ok(at) => parsed_datetime(text@, format@) == Some(at),
            Err(_) => parsed_datetime(text@, format@) is None,
        },
{
    let at = chrono::NaiveDateTime::parse_from_str(text, format)?;
    Ok(Timestamp {
        year: chrono::Datelike::year(&at),
        month: chrono::Datelike::month(&at),
        day: chrono::Datelike::day(&at),
        hour: chrono::Timelike::hour(&at),
        minute: chrono::Timelike::minute(&at),
        second: chrono::Timelike::second(&at),
        nanosecond: chrono::Timelike::nanosecond(&at),
    })
}

/// The time that a request asks for, where its text is in
/// [`TIMESTAMP_FORMAT`].
pub open spec fn requested_time(datetime: Seq<char>) -> Option<Timestamp> {
    parsed_datetime(datetime, TIMESTAMP_FORMAT@)
}

/// An existing appointment blocks a requested time: its time is written
/// exactly as the requested one, and its status is not [`CANCELLED`].
pub open spec fn blocks(existing: DoctorAppointments, datetime: Seq<char>) -> bool {
    existing.datetime@ == datetime && existing.status@ != CANCELLED@
}

/// One of the listed appointments blocks the requested time.
pub open spec fn has_conflict(listing: Seq<DoctorAppointments>, datetime: Seq<char>) -> bool {
    exists|i: int| 0 <= i < listing.len() && blocks(#[trigger] listing[i], datetime)
}

/// No two appointments of the listing that are not cancelled stand at the
/// same time.
pub open spec fn times_unique(listing: Seq<DoctorAppointments>) -> bool {
    forall|i: int, j: int|
        0 <= i < j < listing.len() && (#[trigger] listing[i]).status@ != CANCELLED@ && (
        #[trigger] listing[j]).status@ != CANCELLED@ ==> listing[i].datetime@
            != listing[j].datetime@
}

/// Tells whether one of a doctor's appointments blocks the requested time.
pub fn conflicts(listing: &Vec<DoctorAppointments>, datetime: &str) -> (r: bool)
    ensures
        r == has_conflict(listing@, datetime@),
{
    let wanted = datetime.to_owned();
    let cancelled = CANCELLED.to_owned();
    let mut i: usize = 0;
    while i < listing.len()
        invariant
            i <= listing.len(),
            wanted@ == datetime@,
            cancelled@ == CANCELLED@,
            forall|j: int| 0 <= j < i ==> !blocks(#[trigger] listing@[j], datetime@),
        decreases listing.len() - i,
    {
        let entry = &listing[i];
        if entry.datetime == wanted && !(entry.status == cancelled) {
            return true;
        }
        i = i + 1;
    }
    false
}

/// Where a booking stands.
#[derive(Clone, Copy, Debug, PartialEq, Eq, Structural)]
pub enum BookingState {
    /// Nothing has been asked yet.
    Start,
    /// The requested time was read as `at`; the doctor's appointments have
    /// been asked for.
    AwaitListing { at: Timestamp },
    /// No appointment blocks the time; the write has been asked for.
    AwaitInsert,
    /// The booking has ended.
    Finished,
}

/// What the store answered.
#[derive(Clone, Debug, PartialEq, Eq)]
pub enum BookingEvent {
    /// Nothing: the booking begins.
    Begin,
    /// The doctor's appointments; none where the listing failed.
    Listing(Vec<DoctorAppointments>),
    /// Whether the store accepted the write.
    Stored(bool),
}

/// What to do next.
#[derive(Debug, PartialEq, Eq)]
pub enum BookingAction {
    /// Run the statement and come back with [`BookingEvent::Listing`].
    ListAppointments(Statement),
    /// Run the statement and come back with [`BookingEvent::Stored`].
    Insert(Statement),
    /// The booking has ended.
    Return(Result<(), Failure>),
}

/// The store's answer, with a listing as a sequence.
pub enum BookingEventView {
    Begin,
    Listing(Seq<DoctorAppointments>),
    Stored(bool),
}

impl View for BookingEvent {
    type V = BookingEventView;

    open spec fn view(&self) -> BookingEventView {
        match self {
            BookingEvent::Begin => BookingEventView::Begin,
            BookingEvent::Listing(rows) => BookingEventView::Listing(rows@),
            BookingEvent::Stored(accepted) => BookingEventView::Stored(*accepted),
        }
    }
}

/// The next thing to do, with statements as sequences.
pub enum BookingActionView {
    ListAppointments(StatementView),
    Insert(StatementView),
    Return(Result<(), Failure>),
}

impl View for BookingAction {
    type V = BookingActionView;

    open spec fn view(&self) -> BookingActionView {
        match self {
            BookingAction::ListAppointments(s) => BookingActionView::ListAppointments(s@),
            BookingAction::Insert(s) => BookingActionView::Insert(s@),
            BookingAction::Return(r) => BookingActionView::Return(*r),
        }
    }
}

/// What a booking asks for, with texts as their characters.
pub struct RequestView {
    pub doctor_id: i64,
    pub patient_id: i64,
    pub apptype: i64,
    pub datetime: Seq<char>,
    pub phyorvirt: Seq<char>,
    pub status: Seq<char>,
    pub prescription: Seq<char>,
}

/// The end of a booking.
pub open spec fn ended(with: Result<(), Failure>) -> (BookingState, BookingActionView) {
    (BookingState::Finished, BookingActionView::Return(with))
}

/// The statement that lists a doctor's appointments.
pub open spec fn listing_query(doctor_id: i64) -> StatementView {
    statement(DOCTOR_APPOINTMENTS_QUERY, seq![ParamView::Int(doctor_id)])
}

/// The statement that stores the requested appointment at the time `at`.
pub open spec fn insert_statement(request: RequestView, at: Timestamp) -> StatementView {
    statement(
        APPOINTMENT_STATEMENT,
        seq![
            ParamView::Int(request.doctor_id),
            ParamView::Int(request.patient_id),
            ParamView::Int(request.apptype),
            ParamView::Time(at),
            ParamView::Text(request.phyorvirt),
            ParamView::Text(request.status),
            ParamView::Text(request.prescription),
        ],
    )
}

/// The first step, given what the requested time was read as: without a
/// time the booking ends as [`Failure::Validation`] and nothing is asked of
/// the store; else the doctor's appointments are asked for.
pub open spec fn begin_step(doctor_id: i64, at: Option<Timestamp>) -> (
    BookingState,
    BookingActionView,
) {
    match at {
        Some(at) => (
            BookingState::AwaitListing { at },
            BookingActionView::ListAppointments(listing_query(doctor_id)),
        ),
        None => ended(Err(Failure::Validation)),
    }
}

/// The guard: where a listed appointment blocks the requested time the
/// booking ends as [`Failure::Conflict`] and nothing is written; else the
/// write is asked for.
pub open spec fn guard_step(request: RequestView, at: Timestamp, listing: Seq<DoctorAppointments>) -> (
    BookingState,
    BookingActionView,
) {
    if has_conflict(listing, request.datetime) {
        ended(Err(Failure::Conflict))
    } else {
        (BookingState::AwaitInsert, BookingActionView::Insert(insert_statement(request, at)))
    }
}

/// One step of a booking. A write that the store rejects ends it as
/// [`Failure::Persistence`], and so does an answer that the state did not
/// ask for.
pub open spec fn booking_step(request: RequestView, state: BookingState, event: BookingEventView) -> (
    BookingState,
    BookingActionView,
) {
    match (state, event) {
        (BookingState::Start, BookingEventView::Begin) => begin_step(
            request.doctor_id,
            requested_time(request.datetime),
        ),
        (BookingState::AwaitListing { at }, BookingEventView::Listing(listing)) => guard_step(
            request,
            at,
            listing,
        ),
        (BookingState::AwaitInsert, BookingEventView::Stored(accepted)) => ended(
            if accepted {
                Ok(())
            } else {
                Err(Failure::Persistence)
            },
        ),
        _ => ended(Err(Failure::Persistence)),
    }
}

/// Decides the first step of a booking from what the requested time was
/// read as.
pub fn begin(docid: i64, at: Option<Timestamp>) -> (r: (BookingState, BookingAction))
    ensures
        (r.0, r.1@) == begin_step(docid, at),
{
    match at {
        Some(at) => {
            let query = Statement::new(DOCTOR_APPOINTMENTS_QUERY).with_int(docid);
            (BookingState::AwaitListing { at }, BookingAction::ListAppointments(query))
        },
        None => (BookingState::Finished, BookingAction::Return(Err(Failure::Validation))),
    }
}

/// One step of booking an appointment: takes the state and the store's
/// answer and gives the next state and what to do next. The request is
/// the same at every step.
pub fn add_new_appointment(
    docid: i64,
    patid: i64,
    apptype: i64,
    datetime: &str,
    phyorvirt: &str,
    status: &str,
    prescription: &str,
    state: BookingState,
    event: BookingEvent,
) -> (r: (BookingState, BookingAction))
    ensures
        (r.0, r.1@) == booking_step(
            RequestView {
                doctor_id: docid,
                patient_id: patid,
                apptype,
                datetime: datetime@,
                phyorvirt: phyorvirt@,
                status: status@,
                prescription: prescription@,
            },
            state,
            event@,
        ),
{
    let ghost request = RequestView {
        doctor_id: docid,
        patient_id: patid,
        apptype,
        datetime: datetime@,
        phyorvirt: phyorvirt@,
        status: status@,
        prescription: prescription@,
    };
    match (state, event) {
        (BookingState::Start, BookingEvent::Begin) => {
            let at = match parse_datetime(datetime, TIMESTAMP_FORMAT) {
                Ok(at) => Some(at),
                Err(_) => None,
            };
            begin(docid, at)
        },
        (BookingState::AwaitListing { at }, BookingEvent::Listing(listing)) => {
            if conflicts(&listing, datetime) {
                (BookingState::Finished, BookingAction::Return(Err(Failure::Conflict)))
            } else {
                let insert = Statement::new(APPOINTMENT_STATEMENT).with_int(docid).with_int(
                    patid,
                ).with_int(apptype).with_time(at).with_text(phyorvirt).with_text(status).with_text(
                    prescription,
                );
                assert(insert@.params =~= insert_statement(request, at).params);
                (BookingState::AwaitInsert, BookingAction::Insert(insert))
            }
        },
        (BookingState::AwaitInsert, BookingEvent::Stored(accepted)) => {
            if accepted {
                (BookingState::Finished, BookingAction::Return(Ok(())))
            } else {
                (BookingState::Finished, BookingAction::Return(Err(Failure::Persistence)))
            }
        },
        _ => (BookingState::Finished, BookingAction::Return(Err(Failure::Persistence))),
    }
}

/// The guard refuses a time that a live appointment holds: where the
/// doctor has an appointment at the requested time that is not cancelled,
/// the booking ends as a conflict and no write is asked for.
pub proof fn lemma_live_appointment_blocks(
    request: RequestView,
    at: Timestamp,
    listing: Seq<DoctorAppointments>,
    i: int,
)
    requires
        0 <= i < listing.len(),
        listing[i].datetime@ == request.datetime,
        listing[i].status@ != CANCELLED@,
    ensures
        booking_step(request, BookingState::AwaitListing { at }, BookingEventView::Listing(listing))
            == ended(Err(Failure::Conflict)),
{
}

/// The guard lets a time pass that only cancelled appointments hold: where
/// every appointment of the doctor at the requested time is cancelled, the
/// write is asked for, and the booking succeeds if the store accepts it.
pub proof fn lemma_cancelled_appointments_pass(
    request: RequestView,
    at: Timestamp,
    listing: Seq<DoctorAppointments>,
)
    requires
        forall|i: int|
            0 <= i < listing.len() && (#[trigger] listing[i]).datetime@ == request.datetime
                ==> listing[i].status@ == CANCELLED@,
    ensures
        booking_step(request, BookingState::AwaitListing { at }, BookingEventView::Listing(listing))
            == (BookingState::AwaitInsert, BookingActionView::Insert(insert_statement(request, at))),
        booking_step(request, BookingState::AwaitInsert, BookingEventView::Stored(true)) == ended(
            Ok(()),
        ),
{
}

/// A request whose time is not in the fixed format is refused at the first
/// step, before anything is asked of the store.
pub proof fn lemma_unreadable_time_is_refused(request: RequestView)
    requires
        requested_time(request.datetime) is None,
    ensures
        booking_step(request, BookingState::Start, BookingEventView::Begin) == ended(
            Err(Failure::Validation),
        ),
{
}

/// The guard keeps a doctor's times unique. Where no two live appointments
/// of a doctor stand at the same time and the guard finds no conflict for
/// a requested time, the doctor's appointments with one more at that time
/// still have no two live ones at the same time.
pub proof fn lemma_guard_keeps_times_unique(
    listing: Seq<DoctorAppointments>,
    added: DoctorAppointments,
)
    requires
        times_unique(listing),
        !has_conflict(listing, added.datetime@),
    ensures
        times_unique(listing.push(added)),
{
    let after = listing.push(added);
    assert forall|i: int, j: int|
        0 <= i < j < after.len() && (#[trigger] after[i]).status@ != CANCELLED@ && (
        #[trigger] after[j]).status@ != CANCELLED@ implies after[i].datetime@
        != after[j].datetime@ by {
        if j == listing.len() {
            assert(!blocks(listing[i], added.datetime@));
        }
    }
}

} // verus!
