//! The service's operations on one value: what it is configured with, the
//! statements it sends to the store, and the operations on accounts,
//! tokens and appointments.

use vstd::prelude::*;
use vstd::string::*;
use crate::booking::{booking_step, BookingAction, BookingEvent, BookingState, RequestView};
use crate::booking::{listing_query, DOCTOR_APPOINTMENTS_QUERY};
use crate::credentials::{login_step, password_matches, register_step};
use crate::credentials::{LoginAction, LoginEvent, LoginState};
use crate::credentials::{RegisterAction, RegisterEvent, RegisterState};
use crate::db_structs::JWT;
use crate::error::Failure;
use crate::statement::{statement, ParamView, Statement};
use crate::token::verified_principal;

verus! {

/// Lists the prescriptions of the patient `$1`, from past and from current
/// appointments.
pub const PRESCRIPTIONS_QUERY: &'static str =
    "(select d.name as docname, TO_CHAR(a.date_time, 'YYYY-MM-DD HH24:MI:SS') as timestamp, a.prescription as prescription from patients_previous_appointments a join doctors d on d.id = a.doctor_id where a.patient_id = $1 order by timestamp desc) UNION (select d.name as docname, TO_CHAR(a.date_time, 'YYYY-MM-DD HH24:MI:SS') as timestamp, a.prescription as prescription from appointments a join doctors d on d.id = a.doctor_id where a.patient_id = $1 order by timestamp desc);";

/// Lists the appointments of the patient `$1`, past and current.
pub const PREV_APPOINTMENTS_QUERY: &'static str =
    "(select d.name as docname, TO_CHAR(a.date_time, 'YYYY-MM-DD HH24:MI:SS') as timestamp, a.type as apptype, a.status as appstatus, a.prescription as prescription, p.name as appname from patients_previous_appointments a join doctors d on d.id = a.doctor_id join specialities p on p.id = a.appointment_type where a.patient_id = $1 order by timestamp desc) UNION (select d.name as docname, TO_CHAR(a.date_time, 'YYYY-MM-DD HH24:MI:SS') as timestamp, a.type as apptype, a.status as appstatus, a.prescription as prescription, p.name as appname from appointments a join doctors d on d.id = a.doctor_id join specialities p on p.id = a.appointment_type where a.patient_id = $1 order by timestamp desc);";

/// Lists the doctors of the city `$1`.
pub const SAME_CITY_DOCTORS_QUERY: &'static str =
    "select d.id as docid, d.name as docname, s.name as specname, d.address as address from doctors d join specialities s on s.id = d.speciality_id where d.city = $1;";

/// Finds the contact details of the patient `$1`.
pub const PATIENT_INFO_QUERY: &'static str =
    "select name, email, phone from patients where id = $1;";

/// Lists what every doctor charges for every type of appointment.
pub const DOCTOR_PRICES_QUERY: &'static str =
    "select d.id as docid, d.name as docname, d.city as city, d.address as address, t.name as apptype, t.id as appid, p.price from doctors d join appointment_types t on d.speciality_id = t.speciality_id join appointment_prices p on d.id = p.doctor_id and t.id = p.appointment_type where 1=1;";

/// Lists what doctors charge for the appointment type `$1`.
pub const DOCTOR_PRICES_BY_TYPE_QUERY: &'static str =
    "select d.id as docid, d.name as docname, d.city as city, d.address as address, t.name as apptype, t.id as appid, p.price from doctors d join appointment_types t on d.speciality_id = t.speciality_id join appointment_prices p on d.id = p.doctor_id and t.id = p.appointment_type where 1=1 and t.name = $1;";

/// Lists what the doctors of the city `$1` charge.
pub const DOCTOR_PRICES_BY_CITY_QUERY: &'static str =
    "select d.id as docid, d.name as docname, d.city as city, d.address as address, t.name as apptype, t.id as appid, p.price from doctors d join appointment_types t on d.speciality_id = t.speciality_id join appointment_prices p on d.id = p.doctor_id and t.id = p.appointment_type where 1=1 and d.city = $1;";

/// Lists what the doctors of the city `$2` charge for the appointment type
/// `$1`.
pub const DOCTOR_PRICES_BY_TYPE_AND_CITY_QUERY: &'static str =
    "select d.id as docid, d.name as docname, d.city as city, d.address as address, t.name as apptype, t.id as appid, p.price from doctors d join appointment_types t on d.speciality_id = t.speciality_id join appointment_prices p on d.id = p.doctor_id and t.id = p.appointment_type where 1=1 and t.name = $1 and d.city = $2;";

/// Lists the specialities.
pub const SPECIALITIES_QUERY: &'static str =
    "select id, name, description as desc from specialities;";

/// Lists the types of appointment.
pub const APPOINTMENT_TYPES_QUERY: &'static str = "select id, name from appointment_types;";

/// Stores a patient: name, email and phone.
pub const PATIENT_STATEMENT: &'static str =
    "insert into patients(name, email, phone) values ($1, $2, $3);";

/// Stores a doctor: name, speciality, city, address, email and phone.
pub const DOCTOR_STATEMENT: &'static str =
    "insert into doctors(name, speciality_id, city, address, email, phone) values ($1, $2, $3, $4, $5, $6);";

/// The service: the secret under which session tokens are signed. It is
/// set once, at start, and only read afterwards.
pub struct Database {
    jwt_secret: Vec<u8>,
}

/// What the service starts from: the store to connect to and the signing
/// secret. The service cannot start without either: `None` unless both are
/// given. The secret's bytes are those of its text in UTF-8.
pub fn init(database_url: Option<String>, secret: Option<String>) -> (r: Option<(String, Database)>)
    ensures
        match (database_url, secret) {
            (Some(url), Some(secret)) => r matches Some(pair) && pair.0@ == url@
                && pair.1.secret() == vstd::utf8::encode_utf8(secret@),
            _ => r is None,
        },
{
    match (database_url, secret) {
        (Some(url), Some(secret)) => {
            let jwt_secret = secret.as_str().as_bytes_vec();
            Some((url, Database { jwt_secret }))
        },
        _ => None,
    }
}

/// The statement that lists what doctors charge, narrowed by the
/// appointment type and by the city as far as each is given: an empty text
/// does not narrow.
pub open spec fn doctor_prices_query(city: Seq<char>, apptype: Seq<char>) -> crate::statement::StatementView {
    if apptype.len() == 0 && city.len() == 0 {
        statement(DOCTOR_PRICES_QUERY, seq![])
    } else if city.len() == 0 {
        statement(DOCTOR_PRICES_BY_TYPE_QUERY, seq![ParamView::Text(apptype)])
    } else if apptype.len() == 0 {
        statement(DOCTOR_PRICES_BY_CITY_QUERY, seq![ParamView::Text(city)])
    } else {
        statement(
            DOCTOR_PRICES_BY_TYPE_AND_CITY_QUERY,
            seq![ParamView::Text(apptype), ParamView::Text(city)],
        )
    }
}

impl Database {
    /// The signing secret.
    pub closed spec fn secret(&self) -> Seq<u8> {
        self.jwt_secret@
    }

    /// The service with the signing secret `jwt_secret`.
    pub fn new(jwt_secret: Vec<u8>) -> (db: Database)
        ensures
            db.secret() == jwt_secret@,
    {
        Database { jwt_secret }
    }

    /// The rows that a listing gives: those that the store returned, and
    /// none where it failed.
    pub fn get_query_result<T>(&self, fetched: Option<Vec<T>>) -> (rows: Vec<T>)
        ensures
            match fetched {
                Some(found) => rows == found,
                None => rows@ == Seq::<T>::empty(),
            },
    {
        match fetched {
            Some(found) => found,
            None => Vec::new(),
        }
    }

    /// The statement that lists a patient's prescriptions.
    pub fn view_prescriptions(&self, patient_id: i64) -> (r: Statement)
        ensures
            r@ == statement(PRESCRIPTIONS_QUERY, seq![ParamView::Int(patient_id)]),
    {
        let r = Statement::new(PRESCRIPTIONS_QUERY).with_int(patient_id);
        r
    }

    /// The statement that lists a patient's appointments.
    pub fn view_prev_appointments(&self, patient_id: i64) -> (r: Statement)
        ensures
            r@ == statement(PREV_APPOINTMENTS_QUERY, seq![ParamView::Int(patient_id)]),
    {
        let r = Statement::new(PREV_APPOINTMENTS_QUERY).with_int(patient_id);
        r
    }

    /// The statement that lists the doctors of a city.
    pub fn view_same_city_doctors(&self, city: String) -> (r: Statement)
        ensures
            r@ == statement(SAME_CITY_DOCTORS_QUERY, seq![ParamView::Text(city@)]),
    {
        let r = Statement::new(SAME_CITY_DOCTORS_QUERY).with_text(city.as_str());
        r
    }

    /// The statement that finds a patient's contact details.
    pub fn view_patient_info(&self, patient_id: i64) -> (r: Statement)
        ensures
            r@ == statement(PATIENT_INFO_QUERY, seq![ParamView::Int(patient_id)]),
    {
        let r = Statement::new(PATIENT_INFO_QUERY).with_int(patient_id);
        r
    }

    /// The statement that lists what doctors charge, narrowed by city and
    /// by appointment type as far as each is given.
    pub fn view_doctor_prices(&self, city: &String, apptype: &String) -> (r: Statement)
        ensures
            r@ == doctor_prices_query(city@, apptype@),
    {
        let by_city = !city.as_str().is_empty();
        let by_type = !apptype.as_str().is_empty();
        let r = if by_type && by_city {
            Statement::new(DOCTOR_PRICES_BY_TYPE_AND_CITY_QUERY).with_text(
                apptype.as_str(),
            ).with_text(city.as_str())
        } else if by_type {
            Statement::new(DOCTOR_PRICES_BY_TYPE_QUERY).with_text(apptype.as_str())
        } else if by_city {
            Statement::new(DOCTOR_PRICES_BY_CITY_QUERY).with_text(city.as_str())
        } else {
            Statement::new(DOCTOR_PRICES_QUERY)
        };
        assert(r@.params =~= doctor_prices_query(city@, apptype@).params);
        r
    }

    /// The statement that lists the specialities.
    pub fn view_specialities(&self) -> (r: Statement)
        ensures
            r@ == statement(SPECIALITIES_QUERY, seq![]),
    {
        Statement::new(SPECIALITIES_QUERY)
    }

    /// The statement that lists the types of appointment.
    pub fn view_appointment_types(&self) -> (r: Statement)
        ensures
            r@ == statement(APPOINTMENT_TYPES_QUERY, seq![]),
    {
        Statement::new(APPOINTMENT_TYPES_QUERY)
    }

    /// The statement that lists a doctor's appointments, whatever their
    /// status.
    pub fn view_doctor_appointments(&self, doctor_id: i64) -> (r: Statement)
        ensures
            r@ == listing_query(doctor_id),
    {
        let r = Statement::new(DOCTOR_APPOINTMENTS_QUERY).with_int(doctor_id);
        r
    }

    /// One step of registering an account: see
    /// [`crate::credentials::register`].
    pub fn register(
        &self,
        email: &String,
        password: &String,
        isdoctor: bool,
        state: RegisterState,
        event: RegisterEvent,
    ) -> (r: (RegisterState, RegisterAction))
        ensures
            exists|hashed: Option<(Seq<char>, Seq<char>)>|
                {
                    &&& (r.0, r.1@) == #[trigger] register_step(
                        email@,
                        isdoctor,
                        hashed,
                        state,
                        event,
                    )
                    &&& hashed matches Some(pair) ==> password_matches(password@, pair.0, pair.1)
                        == Some(true)
                },
    {
        crate::credentials::register(email.as_str(), password.as_str(), isdoctor, state, event)
    }

    /// The statement that stores a patient.
    pub fn add_new_patient(&self, name: &String, email: &String, phone: &String) -> (r: Statement)
        ensures
            r@ == statement(
                PATIENT_STATEMENT,
                seq![ParamView::Text(name@), ParamView::Text(email@), ParamView::Text(phone@)],
            ),
    {
        let r = Statement::new(PATIENT_STATEMENT).with_text(name.as_str()).with_text(
            email.as_str(),
        ).with_text(phone.as_str());
        assert(r@.params =~= seq![
            ParamView::Text(name@),
            ParamView::Text(email@),
            ParamView::Text(phone@),
        ]);
        r
    }

    /// The statement that stores a doctor.
    pub fn add_new_doctor(
        &self,
        name: &String,
        speciality: i64,
        city: &String,
        address: &String,
        email: &String,
        phone: &String,
    ) -> (r: Statement)
        ensures
            r@ == statement(
                DOCTOR_STATEMENT,
                seq![
                    ParamView::Text(name@),
                    ParamView::Int(speciality),
                    ParamView::Text(city@),
                    ParamView::Text(address@),
                    ParamView::Text(email@),
                    ParamView::Text(phone@),
                ],
            ),
    {
        let r = Statement::new(DOCTOR_STATEMENT).with_text(name.as_str()).with_int(
            speciality,
        ).with_text(city.as_str()).with_text(address.as_str()).with_text(email.as_str()).with_text(
            phone.as_str(),
        );
        assert(r@.params =~= seq![
            ParamView::Text(name@),
            ParamView::Int(speciality),
            ParamView::Text(city@),
            ParamView::Text(address@),
            ParamView::Text(email@),
            ParamView::Text(phone@),
        ]);
        r
    }

    /// One step of booking an appointment: see
    /// [`crate::booking::add_new_appointment`].
    pub fn add_new_appointment(
        &self,
        docid: i64,
        patid: i64,
        apptype: i64,
        datetime: &String,
        phyorvirt: &String,
        status: &String,
        prescription: &String,
        state: BookingState,
        event: BookingEvent,
    ) -> (r: (BookingState, BookingAction))
        ensures
            (r.0, r.1@) == booking_step(
                RequestView {
                    doctor_id: docid,
                    patient_id: patid,
                    apptype,
                    datetime: datetime@,
                    phyorvirt: phyorvirt@,
                    status: status@,
                    prescription: prescription@,
                },
                state,
                event@,
            ),
    {
        crate::booking::add_new_appointment(
            docid,
            patid,
            apptype,
            datetime.as_str(),
            phyorvirt.as_str(),
            status.as_str(),
            prescription.as_str(),
            state,
            event,
        )
    }

    /// One step of a login: see [`crate::credentials::login`].
    pub fn login(&self, email: &String, password: &String, state: LoginState, event: LoginEvent) -> (r: (
        LoginState,
        LoginAction,
    ))
        ensures
            (r.0, r.1@) == login_step(self.secret(), email@, password@, state, event@),
    {
        crate::credentials::login(
            self.jwt_secret.as_slice(),
            email.as_str(),
            password.as_str(),
            state,
            event,
        )
    }

    /// Verifies a raw authorization value: the principal it stands for, or
    /// `None` where it is invalid in any way.
    pub fn verify_jwt(&self, jwt: &str) -> (r: Option<JWT>)
        ensures
            r == verified_principal(self.secret(), jwt@),
    {
        crate::token::verify(self.jwt_secret.as_slice(), jwt)
    }
}

} // verus!
