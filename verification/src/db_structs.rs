//! The records that travel between the web layer, this library and the
//! store. They are plain data: requests as they arrive, rows as the store
//! returns them, and the claims of a session token.

use vstd::prelude::*;

verus! {

/// A login request.
#[derive(Clone, Debug, PartialEq, Eq)]
pub struct Login {
    pub email: String,
    pub password: String,
}

/// A request that names one patient or doctor.
#[derive(Clone, Copy, Debug, PartialEq, Eq, Structural)]
pub struct PatientID {
    pub patient_id: i64,
}

/// A request to enrol a patient.
#[derive(Clone, Debug, PartialEq, Eq)]
pub struct Patient {
    pub name: String,
    pub email: String,
    pub phone: String,
    pub password: String,
}

/// A request to enrol a doctor.
#[derive(Clone, Debug, PartialEq, Eq)]
pub struct Doctor {
    pub name: String,
    pub speciality: i64,
    pub city: String,
    pub address: String,
    pub email: String,
    pub phone: String,
    pub password: String,
}

/// A request for the doctors of a city.
#[derive(Clone, Debug, PartialEq, Eq)]
pub struct City {
    pub city: String,
}

/// A search for doctors by city and appointment type; an empty field does
/// not narrow the search.
#[derive(Clone, Debug, PartialEq, Eq)]
pub struct CityApptype {
    pub city: String,
    pub apptype: String,
}

/// A request to book an appointment.
#[derive(Clone, Debug, PartialEq, Eq)]
pub struct Appointment {
    pub doctor_id: i64,
    pub patient_id: i64,
    pub apptype: i64,
    pub datetime: String,
    pub phyorvirt: String,
    pub status: String,
    pub prescription: String,
}

/// A request to create an account.
#[derive(Clone, Debug, PartialEq, Eq)]
pub struct Registration {
    pub email: String,
    pub password: String,
    pub isdoctor: bool,
}

/// One prescription of a patient.
#[derive(Clone, Debug, PartialEq, Eq)]
pub struct Prescriptions {
    pub docname: String,
    pub timestamp: String,
    pub prescription: String,
}

/// One appointment in a patient's history.
#[derive(Clone, Debug, PartialEq, Eq)]
pub struct PrevAppointments {
    pub docname: String,
    pub timestamp: String,
    pub apptype: String,
    pub appstatus: String,
    pub prescription: String,
    pub appname: String,
}

/// A doctor as a city listing shows them.
#[derive(Clone, Debug, PartialEq, Eq)]
pub struct DoctorInfo {
    pub docid: i64,
    pub docname: String,
    pub specname: String,
    pub address: String,
}

/// A patient's contact details.
#[derive(Clone, Debug, PartialEq, Eq)]
pub struct PatientInfo {
    pub name: String,
    pub email: String,
    pub phone: String,
}

/// What a doctor charges for one type of appointment.
#[derive(Clone, Debug, PartialEq, Eq)]
pub struct DoctorPrices {
    pub docid: i64,
    pub docname: String,
    pub city: String,
    pub address: String,
    pub apptype: String,
    pub appid: i64,
    pub price: i32,
}

/// A type of appointment.
#[derive(Clone, Debug, PartialEq, Eq)]
pub struct Apptypes {
    pub id: i64,
    pub name: String,
}

/// A city in which doctors practise.
#[derive(Clone, Debug, PartialEq, Eq)]
pub struct Cities {
    pub city: String,
}

/// One appointment of a doctor, as the store lists it.
#[derive(Clone, Debug, PartialEq, Eq)]
pub struct DoctorAppointments {
    pub id: i64,
    pub patient_id: i64,
    pub apptype: i64,
    pub datetime: String,
    pub phyorvirt: String,
    pub status: String,
    pub prescription: String,
}

/// A medical speciality.
#[derive(Clone, Debug, PartialEq, Eq)]
pub struct Specialities {
    pub id: i64,
    pub name: String,
    pub desc: String,
}

/// The stored credentials of an account.
#[derive(Clone, Debug, PartialEq, Eq)]
pub struct LoginTable {
    pub salt: String,
    pub hashedpass: String,
    pub isdoctor: bool,
}

/// The principal that a verified token stands for: a patient's or a
/// doctor's identifier, and which of the two it is.
#[derive(Clone, Copy, Debug, PartialEq, Eq, Structural)]
pub struct JWT {
    pub isdoctor: bool,
    pub id: i64,
}

/// The claims that a session token carries: the role, the identifier in
/// decimal, and an expiry.
#[derive(Clone, Debug, PartialEq, Eq)]
pub struct InternalJWT {
    pub isdoctor: bool,
    pub id: String,
    pub exp: usize,
}

} // verus!
