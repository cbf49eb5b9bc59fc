use clinic::booking::{BookingAction, BookingEvent, BookingState, DOCTOR_APPOINTMENTS_QUERY};
use clinic::credentials::{
    LoginAction, LoginEvent, LoginState, RegisterAction, RegisterEvent, RegisterState,
    ACCOUNT_QUERY, REGISTER_STATEMENT,
};
use clinic::database::{
    init, Database, APPOINTMENT_TYPES_QUERY, DOCTOR_PRICES_BY_CITY_QUERY,
    DOCTOR_PRICES_BY_TYPE_AND_CITY_QUERY, DOCTOR_PRICES_BY_TYPE_QUERY, DOCTOR_PRICES_QUERY,
    DOCTOR_STATEMENT, PATIENT_INFO_QUERY, PATIENT_STATEMENT, PRESCRIPTIONS_QUERY,
    PREV_APPOINTMENTS_QUERY, SAME_CITY_DOCTORS_QUERY, SPECIALITIES_QUERY,
};
use clinic::db_structs::{Prescriptions, JWT};
use clinic::error::Failure;
use clinic::statement::{Param, Statement};
use clinic::token::issue;

fn conn() -> Database {
    Database::new(b"secret".to_vec())
}

fn registration(email: &str, password: &str, isdoctor: bool) -> Statement {
    match conn().register(
        &email.to_string(),
        &password.to_string(),
        isdoctor,
        RegisterState::Start,
        RegisterEvent::Begin,
    ) {
        (RegisterState::AwaitInsert, RegisterAction::Insert(statement)) => statement,
        other => panic!("no write: {:?}", other),
    }
}

fn text(value: &str) -> Param {
    Param::Text(value.to_string())
}

#[test]
fn init_needs_the_store_and_the_secret() {
    assert!(init(None, None).is_none());
    assert!(init(Some("postgres://db".to_string()), None).is_none());
    assert!(init(None, Some("secret".to_string())).is_none());
    let (url, conn) = init(Some("postgres://db".to_string()), Some("secret".to_string())).unwrap();
    assert_eq!(url, "postgres://db");
    let token = issue(b"secret", 1, false).unwrap();
    assert_eq!(conn.verify_jwt(&token), Some(JWT { isdoctor: false, id: 1 }));
}

#[test]
fn init_takes_the_secret_as_its_bytes() {
    let (_, conn) = init(Some(String::new()), Some("s\u{e9}cret".to_string())).unwrap();
    let bytes = [b's', 0xc3, 0xa9, b'c', b'r', b'e', b't'];
    let token = issue(&bytes, 1, true).unwrap();
    assert_eq!(conn.verify_jwt(&token), Some(JWT { isdoctor: true, id: 1 }));
    assert_eq!(conn.verify_jwt(&issue(b"secret", 1, true).unwrap()), None);
}

#[test]
fn get_query_result_gives_the_rows_or_none() {
    let row = Prescriptions {
        docname: "d".to_string(),
        timestamp: "t".to_string(),
        prescription: "p".to_string(),
    };
    assert_eq!(conn().get_query_result(Some(vec![row.clone(), row.clone()])), vec![row.clone(), row]);
    assert_eq!(conn().get_query_result(Some(Vec::<Prescriptions>::new())), vec![]);
    assert_eq!(conn().get_query_result::<Prescriptions>(None), vec![]);
}

#[test]
fn listings_of_a_patient_bind_the_patient() {
    assert_eq!(
        conn().view_prescriptions(12),
        Statement { text: PRESCRIPTIONS_QUERY, params: vec![Param::Int(12)] }
    );
    assert_eq!(
        conn().view_prev_appointments(-3),
        Statement { text: PREV_APPOINTMENTS_QUERY, params: vec![Param::Int(-3)] }
    );
    assert_eq!(
        conn().view_patient_info(i64::MAX),
        Statement { text: PATIENT_INFO_QUERY, params: vec![Param::Int(i64::MAX)] }
    );
}

#[test]
fn listing_of_a_doctor_binds_the_doctor() {
    assert_eq!(
        conn().view_doctor_appointments(4),
        Statement { text: DOCTOR_APPOINTMENTS_QUERY, params: vec![Param::Int(4)] }
    );
}

#[test]
fn listing_of_a_city_binds_the_city() {
    assert_eq!(
        conn().view_same_city_doctors("Pune".to_string()),
        Statement { text: SAME_CITY_DOCTORS_QUERY, params: vec![text("Pune")] }
    );
    assert_eq!(
        conn().view_same_city_doctors("' or 1=1; --".to_string()),
        Statement { text: SAME_CITY_DOCTORS_QUERY, params: vec![text("' or 1=1; --")] }
    );
}

#[test]
fn listings_without_input_bind_nothing() {
    assert_eq!(conn().view_specialities(), Statement { text: SPECIALITIES_QUERY, params: vec![] });
    assert_eq!(
        conn().view_appointment_types(),
        Statement { text: APPOINTMENT_TYPES_QUERY, params: vec![] }
    );
}

#[test]
fn doctor_prices_narrow_by_what_is_given() {
    let city = "Pune".to_string();
    let apptype = "checkup".to_string();
    let none = String::new();
    assert_eq!(
        conn().view_doctor_prices(&none, &none),
        Statement { text: DOCTOR_PRICES_QUERY, params: vec![] }
    );
    assert_eq!(
        conn().view_doctor_prices(&none, &apptype),
        Statement { text: DOCTOR_PRICES_BY_TYPE_QUERY, params: vec![text("checkup")] }
    );
    assert_eq!(
        conn().view_doctor_prices(&city, &none),
        Statement { text: DOCTOR_PRICES_BY_CITY_QUERY, params: vec![text("Pune")] }
    );
    assert_eq!(
        conn().view_doctor_prices(&city, &apptype),
        Statement {
            text: DOCTOR_PRICES_BY_TYPE_AND_CITY_QUERY,
            params: vec![text("checkup"), text("Pune")],
        }
    );
}

#[test]
fn doctor_prices_take_blank_text_as_given() {
    let blank = " ".to_string();
    assert_eq!(
        conn().view_doctor_prices(&blank, &String::new()),
        Statement { text: DOCTOR_PRICES_BY_CITY_QUERY, params: vec![text(" ")] }
    );
}

#[test]
fn every_statement_has_as_many_placeholders_as_values() {
    let s = "x".to_string();
    let statements = vec![
        conn().view_prescriptions(1),
        conn().view_prev_appointments(1),
        conn().view_patient_info(1),
        conn().view_doctor_appointments(1),
        conn().view_same_city_doctors(s.clone()),
        conn().view_specialities(),
        conn().view_appointment_types(),
        conn().view_doctor_prices(&String::new(), &String::new()),
        conn().view_doctor_prices(&s, &String::new()),
        conn().view_doctor_prices(&String::new(), &s),
        conn().view_doctor_prices(&s, &s),
        conn().add_new_patient(&s, &s, &s),
        conn().add_new_doctor(&s, 1, &s, &s, &s, &s),
        registration("x", "x", true),
    ];
    for statement in statements {
        let mut highest = 0;
        for n in 1..=9 {
            if statement.text.contains(&format!("${}", n)) {
                highest = n;
            }
        }
        assert_eq!(highest, statement.params.len(), "in {:?}", statement.text);
        for n in 1..=highest {
            assert!(statement.text.contains(&format!("${}", n)), "in {:?}", statement.text);
        }
    }
}

#[test]
fn add_new_patient_binds_the_profile() {
    assert_eq!(
        conn().add_new_patient(&"Ann".to_string(), &"a@x.com".to_string(), &"123".to_string()),
        Statement { text: PATIENT_STATEMENT, params: vec![text("Ann"), text("a@x.com"), text("123")] }
    );
}

#[test]
fn add_new_doctor_binds_the_profile() {
    assert_eq!(
        conn().add_new_doctor(
            &"Bob".to_string(),
            4,
            &"Pune".to_string(),
            &"1 Road".to_string(),
            &"b@x.com".to_string(),
            &"456".to_string(),
        ),
        Statement {
            text: DOCTOR_STATEMENT,
            params: vec![
                text("Bob"),
                Param::Int(4),
                text("Pune"),
                text("1 Road"),
                text("b@x.com"),
                text("456"),
            ],
        }
    );
}

#[test]
fn register_on_the_service_makes_the_insert_statement() {
    let statement = registration("a@x.com", "pw1", true);
    assert_eq!(statement.text, REGISTER_STATEMENT);
    assert_eq!(statement.params[0], text("a@x.com"));
    assert_eq!(statement.params[3], Param::Flag(true));
}

#[test]
fn login_on_the_service_begins_with_the_account() {
    let (state, action) = conn().login(
        &"a@x.com".to_string(),
        &"pw1".to_string(),
        LoginState::Start,
        LoginEvent::Begin,
    );
    assert_eq!(state, LoginState::AwaitAccount);
    assert_eq!(
        action,
        LoginAction::FindAccount(Statement { text: ACCOUNT_QUERY, params: vec![text("a@x.com")] })
    );
}

#[test]
fn login_on_the_service_signs_under_its_secret() {
    let (state, action) = conn().login(
        &"a@x.com".to_string(),
        &"pw1".to_string(),
        LoginState::AwaitPrincipal { isdoctor: true },
        LoginEvent::Principal(Some(77)),
    );
    assert_eq!(state, LoginState::Finished);
    match action {
        LoginAction::Return(Ok(token)) => {
            assert_eq!(conn().verify_jwt(&token), Some(JWT { isdoctor: true, id: 77 }));
            assert_eq!(Database::new(b"other".to_vec()).verify_jwt(&token), None);
        }
        other => panic!("no token: {:?}", other),
    }
}

#[test]
fn booking_on_the_service_refuses_an_unreadable_time() {
    let s = "x".to_string();
    assert_eq!(
        conn().add_new_appointment(
            1,
            2,
            3,
            &"not-a-date".to_string(),
            &s,
            &s,
            &s,
            BookingState::Start,
            BookingEvent::Begin,
        ),
        (BookingState::Finished, BookingAction::Return(Err(Failure::Validation)))
    );
}

#[test]
fn verify_jwt_takes_the_token_bare_or_behind_the_scheme() {
    let token = issue(b"secret", 9, false).unwrap();
    let expected = Some(JWT { isdoctor: false, id: 9 });
    assert_eq!(conn().verify_jwt(&token), expected);
    assert_eq!(conn().verify_jwt(&format!("Bearer {}", token)), expected);
    assert_eq!(conn().verify_jwt("Bearer"), None);
}
