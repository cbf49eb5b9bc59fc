use clinic::access::{authenticate, authorize};
use clinic::database::Database;
use clinic::token::issue;
use clinic::db_structs::JWT;

#[test]
fn authorize_wants_the_same_identifier_and_role() {
    let principal = JWT { isdoctor: false, id: 5 };
    assert!(authorize(&principal, 5, false));
    assert!(!authorize(&principal, 5, true));
    assert!(!authorize(&principal, 6, false));
    assert!(!authorize(&principal, 6, true));
    assert!(!authorize(&principal, -5, false));
    let doctor = JWT { isdoctor: true, id: 5 };
    assert!(authorize(&doctor, 5, true));
    assert!(!authorize(&doctor, 5, false));
}

#[test]
fn authenticate_lets_the_principal_through() {
    let conn = Database::new(b"secret".to_vec());
    let token = issue(b"secret", 5, false).unwrap();
    assert!(authenticate(&conn, Some(&token), &5, false));
    assert!(authenticate(&conn, Some(&format!("Bearer {}", token)), &5, false));
}

#[test]
fn authenticate_refuses_another_principal() {
    let conn = Database::new(b"secret".to_vec());
    let token = issue(b"secret", 5, false).unwrap();
    assert!(!authenticate(&conn, Some(&token), &6, false));
    assert!(!authenticate(&conn, Some(&token), &5, true));
}

#[test]
fn authenticate_refuses_a_request_without_a_token() {
    let conn = Database::new(b"secret".to_vec());
    assert!(!authenticate(&conn, None, &5, false));
    assert!(!authenticate(&conn, Some(""), &5, false));
    assert!(!authenticate(&conn, Some("Bearer "), &5, false));
    assert!(!authenticate(&conn, Some("Bearer x.y.z"), &5, false));
}

#[test]
fn authenticate_refuses_a_token_of_another_secret() {
    let conn = Database::new(b"secret".to_vec());
    let other = Database::new(b"other".to_vec());
    let token = issue(b"other", 5, false).unwrap();
    assert!(!authenticate(&conn, Some(&token), &5, false));
    assert!(authenticate(&other, Some(&token), &5, false));
}
