//! Who may do what: a request is let through only if it carries a token
//! whose principal is exactly the one the request is about.

use vstd::prelude::*;
use crate::database::Database;
use crate::db_structs::JWT;
use crate::token::verified_principal;

verus! {

/// A principal may act for the identifier `id` in the role `isdoctor`:
/// both are its own. There is no other grant.
pub open spec fn authorized(principal: JWT, id: i64, isdoctor: bool) -> bool {
    principal.id == id && principal.isdoctor == isdoctor
}

/// A raw authorization value, if there is one, verifies under `secret` to
/// a principal that may act for `id` in the role `isdoctor`.
pub open spec fn authenticated(
    secret: Seq<u8>,
    authorization: Option<Seq<char>>,
    id: i64,
    isdoctor: bool,
) -> bool {
    match authorization {
        Some(raw) => match verified_principal(secret, raw) {
            Some(principal) => authorized(principal, id, isdoctor),
            None => false,
        },
        None => false,
    }
}

/// Tells whether a verified principal may act for `requested_id` in the
/// role `requested_isdoctor`.
pub fn authorize(principal: &JWT, requested_id: i64, requested_isdoctor: bool) -> (r: bool)
    ensures
        r == authorized(*principal, requested_id, requested_isdoctor),
{
    principal.id == requested_id && principal.isdoctor == requested_isdoctor
}

/// Tells whether a request may act for `given_id` in the role `isdoctor`.
/// `authorization` is the request's authorization header where it has one
/// that is text. A request without one is refused, and so is one whose
/// token does not verify.
pub fn authenticate(conn: &Database, authorization: Option<&str>, given_id: &i64, isdoctor: bool) -> (r: bool)
    ensures
        r == authenticated(
            conn.secret(),
            match authorization {
                Some(raw) => Some(raw@),
                None => None,
            },
            *given_id,
            isdoctor,
        ),
{
    match authorization {
        Some(raw) => match conn.verify_jwt(raw) {
            Some(principal) => authorize(&principal, *given_id, isdoctor),
            None => false,
        },
        None => false,
    }
}

/// A principal may act for itself in its own role, and not in the other.
pub proof fn lemma_own_role_only(principal: JWT)
    ensures
        authorized(principal, principal.id, principal.isdoctor),
        !authorized(principal, principal.id, !principal.isdoctor),
{
}

/// A grant names the principal: where a principal may act for an
/// identifier in a role, the identifier and the role are its own.
pub proof fn lemma_grant_is_exact(principal: JWT, id: i64, isdoctor: bool)
    requires
        authorized(principal, id, isdoctor),
    ensures
        principal == (JWT { isdoctor, id }),
{
}

} // verus!
